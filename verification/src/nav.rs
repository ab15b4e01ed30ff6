//! The navigation position: the stack of levels the reader has entered, each with
//! its rows and the row the cursor stands on.
use crate::data::row::{clone_rows, rows_shown};
use crate::data::{Level, Row, Selection};
use crate::text::{joined3, Text};
use vstd::prelude::*;

verus! {

/// One level of the stack.
#[derive(Debug, PartialEq, Eq)]
#[verifier::ext_equal]
pub struct Frame<S = String, R = Vec<Row>> {
    /// Which level it is.
    pub level: Level<S>,
    /// What the breadcrumb calls it.
    pub title: S,
    /// Its rows, in the order they are listed.
    pub rows: R,
    /// The row the cursor stands on, counted from the first.
    pub cursor: usize,
}

/// A level of the stack by what it shows.
pub type FrameModel = Frame<Text, Seq<Row<Text>>>;

impl View for Frame {
    type V = FrameModel;

    open spec fn view(&self) -> FrameModel {
        Frame {
            level: self.level@,
            title: self.title@,
            rows: rows_shown(self.rows@),
            cursor: self.cursor,
        }
    }
}

impl FrameModel {
    /// Whether the cursor stands on a row, or nowhere only because there is none.
    pub open spec fn in_range(self) -> bool {
        if self.rows.len() == 0 {
            self.cursor == 0
        } else {
            self.cursor < self.rows.len()
        }
    }

    /// The row the cursor stands on.
    pub open spec fn spec_current(self) -> Option<Row<Text>> {
        if self.cursor < self.rows.len() {
            Some(self.rows[self.cursor as int])
        } else {
            None
        }
    }

    /// What the row the cursor stands on points at.
    pub open spec fn selected(self) -> Option<Selection<Text>> {
        match self.spec_current() {
            Some(row) => Some(row.selection),
            None => None,
        }
    }

    /// The same level with the cursor elsewhere.
    pub open spec fn at(self, cursor: usize) -> FrameModel {
        Frame { cursor, ..self }
    }
}

impl Frame {
    /// The row the cursor stands on, and `None` on a level with no rows.
    pub fn current(&self) -> (r: Option<&Row>)
        ensures
            (match r {
                Some(row) => self@.spec_current() == Some(row@),
                None => self@.spec_current() is None,
            }),
    {
        if self.cursor < self.rows.len() {
            Some(&self.rows[self.cursor])
        } else {
            None
        }
    }
}

/// The first row of a list that points at a selection.
pub open spec fn position(rows: Seq<Row<Text>>, wanted: Selection<Text>) -> Option<int>
    decreases rows.len(),
{
    if rows.len() == 0 {
        None
    } else if rows[0].selection == wanted {
        Some(0)
    } else {
        match position(rows.drop_first(), wanted) {
            Some(i) => Some(i + 1),
            None => None,
        }
    }
}

/// A found row is in the list, points at what was wanted, and no row before it
/// does; and nothing is found exactly where no row points there.
pub proof fn a_position_is_the_first(rows: Seq<Row<Text>>, wanted: Selection<Text>)
    ensures
        (match position(rows, wanted) {
            Some(i) => 0 <= i < rows.len() && rows[i].selection == wanted && forall|j: int|
                0 <= j < i ==> (#[trigger] rows[j]).selection != wanted,
            None => forall|j: int| 0 <= j < rows.len() ==> (#[trigger] rows[j]).selection != wanted,
        }),
    decreases rows.len(),
{
    if rows.len() > 0 && rows[0].selection != wanted {
        let rest = rows.drop_first();
        a_position_is_the_first(rest, wanted);
        match position(rest, wanted) {
            Some(i) => {
                assert(rows[i + 1] == rest[i]);
                assert forall|j: int| 0 <= j < i + 1 implies (#[trigger] rows[j]).selection
                    != wanted by {
                    if j > 0 {
                        assert(rest[j - 1] == rows[j]);
                    }
                }
            },
            None => {
                assert forall|j: int| 0 <= j < rows.len() implies (#[trigger] rows[j]).selection
                    != wanted by {
                    if j > 0 {
                        assert(rest[j - 1] == rows[j]);
                    }
                }
            },
        }
    }
}

/// Find the first row of a list that points at a selection.
fn find(rows: &Vec<Row>, wanted: &Selection) -> (r: Option<usize>)
    ensures
        (match r {
            Some(i) => position(rows_shown(rows@), wanted@) == Some(i as int),
            None => position(rows_shown(rows@), wanted@) is None,
        }),
{
    let ghost shown = rows_shown(rows@);
    let mut i: usize = 0;
    assert(shown.skip(0) == shown);
    while i < rows.len()
        invariant
            i <= rows.len(),
            shown == rows_shown(rows@),
            (match position(shown.skip(i as int), wanted@) {
                Some(k) => position(shown, wanted@) == Some(k + i),
                None => position(shown, wanted@) is None,
            }),
        decreases rows.len() - i,
    {
        assert(shown.skip(i as int)[0] == rows@[i as int]@);
        assert(shown.skip(i as int).drop_first() == shown.skip(i + 1));
        if rows[i].selection.same(wanted) {
            return Some(i);
        }
        i += 1;
    }
    None
}

/// What the breadcrumb calls the level a row opens: an epic by its id, a ticket by
/// its number and name, a collection by its name.
pub open spec fn crumb_of(row: Row<Text>) -> Text {
    match row.selection {
        Selection::Node(_) => row.label + " "@ + row.name,
        Selection::Collection(..) => row.name,
        _ => row.label,
    }
}

/// What the breadcrumb calls the level a row opens.
fn crumb(row: &Row) -> (r: String)
    ensures
        r@ == crumb_of(row@),
{
    match &row.selection {
        Selection::Node(_) => joined3(&row.label, " ", &row.name),
        Selection::Collection(..) => row.name.clone(),
        _ => row.label.clone(),
    }
}

/// The position: the levels entered, the roster first.
///
/// Invariant: the roster is always there and only there, and every level's cursor
/// stands on one of its rows.
#[derive(Debug, PartialEq, Eq)]
#[verifier::ext_equal]
pub struct Nav<F = Vec<Frame>> {
    /// The levels entered, the roster first and the one on screen last.
    pub frames: F,
}

/// The position by what its levels show.
pub type NavModel = Nav<Seq<FrameModel>>;

/// What a stack of levels shows.
pub open spec fn frames_shown(frames: Seq<Frame>) -> Seq<FrameModel> {
    frames.map_values(|frame: Frame| frame@)
}

impl View for Nav {
    type V = NavModel;

    open spec fn view(&self) -> NavModel {
        Nav { frames: frames_shown(self.frames@) }
    }
}

/// Where the cursor of a re-read level lands: on the row it stood on wherever that
/// is now, and otherwise as near to where it stood as there are rows.
pub open spec fn landing(
    rows: Seq<Row<Text>>,
    wanted: Option<Selection<Text>>,
    was: usize,
) -> usize {
    let kept = match wanted {
        Some(selection) => position(rows, selection),
        None => None,
    };
    match kept {
        Some(i) => i as usize,
        None => if was < rows.len() {
            was
        } else if rows.len() > 0 {
            (rows.len() - 1) as usize
        } else {
            0
        },
    }
}

/// A level re-read: the rows it was given, or the rows it has where it could not be
/// read.
pub open spec fn reread(frame: FrameModel, listing: Option<Seq<Row<Text>>>) -> FrameModel {
    match listing {
        None => frame,
        Some(rows) => Frame {
            rows,
            cursor: landing(rows, frame.selected(), frame.cursor),
            ..frame
        },
    }
}

/// What a level is called once the level above it has been re-read: what the row it
/// was entered from is called now, or what it was called where that row is gone.
pub open spec fn retitled(frame: FrameModel, above: Option<Seq<Row<Text>>>) -> FrameModel {
    match (above, frame.level.spec_selection()) {
        (Some(rows), Some(selection)) => match position(rows, selection) {
            Some(i) => Frame { title: crumb_of(rows[i]), ..frame },
            None => frame,
        },
        _ => frame,
    }
}

/// What was listed for one of the levels, if anything was.
pub open spec fn listed_at(listings: Seq<Option<Vec<Row>>>, i: int) -> Option<Seq<Row<Text>>> {
    if 0 <= i < listings.len() {
        match listings[i] {
            Some(rows) => Some(rows_shown(rows@)),
            None => None,
        }
    } else {
        None
    }
}

/// A stack of levels re-read, each from its own listing.
pub open spec fn reread_all(
    frames: Seq<FrameModel>,
    listings: Seq<Option<Vec<Row>>>,
) -> Seq<FrameModel> {
    Seq::new(
        frames.len(),
        |i: int|
            retitled(reread(frames[i], listed_at(listings, i)), listed_at(listings, i - 1)),
    )
}

/// A stack of levels without the emptied collections it ends with: a collection
/// with no members is not a level anybody can stand in.
pub open spec fn without_emptied(frames: Seq<FrameModel>) -> Seq<FrameModel>
    decreases frames.len(),
{
    if frames.len() > 1 && frames.last().level is Collection && frames.last().rows.len() == 0 {
        without_emptied(frames.drop_last())
    } else {
        frames
    }
}

impl NavModel {
    /// A position at the first row of the roster.
    pub open spec fn at_the_roster(rows: Seq<Row<Text>>) -> NavModel {
        Nav {
            frames: seq![
                Frame { level: Level::<Text>::Epics, title: "epics"@, rows, cursor: 0 },
            ],
        }
    }

    /// Whether the roster is there and only at the root, and every cursor stands
    /// on a row.
    pub open spec fn wf(self) -> bool {
        &&& self.frames.len() > 0
        &&& self.frames[0].level is Epics
        &&& forall|i: int|
            0 < i < self.frames.len() ==> !((#[trigger] self.frames[i]).level is Epics)
        &&& forall|i: int| 0 <= i < self.frames.len() ==> (#[trigger] self.frames[i]).in_range()
    }

    /// The level on screen.
    pub open spec fn spec_frame(self) -> FrameModel {
        self.frames.last()
    }

    /// What the highlighted row points at.
    pub open spec fn selected(self) -> Option<Selection<Text>> {
        self.spec_frame().selected()
    }

    /// The same position with the cursor of the level on screen elsewhere.
    pub open spec fn at(self, cursor: usize) -> NavModel {
        Nav { frames: self.frames.update(self.frames.len() - 1, self.spec_frame().at(cursor)) }
    }

    /// The cursor one row down, where there is one.
    pub open spec fn down(self) -> NavModel {
        if self.spec_frame().cursor + 1 < self.spec_frame().rows.len() {
            self.at((self.spec_frame().cursor + 1) as usize)
        } else {
            self
        }
    }

    /// The cursor one row up, where there is one.
    pub open spec fn up(self) -> NavModel {
        if self.spec_frame().cursor > 0 {
            self.at((self.spec_frame().cursor - 1) as usize)
        } else {
            self
        }
    }

    /// The cursor on the last row.
    pub open spec fn bottom(self) -> NavModel {
        if self.spec_frame().rows.len() > 0 {
            self.at((self.spec_frame().rows.len() - 1) as usize)
        } else {
            self
        }
    }

    /// The level the highlighted row opens, if it opens one.
    pub open spec fn spec_below(self) -> Option<Level<Text>> {
        match self.spec_frame().spec_current() {
            Some(row) => if row.spec_enterable() {
                row.selection.spec_level()
            } else {
                None
            },
            None => None,
        }
    }

    /// The position inside the highlighted row's level.
    pub open spec fn descended(self, rows: Seq<Row<Text>>) -> NavModel {
        match (self.spec_below(), self.spec_frame().spec_current()) {
            (Some(level), Some(row)) => Nav {
                frames: self.frames.push(
                    Frame { level, title: crumb_of(row), rows, cursor: 0 },
                ),
            },
            _ => self,
        }
    }

    /// The position in the level above, or where it is at the roster.
    pub open spec fn ascended(self) -> NavModel {
        if self.frames.len() > 1 {
            Nav { frames: self.frames.drop_last() }
        } else {
            self
        }
    }

    /// The position once every level has been re-read.
    pub open spec fn reloaded(self, listings: Seq<Option<Vec<Row>>>) -> NavModel {
        Nav { frames: without_emptied(reread_all(self.frames, listings)) }
    }

    /// What the preview shows: what the highlighted row points at, and the level's
    /// own entity where there is no row.
    pub open spec fn spec_preview_target(self) -> Option<Selection<Text>> {
        match self.selected() {
            Some(selection) => Some(selection),
            None => self.spec_frame().level.spec_selection(),
        }
    }
}

impl Nav {
    /// A position at the roster.
    pub fn new(rows: Vec<Row>) -> (r: Nav)
        ensures
            r@.wf(),
            r@ == NavModel::at_the_roster(rows_shown(rows@)),
    {
        let frame = Frame { level: Level::Epics, title: "epics".to_owned(), rows, cursor: 0 };
        let mut frames: Vec<Frame> = Vec::new();
        frames.push(frame);
        let r = Nav { frames };
        assert(r@.frames =~= seq![frame@]);
        r
    }

    /// The level on screen.
    pub fn frame(&self) -> (r: &Frame)
        requires
            self@.wf(),
        ensures
            r@ == self@.spec_frame(),
    {
        &self.frames[self.frames.len() - 1]
    }

    /// The rows of the level on screen.
    pub fn rows(&self) -> (r: &Vec<Row>)
        requires
            self@.wf(),
        ensures
            rows_shown(r@) == self@.spec_frame().rows,
    {
        &self.frames[self.frames.len() - 1].rows
    }

    /// Which row of the level on screen the cursor stands on.
    pub fn cursor(&self) -> (r: usize)
        requires
            self@.wf(),
        ensures
            r == self@.spec_frame().cursor,
    {
        self.frames[self.frames.len() - 1].cursor
    }

    /// Whether the level on screen is the roster.
    pub fn at_roster(&self) -> (r: bool)
        requires
            self@.wf(),
        ensures
            r == (self@.frames.len() == 1),
            r == (self@.spec_frame().level is Epics),
    {
        assert(self@.frames.len() > 1 ==> !(self@.frames[self@.frames.len() - 1].level is Epics));
        self.frames.len() == 1
    }

    /// Whether the level on screen is a collection's.
    pub fn at_collection(&self) -> (r: bool)
        requires
            self@.wf(),
        ensures
            r == (self@.spec_frame().level is Collection),
    {
        matches!(self.frames[self.frames.len() - 1].level, Level::Collection(..))
    }

    /// What the breadcrumb reads, the roster first.
    pub fn crumbs(&self) -> (r: Vec<String>)
        ensures
            r@.len() == self@.frames.len(),
            forall|i: int| 0 <= i < r@.len() ==> (#[trigger] r@[i])@ == self@.frames[i].title,
    {
        let mut out: Vec<String> = Vec::new();
        let mut i: usize = 0;
        while i < self.frames.len()
            invariant
                i <= self.frames.len(),
                out@.len() == i,
                forall|j: int| 0 <= j < i ==> (#[trigger] out@[j])@ == self@.frames[j].title,
            decreases self.frames.len() - i,
        {
            out.push(self.frames[i].title.clone());
            i += 1;
        }
        out
    }

    /// The levels entered, which are what a reload re-reads, the roster first.
    pub fn levels(&self) -> (r: Vec<Level>)
        ensures
            r@.len() == self@.frames.len(),
            forall|i: int| 0 <= i < r@.len() ==> (#[trigger] r@[i])@ == self@.frames[i].level,
    {
        let mut out: Vec<Level> = Vec::new();
        let mut i: usize = 0;
        while i < self.frames.len()
            invariant
                i <= self.frames.len(),
                out@.len() == i,
                forall|j: int| 0 <= j < i ==> (#[trigger] out@[j])@ == self@.frames[j].level,
            decreases self.frames.len() - i,
        {
            out.push(self.frames[i].level.clone());
            i += 1;
        }
        out
    }

    /// Put the cursor of the level on screen on a row it has.
    fn move_to(&mut self, cursor: usize)
        requires
            old(self)@.wf(),
            old(self)@.spec_frame().at(cursor).in_range(),
        ensures
            final(self)@.wf(),
            final(self)@ == old(self)@.at(cursor),
    {
        let last = self.frames.len() - 1;
        self.frames[last].cursor = cursor;
        assert(self@.frames =~= old(self)@.at(cursor).frames);
    }

    /// Move the cursor down one row, stopping at the last.
    pub fn cursor_down(&mut self)
        requires
            old(self)@.wf(),
        ensures
            final(self)@.wf(),
            final(self)@ == old(self)@.down(),
    {
        let cursor = self.cursor();
        if cursor < self.rows().len() && cursor + 1 < self.rows().len() {
            self.move_to(cursor + 1);
        }
    }

    /// Move the cursor up one row, stopping at the first.
    pub fn cursor_up(&mut self)
        requires
            old(self)@.wf(),
        ensures
            final(self)@.wf(),
            final(self)@ == old(self)@.up(),
    {
        let cursor = self.cursor();
        if cursor > 0 {
            assert(self@.frames[self@.frames.len() - 1].in_range());
            self.move_to(cursor - 1);
        }
    }

    /// Move the cursor to the first row.
    pub fn cursor_first(&mut self)
        requires
            old(self)@.wf(),
        ensures
            final(self)@.wf(),
            final(self)@ == old(self)@.at(0),
    {
        self.move_to(0);
    }

    /// Move the cursor to the last row.
    pub fn cursor_last(&mut self)
        requires
            old(self)@.wf(),
        ensures
            final(self)@.wf(),
            final(self)@ == old(self)@.bottom(),
    {
        let count = self.rows().len();
        if count > 0 {
            self.move_to(count - 1);
        }
    }

    /// The level entering the highlighted row would open, and `None` where there
    /// is no row or nothing below it.
    pub fn below(&self) -> (r: Option<Level>)
        requires
            self@.wf(),
        ensures
            (match r {
                Some(level) => self@.spec_below() == Some(level@),
                None => self@.spec_below() is None,
            }),
    {
        match self.frame().current() {
            Some(row) => if row.enterable() {
                row.selection.level()
            } else {
                None
            },
            None => None,
        }
    }

    /// Whether the highlighted row opens a level.
    pub fn can_descend(&self) -> (r: bool)
        requires
            self@.wf(),
        ensures
            r == (self@.spec_below() is Some),
    {
        self.below().is_some()
    }

    /// Enter the highlighted row's level, with the rows that were listed for it.
    /// Nothing happens where the row opens none.
    pub fn descend(&mut self, rows: Vec<Row>)
        requires
            old(self)@.wf(),
        ensures
            final(self)@.wf(),
            final(self)@ == old(self)@.descended(rows_shown(rows@)),
    {
        let level = match self.below() {
            Some(level) => level,
            None => return ,
        };
        let title = match self.frame().current() {
            Some(row) => crumb(row),
            None => return ,
        };
        let frame = Frame { level, title, rows, cursor: 0 };
        assert(frames_shown(self.frames@.push(frame)) =~= frames_shown(self.frames@).push(frame@));
        self.frames.push(frame);
        assert(self@ =~= old(self)@.descended(rows_shown(rows@)));
    }

    /// Leave the level on screen for the one above, landing on the row it was
    /// entered from. The roster is never left.
    pub fn ascend(&mut self)
        requires
            old(self)@.wf(),
        ensures
            final(self)@.wf(),
            final(self)@ == old(self)@.ascended(),
    {
        if self.frames.len() > 1 {
            self.frames.pop();
            assert(self@.frames =~= old(self)@.frames.drop_last());
        }
    }

    /// Re-read every level from what was listed for each, in the order
    /// [`Nav::levels`] names them.
    ///
    /// A level that could not be read, or that nothing was listed for, keeps the
    /// rows it has. The cursor of a level follows the row it stood on, and stays as
    /// near to where it was as there are rows where that row is gone; a collection
    /// left with no members is left for the level it was entered from.
    pub fn reload(&mut self, listings: &Vec<Option<Vec<Row>>>)
        requires
            old(self)@.wf(),
        ensures
            final(self)@.wf(),
            final(self)@ == old(self)@.reloaded(listings@),
    {
        let ghost before = self@.frames;
        let ghost after = reread_all(before, listings@);
        let mut frames: Vec<Frame> = Vec::new();
        let mut i: usize = 0;
        assert(frames_shown(frames@) =~= after.take(0));
        while i < self.frames.len()
            invariant
                i <= self.frames.len(),
                self@.wf(),
                before == self@.frames,
                after == reread_all(before, listings@),
                frames_shown(frames@) == after.take(i as int),
            decreases self.frames.len() - i,
        {
            let frame = reread_frame(&self.frames, listings, i);
            assert(frame@ == after[i as int]);
            assert(frames_shown(frames@.push(frame)) =~= frames_shown(frames@).push(frame@));
            assert(after.take(i + 1) =~= after.take(i as int).push(after[i as int]));
            frames.push(frame);
            i += 1;
        }
        assert(after.take(after.len() as int) =~= after);
        proof {
            lemma_reread_wf(self@, listings@);
        }
        while frames.len() > 1 && matches!(frames[frames.len() - 1].level, Level::Collection(..))
            && frames[frames.len() - 1].rows.len() == 0
            invariant
                frames.len() > 0,
                (Nav { frames: frames_shown(frames@) }).wf(),
                without_emptied(frames_shown(frames@)) == without_emptied(after),
            decreases frames.len(),
        {
            assert(frames_shown(frames@.drop_last()) =~= frames_shown(frames@).drop_last());
            frames.pop();
        }
        self.frames = frames;
    }

    /// What the preview shows: what the highlighted row points at, and the level's
    /// own entity where there is no row. Nothing on the roster of an empty store.
    pub fn preview_target(&self) -> (r: Option<Selection>)
        requires
            self@.wf(),
        ensures
            (match r {
                Some(selection) => self@.spec_preview_target() == Some(selection@),
                None => self@.spec_preview_target() is None,
            }),
    {
        match self.frame().current() {
            Some(row) => Some(row.selection.clone()),
            None => self.frame().level.selection(),
        }
    }
}

/// One level of a stack re-read.
fn reread_frame(frames: &Vec<Frame>, listings: &Vec<Option<Vec<Row>>>, i: usize) -> (r: Frame)
    requires
        i < frames.len(),
    ensures
        r@ == reread_all(frames_shown(frames@), listings@)[i as int],
{
    let frame = &frames[i];
    let level = frame.level.clone();
    let mut title = frame.title.clone();
    if i > 0 && i - 1 < listings.len() {
        if let Some(above) = &listings[i - 1] {
            if let Some(selection) = level.selection() {
                if let Some(at) = find(above, &selection) {
                    proof {
                        a_position_is_the_first(rows_shown(above@), selection@);
                    }
                    title = crumb(&above[at]);
                }
            }
        }
    }
    if i < listings.len() {
        if let Some(rows) = &listings[i] {
            let kept = match frame.current() {
                Some(row) => find(rows, &row.selection),
                None => None,
            };
            let cursor: usize = match kept {
                Some(at) => at,
                None => if frame.cursor < rows.len() {
                    frame.cursor
                } else if rows.len() > 0 {
                    rows.len() - 1
                } else {
                    0
                },
            };
            return Frame { level, title, rows: clone_rows(rows), cursor };
        }
    }
    Frame { level, title, rows: clone_rows(&frame.rows), cursor: frame.cursor }
}

/// Re-reading every level leaves a position a reader can stand in.
proof fn lemma_reread_wf(nav: NavModel, listings: Seq<Option<Vec<Row>>>)
    requires
        nav.wf(),
    ensures
        (Nav { frames: reread_all(nav.frames, listings) }).wf(),
{
    let after = reread_all(nav.frames, listings);
    assert forall|i: int| 0 <= i < after.len() implies (#[trigger] after[i]).in_range() by {
        let frame = nav.frames[i];
        assert(frame.in_range());
        match listed_at(listings, i) {
            Some(rows) => {
                if let Some(selection) = frame.selected() {
                    a_position_is_the_first(rows, selection);
                    if 0 <= i < listings.len() {
                        if let Some(listed) = listings[i] {
                            assert(rows.len() == listed@.len());
                            assert(listed.len() == listed@.len());
                        }
                    }
                }
            },
            None => {},
        }
    }
    assert forall|i: int| 0 < i < after.len() implies !((#[trigger] after[i]).level is Epics) by {
        assert(!(nav.frames[i].level is Epics));
    }
}

/// Entering a level and leaving it lands exactly where the reader stood.
pub proof fn leaving_a_level_lands_where_it_was_entered(nav: NavModel, rows: Seq<Row<Text>>)
    requires
        nav.wf(),
        nav.spec_below() is Some,
    ensures
        nav.descended(rows).ascended() == nav,
{
    assert(nav.descended(rows).frames.drop_last() =~= nav.frames);
}

/// Leaving levels never leaves the roster.
pub proof fn the_roster_is_never_left(nav: NavModel)
    requires
        nav.wf(),
    ensures
        nav.ascended().wf(),
        nav.ascended().frames[0] == nav.frames[0],
        nav.frames.len() == 1 ==> nav.ascended() == nav,
{
}

/// A reload that read nothing changes nothing on screen, but for collections that
/// had no members left: a level the store could not be read for keeps the rows it
/// has.
pub proof fn an_unreadable_level_keeps_its_rows(nav: NavModel, listings: Seq<Option<Vec<Row>>>)
    requires
        forall|i: int| 0 <= i < listings.len() ==> (#[trigger] listings[i]) is None,
    ensures
        reread_all(nav.frames, listings) == nav.frames,
{
    assert(reread_all(nav.frames, listings) =~= nav.frames);
}

/// The cursor of a re-read level stays on the row it stood on for as long as that
/// row is listed.
pub proof fn a_reloaded_cursor_follows_its_row(
    frame: FrameModel,
    rows: Seq<Row<Text>>,
    selection: Selection<Text>,
    i: int,
)
    requires
        frame.selected() == Some(selection),
        0 <= i < rows.len() <= usize::MAX,
        rows[i].selection == selection,
    ensures
        reread(frame, Some(rows)).selected() == Some(selection),
{
    a_position_is_the_first(rows, selection);
}

/// Whether two positions differ in nothing but the cursor of the level on screen, which
/// stands on a given row.
pub open spec fn differs_in_the_cursor(before: NavModel, after: NavModel, cursor: int) -> bool {
    let last = before.frames.len() - 1;
    &&& after.frames.len() == before.frames.len()
    &&& forall|i: int| 0 <= i < last ==> after.frames[i] == before.frames[i]
    &&& after.frames[last].level == before.frames[last].level
    &&& after.frames[last].title == before.frames[last].title
    &&& after.frames[last].rows == before.frames[last].rows
    &&& after.frames[last].cursor == cursor
}

/// The cursor keys move the cursor of the level on screen by one row or to an end,
/// stopping there, and move nothing else.
pub proof fn the_cursor_moves_by_one_row_or_to_an_end(nav: NavModel)
    requires
        nav.wf(),
        nav.frames[nav.frames.len() - 1].rows.len() <= usize::MAX,
    ensures
        ({
            let frame = nav.frames[nav.frames.len() - 1];
            let cursor = frame.cursor as int;
            let count = frame.rows.len() as int;
            &&& differs_in_the_cursor(nav, nav.down(), if cursor + 1 < count {
                cursor + 1
            } else {
                cursor
            })
            &&& differs_in_the_cursor(nav, nav.up(), if cursor > 0 {
                cursor - 1
            } else {
                0
            })
            &&& differs_in_the_cursor(nav, nav.at(0), 0)
            &&& differs_in_the_cursor(nav, nav.bottom(), if count > 0 {
                count - 1
            } else {
                0
            })
            &&& cursor + 1 < count ==> nav.down().up() == nav
            &&& cursor > 0 ==> nav.up().down() == nav
        }),
{
    let last = nav.frames.len() - 1;
    assert(nav.frames[last].in_range());
    let cursor = nav.frames[last].cursor as int;
    if cursor + 1 < nav.frames[last].rows.len() {
        assert(nav.down().up().frames =~= nav.frames);
    }
    if cursor > 0 {
        assert(nav.up().down().frames =~= nav.frames);
    }
}

/// A position opens at the first row of the roster, called epics.
pub proof fn a_position_opens_at_the_roster(rows: Seq<Row<Text>>)
    ensures
        ({
            let nav = NavModel::at_the_roster(rows);
            &&& nav.frames.len() == 1
            &&& nav.frames[0].level is Epics
            &&& nav.frames[0].title == "epics"@
            &&& nav.frames[0].rows == rows
            &&& nav.frames[0].cursor == 0
            &&& rows.len() > 0 ==> nav.selected() == Some(rows[0].selection)
        }),
{
}

/// What the level on screen highlights is the row its cursor stands on; the preview shows
/// that, or the level's own entity where there is no row.
pub proof fn the_highlighted_row_is_under_the_cursor(nav: NavModel)
    requires
        nav.frames.len() > 0,
    ensures
        ({
            let frame = nav.frames[nav.frames.len() - 1];
            let standing = frame.cursor < frame.rows.len();
            let row = frame.rows[frame.cursor as int];
            &&& nav.spec_frame() == frame
            &&& standing ==> nav.spec_frame().spec_current() == Some(row)
            &&& standing ==> nav.selected() == Some(row.selection)
            &&& standing ==> nav.spec_preview_target() == Some(row.selection)
            &&& !standing ==> nav.spec_frame().spec_current() is None && nav.selected() is None
            &&& !standing ==> nav.spec_preview_target() == frame.level.spec_selection()
        }),
{
}

/// Entering a row opens its own level, at its first row and called as the row is: an
/// epic's under its id, a ticket's under its number and its name, a collection's under
/// its name where it has members. Nothing is entered from any other row, and every level
/// above stays as it was.
pub proof fn entering_a_row_opens_its_own_level(nav: NavModel, row: Row<Text>, rows: Seq<Row<Text>>)
    requires
        nav.frames.len() > 0,
        nav.frames[nav.frames.len() - 1].spec_current() == Some(row),
    ensures
        ({
            let count = nav.frames.len();
            let inside = nav.descended(rows);
            let opened = |level: Level<Text>, title: Text|
                {
                    &&& nav.spec_below() == Some(level)
                    &&& inside.frames.len() == count + 1
                    &&& forall|i: int| 0 <= i < count ==> inside.frames[i] == nav.frames[i]
                    &&& inside.frames[count as int] == (Frame { level, title, rows, cursor: 0 })
                };
            match row.selection {
                Selection::Epic(id) => opened(Level::Epic(id), row.label),
                Selection::Node(node) => opened(
                    Level::Node(node),
                    row.label + " "@ + row.name,
                ),
                Selection::Collection(container, kind) => if row.children > 0 {
                    opened(Level::Collection(container, kind), row.name)
                } else {
                    nav.spec_below() is None && inside == nav
                },
                _ => nav.spec_below() is None && inside == nav,
            }
        }),
{
}

/// A level with no row to stand on opens nothing.
pub proof fn no_row_opens_nothing(nav: NavModel, rows: Seq<Row<Text>>)
    requires
        nav.frames.len() > 0,
        nav.frames[nav.frames.len() - 1].cursor >= nav.frames[nav.frames.len() - 1].rows.len(),
    ensures
        nav.spec_below() is None,
        nav.descended(rows) == nav,
{
}

/// Leaving a level uncovers the one above it exactly as it was left; the roster stays.
pub proof fn leaving_a_level_uncovers_the_one_above(nav: NavModel)
    requires
        nav.frames.len() > 0,
    ensures
        nav.frames.len() == 1 ==> nav.ascended() == nav,
        nav.frames.len() > 1 ==> {
            &&& nav.ascended().frames.len() == nav.frames.len() - 1
            &&& forall|i: int|
                0 <= i < nav.frames.len() - 1 ==> nav.ascended().frames[i] == nav.frames[i]
        },
{
}

/// A row none before which points at a selection is where it is found.
proof fn lemma_position(rows: Seq<Row<Text>>, wanted: Selection<Text>, i: int)
    requires
        0 <= i <= rows.len(),
        forall|j: int| 0 <= j < i ==> (#[trigger] rows[j]).selection != wanted,
        i < rows.len() ==> rows[i].selection == wanted,
    ensures
        position(rows, wanted) == (if i < rows.len() {
            Some(i)
        } else {
            None
        }),
{
    a_position_is_the_first(rows, wanted);
    if let Some(at) = position(rows, wanted) {
        if at < i {
            assert(rows[at].selection != wanted);
        } else if i < at {
            assert(rows[i].selection != wanted);
        }
    } else if i < rows.len() {
        assert(rows[i].selection != wanted);
    }
}

/// A re-read level shows the rows it was given, with the cursor on the row it stood on;
/// where that is gone, on the row now in its place, or on the last where there are fewer.
/// A level that could not be read stays as it was. `i` is where the row it stood on is
/// now, or past the last.
pub proof fn a_reread_level_keeps_the_readers_place(
    frame: FrameModel,
    rows: Seq<Row<Text>>,
    selection: Selection<Text>,
    i: int,
)
    requires
        frame.selected() == Some(selection),
        rows.len() <= usize::MAX,
        0 <= i <= rows.len(),
        forall|j: int| 0 <= j < i ==> (#[trigger] rows[j]).selection != selection,
        i < rows.len() ==> rows[i].selection == selection,
    ensures
        reread(frame, None) == frame,
        reread(frame, Some(rows)) == (Frame {
            level: frame.level,
            title: frame.title,
            rows,
            cursor: (if i < rows.len() {
                i
            } else if frame.cursor < rows.len() {
                frame.cursor as int
            } else if rows.len() > 0 {
                rows.len() - 1
            } else {
                0
            }) as usize,
        }),
{
    lemma_position(rows, selection, i);
}

/// A level that had no row to stand on is re-read with its cursor where it was.
pub proof fn an_empty_level_is_reread_at_its_first_row(frame: FrameModel, rows: Seq<Row<Text>>)
    requires
        frame.rows.len() == 0,
        frame.cursor == 0,
        rows.len() <= usize::MAX,
    ensures
        reread(frame, Some(rows)) == (Frame {
            level: frame.level,
            title: frame.title,
            rows,
            cursor: 0,
        }),
{
}

/// A level is called as the row it was entered from is called now, for as long as that
/// row is listed above it, and otherwise as it was. `i` is where that row is now, or past
/// the last.
pub proof fn a_level_is_called_as_its_row_is_now(
    frame: FrameModel,
    above: Seq<Row<Text>>,
    selection: Selection<Text>,
    i: int,
)
    requires
        frame.level.spec_selection() == Some(selection),
        0 <= i <= above.len(),
        forall|j: int| 0 <= j < i ==> (#[trigger] above[j]).selection != selection,
        i < above.len() ==> above[i].selection == selection,
    ensures
        retitled(frame, None) == frame,
        i == above.len() ==> retitled(frame, Some(above)) == frame,
        i < above.len() ==> ({
            let row = above[i];
            let after = retitled(frame, Some(above));
            &&& after.level == frame.level
            &&& after.rows == frame.rows
            &&& after.cursor == frame.cursor
            &&& selection is Epic ==> after.title == row.label
            &&& selection is Node ==> after.title == row.label + " "@ + row.name
            &&& selection is Collection ==> after.title == row.name
        }),
{
    lemma_position(above, selection, i);
}

/// The roster keeps its name whatever is listed.
pub proof fn the_roster_keeps_its_name(frame: FrameModel, above: Option<Seq<Row<Text>>>)
    requires
        frame.level is Epics,
    ensures
        retitled(frame, above) == frame,
{
}

/// Each level is re-read from its own listing, and called by the listing of the level
/// above it.
pub proof fn each_level_is_reread_from_its_own_listing(
    frames: Seq<FrameModel>,
    listings: Seq<Option<Vec<Row>>>,
    i: int,
)
    requires
        0 <= i < frames.len(),
    ensures
        ({
            let listed = |at: int|
                if 0 <= at < listings.len() {
                    match listings[at] {
                        Some(rows) => Some(rows_shown(rows@)),
                        None => None,
                    }
                } else {
                    None
                };
            let after = reread_all(frames, listings);
            &&& after.len() == frames.len()
            &&& after[i] == retitled(reread(frames[i], listed(i)), listed(i - 1))
        }),
{
}

/// A reload leaves the emptied collections it ends in, one after another, and no other
/// level: what stays are the first levels, the last of which is not an emptied collection
/// unless it is the only one.
pub proof fn only_emptied_collections_are_left(frames: Seq<FrameModel>)
    requires
        frames.len() > 0,
    ensures
        ({
            let kept = without_emptied(frames);
            let n = kept.len();
            &&& 0 < n <= frames.len()
            &&& forall|i: int| 0 <= i < n ==> kept[i] == frames[i]
            &&& forall|i: int|
                n <= i < frames.len() ==> (#[trigger] frames[i]).level is Collection
                    && frames[i].rows.len() == 0
            &&& n > 1 ==> !(frames[n - 1].level is Collection && frames[n - 1].rows.len() == 0)
        }),
    decreases frames.len(),
{
    if frames.len() > 1 && frames.last().level is Collection && frames.last().rows.len() == 0 {
        let shorter = frames.drop_last();
        only_emptied_collections_are_left(shorter);
        let n = without_emptied(frames).len();
        assert forall|i: int| n <= i < frames.len() implies (#[trigger] frames[i]).level
            is Collection && frames[i].rows.len() == 0 by {
            if i < shorter.len() {
                assert(shorter[i].level is Collection);
            }
        }
    }
}

/// A reload is every level re-read and the emptied collections left.
pub proof fn a_reload_rereads_and_then_leaves(nav: NavModel, listings: Seq<Option<Vec<Row>>>)
    ensures
        nav.reloaded(listings).frames == without_emptied(reread_all(nav.frames, listings)),
{
}

/// A position is known by its levels in their order, each with its rows in theirs.
pub proof fn a_position_is_known_by_its_levels(
    frame: &Frame,
    nav: &Nav,
    frames: Seq<Frame>,
)
    ensures
        frame@ == ({
            Frame {
                level: frame.level@,
                title: frame.title@,
                rows: rows_shown(frame.rows@),
                cursor: frame.cursor,
            }
        }),
        nav@ == ({
            Nav { frames: frames_shown(nav.frames@) }
        }),
        frames_shown(frames).len() == frames.len(),
        forall|i: int| 0 <= i < frames.len() ==> frames_shown(frames)[i] == frames[i]@,
{
}

} // verus!
