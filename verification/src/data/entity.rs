//! The fields and states of an epic or a node, and one of them as an editing
//! surface starts from it.
use crate::data::{Container, Selection};
use crate::moment::Moment;
use crate::text::{joined, Text};
use vstd::prelude::*;

verus! {

/// The `updated` stamp an entity carried when it was read. It travels from the
/// read that produced it to the write that names it as its precondition, and is
/// never interpreted in between: nobody outside this crate can invent one, or look
/// inside one.
#[derive(Clone, Copy, Debug, PartialEq, Eq)]
pub struct Stamp {
    updated: Moment,
}

impl View for Stamp {
    type V = Moment;

    closed spec fn view(&self) -> Moment {
        self.updated
    }
}

impl Stamp {
    /// The stamp of an entity last written at an instant.
    pub closed spec fn of(updated: Moment) -> Stamp {
        Stamp { updated }
    }

    /// The stamp of an entity that has just been read.
    pub(crate) fn read_at(updated: Moment) -> (r: Stamp)
        ensures
            r == Stamp::of(updated),
    {
        Stamp { updated }
    }

    /// The instant the entity said it was last written at.
    pub(crate) fn instant(self) -> (r: Moment)
        ensures
            r == self@,
    {
        self.updated
    }
}

/// A stamp is the instant its entity was last written at and nothing more: it is
/// read back as that instant, and two stamps of one instant are one stamp.
pub proof fn a_stamp_is_its_instant(updated: Moment, a: Stamp, b: Stamp)
    ensures
        Stamp::of(updated)@ == updated,
        a@ == b@ ==> a == b,
{
}

/// One of an epic's or a node's own fields that a reader rewrites outright
/// rather than adding an entry to.
///
/// Invariant: exactly the fields an entity's edit set can carry, so each is read
/// off its own value and written into its own slot.
#[derive(Clone, Copy, Debug, PartialEq, Eq, Structural)]
pub enum FreeForm {
    /// The one-line name.
    Name,
    /// The one-line summary of scope.
    Summary,
    /// The markdown body, as long as the reader writes it. The letter that names
    /// it names the long-form text of whatever row it is pressed on, so on a
    /// comment row it reaches [`Replaceable::CommentText`] instead.
    Body,
}

/// One whole field the browser replaces outright.
///
/// Invariant: these are exactly the writes that can silently discard text
/// somebody else wrote, so they are exactly the writes that carry [`Stamp`] as a
/// precondition.
#[derive(Clone, Copy, Debug, PartialEq, Eq, Structural)]
pub enum Replaceable {
    /// One of an epic's or a node's own fields.
    Field(FreeForm),
    /// One comment's text. A comment lives in its container's frontmatter, so the
    /// stamp that guards it is the container's.
    CommentText,
}

impl Replaceable {
    /// Every whole field the browser replaces.
    pub open spec fn listed() -> Seq<Replaceable> {
        seq![
            Replaceable::Field(FreeForm::Name),
            Replaceable::Field(FreeForm::Summary),
            Replaceable::Field(FreeForm::Body),
            Replaceable::CommentText,
        ]
    }

    /// Every whole field the browser replaces, so a surface that has to cover them
    /// all cannot then miss one.
    pub fn all() -> (r: [Replaceable; 4])
        ensures
            r@ == Replaceable::listed(),
    {
        [
            Replaceable::Field(FreeForm::Name),
            Replaceable::Field(FreeForm::Summary),
            Replaceable::Field(FreeForm::Body),
            Replaceable::CommentText,
        ]
    }

    /// What the field is called wherever the reader is shown it.
    pub open spec fn called(self) -> Text {
        match self {
            Replaceable::Field(field) => field.called(),
            Replaceable::CommentText => "text"@,
        }
    }

    /// What the field is called wherever the reader is shown it; see
    /// [`FreeForm::noun`]. A comment's is `text`, because the comment itself is
    /// what the surface's title already names.
    pub fn noun(self) -> (r: &'static str)
        ensures
            r@ == self.called(),
    {
        match self {
            Replaceable::Field(field) => field.noun(),
            Replaceable::CommentText => "text",
        }
    }
}

impl FreeForm {
    /// Every field of an entity a letter reaches.
    pub const ALL: [FreeForm; 3] = [FreeForm::Name, FreeForm::Summary, FreeForm::Body];

    /// What the field is called wherever the reader is shown it.
    pub open spec fn called(self) -> Text {
        match self {
            FreeForm::Name => "name"@,
            FreeForm::Summary => "summary"@,
            FreeForm::Body => "body"@,
        }
    }

    /// What the field is called wherever the reader is shown it: the surface's
    /// title, the field's own column, the warning about discarding it. The store's
    /// own word for it.
    pub fn noun(self) -> (r: &'static str)
        ensures
            r@ == self.called(),
    {
        match self {
            FreeForm::Name => "name",
            FreeForm::Summary => "summary",
            FreeForm::Body => "body",
        }
    }

    /// What the field holds in an entity that has been read.
    pub open spec fn held_in(self, target: EditTarget<Text>) -> Text {
        match self {
            FreeForm::Name => target.name,
            FreeForm::Summary => target.summary,
            FreeForm::Body => target.body,
        }
    }

    /// What this field holds in an entity that has been read, so a surface opens
    /// on the field it names rather than on whichever one a caller reached for.
    pub fn of(self, target: &EditTarget) -> (r: &str)
        ensures
            r@ == self.held_in(target@),
    {
        match self {
            FreeForm::Name => &target.name,
            FreeForm::Summary => &target.summary,
            FreeForm::Body => &target.body,
        }
    }

    /// The edit set that carries this field alone.
    pub open spec fn edit(self, value: Text) -> Edits<Text> {
        Edits {
            name: if self is Name {
                Some(value)
            } else {
                None
            },
            summary: if self is Summary {
                Some(value)
            } else {
                None
            },
            body: if self is Body {
                Some(value)
            } else {
                None
            },
        }
    }

    /// This field as an edit set names it: exactly one of the three is present, so
    /// a replacement can never carry a field it was not aimed at.
    pub fn edits(self, value: &str) -> (r: Edits)
        ensures
            r@ == self.edit(value@),
    {
        let value = Some(value.to_owned());
        match self {
            FreeForm::Name => Edits { name: value, summary: None, body: None },
            FreeForm::Summary => Edits { name: None, summary: value, body: None },
            FreeForm::Body => Edits { name: None, summary: None, body: value },
        }
    }
}

/// What is known of a text that may be absent.
pub open spec fn text_in(held: Option<String>) -> Option<Text> {
    match held {
        Some(text) => Some(text@),
        None => None,
    }
}

/// The fields of an epic or a node an edit replaces, each present exactly where
/// it is replaced.
#[derive(Debug, PartialEq, Eq)]
#[verifier::ext_equal]
pub struct Edits<S = String> {
    /// The one-line name.
    pub name: Option<S>,
    /// The one-line summary.
    pub summary: Option<S>,
    /// The markdown body.
    pub body: Option<S>,
}

impl View for Edits {
    type V = Edits<Text>;

    open spec fn view(&self) -> Edits<Text> {
        Edits {
            name: text_in(self.name),
            summary: text_in(self.summary),
            body: text_in(self.body),
        }
    }
}

/// An edit set carries the field it was aimed at and no other.
pub proof fn an_edit_carries_exactly_its_own_field(field: FreeForm, other: FreeForm, value: Text)
    ensures
        field.edit(value).name == (if field == FreeForm::Name { Some(value) } else { None }),
        field.edit(value).summary == (if field == FreeForm::Summary { Some(value) } else { None }),
        field.edit(value).body == (if field == FreeForm::Body { Some(value) } else { None }),
        field.edit(value) == other.edit(value) ==> field == other,
{
}

/// One of the five states a unit of work moves between.
#[derive(Clone, Copy, Debug, PartialEq, Eq, Structural)]
pub enum NodeState {
    /// Not started.
    ToDo,
    /// Under way.
    InProgress,
    /// Stuck.
    Blocked,
    /// Finished.
    Done,
    /// Abandoned.
    Closed,
}

impl NodeState {
    /// The word the store writes the state as.
    pub open spec fn word(self) -> Text {
        match self {
            NodeState::ToDo => "to-do"@,
            NodeState::InProgress => "in-progress"@,
            NodeState::Blocked => "blocked"@,
            NodeState::Done => "done"@,
            NodeState::Closed => "closed"@,
        }
    }

    /// The word the store writes the state as.
    pub fn wire_name(self) -> (r: &'static str)
        ensures
            r@ == self.word(),
    {
        match self {
            NodeState::ToDo => "to-do",
            NodeState::InProgress => "in-progress",
            NodeState::Blocked => "blocked",
            NodeState::Done => "done",
            NodeState::Closed => "closed",
        }
    }
}

/// A state a row's own picker offers.
///
/// Invariant: a unit of work's states and an epic's are never the same value even
/// where they share a word: an epic's `closed` is a stored flag that never touches
/// its nodes, while a unit of work's `closed` is a resolution that may take its
/// open descendants with it.
#[derive(Clone, Copy, Debug, PartialEq, Eq, Structural)]
pub enum State {
    /// One of the five states a unit of work moves between.
    Work(NodeState),
    /// An epic carrying no closed flag.
    EpicOpen,
    /// An epic whose stored closed flag is set.
    EpicClosed,
}

impl State {
    /// The states a unit of work's picker offers, in the order the state machine
    /// reads: not started, under way, stuck, finished, abandoned.
    pub open spec fn of_work() -> Seq<State> {
        seq![
            State::Work(NodeState::ToDo),
            State::Work(NodeState::InProgress),
            State::Work(NodeState::Blocked),
            State::Work(NodeState::Done),
            State::Work(NodeState::Closed),
        ]
    }

    /// The states an epic's picker offers: the stored flag, off and on.
    pub open spec fn of_epics() -> Seq<State> {
        seq![State::EpicOpen, State::EpicClosed]
    }

    /// The states the row a selection points at may be put into, if it has a state
    /// of its own.
    pub open spec fn offered_on(selection: Selection<Text>) -> Option<Seq<State>> {
        match selection {
            Selection::Epic(_) => Some(State::of_epics()),
            Selection::Node(_) => Some(State::of_work()),
            _ => None,
        }
    }

    /// The states the row a selection points at may be put into, in the order a
    /// picker moves through them, and `None` for a row that has no state of its
    /// own.
    pub fn offered(selection: &Selection) -> (r: Option<Vec<State>>)
        ensures
            (match r {
                Some(states) => State::offered_on(selection@) == Some(states@),
                None => State::offered_on(selection@) is None,
            }),
    {
        match selection {
            Selection::Epic(_) => Some(vec![State::EpicOpen, State::EpicClosed]),
            Selection::Node(_) => Some(
                vec![
                    State::Work(NodeState::ToDo),
                    State::Work(NodeState::InProgress),
                    State::Work(NodeState::Blocked),
                    State::Work(NodeState::Done),
                    State::Work(NodeState::Closed),
                ],
            ),
            _ => None,
        }
    }

    /// What the state is called wherever the reader is shown it.
    pub open spec fn word(self) -> Text {
        match self {
            State::Work(state) => state.word(),
            State::EpicOpen => "open"@,
            State::EpicClosed => "closed"@,
        }
    }

    /// What the state is called wherever the reader is shown it, which is the
    /// store's own word for it.
    pub fn wire_name(self) -> (r: &'static str)
        ensures
            r@ == self.word(),
    {
        match self {
            State::Work(state) => state.wire_name(),
            State::EpicOpen => "open",
            State::EpicClosed => "closed",
        }
    }

    /// Whether the state says why.
    pub open spec fn says_why(self) -> bool {
        ||| self == State::Work(NodeState::Blocked)
        ||| self == State::Work(NodeState::Closed)
        ||| self == State::EpicClosed
    }

    /// Whether this state says why, so a surface picking it asks for a reason.
    ///
    /// Blocking and resolving-without-completing both record why; the states that
    /// carry no reason clear whatever the row was holding.
    pub fn needs_reason(self) -> (r: bool)
        ensures
            r == self.says_why(),
    {
        match self {
            State::Work(NodeState::Blocked)
            | State::Work(NodeState::Closed)
            | State::EpicClosed => true,
            _ => false,
        }
    }

    /// Whether picking the state can take the row's open descendants with it.
    pub open spec fn takes_descendants(self) -> bool {
        self == State::Work(NodeState::Closed)
    }

    /// Whether picking this state can take the row's open descendants with it.
    ///
    /// Only a unit of work's close: an epic's closed flag never touches its nodes.
    pub fn cascades(self) -> (r: bool)
        ensures
            r == self.takes_descendants(),
    {
        match self {
            State::Work(NodeState::Closed) => true,
            _ => false,
        }
    }
}

/// A state that can take descendants with it also says why, and only a unit of
/// work's state does: an epic's picker never offers a cascade.
pub proof fn only_works_close_cascades(selection: Selection<Text>, state: State)
    requires
        State::offered_on(selection) is Some,
        State::offered_on(selection)->0.contains(state),
        state.takes_descendants(),
    ensures
        state.says_why(),
        selection is Node,
{
}

/// The epic or node a selection is, and `None` for a row that is neither.
pub open spec fn entity_at(selection: Selection<Text>) -> Option<Container<Text>> {
    match selection {
        Selection::Epic(id) => Some(Container::Epic(id)),
        Selection::Node(r) => Some(Container::Node(r)),
        _ => None,
    }
}

/// The epic or node a selection is, which is what a surface on it has read, and
/// `None` for a row that is neither.
pub fn entity_of(selection: &Selection) -> (r: Option<Container>)
    ensures
        (match r {
            Some(entity) => entity_at(selection@) == Some(entity@),
            None => entity_at(selection@) is None,
        }),
{
    match selection {
        Selection::Epic(id) => Some(Container::Epic(id.clone())),
        Selection::Node(r) => Some(Container::Node(r.clone())),
        _ => None,
    }
}

/// What a store returned for one row's state.
#[derive(Debug, PartialEq, Eq)]
pub enum StateReading {
    /// An epic's stored flag.
    Epic {
        /// Whether the epic is flagged closed.
        closed: bool,
    },
    /// A unit of work's state, and whether each of its descendants is resolved.
    Node {
        /// The state it is in.
        status: NodeState,
        /// One entry per descendant: whether it is in a state that resolves it.
        resolved: Vec<bool>,
    },
}

/// One row's state as a picker starts from it: the states it offers, the one it
/// is in, and how much a cascade would have to close.
///
/// No stamp travels with it — a state pick carries no precondition, because its
/// conflict is the later of two deliberate choices rather than text silently lost.
#[derive(Debug, PartialEq, Eq)]
#[verifier::ext_equal]
pub struct StateTarget<S = String, O = Vec<State>> {
    /// What was read, so a surface can name its target and write back to it.
    pub selection: Selection<S>,
    /// The states this row's picker offers, in the order it moves through them.
    pub offered: O,
    /// The state the row is in now, which is where the picker's highlight starts.
    pub current: State,
    /// How many of the row's descendants are still open, which is what a cascade
    /// would close. Always none for an epic.
    pub open_descendants: usize,
}

impl View for StateTarget {
    type V = StateTarget<Text, Seq<State>>;

    open spec fn view(&self) -> StateTarget<Text, Seq<State>> {
        StateTarget {
            selection: self.selection@,
            offered: self.offered@,
            current: self.current,
            open_descendants: self.open_descendants,
        }
    }
}

impl Clone for StateTarget {
    fn clone(&self) -> (r: Self)
        ensures
            r@ == self@,
    {
        let mut offered: Vec<State> = Vec::new();
        let mut i: usize = 0;
        while i < self.offered.len()
            invariant
                i <= self.offered.len(),
                offered@ == self.offered@.take(i as int),
            decreases self.offered.len() - i,
        {
            offered.push(self.offered[i]);
            i += 1;
        }
        assert(offered@ == self.offered@);
        StateTarget {
            selection: self.selection.clone(),
            offered,
            current: self.current,
            open_descendants: self.open_descendants,
        }
    }
}

/// How many entries of a list say a descendant is not resolved.
pub open spec fn open_in(resolved: Seq<bool>) -> nat
    decreases resolved.len(),
{
    if resolved.len() == 0 {
        0
    } else {
        open_in(resolved.drop_last()) + (if resolved.last() {
            0nat
        } else {
            1nat
        })
    }
}

/// A list never counts more open entries than it has entries.
proof fn lemma_open_in_bounded(resolved: Seq<bool>)
    ensures
        open_in(resolved) <= resolved.len(),
    decreases resolved.len(),
{
    if resolved.len() > 0 {
        lemma_open_in_bounded(resolved.drop_last());
    }
}

/// Count the descendants that are still open.
fn count_open(resolved: &Vec<bool>) -> (r: usize)
    ensures
        r == open_in(resolved@),
{
    let mut open: usize = 0;
    let mut i: usize = 0;
    assert(resolved@.take(0).len() == 0);
    while i < resolved.len()
        invariant
            i <= resolved.len(),
            open == open_in(resolved@.take(i as int)),
            open <= i,
        decreases resolved.len() - i,
    {
        assert(resolved@.take(i + 1).drop_last() == resolved@.take(i as int));
        if !resolved[i] {
            open += 1;
        }
        i += 1;
    }
    assert(resolved@.take(resolved.len() as int) == resolved@);
    open
}

/// What a picker of a row's state starts from, given what the store returned for
/// it.
pub open spec fn state_read(
    selection: Selection<Text>,
    reading: Result<StateReading, Text>,
) -> Result<StateTarget<Text, Seq<State>>, Text> {
    match State::offered_on(selection) {
        None => Err(selection.spec_reference() + " has no state of its own"@),
        Some(offered) => match reading {
            Err(failure) => Err(failure),
            Ok(StateReading::Epic { closed }) if selection is Epic => Ok(
                StateTarget {
                    selection,
                    offered,
                    current: if closed {
                        State::EpicClosed
                    } else {
                        State::EpicOpen
                    },
                    open_descendants: 0,
                },
            ),
            Ok(StateReading::Node { status, resolved }) if selection is Node => Ok(
                StateTarget {
                    selection,
                    offered,
                    current: State::Work(status),
                    open_descendants: open_in(resolved@) as usize,
                },
            ),
            Ok(_) => Err(selection.spec_reference() + " has no state of its own"@),
        },
    }
}

/// Re-read one row's state for a picker; see [`StateTarget`].
///
/// An epic's state is its stored flag and not the state its row shows: `completed`
/// is computed from its nodes, so the flag is what a reader picks and the computed
/// word is not offered at all.
///
/// `reading` is what the store returned for the row; a row that has no state is
/// refused whatever it holds, and so is one whose reading is another kind of
/// entity's.
pub fn state_target(selection: &Selection, reading: Result<StateReading, String>) -> (r: Result<
    StateTarget,
    String,
>)
    ensures
        (match r {
            Ok(target) => state_read(selection@, spoken(reading)) == Ok::<
                StateTarget<Text, Seq<State>>,
                Text,
            >(target@),
            Err(why) => state_read(selection@, spoken(reading)) == Err::<
                StateTarget<Text, Seq<State>>,
                Text,
            >(why@),
        }),
{
    match State::offered(selection) {
        None => Err(joined(&selection.reference(), " has no state of its own")),
        Some(offered) => match reading {
            Err(failure) => Err(failure),
            Ok(reading) => match (selection, reading) {
                (Selection::Epic(_), StateReading::Epic { closed }) => Ok(
                    StateTarget {
                        selection: selection.clone(),
                        offered,
                        current: if closed {
                            State::EpicClosed
                        } else {
                            State::EpicOpen
                        },
                        open_descendants: 0,
                    },
                ),
                (Selection::Node(_), StateReading::Node { status, resolved }) => {
                    proof {
                        lemma_open_in_bounded(resolved@);
                    }
                    Ok(
                        StateTarget {
                            selection: selection.clone(),
                            offered,
                            current: State::Work(status),
                            open_descendants: count_open(&resolved),
                        },
                    )
                },
                _ => Err(joined(&selection.reference(), " has no state of its own")),
            },
        },
    }
}

/// A result whose failure is in words, as what the words say.
pub open spec fn spoken<T>(result: Result<T, String>) -> Result<T, Text> {
    match result {
        Ok(value) => Ok(value),
        Err(words) => Err(words@),
    }
}

/// What a store returned for one epic's or node's own fields.
#[derive(Debug, PartialEq, Eq)]
pub struct EntityReading {
    /// The one-line name.
    pub name: String,
    /// The one-line summary of scope.
    pub summary: String,
    /// The markdown body, verbatim as stored.
    pub body: String,
    /// When the entity was last written.
    pub updated: Moment,
}

/// One entity as an editing surface starts from it: the fields a surface can
/// replace, plus the stamp they were read at.
#[derive(Debug, PartialEq, Eq)]
#[verifier::ext_equal]
pub struct EditTarget<S = String> {
    /// What was read, so a surface can name its target and write back to it.
    pub selection: Selection<S>,
    /// The one-line name.
    pub name: S,
    /// The one-line summary of scope.
    pub summary: S,
    /// The markdown body, verbatim as stored.
    pub body: S,
    /// The stamp the three fields above were read at.
    pub stamp: Stamp,
}

impl View for EditTarget {
    type V = EditTarget<Text>;

    open spec fn view(&self) -> EditTarget<Text> {
        EditTarget {
            selection: self.selection@,
            name: self.name@,
            summary: self.summary@,
            body: self.body@,
            stamp: self.stamp,
        }
    }
}

impl Clone for EditTarget {
    fn clone(&self) -> (r: Self)
        ensures
            r == *self,
    {
        EditTarget {
            selection: self.selection.clone(),
            name: self.name.clone(),
            summary: self.summary.clone(),
            body: self.body.clone(),
            stamp: self.stamp,
        }
    }
}

/// What an editing surface on an entity starts from, given what the store
/// returned for it.
pub open spec fn fields_read(
    selection: Selection<Text>,
    reading: Result<EntityReading, Text>,
) -> Result<EditTarget<Text>, Text> {
    if entity_at(selection) is None {
        Err(selection.spec_reference() + " has no name, summary or body of its own"@)
    } else {
        match reading {
            Err(failure) => Err(failure),
            Ok(read) => Ok(
                EditTarget {
                    selection,
                    name: read.name@,
                    summary: read.summary@,
                    body: read.body@,
                    stamp: Stamp::of(read.updated),
                },
            ),
        }
    }
}

/// Re-read one entity for editing.
///
/// Only an epic and a node have these fields: a collection and its members are
/// edited by their own operations, not by replacing a name, a summary or a body,
/// so any other row is refused whatever `reading` holds.
pub fn edit_target(selection: &Selection, reading: Result<EntityReading, String>) -> (r: Result<
    EditTarget,
    String,
>)
    ensures
        (match r {
            Ok(target) => fields_read(selection@, spoken(reading)) == Ok::<EditTarget<Text>, Text>(
                target@,
            ),
            Err(why) => fields_read(selection@, spoken(reading)) == Err::<EditTarget<Text>, Text>(
                why@,
            ),
        }),
{
    match selection {
        Selection::Epic(_) | Selection::Node(_) => match reading {
            Err(failure) => Err(failure),
            Ok(read) => Ok(
                EditTarget {
                    selection: selection.clone(),
                    name: read.name,
                    summary: read.summary,
                    body: read.body,
                    stamp: Stamp::read_at(read.updated),
                },
            ),
        },
        _ => Err(joined(&selection.reference(), " has no name, summary or body of its own")),
    }
}

/// One comment as its container's frontmatter holds it.
#[derive(Debug, PartialEq, Eq)]
pub struct HeldComment {
    /// The number the store gave it.
    pub id: u64,
    /// Whether it has been withdrawn.
    pub deleted: bool,
    /// Its text, verbatim as stored.
    pub text: String,
}

/// What a store returned for one container's comments.
#[derive(Debug, PartialEq, Eq)]
pub struct CommentsReading {
    /// The comments, in stored order.
    pub comments: Vec<HeldComment>,
    /// When the container was last written.
    pub updated: Moment,
}

/// One comment as an editing surface starts from it: the text it holds, and the
/// stamp that text was read at.
#[derive(Debug, PartialEq, Eq)]
#[verifier::ext_equal]
pub struct CommentTarget<S = String> {
    /// What was read, so a surface can name its target and write back to it.
    pub selection: Selection<S>,
    /// The comment's text, verbatim as stored.
    pub text: S,
    /// The stamp the text was read at, which is the container's.
    pub stamp: Stamp,
}

impl View for CommentTarget {
    type V = CommentTarget<Text>;

    open spec fn view(&self) -> CommentTarget<Text> {
        CommentTarget { selection: self.selection@, text: self.text@, stamp: self.stamp }
    }
}

impl Clone for CommentTarget {
    fn clone(&self) -> (r: Self)
        ensures
            r == *self,
    {
        CommentTarget {
            selection: self.selection.clone(),
            text: self.text.clone(),
            stamp: self.stamp,
        }
    }
}

/// The text of the first comment of a list that has this number and has not been
/// withdrawn.
pub open spec fn live_text(comments: Seq<HeldComment>, id: u64) -> Option<Text>
    decreases comments.len(),
{
    if comments.len() == 0 {
        None
    } else if comments[0].id == id && !comments[0].deleted {
        Some(comments[0].text@)
    } else {
        live_text(comments.drop_first(), id)
    }
}

/// What an editing surface on a comment starts from, given what the store returned
/// for its container.
pub open spec fn comment_read(
    selection: Selection<Text>,
    reading: Result<CommentsReading, Text>,
) -> Result<CommentTarget<Text>, Text> {
    match selection {
        Selection::Comment(_, id) => match reading {
            Err(failure) => Err(failure),
            Ok(read) => match live_text(read.comments@, id) {
                None => Err(selection.spec_reference() + " has no text to edit"@),
                Some(text) => Ok(
                    CommentTarget { selection, text, stamp: Stamp::of(read.updated) },
                ),
            },
        },
        _ => Err(selection.spec_reference() + " is not a comment"@),
    }
}

/// Re-read one comment for editing, at the instant the letter is pressed.
///
/// A comment that is not there, or that has been withdrawn since the letter was
/// offered, is refused by name: its text is withheld once it is withdrawn, so
/// there is nothing to open a buffer on. Nothing about the author is judged here.
pub fn comment_target(selection: &Selection, reading: Result<CommentsReading, String>) -> (r:
    Result<CommentTarget, String>)
    ensures
        (match r {
            Ok(target) => comment_read(selection@, spoken(reading)) == Ok::<
                CommentTarget<Text>,
                Text,
            >(target@),
            Err(why) => comment_read(selection@, spoken(reading)) == Err::<
                CommentTarget<Text>,
                Text,
            >(why@),
        }),
{
    let id: u64 = match selection {
        Selection::Comment(_, id) => *id,
        _ => return Err(joined(&selection.reference(), " is not a comment")),
    };
    let read = match reading {
        Err(failure) => return Err(failure),
        Ok(read) => read,
    };
    let mut i: usize = 0;
    assert(read.comments@.skip(0) == read.comments@);
    while i < read.comments.len()
        invariant
            i <= read.comments.len(),
            reading == Ok::<CommentsReading, String>(read),
            selection matches Selection::Comment(_, number) && number == id,
            live_text(read.comments@, id) == live_text(read.comments@.skip(i as int), id),
        decreases read.comments.len() - i,
    {
        if read.comments[i].id == id && !read.comments[i].deleted {
            return Ok(
                CommentTarget {
                    selection: selection.clone(),
                    text: read.comments[i].text.clone(),
                    stamp: Stamp::read_at(read.updated),
                },
            );
        }
        assert(read.comments@.skip(i as int).drop_first() == read.comments@.skip(i + 1));
        i += 1;
    }
    Err(joined(&selection.reference(), " has no text to edit"))
}

/// Each field and each state goes by the store's own word for it.
pub proof fn fields_and_states_go_by_the_stores_words(field: FreeForm, work: NodeState)
    ensures
        FreeForm::Name.called() == "name"@,
        FreeForm::Summary.called() == "summary"@,
        FreeForm::Body.called() == "body"@,
        Replaceable::Field(field).called() == field.called(),
        Replaceable::CommentText.called() == "text"@,
        NodeState::ToDo.word() == "to-do"@,
        NodeState::InProgress.word() == "in-progress"@,
        NodeState::Blocked.word() == "blocked"@,
        NodeState::Done.word() == "done"@,
        NodeState::Closed.word() == "closed"@,
        State::Work(work).word() == work.word(),
        State::EpicOpen.word() == "open"@,
        State::EpicClosed.word() == "closed"@,
{
}

/// A field is read off its own value of the entity, whatever the others hold.
pub proof fn a_field_is_read_off_its_own_value(target: EditTarget<Text>)
    ensures
        FreeForm::Name.held_in(target) == target.name,
        FreeForm::Summary.held_in(target) == target.summary,
        FreeForm::Body.held_in(target) == target.body,
{
}

/// Being blocked and being closed say why, of work and of an epic alike, and only
/// closed work can take its descendants along.
pub proof fn which_states_say_why(state: State)
    ensures
        state.says_why() <==> state == State::Work(NodeState::Blocked) || state == State::Work(
            NodeState::Closed,
        ) || state == State::EpicClosed,
        state.takes_descendants() <==> state == State::Work(NodeState::Closed),
        !State::EpicOpen.says_why(),
        !State::Work(NodeState::Done).says_why(),
{
}

/// An epic is offered its flag off and on, and a unit of work its five states in the
/// order work goes through them; no other row has a state.
pub proof fn which_states_a_row_is_offered(selection: Selection<Text>)
    ensures
        selection is Epic ==> State::offered_on(selection) == Some(
            seq![State::EpicOpen, State::EpicClosed],
        ),
        selection is Node ==> State::offered_on(selection) == Some(
            seq![
                State::Work(NodeState::ToDo),
                State::Work(NodeState::InProgress),
                State::Work(NodeState::Blocked),
                State::Work(NodeState::Done),
                State::Work(NodeState::Closed),
            ],
        ),
        !(selection is Epic) && !(selection is Node) ==> State::offered_on(selection) is None
            && entity_at(selection) is None,
        selection matches Selection::Epic(id) ==> entity_at(selection) == Some(Container::Epic(id)),
        selection matches Selection::Node(node) ==> entity_at(selection) == Some(
            Container::Node(node),
        ),
{
}

/// Open descendants are counted one by one: each that is not resolved counts, each that
/// is does not.
pub proof fn each_unresolved_descendant_counts_once(a: Seq<bool>, b: Seq<bool>, resolved: bool)
    ensures
        open_in(Seq::<bool>::empty()) == 0,
        open_in(seq![resolved]) == (if resolved {
            0nat
        } else {
            1
        }),
        open_in(a + b) == open_in(a) + open_in(b),
    decreases b.len(),
{
    let one = seq![resolved];
    assert(one.drop_last() =~= Seq::<bool>::empty());
    assert(open_in(one.drop_last()) == 0);
    if b.len() == 0 {
        assert(a + b =~= a);
    } else {
        each_unresolved_descendant_counts_once(a, b.drop_last(), resolved);
        assert((a + b).drop_last() =~= a + b.drop_last());
    }
}

/// A picker of a row's state starts from what the store holds: an epic from its flag,
/// with nothing below it to close, and a unit of work from its state, with as many open
/// descendants as are not resolved. What could not be read, and a row without a state,
/// is answered in words.
pub proof fn a_state_is_picked_from_what_the_store_holds(
    selection: Selection<Text>,
    closed: bool,
    status: NodeState,
    resolved: Vec<bool>,
    failure: Text,
)
    ensures
        ({
            let flag = state_read(selection, Ok(StateReading::Epic { closed }));
            let work = state_read(selection, Ok(StateReading::Node { status, resolved }));
            let failed = state_read(selection, Err(failure));
            let none = selection.spec_reference() + " has no state of its own"@;
            &&& selection is Epic ==> {
                &&& flag matches Ok(target) && {
                    &&& target.selection == selection
                    &&& target.offered == seq![State::EpicOpen, State::EpicClosed]
                    &&& closed ==> target.current == State::EpicClosed
                    &&& !closed ==> target.current == State::EpicOpen
                    &&& target.open_descendants == 0
                }
                &&& work == Err::<StateTarget<Text, Seq<State>>, Text>(none)
                &&& failed == Err::<StateTarget<Text, Seq<State>>, Text>(failure)
            }
            &&& selection is Node ==> {
                &&& work matches Ok(target) && {
                    &&& target.selection == selection
                    &&& target.offered == State::offered_on(selection)->0
                    &&& target.current == State::Work(status)
                    &&& target.open_descendants == open_in(resolved@)
                }
                &&& flag == Err::<StateTarget<Text, Seq<State>>, Text>(none)
                &&& failed == Err::<StateTarget<Text, Seq<State>>, Text>(failure)
            }
            &&& !(selection is Epic) && !(selection is Node) ==> {
                &&& flag == Err::<StateTarget<Text, Seq<State>>, Text>(none)
                &&& work == Err::<StateTarget<Text, Seq<State>>, Text>(none)
                &&& failed == Err::<StateTarget<Text, Seq<State>>, Text>(none)
            }
        }),
{
    lemma_open_in_bounded(resolved@);
    assert(resolved.len() == resolved@.len());
}

/// An entity is edited from exactly what the store holds of it, under the stamp it was
/// last written at; what could not be read, and a row that is no entity, is answered in
/// words.
pub proof fn an_entity_is_edited_from_what_the_store_holds(
    selection: Selection<Text>,
    read: EntityReading,
    failure: Text,
)
    ensures
        ({
            let entity = selection is Epic || selection is Node;
            let none = Err::<EditTarget<Text>, Text>(
                selection.spec_reference() + " has no name, summary or body of its own"@,
            );
            &&& entity ==> (fields_read(selection, Ok(read)) matches Ok(target) && {
                &&& target.selection == selection
                &&& target.name == read.name@
                &&& target.summary == read.summary@
                &&& target.body == read.body@
                &&& target.stamp@ == read.updated
            })
            &&& entity ==> fields_read(selection, Err(failure)) == Err::<EditTarget<Text>, Text>(
                failure,
            )
            &&& !entity ==> fields_read(selection, Ok(read)) == none && fields_read(
                selection,
                Err(failure),
            ) == none
        }),
{
    a_stamp_is_its_instant(read.updated, Stamp::of(read.updated), Stamp::of(read.updated));
}

proof fn lemma_live_text(comments: Seq<HeldComment>, id: u64, i: int)
    requires
        0 <= i <= comments.len(),
        forall|j: int| 0 <= j < i ==> (#[trigger] comments[j]).id != id || comments[j].deleted,
        i < comments.len() ==> comments[i].id == id && !comments[i].deleted,
    ensures
        live_text(comments, id) == (if i < comments.len() {
            Some(comments[i].text@)
        } else {
            None
        }),
    decreases comments.len(),
{
    if i > 0 {
        assert(comments[0].id != id || comments[0].deleted);
        let rest = comments.drop_first();
        assert forall|j: int| 0 <= j < i - 1 implies (#[trigger] rest[j]).id != id
            || rest[j].deleted by {
            assert(rest[j] == comments[j + 1]);
        }
        lemma_live_text(rest, id, i - 1);
    }
}

/// A comment is edited from the text the store holds under its number, under its
/// container's stamp, and only while it is there and not withdrawn; `i` is the first
/// such entry, or past the last where there is none.
pub proof fn a_comment_is_edited_from_its_live_text(
    container: Container<Text>,
    id: u64,
    read: CommentsReading,
    failure: Text,
    i: int,
)
    requires
        0 <= i <= read.comments@.len(),
        forall|j: int|
            0 <= j < i ==> (#[trigger] read.comments@[j]).id != id || read.comments@[j].deleted,
        i < read.comments@.len() ==> read.comments@[i].id == id && !read.comments@[i].deleted,
    ensures
        ({
            let selection = Selection::<Text>::Comment(container, id);
            &&& i < read.comments@.len() ==> (comment_read(selection, Ok(read)) matches Ok(target)
                && {
                &&& target.selection == selection
                &&& target.text == read.comments@[i].text@
                &&& target.stamp@ == read.updated
            })
            &&& i == read.comments@.len() ==> comment_read(selection, Ok(read)) == Err::<
                CommentTarget<Text>,
                Text,
            >(selection.spec_reference() + " has no text to edit"@)
            &&& comment_read(selection, Err(failure)) == Err::<CommentTarget<Text>, Text>(failure)
        }),
{
    lemma_live_text(read.comments@, id, i);
    a_stamp_is_its_instant(read.updated, Stamp::of(read.updated), Stamp::of(read.updated));
}

/// Nothing but a comment is edited as one.
pub proof fn nothing_but_a_comment_is_edited_as_one(
    selection: Selection<Text>,
    reading: Result<CommentsReading, Text>,
)
    requires
        !(selection is Comment),
    ensures
        comment_read(selection, reading) == Err::<CommentTarget<Text>, Text>(
            selection.spec_reference() + " is not a comment"@,
        ),
{
}

/// What may be absent is known as it stands: a text by its characters, and nothing as
/// nothing; and so is a reading that failed.
pub proof fn what_may_be_absent_is_known_as_it_stands(text: String, read: EntityReading)
    ensures
        text_in(Some(text)) == Some(text@),
        text_in(None) is None,
        spoken(Ok::<EntityReading, String>(read)) == Ok::<EntityReading, Text>(read),
        spoken(Err::<EntityReading, String>(text)) == Err::<EntityReading, Text>(text@),
{
}

/// What was read of an entity is known field by field.
pub proof fn what_was_read_is_known_field_by_field(
    edits: &Edits,
    state_target: &StateTarget,
    edit_target: &EditTarget,
    comment_target: &CommentTarget,
)
    ensures
        edits@ == ({
            Edits {
                name: text_in(edits.name),
                summary: text_in(edits.summary),
                body: text_in(edits.body),
            }
        }),
        state_target@ == ({
            StateTarget {
                selection: state_target.selection@,
                offered: state_target.offered@,
                current: state_target.current,
                open_descendants: state_target.open_descendants,
            }
        }),
        edit_target@ == ({
            EditTarget {
                selection: edit_target.selection@,
                name: edit_target.name@,
                summary: edit_target.summary@,
                body: edit_target.body@,
                stamp: edit_target.stamp,
            }
        }),
        comment_target@ == ({
            CommentTarget { selection: comment_target.selection@, text: comment_target.text@, stamp: comment_target.stamp }
        }),
{
}

/// Every field of an entity and every whole field the browser replaces is in the list
/// that covers them, an entity's own in the order they are read and a comment's text
/// after them.
pub proof fn every_replaceable_field_is_listed(field: FreeForm, whole: Replaceable)
    ensures
        FreeForm::ALL@.contains(field),
        Replaceable::listed().contains(whole),
        Replaceable::listed().len() == 4,
        Replaceable::listed()[0] == Replaceable::Field(FreeForm::Name),
        Replaceable::listed()[1] == Replaceable::Field(FreeForm::Summary),
        Replaceable::listed()[2] == Replaceable::Field(FreeForm::Body),
        Replaceable::listed()[3] == Replaceable::CommentText,
{
    let fields = FreeForm::ALL@;
    assert(fields[0] == FreeForm::Name && fields[1] == FreeForm::Summary && fields[2]
        == FreeForm::Body);
    let all = Replaceable::listed();
    assert(all[0] == Replaceable::Field(FreeForm::Name) && all[1] == Replaceable::Field(
        FreeForm::Summary,
    ) && all[2] == Replaceable::Field(FreeForm::Body) && all[3] == Replaceable::CommentText);
}

} // verus!
