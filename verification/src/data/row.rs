//! The rows of a level, built from what a store listed for it.
use crate::data::document::{human_size, size_text};
use crate::data::entity::text_in;
use crate::data::write::{viewed, Reading};
use crate::data::{Collection, Container, NodeRef, NodeState, Selection};
use crate::moment::{age, age_text, seconds_since, Moment};
use crate::text::{decimal, joined, joined3, number_text, Text};
use vstd::prelude::*;

verus! {

/// What a row stands for, which is what decides how it reads.
#[derive(Debug, PartialEq, Eq)]
#[verifier::ext_equal]
pub enum RowKind<S = String> {
    /// An epic or a node, carrying its state's wire name and who holds its
    /// claim. Only a work row has a state, and only a work row can be claimed.
    Work {
        /// The state's wire name.
        status: S,
        /// Who holds the single-holder claim on what the row points at; absent
        /// exactly when it is unclaimed. A claim is node-only, so an epic's row
        /// never carries one.
        claimed_by: Option<S>,
    },
    /// A collection of the level's container. It is structure rather than work,
    /// and has no state to invent a glyph for.
    Collection(Collection),
    /// A member of a collection, which has no state either.
    Member,
    /// A live comment of a collection. The row carries the answer to the one
    /// question its author decides.
    Comment {
        /// Whether the human wrote it, which is exactly when the browser may
        /// rewrite or withdraw it.
        by_the_human: bool,
    },
    /// A withdrawn comment. It offers nothing whoever wrote it: there is no text
    /// to rewrite, and withdrawing twice means nothing.
    Withdrawn,
    /// A member the store cannot fully use: an asset whose bytes are gone, a
    /// blocker naming a ticket that is not there, or blocker text that is not a
    /// reference. The row stands where the member does, and its name carries the
    /// reason.
    Unreadable,
}

impl View for RowKind {
    type V = RowKind<Text>;

    open spec fn view(&self) -> RowKind<Text> {
        match self {
            RowKind::Work { status, claimed_by } => RowKind::Work {
                status: status@,
                claimed_by: text_in(*claimed_by),
            },
            RowKind::Collection(kind) => RowKind::Collection(*kind),
            RowKind::Member => RowKind::Member,
            RowKind::Comment { by_the_human } => RowKind::Comment { by_the_human: *by_the_human },
            RowKind::Withdrawn => RowKind::Withdrawn,
            RowKind::Unreadable => RowKind::Unreadable,
        }
    }
}

/// A text that may be absent, cloned.
fn clone_text(held: &Option<String>) -> (r: Option<String>)
    ensures
        r == *held,
{
    match held {
        Some(text) => Some(text.clone()),
        None => None,
    }
}

impl Clone for RowKind {
    fn clone(&self) -> (r: Self)
        ensures
            r == *self,
    {
        match self {
            RowKind::Work { status, claimed_by } => RowKind::Work {
                status: status.clone(),
                claimed_by: clone_text(claimed_by),
            },
            RowKind::Collection(kind) => RowKind::Collection(*kind),
            RowKind::Member => RowKind::Member,
            RowKind::Comment { by_the_human } => RowKind::Comment { by_the_human: *by_the_human },
            RowKind::Withdrawn => RowKind::Withdrawn,
            RowKind::Unreadable => RowKind::Unreadable,
        }
    }
}

/// One row of the navigation pane.
#[derive(Debug, PartialEq, Eq)]
#[verifier::ext_equal]
pub struct Row<S = String> {
    /// What the row points at, and the key the cursor is tracked by.
    pub selection: Selection<S>,
    /// What the row stands for.
    pub kind: RowKind<S>,
    /// The left-hand identifier column: an epic id, a bare node number, or the
    /// token a member is addressed by. A collection row leaves it empty.
    pub label: S,
    /// The one-line name, or a collection's own name.
    pub name: S,
    /// How many direct children the row has: subtickets for a work row, members
    /// for a collection row, and never anything for a member.
    pub children: usize,
}

impl View for Row {
    type V = Row<Text>;

    open spec fn view(&self) -> Row<Text> {
        Row {
            selection: self.selection@,
            kind: self.kind@,
            label: self.label@,
            name: self.name@,
            children: self.children,
        }
    }
}

impl Row<Text> {
    /// Whether entering the row opens a level.
    pub open spec fn spec_enterable(self) -> bool {
        match self.selection {
            Selection::Epic(_) => true,
            Selection::Node(_) => true,
            Selection::Collection(..) => self.children > 0,
            _ => false,
        }
    }
}

impl Clone for Row {
    fn clone(&self) -> (r: Self)
        ensures
            r == *self,
    {
        Row {
            selection: self.selection.clone(),
            kind: self.kind.clone(),
            label: self.label.clone(),
            name: self.name.clone(),
            children: self.children,
        }
    }
}

impl Row {
    /// Whether entering the row opens a level.
    ///
    /// Every epic and node is enterable, because its collections are rows there
    /// whether or not they have members. A collection is enterable exactly when it
    /// has members, which is also exactly when it prints a count. Only collection
    /// members are true leaves.
    pub fn enterable(&self) -> (r: bool)
        ensures
            r == self@.spec_enterable(),
    {
        match &self.selection {
            Selection::Epic(_) | Selection::Node(_) => true,
            Selection::Collection(..) => self.children > 0,
            _ => false,
        }
    }
}

/// What a list of rows shows.
pub open spec fn rows_shown(rows: Seq<Row>) -> Seq<Row<Text>> {
    rows.map_values(|row: Row| row@)
}

/// A list of rows, cloned.
pub fn clone_rows(rows: &Vec<Row>) -> (r: Vec<Row>)
    ensures
        r@ == rows@,
{
    let mut out: Vec<Row> = Vec::new();
    let mut i: usize = 0;
    while i < rows.len()
        invariant
            i <= rows.len(),
            out@ == rows@.take(i as int),
        decreases rows.len() - i,
    {
        out.push(rows[i].clone());
        i += 1;
    }
    out
}

/// One epic as a roster lists it.
#[derive(Debug, PartialEq, Eq)]
pub enum RosterEntry {
    /// An epic that could be read.
    Readable {
        /// Its id.
        id: String,
        /// What it is called.
        name: String,
        /// Its state's wire name.
        status: String,
        /// How many top-level tickets it has.
        children: usize,
    },
    /// An epic the roster lists but which could not be read.
    Unreadable {
        /// Its id.
        id: String,
        /// The failure's own outermost words.
        failure: String,
    },
}

/// One child of an epic or a node as a listing returns it.
#[derive(Debug, PartialEq, Eq)]
pub struct ChildReading {
    /// What the store makes of the reference the listing carries.
    pub reference: Reading,
    /// What the child is called.
    pub name: String,
    /// Its state's wire name.
    pub status: String,
    /// Who holds its claim.
    pub claimed_by: Option<String>,
    /// How many direct children it has.
    pub children: usize,
}

/// Who wrote something.
#[derive(Debug, PartialEq, Eq)]
pub struct Author {
    /// The name they go by.
    pub name: String,
    /// Whether that is the human, who the browser writes as.
    pub human: bool,
}

/// One comment as a store shows it.
#[derive(Debug, PartialEq, Eq)]
pub enum CommentView {
    /// A comment with its text.
    Live {
        /// The number the store gave it.
        id: u64,
        /// Who wrote it.
        author: Author,
        /// When.
        created: Moment,
        /// What it says.
        text: String,
    },
    /// A withdrawn comment, its text withheld.
    Tombstone {
        /// The number the store gave it, which is never reused.
        id: u64,
        /// Who wrote it.
        author: Author,
        /// When.
        created: Moment,
    },
}

/// A ticket a dependency list points at.
#[derive(Debug, PartialEq, Eq)]
pub struct BlockingNode {
    /// What it is called.
    pub name: String,
    /// The state it is in.
    pub status: NodeState,
    /// Who holds its claim.
    pub claimed_by: Option<String>,
}

/// One entry of a node's dependency list, and the ticket it names as it was read.
#[derive(Debug, PartialEq, Eq)]
pub struct BlockerReading {
    /// The entry as the store holds it.
    pub reference: String,
    /// What the store makes of it.
    pub named: Reading,
    /// The ticket it names, or why that could not be read. Not looked at where the
    /// entry names no ticket.
    pub blocking: Result<BlockingNode, String>,
}

/// One asset a container's index lists.
#[derive(Debug, PartialEq, Eq)]
pub struct AssetReading {
    /// The name it is attached under.
    pub name: String,
    /// The size of its file, and `None` where the file is not there.
    pub size: Option<u64>,
}

/// What a store listed for one collection.
#[derive(Debug, PartialEq, Eq)]
pub enum Members {
    /// Its labels.
    Labels(Vec<String>),
    /// Its comments, tombstones included, and the clock their ages are told by:
    /// one for the whole level, so two rows of the same age never disagree.
    Comments(Vec<CommentView>, Moment),
    /// Its dependency entries.
    BlockedBy(Vec<BlockerReading>),
    /// Its assets.
    Assets(Vec<AssetReading>),
}

/// Counts for every collection a container may offer.
#[derive(Clone, Copy, Debug, PartialEq, Eq)]
pub struct CollectionCounts {
    /// How many labels.
    pub labels: usize,
    /// How many comments, tombstones included.
    pub comments: usize,
    /// How many dependency entries.
    pub blocked_by: usize,
    /// How many assets.
    pub assets: usize,
}

impl CollectionCounts {
    /// The count for a collection.
    pub open spec fn counted(self, kind: Collection) -> usize {
        match kind {
            Collection::Labels => self.labels,
            Collection::Comments => self.comments,
            Collection::BlockedBy => self.blocked_by,
            Collection::Assets => self.assets,
        }
    }

    /// The count for this collection. Tombstones count as comments because their
    /// rows remain visible in the collection level.
    pub fn for_collection(&self, kind: Collection) -> (r: usize)
        ensures
            r == self.counted(kind),
    {
        match kind {
            Collection::Labels => self.labels,
            Collection::Comments => self.comments,
            Collection::BlockedBy => self.blocked_by,
            Collection::Assets => self.assets,
        }
    }
}

/// What a store listed for one level.
#[derive(Debug, PartialEq, Eq)]
pub enum Listing {
    /// The roster.
    Epics(Vec<RosterEntry>),
    /// An epic's or a node's level: how many members each of its collections has,
    /// and its children.
    Entity(Container, CollectionCounts, Vec<ChildReading>),
    /// The members of one collection of a container.
    Collection(Container, Members),
}

/// The words a row leads with where the store could not fully read its member.
pub open spec fn unreadable_name(failure: Text) -> Text {
    "unreadable · "@ + failure
}

/// A member the store lists but whose own data could not be read.
pub open spec fn unreadable_row(selection: Selection<Text>, label: Text, failure: Text) -> Row<
    Text,
> {
    Row {
        selection,
        kind: RowKind::Unreadable,
        label,
        name: unreadable_name(failure),
        children: 0,
    }
}

/// A member the store lists but whose own data could not be read.
///
/// The level still opens and the row still points at the member, so the reader
/// sees what the store claims to hold and can still act on an entry its selection
/// can address. The reason is the failure's own outermost words, and the fixed
/// word leads because a row is read with colour off as often as with it on.
fn unreadable(selection: Selection, label: String, failure: &str) -> (r: Row)
    ensures
        r@ == unreadable_row(selection@, label@, failure@),
{
    Row {
        selection,
        kind: RowKind::Unreadable,
        label,
        name: joined("unreadable · ", failure),
        children: 0,
    }
}

/// The row of one epic on the roster.
pub open spec fn roster_row(entry: RosterEntry) -> Row<Text> {
    match entry {
        RosterEntry::Readable { id, name, status, children } => Row {
            selection: Selection::Epic(id@),
            kind: RowKind::Work { status: status@, claimed_by: None },
            label: id@,
            name: name@,
            children,
        },
        RosterEntry::Unreadable { id, failure } => unreadable_row(
            Selection::Epic(id@),
            id@,
            failure@,
        ),
    }
}

/// The roster's rows, one per epic it lists.
pub fn roster_rows(entries: &Vec<RosterEntry>) -> (r: Vec<Row>)
    ensures
        rows_shown(r@) == entries@.map_values(|entry: RosterEntry| roster_row(entry)),
{
    let mut out: Vec<Row> = Vec::new();
    let mut i: usize = 0;
    while i < entries.len()
        invariant
            i <= entries.len(),
            rows_shown(out@) == entries@.take(i as int).map_values(
                |entry: RosterEntry| roster_row(entry),
            ),
        decreases entries.len() - i,
    {
        let row = match &entries[i] {
            RosterEntry::Readable { id, name, status, children } => Row {
                selection: Selection::Epic(id.clone()),
                kind: RowKind::Work { status: status.clone(), claimed_by: None },
                label: id.clone(),
                name: name.clone(),
                children: *children,
            },
            RosterEntry::Unreadable { id, failure } => unreadable(
                Selection::Epic(id.clone()),
                id.clone(),
                failure,
            ),
        };
        proof {
            lemma_shown_push(out@, row);
            lemma_mapped_push(entries@, i as int, |entry: RosterEntry| roster_row(entry));
        }
        out.push(row);
        i += 1;
    }
    assert(entries@.take(entries.len() as int) == entries@);
    out
}

/// Adding a row shows one row more.
proof fn lemma_shown_push(rows: Seq<Row>, row: Row)
    ensures
        rows_shown(rows.push(row)) == rows_shown(rows).push(row@),
{
    assert(rows_shown(rows.push(row)) =~= rows_shown(rows).push(row@));
}

/// Mapping one entry more of a list adds one value more.
proof fn lemma_mapped_push<A, B>(s: Seq<A>, i: int, f: spec_fn(A) -> B)
    requires
        0 <= i < s.len(),
    ensures
        s.take(i + 1).map_values(f) == s.take(i).map_values(f).push(f(s[i])),
{
    assert(s.take(i + 1).map_values(f) =~= s.take(i).map_values(f).push(f(s[i])));
}

/// The row of one child of an epic or a node.
pub open spec fn child_row(child: ChildReading, node: NodeRef<Text>) -> Row<Text> {
    Row {
        selection: Selection::Node(node),
        kind: RowKind::Work { status: child.status@, claimed_by: text_in(child.claimed_by) },
        label: decimal(node.number as nat),
        name: child.name@,
        children: child.children,
    }
}

/// The rows of a listing of children: one each, or the words for the first whose
/// reference is no reference.
pub open spec fn children_shown(children: Seq<ChildReading>) -> Result<Seq<Row<Text>>, Text>
    decreases children.len(),
{
    if children.len() == 0 {
        Ok(Seq::empty())
    } else {
        match children_shown(children.drop_last()) {
            Err(words) => Err(words),
            Ok(rows) => match viewed(children.last().reference) {
                Err(words) => Err(words),
                Ok(node) => Ok(rows.push(child_row(children.last(), node))),
            },
        }
    }
}

/// A listing that fails in its first entries fails in the same words as a whole.
proof fn lemma_children_fail(children: Seq<ChildReading>, i: int)
    requires
        0 <= i <= children.len(),
        children_shown(children.take(i)) is Err,
    ensures
        children_shown(children) == children_shown(children.take(i)),
    decreases children.len(),
{
    if i == children.len() {
        assert(children.take(i) == children);
    } else {
        assert(children.drop_last().take(i) == children.take(i));
        lemma_children_fail(children.drop_last(), i);
    }
}

/// What a list of rows, or the words for why there is none, shows.
pub open spec fn listing_shown(rows: Result<Vec<Row>, String>) -> Result<Seq<Row<Text>>, Text> {
    match rows {
        Ok(rows) => Ok(rows_shown(rows@)),
        Err(words) => Err(words@),
    }
}

/// Turn a children listing into rows using the direct child count already
/// carried by each listing row.
pub fn child_rows(children: &Vec<ChildReading>) -> (r: Result<Vec<Row>, String>)
    ensures
        listing_shown(r) == children_shown(children@),
{
    let mut out: Vec<Row> = Vec::new();
    let mut i: usize = 0;
    assert(rows_shown(out@) =~= Seq::empty());
    while i < children.len()
        invariant
            i <= children.len(),
            children_shown(children@.take(i as int)) == Ok::<Seq<Row<Text>>, Text>(
                rows_shown(out@),
            ),
        decreases children.len() - i,
    {
        let child = &children[i];
        assert(children@.take(i + 1).drop_last() == children@.take(i as int));
        assert(children@.take(i + 1).last() == child);
        match &child.reference {
            Err(words) => {
                proof {
                    lemma_children_fail(children@, i + 1);
                }
                return Err(words.clone());
            },
            Ok(node) => {
                let row = Row {
                    selection: Selection::Node(node.clone()),
                    kind: RowKind::Work {
                        status: child.status.clone(),
                        claimed_by: clone_text(&child.claimed_by),
                    },
                    label: number_text(node.number),
                    name: child.name.clone(),
                    children: child.children,
                };
                proof {
                    lemma_shown_push(out@, row);
                }
                out.push(row);
            },
        }
        i += 1;
    }
    assert(children@.take(children.len() as int) == children@);
    Ok(out)
}

/// The row of one of a container's collections.
pub open spec fn collection_row(
    container: Container<Text>,
    kind: Collection,
    counts: CollectionCounts,
) -> Row<Text> {
    Row {
        selection: Selection::Collection(container, kind),
        kind: RowKind::Collection(kind),
        label: Seq::empty(),
        name: kind.name_text(),
        children: counts.counted(kind),
    }
}

/// A container's collection rows.
pub open spec fn collections_shown(container: Container<Text>, counts: CollectionCounts) -> Seq<
    Row<Text>,
> {
    container.spec_collections().map_values(
        |kind: Collection| collection_row(container, kind, counts),
    )
}

/// A container's collection rows: one per collection it carries, present
/// whether or not it has members, so there is always a row to stand on.
pub fn collection_rows(container: &Container, counts: CollectionCounts) -> (r: Vec<Row>)
    ensures
        rows_shown(r@) == collections_shown(container@, counts),
{
    let kinds = container.collections();
    let ghost make = |kind: Collection| collection_row(container@, kind, counts);
    let mut out: Vec<Row> = Vec::new();
    let mut i: usize = 0;
    while i < kinds.len()
        invariant
            i <= kinds.len(),
            make == (|kind: Collection| collection_row(container@, kind, counts)),
            rows_shown(out@) == kinds@.take(i as int).map_values(make),
        decreases kinds.len() - i,
    {
        let kind = kinds[i];
        let row = Row {
            selection: Selection::Collection(container.clone(), kind),
            kind: RowKind::Collection(kind),
            label: String::new(),
            name: kind.name().to_owned(),
            children: counts.for_collection(kind),
        };
        proof {
            lemma_shown_push(out@, row);
            lemma_mapped_push(kinds@, i as int, make);
        }
        out.push(row);
        i += 1;
    }
    assert(kinds@.take(kinds.len() as int) == kinds@);
    out
}

/// The row of one label.
pub open spec fn label_row(container: Container<Text>, label: Text) -> Row<Text> {
    Row {
        selection: Selection::Label(container, label),
        kind: RowKind::Member,
        label,
        name: Seq::empty(),
        children: 0,
    }
}

/// The row of one comment: its number, who wrote it and how long ago, and — first,
/// because the name column is what a narrow pane truncates — that it is withdrawn
/// where it is.
pub open spec fn comment_row(container: Container<Text>, comment: CommentView, now: int) -> Row<
    Text,
> {
    match comment {
        CommentView::Live { id, author, created, .. } => Row {
            selection: Selection::Comment(container, id),
            kind: RowKind::Comment { by_the_human: author.human },
            label: decimal(id as nat),
            name: author.name@ + " · "@ + age_text(seconds_since(created@, now)),
            children: 0,
        },
        CommentView::Tombstone { id, author, created } => Row {
            selection: Selection::Comment(container, id),
            kind: RowKind::Withdrawn,
            label: decimal(id as nat),
            name: "deleted · "@ + (author.name@ + " · "@ + age_text(seconds_since(created@, now))),
            children: 0,
        },
    }
}

/// The row of one dependency entry: the ticket it names as work, the reason where
/// that ticket could not be read, and the entry's own text where it names none.
pub open spec fn blocker_row(container: Container<Text>, entry: BlockerReading) -> Row<Text> {
    match viewed(entry.named) {
        Err(_) => Row {
            selection: Selection::UnremovableBlocker(container, entry.reference@),
            kind: RowKind::Unreadable,
            label: entry.reference@,
            name: "cannot be removed"@,
            children: 0,
        },
        Ok(blocker) => match entry.blocking {
            Err(failure) => unreadable_row(
                Selection::Blocker(container, blocker),
                entry.reference@,
                failure@,
            ),
            Ok(blocking) => Row {
                selection: Selection::Blocker(container, blocker),
                kind: RowKind::Work {
                    status: blocking.status.word(),
                    claimed_by: text_in(blocking.claimed_by),
                },
                label: entry.reference@,
                name: blocking.name@,
                children: 0,
            },
        },
    }
}

/// The row of one asset: its size, or that its bytes are gone.
pub open spec fn asset_row(container: Container<Text>, asset: AssetReading) -> Row<Text> {
    match asset.size {
        Some(size) => Row {
            selection: Selection::Asset(container, asset.name@),
            kind: RowKind::Member,
            label: asset.name@,
            name: size_text(size as nat),
            children: 0,
        },
        None => unreadable_row(
            Selection::Asset(container, asset.name@),
            asset.name@,
            "indexed, but its bytes are missing"@,
        ),
    }
}

/// The rows of one collection's members, in stored order.
pub open spec fn members_shown(container: Container<Text>, members: Members) -> Seq<Row<Text>> {
    match members {
        Members::Labels(labels) => labels@.map_values(|label: String| label_row(container, label@)),
        Members::Comments(comments, now) => comments@.map_values(
            |comment: CommentView| comment_row(container, comment, now@),
        ),
        Members::BlockedBy(entries) => if container is Node {
            entries@.map_values(|entry: BlockerReading| blocker_row(container, entry))
        } else {
            Seq::empty()
        },
        Members::Assets(assets) => assets@.map_values(
            |asset: AssetReading| asset_row(container, asset),
        ),
    }
}

/// The rows of a label set.
fn label_rows(container: &Container, labels: &Vec<String>) -> (r: Vec<Row>)
    ensures
        rows_shown(r@) == labels@.map_values(|label: String| label_row(container@, label@)),
{
    let ghost make = |label: String| label_row(container@, label@);
    let mut out: Vec<Row> = Vec::new();
    let mut i: usize = 0;
    while i < labels.len()
        invariant
            i <= labels.len(),
            make == (|label: String| label_row(container@, label@)),
            rows_shown(out@) == labels@.take(i as int).map_values(make),
        decreases labels.len() - i,
    {
        let row = Row {
            selection: Selection::Label(container.clone(), labels[i].clone()),
            kind: RowKind::Member,
            label: labels[i].clone(),
            name: String::new(),
            children: 0,
        };
        proof {
            lemma_shown_push(out@, row);
            lemma_mapped_push(labels@, i as int, make);
        }
        out.push(row);
        i += 1;
    }
    assert(labels@.take(labels.len() as int) == labels@);
    out
}

/// The rows of a comment thread.
fn comment_rows(container: &Container, comments: &Vec<CommentView>, now: Moment) -> (r: Vec<Row>)
    ensures
        rows_shown(r@) == comments@.map_values(
            |comment: CommentView| comment_row(container@, comment, now@),
        ),
{
    let ghost make = |comment: CommentView| comment_row(container@, comment, now@);
    let mut out: Vec<Row> = Vec::new();
    let mut i: usize = 0;
    while i < comments.len()
        invariant
            i <= comments.len(),
            make == (|comment: CommentView| comment_row(container@, comment, now@)),
            rows_shown(out@) == comments@.take(i as int).map_values(make),
        decreases comments.len() - i,
    {
        let row = match &comments[i] {
            CommentView::Live { id, author, created, .. } => Row {
                selection: Selection::Comment(container.clone(), *id),
                kind: RowKind::Comment { by_the_human: author.human },
                label: number_text(*id),
                name: joined3(&author.name, " · ", &age(*created, now)),
                children: 0,
            },
            CommentView::Tombstone { id, author, created } => Row {
                selection: Selection::Comment(container.clone(), *id),
                kind: RowKind::Withdrawn,
                label: number_text(*id),
                name: joined("deleted · ", &joined3(&author.name, " · ", &age(*created, now))),
                children: 0,
            },
        };
        proof {
            lemma_shown_push(out@, row);
            lemma_mapped_push(comments@, i as int, make);
        }
        out.push(row);
        i += 1;
    }
    assert(comments@.take(comments.len() as int) == comments@);
    out
}

/// A malformed blocker entry cannot be safely removed: an entry is removed by a
/// parsed reference, and raw text is not one. The short reason leads because the
/// raw entry is already in the identifier column.
fn unremovable_blocker(selection: Selection, label: String) -> (r: Row)
    ensures
        r@ == (Row {
            selection: selection@,
            kind: RowKind::Unreadable,
            label: label@,
            name: "cannot be removed"@,
            children: 0,
        }),
{
    Row {
        selection,
        kind: RowKind::Unreadable,
        label,
        name: "cannot be removed".to_owned(),
        children: 0,
    }
}

/// The rows of a dependency list.
fn blocker_rows(container: &Container, entries: &Vec<BlockerReading>) -> (r: Vec<Row>)
    ensures
        rows_shown(r@) == entries@.map_values(
            |entry: BlockerReading| blocker_row(container@, entry),
        ),
{
    let ghost make = |entry: BlockerReading| blocker_row(container@, entry);
    let mut out: Vec<Row> = Vec::new();
    let mut i: usize = 0;
    while i < entries.len()
        invariant
            i <= entries.len(),
            make == (|entry: BlockerReading| blocker_row(container@, entry)),
            rows_shown(out@) == entries@.take(i as int).map_values(make),
        decreases entries.len() - i,
    {
        let entry = &entries[i];
        let row = match &entry.named {
            Err(_) => unremovable_blocker(
                Selection::UnremovableBlocker(container.clone(), entry.reference.clone()),
                entry.reference.clone(),
            ),
            Ok(blocker) => {
                let selection = Selection::Blocker(container.clone(), blocker.clone());
                match &entry.blocking {
                    Err(failure) => unreadable(selection, entry.reference.clone(), failure),
                    Ok(blocking) => Row {
                        selection,
                        kind: RowKind::Work {
                            status: blocking.status.wire_name().to_owned(),
                            claimed_by: clone_text(&blocking.claimed_by),
                        },
                        label: entry.reference.clone(),
                        name: blocking.name.clone(),
                        children: 0,
                    },
                }
            },
        };
        proof {
            lemma_shown_push(out@, row);
            lemma_mapped_push(entries@, i as int, make);
        }
        out.push(row);
        i += 1;
    }
    assert(entries@.take(entries.len() as int) == entries@);
    out
}

/// The rows of a container's assets.
fn asset_rows(container: &Container, assets: &Vec<AssetReading>) -> (r: Vec<Row>)
    ensures
        rows_shown(r@) == assets@.map_values(|asset: AssetReading| asset_row(container@, asset)),
{
    let ghost make = |asset: AssetReading| asset_row(container@, asset);
    let mut out: Vec<Row> = Vec::new();
    let mut i: usize = 0;
    while i < assets.len()
        invariant
            i <= assets.len(),
            make == (|asset: AssetReading| asset_row(container@, asset)),
            rows_shown(out@) == assets@.take(i as int).map_values(make),
        decreases assets.len() - i,
    {
        let asset = &assets[i];
        let selection = Selection::Asset(container.clone(), asset.name.clone());
        let row = match asset.size {
            Some(size) => Row {
                selection,
                kind: RowKind::Member,
                label: asset.name.clone(),
                name: human_size(size),
                children: 0,
            },
            None => unreadable(
                selection,
                asset.name.clone(),
                "indexed, but its bytes are missing",
            ),
        };
        proof {
            lemma_shown_push(out@, row);
            lemma_mapped_push(assets@, i as int, make);
        }
        out.push(row);
        i += 1;
    }
    assert(assets@.take(assets.len() as int) == assets@);
    out
}

/// The members of one collection, in stored order.
///
/// Members are leaves: every row here carries no children, so entering one does
/// nothing whatever the collection. An epic is never offered a dependency list, so
/// one listed for it has no rows.
pub fn member_rows(container: &Container, members: &Members) -> (r: Vec<Row>)
    ensures
        rows_shown(r@) == members_shown(container@, *members),
{
    match members {
        Members::Labels(labels) => label_rows(container, labels),
        Members::Comments(comments, now) => comment_rows(container, comments, *now),
        Members::BlockedBy(entries) => match container {
            Container::Node(_) => blocker_rows(container, entries),
            Container::Epic(_) => {
                let out: Vec<Row> = Vec::new();
                assert(rows_shown(out@) =~= Seq::empty());
                out
            },
        },
        Members::Assets(assets) => asset_rows(container, assets),
    }
}

/// The rows of one level.
pub open spec fn level_shown(listing: Listing) -> Result<Seq<Row<Text>>, Text> {
    match listing {
        Listing::Epics(entries) => Ok(
            entries@.map_values(|entry: RosterEntry| roster_row(entry)),
        ),
        Listing::Entity(container, counts, children) => match children_shown(children@) {
            Err(words) => Err(words),
            Ok(rows) => Ok(collections_shown(container@, counts) + rows),
        },
        Listing::Collection(container, members) => Ok(members_shown(container@, members)),
    }
}

/// The rows of one level, in the order the store lists them: epics by id, siblings
/// by ascending number, and collection members in stored order. Ordering is not
/// re-decided here.
///
/// An epic's and a node's level lists its collections first and its work rows
/// after, which is why the roster has no collection rows: it is the one level
/// whose container is nothing.
pub fn rows(listing: &Listing) -> (r: Result<Vec<Row>, String>)
    ensures
        listing_shown(r) == level_shown(*listing),
{
    match listing {
        Listing::Epics(entries) => Ok(roster_rows(entries)),
        Listing::Entity(container, counts, children) => {
            let mut out = collection_rows(container, *counts);
            match child_rows(children) {
                Err(words) => Err(words),
                Ok(rows) => {
                    let mut rows = rows;
                    assert(rows_shown(out@ + rows@) =~= rows_shown(out@) + rows_shown(rows@));
                    out.append(&mut rows);
                    Ok(out)
                },
            }
        },
        Listing::Collection(container, members) => Ok(member_rows(container, members)),
    }
}

/// The members of a collection are leaves: no member's row has children, and none
/// can be entered.
pub proof fn a_collections_members_are_leaves(
    container: Container<Text>,
    members: Members,
    i: int,
)
    requires
        0 <= i < members_shown(container, members).len(),
    ensures
        members_shown(container, members)[i].children == 0,
        !members_shown(container, members)[i].spec_enterable(),
{
}

/// An epic's and a node's level leads with its container's collections, each once
/// and in their fixed order, whether or not it has members; after them stand the
/// children, each once and in the order they were listed, all of them work that can
/// be entered.
pub proof fn a_level_leads_with_its_collections(
    container: Container,
    counts: CollectionCounts,
    children: Vec<ChildReading>,
    i: int,
)
    requires
        level_shown(Listing::Entity(container, counts, children)) is Ok,
        0 <= i < level_shown(Listing::Entity(container, counts, children))->Ok_0.len(),
    ensures
        ({
            let rows = level_shown(Listing::Entity(container, counts, children))->Ok_0;
            let kinds = container@.spec_collections();
            &&& rows.len() == kinds.len() + children.len()
            &&& i < kinds.len() ==> rows[i] == collection_row(container@, kinds[i], counts)
            &&& i >= kinds.len() ==> {
                let child = children[i - kinds.len()];
                &&& child.reference is Ok
                &&& rows[i] == child_row(child, child.reference->Ok_0@)
                &&& rows[i].kind is Work
                &&& rows[i].spec_enterable()
            }
        }),
{
    let kinds = container@.spec_collections();
    lemma_child_shown(children@, i - kinds.len());
}

/// A listing of children that could be read shows each of them where it was listed.
proof fn lemma_child_shown(children: Seq<ChildReading>, i: int)
    requires
        children_shown(children) is Ok,
    ensures
        children_shown(children)->Ok_0.len() == children.len(),
        0 <= i < children.len() ==> children[i].reference is Ok && children_shown(
            children,
        )->Ok_0[i] == child_row(children[i], children[i].reference->Ok_0@),
    decreases children.len(),
{
    if children.len() > 0 {
        lemma_child_shown(children.drop_last(), i);
    }
}

/// A collection's row can be entered exactly when it has members to show.
pub proof fn a_collection_is_entered_exactly_when_it_has_members(
    container: Container<Text>,
    kind: Collection,
    counts: CollectionCounts,
)
    ensures
        collection_row(container, kind, counts).spec_enterable() <==> counts.counted(kind) > 0,
{
}

/// A claim is taken on a unit of work: no level lists an epic anybody holds.
pub proof fn an_epics_row_carries_no_claim(listing: Listing, i: int)
    requires
        level_shown(listing) is Ok,
        0 <= i < level_shown(listing)->Ok_0.len(),
        level_shown(listing)->Ok_0[i].selection is Epic,
    ensures
        level_shown(listing)->Ok_0[i].kind matches RowKind::Work { claimed_by, .. } ==> claimed_by
            is None,
{
    let rows = level_shown(listing)->Ok_0;
    if let Listing::Entity(container, counts, children) = listing {
        let kinds = container@.spec_collections();
        if i < kinds.len() {
            assert(rows[i] == collection_row(container@, kinds[i], counts));
        } else {
            lemma_child_shown(children@, i - kinds.len());
        }
    }
}

/// One member that could not be read takes no other down with it: a collection lists
/// as many rows as it has members, each where its member stands.
pub proof fn every_member_has_its_row(node: NodeRef<Text>, members: Members)
    ensures
        members_shown(Container::Node(node), members).len() == (match members {
            Members::Labels(labels) => labels@.len(),
            Members::Comments(comments, _) => comments@.len(),
            Members::BlockedBy(entries) => entries@.len(),
            Members::Assets(assets) => assets@.len(),
        }),
{
}

/// Every child's row carries what the listing said of it: it points at the child's own
/// node, is labelled with its number, and shows its name, its state, who holds it and
/// how many children it has. A listing is shown whole or not at all: in the words of the
/// first child whose reference could not be read, where there is one.
pub proof fn a_childs_row_carries_what_was_listed_of_it(children: Seq<ChildReading>, i: int)
    requires
        0 <= i <= children.len(),
        forall|j: int| 0 <= j < i ==> (#[trigger] children[j]).reference is Ok,
    ensures
        i < children.len() ==> (children[i].reference matches Err(words) ==> children_shown(
            children,
        ) == Err::<Seq<Row<Text>>, Text>(words@)),
        i == children.len() ==> (children_shown(children) matches Ok(rows) && {
            &&& rows.len() == children.len()
            &&& forall|k: int|
                0 <= k < rows.len() ==> {
                    let row = #[trigger] rows[k];
                    let child = children[k];
                    let node = child.reference->Ok_0;
                    &&& row.selection == Selection::Node(
                        NodeRef { epic_id: node.epic_id@, number: node.number },
                    )
                    &&& row.label == decimal(node.number as nat)
                    &&& row.name == child.name@
                    &&& row.children == child.children
                    &&& row.kind matches RowKind::Work { status, claimed_by } && {
                        &&& status == child.status@
                        &&& child.claimed_by is None ==> claimed_by is None
                        &&& child.claimed_by matches Some(holder) ==> claimed_by == Some(holder@)
                    }
                }
        }),
    decreases children.len(),
{
    if i == children.len() {
        lemma_children_read(children);
        assert forall|k: int| 0 <= k < children.len() implies children_shown(children)->Ok_0[k]
            == child_row(children[k], children[k].reference->Ok_0@) by {
            lemma_child_shown(children, k);
        }
        lemma_child_shown(children, 0);
    } else if children[i].reference is Err {
        let read = children.take(i);
        assert forall|j: int| 0 <= j < read.len() implies (#[trigger] read[j]).reference is Ok by {
            assert(children[j].reference is Ok);
        }
        lemma_children_read(read);
        let failed = children.take(i + 1);
        assert(failed.drop_last() =~= read);
        assert(failed.last() == children[i]);
        lemma_children_fail(children, i + 1);
    }
}

/// A listing every reference of which could be read is shown.
proof fn lemma_children_read(children: Seq<ChildReading>)
    requires
        forall|j: int| 0 <= j < children.len() ==> (#[trigger] children[j]).reference is Ok,
    ensures
        children_shown(children) is Ok,
    decreases children.len(),
{
    if children.len() > 0 {
        let before = children.drop_last();
        assert forall|j: int| 0 <= j < before.len() implies (#[trigger] before[j]).reference
            is Ok by {
            assert(children[j].reference is Ok);
        }
        lemma_children_read(before);
        assert(children[children.len() - 1].reference is Ok);
    }
}

/// An epic's row on the roster carries what was listed of it: its id, its name, its
/// state and how many tickets it has, and nobody's claim; and one that could not be read
/// keeps its place and says why.
pub proof fn an_epics_row_carries_what_was_listed_of_it(
    id: String,
    name: String,
    status: String,
    failure: String,
    children: usize,
)
    ensures
        roster_row(RosterEntry::Readable { id, name, status, children }) == (Row {
            selection: Selection::Epic(id@),
            kind: RowKind::Work { status: status@, claimed_by: None },
            label: id@,
            name: name@,
            children,
        }),
        roster_row(RosterEntry::Unreadable { id, failure }) == (Row {
            selection: Selection::Epic(id@),
            kind: RowKind::Unreadable,
            label: id@,
            name: "unreadable · "@ + failure@,
            children: 0,
        }),
{
}

/// A level's rows are its listing's, in the order they were listed: the roster's one per
/// epic, and a container's collections before its children.
pub proof fn a_level_shows_its_listing_in_order(
    entries: Vec<RosterEntry>,
    container: Container,
    counts: CollectionCounts,
    children: Vec<ChildReading>,
    members: Members,
    i: int,
)
    ensures
        level_shown(Listing::Epics(entries)) matches Ok(rows) && rows.len() == entries@.len() && (0
            <= i < rows.len() ==> rows[i] == roster_row(entries@[i])),
        children_shown(children@) matches Err(words) ==> level_shown(
            Listing::Entity(container, counts, children),
        ) == Err::<Seq<Row<Text>>, Text>(words),
        children_shown(children@) matches Ok(shown) ==> (level_shown(
            Listing::Entity(container, counts, children),
        ) matches Ok(rows) && {
            let first = collections_shown(container@, counts);
            &&& rows.len() == first.len() + shown.len()
            &&& 0 <= i < first.len() ==> rows[i] == first[i]
            &&& 0 <= i < shown.len() ==> rows[first.len() + i] == shown[i]
        }),
        level_shown(Listing::Collection(container, members)) == Ok::<Seq<Row<Text>>, Text>(
            members_shown(container@, members),
        ),
{
}

/// A collection's row names the collection and counts its own members, under the
/// container it belongs to.
pub proof fn a_collections_row_counts_its_own_members(
    container: Container<Text>,
    counts: CollectionCounts,
)
    ensures
        ({
            let rows = collections_shown(container, counts);
            let row_of = |kind: Collection, name: Text, children: usize|
                Row {
                    selection: Selection::Collection(container, kind),
                    kind: RowKind::Collection(kind),
                    label: Seq::<char>::empty(),
                    name,
                    children,
                };
            let assets = row_of(Collection::Assets, "assets"@, counts.assets);
            &&& rows.len() == (if container is Node {
                4int
            } else {
                3
            })
            &&& rows[0] == row_of(Collection::Labels, "labels"@, counts.labels)
            &&& rows[1] == row_of(Collection::Comments, "comments"@, counts.comments)
            &&& container is Node ==> rows[2] == row_of(
                Collection::BlockedBy,
                "blocked-by"@,
                counts.blocked_by,
            )
            &&& rows[rows.len() - 1] == assets
        }),
        counts.counted(Collection::Labels) == counts.labels,
        counts.counted(Collection::Comments) == counts.comments,
        counts.counted(Collection::BlockedBy) == counts.blocked_by,
        counts.counted(Collection::Assets) == counts.assets,
{
}

/// A label's row is the label, and an asset's row its name with its size, or that its
/// bytes are missing.
pub proof fn a_members_row_is_the_member(
    container: Container<Text>,
    labels: Vec<String>,
    assets: Vec<AssetReading>,
    i: int,
)
    ensures
        members_shown(container, Members::Labels(labels)).len() == labels@.len(),
        0 <= i < labels@.len() ==> members_shown(container, Members::Labels(labels))[i] == (Row {
            selection: Selection::Label(container, labels@[i]@),
            kind: RowKind::Member,
            label: labels@[i]@,
            name: Seq::empty(),
            children: 0,
        }),
        members_shown(container, Members::Assets(assets)).len() == assets@.len(),
        0 <= i < assets@.len() ==> ({
            let row = members_shown(container, Members::Assets(assets))[i];
            &&& row.selection == Selection::Asset(container, assets@[i].name@)
            &&& row.label == assets@[i].name@
            &&& row.children == 0
            &&& assets@[i].size matches Some(size) ==> row.kind is Member && row.name == size_text(
                size as nat,
            )
            &&& assets@[i].size is None ==> row.kind is Unreadable && row.name == "unreadable · "@
                + "indexed, but its bytes are missing"@
        }),
{
}

/// A comment's row is its number, who wrote it and how long ago; a live one says whether
/// the human wrote it, and a withdrawn one says first that it is withdrawn.
pub proof fn a_comments_row_says_who_and_when(
    container: Container<Text>,
    comments: Vec<CommentView>,
    now: Moment,
    i: int,
)
    requires
        0 <= i < comments@.len(),
    ensures
        ({
            let rows = members_shown(container, Members::Comments(comments, now));
            let row = rows[i];
            &&& rows.len() == comments@.len()
            &&& row.children == 0
            &&& comments@[i] matches CommentView::Live { id, author, created, .. } ==> {
                &&& row.selection == Selection::<Text>::Comment(container, id)
                &&& row.label == decimal(id as nat)
                &&& row.kind == (RowKind::<Text>::Comment { by_the_human: author.human })
                &&& row.name == author.name@ + " · "@ + age_text(seconds_since(created@, now@))
            }
            &&& comments@[i] matches CommentView::Tombstone { id, author, created } ==> {
                &&& row.selection == Selection::<Text>::Comment(container, id)
                &&& row.label == decimal(id as nat)
                &&& row.kind is Withdrawn
                &&& row.name == "deleted · "@ + (author.name@ + " · "@ + age_text(
                    seconds_since(created@, now@),
                ))
            }
        }),
{
}

/// A dependency's row is labelled as the store holds it: it shows the ticket it names
/// with its state and its holder, why that ticket could not be read, or that what is no
/// reference cannot be removed. An epic has no such rows.
pub proof fn a_blockers_row_shows_what_blocks(
    container: Container<Text>,
    entries: Vec<BlockerReading>,
    i: int,
)
    requires
        0 <= i < entries@.len(),
    ensures
        ({
            let rows = members_shown(container, Members::BlockedBy(entries));
            let row = rows[i];
            let entry = entries@[i];
            &&& container is Epic ==> rows.len() == 0
            &&& container is Node ==> {
                &&& rows.len() == entries@.len()
                &&& row.label == entry.reference@
                &&& row.children == 0
                &&& entry.named is Err ==> {
                    &&& row.selection == Selection::UnremovableBlocker(container, entry.reference@)
                    &&& row.kind is Unreadable
                    &&& row.name == "cannot be removed"@
                }
                &&& entry.named matches Ok(node) ==> {
                    &&& row.selection == Selection::Blocker(
                        container,
                        NodeRef { epic_id: node.epic_id@, number: node.number },
                    )
                    &&& entry.blocking matches Err(failure) ==> {
                        &&& row.kind is Unreadable
                        &&& row.name == "unreadable · "@ + failure@
                    }
                    &&& entry.blocking matches Ok(blocking) ==> {
                        &&& row.name == blocking.name@
                        &&& row.kind matches RowKind::Work { status, claimed_by } && {
                            &&& status == blocking.status.word()
                            &&& blocking.claimed_by is None ==> claimed_by is None
                            &&& blocking.claimed_by matches Some(holder) ==> claimed_by == Some(
                                holder@,
                            )
                        }
                    }
                }
            }
        }),
{
}

/// Epics and tickets are entered, collections where they have members, and members never.
pub proof fn what_can_be_entered(row: Row<Text>)
    ensures
        row.selection is Epic || row.selection is Node ==> row.spec_enterable(),
        row.selection is Collection ==> (row.spec_enterable() <==> row.children > 0),
        row.selection is Label || row.selection is Comment || row.selection is Asset
            || row.selection is Blocker || row.selection is UnremovableBlocker
            ==> !row.spec_enterable(),
{
}

/// A row is known by what it shows, and a listing by its rows in their order.
pub proof fn a_row_is_known_by_what_it_shows(
    row_kind: &RowKind,
    row: &Row,
    rows: Vec<Row>,
    words: String,
)
    ensures
        row_kind@ == ({
            match row_kind {
                RowKind::Work { status, claimed_by } => RowKind::Work {
                    status: status@,
                    claimed_by: text_in(*claimed_by),
                },
                RowKind::Collection(kind) => RowKind::Collection(*kind),
                RowKind::Member => RowKind::Member,
                RowKind::Comment { by_the_human } => RowKind::Comment { by_the_human: *by_the_human },
                RowKind::Withdrawn => RowKind::Withdrawn,
                RowKind::Unreadable => RowKind::Unreadable,
            }
        }),
        row@ == ({
            Row {
                selection: row.selection@,
                kind: row.kind@,
                label: row.label@,
                name: row.name@,
                children: row.children,
            }
        }),
        rows_shown(rows@).len() == rows@.len(),
        forall|i: int| 0 <= i < rows@.len() ==> rows_shown(rows@)[i] == rows@[i]@,
        listing_shown(Ok(rows)) == Ok::<Seq<Row<Text>>, Text>(rows_shown(rows@)),
        listing_shown(Err(words)) == Err::<Seq<Row<Text>>, Text>(words@),
{
}

} // verus!
