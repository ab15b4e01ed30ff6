//! How everything in a store is addressed: epics, nodes, their collections and
//! the members of those, and the levels a browser lists.
use crate::text::{decimal, joined3, number_text, same_text, Text};
use vstd::prelude::*;

verus! {

/// A node's address: the epic it belongs to and its number there.
#[derive(Debug, PartialEq, Eq)]
#[verifier::ext_equal]
pub struct NodeRef<S = String> {
    /// The id of the epic the node belongs to.
    pub epic_id: S,
    /// The node's number, taken from its epic's own pool.
    pub number: u64,
}

impl View for NodeRef {
    type V = NodeRef<Text>;

    open spec fn view(&self) -> NodeRef<Text> {
        NodeRef { epic_id: self.epic_id@, number: self.number }
    }
}

impl NodeRef<Text> {
    /// The reference as it is typed: `<epic-id>/<number>`.
    pub open spec fn spec_shown(self) -> Text {
        self.epic_id + "/"@ + decimal(self.number as nat)
    }
}

impl Clone for NodeRef {
    fn clone(&self) -> (r: Self)
        ensures
            r == *self,
    {
        NodeRef { epic_id: self.epic_id.clone(), number: self.number }
    }
}

impl NodeRef {
    /// The node with this number in this epic.
    pub fn new(epic_id: &str, number: u64) -> (r: NodeRef)
        ensures
            r@ == (NodeRef { epic_id: epic_id@, number }),
    {
        NodeRef { epic_id: epic_id.to_owned(), number }
    }

    /// The reference as it is typed: `<epic-id>/<number>`.
    pub fn shown(&self) -> (r: String)
        ensures
            r@ == self@.spec_shown(),
    {
        joined3(&self.epic_id, "/", &number_text(self.number))
    }

    /// Whether two references name one node.
    pub fn same(&self, other: &NodeRef) -> (r: bool)
        ensures
            r == (self@ == other@),
    {
        self.number == other.number && same_text(&self.epic_id, &other.epic_id)
    }
}

/// What a collection of meta hangs off. Labels, comments and assets are
/// identical on an epic and on a node; a dependency list exists only on a node,
/// because an epic is not a unit of work that can be blocked.
#[derive(Debug, PartialEq, Eq)]
#[verifier::ext_equal]
pub enum Container<S = String> {
    /// An epic, addressed by its id.
    Epic(S),
    /// A node, addressed by `<epic-id>/<number>`.
    Node(NodeRef<S>),
}

impl View for Container {
    type V = Container<Text>;

    open spec fn view(&self) -> Container<Text> {
        match self {
            Container::Epic(id) => Container::Epic(id@),
            Container::Node(r) => Container::Node(r@),
        }
    }
}

impl Container<Text> {
    /// The container as a selection.
    pub open spec fn spec_selection(self) -> Selection<Text> {
        match self {
            Container::Epic(id) => Selection::Epic(id),
            Container::Node(r) => Selection::Node(r),
        }
    }

    /// The collections the container carries, in the order they are listed.
    pub open spec fn spec_collections(self) -> Seq<Collection> {
        match self {
            Container::Epic(_) => seq![Collection::Labels, Collection::Comments, Collection::Assets],
            Container::Node(_) => seq![
                Collection::Labels,
                Collection::Comments,
                Collection::BlockedBy,
                Collection::Assets,
            ],
        }
    }

    /// The noun the command line addresses the container by.
    pub open spec fn spec_cli_noun(self) -> Text {
        match self {
            Container::Epic(_) => "epic"@,
            Container::Node(_) => "ticket"@,
        }
    }

    /// The container's own reference as it is typed.
    pub open spec fn spec_reference(self) -> Text {
        match self {
            Container::Epic(id) => id,
            Container::Node(r) => r.spec_shown(),
        }
    }
}

impl Clone for Container {
    fn clone(&self) -> (r: Self)
        ensures
            r == *self,
    {
        match self {
            Container::Epic(id) => Container::Epic(id.clone()),
            Container::Node(r) => Container::Node(r.clone()),
        }
    }
}

impl Container {
    /// The container as a selection, which is how a row addresses it and how a
    /// preview asks for its document.
    pub fn selection(&self) -> (r: Selection)
        ensures
            r@ == self@.spec_selection(),
    {
        match self {
            Container::Epic(id) => Selection::Epic(id.clone()),
            Container::Node(r) => Selection::Node(r.clone()),
        }
    }

    /// The collections this container carries, in the order they are listed.
    /// Fixed rather than derived from what is populated: a collection is a row
    /// whether or not it has members, so the rows of a level do not move around
    /// as meta is added and removed.
    pub fn collections(&self) -> (r: Vec<Collection>)
        ensures
            r@ == self@.spec_collections(),
    {
        match self {
            Container::Epic(_) => vec![
                Collection::Labels,
                Collection::Comments,
                Collection::Assets,
            ],
            Container::Node(_) => vec![
                Collection::Labels,
                Collection::Comments,
                Collection::BlockedBy,
                Collection::Assets,
            ],
        }
    }

    /// The noun the command line addresses this container by, for a message that
    /// tells a reader which command does a job the browser does not. Every node is
    /// a `ticket` there, subtickets included.
    pub fn cli_noun(&self) -> (r: &'static str)
        ensures
            r@ == self@.spec_cli_noun(),
    {
        match self {
            Container::Epic(_) => "epic",
            Container::Node(_) => "ticket",
        }
    }

    /// The container's own reference as it is typed.
    pub fn reference(&self) -> (r: String)
        ensures
            r@ == self@.spec_reference(),
    {
        match self {
            Container::Epic(id) => id.clone(),
            Container::Node(r) => r.shown(),
        }
    }

    /// Whether two containers are one.
    pub fn same(&self, other: &Container) -> (r: bool)
        ensures
            r == (self@ == other@),
    {
        match (self, other) {
            (Container::Epic(a), Container::Epic(b)) => same_text(a, b),
            (Container::Node(a), Container::Node(b)) => a.same(b),
            _ => false,
        }
    }
}

/// One of a container's meta collections.
#[derive(Clone, Copy, Debug, PartialEq, Eq, Structural)]
pub enum Collection {
    /// The label set.
    Labels,
    /// The comment thread, tombstones included.
    Comments,
    /// The dependency list; nodes only.
    BlockedBy,
    /// The attached assets.
    Assets,
}

impl Collection {
    /// The collection's name as the rest of loti spells it.
    pub open spec fn name_text(self) -> Text {
        match self {
            Collection::Labels => "labels"@,
            Collection::Comments => "comments"@,
            Collection::BlockedBy => "blocked-by"@,
            Collection::Assets => "assets"@,
        }
    }

    /// The collection's name as the rest of loti spells it, so a row, a
    /// breadcrumb and the document in the preview pane never give the same
    /// collection two names.
    pub fn name(self) -> (r: &'static str)
        ensures
            r@ == self.name_text(),
    {
        match self {
            Collection::Labels => "labels",
            Collection::Comments => "comments",
            Collection::BlockedBy => "blocked-by",
            Collection::Assets => "assets",
        }
    }
}

/// What a navigation row points at. This is the target every operation on the
/// highlighted row needs, so it is carried as one value rather than re-derived
/// per operation.
#[derive(Debug, PartialEq, Eq)]
#[verifier::ext_equal]
pub enum Selection<S = String> {
    /// An epic, addressed by its id.
    Epic(S),
    /// A node, addressed by `<epic-id>/<number>`.
    Node(NodeRef<S>),
    /// One of a container's collections, as a row on the container's level.
    Collection(Container<S>, Collection),
    /// One label of a container.
    Label(Container<S>, S),
    /// One comment of a container, by the id that is never reused.
    Comment(Container<S>, u64),
    /// One asset of a container, by the name that is unique within it.
    Asset(Container<S>, S),
    /// One entry of a node's dependency list: the node that is blocked, and the
    /// node blocking it. Both travel, because the entry belongs to the first and
    /// the document belongs to the second.
    Blocker(Container<S>, NodeRef<S>),
    /// A dependency entry the store holds as text but which cannot address a
    /// node. It remains visible, but cannot become a removal target because
    /// removal requires a parsed reference.
    UnremovableBlocker(Container<S>, S),
}

impl View for Selection {
    type V = Selection<Text>;

    open spec fn view(&self) -> Selection<Text> {
        match self {
            Selection::Epic(id) => Selection::Epic(id@),
            Selection::Node(r) => Selection::Node(r@),
            Selection::Collection(c, kind) => Selection::Collection(c@, *kind),
            Selection::Label(c, label) => Selection::Label(c@, label@),
            Selection::Comment(c, id) => Selection::Comment(c@, *id),
            Selection::Asset(c, name) => Selection::Asset(c@, name@),
            Selection::Blocker(c, r) => Selection::Blocker(c@, r@),
            Selection::UnremovableBlocker(c, entry) => Selection::UnremovableBlocker(c@, entry@),
        }
    }
}

impl Selection<Text> {
    /// How the selection is named to a reader.
    pub open spec fn spec_reference(self) -> Text {
        match self {
            Selection::Epic(id) => id,
            Selection::Node(r) => r.spec_shown(),
            Selection::Blocker(_, r) => r.spec_shown(),
            Selection::Collection(c, _) => c.spec_reference(),
            Selection::Label(c, _) => c.spec_reference(),
            Selection::Comment(c, id) => c.spec_reference() + " comment "@ + decimal(id as nat),
            Selection::Asset(c, name) => c.spec_reference() + " asset "@ + name,
            Selection::UnremovableBlocker(c, _) => c.spec_reference(),
        }
    }

    /// The level entering the selection opens, if there is one below it.
    pub open spec fn spec_level(self) -> Option<Level<Text>> {
        match self {
            Selection::Epic(id) => Some(Level::Epic(id)),
            Selection::Node(r) => Some(Level::Node(r)),
            Selection::Collection(c, kind) => Some(Level::Collection(c, kind)),
            _ => None,
        }
    }

    /// The document the selection previews: its container's where it has none of
    /// its own, and its own otherwise.
    pub open spec fn spec_document(self) -> Selection<Text> {
        match self {
            Selection::Collection(c, _) => c.spec_selection(),
            Selection::Label(c, _) => c.spec_selection(),
            Selection::UnremovableBlocker(c, _) => c.spec_selection(),
            _ => self,
        }
    }
}

impl Clone for Selection {
    fn clone(&self) -> (r: Self)
        ensures
            r == *self,
    {
        match self {
            Selection::Epic(id) => Selection::Epic(id.clone()),
            Selection::Node(r) => Selection::Node(r.clone()),
            Selection::Collection(c, kind) => Selection::Collection(c.clone(), *kind),
            Selection::Label(c, label) => Selection::Label(c.clone(), label.clone()),
            Selection::Comment(c, id) => Selection::Comment(c.clone(), *id),
            Selection::Asset(c, name) => Selection::Asset(c.clone(), name.clone()),
            Selection::Blocker(c, r) => Selection::Blocker(c.clone(), r.clone()),
            Selection::UnremovableBlocker(c, entry) => {
                Selection::UnremovableBlocker(c.clone(), entry.clone())
            },
        }
    }
}

impl Selection {
    /// How the selection is named to a reader: a reference as it is typed for an
    /// epic or a node, and otherwise the container plus the member's own id or
    /// name, which is how the command line addresses a member too.
    ///
    /// A collection, a label and an unremovable blocker name their container,
    /// because the container's document is what the preview shows for them; a
    /// blocker names the node it points at, for the same reason.
    pub fn reference(&self) -> (r: String)
        ensures
            r@ == self@.spec_reference(),
    {
        match self {
            Selection::Epic(id) => id.clone(),
            Selection::Node(r) => r.shown(),
            Selection::Blocker(_, r) => r.shown(),
            Selection::Collection(c, _) => c.reference(),
            Selection::Label(c, _) => c.reference(),
            Selection::Comment(c, id) => joined3(&c.reference(), " comment ", &number_text(*id)),
            Selection::Asset(c, name) => joined3(&c.reference(), " asset ", name),
            Selection::UnremovableBlocker(c, _) => c.reference(),
        }
    }

    /// The level entering this selection opens, or `None` when there is nothing
    /// below it: a collection member is a leaf, a blocker included — it is read
    /// where it stands, not followed.
    pub fn level(&self) -> (r: Option<Level>)
        ensures
            (match r {
                Some(level) => self@.spec_level() == Some(level@),
                None => self@.spec_level() is None,
            }),
    {
        match self {
            Selection::Epic(id) => Some(Level::Epic(id.clone())),
            Selection::Node(r) => Some(Level::Node(r.clone())),
            Selection::Collection(c, kind) => Some(Level::Collection(c.clone(), *kind)),
            _ => None,
        }
    }

    /// The document identity this selection previews: the one value that decides
    /// whether two rows show the same content.
    ///
    /// A collection, label or unremovable blocker row carries no document of its
    /// own — the preview shows its container's — so each normalises to the
    /// container's own selection here; every other selection already names the
    /// document it shows.
    pub fn document(&self) -> (r: Selection)
        ensures
            r@ == self@.spec_document(),
    {
        match self {
            Selection::Collection(c, _) => c.selection(),
            Selection::Label(c, _) => c.selection(),
            Selection::UnremovableBlocker(c, _) => c.selection(),
            _ => self.clone(),
        }
    }

    /// Whether two selections point at one thing.
    pub fn same(&self, other: &Selection) -> (r: bool)
        ensures
            r == (self@ == other@),
    {
        match (self, other) {
            (Selection::Epic(a), Selection::Epic(b)) => same_text(a, b),
            (Selection::Node(a), Selection::Node(b)) => a.same(b),
            (Selection::Collection(c, k), Selection::Collection(d, l)) => *k == *l && c.same(d),
            (Selection::Label(c, a), Selection::Label(d, b)) => c.same(d) && same_text(a, b),
            (Selection::Comment(c, a), Selection::Comment(d, b)) => *a == *b && c.same(d),
            (Selection::Asset(c, a), Selection::Asset(d, b)) => c.same(d) && same_text(a, b),
            (Selection::Blocker(c, a), Selection::Blocker(d, b)) => c.same(d) && a.same(b),
            (Selection::UnremovableBlocker(c, a), Selection::UnremovableBlocker(d, b)) => {
                c.same(d) && same_text(a, b)
            },
            _ => false,
        }
    }
}

/// Which level of the browser a listing came from.
#[derive(Debug, PartialEq, Eq)]
#[verifier::ext_equal]
pub enum Level<S = String> {
    /// The epic roster — the root level, which always exists.
    Epics,
    /// An epic's collections and top-level tickets.
    Epic(S),
    /// A node's collections and direct subtickets.
    Node(NodeRef<S>),
    /// The members of one collection.
    Collection(Container<S>, Collection),
}

impl View for Level {
    type V = Level<Text>;

    open spec fn view(&self) -> Level<Text> {
        match self {
            Level::Epics => Level::Epics,
            Level::Epic(id) => Level::Epic(id@),
            Level::Node(r) => Level::Node(r@),
            Level::Collection(c, kind) => Level::Collection(c@, *kind),
        }
    }
}

impl Level<Text> {
    /// The level's own entity, which the roster has none of.
    pub open spec fn spec_selection(self) -> Option<Selection<Text>> {
        match self {
            Level::Epics => None,
            Level::Epic(id) => Some(Selection::Epic(id)),
            Level::Node(r) => Some(Selection::Node(r)),
            Level::Collection(c, kind) => Some(Selection::Collection(c, kind)),
        }
    }
}

impl Clone for Level {
    fn clone(&self) -> (r: Self)
        ensures
            r == *self,
    {
        match self {
            Level::Epics => Level::Epics,
            Level::Epic(id) => Level::Epic(id.clone()),
            Level::Node(r) => Level::Node(r.clone()),
            Level::Collection(c, kind) => Level::Collection(c.clone(), *kind),
        }
    }
}

impl Level {
    /// The level's own entity, or `None` for the roster, which has no entity.
    pub fn selection(&self) -> (r: Option<Selection>)
        ensures
            (match r {
                Some(selection) => self@.spec_selection() == Some(selection@),
                None => self@.spec_selection() is None,
            }),
    {
        match self {
            Level::Epics => None,
            Level::Epic(id) => Some(Selection::Epic(id.clone())),
            Level::Node(r) => Some(Selection::Node(r.clone())),
            Level::Collection(c, kind) => Some(Selection::Collection(c.clone(), *kind)),
        }
    }
}

/// The document of a document is that document: what a row previews names itself.
pub proof fn a_document_shows_itself(s: Selection<Text>)
    ensures
        s.spec_document().spec_document() == s.spec_document(),
{
}

/// A level is opened by entering exactly one selection, which is the level's own.
pub proof fn a_level_is_entered_through_its_own_selection(s: Selection<Text>, level: Level<Text>)
    ensures
        s.spec_level() == Some(level) <==> level.spec_selection() == Some(s),
{
}

/// A row is named as what its preview shows: a collection, a label and an
/// unremovable blocker as the container whose document they show, and any other
/// as itself.
pub proof fn a_row_is_named_for_the_document_it_shows(s: Selection<Text>)
    ensures
        s.spec_reference() == s.spec_document().spec_reference(),
{
}

/// An epic is not a unit of work that can be blocked, so it carries no dependency
/// list; a node carries every collection, and no container lists one twice.
pub proof fn only_a_node_carries_a_dependency_list(
    container: Container<Text>,
    kind: Collection,
    i: int,
    j: int,
)
    requires
        0 <= i < container.spec_collections().len(),
        0 <= j < container.spec_collections().len(),
    ensures
        container.spec_collections().contains(kind) <==> container is Node || kind
            != Collection::BlockedBy,
        container.spec_collections()[i] == container.spec_collections()[j] ==> i == j,
{
    let kinds = container.spec_collections();
    assert(kinds[0] == Collection::Labels && kinds[1] == Collection::Comments);
    assert(container is Node ==> kinds[2] == Collection::BlockedBy && kinds[3]
        == Collection::Assets);
    assert(container is Epic ==> kinds[2] == Collection::Assets);
}

/// Everything is named as it is typed: an epic by its id, a node by its epic, a slash
/// and its number, a collection, a label and an unremovable blocker by their
/// container, a comment and an asset by their container and what they are, and a
/// blocker by the node it points at.
pub proof fn everything_is_named_as_it_is_typed(
    id: Text,
    number: u64,
    container: Container<Text>,
    kind: Collection,
    word: Text,
)
    ensures
        ({
            let node = NodeRef { epic_id: id, number };
            let shown = id + "/"@ + decimal(number as nat);
            let place = container.spec_reference();
            &&& node.spec_shown() == shown
            &&& Container::Epic(id).spec_reference() == id
            &&& Container::Node(node).spec_reference() == shown
            &&& Selection::Epic(id).spec_reference() == id
            &&& Selection::Node(node).spec_reference() == shown
            &&& Selection::Blocker(container, node).spec_reference() == shown
            &&& Selection::Collection(container, kind).spec_reference() == place
            &&& Selection::Label(container, word).spec_reference() == place
            &&& Selection::UnremovableBlocker(container, word).spec_reference() == place
            &&& Selection::<Text>::Comment(container, number).spec_reference() == place
                + " comment "@ + decimal(number as nat)
            &&& Selection::Asset(container, word).spec_reference() == place + " asset "@ + word
        }),
{
}

/// No two nodes are typed alike: the number is what follows the last slash.
pub proof fn no_two_nodes_are_typed_alike(a: NodeRef<Text>, b: NodeRef<Text>)
    ensures
        a.spec_shown() == b.spec_shown() ==> a == b,
{
    if a.spec_shown() == b.spec_shown() {
        reveal_strlit("/");
        let (x, y) = (decimal(a.number as nat), decimal(b.number as nat));
        crate::text::written_numbers_read_back(a.number);
        crate::text::written_numbers_read_back(b.number);
        let s = a.spec_shown();
        if x.len() < y.len() {
            let at = s.len() - x.len() - 1;
            assert(s[at] == '/');
            assert(s[at] == y[at - b.epic_id.len() - 1]);
            crate::text::only_digits_name_a_number(y, at - b.epic_id.len() - 1);
        } else if y.len() < x.len() {
            let at = s.len() - y.len() - 1;
            assert(b.spec_shown()[at] == '/');
            assert(s[at] == x[at - a.epic_id.len() - 1]);
            crate::text::only_digits_name_a_number(x, at - a.epic_id.len() - 1);
        }
        assert(a.epic_id.len() == b.epic_id.len());
        assert(a.epic_id =~= s.take(a.epic_id.len() as int));
        assert(b.epic_id =~= b.spec_shown().take(b.epic_id.len() as int));
        assert(x =~= s.skip(a.epic_id.len() as int + 1));
        assert(y =~= b.spec_shown().skip(b.epic_id.len() as int + 1));
        crate::text::no_two_numbers_are_written_alike(a.number as nat, b.number as nat);
    }
}

/// An epic and a node are containers of the same name; an epic lists its labels, its
/// comments and its assets, and a node its dependencies too, before its assets. The
/// command line calls the one an epic and the other a ticket.
pub proof fn a_container_lists_its_collections_in_one_order(id: Text, node: NodeRef<Text>)
    ensures
        Container::Epic(id).spec_selection() == Selection::Epic(id),
        Container::Node(node).spec_selection() == Selection::Node(node),
        Container::Epic(id).spec_collections() == seq![
            Collection::Labels,
            Collection::Comments,
            Collection::Assets,
        ],
        Container::Node(node).spec_collections() == seq![
            Collection::Labels,
            Collection::Comments,
            Collection::BlockedBy,
            Collection::Assets,
        ],
        Container::Epic(id).spec_cli_noun() == "epic"@,
        Container::Node(node).spec_cli_noun() == "ticket"@,
        Collection::Labels.name_text() == "labels"@,
        Collection::Comments.name_text() == "comments"@,
        Collection::BlockedBy.name_text() == "blocked-by"@,
        Collection::Assets.name_text() == "assets"@,
{
}

/// A level opens under an epic, a node and a collection and under nothing else; and a
/// collection, a label and an unremovable blocker show their container's document,
/// where everything else shows its own.
pub proof fn what_opens_a_level_and_what_shows_a_document(
    id: Text,
    node: NodeRef<Text>,
    container: Container<Text>,
    kind: Collection,
    word: Text,
    number: u64,
)
    ensures
        Selection::Epic(id).spec_level() == Some(Level::Epic(id)),
        Selection::Node(node).spec_level() == Some(Level::Node(node)),
        Selection::Collection(container, kind).spec_level() == Some(
            Level::Collection(container, kind),
        ),
        Selection::Label(container, word).spec_level() is None,
        Selection::<Text>::Comment(container, number).spec_level() is None,
        Selection::Asset(container, word).spec_level() is None,
        Selection::Blocker(container, node).spec_level() is None,
        Selection::UnremovableBlocker(container, word).spec_level() is None,
        Level::<Text>::Epics.spec_selection() is None,
        Level::Epic(id).spec_selection() == Some(Selection::Epic(id)),
        Level::Node(node).spec_selection() == Some(Selection::Node(node)),
        Level::Collection(container, kind).spec_selection() == Some(
            Selection::Collection(container, kind),
        ),
        Selection::Collection(container, kind).spec_document() == container.spec_selection(),
        Selection::Label(container, word).spec_document() == container.spec_selection(),
        Selection::UnremovableBlocker(container, word).spec_document()
            == container.spec_selection(),
        Selection::Epic(id).spec_document() == Selection::Epic(id),
        Selection::Node(node).spec_document() == Selection::Node(node),
        Selection::<Text>::Comment(container, number).spec_document() == Selection::<Text>::Comment(
            container,
            number,
        ),
        Selection::Asset(container, word).spec_document() == Selection::Asset(container, word),
        Selection::Blocker(container, node).spec_document() == Selection::Blocker(container, node),
{
}

/// An address is known by its parts.
pub proof fn an_address_is_known_by_its_parts(
    node_ref: &NodeRef,
    container: &Container,
    selection: &Selection,
    level: &Level,
)
    ensures
        node_ref@ == ({
            NodeRef { epic_id: node_ref.epic_id@, number: node_ref.number }
        }),
        container@ == ({
            match container {
                Container::Epic(id) => Container::Epic(id@),
                Container::Node(r) => Container::Node(r@),
            }
        }),
        selection@ == ({
            match selection {
                Selection::Epic(id) => Selection::Epic(id@),
                Selection::Node(r) => Selection::Node(r@),
                Selection::Collection(c, kind) => Selection::Collection(c@, *kind),
                Selection::Label(c, label) => Selection::Label(c@, label@),
                Selection::Comment(c, id) => Selection::Comment(c@, *id),
                Selection::Asset(c, name) => Selection::Asset(c@, name@),
                Selection::Blocker(c, r) => Selection::Blocker(c@, r@),
                Selection::UnremovableBlocker(c, entry) => Selection::UnremovableBlocker(c@, entry@),
            }
        }),
        level@ == ({
            match level {
                Level::Epics => Level::Epics,
                Level::Epic(id) => Level::Epic(id@),
                Level::Node(r) => Level::Node(r@),
                Level::Collection(c, kind) => Level::Collection(c@, *kind),
            }
        }),
{
}

} // verus!
