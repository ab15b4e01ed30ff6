//! The writes a store is asked for: what each is aimed at, the operation it comes
//! to, and what the store's answer means to the browser.
use crate::data::entity::text_in;
use crate::data::{
    Collection, Container, Edits, NodeRef, NodeState, Replaceable, Selection, Stamp,
    State,
};
use crate::moment::Moment;
use crate::text::{
    decimal, joined, joined3, number_in, parse_number, same_text, trim, trimmed, Text,
};
use vstd::prelude::*;

verus! {

/// A result by what its value and its failure are views of.
pub open spec fn viewed<T: View, E: View>(result: Result<T, E>) -> Result<T::V, E::V> {
    match result {
        Ok(value) => Ok(value@),
        Err(failure) => Err(failure@),
    }
}

/// What a store makes of a typed reference: the node it names, or the store's own
/// words for a reference that is no reference at all.
pub type Reading = Result<NodeRef, String>;

/// A change to the store, naming what is written and what it is written to.
///
/// A write names its target by the row's own [`Selection`], not by a pre-checked
/// pair of parts: [`perform`] is the one place that judges whether the target is
/// the kind of thing the write applies to, and refuses by name when it is not.
#[derive(Debug, PartialEq, Eq)]
#[verifier::ext_equal]
pub enum Write<S = String> {
    /// Create an epic, with the id the reader typed and the name and summary they
    /// filled in. The id travels as the selection that will address the epic.
    CreateEpic {
        /// The epic to bring into being, addressed by the id it will have.
        epic: Selection<S>,
        /// What it is called.
        name: S,
        /// Its one-line summary, which may be empty.
        summary: S,
    },
    /// Create a unit of work in the container the row names: a top-level ticket of
    /// an epic, or a subticket of a ticket.
    CreateNode {
        /// The container it is created in: an epic, or the ticket it hangs under.
        parent: Selection<S>,
        /// What it is called.
        name: S,
        /// Its one-line summary, which may be empty.
        summary: S,
    },
    /// Put one label on the container whose label set the row names, with the
    /// text the reader typed.
    AddLabel(Selection<S>, S),
    /// Take one label off the container it sits on.
    RemoveLabel(Selection<S>),
    /// Put one blocker on the dependency list the row names, from the reference
    /// the reader typed.
    AddBlocker(Selection<S>, S),
    /// Take one entry off the dependency list it sits on.
    RemoveBlocker(Selection<S>),
    /// Take one asset off the container it hangs on, index entry and bytes alike.
    DeleteAsset(Selection<S>),
    /// Put one comment on the container whose comment list the row names, with the
    /// text the reader wrote. Authored by the human, always.
    AddComment(Selection<S>, S),
    /// Withdraw one comment of the container it sits on. The text goes and the
    /// comment does not: its number stays taken and is never reused.
    DeleteComment(Selection<S>),
    /// Take the claim on the node the row names, for the holder the reader typed.
    TakeClaim(Selection<S>, S),
    /// Give up the claim on the node the row names, holder and timestamp
    /// together.
    ReleaseClaim(Selection<S>),
    /// Put the epic or node the row names into a state.
    SetState {
        /// The epic or node whose state is set.
        target: Selection<S>,
        /// The state to put it in, which is the one the picker holds.
        state: State,
        /// Why, for a state that says why; a state that carries none discards it.
        reason: S,
        /// Whether closing takes the row's open descendants with it.
        cascade: bool,
    },
    /// Replace one whole field the row names: the one write here that can silently
    /// discard text somebody else wrote, which is what the stamp is for.
    Replace {
        /// The epic, node or comment whose field is replaced.
        target: Selection<S>,
        /// Which whole field of it.
        field: Replaceable,
        /// The replacement, exactly as the reader left it.
        value: S,
        /// The stamp the replaced text was read at, applied only while the entity
        /// still carries it. `None` names no precondition: last write wins.
        expect: Option<Stamp>,
    },
}

impl View for Write {
    type V = Write<Text>;

    open spec fn view(&self) -> Write<Text> {
        match self {
            Write::CreateEpic { epic, name, summary } => Write::CreateEpic {
                epic: epic@,
                name: name@,
                summary: summary@,
            },
            Write::CreateNode { parent, name, summary } => Write::CreateNode {
                parent: parent@,
                name: name@,
                summary: summary@,
            },
            Write::AddLabel(target, label) => Write::AddLabel(target@, label@),
            Write::RemoveLabel(target) => Write::RemoveLabel(target@),
            Write::AddBlocker(target, reference) => Write::AddBlocker(target@, reference@),
            Write::RemoveBlocker(target) => Write::RemoveBlocker(target@),
            Write::DeleteAsset(target) => Write::DeleteAsset(target@),
            Write::AddComment(target, text) => Write::AddComment(target@, text@),
            Write::DeleteComment(target) => Write::DeleteComment(target@),
            Write::TakeClaim(target, holder) => Write::TakeClaim(target@, holder@),
            Write::ReleaseClaim(target) => Write::ReleaseClaim(target@),
            Write::SetState { target, state, reason, cascade } => Write::SetState {
                target: target@,
                state: *state,
                reason: reason@,
                cascade: *cascade,
            },
            Write::Replace { target, field, value, expect } => Write::Replace {
                target: target@,
                field: *field,
                value: value@,
                expect: *expect,
            },
        }
    }
}

impl Write<Text> {
    /// What the write is aimed at.
    pub open spec fn spec_target(self) -> Selection<Text> {
        match self {
            Write::CreateEpic { epic, .. } => epic,
            Write::CreateNode { parent, .. } => parent,
            Write::AddLabel(target, _) => target,
            Write::RemoveLabel(target) => target,
            Write::AddBlocker(target, _) => target,
            Write::RemoveBlocker(target) => target,
            Write::DeleteAsset(target) => target,
            Write::AddComment(target, _) => target,
            Write::DeleteComment(target) => target,
            Write::TakeClaim(target, _) => target,
            Write::ReleaseClaim(target) => target,
            Write::SetState { target, .. } => target,
            Write::Replace { target, .. } => target,
        }
    }

    /// The stamp the write names as its precondition.
    pub open spec fn precondition(self) -> Option<Stamp> {
        match self {
            Write::Replace { expect, .. } => expect,
            _ => None,
        }
    }

    /// The same write with its precondition dropped.
    pub open spec fn spec_overwriting(self) -> Write<Text> {
        match self {
            Write::Replace { target, field, value, .. } => Write::Replace {
                target,
                field,
                value,
                expect: None,
            },
            _ => self,
        }
    }
}

impl Clone for Write {
    fn clone(&self) -> (r: Self)
        ensures
            r == *self,
    {
        match self {
            Write::CreateEpic { epic, name, summary } => Write::CreateEpic {
                epic: epic.clone(),
                name: name.clone(),
                summary: summary.clone(),
            },
            Write::CreateNode { parent, name, summary } => Write::CreateNode {
                parent: parent.clone(),
                name: name.clone(),
                summary: summary.clone(),
            },
            Write::AddLabel(target, label) => Write::AddLabel(target.clone(), label.clone()),
            Write::RemoveLabel(target) => Write::RemoveLabel(target.clone()),
            Write::AddBlocker(target, reference) => {
                Write::AddBlocker(target.clone(), reference.clone())
            },
            Write::RemoveBlocker(target) => Write::RemoveBlocker(target.clone()),
            Write::DeleteAsset(target) => Write::DeleteAsset(target.clone()),
            Write::AddComment(target, text) => Write::AddComment(target.clone(), text.clone()),
            Write::DeleteComment(target) => Write::DeleteComment(target.clone()),
            Write::TakeClaim(target, holder) => Write::TakeClaim(target.clone(), holder.clone()),
            Write::ReleaseClaim(target) => Write::ReleaseClaim(target.clone()),
            Write::SetState { target, state, reason, cascade } => Write::SetState {
                target: target.clone(),
                state: *state,
                reason: reason.clone(),
                cascade: *cascade,
            },
            Write::Replace { target, field, value, expect } => Write::Replace {
                target: target.clone(),
                field: *field,
                value: value.clone(),
                expect: *expect,
            },
        }
    }
}

impl Write {
    /// What the write is aimed at, which is how the reader addresses what it
    /// changes: a question raised about a write names this rather than re-deriving
    /// a reference of its own.
    pub fn target(&self) -> (r: &Selection)
        ensures
            r@ == self@.spec_target(),
    {
        match self {
            Write::CreateEpic { epic, .. } => epic,
            Write::CreateNode { parent, .. } => parent,
            Write::AddLabel(target, _) => target,
            Write::RemoveLabel(target) => target,
            Write::AddBlocker(target, _) => target,
            Write::RemoveBlocker(target) => target,
            Write::DeleteAsset(target) => target,
            Write::AddComment(target, _) => target,
            Write::DeleteComment(target) => target,
            Write::TakeClaim(target, _) => target,
            Write::ReleaseClaim(target) => target,
            Write::SetState { target, .. } => target,
            Write::Replace { target, .. } => target,
        }
    }

    /// The same write with its precondition dropped, which is what overwriting a
    /// conflict performs: the reader has seen that the entity moved on and said to
    /// write anyway, so naming a stamp again would refuse for the same reason.
    ///
    /// A write that names no stamp cannot conflict, so for every other write this
    /// is the write itself.
    pub fn overwriting(&self) -> (r: Write)
        ensures
            r@ == self@.spec_overwriting(),
    {
        match self {
            Write::Replace { target, field, value, .. } => Write::Replace {
                target: target.clone(),
                field: *field,
                value: value.clone(),
                expect: None,
            },
            _ => self.clone(),
        }
    }
}

/// Overwriting drops the precondition and nothing else: the target, the field and
/// the text stay, a write that named no stamp is left as it was, and overwriting
/// twice is overwriting once.
pub proof fn overwriting_drops_only_the_stamp(write: Write<Text>)
    ensures
        write.spec_overwriting().precondition() is None,
        write.spec_overwriting().spec_target() == write.spec_target(),
        write matches Write::Replace { target, field, value, .. } ==> write.spec_overwriting() == (
        Write::Replace { target, field, value, expect: None }),
        write.precondition() is None ==> write.spec_overwriting() == write,
        write.spec_overwriting().spec_overwriting() == write.spec_overwriting(),
{
}

/// What a write did that the browser could not have said in advance.
///
/// Invariant: a notice about a write is finished *after* the write rather than
/// worded with the question that raised it, because some of what it says is
/// something only the write knows.
#[derive(Debug, PartialEq, Eq)]
#[verifier::ext_equal]
pub enum Effect<S = String> {
    /// Exactly what was asked for and nothing besides.
    AsAsked,
    /// The reference the store recorded a newly created unit of work under.
    Created(S),
    /// A dependency list already held the blocker the reader asked to add.
    AlreadyListed(S),
    /// A close that resolved this many of the row's open descendants with it.
    ///
    /// Never none: a cascade that finds nothing left to close is an ordinary
    /// single close and is reported as one rather than as a cascade of nothing.
    AlsoClosed(usize),
    /// The number the store gave a comment as it was added.
    Commented(u64),
}

impl View for Effect {
    type V = Effect<Text>;

    open spec fn view(&self) -> Effect<Text> {
        match self {
            Effect::AsAsked => Effect::AsAsked,
            Effect::Created(reference) => Effect::Created(reference@),
            Effect::AlreadyListed(reference) => Effect::AlreadyListed(reference@),
            Effect::AlsoClosed(count) => Effect::AlsoClosed(*count),
            Effect::Commented(id) => Effect::Commented(*id),
        }
    }
}

impl Clone for Effect {
    fn clone(&self) -> (r: Self)
        ensures
            r == *self,
    {
        match self {
            Effect::AsAsked => Effect::AsAsked,
            Effect::Created(reference) => Effect::Created(reference.clone()),
            Effect::AlreadyListed(reference) => Effect::AlreadyListed(reference.clone()),
            Effect::AlsoClosed(count) => Effect::AlsoClosed(*count),
            Effect::Commented(id) => Effect::Commented(*id),
        }
    }
}

impl Effect<Text> {
    /// What a close did, given how many descendants went with it.
    pub open spec fn of_closing(closed: usize) -> Effect<Text> {
        if closed == 0 {
            Effect::AsAsked
        } else {
            Effect::AlsoClosed(closed)
        }
    }
}

impl Effect {
    /// What a close did, given how many descendants went with it.
    pub fn of_cascade(closed: usize) -> (r: Self)
        ensures
            r@ == Effect::<Text>::of_closing(closed),
    {
        if closed == 0 {
            Effect::AsAsked
        } else {
            Effect::AlsoClosed(closed)
        }
    }
}

/// Why the store would not take a write.
///
/// Invariant: the one refusal the browser reacts to differently is told apart
/// here and nowhere else, and every other refusal travels in the store's own
/// words, verbatim.
#[derive(Debug, PartialEq, Eq)]
#[verifier::ext_equal]
pub enum Refusal<S = String> {
    /// The entity moved on since the stamp the write named, so nothing was
    /// written. The reader is asked about this one rather than told.
    Conflict,
    /// Every other refusal that leaves the store as it was, in the store's own
    /// words.
    Rule(S),
    /// A cascade closed one or more descendants before it stopped. Its message is
    /// still the store's own, but the browser must reload before showing it.
    Partial(S),
}

impl View for Refusal {
    type V = Refusal<Text>;

    open spec fn view(&self) -> Refusal<Text> {
        match self {
            Refusal::Conflict => Refusal::Conflict,
            Refusal::Rule(words) => Refusal::Rule(words@),
            Refusal::Partial(words) => Refusal::Partial(words@),
        }
    }
}

impl Clone for Refusal {
    fn clone(&self) -> (r: Self)
        ensures
            r == *self,
    {
        match self {
            Refusal::Conflict => Refusal::Conflict,
            Refusal::Rule(words) => Refusal::Rule(words.clone()),
            Refusal::Partial(words) => Refusal::Partial(words.clone()),
        }
    }
}

impl Refusal {
    /// Whether the store changed before refusing the write.
    pub fn changed(&self) -> (r: bool)
        ensures
            r == (self@ is Partial),
    {
        matches!(self, Refusal::Partial(..))
    }
}

/// How a store failed to carry an operation out, to the precision the browser
/// reacts to: by what kind of failure it is, never by reading its message.
#[derive(Debug, PartialEq, Eq)]
pub enum StoreFailure {
    /// The entity no longer carries the stamp the operation named.
    Conflict,
    /// A cascade stopped part of the way.
    CascadePartial {
        /// Whether an earlier descendant's write had committed.
        committed: bool,
        /// The store's own words.
        message: String,
    },
    /// Anything else, in the store's own words.
    Other {
        /// The store's own words.
        message: String,
    },
}

/// The refusal a store's failure is reported as.
pub open spec fn refusal_for(failure: StoreFailure) -> Refusal<Text> {
    match failure {
        StoreFailure::Conflict => Refusal::Conflict,
        StoreFailure::CascadePartial { committed, message } => if committed {
            Refusal::Partial(message@)
        } else {
            Refusal::Rule(message@)
        },
        StoreFailure::Other { message } => Refusal::Rule(message@),
    }
}

/// The refusal an operation's failure is reported as: a stale precondition, a
/// cascade that had already changed something, or the store's own words for
/// everything else.
pub fn refusal(failure: StoreFailure) -> (r: Refusal)
    ensures
        r@ == refusal_for(failure),
{
    match failure {
        StoreFailure::Conflict => Refusal::Conflict,
        StoreFailure::CascadePartial { committed, message } => if committed {
            Refusal::Partial(message)
        } else {
            Refusal::Rule(message)
        },
        StoreFailure::Other { message } => Refusal::Rule(message),
    }
}

/// A refusal the browser itself makes: a write aimed at a row that cannot take
/// it, which is a caller that has lost track of what its row points at rather
/// than anything the store was asked.
pub fn misdirected(message: String) -> (r: Refusal)
    ensures
        r@ == Refusal::Rule(message@),
{
    Refusal::Rule(message)
}

/// The change a unit of work's state is put through.
#[derive(Debug, PartialEq, Eq)]
#[verifier::ext_equal]
pub enum NodeStatusChange<S = String> {
    /// Not started.
    ToDo,
    /// Under way.
    InProgress,
    /// Stuck, and why.
    Blocked {
        /// Why.
        reason: Option<S>,
    },
    /// Finished.
    Done,
    /// Abandoned, why, and whether its open descendants go with it.
    Closed {
        /// Why.
        reason: Option<S>,
        /// Whether its open descendants are closed with it.
        cascade: bool,
    },
}

impl View for NodeStatusChange {
    type V = NodeStatusChange<Text>;

    open spec fn view(&self) -> NodeStatusChange<Text> {
        match self {
            NodeStatusChange::ToDo => NodeStatusChange::ToDo,
            NodeStatusChange::InProgress => NodeStatusChange::InProgress,
            NodeStatusChange::Blocked { reason } => NodeStatusChange::Blocked {
                reason: text_in(*reason),
            },
            NodeStatusChange::Done => NodeStatusChange::Done,
            NodeStatusChange::Closed { reason, cascade } => NodeStatusChange::Closed {
                reason: text_in(*reason),
                cascade: *cascade,
            },
        }
    }
}

/// One operation a store carries out. Whatever it writes, it writes as the human.
#[derive(Debug, PartialEq, Eq)]
#[verifier::ext_equal]
pub enum Operation<S = String> {
    /// Create an epic with no labels and an empty body.
    CreateEpic {
        /// The id it is created under.
        epic_id: S,
        /// What it is called.
        name: S,
        /// Its one-line summary.
        summary: S,
    },
    /// Create a unit of work with no labels and an empty body.
    CreateNode {
        /// The epic it belongs to.
        epic_id: S,
        /// The ticket it hangs under, if it is a subticket.
        parent: Option<NodeRef<S>>,
        /// What it is called.
        name: S,
        /// Its one-line summary.
        summary: S,
    },
    /// Add one label to a container.
    AddLabel(Container<S>, S),
    /// Remove one label from a container.
    RemoveLabel(Container<S>, S),
    /// Read a node's dependency list, then add one blocker to it.
    AddBlocker {
        /// The node that is blocked.
        node: NodeRef<S>,
        /// The node blocking it.
        blocker: NodeRef<S>,
    },
    /// Remove one blocker from a node's dependency list.
    RemoveBlocker {
        /// The node that is blocked.
        node: NodeRef<S>,
        /// The node blocking it.
        blocker: NodeRef<S>,
    },
    /// Delete one asset of a container, index entry and bytes alike.
    DeleteAsset(Container<S>, S),
    /// Add one comment to a container.
    AddComment(Container<S>, S),
    /// Withdraw one comment of a container.
    DeleteComment(Container<S>, u64),
    /// Replace the text of one comment of a container.
    EditComment {
        /// The container the comment sits on.
        container: Container<S>,
        /// The comment's number.
        id: u64,
        /// The text it is given.
        text: S,
        /// When the container must last have been written, if that matters.
        expect: Option<Moment>,
    },
    /// Take a node's claim for a holder.
    TakeClaim(NodeRef<S>, S),
    /// Release a node's claim.
    ReleaseClaim(NodeRef<S>),
    /// Put a node through a change of state.
    SetNodeStatus(NodeRef<S>, NodeStatusChange<S>),
    /// Set or clear an epic's closed flag.
    SetEpicClosed {
        /// The epic.
        epic_id: S,
        /// What the flag is set to.
        closed: bool,
        /// Why, for a close.
        reason: Option<S>,
    },
    /// Replace fields of an epic.
    EditEpic {
        /// The epic.
        epic_id: S,
        /// The fields that are replaced.
        edits: Edits<S>,
        /// When the epic must last have been written, if that matters.
        expect: Option<Moment>,
    },
    /// Replace fields of a node.
    EditNode {
        /// The node.
        node: NodeRef<S>,
        /// The fields that are replaced.
        edits: Edits<S>,
        /// When the node must last have been written, if that matters.
        expect: Option<Moment>,
    },
}

/// What is known of a reference that may be absent.
pub open spec fn node_in(held: Option<NodeRef>) -> Option<NodeRef<Text>> {
    match held {
        Some(node) => Some(node@),
        None => None,
    }
}

impl View for Operation {
    type V = Operation<Text>;

    open spec fn view(&self) -> Operation<Text> {
        match self {
            Operation::CreateEpic { epic_id, name, summary } => Operation::CreateEpic {
                epic_id: epic_id@,
                name: name@,
                summary: summary@,
            },
            Operation::CreateNode { epic_id, parent, name, summary } => Operation::CreateNode {
                epic_id: epic_id@,
                parent: node_in(*parent),
                name: name@,
                summary: summary@,
            },
            Operation::AddLabel(container, label) => Operation::AddLabel(container@, label@),
            Operation::RemoveLabel(container, label) => Operation::RemoveLabel(container@, label@),
            Operation::AddBlocker { node, blocker } => Operation::AddBlocker {
                node: node@,
                blocker: blocker@,
            },
            Operation::RemoveBlocker { node, blocker } => Operation::RemoveBlocker {
                node: node@,
                blocker: blocker@,
            },
            Operation::DeleteAsset(container, name) => Operation::DeleteAsset(container@, name@),
            Operation::AddComment(container, text) => Operation::AddComment(container@, text@),
            Operation::DeleteComment(container, id) => Operation::DeleteComment(container@, *id),
            Operation::EditComment { container, id, text, expect } => Operation::EditComment {
                container: container@,
                id: *id,
                text: text@,
                expect: *expect,
            },
            Operation::TakeClaim(node, holder) => Operation::TakeClaim(node@, holder@),
            Operation::ReleaseClaim(node) => Operation::ReleaseClaim(node@),
            Operation::SetNodeStatus(node, change) => Operation::SetNodeStatus(node@, change@),
            Operation::SetEpicClosed { epic_id, closed, reason } => Operation::SetEpicClosed {
                epic_id: epic_id@,
                closed: *closed,
                reason: text_in(*reason),
            },
            Operation::EditEpic { epic_id, edits, expect } => Operation::EditEpic {
                epic_id: epic_id@,
                edits: edits@,
                expect: *expect,
            },
            Operation::EditNode { node, edits, expect } => Operation::EditNode {
                node: node@,
                edits: edits@,
                expect: *expect,
            },
        }
    }
}

impl Operation<Text> {
    /// The epic or node the operation touches.
    pub open spec fn subject(self) -> Container<Text> {
        match self {
            Operation::CreateEpic { epic_id, .. } => Container::Epic(epic_id),
            Operation::CreateNode { epic_id, parent, .. } => match parent {
                Some(node) => Container::Node(node),
                None => Container::Epic(epic_id),
            },
            Operation::AddLabel(container, _) => container,
            Operation::RemoveLabel(container, _) => container,
            Operation::AddBlocker { node, .. } => Container::Node(node),
            Operation::RemoveBlocker { node, .. } => Container::Node(node),
            Operation::DeleteAsset(container, _) => container,
            Operation::AddComment(container, _) => container,
            Operation::DeleteComment(container, _) => container,
            Operation::EditComment { container, .. } => container,
            Operation::TakeClaim(node, _) => Container::Node(node),
            Operation::ReleaseClaim(node) => Container::Node(node),
            Operation::SetNodeStatus(node, _) => Container::Node(node),
            Operation::SetEpicClosed { epic_id, .. } => Container::Epic(epic_id),
            Operation::EditEpic { epic_id, .. } => Container::Epic(epic_id),
            Operation::EditNode { node, .. } => Container::Node(node),
        }
    }

    /// The instant the operation names as its precondition.
    pub open spec fn precondition(self) -> Option<Moment> {
        match self {
            Operation::EditComment { expect, .. } => expect,
            Operation::EditEpic { expect, .. } => expect,
            Operation::EditNode { expect, .. } => expect,
            _ => None,
        }
    }
}

/// The node a typed blocker reference names: a bare number is a node of the
/// blocked node's own epic, and anything else is what the store makes of it.
pub open spec fn blocker_named(
    epic_id: Text,
    reference: Text,
    reading: Result<NodeRef<Text>, Text>,
) -> Result<NodeRef<Text>, Text> {
    match number_in(trimmed(reference)) {
        Some(number) => Ok(NodeRef { epic_id, number }),
        None => reading,
    }
}

/// The node whose dependency list is written, and the node a typed reference
/// names.
pub open spec fn blocked_and_blocker(
    selection: Selection<Text>,
    reference: Text,
    reading: Result<NodeRef<Text>, Text>,
) -> Result<(NodeRef<Text>, NodeRef<Text>), Text> {
    match selection {
        Selection::Collection(Container::Node(node), Collection::BlockedBy) => match blocker_named(
            node.epic_id,
            reference,
            reading,
        ) {
            Ok(blocker) => Ok((node, blocker)),
            Err(words) => Err(words),
        },
        _ => Err(selection.spec_reference() + " is not a dependency list"@),
    }
}

/// How a blocker written from a typed reference is named to the reader.
pub open spec fn blocker_called(
    selection: Selection<Text>,
    reference: Text,
    reading: Result<NodeRef<Text>, Text>,
) -> Text {
    match blocked_and_blocker(selection, reference, reading) {
        Ok((_, blocker)) => blocker.spec_shown(),
        Err(_) => trimmed(reference),
    }
}

/// The node a typed blocker reference names: a bare number is a node of the
/// blocked node's own epic, and anything else is a whole `<epic-id>/<number>`,
/// which reaches any epic and is read by the store.
///
/// Both forms are accepted because both are how a reader writes a reference, and
/// surrounding blanks are dropped because a reference is a token rather than
/// text. `reading` is what the store makes of that token, which is asked only
/// where the token is not a number.
pub fn resolve_blocker(epic_id: &str, reference: &str, reading: &Reading) -> (r: Reading)
    ensures
        viewed(r) == blocker_named(epic_id@, reference@, viewed(*reading)),
{
    match parse_number(&trim(reference)) {
        Some(number) => Ok(NodeRef::new(epic_id, number)),
        None => match reading {
            Ok(node) => Ok(node.clone()),
            Err(words) => Err(words.clone()),
        },
    }
}

/// The node whose dependency list is being written, and the node a typed
/// reference names.
///
/// An epic is not a unit of work that can be blocked, so any selection that is not
/// a node's dependency list is refused.
pub fn blocked_and_blocking(selection: &Selection, reference: &str, reading: &Reading) -> (r:
    Result<(NodeRef, NodeRef), String>)
    ensures
        viewed(r) == blocked_and_blocker(selection@, reference@, viewed(*reading)),
{
    match selection {
        Selection::Collection(Container::Node(node), Collection::BlockedBy) => {
            match resolve_blocker(&node.epic_id, reference, reading) {
                Ok(blocker) => Ok((node.clone(), blocker)),
                Err(words) => Err(words),
            }
        },
        _ => Err(joined(&selection.reference(), " is not a dependency list")),
    }
}

/// How a blocker written from a typed reference is named to the reader: the
/// canonical reference the store records it under, so a notice about a bare
/// number does not read as a ticket belonging to no epic.
///
/// A reference that names no node is named back as it was typed: that write is
/// refused, so nothing is written and no notice about it is ever read.
pub fn blocker_name(selection: &Selection, reference: &str, reading: &Reading) -> (r: String)
    ensures
        r@ == blocker_called(selection@, reference@, viewed(*reading)),
{
    match blocked_and_blocking(selection, reference, reading) {
        Ok((_, blocker)) => blocker.shown(),
        Err(_) => trim(reference),
    }
}

/// The instant a precondition is checked against.
pub open spec fn instant_in(expect: Option<Stamp>) -> Option<Moment> {
    match expect {
        Some(stamp) => Some(stamp@),
        None => None,
    }
}

/// What replacing a whole field comes to.
pub open spec fn replacing(
    selection: Selection<Text>,
    field: Replaceable,
    value: Text,
    expect: Option<Stamp>,
) -> Result<Operation<Text>, Refusal<Text>> {
    let expect = instant_in(expect);
    match field {
        Replaceable::CommentText => match selection {
            Selection::Comment(container, id) => Ok(
                Operation::EditComment { container, id, text: value, expect },
            ),
            _ => Err(Refusal::Rule(selection.spec_reference() + " is not a comment"@)),
        },
        Replaceable::Field(field) => match selection {
            Selection::Epic(epic_id) => Ok(
                Operation::EditEpic { epic_id, edits: field.edit(value), expect },
            ),
            Selection::Node(node) => Ok(
                Operation::EditNode { node, edits: field.edit(value), expect },
            ),
            _ => Err(
                Refusal::Rule(
                    selection.spec_reference() + " has no "@ + field.called() + " of its own"@,
                ),
            ),
        },
    }
}

/// Replace one whole field with the text the reader left, applying only while the
/// entity that holds it still carries the stamp that text was read at.
///
/// One path for every replaceable field, so a field cannot be given a conflict
/// story of its own. A comment's text is replaced by its own operation, because a
/// comment is not a field of the entity's frontmatter but one entry of a list in
/// it; only an epic and a node have the other fields.
fn replace(selection: &Selection, field: Replaceable, value: &str, expect: Option<Stamp>) -> (r:
    Result<Operation, Refusal>)
    ensures
        viewed(r) == replacing(selection@, field, value@, expect),
{
    let expect: Option<Moment> = match expect {
        Some(stamp) => Some(stamp.instant()),
        None => None,
    };
    match field {
        Replaceable::CommentText => match selection {
            Selection::Comment(container, id) => Ok(
                Operation::EditComment {
                    container: container.clone(),
                    id: *id,
                    text: value.to_owned(),
                    expect,
                },
            ),
            _ => Err(misdirected(joined(&selection.reference(), " is not a comment"))),
        },
        Replaceable::Field(field) => match selection {
            Selection::Epic(id) => Ok(
                Operation::EditEpic { epic_id: id.clone(), edits: field.edits(value), expect },
            ),
            Selection::Node(node) => Ok(
                Operation::EditNode { node: node.clone(), edits: field.edits(value), expect },
            ),
            _ => Err(
                misdirected(
                    joined(
                        &joined3(&selection.reference(), " has no ", field.noun()),
                        " of its own",
                    ),
                ),
            ),
        },
    }
}

/// What putting a row into a state comes to.
pub open spec fn setting_state(
    selection: Selection<Text>,
    state: State,
    reason: Text,
    cascade: bool,
) -> Result<Operation<Text>, Refusal<Text>> {
    let reason = if state.says_why() {
        Some(reason)
    } else {
        None
    };
    match (selection, state) {
        (Selection::Node(node), State::Work(work)) => Ok(
            Operation::SetNodeStatus(
                node,
                match work {
                    NodeState::ToDo => NodeStatusChange::ToDo,
                    NodeState::InProgress => NodeStatusChange::InProgress,
                    NodeState::Blocked => NodeStatusChange::Blocked { reason },
                    NodeState::Done => NodeStatusChange::Done,
                    NodeState::Closed => NodeStatusChange::Closed { reason, cascade },
                },
            ),
        ),
        (Selection::Epic(epic_id), State::EpicOpen) => Ok(
            Operation::SetEpicClosed { epic_id, closed: false, reason },
        ),
        (Selection::Epic(epic_id), State::EpicClosed) => Ok(
            Operation::SetEpicClosed { epic_id, closed: true, reason },
        ),
        _ => Err(Refusal::Rule(selection.spec_reference() + " cannot be "@ + state.word())),
    }
}

/// Put an epic or a node into a state, with the reason that state carries and
/// whether closing takes the row's open descendants with it.
///
/// Every rule about a state is the store's, so nothing is checked here but that
/// the row has such a state: an epic's flag is not a state of the work, a unit of
/// work's state is not an epic's, and no other row has one at all.
fn set_state(selection: &Selection, state: State, reason: &str, cascade: bool) -> (r: Result<
    Operation,
    Refusal,
>)
    ensures
        viewed(r) == setting_state(selection@, state, reason@, cascade),
{
    // A state that carries no reason takes none: the reason field is not on screen
    // for those states, so anything left in it is text the reader is not looking at.
    let reason: Option<String> = if state.needs_reason() {
        Some(reason.to_owned())
    } else {
        None
    };
    match (selection, state) {
        (Selection::Node(node), State::Work(work)) => {
            let change = match work {
                NodeState::ToDo => NodeStatusChange::ToDo,
                NodeState::InProgress => NodeStatusChange::InProgress,
                NodeState::Blocked => NodeStatusChange::Blocked { reason },
                NodeState::Done => NodeStatusChange::Done,
                NodeState::Closed => NodeStatusChange::Closed { reason, cascade },
            };
            Ok(Operation::SetNodeStatus(node.clone(), change))
        },
        (Selection::Epic(id), State::EpicOpen) => Ok(
            Operation::SetEpicClosed { epic_id: id.clone(), closed: false, reason },
        ),
        (Selection::Epic(id), State::EpicClosed) => Ok(
            Operation::SetEpicClosed { epic_id: id.clone(), closed: true, reason },
        ),
        _ => Err(wrong_state(selection, state)),
    }
}

/// A state aimed at a row that has no such state; see [`misdirected`].
fn wrong_state(selection: &Selection, state: State) -> (r: Refusal)
    ensures
        r@ == Refusal::Rule(selection@.spec_reference() + " cannot be "@ + state.word()),
{
    misdirected(joined3(&selection.reference(), " cannot be ", state.wire_name()))
}

/// What creating a unit of work comes to.
pub open spec fn creating_node(parent: Selection<Text>, name: Text, summary: Text) -> Result<
    Operation<Text>,
    Refusal<Text>,
> {
    match parent {
        Selection::Epic(epic_id) => Ok(
            Operation::CreateNode { epic_id, parent: None, name, summary },
        ),
        Selection::Node(node) => Ok(
            Operation::CreateNode { epic_id: node.epic_id, parent: Some(node), name, summary },
        ),
        _ => Err(Refusal::Rule(parent.spec_reference() + " holds no tickets"@)),
    }
}

/// Create a unit of work in the container the row names: a top-level ticket of an
/// epic, or a subticket of the ticket the row stands on. Any other kind of row
/// holds no units of work.
fn create_node(parent: &Selection, name: &str, summary: &str) -> (r: Result<Operation, Refusal>)
    ensures
        viewed(r) == creating_node(parent@, name@, summary@),
{
    match parent {
        Selection::Epic(id) => Ok(
            Operation::CreateNode {
                epic_id: id.clone(),
                parent: None,
                name: name.to_owned(),
                summary: summary.to_owned(),
            },
        ),
        Selection::Node(node) => Ok(
            Operation::CreateNode {
                epic_id: node.epic_id.clone(),
                parent: Some(node.clone()),
                name: name.to_owned(),
                summary: summary.to_owned(),
            },
        ),
        _ => Err(misdirected(joined(&parent.reference(), " holds no tickets"))),
    }
}

/// What a write comes to: the one operation a store carries out for it, or the
/// refusal a write aimed at the wrong kind of row is answered with.
pub open spec fn planned(write: Write<Text>, reading: Result<NodeRef<Text>, Text>) -> Result<
    Operation<Text>,
    Refusal<Text>,
> {
    match write {
        Write::CreateEpic { epic, name, summary } => match epic {
            Selection::Epic(epic_id) => Ok(Operation::CreateEpic { epic_id, name, summary }),
            _ => Err(Refusal::Rule(epic.spec_reference() + " is not an epic id"@)),
        },
        Write::CreateNode { parent, name, summary } => creating_node(parent, name, summary),
        Write::AddLabel(selection, label) => match selection {
            Selection::Collection(container, Collection::Labels) => Ok(
                Operation::AddLabel(container, label),
            ),
            _ => Err(Refusal::Rule(selection.spec_reference() + " is not a label set"@)),
        },
        Write::RemoveLabel(selection) => match selection {
            Selection::Label(container, label) => Ok(Operation::RemoveLabel(container, label)),
            _ => Err(Refusal::Rule(selection.spec_reference() + " is not a label"@)),
        },
        Write::AddBlocker(selection, reference) => match blocked_and_blocker(
            selection,
            reference,
            reading,
        ) {
            Ok((node, blocker)) => Ok(Operation::AddBlocker { node, blocker }),
            Err(words) => Err(Refusal::Rule(words)),
        },
        Write::RemoveBlocker(selection) => match selection {
            Selection::Blocker(Container::Node(node), blocker) => Ok(
                Operation::RemoveBlocker { node, blocker },
            ),
            _ => Err(Refusal::Rule(selection.spec_reference() + " is not a node's blocker"@)),
        },
        Write::DeleteAsset(selection) => match selection {
            Selection::Asset(container, name) => Ok(Operation::DeleteAsset(container, name)),
            _ => Err(Refusal::Rule(selection.spec_reference() + " is not an asset"@)),
        },
        Write::AddComment(selection, text) => match selection {
            Selection::Collection(container, Collection::Comments) => Ok(
                Operation::AddComment(container, text),
            ),
            _ => Err(Refusal::Rule(selection.spec_reference() + " is not a comment list"@)),
        },
        Write::DeleteComment(selection) => match selection {
            Selection::Comment(container, id) => Ok(Operation::DeleteComment(container, id)),
            _ => Err(Refusal::Rule(selection.spec_reference() + " is not a comment"@)),
        },
        Write::TakeClaim(selection, holder) => match selection {
            Selection::Node(node) => Ok(Operation::TakeClaim(node, holder)),
            _ => Err(Refusal::Rule(selection.spec_reference() + " cannot be claimed"@)),
        },
        Write::ReleaseClaim(selection) => match selection {
            Selection::Node(node) => Ok(Operation::ReleaseClaim(node)),
            _ => Err(Refusal::Rule(selection.spec_reference() + " has no claim of its own"@)),
        },
        Write::SetState { target, state, reason, cascade } => setting_state(
            target,
            state,
            reason,
            cascade,
        ),
        Write::Replace { target, field, value, expect } => replacing(target, field, value, expect),
    }
}

/// The operation a write comes to, or the refusal where it is aimed at a row that
/// cannot take it.
///
/// The browser never judges a write itself beyond that: only the store can, so
/// nothing here pre-checks a store rule. `reading` is what the store makes of the
/// reference a blocker was typed as, and is looked at by no other write.
pub fn perform(write: &Write, reading: &Reading) -> (r: Result<Operation, Refusal>)
    ensures
        viewed(r) == planned(write@, viewed(*reading)),
{
    match write {
        Write::CreateEpic { epic, name, summary } => match epic {
            Selection::Epic(id) => Ok(
                Operation::CreateEpic {
                    epic_id: id.clone(),
                    name: name.clone(),
                    summary: summary.clone(),
                },
            ),
            _ => Err(misdirected(joined(&epic.reference(), " is not an epic id"))),
        },
        Write::CreateNode { parent, name, summary } => create_node(parent, name, summary),
        Write::AddLabel(selection, label) => match selection {
            Selection::Collection(container, Collection::Labels) => Ok(
                Operation::AddLabel(container.clone(), label.clone()),
            ),
            _ => Err(misdirected(joined(&selection.reference(), " is not a label set"))),
        },
        Write::RemoveLabel(selection) => match selection {
            Selection::Label(container, label) => Ok(
                Operation::RemoveLabel(container.clone(), label.clone()),
            ),
            _ => Err(misdirected(joined(&selection.reference(), " is not a label"))),
        },
        Write::AddBlocker(selection, reference) => match blocked_and_blocking(
            selection,
            reference,
            reading,
        ) {
            Ok((node, blocker)) => Ok(Operation::AddBlocker { node, blocker }),
            Err(words) => Err(misdirected(words)),
        },
        Write::RemoveBlocker(selection) => match selection {
            Selection::Blocker(Container::Node(node), blocker) => Ok(
                Operation::RemoveBlocker { node: node.clone(), blocker: blocker.clone() },
            ),
            _ => Err(misdirected(joined(&selection.reference(), " is not a node's blocker"))),
        },
        Write::DeleteAsset(selection) => match selection {
            Selection::Asset(container, name) => Ok(
                Operation::DeleteAsset(container.clone(), name.clone()),
            ),
            _ => Err(misdirected(joined(&selection.reference(), " is not an asset"))),
        },
        Write::AddComment(selection, text) => match selection {
            Selection::Collection(container, Collection::Comments) => Ok(
                Operation::AddComment(container.clone(), text.clone()),
            ),
            _ => Err(misdirected(joined(&selection.reference(), " is not a comment list"))),
        },
        Write::DeleteComment(selection) => match selection {
            Selection::Comment(container, id) => Ok(
                Operation::DeleteComment(container.clone(), *id),
            ),
            _ => Err(misdirected(joined(&selection.reference(), " is not a comment"))),
        },
        Write::TakeClaim(selection, holder) => match selection {
            Selection::Node(node) => Ok(Operation::TakeClaim(node.clone(), holder.clone())),
            _ => Err(misdirected(joined(&selection.reference(), " cannot be claimed"))),
        },
        Write::ReleaseClaim(selection) => match selection {
            Selection::Node(node) => Ok(Operation::ReleaseClaim(node.clone())),
            _ => Err(misdirected(joined(&selection.reference(), " has no claim of its own"))),
        },
        Write::SetState { target, state, reason, cascade } => set_state(
            target,
            *state,
            reason,
            *cascade,
        ),
        Write::Replace { target, field, value, expect } => replace(target, *field, value, *expect),
    }
}

/// What a store answered an operation it carried out.
#[derive(Debug, PartialEq, Eq)]
pub enum Outcome {
    /// That it is done.
    Done,
    /// The number it gave what it created.
    Numbered(u64),
    /// How many descendants a close took with it.
    Cascaded(usize),
    /// What a dependency list held before a blocker was added to it.
    ListedBefore(Vec<String>),
}

/// Whether a list of references holds one.
pub open spec fn lists(references: Seq<String>, wanted: Text) -> bool {
    exists|i: int| 0 <= i < references.len() && (#[trigger] references[i])@ == wanted
}

/// Whether a list of references holds one.
fn listed(references: &Vec<String>, wanted: &str) -> (r: bool)
    ensures
        r == lists(references@, wanted@),
{
    let mut i: usize = 0;
    while i < references.len()
        invariant
            i <= references.len(),
            forall|j: int| 0 <= j < i ==> (#[trigger] references@[j])@ != wanted@,
        decreases references.len() - i,
    {
        if same_text(&references[i], wanted) {
            return true;
        }
        i += 1;
    }
    false
}

/// What a carried-out operation did that the browser could not have said in
/// advance.
pub open spec fn effect_of(operation: Operation<Text>, outcome: Outcome) -> Effect<Text> {
    match (operation, outcome) {
        (Operation::CreateNode { epic_id, .. }, Outcome::Numbered(number)) => Effect::Created(
            NodeRef { epic_id, number }.spec_shown(),
        ),
        (Operation::AddComment(..), Outcome::Numbered(id)) => Effect::Commented(id),
        (Operation::SetNodeStatus(..), Outcome::Cascaded(closed)) => Effect::<Text>::of_closing(
            closed,
        ),
        (Operation::AddBlocker { blocker, .. }, Outcome::ListedBefore(before)) => if lists(
            before@,
            blocker.spec_shown(),
        ) {
            Effect::AlreadyListed(blocker.spec_shown())
        } else {
            Effect::AsAsked
        },
        _ => Effect::AsAsked,
    }
}

/// What came of an operation.
pub open spec fn concluded(
    operation: Operation<Text>,
    outcome: Result<Outcome, StoreFailure>,
) -> Result<Effect<Text>, Refusal<Text>> {
    match outcome {
        Ok(outcome) => Ok(effect_of(operation, outcome)),
        Err(failure) => Err(refusal_for(failure)),
    }
}

/// What came of an operation the store was asked to carry out: what it did that
/// nobody could have said in advance, or the store's own refusal.
///
/// Most operations report exactly what was asked. A new ticket's number comes out
/// of its epic's pool under the lock, so the reference it makes is answered back
/// rather than predicted; a comment's number likewise; how many descendants a
/// close took is the store's answer and not the plan's; and a blocker that was
/// already listed is reported as that rather than as a change.
pub fn performed(operation: &Operation, outcome: Result<Outcome, StoreFailure>) -> (r: Result<
    Effect,
    Refusal,
>)
    ensures
        viewed(r) == concluded(operation@, outcome),
{
    match outcome {
        Err(failure) => Err(refusal(failure)),
        Ok(outcome) => Ok(
            match (operation, outcome) {
                (Operation::CreateNode { epic_id, .. }, Outcome::Numbered(number)) => {
                    Effect::Created(NodeRef::new(epic_id, number).shown())
                },
                (Operation::AddComment(..), Outcome::Numbered(id)) => Effect::Commented(id),
                (Operation::SetNodeStatus(..), Outcome::Cascaded(closed)) => {
                    Effect::of_cascade(closed)
                },
                (Operation::AddBlocker { blocker, .. }, Outcome::ListedBefore(before)) => {
                    let canonical = blocker.shown();
                    if listed(&before, &canonical) {
                        Effect::AlreadyListed(canonical)
                    } else {
                        Effect::AsAsked
                    }
                },
                _ => Effect::AsAsked,
            },
        ),
    }
}

/// The epic or node a selection belongs to.
pub open spec fn owner(selection: Selection<Text>) -> Container<Text> {
    match selection {
        Selection::Epic(id) => Container::Epic(id),
        Selection::Node(node) => Container::Node(node),
        Selection::Collection(container, _) => container,
        Selection::Label(container, _) => container,
        Selection::Comment(container, _) => container,
        Selection::Asset(container, _) => container,
        Selection::Blocker(container, _) => container,
        Selection::UnremovableBlocker(container, _) => container,
    }
}

/// A write reaches only the epic or node its row belongs to, and names exactly the
/// precondition the write named: an overwritten conflict names none.
pub proof fn a_write_reaches_only_what_its_row_names(
    write: Write<Text>,
    reading: Result<NodeRef<Text>, Text>,
)
    requires
        planned(write, reading) is Ok,
    ensures
        planned(write, reading)->Ok_0.subject() == owner(write.spec_target()),
        planned(write, reading)->Ok_0.precondition() == instant_in(write.precondition()),
{
}

/// A refusal of the browser's own leaves the store as it was, and so does a stale
/// precondition: only a store whose cascade had committed something changed.
pub proof fn only_a_committed_cascade_changes_the_store_and_refuses(
    write: Write<Text>,
    reading: Result<NodeRef<Text>, Text>,
    failure: StoreFailure,
)
    ensures
        planned(write, reading) matches Err(refusal) ==> refusal is Rule,
        refusal_for(failure) is Partial <==> (failure matches StoreFailure::CascadePartial {
            committed,
            ..
        } && committed),
        refusal_for(failure) is Conflict <==> failure is Conflict,
{
}

/// A blocker typed as a bare number, blanks around it or not, is the node of that
/// number in the blocked node's own epic, whatever the store makes of the token.
pub proof fn a_bare_number_names_a_sibling(
    epic_id: Text,
    reference: Text,
    number: u64,
    reading: Result<NodeRef<Text>, Text>,
)
    requires
        trimmed(reference) == decimal(number as nat),
    ensures
        blocker_named(epic_id, reference, reading) == Ok::<NodeRef<Text>, Text>(
            NodeRef { epic_id, number },
        ),
{
    crate::text::written_numbers_read_back(number);
}

/// A reason is sent as it stands with a state that says why, and with no other: a
/// state that carries none clears whatever the row was holding.
pub proof fn a_reason_travels_exactly_where_the_state_says_why(
    target: Selection<Text>,
    state: State,
    reason: Text,
    cascade: bool,
)
    ensures
        setting_state(target, state, reason, cascade) matches Ok(operation) ==> (match operation {
            Operation::SetEpicClosed { reason: sent, .. } => sent == (if state.says_why() {
                Some(reason)
            } else {
                None
            }),
            Operation::SetNodeStatus(_, NodeStatusChange::Blocked { reason: sent }) => sent == Some(
                reason,
            ),
            Operation::SetNodeStatus(_, NodeStatusChange::Closed { reason: sent, .. }) => sent
                == Some(reason),
            Operation::SetNodeStatus(..) => !state.says_why(),
            _ => false,
        }),
{
}

/// An epic's closed flag never touches its nodes: whatever cascade is asked for, the
/// flag is all that is set, and nothing else is reported.
pub proof fn closing_an_epic_never_cascades(
    epic_id: Text,
    state: State,
    reason: Text,
    cascade: bool,
    outcome: Outcome,
)
    ensures
        setting_state(Selection::Epic(epic_id), state, reason, cascade) matches Ok(operation)
            ==> operation is SetEpicClosed && effect_of(operation, outcome) is AsAsked,
        setting_state(Selection::Epic(epic_id), state, reason, true) == setting_state(
            Selection::Epic(epic_id),
            state,
            reason,
            false,
        ),
{
}

/// A cascade of nothing is never reported: a close that took no descendant with it is
/// an ordinary close.
pub proof fn a_cascade_is_never_reported_of_nothing(operation: Operation<Text>, outcome: Outcome)
    ensures
        effect_of(operation, outcome) matches Effect::AlsoClosed(count) ==> count > 0,
{
}

/// A blocker is named to the reader by the reference the store records it under, and
/// only a write the browser refuses leaves it named as it was typed.
pub proof fn a_blocker_is_named_as_the_store_records_it(
    list: Selection<Text>,
    reference: Text,
    reading: Result<NodeRef<Text>, Text>,
)
    ensures
        (match planned(Write::AddBlocker(list, reference), reading) {
            Ok(operation) => operation matches Operation::AddBlocker { blocker, .. }
                && blocker_called(list, reference, reading) == blocker.spec_shown(),
            Err(_) => blocker_called(list, reference, reading) == trimmed(reference),
        }),
{
}

/// A creation is carried out with everything that was typed for it: an epic under its
/// id, a ticket at the top of its epic, a subticket under its ticket and in that
/// ticket's epic. Nothing else holds tickets, and nothing but an epic id names an epic.
pub proof fn a_creation_is_carried_out_as_it_was_typed(
    place: Selection<Text>,
    name: Text,
    summary: Text,
    reading: Result<NodeRef<Text>, Text>,
)
    ensures
        ({
            let epic = planned(Write::CreateEpic { epic: place, name, summary }, reading);
            let node = planned(Write::CreateNode { parent: place, name, summary }, reading);
            &&& place matches Selection::Epic(id) ==> {
                &&& epic == Ok::<Operation<Text>, Refusal<Text>>(
                    Operation::CreateEpic { epic_id: id, name, summary },
                )
                &&& node == Ok::<Operation<Text>, Refusal<Text>>(
                    Operation::CreateNode { epic_id: id, parent: None, name, summary },
                )
            }
            &&& place matches Selection::Node(parent) ==> node == Ok::<
                Operation<Text>,
                Refusal<Text>,
            >(
                Operation::CreateNode {
                    epic_id: parent.epic_id,
                    parent: Some(parent),
                    name,
                    summary,
                },
            )
            &&& !(place is Epic) ==> epic == Err::<Operation<Text>, Refusal<Text>>(
                Refusal::Rule(place.spec_reference() + " is not an epic id"@),
            )
            &&& !(place is Epic) && !(place is Node) ==> node == Err::<
                Operation<Text>,
                Refusal<Text>,
            >(Refusal::Rule(place.spec_reference() + " holds no tickets"@))
        }),
{
}

/// What is added is added to the collection the row is: a label to a label set and a
/// comment to a comment list, as typed, and to nothing else.
pub proof fn an_addition_reaches_the_collection_its_row_is(
    row: Selection<Text>,
    container: Container<Text>,
    kind: Collection,
    text: Text,
    reading: Result<NodeRef<Text>, Text>,
)
    ensures
        ({
            let label = planned(Write::AddLabel(row, text), reading);
            let comment = planned(Write::AddComment(row, text), reading);
            &&& row == Selection::Collection(container, Collection::Labels) ==> label == Ok::<
                Operation<Text>,
                Refusal<Text>,
            >(Operation::AddLabel(container, text))
            &&& row == Selection::Collection(container, Collection::Comments) ==> comment == Ok::<
                Operation<Text>,
                Refusal<Text>,
            >(Operation::AddComment(container, text))
            &&& !(row is Collection) || row == Selection::Collection(container, kind) && kind
                != Collection::Labels ==> label == Err::<Operation<Text>, Refusal<Text>>(
                Refusal::Rule(row.spec_reference() + " is not a label set"@),
            )
            &&& !(row is Collection) || row == Selection::Collection(container, kind) && kind
                != Collection::Comments ==> comment == Err::<Operation<Text>, Refusal<Text>>(
                Refusal::Rule(row.spec_reference() + " is not a comment list"@),
            )
        }),
{
}

/// What is taken away is exactly the member the row is, from the container it sits on:
/// a label, an asset, a comment by its number, and an entry of a node's dependency
/// list; and a row of another kind has nothing of that kind to take.
pub proof fn a_removal_takes_exactly_the_member_its_row_is(
    row: Selection<Text>,
    container: Container<Text>,
    node: NodeRef<Text>,
    blocker: NodeRef<Text>,
    text: Text,
    id: u64,
    reading: Result<NodeRef<Text>, Text>,
)
    ensures
        ({
            let label = planned(Write::RemoveLabel(row), reading);
            let asset = planned(Write::DeleteAsset(row), reading);
            let comment = planned(Write::DeleteComment(row), reading);
            let entry = planned(Write::RemoveBlocker(row), reading);
            let place = row.spec_reference();
            &&& row == Selection::Label(container, text) ==> label == Ok::<
                Operation<Text>,
                Refusal<Text>,
            >(Operation::RemoveLabel(container, text))
            &&& row == Selection::Asset(container, text) ==> asset == Ok::<
                Operation<Text>,
                Refusal<Text>,
            >(Operation::DeleteAsset(container, text))
            &&& row == Selection::<Text>::Comment(container, id) ==> comment == Ok::<
                Operation<Text>,
                Refusal<Text>,
            >(Operation::DeleteComment(container, id))
            &&& row == Selection::Blocker(Container::Node(node), blocker) ==> entry == Ok::<
                Operation<Text>,
                Refusal<Text>,
            >(Operation::RemoveBlocker { node, blocker })
            &&& !(row is Label) ==> label == Err::<Operation<Text>, Refusal<Text>>(
                Refusal::Rule(place + " is not a label"@),
            )
            &&& !(row is Asset) ==> asset == Err::<Operation<Text>, Refusal<Text>>(
                Refusal::Rule(place + " is not an asset"@),
            )
            &&& !(row is Comment) ==> comment == Err::<Operation<Text>, Refusal<Text>>(
                Refusal::Rule(place + " is not a comment"@),
            )
            &&& !(row is Blocker) || row == Selection::Blocker(Container::Epic(text), blocker)
                ==> entry == Err::<Operation<Text>, Refusal<Text>>(
                Refusal::Rule(place + " is not a node's blocker"@),
            )
        }),
{
}

/// A claim is a node's: it is taken for the holder that was typed and given up whole,
/// and no other row has one.
pub proof fn a_claim_is_a_nodes(
    row: Selection<Text>,
    holder: Text,
    reading: Result<NodeRef<Text>, Text>,
)
    ensures
        ({
            let taken = planned(Write::TakeClaim(row, holder), reading);
            let released = planned(Write::ReleaseClaim(row), reading);
            &&& row matches Selection::Node(node) ==> {
                &&& taken == Ok::<Operation<Text>, Refusal<Text>>(
                    Operation::TakeClaim(node, holder),
                )
                &&& released == Ok::<Operation<Text>, Refusal<Text>>(Operation::ReleaseClaim(node))
            }
            &&& !(row is Node) ==> {
                &&& taken == Err::<Operation<Text>, Refusal<Text>>(
                    Refusal::Rule(row.spec_reference() + " cannot be claimed"@),
                )
                &&& released == Err::<Operation<Text>, Refusal<Text>>(
                    Refusal::Rule(row.spec_reference() + " has no claim of its own"@),
                )
            }
        }),
{
}

/// A blocker is added to the node whose dependency list the row is: the node of its
/// number in that node's own epic where a bare number was typed, and otherwise the node
/// the store read, or the store's own words where it read none. Nothing but a node's
/// dependency list takes one.
pub proof fn a_blocker_is_added_to_the_list_its_row_is(
    row: Selection<Text>,
    node: NodeRef<Text>,
    reference: Text,
    reading: Result<NodeRef<Text>, Text>,
)
    ensures
        ({
            let added = planned(Write::AddBlocker(row, reference), reading);
            let list = Selection::Collection(Container::Node(node), Collection::BlockedBy);
            &&& row == list ==> (match number_in(trimmed(reference)) {
                Some(number) => added == Ok::<Operation<Text>, Refusal<Text>>(
                    Operation::AddBlocker {
                        node,
                        blocker: NodeRef { epic_id: node.epic_id, number },
                    },
                ) && blocker_called(row, reference, reading) == (NodeRef {
                    epic_id: node.epic_id,
                    number,
                }).spec_shown(),
                None => match reading {
                    Ok(blocker) => added == Ok::<Operation<Text>, Refusal<Text>>(
                        Operation::AddBlocker { node, blocker },
                    ) && blocker_called(row, reference, reading) == blocker.spec_shown(),
                    Err(words) => added == Err::<Operation<Text>, Refusal<Text>>(
                        Refusal::Rule(words),
                    ) && blocker_called(row, reference, reading) == trimmed(reference),
                },
            })
            &&& !(row matches Selection::Collection(Container::Node(_), Collection::BlockedBy))
                ==> added == Err::<Operation<Text>, Refusal<Text>>(
                Refusal::Rule(row.spec_reference() + " is not a dependency list"@),
            ) && blocker_called(row, reference, reading) == trimmed(reference)
        }),
{
}

/// A reference names the node a bare number counts to in the given epic, and otherwise
/// whatever the store made of it.
pub proof fn a_reference_is_a_number_or_the_stores_to_read(
    epic_id: Text,
    own: u64,
    reference: Text,
    reading: Result<NodeRef<Text>, Text>,
)
    ensures
        (match number_in(trimmed(reference)) {
            Some(number) => blocker_named(epic_id, reference, reading) == Ok::<
                NodeRef<Text>,
                Text,
            >(NodeRef { epic_id, number }),
            None => blocker_named(epic_id, reference, reading) == reading,
        }),
        blocked_and_blocker(
            Selection::Collection(
                Container::Node(NodeRef { epic_id, number: own }),
                Collection::BlockedBy,
            ),
            reference,
            reading,
        ) == (match blocker_named(epic_id, reference, reading) {
            Ok(blocker) => Ok::<(NodeRef<Text>, NodeRef<Text>), Text>(
                (NodeRef { epic_id, number: own }, blocker),
            ),
            Err(words) => Err::<(NodeRef<Text>, NodeRef<Text>), Text>(words),
        }),
{
}

/// Putting a unit of work into a state asks the store for exactly that state: blocked
/// and closed with the reason that was typed, and closed with the cascade that was
/// answered.
pub proof fn work_is_put_into_exactly_the_state_picked(
    node: NodeRef<Text>,
    reason: Text,
    cascade: bool,
    reading: Result<NodeRef<Text>, Text>,
)
    ensures
        ({
            let put = |state: NodeState|
                planned(
                    Write::SetState {
                        target: Selection::Node(node),
                        state: State::Work(state),
                        reason,
                        cascade,
                    },
                    reading,
                );
            let asked = |change: NodeStatusChange<Text>|
                Ok::<Operation<Text>, Refusal<Text>>(Operation::SetNodeStatus(node, change));
            &&& put(NodeState::ToDo) == asked(NodeStatusChange::ToDo)
            &&& put(NodeState::InProgress) == asked(NodeStatusChange::InProgress)
            &&& put(NodeState::Blocked) == asked(NodeStatusChange::Blocked { reason: Some(reason) })
            &&& put(NodeState::Done) == asked(NodeStatusChange::Done)
            &&& put(NodeState::Closed) == asked(
                NodeStatusChange::Closed { reason: Some(reason), cascade },
            )
        }),
{
}

/// An epic is opened by clearing its flag, with no reason, and closed by setting it,
/// with the reason that was typed; a state that is not the row's kind is refused by
/// name.
pub proof fn an_epics_state_is_its_flag(
    row: Selection<Text>,
    state: State,
    reason: Text,
    cascade: bool,
    reading: Result<NodeRef<Text>, Text>,
)
    ensures
        ({
            let put = planned(Write::SetState { target: row, state, reason, cascade }, reading);
            &&& row matches Selection::Epic(epic_id) ==> {
                &&& state == State::EpicOpen ==> put == Ok::<Operation<Text>, Refusal<Text>>(
                    Operation::SetEpicClosed { epic_id, closed: false, reason: None },
                )
                &&& state == State::EpicClosed ==> put == Ok::<Operation<Text>, Refusal<Text>>(
                    Operation::SetEpicClosed { epic_id, closed: true, reason: Some(reason) },
                )
            }
            &&& (row is Epic && state is Work) || (row is Node && !(state is Work)) || (!(row is Epic)
                && !(row is Node)) ==> put == Err::<Operation<Text>, Refusal<Text>>(
                Refusal::Rule(row.spec_reference() + " cannot be "@ + state.word()),
            )
        }),
{
}

/// Replacing a field asks the store to put the text the reader left into that field and
/// no other, of the entity or the comment the row is, while it still carries the stamp
/// the text was read at.
pub proof fn a_replacement_writes_one_field_of_one_row(
    row: Selection<Text>,
    node: NodeRef<Text>,
    container: Container<Text>,
    id: u64,
    epic_id: Text,
    field: crate::data::FreeForm,
    value: Text,
    expect: Option<Stamp>,
    reading: Result<NodeRef<Text>, Text>,
)
    ensures
        ({
            let of = planned(
                Write::Replace { target: row, field: Replaceable::Field(field), value, expect },
                reading,
            );
            let text = planned(
                Write::Replace { target: row, field: Replaceable::CommentText, value, expect },
                reading,
            );
            let instant = match expect {
                Some(stamp) => Some(stamp@),
                None => None,
            };
            let edits = Edits {
                name: if field == crate::data::FreeForm::Name {
                    Some(value)
                } else {
                    None
                },
                summary: if field == crate::data::FreeForm::Summary {
                    Some(value)
                } else {
                    None
                },
                body: if field == crate::data::FreeForm::Body {
                    Some(value)
                } else {
                    None
                },
            };
            &&& row == Selection::Epic(epic_id) ==> of == Ok::<Operation<Text>, Refusal<Text>>(
                Operation::EditEpic { epic_id, edits, expect: instant },
            )
            &&& row == Selection::Node(node) ==> of == Ok::<Operation<Text>, Refusal<Text>>(
                Operation::EditNode { node, edits, expect: instant },
            )
            &&& row == Selection::<Text>::Comment(container, id) ==> text == Ok::<
                Operation<Text>,
                Refusal<Text>,
            >(Operation::EditComment { container, id, text: value, expect: instant })
            &&& !(row is Epic) && !(row is Node) ==> of == Err::<Operation<Text>, Refusal<Text>>(
                Refusal::Rule(
                    row.spec_reference() + " has no "@ + field.called() + " of its own"@,
                ),
            )
            &&& !(row is Comment) ==> text == Err::<Operation<Text>, Refusal<Text>>(
                Refusal::Rule(row.spec_reference() + " is not a comment"@),
            )
        }),
{
}

/// A store's failure is reported as what it is: a stale precondition as a conflict, a
/// cascade that stopped after it had closed something as a part done, and anything else
/// in the store's own words.
pub proof fn a_failure_is_reported_as_what_it_is(message: String)
    ensures
        refusal_for(StoreFailure::Conflict) is Conflict,
        refusal_for(StoreFailure::CascadePartial { committed: true, message }) == Refusal::Partial(
            message@,
        ),
        refusal_for(StoreFailure::CascadePartial { committed: false, message }) == Refusal::Rule(
            message@,
        ),
        refusal_for(StoreFailure::Other { message }) == Refusal::Rule(message@),
{
}

/// What only the store could say is answered back: the reference a new ticket was given,
/// in the epic it was made in, the number a comment was given, how many descendants a
/// close took with it, and that a blocker was listed already; anything else was done as
/// it was asked.
pub proof fn what_only_the_store_could_say_is_answered_back(
    epic_id: Text,
    parent: Option<NodeRef<Text>>,
    name: Text,
    summary: Text,
    container: Container<Text>,
    node: NodeRef<Text>,
    blocker: NodeRef<Text>,
    change: NodeStatusChange<Text>,
    before: Vec<String>,
    number: u64,
    closed: usize,
    operation: Operation<Text>,
    failure: StoreFailure,
)
    ensures
        concluded(
            Operation::CreateNode { epic_id, parent, name, summary },
            Ok(Outcome::Numbered(number)),
        ) == Ok::<Effect<Text>, Refusal<Text>>(
            Effect::Created(epic_id + "/"@ + decimal(number as nat)),
        ),
        concluded(Operation::AddComment(container, name), Ok(Outcome::Numbered(number))) == Ok::<
            Effect<Text>,
            Refusal<Text>,
        >(Effect::Commented(number)),
        closed > 0 ==> concluded(
            Operation::SetNodeStatus(node, change),
            Ok(Outcome::Cascaded(closed)),
        ) == Ok::<Effect<Text>, Refusal<Text>>(Effect::AlsoClosed(closed)),
        concluded(Operation::SetNodeStatus(node, change), Ok(Outcome::Cascaded(0))) == Ok::<
            Effect<Text>,
            Refusal<Text>,
        >(Effect::AsAsked),
        (exists|i: int|
            0 <= i < before@.len() && (#[trigger] before@[i])@ == blocker.spec_shown())
            ==> concluded(
            Operation::AddBlocker { node, blocker },
            Ok(Outcome::ListedBefore(before)),
        ) == Ok::<Effect<Text>, Refusal<Text>>(Effect::AlreadyListed(blocker.spec_shown())),
        (forall|i: int|
            0 <= i < before@.len() ==> (#[trigger] before@[i])@ != blocker.spec_shown())
            ==> concluded(
            Operation::AddBlocker { node, blocker },
            Ok(Outcome::ListedBefore(before)),
        ) == Ok::<Effect<Text>, Refusal<Text>>(Effect::AsAsked),
        concluded(operation, Ok(Outcome::Done)) == Ok::<Effect<Text>, Refusal<Text>>(
            Effect::AsAsked,
        ),
        !(operation is CreateNode) && !(operation is AddComment) ==> concluded(
            operation,
            Ok(Outcome::Numbered(number)),
        ) == Ok::<Effect<Text>, Refusal<Text>>(Effect::AsAsked),
        !(operation is SetNodeStatus) ==> concluded(operation, Ok(Outcome::Cascaded(closed)))
            == Ok::<Effect<Text>, Refusal<Text>>(Effect::AsAsked),
        !(operation is AddBlocker) ==> concluded(operation, Ok(Outcome::ListedBefore(before)))
            == Ok::<Effect<Text>, Refusal<Text>>(Effect::AsAsked),
        concluded(operation, Err(failure)) == Err::<Effect<Text>, Refusal<Text>>(
            refusal_for(failure),
        ),
{
}

/// A write is aimed at the row it names, and names the stamp it was given.
pub proof fn a_write_is_aimed_at_the_row_it_names(
    row: Selection<Text>,
    text: Text,
    other: Text,
    state: State,
    cascade: bool,
    field: Replaceable,
    expect: Option<Stamp>,
)
    ensures
        (Write::CreateEpic { epic: row, name: text, summary: other }).spec_target() == row,
        (Write::CreateNode { parent: row, name: text, summary: other }).spec_target() == row,
        Write::AddLabel(row, text).spec_target() == row,
        Write::RemoveLabel(row).spec_target() == row,
        Write::AddBlocker(row, text).spec_target() == row,
        Write::RemoveBlocker(row).spec_target() == row,
        Write::DeleteAsset(row).spec_target() == row,
        Write::AddComment(row, text).spec_target() == row,
        Write::DeleteComment(row).spec_target() == row,
        Write::TakeClaim(row, text).spec_target() == row,
        Write::ReleaseClaim(row).spec_target() == row,
        (Write::SetState { target: row, state, reason: text, cascade }).spec_target() == row,
        (Write::Replace { target: row, field, value: text, expect }).spec_target() == row,
        (Write::Replace { target: row, field, value: text, expect }).precondition() == expect,
        Write::AddLabel(row, text).spec_overwriting() == Write::AddLabel(row, text),
{
}

/// A write, the operation it comes to and what came of it are known by what they carry.
pub proof fn a_write_is_known_by_what_it_carries(
    write: &Write,
    effect: &Effect,
    refusal: &Refusal,
    node_status_change: &NodeStatusChange,
    operation: &Operation,
    node: NodeRef,
    words: String,
)
    ensures
        write@ == ({
            match write {
                Write::CreateEpic { epic, name, summary } => Write::CreateEpic {
                    epic: epic@,
                    name: name@,
                    summary: summary@,
                },
                Write::CreateNode { parent, name, summary } => Write::CreateNode {
                    parent: parent@,
                    name: name@,
                    summary: summary@,
                },
                Write::AddLabel(target, label) => Write::AddLabel(target@, label@),
                Write::RemoveLabel(target) => Write::RemoveLabel(target@),
                Write::AddBlocker(target, reference) => Write::AddBlocker(target@, reference@),
                Write::RemoveBlocker(target) => Write::RemoveBlocker(target@),
                Write::DeleteAsset(target) => Write::DeleteAsset(target@),
                Write::AddComment(target, text) => Write::AddComment(target@, text@),
                Write::DeleteComment(target) => Write::DeleteComment(target@),
                Write::TakeClaim(target, holder) => Write::TakeClaim(target@, holder@),
                Write::ReleaseClaim(target) => Write::ReleaseClaim(target@),
                Write::SetState { target, state, reason, cascade } => Write::SetState {
                    target: target@,
                    state: *state,
                    reason: reason@,
                    cascade: *cascade,
                },
                Write::Replace { target, field, value, expect } => Write::Replace {
                    target: target@,
                    field: *field,
                    value: value@,
                    expect: *expect,
                },
            }
        }),
        effect@ == ({
            match effect {
                Effect::AsAsked => Effect::AsAsked,
                Effect::Created(reference) => Effect::Created(reference@),
                Effect::AlreadyListed(reference) => Effect::AlreadyListed(reference@),
                Effect::AlsoClosed(count) => Effect::AlsoClosed(*count),
                Effect::Commented(id) => Effect::Commented(*id),
            }
        }),
        refusal@ == ({
            match refusal {
                Refusal::Conflict => Refusal::Conflict,
                Refusal::Rule(words) => Refusal::Rule(words@),
                Refusal::Partial(words) => Refusal::Partial(words@),
            }
        }),
        node_status_change@ == ({
            match node_status_change {
                NodeStatusChange::ToDo => NodeStatusChange::ToDo,
                NodeStatusChange::InProgress => NodeStatusChange::InProgress,
                NodeStatusChange::Blocked { reason } => NodeStatusChange::Blocked {
                    reason: text_in(*reason),
                },
                NodeStatusChange::Done => NodeStatusChange::Done,
                NodeStatusChange::Closed { reason, cascade } => NodeStatusChange::Closed {
                    reason: text_in(*reason),
                    cascade: *cascade,
                },
            }
        }),
        operation@ == ({
            match operation {
                Operation::CreateEpic { epic_id, name, summary } => Operation::CreateEpic {
                    epic_id: epic_id@,
                    name: name@,
                    summary: summary@,
                },
                Operation::CreateNode { epic_id, parent, name, summary } => Operation::CreateNode {
                    epic_id: epic_id@,
                    parent: node_in(*parent),
                    name: name@,
                    summary: summary@,
                },
                Operation::AddLabel(container, label) => Operation::AddLabel(container@, label@),
                Operation::RemoveLabel(container, label) => Operation::RemoveLabel(container@, label@),
                Operation::AddBlocker { node, blocker } => Operation::AddBlocker {
                    node: node@,
                    blocker: blocker@,
                },
                Operation::RemoveBlocker { node, blocker } => Operation::RemoveBlocker {
                    node: node@,
                    blocker: blocker@,
                },
                Operation::DeleteAsset(container, name) => Operation::DeleteAsset(container@, name@),
                Operation::AddComment(container, text) => Operation::AddComment(container@, text@),
                Operation::DeleteComment(container, id) => Operation::DeleteComment(container@, *id),
                Operation::EditComment { container, id, text, expect } => Operation::EditComment {
                    container: container@,
                    id: *id,
                    text: text@,
                    expect: *expect,
                },
                Operation::TakeClaim(node, holder) => Operation::TakeClaim(node@, holder@),
                Operation::ReleaseClaim(node) => Operation::ReleaseClaim(node@),
                Operation::SetNodeStatus(node, change) => Operation::SetNodeStatus(node@, change@),
                Operation::SetEpicClosed { epic_id, closed, reason } => Operation::SetEpicClosed {
                    epic_id: epic_id@,
                    closed: *closed,
                    reason: text_in(*reason),
                },
                Operation::EditEpic { epic_id, edits, expect } => Operation::EditEpic {
                    epic_id: epic_id@,
                    edits: edits@,
                    expect: *expect,
                },
                Operation::EditNode { node, edits, expect } => Operation::EditNode {
                    node: node@,
                    edits: edits@,
                    expect: *expect,
                },
            }
        }),
        node_in(Some(node)) == Some(node@),
        node_in(None) is None,
        viewed(Ok::<NodeRef, String>(node)) == Ok::<NodeRef<Text>, Text>(node@),
        viewed(Err::<NodeRef, String>(words)) == Err::<NodeRef<Text>, Text>(words@),
{
}

} // verus!
