//! What the browser learns from a store and what it writes to one, as plain
//! values: references, rows, documents, and the writes a store is asked for.
//!
//! Nothing here reads or writes a store. A reading arrives as the values a store
//! returned for it, and a write leaves as the operation a store is to carry out.
pub mod agent;
pub mod document;
pub mod entity;
pub mod gate;
pub mod reference;
pub mod row;
pub mod write;

pub use self::agent::{
    agent_picker, prepare_agent_launch, AgentChoice, AgentPicker, LaunchTarget, Origin, Resolution,
    ResourceReading,
};
pub use self::document::{
    as_text, asset_document, comment_document, human_size, preview, AssetEntry, Document,
};
pub use self::entity::{
    comment_target, edit_target, entity_of, state_target, CommentTarget, CommentsReading,
    EditTarget, Edits, EntityReading, FreeForm, HeldComment, NodeState, Replaceable, Stamp, State,
    StateReading, StateTarget,
};
pub use self::gate::{read_only, GateWords, ReadOnly, VersionRefusal};
pub use self::reference::{Collection, Container, Level, NodeRef, Selection};
pub use self::row::{
    child_rows, collection_rows, member_rows, roster_rows, rows, AssetReading, Author,
    BlockerReading, BlockingNode, ChildReading, CollectionCounts, CommentView, Listing, Members,
    RosterEntry, Row, RowKind,
};
pub use self::write::{
    blocker_name, misdirected, perform, performed, refusal, resolve_blocker, Effect,
    NodeStatusChange, Operation, Outcome, Reading, Refusal, StoreFailure, Write,
};
