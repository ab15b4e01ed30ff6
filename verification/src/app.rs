//! The whole browser state, and the one place an intent is carried out.
pub mod dialog;
pub mod field;
pub mod laws;
pub mod preview;
pub mod state;
pub mod surface;

pub use self::dialog::{
    cascade_label, reported, Answer, Dialog, Dismissal, Modal, OnDismissal, Performs,
    CONFIRM_TITLE, CONFLICT_TITLE, EDITOR_TITLE, REFUSAL_TITLE, REJECTED_TITLE, REQUIRED_TITLE,
    UNREADABLE_TITLE,
};
pub use self::field::{accepts, char_count, line_bounds, Check, Choice, Content, Field, Shown};
pub use self::state::{
    no_epics, unavailable, App, Composed, Flash, Offer, Step,
    DEFAULT_NAV_PERCENT, EDITING_NEEDS_THE_NAV_PANE, EDITING_STOPPED_READ_ONLY,
    EPICS_ARE_MADE_FROM_THE_EPICS_LIST, FLASH_LIFETIME, MAX_NAV_PERCENT, MIN_NAV_PERCENT,
    NOTHING_TO_EDIT, NOTHING_TO_OPEN, NOT_AN_EDITING_ACTION, NOT_A_WAY_OUT_OF_A_BUFFER,
    RESIZE_STEP, THE_ROW_IS_GONE,
};
pub use self::surface::{
    Commit, Placement, Surface, BLOCKER_FIELD, CLAIM_FIELD, COMMENT_FIELD, EPIC_ID_FIELD,
    LABEL_FIELD, REASON_FIELD, STATE_FIELD,
};
