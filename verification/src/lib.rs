//! The state machine of a terminal browser over a store of epics and tickets.
pub mod action;
pub mod app;
pub mod data;
pub mod moment;
pub mod nav;
pub mod text;
