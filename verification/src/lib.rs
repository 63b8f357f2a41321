//! Verified core of an interactive table-management console for a remote
//! structured-storage service.
//!
//! The library contains the full state machine that drives the console: the
//! top-level mode dispatcher, a three-step resource-creation wizard, a
//! per-record attribute editor with type-aware value coercion, filterable
//! selection lists, and pagination bookkeeping.  Terminal handling and the
//! remote backend calls live outside the library; the state machine itself
//! never blocks and never panics.

pub mod app;
pub mod describe;
pub mod editor;
pub mod hex;
pub mod keyboard;
pub mod keys;
pub mod models;
pub mod selector;
pub mod strutil;
pub mod wizard;
