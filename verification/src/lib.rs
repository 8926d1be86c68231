//! Controller core for an interactive terminal browser of a hierarchical
//! object store (buckets, nested prefixes, objects).
//!
//! The library holds the event-driven application controller: the view-state
//! machine, the navigation path with per-level cursor restoration, the
//! notification banner rules, and the single-in-flight asynchronous operation
//! lifecycle. Terminal rendering, the store client, and the input source are
//! external collaborators; they live outside this crate and talk to the
//! controller through plain events and actions.

pub mod app;
pub mod error;
pub mod event;
pub mod format;
pub mod item;
pub mod laws;
pub mod layout;
pub mod selection;
pub mod state;
