//! Watch a set of filesystem paths and run a shell command, one run at a
//! time, whenever the metadata of a watched path changes.
//!
//! The library holds the decisions: which paths are watched and how, which
//! raw notifications count as triggers, what the dispatch loop does next, and
//! what is reported for each command run. Reading input, talking to the
//! notification backend and spawning processes are left to the caller.
pub mod backend;
pub mod classify;
pub mod command;
pub mod dispatch;
pub mod event;
pub mod laws;
pub mod path;
pub mod target;
