//! Host side of a desktop automation scripting system.
//!
//! The library owns the logic of the script execution subsystem: the
//! vocabulary of automation commands that scripts may issue, the
//! translation of script-level calls into those commands, a model of the
//! worker that performs them, the per-script instance that embeds a Luau
//! runtime with cooperative cancellation, and the manager that guarantees
//! at most one script instance runs at a time.

pub mod text;
pub mod model;
pub mod channel;
pub mod event;
pub mod worker;
pub mod instance;
pub mod manager;
