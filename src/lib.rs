//! Control core of a terminal dashboard: key bindings, the registry of actions
//! valid in a context, and the dispatcher that hands long-running commands to a
//! background worker.

pub mod key;
pub mod actions;
pub mod io;
pub mod state;
pub mod app;
pub mod worker;
