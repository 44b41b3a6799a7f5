use vstd::prelude::*;

verus! {

/// A request that the background worker executes.
#[derive(Debug, Clone, Copy, PartialEq, Eq, Structural)]
pub enum IoEvent {
    /// The one-time start-up sequence.
    Initialize,
    /// Wait for the given number of seconds.
    Sleep(u64),
}

/// What the worker reports back when a command is done.
#[derive(Debug, Clone, Copy, PartialEq, Eq, Structural)]
pub enum Completion {
    /// The start-up sequence finished.
    Initialized,
    /// A sleep finished; it took the given number of seconds.
    Slept(u64),
}

} // verus!
