//! The two-valued outcome of driving a suspendable operation one step.

use vstd::prelude::*;

verus! {

/// What one step of a suspendable operation reports back to the test.
///
/// `Suspended` replaces a real runtime's "pending": the operation made no
/// progress and will make none until the test injects new stimulus and steps
/// it again. `Completed` carries the operation's result. Nothing ever
/// re-drives a suspended operation on its own; resumption is always a fresh
/// call by the test.
#[derive(Debug)]
pub enum Step<T> {
    Suspended,
    Completed(T),
}

impl<T> Step<T> {
    /// Report whether this step completed, without consuming the outcome.
    pub fn is_completed(&self) -> (r: bool)
        ensures
            r == (self is Completed),
    {
        match self {
            Step::Completed(_) => true,
            Step::Suspended => false,
        }
    }

    /// Report whether this step left the operation suspended.
    pub fn is_suspended(&self) -> (r: bool)
        ensures
            r == (self is Suspended),
    {
        match self {
            Step::Suspended => true,
            Step::Completed(_) => false,
        }
    }
}

} // verus!
