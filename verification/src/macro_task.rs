//! Pending work that crosses from the background workers to the loop thread.

use vstd::prelude::*;
use crate::ids::IntervalId;

verus! {

/// One unit of pending work. `V` is the engine's rooted reference to a value; the
/// host never looks inside it.
///
/// The set of kinds is closed: each schedulable facility has a variant of its own.
pub enum MacroTask<V> {
    /// Fulfil the promise behind the rooted value.
    ResolvePromise(V),
    /// Run the callback of an interval, which stays registered.
    RunInterval(IntervalId),
    /// Remove an interval and cancel its background task.
    ClearInterval(IntervalId),
    /// Run the callback of a timeout and remove the timeout.
    RunAndClearTimeout(IntervalId),
    /// Remove a timeout and cancel its background task.
    ClearTimeout(IntervalId),
}

impl<V> MacroTask<V> {
    /// The timer a message is about, if it is about one.
    pub open spec fn timer(self) -> Option<IntervalId> {
        match self {
            MacroTask::ResolvePromise(_) => None,
            MacroTask::RunInterval(id) => Some(id),
            MacroTask::ClearInterval(id) => Some(id),
            MacroTask::RunAndClearTimeout(id) => Some(id),
            MacroTask::ClearTimeout(id) => Some(id),
        }
    }

    /// Whether a message asks for a timer's callback to run.
    pub open spec fn runs_callback(self) -> bool {
        self is RunInterval || self is RunAndClearTimeout
    }

    /// Whether a message asks for a timer to be removed without running it.
    pub open spec fn clears(self) -> bool {
        self is ClearInterval || self is ClearTimeout
    }
}

} // verus!
