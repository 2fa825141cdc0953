//! Identifiers of background tasks and of timers.
//!
//! Both kinds are handed out by counters that only grow, so an identifier is never
//! given twice by one host state. Only equality between identifiers carries meaning.

use vstd::prelude::*;

verus! {

/// Identifier of a background task.
#[derive(Clone, Copy, Debug, PartialEq, Eq, Structural, Hash)]
pub struct TaskId(pub u32);

impl TaskId {
    /// Makes the identifier that stands for `index`.
    pub fn from_index(index: u32) -> (id: Self)
        ensures
            id == TaskId(index),
    {
        TaskId(index)
    }

    /// The number this identifier was made from.
    pub fn index(self) -> (index: u32)
        ensures
            index == self.0,
    {
        self.0
    }
}

/// Identifier of an interval or of a one-shot timeout.
#[derive(Clone, Copy, Debug, PartialEq, Eq, Structural, Hash)]
pub struct IntervalId(pub u32);

impl IntervalId {
    /// Makes the identifier that stands for `index`.
    pub fn from_index(index: u32) -> (id: Self)
        ensures
            id == IntervalId(index),
    {
        IntervalId(index)
    }

    /// The number this identifier was made from.
    pub fn index(self) -> (index: u32)
        ensures
            index == self.0,
    {
        self.0
    }
}

} // verus!
