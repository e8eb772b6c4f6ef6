//! The failures of the retrieval core.

use vstd::prelude::*;

verus! {

/// Why a retrieval failed.
#[derive(Clone, Debug, PartialEq, Eq)]
pub enum LogError {
    /// Sampling found no line: the filter matches nothing, or the line at the
    /// drawn offset was gone by the time it was fetched.
    NotFound,
    /// The store failed; its message, passed on unchanged.
    Storage(String),
    /// The store handed back a value this layer cannot hold, such as a bucket
    /// start outside the calendar.
    InvariantViolation,
}

} // verus!
