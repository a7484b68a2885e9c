//! The answer to a poll.

use vstd::prelude::*;

verus! {

/// Whether something polled has a value yet.
#[derive(Debug, PartialEq, Eq)]
pub enum Poll<T> {
    /// The value is there.
    Ready(T),
    /// Not yet; whoever polled will be notified when polling again is
    /// worth it.
    Pending,
}

} // verus!
