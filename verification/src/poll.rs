//! The outcome of polling a non-blocking operation once.

use vstd::prelude::*;

verus! {

/// One poll of a non-blocking operation either completes with a value or
/// reports that the offloaded work is still running, in which case the
/// caller's task is suspended and woken exactly once when the work finishes.
#[derive(Debug)]
pub enum PollResult<T> {
    /// The operation completed with this value.
    Ready(T),
    /// The offloaded work has not finished; poll again after being woken.
    Pending,
}

impl<T> PollResult<T> {
    /// Whether this poll completed.
    pub fn is_ready(&self) -> (r: bool)
        ensures
            r == (self is Ready),
    {
        match self {
            PollResult::Ready(_) => true,
            PollResult::Pending => false,
        }
    }
}

} // verus!
