//! A stream of values produced asynchronously.

use vstd::prelude::*;

use crate::poll::PollResult;

verus! {

/// An asynchronous sequence of values: where a future yields one value,
/// a stream yields any number of them, one per completed poll, and
/// `None` once it is exhausted.
pub trait Stream {
    /// The values yielded by the stream.
    type Item;

    /// The condition under which the stream may be polled; for the types
    /// of this crate, their well-formedness.
    spec fn stream_inv(&self) -> bool;

    /// Attempts to pull out the next value. `Pending` suspends the
    /// calling task until a value may be ready; `Ready(Some(v))` yields
    /// a value; `Ready(None)` means the stream is exhausted and should
    /// not be polled again.
    fn poll_next(&mut self) -> (r: PollResult<Option<Self::Item>>)
        requires
            old(self).stream_inv(),
    ;

    /// Bounds on the number of values left: a lower bound, and an upper
    /// bound if one is known. The default claims nothing, which is
    /// correct for every stream.
    fn size_hint(&self) -> (r: (usize, Option<usize>)) {
        (0, None)
    }
}

} // verus!
