//! Reading bytes without blocking the calling task.

use vstd::prelude::*;

use crate::error::Error;
use crate::poll::PollResult;

verus! {

/// Read bytes asynchronously.
///
/// One poll of [`AsyncRead::poll_read`] either completes with the next
/// bytes of the stream — at most `max` of them, an empty result meaning
/// the end — or reports that the offloaded read has not finished, in
/// which case the calling task is suspended and woken when it has. A poll
/// never surfaces `WouldBlock` (it suspends instead) nor `Interrupted`
/// (the blocking call retries internally).
pub trait AsyncRead {
    /// The condition under which this object may be polled for reading;
    /// for the types of this crate, their well-formedness.
    spec fn read_inv(&self) -> bool;

    /// Attempts to read up to `max` bytes.
    fn poll_read(&mut self, max: usize) -> (r: PollResult<Result<Vec<u8>, Error>>)
        requires
            old(self).read_inv(),
    ;

    /// Attempts to read into the first of several buffers that has room,
    /// described by their capacities: the read is bounded by the first
    /// non-zero capacity, or by zero if every buffer is full. Objects
    /// that support scattered reads natively may do better.
    fn poll_read_vectored(&mut self, maxes: &Vec<usize>) -> (r: PollResult<
        Result<Vec<u8>, Error>,
    >)
        requires
            old(self).read_inv(),
    {
        let mut i: usize = 0;
        while i < maxes.len()
            invariant
                self.read_inv(),
            decreases maxes@.len() - i,
        {
            if maxes[i] != 0 {
                return self.poll_read(maxes[i]);
            }
            i = i + 1;
        }
        self.poll_read(0)
    }
}

} // verus!
