//! Seeking without blocking the calling task.

use vstd::prelude::*;

use crate::error::Error;
use crate::poll::PollResult;
use crate::raw_file::SeekFrom;

verus! {

/// Seek within a stream of bytes asynchronously.
///
/// One poll of [`AsyncSeek::poll_seek`] either completes with the new
/// position from the start of the stream, or suspends the calling task
/// until the offloaded seek finishes. Seeking to a negative offset is an
/// error; seeking beyond the end is allowed. A poll never surfaces
/// `WouldBlock` nor `Interrupted`.
pub trait AsyncSeek {
    /// The condition under which this object may be polled for seeking;
    /// for the types of this crate, their well-formedness.
    spec fn seek_inv(&self) -> bool;

    /// Attempts to seek to `pos`.
    fn poll_seek(&mut self, pos: SeekFrom) -> (r: PollResult<Result<u64, Error>>)
        requires
            old(self).seek_inv(),
    ;
}

} // verus!
