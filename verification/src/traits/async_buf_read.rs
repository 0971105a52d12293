//! Buffered reading without blocking the calling task.

use vstd::prelude::*;

use crate::error::Error;
use crate::poll::PollResult;
use crate::traits::async_read::AsyncRead;

verus! {

/// Read bytes asynchronously through an internal buffer.
///
/// [`AsyncBufRead::poll_fill_buf`] exposes the buffered bytes without
/// consuming them — an empty result means the end of the stream — and
/// [`AsyncBufRead::consume`] declares how many of them the caller has
/// taken, so that no byte is ever delivered twice. The two are meant to
/// be paired.
pub trait AsyncBufRead: AsyncRead {
    /// How many buffered bytes [`AsyncBufRead::consume`] may consume.
    spec fn buffered_len(&self) -> int;

    /// Attempts to return the contents of the internal buffer, filling
    /// it from the underlying reader if it is empty.
    fn poll_fill_buf(&mut self) -> (r: PollResult<Result<Vec<u8>, Error>>)
        requires
            old(self).read_inv(),
    ;

    /// Declares that `amt` buffered bytes have been consumed. `amt` must
    /// not exceed what the last fill reported.
    fn consume(&mut self, amt: usize)
        requires
            old(self).read_inv(),
            amt <= old(self).buffered_len(),
    ;
}

} // verus!
