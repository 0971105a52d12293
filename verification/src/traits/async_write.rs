//! Writing bytes without blocking the calling task.

use vstd::prelude::*;

use crate::error::Error;
use crate::poll::PollResult;

verus! {

/// Write bytes asynchronously.
///
/// One poll of [`AsyncWrite::poll_write`] either completes, having
/// accepted some bytes, or reports that the writer cannot take more yet
/// and suspends the calling task. Accepted bytes may still sit in a
/// buffer: [`AsyncWrite::poll_flush`] pushes them to their destination,
/// and [`AsyncWrite::poll_close`] closes the object — without an implicit
/// flush. A poll never surfaces `WouldBlock` nor `Interrupted`.
pub trait AsyncWrite {
    /// The condition under which this object may be polled for writing;
    /// for the types of this crate, their well-formedness.
    spec fn write_inv(&self) -> bool;

    /// The condition a buffer must meet to be written to this object —
    /// for the types of this crate, that the written range still fits in
    /// an addressable file.
    spec fn write_pre(&self, buf: Seq<u8>) -> bool;

    /// Attempts to write the bytes of `buf`.
    fn poll_write(&mut self, buf: &Vec<u8>) -> (r: PollResult<Result<usize, Error>>)
        requires
            old(self).write_inv(),
            old(self).write_pre(buf@),
    ;

    /// Attempts to write from the first non-empty buffer of several.
    /// Objects that support gathered writes natively may do better.
    fn poll_write_vectored(&mut self, bufs: &Vec<Vec<u8>>) -> (r: PollResult<
        Result<usize, Error>,
    >)
        requires
            old(self).write_inv(),
            forall|i: int| 0 <= i < bufs@.len() ==> old(self).write_pre(bufs@[i]@),
            old(self).write_pre(Seq::<u8>::empty()),
    {
        let mut i: usize = 0;
        while i < bufs.len()
            invariant
                self.write_inv(),
                forall|j: int| 0 <= j < bufs@.len() ==> self.write_pre(bufs@[j]@),
                self.write_pre(Seq::<u8>::empty()),
            decreases bufs@.len() - i,
        {
            if bufs[i].len() != 0 {
                return self.poll_write(&bufs[i]);
            }
            i = i + 1;
        }
        let empty: Vec<u8> = Vec::new();
        self.poll_write(&empty)
    }

    /// Attempts to flush the object, ensuring buffered data reach their
    /// destination.
    fn poll_flush(&mut self) -> (r: PollResult<Result<(), Error>>)
        requires
            old(self).write_inv(),
    ;

    /// Attempts to close the object. Closing does not imply flushing.
    fn poll_close(&mut self) -> (r: PollResult<Result<(), Error>>)
        requires
            old(self).write_inv(),
    ;
}

} // verus!
