//! A model of the worker-side buffered handle that performs the blocking
//! calls for a [`crate::file::File`] adapter.
//!
//! The handle reads ahead of the caller: one fill may advance the
//! descriptor's cursor well past the bytes the caller has consumed, with the
//! surplus parked in a read buffer. Writes are buffered as well and reach
//! the descriptor when the handle drains them — before any seek, before a
//! read, and on an explicit flush. Switching from reading to writing or
//! seeking discards the read-ahead, which leaves the descriptor's cursor
//! ahead of the position the caller believes is current; the adapter in
//! [`crate::file`] exists to repair exactly that drift.

use vstd::prelude::*;

use crate::error::CODE_NOT_SEEKABLE;
use crate::error::Error;
use crate::meta::Metadata;
use crate::meta::Permissions;
use crate::poll::PollResult;
use crate::raw_file::seek_target;
use crate::raw_file::write_bytes;
use crate::raw_file::RawFile;
use crate::raw_file::SeekFrom;

verus! {

/// A buffered handle over one blocking descriptor.
///
/// The *logical* contents and position — what a caller that only ever went
/// through this handle has observed — are given by [`BufFile::data`] and
/// [`BufFile::pos`]. The *descriptor's* state, which buffering lets run
/// ahead or behind, is given by [`BufFile::os_data`] and
/// [`BufFile::os_pos`].
pub struct BufFile {
    /// The descriptor itself.
    inner: RawFile,
    /// Bytes read ahead of the caller: already past the descriptor's
    /// cursor, not yet delivered.
    rbuf: Vec<u8>,
    /// Bytes written by the caller, not yet applied to the descriptor.
    wbuf: Vec<u8>,
    /// How many bytes one read-ahead fill requests at most.
    cap: usize,
    /// How many flush calls have completed on this handle.
    flushes: u64,
}

impl BufFile {
    /// The descriptor's contents.
    pub closed spec fn os_data(&self) -> Seq<u8> {
        self.inner.data@
    }

    /// The descriptor's cursor.
    pub closed spec fn os_pos(&self) -> int {
        self.inner.pos as int
    }

    /// How many read-ahead bytes are parked in the handle.
    pub closed spec fn rbuf_len(&self) -> int {
        self.rbuf@.len() as int
    }

    /// How many written bytes have not yet reached the descriptor.
    pub closed spec fn wbuf_len(&self) -> int {
        self.wbuf@.len() as int
    }

    /// The read-ahead bytes themselves.
    pub closed spec fn buffered(&self) -> Seq<u8> {
        self.rbuf@
    }

    /// Whether the descriptor supports seeking.
    pub closed spec fn seekable(&self) -> bool {
        self.inner.seekable
    }

    /// Whether the descriptor is in append mode.
    pub closed spec fn append_mode(&self) -> bool {
        self.inner.append
    }

    /// The permissions of the underlying object.
    pub closed spec fn perm(&self) -> Permissions {
        self.inner.perm
    }

    /// How many flush calls have completed on this handle.
    pub closed spec fn flushes(&self) -> int {
        self.flushes as int
    }

    /// How many synchronize-to-disk calls have completed on the descriptor.
    pub closed spec fn syncs(&self) -> int {
        self.inner.syncs as int
    }

    /// The logical contents: the descriptor's contents with the buffered
    /// writes applied where they will land.
    pub closed spec fn data(&self) -> Seq<u8> {
        if self.wbuf@.len() == 0 {
            self.inner.data@
        } else if self.inner.append {
            self.inner.data@ + self.wbuf@
        } else {
            write_bytes(self.inner.data@, self.inner.pos as int, self.wbuf@)
        }
    }

    /// The logical position: where the next byte would be read from or
    /// written to, from the caller's point of view.
    pub closed spec fn pos(&self) -> int {
        if self.inner.append && self.wbuf@.len() > 0 {
            self.inner.data@.len() + self.wbuf@.len() as int
        } else {
            self.inner.pos + self.wbuf@.len() - self.rbuf@.len()
        }
    }

    /// Well-formedness: at most one of the two buffers is occupied, the
    /// read-ahead holds exactly the descriptor bytes just before its
    /// cursor, and buffered writes still fit in an addressable file.
    pub closed spec fn wf(&self) -> bool {
        &&& self.cap >= 1
        &&& (self.rbuf@.len() == 0 || self.wbuf@.len() == 0)
        &&& self.rbuf@.len() <= self.inner.pos
        &&& (self.rbuf@.len() > 0 ==> {
            &&& self.inner.pos <= self.inner.data@.len()
            &&& self.rbuf@ == self.inner.data@.subrange(
                self.inner.pos - self.rbuf@.len(),
                self.inner.pos as int,
            )
        })
        &&& (self.wbuf@.len() > 0 ==> self.inner.write_pos() + self.wbuf@.len() <= usize::MAX)
    }

    /// How many flush calls have completed on this handle, as a value.
    pub fn flush_calls(&self) -> (r: u64)
        ensures
            r as int == self.flushes(),
    {
        self.flushes
    }

    /// How many synchronize-to-disk calls have completed on the
    /// descriptor, as a value.
    pub fn sync_calls(&self) -> (r: u64)
        ensures
            r as int == self.syncs(),
    {
        self.inner.syncs
    }

    /// The bounds that well-formedness puts on the logical state; callers
    /// use them to justify cursor arithmetic.
    pub proof fn lemma_wf_bounds(&self)
        requires
            self.wf(),
        ensures
            0 <= self.rbuf_len(),
            0 <= self.wbuf_len(),
            0 <= self.pos(),
            self.pos() + self.rbuf_len() <= u64::MAX,
            self.pos() + self.rbuf_len() <= vstd::math::max(self.data().len() as int, self.pos()),
            self.data().len() <= usize::MAX,
            self.os_data().len() <= usize::MAX,
    {
        assert(self.inner.data@.len() == self.inner.data.len());
        assert(self.rbuf@.len() == self.rbuf.len());
        assert(self.wbuf@.len() == self.wbuf.len());
    }

    /// Wraps a descriptor. `cap` is the size of one read-ahead fill.
    pub fn new(inner: RawFile, cap: usize) -> (r: BufFile)
        requires
            cap >= 1,
        ensures
            r.wf(),
            r.data() == inner.data@,
            r.os_data() == inner.data@,
            r.pos() == inner.pos as int,
            r.os_pos() == inner.pos as int,
            r.rbuf_len() == 0,
            r.wbuf_len() == 0,
            r.flushes() == 0,
            r.syncs() == inner.syncs as int,
            r.seekable() == inner.seekable,
            r.append_mode() == inner.append,
            r.perm() == inner.perm,
    {
        BufFile { inner, rbuf: Vec::new(), wbuf: Vec::new(), cap, flushes: 0 }
    }

    /// Hands the descriptor back, abandoning the buffers. Read-ahead is
    /// merely discarded; buffered writes that were never flushed are lost,
    /// which is why a caller must flush or sync before relying on
    /// durability.
    pub fn into_inner(self) -> (r: RawFile)
        ensures
            r.data@ == self.os_data(),
            r.pos == self.os_pos(),
            r.seekable == self.seekable(),
            r.append == self.append_mode(),
            r.perm == self.perm(),
            r.syncs == self.syncs(),
    {
        self.inner
    }

    /// Applies the buffered writes to the descriptor, leaving the write
    /// buffer empty. Read-ahead, if any, is untouched: the two buffers are
    /// never occupied at once.
    #[verifier::loop_isolation(false)]
    fn drain(&mut self)
        requires
            old(self).wf(),
        ensures
            final(self).wf(),
            final(self).wbuf_len() == 0,
            final(self).rbuf_len() == old(self).rbuf_len(),
            final(self).buffered() == old(self).buffered(),
            final(self).data() == old(self).data(),
            final(self).os_data() == old(self).data(),
            final(self).pos() == old(self).pos(),
            final(self).os_pos() == old(self).pos() + old(self).rbuf_len(),
            final(self).flushes() == old(self).flushes(),
            final(self).syncs() == old(self).syncs(),
            final(self).seekable() == old(self).seekable(),
            final(self).append_mode() == old(self).append_mode(),
            final(self).perm() == old(self).perm(),
            final(self).cap == old(self).cap,
    {
        if self.wbuf.len() > 0 {
            let _ = self.inner.write(&self.wbuf);
            self.wbuf.clear();
            proof {
                if old(self).inner.append {
                    assert(self.inner.data@ =~= old(self).inner.data@ + old(self).wbuf@);
                }
            }
        }
    }

    /// One non-blocking read step: delivers the next logical bytes, up to
    /// `max` of them, advancing the logical position past what it returns.
    /// Pending writes are applied first; if the read-ahead is empty, one
    /// blocking fill runs and may advance the descriptor's cursor further
    /// than the bytes delivered.
    #[verifier::loop_isolation(false)]
    pub fn read(&mut self, max: usize) -> (r: Vec<u8>)
        requires
            old(self).wf(),
        ensures
            final(self).wf(),
            r@.len() <= max,
            final(self).pos() == old(self).pos() + r@.len(),
            final(self).data() == old(self).data(),
            final(self).os_data() == old(self).data(),
            final(self).wbuf_len() == 0,
            old(self).pos() <= old(self).data().len() ==> {
                &&& r@ == old(self).data().subrange(old(self).pos(), old(self).pos() + r@.len())
                &&& final(self).pos() <= old(self).data().len()
            },
            old(self).pos() > old(self).data().len() ==> r@.len() == 0,
            r@.len() == 0 ==> max == 0 || old(self).pos() >= old(self).data().len(),
            final(self).flushes() == old(self).flushes(),
            final(self).syncs() == old(self).syncs(),
            final(self).seekable() == old(self).seekable(),
            final(self).append_mode() == old(self).append_mode(),
            final(self).perm() == old(self).perm(),
    {
        self.drain();
        if self.rbuf.len() == 0 {
            let chunk = self.inner.read(self.cap);
            self.rbuf = chunk;
        }
        proof {
            assert(self.wf());
            assert(self.data() == old(self).data());
            assert(self.pos() == old(self).pos());
        }
        let k = if max < self.rbuf.len() {
            max
        } else {
            self.rbuf.len()
        };
        let ghost pos0 = self.pos();
        let mut out: Vec<u8> = Vec::new();
        let mut i: usize = 0;
        while i < k
            invariant
                i <= k <= self.rbuf@.len(),
                out@ == self.rbuf@.subrange(0, i as int),
            decreases k - i,
        {
            let b = self.rbuf[i];
            out.push(b);
            proof {
                assert(out@ =~= self.rbuf@.subrange(0, i + 1));
            }
            i = i + 1;
        }
        let mut tail: Vec<u8> = Vec::new();
        let mut j: usize = k;
        while j < self.rbuf.len()
            invariant
                k <= j <= self.rbuf@.len(),
                tail@ == self.rbuf@.subrange(k as int, j as int),
            decreases self.rbuf@.len() - j,
        {
            let b = self.rbuf[j];
            tail.push(b);
            proof {
                assert(tail@ =~= self.rbuf@.subrange(k as int, j + 1));
            }
            j = j + 1;
        }
        proof {
            assert(tail@ =~= self.rbuf@.subrange(k as int, self.rbuf@.len() as int));
        }
        self.rbuf = tail;
        proof {
            if self.rbuf@.len() > 0 {
                assert(self.rbuf@ =~= self.inner.data@.subrange(
                    self.inner.pos - self.rbuf@.len(),
                    self.inner.pos as int,
                ));
            }
            if pos0 <= self.inner.data@.len() {
                assert(out@ =~= self.inner.data@.subrange(pos0, pos0 + out@.len()));
            }
        }
        out
    }

    /// One non-blocking write step: queues every byte of `buf` behind any
    /// writes already pending, and discards the read-ahead, switching the
    /// handle into writing mode. The queued bytes land at the descriptor's
    /// cursor — which sits `rbuf_len` bytes past the caller's logical
    /// position whenever read-ahead was discarded. A caller that wants the
    /// write at its logical position must seek there first; that is the
    /// adapter's reposition step.
    #[verifier::loop_isolation(false)]
    pub fn write(&mut self, buf: &Vec<u8>) -> (r: Result<usize, Error>)
        requires
            old(self).wf(),
            !old(self).append_mode() ==> old(self).pos() + old(self).rbuf_len() + buf@.len()
                <= usize::MAX,
            old(self).append_mode() ==> old(self).data().len() + buf@.len() <= usize::MAX,
        ensures
            final(self).wf(),
            r == Ok::<usize, Error>(buf@.len() as usize),
            final(self).rbuf_len() == 0,
            final(self).wbuf_len() == old(self).wbuf_len() + buf@.len(),
            buf@.len() == 0 ==> {
                &&& final(self).data() == old(self).data()
                &&& final(self).pos() == old(self).pos() + old(self).rbuf_len()
            },
            buf@.len() > 0 && !old(self).append_mode() ==> {
                &&& final(self).data() == write_bytes(
                    old(self).data(),
                    old(self).pos() + old(self).rbuf_len(),
                    buf@,
                )
                &&& final(self).pos() == old(self).pos() + old(self).rbuf_len() + buf@.len()
            },
            buf@.len() > 0 && old(self).append_mode() ==> {
                &&& final(self).data() == old(self).data() + buf@
                &&& final(self).pos() == old(self).data().len() + buf@.len()
            },
            final(self).os_data() == old(self).os_data(),
            final(self).os_pos() == old(self).os_pos(),
            final(self).flushes() == old(self).flushes(),
            final(self).syncs() == old(self).syncs(),
            final(self).seekable() == old(self).seekable(),
            final(self).append_mode() == old(self).append_mode(),
            final(self).perm() == old(self).perm(),
    {
        self.rbuf.clear();
        let ghost wbuf0 = self.wbuf@;
        let mut queued: Vec<u8> = Vec::new();
        let mut j: usize = 0;
        while j < self.wbuf.len()
            invariant
                j <= self.wbuf@.len(),
                queued@ == self.wbuf@.subrange(0, j as int),
            decreases self.wbuf@.len() - j,
        {
            let b = self.wbuf[j];
            queued.push(b);
            proof {
                assert(queued@ =~= self.wbuf@.subrange(0, j + 1));
            }
            j = j + 1;
        }
        proof {
            assert(queued@ =~= wbuf0);
        }
        let mut t: usize = 0;
        while t < buf.len()
            invariant
                t <= buf@.len(),
                queued@ == wbuf0 + buf@.subrange(0, t as int),
            decreases buf@.len() - t,
        {
            let b = buf[t];
            queued.push(b);
            proof {
                assert(queued@ =~= wbuf0 + buf@.subrange(0, t + 1));
            }
            t = t + 1;
        }
        proof {
            assert(queued@ =~= wbuf0 + buf@);
        }
        self.wbuf = queued;
        proof {
            let d = self.inner.data@;
            let p = self.inner.pos as int;
            if buf@.len() == 0 {
                assert(self.wbuf@ =~= wbuf0);
                assert(self.data() == old(self).data());
            } else if self.inner.append {
                assert(self.data() =~= old(self).data() + buf@);
            } else {
                if wbuf0.len() == 0 {
                    assert(self.data() =~= write_bytes(
                        old(self).data(),
                        old(self).pos() + old(self).rbuf_len(),
                        buf@,
                    ));
                } else {
                    lemma_write_bytes_compose(d, p, wbuf0, buf@);
                    assert(self.data() =~= write_bytes(
                        old(self).data(),
                        old(self).pos() + old(self).rbuf_len(),
                        buf@,
                    ));
                }
            }
        }
        Ok(buf.len())
    }

    /// One non-blocking seek step: pending writes are applied, the
    /// read-ahead is discarded, and the descriptor seeks. A relative seek
    /// is therefore relative to the descriptor's cursor, not the logical
    /// position — the drift the adapter repairs before ever seeking.
    pub fn seek(&mut self, from: SeekFrom) -> (r: Result<u64, Error>)
        requires
            old(self).wf(),
        ensures
            final(self).wf(),
            final(self).rbuf_len() == 0,
            final(self).wbuf_len() == 0,
            final(self).data() == old(self).data(),
            final(self).os_data() == old(self).data(),
            !old(self).seekable() ==> {
                &&& r == Err::<u64, Error>(Error::Os(CODE_NOT_SEEKABLE))
                &&& final(self).pos() == old(self).pos() + old(self).rbuf_len()
            },
            old(self).seekable() ==> {
                let t = seek_target(
                    from,
                    old(self).data().len() as int,
                    old(self).pos() + old(self).rbuf_len(),
                );
                if 0 <= t <= u64::MAX {
                    &&& r == Ok::<u64, Error>(t as u64)
                    &&& final(self).pos() == t
                } else {
                    &&& r == Err::<u64, Error>(Error::InvalidInput)
                    &&& final(self).pos() == old(self).pos() + old(self).rbuf_len()
                }
            },
            final(self).flushes() == old(self).flushes(),
            final(self).syncs() == old(self).syncs(),
            final(self).seekable() == old(self).seekable(),
            final(self).append_mode() == old(self).append_mode(),
            final(self).perm() == old(self).perm(),
    {
        self.drain();
        self.rbuf.clear();
        self.inner.seek(from)
    }

    /// One flush call: applies the pending writes to the descriptor and
    /// forwards the flush. The read-ahead and the logical position are
    /// untouched.
    pub fn flush(&mut self) -> (r: Result<(), Error>)
        requires
            old(self).wf(),
            old(self).flushes() < u64::MAX,
        ensures
            final(self).wf(),
            r == Ok::<(), Error>(()),
            final(self).data() == old(self).data(),
            final(self).os_data() == old(self).data(),
            final(self).pos() == old(self).pos(),
            final(self).rbuf_len() == old(self).rbuf_len(),
            final(self).buffered() == old(self).buffered(),
            final(self).wbuf_len() == 0,
            final(self).flushes() == old(self).flushes() + 1,
            final(self).syncs() == old(self).syncs(),
            final(self).seekable() == old(self).seekable(),
            final(self).append_mode() == old(self).append_mode(),
            final(self).perm() == old(self).perm(),
    {
        self.drain();
        self.flushes = self.flushes + 1;
        Ok(())
    }

    /// One synchronize-to-disk call: flushes the pending writes, then
    /// performs the blocking sync on the descriptor.
    pub fn sync(&mut self) -> (r: Result<(), Error>)
        requires
            old(self).wf(),
            old(self).flushes() < u64::MAX,
            old(self).syncs() < u64::MAX,
        ensures
            final(self).wf(),
            r == Ok::<(), Error>(()),
            final(self).data() == old(self).data(),
            final(self).os_data() == old(self).data(),
            final(self).pos() == old(self).pos(),
            final(self).rbuf_len() == old(self).rbuf_len(),
            final(self).wbuf_len() == 0,
            final(self).flushes() == old(self).flushes() + 1,
            final(self).syncs() == old(self).syncs() + 1,
            final(self).seekable() == old(self).seekable(),
            final(self).append_mode() == old(self).append_mode(),
            final(self).perm() == old(self).perm(),
    {
        self.drain();
        self.flushes = self.flushes + 1;
        self.inner.sync();
        Ok(())
    }

    /// Fills the read-ahead if it is empty — one blocking read of up to
    /// `cap` bytes — and returns a copy of the buffered bytes: the next
    /// logical bytes of the file, none of them consumed yet. An empty
    /// result means the end of the file. Pair it with
    /// [`BufFile::consume`].
    #[verifier::loop_isolation(false)]
    pub fn fill_buf(&mut self) -> (r: Vec<u8>)
        requires
            old(self).wf(),
        ensures
            final(self).wf(),
            r@ == final(self).buffered(),
            final(self).pos() == old(self).pos(),
            final(self).data() == old(self).data(),
            final(self).os_data() == old(self).data(),
            final(self).wbuf_len() == 0,
            old(self).pos() <= old(self).data().len() ==> r@ == old(self).data().subrange(
                old(self).pos(),
                old(self).pos() + r@.len(),
            ),
            r@.len() == 0 ==> old(self).pos() >= old(self).data().len(),
            final(self).flushes() == old(self).flushes(),
            final(self).syncs() == old(self).syncs(),
            final(self).seekable() == old(self).seekable(),
            final(self).append_mode() == old(self).append_mode(),
            final(self).perm() == old(self).perm(),
    {
        self.drain();
        if self.rbuf.len() == 0 {
            let chunk = self.inner.read(self.cap);
            self.rbuf = chunk;
        }
        proof {
            assert(self.wf());
            assert(self.pos() == old(self).pos());
        }
        let mut out: Vec<u8> = Vec::new();
        let mut i: usize = 0;
        while i < self.rbuf.len()
            invariant
                i <= self.rbuf@.len(),
                out@ == self.rbuf@.subrange(0, i as int),
            decreases self.rbuf@.len() - i,
        {
            let b = self.rbuf[i];
            out.push(b);
            proof {
                assert(out@ =~= self.rbuf@.subrange(0, i + 1));
            }
            i = i + 1;
        }
        proof {
            assert(out@ =~= self.rbuf@);
        }
        out
    }

    /// Declares `amt` bytes of the read-ahead consumed: they will not be
    /// delivered again, and the logical position moves past them. `amt`
    /// must not exceed what [`BufFile::fill_buf`] last returned.
    #[verifier::loop_isolation(false)]
    pub fn consume(&mut self, amt: usize)
        requires
            old(self).wf(),
            amt <= old(self).rbuf_len(),
        ensures
            final(self).wf(),
            final(self).pos() == old(self).pos() + amt,
            final(self).data() == old(self).data(),
            final(self).os_data() == old(self).os_data(),
            final(self).rbuf_len() == old(self).rbuf_len() - amt,
            final(self).wbuf_len() == old(self).wbuf_len(),
            final(self).flushes() == old(self).flushes(),
            final(self).syncs() == old(self).syncs(),
            final(self).seekable() == old(self).seekable(),
            final(self).append_mode() == old(self).append_mode(),
            final(self).perm() == old(self).perm(),
    {
        let mut tail: Vec<u8> = Vec::new();
        let mut j: usize = amt;
        while j < self.rbuf.len()
            invariant
                amt <= j <= self.rbuf@.len(),
                tail@ == self.rbuf@.subrange(amt as int, j as int),
            decreases self.rbuf@.len() - j,
        {
            let b = self.rbuf[j];
            tail.push(b);
            proof {
                assert(tail@ =~= self.rbuf@.subrange(amt as int, j + 1));
            }
            j = j + 1;
        }
        proof {
            assert(tail@ =~= self.rbuf@.subrange(amt as int, self.rbuf@.len() as int));
        }
        self.rbuf = tail;
        proof {
            if self.rbuf@.len() > 0 {
                assert(self.rbuf@ =~= self.inner.data@.subrange(
                    self.inner.pos - self.rbuf@.len(),
                    self.inner.pos as int,
                ));
            }
        }
    }

    /// Closing is always forwarded and never implies a flush: writes still
    /// buffered in this handle are not made durable by closing it.
    pub fn close(&mut self) -> (r: Result<(), Error>)
        ensures
            r == Ok::<(), Error>(()),
            *final(self) == *old(self),
    {
        Ok(())
    }

    /// One truncate-or-extend call on the descriptor, after flushing the
    /// pending writes.
    pub fn set_len(&mut self, size: u64) -> (r: Result<(), Error>)
        requires
            old(self).wf(),
            old(self).flushes() < u64::MAX,
            size <= usize::MAX,
        ensures
            final(self).wf(),
            r == Ok::<(), Error>(()),
            final(self).data() == crate::raw_file::resize_bytes(old(self).data(), size as int),
            final(self).os_data() == final(self).data(),
            final(self).pos() == old(self).pos() + old(self).rbuf_len(),
            final(self).rbuf_len() == 0,
            final(self).wbuf_len() == 0,
            final(self).flushes() == old(self).flushes() + 1,
            final(self).syncs() == old(self).syncs(),
            final(self).seekable() == old(self).seekable(),
            final(self).append_mode() == old(self).append_mode(),
            final(self).perm() == old(self).perm(),
    {
        self.drain();
        self.rbuf.clear();
        self.flushes = self.flushes + 1;
        let _ = self.inner.set_len(size);
        Ok(())
    }

    /// One metadata query against the descriptor. It does not flush:
    /// writes still buffered in this handle are not reflected in the
    /// reported length.
    pub fn metadata(&self) -> (m: Metadata)
        ensures
            m.len == self.os_data().len(),
            !m.file_type.dir && !m.file_type.symlink,
            m.permissions == self.perm(),
    {
        self.inner.metadata()
    }

    /// One permission change against the descriptor.
    pub fn set_permissions(&mut self, perm: Permissions)
        requires
            old(self).wf(),
        ensures
            final(self).wf(),
            final(self).perm() == perm,
            final(self).data() == old(self).data(),
            final(self).os_data() == old(self).os_data(),
            final(self).pos() == old(self).pos(),
            final(self).rbuf_len() == old(self).rbuf_len(),
            final(self).wbuf_len() == old(self).wbuf_len(),
            final(self).flushes() == old(self).flushes(),
            final(self).syncs() == old(self).syncs(),
            final(self).seekable() == old(self).seekable(),
            final(self).append_mode() == old(self).append_mode(),
    {
        self.inner.set_permissions(perm);
    }
}

/// Writing `w` at `p` and then `b` right behind it is the same as writing
/// `w + b` at `p` in one go.
proof fn lemma_write_bytes_compose(d: Seq<u8>, p: int, w: Seq<u8>, b: Seq<u8>)
    requires
        0 <= p,
    ensures
        write_bytes(write_bytes(d, p, w), p + w.len(), b) =~= write_bytes(d, p, w + b),
{
    let lhs = write_bytes(write_bytes(d, p, w), p + w.len(), b);
    let rhs = write_bytes(d, p, w + b);
    assert(lhs.len() == rhs.len());
    assert forall|i: int| 0 <= i < lhs.len() implies lhs[i] == rhs[i] by {
        if p <= i < p + w.len() {
        } else if p + w.len() <= i < p + w.len() + b.len() {
        } else {
        }
    }
}

impl crate::traits::async_read::AsyncRead for BufFile {
    /// The handle may be polled for reading whenever it is coherent.
    open spec fn read_inv(&self) -> bool {
        self.wf()
    }

    fn poll_read(&mut self, max: usize) -> (r: PollResult<Result<Vec<u8>, Error>>)
        ensures
            final(self).wf(),
    {
        PollResult::Ready(Ok(BufFile::read(self, max)))
    }
}

impl crate::traits::async_buf_read::AsyncBufRead for BufFile {
    /// What [`BufFile::consume`] may consume: the parked read-ahead.
    open spec fn buffered_len(&self) -> int {
        self.rbuf_len()
    }

    fn poll_fill_buf(&mut self) -> (r: PollResult<Result<Vec<u8>, Error>>)
        ensures
            final(self).wf(),
            r matches PollResult::Ready(q) && q matches Ok(b) ==> b@ == final(self).buffered(),
    {
        PollResult::Ready(Ok(BufFile::fill_buf(self)))
    }

    fn consume(&mut self, amt: usize)
        ensures
            final(self).wf(),
    {
        BufFile::consume(self, amt)
    }
}

} // verus!
