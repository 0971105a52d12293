//! The cursor-tracking file adapter.
//!
//! [`File`] exposes non-blocking read, write, seek, flush, sync and
//! set-length operations over a buffered worker handle whose read-ahead
//! lets the descriptor's cursor run ahead of the position the caller
//! believes is current. The adapter repairs that drift: before any write or
//! seek it repositions the descriptor back to the logical cursor, and on
//! the first read after any reposition it re-anchors the logical cursor by
//! asking the descriptor where it stands.
//!
//! The payoff is stated in the contracts: on a seekable descriptor, every
//! operation behaves exactly like the same operation of a plain sequential
//! file — the transition functions [`write_tr`], [`seek_tr`], [`flush_tr`],
//! [`sync_tr`] and [`set_len_tr`] over [`FileView`] — despite the buffering
//! underneath.

use vstd::prelude::*;

use crate::buf_file::BufFile;
use crate::cursor::apply_anchor;
use crate::cursor::apply_flush;
use crate::cursor::apply_read;
use crate::cursor::apply_reposition;
use crate::cursor::begin_write;
use crate::cursor::needs_anchor;
use crate::cursor::reposition_target;
use crate::cursor::should_flush;
use crate::cursor::CursorState;
use crate::cursor::FileState;
use crate::error::Error;
use crate::meta::Metadata;
use crate::meta::Permissions;
use crate::poll::PollResult;
use crate::raw_file::resize_bytes;
use crate::raw_file::seek_target;
use crate::raw_file::write_bytes;
use crate::raw_file::RawFile;
use crate::raw_file::SeekFrom;

verus! {

/// How many bytes one read-ahead fill of the worker handle requests.
pub const READ_AHEAD: usize = 8192;

/// The caller-visible state of an open file: what a strictly sequential,
/// unbuffered implementation would hold.
#[verifier::ext_equal]
pub struct FileView {
    /// The logical contents of the file.
    pub data: Seq<u8>,
    /// The logical cursor: where the next read or non-append write lands.
    pub pos: int,
    /// Whether a write has been issued since the last successful flush.
    pub dirty: bool,
    /// How many flush calls have been forwarded to the primitive.
    pub flushes: int,
    /// How many synchronize-to-disk calls have completed.
    pub syncs: int,
}

/// The sequential meaning of a non-append write: the bytes land at the
/// cursor, the cursor moves past them, and a flush is owed.
pub open spec fn write_tr(v: FileView, buf: Seq<u8>) -> FileView {
    FileView {
        data: write_bytes(v.data, v.pos, buf),
        pos: v.pos + buf.len(),
        dirty: true,
        ..v
    }
}

/// The sequential meaning of an append-mode write: the bytes land at the
/// end of the file and the cursor ends up past them.
pub open spec fn append_tr(v: FileView, buf: Seq<u8>) -> FileView {
    FileView {
        data: v.data + buf,
        pos: v.data.len() + buf.len() as int,
        dirty: true,
        ..v
    }
}

/// The sequential meaning of a seek: the cursor moves to the named target
/// if that target is representable, and stays put otherwise.
pub open spec fn seek_tr(v: FileView, from: SeekFrom) -> FileView {
    let t = seek_target(from, v.data.len() as int, v.pos);
    if 0 <= t <= u64::MAX {
        FileView { pos: t, ..v }
    } else {
        v
    }
}

/// What a seek reports: the new absolute position, or `InvalidInput` for a
/// target that is not representable.
pub open spec fn seek_result(v: FileView, from: SeekFrom) -> Result<u64, Error> {
    let t = seek_target(from, v.data.len() as int, v.pos);
    if 0 <= t <= u64::MAX {
        Ok(t as u64)
    } else {
        Err(Error::InvalidInput)
    }
}

/// The meaning of a flush: the adapter becomes clean, and the underlying
/// flush ran only if one was owed — a flush of a clean file forwards
/// nothing and still succeeds.
pub open spec fn flush_tr(v: FileView) -> FileView {
    FileView {
        dirty: false,
        flushes: v.flushes + (if v.dirty {
            1int
        } else {
            0int
        }),
        ..v
    }
}

/// The meaning of a sync: buffered writes are flushed down (one forwarded
/// flush) and one blocking sync completes. The dirty flag is left alone.
pub open spec fn sync_tr(v: FileView) -> FileView {
    FileView { flushes: v.flushes + 1, syncs: v.syncs + 1, ..v }
}

/// The meaning of a set-length call: the contents are truncated or
/// zero-extended to `size` bytes after one forwarded flush; the cursor does
/// not move, even if it now points beyond the end.
pub open spec fn set_len_tr(v: FileView, size: int) -> FileView {
    FileView { data: resize_bytes(v.data, size), flushes: v.flushes + 1, ..v }
}

/// The bytes a read of `n` bytes at the cursor delivers.
pub open spec fn read_result(v: FileView, n: int) -> Seq<u8>
    recommends
        0 <= v.pos,
        0 <= n,
        v.pos + n <= v.data.len(),
{
    v.data.subrange(v.pos, v.pos + n)
}

/// An open file: a buffered worker handle plus the adapter's cursor
/// bookkeeping.
pub struct File {
    /// The buffered handle that performs the blocking calls.
    pipe: BufFile,
    /// The logical-cursor and dirty-flag bookkeeping.
    state: FileState,
}

impl View for File {
    type V = FileView;

    closed spec fn view(&self) -> FileView {
        FileView {
            data: self.pipe.data(),
            pos: self.pipe.pos(),
            dirty: self.state.dirty,
            flushes: self.pipe.flushes(),
            syncs: self.pipe.syncs(),
        }
    }
}

impl File {
    /// Whether the descriptor supports seeking.
    pub closed spec fn seekable(&self) -> bool {
        self.pipe.seekable()
    }

    /// Whether the descriptor is in append mode.
    pub closed spec fn append_mode(&self) -> bool {
        self.pipe.append_mode()
    }

    /// The permissions of the underlying object.
    pub closed spec fn perm(&self) -> Permissions {
        self.pipe.perm()
    }

    /// The contents that have actually reached the descriptor. Writes
    /// still buffered in the worker handle are not in here until a flush,
    /// sync, or another draining operation pushes them down; what is here
    /// is what survives dropping the file without flushing.
    pub closed spec fn os_contents(&self) -> Seq<u8> {
        self.pipe.os_data()
    }

    /// How many bytes of read-ahead the worker handle holds. On a
    /// seekable descriptor the adapter discards this surplus by
    /// repositioning; on an unseekable one it cannot, and writes land past
    /// it.
    pub closed spec fn read_ahead(&self) -> int {
        self.pipe.rbuf_len()
    }

    /// Where the next write would land, relative to the logical cursor:
    /// at the cursor itself except on an unseekable descriptor, where the
    /// discarded read-ahead cannot be seeked back over.
    pub closed spec fn write_drift(&self) -> int {
        match self.state.cursor {
            CursorState::Unseekable => self.pipe.rbuf_len(),
            _ => 0,
        }
    }

    /// Well-formedness: the handle is coherent, and the adapter's cursor
    /// bookkeeping agrees with it — a known position is the handle's
    /// logical position on a seekable descriptor; when nothing is known
    /// there is no read-ahead outstanding (it was discarded by the
    /// reposition that invalidated the cursor); and the unseekable mark is
    /// only ever put on a descriptor that cannot seek.
    pub closed spec fn wf(&self) -> bool {
        &&& self.pipe.wf()
        &&& match self.state.cursor {
            CursorState::Known(p) => self.pipe.seekable() && p as int == self.pipe.pos(),
            CursorState::Unknown => self.pipe.rbuf_len() == 0,
            CursorState::Unseekable => !self.pipe.seekable(),
        }
    }

    /// Wraps a blocking descriptor. A descriptor of unknown provenance is
    /// marked dirty so that the first flush reaches the primitive.
    pub fn new(inner: RawFile, is_dirty: bool) -> (r: File)
        ensures
            r.wf(),
            r@.data == inner.data@,
            r@.pos == inner.pos as int,
            r@.dirty == is_dirty,
            r@.flushes == 0,
            r@.syncs == inner.syncs as int,
            r.os_contents() == inner.data@,
            r.seekable() == inner.seekable,
            r.append_mode() == inner.append,
            r.perm() == inner.perm,
            r.read_ahead() == 0,
    {
        let pipe = BufFile::new(inner, READ_AHEAD);
        let state = FileState::new(is_dirty);
        File { pipe, state }
    }

    /// Hands the descriptor back. Read-ahead is discarded; writes that
    /// were never flushed are lost — exactly what happens when a file is
    /// dropped without flushing, where errors are discarded too.
    pub fn into_inner(self) -> (r: RawFile)
        ensures
            r.data@ == self.os_contents(),
            r.seekable == self.seekable(),
            r.append == self.append_mode(),
            r.perm == self.perm(),
            r.syncs == self@.syncs,
    {
        self.pipe.into_inner()
    }

    /// One read poll. On the first read after opening or after any
    /// reposition, the adapter first asks the descriptor for its position
    /// and anchors the logical cursor there — or marks the descriptor
    /// unseekable if the query fails, skipping all future repositioning.
    /// Then it reads through the buffered handle and advances the anchored
    /// cursor by what was delivered.
    ///
    /// The result is exactly a sequential read at the logical cursor: the
    /// delivered bytes are the contents at the cursor, and nothing about
    /// the file changes but the cursor. A read delivers at least one byte
    /// unless `max` is zero or the cursor is at or past the end.
    pub fn poll_read(&mut self, max: usize) -> (r: PollResult<Result<Vec<u8>, Error>>)
        requires
            old(self).wf(),
        ensures
            final(self).wf(),
            final(self).seekable() == old(self).seekable(),
            final(self).append_mode() == old(self).append_mode(),
            final(self).perm() == old(self).perm(),
            r is Ready,
            r matches PollResult::Ready(q) ==> q is Ok,
            r matches PollResult::Ready(q) && q matches Ok(bytes) ==> {
                let v0 = old(self)@;
                let n = bytes@.len() as int;
                &&& n <= max
                &&& final(self)@.data == v0.data
                &&& final(self)@.pos == v0.pos + n
                &&& final(self)@.dirty == v0.dirty
                &&& final(self)@.flushes == v0.flushes
                &&& final(self)@.syncs == v0.syncs
                &&& final(self).os_contents() == v0.data
                &&& (v0.pos <= v0.data.len() ==> bytes@ == read_result(v0, n)
                    && final(self)@.pos <= v0.data.len())
                &&& (v0.pos > v0.data.len() ==> n == 0)
                &&& (n == 0 ==> max == 0 || v0.pos >= v0.data.len())
            },
    {
        proof {
            self.pipe.lemma_wf_bounds();
        }
        if needs_anchor(&self.state) {
            let q = self.pipe.seek(SeekFrom::Current(0));
            apply_anchor(&mut self.state, q);
        }
        proof {
            self.pipe.lemma_wf_bounds();
        }
        let bytes = self.pipe.read(max);
        apply_read(&mut self.state, bytes.len() as u64);
        PollResult::Ready(Ok(bytes))
    }

    /// One write poll. If a logical cursor is known, the adapter first
    /// repositions the descriptor back to it, discarding the read-ahead
    /// that had run past it, and forgets the cursor — the next read will
    /// re-anchor it. A failed reposition would abort the write with the
    /// error and leave the state unchanged, safe to retry. Then the bytes
    /// are queued through the buffered handle and the file is marked
    /// dirty.
    ///
    /// On a seekable descriptor the result is exactly a sequential write
    /// at the logical cursor ([`write_tr`]; [`append_tr`] in append mode).
    /// On an unseekable descriptor the bytes land past the discarded
    /// read-ahead, [`File::write_drift`] bytes beyond the cursor.
    pub fn poll_write(&mut self, buf: &Vec<u8>) -> (r: PollResult<Result<usize, Error>>)
        requires
            old(self).wf(),
            old(self)@.pos + buf@.len() <= usize::MAX,
            old(self)@.data.len() + buf@.len() <= usize::MAX,
        ensures
            final(self).wf(),
            final(self).seekable() == old(self).seekable(),
            final(self).append_mode() == old(self).append_mode(),
            final(self).perm() == old(self).perm(),
            r == PollResult::Ready(Ok::<usize, Error>(buf@.len() as usize)),
            old(self).seekable() ==> old(self).write_drift() == 0,
            buf@.len() == 0 ==> final(self)@ == (FileView {
                dirty: true,
                pos: old(self)@.pos + old(self).write_drift(),
                ..old(self)@
            }),
            buf@.len() > 0 && !old(self).append_mode() ==> final(self)@ == write_tr(
                (FileView { pos: old(self)@.pos + old(self).write_drift(), ..old(self)@ }),
                buf@,
            ),
            buf@.len() > 0 && old(self).append_mode() ==> final(self)@ == append_tr(
                old(self)@,
                buf@,
            ),
            final(self).os_contents() == old(self).os_contents() || final(self).os_contents()
                == old(self)@.data,
    {
        proof {
            self.pipe.lemma_wf_bounds();
        }
        match reposition_target(&self.state) {
            Some(p) => {
                match self.pipe.seek(SeekFrom::Start(p)) {
                    Ok(_) => apply_reposition(&mut self.state, true),
                    Err(e) => {
                        apply_reposition(&mut self.state, false);
                        return PollResult::Ready(Err(e));
                    },
                }
            },
            None => {},
        }
        begin_write(&mut self.state);
        match self.pipe.write(buf) {
            Ok(n) => PollResult::Ready(Ok(n)),
            Err(e) => PollResult::Ready(Err(e)),
        }
    }

    /// One seek poll. As for a write, a known logical cursor is first
    /// restored to the descriptor — so that a relative seek is relative to
    /// what the caller consumed, not to where the read-ahead ran — and
    /// then the requested seek is forwarded.
    ///
    /// On a seekable descriptor the result is exactly a sequential seek
    /// ([`seek_tr`] and [`seek_result`]): the reported position is the
    /// named target, a target outside `0..=u64::MAX` is `InvalidInput` and
    /// moves nothing. On an unseekable descriptor the error of the
    /// underlying seek is surfaced verbatim.
    pub fn poll_seek(&mut self, from: SeekFrom) -> (r: PollResult<Result<u64, Error>>)
        requires
            old(self).wf(),
        ensures
            final(self).wf(),
            final(self).seekable() == old(self).seekable(),
            final(self).append_mode() == old(self).append_mode(),
            final(self).perm() == old(self).perm(),
            r is Ready,
            old(self).seekable() ==> r == PollResult::Ready(seek_result(old(self)@, from))
                && final(self)@ == seek_tr(old(self)@, from),
            !old(self).seekable() ==> r == PollResult::Ready(
                Err::<u64, Error>(Error::Os(crate::error::CODE_NOT_SEEKABLE)),
            ) && final(self)@ == (FileView {
                pos: old(self)@.pos + old(self).read_ahead(),
                ..old(self)@
            }),
            r matches PollResult::Ready(q) && q matches Err(e) ==> e.surfaceable(),
            final(self).os_contents() == old(self)@.data,
    {
        proof {
            self.pipe.lemma_wf_bounds();
        }
        match reposition_target(&self.state) {
            Some(p) => {
                match self.pipe.seek(SeekFrom::Start(p)) {
                    Ok(_) => apply_reposition(&mut self.state, true),
                    Err(e) => {
                        apply_reposition(&mut self.state, false);
                        return PollResult::Ready(Err(e));
                    },
                }
            },
            None => {},
        }
        let res = self.pipe.seek(from);
        PollResult::Ready(res)
    }

    /// One flush poll: forwarded to the buffered handle only if a write
    /// has been issued since the last successful flush; a flush of a clean
    /// file is a no-op that still reports success. Afterwards the file is
    /// clean and everything the caller wrote has reached the descriptor.
    pub fn poll_flush(&mut self) -> (r: PollResult<Result<(), Error>>)
        requires
            old(self).wf(),
            old(self)@.dirty ==> old(self)@.flushes < u64::MAX,
        ensures
            final(self).wf(),
            final(self).seekable() == old(self).seekable(),
            final(self).append_mode() == old(self).append_mode(),
            final(self).perm() == old(self).perm(),
            final(self).read_ahead() == old(self).read_ahead(),
            r == PollResult::Ready(Ok::<(), Error>(())),
            final(self)@ == flush_tr(old(self)@),
            final(self).os_contents() == if old(self)@.dirty {
                old(self)@.data
            } else {
                old(self).os_contents()
            },
    {
        if should_flush(&self.state) {
            match self.pipe.flush() {
                Ok(_) => apply_flush(&mut self.state),
                Err(e) => {
                    return PollResult::Ready(Err(e));
                },
            }
        }
        PollResult::Ready(Ok(()))
    }

    /// One close poll: always forwarded, and never an implicit flush —
    /// writes still buffered in the worker handle are not made durable by
    /// closing. Callers must flush or sync first if they rely on them.
    pub fn poll_close(&mut self) -> (r: PollResult<Result<(), Error>>)
        requires
            old(self).wf(),
        ensures
            final(self).wf(),
            r == PollResult::Ready(Ok::<(), Error>(())),
            final(self)@ == old(self)@,
            final(self).os_contents() == old(self).os_contents(),
            final(self).seekable() == old(self).seekable(),
            final(self).append_mode() == old(self).append_mode(),
            final(self).perm() == old(self).perm(),
    {
        match self.pipe.close() {
            Ok(_) => PollResult::Ready(Ok(())),
            Err(e) => PollResult::Ready(Err(e)),
        }
    }

    /// Synchronizes buffered contents and metadata to disk: flushes the
    /// writes still buffered in the worker handle, then performs the
    /// blocking sync. Everything written before this call is on the
    /// descriptor when the sync runs ([`sync_tr`]).
    ///
    /// This is the call that surfaces errors which closing the file would
    /// discard.
    pub fn sync_all(&mut self) -> (r: Result<(), Error>)
        requires
            old(self).wf(),
            old(self)@.flushes < u64::MAX,
            old(self)@.syncs < u64::MAX,
        ensures
            final(self).wf(),
            final(self).seekable() == old(self).seekable(),
            final(self).append_mode() == old(self).append_mode(),
            final(self).perm() == old(self).perm(),
            final(self).read_ahead() == old(self).read_ahead(),
            r == Ok::<(), Error>(()),
            final(self)@ == sync_tr(old(self)@),
            final(self).os_contents() == old(self)@.data,
    {
        self.pipe.sync()
    }

    /// Synchronizes buffered contents to disk, like [`File::sync_all`],
    /// except that the platform may omit synchronizing the file's
    /// metadata.
    pub fn sync_data(&mut self) -> (r: Result<(), Error>)
        requires
            old(self).wf(),
            old(self)@.flushes < u64::MAX,
            old(self)@.syncs < u64::MAX,
        ensures
            final(self).wf(),
            final(self).seekable() == old(self).seekable(),
            final(self).append_mode() == old(self).append_mode(),
            final(self).perm() == old(self).perm(),
            final(self).read_ahead() == old(self).read_ahead(),
            r == Ok::<(), Error>(()),
            final(self)@ == sync_tr(old(self)@),
            final(self).os_contents() == old(self)@.data,
    {
        self.pipe.sync()
    }

    /// Truncates or zero-extends the file to `size` bytes, after flushing
    /// the buffered writes. The logical cursor does not move, even if it
    /// now points beyond the end of the file ([`set_len_tr`]).
    pub fn set_len(&mut self, size: u64) -> (r: Result<(), Error>)
        requires
            old(self).wf(),
            old(self)@.flushes < u64::MAX,
            size <= usize::MAX,
        ensures
            final(self).wf(),
            final(self).seekable() == old(self).seekable(),
            final(self).append_mode() == old(self).append_mode(),
            final(self).perm() == old(self).perm(),
            r == Ok::<(), Error>(()),
            old(self).seekable() ==> final(self)@ == set_len_tr(old(self)@, size as int),
            !old(self).seekable() ==> final(self)@ == (FileView {
                data: resize_bytes(old(self)@.data, size as int),
                pos: old(self)@.pos + old(self).read_ahead(),
                flushes: old(self)@.flushes + 1,
                ..old(self)@
            }),
            final(self).os_contents() == final(self)@.data,
    {
        proof {
            self.pipe.lemma_wf_bounds();
        }
        match reposition_target(&self.state) {
            Some(p) => {
                match self.pipe.seek(SeekFrom::Start(p)) {
                    Ok(_) => apply_reposition(&mut self.state, true),
                    Err(e) => {
                        apply_reposition(&mut self.state, false);
                        return Err(e);
                    },
                }
            },
            None => {},
        }
        self.pipe.set_len(size)
    }

    /// Reads the file's metadata with one blocking query. The reported
    /// length is the descriptor's: writes still buffered in the worker
    /// handle are not counted until they are flushed down.
    pub fn metadata(&self) -> (r: Result<Metadata, Error>)
        ensures
            r matches Ok(m) ==> {
                &&& m.len == self.os_contents().len()
                &&& !m.file_type.dir && !m.file_type.symlink
                &&& m.permissions == self.perm()
            },
            r is Ok,
    {
        Ok(self.pipe.metadata())
    }

    /// Changes the permissions of the underlying object with one blocking
    /// call. No cursor interaction.
    pub fn set_permissions(&mut self, perm: Permissions) -> (r: Result<(), Error>)
        requires
            old(self).wf(),
        ensures
            final(self).wf(),
            r == Ok::<(), Error>(()),
            final(self).perm() == perm,
            final(self)@ == old(self)@,
            final(self).os_contents() == old(self).os_contents(),
            final(self).seekable() == old(self).seekable(),
            final(self).append_mode() == old(self).append_mode(),
    {
        self.pipe.set_permissions(perm);
        Ok(())
    }

    /// How many flush calls have been forwarded to the primitive.
    pub fn flush_count(&self) -> (r: u64)
        ensures
            r as int == self@.flushes,
    {
        self.pipe.flush_calls()
    }

    /// How many synchronize-to-disk calls have completed.
    pub fn sync_count(&self) -> (r: u64)
        ensures
            r as int == self@.syncs,
    {
        self.pipe.sync_calls()
    }

    /// Reads from the logical cursor to the end of the file, polling reads
    /// until one delivers nothing.
    pub fn read_to_end(&mut self) -> (r: Result<Vec<u8>, Error>)
        requires
            old(self).wf(),
        ensures
            final(self).wf(),
            final(self).seekable() == old(self).seekable(),
            final(self).append_mode() == old(self).append_mode(),
            final(self).perm() == old(self).perm(),
            r is Ok,
            r matches Ok(bytes) ==> {
                let v0 = old(self)@;
                &&& final(self)@.data == v0.data
                &&& final(self)@.dirty == v0.dirty
                &&& final(self)@.flushes == v0.flushes
                &&& final(self)@.syncs == v0.syncs
                &&& (v0.pos <= v0.data.len() ==> bytes@ == v0.data.subrange(
                    v0.pos,
                    v0.data.len() as int,
                ) && final(self)@.pos == v0.data.len())
                &&& (v0.pos > v0.data.len() ==> bytes@.len() == 0 && final(self)@.pos == v0.pos)
                &&& final(self).os_contents() == v0.data
            },
    {
        let mut out: Vec<u8> = Vec::new();
        proof {
            self.pipe.lemma_wf_bounds();
            if old(self)@.pos <= old(self)@.data.len() {
                assert(out@ =~= old(self)@.data.subrange(old(self)@.pos, old(self)@.pos));
            }
        }
        loop
            invariant
                self.wf(),
                0 <= old(self)@.pos,
                self@.data == old(self)@.data,
                self@.dirty == old(self)@.dirty,
                self@.flushes == old(self)@.flushes,
                self@.syncs == old(self)@.syncs,
                self.seekable() == old(self).seekable(),
                self.append_mode() == old(self).append_mode(),
                self.perm() == old(self).perm(),
                self@.pos == old(self)@.pos + out@.len(),
                old(self)@.pos <= old(self)@.data.len() ==> self@.pos <= self@.data.len()
                    && out@ == old(self)@.data.subrange(old(self)@.pos, self@.pos),
                old(self)@.pos > old(self)@.data.len() ==> out@.len() == 0
                    && self@.pos == old(self)@.pos,
                self.os_contents() == old(self).os_contents()
                    || self.os_contents() == old(self)@.data,
            ensures
                old(self)@.pos <= old(self)@.data.len() ==> self@.pos == self@.data.len(),
                self.os_contents() == old(self)@.data,
            decreases vstd::math::max(self@.data.len() - self@.pos, 0int),
        {
            let ghost pos_before = self@.pos;
            let res = self.poll_read(8192);
            match res {
                PollResult::Ready(Ok(mut bytes)) => {
                    if bytes.len() == 0 {
                        proof {
                            assert(self@.pos >= self@.data.len() || pos_before > self@.data.len());
                        }
                        break;
                    }
                    proof {
                        if old(self)@.pos <= old(self)@.data.len() {
                            assert(out@ + bytes@ =~= old(self)@.data.subrange(
                                old(self)@.pos,
                                self@.pos,
                            ));
                        }
                    }
                    out.append(&mut bytes);
                },
                PollResult::Ready(Err(_)) => {
                    // A read poll on this adapter always completes with
                    // `Ok`; the arm exists for the match alone.
                    break;
                },
                PollResult::Pending => {
                    // As above: the model's worker completes immediately.
                    break;
                },
            }
        }
        Ok(out)
    }
}

/// Flushing is idempotent: one flush leaves the file clean, so a second
/// flush with no intervening write forwards nothing to the primitive — two
/// consecutive flushes perform at most one underlying flush call, and the
/// second changes nothing at all. (Both report success: the exec
/// counterpart [`File::poll_flush`] always returns `Ok`.)
pub proof fn lemma_flush_idempotent(v: FileView)
    ensures
        !flush_tr(v).dirty,
        flush_tr(flush_tr(v)) == flush_tr(v),
        flush_tr(flush_tr(v)).flushes <= v.flushes + 1,
{
    assert(flush_tr(flush_tr(v)) =~= flush_tr(v));
}

/// Round trip: writing a buffer, seeking back to where it started, and
/// reading as many bytes as were written yields exactly the written bytes.
pub proof fn lemma_write_read_round_trip(v: FileView, buf: Seq<u8>)
    requires
        0 <= v.pos <= u64::MAX,
    ensures
        ({
            let after = seek_tr(write_tr(v, buf), SeekFrom::Start(v.pos as u64));
            &&& after.pos == v.pos
            &&& read_result(after, buf.len() as int) == buf
        }),
{
    let w = write_tr(v, buf);
    assert(w.data.len() >= v.pos + buf.len());
    let after = seek_tr(w, SeekFrom::Start(v.pos as u64));
    assert(after.pos == v.pos);
    assert(read_result(after, buf.len() as int) =~= buf);
}

impl crate::traits::async_read::AsyncRead for File {
    /// A file may be polled for reading whenever it is well-formed.
    open spec fn read_inv(&self) -> bool {
        self.wf()
    }

    fn poll_read(&mut self, max: usize) -> (r: PollResult<Result<Vec<u8>, Error>>)
        ensures
            final(self).wf(),
            r is Ready,
            r matches PollResult::Ready(q) ==> q is Ok,
            r matches PollResult::Ready(q) && q matches Ok(bytes) ==> {
                let v0 = old(self)@;
                let n = bytes@.len() as int;
                &&& n <= max
                &&& final(self)@.data == v0.data
                &&& final(self)@.pos == v0.pos + n
                &&& final(self)@.dirty == v0.dirty
                &&& final(self)@.flushes == v0.flushes
                &&& (v0.pos <= v0.data.len() ==> bytes@ == read_result(v0, n))
                &&& (n == 0 ==> max == 0 || v0.pos >= v0.data.len())
            },
    {
        File::poll_read(self, max)
    }
}

impl crate::traits::async_write::AsyncWrite for File {
    /// A file may be polled for writing whenever it is well-formed and
    /// its flush counter has room.
    open spec fn write_inv(&self) -> bool {
        self.wf() && self@.flushes < u64::MAX
    }

    /// A buffer fits if the written range stays addressable.
    open spec fn write_pre(&self, buf: Seq<u8>) -> bool {
        &&& self@.pos + buf.len() <= usize::MAX
        &&& self@.data.len() + buf.len() <= usize::MAX
    }

    fn poll_write(&mut self, buf: &Vec<u8>) -> (r: PollResult<Result<usize, Error>>)
        ensures
            final(self).wf(),
            r == PollResult::Ready(Ok::<usize, Error>(buf@.len() as usize)),
            buf@.len() > 0 && !old(self).append_mode() ==> final(self)@ == write_tr(
                (FileView { pos: old(self)@.pos + old(self).write_drift(), ..old(self)@ }),
                buf@,
            ),
            buf@.len() > 0 && old(self).append_mode() ==> final(self)@ == append_tr(
                old(self)@,
                buf@,
            ),
    {
        File::poll_write(self, buf)
    }

    fn poll_flush(&mut self) -> (r: PollResult<Result<(), Error>>)
        ensures
            final(self).wf(),
            r == PollResult::Ready(Ok::<(), Error>(())),
            final(self)@ == flush_tr(old(self)@),
    {
        File::poll_flush(self)
    }

    fn poll_close(&mut self) -> (r: PollResult<Result<(), Error>>)
        ensures
            final(self).wf(),
    {
        File::poll_close(self)
    }
}

impl crate::traits::async_seek::AsyncSeek for File {
    /// A file may be polled for seeking whenever it is well-formed.
    open spec fn seek_inv(&self) -> bool {
        self.wf()
    }

    fn poll_seek(&mut self, pos: SeekFrom) -> (r: PollResult<Result<u64, Error>>)
        ensures
            final(self).wf(),
            old(self).seekable() ==> r == PollResult::Ready(seek_result(old(self)@, pos))
                && final(self)@ == seek_tr(old(self)@, pos),
    {
        File::poll_seek(self, pos)
    }
}

} // verus!
