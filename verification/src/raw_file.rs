//! A model of the blocking filesystem primitive: a byte store with one
//! cursor, advanced by reads and writes and moved by seeks.
//!
//! Every operation here stands for one blocking call against the operating
//! system. The adapter in [`crate::file`] never performs these calls on the
//! caller's task; an embedding offloads them to a worker pool. `Interrupted`
//! results are retried inside the blocking call, so no operation here ever
//! reports them.

use vstd::prelude::*;

use crate::error::CODE_NOT_SEEKABLE;
use crate::error::Error;
use crate::meta::FileType;
use crate::meta::Metadata;
use crate::meta::Permissions;

verus! {

/// A position to seek to, relative to the start, the end, or the current
/// position of a file.
#[derive(Clone, Copy, Debug, PartialEq, Eq, Structural)]
pub enum SeekFrom {
    /// An offset from the start of the file.
    Start(u64),
    /// A signed offset from the end of the file.
    End(i64),
    /// A signed offset from the current cursor position.
    Current(i64),
}

/// The position that a seek names, given the length of the file and the
/// current cursor position. A seek fails if and only if this is negative or
/// exceeds `u64::MAX`.
pub open spec fn seek_target(from: SeekFrom, len: int, pos: int) -> int {
    match from {
        SeekFrom::Start(n) => n as int,
        SeekFrom::End(d) => len + d,
        SeekFrom::Current(d) => pos + d,
    }
}

/// The contents of a file after writing `buf` at position `pos`: bytes below
/// `pos` are kept, a gap between the old end and `pos` is filled with
/// zeroes, and bytes beyond the written range are kept.
pub open spec fn write_bytes(data: Seq<u8>, pos: int, buf: Seq<u8>) -> Seq<u8>
    recommends
        0 <= pos,
{
    Seq::new(
        if pos + buf.len() > data.len() {
            (pos + buf.len()) as nat
        } else {
            data.len()
        },
        |i: int|
            if pos <= i < pos + buf.len() {
                buf[i - pos]
            } else if i < data.len() {
                data[i]
            } else {
                0u8
            },
    )
}

/// The contents of a file after truncating or zero-extending it to `size`
/// bytes.
pub open spec fn resize_bytes(data: Seq<u8>, size: int) -> Seq<u8>
    recommends
        0 <= size,
{
    Seq::new(
        size as nat,
        |i: int| if i < data.len() { data[i] } else { 0u8 },
    )
}

/// One open descriptor of the blocking primitive.
///
/// The fields are public: this type has no hidden invariant, and an
/// embedding or a test may set up any descriptor state directly.
pub struct RawFile {
    /// The contents of the file.
    pub data: Vec<u8>,
    /// The descriptor's cursor. It may point beyond the end of the data;
    /// a write there fills the gap with zeroes.
    pub pos: u64,
    /// Whether the descriptor supports seeking. A pipe-like stream does
    /// not; every seek on it fails and leaves it unchanged.
    pub seekable: bool,
    /// Whether the descriptor was opened in append mode, in which case
    /// every write lands at the end of the file regardless of the cursor.
    pub append: bool,
    /// The permissions of the underlying object.
    pub perm: Permissions,
    /// How many synchronize-to-disk calls have completed on this
    /// descriptor.
    pub syncs: u64,
}

impl RawFile {
    /// The position at which the next write lands.
    pub open spec fn write_pos(self) -> int {
        if self.append {
            self.data@.len() as int
        } else {
            self.pos as int
        }
    }

    /// This descriptor with its cursor replaced.
    pub open spec fn with_pos(self, pos: u64) -> RawFile {
        RawFile { pos, ..self }
    }

    /// A seekable descriptor over the given contents, with the cursor at
    /// the start.
    pub fn new(data: Vec<u8>) -> (r: RawFile)
        ensures
            r == (RawFile {
                data,
                pos: 0u64,
                seekable: true,
                append: false,
                perm: Permissions { read_only: false },
                syncs: 0u64,
            }),
    {
        RawFile {
            data,
            pos: 0,
            seekable: true,
            append: false,
            perm: Permissions { read_only: false },
            syncs: 0,
        }
    }

    /// A non-seekable, pipe-like descriptor over the given contents.
    pub fn stream(data: Vec<u8>) -> (r: RawFile)
        ensures
            r == (RawFile {
                data,
                pos: 0u64,
                seekable: false,
                append: false,
                perm: Permissions { read_only: false },
                syncs: 0u64,
            }),
    {
        RawFile {
            data,
            pos: 0,
            seekable: false,
            append: false,
            perm: Permissions { read_only: false },
            syncs: 0,
        }
    }

    /// One blocking seek. Fails on a non-seekable descriptor and on a
    /// target outside `0..=u64::MAX`, leaving the descriptor unchanged;
    /// otherwise moves the cursor to the target and returns it.
    pub fn seek(&mut self, from: SeekFrom) -> (r: Result<u64, Error>)
        ensures
            !old(self).seekable ==> {
                &&& r == Err::<u64, Error>(Error::Os(CODE_NOT_SEEKABLE))
                &&& *final(self) == *old(self)
            },
            old(self).seekable ==> {
                let t = seek_target(from, old(self).data@.len() as int, old(self).pos as int);
                if 0 <= t <= u64::MAX {
                    &&& r == Ok::<u64, Error>(t as u64)
                    &&& *final(self) == old(self).with_pos(t as u64)
                } else {
                    &&& r == Err::<u64, Error>(Error::InvalidInput)
                    &&& *final(self) == *old(self)
                }
            },
    {
        if !self.seekable {
            return Err(Error::Os(CODE_NOT_SEEKABLE));
        }
        let len_wide: i128 = self.data.len() as i128;
        let target: i128 = match from {
            SeekFrom::Start(n) => n as i128,
            SeekFrom::End(d) => len_wide + d as i128,
            SeekFrom::Current(d) => self.pos as i128 + d as i128,
        };
        if target < 0 || target > u64::MAX as i128 {
            return Err(Error::InvalidInput);
        }
        self.pos = target as u64;
        Ok(self.pos)
    }

    /// One blocking read at the cursor: delivers the next bytes of the
    /// file, as many as are available up to `max`, and advances the cursor
    /// past them. At or beyond the end of the file it delivers nothing.
    #[verifier::loop_isolation(false)]
    pub fn read(&mut self, max: usize) -> (r: Vec<u8>)
        ensures
            *final(self) == old(self).with_pos(final(self).pos),
            final(self).pos == old(self).pos + r@.len(),
            old(self).pos <= old(self).data@.len() ==> r@ == old(self).data@.subrange(
                old(self).pos as int,
                old(self).pos + r@.len(),
            ),
            old(self).pos > old(self).data@.len() ==> r@ == Seq::<u8>::empty(),
            r@.len() == if old(self).pos + max <= old(self).data@.len() {
                max as int
            } else if old(self).pos < old(self).data@.len() {
                old(self).data@.len() - old(self).pos
            } else {
                0int
            },
    {
        let len = self.data.len();
        if self.pos >= len as u64 {
            let empty: Vec<u8> = Vec::new();
            proof {
                assert(empty@ =~= Seq::<u8>::empty());
                if old(self).pos <= old(self).data@.len() {
                    assert(empty@ =~= self.data@.subrange(self.pos as int, self.pos as int));
                }
            }
            return empty;
        }
        let start = self.pos as usize;
        let avail = len - start;
        let k = if max < avail {
            max
        } else {
            avail
        };
        let mut out: Vec<u8> = Vec::new();
        let mut i: usize = 0;
        while i < k
            invariant
                i <= k,
                out@ == self.data@.subrange(start as int, start + i),
            decreases k - i,
        {
            let b = self.data[start + i];
            out.push(b);
            proof {
                assert(out@ =~= self.data@.subrange(start as int, start + i + 1));
            }
            i = i + 1;
        }
        self.pos = self.pos + k as u64;
        out
    }

    /// One blocking write at the cursor (or, in append mode, at the end of
    /// the file): stores every byte of `buf`, zero-filling any gap between
    /// the old end of the file and the write position, and leaves the
    /// cursor just past the written range. The blocking primitive retries
    /// short writes internally, so the whole buffer is always written.
    #[verifier::loop_isolation(false)]
    pub fn write(&mut self, buf: &Vec<u8>) -> (r: Result<usize, Error>)
        requires
            old(self).write_pos() + buf@.len() <= usize::MAX,
        ensures
            r == Ok::<usize, Error>(buf@.len() as usize),
            final(self).data@ == write_bytes(old(self).data@, old(self).write_pos(), buf@),
            final(self).pos == old(self).write_pos() + buf@.len(),
            final(self).seekable == old(self).seekable,
            final(self).append == old(self).append,
            final(self).perm == old(self).perm,
            final(self).syncs == old(self).syncs,
    {
        let wp: usize = if self.append {
            self.data.len()
        } else {
            self.pos as usize
        };
        while self.data.len() < wp
            invariant
                old(self).data@.len() <= self.data@.len() <= vstd::math::max(
                    old(self).data@.len() as int,
                    wp as int,
                ),
                self.data@ == resize_bytes(old(self).data@, self.data@.len() as int),
                self.pos == old(self).pos,
                self.seekable == old(self).seekable,
                self.append == old(self).append,
                self.perm == old(self).perm,
                self.syncs == old(self).syncs,
            decreases wp - self.data@.len(),
        {
            self.data.push(0u8);
            proof {
                assert(self.data@ =~= resize_bytes(old(self).data@, self.data@.len() as int));
            }
        }
        proof {
            assert(self.data@.len() == vstd::math::max(old(self).data@.len() as int, wp as int));
        }
        let ghost padded = self.data@;
        let mut i: usize = 0;
        while i < buf.len()
            invariant
                i <= buf@.len(),
                self.data@.len() == vstd::math::max(
                    padded.len() as int,
                    wp + i,
                ),
                forall|j: int| 0 <= j < wp ==> self.data@[j] == padded[j],
                forall|j: int| wp <= j < wp + i ==> self.data@[j] == buf@[j - wp],
                forall|j: int| wp + i <= j < self.data@.len() ==> self.data@[j] == padded[j],
                self.pos == old(self).pos,
                self.seekable == old(self).seekable,
                self.append == old(self).append,
                self.perm == old(self).perm,
                self.syncs == old(self).syncs,
            decreases buf@.len() - i,
        {
            let b = buf[i];
            if wp + i < self.data.len() {
                self.data[wp + i] = b;
            } else {
                self.data.push(b);
            }
            i = i + 1;
        }
        proof {
            let ghost wb = write_bytes(old(self).data@, wp as int, buf@);
            assert(padded == resize_bytes(old(self).data@, padded.len() as int));
            assert(padded.len() == vstd::math::max(old(self).data@.len() as int, wp as int));
            assert(self.data@.len() == wb.len());
            assert forall|j: int| 0 <= j < self.data@.len() implies self.data@[j] == wb[j] by {
                if j < wp {
                    assert(self.data@[j] == padded[j]);
                } else if j < wp + buf@.len() {
                    assert(self.data@[j] == buf@[j - wp]);
                } else {
                    assert(self.data@[j] == padded[j]);
                }
            }
            assert(self.data@ =~= wb);
        }
        self.pos = (wp + buf.len()) as u64;
        Ok(buf.len())
    }

    /// One blocking truncate-or-extend call: the contents become exactly
    /// `size` bytes, zero-extended at the end if the file grows, and the
    /// cursor stays where it was, even if it now points beyond the end.
    #[verifier::loop_isolation(false)]
    pub fn set_len(&mut self, size: u64) -> (r: Result<(), Error>)
        requires
            size <= usize::MAX,
        ensures
            r == Ok::<(), Error>(()),
            final(self).data@ == resize_bytes(old(self).data@, size as int),
            final(self).pos == old(self).pos,
            final(self).seekable == old(self).seekable,
            final(self).append == old(self).append,
            final(self).perm == old(self).perm,
            final(self).syncs == old(self).syncs,
    {
        let target = size as usize;
        if target <= self.data.len() {
            self.data.truncate(target);
            proof {
                assert(self.data@ =~= resize_bytes(old(self).data@, size as int));
            }
        } else {
            while self.data.len() < target
                invariant
                    old(self).data@.len() <= self.data@.len() <= target,
                    self.data@ == resize_bytes(old(self).data@, self.data@.len() as int),
                    self.pos == old(self).pos,
                    self.seekable == old(self).seekable,
                    self.append == old(self).append,
                    self.perm == old(self).perm,
                    self.syncs == old(self).syncs,
                decreases target - self.data@.len(),
            {
                self.data.push(0u8);
                proof {
                    assert(self.data@ =~= resize_bytes(
                        old(self).data@,
                        self.data@.len() as int,
                    ));
                }
            }
            proof {
                assert(self.data@ =~= resize_bytes(old(self).data@, size as int));
            }
        }
        Ok(())
    }

    /// One blocking synchronize-to-disk call. In this model the store is
    /// the durable medium, so the call only counts; the count lets callers
    /// state how many synchronizations an operation performs.
    pub fn sync(&mut self)
        requires
            old(self).syncs < u64::MAX,
        ensures
            final(self).syncs == old(self).syncs + 1,
            final(self).data == old(self).data,
            final(self).pos == old(self).pos,
            final(self).seekable == old(self).seekable,
            final(self).append == old(self).append,
            final(self).perm == old(self).perm,
    {
        self.syncs = self.syncs + 1;
    }

    /// One blocking metadata query, reporting the current length and
    /// permissions of a regular file.
    pub fn metadata(&self) -> (m: Metadata)
        ensures
            m.len == self.data@.len(),
            m.file_type == (FileType { dir: false, symlink: false }),
            m.permissions == self.perm,
    {
        Metadata {
            len: self.data.len() as u64,
            file_type: FileType::regular(),
            permissions: self.perm,
        }
    }

    /// One blocking permission change.
    pub fn set_permissions(&mut self, perm: Permissions)
        ensures
            final(self).perm == perm,
            final(self).data == old(self).data,
            final(self).pos == old(self).pos,
            final(self).seekable == old(self).seekable,
            final(self).append == old(self).append,
            final(self).syncs == old(self).syncs,
    {
        self.perm = perm;
    }
}

} // verus!
