//! A builder for opening files with configurable options.

use vstd::prelude::*;

use crate::error::Error;
use crate::file::File;
use crate::raw_file::RawFile;

verus! {

/// A builder for opening files.
///
/// A file can be opened in read and/or write mode; append is a special
/// writing mode that puts every write at the end of the file. The builder
/// can also truncate an existing file on open, create the file if it does
/// not exist yet, or insist on creating a new one.
#[derive(Clone, Copy, Debug, PartialEq, Eq, Structural)]
pub struct OpenOptions {
    /// Open for reading.
    pub read: bool,
    /// Open for writing.
    pub write: bool,
    /// Open for writing, with every write landing at the end of the file.
    pub append: bool,
    /// Truncate the file to length zero right after opening.
    pub truncate: bool,
    /// Create the file if it does not exist.
    pub create: bool,
    /// Create the file, failing if it already exists.
    pub create_new: bool,
    /// The permission bits a newly created file gets, before the process
    /// mask is applied.
    pub mode: u32,
    /// Extra platform flags passed through to the underlying open call.
    pub custom_flags: i32,
}

/// The option validation that every open performs first: some combination
/// of options is rejected as `InvalidInput` before the filesystem is ever
/// consulted — no access mode at all, truncating without write access, or
/// asking to create a file that could not be written.
pub open spec fn options_error(o: OpenOptions) -> Option<Error> {
    if !o.read && !o.write && !o.append {
        Some(Error::InvalidInput)
    } else if o.truncate && o.append {
        Some(Error::InvalidInput)
    } else if o.truncate && !o.write {
        Some(Error::InvalidInput)
    } else if (o.create || o.create_new) && !o.write && !o.append {
        Some(Error::InvalidInput)
    } else {
        None
    }
}

impl OpenOptions {
    /// A blank set of options: every flag off, and the customary default
    /// permission bits for newly created files.
    pub fn new() -> (r: OpenOptions)
        ensures
            !r.read && !r.write && !r.append && !r.truncate && !r.create && !r.create_new,
            r.mode == 0o666,
            r.custom_flags == 0,
    {
        OpenOptions {
            read: false,
            write: false,
            append: false,
            truncate: false,
            create: false,
            create_new: false,
            mode: 0o666,
            custom_flags: 0,
        }
    }

    /// Configures read mode.
    pub fn read(&mut self, read: bool)
        ensures
            *final(self) == (OpenOptions { read, ..*old(self) }),
    {
        self.read = read;
    }

    /// Configures write mode. An existing file opened writable is
    /// overwritten in place, not truncated.
    pub fn write(&mut self, write: bool)
        ensures
            *final(self) == (OpenOptions { write, ..*old(self) }),
    {
        self.write = write;
    }

    /// Configures append mode: writable, with the cursor moved to the end
    /// of the file for every write.
    pub fn append(&mut self, append: bool)
        ensures
            *final(self) == (OpenOptions { append, ..*old(self) }),
    {
        self.append = append;
    }

    /// Configures truncation: the file is cut to length zero on open.
    /// Requires write mode.
    pub fn truncate(&mut self, truncate: bool)
        ensures
            *final(self) == (OpenOptions { truncate, ..*old(self) }),
    {
        self.truncate = truncate;
    }

    /// Configures creating the file if it does not exist. Requires write
    /// or append mode.
    pub fn create(&mut self, create: bool)
        ensures
            *final(self) == (OpenOptions { create, ..*old(self) }),
    {
        self.create = create;
    }

    /// Configures creating a new file, failing if it already exists.
    /// Requires write or append mode.
    pub fn create_new(&mut self, create_new: bool)
        ensures
            *final(self) == (OpenOptions { create_new, ..*old(self) }),
    {
        self.create_new = create_new;
    }

    /// Opens a file with the configured options. `existing` is what the
    /// filesystem holds under the opened path: the stored descriptor
    /// state, or `None` if nothing exists there.
    ///
    /// Exactly one of these happens, checked in this order:
    /// - an invalid option combination is `InvalidInput`;
    /// - nothing exists and creation was not requested: `NotFound`;
    /// - something exists and `create_new` insists on a fresh file:
    ///   `AlreadyExists`;
    /// - something exists, is read-only, and write access was requested:
    ///   `PermissionDenied`;
    /// - otherwise the open succeeds with a clean file whose cursor is at
    ///   the start, whose contents are the stored ones — emptied by
    ///   `truncate` or for a newly created file — and which is in append
    ///   mode exactly if requested.
    pub fn open(&self, existing: Option<RawFile>) -> (r: Result<File, Error>)
        ensures
            r matches Err(e) ==> e.surfaceable(),
            options_error(*self) matches Some(e) ==> r == Err::<File, Error>(e),
            options_error(*self) is None ==> match existing {
                Option::None => {
                    if self.create || self.create_new {
                        &&& r is Ok
                        &&& r matches Ok(f) ==> {
                            &&& f.wf()
                            &&& f@.data == Seq::<u8>::empty()
                            &&& f@.pos == 0
                            &&& !f@.dirty
                            &&& f@.flushes == 0
                            &&& f.seekable()
                            &&& f.append_mode() == self.append
                            &&& !f.perm().read_only
                        }
                    } else {
                        r == Err::<File, Error>(Error::NotFound)
                    }
                },
                Option::Some(raw) => {
                    if self.create_new {
                        r == Err::<File, Error>(Error::AlreadyExists)
                    } else if (self.write || self.append) && raw.perm.read_only {
                        r == Err::<File, Error>(Error::PermissionDenied)
                    } else {
                        &&& r is Ok
                        &&& r matches Ok(f) ==> {
                            &&& f.wf()
                            &&& f@.data == (if self.truncate {
                                Seq::<u8>::empty()
                            } else {
                                raw.data@
                            })
                            &&& f@.pos == 0
                            &&& !f@.dirty
                            &&& f@.flushes == 0
                            &&& f.seekable() == raw.seekable
                            &&& f.append_mode() == self.append
                            &&& f.perm() == raw.perm
                        }
                    }
                },
            },
    {
        if !self.read && !self.write && !self.append {
            return Err(Error::InvalidInput);
        }
        if self.truncate && self.append {
            return Err(Error::InvalidInput);
        }
        if self.truncate && !self.write {
            return Err(Error::InvalidInput);
        }
        if (self.create || self.create_new) && !self.write && !self.append {
            return Err(Error::InvalidInput);
        }
        match existing {
            Option::None => {
                if self.create || self.create_new {
                    let mut raw = RawFile::new(Vec::new());
                    raw.append = self.append;
                    Ok(File::new(raw, false))
                } else {
                    Err(Error::NotFound)
                }
            },
            Option::Some(stored) => {
                if self.create_new {
                    return Err(Error::AlreadyExists);
                }
                if (self.write || self.append) && stored.perm.readonly() {
                    return Err(Error::PermissionDenied);
                }
                let contents: Vec<u8> = if self.truncate {
                    Vec::new()
                } else {
                    stored.data
                };
                let raw = RawFile {
                    data: contents,
                    pos: 0,
                    seekable: stored.seekable,
                    append: self.append,
                    perm: stored.perm,
                    syncs: stored.syncs,
                };
                Ok(File::new(raw, false))
            },
        }
    }
}

impl Default for OpenOptions {
    /// The same blank options as [`OpenOptions::new`].
    fn default() -> (r: Self)
        ensures
            r == (OpenOptions {
                read: false,
                write: false,
                append: false,
                truncate: false,
                create: false,
                create_new: false,
                mode: 0o666u32,
                custom_flags: 0i32,
            }),
    {
        OpenOptions::new()
    }
}

impl crate::traits::unix::OpenOptionsExt for OpenOptions {
    fn mode(&mut self, mode: u32)
        ensures
            *final(self) == (OpenOptions { mode, ..*old(self) }),
    {
        self.mode = mode;
    }

    fn custom_flags(&mut self, flags: i32)
        ensures
            *final(self) == (OpenOptions { custom_flags: flags, ..*old(self) }),
    {
        self.custom_flags = flags;
    }
}

} // verus!
