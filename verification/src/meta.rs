//! Cheaply copied value objects describing a filesystem object.

use vstd::prelude::*;

verus! {

/// The permissions of a filesystem object; only the read-only bit is
/// modelled.
#[derive(Clone, Copy, Debug, PartialEq, Eq, Structural)]
pub struct Permissions {
    /// Whether the object may not be written to.
    pub read_only: bool,
}

impl Permissions {
    /// Permissions that allow writing.
    pub fn writable() -> (r: Permissions)
        ensures
            !r.read_only,
    {
        Permissions { read_only: false }
    }

    /// Whether the object may not be written to.
    pub fn readonly(&self) -> (r: bool)
        ensures
            r == self.read_only,
    {
        self.read_only
    }

    /// Sets or clears the read-only bit.
    pub fn set_readonly(&mut self, readonly: bool)
        ensures
            final(self).read_only == readonly,
    {
        self.read_only = readonly;
    }
}

/// The kind of a filesystem object: a regular file, a directory, or a
/// symbolic link.
#[derive(Clone, Copy, Debug, PartialEq, Eq, Structural)]
pub struct FileType {
    /// Whether the object is a directory.
    pub dir: bool,
    /// Whether the object is a symbolic link.
    pub symlink: bool,
}

impl FileType {
    /// The type of a regular file.
    pub fn regular() -> (r: FileType)
        ensures
            !r.dir && !r.symlink,
    {
        FileType { dir: false, symlink: false }
    }

    /// Whether this is a regular file.
    pub fn is_file(&self) -> (r: bool)
        ensures
            r == (!self.dir && !self.symlink),
    {
        !self.dir && !self.symlink
    }

    /// Whether this is a directory.
    pub fn is_dir(&self) -> (r: bool)
        ensures
            r == self.dir,
    {
        self.dir
    }

    /// Whether this is a symbolic link.
    pub fn is_symlink(&self) -> (r: bool)
        ensures
            r == self.symlink,
    {
        self.symlink
    }
}

/// A snapshot of a filesystem object's metadata, taken by one blocking
/// query; it is not updated afterwards.
#[derive(Clone, Copy, Debug, PartialEq, Eq, Structural)]
pub struct Metadata {
    /// The length of the object in bytes at the time of the query.
    pub len: u64,
    /// The kind of the object.
    pub file_type: FileType,
    /// The permissions of the object.
    pub permissions: Permissions,
}

impl Metadata {
    /// The length of the object in bytes at the time of the query.
    pub fn len(&self) -> (r: u64)
        ensures
            r == self.len,
    {
        self.len
    }

    /// Whether the object is a regular file.
    pub fn is_file(&self) -> (r: bool)
        ensures
            r == (!self.file_type.dir && !self.file_type.symlink),
    {
        self.file_type.is_file()
    }

    /// Whether the object is a directory.
    pub fn is_dir(&self) -> (r: bool)
        ensures
            r == self.file_type.dir,
    {
        self.file_type.is_dir()
    }

    /// The kind of the object.
    pub fn file_type(&self) -> (r: FileType)
        ensures
            r == self.file_type,
    {
        self.file_type
    }

    /// The permissions of the object.
    pub fn permissions(&self) -> (r: Permissions)
        ensures
            r == self.permissions,
    {
        self.permissions
    }
}

} // verus!
