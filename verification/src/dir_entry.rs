//! A lightweight, cheaply cloned snapshot of one directory member.

use vstd::prelude::*;

verus! {

/// An entry in a directory: the member's full path, its bare name, and its
/// inode number. Entries are produced quickly and cheaply by directory
/// enumeration; querying a member's metadata or type is a separate
/// blocking call against the filesystem and is not cached here.
#[derive(Debug, Clone)]
pub struct DirEntry {
    /// The full path to the member: the enumerated directory's path joined
    /// with the member's name.
    path: String,
    /// The bare name of the member, without the leading path.
    name: String,
    /// The inode number of the member.
    ino: u64,
}

impl DirEntry {
    /// The full path.
    pub closed spec fn path_spec(&self) -> Seq<char> {
        self.path@
    }

    /// The bare name.
    pub closed spec fn name_spec(&self) -> Seq<char> {
        self.name@
    }

    /// The inode number.
    pub closed spec fn ino_spec(&self) -> u64 {
        self.ino
    }

    /// Snapshots one directory member.
    pub fn new(path: String, name: String, ino: u64) -> (r: DirEntry)
        ensures
            r.path_spec() == path@,
            r.name_spec() == name@,
            r.ino_spec() == ino,
    {
        DirEntry { path, name, ino }
    }

    /// Returns the full path to this entry: the path handed to the
    /// enumeration joined with this entry's name.
    pub fn path(&self) -> (r: String)
        ensures
            r@ == self.path_spec(),
    {
        self.path.clone()
    }

    /// Returns the bare name of this entry without the leading path.
    pub fn file_name(&self) -> (r: String)
        ensures
            r@ == self.name_spec(),
    {
        self.name.clone()
    }
}

impl crate::traits::unix::DirEntryExt for DirEntry {
    fn ino(&self) -> (r: u64)
        ensures
            r == self.ino_spec(),
    {
        self.ino
    }
}

} // verus!
