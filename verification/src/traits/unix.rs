//! Unix-specific extensions to the builders and entries.

use vstd::prelude::*;

verus! {

/// Unix-specific extensions to a directory builder.
pub trait DirBuilderExt {
    /// Sets the mode to create new directories with. Defaults to `0o777`
    /// when never called.
    fn mode(&mut self, mode: u32);
}

/// Unix-specific extensions to a directory entry.
pub trait DirEntryExt {
    /// Returns the underlying `d_ino` field of the entry.
    fn ino(&self) -> u64;
}

/// Unix-specific extensions to the open options.
pub trait OpenOptionsExt {
    /// Sets the permission bits a newly created file will be given,
    /// before the process mask is applied. Defaults to `0o666`.
    fn mode(&mut self, mode: u32);

    /// Passes custom flags to the underlying open call. Custom flags can
    /// only add to the flags set by the other options; this overwrites
    /// any previously set custom flags.
    fn custom_flags(&mut self, flags: i32);
}

} // verus!
