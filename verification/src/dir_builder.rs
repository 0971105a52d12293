//! A builder for creating directories with configurable options.

use vstd::prelude::*;

verus! {

/// A builder for creating directories.
///
/// The builder only decides *how* a directory is to be created; performing
/// the blocking creation call against a filesystem is the embedding's
/// affair and consumes these settings unchanged.
#[derive(Debug)]
pub struct DirBuilder {
    /// Whether missing parent directories are created too, with the same
    /// permissions as the final directory. With this off, it is an error
    /// if the directory already exists.
    pub recursive: bool,
    /// The mode to create new directories with, if one was set.
    pub mode: Option<u32>,
}

impl DirBuilder {
    /// A blank set of options: not recursive, and no mode set.
    pub fn new() -> (r: DirBuilder)
        ensures
            !r.recursive,
            r.mode is None,
    {
        DirBuilder { recursive: false, mode: None }
    }

    /// Sets the option for recursive mode: when on, all missing parent
    /// directories are created as well. Initially off.
    pub fn recursive(&mut self, recursive: bool)
        ensures
            final(self).recursive == recursive,
            final(self).mode == old(self).mode,
    {
        self.recursive = recursive;
    }
}

impl Default for DirBuilder {
    /// The same blank options as [`DirBuilder::new`].
    fn default() -> (r: Self)
        ensures
            !r.recursive,
            r.mode is None,
    {
        DirBuilder::new()
    }
}

impl crate::traits::unix::DirBuilderExt for DirBuilder {
    fn mode(&mut self, mode: u32)
        ensures
            final(self).mode == Some(mode),
            final(self).recursive == old(self).recursive,
    {
        self.mode = Some(mode);
    }
}

} // verus!
