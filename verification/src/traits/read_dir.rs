//! A stream of entries in a directory.

use vstd::prelude::*;

use crate::traits::stream::Stream;

verus! {

/// A stream of directory entries: what a directory enumeration returns.
/// Each yielded item is an entry of the directory or the error that
/// reading it produced.
pub trait ReadDir: Stream {

}

} // verus!
