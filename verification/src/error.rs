//! The error taxonomy surfaced by every fallible operation of this crate.

use vstd::prelude::*;

verus! {

/// The operating-system error code for a seek on a non-seekable descriptor.
pub const CODE_NOT_SEEKABLE: i32 = 29;

/// An I/O error, as surfaced to callers of this crate.
///
/// Errors from the blocking primitive pass through unmodified. `Interrupted`
/// is retried inside the blocking call and `WouldBlock` is translated into
/// suspension, so the contracts of this crate's operations promise that
/// neither of those two variants is ever returned to a caller.
#[derive(Clone, Copy, Debug, PartialEq, Eq, Structural)]
pub enum Error {
    /// The named object does not exist.
    NotFound,
    /// The caller lacks permission for the operation.
    PermissionDenied,
    /// The object already exists and was required not to.
    AlreadyExists,
    /// A parameter or option combination was invalid.
    InvalidInput,
    /// The data read is not in the expected form.
    InvalidData,
    /// The call was interrupted; retried internally, never surfaced.
    Interrupted,
    /// The call would block; translated into suspension, never surfaced.
    WouldBlock,
    /// Any other operating-system error, carrying the native code unchanged.
    Os(i32),
}

impl Error {
    /// Whether this variant may reach a caller of this crate at all.
    pub open spec fn surfaceable(self) -> bool {
        self != Error::Interrupted && self != Error::WouldBlock
    }
}

} // verus!
