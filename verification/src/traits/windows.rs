//! Windows-specific extensions to the open options.

use vstd::prelude::*;

verus! {

/// Windows-specific extensions to the open options, mapping onto the
/// arguments of the platform's file-creation call. An embedding on that
/// platform implements this for its open options; nothing in this crate
/// consumes the values.
pub trait OpenOptionsExt {
    /// Overrides the desired-access argument, replacing what the read,
    /// write and append options would have requested.
    fn access_mode(&mut self, access: u32);

    /// Overrides the share-mode argument, controlling what other
    /// processes may do with the file while it is open.
    fn share_mode(&mut self, val: u32);

    /// Sets extra file flags. Custom flags can only add to the flags set
    /// by the other options; this overwrites any previously set custom
    /// flags.
    fn custom_flags(&mut self, flags: u32);

    /// Sets the file-attributes argument used when the open creates a
    /// new file.
    fn attributes(&mut self, val: u32);

    /// Sets the security quality-of-service flags, relevant when opening
    /// a named pipe.
    fn security_qos_flags(&mut self, flags: u32);
}

} // verus!
