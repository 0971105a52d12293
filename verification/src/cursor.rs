//! The decision rules of the cursor-tracking adapter.
//!
//! The adapter in [`crate::file`] keeps, besides the buffered handle, only
//! the small state in [`FileState`]: where the caller's logical cursor is
//! believed to be, and whether a write has been issued since the last
//! successful flush. The functions here are the complete set of decisions
//! the adapter takes in response to events — they map the current state and
//! one event to the next state and the action to perform. An embedding that
//! drives a real descriptor on a worker pool makes the same decisions by
//! calling these same functions.

use vstd::prelude::*;

use crate::error::Error;

verus! {

/// What the adapter believes about the caller's logical cursor.
#[derive(Clone, Copy, Debug, PartialEq, Eq, Structural)]
pub enum CursorState {
    /// Nothing is known; before reading, the adapter must first ask the
    /// primitive to report its position. This is the state before the
    /// first read and after every write or seek.
    Unknown,
    /// The caller's cursor is at this position, while the primitive's own
    /// cursor may have run ahead of it by buffered read-ahead.
    Known(u64),
    /// The position query failed once: the descriptor is not seekable, and
    /// repositioning is permanently skipped for it.
    Unseekable,
}

/// The adapter's bookkeeping state.
#[derive(Clone, Copy, Debug, PartialEq, Eq, Structural)]
pub struct FileState {
    /// What is known about the logical cursor.
    pub cursor: CursorState,
    /// Whether a write has been issued since the last successful flush.
    pub dirty: bool,
}

impl FileState {
    /// The state of a freshly wrapped descriptor: nothing known about the
    /// cursor. A descriptor taken over from unknown prior use is marked
    /// dirty so that the first flush reaches the primitive.
    pub fn new(dirty: bool) -> (r: FileState)
        ensures
            r.cursor == CursorState::Unknown,
            r.dirty == dirty,
    {
        FileState { cursor: CursorState::Unknown, dirty }
    }
}

/// Read path: whether the adapter must first issue a blocking "report the
/// current position" call before reading. It must exactly when nothing is
/// known about the cursor.
pub fn needs_anchor(st: &FileState) -> (r: bool)
    ensures
        r == (st.cursor is Unknown),
{
    match st.cursor {
        CursorState::Unknown => true,
        _ => false,
    }
}

/// Read path: records the outcome of the position query. A reported
/// position anchors the cursor; a failure marks the descriptor unseekable
/// for good, so every later repositioning is skipped.
pub fn apply_anchor(st: &mut FileState, q: Result<u64, Error>)
    ensures
        q matches Ok(p) ==> final(st).cursor == CursorState::Known(p),
        q is Err ==> final(st).cursor == CursorState::Unseekable,
        final(st).dirty == old(st).dirty,
{
    match q {
        Ok(p) => st.cursor = CursorState::Known(p),
        Err(_) => st.cursor = CursorState::Unseekable,
    }
}

/// Read path: after a read delivered `n` bytes, a known cursor advances by
/// `n`; an unknown or unseekable cursor is left alone.
pub fn apply_read(st: &mut FileState, n: u64)
    requires
        old(st).cursor matches CursorState::Known(p) ==> p + n <= u64::MAX,
    ensures
        old(st).cursor matches CursorState::Known(p) ==> final(st).cursor == CursorState::Known(
            (p + n) as u64,
        ),
        !(old(st).cursor is Known) ==> final(st).cursor == old(st).cursor,
        final(st).dirty == old(st).dirty,
{
    if let CursorState::Known(p) = st.cursor {
        st.cursor = CursorState::Known(p + n);
    }
}

/// Write and seek path: where the primitive's cursor must be repositioned
/// to before the operation may proceed — the logical position, if one is
/// known. With nothing known there is no read-ahead to discard, and on an
/// unseekable descriptor repositioning is permanently skipped.
pub fn reposition_target(st: &FileState) -> (r: Option<u64>)
    ensures
        r == (match st.cursor {
            CursorState::Known(p) => Some(p),
            _ => None::<u64>,
        }),
{
    match st.cursor {
        CursorState::Known(p) => Some(p),
        _ => None,
    }
}

/// Write and seek path: records the outcome of the reposition attempt. On
/// success the cursor becomes unknown — the next read re-anchors it. A
/// failed reposition aborts the pending write or seek without touching the
/// state, leaving the adapter consistent for a retry.
pub fn apply_reposition(st: &mut FileState, ok: bool)
    ensures
        ok ==> final(st).cursor == CursorState::Unknown && final(st).dirty == old(st).dirty,
        !ok ==> *final(st) == *old(st),
{
    if ok {
        st.cursor = CursorState::Unknown;
    }
}

/// Write path: a write has been issued; the adapter owes a flush.
pub fn begin_write(st: &mut FileState)
    ensures
        final(st).dirty,
        final(st).cursor == old(st).cursor,
{
    st.dirty = true;
}

/// Flush path: whether the flush must be forwarded to the primitive at
/// all. A flush while not dirty is a no-op that still reports success.
pub fn should_flush(st: &FileState) -> (r: bool)
    ensures
        r == st.dirty,
{
    st.dirty
}

/// Flush path: the forwarded flush succeeded; the adapter owes nothing.
pub fn apply_flush(st: &mut FileState)
    ensures
        !final(st).dirty,
        final(st).cursor == old(st).cursor,
{
    st.dirty = false;
}

} // verus!
