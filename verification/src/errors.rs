//! Error values surfaced to callers.
//!
//! Only the send path and bridge construction return typed errors. An
//! inbound packet that cannot be enqueued is dropped silently, because the
//! engine's callback context has no failure channel; callers observe such a
//! loss only through the trampoline's delivery report.

use vstd::prelude::*;

verus! {

/// An error surfaced synchronously to a caller of this crate.
#[derive(Clone, Copy, Debug, PartialEq, Eq, Structural)]
pub enum IcmpError {
    /// The engine's send primitive returned a non-success status; the
    /// numeric status code is carried for the caller to inspect.
    TransmissionFailure { code: i8 },
    /// A bridge was constructed while another registration was still live.
    /// The dispatcher supports one registered callback per process, so a
    /// second construction is refused explicitly rather than left silently
    /// unreachable.
    AlreadyRegistered,
}

} // verus!
