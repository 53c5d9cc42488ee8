//! The wake handle stored in the bridge's single wake slot.
//!
//! The handle itself comes from the consumer's task scheduler and is opaque
//! here: the verified logic only stores it, overwrites it, and signals it.

use vstd::prelude::*;
use std::task::Waker;

verus! {

#[verifier::external_type_specification]
#[verifier::external_body]
pub struct ExWaker(Waker);

/// Relies on `std::task::Waker::wake_by_ref`: notifies the task behind the
/// handle without consuming it. The call touches only the scheduler the
/// handle belongs to; it reads and changes no value this crate holds.
#[verifier::external_body]
pub(crate) fn wake_by_ref(w: &Waker) {
    w.wake_by_ref();
}

} // verus!
