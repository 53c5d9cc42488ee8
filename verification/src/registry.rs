//! The process-wide registration state for the engine's dispatcher.
//!
//! The dispatcher accepts one registered callback for this packet class.
//! Instead of a hidden one-shot flag, the registration is explicit state: a
//! bridge claims it at construction, a second claim is refused with a typed
//! error, and dropping the receiving half releases it again, so the
//! dispatcher is never left pointing at a dead bridge silently.

use vstd::prelude::*;

verus! {

/// The registration slot linking this process to the engine's dispatcher.
/// At most one bridge holds the slot at any time.
pub struct DispatchRegistry {
    active: bool,
}

impl DispatchRegistry {
    /// Whether a bridge currently holds the registration.
    pub closed spec fn registered(&self) -> bool {
        self.active
    }

    /// A fresh registry with no live registration.
    pub fn new() -> (r: Self)
        ensures
            !r.registered(),
    {
        DispatchRegistry { active: false }
    }

    /// Claims the registration slot. Reports whether the slot was free; in
    /// either case the slot is held afterwards.
    pub(crate) fn claim(&mut self) -> (was_free: bool)
        ensures
            was_free == !old(self).registered(),
            final(self).registered(),
    {
        let was_free = !self.active;
        self.active = true;
        was_free
    }

    /// Releases the registration slot.
    pub(crate) fn release(&mut self)
        ensures
            !final(self).registered(),
    {
        self.active = false;
    }
}

} // verus!
