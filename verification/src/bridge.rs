//! The packet bridge: the bounded inbound queue, the wake slot, and the two
//! halves it splits into.
//!
//! The bridge is the meeting point of two execution domains. The engine's
//! dispatcher calls the trampoline [`icmp_ping`] synchronously and must never
//! be made to wait, so the queue is bounded and drops the newest packet on
//! overflow instead of blocking its producer. The consumer polls
//! cooperatively: a poll either takes the oldest queued packet or parks the
//! caller's wake handle in the single wake slot, and every injection signals
//! whatever handle is parked — even when the packet itself was dropped — so a
//! waiting consumer can never miss the event. A wake may therefore be
//! spurious, and a poll always re-checks the queue rather than assuming data
//! is present.

use vstd::prelude::*;
use std::collections::VecDeque;
use std::task::Waker;
use crate::addr::IpAddress;
use crate::errors::IcmpError;
use crate::packet::Packet;
use crate::registry::DispatchRegistry;
use crate::send::SendHalf;
use crate::waker::wake_by_ref;

verus! {

/// One step of the queue under an injection: a packet arriving at a queue
/// with room is appended at the back; a packet arriving at a full queue is
/// dropped, leaving everything already queued in place.
pub open spec fn inject_spec(q: Seq<Packet>, cap: nat, p: Packet) -> Seq<Packet> {
    if q.len() < cap {
        q.push(p)
    } else {
        q
    }
}

/// The whole bridge under an injection: the queue steps by [`inject_spec`],
/// the wake slot is untouched, and the parked handle — if one is parked — is
/// signalled whether or not the packet was kept. The result is the new
/// queue, the new wake-slot state, and whether a wake was signalled.
pub open spec fn inject_model(q: Seq<Packet>, cap: nat, has_waker: bool, p: Packet) -> (
    Seq<Packet>,
    bool,
    bool,
) {
    (inject_spec(q, cap, p), has_waker, has_waker)
}

/// The whole bridge under a poll: a non-empty queue yields its oldest packet
/// at once and leaves the wake slot as it was; an empty queue yields nothing
/// and parks the caller's handle, overwriting any earlier one. The result is
/// the new queue, the new wake-slot state, and the packet observed, if any.
pub open spec fn poll_model(q: Seq<Packet>, has_waker: bool) -> (Seq<Packet>, bool, Option<Packet>) {
    if q.len() > 0 {
        (q.drop_first(), has_waker, Some(q[0]))
    } else {
        (q, true, None)
    }
}

/// What one poll of the receive path reports: the oldest queued packet, or
/// not-ready when the queue is empty and the caller's wake handle has been
/// parked instead.
#[derive(Debug)]
pub enum Polled {
    Ready(Packet),
    NotReady,
}

/// The packet a [`Polled`] value carries, if any.
pub open spec fn polled_view(r: Polled) -> Option<Packet> {
    match r {
        Polled::Ready(p) => Some(p),
        Polled::NotReady => None,
    }
}

/// What the trampoline reports back to the code that runs it: whether the
/// packet was enqueued (a full queue drops it instead), and whether a parked
/// wake handle was signalled.
#[derive(Clone, Copy, Debug, PartialEq, Eq, Structural)]
pub struct DeliveryReport {
    pub enqueued: bool,
    pub woke: bool,
}

/// The packet bridge: one bounded FIFO queue of packets, with its capacity
/// fixed at construction, and one wake slot holding at most one consumer's
/// wake handle.
pub struct IcmpPing {
    queue: VecDeque<Packet>,
    cap: usize,
    waker: Option<Waker>,
}

impl IcmpPing {
    /// The queued packets, oldest first.
    pub closed spec fn inbox(&self) -> Seq<Packet> {
        self.queue@
    }

    /// The queue's fixed capacity.
    pub closed spec fn capacity(&self) -> nat {
        self.cap as nat
    }

    /// Whether a consumer's wake handle is parked in the wake slot.
    pub closed spec fn has_waker(&self) -> bool {
        self.waker is Some
    }

    /// Well-formedness: the queue never exceeds its capacity, and the
    /// capacity is at least one.
    pub closed spec fn wf(&self) -> bool {
        &&& self.queue@.len() <= self.cap
        &&& self.cap >= 1
    }

    /// Constructs the bridge: an empty queue of capacity `buf_size`, an
    /// empty wake slot, and a claim on the process-wide registration slot.
    /// If another bridge already holds the registration, nothing changes and
    /// the construction is refused, so a second bridge can never sit silently
    /// unreachable behind the first one's registration.
    pub fn new(buf_size: usize, registry: &mut DispatchRegistry) -> (r: Result<IcmpPing, IcmpError>)
        requires
            buf_size >= 1,
        ensures
            !old(registry).registered() ==> (r matches Ok(b)
                && b.wf()
                && b.inbox() == Seq::<Packet>::empty()
                && b.capacity() == buf_size
                && !b.has_waker()
                && final(registry).registered()),
            old(registry).registered() ==> (r == Result::<IcmpPing, IcmpError>::Err(
                IcmpError::AlreadyRegistered,
            )
                && final(registry).registered()),
    {
        if registry.claim() {
            Ok(IcmpPing { queue: VecDeque::new(), cap: buf_size, waker: None })
        } else {
            Err(IcmpError::AlreadyRegistered)
        }
    }

    /// One cooperative poll of the inbound queue, stepping the bridge by
    /// [`poll_model`]: the oldest packet if one is queued, otherwise
    /// not-ready with `waker` parked in the wake slot in place of any
    /// earlier handle.
    pub fn poll_next(&mut self, waker: Waker) -> (r: Polled)
        requires
            old(self).wf(),
        ensures
            final(self).wf(),
            final(self).capacity() == old(self).capacity(),
            (final(self).inbox(), final(self).has_waker(), polled_view(r)) == poll_model(
                old(self).inbox(),
                old(self).has_waker(),
            ),
    {
        match self.queue.pop_front() {
            Some(p) => Polled::Ready(p),
            None => {
                self.waker = Some(waker);
                Polled::NotReady
            },
        }
    }

    /// Splits the bridge into its two independent halves: a stateless
    /// transmit handle and a receive handle that takes exclusive ownership
    /// of the bridge.
    pub fn split(self) -> (r: (SendHalf, RecvHalf))
        ensures
            r.1.inner() == self,
    {
        (SendHalf, RecvHalf { icmp_ping: self })
    }
}

/// The trampoline's verified core, invoked for every inbound packet the
/// dispatcher delivers: it steps the bridge by [`inject_model`]. The packet
/// — payload bytes already copied out of the engine's buffer, addresses
/// already converted to portable values — is appended to the queue if there
/// is room and dropped otherwise, and a parked wake handle is signalled
/// unconditionally, even for a dropped packet, so the consumer re-checks the
/// queue rather than trusting the wake. This path never blocks and returns a
/// report instead of an error, because the dispatcher has no failure
/// channel.
pub fn icmp_ping(
    bridge: &mut IcmpPing,
    payload: Vec<u8>,
    src_addr: IpAddress,
    dst_addr: IpAddress,
) -> (r: DeliveryReport)
    requires
        old(bridge).wf(),
    ensures
        final(bridge).wf(),
        final(bridge).capacity() == old(bridge).capacity(),
        (final(bridge).inbox(), final(bridge).has_waker(), r.woke) == inject_model(
            old(bridge).inbox(),
            old(bridge).capacity(),
            old(bridge).has_waker(),
            (Packet { payload: payload, src_addr: src_addr, dst_addr: dst_addr }),
        ),
        r.enqueued == (old(bridge).inbox().len() < old(bridge).capacity()),
{
    let pkt = Packet { payload, src_addr, dst_addr };
    let enqueued = if bridge.queue.len() < bridge.cap {
        bridge.queue.push_back(pkt);
        true
    } else {
        false
    };
    let woke = match &bridge.waker {
        Some(w) => {
            wake_by_ref(w);
            true
        },
        None => false,
    };
    DeliveryReport { enqueued, woke }
}

/// The receive handle: it owns the bridge and delegates each poll to it,
/// exposing the inbound packets as a pollable sequence. The sequence has no
/// routine end: the producer side lives as long as the registration, so
/// exhaustion never surfaces here — a poll is either a packet or not-ready.
pub struct RecvHalf {
    icmp_ping: IcmpPing,
}

impl RecvHalf {
    /// The owned bridge.
    pub closed spec fn inner(&self) -> IcmpPing {
        self.icmp_ping
    }

    /// The queued packets, oldest first.
    pub open spec fn inbox(&self) -> Seq<Packet> {
        self.inner().inbox()
    }

    /// The queue's fixed capacity.
    pub open spec fn capacity(&self) -> nat {
        self.inner().capacity()
    }

    /// Whether a consumer's wake handle is parked in the wake slot.
    pub open spec fn has_waker(&self) -> bool {
        self.inner().has_waker()
    }

    /// Well-formedness of the owned bridge.
    pub open spec fn wf(&self) -> bool {
        self.inner().wf()
    }

    /// One cooperative poll, delegated to the owned bridge; same contract as
    /// [`IcmpPing::poll_next`].
    pub fn poll_next(&mut self, waker: Waker) -> (r: Polled)
        requires
            old(self).wf(),
        ensures
            final(self).wf(),
            final(self).capacity() == old(self).capacity(),
            (final(self).inbox(), final(self).has_waker(), polled_view(r)) == poll_model(
                old(self).inbox(),
                old(self).has_waker(),
            ),
    {
        self.icmp_ping.poll_next(waker)
    }

    /// Mutable access to the owned bridge, for the code that runs the
    /// trampoline against it after the split.
    pub fn bridge(&mut self) -> (r: &mut IcmpPing)
        ensures
            *r == old(self).inner(),
            final(self).inner() == *final(r),
    {
        &mut self.icmp_ping
    }

    /// Tears the receive path down: consumes the handle — and with it the
    /// bridge and any packets still queued — and releases the process-wide
    /// registration slot, so the dispatcher is not left holding a
    /// registration for a bridge that no longer exists.
    pub fn shutdown(self, registry: &mut DispatchRegistry)
        ensures
            !final(registry).registered(),
    {
        registry.release();
    }
}

} // verus!
