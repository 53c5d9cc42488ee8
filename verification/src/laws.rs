//! The general guarantees of the bridge, proved over the same model
//! functions that the executable contracts step by: strict FIFO delivery,
//! drop-newest overflow, and the no-missed-wakeup handshake between a
//! pending poll and the next injection.

use vstd::prelude::*;
use vstd::math::min;
use crate::bridge::inject_spec;
use crate::bridge::inject_model;
use crate::bridge::poll_model;
use crate::packet::Packet;

verus! {

/// A run of injections, applied oldest first: the queue after every packet
/// of `pkts` has been injected in order into a queue holding `q`.
pub open spec fn inject_all_spec(q: Seq<Packet>, cap: nat, pkts: Seq<Packet>) -> Seq<Packet>
    decreases pkts.len(),
{
    if pkts.len() == 0 {
        q
    } else {
        inject_all_spec(inject_spec(q, cap, pkts[0]), cap, pkts.drop_first())
    }
}

/// A run of polls, issued until the queue is empty: the packets successive
/// polls observe, in the order they are observed.
pub open spec fn drain_all_spec(q: Seq<Packet>) -> Seq<Packet>
    decreases q.len(),
{
    if q.len() == 0 {
        Seq::<Packet>::empty()
    } else {
        seq![q[0]] + drain_all_spec(q.drop_first())
    }
}

/// Successive polls observe a queue's packets exactly, oldest first: one
/// poll yields the front and steps the queue to its remainder, so draining
/// yields the queue itself, in order.
pub proof fn lemma_drain_observes_queue(q: Seq<Packet>)
    ensures
        drain_all_spec(q) =~= q,
    decreases q.len(),
{
    if q.len() > 0 {
        lemma_drain_observes_queue(q.drop_first());
    }
}

/// What a run of injections does to a queue with room to spare: as long as
/// the run fits into the remaining room, every packet is appended, in order.
/// Past the room, the queue is full and every further packet is dropped, so
/// the run contributes exactly its first `cap - q.len()` packets.
pub proof fn lemma_inject_all_keeps_prefix(q: Seq<Packet>, cap: nat, pkts: Seq<Packet>)
    requires
        q.len() <= cap,
    ensures
        inject_all_spec(q, cap, pkts) =~= q + pkts.take(
            min(cap - q.len(), pkts.len() as int),
        ),
    decreases pkts.len(),
{
    if pkts.len() == 0 {
        assert(inject_all_spec(q, cap, pkts) =~= q + pkts.take(0));
    } else if q.len() < cap {
        let stepped = inject_spec(q, cap, pkts[0]);
        lemma_inject_all_keeps_prefix(stepped, cap, pkts.drop_first());
        let k = min(cap - q.len(), pkts.len() as int);
        assert(stepped + pkts.drop_first().take(k - 1) =~= q + pkts.take(k));
    } else {
        lemma_inject_all_keeps_prefix(q, cap, pkts.drop_first());
        assert(inject_all_spec(q, cap, pkts) =~= q + pkts.take(0));
    }
}

/// Strict FIFO delivery without loss: injecting any run of at most `cap`
/// packets into an empty bridge keeps every one of them, and successive
/// polls then observe exactly that run, in injection order.
pub proof fn lemma_fifo_delivery(cap: nat, pkts: Seq<Packet>)
    requires
        pkts.len() <= cap,
    ensures
        inject_all_spec(Seq::<Packet>::empty(), cap, pkts) =~= pkts,
        drain_all_spec(inject_all_spec(Seq::<Packet>::empty(), cap, pkts)) =~= pkts,
{
    lemma_inject_all_keeps_prefix(Seq::<Packet>::empty(), cap, pkts);
    assert(inject_all_spec(Seq::<Packet>::empty(), cap, pkts) =~= pkts);
    lemma_drain_observes_queue(inject_all_spec(Seq::<Packet>::empty(), cap, pkts));
}

/// Drop-newest overflow: injecting any run into an empty bridge keeps
/// exactly the run's oldest `cap` packets — the excess dropped is always the
/// newest, never something already queued.
pub proof fn lemma_overflow_drops_newest(cap: nat, pkts: Seq<Packet>)
    ensures
        inject_all_spec(Seq::<Packet>::empty(), cap, pkts) =~= pkts.take(
            min(cap as int, pkts.len() as int),
        ),
{
    lemma_inject_all_keeps_prefix(Seq::<Packet>::empty(), cap, pkts);
}

/// No missed wakeup: a poll of an empty bridge reports not-ready and parks
/// the caller's wake handle; the next injection finds the handle parked and
/// signals it — whether or not the packet is kept — and the poll the woken
/// consumer then issues observes that packet immediately.
pub proof fn lemma_no_missed_wakeup(cap: nat, has_waker: bool, p: Packet)
    requires
        cap >= 1,
    ensures
        ({
            let (q1, w1, first) = poll_model(Seq::<Packet>::empty(), has_waker);
            let (q2, w2, woke) = inject_model(q1, cap, w1, p);
            let (q3, w3, second) = poll_model(q2, w2);
            &&& first is None
            &&& w1
            &&& woke
            &&& second == Some(p)
            &&& q3.len() == 0
        }),
{
    assert(inject_spec(Seq::<Packet>::empty(), cap, p) =~= seq![p]);
}

} // verus!
