use std::sync::Arc;
use std::sync::atomic::AtomicUsize;
use std::sync::atomic::Ordering;

use futures::task::ArcWake;
use futures::task::noop_waker;
use futures::task::waker;

use icmp_bridge::DispatchRegistry;
use icmp_bridge::IcmpError;
use icmp_bridge::IcmpPing;
use icmp_bridge::IpAddress;
use icmp_bridge::Polled;
use icmp_bridge::icmp_ping;

struct CountingWaker {
    count: AtomicUsize,
}

impl ArcWake for CountingWaker {
    fn wake_by_ref(arc_self: &Arc<Self>) {
        arc_self.count.fetch_add(1, Ordering::SeqCst);
    }
}

fn counting_waker() -> (Arc<CountingWaker>, std::task::Waker) {
    let counter = Arc::new(CountingWaker { count: AtomicUsize::new(0) });
    let w = waker(counter.clone());
    (counter, w)
}

#[test]
fn fifo_delivery_in_order() {
    let mut registry = DispatchRegistry::new();
    let mut bridge = IcmpPing::new(4, &mut registry).unwrap();
    let src = IpAddress::V4(0x0a000001);
    let dst = IpAddress::V4(0x0a000002);
    for i in 1u8..=3u8 {
        let report = icmp_ping(&mut bridge, vec![i], src, dst);
        assert!(report.enqueued);
        assert!(!report.woke);
    }
    for i in 1u8..=3u8 {
        match bridge.poll_next(noop_waker()) {
            Polled::Ready(p) => {
                assert_eq!(p.payload, vec![i]);
                assert_eq!(p.src_addr, src);
                assert_eq!(p.dst_addr, dst);
            }
            Polled::NotReady => panic!("expected a packet"),
        }
    }
    assert!(matches!(bridge.poll_next(noop_waker()), Polled::NotReady));
}

#[test]
fn overflow_drops_newest_keeps_oldest() {
    let mut registry = DispatchRegistry::new();
    let mut bridge = IcmpPing::new(2, &mut registry).unwrap();
    let src = IpAddress::V4(1);
    let dst = IpAddress::V4(2);
    let r1 = icmp_ping(&mut bridge, vec![1], src, dst);
    let r2 = icmp_ping(&mut bridge, vec![2], src, dst);
    let r3 = icmp_ping(&mut bridge, vec![3], src, dst);
    assert!(r1.enqueued);
    assert!(r2.enqueued);
    assert!(!r3.enqueued);
    let mut observed: Vec<Vec<u8>> = Vec::new();
    loop {
        match bridge.poll_next(noop_waker()) {
            Polled::Ready(p) => observed.push(p.payload),
            Polled::NotReady => break,
        }
    }
    assert_eq!(observed, vec![vec![1], vec![2]]);
}

#[test]
fn pending_poll_woken_by_injection() {
    let mut registry = DispatchRegistry::new();
    let mut bridge = IcmpPing::new(4, &mut registry).unwrap();
    let (counter, w) = counting_waker();
    assert!(matches!(bridge.poll_next(w), Polled::NotReady));
    assert_eq!(counter.count.load(Ordering::SeqCst), 0);
    let report = icmp_ping(
        &mut bridge,
        vec![9, 9],
        IpAddress::V6(1),
        IpAddress::V6(2),
    );
    assert!(report.enqueued);
    assert!(report.woke);
    assert_eq!(counter.count.load(Ordering::SeqCst), 1);
    match bridge.poll_next(noop_waker()) {
        Polled::Ready(p) => {
            assert_eq!(p.payload, vec![9, 9]);
            assert_eq!(p.src_addr, IpAddress::V6(1));
        }
        Polled::NotReady => panic!("the wake promised a packet on re-check"),
    }
}

#[test]
fn dropped_packet_still_wakes() {
    let mut registry = DispatchRegistry::new();
    let mut bridge = IcmpPing::new(1, &mut registry).unwrap();
    let (counter, w) = counting_waker();
    assert!(matches!(bridge.poll_next(w), Polled::NotReady));
    let src = IpAddress::V4(1);
    let dst = IpAddress::V4(2);
    let r1 = icmp_ping(&mut bridge, vec![1], src, dst);
    assert!(r1.enqueued);
    assert_eq!(counter.count.load(Ordering::SeqCst), 1);
    let r2 = icmp_ping(&mut bridge, vec![2], src, dst);
    assert!(!r2.enqueued);
    assert!(r2.woke);
    assert_eq!(counter.count.load(Ordering::SeqCst), 2);
}

#[test]
fn poll_before_any_packet_is_not_ready() {
    let mut registry = DispatchRegistry::new();
    let mut bridge = IcmpPing::new(4, &mut registry).unwrap();
    assert!(matches!(bridge.poll_next(noop_waker()), Polled::NotReady));
}

#[test]
fn end_to_end_split_four_addresses() {
    let mut registry = DispatchRegistry::new();
    let bridge = IcmpPing::new(4, &mut registry).unwrap();
    let (_send_half, mut recv_half) = bridge.split();
    let addrs = [
        IpAddress::V4(0xc0a80001),
        IpAddress::V4(0xc0a80002),
        IpAddress::V4(0xc0a80003),
        IpAddress::V4(0xc0a80004),
    ];
    let dst = IpAddress::V4(0xc0a800fe);
    for (i, a) in addrs.iter().enumerate() {
        let report = icmp_ping(recv_half.bridge(), vec![i as u8], *a, dst);
        assert!(report.enqueued);
    }
    for a in addrs.iter() {
        match recv_half.poll_next(noop_waker()) {
            Polled::Ready(p) => assert_eq!(p.src_addr, *a),
            Polled::NotReady => panic!("expected a packet"),
        }
    }
    assert!(matches!(recv_half.poll_next(noop_waker()), Polled::NotReady));
}

#[test]
fn empty_payload_round_trip() {
    let mut registry = DispatchRegistry::new();
    let mut bridge = IcmpPing::new(1, &mut registry).unwrap();
    let src = IpAddress::V6(u128::MAX);
    let dst = IpAddress::V4(u32::MAX);
    let report = icmp_ping(&mut bridge, Vec::new(), src, dst);
    assert!(report.enqueued);
    match bridge.poll_next(noop_waker()) {
        Polled::Ready(p) => {
            assert!(p.payload.is_empty());
            assert_eq!(p.src_addr, src);
            assert_eq!(p.dst_addr, dst);
        }
        Polled::NotReady => panic!("expected the empty packet"),
    }
}

#[test]
fn second_bridge_is_refused() {
    let mut registry = DispatchRegistry::new();
    let first = IcmpPing::new(4, &mut registry);
    assert!(first.is_ok());
    match IcmpPing::new(4, &mut registry) {
        Ok(_) => panic!("a second registration must be refused"),
        Err(e) => assert_eq!(e, IcmpError::AlreadyRegistered),
    }
}

#[test]
fn shutdown_releases_the_registration() {
    let mut registry = DispatchRegistry::new();
    let bridge = IcmpPing::new(4, &mut registry).unwrap();
    let (_send_half, recv_half) = bridge.split();
    recv_half.shutdown(&mut registry);
    assert!(IcmpPing::new(4, &mut registry).is_ok());
}
