//! The packet value carried from the trampoline to the consumer.

use vstd::prelude::*;
use crate::addr::IpAddress;

verus! {

/// One inbound ICMP packet: owned payload bytes plus the source and
/// destination addresses, captured fully at the trampoline boundary. The
/// payload is always a copy owned by this crate, never a view into the
/// engine's buffer, and a packet is never mutated once enqueued.
#[derive(Clone, Debug)]
pub struct Packet {
    pub payload: Vec<u8>,
    pub src_addr: IpAddress,
    pub dst_addr: IpAddress,
}

impl View for Packet {
    type V = (Seq<u8>, IpAddress, IpAddress);

    open spec fn view(&self) -> (Seq<u8>, IpAddress, IpAddress) {
        (self.payload@, self.src_addr, self.dst_addr)
    }
}

} // verus!
