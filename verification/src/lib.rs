//! A bridge between a synchronous, callback-driven packet engine and an
//! asynchronous, cooperatively scheduled consumer, for ICMP echo traffic.
//!
//! Inbound packets arrive through the trampoline entry point on the engine's
//! own call context, which must never block; they cross into the consumer's
//! world through a bounded FIFO queue that drops the newest packet on
//! overflow, paired with a single-slot wake handle that guarantees no wakeup
//! is missed. Outbound packets take the synchronous send path, whose outcome
//! is decided by the engine's numeric status code.

pub mod addr;
pub mod bridge;
pub mod errors;
pub mod laws;
pub mod packet;
pub mod registry;
pub mod send;
pub mod waker;

pub use addr::IpAddress;
pub use bridge::DeliveryReport;
pub use bridge::IcmpPing;
pub use bridge::Polled;
pub use bridge::RecvHalf;
pub use bridge::icmp_ping;
pub use errors::IcmpError;
pub use packet::Packet;
pub use registry::DispatchRegistry;
pub use send::ERR_OK;
pub use send::SendHalf;
