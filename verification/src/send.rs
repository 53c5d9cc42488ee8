//! The synchronous transmit path.
//!
//! A send travels: caller, sender half, global stack lock, engine send
//! primitive. The lock, the descriptor that wraps the payload, and the
//! engine call itself live with the code that links against the engine; what
//! is decided here is the outcome: the engine answers with a numeric status
//! code, and exactly one value of that code means success.

use vstd::prelude::*;
use crate::errors::IcmpError;

verus! {

/// The status code with which the engine's send primitive reports success.
/// Every other code is a transmission failure.
pub const ERR_OK: i8 = 0;

/// The transmit handle produced by splitting a bridge. It carries no
/// per-bridge state: the send path shares only the global stack lock and
/// never touches the receive queue.
#[derive(Clone, Copy, Debug)]
pub struct SendHalf;

impl SendHalf {
    /// Decides the outcome of one send from the status code the engine's
    /// send primitive returned: the designated success code means the packet
    /// was handed to the engine, and any other code is surfaced as a
    /// recoverable error carrying that code.
    pub fn send_outcome(&self, status: i8) -> (r: Result<(), IcmpError>)
        ensures
            r is Ok <==> status == ERR_OK,
            status != ERR_OK ==> r == Result::<(), IcmpError>::Err(
                IcmpError::TransmissionFailure { code: status },
            ),
    {
        if status == ERR_OK {
            Ok(())
        } else {
            Err(IcmpError::TransmissionFailure { code: status })
        }
    }
}

} // verus!
