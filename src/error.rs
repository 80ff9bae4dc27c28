//! The failures that the library reports to its caller.
use vstd::prelude::*;

verus! {

/// A failure of one of the library's operations; none is retried.
#[derive(Clone, Copy, Debug, PartialEq, Eq)]
pub enum SerialError {
    /// No attached device has the adapter's vendor and product identifiers.
    DeviceNotFound,
    /// A control transfer failed in transport or timed out.
    Transfer(rusb::Error),
    /// The adapter did not echo the serial parameters it was given.
    ProtocolMismatch,
    /// A payload longer than one packet can carry.
    PayloadTooLarge,
}

} // verus!
