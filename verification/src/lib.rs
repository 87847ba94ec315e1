//! Battery status for a wireless headset spoken to over a raw HID transport.
//!
//! The crate is the verified core of the protocol: picking the right device
//! out of an enumeration ([`locator`]) and the fixed query/response codec
//! ([`codec`]). The HID transport itself (enumerating devices, opening a
//! handle, the blocking write and the timed read) is left to the caller,
//! who hands the plain values it produced through these functions.

use vstd::prelude::*;

pub mod codec;
pub mod locator;

verus! {

/// The ways device discovery or a battery query can fail.
#[derive(Debug, PartialEq, Eq)]
pub enum DeviceError {
    /// A failure of the HID transport itself (open, write or read), carrying
    /// the transport's own message.
    HidError(String),
    /// Discovery completed but no enumerated device matched the accepted
    /// vendor and product ids.
    NoDeviceFound(),
    /// The timed read returned no data: the headset is paired but powered
    /// off or unreachable.
    HeadSetOff(),
    /// A response arrived but failed preamble or charging-byte validation.
    UnknownResponse(),
}

} // verus!
