//! The driver's failure taxonomy. Every fallible operation returns one of
//! these values to its immediate caller; nothing is retried or swallowed
//! inside the driver.

use vstd::prelude::*;

verus! {

/// A typed failure of a driver operation.
#[derive(Debug, Copy, Clone, PartialEq, Eq)]
pub enum HackrfError {
    /// The underlying USB stack failed (disconnection, stall, timeout,
    /// permission), with the transport's own code.
    Usb(rusb::Error),
    /// A control transfer moved fewer (or more) bytes than expected.
    ControlTransfer { direction: rusb::Direction, actual: usize, expected: usize },
    /// The device's firmware API is older than an operation requires.
    Version { device: rusb::Version, minimal: rusb::Version },
    /// A caller-supplied value lies outside the protocol's accepted
    /// domain, or the device rejected it with a zero acknowledgment.
    Argument,
}

impl From<rusb::Error> for HackrfError {
    fn from(error: rusb::Error) -> (r: HackrfError) {
        HackrfError::Usb(error)
    }
}

impl vstd::std_specs::convert::FromSpecImpl<rusb::Error> for HackrfError {
    open spec fn obeys_from_spec() -> bool {
        true
    }

    open spec fn from_spec(error: rusb::Error) -> HackrfError {
        HackrfError::Usb(error)
    }
}

} // verus!
