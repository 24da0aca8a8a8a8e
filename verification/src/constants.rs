use vstd::prelude::*;

verus! {

/// USB vendor id under which the device enumerates.
pub const HACKRF_USB_VID: u16 = 0x1D50;

/// USB product id of the HackRF One.
pub const HACKRF_ONE_USB_PID: u16 = 0x6089;

/// Address of the inbound bulk endpoint used while receiving
/// (endpoint 1, with the USB direction bit for device-to-host set).
pub const RX_ENDPOINT_ADDRESS: u8 = 0x81;

/// Address of the outbound bulk endpoint used while transmitting
/// (endpoint 2, host-to-device).
pub const TX_ENDPOINT_ADDRESS: u8 = 0x02;

/// Largest payload handed to or accepted from a single bulk transfer.
pub const MAX_TRANSMISSION_UNIT: usize = 128 * 1024;

/// One megahertz, in hertz: the scale of the whole-MHz field of the
/// frequency wire format.
pub const MHZ: u64 = 1_000_000;

/// Size of the raw transfer buffers an application typically keeps per
/// bulk request, larger than the transmission unit to absorb transport
/// chunking.
pub const TRANSFER_SIZE: usize = 262_144;

/// Exclusive upper bound of the divider search in the automatic
/// sample-rate approximation.
pub const MAX_N: usize = 32;

/// `bmRequestType` of a device-to-host vendor control transfer
/// (direction-in bit 0x80, vendor type 0x40, device recipient 0x00).
pub const VENDOR_REQUEST_IN: u8 = 0xC0;

/// `bmRequestType` of a host-to-device vendor control transfer
/// (direction-out 0x00, vendor type 0x40, device recipient 0x00).
pub const VENDOR_REQUEST_OUT: u8 = 0x40;

} // verus!
