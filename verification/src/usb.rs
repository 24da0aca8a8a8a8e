//! The trusted boundary around the `rusb` USB transport.
//!
//! Everything the driver believes about the outside transport is stated
//! here: type declarations for the `rusb` values the session holds, and
//! one wrapper per transport call with the contract its source supports.
//! Nothing below is verified; every other module is.

use core::time::Duration;
use vstd::prelude::*;

verus! {

/// An open, exclusive connection to one physical device: an opaque holder
/// of the `rusb` handle. (`rusb::DeviceHandle` itself cannot be declared
/// to Verus, since its context-trait bound would need a trait
/// declaration; the handle therefore lives behind this struct.)
#[verifier::external_body]
pub struct UsbHandle {
    handle: rusb::DeviceHandle<rusb::GlobalContext>,
}

#[verifier::external_type_specification]
#[verifier::external_body]
pub struct ExDeviceDescriptor(rusb::DeviceDescriptor);

#[verifier::external_type_specification]
pub struct ExVersion(rusb::Version);

#[verifier::external_type_specification]
pub struct ExRusbError(rusb::Error);

#[verifier::external_type_specification]
pub struct ExDirection(rusb::Direction);

/// Relies on `rusb::Version::from_bcd`: a binary-coded-decimal `0xJJMN`
/// field becomes the version `J.M.N` (two decimal digits of major, one of
/// minor and sub minor each).
pub assume_specification[ rusb::Version::from_bcd ](raw: u16) -> (v: rusb::Version)
    ensures
        v.0 == ((raw >> 8) & 0xF) + 10 * (raw >> 12),
        v.1 == (raw >> 4) & 0xF,
        v.2 == raw & 0xF,
;

/// Relies on `rusb::open_device_with_vid_pid`: opens the first enumerated
/// device carrying the given vendor and product ids, `None` when none can
/// be opened.
#[verifier::external_body]
pub(crate) fn open_first(vendor_id: u16, product_id: u16) -> Option<UsbHandle> {
    rusb::open_device_with_vid_pid(vendor_id, product_id).map(|handle| UsbHandle { handle })
}

/// Relies on `DeviceHandle::device` and `Device::device_descriptor`: reads
/// the descriptor of the device behind an open handle.
#[verifier::external_body]
pub(crate) fn read_device_descriptor(
    handle: &UsbHandle,
) -> Result<rusb::DeviceDescriptor, rusb::Error> {
    handle.handle.device().device_descriptor()
}

/// Relies on `DeviceDescriptor::device_version`: the descriptor's
/// `bcdDevice` field as a three-part version.
#[verifier::external_body]
pub(crate) fn device_version_of(descriptor: &rusb::DeviceDescriptor) -> rusb::Version {
    descriptor.device_version()
}

/// Relies on `Duration::from_secs`.
#[verifier::external_body]
pub(crate) fn duration_from_secs(secs: u64) -> Duration {
    Duration::from_secs(secs)
}

/// Relies on `DeviceHandle::read_control`: a device-to-host control
/// transfer into `buf`, blocking up to `timeout`; `Ok(n)` is the count
/// libusb reports, never more than the buffer holds.
#[verifier::external_body]
pub(crate) fn usb_read_control(
    handle: &UsbHandle,
    request_type: u8,
    request: u8,
    value: u16,
    index: u16,
    buf: &mut Vec<u8>,
    timeout: Duration,
) -> (r: Result<usize, rusb::Error>)
    ensures
        final(buf)@.len() == old(buf)@.len(),
        r matches Ok(n) ==> n <= old(buf)@.len(),
{
    handle.handle.read_control(request_type, request, value, index, buf.as_mut_slice(), timeout)
}

/// Relies on `DeviceHandle::write_control`: a host-to-device control
/// transfer of `buf`; `Ok(n)` is the count libusb reports, never more
/// than was offered.
#[verifier::external_body]
pub(crate) fn usb_write_control(
    handle: &UsbHandle,
    request_type: u8,
    request: u8,
    value: u16,
    index: u16,
    buf: &[u8],
    timeout: Duration,
) -> (r: Result<usize, rusb::Error>)
    ensures
        r matches Ok(n) ==> n <= buf@.len(),
{
    handle.handle.write_control(request_type, request, value, index, buf, timeout)
}

/// Relies on `DeviceHandle::read_bulk`: one bulk-in transfer into `buf`.
/// The driver hands bulk endpoints at most one transmission unit per
/// call, which also keeps the length within libusb's signed range.
#[verifier::external_body]
pub(crate) fn usb_read_bulk(
    handle: &UsbHandle,
    endpoint: u8,
    buf: &mut Vec<u8>,
    timeout: Duration,
) -> (r: Result<usize, rusb::Error>)
    requires
        old(buf)@.len() <= crate::constants::MAX_TRANSMISSION_UNIT,
    ensures
        final(buf)@.len() == old(buf)@.len(),
        r matches Ok(n) ==> n <= old(buf)@.len(),
{
    handle.handle.read_bulk(endpoint, buf.as_mut_slice(), timeout)
}

/// Relies on `DeviceHandle::write_bulk`: one bulk-out transfer of `buf`.
/// The driver never offers more than one transmission unit per call.
#[verifier::external_body]
pub(crate) fn usb_write_bulk(
    handle: &UsbHandle,
    endpoint: u8,
    buf: &[u8],
    timeout: Duration,
) -> (r: Result<usize, rusb::Error>)
    requires
        buf@.len() <= crate::constants::MAX_TRANSMISSION_UNIT,
    ensures
        r matches Ok(n) ==> n <= buf@.len(),
{
    handle.handle.write_bulk(endpoint, buf, timeout)
}

/// Relies on `DeviceHandle::claim_interface`: claims the numbered
/// interface for this handle.
#[verifier::external_body]
pub(crate) fn usb_claim_interface(
    handle: &UsbHandle,
    iface: u8,
) -> Result<(), rusb::Error> {
    handle.handle.claim_interface(iface)
}

/// Relies on `DeviceHandle::release_interface`: releases a claimed
/// interface.
#[verifier::external_body]
pub(crate) fn usb_release_interface(
    handle: &UsbHandle,
    iface: u8,
) -> Result<(), rusb::Error> {
    handle.handle.release_interface(iface)
}

/// What `String::from_utf8_lossy` decodes a byte sequence to: a pure
/// function of the bytes alone.
pub uninterp spec fn utf8_lossy_of(bytes: Seq<u8>) -> Seq<char>;

/// Relies on `String::from_utf8_lossy`: decodes bytes, replacing invalid
/// UTF-8 sequences. An empty input gives an empty string, and the
/// character count never exceeds the byte count (every valid sequence
/// and every maximal invalid subpart spans at least one byte and yields
/// one character).
#[verifier::external_body]
pub(crate) fn utf8_lossy(bytes: &Vec<u8>) -> (r: String)
    ensures
        r@ == utf8_lossy_of(bytes@),
        r@.len() <= bytes@.len(),
        bytes@.len() == 0 ==> r@.len() == 0,
{
    String::from_utf8_lossy(bytes.as_slice()).into_owned()
}

} // verus!
