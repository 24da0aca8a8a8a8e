//! The device session: an open HackRF One, its operating-mode state
//! machine, the vendor control operations and the streaming primitives.
//!
//! The session owns the transport handle for its whole lifetime. The
//! interface-claim invariant is the heart of the state machine: the
//! streaming interface is claimed exactly while the session is in a
//! streaming mode, and a failed transition leaves mode and claim exactly
//! as they were.

use crate::codec::{
    derived_bandwidth, filter_bandwidth_params, freq_params, lna_gain_index, sample_rate_params,
    serial_number_string, spec_serial_string, spec_version_key, txvga_gain_index, u32_from_le,
    version_key, vga_gain_index, MAX_LNA_GAIN, MAX_TXVGA_GAIN, MAX_VGA_GAIN,
};
use crate::constants::{
    HACKRF_ONE_USB_PID, HACKRF_USB_VID, MAX_TRANSMISSION_UNIT, RX_ENDPOINT_ADDRESS,
    TX_ENDPOINT_ADDRESS, VENDOR_REQUEST_IN, VENDOR_REQUEST_OUT,
};
use crate::error::HackrfError;
use crate::request::Request;
use crate::sample_rate::auto_divider;
use crate::transceiver_mode::TransceiverMode;
use crate::usb::{
    duration_from_secs, open_first, read_device_descriptor, usb_claim_interface, usb_read_bulk,
    usb_read_control, usb_release_interface, usb_write_bulk, usb_write_control, utf8_lossy,
    utf8_lossy_of, UsbHandle,
};
use crate::usb::device_version_of;
use core::time::Duration;
use vstd::prelude::*;

verus! {

/// The session's operating mode: which bulk streaming operations are
/// legal, and whether the streaming interface is held.
#[derive(Debug, Clone, Copy, PartialEq, Eq, Structural)]
pub enum Mode {
    Off,
    Tx,
    Rx,
}

/// An open exclusive session with one HackRF One. The device's API
/// version is read once from the descriptor at open and cached for the
/// session's lifetime.
pub struct HackRF {
    device_handle: UsbHandle,
    api_version: rusb::Version,
    mode: Mode,
    timeout: Duration,
    claimed: Ghost<bool>,
}

impl HackrfError {
    /// What a control transfer of the given direction and size can fail
    /// with: a transport failure, or a short transfer of that direction
    /// whose actual count differs from the expected one.
    pub open spec fn is_control_failure(&self, direction: rusb::Direction, want: int) -> bool {
        match *self {
            HackrfError::Usb(_) => true,
            HackrfError::ControlTransfer { direction: d, actual, expected } => d == direction
                && expected == want && actual != want,
            _ => false,
        }
    }
}

/// Decodes the `count` bytes a version-string read reported, leniently,
/// into the firmware version string: exactly the lossy UTF-8 decoding of
/// that prefix, never longer than the bytes it came from.
pub fn decode_version_string(bytes: Vec<u8>, count: usize) -> (r: String)
    requires
        count <= bytes@.len(),
    ensures
        r@ == utf8_lossy_of(bytes@.subrange(0, count as int)),
        r@.len() <= count,
{
    let mut bytes = bytes;
    bytes.truncate(count);
    utf8_lossy(&bytes)
}

/// How many bytes of a transmit buffer one bulk transfer carries: the
/// whole buffer, capped at one transmission unit.
pub open spec fn spec_clamped_len(len: int) -> int {
    if len <= MAX_TRANSMISSION_UNIT {
        len
    } else {
        MAX_TRANSMISSION_UNIT as int
    }
}

/// Truncates a transmit buffer to at most one transmission unit: what
/// [`HackRF::tx`] actually offers the outbound endpoint. Short buffers
/// pass through unpadded.
pub fn clamp_to_unit(buffer: Vec<u8>) -> (r: Vec<u8>)
    ensures
        r@.len() == spec_clamped_len(buffer@.len() as int),
        buffer@.len() <= MAX_TRANSMISSION_UNIT ==> r@ == buffer@,
        buffer@.len() > MAX_TRANSMISSION_UNIT ==> r@ == buffer@.subrange(
            0,
            MAX_TRANSMISSION_UNIT as int,
        ),
{
    let mut buffer = buffer;
    buffer.truncate(MAX_TRANSMISSION_UNIT);
    buffer
}

/// The packed ordering key of a three-part version value.
pub open spec fn spec_key_of(v: rusb::Version) -> u32 {
    spec_version_key(v.0, v.1, v.2)
}

/// Interprets the byte count a bulk-out transfer reported against the
/// count that was offered: a shortfall is a short-transfer error, never
/// a silent success.
pub fn bulk_write_status(actual: usize, expected: usize) -> (r: Result<(), HackrfError>)
    ensures
        actual == expected ==> r == Ok::<(), HackrfError>(()),
        actual != expected ==> r == Err::<(), HackrfError>(
            HackrfError::ControlTransfer { direction: rusb::Direction::Out, actual, expected },
        ),
{
    if actual != expected {
        Err(HackrfError::ControlTransfer { direction: rusb::Direction::Out, actual, expected })
    } else {
        Ok(())
    }
}

/// Interprets the one-byte acknowledgment the device returns for a gain
/// setting: zero means the device rejected the value.
pub fn gain_ack(ack: u8) -> (r: Result<(), HackrfError>)
    ensures
        ack == 0 ==> r == Err::<(), HackrfError>(HackrfError::Argument),
        ack != 0 ==> r == Ok::<(), HackrfError>(()),
{
    if ack == 0 {
        Err(HackrfError::Argument)
    } else {
        Ok(())
    }
}

impl HackRF {
    /// The session's current operating mode.
    pub closed spec fn current_mode(&self) -> Mode {
        self.mode
    }

    /// Whether the session holds the streaming interface.
    pub closed spec fn interface_claimed(&self) -> bool {
        self.claimed@
    }

    /// The session's per-transfer timeout.
    pub closed spec fn timeout_spec(&self) -> Duration {
        self.timeout
    }

    /// The device API version cached when the session was opened.
    pub closed spec fn device_api_version(&self) -> rusb::Version {
        self.api_version
    }

    /// The session invariant: the streaming interface is held exactly
    /// while the session is in a streaming mode.
    pub open spec fn wf(&self) -> bool {
        self.interface_claimed() <==> !(self.current_mode() is Off)
    }

    /// Opens the first HackRF One that enumerates, off and with a
    /// one-second transfer timeout; `None` when no unit can be opened.
    pub fn new() -> (r: Option<HackRF>)
        ensures
            r matches Some(h) ==> h.wf() && h.current_mode() is Off,
    {
        match open_first(HACKRF_USB_VID, HACKRF_ONE_USB_PID) {
            Some(device_handle) => match read_device_descriptor(&device_handle) {
                Ok(description) => Some(
                    HackRF {
                        device_handle,
                        api_version: device_version_of(&description),
                        mode: Mode::Off,
                        timeout: duration_from_secs(1),
                        claimed: Ghost(false),
                    },
                ),
                Err(_) => None,
            },
            None => None,
        }
    }

    /// Replaces the per-transfer timeout.
    pub fn set_timeout(&mut self, duration: Duration)
        ensures
            final(self).timeout_spec() == duration,
            final(self).current_mode() == old(self).current_mode(),
            final(self).interface_claimed() == old(self).interface_claimed(),
    {
        self.timeout = duration;
    }

    /// A validated device-to-host vendor control transfer of exactly
    /// `len` bytes.
    fn read_control(&self, request: Request, value: u16, index: u16, len: usize) -> (r: Result<
        Vec<u8>,
        HackrfError,
    >)
        ensures
            r matches Ok(data) ==> data@.len() == len,
            r matches Err(e) ==> e.is_control_failure(rusb::Direction::In, len as int),
    {
        let mut buffer: Vec<u8> = vec![0u8; len];
        match usb_read_control(
            &self.device_handle,
            VENDOR_REQUEST_IN,
            u8::from(request),
            value,
            index,
            &mut buffer,
            self.timeout,
        ) {
            Ok(n) => {
                if n != buffer.len() {
                    Err(
                        HackrfError::ControlTransfer {
                            direction: rusb::Direction::In,
                            actual: n,
                            expected: len,
                        },
                    )
                } else {
                    Ok(buffer)
                }
            },
            Err(e) => Err(HackrfError::Usb(e)),
        }
    }

    /// A validated host-to-device vendor control transfer of the whole
    /// buffer.
    fn write_control(&mut self, request: Request, value: u16, index: u16, buffer: &[u8]) -> (r:
        Result<(), HackrfError>)
        ensures
            *final(self) == *old(self),
            r matches Err(e) ==> e.is_control_failure(rusb::Direction::Out, buffer@.len() as int),
    {
        match usb_write_control(
            &self.device_handle,
            VENDOR_REQUEST_OUT,
            u8::from(request),
            value,
            index,
            buffer,
            self.timeout,
        ) {
            Ok(n) => {
                if n != buffer.len() {
                    Err(
                        HackrfError::ControlTransfer {
                            direction: rusb::Direction::Out,
                            actual: n,
                            expected: buffer.len(),
                        },
                    )
                } else {
                    Ok(())
                }
            },
            Err(e) => Err(HackrfError::Usb(e)),
        }
    }

    /// The device's reported API version: the descriptor's `bcdDevice`,
    /// cached at open. A pure read; every call on one session returns the
    /// same value.
    pub fn device_version(&self) -> (r: rusb::Version)
        ensures
            r == self.device_api_version(),
    {
        self.api_version
    }

    /// The minimum-version gate: passes exactly when the device's packed
    /// version key is at least the required one, and otherwise reports
    /// both versions.
    pub fn version_gate(device: rusb::Version, minimal: rusb::Version) -> (r: Result<
        (),
        HackrfError,
    >)
        ensures
            r is Ok <==> spec_version_key(device.0, device.1, device.2) >= spec_version_key(
                minimal.0,
                minimal.1,
                minimal.2,
            ),
            r matches Err(e) ==> e == (HackrfError::Version { device, minimal }),
    {
        let device_version_cmp: u32 = version_key(device.0, device.1, device.2);
        let minimal_version_cmp: u32 = version_key(minimal.0, minimal.1, minimal.2);
        if device_version_cmp >= minimal_version_cmp {
            Ok(())
        } else {
            Err(HackrfError::Version { device, minimal })
        }
    }

    /// Checks the device's API version against a minimum: passes exactly
    /// when the session's cached version is at least the required one.
    fn check_api_version(&self, minimal: rusb::Version) -> (r: Result<(), HackrfError>)
        ensures
            r is Ok <==> spec_key_of(self.device_api_version()) >= spec_key_of(minimal),
            r matches Err(e) ==> e == (HackrfError::Version {
                device: self.device_api_version(),
                minimal,
            }),
    {
        let device_version: rusb::Version = self.device_version();
        Self::version_gate(device_version, minimal)
    }

    /// Reads the board identifier byte.
    pub fn board_id(&self) -> (r: Result<u8, HackrfError>)
        ensures
            r matches Err(e) ==> e.is_control_failure(rusb::Direction::In, 1),
    {
        match self.read_control(Request::BoardIdRead, 0, 0, 1) {
            Ok(data) => Ok(data[0]),
            Err(e) => Err(e),
        }
    }

    /// Reads the two part-id words and the 128-bit serial number, the
    /// serial rendered as a fixed 32-digit hexadecimal string.
    pub fn part_id_serial_read(self) -> (r: Result<((u32, u32), String), HackrfError>)
        ensures
            r matches Ok(((p1, p2), serial)) ==> serial@.len() == 32,
            r matches Err(e) ==> e.is_control_failure(rusb::Direction::In, 32),
    {
        let data = match self.read_control(Request::BoardPartidSerialnoRead, 0, 0, 32) {
            Ok(data) => data,
            Err(e) => {
                return Err(e);
            },
        };
        let part_id_1: u32 = u32_from_le(data[0], data[1], data[2], data[3]);
        let part_id_2: u32 = u32_from_le(data[4], data[5], data[6], data[7]);
        let w0: u32 = u32_from_le(data[8], data[9], data[10], data[11]);
        let w1: u32 = u32_from_le(data[12], data[13], data[14], data[15]);
        let w2: u32 = u32_from_le(data[16], data[17], data[18], data[19]);
        let w3: u32 = u32_from_le(data[20], data[21], data[22], data[23]);
        let serial_number: String = serial_number_string(w0, w1, w2, w3);
        proof {
            assert(spec_serial_string(w0, w1, w2, w3).len() == 32);
        }
        Ok(((part_id_1, part_id_2), serial_number))
    }

    /// Reads the firmware version string: up to 16 bytes, as many as the
    /// device returns (a short read is not an error here), decoded
    /// leniently by [`decode_version_string`].
    pub fn version(&self) -> (r: Result<String, HackrfError>)
        ensures
            r matches Ok(s) ==> s@.len() <= 16,
            r matches Err(e) ==> e matches HackrfError::Usb(_),
    {
        let mut buffer: Vec<u8> = vec![0u8; 16];
        match usb_read_control(
            &self.device_handle,
            VENDOR_REQUEST_IN,
            u8::from(Request::VersionStringRead),
            0,
            0,
            &mut buffer,
            self.timeout,
        ) {
            Ok(n) => Ok(decode_version_string(buffer, n)),
            Err(e) => Err(HackrfError::Usb(e)),
        }
    }

    /// Tunes the radio: encodes the frequency and issues the set-frequency
    /// request.
    pub fn set_freq(&mut self, hz: u64) -> (r: Result<(), HackrfError>)
        ensures
            *final(self) == *old(self),
            r matches Err(e) ==> e.is_control_failure(rusb::Direction::Out, 8),
    {
        let buffer: [u8; 8] = freq_params(hz);
        self.write_control(Request::SetFreq, 0, 0, buffer.as_slice())
    }

    /// Switches the front-end amplifier on or off.
    pub fn set_amp_enable(&mut self, en: bool) -> (r: Result<(), HackrfError>)
        ensures
            *final(self) == *old(self),
            r matches Err(e) ==> e.is_control_failure(rusb::Direction::Out, 0),
    {
        let value: u16 = if en {
            1
        } else {
            0
        };
        let empty: Vec<u8> = Vec::new();
        self.write_control(Request::AmpEnable, value, 0, empty.as_slice())
    }

    /// Programs the baseband filter bandwidth, split across the value and
    /// index fields.
    pub fn set_baseband_filter_bandwidth(&mut self, hz: u32) -> (r: Result<(), HackrfError>)
        ensures
            *final(self) == *old(self),
            r matches Err(e) ==> e.is_control_failure(rusb::Direction::Out, 0),
    {
        let (low, high) = filter_bandwidth_params(hz);
        let empty: Vec<u8> = Vec::new();
        self.write_control(Request::BasebandFilterBandwidthSet, low, high, empty.as_slice())
    }

    /// Approximates the requested rate with [`auto_divider`] and programs
    /// the result.
    pub fn set_sample_rate_auto(&mut self, freq: u32) -> (r: Result<(), HackrfError>)
        requires
            freq >= 1,
        ensures
            *final(self) == *old(self),
            r matches Err(e) ==> (e.is_control_failure(rusb::Direction::Out, 8)
                || e.is_control_failure(rusb::Direction::Out, 0)),
    {
        let (freq_hz, divider) = auto_divider(freq);
        self.set_sample_rate(freq_hz, divider)
    }

    /// Programs a sample rate and divider, then the automatically derived
    /// filter bandwidth.
    pub fn set_sample_rate(&mut self, hz: u32, divider: u32) -> (r: Result<(), HackrfError>)
        requires
            divider >= 1,
        ensures
            *final(self) == *old(self),
            r matches Err(e) ==> (e.is_control_failure(rusb::Direction::Out, 8)
                || e.is_control_failure(rusb::Direction::Out, 0)),
    {
        let buffer: [u8; 8] = sample_rate_params(hz, divider);
        match self.write_control(Request::SampleRateSet, 0, 0, buffer.as_slice()) {
            Ok(()) => {},
            Err(e) => {
                return Err(e);
            },
        }
        self.set_baseband_filter_bandwidth(derived_bandwidth(hz, divider))
    }

    /// Sets the LNA (receive amplifier) gain: values above
    /// [`MAX_LNA_GAIN`] are rejected before any transfer, accepted values
    /// are aligned to 8 dB steps, and a zero acknowledgment from the
    /// device is reported as [`HackrfError::Argument`].
    pub fn set_lna_gain(&mut self, value: u16) -> (r: Result<(), HackrfError>)
        ensures
            *final(self) == *old(self),
            value > MAX_LNA_GAIN ==> r == Err::<(), HackrfError>(HackrfError::Argument),
            r is Ok ==> value <= MAX_LNA_GAIN,
            value <= MAX_LNA_GAIN ==> (r matches Err(e) ==> (e == HackrfError::Argument
                || e.is_control_failure(rusb::Direction::In, 1))),
    {
        match lna_gain_index(value) {
            None => Err(HackrfError::Argument),
            Some(index) => {
                let data = match self.read_control(Request::SetLnaGain, 0, index, 1) {
                    Ok(data) => data,
                    Err(e) => {
                        return Err(e);
                    },
                };
                gain_ack(data[0])
            },
        }
    }

    /// Sets the VGA (baseband) gain, aligned to 2 dB steps; same
    /// acknowledgment protocol as the LNA gain.
    pub fn set_vga_gain(&mut self, value: u16) -> (r: Result<(), HackrfError>)
        ensures
            *final(self) == *old(self),
            value > MAX_VGA_GAIN ==> r == Err::<(), HackrfError>(HackrfError::Argument),
            r is Ok ==> value <= MAX_VGA_GAIN,
            value <= MAX_VGA_GAIN ==> (r matches Err(e) ==> (e == HackrfError::Argument
                || e.is_control_failure(rusb::Direction::In, 1))),
    {
        match vga_gain_index(value) {
            None => Err(HackrfError::Argument),
            Some(index) => {
                let data = match self.read_control(Request::SetVgaGain, 0, index, 1) {
                    Ok(data) => data,
                    Err(e) => {
                        return Err(e);
                    },
                };
                gain_ack(data[0])
            },
        }
    }

    /// Sets the TX VGA (transmit) gain; same acknowledgment protocol as
    /// the other gains.
    pub fn set_txvga_gain(&mut self, value: u16) -> (r: Result<(), HackrfError>)
        ensures
            *final(self) == *old(self),
            value > MAX_TXVGA_GAIN ==> r == Err::<(), HackrfError>(HackrfError::Argument),
            r is Ok ==> value <= MAX_TXVGA_GAIN,
            value <= MAX_TXVGA_GAIN ==> (r matches Err(e) ==> (e == HackrfError::Argument
                || e.is_control_failure(rusb::Direction::In, 1))),
    {
        match txvga_gain_index(value) {
            None => Err(HackrfError::Argument),
            Some(index) => {
                let data = match self.read_control(Request::SetTxvgaGain, 0, index, 1) {
                    Ok(data) => data,
                    Err(e) => {
                        return Err(e);
                    },
                };
                gain_ack(data[0])
            },
        }
    }

    /// Switches antenna port power on or off (fire-and-forget).
    pub fn set_antenna_enable(&mut self, value: u8) -> (r: Result<(), HackrfError>)
        ensures
            *final(self) == *old(self),
            r matches Err(e) ==> e.is_control_failure(rusb::Direction::Out, 0),
    {
        let empty: Vec<u8> = Vec::new();
        self.write_control(Request::AntennaEnable, value as u16, 0, empty.as_slice())
    }

    /// Switches the clock output on or off; needs firmware API 1.0.3: an
    /// older device is rejected with the version pair before any
    /// transfer, and a new enough one sees only the control transfer's
    /// own failures.
    pub fn set_clkout_enable(&mut self, value: bool) -> (r: Result<(), HackrfError>)
        ensures
            *final(self) == *old(self),
            spec_key_of(old(self).device_api_version()) < spec_version_key(1, 0, 3) <==> (r
                matches Err(e) && e matches HackrfError::Version { device, minimal } && device
                == old(self).device_api_version() && minimal.0 == 1 && minimal.1 == 0 && minimal.2
                == 3),
            spec_key_of(old(self).device_api_version()) >= spec_version_key(1, 0, 3) ==> (r
                matches Err(e) ==> e.is_control_failure(rusb::Direction::Out, 0)),
    {
        proof {
            assert((0x0103u16 >> 8) & 0xF == 1) by (bit_vector);
            assert(0x0103u16 >> 12 == 0) by (bit_vector);
            assert((0x0103u16 >> 4) & 0xF == 0) by (bit_vector);
            assert(0x0103u16 & 0xF == 3) by (bit_vector);
        }
        match self.check_api_version(rusb::Version::from_bcd(0x0103)) {
            Ok(()) => {},
            Err(e) => {
                return Err(e);
            },
        }
        let value16: u16 = if value {
            1
        } else {
            0
        };
        let empty: Vec<u8> = Vec::new();
        self.write_control(Request::ClkoutEnable, value16, 0, empty.as_slice())
    }

    /// Selects the hardware synchronisation mode.
    pub fn set_hw_sync_mode(&mut self, value: u8) -> (r: Result<(), HackrfError>)
        ensures
            *final(self) == *old(self),
            r matches Err(e) ==> e.is_control_failure(rusb::Direction::Out, 0),
    {
        let empty: Vec<u8> = Vec::new();
        self.write_control(Request::SetHwSyncMode, value as u16, 0, empty.as_slice())
    }

    /// Resets the device, consuming the session (the unit re-enumerates
    /// at the transport level); needs firmware API 1.0.2: an older device
    /// is rejected with the version pair before any transfer.
    pub fn reset(self) -> (r: Result<(), HackrfError>)
        ensures
            spec_key_of(self.device_api_version()) < spec_version_key(1, 0, 2) <==> (r matches
                Err(e) && e matches HackrfError::Version { device, minimal } && device
                == self.device_api_version() && minimal.0 == 1 && minimal.1 == 0 && minimal.2
                == 2),
            spec_key_of(self.device_api_version()) >= spec_version_key(1, 0, 2) ==> (r matches
                Err(e) ==> e.is_control_failure(rusb::Direction::Out, 0)),
    {
        proof {
            assert((0x0102u16 >> 8) & 0xF == 1) by (bit_vector);
            assert(0x0102u16 >> 12 == 0) by (bit_vector);
            assert((0x0102u16 >> 4) & 0xF == 0) by (bit_vector);
            assert(0x0102u16 & 0xF == 2) by (bit_vector);
        }
        match self.check_api_version(rusb::Version::from_bcd(0x0102)) {
            Ok(()) => {},
            Err(e) => {
                return Err(e);
            },
        }
        let mut this = self;
        match this.write_control(Request::Reset, 0, 0, Vec::new().as_slice()) {
            Ok(()) => {},
            Err(e) => {
                return Err(e);
            },
        }
        this.mode = Mode::Off;
        Ok(())
    }

    /// Issues the set-transceiver-mode request.
    fn set_transceiver_mode(&mut self, mode: TransceiverMode) -> (r: Result<(), HackrfError>)
        ensures
            *final(self) == *old(self),
            r matches Err(e) ==> e.is_control_failure(rusb::Direction::Out, 0),
    {
        let value: u16 = u16::from(mode);
        let empty: Vec<u8> = Vec::new();
        self.write_control(Request::SetTransceiverMode, value, 0, empty.as_slice())
    }

    /// Off to Receiving: puts the device in receive mode, then claims the
    /// streaming interface. On failure the session keeps its prior mode
    /// and holds no claim.
    pub fn enter_rx_mode(&mut self) -> (r: Result<(), HackrfError>)
        requires
            old(self).wf(),
        ensures
            final(self).wf(),
            !(old(self).current_mode() is Off) ==> r == Err::<(), HackrfError>(
                HackrfError::Argument,
            ),
            r is Ok ==> final(self).current_mode() is Rx && final(self).interface_claimed(),
            r is Err ==> final(self).current_mode() == old(self).current_mode() && final(self).interface_claimed() == old(self).interface_claimed(),
            old(self).current_mode() is Off ==> (r matches Err(e) ==> e.is_control_failure(
                rusb::Direction::Out,
                0,
            )),
    {
        if !matches!(self.mode, Mode::Off) {
            return Err(HackrfError::Argument);
        }
        match self.set_transceiver_mode(TransceiverMode::Receive) {
            Ok(()) => {},
            Err(e) => {
                return Err(e);
            },
        }
        match usb_claim_interface(&self.device_handle, 0) {
            Ok(()) => {},
            Err(e) => {
                return Err(HackrfError::Usb(e));
            },
        }
        self.claimed = Ghost(true);
        self.mode = Mode::Rx;
        Ok(())
    }

    /// Off to Transmitting: symmetric to [`HackRF::enter_rx_mode`].
    pub fn enter_tx_mode(&mut self) -> (r: Result<(), HackrfError>)
        requires
            old(self).wf(),
        ensures
            final(self).wf(),
            !(old(self).current_mode() is Off) ==> r == Err::<(), HackrfError>(
                HackrfError::Argument,
            ),
            r is Ok ==> final(self).current_mode() is Tx && final(self).interface_claimed(),
            r is Err ==> final(self).current_mode() == old(self).current_mode() && final(self).interface_claimed() == old(self).interface_claimed(),
            old(self).current_mode() is Off ==> (r matches Err(e) ==> e.is_control_failure(
                rusb::Direction::Out,
                0,
            )),
    {
        if !matches!(self.mode, Mode::Off) {
            return Err(HackrfError::Argument);
        }
        match self.set_transceiver_mode(TransceiverMode::Transmit) {
            Ok(()) => {},
            Err(e) => {
                return Err(e);
            },
        }
        match usb_claim_interface(&self.device_handle, 0) {
            Ok(()) => {},
            Err(e) => {
                return Err(HackrfError::Usb(e));
            },
        }
        self.claimed = Ghost(true);
        self.mode = Mode::Tx;
        Ok(())
    }

    /// Receives one transfer unit: at most [`MAX_TRANSMISSION_UNIT`]
    /// bytes, truncated to what the transport reports. Valid only while
    /// receiving.
    pub fn rx(&mut self) -> (r: Result<Vec<u8>, HackrfError>)
        requires
            old(self).wf(),
        ensures
            *final(self) == *old(self),
            !(old(self).current_mode() is Rx) ==> r == Err::<Vec<u8>, HackrfError>(
                HackrfError::Argument,
            ),
            r matches Ok(data) ==> data@.len() <= MAX_TRANSMISSION_UNIT,
            old(self).current_mode() is Rx ==> (r matches Err(e) ==> e matches HackrfError::Usb(_)),
    {
        if !matches!(self.mode, Mode::Rx) {
            return Err(HackrfError::Argument);
        }
        let mut buffer: Vec<u8> = vec![0u8; MAX_TRANSMISSION_UNIT];
        match usb_read_bulk(&self.device_handle, RX_ENDPOINT_ADDRESS, &mut buffer, self.timeout) {
            Ok(n) => {
                buffer.truncate(n);
                Ok(buffer)
            },
            Err(e) => Err(HackrfError::Usb(e)),
        }
    }

    /// Transmits one transfer unit: the buffer truncated to at most
    /// [`MAX_TRANSMISSION_UNIT`] bytes, not padded. Valid only while
    /// transmitting. A transfer that moves fewer bytes than offered is a
    /// short-transfer error, never a silent success.
    pub fn tx(&mut self, buffer: Vec<u8>) -> (r: Result<(), HackrfError>)
        requires
            old(self).wf(),
        ensures
            *final(self) == *old(self),
            !(old(self).current_mode() is Tx) ==> r == Err::<(), HackrfError>(
                HackrfError::Argument,
            ),
            old(self).current_mode() is Tx ==> (r matches Err(e) ==> e.is_control_failure(
                rusb::Direction::Out,
                spec_clamped_len(buffer@.len() as int),
            )),
    {
        if !matches!(self.mode, Mode::Tx) {
            return Err(HackrfError::Argument);
        }
        let buffer = clamp_to_unit(buffer);
        match usb_write_bulk(&self.device_handle, TX_ENDPOINT_ADDRESS, buffer.as_slice(), self.timeout) {
            Ok(n) => bulk_write_status(n, buffer.len()),
            Err(e) => Err(HackrfError::Usb(e)),
        }
    }

    /// Receiving to Off: takes the device out of receive mode, then
    /// releases the streaming interface. On failure the session keeps its
    /// prior mode and claim.
    pub fn stop_rx(&mut self) -> (r: Result<(), HackrfError>)
        requires
            old(self).wf(),
        ensures
            final(self).wf(),
            !(old(self).current_mode() is Rx) ==> r == Err::<(), HackrfError>(
                HackrfError::Argument,
            ),
            r is Ok ==> final(self).current_mode() is Off && !final(self).interface_claimed(),
            r is Err ==> final(self).current_mode() == old(self).current_mode() && final(self).interface_claimed() == old(self).interface_claimed(),
            old(self).current_mode() is Rx ==> (r matches Err(e) ==> e.is_control_failure(
                rusb::Direction::Out,
                0,
            )),
    {
        if !matches!(self.mode, Mode::Rx) {
            return Err(HackrfError::Argument);
        }
        match self.set_transceiver_mode(TransceiverMode::Off) {
            Ok(()) => {},
            Err(e) => {
                return Err(e);
            },
        }
        match usb_release_interface(&self.device_handle, 0) {
            Ok(()) => {},
            Err(e) => {
                return Err(HackrfError::Usb(e));
            },
        }
        self.claimed = Ghost(false);
        self.mode = Mode::Off;
        Ok(())
    }

    /// Transmitting to Off: symmetric to [`HackRF::stop_rx`].
    pub fn stop_tx(&mut self) -> (r: Result<(), HackrfError>)
        requires
            old(self).wf(),
        ensures
            final(self).wf(),
            !(old(self).current_mode() is Tx) ==> r == Err::<(), HackrfError>(
                HackrfError::Argument,
            ),
            r is Ok ==> final(self).current_mode() is Off && !final(self).interface_claimed(),
            r is Err ==> final(self).current_mode() == old(self).current_mode() && final(self).interface_claimed() == old(self).interface_claimed(),
            old(self).current_mode() is Tx ==> (r matches Err(e) ==> e.is_control_failure(
                rusb::Direction::Out,
                0,
            )),
    {
        if !matches!(self.mode, Mode::Tx) {
            return Err(HackrfError::Argument);
        }
        match self.set_transceiver_mode(TransceiverMode::Off) {
            Ok(()) => {},
            Err(e) => {
                return Err(e);
            },
        }
        match usb_release_interface(&self.device_handle, 0) {
            Ok(()) => {},
            Err(e) => {
                return Err(HackrfError::Usb(e));
            },
        }
        self.claimed = Ghost(false);
        self.mode = Mode::Off;
        Ok(())
    }
}

} // verus!
