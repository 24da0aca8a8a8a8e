use hackrf::{
    bulk_write_status, clamp_to_unit, decode_version_string, gain_ack, lna_gain_index,
    txvga_gain_index, vga_gain_index, HackRF, HackrfError, Request, TransceiverMode,
    TranscieverMode, MAX_TRANSMISSION_UNIT,
};

#[test]
fn request_codes() {
    assert_eq!(u8::from(Request::SetTransceiverMode), 1);
    assert_eq!(u8::from(Request::SampleRateSet), 6);
    assert_eq!(u8::from(Request::BasebandFilterBandwidthSet), 7);
    assert_eq!(u8::from(Request::BoardIdRead), 14);
    assert_eq!(u8::from(Request::VersionStringRead), 15);
    assert_eq!(u8::from(Request::SetFreq), 16);
    assert_eq!(u8::from(Request::AmpEnable), 17);
    assert_eq!(u8::from(Request::BoardPartidSerialnoRead), 18);
    assert_eq!(u8::from(Request::SetLnaGain), 19);
    assert_eq!(u8::from(Request::SetVgaGain), 20);
    assert_eq!(u8::from(Request::SetTxvgaGain), 21);
    assert_eq!(u8::from(Request::AntennaEnable), 23);
    assert_eq!(u8::from(Request::SetHwSyncMode), 29);
    assert_eq!(u8::from(Request::Reset), 30);
    assert_eq!(u8::from(Request::ClkoutEnable), 32);
}

#[test]
fn transceiver_mode_codes() {
    assert_eq!(u8::from(TransceiverMode::Off), 0);
    assert_eq!(u8::from(TransceiverMode::Receive), 1);
    assert_eq!(u8::from(TransceiverMode::Transmit), 2);
    assert_eq!(u16::from(TransceiverMode::Off), 0);
    assert_eq!(u16::from(TransceiverMode::Receive), 1);
    assert_eq!(u16::from(TransceiverMode::Transmit), 2);
    assert_eq!(u8::from(TranscieverMode::Receive), 1);
    assert_eq!(u16::from(TranscieverMode::Transmit), 2);
}

#[test]
fn unit_size() {
    assert_eq!(MAX_TRANSMISSION_UNIT, 128 * 1024);
}

#[test]
fn lna_gain_range() {
    // Boundary values are accepted; one past the bound is not.
    assert_eq!(lna_gain_index(0), Some(0));
    assert_eq!(lna_gain_index(40), Some(40));
    assert_eq!(lna_gain_index(41), None);
    assert_eq!(lna_gain_index(u16::MAX), None);
    // Accepted values align down to 8 dB steps.
    assert_eq!(lna_gain_index(33), Some(32));
    assert_eq!(lna_gain_index(7), Some(0));
}

#[test]
fn vga_gain_range() {
    assert_eq!(vga_gain_index(0), Some(0));
    assert_eq!(vga_gain_index(62), Some(62));
    assert_eq!(vga_gain_index(63), None);
    assert_eq!(vga_gain_index(61), Some(60));
}

#[test]
fn txvga_gain_range() {
    assert_eq!(txvga_gain_index(0), Some(0));
    assert_eq!(txvga_gain_index(47), Some(47));
    assert_eq!(txvga_gain_index(48), None);
    // No step alignment for the transmit gain.
    assert_eq!(txvga_gain_index(33), Some(33));
}

#[test]
fn transmit_clamp() {
    // An oversized transmit buffer is cut to one unit; short buffers pass
    // through unpadded.
    let big = vec![7u8; MAX_TRANSMISSION_UNIT + 10];
    assert_eq!(clamp_to_unit(big).len(), MAX_TRANSMISSION_UNIT);
    assert_eq!(clamp_to_unit(vec![1, 2, 3]), vec![1, 2, 3]);
    assert_eq!(clamp_to_unit(Vec::new()), Vec::<u8>::new());
}

#[test]
fn version_string_decoding() {
    // Only the reported prefix is decoded; ASCII passes through.
    let raw = b"2024.01.1\0\0\0\0\0\0\0".to_vec();
    assert_eq!(decode_version_string(raw, 9), "2024.01.1");
    assert_eq!(decode_version_string(b"hackrf".to_vec(), 6), "hackrf");
    assert_eq!(decode_version_string(b"abc".to_vec(), 0), "");
    // An invalid byte becomes the replacement character, one per byte.
    assert_eq!(decode_version_string(vec![0x66, 0xFF], 2), "f\u{FFFD}");
}

#[test]
fn partial_write_is_an_error() {
    assert_eq!(bulk_write_status(5, 5), Ok(()));
    assert_eq!(
        bulk_write_status(3, 5),
        Err(HackrfError::ControlTransfer {
            direction: rusb::Direction::Out,
            actual: 3,
            expected: 5,
        })
    );
}

#[test]
fn gain_acknowledgment() {
    assert_eq!(gain_ack(0), Err(HackrfError::Argument));
    assert_eq!(gain_ack(1), Ok(()));
    assert_eq!(gain_ack(255), Ok(()));
}

#[test]
fn version_gate_passes_newer_device() {
    assert!(HackRF::version_gate(rusb::Version(1, 0, 3), rusb::Version(1, 0, 2)).is_ok());
    assert!(HackRF::version_gate(rusb::Version(1, 0, 2), rusb::Version(1, 0, 2)).is_ok());
    assert!(HackRF::version_gate(rusb::Version(2, 0, 0), rusb::Version(1, 9, 9)).is_ok());
}

#[test]
fn version_gate_rejects_older_device() {
    let device = rusb::Version(1, 0, 1);
    let minimal = rusb::Version(1, 0, 2);
    assert_eq!(
        HackRF::version_gate(device, minimal),
        Err(HackrfError::Version { device, minimal })
    );
}
