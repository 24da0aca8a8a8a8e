use hackrf::{
    derived_bandwidth, filter_bandwidth_params, freq_params, hex32, sample_rate_params,
    serial_number_string, u32_from_le, version_key,
};

#[test]
fn nominal() {
    assert_eq!(freq_params(915_000_000), [0x93, 0x03, 0, 0, 0, 0, 0, 0]);
    assert_eq!(freq_params(915_000_001), [0x93, 0x03, 0, 0, 1, 0, 0, 0]);
    assert_eq!(
        freq_params(123456789),
        [0x7B, 0, 0, 0, 0x55, 0xF8, 0x06, 0x00]
    );
}

#[test]
fn min() {
    assert_eq!(freq_params(0), [0; 8]);
}

#[test]
fn max() {
    assert_eq!(freq_params(u64::MAX), [0xFF; 8]);
}

#[test]
fn sample_rate_bytes() {
    // 10 MHz = 0x00989680, divider 1, both little-endian.
    assert_eq!(
        sample_rate_params(10_000_000, 1),
        [0x80, 0x96, 0x98, 0x00, 0x01, 0x00, 0x00, 0x00]
    );
    assert_eq!(
        sample_rate_params(0xDDCCBBAA, 0x44332211),
        [0xAA, 0xBB, 0xCC, 0xDD, 0x11, 0x22, 0x33, 0x44]
    );
}

#[test]
fn bandwidth_split() {
    assert_eq!(filter_bandwidth_params(0x12345678), (0x5678, 0x1234));
    assert_eq!(filter_bandwidth_params(0), (0, 0));
    assert_eq!(filter_bandwidth_params(u32::MAX), (0xFFFF, 0xFFFF));
}

#[test]
fn bandwidth_derivation() {
    // 0.75 * 10 MHz / 1, truncated.
    assert_eq!(derived_bandwidth(10_000_000, 1), 7_500_000);
    assert_eq!(derived_bandwidth(20_000_000, 2), 7_500_000);
    // 3 * 10 / 4 = 7, 7 / 3 = 2: truncation at each step.
    assert_eq!(derived_bandwidth(10, 3), 2);
    assert_eq!(derived_bandwidth(u32::MAX, 1), 3_221_225_471);
}

#[test]
fn word_from_le_bytes() {
    assert_eq!(u32_from_le(0x78, 0x56, 0x34, 0x12), 0x12345678);
    assert_eq!(u32_from_le(0xFF, 0xFF, 0xFF, 0xFF), u32::MAX);
    assert_eq!(u32_from_le(0, 0, 0, 0), 0);
}

#[test]
fn version_packing() {
    assert_eq!(version_key(1, 0, 2), 0x010002);
    assert_eq!(version_key(255, 255, 255), 0xFFFFFF);
    assert!(version_key(1, 0, 3) > version_key(1, 0, 2));
    assert!(version_key(2, 0, 0) > version_key(1, 255, 255));
}

#[test]
fn hex_rendering() {
    assert_eq!(hex32(0xDEADBEEF), "deadbeef");
    assert_eq!(hex32(0), "00000000");
    assert_eq!(hex32(0x1A), "0000001a");
    assert_eq!(
        serial_number_string(0, 0xDEADBEEF, 1, 0x12345678),
        "00000000deadbeef0000000112345678"
    );
}
