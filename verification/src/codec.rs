//! Pure wire-format encoders: every byte layout the device expects is
//! defined here as a spec function, and the executable encoders are proved
//! to produce exactly those bytes.

use crate::constants::MHZ;
use vstd::prelude::*;
use vstd::string::StringExecFns;

verus! {

/// The four bytes of `x` in little-endian order.
pub open spec fn spec_u32_le(x: u32) -> Seq<u8> {
    seq![
        (x & 0xFF) as u8,
        ((x >> 8) & 0xFF) as u8,
        ((x >> 16) & 0xFF) as u8,
        ((x >> 24) & 0xFF) as u8,
    ]
}

/// Whole-megahertz field of the frequency wire format: `hz / 1 MHz`,
/// saturated to the 32-bit range the wire can carry.
pub open spec fn spec_freq_mhz(hz: u64) -> u32 {
    if hz / (MHZ as u64) > u32::MAX { u32::MAX } else { (hz / (MHZ as u64)) as u32 }
}

/// Residual-hertz field: what remains below the whole-megahertz field,
/// saturated to 32 bits.
pub open spec fn spec_freq_hz(hz: u64) -> u32 {
    if hz - spec_freq_mhz(hz) * MHZ > u32::MAX {
        u32::MAX
    } else {
        (hz - spec_freq_mhz(hz) * MHZ) as u32
    }
}

/// The 8-byte tuning command: whole megahertz then residual hertz, each
/// little-endian.
pub open spec fn spec_freq_params(hz: u64) -> Seq<u8> {
    spec_u32_le(spec_freq_mhz(hz)) + spec_u32_le(spec_freq_hz(hz))
}

/// Encodes a frequency in hertz as the device's 8-byte tuning command.
pub fn freq_params(hz: u64) -> (r: [u8; 8])
    ensures
        r@ == spec_freq_params(hz),
{
    let mhz64: u64 = hz / MHZ;
    let l_freq_mhz: u32 = if mhz64 > u32::MAX as u64 {
        u32::MAX
    } else {
        mhz64 as u32
    };
    let rem: u64 = hz - (l_freq_mhz as u64) * MHZ;
    let l_freq_hz: u32 = if rem > u32::MAX as u64 {
        u32::MAX
    } else {
        rem as u32
    };
    let r: [u8; 8] = [
        (l_freq_mhz & 0xFF) as u8,
        ((l_freq_mhz >> 8) & 0xFF) as u8,
        ((l_freq_mhz >> 16) & 0xFF) as u8,
        ((l_freq_mhz >> 24) & 0xFF) as u8,
        (l_freq_hz & 0xFF) as u8,
        ((l_freq_hz >> 8) & 0xFF) as u8,
        ((l_freq_hz >> 16) & 0xFF) as u8,
        ((l_freq_hz >> 24) & 0xFF) as u8,
    ];
    assert(r@ =~= spec_u32_le(l_freq_mhz) + spec_u32_le(l_freq_hz));
    r
}

/// The two frequency fields reconstruct the tuned value exactly whenever
/// the whole-megahertz count fits the wire's 32-bit field; beyond that
/// the fields saturate instead of wrapping.
pub proof fn lemma_freq_fields_reconstruct(hz: u64)
    requires
        hz / MHZ <= u32::MAX,
    ensures
        spec_freq_mhz(hz) * MHZ + spec_freq_hz(hz) == hz,
{
    vstd::arithmetic::div_mod::lemma_fundamental_div_mod(hz as int, MHZ as int);
}

/// The 8-byte sample-rate command: rate in hertz then divider, each
/// little-endian.
pub open spec fn spec_sample_rate_params(hz: u32, divider: u32) -> Seq<u8> {
    spec_u32_le(hz) + spec_u32_le(divider)
}

/// Encodes a sample rate and divider as the device's 8-byte command.
pub fn sample_rate_params(hz: u32, divider: u32) -> (r: [u8; 8])
    ensures
        r@ == spec_sample_rate_params(hz, divider),
{
    let r: [u8; 8] = [
        (hz & 0xFF) as u8,
        ((hz >> 8) & 0xFF) as u8,
        ((hz >> 16) & 0xFF) as u8,
        ((hz >> 24) & 0xFF) as u8,
        (divider & 0xFF) as u8,
        ((divider >> 8) & 0xFF) as u8,
        ((divider >> 16) & 0xFF) as u8,
        ((divider >> 24) & 0xFF) as u8,
    ];
    assert(r@ =~= spec_u32_le(hz) + spec_u32_le(divider));
    r
}

/// Splits a filter bandwidth in hertz across the value and index fields of
/// the control transfer: low 16 bits in value, high 16 bits in index.
pub fn filter_bandwidth_params(hz: u32) -> (r: (u16, u16))
    ensures
        r.0 == hz & 0xFFFF,
        r.1 == hz >> 16,
{
    proof {
        assert((hz & 0xFFFF) as u16 == hz & 0xFFFF) by (bit_vector);
        assert((hz >> 16) as u16 == hz >> 16) by (bit_vector);
    }
    ((hz & 0xFFFF) as u16, (hz >> 16) as u16)
}

/// The bandwidth the driver programs alongside a sample rate when none is
/// chosen explicitly: three quarters of the actual rate `hz / divider`,
/// truncated to an integer.
pub open spec fn spec_derived_bandwidth(hz: u32, divider: u32) -> int {
    3 * hz / 4 / (divider as int)
}

/// Computes the automatic baseband filter bandwidth for a sample rate.
pub fn derived_bandwidth(hz: u32, divider: u32) -> (bw: u32)
    requires
        divider >= 1,
    ensures
        bw == spec_derived_bandwidth(hz, divider),
{
    let scaled: u64 = 3 * (hz as u64) / 4;
    let bw64: u64 = scaled / (divider as u64);
    bw64 as u32
}

/// Largest LNA (receive amplifier) gain the protocol accepts, in dB.
pub const MAX_LNA_GAIN: u16 = 40;

/// Largest VGA (baseband) gain the protocol accepts, in dB.
pub const MAX_VGA_GAIN: u16 = 62;

/// Largest TX VGA (transmit) gain the protocol accepts, in dB.
pub const MAX_TXVGA_GAIN: u16 = 47;

/// Validates an LNA gain and aligns it to the device's 8 dB steps: the
/// wire value sent for every accepted input.
pub fn lna_gain_index(value: u16) -> (r: Option<u16>)
    ensures
        r is Some <==> value <= MAX_LNA_GAIN,
        r matches Some(i) ==> i == value & !0x07,
{
    if value > MAX_LNA_GAIN {
        None
    } else {
        Some(value & !0x07)
    }
}

/// Validates a VGA gain and aligns it to the device's 2 dB steps.
pub fn vga_gain_index(value: u16) -> (r: Option<u16>)
    ensures
        r is Some <==> value <= MAX_VGA_GAIN,
        r matches Some(i) ==> i == value & !0x01,
{
    if value > MAX_VGA_GAIN {
        None
    } else {
        Some(value & !0x01)
    }
}

/// A 32-bit word read from four bytes in little-endian order.
pub open spec fn spec_u32_from_le(b0: u8, b1: u8, b2: u8, b3: u8) -> u32 {
    (b0 + b1 * 0x100 + b2 * 0x10000 + b3 * 0x1000000) as u32
}

/// Combines four little-endian bytes into a 32-bit word.
pub fn u32_from_le(b0: u8, b1: u8, b2: u8, b3: u8) -> (r: u32)
    ensures
        r == spec_u32_from_le(b0, b1, b2, b3),
{
    b0 as u32 + b1 as u32 * 0x100 + b2 as u32 * 0x10000 + b3 as u32 * 0x1000000
}

/// The packed comparison key of a device API version:
/// `major << 16 | minor << 8 | sub_minor`, as an integer.
pub open spec fn spec_version_key(major: u8, minor: u8, sub_minor: u8) -> u32 {
    (major * 0x10000 + minor * 0x100 + sub_minor) as u32
}

/// Packs a three-part version into its ordered comparison key.
pub fn version_key(major: u8, minor: u8, sub_minor: u8) -> (r: u32)
    ensures
        r == spec_version_key(major, minor, sub_minor),
{
    major as u32 * 0x10000 + minor as u32 * 0x100 + sub_minor as u32
}

/// Lower-case hexadecimal digit of a nibble.
pub open spec fn spec_hex_digit(d: u32) -> char {
    if d == 0 {
        '0'
    } else if d == 1 {
        '1'
    } else if d == 2 {
        '2'
    } else if d == 3 {
        '3'
    } else if d == 4 {
        '4'
    } else if d == 5 {
        '5'
    } else if d == 6 {
        '6'
    } else if d == 7 {
        '7'
    } else if d == 8 {
        '8'
    } else if d == 9 {
        '9'
    } else if d == 10 {
        'a'
    } else if d == 11 {
        'b'
    } else if d == 12 {
        'c'
    } else if d == 13 {
        'd'
    } else if d == 14 {
        'e'
    } else {
        'f'
    }
}

/// The eight hexadecimal digits of a 32-bit word, most significant nibble
/// first, zero-padded.
pub open spec fn spec_hex32(w: u32) -> Seq<char> {
    seq![
        spec_hex_digit((w >> 28) & 0xF),
        spec_hex_digit((w >> 24) & 0xF),
        spec_hex_digit((w >> 20) & 0xF),
        spec_hex_digit((w >> 16) & 0xF),
        spec_hex_digit((w >> 12) & 0xF),
        spec_hex_digit((w >> 8) & 0xF),
        spec_hex_digit((w >> 4) & 0xF),
        spec_hex_digit(w & 0xF),
    ]
}

/// The serial-number rendering: the four 32-bit serial words, each as
/// eight zero-padded hexadecimal digits, concatenated.
pub open spec fn spec_serial_string(w0: u32, w1: u32, w2: u32, w3: u32) -> Seq<char> {
    spec_hex32(w0) + spec_hex32(w1) + spec_hex32(w2) + spec_hex32(w3)
}

fn hex_digit_str(d: u32) -> (r: &'static str)
    requires
        d < 16,
    ensures
        r@ == seq![spec_hex_digit(d)],
{
    let s: &'static str = if d == 0 {
        "0"
    } else if d == 1 {
        "1"
    } else if d == 2 {
        "2"
    } else if d == 3 {
        "3"
    } else if d == 4 {
        "4"
    } else if d == 5 {
        "5"
    } else if d == 6 {
        "6"
    } else if d == 7 {
        "7"
    } else if d == 8 {
        "8"
    } else if d == 9 {
        "9"
    } else if d == 10 {
        "a"
    } else if d == 11 {
        "b"
    } else if d == 12 {
        "c"
    } else if d == 13 {
        "d"
    } else if d == 14 {
        "e"
    } else {
        "f"
    };
    proof {
        reveal_strlit("0");
        reveal_strlit("1");
        reveal_strlit("2");
        reveal_strlit("3");
        reveal_strlit("4");
        reveal_strlit("5");
        reveal_strlit("6");
        reveal_strlit("7");
        reveal_strlit("8");
        reveal_strlit("9");
        reveal_strlit("a");
        reveal_strlit("b");
        reveal_strlit("c");
        reveal_strlit("d");
        reveal_strlit("e");
        reveal_strlit("f");
        assert(s@ =~= seq![spec_hex_digit(d)]);
    }
    s
}

/// Renders a 32-bit word as its eight-digit zero-padded lower-case
/// hexadecimal form.
pub fn hex32(w: u32) -> (r: String)
    ensures
        r@ == spec_hex32(w),
{
    proof {
        assert((w >> 28) & 0xF < 16) by (bit_vector);
        assert((w >> 24) & 0xF < 16) by (bit_vector);
        assert((w >> 20) & 0xF < 16) by (bit_vector);
        assert((w >> 16) & 0xF < 16) by (bit_vector);
        assert((w >> 12) & 0xF < 16) by (bit_vector);
        assert((w >> 8) & 0xF < 16) by (bit_vector);
        assert((w >> 4) & 0xF < 16) by (bit_vector);
        assert(w & 0xF < 16) by (bit_vector);
    }
    let mut s: String = String::new();
    s.append(hex_digit_str((w >> 28) & 0xF));
    s.append(hex_digit_str((w >> 24) & 0xF));
    s.append(hex_digit_str((w >> 20) & 0xF));
    s.append(hex_digit_str((w >> 16) & 0xF));
    s.append(hex_digit_str((w >> 12) & 0xF));
    s.append(hex_digit_str((w >> 8) & 0xF));
    s.append(hex_digit_str((w >> 4) & 0xF));
    s.append(hex_digit_str(w & 0xF));
    proof {
        assert(s@ =~= spec_hex32(w));
    }
    s
}

/// Renders the four words of a 128-bit serial number as a fixed-width
/// 32-digit hexadecimal string.
pub fn serial_number_string(w0: u32, w1: u32, w2: u32, w3: u32) -> (r: String)
    ensures
        r@ == spec_serial_string(w0, w1, w2, w3),
{
    let mut s: String = hex32(w0);
    let s1: String = hex32(w1);
    s.append(s1.as_str());
    let s2: String = hex32(w2);
    s.append(s2.as_str());
    let s3: String = hex32(w3);
    s.append(s3.as_str());
    s
}

/// Validates a TX VGA gain; every whole-dB step is accepted unchanged.
pub fn txvga_gain_index(value: u16) -> (r: Option<u16>)
    ensures
        r is Some <==> value <= MAX_TXVGA_GAIN,
        r matches Some(i) ==> i == value,
{
    if value > MAX_TXVGA_GAIN {
        None
    } else {
        Some(value)
    }
}

} // verus!
