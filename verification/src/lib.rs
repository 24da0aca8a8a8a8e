//! Host-side driver for the HackRF One software-defined-radio USB peripheral.
//!
//! The crate is organised in layers. [`codec`] holds the pure wire-format
//! functions (frequency, sample rate, gains, hex serial rendering) together
//! with their specifications. [`request`] and [`transceiver_mode`] hold the
//! vendor opcode tables. [`usb`] is the thin trusted boundary around the
//! `rusb` transport. [`device`] ties everything together: the [`HackRF`]
//! session, its operating-mode state machine and the streaming primitives.

pub mod codec;
pub mod constants;
pub mod device;
pub mod error;
pub mod request;
pub mod sample_rate;
mod usb;
pub mod transceiver_mode;
pub mod transciever_mode;

pub use codec::{
    derived_bandwidth, filter_bandwidth_params, freq_params, hex32, lna_gain_index,
    sample_rate_params, serial_number_string, txvga_gain_index, u32_from_le, version_key,
    vga_gain_index, MAX_LNA_GAIN, MAX_TXVGA_GAIN, MAX_VGA_GAIN,
};
pub use device::{bulk_write_status, clamp_to_unit, decode_version_string, gain_ack, HackRF, Mode};
pub use constants::MAX_TRANSMISSION_UNIT;
pub use error::HackrfError;
pub use request::Request;
pub use sample_rate::auto_divider;
pub use transceiver_mode::TransceiverMode;
pub use transciever_mode::TranscieverMode;
