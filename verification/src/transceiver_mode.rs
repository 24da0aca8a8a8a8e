//! The transceiver-mode codes the device accepts with the
//! set-transceiver-mode vendor request.

use vstd::prelude::*;

verus! {

/// Device-side operating state selector.
#[allow(dead_code)]
#[derive(Clone, Copy, Debug)]
pub enum TransceiverMode {
    Off,
    Receive,
    Transmit,
    Ss,
    CpldUpdate,
    RxSweep,
}

/// The wire-level code of each transceiver mode.
pub open spec fn spec_transceiver_mode_code(tm: TransceiverMode) -> u8 {
    match tm {
        TransceiverMode::Off => 0,
        TransceiverMode::Receive => 1,
        TransceiverMode::Transmit => 2,
        TransceiverMode::Ss => 3,
        TransceiverMode::CpldUpdate => 4,
        TransceiverMode::RxSweep => 5,
    }
}

impl From<TransceiverMode> for u8 {
    fn from(tm: TransceiverMode) -> (code: u8) {
        match tm {
            TransceiverMode::Off => 0,
            TransceiverMode::Receive => 1,
            TransceiverMode::Transmit => 2,
            TransceiverMode::Ss => 3,
            TransceiverMode::CpldUpdate => 4,
            TransceiverMode::RxSweep => 5,
        }
    }
}

impl vstd::std_specs::convert::FromSpecImpl<TransceiverMode> for u8 {
    open spec fn obeys_from_spec() -> bool {
        true
    }

    open spec fn from_spec(tm: TransceiverMode) -> u8 {
        spec_transceiver_mode_code(tm)
    }
}

impl From<TransceiverMode> for u16 {
    fn from(tm: TransceiverMode) -> (code: u16) {
        match tm {
            TransceiverMode::Off => 0,
            TransceiverMode::Receive => 1,
            TransceiverMode::Transmit => 2,
            TransceiverMode::Ss => 3,
            TransceiverMode::CpldUpdate => 4,
            TransceiverMode::RxSweep => 5,
        }
    }
}

impl vstd::std_specs::convert::FromSpecImpl<TransceiverMode> for u16 {
    open spec fn obeys_from_spec() -> bool {
        true
    }

    open spec fn from_spec(tm: TransceiverMode) -> u16 {
        spec_transceiver_mode_code(tm) as u16
    }
}

} // verus!
