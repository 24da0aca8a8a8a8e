//! Earlier spelling of the transceiver-mode table, kept so callers using
//! the old module name keep compiling. New code should prefer
//! [`crate::TransceiverMode`].

use vstd::prelude::*;

verus! {

/// Device-side operating state selector, under its older name.
#[allow(dead_code)]
#[derive(Clone, Copy, Debug)]
pub enum TranscieverMode {
    Off,
    Receive,
    Transmit,
    Ss,
    CpldUpdate,
    RxSweep,
}

/// The wire-level code of each transceiver mode.
pub open spec fn spec_transciever_mode_code(tm: TranscieverMode) -> u8 {
    match tm {
        TranscieverMode::Off => 0,
        TranscieverMode::Receive => 1,
        TranscieverMode::Transmit => 2,
        TranscieverMode::Ss => 3,
        TranscieverMode::CpldUpdate => 4,
        TranscieverMode::RxSweep => 5,
    }
}

impl From<TranscieverMode> for u8 {
    fn from(tm: TranscieverMode) -> (code: u8) {
        match tm {
            TranscieverMode::Off => 0,
            TranscieverMode::Receive => 1,
            TranscieverMode::Transmit => 2,
            TranscieverMode::Ss => 3,
            TranscieverMode::CpldUpdate => 4,
            TranscieverMode::RxSweep => 5,
        }
    }
}

impl vstd::std_specs::convert::FromSpecImpl<TranscieverMode> for u8 {
    open spec fn obeys_from_spec() -> bool {
        true
    }

    open spec fn from_spec(tm: TranscieverMode) -> u8 {
        spec_transciever_mode_code(tm)
    }
}

impl From<TranscieverMode> for u16 {
    fn from(tm: TranscieverMode) -> (code: u16) {
        match tm {
            TranscieverMode::Off => 0,
            TranscieverMode::Receive => 1,
            TranscieverMode::Transmit => 2,
            TranscieverMode::Ss => 3,
            TranscieverMode::CpldUpdate => 4,
            TranscieverMode::RxSweep => 5,
        }
    }
}

impl vstd::std_specs::convert::FromSpecImpl<TranscieverMode> for u16 {
    open spec fn obeys_from_spec() -> bool {
        true
    }

    open spec fn from_spec(tm: TranscieverMode) -> u16 {
        spec_transciever_mode_code(tm) as u16
    }
}

} // verus!
