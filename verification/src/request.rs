//! The vendor request opcodes of the control protocol. Each variant stands
//! for one wire-level request number; [`spec_request_code`] is the fixed
//! table and `u8::from` is proved to follow it.

use vstd::prelude::*;

verus! {

/// Vendor-specific control request selector.
#[allow(dead_code)]
#[derive(Clone, Copy, Debug)]
pub enum Request {
    SetTransceiverMode,
    Max2837Write,
    Max2837Read,
    Si5351CWrite,
    Si5351CRead,
    SampleRateSet,
    BasebandFilterBandwidthSet,
    Rffc5071Write,
    Rffc5071Read,
    SpiflashErase,
    SpiflashWrite,
    SpiflashRead,
    BoardIdRead,
    VersionStringRead,
    SetFreq,
    AmpEnable,
    BoardPartidSerialnoRead,
    SetLnaGain,
    SetVgaGain,
    SetTxvgaGain,
    AntennaEnable,
    SetFreqExplicit,
    UsbWcidVendorReq,
    InitSweep,
    OperacakeGetBoards,
    OperacakeSetPorts,
    SetHwSyncMode,
    Reset,
    OperacakeSetRanges,
    ClkoutEnable,
    SpiflashStatus,
    SpiflashClearStatus,
    OperacakeGpioTest,
    CpldChecksum,
    UiEnable,
}

/// The wire-level request number of each vendor request.
pub open spec fn spec_request_code(r: Request) -> u8 {
    match r {
        Request::SetTransceiverMode => 1,
        Request::Max2837Write => 2,
        Request::Max2837Read => 3,
        Request::Si5351CWrite => 4,
        Request::Si5351CRead => 5,
        Request::SampleRateSet => 6,
        Request::BasebandFilterBandwidthSet => 7,
        Request::Rffc5071Write => 8,
        Request::Rffc5071Read => 9,
        Request::SpiflashErase => 10,
        Request::SpiflashWrite => 11,
        Request::SpiflashRead => 12,
        Request::BoardIdRead => 14,
        Request::VersionStringRead => 15,
        Request::SetFreq => 16,
        Request::AmpEnable => 17,
        Request::BoardPartidSerialnoRead => 18,
        Request::SetLnaGain => 19,
        Request::SetVgaGain => 20,
        Request::SetTxvgaGain => 21,
        Request::AntennaEnable => 23,
        Request::SetFreqExplicit => 24,
        Request::UsbWcidVendorReq => 25,
        Request::InitSweep => 26,
        Request::OperacakeGetBoards => 27,
        Request::OperacakeSetPorts => 28,
        Request::SetHwSyncMode => 29,
        Request::Reset => 30,
        Request::OperacakeSetRanges => 31,
        Request::ClkoutEnable => 32,
        Request::SpiflashStatus => 33,
        Request::SpiflashClearStatus => 34,
        Request::OperacakeGpioTest => 35,
        Request::CpldChecksum => 36,
        Request::UiEnable => 37,
    }
}

impl From<Request> for u8 {
    fn from(r: Request) -> (code: u8) {
        match r {
            Request::SetTransceiverMode => 1,
            Request::Max2837Write => 2,
            Request::Max2837Read => 3,
            Request::Si5351CWrite => 4,
            Request::Si5351CRead => 5,
            Request::SampleRateSet => 6,
            Request::BasebandFilterBandwidthSet => 7,
            Request::Rffc5071Write => 8,
            Request::Rffc5071Read => 9,
            Request::SpiflashErase => 10,
            Request::SpiflashWrite => 11,
            Request::SpiflashRead => 12,
            Request::BoardIdRead => 14,
            Request::VersionStringRead => 15,
            Request::SetFreq => 16,
            Request::AmpEnable => 17,
            Request::BoardPartidSerialnoRead => 18,
            Request::SetLnaGain => 19,
            Request::SetVgaGain => 20,
            Request::SetTxvgaGain => 21,
            Request::AntennaEnable => 23,
            Request::SetFreqExplicit => 24,
            Request::UsbWcidVendorReq => 25,
            Request::InitSweep => 26,
            Request::OperacakeGetBoards => 27,
            Request::OperacakeSetPorts => 28,
            Request::SetHwSyncMode => 29,
            Request::Reset => 30,
            Request::OperacakeSetRanges => 31,
            Request::ClkoutEnable => 32,
            Request::SpiflashStatus => 33,
            Request::SpiflashClearStatus => 34,
            Request::OperacakeGpioTest => 35,
            Request::CpldChecksum => 36,
            Request::UiEnable => 37,
        }
    }
}

impl vstd::std_specs::convert::FromSpecImpl<Request> for u8 {
    open spec fn obeys_from_spec() -> bool {
        true
    }

    open spec fn from_spec(r: Request) -> u8 {
        spec_request_code(r)
    }
}

} // verus!
