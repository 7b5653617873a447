//! Error types of the RDM codec.

use vstd::prelude::*;

verus! {

/// Errors raised while encoding or decoding the parameter data of a message.
#[derive(Clone, Copy, Debug, PartialEq, Eq, Structural)]
pub enum ParameterDataError {
    BufferTooSmall { provided: usize, required: usize },
    MalformedData,
    InvalidUtf8,
    StringTooLong { length: usize, max_length: usize },
}

/// Errors raised while encoding or decoding RDM frames and their fields.
#[derive(Clone, Copy, Debug, PartialEq, Eq, Structural)]
pub enum RdmError {
    InvalidStartCode,
    InvalidFrameLength(u8),
    InvalidMessageLength(u8),
    InvalidChecksum(u16, u16),
    InvalidResponseType(u8),
    InvalidNackReasonCode(u16),
    InvalidStatusType(u8),
    InvalidCommandClass(u8),
    InvalidCommandClassImplementation(u8),
    UnsupportedParameter(u8, u16),
    InvalidParameterDataLength(u8),
    InvalidParameterDataType(u8),
    InvalidSensorUnit(u8),
    InvalidSensorUnitPrefix(u8),
    InvalidDiscoveryUniqueBranchPreamble,
    Utf8Error,
    TryFromSliceError,
    InvalidLampState(u8),
    InvalidLampOnMode(u8),
    InvalidPowerState(u8),
    InvalidOnOffStates(u8),
    InvalidDisplayInvertMode(u8),
    InvalidResetDeviceMode(u8),
    InvalidSensorType(u8),
    InvalidIdentifyMode(u8),
    InvalidMergeMode(u8),
    InvalidPresetProgrammed(u8),
    InvalidPinCode(u16),
    InvalidDhcpMode(u8),
    InvalidStaticConfigType(u8),
    InvalidBrokerState(u8),
    InvalidDiscoveryState(u8),
    InvalidEndpointMode(u8),
    InvalidEndpointType(u8),
    InvalidStringLength(usize, usize),
    InvalidBufferLength(usize, usize),
    ParameterData(ParameterDataError),
    MalformedPacket,
}

} // verus!
