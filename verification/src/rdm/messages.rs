//! The messages that describe errors and refusals, as they are shown to a user.

use crate::rdm::error::{ParameterDataError, RdmError};
use crate::rdm::response::ResponseNackReasonCode;
use crate::rdm::text::{lemma_encode_utf8_concat, push_decimal, push_text, spec_decimal};
use vstd::prelude::*;
use vstd::utf8::encode_utf8;

verus! {

impl ParameterDataError {
    /// The message that describes the error.
    pub open spec fn spec_message(self) -> Seq<char> {
        match self {
            ParameterDataError::BufferTooSmall { provided, required } => "Buffer too small: "@ + spec_decimal(provided as nat) + " bytes provided, "@ + spec_decimal(required as nat) + " required"@,
            ParameterDataError::MalformedData => "Malformed data"@,
            ParameterDataError::InvalidUtf8 => "Invalid utf-8 sequence"@,
            ParameterDataError::StringTooLong { length, max_length } => "String too long: "@ + spec_decimal(length as nat) + " bytes, at most "@ + spec_decimal(max_length as nat) + " allowed"@,
        }
    }

    /// Appends the message that describes the error, in UTF-8.
    #[verifier::spinoff_prover]
    pub fn write_message(&self, out: &mut Vec<u8>)
        ensures
            final(out)@ == old(out)@ + encode_utf8(self.spec_message()),
    {
        match self {
            ParameterDataError::BufferTooSmall { provided, required } => {
                push_text(out, "Buffer too small: ");
                push_decimal(out, *provided as u64);
                push_text(out, " bytes provided, ");
                push_decimal(out, *required as u64);
                push_text(out, " required");
                proof {
                    lemma_encode_utf8_concat("Buffer too small: "@, spec_decimal(*provided as nat));
                    lemma_encode_utf8_concat("Buffer too small: "@ + spec_decimal(*provided as nat), " bytes provided, "@);
                    lemma_encode_utf8_concat("Buffer too small: "@ + spec_decimal(*provided as nat) + " bytes provided, "@, spec_decimal(*required as nat));
                    lemma_encode_utf8_concat("Buffer too small: "@ + spec_decimal(*provided as nat) + " bytes provided, "@ + spec_decimal(*required as nat), " required"@);
                }
            },
            ParameterDataError::MalformedData => {
                push_text(out, "Malformed data");
            },
            ParameterDataError::InvalidUtf8 => {
                push_text(out, "Invalid utf-8 sequence");
            },
            ParameterDataError::StringTooLong { length, max_length } => {
                push_text(out, "String too long: ");
                push_decimal(out, *length as u64);
                push_text(out, " bytes, at most ");
                push_decimal(out, *max_length as u64);
                push_text(out, " allowed");
                proof {
                    lemma_encode_utf8_concat("String too long: "@, spec_decimal(*length as nat));
                    lemma_encode_utf8_concat("String too long: "@ + spec_decimal(*length as nat), " bytes, at most "@);
                    lemma_encode_utf8_concat("String too long: "@ + spec_decimal(*length as nat) + " bytes, at most "@, spec_decimal(*max_length as nat));
                    lemma_encode_utf8_concat("String too long: "@ + spec_decimal(*length as nat) + " bytes, at most "@ + spec_decimal(*max_length as nat), " allowed"@);
                }
            },
        }
    }
}

impl RdmError {
    /// The message that describes the error.
    pub open spec fn spec_message(self) -> Seq<char> {
        match self {
            RdmError::InvalidStartCode => "Invalid start code"@,
            RdmError::InvalidFrameLength(a) => "Invalid frame length: "@ + spec_decimal(a as nat),
            RdmError::InvalidMessageLength(a) => "Invalid message length: "@ + spec_decimal(a as nat) + ", must be >= 24 and <= 255"@,
            RdmError::InvalidChecksum(a, b) => "Invalid checksum: "@ + spec_decimal(a as nat) + ", expected: "@ + spec_decimal(b as nat),
            RdmError::InvalidResponseType(a) => "Invalid ResponseType: "@ + spec_decimal(a as nat),
            RdmError::InvalidNackReasonCode(a) => "Invalid NackReasonCode: "@ + spec_decimal(a as nat),
            RdmError::InvalidStatusType(a) => "Invalid StatusType: "@ + spec_decimal(a as nat),
            RdmError::InvalidCommandClass(a) => "Invalid CommandClass: "@ + spec_decimal(a as nat),
            RdmError::InvalidCommandClassImplementation(a) => "Invalid CommandClass Implementation: "@ + spec_decimal(a as nat),
            RdmError::UnsupportedParameter(a, b) => "Unsupported Parameter, CommandClass: "@ + spec_decimal(a as nat) + ", ParameterId: "@ + spec_decimal(b as nat),
            RdmError::InvalidParameterDataLength(a) => "Invalid parameter data length: "@ + spec_decimal(a as nat) + ", must be >= 0 and <= 231"@,
            RdmError::InvalidParameterDataType(a) => "Invalid ParameterDataType: "@ + spec_decimal(a as nat),
            RdmError::InvalidSensorUnit(a) => "Invalid SensorUnit: "@ + spec_decimal(a as nat),
            RdmError::InvalidSensorUnitPrefix(a) => "Invalid SensorUnitPrefix: "@ + spec_decimal(a as nat),
            RdmError::InvalidDiscoveryUniqueBranchPreamble => "Invalid discovery unique branch preamble"@,
            RdmError::Utf8Error => "Invalid utf-8 sequence"@,
            RdmError::TryFromSliceError => "Could not convert slice to array"@,
            RdmError::InvalidLampState(a) => "Invalid LampState: "@ + spec_decimal(a as nat),
            RdmError::InvalidLampOnMode(a) => "Invalid LampOnMode: "@ + spec_decimal(a as nat),
            RdmError::InvalidPowerState(a) => "Invalid PowerState: "@ + spec_decimal(a as nat),
            RdmError::InvalidOnOffStates(a) => "Invalid OnOffStates: "@ + spec_decimal(a as nat),
            RdmError::InvalidDisplayInvertMode(a) => "Invalid DisplayInvertMode: "@ + spec_decimal(a as nat),
            RdmError::InvalidResetDeviceMode(a) => "Invalid ResetDeviceMode: "@ + spec_decimal(a as nat),
            RdmError::InvalidSensorType(a) => "Invalid SensorType: "@ + spec_decimal(a as nat),
            RdmError::InvalidIdentifyMode(a) => "Invalid IdentifyMode: "@ + spec_decimal(a as nat),
            RdmError::InvalidMergeMode(a) => "Invalid MergeMode: "@ + spec_decimal(a as nat),
            RdmError::InvalidPresetProgrammed(a) => "Invalid PresetProgrammed: "@ + spec_decimal(a as nat),
            RdmError::InvalidPinCode(a) => "Invalid PinCode: "@ + spec_decimal(a as nat),
            RdmError::InvalidDhcpMode(a) => "Invalid DhcpMode: "@ + spec_decimal(a as nat),
            RdmError::InvalidStaticConfigType(a) => "Invalid StaticConfigType: "@ + spec_decimal(a as nat),
            RdmError::InvalidBrokerState(a) => "Invalid BrokerState: "@ + spec_decimal(a as nat),
            RdmError::InvalidDiscoveryState(a) => "Invalid DiscoveryState: "@ + spec_decimal(a as nat),
            RdmError::InvalidEndpointMode(a) => "Invalid EndpointMode: "@ + spec_decimal(a as nat),
            RdmError::InvalidEndpointType(a) => "Invalid EndpointType: "@ + spec_decimal(a as nat),
            RdmError::InvalidStringLength(a, b) => "Invalid string length: "@ + spec_decimal(a as nat) + ", must be <= "@ + spec_decimal(b as nat),
            RdmError::InvalidBufferLength(a, b) => "Invalid buffer length: "@ + spec_decimal(a as nat) + ", must be >= "@ + spec_decimal(b as nat),
            RdmError::ParameterData(a) => "Invalid parameter data: "@ + a.spec_message(),
            RdmError::MalformedPacket => "Malformed packet"@,
        }
    }

    /// Appends the message that describes the error, in UTF-8.
    #[verifier::spinoff_prover]
    pub fn write_message(&self, out: &mut Vec<u8>)
        ensures
            final(out)@ == old(out)@ + encode_utf8(self.spec_message()),
    {
        match self {
            RdmError::InvalidStartCode => {
                push_text(out, "Invalid start code");
            },
            RdmError::InvalidFrameLength(a) => {
                push_text(out, "Invalid frame length: ");
                push_decimal(out, *a as u64);
                proof {
                    lemma_encode_utf8_concat("Invalid frame length: "@, spec_decimal(*a as nat));
                }
            },
            RdmError::InvalidMessageLength(a) => {
                push_text(out, "Invalid message length: ");
                push_decimal(out, *a as u64);
                push_text(out, ", must be >= 24 and <= 255");
                proof {
                    lemma_encode_utf8_concat("Invalid message length: "@, spec_decimal(*a as nat));
                    lemma_encode_utf8_concat("Invalid message length: "@ + spec_decimal(*a as nat), ", must be >= 24 and <= 255"@);
                }
            },
            RdmError::InvalidChecksum(a, b) => {
                push_text(out, "Invalid checksum: ");
                push_decimal(out, *a as u64);
                push_text(out, ", expected: ");
                push_decimal(out, *b as u64);
                proof {
                    lemma_encode_utf8_concat("Invalid checksum: "@, spec_decimal(*a as nat));
                    lemma_encode_utf8_concat("Invalid checksum: "@ + spec_decimal(*a as nat), ", expected: "@);
                    lemma_encode_utf8_concat("Invalid checksum: "@ + spec_decimal(*a as nat) + ", expected: "@, spec_decimal(*b as nat));
                }
            },
            RdmError::InvalidResponseType(a) => {
                push_text(out, "Invalid ResponseType: ");
                push_decimal(out, *a as u64);
                proof {
                    lemma_encode_utf8_concat("Invalid ResponseType: "@, spec_decimal(*a as nat));
                }
            },
            RdmError::InvalidNackReasonCode(a) => {
                push_text(out, "Invalid NackReasonCode: ");
                push_decimal(out, *a as u64);
                proof {
                    lemma_encode_utf8_concat("Invalid NackReasonCode: "@, spec_decimal(*a as nat));
                }
            },
            RdmError::InvalidStatusType(a) => {
                push_text(out, "Invalid StatusType: ");
                push_decimal(out, *a as u64);
                proof {
                    lemma_encode_utf8_concat("Invalid StatusType: "@, spec_decimal(*a as nat));
                }
            },
            RdmError::InvalidCommandClass(a) => {
                push_text(out, "Invalid CommandClass: ");
                push_decimal(out, *a as u64);
                proof {
                    lemma_encode_utf8_concat("Invalid CommandClass: "@, spec_decimal(*a as nat));
                }
            },
            RdmError::InvalidCommandClassImplementation(a) => {
                push_text(out, "Invalid CommandClass Implementation: ");
                push_decimal(out, *a as u64);
                proof {
                    lemma_encode_utf8_concat("Invalid CommandClass Implementation: "@, spec_decimal(*a as nat));
                }
            },
            RdmError::UnsupportedParameter(a, b) => {
                push_text(out, "Unsupported Parameter, CommandClass: ");
                push_decimal(out, *a as u64);
                push_text(out, ", ParameterId: ");
                push_decimal(out, *b as u64);
                proof {
                    lemma_encode_utf8_concat("Unsupported Parameter, CommandClass: "@, spec_decimal(*a as nat));
                    lemma_encode_utf8_concat("Unsupported Parameter, CommandClass: "@ + spec_decimal(*a as nat), ", ParameterId: "@);
                    lemma_encode_utf8_concat("Unsupported Parameter, CommandClass: "@ + spec_decimal(*a as nat) + ", ParameterId: "@, spec_decimal(*b as nat));
                }
            },
            RdmError::InvalidParameterDataLength(a) => {
                push_text(out, "Invalid parameter data length: ");
                push_decimal(out, *a as u64);
                push_text(out, ", must be >= 0 and <= 231");
                proof {
                    lemma_encode_utf8_concat("Invalid parameter data length: "@, spec_decimal(*a as nat));
                    lemma_encode_utf8_concat("Invalid parameter data length: "@ + spec_decimal(*a as nat), ", must be >= 0 and <= 231"@);
                }
            },
            RdmError::InvalidParameterDataType(a) => {
                push_text(out, "Invalid ParameterDataType: ");
                push_decimal(out, *a as u64);
                proof {
                    lemma_encode_utf8_concat("Invalid ParameterDataType: "@, spec_decimal(*a as nat));
                }
            },
            RdmError::InvalidSensorUnit(a) => {
                push_text(out, "Invalid SensorUnit: ");
                push_decimal(out, *a as u64);
                proof {
                    lemma_encode_utf8_concat("Invalid SensorUnit: "@, spec_decimal(*a as nat));
                }
            },
            RdmError::InvalidSensorUnitPrefix(a) => {
                push_text(out, "Invalid SensorUnitPrefix: ");
                push_decimal(out, *a as u64);
                proof {
                    lemma_encode_utf8_concat("Invalid SensorUnitPrefix: "@, spec_decimal(*a as nat));
                }
            },
            RdmError::InvalidDiscoveryUniqueBranchPreamble => {
                push_text(out, "Invalid discovery unique branch preamble");
            },
            RdmError::Utf8Error => {
                push_text(out, "Invalid utf-8 sequence");
            },
            RdmError::TryFromSliceError => {
                push_text(out, "Could not convert slice to array");
            },
            RdmError::InvalidLampState(a) => {
                push_text(out, "Invalid LampState: ");
                push_decimal(out, *a as u64);
                proof {
                    lemma_encode_utf8_concat("Invalid LampState: "@, spec_decimal(*a as nat));
                }
            },
            RdmError::InvalidLampOnMode(a) => {
                push_text(out, "Invalid LampOnMode: ");
                push_decimal(out, *a as u64);
                proof {
                    lemma_encode_utf8_concat("Invalid LampOnMode: "@, spec_decimal(*a as nat));
                }
            },
            RdmError::InvalidPowerState(a) => {
                push_text(out, "Invalid PowerState: ");
                push_decimal(out, *a as u64);
                proof {
                    lemma_encode_utf8_concat("Invalid PowerState: "@, spec_decimal(*a as nat));
                }
            },
            RdmError::InvalidOnOffStates(a) => {
                push_text(out, "Invalid OnOffStates: ");
                push_decimal(out, *a as u64);
                proof {
                    lemma_encode_utf8_concat("Invalid OnOffStates: "@, spec_decimal(*a as nat));
                }
            },
            RdmError::InvalidDisplayInvertMode(a) => {
                push_text(out, "Invalid DisplayInvertMode: ");
                push_decimal(out, *a as u64);
                proof {
                    lemma_encode_utf8_concat("Invalid DisplayInvertMode: "@, spec_decimal(*a as nat));
                }
            },
            RdmError::InvalidResetDeviceMode(a) => {
                push_text(out, "Invalid ResetDeviceMode: ");
                push_decimal(out, *a as u64);
                proof {
                    lemma_encode_utf8_concat("Invalid ResetDeviceMode: "@, spec_decimal(*a as nat));
                }
            },
            RdmError::InvalidSensorType(a) => {
                push_text(out, "Invalid SensorType: ");
                push_decimal(out, *a as u64);
                proof {
                    lemma_encode_utf8_concat("Invalid SensorType: "@, spec_decimal(*a as nat));
                }
            },
            RdmError::InvalidIdentifyMode(a) => {
                push_text(out, "Invalid IdentifyMode: ");
                push_decimal(out, *a as u64);
                proof {
                    lemma_encode_utf8_concat("Invalid IdentifyMode: "@, spec_decimal(*a as nat));
                }
            },
            RdmError::InvalidMergeMode(a) => {
                push_text(out, "Invalid MergeMode: ");
                push_decimal(out, *a as u64);
                proof {
                    lemma_encode_utf8_concat("Invalid MergeMode: "@, spec_decimal(*a as nat));
                }
            },
            RdmError::InvalidPresetProgrammed(a) => {
                push_text(out, "Invalid PresetProgrammed: ");
                push_decimal(out, *a as u64);
                proof {
                    lemma_encode_utf8_concat("Invalid PresetProgrammed: "@, spec_decimal(*a as nat));
                }
            },
            RdmError::InvalidPinCode(a) => {
                push_text(out, "Invalid PinCode: ");
                push_decimal(out, *a as u64);
                proof {
                    lemma_encode_utf8_concat("Invalid PinCode: "@, spec_decimal(*a as nat));
                }
            },
            RdmError::InvalidDhcpMode(a) => {
                push_text(out, "Invalid DhcpMode: ");
                push_decimal(out, *a as u64);
                proof {
                    lemma_encode_utf8_concat("Invalid DhcpMode: "@, spec_decimal(*a as nat));
                }
            },
            RdmError::InvalidStaticConfigType(a) => {
                push_text(out, "Invalid StaticConfigType: ");
                push_decimal(out, *a as u64);
                proof {
                    lemma_encode_utf8_concat("Invalid StaticConfigType: "@, spec_decimal(*a as nat));
                }
            },
            RdmError::InvalidBrokerState(a) => {
                push_text(out, "Invalid BrokerState: ");
                push_decimal(out, *a as u64);
                proof {
                    lemma_encode_utf8_concat("Invalid BrokerState: "@, spec_decimal(*a as nat));
                }
            },
            RdmError::InvalidDiscoveryState(a) => {
                push_text(out, "Invalid DiscoveryState: ");
                push_decimal(out, *a as u64);
                proof {
                    lemma_encode_utf8_concat("Invalid DiscoveryState: "@, spec_decimal(*a as nat));
                }
            },
            RdmError::InvalidEndpointMode(a) => {
                push_text(out, "Invalid EndpointMode: ");
                push_decimal(out, *a as u64);
                proof {
                    lemma_encode_utf8_concat("Invalid EndpointMode: "@, spec_decimal(*a as nat));
                }
            },
            RdmError::InvalidEndpointType(a) => {
                push_text(out, "Invalid EndpointType: ");
                push_decimal(out, *a as u64);
                proof {
                    lemma_encode_utf8_concat("Invalid EndpointType: "@, spec_decimal(*a as nat));
                }
            },
            RdmError::InvalidStringLength(a, b) => {
                push_text(out, "Invalid string length: ");
                push_decimal(out, *a as u64);
                push_text(out, ", must be <= ");
                push_decimal(out, *b as u64);
                proof {
                    lemma_encode_utf8_concat("Invalid string length: "@, spec_decimal(*a as nat));
                    lemma_encode_utf8_concat("Invalid string length: "@ + spec_decimal(*a as nat), ", must be <= "@);
                    lemma_encode_utf8_concat("Invalid string length: "@ + spec_decimal(*a as nat) + ", must be <= "@, spec_decimal(*b as nat));
                }
            },
            RdmError::InvalidBufferLength(a, b) => {
                push_text(out, "Invalid buffer length: ");
                push_decimal(out, *a as u64);
                push_text(out, ", must be >= ");
                push_decimal(out, *b as u64);
                proof {
                    lemma_encode_utf8_concat("Invalid buffer length: "@, spec_decimal(*a as nat));
                    lemma_encode_utf8_concat("Invalid buffer length: "@ + spec_decimal(*a as nat), ", must be >= "@);
                    lemma_encode_utf8_concat("Invalid buffer length: "@ + spec_decimal(*a as nat) + ", must be >= "@, spec_decimal(*b as nat));
                }
            },
            RdmError::ParameterData(a) => {
                push_text(out, "Invalid parameter data: ");
                a.write_message(out);
                proof {
                    lemma_encode_utf8_concat("Invalid parameter data: "@, (*a).spec_message());
                }
            },
            RdmError::MalformedPacket => {
                push_text(out, "Malformed packet");
            },
        }
    }
}

impl ResponseNackReasonCode {
    /// The message that describes the reason.
    pub open spec fn spec_message(self) -> Seq<char> {
        match self {
            ResponseNackReasonCode::UnknownPid => "The responder cannot comply with request because the message is not implemented in responder."@,
            ResponseNackReasonCode::FormatError => "The responder cannot interpret request as controller data was not formatted correctly."@,
            ResponseNackReasonCode::HardwareFault => "The responder cannot comply due to an internal hardware fault."@,
            ResponseNackReasonCode::ProxyReject => "Proxy is not the RDM line master and cannot comply with message."@,
            ResponseNackReasonCode::WriteProtect => "Command normally allowed but being blocked currently."@,
            ResponseNackReasonCode::UnsupportedCommandClass => "Not valid for Command Class attempted. May be used where GET allowed but SET is not supported."@,
            ResponseNackReasonCode::DataOutOfRange => "Value for given Parameter out of allowable range or not supported."@,
            ResponseNackReasonCode::BufferFull => "Buffer or Queue space currently has no free space to store data."@,
            ResponseNackReasonCode::PacketSizeUnsupported => "Incoming message exceeds buffer capacity."@,
            ResponseNackReasonCode::SubDeviceIdOutOfRange => "Sub-Device is out of range or unknown."@,
            ResponseNackReasonCode::ProxyBufferFull => "The proxy buffer is full and can not store any more Queued Message or Status Message responses."@,
            ResponseNackReasonCode::ActionNotSupported => "The parameter data is valid but the SET operation cannot be performed with the current configuration."@,
            ResponseNackReasonCode::EndpointNumberInvalid => "The Endpoint Number is invalid."@,
            ResponseNackReasonCode::InvalidEndpointMode => "The Endpoint Mode is invalid."@,
            ResponseNackReasonCode::UnknownUid => "The UID is not known to the responder."@,
            ResponseNackReasonCode::UnknownScope => "The Component is not participating in the given Scope."@,
            ResponseNackReasonCode::InvalidStaticConfigType => "The Static Config Type is invalid."@,
            ResponseNackReasonCode::InvalidIpv4Address => "The IPv4 Address is invalid."@,
            ResponseNackReasonCode::InvalidIpv6Address => "The IPv6 Address is invalid."@,
            ResponseNackReasonCode::InvalidPort => "The transport layer port is invalid."@,
            ResponseNackReasonCode::DeviceAbsent => "The addressed sub-device or sensor is absent."@,
            ResponseNackReasonCode::SensorOutOfRange => "The addressed sensor is out of range."@,
            ResponseNackReasonCode::SensorFault => "The sensor is faulty."@,
            ResponseNackReasonCode::PackingNotSupported => "The specified PID is not supported in packed messages."@,
            ResponseNackReasonCode::ErrorInPackedListTransaction => "Error attempting to action an item in a packed list."@,
            ResponseNackReasonCode::ProxyDrop => "The response to the proxy was lost."@,
            ResponseNackReasonCode::AllCallSetFail => "A SET to SUB_DEVICE_ALL_CALL failed."@,
            ResponseNackReasonCode::ManufacturerSpecific(_) => "Manufacturer specific NACK Code"@,
        }
    }

    /// The message that describes the reason.
    pub fn message(&self) -> (r: &'static str)
        ensures
            r@ == self.spec_message(),
    {
        match self {
            ResponseNackReasonCode::UnknownPid => "The responder cannot comply with request because the message is not implemented in responder.",
            ResponseNackReasonCode::FormatError => "The responder cannot interpret request as controller data was not formatted correctly.",
            ResponseNackReasonCode::HardwareFault => "The responder cannot comply due to an internal hardware fault.",
            ResponseNackReasonCode::ProxyReject => "Proxy is not the RDM line master and cannot comply with message.",
            ResponseNackReasonCode::WriteProtect => "Command normally allowed but being blocked currently.",
            ResponseNackReasonCode::UnsupportedCommandClass => "Not valid for Command Class attempted. May be used where GET allowed but SET is not supported.",
            ResponseNackReasonCode::DataOutOfRange => "Value for given Parameter out of allowable range or not supported.",
            ResponseNackReasonCode::BufferFull => "Buffer or Queue space currently has no free space to store data.",
            ResponseNackReasonCode::PacketSizeUnsupported => "Incoming message exceeds buffer capacity.",
            ResponseNackReasonCode::SubDeviceIdOutOfRange => "Sub-Device is out of range or unknown.",
            ResponseNackReasonCode::ProxyBufferFull => "The proxy buffer is full and can not store any more Queued Message or Status Message responses.",
            ResponseNackReasonCode::ActionNotSupported => "The parameter data is valid but the SET operation cannot be performed with the current configuration.",
            ResponseNackReasonCode::EndpointNumberInvalid => "The Endpoint Number is invalid.",
            ResponseNackReasonCode::InvalidEndpointMode => "The Endpoint Mode is invalid.",
            ResponseNackReasonCode::UnknownUid => "The UID is not known to the responder.",
            ResponseNackReasonCode::UnknownScope => "The Component is not participating in the given Scope.",
            ResponseNackReasonCode::InvalidStaticConfigType => "The Static Config Type is invalid.",
            ResponseNackReasonCode::InvalidIpv4Address => "The IPv4 Address is invalid.",
            ResponseNackReasonCode::InvalidIpv6Address => "The IPv6 Address is invalid.",
            ResponseNackReasonCode::InvalidPort => "The transport layer port is invalid.",
            ResponseNackReasonCode::DeviceAbsent => "The addressed sub-device or sensor is absent.",
            ResponseNackReasonCode::SensorOutOfRange => "The addressed sensor is out of range.",
            ResponseNackReasonCode::SensorFault => "The sensor is faulty.",
            ResponseNackReasonCode::PackingNotSupported => "The specified PID is not supported in packed messages.",
            ResponseNackReasonCode::ErrorInPackedListTransaction => "Error attempting to action an item in a packed list.",
            ResponseNackReasonCode::ProxyDrop => "The response to the proxy was lost.",
            ResponseNackReasonCode::AllCallSetFail => "A SET to SUB_DEVICE_ALL_CALL failed.",
            ResponseNackReasonCode::ManufacturerSpecific(_) => "Manufacturer specific NACK Code",
        }
    }
}

} // verus!
