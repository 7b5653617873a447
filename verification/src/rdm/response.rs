//! RDM responses: their parameters and frames.

use crate::rdm::common::{CommandClass, DeviceUID, SubDeviceId};
use crate::rdm::error::{ParameterDataError, RdmError};
use crate::rdm::parameter::lists::ParameterDataBuffer;
use crate::rdm::parameter::ParameterId;
use crate::rdm::utils::{be16, bsd_16_crc, checksum_spec, copy_encoded, encoded_into, extend_from};
use crate::rdm::wire::FixedWire;
use crate::rdm::{RDM_START_CODE_BYTE, RDM_SUB_START_CODE_BYTE};
use vstd::prelude::*;
use crate::rdm::request::spec_with_checksum;
use crate::rdm::field_errors::{field_error, spec_field_error};
use crate::rdm::utils::{from_be16, from_be32, read_u16};
use crate::rdm::{DISCOVERY_UNIQUE_BRANCH_PREAMBLE_BYTE, DISCOVERY_UNIQUE_BRANCH_PREAMBLE_SEPARATOR_BYTE};
use vstd::std_specs::convert::{FromSpecImpl, TryFromSpecImpl};
use crate::rdm::parameter::e120::response::{DiscMuteResponse, DiscUnMuteResponse, GetBootSoftwareVersionIdResponse, GetBootSoftwareVersionLabelResponse, GetCommsStatusResponse, GetDefaultSlotValueResponse, GetDeviceHoursResponse, GetDeviceInfoResponse, GetDeviceLabelResponse, GetDeviceModelDescriptionResponse, GetDevicePowerCyclesResponse, GetDisplayInvertResponse, GetDisplayLevelResponse, GetDmxPersonalityDescriptionResponse, GetDmxPersonalityResponse, GetDmxStartAddressResponse, GetFactoryDefaultsResponse, GetIdentifyDeviceResponse, GetLampHoursResponse, GetLampOnModeResponse, GetLampStateResponse, GetLampStrikesResponse, GetLanguageCapabilitiesResponse, GetLanguageResponse, GetManufacturerLabelResponse, GetPanInvertResponse, GetPanTiltSwapResponse, GetParameterDescriptionResponse, GetPerformSelfTestResponse, GetPowerStateResponse, GetPresetPlaybackResponse, GetProductDetailIdListResponse, GetProxiedDeviceCountResponse, GetProxiedDevicesResponse, GetRealTimeClockResponse, GetSelfTestDescriptionResponse, GetSensorDefinitionResponse, GetSensorValueResponse, GetSlotDescriptionResponse, GetSlotInfoResponse, GetSoftwareVersionLabelResponse, GetStatusIdDescriptionResponse, GetStatusMessagesResponse, GetSubDeviceIdStatusReportThresholdResponse, GetSupportedParametersResponse, GetTiltInvertResponse, SetSensorValueResponse};
use crate::rdm::parameter::e133::response::{GetBrokerStatusResponse, GetComponentScopeResponse, GetSearchDomainResponse, GetTcpCommsStatusResponse};
use crate::rdm::parameter::e137_1::response::{GetBurnInResponse, GetCurveDescriptionResponse, GetCurveResponse, GetDimmerInfoResponse, GetDmxBlockAddressResponse, GetDmxFailModeResponse, GetDmxStartupModeResponse, GetIdentifyModeResponse, GetLockPinResponse, GetLockStateDescriptionResponse, GetLockStateResponse, GetMaximumLevelResponse, GetMinimumLevelResponse, GetModulationFrequencyDescriptionResponse, GetModulationFrequencyResponse, GetOutputResponseTimeDescriptionResponse, GetOutputResponseTimeResponse, GetPowerOnSelfTestResponse, GetPresetInfoResponse, GetPresetMergeModeResponse, GetPresetStatusResponse};
use crate::rdm::parameter::e137_2::response::{GetDnsDomainNameResponse, GetDnsHostNameResponse, GetDnsIpV4NameServerResponse, GetInterfaceHardwareAddressType1Response, GetInterfaceLabelResponse, GetIpV4CurrentAddressResponse, GetIpV4DefaultRouteResponse, GetIpV4DhcpModeResponse, GetIpV4StaticAddressResponse, GetIpV4ZeroConfModeResponse, GetListInterfacesResponse};
use crate::rdm::parameter::e137_7::response::{GetBackgroundDiscoveryResponse, GetBackgroundQueuedStatusPolicyDescriptionResponse, GetBackgroundQueuedStatusPolicyResponse, GetBindingControlFieldsResponse, GetDiscoveryStateResponse, GetEndpointLabelResponse, GetEndpointListChangeResponse, GetEndpointListResponse, GetEndpointModeResponse, GetEndpointResponderListChangeResponse, GetEndpointRespondersResponse, GetEndpointTimingDescriptionResponse, GetEndpointTimingResponse, GetEndpointToUniverseResponse, GetIdentifyEndpointResponse, GetRdmTrafficEnableResponse, SetBackgroundDiscoveryResponse, SetDiscoveryStateResponse, SetEndpointLabelResponse, SetEndpointModeResponse, SetEndpointTimingResponse, SetEndpointToUniverseResponse, SetIdentifyEndpointResponse, SetRdmTrafficEnableResponse};

verus! {

broadcast use crate::rdm::utils::group_byte_lemmas;

#[derive(Copy, Clone, Debug, PartialEq, Eq, Structural)]
pub enum ResponseNackReasonCode {
    UnknownPid,
    FormatError,
    HardwareFault,
    ProxyReject,
    WriteProtect,
    UnsupportedCommandClass,
    DataOutOfRange,
    BufferFull,
    PacketSizeUnsupported,
    SubDeviceIdOutOfRange,
    ProxyBufferFull,
    ActionNotSupported,
    EndpointNumberInvalid,
    InvalidEndpointMode,
    UnknownUid,
    UnknownScope,
    InvalidStaticConfigType,
    InvalidIpv4Address,
    InvalidIpv6Address,
    InvalidPort,
    DeviceAbsent,
    SensorOutOfRange,
    SensorFault,
    PackingNotSupported,
    ErrorInPackedListTransaction,
    ProxyDrop,
    AllCallSetFail,
    ManufacturerSpecific(u16),
}

impl ResponseNackReasonCode {
    /// The wire value of the variant.
    pub open spec fn spec_to_u16(self) -> u16 {
        match self {
            ResponseNackReasonCode::UnknownPid => 0x0000,
            ResponseNackReasonCode::FormatError => 0x0001,
            ResponseNackReasonCode::HardwareFault => 0x0002,
            ResponseNackReasonCode::ProxyReject => 0x0003,
            ResponseNackReasonCode::WriteProtect => 0x0004,
            ResponseNackReasonCode::UnsupportedCommandClass => 0x0005,
            ResponseNackReasonCode::DataOutOfRange => 0x0006,
            ResponseNackReasonCode::BufferFull => 0x0007,
            ResponseNackReasonCode::PacketSizeUnsupported => 0x0008,
            ResponseNackReasonCode::SubDeviceIdOutOfRange => 0x0009,
            ResponseNackReasonCode::ProxyBufferFull => 0x000a,
            ResponseNackReasonCode::ActionNotSupported => 0x000b,
            ResponseNackReasonCode::EndpointNumberInvalid => 0x000c,
            ResponseNackReasonCode::InvalidEndpointMode => 0x000d,
            ResponseNackReasonCode::UnknownUid => 0x000e,
            ResponseNackReasonCode::UnknownScope => 0x000f,
            ResponseNackReasonCode::InvalidStaticConfigType => 0x0010,
            ResponseNackReasonCode::InvalidIpv4Address => 0x0011,
            ResponseNackReasonCode::InvalidIpv6Address => 0x0012,
            ResponseNackReasonCode::InvalidPort => 0x0013,
            ResponseNackReasonCode::DeviceAbsent => 0x0014,
            ResponseNackReasonCode::SensorOutOfRange => 0x0015,
            ResponseNackReasonCode::SensorFault => 0x0016,
            ResponseNackReasonCode::PackingNotSupported => 0x0017,
            ResponseNackReasonCode::ErrorInPackedListTransaction => 0x0018,
            ResponseNackReasonCode::ProxyDrop => 0x0019,
            ResponseNackReasonCode::AllCallSetFail => 0x0020,
            ResponseNackReasonCode::ManufacturerSpecific(value) => value,
        }
    }

    /// The variant that a wire value stands for.
    pub open spec fn spec_try_from_u16(value: u16) -> Result<Self, RdmError> {
        match value {
            0x0000 => Ok(ResponseNackReasonCode::UnknownPid),
            0x0001 => Ok(ResponseNackReasonCode::FormatError),
            0x0002 => Ok(ResponseNackReasonCode::HardwareFault),
            0x0003 => Ok(ResponseNackReasonCode::ProxyReject),
            0x0004 => Ok(ResponseNackReasonCode::WriteProtect),
            0x0005 => Ok(ResponseNackReasonCode::UnsupportedCommandClass),
            0x0006 => Ok(ResponseNackReasonCode::DataOutOfRange),
            0x0007 => Ok(ResponseNackReasonCode::BufferFull),
            0x0008 => Ok(ResponseNackReasonCode::PacketSizeUnsupported),
            0x0009 => Ok(ResponseNackReasonCode::SubDeviceIdOutOfRange),
            0x000a => Ok(ResponseNackReasonCode::ProxyBufferFull),
            0x000b => Ok(ResponseNackReasonCode::ActionNotSupported),
            0x000c => Ok(ResponseNackReasonCode::EndpointNumberInvalid),
            0x000d => Ok(ResponseNackReasonCode::InvalidEndpointMode),
            0x000e => Ok(ResponseNackReasonCode::UnknownUid),
            0x000f => Ok(ResponseNackReasonCode::UnknownScope),
            0x0010 => Ok(ResponseNackReasonCode::InvalidStaticConfigType),
            0x0011 => Ok(ResponseNackReasonCode::InvalidIpv4Address),
            0x0012 => Ok(ResponseNackReasonCode::InvalidIpv6Address),
            0x0013 => Ok(ResponseNackReasonCode::InvalidPort),
            0x0014 => Ok(ResponseNackReasonCode::DeviceAbsent),
            0x0015 => Ok(ResponseNackReasonCode::SensorOutOfRange),
            0x0016 => Ok(ResponseNackReasonCode::SensorFault),
            0x0017 => Ok(ResponseNackReasonCode::PackingNotSupported),
            0x0018 => Ok(ResponseNackReasonCode::ErrorInPackedListTransaction),
            0x0019 => Ok(ResponseNackReasonCode::ProxyDrop),
            0x0020 => Ok(ResponseNackReasonCode::AllCallSetFail),
            _ => if 0x8000 <= value && value <= 0xffff { Ok(ResponseNackReasonCode::ManufacturerSpecific(value)) } else { Err(RdmError::InvalidNackReasonCode(value)) },
        }
    }

    /// Whether the value is one that decoding its wire value gives back.
    pub open spec fn spec_wire_valid(self) -> bool {
        match self {
            ResponseNackReasonCode::ManufacturerSpecific(value) => 0x8000 <= value && value <= 0xffff,
            _ => true,
        }
    }

    /// Decoding the wire value of a valid variant gives it back.
    pub proof fn lemma_encode_decode(self)
        requires
            self.spec_wire_valid(),
        ensures
            Self::spec_try_from_u16(self.spec_to_u16()) == Ok::<Self, RdmError>(self),
    {
    }

    /// Encoding the variant that a wire value stands for gives the value back.
    pub proof fn lemma_decode_encode(value: u16)
        ensures
            Self::spec_try_from_u16(value) matches Ok(v) ==> v.spec_to_u16() == value && v.spec_wire_valid(),
    {
    }
}

impl ResponseNackReasonCode {
    /// The wire value of the variant.
    #[verifier::rlimit(50)]
    pub fn to_u16(&self) -> (r: u16)
        ensures
            r == self.spec_to_u16(),
    {
        match self {
            ResponseNackReasonCode::UnknownPid => 0x0000,
            ResponseNackReasonCode::FormatError => 0x0001,
            ResponseNackReasonCode::HardwareFault => 0x0002,
            ResponseNackReasonCode::ProxyReject => 0x0003,
            ResponseNackReasonCode::WriteProtect => 0x0004,
            ResponseNackReasonCode::UnsupportedCommandClass => 0x0005,
            ResponseNackReasonCode::DataOutOfRange => 0x0006,
            ResponseNackReasonCode::BufferFull => 0x0007,
            ResponseNackReasonCode::PacketSizeUnsupported => 0x0008,
            ResponseNackReasonCode::SubDeviceIdOutOfRange => 0x0009,
            ResponseNackReasonCode::ProxyBufferFull => 0x000a,
            ResponseNackReasonCode::ActionNotSupported => 0x000b,
            ResponseNackReasonCode::EndpointNumberInvalid => 0x000c,
            ResponseNackReasonCode::InvalidEndpointMode => 0x000d,
            ResponseNackReasonCode::UnknownUid => 0x000e,
            ResponseNackReasonCode::UnknownScope => 0x000f,
            ResponseNackReasonCode::InvalidStaticConfigType => 0x0010,
            ResponseNackReasonCode::InvalidIpv4Address => 0x0011,
            ResponseNackReasonCode::InvalidIpv6Address => 0x0012,
            ResponseNackReasonCode::InvalidPort => 0x0013,
            ResponseNackReasonCode::DeviceAbsent => 0x0014,
            ResponseNackReasonCode::SensorOutOfRange => 0x0015,
            ResponseNackReasonCode::SensorFault => 0x0016,
            ResponseNackReasonCode::PackingNotSupported => 0x0017,
            ResponseNackReasonCode::ErrorInPackedListTransaction => 0x0018,
            ResponseNackReasonCode::ProxyDrop => 0x0019,
            ResponseNackReasonCode::AllCallSetFail => 0x0020,
            ResponseNackReasonCode::ManufacturerSpecific(value) => *value,
        }
    }

    /// The variant that a wire value stands for, or the error for a value that stands for none.
    #[verifier::rlimit(50)]
    pub fn try_from_u16(value: u16) -> (r: Result<Self, RdmError>)
        ensures
            r == Self::spec_try_from_u16(value),
    {
        match value {
            0x0000 => Ok(ResponseNackReasonCode::UnknownPid),
            0x0001 => Ok(ResponseNackReasonCode::FormatError),
            0x0002 => Ok(ResponseNackReasonCode::HardwareFault),
            0x0003 => Ok(ResponseNackReasonCode::ProxyReject),
            0x0004 => Ok(ResponseNackReasonCode::WriteProtect),
            0x0005 => Ok(ResponseNackReasonCode::UnsupportedCommandClass),
            0x0006 => Ok(ResponseNackReasonCode::DataOutOfRange),
            0x0007 => Ok(ResponseNackReasonCode::BufferFull),
            0x0008 => Ok(ResponseNackReasonCode::PacketSizeUnsupported),
            0x0009 => Ok(ResponseNackReasonCode::SubDeviceIdOutOfRange),
            0x000a => Ok(ResponseNackReasonCode::ProxyBufferFull),
            0x000b => Ok(ResponseNackReasonCode::ActionNotSupported),
            0x000c => Ok(ResponseNackReasonCode::EndpointNumberInvalid),
            0x000d => Ok(ResponseNackReasonCode::InvalidEndpointMode),
            0x000e => Ok(ResponseNackReasonCode::UnknownUid),
            0x000f => Ok(ResponseNackReasonCode::UnknownScope),
            0x0010 => Ok(ResponseNackReasonCode::InvalidStaticConfigType),
            0x0011 => Ok(ResponseNackReasonCode::InvalidIpv4Address),
            0x0012 => Ok(ResponseNackReasonCode::InvalidIpv6Address),
            0x0013 => Ok(ResponseNackReasonCode::InvalidPort),
            0x0014 => Ok(ResponseNackReasonCode::DeviceAbsent),
            0x0015 => Ok(ResponseNackReasonCode::SensorOutOfRange),
            0x0016 => Ok(ResponseNackReasonCode::SensorFault),
            0x0017 => Ok(ResponseNackReasonCode::PackingNotSupported),
            0x0018 => Ok(ResponseNackReasonCode::ErrorInPackedListTransaction),
            0x0019 => Ok(ResponseNackReasonCode::ProxyDrop),
            0x0020 => Ok(ResponseNackReasonCode::AllCallSetFail),
            _ => if 0x8000 <= value && value <= 0xffff { Ok(ResponseNackReasonCode::ManufacturerSpecific(value)) } else { Err(RdmError::InvalidNackReasonCode(value)) },
        }
    }
}

impl TryFrom<u16> for ResponseNackReasonCode {
    type Error = RdmError;

    fn try_from(value: u16) -> (r: Result<Self, RdmError>) {
        Self::try_from_u16(value)
    }
}

impl TryFromSpecImpl<u16> for ResponseNackReasonCode {
    open spec fn obeys_try_from_spec() -> bool {
        true
    }

    open spec fn try_from_spec(value: u16) -> Result<Self, RdmError> {
        Self::spec_try_from_u16(value)
    }
}

impl From<ResponseNackReasonCode> for u16 {
    fn from(value: ResponseNackReasonCode) -> (r: u16) {
        value.to_u16()
    }
}

impl FromSpecImpl<ResponseNackReasonCode> for u16 {
    open spec fn obeys_from_spec() -> bool {
        true
    }

    open spec fn from_spec(value: ResponseNackReasonCode) -> u16 {
        value.spec_to_u16()
    }
}

impl<'a> FixedWire<'a> for ResponseNackReasonCode {
    open spec fn spec_size() -> nat {
        2
    }

    open spec fn spec_wire(&self) -> Seq<u8> {
        self.spec_to_u16().spec_wire()
    }

    open spec fn spec_read(bytes: Seq<u8>) -> Option<Self> {
        match u16::spec_read(bytes) {
            Some(value) => match Self::spec_try_from_u16(value) {
                Ok(v) => Some(v),
                Err(_) => None,
            },
            None => None,
        }
    }

    open spec fn spec_wire_valid(&self) -> bool {
        ResponseNackReasonCode::spec_wire_valid(*self)
    }

    fn wire_size() -> (n: usize) {
        2
    }

    fn write_wire(&self, out: &mut Vec<u8>) {
        self.to_u16().write_wire(out);
    }

    fn read_wire(buf: &'a [u8], pos: usize) -> (r: Option<Self>) {
        let value = match u16::read_wire(buf, pos) {
            Some(value) => value,
            None => return None,
        };
        match Self::try_from_u16(value) {
            Ok(v) => Some(v),
            Err(_) => None,
        }
    }

    proof fn lemma_wire(&self) {
        self.spec_to_u16().lemma_wire();
        if self.spec_wire_valid() {
            self.lemma_encode_decode();
        }
    }
}

#[derive(Copy, Clone, Debug, PartialEq, Eq, Structural)]
pub enum ResponseType {
    Ack,
    AckTimer,
    NackReason,
    AckOverflow,
    AckTimerHiRes,
}

impl ResponseType {
    /// The wire value of the variant.
    pub open spec fn spec_to_u8(self) -> u8 {
        match self {
            ResponseType::Ack => 0x00,
            ResponseType::AckTimer => 0x01,
            ResponseType::NackReason => 0x02,
            ResponseType::AckOverflow => 0x03,
            ResponseType::AckTimerHiRes => 0x04,
        }
    }

    /// The variant that a wire value stands for.
    pub open spec fn spec_try_from_u8(value: u8) -> Result<Self, RdmError> {
        match value {
            0x00 => Ok(ResponseType::Ack),
            0x01 => Ok(ResponseType::AckTimer),
            0x02 => Ok(ResponseType::NackReason),
            0x03 => Ok(ResponseType::AckOverflow),
            0x04 => Ok(ResponseType::AckTimerHiRes),
            _ => Err(RdmError::InvalidResponseType(value)),
        }
    }

    /// Whether the value is one that decoding its wire value gives back.
    pub open spec fn spec_wire_valid(self) -> bool {
        match self {
            _ => true,
        }
    }

    /// Decoding the wire value of a valid variant gives it back.
    pub proof fn lemma_encode_decode(self)
        requires
            self.spec_wire_valid(),
        ensures
            Self::spec_try_from_u8(self.spec_to_u8()) == Ok::<Self, RdmError>(self),
    {
    }

    /// Encoding the variant that a wire value stands for gives the value back.
    pub proof fn lemma_decode_encode(value: u8)
        ensures
            Self::spec_try_from_u8(value) matches Ok(v) ==> v.spec_to_u8() == value && v.spec_wire_valid(),
    {
    }
}

impl ResponseType {
    /// The wire value of the variant.
    pub fn to_u8(&self) -> (r: u8)
        ensures
            r == self.spec_to_u8(),
    {
        match self {
            ResponseType::Ack => 0x00,
            ResponseType::AckTimer => 0x01,
            ResponseType::NackReason => 0x02,
            ResponseType::AckOverflow => 0x03,
            ResponseType::AckTimerHiRes => 0x04,
        }
    }

    /// The variant that a wire value stands for, or the error for a value that stands for none.
    pub fn try_from_u8(value: u8) -> (r: Result<Self, RdmError>)
        ensures
            r == Self::spec_try_from_u8(value),
    {
        match value {
            0x00 => Ok(ResponseType::Ack),
            0x01 => Ok(ResponseType::AckTimer),
            0x02 => Ok(ResponseType::NackReason),
            0x03 => Ok(ResponseType::AckOverflow),
            0x04 => Ok(ResponseType::AckTimerHiRes),
            _ => Err(RdmError::InvalidResponseType(value)),
        }
    }
}

impl TryFrom<u8> for ResponseType {
    type Error = RdmError;

    fn try_from(value: u8) -> (r: Result<Self, RdmError>) {
        Self::try_from_u8(value)
    }
}

impl TryFromSpecImpl<u8> for ResponseType {
    open spec fn obeys_try_from_spec() -> bool {
        true
    }

    open spec fn try_from_spec(value: u8) -> Result<Self, RdmError> {
        Self::spec_try_from_u8(value)
    }
}

impl From<ResponseType> for u8 {
    fn from(value: ResponseType) -> (r: u8) {
        value.to_u8()
    }
}

impl FromSpecImpl<ResponseType> for u8 {
    open spec fn obeys_from_spec() -> bool {
        true
    }

    open spec fn from_spec(value: ResponseType) -> u8 {
        value.spec_to_u8()
    }
}

impl<'a> FixedWire<'a> for ResponseType {
    open spec fn spec_size() -> nat {
        1
    }

    open spec fn spec_wire(&self) -> Seq<u8> {
        self.spec_to_u8().spec_wire()
    }

    open spec fn spec_read(bytes: Seq<u8>) -> Option<Self> {
        match u8::spec_read(bytes) {
            Some(value) => match Self::spec_try_from_u8(value) {
                Ok(v) => Some(v),
                Err(_) => None,
            },
            None => None,
        }
    }

    open spec fn spec_wire_valid(&self) -> bool {
        ResponseType::spec_wire_valid(*self)
    }

    fn wire_size() -> (n: usize) {
        1
    }

    fn write_wire(&self, out: &mut Vec<u8>) {
        self.to_u8().write_wire(out);
    }

    fn read_wire(buf: &'a [u8], pos: usize) -> (r: Option<Self>) {
        let value = match u8::read_wire(buf, pos) {
            Some(value) => value,
            None => return None,
        };
        match Self::try_from_u8(value) {
            Ok(v) => Some(v),
            Err(_) => None,
        }
    }

    proof fn lemma_wire(&self) {
        self.spec_to_u8().lemma_wire();
        if self.spec_wire_valid() {
            self.lemma_encode_decode();
        }
    }
}

#[derive(Clone, Copy, Debug, PartialEq)]
pub enum ResponseParameterData<'a> {
    DiscMute(DiscMuteResponse),
    DiscUnMute(DiscUnMuteResponse),
    GetProxiedDevices(GetProxiedDevicesResponse),
    GetProxiedDeviceCount(GetProxiedDeviceCountResponse),
    GetCommsStatus(GetCommsStatusResponse),
    GetStatusMessages(GetStatusMessagesResponse),
    GetStatusIdDescription(GetStatusIdDescriptionResponse),
    GetSubDeviceIdStatusReportThreshold(GetSubDeviceIdStatusReportThresholdResponse),
    GetSupportedParameters(GetSupportedParametersResponse),
    GetParameterDescription(GetParameterDescriptionResponse),
    GetDeviceInfo(GetDeviceInfoResponse),
    GetProductDetailIdList(GetProductDetailIdListResponse),
    GetDeviceModelDescription(GetDeviceModelDescriptionResponse),
    GetManufacturerLabel(GetManufacturerLabelResponse),
    GetDeviceLabel(GetDeviceLabelResponse),
    GetFactoryDefaults(GetFactoryDefaultsResponse),
    GetLanguage(GetLanguageResponse<'a>),
    GetLanguageCapabilities(GetLanguageCapabilitiesResponse<'a>),
    GetSoftwareVersionLabel(GetSoftwareVersionLabelResponse),
    GetBootSoftwareVersionId(GetBootSoftwareVersionIdResponse),
    GetBootSoftwareVersionLabel(GetBootSoftwareVersionLabelResponse),
    GetDmxPersonality(GetDmxPersonalityResponse),
    GetDmxPersonalityDescription(GetDmxPersonalityDescriptionResponse),
    GetDmxStartAddress(GetDmxStartAddressResponse),
    GetSlotInfo(GetSlotInfoResponse),
    GetSlotDescription(GetSlotDescriptionResponse),
    GetDefaultSlotValue(GetDefaultSlotValueResponse),
    GetSensorDefinition(GetSensorDefinitionResponse),
    GetSensorValue(GetSensorValueResponse),
    SetSensorValue(SetSensorValueResponse),
    GetDeviceHours(GetDeviceHoursResponse),
    GetLampHours(GetLampHoursResponse),
    GetLampStrikes(GetLampStrikesResponse),
    GetLampState(GetLampStateResponse),
    GetLampOnMode(GetLampOnModeResponse),
    GetDevicePowerCycles(GetDevicePowerCyclesResponse),
    GetDisplayInvert(GetDisplayInvertResponse),
    GetDisplayLevel(GetDisplayLevelResponse),
    GetPanInvert(GetPanInvertResponse),
    GetTiltInvert(GetTiltInvertResponse),
    GetPanTiltSwap(GetPanTiltSwapResponse),
    GetRealTimeClock(GetRealTimeClockResponse),
    GetIdentifyDevice(GetIdentifyDeviceResponse),
    GetPowerState(GetPowerStateResponse),
    GetPerformSelfTest(GetPerformSelfTestResponse),
    GetSelfTestDescription(GetSelfTestDescriptionResponse),
    GetPresetPlayback(GetPresetPlaybackResponse),
    GetComponentScope(GetComponentScopeResponse),
    GetSearchDomain(GetSearchDomainResponse),
    GetTcpCommsStatus(GetTcpCommsStatusResponse),
    GetBrokerStatus(GetBrokerStatusResponse),
    GetDmxBlockAddress(GetDmxBlockAddressResponse),
    GetDmxFailMode(GetDmxFailModeResponse),
    GetDmxStartupMode(GetDmxStartupModeResponse),
    GetDimmerInfo(GetDimmerInfoResponse),
    GetMinimumLevel(GetMinimumLevelResponse),
    GetMaximumLevel(GetMaximumLevelResponse),
    GetCurve(GetCurveResponse),
    GetCurveDescription(GetCurveDescriptionResponse),
    GetOutputResponseTime(GetOutputResponseTimeResponse),
    GetOutputResponseTimeDescription(GetOutputResponseTimeDescriptionResponse),
    GetModulationFrequency(GetModulationFrequencyResponse),
    GetModulationFrequencyDescription(GetModulationFrequencyDescriptionResponse),
    GetBurnIn(GetBurnInResponse),
    GetLockPin(GetLockPinResponse),
    GetLockState(GetLockStateResponse),
    GetLockStateDescription(GetLockStateDescriptionResponse),
    GetIdentifyMode(GetIdentifyModeResponse),
    GetPresetInfo(GetPresetInfoResponse),
    GetPresetMergeMode(GetPresetMergeModeResponse),
    GetPresetStatus(GetPresetStatusResponse),
    GetPowerOnSelfTest(GetPowerOnSelfTestResponse),
    GetListInterfaces(GetListInterfacesResponse),
    GetInterfaceLabel(GetInterfaceLabelResponse),
    GetInterfaceHardwareAddressType1(GetInterfaceHardwareAddressType1Response),
    GetIpV4DhcpMode(GetIpV4DhcpModeResponse),
    GetIpV4ZeroConfMode(GetIpV4ZeroConfModeResponse),
    GetIpV4CurrentAddress(GetIpV4CurrentAddressResponse),
    GetIpV4StaticAddress(GetIpV4StaticAddressResponse),
    GetIpV4DefaultRoute(GetIpV4DefaultRouteResponse),
    GetDnsIpV4NameServer(GetDnsIpV4NameServerResponse),
    GetDnsHostName(GetDnsHostNameResponse),
    GetDnsDomainName(GetDnsDomainNameResponse),
    GetEndpointList(GetEndpointListResponse),
    GetEndpointListChange(GetEndpointListChangeResponse),
    GetIdentifyEndpoint(GetIdentifyEndpointResponse),
    SetIdentifyEndpoint(SetIdentifyEndpointResponse),
    GetEndpointToUniverse(GetEndpointToUniverseResponse),
    SetEndpointToUniverse(SetEndpointToUniverseResponse),
    GetEndpointMode(GetEndpointModeResponse),
    SetEndpointMode(SetEndpointModeResponse),
    GetEndpointLabel(GetEndpointLabelResponse),
    SetEndpointLabel(SetEndpointLabelResponse),
    GetRdmTrafficEnable(GetRdmTrafficEnableResponse),
    SetRdmTrafficEnable(SetRdmTrafficEnableResponse),
    GetDiscoveryState(GetDiscoveryStateResponse),
    SetDiscoveryState(SetDiscoveryStateResponse),
    GetBackgroundDiscovery(GetBackgroundDiscoveryResponse),
    SetBackgroundDiscovery(SetBackgroundDiscoveryResponse),
    GetEndpointTiming(GetEndpointTimingResponse),
    SetEndpointTiming(SetEndpointTimingResponse),
    GetEndpointTimingDescription(GetEndpointTimingDescriptionResponse),
    GetEndpointResponders(GetEndpointRespondersResponse),
    GetEndpointResponderListChange(GetEndpointResponderListChangeResponse),
    GetBindingControlFields(GetBindingControlFieldsResponse),
    GetBackgroundQueuedStatusPolicy(GetBackgroundQueuedStatusPolicyResponse),
    GetBackgroundQueuedStatusPolicyDescription(GetBackgroundQueuedStatusPolicyDescriptionResponse),
    /// The raw data of a manufacturer specific parameter.
    ManufacturerSpecific(ParameterDataBuffer),
    /// The raw data of a parameter that the library does not model.
    Unsupported(ParameterDataBuffer),
}

impl<'a> ResponseParameterData<'a> {
    /// The command class of the frame that carries the parameter.
    pub open spec fn spec_command_class(self) -> CommandClass {
        match self {
            ResponseParameterData::DiscMute(_) => CommandClass::DiscoveryCommandResponse,
            ResponseParameterData::DiscUnMute(_) => CommandClass::DiscoveryCommandResponse,
            ResponseParameterData::GetProxiedDevices(_) => CommandClass::GetCommandResponse,
            ResponseParameterData::GetProxiedDeviceCount(_) => CommandClass::GetCommandResponse,
            ResponseParameterData::GetCommsStatus(_) => CommandClass::GetCommandResponse,
            ResponseParameterData::GetStatusMessages(_) => CommandClass::GetCommandResponse,
            ResponseParameterData::GetStatusIdDescription(_) => CommandClass::GetCommandResponse,
            ResponseParameterData::GetSubDeviceIdStatusReportThreshold(_) => CommandClass::GetCommandResponse,
            ResponseParameterData::GetSupportedParameters(_) => CommandClass::GetCommandResponse,
            ResponseParameterData::GetParameterDescription(_) => CommandClass::GetCommandResponse,
            ResponseParameterData::GetDeviceInfo(_) => CommandClass::GetCommandResponse,
            ResponseParameterData::GetProductDetailIdList(_) => CommandClass::GetCommandResponse,
            ResponseParameterData::GetDeviceModelDescription(_) => CommandClass::GetCommandResponse,
            ResponseParameterData::GetManufacturerLabel(_) => CommandClass::GetCommandResponse,
            ResponseParameterData::GetDeviceLabel(_) => CommandClass::GetCommandResponse,
            ResponseParameterData::GetFactoryDefaults(_) => CommandClass::GetCommandResponse,
            ResponseParameterData::GetLanguage(_) => CommandClass::GetCommandResponse,
            ResponseParameterData::GetLanguageCapabilities(_) => CommandClass::GetCommandResponse,
            ResponseParameterData::GetSoftwareVersionLabel(_) => CommandClass::GetCommandResponse,
            ResponseParameterData::GetBootSoftwareVersionId(_) => CommandClass::GetCommandResponse,
            ResponseParameterData::GetBootSoftwareVersionLabel(_) => CommandClass::GetCommandResponse,
            ResponseParameterData::GetDmxPersonality(_) => CommandClass::GetCommandResponse,
            ResponseParameterData::GetDmxPersonalityDescription(_) => CommandClass::GetCommandResponse,
            ResponseParameterData::GetDmxStartAddress(_) => CommandClass::GetCommandResponse,
            ResponseParameterData::GetSlotInfo(_) => CommandClass::GetCommandResponse,
            ResponseParameterData::GetSlotDescription(_) => CommandClass::GetCommandResponse,
            ResponseParameterData::GetDefaultSlotValue(_) => CommandClass::GetCommandResponse,
            ResponseParameterData::GetSensorDefinition(_) => CommandClass::GetCommandResponse,
            ResponseParameterData::GetSensorValue(_) => CommandClass::GetCommandResponse,
            ResponseParameterData::SetSensorValue(_) => CommandClass::SetCommandResponse,
            ResponseParameterData::GetDeviceHours(_) => CommandClass::GetCommandResponse,
            ResponseParameterData::GetLampHours(_) => CommandClass::GetCommandResponse,
            ResponseParameterData::GetLampStrikes(_) => CommandClass::GetCommandResponse,
            ResponseParameterData::GetLampState(_) => CommandClass::GetCommandResponse,
            ResponseParameterData::GetLampOnMode(_) => CommandClass::GetCommandResponse,
            ResponseParameterData::GetDevicePowerCycles(_) => CommandClass::GetCommandResponse,
            ResponseParameterData::GetDisplayInvert(_) => CommandClass::GetCommandResponse,
            ResponseParameterData::GetDisplayLevel(_) => CommandClass::GetCommandResponse,
            ResponseParameterData::GetPanInvert(_) => CommandClass::GetCommandResponse,
            ResponseParameterData::GetTiltInvert(_) => CommandClass::GetCommandResponse,
            ResponseParameterData::GetPanTiltSwap(_) => CommandClass::GetCommandResponse,
            ResponseParameterData::GetRealTimeClock(_) => CommandClass::GetCommandResponse,
            ResponseParameterData::GetIdentifyDevice(_) => CommandClass::GetCommandResponse,
            ResponseParameterData::GetPowerState(_) => CommandClass::GetCommandResponse,
            ResponseParameterData::GetPerformSelfTest(_) => CommandClass::GetCommandResponse,
            ResponseParameterData::GetSelfTestDescription(_) => CommandClass::GetCommandResponse,
            ResponseParameterData::GetPresetPlayback(_) => CommandClass::GetCommandResponse,
            ResponseParameterData::GetComponentScope(_) => CommandClass::GetCommandResponse,
            ResponseParameterData::GetSearchDomain(_) => CommandClass::GetCommandResponse,
            ResponseParameterData::GetTcpCommsStatus(_) => CommandClass::GetCommandResponse,
            ResponseParameterData::GetBrokerStatus(_) => CommandClass::GetCommandResponse,
            ResponseParameterData::GetDmxBlockAddress(_) => CommandClass::GetCommandResponse,
            ResponseParameterData::GetDmxFailMode(_) => CommandClass::GetCommandResponse,
            ResponseParameterData::GetDmxStartupMode(_) => CommandClass::GetCommandResponse,
            ResponseParameterData::GetDimmerInfo(_) => CommandClass::GetCommandResponse,
            ResponseParameterData::GetMinimumLevel(_) => CommandClass::GetCommandResponse,
            ResponseParameterData::GetMaximumLevel(_) => CommandClass::GetCommandResponse,
            ResponseParameterData::GetCurve(_) => CommandClass::GetCommandResponse,
            ResponseParameterData::GetCurveDescription(_) => CommandClass::GetCommandResponse,
            ResponseParameterData::GetOutputResponseTime(_) => CommandClass::GetCommandResponse,
            ResponseParameterData::GetOutputResponseTimeDescription(_) => CommandClass::GetCommandResponse,
            ResponseParameterData::GetModulationFrequency(_) => CommandClass::GetCommandResponse,
            ResponseParameterData::GetModulationFrequencyDescription(_) => CommandClass::GetCommandResponse,
            ResponseParameterData::GetBurnIn(_) => CommandClass::GetCommandResponse,
            ResponseParameterData::GetLockPin(_) => CommandClass::GetCommandResponse,
            ResponseParameterData::GetLockState(_) => CommandClass::GetCommandResponse,
            ResponseParameterData::GetLockStateDescription(_) => CommandClass::GetCommandResponse,
            ResponseParameterData::GetIdentifyMode(_) => CommandClass::GetCommandResponse,
            ResponseParameterData::GetPresetInfo(_) => CommandClass::GetCommandResponse,
            ResponseParameterData::GetPresetMergeMode(_) => CommandClass::GetCommandResponse,
            ResponseParameterData::GetPresetStatus(_) => CommandClass::GetCommandResponse,
            ResponseParameterData::GetPowerOnSelfTest(_) => CommandClass::GetCommandResponse,
            ResponseParameterData::GetListInterfaces(_) => CommandClass::GetCommandResponse,
            ResponseParameterData::GetInterfaceLabel(_) => CommandClass::GetCommandResponse,
            ResponseParameterData::GetInterfaceHardwareAddressType1(_) => CommandClass::GetCommandResponse,
            ResponseParameterData::GetIpV4DhcpMode(_) => CommandClass::GetCommandResponse,
            ResponseParameterData::GetIpV4ZeroConfMode(_) => CommandClass::GetCommandResponse,
            ResponseParameterData::GetIpV4CurrentAddress(_) => CommandClass::GetCommandResponse,
            ResponseParameterData::GetIpV4StaticAddress(_) => CommandClass::GetCommandResponse,
            ResponseParameterData::GetIpV4DefaultRoute(_) => CommandClass::GetCommandResponse,
            ResponseParameterData::GetDnsIpV4NameServer(_) => CommandClass::GetCommandResponse,
            ResponseParameterData::GetDnsHostName(_) => CommandClass::GetCommandResponse,
            ResponseParameterData::GetDnsDomainName(_) => CommandClass::GetCommandResponse,
            ResponseParameterData::GetEndpointList(_) => CommandClass::GetCommandResponse,
            ResponseParameterData::GetEndpointListChange(_) => CommandClass::GetCommandResponse,
            ResponseParameterData::GetIdentifyEndpoint(_) => CommandClass::GetCommandResponse,
            ResponseParameterData::SetIdentifyEndpoint(_) => CommandClass::SetCommandResponse,
            ResponseParameterData::GetEndpointToUniverse(_) => CommandClass::GetCommandResponse,
            ResponseParameterData::SetEndpointToUniverse(_) => CommandClass::SetCommandResponse,
            ResponseParameterData::GetEndpointMode(_) => CommandClass::GetCommandResponse,
            ResponseParameterData::SetEndpointMode(_) => CommandClass::SetCommandResponse,
            ResponseParameterData::GetEndpointLabel(_) => CommandClass::GetCommandResponse,
            ResponseParameterData::SetEndpointLabel(_) => CommandClass::SetCommandResponse,
            ResponseParameterData::GetRdmTrafficEnable(_) => CommandClass::GetCommandResponse,
            ResponseParameterData::SetRdmTrafficEnable(_) => CommandClass::SetCommandResponse,
            ResponseParameterData::GetDiscoveryState(_) => CommandClass::GetCommandResponse,
            ResponseParameterData::SetDiscoveryState(_) => CommandClass::SetCommandResponse,
            ResponseParameterData::GetBackgroundDiscovery(_) => CommandClass::GetCommandResponse,
            ResponseParameterData::SetBackgroundDiscovery(_) => CommandClass::SetCommandResponse,
            ResponseParameterData::GetEndpointTiming(_) => CommandClass::GetCommandResponse,
            ResponseParameterData::SetEndpointTiming(_) => CommandClass::SetCommandResponse,
            ResponseParameterData::GetEndpointTimingDescription(_) => CommandClass::GetCommandResponse,
            ResponseParameterData::GetEndpointResponders(_) => CommandClass::GetCommandResponse,
            ResponseParameterData::GetEndpointResponderListChange(_) => CommandClass::GetCommandResponse,
            ResponseParameterData::GetBindingControlFields(_) => CommandClass::GetCommandResponse,
            ResponseParameterData::GetBackgroundQueuedStatusPolicy(_) => CommandClass::GetCommandResponse,
            ResponseParameterData::GetBackgroundQueuedStatusPolicyDescription(_) => CommandClass::GetCommandResponse,
            _ => CommandClass::GetCommandResponse,
        }
    }

    /// The identifier of the parameter.
    pub open spec fn spec_parameter_id(self) -> ParameterId {
        match self {
            ResponseParameterData::DiscMute(_) => ParameterId::DiscMute,
            ResponseParameterData::DiscUnMute(_) => ParameterId::DiscUnMute,
            ResponseParameterData::GetProxiedDevices(_) => ParameterId::ProxiedDevices,
            ResponseParameterData::GetProxiedDeviceCount(_) => ParameterId::ProxiedDeviceCount,
            ResponseParameterData::GetCommsStatus(_) => ParameterId::CommsStatus,
            ResponseParameterData::GetStatusMessages(_) => ParameterId::StatusMessages,
            ResponseParameterData::GetStatusIdDescription(_) => ParameterId::StatusIdDescription,
            ResponseParameterData::GetSubDeviceIdStatusReportThreshold(_) => ParameterId::SubDeviceIdStatusReportThreshold,
            ResponseParameterData::GetSupportedParameters(_) => ParameterId::SupportedParameters,
            ResponseParameterData::GetParameterDescription(_) => ParameterId::ParameterDescription,
            ResponseParameterData::GetDeviceInfo(_) => ParameterId::DeviceInfo,
            ResponseParameterData::GetProductDetailIdList(_) => ParameterId::ProductDetailIdList,
            ResponseParameterData::GetDeviceModelDescription(_) => ParameterId::DeviceModelDescription,
            ResponseParameterData::GetManufacturerLabel(_) => ParameterId::ManufacturerLabel,
            ResponseParameterData::GetDeviceLabel(_) => ParameterId::DeviceLabel,
            ResponseParameterData::GetFactoryDefaults(_) => ParameterId::FactoryDefaults,
            ResponseParameterData::GetLanguage(_) => ParameterId::Language,
            ResponseParameterData::GetLanguageCapabilities(_) => ParameterId::LanguageCapabilities,
            ResponseParameterData::GetSoftwareVersionLabel(_) => ParameterId::SoftwareVersionLabel,
            ResponseParameterData::GetBootSoftwareVersionId(_) => ParameterId::BootSoftwareVersionId,
            ResponseParameterData::GetBootSoftwareVersionLabel(_) => ParameterId::BootSoftwareVersionLabel,
            ResponseParameterData::GetDmxPersonality(_) => ParameterId::DmxPersonality,
            ResponseParameterData::GetDmxPersonalityDescription(_) => ParameterId::DmxPersonalityDescription,
            ResponseParameterData::GetDmxStartAddress(_) => ParameterId::DmxStartAddress,
            ResponseParameterData::GetSlotInfo(_) => ParameterId::SlotInfo,
            ResponseParameterData::GetSlotDescription(_) => ParameterId::SlotDescription,
            ResponseParameterData::GetDefaultSlotValue(_) => ParameterId::DefaultSlotValue,
            ResponseParameterData::GetSensorDefinition(_) => ParameterId::SensorDefinition,
            ResponseParameterData::GetSensorValue(_) => ParameterId::SensorValue,
            ResponseParameterData::SetSensorValue(_) => ParameterId::SensorValue,
            ResponseParameterData::GetDeviceHours(_) => ParameterId::DeviceHours,
            ResponseParameterData::GetLampHours(_) => ParameterId::LampHours,
            ResponseParameterData::GetLampStrikes(_) => ParameterId::LampStrikes,
            ResponseParameterData::GetLampState(_) => ParameterId::LampState,
            ResponseParameterData::GetLampOnMode(_) => ParameterId::LampOnMode,
            ResponseParameterData::GetDevicePowerCycles(_) => ParameterId::DevicePowerCycles,
            ResponseParameterData::GetDisplayInvert(_) => ParameterId::DisplayInvert,
            ResponseParameterData::GetDisplayLevel(_) => ParameterId::DisplayLevel,
            ResponseParameterData::GetPanInvert(_) => ParameterId::PanInvert,
            ResponseParameterData::GetTiltInvert(_) => ParameterId::TiltInvert,
            ResponseParameterData::GetPanTiltSwap(_) => ParameterId::PanTiltSwap,
            ResponseParameterData::GetRealTimeClock(_) => ParameterId::RealTimeClock,
            ResponseParameterData::GetIdentifyDevice(_) => ParameterId::IdentifyDevice,
            ResponseParameterData::GetPowerState(_) => ParameterId::PowerState,
            ResponseParameterData::GetPerformSelfTest(_) => ParameterId::PerformSelfTest,
            ResponseParameterData::GetSelfTestDescription(_) => ParameterId::SelfTestDescription,
            ResponseParameterData::GetPresetPlayback(_) => ParameterId::PresetPlayback,
            ResponseParameterData::GetComponentScope(_) => ParameterId::ComponentScope,
            ResponseParameterData::GetSearchDomain(_) => ParameterId::SearchDomain,
            ResponseParameterData::GetTcpCommsStatus(_) => ParameterId::TcpCommsStatus,
            ResponseParameterData::GetBrokerStatus(_) => ParameterId::BrokerStatus,
            ResponseParameterData::GetDmxBlockAddress(_) => ParameterId::DmxBlockAddress,
            ResponseParameterData::GetDmxFailMode(_) => ParameterId::DmxFailMode,
            ResponseParameterData::GetDmxStartupMode(_) => ParameterId::DmxStartupMode,
            ResponseParameterData::GetDimmerInfo(_) => ParameterId::DimmerInfo,
            ResponseParameterData::GetMinimumLevel(_) => ParameterId::MinimumLevel,
            ResponseParameterData::GetMaximumLevel(_) => ParameterId::MaximumLevel,
            ResponseParameterData::GetCurve(_) => ParameterId::Curve,
            ResponseParameterData::GetCurveDescription(_) => ParameterId::CurveDescription,
            ResponseParameterData::GetOutputResponseTime(_) => ParameterId::OutputResponseTime,
            ResponseParameterData::GetOutputResponseTimeDescription(_) => ParameterId::OutputResponseTimeDescription,
            ResponseParameterData::GetModulationFrequency(_) => ParameterId::ModulationFrequency,
            ResponseParameterData::GetModulationFrequencyDescription(_) => ParameterId::ModulationFrequencyDescription,
            ResponseParameterData::GetBurnIn(_) => ParameterId::BurnIn,
            ResponseParameterData::GetLockPin(_) => ParameterId::LockPin,
            ResponseParameterData::GetLockState(_) => ParameterId::LockState,
            ResponseParameterData::GetLockStateDescription(_) => ParameterId::LockStateDescription,
            ResponseParameterData::GetIdentifyMode(_) => ParameterId::IdentifyMode,
            ResponseParameterData::GetPresetInfo(_) => ParameterId::PresetInfo,
            ResponseParameterData::GetPresetMergeMode(_) => ParameterId::PresetMergeMode,
            ResponseParameterData::GetPresetStatus(_) => ParameterId::PresetStatus,
            ResponseParameterData::GetPowerOnSelfTest(_) => ParameterId::PowerOnSelfTest,
            ResponseParameterData::GetListInterfaces(_) => ParameterId::ListInterfaces,
            ResponseParameterData::GetInterfaceLabel(_) => ParameterId::InterfaceLabel,
            ResponseParameterData::GetInterfaceHardwareAddressType1(_) => ParameterId::InterfaceHardwareAddressType1,
            ResponseParameterData::GetIpV4DhcpMode(_) => ParameterId::IpV4DhcpMode,
            ResponseParameterData::GetIpV4ZeroConfMode(_) => ParameterId::IpV4ZeroConfMode,
            ResponseParameterData::GetIpV4CurrentAddress(_) => ParameterId::IpV4CurrentAddress,
            ResponseParameterData::GetIpV4StaticAddress(_) => ParameterId::IpV4StaticAddress,
            ResponseParameterData::GetIpV4DefaultRoute(_) => ParameterId::IpV4DefaultRoute,
            ResponseParameterData::GetDnsIpV4NameServer(_) => ParameterId::DnsIpV4NameServer,
            ResponseParameterData::GetDnsHostName(_) => ParameterId::DnsHostName,
            ResponseParameterData::GetDnsDomainName(_) => ParameterId::DnsDomainName,
            ResponseParameterData::GetEndpointList(_) => ParameterId::EndpointList,
            ResponseParameterData::GetEndpointListChange(_) => ParameterId::EndpointListChange,
            ResponseParameterData::GetIdentifyEndpoint(_) => ParameterId::IdentifyEndpoint,
            ResponseParameterData::SetIdentifyEndpoint(_) => ParameterId::IdentifyEndpoint,
            ResponseParameterData::GetEndpointToUniverse(_) => ParameterId::EndpointToUniverse,
            ResponseParameterData::SetEndpointToUniverse(_) => ParameterId::EndpointToUniverse,
            ResponseParameterData::GetEndpointMode(_) => ParameterId::EndpointMode,
            ResponseParameterData::SetEndpointMode(_) => ParameterId::EndpointMode,
            ResponseParameterData::GetEndpointLabel(_) => ParameterId::EndpointLabel,
            ResponseParameterData::SetEndpointLabel(_) => ParameterId::EndpointLabel,
            ResponseParameterData::GetRdmTrafficEnable(_) => ParameterId::RdmTrafficEnable,
            ResponseParameterData::SetRdmTrafficEnable(_) => ParameterId::RdmTrafficEnable,
            ResponseParameterData::GetDiscoveryState(_) => ParameterId::DiscoveryState,
            ResponseParameterData::SetDiscoveryState(_) => ParameterId::DiscoveryState,
            ResponseParameterData::GetBackgroundDiscovery(_) => ParameterId::BackgroundDiscovery,
            ResponseParameterData::SetBackgroundDiscovery(_) => ParameterId::BackgroundDiscovery,
            ResponseParameterData::GetEndpointTiming(_) => ParameterId::EndpointTiming,
            ResponseParameterData::SetEndpointTiming(_) => ParameterId::EndpointTiming,
            ResponseParameterData::GetEndpointTimingDescription(_) => ParameterId::EndpointTimingDescription,
            ResponseParameterData::GetEndpointResponders(_) => ParameterId::EndpointResponders,
            ResponseParameterData::GetEndpointResponderListChange(_) => ParameterId::EndpointResponderListChange,
            ResponseParameterData::GetBindingControlFields(_) => ParameterId::BindingControlFields,
            ResponseParameterData::GetBackgroundQueuedStatusPolicy(_) => ParameterId::BackgroundQueuedStatusPolicy,
            ResponseParameterData::GetBackgroundQueuedStatusPolicyDescription(_) => ParameterId::BackgroundQueuedStatusPolicyDescription,
            _ => ParameterId::Custom(0),
        }
    }

    /// The parameter data.
    pub open spec fn spec_encoding(self) -> Seq<u8> {
        match self {
            ResponseParameterData::DiscMute(p) => p.spec_encoding(),
            ResponseParameterData::DiscUnMute(p) => p.spec_encoding(),
            ResponseParameterData::GetProxiedDevices(p) => p.spec_encoding(),
            ResponseParameterData::GetProxiedDeviceCount(p) => p.spec_encoding(),
            ResponseParameterData::GetCommsStatus(p) => p.spec_encoding(),
            ResponseParameterData::GetStatusMessages(p) => p.spec_encoding(),
            ResponseParameterData::GetStatusIdDescription(p) => p.spec_encoding(),
            ResponseParameterData::GetSubDeviceIdStatusReportThreshold(p) => p.spec_encoding(),
            ResponseParameterData::GetSupportedParameters(p) => p.spec_encoding(),
            ResponseParameterData::GetParameterDescription(p) => p.spec_encoding(),
            ResponseParameterData::GetDeviceInfo(p) => p.spec_encoding(),
            ResponseParameterData::GetProductDetailIdList(p) => p.spec_encoding(),
            ResponseParameterData::GetDeviceModelDescription(p) => p.spec_encoding(),
            ResponseParameterData::GetManufacturerLabel(p) => p.spec_encoding(),
            ResponseParameterData::GetDeviceLabel(p) => p.spec_encoding(),
            ResponseParameterData::GetFactoryDefaults(p) => p.spec_encoding(),
            ResponseParameterData::GetLanguage(p) => p.spec_encoding(),
            ResponseParameterData::GetLanguageCapabilities(p) => p.spec_encoding(),
            ResponseParameterData::GetSoftwareVersionLabel(p) => p.spec_encoding(),
            ResponseParameterData::GetBootSoftwareVersionId(p) => p.spec_encoding(),
            ResponseParameterData::GetBootSoftwareVersionLabel(p) => p.spec_encoding(),
            ResponseParameterData::GetDmxPersonality(p) => p.spec_encoding(),
            ResponseParameterData::GetDmxPersonalityDescription(p) => p.spec_encoding(),
            ResponseParameterData::GetDmxStartAddress(p) => p.spec_encoding(),
            ResponseParameterData::GetSlotInfo(p) => p.spec_encoding(),
            ResponseParameterData::GetSlotDescription(p) => p.spec_encoding(),
            ResponseParameterData::GetDefaultSlotValue(p) => p.spec_encoding(),
            ResponseParameterData::GetSensorDefinition(p) => p.spec_encoding(),
            ResponseParameterData::GetSensorValue(p) => p.spec_encoding(),
            ResponseParameterData::SetSensorValue(p) => p.spec_encoding(),
            ResponseParameterData::GetDeviceHours(p) => p.spec_encoding(),
            ResponseParameterData::GetLampHours(p) => p.spec_encoding(),
            ResponseParameterData::GetLampStrikes(p) => p.spec_encoding(),
            ResponseParameterData::GetLampState(p) => p.spec_encoding(),
            ResponseParameterData::GetLampOnMode(p) => p.spec_encoding(),
            ResponseParameterData::GetDevicePowerCycles(p) => p.spec_encoding(),
            ResponseParameterData::GetDisplayInvert(p) => p.spec_encoding(),
            ResponseParameterData::GetDisplayLevel(p) => p.spec_encoding(),
            ResponseParameterData::GetPanInvert(p) => p.spec_encoding(),
            ResponseParameterData::GetTiltInvert(p) => p.spec_encoding(),
            ResponseParameterData::GetPanTiltSwap(p) => p.spec_encoding(),
            ResponseParameterData::GetRealTimeClock(p) => p.spec_encoding(),
            ResponseParameterData::GetIdentifyDevice(p) => p.spec_encoding(),
            ResponseParameterData::GetPowerState(p) => p.spec_encoding(),
            ResponseParameterData::GetPerformSelfTest(p) => p.spec_encoding(),
            ResponseParameterData::GetSelfTestDescription(p) => p.spec_encoding(),
            ResponseParameterData::GetPresetPlayback(p) => p.spec_encoding(),
            ResponseParameterData::GetComponentScope(p) => p.spec_encoding(),
            ResponseParameterData::GetSearchDomain(p) => p.spec_encoding(),
            ResponseParameterData::GetTcpCommsStatus(p) => p.spec_encoding(),
            ResponseParameterData::GetBrokerStatus(p) => p.spec_encoding(),
            ResponseParameterData::GetDmxBlockAddress(p) => p.spec_encoding(),
            ResponseParameterData::GetDmxFailMode(p) => p.spec_encoding(),
            ResponseParameterData::GetDmxStartupMode(p) => p.spec_encoding(),
            ResponseParameterData::GetDimmerInfo(p) => p.spec_encoding(),
            ResponseParameterData::GetMinimumLevel(p) => p.spec_encoding(),
            ResponseParameterData::GetMaximumLevel(p) => p.spec_encoding(),
            ResponseParameterData::GetCurve(p) => p.spec_encoding(),
            ResponseParameterData::GetCurveDescription(p) => p.spec_encoding(),
            ResponseParameterData::GetOutputResponseTime(p) => p.spec_encoding(),
            ResponseParameterData::GetOutputResponseTimeDescription(p) => p.spec_encoding(),
            ResponseParameterData::GetModulationFrequency(p) => p.spec_encoding(),
            ResponseParameterData::GetModulationFrequencyDescription(p) => p.spec_encoding(),
            ResponseParameterData::GetBurnIn(p) => p.spec_encoding(),
            ResponseParameterData::GetLockPin(p) => p.spec_encoding(),
            ResponseParameterData::GetLockState(p) => p.spec_encoding(),
            ResponseParameterData::GetLockStateDescription(p) => p.spec_encoding(),
            ResponseParameterData::GetIdentifyMode(p) => p.spec_encoding(),
            ResponseParameterData::GetPresetInfo(p) => p.spec_encoding(),
            ResponseParameterData::GetPresetMergeMode(p) => p.spec_encoding(),
            ResponseParameterData::GetPresetStatus(p) => p.spec_encoding(),
            ResponseParameterData::GetPowerOnSelfTest(p) => p.spec_encoding(),
            ResponseParameterData::GetListInterfaces(p) => p.spec_encoding(),
            ResponseParameterData::GetInterfaceLabel(p) => p.spec_encoding(),
            ResponseParameterData::GetInterfaceHardwareAddressType1(p) => p.spec_encoding(),
            ResponseParameterData::GetIpV4DhcpMode(p) => p.spec_encoding(),
            ResponseParameterData::GetIpV4ZeroConfMode(p) => p.spec_encoding(),
            ResponseParameterData::GetIpV4CurrentAddress(p) => p.spec_encoding(),
            ResponseParameterData::GetIpV4StaticAddress(p) => p.spec_encoding(),
            ResponseParameterData::GetIpV4DefaultRoute(p) => p.spec_encoding(),
            ResponseParameterData::GetDnsIpV4NameServer(p) => p.spec_encoding(),
            ResponseParameterData::GetDnsHostName(p) => p.spec_encoding(),
            ResponseParameterData::GetDnsDomainName(p) => p.spec_encoding(),
            ResponseParameterData::GetEndpointList(p) => p.spec_encoding(),
            ResponseParameterData::GetEndpointListChange(p) => p.spec_encoding(),
            ResponseParameterData::GetIdentifyEndpoint(p) => p.spec_encoding(),
            ResponseParameterData::SetIdentifyEndpoint(p) => p.spec_encoding(),
            ResponseParameterData::GetEndpointToUniverse(p) => p.spec_encoding(),
            ResponseParameterData::SetEndpointToUniverse(p) => p.spec_encoding(),
            ResponseParameterData::GetEndpointMode(p) => p.spec_encoding(),
            ResponseParameterData::SetEndpointMode(p) => p.spec_encoding(),
            ResponseParameterData::GetEndpointLabel(p) => p.spec_encoding(),
            ResponseParameterData::SetEndpointLabel(p) => p.spec_encoding(),
            ResponseParameterData::GetRdmTrafficEnable(p) => p.spec_encoding(),
            ResponseParameterData::SetRdmTrafficEnable(p) => p.spec_encoding(),
            ResponseParameterData::GetDiscoveryState(p) => p.spec_encoding(),
            ResponseParameterData::SetDiscoveryState(p) => p.spec_encoding(),
            ResponseParameterData::GetBackgroundDiscovery(p) => p.spec_encoding(),
            ResponseParameterData::SetBackgroundDiscovery(p) => p.spec_encoding(),
            ResponseParameterData::GetEndpointTiming(p) => p.spec_encoding(),
            ResponseParameterData::SetEndpointTiming(p) => p.spec_encoding(),
            ResponseParameterData::GetEndpointTimingDescription(p) => p.spec_encoding(),
            ResponseParameterData::GetEndpointResponders(p) => p.spec_encoding(),
            ResponseParameterData::GetEndpointResponderListChange(p) => p.spec_encoding(),
            ResponseParameterData::GetBindingControlFields(p) => p.spec_encoding(),
            ResponseParameterData::GetBackgroundQueuedStatusPolicy(p) => p.spec_encoding(),
            ResponseParameterData::GetBackgroundQueuedStatusPolicyDescription(p) => p.spec_encoding(),
            ResponseParameterData::ManufacturerSpecific(d) => d.spec_items(),
            ResponseParameterData::Unsupported(d) => d.spec_items(),
        }
    }

    /// Whether the pair of command class and parameter identifier names a modeled parameter.
    pub open spec fn spec_is_modeled(command_class: CommandClass, parameter_id: ParameterId) -> bool {
        match (command_class, parameter_id) {
            (CommandClass::DiscoveryCommandResponse, ParameterId::DiscMute) => true,
            (CommandClass::DiscoveryCommandResponse, ParameterId::DiscUnMute) => true,
            (CommandClass::GetCommandResponse, ParameterId::ProxiedDevices) => true,
            (CommandClass::GetCommandResponse, ParameterId::ProxiedDeviceCount) => true,
            (CommandClass::GetCommandResponse, ParameterId::CommsStatus) => true,
            (CommandClass::GetCommandResponse, ParameterId::StatusMessages) => true,
            (CommandClass::GetCommandResponse, ParameterId::StatusIdDescription) => true,
            (CommandClass::GetCommandResponse, ParameterId::SubDeviceIdStatusReportThreshold) => true,
            (CommandClass::GetCommandResponse, ParameterId::SupportedParameters) => true,
            (CommandClass::GetCommandResponse, ParameterId::ParameterDescription) => true,
            (CommandClass::GetCommandResponse, ParameterId::DeviceInfo) => true,
            (CommandClass::GetCommandResponse, ParameterId::ProductDetailIdList) => true,
            (CommandClass::GetCommandResponse, ParameterId::DeviceModelDescription) => true,
            (CommandClass::GetCommandResponse, ParameterId::ManufacturerLabel) => true,
            (CommandClass::GetCommandResponse, ParameterId::DeviceLabel) => true,
            (CommandClass::GetCommandResponse, ParameterId::FactoryDefaults) => true,
            (CommandClass::GetCommandResponse, ParameterId::Language) => true,
            (CommandClass::GetCommandResponse, ParameterId::LanguageCapabilities) => true,
            (CommandClass::GetCommandResponse, ParameterId::SoftwareVersionLabel) => true,
            (CommandClass::GetCommandResponse, ParameterId::BootSoftwareVersionId) => true,
            (CommandClass::GetCommandResponse, ParameterId::BootSoftwareVersionLabel) => true,
            (CommandClass::GetCommandResponse, ParameterId::DmxPersonality) => true,
            (CommandClass::GetCommandResponse, ParameterId::DmxPersonalityDescription) => true,
            (CommandClass::GetCommandResponse, ParameterId::DmxStartAddress) => true,
            (CommandClass::GetCommandResponse, ParameterId::SlotInfo) => true,
            (CommandClass::GetCommandResponse, ParameterId::SlotDescription) => true,
            (CommandClass::GetCommandResponse, ParameterId::DefaultSlotValue) => true,
            (CommandClass::GetCommandResponse, ParameterId::SensorDefinition) => true,
            (CommandClass::GetCommandResponse, ParameterId::SensorValue) => true,
            (CommandClass::SetCommandResponse, ParameterId::SensorValue) => true,
            (CommandClass::GetCommandResponse, ParameterId::DeviceHours) => true,
            (CommandClass::GetCommandResponse, ParameterId::LampHours) => true,
            (CommandClass::GetCommandResponse, ParameterId::LampStrikes) => true,
            (CommandClass::GetCommandResponse, ParameterId::LampState) => true,
            (CommandClass::GetCommandResponse, ParameterId::LampOnMode) => true,
            (CommandClass::GetCommandResponse, ParameterId::DevicePowerCycles) => true,
            (CommandClass::GetCommandResponse, ParameterId::DisplayInvert) => true,
            (CommandClass::GetCommandResponse, ParameterId::DisplayLevel) => true,
            (CommandClass::GetCommandResponse, ParameterId::PanInvert) => true,
            (CommandClass::GetCommandResponse, ParameterId::TiltInvert) => true,
            (CommandClass::GetCommandResponse, ParameterId::PanTiltSwap) => true,
            (CommandClass::GetCommandResponse, ParameterId::RealTimeClock) => true,
            (CommandClass::GetCommandResponse, ParameterId::IdentifyDevice) => true,
            (CommandClass::GetCommandResponse, ParameterId::PowerState) => true,
            (CommandClass::GetCommandResponse, ParameterId::PerformSelfTest) => true,
            (CommandClass::GetCommandResponse, ParameterId::SelfTestDescription) => true,
            (CommandClass::GetCommandResponse, ParameterId::PresetPlayback) => true,
            (CommandClass::GetCommandResponse, ParameterId::ComponentScope) => true,
            (CommandClass::GetCommandResponse, ParameterId::SearchDomain) => true,
            (CommandClass::GetCommandResponse, ParameterId::TcpCommsStatus) => true,
            (CommandClass::GetCommandResponse, ParameterId::BrokerStatus) => true,
            (CommandClass::GetCommandResponse, ParameterId::DmxBlockAddress) => true,
            (CommandClass::GetCommandResponse, ParameterId::DmxFailMode) => true,
            (CommandClass::GetCommandResponse, ParameterId::DmxStartupMode) => true,
            (CommandClass::GetCommandResponse, ParameterId::DimmerInfo) => true,
            (CommandClass::GetCommandResponse, ParameterId::MinimumLevel) => true,
            (CommandClass::GetCommandResponse, ParameterId::MaximumLevel) => true,
            (CommandClass::GetCommandResponse, ParameterId::Curve) => true,
            (CommandClass::GetCommandResponse, ParameterId::CurveDescription) => true,
            (CommandClass::GetCommandResponse, ParameterId::OutputResponseTime) => true,
            (CommandClass::GetCommandResponse, ParameterId::OutputResponseTimeDescription) => true,
            (CommandClass::GetCommandResponse, ParameterId::ModulationFrequency) => true,
            (CommandClass::GetCommandResponse, ParameterId::ModulationFrequencyDescription) => true,
            (CommandClass::GetCommandResponse, ParameterId::BurnIn) => true,
            (CommandClass::GetCommandResponse, ParameterId::LockPin) => true,
            (CommandClass::GetCommandResponse, ParameterId::LockState) => true,
            (CommandClass::GetCommandResponse, ParameterId::LockStateDescription) => true,
            (CommandClass::GetCommandResponse, ParameterId::IdentifyMode) => true,
            (CommandClass::GetCommandResponse, ParameterId::PresetInfo) => true,
            (CommandClass::GetCommandResponse, ParameterId::PresetMergeMode) => true,
            (CommandClass::GetCommandResponse, ParameterId::PresetStatus) => true,
            (CommandClass::GetCommandResponse, ParameterId::PowerOnSelfTest) => true,
            (CommandClass::GetCommandResponse, ParameterId::ListInterfaces) => true,
            (CommandClass::GetCommandResponse, ParameterId::InterfaceLabel) => true,
            (CommandClass::GetCommandResponse, ParameterId::InterfaceHardwareAddressType1) => true,
            (CommandClass::GetCommandResponse, ParameterId::IpV4DhcpMode) => true,
            (CommandClass::GetCommandResponse, ParameterId::IpV4ZeroConfMode) => true,
            (CommandClass::GetCommandResponse, ParameterId::IpV4CurrentAddress) => true,
            (CommandClass::GetCommandResponse, ParameterId::IpV4StaticAddress) => true,
            (CommandClass::GetCommandResponse, ParameterId::IpV4DefaultRoute) => true,
            (CommandClass::GetCommandResponse, ParameterId::DnsIpV4NameServer) => true,
            (CommandClass::GetCommandResponse, ParameterId::DnsHostName) => true,
            (CommandClass::GetCommandResponse, ParameterId::DnsDomainName) => true,
            (CommandClass::GetCommandResponse, ParameterId::EndpointList) => true,
            (CommandClass::GetCommandResponse, ParameterId::EndpointListChange) => true,
            (CommandClass::GetCommandResponse, ParameterId::IdentifyEndpoint) => true,
            (CommandClass::SetCommandResponse, ParameterId::IdentifyEndpoint) => true,
            (CommandClass::GetCommandResponse, ParameterId::EndpointToUniverse) => true,
            (CommandClass::SetCommandResponse, ParameterId::EndpointToUniverse) => true,
            (CommandClass::GetCommandResponse, ParameterId::EndpointMode) => true,
            (CommandClass::SetCommandResponse, ParameterId::EndpointMode) => true,
            (CommandClass::GetCommandResponse, ParameterId::EndpointLabel) => true,
            (CommandClass::SetCommandResponse, ParameterId::EndpointLabel) => true,
            (CommandClass::GetCommandResponse, ParameterId::RdmTrafficEnable) => true,
            (CommandClass::SetCommandResponse, ParameterId::RdmTrafficEnable) => true,
            (CommandClass::GetCommandResponse, ParameterId::DiscoveryState) => true,
            (CommandClass::SetCommandResponse, ParameterId::DiscoveryState) => true,
            (CommandClass::GetCommandResponse, ParameterId::BackgroundDiscovery) => true,
            (CommandClass::SetCommandResponse, ParameterId::BackgroundDiscovery) => true,
            (CommandClass::GetCommandResponse, ParameterId::EndpointTiming) => true,
            (CommandClass::SetCommandResponse, ParameterId::EndpointTiming) => true,
            (CommandClass::GetCommandResponse, ParameterId::EndpointTimingDescription) => true,
            (CommandClass::GetCommandResponse, ParameterId::EndpointResponders) => true,
            (CommandClass::GetCommandResponse, ParameterId::EndpointResponderListChange) => true,
            (CommandClass::GetCommandResponse, ParameterId::BindingControlFields) => true,
            (CommandClass::GetCommandResponse, ParameterId::BackgroundQueuedStatusPolicy) => true,
            (CommandClass::GetCommandResponse, ParameterId::BackgroundQueuedStatusPolicyDescription) => true,
            _ => false,
        }
    }

    /// The parameter that parameter data stands for, or why it stands for none.
    pub open spec fn spec_decoded(command_class: CommandClass, parameter_id: ParameterId, buf: Seq<u8>) -> Result<Self, ParameterDataError> {
        match (command_class, parameter_id) {
            (CommandClass::DiscoveryCommandResponse, ParameterId::DiscMute) => match DiscMuteResponse::spec_decoded(buf) {
                Ok(p) => Ok(ResponseParameterData::DiscMute(p)),
                Err(e) => Err(e),
            },
            (CommandClass::DiscoveryCommandResponse, ParameterId::DiscUnMute) => match DiscUnMuteResponse::spec_decoded(buf) {
                Ok(p) => Ok(ResponseParameterData::DiscUnMute(p)),
                Err(e) => Err(e),
            },
            (CommandClass::GetCommandResponse, ParameterId::ProxiedDevices) => match GetProxiedDevicesResponse::spec_decoded(buf) {
                Ok(p) => Ok(ResponseParameterData::GetProxiedDevices(p)),
                Err(e) => Err(e),
            },
            (CommandClass::GetCommandResponse, ParameterId::ProxiedDeviceCount) => match GetProxiedDeviceCountResponse::spec_decoded(buf) {
                Ok(p) => Ok(ResponseParameterData::GetProxiedDeviceCount(p)),
                Err(e) => Err(e),
            },
            (CommandClass::GetCommandResponse, ParameterId::CommsStatus) => match GetCommsStatusResponse::spec_decoded(buf) {
                Ok(p) => Ok(ResponseParameterData::GetCommsStatus(p)),
                Err(e) => Err(e),
            },
            (CommandClass::GetCommandResponse, ParameterId::StatusMessages) => match GetStatusMessagesResponse::spec_decoded(buf) {
                Ok(p) => Ok(ResponseParameterData::GetStatusMessages(p)),
                Err(e) => Err(e),
            },
            (CommandClass::GetCommandResponse, ParameterId::StatusIdDescription) => match GetStatusIdDescriptionResponse::spec_decoded(buf) {
                Ok(p) => Ok(ResponseParameterData::GetStatusIdDescription(p)),
                Err(e) => Err(e),
            },
            (CommandClass::GetCommandResponse, ParameterId::SubDeviceIdStatusReportThreshold) => match GetSubDeviceIdStatusReportThresholdResponse::spec_decoded(buf) {
                Ok(p) => Ok(ResponseParameterData::GetSubDeviceIdStatusReportThreshold(p)),
                Err(e) => Err(e),
            },
            (CommandClass::GetCommandResponse, ParameterId::SupportedParameters) => match GetSupportedParametersResponse::spec_decoded(buf) {
                Ok(p) => Ok(ResponseParameterData::GetSupportedParameters(p)),
                Err(e) => Err(e),
            },
            (CommandClass::GetCommandResponse, ParameterId::ParameterDescription) => match GetParameterDescriptionResponse::spec_decoded(buf) {
                Ok(p) => Ok(ResponseParameterData::GetParameterDescription(p)),
                Err(e) => Err(e),
            },
            (CommandClass::GetCommandResponse, ParameterId::DeviceInfo) => match GetDeviceInfoResponse::spec_decoded(buf) {
                Ok(p) => Ok(ResponseParameterData::GetDeviceInfo(p)),
                Err(e) => Err(e),
            },
            (CommandClass::GetCommandResponse, ParameterId::ProductDetailIdList) => match GetProductDetailIdListResponse::spec_decoded(buf) {
                Ok(p) => Ok(ResponseParameterData::GetProductDetailIdList(p)),
                Err(e) => Err(e),
            },
            (CommandClass::GetCommandResponse, ParameterId::DeviceModelDescription) => match GetDeviceModelDescriptionResponse::spec_decoded(buf) {
                Ok(p) => Ok(ResponseParameterData::GetDeviceModelDescription(p)),
                Err(e) => Err(e),
            },
            (CommandClass::GetCommandResponse, ParameterId::ManufacturerLabel) => match GetManufacturerLabelResponse::spec_decoded(buf) {
                Ok(p) => Ok(ResponseParameterData::GetManufacturerLabel(p)),
                Err(e) => Err(e),
            },
            (CommandClass::GetCommandResponse, ParameterId::DeviceLabel) => match GetDeviceLabelResponse::spec_decoded(buf) {
                Ok(p) => Ok(ResponseParameterData::GetDeviceLabel(p)),
                Err(e) => Err(e),
            },
            (CommandClass::GetCommandResponse, ParameterId::FactoryDefaults) => match GetFactoryDefaultsResponse::spec_decoded(buf) {
                Ok(p) => Ok(ResponseParameterData::GetFactoryDefaults(p)),
                Err(e) => Err(e),
            },
            (CommandClass::GetCommandResponse, ParameterId::Language) => match GetLanguageResponse::spec_decoded(buf) {
                Ok(p) => Ok(ResponseParameterData::GetLanguage(p)),
                Err(e) => Err(e),
            },
            (CommandClass::GetCommandResponse, ParameterId::LanguageCapabilities) => match GetLanguageCapabilitiesResponse::spec_decoded(buf) {
                Ok(p) => Ok(ResponseParameterData::GetLanguageCapabilities(p)),
                Err(e) => Err(e),
            },
            (CommandClass::GetCommandResponse, ParameterId::SoftwareVersionLabel) => match GetSoftwareVersionLabelResponse::spec_decoded(buf) {
                Ok(p) => Ok(ResponseParameterData::GetSoftwareVersionLabel(p)),
                Err(e) => Err(e),
            },
            (CommandClass::GetCommandResponse, ParameterId::BootSoftwareVersionId) => match GetBootSoftwareVersionIdResponse::spec_decoded(buf) {
                Ok(p) => Ok(ResponseParameterData::GetBootSoftwareVersionId(p)),
                Err(e) => Err(e),
            },
            (CommandClass::GetCommandResponse, ParameterId::BootSoftwareVersionLabel) => match GetBootSoftwareVersionLabelResponse::spec_decoded(buf) {
                Ok(p) => Ok(ResponseParameterData::GetBootSoftwareVersionLabel(p)),
                Err(e) => Err(e),
            },
            (CommandClass::GetCommandResponse, ParameterId::DmxPersonality) => match GetDmxPersonalityResponse::spec_decoded(buf) {
                Ok(p) => Ok(ResponseParameterData::GetDmxPersonality(p)),
                Err(e) => Err(e),
            },
            (CommandClass::GetCommandResponse, ParameterId::DmxPersonalityDescription) => match GetDmxPersonalityDescriptionResponse::spec_decoded(buf) {
                Ok(p) => Ok(ResponseParameterData::GetDmxPersonalityDescription(p)),
                Err(e) => Err(e),
            },
            (CommandClass::GetCommandResponse, ParameterId::DmxStartAddress) => match GetDmxStartAddressResponse::spec_decoded(buf) {
                Ok(p) => Ok(ResponseParameterData::GetDmxStartAddress(p)),
                Err(e) => Err(e),
            },
            (CommandClass::GetCommandResponse, ParameterId::SlotInfo) => match GetSlotInfoResponse::spec_decoded(buf) {
                Ok(p) => Ok(ResponseParameterData::GetSlotInfo(p)),
                Err(e) => Err(e),
            },
            (CommandClass::GetCommandResponse, ParameterId::SlotDescription) => match GetSlotDescriptionResponse::spec_decoded(buf) {
                Ok(p) => Ok(ResponseParameterData::GetSlotDescription(p)),
                Err(e) => Err(e),
            },
            (CommandClass::GetCommandResponse, ParameterId::DefaultSlotValue) => match GetDefaultSlotValueResponse::spec_decoded(buf) {
                Ok(p) => Ok(ResponseParameterData::GetDefaultSlotValue(p)),
                Err(e) => Err(e),
            },
            (CommandClass::GetCommandResponse, ParameterId::SensorDefinition) => match GetSensorDefinitionResponse::spec_decoded(buf) {
                Ok(p) => Ok(ResponseParameterData::GetSensorDefinition(p)),
                Err(e) => Err(e),
            },
            (CommandClass::GetCommandResponse, ParameterId::SensorValue) => match GetSensorValueResponse::spec_decoded(buf) {
                Ok(p) => Ok(ResponseParameterData::GetSensorValue(p)),
                Err(e) => Err(e),
            },
            (CommandClass::SetCommandResponse, ParameterId::SensorValue) => match SetSensorValueResponse::spec_decoded(buf) {
                Ok(p) => Ok(ResponseParameterData::SetSensorValue(p)),
                Err(e) => Err(e),
            },
            (CommandClass::GetCommandResponse, ParameterId::DeviceHours) => match GetDeviceHoursResponse::spec_decoded(buf) {
                Ok(p) => Ok(ResponseParameterData::GetDeviceHours(p)),
                Err(e) => Err(e),
            },
            (CommandClass::GetCommandResponse, ParameterId::LampHours) => match GetLampHoursResponse::spec_decoded(buf) {
                Ok(p) => Ok(ResponseParameterData::GetLampHours(p)),
                Err(e) => Err(e),
            },
            (CommandClass::GetCommandResponse, ParameterId::LampStrikes) => match GetLampStrikesResponse::spec_decoded(buf) {
                Ok(p) => Ok(ResponseParameterData::GetLampStrikes(p)),
                Err(e) => Err(e),
            },
            (CommandClass::GetCommandResponse, ParameterId::LampState) => match GetLampStateResponse::spec_decoded(buf) {
                Ok(p) => Ok(ResponseParameterData::GetLampState(p)),
                Err(e) => Err(e),
            },
            (CommandClass::GetCommandResponse, ParameterId::LampOnMode) => match GetLampOnModeResponse::spec_decoded(buf) {
                Ok(p) => Ok(ResponseParameterData::GetLampOnMode(p)),
                Err(e) => Err(e),
            },
            (CommandClass::GetCommandResponse, ParameterId::DevicePowerCycles) => match GetDevicePowerCyclesResponse::spec_decoded(buf) {
                Ok(p) => Ok(ResponseParameterData::GetDevicePowerCycles(p)),
                Err(e) => Err(e),
            },
            (CommandClass::GetCommandResponse, ParameterId::DisplayInvert) => match GetDisplayInvertResponse::spec_decoded(buf) {
                Ok(p) => Ok(ResponseParameterData::GetDisplayInvert(p)),
                Err(e) => Err(e),
            },
            (CommandClass::GetCommandResponse, ParameterId::DisplayLevel) => match GetDisplayLevelResponse::spec_decoded(buf) {
                Ok(p) => Ok(ResponseParameterData::GetDisplayLevel(p)),
                Err(e) => Err(e),
            },
            (CommandClass::GetCommandResponse, ParameterId::PanInvert) => match GetPanInvertResponse::spec_decoded(buf) {
                Ok(p) => Ok(ResponseParameterData::GetPanInvert(p)),
                Err(e) => Err(e),
            },
            (CommandClass::GetCommandResponse, ParameterId::TiltInvert) => match GetTiltInvertResponse::spec_decoded(buf) {
                Ok(p) => Ok(ResponseParameterData::GetTiltInvert(p)),
                Err(e) => Err(e),
            },
            (CommandClass::GetCommandResponse, ParameterId::PanTiltSwap) => match GetPanTiltSwapResponse::spec_decoded(buf) {
                Ok(p) => Ok(ResponseParameterData::GetPanTiltSwap(p)),
                Err(e) => Err(e),
            },
            (CommandClass::GetCommandResponse, ParameterId::RealTimeClock) => match GetRealTimeClockResponse::spec_decoded(buf) {
                Ok(p) => Ok(ResponseParameterData::GetRealTimeClock(p)),
                Err(e) => Err(e),
            },
            (CommandClass::GetCommandResponse, ParameterId::IdentifyDevice) => match GetIdentifyDeviceResponse::spec_decoded(buf) {
                Ok(p) => Ok(ResponseParameterData::GetIdentifyDevice(p)),
                Err(e) => Err(e),
            },
            (CommandClass::GetCommandResponse, ParameterId::PowerState) => match GetPowerStateResponse::spec_decoded(buf) {
                Ok(p) => Ok(ResponseParameterData::GetPowerState(p)),
                Err(e) => Err(e),
            },
            (CommandClass::GetCommandResponse, ParameterId::PerformSelfTest) => match GetPerformSelfTestResponse::spec_decoded(buf) {
                Ok(p) => Ok(ResponseParameterData::GetPerformSelfTest(p)),
                Err(e) => Err(e),
            },
            (CommandClass::GetCommandResponse, ParameterId::SelfTestDescription) => match GetSelfTestDescriptionResponse::spec_decoded(buf) {
                Ok(p) => Ok(ResponseParameterData::GetSelfTestDescription(p)),
                Err(e) => Err(e),
            },
            (CommandClass::GetCommandResponse, ParameterId::PresetPlayback) => match GetPresetPlaybackResponse::spec_decoded(buf) {
                Ok(p) => Ok(ResponseParameterData::GetPresetPlayback(p)),
                Err(e) => Err(e),
            },
            (CommandClass::GetCommandResponse, ParameterId::ComponentScope) => match GetComponentScopeResponse::spec_decoded(buf) {
                Ok(p) => Ok(ResponseParameterData::GetComponentScope(p)),
                Err(e) => Err(e),
            },
            (CommandClass::GetCommandResponse, ParameterId::SearchDomain) => match GetSearchDomainResponse::spec_decoded(buf) {
                Ok(p) => Ok(ResponseParameterData::GetSearchDomain(p)),
                Err(e) => Err(e),
            },
            (CommandClass::GetCommandResponse, ParameterId::TcpCommsStatus) => match GetTcpCommsStatusResponse::spec_decoded(buf) {
                Ok(p) => Ok(ResponseParameterData::GetTcpCommsStatus(p)),
                Err(e) => Err(e),
            },
            (CommandClass::GetCommandResponse, ParameterId::BrokerStatus) => match GetBrokerStatusResponse::spec_decoded(buf) {
                Ok(p) => Ok(ResponseParameterData::GetBrokerStatus(p)),
                Err(e) => Err(e),
            },
            (CommandClass::GetCommandResponse, ParameterId::DmxBlockAddress) => match GetDmxBlockAddressResponse::spec_decoded(buf) {
                Ok(p) => Ok(ResponseParameterData::GetDmxBlockAddress(p)),
                Err(e) => Err(e),
            },
            (CommandClass::GetCommandResponse, ParameterId::DmxFailMode) => match GetDmxFailModeResponse::spec_decoded(buf) {
                Ok(p) => Ok(ResponseParameterData::GetDmxFailMode(p)),
                Err(e) => Err(e),
            },
            (CommandClass::GetCommandResponse, ParameterId::DmxStartupMode) => match GetDmxStartupModeResponse::spec_decoded(buf) {
                Ok(p) => Ok(ResponseParameterData::GetDmxStartupMode(p)),
                Err(e) => Err(e),
            },
            (CommandClass::GetCommandResponse, ParameterId::DimmerInfo) => match GetDimmerInfoResponse::spec_decoded(buf) {
                Ok(p) => Ok(ResponseParameterData::GetDimmerInfo(p)),
                Err(e) => Err(e),
            },
            (CommandClass::GetCommandResponse, ParameterId::MinimumLevel) => match GetMinimumLevelResponse::spec_decoded(buf) {
                Ok(p) => Ok(ResponseParameterData::GetMinimumLevel(p)),
                Err(e) => Err(e),
            },
            (CommandClass::GetCommandResponse, ParameterId::MaximumLevel) => match GetMaximumLevelResponse::spec_decoded(buf) {
                Ok(p) => Ok(ResponseParameterData::GetMaximumLevel(p)),
                Err(e) => Err(e),
            },
            (CommandClass::GetCommandResponse, ParameterId::Curve) => match GetCurveResponse::spec_decoded(buf) {
                Ok(p) => Ok(ResponseParameterData::GetCurve(p)),
                Err(e) => Err(e),
            },
            (CommandClass::GetCommandResponse, ParameterId::CurveDescription) => match GetCurveDescriptionResponse::spec_decoded(buf) {
                Ok(p) => Ok(ResponseParameterData::GetCurveDescription(p)),
                Err(e) => Err(e),
            },
            (CommandClass::GetCommandResponse, ParameterId::OutputResponseTime) => match GetOutputResponseTimeResponse::spec_decoded(buf) {
                Ok(p) => Ok(ResponseParameterData::GetOutputResponseTime(p)),
                Err(e) => Err(e),
            },
            (CommandClass::GetCommandResponse, ParameterId::OutputResponseTimeDescription) => match GetOutputResponseTimeDescriptionResponse::spec_decoded(buf) {
                Ok(p) => Ok(ResponseParameterData::GetOutputResponseTimeDescription(p)),
                Err(e) => Err(e),
            },
            (CommandClass::GetCommandResponse, ParameterId::ModulationFrequency) => match GetModulationFrequencyResponse::spec_decoded(buf) {
                Ok(p) => Ok(ResponseParameterData::GetModulationFrequency(p)),
                Err(e) => Err(e),
            },
            (CommandClass::GetCommandResponse, ParameterId::ModulationFrequencyDescription) => match GetModulationFrequencyDescriptionResponse::spec_decoded(buf) {
                Ok(p) => Ok(ResponseParameterData::GetModulationFrequencyDescription(p)),
                Err(e) => Err(e),
            },
            (CommandClass::GetCommandResponse, ParameterId::BurnIn) => match GetBurnInResponse::spec_decoded(buf) {
                Ok(p) => Ok(ResponseParameterData::GetBurnIn(p)),
                Err(e) => Err(e),
            },
            (CommandClass::GetCommandResponse, ParameterId::LockPin) => match GetLockPinResponse::spec_decoded(buf) {
                Ok(p) => Ok(ResponseParameterData::GetLockPin(p)),
                Err(e) => Err(e),
            },
            (CommandClass::GetCommandResponse, ParameterId::LockState) => match GetLockStateResponse::spec_decoded(buf) {
                Ok(p) => Ok(ResponseParameterData::GetLockState(p)),
                Err(e) => Err(e),
            },
            (CommandClass::GetCommandResponse, ParameterId::LockStateDescription) => match GetLockStateDescriptionResponse::spec_decoded(buf) {
                Ok(p) => Ok(ResponseParameterData::GetLockStateDescription(p)),
                Err(e) => Err(e),
            },
            (CommandClass::GetCommandResponse, ParameterId::IdentifyMode) => match GetIdentifyModeResponse::spec_decoded(buf) {
                Ok(p) => Ok(ResponseParameterData::GetIdentifyMode(p)),
                Err(e) => Err(e),
            },
            (CommandClass::GetCommandResponse, ParameterId::PresetInfo) => match GetPresetInfoResponse::spec_decoded(buf) {
                Ok(p) => Ok(ResponseParameterData::GetPresetInfo(p)),
                Err(e) => Err(e),
            },
            (CommandClass::GetCommandResponse, ParameterId::PresetMergeMode) => match GetPresetMergeModeResponse::spec_decoded(buf) {
                Ok(p) => Ok(ResponseParameterData::GetPresetMergeMode(p)),
                Err(e) => Err(e),
            },
            (CommandClass::GetCommandResponse, ParameterId::PresetStatus) => match GetPresetStatusResponse::spec_decoded(buf) {
                Ok(p) => Ok(ResponseParameterData::GetPresetStatus(p)),
                Err(e) => Err(e),
            },
            (CommandClass::GetCommandResponse, ParameterId::PowerOnSelfTest) => match GetPowerOnSelfTestResponse::spec_decoded(buf) {
                Ok(p) => Ok(ResponseParameterData::GetPowerOnSelfTest(p)),
                Err(e) => Err(e),
            },
            (CommandClass::GetCommandResponse, ParameterId::ListInterfaces) => match GetListInterfacesResponse::spec_decoded(buf) {
                Ok(p) => Ok(ResponseParameterData::GetListInterfaces(p)),
                Err(e) => Err(e),
            },
            (CommandClass::GetCommandResponse, ParameterId::InterfaceLabel) => match GetInterfaceLabelResponse::spec_decoded(buf) {
                Ok(p) => Ok(ResponseParameterData::GetInterfaceLabel(p)),
                Err(e) => Err(e),
            },
            (CommandClass::GetCommandResponse, ParameterId::InterfaceHardwareAddressType1) => match GetInterfaceHardwareAddressType1Response::spec_decoded(buf) {
                Ok(p) => Ok(ResponseParameterData::GetInterfaceHardwareAddressType1(p)),
                Err(e) => Err(e),
            },
            (CommandClass::GetCommandResponse, ParameterId::IpV4DhcpMode) => match GetIpV4DhcpModeResponse::spec_decoded(buf) {
                Ok(p) => Ok(ResponseParameterData::GetIpV4DhcpMode(p)),
                Err(e) => Err(e),
            },
            (CommandClass::GetCommandResponse, ParameterId::IpV4ZeroConfMode) => match GetIpV4ZeroConfModeResponse::spec_decoded(buf) {
                Ok(p) => Ok(ResponseParameterData::GetIpV4ZeroConfMode(p)),
                Err(e) => Err(e),
            },
            (CommandClass::GetCommandResponse, ParameterId::IpV4CurrentAddress) => match GetIpV4CurrentAddressResponse::spec_decoded(buf) {
                Ok(p) => Ok(ResponseParameterData::GetIpV4CurrentAddress(p)),
                Err(e) => Err(e),
            },
            (CommandClass::GetCommandResponse, ParameterId::IpV4StaticAddress) => match GetIpV4StaticAddressResponse::spec_decoded(buf) {
                Ok(p) => Ok(ResponseParameterData::GetIpV4StaticAddress(p)),
                Err(e) => Err(e),
            },
            (CommandClass::GetCommandResponse, ParameterId::IpV4DefaultRoute) => match GetIpV4DefaultRouteResponse::spec_decoded(buf) {
                Ok(p) => Ok(ResponseParameterData::GetIpV4DefaultRoute(p)),
                Err(e) => Err(e),
            },
            (CommandClass::GetCommandResponse, ParameterId::DnsIpV4NameServer) => match GetDnsIpV4NameServerResponse::spec_decoded(buf) {
                Ok(p) => Ok(ResponseParameterData::GetDnsIpV4NameServer(p)),
                Err(e) => Err(e),
            },
            (CommandClass::GetCommandResponse, ParameterId::DnsHostName) => match GetDnsHostNameResponse::spec_decoded(buf) {
                Ok(p) => Ok(ResponseParameterData::GetDnsHostName(p)),
                Err(e) => Err(e),
            },
            (CommandClass::GetCommandResponse, ParameterId::DnsDomainName) => match GetDnsDomainNameResponse::spec_decoded(buf) {
                Ok(p) => Ok(ResponseParameterData::GetDnsDomainName(p)),
                Err(e) => Err(e),
            },
            (CommandClass::GetCommandResponse, ParameterId::EndpointList) => match GetEndpointListResponse::spec_decoded(buf) {
                Ok(p) => Ok(ResponseParameterData::GetEndpointList(p)),
                Err(e) => Err(e),
            },
            (CommandClass::GetCommandResponse, ParameterId::EndpointListChange) => match GetEndpointListChangeResponse::spec_decoded(buf) {
                Ok(p) => Ok(ResponseParameterData::GetEndpointListChange(p)),
                Err(e) => Err(e),
            },
            (CommandClass::GetCommandResponse, ParameterId::IdentifyEndpoint) => match GetIdentifyEndpointResponse::spec_decoded(buf) {
                Ok(p) => Ok(ResponseParameterData::GetIdentifyEndpoint(p)),
                Err(e) => Err(e),
            },
            (CommandClass::SetCommandResponse, ParameterId::IdentifyEndpoint) => match SetIdentifyEndpointResponse::spec_decoded(buf) {
                Ok(p) => Ok(ResponseParameterData::SetIdentifyEndpoint(p)),
                Err(e) => Err(e),
            },
            (CommandClass::GetCommandResponse, ParameterId::EndpointToUniverse) => match GetEndpointToUniverseResponse::spec_decoded(buf) {
                Ok(p) => Ok(ResponseParameterData::GetEndpointToUniverse(p)),
                Err(e) => Err(e),
            },
            (CommandClass::SetCommandResponse, ParameterId::EndpointToUniverse) => match SetEndpointToUniverseResponse::spec_decoded(buf) {
                Ok(p) => Ok(ResponseParameterData::SetEndpointToUniverse(p)),
                Err(e) => Err(e),
            },
            (CommandClass::GetCommandResponse, ParameterId::EndpointMode) => match GetEndpointModeResponse::spec_decoded(buf) {
                Ok(p) => Ok(ResponseParameterData::GetEndpointMode(p)),
                Err(e) => Err(e),
            },
            (CommandClass::SetCommandResponse, ParameterId::EndpointMode) => match SetEndpointModeResponse::spec_decoded(buf) {
                Ok(p) => Ok(ResponseParameterData::SetEndpointMode(p)),
                Err(e) => Err(e),
            },
            (CommandClass::GetCommandResponse, ParameterId::EndpointLabel) => match GetEndpointLabelResponse::spec_decoded(buf) {
                Ok(p) => Ok(ResponseParameterData::GetEndpointLabel(p)),
                Err(e) => Err(e),
            },
            (CommandClass::SetCommandResponse, ParameterId::EndpointLabel) => match SetEndpointLabelResponse::spec_decoded(buf) {
                Ok(p) => Ok(ResponseParameterData::SetEndpointLabel(p)),
                Err(e) => Err(e),
            },
            (CommandClass::GetCommandResponse, ParameterId::RdmTrafficEnable) => match GetRdmTrafficEnableResponse::spec_decoded(buf) {
                Ok(p) => Ok(ResponseParameterData::GetRdmTrafficEnable(p)),
                Err(e) => Err(e),
            },
            (CommandClass::SetCommandResponse, ParameterId::RdmTrafficEnable) => match SetRdmTrafficEnableResponse::spec_decoded(buf) {
                Ok(p) => Ok(ResponseParameterData::SetRdmTrafficEnable(p)),
                Err(e) => Err(e),
            },
            (CommandClass::GetCommandResponse, ParameterId::DiscoveryState) => match GetDiscoveryStateResponse::spec_decoded(buf) {
                Ok(p) => Ok(ResponseParameterData::GetDiscoveryState(p)),
                Err(e) => Err(e),
            },
            (CommandClass::SetCommandResponse, ParameterId::DiscoveryState) => match SetDiscoveryStateResponse::spec_decoded(buf) {
                Ok(p) => Ok(ResponseParameterData::SetDiscoveryState(p)),
                Err(e) => Err(e),
            },
            (CommandClass::GetCommandResponse, ParameterId::BackgroundDiscovery) => match GetBackgroundDiscoveryResponse::spec_decoded(buf) {
                Ok(p) => Ok(ResponseParameterData::GetBackgroundDiscovery(p)),
                Err(e) => Err(e),
            },
            (CommandClass::SetCommandResponse, ParameterId::BackgroundDiscovery) => match SetBackgroundDiscoveryResponse::spec_decoded(buf) {
                Ok(p) => Ok(ResponseParameterData::SetBackgroundDiscovery(p)),
                Err(e) => Err(e),
            },
            (CommandClass::GetCommandResponse, ParameterId::EndpointTiming) => match GetEndpointTimingResponse::spec_decoded(buf) {
                Ok(p) => Ok(ResponseParameterData::GetEndpointTiming(p)),
                Err(e) => Err(e),
            },
            (CommandClass::SetCommandResponse, ParameterId::EndpointTiming) => match SetEndpointTimingResponse::spec_decoded(buf) {
                Ok(p) => Ok(ResponseParameterData::SetEndpointTiming(p)),
                Err(e) => Err(e),
            },
            (CommandClass::GetCommandResponse, ParameterId::EndpointTimingDescription) => match GetEndpointTimingDescriptionResponse::spec_decoded(buf) {
                Ok(p) => Ok(ResponseParameterData::GetEndpointTimingDescription(p)),
                Err(e) => Err(e),
            },
            (CommandClass::GetCommandResponse, ParameterId::EndpointResponders) => match GetEndpointRespondersResponse::spec_decoded(buf) {
                Ok(p) => Ok(ResponseParameterData::GetEndpointResponders(p)),
                Err(e) => Err(e),
            },
            (CommandClass::GetCommandResponse, ParameterId::EndpointResponderListChange) => match GetEndpointResponderListChangeResponse::spec_decoded(buf) {
                Ok(p) => Ok(ResponseParameterData::GetEndpointResponderListChange(p)),
                Err(e) => Err(e),
            },
            (CommandClass::GetCommandResponse, ParameterId::BindingControlFields) => match GetBindingControlFieldsResponse::spec_decoded(buf) {
                Ok(p) => Ok(ResponseParameterData::GetBindingControlFields(p)),
                Err(e) => Err(e),
            },
            (CommandClass::GetCommandResponse, ParameterId::BackgroundQueuedStatusPolicy) => match GetBackgroundQueuedStatusPolicyResponse::spec_decoded(buf) {
                Ok(p) => Ok(ResponseParameterData::GetBackgroundQueuedStatusPolicy(p)),
                Err(e) => Err(e),
            },
            (CommandClass::GetCommandResponse, ParameterId::BackgroundQueuedStatusPolicyDescription) => match GetBackgroundQueuedStatusPolicyDescriptionResponse::spec_decoded(buf) {
                Ok(p) => Ok(ResponseParameterData::GetBackgroundQueuedStatusPolicyDescription(p)),
                Err(e) => Err(e),
            },
            _ => if spec_is_manufacturer_specific(parameter_id) {
                Ok(ResponseParameterData::ManufacturerSpecific(ParameterDataBuffer::spec_of_items(spec_raw_data(buf))))
            } else {
                Ok(ResponseParameterData::Unsupported(ParameterDataBuffer::spec_of_items(spec_raw_data(buf))))
            },
        }
    }

    /// Whether decoding the parameter data, with the command class and identifier, gives the parameter back.
    pub open spec fn spec_encodable(self) -> bool {
        match self {
            ResponseParameterData::DiscMute(p) => p.spec_encodable(),
            ResponseParameterData::DiscUnMute(p) => p.spec_encodable(),
            ResponseParameterData::GetProxiedDevices(p) => p.spec_encodable(),
            ResponseParameterData::GetProxiedDeviceCount(p) => p.spec_encodable(),
            ResponseParameterData::GetCommsStatus(p) => p.spec_encodable(),
            ResponseParameterData::GetStatusMessages(p) => p.spec_encodable(),
            ResponseParameterData::GetStatusIdDescription(p) => p.spec_encodable(),
            ResponseParameterData::GetSubDeviceIdStatusReportThreshold(p) => p.spec_encodable(),
            ResponseParameterData::GetSupportedParameters(p) => p.spec_encodable(),
            ResponseParameterData::GetParameterDescription(p) => p.spec_encodable(),
            ResponseParameterData::GetDeviceInfo(p) => p.spec_encodable(),
            ResponseParameterData::GetProductDetailIdList(p) => p.spec_encodable(),
            ResponseParameterData::GetDeviceModelDescription(p) => p.spec_encodable(),
            ResponseParameterData::GetManufacturerLabel(p) => p.spec_encodable(),
            ResponseParameterData::GetDeviceLabel(p) => p.spec_encodable(),
            ResponseParameterData::GetFactoryDefaults(p) => p.spec_encodable(),
            ResponseParameterData::GetLanguage(p) => p.spec_encodable(),
            ResponseParameterData::GetLanguageCapabilities(p) => p.spec_encodable(),
            ResponseParameterData::GetSoftwareVersionLabel(p) => p.spec_encodable(),
            ResponseParameterData::GetBootSoftwareVersionId(p) => p.spec_encodable(),
            ResponseParameterData::GetBootSoftwareVersionLabel(p) => p.spec_encodable(),
            ResponseParameterData::GetDmxPersonality(p) => p.spec_encodable(),
            ResponseParameterData::GetDmxPersonalityDescription(p) => p.spec_encodable(),
            ResponseParameterData::GetDmxStartAddress(p) => p.spec_encodable(),
            ResponseParameterData::GetSlotInfo(p) => p.spec_encodable(),
            ResponseParameterData::GetSlotDescription(p) => p.spec_encodable(),
            ResponseParameterData::GetDefaultSlotValue(p) => p.spec_encodable(),
            ResponseParameterData::GetSensorDefinition(p) => p.spec_encodable(),
            ResponseParameterData::GetSensorValue(p) => p.spec_encodable(),
            ResponseParameterData::SetSensorValue(p) => p.spec_encodable(),
            ResponseParameterData::GetDeviceHours(p) => p.spec_encodable(),
            ResponseParameterData::GetLampHours(p) => p.spec_encodable(),
            ResponseParameterData::GetLampStrikes(p) => p.spec_encodable(),
            ResponseParameterData::GetLampState(p) => p.spec_encodable(),
            ResponseParameterData::GetLampOnMode(p) => p.spec_encodable(),
            ResponseParameterData::GetDevicePowerCycles(p) => p.spec_encodable(),
            ResponseParameterData::GetDisplayInvert(p) => p.spec_encodable(),
            ResponseParameterData::GetDisplayLevel(p) => p.spec_encodable(),
            ResponseParameterData::GetPanInvert(p) => p.spec_encodable(),
            ResponseParameterData::GetTiltInvert(p) => p.spec_encodable(),
            ResponseParameterData::GetPanTiltSwap(p) => p.spec_encodable(),
            ResponseParameterData::GetRealTimeClock(p) => p.spec_encodable(),
            ResponseParameterData::GetIdentifyDevice(p) => p.spec_encodable(),
            ResponseParameterData::GetPowerState(p) => p.spec_encodable(),
            ResponseParameterData::GetPerformSelfTest(p) => p.spec_encodable(),
            ResponseParameterData::GetSelfTestDescription(p) => p.spec_encodable(),
            ResponseParameterData::GetPresetPlayback(p) => p.spec_encodable(),
            ResponseParameterData::GetComponentScope(p) => p.spec_encodable(),
            ResponseParameterData::GetSearchDomain(p) => p.spec_encodable(),
            ResponseParameterData::GetTcpCommsStatus(p) => p.spec_encodable(),
            ResponseParameterData::GetBrokerStatus(p) => p.spec_encodable(),
            ResponseParameterData::GetDmxBlockAddress(p) => p.spec_encodable(),
            ResponseParameterData::GetDmxFailMode(p) => p.spec_encodable(),
            ResponseParameterData::GetDmxStartupMode(p) => p.spec_encodable(),
            ResponseParameterData::GetDimmerInfo(p) => p.spec_encodable(),
            ResponseParameterData::GetMinimumLevel(p) => p.spec_encodable(),
            ResponseParameterData::GetMaximumLevel(p) => p.spec_encodable(),
            ResponseParameterData::GetCurve(p) => p.spec_encodable(),
            ResponseParameterData::GetCurveDescription(p) => p.spec_encodable(),
            ResponseParameterData::GetOutputResponseTime(p) => p.spec_encodable(),
            ResponseParameterData::GetOutputResponseTimeDescription(p) => p.spec_encodable(),
            ResponseParameterData::GetModulationFrequency(p) => p.spec_encodable(),
            ResponseParameterData::GetModulationFrequencyDescription(p) => p.spec_encodable(),
            ResponseParameterData::GetBurnIn(p) => p.spec_encodable(),
            ResponseParameterData::GetLockPin(p) => p.spec_encodable(),
            ResponseParameterData::GetLockState(p) => p.spec_encodable(),
            ResponseParameterData::GetLockStateDescription(p) => p.spec_encodable(),
            ResponseParameterData::GetIdentifyMode(p) => p.spec_encodable(),
            ResponseParameterData::GetPresetInfo(p) => p.spec_encodable(),
            ResponseParameterData::GetPresetMergeMode(p) => p.spec_encodable(),
            ResponseParameterData::GetPresetStatus(p) => p.spec_encodable(),
            ResponseParameterData::GetPowerOnSelfTest(p) => p.spec_encodable(),
            ResponseParameterData::GetListInterfaces(p) => p.spec_encodable(),
            ResponseParameterData::GetInterfaceLabel(p) => p.spec_encodable(),
            ResponseParameterData::GetInterfaceHardwareAddressType1(p) => p.spec_encodable(),
            ResponseParameterData::GetIpV4DhcpMode(p) => p.spec_encodable(),
            ResponseParameterData::GetIpV4ZeroConfMode(p) => p.spec_encodable(),
            ResponseParameterData::GetIpV4CurrentAddress(p) => p.spec_encodable(),
            ResponseParameterData::GetIpV4StaticAddress(p) => p.spec_encodable(),
            ResponseParameterData::GetIpV4DefaultRoute(p) => p.spec_encodable(),
            ResponseParameterData::GetDnsIpV4NameServer(p) => p.spec_encodable(),
            ResponseParameterData::GetDnsHostName(p) => p.spec_encodable(),
            ResponseParameterData::GetDnsDomainName(p) => p.spec_encodable(),
            ResponseParameterData::GetEndpointList(p) => p.spec_encodable(),
            ResponseParameterData::GetEndpointListChange(p) => p.spec_encodable(),
            ResponseParameterData::GetIdentifyEndpoint(p) => p.spec_encodable(),
            ResponseParameterData::SetIdentifyEndpoint(p) => p.spec_encodable(),
            ResponseParameterData::GetEndpointToUniverse(p) => p.spec_encodable(),
            ResponseParameterData::SetEndpointToUniverse(p) => p.spec_encodable(),
            ResponseParameterData::GetEndpointMode(p) => p.spec_encodable(),
            ResponseParameterData::SetEndpointMode(p) => p.spec_encodable(),
            ResponseParameterData::GetEndpointLabel(p) => p.spec_encodable(),
            ResponseParameterData::SetEndpointLabel(p) => p.spec_encodable(),
            ResponseParameterData::GetRdmTrafficEnable(p) => p.spec_encodable(),
            ResponseParameterData::SetRdmTrafficEnable(p) => p.spec_encodable(),
            ResponseParameterData::GetDiscoveryState(p) => p.spec_encodable(),
            ResponseParameterData::SetDiscoveryState(p) => p.spec_encodable(),
            ResponseParameterData::GetBackgroundDiscovery(p) => p.spec_encodable(),
            ResponseParameterData::SetBackgroundDiscovery(p) => p.spec_encodable(),
            ResponseParameterData::GetEndpointTiming(p) => p.spec_encodable(),
            ResponseParameterData::SetEndpointTiming(p) => p.spec_encodable(),
            ResponseParameterData::GetEndpointTimingDescription(p) => p.spec_encodable(),
            ResponseParameterData::GetEndpointResponders(p) => p.spec_encodable(),
            ResponseParameterData::GetEndpointResponderListChange(p) => p.spec_encodable(),
            ResponseParameterData::GetBindingControlFields(p) => p.spec_encodable(),
            ResponseParameterData::GetBackgroundQueuedStatusPolicy(p) => p.spec_encodable(),
            ResponseParameterData::GetBackgroundQueuedStatusPolicyDescription(p) => p.spec_encodable(),
            ResponseParameterData::ManufacturerSpecific(_) => false,
            ResponseParameterData::Unsupported(_) => false,
        }
    }

    /// The command class of the frame that carries the parameter.
    pub fn command_class(&self) -> (r: CommandClass)
        ensures
            r == self.spec_command_class(),
    {
        match self {
            ResponseParameterData::DiscMute(_) => CommandClass::DiscoveryCommandResponse,
            ResponseParameterData::DiscUnMute(_) => CommandClass::DiscoveryCommandResponse,
            ResponseParameterData::GetProxiedDevices(_) => CommandClass::GetCommandResponse,
            ResponseParameterData::GetProxiedDeviceCount(_) => CommandClass::GetCommandResponse,
            ResponseParameterData::GetCommsStatus(_) => CommandClass::GetCommandResponse,
            ResponseParameterData::GetStatusMessages(_) => CommandClass::GetCommandResponse,
            ResponseParameterData::GetStatusIdDescription(_) => CommandClass::GetCommandResponse,
            ResponseParameterData::GetSubDeviceIdStatusReportThreshold(_) => CommandClass::GetCommandResponse,
            ResponseParameterData::GetSupportedParameters(_) => CommandClass::GetCommandResponse,
            ResponseParameterData::GetParameterDescription(_) => CommandClass::GetCommandResponse,
            ResponseParameterData::GetDeviceInfo(_) => CommandClass::GetCommandResponse,
            ResponseParameterData::GetProductDetailIdList(_) => CommandClass::GetCommandResponse,
            ResponseParameterData::GetDeviceModelDescription(_) => CommandClass::GetCommandResponse,
            ResponseParameterData::GetManufacturerLabel(_) => CommandClass::GetCommandResponse,
            ResponseParameterData::GetDeviceLabel(_) => CommandClass::GetCommandResponse,
            ResponseParameterData::GetFactoryDefaults(_) => CommandClass::GetCommandResponse,
            ResponseParameterData::GetLanguage(_) => CommandClass::GetCommandResponse,
            ResponseParameterData::GetLanguageCapabilities(_) => CommandClass::GetCommandResponse,
            ResponseParameterData::GetSoftwareVersionLabel(_) => CommandClass::GetCommandResponse,
            ResponseParameterData::GetBootSoftwareVersionId(_) => CommandClass::GetCommandResponse,
            ResponseParameterData::GetBootSoftwareVersionLabel(_) => CommandClass::GetCommandResponse,
            ResponseParameterData::GetDmxPersonality(_) => CommandClass::GetCommandResponse,
            ResponseParameterData::GetDmxPersonalityDescription(_) => CommandClass::GetCommandResponse,
            ResponseParameterData::GetDmxStartAddress(_) => CommandClass::GetCommandResponse,
            ResponseParameterData::GetSlotInfo(_) => CommandClass::GetCommandResponse,
            ResponseParameterData::GetSlotDescription(_) => CommandClass::GetCommandResponse,
            ResponseParameterData::GetDefaultSlotValue(_) => CommandClass::GetCommandResponse,
            ResponseParameterData::GetSensorDefinition(_) => CommandClass::GetCommandResponse,
            ResponseParameterData::GetSensorValue(_) => CommandClass::GetCommandResponse,
            ResponseParameterData::SetSensorValue(_) => CommandClass::SetCommandResponse,
            ResponseParameterData::GetDeviceHours(_) => CommandClass::GetCommandResponse,
            ResponseParameterData::GetLampHours(_) => CommandClass::GetCommandResponse,
            ResponseParameterData::GetLampStrikes(_) => CommandClass::GetCommandResponse,
            ResponseParameterData::GetLampState(_) => CommandClass::GetCommandResponse,
            ResponseParameterData::GetLampOnMode(_) => CommandClass::GetCommandResponse,
            ResponseParameterData::GetDevicePowerCycles(_) => CommandClass::GetCommandResponse,
            ResponseParameterData::GetDisplayInvert(_) => CommandClass::GetCommandResponse,
            ResponseParameterData::GetDisplayLevel(_) => CommandClass::GetCommandResponse,
            ResponseParameterData::GetPanInvert(_) => CommandClass::GetCommandResponse,
            ResponseParameterData::GetTiltInvert(_) => CommandClass::GetCommandResponse,
            ResponseParameterData::GetPanTiltSwap(_) => CommandClass::GetCommandResponse,
            ResponseParameterData::GetRealTimeClock(_) => CommandClass::GetCommandResponse,
            ResponseParameterData::GetIdentifyDevice(_) => CommandClass::GetCommandResponse,
            ResponseParameterData::GetPowerState(_) => CommandClass::GetCommandResponse,
            ResponseParameterData::GetPerformSelfTest(_) => CommandClass::GetCommandResponse,
            ResponseParameterData::GetSelfTestDescription(_) => CommandClass::GetCommandResponse,
            ResponseParameterData::GetPresetPlayback(_) => CommandClass::GetCommandResponse,
            ResponseParameterData::GetComponentScope(_) => CommandClass::GetCommandResponse,
            ResponseParameterData::GetSearchDomain(_) => CommandClass::GetCommandResponse,
            ResponseParameterData::GetTcpCommsStatus(_) => CommandClass::GetCommandResponse,
            ResponseParameterData::GetBrokerStatus(_) => CommandClass::GetCommandResponse,
            ResponseParameterData::GetDmxBlockAddress(_) => CommandClass::GetCommandResponse,
            ResponseParameterData::GetDmxFailMode(_) => CommandClass::GetCommandResponse,
            ResponseParameterData::GetDmxStartupMode(_) => CommandClass::GetCommandResponse,
            ResponseParameterData::GetDimmerInfo(_) => CommandClass::GetCommandResponse,
            ResponseParameterData::GetMinimumLevel(_) => CommandClass::GetCommandResponse,
            ResponseParameterData::GetMaximumLevel(_) => CommandClass::GetCommandResponse,
            ResponseParameterData::GetCurve(_) => CommandClass::GetCommandResponse,
            ResponseParameterData::GetCurveDescription(_) => CommandClass::GetCommandResponse,
            ResponseParameterData::GetOutputResponseTime(_) => CommandClass::GetCommandResponse,
            ResponseParameterData::GetOutputResponseTimeDescription(_) => CommandClass::GetCommandResponse,
            ResponseParameterData::GetModulationFrequency(_) => CommandClass::GetCommandResponse,
            ResponseParameterData::GetModulationFrequencyDescription(_) => CommandClass::GetCommandResponse,
            ResponseParameterData::GetBurnIn(_) => CommandClass::GetCommandResponse,
            ResponseParameterData::GetLockPin(_) => CommandClass::GetCommandResponse,
            ResponseParameterData::GetLockState(_) => CommandClass::GetCommandResponse,
            ResponseParameterData::GetLockStateDescription(_) => CommandClass::GetCommandResponse,
            ResponseParameterData::GetIdentifyMode(_) => CommandClass::GetCommandResponse,
            ResponseParameterData::GetPresetInfo(_) => CommandClass::GetCommandResponse,
            ResponseParameterData::GetPresetMergeMode(_) => CommandClass::GetCommandResponse,
            ResponseParameterData::GetPresetStatus(_) => CommandClass::GetCommandResponse,
            ResponseParameterData::GetPowerOnSelfTest(_) => CommandClass::GetCommandResponse,
            ResponseParameterData::GetListInterfaces(_) => CommandClass::GetCommandResponse,
            ResponseParameterData::GetInterfaceLabel(_) => CommandClass::GetCommandResponse,
            ResponseParameterData::GetInterfaceHardwareAddressType1(_) => CommandClass::GetCommandResponse,
            ResponseParameterData::GetIpV4DhcpMode(_) => CommandClass::GetCommandResponse,
            ResponseParameterData::GetIpV4ZeroConfMode(_) => CommandClass::GetCommandResponse,
            ResponseParameterData::GetIpV4CurrentAddress(_) => CommandClass::GetCommandResponse,
            ResponseParameterData::GetIpV4StaticAddress(_) => CommandClass::GetCommandResponse,
            ResponseParameterData::GetIpV4DefaultRoute(_) => CommandClass::GetCommandResponse,
            ResponseParameterData::GetDnsIpV4NameServer(_) => CommandClass::GetCommandResponse,
            ResponseParameterData::GetDnsHostName(_) => CommandClass::GetCommandResponse,
            ResponseParameterData::GetDnsDomainName(_) => CommandClass::GetCommandResponse,
            ResponseParameterData::GetEndpointList(_) => CommandClass::GetCommandResponse,
            ResponseParameterData::GetEndpointListChange(_) => CommandClass::GetCommandResponse,
            ResponseParameterData::GetIdentifyEndpoint(_) => CommandClass::GetCommandResponse,
            ResponseParameterData::SetIdentifyEndpoint(_) => CommandClass::SetCommandResponse,
            ResponseParameterData::GetEndpointToUniverse(_) => CommandClass::GetCommandResponse,
            ResponseParameterData::SetEndpointToUniverse(_) => CommandClass::SetCommandResponse,
            ResponseParameterData::GetEndpointMode(_) => CommandClass::GetCommandResponse,
            ResponseParameterData::SetEndpointMode(_) => CommandClass::SetCommandResponse,
            ResponseParameterData::GetEndpointLabel(_) => CommandClass::GetCommandResponse,
            ResponseParameterData::SetEndpointLabel(_) => CommandClass::SetCommandResponse,
            ResponseParameterData::GetRdmTrafficEnable(_) => CommandClass::GetCommandResponse,
            ResponseParameterData::SetRdmTrafficEnable(_) => CommandClass::SetCommandResponse,
            ResponseParameterData::GetDiscoveryState(_) => CommandClass::GetCommandResponse,
            ResponseParameterData::SetDiscoveryState(_) => CommandClass::SetCommandResponse,
            ResponseParameterData::GetBackgroundDiscovery(_) => CommandClass::GetCommandResponse,
            ResponseParameterData::SetBackgroundDiscovery(_) => CommandClass::SetCommandResponse,
            ResponseParameterData::GetEndpointTiming(_) => CommandClass::GetCommandResponse,
            ResponseParameterData::SetEndpointTiming(_) => CommandClass::SetCommandResponse,
            ResponseParameterData::GetEndpointTimingDescription(_) => CommandClass::GetCommandResponse,
            ResponseParameterData::GetEndpointResponders(_) => CommandClass::GetCommandResponse,
            ResponseParameterData::GetEndpointResponderListChange(_) => CommandClass::GetCommandResponse,
            ResponseParameterData::GetBindingControlFields(_) => CommandClass::GetCommandResponse,
            ResponseParameterData::GetBackgroundQueuedStatusPolicy(_) => CommandClass::GetCommandResponse,
            ResponseParameterData::GetBackgroundQueuedStatusPolicyDescription(_) => CommandClass::GetCommandResponse,
            _ => CommandClass::GetCommandResponse,
        }
    }

    /// The identifier of the parameter.
    pub fn parameter_id(&self) -> (r: ParameterId)
        ensures
            r == self.spec_parameter_id(),
    {
        match self {
            ResponseParameterData::DiscMute(_) => ParameterId::DiscMute,
            ResponseParameterData::DiscUnMute(_) => ParameterId::DiscUnMute,
            ResponseParameterData::GetProxiedDevices(_) => ParameterId::ProxiedDevices,
            ResponseParameterData::GetProxiedDeviceCount(_) => ParameterId::ProxiedDeviceCount,
            ResponseParameterData::GetCommsStatus(_) => ParameterId::CommsStatus,
            ResponseParameterData::GetStatusMessages(_) => ParameterId::StatusMessages,
            ResponseParameterData::GetStatusIdDescription(_) => ParameterId::StatusIdDescription,
            ResponseParameterData::GetSubDeviceIdStatusReportThreshold(_) => ParameterId::SubDeviceIdStatusReportThreshold,
            ResponseParameterData::GetSupportedParameters(_) => ParameterId::SupportedParameters,
            ResponseParameterData::GetParameterDescription(_) => ParameterId::ParameterDescription,
            ResponseParameterData::GetDeviceInfo(_) => ParameterId::DeviceInfo,
            ResponseParameterData::GetProductDetailIdList(_) => ParameterId::ProductDetailIdList,
            ResponseParameterData::GetDeviceModelDescription(_) => ParameterId::DeviceModelDescription,
            ResponseParameterData::GetManufacturerLabel(_) => ParameterId::ManufacturerLabel,
            ResponseParameterData::GetDeviceLabel(_) => ParameterId::DeviceLabel,
            ResponseParameterData::GetFactoryDefaults(_) => ParameterId::FactoryDefaults,
            ResponseParameterData::GetLanguage(_) => ParameterId::Language,
            ResponseParameterData::GetLanguageCapabilities(_) => ParameterId::LanguageCapabilities,
            ResponseParameterData::GetSoftwareVersionLabel(_) => ParameterId::SoftwareVersionLabel,
            ResponseParameterData::GetBootSoftwareVersionId(_) => ParameterId::BootSoftwareVersionId,
            ResponseParameterData::GetBootSoftwareVersionLabel(_) => ParameterId::BootSoftwareVersionLabel,
            ResponseParameterData::GetDmxPersonality(_) => ParameterId::DmxPersonality,
            ResponseParameterData::GetDmxPersonalityDescription(_) => ParameterId::DmxPersonalityDescription,
            ResponseParameterData::GetDmxStartAddress(_) => ParameterId::DmxStartAddress,
            ResponseParameterData::GetSlotInfo(_) => ParameterId::SlotInfo,
            ResponseParameterData::GetSlotDescription(_) => ParameterId::SlotDescription,
            ResponseParameterData::GetDefaultSlotValue(_) => ParameterId::DefaultSlotValue,
            ResponseParameterData::GetSensorDefinition(_) => ParameterId::SensorDefinition,
            ResponseParameterData::GetSensorValue(_) => ParameterId::SensorValue,
            ResponseParameterData::SetSensorValue(_) => ParameterId::SensorValue,
            ResponseParameterData::GetDeviceHours(_) => ParameterId::DeviceHours,
            ResponseParameterData::GetLampHours(_) => ParameterId::LampHours,
            ResponseParameterData::GetLampStrikes(_) => ParameterId::LampStrikes,
            ResponseParameterData::GetLampState(_) => ParameterId::LampState,
            ResponseParameterData::GetLampOnMode(_) => ParameterId::LampOnMode,
            ResponseParameterData::GetDevicePowerCycles(_) => ParameterId::DevicePowerCycles,
            ResponseParameterData::GetDisplayInvert(_) => ParameterId::DisplayInvert,
            ResponseParameterData::GetDisplayLevel(_) => ParameterId::DisplayLevel,
            ResponseParameterData::GetPanInvert(_) => ParameterId::PanInvert,
            ResponseParameterData::GetTiltInvert(_) => ParameterId::TiltInvert,
            ResponseParameterData::GetPanTiltSwap(_) => ParameterId::PanTiltSwap,
            ResponseParameterData::GetRealTimeClock(_) => ParameterId::RealTimeClock,
            ResponseParameterData::GetIdentifyDevice(_) => ParameterId::IdentifyDevice,
            ResponseParameterData::GetPowerState(_) => ParameterId::PowerState,
            ResponseParameterData::GetPerformSelfTest(_) => ParameterId::PerformSelfTest,
            ResponseParameterData::GetSelfTestDescription(_) => ParameterId::SelfTestDescription,
            ResponseParameterData::GetPresetPlayback(_) => ParameterId::PresetPlayback,
            ResponseParameterData::GetComponentScope(_) => ParameterId::ComponentScope,
            ResponseParameterData::GetSearchDomain(_) => ParameterId::SearchDomain,
            ResponseParameterData::GetTcpCommsStatus(_) => ParameterId::TcpCommsStatus,
            ResponseParameterData::GetBrokerStatus(_) => ParameterId::BrokerStatus,
            ResponseParameterData::GetDmxBlockAddress(_) => ParameterId::DmxBlockAddress,
            ResponseParameterData::GetDmxFailMode(_) => ParameterId::DmxFailMode,
            ResponseParameterData::GetDmxStartupMode(_) => ParameterId::DmxStartupMode,
            ResponseParameterData::GetDimmerInfo(_) => ParameterId::DimmerInfo,
            ResponseParameterData::GetMinimumLevel(_) => ParameterId::MinimumLevel,
            ResponseParameterData::GetMaximumLevel(_) => ParameterId::MaximumLevel,
            ResponseParameterData::GetCurve(_) => ParameterId::Curve,
            ResponseParameterData::GetCurveDescription(_) => ParameterId::CurveDescription,
            ResponseParameterData::GetOutputResponseTime(_) => ParameterId::OutputResponseTime,
            ResponseParameterData::GetOutputResponseTimeDescription(_) => ParameterId::OutputResponseTimeDescription,
            ResponseParameterData::GetModulationFrequency(_) => ParameterId::ModulationFrequency,
            ResponseParameterData::GetModulationFrequencyDescription(_) => ParameterId::ModulationFrequencyDescription,
            ResponseParameterData::GetBurnIn(_) => ParameterId::BurnIn,
            ResponseParameterData::GetLockPin(_) => ParameterId::LockPin,
            ResponseParameterData::GetLockState(_) => ParameterId::LockState,
            ResponseParameterData::GetLockStateDescription(_) => ParameterId::LockStateDescription,
            ResponseParameterData::GetIdentifyMode(_) => ParameterId::IdentifyMode,
            ResponseParameterData::GetPresetInfo(_) => ParameterId::PresetInfo,
            ResponseParameterData::GetPresetMergeMode(_) => ParameterId::PresetMergeMode,
            ResponseParameterData::GetPresetStatus(_) => ParameterId::PresetStatus,
            ResponseParameterData::GetPowerOnSelfTest(_) => ParameterId::PowerOnSelfTest,
            ResponseParameterData::GetListInterfaces(_) => ParameterId::ListInterfaces,
            ResponseParameterData::GetInterfaceLabel(_) => ParameterId::InterfaceLabel,
            ResponseParameterData::GetInterfaceHardwareAddressType1(_) => ParameterId::InterfaceHardwareAddressType1,
            ResponseParameterData::GetIpV4DhcpMode(_) => ParameterId::IpV4DhcpMode,
            ResponseParameterData::GetIpV4ZeroConfMode(_) => ParameterId::IpV4ZeroConfMode,
            ResponseParameterData::GetIpV4CurrentAddress(_) => ParameterId::IpV4CurrentAddress,
            ResponseParameterData::GetIpV4StaticAddress(_) => ParameterId::IpV4StaticAddress,
            ResponseParameterData::GetIpV4DefaultRoute(_) => ParameterId::IpV4DefaultRoute,
            ResponseParameterData::GetDnsIpV4NameServer(_) => ParameterId::DnsIpV4NameServer,
            ResponseParameterData::GetDnsHostName(_) => ParameterId::DnsHostName,
            ResponseParameterData::GetDnsDomainName(_) => ParameterId::DnsDomainName,
            ResponseParameterData::GetEndpointList(_) => ParameterId::EndpointList,
            ResponseParameterData::GetEndpointListChange(_) => ParameterId::EndpointListChange,
            ResponseParameterData::GetIdentifyEndpoint(_) => ParameterId::IdentifyEndpoint,
            ResponseParameterData::SetIdentifyEndpoint(_) => ParameterId::IdentifyEndpoint,
            ResponseParameterData::GetEndpointToUniverse(_) => ParameterId::EndpointToUniverse,
            ResponseParameterData::SetEndpointToUniverse(_) => ParameterId::EndpointToUniverse,
            ResponseParameterData::GetEndpointMode(_) => ParameterId::EndpointMode,
            ResponseParameterData::SetEndpointMode(_) => ParameterId::EndpointMode,
            ResponseParameterData::GetEndpointLabel(_) => ParameterId::EndpointLabel,
            ResponseParameterData::SetEndpointLabel(_) => ParameterId::EndpointLabel,
            ResponseParameterData::GetRdmTrafficEnable(_) => ParameterId::RdmTrafficEnable,
            ResponseParameterData::SetRdmTrafficEnable(_) => ParameterId::RdmTrafficEnable,
            ResponseParameterData::GetDiscoveryState(_) => ParameterId::DiscoveryState,
            ResponseParameterData::SetDiscoveryState(_) => ParameterId::DiscoveryState,
            ResponseParameterData::GetBackgroundDiscovery(_) => ParameterId::BackgroundDiscovery,
            ResponseParameterData::SetBackgroundDiscovery(_) => ParameterId::BackgroundDiscovery,
            ResponseParameterData::GetEndpointTiming(_) => ParameterId::EndpointTiming,
            ResponseParameterData::SetEndpointTiming(_) => ParameterId::EndpointTiming,
            ResponseParameterData::GetEndpointTimingDescription(_) => ParameterId::EndpointTimingDescription,
            ResponseParameterData::GetEndpointResponders(_) => ParameterId::EndpointResponders,
            ResponseParameterData::GetEndpointResponderListChange(_) => ParameterId::EndpointResponderListChange,
            ResponseParameterData::GetBindingControlFields(_) => ParameterId::BindingControlFields,
            ResponseParameterData::GetBackgroundQueuedStatusPolicy(_) => ParameterId::BackgroundQueuedStatusPolicy,
            ResponseParameterData::GetBackgroundQueuedStatusPolicyDescription(_) => ParameterId::BackgroundQueuedStatusPolicyDescription,
            _ => ParameterId::Custom(0),
        }
    }

    /// Appends the parameter data to `out`.
    pub fn write_to(&self, out: &mut Vec<u8>)
        ensures
            final(out)@ == old(out)@ + self.spec_encoding(),
    {
        match self {
            ResponseParameterData::DiscMute(p) => {
                p.write_encoding(out);
            },
            ResponseParameterData::DiscUnMute(p) => {
                p.write_encoding(out);
            },
            ResponseParameterData::GetProxiedDevices(p) => {
                p.write_encoding(out);
            },
            ResponseParameterData::GetProxiedDeviceCount(p) => {
                p.write_encoding(out);
            },
            ResponseParameterData::GetCommsStatus(p) => {
                p.write_encoding(out);
            },
            ResponseParameterData::GetStatusMessages(p) => {
                p.write_encoding(out);
            },
            ResponseParameterData::GetStatusIdDescription(p) => {
                p.write_encoding(out);
            },
            ResponseParameterData::GetSubDeviceIdStatusReportThreshold(p) => {
                p.write_encoding(out);
            },
            ResponseParameterData::GetSupportedParameters(p) => {
                p.write_encoding(out);
            },
            ResponseParameterData::GetParameterDescription(p) => {
                p.write_encoding(out);
            },
            ResponseParameterData::GetDeviceInfo(p) => {
                p.write_encoding(out);
            },
            ResponseParameterData::GetProductDetailIdList(p) => {
                p.write_encoding(out);
            },
            ResponseParameterData::GetDeviceModelDescription(p) => {
                p.write_encoding(out);
            },
            ResponseParameterData::GetManufacturerLabel(p) => {
                p.write_encoding(out);
            },
            ResponseParameterData::GetDeviceLabel(p) => {
                p.write_encoding(out);
            },
            ResponseParameterData::GetFactoryDefaults(p) => {
                p.write_encoding(out);
            },
            ResponseParameterData::GetLanguage(p) => {
                p.write_encoding(out);
            },
            ResponseParameterData::GetLanguageCapabilities(p) => {
                p.write_encoding(out);
            },
            ResponseParameterData::GetSoftwareVersionLabel(p) => {
                p.write_encoding(out);
            },
            ResponseParameterData::GetBootSoftwareVersionId(p) => {
                p.write_encoding(out);
            },
            ResponseParameterData::GetBootSoftwareVersionLabel(p) => {
                p.write_encoding(out);
            },
            ResponseParameterData::GetDmxPersonality(p) => {
                p.write_encoding(out);
            },
            ResponseParameterData::GetDmxPersonalityDescription(p) => {
                p.write_encoding(out);
            },
            ResponseParameterData::GetDmxStartAddress(p) => {
                p.write_encoding(out);
            },
            ResponseParameterData::GetSlotInfo(p) => {
                p.write_encoding(out);
            },
            ResponseParameterData::GetSlotDescription(p) => {
                p.write_encoding(out);
            },
            ResponseParameterData::GetDefaultSlotValue(p) => {
                p.write_encoding(out);
            },
            ResponseParameterData::GetSensorDefinition(p) => {
                p.write_encoding(out);
            },
            ResponseParameterData::GetSensorValue(p) => {
                p.write_encoding(out);
            },
            ResponseParameterData::SetSensorValue(p) => {
                p.write_encoding(out);
            },
            ResponseParameterData::GetDeviceHours(p) => {
                p.write_encoding(out);
            },
            ResponseParameterData::GetLampHours(p) => {
                p.write_encoding(out);
            },
            ResponseParameterData::GetLampStrikes(p) => {
                p.write_encoding(out);
            },
            ResponseParameterData::GetLampState(p) => {
                p.write_encoding(out);
            },
            ResponseParameterData::GetLampOnMode(p) => {
                p.write_encoding(out);
            },
            ResponseParameterData::GetDevicePowerCycles(p) => {
                p.write_encoding(out);
            },
            ResponseParameterData::GetDisplayInvert(p) => {
                p.write_encoding(out);
            },
            ResponseParameterData::GetDisplayLevel(p) => {
                p.write_encoding(out);
            },
            ResponseParameterData::GetPanInvert(p) => {
                p.write_encoding(out);
            },
            ResponseParameterData::GetTiltInvert(p) => {
                p.write_encoding(out);
            },
            ResponseParameterData::GetPanTiltSwap(p) => {
                p.write_encoding(out);
            },
            ResponseParameterData::GetRealTimeClock(p) => {
                p.write_encoding(out);
            },
            ResponseParameterData::GetIdentifyDevice(p) => {
                p.write_encoding(out);
            },
            ResponseParameterData::GetPowerState(p) => {
                p.write_encoding(out);
            },
            ResponseParameterData::GetPerformSelfTest(p) => {
                p.write_encoding(out);
            },
            ResponseParameterData::GetSelfTestDescription(p) => {
                p.write_encoding(out);
            },
            ResponseParameterData::GetPresetPlayback(p) => {
                p.write_encoding(out);
            },
            ResponseParameterData::GetComponentScope(p) => {
                p.write_encoding(out);
            },
            ResponseParameterData::GetSearchDomain(p) => {
                p.write_encoding(out);
            },
            ResponseParameterData::GetTcpCommsStatus(p) => {
                p.write_encoding(out);
            },
            ResponseParameterData::GetBrokerStatus(p) => {
                p.write_encoding(out);
            },
            ResponseParameterData::GetDmxBlockAddress(p) => {
                p.write_encoding(out);
            },
            ResponseParameterData::GetDmxFailMode(p) => {
                p.write_encoding(out);
            },
            ResponseParameterData::GetDmxStartupMode(p) => {
                p.write_encoding(out);
            },
            ResponseParameterData::GetDimmerInfo(p) => {
                p.write_encoding(out);
            },
            ResponseParameterData::GetMinimumLevel(p) => {
                p.write_encoding(out);
            },
            ResponseParameterData::GetMaximumLevel(p) => {
                p.write_encoding(out);
            },
            ResponseParameterData::GetCurve(p) => {
                p.write_encoding(out);
            },
            ResponseParameterData::GetCurveDescription(p) => {
                p.write_encoding(out);
            },
            ResponseParameterData::GetOutputResponseTime(p) => {
                p.write_encoding(out);
            },
            ResponseParameterData::GetOutputResponseTimeDescription(p) => {
                p.write_encoding(out);
            },
            ResponseParameterData::GetModulationFrequency(p) => {
                p.write_encoding(out);
            },
            ResponseParameterData::GetModulationFrequencyDescription(p) => {
                p.write_encoding(out);
            },
            ResponseParameterData::GetBurnIn(p) => {
                p.write_encoding(out);
            },
            ResponseParameterData::GetLockPin(p) => {
                p.write_encoding(out);
            },
            ResponseParameterData::GetLockState(p) => {
                p.write_encoding(out);
            },
            ResponseParameterData::GetLockStateDescription(p) => {
                p.write_encoding(out);
            },
            ResponseParameterData::GetIdentifyMode(p) => {
                p.write_encoding(out);
            },
            ResponseParameterData::GetPresetInfo(p) => {
                p.write_encoding(out);
            },
            ResponseParameterData::GetPresetMergeMode(p) => {
                p.write_encoding(out);
            },
            ResponseParameterData::GetPresetStatus(p) => {
                p.write_encoding(out);
            },
            ResponseParameterData::GetPowerOnSelfTest(p) => {
                p.write_encoding(out);
            },
            ResponseParameterData::GetListInterfaces(p) => {
                p.write_encoding(out);
            },
            ResponseParameterData::GetInterfaceLabel(p) => {
                p.write_encoding(out);
            },
            ResponseParameterData::GetInterfaceHardwareAddressType1(p) => {
                p.write_encoding(out);
            },
            ResponseParameterData::GetIpV4DhcpMode(p) => {
                p.write_encoding(out);
            },
            ResponseParameterData::GetIpV4ZeroConfMode(p) => {
                p.write_encoding(out);
            },
            ResponseParameterData::GetIpV4CurrentAddress(p) => {
                p.write_encoding(out);
            },
            ResponseParameterData::GetIpV4StaticAddress(p) => {
                p.write_encoding(out);
            },
            ResponseParameterData::GetIpV4DefaultRoute(p) => {
                p.write_encoding(out);
            },
            ResponseParameterData::GetDnsIpV4NameServer(p) => {
                p.write_encoding(out);
            },
            ResponseParameterData::GetDnsHostName(p) => {
                p.write_encoding(out);
            },
            ResponseParameterData::GetDnsDomainName(p) => {
                p.write_encoding(out);
            },
            ResponseParameterData::GetEndpointList(p) => {
                p.write_encoding(out);
            },
            ResponseParameterData::GetEndpointListChange(p) => {
                p.write_encoding(out);
            },
            ResponseParameterData::GetIdentifyEndpoint(p) => {
                p.write_encoding(out);
            },
            ResponseParameterData::SetIdentifyEndpoint(p) => {
                p.write_encoding(out);
            },
            ResponseParameterData::GetEndpointToUniverse(p) => {
                p.write_encoding(out);
            },
            ResponseParameterData::SetEndpointToUniverse(p) => {
                p.write_encoding(out);
            },
            ResponseParameterData::GetEndpointMode(p) => {
                p.write_encoding(out);
            },
            ResponseParameterData::SetEndpointMode(p) => {
                p.write_encoding(out);
            },
            ResponseParameterData::GetEndpointLabel(p) => {
                p.write_encoding(out);
            },
            ResponseParameterData::SetEndpointLabel(p) => {
                p.write_encoding(out);
            },
            ResponseParameterData::GetRdmTrafficEnable(p) => {
                p.write_encoding(out);
            },
            ResponseParameterData::SetRdmTrafficEnable(p) => {
                p.write_encoding(out);
            },
            ResponseParameterData::GetDiscoveryState(p) => {
                p.write_encoding(out);
            },
            ResponseParameterData::SetDiscoveryState(p) => {
                p.write_encoding(out);
            },
            ResponseParameterData::GetBackgroundDiscovery(p) => {
                p.write_encoding(out);
            },
            ResponseParameterData::SetBackgroundDiscovery(p) => {
                p.write_encoding(out);
            },
            ResponseParameterData::GetEndpointTiming(p) => {
                p.write_encoding(out);
            },
            ResponseParameterData::SetEndpointTiming(p) => {
                p.write_encoding(out);
            },
            ResponseParameterData::GetEndpointTimingDescription(p) => {
                p.write_encoding(out);
            },
            ResponseParameterData::GetEndpointResponders(p) => {
                p.write_encoding(out);
            },
            ResponseParameterData::GetEndpointResponderListChange(p) => {
                p.write_encoding(out);
            },
            ResponseParameterData::GetBindingControlFields(p) => {
                p.write_encoding(out);
            },
            ResponseParameterData::GetBackgroundQueuedStatusPolicy(p) => {
                p.write_encoding(out);
            },
            ResponseParameterData::GetBackgroundQueuedStatusPolicyDescription(p) => {
                p.write_encoding(out);
            },
            ResponseParameterData::ManufacturerSpecific(d) => extend_from(out, d.as_slice()),
            ResponseParameterData::Unsupported(d) => extend_from(out, d.as_slice()),
        }
    }
}

impl<'a> ResponseParameterData<'a> {
    /// The number of bytes of parameter data.
    pub fn size(&self) -> (n: usize)
        ensures
            n == self.spec_encoding().len(),
            n <= 512,
    {
        match self {
            ResponseParameterData::DiscMute(p) => p.size_of(),
            ResponseParameterData::DiscUnMute(p) => p.size_of(),
            ResponseParameterData::GetProxiedDevices(p) => p.size_of(),
            ResponseParameterData::GetProxiedDeviceCount(p) => p.size_of(),
            ResponseParameterData::GetCommsStatus(p) => p.size_of(),
            ResponseParameterData::GetStatusMessages(p) => p.size_of(),
            ResponseParameterData::GetStatusIdDescription(p) => p.size_of(),
            ResponseParameterData::GetSubDeviceIdStatusReportThreshold(p) => p.size_of(),
            ResponseParameterData::GetSupportedParameters(p) => p.size_of(),
            ResponseParameterData::GetParameterDescription(p) => p.size_of(),
            ResponseParameterData::GetDeviceInfo(p) => p.size_of(),
            ResponseParameterData::GetProductDetailIdList(p) => p.size_of(),
            ResponseParameterData::GetDeviceModelDescription(p) => p.size_of(),
            ResponseParameterData::GetManufacturerLabel(p) => p.size_of(),
            ResponseParameterData::GetDeviceLabel(p) => p.size_of(),
            ResponseParameterData::GetFactoryDefaults(p) => p.size_of(),
            ResponseParameterData::GetLanguage(p) => p.size_of(),
            ResponseParameterData::GetLanguageCapabilities(p) => p.size_of(),
            ResponseParameterData::GetSoftwareVersionLabel(p) => p.size_of(),
            ResponseParameterData::GetBootSoftwareVersionId(p) => p.size_of(),
            ResponseParameterData::GetBootSoftwareVersionLabel(p) => p.size_of(),
            ResponseParameterData::GetDmxPersonality(p) => p.size_of(),
            ResponseParameterData::GetDmxPersonalityDescription(p) => p.size_of(),
            ResponseParameterData::GetDmxStartAddress(p) => p.size_of(),
            ResponseParameterData::GetSlotInfo(p) => p.size_of(),
            ResponseParameterData::GetSlotDescription(p) => p.size_of(),
            ResponseParameterData::GetDefaultSlotValue(p) => p.size_of(),
            ResponseParameterData::GetSensorDefinition(p) => p.size_of(),
            ResponseParameterData::GetSensorValue(p) => p.size_of(),
            ResponseParameterData::SetSensorValue(p) => p.size_of(),
            ResponseParameterData::GetDeviceHours(p) => p.size_of(),
            ResponseParameterData::GetLampHours(p) => p.size_of(),
            ResponseParameterData::GetLampStrikes(p) => p.size_of(),
            ResponseParameterData::GetLampState(p) => p.size_of(),
            ResponseParameterData::GetLampOnMode(p) => p.size_of(),
            ResponseParameterData::GetDevicePowerCycles(p) => p.size_of(),
            ResponseParameterData::GetDisplayInvert(p) => p.size_of(),
            ResponseParameterData::GetDisplayLevel(p) => p.size_of(),
            ResponseParameterData::GetPanInvert(p) => p.size_of(),
            ResponseParameterData::GetTiltInvert(p) => p.size_of(),
            ResponseParameterData::GetPanTiltSwap(p) => p.size_of(),
            ResponseParameterData::GetRealTimeClock(p) => p.size_of(),
            ResponseParameterData::GetIdentifyDevice(p) => p.size_of(),
            ResponseParameterData::GetPowerState(p) => p.size_of(),
            ResponseParameterData::GetPerformSelfTest(p) => p.size_of(),
            ResponseParameterData::GetSelfTestDescription(p) => p.size_of(),
            ResponseParameterData::GetPresetPlayback(p) => p.size_of(),
            ResponseParameterData::GetComponentScope(p) => p.size_of(),
            ResponseParameterData::GetSearchDomain(p) => p.size_of(),
            ResponseParameterData::GetTcpCommsStatus(p) => p.size_of(),
            ResponseParameterData::GetBrokerStatus(p) => p.size_of(),
            ResponseParameterData::GetDmxBlockAddress(p) => p.size_of(),
            ResponseParameterData::GetDmxFailMode(p) => p.size_of(),
            ResponseParameterData::GetDmxStartupMode(p) => p.size_of(),
            ResponseParameterData::GetDimmerInfo(p) => p.size_of(),
            ResponseParameterData::GetMinimumLevel(p) => p.size_of(),
            ResponseParameterData::GetMaximumLevel(p) => p.size_of(),
            ResponseParameterData::GetCurve(p) => p.size_of(),
            ResponseParameterData::GetCurveDescription(p) => p.size_of(),
            ResponseParameterData::GetOutputResponseTime(p) => p.size_of(),
            ResponseParameterData::GetOutputResponseTimeDescription(p) => p.size_of(),
            ResponseParameterData::GetModulationFrequency(p) => p.size_of(),
            ResponseParameterData::GetModulationFrequencyDescription(p) => p.size_of(),
            ResponseParameterData::GetBurnIn(p) => p.size_of(),
            ResponseParameterData::GetLockPin(p) => p.size_of(),
            ResponseParameterData::GetLockState(p) => p.size_of(),
            ResponseParameterData::GetLockStateDescription(p) => p.size_of(),
            ResponseParameterData::GetIdentifyMode(p) => p.size_of(),
            ResponseParameterData::GetPresetInfo(p) => p.size_of(),
            ResponseParameterData::GetPresetMergeMode(p) => p.size_of(),
            ResponseParameterData::GetPresetStatus(p) => p.size_of(),
            ResponseParameterData::GetPowerOnSelfTest(p) => p.size_of(),
            ResponseParameterData::GetListInterfaces(p) => p.size_of(),
            ResponseParameterData::GetInterfaceLabel(p) => p.size_of(),
            ResponseParameterData::GetInterfaceHardwareAddressType1(p) => p.size_of(),
            ResponseParameterData::GetIpV4DhcpMode(p) => p.size_of(),
            ResponseParameterData::GetIpV4ZeroConfMode(p) => p.size_of(),
            ResponseParameterData::GetIpV4CurrentAddress(p) => p.size_of(),
            ResponseParameterData::GetIpV4StaticAddress(p) => p.size_of(),
            ResponseParameterData::GetIpV4DefaultRoute(p) => p.size_of(),
            ResponseParameterData::GetDnsIpV4NameServer(p) => p.size_of(),
            ResponseParameterData::GetDnsHostName(p) => p.size_of(),
            ResponseParameterData::GetDnsDomainName(p) => p.size_of(),
            ResponseParameterData::GetEndpointList(p) => p.size_of(),
            ResponseParameterData::GetEndpointListChange(p) => p.size_of(),
            ResponseParameterData::GetIdentifyEndpoint(p) => p.size_of(),
            ResponseParameterData::SetIdentifyEndpoint(p) => p.size_of(),
            ResponseParameterData::GetEndpointToUniverse(p) => p.size_of(),
            ResponseParameterData::SetEndpointToUniverse(p) => p.size_of(),
            ResponseParameterData::GetEndpointMode(p) => p.size_of(),
            ResponseParameterData::SetEndpointMode(p) => p.size_of(),
            ResponseParameterData::GetEndpointLabel(p) => p.size_of(),
            ResponseParameterData::SetEndpointLabel(p) => p.size_of(),
            ResponseParameterData::GetRdmTrafficEnable(p) => p.size_of(),
            ResponseParameterData::SetRdmTrafficEnable(p) => p.size_of(),
            ResponseParameterData::GetDiscoveryState(p) => p.size_of(),
            ResponseParameterData::SetDiscoveryState(p) => p.size_of(),
            ResponseParameterData::GetBackgroundDiscovery(p) => p.size_of(),
            ResponseParameterData::SetBackgroundDiscovery(p) => p.size_of(),
            ResponseParameterData::GetEndpointTiming(p) => p.size_of(),
            ResponseParameterData::SetEndpointTiming(p) => p.size_of(),
            ResponseParameterData::GetEndpointTimingDescription(p) => p.size_of(),
            ResponseParameterData::GetEndpointResponders(p) => p.size_of(),
            ResponseParameterData::GetEndpointResponderListChange(p) => p.size_of(),
            ResponseParameterData::GetBindingControlFields(p) => p.size_of(),
            ResponseParameterData::GetBackgroundQueuedStatusPolicy(p) => p.size_of(),
            ResponseParameterData::GetBackgroundQueuedStatusPolicyDescription(p) => p.size_of(),
            ResponseParameterData::ManufacturerSpecific(d) => {
                proof {
                    use_type_invariant(d);
                    d.lemma_len_bound();
                }
                d.len()
            },
            ResponseParameterData::Unsupported(d) => {
                proof {
                    use_type_invariant(d);
                    d.lemma_len_bound();
                }
                d.len()
            },
        }
    }

    /// Writes the parameter data at the start of `buf`.
    pub fn encode(&self, buf: &mut [u8]) -> (r: Result<usize, ParameterDataError>)
        ensures
            encoded_into(old(buf)@, final(buf)@, self.spec_encoding(), r),
    {
        let mut out: Vec<u8> = Vec::new();
        self.write_to(&mut out);
        proof {
            assert(out@ =~= self.spec_encoding());
        }
        copy_encoded(buf, out.as_slice())
    }

    /// The parameter that the parameter data in `buf` stands for, given the command class and
    /// identifier, or the frame error of why it stands for none.
    pub open spec fn spec_decode(command_class: CommandClass, parameter_id: ParameterId, buf: Seq<u8>) -> Result<Self, RdmError> {
        match Self::spec_decoded(command_class, parameter_id, buf) {
            Ok(d) => Ok(d),
            Err(e) => Err(spec_data_error(command_class, parameter_id, e, buf)),
        }
    }

    /// Reads the parameter that the parameter data in `buf` stands for, given the command class and
    /// identifier; errors in the data are reported as `spec_data_error` says.
    pub fn decode(command_class: CommandClass, parameter_id: ParameterId, buf: &'a [u8]) -> (r: Result<Self, RdmError>)
        ensures
            r == Self::spec_decode(command_class, parameter_id, buf@),
    {
        match Self::decode_parameter_data(command_class, parameter_id, buf) {
            Ok(d) => Ok(d),
            Err(e) => Err(data_error(command_class, parameter_id, e, buf)),
        }
    }

    /// The parameter that the parameter data in `buf` stands for, given the command class and identifier.
    #[verifier::spinoff_prover]
    #[verifier::rlimit(100)]
    pub fn decode_parameter_data(command_class: CommandClass, parameter_id: ParameterId, buf: &'a [u8]) -> (r: Result<Self, ParameterDataError>)
        ensures
            r == Self::spec_decoded(command_class, parameter_id, buf@),
    {
        match (command_class, parameter_id) {
            (CommandClass::DiscoveryCommandResponse, ParameterId::DiscMute) => match DiscMuteResponse::decode_parameter_data(buf) {
                Ok(p) => Ok(ResponseParameterData::DiscMute(p)),
                Err(e) => Err(e),
            },
            (CommandClass::DiscoveryCommandResponse, ParameterId::DiscUnMute) => match DiscUnMuteResponse::decode_parameter_data(buf) {
                Ok(p) => Ok(ResponseParameterData::DiscUnMute(p)),
                Err(e) => Err(e),
            },
            (CommandClass::GetCommandResponse, ParameterId::ProxiedDevices) => match GetProxiedDevicesResponse::decode_parameter_data(buf) {
                Ok(p) => Ok(ResponseParameterData::GetProxiedDevices(p)),
                Err(e) => Err(e),
            },
            (CommandClass::GetCommandResponse, ParameterId::ProxiedDeviceCount) => match GetProxiedDeviceCountResponse::decode_parameter_data(buf) {
                Ok(p) => Ok(ResponseParameterData::GetProxiedDeviceCount(p)),
                Err(e) => Err(e),
            },
            (CommandClass::GetCommandResponse, ParameterId::CommsStatus) => match GetCommsStatusResponse::decode_parameter_data(buf) {
                Ok(p) => Ok(ResponseParameterData::GetCommsStatus(p)),
                Err(e) => Err(e),
            },
            (CommandClass::GetCommandResponse, ParameterId::StatusMessages) => match GetStatusMessagesResponse::decode_parameter_data(buf) {
                Ok(p) => Ok(ResponseParameterData::GetStatusMessages(p)),
                Err(e) => Err(e),
            },
            (CommandClass::GetCommandResponse, ParameterId::StatusIdDescription) => match GetStatusIdDescriptionResponse::decode_parameter_data(buf) {
                Ok(p) => Ok(ResponseParameterData::GetStatusIdDescription(p)),
                Err(e) => Err(e),
            },
            (CommandClass::GetCommandResponse, ParameterId::SubDeviceIdStatusReportThreshold) => match GetSubDeviceIdStatusReportThresholdResponse::decode_parameter_data(buf) {
                Ok(p) => Ok(ResponseParameterData::GetSubDeviceIdStatusReportThreshold(p)),
                Err(e) => Err(e),
            },
            (CommandClass::GetCommandResponse, ParameterId::SupportedParameters) => match GetSupportedParametersResponse::decode_parameter_data(buf) {
                Ok(p) => Ok(ResponseParameterData::GetSupportedParameters(p)),
                Err(e) => Err(e),
            },
            (CommandClass::GetCommandResponse, ParameterId::ParameterDescription) => match GetParameterDescriptionResponse::decode_parameter_data(buf) {
                Ok(p) => Ok(ResponseParameterData::GetParameterDescription(p)),
                Err(e) => Err(e),
            },
            (CommandClass::GetCommandResponse, ParameterId::DeviceInfo) => match GetDeviceInfoResponse::decode_parameter_data(buf) {
                Ok(p) => Ok(ResponseParameterData::GetDeviceInfo(p)),
                Err(e) => Err(e),
            },
            (CommandClass::GetCommandResponse, ParameterId::ProductDetailIdList) => match GetProductDetailIdListResponse::decode_parameter_data(buf) {
                Ok(p) => Ok(ResponseParameterData::GetProductDetailIdList(p)),
                Err(e) => Err(e),
            },
            (CommandClass::GetCommandResponse, ParameterId::DeviceModelDescription) => match GetDeviceModelDescriptionResponse::decode_parameter_data(buf) {
                Ok(p) => Ok(ResponseParameterData::GetDeviceModelDescription(p)),
                Err(e) => Err(e),
            },
            (CommandClass::GetCommandResponse, ParameterId::ManufacturerLabel) => match GetManufacturerLabelResponse::decode_parameter_data(buf) {
                Ok(p) => Ok(ResponseParameterData::GetManufacturerLabel(p)),
                Err(e) => Err(e),
            },
            (CommandClass::GetCommandResponse, ParameterId::DeviceLabel) => match GetDeviceLabelResponse::decode_parameter_data(buf) {
                Ok(p) => Ok(ResponseParameterData::GetDeviceLabel(p)),
                Err(e) => Err(e),
            },
            (CommandClass::GetCommandResponse, ParameterId::FactoryDefaults) => match GetFactoryDefaultsResponse::decode_parameter_data(buf) {
                Ok(p) => Ok(ResponseParameterData::GetFactoryDefaults(p)),
                Err(e) => Err(e),
            },
            (CommandClass::GetCommandResponse, ParameterId::Language) => match GetLanguageResponse::decode_parameter_data(buf) {
                Ok(p) => Ok(ResponseParameterData::GetLanguage(p)),
                Err(e) => Err(e),
            },
            (CommandClass::GetCommandResponse, ParameterId::LanguageCapabilities) => match GetLanguageCapabilitiesResponse::decode_parameter_data(buf) {
                Ok(p) => Ok(ResponseParameterData::GetLanguageCapabilities(p)),
                Err(e) => Err(e),
            },
            (CommandClass::GetCommandResponse, ParameterId::SoftwareVersionLabel) => match GetSoftwareVersionLabelResponse::decode_parameter_data(buf) {
                Ok(p) => Ok(ResponseParameterData::GetSoftwareVersionLabel(p)),
                Err(e) => Err(e),
            },
            (CommandClass::GetCommandResponse, ParameterId::BootSoftwareVersionId) => match GetBootSoftwareVersionIdResponse::decode_parameter_data(buf) {
                Ok(p) => Ok(ResponseParameterData::GetBootSoftwareVersionId(p)),
                Err(e) => Err(e),
            },
            (CommandClass::GetCommandResponse, ParameterId::BootSoftwareVersionLabel) => match GetBootSoftwareVersionLabelResponse::decode_parameter_data(buf) {
                Ok(p) => Ok(ResponseParameterData::GetBootSoftwareVersionLabel(p)),
                Err(e) => Err(e),
            },
            (CommandClass::GetCommandResponse, ParameterId::DmxPersonality) => match GetDmxPersonalityResponse::decode_parameter_data(buf) {
                Ok(p) => Ok(ResponseParameterData::GetDmxPersonality(p)),
                Err(e) => Err(e),
            },
            (CommandClass::GetCommandResponse, ParameterId::DmxPersonalityDescription) => match GetDmxPersonalityDescriptionResponse::decode_parameter_data(buf) {
                Ok(p) => Ok(ResponseParameterData::GetDmxPersonalityDescription(p)),
                Err(e) => Err(e),
            },
            (CommandClass::GetCommandResponse, ParameterId::DmxStartAddress) => match GetDmxStartAddressResponse::decode_parameter_data(buf) {
                Ok(p) => Ok(ResponseParameterData::GetDmxStartAddress(p)),
                Err(e) => Err(e),
            },
            (CommandClass::GetCommandResponse, ParameterId::SlotInfo) => match GetSlotInfoResponse::decode_parameter_data(buf) {
                Ok(p) => Ok(ResponseParameterData::GetSlotInfo(p)),
                Err(e) => Err(e),
            },
            (CommandClass::GetCommandResponse, ParameterId::SlotDescription) => match GetSlotDescriptionResponse::decode_parameter_data(buf) {
                Ok(p) => Ok(ResponseParameterData::GetSlotDescription(p)),
                Err(e) => Err(e),
            },
            (CommandClass::GetCommandResponse, ParameterId::DefaultSlotValue) => match GetDefaultSlotValueResponse::decode_parameter_data(buf) {
                Ok(p) => Ok(ResponseParameterData::GetDefaultSlotValue(p)),
                Err(e) => Err(e),
            },
            (CommandClass::GetCommandResponse, ParameterId::SensorDefinition) => match GetSensorDefinitionResponse::decode_parameter_data(buf) {
                Ok(p) => Ok(ResponseParameterData::GetSensorDefinition(p)),
                Err(e) => Err(e),
            },
            (CommandClass::GetCommandResponse, ParameterId::SensorValue) => match GetSensorValueResponse::decode_parameter_data(buf) {
                Ok(p) => Ok(ResponseParameterData::GetSensorValue(p)),
                Err(e) => Err(e),
            },
            (CommandClass::SetCommandResponse, ParameterId::SensorValue) => match SetSensorValueResponse::decode_parameter_data(buf) {
                Ok(p) => Ok(ResponseParameterData::SetSensorValue(p)),
                Err(e) => Err(e),
            },
            (CommandClass::GetCommandResponse, ParameterId::DeviceHours) => match GetDeviceHoursResponse::decode_parameter_data(buf) {
                Ok(p) => Ok(ResponseParameterData::GetDeviceHours(p)),
                Err(e) => Err(e),
            },
            (CommandClass::GetCommandResponse, ParameterId::LampHours) => match GetLampHoursResponse::decode_parameter_data(buf) {
                Ok(p) => Ok(ResponseParameterData::GetLampHours(p)),
                Err(e) => Err(e),
            },
            (CommandClass::GetCommandResponse, ParameterId::LampStrikes) => match GetLampStrikesResponse::decode_parameter_data(buf) {
                Ok(p) => Ok(ResponseParameterData::GetLampStrikes(p)),
                Err(e) => Err(e),
            },
            (CommandClass::GetCommandResponse, ParameterId::LampState) => match GetLampStateResponse::decode_parameter_data(buf) {
                Ok(p) => Ok(ResponseParameterData::GetLampState(p)),
                Err(e) => Err(e),
            },
            (CommandClass::GetCommandResponse, ParameterId::LampOnMode) => match GetLampOnModeResponse::decode_parameter_data(buf) {
                Ok(p) => Ok(ResponseParameterData::GetLampOnMode(p)),
                Err(e) => Err(e),
            },
            (CommandClass::GetCommandResponse, ParameterId::DevicePowerCycles) => match GetDevicePowerCyclesResponse::decode_parameter_data(buf) {
                Ok(p) => Ok(ResponseParameterData::GetDevicePowerCycles(p)),
                Err(e) => Err(e),
            },
            (CommandClass::GetCommandResponse, ParameterId::DisplayInvert) => match GetDisplayInvertResponse::decode_parameter_data(buf) {
                Ok(p) => Ok(ResponseParameterData::GetDisplayInvert(p)),
                Err(e) => Err(e),
            },
            (CommandClass::GetCommandResponse, ParameterId::DisplayLevel) => match GetDisplayLevelResponse::decode_parameter_data(buf) {
                Ok(p) => Ok(ResponseParameterData::GetDisplayLevel(p)),
                Err(e) => Err(e),
            },
            (CommandClass::GetCommandResponse, ParameterId::PanInvert) => match GetPanInvertResponse::decode_parameter_data(buf) {
                Ok(p) => Ok(ResponseParameterData::GetPanInvert(p)),
                Err(e) => Err(e),
            },
            (CommandClass::GetCommandResponse, ParameterId::TiltInvert) => match GetTiltInvertResponse::decode_parameter_data(buf) {
                Ok(p) => Ok(ResponseParameterData::GetTiltInvert(p)),
                Err(e) => Err(e),
            },
            (CommandClass::GetCommandResponse, ParameterId::PanTiltSwap) => match GetPanTiltSwapResponse::decode_parameter_data(buf) {
                Ok(p) => Ok(ResponseParameterData::GetPanTiltSwap(p)),
                Err(e) => Err(e),
            },
            (CommandClass::GetCommandResponse, ParameterId::RealTimeClock) => match GetRealTimeClockResponse::decode_parameter_data(buf) {
                Ok(p) => Ok(ResponseParameterData::GetRealTimeClock(p)),
                Err(e) => Err(e),
            },
            (CommandClass::GetCommandResponse, ParameterId::IdentifyDevice) => match GetIdentifyDeviceResponse::decode_parameter_data(buf) {
                Ok(p) => Ok(ResponseParameterData::GetIdentifyDevice(p)),
                Err(e) => Err(e),
            },
            (CommandClass::GetCommandResponse, ParameterId::PowerState) => match GetPowerStateResponse::decode_parameter_data(buf) {
                Ok(p) => Ok(ResponseParameterData::GetPowerState(p)),
                Err(e) => Err(e),
            },
            (CommandClass::GetCommandResponse, ParameterId::PerformSelfTest) => match GetPerformSelfTestResponse::decode_parameter_data(buf) {
                Ok(p) => Ok(ResponseParameterData::GetPerformSelfTest(p)),
                Err(e) => Err(e),
            },
            (CommandClass::GetCommandResponse, ParameterId::SelfTestDescription) => match GetSelfTestDescriptionResponse::decode_parameter_data(buf) {
                Ok(p) => Ok(ResponseParameterData::GetSelfTestDescription(p)),
                Err(e) => Err(e),
            },
            (CommandClass::GetCommandResponse, ParameterId::PresetPlayback) => match GetPresetPlaybackResponse::decode_parameter_data(buf) {
                Ok(p) => Ok(ResponseParameterData::GetPresetPlayback(p)),
                Err(e) => Err(e),
            },
            (CommandClass::GetCommandResponse, ParameterId::ComponentScope) => match GetComponentScopeResponse::decode_parameter_data(buf) {
                Ok(p) => Ok(ResponseParameterData::GetComponentScope(p)),
                Err(e) => Err(e),
            },
            (CommandClass::GetCommandResponse, ParameterId::SearchDomain) => match GetSearchDomainResponse::decode_parameter_data(buf) {
                Ok(p) => Ok(ResponseParameterData::GetSearchDomain(p)),
                Err(e) => Err(e),
            },
            (CommandClass::GetCommandResponse, ParameterId::TcpCommsStatus) => match GetTcpCommsStatusResponse::decode_parameter_data(buf) {
                Ok(p) => Ok(ResponseParameterData::GetTcpCommsStatus(p)),
                Err(e) => Err(e),
            },
            (CommandClass::GetCommandResponse, ParameterId::BrokerStatus) => match GetBrokerStatusResponse::decode_parameter_data(buf) {
                Ok(p) => Ok(ResponseParameterData::GetBrokerStatus(p)),
                Err(e) => Err(e),
            },
            (CommandClass::GetCommandResponse, ParameterId::DmxBlockAddress) => match GetDmxBlockAddressResponse::decode_parameter_data(buf) {
                Ok(p) => Ok(ResponseParameterData::GetDmxBlockAddress(p)),
                Err(e) => Err(e),
            },
            (CommandClass::GetCommandResponse, ParameterId::DmxFailMode) => match GetDmxFailModeResponse::decode_parameter_data(buf) {
                Ok(p) => Ok(ResponseParameterData::GetDmxFailMode(p)),
                Err(e) => Err(e),
            },
            (CommandClass::GetCommandResponse, ParameterId::DmxStartupMode) => match GetDmxStartupModeResponse::decode_parameter_data(buf) {
                Ok(p) => Ok(ResponseParameterData::GetDmxStartupMode(p)),
                Err(e) => Err(e),
            },
            (CommandClass::GetCommandResponse, ParameterId::DimmerInfo) => match GetDimmerInfoResponse::decode_parameter_data(buf) {
                Ok(p) => Ok(ResponseParameterData::GetDimmerInfo(p)),
                Err(e) => Err(e),
            },
            (CommandClass::GetCommandResponse, ParameterId::MinimumLevel) => match GetMinimumLevelResponse::decode_parameter_data(buf) {
                Ok(p) => Ok(ResponseParameterData::GetMinimumLevel(p)),
                Err(e) => Err(e),
            },
            (CommandClass::GetCommandResponse, ParameterId::MaximumLevel) => match GetMaximumLevelResponse::decode_parameter_data(buf) {
                Ok(p) => Ok(ResponseParameterData::GetMaximumLevel(p)),
                Err(e) => Err(e),
            },
            (CommandClass::GetCommandResponse, ParameterId::Curve) => match GetCurveResponse::decode_parameter_data(buf) {
                Ok(p) => Ok(ResponseParameterData::GetCurve(p)),
                Err(e) => Err(e),
            },
            (CommandClass::GetCommandResponse, ParameterId::CurveDescription) => match GetCurveDescriptionResponse::decode_parameter_data(buf) {
                Ok(p) => Ok(ResponseParameterData::GetCurveDescription(p)),
                Err(e) => Err(e),
            },
            (CommandClass::GetCommandResponse, ParameterId::OutputResponseTime) => match GetOutputResponseTimeResponse::decode_parameter_data(buf) {
                Ok(p) => Ok(ResponseParameterData::GetOutputResponseTime(p)),
                Err(e) => Err(e),
            },
            (CommandClass::GetCommandResponse, ParameterId::OutputResponseTimeDescription) => match GetOutputResponseTimeDescriptionResponse::decode_parameter_data(buf) {
                Ok(p) => Ok(ResponseParameterData::GetOutputResponseTimeDescription(p)),
                Err(e) => Err(e),
            },
            (CommandClass::GetCommandResponse, ParameterId::ModulationFrequency) => match GetModulationFrequencyResponse::decode_parameter_data(buf) {
                Ok(p) => Ok(ResponseParameterData::GetModulationFrequency(p)),
                Err(e) => Err(e),
            },
            (CommandClass::GetCommandResponse, ParameterId::ModulationFrequencyDescription) => match GetModulationFrequencyDescriptionResponse::decode_parameter_data(buf) {
                Ok(p) => Ok(ResponseParameterData::GetModulationFrequencyDescription(p)),
                Err(e) => Err(e),
            },
            (CommandClass::GetCommandResponse, ParameterId::BurnIn) => match GetBurnInResponse::decode_parameter_data(buf) {
                Ok(p) => Ok(ResponseParameterData::GetBurnIn(p)),
                Err(e) => Err(e),
            },
            (CommandClass::GetCommandResponse, ParameterId::LockPin) => match GetLockPinResponse::decode_parameter_data(buf) {
                Ok(p) => Ok(ResponseParameterData::GetLockPin(p)),
                Err(e) => Err(e),
            },
            (CommandClass::GetCommandResponse, ParameterId::LockState) => match GetLockStateResponse::decode_parameter_data(buf) {
                Ok(p) => Ok(ResponseParameterData::GetLockState(p)),
                Err(e) => Err(e),
            },
            (CommandClass::GetCommandResponse, ParameterId::LockStateDescription) => match GetLockStateDescriptionResponse::decode_parameter_data(buf) {
                Ok(p) => Ok(ResponseParameterData::GetLockStateDescription(p)),
                Err(e) => Err(e),
            },
            (CommandClass::GetCommandResponse, ParameterId::IdentifyMode) => match GetIdentifyModeResponse::decode_parameter_data(buf) {
                Ok(p) => Ok(ResponseParameterData::GetIdentifyMode(p)),
                Err(e) => Err(e),
            },
            (CommandClass::GetCommandResponse, ParameterId::PresetInfo) => match GetPresetInfoResponse::decode_parameter_data(buf) {
                Ok(p) => Ok(ResponseParameterData::GetPresetInfo(p)),
                Err(e) => Err(e),
            },
            (CommandClass::GetCommandResponse, ParameterId::PresetMergeMode) => match GetPresetMergeModeResponse::decode_parameter_data(buf) {
                Ok(p) => Ok(ResponseParameterData::GetPresetMergeMode(p)),
                Err(e) => Err(e),
            },
            (CommandClass::GetCommandResponse, ParameterId::PresetStatus) => match GetPresetStatusResponse::decode_parameter_data(buf) {
                Ok(p) => Ok(ResponseParameterData::GetPresetStatus(p)),
                Err(e) => Err(e),
            },
            (CommandClass::GetCommandResponse, ParameterId::PowerOnSelfTest) => match GetPowerOnSelfTestResponse::decode_parameter_data(buf) {
                Ok(p) => Ok(ResponseParameterData::GetPowerOnSelfTest(p)),
                Err(e) => Err(e),
            },
            (CommandClass::GetCommandResponse, ParameterId::ListInterfaces) => match GetListInterfacesResponse::decode_parameter_data(buf) {
                Ok(p) => Ok(ResponseParameterData::GetListInterfaces(p)),
                Err(e) => Err(e),
            },
            (CommandClass::GetCommandResponse, ParameterId::InterfaceLabel) => match GetInterfaceLabelResponse::decode_parameter_data(buf) {
                Ok(p) => Ok(ResponseParameterData::GetInterfaceLabel(p)),
                Err(e) => Err(e),
            },
            (CommandClass::GetCommandResponse, ParameterId::InterfaceHardwareAddressType1) => match GetInterfaceHardwareAddressType1Response::decode_parameter_data(buf) {
                Ok(p) => Ok(ResponseParameterData::GetInterfaceHardwareAddressType1(p)),
                Err(e) => Err(e),
            },
            (CommandClass::GetCommandResponse, ParameterId::IpV4DhcpMode) => match GetIpV4DhcpModeResponse::decode_parameter_data(buf) {
                Ok(p) => Ok(ResponseParameterData::GetIpV4DhcpMode(p)),
                Err(e) => Err(e),
            },
            (CommandClass::GetCommandResponse, ParameterId::IpV4ZeroConfMode) => match GetIpV4ZeroConfModeResponse::decode_parameter_data(buf) {
                Ok(p) => Ok(ResponseParameterData::GetIpV4ZeroConfMode(p)),
                Err(e) => Err(e),
            },
            (CommandClass::GetCommandResponse, ParameterId::IpV4CurrentAddress) => match GetIpV4CurrentAddressResponse::decode_parameter_data(buf) {
                Ok(p) => Ok(ResponseParameterData::GetIpV4CurrentAddress(p)),
                Err(e) => Err(e),
            },
            (CommandClass::GetCommandResponse, ParameterId::IpV4StaticAddress) => match GetIpV4StaticAddressResponse::decode_parameter_data(buf) {
                Ok(p) => Ok(ResponseParameterData::GetIpV4StaticAddress(p)),
                Err(e) => Err(e),
            },
            (CommandClass::GetCommandResponse, ParameterId::IpV4DefaultRoute) => match GetIpV4DefaultRouteResponse::decode_parameter_data(buf) {
                Ok(p) => Ok(ResponseParameterData::GetIpV4DefaultRoute(p)),
                Err(e) => Err(e),
            },
            (CommandClass::GetCommandResponse, ParameterId::DnsIpV4NameServer) => match GetDnsIpV4NameServerResponse::decode_parameter_data(buf) {
                Ok(p) => Ok(ResponseParameterData::GetDnsIpV4NameServer(p)),
                Err(e) => Err(e),
            },
            (CommandClass::GetCommandResponse, ParameterId::DnsHostName) => match GetDnsHostNameResponse::decode_parameter_data(buf) {
                Ok(p) => Ok(ResponseParameterData::GetDnsHostName(p)),
                Err(e) => Err(e),
            },
            (CommandClass::GetCommandResponse, ParameterId::DnsDomainName) => match GetDnsDomainNameResponse::decode_parameter_data(buf) {
                Ok(p) => Ok(ResponseParameterData::GetDnsDomainName(p)),
                Err(e) => Err(e),
            },
            (CommandClass::GetCommandResponse, ParameterId::EndpointList) => match GetEndpointListResponse::decode_parameter_data(buf) {
                Ok(p) => Ok(ResponseParameterData::GetEndpointList(p)),
                Err(e) => Err(e),
            },
            (CommandClass::GetCommandResponse, ParameterId::EndpointListChange) => match GetEndpointListChangeResponse::decode_parameter_data(buf) {
                Ok(p) => Ok(ResponseParameterData::GetEndpointListChange(p)),
                Err(e) => Err(e),
            },
            (CommandClass::GetCommandResponse, ParameterId::IdentifyEndpoint) => match GetIdentifyEndpointResponse::decode_parameter_data(buf) {
                Ok(p) => Ok(ResponseParameterData::GetIdentifyEndpoint(p)),
                Err(e) => Err(e),
            },
            (CommandClass::SetCommandResponse, ParameterId::IdentifyEndpoint) => match SetIdentifyEndpointResponse::decode_parameter_data(buf) {
                Ok(p) => Ok(ResponseParameterData::SetIdentifyEndpoint(p)),
                Err(e) => Err(e),
            },
            (CommandClass::GetCommandResponse, ParameterId::EndpointToUniverse) => match GetEndpointToUniverseResponse::decode_parameter_data(buf) {
                Ok(p) => Ok(ResponseParameterData::GetEndpointToUniverse(p)),
                Err(e) => Err(e),
            },
            (CommandClass::SetCommandResponse, ParameterId::EndpointToUniverse) => match SetEndpointToUniverseResponse::decode_parameter_data(buf) {
                Ok(p) => Ok(ResponseParameterData::SetEndpointToUniverse(p)),
                Err(e) => Err(e),
            },
            (CommandClass::GetCommandResponse, ParameterId::EndpointMode) => match GetEndpointModeResponse::decode_parameter_data(buf) {
                Ok(p) => Ok(ResponseParameterData::GetEndpointMode(p)),
                Err(e) => Err(e),
            },
            (CommandClass::SetCommandResponse, ParameterId::EndpointMode) => match SetEndpointModeResponse::decode_parameter_data(buf) {
                Ok(p) => Ok(ResponseParameterData::SetEndpointMode(p)),
                Err(e) => Err(e),
            },
            (CommandClass::GetCommandResponse, ParameterId::EndpointLabel) => match GetEndpointLabelResponse::decode_parameter_data(buf) {
                Ok(p) => Ok(ResponseParameterData::GetEndpointLabel(p)),
                Err(e) => Err(e),
            },
            (CommandClass::SetCommandResponse, ParameterId::EndpointLabel) => match SetEndpointLabelResponse::decode_parameter_data(buf) {
                Ok(p) => Ok(ResponseParameterData::SetEndpointLabel(p)),
                Err(e) => Err(e),
            },
            (CommandClass::GetCommandResponse, ParameterId::RdmTrafficEnable) => match GetRdmTrafficEnableResponse::decode_parameter_data(buf) {
                Ok(p) => Ok(ResponseParameterData::GetRdmTrafficEnable(p)),
                Err(e) => Err(e),
            },
            (CommandClass::SetCommandResponse, ParameterId::RdmTrafficEnable) => match SetRdmTrafficEnableResponse::decode_parameter_data(buf) {
                Ok(p) => Ok(ResponseParameterData::SetRdmTrafficEnable(p)),
                Err(e) => Err(e),
            },
            (CommandClass::GetCommandResponse, ParameterId::DiscoveryState) => match GetDiscoveryStateResponse::decode_parameter_data(buf) {
                Ok(p) => Ok(ResponseParameterData::GetDiscoveryState(p)),
                Err(e) => Err(e),
            },
            (CommandClass::SetCommandResponse, ParameterId::DiscoveryState) => match SetDiscoveryStateResponse::decode_parameter_data(buf) {
                Ok(p) => Ok(ResponseParameterData::SetDiscoveryState(p)),
                Err(e) => Err(e),
            },
            (CommandClass::GetCommandResponse, ParameterId::BackgroundDiscovery) => match GetBackgroundDiscoveryResponse::decode_parameter_data(buf) {
                Ok(p) => Ok(ResponseParameterData::GetBackgroundDiscovery(p)),
                Err(e) => Err(e),
            },
            (CommandClass::SetCommandResponse, ParameterId::BackgroundDiscovery) => match SetBackgroundDiscoveryResponse::decode_parameter_data(buf) {
                Ok(p) => Ok(ResponseParameterData::SetBackgroundDiscovery(p)),
                Err(e) => Err(e),
            },
            (CommandClass::GetCommandResponse, ParameterId::EndpointTiming) => match GetEndpointTimingResponse::decode_parameter_data(buf) {
                Ok(p) => Ok(ResponseParameterData::GetEndpointTiming(p)),
                Err(e) => Err(e),
            },
            (CommandClass::SetCommandResponse, ParameterId::EndpointTiming) => match SetEndpointTimingResponse::decode_parameter_data(buf) {
                Ok(p) => Ok(ResponseParameterData::SetEndpointTiming(p)),
                Err(e) => Err(e),
            },
            (CommandClass::GetCommandResponse, ParameterId::EndpointTimingDescription) => match GetEndpointTimingDescriptionResponse::decode_parameter_data(buf) {
                Ok(p) => Ok(ResponseParameterData::GetEndpointTimingDescription(p)),
                Err(e) => Err(e),
            },
            (CommandClass::GetCommandResponse, ParameterId::EndpointResponders) => match GetEndpointRespondersResponse::decode_parameter_data(buf) {
                Ok(p) => Ok(ResponseParameterData::GetEndpointResponders(p)),
                Err(e) => Err(e),
            },
            (CommandClass::GetCommandResponse, ParameterId::EndpointResponderListChange) => match GetEndpointResponderListChangeResponse::decode_parameter_data(buf) {
                Ok(p) => Ok(ResponseParameterData::GetEndpointResponderListChange(p)),
                Err(e) => Err(e),
            },
            (CommandClass::GetCommandResponse, ParameterId::BindingControlFields) => match GetBindingControlFieldsResponse::decode_parameter_data(buf) {
                Ok(p) => Ok(ResponseParameterData::GetBindingControlFields(p)),
                Err(e) => Err(e),
            },
            (CommandClass::GetCommandResponse, ParameterId::BackgroundQueuedStatusPolicy) => match GetBackgroundQueuedStatusPolicyResponse::decode_parameter_data(buf) {
                Ok(p) => Ok(ResponseParameterData::GetBackgroundQueuedStatusPolicy(p)),
                Err(e) => Err(e),
            },
            (CommandClass::GetCommandResponse, ParameterId::BackgroundQueuedStatusPolicyDescription) => match GetBackgroundQueuedStatusPolicyDescriptionResponse::decode_parameter_data(buf) {
                Ok(p) => Ok(ResponseParameterData::GetBackgroundQueuedStatusPolicyDescription(p)),
                Err(e) => Err(e),
            },
            _ => {
                let raw = raw_data(buf);
                let data = match ParameterDataBuffer::from_slice(raw) {
                    Some(d) => d,
                    None => {
                        proof {
                            assert(false);
                        }
                        ParameterDataBuffer::new()
                    },
                };
                if is_manufacturer_specific(parameter_id) {
                    Ok(ResponseParameterData::ManufacturerSpecific(data))
                } else {
                    Ok(ResponseParameterData::Unsupported(data))
                }
            },
        }
    }

    /// Whether the parameter is the one that its data decodes to under a command class and identifier.
    pub open spec fn spec_fits(self, command_class: CommandClass, parameter_id: ParameterId) -> bool {
        match self {
            ResponseParameterData::ManufacturerSpecific(d) => d.wf() && !Self::spec_is_modeled(command_class, parameter_id)
                && spec_is_manufacturer_specific(parameter_id),
            ResponseParameterData::Unsupported(d) => d.wf() && !Self::spec_is_modeled(command_class, parameter_id)
                && !spec_is_manufacturer_specific(parameter_id),
            _ => command_class == self.spec_command_class() && parameter_id == self.spec_parameter_id()
                && self.spec_encodable(),
        }
    }

    /// Decoding the parameter data of a parameter, under a command class and identifier that fit it, gives it back.
    #[verifier::spinoff_prover]
    #[verifier::rlimit(100)]
    pub proof fn lemma_roundtrip(self, command_class: CommandClass, parameter_id: ParameterId)
        requires
            self.spec_fits(command_class, parameter_id),
        ensures
            Self::spec_decoded(command_class, parameter_id, self.spec_encoding()) == Ok::<Self, ParameterDataError>(self),
    {
        match self {
            ResponseParameterData::DiscMute(p) => p.lemma_roundtrip(),
            ResponseParameterData::DiscUnMute(p) => p.lemma_roundtrip(),
            ResponseParameterData::GetProxiedDevices(p) => p.lemma_roundtrip(),
            ResponseParameterData::GetProxiedDeviceCount(p) => p.lemma_roundtrip(),
            ResponseParameterData::GetCommsStatus(p) => p.lemma_roundtrip(),
            ResponseParameterData::GetStatusMessages(p) => p.lemma_roundtrip(),
            ResponseParameterData::GetStatusIdDescription(p) => p.lemma_roundtrip(),
            ResponseParameterData::GetSubDeviceIdStatusReportThreshold(p) => p.lemma_roundtrip(),
            ResponseParameterData::GetSupportedParameters(p) => p.lemma_roundtrip(),
            ResponseParameterData::GetParameterDescription(p) => p.lemma_roundtrip(),
            ResponseParameterData::GetDeviceInfo(p) => p.lemma_roundtrip(),
            ResponseParameterData::GetProductDetailIdList(p) => p.lemma_roundtrip(),
            ResponseParameterData::GetDeviceModelDescription(p) => p.lemma_roundtrip(),
            ResponseParameterData::GetManufacturerLabel(p) => p.lemma_roundtrip(),
            ResponseParameterData::GetDeviceLabel(p) => p.lemma_roundtrip(),
            ResponseParameterData::GetFactoryDefaults(p) => p.lemma_roundtrip(),
            ResponseParameterData::GetLanguage(p) => p.lemma_roundtrip(),
            ResponseParameterData::GetLanguageCapabilities(p) => p.lemma_roundtrip(),
            ResponseParameterData::GetSoftwareVersionLabel(p) => p.lemma_roundtrip(),
            ResponseParameterData::GetBootSoftwareVersionId(p) => p.lemma_roundtrip(),
            ResponseParameterData::GetBootSoftwareVersionLabel(p) => p.lemma_roundtrip(),
            ResponseParameterData::GetDmxPersonality(p) => p.lemma_roundtrip(),
            ResponseParameterData::GetDmxPersonalityDescription(p) => p.lemma_roundtrip(),
            ResponseParameterData::GetDmxStartAddress(p) => p.lemma_roundtrip(),
            ResponseParameterData::GetSlotInfo(p) => p.lemma_roundtrip(),
            ResponseParameterData::GetSlotDescription(p) => p.lemma_roundtrip(),
            ResponseParameterData::GetDefaultSlotValue(p) => p.lemma_roundtrip(),
            ResponseParameterData::GetSensorDefinition(p) => p.lemma_roundtrip(),
            ResponseParameterData::GetSensorValue(p) => p.lemma_roundtrip(),
            ResponseParameterData::SetSensorValue(p) => p.lemma_roundtrip(),
            ResponseParameterData::GetDeviceHours(p) => p.lemma_roundtrip(),
            ResponseParameterData::GetLampHours(p) => p.lemma_roundtrip(),
            ResponseParameterData::GetLampStrikes(p) => p.lemma_roundtrip(),
            ResponseParameterData::GetLampState(p) => p.lemma_roundtrip(),
            ResponseParameterData::GetLampOnMode(p) => p.lemma_roundtrip(),
            ResponseParameterData::GetDevicePowerCycles(p) => p.lemma_roundtrip(),
            ResponseParameterData::GetDisplayInvert(p) => p.lemma_roundtrip(),
            ResponseParameterData::GetDisplayLevel(p) => p.lemma_roundtrip(),
            ResponseParameterData::GetPanInvert(p) => p.lemma_roundtrip(),
            ResponseParameterData::GetTiltInvert(p) => p.lemma_roundtrip(),
            ResponseParameterData::GetPanTiltSwap(p) => p.lemma_roundtrip(),
            ResponseParameterData::GetRealTimeClock(p) => p.lemma_roundtrip(),
            ResponseParameterData::GetIdentifyDevice(p) => p.lemma_roundtrip(),
            ResponseParameterData::GetPowerState(p) => p.lemma_roundtrip(),
            ResponseParameterData::GetPerformSelfTest(p) => p.lemma_roundtrip(),
            ResponseParameterData::GetSelfTestDescription(p) => p.lemma_roundtrip(),
            ResponseParameterData::GetPresetPlayback(p) => p.lemma_roundtrip(),
            ResponseParameterData::GetComponentScope(p) => p.lemma_roundtrip(),
            ResponseParameterData::GetSearchDomain(p) => p.lemma_roundtrip(),
            ResponseParameterData::GetTcpCommsStatus(p) => p.lemma_roundtrip(),
            ResponseParameterData::GetBrokerStatus(p) => p.lemma_roundtrip(),
            ResponseParameterData::GetDmxBlockAddress(p) => p.lemma_roundtrip(),
            ResponseParameterData::GetDmxFailMode(p) => p.lemma_roundtrip(),
            ResponseParameterData::GetDmxStartupMode(p) => p.lemma_roundtrip(),
            ResponseParameterData::GetDimmerInfo(p) => p.lemma_roundtrip(),
            ResponseParameterData::GetMinimumLevel(p) => p.lemma_roundtrip(),
            ResponseParameterData::GetMaximumLevel(p) => p.lemma_roundtrip(),
            ResponseParameterData::GetCurve(p) => p.lemma_roundtrip(),
            ResponseParameterData::GetCurveDescription(p) => p.lemma_roundtrip(),
            ResponseParameterData::GetOutputResponseTime(p) => p.lemma_roundtrip(),
            ResponseParameterData::GetOutputResponseTimeDescription(p) => p.lemma_roundtrip(),
            ResponseParameterData::GetModulationFrequency(p) => p.lemma_roundtrip(),
            ResponseParameterData::GetModulationFrequencyDescription(p) => p.lemma_roundtrip(),
            ResponseParameterData::GetBurnIn(p) => p.lemma_roundtrip(),
            ResponseParameterData::GetLockPin(p) => p.lemma_roundtrip(),
            ResponseParameterData::GetLockState(p) => p.lemma_roundtrip(),
            ResponseParameterData::GetLockStateDescription(p) => p.lemma_roundtrip(),
            ResponseParameterData::GetIdentifyMode(p) => p.lemma_roundtrip(),
            ResponseParameterData::GetPresetInfo(p) => p.lemma_roundtrip(),
            ResponseParameterData::GetPresetMergeMode(p) => p.lemma_roundtrip(),
            ResponseParameterData::GetPresetStatus(p) => p.lemma_roundtrip(),
            ResponseParameterData::GetPowerOnSelfTest(p) => p.lemma_roundtrip(),
            ResponseParameterData::GetListInterfaces(p) => p.lemma_roundtrip(),
            ResponseParameterData::GetInterfaceLabel(p) => p.lemma_roundtrip(),
            ResponseParameterData::GetInterfaceHardwareAddressType1(p) => p.lemma_roundtrip(),
            ResponseParameterData::GetIpV4DhcpMode(p) => p.lemma_roundtrip(),
            ResponseParameterData::GetIpV4ZeroConfMode(p) => p.lemma_roundtrip(),
            ResponseParameterData::GetIpV4CurrentAddress(p) => p.lemma_roundtrip(),
            ResponseParameterData::GetIpV4StaticAddress(p) => p.lemma_roundtrip(),
            ResponseParameterData::GetIpV4DefaultRoute(p) => p.lemma_roundtrip(),
            ResponseParameterData::GetDnsIpV4NameServer(p) => p.lemma_roundtrip(),
            ResponseParameterData::GetDnsHostName(p) => p.lemma_roundtrip(),
            ResponseParameterData::GetDnsDomainName(p) => p.lemma_roundtrip(),
            ResponseParameterData::GetEndpointList(p) => p.lemma_roundtrip(),
            ResponseParameterData::GetEndpointListChange(p) => p.lemma_roundtrip(),
            ResponseParameterData::GetIdentifyEndpoint(p) => p.lemma_roundtrip(),
            ResponseParameterData::SetIdentifyEndpoint(p) => p.lemma_roundtrip(),
            ResponseParameterData::GetEndpointToUniverse(p) => p.lemma_roundtrip(),
            ResponseParameterData::SetEndpointToUniverse(p) => p.lemma_roundtrip(),
            ResponseParameterData::GetEndpointMode(p) => p.lemma_roundtrip(),
            ResponseParameterData::SetEndpointMode(p) => p.lemma_roundtrip(),
            ResponseParameterData::GetEndpointLabel(p) => p.lemma_roundtrip(),
            ResponseParameterData::SetEndpointLabel(p) => p.lemma_roundtrip(),
            ResponseParameterData::GetRdmTrafficEnable(p) => p.lemma_roundtrip(),
            ResponseParameterData::SetRdmTrafficEnable(p) => p.lemma_roundtrip(),
            ResponseParameterData::GetDiscoveryState(p) => p.lemma_roundtrip(),
            ResponseParameterData::SetDiscoveryState(p) => p.lemma_roundtrip(),
            ResponseParameterData::GetBackgroundDiscovery(p) => p.lemma_roundtrip(),
            ResponseParameterData::SetBackgroundDiscovery(p) => p.lemma_roundtrip(),
            ResponseParameterData::GetEndpointTiming(p) => p.lemma_roundtrip(),
            ResponseParameterData::SetEndpointTiming(p) => p.lemma_roundtrip(),
            ResponseParameterData::GetEndpointTimingDescription(p) => p.lemma_roundtrip(),
            ResponseParameterData::GetEndpointResponders(p) => p.lemma_roundtrip(),
            ResponseParameterData::GetEndpointResponderListChange(p) => p.lemma_roundtrip(),
            ResponseParameterData::GetBindingControlFields(p) => p.lemma_roundtrip(),
            ResponseParameterData::GetBackgroundQueuedStatusPolicy(p) => p.lemma_roundtrip(),
            ResponseParameterData::GetBackgroundQueuedStatusPolicyDescription(p) => p.lemma_roundtrip(),
            ResponseParameterData::ManufacturerSpecific(d) => {
                d.lemma_len_bound();
                assert(spec_raw_data(d.spec_items()) =~= d.spec_items());
                ParameterDataBuffer::lemma_of_own_items(d);
            },
            ResponseParameterData::Unsupported(d) => {
                d.lemma_len_bound();
                assert(spec_raw_data(d.spec_items()) =~= d.spec_items());
                ParameterDataBuffer::lemma_of_own_items(d);
            },
        }
    }
}

/// Whether a parameter identifier is in the manufacturer specific range.
pub open spec fn spec_is_manufacturer_specific(parameter_id: ParameterId) -> bool {
    match parameter_id {
        ParameterId::Custom(p) => 0x8000 <= p && p <= 0xffdf,
        _ => false,
    }
}

pub fn is_manufacturer_specific(parameter_id: ParameterId) -> (b: bool)
    ensures
        b == spec_is_manufacturer_specific(parameter_id),
{
    match parameter_id {
        ParameterId::Custom(p) => 0x8000 <= p && p <= 0xffdf,
        _ => false,
    }
}

/// The first 231 bytes of parameter data at most.
pub open spec fn spec_raw_data(buf: Seq<u8>) -> Seq<u8> {
    if buf.len() <= 231 {
        buf
    } else {
        buf.subrange(0, 231)
    }
}

pub fn raw_data(buf: &[u8]) -> (r: &[u8])
    ensures
        r@ == spec_raw_data(buf@),
{
    if buf.len() <= 231 {
        proof {
            assert(buf@.subrange(0, buf@.len() as int) =~= buf@);
        }
        vstd::slice::slice_subrange(buf, 0, buf.len())
    } else {
        vstd::slice::slice_subrange(buf, 0, 231)
    }
}

/// The frame error that a parameter data error stands for: data shorter than its parameter needs
/// is a message length error, reported with the length of the data; text that is not UTF-8 is a
/// UTF-8 error; a field value that its type does not name is the error of that type.
pub open spec fn spec_data_error(command_class: CommandClass, parameter_id: ParameterId, e: ParameterDataError, buf: Seq<u8>) -> RdmError {
    match e {
        ParameterDataError::BufferTooSmall { .. } => RdmError::InvalidMessageLength(buf.len() as u8),
        ParameterDataError::InvalidUtf8 => RdmError::Utf8Error,
        ParameterDataError::MalformedData => spec_field_error(command_class, parameter_id, buf),
        _ => RdmError::ParameterData(e),
    }
}

fn data_error(command_class: CommandClass, parameter_id: ParameterId, e: ParameterDataError, buf: &[u8]) -> (r: RdmError)
    ensures
        r == spec_data_error(command_class, parameter_id, e, buf@),
{
    match e {
        ParameterDataError::BufferTooSmall { .. } => RdmError::InvalidMessageLength(buf.len() as u8),
        ParameterDataError::InvalidUtf8 => RdmError::Utf8Error,
        ParameterDataError::MalformedData => field_error(command_class, parameter_id, buf),
        _ => RdmError::ParameterData(e),
    }
}

/// The data that a response frame carries.
#[derive(Clone, Copy, Debug, PartialEq)]
pub enum ResponseData<'a> {
    ParameterData(Option<ResponseParameterData<'a>>),
    /// Estimated response time in tenths of a second.
    EstimateResponseTime(u16),
    /// Estimated response time in milliseconds.
    EstimateResponseTimeHiRes(u16),
    NackReason(ResponseNackReasonCode),
}

impl<'a> ResponseData<'a> {
    /// The parameter data of the frame.
    pub open spec fn spec_encode(self) -> Seq<u8> {
        match self {
            ResponseData::ParameterData(Some(d)) => d.spec_encoding(),
            ResponseData::ParameterData(None) => Seq::empty(),
            ResponseData::EstimateResponseTime(t) => t.spec_wire(),
            ResponseData::EstimateResponseTimeHiRes(t) => t.spec_wire(),
            ResponseData::NackReason(r) => r.spec_wire(),
        }
    }

    pub fn encode(&self) -> (r: Vec<u8>)
        ensures
            r@ == self.spec_encode(),
    {
        let mut out: Vec<u8> = Vec::new();
        match self {
            ResponseData::ParameterData(Some(d)) => d.write_to(&mut out),
            ResponseData::ParameterData(None) => {},
            ResponseData::EstimateResponseTime(t) => t.write_wire(&mut out),
            ResponseData::EstimateResponseTimeHiRes(t) => t.write_wire(&mut out),
            ResponseData::NackReason(r) => r.write_wire(&mut out),
        }
        proof {
            assert(out@ =~= self.spec_encode());
        }
        out
    }

    /// The data that `bytes` stand for in a frame of the given response type, command class,
    /// parameter data length and parameter identifier, or why they stand for none.
    pub open spec fn spec_decode(
        response_type: ResponseType,
        command_class: CommandClass,
        parameter_data_length: u8,
        parameter_id: ParameterId,
        bytes: Seq<u8>,
    ) -> Result<Self, RdmError> {
        match response_type {
            ResponseType::Ack | ResponseType::AckOverflow => if parameter_data_length > 0 {
                match ResponseParameterData::spec_decode(command_class, parameter_id, bytes) {
                    Ok(d) => Ok(ResponseData::ParameterData(Some(d))),
                    Err(e) => Err(e),
                }
            } else {
                Ok(ResponseData::ParameterData(None))
            },
            ResponseType::AckTimer => if bytes.len() < 2 {
                Err(RdmError::InvalidMessageLength(bytes.len() as u8))
            } else {
                Ok(ResponseData::EstimateResponseTime(from_be16(bytes[0], bytes[1])))
            },
            ResponseType::AckTimerHiRes => if bytes.len() < 2 {
                Err(RdmError::InvalidMessageLength(bytes.len() as u8))
            } else {
                Ok(ResponseData::EstimateResponseTimeHiRes(from_be16(bytes[0], bytes[1])))
            },
            ResponseType::NackReason => if bytes.len() < 2 {
                Err(RdmError::InvalidMessageLength(bytes.len() as u8))
            } else {
                match ResponseNackReasonCode::spec_try_from_u16(from_be16(bytes[0], bytes[1])) {
                    Ok(r) => Ok(ResponseData::NackReason(r)),
                    Err(e) => Err(e),
                }
            },
        }
    }

    pub fn decode(
        response_type: ResponseType,
        command_class: CommandClass,
        parameter_data_length: u8,
        parameter_id: ParameterId,
        bytes: &'a [u8],
    ) -> (r: Result<Self, RdmError>)
        ensures
            r == Self::spec_decode(response_type, command_class, parameter_data_length, parameter_id, bytes@),
    {
        match response_type {
            ResponseType::Ack | ResponseType::AckOverflow => {
                if parameter_data_length > 0 {
                    match ResponseParameterData::decode(command_class, parameter_id, bytes) {
                        Ok(d) => Ok(ResponseData::ParameterData(Some(d))),
                        Err(e) => Err(e),
                    }
                } else {
                    Ok(ResponseData::ParameterData(None))
                }
            },
            ResponseType::AckTimer => {
                if bytes.len() < 2 {
                    return Err(RdmError::InvalidMessageLength(bytes.len() as u8));
                }
                Ok(ResponseData::EstimateResponseTime(read_u16(bytes, 0)))
            },
            ResponseType::AckTimerHiRes => {
                if bytes.len() < 2 {
                    return Err(RdmError::InvalidMessageLength(bytes.len() as u8));
                }
                Ok(ResponseData::EstimateResponseTimeHiRes(read_u16(bytes, 0)))
            },
            ResponseType::NackReason => {
                if bytes.len() < 2 {
                    return Err(RdmError::InvalidMessageLength(bytes.len() as u8));
                }
                match ResponseNackReasonCode::try_from_u16(read_u16(bytes, 0)) {
                    Ok(r) => Ok(ResponseData::NackReason(r)),
                    Err(e) => Err(e),
                }
            },
        }
    }

    /// Whether the data is what a frame of the given response type, command class and identifier decodes to.
    pub open spec fn spec_fits(self, response_type: ResponseType, command_class: CommandClass, parameter_id: ParameterId) -> bool {
        match self {
            ResponseData::ParameterData(Some(d)) => (response_type == ResponseType::Ack || response_type == ResponseType::AckOverflow)
                && d.spec_fits(command_class, parameter_id) && d.spec_encoding().len() > 0,
            ResponseData::ParameterData(None) => response_type == ResponseType::Ack || response_type == ResponseType::AckOverflow,
            ResponseData::EstimateResponseTime(_) => response_type == ResponseType::AckTimer,
            ResponseData::EstimateResponseTimeHiRes(_) => response_type == ResponseType::AckTimerHiRes,
            ResponseData::NackReason(r) => response_type == ResponseType::NackReason && r.spec_wire_valid(),
        }
    }
}

/// An RDM response frame.
#[derive(Clone, Copy, Debug, PartialEq)]
pub struct RdmFrameResponse<'a> {
    pub destination_uid: DeviceUID,
    pub source_uid: DeviceUID,
    pub transaction_number: u8,
    pub response_type: ResponseType,
    pub message_count: u8,
    pub sub_device_id: SubDeviceId,
    pub command_class: CommandClass,
    pub parameter_id: ParameterId,
    pub parameter_data: ResponseData<'a>,
}

impl<'a> RdmFrameResponse<'a> {
    /// The bytes of the frame.
    pub open spec fn spec_encode(self) -> Seq<u8> {
        let pd = self.parameter_data.spec_encode();
        spec_with_checksum(
            seq![RDM_START_CODE_BYTE, RDM_SUB_START_CODE_BYTE, (24 + pd.len()) as u8]
                + self.destination_uid.spec_wire() + self.source_uid.spec_wire()
                + seq![self.transaction_number] + self.response_type.spec_wire() + seq![self.message_count]
                + self.sub_device_id.spec_wire() + self.command_class.spec_wire() + self.parameter_id.spec_wire()
                + seq![pd.len() as u8] + pd,
        )
    }

    pub fn encode(&self) -> (r: Vec<u8>)
        ensures
            r@ == self.spec_encode(),
    {
        let pd = self.parameter_data.encode();
        let mut out: Vec<u8> = Vec::new();
        out.push(RDM_START_CODE_BYTE);
        out.push(RDM_SUB_START_CODE_BYTE);
        let l = pd.len();
        out.push((24 + l % 0x100) as u8);
        self.destination_uid.write_wire(&mut out);
        self.source_uid.write_wire(&mut out);
        out.push(self.transaction_number);
        self.response_type.write_wire(&mut out);
        out.push(self.message_count);
        self.sub_device_id.write_wire(&mut out);
        self.command_class.write_wire(&mut out);
        self.parameter_id.write_wire(&mut out);
        out.push((l % 0x100) as u8);
        let ghost header = out@;
        extend_from(&mut out, pd.as_slice());
        let ghost body = out@;
        let crc = bsd_16_crc(out.as_slice());
        crc.write_wire(&mut out);
        proof {
            let p = self.parameter_data.spec_encode();
            assert(((24 + l % 0x100) as u8) == ((24 + l) as u8)) by (bit_vector);
            assert(((l % 0x100) as u8) == (l as u8)) by (bit_vector);
            assert(p.len() == l);
            assert(header =~= seq![RDM_START_CODE_BYTE, RDM_SUB_START_CODE_BYTE, (24 + p.len()) as u8]
                + self.destination_uid.spec_wire() + self.source_uid.spec_wire()
                + seq![self.transaction_number] + self.response_type.spec_wire() + seq![self.message_count]
                + self.sub_device_id.spec_wire() + self.command_class.spec_wire() + self.parameter_id.spec_wire()
                + seq![p.len() as u8]);
            assert(body =~= header + p);
            assert(out@ =~= body + be16(crc));
            assert(out@ =~= self.spec_encode());
        }
        out
    }
}

/// Whether the checks of a response frame, up to its parameter data length, pass.
pub open spec fn spec_response_header_ok(bytes: Seq<u8>) -> bool {
    let ml = bytes[2] as int;
    &&& ml >= 24
    &&& bytes.len() >= ml + 2
    &&& (checksum_spec(bytes.subrange(0, ml)) as u16) == from_be16(bytes[ml], bytes[ml + 1])
    &&& ResponseType::spec_try_from_u8(bytes[16]) is Ok
    &&& CommandClass::spec_try_from_u8(bytes[20]) is Ok
    &&& bytes[23] <= 231
}

/// The response frame that `bytes` stand for, or why they stand for none.
pub open spec fn spec_decode_frame_response<'a>(bytes: Seq<u8>) -> Result<RdmFrameResponse<'a>, RdmError> {
    let ml = bytes[2] as int;
    if ml < 24 || bytes.len() < ml + 2 {
        Err(RdmError::InvalidMessageLength(bytes[2]))
    } else if (checksum_spec(bytes.subrange(0, ml)) as u16) != from_be16(bytes[ml], bytes[ml + 1]) {
        Err(RdmError::InvalidChecksum(checksum_spec(bytes.subrange(0, ml)) as u16, from_be16(bytes[ml], bytes[ml + 1])))
    } else {
        match ResponseType::spec_try_from_u8(bytes[16]) {
            Err(e) => Err(e),
            Ok(response_type) => match CommandClass::spec_try_from_u8(bytes[20]) {
                Err(e) => Err(e),
                Ok(command_class) => {
                    let pdl = bytes[23];
                    if pdl > 231 {
                        Err(RdmError::InvalidParameterDataLength(pdl))
                    } else {
                        let parameter_id = ParameterId::spec_read(bytes.subrange(21, 23)).unwrap();
                        match ResponseData::spec_decode(response_type, command_class, pdl, parameter_id, bytes.subrange(24, 24 + pdl)) {
                            Err(e) => Err(e),
                            Ok(parameter_data) => Ok(RdmFrameResponse {
                                destination_uid: DeviceUID::spec_read(bytes.subrange(3, 9)).unwrap(),
                                source_uid: DeviceUID::spec_read(bytes.subrange(9, 15)).unwrap(),
                                transaction_number: bytes[15],
                                response_type,
                                message_count: bytes[17],
                                sub_device_id: SubDeviceId::spec_read(bytes.subrange(18, 20)).unwrap(),
                                command_class,
                                parameter_id,
                                parameter_data,
                            }),
                        }
                    }
                },
            },
        }
    }
}

impl<'a> RdmFrameResponse<'a> {
    /// Reads a response frame; its start codes are not checked here.
    pub fn decode(bytes: &'a [u8]) -> (r: Result<Self, RdmError>)
        requires
            bytes@.len() >= 3,
            spec_response_header_ok(bytes@) ==> 24 + bytes@[23] <= bytes@.len(),
        ensures
            r == spec_decode_frame_response::<'a>(bytes@),
    {
        let message_length = bytes[2] as usize;
        if message_length < 24 {
            return Err(RdmError::InvalidMessageLength(bytes[2]));
        }
        if bytes.len() < message_length + 2 {
            return Err(RdmError::InvalidMessageLength(bytes[2]));
        }
        let packet_checksum = read_u16(bytes, message_length);
        let decoded_checksum = bsd_16_crc(vstd::slice::slice_subrange(bytes, 0, message_length));
        if decoded_checksum != packet_checksum {
            return Err(RdmError::InvalidChecksum(decoded_checksum, packet_checksum));
        }
        let destination_uid = match DeviceUID::read_wire(bytes, 3) {
            Some(u) => u,
            None => return Err(RdmError::MalformedPacket),
        };
        let source_uid = match DeviceUID::read_wire(bytes, 9) {
            Some(u) => u,
            None => return Err(RdmError::MalformedPacket),
        };
        let transaction_number = bytes[15];
        let response_type = match ResponseType::try_from_u8(bytes[16]) {
            Ok(t) => t,
            Err(e) => return Err(e),
        };
        let message_count = bytes[17];
        let sub_device_id = match SubDeviceId::read_wire(bytes, 18) {
            Some(s) => s,
            None => return Err(RdmError::MalformedPacket),
        };
        let command_class = match CommandClass::try_from_u8(bytes[20]) {
            Ok(c) => c,
            Err(e) => return Err(e),
        };
        let parameter_id = match ParameterId::read_wire(bytes, 21) {
            Some(p) => p,
            None => return Err(RdmError::MalformedPacket),
        };
        let parameter_data_length = bytes[23];
        if parameter_data_length > 231 {
            return Err(RdmError::InvalidParameterDataLength(parameter_data_length));
        }
        let data = vstd::slice::slice_subrange(bytes, 24, 24 + parameter_data_length as usize);
        match ResponseData::decode(response_type, command_class, parameter_data_length, parameter_id, data) {
            Ok(parameter_data) => Ok(RdmFrameResponse {
                destination_uid,
                source_uid,
                transaction_number,
                response_type,
                message_count,
                sub_device_id,
                command_class,
                parameter_id,
                parameter_data,
            }),
            Err(e) => Err(e),
        }
    }
}

/// Decoding the parameter data of response data, under the response type, command class and
/// identifier that it fits, gives it back.
#[verifier::spinoff_prover]
#[verifier::rlimit(100)]
pub proof fn lemma_response_data_roundtrip<'a>(
    data: ResponseData<'a>,
    response_type: ResponseType,
    command_class: CommandClass,
    parameter_id: ParameterId,
)
    requires
        data.spec_fits(response_type, command_class, parameter_id),
        data.spec_encode().len() <= 231,
    ensures
        ResponseData::spec_decode(response_type, command_class, data.spec_encode().len() as u8, parameter_id, data.spec_encode())
            == Ok::<ResponseData<'a>, RdmError>(data),
{
    match data {
        ResponseData::ParameterData(Some(d)) => {
            d.lemma_roundtrip(command_class, parameter_id);
        },
        ResponseData::NackReason(r) => {
            r.lemma_wire();
            r.lemma_encode_decode();
        },
        ResponseData::EstimateResponseTime(t) => {
            t.lemma_wire();
        },
        ResponseData::EstimateResponseTimeHiRes(t) => {
            t.lemma_wire();
        },
        _ => {},
    }
}

/// Decoding the frame of a response gives the response back, when its data fits its response type,
/// command class and identifier, its identifiers encode to the values they decode from, and its
/// data fits in a frame.
#[verifier::spinoff_prover]
#[verifier::rlimit(100)]
pub proof fn lemma_frame_response_roundtrip<'a>(response: RdmFrameResponse<'a>)
    requires
        response.parameter_data.spec_fits(response.response_type, response.command_class, response.parameter_id),
        response.parameter_id.spec_wire_valid(),
        response.sub_device_id.spec_wire_valid(),
        response.parameter_data.spec_encode().len() <= 231,
    ensures
        spec_decode_frame_response::<'a>(response.spec_encode()) == Ok::<RdmFrameResponse<'a>, RdmError>(response),
{
    let pd = response.parameter_data.spec_encode();
    let e = response.spec_encode();
    let ml = 24 + pd.len();
    response.destination_uid.lemma_wire();
    response.source_uid.lemma_wire();
    response.sub_device_id.lemma_wire();
    response.command_class.lemma_wire();
    response.parameter_id.lemma_wire();
    response.response_type.lemma_wire();
    response.command_class.lemma_encode_decode();
    response.response_type.lemma_encode_decode();
    assert(e.subrange(24, 24 + pd.len() as int) =~= pd);
    assert(e.subrange(3, 9) =~= response.destination_uid.spec_wire());
    assert(e.subrange(9, 15) =~= response.source_uid.spec_wire());
    assert(e.subrange(18, 20) =~= response.sub_device_id.spec_wire());
    assert(e.subrange(21, 23) =~= response.parameter_id.spec_wire());
    assert(e.subrange(16, 17) =~= response.response_type.spec_wire());
    assert(e.subrange(20, 21) =~= response.command_class.spec_wire());
    assert(e[2] == ml as u8);
    assert(e[23] == pd.len() as u8);
    let body = seq![RDM_START_CODE_BYTE, RDM_SUB_START_CODE_BYTE, (24 + pd.len()) as u8]
        + response.destination_uid.spec_wire() + response.source_uid.spec_wire()
        + seq![response.transaction_number] + response.response_type.spec_wire() + seq![response.message_count]
        + response.sub_device_id.spec_wire() + response.command_class.spec_wire() + response.parameter_id.spec_wire()
        + seq![pd.len() as u8] + pd;
    assert(body.len() == ml);
    assert(e == body + be16(checksum_spec(body) as u16));
    assert(e.subrange(0, ml as int) =~= body);
    assert(e[ml as int] == be16(checksum_spec(body) as u16)[0]);
    assert(e[ml as int + 1] == be16(checksum_spec(body) as u16)[1]);
    lemma_response_data_roundtrip(response.parameter_data, response.response_type, response.command_class, response.parameter_id);
}

/// The two bytes that carry a byte in a discovery response: it with every other bit set, one way and the other.
pub open spec fn spec_spread(b: u8) -> Seq<u8> {
    seq![b | 0xaa, b | 0x55]
}

/// The bytes of a discovery response for `bytes`: each byte spread over two.
pub open spec fn spec_spread_all(bytes: Seq<u8>) -> Seq<u8>
    decreases bytes.len(),
{
    if bytes.len() == 0 {
        Seq::empty()
    } else {
        spec_spread_all(bytes.drop_last()) + spec_spread(bytes.last())
    }
}

/// The frame of a discovery unique branch response: seven preamble bytes, the separator,
/// the spread identifier and the spread checksum of the spread identifier.
pub open spec fn spec_discovery_frame(uid: DeviceUID) -> Seq<u8> {
    let euid = spec_spread_all(uid.spec_wire());
    seq![0xfeu8, 0xfeu8, 0xfeu8, 0xfeu8, 0xfeu8, 0xfeu8, 0xfeu8, 0xaau8] + euid
        + spec_spread_all(be16(checksum_spec(euid) as u16))
}

/// Whether `i` is the index of the first separator byte.
pub open spec fn is_first_separator(bytes: Seq<u8>, i: int) -> bool {
    &&& 0 <= i < bytes.len()
    &&& bytes[i] == DISCOVERY_UNIQUE_BRANCH_PREAMBLE_SEPARATOR_BYTE
    &&& forall|j: int| 0 <= j < i ==> #[trigger] bytes[j] != DISCOVERY_UNIQUE_BRANCH_PREAMBLE_SEPARATOR_BYTE
}

/// The index of the first separator byte, if any.
pub open spec fn spec_separator_index(bytes: Seq<u8>) -> Option<int> {
    if exists|i: int| 0 <= i < bytes.len() && bytes[i] == DISCOVERY_UNIQUE_BRANCH_PREAMBLE_SEPARATOR_BYTE {
        Some(choose|i: int| is_first_separator(bytes, i))
    } else {
        None
    }
}

/// The byte that two spread bytes carry.
pub open spec fn spec_join(a: u8, b: u8) -> u8 {
    a & b
}

/// A discovery unique branch response: the identifier of a responding device.
#[derive(Clone, Copy, Debug, PartialEq, Eq)]
pub struct DiscoveryUniqueBranchFrameResponse(pub DeviceUID);

/// The discovery response that `bytes` stand for, or why they stand for none.
pub open spec fn spec_decode_discovery(bytes: Seq<u8>) -> Result<DiscoveryUniqueBranchFrameResponse, RdmError> {
    match spec_separator_index(bytes) {
        None => Err(RdmError::InvalidDiscoveryUniqueBranchPreamble),
        Some(s) => {
            let euid = bytes.subrange(s + 1, s + 13);
            let ecs = bytes.subrange(s + 13, s + 17);
            let decoded = checksum_spec(euid) as u16;
            let checksum = from_be16(spec_join(ecs[0], ecs[1]), spec_join(ecs[2], ecs[3]));
            if checksum != decoded {
                Err(RdmError::InvalidChecksum(decoded, checksum))
            } else {
                Ok(DiscoveryUniqueBranchFrameResponse(DeviceUID {
                    manufacturer_id: from_be16(spec_join(euid[0], euid[1]), spec_join(euid[2], euid[3])),
                    device_id: from_be32(
                        spec_join(euid[4], euid[5]),
                        spec_join(euid[6], euid[7]),
                        spec_join(euid[8], euid[9]),
                        spec_join(euid[10], euid[11]),
                    ),
                }))
            }
        },
    }
}

fn push_spread(out: &mut Vec<u8>, b: u8)
    ensures
        final(out)@ == old(out)@ + spec_spread(b),
{
    out.push(b | 0xaa);
    out.push(b | 0x55);
    assert(final(out)@ =~= old(out)@ + spec_spread(b));
}

fn push_spread_all(out: &mut Vec<u8>, bytes: &[u8])
    ensures
        final(out)@ == old(out)@ + spec_spread_all(bytes@),
{
    let mut i: usize = 0;
    while i < bytes.len()
        invariant
            i <= bytes@.len(),
            out@ == old(out)@ + spec_spread_all(bytes@.subrange(0, i as int)),
        decreases bytes@.len() - i,
    {
        push_spread(out, bytes[i]);
        proof {
            let s = bytes@.subrange(0, i + 1);
            assert(s.drop_last() =~= bytes@.subrange(0, i as int));
        }
        i = i + 1;
        assert(out@ =~= old(out)@ + spec_spread_all(bytes@.subrange(0, i as int)));
    }
    assert(bytes@.subrange(0, bytes@.len() as int) =~= bytes@);
}

fn separator_index(bytes: &[u8]) -> (r: Option<usize>)
    ensures
        r matches Some(s) ==> spec_separator_index(bytes@) == Some(s as int),
        r is None ==> spec_separator_index(bytes@) is None,
{
    let mut i: usize = 0;
    while i < bytes.len()
        invariant
            i <= bytes@.len(),
            forall|j: int| 0 <= j < i ==> bytes@[j] != DISCOVERY_UNIQUE_BRANCH_PREAMBLE_SEPARATOR_BYTE,
        decreases bytes@.len() - i,
    {
        if bytes[i] == DISCOVERY_UNIQUE_BRANCH_PREAMBLE_SEPARATOR_BYTE {
            proof {
                assert(is_first_separator(bytes@, i as int));
                let c = choose|k: int| is_first_separator(bytes@, k);
                assert(is_first_separator(bytes@, c));
                if c > i {
                    assert(bytes@[i as int] != DISCOVERY_UNIQUE_BRANCH_PREAMBLE_SEPARATOR_BYTE);
                }
            }
            return Some(i);
        }
        i = i + 1;
    }
    None
}

impl DiscoveryUniqueBranchFrameResponse {
    pub open spec fn spec_encode(self) -> Seq<u8> {
        spec_discovery_frame(self.0)
    }

    pub fn encode(&self) -> (r: Vec<u8>)
        ensures
            r@ == self.spec_encode(),
    {
        let mut out: Vec<u8> = Vec::new();
        let mut i: usize = 0;
        while i < 7
            invariant
                i <= 7,
                out@.len() == i,
                forall|j: int| 0 <= j < i ==> out@[j] == DISCOVERY_UNIQUE_BRANCH_PREAMBLE_BYTE,
            decreases 7 - i,
        {
            out.push(DISCOVERY_UNIQUE_BRANCH_PREAMBLE_BYTE);
            i = i + 1;
        }
        out.push(DISCOVERY_UNIQUE_BRANCH_PREAMBLE_SEPARATOR_BYTE);
        let ghost preamble = out@;
        let mut uid: Vec<u8> = Vec::new();
        self.0.write_wire(&mut uid);
        let mut euid: Vec<u8> = Vec::new();
        push_spread_all(&mut euid, uid.as_slice());
        extend_from(&mut out, euid.as_slice());
        let crc = bsd_16_crc(euid.as_slice());
        let mut c: Vec<u8> = Vec::new();
        crc.write_wire(&mut c);
        push_spread_all(&mut out, c.as_slice());
        proof {
            assert(preamble =~= seq![0xfeu8, 0xfeu8, 0xfeu8, 0xfeu8, 0xfeu8, 0xfeu8, 0xfeu8, 0xaau8]);
            assert(uid@ =~= self.0.spec_wire());
            assert(c@ =~= be16(crc));
            assert(out@ =~= self.spec_encode());
        }
        out
    }

    /// Reads a discovery response: the bytes from the first separator on.
    pub fn decode(bytes: &[u8]) -> (r: Result<Self, RdmError>)
        requires
            spec_separator_index(bytes@) matches Some(s) ==> s + 17 <= bytes@.len(),
        ensures
            r == spec_decode_discovery(bytes@),
    {
        let _len = bytes.len();
        let s = match separator_index(bytes) {
            Some(s) => s,
            None => return Err(RdmError::InvalidDiscoveryUniqueBranchPreamble),
        };
        let euid = vstd::slice::slice_subrange(bytes, s + 1, s + 13);
        let ecs = vstd::slice::slice_subrange(bytes, s + 13, s + 17);
        let decoded_checksum = bsd_16_crc(euid);
        let checksum = (ecs[0] & ecs[1]) as u16 * 0x100 + (ecs[2] & ecs[3]) as u16;
        if checksum != decoded_checksum {
            return Err(RdmError::InvalidChecksum(decoded_checksum, checksum));
        }
        let manufacturer_id = (euid[0] & euid[1]) as u16 * 0x100 + (euid[2] & euid[3]) as u16;
        let device_id = (euid[4] & euid[5]) as u32 * 0x100_0000 + (euid[6] & euid[7]) as u32 * 0x1_0000
            + (euid[8] & euid[9]) as u32 * 0x100 + (euid[10] & euid[11]) as u32;
        Ok(DiscoveryUniqueBranchFrameResponse(DeviceUID::new(manufacturer_id, device_id)))
    }
}

/// Spreading a byte over two and joining them gives it back.
pub proof fn lemma_spread_join(b: u8)
    ensures
        spec_join(spec_spread(b)[0], spec_spread(b)[1]) == b,
{
    assert((b | 0xaa) & (b | 0x55) == b) by (bit_vector);
}

proof fn lemma_spread_all_index(bytes: Seq<u8>, i: int)
    requires
        0 <= i < bytes.len(),
    ensures
        spec_spread_all(bytes).len() == 2 * bytes.len(),
        spec_spread_all(bytes)[2 * i] == spec_spread(bytes[i])[0],
        spec_spread_all(bytes)[2 * i + 1] == spec_spread(bytes[i])[1],
    decreases bytes.len(),
{
    lemma_spread_all_len(bytes.drop_last());
    if i < bytes.len() - 1 {
        lemma_spread_all_index(bytes.drop_last(), i);
    }
}

proof fn lemma_spread_all_len(bytes: Seq<u8>)
    ensures
        spec_spread_all(bytes).len() == 2 * bytes.len(),
    decreases bytes.len(),
{
    if bytes.len() > 0 {
        lemma_spread_all_len(bytes.drop_last());
    }
}

/// Decoding the discovery response of a device gives its identifier back.
#[verifier::spinoff_prover]
#[verifier::rlimit(100)]
pub proof fn lemma_discovery_roundtrip(response: DiscoveryUniqueBranchFrameResponse)
    ensures
        spec_decode_discovery(response.spec_encode()) == Ok::<DiscoveryUniqueBranchFrameResponse, RdmError>(response),
{
    let w = response.0.spec_wire();
    response.0.lemma_wire();
    let euid = spec_spread_all(w);
    let cs = be16(checksum_spec(euid) as u16);
    let e = response.spec_encode();
    lemma_spread_all_len(w);
    lemma_spread_all_len(cs);
    assert(e.len() == 24);
    assert(e[7] == 0xaau8);
    assert forall|j: int| 0 <= j < 7 implies e[j] != DISCOVERY_UNIQUE_BRANCH_PREAMBLE_SEPARATOR_BYTE by {
        assert(e[j] == 0xfeu8);
    }
    assert(is_first_separator(e, 7));
    let c = choose|k: int| is_first_separator(e, k);
    assert(is_first_separator(e, c));
    if c < 7 {
        assert(e[c] == 0xfeu8);
    } else if c > 7 {
        assert(e[7] != DISCOVERY_UNIQUE_BRANCH_PREAMBLE_SEPARATOR_BYTE);
    }
    assert(spec_separator_index(e) == Some(7int));
    assert(e.subrange(8, 20) =~= euid);
    assert(e.subrange(20, 24) =~= spec_spread_all(cs));
    assert forall|k: int| 0 <= k < 6 implies spec_join(euid[2 * k], euid[2 * k + 1]) == w[k] by {
        lemma_spread_all_index(w, k);
        lemma_spread_join(w[k]);
    }
    assert forall|k: int| 0 <= k < 2 implies spec_join(spec_spread_all(cs)[2 * k], spec_spread_all(cs)[2 * k + 1]) == cs[k] by {
        lemma_spread_all_index(cs, k);
        lemma_spread_join(cs[k]);
    }
    assert(spec_join(euid[0], euid[1]) == w[0]);
    assert(spec_join(euid[2], euid[3]) == w[1]);
    assert(spec_join(euid[4], euid[5]) == w[2]);
    assert(spec_join(euid[6], euid[7]) == w[3]);
    assert(spec_join(euid[8], euid[9]) == w[4]);
    assert(spec_join(euid[10], euid[11]) == w[5]);
    assert(spec_join(spec_spread_all(cs)[0], spec_spread_all(cs)[1]) == cs[0]);
    assert(spec_join(spec_spread_all(cs)[2], spec_spread_all(cs)[3]) == cs[1]);
}

/// Decoding the discovery response of a device with any number of its leading preamble bytes
/// left off, down to none of them, gives its identifier back.
#[verifier::spinoff_prover]
#[verifier::rlimit(100)]
pub proof fn lemma_discovery_roundtrip_without_preamble(response: DiscoveryUniqueBranchFrameResponse, dropped: int)
    requires
        0 <= dropped <= 7,
    ensures
        spec_decode_discovery(response.spec_encode().subrange(dropped, 24)) == Ok::<DiscoveryUniqueBranchFrameResponse, RdmError>(response),
{
    let w = response.0.spec_wire();
    response.0.lemma_wire();
    let euid = spec_spread_all(w);
    let cs = be16(checksum_spec(euid) as u16);
    let full = response.spec_encode();
    lemma_spread_all_len(w);
    lemma_spread_all_len(cs);
    assert(full.len() == 24);
    assert(full[7] == 0xaau8);
    assert(full.subrange(8, 20) =~= euid);
    assert(full.subrange(20, 24) =~= spec_spread_all(cs));
    let e = full.subrange(dropped, 24);
    let sep = 7 - dropped;
    assert(e[sep] == 0xaau8);
    assert forall|j: int| 0 <= j < sep implies e[j] != DISCOVERY_UNIQUE_BRANCH_PREAMBLE_SEPARATOR_BYTE by {
        assert(e[j] == full[j + dropped]);
        assert(full[j + dropped] == 0xfeu8);
    }
    assert(is_first_separator(e, sep));
    let c = choose|k: int| is_first_separator(e, k);
    assert(is_first_separator(e, c));
    if c < sep {
        assert(e[c] == full[c + dropped]);
        assert(full[c + dropped] == 0xfeu8);
    } else if c > sep {
        assert(e[sep] != DISCOVERY_UNIQUE_BRANCH_PREAMBLE_SEPARATOR_BYTE);
    }
    assert(spec_separator_index(e) == Some(sep));
    assert(e.subrange(sep + 1, sep + 13) =~= euid);
    assert(e.subrange(sep + 13, sep + 17) =~= spec_spread_all(cs));
    assert forall|k: int| 0 <= k < 6 implies spec_join(euid[2 * k], euid[2 * k + 1]) == w[k] by {
        lemma_spread_all_index(w, k);
        lemma_spread_join(w[k]);
    }
    assert forall|k: int| 0 <= k < 2 implies spec_join(spec_spread_all(cs)[2 * k], spec_spread_all(cs)[2 * k + 1]) == cs[k] by {
        lemma_spread_all_index(cs, k);
        lemma_spread_join(cs[k]);
    }
    assert(spec_join(euid[0], euid[1]) == w[0]);
    assert(spec_join(euid[2], euid[3]) == w[1]);
    assert(spec_join(euid[4], euid[5]) == w[2]);
    assert(spec_join(euid[6], euid[7]) == w[3]);
    assert(spec_join(euid[8], euid[9]) == w[4]);
    assert(spec_join(euid[10], euid[11]) == w[5]);
    assert(spec_join(spec_spread_all(cs)[0], spec_spread_all(cs)[1]) == cs[0]);
    assert(spec_join(spec_spread_all(cs)[2], spec_spread_all(cs)[3]) == cs[1]);
}

/// An RDM response: a response frame, or the answer to a discovery unique branch request.
#[derive(Clone, Copy, Debug, PartialEq)]
pub enum RdmResponse<'a> {
    RdmFrame(RdmFrameResponse<'a>),
    DiscoveryUniqueBranchFrame(DiscoveryUniqueBranchFrameResponse),
}

/// The response that `bytes` stand for, or why they stand for none.
pub open spec fn spec_decode_response<'a>(bytes: Seq<u8>) -> Result<RdmResponse<'a>, RdmError> {
    if bytes[0] == RDM_START_CODE_BYTE && bytes[1] == RDM_SUB_START_CODE_BYTE {
        if bytes.len() < 25 {
            Err(RdmError::InvalidFrameLength(bytes.len() as u8))
        } else {
            match spec_decode_frame_response::<'a>(bytes) {
                Ok(f) => Ok(RdmResponse::RdmFrame(f)),
                Err(e) => Err(e),
            }
        }
    } else if bytes[0] == DISCOVERY_UNIQUE_BRANCH_PREAMBLE_BYTE || bytes[0] == DISCOVERY_UNIQUE_BRANCH_PREAMBLE_SEPARATOR_BYTE {
        if bytes.len() < 17 {
            Err(RdmError::InvalidFrameLength(bytes.len() as u8))
        } else {
            match spec_decode_discovery(bytes) {
                Ok(d) => Ok(RdmResponse::DiscoveryUniqueBranchFrame(d)),
                Err(e) => Err(e),
            }
        }
    } else {
        Err(RdmError::InvalidStartCode)
    }
}

/// Whether decoding `bytes` as a response reads past their end.
pub open spec fn spec_response_decode_overruns(bytes: Seq<u8>) -> bool {
    ||| bytes.len() == 0
    ||| (bytes[0] == RDM_START_CODE_BYTE && bytes.len() < 2)
    ||| (bytes[0] == RDM_START_CODE_BYTE && bytes[1] == RDM_SUB_START_CODE_BYTE && bytes.len() >= 25
        && spec_response_header_ok(bytes) && 24 + bytes[23] > bytes.len())
    ||| (!(bytes[0] == RDM_START_CODE_BYTE && bytes[1] == RDM_SUB_START_CODE_BYTE)
        && (bytes[0] == DISCOVERY_UNIQUE_BRANCH_PREAMBLE_BYTE || bytes[0] == DISCOVERY_UNIQUE_BRANCH_PREAMBLE_SEPARATOR_BYTE)
        && bytes.len() >= 17 && (spec_separator_index(bytes) matches Some(s) && s + 17 > bytes.len()))
}

impl<'a> RdmResponse<'a> {
    pub open spec fn spec_encode(self) -> Seq<u8> {
        match self {
            RdmResponse::RdmFrame(f) => f.spec_encode(),
            RdmResponse::DiscoveryUniqueBranchFrame(d) => d.spec_encode(),
        }
    }

    pub fn encode(&self) -> (r: Vec<u8>)
        ensures
            r@ == self.spec_encode(),
    {
        match self {
            RdmResponse::RdmFrame(f) => f.encode(),
            RdmResponse::DiscoveryUniqueBranchFrame(d) => d.encode(),
        }
    }

    /// Reads a response: a frame after its start codes, or a discovery response after its preamble.
    pub fn decode(bytes: &'a [u8]) -> (r: Result<Self, RdmError>)
        requires
            !spec_response_decode_overruns(bytes@),
        ensures
            r == spec_decode_response::<'a>(bytes@),
    {
        if bytes[0] == RDM_START_CODE_BYTE && bytes[1] == RDM_SUB_START_CODE_BYTE {
            if bytes.len() < 25 {
                return Err(RdmError::InvalidFrameLength(bytes.len() as u8));
            }
            return match RdmFrameResponse::decode(bytes) {
                Ok(f) => Ok(RdmResponse::RdmFrame(f)),
                Err(e) => Err(e),
            };
        }
        if bytes[0] == DISCOVERY_UNIQUE_BRANCH_PREAMBLE_BYTE || bytes[0] == DISCOVERY_UNIQUE_BRANCH_PREAMBLE_SEPARATOR_BYTE {
            if bytes.len() < 17 {
                return Err(RdmError::InvalidFrameLength(bytes.len() as u8));
            }
            return match DiscoveryUniqueBranchFrameResponse::decode(bytes) {
                Ok(d) => Ok(RdmResponse::DiscoveryUniqueBranchFrame(d)),
                Err(e) => Err(e),
            };
        }
        Err(RdmError::InvalidStartCode)
    }
}

/// A response frame starts with the start codes and has at least 26 bytes.
pub proof fn lemma_frame_response_encode_shape<'a>(f: RdmFrameResponse<'a>)
    ensures
        f.spec_encode().len() >= 26,
        f.spec_encode()[0] == RDM_START_CODE_BYTE,
        f.spec_encode()[1] == RDM_SUB_START_CODE_BYTE,
{
    f.destination_uid.lemma_wire();
    f.source_uid.lemma_wire();
    f.sub_device_id.lemma_wire();
    f.command_class.lemma_wire();
    f.parameter_id.lemma_wire();
    f.response_type.lemma_wire();
}

/// Decoding the bytes of a response gives it back, under the conditions of the frame law.
#[verifier::spinoff_prover]
#[verifier::rlimit(100)]
pub proof fn lemma_response_roundtrip<'a>(response: RdmResponse<'a>)
    requires
        response matches RdmResponse::RdmFrame(f) ==> {
            &&& f.parameter_data.spec_fits(f.response_type, f.command_class, f.parameter_id)
            &&& f.parameter_id.spec_wire_valid()
            &&& f.sub_device_id.spec_wire_valid()
            &&& f.parameter_data.spec_encode().len() <= 231
        },
    ensures
        spec_decode_response::<'a>(response.spec_encode()) == Ok::<RdmResponse<'a>, RdmError>(response),
{
    match response {
        RdmResponse::RdmFrame(f) => {
            lemma_frame_response_encode_shape(f);
            lemma_frame_response_roundtrip(f);
        },
        RdmResponse::DiscoveryUniqueBranchFrame(d) => {
            lemma_discovery_roundtrip(d);
            let e = d.spec_encode();
            assert(e[0] == DISCOVERY_UNIQUE_BRANCH_PREAMBLE_BYTE);
            assert(e[1] != RDM_SUB_START_CODE_BYTE || e[0] != RDM_START_CODE_BYTE);
            lemma_spread_all_len(d.0.spec_wire());
            assert(e.len() >= 17) by {
                d.0.lemma_wire();
                lemma_spread_all_len(be16(checksum_spec(spec_spread_all(d.0.spec_wire())) as u16));
            }
        },
    }
}

impl<'a> ResponseParameterData<'a> {
    /// The command class and parameter identifier that each response parameter answers: the
    /// response to a GET, SET or discovery command for that parameter's identifier.
    pub proof fn lemma_class_and_identifier_table()
        ensures
            forall|p: DiscMuteResponse| #![auto] ResponseParameterData::DiscMute(p).spec_command_class() == CommandClass::DiscoveryCommandResponse && ResponseParameterData::DiscMute(p).spec_parameter_id() == ParameterId::DiscMute,
            forall|p: DiscUnMuteResponse| #![auto] ResponseParameterData::DiscUnMute(p).spec_command_class() == CommandClass::DiscoveryCommandResponse && ResponseParameterData::DiscUnMute(p).spec_parameter_id() == ParameterId::DiscUnMute,
            forall|p: GetProxiedDevicesResponse| #![auto] ResponseParameterData::GetProxiedDevices(p).spec_command_class() == CommandClass::GetCommandResponse && ResponseParameterData::GetProxiedDevices(p).spec_parameter_id() == ParameterId::ProxiedDevices,
            forall|p: GetProxiedDeviceCountResponse| #![auto] ResponseParameterData::GetProxiedDeviceCount(p).spec_command_class() == CommandClass::GetCommandResponse && ResponseParameterData::GetProxiedDeviceCount(p).spec_parameter_id() == ParameterId::ProxiedDeviceCount,
            forall|p: GetCommsStatusResponse| #![auto] ResponseParameterData::GetCommsStatus(p).spec_command_class() == CommandClass::GetCommandResponse && ResponseParameterData::GetCommsStatus(p).spec_parameter_id() == ParameterId::CommsStatus,
            forall|p: GetStatusMessagesResponse| #![auto] ResponseParameterData::GetStatusMessages(p).spec_command_class() == CommandClass::GetCommandResponse && ResponseParameterData::GetStatusMessages(p).spec_parameter_id() == ParameterId::StatusMessages,
            forall|p: GetStatusIdDescriptionResponse| #![auto] ResponseParameterData::GetStatusIdDescription(p).spec_command_class() == CommandClass::GetCommandResponse && ResponseParameterData::GetStatusIdDescription(p).spec_parameter_id() == ParameterId::StatusIdDescription,
            forall|p: GetSubDeviceIdStatusReportThresholdResponse| #![auto] ResponseParameterData::GetSubDeviceIdStatusReportThreshold(p).spec_command_class() == CommandClass::GetCommandResponse && ResponseParameterData::GetSubDeviceIdStatusReportThreshold(p).spec_parameter_id() == ParameterId::SubDeviceIdStatusReportThreshold,
            forall|p: GetSupportedParametersResponse| #![auto] ResponseParameterData::GetSupportedParameters(p).spec_command_class() == CommandClass::GetCommandResponse && ResponseParameterData::GetSupportedParameters(p).spec_parameter_id() == ParameterId::SupportedParameters,
            forall|p: GetParameterDescriptionResponse| #![auto] ResponseParameterData::GetParameterDescription(p).spec_command_class() == CommandClass::GetCommandResponse && ResponseParameterData::GetParameterDescription(p).spec_parameter_id() == ParameterId::ParameterDescription,
            forall|p: GetDeviceInfoResponse| #![auto] ResponseParameterData::GetDeviceInfo(p).spec_command_class() == CommandClass::GetCommandResponse && ResponseParameterData::GetDeviceInfo(p).spec_parameter_id() == ParameterId::DeviceInfo,
            forall|p: GetProductDetailIdListResponse| #![auto] ResponseParameterData::GetProductDetailIdList(p).spec_command_class() == CommandClass::GetCommandResponse && ResponseParameterData::GetProductDetailIdList(p).spec_parameter_id() == ParameterId::ProductDetailIdList,
            forall|p: GetDeviceModelDescriptionResponse| #![auto] ResponseParameterData::GetDeviceModelDescription(p).spec_command_class() == CommandClass::GetCommandResponse && ResponseParameterData::GetDeviceModelDescription(p).spec_parameter_id() == ParameterId::DeviceModelDescription,
            forall|p: GetManufacturerLabelResponse| #![auto] ResponseParameterData::GetManufacturerLabel(p).spec_command_class() == CommandClass::GetCommandResponse && ResponseParameterData::GetManufacturerLabel(p).spec_parameter_id() == ParameterId::ManufacturerLabel,
            forall|p: GetDeviceLabelResponse| #![auto] ResponseParameterData::GetDeviceLabel(p).spec_command_class() == CommandClass::GetCommandResponse && ResponseParameterData::GetDeviceLabel(p).spec_parameter_id() == ParameterId::DeviceLabel,
            forall|p: GetFactoryDefaultsResponse| #![auto] ResponseParameterData::GetFactoryDefaults(p).spec_command_class() == CommandClass::GetCommandResponse && ResponseParameterData::GetFactoryDefaults(p).spec_parameter_id() == ParameterId::FactoryDefaults,
            forall|p: GetLanguageResponse<'a>| #![auto] ResponseParameterData::GetLanguage(p).spec_command_class() == CommandClass::GetCommandResponse && ResponseParameterData::GetLanguage(p).spec_parameter_id() == ParameterId::Language,
            forall|p: GetLanguageCapabilitiesResponse<'a>| #![auto] ResponseParameterData::GetLanguageCapabilities(p).spec_command_class() == CommandClass::GetCommandResponse && ResponseParameterData::GetLanguageCapabilities(p).spec_parameter_id() == ParameterId::LanguageCapabilities,
            forall|p: GetSoftwareVersionLabelResponse| #![auto] ResponseParameterData::GetSoftwareVersionLabel(p).spec_command_class() == CommandClass::GetCommandResponse && ResponseParameterData::GetSoftwareVersionLabel(p).spec_parameter_id() == ParameterId::SoftwareVersionLabel,
            forall|p: GetBootSoftwareVersionIdResponse| #![auto] ResponseParameterData::GetBootSoftwareVersionId(p).spec_command_class() == CommandClass::GetCommandResponse && ResponseParameterData::GetBootSoftwareVersionId(p).spec_parameter_id() == ParameterId::BootSoftwareVersionId,
            forall|p: GetBootSoftwareVersionLabelResponse| #![auto] ResponseParameterData::GetBootSoftwareVersionLabel(p).spec_command_class() == CommandClass::GetCommandResponse && ResponseParameterData::GetBootSoftwareVersionLabel(p).spec_parameter_id() == ParameterId::BootSoftwareVersionLabel,
            forall|p: GetDmxPersonalityResponse| #![auto] ResponseParameterData::GetDmxPersonality(p).spec_command_class() == CommandClass::GetCommandResponse && ResponseParameterData::GetDmxPersonality(p).spec_parameter_id() == ParameterId::DmxPersonality,
            forall|p: GetDmxPersonalityDescriptionResponse| #![auto] ResponseParameterData::GetDmxPersonalityDescription(p).spec_command_class() == CommandClass::GetCommandResponse && ResponseParameterData::GetDmxPersonalityDescription(p).spec_parameter_id() == ParameterId::DmxPersonalityDescription,
            forall|p: GetDmxStartAddressResponse| #![auto] ResponseParameterData::GetDmxStartAddress(p).spec_command_class() == CommandClass::GetCommandResponse && ResponseParameterData::GetDmxStartAddress(p).spec_parameter_id() == ParameterId::DmxStartAddress,
            forall|p: GetSlotInfoResponse| #![auto] ResponseParameterData::GetSlotInfo(p).spec_command_class() == CommandClass::GetCommandResponse && ResponseParameterData::GetSlotInfo(p).spec_parameter_id() == ParameterId::SlotInfo,
            forall|p: GetSlotDescriptionResponse| #![auto] ResponseParameterData::GetSlotDescription(p).spec_command_class() == CommandClass::GetCommandResponse && ResponseParameterData::GetSlotDescription(p).spec_parameter_id() == ParameterId::SlotDescription,
            forall|p: GetDefaultSlotValueResponse| #![auto] ResponseParameterData::GetDefaultSlotValue(p).spec_command_class() == CommandClass::GetCommandResponse && ResponseParameterData::GetDefaultSlotValue(p).spec_parameter_id() == ParameterId::DefaultSlotValue,
            forall|p: GetSensorDefinitionResponse| #![auto] ResponseParameterData::GetSensorDefinition(p).spec_command_class() == CommandClass::GetCommandResponse && ResponseParameterData::GetSensorDefinition(p).spec_parameter_id() == ParameterId::SensorDefinition,
            forall|p: GetSensorValueResponse| #![auto] ResponseParameterData::GetSensorValue(p).spec_command_class() == CommandClass::GetCommandResponse && ResponseParameterData::GetSensorValue(p).spec_parameter_id() == ParameterId::SensorValue,
            forall|p: SetSensorValueResponse| #![auto] ResponseParameterData::SetSensorValue(p).spec_command_class() == CommandClass::SetCommandResponse && ResponseParameterData::SetSensorValue(p).spec_parameter_id() == ParameterId::SensorValue,
            forall|p: GetDeviceHoursResponse| #![auto] ResponseParameterData::GetDeviceHours(p).spec_command_class() == CommandClass::GetCommandResponse && ResponseParameterData::GetDeviceHours(p).spec_parameter_id() == ParameterId::DeviceHours,
            forall|p: GetLampHoursResponse| #![auto] ResponseParameterData::GetLampHours(p).spec_command_class() == CommandClass::GetCommandResponse && ResponseParameterData::GetLampHours(p).spec_parameter_id() == ParameterId::LampHours,
            forall|p: GetLampStrikesResponse| #![auto] ResponseParameterData::GetLampStrikes(p).spec_command_class() == CommandClass::GetCommandResponse && ResponseParameterData::GetLampStrikes(p).spec_parameter_id() == ParameterId::LampStrikes,
            forall|p: GetLampStateResponse| #![auto] ResponseParameterData::GetLampState(p).spec_command_class() == CommandClass::GetCommandResponse && ResponseParameterData::GetLampState(p).spec_parameter_id() == ParameterId::LampState,
            forall|p: GetLampOnModeResponse| #![auto] ResponseParameterData::GetLampOnMode(p).spec_command_class() == CommandClass::GetCommandResponse && ResponseParameterData::GetLampOnMode(p).spec_parameter_id() == ParameterId::LampOnMode,
            forall|p: GetDevicePowerCyclesResponse| #![auto] ResponseParameterData::GetDevicePowerCycles(p).spec_command_class() == CommandClass::GetCommandResponse && ResponseParameterData::GetDevicePowerCycles(p).spec_parameter_id() == ParameterId::DevicePowerCycles,
            forall|p: GetDisplayInvertResponse| #![auto] ResponseParameterData::GetDisplayInvert(p).spec_command_class() == CommandClass::GetCommandResponse && ResponseParameterData::GetDisplayInvert(p).spec_parameter_id() == ParameterId::DisplayInvert,
            forall|p: GetDisplayLevelResponse| #![auto] ResponseParameterData::GetDisplayLevel(p).spec_command_class() == CommandClass::GetCommandResponse && ResponseParameterData::GetDisplayLevel(p).spec_parameter_id() == ParameterId::DisplayLevel,
            forall|p: GetPanInvertResponse| #![auto] ResponseParameterData::GetPanInvert(p).spec_command_class() == CommandClass::GetCommandResponse && ResponseParameterData::GetPanInvert(p).spec_parameter_id() == ParameterId::PanInvert,
            forall|p: GetTiltInvertResponse| #![auto] ResponseParameterData::GetTiltInvert(p).spec_command_class() == CommandClass::GetCommandResponse && ResponseParameterData::GetTiltInvert(p).spec_parameter_id() == ParameterId::TiltInvert,
            forall|p: GetPanTiltSwapResponse| #![auto] ResponseParameterData::GetPanTiltSwap(p).spec_command_class() == CommandClass::GetCommandResponse && ResponseParameterData::GetPanTiltSwap(p).spec_parameter_id() == ParameterId::PanTiltSwap,
            forall|p: GetRealTimeClockResponse| #![auto] ResponseParameterData::GetRealTimeClock(p).spec_command_class() == CommandClass::GetCommandResponse && ResponseParameterData::GetRealTimeClock(p).spec_parameter_id() == ParameterId::RealTimeClock,
            forall|p: GetIdentifyDeviceResponse| #![auto] ResponseParameterData::GetIdentifyDevice(p).spec_command_class() == CommandClass::GetCommandResponse && ResponseParameterData::GetIdentifyDevice(p).spec_parameter_id() == ParameterId::IdentifyDevice,
            forall|p: GetPowerStateResponse| #![auto] ResponseParameterData::GetPowerState(p).spec_command_class() == CommandClass::GetCommandResponse && ResponseParameterData::GetPowerState(p).spec_parameter_id() == ParameterId::PowerState,
            forall|p: GetPerformSelfTestResponse| #![auto] ResponseParameterData::GetPerformSelfTest(p).spec_command_class() == CommandClass::GetCommandResponse && ResponseParameterData::GetPerformSelfTest(p).spec_parameter_id() == ParameterId::PerformSelfTest,
            forall|p: GetSelfTestDescriptionResponse| #![auto] ResponseParameterData::GetSelfTestDescription(p).spec_command_class() == CommandClass::GetCommandResponse && ResponseParameterData::GetSelfTestDescription(p).spec_parameter_id() == ParameterId::SelfTestDescription,
            forall|p: GetPresetPlaybackResponse| #![auto] ResponseParameterData::GetPresetPlayback(p).spec_command_class() == CommandClass::GetCommandResponse && ResponseParameterData::GetPresetPlayback(p).spec_parameter_id() == ParameterId::PresetPlayback,
            forall|p: GetComponentScopeResponse| #![auto] ResponseParameterData::GetComponentScope(p).spec_command_class() == CommandClass::GetCommandResponse && ResponseParameterData::GetComponentScope(p).spec_parameter_id() == ParameterId::ComponentScope,
            forall|p: GetSearchDomainResponse| #![auto] ResponseParameterData::GetSearchDomain(p).spec_command_class() == CommandClass::GetCommandResponse && ResponseParameterData::GetSearchDomain(p).spec_parameter_id() == ParameterId::SearchDomain,
            forall|p: GetTcpCommsStatusResponse| #![auto] ResponseParameterData::GetTcpCommsStatus(p).spec_command_class() == CommandClass::GetCommandResponse && ResponseParameterData::GetTcpCommsStatus(p).spec_parameter_id() == ParameterId::TcpCommsStatus,
            forall|p: GetBrokerStatusResponse| #![auto] ResponseParameterData::GetBrokerStatus(p).spec_command_class() == CommandClass::GetCommandResponse && ResponseParameterData::GetBrokerStatus(p).spec_parameter_id() == ParameterId::BrokerStatus,
            forall|p: GetDmxBlockAddressResponse| #![auto] ResponseParameterData::GetDmxBlockAddress(p).spec_command_class() == CommandClass::GetCommandResponse && ResponseParameterData::GetDmxBlockAddress(p).spec_parameter_id() == ParameterId::DmxBlockAddress,
            forall|p: GetDmxFailModeResponse| #![auto] ResponseParameterData::GetDmxFailMode(p).spec_command_class() == CommandClass::GetCommandResponse && ResponseParameterData::GetDmxFailMode(p).spec_parameter_id() == ParameterId::DmxFailMode,
            forall|p: GetDmxStartupModeResponse| #![auto] ResponseParameterData::GetDmxStartupMode(p).spec_command_class() == CommandClass::GetCommandResponse && ResponseParameterData::GetDmxStartupMode(p).spec_parameter_id() == ParameterId::DmxStartupMode,
            forall|p: GetDimmerInfoResponse| #![auto] ResponseParameterData::GetDimmerInfo(p).spec_command_class() == CommandClass::GetCommandResponse && ResponseParameterData::GetDimmerInfo(p).spec_parameter_id() == ParameterId::DimmerInfo,
            forall|p: GetMinimumLevelResponse| #![auto] ResponseParameterData::GetMinimumLevel(p).spec_command_class() == CommandClass::GetCommandResponse && ResponseParameterData::GetMinimumLevel(p).spec_parameter_id() == ParameterId::MinimumLevel,
            forall|p: GetMaximumLevelResponse| #![auto] ResponseParameterData::GetMaximumLevel(p).spec_command_class() == CommandClass::GetCommandResponse && ResponseParameterData::GetMaximumLevel(p).spec_parameter_id() == ParameterId::MaximumLevel,
            forall|p: GetCurveResponse| #![auto] ResponseParameterData::GetCurve(p).spec_command_class() == CommandClass::GetCommandResponse && ResponseParameterData::GetCurve(p).spec_parameter_id() == ParameterId::Curve,
            forall|p: GetCurveDescriptionResponse| #![auto] ResponseParameterData::GetCurveDescription(p).spec_command_class() == CommandClass::GetCommandResponse && ResponseParameterData::GetCurveDescription(p).spec_parameter_id() == ParameterId::CurveDescription,
            forall|p: GetOutputResponseTimeResponse| #![auto] ResponseParameterData::GetOutputResponseTime(p).spec_command_class() == CommandClass::GetCommandResponse && ResponseParameterData::GetOutputResponseTime(p).spec_parameter_id() == ParameterId::OutputResponseTime,
            forall|p: GetOutputResponseTimeDescriptionResponse| #![auto] ResponseParameterData::GetOutputResponseTimeDescription(p).spec_command_class() == CommandClass::GetCommandResponse && ResponseParameterData::GetOutputResponseTimeDescription(p).spec_parameter_id() == ParameterId::OutputResponseTimeDescription,
            forall|p: GetModulationFrequencyResponse| #![auto] ResponseParameterData::GetModulationFrequency(p).spec_command_class() == CommandClass::GetCommandResponse && ResponseParameterData::GetModulationFrequency(p).spec_parameter_id() == ParameterId::ModulationFrequency,
            forall|p: GetModulationFrequencyDescriptionResponse| #![auto] ResponseParameterData::GetModulationFrequencyDescription(p).spec_command_class() == CommandClass::GetCommandResponse && ResponseParameterData::GetModulationFrequencyDescription(p).spec_parameter_id() == ParameterId::ModulationFrequencyDescription,
            forall|p: GetBurnInResponse| #![auto] ResponseParameterData::GetBurnIn(p).spec_command_class() == CommandClass::GetCommandResponse && ResponseParameterData::GetBurnIn(p).spec_parameter_id() == ParameterId::BurnIn,
            forall|p: GetLockPinResponse| #![auto] ResponseParameterData::GetLockPin(p).spec_command_class() == CommandClass::GetCommandResponse && ResponseParameterData::GetLockPin(p).spec_parameter_id() == ParameterId::LockPin,
            forall|p: GetLockStateResponse| #![auto] ResponseParameterData::GetLockState(p).spec_command_class() == CommandClass::GetCommandResponse && ResponseParameterData::GetLockState(p).spec_parameter_id() == ParameterId::LockState,
            forall|p: GetLockStateDescriptionResponse| #![auto] ResponseParameterData::GetLockStateDescription(p).spec_command_class() == CommandClass::GetCommandResponse && ResponseParameterData::GetLockStateDescription(p).spec_parameter_id() == ParameterId::LockStateDescription,
            forall|p: GetIdentifyModeResponse| #![auto] ResponseParameterData::GetIdentifyMode(p).spec_command_class() == CommandClass::GetCommandResponse && ResponseParameterData::GetIdentifyMode(p).spec_parameter_id() == ParameterId::IdentifyMode,
            forall|p: GetPresetInfoResponse| #![auto] ResponseParameterData::GetPresetInfo(p).spec_command_class() == CommandClass::GetCommandResponse && ResponseParameterData::GetPresetInfo(p).spec_parameter_id() == ParameterId::PresetInfo,
            forall|p: GetPresetMergeModeResponse| #![auto] ResponseParameterData::GetPresetMergeMode(p).spec_command_class() == CommandClass::GetCommandResponse && ResponseParameterData::GetPresetMergeMode(p).spec_parameter_id() == ParameterId::PresetMergeMode,
            forall|p: GetPresetStatusResponse| #![auto] ResponseParameterData::GetPresetStatus(p).spec_command_class() == CommandClass::GetCommandResponse && ResponseParameterData::GetPresetStatus(p).spec_parameter_id() == ParameterId::PresetStatus,
            forall|p: GetPowerOnSelfTestResponse| #![auto] ResponseParameterData::GetPowerOnSelfTest(p).spec_command_class() == CommandClass::GetCommandResponse && ResponseParameterData::GetPowerOnSelfTest(p).spec_parameter_id() == ParameterId::PowerOnSelfTest,
            forall|p: GetListInterfacesResponse| #![auto] ResponseParameterData::GetListInterfaces(p).spec_command_class() == CommandClass::GetCommandResponse && ResponseParameterData::GetListInterfaces(p).spec_parameter_id() == ParameterId::ListInterfaces,
            forall|p: GetInterfaceLabelResponse| #![auto] ResponseParameterData::GetInterfaceLabel(p).spec_command_class() == CommandClass::GetCommandResponse && ResponseParameterData::GetInterfaceLabel(p).spec_parameter_id() == ParameterId::InterfaceLabel,
            forall|p: GetInterfaceHardwareAddressType1Response| #![auto] ResponseParameterData::GetInterfaceHardwareAddressType1(p).spec_command_class() == CommandClass::GetCommandResponse && ResponseParameterData::GetInterfaceHardwareAddressType1(p).spec_parameter_id() == ParameterId::InterfaceHardwareAddressType1,
            forall|p: GetIpV4DhcpModeResponse| #![auto] ResponseParameterData::GetIpV4DhcpMode(p).spec_command_class() == CommandClass::GetCommandResponse && ResponseParameterData::GetIpV4DhcpMode(p).spec_parameter_id() == ParameterId::IpV4DhcpMode,
            forall|p: GetIpV4ZeroConfModeResponse| #![auto] ResponseParameterData::GetIpV4ZeroConfMode(p).spec_command_class() == CommandClass::GetCommandResponse && ResponseParameterData::GetIpV4ZeroConfMode(p).spec_parameter_id() == ParameterId::IpV4ZeroConfMode,
            forall|p: GetIpV4CurrentAddressResponse| #![auto] ResponseParameterData::GetIpV4CurrentAddress(p).spec_command_class() == CommandClass::GetCommandResponse && ResponseParameterData::GetIpV4CurrentAddress(p).spec_parameter_id() == ParameterId::IpV4CurrentAddress,
            forall|p: GetIpV4StaticAddressResponse| #![auto] ResponseParameterData::GetIpV4StaticAddress(p).spec_command_class() == CommandClass::GetCommandResponse && ResponseParameterData::GetIpV4StaticAddress(p).spec_parameter_id() == ParameterId::IpV4StaticAddress,
            forall|p: GetIpV4DefaultRouteResponse| #![auto] ResponseParameterData::GetIpV4DefaultRoute(p).spec_command_class() == CommandClass::GetCommandResponse && ResponseParameterData::GetIpV4DefaultRoute(p).spec_parameter_id() == ParameterId::IpV4DefaultRoute,
            forall|p: GetDnsIpV4NameServerResponse| #![auto] ResponseParameterData::GetDnsIpV4NameServer(p).spec_command_class() == CommandClass::GetCommandResponse && ResponseParameterData::GetDnsIpV4NameServer(p).spec_parameter_id() == ParameterId::DnsIpV4NameServer,
            forall|p: GetDnsHostNameResponse| #![auto] ResponseParameterData::GetDnsHostName(p).spec_command_class() == CommandClass::GetCommandResponse && ResponseParameterData::GetDnsHostName(p).spec_parameter_id() == ParameterId::DnsHostName,
            forall|p: GetDnsDomainNameResponse| #![auto] ResponseParameterData::GetDnsDomainName(p).spec_command_class() == CommandClass::GetCommandResponse && ResponseParameterData::GetDnsDomainName(p).spec_parameter_id() == ParameterId::DnsDomainName,
            forall|p: GetEndpointListResponse| #![auto] ResponseParameterData::GetEndpointList(p).spec_command_class() == CommandClass::GetCommandResponse && ResponseParameterData::GetEndpointList(p).spec_parameter_id() == ParameterId::EndpointList,
            forall|p: GetEndpointListChangeResponse| #![auto] ResponseParameterData::GetEndpointListChange(p).spec_command_class() == CommandClass::GetCommandResponse && ResponseParameterData::GetEndpointListChange(p).spec_parameter_id() == ParameterId::EndpointListChange,
            forall|p: GetIdentifyEndpointResponse| #![auto] ResponseParameterData::GetIdentifyEndpoint(p).spec_command_class() == CommandClass::GetCommandResponse && ResponseParameterData::GetIdentifyEndpoint(p).spec_parameter_id() == ParameterId::IdentifyEndpoint,
            forall|p: SetIdentifyEndpointResponse| #![auto] ResponseParameterData::SetIdentifyEndpoint(p).spec_command_class() == CommandClass::SetCommandResponse && ResponseParameterData::SetIdentifyEndpoint(p).spec_parameter_id() == ParameterId::IdentifyEndpoint,
            forall|p: GetEndpointToUniverseResponse| #![auto] ResponseParameterData::GetEndpointToUniverse(p).spec_command_class() == CommandClass::GetCommandResponse && ResponseParameterData::GetEndpointToUniverse(p).spec_parameter_id() == ParameterId::EndpointToUniverse,
            forall|p: SetEndpointToUniverseResponse| #![auto] ResponseParameterData::SetEndpointToUniverse(p).spec_command_class() == CommandClass::SetCommandResponse && ResponseParameterData::SetEndpointToUniverse(p).spec_parameter_id() == ParameterId::EndpointToUniverse,
            forall|p: GetEndpointModeResponse| #![auto] ResponseParameterData::GetEndpointMode(p).spec_command_class() == CommandClass::GetCommandResponse && ResponseParameterData::GetEndpointMode(p).spec_parameter_id() == ParameterId::EndpointMode,
            forall|p: SetEndpointModeResponse| #![auto] ResponseParameterData::SetEndpointMode(p).spec_command_class() == CommandClass::SetCommandResponse && ResponseParameterData::SetEndpointMode(p).spec_parameter_id() == ParameterId::EndpointMode,
            forall|p: GetEndpointLabelResponse| #![auto] ResponseParameterData::GetEndpointLabel(p).spec_command_class() == CommandClass::GetCommandResponse && ResponseParameterData::GetEndpointLabel(p).spec_parameter_id() == ParameterId::EndpointLabel,
            forall|p: SetEndpointLabelResponse| #![auto] ResponseParameterData::SetEndpointLabel(p).spec_command_class() == CommandClass::SetCommandResponse && ResponseParameterData::SetEndpointLabel(p).spec_parameter_id() == ParameterId::EndpointLabel,
            forall|p: GetRdmTrafficEnableResponse| #![auto] ResponseParameterData::GetRdmTrafficEnable(p).spec_command_class() == CommandClass::GetCommandResponse && ResponseParameterData::GetRdmTrafficEnable(p).spec_parameter_id() == ParameterId::RdmTrafficEnable,
            forall|p: SetRdmTrafficEnableResponse| #![auto] ResponseParameterData::SetRdmTrafficEnable(p).spec_command_class() == CommandClass::SetCommandResponse && ResponseParameterData::SetRdmTrafficEnable(p).spec_parameter_id() == ParameterId::RdmTrafficEnable,
            forall|p: GetDiscoveryStateResponse| #![auto] ResponseParameterData::GetDiscoveryState(p).spec_command_class() == CommandClass::GetCommandResponse && ResponseParameterData::GetDiscoveryState(p).spec_parameter_id() == ParameterId::DiscoveryState,
            forall|p: SetDiscoveryStateResponse| #![auto] ResponseParameterData::SetDiscoveryState(p).spec_command_class() == CommandClass::SetCommandResponse && ResponseParameterData::SetDiscoveryState(p).spec_parameter_id() == ParameterId::DiscoveryState,
            forall|p: GetBackgroundDiscoveryResponse| #![auto] ResponseParameterData::GetBackgroundDiscovery(p).spec_command_class() == CommandClass::GetCommandResponse && ResponseParameterData::GetBackgroundDiscovery(p).spec_parameter_id() == ParameterId::BackgroundDiscovery,
            forall|p: SetBackgroundDiscoveryResponse| #![auto] ResponseParameterData::SetBackgroundDiscovery(p).spec_command_class() == CommandClass::SetCommandResponse && ResponseParameterData::SetBackgroundDiscovery(p).spec_parameter_id() == ParameterId::BackgroundDiscovery,
            forall|p: GetEndpointTimingResponse| #![auto] ResponseParameterData::GetEndpointTiming(p).spec_command_class() == CommandClass::GetCommandResponse && ResponseParameterData::GetEndpointTiming(p).spec_parameter_id() == ParameterId::EndpointTiming,
            forall|p: SetEndpointTimingResponse| #![auto] ResponseParameterData::SetEndpointTiming(p).spec_command_class() == CommandClass::SetCommandResponse && ResponseParameterData::SetEndpointTiming(p).spec_parameter_id() == ParameterId::EndpointTiming,
            forall|p: GetEndpointTimingDescriptionResponse| #![auto] ResponseParameterData::GetEndpointTimingDescription(p).spec_command_class() == CommandClass::GetCommandResponse && ResponseParameterData::GetEndpointTimingDescription(p).spec_parameter_id() == ParameterId::EndpointTimingDescription,
            forall|p: GetEndpointRespondersResponse| #![auto] ResponseParameterData::GetEndpointResponders(p).spec_command_class() == CommandClass::GetCommandResponse && ResponseParameterData::GetEndpointResponders(p).spec_parameter_id() == ParameterId::EndpointResponders,
            forall|p: GetEndpointResponderListChangeResponse| #![auto] ResponseParameterData::GetEndpointResponderListChange(p).spec_command_class() == CommandClass::GetCommandResponse && ResponseParameterData::GetEndpointResponderListChange(p).spec_parameter_id() == ParameterId::EndpointResponderListChange,
            forall|p: GetBindingControlFieldsResponse| #![auto] ResponseParameterData::GetBindingControlFields(p).spec_command_class() == CommandClass::GetCommandResponse && ResponseParameterData::GetBindingControlFields(p).spec_parameter_id() == ParameterId::BindingControlFields,
            forall|p: GetBackgroundQueuedStatusPolicyResponse| #![auto] ResponseParameterData::GetBackgroundQueuedStatusPolicy(p).spec_command_class() == CommandClass::GetCommandResponse && ResponseParameterData::GetBackgroundQueuedStatusPolicy(p).spec_parameter_id() == ParameterId::BackgroundQueuedStatusPolicy,
            forall|p: GetBackgroundQueuedStatusPolicyDescriptionResponse| #![auto] ResponseParameterData::GetBackgroundQueuedStatusPolicyDescription(p).spec_command_class() == CommandClass::GetCommandResponse && ResponseParameterData::GetBackgroundQueuedStatusPolicyDescription(p).spec_parameter_id() == ParameterId::BackgroundQueuedStatusPolicyDescription,
    {
    }
}

/// The frame of a discovery unique branch response is 24 bytes: seven 0xfe preamble bytes and the
/// 0xaa separator; then each byte `b` of the UID (its manufacturer identifier, then its device
/// identifier, big endian) as the pair `b | 0xaa`, `b | 0x55`; then likewise the two bytes, big
/// endian, of the 16 bit sum of the twelve bytes that carry the UID.
pub proof fn lemma_discovery_frame_layout(uid: DeviceUID, k: int)
    requires
        0 <= k < 6,
    ensures
        ({
            let e = spec_discovery_frame(uid);
            let w = uid.spec_wire();
            let sum = checksum_spec(e.subrange(8, 20));
            &&& e.len() == 24
            &&& e.subrange(0, 8) == seq![0xfeu8, 0xfeu8, 0xfeu8, 0xfeu8, 0xfeu8, 0xfeu8, 0xfeu8, 0xaau8]
            &&& e[8 + 2 * k] == w[k] | 0xaa
            &&& e[9 + 2 * k] == w[k] | 0x55
            &&& e[20] == ((sum / 0x100) as u8) | 0xaa
            &&& e[21] == ((sum / 0x100) as u8) | 0x55
            &&& e[22] == ((sum % 0x100) as u8) | 0xaa
            &&& e[23] == ((sum % 0x100) as u8) | 0x55
        }),
{
    let w = uid.spec_wire();
    uid.lemma_wire();
    let euid = spec_spread_all(w);
    lemma_spread_all_index(w, k);
    crate::rdm::frame_layouts::lemma_checksum_bound(euid);
    let c = checksum_spec(euid);
    let cs = be16(c as u16);
    assert(cs =~= seq![(c / 0x100) as u8, (c % 0x100) as u8]);
    lemma_spread_all_index(cs, 0);
    lemma_spread_all_index(cs, 1);
    let e = spec_discovery_frame(uid);
    assert(e.subrange(8, 20) =~= euid);
    assert(e.subrange(0, 8) =~= seq![0xfeu8, 0xfeu8, 0xfeu8, 0xfeu8, 0xfeu8, 0xfeu8, 0xfeu8, 0xaau8]);
}

impl<'a> ResponseData<'a> {
    /// The data that each response type carries: an ACK_TIMER response the estimated time in
    /// tenths of a second and an ACK_TIMER_HI_RES response the estimated time in milliseconds,
    /// each as two bytes big endian; a NACK_REASON response the two byte reason code, big endian;
    /// an ACK or ACK_OVERFLOW response the parameter data, or nothing when it carries none.
    pub proof fn lemma_response_type_layout(
        command_class: CommandClass,
        parameter_data_length: u8,
        parameter_id: ParameterId,
        bytes: Seq<u8>,
        t: u16,
        r: ResponseNackReasonCode,
    )
        ensures
            bytes.len() >= 2 ==> Self::spec_decode(ResponseType::AckTimer, command_class, parameter_data_length, parameter_id, bytes)
                == Ok::<Self, RdmError>(ResponseData::EstimateResponseTime((bytes[0] as int * 0x100 + bytes[1] as int) as u16)),
            bytes.len() >= 2 ==> Self::spec_decode(ResponseType::AckTimerHiRes, command_class, parameter_data_length, parameter_id, bytes)
                == Ok::<Self, RdmError>(ResponseData::EstimateResponseTimeHiRes((bytes[0] as int * 0x100 + bytes[1] as int) as u16)),
            bytes.len() >= 2 ==> Self::spec_decode(ResponseType::NackReason, command_class, parameter_data_length, parameter_id, bytes)
                == match ResponseNackReasonCode::spec_try_from_u16((bytes[0] as int * 0x100 + bytes[1] as int) as u16) {
                    Ok(reason) => Ok::<Self, RdmError>(ResponseData::NackReason(reason)),
                    Err(e) => Err(e),
                },
            parameter_data_length == 0 ==> Self::spec_decode(ResponseType::Ack, command_class, parameter_data_length, parameter_id, bytes)
                == Ok::<Self, RdmError>(ResponseData::ParameterData(None)),
            parameter_data_length > 0 ==> Self::spec_decode(ResponseType::Ack, command_class, parameter_data_length, parameter_id, bytes)
                == match ResponseParameterData::spec_decode(command_class, parameter_id, bytes) {
                    Ok(d) => Ok::<Self, RdmError>(ResponseData::ParameterData(Some(d))),
                    Err(e) => Err(e),
                },
            Self::spec_decode(ResponseType::AckOverflow, command_class, parameter_data_length, parameter_id, bytes)
                == Self::spec_decode(ResponseType::Ack, command_class, parameter_data_length, parameter_id, bytes),
            ResponseData::EstimateResponseTime(t).spec_encode() == seq![(t / 0x100) as u8, (t % 0x100) as u8],
            ResponseData::EstimateResponseTimeHiRes(t).spec_encode() == seq![(t / 0x100) as u8, (t % 0x100) as u8],
            ResponseData::NackReason(r).spec_encode() == seq![(r.spec_to_u16() / 0x100) as u8, (r.spec_to_u16() % 0x100) as u8],
    {
        ResponseNackReasonCode::lemma_wire_code(r, 0, 0);
    }
}

} // verus!
