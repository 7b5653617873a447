//! The wire codes of the enumerations, as tables of constants, and how wire forms carry them.

use crate::rdm::common::{CommandClass, SubDeviceId};
use crate::rdm::device::{SupportedCommandClass, SupportedCommandClassError};
use crate::rdm::error::{RdmError};
use crate::rdm::parameter::{ParameterId};
use crate::rdm::parameter::e120::{Iso639_1, DisplayInvertMode, ImplementedCommandClass, LampOnMode, LampState, OnOffStates, ParameterDataType, PowerState, PresetPlaybackMode, ProductCategory, ProductDetail, ResetDeviceMode, SelfTest, SensorType, SensorUnit, SensorUnitPrefix, SlotIdDefinition, SlotType, StatusType};
use crate::rdm::parameter::e120::status::{StatusMessageIdDefinition};
use crate::rdm::parameter::e133::{BrokerState, StaticConfigType};
use crate::rdm::parameter::e137_1::{IdentifyMode, MergeMode, PresetProgrammed, SupportedTimes, TimeMode};
use crate::rdm::parameter::e137_2::{DhcpMode, HardwareType};
use crate::rdm::parameter::e137_7::{DiscoveryCountStatus, DiscoveryState, EndpointId, EndpointMode, EndpointType};
use crate::rdm::response::{ResponseNackReasonCode, ResponseType};
use crate::rdm::wire::FixedWire;
use vstd::prelude::*;

verus! {

impl ResponseNackReasonCode {
    /// The wire codes of the named variants, as the standard assigns them, both ways.
    pub proof fn lemma_code_table()
        ensures
            ResponseNackReasonCode::UnknownPid.spec_to_u16() == 0x0000u16,
            ResponseNackReasonCode::FormatError.spec_to_u16() == 0x0001u16,
            ResponseNackReasonCode::HardwareFault.spec_to_u16() == 0x0002u16,
            ResponseNackReasonCode::ProxyReject.spec_to_u16() == 0x0003u16,
            ResponseNackReasonCode::WriteProtect.spec_to_u16() == 0x0004u16,
            ResponseNackReasonCode::UnsupportedCommandClass.spec_to_u16() == 0x0005u16,
            ResponseNackReasonCode::DataOutOfRange.spec_to_u16() == 0x0006u16,
            ResponseNackReasonCode::BufferFull.spec_to_u16() == 0x0007u16,
            ResponseNackReasonCode::PacketSizeUnsupported.spec_to_u16() == 0x0008u16,
            ResponseNackReasonCode::SubDeviceIdOutOfRange.spec_to_u16() == 0x0009u16,
            ResponseNackReasonCode::ProxyBufferFull.spec_to_u16() == 0x000au16,
            ResponseNackReasonCode::ActionNotSupported.spec_to_u16() == 0x000bu16,
            ResponseNackReasonCode::EndpointNumberInvalid.spec_to_u16() == 0x000cu16,
            ResponseNackReasonCode::InvalidEndpointMode.spec_to_u16() == 0x000du16,
            ResponseNackReasonCode::UnknownUid.spec_to_u16() == 0x000eu16,
            ResponseNackReasonCode::UnknownScope.spec_to_u16() == 0x000fu16,
            ResponseNackReasonCode::InvalidStaticConfigType.spec_to_u16() == 0x0010u16,
            ResponseNackReasonCode::InvalidIpv4Address.spec_to_u16() == 0x0011u16,
            ResponseNackReasonCode::InvalidIpv6Address.spec_to_u16() == 0x0012u16,
            ResponseNackReasonCode::InvalidPort.spec_to_u16() == 0x0013u16,
            ResponseNackReasonCode::DeviceAbsent.spec_to_u16() == 0x0014u16,
            ResponseNackReasonCode::SensorOutOfRange.spec_to_u16() == 0x0015u16,
            ResponseNackReasonCode::SensorFault.spec_to_u16() == 0x0016u16,
            ResponseNackReasonCode::PackingNotSupported.spec_to_u16() == 0x0017u16,
            ResponseNackReasonCode::ErrorInPackedListTransaction.spec_to_u16() == 0x0018u16,
            ResponseNackReasonCode::ProxyDrop.spec_to_u16() == 0x0019u16,
            ResponseNackReasonCode::AllCallSetFail.spec_to_u16() == 0x0020u16,
            ResponseNackReasonCode::spec_try_from_u16(0x0000u16) == Ok::<ResponseNackReasonCode, RdmError>(ResponseNackReasonCode::UnknownPid),
            ResponseNackReasonCode::spec_try_from_u16(0x0001u16) == Ok::<ResponseNackReasonCode, RdmError>(ResponseNackReasonCode::FormatError),
            ResponseNackReasonCode::spec_try_from_u16(0x0002u16) == Ok::<ResponseNackReasonCode, RdmError>(ResponseNackReasonCode::HardwareFault),
            ResponseNackReasonCode::spec_try_from_u16(0x0003u16) == Ok::<ResponseNackReasonCode, RdmError>(ResponseNackReasonCode::ProxyReject),
            ResponseNackReasonCode::spec_try_from_u16(0x0004u16) == Ok::<ResponseNackReasonCode, RdmError>(ResponseNackReasonCode::WriteProtect),
            ResponseNackReasonCode::spec_try_from_u16(0x0005u16) == Ok::<ResponseNackReasonCode, RdmError>(ResponseNackReasonCode::UnsupportedCommandClass),
            ResponseNackReasonCode::spec_try_from_u16(0x0006u16) == Ok::<ResponseNackReasonCode, RdmError>(ResponseNackReasonCode::DataOutOfRange),
            ResponseNackReasonCode::spec_try_from_u16(0x0007u16) == Ok::<ResponseNackReasonCode, RdmError>(ResponseNackReasonCode::BufferFull),
            ResponseNackReasonCode::spec_try_from_u16(0x0008u16) == Ok::<ResponseNackReasonCode, RdmError>(ResponseNackReasonCode::PacketSizeUnsupported),
            ResponseNackReasonCode::spec_try_from_u16(0x0009u16) == Ok::<ResponseNackReasonCode, RdmError>(ResponseNackReasonCode::SubDeviceIdOutOfRange),
            ResponseNackReasonCode::spec_try_from_u16(0x000au16) == Ok::<ResponseNackReasonCode, RdmError>(ResponseNackReasonCode::ProxyBufferFull),
            ResponseNackReasonCode::spec_try_from_u16(0x000bu16) == Ok::<ResponseNackReasonCode, RdmError>(ResponseNackReasonCode::ActionNotSupported),
            ResponseNackReasonCode::spec_try_from_u16(0x000cu16) == Ok::<ResponseNackReasonCode, RdmError>(ResponseNackReasonCode::EndpointNumberInvalid),
            ResponseNackReasonCode::spec_try_from_u16(0x000du16) == Ok::<ResponseNackReasonCode, RdmError>(ResponseNackReasonCode::InvalidEndpointMode),
            ResponseNackReasonCode::spec_try_from_u16(0x000eu16) == Ok::<ResponseNackReasonCode, RdmError>(ResponseNackReasonCode::UnknownUid),
            ResponseNackReasonCode::spec_try_from_u16(0x000fu16) == Ok::<ResponseNackReasonCode, RdmError>(ResponseNackReasonCode::UnknownScope),
            ResponseNackReasonCode::spec_try_from_u16(0x0010u16) == Ok::<ResponseNackReasonCode, RdmError>(ResponseNackReasonCode::InvalidStaticConfigType),
            ResponseNackReasonCode::spec_try_from_u16(0x0011u16) == Ok::<ResponseNackReasonCode, RdmError>(ResponseNackReasonCode::InvalidIpv4Address),
            ResponseNackReasonCode::spec_try_from_u16(0x0012u16) == Ok::<ResponseNackReasonCode, RdmError>(ResponseNackReasonCode::InvalidIpv6Address),
            ResponseNackReasonCode::spec_try_from_u16(0x0013u16) == Ok::<ResponseNackReasonCode, RdmError>(ResponseNackReasonCode::InvalidPort),
            ResponseNackReasonCode::spec_try_from_u16(0x0014u16) == Ok::<ResponseNackReasonCode, RdmError>(ResponseNackReasonCode::DeviceAbsent),
            ResponseNackReasonCode::spec_try_from_u16(0x0015u16) == Ok::<ResponseNackReasonCode, RdmError>(ResponseNackReasonCode::SensorOutOfRange),
            ResponseNackReasonCode::spec_try_from_u16(0x0016u16) == Ok::<ResponseNackReasonCode, RdmError>(ResponseNackReasonCode::SensorFault),
            ResponseNackReasonCode::spec_try_from_u16(0x0017u16) == Ok::<ResponseNackReasonCode, RdmError>(ResponseNackReasonCode::PackingNotSupported),
            ResponseNackReasonCode::spec_try_from_u16(0x0018u16) == Ok::<ResponseNackReasonCode, RdmError>(ResponseNackReasonCode::ErrorInPackedListTransaction),
            ResponseNackReasonCode::spec_try_from_u16(0x0019u16) == Ok::<ResponseNackReasonCode, RdmError>(ResponseNackReasonCode::ProxyDrop),
            ResponseNackReasonCode::spec_try_from_u16(0x0020u16) == Ok::<ResponseNackReasonCode, RdmError>(ResponseNackReasonCode::AllCallSetFail),
    {
    }

    /// The wire form of a variant is its code, big endian, and two bytes read as the variant that
    /// their code names.
    pub proof fn lemma_wire_code(x: ResponseNackReasonCode, hi: u8, lo: u8)
        ensures
            x.spec_wire() == seq![(x.spec_to_u16() / 0x100) as u8, (x.spec_to_u16() % 0x100) as u8],
            (<ResponseNackReasonCode as FixedWire>::spec_read(seq![hi, lo]) is Some) == (ResponseNackReasonCode::spec_try_from_u16(((hi as int * 0x100 + lo as int) as u16)) is Ok),
            <ResponseNackReasonCode as FixedWire>::spec_read(seq![hi, lo]) matches Some(v) ==> ResponseNackReasonCode::spec_try_from_u16(((hi as int * 0x100 + lo as int) as u16)) == Ok::<ResponseNackReasonCode, RdmError>(v),
    {
    }
}

impl ResponseType {
    /// The wire codes of the named variants, as the standard assigns them, both ways.
    pub proof fn lemma_code_table()
        ensures
            ResponseType::Ack.spec_to_u8() == 0x00u8,
            ResponseType::AckTimer.spec_to_u8() == 0x01u8,
            ResponseType::NackReason.spec_to_u8() == 0x02u8,
            ResponseType::AckOverflow.spec_to_u8() == 0x03u8,
            ResponseType::AckTimerHiRes.spec_to_u8() == 0x04u8,
            ResponseType::spec_try_from_u8(0x00u8) == Ok::<ResponseType, RdmError>(ResponseType::Ack),
            ResponseType::spec_try_from_u8(0x01u8) == Ok::<ResponseType, RdmError>(ResponseType::AckTimer),
            ResponseType::spec_try_from_u8(0x02u8) == Ok::<ResponseType, RdmError>(ResponseType::NackReason),
            ResponseType::spec_try_from_u8(0x03u8) == Ok::<ResponseType, RdmError>(ResponseType::AckOverflow),
            ResponseType::spec_try_from_u8(0x04u8) == Ok::<ResponseType, RdmError>(ResponseType::AckTimerHiRes),
    {
    }

    /// The wire form of a variant is its code, and one byte reads as the variant that its code names.
    pub proof fn lemma_wire_code(x: ResponseType, b: u8)
        ensures
            x.spec_wire() == seq![x.spec_to_u8()],
            (<ResponseType as FixedWire>::spec_read(seq![b]) is Some) == (ResponseType::spec_try_from_u8(b) is Ok),
            <ResponseType as FixedWire>::spec_read(seq![b]) matches Some(v) ==> ResponseType::spec_try_from_u8(b) == Ok::<ResponseType, RdmError>(v),
    {
    }
}

impl SubDeviceId {
    /// The wire codes of the named variants, as the standard assigns them, both ways.
    pub proof fn lemma_code_table()
        ensures
            SubDeviceId::RootDevice.spec_to_u16() == 0x0000u16,
            SubDeviceId::AllCall.spec_to_u16() == 0xffffu16,
            SubDeviceId::spec_from_u16(0x0000u16) == SubDeviceId::RootDevice,
            SubDeviceId::spec_from_u16(0xffffu16) == SubDeviceId::AllCall,
    {
    }

    /// The wire form of a variant is its code, big endian, and two bytes read as the variant that
    /// their code names.
    pub proof fn lemma_wire_code(x: SubDeviceId, hi: u8, lo: u8)
        ensures
            x.spec_wire() == seq![(x.spec_to_u16() / 0x100) as u8, (x.spec_to_u16() % 0x100) as u8],
            <SubDeviceId as FixedWire>::spec_read(seq![hi, lo]) == Some(SubDeviceId::spec_from_u16(((hi as int * 0x100 + lo as int) as u16))),
    {
    }
}

impl CommandClass {
    /// The wire codes of the named variants, as the standard assigns them, both ways.
    pub proof fn lemma_code_table()
        ensures
            CommandClass::DiscoveryCommand.spec_to_u8() == 0x10u8,
            CommandClass::DiscoveryCommandResponse.spec_to_u8() == 0x11u8,
            CommandClass::GetCommand.spec_to_u8() == 0x20u8,
            CommandClass::GetCommandResponse.spec_to_u8() == 0x21u8,
            CommandClass::SetCommand.spec_to_u8() == 0x30u8,
            CommandClass::SetCommandResponse.spec_to_u8() == 0x31u8,
            CommandClass::spec_try_from_u8(0x10u8) == Ok::<CommandClass, RdmError>(CommandClass::DiscoveryCommand),
            CommandClass::spec_try_from_u8(0x11u8) == Ok::<CommandClass, RdmError>(CommandClass::DiscoveryCommandResponse),
            CommandClass::spec_try_from_u8(0x20u8) == Ok::<CommandClass, RdmError>(CommandClass::GetCommand),
            CommandClass::spec_try_from_u8(0x21u8) == Ok::<CommandClass, RdmError>(CommandClass::GetCommandResponse),
            CommandClass::spec_try_from_u8(0x30u8) == Ok::<CommandClass, RdmError>(CommandClass::SetCommand),
            CommandClass::spec_try_from_u8(0x31u8) == Ok::<CommandClass, RdmError>(CommandClass::SetCommandResponse),
    {
    }

    /// The wire form of a variant is its code, and one byte reads as the variant that its code names.
    pub proof fn lemma_wire_code(x: CommandClass, b: u8)
        ensures
            x.spec_wire() == seq![x.spec_to_u8()],
            (<CommandClass as FixedWire>::spec_read(seq![b]) is Some) == (CommandClass::spec_try_from_u8(b) is Ok),
            <CommandClass as FixedWire>::spec_read(seq![b]) matches Some(v) ==> CommandClass::spec_try_from_u8(b) == Ok::<CommandClass, RdmError>(v),
    {
    }
}

impl ParameterId {
    /// The wire codes of the named variants, as the standard assigns them, both ways.
    pub proof fn lemma_code_table()
        ensures
            ParameterId::DiscUniqueBranch.spec_to_u16() == 0x0001u16,
            ParameterId::DiscMute.spec_to_u16() == 0x0002u16,
            ParameterId::DiscUnMute.spec_to_u16() == 0x0003u16,
            ParameterId::ProxiedDevices.spec_to_u16() == 0x0010u16,
            ParameterId::ProxiedDeviceCount.spec_to_u16() == 0x0011u16,
            ParameterId::CommsStatus.spec_to_u16() == 0x0015u16,
            ParameterId::QueuedMessage.spec_to_u16() == 0x0020u16,
            ParameterId::StatusMessages.spec_to_u16() == 0x0030u16,
            ParameterId::StatusIdDescription.spec_to_u16() == 0x0031u16,
            ParameterId::ClearStatusId.spec_to_u16() == 0x0032u16,
            ParameterId::SubDeviceIdStatusReportThreshold.spec_to_u16() == 0x0033u16,
            ParameterId::SupportedParameters.spec_to_u16() == 0x0050u16,
            ParameterId::ParameterDescription.spec_to_u16() == 0x0051u16,
            ParameterId::DeviceInfo.spec_to_u16() == 0x0060u16,
            ParameterId::ProductDetailIdList.spec_to_u16() == 0x0070u16,
            ParameterId::DeviceModelDescription.spec_to_u16() == 0x0080u16,
            ParameterId::ManufacturerLabel.spec_to_u16() == 0x0081u16,
            ParameterId::DeviceLabel.spec_to_u16() == 0x0082u16,
            ParameterId::FactoryDefaults.spec_to_u16() == 0x0090u16,
            ParameterId::LanguageCapabilities.spec_to_u16() == 0x00a0u16,
            ParameterId::Language.spec_to_u16() == 0x00b0u16,
            ParameterId::SoftwareVersionLabel.spec_to_u16() == 0x00c0u16,
            ParameterId::BootSoftwareVersionId.spec_to_u16() == 0x00c1u16,
            ParameterId::BootSoftwareVersionLabel.spec_to_u16() == 0x00c2u16,
            ParameterId::DmxPersonality.spec_to_u16() == 0x00e0u16,
            ParameterId::DmxPersonalityDescription.spec_to_u16() == 0x00e1u16,
            ParameterId::DmxStartAddress.spec_to_u16() == 0x00f0u16,
            ParameterId::SlotInfo.spec_to_u16() == 0x0120u16,
            ParameterId::SlotDescription.spec_to_u16() == 0x0121u16,
            ParameterId::DefaultSlotValue.spec_to_u16() == 0x0122u16,
            ParameterId::SensorDefinition.spec_to_u16() == 0x0200u16,
            ParameterId::SensorValue.spec_to_u16() == 0x0201u16,
            ParameterId::RecordSensors.spec_to_u16() == 0x0202u16,
            ParameterId::DeviceHours.spec_to_u16() == 0x0400u16,
            ParameterId::LampHours.spec_to_u16() == 0x0401u16,
            ParameterId::LampStrikes.spec_to_u16() == 0x0402u16,
            ParameterId::LampState.spec_to_u16() == 0x0403u16,
            ParameterId::LampOnMode.spec_to_u16() == 0x0404u16,
            ParameterId::DevicePowerCycles.spec_to_u16() == 0x0405u16,
            ParameterId::DisplayInvert.spec_to_u16() == 0x0500u16,
            ParameterId::DisplayLevel.spec_to_u16() == 0x0501u16,
            ParameterId::PanInvert.spec_to_u16() == 0x0600u16,
            ParameterId::TiltInvert.spec_to_u16() == 0x0601u16,
            ParameterId::PanTiltSwap.spec_to_u16() == 0x0602u16,
            ParameterId::RealTimeClock.spec_to_u16() == 0x0603u16,
            ParameterId::IdentifyDevice.spec_to_u16() == 0x1000u16,
            ParameterId::ResetDevice.spec_to_u16() == 0x1001u16,
            ParameterId::PowerState.spec_to_u16() == 0x1010u16,
            ParameterId::PerformSelfTest.spec_to_u16() == 0x1020u16,
            ParameterId::SelfTestDescription.spec_to_u16() == 0x1021u16,
            ParameterId::CapturePreset.spec_to_u16() == 0x1030u16,
            ParameterId::PresetPlayback.spec_to_u16() == 0x1031u16,
            ParameterId::DmxBlockAddress.spec_to_u16() == 0x0140u16,
            ParameterId::DmxFailMode.spec_to_u16() == 0x0141u16,
            ParameterId::DmxStartupMode.spec_to_u16() == 0x0142u16,
            ParameterId::DimmerInfo.spec_to_u16() == 0x0340u16,
            ParameterId::MinimumLevel.spec_to_u16() == 0x0341u16,
            ParameterId::MaximumLevel.spec_to_u16() == 0x0342u16,
            ParameterId::Curve.spec_to_u16() == 0x0343u16,
            ParameterId::CurveDescription.spec_to_u16() == 0x0344u16,
            ParameterId::OutputResponseTime.spec_to_u16() == 0x0345u16,
            ParameterId::OutputResponseTimeDescription.spec_to_u16() == 0x0346u16,
            ParameterId::ModulationFrequency.spec_to_u16() == 0x0347u16,
            ParameterId::ModulationFrequencyDescription.spec_to_u16() == 0x0348u16,
            ParameterId::BurnIn.spec_to_u16() == 0x0440u16,
            ParameterId::LockPin.spec_to_u16() == 0x0640u16,
            ParameterId::LockState.spec_to_u16() == 0x0641u16,
            ParameterId::LockStateDescription.spec_to_u16() == 0x0642u16,
            ParameterId::IdentifyMode.spec_to_u16() == 0x1040u16,
            ParameterId::PresetInfo.spec_to_u16() == 0x1041u16,
            ParameterId::PresetStatus.spec_to_u16() == 0x1042u16,
            ParameterId::PresetMergeMode.spec_to_u16() == 0x1043u16,
            ParameterId::PowerOnSelfTest.spec_to_u16() == 0x1044u16,
            ParameterId::ListInterfaces.spec_to_u16() == 0x0700u16,
            ParameterId::InterfaceLabel.spec_to_u16() == 0x0701u16,
            ParameterId::InterfaceHardwareAddressType1.spec_to_u16() == 0x0702u16,
            ParameterId::IpV4DhcpMode.spec_to_u16() == 0x0703u16,
            ParameterId::IpV4ZeroConfMode.spec_to_u16() == 0x0704u16,
            ParameterId::IpV4CurrentAddress.spec_to_u16() == 0x0705u16,
            ParameterId::IpV4StaticAddress.spec_to_u16() == 0x0706u16,
            ParameterId::InterfaceRenewDhcp.spec_to_u16() == 0x0707u16,
            ParameterId::InterfaceReleaseDhcp.spec_to_u16() == 0x0708u16,
            ParameterId::InterfaceApplyConfiguration.spec_to_u16() == 0x0709u16,
            ParameterId::IpV4DefaultRoute.spec_to_u16() == 0x070au16,
            ParameterId::DnsIpV4NameServer.spec_to_u16() == 0x070bu16,
            ParameterId::DnsHostName.spec_to_u16() == 0x070cu16,
            ParameterId::DnsDomainName.spec_to_u16() == 0x070du16,
            ParameterId::EndpointList.spec_to_u16() == 0x0900u16,
            ParameterId::EndpointListChange.spec_to_u16() == 0x0901u16,
            ParameterId::IdentifyEndpoint.spec_to_u16() == 0x0902u16,
            ParameterId::EndpointToUniverse.spec_to_u16() == 0x0903u16,
            ParameterId::EndpointMode.spec_to_u16() == 0x0904u16,
            ParameterId::EndpointLabel.spec_to_u16() == 0x0905u16,
            ParameterId::RdmTrafficEnable.spec_to_u16() == 0x0906u16,
            ParameterId::DiscoveryState.spec_to_u16() == 0x0907u16,
            ParameterId::BackgroundDiscovery.spec_to_u16() == 0x0908u16,
            ParameterId::EndpointTiming.spec_to_u16() == 0x0909u16,
            ParameterId::EndpointTimingDescription.spec_to_u16() == 0x090au16,
            ParameterId::EndpointResponders.spec_to_u16() == 0x090bu16,
            ParameterId::EndpointResponderListChange.spec_to_u16() == 0x090cu16,
            ParameterId::BindingControlFields.spec_to_u16() == 0x090du16,
            ParameterId::BackgroundQueuedStatusPolicy.spec_to_u16() == 0x090eu16,
            ParameterId::BackgroundQueuedStatusPolicyDescription.spec_to_u16() == 0x090fu16,
            ParameterId::ComponentScope.spec_to_u16() == 0x0800u16,
            ParameterId::SearchDomain.spec_to_u16() == 0x0801u16,
            ParameterId::TcpCommsStatus.spec_to_u16() == 0x0802u16,
            ParameterId::BrokerStatus.spec_to_u16() == 0x0803u16,
            ParameterId::spec_from_u16(0x0001u16) == ParameterId::DiscUniqueBranch,
            ParameterId::spec_from_u16(0x0002u16) == ParameterId::DiscMute,
            ParameterId::spec_from_u16(0x0003u16) == ParameterId::DiscUnMute,
            ParameterId::spec_from_u16(0x0010u16) == ParameterId::ProxiedDevices,
            ParameterId::spec_from_u16(0x0011u16) == ParameterId::ProxiedDeviceCount,
            ParameterId::spec_from_u16(0x0015u16) == ParameterId::CommsStatus,
            ParameterId::spec_from_u16(0x0020u16) == ParameterId::QueuedMessage,
            ParameterId::spec_from_u16(0x0030u16) == ParameterId::StatusMessages,
            ParameterId::spec_from_u16(0x0031u16) == ParameterId::StatusIdDescription,
            ParameterId::spec_from_u16(0x0032u16) == ParameterId::ClearStatusId,
            ParameterId::spec_from_u16(0x0033u16) == ParameterId::SubDeviceIdStatusReportThreshold,
            ParameterId::spec_from_u16(0x0050u16) == ParameterId::SupportedParameters,
            ParameterId::spec_from_u16(0x0051u16) == ParameterId::ParameterDescription,
            ParameterId::spec_from_u16(0x0060u16) == ParameterId::DeviceInfo,
            ParameterId::spec_from_u16(0x0070u16) == ParameterId::ProductDetailIdList,
            ParameterId::spec_from_u16(0x0080u16) == ParameterId::DeviceModelDescription,
            ParameterId::spec_from_u16(0x0081u16) == ParameterId::ManufacturerLabel,
            ParameterId::spec_from_u16(0x0082u16) == ParameterId::DeviceLabel,
            ParameterId::spec_from_u16(0x0090u16) == ParameterId::FactoryDefaults,
            ParameterId::spec_from_u16(0x00a0u16) == ParameterId::LanguageCapabilities,
            ParameterId::spec_from_u16(0x00b0u16) == ParameterId::Language,
            ParameterId::spec_from_u16(0x00c0u16) == ParameterId::SoftwareVersionLabel,
            ParameterId::spec_from_u16(0x00c1u16) == ParameterId::BootSoftwareVersionId,
            ParameterId::spec_from_u16(0x00c2u16) == ParameterId::BootSoftwareVersionLabel,
            ParameterId::spec_from_u16(0x00e0u16) == ParameterId::DmxPersonality,
            ParameterId::spec_from_u16(0x00e1u16) == ParameterId::DmxPersonalityDescription,
            ParameterId::spec_from_u16(0x00f0u16) == ParameterId::DmxStartAddress,
            ParameterId::spec_from_u16(0x0120u16) == ParameterId::SlotInfo,
            ParameterId::spec_from_u16(0x0121u16) == ParameterId::SlotDescription,
            ParameterId::spec_from_u16(0x0122u16) == ParameterId::DefaultSlotValue,
            ParameterId::spec_from_u16(0x0200u16) == ParameterId::SensorDefinition,
            ParameterId::spec_from_u16(0x0201u16) == ParameterId::SensorValue,
            ParameterId::spec_from_u16(0x0202u16) == ParameterId::RecordSensors,
            ParameterId::spec_from_u16(0x0400u16) == ParameterId::DeviceHours,
            ParameterId::spec_from_u16(0x0401u16) == ParameterId::LampHours,
            ParameterId::spec_from_u16(0x0402u16) == ParameterId::LampStrikes,
            ParameterId::spec_from_u16(0x0403u16) == ParameterId::LampState,
            ParameterId::spec_from_u16(0x0404u16) == ParameterId::LampOnMode,
            ParameterId::spec_from_u16(0x0405u16) == ParameterId::DevicePowerCycles,
            ParameterId::spec_from_u16(0x0500u16) == ParameterId::DisplayInvert,
            ParameterId::spec_from_u16(0x0501u16) == ParameterId::DisplayLevel,
            ParameterId::spec_from_u16(0x0600u16) == ParameterId::PanInvert,
            ParameterId::spec_from_u16(0x0601u16) == ParameterId::TiltInvert,
            ParameterId::spec_from_u16(0x0602u16) == ParameterId::PanTiltSwap,
            ParameterId::spec_from_u16(0x0603u16) == ParameterId::RealTimeClock,
            ParameterId::spec_from_u16(0x1000u16) == ParameterId::IdentifyDevice,
            ParameterId::spec_from_u16(0x1001u16) == ParameterId::ResetDevice,
            ParameterId::spec_from_u16(0x1010u16) == ParameterId::PowerState,
            ParameterId::spec_from_u16(0x1020u16) == ParameterId::PerformSelfTest,
            ParameterId::spec_from_u16(0x1021u16) == ParameterId::SelfTestDescription,
            ParameterId::spec_from_u16(0x1030u16) == ParameterId::CapturePreset,
            ParameterId::spec_from_u16(0x1031u16) == ParameterId::PresetPlayback,
            ParameterId::spec_from_u16(0x0140u16) == ParameterId::DmxBlockAddress,
            ParameterId::spec_from_u16(0x0141u16) == ParameterId::DmxFailMode,
            ParameterId::spec_from_u16(0x0142u16) == ParameterId::DmxStartupMode,
            ParameterId::spec_from_u16(0x0340u16) == ParameterId::DimmerInfo,
            ParameterId::spec_from_u16(0x0341u16) == ParameterId::MinimumLevel,
            ParameterId::spec_from_u16(0x0342u16) == ParameterId::MaximumLevel,
            ParameterId::spec_from_u16(0x0343u16) == ParameterId::Curve,
            ParameterId::spec_from_u16(0x0344u16) == ParameterId::CurveDescription,
            ParameterId::spec_from_u16(0x0345u16) == ParameterId::OutputResponseTime,
            ParameterId::spec_from_u16(0x0346u16) == ParameterId::OutputResponseTimeDescription,
            ParameterId::spec_from_u16(0x0347u16) == ParameterId::ModulationFrequency,
            ParameterId::spec_from_u16(0x0348u16) == ParameterId::ModulationFrequencyDescription,
            ParameterId::spec_from_u16(0x0440u16) == ParameterId::BurnIn,
            ParameterId::spec_from_u16(0x0640u16) == ParameterId::LockPin,
            ParameterId::spec_from_u16(0x0641u16) == ParameterId::LockState,
            ParameterId::spec_from_u16(0x0642u16) == ParameterId::LockStateDescription,
            ParameterId::spec_from_u16(0x1040u16) == ParameterId::IdentifyMode,
            ParameterId::spec_from_u16(0x1041u16) == ParameterId::PresetInfo,
            ParameterId::spec_from_u16(0x1042u16) == ParameterId::PresetStatus,
            ParameterId::spec_from_u16(0x1043u16) == ParameterId::PresetMergeMode,
            ParameterId::spec_from_u16(0x1044u16) == ParameterId::PowerOnSelfTest,
            ParameterId::spec_from_u16(0x0700u16) == ParameterId::ListInterfaces,
            ParameterId::spec_from_u16(0x0701u16) == ParameterId::InterfaceLabel,
            ParameterId::spec_from_u16(0x0702u16) == ParameterId::InterfaceHardwareAddressType1,
            ParameterId::spec_from_u16(0x0703u16) == ParameterId::IpV4DhcpMode,
            ParameterId::spec_from_u16(0x0704u16) == ParameterId::IpV4ZeroConfMode,
            ParameterId::spec_from_u16(0x0705u16) == ParameterId::IpV4CurrentAddress,
            ParameterId::spec_from_u16(0x0706u16) == ParameterId::IpV4StaticAddress,
            ParameterId::spec_from_u16(0x0707u16) == ParameterId::InterfaceRenewDhcp,
            ParameterId::spec_from_u16(0x0708u16) == ParameterId::InterfaceReleaseDhcp,
            ParameterId::spec_from_u16(0x0709u16) == ParameterId::InterfaceApplyConfiguration,
            ParameterId::spec_from_u16(0x070au16) == ParameterId::IpV4DefaultRoute,
            ParameterId::spec_from_u16(0x070bu16) == ParameterId::DnsIpV4NameServer,
            ParameterId::spec_from_u16(0x070cu16) == ParameterId::DnsHostName,
            ParameterId::spec_from_u16(0x070du16) == ParameterId::DnsDomainName,
            ParameterId::spec_from_u16(0x0900u16) == ParameterId::EndpointList,
            ParameterId::spec_from_u16(0x0901u16) == ParameterId::EndpointListChange,
            ParameterId::spec_from_u16(0x0902u16) == ParameterId::IdentifyEndpoint,
            ParameterId::spec_from_u16(0x0903u16) == ParameterId::EndpointToUniverse,
            ParameterId::spec_from_u16(0x0904u16) == ParameterId::EndpointMode,
            ParameterId::spec_from_u16(0x0905u16) == ParameterId::EndpointLabel,
            ParameterId::spec_from_u16(0x0906u16) == ParameterId::RdmTrafficEnable,
            ParameterId::spec_from_u16(0x0907u16) == ParameterId::DiscoveryState,
            ParameterId::spec_from_u16(0x0908u16) == ParameterId::BackgroundDiscovery,
            ParameterId::spec_from_u16(0x0909u16) == ParameterId::EndpointTiming,
            ParameterId::spec_from_u16(0x090au16) == ParameterId::EndpointTimingDescription,
            ParameterId::spec_from_u16(0x090bu16) == ParameterId::EndpointResponders,
            ParameterId::spec_from_u16(0x090cu16) == ParameterId::EndpointResponderListChange,
            ParameterId::spec_from_u16(0x090du16) == ParameterId::BindingControlFields,
            ParameterId::spec_from_u16(0x090eu16) == ParameterId::BackgroundQueuedStatusPolicy,
            ParameterId::spec_from_u16(0x090fu16) == ParameterId::BackgroundQueuedStatusPolicyDescription,
            ParameterId::spec_from_u16(0x0800u16) == ParameterId::ComponentScope,
            ParameterId::spec_from_u16(0x0801u16) == ParameterId::SearchDomain,
            ParameterId::spec_from_u16(0x0802u16) == ParameterId::TcpCommsStatus,
            ParameterId::spec_from_u16(0x0803u16) == ParameterId::BrokerStatus,
    {
    }

    /// The wire form of a variant is its code, big endian, and two bytes read as the variant that
    /// their code names.
    pub proof fn lemma_wire_code(x: ParameterId, hi: u8, lo: u8)
        ensures
            x.spec_wire() == seq![(x.spec_to_u16() / 0x100) as u8, (x.spec_to_u16() % 0x100) as u8],
            <ParameterId as FixedWire>::spec_read(seq![hi, lo]) == Some(ParameterId::spec_from_u16(((hi as int * 0x100 + lo as int) as u16))),
    {
    }
}

impl EndpointId {
    /// The wire codes of the named variants, as the standard assigns them, both ways.
    pub proof fn lemma_code_table()
        ensures
            EndpointId::Null.spec_to_u16() == 0x0000u16,
            EndpointId::Broadcast.spec_to_u16() == 0xffffu16,
            EndpointId::spec_from_u16(0x0000u16) == EndpointId::Null,
            EndpointId::spec_from_u16(0xffffu16) == EndpointId::Broadcast,
    {
    }

    /// The wire form of a variant is its code, big endian, and two bytes read as the variant that
    /// their code names.
    pub proof fn lemma_wire_code(x: EndpointId, hi: u8, lo: u8)
        ensures
            x.spec_wire() == seq![(x.spec_to_u16() / 0x100) as u8, (x.spec_to_u16() % 0x100) as u8],
            <EndpointId as FixedWire>::spec_read(seq![hi, lo]) == Some(EndpointId::spec_from_u16(((hi as int * 0x100 + lo as int) as u16))),
    {
    }
}

impl DiscoveryState {
    /// The wire codes of the named variants, as the standard assigns them, both ways.
    pub proof fn lemma_code_table()
        ensures
            DiscoveryState::Incomplete.spec_to_u8() == 0x00u8,
            DiscoveryState::Incremental.spec_to_u8() == 0x01u8,
            DiscoveryState::Full.spec_to_u8() == 0x02u8,
            DiscoveryState::NotActive.spec_to_u8() == 0x04u8,
            DiscoveryState::spec_try_from_u8(0x00u8) == Ok::<DiscoveryState, RdmError>(DiscoveryState::Incomplete),
            DiscoveryState::spec_try_from_u8(0x01u8) == Ok::<DiscoveryState, RdmError>(DiscoveryState::Incremental),
            DiscoveryState::spec_try_from_u8(0x02u8) == Ok::<DiscoveryState, RdmError>(DiscoveryState::Full),
            DiscoveryState::spec_try_from_u8(0x04u8) == Ok::<DiscoveryState, RdmError>(DiscoveryState::NotActive),
    {
    }

    /// The wire form of a variant is its code, and one byte reads as the variant that its code names.
    pub proof fn lemma_wire_code(x: DiscoveryState, b: u8)
        ensures
            x.spec_wire() == seq![x.spec_to_u8()],
            (<DiscoveryState as FixedWire>::spec_read(seq![b]) is Some) == (DiscoveryState::spec_try_from_u8(b) is Ok),
            <DiscoveryState as FixedWire>::spec_read(seq![b]) matches Some(v) ==> DiscoveryState::spec_try_from_u8(b) == Ok::<DiscoveryState, RdmError>(v),
    {
    }
}

impl DiscoveryCountStatus {
    /// The wire codes of the named variants, as the standard assigns them, both ways.
    pub proof fn lemma_code_table()
        ensures
            DiscoveryCountStatus::Incomplete.spec_to_u16() == 0x0000u16,
            DiscoveryCountStatus::Unknown.spec_to_u16() == 0xffffu16,
            DiscoveryCountStatus::spec_from_u16(0x0000u16) == DiscoveryCountStatus::Incomplete,
            DiscoveryCountStatus::spec_from_u16(0xffffu16) == DiscoveryCountStatus::Unknown,
    {
    }

    /// The wire form of a variant is its code, big endian, and two bytes read as the variant that
    /// their code names.
    pub proof fn lemma_wire_code(x: DiscoveryCountStatus, hi: u8, lo: u8)
        ensures
            x.spec_wire() == seq![(x.spec_to_u16() / 0x100) as u8, (x.spec_to_u16() % 0x100) as u8],
            <DiscoveryCountStatus as FixedWire>::spec_read(seq![hi, lo]) == Some(DiscoveryCountStatus::spec_from_u16(((hi as int * 0x100 + lo as int) as u16))),
    {
    }
}

impl EndpointMode {
    /// The wire codes of the named variants, as the standard assigns them, both ways.
    pub proof fn lemma_code_table()
        ensures
            EndpointMode::Disabled.spec_to_u8() == 0x00u8,
            EndpointMode::Input.spec_to_u8() == 0x01u8,
            EndpointMode::Output.spec_to_u8() == 0x02u8,
            EndpointMode::spec_try_from_u8(0x00u8) == Ok::<EndpointMode, RdmError>(EndpointMode::Disabled),
            EndpointMode::spec_try_from_u8(0x01u8) == Ok::<EndpointMode, RdmError>(EndpointMode::Input),
            EndpointMode::spec_try_from_u8(0x02u8) == Ok::<EndpointMode, RdmError>(EndpointMode::Output),
    {
    }

    /// The wire form of a variant is its code, and one byte reads as the variant that its code names.
    pub proof fn lemma_wire_code(x: EndpointMode, b: u8)
        ensures
            x.spec_wire() == seq![x.spec_to_u8()],
            (<EndpointMode as FixedWire>::spec_read(seq![b]) is Some) == (EndpointMode::spec_try_from_u8(b) is Ok),
            <EndpointMode as FixedWire>::spec_read(seq![b]) matches Some(v) ==> EndpointMode::spec_try_from_u8(b) == Ok::<EndpointMode, RdmError>(v),
    {
    }
}

impl EndpointType {
    /// The wire codes of the named variants, as the standard assigns them, both ways.
    pub proof fn lemma_code_table()
        ensures
            EndpointType::Virtual.spec_to_u8() == 0x00u8,
            EndpointType::Physical.spec_to_u8() == 0x01u8,
            EndpointType::spec_try_from_u8(0x00u8) == Ok::<EndpointType, RdmError>(EndpointType::Virtual),
            EndpointType::spec_try_from_u8(0x01u8) == Ok::<EndpointType, RdmError>(EndpointType::Physical),
    {
    }

    /// The wire form of a variant is its code, and one byte reads as the variant that its code names.
    pub proof fn lemma_wire_code(x: EndpointType, b: u8)
        ensures
            x.spec_wire() == seq![x.spec_to_u8()],
            (<EndpointType as FixedWire>::spec_read(seq![b]) is Some) == (EndpointType::spec_try_from_u8(b) is Ok),
            <EndpointType as FixedWire>::spec_read(seq![b]) matches Some(v) ==> EndpointType::spec_try_from_u8(b) == Ok::<EndpointType, RdmError>(v),
    {
    }
}

impl DhcpMode {
    /// The wire codes of the named variants, as the standard assigns them, both ways.
    pub proof fn lemma_code_table()
        ensures
            DhcpMode::Inactive.spec_to_u8() == 0x00u8,
            DhcpMode::Active.spec_to_u8() == 0x01u8,
            DhcpMode::Unknown.spec_to_u8() == 0x02u8,
            DhcpMode::spec_try_from_u8(0x00u8) == Ok::<DhcpMode, RdmError>(DhcpMode::Inactive),
            DhcpMode::spec_try_from_u8(0x01u8) == Ok::<DhcpMode, RdmError>(DhcpMode::Active),
            DhcpMode::spec_try_from_u8(0x02u8) == Ok::<DhcpMode, RdmError>(DhcpMode::Unknown),
    {
    }

    /// The wire form of a variant is its code, and one byte reads as the variant that its code names.
    pub proof fn lemma_wire_code(x: DhcpMode, b: u8)
        ensures
            x.spec_wire() == seq![x.spec_to_u8()],
            (<DhcpMode as FixedWire>::spec_read(seq![b]) is Some) == (DhcpMode::spec_try_from_u8(b) is Ok),
            <DhcpMode as FixedWire>::spec_read(seq![b]) matches Some(v) ==> DhcpMode::spec_try_from_u8(b) == Ok::<DhcpMode, RdmError>(v),
    {
    }
}

impl HardwareType {
    /// The wire codes of the named variants, as the standard assigns them, both ways.
    pub proof fn lemma_code_table()
        ensures
            HardwareType::Ethernet.spec_to_u16() == 0x0001u16,
            HardwareType::ExperimentEthernet.spec_to_u16() == 0x0002u16,
            HardwareType::AmateurRadioAx25.spec_to_u16() == 0x0003u16,
            HardwareType::ProteonPronetTokenRing.spec_to_u16() == 0x0004u16,
            HardwareType::Chaos.spec_to_u16() == 0x0005u16,
            HardwareType::Ieee802Networks.spec_to_u16() == 0x0006u16,
            HardwareType::Arcnet.spec_to_u16() == 0x0007u16,
            HardwareType::Hyperchannel.spec_to_u16() == 0x0008u16,
            HardwareType::Lanstar.spec_to_u16() == 0x0009u16,
            HardwareType::AutonetShortAddress.spec_to_u16() == 0x000au16,
            HardwareType::LocalTalk.spec_to_u16() == 0x000bu16,
            HardwareType::LocalNet.spec_to_u16() == 0x000cu16,
            HardwareType::UltraLink.spec_to_u16() == 0x000du16,
            HardwareType::SMDS.spec_to_u16() == 0x000eu16,
            HardwareType::FrameRelay.spec_to_u16() == 0x000fu16,
            HardwareType::ATM.spec_to_u16() == 0x0010u16,
            HardwareType::HDLC.spec_to_u16() == 0x0011u16,
            HardwareType::FibreChannel.spec_to_u16() == 0x0012u16,
            HardwareType::ATMLogical.spec_to_u16() == 0x0013u16,
            HardwareType::SerialLine.spec_to_u16() == 0x0014u16,
            HardwareType::ATMPhysical.spec_to_u16() == 0x0015u16,
            HardwareType::MilStd188220.spec_to_u16() == 0x0016u16,
            HardwareType::Metricom.spec_to_u16() == 0x0017u16,
            HardwareType::IEEE1394.spec_to_u16() == 0x0018u16,
            HardwareType::MAPOS.spec_to_u16() == 0x0019u16,
            HardwareType::Twinaxial.spec_to_u16() == 0x001au16,
            HardwareType::EUI64.spec_to_u16() == 0x001bu16,
            HardwareType::HIPARP.spec_to_u16() == 0x001cu16,
            HardwareType::IPAndARPOverISO.spec_to_u16() == 0x001du16,
            HardwareType::ARPSec.spec_to_u16() == 0x001eu16,
            HardwareType::IPsecTunnel.spec_to_u16() == 0x001fu16,
            HardwareType::InfiniBand.spec_to_u16() == 0x0020u16,
            HardwareType::TIA102.spec_to_u16() == 0x0021u16,
            HardwareType::Wiegand.spec_to_u16() == 0x0022u16,
            HardwareType::PureIP.spec_to_u16() == 0x0023u16,
            HardwareType::HwExp1.spec_to_u16() == 0x0024u16,
            HardwareType::Hf1.spec_to_u16() == 0x0025u16,
            HardwareType::UnifiedBus.spec_to_u16() == 0x0026u16,
            HardwareType::HwExp2.spec_to_u16() == 0x0100u16,
            HardwareType::AEthernet.spec_to_u16() == 0x0101u16,
            HardwareType::spec_from_u16(0x0001u16) == HardwareType::Ethernet,
            HardwareType::spec_from_u16(0x0002u16) == HardwareType::ExperimentEthernet,
            HardwareType::spec_from_u16(0x0003u16) == HardwareType::AmateurRadioAx25,
            HardwareType::spec_from_u16(0x0004u16) == HardwareType::ProteonPronetTokenRing,
            HardwareType::spec_from_u16(0x0005u16) == HardwareType::Chaos,
            HardwareType::spec_from_u16(0x0006u16) == HardwareType::Ieee802Networks,
            HardwareType::spec_from_u16(0x0007u16) == HardwareType::Arcnet,
            HardwareType::spec_from_u16(0x0008u16) == HardwareType::Hyperchannel,
            HardwareType::spec_from_u16(0x0009u16) == HardwareType::Lanstar,
            HardwareType::spec_from_u16(0x000au16) == HardwareType::AutonetShortAddress,
            HardwareType::spec_from_u16(0x000bu16) == HardwareType::LocalTalk,
            HardwareType::spec_from_u16(0x000cu16) == HardwareType::LocalNet,
            HardwareType::spec_from_u16(0x000du16) == HardwareType::UltraLink,
            HardwareType::spec_from_u16(0x000eu16) == HardwareType::SMDS,
            HardwareType::spec_from_u16(0x000fu16) == HardwareType::FrameRelay,
            HardwareType::spec_from_u16(0x0010u16) == HardwareType::ATM,
            HardwareType::spec_from_u16(0x0011u16) == HardwareType::HDLC,
            HardwareType::spec_from_u16(0x0012u16) == HardwareType::FibreChannel,
            HardwareType::spec_from_u16(0x0013u16) == HardwareType::ATMLogical,
            HardwareType::spec_from_u16(0x0014u16) == HardwareType::SerialLine,
            HardwareType::spec_from_u16(0x0015u16) == HardwareType::ATMPhysical,
            HardwareType::spec_from_u16(0x0016u16) == HardwareType::MilStd188220,
            HardwareType::spec_from_u16(0x0017u16) == HardwareType::Metricom,
            HardwareType::spec_from_u16(0x0018u16) == HardwareType::IEEE1394,
            HardwareType::spec_from_u16(0x0019u16) == HardwareType::MAPOS,
            HardwareType::spec_from_u16(0x001au16) == HardwareType::Twinaxial,
            HardwareType::spec_from_u16(0x001bu16) == HardwareType::EUI64,
            HardwareType::spec_from_u16(0x001cu16) == HardwareType::HIPARP,
            HardwareType::spec_from_u16(0x001du16) == HardwareType::IPAndARPOverISO,
            HardwareType::spec_from_u16(0x001eu16) == HardwareType::ARPSec,
            HardwareType::spec_from_u16(0x001fu16) == HardwareType::IPsecTunnel,
            HardwareType::spec_from_u16(0x0020u16) == HardwareType::InfiniBand,
            HardwareType::spec_from_u16(0x0021u16) == HardwareType::TIA102,
            HardwareType::spec_from_u16(0x0022u16) == HardwareType::Wiegand,
            HardwareType::spec_from_u16(0x0023u16) == HardwareType::PureIP,
            HardwareType::spec_from_u16(0x0024u16) == HardwareType::HwExp1,
            HardwareType::spec_from_u16(0x0025u16) == HardwareType::Hf1,
            HardwareType::spec_from_u16(0x0026u16) == HardwareType::UnifiedBus,
            HardwareType::spec_from_u16(0x0100u16) == HardwareType::HwExp2,
            HardwareType::spec_from_u16(0x0101u16) == HardwareType::AEthernet,
    {
    }

    /// The wire form of a variant is its code, big endian, and two bytes read as the variant that
    /// their code names.
    pub proof fn lemma_wire_code(x: HardwareType, hi: u8, lo: u8)
        ensures
            x.spec_wire() == seq![(x.spec_to_u16() / 0x100) as u8, (x.spec_to_u16() % 0x100) as u8],
            <HardwareType as FixedWire>::spec_read(seq![hi, lo]) == Some(HardwareType::spec_from_u16(((hi as int * 0x100 + lo as int) as u16))),
    {
    }
}

impl IdentifyMode {
    /// The wire codes of the named variants, as the standard assigns them, both ways.
    pub proof fn lemma_code_table()
        ensures
            IdentifyMode::Quiet.spec_to_u8() == 0x00u8,
            IdentifyMode::Loud.spec_to_u8() == 0xffu8,
            IdentifyMode::spec_try_from_u8(0x00u8) == Ok::<IdentifyMode, RdmError>(IdentifyMode::Quiet),
            IdentifyMode::spec_try_from_u8(0xffu8) == Ok::<IdentifyMode, RdmError>(IdentifyMode::Loud),
    {
    }

    /// The wire form of a variant is its code, and one byte reads as the variant that its code names.
    pub proof fn lemma_wire_code(x: IdentifyMode, b: u8)
        ensures
            x.spec_wire() == seq![x.spec_to_u8()],
            (<IdentifyMode as FixedWire>::spec_read(seq![b]) is Some) == (IdentifyMode::spec_try_from_u8(b) is Ok),
            <IdentifyMode as FixedWire>::spec_read(seq![b]) matches Some(v) ==> IdentifyMode::spec_try_from_u8(b) == Ok::<IdentifyMode, RdmError>(v),
    {
    }
}

impl PresetProgrammed {
    /// The wire codes of the named variants, as the standard assigns them, both ways.
    pub proof fn lemma_code_table()
        ensures
            PresetProgrammed::NotProgrammed.spec_to_u8() == 0x00u8,
            PresetProgrammed::Programmed.spec_to_u8() == 0x01u8,
            PresetProgrammed::ReadOnly.spec_to_u8() == 0x02u8,
            PresetProgrammed::spec_try_from_u8(0x00u8) == Ok::<PresetProgrammed, RdmError>(PresetProgrammed::NotProgrammed),
            PresetProgrammed::spec_try_from_u8(0x01u8) == Ok::<PresetProgrammed, RdmError>(PresetProgrammed::Programmed),
            PresetProgrammed::spec_try_from_u8(0x02u8) == Ok::<PresetProgrammed, RdmError>(PresetProgrammed::ReadOnly),
    {
    }

    /// The wire form of a variant is its code, and one byte reads as the variant that its code names.
    pub proof fn lemma_wire_code(x: PresetProgrammed, b: u8)
        ensures
            x.spec_wire() == seq![x.spec_to_u8()],
            (<PresetProgrammed as FixedWire>::spec_read(seq![b]) is Some) == (PresetProgrammed::spec_try_from_u8(b) is Ok),
            <PresetProgrammed as FixedWire>::spec_read(seq![b]) matches Some(v) ==> PresetProgrammed::spec_try_from_u8(b) == Ok::<PresetProgrammed, RdmError>(v),
    {
    }
}

impl MergeMode {
    /// The wire codes of the named variants, as the standard assigns them, both ways.
    pub proof fn lemma_code_table()
        ensures
            MergeMode::Default.spec_to_u8() == 0x00u8,
            MergeMode::Htp.spec_to_u8() == 0x01u8,
            MergeMode::Ltp.spec_to_u8() == 0x02u8,
            MergeMode::DmxOnly.spec_to_u8() == 0x03u8,
            MergeMode::Other.spec_to_u8() == 0xffu8,
            MergeMode::spec_try_from_u8(0x00u8) == Ok::<MergeMode, RdmError>(MergeMode::Default),
            MergeMode::spec_try_from_u8(0x01u8) == Ok::<MergeMode, RdmError>(MergeMode::Htp),
            MergeMode::spec_try_from_u8(0x02u8) == Ok::<MergeMode, RdmError>(MergeMode::Ltp),
            MergeMode::spec_try_from_u8(0x03u8) == Ok::<MergeMode, RdmError>(MergeMode::DmxOnly),
            MergeMode::spec_try_from_u8(0xffu8) == Ok::<MergeMode, RdmError>(MergeMode::Other),
    {
    }

    /// The wire form of a variant is its code, and one byte reads as the variant that its code names.
    pub proof fn lemma_wire_code(x: MergeMode, b: u8)
        ensures
            x.spec_wire() == seq![x.spec_to_u8()],
            (<MergeMode as FixedWire>::spec_read(seq![b]) is Some) == (MergeMode::spec_try_from_u8(b) is Ok),
            <MergeMode as FixedWire>::spec_read(seq![b]) matches Some(v) ==> MergeMode::spec_try_from_u8(b) == Ok::<MergeMode, RdmError>(v),
    {
    }
}

impl SupportedTimes {
    /// The wire codes of the named variants, as the standard assigns them, both ways.
    pub proof fn lemma_code_table()
        ensures
            SupportedTimes::NotSupported.spec_to_u16() == 0xffffu16,
            SupportedTimes::spec_from_u16(0xffffu16) == SupportedTimes::NotSupported,
    {
    }

    /// The wire form of a variant is its code, big endian, and two bytes read as the variant that
    /// their code names.
    pub proof fn lemma_wire_code(x: SupportedTimes, hi: u8, lo: u8)
        ensures
            x.spec_wire() == seq![(x.spec_to_u16() / 0x100) as u8, (x.spec_to_u16() % 0x100) as u8],
            <SupportedTimes as FixedWire>::spec_read(seq![hi, lo]) == Some(SupportedTimes::spec_from_u16(((hi as int * 0x100 + lo as int) as u16))),
    {
    }
}

impl TimeMode {
    /// The wire codes of the named variants, as the standard assigns them, both ways.
    pub proof fn lemma_code_table()
        ensures
            TimeMode::Infinite.spec_to_u16() == 0xffffu16,
            TimeMode::spec_from_u16(0xffffu16) == TimeMode::Infinite,
    {
    }

    /// The wire form of a variant is its code, big endian, and two bytes read as the variant that
    /// their code names.
    pub proof fn lemma_wire_code(x: TimeMode, hi: u8, lo: u8)
        ensures
            x.spec_wire() == seq![(x.spec_to_u16() / 0x100) as u8, (x.spec_to_u16() % 0x100) as u8],
            <TimeMode as FixedWire>::spec_read(seq![hi, lo]) == Some(TimeMode::spec_from_u16(((hi as int * 0x100 + lo as int) as u16))),
    {
    }
}

impl StaticConfigType {
    /// The wire codes of the named variants, as the standard assigns them, both ways.
    pub proof fn lemma_code_table()
        ensures
            StaticConfigType::NoStaticConfig.spec_to_u8() == 0x00u8,
            StaticConfigType::StaticConfigIpv4.spec_to_u8() == 0x01u8,
            StaticConfigType::StaticConfigIpv6.spec_to_u8() == 0x02u8,
            StaticConfigType::spec_try_from_u8(0x00u8) == Ok::<StaticConfigType, RdmError>(StaticConfigType::NoStaticConfig),
            StaticConfigType::spec_try_from_u8(0x01u8) == Ok::<StaticConfigType, RdmError>(StaticConfigType::StaticConfigIpv4),
            StaticConfigType::spec_try_from_u8(0x02u8) == Ok::<StaticConfigType, RdmError>(StaticConfigType::StaticConfigIpv6),
    {
    }

    /// The wire form of a variant is its code, and one byte reads as the variant that its code names.
    pub proof fn lemma_wire_code(x: StaticConfigType, b: u8)
        ensures
            x.spec_wire() == seq![x.spec_to_u8()],
            (<StaticConfigType as FixedWire>::spec_read(seq![b]) is Some) == (StaticConfigType::spec_try_from_u8(b) is Ok),
            <StaticConfigType as FixedWire>::spec_read(seq![b]) matches Some(v) ==> StaticConfigType::spec_try_from_u8(b) == Ok::<StaticConfigType, RdmError>(v),
    {
    }
}

impl BrokerState {
    /// The wire codes of the named variants, as the standard assigns them, both ways.
    pub proof fn lemma_code_table()
        ensures
            BrokerState::Disabled.spec_to_u8() == 0x00u8,
            BrokerState::Active.spec_to_u8() == 0x01u8,
            BrokerState::Standby.spec_to_u8() == 0x02u8,
            BrokerState::spec_try_from_u8(0x00u8) == Ok::<BrokerState, RdmError>(BrokerState::Disabled),
            BrokerState::spec_try_from_u8(0x01u8) == Ok::<BrokerState, RdmError>(BrokerState::Active),
            BrokerState::spec_try_from_u8(0x02u8) == Ok::<BrokerState, RdmError>(BrokerState::Standby),
    {
    }

    /// The wire form of a variant is its code, and one byte reads as the variant that its code names.
    pub proof fn lemma_wire_code(x: BrokerState, b: u8)
        ensures
            x.spec_wire() == seq![x.spec_to_u8()],
            (<BrokerState as FixedWire>::spec_read(seq![b]) is Some) == (BrokerState::spec_try_from_u8(b) is Ok),
            <BrokerState as FixedWire>::spec_read(seq![b]) matches Some(v) ==> BrokerState::spec_try_from_u8(b) == Ok::<BrokerState, RdmError>(v),
    {
    }
}

impl ProductDetail {
    /// The wire codes of the named variants, as the standard assigns them, both ways.
    pub proof fn lemma_code_table()
        ensures
            ProductDetail::NotDeclared.spec_to_u16() == 0x0000u16,
            ProductDetail::Arc.spec_to_u16() == 0x0001u16,
            ProductDetail::MetalHalide.spec_to_u16() == 0x0002u16,
            ProductDetail::Incandescent.spec_to_u16() == 0x0003u16,
            ProductDetail::Led.spec_to_u16() == 0x0004u16,
            ProductDetail::Fluorescent.spec_to_u16() == 0x0005u16,
            ProductDetail::ColdCathode.spec_to_u16() == 0x0006u16,
            ProductDetail::ElectroLuminescent.spec_to_u16() == 0x0007u16,
            ProductDetail::Laser.spec_to_u16() == 0x0008u16,
            ProductDetail::FlashTube.spec_to_u16() == 0x0009u16,
            ProductDetail::ColorScroller.spec_to_u16() == 0x0100u16,
            ProductDetail::ColorWheel.spec_to_u16() == 0x0101u16,
            ProductDetail::ColorChange.spec_to_u16() == 0x0102u16,
            ProductDetail::IrisDouser.spec_to_u16() == 0x0103u16,
            ProductDetail::DimmingShutter.spec_to_u16() == 0x0104u16,
            ProductDetail::ProfileShutter.spec_to_u16() == 0x0105u16,
            ProductDetail::BarnDoorShutter.spec_to_u16() == 0x0106u16,
            ProductDetail::EffectsDisc.spec_to_u16() == 0x0107u16,
            ProductDetail::GoboRotator.spec_to_u16() == 0x0108u16,
            ProductDetail::Video.spec_to_u16() == 0x0200u16,
            ProductDetail::Slide.spec_to_u16() == 0x0201u16,
            ProductDetail::Film.spec_to_u16() == 0x0202u16,
            ProductDetail::OilWheel.spec_to_u16() == 0x0203u16,
            ProductDetail::LcdGate.spec_to_u16() == 0x0204u16,
            ProductDetail::FoggerGlycol.spec_to_u16() == 0x0300u16,
            ProductDetail::FoggerMineralOil.spec_to_u16() == 0x0301u16,
            ProductDetail::FoggerWater.spec_to_u16() == 0x0302u16,
            ProductDetail::CO2.spec_to_u16() == 0x0303u16,
            ProductDetail::LN2.spec_to_u16() == 0x0304u16,
            ProductDetail::Bubble.spec_to_u16() == 0x0305u16,
            ProductDetail::FlamePropane.spec_to_u16() == 0x0306u16,
            ProductDetail::FlameOther.spec_to_u16() == 0x0307u16,
            ProductDetail::OlefactoryStimulator.spec_to_u16() == 0x0308u16,
            ProductDetail::Snow.spec_to_u16() == 0x0309u16,
            ProductDetail::WaterJet.spec_to_u16() == 0x030au16,
            ProductDetail::Wind.spec_to_u16() == 0x030bu16,
            ProductDetail::Confetti.spec_to_u16() == 0x030cu16,
            ProductDetail::Hazard.spec_to_u16() == 0x030du16,
            ProductDetail::PhaseControl.spec_to_u16() == 0x0400u16,
            ProductDetail::ReversePhaseControl.spec_to_u16() == 0x0401u16,
            ProductDetail::Sine.spec_to_u16() == 0x0402u16,
            ProductDetail::Pwm.spec_to_u16() == 0x0403u16,
            ProductDetail::Dc.spec_to_u16() == 0x0404u16,
            ProductDetail::HfBallast.spec_to_u16() == 0x0405u16,
            ProductDetail::HfHvNeonBallast.spec_to_u16() == 0x0406u16,
            ProductDetail::HfHvEl.spec_to_u16() == 0x0407u16,
            ProductDetail::MhrBallast.spec_to_u16() == 0x0408u16,
            ProductDetail::BitangleModulation.spec_to_u16() == 0x0409u16,
            ProductDetail::FrequencyModulation.spec_to_u16() == 0x040au16,
            ProductDetail::HighFrequency12V.spec_to_u16() == 0x040bu16,
            ProductDetail::RelayMechanical.spec_to_u16() == 0x040cu16,
            ProductDetail::RelayElectronic.spec_to_u16() == 0x040du16,
            ProductDetail::SwitchElectronic.spec_to_u16() == 0x040eu16,
            ProductDetail::Contactor.spec_to_u16() == 0x040fu16,
            ProductDetail::MirrorBallRotator.spec_to_u16() == 0x0500u16,
            ProductDetail::OtherRotator.spec_to_u16() == 0x0501u16,
            ProductDetail::KabukiDrop.spec_to_u16() == 0x0502u16,
            ProductDetail::Curtain.spec_to_u16() == 0x0503u16,
            ProductDetail::LineSet.spec_to_u16() == 0x0504u16,
            ProductDetail::MotorControl.spec_to_u16() == 0x0505u16,
            ProductDetail::DamperControl.spec_to_u16() == 0x0506u16,
            ProductDetail::Splitter.spec_to_u16() == 0x0600u16,
            ProductDetail::EthernetNode.spec_to_u16() == 0x0601u16,
            ProductDetail::Merge.spec_to_u16() == 0x0602u16,
            ProductDetail::DataPatch.spec_to_u16() == 0x0603u16,
            ProductDetail::WirelessLink.spec_to_u16() == 0x0604u16,
            ProductDetail::ProtocolConvertor.spec_to_u16() == 0x0701u16,
            ProductDetail::AnalogDemultiplex.spec_to_u16() == 0x0702u16,
            ProductDetail::AnalogMultiplex.spec_to_u16() == 0x0703u16,
            ProductDetail::SwitchPanel.spec_to_u16() == 0x0704u16,
            ProductDetail::Router.spec_to_u16() == 0x0800u16,
            ProductDetail::Fader.spec_to_u16() == 0x0801u16,
            ProductDetail::Mixer.spec_to_u16() == 0x0802u16,
            ProductDetail::ChangeOverManual.spec_to_u16() == 0x0900u16,
            ProductDetail::ChangeOverAuto.spec_to_u16() == 0x0901u16,
            ProductDetail::Test.spec_to_u16() == 0x0902u16,
            ProductDetail::GfiRcd.spec_to_u16() == 0x0a00u16,
            ProductDetail::Battery.spec_to_u16() == 0x0a01u16,
            ProductDetail::ControllableBreaker.spec_to_u16() == 0x0a02u16,
            ProductDetail::Other.spec_to_u16() == 0x7fffu16,
            ProductDetail::spec_from_u16(0x0000u16) == ProductDetail::NotDeclared,
            ProductDetail::spec_from_u16(0x0001u16) == ProductDetail::Arc,
            ProductDetail::spec_from_u16(0x0002u16) == ProductDetail::MetalHalide,
            ProductDetail::spec_from_u16(0x0003u16) == ProductDetail::Incandescent,
            ProductDetail::spec_from_u16(0x0004u16) == ProductDetail::Led,
            ProductDetail::spec_from_u16(0x0005u16) == ProductDetail::Fluorescent,
            ProductDetail::spec_from_u16(0x0006u16) == ProductDetail::ColdCathode,
            ProductDetail::spec_from_u16(0x0007u16) == ProductDetail::ElectroLuminescent,
            ProductDetail::spec_from_u16(0x0008u16) == ProductDetail::Laser,
            ProductDetail::spec_from_u16(0x0009u16) == ProductDetail::FlashTube,
            ProductDetail::spec_from_u16(0x0100u16) == ProductDetail::ColorScroller,
            ProductDetail::spec_from_u16(0x0101u16) == ProductDetail::ColorWheel,
            ProductDetail::spec_from_u16(0x0102u16) == ProductDetail::ColorChange,
            ProductDetail::spec_from_u16(0x0103u16) == ProductDetail::IrisDouser,
            ProductDetail::spec_from_u16(0x0104u16) == ProductDetail::DimmingShutter,
            ProductDetail::spec_from_u16(0x0105u16) == ProductDetail::ProfileShutter,
            ProductDetail::spec_from_u16(0x0106u16) == ProductDetail::BarnDoorShutter,
            ProductDetail::spec_from_u16(0x0107u16) == ProductDetail::EffectsDisc,
            ProductDetail::spec_from_u16(0x0108u16) == ProductDetail::GoboRotator,
            ProductDetail::spec_from_u16(0x0200u16) == ProductDetail::Video,
            ProductDetail::spec_from_u16(0x0201u16) == ProductDetail::Slide,
            ProductDetail::spec_from_u16(0x0202u16) == ProductDetail::Film,
            ProductDetail::spec_from_u16(0x0203u16) == ProductDetail::OilWheel,
            ProductDetail::spec_from_u16(0x0204u16) == ProductDetail::LcdGate,
            ProductDetail::spec_from_u16(0x0300u16) == ProductDetail::FoggerGlycol,
            ProductDetail::spec_from_u16(0x0301u16) == ProductDetail::FoggerMineralOil,
            ProductDetail::spec_from_u16(0x0302u16) == ProductDetail::FoggerWater,
            ProductDetail::spec_from_u16(0x0303u16) == ProductDetail::CO2,
            ProductDetail::spec_from_u16(0x0304u16) == ProductDetail::LN2,
            ProductDetail::spec_from_u16(0x0305u16) == ProductDetail::Bubble,
            ProductDetail::spec_from_u16(0x0306u16) == ProductDetail::FlamePropane,
            ProductDetail::spec_from_u16(0x0307u16) == ProductDetail::FlameOther,
            ProductDetail::spec_from_u16(0x0308u16) == ProductDetail::OlefactoryStimulator,
            ProductDetail::spec_from_u16(0x0309u16) == ProductDetail::Snow,
            ProductDetail::spec_from_u16(0x030au16) == ProductDetail::WaterJet,
            ProductDetail::spec_from_u16(0x030bu16) == ProductDetail::Wind,
            ProductDetail::spec_from_u16(0x030cu16) == ProductDetail::Confetti,
            ProductDetail::spec_from_u16(0x030du16) == ProductDetail::Hazard,
            ProductDetail::spec_from_u16(0x0400u16) == ProductDetail::PhaseControl,
            ProductDetail::spec_from_u16(0x0401u16) == ProductDetail::ReversePhaseControl,
            ProductDetail::spec_from_u16(0x0402u16) == ProductDetail::Sine,
            ProductDetail::spec_from_u16(0x0403u16) == ProductDetail::Pwm,
            ProductDetail::spec_from_u16(0x0404u16) == ProductDetail::Dc,
            ProductDetail::spec_from_u16(0x0405u16) == ProductDetail::HfBallast,
            ProductDetail::spec_from_u16(0x0406u16) == ProductDetail::HfHvNeonBallast,
            ProductDetail::spec_from_u16(0x0407u16) == ProductDetail::HfHvEl,
            ProductDetail::spec_from_u16(0x0408u16) == ProductDetail::MhrBallast,
            ProductDetail::spec_from_u16(0x0409u16) == ProductDetail::BitangleModulation,
            ProductDetail::spec_from_u16(0x040au16) == ProductDetail::FrequencyModulation,
            ProductDetail::spec_from_u16(0x040bu16) == ProductDetail::HighFrequency12V,
            ProductDetail::spec_from_u16(0x040cu16) == ProductDetail::RelayMechanical,
            ProductDetail::spec_from_u16(0x040du16) == ProductDetail::RelayElectronic,
            ProductDetail::spec_from_u16(0x040eu16) == ProductDetail::SwitchElectronic,
            ProductDetail::spec_from_u16(0x040fu16) == ProductDetail::Contactor,
            ProductDetail::spec_from_u16(0x0500u16) == ProductDetail::MirrorBallRotator,
            ProductDetail::spec_from_u16(0x0501u16) == ProductDetail::OtherRotator,
            ProductDetail::spec_from_u16(0x0502u16) == ProductDetail::KabukiDrop,
            ProductDetail::spec_from_u16(0x0503u16) == ProductDetail::Curtain,
            ProductDetail::spec_from_u16(0x0504u16) == ProductDetail::LineSet,
            ProductDetail::spec_from_u16(0x0505u16) == ProductDetail::MotorControl,
            ProductDetail::spec_from_u16(0x0506u16) == ProductDetail::DamperControl,
            ProductDetail::spec_from_u16(0x0600u16) == ProductDetail::Splitter,
            ProductDetail::spec_from_u16(0x0601u16) == ProductDetail::EthernetNode,
            ProductDetail::spec_from_u16(0x0602u16) == ProductDetail::Merge,
            ProductDetail::spec_from_u16(0x0603u16) == ProductDetail::DataPatch,
            ProductDetail::spec_from_u16(0x0604u16) == ProductDetail::WirelessLink,
            ProductDetail::spec_from_u16(0x0701u16) == ProductDetail::ProtocolConvertor,
            ProductDetail::spec_from_u16(0x0702u16) == ProductDetail::AnalogDemultiplex,
            ProductDetail::spec_from_u16(0x0703u16) == ProductDetail::AnalogMultiplex,
            ProductDetail::spec_from_u16(0x0704u16) == ProductDetail::SwitchPanel,
            ProductDetail::spec_from_u16(0x0800u16) == ProductDetail::Router,
            ProductDetail::spec_from_u16(0x0801u16) == ProductDetail::Fader,
            ProductDetail::spec_from_u16(0x0802u16) == ProductDetail::Mixer,
            ProductDetail::spec_from_u16(0x0900u16) == ProductDetail::ChangeOverManual,
            ProductDetail::spec_from_u16(0x0901u16) == ProductDetail::ChangeOverAuto,
            ProductDetail::spec_from_u16(0x0902u16) == ProductDetail::Test,
            ProductDetail::spec_from_u16(0x0a00u16) == ProductDetail::GfiRcd,
            ProductDetail::spec_from_u16(0x0a01u16) == ProductDetail::Battery,
            ProductDetail::spec_from_u16(0x0a02u16) == ProductDetail::ControllableBreaker,
            ProductDetail::spec_from_u16(0x7fffu16) == ProductDetail::Other,
    {
    }

    /// The wire form of a variant is its code, big endian, and two bytes read as the variant that
    /// their code names.
    pub proof fn lemma_wire_code(x: ProductDetail, hi: u8, lo: u8)
        ensures
            x.spec_wire() == seq![(x.spec_to_u16() / 0x100) as u8, (x.spec_to_u16() % 0x100) as u8],
            <ProductDetail as FixedWire>::spec_read(seq![hi, lo]) == Some(ProductDetail::spec_from_u16(((hi as int * 0x100 + lo as int) as u16))),
    {
    }
}

impl ImplementedCommandClass {
    /// The wire codes of the named variants, as the standard assigns them, both ways.
    pub proof fn lemma_code_table()
        ensures
            ImplementedCommandClass::Get.spec_to_u8() == 0x01u8,
            ImplementedCommandClass::SetOnly.spec_to_u8() == 0x02u8,
            ImplementedCommandClass::GetSet.spec_to_u8() == 0x03u8,
            ImplementedCommandClass::spec_try_from_u8(0x01u8) == Ok::<ImplementedCommandClass, RdmError>(ImplementedCommandClass::Get),
            ImplementedCommandClass::spec_try_from_u8(0x02u8) == Ok::<ImplementedCommandClass, RdmError>(ImplementedCommandClass::SetOnly),
            ImplementedCommandClass::spec_try_from_u8(0x03u8) == Ok::<ImplementedCommandClass, RdmError>(ImplementedCommandClass::GetSet),
    {
    }

    /// The wire form of a variant is its code, and one byte reads as the variant that its code names.
    pub proof fn lemma_wire_code(x: ImplementedCommandClass, b: u8)
        ensures
            x.spec_wire() == seq![x.spec_to_u8()],
            (<ImplementedCommandClass as FixedWire>::spec_read(seq![b]) is Some) == (ImplementedCommandClass::spec_try_from_u8(b) is Ok),
            <ImplementedCommandClass as FixedWire>::spec_read(seq![b]) matches Some(v) ==> ImplementedCommandClass::spec_try_from_u8(b) == Ok::<ImplementedCommandClass, RdmError>(v),
    {
    }
}

impl ParameterDataType {
    /// The wire codes of the named variants, as the standard assigns them, both ways.
    pub proof fn lemma_code_table()
        ensures
            ParameterDataType::NotDefined.spec_to_u8() == 0x00u8,
            ParameterDataType::BitField.spec_to_u8() == 0x01u8,
            ParameterDataType::Ascii.spec_to_u8() == 0x02u8,
            ParameterDataType::UnsignedByte.spec_to_u8() == 0x03u8,
            ParameterDataType::SignedByte.spec_to_u8() == 0x04u8,
            ParameterDataType::UnsignedWord.spec_to_u8() == 0x05u8,
            ParameterDataType::SignedWord.spec_to_u8() == 0x06u8,
            ParameterDataType::UnsignedDWord.spec_to_u8() == 0x07u8,
            ParameterDataType::SignedDWord.spec_to_u8() == 0x08u8,
            ParameterDataType::spec_try_from_u8(0x00u8) == Ok::<ParameterDataType, RdmError>(ParameterDataType::NotDefined),
            ParameterDataType::spec_try_from_u8(0x01u8) == Ok::<ParameterDataType, RdmError>(ParameterDataType::BitField),
            ParameterDataType::spec_try_from_u8(0x02u8) == Ok::<ParameterDataType, RdmError>(ParameterDataType::Ascii),
            ParameterDataType::spec_try_from_u8(0x03u8) == Ok::<ParameterDataType, RdmError>(ParameterDataType::UnsignedByte),
            ParameterDataType::spec_try_from_u8(0x04u8) == Ok::<ParameterDataType, RdmError>(ParameterDataType::SignedByte),
            ParameterDataType::spec_try_from_u8(0x05u8) == Ok::<ParameterDataType, RdmError>(ParameterDataType::UnsignedWord),
            ParameterDataType::spec_try_from_u8(0x06u8) == Ok::<ParameterDataType, RdmError>(ParameterDataType::SignedWord),
            ParameterDataType::spec_try_from_u8(0x07u8) == Ok::<ParameterDataType, RdmError>(ParameterDataType::UnsignedDWord),
            ParameterDataType::spec_try_from_u8(0x08u8) == Ok::<ParameterDataType, RdmError>(ParameterDataType::SignedDWord),
    {
    }

    /// The wire form of a variant is its code, and one byte reads as the variant that its code names.
    pub proof fn lemma_wire_code(x: ParameterDataType, b: u8)
        ensures
            x.spec_wire() == seq![x.spec_to_u8()],
            (<ParameterDataType as FixedWire>::spec_read(seq![b]) is Some) == (ParameterDataType::spec_try_from_u8(b) is Ok),
            <ParameterDataType as FixedWire>::spec_read(seq![b]) matches Some(v) ==> ParameterDataType::spec_try_from_u8(b) == Ok::<ParameterDataType, RdmError>(v),
    {
    }
}

impl StatusType {
    /// The wire codes of the named variants, as the standard assigns them, both ways.
    pub proof fn lemma_code_table()
        ensures
            StatusType::NoStatus.spec_to_u8() == 0x00u8,
            StatusType::GetLastMessage.spec_to_u8() == 0x01u8,
            StatusType::Advisory.spec_to_u8() == 0x02u8,
            StatusType::Warning.spec_to_u8() == 0x03u8,
            StatusType::Error.spec_to_u8() == 0x04u8,
            StatusType::AdvisoryCleared.spec_to_u8() == 0x12u8,
            StatusType::WarningCleared.spec_to_u8() == 0x13u8,
            StatusType::ErrorCleared.spec_to_u8() == 0x14u8,
            StatusType::spec_try_from_u8(0x00u8) == Ok::<StatusType, RdmError>(StatusType::NoStatus),
            StatusType::spec_try_from_u8(0x01u8) == Ok::<StatusType, RdmError>(StatusType::GetLastMessage),
            StatusType::spec_try_from_u8(0x02u8) == Ok::<StatusType, RdmError>(StatusType::Advisory),
            StatusType::spec_try_from_u8(0x03u8) == Ok::<StatusType, RdmError>(StatusType::Warning),
            StatusType::spec_try_from_u8(0x04u8) == Ok::<StatusType, RdmError>(StatusType::Error),
            StatusType::spec_try_from_u8(0x12u8) == Ok::<StatusType, RdmError>(StatusType::AdvisoryCleared),
            StatusType::spec_try_from_u8(0x13u8) == Ok::<StatusType, RdmError>(StatusType::WarningCleared),
            StatusType::spec_try_from_u8(0x14u8) == Ok::<StatusType, RdmError>(StatusType::ErrorCleared),
    {
    }

    /// The wire form of a variant is its code, and one byte reads as the variant that its code names.
    pub proof fn lemma_wire_code(x: StatusType, b: u8)
        ensures
            x.spec_wire() == seq![x.spec_to_u8()],
            (<StatusType as FixedWire>::spec_read(seq![b]) is Some) == (StatusType::spec_try_from_u8(b) is Ok),
            <StatusType as FixedWire>::spec_read(seq![b]) matches Some(v) ==> StatusType::spec_try_from_u8(b) == Ok::<StatusType, RdmError>(v),
    {
    }
}

impl ProductCategory {
    /// The wire codes of the named variants, as the standard assigns them, both ways.
    pub proof fn lemma_code_table()
        ensures
            ProductCategory::NotDeclared.spec_to_u16() == 0x0000u16,
            ProductCategory::Fixture.spec_to_u16() == 0x0100u16,
            ProductCategory::FixtureFixed.spec_to_u16() == 0x0101u16,
            ProductCategory::FixtureMovingYoke.spec_to_u16() == 0x0102u16,
            ProductCategory::FixtureMovingMirror.spec_to_u16() == 0x0103u16,
            ProductCategory::FixtureOther.spec_to_u16() == 0x01ffu16,
            ProductCategory::FixtureAccessory.spec_to_u16() == 0x0200u16,
            ProductCategory::FixtureAccessoryColor.spec_to_u16() == 0x0201u16,
            ProductCategory::FixtureAccessoryYoke.spec_to_u16() == 0x0202u16,
            ProductCategory::FixtureAccessoryMirror.spec_to_u16() == 0x0203u16,
            ProductCategory::FixtureAccessoryEffect.spec_to_u16() == 0x0204u16,
            ProductCategory::FixtureAccessoryBeam.spec_to_u16() == 0x0205u16,
            ProductCategory::AccessoryOther.spec_to_u16() == 0x02ffu16,
            ProductCategory::Projector.spec_to_u16() == 0x0300u16,
            ProductCategory::ProjectorFixed.spec_to_u16() == 0x0301u16,
            ProductCategory::ProjectorMovingYoke.spec_to_u16() == 0x0302u16,
            ProductCategory::ProjectorMovingMirror.spec_to_u16() == 0x0303u16,
            ProductCategory::ProjectorOther.spec_to_u16() == 0x03ffu16,
            ProductCategory::Atmospheric.spec_to_u16() == 0x0400u16,
            ProductCategory::AtmosphericEffect.spec_to_u16() == 0x0401u16,
            ProductCategory::AtmosphericPyro.spec_to_u16() == 0x0402u16,
            ProductCategory::AtmosphericOther.spec_to_u16() == 0x04ffu16,
            ProductCategory::Dimmer.spec_to_u16() == 0x0500u16,
            ProductCategory::DimmerACIncandescent.spec_to_u16() == 0x0501u16,
            ProductCategory::DimmerACFlourescent.spec_to_u16() == 0x0502u16,
            ProductCategory::DimmerACColdCathode.spec_to_u16() == 0x0503u16,
            ProductCategory::DimmerACNonDimModule.spec_to_u16() == 0x0504u16,
            ProductCategory::DimmerACLowVoltage.spec_to_u16() == 0x0505u16,
            ProductCategory::DimmerControllableAC.spec_to_u16() == 0x0506u16,
            ProductCategory::DimmerDCLevelOutput.spec_to_u16() == 0x0507u16,
            ProductCategory::DimmerDCPWMOutput.spec_to_u16() == 0x0508u16,
            ProductCategory::DimmerSpecialisedLED.spec_to_u16() == 0x0509u16,
            ProductCategory::DimmerOther.spec_to_u16() == 0x05ffu16,
            ProductCategory::Power.spec_to_u16() == 0x0600u16,
            ProductCategory::PowerControl.spec_to_u16() == 0x0601u16,
            ProductCategory::PowerSource.spec_to_u16() == 0x0602u16,
            ProductCategory::PowerOther.spec_to_u16() == 0x06ffu16,
            ProductCategory::Scenic.spec_to_u16() == 0x0700u16,
            ProductCategory::ScenicDrive.spec_to_u16() == 0x0701u16,
            ProductCategory::ScenicOther.spec_to_u16() == 0x07ffu16,
            ProductCategory::Data.spec_to_u16() == 0x0800u16,
            ProductCategory::DataDistribution.spec_to_u16() == 0x0801u16,
            ProductCategory::DataConversion.spec_to_u16() == 0x0802u16,
            ProductCategory::DataOther.spec_to_u16() == 0x08ffu16,
            ProductCategory::AV.spec_to_u16() == 0x0900u16,
            ProductCategory::AVAudio.spec_to_u16() == 0x0901u16,
            ProductCategory::AVVideo.spec_to_u16() == 0x0902u16,
            ProductCategory::AVOther.spec_to_u16() == 0x09ffu16,
            ProductCategory::Monitor.spec_to_u16() == 0x0a00u16,
            ProductCategory::MonitorACLinePower.spec_to_u16() == 0x0a01u16,
            ProductCategory::MonitorDCPower.spec_to_u16() == 0x0a02u16,
            ProductCategory::MonitorEnvironmental.spec_to_u16() == 0x0a03u16,
            ProductCategory::MonitorOther.spec_to_u16() == 0x0affu16,
            ProductCategory::Control.spec_to_u16() == 0x7000u16,
            ProductCategory::ControlController.spec_to_u16() == 0x7001u16,
            ProductCategory::ControlBackupDevice.spec_to_u16() == 0x7002u16,
            ProductCategory::ControlOther.spec_to_u16() == 0x70ffu16,
            ProductCategory::Test.spec_to_u16() == 0x7100u16,
            ProductCategory::TestEquipment.spec_to_u16() == 0x7101u16,
            ProductCategory::TestEquipmentOther.spec_to_u16() == 0x71ffu16,
            ProductCategory::Other.spec_to_u16() == 0x7fffu16,
            ProductCategory::spec_from_u16(0x0000u16) == ProductCategory::NotDeclared,
            ProductCategory::spec_from_u16(0x0100u16) == ProductCategory::Fixture,
            ProductCategory::spec_from_u16(0x0101u16) == ProductCategory::FixtureFixed,
            ProductCategory::spec_from_u16(0x0102u16) == ProductCategory::FixtureMovingYoke,
            ProductCategory::spec_from_u16(0x0103u16) == ProductCategory::FixtureMovingMirror,
            ProductCategory::spec_from_u16(0x01ffu16) == ProductCategory::FixtureOther,
            ProductCategory::spec_from_u16(0x0200u16) == ProductCategory::FixtureAccessory,
            ProductCategory::spec_from_u16(0x0201u16) == ProductCategory::FixtureAccessoryColor,
            ProductCategory::spec_from_u16(0x0202u16) == ProductCategory::FixtureAccessoryYoke,
            ProductCategory::spec_from_u16(0x0203u16) == ProductCategory::FixtureAccessoryMirror,
            ProductCategory::spec_from_u16(0x0204u16) == ProductCategory::FixtureAccessoryEffect,
            ProductCategory::spec_from_u16(0x0205u16) == ProductCategory::FixtureAccessoryBeam,
            ProductCategory::spec_from_u16(0x02ffu16) == ProductCategory::AccessoryOther,
            ProductCategory::spec_from_u16(0x0300u16) == ProductCategory::Projector,
            ProductCategory::spec_from_u16(0x0301u16) == ProductCategory::ProjectorFixed,
            ProductCategory::spec_from_u16(0x0302u16) == ProductCategory::ProjectorMovingYoke,
            ProductCategory::spec_from_u16(0x0303u16) == ProductCategory::ProjectorMovingMirror,
            ProductCategory::spec_from_u16(0x03ffu16) == ProductCategory::ProjectorOther,
            ProductCategory::spec_from_u16(0x0400u16) == ProductCategory::Atmospheric,
            ProductCategory::spec_from_u16(0x0401u16) == ProductCategory::AtmosphericEffect,
            ProductCategory::spec_from_u16(0x0402u16) == ProductCategory::AtmosphericPyro,
            ProductCategory::spec_from_u16(0x04ffu16) == ProductCategory::AtmosphericOther,
            ProductCategory::spec_from_u16(0x0500u16) == ProductCategory::Dimmer,
            ProductCategory::spec_from_u16(0x0501u16) == ProductCategory::DimmerACIncandescent,
            ProductCategory::spec_from_u16(0x0502u16) == ProductCategory::DimmerACFlourescent,
            ProductCategory::spec_from_u16(0x0503u16) == ProductCategory::DimmerACColdCathode,
            ProductCategory::spec_from_u16(0x0504u16) == ProductCategory::DimmerACNonDimModule,
            ProductCategory::spec_from_u16(0x0505u16) == ProductCategory::DimmerACLowVoltage,
            ProductCategory::spec_from_u16(0x0506u16) == ProductCategory::DimmerControllableAC,
            ProductCategory::spec_from_u16(0x0507u16) == ProductCategory::DimmerDCLevelOutput,
            ProductCategory::spec_from_u16(0x0508u16) == ProductCategory::DimmerDCPWMOutput,
            ProductCategory::spec_from_u16(0x0509u16) == ProductCategory::DimmerSpecialisedLED,
            ProductCategory::spec_from_u16(0x05ffu16) == ProductCategory::DimmerOther,
            ProductCategory::spec_from_u16(0x0600u16) == ProductCategory::Power,
            ProductCategory::spec_from_u16(0x0601u16) == ProductCategory::PowerControl,
            ProductCategory::spec_from_u16(0x0602u16) == ProductCategory::PowerSource,
            ProductCategory::spec_from_u16(0x06ffu16) == ProductCategory::PowerOther,
            ProductCategory::spec_from_u16(0x0700u16) == ProductCategory::Scenic,
            ProductCategory::spec_from_u16(0x0701u16) == ProductCategory::ScenicDrive,
            ProductCategory::spec_from_u16(0x07ffu16) == ProductCategory::ScenicOther,
            ProductCategory::spec_from_u16(0x0800u16) == ProductCategory::Data,
            ProductCategory::spec_from_u16(0x0801u16) == ProductCategory::DataDistribution,
            ProductCategory::spec_from_u16(0x0802u16) == ProductCategory::DataConversion,
            ProductCategory::spec_from_u16(0x08ffu16) == ProductCategory::DataOther,
            ProductCategory::spec_from_u16(0x0900u16) == ProductCategory::AV,
            ProductCategory::spec_from_u16(0x0901u16) == ProductCategory::AVAudio,
            ProductCategory::spec_from_u16(0x0902u16) == ProductCategory::AVVideo,
            ProductCategory::spec_from_u16(0x09ffu16) == ProductCategory::AVOther,
            ProductCategory::spec_from_u16(0x0a00u16) == ProductCategory::Monitor,
            ProductCategory::spec_from_u16(0x0a01u16) == ProductCategory::MonitorACLinePower,
            ProductCategory::spec_from_u16(0x0a02u16) == ProductCategory::MonitorDCPower,
            ProductCategory::spec_from_u16(0x0a03u16) == ProductCategory::MonitorEnvironmental,
            ProductCategory::spec_from_u16(0x0affu16) == ProductCategory::MonitorOther,
            ProductCategory::spec_from_u16(0x7000u16) == ProductCategory::Control,
            ProductCategory::spec_from_u16(0x7001u16) == ProductCategory::ControlController,
            ProductCategory::spec_from_u16(0x7002u16) == ProductCategory::ControlBackupDevice,
            ProductCategory::spec_from_u16(0x70ffu16) == ProductCategory::ControlOther,
            ProductCategory::spec_from_u16(0x7100u16) == ProductCategory::Test,
            ProductCategory::spec_from_u16(0x7101u16) == ProductCategory::TestEquipment,
            ProductCategory::spec_from_u16(0x71ffu16) == ProductCategory::TestEquipmentOther,
            ProductCategory::spec_from_u16(0x7fffu16) == ProductCategory::Other,
    {
    }

    /// The wire form of a variant is its code, big endian, and two bytes read as the variant that
    /// their code names.
    pub proof fn lemma_wire_code(x: ProductCategory, hi: u8, lo: u8)
        ensures
            x.spec_wire() == seq![(x.spec_to_u16() / 0x100) as u8, (x.spec_to_u16() % 0x100) as u8],
            <ProductCategory as FixedWire>::spec_read(seq![hi, lo]) == Some(ProductCategory::spec_from_u16(((hi as int * 0x100 + lo as int) as u16))),
    {
    }
}

impl LampState {
    /// The wire codes of the named variants, as the standard assigns them, both ways.
    pub proof fn lemma_code_table()
        ensures
            LampState::LampOff.spec_to_u8() == 0x00u8,
            LampState::LampOn.spec_to_u8() == 0x01u8,
            LampState::LampStrike.spec_to_u8() == 0x02u8,
            LampState::LampStandby.spec_to_u8() == 0x03u8,
            LampState::LampNotPresent.spec_to_u8() == 0x04u8,
            LampState::LampError.spec_to_u8() == 0x05u8,
            LampState::spec_try_from_u8(0x00u8) == Ok::<LampState, RdmError>(LampState::LampOff),
            LampState::spec_try_from_u8(0x01u8) == Ok::<LampState, RdmError>(LampState::LampOn),
            LampState::spec_try_from_u8(0x02u8) == Ok::<LampState, RdmError>(LampState::LampStrike),
            LampState::spec_try_from_u8(0x03u8) == Ok::<LampState, RdmError>(LampState::LampStandby),
            LampState::spec_try_from_u8(0x04u8) == Ok::<LampState, RdmError>(LampState::LampNotPresent),
            LampState::spec_try_from_u8(0x05u8) == Ok::<LampState, RdmError>(LampState::LampError),
    {
    }

    /// The wire form of a variant is its code, and one byte reads as the variant that its code names.
    pub proof fn lemma_wire_code(x: LampState, b: u8)
        ensures
            x.spec_wire() == seq![x.spec_to_u8()],
            (<LampState as FixedWire>::spec_read(seq![b]) is Some) == (LampState::spec_try_from_u8(b) is Ok),
            <LampState as FixedWire>::spec_read(seq![b]) matches Some(v) ==> LampState::spec_try_from_u8(b) == Ok::<LampState, RdmError>(v),
    {
    }
}

impl LampOnMode {
    /// The wire codes of the named variants, as the standard assigns them, both ways.
    pub proof fn lemma_code_table()
        ensures
            LampOnMode::OffMode.spec_to_u8() == 0x00u8,
            LampOnMode::DmxMode.spec_to_u8() == 0x01u8,
            LampOnMode::OnMode.spec_to_u8() == 0x02u8,
            LampOnMode::AfterCal.spec_to_u8() == 0x03u8,
            LampOnMode::spec_try_from_u8(0x00u8) == Ok::<LampOnMode, RdmError>(LampOnMode::OffMode),
            LampOnMode::spec_try_from_u8(0x01u8) == Ok::<LampOnMode, RdmError>(LampOnMode::DmxMode),
            LampOnMode::spec_try_from_u8(0x02u8) == Ok::<LampOnMode, RdmError>(LampOnMode::OnMode),
            LampOnMode::spec_try_from_u8(0x03u8) == Ok::<LampOnMode, RdmError>(LampOnMode::AfterCal),
    {
    }

    /// The wire form of a variant is its code, and one byte reads as the variant that its code names.
    pub proof fn lemma_wire_code(x: LampOnMode, b: u8)
        ensures
            x.spec_wire() == seq![x.spec_to_u8()],
            (<LampOnMode as FixedWire>::spec_read(seq![b]) is Some) == (LampOnMode::spec_try_from_u8(b) is Ok),
            <LampOnMode as FixedWire>::spec_read(seq![b]) matches Some(v) ==> LampOnMode::spec_try_from_u8(b) == Ok::<LampOnMode, RdmError>(v),
    {
    }
}

impl PowerState {
    /// The wire codes of the named variants, as the standard assigns them, both ways.
    pub proof fn lemma_code_table()
        ensures
            PowerState::FullOff.spec_to_u8() == 0x00u8,
            PowerState::Shutdown.spec_to_u8() == 0x01u8,
            PowerState::Standby.spec_to_u8() == 0x02u8,
            PowerState::Normal.spec_to_u8() == 0xffu8,
            PowerState::spec_try_from_u8(0x00u8) == Ok::<PowerState, RdmError>(PowerState::FullOff),
            PowerState::spec_try_from_u8(0x01u8) == Ok::<PowerState, RdmError>(PowerState::Shutdown),
            PowerState::spec_try_from_u8(0x02u8) == Ok::<PowerState, RdmError>(PowerState::Standby),
            PowerState::spec_try_from_u8(0xffu8) == Ok::<PowerState, RdmError>(PowerState::Normal),
    {
    }

    /// The wire form of a variant is its code, and one byte reads as the variant that its code names.
    pub proof fn lemma_wire_code(x: PowerState, b: u8)
        ensures
            x.spec_wire() == seq![x.spec_to_u8()],
            (<PowerState as FixedWire>::spec_read(seq![b]) is Some) == (PowerState::spec_try_from_u8(b) is Ok),
            <PowerState as FixedWire>::spec_read(seq![b]) matches Some(v) ==> PowerState::spec_try_from_u8(b) == Ok::<PowerState, RdmError>(v),
    {
    }
}

impl OnOffStates {
    /// The wire codes of the named variants, as the standard assigns them, both ways.
    pub proof fn lemma_code_table()
        ensures
            OnOffStates::Off.spec_to_u8() == 0x00u8,
            OnOffStates::On.spec_to_u8() == 0x01u8,
            OnOffStates::spec_try_from_u8(0x00u8) == Ok::<OnOffStates, RdmError>(OnOffStates::Off),
            OnOffStates::spec_try_from_u8(0x01u8) == Ok::<OnOffStates, RdmError>(OnOffStates::On),
    {
    }

    /// The wire form of a variant is its code, and one byte reads as the variant that its code names.
    pub proof fn lemma_wire_code(x: OnOffStates, b: u8)
        ensures
            x.spec_wire() == seq![x.spec_to_u8()],
            (<OnOffStates as FixedWire>::spec_read(seq![b]) is Some) == (OnOffStates::spec_try_from_u8(b) is Ok),
            <OnOffStates as FixedWire>::spec_read(seq![b]) matches Some(v) ==> OnOffStates::spec_try_from_u8(b) == Ok::<OnOffStates, RdmError>(v),
    {
    }
}

impl DisplayInvertMode {
    /// The wire codes of the named variants, as the standard assigns them, both ways.
    pub proof fn lemma_code_table()
        ensures
            DisplayInvertMode::Off.spec_to_u8() == 0x00u8,
            DisplayInvertMode::On.spec_to_u8() == 0x01u8,
            DisplayInvertMode::Auto.spec_to_u8() == 0x02u8,
            DisplayInvertMode::spec_try_from_u8(0x00u8) == Ok::<DisplayInvertMode, RdmError>(DisplayInvertMode::Off),
            DisplayInvertMode::spec_try_from_u8(0x01u8) == Ok::<DisplayInvertMode, RdmError>(DisplayInvertMode::On),
            DisplayInvertMode::spec_try_from_u8(0x02u8) == Ok::<DisplayInvertMode, RdmError>(DisplayInvertMode::Auto),
    {
    }

    /// The wire form of a variant is its code, and one byte reads as the variant that its code names.
    pub proof fn lemma_wire_code(x: DisplayInvertMode, b: u8)
        ensures
            x.spec_wire() == seq![x.spec_to_u8()],
            (<DisplayInvertMode as FixedWire>::spec_read(seq![b]) is Some) == (DisplayInvertMode::spec_try_from_u8(b) is Ok),
            <DisplayInvertMode as FixedWire>::spec_read(seq![b]) matches Some(v) ==> DisplayInvertMode::spec_try_from_u8(b) == Ok::<DisplayInvertMode, RdmError>(v),
    {
    }
}

impl ResetDeviceMode {
    /// The wire codes of the named variants, as the standard assigns them, both ways.
    pub proof fn lemma_code_table()
        ensures
            ResetDeviceMode::Warm.spec_to_u8() == 0x01u8,
            ResetDeviceMode::Cold.spec_to_u8() == 0xffu8,
            ResetDeviceMode::spec_try_from_u8(0x01u8) == Ok::<ResetDeviceMode, RdmError>(ResetDeviceMode::Warm),
            ResetDeviceMode::spec_try_from_u8(0xffu8) == Ok::<ResetDeviceMode, RdmError>(ResetDeviceMode::Cold),
    {
    }

    /// The wire form of a variant is its code, and one byte reads as the variant that its code names.
    pub proof fn lemma_wire_code(x: ResetDeviceMode, b: u8)
        ensures
            x.spec_wire() == seq![x.spec_to_u8()],
            (<ResetDeviceMode as FixedWire>::spec_read(seq![b]) is Some) == (ResetDeviceMode::spec_try_from_u8(b) is Ok),
            <ResetDeviceMode as FixedWire>::spec_read(seq![b]) matches Some(v) ==> ResetDeviceMode::spec_try_from_u8(b) == Ok::<ResetDeviceMode, RdmError>(v),
    {
    }
}

impl SelfTest {
    /// The wire codes of the named variants, as the standard assigns them, both ways.
    pub proof fn lemma_code_table()
        ensures
            SelfTest::Off.spec_to_u8() == 0x00u8,
            SelfTest::All.spec_to_u8() == 0xffu8,
            SelfTest::spec_from_u8(0x00u8) == SelfTest::Off,
            SelfTest::spec_from_u8(0xffu8) == SelfTest::All,
    {
    }

    /// The wire form of a variant is its code, and one byte reads as the variant that its code names.
    pub proof fn lemma_wire_code(x: SelfTest, b: u8)
        ensures
            x.spec_wire() == seq![x.spec_to_u8()],
            <SelfTest as FixedWire>::spec_read(seq![b]) == Some(SelfTest::spec_from_u8(b)),
    {
    }
}

impl PresetPlaybackMode {
    /// The wire codes of the named variants, as the standard assigns them, both ways.
    pub proof fn lemma_code_table()
        ensures
            PresetPlaybackMode::Off.spec_to_u16() == 0x0000u16,
            PresetPlaybackMode::All.spec_to_u16() == 0xffffu16,
            PresetPlaybackMode::spec_from_u16(0x0000u16) == PresetPlaybackMode::Off,
            PresetPlaybackMode::spec_from_u16(0xffffu16) == PresetPlaybackMode::All,
    {
    }

    /// The wire form of a variant is its code, big endian, and two bytes read as the variant that
    /// their code names.
    pub proof fn lemma_wire_code(x: PresetPlaybackMode, hi: u8, lo: u8)
        ensures
            x.spec_wire() == seq![(x.spec_to_u16() / 0x100) as u8, (x.spec_to_u16() % 0x100) as u8],
            <PresetPlaybackMode as FixedWire>::spec_read(seq![hi, lo]) == Some(PresetPlaybackMode::spec_from_u16(((hi as int * 0x100 + lo as int) as u16))),
    {
    }
}

impl SlotType {
    /// The wire codes of the named variants, as the standard assigns them, both ways.
    pub proof fn lemma_code_table()
        ensures
            SlotType::Primary.spec_to_u8() == 0x00u8,
            SlotType::SecondaryFine.spec_to_u8() == 0x01u8,
            SlotType::SecondaryTiming.spec_to_u8() == 0x02u8,
            SlotType::SecondarySpeed.spec_to_u8() == 0x03u8,
            SlotType::SecondaryControl.spec_to_u8() == 0x04u8,
            SlotType::SecondaryIndex.spec_to_u8() == 0x05u8,
            SlotType::SecondaryRotation.spec_to_u8() == 0x06u8,
            SlotType::SecondaryIndexRotate.spec_to_u8() == 0x07u8,
            SlotType::SecondaryUndefined.spec_to_u8() == 0xffu8,
            SlotType::spec_from_u8(0x00u8) == SlotType::Primary,
            SlotType::spec_from_u8(0x01u8) == SlotType::SecondaryFine,
            SlotType::spec_from_u8(0x02u8) == SlotType::SecondaryTiming,
            SlotType::spec_from_u8(0x03u8) == SlotType::SecondarySpeed,
            SlotType::spec_from_u8(0x04u8) == SlotType::SecondaryControl,
            SlotType::spec_from_u8(0x05u8) == SlotType::SecondaryIndex,
            SlotType::spec_from_u8(0x06u8) == SlotType::SecondaryRotation,
            SlotType::spec_from_u8(0x07u8) == SlotType::SecondaryIndexRotate,
            SlotType::spec_from_u8(0xffu8) == SlotType::SecondaryUndefined,
    {
    }

    /// The wire form of a variant is its code, and one byte reads as the variant that its code names.
    pub proof fn lemma_wire_code(x: SlotType, b: u8)
        ensures
            x.spec_wire() == seq![x.spec_to_u8()],
            <SlotType as FixedWire>::spec_read(seq![b]) == Some(SlotType::spec_from_u8(b)),
    {
    }
}

impl SlotIdDefinition {
    /// The wire codes of the named variants, as the standard assigns them, both ways.
    pub proof fn lemma_code_table()
        ensures
            SlotIdDefinition::Intensity.spec_to_u16() == 0x0001u16,
            SlotIdDefinition::IntensityMaster.spec_to_u16() == 0x0002u16,
            SlotIdDefinition::Pan.spec_to_u16() == 0x0101u16,
            SlotIdDefinition::Tilt.spec_to_u16() == 0x0102u16,
            SlotIdDefinition::ColorWheel.spec_to_u16() == 0x0201u16,
            SlotIdDefinition::ColorSubCyan.spec_to_u16() == 0x0202u16,
            SlotIdDefinition::ColorSubYellow.spec_to_u16() == 0x0203u16,
            SlotIdDefinition::ColorSubMagenta.spec_to_u16() == 0x0204u16,
            SlotIdDefinition::ColorAddRed.spec_to_u16() == 0x0205u16,
            SlotIdDefinition::ColorAddGreen.spec_to_u16() == 0x0206u16,
            SlotIdDefinition::ColorAddBlue.spec_to_u16() == 0x0207u16,
            SlotIdDefinition::ColorCorrection.spec_to_u16() == 0x0208u16,
            SlotIdDefinition::ColorScroll.spec_to_u16() == 0x0209u16,
            SlotIdDefinition::ColorSemaphore.spec_to_u16() == 0x0210u16,
            SlotIdDefinition::StaticGoboWheel.spec_to_u16() == 0x0301u16,
            SlotIdDefinition::RotoGoboWheel.spec_to_u16() == 0x0302u16,
            SlotIdDefinition::PrismWheel.spec_to_u16() == 0x0303u16,
            SlotIdDefinition::EffectsWheel.spec_to_u16() == 0x0304u16,
            SlotIdDefinition::BeamSizeIris.spec_to_u16() == 0x0401u16,
            SlotIdDefinition::Edge.spec_to_u16() == 0x0402u16,
            SlotIdDefinition::Frost.spec_to_u16() == 0x0403u16,
            SlotIdDefinition::Strobe.spec_to_u16() == 0x0404u16,
            SlotIdDefinition::Zoom.spec_to_u16() == 0x0405u16,
            SlotIdDefinition::FramingShutter.spec_to_u16() == 0x0406u16,
            SlotIdDefinition::ShutterRotate.spec_to_u16() == 0x0407u16,
            SlotIdDefinition::Douser.spec_to_u16() == 0x0408u16,
            SlotIdDefinition::BarnDoor.spec_to_u16() == 0x0409u16,
            SlotIdDefinition::LampControl.spec_to_u16() == 0x0501u16,
            SlotIdDefinition::FixtureControl.spec_to_u16() == 0x0502u16,
            SlotIdDefinition::FixtureSpeed.spec_to_u16() == 0x0503u16,
            SlotIdDefinition::Macro.spec_to_u16() == 0x0504u16,
            SlotIdDefinition::Undefined.spec_to_u16() == 0xffffu16,
            SlotIdDefinition::spec_from_u16(0x0001u16) == SlotIdDefinition::Intensity,
            SlotIdDefinition::spec_from_u16(0x0002u16) == SlotIdDefinition::IntensityMaster,
            SlotIdDefinition::spec_from_u16(0x0101u16) == SlotIdDefinition::Pan,
            SlotIdDefinition::spec_from_u16(0x0102u16) == SlotIdDefinition::Tilt,
            SlotIdDefinition::spec_from_u16(0x0201u16) == SlotIdDefinition::ColorWheel,
            SlotIdDefinition::spec_from_u16(0x0202u16) == SlotIdDefinition::ColorSubCyan,
            SlotIdDefinition::spec_from_u16(0x0203u16) == SlotIdDefinition::ColorSubYellow,
            SlotIdDefinition::spec_from_u16(0x0204u16) == SlotIdDefinition::ColorSubMagenta,
            SlotIdDefinition::spec_from_u16(0x0205u16) == SlotIdDefinition::ColorAddRed,
            SlotIdDefinition::spec_from_u16(0x0206u16) == SlotIdDefinition::ColorAddGreen,
            SlotIdDefinition::spec_from_u16(0x0207u16) == SlotIdDefinition::ColorAddBlue,
            SlotIdDefinition::spec_from_u16(0x0208u16) == SlotIdDefinition::ColorCorrection,
            SlotIdDefinition::spec_from_u16(0x0209u16) == SlotIdDefinition::ColorScroll,
            SlotIdDefinition::spec_from_u16(0x0210u16) == SlotIdDefinition::ColorSemaphore,
            SlotIdDefinition::spec_from_u16(0x0301u16) == SlotIdDefinition::StaticGoboWheel,
            SlotIdDefinition::spec_from_u16(0x0302u16) == SlotIdDefinition::RotoGoboWheel,
            SlotIdDefinition::spec_from_u16(0x0303u16) == SlotIdDefinition::PrismWheel,
            SlotIdDefinition::spec_from_u16(0x0304u16) == SlotIdDefinition::EffectsWheel,
            SlotIdDefinition::spec_from_u16(0x0401u16) == SlotIdDefinition::BeamSizeIris,
            SlotIdDefinition::spec_from_u16(0x0402u16) == SlotIdDefinition::Edge,
            SlotIdDefinition::spec_from_u16(0x0403u16) == SlotIdDefinition::Frost,
            SlotIdDefinition::spec_from_u16(0x0404u16) == SlotIdDefinition::Strobe,
            SlotIdDefinition::spec_from_u16(0x0405u16) == SlotIdDefinition::Zoom,
            SlotIdDefinition::spec_from_u16(0x0406u16) == SlotIdDefinition::FramingShutter,
            SlotIdDefinition::spec_from_u16(0x0407u16) == SlotIdDefinition::ShutterRotate,
            SlotIdDefinition::spec_from_u16(0x0408u16) == SlotIdDefinition::Douser,
            SlotIdDefinition::spec_from_u16(0x0409u16) == SlotIdDefinition::BarnDoor,
            SlotIdDefinition::spec_from_u16(0x0501u16) == SlotIdDefinition::LampControl,
            SlotIdDefinition::spec_from_u16(0x0502u16) == SlotIdDefinition::FixtureControl,
            SlotIdDefinition::spec_from_u16(0x0503u16) == SlotIdDefinition::FixtureSpeed,
            SlotIdDefinition::spec_from_u16(0x0504u16) == SlotIdDefinition::Macro,
            SlotIdDefinition::spec_from_u16(0xffffu16) == SlotIdDefinition::Undefined,
    {
    }

    /// The wire form of a variant is its code, big endian, and two bytes read as the variant that
    /// their code names.
    pub proof fn lemma_wire_code(x: SlotIdDefinition, hi: u8, lo: u8)
        ensures
            x.spec_wire() == seq![(x.spec_to_u16() / 0x100) as u8, (x.spec_to_u16() % 0x100) as u8],
            <SlotIdDefinition as FixedWire>::spec_read(seq![hi, lo]) == Some(SlotIdDefinition::spec_from_u16(((hi as int * 0x100 + lo as int) as u16))),
    {
    }
}

impl SensorType {
    /// The wire codes of the named variants, as the standard assigns them, both ways.
    pub proof fn lemma_code_table()
        ensures
            SensorType::Temperature.spec_to_u8() == 0x00u8,
            SensorType::Voltage.spec_to_u8() == 0x01u8,
            SensorType::Current.spec_to_u8() == 0x02u8,
            SensorType::Frequency.spec_to_u8() == 0x03u8,
            SensorType::Resistance.spec_to_u8() == 0x04u8,
            SensorType::Power.spec_to_u8() == 0x05u8,
            SensorType::Mass.spec_to_u8() == 0x06u8,
            SensorType::Length.spec_to_u8() == 0x07u8,
            SensorType::Area.spec_to_u8() == 0x08u8,
            SensorType::Volume.spec_to_u8() == 0x09u8,
            SensorType::Density.spec_to_u8() == 0x0au8,
            SensorType::Velocity.spec_to_u8() == 0x0bu8,
            SensorType::Acceleration.spec_to_u8() == 0x0cu8,
            SensorType::Force.spec_to_u8() == 0x0du8,
            SensorType::Energy.spec_to_u8() == 0x0eu8,
            SensorType::Pressure.spec_to_u8() == 0x0fu8,
            SensorType::Time.spec_to_u8() == 0x10u8,
            SensorType::Angle.spec_to_u8() == 0x11u8,
            SensorType::PositionX.spec_to_u8() == 0x12u8,
            SensorType::PositionY.spec_to_u8() == 0x13u8,
            SensorType::PositionZ.spec_to_u8() == 0x14u8,
            SensorType::AngularVelocity.spec_to_u8() == 0x15u8,
            SensorType::LuminousIntensity.spec_to_u8() == 0x16u8,
            SensorType::LuminousFlux.spec_to_u8() == 0x17u8,
            SensorType::Illuminance.spec_to_u8() == 0x18u8,
            SensorType::ChrominanceRed.spec_to_u8() == 0x19u8,
            SensorType::ChrominanceGreen.spec_to_u8() == 0x1au8,
            SensorType::ChrominanceBlue.spec_to_u8() == 0x1bu8,
            SensorType::Contacts.spec_to_u8() == 0x1cu8,
            SensorType::Memory.spec_to_u8() == 0x1du8,
            SensorType::Items.spec_to_u8() == 0x1eu8,
            SensorType::Humidity.spec_to_u8() == 0x1fu8,
            SensorType::Counter16Bit.spec_to_u8() == 0x20u8,
            SensorType::Other.spec_to_u8() == 0x7fu8,
            SensorType::spec_try_from_u8(0x00u8) == Ok::<SensorType, RdmError>(SensorType::Temperature),
            SensorType::spec_try_from_u8(0x01u8) == Ok::<SensorType, RdmError>(SensorType::Voltage),
            SensorType::spec_try_from_u8(0x02u8) == Ok::<SensorType, RdmError>(SensorType::Current),
            SensorType::spec_try_from_u8(0x03u8) == Ok::<SensorType, RdmError>(SensorType::Frequency),
            SensorType::spec_try_from_u8(0x04u8) == Ok::<SensorType, RdmError>(SensorType::Resistance),
            SensorType::spec_try_from_u8(0x05u8) == Ok::<SensorType, RdmError>(SensorType::Power),
            SensorType::spec_try_from_u8(0x06u8) == Ok::<SensorType, RdmError>(SensorType::Mass),
            SensorType::spec_try_from_u8(0x07u8) == Ok::<SensorType, RdmError>(SensorType::Length),
            SensorType::spec_try_from_u8(0x08u8) == Ok::<SensorType, RdmError>(SensorType::Area),
            SensorType::spec_try_from_u8(0x09u8) == Ok::<SensorType, RdmError>(SensorType::Volume),
            SensorType::spec_try_from_u8(0x0au8) == Ok::<SensorType, RdmError>(SensorType::Density),
            SensorType::spec_try_from_u8(0x0bu8) == Ok::<SensorType, RdmError>(SensorType::Velocity),
            SensorType::spec_try_from_u8(0x0cu8) == Ok::<SensorType, RdmError>(SensorType::Acceleration),
            SensorType::spec_try_from_u8(0x0du8) == Ok::<SensorType, RdmError>(SensorType::Force),
            SensorType::spec_try_from_u8(0x0eu8) == Ok::<SensorType, RdmError>(SensorType::Energy),
            SensorType::spec_try_from_u8(0x0fu8) == Ok::<SensorType, RdmError>(SensorType::Pressure),
            SensorType::spec_try_from_u8(0x10u8) == Ok::<SensorType, RdmError>(SensorType::Time),
            SensorType::spec_try_from_u8(0x11u8) == Ok::<SensorType, RdmError>(SensorType::Angle),
            SensorType::spec_try_from_u8(0x12u8) == Ok::<SensorType, RdmError>(SensorType::PositionX),
            SensorType::spec_try_from_u8(0x13u8) == Ok::<SensorType, RdmError>(SensorType::PositionY),
            SensorType::spec_try_from_u8(0x14u8) == Ok::<SensorType, RdmError>(SensorType::PositionZ),
            SensorType::spec_try_from_u8(0x15u8) == Ok::<SensorType, RdmError>(SensorType::AngularVelocity),
            SensorType::spec_try_from_u8(0x16u8) == Ok::<SensorType, RdmError>(SensorType::LuminousIntensity),
            SensorType::spec_try_from_u8(0x17u8) == Ok::<SensorType, RdmError>(SensorType::LuminousFlux),
            SensorType::spec_try_from_u8(0x18u8) == Ok::<SensorType, RdmError>(SensorType::Illuminance),
            SensorType::spec_try_from_u8(0x19u8) == Ok::<SensorType, RdmError>(SensorType::ChrominanceRed),
            SensorType::spec_try_from_u8(0x1au8) == Ok::<SensorType, RdmError>(SensorType::ChrominanceGreen),
            SensorType::spec_try_from_u8(0x1bu8) == Ok::<SensorType, RdmError>(SensorType::ChrominanceBlue),
            SensorType::spec_try_from_u8(0x1cu8) == Ok::<SensorType, RdmError>(SensorType::Contacts),
            SensorType::spec_try_from_u8(0x1du8) == Ok::<SensorType, RdmError>(SensorType::Memory),
            SensorType::spec_try_from_u8(0x1eu8) == Ok::<SensorType, RdmError>(SensorType::Items),
            SensorType::spec_try_from_u8(0x1fu8) == Ok::<SensorType, RdmError>(SensorType::Humidity),
            SensorType::spec_try_from_u8(0x20u8) == Ok::<SensorType, RdmError>(SensorType::Counter16Bit),
            SensorType::spec_try_from_u8(0x7fu8) == Ok::<SensorType, RdmError>(SensorType::Other),
    {
    }

    /// The wire form of a variant is its code, and one byte reads as the variant that its code names.
    pub proof fn lemma_wire_code(x: SensorType, b: u8)
        ensures
            x.spec_wire() == seq![x.spec_to_u8()],
            (<SensorType as FixedWire>::spec_read(seq![b]) is Some) == (SensorType::spec_try_from_u8(b) is Ok),
            <SensorType as FixedWire>::spec_read(seq![b]) matches Some(v) ==> SensorType::spec_try_from_u8(b) == Ok::<SensorType, RdmError>(v),
    {
    }
}

impl SensorUnit {
    /// The wire codes of the named variants, as the standard assigns them, both ways.
    pub proof fn lemma_code_table()
        ensures
            SensorUnit::NoUnit.spec_to_u8() == 0x00u8,
            SensorUnit::Centigrade.spec_to_u8() == 0x01u8,
            SensorUnit::VoltsDc.spec_to_u8() == 0x02u8,
            SensorUnit::VoltsAcPeak.spec_to_u8() == 0x03u8,
            SensorUnit::VoltsAcRms.spec_to_u8() == 0x04u8,
            SensorUnit::AmpsDc.spec_to_u8() == 0x05u8,
            SensorUnit::AmpsAcPeak.spec_to_u8() == 0x06u8,
            SensorUnit::AmpsAcRms.spec_to_u8() == 0x07u8,
            SensorUnit::Hertz.spec_to_u8() == 0x08u8,
            SensorUnit::Ohm.spec_to_u8() == 0x09u8,
            SensorUnit::Watt.spec_to_u8() == 0x0au8,
            SensorUnit::Kilogram.spec_to_u8() == 0x0bu8,
            SensorUnit::Meter.spec_to_u8() == 0x0cu8,
            SensorUnit::SquareMeter.spec_to_u8() == 0x0du8,
            SensorUnit::CubicMeter.spec_to_u8() == 0x0eu8,
            SensorUnit::KilogramPerCubicMeter.spec_to_u8() == 0x0fu8,
            SensorUnit::MeterPerSecond.spec_to_u8() == 0x10u8,
            SensorUnit::MeterPerSecondSquared.spec_to_u8() == 0x11u8,
            SensorUnit::Newton.spec_to_u8() == 0x12u8,
            SensorUnit::Joule.spec_to_u8() == 0x13u8,
            SensorUnit::Pascal.spec_to_u8() == 0x14u8,
            SensorUnit::Second.spec_to_u8() == 0x15u8,
            SensorUnit::Degree.spec_to_u8() == 0x16u8,
            SensorUnit::Steradian.spec_to_u8() == 0x17u8,
            SensorUnit::Candela.spec_to_u8() == 0x18u8,
            SensorUnit::Lumen.spec_to_u8() == 0x19u8,
            SensorUnit::Lux.spec_to_u8() == 0x1au8,
            SensorUnit::Ire.spec_to_u8() == 0x1bu8,
            SensorUnit::Byte.spec_to_u8() == 0x1cu8,
            SensorUnit::spec_try_from_u8(0x00u8) == Ok::<SensorUnit, RdmError>(SensorUnit::NoUnit),
            SensorUnit::spec_try_from_u8(0x01u8) == Ok::<SensorUnit, RdmError>(SensorUnit::Centigrade),
            SensorUnit::spec_try_from_u8(0x02u8) == Ok::<SensorUnit, RdmError>(SensorUnit::VoltsDc),
            SensorUnit::spec_try_from_u8(0x03u8) == Ok::<SensorUnit, RdmError>(SensorUnit::VoltsAcPeak),
            SensorUnit::spec_try_from_u8(0x04u8) == Ok::<SensorUnit, RdmError>(SensorUnit::VoltsAcRms),
            SensorUnit::spec_try_from_u8(0x05u8) == Ok::<SensorUnit, RdmError>(SensorUnit::AmpsDc),
            SensorUnit::spec_try_from_u8(0x06u8) == Ok::<SensorUnit, RdmError>(SensorUnit::AmpsAcPeak),
            SensorUnit::spec_try_from_u8(0x07u8) == Ok::<SensorUnit, RdmError>(SensorUnit::AmpsAcRms),
            SensorUnit::spec_try_from_u8(0x08u8) == Ok::<SensorUnit, RdmError>(SensorUnit::Hertz),
            SensorUnit::spec_try_from_u8(0x09u8) == Ok::<SensorUnit, RdmError>(SensorUnit::Ohm),
            SensorUnit::spec_try_from_u8(0x0au8) == Ok::<SensorUnit, RdmError>(SensorUnit::Watt),
            SensorUnit::spec_try_from_u8(0x0bu8) == Ok::<SensorUnit, RdmError>(SensorUnit::Kilogram),
            SensorUnit::spec_try_from_u8(0x0cu8) == Ok::<SensorUnit, RdmError>(SensorUnit::Meter),
            SensorUnit::spec_try_from_u8(0x0du8) == Ok::<SensorUnit, RdmError>(SensorUnit::SquareMeter),
            SensorUnit::spec_try_from_u8(0x0eu8) == Ok::<SensorUnit, RdmError>(SensorUnit::CubicMeter),
            SensorUnit::spec_try_from_u8(0x0fu8) == Ok::<SensorUnit, RdmError>(SensorUnit::KilogramPerCubicMeter),
            SensorUnit::spec_try_from_u8(0x10u8) == Ok::<SensorUnit, RdmError>(SensorUnit::MeterPerSecond),
            SensorUnit::spec_try_from_u8(0x11u8) == Ok::<SensorUnit, RdmError>(SensorUnit::MeterPerSecondSquared),
            SensorUnit::spec_try_from_u8(0x12u8) == Ok::<SensorUnit, RdmError>(SensorUnit::Newton),
            SensorUnit::spec_try_from_u8(0x13u8) == Ok::<SensorUnit, RdmError>(SensorUnit::Joule),
            SensorUnit::spec_try_from_u8(0x14u8) == Ok::<SensorUnit, RdmError>(SensorUnit::Pascal),
            SensorUnit::spec_try_from_u8(0x15u8) == Ok::<SensorUnit, RdmError>(SensorUnit::Second),
            SensorUnit::spec_try_from_u8(0x16u8) == Ok::<SensorUnit, RdmError>(SensorUnit::Degree),
            SensorUnit::spec_try_from_u8(0x17u8) == Ok::<SensorUnit, RdmError>(SensorUnit::Steradian),
            SensorUnit::spec_try_from_u8(0x18u8) == Ok::<SensorUnit, RdmError>(SensorUnit::Candela),
            SensorUnit::spec_try_from_u8(0x19u8) == Ok::<SensorUnit, RdmError>(SensorUnit::Lumen),
            SensorUnit::spec_try_from_u8(0x1au8) == Ok::<SensorUnit, RdmError>(SensorUnit::Lux),
            SensorUnit::spec_try_from_u8(0x1bu8) == Ok::<SensorUnit, RdmError>(SensorUnit::Ire),
            SensorUnit::spec_try_from_u8(0x1cu8) == Ok::<SensorUnit, RdmError>(SensorUnit::Byte),
    {
    }

    /// The wire form of a variant is its code, and one byte reads as the variant that its code names.
    pub proof fn lemma_wire_code(x: SensorUnit, b: u8)
        ensures
            x.spec_wire() == seq![x.spec_to_u8()],
            (<SensorUnit as FixedWire>::spec_read(seq![b]) is Some) == (SensorUnit::spec_try_from_u8(b) is Ok),
            <SensorUnit as FixedWire>::spec_read(seq![b]) matches Some(v) ==> SensorUnit::spec_try_from_u8(b) == Ok::<SensorUnit, RdmError>(v),
    {
    }
}

impl SensorUnitPrefix {
    /// The wire codes of the named variants, as the standard assigns them, both ways.
    pub proof fn lemma_code_table()
        ensures
            SensorUnitPrefix::NoPrefix.spec_to_u8() == 0x00u8,
            SensorUnitPrefix::Deci.spec_to_u8() == 0x01u8,
            SensorUnitPrefix::Centi.spec_to_u8() == 0x02u8,
            SensorUnitPrefix::Milli.spec_to_u8() == 0x03u8,
            SensorUnitPrefix::Micro.spec_to_u8() == 0x04u8,
            SensorUnitPrefix::Nano.spec_to_u8() == 0x05u8,
            SensorUnitPrefix::Pico.spec_to_u8() == 0x06u8,
            SensorUnitPrefix::Femto.spec_to_u8() == 0x07u8,
            SensorUnitPrefix::Atto.spec_to_u8() == 0x08u8,
            SensorUnitPrefix::Zepto.spec_to_u8() == 0x09u8,
            SensorUnitPrefix::Yocto.spec_to_u8() == 0x0au8,
            SensorUnitPrefix::Deca.spec_to_u8() == 0x11u8,
            SensorUnitPrefix::Hecto.spec_to_u8() == 0x12u8,
            SensorUnitPrefix::Kilo.spec_to_u8() == 0x13u8,
            SensorUnitPrefix::Mega.spec_to_u8() == 0x14u8,
            SensorUnitPrefix::Giga.spec_to_u8() == 0x15u8,
            SensorUnitPrefix::Terra.spec_to_u8() == 0x16u8,
            SensorUnitPrefix::Peta.spec_to_u8() == 0x17u8,
            SensorUnitPrefix::Exa.spec_to_u8() == 0x18u8,
            SensorUnitPrefix::Zetta.spec_to_u8() == 0x19u8,
            SensorUnitPrefix::Yotta.spec_to_u8() == 0x1au8,
            SensorUnitPrefix::spec_try_from_u8(0x00u8) == Ok::<SensorUnitPrefix, RdmError>(SensorUnitPrefix::NoPrefix),
            SensorUnitPrefix::spec_try_from_u8(0x01u8) == Ok::<SensorUnitPrefix, RdmError>(SensorUnitPrefix::Deci),
            SensorUnitPrefix::spec_try_from_u8(0x02u8) == Ok::<SensorUnitPrefix, RdmError>(SensorUnitPrefix::Centi),
            SensorUnitPrefix::spec_try_from_u8(0x03u8) == Ok::<SensorUnitPrefix, RdmError>(SensorUnitPrefix::Milli),
            SensorUnitPrefix::spec_try_from_u8(0x04u8) == Ok::<SensorUnitPrefix, RdmError>(SensorUnitPrefix::Micro),
            SensorUnitPrefix::spec_try_from_u8(0x05u8) == Ok::<SensorUnitPrefix, RdmError>(SensorUnitPrefix::Nano),
            SensorUnitPrefix::spec_try_from_u8(0x06u8) == Ok::<SensorUnitPrefix, RdmError>(SensorUnitPrefix::Pico),
            SensorUnitPrefix::spec_try_from_u8(0x07u8) == Ok::<SensorUnitPrefix, RdmError>(SensorUnitPrefix::Femto),
            SensorUnitPrefix::spec_try_from_u8(0x08u8) == Ok::<SensorUnitPrefix, RdmError>(SensorUnitPrefix::Atto),
            SensorUnitPrefix::spec_try_from_u8(0x09u8) == Ok::<SensorUnitPrefix, RdmError>(SensorUnitPrefix::Zepto),
            SensorUnitPrefix::spec_try_from_u8(0x0au8) == Ok::<SensorUnitPrefix, RdmError>(SensorUnitPrefix::Yocto),
            SensorUnitPrefix::spec_try_from_u8(0x11u8) == Ok::<SensorUnitPrefix, RdmError>(SensorUnitPrefix::Deca),
            SensorUnitPrefix::spec_try_from_u8(0x12u8) == Ok::<SensorUnitPrefix, RdmError>(SensorUnitPrefix::Hecto),
            SensorUnitPrefix::spec_try_from_u8(0x13u8) == Ok::<SensorUnitPrefix, RdmError>(SensorUnitPrefix::Kilo),
            SensorUnitPrefix::spec_try_from_u8(0x14u8) == Ok::<SensorUnitPrefix, RdmError>(SensorUnitPrefix::Mega),
            SensorUnitPrefix::spec_try_from_u8(0x15u8) == Ok::<SensorUnitPrefix, RdmError>(SensorUnitPrefix::Giga),
            SensorUnitPrefix::spec_try_from_u8(0x16u8) == Ok::<SensorUnitPrefix, RdmError>(SensorUnitPrefix::Terra),
            SensorUnitPrefix::spec_try_from_u8(0x17u8) == Ok::<SensorUnitPrefix, RdmError>(SensorUnitPrefix::Peta),
            SensorUnitPrefix::spec_try_from_u8(0x18u8) == Ok::<SensorUnitPrefix, RdmError>(SensorUnitPrefix::Exa),
            SensorUnitPrefix::spec_try_from_u8(0x19u8) == Ok::<SensorUnitPrefix, RdmError>(SensorUnitPrefix::Zetta),
            SensorUnitPrefix::spec_try_from_u8(0x1au8) == Ok::<SensorUnitPrefix, RdmError>(SensorUnitPrefix::Yotta),
    {
    }

    /// The wire form of a variant is its code, and one byte reads as the variant that its code names.
    pub proof fn lemma_wire_code(x: SensorUnitPrefix, b: u8)
        ensures
            x.spec_wire() == seq![x.spec_to_u8()],
            (<SensorUnitPrefix as FixedWire>::spec_read(seq![b]) is Some) == (SensorUnitPrefix::spec_try_from_u8(b) is Ok),
            <SensorUnitPrefix as FixedWire>::spec_read(seq![b]) matches Some(v) ==> SensorUnitPrefix::spec_try_from_u8(b) == Ok::<SensorUnitPrefix, RdmError>(v),
    {
    }
}

impl StatusMessageIdDefinition {
    /// The wire codes of the named variants, as the standard assigns them, both ways.
    pub proof fn lemma_code_table()
        ensures
            StatusMessageIdDefinition::CalibrationFailed.spec_to_u16() == 0x0001u16,
            StatusMessageIdDefinition::SensorNotFound.spec_to_u16() == 0x0002u16,
            StatusMessageIdDefinition::SensorAlwaysOn.spec_to_u16() == 0x0003u16,
            StatusMessageIdDefinition::LampDoused.spec_to_u16() == 0x0011u16,
            StatusMessageIdDefinition::LampStrike.spec_to_u16() == 0x0012u16,
            StatusMessageIdDefinition::OverTemperature.spec_to_u16() == 0x0021u16,
            StatusMessageIdDefinition::UnderTemperature.spec_to_u16() == 0x0022u16,
            StatusMessageIdDefinition::SensorOutOfRange.spec_to_u16() == 0x0023u16,
            StatusMessageIdDefinition::OverVoltagePhase.spec_to_u16() == 0x0031u16,
            StatusMessageIdDefinition::UnderVoltagePhase.spec_to_u16() == 0x0032u16,
            StatusMessageIdDefinition::OverCurrent.spec_to_u16() == 0x0033u16,
            StatusMessageIdDefinition::UnderCurrent.spec_to_u16() == 0x0034u16,
            StatusMessageIdDefinition::Phase.spec_to_u16() == 0x0035u16,
            StatusMessageIdDefinition::PhaseError.spec_to_u16() == 0x0036u16,
            StatusMessageIdDefinition::Amps.spec_to_u16() == 0x0037u16,
            StatusMessageIdDefinition::Volts.spec_to_u16() == 0x0038u16,
            StatusMessageIdDefinition::DimSlotOccupied.spec_to_u16() == 0x0041u16,
            StatusMessageIdDefinition::BreakerTrip.spec_to_u16() == 0x0042u16,
            StatusMessageIdDefinition::Watts.spec_to_u16() == 0x0043u16,
            StatusMessageIdDefinition::DimmerFailure.spec_to_u16() == 0x0044u16,
            StatusMessageIdDefinition::DimmerPanic.spec_to_u16() == 0x0045u16,
            StatusMessageIdDefinition::Ready.spec_to_u16() == 0x0050u16,
            StatusMessageIdDefinition::NotReady.spec_to_u16() == 0x0051u16,
            StatusMessageIdDefinition::LowFluid.spec_to_u16() == 0x0052u16,
    {
    }
}

impl SupportedCommandClass {
    /// The command class recorded for a parameter is the one that its description announces: it
    /// has the same byte code, so GET stays GET, SET stays SET and GET and SET stays both.
    pub proof fn lemma_from_implemented_keeps_code(c: ImplementedCommandClass)
        ensures
            SupportedCommandClass::spec_try_from_u8(c.spec_to_u8()) == Ok::<SupportedCommandClass, SupportedCommandClassError>(
                SupportedCommandClass::spec_from_implemented(c),
            ),
            SupportedCommandClass::spec_from_implemented(ImplementedCommandClass::Get) == SupportedCommandClass::Get,
            SupportedCommandClass::spec_from_implemented(ImplementedCommandClass::SetOnly) == SupportedCommandClass::SetOnly,
            SupportedCommandClass::spec_from_implemented(ImplementedCommandClass::GetSet) == SupportedCommandClass::GetSet,
    {
        ImplementedCommandClass::lemma_code_table();
        SupportedCommandClass::lemma_code_table();
    }

    /// The byte codes of the command classes that a responder supports for a parameter.
    pub proof fn lemma_code_table()
        ensures
            SupportedCommandClass::spec_try_from_u8(0x01u8) == Ok::<SupportedCommandClass, SupportedCommandClassError>(SupportedCommandClass::Get),
            SupportedCommandClass::spec_try_from_u8(0x02u8) == Ok::<SupportedCommandClass, SupportedCommandClassError>(SupportedCommandClass::SetOnly),
            SupportedCommandClass::spec_try_from_u8(0x03u8) == Ok::<SupportedCommandClass, SupportedCommandClassError>(SupportedCommandClass::GetSet),
    {
    }
}

impl<'a> Iso639_1<'a> {
    /// The two letter code of each supported language, both ways.
    #[verifier::spinoff_prover]
    pub proof fn lemma_code_table()
        ensures
            Iso639_1::Aa.spec_code() == seq![0x61u8, 0x61u8] && Iso639_1::spec_known(seq![0x61u8, 0x61u8]) == Some(Iso639_1::Aa),
            Iso639_1::Ab.spec_code() == seq![0x61u8, 0x62u8] && Iso639_1::spec_known(seq![0x61u8, 0x62u8]) == Some(Iso639_1::Ab),
            Iso639_1::Ae.spec_code() == seq![0x61u8, 0x65u8] && Iso639_1::spec_known(seq![0x61u8, 0x65u8]) == Some(Iso639_1::Ae),
            Iso639_1::Af.spec_code() == seq![0x61u8, 0x66u8] && Iso639_1::spec_known(seq![0x61u8, 0x66u8]) == Some(Iso639_1::Af),
            Iso639_1::Ak.spec_code() == seq![0x61u8, 0x6bu8] && Iso639_1::spec_known(seq![0x61u8, 0x6bu8]) == Some(Iso639_1::Ak),
            Iso639_1::Am.spec_code() == seq![0x61u8, 0x6du8] && Iso639_1::spec_known(seq![0x61u8, 0x6du8]) == Some(Iso639_1::Am),
            Iso639_1::An.spec_code() == seq![0x61u8, 0x6eu8] && Iso639_1::spec_known(seq![0x61u8, 0x6eu8]) == Some(Iso639_1::An),
            Iso639_1::Ar.spec_code() == seq![0x61u8, 0x72u8] && Iso639_1::spec_known(seq![0x61u8, 0x72u8]) == Some(Iso639_1::Ar),
            Iso639_1::As.spec_code() == seq![0x61u8, 0x73u8] && Iso639_1::spec_known(seq![0x61u8, 0x73u8]) == Some(Iso639_1::As),
            Iso639_1::Av.spec_code() == seq![0x61u8, 0x76u8] && Iso639_1::spec_known(seq![0x61u8, 0x76u8]) == Some(Iso639_1::Av),
            Iso639_1::Ay.spec_code() == seq![0x61u8, 0x79u8] && Iso639_1::spec_known(seq![0x61u8, 0x79u8]) == Some(Iso639_1::Ay),
            Iso639_1::Az.spec_code() == seq![0x61u8, 0x7au8] && Iso639_1::spec_known(seq![0x61u8, 0x7au8]) == Some(Iso639_1::Az),
            Iso639_1::Ba.spec_code() == seq![0x62u8, 0x61u8] && Iso639_1::spec_known(seq![0x62u8, 0x61u8]) == Some(Iso639_1::Ba),
            Iso639_1::Be.spec_code() == seq![0x62u8, 0x65u8] && Iso639_1::spec_known(seq![0x62u8, 0x65u8]) == Some(Iso639_1::Be),
            Iso639_1::Bg.spec_code() == seq![0x62u8, 0x67u8] && Iso639_1::spec_known(seq![0x62u8, 0x67u8]) == Some(Iso639_1::Bg),
            Iso639_1::Bh.spec_code() == seq![0x62u8, 0x68u8] && Iso639_1::spec_known(seq![0x62u8, 0x68u8]) == Some(Iso639_1::Bh),
            Iso639_1::Bi.spec_code() == seq![0x62u8, 0x69u8] && Iso639_1::spec_known(seq![0x62u8, 0x69u8]) == Some(Iso639_1::Bi),
            Iso639_1::Bm.spec_code() == seq![0x62u8, 0x6du8] && Iso639_1::spec_known(seq![0x62u8, 0x6du8]) == Some(Iso639_1::Bm),
            Iso639_1::Bn.spec_code() == seq![0x62u8, 0x6eu8] && Iso639_1::spec_known(seq![0x62u8, 0x6eu8]) == Some(Iso639_1::Bn),
            Iso639_1::Bo.spec_code() == seq![0x62u8, 0x6fu8] && Iso639_1::spec_known(seq![0x62u8, 0x6fu8]) == Some(Iso639_1::Bo),
            Iso639_1::Br.spec_code() == seq![0x62u8, 0x72u8] && Iso639_1::spec_known(seq![0x62u8, 0x72u8]) == Some(Iso639_1::Br),
            Iso639_1::Bs.spec_code() == seq![0x62u8, 0x73u8] && Iso639_1::spec_known(seq![0x62u8, 0x73u8]) == Some(Iso639_1::Bs),
            Iso639_1::Ca.spec_code() == seq![0x63u8, 0x61u8] && Iso639_1::spec_known(seq![0x63u8, 0x61u8]) == Some(Iso639_1::Ca),
            Iso639_1::Ce.spec_code() == seq![0x63u8, 0x65u8] && Iso639_1::spec_known(seq![0x63u8, 0x65u8]) == Some(Iso639_1::Ce),
            Iso639_1::Ch.spec_code() == seq![0x63u8, 0x68u8] && Iso639_1::spec_known(seq![0x63u8, 0x68u8]) == Some(Iso639_1::Ch),
            Iso639_1::Co.spec_code() == seq![0x63u8, 0x6fu8] && Iso639_1::spec_known(seq![0x63u8, 0x6fu8]) == Some(Iso639_1::Co),
            Iso639_1::Cr.spec_code() == seq![0x63u8, 0x72u8] && Iso639_1::spec_known(seq![0x63u8, 0x72u8]) == Some(Iso639_1::Cr),
            Iso639_1::Cs.spec_code() == seq![0x63u8, 0x73u8] && Iso639_1::spec_known(seq![0x63u8, 0x73u8]) == Some(Iso639_1::Cs),
            Iso639_1::Cu.spec_code() == seq![0x63u8, 0x75u8] && Iso639_1::spec_known(seq![0x63u8, 0x75u8]) == Some(Iso639_1::Cu),
            Iso639_1::Cv.spec_code() == seq![0x63u8, 0x76u8] && Iso639_1::spec_known(seq![0x63u8, 0x76u8]) == Some(Iso639_1::Cv),
    {
    }

    /// The two letter code of each supported language, both ways (continued).
    #[verifier::spinoff_prover]
    pub proof fn lemma_code_table_2()
        ensures
            Iso639_1::Cy.spec_code() == seq![0x63u8, 0x79u8] && Iso639_1::spec_known(seq![0x63u8, 0x79u8]) == Some(Iso639_1::Cy),
            Iso639_1::Da.spec_code() == seq![0x64u8, 0x61u8] && Iso639_1::spec_known(seq![0x64u8, 0x61u8]) == Some(Iso639_1::Da),
            Iso639_1::De.spec_code() == seq![0x64u8, 0x65u8] && Iso639_1::spec_known(seq![0x64u8, 0x65u8]) == Some(Iso639_1::De),
            Iso639_1::Dv.spec_code() == seq![0x64u8, 0x76u8] && Iso639_1::spec_known(seq![0x64u8, 0x76u8]) == Some(Iso639_1::Dv),
            Iso639_1::Dz.spec_code() == seq![0x64u8, 0x7au8] && Iso639_1::spec_known(seq![0x64u8, 0x7au8]) == Some(Iso639_1::Dz),
            Iso639_1::Ee.spec_code() == seq![0x65u8, 0x65u8] && Iso639_1::spec_known(seq![0x65u8, 0x65u8]) == Some(Iso639_1::Ee),
            Iso639_1::El.spec_code() == seq![0x65u8, 0x6cu8] && Iso639_1::spec_known(seq![0x65u8, 0x6cu8]) == Some(Iso639_1::El),
            Iso639_1::En.spec_code() == seq![0x65u8, 0x6eu8] && Iso639_1::spec_known(seq![0x65u8, 0x6eu8]) == Some(Iso639_1::En),
            Iso639_1::Eo.spec_code() == seq![0x65u8, 0x6fu8] && Iso639_1::spec_known(seq![0x65u8, 0x6fu8]) == Some(Iso639_1::Eo),
            Iso639_1::Es.spec_code() == seq![0x65u8, 0x73u8] && Iso639_1::spec_known(seq![0x65u8, 0x73u8]) == Some(Iso639_1::Es),
            Iso639_1::Et.spec_code() == seq![0x65u8, 0x74u8] && Iso639_1::spec_known(seq![0x65u8, 0x74u8]) == Some(Iso639_1::Et),
            Iso639_1::Eu.spec_code() == seq![0x65u8, 0x75u8] && Iso639_1::spec_known(seq![0x65u8, 0x75u8]) == Some(Iso639_1::Eu),
            Iso639_1::Fa.spec_code() == seq![0x66u8, 0x61u8] && Iso639_1::spec_known(seq![0x66u8, 0x61u8]) == Some(Iso639_1::Fa),
            Iso639_1::Ff.spec_code() == seq![0x66u8, 0x66u8] && Iso639_1::spec_known(seq![0x66u8, 0x66u8]) == Some(Iso639_1::Ff),
            Iso639_1::Fi.spec_code() == seq![0x66u8, 0x69u8] && Iso639_1::spec_known(seq![0x66u8, 0x69u8]) == Some(Iso639_1::Fi),
            Iso639_1::Fj.spec_code() == seq![0x66u8, 0x6au8] && Iso639_1::spec_known(seq![0x66u8, 0x6au8]) == Some(Iso639_1::Fj),
            Iso639_1::Fo.spec_code() == seq![0x66u8, 0x6fu8] && Iso639_1::spec_known(seq![0x66u8, 0x6fu8]) == Some(Iso639_1::Fo),
            Iso639_1::Fr.spec_code() == seq![0x66u8, 0x72u8] && Iso639_1::spec_known(seq![0x66u8, 0x72u8]) == Some(Iso639_1::Fr),
            Iso639_1::Fy.spec_code() == seq![0x66u8, 0x79u8] && Iso639_1::spec_known(seq![0x66u8, 0x79u8]) == Some(Iso639_1::Fy),
            Iso639_1::Ga.spec_code() == seq![0x67u8, 0x61u8] && Iso639_1::spec_known(seq![0x67u8, 0x61u8]) == Some(Iso639_1::Ga),
            Iso639_1::Gd.spec_code() == seq![0x67u8, 0x64u8] && Iso639_1::spec_known(seq![0x67u8, 0x64u8]) == Some(Iso639_1::Gd),
            Iso639_1::Gl.spec_code() == seq![0x67u8, 0x6cu8] && Iso639_1::spec_known(seq![0x67u8, 0x6cu8]) == Some(Iso639_1::Gl),
            Iso639_1::Gn.spec_code() == seq![0x67u8, 0x6eu8] && Iso639_1::spec_known(seq![0x67u8, 0x6eu8]) == Some(Iso639_1::Gn),
            Iso639_1::Gu.spec_code() == seq![0x67u8, 0x75u8] && Iso639_1::spec_known(seq![0x67u8, 0x75u8]) == Some(Iso639_1::Gu),
            Iso639_1::Gv.spec_code() == seq![0x67u8, 0x76u8] && Iso639_1::spec_known(seq![0x67u8, 0x76u8]) == Some(Iso639_1::Gv),
            Iso639_1::Ha.spec_code() == seq![0x68u8, 0x61u8] && Iso639_1::spec_known(seq![0x68u8, 0x61u8]) == Some(Iso639_1::Ha),
            Iso639_1::He.spec_code() == seq![0x68u8, 0x65u8] && Iso639_1::spec_known(seq![0x68u8, 0x65u8]) == Some(Iso639_1::He),
            Iso639_1::Hi.spec_code() == seq![0x68u8, 0x69u8] && Iso639_1::spec_known(seq![0x68u8, 0x69u8]) == Some(Iso639_1::Hi),
            Iso639_1::Ho.spec_code() == seq![0x68u8, 0x6fu8] && Iso639_1::spec_known(seq![0x68u8, 0x6fu8]) == Some(Iso639_1::Ho),
            Iso639_1::Hr.spec_code() == seq![0x68u8, 0x72u8] && Iso639_1::spec_known(seq![0x68u8, 0x72u8]) == Some(Iso639_1::Hr),
    {
    }

    /// The two letter code of each supported language, both ways (continued).
    #[verifier::spinoff_prover]
    pub proof fn lemma_code_table_3()
        ensures
            Iso639_1::Ht.spec_code() == seq![0x68u8, 0x74u8] && Iso639_1::spec_known(seq![0x68u8, 0x74u8]) == Some(Iso639_1::Ht),
            Iso639_1::Hu.spec_code() == seq![0x68u8, 0x75u8] && Iso639_1::spec_known(seq![0x68u8, 0x75u8]) == Some(Iso639_1::Hu),
            Iso639_1::Hy.spec_code() == seq![0x68u8, 0x79u8] && Iso639_1::spec_known(seq![0x68u8, 0x79u8]) == Some(Iso639_1::Hy),
            Iso639_1::Hz.spec_code() == seq![0x68u8, 0x7au8] && Iso639_1::spec_known(seq![0x68u8, 0x7au8]) == Some(Iso639_1::Hz),
            Iso639_1::Ia.spec_code() == seq![0x69u8, 0x61u8] && Iso639_1::spec_known(seq![0x69u8, 0x61u8]) == Some(Iso639_1::Ia),
            Iso639_1::Id.spec_code() == seq![0x69u8, 0x64u8] && Iso639_1::spec_known(seq![0x69u8, 0x64u8]) == Some(Iso639_1::Id),
            Iso639_1::Ie.spec_code() == seq![0x69u8, 0x65u8] && Iso639_1::spec_known(seq![0x69u8, 0x65u8]) == Some(Iso639_1::Ie),
            Iso639_1::Ig.spec_code() == seq![0x69u8, 0x67u8] && Iso639_1::spec_known(seq![0x69u8, 0x67u8]) == Some(Iso639_1::Ig),
            Iso639_1::Ii.spec_code() == seq![0x69u8, 0x69u8] && Iso639_1::spec_known(seq![0x69u8, 0x69u8]) == Some(Iso639_1::Ii),
            Iso639_1::Ik.spec_code() == seq![0x69u8, 0x6bu8] && Iso639_1::spec_known(seq![0x69u8, 0x6bu8]) == Some(Iso639_1::Ik),
            Iso639_1::Io.spec_code() == seq![0x69u8, 0x6fu8] && Iso639_1::spec_known(seq![0x69u8, 0x6fu8]) == Some(Iso639_1::Io),
            Iso639_1::Is.spec_code() == seq![0x69u8, 0x73u8] && Iso639_1::spec_known(seq![0x69u8, 0x73u8]) == Some(Iso639_1::Is),
            Iso639_1::It.spec_code() == seq![0x69u8, 0x74u8] && Iso639_1::spec_known(seq![0x69u8, 0x74u8]) == Some(Iso639_1::It),
            Iso639_1::Iu.spec_code() == seq![0x69u8, 0x75u8] && Iso639_1::spec_known(seq![0x69u8, 0x75u8]) == Some(Iso639_1::Iu),
            Iso639_1::Ja.spec_code() == seq![0x6au8, 0x61u8] && Iso639_1::spec_known(seq![0x6au8, 0x61u8]) == Some(Iso639_1::Ja),
            Iso639_1::Jv.spec_code() == seq![0x6au8, 0x76u8] && Iso639_1::spec_known(seq![0x6au8, 0x76u8]) == Some(Iso639_1::Jv),
            Iso639_1::Ka.spec_code() == seq![0x6bu8, 0x61u8] && Iso639_1::spec_known(seq![0x6bu8, 0x61u8]) == Some(Iso639_1::Ka),
            Iso639_1::Kg.spec_code() == seq![0x6bu8, 0x67u8] && Iso639_1::spec_known(seq![0x6bu8, 0x67u8]) == Some(Iso639_1::Kg),
            Iso639_1::Ki.spec_code() == seq![0x6bu8, 0x69u8] && Iso639_1::spec_known(seq![0x6bu8, 0x69u8]) == Some(Iso639_1::Ki),
            Iso639_1::Kj.spec_code() == seq![0x6bu8, 0x6au8] && Iso639_1::spec_known(seq![0x6bu8, 0x6au8]) == Some(Iso639_1::Kj),
            Iso639_1::Kk.spec_code() == seq![0x6bu8, 0x6bu8] && Iso639_1::spec_known(seq![0x6bu8, 0x6bu8]) == Some(Iso639_1::Kk),
            Iso639_1::Kl.spec_code() == seq![0x6bu8, 0x6cu8] && Iso639_1::spec_known(seq![0x6bu8, 0x6cu8]) == Some(Iso639_1::Kl),
            Iso639_1::Km.spec_code() == seq![0x6bu8, 0x6du8] && Iso639_1::spec_known(seq![0x6bu8, 0x6du8]) == Some(Iso639_1::Km),
            Iso639_1::Kn.spec_code() == seq![0x6bu8, 0x6eu8] && Iso639_1::spec_known(seq![0x6bu8, 0x6eu8]) == Some(Iso639_1::Kn),
            Iso639_1::Ko.spec_code() == seq![0x6bu8, 0x6fu8] && Iso639_1::spec_known(seq![0x6bu8, 0x6fu8]) == Some(Iso639_1::Ko),
            Iso639_1::Kr.spec_code() == seq![0x6bu8, 0x72u8] && Iso639_1::spec_known(seq![0x6bu8, 0x72u8]) == Some(Iso639_1::Kr),
            Iso639_1::Ks.spec_code() == seq![0x6bu8, 0x73u8] && Iso639_1::spec_known(seq![0x6bu8, 0x73u8]) == Some(Iso639_1::Ks),
            Iso639_1::Ku.spec_code() == seq![0x6bu8, 0x75u8] && Iso639_1::spec_known(seq![0x6bu8, 0x75u8]) == Some(Iso639_1::Ku),
            Iso639_1::Kv.spec_code() == seq![0x6bu8, 0x76u8] && Iso639_1::spec_known(seq![0x6bu8, 0x76u8]) == Some(Iso639_1::Kv),
            Iso639_1::Kw.spec_code() == seq![0x6bu8, 0x77u8] && Iso639_1::spec_known(seq![0x6bu8, 0x77u8]) == Some(Iso639_1::Kw),
    {
    }

    /// The two letter code of each supported language, both ways (continued).
    #[verifier::spinoff_prover]
    pub proof fn lemma_code_table_4()
        ensures
            Iso639_1::Ky.spec_code() == seq![0x6bu8, 0x79u8] && Iso639_1::spec_known(seq![0x6bu8, 0x79u8]) == Some(Iso639_1::Ky),
            Iso639_1::La.spec_code() == seq![0x6cu8, 0x61u8] && Iso639_1::spec_known(seq![0x6cu8, 0x61u8]) == Some(Iso639_1::La),
            Iso639_1::Lb.spec_code() == seq![0x6cu8, 0x62u8] && Iso639_1::spec_known(seq![0x6cu8, 0x62u8]) == Some(Iso639_1::Lb),
            Iso639_1::Lg.spec_code() == seq![0x6cu8, 0x67u8] && Iso639_1::spec_known(seq![0x6cu8, 0x67u8]) == Some(Iso639_1::Lg),
            Iso639_1::Li.spec_code() == seq![0x6cu8, 0x69u8] && Iso639_1::spec_known(seq![0x6cu8, 0x69u8]) == Some(Iso639_1::Li),
            Iso639_1::Ln.spec_code() == seq![0x6cu8, 0x6eu8] && Iso639_1::spec_known(seq![0x6cu8, 0x6eu8]) == Some(Iso639_1::Ln),
            Iso639_1::Lo.spec_code() == seq![0x6cu8, 0x6fu8] && Iso639_1::spec_known(seq![0x6cu8, 0x6fu8]) == Some(Iso639_1::Lo),
            Iso639_1::Lt.spec_code() == seq![0x6cu8, 0x74u8] && Iso639_1::spec_known(seq![0x6cu8, 0x74u8]) == Some(Iso639_1::Lt),
            Iso639_1::Lu.spec_code() == seq![0x6cu8, 0x75u8] && Iso639_1::spec_known(seq![0x6cu8, 0x75u8]) == Some(Iso639_1::Lu),
            Iso639_1::Lv.spec_code() == seq![0x6cu8, 0x76u8] && Iso639_1::spec_known(seq![0x6cu8, 0x76u8]) == Some(Iso639_1::Lv),
            Iso639_1::Mg.spec_code() == seq![0x6du8, 0x67u8] && Iso639_1::spec_known(seq![0x6du8, 0x67u8]) == Some(Iso639_1::Mg),
            Iso639_1::Mh.spec_code() == seq![0x6du8, 0x68u8] && Iso639_1::spec_known(seq![0x6du8, 0x68u8]) == Some(Iso639_1::Mh),
            Iso639_1::Mi.spec_code() == seq![0x6du8, 0x69u8] && Iso639_1::spec_known(seq![0x6du8, 0x69u8]) == Some(Iso639_1::Mi),
            Iso639_1::Mk.spec_code() == seq![0x6du8, 0x6bu8] && Iso639_1::spec_known(seq![0x6du8, 0x6bu8]) == Some(Iso639_1::Mk),
            Iso639_1::Ml.spec_code() == seq![0x6du8, 0x6cu8] && Iso639_1::spec_known(seq![0x6du8, 0x6cu8]) == Some(Iso639_1::Ml),
            Iso639_1::Mn.spec_code() == seq![0x6du8, 0x6eu8] && Iso639_1::spec_known(seq![0x6du8, 0x6eu8]) == Some(Iso639_1::Mn),
            Iso639_1::Mr.spec_code() == seq![0x6du8, 0x72u8] && Iso639_1::spec_known(seq![0x6du8, 0x72u8]) == Some(Iso639_1::Mr),
            Iso639_1::Ms.spec_code() == seq![0x6du8, 0x73u8] && Iso639_1::spec_known(seq![0x6du8, 0x73u8]) == Some(Iso639_1::Ms),
            Iso639_1::Mt.spec_code() == seq![0x6du8, 0x74u8] && Iso639_1::spec_known(seq![0x6du8, 0x74u8]) == Some(Iso639_1::Mt),
            Iso639_1::My.spec_code() == seq![0x6du8, 0x79u8] && Iso639_1::spec_known(seq![0x6du8, 0x79u8]) == Some(Iso639_1::My),
            Iso639_1::Na.spec_code() == seq![0x6eu8, 0x61u8] && Iso639_1::spec_known(seq![0x6eu8, 0x61u8]) == Some(Iso639_1::Na),
            Iso639_1::Nb.spec_code() == seq![0x6eu8, 0x62u8] && Iso639_1::spec_known(seq![0x6eu8, 0x62u8]) == Some(Iso639_1::Nb),
            Iso639_1::Nd.spec_code() == seq![0x6eu8, 0x64u8] && Iso639_1::spec_known(seq![0x6eu8, 0x64u8]) == Some(Iso639_1::Nd),
            Iso639_1::Ne.spec_code() == seq![0x6eu8, 0x65u8] && Iso639_1::spec_known(seq![0x6eu8, 0x65u8]) == Some(Iso639_1::Ne),
            Iso639_1::Ng.spec_code() == seq![0x6eu8, 0x67u8] && Iso639_1::spec_known(seq![0x6eu8, 0x67u8]) == Some(Iso639_1::Ng),
            Iso639_1::Nl.spec_code() == seq![0x6eu8, 0x6cu8] && Iso639_1::spec_known(seq![0x6eu8, 0x6cu8]) == Some(Iso639_1::Nl),
            Iso639_1::Nn.spec_code() == seq![0x6eu8, 0x6eu8] && Iso639_1::spec_known(seq![0x6eu8, 0x6eu8]) == Some(Iso639_1::Nn),
            Iso639_1::No.spec_code() == seq![0x6eu8, 0x6fu8] && Iso639_1::spec_known(seq![0x6eu8, 0x6fu8]) == Some(Iso639_1::No),
            Iso639_1::Nr.spec_code() == seq![0x6eu8, 0x72u8] && Iso639_1::spec_known(seq![0x6eu8, 0x72u8]) == Some(Iso639_1::Nr),
            Iso639_1::Nv.spec_code() == seq![0x6eu8, 0x76u8] && Iso639_1::spec_known(seq![0x6eu8, 0x76u8]) == Some(Iso639_1::Nv),
    {
    }

    /// The two letter code of each supported language, both ways (continued).
    #[verifier::spinoff_prover]
    pub proof fn lemma_code_table_5()
        ensures
            Iso639_1::Ny.spec_code() == seq![0x6eu8, 0x79u8] && Iso639_1::spec_known(seq![0x6eu8, 0x79u8]) == Some(Iso639_1::Ny),
            Iso639_1::Oc.spec_code() == seq![0x6fu8, 0x63u8] && Iso639_1::spec_known(seq![0x6fu8, 0x63u8]) == Some(Iso639_1::Oc),
            Iso639_1::Oj.spec_code() == seq![0x6fu8, 0x6au8] && Iso639_1::spec_known(seq![0x6fu8, 0x6au8]) == Some(Iso639_1::Oj),
            Iso639_1::Om.spec_code() == seq![0x6fu8, 0x6du8] && Iso639_1::spec_known(seq![0x6fu8, 0x6du8]) == Some(Iso639_1::Om),
            Iso639_1::Or.spec_code() == seq![0x6fu8, 0x72u8] && Iso639_1::spec_known(seq![0x6fu8, 0x72u8]) == Some(Iso639_1::Or),
            Iso639_1::Os.spec_code() == seq![0x6fu8, 0x73u8] && Iso639_1::spec_known(seq![0x6fu8, 0x73u8]) == Some(Iso639_1::Os),
            Iso639_1::Pa.spec_code() == seq![0x70u8, 0x61u8] && Iso639_1::spec_known(seq![0x70u8, 0x61u8]) == Some(Iso639_1::Pa),
            Iso639_1::Pi.spec_code() == seq![0x70u8, 0x69u8] && Iso639_1::spec_known(seq![0x70u8, 0x69u8]) == Some(Iso639_1::Pi),
            Iso639_1::Pl.spec_code() == seq![0x70u8, 0x6cu8] && Iso639_1::spec_known(seq![0x70u8, 0x6cu8]) == Some(Iso639_1::Pl),
            Iso639_1::Ps.spec_code() == seq![0x70u8, 0x73u8] && Iso639_1::spec_known(seq![0x70u8, 0x73u8]) == Some(Iso639_1::Ps),
            Iso639_1::Pt.spec_code() == seq![0x70u8, 0x74u8] && Iso639_1::spec_known(seq![0x70u8, 0x74u8]) == Some(Iso639_1::Pt),
            Iso639_1::Qu.spec_code() == seq![0x71u8, 0x75u8] && Iso639_1::spec_known(seq![0x71u8, 0x75u8]) == Some(Iso639_1::Qu),
            Iso639_1::Rm.spec_code() == seq![0x72u8, 0x6du8] && Iso639_1::spec_known(seq![0x72u8, 0x6du8]) == Some(Iso639_1::Rm),
            Iso639_1::Rn.spec_code() == seq![0x72u8, 0x6eu8] && Iso639_1::spec_known(seq![0x72u8, 0x6eu8]) == Some(Iso639_1::Rn),
            Iso639_1::Ro.spec_code() == seq![0x72u8, 0x6fu8] && Iso639_1::spec_known(seq![0x72u8, 0x6fu8]) == Some(Iso639_1::Ro),
            Iso639_1::Ru.spec_code() == seq![0x72u8, 0x75u8] && Iso639_1::spec_known(seq![0x72u8, 0x75u8]) == Some(Iso639_1::Ru),
            Iso639_1::Rw.spec_code() == seq![0x72u8, 0x77u8] && Iso639_1::spec_known(seq![0x72u8, 0x77u8]) == Some(Iso639_1::Rw),
            Iso639_1::Sa.spec_code() == seq![0x73u8, 0x61u8] && Iso639_1::spec_known(seq![0x73u8, 0x61u8]) == Some(Iso639_1::Sa),
            Iso639_1::Sc.spec_code() == seq![0x73u8, 0x63u8] && Iso639_1::spec_known(seq![0x73u8, 0x63u8]) == Some(Iso639_1::Sc),
            Iso639_1::Sd.spec_code() == seq![0x73u8, 0x64u8] && Iso639_1::spec_known(seq![0x73u8, 0x64u8]) == Some(Iso639_1::Sd),
            Iso639_1::Se.spec_code() == seq![0x73u8, 0x65u8] && Iso639_1::spec_known(seq![0x73u8, 0x65u8]) == Some(Iso639_1::Se),
            Iso639_1::Sg.spec_code() == seq![0x73u8, 0x67u8] && Iso639_1::spec_known(seq![0x73u8, 0x67u8]) == Some(Iso639_1::Sg),
            Iso639_1::Si.spec_code() == seq![0x73u8, 0x69u8] && Iso639_1::spec_known(seq![0x73u8, 0x69u8]) == Some(Iso639_1::Si),
            Iso639_1::Sk.spec_code() == seq![0x73u8, 0x6bu8] && Iso639_1::spec_known(seq![0x73u8, 0x6bu8]) == Some(Iso639_1::Sk),
            Iso639_1::Sl.spec_code() == seq![0x73u8, 0x6cu8] && Iso639_1::spec_known(seq![0x73u8, 0x6cu8]) == Some(Iso639_1::Sl),
            Iso639_1::Sm.spec_code() == seq![0x73u8, 0x6du8] && Iso639_1::spec_known(seq![0x73u8, 0x6du8]) == Some(Iso639_1::Sm),
            Iso639_1::Sn.spec_code() == seq![0x73u8, 0x6eu8] && Iso639_1::spec_known(seq![0x73u8, 0x6eu8]) == Some(Iso639_1::Sn),
            Iso639_1::So.spec_code() == seq![0x73u8, 0x6fu8] && Iso639_1::spec_known(seq![0x73u8, 0x6fu8]) == Some(Iso639_1::So),
            Iso639_1::Sq.spec_code() == seq![0x73u8, 0x71u8] && Iso639_1::spec_known(seq![0x73u8, 0x71u8]) == Some(Iso639_1::Sq),
            Iso639_1::Sr.spec_code() == seq![0x73u8, 0x72u8] && Iso639_1::spec_known(seq![0x73u8, 0x72u8]) == Some(Iso639_1::Sr),
    {
    }

    /// The two letter code of each supported language, both ways (continued).
    #[verifier::spinoff_prover]
    pub proof fn lemma_code_table_6()
        ensures
            Iso639_1::Ss.spec_code() == seq![0x73u8, 0x73u8] && Iso639_1::spec_known(seq![0x73u8, 0x73u8]) == Some(Iso639_1::Ss),
            Iso639_1::St.spec_code() == seq![0x73u8, 0x74u8] && Iso639_1::spec_known(seq![0x73u8, 0x74u8]) == Some(Iso639_1::St),
            Iso639_1::Su.spec_code() == seq![0x73u8, 0x75u8] && Iso639_1::spec_known(seq![0x73u8, 0x75u8]) == Some(Iso639_1::Su),
            Iso639_1::Sv.spec_code() == seq![0x73u8, 0x76u8] && Iso639_1::spec_known(seq![0x73u8, 0x76u8]) == Some(Iso639_1::Sv),
            Iso639_1::Sw.spec_code() == seq![0x73u8, 0x77u8] && Iso639_1::spec_known(seq![0x73u8, 0x77u8]) == Some(Iso639_1::Sw),
            Iso639_1::Ta.spec_code() == seq![0x74u8, 0x61u8] && Iso639_1::spec_known(seq![0x74u8, 0x61u8]) == Some(Iso639_1::Ta),
            Iso639_1::Te.spec_code() == seq![0x74u8, 0x65u8] && Iso639_1::spec_known(seq![0x74u8, 0x65u8]) == Some(Iso639_1::Te),
            Iso639_1::Tg.spec_code() == seq![0x74u8, 0x67u8] && Iso639_1::spec_known(seq![0x74u8, 0x67u8]) == Some(Iso639_1::Tg),
            Iso639_1::Th.spec_code() == seq![0x74u8, 0x68u8] && Iso639_1::spec_known(seq![0x74u8, 0x68u8]) == Some(Iso639_1::Th),
            Iso639_1::Ti.spec_code() == seq![0x74u8, 0x69u8] && Iso639_1::spec_known(seq![0x74u8, 0x69u8]) == Some(Iso639_1::Ti),
            Iso639_1::Tk.spec_code() == seq![0x74u8, 0x6bu8] && Iso639_1::spec_known(seq![0x74u8, 0x6bu8]) == Some(Iso639_1::Tk),
            Iso639_1::Tl.spec_code() == seq![0x74u8, 0x6cu8] && Iso639_1::spec_known(seq![0x74u8, 0x6cu8]) == Some(Iso639_1::Tl),
            Iso639_1::Tn.spec_code() == seq![0x74u8, 0x6eu8] && Iso639_1::spec_known(seq![0x74u8, 0x6eu8]) == Some(Iso639_1::Tn),
            Iso639_1::To.spec_code() == seq![0x74u8, 0x6fu8] && Iso639_1::spec_known(seq![0x74u8, 0x6fu8]) == Some(Iso639_1::To),
            Iso639_1::Tr.spec_code() == seq![0x74u8, 0x72u8] && Iso639_1::spec_known(seq![0x74u8, 0x72u8]) == Some(Iso639_1::Tr),
            Iso639_1::Ts.spec_code() == seq![0x74u8, 0x73u8] && Iso639_1::spec_known(seq![0x74u8, 0x73u8]) == Some(Iso639_1::Ts),
            Iso639_1::Tt.spec_code() == seq![0x74u8, 0x74u8] && Iso639_1::spec_known(seq![0x74u8, 0x74u8]) == Some(Iso639_1::Tt),
            Iso639_1::Tw.spec_code() == seq![0x74u8, 0x77u8] && Iso639_1::spec_known(seq![0x74u8, 0x77u8]) == Some(Iso639_1::Tw),
            Iso639_1::Ty.spec_code() == seq![0x74u8, 0x79u8] && Iso639_1::spec_known(seq![0x74u8, 0x79u8]) == Some(Iso639_1::Ty),
            Iso639_1::Ug.spec_code() == seq![0x75u8, 0x67u8] && Iso639_1::spec_known(seq![0x75u8, 0x67u8]) == Some(Iso639_1::Ug),
            Iso639_1::Uk.spec_code() == seq![0x75u8, 0x6bu8] && Iso639_1::spec_known(seq![0x75u8, 0x6bu8]) == Some(Iso639_1::Uk),
            Iso639_1::Ur.spec_code() == seq![0x75u8, 0x72u8] && Iso639_1::spec_known(seq![0x75u8, 0x72u8]) == Some(Iso639_1::Ur),
            Iso639_1::Uz.spec_code() == seq![0x75u8, 0x7au8] && Iso639_1::spec_known(seq![0x75u8, 0x7au8]) == Some(Iso639_1::Uz),
            Iso639_1::Ve.spec_code() == seq![0x76u8, 0x65u8] && Iso639_1::spec_known(seq![0x76u8, 0x65u8]) == Some(Iso639_1::Ve),
            Iso639_1::Vi.spec_code() == seq![0x76u8, 0x69u8] && Iso639_1::spec_known(seq![0x76u8, 0x69u8]) == Some(Iso639_1::Vi),
            Iso639_1::Vo.spec_code() == seq![0x76u8, 0x6fu8] && Iso639_1::spec_known(seq![0x76u8, 0x6fu8]) == Some(Iso639_1::Vo),
            Iso639_1::Wa.spec_code() == seq![0x77u8, 0x61u8] && Iso639_1::spec_known(seq![0x77u8, 0x61u8]) == Some(Iso639_1::Wa),
            Iso639_1::Wo.spec_code() == seq![0x77u8, 0x6fu8] && Iso639_1::spec_known(seq![0x77u8, 0x6fu8]) == Some(Iso639_1::Wo),
            Iso639_1::Xh.spec_code() == seq![0x78u8, 0x68u8] && Iso639_1::spec_known(seq![0x78u8, 0x68u8]) == Some(Iso639_1::Xh),
            Iso639_1::Yi.spec_code() == seq![0x79u8, 0x69u8] && Iso639_1::spec_known(seq![0x79u8, 0x69u8]) == Some(Iso639_1::Yi),
    {
    }

    /// The two letter code of each supported language, both ways (continued).
    #[verifier::spinoff_prover]
    pub proof fn lemma_code_table_7()
        ensures
            Iso639_1::Yo.spec_code() == seq![0x79u8, 0x6fu8] && Iso639_1::spec_known(seq![0x79u8, 0x6fu8]) == Some(Iso639_1::Yo),
            Iso639_1::Za.spec_code() == seq![0x7au8, 0x61u8] && Iso639_1::spec_known(seq![0x7au8, 0x61u8]) == Some(Iso639_1::Za),
            Iso639_1::Zh.spec_code() == seq![0x7au8, 0x68u8] && Iso639_1::spec_known(seq![0x7au8, 0x68u8]) == Some(Iso639_1::Zh),
            Iso639_1::Zu.spec_code() == seq![0x7au8, 0x75u8] && Iso639_1::spec_known(seq![0x7au8, 0x75u8]) == Some(Iso639_1::Zu),
    {
    }
}

} // verus!
