//! RDM parameters: their identifiers and data types.

pub mod e120;
pub mod e133;
pub mod e137_1;
pub mod e137_2;
pub mod e137_7;
pub mod lists;

pub use crate::rdm::utils::decode_string_bytes;

use crate::rdm::wire::FixedWire;
use vstd::prelude::*;
use vstd::std_specs::convert::{FromSpecImpl, TryFromSpecImpl};

verus! {

#[derive(Copy, Clone, Debug, PartialEq, Eq, Structural)]
pub enum ParameterId {
    DiscUniqueBranch,
    DiscMute,
    DiscUnMute,
    ProxiedDevices,
    ProxiedDeviceCount,
    CommsStatus,
    QueuedMessage,
    StatusMessages,
    StatusIdDescription,
    ClearStatusId,
    SubDeviceIdStatusReportThreshold,
    SupportedParameters,
    ParameterDescription,
    DeviceInfo,
    ProductDetailIdList,
    DeviceModelDescription,
    ManufacturerLabel,
    DeviceLabel,
    FactoryDefaults,
    LanguageCapabilities,
    Language,
    SoftwareVersionLabel,
    BootSoftwareVersionId,
    BootSoftwareVersionLabel,
    DmxPersonality,
    DmxPersonalityDescription,
    DmxStartAddress,
    SlotInfo,
    SlotDescription,
    DefaultSlotValue,
    SensorDefinition,
    SensorValue,
    RecordSensors,
    DeviceHours,
    LampHours,
    LampStrikes,
    LampState,
    LampOnMode,
    DevicePowerCycles,
    DisplayInvert,
    DisplayLevel,
    PanInvert,
    TiltInvert,
    PanTiltSwap,
    RealTimeClock,
    IdentifyDevice,
    ResetDevice,
    PowerState,
    PerformSelfTest,
    SelfTestDescription,
    CapturePreset,
    PresetPlayback,
    DmxBlockAddress,
    DmxFailMode,
    DmxStartupMode,
    DimmerInfo,
    MinimumLevel,
    MaximumLevel,
    Curve,
    CurveDescription,
    OutputResponseTime,
    OutputResponseTimeDescription,
    ModulationFrequency,
    ModulationFrequencyDescription,
    BurnIn,
    LockPin,
    LockState,
    LockStateDescription,
    IdentifyMode,
    PresetInfo,
    PresetStatus,
    PresetMergeMode,
    PowerOnSelfTest,
    ListInterfaces,
    InterfaceLabel,
    InterfaceHardwareAddressType1,
    IpV4DhcpMode,
    IpV4ZeroConfMode,
    IpV4CurrentAddress,
    IpV4StaticAddress,
    InterfaceRenewDhcp,
    InterfaceReleaseDhcp,
    InterfaceApplyConfiguration,
    IpV4DefaultRoute,
    DnsIpV4NameServer,
    DnsHostName,
    DnsDomainName,
    EndpointList,
    EndpointListChange,
    IdentifyEndpoint,
    EndpointToUniverse,
    EndpointMode,
    EndpointLabel,
    RdmTrafficEnable,
    DiscoveryState,
    BackgroundDiscovery,
    EndpointTiming,
    EndpointTimingDescription,
    EndpointResponders,
    EndpointResponderListChange,
    BindingControlFields,
    BackgroundQueuedStatusPolicy,
    BackgroundQueuedStatusPolicyDescription,
    ComponentScope,
    SearchDomain,
    TcpCommsStatus,
    BrokerStatus,
    Custom(u16),
}

impl ParameterId {
    /// The wire value of the variant.
    pub open spec fn spec_to_u16(self) -> u16 {
        match self {
            ParameterId::DiscUniqueBranch => 0x0001,
            ParameterId::DiscMute => 0x0002,
            ParameterId::DiscUnMute => 0x0003,
            ParameterId::ProxiedDevices => 0x0010,
            ParameterId::ProxiedDeviceCount => 0x0011,
            ParameterId::CommsStatus => 0x0015,
            ParameterId::QueuedMessage => 0x0020,
            ParameterId::StatusMessages => 0x0030,
            ParameterId::StatusIdDescription => 0x0031,
            ParameterId::ClearStatusId => 0x0032,
            ParameterId::SubDeviceIdStatusReportThreshold => 0x0033,
            ParameterId::SupportedParameters => 0x0050,
            ParameterId::ParameterDescription => 0x0051,
            ParameterId::DeviceInfo => 0x0060,
            ParameterId::ProductDetailIdList => 0x0070,
            ParameterId::DeviceModelDescription => 0x0080,
            ParameterId::ManufacturerLabel => 0x0081,
            ParameterId::DeviceLabel => 0x0082,
            ParameterId::FactoryDefaults => 0x0090,
            ParameterId::LanguageCapabilities => 0x00a0,
            ParameterId::Language => 0x00b0,
            ParameterId::SoftwareVersionLabel => 0x00c0,
            ParameterId::BootSoftwareVersionId => 0x00c1,
            ParameterId::BootSoftwareVersionLabel => 0x00c2,
            ParameterId::DmxPersonality => 0x00e0,
            ParameterId::DmxPersonalityDescription => 0x00e1,
            ParameterId::DmxStartAddress => 0x00f0,
            ParameterId::SlotInfo => 0x0120,
            ParameterId::SlotDescription => 0x0121,
            ParameterId::DefaultSlotValue => 0x0122,
            ParameterId::SensorDefinition => 0x0200,
            ParameterId::SensorValue => 0x0201,
            ParameterId::RecordSensors => 0x0202,
            ParameterId::DeviceHours => 0x0400,
            ParameterId::LampHours => 0x0401,
            ParameterId::LampStrikes => 0x0402,
            ParameterId::LampState => 0x0403,
            ParameterId::LampOnMode => 0x0404,
            ParameterId::DevicePowerCycles => 0x0405,
            ParameterId::DisplayInvert => 0x0500,
            ParameterId::DisplayLevel => 0x0501,
            ParameterId::PanInvert => 0x0600,
            ParameterId::TiltInvert => 0x0601,
            ParameterId::PanTiltSwap => 0x0602,
            ParameterId::RealTimeClock => 0x0603,
            ParameterId::IdentifyDevice => 0x1000,
            ParameterId::ResetDevice => 0x1001,
            ParameterId::PowerState => 0x1010,
            ParameterId::PerformSelfTest => 0x1020,
            ParameterId::SelfTestDescription => 0x1021,
            ParameterId::CapturePreset => 0x1030,
            ParameterId::PresetPlayback => 0x1031,
            ParameterId::DmxBlockAddress => 0x0140,
            ParameterId::DmxFailMode => 0x0141,
            ParameterId::DmxStartupMode => 0x0142,
            ParameterId::DimmerInfo => 0x0340,
            ParameterId::MinimumLevel => 0x0341,
            ParameterId::MaximumLevel => 0x0342,
            ParameterId::Curve => 0x0343,
            ParameterId::CurveDescription => 0x0344,
            ParameterId::OutputResponseTime => 0x0345,
            ParameterId::OutputResponseTimeDescription => 0x0346,
            ParameterId::ModulationFrequency => 0x0347,
            ParameterId::ModulationFrequencyDescription => 0x0348,
            ParameterId::BurnIn => 0x0440,
            ParameterId::LockPin => 0x0640,
            ParameterId::LockState => 0x0641,
            ParameterId::LockStateDescription => 0x0642,
            ParameterId::IdentifyMode => 0x1040,
            ParameterId::PresetInfo => 0x1041,
            ParameterId::PresetStatus => 0x1042,
            ParameterId::PresetMergeMode => 0x1043,
            ParameterId::PowerOnSelfTest => 0x1044,
            ParameterId::ListInterfaces => 0x0700,
            ParameterId::InterfaceLabel => 0x0701,
            ParameterId::InterfaceHardwareAddressType1 => 0x0702,
            ParameterId::IpV4DhcpMode => 0x0703,
            ParameterId::IpV4ZeroConfMode => 0x0704,
            ParameterId::IpV4CurrentAddress => 0x0705,
            ParameterId::IpV4StaticAddress => 0x0706,
            ParameterId::InterfaceRenewDhcp => 0x0707,
            ParameterId::InterfaceReleaseDhcp => 0x0708,
            ParameterId::InterfaceApplyConfiguration => 0x0709,
            ParameterId::IpV4DefaultRoute => 0x070a,
            ParameterId::DnsIpV4NameServer => 0x070b,
            ParameterId::DnsHostName => 0x070c,
            ParameterId::DnsDomainName => 0x070d,
            ParameterId::EndpointList => 0x0900,
            ParameterId::EndpointListChange => 0x0901,
            ParameterId::IdentifyEndpoint => 0x0902,
            ParameterId::EndpointToUniverse => 0x0903,
            ParameterId::EndpointMode => 0x0904,
            ParameterId::EndpointLabel => 0x0905,
            ParameterId::RdmTrafficEnable => 0x0906,
            ParameterId::DiscoveryState => 0x0907,
            ParameterId::BackgroundDiscovery => 0x0908,
            ParameterId::EndpointTiming => 0x0909,
            ParameterId::EndpointTimingDescription => 0x090a,
            ParameterId::EndpointResponders => 0x090b,
            ParameterId::EndpointResponderListChange => 0x090c,
            ParameterId::BindingControlFields => 0x090d,
            ParameterId::BackgroundQueuedStatusPolicy => 0x090e,
            ParameterId::BackgroundQueuedStatusPolicyDescription => 0x090f,
            ParameterId::ComponentScope => 0x0800,
            ParameterId::SearchDomain => 0x0801,
            ParameterId::TcpCommsStatus => 0x0802,
            ParameterId::BrokerStatus => 0x0803,
            ParameterId::Custom(value) => value,
        }
    }

    /// The variant that a wire value stands for.
    pub open spec fn spec_from_u16(value: u16) -> Self {
        match value {
            0x0001 => ParameterId::DiscUniqueBranch,
            0x0002 => ParameterId::DiscMute,
            0x0003 => ParameterId::DiscUnMute,
            0x0010 => ParameterId::ProxiedDevices,
            0x0011 => ParameterId::ProxiedDeviceCount,
            0x0015 => ParameterId::CommsStatus,
            0x0020 => ParameterId::QueuedMessage,
            0x0030 => ParameterId::StatusMessages,
            0x0031 => ParameterId::StatusIdDescription,
            0x0032 => ParameterId::ClearStatusId,
            0x0033 => ParameterId::SubDeviceIdStatusReportThreshold,
            0x0050 => ParameterId::SupportedParameters,
            0x0051 => ParameterId::ParameterDescription,
            0x0060 => ParameterId::DeviceInfo,
            0x0070 => ParameterId::ProductDetailIdList,
            0x0080 => ParameterId::DeviceModelDescription,
            0x0081 => ParameterId::ManufacturerLabel,
            0x0082 => ParameterId::DeviceLabel,
            0x0090 => ParameterId::FactoryDefaults,
            0x00a0 => ParameterId::LanguageCapabilities,
            0x00b0 => ParameterId::Language,
            0x00c0 => ParameterId::SoftwareVersionLabel,
            0x00c1 => ParameterId::BootSoftwareVersionId,
            0x00c2 => ParameterId::BootSoftwareVersionLabel,
            0x00e0 => ParameterId::DmxPersonality,
            0x00e1 => ParameterId::DmxPersonalityDescription,
            0x00f0 => ParameterId::DmxStartAddress,
            0x0120 => ParameterId::SlotInfo,
            0x0121 => ParameterId::SlotDescription,
            0x0122 => ParameterId::DefaultSlotValue,
            0x0200 => ParameterId::SensorDefinition,
            0x0201 => ParameterId::SensorValue,
            0x0202 => ParameterId::RecordSensors,
            0x0400 => ParameterId::DeviceHours,
            0x0401 => ParameterId::LampHours,
            0x0402 => ParameterId::LampStrikes,
            0x0403 => ParameterId::LampState,
            0x0404 => ParameterId::LampOnMode,
            0x0405 => ParameterId::DevicePowerCycles,
            0x0500 => ParameterId::DisplayInvert,
            0x0501 => ParameterId::DisplayLevel,
            0x0600 => ParameterId::PanInvert,
            0x0601 => ParameterId::TiltInvert,
            0x0602 => ParameterId::PanTiltSwap,
            0x0603 => ParameterId::RealTimeClock,
            0x1000 => ParameterId::IdentifyDevice,
            0x1001 => ParameterId::ResetDevice,
            0x1010 => ParameterId::PowerState,
            0x1020 => ParameterId::PerformSelfTest,
            0x1021 => ParameterId::SelfTestDescription,
            0x1030 => ParameterId::CapturePreset,
            0x1031 => ParameterId::PresetPlayback,
            0x0140 => ParameterId::DmxBlockAddress,
            0x0141 => ParameterId::DmxFailMode,
            0x0142 => ParameterId::DmxStartupMode,
            0x0340 => ParameterId::DimmerInfo,
            0x0341 => ParameterId::MinimumLevel,
            0x0342 => ParameterId::MaximumLevel,
            0x0343 => ParameterId::Curve,
            0x0344 => ParameterId::CurveDescription,
            0x0345 => ParameterId::OutputResponseTime,
            0x0346 => ParameterId::OutputResponseTimeDescription,
            0x0347 => ParameterId::ModulationFrequency,
            0x0348 => ParameterId::ModulationFrequencyDescription,
            0x0440 => ParameterId::BurnIn,
            0x0640 => ParameterId::LockPin,
            0x0641 => ParameterId::LockState,
            0x0642 => ParameterId::LockStateDescription,
            0x1040 => ParameterId::IdentifyMode,
            0x1041 => ParameterId::PresetInfo,
            0x1042 => ParameterId::PresetStatus,
            0x1043 => ParameterId::PresetMergeMode,
            0x1044 => ParameterId::PowerOnSelfTest,
            0x0700 => ParameterId::ListInterfaces,
            0x0701 => ParameterId::InterfaceLabel,
            0x0702 => ParameterId::InterfaceHardwareAddressType1,
            0x0703 => ParameterId::IpV4DhcpMode,
            0x0704 => ParameterId::IpV4ZeroConfMode,
            0x0705 => ParameterId::IpV4CurrentAddress,
            0x0706 => ParameterId::IpV4StaticAddress,
            0x0707 => ParameterId::InterfaceRenewDhcp,
            0x0708 => ParameterId::InterfaceReleaseDhcp,
            0x0709 => ParameterId::InterfaceApplyConfiguration,
            0x070a => ParameterId::IpV4DefaultRoute,
            0x070b => ParameterId::DnsIpV4NameServer,
            0x070c => ParameterId::DnsHostName,
            0x070d => ParameterId::DnsDomainName,
            0x0900 => ParameterId::EndpointList,
            0x0901 => ParameterId::EndpointListChange,
            0x0902 => ParameterId::IdentifyEndpoint,
            0x0903 => ParameterId::EndpointToUniverse,
            0x0904 => ParameterId::EndpointMode,
            0x0905 => ParameterId::EndpointLabel,
            0x0906 => ParameterId::RdmTrafficEnable,
            0x0907 => ParameterId::DiscoveryState,
            0x0908 => ParameterId::BackgroundDiscovery,
            0x0909 => ParameterId::EndpointTiming,
            0x090a => ParameterId::EndpointTimingDescription,
            0x090b => ParameterId::EndpointResponders,
            0x090c => ParameterId::EndpointResponderListChange,
            0x090d => ParameterId::BindingControlFields,
            0x090e => ParameterId::BackgroundQueuedStatusPolicy,
            0x090f => ParameterId::BackgroundQueuedStatusPolicyDescription,
            0x0800 => ParameterId::ComponentScope,
            0x0801 => ParameterId::SearchDomain,
            0x0802 => ParameterId::TcpCommsStatus,
            0x0803 => ParameterId::BrokerStatus,
            _ => ParameterId::Custom(value),
        }
    }

    /// Whether the value is one that decoding its wire value gives back.
    pub open spec fn spec_wire_valid(self) -> bool {
        match self {
            ParameterId::Custom(value) => value != 0x0001 && value != 0x0002 && value != 0x0003 && value != 0x0010 && value != 0x0011 && value != 0x0015 && value != 0x0020 && value != 0x0030 && value != 0x0031 && value != 0x0032 && value != 0x0033 && value != 0x0050 && value != 0x0051 && value != 0x0060 && value != 0x0070 && value != 0x0080 && value != 0x0081 && value != 0x0082 && value != 0x0090 && value != 0x00a0 && value != 0x00b0 && value != 0x00c0 && value != 0x00c1 && value != 0x00c2 && value != 0x00e0 && value != 0x00e1 && value != 0x00f0 && value != 0x0120 && value != 0x0121 && value != 0x0122 && value != 0x0200 && value != 0x0201 && value != 0x0202 && value != 0x0400 && value != 0x0401 && value != 0x0402 && value != 0x0403 && value != 0x0404 && value != 0x0405 && value != 0x0500 && value != 0x0501 && value != 0x0600 && value != 0x0601 && value != 0x0602 && value != 0x0603 && value != 0x1000 && value != 0x1001 && value != 0x1010 && value != 0x1020 && value != 0x1021 && value != 0x1030 && value != 0x1031 && value != 0x0140 && value != 0x0141 && value != 0x0142 && value != 0x0340 && value != 0x0341 && value != 0x0342 && value != 0x0343 && value != 0x0344 && value != 0x0345 && value != 0x0346 && value != 0x0347 && value != 0x0348 && value != 0x0440 && value != 0x0640 && value != 0x0641 && value != 0x0642 && value != 0x1040 && value != 0x1041 && value != 0x1042 && value != 0x1043 && value != 0x1044 && value != 0x0700 && value != 0x0701 && value != 0x0702 && value != 0x0703 && value != 0x0704 && value != 0x0705 && value != 0x0706 && value != 0x0707 && value != 0x0708 && value != 0x0709 && value != 0x070a && value != 0x070b && value != 0x070c && value != 0x070d && value != 0x0900 && value != 0x0901 && value != 0x0902 && value != 0x0903 && value != 0x0904 && value != 0x0905 && value != 0x0906 && value != 0x0907 && value != 0x0908 && value != 0x0909 && value != 0x090a && value != 0x090b && value != 0x090c && value != 0x090d && value != 0x090e && value != 0x090f && value != 0x0800 && value != 0x0801 && value != 0x0802 && value != 0x0803,
            _ => true,
        }
    }

    /// Decoding the wire value of a valid variant gives it back.
    pub proof fn lemma_encode_decode(self)
        requires
            self.spec_wire_valid(),
        ensures
            Self::spec_from_u16(self.spec_to_u16()) == self,
    {
    }

    /// Encoding the variant that a wire value stands for gives the value back.
    pub proof fn lemma_decode_encode(value: u16)
        ensures
            Self::spec_from_u16(value).spec_to_u16() == value,
            Self::spec_from_u16(value).spec_wire_valid(),
    {
    }
}

impl ParameterId {
    /// The wire value of the variant.
    #[verifier::rlimit(50)]
    pub fn to_u16(&self) -> (r: u16)
        ensures
            r == self.spec_to_u16(),
    {
        match self {
            ParameterId::DiscUniqueBranch => 0x0001,
            ParameterId::DiscMute => 0x0002,
            ParameterId::DiscUnMute => 0x0003,
            ParameterId::ProxiedDevices => 0x0010,
            ParameterId::ProxiedDeviceCount => 0x0011,
            ParameterId::CommsStatus => 0x0015,
            ParameterId::QueuedMessage => 0x0020,
            ParameterId::StatusMessages => 0x0030,
            ParameterId::StatusIdDescription => 0x0031,
            ParameterId::ClearStatusId => 0x0032,
            ParameterId::SubDeviceIdStatusReportThreshold => 0x0033,
            ParameterId::SupportedParameters => 0x0050,
            ParameterId::ParameterDescription => 0x0051,
            ParameterId::DeviceInfo => 0x0060,
            ParameterId::ProductDetailIdList => 0x0070,
            ParameterId::DeviceModelDescription => 0x0080,
            ParameterId::ManufacturerLabel => 0x0081,
            ParameterId::DeviceLabel => 0x0082,
            ParameterId::FactoryDefaults => 0x0090,
            ParameterId::LanguageCapabilities => 0x00a0,
            ParameterId::Language => 0x00b0,
            ParameterId::SoftwareVersionLabel => 0x00c0,
            ParameterId::BootSoftwareVersionId => 0x00c1,
            ParameterId::BootSoftwareVersionLabel => 0x00c2,
            ParameterId::DmxPersonality => 0x00e0,
            ParameterId::DmxPersonalityDescription => 0x00e1,
            ParameterId::DmxStartAddress => 0x00f0,
            ParameterId::SlotInfo => 0x0120,
            ParameterId::SlotDescription => 0x0121,
            ParameterId::DefaultSlotValue => 0x0122,
            ParameterId::SensorDefinition => 0x0200,
            ParameterId::SensorValue => 0x0201,
            ParameterId::RecordSensors => 0x0202,
            ParameterId::DeviceHours => 0x0400,
            ParameterId::LampHours => 0x0401,
            ParameterId::LampStrikes => 0x0402,
            ParameterId::LampState => 0x0403,
            ParameterId::LampOnMode => 0x0404,
            ParameterId::DevicePowerCycles => 0x0405,
            ParameterId::DisplayInvert => 0x0500,
            ParameterId::DisplayLevel => 0x0501,
            ParameterId::PanInvert => 0x0600,
            ParameterId::TiltInvert => 0x0601,
            ParameterId::PanTiltSwap => 0x0602,
            ParameterId::RealTimeClock => 0x0603,
            ParameterId::IdentifyDevice => 0x1000,
            ParameterId::ResetDevice => 0x1001,
            ParameterId::PowerState => 0x1010,
            ParameterId::PerformSelfTest => 0x1020,
            ParameterId::SelfTestDescription => 0x1021,
            ParameterId::CapturePreset => 0x1030,
            ParameterId::PresetPlayback => 0x1031,
            ParameterId::DmxBlockAddress => 0x0140,
            ParameterId::DmxFailMode => 0x0141,
            ParameterId::DmxStartupMode => 0x0142,
            ParameterId::DimmerInfo => 0x0340,
            ParameterId::MinimumLevel => 0x0341,
            ParameterId::MaximumLevel => 0x0342,
            ParameterId::Curve => 0x0343,
            ParameterId::CurveDescription => 0x0344,
            ParameterId::OutputResponseTime => 0x0345,
            ParameterId::OutputResponseTimeDescription => 0x0346,
            ParameterId::ModulationFrequency => 0x0347,
            ParameterId::ModulationFrequencyDescription => 0x0348,
            ParameterId::BurnIn => 0x0440,
            ParameterId::LockPin => 0x0640,
            ParameterId::LockState => 0x0641,
            ParameterId::LockStateDescription => 0x0642,
            ParameterId::IdentifyMode => 0x1040,
            ParameterId::PresetInfo => 0x1041,
            ParameterId::PresetStatus => 0x1042,
            ParameterId::PresetMergeMode => 0x1043,
            ParameterId::PowerOnSelfTest => 0x1044,
            ParameterId::ListInterfaces => 0x0700,
            ParameterId::InterfaceLabel => 0x0701,
            ParameterId::InterfaceHardwareAddressType1 => 0x0702,
            ParameterId::IpV4DhcpMode => 0x0703,
            ParameterId::IpV4ZeroConfMode => 0x0704,
            ParameterId::IpV4CurrentAddress => 0x0705,
            ParameterId::IpV4StaticAddress => 0x0706,
            ParameterId::InterfaceRenewDhcp => 0x0707,
            ParameterId::InterfaceReleaseDhcp => 0x0708,
            ParameterId::InterfaceApplyConfiguration => 0x0709,
            ParameterId::IpV4DefaultRoute => 0x070a,
            ParameterId::DnsIpV4NameServer => 0x070b,
            ParameterId::DnsHostName => 0x070c,
            ParameterId::DnsDomainName => 0x070d,
            ParameterId::EndpointList => 0x0900,
            ParameterId::EndpointListChange => 0x0901,
            ParameterId::IdentifyEndpoint => 0x0902,
            ParameterId::EndpointToUniverse => 0x0903,
            ParameterId::EndpointMode => 0x0904,
            ParameterId::EndpointLabel => 0x0905,
            ParameterId::RdmTrafficEnable => 0x0906,
            ParameterId::DiscoveryState => 0x0907,
            ParameterId::BackgroundDiscovery => 0x0908,
            ParameterId::EndpointTiming => 0x0909,
            ParameterId::EndpointTimingDescription => 0x090a,
            ParameterId::EndpointResponders => 0x090b,
            ParameterId::EndpointResponderListChange => 0x090c,
            ParameterId::BindingControlFields => 0x090d,
            ParameterId::BackgroundQueuedStatusPolicy => 0x090e,
            ParameterId::BackgroundQueuedStatusPolicyDescription => 0x090f,
            ParameterId::ComponentScope => 0x0800,
            ParameterId::SearchDomain => 0x0801,
            ParameterId::TcpCommsStatus => 0x0802,
            ParameterId::BrokerStatus => 0x0803,
            ParameterId::Custom(value) => *value,
        }
    }

    /// The variant that a wire value stands for.
    #[verifier::rlimit(50)]
    pub fn from_u16(value: u16) -> (r: Self)
        ensures
            r == Self::spec_from_u16(value),
    {
        match value {
            0x0001 => ParameterId::DiscUniqueBranch,
            0x0002 => ParameterId::DiscMute,
            0x0003 => ParameterId::DiscUnMute,
            0x0010 => ParameterId::ProxiedDevices,
            0x0011 => ParameterId::ProxiedDeviceCount,
            0x0015 => ParameterId::CommsStatus,
            0x0020 => ParameterId::QueuedMessage,
            0x0030 => ParameterId::StatusMessages,
            0x0031 => ParameterId::StatusIdDescription,
            0x0032 => ParameterId::ClearStatusId,
            0x0033 => ParameterId::SubDeviceIdStatusReportThreshold,
            0x0050 => ParameterId::SupportedParameters,
            0x0051 => ParameterId::ParameterDescription,
            0x0060 => ParameterId::DeviceInfo,
            0x0070 => ParameterId::ProductDetailIdList,
            0x0080 => ParameterId::DeviceModelDescription,
            0x0081 => ParameterId::ManufacturerLabel,
            0x0082 => ParameterId::DeviceLabel,
            0x0090 => ParameterId::FactoryDefaults,
            0x00a0 => ParameterId::LanguageCapabilities,
            0x00b0 => ParameterId::Language,
            0x00c0 => ParameterId::SoftwareVersionLabel,
            0x00c1 => ParameterId::BootSoftwareVersionId,
            0x00c2 => ParameterId::BootSoftwareVersionLabel,
            0x00e0 => ParameterId::DmxPersonality,
            0x00e1 => ParameterId::DmxPersonalityDescription,
            0x00f0 => ParameterId::DmxStartAddress,
            0x0120 => ParameterId::SlotInfo,
            0x0121 => ParameterId::SlotDescription,
            0x0122 => ParameterId::DefaultSlotValue,
            0x0200 => ParameterId::SensorDefinition,
            0x0201 => ParameterId::SensorValue,
            0x0202 => ParameterId::RecordSensors,
            0x0400 => ParameterId::DeviceHours,
            0x0401 => ParameterId::LampHours,
            0x0402 => ParameterId::LampStrikes,
            0x0403 => ParameterId::LampState,
            0x0404 => ParameterId::LampOnMode,
            0x0405 => ParameterId::DevicePowerCycles,
            0x0500 => ParameterId::DisplayInvert,
            0x0501 => ParameterId::DisplayLevel,
            0x0600 => ParameterId::PanInvert,
            0x0601 => ParameterId::TiltInvert,
            0x0602 => ParameterId::PanTiltSwap,
            0x0603 => ParameterId::RealTimeClock,
            0x1000 => ParameterId::IdentifyDevice,
            0x1001 => ParameterId::ResetDevice,
            0x1010 => ParameterId::PowerState,
            0x1020 => ParameterId::PerformSelfTest,
            0x1021 => ParameterId::SelfTestDescription,
            0x1030 => ParameterId::CapturePreset,
            0x1031 => ParameterId::PresetPlayback,
            0x0140 => ParameterId::DmxBlockAddress,
            0x0141 => ParameterId::DmxFailMode,
            0x0142 => ParameterId::DmxStartupMode,
            0x0340 => ParameterId::DimmerInfo,
            0x0341 => ParameterId::MinimumLevel,
            0x0342 => ParameterId::MaximumLevel,
            0x0343 => ParameterId::Curve,
            0x0344 => ParameterId::CurveDescription,
            0x0345 => ParameterId::OutputResponseTime,
            0x0346 => ParameterId::OutputResponseTimeDescription,
            0x0347 => ParameterId::ModulationFrequency,
            0x0348 => ParameterId::ModulationFrequencyDescription,
            0x0440 => ParameterId::BurnIn,
            0x0640 => ParameterId::LockPin,
            0x0641 => ParameterId::LockState,
            0x0642 => ParameterId::LockStateDescription,
            0x1040 => ParameterId::IdentifyMode,
            0x1041 => ParameterId::PresetInfo,
            0x1042 => ParameterId::PresetStatus,
            0x1043 => ParameterId::PresetMergeMode,
            0x1044 => ParameterId::PowerOnSelfTest,
            0x0700 => ParameterId::ListInterfaces,
            0x0701 => ParameterId::InterfaceLabel,
            0x0702 => ParameterId::InterfaceHardwareAddressType1,
            0x0703 => ParameterId::IpV4DhcpMode,
            0x0704 => ParameterId::IpV4ZeroConfMode,
            0x0705 => ParameterId::IpV4CurrentAddress,
            0x0706 => ParameterId::IpV4StaticAddress,
            0x0707 => ParameterId::InterfaceRenewDhcp,
            0x0708 => ParameterId::InterfaceReleaseDhcp,
            0x0709 => ParameterId::InterfaceApplyConfiguration,
            0x070a => ParameterId::IpV4DefaultRoute,
            0x070b => ParameterId::DnsIpV4NameServer,
            0x070c => ParameterId::DnsHostName,
            0x070d => ParameterId::DnsDomainName,
            0x0900 => ParameterId::EndpointList,
            0x0901 => ParameterId::EndpointListChange,
            0x0902 => ParameterId::IdentifyEndpoint,
            0x0903 => ParameterId::EndpointToUniverse,
            0x0904 => ParameterId::EndpointMode,
            0x0905 => ParameterId::EndpointLabel,
            0x0906 => ParameterId::RdmTrafficEnable,
            0x0907 => ParameterId::DiscoveryState,
            0x0908 => ParameterId::BackgroundDiscovery,
            0x0909 => ParameterId::EndpointTiming,
            0x090a => ParameterId::EndpointTimingDescription,
            0x090b => ParameterId::EndpointResponders,
            0x090c => ParameterId::EndpointResponderListChange,
            0x090d => ParameterId::BindingControlFields,
            0x090e => ParameterId::BackgroundQueuedStatusPolicy,
            0x090f => ParameterId::BackgroundQueuedStatusPolicyDescription,
            0x0800 => ParameterId::ComponentScope,
            0x0801 => ParameterId::SearchDomain,
            0x0802 => ParameterId::TcpCommsStatus,
            0x0803 => ParameterId::BrokerStatus,
            _ => ParameterId::Custom(value),
        }
    }
}

impl From<u16> for ParameterId {
    fn from(value: u16) -> (r: Self) {
        Self::from_u16(value)
    }
}

impl FromSpecImpl<u16> for ParameterId {
    open spec fn obeys_from_spec() -> bool {
        true
    }

    open spec fn from_spec(value: u16) -> Self {
        Self::spec_from_u16(value)
    }
}

impl From<ParameterId> for u16 {
    fn from(value: ParameterId) -> (r: u16) {
        value.to_u16()
    }
}

impl FromSpecImpl<ParameterId> for u16 {
    open spec fn obeys_from_spec() -> bool {
        true
    }

    open spec fn from_spec(value: ParameterId) -> u16 {
        value.spec_to_u16()
    }
}

impl<'a> FixedWire<'a> for ParameterId {
    open spec fn spec_size() -> nat {
        2
    }

    open spec fn spec_wire(&self) -> Seq<u8> {
        self.spec_to_u16().spec_wire()
    }

    open spec fn spec_read(bytes: Seq<u8>) -> Option<Self> {
        match u16::spec_read(bytes) {
            Some(value) => Some(Self::spec_from_u16(value)),
            None => None,
        }
    }

    open spec fn spec_wire_valid(&self) -> bool {
        ParameterId::spec_wire_valid(*self)
    }

    fn wire_size() -> (n: usize) {
        2
    }

    fn write_wire(&self, out: &mut Vec<u8>) {
        self.to_u16().write_wire(out);
    }

    fn read_wire(buf: &'a [u8], pos: usize) -> (r: Option<Self>) {
        let value = match u16::read_wire(buf, pos) {
            Some(value) => value,
            None => return None,
        };
        Some(Self::from_u16(value))
    }

    proof fn lemma_wire(&self) {
        self.spec_to_u16().lemma_wire();
        if self.spec_wire_valid() {
            self.lemma_encode_decode();
        }
    }
}

} // verus!
