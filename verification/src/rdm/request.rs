//! RDM requests: their parameters and frames.

use crate::rdm::common::{CommandClass, DeviceUID, SubDeviceId};
use crate::rdm::error::{ParameterDataError, RdmError};
use crate::rdm::parameter::lists::ParameterDataBuffer;
use crate::rdm::parameter::ParameterId;
use crate::rdm::utils::{be16, bsd_16_crc, checksum_spec, copy_encoded, encoded_into, extend_from, write_prefix, written_prefix};
use crate::rdm::wire::FixedWire;
use crate::rdm::{RDM_START_CODE_BYTE, RDM_SUB_START_CODE_BYTE};
use vstd::prelude::*;
use crate::rdm::parameter::e120::request::{DiscUniqueBranchRequest, GetDmxPersonalityDescriptionRequest, GetParameterDescriptionRequest, GetQueuedMessageRequest, GetSelfTestDescriptionRequest, GetSensorDefinitionRequest, GetSensorValueRequest, GetSlotDescriptionRequest, GetStatusIdDescriptionRequest, GetStatusMessagesRequest, SetCapturePresetRequest, SetDeviceHoursRequest, SetDeviceLabelRequest, SetDevicePowerCyclesRequest, SetDisplayInvertRequest, SetDisplayLevelRequest, SetDmxPersonalityRequest, SetDmxStartAddressRequest, SetIdentifyDeviceRequest, SetLampHoursRequest, SetLampOnModeRequest, SetLampStateRequest, SetLampStrikesRequest, SetLanguageRequest, SetPanInvertRequest, SetPanTiltSwapRequest, SetPerformSelfTestRequest, SetPowerStateRequest, SetPresetPlaybackRequest, SetRealTimeClockRequest, SetRecordSensorsRequest, SetResetDeviceRequest, SetSensorValueRequest, SetSubDeviceIdStatusReportThresholdRequest, SetTiltInvertRequest};
use crate::rdm::parameter::e133::request::{GetComponentScopeRequest, SetBrokerStatusRequest, SetComponentScopeRequest, SetSearchDomainRequest, SetTcpCommsStatusRequest};
use crate::rdm::parameter::e137_1::request::{GetCurveDescriptionRequest, GetModulationFrequencyDescriptionRequest, GetOutputResponseTimeDescriptionRequest, GetPresetStatusRequest, SetBurnInRequest, SetDmxBlockAddressRequest, SetDmxFailModeRequest, SetDmxStartupModeRequest, SetIdentifyModeRequest, SetLockPinRequest, SetLockStateRequest, SetMaximumLevelRequest, SetMinimumLevelRequest, SetModulationFrequencyRequest, SetOutputResponseTimeRequest, SetPowerOnSelfTestRequest, SetPresetMergeModeRequest, SetPresetStatusRequest};
use crate::rdm::parameter::e137_2::request::{GetDnsIpV4NameServerRequest, GetInterfaceHardwareAddressType1Request, GetInterfaceLabelRequest, GetIpV4CurrentAddressRequest, GetIpV4DhcpModeRequest, GetIpV4StaticAddressRequest, GetIpV4ZeroConfModeRequest, SetDnsDomainNameRequest, SetDnsHostNameRequest, SetDnsIpv4NameServerRequest, SetInterfaceApplyConfigurationRequest, SetInterfaceReleaseDhcpRequest, SetInterfaceRenewDhcpRequest, SetIpV4DefaultRouteRequest, SetIpV4DhcpModeRequest, SetIpV4StaticAddressRequest, SetIpV4ZeroConfModeRequest};
use crate::rdm::parameter::e137_7::request::{GetBackgroundDiscoveryRequest, GetBackgroundQueuedStatusPolicyDescriptionRequest, GetBindingControlFieldsRequest, GetDiscoveryStateRequest, GetEndpointLabelRequest, GetEndpointModeRequest, GetEndpointResponderListChangeRequest, GetEndpointRespondersRequest, GetEndpointTimingDescriptionRequest, GetEndpointTimingRequest, GetEndpointToUniverseRequest, GetIdentifyEndpointRequest, GetRdmTrafficEnableRequest, SetBackgroundDiscoveryRequest, SetBackgroundQueuedStatusPolicyRequest, SetDiscoveryStateRequest, SetEndpointLabelRequest, SetEndpointModeRequest, SetEndpointTimingRequest, SetEndpointToUniverseRequest, SetIdentifyEndpointRequest, SetRdmTrafficEnableRequest};

verus! {

#[derive(Clone, Copy, Debug, PartialEq)]
pub enum RequestParameter<'a> {
    DiscUniqueBranch(DiscUniqueBranchRequest),
    DiscMute,
    DiscUnMute,
    GetCommsStatus,
    SetCommsStatus,
    GetQueuedMessage(GetQueuedMessageRequest),
    GetStatusMessages(GetStatusMessagesRequest),
    GetStatusIdDescription(GetStatusIdDescriptionRequest),
    SetClearStatusId,
    GetSubDeviceIdStatusReportThreshold,
    SetSubDeviceIdStatusReportThreshold(SetSubDeviceIdStatusReportThresholdRequest),
    GetSupportedParameters,
    GetParameterDescription(GetParameterDescriptionRequest),
    GetDeviceInfo,
    GetProductDetailIdList,
    GetDeviceModelDescription,
    GetManufacturerLabel,
    GetDeviceLabel,
    SetDeviceLabel(SetDeviceLabelRequest),
    GetFactoryDefaults,
    SetFactoryDefaults,
    GetLanguageCapabilities,
    GetLanguage,
    SetLanguage(SetLanguageRequest<'a>),
    GetSoftwareVersionLabel,
    GetBootSoftwareVersionId,
    GetBootSoftwareVersionLabel,
    GetDmxPersonality,
    SetDmxPersonality(SetDmxPersonalityRequest),
    GetDmxPersonalityDescription(GetDmxPersonalityDescriptionRequest),
    GetDmxStartAddress,
    SetDmxStartAddress(SetDmxStartAddressRequest),
    GetSlotInfo,
    GetSlotDescription(GetSlotDescriptionRequest),
    GetDefaultSlotValue,
    GetSensorDefinition(GetSensorDefinitionRequest),
    GetSensorValue(GetSensorValueRequest),
    SetSensorValue(SetSensorValueRequest),
    SetRecordSensors(SetRecordSensorsRequest),
    GetDeviceHours,
    SetDeviceHours(SetDeviceHoursRequest),
    GetLampHours,
    SetLampHours(SetLampHoursRequest),
    GetLampStrikes,
    SetLampStrikes(SetLampStrikesRequest),
    GetLampState,
    SetLampState(SetLampStateRequest),
    GetLampOnMode,
    SetLampOnMode(SetLampOnModeRequest),
    GetDevicePowerCycles,
    SetDevicePowerCycles(SetDevicePowerCyclesRequest),
    GetDisplayInvert,
    SetDisplayInvert(SetDisplayInvertRequest),
    GetDisplayLevel,
    SetDisplayLevel(SetDisplayLevelRequest),
    GetPanInvert,
    SetPanInvert(SetPanInvertRequest),
    GetTiltInvert,
    SetTiltInvert(SetTiltInvertRequest),
    GetPanTiltSwap,
    SetPanTiltSwap(SetPanTiltSwapRequest),
    GetRealTimeClock,
    SetRealTimeClock(SetRealTimeClockRequest),
    GetIdentifyDevice,
    SetIdentifyDevice(SetIdentifyDeviceRequest),
    SetResetDevice(SetResetDeviceRequest),
    GetPowerState,
    SetPowerState(SetPowerStateRequest),
    GetPerformSelfTest,
    SetPerformSelfTest(SetPerformSelfTestRequest),
    SetCapturePreset(SetCapturePresetRequest),
    GetSelfTestDescription(GetSelfTestDescriptionRequest),
    GetPresetPlayback,
    SetPresetPlayback(SetPresetPlaybackRequest),
    GetDmxBlockAddress,
    SetDmxBlockAddress(SetDmxBlockAddressRequest),
    GetDmxFailMode,
    SetDmxFailMode(SetDmxFailModeRequest),
    GetDmxStartupMode,
    SetDmxStartupMode(SetDmxStartupModeRequest),
    GetDimmerInfo,
    GetMinimumLevel,
    SetMinimumLevel(SetMinimumLevelRequest),
    GetMaximumLevel,
    SetMaximumLevel(SetMaximumLevelRequest),
    GetCurve,
    SetCurve,
    GetCurveDescription(GetCurveDescriptionRequest),
    GetOutputResponseTime,
    SetOutputResponseTime(SetOutputResponseTimeRequest),
    GetOutputResponseTimeDescription(GetOutputResponseTimeDescriptionRequest),
    GetModulationFrequency,
    SetModulationFrequency(SetModulationFrequencyRequest),
    GetModulationFrequencyDescription(GetModulationFrequencyDescriptionRequest),
    GetPowerOnSelfTest,
    SetPowerOnSelfTest(SetPowerOnSelfTestRequest),
    GetLockState,
    SetLockState(SetLockStateRequest),
    GetLockStateDescription,
    GetLockPin,
    SetLockPin(SetLockPinRequest),
    GetBurnIn,
    SetBurnIn(SetBurnInRequest),
    GetIdentifyMode,
    SetIdentifyMode(SetIdentifyModeRequest),
    GetPresetInfo,
    GetPresetStatus(GetPresetStatusRequest),
    SetPresetStatus(SetPresetStatusRequest),
    GetPresetMergeMode,
    SetPresetMergeMode(SetPresetMergeModeRequest),
    GetListInterfaces,
    GetInterfaceLabel(GetInterfaceLabelRequest),
    GetInterfaceHardwareAddressType1(GetInterfaceHardwareAddressType1Request),
    GetIpV4DhcpMode(GetIpV4DhcpModeRequest),
    SetIpV4DhcpMode(SetIpV4DhcpModeRequest),
    GetIpV4ZeroConfMode(GetIpV4ZeroConfModeRequest),
    SetIpV4ZeroConfMode(SetIpV4ZeroConfModeRequest),
    GetIpV4CurrentAddress(GetIpV4CurrentAddressRequest),
    GetIpV4StaticAddress(GetIpV4StaticAddressRequest),
    SetIpV4StaticAddress(SetIpV4StaticAddressRequest),
    SetInterfaceApplyConfiguration(SetInterfaceApplyConfigurationRequest),
    SetInterfaceRenewDhcp(SetInterfaceRenewDhcpRequest),
    SetInterfaceReleaseDhcp(SetInterfaceReleaseDhcpRequest),
    GetIpV4DefaultRoute,
    SetIpV4DefaultRoute(SetIpV4DefaultRouteRequest),
    GetDnsIpV4NameServer(GetDnsIpV4NameServerRequest),
    SetDnsIpV4NameServer(SetDnsIpv4NameServerRequest),
    GetDnsHostName,
    SetDnsHostName(SetDnsHostNameRequest),
    GetDnsDomainName,
    SetDnsDomainName(SetDnsDomainNameRequest),
    GetEndpointList,
    GetEndpointListChange,
    GetIdentifyEndpoint(GetIdentifyEndpointRequest),
    SetIdentifyEndpoint(SetIdentifyEndpointRequest),
    GetEndpointToUniverse(GetEndpointToUniverseRequest),
    SetEndpointToUniverse(SetEndpointToUniverseRequest),
    GetEndpointMode(GetEndpointModeRequest),
    SetEndpointMode(SetEndpointModeRequest),
    GetEndpointLabel(GetEndpointLabelRequest),
    SetEndpointLabel(SetEndpointLabelRequest),
    GetRdmTrafficEnable(GetRdmTrafficEnableRequest),
    SetRdmTrafficEnable(SetRdmTrafficEnableRequest),
    GetDiscoveryState(GetDiscoveryStateRequest),
    SetDiscoveryState(SetDiscoveryStateRequest),
    GetBackgroundDiscovery(GetBackgroundDiscoveryRequest),
    SetBackgroundDiscovery(SetBackgroundDiscoveryRequest),
    GetEndpointTiming(GetEndpointTimingRequest),
    SetEndpointTiming(SetEndpointTimingRequest),
    GetEndpointTimingDescription(GetEndpointTimingDescriptionRequest),
    GetEndpointResponders(GetEndpointRespondersRequest),
    GetEndpointResponderListChange(GetEndpointResponderListChangeRequest),
    GetBindingControlFields(GetBindingControlFieldsRequest),
    GetBackgroundQueuedStatusPolicy,
    SetBackgroundQueuedStatusPolicy(SetBackgroundQueuedStatusPolicyRequest),
    GetBackgroundQueuedStatusPolicyDescription(GetBackgroundQueuedStatusPolicyDescriptionRequest),
    GetComponentScope(GetComponentScopeRequest),
    SetComponentScope(SetComponentScopeRequest),
    GetSearchDomain,
    SetSearchDomain(SetSearchDomainRequest),
    GetTcpCommsStatus,
    SetTcpCommsStatus(SetTcpCommsStatusRequest),
    GetBrokerStatus,
    SetBrokerStatus(SetBrokerStatusRequest),
    /// A parameter that the library does not model: its identifiers and raw data.
    CustomParameter(CustomRequestParameter),
}

impl<'a> RequestParameter<'a> {
    /// The command class of the frame that carries the parameter.
    pub open spec fn spec_command_class(self) -> CommandClass {
        match self {
            RequestParameter::DiscUniqueBranch(_) => CommandClass::DiscoveryCommand,
            RequestParameter::DiscMute => CommandClass::DiscoveryCommand,
            RequestParameter::DiscUnMute => CommandClass::DiscoveryCommand,
            RequestParameter::GetCommsStatus => CommandClass::GetCommand,
            RequestParameter::SetCommsStatus => CommandClass::SetCommand,
            RequestParameter::GetQueuedMessage(_) => CommandClass::GetCommand,
            RequestParameter::GetStatusMessages(_) => CommandClass::GetCommand,
            RequestParameter::GetStatusIdDescription(_) => CommandClass::GetCommand,
            RequestParameter::SetClearStatusId => CommandClass::SetCommand,
            RequestParameter::GetSubDeviceIdStatusReportThreshold => CommandClass::GetCommand,
            RequestParameter::SetSubDeviceIdStatusReportThreshold(_) => CommandClass::SetCommand,
            RequestParameter::GetSupportedParameters => CommandClass::GetCommand,
            RequestParameter::GetParameterDescription(_) => CommandClass::GetCommand,
            RequestParameter::GetDeviceInfo => CommandClass::GetCommand,
            RequestParameter::GetProductDetailIdList => CommandClass::GetCommand,
            RequestParameter::GetDeviceModelDescription => CommandClass::GetCommand,
            RequestParameter::GetManufacturerLabel => CommandClass::GetCommand,
            RequestParameter::GetDeviceLabel => CommandClass::GetCommand,
            RequestParameter::SetDeviceLabel(_) => CommandClass::SetCommand,
            RequestParameter::GetFactoryDefaults => CommandClass::GetCommand,
            RequestParameter::SetFactoryDefaults => CommandClass::SetCommand,
            RequestParameter::GetLanguageCapabilities => CommandClass::GetCommand,
            RequestParameter::GetLanguage => CommandClass::GetCommand,
            RequestParameter::SetLanguage(_) => CommandClass::SetCommand,
            RequestParameter::GetSoftwareVersionLabel => CommandClass::GetCommand,
            RequestParameter::GetBootSoftwareVersionId => CommandClass::GetCommand,
            RequestParameter::GetBootSoftwareVersionLabel => CommandClass::GetCommand,
            RequestParameter::GetDmxPersonality => CommandClass::GetCommand,
            RequestParameter::SetDmxPersonality(_) => CommandClass::SetCommand,
            RequestParameter::GetDmxPersonalityDescription(_) => CommandClass::GetCommand,
            RequestParameter::GetDmxStartAddress => CommandClass::GetCommand,
            RequestParameter::SetDmxStartAddress(_) => CommandClass::SetCommand,
            RequestParameter::GetSlotInfo => CommandClass::GetCommand,
            RequestParameter::GetSlotDescription(_) => CommandClass::GetCommand,
            RequestParameter::GetDefaultSlotValue => CommandClass::GetCommand,
            RequestParameter::GetSensorDefinition(_) => CommandClass::GetCommand,
            RequestParameter::GetSensorValue(_) => CommandClass::GetCommand,
            RequestParameter::SetSensorValue(_) => CommandClass::SetCommand,
            RequestParameter::SetRecordSensors(_) => CommandClass::SetCommand,
            RequestParameter::GetDeviceHours => CommandClass::GetCommand,
            RequestParameter::SetDeviceHours(_) => CommandClass::SetCommand,
            RequestParameter::GetLampHours => CommandClass::GetCommand,
            RequestParameter::SetLampHours(_) => CommandClass::SetCommand,
            RequestParameter::GetLampStrikes => CommandClass::GetCommand,
            RequestParameter::SetLampStrikes(_) => CommandClass::SetCommand,
            RequestParameter::GetLampState => CommandClass::GetCommand,
            RequestParameter::SetLampState(_) => CommandClass::SetCommand,
            RequestParameter::GetLampOnMode => CommandClass::GetCommand,
            RequestParameter::SetLampOnMode(_) => CommandClass::SetCommand,
            RequestParameter::GetDevicePowerCycles => CommandClass::GetCommand,
            RequestParameter::SetDevicePowerCycles(_) => CommandClass::SetCommand,
            RequestParameter::GetDisplayInvert => CommandClass::GetCommand,
            RequestParameter::SetDisplayInvert(_) => CommandClass::SetCommand,
            RequestParameter::GetDisplayLevel => CommandClass::GetCommand,
            RequestParameter::SetDisplayLevel(_) => CommandClass::SetCommand,
            RequestParameter::GetPanInvert => CommandClass::GetCommand,
            RequestParameter::SetPanInvert(_) => CommandClass::SetCommand,
            RequestParameter::GetTiltInvert => CommandClass::GetCommand,
            RequestParameter::SetTiltInvert(_) => CommandClass::SetCommand,
            RequestParameter::GetPanTiltSwap => CommandClass::GetCommand,
            RequestParameter::SetPanTiltSwap(_) => CommandClass::SetCommand,
            RequestParameter::GetRealTimeClock => CommandClass::GetCommand,
            RequestParameter::SetRealTimeClock(_) => CommandClass::SetCommand,
            RequestParameter::GetIdentifyDevice => CommandClass::GetCommand,
            RequestParameter::SetIdentifyDevice(_) => CommandClass::SetCommand,
            RequestParameter::SetResetDevice(_) => CommandClass::SetCommand,
            RequestParameter::GetPowerState => CommandClass::GetCommand,
            RequestParameter::SetPowerState(_) => CommandClass::SetCommand,
            RequestParameter::GetPerformSelfTest => CommandClass::GetCommand,
            RequestParameter::SetPerformSelfTest(_) => CommandClass::SetCommand,
            RequestParameter::SetCapturePreset(_) => CommandClass::SetCommand,
            RequestParameter::GetSelfTestDescription(_) => CommandClass::GetCommand,
            RequestParameter::GetPresetPlayback => CommandClass::GetCommand,
            RequestParameter::SetPresetPlayback(_) => CommandClass::SetCommand,
            RequestParameter::GetDmxBlockAddress => CommandClass::GetCommand,
            RequestParameter::SetDmxBlockAddress(_) => CommandClass::SetCommand,
            RequestParameter::GetDmxFailMode => CommandClass::GetCommand,
            RequestParameter::SetDmxFailMode(_) => CommandClass::SetCommand,
            RequestParameter::GetDmxStartupMode => CommandClass::GetCommand,
            RequestParameter::SetDmxStartupMode(_) => CommandClass::SetCommand,
            RequestParameter::GetDimmerInfo => CommandClass::GetCommand,
            RequestParameter::GetMinimumLevel => CommandClass::GetCommand,
            RequestParameter::SetMinimumLevel(_) => CommandClass::SetCommand,
            RequestParameter::GetMaximumLevel => CommandClass::GetCommand,
            RequestParameter::SetMaximumLevel(_) => CommandClass::SetCommand,
            RequestParameter::GetCurve => CommandClass::GetCommand,
            RequestParameter::SetCurve => CommandClass::SetCommand,
            RequestParameter::GetCurveDescription(_) => CommandClass::GetCommand,
            RequestParameter::GetOutputResponseTime => CommandClass::GetCommand,
            RequestParameter::SetOutputResponseTime(_) => CommandClass::SetCommand,
            RequestParameter::GetOutputResponseTimeDescription(_) => CommandClass::GetCommand,
            RequestParameter::GetModulationFrequency => CommandClass::GetCommand,
            RequestParameter::SetModulationFrequency(_) => CommandClass::SetCommand,
            RequestParameter::GetModulationFrequencyDescription(_) => CommandClass::GetCommand,
            RequestParameter::GetPowerOnSelfTest => CommandClass::GetCommand,
            RequestParameter::SetPowerOnSelfTest(_) => CommandClass::SetCommand,
            RequestParameter::GetLockState => CommandClass::GetCommand,
            RequestParameter::SetLockState(_) => CommandClass::SetCommand,
            RequestParameter::GetLockStateDescription => CommandClass::GetCommand,
            RequestParameter::GetLockPin => CommandClass::GetCommand,
            RequestParameter::SetLockPin(_) => CommandClass::SetCommand,
            RequestParameter::GetBurnIn => CommandClass::GetCommand,
            RequestParameter::SetBurnIn(_) => CommandClass::SetCommand,
            RequestParameter::GetIdentifyMode => CommandClass::GetCommand,
            RequestParameter::SetIdentifyMode(_) => CommandClass::SetCommand,
            RequestParameter::GetPresetInfo => CommandClass::GetCommand,
            RequestParameter::GetPresetStatus(_) => CommandClass::GetCommand,
            RequestParameter::SetPresetStatus(_) => CommandClass::SetCommand,
            RequestParameter::GetPresetMergeMode => CommandClass::GetCommand,
            RequestParameter::SetPresetMergeMode(_) => CommandClass::SetCommand,
            RequestParameter::GetListInterfaces => CommandClass::GetCommand,
            RequestParameter::GetInterfaceLabel(_) => CommandClass::GetCommand,
            RequestParameter::GetInterfaceHardwareAddressType1(_) => CommandClass::GetCommand,
            RequestParameter::GetIpV4DhcpMode(_) => CommandClass::GetCommand,
            RequestParameter::SetIpV4DhcpMode(_) => CommandClass::SetCommand,
            RequestParameter::GetIpV4ZeroConfMode(_) => CommandClass::GetCommand,
            RequestParameter::SetIpV4ZeroConfMode(_) => CommandClass::SetCommand,
            RequestParameter::GetIpV4CurrentAddress(_) => CommandClass::GetCommand,
            RequestParameter::GetIpV4StaticAddress(_) => CommandClass::GetCommand,
            RequestParameter::SetIpV4StaticAddress(_) => CommandClass::SetCommand,
            RequestParameter::SetInterfaceApplyConfiguration(_) => CommandClass::SetCommand,
            RequestParameter::SetInterfaceRenewDhcp(_) => CommandClass::SetCommand,
            RequestParameter::SetInterfaceReleaseDhcp(_) => CommandClass::SetCommand,
            RequestParameter::GetIpV4DefaultRoute => CommandClass::GetCommand,
            RequestParameter::SetIpV4DefaultRoute(_) => CommandClass::SetCommand,
            RequestParameter::GetDnsIpV4NameServer(_) => CommandClass::GetCommand,
            RequestParameter::SetDnsIpV4NameServer(_) => CommandClass::SetCommand,
            RequestParameter::GetDnsHostName => CommandClass::GetCommand,
            RequestParameter::SetDnsHostName(_) => CommandClass::SetCommand,
            RequestParameter::GetDnsDomainName => CommandClass::GetCommand,
            RequestParameter::SetDnsDomainName(_) => CommandClass::SetCommand,
            RequestParameter::GetEndpointList => CommandClass::GetCommand,
            RequestParameter::GetEndpointListChange => CommandClass::GetCommand,
            RequestParameter::GetIdentifyEndpoint(_) => CommandClass::GetCommand,
            RequestParameter::SetIdentifyEndpoint(_) => CommandClass::SetCommand,
            RequestParameter::GetEndpointToUniverse(_) => CommandClass::GetCommand,
            RequestParameter::SetEndpointToUniverse(_) => CommandClass::SetCommand,
            RequestParameter::GetEndpointMode(_) => CommandClass::GetCommand,
            RequestParameter::SetEndpointMode(_) => CommandClass::SetCommand,
            RequestParameter::GetEndpointLabel(_) => CommandClass::GetCommand,
            RequestParameter::SetEndpointLabel(_) => CommandClass::SetCommand,
            RequestParameter::GetRdmTrafficEnable(_) => CommandClass::GetCommand,
            RequestParameter::SetRdmTrafficEnable(_) => CommandClass::SetCommand,
            RequestParameter::GetDiscoveryState(_) => CommandClass::GetCommand,
            RequestParameter::SetDiscoveryState(_) => CommandClass::SetCommand,
            RequestParameter::GetBackgroundDiscovery(_) => CommandClass::GetCommand,
            RequestParameter::SetBackgroundDiscovery(_) => CommandClass::SetCommand,
            RequestParameter::GetEndpointTiming(_) => CommandClass::GetCommand,
            RequestParameter::SetEndpointTiming(_) => CommandClass::SetCommand,
            RequestParameter::GetEndpointTimingDescription(_) => CommandClass::GetCommand,
            RequestParameter::GetEndpointResponders(_) => CommandClass::GetCommand,
            RequestParameter::GetEndpointResponderListChange(_) => CommandClass::GetCommand,
            RequestParameter::GetBindingControlFields(_) => CommandClass::GetCommand,
            RequestParameter::GetBackgroundQueuedStatusPolicy => CommandClass::GetCommand,
            RequestParameter::SetBackgroundQueuedStatusPolicy(_) => CommandClass::SetCommand,
            RequestParameter::GetBackgroundQueuedStatusPolicyDescription(_) => CommandClass::GetCommand,
            RequestParameter::GetComponentScope(_) => CommandClass::GetCommand,
            RequestParameter::SetComponentScope(_) => CommandClass::SetCommand,
            RequestParameter::GetSearchDomain => CommandClass::GetCommand,
            RequestParameter::SetSearchDomain(_) => CommandClass::SetCommand,
            RequestParameter::GetTcpCommsStatus => CommandClass::GetCommand,
            RequestParameter::SetTcpCommsStatus(_) => CommandClass::SetCommand,
            RequestParameter::GetBrokerStatus => CommandClass::GetCommand,
            RequestParameter::SetBrokerStatus(_) => CommandClass::SetCommand,
            RequestParameter::CustomParameter(c) => c.command_class,
        }
    }

    /// The identifier of the parameter.
    pub open spec fn spec_parameter_id(self) -> ParameterId {
        match self {
            RequestParameter::DiscUniqueBranch(_) => ParameterId::DiscUniqueBranch,
            RequestParameter::DiscMute => ParameterId::DiscMute,
            RequestParameter::DiscUnMute => ParameterId::DiscUnMute,
            RequestParameter::GetCommsStatus => ParameterId::CommsStatus,
            RequestParameter::SetCommsStatus => ParameterId::CommsStatus,
            RequestParameter::GetQueuedMessage(_) => ParameterId::QueuedMessage,
            RequestParameter::GetStatusMessages(_) => ParameterId::StatusMessages,
            RequestParameter::GetStatusIdDescription(_) => ParameterId::StatusIdDescription,
            RequestParameter::SetClearStatusId => ParameterId::ClearStatusId,
            RequestParameter::GetSubDeviceIdStatusReportThreshold => ParameterId::SubDeviceIdStatusReportThreshold,
            RequestParameter::SetSubDeviceIdStatusReportThreshold(_) => ParameterId::SubDeviceIdStatusReportThreshold,
            RequestParameter::GetSupportedParameters => ParameterId::SupportedParameters,
            RequestParameter::GetParameterDescription(_) => ParameterId::ParameterDescription,
            RequestParameter::GetDeviceInfo => ParameterId::DeviceInfo,
            RequestParameter::GetProductDetailIdList => ParameterId::ProductDetailIdList,
            RequestParameter::GetDeviceModelDescription => ParameterId::DeviceModelDescription,
            RequestParameter::GetManufacturerLabel => ParameterId::ManufacturerLabel,
            RequestParameter::GetDeviceLabel => ParameterId::DeviceLabel,
            RequestParameter::SetDeviceLabel(_) => ParameterId::DeviceLabel,
            RequestParameter::GetFactoryDefaults => ParameterId::FactoryDefaults,
            RequestParameter::SetFactoryDefaults => ParameterId::FactoryDefaults,
            RequestParameter::GetLanguageCapabilities => ParameterId::LanguageCapabilities,
            RequestParameter::GetLanguage => ParameterId::Language,
            RequestParameter::SetLanguage(_) => ParameterId::Language,
            RequestParameter::GetSoftwareVersionLabel => ParameterId::SoftwareVersionLabel,
            RequestParameter::GetBootSoftwareVersionId => ParameterId::BootSoftwareVersionId,
            RequestParameter::GetBootSoftwareVersionLabel => ParameterId::BootSoftwareVersionLabel,
            RequestParameter::GetDmxPersonality => ParameterId::DmxPersonality,
            RequestParameter::SetDmxPersonality(_) => ParameterId::DmxPersonality,
            RequestParameter::GetDmxPersonalityDescription(_) => ParameterId::DmxPersonalityDescription,
            RequestParameter::GetDmxStartAddress => ParameterId::DmxStartAddress,
            RequestParameter::SetDmxStartAddress(_) => ParameterId::DmxStartAddress,
            RequestParameter::GetSlotInfo => ParameterId::SlotInfo,
            RequestParameter::GetSlotDescription(_) => ParameterId::SlotDescription,
            RequestParameter::GetDefaultSlotValue => ParameterId::DefaultSlotValue,
            RequestParameter::GetSensorDefinition(_) => ParameterId::SensorDefinition,
            RequestParameter::GetSensorValue(_) => ParameterId::SensorValue,
            RequestParameter::SetSensorValue(_) => ParameterId::SensorValue,
            RequestParameter::SetRecordSensors(_) => ParameterId::RecordSensors,
            RequestParameter::GetDeviceHours => ParameterId::DeviceHours,
            RequestParameter::SetDeviceHours(_) => ParameterId::DeviceHours,
            RequestParameter::GetLampHours => ParameterId::LampHours,
            RequestParameter::SetLampHours(_) => ParameterId::LampHours,
            RequestParameter::GetLampStrikes => ParameterId::LampStrikes,
            RequestParameter::SetLampStrikes(_) => ParameterId::LampStrikes,
            RequestParameter::GetLampState => ParameterId::LampState,
            RequestParameter::SetLampState(_) => ParameterId::LampState,
            RequestParameter::GetLampOnMode => ParameterId::LampOnMode,
            RequestParameter::SetLampOnMode(_) => ParameterId::LampOnMode,
            RequestParameter::GetDevicePowerCycles => ParameterId::DevicePowerCycles,
            RequestParameter::SetDevicePowerCycles(_) => ParameterId::DevicePowerCycles,
            RequestParameter::GetDisplayInvert => ParameterId::DisplayInvert,
            RequestParameter::SetDisplayInvert(_) => ParameterId::DisplayInvert,
            RequestParameter::GetDisplayLevel => ParameterId::DisplayLevel,
            RequestParameter::SetDisplayLevel(_) => ParameterId::DisplayLevel,
            RequestParameter::GetPanInvert => ParameterId::PanInvert,
            RequestParameter::SetPanInvert(_) => ParameterId::PanInvert,
            RequestParameter::GetTiltInvert => ParameterId::TiltInvert,
            RequestParameter::SetTiltInvert(_) => ParameterId::TiltInvert,
            RequestParameter::GetPanTiltSwap => ParameterId::PanTiltSwap,
            RequestParameter::SetPanTiltSwap(_) => ParameterId::PanTiltSwap,
            RequestParameter::GetRealTimeClock => ParameterId::RealTimeClock,
            RequestParameter::SetRealTimeClock(_) => ParameterId::RealTimeClock,
            RequestParameter::GetIdentifyDevice => ParameterId::IdentifyDevice,
            RequestParameter::SetIdentifyDevice(_) => ParameterId::IdentifyDevice,
            RequestParameter::SetResetDevice(_) => ParameterId::ResetDevice,
            RequestParameter::GetPowerState => ParameterId::PowerState,
            RequestParameter::SetPowerState(_) => ParameterId::PowerState,
            RequestParameter::GetPerformSelfTest => ParameterId::PerformSelfTest,
            RequestParameter::SetPerformSelfTest(_) => ParameterId::PerformSelfTest,
            RequestParameter::SetCapturePreset(_) => ParameterId::CapturePreset,
            RequestParameter::GetSelfTestDescription(_) => ParameterId::SelfTestDescription,
            RequestParameter::GetPresetPlayback => ParameterId::PresetPlayback,
            RequestParameter::SetPresetPlayback(_) => ParameterId::PresetPlayback,
            RequestParameter::GetDmxBlockAddress => ParameterId::DmxBlockAddress,
            RequestParameter::SetDmxBlockAddress(_) => ParameterId::DmxBlockAddress,
            RequestParameter::GetDmxFailMode => ParameterId::DmxFailMode,
            RequestParameter::SetDmxFailMode(_) => ParameterId::DmxFailMode,
            RequestParameter::GetDmxStartupMode => ParameterId::DmxStartupMode,
            RequestParameter::SetDmxStartupMode(_) => ParameterId::DmxStartupMode,
            RequestParameter::GetDimmerInfo => ParameterId::DimmerInfo,
            RequestParameter::GetMinimumLevel => ParameterId::MinimumLevel,
            RequestParameter::SetMinimumLevel(_) => ParameterId::MinimumLevel,
            RequestParameter::GetMaximumLevel => ParameterId::MaximumLevel,
            RequestParameter::SetMaximumLevel(_) => ParameterId::MaximumLevel,
            RequestParameter::GetCurve => ParameterId::Curve,
            RequestParameter::SetCurve => ParameterId::Curve,
            RequestParameter::GetCurveDescription(_) => ParameterId::CurveDescription,
            RequestParameter::GetOutputResponseTime => ParameterId::OutputResponseTime,
            RequestParameter::SetOutputResponseTime(_) => ParameterId::OutputResponseTime,
            RequestParameter::GetOutputResponseTimeDescription(_) => ParameterId::OutputResponseTimeDescription,
            RequestParameter::GetModulationFrequency => ParameterId::ModulationFrequency,
            RequestParameter::SetModulationFrequency(_) => ParameterId::ModulationFrequency,
            RequestParameter::GetModulationFrequencyDescription(_) => ParameterId::ModulationFrequencyDescription,
            RequestParameter::GetPowerOnSelfTest => ParameterId::PowerOnSelfTest,
            RequestParameter::SetPowerOnSelfTest(_) => ParameterId::PowerOnSelfTest,
            RequestParameter::GetLockState => ParameterId::LockState,
            RequestParameter::SetLockState(_) => ParameterId::LockState,
            RequestParameter::GetLockStateDescription => ParameterId::LockStateDescription,
            RequestParameter::GetLockPin => ParameterId::LockPin,
            RequestParameter::SetLockPin(_) => ParameterId::LockPin,
            RequestParameter::GetBurnIn => ParameterId::BurnIn,
            RequestParameter::SetBurnIn(_) => ParameterId::BurnIn,
            RequestParameter::GetIdentifyMode => ParameterId::IdentifyMode,
            RequestParameter::SetIdentifyMode(_) => ParameterId::IdentifyMode,
            RequestParameter::GetPresetInfo => ParameterId::PresetInfo,
            RequestParameter::GetPresetStatus(_) => ParameterId::PresetStatus,
            RequestParameter::SetPresetStatus(_) => ParameterId::PresetStatus,
            RequestParameter::GetPresetMergeMode => ParameterId::PresetMergeMode,
            RequestParameter::SetPresetMergeMode(_) => ParameterId::PresetMergeMode,
            RequestParameter::GetListInterfaces => ParameterId::ListInterfaces,
            RequestParameter::GetInterfaceLabel(_) => ParameterId::InterfaceLabel,
            RequestParameter::GetInterfaceHardwareAddressType1(_) => ParameterId::InterfaceHardwareAddressType1,
            RequestParameter::GetIpV4DhcpMode(_) => ParameterId::IpV4DhcpMode,
            RequestParameter::SetIpV4DhcpMode(_) => ParameterId::IpV4DhcpMode,
            RequestParameter::GetIpV4ZeroConfMode(_) => ParameterId::IpV4ZeroConfMode,
            RequestParameter::SetIpV4ZeroConfMode(_) => ParameterId::IpV4ZeroConfMode,
            RequestParameter::GetIpV4CurrentAddress(_) => ParameterId::IpV4CurrentAddress,
            RequestParameter::GetIpV4StaticAddress(_) => ParameterId::IpV4StaticAddress,
            RequestParameter::SetIpV4StaticAddress(_) => ParameterId::IpV4StaticAddress,
            RequestParameter::SetInterfaceApplyConfiguration(_) => ParameterId::InterfaceApplyConfiguration,
            RequestParameter::SetInterfaceRenewDhcp(_) => ParameterId::InterfaceRenewDhcp,
            RequestParameter::SetInterfaceReleaseDhcp(_) => ParameterId::InterfaceReleaseDhcp,
            RequestParameter::GetIpV4DefaultRoute => ParameterId::IpV4DefaultRoute,
            RequestParameter::SetIpV4DefaultRoute(_) => ParameterId::IpV4DefaultRoute,
            RequestParameter::GetDnsIpV4NameServer(_) => ParameterId::DnsIpV4NameServer,
            RequestParameter::SetDnsIpV4NameServer(_) => ParameterId::DnsIpV4NameServer,
            RequestParameter::GetDnsHostName => ParameterId::DnsHostName,
            RequestParameter::SetDnsHostName(_) => ParameterId::DnsHostName,
            RequestParameter::GetDnsDomainName => ParameterId::DnsDomainName,
            RequestParameter::SetDnsDomainName(_) => ParameterId::DnsDomainName,
            RequestParameter::GetEndpointList => ParameterId::EndpointList,
            RequestParameter::GetEndpointListChange => ParameterId::EndpointListChange,
            RequestParameter::GetIdentifyEndpoint(_) => ParameterId::IdentifyEndpoint,
            RequestParameter::SetIdentifyEndpoint(_) => ParameterId::IdentifyEndpoint,
            RequestParameter::GetEndpointToUniverse(_) => ParameterId::EndpointToUniverse,
            RequestParameter::SetEndpointToUniverse(_) => ParameterId::EndpointToUniverse,
            RequestParameter::GetEndpointMode(_) => ParameterId::EndpointMode,
            RequestParameter::SetEndpointMode(_) => ParameterId::EndpointMode,
            RequestParameter::GetEndpointLabel(_) => ParameterId::EndpointLabel,
            RequestParameter::SetEndpointLabel(_) => ParameterId::EndpointLabel,
            RequestParameter::GetRdmTrafficEnable(_) => ParameterId::RdmTrafficEnable,
            RequestParameter::SetRdmTrafficEnable(_) => ParameterId::RdmTrafficEnable,
            RequestParameter::GetDiscoveryState(_) => ParameterId::DiscoveryState,
            RequestParameter::SetDiscoveryState(_) => ParameterId::DiscoveryState,
            RequestParameter::GetBackgroundDiscovery(_) => ParameterId::BackgroundDiscovery,
            RequestParameter::SetBackgroundDiscovery(_) => ParameterId::BackgroundDiscovery,
            RequestParameter::GetEndpointTiming(_) => ParameterId::EndpointTiming,
            RequestParameter::SetEndpointTiming(_) => ParameterId::EndpointTiming,
            RequestParameter::GetEndpointTimingDescription(_) => ParameterId::EndpointTimingDescription,
            RequestParameter::GetEndpointResponders(_) => ParameterId::EndpointResponders,
            RequestParameter::GetEndpointResponderListChange(_) => ParameterId::EndpointResponderListChange,
            RequestParameter::GetBindingControlFields(_) => ParameterId::BindingControlFields,
            RequestParameter::GetBackgroundQueuedStatusPolicy => ParameterId::BackgroundQueuedStatusPolicy,
            RequestParameter::SetBackgroundQueuedStatusPolicy(_) => ParameterId::BackgroundQueuedStatusPolicy,
            RequestParameter::GetBackgroundQueuedStatusPolicyDescription(_) => ParameterId::BackgroundQueuedStatusPolicyDescription,
            RequestParameter::GetComponentScope(_) => ParameterId::ComponentScope,
            RequestParameter::SetComponentScope(_) => ParameterId::ComponentScope,
            RequestParameter::GetSearchDomain => ParameterId::SearchDomain,
            RequestParameter::SetSearchDomain(_) => ParameterId::SearchDomain,
            RequestParameter::GetTcpCommsStatus => ParameterId::TcpCommsStatus,
            RequestParameter::SetTcpCommsStatus(_) => ParameterId::TcpCommsStatus,
            RequestParameter::GetBrokerStatus => ParameterId::BrokerStatus,
            RequestParameter::SetBrokerStatus(_) => ParameterId::BrokerStatus,
            RequestParameter::CustomParameter(c) => c.parameter_id,
        }
    }

    /// The parameter data.
    pub open spec fn spec_encoding(self) -> Seq<u8> {
        match self {
            RequestParameter::DiscUniqueBranch(p) => p.spec_encoding(),
            RequestParameter::DiscMute => Seq::empty(),
            RequestParameter::DiscUnMute => Seq::empty(),
            RequestParameter::GetCommsStatus => Seq::empty(),
            RequestParameter::SetCommsStatus => Seq::empty(),
            RequestParameter::GetQueuedMessage(p) => p.spec_encoding(),
            RequestParameter::GetStatusMessages(p) => p.spec_encoding(),
            RequestParameter::GetStatusIdDescription(p) => p.spec_encoding(),
            RequestParameter::SetClearStatusId => Seq::empty(),
            RequestParameter::GetSubDeviceIdStatusReportThreshold => Seq::empty(),
            RequestParameter::SetSubDeviceIdStatusReportThreshold(p) => p.spec_encoding(),
            RequestParameter::GetSupportedParameters => Seq::empty(),
            RequestParameter::GetParameterDescription(p) => p.spec_encoding(),
            RequestParameter::GetDeviceInfo => Seq::empty(),
            RequestParameter::GetProductDetailIdList => Seq::empty(),
            RequestParameter::GetDeviceModelDescription => Seq::empty(),
            RequestParameter::GetManufacturerLabel => Seq::empty(),
            RequestParameter::GetDeviceLabel => Seq::empty(),
            RequestParameter::SetDeviceLabel(p) => p.spec_encoding(),
            RequestParameter::GetFactoryDefaults => Seq::empty(),
            RequestParameter::SetFactoryDefaults => Seq::empty(),
            RequestParameter::GetLanguageCapabilities => Seq::empty(),
            RequestParameter::GetLanguage => Seq::empty(),
            RequestParameter::SetLanguage(p) => p.spec_encoding(),
            RequestParameter::GetSoftwareVersionLabel => Seq::empty(),
            RequestParameter::GetBootSoftwareVersionId => Seq::empty(),
            RequestParameter::GetBootSoftwareVersionLabel => Seq::empty(),
            RequestParameter::GetDmxPersonality => Seq::empty(),
            RequestParameter::SetDmxPersonality(p) => p.spec_encoding(),
            RequestParameter::GetDmxPersonalityDescription(p) => p.spec_encoding(),
            RequestParameter::GetDmxStartAddress => Seq::empty(),
            RequestParameter::SetDmxStartAddress(p) => p.spec_encoding(),
            RequestParameter::GetSlotInfo => Seq::empty(),
            RequestParameter::GetSlotDescription(p) => p.spec_encoding(),
            RequestParameter::GetDefaultSlotValue => Seq::empty(),
            RequestParameter::GetSensorDefinition(p) => p.spec_encoding(),
            RequestParameter::GetSensorValue(p) => p.spec_encoding(),
            RequestParameter::SetSensorValue(p) => p.spec_encoding(),
            RequestParameter::SetRecordSensors(p) => p.spec_encoding(),
            RequestParameter::GetDeviceHours => Seq::empty(),
            RequestParameter::SetDeviceHours(p) => p.spec_encoding(),
            RequestParameter::GetLampHours => Seq::empty(),
            RequestParameter::SetLampHours(p) => p.spec_encoding(),
            RequestParameter::GetLampStrikes => Seq::empty(),
            RequestParameter::SetLampStrikes(p) => p.spec_encoding(),
            RequestParameter::GetLampState => Seq::empty(),
            RequestParameter::SetLampState(p) => p.spec_encoding(),
            RequestParameter::GetLampOnMode => Seq::empty(),
            RequestParameter::SetLampOnMode(p) => p.spec_encoding(),
            RequestParameter::GetDevicePowerCycles => Seq::empty(),
            RequestParameter::SetDevicePowerCycles(p) => p.spec_encoding(),
            RequestParameter::GetDisplayInvert => Seq::empty(),
            RequestParameter::SetDisplayInvert(p) => p.spec_encoding(),
            RequestParameter::GetDisplayLevel => Seq::empty(),
            RequestParameter::SetDisplayLevel(p) => p.spec_encoding(),
            RequestParameter::GetPanInvert => Seq::empty(),
            RequestParameter::SetPanInvert(p) => p.spec_encoding(),
            RequestParameter::GetTiltInvert => Seq::empty(),
            RequestParameter::SetTiltInvert(p) => p.spec_encoding(),
            RequestParameter::GetPanTiltSwap => Seq::empty(),
            RequestParameter::SetPanTiltSwap(p) => p.spec_encoding(),
            RequestParameter::GetRealTimeClock => Seq::empty(),
            RequestParameter::SetRealTimeClock(p) => p.spec_encoding(),
            RequestParameter::GetIdentifyDevice => Seq::empty(),
            RequestParameter::SetIdentifyDevice(p) => p.spec_encoding(),
            RequestParameter::SetResetDevice(p) => p.spec_encoding(),
            RequestParameter::GetPowerState => Seq::empty(),
            RequestParameter::SetPowerState(p) => p.spec_encoding(),
            RequestParameter::GetPerformSelfTest => Seq::empty(),
            RequestParameter::SetPerformSelfTest(p) => p.spec_encoding(),
            RequestParameter::SetCapturePreset(p) => p.spec_encoding(),
            RequestParameter::GetSelfTestDescription(p) => p.spec_encoding(),
            RequestParameter::GetPresetPlayback => Seq::empty(),
            RequestParameter::SetPresetPlayback(p) => p.spec_encoding(),
            RequestParameter::GetDmxBlockAddress => Seq::empty(),
            RequestParameter::SetDmxBlockAddress(p) => p.spec_encoding(),
            RequestParameter::GetDmxFailMode => Seq::empty(),
            RequestParameter::SetDmxFailMode(p) => p.spec_encoding(),
            RequestParameter::GetDmxStartupMode => Seq::empty(),
            RequestParameter::SetDmxStartupMode(p) => p.spec_encoding(),
            RequestParameter::GetDimmerInfo => Seq::empty(),
            RequestParameter::GetMinimumLevel => Seq::empty(),
            RequestParameter::SetMinimumLevel(p) => p.spec_encoding(),
            RequestParameter::GetMaximumLevel => Seq::empty(),
            RequestParameter::SetMaximumLevel(p) => p.spec_encoding(),
            RequestParameter::GetCurve => Seq::empty(),
            RequestParameter::SetCurve => Seq::empty(),
            RequestParameter::GetCurveDescription(p) => p.spec_encoding(),
            RequestParameter::GetOutputResponseTime => Seq::empty(),
            RequestParameter::SetOutputResponseTime(p) => p.spec_encoding(),
            RequestParameter::GetOutputResponseTimeDescription(p) => p.spec_encoding(),
            RequestParameter::GetModulationFrequency => Seq::empty(),
            RequestParameter::SetModulationFrequency(p) => p.spec_encoding(),
            RequestParameter::GetModulationFrequencyDescription(p) => p.spec_encoding(),
            RequestParameter::GetPowerOnSelfTest => Seq::empty(),
            RequestParameter::SetPowerOnSelfTest(p) => p.spec_encoding(),
            RequestParameter::GetLockState => Seq::empty(),
            RequestParameter::SetLockState(p) => p.spec_encoding(),
            RequestParameter::GetLockStateDescription => Seq::empty(),
            RequestParameter::GetLockPin => Seq::empty(),
            RequestParameter::SetLockPin(p) => p.spec_encoding(),
            RequestParameter::GetBurnIn => Seq::empty(),
            RequestParameter::SetBurnIn(p) => p.spec_encoding(),
            RequestParameter::GetIdentifyMode => Seq::empty(),
            RequestParameter::SetIdentifyMode(p) => p.spec_encoding(),
            RequestParameter::GetPresetInfo => Seq::empty(),
            RequestParameter::GetPresetStatus(p) => p.spec_encoding(),
            RequestParameter::SetPresetStatus(p) => p.spec_encoding(),
            RequestParameter::GetPresetMergeMode => Seq::empty(),
            RequestParameter::SetPresetMergeMode(p) => p.spec_encoding(),
            RequestParameter::GetListInterfaces => Seq::empty(),
            RequestParameter::GetInterfaceLabel(p) => p.spec_encoding(),
            RequestParameter::GetInterfaceHardwareAddressType1(p) => p.spec_encoding(),
            RequestParameter::GetIpV4DhcpMode(p) => p.spec_encoding(),
            RequestParameter::SetIpV4DhcpMode(p) => p.spec_encoding(),
            RequestParameter::GetIpV4ZeroConfMode(p) => p.spec_encoding(),
            RequestParameter::SetIpV4ZeroConfMode(p) => p.spec_encoding(),
            RequestParameter::GetIpV4CurrentAddress(p) => p.spec_encoding(),
            RequestParameter::GetIpV4StaticAddress(p) => p.spec_encoding(),
            RequestParameter::SetIpV4StaticAddress(p) => p.spec_encoding(),
            RequestParameter::SetInterfaceApplyConfiguration(p) => p.spec_encoding(),
            RequestParameter::SetInterfaceRenewDhcp(p) => p.spec_encoding(),
            RequestParameter::SetInterfaceReleaseDhcp(p) => p.spec_encoding(),
            RequestParameter::GetIpV4DefaultRoute => Seq::empty(),
            RequestParameter::SetIpV4DefaultRoute(p) => p.spec_encoding(),
            RequestParameter::GetDnsIpV4NameServer(p) => p.spec_encoding(),
            RequestParameter::SetDnsIpV4NameServer(p) => p.spec_encoding(),
            RequestParameter::GetDnsHostName => Seq::empty(),
            RequestParameter::SetDnsHostName(p) => p.spec_encoding(),
            RequestParameter::GetDnsDomainName => Seq::empty(),
            RequestParameter::SetDnsDomainName(p) => p.spec_encoding(),
            RequestParameter::GetEndpointList => Seq::empty(),
            RequestParameter::GetEndpointListChange => Seq::empty(),
            RequestParameter::GetIdentifyEndpoint(p) => p.spec_encoding(),
            RequestParameter::SetIdentifyEndpoint(p) => p.spec_encoding(),
            RequestParameter::GetEndpointToUniverse(p) => p.spec_encoding(),
            RequestParameter::SetEndpointToUniverse(p) => p.spec_encoding(),
            RequestParameter::GetEndpointMode(p) => p.spec_encoding(),
            RequestParameter::SetEndpointMode(p) => p.spec_encoding(),
            RequestParameter::GetEndpointLabel(p) => p.spec_encoding(),
            RequestParameter::SetEndpointLabel(p) => p.spec_encoding(),
            RequestParameter::GetRdmTrafficEnable(p) => p.spec_encoding(),
            RequestParameter::SetRdmTrafficEnable(p) => p.spec_encoding(),
            RequestParameter::GetDiscoveryState(p) => p.spec_encoding(),
            RequestParameter::SetDiscoveryState(p) => p.spec_encoding(),
            RequestParameter::GetBackgroundDiscovery(p) => p.spec_encoding(),
            RequestParameter::SetBackgroundDiscovery(p) => p.spec_encoding(),
            RequestParameter::GetEndpointTiming(p) => p.spec_encoding(),
            RequestParameter::SetEndpointTiming(p) => p.spec_encoding(),
            RequestParameter::GetEndpointTimingDescription(p) => p.spec_encoding(),
            RequestParameter::GetEndpointResponders(p) => p.spec_encoding(),
            RequestParameter::GetEndpointResponderListChange(p) => p.spec_encoding(),
            RequestParameter::GetBindingControlFields(p) => p.spec_encoding(),
            RequestParameter::GetBackgroundQueuedStatusPolicy => Seq::empty(),
            RequestParameter::SetBackgroundQueuedStatusPolicy(p) => p.spec_encoding(),
            RequestParameter::GetBackgroundQueuedStatusPolicyDescription(p) => p.spec_encoding(),
            RequestParameter::GetComponentScope(p) => p.spec_encoding(),
            RequestParameter::SetComponentScope(p) => p.spec_encoding(),
            RequestParameter::GetSearchDomain => Seq::empty(),
            RequestParameter::SetSearchDomain(p) => p.spec_encoding(),
            RequestParameter::GetTcpCommsStatus => Seq::empty(),
            RequestParameter::SetTcpCommsStatus(p) => p.spec_encoding(),
            RequestParameter::GetBrokerStatus => Seq::empty(),
            RequestParameter::SetBrokerStatus(p) => p.spec_encoding(),
            RequestParameter::CustomParameter(c) => c.spec_data(),
        }
    }

    /// Whether the pair of command class and parameter identifier names a modeled parameter.
    pub open spec fn spec_is_modeled(command_class: CommandClass, parameter_id: ParameterId) -> bool {
        match (command_class, parameter_id) {
            (CommandClass::DiscoveryCommand, ParameterId::DiscUniqueBranch) => true,
            (CommandClass::DiscoveryCommand, ParameterId::DiscMute) => true,
            (CommandClass::DiscoveryCommand, ParameterId::DiscUnMute) => true,
            (CommandClass::GetCommand, ParameterId::CommsStatus) => true,
            (CommandClass::SetCommand, ParameterId::CommsStatus) => true,
            (CommandClass::GetCommand, ParameterId::QueuedMessage) => true,
            (CommandClass::GetCommand, ParameterId::StatusMessages) => true,
            (CommandClass::GetCommand, ParameterId::StatusIdDescription) => true,
            (CommandClass::SetCommand, ParameterId::ClearStatusId) => true,
            (CommandClass::GetCommand, ParameterId::SubDeviceIdStatusReportThreshold) => true,
            (CommandClass::SetCommand, ParameterId::SubDeviceIdStatusReportThreshold) => true,
            (CommandClass::GetCommand, ParameterId::SupportedParameters) => true,
            (CommandClass::GetCommand, ParameterId::ParameterDescription) => true,
            (CommandClass::GetCommand, ParameterId::DeviceInfo) => true,
            (CommandClass::GetCommand, ParameterId::ProductDetailIdList) => true,
            (CommandClass::GetCommand, ParameterId::DeviceModelDescription) => true,
            (CommandClass::GetCommand, ParameterId::ManufacturerLabel) => true,
            (CommandClass::GetCommand, ParameterId::DeviceLabel) => true,
            (CommandClass::SetCommand, ParameterId::DeviceLabel) => true,
            (CommandClass::GetCommand, ParameterId::FactoryDefaults) => true,
            (CommandClass::SetCommand, ParameterId::FactoryDefaults) => true,
            (CommandClass::GetCommand, ParameterId::LanguageCapabilities) => true,
            (CommandClass::GetCommand, ParameterId::Language) => true,
            (CommandClass::SetCommand, ParameterId::Language) => true,
            (CommandClass::GetCommand, ParameterId::SoftwareVersionLabel) => true,
            (CommandClass::GetCommand, ParameterId::BootSoftwareVersionId) => true,
            (CommandClass::GetCommand, ParameterId::BootSoftwareVersionLabel) => true,
            (CommandClass::GetCommand, ParameterId::DmxPersonality) => true,
            (CommandClass::SetCommand, ParameterId::DmxPersonality) => true,
            (CommandClass::GetCommand, ParameterId::DmxPersonalityDescription) => true,
            (CommandClass::GetCommand, ParameterId::DmxStartAddress) => true,
            (CommandClass::SetCommand, ParameterId::DmxStartAddress) => true,
            (CommandClass::GetCommand, ParameterId::SlotInfo) => true,
            (CommandClass::GetCommand, ParameterId::SlotDescription) => true,
            (CommandClass::GetCommand, ParameterId::DefaultSlotValue) => true,
            (CommandClass::GetCommand, ParameterId::SensorDefinition) => true,
            (CommandClass::GetCommand, ParameterId::SensorValue) => true,
            (CommandClass::SetCommand, ParameterId::SensorValue) => true,
            (CommandClass::SetCommand, ParameterId::RecordSensors) => true,
            (CommandClass::GetCommand, ParameterId::DeviceHours) => true,
            (CommandClass::SetCommand, ParameterId::DeviceHours) => true,
            (CommandClass::GetCommand, ParameterId::LampHours) => true,
            (CommandClass::SetCommand, ParameterId::LampHours) => true,
            (CommandClass::GetCommand, ParameterId::LampStrikes) => true,
            (CommandClass::SetCommand, ParameterId::LampStrikes) => true,
            (CommandClass::GetCommand, ParameterId::LampState) => true,
            (CommandClass::SetCommand, ParameterId::LampState) => true,
            (CommandClass::GetCommand, ParameterId::LampOnMode) => true,
            (CommandClass::SetCommand, ParameterId::LampOnMode) => true,
            (CommandClass::GetCommand, ParameterId::DevicePowerCycles) => true,
            (CommandClass::SetCommand, ParameterId::DevicePowerCycles) => true,
            (CommandClass::GetCommand, ParameterId::DisplayInvert) => true,
            (CommandClass::SetCommand, ParameterId::DisplayInvert) => true,
            (CommandClass::GetCommand, ParameterId::DisplayLevel) => true,
            (CommandClass::SetCommand, ParameterId::DisplayLevel) => true,
            (CommandClass::GetCommand, ParameterId::PanInvert) => true,
            (CommandClass::SetCommand, ParameterId::PanInvert) => true,
            (CommandClass::GetCommand, ParameterId::TiltInvert) => true,
            (CommandClass::SetCommand, ParameterId::TiltInvert) => true,
            (CommandClass::GetCommand, ParameterId::PanTiltSwap) => true,
            (CommandClass::SetCommand, ParameterId::PanTiltSwap) => true,
            (CommandClass::GetCommand, ParameterId::RealTimeClock) => true,
            (CommandClass::SetCommand, ParameterId::RealTimeClock) => true,
            (CommandClass::GetCommand, ParameterId::IdentifyDevice) => true,
            (CommandClass::SetCommand, ParameterId::IdentifyDevice) => true,
            (CommandClass::SetCommand, ParameterId::ResetDevice) => true,
            (CommandClass::GetCommand, ParameterId::PowerState) => true,
            (CommandClass::SetCommand, ParameterId::PowerState) => true,
            (CommandClass::GetCommand, ParameterId::PerformSelfTest) => true,
            (CommandClass::SetCommand, ParameterId::PerformSelfTest) => true,
            (CommandClass::SetCommand, ParameterId::CapturePreset) => true,
            (CommandClass::GetCommand, ParameterId::SelfTestDescription) => true,
            (CommandClass::GetCommand, ParameterId::PresetPlayback) => true,
            (CommandClass::SetCommand, ParameterId::PresetPlayback) => true,
            (CommandClass::GetCommand, ParameterId::DmxBlockAddress) => true,
            (CommandClass::SetCommand, ParameterId::DmxBlockAddress) => true,
            (CommandClass::GetCommand, ParameterId::DmxFailMode) => true,
            (CommandClass::SetCommand, ParameterId::DmxFailMode) => true,
            (CommandClass::GetCommand, ParameterId::DmxStartupMode) => true,
            (CommandClass::SetCommand, ParameterId::DmxStartupMode) => true,
            (CommandClass::GetCommand, ParameterId::DimmerInfo) => true,
            (CommandClass::GetCommand, ParameterId::MinimumLevel) => true,
            (CommandClass::SetCommand, ParameterId::MinimumLevel) => true,
            (CommandClass::GetCommand, ParameterId::MaximumLevel) => true,
            (CommandClass::SetCommand, ParameterId::MaximumLevel) => true,
            (CommandClass::GetCommand, ParameterId::Curve) => true,
            (CommandClass::SetCommand, ParameterId::Curve) => true,
            (CommandClass::GetCommand, ParameterId::CurveDescription) => true,
            (CommandClass::GetCommand, ParameterId::OutputResponseTime) => true,
            (CommandClass::SetCommand, ParameterId::OutputResponseTime) => true,
            (CommandClass::GetCommand, ParameterId::OutputResponseTimeDescription) => true,
            (CommandClass::GetCommand, ParameterId::ModulationFrequency) => true,
            (CommandClass::SetCommand, ParameterId::ModulationFrequency) => true,
            (CommandClass::GetCommand, ParameterId::ModulationFrequencyDescription) => true,
            (CommandClass::GetCommand, ParameterId::PowerOnSelfTest) => true,
            (CommandClass::SetCommand, ParameterId::PowerOnSelfTest) => true,
            (CommandClass::GetCommand, ParameterId::LockState) => true,
            (CommandClass::SetCommand, ParameterId::LockState) => true,
            (CommandClass::GetCommand, ParameterId::LockStateDescription) => true,
            (CommandClass::GetCommand, ParameterId::LockPin) => true,
            (CommandClass::SetCommand, ParameterId::LockPin) => true,
            (CommandClass::GetCommand, ParameterId::BurnIn) => true,
            (CommandClass::SetCommand, ParameterId::BurnIn) => true,
            (CommandClass::GetCommand, ParameterId::IdentifyMode) => true,
            (CommandClass::SetCommand, ParameterId::IdentifyMode) => true,
            (CommandClass::GetCommand, ParameterId::PresetInfo) => true,
            (CommandClass::GetCommand, ParameterId::PresetStatus) => true,
            (CommandClass::SetCommand, ParameterId::PresetStatus) => true,
            (CommandClass::GetCommand, ParameterId::PresetMergeMode) => true,
            (CommandClass::SetCommand, ParameterId::PresetMergeMode) => true,
            (CommandClass::GetCommand, ParameterId::ListInterfaces) => true,
            (CommandClass::GetCommand, ParameterId::InterfaceLabel) => true,
            (CommandClass::GetCommand, ParameterId::InterfaceHardwareAddressType1) => true,
            (CommandClass::GetCommand, ParameterId::IpV4DhcpMode) => true,
            (CommandClass::SetCommand, ParameterId::IpV4DhcpMode) => true,
            (CommandClass::GetCommand, ParameterId::IpV4ZeroConfMode) => true,
            (CommandClass::SetCommand, ParameterId::IpV4ZeroConfMode) => true,
            (CommandClass::GetCommand, ParameterId::IpV4CurrentAddress) => true,
            (CommandClass::GetCommand, ParameterId::IpV4StaticAddress) => true,
            (CommandClass::SetCommand, ParameterId::IpV4StaticAddress) => true,
            (CommandClass::SetCommand, ParameterId::InterfaceApplyConfiguration) => true,
            (CommandClass::SetCommand, ParameterId::InterfaceRenewDhcp) => true,
            (CommandClass::SetCommand, ParameterId::InterfaceReleaseDhcp) => true,
            (CommandClass::GetCommand, ParameterId::IpV4DefaultRoute) => true,
            (CommandClass::SetCommand, ParameterId::IpV4DefaultRoute) => true,
            (CommandClass::GetCommand, ParameterId::DnsIpV4NameServer) => true,
            (CommandClass::SetCommand, ParameterId::DnsIpV4NameServer) => true,
            (CommandClass::GetCommand, ParameterId::DnsHostName) => true,
            (CommandClass::SetCommand, ParameterId::DnsHostName) => true,
            (CommandClass::GetCommand, ParameterId::DnsDomainName) => true,
            (CommandClass::SetCommand, ParameterId::DnsDomainName) => true,
            (CommandClass::GetCommand, ParameterId::EndpointList) => true,
            (CommandClass::GetCommand, ParameterId::EndpointListChange) => true,
            (CommandClass::GetCommand, ParameterId::IdentifyEndpoint) => true,
            (CommandClass::SetCommand, ParameterId::IdentifyEndpoint) => true,
            (CommandClass::GetCommand, ParameterId::EndpointToUniverse) => true,
            (CommandClass::SetCommand, ParameterId::EndpointToUniverse) => true,
            (CommandClass::GetCommand, ParameterId::EndpointMode) => true,
            (CommandClass::SetCommand, ParameterId::EndpointMode) => true,
            (CommandClass::GetCommand, ParameterId::EndpointLabel) => true,
            (CommandClass::SetCommand, ParameterId::EndpointLabel) => true,
            (CommandClass::GetCommand, ParameterId::RdmTrafficEnable) => true,
            (CommandClass::SetCommand, ParameterId::RdmTrafficEnable) => true,
            (CommandClass::GetCommand, ParameterId::DiscoveryState) => true,
            (CommandClass::SetCommand, ParameterId::DiscoveryState) => true,
            (CommandClass::GetCommand, ParameterId::BackgroundDiscovery) => true,
            (CommandClass::SetCommand, ParameterId::BackgroundDiscovery) => true,
            (CommandClass::GetCommand, ParameterId::EndpointTiming) => true,
            (CommandClass::SetCommand, ParameterId::EndpointTiming) => true,
            (CommandClass::GetCommand, ParameterId::EndpointTimingDescription) => true,
            (CommandClass::GetCommand, ParameterId::EndpointResponders) => true,
            (CommandClass::GetCommand, ParameterId::EndpointResponderListChange) => true,
            (CommandClass::GetCommand, ParameterId::BindingControlFields) => true,
            (CommandClass::GetCommand, ParameterId::BackgroundQueuedStatusPolicy) => true,
            (CommandClass::SetCommand, ParameterId::BackgroundQueuedStatusPolicy) => true,
            (CommandClass::GetCommand, ParameterId::BackgroundQueuedStatusPolicyDescription) => true,
            (CommandClass::GetCommand, ParameterId::ComponentScope) => true,
            (CommandClass::SetCommand, ParameterId::ComponentScope) => true,
            (CommandClass::GetCommand, ParameterId::SearchDomain) => true,
            (CommandClass::SetCommand, ParameterId::SearchDomain) => true,
            (CommandClass::GetCommand, ParameterId::TcpCommsStatus) => true,
            (CommandClass::SetCommand, ParameterId::TcpCommsStatus) => true,
            (CommandClass::GetCommand, ParameterId::BrokerStatus) => true,
            (CommandClass::SetCommand, ParameterId::BrokerStatus) => true,
            _ => false,
        }
    }

    /// The parameter that parameter data stands for, or why it stands for none.
    pub open spec fn spec_decoded(command_class: CommandClass, parameter_id: ParameterId, buf: Seq<u8>) -> Result<Self, ParameterDataError> {
        match (command_class, parameter_id) {
            (CommandClass::DiscoveryCommand, ParameterId::DiscUniqueBranch) => match DiscUniqueBranchRequest::spec_decoded(buf) {
                Ok(p) => Ok(RequestParameter::DiscUniqueBranch(p)),
                Err(e) => Err(e),
            },
            (CommandClass::DiscoveryCommand, ParameterId::DiscMute) => Ok(RequestParameter::DiscMute),
            (CommandClass::DiscoveryCommand, ParameterId::DiscUnMute) => Ok(RequestParameter::DiscUnMute),
            (CommandClass::GetCommand, ParameterId::CommsStatus) => Ok(RequestParameter::GetCommsStatus),
            (CommandClass::SetCommand, ParameterId::CommsStatus) => Ok(RequestParameter::SetCommsStatus),
            (CommandClass::GetCommand, ParameterId::QueuedMessage) => match GetQueuedMessageRequest::spec_decoded(buf) {
                Ok(p) => Ok(RequestParameter::GetQueuedMessage(p)),
                Err(e) => Err(e),
            },
            (CommandClass::GetCommand, ParameterId::StatusMessages) => match GetStatusMessagesRequest::spec_decoded(buf) {
                Ok(p) => Ok(RequestParameter::GetStatusMessages(p)),
                Err(e) => Err(e),
            },
            (CommandClass::GetCommand, ParameterId::StatusIdDescription) => match GetStatusIdDescriptionRequest::spec_decoded(buf) {
                Ok(p) => Ok(RequestParameter::GetStatusIdDescription(p)),
                Err(e) => Err(e),
            },
            (CommandClass::SetCommand, ParameterId::ClearStatusId) => Ok(RequestParameter::SetClearStatusId),
            (CommandClass::GetCommand, ParameterId::SubDeviceIdStatusReportThreshold) => Ok(RequestParameter::GetSubDeviceIdStatusReportThreshold),
            (CommandClass::SetCommand, ParameterId::SubDeviceIdStatusReportThreshold) => match SetSubDeviceIdStatusReportThresholdRequest::spec_decoded(buf) {
                Ok(p) => Ok(RequestParameter::SetSubDeviceIdStatusReportThreshold(p)),
                Err(e) => Err(e),
            },
            (CommandClass::GetCommand, ParameterId::SupportedParameters) => Ok(RequestParameter::GetSupportedParameters),
            (CommandClass::GetCommand, ParameterId::ParameterDescription) => match GetParameterDescriptionRequest::spec_decoded(buf) {
                Ok(p) => Ok(RequestParameter::GetParameterDescription(p)),
                Err(e) => Err(e),
            },
            (CommandClass::GetCommand, ParameterId::DeviceInfo) => Ok(RequestParameter::GetDeviceInfo),
            (CommandClass::GetCommand, ParameterId::ProductDetailIdList) => Ok(RequestParameter::GetProductDetailIdList),
            (CommandClass::GetCommand, ParameterId::DeviceModelDescription) => Ok(RequestParameter::GetDeviceModelDescription),
            (CommandClass::GetCommand, ParameterId::ManufacturerLabel) => Ok(RequestParameter::GetManufacturerLabel),
            (CommandClass::GetCommand, ParameterId::DeviceLabel) => Ok(RequestParameter::GetDeviceLabel),
            (CommandClass::SetCommand, ParameterId::DeviceLabel) => match SetDeviceLabelRequest::spec_decoded(buf) {
                Ok(p) => Ok(RequestParameter::SetDeviceLabel(p)),
                Err(e) => Err(e),
            },
            (CommandClass::GetCommand, ParameterId::FactoryDefaults) => Ok(RequestParameter::GetFactoryDefaults),
            (CommandClass::SetCommand, ParameterId::FactoryDefaults) => Ok(RequestParameter::SetFactoryDefaults),
            (CommandClass::GetCommand, ParameterId::LanguageCapabilities) => Ok(RequestParameter::GetLanguageCapabilities),
            (CommandClass::GetCommand, ParameterId::Language) => Ok(RequestParameter::GetLanguage),
            (CommandClass::SetCommand, ParameterId::Language) => match SetLanguageRequest::spec_decoded(buf) {
                Ok(p) => Ok(RequestParameter::SetLanguage(p)),
                Err(e) => Err(e),
            },
            (CommandClass::GetCommand, ParameterId::SoftwareVersionLabel) => Ok(RequestParameter::GetSoftwareVersionLabel),
            (CommandClass::GetCommand, ParameterId::BootSoftwareVersionId) => Ok(RequestParameter::GetBootSoftwareVersionId),
            (CommandClass::GetCommand, ParameterId::BootSoftwareVersionLabel) => Ok(RequestParameter::GetBootSoftwareVersionLabel),
            (CommandClass::GetCommand, ParameterId::DmxPersonality) => Ok(RequestParameter::GetDmxPersonality),
            (CommandClass::SetCommand, ParameterId::DmxPersonality) => match SetDmxPersonalityRequest::spec_decoded(buf) {
                Ok(p) => Ok(RequestParameter::SetDmxPersonality(p)),
                Err(e) => Err(e),
            },
            (CommandClass::GetCommand, ParameterId::DmxPersonalityDescription) => match GetDmxPersonalityDescriptionRequest::spec_decoded(buf) {
                Ok(p) => Ok(RequestParameter::GetDmxPersonalityDescription(p)),
                Err(e) => Err(e),
            },
            (CommandClass::GetCommand, ParameterId::DmxStartAddress) => Ok(RequestParameter::GetDmxStartAddress),
            (CommandClass::SetCommand, ParameterId::DmxStartAddress) => match SetDmxStartAddressRequest::spec_decoded(buf) {
                Ok(p) => Ok(RequestParameter::SetDmxStartAddress(p)),
                Err(e) => Err(e),
            },
            (CommandClass::GetCommand, ParameterId::SlotInfo) => Ok(RequestParameter::GetSlotInfo),
            (CommandClass::GetCommand, ParameterId::SlotDescription) => match GetSlotDescriptionRequest::spec_decoded(buf) {
                Ok(p) => Ok(RequestParameter::GetSlotDescription(p)),
                Err(e) => Err(e),
            },
            (CommandClass::GetCommand, ParameterId::DefaultSlotValue) => Ok(RequestParameter::GetDefaultSlotValue),
            (CommandClass::GetCommand, ParameterId::SensorDefinition) => match GetSensorDefinitionRequest::spec_decoded(buf) {
                Ok(p) => Ok(RequestParameter::GetSensorDefinition(p)),
                Err(e) => Err(e),
            },
            (CommandClass::GetCommand, ParameterId::SensorValue) => match GetSensorValueRequest::spec_decoded(buf) {
                Ok(p) => Ok(RequestParameter::GetSensorValue(p)),
                Err(e) => Err(e),
            },
            (CommandClass::SetCommand, ParameterId::SensorValue) => match SetSensorValueRequest::spec_decoded(buf) {
                Ok(p) => Ok(RequestParameter::SetSensorValue(p)),
                Err(e) => Err(e),
            },
            (CommandClass::SetCommand, ParameterId::RecordSensors) => match SetRecordSensorsRequest::spec_decoded(buf) {
                Ok(p) => Ok(RequestParameter::SetRecordSensors(p)),
                Err(e) => Err(e),
            },
            (CommandClass::GetCommand, ParameterId::DeviceHours) => Ok(RequestParameter::GetDeviceHours),
            (CommandClass::SetCommand, ParameterId::DeviceHours) => match SetDeviceHoursRequest::spec_decoded(buf) {
                Ok(p) => Ok(RequestParameter::SetDeviceHours(p)),
                Err(e) => Err(e),
            },
            (CommandClass::GetCommand, ParameterId::LampHours) => Ok(RequestParameter::GetLampHours),
            (CommandClass::SetCommand, ParameterId::LampHours) => match SetLampHoursRequest::spec_decoded(buf) {
                Ok(p) => Ok(RequestParameter::SetLampHours(p)),
                Err(e) => Err(e),
            },
            (CommandClass::GetCommand, ParameterId::LampStrikes) => Ok(RequestParameter::GetLampStrikes),
            (CommandClass::SetCommand, ParameterId::LampStrikes) => match SetLampStrikesRequest::spec_decoded(buf) {
                Ok(p) => Ok(RequestParameter::SetLampStrikes(p)),
                Err(e) => Err(e),
            },
            (CommandClass::GetCommand, ParameterId::LampState) => Ok(RequestParameter::GetLampState),
            (CommandClass::SetCommand, ParameterId::LampState) => match SetLampStateRequest::spec_decoded(buf) {
                Ok(p) => Ok(RequestParameter::SetLampState(p)),
                Err(e) => Err(e),
            },
            (CommandClass::GetCommand, ParameterId::LampOnMode) => Ok(RequestParameter::GetLampOnMode),
            (CommandClass::SetCommand, ParameterId::LampOnMode) => match SetLampOnModeRequest::spec_decoded(buf) {
                Ok(p) => Ok(RequestParameter::SetLampOnMode(p)),
                Err(e) => Err(e),
            },
            (CommandClass::GetCommand, ParameterId::DevicePowerCycles) => Ok(RequestParameter::GetDevicePowerCycles),
            (CommandClass::SetCommand, ParameterId::DevicePowerCycles) => match SetDevicePowerCyclesRequest::spec_decoded(buf) {
                Ok(p) => Ok(RequestParameter::SetDevicePowerCycles(p)),
                Err(e) => Err(e),
            },
            (CommandClass::GetCommand, ParameterId::DisplayInvert) => Ok(RequestParameter::GetDisplayInvert),
            (CommandClass::SetCommand, ParameterId::DisplayInvert) => match SetDisplayInvertRequest::spec_decoded(buf) {
                Ok(p) => Ok(RequestParameter::SetDisplayInvert(p)),
                Err(e) => Err(e),
            },
            (CommandClass::GetCommand, ParameterId::DisplayLevel) => Ok(RequestParameter::GetDisplayLevel),
            (CommandClass::SetCommand, ParameterId::DisplayLevel) => match SetDisplayLevelRequest::spec_decoded(buf) {
                Ok(p) => Ok(RequestParameter::SetDisplayLevel(p)),
                Err(e) => Err(e),
            },
            (CommandClass::GetCommand, ParameterId::PanInvert) => Ok(RequestParameter::GetPanInvert),
            (CommandClass::SetCommand, ParameterId::PanInvert) => match SetPanInvertRequest::spec_decoded(buf) {
                Ok(p) => Ok(RequestParameter::SetPanInvert(p)),
                Err(e) => Err(e),
            },
            (CommandClass::GetCommand, ParameterId::TiltInvert) => Ok(RequestParameter::GetTiltInvert),
            (CommandClass::SetCommand, ParameterId::TiltInvert) => match SetTiltInvertRequest::spec_decoded(buf) {
                Ok(p) => Ok(RequestParameter::SetTiltInvert(p)),
                Err(e) => Err(e),
            },
            (CommandClass::GetCommand, ParameterId::PanTiltSwap) => Ok(RequestParameter::GetPanTiltSwap),
            (CommandClass::SetCommand, ParameterId::PanTiltSwap) => match SetPanTiltSwapRequest::spec_decoded(buf) {
                Ok(p) => Ok(RequestParameter::SetPanTiltSwap(p)),
                Err(e) => Err(e),
            },
            (CommandClass::GetCommand, ParameterId::RealTimeClock) => Ok(RequestParameter::GetRealTimeClock),
            (CommandClass::SetCommand, ParameterId::RealTimeClock) => match SetRealTimeClockRequest::spec_decoded(buf) {
                Ok(p) => Ok(RequestParameter::SetRealTimeClock(p)),
                Err(e) => Err(e),
            },
            (CommandClass::GetCommand, ParameterId::IdentifyDevice) => Ok(RequestParameter::GetIdentifyDevice),
            (CommandClass::SetCommand, ParameterId::IdentifyDevice) => match SetIdentifyDeviceRequest::spec_decoded(buf) {
                Ok(p) => Ok(RequestParameter::SetIdentifyDevice(p)),
                Err(e) => Err(e),
            },
            (CommandClass::SetCommand, ParameterId::ResetDevice) => match SetResetDeviceRequest::spec_decoded(buf) {
                Ok(p) => Ok(RequestParameter::SetResetDevice(p)),
                Err(e) => Err(e),
            },
            (CommandClass::GetCommand, ParameterId::PowerState) => Ok(RequestParameter::GetPowerState),
            (CommandClass::SetCommand, ParameterId::PowerState) => match SetPowerStateRequest::spec_decoded(buf) {
                Ok(p) => Ok(RequestParameter::SetPowerState(p)),
                Err(e) => Err(e),
            },
            (CommandClass::GetCommand, ParameterId::PerformSelfTest) => Ok(RequestParameter::GetPerformSelfTest),
            (CommandClass::SetCommand, ParameterId::PerformSelfTest) => match SetPerformSelfTestRequest::spec_decoded(buf) {
                Ok(p) => Ok(RequestParameter::SetPerformSelfTest(p)),
                Err(e) => Err(e),
            },
            (CommandClass::SetCommand, ParameterId::CapturePreset) => match SetCapturePresetRequest::spec_decoded(buf) {
                Ok(p) => Ok(RequestParameter::SetCapturePreset(p)),
                Err(e) => Err(e),
            },
            (CommandClass::GetCommand, ParameterId::SelfTestDescription) => match GetSelfTestDescriptionRequest::spec_decoded(buf) {
                Ok(p) => Ok(RequestParameter::GetSelfTestDescription(p)),
                Err(e) => Err(e),
            },
            (CommandClass::GetCommand, ParameterId::PresetPlayback) => Ok(RequestParameter::GetPresetPlayback),
            (CommandClass::SetCommand, ParameterId::PresetPlayback) => match SetPresetPlaybackRequest::spec_decoded(buf) {
                Ok(p) => Ok(RequestParameter::SetPresetPlayback(p)),
                Err(e) => Err(e),
            },
            (CommandClass::GetCommand, ParameterId::DmxBlockAddress) => Ok(RequestParameter::GetDmxBlockAddress),
            (CommandClass::SetCommand, ParameterId::DmxBlockAddress) => match SetDmxBlockAddressRequest::spec_decoded(buf) {
                Ok(p) => Ok(RequestParameter::SetDmxBlockAddress(p)),
                Err(e) => Err(e),
            },
            (CommandClass::GetCommand, ParameterId::DmxFailMode) => Ok(RequestParameter::GetDmxFailMode),
            (CommandClass::SetCommand, ParameterId::DmxFailMode) => match SetDmxFailModeRequest::spec_decoded(buf) {
                Ok(p) => Ok(RequestParameter::SetDmxFailMode(p)),
                Err(e) => Err(e),
            },
            (CommandClass::GetCommand, ParameterId::DmxStartupMode) => Ok(RequestParameter::GetDmxStartupMode),
            (CommandClass::SetCommand, ParameterId::DmxStartupMode) => match SetDmxStartupModeRequest::spec_decoded(buf) {
                Ok(p) => Ok(RequestParameter::SetDmxStartupMode(p)),
                Err(e) => Err(e),
            },
            (CommandClass::GetCommand, ParameterId::DimmerInfo) => Ok(RequestParameter::GetDimmerInfo),
            (CommandClass::GetCommand, ParameterId::MinimumLevel) => Ok(RequestParameter::GetMinimumLevel),
            (CommandClass::SetCommand, ParameterId::MinimumLevel) => match SetMinimumLevelRequest::spec_decoded(buf) {
                Ok(p) => Ok(RequestParameter::SetMinimumLevel(p)),
                Err(e) => Err(e),
            },
            (CommandClass::GetCommand, ParameterId::MaximumLevel) => Ok(RequestParameter::GetMaximumLevel),
            (CommandClass::SetCommand, ParameterId::MaximumLevel) => match SetMaximumLevelRequest::spec_decoded(buf) {
                Ok(p) => Ok(RequestParameter::SetMaximumLevel(p)),
                Err(e) => Err(e),
            },
            (CommandClass::GetCommand, ParameterId::Curve) => Ok(RequestParameter::GetCurve),
            (CommandClass::SetCommand, ParameterId::Curve) => Ok(RequestParameter::SetCurve),
            (CommandClass::GetCommand, ParameterId::CurveDescription) => match GetCurveDescriptionRequest::spec_decoded(buf) {
                Ok(p) => Ok(RequestParameter::GetCurveDescription(p)),
                Err(e) => Err(e),
            },
            (CommandClass::GetCommand, ParameterId::OutputResponseTime) => Ok(RequestParameter::GetOutputResponseTime),
            (CommandClass::SetCommand, ParameterId::OutputResponseTime) => match SetOutputResponseTimeRequest::spec_decoded(buf) {
                Ok(p) => Ok(RequestParameter::SetOutputResponseTime(p)),
                Err(e) => Err(e),
            },
            (CommandClass::GetCommand, ParameterId::OutputResponseTimeDescription) => match GetOutputResponseTimeDescriptionRequest::spec_decoded(buf) {
                Ok(p) => Ok(RequestParameter::GetOutputResponseTimeDescription(p)),
                Err(e) => Err(e),
            },
            (CommandClass::GetCommand, ParameterId::ModulationFrequency) => Ok(RequestParameter::GetModulationFrequency),
            (CommandClass::SetCommand, ParameterId::ModulationFrequency) => match SetModulationFrequencyRequest::spec_decoded(buf) {
                Ok(p) => Ok(RequestParameter::SetModulationFrequency(p)),
                Err(e) => Err(e),
            },
            (CommandClass::GetCommand, ParameterId::ModulationFrequencyDescription) => match GetModulationFrequencyDescriptionRequest::spec_decoded(buf) {
                Ok(p) => Ok(RequestParameter::GetModulationFrequencyDescription(p)),
                Err(e) => Err(e),
            },
            (CommandClass::GetCommand, ParameterId::PowerOnSelfTest) => Ok(RequestParameter::GetPowerOnSelfTest),
            (CommandClass::SetCommand, ParameterId::PowerOnSelfTest) => match SetPowerOnSelfTestRequest::spec_decoded(buf) {
                Ok(p) => Ok(RequestParameter::SetPowerOnSelfTest(p)),
                Err(e) => Err(e),
            },
            (CommandClass::GetCommand, ParameterId::LockState) => Ok(RequestParameter::GetLockState),
            (CommandClass::SetCommand, ParameterId::LockState) => match SetLockStateRequest::spec_decoded(buf) {
                Ok(p) => Ok(RequestParameter::SetLockState(p)),
                Err(e) => Err(e),
            },
            (CommandClass::GetCommand, ParameterId::LockStateDescription) => Ok(RequestParameter::GetLockStateDescription),
            (CommandClass::GetCommand, ParameterId::LockPin) => Ok(RequestParameter::GetLockPin),
            (CommandClass::SetCommand, ParameterId::LockPin) => match SetLockPinRequest::spec_decoded(buf) {
                Ok(p) => Ok(RequestParameter::SetLockPin(p)),
                Err(e) => Err(e),
            },
            (CommandClass::GetCommand, ParameterId::BurnIn) => Ok(RequestParameter::GetBurnIn),
            (CommandClass::SetCommand, ParameterId::BurnIn) => match SetBurnInRequest::spec_decoded(buf) {
                Ok(p) => Ok(RequestParameter::SetBurnIn(p)),
                Err(e) => Err(e),
            },
            (CommandClass::GetCommand, ParameterId::IdentifyMode) => Ok(RequestParameter::GetIdentifyMode),
            (CommandClass::SetCommand, ParameterId::IdentifyMode) => match SetIdentifyModeRequest::spec_decoded(buf) {
                Ok(p) => Ok(RequestParameter::SetIdentifyMode(p)),
                Err(e) => Err(e),
            },
            (CommandClass::GetCommand, ParameterId::PresetInfo) => Ok(RequestParameter::GetPresetInfo),
            (CommandClass::GetCommand, ParameterId::PresetStatus) => match GetPresetStatusRequest::spec_decoded(buf) {
                Ok(p) => Ok(RequestParameter::GetPresetStatus(p)),
                Err(e) => Err(e),
            },
            (CommandClass::SetCommand, ParameterId::PresetStatus) => match SetPresetStatusRequest::spec_decoded(buf) {
                Ok(p) => Ok(RequestParameter::SetPresetStatus(p)),
                Err(e) => Err(e),
            },
            (CommandClass::GetCommand, ParameterId::PresetMergeMode) => Ok(RequestParameter::GetPresetMergeMode),
            (CommandClass::SetCommand, ParameterId::PresetMergeMode) => match SetPresetMergeModeRequest::spec_decoded(buf) {
                Ok(p) => Ok(RequestParameter::SetPresetMergeMode(p)),
                Err(e) => Err(e),
            },
            (CommandClass::GetCommand, ParameterId::ListInterfaces) => Ok(RequestParameter::GetListInterfaces),
            (CommandClass::GetCommand, ParameterId::InterfaceLabel) => match GetInterfaceLabelRequest::spec_decoded(buf) {
                Ok(p) => Ok(RequestParameter::GetInterfaceLabel(p)),
                Err(e) => Err(e),
            },
            (CommandClass::GetCommand, ParameterId::InterfaceHardwareAddressType1) => match GetInterfaceHardwareAddressType1Request::spec_decoded(buf) {
                Ok(p) => Ok(RequestParameter::GetInterfaceHardwareAddressType1(p)),
                Err(e) => Err(e),
            },
            (CommandClass::GetCommand, ParameterId::IpV4DhcpMode) => match GetIpV4DhcpModeRequest::spec_decoded(buf) {
                Ok(p) => Ok(RequestParameter::GetIpV4DhcpMode(p)),
                Err(e) => Err(e),
            },
            (CommandClass::SetCommand, ParameterId::IpV4DhcpMode) => match SetIpV4DhcpModeRequest::spec_decoded(buf) {
                Ok(p) => Ok(RequestParameter::SetIpV4DhcpMode(p)),
                Err(e) => Err(e),
            },
            (CommandClass::GetCommand, ParameterId::IpV4ZeroConfMode) => match GetIpV4ZeroConfModeRequest::spec_decoded(buf) {
                Ok(p) => Ok(RequestParameter::GetIpV4ZeroConfMode(p)),
                Err(e) => Err(e),
            },
            (CommandClass::SetCommand, ParameterId::IpV4ZeroConfMode) => match SetIpV4ZeroConfModeRequest::spec_decoded(buf) {
                Ok(p) => Ok(RequestParameter::SetIpV4ZeroConfMode(p)),
                Err(e) => Err(e),
            },
            (CommandClass::GetCommand, ParameterId::IpV4CurrentAddress) => match GetIpV4CurrentAddressRequest::spec_decoded(buf) {
                Ok(p) => Ok(RequestParameter::GetIpV4CurrentAddress(p)),
                Err(e) => Err(e),
            },
            (CommandClass::GetCommand, ParameterId::IpV4StaticAddress) => match GetIpV4StaticAddressRequest::spec_decoded(buf) {
                Ok(p) => Ok(RequestParameter::GetIpV4StaticAddress(p)),
                Err(e) => Err(e),
            },
            (CommandClass::SetCommand, ParameterId::IpV4StaticAddress) => match SetIpV4StaticAddressRequest::spec_decoded(buf) {
                Ok(p) => Ok(RequestParameter::SetIpV4StaticAddress(p)),
                Err(e) => Err(e),
            },
            (CommandClass::SetCommand, ParameterId::InterfaceApplyConfiguration) => match SetInterfaceApplyConfigurationRequest::spec_decoded(buf) {
                Ok(p) => Ok(RequestParameter::SetInterfaceApplyConfiguration(p)),
                Err(e) => Err(e),
            },
            (CommandClass::SetCommand, ParameterId::InterfaceRenewDhcp) => match SetInterfaceRenewDhcpRequest::spec_decoded(buf) {
                Ok(p) => Ok(RequestParameter::SetInterfaceRenewDhcp(p)),
                Err(e) => Err(e),
            },
            (CommandClass::SetCommand, ParameterId::InterfaceReleaseDhcp) => match SetInterfaceReleaseDhcpRequest::spec_decoded(buf) {
                Ok(p) => Ok(RequestParameter::SetInterfaceReleaseDhcp(p)),
                Err(e) => Err(e),
            },
            (CommandClass::GetCommand, ParameterId::IpV4DefaultRoute) => Ok(RequestParameter::GetIpV4DefaultRoute),
            (CommandClass::SetCommand, ParameterId::IpV4DefaultRoute) => match SetIpV4DefaultRouteRequest::spec_decoded(buf) {
                Ok(p) => Ok(RequestParameter::SetIpV4DefaultRoute(p)),
                Err(e) => Err(e),
            },
            (CommandClass::GetCommand, ParameterId::DnsIpV4NameServer) => match GetDnsIpV4NameServerRequest::spec_decoded(buf) {
                Ok(p) => Ok(RequestParameter::GetDnsIpV4NameServer(p)),
                Err(e) => Err(e),
            },
            (CommandClass::SetCommand, ParameterId::DnsIpV4NameServer) => match SetDnsIpv4NameServerRequest::spec_decoded(buf) {
                Ok(p) => Ok(RequestParameter::SetDnsIpV4NameServer(p)),
                Err(e) => Err(e),
            },
            (CommandClass::GetCommand, ParameterId::DnsHostName) => Ok(RequestParameter::GetDnsHostName),
            (CommandClass::SetCommand, ParameterId::DnsHostName) => match SetDnsHostNameRequest::spec_decoded(buf) {
                Ok(p) => Ok(RequestParameter::SetDnsHostName(p)),
                Err(e) => Err(e),
            },
            (CommandClass::GetCommand, ParameterId::DnsDomainName) => Ok(RequestParameter::GetDnsDomainName),
            (CommandClass::SetCommand, ParameterId::DnsDomainName) => match SetDnsDomainNameRequest::spec_decoded(buf) {
                Ok(p) => Ok(RequestParameter::SetDnsDomainName(p)),
                Err(e) => Err(e),
            },
            (CommandClass::GetCommand, ParameterId::EndpointList) => Ok(RequestParameter::GetEndpointList),
            (CommandClass::GetCommand, ParameterId::EndpointListChange) => Ok(RequestParameter::GetEndpointListChange),
            (CommandClass::GetCommand, ParameterId::IdentifyEndpoint) => match GetIdentifyEndpointRequest::spec_decoded(buf) {
                Ok(p) => Ok(RequestParameter::GetIdentifyEndpoint(p)),
                Err(e) => Err(e),
            },
            (CommandClass::SetCommand, ParameterId::IdentifyEndpoint) => match SetIdentifyEndpointRequest::spec_decoded(buf) {
                Ok(p) => Ok(RequestParameter::SetIdentifyEndpoint(p)),
                Err(e) => Err(e),
            },
            (CommandClass::GetCommand, ParameterId::EndpointToUniverse) => match GetEndpointToUniverseRequest::spec_decoded(buf) {
                Ok(p) => Ok(RequestParameter::GetEndpointToUniverse(p)),
                Err(e) => Err(e),
            },
            (CommandClass::SetCommand, ParameterId::EndpointToUniverse) => match SetEndpointToUniverseRequest::spec_decoded(buf) {
                Ok(p) => Ok(RequestParameter::SetEndpointToUniverse(p)),
                Err(e) => Err(e),
            },
            (CommandClass::GetCommand, ParameterId::EndpointMode) => match GetEndpointModeRequest::spec_decoded(buf) {
                Ok(p) => Ok(RequestParameter::GetEndpointMode(p)),
                Err(e) => Err(e),
            },
            (CommandClass::SetCommand, ParameterId::EndpointMode) => match SetEndpointModeRequest::spec_decoded(buf) {
                Ok(p) => Ok(RequestParameter::SetEndpointMode(p)),
                Err(e) => Err(e),
            },
            (CommandClass::GetCommand, ParameterId::EndpointLabel) => match GetEndpointLabelRequest::spec_decoded(buf) {
                Ok(p) => Ok(RequestParameter::GetEndpointLabel(p)),
                Err(e) => Err(e),
            },
            (CommandClass::SetCommand, ParameterId::EndpointLabel) => match SetEndpointLabelRequest::spec_decoded(buf) {
                Ok(p) => Ok(RequestParameter::SetEndpointLabel(p)),
                Err(e) => Err(e),
            },
            (CommandClass::GetCommand, ParameterId::RdmTrafficEnable) => match GetRdmTrafficEnableRequest::spec_decoded(buf) {
                Ok(p) => Ok(RequestParameter::GetRdmTrafficEnable(p)),
                Err(e) => Err(e),
            },
            (CommandClass::SetCommand, ParameterId::RdmTrafficEnable) => match SetRdmTrafficEnableRequest::spec_decoded(buf) {
                Ok(p) => Ok(RequestParameter::SetRdmTrafficEnable(p)),
                Err(e) => Err(e),
            },
            (CommandClass::GetCommand, ParameterId::DiscoveryState) => match GetDiscoveryStateRequest::spec_decoded(buf) {
                Ok(p) => Ok(RequestParameter::GetDiscoveryState(p)),
                Err(e) => Err(e),
            },
            (CommandClass::SetCommand, ParameterId::DiscoveryState) => match SetDiscoveryStateRequest::spec_decoded(buf) {
                Ok(p) => Ok(RequestParameter::SetDiscoveryState(p)),
                Err(e) => Err(e),
            },
            (CommandClass::GetCommand, ParameterId::BackgroundDiscovery) => match GetBackgroundDiscoveryRequest::spec_decoded(buf) {
                Ok(p) => Ok(RequestParameter::GetBackgroundDiscovery(p)),
                Err(e) => Err(e),
            },
            (CommandClass::SetCommand, ParameterId::BackgroundDiscovery) => match SetBackgroundDiscoveryRequest::spec_decoded(buf) {
                Ok(p) => Ok(RequestParameter::SetBackgroundDiscovery(p)),
                Err(e) => Err(e),
            },
            (CommandClass::GetCommand, ParameterId::EndpointTiming) => match GetEndpointTimingRequest::spec_decoded(buf) {
                Ok(p) => Ok(RequestParameter::GetEndpointTiming(p)),
                Err(e) => Err(e),
            },
            (CommandClass::SetCommand, ParameterId::EndpointTiming) => match SetEndpointTimingRequest::spec_decoded(buf) {
                Ok(p) => Ok(RequestParameter::SetEndpointTiming(p)),
                Err(e) => Err(e),
            },
            (CommandClass::GetCommand, ParameterId::EndpointTimingDescription) => match GetEndpointTimingDescriptionRequest::spec_decoded(buf) {
                Ok(p) => Ok(RequestParameter::GetEndpointTimingDescription(p)),
                Err(e) => Err(e),
            },
            (CommandClass::GetCommand, ParameterId::EndpointResponders) => match GetEndpointRespondersRequest::spec_decoded(buf) {
                Ok(p) => Ok(RequestParameter::GetEndpointResponders(p)),
                Err(e) => Err(e),
            },
            (CommandClass::GetCommand, ParameterId::EndpointResponderListChange) => match GetEndpointResponderListChangeRequest::spec_decoded(buf) {
                Ok(p) => Ok(RequestParameter::GetEndpointResponderListChange(p)),
                Err(e) => Err(e),
            },
            (CommandClass::GetCommand, ParameterId::BindingControlFields) => match GetBindingControlFieldsRequest::spec_decoded(buf) {
                Ok(p) => Ok(RequestParameter::GetBindingControlFields(p)),
                Err(e) => Err(e),
            },
            (CommandClass::GetCommand, ParameterId::BackgroundQueuedStatusPolicy) => Ok(RequestParameter::GetBackgroundQueuedStatusPolicy),
            (CommandClass::SetCommand, ParameterId::BackgroundQueuedStatusPolicy) => match SetBackgroundQueuedStatusPolicyRequest::spec_decoded(buf) {
                Ok(p) => Ok(RequestParameter::SetBackgroundQueuedStatusPolicy(p)),
                Err(e) => Err(e),
            },
            (CommandClass::GetCommand, ParameterId::BackgroundQueuedStatusPolicyDescription) => match GetBackgroundQueuedStatusPolicyDescriptionRequest::spec_decoded(buf) {
                Ok(p) => Ok(RequestParameter::GetBackgroundQueuedStatusPolicyDescription(p)),
                Err(e) => Err(e),
            },
            (CommandClass::GetCommand, ParameterId::ComponentScope) => match GetComponentScopeRequest::spec_decoded(buf) {
                Ok(p) => Ok(RequestParameter::GetComponentScope(p)),
                Err(e) => Err(e),
            },
            (CommandClass::SetCommand, ParameterId::ComponentScope) => match SetComponentScopeRequest::spec_decoded(buf) {
                Ok(p) => Ok(RequestParameter::SetComponentScope(p)),
                Err(e) => Err(e),
            },
            (CommandClass::GetCommand, ParameterId::SearchDomain) => Ok(RequestParameter::GetSearchDomain),
            (CommandClass::SetCommand, ParameterId::SearchDomain) => match SetSearchDomainRequest::spec_decoded(buf) {
                Ok(p) => Ok(RequestParameter::SetSearchDomain(p)),
                Err(e) => Err(e),
            },
            (CommandClass::GetCommand, ParameterId::TcpCommsStatus) => Ok(RequestParameter::GetTcpCommsStatus),
            (CommandClass::SetCommand, ParameterId::TcpCommsStatus) => match SetTcpCommsStatusRequest::spec_decoded(buf) {
                Ok(p) => Ok(RequestParameter::SetTcpCommsStatus(p)),
                Err(e) => Err(e),
            },
            (CommandClass::GetCommand, ParameterId::BrokerStatus) => Ok(RequestParameter::GetBrokerStatus),
            (CommandClass::SetCommand, ParameterId::BrokerStatus) => match SetBrokerStatusRequest::spec_decoded(buf) {
                Ok(p) => Ok(RequestParameter::SetBrokerStatus(p)),
                Err(e) => Err(e),
            },
            _ => Ok(RequestParameter::CustomParameter(CustomRequestParameter {
                command_class,
                parameter_id,
                parameter_data_length: buf.len() as u8,
                parameter_data: ParameterDataBuffer::spec_of_items(buf),
            })),
        }
    }

    /// Whether decoding the parameter data, with the command class and identifier, gives the parameter back.
    pub open spec fn spec_encodable(self) -> bool {
        match self {
            RequestParameter::DiscUniqueBranch(p) => p.spec_encodable(),
            RequestParameter::GetQueuedMessage(p) => p.spec_encodable(),
            RequestParameter::GetStatusMessages(p) => p.spec_encodable(),
            RequestParameter::GetStatusIdDescription(p) => p.spec_encodable(),
            RequestParameter::SetSubDeviceIdStatusReportThreshold(p) => p.spec_encodable(),
            RequestParameter::GetParameterDescription(p) => p.spec_encodable(),
            RequestParameter::SetDeviceLabel(p) => p.spec_encodable(),
            RequestParameter::SetLanguage(p) => p.spec_encodable(),
            RequestParameter::SetDmxPersonality(p) => p.spec_encodable(),
            RequestParameter::GetDmxPersonalityDescription(p) => p.spec_encodable(),
            RequestParameter::SetDmxStartAddress(p) => p.spec_encodable(),
            RequestParameter::GetSlotDescription(p) => p.spec_encodable(),
            RequestParameter::GetSensorDefinition(p) => p.spec_encodable(),
            RequestParameter::GetSensorValue(p) => p.spec_encodable(),
            RequestParameter::SetSensorValue(p) => p.spec_encodable(),
            RequestParameter::SetRecordSensors(p) => p.spec_encodable(),
            RequestParameter::SetDeviceHours(p) => p.spec_encodable(),
            RequestParameter::SetLampHours(p) => p.spec_encodable(),
            RequestParameter::SetLampStrikes(p) => p.spec_encodable(),
            RequestParameter::SetLampState(p) => p.spec_encodable(),
            RequestParameter::SetLampOnMode(p) => p.spec_encodable(),
            RequestParameter::SetDevicePowerCycles(p) => p.spec_encodable(),
            RequestParameter::SetDisplayInvert(p) => p.spec_encodable(),
            RequestParameter::SetDisplayLevel(p) => p.spec_encodable(),
            RequestParameter::SetPanInvert(p) => p.spec_encodable(),
            RequestParameter::SetTiltInvert(p) => p.spec_encodable(),
            RequestParameter::SetPanTiltSwap(p) => p.spec_encodable(),
            RequestParameter::SetRealTimeClock(p) => p.spec_encodable(),
            RequestParameter::SetIdentifyDevice(p) => p.spec_encodable(),
            RequestParameter::SetResetDevice(p) => p.spec_encodable(),
            RequestParameter::SetPowerState(p) => p.spec_encodable(),
            RequestParameter::SetPerformSelfTest(p) => p.spec_encodable(),
            RequestParameter::SetCapturePreset(p) => p.spec_encodable(),
            RequestParameter::GetSelfTestDescription(p) => p.spec_encodable(),
            RequestParameter::SetPresetPlayback(p) => p.spec_encodable(),
            RequestParameter::SetDmxBlockAddress(p) => p.spec_encodable(),
            RequestParameter::SetDmxFailMode(p) => p.spec_encodable(),
            RequestParameter::SetDmxStartupMode(p) => p.spec_encodable(),
            RequestParameter::SetMinimumLevel(p) => p.spec_encodable(),
            RequestParameter::SetMaximumLevel(p) => p.spec_encodable(),
            RequestParameter::GetCurveDescription(p) => p.spec_encodable(),
            RequestParameter::SetOutputResponseTime(p) => p.spec_encodable(),
            RequestParameter::GetOutputResponseTimeDescription(p) => p.spec_encodable(),
            RequestParameter::SetModulationFrequency(p) => p.spec_encodable(),
            RequestParameter::GetModulationFrequencyDescription(p) => p.spec_encodable(),
            RequestParameter::SetPowerOnSelfTest(p) => p.spec_encodable(),
            RequestParameter::SetLockState(p) => p.spec_encodable(),
            RequestParameter::SetLockPin(p) => p.spec_encodable(),
            RequestParameter::SetBurnIn(p) => p.spec_encodable(),
            RequestParameter::SetIdentifyMode(p) => p.spec_encodable(),
            RequestParameter::GetPresetStatus(p) => p.spec_encodable(),
            RequestParameter::SetPresetStatus(p) => p.spec_encodable(),
            RequestParameter::SetPresetMergeMode(p) => p.spec_encodable(),
            RequestParameter::GetInterfaceLabel(p) => p.spec_encodable(),
            RequestParameter::GetInterfaceHardwareAddressType1(p) => p.spec_encodable(),
            RequestParameter::GetIpV4DhcpMode(p) => p.spec_encodable(),
            RequestParameter::SetIpV4DhcpMode(p) => p.spec_encodable(),
            RequestParameter::GetIpV4ZeroConfMode(p) => p.spec_encodable(),
            RequestParameter::SetIpV4ZeroConfMode(p) => p.spec_encodable(),
            RequestParameter::GetIpV4CurrentAddress(p) => p.spec_encodable(),
            RequestParameter::GetIpV4StaticAddress(p) => p.spec_encodable(),
            RequestParameter::SetIpV4StaticAddress(p) => p.spec_encodable(),
            RequestParameter::SetInterfaceApplyConfiguration(p) => p.spec_encodable(),
            RequestParameter::SetInterfaceRenewDhcp(p) => p.spec_encodable(),
            RequestParameter::SetInterfaceReleaseDhcp(p) => p.spec_encodable(),
            RequestParameter::SetIpV4DefaultRoute(p) => p.spec_encodable(),
            RequestParameter::GetDnsIpV4NameServer(p) => p.spec_encodable(),
            RequestParameter::SetDnsIpV4NameServer(p) => p.spec_encodable(),
            RequestParameter::SetDnsHostName(p) => p.spec_encodable(),
            RequestParameter::SetDnsDomainName(p) => p.spec_encodable(),
            RequestParameter::GetIdentifyEndpoint(p) => p.spec_encodable(),
            RequestParameter::SetIdentifyEndpoint(p) => p.spec_encodable(),
            RequestParameter::GetEndpointToUniverse(p) => p.spec_encodable(),
            RequestParameter::SetEndpointToUniverse(p) => p.spec_encodable(),
            RequestParameter::GetEndpointMode(p) => p.spec_encodable(),
            RequestParameter::SetEndpointMode(p) => p.spec_encodable(),
            RequestParameter::GetEndpointLabel(p) => p.spec_encodable(),
            RequestParameter::SetEndpointLabel(p) => p.spec_encodable(),
            RequestParameter::GetRdmTrafficEnable(p) => p.spec_encodable(),
            RequestParameter::SetRdmTrafficEnable(p) => p.spec_encodable(),
            RequestParameter::GetDiscoveryState(p) => p.spec_encodable(),
            RequestParameter::SetDiscoveryState(p) => p.spec_encodable(),
            RequestParameter::GetBackgroundDiscovery(p) => p.spec_encodable(),
            RequestParameter::SetBackgroundDiscovery(p) => p.spec_encodable(),
            RequestParameter::GetEndpointTiming(p) => p.spec_encodable(),
            RequestParameter::SetEndpointTiming(p) => p.spec_encodable(),
            RequestParameter::GetEndpointTimingDescription(p) => p.spec_encodable(),
            RequestParameter::GetEndpointResponders(p) => p.spec_encodable(),
            RequestParameter::GetEndpointResponderListChange(p) => p.spec_encodable(),
            RequestParameter::GetBindingControlFields(p) => p.spec_encodable(),
            RequestParameter::SetBackgroundQueuedStatusPolicy(p) => p.spec_encodable(),
            RequestParameter::GetBackgroundQueuedStatusPolicyDescription(p) => p.spec_encodable(),
            RequestParameter::GetComponentScope(p) => p.spec_encodable(),
            RequestParameter::SetComponentScope(p) => p.spec_encodable(),
            RequestParameter::SetSearchDomain(p) => p.spec_encodable(),
            RequestParameter::SetTcpCommsStatus(p) => p.spec_encodable(),
            RequestParameter::SetBrokerStatus(p) => p.spec_encodable(),
            RequestParameter::CustomParameter(c) => c.spec_encodable(),
            _ => true,
        }
    }

    /// The command class of the frame that carries the parameter.
    pub fn command_class(&self) -> (r: CommandClass)
        ensures
            r == self.spec_command_class(),
    {
        match self {
            RequestParameter::DiscUniqueBranch(_) => CommandClass::DiscoveryCommand,
            RequestParameter::DiscMute => CommandClass::DiscoveryCommand,
            RequestParameter::DiscUnMute => CommandClass::DiscoveryCommand,
            RequestParameter::GetCommsStatus => CommandClass::GetCommand,
            RequestParameter::SetCommsStatus => CommandClass::SetCommand,
            RequestParameter::GetQueuedMessage(_) => CommandClass::GetCommand,
            RequestParameter::GetStatusMessages(_) => CommandClass::GetCommand,
            RequestParameter::GetStatusIdDescription(_) => CommandClass::GetCommand,
            RequestParameter::SetClearStatusId => CommandClass::SetCommand,
            RequestParameter::GetSubDeviceIdStatusReportThreshold => CommandClass::GetCommand,
            RequestParameter::SetSubDeviceIdStatusReportThreshold(_) => CommandClass::SetCommand,
            RequestParameter::GetSupportedParameters => CommandClass::GetCommand,
            RequestParameter::GetParameterDescription(_) => CommandClass::GetCommand,
            RequestParameter::GetDeviceInfo => CommandClass::GetCommand,
            RequestParameter::GetProductDetailIdList => CommandClass::GetCommand,
            RequestParameter::GetDeviceModelDescription => CommandClass::GetCommand,
            RequestParameter::GetManufacturerLabel => CommandClass::GetCommand,
            RequestParameter::GetDeviceLabel => CommandClass::GetCommand,
            RequestParameter::SetDeviceLabel(_) => CommandClass::SetCommand,
            RequestParameter::GetFactoryDefaults => CommandClass::GetCommand,
            RequestParameter::SetFactoryDefaults => CommandClass::SetCommand,
            RequestParameter::GetLanguageCapabilities => CommandClass::GetCommand,
            RequestParameter::GetLanguage => CommandClass::GetCommand,
            RequestParameter::SetLanguage(_) => CommandClass::SetCommand,
            RequestParameter::GetSoftwareVersionLabel => CommandClass::GetCommand,
            RequestParameter::GetBootSoftwareVersionId => CommandClass::GetCommand,
            RequestParameter::GetBootSoftwareVersionLabel => CommandClass::GetCommand,
            RequestParameter::GetDmxPersonality => CommandClass::GetCommand,
            RequestParameter::SetDmxPersonality(_) => CommandClass::SetCommand,
            RequestParameter::GetDmxPersonalityDescription(_) => CommandClass::GetCommand,
            RequestParameter::GetDmxStartAddress => CommandClass::GetCommand,
            RequestParameter::SetDmxStartAddress(_) => CommandClass::SetCommand,
            RequestParameter::GetSlotInfo => CommandClass::GetCommand,
            RequestParameter::GetSlotDescription(_) => CommandClass::GetCommand,
            RequestParameter::GetDefaultSlotValue => CommandClass::GetCommand,
            RequestParameter::GetSensorDefinition(_) => CommandClass::GetCommand,
            RequestParameter::GetSensorValue(_) => CommandClass::GetCommand,
            RequestParameter::SetSensorValue(_) => CommandClass::SetCommand,
            RequestParameter::SetRecordSensors(_) => CommandClass::SetCommand,
            RequestParameter::GetDeviceHours => CommandClass::GetCommand,
            RequestParameter::SetDeviceHours(_) => CommandClass::SetCommand,
            RequestParameter::GetLampHours => CommandClass::GetCommand,
            RequestParameter::SetLampHours(_) => CommandClass::SetCommand,
            RequestParameter::GetLampStrikes => CommandClass::GetCommand,
            RequestParameter::SetLampStrikes(_) => CommandClass::SetCommand,
            RequestParameter::GetLampState => CommandClass::GetCommand,
            RequestParameter::SetLampState(_) => CommandClass::SetCommand,
            RequestParameter::GetLampOnMode => CommandClass::GetCommand,
            RequestParameter::SetLampOnMode(_) => CommandClass::SetCommand,
            RequestParameter::GetDevicePowerCycles => CommandClass::GetCommand,
            RequestParameter::SetDevicePowerCycles(_) => CommandClass::SetCommand,
            RequestParameter::GetDisplayInvert => CommandClass::GetCommand,
            RequestParameter::SetDisplayInvert(_) => CommandClass::SetCommand,
            RequestParameter::GetDisplayLevel => CommandClass::GetCommand,
            RequestParameter::SetDisplayLevel(_) => CommandClass::SetCommand,
            RequestParameter::GetPanInvert => CommandClass::GetCommand,
            RequestParameter::SetPanInvert(_) => CommandClass::SetCommand,
            RequestParameter::GetTiltInvert => CommandClass::GetCommand,
            RequestParameter::SetTiltInvert(_) => CommandClass::SetCommand,
            RequestParameter::GetPanTiltSwap => CommandClass::GetCommand,
            RequestParameter::SetPanTiltSwap(_) => CommandClass::SetCommand,
            RequestParameter::GetRealTimeClock => CommandClass::GetCommand,
            RequestParameter::SetRealTimeClock(_) => CommandClass::SetCommand,
            RequestParameter::GetIdentifyDevice => CommandClass::GetCommand,
            RequestParameter::SetIdentifyDevice(_) => CommandClass::SetCommand,
            RequestParameter::SetResetDevice(_) => CommandClass::SetCommand,
            RequestParameter::GetPowerState => CommandClass::GetCommand,
            RequestParameter::SetPowerState(_) => CommandClass::SetCommand,
            RequestParameter::GetPerformSelfTest => CommandClass::GetCommand,
            RequestParameter::SetPerformSelfTest(_) => CommandClass::SetCommand,
            RequestParameter::SetCapturePreset(_) => CommandClass::SetCommand,
            RequestParameter::GetSelfTestDescription(_) => CommandClass::GetCommand,
            RequestParameter::GetPresetPlayback => CommandClass::GetCommand,
            RequestParameter::SetPresetPlayback(_) => CommandClass::SetCommand,
            RequestParameter::GetDmxBlockAddress => CommandClass::GetCommand,
            RequestParameter::SetDmxBlockAddress(_) => CommandClass::SetCommand,
            RequestParameter::GetDmxFailMode => CommandClass::GetCommand,
            RequestParameter::SetDmxFailMode(_) => CommandClass::SetCommand,
            RequestParameter::GetDmxStartupMode => CommandClass::GetCommand,
            RequestParameter::SetDmxStartupMode(_) => CommandClass::SetCommand,
            RequestParameter::GetDimmerInfo => CommandClass::GetCommand,
            RequestParameter::GetMinimumLevel => CommandClass::GetCommand,
            RequestParameter::SetMinimumLevel(_) => CommandClass::SetCommand,
            RequestParameter::GetMaximumLevel => CommandClass::GetCommand,
            RequestParameter::SetMaximumLevel(_) => CommandClass::SetCommand,
            RequestParameter::GetCurve => CommandClass::GetCommand,
            RequestParameter::SetCurve => CommandClass::SetCommand,
            RequestParameter::GetCurveDescription(_) => CommandClass::GetCommand,
            RequestParameter::GetOutputResponseTime => CommandClass::GetCommand,
            RequestParameter::SetOutputResponseTime(_) => CommandClass::SetCommand,
            RequestParameter::GetOutputResponseTimeDescription(_) => CommandClass::GetCommand,
            RequestParameter::GetModulationFrequency => CommandClass::GetCommand,
            RequestParameter::SetModulationFrequency(_) => CommandClass::SetCommand,
            RequestParameter::GetModulationFrequencyDescription(_) => CommandClass::GetCommand,
            RequestParameter::GetPowerOnSelfTest => CommandClass::GetCommand,
            RequestParameter::SetPowerOnSelfTest(_) => CommandClass::SetCommand,
            RequestParameter::GetLockState => CommandClass::GetCommand,
            RequestParameter::SetLockState(_) => CommandClass::SetCommand,
            RequestParameter::GetLockStateDescription => CommandClass::GetCommand,
            RequestParameter::GetLockPin => CommandClass::GetCommand,
            RequestParameter::SetLockPin(_) => CommandClass::SetCommand,
            RequestParameter::GetBurnIn => CommandClass::GetCommand,
            RequestParameter::SetBurnIn(_) => CommandClass::SetCommand,
            RequestParameter::GetIdentifyMode => CommandClass::GetCommand,
            RequestParameter::SetIdentifyMode(_) => CommandClass::SetCommand,
            RequestParameter::GetPresetInfo => CommandClass::GetCommand,
            RequestParameter::GetPresetStatus(_) => CommandClass::GetCommand,
            RequestParameter::SetPresetStatus(_) => CommandClass::SetCommand,
            RequestParameter::GetPresetMergeMode => CommandClass::GetCommand,
            RequestParameter::SetPresetMergeMode(_) => CommandClass::SetCommand,
            RequestParameter::GetListInterfaces => CommandClass::GetCommand,
            RequestParameter::GetInterfaceLabel(_) => CommandClass::GetCommand,
            RequestParameter::GetInterfaceHardwareAddressType1(_) => CommandClass::GetCommand,
            RequestParameter::GetIpV4DhcpMode(_) => CommandClass::GetCommand,
            RequestParameter::SetIpV4DhcpMode(_) => CommandClass::SetCommand,
            RequestParameter::GetIpV4ZeroConfMode(_) => CommandClass::GetCommand,
            RequestParameter::SetIpV4ZeroConfMode(_) => CommandClass::SetCommand,
            RequestParameter::GetIpV4CurrentAddress(_) => CommandClass::GetCommand,
            RequestParameter::GetIpV4StaticAddress(_) => CommandClass::GetCommand,
            RequestParameter::SetIpV4StaticAddress(_) => CommandClass::SetCommand,
            RequestParameter::SetInterfaceApplyConfiguration(_) => CommandClass::SetCommand,
            RequestParameter::SetInterfaceRenewDhcp(_) => CommandClass::SetCommand,
            RequestParameter::SetInterfaceReleaseDhcp(_) => CommandClass::SetCommand,
            RequestParameter::GetIpV4DefaultRoute => CommandClass::GetCommand,
            RequestParameter::SetIpV4DefaultRoute(_) => CommandClass::SetCommand,
            RequestParameter::GetDnsIpV4NameServer(_) => CommandClass::GetCommand,
            RequestParameter::SetDnsIpV4NameServer(_) => CommandClass::SetCommand,
            RequestParameter::GetDnsHostName => CommandClass::GetCommand,
            RequestParameter::SetDnsHostName(_) => CommandClass::SetCommand,
            RequestParameter::GetDnsDomainName => CommandClass::GetCommand,
            RequestParameter::SetDnsDomainName(_) => CommandClass::SetCommand,
            RequestParameter::GetEndpointList => CommandClass::GetCommand,
            RequestParameter::GetEndpointListChange => CommandClass::GetCommand,
            RequestParameter::GetIdentifyEndpoint(_) => CommandClass::GetCommand,
            RequestParameter::SetIdentifyEndpoint(_) => CommandClass::SetCommand,
            RequestParameter::GetEndpointToUniverse(_) => CommandClass::GetCommand,
            RequestParameter::SetEndpointToUniverse(_) => CommandClass::SetCommand,
            RequestParameter::GetEndpointMode(_) => CommandClass::GetCommand,
            RequestParameter::SetEndpointMode(_) => CommandClass::SetCommand,
            RequestParameter::GetEndpointLabel(_) => CommandClass::GetCommand,
            RequestParameter::SetEndpointLabel(_) => CommandClass::SetCommand,
            RequestParameter::GetRdmTrafficEnable(_) => CommandClass::GetCommand,
            RequestParameter::SetRdmTrafficEnable(_) => CommandClass::SetCommand,
            RequestParameter::GetDiscoveryState(_) => CommandClass::GetCommand,
            RequestParameter::SetDiscoveryState(_) => CommandClass::SetCommand,
            RequestParameter::GetBackgroundDiscovery(_) => CommandClass::GetCommand,
            RequestParameter::SetBackgroundDiscovery(_) => CommandClass::SetCommand,
            RequestParameter::GetEndpointTiming(_) => CommandClass::GetCommand,
            RequestParameter::SetEndpointTiming(_) => CommandClass::SetCommand,
            RequestParameter::GetEndpointTimingDescription(_) => CommandClass::GetCommand,
            RequestParameter::GetEndpointResponders(_) => CommandClass::GetCommand,
            RequestParameter::GetEndpointResponderListChange(_) => CommandClass::GetCommand,
            RequestParameter::GetBindingControlFields(_) => CommandClass::GetCommand,
            RequestParameter::GetBackgroundQueuedStatusPolicy => CommandClass::GetCommand,
            RequestParameter::SetBackgroundQueuedStatusPolicy(_) => CommandClass::SetCommand,
            RequestParameter::GetBackgroundQueuedStatusPolicyDescription(_) => CommandClass::GetCommand,
            RequestParameter::GetComponentScope(_) => CommandClass::GetCommand,
            RequestParameter::SetComponentScope(_) => CommandClass::SetCommand,
            RequestParameter::GetSearchDomain => CommandClass::GetCommand,
            RequestParameter::SetSearchDomain(_) => CommandClass::SetCommand,
            RequestParameter::GetTcpCommsStatus => CommandClass::GetCommand,
            RequestParameter::SetTcpCommsStatus(_) => CommandClass::SetCommand,
            RequestParameter::GetBrokerStatus => CommandClass::GetCommand,
            RequestParameter::SetBrokerStatus(_) => CommandClass::SetCommand,
            RequestParameter::CustomParameter(c) => c.command_class,
        }
    }

    /// The identifier of the parameter.
    pub fn parameter_id(&self) -> (r: ParameterId)
        ensures
            r == self.spec_parameter_id(),
    {
        match self {
            RequestParameter::DiscUniqueBranch(_) => ParameterId::DiscUniqueBranch,
            RequestParameter::DiscMute => ParameterId::DiscMute,
            RequestParameter::DiscUnMute => ParameterId::DiscUnMute,
            RequestParameter::GetCommsStatus => ParameterId::CommsStatus,
            RequestParameter::SetCommsStatus => ParameterId::CommsStatus,
            RequestParameter::GetQueuedMessage(_) => ParameterId::QueuedMessage,
            RequestParameter::GetStatusMessages(_) => ParameterId::StatusMessages,
            RequestParameter::GetStatusIdDescription(_) => ParameterId::StatusIdDescription,
            RequestParameter::SetClearStatusId => ParameterId::ClearStatusId,
            RequestParameter::GetSubDeviceIdStatusReportThreshold => ParameterId::SubDeviceIdStatusReportThreshold,
            RequestParameter::SetSubDeviceIdStatusReportThreshold(_) => ParameterId::SubDeviceIdStatusReportThreshold,
            RequestParameter::GetSupportedParameters => ParameterId::SupportedParameters,
            RequestParameter::GetParameterDescription(_) => ParameterId::ParameterDescription,
            RequestParameter::GetDeviceInfo => ParameterId::DeviceInfo,
            RequestParameter::GetProductDetailIdList => ParameterId::ProductDetailIdList,
            RequestParameter::GetDeviceModelDescription => ParameterId::DeviceModelDescription,
            RequestParameter::GetManufacturerLabel => ParameterId::ManufacturerLabel,
            RequestParameter::GetDeviceLabel => ParameterId::DeviceLabel,
            RequestParameter::SetDeviceLabel(_) => ParameterId::DeviceLabel,
            RequestParameter::GetFactoryDefaults => ParameterId::FactoryDefaults,
            RequestParameter::SetFactoryDefaults => ParameterId::FactoryDefaults,
            RequestParameter::GetLanguageCapabilities => ParameterId::LanguageCapabilities,
            RequestParameter::GetLanguage => ParameterId::Language,
            RequestParameter::SetLanguage(_) => ParameterId::Language,
            RequestParameter::GetSoftwareVersionLabel => ParameterId::SoftwareVersionLabel,
            RequestParameter::GetBootSoftwareVersionId => ParameterId::BootSoftwareVersionId,
            RequestParameter::GetBootSoftwareVersionLabel => ParameterId::BootSoftwareVersionLabel,
            RequestParameter::GetDmxPersonality => ParameterId::DmxPersonality,
            RequestParameter::SetDmxPersonality(_) => ParameterId::DmxPersonality,
            RequestParameter::GetDmxPersonalityDescription(_) => ParameterId::DmxPersonalityDescription,
            RequestParameter::GetDmxStartAddress => ParameterId::DmxStartAddress,
            RequestParameter::SetDmxStartAddress(_) => ParameterId::DmxStartAddress,
            RequestParameter::GetSlotInfo => ParameterId::SlotInfo,
            RequestParameter::GetSlotDescription(_) => ParameterId::SlotDescription,
            RequestParameter::GetDefaultSlotValue => ParameterId::DefaultSlotValue,
            RequestParameter::GetSensorDefinition(_) => ParameterId::SensorDefinition,
            RequestParameter::GetSensorValue(_) => ParameterId::SensorValue,
            RequestParameter::SetSensorValue(_) => ParameterId::SensorValue,
            RequestParameter::SetRecordSensors(_) => ParameterId::RecordSensors,
            RequestParameter::GetDeviceHours => ParameterId::DeviceHours,
            RequestParameter::SetDeviceHours(_) => ParameterId::DeviceHours,
            RequestParameter::GetLampHours => ParameterId::LampHours,
            RequestParameter::SetLampHours(_) => ParameterId::LampHours,
            RequestParameter::GetLampStrikes => ParameterId::LampStrikes,
            RequestParameter::SetLampStrikes(_) => ParameterId::LampStrikes,
            RequestParameter::GetLampState => ParameterId::LampState,
            RequestParameter::SetLampState(_) => ParameterId::LampState,
            RequestParameter::GetLampOnMode => ParameterId::LampOnMode,
            RequestParameter::SetLampOnMode(_) => ParameterId::LampOnMode,
            RequestParameter::GetDevicePowerCycles => ParameterId::DevicePowerCycles,
            RequestParameter::SetDevicePowerCycles(_) => ParameterId::DevicePowerCycles,
            RequestParameter::GetDisplayInvert => ParameterId::DisplayInvert,
            RequestParameter::SetDisplayInvert(_) => ParameterId::DisplayInvert,
            RequestParameter::GetDisplayLevel => ParameterId::DisplayLevel,
            RequestParameter::SetDisplayLevel(_) => ParameterId::DisplayLevel,
            RequestParameter::GetPanInvert => ParameterId::PanInvert,
            RequestParameter::SetPanInvert(_) => ParameterId::PanInvert,
            RequestParameter::GetTiltInvert => ParameterId::TiltInvert,
            RequestParameter::SetTiltInvert(_) => ParameterId::TiltInvert,
            RequestParameter::GetPanTiltSwap => ParameterId::PanTiltSwap,
            RequestParameter::SetPanTiltSwap(_) => ParameterId::PanTiltSwap,
            RequestParameter::GetRealTimeClock => ParameterId::RealTimeClock,
            RequestParameter::SetRealTimeClock(_) => ParameterId::RealTimeClock,
            RequestParameter::GetIdentifyDevice => ParameterId::IdentifyDevice,
            RequestParameter::SetIdentifyDevice(_) => ParameterId::IdentifyDevice,
            RequestParameter::SetResetDevice(_) => ParameterId::ResetDevice,
            RequestParameter::GetPowerState => ParameterId::PowerState,
            RequestParameter::SetPowerState(_) => ParameterId::PowerState,
            RequestParameter::GetPerformSelfTest => ParameterId::PerformSelfTest,
            RequestParameter::SetPerformSelfTest(_) => ParameterId::PerformSelfTest,
            RequestParameter::SetCapturePreset(_) => ParameterId::CapturePreset,
            RequestParameter::GetSelfTestDescription(_) => ParameterId::SelfTestDescription,
            RequestParameter::GetPresetPlayback => ParameterId::PresetPlayback,
            RequestParameter::SetPresetPlayback(_) => ParameterId::PresetPlayback,
            RequestParameter::GetDmxBlockAddress => ParameterId::DmxBlockAddress,
            RequestParameter::SetDmxBlockAddress(_) => ParameterId::DmxBlockAddress,
            RequestParameter::GetDmxFailMode => ParameterId::DmxFailMode,
            RequestParameter::SetDmxFailMode(_) => ParameterId::DmxFailMode,
            RequestParameter::GetDmxStartupMode => ParameterId::DmxStartupMode,
            RequestParameter::SetDmxStartupMode(_) => ParameterId::DmxStartupMode,
            RequestParameter::GetDimmerInfo => ParameterId::DimmerInfo,
            RequestParameter::GetMinimumLevel => ParameterId::MinimumLevel,
            RequestParameter::SetMinimumLevel(_) => ParameterId::MinimumLevel,
            RequestParameter::GetMaximumLevel => ParameterId::MaximumLevel,
            RequestParameter::SetMaximumLevel(_) => ParameterId::MaximumLevel,
            RequestParameter::GetCurve => ParameterId::Curve,
            RequestParameter::SetCurve => ParameterId::Curve,
            RequestParameter::GetCurveDescription(_) => ParameterId::CurveDescription,
            RequestParameter::GetOutputResponseTime => ParameterId::OutputResponseTime,
            RequestParameter::SetOutputResponseTime(_) => ParameterId::OutputResponseTime,
            RequestParameter::GetOutputResponseTimeDescription(_) => ParameterId::OutputResponseTimeDescription,
            RequestParameter::GetModulationFrequency => ParameterId::ModulationFrequency,
            RequestParameter::SetModulationFrequency(_) => ParameterId::ModulationFrequency,
            RequestParameter::GetModulationFrequencyDescription(_) => ParameterId::ModulationFrequencyDescription,
            RequestParameter::GetPowerOnSelfTest => ParameterId::PowerOnSelfTest,
            RequestParameter::SetPowerOnSelfTest(_) => ParameterId::PowerOnSelfTest,
            RequestParameter::GetLockState => ParameterId::LockState,
            RequestParameter::SetLockState(_) => ParameterId::LockState,
            RequestParameter::GetLockStateDescription => ParameterId::LockStateDescription,
            RequestParameter::GetLockPin => ParameterId::LockPin,
            RequestParameter::SetLockPin(_) => ParameterId::LockPin,
            RequestParameter::GetBurnIn => ParameterId::BurnIn,
            RequestParameter::SetBurnIn(_) => ParameterId::BurnIn,
            RequestParameter::GetIdentifyMode => ParameterId::IdentifyMode,
            RequestParameter::SetIdentifyMode(_) => ParameterId::IdentifyMode,
            RequestParameter::GetPresetInfo => ParameterId::PresetInfo,
            RequestParameter::GetPresetStatus(_) => ParameterId::PresetStatus,
            RequestParameter::SetPresetStatus(_) => ParameterId::PresetStatus,
            RequestParameter::GetPresetMergeMode => ParameterId::PresetMergeMode,
            RequestParameter::SetPresetMergeMode(_) => ParameterId::PresetMergeMode,
            RequestParameter::GetListInterfaces => ParameterId::ListInterfaces,
            RequestParameter::GetInterfaceLabel(_) => ParameterId::InterfaceLabel,
            RequestParameter::GetInterfaceHardwareAddressType1(_) => ParameterId::InterfaceHardwareAddressType1,
            RequestParameter::GetIpV4DhcpMode(_) => ParameterId::IpV4DhcpMode,
            RequestParameter::SetIpV4DhcpMode(_) => ParameterId::IpV4DhcpMode,
            RequestParameter::GetIpV4ZeroConfMode(_) => ParameterId::IpV4ZeroConfMode,
            RequestParameter::SetIpV4ZeroConfMode(_) => ParameterId::IpV4ZeroConfMode,
            RequestParameter::GetIpV4CurrentAddress(_) => ParameterId::IpV4CurrentAddress,
            RequestParameter::GetIpV4StaticAddress(_) => ParameterId::IpV4StaticAddress,
            RequestParameter::SetIpV4StaticAddress(_) => ParameterId::IpV4StaticAddress,
            RequestParameter::SetInterfaceApplyConfiguration(_) => ParameterId::InterfaceApplyConfiguration,
            RequestParameter::SetInterfaceRenewDhcp(_) => ParameterId::InterfaceRenewDhcp,
            RequestParameter::SetInterfaceReleaseDhcp(_) => ParameterId::InterfaceReleaseDhcp,
            RequestParameter::GetIpV4DefaultRoute => ParameterId::IpV4DefaultRoute,
            RequestParameter::SetIpV4DefaultRoute(_) => ParameterId::IpV4DefaultRoute,
            RequestParameter::GetDnsIpV4NameServer(_) => ParameterId::DnsIpV4NameServer,
            RequestParameter::SetDnsIpV4NameServer(_) => ParameterId::DnsIpV4NameServer,
            RequestParameter::GetDnsHostName => ParameterId::DnsHostName,
            RequestParameter::SetDnsHostName(_) => ParameterId::DnsHostName,
            RequestParameter::GetDnsDomainName => ParameterId::DnsDomainName,
            RequestParameter::SetDnsDomainName(_) => ParameterId::DnsDomainName,
            RequestParameter::GetEndpointList => ParameterId::EndpointList,
            RequestParameter::GetEndpointListChange => ParameterId::EndpointListChange,
            RequestParameter::GetIdentifyEndpoint(_) => ParameterId::IdentifyEndpoint,
            RequestParameter::SetIdentifyEndpoint(_) => ParameterId::IdentifyEndpoint,
            RequestParameter::GetEndpointToUniverse(_) => ParameterId::EndpointToUniverse,
            RequestParameter::SetEndpointToUniverse(_) => ParameterId::EndpointToUniverse,
            RequestParameter::GetEndpointMode(_) => ParameterId::EndpointMode,
            RequestParameter::SetEndpointMode(_) => ParameterId::EndpointMode,
            RequestParameter::GetEndpointLabel(_) => ParameterId::EndpointLabel,
            RequestParameter::SetEndpointLabel(_) => ParameterId::EndpointLabel,
            RequestParameter::GetRdmTrafficEnable(_) => ParameterId::RdmTrafficEnable,
            RequestParameter::SetRdmTrafficEnable(_) => ParameterId::RdmTrafficEnable,
            RequestParameter::GetDiscoveryState(_) => ParameterId::DiscoveryState,
            RequestParameter::SetDiscoveryState(_) => ParameterId::DiscoveryState,
            RequestParameter::GetBackgroundDiscovery(_) => ParameterId::BackgroundDiscovery,
            RequestParameter::SetBackgroundDiscovery(_) => ParameterId::BackgroundDiscovery,
            RequestParameter::GetEndpointTiming(_) => ParameterId::EndpointTiming,
            RequestParameter::SetEndpointTiming(_) => ParameterId::EndpointTiming,
            RequestParameter::GetEndpointTimingDescription(_) => ParameterId::EndpointTimingDescription,
            RequestParameter::GetEndpointResponders(_) => ParameterId::EndpointResponders,
            RequestParameter::GetEndpointResponderListChange(_) => ParameterId::EndpointResponderListChange,
            RequestParameter::GetBindingControlFields(_) => ParameterId::BindingControlFields,
            RequestParameter::GetBackgroundQueuedStatusPolicy => ParameterId::BackgroundQueuedStatusPolicy,
            RequestParameter::SetBackgroundQueuedStatusPolicy(_) => ParameterId::BackgroundQueuedStatusPolicy,
            RequestParameter::GetBackgroundQueuedStatusPolicyDescription(_) => ParameterId::BackgroundQueuedStatusPolicyDescription,
            RequestParameter::GetComponentScope(_) => ParameterId::ComponentScope,
            RequestParameter::SetComponentScope(_) => ParameterId::ComponentScope,
            RequestParameter::GetSearchDomain => ParameterId::SearchDomain,
            RequestParameter::SetSearchDomain(_) => ParameterId::SearchDomain,
            RequestParameter::GetTcpCommsStatus => ParameterId::TcpCommsStatus,
            RequestParameter::SetTcpCommsStatus(_) => ParameterId::TcpCommsStatus,
            RequestParameter::GetBrokerStatus => ParameterId::BrokerStatus,
            RequestParameter::SetBrokerStatus(_) => ParameterId::BrokerStatus,
            RequestParameter::CustomParameter(c) => c.parameter_id,
        }
    }

    /// Appends the parameter data to `out`.
    pub fn write_to(&self, out: &mut Vec<u8>)
        requires
            self matches RequestParameter::CustomParameter(c) ==> c.spec_length_fits(),
        ensures
            final(out)@ == old(out)@ + self.spec_encoding(),
    {
        match self {
            RequestParameter::DiscUniqueBranch(p) => {
                p.write_encoding(out);
            },
            RequestParameter::DiscMute => {
                assert(old(out)@ + Seq::<u8>::empty() =~= old(out)@);
            },
            RequestParameter::DiscUnMute => {
                assert(old(out)@ + Seq::<u8>::empty() =~= old(out)@);
            },
            RequestParameter::GetCommsStatus => {
                assert(old(out)@ + Seq::<u8>::empty() =~= old(out)@);
            },
            RequestParameter::SetCommsStatus => {
                assert(old(out)@ + Seq::<u8>::empty() =~= old(out)@);
            },
            RequestParameter::GetQueuedMessage(p) => {
                p.write_encoding(out);
            },
            RequestParameter::GetStatusMessages(p) => {
                p.write_encoding(out);
            },
            RequestParameter::GetStatusIdDescription(p) => {
                p.write_encoding(out);
            },
            RequestParameter::SetClearStatusId => {
                assert(old(out)@ + Seq::<u8>::empty() =~= old(out)@);
            },
            RequestParameter::GetSubDeviceIdStatusReportThreshold => {
                assert(old(out)@ + Seq::<u8>::empty() =~= old(out)@);
            },
            RequestParameter::SetSubDeviceIdStatusReportThreshold(p) => {
                p.write_encoding(out);
            },
            RequestParameter::GetSupportedParameters => {
                assert(old(out)@ + Seq::<u8>::empty() =~= old(out)@);
            },
            RequestParameter::GetParameterDescription(p) => {
                p.write_encoding(out);
            },
            RequestParameter::GetDeviceInfo => {
                assert(old(out)@ + Seq::<u8>::empty() =~= old(out)@);
            },
            RequestParameter::GetProductDetailIdList => {
                assert(old(out)@ + Seq::<u8>::empty() =~= old(out)@);
            },
            RequestParameter::GetDeviceModelDescription => {
                assert(old(out)@ + Seq::<u8>::empty() =~= old(out)@);
            },
            RequestParameter::GetManufacturerLabel => {
                assert(old(out)@ + Seq::<u8>::empty() =~= old(out)@);
            },
            RequestParameter::GetDeviceLabel => {
                assert(old(out)@ + Seq::<u8>::empty() =~= old(out)@);
            },
            RequestParameter::SetDeviceLabel(p) => {
                p.write_encoding(out);
            },
            RequestParameter::GetFactoryDefaults => {
                assert(old(out)@ + Seq::<u8>::empty() =~= old(out)@);
            },
            RequestParameter::SetFactoryDefaults => {
                assert(old(out)@ + Seq::<u8>::empty() =~= old(out)@);
            },
            RequestParameter::GetLanguageCapabilities => {
                assert(old(out)@ + Seq::<u8>::empty() =~= old(out)@);
            },
            RequestParameter::GetLanguage => {
                assert(old(out)@ + Seq::<u8>::empty() =~= old(out)@);
            },
            RequestParameter::SetLanguage(p) => {
                p.write_encoding(out);
            },
            RequestParameter::GetSoftwareVersionLabel => {
                assert(old(out)@ + Seq::<u8>::empty() =~= old(out)@);
            },
            RequestParameter::GetBootSoftwareVersionId => {
                assert(old(out)@ + Seq::<u8>::empty() =~= old(out)@);
            },
            RequestParameter::GetBootSoftwareVersionLabel => {
                assert(old(out)@ + Seq::<u8>::empty() =~= old(out)@);
            },
            RequestParameter::GetDmxPersonality => {
                assert(old(out)@ + Seq::<u8>::empty() =~= old(out)@);
            },
            RequestParameter::SetDmxPersonality(p) => {
                p.write_encoding(out);
            },
            RequestParameter::GetDmxPersonalityDescription(p) => {
                p.write_encoding(out);
            },
            RequestParameter::GetDmxStartAddress => {
                assert(old(out)@ + Seq::<u8>::empty() =~= old(out)@);
            },
            RequestParameter::SetDmxStartAddress(p) => {
                p.write_encoding(out);
            },
            RequestParameter::GetSlotInfo => {
                assert(old(out)@ + Seq::<u8>::empty() =~= old(out)@);
            },
            RequestParameter::GetSlotDescription(p) => {
                p.write_encoding(out);
            },
            RequestParameter::GetDefaultSlotValue => {
                assert(old(out)@ + Seq::<u8>::empty() =~= old(out)@);
            },
            RequestParameter::GetSensorDefinition(p) => {
                p.write_encoding(out);
            },
            RequestParameter::GetSensorValue(p) => {
                p.write_encoding(out);
            },
            RequestParameter::SetSensorValue(p) => {
                p.write_encoding(out);
            },
            RequestParameter::SetRecordSensors(p) => {
                p.write_encoding(out);
            },
            RequestParameter::GetDeviceHours => {
                assert(old(out)@ + Seq::<u8>::empty() =~= old(out)@);
            },
            RequestParameter::SetDeviceHours(p) => {
                p.write_encoding(out);
            },
            RequestParameter::GetLampHours => {
                assert(old(out)@ + Seq::<u8>::empty() =~= old(out)@);
            },
            RequestParameter::SetLampHours(p) => {
                p.write_encoding(out);
            },
            RequestParameter::GetLampStrikes => {
                assert(old(out)@ + Seq::<u8>::empty() =~= old(out)@);
            },
            RequestParameter::SetLampStrikes(p) => {
                p.write_encoding(out);
            },
            RequestParameter::GetLampState => {
                assert(old(out)@ + Seq::<u8>::empty() =~= old(out)@);
            },
            RequestParameter::SetLampState(p) => {
                p.write_encoding(out);
            },
            RequestParameter::GetLampOnMode => {
                assert(old(out)@ + Seq::<u8>::empty() =~= old(out)@);
            },
            RequestParameter::SetLampOnMode(p) => {
                p.write_encoding(out);
            },
            RequestParameter::GetDevicePowerCycles => {
                assert(old(out)@ + Seq::<u8>::empty() =~= old(out)@);
            },
            RequestParameter::SetDevicePowerCycles(p) => {
                p.write_encoding(out);
            },
            RequestParameter::GetDisplayInvert => {
                assert(old(out)@ + Seq::<u8>::empty() =~= old(out)@);
            },
            RequestParameter::SetDisplayInvert(p) => {
                p.write_encoding(out);
            },
            RequestParameter::GetDisplayLevel => {
                assert(old(out)@ + Seq::<u8>::empty() =~= old(out)@);
            },
            RequestParameter::SetDisplayLevel(p) => {
                p.write_encoding(out);
            },
            RequestParameter::GetPanInvert => {
                assert(old(out)@ + Seq::<u8>::empty() =~= old(out)@);
            },
            RequestParameter::SetPanInvert(p) => {
                p.write_encoding(out);
            },
            RequestParameter::GetTiltInvert => {
                assert(old(out)@ + Seq::<u8>::empty() =~= old(out)@);
            },
            RequestParameter::SetTiltInvert(p) => {
                p.write_encoding(out);
            },
            RequestParameter::GetPanTiltSwap => {
                assert(old(out)@ + Seq::<u8>::empty() =~= old(out)@);
            },
            RequestParameter::SetPanTiltSwap(p) => {
                p.write_encoding(out);
            },
            RequestParameter::GetRealTimeClock => {
                assert(old(out)@ + Seq::<u8>::empty() =~= old(out)@);
            },
            RequestParameter::SetRealTimeClock(p) => {
                p.write_encoding(out);
            },
            RequestParameter::GetIdentifyDevice => {
                assert(old(out)@ + Seq::<u8>::empty() =~= old(out)@);
            },
            RequestParameter::SetIdentifyDevice(p) => {
                p.write_encoding(out);
            },
            RequestParameter::SetResetDevice(p) => {
                p.write_encoding(out);
            },
            RequestParameter::GetPowerState => {
                assert(old(out)@ + Seq::<u8>::empty() =~= old(out)@);
            },
            RequestParameter::SetPowerState(p) => {
                p.write_encoding(out);
            },
            RequestParameter::GetPerformSelfTest => {
                assert(old(out)@ + Seq::<u8>::empty() =~= old(out)@);
            },
            RequestParameter::SetPerformSelfTest(p) => {
                p.write_encoding(out);
            },
            RequestParameter::SetCapturePreset(p) => {
                p.write_encoding(out);
            },
            RequestParameter::GetSelfTestDescription(p) => {
                p.write_encoding(out);
            },
            RequestParameter::GetPresetPlayback => {
                assert(old(out)@ + Seq::<u8>::empty() =~= old(out)@);
            },
            RequestParameter::SetPresetPlayback(p) => {
                p.write_encoding(out);
            },
            RequestParameter::GetDmxBlockAddress => {
                assert(old(out)@ + Seq::<u8>::empty() =~= old(out)@);
            },
            RequestParameter::SetDmxBlockAddress(p) => {
                p.write_encoding(out);
            },
            RequestParameter::GetDmxFailMode => {
                assert(old(out)@ + Seq::<u8>::empty() =~= old(out)@);
            },
            RequestParameter::SetDmxFailMode(p) => {
                p.write_encoding(out);
            },
            RequestParameter::GetDmxStartupMode => {
                assert(old(out)@ + Seq::<u8>::empty() =~= old(out)@);
            },
            RequestParameter::SetDmxStartupMode(p) => {
                p.write_encoding(out);
            },
            RequestParameter::GetDimmerInfo => {
                assert(old(out)@ + Seq::<u8>::empty() =~= old(out)@);
            },
            RequestParameter::GetMinimumLevel => {
                assert(old(out)@ + Seq::<u8>::empty() =~= old(out)@);
            },
            RequestParameter::SetMinimumLevel(p) => {
                p.write_encoding(out);
            },
            RequestParameter::GetMaximumLevel => {
                assert(old(out)@ + Seq::<u8>::empty() =~= old(out)@);
            },
            RequestParameter::SetMaximumLevel(p) => {
                p.write_encoding(out);
            },
            RequestParameter::GetCurve => {
                assert(old(out)@ + Seq::<u8>::empty() =~= old(out)@);
            },
            RequestParameter::SetCurve => {
                assert(old(out)@ + Seq::<u8>::empty() =~= old(out)@);
            },
            RequestParameter::GetCurveDescription(p) => {
                p.write_encoding(out);
            },
            RequestParameter::GetOutputResponseTime => {
                assert(old(out)@ + Seq::<u8>::empty() =~= old(out)@);
            },
            RequestParameter::SetOutputResponseTime(p) => {
                p.write_encoding(out);
            },
            RequestParameter::GetOutputResponseTimeDescription(p) => {
                p.write_encoding(out);
            },
            RequestParameter::GetModulationFrequency => {
                assert(old(out)@ + Seq::<u8>::empty() =~= old(out)@);
            },
            RequestParameter::SetModulationFrequency(p) => {
                p.write_encoding(out);
            },
            RequestParameter::GetModulationFrequencyDescription(p) => {
                p.write_encoding(out);
            },
            RequestParameter::GetPowerOnSelfTest => {
                assert(old(out)@ + Seq::<u8>::empty() =~= old(out)@);
            },
            RequestParameter::SetPowerOnSelfTest(p) => {
                p.write_encoding(out);
            },
            RequestParameter::GetLockState => {
                assert(old(out)@ + Seq::<u8>::empty() =~= old(out)@);
            },
            RequestParameter::SetLockState(p) => {
                p.write_encoding(out);
            },
            RequestParameter::GetLockStateDescription => {
                assert(old(out)@ + Seq::<u8>::empty() =~= old(out)@);
            },
            RequestParameter::GetLockPin => {
                assert(old(out)@ + Seq::<u8>::empty() =~= old(out)@);
            },
            RequestParameter::SetLockPin(p) => {
                p.write_encoding(out);
            },
            RequestParameter::GetBurnIn => {
                assert(old(out)@ + Seq::<u8>::empty() =~= old(out)@);
            },
            RequestParameter::SetBurnIn(p) => {
                p.write_encoding(out);
            },
            RequestParameter::GetIdentifyMode => {
                assert(old(out)@ + Seq::<u8>::empty() =~= old(out)@);
            },
            RequestParameter::SetIdentifyMode(p) => {
                p.write_encoding(out);
            },
            RequestParameter::GetPresetInfo => {
                assert(old(out)@ + Seq::<u8>::empty() =~= old(out)@);
            },
            RequestParameter::GetPresetStatus(p) => {
                p.write_encoding(out);
            },
            RequestParameter::SetPresetStatus(p) => {
                p.write_encoding(out);
            },
            RequestParameter::GetPresetMergeMode => {
                assert(old(out)@ + Seq::<u8>::empty() =~= old(out)@);
            },
            RequestParameter::SetPresetMergeMode(p) => {
                p.write_encoding(out);
            },
            RequestParameter::GetListInterfaces => {
                assert(old(out)@ + Seq::<u8>::empty() =~= old(out)@);
            },
            RequestParameter::GetInterfaceLabel(p) => {
                p.write_encoding(out);
            },
            RequestParameter::GetInterfaceHardwareAddressType1(p) => {
                p.write_encoding(out);
            },
            RequestParameter::GetIpV4DhcpMode(p) => {
                p.write_encoding(out);
            },
            RequestParameter::SetIpV4DhcpMode(p) => {
                p.write_encoding(out);
            },
            RequestParameter::GetIpV4ZeroConfMode(p) => {
                p.write_encoding(out);
            },
            RequestParameter::SetIpV4ZeroConfMode(p) => {
                p.write_encoding(out);
            },
            RequestParameter::GetIpV4CurrentAddress(p) => {
                p.write_encoding(out);
            },
            RequestParameter::GetIpV4StaticAddress(p) => {
                p.write_encoding(out);
            },
            RequestParameter::SetIpV4StaticAddress(p) => {
                p.write_encoding(out);
            },
            RequestParameter::SetInterfaceApplyConfiguration(p) => {
                p.write_encoding(out);
            },
            RequestParameter::SetInterfaceRenewDhcp(p) => {
                p.write_encoding(out);
            },
            RequestParameter::SetInterfaceReleaseDhcp(p) => {
                p.write_encoding(out);
            },
            RequestParameter::GetIpV4DefaultRoute => {
                assert(old(out)@ + Seq::<u8>::empty() =~= old(out)@);
            },
            RequestParameter::SetIpV4DefaultRoute(p) => {
                p.write_encoding(out);
            },
            RequestParameter::GetDnsIpV4NameServer(p) => {
                p.write_encoding(out);
            },
            RequestParameter::SetDnsIpV4NameServer(p) => {
                p.write_encoding(out);
            },
            RequestParameter::GetDnsHostName => {
                assert(old(out)@ + Seq::<u8>::empty() =~= old(out)@);
            },
            RequestParameter::SetDnsHostName(p) => {
                p.write_encoding(out);
            },
            RequestParameter::GetDnsDomainName => {
                assert(old(out)@ + Seq::<u8>::empty() =~= old(out)@);
            },
            RequestParameter::SetDnsDomainName(p) => {
                p.write_encoding(out);
            },
            RequestParameter::GetEndpointList => {
                assert(old(out)@ + Seq::<u8>::empty() =~= old(out)@);
            },
            RequestParameter::GetEndpointListChange => {
                assert(old(out)@ + Seq::<u8>::empty() =~= old(out)@);
            },
            RequestParameter::GetIdentifyEndpoint(p) => {
                p.write_encoding(out);
            },
            RequestParameter::SetIdentifyEndpoint(p) => {
                p.write_encoding(out);
            },
            RequestParameter::GetEndpointToUniverse(p) => {
                p.write_encoding(out);
            },
            RequestParameter::SetEndpointToUniverse(p) => {
                p.write_encoding(out);
            },
            RequestParameter::GetEndpointMode(p) => {
                p.write_encoding(out);
            },
            RequestParameter::SetEndpointMode(p) => {
                p.write_encoding(out);
            },
            RequestParameter::GetEndpointLabel(p) => {
                p.write_encoding(out);
            },
            RequestParameter::SetEndpointLabel(p) => {
                p.write_encoding(out);
            },
            RequestParameter::GetRdmTrafficEnable(p) => {
                p.write_encoding(out);
            },
            RequestParameter::SetRdmTrafficEnable(p) => {
                p.write_encoding(out);
            },
            RequestParameter::GetDiscoveryState(p) => {
                p.write_encoding(out);
            },
            RequestParameter::SetDiscoveryState(p) => {
                p.write_encoding(out);
            },
            RequestParameter::GetBackgroundDiscovery(p) => {
                p.write_encoding(out);
            },
            RequestParameter::SetBackgroundDiscovery(p) => {
                p.write_encoding(out);
            },
            RequestParameter::GetEndpointTiming(p) => {
                p.write_encoding(out);
            },
            RequestParameter::SetEndpointTiming(p) => {
                p.write_encoding(out);
            },
            RequestParameter::GetEndpointTimingDescription(p) => {
                p.write_encoding(out);
            },
            RequestParameter::GetEndpointResponders(p) => {
                p.write_encoding(out);
            },
            RequestParameter::GetEndpointResponderListChange(p) => {
                p.write_encoding(out);
            },
            RequestParameter::GetBindingControlFields(p) => {
                p.write_encoding(out);
            },
            RequestParameter::GetBackgroundQueuedStatusPolicy => {
                assert(old(out)@ + Seq::<u8>::empty() =~= old(out)@);
            },
            RequestParameter::SetBackgroundQueuedStatusPolicy(p) => {
                p.write_encoding(out);
            },
            RequestParameter::GetBackgroundQueuedStatusPolicyDescription(p) => {
                p.write_encoding(out);
            },
            RequestParameter::GetComponentScope(p) => {
                p.write_encoding(out);
            },
            RequestParameter::SetComponentScope(p) => {
                p.write_encoding(out);
            },
            RequestParameter::GetSearchDomain => {
                assert(old(out)@ + Seq::<u8>::empty() =~= old(out)@);
            },
            RequestParameter::SetSearchDomain(p) => {
                p.write_encoding(out);
            },
            RequestParameter::GetTcpCommsStatus => {
                assert(old(out)@ + Seq::<u8>::empty() =~= old(out)@);
            },
            RequestParameter::SetTcpCommsStatus(p) => {
                p.write_encoding(out);
            },
            RequestParameter::GetBrokerStatus => {
                assert(old(out)@ + Seq::<u8>::empty() =~= old(out)@);
            },
            RequestParameter::SetBrokerStatus(p) => {
                p.write_encoding(out);
            },
            RequestParameter::CustomParameter(c) => c.write_data(out),
        }
    }
}

impl<'a> RequestParameter<'a> {
    /// The number of bytes of parameter data.
    pub fn size(&self) -> (n: usize)
        ensures
            self matches RequestParameter::CustomParameter(c) ==> n == c.parameter_data_length,
            !(self is CustomParameter) ==> n == self.spec_encoding().len(),
            n <= 512,
    {
        match self {
            RequestParameter::DiscUniqueBranch(p) => p.size_of(),
            RequestParameter::DiscMute => 0,
            RequestParameter::DiscUnMute => 0,
            RequestParameter::GetCommsStatus => 0,
            RequestParameter::SetCommsStatus => 0,
            RequestParameter::GetQueuedMessage(p) => p.size_of(),
            RequestParameter::GetStatusMessages(p) => p.size_of(),
            RequestParameter::GetStatusIdDescription(p) => p.size_of(),
            RequestParameter::SetClearStatusId => 0,
            RequestParameter::GetSubDeviceIdStatusReportThreshold => 0,
            RequestParameter::SetSubDeviceIdStatusReportThreshold(p) => p.size_of(),
            RequestParameter::GetSupportedParameters => 0,
            RequestParameter::GetParameterDescription(p) => p.size_of(),
            RequestParameter::GetDeviceInfo => 0,
            RequestParameter::GetProductDetailIdList => 0,
            RequestParameter::GetDeviceModelDescription => 0,
            RequestParameter::GetManufacturerLabel => 0,
            RequestParameter::GetDeviceLabel => 0,
            RequestParameter::SetDeviceLabel(p) => p.size_of(),
            RequestParameter::GetFactoryDefaults => 0,
            RequestParameter::SetFactoryDefaults => 0,
            RequestParameter::GetLanguageCapabilities => 0,
            RequestParameter::GetLanguage => 0,
            RequestParameter::SetLanguage(p) => p.size_of(),
            RequestParameter::GetSoftwareVersionLabel => 0,
            RequestParameter::GetBootSoftwareVersionId => 0,
            RequestParameter::GetBootSoftwareVersionLabel => 0,
            RequestParameter::GetDmxPersonality => 0,
            RequestParameter::SetDmxPersonality(p) => p.size_of(),
            RequestParameter::GetDmxPersonalityDescription(p) => p.size_of(),
            RequestParameter::GetDmxStartAddress => 0,
            RequestParameter::SetDmxStartAddress(p) => p.size_of(),
            RequestParameter::GetSlotInfo => 0,
            RequestParameter::GetSlotDescription(p) => p.size_of(),
            RequestParameter::GetDefaultSlotValue => 0,
            RequestParameter::GetSensorDefinition(p) => p.size_of(),
            RequestParameter::GetSensorValue(p) => p.size_of(),
            RequestParameter::SetSensorValue(p) => p.size_of(),
            RequestParameter::SetRecordSensors(p) => p.size_of(),
            RequestParameter::GetDeviceHours => 0,
            RequestParameter::SetDeviceHours(p) => p.size_of(),
            RequestParameter::GetLampHours => 0,
            RequestParameter::SetLampHours(p) => p.size_of(),
            RequestParameter::GetLampStrikes => 0,
            RequestParameter::SetLampStrikes(p) => p.size_of(),
            RequestParameter::GetLampState => 0,
            RequestParameter::SetLampState(p) => p.size_of(),
            RequestParameter::GetLampOnMode => 0,
            RequestParameter::SetLampOnMode(p) => p.size_of(),
            RequestParameter::GetDevicePowerCycles => 0,
            RequestParameter::SetDevicePowerCycles(p) => p.size_of(),
            RequestParameter::GetDisplayInvert => 0,
            RequestParameter::SetDisplayInvert(p) => p.size_of(),
            RequestParameter::GetDisplayLevel => 0,
            RequestParameter::SetDisplayLevel(p) => p.size_of(),
            RequestParameter::GetPanInvert => 0,
            RequestParameter::SetPanInvert(p) => p.size_of(),
            RequestParameter::GetTiltInvert => 0,
            RequestParameter::SetTiltInvert(p) => p.size_of(),
            RequestParameter::GetPanTiltSwap => 0,
            RequestParameter::SetPanTiltSwap(p) => p.size_of(),
            RequestParameter::GetRealTimeClock => 0,
            RequestParameter::SetRealTimeClock(p) => p.size_of(),
            RequestParameter::GetIdentifyDevice => 0,
            RequestParameter::SetIdentifyDevice(p) => p.size_of(),
            RequestParameter::SetResetDevice(p) => p.size_of(),
            RequestParameter::GetPowerState => 0,
            RequestParameter::SetPowerState(p) => p.size_of(),
            RequestParameter::GetPerformSelfTest => 0,
            RequestParameter::SetPerformSelfTest(p) => p.size_of(),
            RequestParameter::SetCapturePreset(p) => p.size_of(),
            RequestParameter::GetSelfTestDescription(p) => p.size_of(),
            RequestParameter::GetPresetPlayback => 0,
            RequestParameter::SetPresetPlayback(p) => p.size_of(),
            RequestParameter::GetDmxBlockAddress => 0,
            RequestParameter::SetDmxBlockAddress(p) => p.size_of(),
            RequestParameter::GetDmxFailMode => 0,
            RequestParameter::SetDmxFailMode(p) => p.size_of(),
            RequestParameter::GetDmxStartupMode => 0,
            RequestParameter::SetDmxStartupMode(p) => p.size_of(),
            RequestParameter::GetDimmerInfo => 0,
            RequestParameter::GetMinimumLevel => 0,
            RequestParameter::SetMinimumLevel(p) => p.size_of(),
            RequestParameter::GetMaximumLevel => 0,
            RequestParameter::SetMaximumLevel(p) => p.size_of(),
            RequestParameter::GetCurve => 0,
            RequestParameter::SetCurve => 0,
            RequestParameter::GetCurveDescription(p) => p.size_of(),
            RequestParameter::GetOutputResponseTime => 0,
            RequestParameter::SetOutputResponseTime(p) => p.size_of(),
            RequestParameter::GetOutputResponseTimeDescription(p) => p.size_of(),
            RequestParameter::GetModulationFrequency => 0,
            RequestParameter::SetModulationFrequency(p) => p.size_of(),
            RequestParameter::GetModulationFrequencyDescription(p) => p.size_of(),
            RequestParameter::GetPowerOnSelfTest => 0,
            RequestParameter::SetPowerOnSelfTest(p) => p.size_of(),
            RequestParameter::GetLockState => 0,
            RequestParameter::SetLockState(p) => p.size_of(),
            RequestParameter::GetLockStateDescription => 0,
            RequestParameter::GetLockPin => 0,
            RequestParameter::SetLockPin(p) => p.size_of(),
            RequestParameter::GetBurnIn => 0,
            RequestParameter::SetBurnIn(p) => p.size_of(),
            RequestParameter::GetIdentifyMode => 0,
            RequestParameter::SetIdentifyMode(p) => p.size_of(),
            RequestParameter::GetPresetInfo => 0,
            RequestParameter::GetPresetStatus(p) => p.size_of(),
            RequestParameter::SetPresetStatus(p) => p.size_of(),
            RequestParameter::GetPresetMergeMode => 0,
            RequestParameter::SetPresetMergeMode(p) => p.size_of(),
            RequestParameter::GetListInterfaces => 0,
            RequestParameter::GetInterfaceLabel(p) => p.size_of(),
            RequestParameter::GetInterfaceHardwareAddressType1(p) => p.size_of(),
            RequestParameter::GetIpV4DhcpMode(p) => p.size_of(),
            RequestParameter::SetIpV4DhcpMode(p) => p.size_of(),
            RequestParameter::GetIpV4ZeroConfMode(p) => p.size_of(),
            RequestParameter::SetIpV4ZeroConfMode(p) => p.size_of(),
            RequestParameter::GetIpV4CurrentAddress(p) => p.size_of(),
            RequestParameter::GetIpV4StaticAddress(p) => p.size_of(),
            RequestParameter::SetIpV4StaticAddress(p) => p.size_of(),
            RequestParameter::SetInterfaceApplyConfiguration(p) => p.size_of(),
            RequestParameter::SetInterfaceRenewDhcp(p) => p.size_of(),
            RequestParameter::SetInterfaceReleaseDhcp(p) => p.size_of(),
            RequestParameter::GetIpV4DefaultRoute => 0,
            RequestParameter::SetIpV4DefaultRoute(p) => p.size_of(),
            RequestParameter::GetDnsIpV4NameServer(p) => p.size_of(),
            RequestParameter::SetDnsIpV4NameServer(p) => p.size_of(),
            RequestParameter::GetDnsHostName => 0,
            RequestParameter::SetDnsHostName(p) => p.size_of(),
            RequestParameter::GetDnsDomainName => 0,
            RequestParameter::SetDnsDomainName(p) => p.size_of(),
            RequestParameter::GetEndpointList => 0,
            RequestParameter::GetEndpointListChange => 0,
            RequestParameter::GetIdentifyEndpoint(p) => p.size_of(),
            RequestParameter::SetIdentifyEndpoint(p) => p.size_of(),
            RequestParameter::GetEndpointToUniverse(p) => p.size_of(),
            RequestParameter::SetEndpointToUniverse(p) => p.size_of(),
            RequestParameter::GetEndpointMode(p) => p.size_of(),
            RequestParameter::SetEndpointMode(p) => p.size_of(),
            RequestParameter::GetEndpointLabel(p) => p.size_of(),
            RequestParameter::SetEndpointLabel(p) => p.size_of(),
            RequestParameter::GetRdmTrafficEnable(p) => p.size_of(),
            RequestParameter::SetRdmTrafficEnable(p) => p.size_of(),
            RequestParameter::GetDiscoveryState(p) => p.size_of(),
            RequestParameter::SetDiscoveryState(p) => p.size_of(),
            RequestParameter::GetBackgroundDiscovery(p) => p.size_of(),
            RequestParameter::SetBackgroundDiscovery(p) => p.size_of(),
            RequestParameter::GetEndpointTiming(p) => p.size_of(),
            RequestParameter::SetEndpointTiming(p) => p.size_of(),
            RequestParameter::GetEndpointTimingDescription(p) => p.size_of(),
            RequestParameter::GetEndpointResponders(p) => p.size_of(),
            RequestParameter::GetEndpointResponderListChange(p) => p.size_of(),
            RequestParameter::GetBindingControlFields(p) => p.size_of(),
            RequestParameter::GetBackgroundQueuedStatusPolicy => 0,
            RequestParameter::SetBackgroundQueuedStatusPolicy(p) => p.size_of(),
            RequestParameter::GetBackgroundQueuedStatusPolicyDescription(p) => p.size_of(),
            RequestParameter::GetComponentScope(p) => p.size_of(),
            RequestParameter::SetComponentScope(p) => p.size_of(),
            RequestParameter::GetSearchDomain => 0,
            RequestParameter::SetSearchDomain(p) => p.size_of(),
            RequestParameter::GetTcpCommsStatus => 0,
            RequestParameter::SetTcpCommsStatus(p) => p.size_of(),
            RequestParameter::GetBrokerStatus => 0,
            RequestParameter::SetBrokerStatus(p) => p.size_of(),
            RequestParameter::CustomParameter(c) => c.parameter_data_length as usize,
        }
    }

    /// Writes the parameter data at the start of `buf`.
    pub fn encode(&self, buf: &mut [u8]) -> (r: Result<usize, ParameterDataError>)
        requires
            self matches RequestParameter::CustomParameter(c) ==> c.spec_length_fits() && old(buf)@.len() >= c.parameter_data_length,
        ensures
            encoded_into(old(buf)@, final(buf)@, self.spec_encoding(), r),
    {
        let mut out: Vec<u8> = Vec::new();
        self.write_to(&mut out);
        proof {
            assert(out@ =~= self.spec_encoding());
        }
        copy_encoded(buf, out.as_slice())
    }

    /// The parameter that the parameter data in `buf` stands for, given the command class and identifier.
    #[verifier::spinoff_prover]
    #[verifier::rlimit(100)]
    pub fn decode(command_class: CommandClass, parameter_id: ParameterId, buf: &'a [u8]) -> (r: Result<Self, ParameterDataError>)
        requires
            !Self::spec_is_modeled(command_class, parameter_id) ==> buf@.len() <= 231,
        ensures
            r == Self::spec_decoded(command_class, parameter_id, buf@),
    {
        match (command_class, parameter_id) {
            (CommandClass::DiscoveryCommand, ParameterId::DiscUniqueBranch) => match DiscUniqueBranchRequest::decode_parameter_data(buf) {
                Ok(p) => Ok(RequestParameter::DiscUniqueBranch(p)),
                Err(e) => Err(e),
            },
            (CommandClass::DiscoveryCommand, ParameterId::DiscMute) => Ok(RequestParameter::DiscMute),
            (CommandClass::DiscoveryCommand, ParameterId::DiscUnMute) => Ok(RequestParameter::DiscUnMute),
            (CommandClass::GetCommand, ParameterId::CommsStatus) => Ok(RequestParameter::GetCommsStatus),
            (CommandClass::SetCommand, ParameterId::CommsStatus) => Ok(RequestParameter::SetCommsStatus),
            (CommandClass::GetCommand, ParameterId::QueuedMessage) => match GetQueuedMessageRequest::decode_parameter_data(buf) {
                Ok(p) => Ok(RequestParameter::GetQueuedMessage(p)),
                Err(e) => Err(e),
            },
            (CommandClass::GetCommand, ParameterId::StatusMessages) => match GetStatusMessagesRequest::decode_parameter_data(buf) {
                Ok(p) => Ok(RequestParameter::GetStatusMessages(p)),
                Err(e) => Err(e),
            },
            (CommandClass::GetCommand, ParameterId::StatusIdDescription) => match GetStatusIdDescriptionRequest::decode_parameter_data(buf) {
                Ok(p) => Ok(RequestParameter::GetStatusIdDescription(p)),
                Err(e) => Err(e),
            },
            (CommandClass::SetCommand, ParameterId::ClearStatusId) => Ok(RequestParameter::SetClearStatusId),
            (CommandClass::GetCommand, ParameterId::SubDeviceIdStatusReportThreshold) => Ok(RequestParameter::GetSubDeviceIdStatusReportThreshold),
            (CommandClass::SetCommand, ParameterId::SubDeviceIdStatusReportThreshold) => match SetSubDeviceIdStatusReportThresholdRequest::decode_parameter_data(buf) {
                Ok(p) => Ok(RequestParameter::SetSubDeviceIdStatusReportThreshold(p)),
                Err(e) => Err(e),
            },
            (CommandClass::GetCommand, ParameterId::SupportedParameters) => Ok(RequestParameter::GetSupportedParameters),
            (CommandClass::GetCommand, ParameterId::ParameterDescription) => match GetParameterDescriptionRequest::decode_parameter_data(buf) {
                Ok(p) => Ok(RequestParameter::GetParameterDescription(p)),
                Err(e) => Err(e),
            },
            (CommandClass::GetCommand, ParameterId::DeviceInfo) => Ok(RequestParameter::GetDeviceInfo),
            (CommandClass::GetCommand, ParameterId::ProductDetailIdList) => Ok(RequestParameter::GetProductDetailIdList),
            (CommandClass::GetCommand, ParameterId::DeviceModelDescription) => Ok(RequestParameter::GetDeviceModelDescription),
            (CommandClass::GetCommand, ParameterId::ManufacturerLabel) => Ok(RequestParameter::GetManufacturerLabel),
            (CommandClass::GetCommand, ParameterId::DeviceLabel) => Ok(RequestParameter::GetDeviceLabel),
            (CommandClass::SetCommand, ParameterId::DeviceLabel) => match SetDeviceLabelRequest::decode_parameter_data(buf) {
                Ok(p) => Ok(RequestParameter::SetDeviceLabel(p)),
                Err(e) => Err(e),
            },
            (CommandClass::GetCommand, ParameterId::FactoryDefaults) => Ok(RequestParameter::GetFactoryDefaults),
            (CommandClass::SetCommand, ParameterId::FactoryDefaults) => Ok(RequestParameter::SetFactoryDefaults),
            (CommandClass::GetCommand, ParameterId::LanguageCapabilities) => Ok(RequestParameter::GetLanguageCapabilities),
            (CommandClass::GetCommand, ParameterId::Language) => Ok(RequestParameter::GetLanguage),
            (CommandClass::SetCommand, ParameterId::Language) => match SetLanguageRequest::decode_parameter_data(buf) {
                Ok(p) => Ok(RequestParameter::SetLanguage(p)),
                Err(e) => Err(e),
            },
            (CommandClass::GetCommand, ParameterId::SoftwareVersionLabel) => Ok(RequestParameter::GetSoftwareVersionLabel),
            (CommandClass::GetCommand, ParameterId::BootSoftwareVersionId) => Ok(RequestParameter::GetBootSoftwareVersionId),
            (CommandClass::GetCommand, ParameterId::BootSoftwareVersionLabel) => Ok(RequestParameter::GetBootSoftwareVersionLabel),
            (CommandClass::GetCommand, ParameterId::DmxPersonality) => Ok(RequestParameter::GetDmxPersonality),
            (CommandClass::SetCommand, ParameterId::DmxPersonality) => match SetDmxPersonalityRequest::decode_parameter_data(buf) {
                Ok(p) => Ok(RequestParameter::SetDmxPersonality(p)),
                Err(e) => Err(e),
            },
            (CommandClass::GetCommand, ParameterId::DmxPersonalityDescription) => match GetDmxPersonalityDescriptionRequest::decode_parameter_data(buf) {
                Ok(p) => Ok(RequestParameter::GetDmxPersonalityDescription(p)),
                Err(e) => Err(e),
            },
            (CommandClass::GetCommand, ParameterId::DmxStartAddress) => Ok(RequestParameter::GetDmxStartAddress),
            (CommandClass::SetCommand, ParameterId::DmxStartAddress) => match SetDmxStartAddressRequest::decode_parameter_data(buf) {
                Ok(p) => Ok(RequestParameter::SetDmxStartAddress(p)),
                Err(e) => Err(e),
            },
            (CommandClass::GetCommand, ParameterId::SlotInfo) => Ok(RequestParameter::GetSlotInfo),
            (CommandClass::GetCommand, ParameterId::SlotDescription) => match GetSlotDescriptionRequest::decode_parameter_data(buf) {
                Ok(p) => Ok(RequestParameter::GetSlotDescription(p)),
                Err(e) => Err(e),
            },
            (CommandClass::GetCommand, ParameterId::DefaultSlotValue) => Ok(RequestParameter::GetDefaultSlotValue),
            (CommandClass::GetCommand, ParameterId::SensorDefinition) => match GetSensorDefinitionRequest::decode_parameter_data(buf) {
                Ok(p) => Ok(RequestParameter::GetSensorDefinition(p)),
                Err(e) => Err(e),
            },
            (CommandClass::GetCommand, ParameterId::SensorValue) => match GetSensorValueRequest::decode_parameter_data(buf) {
                Ok(p) => Ok(RequestParameter::GetSensorValue(p)),
                Err(e) => Err(e),
            },
            (CommandClass::SetCommand, ParameterId::SensorValue) => match SetSensorValueRequest::decode_parameter_data(buf) {
                Ok(p) => Ok(RequestParameter::SetSensorValue(p)),
                Err(e) => Err(e),
            },
            (CommandClass::SetCommand, ParameterId::RecordSensors) => match SetRecordSensorsRequest::decode_parameter_data(buf) {
                Ok(p) => Ok(RequestParameter::SetRecordSensors(p)),
                Err(e) => Err(e),
            },
            (CommandClass::GetCommand, ParameterId::DeviceHours) => Ok(RequestParameter::GetDeviceHours),
            (CommandClass::SetCommand, ParameterId::DeviceHours) => match SetDeviceHoursRequest::decode_parameter_data(buf) {
                Ok(p) => Ok(RequestParameter::SetDeviceHours(p)),
                Err(e) => Err(e),
            },
            (CommandClass::GetCommand, ParameterId::LampHours) => Ok(RequestParameter::GetLampHours),
            (CommandClass::SetCommand, ParameterId::LampHours) => match SetLampHoursRequest::decode_parameter_data(buf) {
                Ok(p) => Ok(RequestParameter::SetLampHours(p)),
                Err(e) => Err(e),
            },
            (CommandClass::GetCommand, ParameterId::LampStrikes) => Ok(RequestParameter::GetLampStrikes),
            (CommandClass::SetCommand, ParameterId::LampStrikes) => match SetLampStrikesRequest::decode_parameter_data(buf) {
                Ok(p) => Ok(RequestParameter::SetLampStrikes(p)),
                Err(e) => Err(e),
            },
            (CommandClass::GetCommand, ParameterId::LampState) => Ok(RequestParameter::GetLampState),
            (CommandClass::SetCommand, ParameterId::LampState) => match SetLampStateRequest::decode_parameter_data(buf) {
                Ok(p) => Ok(RequestParameter::SetLampState(p)),
                Err(e) => Err(e),
            },
            (CommandClass::GetCommand, ParameterId::LampOnMode) => Ok(RequestParameter::GetLampOnMode),
            (CommandClass::SetCommand, ParameterId::LampOnMode) => match SetLampOnModeRequest::decode_parameter_data(buf) {
                Ok(p) => Ok(RequestParameter::SetLampOnMode(p)),
                Err(e) => Err(e),
            },
            (CommandClass::GetCommand, ParameterId::DevicePowerCycles) => Ok(RequestParameter::GetDevicePowerCycles),
            (CommandClass::SetCommand, ParameterId::DevicePowerCycles) => match SetDevicePowerCyclesRequest::decode_parameter_data(buf) {
                Ok(p) => Ok(RequestParameter::SetDevicePowerCycles(p)),
                Err(e) => Err(e),
            },
            (CommandClass::GetCommand, ParameterId::DisplayInvert) => Ok(RequestParameter::GetDisplayInvert),
            (CommandClass::SetCommand, ParameterId::DisplayInvert) => match SetDisplayInvertRequest::decode_parameter_data(buf) {
                Ok(p) => Ok(RequestParameter::SetDisplayInvert(p)),
                Err(e) => Err(e),
            },
            (CommandClass::GetCommand, ParameterId::DisplayLevel) => Ok(RequestParameter::GetDisplayLevel),
            (CommandClass::SetCommand, ParameterId::DisplayLevel) => match SetDisplayLevelRequest::decode_parameter_data(buf) {
                Ok(p) => Ok(RequestParameter::SetDisplayLevel(p)),
                Err(e) => Err(e),
            },
            (CommandClass::GetCommand, ParameterId::PanInvert) => Ok(RequestParameter::GetPanInvert),
            (CommandClass::SetCommand, ParameterId::PanInvert) => match SetPanInvertRequest::decode_parameter_data(buf) {
                Ok(p) => Ok(RequestParameter::SetPanInvert(p)),
                Err(e) => Err(e),
            },
            (CommandClass::GetCommand, ParameterId::TiltInvert) => Ok(RequestParameter::GetTiltInvert),
            (CommandClass::SetCommand, ParameterId::TiltInvert) => match SetTiltInvertRequest::decode_parameter_data(buf) {
                Ok(p) => Ok(RequestParameter::SetTiltInvert(p)),
                Err(e) => Err(e),
            },
            (CommandClass::GetCommand, ParameterId::PanTiltSwap) => Ok(RequestParameter::GetPanTiltSwap),
            (CommandClass::SetCommand, ParameterId::PanTiltSwap) => match SetPanTiltSwapRequest::decode_parameter_data(buf) {
                Ok(p) => Ok(RequestParameter::SetPanTiltSwap(p)),
                Err(e) => Err(e),
            },
            (CommandClass::GetCommand, ParameterId::RealTimeClock) => Ok(RequestParameter::GetRealTimeClock),
            (CommandClass::SetCommand, ParameterId::RealTimeClock) => match SetRealTimeClockRequest::decode_parameter_data(buf) {
                Ok(p) => Ok(RequestParameter::SetRealTimeClock(p)),
                Err(e) => Err(e),
            },
            (CommandClass::GetCommand, ParameterId::IdentifyDevice) => Ok(RequestParameter::GetIdentifyDevice),
            (CommandClass::SetCommand, ParameterId::IdentifyDevice) => match SetIdentifyDeviceRequest::decode_parameter_data(buf) {
                Ok(p) => Ok(RequestParameter::SetIdentifyDevice(p)),
                Err(e) => Err(e),
            },
            (CommandClass::SetCommand, ParameterId::ResetDevice) => match SetResetDeviceRequest::decode_parameter_data(buf) {
                Ok(p) => Ok(RequestParameter::SetResetDevice(p)),
                Err(e) => Err(e),
            },
            (CommandClass::GetCommand, ParameterId::PowerState) => Ok(RequestParameter::GetPowerState),
            (CommandClass::SetCommand, ParameterId::PowerState) => match SetPowerStateRequest::decode_parameter_data(buf) {
                Ok(p) => Ok(RequestParameter::SetPowerState(p)),
                Err(e) => Err(e),
            },
            (CommandClass::GetCommand, ParameterId::PerformSelfTest) => Ok(RequestParameter::GetPerformSelfTest),
            (CommandClass::SetCommand, ParameterId::PerformSelfTest) => match SetPerformSelfTestRequest::decode_parameter_data(buf) {
                Ok(p) => Ok(RequestParameter::SetPerformSelfTest(p)),
                Err(e) => Err(e),
            },
            (CommandClass::SetCommand, ParameterId::CapturePreset) => match SetCapturePresetRequest::decode_parameter_data(buf) {
                Ok(p) => Ok(RequestParameter::SetCapturePreset(p)),
                Err(e) => Err(e),
            },
            (CommandClass::GetCommand, ParameterId::SelfTestDescription) => match GetSelfTestDescriptionRequest::decode_parameter_data(buf) {
                Ok(p) => Ok(RequestParameter::GetSelfTestDescription(p)),
                Err(e) => Err(e),
            },
            (CommandClass::GetCommand, ParameterId::PresetPlayback) => Ok(RequestParameter::GetPresetPlayback),
            (CommandClass::SetCommand, ParameterId::PresetPlayback) => match SetPresetPlaybackRequest::decode_parameter_data(buf) {
                Ok(p) => Ok(RequestParameter::SetPresetPlayback(p)),
                Err(e) => Err(e),
            },
            (CommandClass::GetCommand, ParameterId::DmxBlockAddress) => Ok(RequestParameter::GetDmxBlockAddress),
            (CommandClass::SetCommand, ParameterId::DmxBlockAddress) => match SetDmxBlockAddressRequest::decode_parameter_data(buf) {
                Ok(p) => Ok(RequestParameter::SetDmxBlockAddress(p)),
                Err(e) => Err(e),
            },
            (CommandClass::GetCommand, ParameterId::DmxFailMode) => Ok(RequestParameter::GetDmxFailMode),
            (CommandClass::SetCommand, ParameterId::DmxFailMode) => match SetDmxFailModeRequest::decode_parameter_data(buf) {
                Ok(p) => Ok(RequestParameter::SetDmxFailMode(p)),
                Err(e) => Err(e),
            },
            (CommandClass::GetCommand, ParameterId::DmxStartupMode) => Ok(RequestParameter::GetDmxStartupMode),
            (CommandClass::SetCommand, ParameterId::DmxStartupMode) => match SetDmxStartupModeRequest::decode_parameter_data(buf) {
                Ok(p) => Ok(RequestParameter::SetDmxStartupMode(p)),
                Err(e) => Err(e),
            },
            (CommandClass::GetCommand, ParameterId::DimmerInfo) => Ok(RequestParameter::GetDimmerInfo),
            (CommandClass::GetCommand, ParameterId::MinimumLevel) => Ok(RequestParameter::GetMinimumLevel),
            (CommandClass::SetCommand, ParameterId::MinimumLevel) => match SetMinimumLevelRequest::decode_parameter_data(buf) {
                Ok(p) => Ok(RequestParameter::SetMinimumLevel(p)),
                Err(e) => Err(e),
            },
            (CommandClass::GetCommand, ParameterId::MaximumLevel) => Ok(RequestParameter::GetMaximumLevel),
            (CommandClass::SetCommand, ParameterId::MaximumLevel) => match SetMaximumLevelRequest::decode_parameter_data(buf) {
                Ok(p) => Ok(RequestParameter::SetMaximumLevel(p)),
                Err(e) => Err(e),
            },
            (CommandClass::GetCommand, ParameterId::Curve) => Ok(RequestParameter::GetCurve),
            (CommandClass::SetCommand, ParameterId::Curve) => Ok(RequestParameter::SetCurve),
            (CommandClass::GetCommand, ParameterId::CurveDescription) => match GetCurveDescriptionRequest::decode_parameter_data(buf) {
                Ok(p) => Ok(RequestParameter::GetCurveDescription(p)),
                Err(e) => Err(e),
            },
            (CommandClass::GetCommand, ParameterId::OutputResponseTime) => Ok(RequestParameter::GetOutputResponseTime),
            (CommandClass::SetCommand, ParameterId::OutputResponseTime) => match SetOutputResponseTimeRequest::decode_parameter_data(buf) {
                Ok(p) => Ok(RequestParameter::SetOutputResponseTime(p)),
                Err(e) => Err(e),
            },
            (CommandClass::GetCommand, ParameterId::OutputResponseTimeDescription) => match GetOutputResponseTimeDescriptionRequest::decode_parameter_data(buf) {
                Ok(p) => Ok(RequestParameter::GetOutputResponseTimeDescription(p)),
                Err(e) => Err(e),
            },
            (CommandClass::GetCommand, ParameterId::ModulationFrequency) => Ok(RequestParameter::GetModulationFrequency),
            (CommandClass::SetCommand, ParameterId::ModulationFrequency) => match SetModulationFrequencyRequest::decode_parameter_data(buf) {
                Ok(p) => Ok(RequestParameter::SetModulationFrequency(p)),
                Err(e) => Err(e),
            },
            (CommandClass::GetCommand, ParameterId::ModulationFrequencyDescription) => match GetModulationFrequencyDescriptionRequest::decode_parameter_data(buf) {
                Ok(p) => Ok(RequestParameter::GetModulationFrequencyDescription(p)),
                Err(e) => Err(e),
            },
            (CommandClass::GetCommand, ParameterId::PowerOnSelfTest) => Ok(RequestParameter::GetPowerOnSelfTest),
            (CommandClass::SetCommand, ParameterId::PowerOnSelfTest) => match SetPowerOnSelfTestRequest::decode_parameter_data(buf) {
                Ok(p) => Ok(RequestParameter::SetPowerOnSelfTest(p)),
                Err(e) => Err(e),
            },
            (CommandClass::GetCommand, ParameterId::LockState) => Ok(RequestParameter::GetLockState),
            (CommandClass::SetCommand, ParameterId::LockState) => match SetLockStateRequest::decode_parameter_data(buf) {
                Ok(p) => Ok(RequestParameter::SetLockState(p)),
                Err(e) => Err(e),
            },
            (CommandClass::GetCommand, ParameterId::LockStateDescription) => Ok(RequestParameter::GetLockStateDescription),
            (CommandClass::GetCommand, ParameterId::LockPin) => Ok(RequestParameter::GetLockPin),
            (CommandClass::SetCommand, ParameterId::LockPin) => match SetLockPinRequest::decode_parameter_data(buf) {
                Ok(p) => Ok(RequestParameter::SetLockPin(p)),
                Err(e) => Err(e),
            },
            (CommandClass::GetCommand, ParameterId::BurnIn) => Ok(RequestParameter::GetBurnIn),
            (CommandClass::SetCommand, ParameterId::BurnIn) => match SetBurnInRequest::decode_parameter_data(buf) {
                Ok(p) => Ok(RequestParameter::SetBurnIn(p)),
                Err(e) => Err(e),
            },
            (CommandClass::GetCommand, ParameterId::IdentifyMode) => Ok(RequestParameter::GetIdentifyMode),
            (CommandClass::SetCommand, ParameterId::IdentifyMode) => match SetIdentifyModeRequest::decode_parameter_data(buf) {
                Ok(p) => Ok(RequestParameter::SetIdentifyMode(p)),
                Err(e) => Err(e),
            },
            (CommandClass::GetCommand, ParameterId::PresetInfo) => Ok(RequestParameter::GetPresetInfo),
            (CommandClass::GetCommand, ParameterId::PresetStatus) => match GetPresetStatusRequest::decode_parameter_data(buf) {
                Ok(p) => Ok(RequestParameter::GetPresetStatus(p)),
                Err(e) => Err(e),
            },
            (CommandClass::SetCommand, ParameterId::PresetStatus) => match SetPresetStatusRequest::decode_parameter_data(buf) {
                Ok(p) => Ok(RequestParameter::SetPresetStatus(p)),
                Err(e) => Err(e),
            },
            (CommandClass::GetCommand, ParameterId::PresetMergeMode) => Ok(RequestParameter::GetPresetMergeMode),
            (CommandClass::SetCommand, ParameterId::PresetMergeMode) => match SetPresetMergeModeRequest::decode_parameter_data(buf) {
                Ok(p) => Ok(RequestParameter::SetPresetMergeMode(p)),
                Err(e) => Err(e),
            },
            (CommandClass::GetCommand, ParameterId::ListInterfaces) => Ok(RequestParameter::GetListInterfaces),
            (CommandClass::GetCommand, ParameterId::InterfaceLabel) => match GetInterfaceLabelRequest::decode_parameter_data(buf) {
                Ok(p) => Ok(RequestParameter::GetInterfaceLabel(p)),
                Err(e) => Err(e),
            },
            (CommandClass::GetCommand, ParameterId::InterfaceHardwareAddressType1) => match GetInterfaceHardwareAddressType1Request::decode_parameter_data(buf) {
                Ok(p) => Ok(RequestParameter::GetInterfaceHardwareAddressType1(p)),
                Err(e) => Err(e),
            },
            (CommandClass::GetCommand, ParameterId::IpV4DhcpMode) => match GetIpV4DhcpModeRequest::decode_parameter_data(buf) {
                Ok(p) => Ok(RequestParameter::GetIpV4DhcpMode(p)),
                Err(e) => Err(e),
            },
            (CommandClass::SetCommand, ParameterId::IpV4DhcpMode) => match SetIpV4DhcpModeRequest::decode_parameter_data(buf) {
                Ok(p) => Ok(RequestParameter::SetIpV4DhcpMode(p)),
                Err(e) => Err(e),
            },
            (CommandClass::GetCommand, ParameterId::IpV4ZeroConfMode) => match GetIpV4ZeroConfModeRequest::decode_parameter_data(buf) {
                Ok(p) => Ok(RequestParameter::GetIpV4ZeroConfMode(p)),
                Err(e) => Err(e),
            },
            (CommandClass::SetCommand, ParameterId::IpV4ZeroConfMode) => match SetIpV4ZeroConfModeRequest::decode_parameter_data(buf) {
                Ok(p) => Ok(RequestParameter::SetIpV4ZeroConfMode(p)),
                Err(e) => Err(e),
            },
            (CommandClass::GetCommand, ParameterId::IpV4CurrentAddress) => match GetIpV4CurrentAddressRequest::decode_parameter_data(buf) {
                Ok(p) => Ok(RequestParameter::GetIpV4CurrentAddress(p)),
                Err(e) => Err(e),
            },
            (CommandClass::GetCommand, ParameterId::IpV4StaticAddress) => match GetIpV4StaticAddressRequest::decode_parameter_data(buf) {
                Ok(p) => Ok(RequestParameter::GetIpV4StaticAddress(p)),
                Err(e) => Err(e),
            },
            (CommandClass::SetCommand, ParameterId::IpV4StaticAddress) => match SetIpV4StaticAddressRequest::decode_parameter_data(buf) {
                Ok(p) => Ok(RequestParameter::SetIpV4StaticAddress(p)),
                Err(e) => Err(e),
            },
            (CommandClass::SetCommand, ParameterId::InterfaceApplyConfiguration) => match SetInterfaceApplyConfigurationRequest::decode_parameter_data(buf) {
                Ok(p) => Ok(RequestParameter::SetInterfaceApplyConfiguration(p)),
                Err(e) => Err(e),
            },
            (CommandClass::SetCommand, ParameterId::InterfaceRenewDhcp) => match SetInterfaceRenewDhcpRequest::decode_parameter_data(buf) {
                Ok(p) => Ok(RequestParameter::SetInterfaceRenewDhcp(p)),
                Err(e) => Err(e),
            },
            (CommandClass::SetCommand, ParameterId::InterfaceReleaseDhcp) => match SetInterfaceReleaseDhcpRequest::decode_parameter_data(buf) {
                Ok(p) => Ok(RequestParameter::SetInterfaceReleaseDhcp(p)),
                Err(e) => Err(e),
            },
            (CommandClass::GetCommand, ParameterId::IpV4DefaultRoute) => Ok(RequestParameter::GetIpV4DefaultRoute),
            (CommandClass::SetCommand, ParameterId::IpV4DefaultRoute) => match SetIpV4DefaultRouteRequest::decode_parameter_data(buf) {
                Ok(p) => Ok(RequestParameter::SetIpV4DefaultRoute(p)),
                Err(e) => Err(e),
            },
            (CommandClass::GetCommand, ParameterId::DnsIpV4NameServer) => match GetDnsIpV4NameServerRequest::decode_parameter_data(buf) {
                Ok(p) => Ok(RequestParameter::GetDnsIpV4NameServer(p)),
                Err(e) => Err(e),
            },
            (CommandClass::SetCommand, ParameterId::DnsIpV4NameServer) => match SetDnsIpv4NameServerRequest::decode_parameter_data(buf) {
                Ok(p) => Ok(RequestParameter::SetDnsIpV4NameServer(p)),
                Err(e) => Err(e),
            },
            (CommandClass::GetCommand, ParameterId::DnsHostName) => Ok(RequestParameter::GetDnsHostName),
            (CommandClass::SetCommand, ParameterId::DnsHostName) => match SetDnsHostNameRequest::decode_parameter_data(buf) {
                Ok(p) => Ok(RequestParameter::SetDnsHostName(p)),
                Err(e) => Err(e),
            },
            (CommandClass::GetCommand, ParameterId::DnsDomainName) => Ok(RequestParameter::GetDnsDomainName),
            (CommandClass::SetCommand, ParameterId::DnsDomainName) => match SetDnsDomainNameRequest::decode_parameter_data(buf) {
                Ok(p) => Ok(RequestParameter::SetDnsDomainName(p)),
                Err(e) => Err(e),
            },
            (CommandClass::GetCommand, ParameterId::EndpointList) => Ok(RequestParameter::GetEndpointList),
            (CommandClass::GetCommand, ParameterId::EndpointListChange) => Ok(RequestParameter::GetEndpointListChange),
            (CommandClass::GetCommand, ParameterId::IdentifyEndpoint) => match GetIdentifyEndpointRequest::decode_parameter_data(buf) {
                Ok(p) => Ok(RequestParameter::GetIdentifyEndpoint(p)),
                Err(e) => Err(e),
            },
            (CommandClass::SetCommand, ParameterId::IdentifyEndpoint) => match SetIdentifyEndpointRequest::decode_parameter_data(buf) {
                Ok(p) => Ok(RequestParameter::SetIdentifyEndpoint(p)),
                Err(e) => Err(e),
            },
            (CommandClass::GetCommand, ParameterId::EndpointToUniverse) => match GetEndpointToUniverseRequest::decode_parameter_data(buf) {
                Ok(p) => Ok(RequestParameter::GetEndpointToUniverse(p)),
                Err(e) => Err(e),
            },
            (CommandClass::SetCommand, ParameterId::EndpointToUniverse) => match SetEndpointToUniverseRequest::decode_parameter_data(buf) {
                Ok(p) => Ok(RequestParameter::SetEndpointToUniverse(p)),
                Err(e) => Err(e),
            },
            (CommandClass::GetCommand, ParameterId::EndpointMode) => match GetEndpointModeRequest::decode_parameter_data(buf) {
                Ok(p) => Ok(RequestParameter::GetEndpointMode(p)),
                Err(e) => Err(e),
            },
            (CommandClass::SetCommand, ParameterId::EndpointMode) => match SetEndpointModeRequest::decode_parameter_data(buf) {
                Ok(p) => Ok(RequestParameter::SetEndpointMode(p)),
                Err(e) => Err(e),
            },
            (CommandClass::GetCommand, ParameterId::EndpointLabel) => match GetEndpointLabelRequest::decode_parameter_data(buf) {
                Ok(p) => Ok(RequestParameter::GetEndpointLabel(p)),
                Err(e) => Err(e),
            },
            (CommandClass::SetCommand, ParameterId::EndpointLabel) => match SetEndpointLabelRequest::decode_parameter_data(buf) {
                Ok(p) => Ok(RequestParameter::SetEndpointLabel(p)),
                Err(e) => Err(e),
            },
            (CommandClass::GetCommand, ParameterId::RdmTrafficEnable) => match GetRdmTrafficEnableRequest::decode_parameter_data(buf) {
                Ok(p) => Ok(RequestParameter::GetRdmTrafficEnable(p)),
                Err(e) => Err(e),
            },
            (CommandClass::SetCommand, ParameterId::RdmTrafficEnable) => match SetRdmTrafficEnableRequest::decode_parameter_data(buf) {
                Ok(p) => Ok(RequestParameter::SetRdmTrafficEnable(p)),
                Err(e) => Err(e),
            },
            (CommandClass::GetCommand, ParameterId::DiscoveryState) => match GetDiscoveryStateRequest::decode_parameter_data(buf) {
                Ok(p) => Ok(RequestParameter::GetDiscoveryState(p)),
                Err(e) => Err(e),
            },
            (CommandClass::SetCommand, ParameterId::DiscoveryState) => match SetDiscoveryStateRequest::decode_parameter_data(buf) {
                Ok(p) => Ok(RequestParameter::SetDiscoveryState(p)),
                Err(e) => Err(e),
            },
            (CommandClass::GetCommand, ParameterId::BackgroundDiscovery) => match GetBackgroundDiscoveryRequest::decode_parameter_data(buf) {
                Ok(p) => Ok(RequestParameter::GetBackgroundDiscovery(p)),
                Err(e) => Err(e),
            },
            (CommandClass::SetCommand, ParameterId::BackgroundDiscovery) => match SetBackgroundDiscoveryRequest::decode_parameter_data(buf) {
                Ok(p) => Ok(RequestParameter::SetBackgroundDiscovery(p)),
                Err(e) => Err(e),
            },
            (CommandClass::GetCommand, ParameterId::EndpointTiming) => match GetEndpointTimingRequest::decode_parameter_data(buf) {
                Ok(p) => Ok(RequestParameter::GetEndpointTiming(p)),
                Err(e) => Err(e),
            },
            (CommandClass::SetCommand, ParameterId::EndpointTiming) => match SetEndpointTimingRequest::decode_parameter_data(buf) {
                Ok(p) => Ok(RequestParameter::SetEndpointTiming(p)),
                Err(e) => Err(e),
            },
            (CommandClass::GetCommand, ParameterId::EndpointTimingDescription) => match GetEndpointTimingDescriptionRequest::decode_parameter_data(buf) {
                Ok(p) => Ok(RequestParameter::GetEndpointTimingDescription(p)),
                Err(e) => Err(e),
            },
            (CommandClass::GetCommand, ParameterId::EndpointResponders) => match GetEndpointRespondersRequest::decode_parameter_data(buf) {
                Ok(p) => Ok(RequestParameter::GetEndpointResponders(p)),
                Err(e) => Err(e),
            },
            (CommandClass::GetCommand, ParameterId::EndpointResponderListChange) => match GetEndpointResponderListChangeRequest::decode_parameter_data(buf) {
                Ok(p) => Ok(RequestParameter::GetEndpointResponderListChange(p)),
                Err(e) => Err(e),
            },
            (CommandClass::GetCommand, ParameterId::BindingControlFields) => match GetBindingControlFieldsRequest::decode_parameter_data(buf) {
                Ok(p) => Ok(RequestParameter::GetBindingControlFields(p)),
                Err(e) => Err(e),
            },
            (CommandClass::GetCommand, ParameterId::BackgroundQueuedStatusPolicy) => Ok(RequestParameter::GetBackgroundQueuedStatusPolicy),
            (CommandClass::SetCommand, ParameterId::BackgroundQueuedStatusPolicy) => match SetBackgroundQueuedStatusPolicyRequest::decode_parameter_data(buf) {
                Ok(p) => Ok(RequestParameter::SetBackgroundQueuedStatusPolicy(p)),
                Err(e) => Err(e),
            },
            (CommandClass::GetCommand, ParameterId::BackgroundQueuedStatusPolicyDescription) => match GetBackgroundQueuedStatusPolicyDescriptionRequest::decode_parameter_data(buf) {
                Ok(p) => Ok(RequestParameter::GetBackgroundQueuedStatusPolicyDescription(p)),
                Err(e) => Err(e),
            },
            (CommandClass::GetCommand, ParameterId::ComponentScope) => match GetComponentScopeRequest::decode_parameter_data(buf) {
                Ok(p) => Ok(RequestParameter::GetComponentScope(p)),
                Err(e) => Err(e),
            },
            (CommandClass::SetCommand, ParameterId::ComponentScope) => match SetComponentScopeRequest::decode_parameter_data(buf) {
                Ok(p) => Ok(RequestParameter::SetComponentScope(p)),
                Err(e) => Err(e),
            },
            (CommandClass::GetCommand, ParameterId::SearchDomain) => Ok(RequestParameter::GetSearchDomain),
            (CommandClass::SetCommand, ParameterId::SearchDomain) => match SetSearchDomainRequest::decode_parameter_data(buf) {
                Ok(p) => Ok(RequestParameter::SetSearchDomain(p)),
                Err(e) => Err(e),
            },
            (CommandClass::GetCommand, ParameterId::TcpCommsStatus) => Ok(RequestParameter::GetTcpCommsStatus),
            (CommandClass::SetCommand, ParameterId::TcpCommsStatus) => match SetTcpCommsStatusRequest::decode_parameter_data(buf) {
                Ok(p) => Ok(RequestParameter::SetTcpCommsStatus(p)),
                Err(e) => Err(e),
            },
            (CommandClass::GetCommand, ParameterId::BrokerStatus) => Ok(RequestParameter::GetBrokerStatus),
            (CommandClass::SetCommand, ParameterId::BrokerStatus) => match SetBrokerStatusRequest::decode_parameter_data(buf) {
                Ok(p) => Ok(RequestParameter::SetBrokerStatus(p)),
                Err(e) => Err(e),
            },
            _ => {
                let data = match ParameterDataBuffer::from_slice(buf) {
                    Some(d) => d,
                    None => {
                        proof {
                            assert(false);
                        }
                        ParameterDataBuffer::new()
                    },
                };
                Ok(RequestParameter::CustomParameter(CustomRequestParameter {
                    command_class,
                    parameter_id,
                    parameter_data_length: buf.len() as u8,
                    parameter_data: data,
                }))
            },
        }
    }

    /// Parameter data sent with a command class and identifier that name no modeled parameter
    /// decodes to a custom parameter carrying that pair and exactly those bytes.
    #[verifier::spinoff_prover]
    #[verifier::rlimit(100)]
    pub proof fn lemma_unmodeled_pair_decodes_to_custom(command_class: CommandClass, parameter_id: ParameterId, buf: Seq<u8>)
        requires
            !Self::spec_is_modeled(command_class, parameter_id),
            buf.len() <= 231,
        ensures
            Self::spec_decoded(command_class, parameter_id, buf) matches Ok(RequestParameter::CustomParameter(c))
                && c.command_class == command_class
                && c.parameter_id == parameter_id
                && c.parameter_data_length == buf.len()
                && c.spec_data() == buf,
    {
        ParameterDataBuffer::lemma_of_items(buf);
        let d = ParameterDataBuffer::spec_of_items(buf);
        assert(d.spec_items().subrange(0, buf.len() as int) =~= buf);
    }

    /// Decoding the parameter data of an encodable parameter, with its command class and identifier, gives it back.
    #[verifier::spinoff_prover]
    #[verifier::rlimit(100)]
    pub proof fn lemma_roundtrip(self)
        requires
            self.spec_encodable(),
        ensures
            Self::spec_decoded(self.spec_command_class(), self.spec_parameter_id(), self.spec_encoding()) == Ok::<Self, ParameterDataError>(self),
    {
        match self {
            RequestParameter::DiscUniqueBranch(p) => p.lemma_roundtrip(),
            RequestParameter::GetQueuedMessage(p) => p.lemma_roundtrip(),
            RequestParameter::GetStatusMessages(p) => p.lemma_roundtrip(),
            RequestParameter::GetStatusIdDescription(p) => p.lemma_roundtrip(),
            RequestParameter::SetSubDeviceIdStatusReportThreshold(p) => p.lemma_roundtrip(),
            RequestParameter::GetParameterDescription(p) => p.lemma_roundtrip(),
            RequestParameter::SetDeviceLabel(p) => p.lemma_roundtrip(),
            RequestParameter::SetLanguage(p) => p.lemma_roundtrip(),
            RequestParameter::SetDmxPersonality(p) => p.lemma_roundtrip(),
            RequestParameter::GetDmxPersonalityDescription(p) => p.lemma_roundtrip(),
            RequestParameter::SetDmxStartAddress(p) => p.lemma_roundtrip(),
            RequestParameter::GetSlotDescription(p) => p.lemma_roundtrip(),
            RequestParameter::GetSensorDefinition(p) => p.lemma_roundtrip(),
            RequestParameter::GetSensorValue(p) => p.lemma_roundtrip(),
            RequestParameter::SetSensorValue(p) => p.lemma_roundtrip(),
            RequestParameter::SetRecordSensors(p) => p.lemma_roundtrip(),
            RequestParameter::SetDeviceHours(p) => p.lemma_roundtrip(),
            RequestParameter::SetLampHours(p) => p.lemma_roundtrip(),
            RequestParameter::SetLampStrikes(p) => p.lemma_roundtrip(),
            RequestParameter::SetLampState(p) => p.lemma_roundtrip(),
            RequestParameter::SetLampOnMode(p) => p.lemma_roundtrip(),
            RequestParameter::SetDevicePowerCycles(p) => p.lemma_roundtrip(),
            RequestParameter::SetDisplayInvert(p) => p.lemma_roundtrip(),
            RequestParameter::SetDisplayLevel(p) => p.lemma_roundtrip(),
            RequestParameter::SetPanInvert(p) => p.lemma_roundtrip(),
            RequestParameter::SetTiltInvert(p) => p.lemma_roundtrip(),
            RequestParameter::SetPanTiltSwap(p) => p.lemma_roundtrip(),
            RequestParameter::SetRealTimeClock(p) => p.lemma_roundtrip(),
            RequestParameter::SetIdentifyDevice(p) => p.lemma_roundtrip(),
            RequestParameter::SetResetDevice(p) => p.lemma_roundtrip(),
            RequestParameter::SetPowerState(p) => p.lemma_roundtrip(),
            RequestParameter::SetPerformSelfTest(p) => p.lemma_roundtrip(),
            RequestParameter::SetCapturePreset(p) => p.lemma_roundtrip(),
            RequestParameter::GetSelfTestDescription(p) => p.lemma_roundtrip(),
            RequestParameter::SetPresetPlayback(p) => p.lemma_roundtrip(),
            RequestParameter::SetDmxBlockAddress(p) => p.lemma_roundtrip(),
            RequestParameter::SetDmxFailMode(p) => p.lemma_roundtrip(),
            RequestParameter::SetDmxStartupMode(p) => p.lemma_roundtrip(),
            RequestParameter::SetMinimumLevel(p) => p.lemma_roundtrip(),
            RequestParameter::SetMaximumLevel(p) => p.lemma_roundtrip(),
            RequestParameter::GetCurveDescription(p) => p.lemma_roundtrip(),
            RequestParameter::SetOutputResponseTime(p) => p.lemma_roundtrip(),
            RequestParameter::GetOutputResponseTimeDescription(p) => p.lemma_roundtrip(),
            RequestParameter::SetModulationFrequency(p) => p.lemma_roundtrip(),
            RequestParameter::GetModulationFrequencyDescription(p) => p.lemma_roundtrip(),
            RequestParameter::SetPowerOnSelfTest(p) => p.lemma_roundtrip(),
            RequestParameter::SetLockState(p) => p.lemma_roundtrip(),
            RequestParameter::SetLockPin(p) => p.lemma_roundtrip(),
            RequestParameter::SetBurnIn(p) => p.lemma_roundtrip(),
            RequestParameter::SetIdentifyMode(p) => p.lemma_roundtrip(),
            RequestParameter::GetPresetStatus(p) => p.lemma_roundtrip(),
            RequestParameter::SetPresetStatus(p) => p.lemma_roundtrip(),
            RequestParameter::SetPresetMergeMode(p) => p.lemma_roundtrip(),
            RequestParameter::GetInterfaceLabel(p) => p.lemma_roundtrip(),
            RequestParameter::GetInterfaceHardwareAddressType1(p) => p.lemma_roundtrip(),
            RequestParameter::GetIpV4DhcpMode(p) => p.lemma_roundtrip(),
            RequestParameter::SetIpV4DhcpMode(p) => p.lemma_roundtrip(),
            RequestParameter::GetIpV4ZeroConfMode(p) => p.lemma_roundtrip(),
            RequestParameter::SetIpV4ZeroConfMode(p) => p.lemma_roundtrip(),
            RequestParameter::GetIpV4CurrentAddress(p) => p.lemma_roundtrip(),
            RequestParameter::GetIpV4StaticAddress(p) => p.lemma_roundtrip(),
            RequestParameter::SetIpV4StaticAddress(p) => p.lemma_roundtrip(),
            RequestParameter::SetInterfaceApplyConfiguration(p) => p.lemma_roundtrip(),
            RequestParameter::SetInterfaceRenewDhcp(p) => p.lemma_roundtrip(),
            RequestParameter::SetInterfaceReleaseDhcp(p) => p.lemma_roundtrip(),
            RequestParameter::SetIpV4DefaultRoute(p) => p.lemma_roundtrip(),
            RequestParameter::GetDnsIpV4NameServer(p) => p.lemma_roundtrip(),
            RequestParameter::SetDnsIpV4NameServer(p) => p.lemma_roundtrip(),
            RequestParameter::SetDnsHostName(p) => p.lemma_roundtrip(),
            RequestParameter::SetDnsDomainName(p) => p.lemma_roundtrip(),
            RequestParameter::GetIdentifyEndpoint(p) => p.lemma_roundtrip(),
            RequestParameter::SetIdentifyEndpoint(p) => p.lemma_roundtrip(),
            RequestParameter::GetEndpointToUniverse(p) => p.lemma_roundtrip(),
            RequestParameter::SetEndpointToUniverse(p) => p.lemma_roundtrip(),
            RequestParameter::GetEndpointMode(p) => p.lemma_roundtrip(),
            RequestParameter::SetEndpointMode(p) => p.lemma_roundtrip(),
            RequestParameter::GetEndpointLabel(p) => p.lemma_roundtrip(),
            RequestParameter::SetEndpointLabel(p) => p.lemma_roundtrip(),
            RequestParameter::GetRdmTrafficEnable(p) => p.lemma_roundtrip(),
            RequestParameter::SetRdmTrafficEnable(p) => p.lemma_roundtrip(),
            RequestParameter::GetDiscoveryState(p) => p.lemma_roundtrip(),
            RequestParameter::SetDiscoveryState(p) => p.lemma_roundtrip(),
            RequestParameter::GetBackgroundDiscovery(p) => p.lemma_roundtrip(),
            RequestParameter::SetBackgroundDiscovery(p) => p.lemma_roundtrip(),
            RequestParameter::GetEndpointTiming(p) => p.lemma_roundtrip(),
            RequestParameter::SetEndpointTiming(p) => p.lemma_roundtrip(),
            RequestParameter::GetEndpointTimingDescription(p) => p.lemma_roundtrip(),
            RequestParameter::GetEndpointResponders(p) => p.lemma_roundtrip(),
            RequestParameter::GetEndpointResponderListChange(p) => p.lemma_roundtrip(),
            RequestParameter::GetBindingControlFields(p) => p.lemma_roundtrip(),
            RequestParameter::SetBackgroundQueuedStatusPolicy(p) => p.lemma_roundtrip(),
            RequestParameter::GetBackgroundQueuedStatusPolicyDescription(p) => p.lemma_roundtrip(),
            RequestParameter::GetComponentScope(p) => p.lemma_roundtrip(),
            RequestParameter::SetComponentScope(p) => p.lemma_roundtrip(),
            RequestParameter::SetSearchDomain(p) => p.lemma_roundtrip(),
            RequestParameter::SetTcpCommsStatus(p) => p.lemma_roundtrip(),
            RequestParameter::SetBrokerStatus(p) => p.lemma_roundtrip(),
            RequestParameter::CustomParameter(c) => c.lemma_data_roundtrip(),
            _ => {},
        }
    }
}

/// A request parameter that the library does not model: its command class, identifier and raw data.
#[derive(Clone, Copy, Debug, PartialEq)]
pub struct CustomRequestParameter {
    pub command_class: CommandClass,
    pub parameter_id: ParameterId,
    pub parameter_data_length: u8,
    pub parameter_data: ParameterDataBuffer,
}

impl CustomRequestParameter {
    /// Whether the stated length is within the data held.
    pub open spec fn spec_length_fits(self) -> bool {
        self.parameter_data_length <= self.parameter_data.spec_items().len()
    }

    /// The parameter data: the first `parameter_data_length` bytes held.
    pub open spec fn spec_data(self) -> Seq<u8> {
        self.parameter_data.spec_items().subrange(0, self.parameter_data_length as int)
    }

    /// Whether decoding the data, with the command class and identifier, gives the parameter back:
    /// the length is that of the data, and the pair names no modeled parameter.
    pub open spec fn spec_encodable(self) -> bool {
        &&& self.parameter_data.wf()
        &&& self.parameter_data_length == self.parameter_data.spec_items().len()
        &&& !RequestParameter::spec_is_modeled(self.command_class, self.parameter_id)
    }

    /// Appends the parameter data to `out`.
    pub fn write_data(&self, out: &mut Vec<u8>)
        requires
            self.spec_length_fits(),
        ensures
            final(out)@ == old(out)@ + self.spec_data(),
    {
        let d = self.parameter_data.as_slice();
        extend_from(out, vstd::slice::slice_subrange(d, 0, self.parameter_data_length as usize));
    }

    /// The data of an encodable parameter makes up its buffer again.
    pub proof fn lemma_data_roundtrip(self)
        requires
            self.spec_encodable(),
        ensures
            ParameterDataBuffer::spec_of_items(self.spec_data()) == self.parameter_data,
            self.spec_data().len() as u8 == self.parameter_data_length,
    {
        assert(self.spec_data() =~= self.parameter_data.spec_items());
        ParameterDataBuffer::lemma_of_own_items(self.parameter_data);
    }
}

/// An RDM request frame.
#[derive(Clone, Copy, Debug, PartialEq)]
pub struct RdmRequest<'a> {
    pub destination_uid: DeviceUID,
    pub source_uid: DeviceUID,
    pub transaction_number: u8,
    pub port_id: u8,
    pub sub_device_id: SubDeviceId,
    pub parameter: RequestParameter<'a>,
}

/// The header of a request frame whose parameter data is `pd`.
pub open spec fn spec_request_header(
    destination_uid: DeviceUID,
    source_uid: DeviceUID,
    transaction_number: u8,
    port_id: u8,
    sub_device_id: SubDeviceId,
    command_class: CommandClass,
    parameter_id: ParameterId,
    pd: Seq<u8>,
) -> Seq<u8> {
    seq![RDM_START_CODE_BYTE, RDM_SUB_START_CODE_BYTE, (24 + pd.len()) as u8]
        + destination_uid.spec_wire() + source_uid.spec_wire()
        + seq![transaction_number, port_id, 0u8]
        + sub_device_id.spec_wire() + command_class.spec_wire() + parameter_id.spec_wire()
        + seq![pd.len() as u8]
}

/// A frame: its bytes followed by their checksum.
pub open spec fn spec_with_checksum(body: Seq<u8>) -> Seq<u8> {
    body + be16(checksum_spec(body) as u16)
}

impl<'a> RdmRequest<'a> {
    pub fn new(
        destination_uid: DeviceUID,
        source_uid: DeviceUID,
        transaction_number: u8,
        port_id: u8,
        sub_device_id: SubDeviceId,
        parameter: RequestParameter<'a>,
    ) -> (r: Self)
        ensures
            r == (RdmRequest { destination_uid, source_uid, transaction_number, port_id, sub_device_id, parameter }),
    {
        RdmRequest { destination_uid, source_uid, transaction_number, port_id, sub_device_id, parameter }
    }

    /// The bytes of the frame.
    pub open spec fn spec_encode(self) -> Seq<u8> {
        let pd = self.parameter.spec_encoding();
        spec_with_checksum(
            spec_request_header(
                self.destination_uid,
                self.source_uid,
                self.transaction_number,
                self.port_id,
                self.sub_device_id,
                self.parameter.spec_command_class(),
                self.parameter.spec_parameter_id(),
                pd,
            ) + pd,
        )
    }

    /// The number of bytes of parameter data that the frame carries.
    pub open spec fn spec_parameter_data_length(self) -> int {
        match self.parameter {
            RequestParameter::CustomParameter(c) => c.parameter_data_length as int,
            _ => self.parameter.spec_encoding().len() as int,
        }
    }

    pub fn command_class(&self) -> (r: CommandClass)
        ensures
            r == self.parameter.spec_command_class(),
    {
        self.parameter.command_class()
    }

    pub fn parameter_id(&self) -> (r: ParameterId)
        ensures
            r == self.parameter.spec_parameter_id(),
    {
        self.parameter.parameter_id()
    }

    /// The size of the frame: 24 bytes of header, the parameter data and 2 bytes of checksum.
    pub fn size(&self) -> (n: usize)
        ensures
            n == 26 + self.spec_parameter_data_length(),
    {
        26 + self.parameter.size()
    }

    /// Writes the frame at the start of `buf` and returns its size.
    pub fn encode(&self, buf: &mut [u8]) -> (r: Result<usize, RdmError>)
        requires
            old(buf)@.len() >= 24,
            self.parameter matches RequestParameter::CustomParameter(c) ==> c.spec_length_fits()
                && old(buf)@.len() >= 24 + c.parameter_data_length,
            !(24 + self.spec_parameter_data_length() <= old(buf)@.len() < 26 + self.spec_parameter_data_length()),
        ensures
            old(buf)@.len() < 24 + self.spec_parameter_data_length() ==> r == Err::<usize, RdmError>(
                RdmError::ParameterData(ParameterDataError::BufferTooSmall {
                    provided: (old(buf)@.len() - 24) as usize,
                    required: self.spec_parameter_data_length() as usize,
                }),
            ) && final(buf)@ == old(buf)@.update(0, RDM_START_CODE_BYTE).update(1, RDM_SUB_START_CODE_BYTE),
            old(buf)@.len() >= 26 + self.spec_parameter_data_length() ==> r == Ok::<usize, RdmError>(
                (26 + self.spec_parameter_data_length()) as usize,
            ) && final(buf)@ == written_prefix(old(buf)@, self.spec_encode()),
    {
        buf[0] = RDM_START_CODE_BYTE;
        buf[1] = RDM_SUB_START_CODE_BYTE;
        let pdl = self.parameter.size();
        if buf.len() - 24 < pdl {
            return Err(RdmError::ParameterData(ParameterDataError::BufferTooSmall { provided: buf.len() - 24, required: pdl }));
        }
        let mut out: Vec<u8> = Vec::new();
        out.push(RDM_START_CODE_BYTE);
        out.push(RDM_SUB_START_CODE_BYTE);
        out.push((24 + pdl) as u8);
        self.destination_uid.write_wire(&mut out);
        self.source_uid.write_wire(&mut out);
        out.push(self.transaction_number);
        out.push(self.port_id);
        out.push(0u8);
        self.sub_device_id.write_wire(&mut out);
        self.parameter.command_class().write_wire(&mut out);
        self.parameter.parameter_id().write_wire(&mut out);
        out.push(pdl as u8);
        let ghost header = out@;
        self.parameter.write_to(&mut out);
        let ghost body = out@;
        let crc = bsd_16_crc(out.as_slice());
        crc.write_wire(&mut out);
        proof {
            let pd = self.parameter.spec_encoding();
            assert(header =~= spec_request_header(
                self.destination_uid,
                self.source_uid,
                self.transaction_number,
                self.port_id,
                self.sub_device_id,
                self.parameter.spec_command_class(),
                self.parameter.spec_parameter_id(),
                pd,
            ));
            assert(body =~= header + pd);
            assert(out@ =~= body + be16(crc));
            match self.parameter {
                RequestParameter::CustomParameter(c) => {
                    assert(c.spec_data().len() == c.parameter_data_length);
                },
                _ => {},
            }
            assert(pd.len() == pdl);
            assert(out@ =~= self.spec_encode());
        }
        write_prefix(buf, out.as_slice());
        proof {
            assert(buf@ =~= written_prefix(old(buf)@, self.spec_encode()));
        }
        Ok(out.len())
    }
}

/// The request that the bytes of a frame stand for, or why they stand for none.
pub open spec fn spec_decode_request<'a>(bytes: Seq<u8>) -> Result<RdmRequest<'a>, RdmError> {
    if bytes.len() < 24 {
        Err(RdmError::InvalidMessageLength(bytes.len() as u8))
    } else {
        match CommandClass::spec_try_from_u8(bytes[20]) {
            Err(e) => Err(e),
            Ok(command_class) => {
                let pdl = bytes[23] as int;
                if bytes.len() < 24 + pdl {
                    Err(RdmError::InvalidFrameLength(bytes.len() as u8))
                } else {
                    let parameter_id = ParameterId::spec_read(bytes.subrange(21, 23)).unwrap();
                    match RequestParameter::spec_decoded(command_class, parameter_id, bytes.subrange(24, 24 + pdl)) {
                        Err(e) => Err(RdmError::ParameterData(e)),
                        Ok(parameter) => Ok(RdmRequest {
                            destination_uid: DeviceUID::spec_read(bytes.subrange(3, 9)).unwrap(),
                            source_uid: DeviceUID::spec_read(bytes.subrange(9, 15)).unwrap(),
                            transaction_number: bytes[15],
                            port_id: bytes[16],
                            sub_device_id: SubDeviceId::spec_read(bytes.subrange(18, 20)).unwrap(),
                            parameter,
                        }),
                    }
                }
            },
        }
    }
}

/// Whether decoding the frame would hold more than 231 bytes of data of a parameter that is not modeled.
pub open spec fn spec_request_data_too_long(bytes: Seq<u8>) -> bool {
    &&& bytes.len() >= 24
    &&& CommandClass::spec_try_from_u8(bytes[20]) is Ok
    &&& bytes.len() >= 24 + bytes[23]
    &&& bytes[23] > 231
    &&& !RequestParameter::spec_is_modeled(
        CommandClass::spec_try_from_u8(bytes[20])->Ok_0,
        ParameterId::spec_read(bytes.subrange(21, 23)).unwrap(),
    )
}

impl<'a> RdmRequest<'a> {
    /// Reads a request frame. The start code and checksum are not checked.
    pub fn decode(bytes: &'a [u8]) -> (r: Result<Self, RdmError>)
        requires
            !spec_request_data_too_long(bytes@),
        ensures
            r == spec_decode_request::<'a>(bytes@),
    {
        if bytes.len() < 24 {
            return Err(RdmError::InvalidMessageLength(bytes.len() as u8));
        }
        let destination_uid = match DeviceUID::read_wire(bytes, 3) {
            Some(u) => u,
            None => return Err(RdmError::MalformedPacket),
        };
        let source_uid = match DeviceUID::read_wire(bytes, 9) {
            Some(u) => u,
            None => return Err(RdmError::MalformedPacket),
        };
        let transaction_number = bytes[15];
        let port_id = bytes[16];
        let sub_device_id = match SubDeviceId::read_wire(bytes, 18) {
            Some(s) => s,
            None => return Err(RdmError::MalformedPacket),
        };
        let command_class = match CommandClass::try_from_u8(bytes[20]) {
            Ok(c) => c,
            Err(e) => return Err(e),
        };
        let parameter_id = match ParameterId::read_wire(bytes, 21) {
            Some(p) => p,
            None => return Err(RdmError::MalformedPacket),
        };
        let pdl = bytes[23] as usize;
        if bytes.len() < 24 + pdl {
            return Err(RdmError::InvalidFrameLength(bytes.len() as u8));
        }
        let data = vstd::slice::slice_subrange(bytes, 24, 24 + pdl);
        match RequestParameter::decode(command_class, parameter_id, data) {
            Ok(parameter) => Ok(RdmRequest { destination_uid, source_uid, transaction_number, port_id, sub_device_id, parameter }),
            Err(e) => Err(RdmError::ParameterData(e)),
        }
    }
}

/// Decoding the frame of a request gives the request back, when its parameter is encodable,
/// its identifier encodes to the value it decodes from, and its data fits in a frame.
#[verifier::spinoff_prover]
#[verifier::rlimit(100)]
pub proof fn lemma_request_roundtrip<'a>(request: RdmRequest<'a>)
    requires
        request.parameter.spec_encodable(),
        request.parameter.spec_parameter_id().spec_wire_valid(),
        request.sub_device_id.spec_wire_valid(),
        request.parameter.spec_encoding().len() <= 231,
    ensures
        spec_decode_request::<'a>(request.spec_encode()) == Ok::<RdmRequest<'a>, RdmError>(request),
{
    let p = request.parameter;
    let pd = p.spec_encoding();
    let e = request.spec_encode();
    request.destination_uid.lemma_wire();
    request.source_uid.lemma_wire();
    request.sub_device_id.lemma_wire();
    p.spec_command_class().lemma_wire();
    p.spec_parameter_id().lemma_wire();
    p.spec_command_class().lemma_encode_decode();
    p.spec_parameter_id().lemma_encode_decode();
    request.sub_device_id.lemma_encode_decode();
    p.lemma_roundtrip();
    assert(e.subrange(24, 24 + pd.len() as int) =~= pd);
    assert(e.subrange(3, 9) =~= request.destination_uid.spec_wire());
    assert(e.subrange(9, 15) =~= request.source_uid.spec_wire());
    assert(e.subrange(18, 20) =~= request.sub_device_id.spec_wire());
    assert(e.subrange(21, 23) =~= p.spec_parameter_id().spec_wire());
    assert(e.subrange(20, 21) =~= p.spec_command_class().spec_wire());
    assert(e[23] == pd.len() as u8);
}

impl<'a> RequestParameter<'a> {
    /// The command class and parameter identifier that each request parameter is sent with: a get
    /// of a parameter goes out as a GET command for that parameter's identifier, a set as a SET
    /// command, and discovery as a discovery command.
    #[verifier::spinoff_prover]
    #[verifier::rlimit(100)]
    pub proof fn lemma_class_and_identifier_table()
        ensures
            forall|p: DiscUniqueBranchRequest| #![auto] RequestParameter::DiscUniqueBranch(p).spec_command_class() == CommandClass::DiscoveryCommand && RequestParameter::DiscUniqueBranch(p).spec_parameter_id() == ParameterId::DiscUniqueBranch,
            RequestParameter::DiscMute.spec_command_class() == CommandClass::DiscoveryCommand && RequestParameter::DiscMute.spec_parameter_id() == ParameterId::DiscMute,
            RequestParameter::DiscUnMute.spec_command_class() == CommandClass::DiscoveryCommand && RequestParameter::DiscUnMute.spec_parameter_id() == ParameterId::DiscUnMute,
            RequestParameter::GetCommsStatus.spec_command_class() == CommandClass::GetCommand && RequestParameter::GetCommsStatus.spec_parameter_id() == ParameterId::CommsStatus,
            RequestParameter::SetCommsStatus.spec_command_class() == CommandClass::SetCommand && RequestParameter::SetCommsStatus.spec_parameter_id() == ParameterId::CommsStatus,
            forall|p: GetQueuedMessageRequest| #![auto] RequestParameter::GetQueuedMessage(p).spec_command_class() == CommandClass::GetCommand && RequestParameter::GetQueuedMessage(p).spec_parameter_id() == ParameterId::QueuedMessage,
            forall|p: GetStatusMessagesRequest| #![auto] RequestParameter::GetStatusMessages(p).spec_command_class() == CommandClass::GetCommand && RequestParameter::GetStatusMessages(p).spec_parameter_id() == ParameterId::StatusMessages,
            forall|p: GetStatusIdDescriptionRequest| #![auto] RequestParameter::GetStatusIdDescription(p).spec_command_class() == CommandClass::GetCommand && RequestParameter::GetStatusIdDescription(p).spec_parameter_id() == ParameterId::StatusIdDescription,
            RequestParameter::SetClearStatusId.spec_command_class() == CommandClass::SetCommand && RequestParameter::SetClearStatusId.spec_parameter_id() == ParameterId::ClearStatusId,
            RequestParameter::GetSubDeviceIdStatusReportThreshold.spec_command_class() == CommandClass::GetCommand && RequestParameter::GetSubDeviceIdStatusReportThreshold.spec_parameter_id() == ParameterId::SubDeviceIdStatusReportThreshold,
            forall|p: SetSubDeviceIdStatusReportThresholdRequest| #![auto] RequestParameter::SetSubDeviceIdStatusReportThreshold(p).spec_command_class() == CommandClass::SetCommand && RequestParameter::SetSubDeviceIdStatusReportThreshold(p).spec_parameter_id() == ParameterId::SubDeviceIdStatusReportThreshold,
            RequestParameter::GetSupportedParameters.spec_command_class() == CommandClass::GetCommand && RequestParameter::GetSupportedParameters.spec_parameter_id() == ParameterId::SupportedParameters,
            forall|p: GetParameterDescriptionRequest| #![auto] RequestParameter::GetParameterDescription(p).spec_command_class() == CommandClass::GetCommand && RequestParameter::GetParameterDescription(p).spec_parameter_id() == ParameterId::ParameterDescription,
            RequestParameter::GetDeviceInfo.spec_command_class() == CommandClass::GetCommand && RequestParameter::GetDeviceInfo.spec_parameter_id() == ParameterId::DeviceInfo,
            RequestParameter::GetProductDetailIdList.spec_command_class() == CommandClass::GetCommand && RequestParameter::GetProductDetailIdList.spec_parameter_id() == ParameterId::ProductDetailIdList,
            RequestParameter::GetDeviceModelDescription.spec_command_class() == CommandClass::GetCommand && RequestParameter::GetDeviceModelDescription.spec_parameter_id() == ParameterId::DeviceModelDescription,
            RequestParameter::GetManufacturerLabel.spec_command_class() == CommandClass::GetCommand && RequestParameter::GetManufacturerLabel.spec_parameter_id() == ParameterId::ManufacturerLabel,
            RequestParameter::GetDeviceLabel.spec_command_class() == CommandClass::GetCommand && RequestParameter::GetDeviceLabel.spec_parameter_id() == ParameterId::DeviceLabel,
            forall|p: SetDeviceLabelRequest| #![auto] RequestParameter::SetDeviceLabel(p).spec_command_class() == CommandClass::SetCommand && RequestParameter::SetDeviceLabel(p).spec_parameter_id() == ParameterId::DeviceLabel,
            RequestParameter::GetFactoryDefaults.spec_command_class() == CommandClass::GetCommand && RequestParameter::GetFactoryDefaults.spec_parameter_id() == ParameterId::FactoryDefaults,
            RequestParameter::SetFactoryDefaults.spec_command_class() == CommandClass::SetCommand && RequestParameter::SetFactoryDefaults.spec_parameter_id() == ParameterId::FactoryDefaults,
            RequestParameter::GetLanguageCapabilities.spec_command_class() == CommandClass::GetCommand && RequestParameter::GetLanguageCapabilities.spec_parameter_id() == ParameterId::LanguageCapabilities,
            RequestParameter::GetLanguage.spec_command_class() == CommandClass::GetCommand && RequestParameter::GetLanguage.spec_parameter_id() == ParameterId::Language,
            forall|p: SetLanguageRequest<'a>| #![auto] RequestParameter::SetLanguage(p).spec_command_class() == CommandClass::SetCommand && RequestParameter::SetLanguage(p).spec_parameter_id() == ParameterId::Language,
            RequestParameter::GetSoftwareVersionLabel.spec_command_class() == CommandClass::GetCommand && RequestParameter::GetSoftwareVersionLabel.spec_parameter_id() == ParameterId::SoftwareVersionLabel,
            RequestParameter::GetBootSoftwareVersionId.spec_command_class() == CommandClass::GetCommand && RequestParameter::GetBootSoftwareVersionId.spec_parameter_id() == ParameterId::BootSoftwareVersionId,
            RequestParameter::GetBootSoftwareVersionLabel.spec_command_class() == CommandClass::GetCommand && RequestParameter::GetBootSoftwareVersionLabel.spec_parameter_id() == ParameterId::BootSoftwareVersionLabel,
            RequestParameter::GetDmxPersonality.spec_command_class() == CommandClass::GetCommand && RequestParameter::GetDmxPersonality.spec_parameter_id() == ParameterId::DmxPersonality,
            forall|p: SetDmxPersonalityRequest| #![auto] RequestParameter::SetDmxPersonality(p).spec_command_class() == CommandClass::SetCommand && RequestParameter::SetDmxPersonality(p).spec_parameter_id() == ParameterId::DmxPersonality,
            forall|p: GetDmxPersonalityDescriptionRequest| #![auto] RequestParameter::GetDmxPersonalityDescription(p).spec_command_class() == CommandClass::GetCommand && RequestParameter::GetDmxPersonalityDescription(p).spec_parameter_id() == ParameterId::DmxPersonalityDescription,
            RequestParameter::GetDmxStartAddress.spec_command_class() == CommandClass::GetCommand && RequestParameter::GetDmxStartAddress.spec_parameter_id() == ParameterId::DmxStartAddress,
            forall|p: SetDmxStartAddressRequest| #![auto] RequestParameter::SetDmxStartAddress(p).spec_command_class() == CommandClass::SetCommand && RequestParameter::SetDmxStartAddress(p).spec_parameter_id() == ParameterId::DmxStartAddress,
            RequestParameter::GetSlotInfo.spec_command_class() == CommandClass::GetCommand && RequestParameter::GetSlotInfo.spec_parameter_id() == ParameterId::SlotInfo,
            forall|p: GetSlotDescriptionRequest| #![auto] RequestParameter::GetSlotDescription(p).spec_command_class() == CommandClass::GetCommand && RequestParameter::GetSlotDescription(p).spec_parameter_id() == ParameterId::SlotDescription,
            RequestParameter::GetDefaultSlotValue.spec_command_class() == CommandClass::GetCommand && RequestParameter::GetDefaultSlotValue.spec_parameter_id() == ParameterId::DefaultSlotValue,
            forall|p: GetSensorDefinitionRequest| #![auto] RequestParameter::GetSensorDefinition(p).spec_command_class() == CommandClass::GetCommand && RequestParameter::GetSensorDefinition(p).spec_parameter_id() == ParameterId::SensorDefinition,
            forall|p: GetSensorValueRequest| #![auto] RequestParameter::GetSensorValue(p).spec_command_class() == CommandClass::GetCommand && RequestParameter::GetSensorValue(p).spec_parameter_id() == ParameterId::SensorValue,
            forall|p: SetSensorValueRequest| #![auto] RequestParameter::SetSensorValue(p).spec_command_class() == CommandClass::SetCommand && RequestParameter::SetSensorValue(p).spec_parameter_id() == ParameterId::SensorValue,
            forall|p: SetRecordSensorsRequest| #![auto] RequestParameter::SetRecordSensors(p).spec_command_class() == CommandClass::SetCommand && RequestParameter::SetRecordSensors(p).spec_parameter_id() == ParameterId::RecordSensors,
            RequestParameter::GetDeviceHours.spec_command_class() == CommandClass::GetCommand && RequestParameter::GetDeviceHours.spec_parameter_id() == ParameterId::DeviceHours,
            forall|p: SetDeviceHoursRequest| #![auto] RequestParameter::SetDeviceHours(p).spec_command_class() == CommandClass::SetCommand && RequestParameter::SetDeviceHours(p).spec_parameter_id() == ParameterId::DeviceHours,
    {
    }

    /// The command class and parameter identifier of further request parameters, as above.
    #[verifier::spinoff_prover]
    #[verifier::rlimit(100)]
    pub proof fn lemma_class_and_identifier_table_2()
        ensures
            RequestParameter::GetLampHours.spec_command_class() == CommandClass::GetCommand && RequestParameter::GetLampHours.spec_parameter_id() == ParameterId::LampHours,
            forall|p: SetLampHoursRequest| #![auto] RequestParameter::SetLampHours(p).spec_command_class() == CommandClass::SetCommand && RequestParameter::SetLampHours(p).spec_parameter_id() == ParameterId::LampHours,
            RequestParameter::GetLampStrikes.spec_command_class() == CommandClass::GetCommand && RequestParameter::GetLampStrikes.spec_parameter_id() == ParameterId::LampStrikes,
            forall|p: SetLampStrikesRequest| #![auto] RequestParameter::SetLampStrikes(p).spec_command_class() == CommandClass::SetCommand && RequestParameter::SetLampStrikes(p).spec_parameter_id() == ParameterId::LampStrikes,
            RequestParameter::GetLampState.spec_command_class() == CommandClass::GetCommand && RequestParameter::GetLampState.spec_parameter_id() == ParameterId::LampState,
            forall|p: SetLampStateRequest| #![auto] RequestParameter::SetLampState(p).spec_command_class() == CommandClass::SetCommand && RequestParameter::SetLampState(p).spec_parameter_id() == ParameterId::LampState,
            RequestParameter::GetLampOnMode.spec_command_class() == CommandClass::GetCommand && RequestParameter::GetLampOnMode.spec_parameter_id() == ParameterId::LampOnMode,
            forall|p: SetLampOnModeRequest| #![auto] RequestParameter::SetLampOnMode(p).spec_command_class() == CommandClass::SetCommand && RequestParameter::SetLampOnMode(p).spec_parameter_id() == ParameterId::LampOnMode,
            RequestParameter::GetDevicePowerCycles.spec_command_class() == CommandClass::GetCommand && RequestParameter::GetDevicePowerCycles.spec_parameter_id() == ParameterId::DevicePowerCycles,
            forall|p: SetDevicePowerCyclesRequest| #![auto] RequestParameter::SetDevicePowerCycles(p).spec_command_class() == CommandClass::SetCommand && RequestParameter::SetDevicePowerCycles(p).spec_parameter_id() == ParameterId::DevicePowerCycles,
            RequestParameter::GetDisplayInvert.spec_command_class() == CommandClass::GetCommand && RequestParameter::GetDisplayInvert.spec_parameter_id() == ParameterId::DisplayInvert,
            forall|p: SetDisplayInvertRequest| #![auto] RequestParameter::SetDisplayInvert(p).spec_command_class() == CommandClass::SetCommand && RequestParameter::SetDisplayInvert(p).spec_parameter_id() == ParameterId::DisplayInvert,
            RequestParameter::GetDisplayLevel.spec_command_class() == CommandClass::GetCommand && RequestParameter::GetDisplayLevel.spec_parameter_id() == ParameterId::DisplayLevel,
            forall|p: SetDisplayLevelRequest| #![auto] RequestParameter::SetDisplayLevel(p).spec_command_class() == CommandClass::SetCommand && RequestParameter::SetDisplayLevel(p).spec_parameter_id() == ParameterId::DisplayLevel,
            RequestParameter::GetPanInvert.spec_command_class() == CommandClass::GetCommand && RequestParameter::GetPanInvert.spec_parameter_id() == ParameterId::PanInvert,
            forall|p: SetPanInvertRequest| #![auto] RequestParameter::SetPanInvert(p).spec_command_class() == CommandClass::SetCommand && RequestParameter::SetPanInvert(p).spec_parameter_id() == ParameterId::PanInvert,
            RequestParameter::GetTiltInvert.spec_command_class() == CommandClass::GetCommand && RequestParameter::GetTiltInvert.spec_parameter_id() == ParameterId::TiltInvert,
            forall|p: SetTiltInvertRequest| #![auto] RequestParameter::SetTiltInvert(p).spec_command_class() == CommandClass::SetCommand && RequestParameter::SetTiltInvert(p).spec_parameter_id() == ParameterId::TiltInvert,
            RequestParameter::GetPanTiltSwap.spec_command_class() == CommandClass::GetCommand && RequestParameter::GetPanTiltSwap.spec_parameter_id() == ParameterId::PanTiltSwap,
            forall|p: SetPanTiltSwapRequest| #![auto] RequestParameter::SetPanTiltSwap(p).spec_command_class() == CommandClass::SetCommand && RequestParameter::SetPanTiltSwap(p).spec_parameter_id() == ParameterId::PanTiltSwap,
            RequestParameter::GetRealTimeClock.spec_command_class() == CommandClass::GetCommand && RequestParameter::GetRealTimeClock.spec_parameter_id() == ParameterId::RealTimeClock,
            forall|p: SetRealTimeClockRequest| #![auto] RequestParameter::SetRealTimeClock(p).spec_command_class() == CommandClass::SetCommand && RequestParameter::SetRealTimeClock(p).spec_parameter_id() == ParameterId::RealTimeClock,
            RequestParameter::GetIdentifyDevice.spec_command_class() == CommandClass::GetCommand && RequestParameter::GetIdentifyDevice.spec_parameter_id() == ParameterId::IdentifyDevice,
            forall|p: SetIdentifyDeviceRequest| #![auto] RequestParameter::SetIdentifyDevice(p).spec_command_class() == CommandClass::SetCommand && RequestParameter::SetIdentifyDevice(p).spec_parameter_id() == ParameterId::IdentifyDevice,
            forall|p: SetResetDeviceRequest| #![auto] RequestParameter::SetResetDevice(p).spec_command_class() == CommandClass::SetCommand && RequestParameter::SetResetDevice(p).spec_parameter_id() == ParameterId::ResetDevice,
            RequestParameter::GetPowerState.spec_command_class() == CommandClass::GetCommand && RequestParameter::GetPowerState.spec_parameter_id() == ParameterId::PowerState,
            forall|p: SetPowerStateRequest| #![auto] RequestParameter::SetPowerState(p).spec_command_class() == CommandClass::SetCommand && RequestParameter::SetPowerState(p).spec_parameter_id() == ParameterId::PowerState,
            RequestParameter::GetPerformSelfTest.spec_command_class() == CommandClass::GetCommand && RequestParameter::GetPerformSelfTest.spec_parameter_id() == ParameterId::PerformSelfTest,
            forall|p: SetPerformSelfTestRequest| #![auto] RequestParameter::SetPerformSelfTest(p).spec_command_class() == CommandClass::SetCommand && RequestParameter::SetPerformSelfTest(p).spec_parameter_id() == ParameterId::PerformSelfTest,
            forall|p: SetCapturePresetRequest| #![auto] RequestParameter::SetCapturePreset(p).spec_command_class() == CommandClass::SetCommand && RequestParameter::SetCapturePreset(p).spec_parameter_id() == ParameterId::CapturePreset,
            forall|p: GetSelfTestDescriptionRequest| #![auto] RequestParameter::GetSelfTestDescription(p).spec_command_class() == CommandClass::GetCommand && RequestParameter::GetSelfTestDescription(p).spec_parameter_id() == ParameterId::SelfTestDescription,
            RequestParameter::GetPresetPlayback.spec_command_class() == CommandClass::GetCommand && RequestParameter::GetPresetPlayback.spec_parameter_id() == ParameterId::PresetPlayback,
            forall|p: SetPresetPlaybackRequest| #![auto] RequestParameter::SetPresetPlayback(p).spec_command_class() == CommandClass::SetCommand && RequestParameter::SetPresetPlayback(p).spec_parameter_id() == ParameterId::PresetPlayback,
            RequestParameter::GetDmxBlockAddress.spec_command_class() == CommandClass::GetCommand && RequestParameter::GetDmxBlockAddress.spec_parameter_id() == ParameterId::DmxBlockAddress,
            forall|p: SetDmxBlockAddressRequest| #![auto] RequestParameter::SetDmxBlockAddress(p).spec_command_class() == CommandClass::SetCommand && RequestParameter::SetDmxBlockAddress(p).spec_parameter_id() == ParameterId::DmxBlockAddress,
            RequestParameter::GetDmxFailMode.spec_command_class() == CommandClass::GetCommand && RequestParameter::GetDmxFailMode.spec_parameter_id() == ParameterId::DmxFailMode,
            forall|p: SetDmxFailModeRequest| #![auto] RequestParameter::SetDmxFailMode(p).spec_command_class() == CommandClass::SetCommand && RequestParameter::SetDmxFailMode(p).spec_parameter_id() == ParameterId::DmxFailMode,
            RequestParameter::GetDmxStartupMode.spec_command_class() == CommandClass::GetCommand && RequestParameter::GetDmxStartupMode.spec_parameter_id() == ParameterId::DmxStartupMode,
            forall|p: SetDmxStartupModeRequest| #![auto] RequestParameter::SetDmxStartupMode(p).spec_command_class() == CommandClass::SetCommand && RequestParameter::SetDmxStartupMode(p).spec_parameter_id() == ParameterId::DmxStartupMode,
            RequestParameter::GetDimmerInfo.spec_command_class() == CommandClass::GetCommand && RequestParameter::GetDimmerInfo.spec_parameter_id() == ParameterId::DimmerInfo,
            RequestParameter::GetMinimumLevel.spec_command_class() == CommandClass::GetCommand && RequestParameter::GetMinimumLevel.spec_parameter_id() == ParameterId::MinimumLevel,
    {
    }

    /// The command class and parameter identifier of further request parameters, as above.
    #[verifier::spinoff_prover]
    #[verifier::rlimit(100)]
    pub proof fn lemma_class_and_identifier_table_3()
        ensures
            forall|p: SetMinimumLevelRequest| #![auto] RequestParameter::SetMinimumLevel(p).spec_command_class() == CommandClass::SetCommand && RequestParameter::SetMinimumLevel(p).spec_parameter_id() == ParameterId::MinimumLevel,
            RequestParameter::GetMaximumLevel.spec_command_class() == CommandClass::GetCommand && RequestParameter::GetMaximumLevel.spec_parameter_id() == ParameterId::MaximumLevel,
            forall|p: SetMaximumLevelRequest| #![auto] RequestParameter::SetMaximumLevel(p).spec_command_class() == CommandClass::SetCommand && RequestParameter::SetMaximumLevel(p).spec_parameter_id() == ParameterId::MaximumLevel,
            RequestParameter::GetCurve.spec_command_class() == CommandClass::GetCommand && RequestParameter::GetCurve.spec_parameter_id() == ParameterId::Curve,
            RequestParameter::SetCurve.spec_command_class() == CommandClass::SetCommand && RequestParameter::SetCurve.spec_parameter_id() == ParameterId::Curve,
            forall|p: GetCurveDescriptionRequest| #![auto] RequestParameter::GetCurveDescription(p).spec_command_class() == CommandClass::GetCommand && RequestParameter::GetCurveDescription(p).spec_parameter_id() == ParameterId::CurveDescription,
            RequestParameter::GetOutputResponseTime.spec_command_class() == CommandClass::GetCommand && RequestParameter::GetOutputResponseTime.spec_parameter_id() == ParameterId::OutputResponseTime,
            forall|p: SetOutputResponseTimeRequest| #![auto] RequestParameter::SetOutputResponseTime(p).spec_command_class() == CommandClass::SetCommand && RequestParameter::SetOutputResponseTime(p).spec_parameter_id() == ParameterId::OutputResponseTime,
            forall|p: GetOutputResponseTimeDescriptionRequest| #![auto] RequestParameter::GetOutputResponseTimeDescription(p).spec_command_class() == CommandClass::GetCommand && RequestParameter::GetOutputResponseTimeDescription(p).spec_parameter_id() == ParameterId::OutputResponseTimeDescription,
            RequestParameter::GetModulationFrequency.spec_command_class() == CommandClass::GetCommand && RequestParameter::GetModulationFrequency.spec_parameter_id() == ParameterId::ModulationFrequency,
            forall|p: SetModulationFrequencyRequest| #![auto] RequestParameter::SetModulationFrequency(p).spec_command_class() == CommandClass::SetCommand && RequestParameter::SetModulationFrequency(p).spec_parameter_id() == ParameterId::ModulationFrequency,
            forall|p: GetModulationFrequencyDescriptionRequest| #![auto] RequestParameter::GetModulationFrequencyDescription(p).spec_command_class() == CommandClass::GetCommand && RequestParameter::GetModulationFrequencyDescription(p).spec_parameter_id() == ParameterId::ModulationFrequencyDescription,
            RequestParameter::GetPowerOnSelfTest.spec_command_class() == CommandClass::GetCommand && RequestParameter::GetPowerOnSelfTest.spec_parameter_id() == ParameterId::PowerOnSelfTest,
            forall|p: SetPowerOnSelfTestRequest| #![auto] RequestParameter::SetPowerOnSelfTest(p).spec_command_class() == CommandClass::SetCommand && RequestParameter::SetPowerOnSelfTest(p).spec_parameter_id() == ParameterId::PowerOnSelfTest,
            RequestParameter::GetLockState.spec_command_class() == CommandClass::GetCommand && RequestParameter::GetLockState.spec_parameter_id() == ParameterId::LockState,
            forall|p: SetLockStateRequest| #![auto] RequestParameter::SetLockState(p).spec_command_class() == CommandClass::SetCommand && RequestParameter::SetLockState(p).spec_parameter_id() == ParameterId::LockState,
            RequestParameter::GetLockStateDescription.spec_command_class() == CommandClass::GetCommand && RequestParameter::GetLockStateDescription.spec_parameter_id() == ParameterId::LockStateDescription,
            RequestParameter::GetLockPin.spec_command_class() == CommandClass::GetCommand && RequestParameter::GetLockPin.spec_parameter_id() == ParameterId::LockPin,
            forall|p: SetLockPinRequest| #![auto] RequestParameter::SetLockPin(p).spec_command_class() == CommandClass::SetCommand && RequestParameter::SetLockPin(p).spec_parameter_id() == ParameterId::LockPin,
            RequestParameter::GetBurnIn.spec_command_class() == CommandClass::GetCommand && RequestParameter::GetBurnIn.spec_parameter_id() == ParameterId::BurnIn,
            forall|p: SetBurnInRequest| #![auto] RequestParameter::SetBurnIn(p).spec_command_class() == CommandClass::SetCommand && RequestParameter::SetBurnIn(p).spec_parameter_id() == ParameterId::BurnIn,
            RequestParameter::GetIdentifyMode.spec_command_class() == CommandClass::GetCommand && RequestParameter::GetIdentifyMode.spec_parameter_id() == ParameterId::IdentifyMode,
            forall|p: SetIdentifyModeRequest| #![auto] RequestParameter::SetIdentifyMode(p).spec_command_class() == CommandClass::SetCommand && RequestParameter::SetIdentifyMode(p).spec_parameter_id() == ParameterId::IdentifyMode,
            RequestParameter::GetPresetInfo.spec_command_class() == CommandClass::GetCommand && RequestParameter::GetPresetInfo.spec_parameter_id() == ParameterId::PresetInfo,
            forall|p: GetPresetStatusRequest| #![auto] RequestParameter::GetPresetStatus(p).spec_command_class() == CommandClass::GetCommand && RequestParameter::GetPresetStatus(p).spec_parameter_id() == ParameterId::PresetStatus,
            forall|p: SetPresetStatusRequest| #![auto] RequestParameter::SetPresetStatus(p).spec_command_class() == CommandClass::SetCommand && RequestParameter::SetPresetStatus(p).spec_parameter_id() == ParameterId::PresetStatus,
            RequestParameter::GetPresetMergeMode.spec_command_class() == CommandClass::GetCommand && RequestParameter::GetPresetMergeMode.spec_parameter_id() == ParameterId::PresetMergeMode,
            forall|p: SetPresetMergeModeRequest| #![auto] RequestParameter::SetPresetMergeMode(p).spec_command_class() == CommandClass::SetCommand && RequestParameter::SetPresetMergeMode(p).spec_parameter_id() == ParameterId::PresetMergeMode,
            RequestParameter::GetListInterfaces.spec_command_class() == CommandClass::GetCommand && RequestParameter::GetListInterfaces.spec_parameter_id() == ParameterId::ListInterfaces,
            forall|p: GetInterfaceLabelRequest| #![auto] RequestParameter::GetInterfaceLabel(p).spec_command_class() == CommandClass::GetCommand && RequestParameter::GetInterfaceLabel(p).spec_parameter_id() == ParameterId::InterfaceLabel,
            forall|p: GetInterfaceHardwareAddressType1Request| #![auto] RequestParameter::GetInterfaceHardwareAddressType1(p).spec_command_class() == CommandClass::GetCommand && RequestParameter::GetInterfaceHardwareAddressType1(p).spec_parameter_id() == ParameterId::InterfaceHardwareAddressType1,
            forall|p: GetIpV4DhcpModeRequest| #![auto] RequestParameter::GetIpV4DhcpMode(p).spec_command_class() == CommandClass::GetCommand && RequestParameter::GetIpV4DhcpMode(p).spec_parameter_id() == ParameterId::IpV4DhcpMode,
            forall|p: SetIpV4DhcpModeRequest| #![auto] RequestParameter::SetIpV4DhcpMode(p).spec_command_class() == CommandClass::SetCommand && RequestParameter::SetIpV4DhcpMode(p).spec_parameter_id() == ParameterId::IpV4DhcpMode,
            forall|p: GetIpV4ZeroConfModeRequest| #![auto] RequestParameter::GetIpV4ZeroConfMode(p).spec_command_class() == CommandClass::GetCommand && RequestParameter::GetIpV4ZeroConfMode(p).spec_parameter_id() == ParameterId::IpV4ZeroConfMode,
            forall|p: SetIpV4ZeroConfModeRequest| #![auto] RequestParameter::SetIpV4ZeroConfMode(p).spec_command_class() == CommandClass::SetCommand && RequestParameter::SetIpV4ZeroConfMode(p).spec_parameter_id() == ParameterId::IpV4ZeroConfMode,
            forall|p: GetIpV4CurrentAddressRequest| #![auto] RequestParameter::GetIpV4CurrentAddress(p).spec_command_class() == CommandClass::GetCommand && RequestParameter::GetIpV4CurrentAddress(p).spec_parameter_id() == ParameterId::IpV4CurrentAddress,
            forall|p: GetIpV4StaticAddressRequest| #![auto] RequestParameter::GetIpV4StaticAddress(p).spec_command_class() == CommandClass::GetCommand && RequestParameter::GetIpV4StaticAddress(p).spec_parameter_id() == ParameterId::IpV4StaticAddress,
            forall|p: SetIpV4StaticAddressRequest| #![auto] RequestParameter::SetIpV4StaticAddress(p).spec_command_class() == CommandClass::SetCommand && RequestParameter::SetIpV4StaticAddress(p).spec_parameter_id() == ParameterId::IpV4StaticAddress,
            forall|p: SetInterfaceApplyConfigurationRequest| #![auto] RequestParameter::SetInterfaceApplyConfiguration(p).spec_command_class() == CommandClass::SetCommand && RequestParameter::SetInterfaceApplyConfiguration(p).spec_parameter_id() == ParameterId::InterfaceApplyConfiguration,
            forall|p: SetInterfaceRenewDhcpRequest| #![auto] RequestParameter::SetInterfaceRenewDhcp(p).spec_command_class() == CommandClass::SetCommand && RequestParameter::SetInterfaceRenewDhcp(p).spec_parameter_id() == ParameterId::InterfaceRenewDhcp,
            forall|p: SetInterfaceReleaseDhcpRequest| #![auto] RequestParameter::SetInterfaceReleaseDhcp(p).spec_command_class() == CommandClass::SetCommand && RequestParameter::SetInterfaceReleaseDhcp(p).spec_parameter_id() == ParameterId::InterfaceReleaseDhcp,
    {
    }

    /// The command class and parameter identifier of further request parameters, as above.
    #[verifier::spinoff_prover]
    #[verifier::rlimit(100)]
    pub proof fn lemma_class_and_identifier_table_4()
        ensures
            RequestParameter::GetIpV4DefaultRoute.spec_command_class() == CommandClass::GetCommand && RequestParameter::GetIpV4DefaultRoute.spec_parameter_id() == ParameterId::IpV4DefaultRoute,
            forall|p: SetIpV4DefaultRouteRequest| #![auto] RequestParameter::SetIpV4DefaultRoute(p).spec_command_class() == CommandClass::SetCommand && RequestParameter::SetIpV4DefaultRoute(p).spec_parameter_id() == ParameterId::IpV4DefaultRoute,
            forall|p: GetDnsIpV4NameServerRequest| #![auto] RequestParameter::GetDnsIpV4NameServer(p).spec_command_class() == CommandClass::GetCommand && RequestParameter::GetDnsIpV4NameServer(p).spec_parameter_id() == ParameterId::DnsIpV4NameServer,
            forall|p: SetDnsIpv4NameServerRequest| #![auto] RequestParameter::SetDnsIpV4NameServer(p).spec_command_class() == CommandClass::SetCommand && RequestParameter::SetDnsIpV4NameServer(p).spec_parameter_id() == ParameterId::DnsIpV4NameServer,
            RequestParameter::GetDnsHostName.spec_command_class() == CommandClass::GetCommand && RequestParameter::GetDnsHostName.spec_parameter_id() == ParameterId::DnsHostName,
            forall|p: SetDnsHostNameRequest| #![auto] RequestParameter::SetDnsHostName(p).spec_command_class() == CommandClass::SetCommand && RequestParameter::SetDnsHostName(p).spec_parameter_id() == ParameterId::DnsHostName,
            RequestParameter::GetDnsDomainName.spec_command_class() == CommandClass::GetCommand && RequestParameter::GetDnsDomainName.spec_parameter_id() == ParameterId::DnsDomainName,
            forall|p: SetDnsDomainNameRequest| #![auto] RequestParameter::SetDnsDomainName(p).spec_command_class() == CommandClass::SetCommand && RequestParameter::SetDnsDomainName(p).spec_parameter_id() == ParameterId::DnsDomainName,
            RequestParameter::GetEndpointList.spec_command_class() == CommandClass::GetCommand && RequestParameter::GetEndpointList.spec_parameter_id() == ParameterId::EndpointList,
            RequestParameter::GetEndpointListChange.spec_command_class() == CommandClass::GetCommand && RequestParameter::GetEndpointListChange.spec_parameter_id() == ParameterId::EndpointListChange,
            forall|p: GetIdentifyEndpointRequest| #![auto] RequestParameter::GetIdentifyEndpoint(p).spec_command_class() == CommandClass::GetCommand && RequestParameter::GetIdentifyEndpoint(p).spec_parameter_id() == ParameterId::IdentifyEndpoint,
            forall|p: SetIdentifyEndpointRequest| #![auto] RequestParameter::SetIdentifyEndpoint(p).spec_command_class() == CommandClass::SetCommand && RequestParameter::SetIdentifyEndpoint(p).spec_parameter_id() == ParameterId::IdentifyEndpoint,
            forall|p: GetEndpointToUniverseRequest| #![auto] RequestParameter::GetEndpointToUniverse(p).spec_command_class() == CommandClass::GetCommand && RequestParameter::GetEndpointToUniverse(p).spec_parameter_id() == ParameterId::EndpointToUniverse,
            forall|p: SetEndpointToUniverseRequest| #![auto] RequestParameter::SetEndpointToUniverse(p).spec_command_class() == CommandClass::SetCommand && RequestParameter::SetEndpointToUniverse(p).spec_parameter_id() == ParameterId::EndpointToUniverse,
            forall|p: GetEndpointModeRequest| #![auto] RequestParameter::GetEndpointMode(p).spec_command_class() == CommandClass::GetCommand && RequestParameter::GetEndpointMode(p).spec_parameter_id() == ParameterId::EndpointMode,
            forall|p: SetEndpointModeRequest| #![auto] RequestParameter::SetEndpointMode(p).spec_command_class() == CommandClass::SetCommand && RequestParameter::SetEndpointMode(p).spec_parameter_id() == ParameterId::EndpointMode,
            forall|p: GetEndpointLabelRequest| #![auto] RequestParameter::GetEndpointLabel(p).spec_command_class() == CommandClass::GetCommand && RequestParameter::GetEndpointLabel(p).spec_parameter_id() == ParameterId::EndpointLabel,
            forall|p: SetEndpointLabelRequest| #![auto] RequestParameter::SetEndpointLabel(p).spec_command_class() == CommandClass::SetCommand && RequestParameter::SetEndpointLabel(p).spec_parameter_id() == ParameterId::EndpointLabel,
            forall|p: GetRdmTrafficEnableRequest| #![auto] RequestParameter::GetRdmTrafficEnable(p).spec_command_class() == CommandClass::GetCommand && RequestParameter::GetRdmTrafficEnable(p).spec_parameter_id() == ParameterId::RdmTrafficEnable,
            forall|p: SetRdmTrafficEnableRequest| #![auto] RequestParameter::SetRdmTrafficEnable(p).spec_command_class() == CommandClass::SetCommand && RequestParameter::SetRdmTrafficEnable(p).spec_parameter_id() == ParameterId::RdmTrafficEnable,
            forall|p: GetDiscoveryStateRequest| #![auto] RequestParameter::GetDiscoveryState(p).spec_command_class() == CommandClass::GetCommand && RequestParameter::GetDiscoveryState(p).spec_parameter_id() == ParameterId::DiscoveryState,
            forall|p: SetDiscoveryStateRequest| #![auto] RequestParameter::SetDiscoveryState(p).spec_command_class() == CommandClass::SetCommand && RequestParameter::SetDiscoveryState(p).spec_parameter_id() == ParameterId::DiscoveryState,
            forall|p: GetBackgroundDiscoveryRequest| #![auto] RequestParameter::GetBackgroundDiscovery(p).spec_command_class() == CommandClass::GetCommand && RequestParameter::GetBackgroundDiscovery(p).spec_parameter_id() == ParameterId::BackgroundDiscovery,
            forall|p: SetBackgroundDiscoveryRequest| #![auto] RequestParameter::SetBackgroundDiscovery(p).spec_command_class() == CommandClass::SetCommand && RequestParameter::SetBackgroundDiscovery(p).spec_parameter_id() == ParameterId::BackgroundDiscovery,
            forall|p: GetEndpointTimingRequest| #![auto] RequestParameter::GetEndpointTiming(p).spec_command_class() == CommandClass::GetCommand && RequestParameter::GetEndpointTiming(p).spec_parameter_id() == ParameterId::EndpointTiming,
            forall|p: SetEndpointTimingRequest| #![auto] RequestParameter::SetEndpointTiming(p).spec_command_class() == CommandClass::SetCommand && RequestParameter::SetEndpointTiming(p).spec_parameter_id() == ParameterId::EndpointTiming,
            forall|p: GetEndpointTimingDescriptionRequest| #![auto] RequestParameter::GetEndpointTimingDescription(p).spec_command_class() == CommandClass::GetCommand && RequestParameter::GetEndpointTimingDescription(p).spec_parameter_id() == ParameterId::EndpointTimingDescription,
            forall|p: GetEndpointRespondersRequest| #![auto] RequestParameter::GetEndpointResponders(p).spec_command_class() == CommandClass::GetCommand && RequestParameter::GetEndpointResponders(p).spec_parameter_id() == ParameterId::EndpointResponders,
            forall|p: GetEndpointResponderListChangeRequest| #![auto] RequestParameter::GetEndpointResponderListChange(p).spec_command_class() == CommandClass::GetCommand && RequestParameter::GetEndpointResponderListChange(p).spec_parameter_id() == ParameterId::EndpointResponderListChange,
            forall|p: GetBindingControlFieldsRequest| #![auto] RequestParameter::GetBindingControlFields(p).spec_command_class() == CommandClass::GetCommand && RequestParameter::GetBindingControlFields(p).spec_parameter_id() == ParameterId::BindingControlFields,
            RequestParameter::GetBackgroundQueuedStatusPolicy.spec_command_class() == CommandClass::GetCommand && RequestParameter::GetBackgroundQueuedStatusPolicy.spec_parameter_id() == ParameterId::BackgroundQueuedStatusPolicy,
            forall|p: SetBackgroundQueuedStatusPolicyRequest| #![auto] RequestParameter::SetBackgroundQueuedStatusPolicy(p).spec_command_class() == CommandClass::SetCommand && RequestParameter::SetBackgroundQueuedStatusPolicy(p).spec_parameter_id() == ParameterId::BackgroundQueuedStatusPolicy,
            forall|p: GetBackgroundQueuedStatusPolicyDescriptionRequest| #![auto] RequestParameter::GetBackgroundQueuedStatusPolicyDescription(p).spec_command_class() == CommandClass::GetCommand && RequestParameter::GetBackgroundQueuedStatusPolicyDescription(p).spec_parameter_id() == ParameterId::BackgroundQueuedStatusPolicyDescription,
            forall|p: GetComponentScopeRequest| #![auto] RequestParameter::GetComponentScope(p).spec_command_class() == CommandClass::GetCommand && RequestParameter::GetComponentScope(p).spec_parameter_id() == ParameterId::ComponentScope,
            forall|p: SetComponentScopeRequest| #![auto] RequestParameter::SetComponentScope(p).spec_command_class() == CommandClass::SetCommand && RequestParameter::SetComponentScope(p).spec_parameter_id() == ParameterId::ComponentScope,
            RequestParameter::GetSearchDomain.spec_command_class() == CommandClass::GetCommand && RequestParameter::GetSearchDomain.spec_parameter_id() == ParameterId::SearchDomain,
            forall|p: SetSearchDomainRequest| #![auto] RequestParameter::SetSearchDomain(p).spec_command_class() == CommandClass::SetCommand && RequestParameter::SetSearchDomain(p).spec_parameter_id() == ParameterId::SearchDomain,
            RequestParameter::GetTcpCommsStatus.spec_command_class() == CommandClass::GetCommand && RequestParameter::GetTcpCommsStatus.spec_parameter_id() == ParameterId::TcpCommsStatus,
            forall|p: SetTcpCommsStatusRequest| #![auto] RequestParameter::SetTcpCommsStatus(p).spec_command_class() == CommandClass::SetCommand && RequestParameter::SetTcpCommsStatus(p).spec_parameter_id() == ParameterId::TcpCommsStatus,
            RequestParameter::GetBrokerStatus.spec_command_class() == CommandClass::GetCommand && RequestParameter::GetBrokerStatus.spec_parameter_id() == ParameterId::BrokerStatus,
            forall|p: SetBrokerStatusRequest| #![auto] RequestParameter::SetBrokerStatus(p).spec_command_class() == CommandClass::SetCommand && RequestParameter::SetBrokerStatus(p).spec_parameter_id() == ParameterId::BrokerStatus,
    {
    }
}

} // verus!
