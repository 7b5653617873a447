//! The byte layout of each fixed size wire form: which field stands at which bytes.

use crate::rdm::common::{DeviceUID};
use crate::rdm::parameter::{ParameterId};
use crate::rdm::parameter::e120::{DefaultSlotValue, DisplayInvertMode, FadeTimes, LampOnMode, LampState, PowerState, PresetPlaybackMode, ProductCategory, ProtocolVersion, ResetDeviceMode, SelfTest, SensorValue, SlotInfo, SlotType, StatusType};
use crate::rdm::parameter::e120::request::{DiscUniqueBranchRequest, GetDmxPersonalityDescriptionRequest, GetParameterDescriptionRequest, GetQueuedMessageRequest, GetSelfTestDescriptionRequest, GetSensorDefinitionRequest, GetSensorValueRequest, GetSlotDescriptionRequest, GetStatusIdDescriptionRequest, GetStatusMessagesRequest, SetDeviceHoursRequest, SetDevicePowerCyclesRequest, SetDisplayInvertRequest, SetDisplayLevelRequest, SetDmxPersonalityRequest, SetDmxStartAddressRequest, SetIdentifyDeviceRequest, SetLampHoursRequest, SetLampOnModeRequest, SetLampStateRequest, SetLampStrikesRequest, SetPanInvertRequest, SetPanTiltSwapRequest, SetPerformSelfTestRequest, SetPowerStateRequest, SetPresetPlaybackRequest, SetRealTimeClockRequest, SetRecordSensorsRequest, SetResetDeviceRequest, SetSensorValueRequest, SetSubDeviceIdStatusReportThresholdRequest, SetTiltInvertRequest};
use crate::rdm::parameter::e120::response::{GetBootSoftwareVersionIdResponse, GetCommsStatusResponse, GetDeviceHoursResponse, GetDeviceInfoResponse, GetDevicePowerCyclesResponse, GetDisplayInvertResponse, GetDisplayLevelResponse, GetDmxPersonalityResponse, GetDmxStartAddressResponse, GetFactoryDefaultsResponse, GetIdentifyDeviceResponse, GetLampHoursResponse, GetLampOnModeResponse, GetLampStateResponse, GetLampStrikesResponse, GetPanInvertResponse, GetPanTiltSwapResponse, GetPerformSelfTestResponse, GetPowerStateResponse, GetPresetPlaybackResponse, GetProxiedDeviceCountResponse, GetRealTimeClockResponse, GetSensorValueResponse, GetSubDeviceIdStatusReportThresholdResponse, GetTiltInvertResponse, SetSensorValueResponse};
use crate::rdm::parameter::e133::{BrokerState, Scope, StaticConfigType};
use crate::rdm::parameter::e133::request::{GetComponentScopeRequest, SetBrokerStatusRequest, SetComponentScopeRequest};
use crate::rdm::parameter::e133::response::{GetBrokerStatusResponse, GetComponentScopeResponse, GetTcpCommsStatusResponse};
use crate::rdm::parameter::e137_1::{MergeMode, PinCode, PresetProgrammed, SupportedTimes, TimeMode};
use crate::rdm::parameter::e137_1::request::{GetCurveDescriptionRequest, GetLockStateDescriptionRequest, GetModulationFrequencyDescriptionRequest, GetOutputResponseTimeDescriptionRequest, GetPresetStatusRequest, SetBurnInRequest, SetCurveRequest, SetDmxBlockAddressRequest, SetDmxFailModeRequest, SetDmxStartupModeRequest, SetIdentifyModeRequest, SetLockPinRequest, SetLockStateRequest, SetMaximumLevelRequest, SetMinimumLevelRequest, SetModulationFrequencyRequest, SetOutputResponseTimeRequest, SetPowerOnSelfTestRequest, SetPresetMergeModeRequest, SetPresetStatusRequest};
use crate::rdm::parameter::e137_1::response::{GetBurnInResponse, GetCurveResponse, GetDimmerInfoResponse, GetDmxBlockAddressResponse, GetDmxFailModeResponse, GetDmxStartupModeResponse, GetIdentifyModeResponse, GetLockPinResponse, GetLockStateResponse, GetMaximumLevelResponse, GetMinimumLevelResponse, GetModulationFrequencyResponse, GetOutputResponseTimeResponse, GetPowerOnSelfTestResponse, GetPresetInfoResponse, GetPresetMergeModeResponse, GetPresetStatusResponse};
use crate::rdm::parameter::e137_2::{DhcpMode, HardwareType, InterfaceLabel, Ipv4Address, Ipv4Route, Ipv6Address, MacAddress, NetworkInterface};
use crate::rdm::parameter::e137_2::request::{GetDnsIpV4NameServerRequest, GetInterfaceHardwareAddressType1Request, GetInterfaceLabelRequest, GetIpV4CurrentAddressRequest, GetIpV4DhcpModeRequest, GetIpV4StaticAddressRequest, GetIpV4ZeroConfModeRequest, SetDnsIpv4NameServerRequest, SetInterfaceApplyConfigurationRequest, SetInterfaceReleaseDhcpRequest, SetInterfaceRenewDhcpRequest, SetIpV4DefaultRouteRequest, SetIpV4DhcpModeRequest, SetIpV4StaticAddressRequest, SetIpV4ZeroConfModeRequest};
use crate::rdm::parameter::e137_2::response::{GetDnsIpV4NameServerResponse, GetInterfaceHardwareAddressType1Response, GetInterfaceLabelResponse, GetIpV4CurrentAddressResponse, GetIpV4DefaultRouteResponse, GetIpV4DhcpModeResponse, GetIpV4StaticAddressResponse, GetIpV4ZeroConfModeResponse};
use crate::rdm::parameter::e137_7::{DiscoveryCountStatus, DiscoveryState, EndpointEntry, EndpointId, EndpointIdValue, EndpointMode, EndpointType};
use crate::rdm::parameter::e137_7::request::{GetBackgroundDiscoveryRequest, GetBackgroundQueuedStatusPolicyDescriptionRequest, GetBackgroundQueuedStatusPolicyRequest, GetBindingControlFieldsRequest, GetDiscoveryStateRequest, GetEndpointLabelRequest, GetEndpointModeRequest, GetEndpointResponderListChangeRequest, GetEndpointRespondersRequest, GetEndpointTimingDescriptionRequest, GetEndpointTimingRequest, GetEndpointToUniverseRequest, GetIdentifyEndpointRequest, GetRdmTrafficEnableRequest, SetBackgroundDiscoveryRequest, SetBackgroundQueuedStatusPolicyRequest, SetDiscoveryStateRequest, SetEndpointModeRequest, SetEndpointTimingRequest, SetEndpointToUniverseRequest, SetIdentifyEndpointRequest, SetRdmTrafficEnableRequest};
use crate::rdm::parameter::e137_7::response::{GetBackgroundDiscoveryResponse, GetBackgroundQueuedStatusPolicyResponse, GetBindingControlFieldsResponse, GetDiscoveryStateResponse, GetEndpointListChangeResponse, GetEndpointModeResponse, GetEndpointResponderListChangeResponse, GetEndpointTimingResponse, GetEndpointToUniverseResponse, GetIdentifyEndpointResponse, GetRdmTrafficEnableResponse, SetBackgroundDiscoveryResponse, SetDiscoveryStateResponse, SetEndpointLabelResponse, SetEndpointModeResponse, SetEndpointTimingResponse, SetEndpointToUniverseResponse, SetIdentifyEndpointResponse, SetRdmTrafficEnableResponse};
use crate::rdm::utils::i16_bits;
use crate::rdm::wire::{lemma_items_wire_len, spec_items_wire, spec_read_items, FixedWire};
use vstd::prelude::*;

verus! {

/// An array of 4 bytes is written as its bytes, in order, and read back from them.
pub proof fn lemma_array4_layout(a: [u8; 4], bytes: Seq<u8>)
    requires
        bytes.len() == 4,
    ensures
        a.spec_wire() == seq![a[0], a[1], a[2], a[3]],
        <[u8; 4] as FixedWire>::spec_read(bytes) == Some([bytes[0], bytes[1], bytes[2], bytes[3]]),
{
    assert(a.spec_wire() =~= seq![a[0], a[1], a[2], a[3]]);
}

/// An array of 6 bytes is written as its bytes, in order, and read back from them.
pub proof fn lemma_array6_layout(a: [u8; 6], bytes: Seq<u8>)
    requires
        bytes.len() == 6,
    ensures
        a.spec_wire() == seq![a[0], a[1], a[2], a[3], a[4], a[5]],
        <[u8; 6] as FixedWire>::spec_read(bytes) == Some([bytes[0], bytes[1], bytes[2], bytes[3], bytes[4], bytes[5]]),
{
    assert(a.spec_wire() =~= seq![a[0], a[1], a[2], a[3], a[4], a[5]]);
}

/// An array of 16 bytes is written as its bytes, in order, and read back from them.
pub proof fn lemma_array16_layout(a: [u8; 16], bytes: Seq<u8>)
    requires
        bytes.len() == 16,
    ensures
        a.spec_wire() == seq![a[0], a[1], a[2], a[3], a[4], a[5], a[6], a[7], a[8], a[9], a[10], a[11], a[12], a[13], a[14], a[15]],
        <[u8; 16] as FixedWire>::spec_read(bytes) == Some([bytes[0], bytes[1], bytes[2], bytes[3], bytes[4], bytes[5], bytes[6], bytes[7], bytes[8], bytes[9], bytes[10], bytes[11], bytes[12], bytes[13], bytes[14], bytes[15]]),
{
    assert(a.spec_wire() =~= seq![a[0], a[1], a[2], a[3], a[4], a[5], a[6], a[7], a[8], a[9], a[10], a[11], a[12], a[13], a[14], a[15]]);
}

impl Ipv4Address {
    /// A configured value is written as its octets, in order, and the Unconfigured value as zeros;
    /// 4 bytes read as the value with those octets, or as Unconfigured when they are all zero.
    pub proof fn lemma_octets_layout(self, bytes: Seq<u8>)
        requires
            bytes.len() == 4,
        ensures
            self matches Ipv4Address::Configured(o) ==> self.spec_wire() == seq![o[0], o[1], o[2], o[3]],
            self is Unconfigured ==> self.spec_wire() == seq![0u8, 0u8, 0u8, 0u8],
            <Ipv4Address as FixedWire>::spec_read(bytes) == Some(if bytes[0] == 0 && bytes[1] == 0 && bytes[2] == 0 && bytes[3] == 0 { Ipv4Address::Unconfigured } else { Ipv4Address::Configured([bytes[0], bytes[1], bytes[2], bytes[3]]) }),
    {
        if let Ipv4Address::Configured(o) = self {
            assert(self.spec_wire() =~= seq![o[0], o[1], o[2], o[3]]);
        }
        assert(Ipv4Address::Unconfigured.spec_wire() =~= seq![0u8, 0u8, 0u8, 0u8]);
    }
}

impl Ipv4Route {
    /// A configured value is written as its octets, in order, and the NoDefault value as zeros;
    /// 4 bytes read as the value with those octets, or as NoDefault when they are all zero.
    pub proof fn lemma_octets_layout(self, bytes: Seq<u8>)
        requires
            bytes.len() == 4,
        ensures
            self matches Ipv4Route::Configured(o) ==> self.spec_wire() == seq![o[0], o[1], o[2], o[3]],
            self is NoDefault ==> self.spec_wire() == seq![0u8, 0u8, 0u8, 0u8],
            <Ipv4Route as FixedWire>::spec_read(bytes) == Some(if bytes[0] == 0 && bytes[1] == 0 && bytes[2] == 0 && bytes[3] == 0 { Ipv4Route::NoDefault } else { Ipv4Route::Configured([bytes[0], bytes[1], bytes[2], bytes[3]]) }),
    {
        if let Ipv4Route::Configured(o) = self {
            assert(self.spec_wire() =~= seq![o[0], o[1], o[2], o[3]]);
        }
        assert(Ipv4Route::NoDefault.spec_wire() =~= seq![0u8, 0u8, 0u8, 0u8]);
    }
}

impl Ipv6Address {
    /// A configured value is written as its octets, in order, and the Unconfigured value as zeros;
    /// 16 bytes read as the value with those octets, or as Unconfigured when they are all zero.
    pub proof fn lemma_octets_layout(self, bytes: Seq<u8>)
        requires
            bytes.len() == 16,
        ensures
            self matches Ipv6Address::Configured(o) ==> self.spec_wire() == seq![o[0], o[1], o[2], o[3], o[4], o[5], o[6], o[7], o[8], o[9], o[10], o[11], o[12], o[13], o[14], o[15]],
            self is Unconfigured ==> self.spec_wire() == seq![0u8, 0u8, 0u8, 0u8, 0u8, 0u8, 0u8, 0u8, 0u8, 0u8, 0u8, 0u8, 0u8, 0u8, 0u8, 0u8],
            <Ipv6Address as FixedWire>::spec_read(bytes) == Some(if bytes[0] == 0 && bytes[1] == 0 && bytes[2] == 0 && bytes[3] == 0 && bytes[4] == 0 && bytes[5] == 0 && bytes[6] == 0 && bytes[7] == 0 && bytes[8] == 0 && bytes[9] == 0 && bytes[10] == 0 && bytes[11] == 0 && bytes[12] == 0 && bytes[13] == 0 && bytes[14] == 0 && bytes[15] == 0 { Ipv6Address::Unconfigured } else { Ipv6Address::Configured([bytes[0], bytes[1], bytes[2], bytes[3], bytes[4], bytes[5], bytes[6], bytes[7], bytes[8], bytes[9], bytes[10], bytes[11], bytes[12], bytes[13], bytes[14], bytes[15]]) }),
    {
        if let Ipv6Address::Configured(o) = self {
            assert(self.spec_wire() =~= seq![o[0], o[1], o[2], o[3], o[4], o[5], o[6], o[7], o[8], o[9], o[10], o[11], o[12], o[13], o[14], o[15]]);
        }
        assert(Ipv6Address::Unconfigured.spec_wire() =~= seq![0u8, 0u8, 0u8, 0u8, 0u8, 0u8, 0u8, 0u8, 0u8, 0u8, 0u8, 0u8, 0u8, 0u8, 0u8, 0u8]);
    }
}

/// The two big endian bytes of a signed 16 bit value: those of its two's complement bit pattern.
pub proof fn lemma_i16_bytes(v: i16)
    ensures
        v.spec_wire() == seq![(((v as int + 0x1_0000) % 0x1_0000) / 0x100) as u8, (((v as int + 0x1_0000) % 0x1_0000) % 0x100) as u8],
{
    assert(i16_bits(v) as int == (v as int + 0x1_0000) % 0x1_0000);
}

impl DeviceUID {
    /// The wire form of a UID: the manufacturer identifier, then the device identifier, big endian.
    pub proof fn lemma_wire_layout(self)
        ensures
            self.spec_wire() == seq![
                (self.manufacturer_id / 0x100) as u8,
                (self.manufacturer_id % 0x100) as u8,
                (self.device_id / 0x100_0000) as u8,
                ((self.device_id / 0x1_0000) % 0x100) as u8,
                ((self.device_id / 0x100) % 0x100) as u8,
                (self.device_id % 0x100) as u8,
            ],
    {
    }

    /// Reading six bytes gives the manufacturer identifier of the first two and the device
    /// identifier of the last four.
    pub proof fn lemma_read_layout(bytes: Seq<u8>)
        requires
            bytes.len() == 6,
        ensures
            <DeviceUID as FixedWire>::spec_read(bytes) == (Some(DeviceUID {
                manufacturer_id: (bytes[0] as int * 0x100 + bytes[1] as int) as u16,
                device_id: (bytes[2] as int * 0x100_0000 + bytes[3] as int * 0x1_0000 + bytes[4] as int * 0x100 + bytes[5] as int) as u32,
            })),
    {
    }
}

/// The wire form of a list is the wire forms of its items, one after the other in their order:
/// item `i` takes the bytes from `i * size` up to `(i + 1) * size`.
pub proof fn lemma_items_wire_layout<'a, T: FixedWire<'a>>(items: Seq<T>, i: int)
    requires
        0 <= i < items.len(),
    ensures
        spec_items_wire(items).len() == items.len() * T::spec_size(),
        i * T::spec_size() + T::spec_size() <= items.len() * T::spec_size(),
        spec_items_wire(items).subrange(i * T::spec_size(), i * T::spec_size() + T::spec_size()) == items[i].spec_wire(),
    decreases items.len(),
{
    let s = T::spec_size();
    let n = items.len();
    let init = items.drop_last();
    lemma_items_wire_len(items);
    lemma_items_wire_len(init);
    items.last().lemma_wire();
    items[i].lemma_wire();
    let w = spec_items_wire(items);
    assert(w == spec_items_wire(init) + items.last().spec_wire());
    assert(i * s + s <= n * s) by (nonlinear_arith)
        requires
            0 <= i < n,
            s >= 0,
    ;
    if i == n - 1 {
        assert((n - 1) * s + s == n * s) by (nonlinear_arith);
        assert(w.subrange(i * s, i * s + s) =~= items.last().spec_wire());
    } else {
        lemma_items_wire_layout(init, i);
        assert(init[i] == items[i]);
        assert(i * s + s <= (n - 1) * s) by (nonlinear_arith)
            requires
                0 <= i < n - 1,
                s >= 0,
        ;
        assert(w.subrange(i * s, i * s + s) =~= spec_items_wire(init).subrange(i * s, i * s + s));
    }
}

/// Bytes that read as a list hold whole items: there are as many items as the bytes hold, and item
/// `i` is what the bytes from `i * size` up to `(i + 1) * size` read as.
pub proof fn lemma_read_items_layout<'a, T: FixedWire<'a>>(bytes: Seq<u8>, i: int)
    ensures
        spec_read_items::<T>(bytes) matches Some(items) ==> {
            &&& bytes.len() == items.len() * T::spec_size()
            &&& (0 <= i < items.len() ==> {
                &&& i * T::spec_size() + T::spec_size() <= bytes.len()
                &&& T::spec_read(bytes.subrange(i * T::spec_size(), i * T::spec_size() + T::spec_size())) == Some(items[i])
            })
        },
    decreases bytes.len(),
{
    let s = T::spec_size();
    if bytes.len() > 0 && s > 0 && bytes.len() >= s {
        let k = (bytes.len() - s) as int;
        lemma_read_items_layout::<T>(bytes.subrange(0, k), i);
        if let Some(items) = spec_read_items::<T>(bytes) {
            let init = spec_read_items::<T>(bytes.subrange(0, k)).unwrap();
            assert(items == init.push(T::spec_read(bytes.subrange(k, bytes.len() as int)).unwrap()));
            assert(bytes.len() == items.len() * s) by (nonlinear_arith)
                requires
                    bytes.len() == k + s,
                    k == init.len() * s,
                    items.len() == init.len() + 1,
            ;
            if 0 <= i < items.len() {
                if i == init.len() {
                    assert(i * s == k) by (nonlinear_arith)
                        requires
                            i == init.len(),
                            k == init.len() * s,
                    ;
                } else {
                    assert(i * s + s <= k) by (nonlinear_arith)
                        requires
                            0 <= i < init.len(),
                            k == init.len() * s,
                            s >= 0,
                    ;
                    assert(bytes.subrange(0, k).subrange(i * s, i * s + s) =~= bytes.subrange(i * s, i * s + s));
                }
            }
        }
    }
}

impl DefaultSlotValue {
    /// The wire form holds, in this order and big endian: `id` (2 bytes), `value` (1 byte).
    pub proof fn lemma_wire_layout(self)
        ensures
            self.spec_wire() == seq![(self.id / 0x100) as u8, (self.id % 0x100) as u8] + seq![self.value],
    {
    }

    /// Reading 3 bytes gives the fields at those places.
    pub proof fn lemma_read_layout(bytes: Seq<u8>)
        requires
            bytes.len() == 3,
        ensures
            <DefaultSlotValue as FixedWire>::spec_read(bytes) == (Some(DefaultSlotValue { id: (bytes[0] as int * 0x100 + bytes[1] as int) as u16, value: bytes[2] })),
    {
    }
}

impl DiscUniqueBranchRequest {
    /// The wire form holds, in this order and big endian: `lower_bound_uid` (6 bytes), `upper_bound_uid` (6 bytes).
    pub proof fn lemma_wire_layout(self)
        ensures
            self.spec_wire() == self.lower_bound_uid.spec_wire() + self.upper_bound_uid.spec_wire(),
    {
    }

    /// Reading 12 bytes gives the fields at those places.
    pub proof fn lemma_read_layout(bytes: Seq<u8>)
        requires
            bytes.len() == 12,
        ensures
            <DiscUniqueBranchRequest as FixedWire>::spec_read(bytes) == (if <DeviceUID as FixedWire>::spec_read(bytes.subrange(0, 6)) is Some && <DeviceUID as FixedWire>::spec_read(bytes.subrange(6, 12)) is Some { Some(DiscUniqueBranchRequest { lower_bound_uid: <DeviceUID as FixedWire>::spec_read(bytes.subrange(0, 6)).unwrap(), upper_bound_uid: <DeviceUID as FixedWire>::spec_read(bytes.subrange(6, 12)).unwrap() }) } else { None }),
    {
    }
}

impl EndpointEntry {
    /// The wire form holds, in this order and big endian: `endpoint_id` (2 bytes), `endpoint_type` (1 byte).
    pub proof fn lemma_wire_layout(self)
        ensures
            self.spec_wire() == self.endpoint_id.spec_wire() + self.endpoint_type.spec_wire(),
    {
    }

    /// Reading 3 bytes gives the fields at those places.
    pub proof fn lemma_read_layout(bytes: Seq<u8>)
        requires
            bytes.len() == 3,
        ensures
            <EndpointEntry as FixedWire>::spec_read(bytes) == (if <EndpointId as FixedWire>::spec_read(bytes.subrange(0, 2)) is Some && <EndpointType as FixedWire>::spec_read(bytes.subrange(2, 3)) is Some { Some(EndpointEntry { endpoint_id: <EndpointId as FixedWire>::spec_read(bytes.subrange(0, 2)).unwrap(), endpoint_type: <EndpointType as FixedWire>::spec_read(bytes.subrange(2, 3)).unwrap() }) } else { None }),
    {
    }
}

impl EndpointIdValue {
    /// The wire form holds, in this order and big endian: `0` (2 bytes).
    pub proof fn lemma_wire_layout(self)
        ensures
            self.spec_wire() == seq![(self.0 / 0x100) as u8, (self.0 % 0x100) as u8],
    {
    }

    /// Reading 2 bytes gives the fields at those places.
    pub proof fn lemma_read_layout(bytes: Seq<u8>)
        requires
            bytes.len() == 2,
        ensures
            <EndpointIdValue as FixedWire>::spec_read(bytes) == (Some(EndpointIdValue((bytes[0] as int * 0x100 + bytes[1] as int) as u16))),
    {
    }
}

impl FadeTimes {
    /// The wire form holds, in this order and big endian: `up_fade_time` (2 bytes), `down_fade_time` (2 bytes), `wait_time` (2 bytes).
    pub proof fn lemma_wire_layout(self)
        ensures
            self.spec_wire() == seq![(self.up_fade_time / 0x100) as u8, (self.up_fade_time % 0x100) as u8] + seq![(self.down_fade_time / 0x100) as u8, (self.down_fade_time % 0x100) as u8] + seq![(self.wait_time / 0x100) as u8, (self.wait_time % 0x100) as u8],
    {
    }

    /// Reading 6 bytes gives the fields at those places.
    pub proof fn lemma_read_layout(bytes: Seq<u8>)
        requires
            bytes.len() == 6,
        ensures
            <FadeTimes as FixedWire>::spec_read(bytes) == (Some(FadeTimes { up_fade_time: (bytes[0] as int * 0x100 + bytes[1] as int) as u16, down_fade_time: (bytes[2] as int * 0x100 + bytes[3] as int) as u16, wait_time: (bytes[4] as int * 0x100 + bytes[5] as int) as u16 })),
    {
    }
}

impl GetBackgroundDiscoveryRequest {
    /// The wire form holds, in this order and big endian: `endpoint_id` (2 bytes).
    pub proof fn lemma_wire_layout(self)
        ensures
            self.spec_wire() == self.endpoint_id.spec_wire(),
    {
    }

    /// Reading 2 bytes gives the fields at those places.
    pub proof fn lemma_read_layout(bytes: Seq<u8>)
        requires
            bytes.len() == 2,
        ensures
            <GetBackgroundDiscoveryRequest as FixedWire>::spec_read(bytes) == (if <EndpointId as FixedWire>::spec_read(bytes.subrange(0, 2)) is Some { Some(GetBackgroundDiscoveryRequest { endpoint_id: <EndpointId as FixedWire>::spec_read(bytes.subrange(0, 2)).unwrap() }) } else { None }),
    {
    }
}

impl GetBackgroundDiscoveryResponse {
    /// The wire form holds, in this order and big endian: `endpoint_id` (2 bytes), `enabled` (1 byte).
    pub proof fn lemma_wire_layout(self)
        ensures
            self.spec_wire() == self.endpoint_id.spec_wire() + seq![if self.enabled { 1u8 } else { 0u8 }],
    {
    }

    /// Reading 3 bytes gives the fields at those places.
    pub proof fn lemma_read_layout(bytes: Seq<u8>)
        requires
            bytes.len() == 3,
        ensures
            <GetBackgroundDiscoveryResponse as FixedWire>::spec_read(bytes) == (if <EndpointId as FixedWire>::spec_read(bytes.subrange(0, 2)) is Some { Some(GetBackgroundDiscoveryResponse { endpoint_id: <EndpointId as FixedWire>::spec_read(bytes.subrange(0, 2)).unwrap(), enabled: bytes[2] != 0 }) } else { None }),
    {
    }
}

impl GetBackgroundQueuedStatusPolicyDescriptionRequest {
    /// The wire form holds, in this order and big endian: `policy_id` (1 byte).
    pub proof fn lemma_wire_layout(self)
        ensures
            self.spec_wire() == seq![self.policy_id],
    {
    }

    /// Reading 1 bytes gives the fields at those places.
    pub proof fn lemma_read_layout(bytes: Seq<u8>)
        requires
            bytes.len() == 1,
        ensures
            <GetBackgroundQueuedStatusPolicyDescriptionRequest as FixedWire>::spec_read(bytes) == (Some(GetBackgroundQueuedStatusPolicyDescriptionRequest { policy_id: bytes[0] })),
    {
    }
}

impl GetBackgroundQueuedStatusPolicyRequest {
    /// The wire form holds, in this order and big endian: `policy_id` (1 byte).
    pub proof fn lemma_wire_layout(self)
        ensures
            self.spec_wire() == seq![self.policy_id],
    {
    }

    /// Reading 1 bytes gives the fields at those places.
    pub proof fn lemma_read_layout(bytes: Seq<u8>)
        requires
            bytes.len() == 1,
        ensures
            <GetBackgroundQueuedStatusPolicyRequest as FixedWire>::spec_read(bytes) == (Some(GetBackgroundQueuedStatusPolicyRequest { policy_id: bytes[0] })),
    {
    }
}

impl GetBackgroundQueuedStatusPolicyResponse {
    /// The wire form holds, in this order and big endian: `current_policy_id` (1 byte), `policy_count` (1 byte).
    pub proof fn lemma_wire_layout(self)
        ensures
            self.spec_wire() == seq![self.current_policy_id] + seq![self.policy_count],
    {
    }

    /// Reading 2 bytes gives the fields at those places.
    pub proof fn lemma_read_layout(bytes: Seq<u8>)
        requires
            bytes.len() == 2,
        ensures
            <GetBackgroundQueuedStatusPolicyResponse as FixedWire>::spec_read(bytes) == (Some(GetBackgroundQueuedStatusPolicyResponse { current_policy_id: bytes[0], policy_count: bytes[1] })),
    {
    }
}

impl GetBindingControlFieldsRequest {
    /// The wire form holds, in this order and big endian: `endpoint_id` (2 bytes), `uid` (6 bytes).
    pub proof fn lemma_wire_layout(self)
        ensures
            self.spec_wire() == self.endpoint_id.spec_wire() + self.uid.spec_wire(),
    {
    }

    /// Reading 8 bytes gives the fields at those places.
    pub proof fn lemma_read_layout(bytes: Seq<u8>)
        requires
            bytes.len() == 8,
        ensures
            <GetBindingControlFieldsRequest as FixedWire>::spec_read(bytes) == (if <EndpointId as FixedWire>::spec_read(bytes.subrange(0, 2)) is Some && <DeviceUID as FixedWire>::spec_read(bytes.subrange(2, 8)) is Some { Some(GetBindingControlFieldsRequest { endpoint_id: <EndpointId as FixedWire>::spec_read(bytes.subrange(0, 2)).unwrap(), uid: <DeviceUID as FixedWire>::spec_read(bytes.subrange(2, 8)).unwrap() }) } else { None }),
    {
    }
}

impl GetBindingControlFieldsResponse {
    /// The wire form holds, in this order and big endian: `endpoint_id` (2 bytes), `uid` (6 bytes), `control_field` (2 bytes), `binding_uid` (6 bytes).
    pub proof fn lemma_wire_layout(self)
        ensures
            self.spec_wire() == self.endpoint_id.spec_wire() + self.uid.spec_wire() + seq![(self.control_field / 0x100) as u8, (self.control_field % 0x100) as u8] + self.binding_uid.spec_wire(),
    {
    }

    /// Reading 16 bytes gives the fields at those places.
    pub proof fn lemma_read_layout(bytes: Seq<u8>)
        requires
            bytes.len() == 16,
        ensures
            <GetBindingControlFieldsResponse as FixedWire>::spec_read(bytes) == (if <EndpointId as FixedWire>::spec_read(bytes.subrange(0, 2)) is Some && <DeviceUID as FixedWire>::spec_read(bytes.subrange(2, 8)) is Some && <DeviceUID as FixedWire>::spec_read(bytes.subrange(10, 16)) is Some { Some(GetBindingControlFieldsResponse { endpoint_id: <EndpointId as FixedWire>::spec_read(bytes.subrange(0, 2)).unwrap(), uid: <DeviceUID as FixedWire>::spec_read(bytes.subrange(2, 8)).unwrap(), control_field: (bytes[8] as int * 0x100 + bytes[9] as int) as u16, binding_uid: <DeviceUID as FixedWire>::spec_read(bytes.subrange(10, 16)).unwrap() }) } else { None }),
    {
    }
}

impl GetBootSoftwareVersionIdResponse {
    /// The wire form holds, in this order and big endian: `boot_software_version_id` (4 bytes).
    pub proof fn lemma_wire_layout(self)
        ensures
            self.spec_wire() == seq![(self.boot_software_version_id / 0x100_0000) as u8, ((self.boot_software_version_id / 0x1_0000) % 0x100) as u8, ((self.boot_software_version_id / 0x100) % 0x100) as u8, (self.boot_software_version_id % 0x100) as u8],
    {
    }

    /// Reading 4 bytes gives the fields at those places.
    pub proof fn lemma_read_layout(bytes: Seq<u8>)
        requires
            bytes.len() == 4,
        ensures
            <GetBootSoftwareVersionIdResponse as FixedWire>::spec_read(bytes) == (Some(GetBootSoftwareVersionIdResponse { boot_software_version_id: (bytes[0] as int * 0x100_0000 + bytes[1] as int * 0x1_0000 + bytes[2] as int * 0x100 + bytes[3] as int) as u32 })),
    {
    }
}

impl GetBrokerStatusResponse {
    /// The wire form holds, in this order and big endian: `is_allowing_set_commands` (1 byte), `broker_state` (1 byte).
    pub proof fn lemma_wire_layout(self)
        ensures
            self.spec_wire() == seq![if self.is_allowing_set_commands { 1u8 } else { 0u8 }] + self.broker_state.spec_wire(),
    {
    }

    /// Reading 2 bytes gives the fields at those places.
    pub proof fn lemma_read_layout(bytes: Seq<u8>)
        requires
            bytes.len() == 2,
        ensures
            <GetBrokerStatusResponse as FixedWire>::spec_read(bytes) == (if <BrokerState as FixedWire>::spec_read(bytes.subrange(1, 2)) is Some { Some(GetBrokerStatusResponse { is_allowing_set_commands: bytes[0] != 0, broker_state: <BrokerState as FixedWire>::spec_read(bytes.subrange(1, 2)).unwrap() }) } else { None }),
    {
    }
}

impl GetBurnInResponse {
    /// The wire form holds, in this order and big endian: `hours_remaining` (1 byte).
    pub proof fn lemma_wire_layout(self)
        ensures
            self.spec_wire() == seq![self.hours_remaining],
    {
    }

    /// Reading 1 bytes gives the fields at those places.
    pub proof fn lemma_read_layout(bytes: Seq<u8>)
        requires
            bytes.len() == 1,
        ensures
            <GetBurnInResponse as FixedWire>::spec_read(bytes) == (Some(GetBurnInResponse { hours_remaining: bytes[0] })),
    {
    }
}

impl GetCommsStatusResponse {
    /// The wire form holds, in this order and big endian: `short_message` (2 bytes), `length_mismatch` (2 bytes), `checksum_fail` (2 bytes).
    pub proof fn lemma_wire_layout(self)
        ensures
            self.spec_wire() == seq![(self.short_message / 0x100) as u8, (self.short_message % 0x100) as u8] + seq![(self.length_mismatch / 0x100) as u8, (self.length_mismatch % 0x100) as u8] + seq![(self.checksum_fail / 0x100) as u8, (self.checksum_fail % 0x100) as u8],
    {
    }

    /// Reading 6 bytes gives the fields at those places.
    pub proof fn lemma_read_layout(bytes: Seq<u8>)
        requires
            bytes.len() == 6,
        ensures
            <GetCommsStatusResponse as FixedWire>::spec_read(bytes) == (Some(GetCommsStatusResponse { short_message: (bytes[0] as int * 0x100 + bytes[1] as int) as u16, length_mismatch: (bytes[2] as int * 0x100 + bytes[3] as int) as u16, checksum_fail: (bytes[4] as int * 0x100 + bytes[5] as int) as u16 })),
    {
    }
}

impl GetComponentScopeRequest {
    /// The wire form holds, in this order and big endian: `scope_slot` (2 bytes).
    pub proof fn lemma_wire_layout(self)
        ensures
            self.spec_wire() == seq![(self.scope_slot / 0x100) as u8, (self.scope_slot % 0x100) as u8],
    {
    }

    /// Reading 2 bytes gives the fields at those places.
    pub proof fn lemma_read_layout(bytes: Seq<u8>)
        requires
            bytes.len() == 2,
        ensures
            <GetComponentScopeRequest as FixedWire>::spec_read(bytes) == (Some(GetComponentScopeRequest { scope_slot: (bytes[0] as int * 0x100 + bytes[1] as int) as u16 })),
    {
    }
}

impl GetComponentScopeResponse {
    /// The wire form holds, in this order and big endian: `scope_slot` (2 bytes), `scope` (63 bytes), `static_config_type` (1 byte), `static_broker_ipv4_address` (4 bytes), `static_broker_ipv6_address` (16 bytes), `static_broker_port` (2 bytes).
    pub proof fn lemma_wire_layout(self)
        ensures
            self.spec_wire() == seq![(self.scope_slot / 0x100) as u8, (self.scope_slot % 0x100) as u8] + self.scope.spec_wire() + self.static_config_type.spec_wire() + self.static_broker_ipv4_address.spec_wire() + self.static_broker_ipv6_address.spec_wire() + seq![(self.static_broker_port / 0x100) as u8, (self.static_broker_port % 0x100) as u8],
    {
    }

    /// Reading 88 bytes gives the fields at those places.
    pub proof fn lemma_read_layout(bytes: Seq<u8>)
        requires
            bytes.len() == 88,
        ensures
            <GetComponentScopeResponse as FixedWire>::spec_read(bytes) == (if <Scope as FixedWire>::spec_read(bytes.subrange(2, 65)) is Some && <StaticConfigType as FixedWire>::spec_read(bytes.subrange(65, 66)) is Some && <Ipv4Address as FixedWire>::spec_read(bytes.subrange(66, 70)) is Some && <Ipv6Address as FixedWire>::spec_read(bytes.subrange(70, 86)) is Some { Some(GetComponentScopeResponse { scope_slot: (bytes[0] as int * 0x100 + bytes[1] as int) as u16, scope: <Scope as FixedWire>::spec_read(bytes.subrange(2, 65)).unwrap(), static_config_type: <StaticConfigType as FixedWire>::spec_read(bytes.subrange(65, 66)).unwrap(), static_broker_ipv4_address: <Ipv4Address as FixedWire>::spec_read(bytes.subrange(66, 70)).unwrap(), static_broker_ipv6_address: <Ipv6Address as FixedWire>::spec_read(bytes.subrange(70, 86)).unwrap(), static_broker_port: (bytes[86] as int * 0x100 + bytes[87] as int) as u16 }) } else { None }),
    {
    }
}

impl GetCurveDescriptionRequest {
    /// The wire form holds, in this order and big endian: `curve_id` (1 byte).
    pub proof fn lemma_wire_layout(self)
        ensures
            self.spec_wire() == seq![self.curve_id],
    {
    }

    /// Reading 1 bytes gives the fields at those places.
    pub proof fn lemma_read_layout(bytes: Seq<u8>)
        requires
            bytes.len() == 1,
        ensures
            <GetCurveDescriptionRequest as FixedWire>::spec_read(bytes) == (Some(GetCurveDescriptionRequest { curve_id: bytes[0] })),
    {
    }
}

impl GetCurveResponse {
    /// The wire form holds, in this order and big endian: `curve_id` (1 byte), `curve_count` (1 byte).
    pub proof fn lemma_wire_layout(self)
        ensures
            self.spec_wire() == seq![self.curve_id] + seq![self.curve_count],
    {
    }

    /// Reading 2 bytes gives the fields at those places.
    pub proof fn lemma_read_layout(bytes: Seq<u8>)
        requires
            bytes.len() == 2,
        ensures
            <GetCurveResponse as FixedWire>::spec_read(bytes) == (Some(GetCurveResponse { curve_id: bytes[0], curve_count: bytes[1] })),
    {
    }
}

impl GetDeviceHoursResponse {
    /// The wire form holds, in this order and big endian: `device_hours` (4 bytes).
    pub proof fn lemma_wire_layout(self)
        ensures
            self.spec_wire() == seq![(self.device_hours / 0x100_0000) as u8, ((self.device_hours / 0x1_0000) % 0x100) as u8, ((self.device_hours / 0x100) % 0x100) as u8, (self.device_hours % 0x100) as u8],
    {
    }

    /// Reading 4 bytes gives the fields at those places.
    pub proof fn lemma_read_layout(bytes: Seq<u8>)
        requires
            bytes.len() == 4,
        ensures
            <GetDeviceHoursResponse as FixedWire>::spec_read(bytes) == (Some(GetDeviceHoursResponse { device_hours: (bytes[0] as int * 0x100_0000 + bytes[1] as int * 0x1_0000 + bytes[2] as int * 0x100 + bytes[3] as int) as u32 })),
    {
    }
}

impl GetDeviceInfoResponse {
    /// The wire form holds, in this order and big endian: `protocol_version` (2 bytes), `device_model_id` (2 bytes), `product_category` (2 bytes), `software_version_id` (4 bytes), `dmx512_footprint` (2 bytes), `current_personality` (1 byte), `personality_count` (1 byte), `dmx512_start_address` (2 bytes), `sub_device_count` (2 bytes), `sensor_count` (1 byte).
    pub proof fn lemma_wire_layout(self)
        ensures
            self.spec_wire() == self.protocol_version.spec_wire() + seq![(self.device_model_id / 0x100) as u8, (self.device_model_id % 0x100) as u8] + self.product_category.spec_wire() + seq![(self.software_version_id / 0x100_0000) as u8, ((self.software_version_id / 0x1_0000) % 0x100) as u8, ((self.software_version_id / 0x100) % 0x100) as u8, (self.software_version_id % 0x100) as u8] + seq![(self.dmx512_footprint / 0x100) as u8, (self.dmx512_footprint % 0x100) as u8] + seq![self.current_personality] + seq![self.personality_count] + seq![(self.dmx512_start_address / 0x100) as u8, (self.dmx512_start_address % 0x100) as u8] + seq![(self.sub_device_count / 0x100) as u8, (self.sub_device_count % 0x100) as u8] + seq![self.sensor_count],
    {
    }

    /// Reading 19 bytes gives the fields at those places.
    pub proof fn lemma_read_layout(bytes: Seq<u8>)
        requires
            bytes.len() == 19,
        ensures
            <GetDeviceInfoResponse as FixedWire>::spec_read(bytes) == (if <ProtocolVersion as FixedWire>::spec_read(bytes.subrange(0, 2)) is Some && <ProductCategory as FixedWire>::spec_read(bytes.subrange(4, 6)) is Some { Some(GetDeviceInfoResponse { protocol_version: <ProtocolVersion as FixedWire>::spec_read(bytes.subrange(0, 2)).unwrap(), device_model_id: (bytes[2] as int * 0x100 + bytes[3] as int) as u16, product_category: <ProductCategory as FixedWire>::spec_read(bytes.subrange(4, 6)).unwrap(), software_version_id: (bytes[6] as int * 0x100_0000 + bytes[7] as int * 0x1_0000 + bytes[8] as int * 0x100 + bytes[9] as int) as u32, dmx512_footprint: (bytes[10] as int * 0x100 + bytes[11] as int) as u16, current_personality: bytes[12], personality_count: bytes[13], dmx512_start_address: (bytes[14] as int * 0x100 + bytes[15] as int) as u16, sub_device_count: (bytes[16] as int * 0x100 + bytes[17] as int) as u16, sensor_count: bytes[18] }) } else { None }),
    {
    }
}

impl GetDevicePowerCyclesResponse {
    /// The wire form holds, in this order and big endian: `device_power_cycles` (4 bytes).
    pub proof fn lemma_wire_layout(self)
        ensures
            self.spec_wire() == seq![(self.device_power_cycles / 0x100_0000) as u8, ((self.device_power_cycles / 0x1_0000) % 0x100) as u8, ((self.device_power_cycles / 0x100) % 0x100) as u8, (self.device_power_cycles % 0x100) as u8],
    {
    }

    /// Reading 4 bytes gives the fields at those places.
    pub proof fn lemma_read_layout(bytes: Seq<u8>)
        requires
            bytes.len() == 4,
        ensures
            <GetDevicePowerCyclesResponse as FixedWire>::spec_read(bytes) == (Some(GetDevicePowerCyclesResponse { device_power_cycles: (bytes[0] as int * 0x100_0000 + bytes[1] as int * 0x1_0000 + bytes[2] as int * 0x100 + bytes[3] as int) as u32 })),
    {
    }
}

impl GetDimmerInfoResponse {
    /// The wire form holds, in this order and big endian: `minimum_level_lower_limit` (2 bytes), `minimum_level_upper_limit` (2 bytes), `maximum_level_lower_limit` (2 bytes), `maximum_level_upper_limit` (2 bytes), `number_of_supported_curves` (1 byte), `levels_resolution` (1 byte), `minimum_level_split_levels_supported` (1 byte).
    pub proof fn lemma_wire_layout(self)
        ensures
            self.spec_wire() == seq![(self.minimum_level_lower_limit / 0x100) as u8, (self.minimum_level_lower_limit % 0x100) as u8] + seq![(self.minimum_level_upper_limit / 0x100) as u8, (self.minimum_level_upper_limit % 0x100) as u8] + seq![(self.maximum_level_lower_limit / 0x100) as u8, (self.maximum_level_lower_limit % 0x100) as u8] + seq![(self.maximum_level_upper_limit / 0x100) as u8, (self.maximum_level_upper_limit % 0x100) as u8] + seq![self.number_of_supported_curves] + seq![self.levels_resolution] + seq![if self.minimum_level_split_levels_supported { 1u8 } else { 0u8 }],
    {
    }

    /// Reading 11 bytes gives the fields at those places.
    pub proof fn lemma_read_layout(bytes: Seq<u8>)
        requires
            bytes.len() == 11,
        ensures
            <GetDimmerInfoResponse as FixedWire>::spec_read(bytes) == (Some(GetDimmerInfoResponse { minimum_level_lower_limit: (bytes[0] as int * 0x100 + bytes[1] as int) as u16, minimum_level_upper_limit: (bytes[2] as int * 0x100 + bytes[3] as int) as u16, maximum_level_lower_limit: (bytes[4] as int * 0x100 + bytes[5] as int) as u16, maximum_level_upper_limit: (bytes[6] as int * 0x100 + bytes[7] as int) as u16, number_of_supported_curves: bytes[8], levels_resolution: bytes[9], minimum_level_split_levels_supported: bytes[10] != 0 })),
    {
    }
}

impl GetDiscoveryStateRequest {
    /// The wire form holds, in this order and big endian: `endpoint_id` (2 bytes).
    pub proof fn lemma_wire_layout(self)
        ensures
            self.spec_wire() == self.endpoint_id.spec_wire(),
    {
    }

    /// Reading 2 bytes gives the fields at those places.
    pub proof fn lemma_read_layout(bytes: Seq<u8>)
        requires
            bytes.len() == 2,
        ensures
            <GetDiscoveryStateRequest as FixedWire>::spec_read(bytes) == (if <EndpointId as FixedWire>::spec_read(bytes.subrange(0, 2)) is Some { Some(GetDiscoveryStateRequest { endpoint_id: <EndpointId as FixedWire>::spec_read(bytes.subrange(0, 2)).unwrap() }) } else { None }),
    {
    }
}

impl GetDiscoveryStateResponse {
    /// The wire form holds, in this order and big endian: `endpoint_id` (2 bytes), `device_count` (2 bytes), `discovery_state` (1 byte).
    pub proof fn lemma_wire_layout(self)
        ensures
            self.spec_wire() == self.endpoint_id.spec_wire() + self.device_count.spec_wire() + self.discovery_state.spec_wire(),
    {
    }

    /// Reading 5 bytes gives the fields at those places.
    pub proof fn lemma_read_layout(bytes: Seq<u8>)
        requires
            bytes.len() == 5,
        ensures
            <GetDiscoveryStateResponse as FixedWire>::spec_read(bytes) == (if <EndpointId as FixedWire>::spec_read(bytes.subrange(0, 2)) is Some && <DiscoveryCountStatus as FixedWire>::spec_read(bytes.subrange(2, 4)) is Some && <DiscoveryState as FixedWire>::spec_read(bytes.subrange(4, 5)) is Some { Some(GetDiscoveryStateResponse { endpoint_id: <EndpointId as FixedWire>::spec_read(bytes.subrange(0, 2)).unwrap(), device_count: <DiscoveryCountStatus as FixedWire>::spec_read(bytes.subrange(2, 4)).unwrap(), discovery_state: <DiscoveryState as FixedWire>::spec_read(bytes.subrange(4, 5)).unwrap() }) } else { None }),
    {
    }
}

impl GetDisplayInvertResponse {
    /// The wire form holds, in this order and big endian: `display_invert_mode` (1 byte).
    pub proof fn lemma_wire_layout(self)
        ensures
            self.spec_wire() == self.display_invert_mode.spec_wire(),
    {
    }

    /// Reading 1 bytes gives the fields at those places.
    pub proof fn lemma_read_layout(bytes: Seq<u8>)
        requires
            bytes.len() == 1,
        ensures
            <GetDisplayInvertResponse as FixedWire>::spec_read(bytes) == (if <DisplayInvertMode as FixedWire>::spec_read(bytes.subrange(0, 1)) is Some { Some(GetDisplayInvertResponse { display_invert_mode: <DisplayInvertMode as FixedWire>::spec_read(bytes.subrange(0, 1)).unwrap() }) } else { None }),
    {
    }
}

impl GetDisplayLevelResponse {
    /// The wire form holds, in this order and big endian: `display_level` (1 byte).
    pub proof fn lemma_wire_layout(self)
        ensures
            self.spec_wire() == seq![self.display_level],
    {
    }

    /// Reading 1 bytes gives the fields at those places.
    pub proof fn lemma_read_layout(bytes: Seq<u8>)
        requires
            bytes.len() == 1,
        ensures
            <GetDisplayLevelResponse as FixedWire>::spec_read(bytes) == (Some(GetDisplayLevelResponse { display_level: bytes[0] })),
    {
    }
}

impl GetDmxBlockAddressResponse {
    /// The wire form holds, in this order and big endian: `total_sub_device_footprint` (2 bytes), `base_dmx_address` (2 bytes).
    pub proof fn lemma_wire_layout(self)
        ensures
            self.spec_wire() == seq![(self.total_sub_device_footprint / 0x100) as u8, (self.total_sub_device_footprint % 0x100) as u8] + seq![(self.base_dmx_address / 0x100) as u8, (self.base_dmx_address % 0x100) as u8],
    {
    }

    /// Reading 4 bytes gives the fields at those places.
    pub proof fn lemma_read_layout(bytes: Seq<u8>)
        requires
            bytes.len() == 4,
        ensures
            <GetDmxBlockAddressResponse as FixedWire>::spec_read(bytes) == (Some(GetDmxBlockAddressResponse { total_sub_device_footprint: (bytes[0] as int * 0x100 + bytes[1] as int) as u16, base_dmx_address: (bytes[2] as int * 0x100 + bytes[3] as int) as u16 })),
    {
    }
}

impl GetDmxFailModeResponse {
    /// The wire form holds, in this order and big endian: `scene_id` (2 bytes), `loss_of_signal_delay` (2 bytes), `hold_time` (2 bytes), `level` (1 byte).
    pub proof fn lemma_wire_layout(self)
        ensures
            self.spec_wire() == self.scene_id.spec_wire() + self.loss_of_signal_delay.spec_wire() + self.hold_time.spec_wire() + seq![self.level],
    {
    }

    /// Reading 7 bytes gives the fields at those places.
    pub proof fn lemma_read_layout(bytes: Seq<u8>)
        requires
            bytes.len() == 7,
        ensures
            <GetDmxFailModeResponse as FixedWire>::spec_read(bytes) == (if <PresetPlaybackMode as FixedWire>::spec_read(bytes.subrange(0, 2)) is Some && <TimeMode as FixedWire>::spec_read(bytes.subrange(2, 4)) is Some && <TimeMode as FixedWire>::spec_read(bytes.subrange(4, 6)) is Some { Some(GetDmxFailModeResponse { scene_id: <PresetPlaybackMode as FixedWire>::spec_read(bytes.subrange(0, 2)).unwrap(), loss_of_signal_delay: <TimeMode as FixedWire>::spec_read(bytes.subrange(2, 4)).unwrap(), hold_time: <TimeMode as FixedWire>::spec_read(bytes.subrange(4, 6)).unwrap(), level: bytes[6] }) } else { None }),
    {
    }
}

impl GetDmxPersonalityDescriptionRequest {
    /// The wire form holds, in this order and big endian: `personality_id` (1 byte).
    pub proof fn lemma_wire_layout(self)
        ensures
            self.spec_wire() == seq![self.personality_id],
    {
    }

    /// Reading 1 bytes gives the fields at those places.
    pub proof fn lemma_read_layout(bytes: Seq<u8>)
        requires
            bytes.len() == 1,
        ensures
            <GetDmxPersonalityDescriptionRequest as FixedWire>::spec_read(bytes) == (Some(GetDmxPersonalityDescriptionRequest { personality_id: bytes[0] })),
    {
    }
}

impl GetDmxPersonalityResponse {
    /// The wire form holds, in this order and big endian: `current_personality` (1 byte), `personality_count` (1 byte).
    pub proof fn lemma_wire_layout(self)
        ensures
            self.spec_wire() == seq![self.current_personality] + seq![self.personality_count],
    {
    }

    /// Reading 2 bytes gives the fields at those places.
    pub proof fn lemma_read_layout(bytes: Seq<u8>)
        requires
            bytes.len() == 2,
        ensures
            <GetDmxPersonalityResponse as FixedWire>::spec_read(bytes) == (Some(GetDmxPersonalityResponse { current_personality: bytes[0], personality_count: bytes[1] })),
    {
    }
}

impl GetDmxStartAddressResponse {
    /// The wire form holds, in this order and big endian: `dmx_start_address` (2 bytes).
    pub proof fn lemma_wire_layout(self)
        ensures
            self.spec_wire() == seq![(self.dmx_start_address / 0x100) as u8, (self.dmx_start_address % 0x100) as u8],
    {
    }

    /// Reading 2 bytes gives the fields at those places.
    pub proof fn lemma_read_layout(bytes: Seq<u8>)
        requires
            bytes.len() == 2,
        ensures
            <GetDmxStartAddressResponse as FixedWire>::spec_read(bytes) == (Some(GetDmxStartAddressResponse { dmx_start_address: (bytes[0] as int * 0x100 + bytes[1] as int) as u16 })),
    {
    }
}

impl GetDmxStartupModeResponse {
    /// The wire form holds, in this order and big endian: `scene_id` (2 bytes), `startup_delay` (2 bytes), `hold_time` (2 bytes), `level` (1 byte).
    pub proof fn lemma_wire_layout(self)
        ensures
            self.spec_wire() == self.scene_id.spec_wire() + self.startup_delay.spec_wire() + self.hold_time.spec_wire() + seq![self.level],
    {
    }

    /// Reading 7 bytes gives the fields at those places.
    pub proof fn lemma_read_layout(bytes: Seq<u8>)
        requires
            bytes.len() == 7,
        ensures
            <GetDmxStartupModeResponse as FixedWire>::spec_read(bytes) == (if <PresetPlaybackMode as FixedWire>::spec_read(bytes.subrange(0, 2)) is Some && <TimeMode as FixedWire>::spec_read(bytes.subrange(2, 4)) is Some && <TimeMode as FixedWire>::spec_read(bytes.subrange(4, 6)) is Some { Some(GetDmxStartupModeResponse { scene_id: <PresetPlaybackMode as FixedWire>::spec_read(bytes.subrange(0, 2)).unwrap(), startup_delay: <TimeMode as FixedWire>::spec_read(bytes.subrange(2, 4)).unwrap(), hold_time: <TimeMode as FixedWire>::spec_read(bytes.subrange(4, 6)).unwrap(), level: bytes[6] }) } else { None }),
    {
    }
}

impl GetDnsIpV4NameServerRequest {
    /// The wire form holds, in this order and big endian: `name_server_index` (1 byte).
    pub proof fn lemma_wire_layout(self)
        ensures
            self.spec_wire() == seq![self.name_server_index],
    {
    }

    /// Reading 1 bytes gives the fields at those places.
    pub proof fn lemma_read_layout(bytes: Seq<u8>)
        requires
            bytes.len() == 1,
        ensures
            <GetDnsIpV4NameServerRequest as FixedWire>::spec_read(bytes) == (Some(GetDnsIpV4NameServerRequest { name_server_index: bytes[0] })),
    {
    }
}

impl GetDnsIpV4NameServerResponse {
    /// The wire form holds, in this order and big endian: `name_server_index` (1 byte), `address` (4 bytes).
    pub proof fn lemma_wire_layout(self)
        ensures
            self.spec_wire() == seq![self.name_server_index] + self.address.spec_wire(),
    {
    }

    /// Reading 5 bytes gives the fields at those places.
    pub proof fn lemma_read_layout(bytes: Seq<u8>)
        requires
            bytes.len() == 5,
        ensures
            <GetDnsIpV4NameServerResponse as FixedWire>::spec_read(bytes) == (if <Ipv4Address as FixedWire>::spec_read(bytes.subrange(1, 5)) is Some { Some(GetDnsIpV4NameServerResponse { name_server_index: bytes[0], address: <Ipv4Address as FixedWire>::spec_read(bytes.subrange(1, 5)).unwrap() }) } else { None }),
    {
    }
}

impl GetEndpointLabelRequest {
    /// The wire form holds, in this order and big endian: `endpoint_id` (2 bytes).
    pub proof fn lemma_wire_layout(self)
        ensures
            self.spec_wire() == self.endpoint_id.spec_wire(),
    {
    }

    /// Reading 2 bytes gives the fields at those places.
    pub proof fn lemma_read_layout(bytes: Seq<u8>)
        requires
            bytes.len() == 2,
        ensures
            <GetEndpointLabelRequest as FixedWire>::spec_read(bytes) == (if <EndpointId as FixedWire>::spec_read(bytes.subrange(0, 2)) is Some { Some(GetEndpointLabelRequest { endpoint_id: <EndpointId as FixedWire>::spec_read(bytes.subrange(0, 2)).unwrap() }) } else { None }),
    {
    }
}

impl GetEndpointListChangeResponse {
    /// The wire form holds, in this order and big endian: `list_change_number` (4 bytes).
    pub proof fn lemma_wire_layout(self)
        ensures
            self.spec_wire() == seq![(self.list_change_number / 0x100_0000) as u8, ((self.list_change_number / 0x1_0000) % 0x100) as u8, ((self.list_change_number / 0x100) % 0x100) as u8, (self.list_change_number % 0x100) as u8],
    {
    }

    /// Reading 4 bytes gives the fields at those places.
    pub proof fn lemma_read_layout(bytes: Seq<u8>)
        requires
            bytes.len() == 4,
        ensures
            <GetEndpointListChangeResponse as FixedWire>::spec_read(bytes) == (Some(GetEndpointListChangeResponse { list_change_number: (bytes[0] as int * 0x100_0000 + bytes[1] as int * 0x1_0000 + bytes[2] as int * 0x100 + bytes[3] as int) as u32 })),
    {
    }
}

impl GetEndpointModeRequest {
    /// The wire form holds, in this order and big endian: `endpoint_id` (2 bytes).
    pub proof fn lemma_wire_layout(self)
        ensures
            self.spec_wire() == self.endpoint_id.spec_wire(),
    {
    }

    /// Reading 2 bytes gives the fields at those places.
    pub proof fn lemma_read_layout(bytes: Seq<u8>)
        requires
            bytes.len() == 2,
        ensures
            <GetEndpointModeRequest as FixedWire>::spec_read(bytes) == (if <EndpointId as FixedWire>::spec_read(bytes.subrange(0, 2)) is Some { Some(GetEndpointModeRequest { endpoint_id: <EndpointId as FixedWire>::spec_read(bytes.subrange(0, 2)).unwrap() }) } else { None }),
    {
    }
}

impl GetEndpointModeResponse {
    /// The wire form holds, in this order and big endian: `endpoint_id` (2 bytes), `mode` (1 byte).
    pub proof fn lemma_wire_layout(self)
        ensures
            self.spec_wire() == self.endpoint_id.spec_wire() + self.mode.spec_wire(),
    {
    }

    /// Reading 3 bytes gives the fields at those places.
    pub proof fn lemma_read_layout(bytes: Seq<u8>)
        requires
            bytes.len() == 3,
        ensures
            <GetEndpointModeResponse as FixedWire>::spec_read(bytes) == (if <EndpointId as FixedWire>::spec_read(bytes.subrange(0, 2)) is Some && <EndpointMode as FixedWire>::spec_read(bytes.subrange(2, 3)) is Some { Some(GetEndpointModeResponse { endpoint_id: <EndpointId as FixedWire>::spec_read(bytes.subrange(0, 2)).unwrap(), mode: <EndpointMode as FixedWire>::spec_read(bytes.subrange(2, 3)).unwrap() }) } else { None }),
    {
    }
}

impl GetEndpointResponderListChangeRequest {
    /// The wire form holds, in this order and big endian: `endpoint_id` (2 bytes).
    pub proof fn lemma_wire_layout(self)
        ensures
            self.spec_wire() == self.endpoint_id.spec_wire(),
    {
    }

    /// Reading 2 bytes gives the fields at those places.
    pub proof fn lemma_read_layout(bytes: Seq<u8>)
        requires
            bytes.len() == 2,
        ensures
            <GetEndpointResponderListChangeRequest as FixedWire>::spec_read(bytes) == (if <EndpointId as FixedWire>::spec_read(bytes.subrange(0, 2)) is Some { Some(GetEndpointResponderListChangeRequest { endpoint_id: <EndpointId as FixedWire>::spec_read(bytes.subrange(0, 2)).unwrap() }) } else { None }),
    {
    }
}

impl GetEndpointResponderListChangeResponse {
    /// The wire form holds, in this order and big endian: `endpoint_id` (2 bytes), `list_change_number` (4 bytes).
    pub proof fn lemma_wire_layout(self)
        ensures
            self.spec_wire() == self.endpoint_id.spec_wire() + seq![(self.list_change_number / 0x100_0000) as u8, ((self.list_change_number / 0x1_0000) % 0x100) as u8, ((self.list_change_number / 0x100) % 0x100) as u8, (self.list_change_number % 0x100) as u8],
    {
    }

    /// Reading 6 bytes gives the fields at those places.
    pub proof fn lemma_read_layout(bytes: Seq<u8>)
        requires
            bytes.len() == 6,
        ensures
            <GetEndpointResponderListChangeResponse as FixedWire>::spec_read(bytes) == (if <EndpointId as FixedWire>::spec_read(bytes.subrange(0, 2)) is Some { Some(GetEndpointResponderListChangeResponse { endpoint_id: <EndpointId as FixedWire>::spec_read(bytes.subrange(0, 2)).unwrap(), list_change_number: (bytes[2] as int * 0x100_0000 + bytes[3] as int * 0x1_0000 + bytes[4] as int * 0x100 + bytes[5] as int) as u32 }) } else { None }),
    {
    }
}

impl GetEndpointRespondersRequest {
    /// The wire form holds, in this order and big endian: `endpoint_id` (2 bytes).
    pub proof fn lemma_wire_layout(self)
        ensures
            self.spec_wire() == self.endpoint_id.spec_wire(),
    {
    }

    /// Reading 2 bytes gives the fields at those places.
    pub proof fn lemma_read_layout(bytes: Seq<u8>)
        requires
            bytes.len() == 2,
        ensures
            <GetEndpointRespondersRequest as FixedWire>::spec_read(bytes) == (if <EndpointId as FixedWire>::spec_read(bytes.subrange(0, 2)) is Some { Some(GetEndpointRespondersRequest { endpoint_id: <EndpointId as FixedWire>::spec_read(bytes.subrange(0, 2)).unwrap() }) } else { None }),
    {
    }
}

impl GetEndpointTimingDescriptionRequest {
    /// The wire form holds, in this order and big endian: `setting_id` (1 byte).
    pub proof fn lemma_wire_layout(self)
        ensures
            self.spec_wire() == seq![self.setting_id],
    {
    }

    /// Reading 1 bytes gives the fields at those places.
    pub proof fn lemma_read_layout(bytes: Seq<u8>)
        requires
            bytes.len() == 1,
        ensures
            <GetEndpointTimingDescriptionRequest as FixedWire>::spec_read(bytes) == (Some(GetEndpointTimingDescriptionRequest { setting_id: bytes[0] })),
    {
    }
}

impl GetEndpointTimingRequest {
    /// The wire form holds, in this order and big endian: `endpoint_id` (2 bytes).
    pub proof fn lemma_wire_layout(self)
        ensures
            self.spec_wire() == self.endpoint_id.spec_wire(),
    {
    }

    /// Reading 2 bytes gives the fields at those places.
    pub proof fn lemma_read_layout(bytes: Seq<u8>)
        requires
            bytes.len() == 2,
        ensures
            <GetEndpointTimingRequest as FixedWire>::spec_read(bytes) == (if <EndpointId as FixedWire>::spec_read(bytes.subrange(0, 2)) is Some { Some(GetEndpointTimingRequest { endpoint_id: <EndpointId as FixedWire>::spec_read(bytes.subrange(0, 2)).unwrap() }) } else { None }),
    {
    }
}

impl GetEndpointTimingResponse {
    /// The wire form holds, in this order and big endian: `endpoint_id` (2 bytes), `current_setting_id` (1 byte), `setting_count` (1 byte).
    pub proof fn lemma_wire_layout(self)
        ensures
            self.spec_wire() == self.endpoint_id.spec_wire() + seq![self.current_setting_id] + seq![self.setting_count],
    {
    }

    /// Reading 4 bytes gives the fields at those places.
    pub proof fn lemma_read_layout(bytes: Seq<u8>)
        requires
            bytes.len() == 4,
        ensures
            <GetEndpointTimingResponse as FixedWire>::spec_read(bytes) == (if <EndpointId as FixedWire>::spec_read(bytes.subrange(0, 2)) is Some { Some(GetEndpointTimingResponse { endpoint_id: <EndpointId as FixedWire>::spec_read(bytes.subrange(0, 2)).unwrap(), current_setting_id: bytes[2], setting_count: bytes[3] }) } else { None }),
    {
    }
}

impl GetEndpointToUniverseRequest {
    /// The wire form holds, in this order and big endian: `endpoint_id` (2 bytes).
    pub proof fn lemma_wire_layout(self)
        ensures
            self.spec_wire() == self.endpoint_id.spec_wire(),
    {
    }

    /// Reading 2 bytes gives the fields at those places.
    pub proof fn lemma_read_layout(bytes: Seq<u8>)
        requires
            bytes.len() == 2,
        ensures
            <GetEndpointToUniverseRequest as FixedWire>::spec_read(bytes) == (if <EndpointId as FixedWire>::spec_read(bytes.subrange(0, 2)) is Some { Some(GetEndpointToUniverseRequest { endpoint_id: <EndpointId as FixedWire>::spec_read(bytes.subrange(0, 2)).unwrap() }) } else { None }),
    {
    }
}

impl GetEndpointToUniverseResponse {
    /// The wire form holds, in this order and big endian: `endpoint_id` (2 bytes), `universe` (2 bytes).
    pub proof fn lemma_wire_layout(self)
        ensures
            self.spec_wire() == self.endpoint_id.spec_wire() + seq![(self.universe / 0x100) as u8, (self.universe % 0x100) as u8],
    {
    }

    /// Reading 4 bytes gives the fields at those places.
    pub proof fn lemma_read_layout(bytes: Seq<u8>)
        requires
            bytes.len() == 4,
        ensures
            <GetEndpointToUniverseResponse as FixedWire>::spec_read(bytes) == (if <EndpointId as FixedWire>::spec_read(bytes.subrange(0, 2)) is Some { Some(GetEndpointToUniverseResponse { endpoint_id: <EndpointId as FixedWire>::spec_read(bytes.subrange(0, 2)).unwrap(), universe: (bytes[2] as int * 0x100 + bytes[3] as int) as u16 }) } else { None }),
    {
    }
}

impl GetFactoryDefaultsResponse {
    /// The wire form holds, in this order and big endian: `factory_reset` (1 byte).
    pub proof fn lemma_wire_layout(self)
        ensures
            self.spec_wire() == seq![if self.factory_reset { 1u8 } else { 0u8 }],
    {
    }

    /// Reading 1 bytes gives the fields at those places.
    pub proof fn lemma_read_layout(bytes: Seq<u8>)
        requires
            bytes.len() == 1,
        ensures
            <GetFactoryDefaultsResponse as FixedWire>::spec_read(bytes) == (Some(GetFactoryDefaultsResponse { factory_reset: bytes[0] != 0 })),
    {
    }
}

impl GetIdentifyDeviceResponse {
    /// The wire form holds, in this order and big endian: `identify` (1 byte).
    pub proof fn lemma_wire_layout(self)
        ensures
            self.spec_wire() == seq![if self.identify { 1u8 } else { 0u8 }],
    {
    }

    /// Reading 1 bytes gives the fields at those places.
    pub proof fn lemma_read_layout(bytes: Seq<u8>)
        requires
            bytes.len() == 1,
        ensures
            <GetIdentifyDeviceResponse as FixedWire>::spec_read(bytes) == (Some(GetIdentifyDeviceResponse { identify: bytes[0] != 0 })),
    {
    }
}

impl GetIdentifyEndpointRequest {
    /// The wire form holds, in this order and big endian: `endpoint_id` (2 bytes).
    pub proof fn lemma_wire_layout(self)
        ensures
            self.spec_wire() == self.endpoint_id.spec_wire(),
    {
    }

    /// Reading 2 bytes gives the fields at those places.
    pub proof fn lemma_read_layout(bytes: Seq<u8>)
        requires
            bytes.len() == 2,
        ensures
            <GetIdentifyEndpointRequest as FixedWire>::spec_read(bytes) == (if <EndpointId as FixedWire>::spec_read(bytes.subrange(0, 2)) is Some { Some(GetIdentifyEndpointRequest { endpoint_id: <EndpointId as FixedWire>::spec_read(bytes.subrange(0, 2)).unwrap() }) } else { None }),
    {
    }
}

impl GetIdentifyEndpointResponse {
    /// The wire form holds, in this order and big endian: `endpoint_id` (2 bytes), `identify` (1 byte).
    pub proof fn lemma_wire_layout(self)
        ensures
            self.spec_wire() == self.endpoint_id.spec_wire() + seq![if self.identify { 1u8 } else { 0u8 }],
    {
    }

    /// Reading 3 bytes gives the fields at those places.
    pub proof fn lemma_read_layout(bytes: Seq<u8>)
        requires
            bytes.len() == 3,
        ensures
            <GetIdentifyEndpointResponse as FixedWire>::spec_read(bytes) == (if <EndpointId as FixedWire>::spec_read(bytes.subrange(0, 2)) is Some { Some(GetIdentifyEndpointResponse { endpoint_id: <EndpointId as FixedWire>::spec_read(bytes.subrange(0, 2)).unwrap(), identify: bytes[2] != 0 }) } else { None }),
    {
    }
}

impl GetIdentifyModeResponse {
    /// The wire form holds, in this order and big endian: `identify_mode` (1 byte).
    pub proof fn lemma_wire_layout(self)
        ensures
            self.spec_wire() == seq![self.identify_mode],
    {
    }

    /// Reading 1 bytes gives the fields at those places.
    pub proof fn lemma_read_layout(bytes: Seq<u8>)
        requires
            bytes.len() == 1,
        ensures
            <GetIdentifyModeResponse as FixedWire>::spec_read(bytes) == (Some(GetIdentifyModeResponse { identify_mode: bytes[0] })),
    {
    }
}

impl GetInterfaceHardwareAddressType1Request {
    /// The wire form holds, in this order and big endian: `interface_id` (4 bytes).
    pub proof fn lemma_wire_layout(self)
        ensures
            self.spec_wire() == seq![(self.interface_id / 0x100_0000) as u8, ((self.interface_id / 0x1_0000) % 0x100) as u8, ((self.interface_id / 0x100) % 0x100) as u8, (self.interface_id % 0x100) as u8],
    {
    }

    /// Reading 4 bytes gives the fields at those places.
    pub proof fn lemma_read_layout(bytes: Seq<u8>)
        requires
            bytes.len() == 4,
        ensures
            <GetInterfaceHardwareAddressType1Request as FixedWire>::spec_read(bytes) == (Some(GetInterfaceHardwareAddressType1Request { interface_id: (bytes[0] as int * 0x100_0000 + bytes[1] as int * 0x1_0000 + bytes[2] as int * 0x100 + bytes[3] as int) as u32 })),
    {
    }
}

impl GetInterfaceHardwareAddressType1Response {
    /// The wire form holds, in this order and big endian: `interface_id` (4 bytes), `hardware_address` (6 bytes).
    pub proof fn lemma_wire_layout(self)
        ensures
            self.spec_wire() == seq![(self.interface_id / 0x100_0000) as u8, ((self.interface_id / 0x1_0000) % 0x100) as u8, ((self.interface_id / 0x100) % 0x100) as u8, (self.interface_id % 0x100) as u8] + self.hardware_address.spec_wire(),
    {
    }

    /// Reading 10 bytes gives the fields at those places.
    pub proof fn lemma_read_layout(bytes: Seq<u8>)
        requires
            bytes.len() == 10,
        ensures
            <GetInterfaceHardwareAddressType1Response as FixedWire>::spec_read(bytes) == (if <MacAddress as FixedWire>::spec_read(bytes.subrange(4, 10)) is Some { Some(GetInterfaceHardwareAddressType1Response { interface_id: (bytes[0] as int * 0x100_0000 + bytes[1] as int * 0x1_0000 + bytes[2] as int * 0x100 + bytes[3] as int) as u32, hardware_address: <MacAddress as FixedWire>::spec_read(bytes.subrange(4, 10)).unwrap() }) } else { None }),
    {
    }
}

impl GetInterfaceLabelRequest {
    /// The wire form holds, in this order and big endian: `interface_id` (4 bytes).
    pub proof fn lemma_wire_layout(self)
        ensures
            self.spec_wire() == seq![(self.interface_id / 0x100_0000) as u8, ((self.interface_id / 0x1_0000) % 0x100) as u8, ((self.interface_id / 0x100) % 0x100) as u8, (self.interface_id % 0x100) as u8],
    {
    }

    /// Reading 4 bytes gives the fields at those places.
    pub proof fn lemma_read_layout(bytes: Seq<u8>)
        requires
            bytes.len() == 4,
        ensures
            <GetInterfaceLabelRequest as FixedWire>::spec_read(bytes) == (Some(GetInterfaceLabelRequest { interface_id: (bytes[0] as int * 0x100_0000 + bytes[1] as int * 0x1_0000 + bytes[2] as int * 0x100 + bytes[3] as int) as u32 })),
    {
    }
}

impl GetInterfaceLabelResponse {
    /// The wire form holds, in this order and big endian: `interface_id` (4 bytes), `interface_label` (32 bytes).
    pub proof fn lemma_wire_layout(self)
        ensures
            self.spec_wire() == seq![(self.interface_id / 0x100_0000) as u8, ((self.interface_id / 0x1_0000) % 0x100) as u8, ((self.interface_id / 0x100) % 0x100) as u8, (self.interface_id % 0x100) as u8] + self.interface_label.spec_wire(),
    {
    }

    /// Reading 36 bytes gives the fields at those places.
    pub proof fn lemma_read_layout(bytes: Seq<u8>)
        requires
            bytes.len() == 36,
        ensures
            <GetInterfaceLabelResponse as FixedWire>::spec_read(bytes) == (if <InterfaceLabel as FixedWire>::spec_read(bytes.subrange(4, 36)) is Some { Some(GetInterfaceLabelResponse { interface_id: (bytes[0] as int * 0x100_0000 + bytes[1] as int * 0x1_0000 + bytes[2] as int * 0x100 + bytes[3] as int) as u32, interface_label: <InterfaceLabel as FixedWire>::spec_read(bytes.subrange(4, 36)).unwrap() }) } else { None }),
    {
    }
}

impl GetIpV4CurrentAddressRequest {
    /// The wire form holds, in this order and big endian: `interface_id` (4 bytes).
    pub proof fn lemma_wire_layout(self)
        ensures
            self.spec_wire() == seq![(self.interface_id / 0x100_0000) as u8, ((self.interface_id / 0x1_0000) % 0x100) as u8, ((self.interface_id / 0x100) % 0x100) as u8, (self.interface_id % 0x100) as u8],
    {
    }

    /// Reading 4 bytes gives the fields at those places.
    pub proof fn lemma_read_layout(bytes: Seq<u8>)
        requires
            bytes.len() == 4,
        ensures
            <GetIpV4CurrentAddressRequest as FixedWire>::spec_read(bytes) == (Some(GetIpV4CurrentAddressRequest { interface_id: (bytes[0] as int * 0x100_0000 + bytes[1] as int * 0x1_0000 + bytes[2] as int * 0x100 + bytes[3] as int) as u32 })),
    {
    }
}

impl GetIpV4CurrentAddressResponse {
    /// The wire form holds, in this order and big endian: `interface_id` (4 bytes), `address` (4 bytes), `netmask` (1 byte), `dhcp_status` (1 byte).
    pub proof fn lemma_wire_layout(self)
        ensures
            self.spec_wire() == seq![(self.interface_id / 0x100_0000) as u8, ((self.interface_id / 0x1_0000) % 0x100) as u8, ((self.interface_id / 0x100) % 0x100) as u8, (self.interface_id % 0x100) as u8] + self.address.spec_wire() + seq![self.netmask] + self.dhcp_status.spec_wire(),
    {
    }

    /// Reading 10 bytes gives the fields at those places.
    pub proof fn lemma_read_layout(bytes: Seq<u8>)
        requires
            bytes.len() == 10,
        ensures
            <GetIpV4CurrentAddressResponse as FixedWire>::spec_read(bytes) == (if <Ipv4Address as FixedWire>::spec_read(bytes.subrange(4, 8)) is Some && <DhcpMode as FixedWire>::spec_read(bytes.subrange(9, 10)) is Some { Some(GetIpV4CurrentAddressResponse { interface_id: (bytes[0] as int * 0x100_0000 + bytes[1] as int * 0x1_0000 + bytes[2] as int * 0x100 + bytes[3] as int) as u32, address: <Ipv4Address as FixedWire>::spec_read(bytes.subrange(4, 8)).unwrap(), netmask: bytes[8], dhcp_status: <DhcpMode as FixedWire>::spec_read(bytes.subrange(9, 10)).unwrap() }) } else { None }),
    {
    }
}

impl GetIpV4DefaultRouteResponse {
    /// The wire form holds, in this order and big endian: `interface_id` (4 bytes), `address` (4 bytes).
    pub proof fn lemma_wire_layout(self)
        ensures
            self.spec_wire() == seq![(self.interface_id / 0x100_0000) as u8, ((self.interface_id / 0x1_0000) % 0x100) as u8, ((self.interface_id / 0x100) % 0x100) as u8, (self.interface_id % 0x100) as u8] + self.address.spec_wire(),
    {
    }

    /// Reading 8 bytes gives the fields at those places.
    pub proof fn lemma_read_layout(bytes: Seq<u8>)
        requires
            bytes.len() == 8,
        ensures
            <GetIpV4DefaultRouteResponse as FixedWire>::spec_read(bytes) == (if <Ipv4Route as FixedWire>::spec_read(bytes.subrange(4, 8)) is Some { Some(GetIpV4DefaultRouteResponse { interface_id: (bytes[0] as int * 0x100_0000 + bytes[1] as int * 0x1_0000 + bytes[2] as int * 0x100 + bytes[3] as int) as u32, address: <Ipv4Route as FixedWire>::spec_read(bytes.subrange(4, 8)).unwrap() }) } else { None }),
    {
    }
}

impl GetIpV4DhcpModeRequest {
    /// The wire form holds, in this order and big endian: `interface_id` (4 bytes).
    pub proof fn lemma_wire_layout(self)
        ensures
            self.spec_wire() == seq![(self.interface_id / 0x100_0000) as u8, ((self.interface_id / 0x1_0000) % 0x100) as u8, ((self.interface_id / 0x100) % 0x100) as u8, (self.interface_id % 0x100) as u8],
    {
    }

    /// Reading 4 bytes gives the fields at those places.
    pub proof fn lemma_read_layout(bytes: Seq<u8>)
        requires
            bytes.len() == 4,
        ensures
            <GetIpV4DhcpModeRequest as FixedWire>::spec_read(bytes) == (Some(GetIpV4DhcpModeRequest { interface_id: (bytes[0] as int * 0x100_0000 + bytes[1] as int * 0x1_0000 + bytes[2] as int * 0x100 + bytes[3] as int) as u32 })),
    {
    }
}

impl GetIpV4DhcpModeResponse {
    /// The wire form holds, in this order and big endian: `interface_id` (4 bytes), `dhcp_mode` (1 byte).
    pub proof fn lemma_wire_layout(self)
        ensures
            self.spec_wire() == seq![(self.interface_id / 0x100_0000) as u8, ((self.interface_id / 0x1_0000) % 0x100) as u8, ((self.interface_id / 0x100) % 0x100) as u8, (self.interface_id % 0x100) as u8] + seq![if self.dhcp_mode { 1u8 } else { 0u8 }],
    {
    }

    /// Reading 5 bytes gives the fields at those places.
    pub proof fn lemma_read_layout(bytes: Seq<u8>)
        requires
            bytes.len() == 5,
        ensures
            <GetIpV4DhcpModeResponse as FixedWire>::spec_read(bytes) == (Some(GetIpV4DhcpModeResponse { interface_id: (bytes[0] as int * 0x100_0000 + bytes[1] as int * 0x1_0000 + bytes[2] as int * 0x100 + bytes[3] as int) as u32, dhcp_mode: bytes[4] != 0 })),
    {
    }
}

impl GetIpV4StaticAddressRequest {
    /// The wire form holds, in this order and big endian: `interface_id` (4 bytes).
    pub proof fn lemma_wire_layout(self)
        ensures
            self.spec_wire() == seq![(self.interface_id / 0x100_0000) as u8, ((self.interface_id / 0x1_0000) % 0x100) as u8, ((self.interface_id / 0x100) % 0x100) as u8, (self.interface_id % 0x100) as u8],
    {
    }

    /// Reading 4 bytes gives the fields at those places.
    pub proof fn lemma_read_layout(bytes: Seq<u8>)
        requires
            bytes.len() == 4,
        ensures
            <GetIpV4StaticAddressRequest as FixedWire>::spec_read(bytes) == (Some(GetIpV4StaticAddressRequest { interface_id: (bytes[0] as int * 0x100_0000 + bytes[1] as int * 0x1_0000 + bytes[2] as int * 0x100 + bytes[3] as int) as u32 })),
    {
    }
}

impl GetIpV4StaticAddressResponse {
    /// The wire form holds, in this order and big endian: `interface_id` (4 bytes), `address` (4 bytes), `netmask` (1 byte).
    pub proof fn lemma_wire_layout(self)
        ensures
            self.spec_wire() == seq![(self.interface_id / 0x100_0000) as u8, ((self.interface_id / 0x1_0000) % 0x100) as u8, ((self.interface_id / 0x100) % 0x100) as u8, (self.interface_id % 0x100) as u8] + self.address.spec_wire() + seq![self.netmask],
    {
    }

    /// Reading 9 bytes gives the fields at those places.
    pub proof fn lemma_read_layout(bytes: Seq<u8>)
        requires
            bytes.len() == 9,
        ensures
            <GetIpV4StaticAddressResponse as FixedWire>::spec_read(bytes) == (if <Ipv4Address as FixedWire>::spec_read(bytes.subrange(4, 8)) is Some { Some(GetIpV4StaticAddressResponse { interface_id: (bytes[0] as int * 0x100_0000 + bytes[1] as int * 0x1_0000 + bytes[2] as int * 0x100 + bytes[3] as int) as u32, address: <Ipv4Address as FixedWire>::spec_read(bytes.subrange(4, 8)).unwrap(), netmask: bytes[8] }) } else { None }),
    {
    }
}

impl GetIpV4ZeroConfModeRequest {
    /// The wire form holds, in this order and big endian: `interface_id` (4 bytes).
    pub proof fn lemma_wire_layout(self)
        ensures
            self.spec_wire() == seq![(self.interface_id / 0x100_0000) as u8, ((self.interface_id / 0x1_0000) % 0x100) as u8, ((self.interface_id / 0x100) % 0x100) as u8, (self.interface_id % 0x100) as u8],
    {
    }

    /// Reading 4 bytes gives the fields at those places.
    pub proof fn lemma_read_layout(bytes: Seq<u8>)
        requires
            bytes.len() == 4,
        ensures
            <GetIpV4ZeroConfModeRequest as FixedWire>::spec_read(bytes) == (Some(GetIpV4ZeroConfModeRequest { interface_id: (bytes[0] as int * 0x100_0000 + bytes[1] as int * 0x1_0000 + bytes[2] as int * 0x100 + bytes[3] as int) as u32 })),
    {
    }
}

impl GetIpV4ZeroConfModeResponse {
    /// The wire form holds, in this order and big endian: `interface_id` (4 bytes), `zero_conf_mode` (1 byte).
    pub proof fn lemma_wire_layout(self)
        ensures
            self.spec_wire() == seq![(self.interface_id / 0x100_0000) as u8, ((self.interface_id / 0x1_0000) % 0x100) as u8, ((self.interface_id / 0x100) % 0x100) as u8, (self.interface_id % 0x100) as u8] + seq![if self.zero_conf_mode { 1u8 } else { 0u8 }],
    {
    }

    /// Reading 5 bytes gives the fields at those places.
    pub proof fn lemma_read_layout(bytes: Seq<u8>)
        requires
            bytes.len() == 5,
        ensures
            <GetIpV4ZeroConfModeResponse as FixedWire>::spec_read(bytes) == (Some(GetIpV4ZeroConfModeResponse { interface_id: (bytes[0] as int * 0x100_0000 + bytes[1] as int * 0x1_0000 + bytes[2] as int * 0x100 + bytes[3] as int) as u32, zero_conf_mode: bytes[4] != 0 })),
    {
    }
}

impl GetLampHoursResponse {
    /// The wire form holds, in this order and big endian: `lamp_hours` (4 bytes).
    pub proof fn lemma_wire_layout(self)
        ensures
            self.spec_wire() == seq![(self.lamp_hours / 0x100_0000) as u8, ((self.lamp_hours / 0x1_0000) % 0x100) as u8, ((self.lamp_hours / 0x100) % 0x100) as u8, (self.lamp_hours % 0x100) as u8],
    {
    }

    /// Reading 4 bytes gives the fields at those places.
    pub proof fn lemma_read_layout(bytes: Seq<u8>)
        requires
            bytes.len() == 4,
        ensures
            <GetLampHoursResponse as FixedWire>::spec_read(bytes) == (Some(GetLampHoursResponse { lamp_hours: (bytes[0] as int * 0x100_0000 + bytes[1] as int * 0x1_0000 + bytes[2] as int * 0x100 + bytes[3] as int) as u32 })),
    {
    }
}

impl GetLampOnModeResponse {
    /// The wire form holds, in this order and big endian: `lamp_on_mode` (1 byte).
    pub proof fn lemma_wire_layout(self)
        ensures
            self.spec_wire() == self.lamp_on_mode.spec_wire(),
    {
    }

    /// Reading 1 bytes gives the fields at those places.
    pub proof fn lemma_read_layout(bytes: Seq<u8>)
        requires
            bytes.len() == 1,
        ensures
            <GetLampOnModeResponse as FixedWire>::spec_read(bytes) == (if <LampOnMode as FixedWire>::spec_read(bytes.subrange(0, 1)) is Some { Some(GetLampOnModeResponse { lamp_on_mode: <LampOnMode as FixedWire>::spec_read(bytes.subrange(0, 1)).unwrap() }) } else { None }),
    {
    }
}

impl GetLampStateResponse {
    /// The wire form holds, in this order and big endian: `lamp_state` (1 byte).
    pub proof fn lemma_wire_layout(self)
        ensures
            self.spec_wire() == self.lamp_state.spec_wire(),
    {
    }

    /// Reading 1 bytes gives the fields at those places.
    pub proof fn lemma_read_layout(bytes: Seq<u8>)
        requires
            bytes.len() == 1,
        ensures
            <GetLampStateResponse as FixedWire>::spec_read(bytes) == (if <LampState as FixedWire>::spec_read(bytes.subrange(0, 1)) is Some { Some(GetLampStateResponse { lamp_state: <LampState as FixedWire>::spec_read(bytes.subrange(0, 1)).unwrap() }) } else { None }),
    {
    }
}

impl GetLampStrikesResponse {
    /// The wire form holds, in this order and big endian: `lamp_strikes` (4 bytes).
    pub proof fn lemma_wire_layout(self)
        ensures
            self.spec_wire() == seq![(self.lamp_strikes / 0x100_0000) as u8, ((self.lamp_strikes / 0x1_0000) % 0x100) as u8, ((self.lamp_strikes / 0x100) % 0x100) as u8, (self.lamp_strikes % 0x100) as u8],
    {
    }

    /// Reading 4 bytes gives the fields at those places.
    pub proof fn lemma_read_layout(bytes: Seq<u8>)
        requires
            bytes.len() == 4,
        ensures
            <GetLampStrikesResponse as FixedWire>::spec_read(bytes) == (Some(GetLampStrikesResponse { lamp_strikes: (bytes[0] as int * 0x100_0000 + bytes[1] as int * 0x1_0000 + bytes[2] as int * 0x100 + bytes[3] as int) as u32 })),
    {
    }
}

impl GetLockPinResponse {
    /// The wire form holds, in this order and big endian: `current_pin_code` (2 bytes).
    pub proof fn lemma_wire_layout(self)
        ensures
            self.spec_wire() == self.current_pin_code.spec_wire(),
    {
    }

    /// Reading 2 bytes gives the fields at those places.
    pub proof fn lemma_read_layout(bytes: Seq<u8>)
        requires
            bytes.len() == 2,
        ensures
            <GetLockPinResponse as FixedWire>::spec_read(bytes) == (if <PinCode as FixedWire>::spec_read(bytes.subrange(0, 2)) is Some { Some(GetLockPinResponse { current_pin_code: <PinCode as FixedWire>::spec_read(bytes.subrange(0, 2)).unwrap() }) } else { None }),
    {
    }
}

impl GetLockStateDescriptionRequest {
    /// The wire form holds, in this order and big endian: `lock_state_id` (1 byte).
    pub proof fn lemma_wire_layout(self)
        ensures
            self.spec_wire() == seq![self.lock_state_id],
    {
    }

    /// Reading 1 bytes gives the fields at those places.
    pub proof fn lemma_read_layout(bytes: Seq<u8>)
        requires
            bytes.len() == 1,
        ensures
            <GetLockStateDescriptionRequest as FixedWire>::spec_read(bytes) == (Some(GetLockStateDescriptionRequest { lock_state_id: bytes[0] })),
    {
    }
}

impl GetLockStateResponse {
    /// The wire form holds, in this order and big endian: `lock_state_id` (1 byte), `lock_state_count` (1 byte).
    pub proof fn lemma_wire_layout(self)
        ensures
            self.spec_wire() == seq![self.lock_state_id] + seq![self.lock_state_count],
    {
    }

    /// Reading 2 bytes gives the fields at those places.
    pub proof fn lemma_read_layout(bytes: Seq<u8>)
        requires
            bytes.len() == 2,
        ensures
            <GetLockStateResponse as FixedWire>::spec_read(bytes) == (Some(GetLockStateResponse { lock_state_id: bytes[0], lock_state_count: bytes[1] })),
    {
    }
}

impl GetMaximumLevelResponse {
    /// The wire form holds, in this order and big endian: `maximum_level` (2 bytes).
    pub proof fn lemma_wire_layout(self)
        ensures
            self.spec_wire() == seq![(self.maximum_level / 0x100) as u8, (self.maximum_level % 0x100) as u8],
    {
    }

    /// Reading 2 bytes gives the fields at those places.
    pub proof fn lemma_read_layout(bytes: Seq<u8>)
        requires
            bytes.len() == 2,
        ensures
            <GetMaximumLevelResponse as FixedWire>::spec_read(bytes) == (Some(GetMaximumLevelResponse { maximum_level: (bytes[0] as int * 0x100 + bytes[1] as int) as u16 })),
    {
    }
}

impl GetMinimumLevelResponse {
    /// The wire form holds, in this order and big endian: `minimum_level_increasing` (2 bytes), `minimum_level_decreasing` (2 bytes), `on_below_minimum` (1 byte).
    pub proof fn lemma_wire_layout(self)
        ensures
            self.spec_wire() == seq![(self.minimum_level_increasing / 0x100) as u8, (self.minimum_level_increasing % 0x100) as u8] + seq![(self.minimum_level_decreasing / 0x100) as u8, (self.minimum_level_decreasing % 0x100) as u8] + seq![if self.on_below_minimum { 1u8 } else { 0u8 }],
    {
    }

    /// Reading 5 bytes gives the fields at those places.
    pub proof fn lemma_read_layout(bytes: Seq<u8>)
        requires
            bytes.len() == 5,
        ensures
            <GetMinimumLevelResponse as FixedWire>::spec_read(bytes) == (Some(GetMinimumLevelResponse { minimum_level_increasing: (bytes[0] as int * 0x100 + bytes[1] as int) as u16, minimum_level_decreasing: (bytes[2] as int * 0x100 + bytes[3] as int) as u16, on_below_minimum: bytes[4] != 0 })),
    {
    }
}

impl GetModulationFrequencyDescriptionRequest {
    /// The wire form holds, in this order and big endian: `modulation_frequency_id` (1 byte).
    pub proof fn lemma_wire_layout(self)
        ensures
            self.spec_wire() == seq![self.modulation_frequency_id],
    {
    }

    /// Reading 1 bytes gives the fields at those places.
    pub proof fn lemma_read_layout(bytes: Seq<u8>)
        requires
            bytes.len() == 1,
        ensures
            <GetModulationFrequencyDescriptionRequest as FixedWire>::spec_read(bytes) == (Some(GetModulationFrequencyDescriptionRequest { modulation_frequency_id: bytes[0] })),
    {
    }
}

impl GetModulationFrequencyResponse {
    /// The wire form holds, in this order and big endian: `modulation_frequency_id` (1 byte), `modulation_frequency_count` (1 byte).
    pub proof fn lemma_wire_layout(self)
        ensures
            self.spec_wire() == seq![self.modulation_frequency_id] + seq![self.modulation_frequency_count],
    {
    }

    /// Reading 2 bytes gives the fields at those places.
    pub proof fn lemma_read_layout(bytes: Seq<u8>)
        requires
            bytes.len() == 2,
        ensures
            <GetModulationFrequencyResponse as FixedWire>::spec_read(bytes) == (Some(GetModulationFrequencyResponse { modulation_frequency_id: bytes[0], modulation_frequency_count: bytes[1] })),
    {
    }
}

impl GetOutputResponseTimeDescriptionRequest {
    /// The wire form holds, in this order and big endian: `output_response_time_id` (1 byte).
    pub proof fn lemma_wire_layout(self)
        ensures
            self.spec_wire() == seq![self.output_response_time_id],
    {
    }

    /// Reading 1 bytes gives the fields at those places.
    pub proof fn lemma_read_layout(bytes: Seq<u8>)
        requires
            bytes.len() == 1,
        ensures
            <GetOutputResponseTimeDescriptionRequest as FixedWire>::spec_read(bytes) == (Some(GetOutputResponseTimeDescriptionRequest { output_response_time_id: bytes[0] })),
    {
    }
}

impl GetOutputResponseTimeResponse {
    /// The wire form holds, in this order and big endian: `response_time_id` (1 byte), `response_time_count` (1 byte).
    pub proof fn lemma_wire_layout(self)
        ensures
            self.spec_wire() == seq![self.response_time_id] + seq![self.response_time_count],
    {
    }

    /// Reading 2 bytes gives the fields at those places.
    pub proof fn lemma_read_layout(bytes: Seq<u8>)
        requires
            bytes.len() == 2,
        ensures
            <GetOutputResponseTimeResponse as FixedWire>::spec_read(bytes) == (Some(GetOutputResponseTimeResponse { response_time_id: bytes[0], response_time_count: bytes[1] })),
    {
    }
}

impl GetPanInvertResponse {
    /// The wire form holds, in this order and big endian: `pan_invert` (1 byte).
    pub proof fn lemma_wire_layout(self)
        ensures
            self.spec_wire() == seq![if self.pan_invert { 1u8 } else { 0u8 }],
    {
    }

    /// Reading 1 bytes gives the fields at those places.
    pub proof fn lemma_read_layout(bytes: Seq<u8>)
        requires
            bytes.len() == 1,
        ensures
            <GetPanInvertResponse as FixedWire>::spec_read(bytes) == (Some(GetPanInvertResponse { pan_invert: bytes[0] != 0 })),
    {
    }
}

impl GetPanTiltSwapResponse {
    /// The wire form holds, in this order and big endian: `pan_tilt_swap` (1 byte).
    pub proof fn lemma_wire_layout(self)
        ensures
            self.spec_wire() == seq![if self.pan_tilt_swap { 1u8 } else { 0u8 }],
    {
    }

    /// Reading 1 bytes gives the fields at those places.
    pub proof fn lemma_read_layout(bytes: Seq<u8>)
        requires
            bytes.len() == 1,
        ensures
            <GetPanTiltSwapResponse as FixedWire>::spec_read(bytes) == (Some(GetPanTiltSwapResponse { pan_tilt_swap: bytes[0] != 0 })),
    {
    }
}

impl GetParameterDescriptionRequest {
    /// The wire form holds, in this order and big endian: `parameter_id` (2 bytes).
    pub proof fn lemma_wire_layout(self)
        ensures
            self.spec_wire() == self.parameter_id.spec_wire(),
    {
    }

    /// Reading 2 bytes gives the fields at those places.
    pub proof fn lemma_read_layout(bytes: Seq<u8>)
        requires
            bytes.len() == 2,
        ensures
            <GetParameterDescriptionRequest as FixedWire>::spec_read(bytes) == (if <ParameterId as FixedWire>::spec_read(bytes.subrange(0, 2)) is Some { Some(GetParameterDescriptionRequest { parameter_id: <ParameterId as FixedWire>::spec_read(bytes.subrange(0, 2)).unwrap() }) } else { None }),
    {
    }
}

impl GetPerformSelfTestResponse {
    /// The wire form holds, in this order and big endian: `perform_self_test` (1 byte).
    pub proof fn lemma_wire_layout(self)
        ensures
            self.spec_wire() == seq![if self.perform_self_test { 1u8 } else { 0u8 }],
    {
    }

    /// Reading 1 bytes gives the fields at those places.
    pub proof fn lemma_read_layout(bytes: Seq<u8>)
        requires
            bytes.len() == 1,
        ensures
            <GetPerformSelfTestResponse as FixedWire>::spec_read(bytes) == (Some(GetPerformSelfTestResponse { perform_self_test: bytes[0] != 0 })),
    {
    }
}

impl GetPowerOnSelfTestResponse {
    /// The wire form holds, in this order and big endian: `power_on_self_test` (1 byte).
    pub proof fn lemma_wire_layout(self)
        ensures
            self.spec_wire() == seq![if self.power_on_self_test { 1u8 } else { 0u8 }],
    {
    }

    /// Reading 1 bytes gives the fields at those places.
    pub proof fn lemma_read_layout(bytes: Seq<u8>)
        requires
            bytes.len() == 1,
        ensures
            <GetPowerOnSelfTestResponse as FixedWire>::spec_read(bytes) == (Some(GetPowerOnSelfTestResponse { power_on_self_test: bytes[0] != 0 })),
    {
    }
}

impl GetPowerStateResponse {
    /// The wire form holds, in this order and big endian: `power_state` (1 byte).
    pub proof fn lemma_wire_layout(self)
        ensures
            self.spec_wire() == self.power_state.spec_wire(),
    {
    }

    /// Reading 1 bytes gives the fields at those places.
    pub proof fn lemma_read_layout(bytes: Seq<u8>)
        requires
            bytes.len() == 1,
        ensures
            <GetPowerStateResponse as FixedWire>::spec_read(bytes) == (if <PowerState as FixedWire>::spec_read(bytes.subrange(0, 1)) is Some { Some(GetPowerStateResponse { power_state: <PowerState as FixedWire>::spec_read(bytes.subrange(0, 1)).unwrap() }) } else { None }),
    {
    }
}

impl GetPresetInfoResponse {
    /// The wire form holds, in this order and big endian: `level_field_supported` (1 byte), `preset_sequence_supported` (1 byte), `split_times_supported` (1 byte), `dmx_fail_infinite_delay_time_supported` (1 byte), `dmx_fail_infinite_hold_time_supported` (1 byte), `startup_infinite_hold_time_supported` (1 byte), `maximum_scene_number` (2 bytes), `minimum_preset_fade_time_supported` (2 bytes), `maximum_preset_fade_time_supported` (2 bytes), `minimum_preset_wait_time_supported` (2 bytes), `maximum_preset_wait_time_supported` (2 bytes), `minimum_dmx_fail_delay_time_supported` (2 bytes), `maximum_dmx_fail_delay_time_supported` (2 bytes), `minimum_dmx_fail_hold_time_supported` (2 bytes), `maximum_dmx_fail_hold_time_supported` (2 bytes), `minimum_startup_delay_time_supported` (2 bytes), `maximum_startup_delay_time_supported` (2 bytes), `minimum_startup_hold_time_supported` (2 bytes), `maximum_startup_hold_time_supported` (2 bytes).
    pub proof fn lemma_wire_layout(self)
        ensures
            self.spec_wire() == seq![if self.level_field_supported { 1u8 } else { 0u8 }] + seq![if self.preset_sequence_supported { 1u8 } else { 0u8 }] + seq![if self.split_times_supported { 1u8 } else { 0u8 }] + seq![if self.dmx_fail_infinite_delay_time_supported { 1u8 } else { 0u8 }] + seq![if self.dmx_fail_infinite_hold_time_supported { 1u8 } else { 0u8 }] + seq![if self.startup_infinite_hold_time_supported { 1u8 } else { 0u8 }] + seq![(self.maximum_scene_number / 0x100) as u8, (self.maximum_scene_number % 0x100) as u8] + seq![(self.minimum_preset_fade_time_supported / 0x100) as u8, (self.minimum_preset_fade_time_supported % 0x100) as u8] + seq![(self.maximum_preset_fade_time_supported / 0x100) as u8, (self.maximum_preset_fade_time_supported % 0x100) as u8] + seq![(self.minimum_preset_wait_time_supported / 0x100) as u8, (self.minimum_preset_wait_time_supported % 0x100) as u8] + seq![(self.maximum_preset_wait_time_supported / 0x100) as u8, (self.maximum_preset_wait_time_supported % 0x100) as u8] + self.minimum_dmx_fail_delay_time_supported.spec_wire() + self.maximum_dmx_fail_delay_time_supported.spec_wire() + self.minimum_dmx_fail_hold_time_supported.spec_wire() + self.maximum_dmx_fail_hold_time_supported.spec_wire() + self.minimum_startup_delay_time_supported.spec_wire() + self.maximum_startup_delay_time_supported.spec_wire() + self.minimum_startup_hold_time_supported.spec_wire() + self.maximum_startup_hold_time_supported.spec_wire(),
    {
    }

    /// Reading 32 bytes gives the fields at those places.
    pub proof fn lemma_read_layout(bytes: Seq<u8>)
        requires
            bytes.len() == 32,
        ensures
            <GetPresetInfoResponse as FixedWire>::spec_read(bytes) == (if <SupportedTimes as FixedWire>::spec_read(bytes.subrange(16, 18)) is Some && <SupportedTimes as FixedWire>::spec_read(bytes.subrange(18, 20)) is Some && <SupportedTimes as FixedWire>::spec_read(bytes.subrange(20, 22)) is Some && <SupportedTimes as FixedWire>::spec_read(bytes.subrange(22, 24)) is Some && <SupportedTimes as FixedWire>::spec_read(bytes.subrange(24, 26)) is Some && <SupportedTimes as FixedWire>::spec_read(bytes.subrange(26, 28)) is Some && <SupportedTimes as FixedWire>::spec_read(bytes.subrange(28, 30)) is Some && <SupportedTimes as FixedWire>::spec_read(bytes.subrange(30, 32)) is Some { Some(GetPresetInfoResponse { level_field_supported: bytes[0] != 0, preset_sequence_supported: bytes[1] != 0, split_times_supported: bytes[2] != 0, dmx_fail_infinite_delay_time_supported: bytes[3] != 0, dmx_fail_infinite_hold_time_supported: bytes[4] != 0, startup_infinite_hold_time_supported: bytes[5] != 0, maximum_scene_number: (bytes[6] as int * 0x100 + bytes[7] as int) as u16, minimum_preset_fade_time_supported: (bytes[8] as int * 0x100 + bytes[9] as int) as u16, maximum_preset_fade_time_supported: (bytes[10] as int * 0x100 + bytes[11] as int) as u16, minimum_preset_wait_time_supported: (bytes[12] as int * 0x100 + bytes[13] as int) as u16, maximum_preset_wait_time_supported: (bytes[14] as int * 0x100 + bytes[15] as int) as u16, minimum_dmx_fail_delay_time_supported: <SupportedTimes as FixedWire>::spec_read(bytes.subrange(16, 18)).unwrap(), maximum_dmx_fail_delay_time_supported: <SupportedTimes as FixedWire>::spec_read(bytes.subrange(18, 20)).unwrap(), minimum_dmx_fail_hold_time_supported: <SupportedTimes as FixedWire>::spec_read(bytes.subrange(20, 22)).unwrap(), maximum_dmx_fail_hold_time_supported: <SupportedTimes as FixedWire>::spec_read(bytes.subrange(22, 24)).unwrap(), minimum_startup_delay_time_supported: <SupportedTimes as FixedWire>::spec_read(bytes.subrange(24, 26)).unwrap(), maximum_startup_delay_time_supported: <SupportedTimes as FixedWire>::spec_read(bytes.subrange(26, 28)).unwrap(), minimum_startup_hold_time_supported: <SupportedTimes as FixedWire>::spec_read(bytes.subrange(28, 30)).unwrap(), maximum_startup_hold_time_supported: <SupportedTimes as FixedWire>::spec_read(bytes.subrange(30, 32)).unwrap() }) } else { None }),
    {
    }
}

impl GetPresetMergeModeResponse {
    /// The wire form holds, in this order and big endian: `merge_mode` (1 byte).
    pub proof fn lemma_wire_layout(self)
        ensures
            self.spec_wire() == self.merge_mode.spec_wire(),
    {
    }

    /// Reading 1 bytes gives the fields at those places.
    pub proof fn lemma_read_layout(bytes: Seq<u8>)
        requires
            bytes.len() == 1,
        ensures
            <GetPresetMergeModeResponse as FixedWire>::spec_read(bytes) == (if <MergeMode as FixedWire>::spec_read(bytes.subrange(0, 1)) is Some { Some(GetPresetMergeModeResponse { merge_mode: <MergeMode as FixedWire>::spec_read(bytes.subrange(0, 1)).unwrap() }) } else { None }),
    {
    }
}

impl GetPresetPlaybackResponse {
    /// The wire form holds, in this order and big endian: `mode` (2 bytes), `level` (1 byte).
    pub proof fn lemma_wire_layout(self)
        ensures
            self.spec_wire() == self.mode.spec_wire() + seq![self.level],
    {
    }

    /// Reading 3 bytes gives the fields at those places.
    pub proof fn lemma_read_layout(bytes: Seq<u8>)
        requires
            bytes.len() == 3,
        ensures
            <GetPresetPlaybackResponse as FixedWire>::spec_read(bytes) == (if <PresetPlaybackMode as FixedWire>::spec_read(bytes.subrange(0, 2)) is Some { Some(GetPresetPlaybackResponse { mode: <PresetPlaybackMode as FixedWire>::spec_read(bytes.subrange(0, 2)).unwrap(), level: bytes[2] }) } else { None }),
    {
    }
}

impl GetPresetStatusRequest {
    /// The wire form holds, in this order and big endian: `scene_id` (2 bytes).
    pub proof fn lemma_wire_layout(self)
        ensures
            self.spec_wire() == seq![(self.scene_id / 0x100) as u8, (self.scene_id % 0x100) as u8],
    {
    }

    /// Reading 2 bytes gives the fields at those places.
    pub proof fn lemma_read_layout(bytes: Seq<u8>)
        requires
            bytes.len() == 2,
        ensures
            <GetPresetStatusRequest as FixedWire>::spec_read(bytes) == (Some(GetPresetStatusRequest { scene_id: (bytes[0] as int * 0x100 + bytes[1] as int) as u16 })),
    {
    }
}

impl GetPresetStatusResponse {
    /// The wire form holds, in this order and big endian: `scene_id` (2 bytes), `up_fade_time` (2 bytes), `down_fade_time` (2 bytes), `wait_time` (2 bytes), `programmed` (1 byte).
    pub proof fn lemma_wire_layout(self)
        ensures
            self.spec_wire() == seq![(self.scene_id / 0x100) as u8, (self.scene_id % 0x100) as u8] + seq![(self.up_fade_time / 0x100) as u8, (self.up_fade_time % 0x100) as u8] + seq![(self.down_fade_time / 0x100) as u8, (self.down_fade_time % 0x100) as u8] + seq![(self.wait_time / 0x100) as u8, (self.wait_time % 0x100) as u8] + self.programmed.spec_wire(),
    {
    }

    /// Reading 9 bytes gives the fields at those places.
    pub proof fn lemma_read_layout(bytes: Seq<u8>)
        requires
            bytes.len() == 9,
        ensures
            <GetPresetStatusResponse as FixedWire>::spec_read(bytes) == (if <PresetProgrammed as FixedWire>::spec_read(bytes.subrange(8, 9)) is Some { Some(GetPresetStatusResponse { scene_id: (bytes[0] as int * 0x100 + bytes[1] as int) as u16, up_fade_time: (bytes[2] as int * 0x100 + bytes[3] as int) as u16, down_fade_time: (bytes[4] as int * 0x100 + bytes[5] as int) as u16, wait_time: (bytes[6] as int * 0x100 + bytes[7] as int) as u16, programmed: <PresetProgrammed as FixedWire>::spec_read(bytes.subrange(8, 9)).unwrap() }) } else { None }),
    {
    }
}

impl GetProxiedDeviceCountResponse {
    /// The wire form holds, in this order and big endian: `device_count` (2 bytes), `list_change` (1 byte).
    pub proof fn lemma_wire_layout(self)
        ensures
            self.spec_wire() == seq![(self.device_count / 0x100) as u8, (self.device_count % 0x100) as u8] + seq![if self.list_change { 1u8 } else { 0u8 }],
    {
    }

    /// Reading 3 bytes gives the fields at those places.
    pub proof fn lemma_read_layout(bytes: Seq<u8>)
        requires
            bytes.len() == 3,
        ensures
            <GetProxiedDeviceCountResponse as FixedWire>::spec_read(bytes) == (Some(GetProxiedDeviceCountResponse { device_count: (bytes[0] as int * 0x100 + bytes[1] as int) as u16, list_change: bytes[2] != 0 })),
    {
    }
}

impl GetQueuedMessageRequest {
    /// The wire form holds, in this order and big endian: `status_type` (1 byte).
    pub proof fn lemma_wire_layout(self)
        ensures
            self.spec_wire() == self.status_type.spec_wire(),
    {
    }

    /// Reading 1 bytes gives the fields at those places.
    pub proof fn lemma_read_layout(bytes: Seq<u8>)
        requires
            bytes.len() == 1,
        ensures
            <GetQueuedMessageRequest as FixedWire>::spec_read(bytes) == (if <StatusType as FixedWire>::spec_read(bytes.subrange(0, 1)) is Some { Some(GetQueuedMessageRequest { status_type: <StatusType as FixedWire>::spec_read(bytes.subrange(0, 1)).unwrap() }) } else { None }),
    {
    }
}

impl GetRdmTrafficEnableRequest {
    /// The wire form holds, in this order and big endian: `endpoint_id` (2 bytes).
    pub proof fn lemma_wire_layout(self)
        ensures
            self.spec_wire() == self.endpoint_id.spec_wire(),
    {
    }

    /// Reading 2 bytes gives the fields at those places.
    pub proof fn lemma_read_layout(bytes: Seq<u8>)
        requires
            bytes.len() == 2,
        ensures
            <GetRdmTrafficEnableRequest as FixedWire>::spec_read(bytes) == (if <EndpointId as FixedWire>::spec_read(bytes.subrange(0, 2)) is Some { Some(GetRdmTrafficEnableRequest { endpoint_id: <EndpointId as FixedWire>::spec_read(bytes.subrange(0, 2)).unwrap() }) } else { None }),
    {
    }
}

impl GetRdmTrafficEnableResponse {
    /// The wire form holds, in this order and big endian: `endpoint_id` (2 bytes), `enable` (1 byte).
    pub proof fn lemma_wire_layout(self)
        ensures
            self.spec_wire() == self.endpoint_id.spec_wire() + seq![if self.enable { 1u8 } else { 0u8 }],
    {
    }

    /// Reading 3 bytes gives the fields at those places.
    pub proof fn lemma_read_layout(bytes: Seq<u8>)
        requires
            bytes.len() == 3,
        ensures
            <GetRdmTrafficEnableResponse as FixedWire>::spec_read(bytes) == (if <EndpointId as FixedWire>::spec_read(bytes.subrange(0, 2)) is Some { Some(GetRdmTrafficEnableResponse { endpoint_id: <EndpointId as FixedWire>::spec_read(bytes.subrange(0, 2)).unwrap(), enable: bytes[2] != 0 }) } else { None }),
    {
    }
}

impl GetRealTimeClockResponse {
    /// The wire form holds, in this order and big endian: `year` (2 bytes), `month` (1 byte), `day` (1 byte), `hour` (1 byte), `minute` (1 byte), `second` (1 byte).
    pub proof fn lemma_wire_layout(self)
        ensures
            self.spec_wire() == seq![(self.year / 0x100) as u8, (self.year % 0x100) as u8] + seq![self.month] + seq![self.day] + seq![self.hour] + seq![self.minute] + seq![self.second],
    {
    }

    /// Reading 7 bytes gives the fields at those places.
    pub proof fn lemma_read_layout(bytes: Seq<u8>)
        requires
            bytes.len() == 7,
        ensures
            <GetRealTimeClockResponse as FixedWire>::spec_read(bytes) == (Some(GetRealTimeClockResponse { year: (bytes[0] as int * 0x100 + bytes[1] as int) as u16, month: bytes[2], day: bytes[3], hour: bytes[4], minute: bytes[5], second: bytes[6] })),
    {
    }
}

impl GetSelfTestDescriptionRequest {
    /// The wire form holds, in this order and big endian: `self_test_id` (1 byte).
    pub proof fn lemma_wire_layout(self)
        ensures
            self.spec_wire() == self.self_test_id.spec_wire(),
    {
    }

    /// Reading 1 bytes gives the fields at those places.
    pub proof fn lemma_read_layout(bytes: Seq<u8>)
        requires
            bytes.len() == 1,
        ensures
            <GetSelfTestDescriptionRequest as FixedWire>::spec_read(bytes) == (if <SelfTest as FixedWire>::spec_read(bytes.subrange(0, 1)) is Some { Some(GetSelfTestDescriptionRequest { self_test_id: <SelfTest as FixedWire>::spec_read(bytes.subrange(0, 1)).unwrap() }) } else { None }),
    {
    }
}

impl GetSensorDefinitionRequest {
    /// The wire form holds, in this order and big endian: `sensor_id` (1 byte).
    pub proof fn lemma_wire_layout(self)
        ensures
            self.spec_wire() == seq![self.sensor_id],
    {
    }

    /// Reading 1 bytes gives the fields at those places.
    pub proof fn lemma_read_layout(bytes: Seq<u8>)
        requires
            bytes.len() == 1,
        ensures
            <GetSensorDefinitionRequest as FixedWire>::spec_read(bytes) == (Some(GetSensorDefinitionRequest { sensor_id: bytes[0] })),
    {
    }
}

impl GetSensorValueRequest {
    /// The wire form holds, in this order and big endian: `sensor_id` (1 byte).
    pub proof fn lemma_wire_layout(self)
        ensures
            self.spec_wire() == seq![self.sensor_id],
    {
    }

    /// Reading 1 bytes gives the fields at those places.
    pub proof fn lemma_read_layout(bytes: Seq<u8>)
        requires
            bytes.len() == 1,
        ensures
            <GetSensorValueRequest as FixedWire>::spec_read(bytes) == (Some(GetSensorValueRequest { sensor_id: bytes[0] })),
    {
    }
}

impl GetSensorValueResponse {
    /// The wire form holds, in this order and big endian: `sensor_id` (1 byte), `current_value` (2 bytes), `lowest_detected_value` (2 bytes), `highest_detected_value` (2 bytes), `recorded_value` (2 bytes).
    pub proof fn lemma_wire_layout(self)
        ensures
            self.spec_wire() == seq![self.sensor_id] + seq![(((self.current_value as int + 0x1_0000) % 0x1_0000) / 0x100) as u8, (((self.current_value as int + 0x1_0000) % 0x1_0000) % 0x100) as u8] + seq![(((self.lowest_detected_value as int + 0x1_0000) % 0x1_0000) / 0x100) as u8, (((self.lowest_detected_value as int + 0x1_0000) % 0x1_0000) % 0x100) as u8] + seq![(((self.highest_detected_value as int + 0x1_0000) % 0x1_0000) / 0x100) as u8, (((self.highest_detected_value as int + 0x1_0000) % 0x1_0000) % 0x100) as u8] + seq![(((self.recorded_value as int + 0x1_0000) % 0x1_0000) / 0x100) as u8, (((self.recorded_value as int + 0x1_0000) % 0x1_0000) % 0x100) as u8],
    {
        lemma_i16_bytes(self.current_value);
        lemma_i16_bytes(self.lowest_detected_value);
        lemma_i16_bytes(self.highest_detected_value);
        lemma_i16_bytes(self.recorded_value);
    }

    /// Reading 9 bytes gives the fields at those places.
    pub proof fn lemma_read_layout(bytes: Seq<u8>)
        requires
            bytes.len() == 9,
        ensures
            <GetSensorValueResponse as FixedWire>::spec_read(bytes) == (Some(GetSensorValueResponse { sensor_id: bytes[0], current_value: (if (bytes[1] as int * 0x100 + bytes[2] as int) < 0x8000 { (bytes[1] as int * 0x100 + bytes[2] as int) } else { (bytes[1] as int * 0x100 + bytes[2] as int) - 0x1_0000 }) as i16, lowest_detected_value: (if (bytes[3] as int * 0x100 + bytes[4] as int) < 0x8000 { (bytes[3] as int * 0x100 + bytes[4] as int) } else { (bytes[3] as int * 0x100 + bytes[4] as int) - 0x1_0000 }) as i16, highest_detected_value: (if (bytes[5] as int * 0x100 + bytes[6] as int) < 0x8000 { (bytes[5] as int * 0x100 + bytes[6] as int) } else { (bytes[5] as int * 0x100 + bytes[6] as int) - 0x1_0000 }) as i16, recorded_value: (if (bytes[7] as int * 0x100 + bytes[8] as int) < 0x8000 { (bytes[7] as int * 0x100 + bytes[8] as int) } else { (bytes[7] as int * 0x100 + bytes[8] as int) - 0x1_0000 }) as i16 })),
    {
    }
}

impl GetSlotDescriptionRequest {
    /// The wire form holds, in this order and big endian: `slot_id` (2 bytes).
    pub proof fn lemma_wire_layout(self)
        ensures
            self.spec_wire() == seq![(self.slot_id / 0x100) as u8, (self.slot_id % 0x100) as u8],
    {
    }

    /// Reading 2 bytes gives the fields at those places.
    pub proof fn lemma_read_layout(bytes: Seq<u8>)
        requires
            bytes.len() == 2,
        ensures
            <GetSlotDescriptionRequest as FixedWire>::spec_read(bytes) == (Some(GetSlotDescriptionRequest { slot_id: (bytes[0] as int * 0x100 + bytes[1] as int) as u16 })),
    {
    }
}

impl GetStatusIdDescriptionRequest {
    /// The wire form holds, in this order and big endian: `status_id` (2 bytes).
    pub proof fn lemma_wire_layout(self)
        ensures
            self.spec_wire() == seq![(self.status_id / 0x100) as u8, (self.status_id % 0x100) as u8],
    {
    }

    /// Reading 2 bytes gives the fields at those places.
    pub proof fn lemma_read_layout(bytes: Seq<u8>)
        requires
            bytes.len() == 2,
        ensures
            <GetStatusIdDescriptionRequest as FixedWire>::spec_read(bytes) == (Some(GetStatusIdDescriptionRequest { status_id: (bytes[0] as int * 0x100 + bytes[1] as int) as u16 })),
    {
    }
}

impl GetStatusMessagesRequest {
    /// The wire form holds, in this order and big endian: `status_type` (1 byte).
    pub proof fn lemma_wire_layout(self)
        ensures
            self.spec_wire() == self.status_type.spec_wire(),
    {
    }

    /// Reading 1 bytes gives the fields at those places.
    pub proof fn lemma_read_layout(bytes: Seq<u8>)
        requires
            bytes.len() == 1,
        ensures
            <GetStatusMessagesRequest as FixedWire>::spec_read(bytes) == (if <StatusType as FixedWire>::spec_read(bytes.subrange(0, 1)) is Some { Some(GetStatusMessagesRequest { status_type: <StatusType as FixedWire>::spec_read(bytes.subrange(0, 1)).unwrap() }) } else { None }),
    {
    }
}

impl GetSubDeviceIdStatusReportThresholdResponse {
    /// The wire form holds, in this order and big endian: `status_type` (1 byte).
    pub proof fn lemma_wire_layout(self)
        ensures
            self.spec_wire() == self.status_type.spec_wire(),
    {
    }

    /// Reading 1 bytes gives the fields at those places.
    pub proof fn lemma_read_layout(bytes: Seq<u8>)
        requires
            bytes.len() == 1,
        ensures
            <GetSubDeviceIdStatusReportThresholdResponse as FixedWire>::spec_read(bytes) == (if <StatusType as FixedWire>::spec_read(bytes.subrange(0, 1)) is Some { Some(GetSubDeviceIdStatusReportThresholdResponse { status_type: <StatusType as FixedWire>::spec_read(bytes.subrange(0, 1)).unwrap() }) } else { None }),
    {
    }
}

impl GetTcpCommsStatusResponse {
    /// The wire form holds, in this order and big endian: `scope_string` (63 bytes), `broker_ipv4_address` (4 bytes), `broker_ipv6_address` (16 bytes), `broker_port` (2 bytes), `unhealthy_tcp_events` (2 bytes).
    pub proof fn lemma_wire_layout(self)
        ensures
            self.spec_wire() == self.scope_string.spec_wire() + self.broker_ipv4_address.spec_wire() + self.broker_ipv6_address.spec_wire() + seq![(self.broker_port / 0x100) as u8, (self.broker_port % 0x100) as u8] + seq![(self.unhealthy_tcp_events / 0x100) as u8, (self.unhealthy_tcp_events % 0x100) as u8],
    {
    }

    /// Reading 87 bytes gives the fields at those places.
    pub proof fn lemma_read_layout(bytes: Seq<u8>)
        requires
            bytes.len() == 87,
        ensures
            <GetTcpCommsStatusResponse as FixedWire>::spec_read(bytes) == (if <Scope as FixedWire>::spec_read(bytes.subrange(0, 63)) is Some && <Ipv4Address as FixedWire>::spec_read(bytes.subrange(63, 67)) is Some && <Ipv6Address as FixedWire>::spec_read(bytes.subrange(67, 83)) is Some { Some(GetTcpCommsStatusResponse { scope_string: <Scope as FixedWire>::spec_read(bytes.subrange(0, 63)).unwrap(), broker_ipv4_address: <Ipv4Address as FixedWire>::spec_read(bytes.subrange(63, 67)).unwrap(), broker_ipv6_address: <Ipv6Address as FixedWire>::spec_read(bytes.subrange(67, 83)).unwrap(), broker_port: (bytes[83] as int * 0x100 + bytes[84] as int) as u16, unhealthy_tcp_events: (bytes[85] as int * 0x100 + bytes[86] as int) as u16 }) } else { None }),
    {
    }
}

impl GetTiltInvertResponse {
    /// The wire form holds, in this order and big endian: `tilt_invert` (1 byte).
    pub proof fn lemma_wire_layout(self)
        ensures
            self.spec_wire() == seq![if self.tilt_invert { 1u8 } else { 0u8 }],
    {
    }

    /// Reading 1 bytes gives the fields at those places.
    pub proof fn lemma_read_layout(bytes: Seq<u8>)
        requires
            bytes.len() == 1,
        ensures
            <GetTiltInvertResponse as FixedWire>::spec_read(bytes) == (Some(GetTiltInvertResponse { tilt_invert: bytes[0] != 0 })),
    {
    }
}

impl MacAddress {
    /// The wire form holds, in this order and big endian: `0` (6 bytes).
    pub proof fn lemma_wire_layout(self)
        ensures
            self.spec_wire() == self.0.spec_wire(),
    {
    }

    /// Reading 6 bytes gives the fields at those places.
    pub proof fn lemma_read_layout(bytes: Seq<u8>)
        requires
            bytes.len() == 6,
        ensures
            <MacAddress as FixedWire>::spec_read(bytes) == (if <[u8; 6] as FixedWire>::spec_read(bytes.subrange(0, 6)) is Some { Some(MacAddress(<[u8; 6] as FixedWire>::spec_read(bytes.subrange(0, 6)).unwrap())) } else { None }),
    {
    }
}

impl NetworkInterface {
    /// The wire form holds, in this order and big endian: `interface_id` (4 bytes), `hardware_type` (2 bytes).
    pub proof fn lemma_wire_layout(self)
        ensures
            self.spec_wire() == seq![(self.interface_id / 0x100_0000) as u8, ((self.interface_id / 0x1_0000) % 0x100) as u8, ((self.interface_id / 0x100) % 0x100) as u8, (self.interface_id % 0x100) as u8] + self.hardware_type.spec_wire(),
    {
    }

    /// Reading 6 bytes gives the fields at those places.
    pub proof fn lemma_read_layout(bytes: Seq<u8>)
        requires
            bytes.len() == 6,
        ensures
            <NetworkInterface as FixedWire>::spec_read(bytes) == (if <HardwareType as FixedWire>::spec_read(bytes.subrange(4, 6)) is Some { Some(NetworkInterface { interface_id: (bytes[0] as int * 0x100_0000 + bytes[1] as int * 0x1_0000 + bytes[2] as int * 0x100 + bytes[3] as int) as u32, hardware_type: <HardwareType as FixedWire>::spec_read(bytes.subrange(4, 6)).unwrap() }) } else { None }),
    {
    }
}

impl PinCode {
    /// The wire form holds, in this order and big endian: `0` (2 bytes).
    pub proof fn lemma_wire_layout(self)
        ensures
            self.spec_wire() == seq![(self.0 / 0x100) as u8, (self.0 % 0x100) as u8],
    {
    }

    /// Reading 2 bytes gives the fields at those places.
    pub proof fn lemma_read_layout(bytes: Seq<u8>)
        requires
            bytes.len() == 2,
        ensures
            <PinCode as FixedWire>::spec_read(bytes) == (Some(PinCode((bytes[0] as int * 0x100 + bytes[1] as int) as u16))),
    {
    }
}

impl ProtocolVersion {
    /// The wire form holds, in this order and big endian: `major` (1 byte), `minor` (1 byte).
    pub proof fn lemma_wire_layout(self)
        ensures
            self.spec_wire() == seq![self.major] + seq![self.minor],
    {
    }

    /// Reading 2 bytes gives the fields at those places.
    pub proof fn lemma_read_layout(bytes: Seq<u8>)
        requires
            bytes.len() == 2,
        ensures
            <ProtocolVersion as FixedWire>::spec_read(bytes) == (Some(ProtocolVersion { major: bytes[0], minor: bytes[1] })),
    {
    }
}

impl SensorValue {
    /// The wire form holds, in this order and big endian: `sensor_id` (1 byte), `current_value` (2 bytes), `lowest_detected_value` (2 bytes), `highest_detected_value` (2 bytes), `recorded_value` (2 bytes).
    pub proof fn lemma_wire_layout(self)
        ensures
            self.spec_wire() == seq![self.sensor_id] + seq![(((self.current_value as int + 0x1_0000) % 0x1_0000) / 0x100) as u8, (((self.current_value as int + 0x1_0000) % 0x1_0000) % 0x100) as u8] + seq![(((self.lowest_detected_value as int + 0x1_0000) % 0x1_0000) / 0x100) as u8, (((self.lowest_detected_value as int + 0x1_0000) % 0x1_0000) % 0x100) as u8] + seq![(((self.highest_detected_value as int + 0x1_0000) % 0x1_0000) / 0x100) as u8, (((self.highest_detected_value as int + 0x1_0000) % 0x1_0000) % 0x100) as u8] + seq![(((self.recorded_value as int + 0x1_0000) % 0x1_0000) / 0x100) as u8, (((self.recorded_value as int + 0x1_0000) % 0x1_0000) % 0x100) as u8],
    {
        lemma_i16_bytes(self.current_value);
        lemma_i16_bytes(self.lowest_detected_value);
        lemma_i16_bytes(self.highest_detected_value);
        lemma_i16_bytes(self.recorded_value);
    }

    /// Reading 9 bytes gives the fields at those places.
    pub proof fn lemma_read_layout(bytes: Seq<u8>)
        requires
            bytes.len() == 9,
        ensures
            <SensorValue as FixedWire>::spec_read(bytes) == (Some(SensorValue { sensor_id: bytes[0], current_value: (if (bytes[1] as int * 0x100 + bytes[2] as int) < 0x8000 { (bytes[1] as int * 0x100 + bytes[2] as int) } else { (bytes[1] as int * 0x100 + bytes[2] as int) - 0x1_0000 }) as i16, lowest_detected_value: (if (bytes[3] as int * 0x100 + bytes[4] as int) < 0x8000 { (bytes[3] as int * 0x100 + bytes[4] as int) } else { (bytes[3] as int * 0x100 + bytes[4] as int) - 0x1_0000 }) as i16, highest_detected_value: (if (bytes[5] as int * 0x100 + bytes[6] as int) < 0x8000 { (bytes[5] as int * 0x100 + bytes[6] as int) } else { (bytes[5] as int * 0x100 + bytes[6] as int) - 0x1_0000 }) as i16, recorded_value: (if (bytes[7] as int * 0x100 + bytes[8] as int) < 0x8000 { (bytes[7] as int * 0x100 + bytes[8] as int) } else { (bytes[7] as int * 0x100 + bytes[8] as int) - 0x1_0000 }) as i16 })),
    {
    }
}

impl SetBackgroundDiscoveryRequest {
    /// The wire form holds, in this order and big endian: `endpoint_id` (2 bytes), `enable` (1 byte).
    pub proof fn lemma_wire_layout(self)
        ensures
            self.spec_wire() == self.endpoint_id.spec_wire() + seq![if self.enable { 1u8 } else { 0u8 }],
    {
    }

    /// Reading 3 bytes gives the fields at those places.
    pub proof fn lemma_read_layout(bytes: Seq<u8>)
        requires
            bytes.len() == 3,
        ensures
            <SetBackgroundDiscoveryRequest as FixedWire>::spec_read(bytes) == (if <EndpointId as FixedWire>::spec_read(bytes.subrange(0, 2)) is Some { Some(SetBackgroundDiscoveryRequest { endpoint_id: <EndpointId as FixedWire>::spec_read(bytes.subrange(0, 2)).unwrap(), enable: bytes[2] != 0 }) } else { None }),
    {
    }
}

impl SetBackgroundDiscoveryResponse {
    /// The wire form holds, in this order and big endian: `endpoint_id` (2 bytes).
    pub proof fn lemma_wire_layout(self)
        ensures
            self.spec_wire() == self.endpoint_id.spec_wire(),
    {
    }

    /// Reading 2 bytes gives the fields at those places.
    pub proof fn lemma_read_layout(bytes: Seq<u8>)
        requires
            bytes.len() == 2,
        ensures
            <SetBackgroundDiscoveryResponse as FixedWire>::spec_read(bytes) == (if <EndpointId as FixedWire>::spec_read(bytes.subrange(0, 2)) is Some { Some(SetBackgroundDiscoveryResponse { endpoint_id: <EndpointId as FixedWire>::spec_read(bytes.subrange(0, 2)).unwrap() }) } else { None }),
    {
    }
}

impl SetBackgroundQueuedStatusPolicyRequest {
    /// The wire form holds, in this order and big endian: `policy_id` (1 byte).
    pub proof fn lemma_wire_layout(self)
        ensures
            self.spec_wire() == seq![self.policy_id],
    {
    }

    /// Reading 1 bytes gives the fields at those places.
    pub proof fn lemma_read_layout(bytes: Seq<u8>)
        requires
            bytes.len() == 1,
        ensures
            <SetBackgroundQueuedStatusPolicyRequest as FixedWire>::spec_read(bytes) == (Some(SetBackgroundQueuedStatusPolicyRequest { policy_id: bytes[0] })),
    {
    }
}

impl SetBrokerStatusRequest {
    /// The wire form holds, in this order and big endian: `broker_state` (1 byte).
    pub proof fn lemma_wire_layout(self)
        ensures
            self.spec_wire() == self.broker_state.spec_wire(),
    {
    }

    /// Reading 1 bytes gives the fields at those places.
    pub proof fn lemma_read_layout(bytes: Seq<u8>)
        requires
            bytes.len() == 1,
        ensures
            <SetBrokerStatusRequest as FixedWire>::spec_read(bytes) == (if <BrokerState as FixedWire>::spec_read(bytes.subrange(0, 1)) is Some { Some(SetBrokerStatusRequest { broker_state: <BrokerState as FixedWire>::spec_read(bytes.subrange(0, 1)).unwrap() }) } else { None }),
    {
    }
}

impl SetBurnInRequest {
    /// The wire form holds, in this order and big endian: `hours` (1 byte).
    pub proof fn lemma_wire_layout(self)
        ensures
            self.spec_wire() == seq![self.hours],
    {
    }

    /// Reading 1 bytes gives the fields at those places.
    pub proof fn lemma_read_layout(bytes: Seq<u8>)
        requires
            bytes.len() == 1,
        ensures
            <SetBurnInRequest as FixedWire>::spec_read(bytes) == (Some(SetBurnInRequest { hours: bytes[0] })),
    {
    }
}

impl SetComponentScopeRequest {
    /// The wire form holds, in this order and big endian: `scope_slot` (2 bytes), `scope_string` (63 bytes), `static_config_type` (1 byte), `static_broker_ipv4_address` (4 bytes), `static_broker_ipv6_address` (16 bytes), `static_broker_port` (2 bytes).
    pub proof fn lemma_wire_layout(self)
        ensures
            self.spec_wire() == seq![(self.scope_slot / 0x100) as u8, (self.scope_slot % 0x100) as u8] + self.scope_string.spec_wire() + self.static_config_type.spec_wire() + self.static_broker_ipv4_address.spec_wire() + self.static_broker_ipv6_address.spec_wire() + seq![(self.static_broker_port / 0x100) as u8, (self.static_broker_port % 0x100) as u8],
    {
    }

    /// Reading 88 bytes gives the fields at those places.
    pub proof fn lemma_read_layout(bytes: Seq<u8>)
        requires
            bytes.len() == 88,
        ensures
            <SetComponentScopeRequest as FixedWire>::spec_read(bytes) == (if <Scope as FixedWire>::spec_read(bytes.subrange(2, 65)) is Some && <StaticConfigType as FixedWire>::spec_read(bytes.subrange(65, 66)) is Some && <Ipv4Address as FixedWire>::spec_read(bytes.subrange(66, 70)) is Some && <Ipv6Address as FixedWire>::spec_read(bytes.subrange(70, 86)) is Some { Some(SetComponentScopeRequest { scope_slot: (bytes[0] as int * 0x100 + bytes[1] as int) as u16, scope_string: <Scope as FixedWire>::spec_read(bytes.subrange(2, 65)).unwrap(), static_config_type: <StaticConfigType as FixedWire>::spec_read(bytes.subrange(65, 66)).unwrap(), static_broker_ipv4_address: <Ipv4Address as FixedWire>::spec_read(bytes.subrange(66, 70)).unwrap(), static_broker_ipv6_address: <Ipv6Address as FixedWire>::spec_read(bytes.subrange(70, 86)).unwrap(), static_broker_port: (bytes[86] as int * 0x100 + bytes[87] as int) as u16 }) } else { None }),
    {
    }
}

impl SetCurveRequest {
    /// The wire form holds, in this order and big endian: `curve_id` (1 byte).
    pub proof fn lemma_wire_layout(self)
        ensures
            self.spec_wire() == seq![self.curve_id],
    {
    }

    /// Reading 1 bytes gives the fields at those places.
    pub proof fn lemma_read_layout(bytes: Seq<u8>)
        requires
            bytes.len() == 1,
        ensures
            <SetCurveRequest as FixedWire>::spec_read(bytes) == (Some(SetCurveRequest { curve_id: bytes[0] })),
    {
    }
}

impl SetDeviceHoursRequest {
    /// The wire form holds, in this order and big endian: `device_hours` (4 bytes).
    pub proof fn lemma_wire_layout(self)
        ensures
            self.spec_wire() == seq![(self.device_hours / 0x100_0000) as u8, ((self.device_hours / 0x1_0000) % 0x100) as u8, ((self.device_hours / 0x100) % 0x100) as u8, (self.device_hours % 0x100) as u8],
    {
    }

    /// Reading 4 bytes gives the fields at those places.
    pub proof fn lemma_read_layout(bytes: Seq<u8>)
        requires
            bytes.len() == 4,
        ensures
            <SetDeviceHoursRequest as FixedWire>::spec_read(bytes) == (Some(SetDeviceHoursRequest { device_hours: (bytes[0] as int * 0x100_0000 + bytes[1] as int * 0x1_0000 + bytes[2] as int * 0x100 + bytes[3] as int) as u32 })),
    {
    }
}

impl SetDevicePowerCyclesRequest {
    /// The wire form holds, in this order and big endian: `device_power_cycles` (4 bytes).
    pub proof fn lemma_wire_layout(self)
        ensures
            self.spec_wire() == seq![(self.device_power_cycles / 0x100_0000) as u8, ((self.device_power_cycles / 0x1_0000) % 0x100) as u8, ((self.device_power_cycles / 0x100) % 0x100) as u8, (self.device_power_cycles % 0x100) as u8],
    {
    }

    /// Reading 4 bytes gives the fields at those places.
    pub proof fn lemma_read_layout(bytes: Seq<u8>)
        requires
            bytes.len() == 4,
        ensures
            <SetDevicePowerCyclesRequest as FixedWire>::spec_read(bytes) == (Some(SetDevicePowerCyclesRequest { device_power_cycles: (bytes[0] as int * 0x100_0000 + bytes[1] as int * 0x1_0000 + bytes[2] as int * 0x100 + bytes[3] as int) as u32 })),
    {
    }
}

impl SetDiscoveryStateRequest {
    /// The wire form holds, in this order and big endian: `endpoint_id` (2 bytes), `discovery_state` (1 byte).
    pub proof fn lemma_wire_layout(self)
        ensures
            self.spec_wire() == self.endpoint_id.spec_wire() + self.discovery_state.spec_wire(),
    {
    }

    /// Reading 3 bytes gives the fields at those places.
    pub proof fn lemma_read_layout(bytes: Seq<u8>)
        requires
            bytes.len() == 3,
        ensures
            <SetDiscoveryStateRequest as FixedWire>::spec_read(bytes) == (if <EndpointId as FixedWire>::spec_read(bytes.subrange(0, 2)) is Some && <DiscoveryState as FixedWire>::spec_read(bytes.subrange(2, 3)) is Some { Some(SetDiscoveryStateRequest { endpoint_id: <EndpointId as FixedWire>::spec_read(bytes.subrange(0, 2)).unwrap(), discovery_state: <DiscoveryState as FixedWire>::spec_read(bytes.subrange(2, 3)).unwrap() }) } else { None }),
    {
    }
}

impl SetDiscoveryStateResponse {
    /// The wire form holds, in this order and big endian: `endpoint_id` (2 bytes).
    pub proof fn lemma_wire_layout(self)
        ensures
            self.spec_wire() == self.endpoint_id.spec_wire(),
    {
    }

    /// Reading 2 bytes gives the fields at those places.
    pub proof fn lemma_read_layout(bytes: Seq<u8>)
        requires
            bytes.len() == 2,
        ensures
            <SetDiscoveryStateResponse as FixedWire>::spec_read(bytes) == (if <EndpointId as FixedWire>::spec_read(bytes.subrange(0, 2)) is Some { Some(SetDiscoveryStateResponse { endpoint_id: <EndpointId as FixedWire>::spec_read(bytes.subrange(0, 2)).unwrap() }) } else { None }),
    {
    }
}

impl SetDisplayInvertRequest {
    /// The wire form holds, in this order and big endian: `display_invert_mode` (1 byte).
    pub proof fn lemma_wire_layout(self)
        ensures
            self.spec_wire() == self.display_invert_mode.spec_wire(),
    {
    }

    /// Reading 1 bytes gives the fields at those places.
    pub proof fn lemma_read_layout(bytes: Seq<u8>)
        requires
            bytes.len() == 1,
        ensures
            <SetDisplayInvertRequest as FixedWire>::spec_read(bytes) == (if <DisplayInvertMode as FixedWire>::spec_read(bytes.subrange(0, 1)) is Some { Some(SetDisplayInvertRequest { display_invert_mode: <DisplayInvertMode as FixedWire>::spec_read(bytes.subrange(0, 1)).unwrap() }) } else { None }),
    {
    }
}

impl SetDisplayLevelRequest {
    /// The wire form holds, in this order and big endian: `display_level` (1 byte).
    pub proof fn lemma_wire_layout(self)
        ensures
            self.spec_wire() == seq![self.display_level],
    {
    }

    /// Reading 1 bytes gives the fields at those places.
    pub proof fn lemma_read_layout(bytes: Seq<u8>)
        requires
            bytes.len() == 1,
        ensures
            <SetDisplayLevelRequest as FixedWire>::spec_read(bytes) == (Some(SetDisplayLevelRequest { display_level: bytes[0] })),
    {
    }
}

impl SetDmxBlockAddressRequest {
    /// The wire form holds, in this order and big endian: `dmx_block_address` (2 bytes).
    pub proof fn lemma_wire_layout(self)
        ensures
            self.spec_wire() == seq![(self.dmx_block_address / 0x100) as u8, (self.dmx_block_address % 0x100) as u8],
    {
    }

    /// Reading 2 bytes gives the fields at those places.
    pub proof fn lemma_read_layout(bytes: Seq<u8>)
        requires
            bytes.len() == 2,
        ensures
            <SetDmxBlockAddressRequest as FixedWire>::spec_read(bytes) == (Some(SetDmxBlockAddressRequest { dmx_block_address: (bytes[0] as int * 0x100 + bytes[1] as int) as u16 })),
    {
    }
}

impl SetDmxFailModeRequest {
    /// The wire form holds, in this order and big endian: `scene_id` (2 bytes), `loss_of_signal_delay` (2 bytes), `hold_time` (2 bytes), `level` (1 byte).
    pub proof fn lemma_wire_layout(self)
        ensures
            self.spec_wire() == self.scene_id.spec_wire() + self.loss_of_signal_delay.spec_wire() + self.hold_time.spec_wire() + seq![self.level],
    {
    }

    /// Reading 7 bytes gives the fields at those places.
    pub proof fn lemma_read_layout(bytes: Seq<u8>)
        requires
            bytes.len() == 7,
        ensures
            <SetDmxFailModeRequest as FixedWire>::spec_read(bytes) == (if <PresetPlaybackMode as FixedWire>::spec_read(bytes.subrange(0, 2)) is Some && <TimeMode as FixedWire>::spec_read(bytes.subrange(2, 4)) is Some && <TimeMode as FixedWire>::spec_read(bytes.subrange(4, 6)) is Some { Some(SetDmxFailModeRequest { scene_id: <PresetPlaybackMode as FixedWire>::spec_read(bytes.subrange(0, 2)).unwrap(), loss_of_signal_delay: <TimeMode as FixedWire>::spec_read(bytes.subrange(2, 4)).unwrap(), hold_time: <TimeMode as FixedWire>::spec_read(bytes.subrange(4, 6)).unwrap(), level: bytes[6] }) } else { None }),
    {
    }
}

impl SetDmxPersonalityRequest {
    /// The wire form holds, in this order and big endian: `personality_id` (1 byte).
    pub proof fn lemma_wire_layout(self)
        ensures
            self.spec_wire() == seq![self.personality_id],
    {
    }

    /// Reading 1 bytes gives the fields at those places.
    pub proof fn lemma_read_layout(bytes: Seq<u8>)
        requires
            bytes.len() == 1,
        ensures
            <SetDmxPersonalityRequest as FixedWire>::spec_read(bytes) == (Some(SetDmxPersonalityRequest { personality_id: bytes[0] })),
    {
    }
}

impl SetDmxStartAddressRequest {
    /// The wire form holds, in this order and big endian: `dmx_start_address` (2 bytes).
    pub proof fn lemma_wire_layout(self)
        ensures
            self.spec_wire() == seq![(self.dmx_start_address / 0x100) as u8, (self.dmx_start_address % 0x100) as u8],
    {
    }

    /// Reading 2 bytes gives the fields at those places.
    pub proof fn lemma_read_layout(bytes: Seq<u8>)
        requires
            bytes.len() == 2,
        ensures
            <SetDmxStartAddressRequest as FixedWire>::spec_read(bytes) == (Some(SetDmxStartAddressRequest { dmx_start_address: (bytes[0] as int * 0x100 + bytes[1] as int) as u16 })),
    {
    }
}

impl SetDmxStartupModeRequest {
    /// The wire form holds, in this order and big endian: `scene_id` (2 bytes), `startup_delay` (2 bytes), `hold_time` (2 bytes), `level` (1 byte).
    pub proof fn lemma_wire_layout(self)
        ensures
            self.spec_wire() == self.scene_id.spec_wire() + self.startup_delay.spec_wire() + self.hold_time.spec_wire() + seq![self.level],
    {
    }

    /// Reading 7 bytes gives the fields at those places.
    pub proof fn lemma_read_layout(bytes: Seq<u8>)
        requires
            bytes.len() == 7,
        ensures
            <SetDmxStartupModeRequest as FixedWire>::spec_read(bytes) == (if <PresetPlaybackMode as FixedWire>::spec_read(bytes.subrange(0, 2)) is Some && <TimeMode as FixedWire>::spec_read(bytes.subrange(2, 4)) is Some && <TimeMode as FixedWire>::spec_read(bytes.subrange(4, 6)) is Some { Some(SetDmxStartupModeRequest { scene_id: <PresetPlaybackMode as FixedWire>::spec_read(bytes.subrange(0, 2)).unwrap(), startup_delay: <TimeMode as FixedWire>::spec_read(bytes.subrange(2, 4)).unwrap(), hold_time: <TimeMode as FixedWire>::spec_read(bytes.subrange(4, 6)).unwrap(), level: bytes[6] }) } else { None }),
    {
    }
}

impl SetDnsIpv4NameServerRequest {
    /// The wire form holds, in this order and big endian: `name_server_index` (1 byte), `name_server_address` (4 bytes).
    pub proof fn lemma_wire_layout(self)
        ensures
            self.spec_wire() == seq![self.name_server_index] + self.name_server_address.spec_wire(),
    {
    }

    /// Reading 5 bytes gives the fields at those places.
    pub proof fn lemma_read_layout(bytes: Seq<u8>)
        requires
            bytes.len() == 5,
        ensures
            <SetDnsIpv4NameServerRequest as FixedWire>::spec_read(bytes) == (if <Ipv4Address as FixedWire>::spec_read(bytes.subrange(1, 5)) is Some { Some(SetDnsIpv4NameServerRequest { name_server_index: bytes[0], name_server_address: <Ipv4Address as FixedWire>::spec_read(bytes.subrange(1, 5)).unwrap() }) } else { None }),
    {
    }
}

impl SetEndpointLabelResponse {
    /// The wire form holds, in this order and big endian: `endpoint_id` (2 bytes).
    pub proof fn lemma_wire_layout(self)
        ensures
            self.spec_wire() == self.endpoint_id.spec_wire(),
    {
    }

    /// Reading 2 bytes gives the fields at those places.
    pub proof fn lemma_read_layout(bytes: Seq<u8>)
        requires
            bytes.len() == 2,
        ensures
            <SetEndpointLabelResponse as FixedWire>::spec_read(bytes) == (if <EndpointId as FixedWire>::spec_read(bytes.subrange(0, 2)) is Some { Some(SetEndpointLabelResponse { endpoint_id: <EndpointId as FixedWire>::spec_read(bytes.subrange(0, 2)).unwrap() }) } else { None }),
    {
    }
}

impl SetEndpointModeRequest {
    /// The wire form holds, in this order and big endian: `endpoint_id` (2 bytes), `mode` (1 byte).
    pub proof fn lemma_wire_layout(self)
        ensures
            self.spec_wire() == self.endpoint_id.spec_wire() + self.mode.spec_wire(),
    {
    }

    /// Reading 3 bytes gives the fields at those places.
    pub proof fn lemma_read_layout(bytes: Seq<u8>)
        requires
            bytes.len() == 3,
        ensures
            <SetEndpointModeRequest as FixedWire>::spec_read(bytes) == (if <EndpointId as FixedWire>::spec_read(bytes.subrange(0, 2)) is Some && <EndpointMode as FixedWire>::spec_read(bytes.subrange(2, 3)) is Some { Some(SetEndpointModeRequest { endpoint_id: <EndpointId as FixedWire>::spec_read(bytes.subrange(0, 2)).unwrap(), mode: <EndpointMode as FixedWire>::spec_read(bytes.subrange(2, 3)).unwrap() }) } else { None }),
    {
    }
}

impl SetEndpointModeResponse {
    /// The wire form holds, in this order and big endian: `endpoint_id` (2 bytes).
    pub proof fn lemma_wire_layout(self)
        ensures
            self.spec_wire() == self.endpoint_id.spec_wire(),
    {
    }

    /// Reading 2 bytes gives the fields at those places.
    pub proof fn lemma_read_layout(bytes: Seq<u8>)
        requires
            bytes.len() == 2,
        ensures
            <SetEndpointModeResponse as FixedWire>::spec_read(bytes) == (if <EndpointId as FixedWire>::spec_read(bytes.subrange(0, 2)) is Some { Some(SetEndpointModeResponse { endpoint_id: <EndpointId as FixedWire>::spec_read(bytes.subrange(0, 2)).unwrap() }) } else { None }),
    {
    }
}

impl SetEndpointTimingRequest {
    /// The wire form holds, in this order and big endian: `endpoint_id` (2 bytes), `setting_id` (1 byte).
    pub proof fn lemma_wire_layout(self)
        ensures
            self.spec_wire() == self.endpoint_id.spec_wire() + seq![self.setting_id],
    {
    }

    /// Reading 3 bytes gives the fields at those places.
    pub proof fn lemma_read_layout(bytes: Seq<u8>)
        requires
            bytes.len() == 3,
        ensures
            <SetEndpointTimingRequest as FixedWire>::spec_read(bytes) == (if <EndpointId as FixedWire>::spec_read(bytes.subrange(0, 2)) is Some { Some(SetEndpointTimingRequest { endpoint_id: <EndpointId as FixedWire>::spec_read(bytes.subrange(0, 2)).unwrap(), setting_id: bytes[2] }) } else { None }),
    {
    }
}

impl SetEndpointTimingResponse {
    /// The wire form holds, in this order and big endian: `endpoint_id` (2 bytes).
    pub proof fn lemma_wire_layout(self)
        ensures
            self.spec_wire() == self.endpoint_id.spec_wire(),
    {
    }

    /// Reading 2 bytes gives the fields at those places.
    pub proof fn lemma_read_layout(bytes: Seq<u8>)
        requires
            bytes.len() == 2,
        ensures
            <SetEndpointTimingResponse as FixedWire>::spec_read(bytes) == (if <EndpointId as FixedWire>::spec_read(bytes.subrange(0, 2)) is Some { Some(SetEndpointTimingResponse { endpoint_id: <EndpointId as FixedWire>::spec_read(bytes.subrange(0, 2)).unwrap() }) } else { None }),
    {
    }
}

impl SetEndpointToUniverseRequest {
    /// The wire form holds, in this order and big endian: `endpoint_id` (2 bytes), `universe` (2 bytes).
    pub proof fn lemma_wire_layout(self)
        ensures
            self.spec_wire() == self.endpoint_id.spec_wire() + seq![(self.universe / 0x100) as u8, (self.universe % 0x100) as u8],
    {
    }

    /// Reading 4 bytes gives the fields at those places.
    pub proof fn lemma_read_layout(bytes: Seq<u8>)
        requires
            bytes.len() == 4,
        ensures
            <SetEndpointToUniverseRequest as FixedWire>::spec_read(bytes) == (if <EndpointId as FixedWire>::spec_read(bytes.subrange(0, 2)) is Some { Some(SetEndpointToUniverseRequest { endpoint_id: <EndpointId as FixedWire>::spec_read(bytes.subrange(0, 2)).unwrap(), universe: (bytes[2] as int * 0x100 + bytes[3] as int) as u16 }) } else { None }),
    {
    }
}

impl SetEndpointToUniverseResponse {
    /// The wire form holds, in this order and big endian: `endpoint_id` (2 bytes).
    pub proof fn lemma_wire_layout(self)
        ensures
            self.spec_wire() == self.endpoint_id.spec_wire(),
    {
    }

    /// Reading 2 bytes gives the fields at those places.
    pub proof fn lemma_read_layout(bytes: Seq<u8>)
        requires
            bytes.len() == 2,
        ensures
            <SetEndpointToUniverseResponse as FixedWire>::spec_read(bytes) == (if <EndpointId as FixedWire>::spec_read(bytes.subrange(0, 2)) is Some { Some(SetEndpointToUniverseResponse { endpoint_id: <EndpointId as FixedWire>::spec_read(bytes.subrange(0, 2)).unwrap() }) } else { None }),
    {
    }
}

impl SetIdentifyDeviceRequest {
    /// The wire form holds, in this order and big endian: `identify` (1 byte).
    pub proof fn lemma_wire_layout(self)
        ensures
            self.spec_wire() == seq![if self.identify { 1u8 } else { 0u8 }],
    {
    }

    /// Reading 1 bytes gives the fields at those places.
    pub proof fn lemma_read_layout(bytes: Seq<u8>)
        requires
            bytes.len() == 1,
        ensures
            <SetIdentifyDeviceRequest as FixedWire>::spec_read(bytes) == (Some(SetIdentifyDeviceRequest { identify: bytes[0] != 0 })),
    {
    }
}

impl SetIdentifyEndpointRequest {
    /// The wire form holds, in this order and big endian: `endpoint_id` (2 bytes), `identify` (1 byte).
    pub proof fn lemma_wire_layout(self)
        ensures
            self.spec_wire() == self.endpoint_id.spec_wire() + seq![if self.identify { 1u8 } else { 0u8 }],
    {
    }

    /// Reading 3 bytes gives the fields at those places.
    pub proof fn lemma_read_layout(bytes: Seq<u8>)
        requires
            bytes.len() == 3,
        ensures
            <SetIdentifyEndpointRequest as FixedWire>::spec_read(bytes) == (if <EndpointId as FixedWire>::spec_read(bytes.subrange(0, 2)) is Some { Some(SetIdentifyEndpointRequest { endpoint_id: <EndpointId as FixedWire>::spec_read(bytes.subrange(0, 2)).unwrap(), identify: bytes[2] != 0 }) } else { None }),
    {
    }
}

impl SetIdentifyEndpointResponse {
    /// The wire form holds, in this order and big endian: `endpoint_id` (2 bytes).
    pub proof fn lemma_wire_layout(self)
        ensures
            self.spec_wire() == self.endpoint_id.spec_wire(),
    {
    }

    /// Reading 2 bytes gives the fields at those places.
    pub proof fn lemma_read_layout(bytes: Seq<u8>)
        requires
            bytes.len() == 2,
        ensures
            <SetIdentifyEndpointResponse as FixedWire>::spec_read(bytes) == (if <EndpointId as FixedWire>::spec_read(bytes.subrange(0, 2)) is Some { Some(SetIdentifyEndpointResponse { endpoint_id: <EndpointId as FixedWire>::spec_read(bytes.subrange(0, 2)).unwrap() }) } else { None }),
    {
    }
}

impl SetIdentifyModeRequest {
    /// The wire form holds, in this order and big endian: `identify_mode` (1 byte).
    pub proof fn lemma_wire_layout(self)
        ensures
            self.spec_wire() == seq![self.identify_mode],
    {
    }

    /// Reading 1 bytes gives the fields at those places.
    pub proof fn lemma_read_layout(bytes: Seq<u8>)
        requires
            bytes.len() == 1,
        ensures
            <SetIdentifyModeRequest as FixedWire>::spec_read(bytes) == (Some(SetIdentifyModeRequest { identify_mode: bytes[0] })),
    {
    }
}

impl SetInterfaceApplyConfigurationRequest {
    /// The wire form holds, in this order and big endian: `interface_id` (4 bytes).
    pub proof fn lemma_wire_layout(self)
        ensures
            self.spec_wire() == seq![(self.interface_id / 0x100_0000) as u8, ((self.interface_id / 0x1_0000) % 0x100) as u8, ((self.interface_id / 0x100) % 0x100) as u8, (self.interface_id % 0x100) as u8],
    {
    }

    /// Reading 4 bytes gives the fields at those places.
    pub proof fn lemma_read_layout(bytes: Seq<u8>)
        requires
            bytes.len() == 4,
        ensures
            <SetInterfaceApplyConfigurationRequest as FixedWire>::spec_read(bytes) == (Some(SetInterfaceApplyConfigurationRequest { interface_id: (bytes[0] as int * 0x100_0000 + bytes[1] as int * 0x1_0000 + bytes[2] as int * 0x100 + bytes[3] as int) as u32 })),
    {
    }
}

impl SetInterfaceReleaseDhcpRequest {
    /// The wire form holds, in this order and big endian: `interface_id` (4 bytes).
    pub proof fn lemma_wire_layout(self)
        ensures
            self.spec_wire() == seq![(self.interface_id / 0x100_0000) as u8, ((self.interface_id / 0x1_0000) % 0x100) as u8, ((self.interface_id / 0x100) % 0x100) as u8, (self.interface_id % 0x100) as u8],
    {
    }

    /// Reading 4 bytes gives the fields at those places.
    pub proof fn lemma_read_layout(bytes: Seq<u8>)
        requires
            bytes.len() == 4,
        ensures
            <SetInterfaceReleaseDhcpRequest as FixedWire>::spec_read(bytes) == (Some(SetInterfaceReleaseDhcpRequest { interface_id: (bytes[0] as int * 0x100_0000 + bytes[1] as int * 0x1_0000 + bytes[2] as int * 0x100 + bytes[3] as int) as u32 })),
    {
    }
}

impl SetInterfaceRenewDhcpRequest {
    /// The wire form holds, in this order and big endian: `interface_id` (4 bytes).
    pub proof fn lemma_wire_layout(self)
        ensures
            self.spec_wire() == seq![(self.interface_id / 0x100_0000) as u8, ((self.interface_id / 0x1_0000) % 0x100) as u8, ((self.interface_id / 0x100) % 0x100) as u8, (self.interface_id % 0x100) as u8],
    {
    }

    /// Reading 4 bytes gives the fields at those places.
    pub proof fn lemma_read_layout(bytes: Seq<u8>)
        requires
            bytes.len() == 4,
        ensures
            <SetInterfaceRenewDhcpRequest as FixedWire>::spec_read(bytes) == (Some(SetInterfaceRenewDhcpRequest { interface_id: (bytes[0] as int * 0x100_0000 + bytes[1] as int * 0x1_0000 + bytes[2] as int * 0x100 + bytes[3] as int) as u32 })),
    {
    }
}

impl SetIpV4DefaultRouteRequest {
    /// The wire form holds, in this order and big endian: `interface_id` (4 bytes), `address` (4 bytes).
    pub proof fn lemma_wire_layout(self)
        ensures
            self.spec_wire() == seq![(self.interface_id / 0x100_0000) as u8, ((self.interface_id / 0x1_0000) % 0x100) as u8, ((self.interface_id / 0x100) % 0x100) as u8, (self.interface_id % 0x100) as u8] + self.address.spec_wire(),
    {
    }

    /// Reading 8 bytes gives the fields at those places.
    pub proof fn lemma_read_layout(bytes: Seq<u8>)
        requires
            bytes.len() == 8,
        ensures
            <SetIpV4DefaultRouteRequest as FixedWire>::spec_read(bytes) == (if <Ipv4Route as FixedWire>::spec_read(bytes.subrange(4, 8)) is Some { Some(SetIpV4DefaultRouteRequest { interface_id: (bytes[0] as int * 0x100_0000 + bytes[1] as int * 0x1_0000 + bytes[2] as int * 0x100 + bytes[3] as int) as u32, address: <Ipv4Route as FixedWire>::spec_read(bytes.subrange(4, 8)).unwrap() }) } else { None }),
    {
    }
}

impl SetIpV4DhcpModeRequest {
    /// The wire form holds, in this order and big endian: `interface_id` (4 bytes), `dhcp_mode` (1 byte).
    pub proof fn lemma_wire_layout(self)
        ensures
            self.spec_wire() == seq![(self.interface_id / 0x100_0000) as u8, ((self.interface_id / 0x1_0000) % 0x100) as u8, ((self.interface_id / 0x100) % 0x100) as u8, (self.interface_id % 0x100) as u8] + seq![if self.dhcp_mode { 1u8 } else { 0u8 }],
    {
    }

    /// Reading 5 bytes gives the fields at those places.
    pub proof fn lemma_read_layout(bytes: Seq<u8>)
        requires
            bytes.len() == 5,
        ensures
            <SetIpV4DhcpModeRequest as FixedWire>::spec_read(bytes) == (Some(SetIpV4DhcpModeRequest { interface_id: (bytes[0] as int * 0x100_0000 + bytes[1] as int * 0x1_0000 + bytes[2] as int * 0x100 + bytes[3] as int) as u32, dhcp_mode: bytes[4] != 0 })),
    {
    }
}

impl SetIpV4StaticAddressRequest {
    /// The wire form holds, in this order and big endian: `interface_id` (4 bytes), `address` (4 bytes), `netmask` (1 byte).
    pub proof fn lemma_wire_layout(self)
        ensures
            self.spec_wire() == seq![(self.interface_id / 0x100_0000) as u8, ((self.interface_id / 0x1_0000) % 0x100) as u8, ((self.interface_id / 0x100) % 0x100) as u8, (self.interface_id % 0x100) as u8] + self.address.spec_wire() + seq![self.netmask],
    {
    }

    /// Reading 9 bytes gives the fields at those places.
    pub proof fn lemma_read_layout(bytes: Seq<u8>)
        requires
            bytes.len() == 9,
        ensures
            <SetIpV4StaticAddressRequest as FixedWire>::spec_read(bytes) == (if <Ipv4Address as FixedWire>::spec_read(bytes.subrange(4, 8)) is Some { Some(SetIpV4StaticAddressRequest { interface_id: (bytes[0] as int * 0x100_0000 + bytes[1] as int * 0x1_0000 + bytes[2] as int * 0x100 + bytes[3] as int) as u32, address: <Ipv4Address as FixedWire>::spec_read(bytes.subrange(4, 8)).unwrap(), netmask: bytes[8] }) } else { None }),
    {
    }
}

impl SetIpV4ZeroConfModeRequest {
    /// The wire form holds, in this order and big endian: `interface_id` (4 bytes), `zero_conf_mode` (1 byte).
    pub proof fn lemma_wire_layout(self)
        ensures
            self.spec_wire() == seq![(self.interface_id / 0x100_0000) as u8, ((self.interface_id / 0x1_0000) % 0x100) as u8, ((self.interface_id / 0x100) % 0x100) as u8, (self.interface_id % 0x100) as u8] + seq![if self.zero_conf_mode { 1u8 } else { 0u8 }],
    {
    }

    /// Reading 5 bytes gives the fields at those places.
    pub proof fn lemma_read_layout(bytes: Seq<u8>)
        requires
            bytes.len() == 5,
        ensures
            <SetIpV4ZeroConfModeRequest as FixedWire>::spec_read(bytes) == (Some(SetIpV4ZeroConfModeRequest { interface_id: (bytes[0] as int * 0x100_0000 + bytes[1] as int * 0x1_0000 + bytes[2] as int * 0x100 + bytes[3] as int) as u32, zero_conf_mode: bytes[4] != 0 })),
    {
    }
}

impl SetLampHoursRequest {
    /// The wire form holds, in this order and big endian: `lamp_hours` (4 bytes).
    pub proof fn lemma_wire_layout(self)
        ensures
            self.spec_wire() == seq![(self.lamp_hours / 0x100_0000) as u8, ((self.lamp_hours / 0x1_0000) % 0x100) as u8, ((self.lamp_hours / 0x100) % 0x100) as u8, (self.lamp_hours % 0x100) as u8],
    {
    }

    /// Reading 4 bytes gives the fields at those places.
    pub proof fn lemma_read_layout(bytes: Seq<u8>)
        requires
            bytes.len() == 4,
        ensures
            <SetLampHoursRequest as FixedWire>::spec_read(bytes) == (Some(SetLampHoursRequest { lamp_hours: (bytes[0] as int * 0x100_0000 + bytes[1] as int * 0x1_0000 + bytes[2] as int * 0x100 + bytes[3] as int) as u32 })),
    {
    }
}

impl SetLampOnModeRequest {
    /// The wire form holds, in this order and big endian: `lamp_on_mode` (1 byte).
    pub proof fn lemma_wire_layout(self)
        ensures
            self.spec_wire() == self.lamp_on_mode.spec_wire(),
    {
    }

    /// Reading 1 bytes gives the fields at those places.
    pub proof fn lemma_read_layout(bytes: Seq<u8>)
        requires
            bytes.len() == 1,
        ensures
            <SetLampOnModeRequest as FixedWire>::spec_read(bytes) == (if <LampOnMode as FixedWire>::spec_read(bytes.subrange(0, 1)) is Some { Some(SetLampOnModeRequest { lamp_on_mode: <LampOnMode as FixedWire>::spec_read(bytes.subrange(0, 1)).unwrap() }) } else { None }),
    {
    }
}

impl SetLampStateRequest {
    /// The wire form holds, in this order and big endian: `lamp_state` (1 byte).
    pub proof fn lemma_wire_layout(self)
        ensures
            self.spec_wire() == self.lamp_state.spec_wire(),
    {
    }

    /// Reading 1 bytes gives the fields at those places.
    pub proof fn lemma_read_layout(bytes: Seq<u8>)
        requires
            bytes.len() == 1,
        ensures
            <SetLampStateRequest as FixedWire>::spec_read(bytes) == (if <LampState as FixedWire>::spec_read(bytes.subrange(0, 1)) is Some { Some(SetLampStateRequest { lamp_state: <LampState as FixedWire>::spec_read(bytes.subrange(0, 1)).unwrap() }) } else { None }),
    {
    }
}

impl SetLampStrikesRequest {
    /// The wire form holds, in this order and big endian: `lamp_strikes` (4 bytes).
    pub proof fn lemma_wire_layout(self)
        ensures
            self.spec_wire() == seq![(self.lamp_strikes / 0x100_0000) as u8, ((self.lamp_strikes / 0x1_0000) % 0x100) as u8, ((self.lamp_strikes / 0x100) % 0x100) as u8, (self.lamp_strikes % 0x100) as u8],
    {
    }

    /// Reading 4 bytes gives the fields at those places.
    pub proof fn lemma_read_layout(bytes: Seq<u8>)
        requires
            bytes.len() == 4,
        ensures
            <SetLampStrikesRequest as FixedWire>::spec_read(bytes) == (Some(SetLampStrikesRequest { lamp_strikes: (bytes[0] as int * 0x100_0000 + bytes[1] as int * 0x1_0000 + bytes[2] as int * 0x100 + bytes[3] as int) as u32 })),
    {
    }
}

impl SetLockPinRequest {
    /// The wire form holds, in this order and big endian: `new_pin_code` (2 bytes), `current_pin_code` (2 bytes).
    pub proof fn lemma_wire_layout(self)
        ensures
            self.spec_wire() == self.new_pin_code.spec_wire() + self.current_pin_code.spec_wire(),
    {
    }

    /// Reading 4 bytes gives the fields at those places.
    pub proof fn lemma_read_layout(bytes: Seq<u8>)
        requires
            bytes.len() == 4,
        ensures
            <SetLockPinRequest as FixedWire>::spec_read(bytes) == (if <PinCode as FixedWire>::spec_read(bytes.subrange(0, 2)) is Some && <PinCode as FixedWire>::spec_read(bytes.subrange(2, 4)) is Some { Some(SetLockPinRequest { new_pin_code: <PinCode as FixedWire>::spec_read(bytes.subrange(0, 2)).unwrap(), current_pin_code: <PinCode as FixedWire>::spec_read(bytes.subrange(2, 4)).unwrap() }) } else { None }),
    {
    }
}

impl SetLockStateRequest {
    /// The wire form holds, in this order and big endian: `pin_code` (2 bytes), `lock_state` (1 byte).
    pub proof fn lemma_wire_layout(self)
        ensures
            self.spec_wire() == self.pin_code.spec_wire() + seq![if self.lock_state { 1u8 } else { 0u8 }],
    {
    }

    /// Reading 3 bytes gives the fields at those places.
    pub proof fn lemma_read_layout(bytes: Seq<u8>)
        requires
            bytes.len() == 3,
        ensures
            <SetLockStateRequest as FixedWire>::spec_read(bytes) == (if <PinCode as FixedWire>::spec_read(bytes.subrange(0, 2)) is Some { Some(SetLockStateRequest { pin_code: <PinCode as FixedWire>::spec_read(bytes.subrange(0, 2)).unwrap(), lock_state: bytes[2] != 0 }) } else { None }),
    {
    }
}

impl SetMaximumLevelRequest {
    /// The wire form holds, in this order and big endian: `maximum_level` (2 bytes).
    pub proof fn lemma_wire_layout(self)
        ensures
            self.spec_wire() == seq![(self.maximum_level / 0x100) as u8, (self.maximum_level % 0x100) as u8],
    {
    }

    /// Reading 2 bytes gives the fields at those places.
    pub proof fn lemma_read_layout(bytes: Seq<u8>)
        requires
            bytes.len() == 2,
        ensures
            <SetMaximumLevelRequest as FixedWire>::spec_read(bytes) == (Some(SetMaximumLevelRequest { maximum_level: (bytes[0] as int * 0x100 + bytes[1] as int) as u16 })),
    {
    }
}

impl SetMinimumLevelRequest {
    /// The wire form holds, in this order and big endian: `minimum_level_increasing` (2 bytes), `minimum_level_decreasing` (2 bytes), `on_below_minimum` (1 byte).
    pub proof fn lemma_wire_layout(self)
        ensures
            self.spec_wire() == seq![(self.minimum_level_increasing / 0x100) as u8, (self.minimum_level_increasing % 0x100) as u8] + seq![(self.minimum_level_decreasing / 0x100) as u8, (self.minimum_level_decreasing % 0x100) as u8] + seq![if self.on_below_minimum { 1u8 } else { 0u8 }],
    {
    }

    /// Reading 5 bytes gives the fields at those places.
    pub proof fn lemma_read_layout(bytes: Seq<u8>)
        requires
            bytes.len() == 5,
        ensures
            <SetMinimumLevelRequest as FixedWire>::spec_read(bytes) == (Some(SetMinimumLevelRequest { minimum_level_increasing: (bytes[0] as int * 0x100 + bytes[1] as int) as u16, minimum_level_decreasing: (bytes[2] as int * 0x100 + bytes[3] as int) as u16, on_below_minimum: bytes[4] != 0 })),
    {
    }
}

impl SetModulationFrequencyRequest {
    /// The wire form holds, in this order and big endian: `modulation_frequency_id` (1 byte).
    pub proof fn lemma_wire_layout(self)
        ensures
            self.spec_wire() == seq![self.modulation_frequency_id],
    {
    }

    /// Reading 1 bytes gives the fields at those places.
    pub proof fn lemma_read_layout(bytes: Seq<u8>)
        requires
            bytes.len() == 1,
        ensures
            <SetModulationFrequencyRequest as FixedWire>::spec_read(bytes) == (Some(SetModulationFrequencyRequest { modulation_frequency_id: bytes[0] })),
    {
    }
}

impl SetOutputResponseTimeRequest {
    /// The wire form holds, in this order and big endian: `output_response_time_id` (1 byte).
    pub proof fn lemma_wire_layout(self)
        ensures
            self.spec_wire() == seq![self.output_response_time_id],
    {
    }

    /// Reading 1 bytes gives the fields at those places.
    pub proof fn lemma_read_layout(bytes: Seq<u8>)
        requires
            bytes.len() == 1,
        ensures
            <SetOutputResponseTimeRequest as FixedWire>::spec_read(bytes) == (Some(SetOutputResponseTimeRequest { output_response_time_id: bytes[0] })),
    {
    }
}

impl SetPanInvertRequest {
    /// The wire form holds, in this order and big endian: `pan_invert` (1 byte).
    pub proof fn lemma_wire_layout(self)
        ensures
            self.spec_wire() == seq![if self.pan_invert { 1u8 } else { 0u8 }],
    {
    }

    /// Reading 1 bytes gives the fields at those places.
    pub proof fn lemma_read_layout(bytes: Seq<u8>)
        requires
            bytes.len() == 1,
        ensures
            <SetPanInvertRequest as FixedWire>::spec_read(bytes) == (Some(SetPanInvertRequest { pan_invert: bytes[0] != 0 })),
    {
    }
}

impl SetPanTiltSwapRequest {
    /// The wire form holds, in this order and big endian: `pan_tilt_swap` (1 byte).
    pub proof fn lemma_wire_layout(self)
        ensures
            self.spec_wire() == seq![if self.pan_tilt_swap { 1u8 } else { 0u8 }],
    {
    }

    /// Reading 1 bytes gives the fields at those places.
    pub proof fn lemma_read_layout(bytes: Seq<u8>)
        requires
            bytes.len() == 1,
        ensures
            <SetPanTiltSwapRequest as FixedWire>::spec_read(bytes) == (Some(SetPanTiltSwapRequest { pan_tilt_swap: bytes[0] != 0 })),
    {
    }
}

impl SetPerformSelfTestRequest {
    /// The wire form holds, in this order and big endian: `self_test_id` (1 byte).
    pub proof fn lemma_wire_layout(self)
        ensures
            self.spec_wire() == self.self_test_id.spec_wire(),
    {
    }

    /// Reading 1 bytes gives the fields at those places.
    pub proof fn lemma_read_layout(bytes: Seq<u8>)
        requires
            bytes.len() == 1,
        ensures
            <SetPerformSelfTestRequest as FixedWire>::spec_read(bytes) == (if <SelfTest as FixedWire>::spec_read(bytes.subrange(0, 1)) is Some { Some(SetPerformSelfTestRequest { self_test_id: <SelfTest as FixedWire>::spec_read(bytes.subrange(0, 1)).unwrap() }) } else { None }),
    {
    }
}

impl SetPowerOnSelfTestRequest {
    /// The wire form holds, in this order and big endian: `self_test_id` (1 byte).
    pub proof fn lemma_wire_layout(self)
        ensures
            self.spec_wire() == self.self_test_id.spec_wire(),
    {
    }

    /// Reading 1 bytes gives the fields at those places.
    pub proof fn lemma_read_layout(bytes: Seq<u8>)
        requires
            bytes.len() == 1,
        ensures
            <SetPowerOnSelfTestRequest as FixedWire>::spec_read(bytes) == (if <SelfTest as FixedWire>::spec_read(bytes.subrange(0, 1)) is Some { Some(SetPowerOnSelfTestRequest { self_test_id: <SelfTest as FixedWire>::spec_read(bytes.subrange(0, 1)).unwrap() }) } else { None }),
    {
    }
}

impl SetPowerStateRequest {
    /// The wire form holds, in this order and big endian: `power_state` (1 byte).
    pub proof fn lemma_wire_layout(self)
        ensures
            self.spec_wire() == self.power_state.spec_wire(),
    {
    }

    /// Reading 1 bytes gives the fields at those places.
    pub proof fn lemma_read_layout(bytes: Seq<u8>)
        requires
            bytes.len() == 1,
        ensures
            <SetPowerStateRequest as FixedWire>::spec_read(bytes) == (if <PowerState as FixedWire>::spec_read(bytes.subrange(0, 1)) is Some { Some(SetPowerStateRequest { power_state: <PowerState as FixedWire>::spec_read(bytes.subrange(0, 1)).unwrap() }) } else { None }),
    {
    }
}

impl SetPresetMergeModeRequest {
    /// The wire form holds, in this order and big endian: `merge_mode` (1 byte).
    pub proof fn lemma_wire_layout(self)
        ensures
            self.spec_wire() == self.merge_mode.spec_wire(),
    {
    }

    /// Reading 1 bytes gives the fields at those places.
    pub proof fn lemma_read_layout(bytes: Seq<u8>)
        requires
            bytes.len() == 1,
        ensures
            <SetPresetMergeModeRequest as FixedWire>::spec_read(bytes) == (if <MergeMode as FixedWire>::spec_read(bytes.subrange(0, 1)) is Some { Some(SetPresetMergeModeRequest { merge_mode: <MergeMode as FixedWire>::spec_read(bytes.subrange(0, 1)).unwrap() }) } else { None }),
    {
    }
}

impl SetPresetPlaybackRequest {
    /// The wire form holds, in this order and big endian: `mode` (2 bytes), `level` (1 byte).
    pub proof fn lemma_wire_layout(self)
        ensures
            self.spec_wire() == self.mode.spec_wire() + seq![self.level],
    {
    }

    /// Reading 3 bytes gives the fields at those places.
    pub proof fn lemma_read_layout(bytes: Seq<u8>)
        requires
            bytes.len() == 3,
        ensures
            <SetPresetPlaybackRequest as FixedWire>::spec_read(bytes) == (if <PresetPlaybackMode as FixedWire>::spec_read(bytes.subrange(0, 2)) is Some { Some(SetPresetPlaybackRequest { mode: <PresetPlaybackMode as FixedWire>::spec_read(bytes.subrange(0, 2)).unwrap(), level: bytes[2] }) } else { None }),
    {
    }
}

impl SetPresetStatusRequest {
    /// The wire form holds, in this order and big endian: `scene_id` (2 bytes), `up_fade_time` (2 bytes), `down_fade_time` (2 bytes), `wait_time` (2 bytes), `clear_preset` (1 byte).
    pub proof fn lemma_wire_layout(self)
        ensures
            self.spec_wire() == seq![(self.scene_id / 0x100) as u8, (self.scene_id % 0x100) as u8] + seq![(self.up_fade_time / 0x100) as u8, (self.up_fade_time % 0x100) as u8] + seq![(self.down_fade_time / 0x100) as u8, (self.down_fade_time % 0x100) as u8] + seq![(self.wait_time / 0x100) as u8, (self.wait_time % 0x100) as u8] + seq![if self.clear_preset { 1u8 } else { 0u8 }],
    {
    }

    /// Reading 9 bytes gives the fields at those places.
    pub proof fn lemma_read_layout(bytes: Seq<u8>)
        requires
            bytes.len() == 9,
        ensures
            <SetPresetStatusRequest as FixedWire>::spec_read(bytes) == (Some(SetPresetStatusRequest { scene_id: (bytes[0] as int * 0x100 + bytes[1] as int) as u16, up_fade_time: (bytes[2] as int * 0x100 + bytes[3] as int) as u16, down_fade_time: (bytes[4] as int * 0x100 + bytes[5] as int) as u16, wait_time: (bytes[6] as int * 0x100 + bytes[7] as int) as u16, clear_preset: bytes[8] != 0 })),
    {
    }
}

impl SetRdmTrafficEnableRequest {
    /// The wire form holds, in this order and big endian: `endpoint_id` (2 bytes), `enable` (1 byte).
    pub proof fn lemma_wire_layout(self)
        ensures
            self.spec_wire() == self.endpoint_id.spec_wire() + seq![if self.enable { 1u8 } else { 0u8 }],
    {
    }

    /// Reading 3 bytes gives the fields at those places.
    pub proof fn lemma_read_layout(bytes: Seq<u8>)
        requires
            bytes.len() == 3,
        ensures
            <SetRdmTrafficEnableRequest as FixedWire>::spec_read(bytes) == (if <EndpointId as FixedWire>::spec_read(bytes.subrange(0, 2)) is Some { Some(SetRdmTrafficEnableRequest { endpoint_id: <EndpointId as FixedWire>::spec_read(bytes.subrange(0, 2)).unwrap(), enable: bytes[2] != 0 }) } else { None }),
    {
    }
}

impl SetRdmTrafficEnableResponse {
    /// The wire form holds, in this order and big endian: `endpoint_id` (2 bytes).
    pub proof fn lemma_wire_layout(self)
        ensures
            self.spec_wire() == self.endpoint_id.spec_wire(),
    {
    }

    /// Reading 2 bytes gives the fields at those places.
    pub proof fn lemma_read_layout(bytes: Seq<u8>)
        requires
            bytes.len() == 2,
        ensures
            <SetRdmTrafficEnableResponse as FixedWire>::spec_read(bytes) == (if <EndpointId as FixedWire>::spec_read(bytes.subrange(0, 2)) is Some { Some(SetRdmTrafficEnableResponse { endpoint_id: <EndpointId as FixedWire>::spec_read(bytes.subrange(0, 2)).unwrap() }) } else { None }),
    {
    }
}

impl SetRealTimeClockRequest {
    /// The wire form holds, in this order and big endian: `year` (2 bytes), `month` (1 byte), `day` (1 byte), `hour` (1 byte), `minute` (1 byte), `second` (1 byte).
    pub proof fn lemma_wire_layout(self)
        ensures
            self.spec_wire() == seq![(self.year / 0x100) as u8, (self.year % 0x100) as u8] + seq![self.month] + seq![self.day] + seq![self.hour] + seq![self.minute] + seq![self.second],
    {
    }

    /// Reading 7 bytes gives the fields at those places.
    pub proof fn lemma_read_layout(bytes: Seq<u8>)
        requires
            bytes.len() == 7,
        ensures
            <SetRealTimeClockRequest as FixedWire>::spec_read(bytes) == (Some(SetRealTimeClockRequest { year: (bytes[0] as int * 0x100 + bytes[1] as int) as u16, month: bytes[2], day: bytes[3], hour: bytes[4], minute: bytes[5], second: bytes[6] })),
    {
    }
}

impl SetRecordSensorsRequest {
    /// The wire form holds, in this order and big endian: `sensor_id` (1 byte).
    pub proof fn lemma_wire_layout(self)
        ensures
            self.spec_wire() == seq![self.sensor_id],
    {
    }

    /// Reading 1 bytes gives the fields at those places.
    pub proof fn lemma_read_layout(bytes: Seq<u8>)
        requires
            bytes.len() == 1,
        ensures
            <SetRecordSensorsRequest as FixedWire>::spec_read(bytes) == (Some(SetRecordSensorsRequest { sensor_id: bytes[0] })),
    {
    }
}

impl SetResetDeviceRequest {
    /// The wire form holds, in this order and big endian: `reset_device` (1 byte).
    pub proof fn lemma_wire_layout(self)
        ensures
            self.spec_wire() == self.reset_device.spec_wire(),
    {
    }

    /// Reading 1 bytes gives the fields at those places.
    pub proof fn lemma_read_layout(bytes: Seq<u8>)
        requires
            bytes.len() == 1,
        ensures
            <SetResetDeviceRequest as FixedWire>::spec_read(bytes) == (if <ResetDeviceMode as FixedWire>::spec_read(bytes.subrange(0, 1)) is Some { Some(SetResetDeviceRequest { reset_device: <ResetDeviceMode as FixedWire>::spec_read(bytes.subrange(0, 1)).unwrap() }) } else { None }),
    {
    }
}

impl SetSensorValueRequest {
    /// The wire form holds, in this order and big endian: `sensor_id` (1 byte).
    pub proof fn lemma_wire_layout(self)
        ensures
            self.spec_wire() == seq![self.sensor_id],
    {
    }

    /// Reading 1 bytes gives the fields at those places.
    pub proof fn lemma_read_layout(bytes: Seq<u8>)
        requires
            bytes.len() == 1,
        ensures
            <SetSensorValueRequest as FixedWire>::spec_read(bytes) == (Some(SetSensorValueRequest { sensor_id: bytes[0] })),
    {
    }
}

impl SetSensorValueResponse {
    /// The wire form holds, in this order and big endian: `sensor_id` (1 byte), `current_value` (2 bytes), `lowest_detected_value` (2 bytes), `highest_detected_value` (2 bytes), `recorded_value` (2 bytes).
    pub proof fn lemma_wire_layout(self)
        ensures
            self.spec_wire() == seq![self.sensor_id] + seq![(((self.current_value as int + 0x1_0000) % 0x1_0000) / 0x100) as u8, (((self.current_value as int + 0x1_0000) % 0x1_0000) % 0x100) as u8] + seq![(((self.lowest_detected_value as int + 0x1_0000) % 0x1_0000) / 0x100) as u8, (((self.lowest_detected_value as int + 0x1_0000) % 0x1_0000) % 0x100) as u8] + seq![(((self.highest_detected_value as int + 0x1_0000) % 0x1_0000) / 0x100) as u8, (((self.highest_detected_value as int + 0x1_0000) % 0x1_0000) % 0x100) as u8] + seq![(((self.recorded_value as int + 0x1_0000) % 0x1_0000) / 0x100) as u8, (((self.recorded_value as int + 0x1_0000) % 0x1_0000) % 0x100) as u8],
    {
        lemma_i16_bytes(self.current_value);
        lemma_i16_bytes(self.lowest_detected_value);
        lemma_i16_bytes(self.highest_detected_value);
        lemma_i16_bytes(self.recorded_value);
    }

    /// Reading 9 bytes gives the fields at those places.
    pub proof fn lemma_read_layout(bytes: Seq<u8>)
        requires
            bytes.len() == 9,
        ensures
            <SetSensorValueResponse as FixedWire>::spec_read(bytes) == (Some(SetSensorValueResponse { sensor_id: bytes[0], current_value: (if (bytes[1] as int * 0x100 + bytes[2] as int) < 0x8000 { (bytes[1] as int * 0x100 + bytes[2] as int) } else { (bytes[1] as int * 0x100 + bytes[2] as int) - 0x1_0000 }) as i16, lowest_detected_value: (if (bytes[3] as int * 0x100 + bytes[4] as int) < 0x8000 { (bytes[3] as int * 0x100 + bytes[4] as int) } else { (bytes[3] as int * 0x100 + bytes[4] as int) - 0x1_0000 }) as i16, highest_detected_value: (if (bytes[5] as int * 0x100 + bytes[6] as int) < 0x8000 { (bytes[5] as int * 0x100 + bytes[6] as int) } else { (bytes[5] as int * 0x100 + bytes[6] as int) - 0x1_0000 }) as i16, recorded_value: (if (bytes[7] as int * 0x100 + bytes[8] as int) < 0x8000 { (bytes[7] as int * 0x100 + bytes[8] as int) } else { (bytes[7] as int * 0x100 + bytes[8] as int) - 0x1_0000 }) as i16 })),
    {
    }
}

impl SetSubDeviceIdStatusReportThresholdRequest {
    /// The wire form holds, in this order and big endian: `status_type` (1 byte).
    pub proof fn lemma_wire_layout(self)
        ensures
            self.spec_wire() == self.status_type.spec_wire(),
    {
    }

    /// Reading 1 bytes gives the fields at those places.
    pub proof fn lemma_read_layout(bytes: Seq<u8>)
        requires
            bytes.len() == 1,
        ensures
            <SetSubDeviceIdStatusReportThresholdRequest as FixedWire>::spec_read(bytes) == (if <StatusType as FixedWire>::spec_read(bytes.subrange(0, 1)) is Some { Some(SetSubDeviceIdStatusReportThresholdRequest { status_type: <StatusType as FixedWire>::spec_read(bytes.subrange(0, 1)).unwrap() }) } else { None }),
    {
    }
}

impl SetTiltInvertRequest {
    /// The wire form holds, in this order and big endian: `tilt_invert` (1 byte).
    pub proof fn lemma_wire_layout(self)
        ensures
            self.spec_wire() == seq![if self.tilt_invert { 1u8 } else { 0u8 }],
    {
    }

    /// Reading 1 bytes gives the fields at those places.
    pub proof fn lemma_read_layout(bytes: Seq<u8>)
        requires
            bytes.len() == 1,
        ensures
            <SetTiltInvertRequest as FixedWire>::spec_read(bytes) == (Some(SetTiltInvertRequest { tilt_invert: bytes[0] != 0 })),
    {
    }
}

impl SlotInfo {
    /// The wire form holds, in this order and big endian: `id` (2 bytes), `kind` (1 byte), `label_id` (2 bytes).
    pub proof fn lemma_wire_layout(self)
        ensures
            self.spec_wire() == seq![(self.id / 0x100) as u8, (self.id % 0x100) as u8] + self.kind.spec_wire() + seq![(self.label_id / 0x100) as u8, (self.label_id % 0x100) as u8],
    {
    }

    /// Reading 5 bytes gives the fields at those places.
    pub proof fn lemma_read_layout(bytes: Seq<u8>)
        requires
            bytes.len() == 5,
        ensures
            <SlotInfo as FixedWire>::spec_read(bytes) == (if <SlotType as FixedWire>::spec_read(bytes.subrange(2, 3)) is Some { Some(SlotInfo { id: (bytes[0] as int * 0x100 + bytes[1] as int) as u16, kind: <SlotType as FixedWire>::spec_read(bytes.subrange(2, 3)).unwrap(), label_id: (bytes[3] as int * 0x100 + bytes[4] as int) as u16 }) } else { None }),
    {
    }
}

} // verus!
