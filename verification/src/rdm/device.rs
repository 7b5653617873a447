//! What a controller has learned of one responder, gathered from the responses it sent.

use crate::rdm::common::DeviceUID;
use crate::rdm::parameter::e120::response::{
    GetDeviceHoursResponse, GetDeviceInfoResponse, GetDeviceModelDescriptionResponse,
    GetDmxPersonalityDescriptionResponse, GetDmxPersonalityResponse, GetIdentifyDeviceResponse,
    GetManufacturerLabelResponse, GetParameterDescriptionResponse, GetProductDetailIdListResponse,
    GetSlotInfoResponse, GetSoftwareVersionLabelResponse, GetSupportedParametersResponse,
};
use crate::rdm::parameter::e120::{ImplementedCommandClass, ProductCategory, ProductDetail, ProtocolVersion, SlotInfo};
use crate::rdm::parameter::e137_1::response::{
    GetCurveDescriptionResponse, GetCurveResponse, GetDimmerInfoResponse, GetMaximumLevelResponse,
    GetMinimumLevelResponse, GetModulationFrequencyDescriptionResponse,
    GetModulationFrequencyResponse, GetOutputResponseTimeDescriptionResponse,
    GetOutputResponseTimeResponse,
};
use crate::rdm::parameter::ParameterId;
use crate::rdm::response::{is_manufacturer_specific, spec_is_manufacturer_specific};
use crate::rdm::utils::from_be32;
use std::collections::HashMap;
use vstd::prelude::*;
use vstd::std_specs::convert::{FromSpecImpl, TryFromSpecImpl};
use vstd::string::StringSliceAdditionalSpecFns;

verus! {

broadcast use vstd::std_specs::hash::group_hash_axioms;

/// Whether `s` is the text whose UTF-8 encoding is `bytes`.
pub open spec fn spec_text_of(s: String, bytes: Seq<u8>) -> bool {
    vstd::utf8::encode_utf8(s@) == bytes
}

/// The entries of an optional map: none where there is no map.
pub open spec fn spec_entries<K, V>(m: Option<HashMap<K, V>>) -> Map<K, V> {
    match m {
        Some(m) => m@,
        None => Map::empty(),
    }
}

/// The 32 bit value of four big endian bytes.
fn u32_from_be_bytes(b: [u8; 4]) -> (r: u32)
    ensures
        r == from_be32(b[0], b[1], b[2], b[3]),
{
    let v: u32 = (b[0] as u32) * 0x100_0000 + (b[1] as u32) * 0x1_0000 + (b[2] as u32) * 0x100
        + (b[3] as u32);
    v
}

/// Why a byte names no supported command class.
#[derive(Clone, Copy, Debug, PartialEq, Eq, Structural)]
pub enum SupportedCommandClassError {
    InvalidCommandClass(u8),
}

/// The command classes that a responder supports for a parameter.
#[derive(Clone, Copy, Debug, PartialEq, Eq, Structural)]
pub enum SupportedCommandClass {
    Get,
    SetOnly,
    GetSet,
}

impl SupportedCommandClass {
    /// The class that a byte names, or why it names none.
    pub open spec fn spec_try_from_u8(value: u8) -> Result<Self, SupportedCommandClassError> {
        match value {
            0x01 => Ok(SupportedCommandClass::Get),
            0x02 => Ok(SupportedCommandClass::SetOnly),
            0x03 => Ok(SupportedCommandClass::GetSet),
            _ => Err(SupportedCommandClassError::InvalidCommandClass(value)),
        }
    }

    pub fn try_from_u8(value: u8) -> (r: Result<Self, SupportedCommandClassError>)
        ensures
            r == Self::spec_try_from_u8(value),
    {
        match value {
            0x01 => Ok(SupportedCommandClass::Get),
            0x02 => Ok(SupportedCommandClass::SetOnly),
            0x03 => Ok(SupportedCommandClass::GetSet),
            _ => Err(SupportedCommandClassError::InvalidCommandClass(value)),
        }
    }

    /// The class that a parameter description announces.
    pub open spec fn spec_from_implemented(c: ImplementedCommandClass) -> Self {
        match c {
            ImplementedCommandClass::Get => SupportedCommandClass::Get,
            ImplementedCommandClass::SetOnly => SupportedCommandClass::SetOnly,
            ImplementedCommandClass::GetSet => SupportedCommandClass::GetSet,
        }
    }

    pub fn from_implemented(c: ImplementedCommandClass) -> (r: Self)
        ensures
            r == Self::spec_from_implemented(c),
    {
        match c {
            ImplementedCommandClass::Get => SupportedCommandClass::Get,
            ImplementedCommandClass::SetOnly => SupportedCommandClass::SetOnly,
            ImplementedCommandClass::GetSet => SupportedCommandClass::GetSet,
        }
    }
}

impl TryFrom<u8> for SupportedCommandClass {
    type Error = SupportedCommandClassError;

    fn try_from(value: u8) -> (r: Result<Self, SupportedCommandClassError>) {
        Self::try_from_u8(value)
    }
}

impl TryFromSpecImpl<u8> for SupportedCommandClass {
    open spec fn obeys_try_from_spec() -> bool {
        true
    }

    open spec fn try_from_spec(value: u8) -> Result<Self, SupportedCommandClassError> {
        Self::spec_try_from_u8(value)
    }
}

/// What is known of a manufacturer specific parameter of a responder.
#[derive(Clone, Debug)]
pub struct ManufacturerSpecificParameter {
    pub parameter_id: u16,
    pub parameter_data_size: Option<u8>,
    pub data_type: Option<u8>,
    pub command_class: Option<SupportedCommandClass>,
    pub prefix: Option<u8>,
    pub minimum_valid_value: Option<u32>,
    pub maximum_valid_value: Option<u32>,
    pub default_value: Option<u32>,
    pub description: Option<String>,
}

impl ManufacturerSpecificParameter {
    /// A parameter of which only the identifier is known.
    pub open spec fn spec_new(parameter_id: u16) -> Self {
        ManufacturerSpecificParameter {
            parameter_id,
            parameter_data_size: None,
            data_type: None,
            command_class: None,
            prefix: None,
            minimum_valid_value: None,
            maximum_valid_value: None,
            default_value: None,
            description: None,
        }
    }

    /// Whether `self` is `old` with what `data` describes of the parameter filled in.
    pub open spec fn spec_described(self, old: Self, data: GetParameterDescriptionResponse) -> bool {
        &&& self == (ManufacturerSpecificParameter {
            parameter_data_size: Some(data.parameter_data_length),
            data_type: Some(data.data_type.spec_to_u8()),
            command_class: Some(SupportedCommandClass::spec_from_implemented(data.command_class)),
            prefix: Some(data.prefix.spec_to_u8()),
            minimum_valid_value: Some(
                from_be32(
                    data.raw_minimum_valid_value[0],
                    data.raw_minimum_valid_value[1],
                    data.raw_minimum_valid_value[2],
                    data.raw_minimum_valid_value[3],
                ),
            ),
            maximum_valid_value: Some(
                from_be32(
                    data.raw_maximum_valid_value[0],
                    data.raw_maximum_valid_value[1],
                    data.raw_maximum_valid_value[2],
                    data.raw_maximum_valid_value[3],
                ),
            ),
            default_value: Some(
                from_be32(
                    data.raw_default_value[0],
                    data.raw_default_value[1],
                    data.raw_default_value[2],
                    data.raw_default_value[3],
                ),
            ),
            description: self.description,
            ..old
        })
        &&& self.description matches Some(s) && spec_text_of(s, data.description.spec_bytes())
    }
}

impl From<u16> for ManufacturerSpecificParameter {
    fn from(parameter_id: u16) -> (r: Self) {
        ManufacturerSpecificParameter {
            parameter_id,
            parameter_data_size: None,
            data_type: None,
            command_class: None,
            prefix: None,
            minimum_valid_value: None,
            maximum_valid_value: None,
            default_value: None,
            description: None,
        }
    }
}

impl FromSpecImpl<u16> for ManufacturerSpecificParameter {
    open spec fn obeys_from_spec() -> bool {
        true
    }

    open spec fn from_spec(parameter_id: u16) -> Self {
        Self::spec_new(parameter_id)
    }
}

/// A DMX personality of a responder.
#[derive(Clone, Debug)]
pub struct DmxPersonality {
    pub id: u8,
    pub dmx_slots_required: u16,
    pub description: String,
}

/// A dimmer curve of a responder.
#[derive(Clone, Debug)]
pub struct Curve {
    pub id: u8,
    pub description: String,
}

/// A modulation frequency of a responder.
#[derive(Clone, Debug)]
pub struct ModulationFrequency {
    pub id: u8,
    pub frequency: u32,
    pub description: String,
}

/// An output response time of a responder.
#[derive(Clone, Debug)]
pub struct OutputResponseTime {
    pub id: u8,
    pub description: String,
}

/// A sensor of a responder.
#[derive(Clone, Debug)]
pub struct Sensor {
    pub id: u8,
    pub kind: u8,
    pub unit: u8,
    pub prefix: u8,
    pub range_minimum_value: u16,
    pub range_maximum_value: u16,
    pub normal_minimum_value: u16,
    pub normal_maximum_value: u16,
    pub recorded_value_support: u8,
    pub description: String,
}

/// A DMX slot of a responder.
#[derive(Clone, Debug)]
pub struct DmxSlot {
    pub id: u16,
    pub kind: u8,
    pub label_id: u16,
    pub description: Option<String>,
}

impl DmxSlot {
    /// The slot that a slot info entry describes.
    pub open spec fn spec_from_slot_info(info: SlotInfo) -> Self {
        DmxSlot { id: info.id, kind: info.kind.spec_to_u8(), label_id: info.label_id, description: None }
    }

    pub fn from_slot_info(info: &SlotInfo) -> (r: Self)
        ensures
            r == Self::spec_from_slot_info(*info),
    {
        DmxSlot { id: info.id, kind: info.kind.to_u8(), label_id: info.label_id, description: None }
    }

    /// The slot that five bytes describe: its offset, its type and its label, big endian.
    pub fn from_bytes(bytes: &[u8]) -> (r: Self)
        requires
            bytes@.len() >= 5,
        ensures
            r.id == bytes@[0] as int * 0x100 + bytes@[1] as int,
            r.kind == bytes@[2],
            r.label_id == bytes@[3] as int * 0x100 + bytes@[4] as int,
            r.description is None,
    {
        DmxSlot {
            id: (bytes[0] as u16) * 0x100 + (bytes[1] as u16),
            kind: bytes[2],
            label_id: (bytes[3] as u16) * 0x100 + (bytes[4] as u16),
            description: None,
        }
    }
}

/// The slots that a list of slot info entries describes, by offset; a later entry for an offset
/// replaces an earlier one.
pub open spec fn spec_slot_map(infos: Seq<SlotInfo>) -> Map<u16, DmxSlot>
    decreases infos.len(),
{
    if infos.len() == 0 {
        Map::empty()
    } else {
        spec_slot_map(infos.drop_last()).insert(
            infos.last().id,
            DmxSlot::spec_from_slot_info(infos.last()),
        )
    }
}

/// The parameters of a list that are not manufacturer specific, in their order.
pub open spec fn spec_standard_parameters(ids: Seq<ParameterId>) -> Seq<ParameterId> {
    ids.filter(|p: ParameterId| !spec_is_manufacturer_specific(p))
}

/// The manufacturer specific parameters of a list, by identifier, each with only its identifier
/// known.
pub open spec fn spec_manufacturer_specific_parameters(ids: Seq<ParameterId>) -> Map<
    u16,
    ManufacturerSpecificParameter,
>
    decreases ids.len(),
{
    if ids.len() == 0 {
        Map::empty()
    } else if spec_is_manufacturer_specific(ids.last()) {
        spec_manufacturer_specific_parameters(ids.drop_last()).insert(
            ids.last().spec_to_u16(),
            ManufacturerSpecificParameter::spec_new(ids.last().spec_to_u16()),
        )
    } else {
        spec_manufacturer_specific_parameters(ids.drop_last())
    }
}

/// What a controller knows of a responder, or of one of its sub-devices.
#[derive(Debug)]
pub struct Device {
    pub uid: DeviceUID,
    pub protocol_version: Option<ProtocolVersion>,
    pub model_id: Option<u16>,
    pub model_description: Option<String>,
    pub product_category: Option<ProductCategory>,
    pub software_version_id: Option<u32>,
    pub software_version_label: Option<String>,
    pub footprint: Option<u16>,
    pub current_personality: Option<u8>,
    pub personality_count: u8,
    pub personalities: Option<HashMap<u8, DmxPersonality>>,
    pub start_address: Option<u16>,
    pub dmx_slots: Option<HashMap<u16, DmxSlot>>,
    pub sub_device_id: u16,
    pub sub_device_count: u16,
    pub sub_devices: Option<HashMap<u16, Device>>,
    pub sensor_count: u8,
    pub sensors: Option<HashMap<u8, Sensor>>,
    pub supported_standard_parameters: Option<Vec<ParameterId>>,
    pub supported_manufacturer_specific_parameters: Option<
        HashMap<u16, ManufacturerSpecificParameter>,
    >,
    pub is_identifying: Option<bool>,
    pub manufacturer_label: Option<String>,
    pub product_detail_id_list: Option<Vec<u16>>,
    pub device_model_description: Option<String>,
    pub device_hours: Option<u32>,
    pub minimum_level_lower_limit: Option<u16>,
    pub minimum_level_upper_limit: Option<u16>,
    pub maximum_level_lower_limit: Option<u16>,
    pub maximum_level_upper_limit: Option<u16>,
    pub num_of_supported_curves: Option<u8>,
    pub levels_resolution: Option<u8>,
    pub minimum_levels_split_levels_supports: Option<bool>,
    pub minimum_level_increasing: Option<u16>,
    pub minimum_level_decreasing: Option<u16>,
    pub on_below_minimum: Option<bool>,
    pub maximum_level: Option<u16>,
    pub current_curve: Option<u8>,
    pub curve_count: u8,
    pub curves: Option<HashMap<u8, Curve>>,
    pub current_modulation_frequency: Option<u8>,
    pub modulation_frequency_count: u8,
    pub modulation_frequencies: Option<HashMap<u8, ModulationFrequency>>,
    pub current_output_response_time: Option<u8>,
    pub output_response_time_count: u8,
    pub output_response_times: Option<HashMap<u8, OutputResponseTime>>,
}

impl Device {
    /// A device of which nothing is known yet but its identity.
    pub open spec fn spec_new(uid: DeviceUID, sub_device_id: u16) -> Self {
        Device {
            uid,
            protocol_version: None,
            model_id: None,
            model_description: None,
            product_category: None,
            software_version_id: None,
            software_version_label: None,
            footprint: None,
            current_personality: None,
            personality_count: 0,
            personalities: None,
            start_address: None,
            dmx_slots: None,
            sub_device_id,
            sub_device_count: 0,
            sub_devices: None,
            sensor_count: 0,
            sensors: None,
            supported_standard_parameters: None,
            supported_manufacturer_specific_parameters: None,
            is_identifying: None,
            manufacturer_label: None,
            product_detail_id_list: None,
            device_model_description: None,
            device_hours: None,
            minimum_level_lower_limit: None,
            minimum_level_upper_limit: None,
            maximum_level_lower_limit: None,
            maximum_level_upper_limit: None,
            num_of_supported_curves: None,
            levels_resolution: None,
            minimum_levels_split_levels_supports: None,
            minimum_level_increasing: None,
            minimum_level_decreasing: None,
            on_below_minimum: None,
            maximum_level: None,
            current_curve: None,
            curve_count: 0,
            curves: None,
            current_modulation_frequency: None,
            modulation_frequency_count: 0,
            modulation_frequencies: None,
            current_output_response_time: None,
            output_response_time_count: 0,
            output_response_times: None,
        }
    }

    pub fn new(uid: DeviceUID, sub_device_id: u16) -> (r: Self)
        ensures
            r == Self::spec_new(uid, sub_device_id),
    {
        Device {
            uid,
            protocol_version: None,
            model_id: None,
            model_description: None,
            product_category: None,
            software_version_id: None,
            software_version_label: None,
            footprint: None,
            current_personality: None,
            personality_count: 0,
            personalities: None,
            start_address: None,
            dmx_slots: None,
            sub_device_id,
            sub_device_count: 0,
            sub_devices: None,
            sensor_count: 0,
            sensors: None,
            supported_standard_parameters: None,
            supported_manufacturer_specific_parameters: None,
            is_identifying: None,
            manufacturer_label: None,
            product_detail_id_list: None,
            device_model_description: None,
            device_hours: None,
            minimum_level_lower_limit: None,
            minimum_level_upper_limit: None,
            maximum_level_lower_limit: None,
            maximum_level_upper_limit: None,
            num_of_supported_curves: None,
            levels_resolution: None,
            minimum_levels_split_levels_supports: None,
            minimum_level_increasing: None,
            minimum_level_decreasing: None,
            on_below_minimum: None,
            maximum_level: None,
            current_curve: None,
            curve_count: 0,
            curves: None,
            current_modulation_frequency: None,
            modulation_frequency_count: 0,
            modulation_frequencies: None,
            current_output_response_time: None,
            output_response_time_count: 0,
            output_response_times: None,
        }
    }

    pub fn update_device_info(&mut self, data: GetDeviceInfoResponse)
        ensures
            *final(self) == (Device {
                protocol_version: Some(data.protocol_version),
                model_id: Some(data.device_model_id),
                product_category: Some(data.product_category),
                software_version_id: Some(data.software_version_id),
                footprint: Some(data.dmx512_footprint),
                current_personality: Some(data.current_personality),
                personality_count: data.personality_count,
                start_address: Some(data.dmx512_start_address),
                sub_device_count: data.sub_device_count,
                sensor_count: data.sensor_count,
                ..*old(self)
            }),
    {
        self.protocol_version = Some(data.protocol_version);
        self.model_id = Some(data.device_model_id);
        self.product_category = Some(data.product_category);
        self.software_version_id = Some(data.software_version_id);
        self.footprint = Some(data.dmx512_footprint);
        self.current_personality = Some(data.current_personality);
        self.personality_count = data.personality_count;
        self.start_address = Some(data.dmx512_start_address);
        self.sub_device_count = data.sub_device_count;
        self.sensor_count = data.sensor_count;
    }

    pub fn update_software_version_label(&mut self, data: GetSoftwareVersionLabelResponse)
        ensures
            *final(self) == (Device { software_version_label: final(self).software_version_label, ..*old(self) }),
            final(self).software_version_label matches Some(s)
                && spec_text_of(s, data.software_version_label.spec_bytes()),
    {
        self.software_version_label = Some(data.software_version_label.as_str().to_owned());
    }

    pub fn update_supported_parameters(&mut self, data: GetSupportedParametersResponse)
        ensures
            *final(self) == (Device {
                supported_standard_parameters: final(self).supported_standard_parameters,
                supported_manufacturer_specific_parameters: final(self).supported_manufacturer_specific_parameters,
                ..*old(self)
            }),
            final(self).supported_standard_parameters matches Some(v)
                && v@ == spec_standard_parameters(data.supported_parameters.spec_items()),
            final(self).supported_manufacturer_specific_parameters matches Some(m)
                && m@ == spec_manufacturer_specific_parameters(data.supported_parameters.spec_items()),
    {
        let ids = data.supported_parameters.as_slice();
        let mut standard: Vec<ParameterId> = Vec::new();
        let mut specific: HashMap<u16, ManufacturerSpecificParameter> = HashMap::new();
        let mut i: usize = 0;
        while i < ids.len()
            invariant
                i <= ids@.len(),
                standard@ == spec_standard_parameters(ids@.subrange(0, i as int)),
                specific@ == spec_manufacturer_specific_parameters(ids@.subrange(0, i as int)),
            decreases ids@.len() - i,
        {
            let id = ids[i];
            proof {
                let next = ids@.subrange(0, i + 1);
                assert(next.drop_last() =~= ids@.subrange(0, i as int));
                assert(next.last() == id);
                reveal(Seq::filter);
            }
            if is_manufacturer_specific(id) {
                let raw = id.to_u16();
                specific.insert(raw, ManufacturerSpecificParameter::from(raw));
            } else {
                standard.push(id);
            }
            i = i + 1;
        }
        proof {
            assert(ids@.subrange(0, ids@.len() as int) =~= ids@);
        }
        self.supported_standard_parameters = Some(standard);
        self.supported_manufacturer_specific_parameters = Some(specific);
    }

    pub fn update_identify_device(&mut self, data: GetIdentifyDeviceResponse)
        ensures
            *final(self) == (Device { is_identifying: Some(data.identify), ..*old(self) }),
    {
        self.is_identifying = Some(data.identify);
    }

    /// Fills in what a parameter description says of a manufacturer specific parameter that the
    /// device is known to support; a description of any other parameter changes nothing.
    pub fn update_parameter_description(&mut self, data: GetParameterDescriptionResponse)
        ensures
            *final(self) == (Device {
                supported_manufacturer_specific_parameters: final(self).supported_manufacturer_specific_parameters,
                ..*old(self)
            }),
            match old(self).supported_manufacturer_specific_parameters {
                None => final(self).supported_manufacturer_specific_parameters is None,
                Some(old_map) => {
                    let key = data.parameter_id.spec_to_u16();
                    final(self).supported_manufacturer_specific_parameters matches Some(m) && if old_map@.contains_key(key) {
                        &&& m@ == old_map@.insert(key, m@[key])
                        &&& m@[key].spec_described(old_map@[key], data)
                    } else {
                        m@ == old_map@
                    }
                },
            },
    {
        let key = data.parameter_id.to_u16();
        let mut parameters: Option<HashMap<u16, ManufacturerSpecificParameter>> = None;
        std::mem::swap(&mut parameters, &mut self.supported_manufacturer_specific_parameters);
        match parameters {
            None => {},
            Some(mut map) => {
                let ghost old_map = map@;
                match map.remove(&key) {
                    None => {},
                    Some(mut parameter) => {
                        parameter.parameter_data_size = Some(data.parameter_data_length);
                        parameter.data_type = Some(data.data_type.to_u8());
                        parameter.command_class = Some(SupportedCommandClass::from_implemented(data.command_class));
                        parameter.prefix = Some(data.prefix.to_u8());
                        parameter.minimum_valid_value = Some(u32_from_be_bytes(data.raw_minimum_valid_value));
                        parameter.maximum_valid_value = Some(u32_from_be_bytes(data.raw_maximum_valid_value));
                        parameter.default_value = Some(u32_from_be_bytes(data.raw_default_value));
                        parameter.description = Some(data.description.as_str().to_owned());
                        map.insert(key, parameter);
                        proof {
                            assert(map@ =~= old_map.insert(key, map@[key]));
                        }
                    },
                }
                self.supported_manufacturer_specific_parameters = Some(map);
            },
        }
    }

    pub fn update_manufacturer_label(&mut self, data: GetManufacturerLabelResponse)
        ensures
            *final(self) == (Device { manufacturer_label: final(self).manufacturer_label, ..*old(self) }),
            final(self).manufacturer_label matches Some(s)
                && spec_text_of(s, data.manufacturer_label.spec_bytes()),
    {
        self.manufacturer_label = Some(data.manufacturer_label.as_str().to_owned());
    }

    pub fn update_product_detail_id_list(&mut self, data: GetProductDetailIdListResponse)
        ensures
            *final(self) == (Device { product_detail_id_list: final(self).product_detail_id_list, ..*old(self) }),
            final(self).product_detail_id_list matches Some(v)
                && v@ == data.product_detail_ids.spec_items().map_values(|d: ProductDetail| d.spec_to_u16()),
    {
        let details = data.product_detail_ids.as_slice();
        let mut ids: Vec<u16> = Vec::new();
        let mut i: usize = 0;
        while i < details.len()
            invariant
                i <= details@.len(),
                ids@ == details@.subrange(0, i as int).map_values(|d: ProductDetail| d.spec_to_u16()),
            decreases details@.len() - i,
        {
            ids.push(details[i].to_u16());
            proof {
                assert(ids@ =~= details@.subrange(0, i + 1).map_values(|d: ProductDetail| d.spec_to_u16()));
            }
            i = i + 1;
        }
        proof {
            assert(details@.subrange(0, details@.len() as int) =~= details@);
        }
        self.product_detail_id_list = Some(ids);
    }

    pub fn update_device_model_description(&mut self, data: GetDeviceModelDescriptionResponse)
        ensures
            *final(self) == (Device { device_model_description: final(self).device_model_description, ..*old(self) }),
            final(self).device_model_description matches Some(s)
                && spec_text_of(s, data.device_model_description.spec_bytes()),
    {
        self.device_model_description = Some(data.device_model_description.as_str().to_owned());
    }

    pub fn update_dmx_personality_info(&mut self, data: GetDmxPersonalityResponse)
        ensures
            *final(self) == (Device {
                current_personality: Some(data.current_personality),
                personality_count: data.personality_count,
                ..*old(self)
            }),
    {
        self.current_personality = Some(data.current_personality);
        self.personality_count = data.personality_count;
    }

    /// Records a personality, in place of any earlier one with its number.
    pub fn update_dmx_personality_description(&mut self, data: GetDmxPersonalityDescriptionResponse)
        ensures
            *final(self) == (Device { personalities: final(self).personalities, ..*old(self) }),
            final(self).personalities matches Some(m) && {
                &&& m@ == spec_entries(old(self).personalities).insert(data.id, m@[data.id])
                &&& m@[data.id].id == data.id
                &&& m@[data.id].dmx_slots_required == data.dmx_slots_required
                &&& spec_text_of(m@[data.id].description, data.description.spec_bytes())
            },
    {
        let personality = DmxPersonality {
            id: data.id,
            dmx_slots_required: data.dmx_slots_required,
            description: data.description.as_str().to_owned(),
        };
        let mut personalities: Option<HashMap<u8, DmxPersonality>> = None;
        std::mem::swap(&mut personalities, &mut self.personalities);
        let mut map = match personalities {
            Some(map) => map,
            None => HashMap::new(),
        };
        map.insert(data.id, personality);
        self.personalities = Some(map);
    }

    /// Records the slots that a slot info response lists, in place of all that were known.
    pub fn update_slot_info(&mut self, data: GetSlotInfoResponse)
        ensures
            *final(self) == (Device { dmx_slots: final(self).dmx_slots, ..*old(self) }),
            final(self).dmx_slots matches Some(m) && m@ == spec_slot_map(data.slot_info.spec_items()),
    {
        let infos = data.slot_info.as_slice();
        let mut slots: HashMap<u16, DmxSlot> = HashMap::new();
        let mut i: usize = 0;
        while i < infos.len()
            invariant
                i <= infos@.len(),
                slots@ == spec_slot_map(infos@.subrange(0, i as int)),
            decreases infos@.len() - i,
        {
            let slot = DmxSlot::from_slot_info(&infos[i]);
            proof {
                let next = infos@.subrange(0, i + 1);
                assert(next.drop_last() =~= infos@.subrange(0, i as int));
                assert(next.last() == infos@[i as int]);
            }
            slots.insert(slot.id, slot);
            i = i + 1;
        }
        proof {
            assert(infos@.subrange(0, infos@.len() as int) =~= infos@);
        }
        self.dmx_slots = Some(slots);
    }

    pub fn update_device_hours(&mut self, data: GetDeviceHoursResponse)
        ensures
            *final(self) == (Device { device_hours: Some(data.device_hours), ..*old(self) }),
    {
        self.device_hours = Some(data.device_hours);
    }

    pub fn update_dimmer_info(&mut self, data: GetDimmerInfoResponse)
        ensures
            *final(self) == (Device {
                minimum_level_lower_limit: Some(data.minimum_level_lower_limit),
                minimum_level_upper_limit: Some(data.minimum_level_upper_limit),
                maximum_level_lower_limit: Some(data.maximum_level_lower_limit),
                maximum_level_upper_limit: Some(data.maximum_level_upper_limit),
                num_of_supported_curves: Some(data.number_of_supported_curves),
                levels_resolution: Some(data.levels_resolution),
                minimum_levels_split_levels_supports: Some(data.minimum_level_split_levels_supported),
                ..*old(self)
            }),
    {
        self.minimum_level_lower_limit = Some(data.minimum_level_lower_limit);
        self.minimum_level_upper_limit = Some(data.minimum_level_upper_limit);
        self.maximum_level_lower_limit = Some(data.maximum_level_lower_limit);
        self.maximum_level_upper_limit = Some(data.maximum_level_upper_limit);
        self.num_of_supported_curves = Some(data.number_of_supported_curves);
        self.levels_resolution = Some(data.levels_resolution);
        self.minimum_levels_split_levels_supports = Some(data.minimum_level_split_levels_supported);
    }

    pub fn update_minimum_level(&mut self, data: GetMinimumLevelResponse)
        ensures
            *final(self) == (Device {
                minimum_level_increasing: Some(data.minimum_level_increasing),
                minimum_level_decreasing: Some(data.minimum_level_decreasing),
                on_below_minimum: Some(data.on_below_minimum),
                ..*old(self)
            }),
    {
        self.minimum_level_increasing = Some(data.minimum_level_increasing);
        self.minimum_level_decreasing = Some(data.minimum_level_decreasing);
        self.on_below_minimum = Some(data.on_below_minimum);
    }

    pub fn update_maximum_level(&mut self, data: GetMaximumLevelResponse)
        ensures
            *final(self) == (Device { maximum_level: Some(data.maximum_level), ..*old(self) }),
    {
        self.maximum_level = Some(data.maximum_level);
    }

    pub fn update_curve_info(&mut self, data: GetCurveResponse)
        ensures
            *final(self) == (Device {
                current_curve: Some(data.curve_id),
                curve_count: data.curve_count,
                ..*old(self)
            }),
    {
        self.current_curve = Some(data.curve_id);
        self.curve_count = data.curve_count;
    }

    /// Records a curve, in place of any earlier one with its number.
    pub fn update_curve_description(&mut self, data: GetCurveDescriptionResponse)
        ensures
            *final(self) == (Device { curves: final(self).curves, ..*old(self) }),
            final(self).curves matches Some(m) && {
                &&& m@ == spec_entries(old(self).curves).insert(data.curve_id, m@[data.curve_id])
                &&& m@[data.curve_id].id == data.curve_id
                &&& spec_text_of(m@[data.curve_id].description, data.description.spec_bytes())
            },
    {
        let curve = Curve { id: data.curve_id, description: data.description.as_str().to_owned() };
        let mut curves: Option<HashMap<u8, Curve>> = None;
        std::mem::swap(&mut curves, &mut self.curves);
        let mut map = match curves {
            Some(map) => map,
            None => HashMap::new(),
        };
        map.insert(data.curve_id, curve);
        self.curves = Some(map);
    }

    pub fn update_modulation_frequency_info(&mut self, data: GetModulationFrequencyResponse)
        ensures
            *final(self) == (Device {
                current_modulation_frequency: Some(data.modulation_frequency_id),
                modulation_frequency_count: data.modulation_frequency_count,
                ..*old(self)
            }),
    {
        self.current_modulation_frequency = Some(data.modulation_frequency_id);
        self.modulation_frequency_count = data.modulation_frequency_count;
    }

    /// Records a modulation frequency, in place of any earlier one with its number.
    pub fn update_modulation_frequency_description(
        &mut self,
        data: GetModulationFrequencyDescriptionResponse,
    )
        ensures
            *final(self) == (Device { modulation_frequencies: final(self).modulation_frequencies, ..*old(self) }),
            final(self).modulation_frequencies matches Some(m) && {
                let id = data.modulation_frequency_id;
                &&& m@ == spec_entries(old(self).modulation_frequencies).insert(id, m@[id])
                &&& m@[id].id == id
                &&& m@[id].frequency == data.frequency
                &&& spec_text_of(m@[id].description, data.description.spec_bytes())
            },
    {
        let frequency = ModulationFrequency {
            id: data.modulation_frequency_id,
            frequency: data.frequency,
            description: data.description.as_str().to_owned(),
        };
        let mut frequencies: Option<HashMap<u8, ModulationFrequency>> = None;
        std::mem::swap(&mut frequencies, &mut self.modulation_frequencies);
        let mut map = match frequencies {
            Some(map) => map,
            None => HashMap::new(),
        };
        map.insert(data.modulation_frequency_id, frequency);
        self.modulation_frequencies = Some(map);
    }

    pub fn update_output_response_time_info(&mut self, data: GetOutputResponseTimeResponse)
        ensures
            *final(self) == (Device {
                current_output_response_time: Some(data.response_time_id),
                output_response_time_count: data.response_time_count,
                ..*old(self)
            }),
    {
        self.current_output_response_time = Some(data.response_time_id);
        self.output_response_time_count = data.response_time_count;
    }

    /// Records an output response time, in place of any earlier one with its number.
    pub fn update_output_response_time_description(
        &mut self,
        data: GetOutputResponseTimeDescriptionResponse,
    )
        ensures
            *final(self) == (Device { output_response_times: final(self).output_response_times, ..*old(self) }),
            final(self).output_response_times matches Some(m) && {
                let id = data.response_time_id;
                &&& m@ == spec_entries(old(self).output_response_times).insert(id, m@[id])
                &&& m@[id].id == id
                &&& spec_text_of(m@[id].description, data.description.spec_bytes())
            },
    {
        let time = OutputResponseTime {
            id: data.response_time_id,
            description: data.description.as_str().to_owned(),
        };
        let mut times: Option<HashMap<u8, OutputResponseTime>> = None;
        std::mem::swap(&mut times, &mut self.output_response_times);
        let mut map = match times {
            Some(map) => map,
            None => HashMap::new(),
        };
        map.insert(data.response_time_id, time);
        self.output_response_times = Some(map);
    }
}

impl From<DeviceUID> for Device {
    fn from(uid: DeviceUID) -> (r: Self) {
        Device::new(uid, 0)
    }
}

impl FromSpecImpl<DeviceUID> for Device {
    open spec fn obeys_from_spec() -> bool {
        true
    }

    open spec fn from_spec(uid: DeviceUID) -> Self {
        Device::spec_new(uid, 0)
    }
}


/// The big endian value of four bytes.
pub open spec fn be32_value(b: [u8; 4]) -> u32 {
    (b[0] as int * 0x100_0000 + b[1] as int * 0x1_0000 + b[2] as int * 0x100 + b[3] as int) as u32
}

/// What a parameter description records of a manufacturer specific parameter: its data length;
/// the byte codes of its data type and prefix; the command class that the description announces,
/// with the same byte code; its minimum, maximum and default values, each read big endian from
/// its four bytes; and its description. The identifier stays as it was.
pub proof fn lemma_described_fields(
    p: ManufacturerSpecificParameter,
    old: ManufacturerSpecificParameter,
    data: GetParameterDescriptionResponse,
)
    requires
        p.spec_described(old, data),
    ensures
        p.parameter_id == old.parameter_id,
        p.parameter_data_size == Some(data.parameter_data_length),
        p.data_type == Some(data.data_type.spec_to_u8()),
        p.prefix == Some(data.prefix.spec_to_u8()),
        p.command_class matches Some(c) && SupportedCommandClass::spec_try_from_u8(data.command_class.spec_to_u8())
            == Ok::<SupportedCommandClass, SupportedCommandClassError>(c),
        p.minimum_valid_value == Some(be32_value(data.raw_minimum_valid_value)),
        p.maximum_valid_value == Some(be32_value(data.raw_maximum_valid_value)),
        p.default_value == Some(be32_value(data.raw_default_value)),
        p.description matches Some(t) && spec_text_of(t, data.description.spec_bytes()),
{
    SupportedCommandClass::lemma_from_implemented_keeps_code(data.command_class);
}

/// The slot recorded for an offset is what the last slot info entry for that offset says: the
/// offset, the byte code of the slot type and the label, with no description yet.
pub proof fn lemma_slot_map_entry(infos: Seq<SlotInfo>, i: int)
    requires
        0 <= i < infos.len(),
        forall|j: int| i < j < infos.len() ==> #[trigger] infos[j].id != infos[i].id,
    ensures
        spec_slot_map(infos).contains_key(infos[i].id),
        spec_slot_map(infos)[infos[i].id] == (DmxSlot {
            id: infos[i].id,
            kind: infos[i].kind.spec_to_u8(),
            label_id: infos[i].label_id,
            description: None,
        }),
    decreases infos.len(),
{
    if i < infos.len() - 1 {
        let init = infos.drop_last();
        assert forall|j: int| i < j < init.len() implies #[trigger] init[j].id != init[i].id by {
            assert(init[j] == infos[j]);
        }
        lemma_slot_map_entry(init, i);
        assert(infos.last() == infos[infos.len() - 1]);
    }
}

/// Slots are recorded for exactly the offsets that the slot info entries name.
pub proof fn lemma_slot_map_offsets(infos: Seq<SlotInfo>, offset: u16)
    ensures
        spec_slot_map(infos).contains_key(offset) <==> exists|j: int| 0 <= j < infos.len() && #[trigger] infos[j].id == offset,
    decreases infos.len(),
{
    if infos.len() > 0 {
        let init = infos.drop_last();
        lemma_slot_map_offsets(init, offset);
        if spec_slot_map(infos).contains_key(offset) {
            if infos.last().id == offset {
                assert(infos[infos.len() - 1].id == offset);
            } else {
                let j = choose|j: int| 0 <= j < init.len() && #[trigger] init[j].id == offset;
                assert(infos[j].id == offset);
            }
        }
        if exists|j: int| 0 <= j < infos.len() && #[trigger] infos[j].id == offset {
            let j = choose|j: int| 0 <= j < infos.len() && #[trigger] infos[j].id == offset;
            if j < init.len() {
                assert(init[j].id == offset);
            }
        }
    }
}

/// The manufacturer specific parameters recorded from a list of supported parameters are exactly
/// the identifiers of the list from 0x8000 to 0xffdf, each with only its identifier known.
pub proof fn lemma_manufacturer_specific_entries(ids: Seq<ParameterId>, code: u16)
    ensures
        spec_manufacturer_specific_parameters(ids).contains_key(code) <==> (0x8000 <= code <= 0xffdf
            && exists|j: int| 0 <= j < ids.len() && #[trigger] ids[j] == ParameterId::Custom(code)),
        spec_manufacturer_specific_parameters(ids).contains_key(code) ==> spec_manufacturer_specific_parameters(ids)[code]
            == (ManufacturerSpecificParameter {
                parameter_id: code,
                parameter_data_size: None,
                data_type: None,
                command_class: None,
                prefix: None,
                minimum_valid_value: None,
                maximum_valid_value: None,
                default_value: None,
                description: None,
            }),
    decreases ids.len(),
{
    if ids.len() > 0 {
        let init = ids.drop_last();
        lemma_manufacturer_specific_entries(init, code);
        let last = ids.last();
        if spec_manufacturer_specific_parameters(ids).contains_key(code) {
            if spec_is_manufacturer_specific(last) && last.spec_to_u16() == code {
                assert(ids[ids.len() - 1] == ParameterId::Custom(code));
            } else {
                let j = choose|j: int| 0 <= j < init.len() && #[trigger] init[j] == ParameterId::Custom(code);
                assert(ids[j] == ParameterId::Custom(code));
            }
        }
        if 0x8000 <= code <= 0xffdf && exists|j: int| 0 <= j < ids.len() && #[trigger] ids[j] == ParameterId::Custom(code) {
            let j = choose|j: int| 0 <= j < ids.len() && #[trigger] ids[j] == ParameterId::Custom(code);
            if j < init.len() {
                assert(init[j] == ParameterId::Custom(code));
            }
        }
    }
}

} // verus!
