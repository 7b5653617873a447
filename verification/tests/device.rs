use rdm_rs::rdm::common::DeviceUID;
use rdm_rs::rdm::device::{Device, ManufacturerSpecificParameter, SupportedCommandClass, SupportedCommandClassError, DmxSlot};
use rdm_rs::rdm::parameter::e120::response::{
    GetDeviceInfoResponse, GetDmxPersonalityDescriptionResponse, GetParameterDescriptionResponse,
    GetProductDetailIdListResponse, GetSlotInfoResponse, GetSoftwareVersionLabelResponse,
    GetSupportedParametersResponse,
};
use rdm_rs::rdm::parameter::e120::{
    DmxPersonalityDescription, ImplementedCommandClass, ParameterDataType,
    ParameterDescriptionLabel, ProductCategory, ProductDetail, ProtocolVersion, SensorUnit,
    SensorUnitPrefix, SlotInfo, SlotType, SoftwareVersionLabel,
};
use rdm_rs::rdm::parameter::e137_1::response::{GetCurveDescriptionResponse, GetDimmerInfoResponse};
use rdm_rs::rdm::parameter::e137_1::CurveDescription;
use rdm_rs::rdm::parameter::lists::{ParameterIdList, ProductDetailList, SlotInfoList};
use rdm_rs::rdm::parameter::ParameterId;

fn device() -> Device {
    Device::new(DeviceUID::new(0x7a70, 0x12345678), 0)
}

#[test]
fn new_device_knows_only_its_identity() {
    let d = device();
    assert_eq!(d.uid, DeviceUID::new(0x7a70, 0x12345678));
    assert_eq!(d.sub_device_id, 0);
    assert!(d.protocol_version.is_none());
    assert!(d.personalities.is_none());
    assert_eq!(d.personality_count, 0);
    let from_uid = Device::from(DeviceUID::new(1, 2));
    assert_eq!(from_uid.uid, DeviceUID::new(1, 2));
    assert_eq!(from_uid.sub_device_id, 0);
}

#[test]
fn device_info_fills_its_fields() {
    let mut d = device();
    d.update_device_info(GetDeviceInfoResponse {
        protocol_version: ProtocolVersion::new(1, 0),
        device_model_id: 0x0102,
        product_category: ProductCategory::Fixture,
        software_version_id: 0x01020304,
        dmx512_footprint: 12,
        current_personality: 1,
        personality_count: 3,
        dmx512_start_address: 100,
        sub_device_count: 0,
        sensor_count: 2,
    });
    assert_eq!(d.protocol_version, Some(ProtocolVersion::new(1, 0)));
    assert_eq!(d.model_id, Some(0x0102));
    assert_eq!(d.product_category, Some(ProductCategory::Fixture));
    assert_eq!(d.software_version_id, Some(0x01020304));
    assert_eq!(d.footprint, Some(12));
    assert_eq!(d.current_personality, Some(1));
    assert_eq!(d.personality_count, 3);
    assert_eq!(d.start_address, Some(100));
    assert_eq!(d.sensor_count, 2);
    assert!(d.software_version_label.is_none());
}

#[test]
fn labels_are_kept_as_text() {
    let mut d = device();
    d.update_software_version_label(GetSoftwareVersionLabelResponse {
        software_version_label: SoftwareVersionLabel::new("v1.2.3").unwrap(),
    });
    assert_eq!(d.software_version_label.as_deref(), Some("v1.2.3"));
}

#[test]
fn personalities_are_recorded_by_number() {
    let mut d = device();
    d.update_dmx_personality_description(GetDmxPersonalityDescriptionResponse {
        id: 1,
        dmx_slots_required: 4,
        description: DmxPersonalityDescription::new("RGBW").unwrap(),
    });
    d.update_dmx_personality_description(GetDmxPersonalityDescriptionResponse {
        id: 2,
        dmx_slots_required: 1,
        description: DmxPersonalityDescription::new("Dimmer").unwrap(),
    });
    d.update_dmx_personality_description(GetDmxPersonalityDescriptionResponse {
        id: 1,
        dmx_slots_required: 5,
        description: DmxPersonalityDescription::new("RGBWA").unwrap(),
    });
    let p = d.personalities.as_ref().unwrap();
    assert_eq!(p.len(), 2);
    assert_eq!(p[&1].dmx_slots_required, 5);
    assert_eq!(p[&1].description, "RGBWA");
    assert_eq!(p[&2].description, "Dimmer");
}

#[test]
fn curves_are_recorded_by_number() {
    let mut d = device();
    d.update_curve_description(GetCurveDescriptionResponse {
        curve_id: 3,
        description: CurveDescription::new("Square law").unwrap(),
    });
    assert_eq!(d.curves.as_ref().unwrap()[&3].description, "Square law");
    d.update_dimmer_info(GetDimmerInfoResponse {
        minimum_level_lower_limit: 1,
        minimum_level_upper_limit: 2,
        maximum_level_lower_limit: 3,
        maximum_level_upper_limit: 4,
        number_of_supported_curves: 5,
        levels_resolution: 8,
        minimum_level_split_levels_supported: true,
    });
    assert_eq!(d.num_of_supported_curves, Some(5));
    assert_eq!(d.minimum_levels_split_levels_supports, Some(true));
    assert_eq!(d.curves.as_ref().unwrap().len(), 1);
}

#[test]
fn slot_info_replaces_the_known_slots() {
    let mut d = device();
    d.update_slot_info(GetSlotInfoResponse {
        slot_info: SlotInfoList::from_slice(&[
            SlotInfo::new(0, SlotType::Primary, 0x0001),
            SlotInfo::new(1, SlotType::SecondaryFine, 0x0000),
        ])
        .unwrap(),
    });
    let slots = d.dmx_slots.as_ref().unwrap();
    assert_eq!(slots.len(), 2);
    assert_eq!(slots[&0].label_id, 0x0001);
    assert_eq!(slots[&1].kind, 0x01);
    let from_bytes = DmxSlot::from_bytes(&[0x00, 0x02, 0x01, 0x00, 0x03]);
    assert_eq!(from_bytes.id, 2);
    assert_eq!(from_bytes.kind, 1);
    assert_eq!(from_bytes.label_id, 3);
}

#[test]
fn supported_parameters_are_split_by_range() {
    let mut d = device();
    d.update_supported_parameters(GetSupportedParametersResponse {
        supported_parameters: ParameterIdList::from_slice(&[
            ParameterId::DeviceLabel,
            ParameterId::Custom(0x8001),
            ParameterId::IdentifyDevice,
            ParameterId::Custom(0x8002),
        ])
        .unwrap(),
    });
    assert_eq!(
        d.supported_standard_parameters,
        Some(vec![ParameterId::DeviceLabel, ParameterId::IdentifyDevice])
    );
    let specific = d.supported_manufacturer_specific_parameters.as_ref().unwrap();
    assert_eq!(specific.len(), 2);
    assert_eq!(specific[&0x8001].parameter_id, 0x8001);
    assert!(specific[&0x8002].description.is_none());

    d.update_parameter_description(GetParameterDescriptionResponse {
        parameter_id: ParameterId::Custom(0x8001),
        parameter_data_length: 2,
        data_type: ParameterDataType::UnsignedWord,
        command_class: ImplementedCommandClass::GetSet,
        unit_type: SensorUnit::NoUnit,
        prefix: SensorUnitPrefix::NoPrefix,
        raw_minimum_valid_value: [0, 0, 0, 1],
        raw_maximum_valid_value: [0, 0, 0x01, 0x00],
        raw_default_value: [0, 0, 0, 0x10],
        description: ParameterDescriptionLabel::new("Fan speed").unwrap(),
    });
    let p = &d.supported_manufacturer_specific_parameters.as_ref().unwrap()[&0x8001];
    assert_eq!(p.parameter_data_size, Some(2));
    assert_eq!(p.command_class, Some(SupportedCommandClass::GetSet));
    assert_eq!(p.minimum_valid_value, Some(1));
    assert_eq!(p.maximum_valid_value, Some(256));
    assert_eq!(p.default_value, Some(16));
    assert_eq!(p.description.as_deref(), Some("Fan speed"));
    let other = &d.supported_manufacturer_specific_parameters.as_ref().unwrap()[&0x8002];
    assert!(other.description.is_none());
}

#[test]
fn product_details_are_kept_as_numbers() {
    let mut d = device();
    d.update_product_detail_id_list(GetProductDetailIdListResponse {
        product_detail_ids: ProductDetailList::from_slice(&[ProductDetail::Arc, ProductDetail::NotDeclared])
            .unwrap(),
    });
    assert_eq!(d.product_detail_id_list, Some(vec![0x0001, 0x0000]));
}

#[test]
fn supported_command_class_from_byte() {
    assert_eq!(SupportedCommandClass::try_from(0x03), Ok(SupportedCommandClass::GetSet));
    assert_eq!(
        SupportedCommandClass::try_from(0x04),
        Err(SupportedCommandClassError::InvalidCommandClass(0x04))
    );
    let p = ManufacturerSpecificParameter::from(0x8100);
    assert_eq!(p.parameter_id, 0x8100);
    assert!(p.data_type.is_none());
}
