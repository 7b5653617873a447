use rdm_rs::rdm::common::{CommandClass, DeviceUID, SubDeviceId};
use rdm_rs::rdm::request::RequestParameter;
use rdm_rs::rdm::error::RdmError;
use rdm_rs::rdm::parameter::e120::response::GetParameterDescriptionResponse;
use rdm_rs::rdm::parameter::e120::{
    ConvertedParameterValue, ImplementedCommandClass, Iso639_1, LanguageCapabilitiesIter, ParameterDataType,
    ParameterDescriptionLabel, PowerState, SensorUnit, SensorUnitPrefix, SlotIdDefinition,
    StatusMessage, StatusType,
};
use rdm_rs::rdm::parameter::ParameterId;

#[test]
fn device_uid_and_u64_convert_both_ways() {
    let uid = DeviceUID::from(0x0102_0304_0506u64);
    assert_eq!(uid, DeviceUID::new(0x0102, 0x03040506));
    assert_eq!(u64::from(uid), 0x0102_0304_0506u64);
    assert_eq!(u64::from(DeviceUID::broadcast_all_devices()), 0xffff_ffff_ffffu64);
    // the bits above the 48 of a UID are dropped
    assert_eq!(DeviceUID::from(0xabcd_0102_0304_0506u64), DeviceUID::new(0x0102, 0x03040506));
}

#[test]
fn sub_device_ids_convert_both_ways() {
    assert_eq!(SubDeviceId::from(0x0000), SubDeviceId::RootDevice);
    assert_eq!(SubDeviceId::from(0xffff), SubDeviceId::AllCall);
    assert_eq!(SubDeviceId::from(0x0010), SubDeviceId::Id(0x0010));
    assert_eq!(u16::from(SubDeviceId::Id(0x0010)), 0x0010);
    assert_eq!(u16::from(SubDeviceId::AllCall), 0xffff);
}

#[test]
fn parameter_ids_convert_both_ways() {
    assert_eq!(ParameterId::from(0x1000), ParameterId::IdentifyDevice);
    assert_eq!(u16::from(ParameterId::IdentifyDevice), 0x1000);
    assert_eq!(ParameterId::from(0x8080), ParameterId::Custom(0x8080));
    assert_eq!(u16::from(ParameterId::Custom(0x8080)), 0x8080);
    assert_eq!(ParameterId::from(0x0800), ParameterId::ComponentScope);
    assert_eq!(ParameterId::from(0x0803), ParameterId::BrokerStatus);
    assert_eq!(u16::from(ParameterId::SearchDomain), 0x0801);
    assert_eq!(ParameterId::from(0x8000), ParameterId::Custom(0x8000));
    for n in [0x0800u16, 0x0801, 0x0802, 0x0803, 0x8000, 0x8003, 0x0060, 0xffff] {
        assert_eq!(u16::from(ParameterId::from(n)), n);
    }
}

#[test]
fn language_code_of_a_string_is_that_string() {
    for s in ["en", "de", "zz", "english", ""] {
        assert_eq!(Iso639_1::from_str(s).as_str(), s);
    }
}

#[test]
fn labels_hold_the_text_they_are_made_of() {
    let s = "0123456789abcdef0123456789abcdef";
    let l = rdm_rs::rdm::parameter::e120::DeviceLabel::new(s).unwrap();
    assert_eq!(l.as_str(), s);
    assert_eq!(l.len(), 32);
    let d = ParameterDescriptionLabel::new("Fan speed").unwrap();
    assert_eq!(d.as_str(), "Fan speed");
    assert!(!d.is_empty());
    let mut buf = [0xffu8; 32];
    let hi = rdm_rs::rdm::parameter::e120::DeviceLabel::new("Hi").unwrap();
    assert_eq!(hi.encode_parameter_data(&mut buf), Ok(2));
    assert_eq!(&buf[..2], b"Hi");
    assert_eq!(&buf[2..], &[0xffu8; 30]);
    let mut buf = [0xffu8; 32];
    assert_eq!(hi.encode(&mut buf), Ok(2));
    assert_eq!(&buf[..2], b"Hi");
    assert_eq!(&buf[2..], &[0xffu8; 30]);
    let mut short = [0u8; 31];
    assert_eq!(hi.encode(&mut short), Err(RdmError::InvalidBufferLength(31, 32)));
    assert_eq!(short, [0u8; 31]);
    let decoded = rdm_rs::rdm::parameter::e120::DeviceLabel::decode(b"Hi\0xyz").unwrap();
    assert_eq!(decoded.as_str(), "Hi");
}

#[test]
fn command_class_from_byte() {
    assert_eq!(CommandClass::try_from(0x21), Ok(CommandClass::GetCommandResponse));
    assert_eq!(CommandClass::try_from(0x22), Err(RdmError::InvalidCommandClass(0x22)));
    assert_eq!(u8::from(CommandClass::SetCommand), 0x30);
}

#[test]
fn power_state_normal_is_ff_both_ways() {
    assert_eq!(PowerState::try_from(0xff), Ok(PowerState::Normal));
    assert_eq!(u8::from(PowerState::Normal), 0xff);
    assert_eq!(PowerState::try_from(0x02), Ok(PowerState::Standby));
    assert_eq!(PowerState::try_from(0x03), Err(RdmError::InvalidPowerState(0x03)));
    assert_eq!(PowerState::try_from(0x04), Err(RdmError::InvalidPowerState(0x04)));
}

#[test]
fn language_codes_convert_both_ways() {
    let en = Iso639_1::from_str("en");
    assert_eq!(en, Iso639_1::En);
    assert_eq!(en.as_str(), "en");
    let other = Iso639_1::from_str("xx");
    assert_eq!(other, Iso639_1::Unsupported("xx"));
    assert_eq!(other.as_str(), "xx");
}

fn description(id: u16, v1: u16, v2: u16) -> Option<String> {
    StatusMessage::new(SubDeviceId::RootDevice, StatusType::Advisory, id, v1, v2)
        .description
        .map(|d| d.as_str().to_string())
}

#[test]
fn status_messages_are_described() {
    assert_eq!(description(0x0001, 0x0001, 0).as_deref(), Some("Intensity failed calibration"));
    assert_eq!(
        description(0x0001, 0x0000, 0).as_deref(),
        Some("Unknown Slot Id Definition: 0 failed calibration")
    );
    assert_eq!(description(0x0011, 7, 7).as_deref(), Some("Lamp Doused"));
    assert_eq!(
        description(0x0021, 3, 85).as_deref(),
        Some("Sensor 3 over temp at 85 degrees C")
    );
    assert_eq!(
        description(0x0022, 65535, 0).as_deref(),
        Some("Sensor 65535 under temp at 0 degrees C")
    );
    assert_eq!(description(0x0037, 12, 0).as_deref(), Some("12 Amps"));
    assert_eq!(
        description(0x0003, 0x8001, 0).as_deref(),
        Some("Manufacturer Specific: 32769 sensor always on")
    );
    assert_eq!(
        description(0x0051, 0xffe0, 0).as_deref(),
        Some("Unknown Slot Id Definition: 65504 not ready")
    );
    assert_eq!(description(0x0051, 0xffff, 0).as_deref(), Some("Undefined not ready"));
    assert_eq!(description(0x0060, 1, 2), None);
    assert_eq!(description(0x8001, 1, 2), None);
    let m = StatusMessage::new(SubDeviceId::Id(4), StatusType::Error, 0x0044, 1, 2);
    assert_eq!(m.sub_device_id, SubDeviceId::Id(4));
    assert_eq!(m.status_type, StatusType::Error);
    assert_eq!((m.status_message_id, m.data_value1, m.data_value2), (0x0044, 1, 2));
    assert_eq!(m.description.unwrap().as_str(), "Dimmer Failure");
}

#[test]
fn slot_definitions_are_named() {
    let mut out = Vec::new();
    SlotIdDefinition::ColorAddRed.write_text(&mut out);
    assert_eq!(out, b"Color Add Red".to_vec());
    let mut out = Vec::new();
    SlotIdDefinition::from(0x8123u16).write_text(&mut out);
    assert_eq!(String::from_utf8(out).unwrap(), "Manufacturer Specific: 33059");
}

fn parameter_description(data_type: ParameterDataType, value: [u8; 4]) -> GetParameterDescriptionResponse {
    GetParameterDescriptionResponse {
        parameter_id: ParameterId::Custom(0x8001),
        parameter_data_length: 4,
        data_type,
        command_class: ImplementedCommandClass::Get,
        unit_type: SensorUnit::NoUnit,
        prefix: SensorUnitPrefix::NoPrefix,
        raw_minimum_valid_value: value,
        raw_maximum_valid_value: [0xff, 0xff, 0xff, 0xfe],
        raw_default_value: [0, 0, 0, 0],
        description: ParameterDescriptionLabel::new("x").unwrap(),
    }
}

#[test]
fn parameter_values_are_read_by_their_type() {
    let v = [0x80, 0x00, 0xff, 0xfe];
    assert_eq!(
        parameter_description(ParameterDataType::BitField, v).minimum_valid_value(),
        Ok(ConvertedParameterValue::BitField(0xfe))
    );
    assert_eq!(
        parameter_description(ParameterDataType::SignedByte, v).minimum_valid_value(),
        Ok(ConvertedParameterValue::SignedByte(-2))
    );
    assert_eq!(
        parameter_description(ParameterDataType::UnsignedWord, v).minimum_valid_value(),
        Ok(ConvertedParameterValue::UnsignedWord(0xfffe))
    );
    assert_eq!(
        parameter_description(ParameterDataType::SignedWord, v).minimum_valid_value(),
        Ok(ConvertedParameterValue::SignedWord(-2))
    );
    assert_eq!(
        parameter_description(ParameterDataType::UnsignedDWord, v).minimum_valid_value(),
        Ok(ConvertedParameterValue::UnsignedDWord(0x8000fffe))
    );
    assert_eq!(
        parameter_description(ParameterDataType::SignedDWord, v).minimum_valid_value(),
        Ok(ConvertedParameterValue::SignedDWord(i32::from_be_bytes(v)))
    );
    assert_eq!(
        parameter_description(ParameterDataType::NotDefined, v).minimum_valid_value(),
        Ok(ConvertedParameterValue::Raw(v))
    );
    assert_eq!(
        parameter_description(ParameterDataType::Ascii, *b"ab\0c").minimum_valid_value(),
        Ok(ConvertedParameterValue::Ascii("ab".to_string()))
    );
    assert_eq!(
        parameter_description(ParameterDataType::Ascii, v).minimum_valid_value(),
        Err(RdmError::Utf8Error)
    );
    assert_eq!(
        parameter_description(ParameterDataType::SignedDWord, v).maximum_valid_value(),
        Ok(ConvertedParameterValue::SignedDWord(-2))
    );
    assert_eq!(
        parameter_description(ParameterDataType::UnsignedByte, v).default_value(),
        Ok(ConvertedParameterValue::UnsignedByte(0))
    );
}

#[test]
fn unmodeled_request_parameter_decodes_to_custom_data() {
    let bytes = [0x0a, 0x0b, 0x0c];
    match RequestParameter::decode(CommandClass::GetCommand, ParameterId::Custom(0x8123), &bytes).unwrap() {
        RequestParameter::CustomParameter(c) => {
            assert_eq!(c.command_class, CommandClass::GetCommand);
            assert_eq!(c.parameter_id, ParameterId::Custom(0x8123));
            assert_eq!(c.parameter_data_length, 3);
            assert_eq!(c.parameter_data.as_slice(), &bytes[..]);
        }
        other => panic!("unexpected parameter {:?}", other),
    }
}

#[test]
fn language_capabilities_are_read_two_bytes_at_a_time() {
    let bytes = b"enfrd";
    let mut it = LanguageCapabilitiesIter::new(bytes);
    assert_eq!(it.len(), 2);
    assert_eq!(it.next(), Some(Iso639_1::En));
    assert_eq!(it.next(), Some(Iso639_1::Fr));
    assert_eq!(it.next(), None);
    assert_eq!(it.next(), None);
}
