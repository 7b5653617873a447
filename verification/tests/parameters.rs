use rdm_rs::rdm::error::{ParameterDataError, RdmError};
use rdm_rs::rdm::parameter::decode_string_bytes;
use rdm_rs::rdm::parameter::e120::{DeviceLabel, ParameterDescriptionLabel};
use rdm_rs::rdm::parameter::e133::{BrokerState, Scope, SearchDomain, StaticConfigType};
use rdm_rs::rdm::parameter::e137_7::{
    DiscoveryCountStatus, DiscoveryState, EndpointEntry, EndpointId, EndpointLabel, EndpointMode,
    EndpointType,
};

#[test]
fn should_encode_decode_static_config_type() {
    let mut buf = [0u8; 1];
    let typ = StaticConfigType::StaticConfigIpv4;
    let n = typ.encode_parameter_data(&mut buf).unwrap();
    assert_eq!(n, 1);
    assert_eq!(buf[0], 0x01);
    let decoded = StaticConfigType::decode_parameter_data(&buf).unwrap();
    assert_eq!(decoded, typ);
}

#[test]
fn should_encode_decode_broker_state() {
    let mut buf = [0u8; 1];
    let state = BrokerState::Active;
    let n = state.encode_parameter_data(&mut buf).unwrap();
    assert_eq!(n, 1);
    assert_eq!(buf[0], 0x01);
    let decoded = BrokerState::decode_parameter_data(&buf).unwrap();
    assert_eq!(decoded, state);
}

#[test]
fn should_encode_decode_search_domain() {
    let sd = SearchDomain::from_str("example.com").unwrap();
    let mut buf = [0u8; SearchDomain::MAX_LENGTH];
    let n = sd.encode_parameter_data(&mut buf).unwrap();
    assert_eq!(n, sd.len());
    assert_eq!(&buf[..n], sd.as_bytes());
    let decoded = SearchDomain::decode_parameter_data(&buf).unwrap();
    assert_eq!(decoded, sd);
}

#[test]
fn should_encode_decode_scope() {
    let s = Scope::from_str("my_scope").unwrap();
    let mut buf = [0u8; Scope::MAX_LENGTH];
    let n = s.encode_parameter_data(&mut buf).unwrap();
    assert_eq!(n, s.len());
    assert_eq!(&buf[..n], s.as_bytes());
    let decoded = Scope::decode_parameter_data(&buf).unwrap();
    assert_eq!(decoded, s);
}

#[test]
fn should_encode_decode_discovery_state() {
    let mut buf = [0u8; 1];
    let s = DiscoveryState::Full;
    s.encode_parameter_data(&mut buf).unwrap();
    assert_eq!(buf[0], 0x02);
    assert_eq!(DiscoveryState::decode_parameter_data(&buf).unwrap(), s);

    let ms = DiscoveryState::ManufacturerSpecific(0x80);
    ms.encode_parameter_data(&mut buf).unwrap();
    assert_eq!(buf[0], 0x80);
    assert_eq!(DiscoveryState::decode_parameter_data(&buf).unwrap(), ms);
}

#[test]
fn should_encode_decode_discovery_count_status() {
    let mut buf = [0u8; 2];
    let c = DiscoveryCountStatus::Count(0x0102);
    c.encode_parameter_data(&mut buf).unwrap();
    assert_eq!(&buf, &[0x01, 0x02]);
    assert_eq!(DiscoveryCountStatus::decode_parameter_data(&buf).unwrap(), c);

    let u = DiscoveryCountStatus::Unknown;
    u.encode_parameter_data(&mut buf).unwrap();
    assert_eq!(&buf, &0xffffu16.to_be_bytes());
    assert_eq!(DiscoveryCountStatus::decode_parameter_data(&buf).unwrap(), u);
}

#[test]
fn should_encode_decode_endpoint_mode() {
    let mut buf = [0u8; 1];
    let m = EndpointMode::Input;
    m.encode_parameter_data(&mut buf).unwrap();
    assert_eq!(buf[0], 0x01);
    assert_eq!(EndpointMode::decode_parameter_data(&buf).unwrap(), m);
}

#[test]
fn should_encode_decode_endpoint_id_and_value() {
    let mut buf = [0u8; 2];

    let d = EndpointId::Device(0x0102);
    d.encode_parameter_data(&mut buf).unwrap();
    assert_eq!(&buf, &[0x01, 0x02]);
    assert_eq!(EndpointId::decode_parameter_data(&buf).unwrap(), d);

    let bc = EndpointId::Broadcast;
    bc.encode_parameter_data(&mut buf).unwrap();
    assert_eq!(&buf, &0xffffu16.to_be_bytes());
    assert_eq!(EndpointId::decode_parameter_data(&buf).unwrap(), bc);
}

#[test]
fn should_encode_decode_endpoint_entry() {
    let entry = EndpointEntry {
        endpoint_id: EndpointId::Device(0x0102),
        endpoint_type: EndpointType::Physical,
    };
    let mut buf = [0u8; 3];
    entry.encode_parameter_data(&mut buf).unwrap();
    assert_eq!(&buf, &[0x01, 0x02, 0x01]);
    assert_eq!(EndpointEntry::decode_parameter_data(&buf).unwrap(), entry);
}

// A string parameter is written without its trailing zero characters, and read back the same.
#[test]
fn should_encode_decode_rdm_string() {
    let original = EndpointLabel::from_str("Hello").unwrap();
    let mut buffer = [0u8; 10];
    let bytes_written = original.encode_parameter_data(&mut buffer).unwrap();
    assert_eq!(bytes_written, 5);
    let decoded = EndpointLabel::decode_parameter_data(&buffer[..bytes_written]).unwrap();
    assert_eq!(original, decoded);

    let original = EndpointLabel::from_str("Hello\0\0\0\0").unwrap();
    let mut buffer = [0u8; 10];
    let bytes_written = original.encode_parameter_data(&mut buffer).unwrap();
    assert_eq!(bytes_written, 5);
    let decoded = EndpointLabel::decode_parameter_data(&buffer[..bytes_written]).unwrap();
    assert_eq!(original, decoded);
}

#[test]
fn device_label_codec_checks_lengths() {
    assert_eq!(DeviceLabel::decode(&[0u8; 33]), Err(RdmError::InvalidStringLength(33, 32)));
    assert_eq!(DeviceLabel::decode(b"Hi\0\0").unwrap(), DeviceLabel::new("Hi").unwrap());
    assert_eq!(DeviceLabel::decode(&[0x61, 0xc3]), Err(RdmError::Utf8Error));
    let empty = DeviceLabel::new("").unwrap();
    let mut none: [u8; 0] = [];
    assert_eq!(empty.encode(&mut none), Err(RdmError::InvalidBufferLength(0, 32)));
    let hi = DeviceLabel::new("Hi").unwrap();
    let mut short = [0u8; 31];
    assert_eq!(hi.encode(&mut short), Err(RdmError::InvalidBufferLength(31, 32)));
    let mut buf = [0xffu8; 32];
    assert_eq!(hi.encode(&mut buf), Ok(2));
    assert_eq!(&buf[..2], b"Hi");
    assert_eq!(&buf[2..], &[0xffu8; 30]);
    let d = ParameterDescriptionLabel::new("Fan").unwrap();
    let mut buf = [0u8; 32];
    assert_eq!(d.encode(&mut buf), Ok(3));
    assert_eq!(ParameterDescriptionLabel::decode(&buf).unwrap(), d);
    assert_eq!(ParameterDescriptionLabel::decode(&buf[..3]).unwrap(), d);
    assert_eq!(
        ParameterDescriptionLabel::decode(&[0x20u8; 33]),
        Err(RdmError::InvalidStringLength(33, 32))
    );
}

#[test]
fn should_decode_string_bytes() {
    assert_eq!(
        decode_string_bytes(&b"null terminated string\0"[..]).unwrap(),
        "null terminated string".to_string()
    );
    assert_eq!(
        decode_string_bytes(&b"not null terminated string"[..]).unwrap(),
        "not null terminated string".to_string()
    );
    assert_eq!(
        decode_string_bytes(&b"early terminated\0string"[..]).unwrap(),
        "early terminated".to_string()
    );
}

#[test]
fn mod_should_decode_string_bytes() {
    assert_eq!(
        decode_string_bytes(&b"null terminated string\0"[..]).unwrap(),
        String::from_utf8(b"null terminated string".to_vec()).unwrap()
    );
    assert_eq!(
        decode_string_bytes(&b"not null terminated string"[..]).unwrap(),
        String::from_utf8(b"not null terminated string".to_vec()).unwrap()
    );
    assert_eq!(
        decode_string_bytes(&b"early terminated\0string"[..]).unwrap(),
        String::from_utf8(b"early terminated".to_vec()).unwrap()
    );
}

#[test]
fn decode_string_bytes_refuses_invalid_utf8() {
    assert_eq!(decode_string_bytes(&[0x61, 0xff, 0x00]), Err(RdmError::Utf8Error));
    assert_eq!(decode_string_bytes(&[]).unwrap(), String::new());
}

#[test]
fn label_too_long_is_refused() {
    let long = "a".repeat(33);
    assert_eq!(
        DeviceLabel::from_str(&long),
        Err(ParameterDataError::StringTooLong { length: 33, max_length: 32 })
    );
    assert_eq!(DeviceLabel::new(&long), Err(RdmError::InvalidStringLength(33, 32)));
    let max = "b".repeat(32);
    assert_eq!(DeviceLabel::new(&max).unwrap().len(), 32);
}

#[test]
fn decoding_a_label_stops_at_the_first_zero_byte() {
    let label = DeviceLabel::decode_parameter_data(b"abc\0def").unwrap();
    assert_eq!(label.as_str(), "abc");
    assert_eq!(
        DeviceLabel::decode_parameter_data(&[0x61, 0xc3]),
        Err(ParameterDataError::InvalidUtf8)
    );
}

#[test]
fn decoding_an_unknown_endpoint_type_is_refused() {
    assert_eq!(
        EndpointEntry::decode_parameter_data(&[0x01, 0x02, 0x07]),
        Err(ParameterDataError::MalformedData)
    );
    assert_eq!(
        DiscoveryState::decode_parameter_data(&[0x02]).unwrap(),
        DiscoveryState::Full
    );
}
