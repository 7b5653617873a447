use rdm_rs::rdm::common::{CommandClass, DeviceUID, SubDeviceId};
use rdm_rs::rdm::error::RdmError;
use rdm_rs::rdm::parameter::e120::response::{
    GetIdentifyDeviceResponse, GetSensorDefinitionResponse, GetStatusMessagesResponse,
};
use rdm_rs::rdm::parameter::e120::{SensorDefinitionDescription, SensorType, SensorUnit, SensorUnitPrefix};
use rdm_rs::rdm::parameter::e133::response::GetBrokerStatusResponse;
use rdm_rs::rdm::parameter::e133::BrokerState;
use rdm_rs::rdm::parameter::e120::{StatusMessage, StatusType};
use rdm_rs::rdm::parameter::lists::{ParameterDataBuffer, StatusMessageList};
use rdm_rs::rdm::parameter::ParameterId;
use rdm_rs::rdm::response::{
    DiscoveryUniqueBranchFrameResponse, RdmFrameResponse, RdmResponse, ResponseData,
    ResponseNackReasonCode, ResponseParameterData, ResponseType,
};
use rdm_rs::rdm::{DISCOVERY_UNIQUE_BRANCH_PREAMBLE_BYTE, DISCOVERY_UNIQUE_BRANCH_PREAMBLE_SEPARATOR_BYTE};

fn identify_frame(response_type: ResponseType, parameter_data: ResponseData<'static>) -> RdmResponse<'static> {
    RdmResponse::RdmFrame(RdmFrameResponse {
        destination_uid: DeviceUID::new(0x0102, 0x03040506),
        source_uid: DeviceUID::new(0x0605, 0x04030201),
        transaction_number: 0x00,
        response_type,
        message_count: 0x00,
        sub_device_id: SubDeviceId::RootDevice,
        command_class: CommandClass::GetCommandResponse,
        parameter_id: ParameterId::IdentifyDevice,
        parameter_data,
    })
}

fn identifying() -> ResponseData<'static> {
    ResponseData::ParameterData(Some(ResponseParameterData::GetIdentifyDevice(
        GetIdentifyDeviceResponse { identify: true },
    )))
}

#[test]
fn should_decode_valid_rdm_ack_response() {
    let decoded = RdmResponse::decode(&[
        0xcc, // Start Code
        0x01, // Sub Start Code
        25,   // Message Length
        0x01, 0x02, 0x03, 0x04, 0x05, 0x06, // Destination UID
        0x06, 0x05, 0x04, 0x03, 0x02, 0x01, // Source UID
        0x00, // Transaction Number
        0x00, // Response Type = Ack
        0x00, // Message Count
        0x00, 0x00, // Sub-Device ID = Root Device
        0x21, // Command Class = GetCommandResponse
        0x10, 0x00, // Parameter ID = Identify Device
        0x01, // PDL
        0x01, // Identifying = true
        0x01, 0x43, // Checksum
    ]);

    let expected = Ok(identify_frame(ResponseType::Ack, identifying()));

    assert_eq!(decoded, expected);
}

#[test]
fn should_encode_valid_rdm_ack_response() {
    let encoded = identify_frame(ResponseType::Ack, identifying()).encode();

    let expected = &[
        0xcc, // Start Code
        0x01, // Sub Start Code
        25,   // Message Length
        0x01, 0x02, 0x03, 0x04, 0x05, 0x06, // Destination UID
        0x06, 0x05, 0x04, 0x03, 0x02, 0x01, // Source UID
        0x00, // Transaction Number
        0x00, // Response Type = Ack
        0x00, // Message Count
        0x00, 0x00, // Sub-Device ID = Root Device
        0x21, // Command Class = GetCommandResponse
        0x10, 0x00, // Parameter ID = Identify Device
        0x01, // PDL
        0x01, // Identifying = true
        0x01, 0x43, // Checksum
    ];

    assert_eq!(encoded, expected);
}

fn manufacturer_specific_frame() -> RdmResponse<'static> {
    RdmResponse::RdmFrame(RdmFrameResponse {
        destination_uid: DeviceUID::new(0x0102, 0x03040506),
        source_uid: DeviceUID::new(0x0605, 0x04030201),
        transaction_number: 0x00,
        response_type: ResponseType::Ack,
        message_count: 0x00,
        sub_device_id: SubDeviceId::RootDevice,
        command_class: CommandClass::SetCommandResponse,
        parameter_id: ParameterId::Custom(0x8080),
        parameter_data: ResponseData::ParameterData(Some(ResponseParameterData::ManufacturerSpecific(
            ParameterDataBuffer::from_slice(&[0x04, 0x03, 0x02, 0x01]).unwrap(),
        ))),
    })
}

const MANUFACTURER_SPECIFIC_BYTES: [u8; 30] = [
    0xcc, // Start Code
    0x01, // Sub Start Code
    28,   // Message Length
    0x01, 0x02, 0x03, 0x04, 0x05, 0x06, // Destination UID
    0x06, 0x05, 0x04, 0x03, 0x02, 0x01, // Source UID
    0x00, // Transaction Number
    0x00, // Response Type = Ack
    0x00, // Message Count
    0x00, 0x00, // Sub-Device ID = Root Device
    0x31, // Command Class = SetCommandResponse
    0x80, 0x80, // Parameter ID = Identify Device
    0x04, // PDL
    0x04, 0x03, 0x02, 0x01, // Arbitrary manufacturer specific data
    0x02, 0x52, // Checksum
];

#[test]
fn should_decode_valid_rdm_ack_manufacturer_specific_response() {
    let decoded = RdmResponse::decode(&MANUFACTURER_SPECIFIC_BYTES);
    let expected = Ok(manufacturer_specific_frame());
    assert_eq!(decoded, expected);
}

#[test]
fn should_encode_valid_rdm_ack_manufacturer_specific_response() {
    let encoded = manufacturer_specific_frame().encode();
    assert_eq!(encoded, &MANUFACTURER_SPECIFIC_BYTES);
}

const ACK_TIMER_BYTES: [u8; 28] = [
    0xcc, // Start Code
    0x01, // Sub Start Code
    26,   // Message Length
    0x01, 0x02, 0x03, 0x04, 0x05, 0x06, // Destination UID
    0x06, 0x05, 0x04, 0x03, 0x02, 0x01, // Source UID
    0x00, // Transaction Number
    0x01, // Response Type = AckTimer
    0x00, // Message Count
    0x00, 0x00, // Sub-Device ID = Root Device
    0x21, // Command Class = GetCommandResponse
    0x10, 0x00, // Parameter ID = Identify Device
    0x02, // PDL
    0x00, 0x0a, // Estimated Response Time = 10x 100ms = 1 second
    0x01, 0x4f, // Checksum
];

#[test]
fn should_decode_valid_rdm_ack_timer_response() {
    let decoded = RdmResponse::decode(&ACK_TIMER_BYTES);
    let expected = Ok(identify_frame(ResponseType::AckTimer, ResponseData::EstimateResponseTime(0x0a)));
    assert_eq!(decoded, expected);
}

#[test]
fn should_encode_valid_rdm_ack_timer_response() {
    let encoded =
        identify_frame(ResponseType::AckTimer, ResponseData::EstimateResponseTime(0x0a)).encode();
    assert_eq!(encoded, &ACK_TIMER_BYTES);
}

const NACK_BYTES: [u8; 28] = [
    0xcc, // Start Code
    0x01, // Sub Start Code
    26,   // Message Length
    0x01, 0x02, 0x03, 0x04, 0x05, 0x06, // Destination UID
    0x06, 0x05, 0x04, 0x03, 0x02, 0x01, // Source UID
    0x00, // Transaction Number
    0x02, // Response Type = Nack_Reason
    0x00, // Message Count
    0x00, 0x00, // Sub-Device ID = Root Device
    0x21, // Command Class = GetCommandResponse
    0x10, 0x00, // Parameter ID = Identify Device
    0x02, // PDL
    0x00, 0x01, // Nack Reason = FormatError
    0x01, 0x47, // Checksum
];

#[test]
fn should_decode_valid_rdm_nack_reason_response() {
    let decoded = RdmResponse::decode(&NACK_BYTES);
    let expected = Ok(identify_frame(
        ResponseType::NackReason,
        ResponseData::NackReason(ResponseNackReasonCode::FormatError),
    ));
    assert_eq!(decoded, expected);
}

#[test]
fn should_encode_valid_rdm_nack_reason_response() {
    let encoded = identify_frame(
        ResponseType::NackReason,
        ResponseData::NackReason(ResponseNackReasonCode::FormatError),
    )
    .encode();
    assert_eq!(encoded, &NACK_BYTES);
}

const ACK_OVERFLOW_BYTES: [u8; 27] = [
    0xcc, // Start Code
    0x01, // Sub Start Code
    25,   // Message Length
    0x01, 0x02, 0x03, 0x04, 0x05, 0x06, // Destination UID
    0x06, 0x05, 0x04, 0x03, 0x02, 0x01, // Source UID
    0x00, // Transaction Number
    0x03, // Response Type = Ack_Overflow
    0x00, // Message Count
    0x00, 0x00, // Sub-Device ID = Root Device
    0x21, // Command Class = GetCommandResponse
    0x10, 0x00, // Parameter ID = Identify Device
    0x01, // PDL
    0x01, // Identifying = true
    0x01, 0x46, // Checksum
];

#[test]
fn should_decode_valid_rdm_ack_overflow_response() {
    let decoded = RdmResponse::decode(&ACK_OVERFLOW_BYTES);
    let expected = Ok(identify_frame(ResponseType::AckOverflow, identifying()));
    assert_eq!(decoded, expected);
}

#[test]
fn should_encode_valid_rdm_ack_overflow_response() {
    let encoded = identify_frame(ResponseType::AckOverflow, identifying()).encode();
    assert_eq!(encoded, &ACK_OVERFLOW_BYTES);
}

const DISCOVERY_BYTES: [u8; 16] = [
    0xab, // euid 11 = manufacturer id 1 (MSB)
    0x55, // euid 10 = manufacturer id 1 (MSB)
    0xaa, // euid 9 = manufacturer id 0 (LSB)
    0x57, // euid 8 = manufacturer id 0 (LSB)
    0xab, // euid 7 = device id 3 (MSB)
    0x57, // euid 6 = device id 3 (MSB)
    0xae, // euid 5 = device id 2
    0x55, // euid 4 = device id 2
    0xaf, // euid 3 = device id 1
    0x55, // euid 2 = device id 1
    0xae, // euid 1 = device id 0 (LSB)
    0x57, // euid 0 = device id 0 (LSB)
    0xae, // ecs 3 = Checksum1 (MSB)
    0x57, // ecs 2 = Checksum1 (MSB)
    0xaf, // ecs 1 = Checksum0 (LSB)
    0x5f, // ecs 0 = Checksum0 (LSB)
];

#[test]
fn should_decode_valid_discovery_unique_branch_response() {
    // includes preamble bytes
    let mut bytes = vec![DISCOVERY_UNIQUE_BRANCH_PREAMBLE_BYTE; 7];
    bytes.push(DISCOVERY_UNIQUE_BRANCH_PREAMBLE_SEPARATOR_BYTE);
    bytes.extend_from_slice(&DISCOVERY_BYTES);
    let decoded = RdmResponse::decode(&bytes);

    let expected = Ok(RdmResponse::DiscoveryUniqueBranchFrame(DiscoveryUniqueBranchFrameResponse(
        DeviceUID::new(0x0102, 0x03040506),
    )));

    assert_eq!(decoded, expected);

    // does not include preamble bytes
    let mut bytes = vec![DISCOVERY_UNIQUE_BRANCH_PREAMBLE_SEPARATOR_BYTE];
    bytes.extend_from_slice(&DISCOVERY_BYTES);
    let decoded = RdmResponse::decode(&bytes);

    let expected = Ok(RdmResponse::DiscoveryUniqueBranchFrame(DiscoveryUniqueBranchFrameResponse(
        DeviceUID::new(0x0102, 0x03040506),
    )));

    assert_eq!(decoded, expected);
}

#[test]
fn should_encode_valid_discovery_unique_branch_response() {
    let encoded = RdmResponse::DiscoveryUniqueBranchFrame(DiscoveryUniqueBranchFrameResponse(
        DeviceUID::new(0x0102, 0x03040506),
    ))
    .encode();

    let mut expected = vec![DISCOVERY_UNIQUE_BRANCH_PREAMBLE_BYTE; 7];
    expected.push(DISCOVERY_UNIQUE_BRANCH_PREAMBLE_SEPARATOR_BYTE);
    expected.extend_from_slice(&DISCOVERY_BYTES);

    assert_eq!(encoded, expected);
}

// The README's response example.
#[test]
fn readme_response_example() {
    let decoded = RdmResponse::decode(&[
        0xcc, 0x01, 0x19, 0x01, 0x02, 0x03, 0x04, 0x05, 0x06, 0x06, 0x05, 0x04, 0x03, 0x02, 0x01,
        0x00, 0x00, 0x00, 0x00, 0x00, 0x21, 0x10, 0x00, 0x01, 0x01, 0x01, 0x43,
    ]);
    assert_eq!(decoded, Ok(identify_frame(ResponseType::Ack, identifying())));
}

#[test]
fn response_checksum_and_type_errors() {
    let mut bytes = ACK_OVERFLOW_BYTES;
    bytes[26] = 0x47;
    assert_eq!(RdmResponse::decode(&bytes), Err(RdmError::InvalidChecksum(0x0146, 0x0147)));

    let mut bad = DISCOVERY_BYTES;
    bad[15] = 0x5e;
    let mut framed = vec![DISCOVERY_UNIQUE_BRANCH_PREAMBLE_SEPARATOR_BYTE];
    framed.extend_from_slice(&bad);
    assert!(matches!(RdmResponse::decode(&framed), Err(RdmError::InvalidChecksum(_, _))));

    let no_separator = [DISCOVERY_UNIQUE_BRANCH_PREAMBLE_BYTE; 17];
    assert_eq!(
        RdmResponse::decode(&no_separator),
        Err(RdmError::InvalidDiscoveryUniqueBranchPreamble)
    );
}

#[test]
fn status_messages_roundtrip() {
    let messages = [
        StatusMessage::new(SubDeviceId::RootDevice, StatusType::Warning, 0x0021, 3, 85),
        StatusMessage::new(SubDeviceId::Id(2), StatusType::Error, 0x8001, 1, 2),
    ];
    let frame = RdmResponse::RdmFrame(RdmFrameResponse {
        destination_uid: DeviceUID::new(0x0102, 0x03040506),
        source_uid: DeviceUID::new(0x0605, 0x04030201),
        transaction_number: 0x01,
        response_type: ResponseType::Ack,
        message_count: 0x00,
        sub_device_id: SubDeviceId::RootDevice,
        command_class: CommandClass::GetCommandResponse,
        parameter_id: ParameterId::StatusMessages,
        parameter_data: ResponseData::ParameterData(Some(ResponseParameterData::GetStatusMessages(
            GetStatusMessagesResponse { messages: StatusMessageList::from_slice(&messages).unwrap() },
        ))),
    });
    let bytes = frame.encode();
    assert_eq!(bytes.len(), 26 + 18);
    assert_eq!(bytes[23], 18);
    assert_eq!(&bytes[24..33], &[0x00, 0x00, 0x03, 0x00, 0x21, 0x00, 0x03, 0x00, 0x55]);
    assert_eq!(RdmResponse::decode(&bytes), Ok(frame));
}

#[test]
fn sensor_definition_packs_its_support_flags_in_one_byte() {
    let d = GetSensorDefinitionResponse {
        id: 1,
        kind: SensorType::Temperature,
        unit: SensorUnit::Centigrade,
        prefix: SensorUnitPrefix::NoPrefix,
        range_minimum_value: -40,
        range_maximum_value: 125,
        normal_minimum_value: 0,
        normal_maximum_value: 85,
        is_lowest_highest_detected_value_supported: true,
        is_recorded_value_supported: false,
        description: SensorDefinitionDescription::new("T").unwrap(),
    };
    let mut buf = [0u8; 64];
    let n = d.encode_parameter_data(&mut buf).unwrap();
    assert_eq!(
        &buf[..n],
        &[0x01, 0x00, 0x01, 0x00, 0xff, 0xd8, 0x00, 0x7d, 0x00, 0x00, 0x00, 0x55, 0x02, 0x54]
    );
    assert_eq!(GetSensorDefinitionResponse::decode_parameter_data(&buf[..n]), Ok(d));
    let both = GetSensorDefinitionResponse::decode_parameter_data(&[
        0x02, 0x00, 0x01, 0x00, 0x00, 0x00, 0x00, 0x01, 0x00, 0x00, 0x00, 0x01, 0x03,
    ])
    .unwrap();
    assert!(both.is_lowest_highest_detected_value_supported && both.is_recorded_value_supported);
    assert!(both.description.is_empty());
}

#[test]
fn e133_frames_use_their_standard_codes() {
    let frame = RdmResponse::RdmFrame(RdmFrameResponse {
        destination_uid: DeviceUID::new(0x0102, 0x03040506),
        source_uid: DeviceUID::new(0x0605, 0x04030201),
        transaction_number: 0x00,
        response_type: ResponseType::Ack,
        message_count: 0x00,
        sub_device_id: SubDeviceId::RootDevice,
        command_class: CommandClass::GetCommandResponse,
        parameter_id: ParameterId::BrokerStatus,
        parameter_data: ResponseData::ParameterData(Some(ResponseParameterData::GetBrokerStatus(
            GetBrokerStatusResponse { is_allowing_set_commands: true, broker_state: BrokerState::Active },
        ))),
    });
    let bytes = frame.encode();
    assert_eq!(&bytes[21..23], &[0x08, 0x03]);
    assert_eq!(RdmResponse::decode(&bytes), Ok(frame));
}

#[test]
fn short_parameter_data_is_a_message_length_error() {
    assert_eq!(
        ResponseParameterData::decode(CommandClass::GetCommandResponse, ParameterId::DeviceHours, &[0, 0, 1]),
        Err(RdmError::InvalidMessageLength(3))
    );
    let mut bytes = vec![
        0xcc, 0x01, 27, 0x01, 0x02, 0x03, 0x04, 0x05, 0x06, 0x06, 0x05, 0x04, 0x03, 0x02, 0x01,
        0x00, 0x00, 0x00, 0x00, 0x00, 0x21, 0x04, 0x00, 0x03, 0x00, 0x00, 0x01,
    ];
    let sum: u16 = bytes.iter().map(|b| *b as u16).sum();
    bytes.extend_from_slice(&sum.to_be_bytes());
    assert_eq!(RdmResponse::decode(&bytes), Err(RdmError::InvalidMessageLength(3)));
}

#[test]
fn label_data_that_is_not_utf8_is_a_utf8_error() {
    assert_eq!(
        ResponseParameterData::decode(CommandClass::GetCommandResponse, ParameterId::DeviceLabel, &[0x61, 0xff]),
        Err(RdmError::Utf8Error)
    );
}

#[test]
fn field_values_that_name_nothing_are_reported_by_their_type() {
    assert_eq!(
        ResponseParameterData::decode(CommandClass::GetCommandResponse, ParameterId::LampState, &[0x10]),
        Err(RdmError::InvalidLampState(0x10))
    );
    let mut description = [0u8; 20];
    description[3] = 0x30;
    assert_eq!(
        ResponseParameterData::decode(CommandClass::GetCommandResponse, ParameterId::ParameterDescription, &description),
        Err(RdmError::InvalidParameterDataType(0x30))
    );
    let messages = [
        0x00, 0x01, 0x02, 0x00, 0x01, 0x00, 0x00, 0x00, 0x00, //
        0x00, 0x01, 0x07, 0x00, 0x01, 0x00, 0x00, 0x00, 0x00,
    ];
    assert_eq!(
        ResponseParameterData::decode(CommandClass::GetCommandResponse, ParameterId::StatusMessages, &messages),
        Err(RdmError::InvalidStatusType(0x07))
    );
}
