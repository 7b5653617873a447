use rdm_rs::rdm::common::{CommandClass, DeviceUID, SubDeviceId};
use rdm_rs::rdm::custom::RdmParameter;
use rdm_rs::rdm::error::{ParameterDataError, RdmError};
use rdm_rs::rdm::parameter::e120::request::{DiscUniqueBranchRequest, SetDeviceLabelRequest};
use rdm_rs::rdm::parameter::e120::DeviceLabel;
use rdm_rs::rdm::parameter::lists::ParameterDataBuffer;
use rdm_rs::rdm::parameter::ParameterId;
use rdm_rs::rdm::request::{CustomRequestParameter, RdmRequest, RequestParameter};

#[test]
fn should_encode_discovery_unique_branch_request() {
    let mut buf = [0u8; 38];

    let frame = RdmRequest::new(
        DeviceUID::new(0x0102, 0x03040506),
        DeviceUID::new(0x0605, 0x04030201),
        0x00,
        0x01,
        SubDeviceId::Id(0x01),
        RequestParameter::DiscUniqueBranch(DiscUniqueBranchRequest {
            lower_bound_uid: DeviceUID::new(0x0000, 0x00000000),
            upper_bound_uid: DeviceUID::new(0xffff, 0xffffffff),
        }),
    );

    let bytes_written = frame.encode(&mut buf).unwrap();

    let expected: &[u8; 38] = &[
        0xcc, // Start Code
        0x01, // Sub Start Code
        0x24, // Message Length
        0x01, 0x02, 0x03, 0x04, 0x05, 0x06, // Destination UID
        0x06, 0x05, 0x04, 0x03, 0x02, 0x01, // Source UID
        0x00, // Transaction Number
        0x01, // Port ID
        0x00, // Message Count
        0x00, 0x01, // Sub-Device ID
        0x10, // Command Class
        0x00, 0x01, // Parameter ID
        0x0c, // PDL
        0x00, 0x00, 0x00, 0x00, 0x00, 0x00, // Parameter Data - Lower Bound UID
        0xff, 0xff, 0xff, 0xff, 0xff, 0xff, // Parameter Data - Upper Bound UID
        0x07, 0x34, // Checksum
    ];

    assert_eq!(&buf[0..bytes_written], expected);

    let decoded = RdmRequest::decode(&buf[0..bytes_written]).unwrap();

    assert_eq!(decoded, frame);
}

#[test]
fn request_should_encode_discovery_unique_branch_request() {
    let mut buf = [0u8; 38];
    let n = RdmRequest::new(
        DeviceUID::new(0x0102, 0x03040506),
        DeviceUID::new(0x0605, 0x04030201),
        0x00,
        0x01,
        SubDeviceId::from(0x0001),
        RequestParameter::DiscUniqueBranch(DiscUniqueBranchRequest {
            lower_bound_uid: DeviceUID::new(0x0000, 0x00000000),
            upper_bound_uid: DeviceUID::new(0xffff, 0xffffffff),
        }),
    )
    .encode(&mut buf)
    .unwrap();

    let expected = vec![
        0xcc, // Start Code
        0x01, // Sub Start Code
        0x24, // Message Length
        0x01, 0x02, 0x03, 0x04, 0x05, 0x06, // Destination UID
        0x06, 0x05, 0x04, 0x03, 0x02, 0x01, // Source UID
        0x00, // Transaction Number
        0x01, // Port ID
        0x00, // Message Count
        0x00, 0x01, // Sub-Device ID
        0x10, // Command Class
        0x00, 0x01, // Parameter ID
        0x0c, // PDL
        0x00, 0x00, 0x00, 0x00, 0x00, 0x00, // Parameter Data - Lower Bound UID
        0xff, 0xff, 0xff, 0xff, 0xff, 0xff, // Parameter Data - Upper Bound UID
        0x07, 0x34, // Checksum
    ];

    assert_eq!(buf[..n].to_vec(), expected);
}

#[test]
fn should_encode_decode_valid_request() {
    let mut buf = [0u8; 26];

    let frame = RdmRequest::new(
        DeviceUID::new(0x0102, 0x03040506),
        DeviceUID::new(0x0605, 0x04030201),
        0x00,
        0x01,
        SubDeviceId::RootDevice,
        RequestParameter::GetIdentifyDevice,
    );

    let bytes_encoded = frame.encode(&mut buf).unwrap();

    let expected: &[u8; 26] = &[
        0xcc, // Start Code
        0x01, // Sub Start Code
        0x18, // Message Length
        0x01, 0x02, 0x03, 0x04, 0x05, 0x06, // Destination UID
        0x06, 0x05, 0x04, 0x03, 0x02, 0x01, // Source UID
        0x00, // Transaction Number
        0x01, // Port ID
        0x00, // Message Count
        0x00, 0x00, // Sub-Device ID = Root Device
        0x20, // Command Class = Get
        0x10, 0x00, // Parameter ID = Identify Device
        0x00, // PDL
        0x01, 0x40, // Checksum
    ];

    assert_eq!(&buf[0..bytes_encoded], expected);

    let decoded = RdmRequest::decode(&buf[0..bytes_encoded]).unwrap();

    assert_eq!(decoded, frame);
}

#[test]
fn should_encode_decode_manufacturer_specific_request() {
    let mut buf = [0u8; 30];

    let frame = RdmRequest::new(
        DeviceUID::new(0x0102, 0x03040506),
        DeviceUID::new(0x0605, 0x04030201),
        0x00,
        0x01,
        SubDeviceId::RootDevice,
        RequestParameter::CustomParameter(CustomRequestParameter {
            command_class: CommandClass::SetCommand,
            parameter_data_length: 4,
            parameter_id: ParameterId::Custom(0x8080),
            parameter_data: ParameterDataBuffer::from_slice(&[0x01, 0x02, 0x03, 0x04]).unwrap(),
        }),
    );

    let bytes_encoded = frame.encode(&mut buf).unwrap();

    let expected: &[u8; 30] = &[
        0xcc, // Start Code
        0x01, // Sub Start Code
        0x1c, // Message Length
        0x01, 0x02, 0x03, 0x04, 0x05, 0x06, // Destination UID
        0x06, 0x05, 0x04, 0x03, 0x02, 0x01, // Source UID
        0x00, // Transaction Number
        0x01, // Port ID
        0x00, // Message Count
        0x00, 0x00, // Sub-Device ID = Root Device
        0x30, // Command Class = Set
        0x80, 0x80, // Parameter ID = Identify Device
        0x04, // PDL
        0x01, 0x02, 0x03, 0x04, // Parameter Data
        0x02, 0x52, // Checksum
    ];

    assert_eq!(&buf[0..bytes_encoded], expected);

    let decoded = RdmRequest::decode(&buf[0..bytes_encoded]).unwrap();

    assert_eq!(decoded, frame);
}

#[derive(Clone, Debug, PartialEq)]
struct CustomDerivedParameter {
    pub some_field: u32,
}

impl RdmParameter for CustomDerivedParameter {
    fn command_class(&self) -> CommandClass {
        CommandClass::SetCommand
    }

    fn parameter_id(&self) -> ParameterId {
        ParameterId::Custom(0x8080)
    }

    fn encode_parameter_data(&self, buf: &mut [u8]) -> Result<usize, ParameterDataError> {
        if buf.len() < 4 {
            return Err(ParameterDataError::BufferTooSmall { provided: buf.len(), required: 4 });
        }
        buf[0..4].copy_from_slice(&self.some_field.to_be_bytes());
        Ok(4)
    }
}

#[test]
fn should_encode_decode_derived_manufacturer_specific_request() {
    let mut buf = [0u8; 30];

    let frame = RdmRequest::new_custom_parameter(
        DeviceUID::new(0x0102, 0x03040506),
        DeviceUID::new(0x0605, 0x04030201),
        0x00,
        0x01,
        SubDeviceId::RootDevice,
        CustomDerivedParameter { some_field: 0x01020304 },
    )
    .unwrap();

    let bytes_encoded = frame.encode(&mut buf).unwrap();

    let expected: &[u8; 30] = &[
        0xcc, // Start Code
        0x01, // Sub Start Code
        0x1c, // Message Length
        0x01, 0x02, 0x03, 0x04, 0x05, 0x06, // Destination UID
        0x06, 0x05, 0x04, 0x03, 0x02, 0x01, // Source UID
        0x00, // Transaction Number
        0x01, // Port ID
        0x00, // Message Count
        0x00, 0x00, // Sub-Device ID = Root Device
        0x30, // Command Class = Set
        0x80, 0x80, // Parameter ID = Manufacturer Specific
        0x04, // PDL
        0x01, 0x02, 0x03, 0x04, // Parameter Data
        0x02, 0x52, // Checksum
    ];

    assert_eq!(&buf[0..bytes_encoded], expected);

    let decoded = RdmRequest::decode(&buf[0..bytes_encoded]).unwrap();

    assert_eq!(decoded, frame);
}

struct FailingParameter;

impl RdmParameter for FailingParameter {
    fn command_class(&self) -> CommandClass {
        CommandClass::GetCommand
    }

    fn parameter_id(&self) -> ParameterId {
        ParameterId::Custom(0x8001)
    }

    fn encode_parameter_data(&self, _buf: &mut [u8]) -> Result<usize, ParameterDataError> {
        Err(ParameterDataError::MalformedData)
    }
}

#[test]
fn custom_parameter_encoding_error_is_passed_on() {
    let r = RdmRequest::new_custom_parameter(
        DeviceUID::new(1, 2),
        DeviceUID::new(3, 4),
        0,
        1,
        SubDeviceId::RootDevice,
        FailingParameter,
    );
    assert_eq!(r, Err(RdmError::ParameterData(ParameterDataError::MalformedData)));
    let r = RdmRequest::from_custom_parameter_data(
        DeviceUID::new(1, 2),
        DeviceUID::new(3, 4),
        0,
        1,
        SubDeviceId::RootDevice,
        CommandClass::GetCommand,
        ParameterId::Custom(0x8001),
        Ok(232),
        &[0u8; 231],
    );
    assert_eq!(
        r,
        Err(RdmError::ParameterData(ParameterDataError::BufferTooSmall { provided: 231, required: 232 }))
    );
}

// The README's request example: encoding a GET of IDENTIFY_DEVICE.
#[test]
fn readme_request_example() {
    let mut buf = [0u8; 26];
    let n = RdmRequest::new(
        DeviceUID::new(0x0102, 0x03040506),
        DeviceUID::new(0x0605, 0x04030201),
        0x00,
        0x01,
        SubDeviceId::from(0x0000),
        RequestParameter::GetIdentifyDevice,
    )
    .encode(&mut buf)
    .unwrap();

    let expected = &[
        0xcc, 0x01, 0x18, 0x01, 0x02, 0x03, 0x04, 0x05, 0x06, 0x06, 0x05, 0x04, 0x03, 0x02, 0x01,
        0x00, 0x01, 0x00, 0x00, 0x00, 0x20, 0x10, 0x00, 0x00, 0x01, 0x40,
    ];
    assert_eq!(&buf[..n], expected);
}

#[test]
fn request_roundtrip_with_label() {
    let frame = RdmRequest::new(
        DeviceUID::new(0x7a70, 0x00000001),
        DeviceUID::new(0x0001, 0x00000002),
        0x05,
        0x01,
        SubDeviceId::Id(0x0003),
        RequestParameter::SetDeviceLabel(SetDeviceLabelRequest {
            device_label: DeviceLabel::new("Stage Left").unwrap(),
        }),
    );
    let mut buf = [0u8; 64];
    let n = frame.encode(&mut buf).unwrap();
    assert_eq!(n, 26 + 10);
    assert_eq!(buf[2], 24 + 10);
    assert_eq!(RdmRequest::decode(&buf[..n]).unwrap(), frame);
    assert_eq!(frame.size(), n);
}

#[test]
fn request_errors() {
    let bytes = [
        0xcc, 0x01, 0x18, 0x01, 0x02, 0x03, 0x04, 0x05, 0x06, 0x06, 0x05, 0x04, 0x03, 0x02, 0x01,
        0x00, 0x01, 0x00, 0x00, 0x00, 0x20, 0x10, 0x00, 0x00, 0x01, 0x40,
    ];
    assert_eq!(RdmRequest::decode(&bytes[..23]), Err(RdmError::InvalidMessageLength(23)));
    let mut bad_class = bytes;
    bad_class[20] = 0x40;
    assert_eq!(RdmRequest::decode(&bad_class), Err(RdmError::InvalidCommandClass(0x40)));
    let mut long_pdl = bytes;
    long_pdl[23] = 0x05;
    assert_eq!(RdmRequest::decode(&long_pdl), Err(RdmError::InvalidFrameLength(26)));

    // a buffer with too little room for the parameter data
    let frame = RdmRequest::new(
        DeviceUID::new(0x7a70, 0x00000001),
        DeviceUID::new(0x0001, 0x00000002),
        0x05,
        0x01,
        SubDeviceId::RootDevice,
        RequestParameter::SetDeviceLabel(SetDeviceLabelRequest {
            device_label: DeviceLabel::new("Stage Left").unwrap(),
        }),
    );
    let mut small = [0u8; 30];
    assert_eq!(
        frame.encode(&mut small),
        Err(RdmError::ParameterData(ParameterDataError::BufferTooSmall { provided: 6, required: 10 }))
    );
}

#[test]
fn e133_request_round_trips() {
    let frame = RdmRequest::new(
        DeviceUID::new(0x0102, 0x03040506),
        DeviceUID::new(0x0605, 0x04030201),
        0x00,
        0x01,
        SubDeviceId::RootDevice,
        RequestParameter::GetBrokerStatus,
    );
    let mut buf = [0u8; 26];
    let n = frame.encode(&mut buf).unwrap();
    assert_eq!(&buf[20..23], &[0x20, 0x08, 0x03]);
    assert_eq!(RdmRequest::decode(&buf[..n]), Ok(frame));
}
