use rdm_rs::rdm::error::{ParameterDataError, RdmError};
use rdm_rs::rdm::response::ResponseNackReasonCode;

fn message(e: RdmError) -> String {
    let mut out = Vec::new();
    e.write_message(&mut out);
    String::from_utf8(out).unwrap()
}

#[test]
fn error_messages() {
    assert_eq!(message(RdmError::InvalidStartCode), "Invalid start code");
    assert_eq!(
        message(RdmError::InvalidMessageLength(12)),
        "Invalid message length: 12, must be >= 24 and <= 255"
    );
    assert_eq!(
        message(RdmError::InvalidChecksum(0x0146, 0x0147)),
        "Invalid checksum: 326, expected: 327"
    );
    assert_eq!(
        message(RdmError::UnsupportedParameter(0x20, 0x1000)),
        "Unsupported Parameter, CommandClass: 32, ParameterId: 4096"
    );
    assert_eq!(message(RdmError::InvalidPinCode(10000)), "Invalid PinCode: 10000");
    assert_eq!(message(RdmError::MalformedPacket), "Malformed packet");
    assert_eq!(
        message(RdmError::ParameterData(ParameterDataError::BufferTooSmall { provided: 1, required: 2 })),
        "Invalid parameter data: Buffer too small: 1 bytes provided, 2 required"
    );
}

#[test]
fn nack_reason_messages() {
    assert_eq!(
        ResponseNackReasonCode::FormatError.message(),
        "The responder cannot interpret request as controller data was not formatted correctly."
    );
    assert_eq!(ResponseNackReasonCode::ManufacturerSpecific(0x8001).message(), "Manufacturer specific NACK Code");
}
