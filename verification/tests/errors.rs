use rdm_rs::rdm::common::CommandClass;
use rdm_rs::rdm::error::RdmError;
use rdm_rs::rdm::parameter::e120::{
    DisplayInvertMode, ImplementedCommandClass, LampOnMode, LampState, OnOffStates,
    ParameterDataType, PowerState, ResetDeviceMode, SensorType, SensorUnit, SensorUnitPrefix,
    StatusType,
};
use rdm_rs::rdm::parameter::e133::{BrokerState, StaticConfigType};
use rdm_rs::rdm::parameter::e137_1::{IdentifyMode, MergeMode, PinCode, PresetProgrammed};
use rdm_rs::rdm::parameter::e137_2::DhcpMode;
use rdm_rs::rdm::parameter::e137_7::{DiscoveryState, EndpointMode, EndpointType};
use rdm_rs::rdm::response::{ResponseNackReasonCode, ResponseType};
use rdm_rs::rdm::RdmFrameView;

#[test]
fn unknown_values_are_refused_with_their_error() {
    assert_eq!(CommandClass::try_from(0xfe), Err(RdmError::InvalidCommandClass(0xfe)));
    assert_eq!(
        ImplementedCommandClass::try_from(0xfe),
        Err(RdmError::InvalidCommandClassImplementation(0xfe))
    );
    assert_eq!(ParameterDataType::try_from(0xfe), Err(RdmError::InvalidParameterDataType(0xfe)));
    assert_eq!(ParameterDataType::try_from(0x81), Ok(ParameterDataType::ManufacturerSpecific(0x81)));
    assert_eq!(StatusType::try_from(0xfe), Err(RdmError::InvalidStatusType(0xfe)));
    assert_eq!(LampState::try_from(0xfe), Err(RdmError::InvalidLampState(0xfe)));
    assert_eq!(LampOnMode::try_from(0xfe), Err(RdmError::InvalidLampOnMode(0xfe)));
    assert_eq!(PowerState::try_from(0xfe), Err(RdmError::InvalidPowerState(0xfe)));
    assert_eq!(OnOffStates::try_from(0xfe), Err(RdmError::InvalidOnOffStates(0xfe)));
    assert_eq!(DisplayInvertMode::try_from(0xfe), Err(RdmError::InvalidDisplayInvertMode(0xfe)));
    assert_eq!(ResetDeviceMode::try_from(0xfe), Err(RdmError::InvalidResetDeviceMode(0xfe)));
    assert_eq!(SensorType::try_from(0x70), Err(RdmError::InvalidSensorType(0x70)));
    assert_eq!(SensorUnit::try_from(0x7f), Err(RdmError::InvalidSensorUnit(0x7f)));
    assert_eq!(SensorUnitPrefix::try_from(0xfe), Err(RdmError::InvalidSensorUnitPrefix(0xfe)));
    assert_eq!(StaticConfigType::try_from(0xfe), Err(RdmError::InvalidStaticConfigType(0xfe)));
    assert_eq!(BrokerState::try_from(0xfe), Err(RdmError::InvalidBrokerState(0xfe)));
    assert_eq!(IdentifyMode::try_from(0xfe), Err(RdmError::InvalidIdentifyMode(0xfe)));
    assert_eq!(PresetProgrammed::try_from(0xfe), Err(RdmError::InvalidPresetProgrammed(0xfe)));
    assert_eq!(MergeMode::try_from(0xfe), Err(RdmError::InvalidMergeMode(0xfe)));
    assert_eq!(DhcpMode::try_from(0xfe), Err(RdmError::InvalidDhcpMode(0xfe)));
    assert_eq!(DiscoveryState::try_from(0x7f), Err(RdmError::InvalidDiscoveryState(0x7f)));
    assert_eq!(EndpointMode::try_from(0xfe), Err(RdmError::InvalidEndpointMode(0xfe)));
    assert_eq!(EndpointType::try_from(0xfe), Err(RdmError::InvalidEndpointType(0xfe)));
    assert_eq!(ResponseType::try_from(0xfe), Err(RdmError::InvalidResponseType(0xfe)));
    assert_eq!(
        ResponseNackReasonCode::try_from(0x00fe),
        Err(RdmError::InvalidNackReasonCode(0x00fe))
    );
    assert_eq!(PinCode::try_from(10000), Err(RdmError::InvalidPinCode(10000)));
    assert_eq!(PinCode::try_from(9999), Ok(PinCode(9999)));
}

#[test]
fn frame_views_check_the_start_code_and_length() {
    assert_eq!(RdmFrameView::from_bytes(&[0x00, 0x01, 0x18]), Err(RdmError::InvalidStartCode));
    assert_eq!(RdmFrameView::from_bytes(&[0xcc, 0x01, 0x18, 0x00]), Err(RdmError::MalformedPacket));
    let bytes = [
        0xcc, 0x01, 0x18, 0x01, 0x02, 0x03, 0x04, 0x05, 0x06, 0x06, 0x05, 0x04, 0x03, 0x02, 0x01,
        0x00, 0x01, 0x00, 0x00, 0x00, 0x20, 0x10, 0x00, 0x00, 0x01, 0x40, 0xaa, 0xbb,
    ];
    let view = RdmFrameView::from_bytes(&bytes).unwrap();
    assert_eq!(view.as_bytes(), &bytes[..26]);
    assert_eq!(view.message_length(), 0x18);
    assert_eq!(view.command_class(), Ok(CommandClass::GetCommand));
}
