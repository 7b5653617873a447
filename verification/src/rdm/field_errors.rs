//! Which field of response parameter data holds a value that its type does not name, and the
//! error that the type reports for that value.

use crate::rdm::common::CommandClass;
use crate::rdm::error::{ParameterDataError, RdmError};
use crate::rdm::parameter::e120::{
    DisplayInvertMode, ImplementedCommandClass, LampOnMode, LampState, ParameterDataType,
    PowerState, SensorType, SensorUnit, SensorUnitPrefix, StatusType,
};
use crate::rdm::parameter::e133::{BrokerState, StaticConfigType};
use crate::rdm::parameter::e137_1::IdentifyMode;
use crate::rdm::parameter::e137_7::{DiscoveryState, EndpointMode, EndpointType};
use crate::rdm::parameter::ParameterId;
use vstd::prelude::*;

verus! {

/// The error of a read that failed, or `otherwise` when it succeeded.
pub open spec fn error_or<T>(r: Result<T, RdmError>, otherwise: RdmError) -> RdmError {
    match r {
        Err(e) => e,
        Ok(_) => otherwise,
    }
}

/// Malformed data whose fields all name values of their types.
pub open spec fn malformed() -> RdmError {
    RdmError::ParameterData(ParameterDataError::MalformedData)
}

/// The error of the first status message, of 9 bytes each, whose status type (its third byte)
/// names no status type.
pub open spec fn spec_status_list_error(buf: Seq<u8>) -> RdmError
    decreases buf.len(),
{
    if buf.len() < 9 {
        malformed()
    } else {
        error_or(StatusType::spec_try_from_u8(buf[2]), spec_status_list_error(buf.subrange(9, buf.len() as int)))
    }
}

/// The error of the first endpoint entry, of 3 bytes each, whose endpoint type (its third byte)
/// names no endpoint type.
pub open spec fn spec_endpoint_list_error(buf: Seq<u8>) -> RdmError
    decreases buf.len(),
{
    if buf.len() < 3 {
        malformed()
    } else {
        error_or(EndpointType::spec_try_from_u8(buf[2]), spec_endpoint_list_error(buf.subrange(3, buf.len() as int)))
    }
}

/// The error for response parameter data in which a field holds a value that its type does not
/// name: the error that the type of the first such field reports for its value, in the order in
/// which the fields are read. Data in which no such field is found is malformed data.
pub open spec fn spec_field_error(command_class: CommandClass, parameter_id: ParameterId, buf: Seq<u8>) -> RdmError {
    match (command_class, parameter_id) {
        (CommandClass::GetCommandResponse, ParameterId::StatusMessages) => spec_status_list_error(buf),
        (CommandClass::GetCommandResponse, ParameterId::SubDeviceIdStatusReportThreshold) => if buf.len() < 1 {
            malformed()
        } else {
            error_or(StatusType::spec_try_from_u8(buf[0]), malformed())
        },
        (CommandClass::GetCommandResponse, ParameterId::ParameterDescription) => if buf.len() < 8 {
            malformed()
        } else {
            error_or(
                ParameterDataType::spec_try_from_u8(buf[3]),
                error_or(
                    ImplementedCommandClass::spec_try_from_u8(buf[4]),
                    error_or(SensorUnit::spec_try_from_u8(buf[6]), error_or(SensorUnitPrefix::spec_try_from_u8(buf[7]), malformed())),
                ),
            )
        },
        (CommandClass::GetCommandResponse, ParameterId::SensorDefinition) => if buf.len() < 4 {
            malformed()
        } else {
            error_or(
                SensorType::spec_try_from_u8(buf[1]),
                error_or(SensorUnit::spec_try_from_u8(buf[2]), error_or(SensorUnitPrefix::spec_try_from_u8(buf[3]), malformed())),
            )
        },
        (CommandClass::GetCommandResponse, ParameterId::LampState) => if buf.len() < 1 {
            malformed()
        } else {
            error_or(LampState::spec_try_from_u8(buf[0]), malformed())
        },
        (CommandClass::GetCommandResponse, ParameterId::LampOnMode) => if buf.len() < 1 {
            malformed()
        } else {
            error_or(LampOnMode::spec_try_from_u8(buf[0]), malformed())
        },
        (CommandClass::GetCommandResponse, ParameterId::DisplayInvert) => if buf.len() < 1 {
            malformed()
        } else {
            error_or(DisplayInvertMode::spec_try_from_u8(buf[0]), malformed())
        },
        (CommandClass::GetCommandResponse, ParameterId::PowerState) => if buf.len() < 1 {
            malformed()
        } else {
            error_or(PowerState::spec_try_from_u8(buf[0]), malformed())
        },
        (CommandClass::GetCommandResponse, ParameterId::IdentifyMode) => if buf.len() < 1 {
            malformed()
        } else {
            error_or(IdentifyMode::spec_try_from_u8(buf[0]), malformed())
        },
        (CommandClass::GetCommandResponse, ParameterId::EndpointList) => if buf.len() < 4 {
            malformed()
        } else {
            spec_endpoint_list_error(buf.subrange(4, buf.len() as int))
        },
        (CommandClass::GetCommandResponse, ParameterId::EndpointMode) => if buf.len() < 3 {
            malformed()
        } else {
            error_or(EndpointMode::spec_try_from_u8(buf[2]), malformed())
        },
        (CommandClass::GetCommandResponse, ParameterId::DiscoveryState) => if buf.len() < 5 {
            malformed()
        } else {
            error_or(DiscoveryState::spec_try_from_u8(buf[4]), malformed())
        },
        (CommandClass::GetCommandResponse, ParameterId::ComponentScope) => if buf.len() < 66 {
            malformed()
        } else {
            error_or(StaticConfigType::spec_try_from_u8(buf[65]), malformed())
        },
        (CommandClass::GetCommandResponse, ParameterId::BrokerStatus) => if buf.len() < 2 {
            malformed()
        } else {
            error_or(BrokerState::spec_try_from_u8(buf[1]), malformed())
        },
        _ => malformed(),
    }
}

fn status_list_error(buf: &[u8]) -> (r: RdmError)
    ensures
        r == spec_status_list_error(buf@),
    decreases buf@.len(),
{
    if buf.len() < 9 {
        return RdmError::ParameterData(ParameterDataError::MalformedData);
    }
    match StatusType::try_from_u8(buf[2]) {
        Err(e) => e,
        Ok(_) => status_list_error(vstd::slice::slice_subrange(buf, 9, buf.len())),
    }
}

fn endpoint_list_error(buf: &[u8]) -> (r: RdmError)
    ensures
        r == spec_endpoint_list_error(buf@),
    decreases buf@.len(),
{
    if buf.len() < 3 {
        return RdmError::ParameterData(ParameterDataError::MalformedData);
    }
    match EndpointType::try_from_u8(buf[2]) {
        Err(e) => e,
        Ok(_) => endpoint_list_error(vstd::slice::slice_subrange(buf, 3, buf.len())),
    }
}

/// The error for response parameter data in which a field holds a value that its type does not name.
pub fn field_error(command_class: CommandClass, parameter_id: ParameterId, buf: &[u8]) -> (r: RdmError)
    ensures
        r == spec_field_error(command_class, parameter_id, buf@),
{
    let m = RdmError::ParameterData(ParameterDataError::MalformedData);
    match (command_class, parameter_id) {
        (CommandClass::GetCommandResponse, ParameterId::StatusMessages) => status_list_error(buf),
        (CommandClass::GetCommandResponse, ParameterId::SubDeviceIdStatusReportThreshold) => {
            if buf.len() < 1 {
                return m;
            }
            match StatusType::try_from_u8(buf[0]) {
                Err(e) => e,
                Ok(_) => m,
            }
        },
        (CommandClass::GetCommandResponse, ParameterId::ParameterDescription) => {
            if buf.len() < 8 {
                return m;
            }
            if let Err(e) = ParameterDataType::try_from_u8(buf[3]) {
                return e;
            }
            if let Err(e) = ImplementedCommandClass::try_from_u8(buf[4]) {
                return e;
            }
            if let Err(e) = SensorUnit::try_from_u8(buf[6]) {
                return e;
            }
            match SensorUnitPrefix::try_from_u8(buf[7]) {
                Err(e) => e,
                Ok(_) => m,
            }
        },
        (CommandClass::GetCommandResponse, ParameterId::SensorDefinition) => {
            if buf.len() < 4 {
                return m;
            }
            if let Err(e) = SensorType::try_from_u8(buf[1]) {
                return e;
            }
            if let Err(e) = SensorUnit::try_from_u8(buf[2]) {
                return e;
            }
            match SensorUnitPrefix::try_from_u8(buf[3]) {
                Err(e) => e,
                Ok(_) => m,
            }
        },
        (CommandClass::GetCommandResponse, ParameterId::LampState) => {
            if buf.len() < 1 {
                return m;
            }
            match LampState::try_from_u8(buf[0]) {
                Err(e) => e,
                Ok(_) => m,
            }
        },
        (CommandClass::GetCommandResponse, ParameterId::LampOnMode) => {
            if buf.len() < 1 {
                return m;
            }
            match LampOnMode::try_from_u8(buf[0]) {
                Err(e) => e,
                Ok(_) => m,
            }
        },
        (CommandClass::GetCommandResponse, ParameterId::DisplayInvert) => {
            if buf.len() < 1 {
                return m;
            }
            match DisplayInvertMode::try_from_u8(buf[0]) {
                Err(e) => e,
                Ok(_) => m,
            }
        },
        (CommandClass::GetCommandResponse, ParameterId::PowerState) => {
            if buf.len() < 1 {
                return m;
            }
            match PowerState::try_from_u8(buf[0]) {
                Err(e) => e,
                Ok(_) => m,
            }
        },
        (CommandClass::GetCommandResponse, ParameterId::IdentifyMode) => {
            if buf.len() < 1 {
                return m;
            }
            match IdentifyMode::try_from_u8(buf[0]) {
                Err(e) => e,
                Ok(_) => m,
            }
        },
        (CommandClass::GetCommandResponse, ParameterId::EndpointList) => {
            if buf.len() < 4 {
                return m;
            }
            endpoint_list_error(vstd::slice::slice_subrange(buf, 4, buf.len()))
        },
        (CommandClass::GetCommandResponse, ParameterId::EndpointMode) => {
            if buf.len() < 3 {
                return m;
            }
            match EndpointMode::try_from_u8(buf[2]) {
                Err(e) => e,
                Ok(_) => m,
            }
        },
        (CommandClass::GetCommandResponse, ParameterId::DiscoveryState) => {
            if buf.len() < 5 {
                return m;
            }
            match DiscoveryState::try_from_u8(buf[4]) {
                Err(e) => e,
                Ok(_) => m,
            }
        },
        (CommandClass::GetCommandResponse, ParameterId::ComponentScope) => {
            if buf.len() < 66 {
                return m;
            }
            match StaticConfigType::try_from_u8(buf[65]) {
                Err(e) => e,
                Ok(_) => m,
            }
        },
        (CommandClass::GetCommandResponse, ParameterId::BrokerStatus) => {
            if buf.len() < 2 {
                return m;
            }
            match BrokerState::try_from_u8(buf[1]) {
                Err(e) => e,
                Ok(_) => m,
            }
        },
        _ => m,
    }
}

} // verus!
