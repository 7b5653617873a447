//! Parameters that users of the library define for themselves, such as manufacturer specific
//! ones, and the requests that carry them.

use crate::rdm::common::{CommandClass, DeviceUID, SubDeviceId};
use crate::rdm::error::{ParameterDataError, RdmError};
use crate::rdm::parameter::lists::ParameterDataBuffer;
use crate::rdm::parameter::ParameterId;
use crate::rdm::request::{CustomRequestParameter, RdmRequest, RequestParameter};
use vstd::prelude::*;

verus! {

/// A parameter that a user of the library defines: its command class, its identifier and how
/// its data is written. Nothing is assumed of an implementation: a request that carries one is
/// built from whatever its methods return.
pub trait RdmParameter {
    fn command_class(&self) -> CommandClass;

    fn parameter_id(&self) -> ParameterId;

    /// Writes the parameter data at the start of `buf` and returns how many bytes it wrote.
    fn encode_parameter_data(&self, buf: &mut [u8]) -> Result<usize, ParameterDataError>;
}

/// The request that carries a user's parameter, from its command class, its identifier, what
/// writing its data returned and the buffer it was written to.
pub open spec fn spec_custom_request<'a>(
    destination_uid: DeviceUID,
    source_uid: DeviceUID,
    transaction_number: u8,
    port_id: u8,
    sub_device_id: SubDeviceId,
    command_class: CommandClass,
    parameter_id: ParameterId,
    written: Result<usize, ParameterDataError>,
    buf: Seq<u8>,
) -> Result<RdmRequest<'a>, RdmError> {
    match written {
        Err(e) => Err(RdmError::ParameterData(e)),
        Ok(n) => if n <= buf.len() && n <= 231 {
            Ok(
                RdmRequest {
                    destination_uid,
                    source_uid,
                    transaction_number,
                    port_id,
                    sub_device_id,
                    parameter: RequestParameter::CustomParameter(
                        CustomRequestParameter {
                            command_class,
                            parameter_id,
                            parameter_data_length: n as u8,
                            parameter_data: ParameterDataBuffer::spec_of_items(buf.subrange(0, n as int)),
                        },
                    ),
                },
            )
        } else {
            Err(
                RdmError::ParameterData(
                    ParameterDataError::BufferTooSmall { provided: 231, required: n },
                ),
            )
        },
    }
}

impl<'a> RdmRequest<'a> {
    /// The request that carries a user's parameter, given its command class and identifier, what
    /// writing its data returned, and the buffer it was written to.
    pub fn from_custom_parameter_data(
        destination_uid: DeviceUID,
        source_uid: DeviceUID,
        transaction_number: u8,
        port_id: u8,
        sub_device_id: SubDeviceId,
        command_class: CommandClass,
        parameter_id: ParameterId,
        written: Result<usize, ParameterDataError>,
        buf: &[u8],
    ) -> (r: Result<Self, RdmError>)
        ensures
            r == spec_custom_request::<'a>(
                destination_uid,
                source_uid,
                transaction_number,
                port_id,
                sub_device_id,
                command_class,
                parameter_id,
                written,
                buf@,
            ),
            r matches Ok(req) ==> req.parameter matches RequestParameter::CustomParameter(c)
                && c.parameter_data.spec_items() == buf@.subrange(0, c.parameter_data_length as int),
    {
        match written {
            Err(e) => Err(RdmError::ParameterData(e)),
            Ok(n) => {
                if n <= buf.len() && n <= 231 {
                    let data = vstd::slice::slice_subrange(buf, 0, n);
                    match ParameterDataBuffer::from_slice(data) {
                        Some(parameter_data) => Ok(
                            RdmRequest {
                                destination_uid,
                                source_uid,
                                transaction_number,
                                port_id,
                                sub_device_id,
                                parameter: RequestParameter::CustomParameter(
                                    CustomRequestParameter {
                                        command_class,
                                        parameter_id,
                                        parameter_data_length: n as u8,
                                        parameter_data,
                                    },
                                ),
                            },
                        ),
                        None => Err(
                            RdmError::ParameterData(
                                ParameterDataError::BufferTooSmall { provided: 231, required: n },
                            ),
                        ),
                    }
                } else {
                    Err(
                        RdmError::ParameterData(
                            ParameterDataError::BufferTooSmall { provided: 231, required: n },
                        ),
                    )
                }
            },
        }
    }

    /// A request that carries a parameter of the user's: its data is written to a buffer of the
    /// largest parameter data length, and the request is built from that, its command class and
    /// its identifier.
    pub fn new_custom_parameter<P: RdmParameter>(
        destination_uid: DeviceUID,
        source_uid: DeviceUID,
        transaction_number: u8,
        port_id: u8,
        sub_device_id: SubDeviceId,
        parameter: P,
    ) -> (r: Result<Self, RdmError>)
        ensures
            exists|
                command_class: CommandClass,
                parameter_id: ParameterId,
                written: Result<usize, ParameterDataError>,
                buf: Seq<u8>,
            |
                buf.len() == 231 && r == spec_custom_request::<'a>(
                    destination_uid,
                    source_uid,
                    transaction_number,
                    port_id,
                    sub_device_id,
                    command_class,
                    parameter_id,
                    written,
                    buf,
                ),
    {
        let mut parameter_data = [0u8; 231];
        let written = parameter.encode_parameter_data(&mut parameter_data);
        let command_class = parameter.command_class();
        let parameter_id = parameter.parameter_id();
        let r = Self::from_custom_parameter_data(
            destination_uid,
            source_uid,
            transaction_number,
            port_id,
            sub_device_id,
            command_class,
            parameter_id,
            written,
            &parameter_data,
        );
        proof {
            assert(parameter_data@.len() == 231);
        }
        r
    }
}

} // verus!
