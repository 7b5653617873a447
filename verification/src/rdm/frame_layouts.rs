//! Where each field of a request or response frame stands in its bytes.

use crate::rdm::common::{CommandClass, DeviceUID, SubDeviceId};
use crate::rdm::parameter::ParameterId;
use crate::rdm::request::{spec_decode_request, spec_request_header, RdmRequest};
use crate::rdm::response::{spec_decode_frame_response, RdmFrameResponse, ResponseType};
use crate::rdm::utils::checksum_spec;
use crate::rdm::wire::FixedWire;
use vstd::prelude::*;

verus! {

/// The UID that six bytes stand for: a big endian manufacturer identifier of two bytes, then a big
/// endian device identifier of four.
pub open spec fn uid_at(bytes: Seq<u8>, at: int) -> DeviceUID {
    DeviceUID {
        manufacturer_id: (bytes[at] as int * 0x100 + bytes[at + 1] as int) as u16,
        device_id: (bytes[at + 2] as int * 0x100_0000 + bytes[at + 3] as int * 0x1_0000 + bytes[at + 4] as int * 0x100
            + bytes[at + 5] as int) as u32,
    }
}

/// The big endian 16 bit value at `at`.
pub open spec fn u16_at(bytes: Seq<u8>, at: int) -> u16 {
    (bytes[at] as int * 0x100 + bytes[at + 1] as int) as u16
}

/// A 16 bit checksum is below 0x10000.
pub proof fn lemma_checksum_bound(bytes: Seq<u8>)
    ensures
        checksum_spec(bytes) < 0x1_0000,
{
}

/// A request frame holds, in order: the start code 0xcc and the sub start code 0x01; the message
/// length, 24 plus the length of the parameter data; the destination UID; the source UID; the
/// transaction number; the port; a message count of zero; the sub-device; the command class; the
/// parameter identifier, big endian; the length of the parameter data; the data; and the 16 bit
/// sum of all bytes before it, big endian.
pub proof fn lemma_request_frame_layout(r: RdmRequest)
    ensures
        ({
            let e = r.spec_encode();
            let pd = r.parameter.spec_encoding();
            let n = pd.len() as int;
            let sub = r.sub_device_id.spec_to_u16();
            let pid = r.parameter.spec_parameter_id().spec_to_u16();
            let sum = checksum_spec(e.subrange(0, 24 + n));
            &&& e.len() == 26 + n
            &&& e[0] == 0xccu8
            &&& e[1] == 0x01u8
            &&& e[2] == (24 + n) as u8
            &&& e.subrange(3, 9) == r.destination_uid.spec_wire()
            &&& e.subrange(9, 15) == r.source_uid.spec_wire()
            &&& e[15] == r.transaction_number
            &&& e[16] == r.port_id
            &&& e[17] == 0u8
            &&& e[18] == (sub / 0x100) as u8
            &&& e[19] == (sub % 0x100) as u8
            &&& e[20] == r.parameter.spec_command_class().spec_to_u8()
            &&& e[21] == (pid / 0x100) as u8
            &&& e[22] == (pid % 0x100) as u8
            &&& e[23] == n as u8
            &&& e.subrange(24, 24 + n) == pd
            &&& e[24 + n] == (sum / 0x100) as u8
            &&& e[25 + n] == (sum % 0x100) as u8
        }),
{
    let pd = r.parameter.spec_encoding();
    let n = pd.len() as int;
    let cc = r.parameter.spec_command_class();
    let p = r.parameter.spec_parameter_id();
    r.destination_uid.lemma_wire_layout();
    r.source_uid.lemma_wire_layout();
    SubDeviceId::lemma_wire_code(r.sub_device_id, 0, 0);
    CommandClass::lemma_wire_code(cc, 0);
    ParameterId::lemma_wire_code(p, 0, 0);
    let h = spec_request_header(r.destination_uid, r.source_uid, r.transaction_number, r.port_id, r.sub_device_id, cc, p, pd);
    let dw = r.destination_uid.spec_wire();
    let sw = r.source_uid.spec_wire();
    let sub = r.sub_device_id.spec_to_u16();
    let pid = p.spec_to_u16();
    let h2 = seq![0xccu8, 0x01u8, (24 + n) as u8] + dw + sw + seq![r.transaction_number, r.port_id, 0u8]
        + seq![(sub / 0x100) as u8, (sub % 0x100) as u8] + seq![cc.spec_to_u8()] + seq![(pid / 0x100) as u8, (pid % 0x100) as u8]
        + seq![n as u8];
    assert(h =~= h2);
    let body = h + pd;
    lemma_checksum_bound(body);
    let e = r.spec_encode();
    assert(e =~= body + seq![(checksum_spec(body) / 0x100) as u8, (checksum_spec(body) % 0x100) as u8]);
    assert(e.subrange(0, 24 + n) =~= body);
    assert(e.subrange(24, 24 + n) =~= pd);
    assert(e.subrange(3, 9) =~= dw);
    assert(e.subrange(9, 15) =~= sw);
}

/// A response frame holds, in order: the start code 0xcc and the sub start code 0x01; the message
/// length, 24 plus the length of the parameter data; the destination UID; the source UID; the
/// transaction number; the response type; the message count; the sub-device; the command class;
/// the parameter identifier, big endian; the length of the parameter data; the data; and the 16
/// bit sum of all bytes before it, big endian.
pub proof fn lemma_response_frame_layout(f: RdmFrameResponse)
    ensures
        ({
            let e = f.spec_encode();
            let pd = f.parameter_data.spec_encode();
            let n = pd.len() as int;
            let sub = f.sub_device_id.spec_to_u16();
            let pid = f.parameter_id.spec_to_u16();
            let sum = checksum_spec(e.subrange(0, 24 + n));
            &&& e.len() == 26 + n
            &&& e[0] == 0xccu8
            &&& e[1] == 0x01u8
            &&& e[2] == (24 + n) as u8
            &&& e.subrange(3, 9) == f.destination_uid.spec_wire()
            &&& e.subrange(9, 15) == f.source_uid.spec_wire()
            &&& e[15] == f.transaction_number
            &&& e[16] == f.response_type.spec_to_u8()
            &&& e[17] == f.message_count
            &&& e[18] == (sub / 0x100) as u8
            &&& e[19] == (sub % 0x100) as u8
            &&& e[20] == f.command_class.spec_to_u8()
            &&& e[21] == (pid / 0x100) as u8
            &&& e[22] == (pid % 0x100) as u8
            &&& e[23] == n as u8
            &&& e.subrange(24, 24 + n) == pd
            &&& e[24 + n] == (sum / 0x100) as u8
            &&& e[25 + n] == (sum % 0x100) as u8
        }),
{
    let pd = f.parameter_data.spec_encode();
    let n = pd.len() as int;
    f.destination_uid.lemma_wire_layout();
    f.source_uid.lemma_wire_layout();
    SubDeviceId::lemma_wire_code(f.sub_device_id, 0, 0);
    CommandClass::lemma_wire_code(f.command_class, 0);
    ResponseType::lemma_wire_code(f.response_type, 0);
    ParameterId::lemma_wire_code(f.parameter_id, 0, 0);
    let dw = f.destination_uid.spec_wire();
    let sw = f.source_uid.spec_wire();
    let sub = f.sub_device_id.spec_to_u16();
    let pid = f.parameter_id.spec_to_u16();
    let body = seq![0xccu8, 0x01u8, (24 + n) as u8] + dw + sw + seq![f.transaction_number] + seq![f.response_type.spec_to_u8()]
        + seq![f.message_count] + seq![(sub / 0x100) as u8, (sub % 0x100) as u8] + seq![f.command_class.spec_to_u8()]
        + seq![(pid / 0x100) as u8, (pid % 0x100) as u8] + seq![n as u8] + pd;
    lemma_checksum_bound(body);
    let e = f.spec_encode();
    assert(e =~= body + seq![(checksum_spec(body) / 0x100) as u8, (checksum_spec(body) % 0x100) as u8]);
    assert(e.subrange(0, 24 + n) =~= body);
    assert(e.subrange(24, 24 + n) =~= pd);
    assert(e.subrange(3, 9) =~= dw);
    assert(e.subrange(9, 15) =~= sw);
}

/// A decoded request frame takes its header fields from their bytes: the UIDs from bytes 3 and 9,
/// the transaction number from byte 15, the port from byte 16 and the sub-device from bytes 18
/// and 19.
pub proof fn lemma_request_frame_read(bytes: Seq<u8>)
    ensures
        spec_decode_request(bytes) matches Ok(r) ==> {
            &&& r.destination_uid == uid_at(bytes, 3)
            &&& r.source_uid == uid_at(bytes, 9)
            &&& r.transaction_number == bytes[15]
            &&& r.port_id == bytes[16]
            &&& r.sub_device_id == SubDeviceId::spec_from_u16(u16_at(bytes, 18))
        },
{
    if spec_decode_request(bytes) is Ok {
        DeviceUID::lemma_read_layout(bytes.subrange(3, 9));
        DeviceUID::lemma_read_layout(bytes.subrange(9, 15));
        SubDeviceId::lemma_wire_code(SubDeviceId::RootDevice, bytes[18], bytes[19]);
        assert(bytes.subrange(18, 20) =~= seq![bytes[18], bytes[19]]);
    }
}

/// A decoded response frame takes its header fields from their bytes: the UIDs from bytes 3 and 9,
/// the transaction number from byte 15, the response type from byte 16, the message count from
/// byte 17, the sub-device from bytes 18 and 19, the command class from byte 20 and the parameter
/// identifier from bytes 21 and 22.
pub proof fn lemma_response_frame_read(bytes: Seq<u8>)
    ensures
        spec_decode_frame_response(bytes) matches Ok(f) ==> {
            &&& f.destination_uid == uid_at(bytes, 3)
            &&& f.source_uid == uid_at(bytes, 9)
            &&& f.transaction_number == bytes[15]
            &&& ResponseType::spec_try_from_u8(bytes[16]) == Ok::<ResponseType, crate::rdm::error::RdmError>(f.response_type)
            &&& f.message_count == bytes[17]
            &&& f.sub_device_id == SubDeviceId::spec_from_u16(u16_at(bytes, 18))
            &&& CommandClass::spec_try_from_u8(bytes[20]) == Ok::<CommandClass, crate::rdm::error::RdmError>(f.command_class)
            &&& f.parameter_id == ParameterId::spec_from_u16(u16_at(bytes, 21))
        },
{
    if spec_decode_frame_response(bytes) is Ok {
        DeviceUID::lemma_read_layout(bytes.subrange(3, 9));
        DeviceUID::lemma_read_layout(bytes.subrange(9, 15));
        SubDeviceId::lemma_wire_code(SubDeviceId::RootDevice, bytes[18], bytes[19]);
        assert(bytes.subrange(18, 20) =~= seq![bytes[18], bytes[19]]);
        ParameterId::lemma_wire_code(ParameterId::DeviceHours, bytes[21], bytes[22]);
        assert(bytes.subrange(21, 23) =~= seq![bytes[21], bytes[22]]);
    }
}

} // verus!
