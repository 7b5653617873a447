//! Parameter data of the E120 responses.

use crate::rdm::common::DeviceUID;
use crate::rdm::error::{ParameterDataError};
use crate::rdm::utils::{copy_encoded, encoded_into};
use crate::rdm::wire::{decode_record, encode_record, lemma_option_roundtrip, lemma_record_roundtrip, read_option, record_decoded, spec_option_decoded, spec_option_valid, spec_option_wire, too_short, write_option, FixedWire};
use vstd::prelude::*;
use vstd::std_specs::convert::{FromSpecImpl, TryFromSpecImpl};
use vstd::string::StringSliceAdditionalSpecFns;
use crate::rdm::parameter::{ParameterId};
use crate::rdm::parameter::e120::{BootSoftwareVersionLabel, DeviceLabel, DeviceModelDescription, DisplayInvertMode, DmxPersonalityDescription, ImplementedCommandClass, Iso639_1, LampOnMode, LampState, ManufacturerLabel, ParameterDataType, ParameterDescriptionLabel, PowerState, PresetPlaybackMode, ProductCategory, ProtocolVersion, SelfTest, SelfTestDescription, SensorDefinitionDescription, SensorType, SensorUnit, SensorUnitPrefix, SlotDescription, SoftwareVersionLabel, StatusIdDescription, StatusType};
use crate::rdm::parameter::lists::{DefaultSlotValueList, DeviceUidList, LanguageList, ParameterIdList, ProductDetailList, SlotInfoList, StatusMessageList};

verus! {

broadcast use vstd::array::group_array_axioms;

#[derive(Clone, Copy, Debug, PartialEq)]
pub struct DiscMuteResponse {
    pub control_field: u16,
    pub binding_uid: Option<DeviceUID>,
}

impl DiscMuteResponse {
    /// The parameter data of the value.
    pub open spec fn spec_encoding(&self) -> Seq<u8> {
        self.control_field.spec_wire() + spec_option_wire(self.binding_uid)
    }

    /// The value that parameter data stands for, or why it stands for none.
    pub open spec fn spec_decoded(buf: Seq<u8>) -> Result<Self, ParameterDataError> {
        if buf.len() < 2 {
            Err(too_short(buf.len(), 2))
        } else if !(<u16 as FixedWire>::spec_read(buf.subrange(0, 2)) is Some) {
            Err(ParameterDataError::MalformedData)
        } else {
            let rest = buf.subrange(2, buf.len() as int);
            match spec_option_decoded::<DeviceUID>(rest) {
                Ok(t) => Ok(DiscMuteResponse { control_field: <u16 as FixedWire>::spec_read(buf.subrange(0, 2)).unwrap(), binding_uid: t }),
                Err(e) => Err(e),
            }
        }
    }

    /// Whether decoding the parameter data gives the value back.
    pub open spec fn spec_encodable(&self) -> bool {
        self.control_field.spec_wire_valid() && spec_option_valid(self.binding_uid)
    }

    /// Appends the parameter data to `out`.
    pub fn write_encoding(&self, out: &mut Vec<u8>)
        ensures
            final(out)@ == old(out)@ + self.spec_encoding(),
    {
        let ghost start = out@;
        self.control_field.write_wire(out);
        write_option(&self.binding_uid, out);
        proof {
            assert(out@ =~= start + self.spec_encoding());
        }
    }

    pub fn size_of(&self) -> (n: usize)
        ensures
            n == self.spec_encoding().len(),
            n <= 8,
    {
        proof {
            self.control_field.lemma_wire();
            match self.binding_uid {
                Some(v) => v.lemma_wire(),
                None => {},
            }
        }
        let mut out: Vec<u8> = Vec::new();
        self.write_encoding(&mut out);
        proof {
            assert(out@ =~= self.spec_encoding());
        }
        out.len()
    }

    pub fn encode_parameter_data(&self, buf: &mut [u8]) -> (r: Result<usize, ParameterDataError>)
        ensures
            encoded_into(old(buf)@, final(buf)@, self.spec_encoding(), r),
    {
        let mut out: Vec<u8> = Vec::new();
        self.write_encoding(&mut out);
        proof {
            assert(out@ =~= self.spec_encoding());
        }
        copy_encoded(buf, out.as_slice())
    }

    pub fn decode_parameter_data(buf: &[u8]) -> (r: Result<Self, ParameterDataError>)
        ensures
            r == Self::spec_decoded(buf@),
    {
        if buf.len() < 2 {
            return Err(ParameterDataError::BufferTooSmall { provided: buf.len(), required: 2 });
        }
        let v0 = match <u16 as FixedWire>::read_wire(buf, 0) {
            Some(v) => v,
            None => return Err(ParameterDataError::MalformedData),
        };
        match read_option::<DeviceUID>(buf, 2) {
            Ok(t) => Ok(DiscMuteResponse { control_field: v0, binding_uid: t }),
            Err(e) => Err(e),
        }
    }

    /// Decoding the parameter data of an encodable value gives it back.
    pub proof fn lemma_roundtrip(&self)
        requires
            self.spec_encodable(),
        ensures
            Self::spec_decoded(self.spec_encoding()) == Ok::<Self, ParameterDataError>(*self),
    {
        let e = self.spec_encoding();
        self.control_field.lemma_wire();
        assert(e.subrange(0, 2) =~= self.control_field.spec_wire());
        assert(e.subrange(2, e.len() as int) =~= spec_option_wire(self.binding_uid));
        lemma_option_roundtrip(self.binding_uid);
    }
}

#[derive(Clone, Copy, Debug, PartialEq)]
pub struct DiscUnMuteResponse {
    pub control_field: u16,
    pub binding_uid: Option<DeviceUID>,
}

impl DiscUnMuteResponse {
    /// The parameter data of the value.
    pub open spec fn spec_encoding(&self) -> Seq<u8> {
        self.control_field.spec_wire() + spec_option_wire(self.binding_uid)
    }

    /// The value that parameter data stands for, or why it stands for none.
    pub open spec fn spec_decoded(buf: Seq<u8>) -> Result<Self, ParameterDataError> {
        if buf.len() < 2 {
            Err(too_short(buf.len(), 2))
        } else if !(<u16 as FixedWire>::spec_read(buf.subrange(0, 2)) is Some) {
            Err(ParameterDataError::MalformedData)
        } else {
            let rest = buf.subrange(2, buf.len() as int);
            match spec_option_decoded::<DeviceUID>(rest) {
                Ok(t) => Ok(DiscUnMuteResponse { control_field: <u16 as FixedWire>::spec_read(buf.subrange(0, 2)).unwrap(), binding_uid: t }),
                Err(e) => Err(e),
            }
        }
    }

    /// Whether decoding the parameter data gives the value back.
    pub open spec fn spec_encodable(&self) -> bool {
        self.control_field.spec_wire_valid() && spec_option_valid(self.binding_uid)
    }

    /// Appends the parameter data to `out`.
    pub fn write_encoding(&self, out: &mut Vec<u8>)
        ensures
            final(out)@ == old(out)@ + self.spec_encoding(),
    {
        let ghost start = out@;
        self.control_field.write_wire(out);
        write_option(&self.binding_uid, out);
        proof {
            assert(out@ =~= start + self.spec_encoding());
        }
    }

    pub fn size_of(&self) -> (n: usize)
        ensures
            n == self.spec_encoding().len(),
            n <= 8,
    {
        proof {
            self.control_field.lemma_wire();
            match self.binding_uid {
                Some(v) => v.lemma_wire(),
                None => {},
            }
        }
        let mut out: Vec<u8> = Vec::new();
        self.write_encoding(&mut out);
        proof {
            assert(out@ =~= self.spec_encoding());
        }
        out.len()
    }

    pub fn encode_parameter_data(&self, buf: &mut [u8]) -> (r: Result<usize, ParameterDataError>)
        ensures
            encoded_into(old(buf)@, final(buf)@, self.spec_encoding(), r),
    {
        let mut out: Vec<u8> = Vec::new();
        self.write_encoding(&mut out);
        proof {
            assert(out@ =~= self.spec_encoding());
        }
        copy_encoded(buf, out.as_slice())
    }

    pub fn decode_parameter_data(buf: &[u8]) -> (r: Result<Self, ParameterDataError>)
        ensures
            r == Self::spec_decoded(buf@),
    {
        if buf.len() < 2 {
            return Err(ParameterDataError::BufferTooSmall { provided: buf.len(), required: 2 });
        }
        let v0 = match <u16 as FixedWire>::read_wire(buf, 0) {
            Some(v) => v,
            None => return Err(ParameterDataError::MalformedData),
        };
        match read_option::<DeviceUID>(buf, 2) {
            Ok(t) => Ok(DiscUnMuteResponse { control_field: v0, binding_uid: t }),
            Err(e) => Err(e),
        }
    }

    /// Decoding the parameter data of an encodable value gives it back.
    pub proof fn lemma_roundtrip(&self)
        requires
            self.spec_encodable(),
        ensures
            Self::spec_decoded(self.spec_encoding()) == Ok::<Self, ParameterDataError>(*self),
    {
        let e = self.spec_encoding();
        self.control_field.lemma_wire();
        assert(e.subrange(0, 2) =~= self.control_field.spec_wire());
        assert(e.subrange(2, e.len() as int) =~= spec_option_wire(self.binding_uid));
        lemma_option_roundtrip(self.binding_uid);
    }
}

#[derive(Clone, Copy, Debug, PartialEq)]
pub struct GetProxiedDevicesResponse {
    pub device_uids: DeviceUidList,
}

impl GetProxiedDevicesResponse {
    /// The parameter data of the value.
    pub open spec fn spec_encoding(&self) -> Seq<u8> {
        self.device_uids.spec_encode_items()
    }

    /// The value that parameter data stands for, or why it stands for none.
    pub open spec fn spec_decoded(buf: Seq<u8>) -> Result<Self, ParameterDataError> {
        let rest = buf.subrange(0, buf.len() as int);
        match DeviceUidList::spec_decode_items(rest) {
            Ok(t) => Ok(GetProxiedDevicesResponse { device_uids: t }),
            Err(e) => Err(e),
        }
    }

    /// Whether decoding the parameter data gives the value back.
    pub open spec fn spec_encodable(&self) -> bool {
        self.device_uids.spec_items_encodable()
    }

    /// Appends the parameter data to `out`.
    pub fn write_encoding(&self, out: &mut Vec<u8>)
        ensures
            final(out)@ == old(out)@ + self.spec_encoding(),
    {
        let ghost start = out@;
        self.device_uids.write_items_to(out);
        proof {
            assert(out@ =~= start + self.spec_encoding());
        }
    }

    pub fn size_of(&self) -> (n: usize)
        ensures
            n == self.spec_encoding().len(),
            n <= 228,
    {
        proof {
            use_type_invariant(&self.device_uids);
            self.device_uids.lemma_encode_items_len();
        }
        let mut out: Vec<u8> = Vec::new();
        self.write_encoding(&mut out);
        proof {
            assert(out@ =~= self.spec_encoding());
        }
        out.len()
    }

    pub fn encode_parameter_data(&self, buf: &mut [u8]) -> (r: Result<usize, ParameterDataError>)
        ensures
            encoded_into(old(buf)@, final(buf)@, self.spec_encoding(), r),
    {
        let mut out: Vec<u8> = Vec::new();
        self.write_encoding(&mut out);
        proof {
            assert(out@ =~= self.spec_encoding());
        }
        copy_encoded(buf, out.as_slice())
    }

    pub fn decode_parameter_data(buf: &[u8]) -> (r: Result<Self, ParameterDataError>)
        ensures
            r == Self::spec_decoded(buf@),
    {
        match DeviceUidList::decode_items(buf, 0) {
            Ok(t) => Ok(GetProxiedDevicesResponse { device_uids: t }),
            Err(e) => Err(e),
        }
    }

    /// Decoding the parameter data of an encodable value gives it back.
    pub proof fn lemma_roundtrip(&self)
        requires
            self.spec_encodable(),
        ensures
            Self::spec_decoded(self.spec_encoding()) == Ok::<Self, ParameterDataError>(*self),
    {
        let e = self.spec_encoding();
        assert(e.subrange(0, e.len() as int) =~= self.device_uids.spec_encode_items());
        self.device_uids.lemma_items_roundtrip();
    }
}

#[derive(Clone, Copy, Debug, PartialEq, Eq, Structural)]
pub struct GetProxiedDeviceCountResponse {
    pub device_count: u16,
    pub list_change: bool,
}

impl<'a> FixedWire<'a> for GetProxiedDeviceCountResponse {
    open spec fn spec_size() -> nat {
        3
    }

    open spec fn spec_wire(&self) -> Seq<u8> {
        self.device_count.spec_wire() + self.list_change.spec_wire()
    }

    open spec fn spec_read(bytes: Seq<u8>) -> Option<Self> {
        if <u16 as FixedWire>::spec_read(bytes.subrange(0, 2)) is Some
            && <bool as FixedWire>::spec_read(bytes.subrange(2, 3)) is Some {
            Some(GetProxiedDeviceCountResponse {
                device_count: <u16 as FixedWire>::spec_read(bytes.subrange(0, 2)).unwrap(),
                list_change: <bool as FixedWire>::spec_read(bytes.subrange(2, 3)).unwrap(),
            })
        } else {
            None
        }
    }

    open spec fn spec_wire_valid(&self) -> bool {
        self.device_count.spec_wire_valid() && self.list_change.spec_wire_valid()
    }

    fn wire_size() -> (n: usize) {
        3
    }

    fn write_wire(&self, out: &mut Vec<u8>) {
        let ghost start = out@;
        self.device_count.write_wire(out);
        self.list_change.write_wire(out);
        proof {
            assert(out@ =~= start + self.spec_wire());
        }
    }

    fn read_wire(buf: &'a [u8], pos: usize) -> (r: Option<Self>) {
        let _len = buf.len();
        let ghost bytes = buf@.subrange(pos as int, pos + 3);
        proof {
            assert(bytes.subrange(0, 2) =~= buf@.subrange(pos + 0, pos + 2));
            assert(bytes.subrange(2, 3) =~= buf@.subrange(pos + 2, pos + 3));
        }
        let v0 = match <u16 as FixedWire>::read_wire(buf, pos) {
            Some(v) => v,
            None => return None,
        };
        let v1 = match <bool as FixedWire>::read_wire(buf, pos + 2) {
            Some(v) => v,
            None => return None,
        };
        Some(GetProxiedDeviceCountResponse { device_count: v0, list_change: v1 })
    }

    proof fn lemma_wire(&self) {
        self.device_count.lemma_wire();
        self.list_change.lemma_wire();
        let w = self.spec_wire();
        assert(w.subrange(0, 2) =~= self.device_count.spec_wire());
        assert(w.subrange(2, 3) =~= self.list_change.spec_wire());
        if self.spec_wire_valid() {
            assert(<u16 as FixedWire>::spec_read(w.subrange(0, 2)) == Some(self.device_count));
            assert(<bool as FixedWire>::spec_read(w.subrange(2, 3)) == Some(self.list_change));
        }
    }
}

impl GetProxiedDeviceCountResponse {
    /// The parameter data of the value.
    pub open spec fn spec_encoding(&self) -> Seq<u8> {
        self.spec_wire()
    }

    /// The value that parameter data stands for, or why it stands for none.
    pub open spec fn spec_decoded(buf: Seq<u8>) -> Result<Self, ParameterDataError> {
        record_decoded::<Self>(buf)
    }

    /// Whether decoding the parameter data gives the value back.
    pub open spec fn spec_encodable(&self) -> bool {
        self.spec_wire_valid()
    }

    pub fn size_of(&self) -> (n: usize)
        ensures
            n == self.spec_encoding().len(),
            n <= 3,
    {
        proof {
            self.lemma_wire();
        }
        Self::wire_size()
    }

    /// Appends the parameter data to `out`.
    pub fn write_encoding(&self, out: &mut Vec<u8>)
        ensures
            final(out)@ == old(out)@ + self.spec_encoding(),
    {
        self.write_wire(out);
    }

    pub fn encode_parameter_data(&self, buf: &mut [u8]) -> (r: Result<usize, ParameterDataError>)
        ensures
            encoded_into(old(buf)@, final(buf)@, self.spec_encoding(), r),
    {
        encode_record(self, buf)
    }

    pub fn decode_parameter_data(buf: &[u8]) -> (r: Result<Self, ParameterDataError>)
        ensures
            r == Self::spec_decoded(buf@),
    {
        decode_record(buf)
    }

    /// Decoding the parameter data of an encodable value gives it back.
    pub proof fn lemma_roundtrip(&self)
        requires
            self.spec_encodable(),
        ensures
            Self::spec_decoded(self.spec_encoding()) == Ok::<Self, ParameterDataError>(*self),
    {
        lemma_record_roundtrip(*self);
    }
}

#[derive(Clone, Copy, Debug, PartialEq, Eq, Structural)]
pub struct GetCommsStatusResponse {
    pub short_message: u16,
    pub length_mismatch: u16,
    pub checksum_fail: u16,
}

impl<'a> FixedWire<'a> for GetCommsStatusResponse {
    open spec fn spec_size() -> nat {
        6
    }

    open spec fn spec_wire(&self) -> Seq<u8> {
        self.short_message.spec_wire() + self.length_mismatch.spec_wire() + self.checksum_fail.spec_wire()
    }

    open spec fn spec_read(bytes: Seq<u8>) -> Option<Self> {
        if <u16 as FixedWire>::spec_read(bytes.subrange(0, 2)) is Some
            && <u16 as FixedWire>::spec_read(bytes.subrange(2, 4)) is Some
            && <u16 as FixedWire>::spec_read(bytes.subrange(4, 6)) is Some {
            Some(GetCommsStatusResponse {
                short_message: <u16 as FixedWire>::spec_read(bytes.subrange(0, 2)).unwrap(),
                length_mismatch: <u16 as FixedWire>::spec_read(bytes.subrange(2, 4)).unwrap(),
                checksum_fail: <u16 as FixedWire>::spec_read(bytes.subrange(4, 6)).unwrap(),
            })
        } else {
            None
        }
    }

    open spec fn spec_wire_valid(&self) -> bool {
        self.short_message.spec_wire_valid() && self.length_mismatch.spec_wire_valid() && self.checksum_fail.spec_wire_valid()
    }

    fn wire_size() -> (n: usize) {
        6
    }

    fn write_wire(&self, out: &mut Vec<u8>) {
        let ghost start = out@;
        self.short_message.write_wire(out);
        self.length_mismatch.write_wire(out);
        self.checksum_fail.write_wire(out);
        proof {
            assert(out@ =~= start + self.spec_wire());
        }
    }

    fn read_wire(buf: &'a [u8], pos: usize) -> (r: Option<Self>) {
        let _len = buf.len();
        let ghost bytes = buf@.subrange(pos as int, pos + 6);
        proof {
            assert(bytes.subrange(0, 2) =~= buf@.subrange(pos + 0, pos + 2));
            assert(bytes.subrange(2, 4) =~= buf@.subrange(pos + 2, pos + 4));
            assert(bytes.subrange(4, 6) =~= buf@.subrange(pos + 4, pos + 6));
        }
        let v0 = match <u16 as FixedWire>::read_wire(buf, pos) {
            Some(v) => v,
            None => return None,
        };
        let v1 = match <u16 as FixedWire>::read_wire(buf, pos + 2) {
            Some(v) => v,
            None => return None,
        };
        let v2 = match <u16 as FixedWire>::read_wire(buf, pos + 4) {
            Some(v) => v,
            None => return None,
        };
        Some(GetCommsStatusResponse { short_message: v0, length_mismatch: v1, checksum_fail: v2 })
    }

    proof fn lemma_wire(&self) {
        self.short_message.lemma_wire();
        self.length_mismatch.lemma_wire();
        self.checksum_fail.lemma_wire();
        let w = self.spec_wire();
        assert(w.subrange(0, 2) =~= self.short_message.spec_wire());
        assert(w.subrange(2, 4) =~= self.length_mismatch.spec_wire());
        assert(w.subrange(4, 6) =~= self.checksum_fail.spec_wire());
        if self.spec_wire_valid() {
            assert(<u16 as FixedWire>::spec_read(w.subrange(0, 2)) == Some(self.short_message));
            assert(<u16 as FixedWire>::spec_read(w.subrange(2, 4)) == Some(self.length_mismatch));
            assert(<u16 as FixedWire>::spec_read(w.subrange(4, 6)) == Some(self.checksum_fail));
        }
    }
}

impl GetCommsStatusResponse {
    /// The parameter data of the value.
    pub open spec fn spec_encoding(&self) -> Seq<u8> {
        self.spec_wire()
    }

    /// The value that parameter data stands for, or why it stands for none.
    pub open spec fn spec_decoded(buf: Seq<u8>) -> Result<Self, ParameterDataError> {
        record_decoded::<Self>(buf)
    }

    /// Whether decoding the parameter data gives the value back.
    pub open spec fn spec_encodable(&self) -> bool {
        self.spec_wire_valid()
    }

    pub fn size_of(&self) -> (n: usize)
        ensures
            n == self.spec_encoding().len(),
            n <= 6,
    {
        proof {
            self.lemma_wire();
        }
        Self::wire_size()
    }

    /// Appends the parameter data to `out`.
    pub fn write_encoding(&self, out: &mut Vec<u8>)
        ensures
            final(out)@ == old(out)@ + self.spec_encoding(),
    {
        self.write_wire(out);
    }

    pub fn encode_parameter_data(&self, buf: &mut [u8]) -> (r: Result<usize, ParameterDataError>)
        ensures
            encoded_into(old(buf)@, final(buf)@, self.spec_encoding(), r),
    {
        encode_record(self, buf)
    }

    pub fn decode_parameter_data(buf: &[u8]) -> (r: Result<Self, ParameterDataError>)
        ensures
            r == Self::spec_decoded(buf@),
    {
        decode_record(buf)
    }

    /// Decoding the parameter data of an encodable value gives it back.
    pub proof fn lemma_roundtrip(&self)
        requires
            self.spec_encodable(),
        ensures
            Self::spec_decoded(self.spec_encoding()) == Ok::<Self, ParameterDataError>(*self),
    {
        lemma_record_roundtrip(*self);
    }
}

#[derive(Clone, Copy, Debug, PartialEq)]
pub struct GetStatusMessagesResponse {
    pub messages: StatusMessageList,
}

impl GetStatusMessagesResponse {
    /// The parameter data of the value.
    pub open spec fn spec_encoding(&self) -> Seq<u8> {
        self.messages.spec_encode_items()
    }

    /// The value that parameter data stands for, or why it stands for none.
    pub open spec fn spec_decoded(buf: Seq<u8>) -> Result<Self, ParameterDataError> {
        let rest = buf.subrange(0, buf.len() as int);
        match StatusMessageList::spec_decode_items(rest) {
            Ok(t) => Ok(GetStatusMessagesResponse { messages: t }),
            Err(e) => Err(e),
        }
    }

    /// Whether decoding the parameter data gives the value back.
    pub open spec fn spec_encodable(&self) -> bool {
        self.messages.spec_items_encodable()
    }

    /// Appends the parameter data to `out`.
    pub fn write_encoding(&self, out: &mut Vec<u8>)
        ensures
            final(out)@ == old(out)@ + self.spec_encoding(),
    {
        let ghost start = out@;
        self.messages.write_items_to(out);
        proof {
            assert(out@ =~= start + self.spec_encoding());
        }
    }

    pub fn size_of(&self) -> (n: usize)
        ensures
            n == self.spec_encoding().len(),
            n <= 225,
    {
        proof {
            use_type_invariant(&self.messages);
            self.messages.lemma_encode_items_len();
        }
        let mut out: Vec<u8> = Vec::new();
        self.write_encoding(&mut out);
        proof {
            assert(out@ =~= self.spec_encoding());
        }
        out.len()
    }

    pub fn encode_parameter_data(&self, buf: &mut [u8]) -> (r: Result<usize, ParameterDataError>)
        ensures
            encoded_into(old(buf)@, final(buf)@, self.spec_encoding(), r),
    {
        let mut out: Vec<u8> = Vec::new();
        self.write_encoding(&mut out);
        proof {
            assert(out@ =~= self.spec_encoding());
        }
        copy_encoded(buf, out.as_slice())
    }

    pub fn decode_parameter_data(buf: &[u8]) -> (r: Result<Self, ParameterDataError>)
        ensures
            r == Self::spec_decoded(buf@),
    {
        match StatusMessageList::decode_items(buf, 0) {
            Ok(t) => Ok(GetStatusMessagesResponse { messages: t }),
            Err(e) => Err(e),
        }
    }

    /// Decoding the parameter data of an encodable value gives it back.
    pub proof fn lemma_roundtrip(&self)
        requires
            self.spec_encodable(),
        ensures
            Self::spec_decoded(self.spec_encoding()) == Ok::<Self, ParameterDataError>(*self),
    {
        let e = self.spec_encoding();
        assert(e.subrange(0, e.len() as int) =~= self.messages.spec_encode_items());
        self.messages.lemma_items_roundtrip();
    }
}

#[derive(Clone, Copy, Debug, PartialEq)]
pub struct GetStatusIdDescriptionResponse {
    pub status_id_description: StatusIdDescription,
}

impl GetStatusIdDescriptionResponse {
    /// The parameter data of the value.
    pub open spec fn spec_encoding(&self) -> Seq<u8> {
        self.status_id_description.spec_encode()
    }

    /// The value that parameter data stands for, or why it stands for none.
    pub open spec fn spec_decoded(buf: Seq<u8>) -> Result<Self, ParameterDataError> {
        let rest = buf.subrange(0, buf.len() as int);
        match StatusIdDescription::spec_decode(rest) {
            Ok(t) => Ok(GetStatusIdDescriptionResponse { status_id_description: t }),
            Err(e) => Err(e),
        }
    }

    /// Whether decoding the parameter data gives the value back.
    pub open spec fn spec_encodable(&self) -> bool {
        self.status_id_description.spec_encodable()
    }

    /// Appends the parameter data to `out`.
    pub fn write_encoding(&self, out: &mut Vec<u8>)
        ensures
            final(out)@ == old(out)@ + self.spec_encoding(),
    {
        let ghost start = out@;
        self.status_id_description.write_encoded(out);
        proof {
            assert(out@ =~= start + self.spec_encoding());
        }
    }

    pub fn size_of(&self) -> (n: usize)
        ensures
            n == self.spec_encoding().len(),
            n <= 32,
    {
        proof {
            use_type_invariant(&self.status_id_description);
            self.status_id_description.lemma_encode_len();
        }
        let mut out: Vec<u8> = Vec::new();
        self.write_encoding(&mut out);
        proof {
            assert(out@ =~= self.spec_encoding());
        }
        out.len()
    }

    pub fn encode_parameter_data(&self, buf: &mut [u8]) -> (r: Result<usize, ParameterDataError>)
        ensures
            encoded_into(old(buf)@, final(buf)@, self.spec_encoding(), r),
    {
        let mut out: Vec<u8> = Vec::new();
        self.write_encoding(&mut out);
        proof {
            assert(out@ =~= self.spec_encoding());
        }
        copy_encoded(buf, out.as_slice())
    }

    pub fn decode_parameter_data(buf: &[u8]) -> (r: Result<Self, ParameterDataError>)
        ensures
            r == Self::spec_decoded(buf@),
    {
        match StatusIdDescription::decode_parameter_data(vstd::slice::slice_subrange(buf, 0, buf.len())) {
            Ok(t) => Ok(GetStatusIdDescriptionResponse { status_id_description: t }),
            Err(e) => Err(e),
        }
    }

    /// Decoding the parameter data of an encodable value gives it back.
    pub proof fn lemma_roundtrip(&self)
        requires
            self.spec_encodable(),
        ensures
            Self::spec_decoded(self.spec_encoding()) == Ok::<Self, ParameterDataError>(*self),
    {
        let e = self.spec_encoding();
        assert(e.subrange(0, e.len() as int) =~= self.status_id_description.spec_encode());
        self.status_id_description.lemma_roundtrip();
    }
}

#[derive(Clone, Copy, Debug, PartialEq, Eq, Structural)]
pub struct GetSubDeviceIdStatusReportThresholdResponse {
    pub status_type: StatusType,
}

impl<'a> FixedWire<'a> for GetSubDeviceIdStatusReportThresholdResponse {
    open spec fn spec_size() -> nat {
        1
    }

    open spec fn spec_wire(&self) -> Seq<u8> {
        self.status_type.spec_wire()
    }

    open spec fn spec_read(bytes: Seq<u8>) -> Option<Self> {
        if <StatusType as FixedWire>::spec_read(bytes.subrange(0, 1)) is Some {
            Some(GetSubDeviceIdStatusReportThresholdResponse {
                status_type: <StatusType as FixedWire>::spec_read(bytes.subrange(0, 1)).unwrap(),
            })
        } else {
            None
        }
    }

    open spec fn spec_wire_valid(&self) -> bool {
        self.status_type.spec_wire_valid()
    }

    fn wire_size() -> (n: usize) {
        1
    }

    fn write_wire(&self, out: &mut Vec<u8>) {
        let ghost start = out@;
        self.status_type.write_wire(out);
        proof {
            assert(out@ =~= start + self.spec_wire());
        }
    }

    fn read_wire(buf: &'a [u8], pos: usize) -> (r: Option<Self>) {
        let _len = buf.len();
        let ghost bytes = buf@.subrange(pos as int, pos + 1);
        proof {
            assert(bytes.subrange(0, 1) =~= buf@.subrange(pos + 0, pos + 1));
        }
        let v0 = match <StatusType as FixedWire>::read_wire(buf, pos) {
            Some(v) => v,
            None => return None,
        };
        Some(GetSubDeviceIdStatusReportThresholdResponse { status_type: v0 })
    }

    proof fn lemma_wire(&self) {
        self.status_type.lemma_wire();
        let w = self.spec_wire();
        assert(w.subrange(0, 1) =~= self.status_type.spec_wire());
        if self.spec_wire_valid() {
            assert(<StatusType as FixedWire>::spec_read(w.subrange(0, 1)) == Some(self.status_type));
        }
    }
}

impl GetSubDeviceIdStatusReportThresholdResponse {
    /// The parameter data of the value.
    pub open spec fn spec_encoding(&self) -> Seq<u8> {
        self.spec_wire()
    }

    /// The value that parameter data stands for, or why it stands for none.
    pub open spec fn spec_decoded(buf: Seq<u8>) -> Result<Self, ParameterDataError> {
        record_decoded::<Self>(buf)
    }

    /// Whether decoding the parameter data gives the value back.
    pub open spec fn spec_encodable(&self) -> bool {
        self.spec_wire_valid()
    }

    pub fn size_of(&self) -> (n: usize)
        ensures
            n == self.spec_encoding().len(),
            n <= 1,
    {
        proof {
            self.lemma_wire();
        }
        Self::wire_size()
    }

    /// Appends the parameter data to `out`.
    pub fn write_encoding(&self, out: &mut Vec<u8>)
        ensures
            final(out)@ == old(out)@ + self.spec_encoding(),
    {
        self.write_wire(out);
    }

    pub fn encode_parameter_data(&self, buf: &mut [u8]) -> (r: Result<usize, ParameterDataError>)
        ensures
            encoded_into(old(buf)@, final(buf)@, self.spec_encoding(), r),
    {
        encode_record(self, buf)
    }

    pub fn decode_parameter_data(buf: &[u8]) -> (r: Result<Self, ParameterDataError>)
        ensures
            r == Self::spec_decoded(buf@),
    {
        decode_record(buf)
    }

    /// Decoding the parameter data of an encodable value gives it back.
    pub proof fn lemma_roundtrip(&self)
        requires
            self.spec_encodable(),
        ensures
            Self::spec_decoded(self.spec_encoding()) == Ok::<Self, ParameterDataError>(*self),
    {
        lemma_record_roundtrip(*self);
    }
}

#[derive(Clone, Copy, Debug, PartialEq)]
pub struct GetSupportedParametersResponse {
    pub supported_parameters: ParameterIdList,
}

impl GetSupportedParametersResponse {
    /// The parameter data of the value.
    pub open spec fn spec_encoding(&self) -> Seq<u8> {
        self.supported_parameters.spec_encode_items()
    }

    /// The value that parameter data stands for, or why it stands for none.
    pub open spec fn spec_decoded(buf: Seq<u8>) -> Result<Self, ParameterDataError> {
        let rest = buf.subrange(0, buf.len() as int);
        match ParameterIdList::spec_decode_items(rest) {
            Ok(t) => Ok(GetSupportedParametersResponse { supported_parameters: t }),
            Err(e) => Err(e),
        }
    }

    /// Whether decoding the parameter data gives the value back.
    pub open spec fn spec_encodable(&self) -> bool {
        self.supported_parameters.spec_items_encodable()
    }

    /// Appends the parameter data to `out`.
    pub fn write_encoding(&self, out: &mut Vec<u8>)
        ensures
            final(out)@ == old(out)@ + self.spec_encoding(),
    {
        let ghost start = out@;
        self.supported_parameters.write_items_to(out);
        proof {
            assert(out@ =~= start + self.spec_encoding());
        }
    }

    pub fn size_of(&self) -> (n: usize)
        ensures
            n == self.spec_encoding().len(),
            n <= 230,
    {
        proof {
            use_type_invariant(&self.supported_parameters);
            self.supported_parameters.lemma_encode_items_len();
        }
        let mut out: Vec<u8> = Vec::new();
        self.write_encoding(&mut out);
        proof {
            assert(out@ =~= self.spec_encoding());
        }
        out.len()
    }

    pub fn encode_parameter_data(&self, buf: &mut [u8]) -> (r: Result<usize, ParameterDataError>)
        ensures
            encoded_into(old(buf)@, final(buf)@, self.spec_encoding(), r),
    {
        let mut out: Vec<u8> = Vec::new();
        self.write_encoding(&mut out);
        proof {
            assert(out@ =~= self.spec_encoding());
        }
        copy_encoded(buf, out.as_slice())
    }

    pub fn decode_parameter_data(buf: &[u8]) -> (r: Result<Self, ParameterDataError>)
        ensures
            r == Self::spec_decoded(buf@),
    {
        match ParameterIdList::decode_items(buf, 0) {
            Ok(t) => Ok(GetSupportedParametersResponse { supported_parameters: t }),
            Err(e) => Err(e),
        }
    }

    /// Decoding the parameter data of an encodable value gives it back.
    pub proof fn lemma_roundtrip(&self)
        requires
            self.spec_encodable(),
        ensures
            Self::spec_decoded(self.spec_encoding()) == Ok::<Self, ParameterDataError>(*self),
    {
        let e = self.spec_encoding();
        assert(e.subrange(0, e.len() as int) =~= self.supported_parameters.spec_encode_items());
        self.supported_parameters.lemma_items_roundtrip();
    }
}

#[derive(Clone, Copy, Debug, PartialEq)]
pub struct GetParameterDescriptionResponse {
    pub parameter_id: ParameterId,
    pub parameter_data_length: u8,
    pub data_type: ParameterDataType,
    pub command_class: ImplementedCommandClass,
    pub unit_type: SensorUnit,
    pub prefix: SensorUnitPrefix,
    pub raw_minimum_valid_value: [u8; 4],
    pub raw_maximum_valid_value: [u8; 4],
    pub raw_default_value: [u8; 4],
    pub description: ParameterDescriptionLabel,
}

impl GetParameterDescriptionResponse {
    /// The parameter data of the value; the byte after the command class, which E1.20 reserves
    /// for a type, repeats the command class.
    pub open spec fn spec_encoding(&self) -> Seq<u8> {
        self.parameter_id.spec_wire() + self.parameter_data_length.spec_wire() + self.data_type.spec_wire() + self.command_class.spec_wire() + self.command_class.spec_wire() + self.unit_type.spec_wire() + self.prefix.spec_wire() + self.raw_minimum_valid_value.spec_wire() + self.raw_maximum_valid_value.spec_wire() + self.raw_default_value.spec_wire() + self.description.spec_encode()
    }

    /// The value that parameter data stands for, or why it stands for none.
    pub open spec fn spec_decoded(buf: Seq<u8>) -> Result<Self, ParameterDataError> {
        if buf.len() < 20 {
            Err(too_short(buf.len(), 20))
        } else if !(<ParameterId as FixedWire>::spec_read(buf.subrange(0, 2)) is Some && <u8 as FixedWire>::spec_read(buf.subrange(2, 3)) is Some && <ParameterDataType as FixedWire>::spec_read(buf.subrange(3, 4)) is Some && <ImplementedCommandClass as FixedWire>::spec_read(buf.subrange(4, 5)) is Some && <SensorUnit as FixedWire>::spec_read(buf.subrange(6, 7)) is Some && <SensorUnitPrefix as FixedWire>::spec_read(buf.subrange(7, 8)) is Some && <[u8; 4] as FixedWire>::spec_read(buf.subrange(8, 12)) is Some && <[u8; 4] as FixedWire>::spec_read(buf.subrange(12, 16)) is Some && <[u8; 4] as FixedWire>::spec_read(buf.subrange(16, 20)) is Some) {
            Err(ParameterDataError::MalformedData)
        } else {
            let rest = buf.subrange(20, buf.len() as int);
            match ParameterDescriptionLabel::spec_decode(rest) {
                Ok(t) => Ok(GetParameterDescriptionResponse { parameter_id: <ParameterId as FixedWire>::spec_read(buf.subrange(0, 2)).unwrap(), parameter_data_length: <u8 as FixedWire>::spec_read(buf.subrange(2, 3)).unwrap(), data_type: <ParameterDataType as FixedWire>::spec_read(buf.subrange(3, 4)).unwrap(), command_class: <ImplementedCommandClass as FixedWire>::spec_read(buf.subrange(4, 5)).unwrap(), unit_type: <SensorUnit as FixedWire>::spec_read(buf.subrange(6, 7)).unwrap(), prefix: <SensorUnitPrefix as FixedWire>::spec_read(buf.subrange(7, 8)).unwrap(), raw_minimum_valid_value: <[u8; 4] as FixedWire>::spec_read(buf.subrange(8, 12)).unwrap(), raw_maximum_valid_value: <[u8; 4] as FixedWire>::spec_read(buf.subrange(12, 16)).unwrap(), raw_default_value: <[u8; 4] as FixedWire>::spec_read(buf.subrange(16, 20)).unwrap(), description: t }),
                Err(e) => Err(e),
            }
        }
    }

    /// Whether decoding the parameter data gives the value back.
    pub open spec fn spec_encodable(&self) -> bool {
        self.parameter_id.spec_wire_valid() && self.parameter_data_length.spec_wire_valid() && self.data_type.spec_wire_valid() && self.command_class.spec_wire_valid() && self.unit_type.spec_wire_valid() && self.prefix.spec_wire_valid() && self.raw_minimum_valid_value.spec_wire_valid() && self.raw_maximum_valid_value.spec_wire_valid() && self.raw_default_value.spec_wire_valid() && self.description.spec_encodable()
    }

    /// Appends the parameter data to `out`.
    pub fn write_encoding(&self, out: &mut Vec<u8>)
        ensures
            final(out)@ == old(out)@ + self.spec_encoding(),
    {
        let ghost start = out@;
        self.parameter_id.write_wire(out);
        self.parameter_data_length.write_wire(out);
        self.data_type.write_wire(out);
        self.command_class.write_wire(out);
        self.command_class.write_wire(out);
        self.unit_type.write_wire(out);
        self.prefix.write_wire(out);
        self.raw_minimum_valid_value.write_wire(out);
        self.raw_maximum_valid_value.write_wire(out);
        self.raw_default_value.write_wire(out);
        self.description.write_encoded(out);
        proof {
            assert(out@ =~= start + self.spec_encoding());
        }
    }

    pub fn size_of(&self) -> (n: usize)
        ensures
            n == self.spec_encoding().len(),
            n <= 52,
    {
        proof {
            self.parameter_id.lemma_wire();
            self.parameter_data_length.lemma_wire();
            self.data_type.lemma_wire();
            self.command_class.lemma_wire();
            self.unit_type.lemma_wire();
            self.prefix.lemma_wire();
            self.raw_minimum_valid_value.lemma_wire();
            self.raw_maximum_valid_value.lemma_wire();
            self.raw_default_value.lemma_wire();
            use_type_invariant(&self.description);
            self.description.lemma_encode_len();
        }
        let mut out: Vec<u8> = Vec::new();
        self.write_encoding(&mut out);
        proof {
            assert(out@ =~= self.spec_encoding());
        }
        out.len()
    }

    pub fn encode_parameter_data(&self, buf: &mut [u8]) -> (r: Result<usize, ParameterDataError>)
        ensures
            encoded_into(old(buf)@, final(buf)@, self.spec_encoding(), r),
    {
        let mut out: Vec<u8> = Vec::new();
        self.write_encoding(&mut out);
        proof {
            assert(out@ =~= self.spec_encoding());
        }
        copy_encoded(buf, out.as_slice())
    }

    pub fn decode_parameter_data(buf: &[u8]) -> (r: Result<Self, ParameterDataError>)
        ensures
            r == Self::spec_decoded(buf@),
    {
        if buf.len() < 20 {
            return Err(ParameterDataError::BufferTooSmall { provided: buf.len(), required: 20 });
        }
        let v0 = match <ParameterId as FixedWire>::read_wire(buf, 0) {
            Some(v) => v,
            None => return Err(ParameterDataError::MalformedData),
        };
        let v1 = match <u8 as FixedWire>::read_wire(buf, 2) {
            Some(v) => v,
            None => return Err(ParameterDataError::MalformedData),
        };
        let v2 = match <ParameterDataType as FixedWire>::read_wire(buf, 3) {
            Some(v) => v,
            None => return Err(ParameterDataError::MalformedData),
        };
        let v3 = match <ImplementedCommandClass as FixedWire>::read_wire(buf, 4) {
            Some(v) => v,
            None => return Err(ParameterDataError::MalformedData),
        };
        let v4 = match <SensorUnit as FixedWire>::read_wire(buf, 6) {
            Some(v) => v,
            None => return Err(ParameterDataError::MalformedData),
        };
        let v5 = match <SensorUnitPrefix as FixedWire>::read_wire(buf, 7) {
            Some(v) => v,
            None => return Err(ParameterDataError::MalformedData),
        };
        let v6 = match <[u8; 4] as FixedWire>::read_wire(buf, 8) {
            Some(v) => v,
            None => return Err(ParameterDataError::MalformedData),
        };
        let v7 = match <[u8; 4] as FixedWire>::read_wire(buf, 12) {
            Some(v) => v,
            None => return Err(ParameterDataError::MalformedData),
        };
        let v8 = match <[u8; 4] as FixedWire>::read_wire(buf, 16) {
            Some(v) => v,
            None => return Err(ParameterDataError::MalformedData),
        };
        match ParameterDescriptionLabel::decode_parameter_data(vstd::slice::slice_subrange(buf, 20, buf.len())) {
            Ok(t) => Ok(GetParameterDescriptionResponse { parameter_id: v0, parameter_data_length: v1, data_type: v2, command_class: v3, unit_type: v4, prefix: v5, raw_minimum_valid_value: v6, raw_maximum_valid_value: v7, raw_default_value: v8, description: t }),
            Err(e) => Err(e),
        }
    }

    /// Decoding the parameter data of an encodable value gives it back.
    pub proof fn lemma_roundtrip(&self)
        requires
            self.spec_encodable(),
        ensures
            Self::spec_decoded(self.spec_encoding()) == Ok::<Self, ParameterDataError>(*self),
    {
        let e = self.spec_encoding();
        self.parameter_id.lemma_wire();
        self.parameter_data_length.lemma_wire();
        self.data_type.lemma_wire();
        self.command_class.lemma_wire();
        self.unit_type.lemma_wire();
        self.prefix.lemma_wire();
        self.raw_minimum_valid_value.lemma_wire();
        self.raw_maximum_valid_value.lemma_wire();
        self.raw_default_value.lemma_wire();
        assert(e.subrange(0, 2) =~= self.parameter_id.spec_wire());
        assert(e.subrange(2, 3) =~= self.parameter_data_length.spec_wire());
        assert(e.subrange(3, 4) =~= self.data_type.spec_wire());
        assert(e.subrange(4, 5) =~= self.command_class.spec_wire());
        assert(e.subrange(6, 7) =~= self.unit_type.spec_wire());
        assert(e.subrange(7, 8) =~= self.prefix.spec_wire());
        assert(e.subrange(8, 12) =~= self.raw_minimum_valid_value.spec_wire());
        assert(e.subrange(12, 16) =~= self.raw_maximum_valid_value.spec_wire());
        assert(e.subrange(16, 20) =~= self.raw_default_value.spec_wire());
        assert(e.subrange(20, e.len() as int) =~= self.description.spec_encode());
        self.description.lemma_roundtrip();
    }
}

#[derive(Clone, Copy, Debug, PartialEq, Eq, Structural)]
pub struct GetDeviceInfoResponse {
    pub protocol_version: ProtocolVersion,
    pub device_model_id: u16,
    pub product_category: ProductCategory,
    pub software_version_id: u32,
    pub dmx512_footprint: u16,
    pub current_personality: u8,
    pub personality_count: u8,
    pub dmx512_start_address: u16,
    pub sub_device_count: u16,
    pub sensor_count: u8,
}

impl<'a> FixedWire<'a> for GetDeviceInfoResponse {
    open spec fn spec_size() -> nat {
        19
    }

    open spec fn spec_wire(&self) -> Seq<u8> {
        self.protocol_version.spec_wire() + self.device_model_id.spec_wire() + self.product_category.spec_wire() + self.software_version_id.spec_wire() + self.dmx512_footprint.spec_wire() + self.current_personality.spec_wire() + self.personality_count.spec_wire() + self.dmx512_start_address.spec_wire() + self.sub_device_count.spec_wire() + self.sensor_count.spec_wire()
    }

    open spec fn spec_read(bytes: Seq<u8>) -> Option<Self> {
        if <ProtocolVersion as FixedWire>::spec_read(bytes.subrange(0, 2)) is Some
            && <u16 as FixedWire>::spec_read(bytes.subrange(2, 4)) is Some
            && <ProductCategory as FixedWire>::spec_read(bytes.subrange(4, 6)) is Some
            && <u32 as FixedWire>::spec_read(bytes.subrange(6, 10)) is Some
            && <u16 as FixedWire>::spec_read(bytes.subrange(10, 12)) is Some
            && <u8 as FixedWire>::spec_read(bytes.subrange(12, 13)) is Some
            && <u8 as FixedWire>::spec_read(bytes.subrange(13, 14)) is Some
            && <u16 as FixedWire>::spec_read(bytes.subrange(14, 16)) is Some
            && <u16 as FixedWire>::spec_read(bytes.subrange(16, 18)) is Some
            && <u8 as FixedWire>::spec_read(bytes.subrange(18, 19)) is Some {
            Some(GetDeviceInfoResponse {
                protocol_version: <ProtocolVersion as FixedWire>::spec_read(bytes.subrange(0, 2)).unwrap(),
                device_model_id: <u16 as FixedWire>::spec_read(bytes.subrange(2, 4)).unwrap(),
                product_category: <ProductCategory as FixedWire>::spec_read(bytes.subrange(4, 6)).unwrap(),
                software_version_id: <u32 as FixedWire>::spec_read(bytes.subrange(6, 10)).unwrap(),
                dmx512_footprint: <u16 as FixedWire>::spec_read(bytes.subrange(10, 12)).unwrap(),
                current_personality: <u8 as FixedWire>::spec_read(bytes.subrange(12, 13)).unwrap(),
                personality_count: <u8 as FixedWire>::spec_read(bytes.subrange(13, 14)).unwrap(),
                dmx512_start_address: <u16 as FixedWire>::spec_read(bytes.subrange(14, 16)).unwrap(),
                sub_device_count: <u16 as FixedWire>::spec_read(bytes.subrange(16, 18)).unwrap(),
                sensor_count: <u8 as FixedWire>::spec_read(bytes.subrange(18, 19)).unwrap(),
            })
        } else {
            None
        }
    }

    open spec fn spec_wire_valid(&self) -> bool {
        self.protocol_version.spec_wire_valid() && self.device_model_id.spec_wire_valid() && self.product_category.spec_wire_valid() && self.software_version_id.spec_wire_valid() && self.dmx512_footprint.spec_wire_valid() && self.current_personality.spec_wire_valid() && self.personality_count.spec_wire_valid() && self.dmx512_start_address.spec_wire_valid() && self.sub_device_count.spec_wire_valid() && self.sensor_count.spec_wire_valid()
    }

    fn wire_size() -> (n: usize) {
        19
    }

    #[verifier::spinoff_prover]
    #[verifier::rlimit(100)]
    fn write_wire(&self, out: &mut Vec<u8>) {
        let ghost start = out@;
        self.protocol_version.write_wire(out);
        assert(out@ =~= start + (self.protocol_version.spec_wire()));
        self.device_model_id.write_wire(out);
        assert(out@ =~= start + (self.protocol_version.spec_wire() + self.device_model_id.spec_wire()));
        self.product_category.write_wire(out);
        assert(out@ =~= start + (self.protocol_version.spec_wire() + self.device_model_id.spec_wire() + self.product_category.spec_wire()));
        self.software_version_id.write_wire(out);
        assert(out@ =~= start + (self.protocol_version.spec_wire() + self.device_model_id.spec_wire() + self.product_category.spec_wire() + self.software_version_id.spec_wire()));
        self.dmx512_footprint.write_wire(out);
        assert(out@ =~= start + (self.protocol_version.spec_wire() + self.device_model_id.spec_wire() + self.product_category.spec_wire() + self.software_version_id.spec_wire() + self.dmx512_footprint.spec_wire()));
        self.current_personality.write_wire(out);
        assert(out@ =~= start + (self.protocol_version.spec_wire() + self.device_model_id.spec_wire() + self.product_category.spec_wire() + self.software_version_id.spec_wire() + self.dmx512_footprint.spec_wire() + self.current_personality.spec_wire()));
        self.personality_count.write_wire(out);
        assert(out@ =~= start + (self.protocol_version.spec_wire() + self.device_model_id.spec_wire() + self.product_category.spec_wire() + self.software_version_id.spec_wire() + self.dmx512_footprint.spec_wire() + self.current_personality.spec_wire() + self.personality_count.spec_wire()));
        self.dmx512_start_address.write_wire(out);
        assert(out@ =~= start + (self.protocol_version.spec_wire() + self.device_model_id.spec_wire() + self.product_category.spec_wire() + self.software_version_id.spec_wire() + self.dmx512_footprint.spec_wire() + self.current_personality.spec_wire() + self.personality_count.spec_wire() + self.dmx512_start_address.spec_wire()));
        self.sub_device_count.write_wire(out);
        assert(out@ =~= start + (self.protocol_version.spec_wire() + self.device_model_id.spec_wire() + self.product_category.spec_wire() + self.software_version_id.spec_wire() + self.dmx512_footprint.spec_wire() + self.current_personality.spec_wire() + self.personality_count.spec_wire() + self.dmx512_start_address.spec_wire() + self.sub_device_count.spec_wire()));
        self.sensor_count.write_wire(out);
        assert(out@ =~= start + (self.protocol_version.spec_wire() + self.device_model_id.spec_wire() + self.product_category.spec_wire() + self.software_version_id.spec_wire() + self.dmx512_footprint.spec_wire() + self.current_personality.spec_wire() + self.personality_count.spec_wire() + self.dmx512_start_address.spec_wire() + self.sub_device_count.spec_wire() + self.sensor_count.spec_wire()));
        proof {
            assert(out@ =~= start + self.spec_wire());
        }
    }

    #[verifier::spinoff_prover]
    #[verifier::rlimit(100)]
    fn read_wire(buf: &'a [u8], pos: usize) -> (r: Option<Self>) {
        let _len = buf.len();
        let ghost bytes = buf@.subrange(pos as int, pos + 19);
        proof {
            assert(bytes.subrange(0, 2) =~= buf@.subrange(pos + 0, pos + 2));
            assert(bytes.subrange(2, 4) =~= buf@.subrange(pos + 2, pos + 4));
            assert(bytes.subrange(4, 6) =~= buf@.subrange(pos + 4, pos + 6));
            assert(bytes.subrange(6, 10) =~= buf@.subrange(pos + 6, pos + 10));
            assert(bytes.subrange(10, 12) =~= buf@.subrange(pos + 10, pos + 12));
            assert(bytes.subrange(12, 13) =~= buf@.subrange(pos + 12, pos + 13));
            assert(bytes.subrange(13, 14) =~= buf@.subrange(pos + 13, pos + 14));
            assert(bytes.subrange(14, 16) =~= buf@.subrange(pos + 14, pos + 16));
            assert(bytes.subrange(16, 18) =~= buf@.subrange(pos + 16, pos + 18));
            assert(bytes.subrange(18, 19) =~= buf@.subrange(pos + 18, pos + 19));
        }
        let v0 = match <ProtocolVersion as FixedWire>::read_wire(buf, pos) {
            Some(v) => v,
            None => return None,
        };
        let v1 = match <u16 as FixedWire>::read_wire(buf, pos + 2) {
            Some(v) => v,
            None => return None,
        };
        let v2 = match <ProductCategory as FixedWire>::read_wire(buf, pos + 4) {
            Some(v) => v,
            None => return None,
        };
        let v3 = match <u32 as FixedWire>::read_wire(buf, pos + 6) {
            Some(v) => v,
            None => return None,
        };
        let v4 = match <u16 as FixedWire>::read_wire(buf, pos + 10) {
            Some(v) => v,
            None => return None,
        };
        let v5 = match <u8 as FixedWire>::read_wire(buf, pos + 12) {
            Some(v) => v,
            None => return None,
        };
        let v6 = match <u8 as FixedWire>::read_wire(buf, pos + 13) {
            Some(v) => v,
            None => return None,
        };
        let v7 = match <u16 as FixedWire>::read_wire(buf, pos + 14) {
            Some(v) => v,
            None => return None,
        };
        let v8 = match <u16 as FixedWire>::read_wire(buf, pos + 16) {
            Some(v) => v,
            None => return None,
        };
        let v9 = match <u8 as FixedWire>::read_wire(buf, pos + 18) {
            Some(v) => v,
            None => return None,
        };
        Some(GetDeviceInfoResponse { protocol_version: v0, device_model_id: v1, product_category: v2, software_version_id: v3, dmx512_footprint: v4, current_personality: v5, personality_count: v6, dmx512_start_address: v7, sub_device_count: v8, sensor_count: v9 })
    }

    #[verifier::spinoff_prover]
    #[verifier::rlimit(100)]
    proof fn lemma_wire(&self) {
        self.protocol_version.lemma_wire();
        self.device_model_id.lemma_wire();
        self.product_category.lemma_wire();
        self.software_version_id.lemma_wire();
        self.dmx512_footprint.lemma_wire();
        self.current_personality.lemma_wire();
        self.personality_count.lemma_wire();
        self.dmx512_start_address.lemma_wire();
        self.sub_device_count.lemma_wire();
        self.sensor_count.lemma_wire();
        let w = self.spec_wire();
        assert(w.subrange(0, 2) =~= self.protocol_version.spec_wire());
        assert(w.subrange(2, 4) =~= self.device_model_id.spec_wire());
        assert(w.subrange(4, 6) =~= self.product_category.spec_wire());
        assert(w.subrange(6, 10) =~= self.software_version_id.spec_wire());
        assert(w.subrange(10, 12) =~= self.dmx512_footprint.spec_wire());
        assert(w.subrange(12, 13) =~= self.current_personality.spec_wire());
        assert(w.subrange(13, 14) =~= self.personality_count.spec_wire());
        assert(w.subrange(14, 16) =~= self.dmx512_start_address.spec_wire());
        assert(w.subrange(16, 18) =~= self.sub_device_count.spec_wire());
        assert(w.subrange(18, 19) =~= self.sensor_count.spec_wire());
        if self.spec_wire_valid() {
            assert(<ProtocolVersion as FixedWire>::spec_read(w.subrange(0, 2)) == Some(self.protocol_version));
            assert(<u16 as FixedWire>::spec_read(w.subrange(2, 4)) == Some(self.device_model_id));
            assert(<ProductCategory as FixedWire>::spec_read(w.subrange(4, 6)) == Some(self.product_category));
            assert(<u32 as FixedWire>::spec_read(w.subrange(6, 10)) == Some(self.software_version_id));
            assert(<u16 as FixedWire>::spec_read(w.subrange(10, 12)) == Some(self.dmx512_footprint));
            assert(<u8 as FixedWire>::spec_read(w.subrange(12, 13)) == Some(self.current_personality));
            assert(<u8 as FixedWire>::spec_read(w.subrange(13, 14)) == Some(self.personality_count));
            assert(<u16 as FixedWire>::spec_read(w.subrange(14, 16)) == Some(self.dmx512_start_address));
            assert(<u16 as FixedWire>::spec_read(w.subrange(16, 18)) == Some(self.sub_device_count));
            assert(<u8 as FixedWire>::spec_read(w.subrange(18, 19)) == Some(self.sensor_count));
        }
    }
}

impl GetDeviceInfoResponse {
    /// The parameter data of the value.
    pub open spec fn spec_encoding(&self) -> Seq<u8> {
        self.spec_wire()
    }

    /// The value that parameter data stands for, or why it stands for none.
    pub open spec fn spec_decoded(buf: Seq<u8>) -> Result<Self, ParameterDataError> {
        record_decoded::<Self>(buf)
    }

    /// Whether decoding the parameter data gives the value back.
    pub open spec fn spec_encodable(&self) -> bool {
        self.spec_wire_valid()
    }

    pub fn size_of(&self) -> (n: usize)
        ensures
            n == self.spec_encoding().len(),
            n <= 19,
    {
        proof {
            self.lemma_wire();
        }
        Self::wire_size()
    }

    /// Appends the parameter data to `out`.
    pub fn write_encoding(&self, out: &mut Vec<u8>)
        ensures
            final(out)@ == old(out)@ + self.spec_encoding(),
    {
        self.write_wire(out);
    }

    pub fn encode_parameter_data(&self, buf: &mut [u8]) -> (r: Result<usize, ParameterDataError>)
        ensures
            encoded_into(old(buf)@, final(buf)@, self.spec_encoding(), r),
    {
        encode_record(self, buf)
    }

    pub fn decode_parameter_data(buf: &[u8]) -> (r: Result<Self, ParameterDataError>)
        ensures
            r == Self::spec_decoded(buf@),
    {
        decode_record(buf)
    }

    /// Decoding the parameter data of an encodable value gives it back.
    pub proof fn lemma_roundtrip(&self)
        requires
            self.spec_encodable(),
        ensures
            Self::spec_decoded(self.spec_encoding()) == Ok::<Self, ParameterDataError>(*self),
    {
        lemma_record_roundtrip(*self);
    }
}

#[derive(Clone, Copy, Debug, PartialEq)]
pub struct GetProductDetailIdListResponse {
    pub product_detail_ids: ProductDetailList,
}

impl GetProductDetailIdListResponse {
    /// The parameter data of the value.
    pub open spec fn spec_encoding(&self) -> Seq<u8> {
        self.product_detail_ids.spec_encode_items()
    }

    /// The value that parameter data stands for, or why it stands for none.
    pub open spec fn spec_decoded(buf: Seq<u8>) -> Result<Self, ParameterDataError> {
        let rest = buf.subrange(0, buf.len() as int);
        match ProductDetailList::spec_decode_items(rest) {
            Ok(t) => Ok(GetProductDetailIdListResponse { product_detail_ids: t }),
            Err(e) => Err(e),
        }
    }

    /// Whether decoding the parameter data gives the value back.
    pub open spec fn spec_encodable(&self) -> bool {
        self.product_detail_ids.spec_items_encodable()
    }

    /// Appends the parameter data to `out`.
    pub fn write_encoding(&self, out: &mut Vec<u8>)
        ensures
            final(out)@ == old(out)@ + self.spec_encoding(),
    {
        let ghost start = out@;
        self.product_detail_ids.write_items_to(out);
        proof {
            assert(out@ =~= start + self.spec_encoding());
        }
    }

    pub fn size_of(&self) -> (n: usize)
        ensures
            n == self.spec_encoding().len(),
            n <= 12,
    {
        proof {
            use_type_invariant(&self.product_detail_ids);
            self.product_detail_ids.lemma_encode_items_len();
        }
        let mut out: Vec<u8> = Vec::new();
        self.write_encoding(&mut out);
        proof {
            assert(out@ =~= self.spec_encoding());
        }
        out.len()
    }

    pub fn encode_parameter_data(&self, buf: &mut [u8]) -> (r: Result<usize, ParameterDataError>)
        ensures
            encoded_into(old(buf)@, final(buf)@, self.spec_encoding(), r),
    {
        let mut out: Vec<u8> = Vec::new();
        self.write_encoding(&mut out);
        proof {
            assert(out@ =~= self.spec_encoding());
        }
        copy_encoded(buf, out.as_slice())
    }

    pub fn decode_parameter_data(buf: &[u8]) -> (r: Result<Self, ParameterDataError>)
        ensures
            r == Self::spec_decoded(buf@),
    {
        match ProductDetailList::decode_items(buf, 0) {
            Ok(t) => Ok(GetProductDetailIdListResponse { product_detail_ids: t }),
            Err(e) => Err(e),
        }
    }

    /// Decoding the parameter data of an encodable value gives it back.
    pub proof fn lemma_roundtrip(&self)
        requires
            self.spec_encodable(),
        ensures
            Self::spec_decoded(self.spec_encoding()) == Ok::<Self, ParameterDataError>(*self),
    {
        let e = self.spec_encoding();
        assert(e.subrange(0, e.len() as int) =~= self.product_detail_ids.spec_encode_items());
        self.product_detail_ids.lemma_items_roundtrip();
    }
}

#[derive(Clone, Copy, Debug, PartialEq)]
pub struct GetDeviceModelDescriptionResponse {
    pub device_model_description: DeviceModelDescription,
}

impl GetDeviceModelDescriptionResponse {
    /// The parameter data of the value.
    pub open spec fn spec_encoding(&self) -> Seq<u8> {
        self.device_model_description.spec_encode()
    }

    /// The value that parameter data stands for, or why it stands for none.
    pub open spec fn spec_decoded(buf: Seq<u8>) -> Result<Self, ParameterDataError> {
        let rest = buf.subrange(0, buf.len() as int);
        match DeviceModelDescription::spec_decode(rest) {
            Ok(t) => Ok(GetDeviceModelDescriptionResponse { device_model_description: t }),
            Err(e) => Err(e),
        }
    }

    /// Whether decoding the parameter data gives the value back.
    pub open spec fn spec_encodable(&self) -> bool {
        self.device_model_description.spec_encodable()
    }

    /// Appends the parameter data to `out`.
    pub fn write_encoding(&self, out: &mut Vec<u8>)
        ensures
            final(out)@ == old(out)@ + self.spec_encoding(),
    {
        let ghost start = out@;
        self.device_model_description.write_encoded(out);
        proof {
            assert(out@ =~= start + self.spec_encoding());
        }
    }

    pub fn size_of(&self) -> (n: usize)
        ensures
            n == self.spec_encoding().len(),
            n <= 32,
    {
        proof {
            use_type_invariant(&self.device_model_description);
            self.device_model_description.lemma_encode_len();
        }
        let mut out: Vec<u8> = Vec::new();
        self.write_encoding(&mut out);
        proof {
            assert(out@ =~= self.spec_encoding());
        }
        out.len()
    }

    pub fn encode_parameter_data(&self, buf: &mut [u8]) -> (r: Result<usize, ParameterDataError>)
        ensures
            encoded_into(old(buf)@, final(buf)@, self.spec_encoding(), r),
    {
        let mut out: Vec<u8> = Vec::new();
        self.write_encoding(&mut out);
        proof {
            assert(out@ =~= self.spec_encoding());
        }
        copy_encoded(buf, out.as_slice())
    }

    pub fn decode_parameter_data(buf: &[u8]) -> (r: Result<Self, ParameterDataError>)
        ensures
            r == Self::spec_decoded(buf@),
    {
        match DeviceModelDescription::decode_parameter_data(vstd::slice::slice_subrange(buf, 0, buf.len())) {
            Ok(t) => Ok(GetDeviceModelDescriptionResponse { device_model_description: t }),
            Err(e) => Err(e),
        }
    }

    /// Decoding the parameter data of an encodable value gives it back.
    pub proof fn lemma_roundtrip(&self)
        requires
            self.spec_encodable(),
        ensures
            Self::spec_decoded(self.spec_encoding()) == Ok::<Self, ParameterDataError>(*self),
    {
        let e = self.spec_encoding();
        assert(e.subrange(0, e.len() as int) =~= self.device_model_description.spec_encode());
        self.device_model_description.lemma_roundtrip();
    }
}

#[derive(Clone, Copy, Debug, PartialEq)]
pub struct GetManufacturerLabelResponse {
    pub manufacturer_label: ManufacturerLabel,
}

impl GetManufacturerLabelResponse {
    /// The parameter data of the value.
    pub open spec fn spec_encoding(&self) -> Seq<u8> {
        self.manufacturer_label.spec_encode()
    }

    /// The value that parameter data stands for, or why it stands for none.
    pub open spec fn spec_decoded(buf: Seq<u8>) -> Result<Self, ParameterDataError> {
        let rest = buf.subrange(0, buf.len() as int);
        match ManufacturerLabel::spec_decode(rest) {
            Ok(t) => Ok(GetManufacturerLabelResponse { manufacturer_label: t }),
            Err(e) => Err(e),
        }
    }

    /// Whether decoding the parameter data gives the value back.
    pub open spec fn spec_encodable(&self) -> bool {
        self.manufacturer_label.spec_encodable()
    }

    /// Appends the parameter data to `out`.
    pub fn write_encoding(&self, out: &mut Vec<u8>)
        ensures
            final(out)@ == old(out)@ + self.spec_encoding(),
    {
        let ghost start = out@;
        self.manufacturer_label.write_encoded(out);
        proof {
            assert(out@ =~= start + self.spec_encoding());
        }
    }

    pub fn size_of(&self) -> (n: usize)
        ensures
            n == self.spec_encoding().len(),
            n <= 32,
    {
        proof {
            use_type_invariant(&self.manufacturer_label);
            self.manufacturer_label.lemma_encode_len();
        }
        let mut out: Vec<u8> = Vec::new();
        self.write_encoding(&mut out);
        proof {
            assert(out@ =~= self.spec_encoding());
        }
        out.len()
    }

    pub fn encode_parameter_data(&self, buf: &mut [u8]) -> (r: Result<usize, ParameterDataError>)
        ensures
            encoded_into(old(buf)@, final(buf)@, self.spec_encoding(), r),
    {
        let mut out: Vec<u8> = Vec::new();
        self.write_encoding(&mut out);
        proof {
            assert(out@ =~= self.spec_encoding());
        }
        copy_encoded(buf, out.as_slice())
    }

    pub fn decode_parameter_data(buf: &[u8]) -> (r: Result<Self, ParameterDataError>)
        ensures
            r == Self::spec_decoded(buf@),
    {
        match ManufacturerLabel::decode_parameter_data(vstd::slice::slice_subrange(buf, 0, buf.len())) {
            Ok(t) => Ok(GetManufacturerLabelResponse { manufacturer_label: t }),
            Err(e) => Err(e),
        }
    }

    /// Decoding the parameter data of an encodable value gives it back.
    pub proof fn lemma_roundtrip(&self)
        requires
            self.spec_encodable(),
        ensures
            Self::spec_decoded(self.spec_encoding()) == Ok::<Self, ParameterDataError>(*self),
    {
        let e = self.spec_encoding();
        assert(e.subrange(0, e.len() as int) =~= self.manufacturer_label.spec_encode());
        self.manufacturer_label.lemma_roundtrip();
    }
}

#[derive(Clone, Copy, Debug, PartialEq)]
pub struct GetDeviceLabelResponse {
    pub device_label: DeviceLabel,
}

impl GetDeviceLabelResponse {
    /// The parameter data of the value.
    pub open spec fn spec_encoding(&self) -> Seq<u8> {
        self.device_label.spec_encode()
    }

    /// The value that parameter data stands for, or why it stands for none.
    pub open spec fn spec_decoded(buf: Seq<u8>) -> Result<Self, ParameterDataError> {
        let rest = buf.subrange(0, buf.len() as int);
        match DeviceLabel::spec_decode(rest) {
            Ok(t) => Ok(GetDeviceLabelResponse { device_label: t }),
            Err(e) => Err(e),
        }
    }

    /// Whether decoding the parameter data gives the value back.
    pub open spec fn spec_encodable(&self) -> bool {
        self.device_label.spec_encodable()
    }

    /// Appends the parameter data to `out`.
    pub fn write_encoding(&self, out: &mut Vec<u8>)
        ensures
            final(out)@ == old(out)@ + self.spec_encoding(),
    {
        let ghost start = out@;
        self.device_label.write_encoded(out);
        proof {
            assert(out@ =~= start + self.spec_encoding());
        }
    }

    pub fn size_of(&self) -> (n: usize)
        ensures
            n == self.spec_encoding().len(),
            n <= 32,
    {
        proof {
            use_type_invariant(&self.device_label);
            self.device_label.lemma_encode_len();
        }
        let mut out: Vec<u8> = Vec::new();
        self.write_encoding(&mut out);
        proof {
            assert(out@ =~= self.spec_encoding());
        }
        out.len()
    }

    pub fn encode_parameter_data(&self, buf: &mut [u8]) -> (r: Result<usize, ParameterDataError>)
        ensures
            encoded_into(old(buf)@, final(buf)@, self.spec_encoding(), r),
    {
        let mut out: Vec<u8> = Vec::new();
        self.write_encoding(&mut out);
        proof {
            assert(out@ =~= self.spec_encoding());
        }
        copy_encoded(buf, out.as_slice())
    }

    pub fn decode_parameter_data(buf: &[u8]) -> (r: Result<Self, ParameterDataError>)
        ensures
            r == Self::spec_decoded(buf@),
    {
        match DeviceLabel::decode_parameter_data(vstd::slice::slice_subrange(buf, 0, buf.len())) {
            Ok(t) => Ok(GetDeviceLabelResponse { device_label: t }),
            Err(e) => Err(e),
        }
    }

    /// Decoding the parameter data of an encodable value gives it back.
    pub proof fn lemma_roundtrip(&self)
        requires
            self.spec_encodable(),
        ensures
            Self::spec_decoded(self.spec_encoding()) == Ok::<Self, ParameterDataError>(*self),
    {
        let e = self.spec_encoding();
        assert(e.subrange(0, e.len() as int) =~= self.device_label.spec_encode());
        self.device_label.lemma_roundtrip();
    }
}

#[derive(Clone, Copy, Debug, PartialEq, Eq, Structural)]
pub struct GetFactoryDefaultsResponse {
    pub factory_reset: bool,
}

impl<'a> FixedWire<'a> for GetFactoryDefaultsResponse {
    open spec fn spec_size() -> nat {
        1
    }

    open spec fn spec_wire(&self) -> Seq<u8> {
        self.factory_reset.spec_wire()
    }

    open spec fn spec_read(bytes: Seq<u8>) -> Option<Self> {
        if <bool as FixedWire>::spec_read(bytes.subrange(0, 1)) is Some {
            Some(GetFactoryDefaultsResponse {
                factory_reset: <bool as FixedWire>::spec_read(bytes.subrange(0, 1)).unwrap(),
            })
        } else {
            None
        }
    }

    open spec fn spec_wire_valid(&self) -> bool {
        self.factory_reset.spec_wire_valid()
    }

    fn wire_size() -> (n: usize) {
        1
    }

    fn write_wire(&self, out: &mut Vec<u8>) {
        let ghost start = out@;
        self.factory_reset.write_wire(out);
        proof {
            assert(out@ =~= start + self.spec_wire());
        }
    }

    fn read_wire(buf: &'a [u8], pos: usize) -> (r: Option<Self>) {
        let _len = buf.len();
        let ghost bytes = buf@.subrange(pos as int, pos + 1);
        proof {
            assert(bytes.subrange(0, 1) =~= buf@.subrange(pos + 0, pos + 1));
        }
        let v0 = match <bool as FixedWire>::read_wire(buf, pos) {
            Some(v) => v,
            None => return None,
        };
        Some(GetFactoryDefaultsResponse { factory_reset: v0 })
    }

    proof fn lemma_wire(&self) {
        self.factory_reset.lemma_wire();
        let w = self.spec_wire();
        assert(w.subrange(0, 1) =~= self.factory_reset.spec_wire());
        if self.spec_wire_valid() {
            assert(<bool as FixedWire>::spec_read(w.subrange(0, 1)) == Some(self.factory_reset));
        }
    }
}

impl GetFactoryDefaultsResponse {
    /// The parameter data of the value.
    pub open spec fn spec_encoding(&self) -> Seq<u8> {
        self.spec_wire()
    }

    /// The value that parameter data stands for, or why it stands for none.
    pub open spec fn spec_decoded(buf: Seq<u8>) -> Result<Self, ParameterDataError> {
        record_decoded::<Self>(buf)
    }

    /// Whether decoding the parameter data gives the value back.
    pub open spec fn spec_encodable(&self) -> bool {
        self.spec_wire_valid()
    }

    pub fn size_of(&self) -> (n: usize)
        ensures
            n == self.spec_encoding().len(),
            n <= 1,
    {
        proof {
            self.lemma_wire();
        }
        Self::wire_size()
    }

    /// Appends the parameter data to `out`.
    pub fn write_encoding(&self, out: &mut Vec<u8>)
        ensures
            final(out)@ == old(out)@ + self.spec_encoding(),
    {
        self.write_wire(out);
    }

    pub fn encode_parameter_data(&self, buf: &mut [u8]) -> (r: Result<usize, ParameterDataError>)
        ensures
            encoded_into(old(buf)@, final(buf)@, self.spec_encoding(), r),
    {
        encode_record(self, buf)
    }

    pub fn decode_parameter_data(buf: &[u8]) -> (r: Result<Self, ParameterDataError>)
        ensures
            r == Self::spec_decoded(buf@),
    {
        decode_record(buf)
    }

    /// Decoding the parameter data of an encodable value gives it back.
    pub proof fn lemma_roundtrip(&self)
        requires
            self.spec_encodable(),
        ensures
            Self::spec_decoded(self.spec_encoding()) == Ok::<Self, ParameterDataError>(*self),
    {
        lemma_record_roundtrip(*self);
    }
}

#[derive(Clone, Copy, Debug, PartialEq)]
pub struct GetLanguageResponse<'a> {
    pub language: Iso639_1<'a>,
}

impl<'a> FixedWire<'a> for GetLanguageResponse<'a> {
    open spec fn spec_size() -> nat {
        2
    }

    open spec fn spec_wire(&self) -> Seq<u8> {
        self.language.spec_wire()
    }

    open spec fn spec_read(bytes: Seq<u8>) -> Option<Self> {
        if <Iso639_1<'a> as FixedWire>::spec_read(bytes.subrange(0, 2)) is Some {
            Some(GetLanguageResponse {
                language: <Iso639_1<'a> as FixedWire>::spec_read(bytes.subrange(0, 2)).unwrap(),
            })
        } else {
            None
        }
    }

    open spec fn spec_wire_valid(&self) -> bool {
        self.language.spec_wire_valid()
    }

    fn wire_size() -> (n: usize) {
        2
    }

    fn write_wire(&self, out: &mut Vec<u8>) {
        let ghost start = out@;
        self.language.write_wire(out);
        proof {
            assert(out@ =~= start + self.spec_wire());
        }
    }

    fn read_wire(buf: &'a [u8], pos: usize) -> (r: Option<Self>) {
        let _len = buf.len();
        let ghost bytes = buf@.subrange(pos as int, pos + 2);
        proof {
            assert(bytes.subrange(0, 2) =~= buf@.subrange(pos + 0, pos + 2));
        }
        let v0 = match <Iso639_1<'a> as FixedWire>::read_wire(buf, pos) {
            Some(v) => v,
            None => return None,
        };
        Some(GetLanguageResponse { language: v0 })
    }

    proof fn lemma_wire(&self) {
        self.language.lemma_wire();
        let w = self.spec_wire();
        assert(w.subrange(0, 2) =~= self.language.spec_wire());
        if self.spec_wire_valid() {
            assert(<Iso639_1<'a> as FixedWire>::spec_read(w.subrange(0, 2)) == Some(self.language));
        }
    }
}

impl<'a> GetLanguageResponse<'a> {
    /// The parameter data of the value.
    pub open spec fn spec_encoding(&self) -> Seq<u8> {
        self.spec_wire()
    }

    /// The value that parameter data stands for, or why it stands for none.
    pub open spec fn spec_decoded(buf: Seq<u8>) -> Result<Self, ParameterDataError> {
        record_decoded::<Self>(buf)
    }

    /// Whether decoding the parameter data gives the value back.
    pub open spec fn spec_encodable(&self) -> bool {
        self.spec_wire_valid()
    }

    pub fn size_of(&self) -> (n: usize)
        ensures
            n == self.spec_encoding().len(),
            n <= 2,
    {
        proof {
            self.lemma_wire();
        }
        Self::wire_size()
    }

    /// Appends the parameter data to `out`.
    pub fn write_encoding(&self, out: &mut Vec<u8>)
        ensures
            final(out)@ == old(out)@ + self.spec_encoding(),
    {
        self.write_wire(out);
    }

    pub fn encode_parameter_data(&self, buf: &mut [u8]) -> (r: Result<usize, ParameterDataError>)
        ensures
            encoded_into(old(buf)@, final(buf)@, self.spec_encoding(), r),
    {
        encode_record(self, buf)
    }

    pub fn decode_parameter_data(buf: &'a [u8]) -> (r: Result<Self, ParameterDataError>)
        ensures
            r == Self::spec_decoded(buf@),
    {
        decode_record(buf)
    }

    /// Decoding the parameter data of an encodable value gives it back.
    pub proof fn lemma_roundtrip(&self)
        requires
            self.spec_encodable(),
        ensures
            Self::spec_decoded(self.spec_encoding()) == Ok::<Self, ParameterDataError>(*self),
    {
        lemma_record_roundtrip(*self);
    }
}

#[derive(Clone, Copy, Debug, PartialEq)]
pub struct GetLanguageCapabilitiesResponse<'a> {
    pub language_capabilities: LanguageList<'a>,
}

impl<'a> GetLanguageCapabilitiesResponse<'a> {
    /// The parameter data of the value.
    pub open spec fn spec_encoding(&self) -> Seq<u8> {
        self.language_capabilities.spec_encode_items()
    }

    /// The value that parameter data stands for, or why it stands for none.
    pub open spec fn spec_decoded(buf: Seq<u8>) -> Result<Self, ParameterDataError> {
        let rest = buf.subrange(0, buf.len() as int);
        match LanguageList::spec_decode_items(rest) {
            Ok(t) => Ok(GetLanguageCapabilitiesResponse { language_capabilities: t }),
            Err(e) => Err(e),
        }
    }

    /// Whether decoding the parameter data gives the value back.
    pub open spec fn spec_encodable(&self) -> bool {
        self.language_capabilities.spec_items_encodable()
    }

    /// Appends the parameter data to `out`.
    pub fn write_encoding(&self, out: &mut Vec<u8>)
        ensures
            final(out)@ == old(out)@ + self.spec_encoding(),
    {
        let ghost start = out@;
        self.language_capabilities.write_items_to(out);
        proof {
            assert(out@ =~= start + self.spec_encoding());
        }
    }

    pub fn size_of(&self) -> (n: usize)
        ensures
            n == self.spec_encoding().len(),
            n <= 230,
    {
        proof {
            use_type_invariant(&self.language_capabilities);
            self.language_capabilities.lemma_encode_items_len();
        }
        let mut out: Vec<u8> = Vec::new();
        self.write_encoding(&mut out);
        proof {
            assert(out@ =~= self.spec_encoding());
        }
        out.len()
    }

    pub fn encode_parameter_data(&self, buf: &mut [u8]) -> (r: Result<usize, ParameterDataError>)
        ensures
            encoded_into(old(buf)@, final(buf)@, self.spec_encoding(), r),
    {
        let mut out: Vec<u8> = Vec::new();
        self.write_encoding(&mut out);
        proof {
            assert(out@ =~= self.spec_encoding());
        }
        copy_encoded(buf, out.as_slice())
    }

    pub fn decode_parameter_data(buf: &'a [u8]) -> (r: Result<Self, ParameterDataError>)
        ensures
            r == Self::spec_decoded(buf@),
    {
        match LanguageList::decode_items(buf, 0) {
            Ok(t) => Ok(GetLanguageCapabilitiesResponse { language_capabilities: t }),
            Err(e) => Err(e),
        }
    }

    /// Decoding the parameter data of an encodable value gives it back.
    pub proof fn lemma_roundtrip(&self)
        requires
            self.spec_encodable(),
        ensures
            Self::spec_decoded(self.spec_encoding()) == Ok::<Self, ParameterDataError>(*self),
    {
        let e = self.spec_encoding();
        assert(e.subrange(0, e.len() as int) =~= self.language_capabilities.spec_encode_items());
        self.language_capabilities.lemma_items_roundtrip();
    }
}

#[derive(Clone, Copy, Debug, PartialEq)]
pub struct GetSoftwareVersionLabelResponse {
    pub software_version_label: SoftwareVersionLabel,
}

impl GetSoftwareVersionLabelResponse {
    /// The parameter data of the value.
    pub open spec fn spec_encoding(&self) -> Seq<u8> {
        self.software_version_label.spec_encode()
    }

    /// The value that parameter data stands for, or why it stands for none.
    pub open spec fn spec_decoded(buf: Seq<u8>) -> Result<Self, ParameterDataError> {
        let rest = buf.subrange(0, buf.len() as int);
        match SoftwareVersionLabel::spec_decode(rest) {
            Ok(t) => Ok(GetSoftwareVersionLabelResponse { software_version_label: t }),
            Err(e) => Err(e),
        }
    }

    /// Whether decoding the parameter data gives the value back.
    pub open spec fn spec_encodable(&self) -> bool {
        self.software_version_label.spec_encodable()
    }

    /// Appends the parameter data to `out`.
    pub fn write_encoding(&self, out: &mut Vec<u8>)
        ensures
            final(out)@ == old(out)@ + self.spec_encoding(),
    {
        let ghost start = out@;
        self.software_version_label.write_encoded(out);
        proof {
            assert(out@ =~= start + self.spec_encoding());
        }
    }

    pub fn size_of(&self) -> (n: usize)
        ensures
            n == self.spec_encoding().len(),
            n <= 32,
    {
        proof {
            use_type_invariant(&self.software_version_label);
            self.software_version_label.lemma_encode_len();
        }
        let mut out: Vec<u8> = Vec::new();
        self.write_encoding(&mut out);
        proof {
            assert(out@ =~= self.spec_encoding());
        }
        out.len()
    }

    pub fn encode_parameter_data(&self, buf: &mut [u8]) -> (r: Result<usize, ParameterDataError>)
        ensures
            encoded_into(old(buf)@, final(buf)@, self.spec_encoding(), r),
    {
        let mut out: Vec<u8> = Vec::new();
        self.write_encoding(&mut out);
        proof {
            assert(out@ =~= self.spec_encoding());
        }
        copy_encoded(buf, out.as_slice())
    }

    pub fn decode_parameter_data(buf: &[u8]) -> (r: Result<Self, ParameterDataError>)
        ensures
            r == Self::spec_decoded(buf@),
    {
        match SoftwareVersionLabel::decode_parameter_data(vstd::slice::slice_subrange(buf, 0, buf.len())) {
            Ok(t) => Ok(GetSoftwareVersionLabelResponse { software_version_label: t }),
            Err(e) => Err(e),
        }
    }

    /// Decoding the parameter data of an encodable value gives it back.
    pub proof fn lemma_roundtrip(&self)
        requires
            self.spec_encodable(),
        ensures
            Self::spec_decoded(self.spec_encoding()) == Ok::<Self, ParameterDataError>(*self),
    {
        let e = self.spec_encoding();
        assert(e.subrange(0, e.len() as int) =~= self.software_version_label.spec_encode());
        self.software_version_label.lemma_roundtrip();
    }
}

#[derive(Clone, Copy, Debug, PartialEq, Eq, Structural)]
pub struct GetBootSoftwareVersionIdResponse {
    pub boot_software_version_id: u32,
}

impl<'a> FixedWire<'a> for GetBootSoftwareVersionIdResponse {
    open spec fn spec_size() -> nat {
        4
    }

    open spec fn spec_wire(&self) -> Seq<u8> {
        self.boot_software_version_id.spec_wire()
    }

    open spec fn spec_read(bytes: Seq<u8>) -> Option<Self> {
        if <u32 as FixedWire>::spec_read(bytes.subrange(0, 4)) is Some {
            Some(GetBootSoftwareVersionIdResponse {
                boot_software_version_id: <u32 as FixedWire>::spec_read(bytes.subrange(0, 4)).unwrap(),
            })
        } else {
            None
        }
    }

    open spec fn spec_wire_valid(&self) -> bool {
        self.boot_software_version_id.spec_wire_valid()
    }

    fn wire_size() -> (n: usize) {
        4
    }

    fn write_wire(&self, out: &mut Vec<u8>) {
        let ghost start = out@;
        self.boot_software_version_id.write_wire(out);
        proof {
            assert(out@ =~= start + self.spec_wire());
        }
    }

    fn read_wire(buf: &'a [u8], pos: usize) -> (r: Option<Self>) {
        let _len = buf.len();
        let ghost bytes = buf@.subrange(pos as int, pos + 4);
        proof {
            assert(bytes.subrange(0, 4) =~= buf@.subrange(pos + 0, pos + 4));
        }
        let v0 = match <u32 as FixedWire>::read_wire(buf, pos) {
            Some(v) => v,
            None => return None,
        };
        Some(GetBootSoftwareVersionIdResponse { boot_software_version_id: v0 })
    }

    proof fn lemma_wire(&self) {
        self.boot_software_version_id.lemma_wire();
        let w = self.spec_wire();
        assert(w.subrange(0, 4) =~= self.boot_software_version_id.spec_wire());
        if self.spec_wire_valid() {
            assert(<u32 as FixedWire>::spec_read(w.subrange(0, 4)) == Some(self.boot_software_version_id));
        }
    }
}

impl GetBootSoftwareVersionIdResponse {
    /// The parameter data of the value.
    pub open spec fn spec_encoding(&self) -> Seq<u8> {
        self.spec_wire()
    }

    /// The value that parameter data stands for, or why it stands for none.
    pub open spec fn spec_decoded(buf: Seq<u8>) -> Result<Self, ParameterDataError> {
        record_decoded::<Self>(buf)
    }

    /// Whether decoding the parameter data gives the value back.
    pub open spec fn spec_encodable(&self) -> bool {
        self.spec_wire_valid()
    }

    pub fn size_of(&self) -> (n: usize)
        ensures
            n == self.spec_encoding().len(),
            n <= 4,
    {
        proof {
            self.lemma_wire();
        }
        Self::wire_size()
    }

    /// Appends the parameter data to `out`.
    pub fn write_encoding(&self, out: &mut Vec<u8>)
        ensures
            final(out)@ == old(out)@ + self.spec_encoding(),
    {
        self.write_wire(out);
    }

    pub fn encode_parameter_data(&self, buf: &mut [u8]) -> (r: Result<usize, ParameterDataError>)
        ensures
            encoded_into(old(buf)@, final(buf)@, self.spec_encoding(), r),
    {
        encode_record(self, buf)
    }

    pub fn decode_parameter_data(buf: &[u8]) -> (r: Result<Self, ParameterDataError>)
        ensures
            r == Self::spec_decoded(buf@),
    {
        decode_record(buf)
    }

    /// Decoding the parameter data of an encodable value gives it back.
    pub proof fn lemma_roundtrip(&self)
        requires
            self.spec_encodable(),
        ensures
            Self::spec_decoded(self.spec_encoding()) == Ok::<Self, ParameterDataError>(*self),
    {
        lemma_record_roundtrip(*self);
    }
}

#[derive(Clone, Copy, Debug, PartialEq)]
pub struct GetBootSoftwareVersionLabelResponse {
    pub boot_software_version_label: BootSoftwareVersionLabel,
}

impl GetBootSoftwareVersionLabelResponse {
    /// The parameter data of the value.
    pub open spec fn spec_encoding(&self) -> Seq<u8> {
        self.boot_software_version_label.spec_encode()
    }

    /// The value that parameter data stands for, or why it stands for none.
    pub open spec fn spec_decoded(buf: Seq<u8>) -> Result<Self, ParameterDataError> {
        let rest = buf.subrange(0, buf.len() as int);
        match BootSoftwareVersionLabel::spec_decode(rest) {
            Ok(t) => Ok(GetBootSoftwareVersionLabelResponse { boot_software_version_label: t }),
            Err(e) => Err(e),
        }
    }

    /// Whether decoding the parameter data gives the value back.
    pub open spec fn spec_encodable(&self) -> bool {
        self.boot_software_version_label.spec_encodable()
    }

    /// Appends the parameter data to `out`.
    pub fn write_encoding(&self, out: &mut Vec<u8>)
        ensures
            final(out)@ == old(out)@ + self.spec_encoding(),
    {
        let ghost start = out@;
        self.boot_software_version_label.write_encoded(out);
        proof {
            assert(out@ =~= start + self.spec_encoding());
        }
    }

    pub fn size_of(&self) -> (n: usize)
        ensures
            n == self.spec_encoding().len(),
            n <= 32,
    {
        proof {
            use_type_invariant(&self.boot_software_version_label);
            self.boot_software_version_label.lemma_encode_len();
        }
        let mut out: Vec<u8> = Vec::new();
        self.write_encoding(&mut out);
        proof {
            assert(out@ =~= self.spec_encoding());
        }
        out.len()
    }

    pub fn encode_parameter_data(&self, buf: &mut [u8]) -> (r: Result<usize, ParameterDataError>)
        ensures
            encoded_into(old(buf)@, final(buf)@, self.spec_encoding(), r),
    {
        let mut out: Vec<u8> = Vec::new();
        self.write_encoding(&mut out);
        proof {
            assert(out@ =~= self.spec_encoding());
        }
        copy_encoded(buf, out.as_slice())
    }

    pub fn decode_parameter_data(buf: &[u8]) -> (r: Result<Self, ParameterDataError>)
        ensures
            r == Self::spec_decoded(buf@),
    {
        match BootSoftwareVersionLabel::decode_parameter_data(vstd::slice::slice_subrange(buf, 0, buf.len())) {
            Ok(t) => Ok(GetBootSoftwareVersionLabelResponse { boot_software_version_label: t }),
            Err(e) => Err(e),
        }
    }

    /// Decoding the parameter data of an encodable value gives it back.
    pub proof fn lemma_roundtrip(&self)
        requires
            self.spec_encodable(),
        ensures
            Self::spec_decoded(self.spec_encoding()) == Ok::<Self, ParameterDataError>(*self),
    {
        let e = self.spec_encoding();
        assert(e.subrange(0, e.len() as int) =~= self.boot_software_version_label.spec_encode());
        self.boot_software_version_label.lemma_roundtrip();
    }
}

#[derive(Clone, Copy, Debug, PartialEq, Eq, Structural)]
pub struct GetDmxPersonalityResponse {
    pub current_personality: u8,
    pub personality_count: u8,
}

impl<'a> FixedWire<'a> for GetDmxPersonalityResponse {
    open spec fn spec_size() -> nat {
        2
    }

    open spec fn spec_wire(&self) -> Seq<u8> {
        self.current_personality.spec_wire() + self.personality_count.spec_wire()
    }

    open spec fn spec_read(bytes: Seq<u8>) -> Option<Self> {
        if <u8 as FixedWire>::spec_read(bytes.subrange(0, 1)) is Some
            && <u8 as FixedWire>::spec_read(bytes.subrange(1, 2)) is Some {
            Some(GetDmxPersonalityResponse {
                current_personality: <u8 as FixedWire>::spec_read(bytes.subrange(0, 1)).unwrap(),
                personality_count: <u8 as FixedWire>::spec_read(bytes.subrange(1, 2)).unwrap(),
            })
        } else {
            None
        }
    }

    open spec fn spec_wire_valid(&self) -> bool {
        self.current_personality.spec_wire_valid() && self.personality_count.spec_wire_valid()
    }

    fn wire_size() -> (n: usize) {
        2
    }

    fn write_wire(&self, out: &mut Vec<u8>) {
        let ghost start = out@;
        self.current_personality.write_wire(out);
        self.personality_count.write_wire(out);
        proof {
            assert(out@ =~= start + self.spec_wire());
        }
    }

    fn read_wire(buf: &'a [u8], pos: usize) -> (r: Option<Self>) {
        let _len = buf.len();
        let ghost bytes = buf@.subrange(pos as int, pos + 2);
        proof {
            assert(bytes.subrange(0, 1) =~= buf@.subrange(pos + 0, pos + 1));
            assert(bytes.subrange(1, 2) =~= buf@.subrange(pos + 1, pos + 2));
        }
        let v0 = match <u8 as FixedWire>::read_wire(buf, pos) {
            Some(v) => v,
            None => return None,
        };
        let v1 = match <u8 as FixedWire>::read_wire(buf, pos + 1) {
            Some(v) => v,
            None => return None,
        };
        Some(GetDmxPersonalityResponse { current_personality: v0, personality_count: v1 })
    }

    proof fn lemma_wire(&self) {
        self.current_personality.lemma_wire();
        self.personality_count.lemma_wire();
        let w = self.spec_wire();
        assert(w.subrange(0, 1) =~= self.current_personality.spec_wire());
        assert(w.subrange(1, 2) =~= self.personality_count.spec_wire());
        if self.spec_wire_valid() {
            assert(<u8 as FixedWire>::spec_read(w.subrange(0, 1)) == Some(self.current_personality));
            assert(<u8 as FixedWire>::spec_read(w.subrange(1, 2)) == Some(self.personality_count));
        }
    }
}

impl GetDmxPersonalityResponse {
    /// The parameter data of the value.
    pub open spec fn spec_encoding(&self) -> Seq<u8> {
        self.spec_wire()
    }

    /// The value that parameter data stands for, or why it stands for none.
    pub open spec fn spec_decoded(buf: Seq<u8>) -> Result<Self, ParameterDataError> {
        record_decoded::<Self>(buf)
    }

    /// Whether decoding the parameter data gives the value back.
    pub open spec fn spec_encodable(&self) -> bool {
        self.spec_wire_valid()
    }

    pub fn size_of(&self) -> (n: usize)
        ensures
            n == self.spec_encoding().len(),
            n <= 2,
    {
        proof {
            self.lemma_wire();
        }
        Self::wire_size()
    }

    /// Appends the parameter data to `out`.
    pub fn write_encoding(&self, out: &mut Vec<u8>)
        ensures
            final(out)@ == old(out)@ + self.spec_encoding(),
    {
        self.write_wire(out);
    }

    pub fn encode_parameter_data(&self, buf: &mut [u8]) -> (r: Result<usize, ParameterDataError>)
        ensures
            encoded_into(old(buf)@, final(buf)@, self.spec_encoding(), r),
    {
        encode_record(self, buf)
    }

    pub fn decode_parameter_data(buf: &[u8]) -> (r: Result<Self, ParameterDataError>)
        ensures
            r == Self::spec_decoded(buf@),
    {
        decode_record(buf)
    }

    /// Decoding the parameter data of an encodable value gives it back.
    pub proof fn lemma_roundtrip(&self)
        requires
            self.spec_encodable(),
        ensures
            Self::spec_decoded(self.spec_encoding()) == Ok::<Self, ParameterDataError>(*self),
    {
        lemma_record_roundtrip(*self);
    }
}

#[derive(Clone, Copy, Debug, PartialEq)]
pub struct GetDmxPersonalityDescriptionResponse {
    pub id: u8,
    pub dmx_slots_required: u16,
    pub description: DmxPersonalityDescription,
}

impl GetDmxPersonalityDescriptionResponse {
    /// The parameter data of the value.
    pub open spec fn spec_encoding(&self) -> Seq<u8> {
        self.id.spec_wire() + self.dmx_slots_required.spec_wire() + self.description.spec_encode()
    }

    /// The value that parameter data stands for, or why it stands for none.
    pub open spec fn spec_decoded(buf: Seq<u8>) -> Result<Self, ParameterDataError> {
        if buf.len() < 3 {
            Err(too_short(buf.len(), 3))
        } else if !(<u8 as FixedWire>::spec_read(buf.subrange(0, 1)) is Some && <u16 as FixedWire>::spec_read(buf.subrange(1, 3)) is Some) {
            Err(ParameterDataError::MalformedData)
        } else {
            let rest = buf.subrange(3, buf.len() as int);
            match DmxPersonalityDescription::spec_decode(rest) {
                Ok(t) => Ok(GetDmxPersonalityDescriptionResponse { id: <u8 as FixedWire>::spec_read(buf.subrange(0, 1)).unwrap(), dmx_slots_required: <u16 as FixedWire>::spec_read(buf.subrange(1, 3)).unwrap(), description: t }),
                Err(e) => Err(e),
            }
        }
    }

    /// Whether decoding the parameter data gives the value back.
    pub open spec fn spec_encodable(&self) -> bool {
        self.id.spec_wire_valid() && self.dmx_slots_required.spec_wire_valid() && self.description.spec_encodable()
    }

    /// Appends the parameter data to `out`.
    pub fn write_encoding(&self, out: &mut Vec<u8>)
        ensures
            final(out)@ == old(out)@ + self.spec_encoding(),
    {
        let ghost start = out@;
        self.id.write_wire(out);
        self.dmx_slots_required.write_wire(out);
        self.description.write_encoded(out);
        proof {
            assert(out@ =~= start + self.spec_encoding());
        }
    }

    pub fn size_of(&self) -> (n: usize)
        ensures
            n == self.spec_encoding().len(),
            n <= 35,
    {
        proof {
            self.id.lemma_wire();
            self.dmx_slots_required.lemma_wire();
            use_type_invariant(&self.description);
            self.description.lemma_encode_len();
        }
        let mut out: Vec<u8> = Vec::new();
        self.write_encoding(&mut out);
        proof {
            assert(out@ =~= self.spec_encoding());
        }
        out.len()
    }

    pub fn encode_parameter_data(&self, buf: &mut [u8]) -> (r: Result<usize, ParameterDataError>)
        ensures
            encoded_into(old(buf)@, final(buf)@, self.spec_encoding(), r),
    {
        let mut out: Vec<u8> = Vec::new();
        self.write_encoding(&mut out);
        proof {
            assert(out@ =~= self.spec_encoding());
        }
        copy_encoded(buf, out.as_slice())
    }

    pub fn decode_parameter_data(buf: &[u8]) -> (r: Result<Self, ParameterDataError>)
        ensures
            r == Self::spec_decoded(buf@),
    {
        if buf.len() < 3 {
            return Err(ParameterDataError::BufferTooSmall { provided: buf.len(), required: 3 });
        }
        let v0 = match <u8 as FixedWire>::read_wire(buf, 0) {
            Some(v) => v,
            None => return Err(ParameterDataError::MalformedData),
        };
        let v1 = match <u16 as FixedWire>::read_wire(buf, 1) {
            Some(v) => v,
            None => return Err(ParameterDataError::MalformedData),
        };
        match DmxPersonalityDescription::decode_parameter_data(vstd::slice::slice_subrange(buf, 3, buf.len())) {
            Ok(t) => Ok(GetDmxPersonalityDescriptionResponse { id: v0, dmx_slots_required: v1, description: t }),
            Err(e) => Err(e),
        }
    }

    /// Decoding the parameter data of an encodable value gives it back.
    pub proof fn lemma_roundtrip(&self)
        requires
            self.spec_encodable(),
        ensures
            Self::spec_decoded(self.spec_encoding()) == Ok::<Self, ParameterDataError>(*self),
    {
        let e = self.spec_encoding();
        self.id.lemma_wire();
        self.dmx_slots_required.lemma_wire();
        assert(e.subrange(0, 1) =~= self.id.spec_wire());
        assert(e.subrange(1, 3) =~= self.dmx_slots_required.spec_wire());
        assert(e.subrange(3, e.len() as int) =~= self.description.spec_encode());
        self.description.lemma_roundtrip();
    }
}

#[derive(Clone, Copy, Debug, PartialEq, Eq, Structural)]
pub struct GetDmxStartAddressResponse {
    pub dmx_start_address: u16,
}

impl<'a> FixedWire<'a> for GetDmxStartAddressResponse {
    open spec fn spec_size() -> nat {
        2
    }

    open spec fn spec_wire(&self) -> Seq<u8> {
        self.dmx_start_address.spec_wire()
    }

    open spec fn spec_read(bytes: Seq<u8>) -> Option<Self> {
        if <u16 as FixedWire>::spec_read(bytes.subrange(0, 2)) is Some {
            Some(GetDmxStartAddressResponse {
                dmx_start_address: <u16 as FixedWire>::spec_read(bytes.subrange(0, 2)).unwrap(),
            })
        } else {
            None
        }
    }

    open spec fn spec_wire_valid(&self) -> bool {
        self.dmx_start_address.spec_wire_valid()
    }

    fn wire_size() -> (n: usize) {
        2
    }

    fn write_wire(&self, out: &mut Vec<u8>) {
        let ghost start = out@;
        self.dmx_start_address.write_wire(out);
        proof {
            assert(out@ =~= start + self.spec_wire());
        }
    }

    fn read_wire(buf: &'a [u8], pos: usize) -> (r: Option<Self>) {
        let _len = buf.len();
        let ghost bytes = buf@.subrange(pos as int, pos + 2);
        proof {
            assert(bytes.subrange(0, 2) =~= buf@.subrange(pos + 0, pos + 2));
        }
        let v0 = match <u16 as FixedWire>::read_wire(buf, pos) {
            Some(v) => v,
            None => return None,
        };
        Some(GetDmxStartAddressResponse { dmx_start_address: v0 })
    }

    proof fn lemma_wire(&self) {
        self.dmx_start_address.lemma_wire();
        let w = self.spec_wire();
        assert(w.subrange(0, 2) =~= self.dmx_start_address.spec_wire());
        if self.spec_wire_valid() {
            assert(<u16 as FixedWire>::spec_read(w.subrange(0, 2)) == Some(self.dmx_start_address));
        }
    }
}

impl GetDmxStartAddressResponse {
    /// The parameter data of the value.
    pub open spec fn spec_encoding(&self) -> Seq<u8> {
        self.spec_wire()
    }

    /// The value that parameter data stands for, or why it stands for none.
    pub open spec fn spec_decoded(buf: Seq<u8>) -> Result<Self, ParameterDataError> {
        record_decoded::<Self>(buf)
    }

    /// Whether decoding the parameter data gives the value back.
    pub open spec fn spec_encodable(&self) -> bool {
        self.spec_wire_valid()
    }

    pub fn size_of(&self) -> (n: usize)
        ensures
            n == self.spec_encoding().len(),
            n <= 2,
    {
        proof {
            self.lemma_wire();
        }
        Self::wire_size()
    }

    /// Appends the parameter data to `out`.
    pub fn write_encoding(&self, out: &mut Vec<u8>)
        ensures
            final(out)@ == old(out)@ + self.spec_encoding(),
    {
        self.write_wire(out);
    }

    pub fn encode_parameter_data(&self, buf: &mut [u8]) -> (r: Result<usize, ParameterDataError>)
        ensures
            encoded_into(old(buf)@, final(buf)@, self.spec_encoding(), r),
    {
        encode_record(self, buf)
    }

    pub fn decode_parameter_data(buf: &[u8]) -> (r: Result<Self, ParameterDataError>)
        ensures
            r == Self::spec_decoded(buf@),
    {
        decode_record(buf)
    }

    /// Decoding the parameter data of an encodable value gives it back.
    pub proof fn lemma_roundtrip(&self)
        requires
            self.spec_encodable(),
        ensures
            Self::spec_decoded(self.spec_encoding()) == Ok::<Self, ParameterDataError>(*self),
    {
        lemma_record_roundtrip(*self);
    }
}

#[derive(Clone, Copy, Debug, PartialEq)]
pub struct GetSlotInfoResponse {
    pub slot_info: SlotInfoList,
}

impl GetSlotInfoResponse {
    /// The parameter data of the value.
    pub open spec fn spec_encoding(&self) -> Seq<u8> {
        self.slot_info.spec_encode_items()
    }

    /// The value that parameter data stands for, or why it stands for none.
    pub open spec fn spec_decoded(buf: Seq<u8>) -> Result<Self, ParameterDataError> {
        let rest = buf.subrange(0, buf.len() as int);
        match SlotInfoList::spec_decode_items(rest) {
            Ok(t) => Ok(GetSlotInfoResponse { slot_info: t }),
            Err(e) => Err(e),
        }
    }

    /// Whether decoding the parameter data gives the value back.
    pub open spec fn spec_encodable(&self) -> bool {
        self.slot_info.spec_items_encodable()
    }

    /// Appends the parameter data to `out`.
    pub fn write_encoding(&self, out: &mut Vec<u8>)
        ensures
            final(out)@ == old(out)@ + self.spec_encoding(),
    {
        let ghost start = out@;
        self.slot_info.write_items_to(out);
        proof {
            assert(out@ =~= start + self.spec_encoding());
        }
    }

    pub fn size_of(&self) -> (n: usize)
        ensures
            n == self.spec_encoding().len(),
            n <= 230,
    {
        proof {
            use_type_invariant(&self.slot_info);
            self.slot_info.lemma_encode_items_len();
        }
        let mut out: Vec<u8> = Vec::new();
        self.write_encoding(&mut out);
        proof {
            assert(out@ =~= self.spec_encoding());
        }
        out.len()
    }

    pub fn encode_parameter_data(&self, buf: &mut [u8]) -> (r: Result<usize, ParameterDataError>)
        ensures
            encoded_into(old(buf)@, final(buf)@, self.spec_encoding(), r),
    {
        let mut out: Vec<u8> = Vec::new();
        self.write_encoding(&mut out);
        proof {
            assert(out@ =~= self.spec_encoding());
        }
        copy_encoded(buf, out.as_slice())
    }

    pub fn decode_parameter_data(buf: &[u8]) -> (r: Result<Self, ParameterDataError>)
        ensures
            r == Self::spec_decoded(buf@),
    {
        match SlotInfoList::decode_items(buf, 0) {
            Ok(t) => Ok(GetSlotInfoResponse { slot_info: t }),
            Err(e) => Err(e),
        }
    }

    /// Decoding the parameter data of an encodable value gives it back.
    pub proof fn lemma_roundtrip(&self)
        requires
            self.spec_encodable(),
        ensures
            Self::spec_decoded(self.spec_encoding()) == Ok::<Self, ParameterDataError>(*self),
    {
        let e = self.spec_encoding();
        assert(e.subrange(0, e.len() as int) =~= self.slot_info.spec_encode_items());
        self.slot_info.lemma_items_roundtrip();
    }
}

#[derive(Clone, Copy, Debug, PartialEq)]
pub struct GetSlotDescriptionResponse {
    pub slot_id: u16,
    pub description: SlotDescription,
}

impl GetSlotDescriptionResponse {
    /// The parameter data of the value.
    pub open spec fn spec_encoding(&self) -> Seq<u8> {
        self.slot_id.spec_wire() + self.description.spec_encode()
    }

    /// The value that parameter data stands for, or why it stands for none.
    pub open spec fn spec_decoded(buf: Seq<u8>) -> Result<Self, ParameterDataError> {
        if buf.len() < 2 {
            Err(too_short(buf.len(), 2))
        } else if !(<u16 as FixedWire>::spec_read(buf.subrange(0, 2)) is Some) {
            Err(ParameterDataError::MalformedData)
        } else {
            let rest = buf.subrange(2, buf.len() as int);
            match SlotDescription::spec_decode(rest) {
                Ok(t) => Ok(GetSlotDescriptionResponse { slot_id: <u16 as FixedWire>::spec_read(buf.subrange(0, 2)).unwrap(), description: t }),
                Err(e) => Err(e),
            }
        }
    }

    /// Whether decoding the parameter data gives the value back.
    pub open spec fn spec_encodable(&self) -> bool {
        self.slot_id.spec_wire_valid() && self.description.spec_encodable()
    }

    /// Appends the parameter data to `out`.
    pub fn write_encoding(&self, out: &mut Vec<u8>)
        ensures
            final(out)@ == old(out)@ + self.spec_encoding(),
    {
        let ghost start = out@;
        self.slot_id.write_wire(out);
        self.description.write_encoded(out);
        proof {
            assert(out@ =~= start + self.spec_encoding());
        }
    }

    pub fn size_of(&self) -> (n: usize)
        ensures
            n == self.spec_encoding().len(),
            n <= 34,
    {
        proof {
            self.slot_id.lemma_wire();
            use_type_invariant(&self.description);
            self.description.lemma_encode_len();
        }
        let mut out: Vec<u8> = Vec::new();
        self.write_encoding(&mut out);
        proof {
            assert(out@ =~= self.spec_encoding());
        }
        out.len()
    }

    pub fn encode_parameter_data(&self, buf: &mut [u8]) -> (r: Result<usize, ParameterDataError>)
        ensures
            encoded_into(old(buf)@, final(buf)@, self.spec_encoding(), r),
    {
        let mut out: Vec<u8> = Vec::new();
        self.write_encoding(&mut out);
        proof {
            assert(out@ =~= self.spec_encoding());
        }
        copy_encoded(buf, out.as_slice())
    }

    pub fn decode_parameter_data(buf: &[u8]) -> (r: Result<Self, ParameterDataError>)
        ensures
            r == Self::spec_decoded(buf@),
    {
        if buf.len() < 2 {
            return Err(ParameterDataError::BufferTooSmall { provided: buf.len(), required: 2 });
        }
        let v0 = match <u16 as FixedWire>::read_wire(buf, 0) {
            Some(v) => v,
            None => return Err(ParameterDataError::MalformedData),
        };
        match SlotDescription::decode_parameter_data(vstd::slice::slice_subrange(buf, 2, buf.len())) {
            Ok(t) => Ok(GetSlotDescriptionResponse { slot_id: v0, description: t }),
            Err(e) => Err(e),
        }
    }

    /// Decoding the parameter data of an encodable value gives it back.
    pub proof fn lemma_roundtrip(&self)
        requires
            self.spec_encodable(),
        ensures
            Self::spec_decoded(self.spec_encoding()) == Ok::<Self, ParameterDataError>(*self),
    {
        let e = self.spec_encoding();
        self.slot_id.lemma_wire();
        assert(e.subrange(0, 2) =~= self.slot_id.spec_wire());
        assert(e.subrange(2, e.len() as int) =~= self.description.spec_encode());
        self.description.lemma_roundtrip();
    }
}

#[derive(Clone, Copy, Debug, PartialEq)]
pub struct GetDefaultSlotValueResponse {
    pub default_slot_values: DefaultSlotValueList,
}

impl GetDefaultSlotValueResponse {
    /// The parameter data of the value.
    pub open spec fn spec_encoding(&self) -> Seq<u8> {
        self.default_slot_values.spec_encode_items()
    }

    /// The value that parameter data stands for, or why it stands for none.
    pub open spec fn spec_decoded(buf: Seq<u8>) -> Result<Self, ParameterDataError> {
        let rest = buf.subrange(0, buf.len() as int);
        match DefaultSlotValueList::spec_decode_items(rest) {
            Ok(t) => Ok(GetDefaultSlotValueResponse { default_slot_values: t }),
            Err(e) => Err(e),
        }
    }

    /// Whether decoding the parameter data gives the value back.
    pub open spec fn spec_encodable(&self) -> bool {
        self.default_slot_values.spec_items_encodable()
    }

    /// Appends the parameter data to `out`.
    pub fn write_encoding(&self, out: &mut Vec<u8>)
        ensures
            final(out)@ == old(out)@ + self.spec_encoding(),
    {
        let ghost start = out@;
        self.default_slot_values.write_items_to(out);
        proof {
            assert(out@ =~= start + self.spec_encoding());
        }
    }

    pub fn size_of(&self) -> (n: usize)
        ensures
            n == self.spec_encoding().len(),
            n <= 231,
    {
        proof {
            use_type_invariant(&self.default_slot_values);
            self.default_slot_values.lemma_encode_items_len();
        }
        let mut out: Vec<u8> = Vec::new();
        self.write_encoding(&mut out);
        proof {
            assert(out@ =~= self.spec_encoding());
        }
        out.len()
    }

    pub fn encode_parameter_data(&self, buf: &mut [u8]) -> (r: Result<usize, ParameterDataError>)
        ensures
            encoded_into(old(buf)@, final(buf)@, self.spec_encoding(), r),
    {
        let mut out: Vec<u8> = Vec::new();
        self.write_encoding(&mut out);
        proof {
            assert(out@ =~= self.spec_encoding());
        }
        copy_encoded(buf, out.as_slice())
    }

    pub fn decode_parameter_data(buf: &[u8]) -> (r: Result<Self, ParameterDataError>)
        ensures
            r == Self::spec_decoded(buf@),
    {
        match DefaultSlotValueList::decode_items(buf, 0) {
            Ok(t) => Ok(GetDefaultSlotValueResponse { default_slot_values: t }),
            Err(e) => Err(e),
        }
    }

    /// Decoding the parameter data of an encodable value gives it back.
    pub proof fn lemma_roundtrip(&self)
        requires
            self.spec_encodable(),
        ensures
            Self::spec_decoded(self.spec_encoding()) == Ok::<Self, ParameterDataError>(*self),
    {
        let e = self.spec_encoding();
        assert(e.subrange(0, e.len() as int) =~= self.default_slot_values.spec_encode_items());
        self.default_slot_values.lemma_items_roundtrip();
    }
}

#[derive(Clone, Copy, Debug, PartialEq)]
pub struct GetSensorDefinitionResponse {
    pub id: u8,
    pub kind: SensorType,
    pub unit: SensorUnit,
    pub prefix: SensorUnitPrefix,
    pub range_minimum_value: i16,
    pub range_maximum_value: i16,
    pub normal_minimum_value: i16,
    pub normal_maximum_value: i16,
    pub is_lowest_highest_detected_value_supported: bool,
    pub is_recorded_value_supported: bool,
    pub description: SensorDefinitionDescription,
}

/// The byte of a sensor definition that announces which extra values the sensor keeps: bit 1 for
/// its lowest and highest detected values, bit 0 for its recorded value.
pub open spec fn spec_sensor_support_byte(lowest_highest: bool, recorded: bool) -> u8 {
    ((if lowest_highest { 2int } else { 0int }) + (if recorded { 1int } else { 0int })) as u8
}

impl GetSensorDefinitionResponse {
    /// The parameter data of the value.
    pub open spec fn spec_encoding(&self) -> Seq<u8> {
        self.id.spec_wire() + self.kind.spec_wire() + self.unit.spec_wire() + self.prefix.spec_wire() + self.range_minimum_value.spec_wire() + self.range_maximum_value.spec_wire() + self.normal_minimum_value.spec_wire() + self.normal_maximum_value.spec_wire() + seq![spec_sensor_support_byte(self.is_lowest_highest_detected_value_supported, self.is_recorded_value_supported)] + self.description.spec_encode()
    }

    /// The value that parameter data stands for, or why it stands for none.
    pub open spec fn spec_decoded(buf: Seq<u8>) -> Result<Self, ParameterDataError> {
        if buf.len() < 13 {
            Err(too_short(buf.len(), 13))
        } else if !(<u8 as FixedWire>::spec_read(buf.subrange(0, 1)) is Some && <SensorType as FixedWire>::spec_read(buf.subrange(1, 2)) is Some && <SensorUnit as FixedWire>::spec_read(buf.subrange(2, 3)) is Some && <SensorUnitPrefix as FixedWire>::spec_read(buf.subrange(3, 4)) is Some && <i16 as FixedWire>::spec_read(buf.subrange(4, 6)) is Some && <i16 as FixedWire>::spec_read(buf.subrange(6, 8)) is Some && <i16 as FixedWire>::spec_read(buf.subrange(8, 10)) is Some && <i16 as FixedWire>::spec_read(buf.subrange(10, 12)) is Some) {
            Err(ParameterDataError::MalformedData)
        } else {
            let rest = buf.subrange(13, buf.len() as int);
            match SensorDefinitionDescription::spec_decode(rest) {
                Ok(t) => Ok(GetSensorDefinitionResponse { id: <u8 as FixedWire>::spec_read(buf.subrange(0, 1)).unwrap(), kind: <SensorType as FixedWire>::spec_read(buf.subrange(1, 2)).unwrap(), unit: <SensorUnit as FixedWire>::spec_read(buf.subrange(2, 3)).unwrap(), prefix: <SensorUnitPrefix as FixedWire>::spec_read(buf.subrange(3, 4)).unwrap(), range_minimum_value: <i16 as FixedWire>::spec_read(buf.subrange(4, 6)).unwrap(), range_maximum_value: <i16 as FixedWire>::spec_read(buf.subrange(6, 8)).unwrap(), normal_minimum_value: <i16 as FixedWire>::spec_read(buf.subrange(8, 10)).unwrap(), normal_maximum_value: <i16 as FixedWire>::spec_read(buf.subrange(10, 12)).unwrap(), is_lowest_highest_detected_value_supported: (buf[12] / 2) % 2 == 1, is_recorded_value_supported: buf[12] % 2 == 1, description: t }),
                Err(e) => Err(e),
            }
        }
    }

    /// Whether decoding the parameter data gives the value back.
    pub open spec fn spec_encodable(&self) -> bool {
        self.id.spec_wire_valid() && self.kind.spec_wire_valid() && self.unit.spec_wire_valid() && self.prefix.spec_wire_valid() && self.range_minimum_value.spec_wire_valid() && self.range_maximum_value.spec_wire_valid() && self.normal_minimum_value.spec_wire_valid() && self.normal_maximum_value.spec_wire_valid() && self.description.spec_encodable()
    }

    /// Appends the parameter data to `out`.
    pub fn write_encoding(&self, out: &mut Vec<u8>)
        ensures
            final(out)@ == old(out)@ + self.spec_encoding(),
    {
        let ghost start = out@;
        self.id.write_wire(out);
        self.kind.write_wire(out);
        self.unit.write_wire(out);
        self.prefix.write_wire(out);
        self.range_minimum_value.write_wire(out);
        self.range_maximum_value.write_wire(out);
        self.normal_minimum_value.write_wire(out);
        self.normal_maximum_value.write_wire(out);
        let support: u8 = (if self.is_lowest_highest_detected_value_supported { 2u8 } else { 0u8 })
            + (if self.is_recorded_value_supported { 1u8 } else { 0u8 });
        out.push(support);
        self.description.write_encoded(out);
        proof {
            assert(out@ =~= start + self.spec_encoding());
        }
    }

    pub fn size_of(&self) -> (n: usize)
        ensures
            n == self.spec_encoding().len(),
            n <= 45,
    {
        proof {
            self.id.lemma_wire();
            self.kind.lemma_wire();
            self.unit.lemma_wire();
            self.prefix.lemma_wire();
            self.range_minimum_value.lemma_wire();
            self.range_maximum_value.lemma_wire();
            self.normal_minimum_value.lemma_wire();
            self.normal_maximum_value.lemma_wire();
            self.is_lowest_highest_detected_value_supported.lemma_wire();
            self.is_recorded_value_supported.lemma_wire();
            use_type_invariant(&self.description);
            self.description.lemma_encode_len();
        }
        let mut out: Vec<u8> = Vec::new();
        self.write_encoding(&mut out);
        proof {
            assert(out@ =~= self.spec_encoding());
        }
        out.len()
    }

    pub fn encode_parameter_data(&self, buf: &mut [u8]) -> (r: Result<usize, ParameterDataError>)
        ensures
            encoded_into(old(buf)@, final(buf)@, self.spec_encoding(), r),
    {
        let mut out: Vec<u8> = Vec::new();
        self.write_encoding(&mut out);
        proof {
            assert(out@ =~= self.spec_encoding());
        }
        copy_encoded(buf, out.as_slice())
    }

    pub fn decode_parameter_data(buf: &[u8]) -> (r: Result<Self, ParameterDataError>)
        ensures
            r == Self::spec_decoded(buf@),
    {
        if buf.len() < 13 {
            return Err(ParameterDataError::BufferTooSmall { provided: buf.len(), required: 13 });
        }
        let v0 = match <u8 as FixedWire>::read_wire(buf, 0) {
            Some(v) => v,
            None => return Err(ParameterDataError::MalformedData),
        };
        let v1 = match <SensorType as FixedWire>::read_wire(buf, 1) {
            Some(v) => v,
            None => return Err(ParameterDataError::MalformedData),
        };
        let v2 = match <SensorUnit as FixedWire>::read_wire(buf, 2) {
            Some(v) => v,
            None => return Err(ParameterDataError::MalformedData),
        };
        let v3 = match <SensorUnitPrefix as FixedWire>::read_wire(buf, 3) {
            Some(v) => v,
            None => return Err(ParameterDataError::MalformedData),
        };
        let v4 = match <i16 as FixedWire>::read_wire(buf, 4) {
            Some(v) => v,
            None => return Err(ParameterDataError::MalformedData),
        };
        let v5 = match <i16 as FixedWire>::read_wire(buf, 6) {
            Some(v) => v,
            None => return Err(ParameterDataError::MalformedData),
        };
        let v6 = match <i16 as FixedWire>::read_wire(buf, 8) {
            Some(v) => v,
            None => return Err(ParameterDataError::MalformedData),
        };
        let v7 = match <i16 as FixedWire>::read_wire(buf, 10) {
            Some(v) => v,
            None => return Err(ParameterDataError::MalformedData),
        };
        let support: u8 = buf[12];
        let v8 = (support / 2) % 2 == 1;
        let v9 = support % 2 == 1;
        match SensorDefinitionDescription::decode_parameter_data(vstd::slice::slice_subrange(buf, 13, buf.len())) {
            Ok(t) => Ok(GetSensorDefinitionResponse { id: v0, kind: v1, unit: v2, prefix: v3, range_minimum_value: v4, range_maximum_value: v5, normal_minimum_value: v6, normal_maximum_value: v7, is_lowest_highest_detected_value_supported: v8, is_recorded_value_supported: v9, description: t }),
            Err(e) => Err(e),
        }
    }

    /// Decoding the parameter data of an encodable value gives it back.
    pub proof fn lemma_roundtrip(&self)
        requires
            self.spec_encodable(),
        ensures
            Self::spec_decoded(self.spec_encoding()) == Ok::<Self, ParameterDataError>(*self),
    {
        let e = self.spec_encoding();
        self.id.lemma_wire();
        self.kind.lemma_wire();
        self.unit.lemma_wire();
        self.prefix.lemma_wire();
        self.range_minimum_value.lemma_wire();
        self.range_maximum_value.lemma_wire();
        self.normal_minimum_value.lemma_wire();
        self.normal_maximum_value.lemma_wire();
        self.is_lowest_highest_detected_value_supported.lemma_wire();
        self.is_recorded_value_supported.lemma_wire();
        assert(e.subrange(0, 1) =~= self.id.spec_wire());
        assert(e.subrange(1, 2) =~= self.kind.spec_wire());
        assert(e.subrange(2, 3) =~= self.unit.spec_wire());
        assert(e.subrange(3, 4) =~= self.prefix.spec_wire());
        assert(e.subrange(4, 6) =~= self.range_minimum_value.spec_wire());
        assert(e.subrange(6, 8) =~= self.range_maximum_value.spec_wire());
        assert(e.subrange(8, 10) =~= self.normal_minimum_value.spec_wire());
        assert(e.subrange(10, 12) =~= self.normal_maximum_value.spec_wire());
        assert(e[12] == spec_sensor_support_byte(self.is_lowest_highest_detected_value_supported, self.is_recorded_value_supported));
        assert(e.subrange(13, e.len() as int) =~= self.description.spec_encode());
        self.description.lemma_roundtrip();
    }
}

#[derive(Clone, Copy, Debug, PartialEq, Eq, Structural)]
pub struct GetSensorValueResponse {
    pub sensor_id: u8,
    pub current_value: i16,
    pub lowest_detected_value: i16,
    pub highest_detected_value: i16,
    pub recorded_value: i16,
}

impl<'a> FixedWire<'a> for GetSensorValueResponse {
    open spec fn spec_size() -> nat {
        9
    }

    open spec fn spec_wire(&self) -> Seq<u8> {
        self.sensor_id.spec_wire() + self.current_value.spec_wire() + self.lowest_detected_value.spec_wire() + self.highest_detected_value.spec_wire() + self.recorded_value.spec_wire()
    }

    open spec fn spec_read(bytes: Seq<u8>) -> Option<Self> {
        if <u8 as FixedWire>::spec_read(bytes.subrange(0, 1)) is Some
            && <i16 as FixedWire>::spec_read(bytes.subrange(1, 3)) is Some
            && <i16 as FixedWire>::spec_read(bytes.subrange(3, 5)) is Some
            && <i16 as FixedWire>::spec_read(bytes.subrange(5, 7)) is Some
            && <i16 as FixedWire>::spec_read(bytes.subrange(7, 9)) is Some {
            Some(GetSensorValueResponse {
                sensor_id: <u8 as FixedWire>::spec_read(bytes.subrange(0, 1)).unwrap(),
                current_value: <i16 as FixedWire>::spec_read(bytes.subrange(1, 3)).unwrap(),
                lowest_detected_value: <i16 as FixedWire>::spec_read(bytes.subrange(3, 5)).unwrap(),
                highest_detected_value: <i16 as FixedWire>::spec_read(bytes.subrange(5, 7)).unwrap(),
                recorded_value: <i16 as FixedWire>::spec_read(bytes.subrange(7, 9)).unwrap(),
            })
        } else {
            None
        }
    }

    open spec fn spec_wire_valid(&self) -> bool {
        self.sensor_id.spec_wire_valid() && self.current_value.spec_wire_valid() && self.lowest_detected_value.spec_wire_valid() && self.highest_detected_value.spec_wire_valid() && self.recorded_value.spec_wire_valid()
    }

    fn wire_size() -> (n: usize) {
        9
    }

    fn write_wire(&self, out: &mut Vec<u8>) {
        let ghost start = out@;
        self.sensor_id.write_wire(out);
        self.current_value.write_wire(out);
        self.lowest_detected_value.write_wire(out);
        self.highest_detected_value.write_wire(out);
        self.recorded_value.write_wire(out);
        proof {
            assert(out@ =~= start + self.spec_wire());
        }
    }

    fn read_wire(buf: &'a [u8], pos: usize) -> (r: Option<Self>) {
        let _len = buf.len();
        let ghost bytes = buf@.subrange(pos as int, pos + 9);
        proof {
            assert(bytes.subrange(0, 1) =~= buf@.subrange(pos + 0, pos + 1));
            assert(bytes.subrange(1, 3) =~= buf@.subrange(pos + 1, pos + 3));
            assert(bytes.subrange(3, 5) =~= buf@.subrange(pos + 3, pos + 5));
            assert(bytes.subrange(5, 7) =~= buf@.subrange(pos + 5, pos + 7));
            assert(bytes.subrange(7, 9) =~= buf@.subrange(pos + 7, pos + 9));
        }
        let v0 = match <u8 as FixedWire>::read_wire(buf, pos) {
            Some(v) => v,
            None => return None,
        };
        let v1 = match <i16 as FixedWire>::read_wire(buf, pos + 1) {
            Some(v) => v,
            None => return None,
        };
        let v2 = match <i16 as FixedWire>::read_wire(buf, pos + 3) {
            Some(v) => v,
            None => return None,
        };
        let v3 = match <i16 as FixedWire>::read_wire(buf, pos + 5) {
            Some(v) => v,
            None => return None,
        };
        let v4 = match <i16 as FixedWire>::read_wire(buf, pos + 7) {
            Some(v) => v,
            None => return None,
        };
        Some(GetSensorValueResponse { sensor_id: v0, current_value: v1, lowest_detected_value: v2, highest_detected_value: v3, recorded_value: v4 })
    }

    proof fn lemma_wire(&self) {
        self.sensor_id.lemma_wire();
        self.current_value.lemma_wire();
        self.lowest_detected_value.lemma_wire();
        self.highest_detected_value.lemma_wire();
        self.recorded_value.lemma_wire();
        let w = self.spec_wire();
        assert(w.subrange(0, 1) =~= self.sensor_id.spec_wire());
        assert(w.subrange(1, 3) =~= self.current_value.spec_wire());
        assert(w.subrange(3, 5) =~= self.lowest_detected_value.spec_wire());
        assert(w.subrange(5, 7) =~= self.highest_detected_value.spec_wire());
        assert(w.subrange(7, 9) =~= self.recorded_value.spec_wire());
        if self.spec_wire_valid() {
            assert(<u8 as FixedWire>::spec_read(w.subrange(0, 1)) == Some(self.sensor_id));
            assert(<i16 as FixedWire>::spec_read(w.subrange(1, 3)) == Some(self.current_value));
            assert(<i16 as FixedWire>::spec_read(w.subrange(3, 5)) == Some(self.lowest_detected_value));
            assert(<i16 as FixedWire>::spec_read(w.subrange(5, 7)) == Some(self.highest_detected_value));
            assert(<i16 as FixedWire>::spec_read(w.subrange(7, 9)) == Some(self.recorded_value));
        }
    }
}

impl GetSensorValueResponse {
    /// The parameter data of the value.
    pub open spec fn spec_encoding(&self) -> Seq<u8> {
        self.spec_wire()
    }

    /// The value that parameter data stands for, or why it stands for none.
    pub open spec fn spec_decoded(buf: Seq<u8>) -> Result<Self, ParameterDataError> {
        record_decoded::<Self>(buf)
    }

    /// Whether decoding the parameter data gives the value back.
    pub open spec fn spec_encodable(&self) -> bool {
        self.spec_wire_valid()
    }

    pub fn size_of(&self) -> (n: usize)
        ensures
            n == self.spec_encoding().len(),
            n <= 9,
    {
        proof {
            self.lemma_wire();
        }
        Self::wire_size()
    }

    /// Appends the parameter data to `out`.
    pub fn write_encoding(&self, out: &mut Vec<u8>)
        ensures
            final(out)@ == old(out)@ + self.spec_encoding(),
    {
        self.write_wire(out);
    }

    pub fn encode_parameter_data(&self, buf: &mut [u8]) -> (r: Result<usize, ParameterDataError>)
        ensures
            encoded_into(old(buf)@, final(buf)@, self.spec_encoding(), r),
    {
        encode_record(self, buf)
    }

    pub fn decode_parameter_data(buf: &[u8]) -> (r: Result<Self, ParameterDataError>)
        ensures
            r == Self::spec_decoded(buf@),
    {
        decode_record(buf)
    }

    /// Decoding the parameter data of an encodable value gives it back.
    pub proof fn lemma_roundtrip(&self)
        requires
            self.spec_encodable(),
        ensures
            Self::spec_decoded(self.spec_encoding()) == Ok::<Self, ParameterDataError>(*self),
    {
        lemma_record_roundtrip(*self);
    }
}

#[derive(Clone, Copy, Debug, PartialEq, Eq, Structural)]
pub struct SetSensorValueResponse {
    pub sensor_id: u8,
    pub current_value: i16,
    pub lowest_detected_value: i16,
    pub highest_detected_value: i16,
    pub recorded_value: i16,
}

impl<'a> FixedWire<'a> for SetSensorValueResponse {
    open spec fn spec_size() -> nat {
        9
    }

    open spec fn spec_wire(&self) -> Seq<u8> {
        self.sensor_id.spec_wire() + self.current_value.spec_wire() + self.lowest_detected_value.spec_wire() + self.highest_detected_value.spec_wire() + self.recorded_value.spec_wire()
    }

    open spec fn spec_read(bytes: Seq<u8>) -> Option<Self> {
        if <u8 as FixedWire>::spec_read(bytes.subrange(0, 1)) is Some
            && <i16 as FixedWire>::spec_read(bytes.subrange(1, 3)) is Some
            && <i16 as FixedWire>::spec_read(bytes.subrange(3, 5)) is Some
            && <i16 as FixedWire>::spec_read(bytes.subrange(5, 7)) is Some
            && <i16 as FixedWire>::spec_read(bytes.subrange(7, 9)) is Some {
            Some(SetSensorValueResponse {
                sensor_id: <u8 as FixedWire>::spec_read(bytes.subrange(0, 1)).unwrap(),
                current_value: <i16 as FixedWire>::spec_read(bytes.subrange(1, 3)).unwrap(),
                lowest_detected_value: <i16 as FixedWire>::spec_read(bytes.subrange(3, 5)).unwrap(),
                highest_detected_value: <i16 as FixedWire>::spec_read(bytes.subrange(5, 7)).unwrap(),
                recorded_value: <i16 as FixedWire>::spec_read(bytes.subrange(7, 9)).unwrap(),
            })
        } else {
            None
        }
    }

    open spec fn spec_wire_valid(&self) -> bool {
        self.sensor_id.spec_wire_valid() && self.current_value.spec_wire_valid() && self.lowest_detected_value.spec_wire_valid() && self.highest_detected_value.spec_wire_valid() && self.recorded_value.spec_wire_valid()
    }

    fn wire_size() -> (n: usize) {
        9
    }

    fn write_wire(&self, out: &mut Vec<u8>) {
        let ghost start = out@;
        self.sensor_id.write_wire(out);
        self.current_value.write_wire(out);
        self.lowest_detected_value.write_wire(out);
        self.highest_detected_value.write_wire(out);
        self.recorded_value.write_wire(out);
        proof {
            assert(out@ =~= start + self.spec_wire());
        }
    }

    fn read_wire(buf: &'a [u8], pos: usize) -> (r: Option<Self>) {
        let _len = buf.len();
        let ghost bytes = buf@.subrange(pos as int, pos + 9);
        proof {
            assert(bytes.subrange(0, 1) =~= buf@.subrange(pos + 0, pos + 1));
            assert(bytes.subrange(1, 3) =~= buf@.subrange(pos + 1, pos + 3));
            assert(bytes.subrange(3, 5) =~= buf@.subrange(pos + 3, pos + 5));
            assert(bytes.subrange(5, 7) =~= buf@.subrange(pos + 5, pos + 7));
            assert(bytes.subrange(7, 9) =~= buf@.subrange(pos + 7, pos + 9));
        }
        let v0 = match <u8 as FixedWire>::read_wire(buf, pos) {
            Some(v) => v,
            None => return None,
        };
        let v1 = match <i16 as FixedWire>::read_wire(buf, pos + 1) {
            Some(v) => v,
            None => return None,
        };
        let v2 = match <i16 as FixedWire>::read_wire(buf, pos + 3) {
            Some(v) => v,
            None => return None,
        };
        let v3 = match <i16 as FixedWire>::read_wire(buf, pos + 5) {
            Some(v) => v,
            None => return None,
        };
        let v4 = match <i16 as FixedWire>::read_wire(buf, pos + 7) {
            Some(v) => v,
            None => return None,
        };
        Some(SetSensorValueResponse { sensor_id: v0, current_value: v1, lowest_detected_value: v2, highest_detected_value: v3, recorded_value: v4 })
    }

    proof fn lemma_wire(&self) {
        self.sensor_id.lemma_wire();
        self.current_value.lemma_wire();
        self.lowest_detected_value.lemma_wire();
        self.highest_detected_value.lemma_wire();
        self.recorded_value.lemma_wire();
        let w = self.spec_wire();
        assert(w.subrange(0, 1) =~= self.sensor_id.spec_wire());
        assert(w.subrange(1, 3) =~= self.current_value.spec_wire());
        assert(w.subrange(3, 5) =~= self.lowest_detected_value.spec_wire());
        assert(w.subrange(5, 7) =~= self.highest_detected_value.spec_wire());
        assert(w.subrange(7, 9) =~= self.recorded_value.spec_wire());
        if self.spec_wire_valid() {
            assert(<u8 as FixedWire>::spec_read(w.subrange(0, 1)) == Some(self.sensor_id));
            assert(<i16 as FixedWire>::spec_read(w.subrange(1, 3)) == Some(self.current_value));
            assert(<i16 as FixedWire>::spec_read(w.subrange(3, 5)) == Some(self.lowest_detected_value));
            assert(<i16 as FixedWire>::spec_read(w.subrange(5, 7)) == Some(self.highest_detected_value));
            assert(<i16 as FixedWire>::spec_read(w.subrange(7, 9)) == Some(self.recorded_value));
        }
    }
}

impl SetSensorValueResponse {
    /// The parameter data of the value.
    pub open spec fn spec_encoding(&self) -> Seq<u8> {
        self.spec_wire()
    }

    /// The value that parameter data stands for, or why it stands for none.
    pub open spec fn spec_decoded(buf: Seq<u8>) -> Result<Self, ParameterDataError> {
        record_decoded::<Self>(buf)
    }

    /// Whether decoding the parameter data gives the value back.
    pub open spec fn spec_encodable(&self) -> bool {
        self.spec_wire_valid()
    }

    pub fn size_of(&self) -> (n: usize)
        ensures
            n == self.spec_encoding().len(),
            n <= 9,
    {
        proof {
            self.lemma_wire();
        }
        Self::wire_size()
    }

    /// Appends the parameter data to `out`.
    pub fn write_encoding(&self, out: &mut Vec<u8>)
        ensures
            final(out)@ == old(out)@ + self.spec_encoding(),
    {
        self.write_wire(out);
    }

    pub fn encode_parameter_data(&self, buf: &mut [u8]) -> (r: Result<usize, ParameterDataError>)
        ensures
            encoded_into(old(buf)@, final(buf)@, self.spec_encoding(), r),
    {
        encode_record(self, buf)
    }

    pub fn decode_parameter_data(buf: &[u8]) -> (r: Result<Self, ParameterDataError>)
        ensures
            r == Self::spec_decoded(buf@),
    {
        decode_record(buf)
    }

    /// Decoding the parameter data of an encodable value gives it back.
    pub proof fn lemma_roundtrip(&self)
        requires
            self.spec_encodable(),
        ensures
            Self::spec_decoded(self.spec_encoding()) == Ok::<Self, ParameterDataError>(*self),
    {
        lemma_record_roundtrip(*self);
    }
}

#[derive(Clone, Copy, Debug, PartialEq, Eq, Structural)]
pub struct GetDeviceHoursResponse {
    pub device_hours: u32,
}

impl<'a> FixedWire<'a> for GetDeviceHoursResponse {
    open spec fn spec_size() -> nat {
        4
    }

    open spec fn spec_wire(&self) -> Seq<u8> {
        self.device_hours.spec_wire()
    }

    open spec fn spec_read(bytes: Seq<u8>) -> Option<Self> {
        if <u32 as FixedWire>::spec_read(bytes.subrange(0, 4)) is Some {
            Some(GetDeviceHoursResponse {
                device_hours: <u32 as FixedWire>::spec_read(bytes.subrange(0, 4)).unwrap(),
            })
        } else {
            None
        }
    }

    open spec fn spec_wire_valid(&self) -> bool {
        self.device_hours.spec_wire_valid()
    }

    fn wire_size() -> (n: usize) {
        4
    }

    fn write_wire(&self, out: &mut Vec<u8>) {
        let ghost start = out@;
        self.device_hours.write_wire(out);
        proof {
            assert(out@ =~= start + self.spec_wire());
        }
    }

    fn read_wire(buf: &'a [u8], pos: usize) -> (r: Option<Self>) {
        let _len = buf.len();
        let ghost bytes = buf@.subrange(pos as int, pos + 4);
        proof {
            assert(bytes.subrange(0, 4) =~= buf@.subrange(pos + 0, pos + 4));
        }
        let v0 = match <u32 as FixedWire>::read_wire(buf, pos) {
            Some(v) => v,
            None => return None,
        };
        Some(GetDeviceHoursResponse { device_hours: v0 })
    }

    proof fn lemma_wire(&self) {
        self.device_hours.lemma_wire();
        let w = self.spec_wire();
        assert(w.subrange(0, 4) =~= self.device_hours.spec_wire());
        if self.spec_wire_valid() {
            assert(<u32 as FixedWire>::spec_read(w.subrange(0, 4)) == Some(self.device_hours));
        }
    }
}

impl GetDeviceHoursResponse {
    /// The parameter data of the value.
    pub open spec fn spec_encoding(&self) -> Seq<u8> {
        self.spec_wire()
    }

    /// The value that parameter data stands for, or why it stands for none.
    pub open spec fn spec_decoded(buf: Seq<u8>) -> Result<Self, ParameterDataError> {
        record_decoded::<Self>(buf)
    }

    /// Whether decoding the parameter data gives the value back.
    pub open spec fn spec_encodable(&self) -> bool {
        self.spec_wire_valid()
    }

    pub fn size_of(&self) -> (n: usize)
        ensures
            n == self.spec_encoding().len(),
            n <= 4,
    {
        proof {
            self.lemma_wire();
        }
        Self::wire_size()
    }

    /// Appends the parameter data to `out`.
    pub fn write_encoding(&self, out: &mut Vec<u8>)
        ensures
            final(out)@ == old(out)@ + self.spec_encoding(),
    {
        self.write_wire(out);
    }

    pub fn encode_parameter_data(&self, buf: &mut [u8]) -> (r: Result<usize, ParameterDataError>)
        ensures
            encoded_into(old(buf)@, final(buf)@, self.spec_encoding(), r),
    {
        encode_record(self, buf)
    }

    pub fn decode_parameter_data(buf: &[u8]) -> (r: Result<Self, ParameterDataError>)
        ensures
            r == Self::spec_decoded(buf@),
    {
        decode_record(buf)
    }

    /// Decoding the parameter data of an encodable value gives it back.
    pub proof fn lemma_roundtrip(&self)
        requires
            self.spec_encodable(),
        ensures
            Self::spec_decoded(self.spec_encoding()) == Ok::<Self, ParameterDataError>(*self),
    {
        lemma_record_roundtrip(*self);
    }
}

#[derive(Clone, Copy, Debug, PartialEq, Eq, Structural)]
pub struct GetLampHoursResponse {
    pub lamp_hours: u32,
}

impl<'a> FixedWire<'a> for GetLampHoursResponse {
    open spec fn spec_size() -> nat {
        4
    }

    open spec fn spec_wire(&self) -> Seq<u8> {
        self.lamp_hours.spec_wire()
    }

    open spec fn spec_read(bytes: Seq<u8>) -> Option<Self> {
        if <u32 as FixedWire>::spec_read(bytes.subrange(0, 4)) is Some {
            Some(GetLampHoursResponse {
                lamp_hours: <u32 as FixedWire>::spec_read(bytes.subrange(0, 4)).unwrap(),
            })
        } else {
            None
        }
    }

    open spec fn spec_wire_valid(&self) -> bool {
        self.lamp_hours.spec_wire_valid()
    }

    fn wire_size() -> (n: usize) {
        4
    }

    fn write_wire(&self, out: &mut Vec<u8>) {
        let ghost start = out@;
        self.lamp_hours.write_wire(out);
        proof {
            assert(out@ =~= start + self.spec_wire());
        }
    }

    fn read_wire(buf: &'a [u8], pos: usize) -> (r: Option<Self>) {
        let _len = buf.len();
        let ghost bytes = buf@.subrange(pos as int, pos + 4);
        proof {
            assert(bytes.subrange(0, 4) =~= buf@.subrange(pos + 0, pos + 4));
        }
        let v0 = match <u32 as FixedWire>::read_wire(buf, pos) {
            Some(v) => v,
            None => return None,
        };
        Some(GetLampHoursResponse { lamp_hours: v0 })
    }

    proof fn lemma_wire(&self) {
        self.lamp_hours.lemma_wire();
        let w = self.spec_wire();
        assert(w.subrange(0, 4) =~= self.lamp_hours.spec_wire());
        if self.spec_wire_valid() {
            assert(<u32 as FixedWire>::spec_read(w.subrange(0, 4)) == Some(self.lamp_hours));
        }
    }
}

impl GetLampHoursResponse {
    /// The parameter data of the value.
    pub open spec fn spec_encoding(&self) -> Seq<u8> {
        self.spec_wire()
    }

    /// The value that parameter data stands for, or why it stands for none.
    pub open spec fn spec_decoded(buf: Seq<u8>) -> Result<Self, ParameterDataError> {
        record_decoded::<Self>(buf)
    }

    /// Whether decoding the parameter data gives the value back.
    pub open spec fn spec_encodable(&self) -> bool {
        self.spec_wire_valid()
    }

    pub fn size_of(&self) -> (n: usize)
        ensures
            n == self.spec_encoding().len(),
            n <= 4,
    {
        proof {
            self.lemma_wire();
        }
        Self::wire_size()
    }

    /// Appends the parameter data to `out`.
    pub fn write_encoding(&self, out: &mut Vec<u8>)
        ensures
            final(out)@ == old(out)@ + self.spec_encoding(),
    {
        self.write_wire(out);
    }

    pub fn encode_parameter_data(&self, buf: &mut [u8]) -> (r: Result<usize, ParameterDataError>)
        ensures
            encoded_into(old(buf)@, final(buf)@, self.spec_encoding(), r),
    {
        encode_record(self, buf)
    }

    pub fn decode_parameter_data(buf: &[u8]) -> (r: Result<Self, ParameterDataError>)
        ensures
            r == Self::spec_decoded(buf@),
    {
        decode_record(buf)
    }

    /// Decoding the parameter data of an encodable value gives it back.
    pub proof fn lemma_roundtrip(&self)
        requires
            self.spec_encodable(),
        ensures
            Self::spec_decoded(self.spec_encoding()) == Ok::<Self, ParameterDataError>(*self),
    {
        lemma_record_roundtrip(*self);
    }
}

#[derive(Clone, Copy, Debug, PartialEq, Eq, Structural)]
pub struct GetLampStrikesResponse {
    pub lamp_strikes: u32,
}

impl<'a> FixedWire<'a> for GetLampStrikesResponse {
    open spec fn spec_size() -> nat {
        4
    }

    open spec fn spec_wire(&self) -> Seq<u8> {
        self.lamp_strikes.spec_wire()
    }

    open spec fn spec_read(bytes: Seq<u8>) -> Option<Self> {
        if <u32 as FixedWire>::spec_read(bytes.subrange(0, 4)) is Some {
            Some(GetLampStrikesResponse {
                lamp_strikes: <u32 as FixedWire>::spec_read(bytes.subrange(0, 4)).unwrap(),
            })
        } else {
            None
        }
    }

    open spec fn spec_wire_valid(&self) -> bool {
        self.lamp_strikes.spec_wire_valid()
    }

    fn wire_size() -> (n: usize) {
        4
    }

    fn write_wire(&self, out: &mut Vec<u8>) {
        let ghost start = out@;
        self.lamp_strikes.write_wire(out);
        proof {
            assert(out@ =~= start + self.spec_wire());
        }
    }

    fn read_wire(buf: &'a [u8], pos: usize) -> (r: Option<Self>) {
        let _len = buf.len();
        let ghost bytes = buf@.subrange(pos as int, pos + 4);
        proof {
            assert(bytes.subrange(0, 4) =~= buf@.subrange(pos + 0, pos + 4));
        }
        let v0 = match <u32 as FixedWire>::read_wire(buf, pos) {
            Some(v) => v,
            None => return None,
        };
        Some(GetLampStrikesResponse { lamp_strikes: v0 })
    }

    proof fn lemma_wire(&self) {
        self.lamp_strikes.lemma_wire();
        let w = self.spec_wire();
        assert(w.subrange(0, 4) =~= self.lamp_strikes.spec_wire());
        if self.spec_wire_valid() {
            assert(<u32 as FixedWire>::spec_read(w.subrange(0, 4)) == Some(self.lamp_strikes));
        }
    }
}

impl GetLampStrikesResponse {
    /// The parameter data of the value.
    pub open spec fn spec_encoding(&self) -> Seq<u8> {
        self.spec_wire()
    }

    /// The value that parameter data stands for, or why it stands for none.
    pub open spec fn spec_decoded(buf: Seq<u8>) -> Result<Self, ParameterDataError> {
        record_decoded::<Self>(buf)
    }

    /// Whether decoding the parameter data gives the value back.
    pub open spec fn spec_encodable(&self) -> bool {
        self.spec_wire_valid()
    }

    pub fn size_of(&self) -> (n: usize)
        ensures
            n == self.spec_encoding().len(),
            n <= 4,
    {
        proof {
            self.lemma_wire();
        }
        Self::wire_size()
    }

    /// Appends the parameter data to `out`.
    pub fn write_encoding(&self, out: &mut Vec<u8>)
        ensures
            final(out)@ == old(out)@ + self.spec_encoding(),
    {
        self.write_wire(out);
    }

    pub fn encode_parameter_data(&self, buf: &mut [u8]) -> (r: Result<usize, ParameterDataError>)
        ensures
            encoded_into(old(buf)@, final(buf)@, self.spec_encoding(), r),
    {
        encode_record(self, buf)
    }

    pub fn decode_parameter_data(buf: &[u8]) -> (r: Result<Self, ParameterDataError>)
        ensures
            r == Self::spec_decoded(buf@),
    {
        decode_record(buf)
    }

    /// Decoding the parameter data of an encodable value gives it back.
    pub proof fn lemma_roundtrip(&self)
        requires
            self.spec_encodable(),
        ensures
            Self::spec_decoded(self.spec_encoding()) == Ok::<Self, ParameterDataError>(*self),
    {
        lemma_record_roundtrip(*self);
    }
}

#[derive(Clone, Copy, Debug, PartialEq, Eq, Structural)]
pub struct GetLampStateResponse {
    pub lamp_state: LampState,
}

impl<'a> FixedWire<'a> for GetLampStateResponse {
    open spec fn spec_size() -> nat {
        1
    }

    open spec fn spec_wire(&self) -> Seq<u8> {
        self.lamp_state.spec_wire()
    }

    open spec fn spec_read(bytes: Seq<u8>) -> Option<Self> {
        if <LampState as FixedWire>::spec_read(bytes.subrange(0, 1)) is Some {
            Some(GetLampStateResponse {
                lamp_state: <LampState as FixedWire>::spec_read(bytes.subrange(0, 1)).unwrap(),
            })
        } else {
            None
        }
    }

    open spec fn spec_wire_valid(&self) -> bool {
        self.lamp_state.spec_wire_valid()
    }

    fn wire_size() -> (n: usize) {
        1
    }

    fn write_wire(&self, out: &mut Vec<u8>) {
        let ghost start = out@;
        self.lamp_state.write_wire(out);
        proof {
            assert(out@ =~= start + self.spec_wire());
        }
    }

    fn read_wire(buf: &'a [u8], pos: usize) -> (r: Option<Self>) {
        let _len = buf.len();
        let ghost bytes = buf@.subrange(pos as int, pos + 1);
        proof {
            assert(bytes.subrange(0, 1) =~= buf@.subrange(pos + 0, pos + 1));
        }
        let v0 = match <LampState as FixedWire>::read_wire(buf, pos) {
            Some(v) => v,
            None => return None,
        };
        Some(GetLampStateResponse { lamp_state: v0 })
    }

    proof fn lemma_wire(&self) {
        self.lamp_state.lemma_wire();
        let w = self.spec_wire();
        assert(w.subrange(0, 1) =~= self.lamp_state.spec_wire());
        if self.spec_wire_valid() {
            assert(<LampState as FixedWire>::spec_read(w.subrange(0, 1)) == Some(self.lamp_state));
        }
    }
}

impl GetLampStateResponse {
    /// The parameter data of the value.
    pub open spec fn spec_encoding(&self) -> Seq<u8> {
        self.spec_wire()
    }

    /// The value that parameter data stands for, or why it stands for none.
    pub open spec fn spec_decoded(buf: Seq<u8>) -> Result<Self, ParameterDataError> {
        record_decoded::<Self>(buf)
    }

    /// Whether decoding the parameter data gives the value back.
    pub open spec fn spec_encodable(&self) -> bool {
        self.spec_wire_valid()
    }

    pub fn size_of(&self) -> (n: usize)
        ensures
            n == self.spec_encoding().len(),
            n <= 1,
    {
        proof {
            self.lemma_wire();
        }
        Self::wire_size()
    }

    /// Appends the parameter data to `out`.
    pub fn write_encoding(&self, out: &mut Vec<u8>)
        ensures
            final(out)@ == old(out)@ + self.spec_encoding(),
    {
        self.write_wire(out);
    }

    pub fn encode_parameter_data(&self, buf: &mut [u8]) -> (r: Result<usize, ParameterDataError>)
        ensures
            encoded_into(old(buf)@, final(buf)@, self.spec_encoding(), r),
    {
        encode_record(self, buf)
    }

    pub fn decode_parameter_data(buf: &[u8]) -> (r: Result<Self, ParameterDataError>)
        ensures
            r == Self::spec_decoded(buf@),
    {
        decode_record(buf)
    }

    /// Decoding the parameter data of an encodable value gives it back.
    pub proof fn lemma_roundtrip(&self)
        requires
            self.spec_encodable(),
        ensures
            Self::spec_decoded(self.spec_encoding()) == Ok::<Self, ParameterDataError>(*self),
    {
        lemma_record_roundtrip(*self);
    }
}

#[derive(Clone, Copy, Debug, PartialEq, Eq, Structural)]
pub struct GetLampOnModeResponse {
    pub lamp_on_mode: LampOnMode,
}

impl<'a> FixedWire<'a> for GetLampOnModeResponse {
    open spec fn spec_size() -> nat {
        1
    }

    open spec fn spec_wire(&self) -> Seq<u8> {
        self.lamp_on_mode.spec_wire()
    }

    open spec fn spec_read(bytes: Seq<u8>) -> Option<Self> {
        if <LampOnMode as FixedWire>::spec_read(bytes.subrange(0, 1)) is Some {
            Some(GetLampOnModeResponse {
                lamp_on_mode: <LampOnMode as FixedWire>::spec_read(bytes.subrange(0, 1)).unwrap(),
            })
        } else {
            None
        }
    }

    open spec fn spec_wire_valid(&self) -> bool {
        self.lamp_on_mode.spec_wire_valid()
    }

    fn wire_size() -> (n: usize) {
        1
    }

    fn write_wire(&self, out: &mut Vec<u8>) {
        let ghost start = out@;
        self.lamp_on_mode.write_wire(out);
        proof {
            assert(out@ =~= start + self.spec_wire());
        }
    }

    fn read_wire(buf: &'a [u8], pos: usize) -> (r: Option<Self>) {
        let _len = buf.len();
        let ghost bytes = buf@.subrange(pos as int, pos + 1);
        proof {
            assert(bytes.subrange(0, 1) =~= buf@.subrange(pos + 0, pos + 1));
        }
        let v0 = match <LampOnMode as FixedWire>::read_wire(buf, pos) {
            Some(v) => v,
            None => return None,
        };
        Some(GetLampOnModeResponse { lamp_on_mode: v0 })
    }

    proof fn lemma_wire(&self) {
        self.lamp_on_mode.lemma_wire();
        let w = self.spec_wire();
        assert(w.subrange(0, 1) =~= self.lamp_on_mode.spec_wire());
        if self.spec_wire_valid() {
            assert(<LampOnMode as FixedWire>::spec_read(w.subrange(0, 1)) == Some(self.lamp_on_mode));
        }
    }
}

impl GetLampOnModeResponse {
    /// The parameter data of the value.
    pub open spec fn spec_encoding(&self) -> Seq<u8> {
        self.spec_wire()
    }

    /// The value that parameter data stands for, or why it stands for none.
    pub open spec fn spec_decoded(buf: Seq<u8>) -> Result<Self, ParameterDataError> {
        record_decoded::<Self>(buf)
    }

    /// Whether decoding the parameter data gives the value back.
    pub open spec fn spec_encodable(&self) -> bool {
        self.spec_wire_valid()
    }

    pub fn size_of(&self) -> (n: usize)
        ensures
            n == self.spec_encoding().len(),
            n <= 1,
    {
        proof {
            self.lemma_wire();
        }
        Self::wire_size()
    }

    /// Appends the parameter data to `out`.
    pub fn write_encoding(&self, out: &mut Vec<u8>)
        ensures
            final(out)@ == old(out)@ + self.spec_encoding(),
    {
        self.write_wire(out);
    }

    pub fn encode_parameter_data(&self, buf: &mut [u8]) -> (r: Result<usize, ParameterDataError>)
        ensures
            encoded_into(old(buf)@, final(buf)@, self.spec_encoding(), r),
    {
        encode_record(self, buf)
    }

    pub fn decode_parameter_data(buf: &[u8]) -> (r: Result<Self, ParameterDataError>)
        ensures
            r == Self::spec_decoded(buf@),
    {
        decode_record(buf)
    }

    /// Decoding the parameter data of an encodable value gives it back.
    pub proof fn lemma_roundtrip(&self)
        requires
            self.spec_encodable(),
        ensures
            Self::spec_decoded(self.spec_encoding()) == Ok::<Self, ParameterDataError>(*self),
    {
        lemma_record_roundtrip(*self);
    }
}

#[derive(Clone, Copy, Debug, PartialEq, Eq, Structural)]
pub struct GetDevicePowerCyclesResponse {
    pub device_power_cycles: u32,
}

impl<'a> FixedWire<'a> for GetDevicePowerCyclesResponse {
    open spec fn spec_size() -> nat {
        4
    }

    open spec fn spec_wire(&self) -> Seq<u8> {
        self.device_power_cycles.spec_wire()
    }

    open spec fn spec_read(bytes: Seq<u8>) -> Option<Self> {
        if <u32 as FixedWire>::spec_read(bytes.subrange(0, 4)) is Some {
            Some(GetDevicePowerCyclesResponse {
                device_power_cycles: <u32 as FixedWire>::spec_read(bytes.subrange(0, 4)).unwrap(),
            })
        } else {
            None
        }
    }

    open spec fn spec_wire_valid(&self) -> bool {
        self.device_power_cycles.spec_wire_valid()
    }

    fn wire_size() -> (n: usize) {
        4
    }

    fn write_wire(&self, out: &mut Vec<u8>) {
        let ghost start = out@;
        self.device_power_cycles.write_wire(out);
        proof {
            assert(out@ =~= start + self.spec_wire());
        }
    }

    fn read_wire(buf: &'a [u8], pos: usize) -> (r: Option<Self>) {
        let _len = buf.len();
        let ghost bytes = buf@.subrange(pos as int, pos + 4);
        proof {
            assert(bytes.subrange(0, 4) =~= buf@.subrange(pos + 0, pos + 4));
        }
        let v0 = match <u32 as FixedWire>::read_wire(buf, pos) {
            Some(v) => v,
            None => return None,
        };
        Some(GetDevicePowerCyclesResponse { device_power_cycles: v0 })
    }

    proof fn lemma_wire(&self) {
        self.device_power_cycles.lemma_wire();
        let w = self.spec_wire();
        assert(w.subrange(0, 4) =~= self.device_power_cycles.spec_wire());
        if self.spec_wire_valid() {
            assert(<u32 as FixedWire>::spec_read(w.subrange(0, 4)) == Some(self.device_power_cycles));
        }
    }
}

impl GetDevicePowerCyclesResponse {
    /// The parameter data of the value.
    pub open spec fn spec_encoding(&self) -> Seq<u8> {
        self.spec_wire()
    }

    /// The value that parameter data stands for, or why it stands for none.
    pub open spec fn spec_decoded(buf: Seq<u8>) -> Result<Self, ParameterDataError> {
        record_decoded::<Self>(buf)
    }

    /// Whether decoding the parameter data gives the value back.
    pub open spec fn spec_encodable(&self) -> bool {
        self.spec_wire_valid()
    }

    pub fn size_of(&self) -> (n: usize)
        ensures
            n == self.spec_encoding().len(),
            n <= 4,
    {
        proof {
            self.lemma_wire();
        }
        Self::wire_size()
    }

    /// Appends the parameter data to `out`.
    pub fn write_encoding(&self, out: &mut Vec<u8>)
        ensures
            final(out)@ == old(out)@ + self.spec_encoding(),
    {
        self.write_wire(out);
    }

    pub fn encode_parameter_data(&self, buf: &mut [u8]) -> (r: Result<usize, ParameterDataError>)
        ensures
            encoded_into(old(buf)@, final(buf)@, self.spec_encoding(), r),
    {
        encode_record(self, buf)
    }

    pub fn decode_parameter_data(buf: &[u8]) -> (r: Result<Self, ParameterDataError>)
        ensures
            r == Self::spec_decoded(buf@),
    {
        decode_record(buf)
    }

    /// Decoding the parameter data of an encodable value gives it back.
    pub proof fn lemma_roundtrip(&self)
        requires
            self.spec_encodable(),
        ensures
            Self::spec_decoded(self.spec_encoding()) == Ok::<Self, ParameterDataError>(*self),
    {
        lemma_record_roundtrip(*self);
    }
}

#[derive(Clone, Copy, Debug, PartialEq, Eq, Structural)]
pub struct GetDisplayInvertResponse {
    pub display_invert_mode: DisplayInvertMode,
}

impl<'a> FixedWire<'a> for GetDisplayInvertResponse {
    open spec fn spec_size() -> nat {
        1
    }

    open spec fn spec_wire(&self) -> Seq<u8> {
        self.display_invert_mode.spec_wire()
    }

    open spec fn spec_read(bytes: Seq<u8>) -> Option<Self> {
        if <DisplayInvertMode as FixedWire>::spec_read(bytes.subrange(0, 1)) is Some {
            Some(GetDisplayInvertResponse {
                display_invert_mode: <DisplayInvertMode as FixedWire>::spec_read(bytes.subrange(0, 1)).unwrap(),
            })
        } else {
            None
        }
    }

    open spec fn spec_wire_valid(&self) -> bool {
        self.display_invert_mode.spec_wire_valid()
    }

    fn wire_size() -> (n: usize) {
        1
    }

    fn write_wire(&self, out: &mut Vec<u8>) {
        let ghost start = out@;
        self.display_invert_mode.write_wire(out);
        proof {
            assert(out@ =~= start + self.spec_wire());
        }
    }

    fn read_wire(buf: &'a [u8], pos: usize) -> (r: Option<Self>) {
        let _len = buf.len();
        let ghost bytes = buf@.subrange(pos as int, pos + 1);
        proof {
            assert(bytes.subrange(0, 1) =~= buf@.subrange(pos + 0, pos + 1));
        }
        let v0 = match <DisplayInvertMode as FixedWire>::read_wire(buf, pos) {
            Some(v) => v,
            None => return None,
        };
        Some(GetDisplayInvertResponse { display_invert_mode: v0 })
    }

    proof fn lemma_wire(&self) {
        self.display_invert_mode.lemma_wire();
        let w = self.spec_wire();
        assert(w.subrange(0, 1) =~= self.display_invert_mode.spec_wire());
        if self.spec_wire_valid() {
            assert(<DisplayInvertMode as FixedWire>::spec_read(w.subrange(0, 1)) == Some(self.display_invert_mode));
        }
    }
}

impl GetDisplayInvertResponse {
    /// The parameter data of the value.
    pub open spec fn spec_encoding(&self) -> Seq<u8> {
        self.spec_wire()
    }

    /// The value that parameter data stands for, or why it stands for none.
    pub open spec fn spec_decoded(buf: Seq<u8>) -> Result<Self, ParameterDataError> {
        record_decoded::<Self>(buf)
    }

    /// Whether decoding the parameter data gives the value back.
    pub open spec fn spec_encodable(&self) -> bool {
        self.spec_wire_valid()
    }

    pub fn size_of(&self) -> (n: usize)
        ensures
            n == self.spec_encoding().len(),
            n <= 1,
    {
        proof {
            self.lemma_wire();
        }
        Self::wire_size()
    }

    /// Appends the parameter data to `out`.
    pub fn write_encoding(&self, out: &mut Vec<u8>)
        ensures
            final(out)@ == old(out)@ + self.spec_encoding(),
    {
        self.write_wire(out);
    }

    pub fn encode_parameter_data(&self, buf: &mut [u8]) -> (r: Result<usize, ParameterDataError>)
        ensures
            encoded_into(old(buf)@, final(buf)@, self.spec_encoding(), r),
    {
        encode_record(self, buf)
    }

    pub fn decode_parameter_data(buf: &[u8]) -> (r: Result<Self, ParameterDataError>)
        ensures
            r == Self::spec_decoded(buf@),
    {
        decode_record(buf)
    }

    /// Decoding the parameter data of an encodable value gives it back.
    pub proof fn lemma_roundtrip(&self)
        requires
            self.spec_encodable(),
        ensures
            Self::spec_decoded(self.spec_encoding()) == Ok::<Self, ParameterDataError>(*self),
    {
        lemma_record_roundtrip(*self);
    }
}

#[derive(Clone, Copy, Debug, PartialEq, Eq, Structural)]
pub struct GetDisplayLevelResponse {
    pub display_level: u8,
}

impl<'a> FixedWire<'a> for GetDisplayLevelResponse {
    open spec fn spec_size() -> nat {
        1
    }

    open spec fn spec_wire(&self) -> Seq<u8> {
        self.display_level.spec_wire()
    }

    open spec fn spec_read(bytes: Seq<u8>) -> Option<Self> {
        if <u8 as FixedWire>::spec_read(bytes.subrange(0, 1)) is Some {
            Some(GetDisplayLevelResponse {
                display_level: <u8 as FixedWire>::spec_read(bytes.subrange(0, 1)).unwrap(),
            })
        } else {
            None
        }
    }

    open spec fn spec_wire_valid(&self) -> bool {
        self.display_level.spec_wire_valid()
    }

    fn wire_size() -> (n: usize) {
        1
    }

    fn write_wire(&self, out: &mut Vec<u8>) {
        let ghost start = out@;
        self.display_level.write_wire(out);
        proof {
            assert(out@ =~= start + self.spec_wire());
        }
    }

    fn read_wire(buf: &'a [u8], pos: usize) -> (r: Option<Self>) {
        let _len = buf.len();
        let ghost bytes = buf@.subrange(pos as int, pos + 1);
        proof {
            assert(bytes.subrange(0, 1) =~= buf@.subrange(pos + 0, pos + 1));
        }
        let v0 = match <u8 as FixedWire>::read_wire(buf, pos) {
            Some(v) => v,
            None => return None,
        };
        Some(GetDisplayLevelResponse { display_level: v0 })
    }

    proof fn lemma_wire(&self) {
        self.display_level.lemma_wire();
        let w = self.spec_wire();
        assert(w.subrange(0, 1) =~= self.display_level.spec_wire());
        if self.spec_wire_valid() {
            assert(<u8 as FixedWire>::spec_read(w.subrange(0, 1)) == Some(self.display_level));
        }
    }
}

impl GetDisplayLevelResponse {
    /// The parameter data of the value.
    pub open spec fn spec_encoding(&self) -> Seq<u8> {
        self.spec_wire()
    }

    /// The value that parameter data stands for, or why it stands for none.
    pub open spec fn spec_decoded(buf: Seq<u8>) -> Result<Self, ParameterDataError> {
        record_decoded::<Self>(buf)
    }

    /// Whether decoding the parameter data gives the value back.
    pub open spec fn spec_encodable(&self) -> bool {
        self.spec_wire_valid()
    }

    pub fn size_of(&self) -> (n: usize)
        ensures
            n == self.spec_encoding().len(),
            n <= 1,
    {
        proof {
            self.lemma_wire();
        }
        Self::wire_size()
    }

    /// Appends the parameter data to `out`.
    pub fn write_encoding(&self, out: &mut Vec<u8>)
        ensures
            final(out)@ == old(out)@ + self.spec_encoding(),
    {
        self.write_wire(out);
    }

    pub fn encode_parameter_data(&self, buf: &mut [u8]) -> (r: Result<usize, ParameterDataError>)
        ensures
            encoded_into(old(buf)@, final(buf)@, self.spec_encoding(), r),
    {
        encode_record(self, buf)
    }

    pub fn decode_parameter_data(buf: &[u8]) -> (r: Result<Self, ParameterDataError>)
        ensures
            r == Self::spec_decoded(buf@),
    {
        decode_record(buf)
    }

    /// Decoding the parameter data of an encodable value gives it back.
    pub proof fn lemma_roundtrip(&self)
        requires
            self.spec_encodable(),
        ensures
            Self::spec_decoded(self.spec_encoding()) == Ok::<Self, ParameterDataError>(*self),
    {
        lemma_record_roundtrip(*self);
    }
}

#[derive(Clone, Copy, Debug, PartialEq, Eq, Structural)]
pub struct GetPanInvertResponse {
    pub pan_invert: bool,
}

impl<'a> FixedWire<'a> for GetPanInvertResponse {
    open spec fn spec_size() -> nat {
        1
    }

    open spec fn spec_wire(&self) -> Seq<u8> {
        self.pan_invert.spec_wire()
    }

    open spec fn spec_read(bytes: Seq<u8>) -> Option<Self> {
        if <bool as FixedWire>::spec_read(bytes.subrange(0, 1)) is Some {
            Some(GetPanInvertResponse {
                pan_invert: <bool as FixedWire>::spec_read(bytes.subrange(0, 1)).unwrap(),
            })
        } else {
            None
        }
    }

    open spec fn spec_wire_valid(&self) -> bool {
        self.pan_invert.spec_wire_valid()
    }

    fn wire_size() -> (n: usize) {
        1
    }

    fn write_wire(&self, out: &mut Vec<u8>) {
        let ghost start = out@;
        self.pan_invert.write_wire(out);
        proof {
            assert(out@ =~= start + self.spec_wire());
        }
    }

    fn read_wire(buf: &'a [u8], pos: usize) -> (r: Option<Self>) {
        let _len = buf.len();
        let ghost bytes = buf@.subrange(pos as int, pos + 1);
        proof {
            assert(bytes.subrange(0, 1) =~= buf@.subrange(pos + 0, pos + 1));
        }
        let v0 = match <bool as FixedWire>::read_wire(buf, pos) {
            Some(v) => v,
            None => return None,
        };
        Some(GetPanInvertResponse { pan_invert: v0 })
    }

    proof fn lemma_wire(&self) {
        self.pan_invert.lemma_wire();
        let w = self.spec_wire();
        assert(w.subrange(0, 1) =~= self.pan_invert.spec_wire());
        if self.spec_wire_valid() {
            assert(<bool as FixedWire>::spec_read(w.subrange(0, 1)) == Some(self.pan_invert));
        }
    }
}

impl GetPanInvertResponse {
    /// The parameter data of the value.
    pub open spec fn spec_encoding(&self) -> Seq<u8> {
        self.spec_wire()
    }

    /// The value that parameter data stands for, or why it stands for none.
    pub open spec fn spec_decoded(buf: Seq<u8>) -> Result<Self, ParameterDataError> {
        record_decoded::<Self>(buf)
    }

    /// Whether decoding the parameter data gives the value back.
    pub open spec fn spec_encodable(&self) -> bool {
        self.spec_wire_valid()
    }

    pub fn size_of(&self) -> (n: usize)
        ensures
            n == self.spec_encoding().len(),
            n <= 1,
    {
        proof {
            self.lemma_wire();
        }
        Self::wire_size()
    }

    /// Appends the parameter data to `out`.
    pub fn write_encoding(&self, out: &mut Vec<u8>)
        ensures
            final(out)@ == old(out)@ + self.spec_encoding(),
    {
        self.write_wire(out);
    }

    pub fn encode_parameter_data(&self, buf: &mut [u8]) -> (r: Result<usize, ParameterDataError>)
        ensures
            encoded_into(old(buf)@, final(buf)@, self.spec_encoding(), r),
    {
        encode_record(self, buf)
    }

    pub fn decode_parameter_data(buf: &[u8]) -> (r: Result<Self, ParameterDataError>)
        ensures
            r == Self::spec_decoded(buf@),
    {
        decode_record(buf)
    }

    /// Decoding the parameter data of an encodable value gives it back.
    pub proof fn lemma_roundtrip(&self)
        requires
            self.spec_encodable(),
        ensures
            Self::spec_decoded(self.spec_encoding()) == Ok::<Self, ParameterDataError>(*self),
    {
        lemma_record_roundtrip(*self);
    }
}

#[derive(Clone, Copy, Debug, PartialEq, Eq, Structural)]
pub struct GetTiltInvertResponse {
    pub tilt_invert: bool,
}

impl<'a> FixedWire<'a> for GetTiltInvertResponse {
    open spec fn spec_size() -> nat {
        1
    }

    open spec fn spec_wire(&self) -> Seq<u8> {
        self.tilt_invert.spec_wire()
    }

    open spec fn spec_read(bytes: Seq<u8>) -> Option<Self> {
        if <bool as FixedWire>::spec_read(bytes.subrange(0, 1)) is Some {
            Some(GetTiltInvertResponse {
                tilt_invert: <bool as FixedWire>::spec_read(bytes.subrange(0, 1)).unwrap(),
            })
        } else {
            None
        }
    }

    open spec fn spec_wire_valid(&self) -> bool {
        self.tilt_invert.spec_wire_valid()
    }

    fn wire_size() -> (n: usize) {
        1
    }

    fn write_wire(&self, out: &mut Vec<u8>) {
        let ghost start = out@;
        self.tilt_invert.write_wire(out);
        proof {
            assert(out@ =~= start + self.spec_wire());
        }
    }

    fn read_wire(buf: &'a [u8], pos: usize) -> (r: Option<Self>) {
        let _len = buf.len();
        let ghost bytes = buf@.subrange(pos as int, pos + 1);
        proof {
            assert(bytes.subrange(0, 1) =~= buf@.subrange(pos + 0, pos + 1));
        }
        let v0 = match <bool as FixedWire>::read_wire(buf, pos) {
            Some(v) => v,
            None => return None,
        };
        Some(GetTiltInvertResponse { tilt_invert: v0 })
    }

    proof fn lemma_wire(&self) {
        self.tilt_invert.lemma_wire();
        let w = self.spec_wire();
        assert(w.subrange(0, 1) =~= self.tilt_invert.spec_wire());
        if self.spec_wire_valid() {
            assert(<bool as FixedWire>::spec_read(w.subrange(0, 1)) == Some(self.tilt_invert));
        }
    }
}

impl GetTiltInvertResponse {
    /// The parameter data of the value.
    pub open spec fn spec_encoding(&self) -> Seq<u8> {
        self.spec_wire()
    }

    /// The value that parameter data stands for, or why it stands for none.
    pub open spec fn spec_decoded(buf: Seq<u8>) -> Result<Self, ParameterDataError> {
        record_decoded::<Self>(buf)
    }

    /// Whether decoding the parameter data gives the value back.
    pub open spec fn spec_encodable(&self) -> bool {
        self.spec_wire_valid()
    }

    pub fn size_of(&self) -> (n: usize)
        ensures
            n == self.spec_encoding().len(),
            n <= 1,
    {
        proof {
            self.lemma_wire();
        }
        Self::wire_size()
    }

    /// Appends the parameter data to `out`.
    pub fn write_encoding(&self, out: &mut Vec<u8>)
        ensures
            final(out)@ == old(out)@ + self.spec_encoding(),
    {
        self.write_wire(out);
    }

    pub fn encode_parameter_data(&self, buf: &mut [u8]) -> (r: Result<usize, ParameterDataError>)
        ensures
            encoded_into(old(buf)@, final(buf)@, self.spec_encoding(), r),
    {
        encode_record(self, buf)
    }

    pub fn decode_parameter_data(buf: &[u8]) -> (r: Result<Self, ParameterDataError>)
        ensures
            r == Self::spec_decoded(buf@),
    {
        decode_record(buf)
    }

    /// Decoding the parameter data of an encodable value gives it back.
    pub proof fn lemma_roundtrip(&self)
        requires
            self.spec_encodable(),
        ensures
            Self::spec_decoded(self.spec_encoding()) == Ok::<Self, ParameterDataError>(*self),
    {
        lemma_record_roundtrip(*self);
    }
}

#[derive(Clone, Copy, Debug, PartialEq, Eq, Structural)]
pub struct GetPanTiltSwapResponse {
    pub pan_tilt_swap: bool,
}

impl<'a> FixedWire<'a> for GetPanTiltSwapResponse {
    open spec fn spec_size() -> nat {
        1
    }

    open spec fn spec_wire(&self) -> Seq<u8> {
        self.pan_tilt_swap.spec_wire()
    }

    open spec fn spec_read(bytes: Seq<u8>) -> Option<Self> {
        if <bool as FixedWire>::spec_read(bytes.subrange(0, 1)) is Some {
            Some(GetPanTiltSwapResponse {
                pan_tilt_swap: <bool as FixedWire>::spec_read(bytes.subrange(0, 1)).unwrap(),
            })
        } else {
            None
        }
    }

    open spec fn spec_wire_valid(&self) -> bool {
        self.pan_tilt_swap.spec_wire_valid()
    }

    fn wire_size() -> (n: usize) {
        1
    }

    fn write_wire(&self, out: &mut Vec<u8>) {
        let ghost start = out@;
        self.pan_tilt_swap.write_wire(out);
        proof {
            assert(out@ =~= start + self.spec_wire());
        }
    }

    fn read_wire(buf: &'a [u8], pos: usize) -> (r: Option<Self>) {
        let _len = buf.len();
        let ghost bytes = buf@.subrange(pos as int, pos + 1);
        proof {
            assert(bytes.subrange(0, 1) =~= buf@.subrange(pos + 0, pos + 1));
        }
        let v0 = match <bool as FixedWire>::read_wire(buf, pos) {
            Some(v) => v,
            None => return None,
        };
        Some(GetPanTiltSwapResponse { pan_tilt_swap: v0 })
    }

    proof fn lemma_wire(&self) {
        self.pan_tilt_swap.lemma_wire();
        let w = self.spec_wire();
        assert(w.subrange(0, 1) =~= self.pan_tilt_swap.spec_wire());
        if self.spec_wire_valid() {
            assert(<bool as FixedWire>::spec_read(w.subrange(0, 1)) == Some(self.pan_tilt_swap));
        }
    }
}

impl GetPanTiltSwapResponse {
    /// The parameter data of the value.
    pub open spec fn spec_encoding(&self) -> Seq<u8> {
        self.spec_wire()
    }

    /// The value that parameter data stands for, or why it stands for none.
    pub open spec fn spec_decoded(buf: Seq<u8>) -> Result<Self, ParameterDataError> {
        record_decoded::<Self>(buf)
    }

    /// Whether decoding the parameter data gives the value back.
    pub open spec fn spec_encodable(&self) -> bool {
        self.spec_wire_valid()
    }

    pub fn size_of(&self) -> (n: usize)
        ensures
            n == self.spec_encoding().len(),
            n <= 1,
    {
        proof {
            self.lemma_wire();
        }
        Self::wire_size()
    }

    /// Appends the parameter data to `out`.
    pub fn write_encoding(&self, out: &mut Vec<u8>)
        ensures
            final(out)@ == old(out)@ + self.spec_encoding(),
    {
        self.write_wire(out);
    }

    pub fn encode_parameter_data(&self, buf: &mut [u8]) -> (r: Result<usize, ParameterDataError>)
        ensures
            encoded_into(old(buf)@, final(buf)@, self.spec_encoding(), r),
    {
        encode_record(self, buf)
    }

    pub fn decode_parameter_data(buf: &[u8]) -> (r: Result<Self, ParameterDataError>)
        ensures
            r == Self::spec_decoded(buf@),
    {
        decode_record(buf)
    }

    /// Decoding the parameter data of an encodable value gives it back.
    pub proof fn lemma_roundtrip(&self)
        requires
            self.spec_encodable(),
        ensures
            Self::spec_decoded(self.spec_encoding()) == Ok::<Self, ParameterDataError>(*self),
    {
        lemma_record_roundtrip(*self);
    }
}

#[derive(Clone, Copy, Debug, PartialEq, Eq, Structural)]
pub struct GetRealTimeClockResponse {
    pub year: u16,
    pub month: u8,
    pub day: u8,
    pub hour: u8,
    pub minute: u8,
    pub second: u8,
}

impl<'a> FixedWire<'a> for GetRealTimeClockResponse {
    open spec fn spec_size() -> nat {
        7
    }

    open spec fn spec_wire(&self) -> Seq<u8> {
        self.year.spec_wire() + self.month.spec_wire() + self.day.spec_wire() + self.hour.spec_wire() + self.minute.spec_wire() + self.second.spec_wire()
    }

    open spec fn spec_read(bytes: Seq<u8>) -> Option<Self> {
        if <u16 as FixedWire>::spec_read(bytes.subrange(0, 2)) is Some
            && <u8 as FixedWire>::spec_read(bytes.subrange(2, 3)) is Some
            && <u8 as FixedWire>::spec_read(bytes.subrange(3, 4)) is Some
            && <u8 as FixedWire>::spec_read(bytes.subrange(4, 5)) is Some
            && <u8 as FixedWire>::spec_read(bytes.subrange(5, 6)) is Some
            && <u8 as FixedWire>::spec_read(bytes.subrange(6, 7)) is Some {
            Some(GetRealTimeClockResponse {
                year: <u16 as FixedWire>::spec_read(bytes.subrange(0, 2)).unwrap(),
                month: <u8 as FixedWire>::spec_read(bytes.subrange(2, 3)).unwrap(),
                day: <u8 as FixedWire>::spec_read(bytes.subrange(3, 4)).unwrap(),
                hour: <u8 as FixedWire>::spec_read(bytes.subrange(4, 5)).unwrap(),
                minute: <u8 as FixedWire>::spec_read(bytes.subrange(5, 6)).unwrap(),
                second: <u8 as FixedWire>::spec_read(bytes.subrange(6, 7)).unwrap(),
            })
        } else {
            None
        }
    }

    open spec fn spec_wire_valid(&self) -> bool {
        self.year.spec_wire_valid() && self.month.spec_wire_valid() && self.day.spec_wire_valid() && self.hour.spec_wire_valid() && self.minute.spec_wire_valid() && self.second.spec_wire_valid()
    }

    fn wire_size() -> (n: usize) {
        7
    }

    fn write_wire(&self, out: &mut Vec<u8>) {
        let ghost start = out@;
        self.year.write_wire(out);
        self.month.write_wire(out);
        self.day.write_wire(out);
        self.hour.write_wire(out);
        self.minute.write_wire(out);
        self.second.write_wire(out);
        proof {
            assert(out@ =~= start + self.spec_wire());
        }
    }

    fn read_wire(buf: &'a [u8], pos: usize) -> (r: Option<Self>) {
        let _len = buf.len();
        let ghost bytes = buf@.subrange(pos as int, pos + 7);
        proof {
            assert(bytes.subrange(0, 2) =~= buf@.subrange(pos + 0, pos + 2));
            assert(bytes.subrange(2, 3) =~= buf@.subrange(pos + 2, pos + 3));
            assert(bytes.subrange(3, 4) =~= buf@.subrange(pos + 3, pos + 4));
            assert(bytes.subrange(4, 5) =~= buf@.subrange(pos + 4, pos + 5));
            assert(bytes.subrange(5, 6) =~= buf@.subrange(pos + 5, pos + 6));
            assert(bytes.subrange(6, 7) =~= buf@.subrange(pos + 6, pos + 7));
        }
        let v0 = match <u16 as FixedWire>::read_wire(buf, pos) {
            Some(v) => v,
            None => return None,
        };
        let v1 = match <u8 as FixedWire>::read_wire(buf, pos + 2) {
            Some(v) => v,
            None => return None,
        };
        let v2 = match <u8 as FixedWire>::read_wire(buf, pos + 3) {
            Some(v) => v,
            None => return None,
        };
        let v3 = match <u8 as FixedWire>::read_wire(buf, pos + 4) {
            Some(v) => v,
            None => return None,
        };
        let v4 = match <u8 as FixedWire>::read_wire(buf, pos + 5) {
            Some(v) => v,
            None => return None,
        };
        let v5 = match <u8 as FixedWire>::read_wire(buf, pos + 6) {
            Some(v) => v,
            None => return None,
        };
        Some(GetRealTimeClockResponse { year: v0, month: v1, day: v2, hour: v3, minute: v4, second: v5 })
    }

    proof fn lemma_wire(&self) {
        self.year.lemma_wire();
        self.month.lemma_wire();
        self.day.lemma_wire();
        self.hour.lemma_wire();
        self.minute.lemma_wire();
        self.second.lemma_wire();
        let w = self.spec_wire();
        assert(w.subrange(0, 2) =~= self.year.spec_wire());
        assert(w.subrange(2, 3) =~= self.month.spec_wire());
        assert(w.subrange(3, 4) =~= self.day.spec_wire());
        assert(w.subrange(4, 5) =~= self.hour.spec_wire());
        assert(w.subrange(5, 6) =~= self.minute.spec_wire());
        assert(w.subrange(6, 7) =~= self.second.spec_wire());
        if self.spec_wire_valid() {
            assert(<u16 as FixedWire>::spec_read(w.subrange(0, 2)) == Some(self.year));
            assert(<u8 as FixedWire>::spec_read(w.subrange(2, 3)) == Some(self.month));
            assert(<u8 as FixedWire>::spec_read(w.subrange(3, 4)) == Some(self.day));
            assert(<u8 as FixedWire>::spec_read(w.subrange(4, 5)) == Some(self.hour));
            assert(<u8 as FixedWire>::spec_read(w.subrange(5, 6)) == Some(self.minute));
            assert(<u8 as FixedWire>::spec_read(w.subrange(6, 7)) == Some(self.second));
        }
    }
}

impl GetRealTimeClockResponse {
    /// The parameter data of the value.
    pub open spec fn spec_encoding(&self) -> Seq<u8> {
        self.spec_wire()
    }

    /// The value that parameter data stands for, or why it stands for none.
    pub open spec fn spec_decoded(buf: Seq<u8>) -> Result<Self, ParameterDataError> {
        record_decoded::<Self>(buf)
    }

    /// Whether decoding the parameter data gives the value back.
    pub open spec fn spec_encodable(&self) -> bool {
        self.spec_wire_valid()
    }

    pub fn size_of(&self) -> (n: usize)
        ensures
            n == self.spec_encoding().len(),
            n <= 7,
    {
        proof {
            self.lemma_wire();
        }
        Self::wire_size()
    }

    /// Appends the parameter data to `out`.
    pub fn write_encoding(&self, out: &mut Vec<u8>)
        ensures
            final(out)@ == old(out)@ + self.spec_encoding(),
    {
        self.write_wire(out);
    }

    pub fn encode_parameter_data(&self, buf: &mut [u8]) -> (r: Result<usize, ParameterDataError>)
        ensures
            encoded_into(old(buf)@, final(buf)@, self.spec_encoding(), r),
    {
        encode_record(self, buf)
    }

    pub fn decode_parameter_data(buf: &[u8]) -> (r: Result<Self, ParameterDataError>)
        ensures
            r == Self::spec_decoded(buf@),
    {
        decode_record(buf)
    }

    /// Decoding the parameter data of an encodable value gives it back.
    pub proof fn lemma_roundtrip(&self)
        requires
            self.spec_encodable(),
        ensures
            Self::spec_decoded(self.spec_encoding()) == Ok::<Self, ParameterDataError>(*self),
    {
        lemma_record_roundtrip(*self);
    }
}

#[derive(Clone, Copy, Debug, PartialEq, Eq, Structural)]
pub struct GetIdentifyDeviceResponse {
    pub identify: bool,
}

impl<'a> FixedWire<'a> for GetIdentifyDeviceResponse {
    open spec fn spec_size() -> nat {
        1
    }

    open spec fn spec_wire(&self) -> Seq<u8> {
        self.identify.spec_wire()
    }

    open spec fn spec_read(bytes: Seq<u8>) -> Option<Self> {
        if <bool as FixedWire>::spec_read(bytes.subrange(0, 1)) is Some {
            Some(GetIdentifyDeviceResponse {
                identify: <bool as FixedWire>::spec_read(bytes.subrange(0, 1)).unwrap(),
            })
        } else {
            None
        }
    }

    open spec fn spec_wire_valid(&self) -> bool {
        self.identify.spec_wire_valid()
    }

    fn wire_size() -> (n: usize) {
        1
    }

    fn write_wire(&self, out: &mut Vec<u8>) {
        let ghost start = out@;
        self.identify.write_wire(out);
        proof {
            assert(out@ =~= start + self.spec_wire());
        }
    }

    fn read_wire(buf: &'a [u8], pos: usize) -> (r: Option<Self>) {
        let _len = buf.len();
        let ghost bytes = buf@.subrange(pos as int, pos + 1);
        proof {
            assert(bytes.subrange(0, 1) =~= buf@.subrange(pos + 0, pos + 1));
        }
        let v0 = match <bool as FixedWire>::read_wire(buf, pos) {
            Some(v) => v,
            None => return None,
        };
        Some(GetIdentifyDeviceResponse { identify: v0 })
    }

    proof fn lemma_wire(&self) {
        self.identify.lemma_wire();
        let w = self.spec_wire();
        assert(w.subrange(0, 1) =~= self.identify.spec_wire());
        if self.spec_wire_valid() {
            assert(<bool as FixedWire>::spec_read(w.subrange(0, 1)) == Some(self.identify));
        }
    }
}

impl GetIdentifyDeviceResponse {
    /// The parameter data of the value.
    pub open spec fn spec_encoding(&self) -> Seq<u8> {
        self.spec_wire()
    }

    /// The value that parameter data stands for, or why it stands for none.
    pub open spec fn spec_decoded(buf: Seq<u8>) -> Result<Self, ParameterDataError> {
        record_decoded::<Self>(buf)
    }

    /// Whether decoding the parameter data gives the value back.
    pub open spec fn spec_encodable(&self) -> bool {
        self.spec_wire_valid()
    }

    pub fn size_of(&self) -> (n: usize)
        ensures
            n == self.spec_encoding().len(),
            n <= 1,
    {
        proof {
            self.lemma_wire();
        }
        Self::wire_size()
    }

    /// Appends the parameter data to `out`.
    pub fn write_encoding(&self, out: &mut Vec<u8>)
        ensures
            final(out)@ == old(out)@ + self.spec_encoding(),
    {
        self.write_wire(out);
    }

    pub fn encode_parameter_data(&self, buf: &mut [u8]) -> (r: Result<usize, ParameterDataError>)
        ensures
            encoded_into(old(buf)@, final(buf)@, self.spec_encoding(), r),
    {
        encode_record(self, buf)
    }

    pub fn decode_parameter_data(buf: &[u8]) -> (r: Result<Self, ParameterDataError>)
        ensures
            r == Self::spec_decoded(buf@),
    {
        decode_record(buf)
    }

    /// Decoding the parameter data of an encodable value gives it back.
    pub proof fn lemma_roundtrip(&self)
        requires
            self.spec_encodable(),
        ensures
            Self::spec_decoded(self.spec_encoding()) == Ok::<Self, ParameterDataError>(*self),
    {
        lemma_record_roundtrip(*self);
    }
}

#[derive(Clone, Copy, Debug, PartialEq, Eq, Structural)]
pub struct GetPowerStateResponse {
    pub power_state: PowerState,
}

impl<'a> FixedWire<'a> for GetPowerStateResponse {
    open spec fn spec_size() -> nat {
        1
    }

    open spec fn spec_wire(&self) -> Seq<u8> {
        self.power_state.spec_wire()
    }

    open spec fn spec_read(bytes: Seq<u8>) -> Option<Self> {
        if <PowerState as FixedWire>::spec_read(bytes.subrange(0, 1)) is Some {
            Some(GetPowerStateResponse {
                power_state: <PowerState as FixedWire>::spec_read(bytes.subrange(0, 1)).unwrap(),
            })
        } else {
            None
        }
    }

    open spec fn spec_wire_valid(&self) -> bool {
        self.power_state.spec_wire_valid()
    }

    fn wire_size() -> (n: usize) {
        1
    }

    fn write_wire(&self, out: &mut Vec<u8>) {
        let ghost start = out@;
        self.power_state.write_wire(out);
        proof {
            assert(out@ =~= start + self.spec_wire());
        }
    }

    fn read_wire(buf: &'a [u8], pos: usize) -> (r: Option<Self>) {
        let _len = buf.len();
        let ghost bytes = buf@.subrange(pos as int, pos + 1);
        proof {
            assert(bytes.subrange(0, 1) =~= buf@.subrange(pos + 0, pos + 1));
        }
        let v0 = match <PowerState as FixedWire>::read_wire(buf, pos) {
            Some(v) => v,
            None => return None,
        };
        Some(GetPowerStateResponse { power_state: v0 })
    }

    proof fn lemma_wire(&self) {
        self.power_state.lemma_wire();
        let w = self.spec_wire();
        assert(w.subrange(0, 1) =~= self.power_state.spec_wire());
        if self.spec_wire_valid() {
            assert(<PowerState as FixedWire>::spec_read(w.subrange(0, 1)) == Some(self.power_state));
        }
    }
}

impl GetPowerStateResponse {
    /// The parameter data of the value.
    pub open spec fn spec_encoding(&self) -> Seq<u8> {
        self.spec_wire()
    }

    /// The value that parameter data stands for, or why it stands for none.
    pub open spec fn spec_decoded(buf: Seq<u8>) -> Result<Self, ParameterDataError> {
        record_decoded::<Self>(buf)
    }

    /// Whether decoding the parameter data gives the value back.
    pub open spec fn spec_encodable(&self) -> bool {
        self.spec_wire_valid()
    }

    pub fn size_of(&self) -> (n: usize)
        ensures
            n == self.spec_encoding().len(),
            n <= 1,
    {
        proof {
            self.lemma_wire();
        }
        Self::wire_size()
    }

    /// Appends the parameter data to `out`.
    pub fn write_encoding(&self, out: &mut Vec<u8>)
        ensures
            final(out)@ == old(out)@ + self.spec_encoding(),
    {
        self.write_wire(out);
    }

    pub fn encode_parameter_data(&self, buf: &mut [u8]) -> (r: Result<usize, ParameterDataError>)
        ensures
            encoded_into(old(buf)@, final(buf)@, self.spec_encoding(), r),
    {
        encode_record(self, buf)
    }

    pub fn decode_parameter_data(buf: &[u8]) -> (r: Result<Self, ParameterDataError>)
        ensures
            r == Self::spec_decoded(buf@),
    {
        decode_record(buf)
    }

    /// Decoding the parameter data of an encodable value gives it back.
    pub proof fn lemma_roundtrip(&self)
        requires
            self.spec_encodable(),
        ensures
            Self::spec_decoded(self.spec_encoding()) == Ok::<Self, ParameterDataError>(*self),
    {
        lemma_record_roundtrip(*self);
    }
}

#[derive(Clone, Copy, Debug, PartialEq, Eq, Structural)]
pub struct GetPerformSelfTestResponse {
    pub perform_self_test: bool,
}

impl<'a> FixedWire<'a> for GetPerformSelfTestResponse {
    open spec fn spec_size() -> nat {
        1
    }

    open spec fn spec_wire(&self) -> Seq<u8> {
        self.perform_self_test.spec_wire()
    }

    open spec fn spec_read(bytes: Seq<u8>) -> Option<Self> {
        if <bool as FixedWire>::spec_read(bytes.subrange(0, 1)) is Some {
            Some(GetPerformSelfTestResponse {
                perform_self_test: <bool as FixedWire>::spec_read(bytes.subrange(0, 1)).unwrap(),
            })
        } else {
            None
        }
    }

    open spec fn spec_wire_valid(&self) -> bool {
        self.perform_self_test.spec_wire_valid()
    }

    fn wire_size() -> (n: usize) {
        1
    }

    fn write_wire(&self, out: &mut Vec<u8>) {
        let ghost start = out@;
        self.perform_self_test.write_wire(out);
        proof {
            assert(out@ =~= start + self.spec_wire());
        }
    }

    fn read_wire(buf: &'a [u8], pos: usize) -> (r: Option<Self>) {
        let _len = buf.len();
        let ghost bytes = buf@.subrange(pos as int, pos + 1);
        proof {
            assert(bytes.subrange(0, 1) =~= buf@.subrange(pos + 0, pos + 1));
        }
        let v0 = match <bool as FixedWire>::read_wire(buf, pos) {
            Some(v) => v,
            None => return None,
        };
        Some(GetPerformSelfTestResponse { perform_self_test: v0 })
    }

    proof fn lemma_wire(&self) {
        self.perform_self_test.lemma_wire();
        let w = self.spec_wire();
        assert(w.subrange(0, 1) =~= self.perform_self_test.spec_wire());
        if self.spec_wire_valid() {
            assert(<bool as FixedWire>::spec_read(w.subrange(0, 1)) == Some(self.perform_self_test));
        }
    }
}

impl GetPerformSelfTestResponse {
    /// The parameter data of the value.
    pub open spec fn spec_encoding(&self) -> Seq<u8> {
        self.spec_wire()
    }

    /// The value that parameter data stands for, or why it stands for none.
    pub open spec fn spec_decoded(buf: Seq<u8>) -> Result<Self, ParameterDataError> {
        record_decoded::<Self>(buf)
    }

    /// Whether decoding the parameter data gives the value back.
    pub open spec fn spec_encodable(&self) -> bool {
        self.spec_wire_valid()
    }

    pub fn size_of(&self) -> (n: usize)
        ensures
            n == self.spec_encoding().len(),
            n <= 1,
    {
        proof {
            self.lemma_wire();
        }
        Self::wire_size()
    }

    /// Appends the parameter data to `out`.
    pub fn write_encoding(&self, out: &mut Vec<u8>)
        ensures
            final(out)@ == old(out)@ + self.spec_encoding(),
    {
        self.write_wire(out);
    }

    pub fn encode_parameter_data(&self, buf: &mut [u8]) -> (r: Result<usize, ParameterDataError>)
        ensures
            encoded_into(old(buf)@, final(buf)@, self.spec_encoding(), r),
    {
        encode_record(self, buf)
    }

    pub fn decode_parameter_data(buf: &[u8]) -> (r: Result<Self, ParameterDataError>)
        ensures
            r == Self::spec_decoded(buf@),
    {
        decode_record(buf)
    }

    /// Decoding the parameter data of an encodable value gives it back.
    pub proof fn lemma_roundtrip(&self)
        requires
            self.spec_encodable(),
        ensures
            Self::spec_decoded(self.spec_encoding()) == Ok::<Self, ParameterDataError>(*self),
    {
        lemma_record_roundtrip(*self);
    }
}

#[derive(Clone, Copy, Debug, PartialEq)]
pub struct GetSelfTestDescriptionResponse {
    pub self_test_id: SelfTest,
    pub description: SelfTestDescription,
}

impl GetSelfTestDescriptionResponse {
    /// The parameter data of the value.
    pub open spec fn spec_encoding(&self) -> Seq<u8> {
        self.self_test_id.spec_wire() + self.description.spec_encode()
    }

    /// The value that parameter data stands for, or why it stands for none.
    pub open spec fn spec_decoded(buf: Seq<u8>) -> Result<Self, ParameterDataError> {
        if buf.len() < 1 {
            Err(too_short(buf.len(), 1))
        } else if !(<SelfTest as FixedWire>::spec_read(buf.subrange(0, 1)) is Some) {
            Err(ParameterDataError::MalformedData)
        } else {
            let rest = buf.subrange(1, buf.len() as int);
            match SelfTestDescription::spec_decode(rest) {
                Ok(t) => Ok(GetSelfTestDescriptionResponse { self_test_id: <SelfTest as FixedWire>::spec_read(buf.subrange(0, 1)).unwrap(), description: t }),
                Err(e) => Err(e),
            }
        }
    }

    /// Whether decoding the parameter data gives the value back.
    pub open spec fn spec_encodable(&self) -> bool {
        self.self_test_id.spec_wire_valid() && self.description.spec_encodable()
    }

    /// Appends the parameter data to `out`.
    pub fn write_encoding(&self, out: &mut Vec<u8>)
        ensures
            final(out)@ == old(out)@ + self.spec_encoding(),
    {
        let ghost start = out@;
        self.self_test_id.write_wire(out);
        self.description.write_encoded(out);
        proof {
            assert(out@ =~= start + self.spec_encoding());
        }
    }

    pub fn size_of(&self) -> (n: usize)
        ensures
            n == self.spec_encoding().len(),
            n <= 33,
    {
        proof {
            self.self_test_id.lemma_wire();
            use_type_invariant(&self.description);
            self.description.lemma_encode_len();
        }
        let mut out: Vec<u8> = Vec::new();
        self.write_encoding(&mut out);
        proof {
            assert(out@ =~= self.spec_encoding());
        }
        out.len()
    }

    pub fn encode_parameter_data(&self, buf: &mut [u8]) -> (r: Result<usize, ParameterDataError>)
        ensures
            encoded_into(old(buf)@, final(buf)@, self.spec_encoding(), r),
    {
        let mut out: Vec<u8> = Vec::new();
        self.write_encoding(&mut out);
        proof {
            assert(out@ =~= self.spec_encoding());
        }
        copy_encoded(buf, out.as_slice())
    }

    pub fn decode_parameter_data(buf: &[u8]) -> (r: Result<Self, ParameterDataError>)
        ensures
            r == Self::spec_decoded(buf@),
    {
        if buf.len() < 1 {
            return Err(ParameterDataError::BufferTooSmall { provided: buf.len(), required: 1 });
        }
        let v0 = match <SelfTest as FixedWire>::read_wire(buf, 0) {
            Some(v) => v,
            None => return Err(ParameterDataError::MalformedData),
        };
        match SelfTestDescription::decode_parameter_data(vstd::slice::slice_subrange(buf, 1, buf.len())) {
            Ok(t) => Ok(GetSelfTestDescriptionResponse { self_test_id: v0, description: t }),
            Err(e) => Err(e),
        }
    }

    /// Decoding the parameter data of an encodable value gives it back.
    pub proof fn lemma_roundtrip(&self)
        requires
            self.spec_encodable(),
        ensures
            Self::spec_decoded(self.spec_encoding()) == Ok::<Self, ParameterDataError>(*self),
    {
        let e = self.spec_encoding();
        self.self_test_id.lemma_wire();
        assert(e.subrange(0, 1) =~= self.self_test_id.spec_wire());
        assert(e.subrange(1, e.len() as int) =~= self.description.spec_encode());
        self.description.lemma_roundtrip();
    }
}

#[derive(Clone, Copy, Debug, PartialEq, Eq, Structural)]
pub struct GetPresetPlaybackResponse {
    pub mode: PresetPlaybackMode,
    pub level: u8,
}

impl<'a> FixedWire<'a> for GetPresetPlaybackResponse {
    open spec fn spec_size() -> nat {
        3
    }

    open spec fn spec_wire(&self) -> Seq<u8> {
        self.mode.spec_wire() + self.level.spec_wire()
    }

    open spec fn spec_read(bytes: Seq<u8>) -> Option<Self> {
        if <PresetPlaybackMode as FixedWire>::spec_read(bytes.subrange(0, 2)) is Some
            && <u8 as FixedWire>::spec_read(bytes.subrange(2, 3)) is Some {
            Some(GetPresetPlaybackResponse {
                mode: <PresetPlaybackMode as FixedWire>::spec_read(bytes.subrange(0, 2)).unwrap(),
                level: <u8 as FixedWire>::spec_read(bytes.subrange(2, 3)).unwrap(),
            })
        } else {
            None
        }
    }

    open spec fn spec_wire_valid(&self) -> bool {
        self.mode.spec_wire_valid() && self.level.spec_wire_valid()
    }

    fn wire_size() -> (n: usize) {
        3
    }

    fn write_wire(&self, out: &mut Vec<u8>) {
        let ghost start = out@;
        self.mode.write_wire(out);
        self.level.write_wire(out);
        proof {
            assert(out@ =~= start + self.spec_wire());
        }
    }

    fn read_wire(buf: &'a [u8], pos: usize) -> (r: Option<Self>) {
        let _len = buf.len();
        let ghost bytes = buf@.subrange(pos as int, pos + 3);
        proof {
            assert(bytes.subrange(0, 2) =~= buf@.subrange(pos + 0, pos + 2));
            assert(bytes.subrange(2, 3) =~= buf@.subrange(pos + 2, pos + 3));
        }
        let v0 = match <PresetPlaybackMode as FixedWire>::read_wire(buf, pos) {
            Some(v) => v,
            None => return None,
        };
        let v1 = match <u8 as FixedWire>::read_wire(buf, pos + 2) {
            Some(v) => v,
            None => return None,
        };
        Some(GetPresetPlaybackResponse { mode: v0, level: v1 })
    }

    proof fn lemma_wire(&self) {
        self.mode.lemma_wire();
        self.level.lemma_wire();
        let w = self.spec_wire();
        assert(w.subrange(0, 2) =~= self.mode.spec_wire());
        assert(w.subrange(2, 3) =~= self.level.spec_wire());
        if self.spec_wire_valid() {
            assert(<PresetPlaybackMode as FixedWire>::spec_read(w.subrange(0, 2)) == Some(self.mode));
            assert(<u8 as FixedWire>::spec_read(w.subrange(2, 3)) == Some(self.level));
        }
    }
}

impl GetPresetPlaybackResponse {
    /// The parameter data of the value.
    pub open spec fn spec_encoding(&self) -> Seq<u8> {
        self.spec_wire()
    }

    /// The value that parameter data stands for, or why it stands for none.
    pub open spec fn spec_decoded(buf: Seq<u8>) -> Result<Self, ParameterDataError> {
        record_decoded::<Self>(buf)
    }

    /// Whether decoding the parameter data gives the value back.
    pub open spec fn spec_encodable(&self) -> bool {
        self.spec_wire_valid()
    }

    pub fn size_of(&self) -> (n: usize)
        ensures
            n == self.spec_encoding().len(),
            n <= 3,
    {
        proof {
            self.lemma_wire();
        }
        Self::wire_size()
    }

    /// Appends the parameter data to `out`.
    pub fn write_encoding(&self, out: &mut Vec<u8>)
        ensures
            final(out)@ == old(out)@ + self.spec_encoding(),
    {
        self.write_wire(out);
    }

    pub fn encode_parameter_data(&self, buf: &mut [u8]) -> (r: Result<usize, ParameterDataError>)
        ensures
            encoded_into(old(buf)@, final(buf)@, self.spec_encoding(), r),
    {
        encode_record(self, buf)
    }

    pub fn decode_parameter_data(buf: &[u8]) -> (r: Result<Self, ParameterDataError>)
        ensures
            r == Self::spec_decoded(buf@),
    {
        decode_record(buf)
    }

    /// Decoding the parameter data of an encodable value gives it back.
    pub proof fn lemma_roundtrip(&self)
        requires
            self.spec_encodable(),
        ensures
            Self::spec_decoded(self.spec_encoding()) == Ok::<Self, ParameterDataError>(*self),
    {
        lemma_record_roundtrip(*self);
    }
}

} // verus!
