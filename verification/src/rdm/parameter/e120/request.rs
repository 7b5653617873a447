//! Parameter data of the E120 requests.

use crate::rdm::common::DeviceUID;
use crate::rdm::error::{ParameterDataError};
use crate::rdm::utils::{copy_encoded, encoded_into};
use crate::rdm::wire::{decode_record, encode_record, lemma_option_roundtrip, lemma_record_roundtrip, read_option, record_decoded, spec_option_decoded, spec_option_valid, spec_option_wire, too_short, write_option, FixedWire};
use vstd::prelude::*;
use vstd::std_specs::convert::{FromSpecImpl, TryFromSpecImpl};
use vstd::string::StringSliceAdditionalSpecFns;
use crate::rdm::parameter::{ParameterId};
use crate::rdm::parameter::e120::{DeviceLabel, DisplayInvertMode, FadeTimes, Iso639_1, LampOnMode, LampState, PowerState, PresetPlaybackMode, ResetDeviceMode, SelfTest, StatusType};

verus! {

broadcast use vstd::array::group_array_axioms;

#[derive(Clone, Copy, Debug, PartialEq, Eq, Structural)]
pub struct DiscUniqueBranchRequest {
    pub lower_bound_uid: DeviceUID,
    pub upper_bound_uid: DeviceUID,
}

impl<'a> FixedWire<'a> for DiscUniqueBranchRequest {
    open spec fn spec_size() -> nat {
        12
    }

    open spec fn spec_wire(&self) -> Seq<u8> {
        self.lower_bound_uid.spec_wire() + self.upper_bound_uid.spec_wire()
    }

    open spec fn spec_read(bytes: Seq<u8>) -> Option<Self> {
        if <DeviceUID as FixedWire>::spec_read(bytes.subrange(0, 6)) is Some
            && <DeviceUID as FixedWire>::spec_read(bytes.subrange(6, 12)) is Some {
            Some(DiscUniqueBranchRequest {
                lower_bound_uid: <DeviceUID as FixedWire>::spec_read(bytes.subrange(0, 6)).unwrap(),
                upper_bound_uid: <DeviceUID as FixedWire>::spec_read(bytes.subrange(6, 12)).unwrap(),
            })
        } else {
            None
        }
    }

    open spec fn spec_wire_valid(&self) -> bool {
        self.lower_bound_uid.spec_wire_valid() && self.upper_bound_uid.spec_wire_valid()
    }

    fn wire_size() -> (n: usize) {
        12
    }

    fn write_wire(&self, out: &mut Vec<u8>) {
        let ghost start = out@;
        self.lower_bound_uid.write_wire(out);
        self.upper_bound_uid.write_wire(out);
        proof {
            assert(out@ =~= start + self.spec_wire());
        }
    }

    fn read_wire(buf: &'a [u8], pos: usize) -> (r: Option<Self>) {
        let _len = buf.len();
        let ghost bytes = buf@.subrange(pos as int, pos + 12);
        proof {
            assert(bytes.subrange(0, 6) =~= buf@.subrange(pos + 0, pos + 6));
            assert(bytes.subrange(6, 12) =~= buf@.subrange(pos + 6, pos + 12));
        }
        let v0 = match <DeviceUID as FixedWire>::read_wire(buf, pos) {
            Some(v) => v,
            None => return None,
        };
        let v1 = match <DeviceUID as FixedWire>::read_wire(buf, pos + 6) {
            Some(v) => v,
            None => return None,
        };
        Some(DiscUniqueBranchRequest { lower_bound_uid: v0, upper_bound_uid: v1 })
    }

    proof fn lemma_wire(&self) {
        self.lower_bound_uid.lemma_wire();
        self.upper_bound_uid.lemma_wire();
        let w = self.spec_wire();
        assert(w.subrange(0, 6) =~= self.lower_bound_uid.spec_wire());
        assert(w.subrange(6, 12) =~= self.upper_bound_uid.spec_wire());
        if self.spec_wire_valid() {
            assert(<DeviceUID as FixedWire>::spec_read(w.subrange(0, 6)) == Some(self.lower_bound_uid));
            assert(<DeviceUID as FixedWire>::spec_read(w.subrange(6, 12)) == Some(self.upper_bound_uid));
        }
    }
}

impl DiscUniqueBranchRequest {
    /// The parameter data of the value.
    pub open spec fn spec_encoding(&self) -> Seq<u8> {
        self.spec_wire()
    }

    /// The value that parameter data stands for, or why it stands for none.
    pub open spec fn spec_decoded(buf: Seq<u8>) -> Result<Self, ParameterDataError> {
        record_decoded::<Self>(buf)
    }

    /// Whether decoding the parameter data gives the value back.
    pub open spec fn spec_encodable(&self) -> bool {
        self.spec_wire_valid()
    }

    pub fn size_of(&self) -> (n: usize)
        ensures
            n == self.spec_encoding().len(),
            n <= 12,
    {
        proof {
            self.lemma_wire();
        }
        Self::wire_size()
    }

    /// Appends the parameter data to `out`.
    pub fn write_encoding(&self, out: &mut Vec<u8>)
        ensures
            final(out)@ == old(out)@ + self.spec_encoding(),
    {
        self.write_wire(out);
    }

    pub fn encode_parameter_data(&self, buf: &mut [u8]) -> (r: Result<usize, ParameterDataError>)
        ensures
            encoded_into(old(buf)@, final(buf)@, self.spec_encoding(), r),
    {
        encode_record(self, buf)
    }

    pub fn decode_parameter_data(buf: &[u8]) -> (r: Result<Self, ParameterDataError>)
        ensures
            r == Self::spec_decoded(buf@),
    {
        decode_record(buf)
    }

    /// Decoding the parameter data of an encodable value gives it back.
    pub proof fn lemma_roundtrip(&self)
        requires
            self.spec_encodable(),
        ensures
            Self::spec_decoded(self.spec_encoding()) == Ok::<Self, ParameterDataError>(*self),
    {
        lemma_record_roundtrip(*self);
    }
}

#[derive(Clone, Copy, Debug, PartialEq, Eq, Structural)]
pub struct GetQueuedMessageRequest {
    pub status_type: StatusType,
}

impl<'a> FixedWire<'a> for GetQueuedMessageRequest {
    open spec fn spec_size() -> nat {
        1
    }

    open spec fn spec_wire(&self) -> Seq<u8> {
        self.status_type.spec_wire()
    }

    open spec fn spec_read(bytes: Seq<u8>) -> Option<Self> {
        if <StatusType as FixedWire>::spec_read(bytes.subrange(0, 1)) is Some {
            Some(GetQueuedMessageRequest {
                status_type: <StatusType as FixedWire>::spec_read(bytes.subrange(0, 1)).unwrap(),
            })
        } else {
            None
        }
    }

    open spec fn spec_wire_valid(&self) -> bool {
        self.status_type.spec_wire_valid()
    }

    fn wire_size() -> (n: usize) {
        1
    }

    fn write_wire(&self, out: &mut Vec<u8>) {
        let ghost start = out@;
        self.status_type.write_wire(out);
        proof {
            assert(out@ =~= start + self.spec_wire());
        }
    }

    fn read_wire(buf: &'a [u8], pos: usize) -> (r: Option<Self>) {
        let _len = buf.len();
        let ghost bytes = buf@.subrange(pos as int, pos + 1);
        proof {
            assert(bytes.subrange(0, 1) =~= buf@.subrange(pos + 0, pos + 1));
        }
        let v0 = match <StatusType as FixedWire>::read_wire(buf, pos) {
            Some(v) => v,
            None => return None,
        };
        Some(GetQueuedMessageRequest { status_type: v0 })
    }

    proof fn lemma_wire(&self) {
        self.status_type.lemma_wire();
        let w = self.spec_wire();
        assert(w.subrange(0, 1) =~= self.status_type.spec_wire());
        if self.spec_wire_valid() {
            assert(<StatusType as FixedWire>::spec_read(w.subrange(0, 1)) == Some(self.status_type));
        }
    }
}

impl GetQueuedMessageRequest {
    /// The parameter data of the value.
    pub open spec fn spec_encoding(&self) -> Seq<u8> {
        self.spec_wire()
    }

    /// The value that parameter data stands for, or why it stands for none.
    pub open spec fn spec_decoded(buf: Seq<u8>) -> Result<Self, ParameterDataError> {
        record_decoded::<Self>(buf)
    }

    /// Whether decoding the parameter data gives the value back.
    pub open spec fn spec_encodable(&self) -> bool {
        self.spec_wire_valid()
    }

    pub fn size_of(&self) -> (n: usize)
        ensures
            n == self.spec_encoding().len(),
            n <= 1,
    {
        proof {
            self.lemma_wire();
        }
        Self::wire_size()
    }

    /// Appends the parameter data to `out`.
    pub fn write_encoding(&self, out: &mut Vec<u8>)
        ensures
            final(out)@ == old(out)@ + self.spec_encoding(),
    {
        self.write_wire(out);
    }

    pub fn encode_parameter_data(&self, buf: &mut [u8]) -> (r: Result<usize, ParameterDataError>)
        ensures
            encoded_into(old(buf)@, final(buf)@, self.spec_encoding(), r),
    {
        encode_record(self, buf)
    }

    pub fn decode_parameter_data(buf: &[u8]) -> (r: Result<Self, ParameterDataError>)
        ensures
            r == Self::spec_decoded(buf@),
    {
        decode_record(buf)
    }

    /// Decoding the parameter data of an encodable value gives it back.
    pub proof fn lemma_roundtrip(&self)
        requires
            self.spec_encodable(),
        ensures
            Self::spec_decoded(self.spec_encoding()) == Ok::<Self, ParameterDataError>(*self),
    {
        lemma_record_roundtrip(*self);
    }
}

#[derive(Clone, Copy, Debug, PartialEq, Eq, Structural)]
pub struct GetStatusMessagesRequest {
    pub status_type: StatusType,
}

impl<'a> FixedWire<'a> for GetStatusMessagesRequest {
    open spec fn spec_size() -> nat {
        1
    }

    open spec fn spec_wire(&self) -> Seq<u8> {
        self.status_type.spec_wire()
    }

    open spec fn spec_read(bytes: Seq<u8>) -> Option<Self> {
        if <StatusType as FixedWire>::spec_read(bytes.subrange(0, 1)) is Some {
            Some(GetStatusMessagesRequest {
                status_type: <StatusType as FixedWire>::spec_read(bytes.subrange(0, 1)).unwrap(),
            })
        } else {
            None
        }
    }

    open spec fn spec_wire_valid(&self) -> bool {
        self.status_type.spec_wire_valid()
    }

    fn wire_size() -> (n: usize) {
        1
    }

    fn write_wire(&self, out: &mut Vec<u8>) {
        let ghost start = out@;
        self.status_type.write_wire(out);
        proof {
            assert(out@ =~= start + self.spec_wire());
        }
    }

    fn read_wire(buf: &'a [u8], pos: usize) -> (r: Option<Self>) {
        let _len = buf.len();
        let ghost bytes = buf@.subrange(pos as int, pos + 1);
        proof {
            assert(bytes.subrange(0, 1) =~= buf@.subrange(pos + 0, pos + 1));
        }
        let v0 = match <StatusType as FixedWire>::read_wire(buf, pos) {
            Some(v) => v,
            None => return None,
        };
        Some(GetStatusMessagesRequest { status_type: v0 })
    }

    proof fn lemma_wire(&self) {
        self.status_type.lemma_wire();
        let w = self.spec_wire();
        assert(w.subrange(0, 1) =~= self.status_type.spec_wire());
        if self.spec_wire_valid() {
            assert(<StatusType as FixedWire>::spec_read(w.subrange(0, 1)) == Some(self.status_type));
        }
    }
}

impl GetStatusMessagesRequest {
    /// The parameter data of the value.
    pub open spec fn spec_encoding(&self) -> Seq<u8> {
        self.spec_wire()
    }

    /// The value that parameter data stands for, or why it stands for none.
    pub open spec fn spec_decoded(buf: Seq<u8>) -> Result<Self, ParameterDataError> {
        record_decoded::<Self>(buf)
    }

    /// Whether decoding the parameter data gives the value back.
    pub open spec fn spec_encodable(&self) -> bool {
        self.spec_wire_valid()
    }

    pub fn size_of(&self) -> (n: usize)
        ensures
            n == self.spec_encoding().len(),
            n <= 1,
    {
        proof {
            self.lemma_wire();
        }
        Self::wire_size()
    }

    /// Appends the parameter data to `out`.
    pub fn write_encoding(&self, out: &mut Vec<u8>)
        ensures
            final(out)@ == old(out)@ + self.spec_encoding(),
    {
        self.write_wire(out);
    }

    pub fn encode_parameter_data(&self, buf: &mut [u8]) -> (r: Result<usize, ParameterDataError>)
        ensures
            encoded_into(old(buf)@, final(buf)@, self.spec_encoding(), r),
    {
        encode_record(self, buf)
    }

    pub fn decode_parameter_data(buf: &[u8]) -> (r: Result<Self, ParameterDataError>)
        ensures
            r == Self::spec_decoded(buf@),
    {
        decode_record(buf)
    }

    /// Decoding the parameter data of an encodable value gives it back.
    pub proof fn lemma_roundtrip(&self)
        requires
            self.spec_encodable(),
        ensures
            Self::spec_decoded(self.spec_encoding()) == Ok::<Self, ParameterDataError>(*self),
    {
        lemma_record_roundtrip(*self);
    }
}

#[derive(Clone, Copy, Debug, PartialEq, Eq, Structural)]
pub struct GetStatusIdDescriptionRequest {
    pub status_id: u16,
}

impl<'a> FixedWire<'a> for GetStatusIdDescriptionRequest {
    open spec fn spec_size() -> nat {
        2
    }

    open spec fn spec_wire(&self) -> Seq<u8> {
        self.status_id.spec_wire()
    }

    open spec fn spec_read(bytes: Seq<u8>) -> Option<Self> {
        if <u16 as FixedWire>::spec_read(bytes.subrange(0, 2)) is Some {
            Some(GetStatusIdDescriptionRequest {
                status_id: <u16 as FixedWire>::spec_read(bytes.subrange(0, 2)).unwrap(),
            })
        } else {
            None
        }
    }

    open spec fn spec_wire_valid(&self) -> bool {
        self.status_id.spec_wire_valid()
    }

    fn wire_size() -> (n: usize) {
        2
    }

    fn write_wire(&self, out: &mut Vec<u8>) {
        let ghost start = out@;
        self.status_id.write_wire(out);
        proof {
            assert(out@ =~= start + self.spec_wire());
        }
    }

    fn read_wire(buf: &'a [u8], pos: usize) -> (r: Option<Self>) {
        let _len = buf.len();
        let ghost bytes = buf@.subrange(pos as int, pos + 2);
        proof {
            assert(bytes.subrange(0, 2) =~= buf@.subrange(pos + 0, pos + 2));
        }
        let v0 = match <u16 as FixedWire>::read_wire(buf, pos) {
            Some(v) => v,
            None => return None,
        };
        Some(GetStatusIdDescriptionRequest { status_id: v0 })
    }

    proof fn lemma_wire(&self) {
        self.status_id.lemma_wire();
        let w = self.spec_wire();
        assert(w.subrange(0, 2) =~= self.status_id.spec_wire());
        if self.spec_wire_valid() {
            assert(<u16 as FixedWire>::spec_read(w.subrange(0, 2)) == Some(self.status_id));
        }
    }
}

impl GetStatusIdDescriptionRequest {
    /// The parameter data of the value.
    pub open spec fn spec_encoding(&self) -> Seq<u8> {
        self.spec_wire()
    }

    /// The value that parameter data stands for, or why it stands for none.
    pub open spec fn spec_decoded(buf: Seq<u8>) -> Result<Self, ParameterDataError> {
        record_decoded::<Self>(buf)
    }

    /// Whether decoding the parameter data gives the value back.
    pub open spec fn spec_encodable(&self) -> bool {
        self.spec_wire_valid()
    }

    pub fn size_of(&self) -> (n: usize)
        ensures
            n == self.spec_encoding().len(),
            n <= 2,
    {
        proof {
            self.lemma_wire();
        }
        Self::wire_size()
    }

    /// Appends the parameter data to `out`.
    pub fn write_encoding(&self, out: &mut Vec<u8>)
        ensures
            final(out)@ == old(out)@ + self.spec_encoding(),
    {
        self.write_wire(out);
    }

    pub fn encode_parameter_data(&self, buf: &mut [u8]) -> (r: Result<usize, ParameterDataError>)
        ensures
            encoded_into(old(buf)@, final(buf)@, self.spec_encoding(), r),
    {
        encode_record(self, buf)
    }

    pub fn decode_parameter_data(buf: &[u8]) -> (r: Result<Self, ParameterDataError>)
        ensures
            r == Self::spec_decoded(buf@),
    {
        decode_record(buf)
    }

    /// Decoding the parameter data of an encodable value gives it back.
    pub proof fn lemma_roundtrip(&self)
        requires
            self.spec_encodable(),
        ensures
            Self::spec_decoded(self.spec_encoding()) == Ok::<Self, ParameterDataError>(*self),
    {
        lemma_record_roundtrip(*self);
    }
}

#[derive(Clone, Copy, Debug, PartialEq, Eq, Structural)]
pub struct SetSubDeviceIdStatusReportThresholdRequest {
    pub status_type: StatusType,
}

impl<'a> FixedWire<'a> for SetSubDeviceIdStatusReportThresholdRequest {
    open spec fn spec_size() -> nat {
        1
    }

    open spec fn spec_wire(&self) -> Seq<u8> {
        self.status_type.spec_wire()
    }

    open spec fn spec_read(bytes: Seq<u8>) -> Option<Self> {
        if <StatusType as FixedWire>::spec_read(bytes.subrange(0, 1)) is Some {
            Some(SetSubDeviceIdStatusReportThresholdRequest {
                status_type: <StatusType as FixedWire>::spec_read(bytes.subrange(0, 1)).unwrap(),
            })
        } else {
            None
        }
    }

    open spec fn spec_wire_valid(&self) -> bool {
        self.status_type.spec_wire_valid()
    }

    fn wire_size() -> (n: usize) {
        1
    }

    fn write_wire(&self, out: &mut Vec<u8>) {
        let ghost start = out@;
        self.status_type.write_wire(out);
        proof {
            assert(out@ =~= start + self.spec_wire());
        }
    }

    fn read_wire(buf: &'a [u8], pos: usize) -> (r: Option<Self>) {
        let _len = buf.len();
        let ghost bytes = buf@.subrange(pos as int, pos + 1);
        proof {
            assert(bytes.subrange(0, 1) =~= buf@.subrange(pos + 0, pos + 1));
        }
        let v0 = match <StatusType as FixedWire>::read_wire(buf, pos) {
            Some(v) => v,
            None => return None,
        };
        Some(SetSubDeviceIdStatusReportThresholdRequest { status_type: v0 })
    }

    proof fn lemma_wire(&self) {
        self.status_type.lemma_wire();
        let w = self.spec_wire();
        assert(w.subrange(0, 1) =~= self.status_type.spec_wire());
        if self.spec_wire_valid() {
            assert(<StatusType as FixedWire>::spec_read(w.subrange(0, 1)) == Some(self.status_type));
        }
    }
}

impl SetSubDeviceIdStatusReportThresholdRequest {
    /// The parameter data of the value.
    pub open spec fn spec_encoding(&self) -> Seq<u8> {
        self.spec_wire()
    }

    /// The value that parameter data stands for, or why it stands for none.
    pub open spec fn spec_decoded(buf: Seq<u8>) -> Result<Self, ParameterDataError> {
        record_decoded::<Self>(buf)
    }

    /// Whether decoding the parameter data gives the value back.
    pub open spec fn spec_encodable(&self) -> bool {
        self.spec_wire_valid()
    }

    pub fn size_of(&self) -> (n: usize)
        ensures
            n == self.spec_encoding().len(),
            n <= 1,
    {
        proof {
            self.lemma_wire();
        }
        Self::wire_size()
    }

    /// Appends the parameter data to `out`.
    pub fn write_encoding(&self, out: &mut Vec<u8>)
        ensures
            final(out)@ == old(out)@ + self.spec_encoding(),
    {
        self.write_wire(out);
    }

    pub fn encode_parameter_data(&self, buf: &mut [u8]) -> (r: Result<usize, ParameterDataError>)
        ensures
            encoded_into(old(buf)@, final(buf)@, self.spec_encoding(), r),
    {
        encode_record(self, buf)
    }

    pub fn decode_parameter_data(buf: &[u8]) -> (r: Result<Self, ParameterDataError>)
        ensures
            r == Self::spec_decoded(buf@),
    {
        decode_record(buf)
    }

    /// Decoding the parameter data of an encodable value gives it back.
    pub proof fn lemma_roundtrip(&self)
        requires
            self.spec_encodable(),
        ensures
            Self::spec_decoded(self.spec_encoding()) == Ok::<Self, ParameterDataError>(*self),
    {
        lemma_record_roundtrip(*self);
    }
}

#[derive(Clone, Copy, Debug, PartialEq, Eq, Structural)]
pub struct GetParameterDescriptionRequest {
    pub parameter_id: ParameterId,
}

impl<'a> FixedWire<'a> for GetParameterDescriptionRequest {
    open spec fn spec_size() -> nat {
        2
    }

    open spec fn spec_wire(&self) -> Seq<u8> {
        self.parameter_id.spec_wire()
    }

    open spec fn spec_read(bytes: Seq<u8>) -> Option<Self> {
        if <ParameterId as FixedWire>::spec_read(bytes.subrange(0, 2)) is Some {
            Some(GetParameterDescriptionRequest {
                parameter_id: <ParameterId as FixedWire>::spec_read(bytes.subrange(0, 2)).unwrap(),
            })
        } else {
            None
        }
    }

    open spec fn spec_wire_valid(&self) -> bool {
        self.parameter_id.spec_wire_valid()
    }

    fn wire_size() -> (n: usize) {
        2
    }

    fn write_wire(&self, out: &mut Vec<u8>) {
        let ghost start = out@;
        self.parameter_id.write_wire(out);
        proof {
            assert(out@ =~= start + self.spec_wire());
        }
    }

    fn read_wire(buf: &'a [u8], pos: usize) -> (r: Option<Self>) {
        let _len = buf.len();
        let ghost bytes = buf@.subrange(pos as int, pos + 2);
        proof {
            assert(bytes.subrange(0, 2) =~= buf@.subrange(pos + 0, pos + 2));
        }
        let v0 = match <ParameterId as FixedWire>::read_wire(buf, pos) {
            Some(v) => v,
            None => return None,
        };
        Some(GetParameterDescriptionRequest { parameter_id: v0 })
    }

    proof fn lemma_wire(&self) {
        self.parameter_id.lemma_wire();
        let w = self.spec_wire();
        assert(w.subrange(0, 2) =~= self.parameter_id.spec_wire());
        if self.spec_wire_valid() {
            assert(<ParameterId as FixedWire>::spec_read(w.subrange(0, 2)) == Some(self.parameter_id));
        }
    }
}

impl GetParameterDescriptionRequest {
    /// The parameter data of the value.
    pub open spec fn spec_encoding(&self) -> Seq<u8> {
        self.spec_wire()
    }

    /// The value that parameter data stands for, or why it stands for none.
    pub open spec fn spec_decoded(buf: Seq<u8>) -> Result<Self, ParameterDataError> {
        record_decoded::<Self>(buf)
    }

    /// Whether decoding the parameter data gives the value back.
    pub open spec fn spec_encodable(&self) -> bool {
        self.spec_wire_valid()
    }

    pub fn size_of(&self) -> (n: usize)
        ensures
            n == self.spec_encoding().len(),
            n <= 2,
    {
        proof {
            self.lemma_wire();
        }
        Self::wire_size()
    }

    /// Appends the parameter data to `out`.
    pub fn write_encoding(&self, out: &mut Vec<u8>)
        ensures
            final(out)@ == old(out)@ + self.spec_encoding(),
    {
        self.write_wire(out);
    }

    pub fn encode_parameter_data(&self, buf: &mut [u8]) -> (r: Result<usize, ParameterDataError>)
        ensures
            encoded_into(old(buf)@, final(buf)@, self.spec_encoding(), r),
    {
        encode_record(self, buf)
    }

    pub fn decode_parameter_data(buf: &[u8]) -> (r: Result<Self, ParameterDataError>)
        ensures
            r == Self::spec_decoded(buf@),
    {
        decode_record(buf)
    }

    /// Decoding the parameter data of an encodable value gives it back.
    pub proof fn lemma_roundtrip(&self)
        requires
            self.spec_encodable(),
        ensures
            Self::spec_decoded(self.spec_encoding()) == Ok::<Self, ParameterDataError>(*self),
    {
        lemma_record_roundtrip(*self);
    }
}

#[derive(Clone, Copy, Debug, PartialEq)]
pub struct SetDeviceLabelRequest {
    pub device_label: DeviceLabel,
}

impl SetDeviceLabelRequest {
    /// The parameter data of the value.
    pub open spec fn spec_encoding(&self) -> Seq<u8> {
        self.device_label.spec_encode()
    }

    /// The value that parameter data stands for, or why it stands for none.
    pub open spec fn spec_decoded(buf: Seq<u8>) -> Result<Self, ParameterDataError> {
        let rest = buf.subrange(0, buf.len() as int);
        match DeviceLabel::spec_decode(rest) {
            Ok(t) => Ok(SetDeviceLabelRequest { device_label: t }),
            Err(e) => Err(e),
        }
    }

    /// Whether decoding the parameter data gives the value back.
    pub open spec fn spec_encodable(&self) -> bool {
        self.device_label.spec_encodable()
    }

    /// Appends the parameter data to `out`.
    pub fn write_encoding(&self, out: &mut Vec<u8>)
        ensures
            final(out)@ == old(out)@ + self.spec_encoding(),
    {
        let ghost start = out@;
        self.device_label.write_encoded(out);
        proof {
            assert(out@ =~= start + self.spec_encoding());
        }
    }

    pub fn size_of(&self) -> (n: usize)
        ensures
            n == self.spec_encoding().len(),
            n <= 32,
    {
        proof {
            use_type_invariant(&self.device_label);
            self.device_label.lemma_encode_len();
        }
        let mut out: Vec<u8> = Vec::new();
        self.write_encoding(&mut out);
        proof {
            assert(out@ =~= self.spec_encoding());
        }
        out.len()
    }

    pub fn encode_parameter_data(&self, buf: &mut [u8]) -> (r: Result<usize, ParameterDataError>)
        ensures
            encoded_into(old(buf)@, final(buf)@, self.spec_encoding(), r),
    {
        let mut out: Vec<u8> = Vec::new();
        self.write_encoding(&mut out);
        proof {
            assert(out@ =~= self.spec_encoding());
        }
        copy_encoded(buf, out.as_slice())
    }

    pub fn decode_parameter_data(buf: &[u8]) -> (r: Result<Self, ParameterDataError>)
        ensures
            r == Self::spec_decoded(buf@),
    {
        match DeviceLabel::decode_parameter_data(vstd::slice::slice_subrange(buf, 0, buf.len())) {
            Ok(t) => Ok(SetDeviceLabelRequest { device_label: t }),
            Err(e) => Err(e),
        }
    }

    /// Decoding the parameter data of an encodable value gives it back.
    pub proof fn lemma_roundtrip(&self)
        requires
            self.spec_encodable(),
        ensures
            Self::spec_decoded(self.spec_encoding()) == Ok::<Self, ParameterDataError>(*self),
    {
        let e = self.spec_encoding();
        assert(e.subrange(0, e.len() as int) =~= self.device_label.spec_encode());
        self.device_label.lemma_roundtrip();
    }
}

#[derive(Clone, Copy, Debug, PartialEq)]
pub struct SetLanguageRequest<'a> {
    pub language: Iso639_1<'a>,
}

impl<'a> FixedWire<'a> for SetLanguageRequest<'a> {
    open spec fn spec_size() -> nat {
        2
    }

    open spec fn spec_wire(&self) -> Seq<u8> {
        self.language.spec_wire()
    }

    open spec fn spec_read(bytes: Seq<u8>) -> Option<Self> {
        if <Iso639_1<'a> as FixedWire>::spec_read(bytes.subrange(0, 2)) is Some {
            Some(SetLanguageRequest {
                language: <Iso639_1<'a> as FixedWire>::spec_read(bytes.subrange(0, 2)).unwrap(),
            })
        } else {
            None
        }
    }

    open spec fn spec_wire_valid(&self) -> bool {
        self.language.spec_wire_valid()
    }

    fn wire_size() -> (n: usize) {
        2
    }

    fn write_wire(&self, out: &mut Vec<u8>) {
        let ghost start = out@;
        self.language.write_wire(out);
        proof {
            assert(out@ =~= start + self.spec_wire());
        }
    }

    fn read_wire(buf: &'a [u8], pos: usize) -> (r: Option<Self>) {
        let _len = buf.len();
        let ghost bytes = buf@.subrange(pos as int, pos + 2);
        proof {
            assert(bytes.subrange(0, 2) =~= buf@.subrange(pos + 0, pos + 2));
        }
        let v0 = match <Iso639_1<'a> as FixedWire>::read_wire(buf, pos) {
            Some(v) => v,
            None => return None,
        };
        Some(SetLanguageRequest { language: v0 })
    }

    proof fn lemma_wire(&self) {
        self.language.lemma_wire();
        let w = self.spec_wire();
        assert(w.subrange(0, 2) =~= self.language.spec_wire());
        if self.spec_wire_valid() {
            assert(<Iso639_1<'a> as FixedWire>::spec_read(w.subrange(0, 2)) == Some(self.language));
        }
    }
}

impl<'a> SetLanguageRequest<'a> {
    /// The parameter data of the value.
    pub open spec fn spec_encoding(&self) -> Seq<u8> {
        self.spec_wire()
    }

    /// The value that parameter data stands for, or why it stands for none.
    pub open spec fn spec_decoded(buf: Seq<u8>) -> Result<Self, ParameterDataError> {
        record_decoded::<Self>(buf)
    }

    /// Whether decoding the parameter data gives the value back.
    pub open spec fn spec_encodable(&self) -> bool {
        self.spec_wire_valid()
    }

    pub fn size_of(&self) -> (n: usize)
        ensures
            n == self.spec_encoding().len(),
            n <= 2,
    {
        proof {
            self.lemma_wire();
        }
        Self::wire_size()
    }

    /// Appends the parameter data to `out`.
    pub fn write_encoding(&self, out: &mut Vec<u8>)
        ensures
            final(out)@ == old(out)@ + self.spec_encoding(),
    {
        self.write_wire(out);
    }

    pub fn encode_parameter_data(&self, buf: &mut [u8]) -> (r: Result<usize, ParameterDataError>)
        ensures
            encoded_into(old(buf)@, final(buf)@, self.spec_encoding(), r),
    {
        encode_record(self, buf)
    }

    pub fn decode_parameter_data(buf: &'a [u8]) -> (r: Result<Self, ParameterDataError>)
        ensures
            r == Self::spec_decoded(buf@),
    {
        decode_record(buf)
    }

    /// Decoding the parameter data of an encodable value gives it back.
    pub proof fn lemma_roundtrip(&self)
        requires
            self.spec_encodable(),
        ensures
            Self::spec_decoded(self.spec_encoding()) == Ok::<Self, ParameterDataError>(*self),
    {
        lemma_record_roundtrip(*self);
    }
}

#[derive(Clone, Copy, Debug, PartialEq, Eq, Structural)]
pub struct SetDmxPersonalityRequest {
    pub personality_id: u8,
}

impl<'a> FixedWire<'a> for SetDmxPersonalityRequest {
    open spec fn spec_size() -> nat {
        1
    }

    open spec fn spec_wire(&self) -> Seq<u8> {
        self.personality_id.spec_wire()
    }

    open spec fn spec_read(bytes: Seq<u8>) -> Option<Self> {
        if <u8 as FixedWire>::spec_read(bytes.subrange(0, 1)) is Some {
            Some(SetDmxPersonalityRequest {
                personality_id: <u8 as FixedWire>::spec_read(bytes.subrange(0, 1)).unwrap(),
            })
        } else {
            None
        }
    }

    open spec fn spec_wire_valid(&self) -> bool {
        self.personality_id.spec_wire_valid()
    }

    fn wire_size() -> (n: usize) {
        1
    }

    fn write_wire(&self, out: &mut Vec<u8>) {
        let ghost start = out@;
        self.personality_id.write_wire(out);
        proof {
            assert(out@ =~= start + self.spec_wire());
        }
    }

    fn read_wire(buf: &'a [u8], pos: usize) -> (r: Option<Self>) {
        let _len = buf.len();
        let ghost bytes = buf@.subrange(pos as int, pos + 1);
        proof {
            assert(bytes.subrange(0, 1) =~= buf@.subrange(pos + 0, pos + 1));
        }
        let v0 = match <u8 as FixedWire>::read_wire(buf, pos) {
            Some(v) => v,
            None => return None,
        };
        Some(SetDmxPersonalityRequest { personality_id: v0 })
    }

    proof fn lemma_wire(&self) {
        self.personality_id.lemma_wire();
        let w = self.spec_wire();
        assert(w.subrange(0, 1) =~= self.personality_id.spec_wire());
        if self.spec_wire_valid() {
            assert(<u8 as FixedWire>::spec_read(w.subrange(0, 1)) == Some(self.personality_id));
        }
    }
}

impl SetDmxPersonalityRequest {
    /// The parameter data of the value.
    pub open spec fn spec_encoding(&self) -> Seq<u8> {
        self.spec_wire()
    }

    /// The value that parameter data stands for, or why it stands for none.
    pub open spec fn spec_decoded(buf: Seq<u8>) -> Result<Self, ParameterDataError> {
        record_decoded::<Self>(buf)
    }

    /// Whether decoding the parameter data gives the value back.
    pub open spec fn spec_encodable(&self) -> bool {
        self.spec_wire_valid()
    }

    pub fn size_of(&self) -> (n: usize)
        ensures
            n == self.spec_encoding().len(),
            n <= 1,
    {
        proof {
            self.lemma_wire();
        }
        Self::wire_size()
    }

    /// Appends the parameter data to `out`.
    pub fn write_encoding(&self, out: &mut Vec<u8>)
        ensures
            final(out)@ == old(out)@ + self.spec_encoding(),
    {
        self.write_wire(out);
    }

    pub fn encode_parameter_data(&self, buf: &mut [u8]) -> (r: Result<usize, ParameterDataError>)
        ensures
            encoded_into(old(buf)@, final(buf)@, self.spec_encoding(), r),
    {
        encode_record(self, buf)
    }

    pub fn decode_parameter_data(buf: &[u8]) -> (r: Result<Self, ParameterDataError>)
        ensures
            r == Self::spec_decoded(buf@),
    {
        decode_record(buf)
    }

    /// Decoding the parameter data of an encodable value gives it back.
    pub proof fn lemma_roundtrip(&self)
        requires
            self.spec_encodable(),
        ensures
            Self::spec_decoded(self.spec_encoding()) == Ok::<Self, ParameterDataError>(*self),
    {
        lemma_record_roundtrip(*self);
    }
}

#[derive(Clone, Copy, Debug, PartialEq, Eq, Structural)]
pub struct GetDmxPersonalityDescriptionRequest {
    pub personality_id: u8,
}

impl<'a> FixedWire<'a> for GetDmxPersonalityDescriptionRequest {
    open spec fn spec_size() -> nat {
        1
    }

    open spec fn spec_wire(&self) -> Seq<u8> {
        self.personality_id.spec_wire()
    }

    open spec fn spec_read(bytes: Seq<u8>) -> Option<Self> {
        if <u8 as FixedWire>::spec_read(bytes.subrange(0, 1)) is Some {
            Some(GetDmxPersonalityDescriptionRequest {
                personality_id: <u8 as FixedWire>::spec_read(bytes.subrange(0, 1)).unwrap(),
            })
        } else {
            None
        }
    }

    open spec fn spec_wire_valid(&self) -> bool {
        self.personality_id.spec_wire_valid()
    }

    fn wire_size() -> (n: usize) {
        1
    }

    fn write_wire(&self, out: &mut Vec<u8>) {
        let ghost start = out@;
        self.personality_id.write_wire(out);
        proof {
            assert(out@ =~= start + self.spec_wire());
        }
    }

    fn read_wire(buf: &'a [u8], pos: usize) -> (r: Option<Self>) {
        let _len = buf.len();
        let ghost bytes = buf@.subrange(pos as int, pos + 1);
        proof {
            assert(bytes.subrange(0, 1) =~= buf@.subrange(pos + 0, pos + 1));
        }
        let v0 = match <u8 as FixedWire>::read_wire(buf, pos) {
            Some(v) => v,
            None => return None,
        };
        Some(GetDmxPersonalityDescriptionRequest { personality_id: v0 })
    }

    proof fn lemma_wire(&self) {
        self.personality_id.lemma_wire();
        let w = self.spec_wire();
        assert(w.subrange(0, 1) =~= self.personality_id.spec_wire());
        if self.spec_wire_valid() {
            assert(<u8 as FixedWire>::spec_read(w.subrange(0, 1)) == Some(self.personality_id));
        }
    }
}

impl GetDmxPersonalityDescriptionRequest {
    /// The parameter data of the value.
    pub open spec fn spec_encoding(&self) -> Seq<u8> {
        self.spec_wire()
    }

    /// The value that parameter data stands for, or why it stands for none.
    pub open spec fn spec_decoded(buf: Seq<u8>) -> Result<Self, ParameterDataError> {
        record_decoded::<Self>(buf)
    }

    /// Whether decoding the parameter data gives the value back.
    pub open spec fn spec_encodable(&self) -> bool {
        self.spec_wire_valid()
    }

    pub fn size_of(&self) -> (n: usize)
        ensures
            n == self.spec_encoding().len(),
            n <= 1,
    {
        proof {
            self.lemma_wire();
        }
        Self::wire_size()
    }

    /// Appends the parameter data to `out`.
    pub fn write_encoding(&self, out: &mut Vec<u8>)
        ensures
            final(out)@ == old(out)@ + self.spec_encoding(),
    {
        self.write_wire(out);
    }

    pub fn encode_parameter_data(&self, buf: &mut [u8]) -> (r: Result<usize, ParameterDataError>)
        ensures
            encoded_into(old(buf)@, final(buf)@, self.spec_encoding(), r),
    {
        encode_record(self, buf)
    }

    pub fn decode_parameter_data(buf: &[u8]) -> (r: Result<Self, ParameterDataError>)
        ensures
            r == Self::spec_decoded(buf@),
    {
        decode_record(buf)
    }

    /// Decoding the parameter data of an encodable value gives it back.
    pub proof fn lemma_roundtrip(&self)
        requires
            self.spec_encodable(),
        ensures
            Self::spec_decoded(self.spec_encoding()) == Ok::<Self, ParameterDataError>(*self),
    {
        lemma_record_roundtrip(*self);
    }
}

#[derive(Clone, Copy, Debug, PartialEq, Eq, Structural)]
pub struct SetDmxStartAddressRequest {
    pub dmx_start_address: u16,
}

impl<'a> FixedWire<'a> for SetDmxStartAddressRequest {
    open spec fn spec_size() -> nat {
        2
    }

    open spec fn spec_wire(&self) -> Seq<u8> {
        self.dmx_start_address.spec_wire()
    }

    open spec fn spec_read(bytes: Seq<u8>) -> Option<Self> {
        if <u16 as FixedWire>::spec_read(bytes.subrange(0, 2)) is Some {
            Some(SetDmxStartAddressRequest {
                dmx_start_address: <u16 as FixedWire>::spec_read(bytes.subrange(0, 2)).unwrap(),
            })
        } else {
            None
        }
    }

    open spec fn spec_wire_valid(&self) -> bool {
        self.dmx_start_address.spec_wire_valid()
    }

    fn wire_size() -> (n: usize) {
        2
    }

    fn write_wire(&self, out: &mut Vec<u8>) {
        let ghost start = out@;
        self.dmx_start_address.write_wire(out);
        proof {
            assert(out@ =~= start + self.spec_wire());
        }
    }

    fn read_wire(buf: &'a [u8], pos: usize) -> (r: Option<Self>) {
        let _len = buf.len();
        let ghost bytes = buf@.subrange(pos as int, pos + 2);
        proof {
            assert(bytes.subrange(0, 2) =~= buf@.subrange(pos + 0, pos + 2));
        }
        let v0 = match <u16 as FixedWire>::read_wire(buf, pos) {
            Some(v) => v,
            None => return None,
        };
        Some(SetDmxStartAddressRequest { dmx_start_address: v0 })
    }

    proof fn lemma_wire(&self) {
        self.dmx_start_address.lemma_wire();
        let w = self.spec_wire();
        assert(w.subrange(0, 2) =~= self.dmx_start_address.spec_wire());
        if self.spec_wire_valid() {
            assert(<u16 as FixedWire>::spec_read(w.subrange(0, 2)) == Some(self.dmx_start_address));
        }
    }
}

impl SetDmxStartAddressRequest {
    /// The parameter data of the value.
    pub open spec fn spec_encoding(&self) -> Seq<u8> {
        self.spec_wire()
    }

    /// The value that parameter data stands for, or why it stands for none.
    pub open spec fn spec_decoded(buf: Seq<u8>) -> Result<Self, ParameterDataError> {
        record_decoded::<Self>(buf)
    }

    /// Whether decoding the parameter data gives the value back.
    pub open spec fn spec_encodable(&self) -> bool {
        self.spec_wire_valid()
    }

    pub fn size_of(&self) -> (n: usize)
        ensures
            n == self.spec_encoding().len(),
            n <= 2,
    {
        proof {
            self.lemma_wire();
        }
        Self::wire_size()
    }

    /// Appends the parameter data to `out`.
    pub fn write_encoding(&self, out: &mut Vec<u8>)
        ensures
            final(out)@ == old(out)@ + self.spec_encoding(),
    {
        self.write_wire(out);
    }

    pub fn encode_parameter_data(&self, buf: &mut [u8]) -> (r: Result<usize, ParameterDataError>)
        ensures
            encoded_into(old(buf)@, final(buf)@, self.spec_encoding(), r),
    {
        encode_record(self, buf)
    }

    pub fn decode_parameter_data(buf: &[u8]) -> (r: Result<Self, ParameterDataError>)
        ensures
            r == Self::spec_decoded(buf@),
    {
        decode_record(buf)
    }

    /// Decoding the parameter data of an encodable value gives it back.
    pub proof fn lemma_roundtrip(&self)
        requires
            self.spec_encodable(),
        ensures
            Self::spec_decoded(self.spec_encoding()) == Ok::<Self, ParameterDataError>(*self),
    {
        lemma_record_roundtrip(*self);
    }
}

#[derive(Clone, Copy, Debug, PartialEq, Eq, Structural)]
pub struct GetSlotDescriptionRequest {
    pub slot_id: u16,
}

impl<'a> FixedWire<'a> for GetSlotDescriptionRequest {
    open spec fn spec_size() -> nat {
        2
    }

    open spec fn spec_wire(&self) -> Seq<u8> {
        self.slot_id.spec_wire()
    }

    open spec fn spec_read(bytes: Seq<u8>) -> Option<Self> {
        if <u16 as FixedWire>::spec_read(bytes.subrange(0, 2)) is Some {
            Some(GetSlotDescriptionRequest {
                slot_id: <u16 as FixedWire>::spec_read(bytes.subrange(0, 2)).unwrap(),
            })
        } else {
            None
        }
    }

    open spec fn spec_wire_valid(&self) -> bool {
        self.slot_id.spec_wire_valid()
    }

    fn wire_size() -> (n: usize) {
        2
    }

    fn write_wire(&self, out: &mut Vec<u8>) {
        let ghost start = out@;
        self.slot_id.write_wire(out);
        proof {
            assert(out@ =~= start + self.spec_wire());
        }
    }

    fn read_wire(buf: &'a [u8], pos: usize) -> (r: Option<Self>) {
        let _len = buf.len();
        let ghost bytes = buf@.subrange(pos as int, pos + 2);
        proof {
            assert(bytes.subrange(0, 2) =~= buf@.subrange(pos + 0, pos + 2));
        }
        let v0 = match <u16 as FixedWire>::read_wire(buf, pos) {
            Some(v) => v,
            None => return None,
        };
        Some(GetSlotDescriptionRequest { slot_id: v0 })
    }

    proof fn lemma_wire(&self) {
        self.slot_id.lemma_wire();
        let w = self.spec_wire();
        assert(w.subrange(0, 2) =~= self.slot_id.spec_wire());
        if self.spec_wire_valid() {
            assert(<u16 as FixedWire>::spec_read(w.subrange(0, 2)) == Some(self.slot_id));
        }
    }
}

impl GetSlotDescriptionRequest {
    /// The parameter data of the value.
    pub open spec fn spec_encoding(&self) -> Seq<u8> {
        self.spec_wire()
    }

    /// The value that parameter data stands for, or why it stands for none.
    pub open spec fn spec_decoded(buf: Seq<u8>) -> Result<Self, ParameterDataError> {
        record_decoded::<Self>(buf)
    }

    /// Whether decoding the parameter data gives the value back.
    pub open spec fn spec_encodable(&self) -> bool {
        self.spec_wire_valid()
    }

    pub fn size_of(&self) -> (n: usize)
        ensures
            n == self.spec_encoding().len(),
            n <= 2,
    {
        proof {
            self.lemma_wire();
        }
        Self::wire_size()
    }

    /// Appends the parameter data to `out`.
    pub fn write_encoding(&self, out: &mut Vec<u8>)
        ensures
            final(out)@ == old(out)@ + self.spec_encoding(),
    {
        self.write_wire(out);
    }

    pub fn encode_parameter_data(&self, buf: &mut [u8]) -> (r: Result<usize, ParameterDataError>)
        ensures
            encoded_into(old(buf)@, final(buf)@, self.spec_encoding(), r),
    {
        encode_record(self, buf)
    }

    pub fn decode_parameter_data(buf: &[u8]) -> (r: Result<Self, ParameterDataError>)
        ensures
            r == Self::spec_decoded(buf@),
    {
        decode_record(buf)
    }

    /// Decoding the parameter data of an encodable value gives it back.
    pub proof fn lemma_roundtrip(&self)
        requires
            self.spec_encodable(),
        ensures
            Self::spec_decoded(self.spec_encoding()) == Ok::<Self, ParameterDataError>(*self),
    {
        lemma_record_roundtrip(*self);
    }
}

#[derive(Clone, Copy, Debug, PartialEq, Eq, Structural)]
pub struct GetSensorDefinitionRequest {
    pub sensor_id: u8,
}

impl<'a> FixedWire<'a> for GetSensorDefinitionRequest {
    open spec fn spec_size() -> nat {
        1
    }

    open spec fn spec_wire(&self) -> Seq<u8> {
        self.sensor_id.spec_wire()
    }

    open spec fn spec_read(bytes: Seq<u8>) -> Option<Self> {
        if <u8 as FixedWire>::spec_read(bytes.subrange(0, 1)) is Some {
            Some(GetSensorDefinitionRequest {
                sensor_id: <u8 as FixedWire>::spec_read(bytes.subrange(0, 1)).unwrap(),
            })
        } else {
            None
        }
    }

    open spec fn spec_wire_valid(&self) -> bool {
        self.sensor_id.spec_wire_valid()
    }

    fn wire_size() -> (n: usize) {
        1
    }

    fn write_wire(&self, out: &mut Vec<u8>) {
        let ghost start = out@;
        self.sensor_id.write_wire(out);
        proof {
            assert(out@ =~= start + self.spec_wire());
        }
    }

    fn read_wire(buf: &'a [u8], pos: usize) -> (r: Option<Self>) {
        let _len = buf.len();
        let ghost bytes = buf@.subrange(pos as int, pos + 1);
        proof {
            assert(bytes.subrange(0, 1) =~= buf@.subrange(pos + 0, pos + 1));
        }
        let v0 = match <u8 as FixedWire>::read_wire(buf, pos) {
            Some(v) => v,
            None => return None,
        };
        Some(GetSensorDefinitionRequest { sensor_id: v0 })
    }

    proof fn lemma_wire(&self) {
        self.sensor_id.lemma_wire();
        let w = self.spec_wire();
        assert(w.subrange(0, 1) =~= self.sensor_id.spec_wire());
        if self.spec_wire_valid() {
            assert(<u8 as FixedWire>::spec_read(w.subrange(0, 1)) == Some(self.sensor_id));
        }
    }
}

impl GetSensorDefinitionRequest {
    /// The parameter data of the value.
    pub open spec fn spec_encoding(&self) -> Seq<u8> {
        self.spec_wire()
    }

    /// The value that parameter data stands for, or why it stands for none.
    pub open spec fn spec_decoded(buf: Seq<u8>) -> Result<Self, ParameterDataError> {
        record_decoded::<Self>(buf)
    }

    /// Whether decoding the parameter data gives the value back.
    pub open spec fn spec_encodable(&self) -> bool {
        self.spec_wire_valid()
    }

    pub fn size_of(&self) -> (n: usize)
        ensures
            n == self.spec_encoding().len(),
            n <= 1,
    {
        proof {
            self.lemma_wire();
        }
        Self::wire_size()
    }

    /// Appends the parameter data to `out`.
    pub fn write_encoding(&self, out: &mut Vec<u8>)
        ensures
            final(out)@ == old(out)@ + self.spec_encoding(),
    {
        self.write_wire(out);
    }

    pub fn encode_parameter_data(&self, buf: &mut [u8]) -> (r: Result<usize, ParameterDataError>)
        ensures
            encoded_into(old(buf)@, final(buf)@, self.spec_encoding(), r),
    {
        encode_record(self, buf)
    }

    pub fn decode_parameter_data(buf: &[u8]) -> (r: Result<Self, ParameterDataError>)
        ensures
            r == Self::spec_decoded(buf@),
    {
        decode_record(buf)
    }

    /// Decoding the parameter data of an encodable value gives it back.
    pub proof fn lemma_roundtrip(&self)
        requires
            self.spec_encodable(),
        ensures
            Self::spec_decoded(self.spec_encoding()) == Ok::<Self, ParameterDataError>(*self),
    {
        lemma_record_roundtrip(*self);
    }
}

#[derive(Clone, Copy, Debug, PartialEq, Eq, Structural)]
pub struct GetSensorValueRequest {
    pub sensor_id: u8,
}

impl<'a> FixedWire<'a> for GetSensorValueRequest {
    open spec fn spec_size() -> nat {
        1
    }

    open spec fn spec_wire(&self) -> Seq<u8> {
        self.sensor_id.spec_wire()
    }

    open spec fn spec_read(bytes: Seq<u8>) -> Option<Self> {
        if <u8 as FixedWire>::spec_read(bytes.subrange(0, 1)) is Some {
            Some(GetSensorValueRequest {
                sensor_id: <u8 as FixedWire>::spec_read(bytes.subrange(0, 1)).unwrap(),
            })
        } else {
            None
        }
    }

    open spec fn spec_wire_valid(&self) -> bool {
        self.sensor_id.spec_wire_valid()
    }

    fn wire_size() -> (n: usize) {
        1
    }

    fn write_wire(&self, out: &mut Vec<u8>) {
        let ghost start = out@;
        self.sensor_id.write_wire(out);
        proof {
            assert(out@ =~= start + self.spec_wire());
        }
    }

    fn read_wire(buf: &'a [u8], pos: usize) -> (r: Option<Self>) {
        let _len = buf.len();
        let ghost bytes = buf@.subrange(pos as int, pos + 1);
        proof {
            assert(bytes.subrange(0, 1) =~= buf@.subrange(pos + 0, pos + 1));
        }
        let v0 = match <u8 as FixedWire>::read_wire(buf, pos) {
            Some(v) => v,
            None => return None,
        };
        Some(GetSensorValueRequest { sensor_id: v0 })
    }

    proof fn lemma_wire(&self) {
        self.sensor_id.lemma_wire();
        let w = self.spec_wire();
        assert(w.subrange(0, 1) =~= self.sensor_id.spec_wire());
        if self.spec_wire_valid() {
            assert(<u8 as FixedWire>::spec_read(w.subrange(0, 1)) == Some(self.sensor_id));
        }
    }
}

impl GetSensorValueRequest {
    /// The parameter data of the value.
    pub open spec fn spec_encoding(&self) -> Seq<u8> {
        self.spec_wire()
    }

    /// The value that parameter data stands for, or why it stands for none.
    pub open spec fn spec_decoded(buf: Seq<u8>) -> Result<Self, ParameterDataError> {
        record_decoded::<Self>(buf)
    }

    /// Whether decoding the parameter data gives the value back.
    pub open spec fn spec_encodable(&self) -> bool {
        self.spec_wire_valid()
    }

    pub fn size_of(&self) -> (n: usize)
        ensures
            n == self.spec_encoding().len(),
            n <= 1,
    {
        proof {
            self.lemma_wire();
        }
        Self::wire_size()
    }

    /// Appends the parameter data to `out`.
    pub fn write_encoding(&self, out: &mut Vec<u8>)
        ensures
            final(out)@ == old(out)@ + self.spec_encoding(),
    {
        self.write_wire(out);
    }

    pub fn encode_parameter_data(&self, buf: &mut [u8]) -> (r: Result<usize, ParameterDataError>)
        ensures
            encoded_into(old(buf)@, final(buf)@, self.spec_encoding(), r),
    {
        encode_record(self, buf)
    }

    pub fn decode_parameter_data(buf: &[u8]) -> (r: Result<Self, ParameterDataError>)
        ensures
            r == Self::spec_decoded(buf@),
    {
        decode_record(buf)
    }

    /// Decoding the parameter data of an encodable value gives it back.
    pub proof fn lemma_roundtrip(&self)
        requires
            self.spec_encodable(),
        ensures
            Self::spec_decoded(self.spec_encoding()) == Ok::<Self, ParameterDataError>(*self),
    {
        lemma_record_roundtrip(*self);
    }
}

#[derive(Clone, Copy, Debug, PartialEq, Eq, Structural)]
pub struct SetSensorValueRequest {
    pub sensor_id: u8,
}

impl<'a> FixedWire<'a> for SetSensorValueRequest {
    open spec fn spec_size() -> nat {
        1
    }

    open spec fn spec_wire(&self) -> Seq<u8> {
        self.sensor_id.spec_wire()
    }

    open spec fn spec_read(bytes: Seq<u8>) -> Option<Self> {
        if <u8 as FixedWire>::spec_read(bytes.subrange(0, 1)) is Some {
            Some(SetSensorValueRequest {
                sensor_id: <u8 as FixedWire>::spec_read(bytes.subrange(0, 1)).unwrap(),
            })
        } else {
            None
        }
    }

    open spec fn spec_wire_valid(&self) -> bool {
        self.sensor_id.spec_wire_valid()
    }

    fn wire_size() -> (n: usize) {
        1
    }

    fn write_wire(&self, out: &mut Vec<u8>) {
        let ghost start = out@;
        self.sensor_id.write_wire(out);
        proof {
            assert(out@ =~= start + self.spec_wire());
        }
    }

    fn read_wire(buf: &'a [u8], pos: usize) -> (r: Option<Self>) {
        let _len = buf.len();
        let ghost bytes = buf@.subrange(pos as int, pos + 1);
        proof {
            assert(bytes.subrange(0, 1) =~= buf@.subrange(pos + 0, pos + 1));
        }
        let v0 = match <u8 as FixedWire>::read_wire(buf, pos) {
            Some(v) => v,
            None => return None,
        };
        Some(SetSensorValueRequest { sensor_id: v0 })
    }

    proof fn lemma_wire(&self) {
        self.sensor_id.lemma_wire();
        let w = self.spec_wire();
        assert(w.subrange(0, 1) =~= self.sensor_id.spec_wire());
        if self.spec_wire_valid() {
            assert(<u8 as FixedWire>::spec_read(w.subrange(0, 1)) == Some(self.sensor_id));
        }
    }
}

impl SetSensorValueRequest {
    /// The parameter data of the value.
    pub open spec fn spec_encoding(&self) -> Seq<u8> {
        self.spec_wire()
    }

    /// The value that parameter data stands for, or why it stands for none.
    pub open spec fn spec_decoded(buf: Seq<u8>) -> Result<Self, ParameterDataError> {
        record_decoded::<Self>(buf)
    }

    /// Whether decoding the parameter data gives the value back.
    pub open spec fn spec_encodable(&self) -> bool {
        self.spec_wire_valid()
    }

    pub fn size_of(&self) -> (n: usize)
        ensures
            n == self.spec_encoding().len(),
            n <= 1,
    {
        proof {
            self.lemma_wire();
        }
        Self::wire_size()
    }

    /// Appends the parameter data to `out`.
    pub fn write_encoding(&self, out: &mut Vec<u8>)
        ensures
            final(out)@ == old(out)@ + self.spec_encoding(),
    {
        self.write_wire(out);
    }

    pub fn encode_parameter_data(&self, buf: &mut [u8]) -> (r: Result<usize, ParameterDataError>)
        ensures
            encoded_into(old(buf)@, final(buf)@, self.spec_encoding(), r),
    {
        encode_record(self, buf)
    }

    pub fn decode_parameter_data(buf: &[u8]) -> (r: Result<Self, ParameterDataError>)
        ensures
            r == Self::spec_decoded(buf@),
    {
        decode_record(buf)
    }

    /// Decoding the parameter data of an encodable value gives it back.
    pub proof fn lemma_roundtrip(&self)
        requires
            self.spec_encodable(),
        ensures
            Self::spec_decoded(self.spec_encoding()) == Ok::<Self, ParameterDataError>(*self),
    {
        lemma_record_roundtrip(*self);
    }
}

#[derive(Clone, Copy, Debug, PartialEq, Eq, Structural)]
pub struct SetRecordSensorsRequest {
    pub sensor_id: u8,
}

impl<'a> FixedWire<'a> for SetRecordSensorsRequest {
    open spec fn spec_size() -> nat {
        1
    }

    open spec fn spec_wire(&self) -> Seq<u8> {
        self.sensor_id.spec_wire()
    }

    open spec fn spec_read(bytes: Seq<u8>) -> Option<Self> {
        if <u8 as FixedWire>::spec_read(bytes.subrange(0, 1)) is Some {
            Some(SetRecordSensorsRequest {
                sensor_id: <u8 as FixedWire>::spec_read(bytes.subrange(0, 1)).unwrap(),
            })
        } else {
            None
        }
    }

    open spec fn spec_wire_valid(&self) -> bool {
        self.sensor_id.spec_wire_valid()
    }

    fn wire_size() -> (n: usize) {
        1
    }

    fn write_wire(&self, out: &mut Vec<u8>) {
        let ghost start = out@;
        self.sensor_id.write_wire(out);
        proof {
            assert(out@ =~= start + self.spec_wire());
        }
    }

    fn read_wire(buf: &'a [u8], pos: usize) -> (r: Option<Self>) {
        let _len = buf.len();
        let ghost bytes = buf@.subrange(pos as int, pos + 1);
        proof {
            assert(bytes.subrange(0, 1) =~= buf@.subrange(pos + 0, pos + 1));
        }
        let v0 = match <u8 as FixedWire>::read_wire(buf, pos) {
            Some(v) => v,
            None => return None,
        };
        Some(SetRecordSensorsRequest { sensor_id: v0 })
    }

    proof fn lemma_wire(&self) {
        self.sensor_id.lemma_wire();
        let w = self.spec_wire();
        assert(w.subrange(0, 1) =~= self.sensor_id.spec_wire());
        if self.spec_wire_valid() {
            assert(<u8 as FixedWire>::spec_read(w.subrange(0, 1)) == Some(self.sensor_id));
        }
    }
}

impl SetRecordSensorsRequest {
    /// The parameter data of the value.
    pub open spec fn spec_encoding(&self) -> Seq<u8> {
        self.spec_wire()
    }

    /// The value that parameter data stands for, or why it stands for none.
    pub open spec fn spec_decoded(buf: Seq<u8>) -> Result<Self, ParameterDataError> {
        record_decoded::<Self>(buf)
    }

    /// Whether decoding the parameter data gives the value back.
    pub open spec fn spec_encodable(&self) -> bool {
        self.spec_wire_valid()
    }

    pub fn size_of(&self) -> (n: usize)
        ensures
            n == self.spec_encoding().len(),
            n <= 1,
    {
        proof {
            self.lemma_wire();
        }
        Self::wire_size()
    }

    /// Appends the parameter data to `out`.
    pub fn write_encoding(&self, out: &mut Vec<u8>)
        ensures
            final(out)@ == old(out)@ + self.spec_encoding(),
    {
        self.write_wire(out);
    }

    pub fn encode_parameter_data(&self, buf: &mut [u8]) -> (r: Result<usize, ParameterDataError>)
        ensures
            encoded_into(old(buf)@, final(buf)@, self.spec_encoding(), r),
    {
        encode_record(self, buf)
    }

    pub fn decode_parameter_data(buf: &[u8]) -> (r: Result<Self, ParameterDataError>)
        ensures
            r == Self::spec_decoded(buf@),
    {
        decode_record(buf)
    }

    /// Decoding the parameter data of an encodable value gives it back.
    pub proof fn lemma_roundtrip(&self)
        requires
            self.spec_encodable(),
        ensures
            Self::spec_decoded(self.spec_encoding()) == Ok::<Self, ParameterDataError>(*self),
    {
        lemma_record_roundtrip(*self);
    }
}

#[derive(Clone, Copy, Debug, PartialEq, Eq, Structural)]
pub struct SetDeviceHoursRequest {
    pub device_hours: u32,
}

impl<'a> FixedWire<'a> for SetDeviceHoursRequest {
    open spec fn spec_size() -> nat {
        4
    }

    open spec fn spec_wire(&self) -> Seq<u8> {
        self.device_hours.spec_wire()
    }

    open spec fn spec_read(bytes: Seq<u8>) -> Option<Self> {
        if <u32 as FixedWire>::spec_read(bytes.subrange(0, 4)) is Some {
            Some(SetDeviceHoursRequest {
                device_hours: <u32 as FixedWire>::spec_read(bytes.subrange(0, 4)).unwrap(),
            })
        } else {
            None
        }
    }

    open spec fn spec_wire_valid(&self) -> bool {
        self.device_hours.spec_wire_valid()
    }

    fn wire_size() -> (n: usize) {
        4
    }

    fn write_wire(&self, out: &mut Vec<u8>) {
        let ghost start = out@;
        self.device_hours.write_wire(out);
        proof {
            assert(out@ =~= start + self.spec_wire());
        }
    }

    fn read_wire(buf: &'a [u8], pos: usize) -> (r: Option<Self>) {
        let _len = buf.len();
        let ghost bytes = buf@.subrange(pos as int, pos + 4);
        proof {
            assert(bytes.subrange(0, 4) =~= buf@.subrange(pos + 0, pos + 4));
        }
        let v0 = match <u32 as FixedWire>::read_wire(buf, pos) {
            Some(v) => v,
            None => return None,
        };
        Some(SetDeviceHoursRequest { device_hours: v0 })
    }

    proof fn lemma_wire(&self) {
        self.device_hours.lemma_wire();
        let w = self.spec_wire();
        assert(w.subrange(0, 4) =~= self.device_hours.spec_wire());
        if self.spec_wire_valid() {
            assert(<u32 as FixedWire>::spec_read(w.subrange(0, 4)) == Some(self.device_hours));
        }
    }
}

impl SetDeviceHoursRequest {
    /// The parameter data of the value.
    pub open spec fn spec_encoding(&self) -> Seq<u8> {
        self.spec_wire()
    }

    /// The value that parameter data stands for, or why it stands for none.
    pub open spec fn spec_decoded(buf: Seq<u8>) -> Result<Self, ParameterDataError> {
        record_decoded::<Self>(buf)
    }

    /// Whether decoding the parameter data gives the value back.
    pub open spec fn spec_encodable(&self) -> bool {
        self.spec_wire_valid()
    }

    pub fn size_of(&self) -> (n: usize)
        ensures
            n == self.spec_encoding().len(),
            n <= 4,
    {
        proof {
            self.lemma_wire();
        }
        Self::wire_size()
    }

    /// Appends the parameter data to `out`.
    pub fn write_encoding(&self, out: &mut Vec<u8>)
        ensures
            final(out)@ == old(out)@ + self.spec_encoding(),
    {
        self.write_wire(out);
    }

    pub fn encode_parameter_data(&self, buf: &mut [u8]) -> (r: Result<usize, ParameterDataError>)
        ensures
            encoded_into(old(buf)@, final(buf)@, self.spec_encoding(), r),
    {
        encode_record(self, buf)
    }

    pub fn decode_parameter_data(buf: &[u8]) -> (r: Result<Self, ParameterDataError>)
        ensures
            r == Self::spec_decoded(buf@),
    {
        decode_record(buf)
    }

    /// Decoding the parameter data of an encodable value gives it back.
    pub proof fn lemma_roundtrip(&self)
        requires
            self.spec_encodable(),
        ensures
            Self::spec_decoded(self.spec_encoding()) == Ok::<Self, ParameterDataError>(*self),
    {
        lemma_record_roundtrip(*self);
    }
}

#[derive(Clone, Copy, Debug, PartialEq, Eq, Structural)]
pub struct SetLampHoursRequest {
    pub lamp_hours: u32,
}

impl<'a> FixedWire<'a> for SetLampHoursRequest {
    open spec fn spec_size() -> nat {
        4
    }

    open spec fn spec_wire(&self) -> Seq<u8> {
        self.lamp_hours.spec_wire()
    }

    open spec fn spec_read(bytes: Seq<u8>) -> Option<Self> {
        if <u32 as FixedWire>::spec_read(bytes.subrange(0, 4)) is Some {
            Some(SetLampHoursRequest {
                lamp_hours: <u32 as FixedWire>::spec_read(bytes.subrange(0, 4)).unwrap(),
            })
        } else {
            None
        }
    }

    open spec fn spec_wire_valid(&self) -> bool {
        self.lamp_hours.spec_wire_valid()
    }

    fn wire_size() -> (n: usize) {
        4
    }

    fn write_wire(&self, out: &mut Vec<u8>) {
        let ghost start = out@;
        self.lamp_hours.write_wire(out);
        proof {
            assert(out@ =~= start + self.spec_wire());
        }
    }

    fn read_wire(buf: &'a [u8], pos: usize) -> (r: Option<Self>) {
        let _len = buf.len();
        let ghost bytes = buf@.subrange(pos as int, pos + 4);
        proof {
            assert(bytes.subrange(0, 4) =~= buf@.subrange(pos + 0, pos + 4));
        }
        let v0 = match <u32 as FixedWire>::read_wire(buf, pos) {
            Some(v) => v,
            None => return None,
        };
        Some(SetLampHoursRequest { lamp_hours: v0 })
    }

    proof fn lemma_wire(&self) {
        self.lamp_hours.lemma_wire();
        let w = self.spec_wire();
        assert(w.subrange(0, 4) =~= self.lamp_hours.spec_wire());
        if self.spec_wire_valid() {
            assert(<u32 as FixedWire>::spec_read(w.subrange(0, 4)) == Some(self.lamp_hours));
        }
    }
}

impl SetLampHoursRequest {
    /// The parameter data of the value.
    pub open spec fn spec_encoding(&self) -> Seq<u8> {
        self.spec_wire()
    }

    /// The value that parameter data stands for, or why it stands for none.
    pub open spec fn spec_decoded(buf: Seq<u8>) -> Result<Self, ParameterDataError> {
        record_decoded::<Self>(buf)
    }

    /// Whether decoding the parameter data gives the value back.
    pub open spec fn spec_encodable(&self) -> bool {
        self.spec_wire_valid()
    }

    pub fn size_of(&self) -> (n: usize)
        ensures
            n == self.spec_encoding().len(),
            n <= 4,
    {
        proof {
            self.lemma_wire();
        }
        Self::wire_size()
    }

    /// Appends the parameter data to `out`.
    pub fn write_encoding(&self, out: &mut Vec<u8>)
        ensures
            final(out)@ == old(out)@ + self.spec_encoding(),
    {
        self.write_wire(out);
    }

    pub fn encode_parameter_data(&self, buf: &mut [u8]) -> (r: Result<usize, ParameterDataError>)
        ensures
            encoded_into(old(buf)@, final(buf)@, self.spec_encoding(), r),
    {
        encode_record(self, buf)
    }

    pub fn decode_parameter_data(buf: &[u8]) -> (r: Result<Self, ParameterDataError>)
        ensures
            r == Self::spec_decoded(buf@),
    {
        decode_record(buf)
    }

    /// Decoding the parameter data of an encodable value gives it back.
    pub proof fn lemma_roundtrip(&self)
        requires
            self.spec_encodable(),
        ensures
            Self::spec_decoded(self.spec_encoding()) == Ok::<Self, ParameterDataError>(*self),
    {
        lemma_record_roundtrip(*self);
    }
}

#[derive(Clone, Copy, Debug, PartialEq, Eq, Structural)]
pub struct SetLampStrikesRequest {
    pub lamp_strikes: u32,
}

impl<'a> FixedWire<'a> for SetLampStrikesRequest {
    open spec fn spec_size() -> nat {
        4
    }

    open spec fn spec_wire(&self) -> Seq<u8> {
        self.lamp_strikes.spec_wire()
    }

    open spec fn spec_read(bytes: Seq<u8>) -> Option<Self> {
        if <u32 as FixedWire>::spec_read(bytes.subrange(0, 4)) is Some {
            Some(SetLampStrikesRequest {
                lamp_strikes: <u32 as FixedWire>::spec_read(bytes.subrange(0, 4)).unwrap(),
            })
        } else {
            None
        }
    }

    open spec fn spec_wire_valid(&self) -> bool {
        self.lamp_strikes.spec_wire_valid()
    }

    fn wire_size() -> (n: usize) {
        4
    }

    fn write_wire(&self, out: &mut Vec<u8>) {
        let ghost start = out@;
        self.lamp_strikes.write_wire(out);
        proof {
            assert(out@ =~= start + self.spec_wire());
        }
    }

    fn read_wire(buf: &'a [u8], pos: usize) -> (r: Option<Self>) {
        let _len = buf.len();
        let ghost bytes = buf@.subrange(pos as int, pos + 4);
        proof {
            assert(bytes.subrange(0, 4) =~= buf@.subrange(pos + 0, pos + 4));
        }
        let v0 = match <u32 as FixedWire>::read_wire(buf, pos) {
            Some(v) => v,
            None => return None,
        };
        Some(SetLampStrikesRequest { lamp_strikes: v0 })
    }

    proof fn lemma_wire(&self) {
        self.lamp_strikes.lemma_wire();
        let w = self.spec_wire();
        assert(w.subrange(0, 4) =~= self.lamp_strikes.spec_wire());
        if self.spec_wire_valid() {
            assert(<u32 as FixedWire>::spec_read(w.subrange(0, 4)) == Some(self.lamp_strikes));
        }
    }
}

impl SetLampStrikesRequest {
    /// The parameter data of the value.
    pub open spec fn spec_encoding(&self) -> Seq<u8> {
        self.spec_wire()
    }

    /// The value that parameter data stands for, or why it stands for none.
    pub open spec fn spec_decoded(buf: Seq<u8>) -> Result<Self, ParameterDataError> {
        record_decoded::<Self>(buf)
    }

    /// Whether decoding the parameter data gives the value back.
    pub open spec fn spec_encodable(&self) -> bool {
        self.spec_wire_valid()
    }

    pub fn size_of(&self) -> (n: usize)
        ensures
            n == self.spec_encoding().len(),
            n <= 4,
    {
        proof {
            self.lemma_wire();
        }
        Self::wire_size()
    }

    /// Appends the parameter data to `out`.
    pub fn write_encoding(&self, out: &mut Vec<u8>)
        ensures
            final(out)@ == old(out)@ + self.spec_encoding(),
    {
        self.write_wire(out);
    }

    pub fn encode_parameter_data(&self, buf: &mut [u8]) -> (r: Result<usize, ParameterDataError>)
        ensures
            encoded_into(old(buf)@, final(buf)@, self.spec_encoding(), r),
    {
        encode_record(self, buf)
    }

    pub fn decode_parameter_data(buf: &[u8]) -> (r: Result<Self, ParameterDataError>)
        ensures
            r == Self::spec_decoded(buf@),
    {
        decode_record(buf)
    }

    /// Decoding the parameter data of an encodable value gives it back.
    pub proof fn lemma_roundtrip(&self)
        requires
            self.spec_encodable(),
        ensures
            Self::spec_decoded(self.spec_encoding()) == Ok::<Self, ParameterDataError>(*self),
    {
        lemma_record_roundtrip(*self);
    }
}

#[derive(Clone, Copy, Debug, PartialEq, Eq, Structural)]
pub struct SetLampStateRequest {
    pub lamp_state: LampState,
}

impl<'a> FixedWire<'a> for SetLampStateRequest {
    open spec fn spec_size() -> nat {
        1
    }

    open spec fn spec_wire(&self) -> Seq<u8> {
        self.lamp_state.spec_wire()
    }

    open spec fn spec_read(bytes: Seq<u8>) -> Option<Self> {
        if <LampState as FixedWire>::spec_read(bytes.subrange(0, 1)) is Some {
            Some(SetLampStateRequest {
                lamp_state: <LampState as FixedWire>::spec_read(bytes.subrange(0, 1)).unwrap(),
            })
        } else {
            None
        }
    }

    open spec fn spec_wire_valid(&self) -> bool {
        self.lamp_state.spec_wire_valid()
    }

    fn wire_size() -> (n: usize) {
        1
    }

    fn write_wire(&self, out: &mut Vec<u8>) {
        let ghost start = out@;
        self.lamp_state.write_wire(out);
        proof {
            assert(out@ =~= start + self.spec_wire());
        }
    }

    fn read_wire(buf: &'a [u8], pos: usize) -> (r: Option<Self>) {
        let _len = buf.len();
        let ghost bytes = buf@.subrange(pos as int, pos + 1);
        proof {
            assert(bytes.subrange(0, 1) =~= buf@.subrange(pos + 0, pos + 1));
        }
        let v0 = match <LampState as FixedWire>::read_wire(buf, pos) {
            Some(v) => v,
            None => return None,
        };
        Some(SetLampStateRequest { lamp_state: v0 })
    }

    proof fn lemma_wire(&self) {
        self.lamp_state.lemma_wire();
        let w = self.spec_wire();
        assert(w.subrange(0, 1) =~= self.lamp_state.spec_wire());
        if self.spec_wire_valid() {
            assert(<LampState as FixedWire>::spec_read(w.subrange(0, 1)) == Some(self.lamp_state));
        }
    }
}

impl SetLampStateRequest {
    /// The parameter data of the value.
    pub open spec fn spec_encoding(&self) -> Seq<u8> {
        self.spec_wire()
    }

    /// The value that parameter data stands for, or why it stands for none.
    pub open spec fn spec_decoded(buf: Seq<u8>) -> Result<Self, ParameterDataError> {
        record_decoded::<Self>(buf)
    }

    /// Whether decoding the parameter data gives the value back.
    pub open spec fn spec_encodable(&self) -> bool {
        self.spec_wire_valid()
    }

    pub fn size_of(&self) -> (n: usize)
        ensures
            n == self.spec_encoding().len(),
            n <= 1,
    {
        proof {
            self.lemma_wire();
        }
        Self::wire_size()
    }

    /// Appends the parameter data to `out`.
    pub fn write_encoding(&self, out: &mut Vec<u8>)
        ensures
            final(out)@ == old(out)@ + self.spec_encoding(),
    {
        self.write_wire(out);
    }

    pub fn encode_parameter_data(&self, buf: &mut [u8]) -> (r: Result<usize, ParameterDataError>)
        ensures
            encoded_into(old(buf)@, final(buf)@, self.spec_encoding(), r),
    {
        encode_record(self, buf)
    }

    pub fn decode_parameter_data(buf: &[u8]) -> (r: Result<Self, ParameterDataError>)
        ensures
            r == Self::spec_decoded(buf@),
    {
        decode_record(buf)
    }

    /// Decoding the parameter data of an encodable value gives it back.
    pub proof fn lemma_roundtrip(&self)
        requires
            self.spec_encodable(),
        ensures
            Self::spec_decoded(self.spec_encoding()) == Ok::<Self, ParameterDataError>(*self),
    {
        lemma_record_roundtrip(*self);
    }
}

#[derive(Clone, Copy, Debug, PartialEq, Eq, Structural)]
pub struct SetLampOnModeRequest {
    pub lamp_on_mode: LampOnMode,
}

impl<'a> FixedWire<'a> for SetLampOnModeRequest {
    open spec fn spec_size() -> nat {
        1
    }

    open spec fn spec_wire(&self) -> Seq<u8> {
        self.lamp_on_mode.spec_wire()
    }

    open spec fn spec_read(bytes: Seq<u8>) -> Option<Self> {
        if <LampOnMode as FixedWire>::spec_read(bytes.subrange(0, 1)) is Some {
            Some(SetLampOnModeRequest {
                lamp_on_mode: <LampOnMode as FixedWire>::spec_read(bytes.subrange(0, 1)).unwrap(),
            })
        } else {
            None
        }
    }

    open spec fn spec_wire_valid(&self) -> bool {
        self.lamp_on_mode.spec_wire_valid()
    }

    fn wire_size() -> (n: usize) {
        1
    }

    fn write_wire(&self, out: &mut Vec<u8>) {
        let ghost start = out@;
        self.lamp_on_mode.write_wire(out);
        proof {
            assert(out@ =~= start + self.spec_wire());
        }
    }

    fn read_wire(buf: &'a [u8], pos: usize) -> (r: Option<Self>) {
        let _len = buf.len();
        let ghost bytes = buf@.subrange(pos as int, pos + 1);
        proof {
            assert(bytes.subrange(0, 1) =~= buf@.subrange(pos + 0, pos + 1));
        }
        let v0 = match <LampOnMode as FixedWire>::read_wire(buf, pos) {
            Some(v) => v,
            None => return None,
        };
        Some(SetLampOnModeRequest { lamp_on_mode: v0 })
    }

    proof fn lemma_wire(&self) {
        self.lamp_on_mode.lemma_wire();
        let w = self.spec_wire();
        assert(w.subrange(0, 1) =~= self.lamp_on_mode.spec_wire());
        if self.spec_wire_valid() {
            assert(<LampOnMode as FixedWire>::spec_read(w.subrange(0, 1)) == Some(self.lamp_on_mode));
        }
    }
}

impl SetLampOnModeRequest {
    /// The parameter data of the value.
    pub open spec fn spec_encoding(&self) -> Seq<u8> {
        self.spec_wire()
    }

    /// The value that parameter data stands for, or why it stands for none.
    pub open spec fn spec_decoded(buf: Seq<u8>) -> Result<Self, ParameterDataError> {
        record_decoded::<Self>(buf)
    }

    /// Whether decoding the parameter data gives the value back.
    pub open spec fn spec_encodable(&self) -> bool {
        self.spec_wire_valid()
    }

    pub fn size_of(&self) -> (n: usize)
        ensures
            n == self.spec_encoding().len(),
            n <= 1,
    {
        proof {
            self.lemma_wire();
        }
        Self::wire_size()
    }

    /// Appends the parameter data to `out`.
    pub fn write_encoding(&self, out: &mut Vec<u8>)
        ensures
            final(out)@ == old(out)@ + self.spec_encoding(),
    {
        self.write_wire(out);
    }

    pub fn encode_parameter_data(&self, buf: &mut [u8]) -> (r: Result<usize, ParameterDataError>)
        ensures
            encoded_into(old(buf)@, final(buf)@, self.spec_encoding(), r),
    {
        encode_record(self, buf)
    }

    pub fn decode_parameter_data(buf: &[u8]) -> (r: Result<Self, ParameterDataError>)
        ensures
            r == Self::spec_decoded(buf@),
    {
        decode_record(buf)
    }

    /// Decoding the parameter data of an encodable value gives it back.
    pub proof fn lemma_roundtrip(&self)
        requires
            self.spec_encodable(),
        ensures
            Self::spec_decoded(self.spec_encoding()) == Ok::<Self, ParameterDataError>(*self),
    {
        lemma_record_roundtrip(*self);
    }
}

#[derive(Clone, Copy, Debug, PartialEq, Eq, Structural)]
pub struct SetDevicePowerCyclesRequest {
    pub device_power_cycles: u32,
}

impl<'a> FixedWire<'a> for SetDevicePowerCyclesRequest {
    open spec fn spec_size() -> nat {
        4
    }

    open spec fn spec_wire(&self) -> Seq<u8> {
        self.device_power_cycles.spec_wire()
    }

    open spec fn spec_read(bytes: Seq<u8>) -> Option<Self> {
        if <u32 as FixedWire>::spec_read(bytes.subrange(0, 4)) is Some {
            Some(SetDevicePowerCyclesRequest {
                device_power_cycles: <u32 as FixedWire>::spec_read(bytes.subrange(0, 4)).unwrap(),
            })
        } else {
            None
        }
    }

    open spec fn spec_wire_valid(&self) -> bool {
        self.device_power_cycles.spec_wire_valid()
    }

    fn wire_size() -> (n: usize) {
        4
    }

    fn write_wire(&self, out: &mut Vec<u8>) {
        let ghost start = out@;
        self.device_power_cycles.write_wire(out);
        proof {
            assert(out@ =~= start + self.spec_wire());
        }
    }

    fn read_wire(buf: &'a [u8], pos: usize) -> (r: Option<Self>) {
        let _len = buf.len();
        let ghost bytes = buf@.subrange(pos as int, pos + 4);
        proof {
            assert(bytes.subrange(0, 4) =~= buf@.subrange(pos + 0, pos + 4));
        }
        let v0 = match <u32 as FixedWire>::read_wire(buf, pos) {
            Some(v) => v,
            None => return None,
        };
        Some(SetDevicePowerCyclesRequest { device_power_cycles: v0 })
    }

    proof fn lemma_wire(&self) {
        self.device_power_cycles.lemma_wire();
        let w = self.spec_wire();
        assert(w.subrange(0, 4) =~= self.device_power_cycles.spec_wire());
        if self.spec_wire_valid() {
            assert(<u32 as FixedWire>::spec_read(w.subrange(0, 4)) == Some(self.device_power_cycles));
        }
    }
}

impl SetDevicePowerCyclesRequest {
    /// The parameter data of the value.
    pub open spec fn spec_encoding(&self) -> Seq<u8> {
        self.spec_wire()
    }

    /// The value that parameter data stands for, or why it stands for none.
    pub open spec fn spec_decoded(buf: Seq<u8>) -> Result<Self, ParameterDataError> {
        record_decoded::<Self>(buf)
    }

    /// Whether decoding the parameter data gives the value back.
    pub open spec fn spec_encodable(&self) -> bool {
        self.spec_wire_valid()
    }

    pub fn size_of(&self) -> (n: usize)
        ensures
            n == self.spec_encoding().len(),
            n <= 4,
    {
        proof {
            self.lemma_wire();
        }
        Self::wire_size()
    }

    /// Appends the parameter data to `out`.
    pub fn write_encoding(&self, out: &mut Vec<u8>)
        ensures
            final(out)@ == old(out)@ + self.spec_encoding(),
    {
        self.write_wire(out);
    }

    pub fn encode_parameter_data(&self, buf: &mut [u8]) -> (r: Result<usize, ParameterDataError>)
        ensures
            encoded_into(old(buf)@, final(buf)@, self.spec_encoding(), r),
    {
        encode_record(self, buf)
    }

    pub fn decode_parameter_data(buf: &[u8]) -> (r: Result<Self, ParameterDataError>)
        ensures
            r == Self::spec_decoded(buf@),
    {
        decode_record(buf)
    }

    /// Decoding the parameter data of an encodable value gives it back.
    pub proof fn lemma_roundtrip(&self)
        requires
            self.spec_encodable(),
        ensures
            Self::spec_decoded(self.spec_encoding()) == Ok::<Self, ParameterDataError>(*self),
    {
        lemma_record_roundtrip(*self);
    }
}

#[derive(Clone, Copy, Debug, PartialEq, Eq, Structural)]
pub struct SetDisplayInvertRequest {
    pub display_invert_mode: DisplayInvertMode,
}

impl<'a> FixedWire<'a> for SetDisplayInvertRequest {
    open spec fn spec_size() -> nat {
        1
    }

    open spec fn spec_wire(&self) -> Seq<u8> {
        self.display_invert_mode.spec_wire()
    }

    open spec fn spec_read(bytes: Seq<u8>) -> Option<Self> {
        if <DisplayInvertMode as FixedWire>::spec_read(bytes.subrange(0, 1)) is Some {
            Some(SetDisplayInvertRequest {
                display_invert_mode: <DisplayInvertMode as FixedWire>::spec_read(bytes.subrange(0, 1)).unwrap(),
            })
        } else {
            None
        }
    }

    open spec fn spec_wire_valid(&self) -> bool {
        self.display_invert_mode.spec_wire_valid()
    }

    fn wire_size() -> (n: usize) {
        1
    }

    fn write_wire(&self, out: &mut Vec<u8>) {
        let ghost start = out@;
        self.display_invert_mode.write_wire(out);
        proof {
            assert(out@ =~= start + self.spec_wire());
        }
    }

    fn read_wire(buf: &'a [u8], pos: usize) -> (r: Option<Self>) {
        let _len = buf.len();
        let ghost bytes = buf@.subrange(pos as int, pos + 1);
        proof {
            assert(bytes.subrange(0, 1) =~= buf@.subrange(pos + 0, pos + 1));
        }
        let v0 = match <DisplayInvertMode as FixedWire>::read_wire(buf, pos) {
            Some(v) => v,
            None => return None,
        };
        Some(SetDisplayInvertRequest { display_invert_mode: v0 })
    }

    proof fn lemma_wire(&self) {
        self.display_invert_mode.lemma_wire();
        let w = self.spec_wire();
        assert(w.subrange(0, 1) =~= self.display_invert_mode.spec_wire());
        if self.spec_wire_valid() {
            assert(<DisplayInvertMode as FixedWire>::spec_read(w.subrange(0, 1)) == Some(self.display_invert_mode));
        }
    }
}

impl SetDisplayInvertRequest {
    /// The parameter data of the value.
    pub open spec fn spec_encoding(&self) -> Seq<u8> {
        self.spec_wire()
    }

    /// The value that parameter data stands for, or why it stands for none.
    pub open spec fn spec_decoded(buf: Seq<u8>) -> Result<Self, ParameterDataError> {
        record_decoded::<Self>(buf)
    }

    /// Whether decoding the parameter data gives the value back.
    pub open spec fn spec_encodable(&self) -> bool {
        self.spec_wire_valid()
    }

    pub fn size_of(&self) -> (n: usize)
        ensures
            n == self.spec_encoding().len(),
            n <= 1,
    {
        proof {
            self.lemma_wire();
        }
        Self::wire_size()
    }

    /// Appends the parameter data to `out`.
    pub fn write_encoding(&self, out: &mut Vec<u8>)
        ensures
            final(out)@ == old(out)@ + self.spec_encoding(),
    {
        self.write_wire(out);
    }

    pub fn encode_parameter_data(&self, buf: &mut [u8]) -> (r: Result<usize, ParameterDataError>)
        ensures
            encoded_into(old(buf)@, final(buf)@, self.spec_encoding(), r),
    {
        encode_record(self, buf)
    }

    pub fn decode_parameter_data(buf: &[u8]) -> (r: Result<Self, ParameterDataError>)
        ensures
            r == Self::spec_decoded(buf@),
    {
        decode_record(buf)
    }

    /// Decoding the parameter data of an encodable value gives it back.
    pub proof fn lemma_roundtrip(&self)
        requires
            self.spec_encodable(),
        ensures
            Self::spec_decoded(self.spec_encoding()) == Ok::<Self, ParameterDataError>(*self),
    {
        lemma_record_roundtrip(*self);
    }
}

#[derive(Clone, Copy, Debug, PartialEq, Eq, Structural)]
pub struct SetDisplayLevelRequest {
    pub display_level: u8,
}

impl<'a> FixedWire<'a> for SetDisplayLevelRequest {
    open spec fn spec_size() -> nat {
        1
    }

    open spec fn spec_wire(&self) -> Seq<u8> {
        self.display_level.spec_wire()
    }

    open spec fn spec_read(bytes: Seq<u8>) -> Option<Self> {
        if <u8 as FixedWire>::spec_read(bytes.subrange(0, 1)) is Some {
            Some(SetDisplayLevelRequest {
                display_level: <u8 as FixedWire>::spec_read(bytes.subrange(0, 1)).unwrap(),
            })
        } else {
            None
        }
    }

    open spec fn spec_wire_valid(&self) -> bool {
        self.display_level.spec_wire_valid()
    }

    fn wire_size() -> (n: usize) {
        1
    }

    fn write_wire(&self, out: &mut Vec<u8>) {
        let ghost start = out@;
        self.display_level.write_wire(out);
        proof {
            assert(out@ =~= start + self.spec_wire());
        }
    }

    fn read_wire(buf: &'a [u8], pos: usize) -> (r: Option<Self>) {
        let _len = buf.len();
        let ghost bytes = buf@.subrange(pos as int, pos + 1);
        proof {
            assert(bytes.subrange(0, 1) =~= buf@.subrange(pos + 0, pos + 1));
        }
        let v0 = match <u8 as FixedWire>::read_wire(buf, pos) {
            Some(v) => v,
            None => return None,
        };
        Some(SetDisplayLevelRequest { display_level: v0 })
    }

    proof fn lemma_wire(&self) {
        self.display_level.lemma_wire();
        let w = self.spec_wire();
        assert(w.subrange(0, 1) =~= self.display_level.spec_wire());
        if self.spec_wire_valid() {
            assert(<u8 as FixedWire>::spec_read(w.subrange(0, 1)) == Some(self.display_level));
        }
    }
}

impl SetDisplayLevelRequest {
    /// The parameter data of the value.
    pub open spec fn spec_encoding(&self) -> Seq<u8> {
        self.spec_wire()
    }

    /// The value that parameter data stands for, or why it stands for none.
    pub open spec fn spec_decoded(buf: Seq<u8>) -> Result<Self, ParameterDataError> {
        record_decoded::<Self>(buf)
    }

    /// Whether decoding the parameter data gives the value back.
    pub open spec fn spec_encodable(&self) -> bool {
        self.spec_wire_valid()
    }

    pub fn size_of(&self) -> (n: usize)
        ensures
            n == self.spec_encoding().len(),
            n <= 1,
    {
        proof {
            self.lemma_wire();
        }
        Self::wire_size()
    }

    /// Appends the parameter data to `out`.
    pub fn write_encoding(&self, out: &mut Vec<u8>)
        ensures
            final(out)@ == old(out)@ + self.spec_encoding(),
    {
        self.write_wire(out);
    }

    pub fn encode_parameter_data(&self, buf: &mut [u8]) -> (r: Result<usize, ParameterDataError>)
        ensures
            encoded_into(old(buf)@, final(buf)@, self.spec_encoding(), r),
    {
        encode_record(self, buf)
    }

    pub fn decode_parameter_data(buf: &[u8]) -> (r: Result<Self, ParameterDataError>)
        ensures
            r == Self::spec_decoded(buf@),
    {
        decode_record(buf)
    }

    /// Decoding the parameter data of an encodable value gives it back.
    pub proof fn lemma_roundtrip(&self)
        requires
            self.spec_encodable(),
        ensures
            Self::spec_decoded(self.spec_encoding()) == Ok::<Self, ParameterDataError>(*self),
    {
        lemma_record_roundtrip(*self);
    }
}

#[derive(Clone, Copy, Debug, PartialEq, Eq, Structural)]
pub struct SetPanInvertRequest {
    pub pan_invert: bool,
}

impl<'a> FixedWire<'a> for SetPanInvertRequest {
    open spec fn spec_size() -> nat {
        1
    }

    open spec fn spec_wire(&self) -> Seq<u8> {
        self.pan_invert.spec_wire()
    }

    open spec fn spec_read(bytes: Seq<u8>) -> Option<Self> {
        if <bool as FixedWire>::spec_read(bytes.subrange(0, 1)) is Some {
            Some(SetPanInvertRequest {
                pan_invert: <bool as FixedWire>::spec_read(bytes.subrange(0, 1)).unwrap(),
            })
        } else {
            None
        }
    }

    open spec fn spec_wire_valid(&self) -> bool {
        self.pan_invert.spec_wire_valid()
    }

    fn wire_size() -> (n: usize) {
        1
    }

    fn write_wire(&self, out: &mut Vec<u8>) {
        let ghost start = out@;
        self.pan_invert.write_wire(out);
        proof {
            assert(out@ =~= start + self.spec_wire());
        }
    }

    fn read_wire(buf: &'a [u8], pos: usize) -> (r: Option<Self>) {
        let _len = buf.len();
        let ghost bytes = buf@.subrange(pos as int, pos + 1);
        proof {
            assert(bytes.subrange(0, 1) =~= buf@.subrange(pos + 0, pos + 1));
        }
        let v0 = match <bool as FixedWire>::read_wire(buf, pos) {
            Some(v) => v,
            None => return None,
        };
        Some(SetPanInvertRequest { pan_invert: v0 })
    }

    proof fn lemma_wire(&self) {
        self.pan_invert.lemma_wire();
        let w = self.spec_wire();
        assert(w.subrange(0, 1) =~= self.pan_invert.spec_wire());
        if self.spec_wire_valid() {
            assert(<bool as FixedWire>::spec_read(w.subrange(0, 1)) == Some(self.pan_invert));
        }
    }
}

impl SetPanInvertRequest {
    /// The parameter data of the value.
    pub open spec fn spec_encoding(&self) -> Seq<u8> {
        self.spec_wire()
    }

    /// The value that parameter data stands for, or why it stands for none.
    pub open spec fn spec_decoded(buf: Seq<u8>) -> Result<Self, ParameterDataError> {
        record_decoded::<Self>(buf)
    }

    /// Whether decoding the parameter data gives the value back.
    pub open spec fn spec_encodable(&self) -> bool {
        self.spec_wire_valid()
    }

    pub fn size_of(&self) -> (n: usize)
        ensures
            n == self.spec_encoding().len(),
            n <= 1,
    {
        proof {
            self.lemma_wire();
        }
        Self::wire_size()
    }

    /// Appends the parameter data to `out`.
    pub fn write_encoding(&self, out: &mut Vec<u8>)
        ensures
            final(out)@ == old(out)@ + self.spec_encoding(),
    {
        self.write_wire(out);
    }

    pub fn encode_parameter_data(&self, buf: &mut [u8]) -> (r: Result<usize, ParameterDataError>)
        ensures
            encoded_into(old(buf)@, final(buf)@, self.spec_encoding(), r),
    {
        encode_record(self, buf)
    }

    pub fn decode_parameter_data(buf: &[u8]) -> (r: Result<Self, ParameterDataError>)
        ensures
            r == Self::spec_decoded(buf@),
    {
        decode_record(buf)
    }

    /// Decoding the parameter data of an encodable value gives it back.
    pub proof fn lemma_roundtrip(&self)
        requires
            self.spec_encodable(),
        ensures
            Self::spec_decoded(self.spec_encoding()) == Ok::<Self, ParameterDataError>(*self),
    {
        lemma_record_roundtrip(*self);
    }
}

#[derive(Clone, Copy, Debug, PartialEq, Eq, Structural)]
pub struct SetTiltInvertRequest {
    pub tilt_invert: bool,
}

impl<'a> FixedWire<'a> for SetTiltInvertRequest {
    open spec fn spec_size() -> nat {
        1
    }

    open spec fn spec_wire(&self) -> Seq<u8> {
        self.tilt_invert.spec_wire()
    }

    open spec fn spec_read(bytes: Seq<u8>) -> Option<Self> {
        if <bool as FixedWire>::spec_read(bytes.subrange(0, 1)) is Some {
            Some(SetTiltInvertRequest {
                tilt_invert: <bool as FixedWire>::spec_read(bytes.subrange(0, 1)).unwrap(),
            })
        } else {
            None
        }
    }

    open spec fn spec_wire_valid(&self) -> bool {
        self.tilt_invert.spec_wire_valid()
    }

    fn wire_size() -> (n: usize) {
        1
    }

    fn write_wire(&self, out: &mut Vec<u8>) {
        let ghost start = out@;
        self.tilt_invert.write_wire(out);
        proof {
            assert(out@ =~= start + self.spec_wire());
        }
    }

    fn read_wire(buf: &'a [u8], pos: usize) -> (r: Option<Self>) {
        let _len = buf.len();
        let ghost bytes = buf@.subrange(pos as int, pos + 1);
        proof {
            assert(bytes.subrange(0, 1) =~= buf@.subrange(pos + 0, pos + 1));
        }
        let v0 = match <bool as FixedWire>::read_wire(buf, pos) {
            Some(v) => v,
            None => return None,
        };
        Some(SetTiltInvertRequest { tilt_invert: v0 })
    }

    proof fn lemma_wire(&self) {
        self.tilt_invert.lemma_wire();
        let w = self.spec_wire();
        assert(w.subrange(0, 1) =~= self.tilt_invert.spec_wire());
        if self.spec_wire_valid() {
            assert(<bool as FixedWire>::spec_read(w.subrange(0, 1)) == Some(self.tilt_invert));
        }
    }
}

impl SetTiltInvertRequest {
    /// The parameter data of the value.
    pub open spec fn spec_encoding(&self) -> Seq<u8> {
        self.spec_wire()
    }

    /// The value that parameter data stands for, or why it stands for none.
    pub open spec fn spec_decoded(buf: Seq<u8>) -> Result<Self, ParameterDataError> {
        record_decoded::<Self>(buf)
    }

    /// Whether decoding the parameter data gives the value back.
    pub open spec fn spec_encodable(&self) -> bool {
        self.spec_wire_valid()
    }

    pub fn size_of(&self) -> (n: usize)
        ensures
            n == self.spec_encoding().len(),
            n <= 1,
    {
        proof {
            self.lemma_wire();
        }
        Self::wire_size()
    }

    /// Appends the parameter data to `out`.
    pub fn write_encoding(&self, out: &mut Vec<u8>)
        ensures
            final(out)@ == old(out)@ + self.spec_encoding(),
    {
        self.write_wire(out);
    }

    pub fn encode_parameter_data(&self, buf: &mut [u8]) -> (r: Result<usize, ParameterDataError>)
        ensures
            encoded_into(old(buf)@, final(buf)@, self.spec_encoding(), r),
    {
        encode_record(self, buf)
    }

    pub fn decode_parameter_data(buf: &[u8]) -> (r: Result<Self, ParameterDataError>)
        ensures
            r == Self::spec_decoded(buf@),
    {
        decode_record(buf)
    }

    /// Decoding the parameter data of an encodable value gives it back.
    pub proof fn lemma_roundtrip(&self)
        requires
            self.spec_encodable(),
        ensures
            Self::spec_decoded(self.spec_encoding()) == Ok::<Self, ParameterDataError>(*self),
    {
        lemma_record_roundtrip(*self);
    }
}

#[derive(Clone, Copy, Debug, PartialEq, Eq, Structural)]
pub struct SetPanTiltSwapRequest {
    pub pan_tilt_swap: bool,
}

impl<'a> FixedWire<'a> for SetPanTiltSwapRequest {
    open spec fn spec_size() -> nat {
        1
    }

    open spec fn spec_wire(&self) -> Seq<u8> {
        self.pan_tilt_swap.spec_wire()
    }

    open spec fn spec_read(bytes: Seq<u8>) -> Option<Self> {
        if <bool as FixedWire>::spec_read(bytes.subrange(0, 1)) is Some {
            Some(SetPanTiltSwapRequest {
                pan_tilt_swap: <bool as FixedWire>::spec_read(bytes.subrange(0, 1)).unwrap(),
            })
        } else {
            None
        }
    }

    open spec fn spec_wire_valid(&self) -> bool {
        self.pan_tilt_swap.spec_wire_valid()
    }

    fn wire_size() -> (n: usize) {
        1
    }

    fn write_wire(&self, out: &mut Vec<u8>) {
        let ghost start = out@;
        self.pan_tilt_swap.write_wire(out);
        proof {
            assert(out@ =~= start + self.spec_wire());
        }
    }

    fn read_wire(buf: &'a [u8], pos: usize) -> (r: Option<Self>) {
        let _len = buf.len();
        let ghost bytes = buf@.subrange(pos as int, pos + 1);
        proof {
            assert(bytes.subrange(0, 1) =~= buf@.subrange(pos + 0, pos + 1));
        }
        let v0 = match <bool as FixedWire>::read_wire(buf, pos) {
            Some(v) => v,
            None => return None,
        };
        Some(SetPanTiltSwapRequest { pan_tilt_swap: v0 })
    }

    proof fn lemma_wire(&self) {
        self.pan_tilt_swap.lemma_wire();
        let w = self.spec_wire();
        assert(w.subrange(0, 1) =~= self.pan_tilt_swap.spec_wire());
        if self.spec_wire_valid() {
            assert(<bool as FixedWire>::spec_read(w.subrange(0, 1)) == Some(self.pan_tilt_swap));
        }
    }
}

impl SetPanTiltSwapRequest {
    /// The parameter data of the value.
    pub open spec fn spec_encoding(&self) -> Seq<u8> {
        self.spec_wire()
    }

    /// The value that parameter data stands for, or why it stands for none.
    pub open spec fn spec_decoded(buf: Seq<u8>) -> Result<Self, ParameterDataError> {
        record_decoded::<Self>(buf)
    }

    /// Whether decoding the parameter data gives the value back.
    pub open spec fn spec_encodable(&self) -> bool {
        self.spec_wire_valid()
    }

    pub fn size_of(&self) -> (n: usize)
        ensures
            n == self.spec_encoding().len(),
            n <= 1,
    {
        proof {
            self.lemma_wire();
        }
        Self::wire_size()
    }

    /// Appends the parameter data to `out`.
    pub fn write_encoding(&self, out: &mut Vec<u8>)
        ensures
            final(out)@ == old(out)@ + self.spec_encoding(),
    {
        self.write_wire(out);
    }

    pub fn encode_parameter_data(&self, buf: &mut [u8]) -> (r: Result<usize, ParameterDataError>)
        ensures
            encoded_into(old(buf)@, final(buf)@, self.spec_encoding(), r),
    {
        encode_record(self, buf)
    }

    pub fn decode_parameter_data(buf: &[u8]) -> (r: Result<Self, ParameterDataError>)
        ensures
            r == Self::spec_decoded(buf@),
    {
        decode_record(buf)
    }

    /// Decoding the parameter data of an encodable value gives it back.
    pub proof fn lemma_roundtrip(&self)
        requires
            self.spec_encodable(),
        ensures
            Self::spec_decoded(self.spec_encoding()) == Ok::<Self, ParameterDataError>(*self),
    {
        lemma_record_roundtrip(*self);
    }
}

#[derive(Clone, Copy, Debug, PartialEq, Eq, Structural)]
pub struct SetRealTimeClockRequest {
    pub year: u16,
    pub month: u8,
    pub day: u8,
    pub hour: u8,
    pub minute: u8,
    pub second: u8,
}

impl<'a> FixedWire<'a> for SetRealTimeClockRequest {
    open spec fn spec_size() -> nat {
        7
    }

    open spec fn spec_wire(&self) -> Seq<u8> {
        self.year.spec_wire() + self.month.spec_wire() + self.day.spec_wire() + self.hour.spec_wire() + self.minute.spec_wire() + self.second.spec_wire()
    }

    open spec fn spec_read(bytes: Seq<u8>) -> Option<Self> {
        if <u16 as FixedWire>::spec_read(bytes.subrange(0, 2)) is Some
            && <u8 as FixedWire>::spec_read(bytes.subrange(2, 3)) is Some
            && <u8 as FixedWire>::spec_read(bytes.subrange(3, 4)) is Some
            && <u8 as FixedWire>::spec_read(bytes.subrange(4, 5)) is Some
            && <u8 as FixedWire>::spec_read(bytes.subrange(5, 6)) is Some
            && <u8 as FixedWire>::spec_read(bytes.subrange(6, 7)) is Some {
            Some(SetRealTimeClockRequest {
                year: <u16 as FixedWire>::spec_read(bytes.subrange(0, 2)).unwrap(),
                month: <u8 as FixedWire>::spec_read(bytes.subrange(2, 3)).unwrap(),
                day: <u8 as FixedWire>::spec_read(bytes.subrange(3, 4)).unwrap(),
                hour: <u8 as FixedWire>::spec_read(bytes.subrange(4, 5)).unwrap(),
                minute: <u8 as FixedWire>::spec_read(bytes.subrange(5, 6)).unwrap(),
                second: <u8 as FixedWire>::spec_read(bytes.subrange(6, 7)).unwrap(),
            })
        } else {
            None
        }
    }

    open spec fn spec_wire_valid(&self) -> bool {
        self.year.spec_wire_valid() && self.month.spec_wire_valid() && self.day.spec_wire_valid() && self.hour.spec_wire_valid() && self.minute.spec_wire_valid() && self.second.spec_wire_valid()
    }

    fn wire_size() -> (n: usize) {
        7
    }

    fn write_wire(&self, out: &mut Vec<u8>) {
        let ghost start = out@;
        self.year.write_wire(out);
        self.month.write_wire(out);
        self.day.write_wire(out);
        self.hour.write_wire(out);
        self.minute.write_wire(out);
        self.second.write_wire(out);
        proof {
            assert(out@ =~= start + self.spec_wire());
        }
    }

    fn read_wire(buf: &'a [u8], pos: usize) -> (r: Option<Self>) {
        let _len = buf.len();
        let ghost bytes = buf@.subrange(pos as int, pos + 7);
        proof {
            assert(bytes.subrange(0, 2) =~= buf@.subrange(pos + 0, pos + 2));
            assert(bytes.subrange(2, 3) =~= buf@.subrange(pos + 2, pos + 3));
            assert(bytes.subrange(3, 4) =~= buf@.subrange(pos + 3, pos + 4));
            assert(bytes.subrange(4, 5) =~= buf@.subrange(pos + 4, pos + 5));
            assert(bytes.subrange(5, 6) =~= buf@.subrange(pos + 5, pos + 6));
            assert(bytes.subrange(6, 7) =~= buf@.subrange(pos + 6, pos + 7));
        }
        let v0 = match <u16 as FixedWire>::read_wire(buf, pos) {
            Some(v) => v,
            None => return None,
        };
        let v1 = match <u8 as FixedWire>::read_wire(buf, pos + 2) {
            Some(v) => v,
            None => return None,
        };
        let v2 = match <u8 as FixedWire>::read_wire(buf, pos + 3) {
            Some(v) => v,
            None => return None,
        };
        let v3 = match <u8 as FixedWire>::read_wire(buf, pos + 4) {
            Some(v) => v,
            None => return None,
        };
        let v4 = match <u8 as FixedWire>::read_wire(buf, pos + 5) {
            Some(v) => v,
            None => return None,
        };
        let v5 = match <u8 as FixedWire>::read_wire(buf, pos + 6) {
            Some(v) => v,
            None => return None,
        };
        Some(SetRealTimeClockRequest { year: v0, month: v1, day: v2, hour: v3, minute: v4, second: v5 })
    }

    proof fn lemma_wire(&self) {
        self.year.lemma_wire();
        self.month.lemma_wire();
        self.day.lemma_wire();
        self.hour.lemma_wire();
        self.minute.lemma_wire();
        self.second.lemma_wire();
        let w = self.spec_wire();
        assert(w.subrange(0, 2) =~= self.year.spec_wire());
        assert(w.subrange(2, 3) =~= self.month.spec_wire());
        assert(w.subrange(3, 4) =~= self.day.spec_wire());
        assert(w.subrange(4, 5) =~= self.hour.spec_wire());
        assert(w.subrange(5, 6) =~= self.minute.spec_wire());
        assert(w.subrange(6, 7) =~= self.second.spec_wire());
        if self.spec_wire_valid() {
            assert(<u16 as FixedWire>::spec_read(w.subrange(0, 2)) == Some(self.year));
            assert(<u8 as FixedWire>::spec_read(w.subrange(2, 3)) == Some(self.month));
            assert(<u8 as FixedWire>::spec_read(w.subrange(3, 4)) == Some(self.day));
            assert(<u8 as FixedWire>::spec_read(w.subrange(4, 5)) == Some(self.hour));
            assert(<u8 as FixedWire>::spec_read(w.subrange(5, 6)) == Some(self.minute));
            assert(<u8 as FixedWire>::spec_read(w.subrange(6, 7)) == Some(self.second));
        }
    }
}

impl SetRealTimeClockRequest {
    /// The parameter data of the value.
    pub open spec fn spec_encoding(&self) -> Seq<u8> {
        self.spec_wire()
    }

    /// The value that parameter data stands for, or why it stands for none.
    pub open spec fn spec_decoded(buf: Seq<u8>) -> Result<Self, ParameterDataError> {
        record_decoded::<Self>(buf)
    }

    /// Whether decoding the parameter data gives the value back.
    pub open spec fn spec_encodable(&self) -> bool {
        self.spec_wire_valid()
    }

    pub fn size_of(&self) -> (n: usize)
        ensures
            n == self.spec_encoding().len(),
            n <= 7,
    {
        proof {
            self.lemma_wire();
        }
        Self::wire_size()
    }

    /// Appends the parameter data to `out`.
    pub fn write_encoding(&self, out: &mut Vec<u8>)
        ensures
            final(out)@ == old(out)@ + self.spec_encoding(),
    {
        self.write_wire(out);
    }

    pub fn encode_parameter_data(&self, buf: &mut [u8]) -> (r: Result<usize, ParameterDataError>)
        ensures
            encoded_into(old(buf)@, final(buf)@, self.spec_encoding(), r),
    {
        encode_record(self, buf)
    }

    pub fn decode_parameter_data(buf: &[u8]) -> (r: Result<Self, ParameterDataError>)
        ensures
            r == Self::spec_decoded(buf@),
    {
        decode_record(buf)
    }

    /// Decoding the parameter data of an encodable value gives it back.
    pub proof fn lemma_roundtrip(&self)
        requires
            self.spec_encodable(),
        ensures
            Self::spec_decoded(self.spec_encoding()) == Ok::<Self, ParameterDataError>(*self),
    {
        lemma_record_roundtrip(*self);
    }
}

#[derive(Clone, Copy, Debug, PartialEq, Eq, Structural)]
pub struct SetIdentifyDeviceRequest {
    pub identify: bool,
}

impl<'a> FixedWire<'a> for SetIdentifyDeviceRequest {
    open spec fn spec_size() -> nat {
        1
    }

    open spec fn spec_wire(&self) -> Seq<u8> {
        self.identify.spec_wire()
    }

    open spec fn spec_read(bytes: Seq<u8>) -> Option<Self> {
        if <bool as FixedWire>::spec_read(bytes.subrange(0, 1)) is Some {
            Some(SetIdentifyDeviceRequest {
                identify: <bool as FixedWire>::spec_read(bytes.subrange(0, 1)).unwrap(),
            })
        } else {
            None
        }
    }

    open spec fn spec_wire_valid(&self) -> bool {
        self.identify.spec_wire_valid()
    }

    fn wire_size() -> (n: usize) {
        1
    }

    fn write_wire(&self, out: &mut Vec<u8>) {
        let ghost start = out@;
        self.identify.write_wire(out);
        proof {
            assert(out@ =~= start + self.spec_wire());
        }
    }

    fn read_wire(buf: &'a [u8], pos: usize) -> (r: Option<Self>) {
        let _len = buf.len();
        let ghost bytes = buf@.subrange(pos as int, pos + 1);
        proof {
            assert(bytes.subrange(0, 1) =~= buf@.subrange(pos + 0, pos + 1));
        }
        let v0 = match <bool as FixedWire>::read_wire(buf, pos) {
            Some(v) => v,
            None => return None,
        };
        Some(SetIdentifyDeviceRequest { identify: v0 })
    }

    proof fn lemma_wire(&self) {
        self.identify.lemma_wire();
        let w = self.spec_wire();
        assert(w.subrange(0, 1) =~= self.identify.spec_wire());
        if self.spec_wire_valid() {
            assert(<bool as FixedWire>::spec_read(w.subrange(0, 1)) == Some(self.identify));
        }
    }
}

impl SetIdentifyDeviceRequest {
    /// The parameter data of the value.
    pub open spec fn spec_encoding(&self) -> Seq<u8> {
        self.spec_wire()
    }

    /// The value that parameter data stands for, or why it stands for none.
    pub open spec fn spec_decoded(buf: Seq<u8>) -> Result<Self, ParameterDataError> {
        record_decoded::<Self>(buf)
    }

    /// Whether decoding the parameter data gives the value back.
    pub open spec fn spec_encodable(&self) -> bool {
        self.spec_wire_valid()
    }

    pub fn size_of(&self) -> (n: usize)
        ensures
            n == self.spec_encoding().len(),
            n <= 1,
    {
        proof {
            self.lemma_wire();
        }
        Self::wire_size()
    }

    /// Appends the parameter data to `out`.
    pub fn write_encoding(&self, out: &mut Vec<u8>)
        ensures
            final(out)@ == old(out)@ + self.spec_encoding(),
    {
        self.write_wire(out);
    }

    pub fn encode_parameter_data(&self, buf: &mut [u8]) -> (r: Result<usize, ParameterDataError>)
        ensures
            encoded_into(old(buf)@, final(buf)@, self.spec_encoding(), r),
    {
        encode_record(self, buf)
    }

    pub fn decode_parameter_data(buf: &[u8]) -> (r: Result<Self, ParameterDataError>)
        ensures
            r == Self::spec_decoded(buf@),
    {
        decode_record(buf)
    }

    /// Decoding the parameter data of an encodable value gives it back.
    pub proof fn lemma_roundtrip(&self)
        requires
            self.spec_encodable(),
        ensures
            Self::spec_decoded(self.spec_encoding()) == Ok::<Self, ParameterDataError>(*self),
    {
        lemma_record_roundtrip(*self);
    }
}

#[derive(Clone, Copy, Debug, PartialEq, Eq, Structural)]
pub struct SetResetDeviceRequest {
    pub reset_device: ResetDeviceMode,
}

impl<'a> FixedWire<'a> for SetResetDeviceRequest {
    open spec fn spec_size() -> nat {
        1
    }

    open spec fn spec_wire(&self) -> Seq<u8> {
        self.reset_device.spec_wire()
    }

    open spec fn spec_read(bytes: Seq<u8>) -> Option<Self> {
        if <ResetDeviceMode as FixedWire>::spec_read(bytes.subrange(0, 1)) is Some {
            Some(SetResetDeviceRequest {
                reset_device: <ResetDeviceMode as FixedWire>::spec_read(bytes.subrange(0, 1)).unwrap(),
            })
        } else {
            None
        }
    }

    open spec fn spec_wire_valid(&self) -> bool {
        self.reset_device.spec_wire_valid()
    }

    fn wire_size() -> (n: usize) {
        1
    }

    fn write_wire(&self, out: &mut Vec<u8>) {
        let ghost start = out@;
        self.reset_device.write_wire(out);
        proof {
            assert(out@ =~= start + self.spec_wire());
        }
    }

    fn read_wire(buf: &'a [u8], pos: usize) -> (r: Option<Self>) {
        let _len = buf.len();
        let ghost bytes = buf@.subrange(pos as int, pos + 1);
        proof {
            assert(bytes.subrange(0, 1) =~= buf@.subrange(pos + 0, pos + 1));
        }
        let v0 = match <ResetDeviceMode as FixedWire>::read_wire(buf, pos) {
            Some(v) => v,
            None => return None,
        };
        Some(SetResetDeviceRequest { reset_device: v0 })
    }

    proof fn lemma_wire(&self) {
        self.reset_device.lemma_wire();
        let w = self.spec_wire();
        assert(w.subrange(0, 1) =~= self.reset_device.spec_wire());
        if self.spec_wire_valid() {
            assert(<ResetDeviceMode as FixedWire>::spec_read(w.subrange(0, 1)) == Some(self.reset_device));
        }
    }
}

impl SetResetDeviceRequest {
    /// The parameter data of the value.
    pub open spec fn spec_encoding(&self) -> Seq<u8> {
        self.spec_wire()
    }

    /// The value that parameter data stands for, or why it stands for none.
    pub open spec fn spec_decoded(buf: Seq<u8>) -> Result<Self, ParameterDataError> {
        record_decoded::<Self>(buf)
    }

    /// Whether decoding the parameter data gives the value back.
    pub open spec fn spec_encodable(&self) -> bool {
        self.spec_wire_valid()
    }

    pub fn size_of(&self) -> (n: usize)
        ensures
            n == self.spec_encoding().len(),
            n <= 1,
    {
        proof {
            self.lemma_wire();
        }
        Self::wire_size()
    }

    /// Appends the parameter data to `out`.
    pub fn write_encoding(&self, out: &mut Vec<u8>)
        ensures
            final(out)@ == old(out)@ + self.spec_encoding(),
    {
        self.write_wire(out);
    }

    pub fn encode_parameter_data(&self, buf: &mut [u8]) -> (r: Result<usize, ParameterDataError>)
        ensures
            encoded_into(old(buf)@, final(buf)@, self.spec_encoding(), r),
    {
        encode_record(self, buf)
    }

    pub fn decode_parameter_data(buf: &[u8]) -> (r: Result<Self, ParameterDataError>)
        ensures
            r == Self::spec_decoded(buf@),
    {
        decode_record(buf)
    }

    /// Decoding the parameter data of an encodable value gives it back.
    pub proof fn lemma_roundtrip(&self)
        requires
            self.spec_encodable(),
        ensures
            Self::spec_decoded(self.spec_encoding()) == Ok::<Self, ParameterDataError>(*self),
    {
        lemma_record_roundtrip(*self);
    }
}

#[derive(Clone, Copy, Debug, PartialEq, Eq, Structural)]
pub struct SetPowerStateRequest {
    pub power_state: PowerState,
}

impl<'a> FixedWire<'a> for SetPowerStateRequest {
    open spec fn spec_size() -> nat {
        1
    }

    open spec fn spec_wire(&self) -> Seq<u8> {
        self.power_state.spec_wire()
    }

    open spec fn spec_read(bytes: Seq<u8>) -> Option<Self> {
        if <PowerState as FixedWire>::spec_read(bytes.subrange(0, 1)) is Some {
            Some(SetPowerStateRequest {
                power_state: <PowerState as FixedWire>::spec_read(bytes.subrange(0, 1)).unwrap(),
            })
        } else {
            None
        }
    }

    open spec fn spec_wire_valid(&self) -> bool {
        self.power_state.spec_wire_valid()
    }

    fn wire_size() -> (n: usize) {
        1
    }

    fn write_wire(&self, out: &mut Vec<u8>) {
        let ghost start = out@;
        self.power_state.write_wire(out);
        proof {
            assert(out@ =~= start + self.spec_wire());
        }
    }

    fn read_wire(buf: &'a [u8], pos: usize) -> (r: Option<Self>) {
        let _len = buf.len();
        let ghost bytes = buf@.subrange(pos as int, pos + 1);
        proof {
            assert(bytes.subrange(0, 1) =~= buf@.subrange(pos + 0, pos + 1));
        }
        let v0 = match <PowerState as FixedWire>::read_wire(buf, pos) {
            Some(v) => v,
            None => return None,
        };
        Some(SetPowerStateRequest { power_state: v0 })
    }

    proof fn lemma_wire(&self) {
        self.power_state.lemma_wire();
        let w = self.spec_wire();
        assert(w.subrange(0, 1) =~= self.power_state.spec_wire());
        if self.spec_wire_valid() {
            assert(<PowerState as FixedWire>::spec_read(w.subrange(0, 1)) == Some(self.power_state));
        }
    }
}

impl SetPowerStateRequest {
    /// The parameter data of the value.
    pub open spec fn spec_encoding(&self) -> Seq<u8> {
        self.spec_wire()
    }

    /// The value that parameter data stands for, or why it stands for none.
    pub open spec fn spec_decoded(buf: Seq<u8>) -> Result<Self, ParameterDataError> {
        record_decoded::<Self>(buf)
    }

    /// Whether decoding the parameter data gives the value back.
    pub open spec fn spec_encodable(&self) -> bool {
        self.spec_wire_valid()
    }

    pub fn size_of(&self) -> (n: usize)
        ensures
            n == self.spec_encoding().len(),
            n <= 1,
    {
        proof {
            self.lemma_wire();
        }
        Self::wire_size()
    }

    /// Appends the parameter data to `out`.
    pub fn write_encoding(&self, out: &mut Vec<u8>)
        ensures
            final(out)@ == old(out)@ + self.spec_encoding(),
    {
        self.write_wire(out);
    }

    pub fn encode_parameter_data(&self, buf: &mut [u8]) -> (r: Result<usize, ParameterDataError>)
        ensures
            encoded_into(old(buf)@, final(buf)@, self.spec_encoding(), r),
    {
        encode_record(self, buf)
    }

    pub fn decode_parameter_data(buf: &[u8]) -> (r: Result<Self, ParameterDataError>)
        ensures
            r == Self::spec_decoded(buf@),
    {
        decode_record(buf)
    }

    /// Decoding the parameter data of an encodable value gives it back.
    pub proof fn lemma_roundtrip(&self)
        requires
            self.spec_encodable(),
        ensures
            Self::spec_decoded(self.spec_encoding()) == Ok::<Self, ParameterDataError>(*self),
    {
        lemma_record_roundtrip(*self);
    }
}

#[derive(Clone, Copy, Debug, PartialEq, Eq, Structural)]
pub struct SetPerformSelfTestRequest {
    pub self_test_id: SelfTest,
}

impl<'a> FixedWire<'a> for SetPerformSelfTestRequest {
    open spec fn spec_size() -> nat {
        1
    }

    open spec fn spec_wire(&self) -> Seq<u8> {
        self.self_test_id.spec_wire()
    }

    open spec fn spec_read(bytes: Seq<u8>) -> Option<Self> {
        if <SelfTest as FixedWire>::spec_read(bytes.subrange(0, 1)) is Some {
            Some(SetPerformSelfTestRequest {
                self_test_id: <SelfTest as FixedWire>::spec_read(bytes.subrange(0, 1)).unwrap(),
            })
        } else {
            None
        }
    }

    open spec fn spec_wire_valid(&self) -> bool {
        self.self_test_id.spec_wire_valid()
    }

    fn wire_size() -> (n: usize) {
        1
    }

    fn write_wire(&self, out: &mut Vec<u8>) {
        let ghost start = out@;
        self.self_test_id.write_wire(out);
        proof {
            assert(out@ =~= start + self.spec_wire());
        }
    }

    fn read_wire(buf: &'a [u8], pos: usize) -> (r: Option<Self>) {
        let _len = buf.len();
        let ghost bytes = buf@.subrange(pos as int, pos + 1);
        proof {
            assert(bytes.subrange(0, 1) =~= buf@.subrange(pos + 0, pos + 1));
        }
        let v0 = match <SelfTest as FixedWire>::read_wire(buf, pos) {
            Some(v) => v,
            None => return None,
        };
        Some(SetPerformSelfTestRequest { self_test_id: v0 })
    }

    proof fn lemma_wire(&self) {
        self.self_test_id.lemma_wire();
        let w = self.spec_wire();
        assert(w.subrange(0, 1) =~= self.self_test_id.spec_wire());
        if self.spec_wire_valid() {
            assert(<SelfTest as FixedWire>::spec_read(w.subrange(0, 1)) == Some(self.self_test_id));
        }
    }
}

impl SetPerformSelfTestRequest {
    /// The parameter data of the value.
    pub open spec fn spec_encoding(&self) -> Seq<u8> {
        self.spec_wire()
    }

    /// The value that parameter data stands for, or why it stands for none.
    pub open spec fn spec_decoded(buf: Seq<u8>) -> Result<Self, ParameterDataError> {
        record_decoded::<Self>(buf)
    }

    /// Whether decoding the parameter data gives the value back.
    pub open spec fn spec_encodable(&self) -> bool {
        self.spec_wire_valid()
    }

    pub fn size_of(&self) -> (n: usize)
        ensures
            n == self.spec_encoding().len(),
            n <= 1,
    {
        proof {
            self.lemma_wire();
        }
        Self::wire_size()
    }

    /// Appends the parameter data to `out`.
    pub fn write_encoding(&self, out: &mut Vec<u8>)
        ensures
            final(out)@ == old(out)@ + self.spec_encoding(),
    {
        self.write_wire(out);
    }

    pub fn encode_parameter_data(&self, buf: &mut [u8]) -> (r: Result<usize, ParameterDataError>)
        ensures
            encoded_into(old(buf)@, final(buf)@, self.spec_encoding(), r),
    {
        encode_record(self, buf)
    }

    pub fn decode_parameter_data(buf: &[u8]) -> (r: Result<Self, ParameterDataError>)
        ensures
            r == Self::spec_decoded(buf@),
    {
        decode_record(buf)
    }

    /// Decoding the parameter data of an encodable value gives it back.
    pub proof fn lemma_roundtrip(&self)
        requires
            self.spec_encodable(),
        ensures
            Self::spec_decoded(self.spec_encoding()) == Ok::<Self, ParameterDataError>(*self),
    {
        lemma_record_roundtrip(*self);
    }
}

#[derive(Clone, Copy, Debug, PartialEq, Eq, Structural)]
pub struct GetSelfTestDescriptionRequest {
    pub self_test_id: SelfTest,
}

impl<'a> FixedWire<'a> for GetSelfTestDescriptionRequest {
    open spec fn spec_size() -> nat {
        1
    }

    open spec fn spec_wire(&self) -> Seq<u8> {
        self.self_test_id.spec_wire()
    }

    open spec fn spec_read(bytes: Seq<u8>) -> Option<Self> {
        if <SelfTest as FixedWire>::spec_read(bytes.subrange(0, 1)) is Some {
            Some(GetSelfTestDescriptionRequest {
                self_test_id: <SelfTest as FixedWire>::spec_read(bytes.subrange(0, 1)).unwrap(),
            })
        } else {
            None
        }
    }

    open spec fn spec_wire_valid(&self) -> bool {
        self.self_test_id.spec_wire_valid()
    }

    fn wire_size() -> (n: usize) {
        1
    }

    fn write_wire(&self, out: &mut Vec<u8>) {
        let ghost start = out@;
        self.self_test_id.write_wire(out);
        proof {
            assert(out@ =~= start + self.spec_wire());
        }
    }

    fn read_wire(buf: &'a [u8], pos: usize) -> (r: Option<Self>) {
        let _len = buf.len();
        let ghost bytes = buf@.subrange(pos as int, pos + 1);
        proof {
            assert(bytes.subrange(0, 1) =~= buf@.subrange(pos + 0, pos + 1));
        }
        let v0 = match <SelfTest as FixedWire>::read_wire(buf, pos) {
            Some(v) => v,
            None => return None,
        };
        Some(GetSelfTestDescriptionRequest { self_test_id: v0 })
    }

    proof fn lemma_wire(&self) {
        self.self_test_id.lemma_wire();
        let w = self.spec_wire();
        assert(w.subrange(0, 1) =~= self.self_test_id.spec_wire());
        if self.spec_wire_valid() {
            assert(<SelfTest as FixedWire>::spec_read(w.subrange(0, 1)) == Some(self.self_test_id));
        }
    }
}

impl GetSelfTestDescriptionRequest {
    /// The parameter data of the value.
    pub open spec fn spec_encoding(&self) -> Seq<u8> {
        self.spec_wire()
    }

    /// The value that parameter data stands for, or why it stands for none.
    pub open spec fn spec_decoded(buf: Seq<u8>) -> Result<Self, ParameterDataError> {
        record_decoded::<Self>(buf)
    }

    /// Whether decoding the parameter data gives the value back.
    pub open spec fn spec_encodable(&self) -> bool {
        self.spec_wire_valid()
    }

    pub fn size_of(&self) -> (n: usize)
        ensures
            n == self.spec_encoding().len(),
            n <= 1,
    {
        proof {
            self.lemma_wire();
        }
        Self::wire_size()
    }

    /// Appends the parameter data to `out`.
    pub fn write_encoding(&self, out: &mut Vec<u8>)
        ensures
            final(out)@ == old(out)@ + self.spec_encoding(),
    {
        self.write_wire(out);
    }

    pub fn encode_parameter_data(&self, buf: &mut [u8]) -> (r: Result<usize, ParameterDataError>)
        ensures
            encoded_into(old(buf)@, final(buf)@, self.spec_encoding(), r),
    {
        encode_record(self, buf)
    }

    pub fn decode_parameter_data(buf: &[u8]) -> (r: Result<Self, ParameterDataError>)
        ensures
            r == Self::spec_decoded(buf@),
    {
        decode_record(buf)
    }

    /// Decoding the parameter data of an encodable value gives it back.
    pub proof fn lemma_roundtrip(&self)
        requires
            self.spec_encodable(),
        ensures
            Self::spec_decoded(self.spec_encoding()) == Ok::<Self, ParameterDataError>(*self),
    {
        lemma_record_roundtrip(*self);
    }
}

#[derive(Clone, Copy, Debug, PartialEq)]
pub struct SetCapturePresetRequest {
    pub scene_id: u16,
    pub fade_times: Option<FadeTimes>,
}

impl SetCapturePresetRequest {
    /// The parameter data of the value.
    pub open spec fn spec_encoding(&self) -> Seq<u8> {
        self.scene_id.spec_wire() + spec_option_wire(self.fade_times)
    }

    /// The value that parameter data stands for, or why it stands for none.
    pub open spec fn spec_decoded(buf: Seq<u8>) -> Result<Self, ParameterDataError> {
        if buf.len() < 2 {
            Err(too_short(buf.len(), 2))
        } else if !(<u16 as FixedWire>::spec_read(buf.subrange(0, 2)) is Some) {
            Err(ParameterDataError::MalformedData)
        } else {
            let rest = buf.subrange(2, buf.len() as int);
            match spec_option_decoded::<FadeTimes>(rest) {
                Ok(t) => Ok(SetCapturePresetRequest { scene_id: <u16 as FixedWire>::spec_read(buf.subrange(0, 2)).unwrap(), fade_times: t }),
                Err(e) => Err(e),
            }
        }
    }

    /// Whether decoding the parameter data gives the value back.
    pub open spec fn spec_encodable(&self) -> bool {
        self.scene_id.spec_wire_valid() && spec_option_valid(self.fade_times)
    }

    /// Appends the parameter data to `out`.
    pub fn write_encoding(&self, out: &mut Vec<u8>)
        ensures
            final(out)@ == old(out)@ + self.spec_encoding(),
    {
        let ghost start = out@;
        self.scene_id.write_wire(out);
        write_option(&self.fade_times, out);
        proof {
            assert(out@ =~= start + self.spec_encoding());
        }
    }

    pub fn size_of(&self) -> (n: usize)
        ensures
            n == self.spec_encoding().len(),
            n <= 8,
    {
        proof {
            self.scene_id.lemma_wire();
            match self.fade_times {
                Some(v) => v.lemma_wire(),
                None => {},
            }
        }
        let mut out: Vec<u8> = Vec::new();
        self.write_encoding(&mut out);
        proof {
            assert(out@ =~= self.spec_encoding());
        }
        out.len()
    }

    pub fn encode_parameter_data(&self, buf: &mut [u8]) -> (r: Result<usize, ParameterDataError>)
        ensures
            encoded_into(old(buf)@, final(buf)@, self.spec_encoding(), r),
    {
        let mut out: Vec<u8> = Vec::new();
        self.write_encoding(&mut out);
        proof {
            assert(out@ =~= self.spec_encoding());
        }
        copy_encoded(buf, out.as_slice())
    }

    pub fn decode_parameter_data(buf: &[u8]) -> (r: Result<Self, ParameterDataError>)
        ensures
            r == Self::spec_decoded(buf@),
    {
        if buf.len() < 2 {
            return Err(ParameterDataError::BufferTooSmall { provided: buf.len(), required: 2 });
        }
        let v0 = match <u16 as FixedWire>::read_wire(buf, 0) {
            Some(v) => v,
            None => return Err(ParameterDataError::MalformedData),
        };
        match read_option::<FadeTimes>(buf, 2) {
            Ok(t) => Ok(SetCapturePresetRequest { scene_id: v0, fade_times: t }),
            Err(e) => Err(e),
        }
    }

    /// Decoding the parameter data of an encodable value gives it back.
    pub proof fn lemma_roundtrip(&self)
        requires
            self.spec_encodable(),
        ensures
            Self::spec_decoded(self.spec_encoding()) == Ok::<Self, ParameterDataError>(*self),
    {
        let e = self.spec_encoding();
        self.scene_id.lemma_wire();
        assert(e.subrange(0, 2) =~= self.scene_id.spec_wire());
        assert(e.subrange(2, e.len() as int) =~= spec_option_wire(self.fade_times));
        lemma_option_roundtrip(self.fade_times);
    }
}

#[derive(Clone, Copy, Debug, PartialEq, Eq, Structural)]
pub struct SetPresetPlaybackRequest {
    pub mode: PresetPlaybackMode,
    pub level: u8,
}

impl<'a> FixedWire<'a> for SetPresetPlaybackRequest {
    open spec fn spec_size() -> nat {
        3
    }

    open spec fn spec_wire(&self) -> Seq<u8> {
        self.mode.spec_wire() + self.level.spec_wire()
    }

    open spec fn spec_read(bytes: Seq<u8>) -> Option<Self> {
        if <PresetPlaybackMode as FixedWire>::spec_read(bytes.subrange(0, 2)) is Some
            && <u8 as FixedWire>::spec_read(bytes.subrange(2, 3)) is Some {
            Some(SetPresetPlaybackRequest {
                mode: <PresetPlaybackMode as FixedWire>::spec_read(bytes.subrange(0, 2)).unwrap(),
                level: <u8 as FixedWire>::spec_read(bytes.subrange(2, 3)).unwrap(),
            })
        } else {
            None
        }
    }

    open spec fn spec_wire_valid(&self) -> bool {
        self.mode.spec_wire_valid() && self.level.spec_wire_valid()
    }

    fn wire_size() -> (n: usize) {
        3
    }

    fn write_wire(&self, out: &mut Vec<u8>) {
        let ghost start = out@;
        self.mode.write_wire(out);
        self.level.write_wire(out);
        proof {
            assert(out@ =~= start + self.spec_wire());
        }
    }

    fn read_wire(buf: &'a [u8], pos: usize) -> (r: Option<Self>) {
        let _len = buf.len();
        let ghost bytes = buf@.subrange(pos as int, pos + 3);
        proof {
            assert(bytes.subrange(0, 2) =~= buf@.subrange(pos + 0, pos + 2));
            assert(bytes.subrange(2, 3) =~= buf@.subrange(pos + 2, pos + 3));
        }
        let v0 = match <PresetPlaybackMode as FixedWire>::read_wire(buf, pos) {
            Some(v) => v,
            None => return None,
        };
        let v1 = match <u8 as FixedWire>::read_wire(buf, pos + 2) {
            Some(v) => v,
            None => return None,
        };
        Some(SetPresetPlaybackRequest { mode: v0, level: v1 })
    }

    proof fn lemma_wire(&self) {
        self.mode.lemma_wire();
        self.level.lemma_wire();
        let w = self.spec_wire();
        assert(w.subrange(0, 2) =~= self.mode.spec_wire());
        assert(w.subrange(2, 3) =~= self.level.spec_wire());
        if self.spec_wire_valid() {
            assert(<PresetPlaybackMode as FixedWire>::spec_read(w.subrange(0, 2)) == Some(self.mode));
            assert(<u8 as FixedWire>::spec_read(w.subrange(2, 3)) == Some(self.level));
        }
    }
}

impl SetPresetPlaybackRequest {
    /// The parameter data of the value.
    pub open spec fn spec_encoding(&self) -> Seq<u8> {
        self.spec_wire()
    }

    /// The value that parameter data stands for, or why it stands for none.
    pub open spec fn spec_decoded(buf: Seq<u8>) -> Result<Self, ParameterDataError> {
        record_decoded::<Self>(buf)
    }

    /// Whether decoding the parameter data gives the value back.
    pub open spec fn spec_encodable(&self) -> bool {
        self.spec_wire_valid()
    }

    pub fn size_of(&self) -> (n: usize)
        ensures
            n == self.spec_encoding().len(),
            n <= 3,
    {
        proof {
            self.lemma_wire();
        }
        Self::wire_size()
    }

    /// Appends the parameter data to `out`.
    pub fn write_encoding(&self, out: &mut Vec<u8>)
        ensures
            final(out)@ == old(out)@ + self.spec_encoding(),
    {
        self.write_wire(out);
    }

    pub fn encode_parameter_data(&self, buf: &mut [u8]) -> (r: Result<usize, ParameterDataError>)
        ensures
            encoded_into(old(buf)@, final(buf)@, self.spec_encoding(), r),
    {
        encode_record(self, buf)
    }

    pub fn decode_parameter_data(buf: &[u8]) -> (r: Result<Self, ParameterDataError>)
        ensures
            r == Self::spec_decoded(buf@),
    {
        decode_record(buf)
    }

    /// Decoding the parameter data of an encodable value gives it back.
    pub proof fn lemma_roundtrip(&self)
        requires
            self.spec_encodable(),
        ensures
            Self::spec_decoded(self.spec_encoding()) == Ok::<Self, ParameterDataError>(*self),
    {
        lemma_record_roundtrip(*self);
    }
}

} // verus!
