//! Parameter data of the E137-7 responses.

use crate::rdm::common::DeviceUID;
use crate::rdm::error::{ParameterDataError};
use crate::rdm::utils::{copy_encoded, encoded_into};
use crate::rdm::wire::{decode_record, encode_record, lemma_record_roundtrip, record_decoded, too_short, FixedWire};
use vstd::prelude::*;
use vstd::std_specs::convert::{FromSpecImpl, TryFromSpecImpl};
use vstd::string::StringSliceAdditionalSpecFns;
use crate::rdm::parameter::e137_7::{BackgroundQueuedStatusPolicyDescription, DiscoveryCountStatus, DiscoveryState, EndpointId, EndpointLabel, EndpointMode, EndpointTimingDescription};
use crate::rdm::parameter::lists::{EndpointEntryList, ResponderList};

verus! {

broadcast use vstd::array::group_array_axioms;

#[derive(Clone, Copy, Debug, PartialEq)]
pub struct GetEndpointListResponse {
    pub list_change_number: u32,
    pub endpoint_list: EndpointEntryList,
}

impl GetEndpointListResponse {
    /// The parameter data of the value.
    pub open spec fn spec_encoding(&self) -> Seq<u8> {
        self.list_change_number.spec_wire() + self.endpoint_list.spec_encode_items()
    }

    /// The value that parameter data stands for, or why it stands for none.
    pub open spec fn spec_decoded(buf: Seq<u8>) -> Result<Self, ParameterDataError> {
        if buf.len() < 4 {
            Err(too_short(buf.len(), 4))
        } else if !(<u32 as FixedWire>::spec_read(buf.subrange(0, 4)) is Some) {
            Err(ParameterDataError::MalformedData)
        } else {
            let rest = buf.subrange(4, buf.len() as int);
            match EndpointEntryList::spec_decode_items(rest) {
                Ok(t) => Ok(GetEndpointListResponse { list_change_number: <u32 as FixedWire>::spec_read(buf.subrange(0, 4)).unwrap(), endpoint_list: t }),
                Err(e) => Err(e),
            }
        }
    }

    /// Whether decoding the parameter data gives the value back.
    pub open spec fn spec_encodable(&self) -> bool {
        self.list_change_number.spec_wire_valid() && self.endpoint_list.spec_items_encodable()
    }

    /// Appends the parameter data to `out`.
    pub fn write_encoding(&self, out: &mut Vec<u8>)
        ensures
            final(out)@ == old(out)@ + self.spec_encoding(),
    {
        let ghost start = out@;
        self.list_change_number.write_wire(out);
        self.endpoint_list.write_items_to(out);
        proof {
            assert(out@ =~= start + self.spec_encoding());
        }
    }

    pub fn size_of(&self) -> (n: usize)
        ensures
            n == self.spec_encoding().len(),
            n <= 229,
    {
        proof {
            self.list_change_number.lemma_wire();
            use_type_invariant(&self.endpoint_list);
            self.endpoint_list.lemma_encode_items_len();
        }
        let mut out: Vec<u8> = Vec::new();
        self.write_encoding(&mut out);
        proof {
            assert(out@ =~= self.spec_encoding());
        }
        out.len()
    }

    pub fn encode_parameter_data(&self, buf: &mut [u8]) -> (r: Result<usize, ParameterDataError>)
        ensures
            encoded_into(old(buf)@, final(buf)@, self.spec_encoding(), r),
    {
        let mut out: Vec<u8> = Vec::new();
        self.write_encoding(&mut out);
        proof {
            assert(out@ =~= self.spec_encoding());
        }
        copy_encoded(buf, out.as_slice())
    }

    pub fn decode_parameter_data(buf: &[u8]) -> (r: Result<Self, ParameterDataError>)
        ensures
            r == Self::spec_decoded(buf@),
    {
        if buf.len() < 4 {
            return Err(ParameterDataError::BufferTooSmall { provided: buf.len(), required: 4 });
        }
        let v0 = match <u32 as FixedWire>::read_wire(buf, 0) {
            Some(v) => v,
            None => return Err(ParameterDataError::MalformedData),
        };
        match EndpointEntryList::decode_items(buf, 4) {
            Ok(t) => Ok(GetEndpointListResponse { list_change_number: v0, endpoint_list: t }),
            Err(e) => Err(e),
        }
    }

    /// Decoding the parameter data of an encodable value gives it back.
    pub proof fn lemma_roundtrip(&self)
        requires
            self.spec_encodable(),
        ensures
            Self::spec_decoded(self.spec_encoding()) == Ok::<Self, ParameterDataError>(*self),
    {
        let e = self.spec_encoding();
        self.list_change_number.lemma_wire();
        assert(e.subrange(0, 4) =~= self.list_change_number.spec_wire());
        assert(e.subrange(4, e.len() as int) =~= self.endpoint_list.spec_encode_items());
        self.endpoint_list.lemma_items_roundtrip();
    }
}

#[derive(Clone, Copy, Debug, PartialEq, Eq, Structural)]
pub struct GetEndpointListChangeResponse {
    pub list_change_number: u32,
}

impl<'a> FixedWire<'a> for GetEndpointListChangeResponse {
    open spec fn spec_size() -> nat {
        4
    }

    open spec fn spec_wire(&self) -> Seq<u8> {
        self.list_change_number.spec_wire()
    }

    open spec fn spec_read(bytes: Seq<u8>) -> Option<Self> {
        if <u32 as FixedWire>::spec_read(bytes.subrange(0, 4)) is Some {
            Some(GetEndpointListChangeResponse {
                list_change_number: <u32 as FixedWire>::spec_read(bytes.subrange(0, 4)).unwrap(),
            })
        } else {
            None
        }
    }

    open spec fn spec_wire_valid(&self) -> bool {
        self.list_change_number.spec_wire_valid()
    }

    fn wire_size() -> (n: usize) {
        4
    }

    fn write_wire(&self, out: &mut Vec<u8>) {
        let ghost start = out@;
        self.list_change_number.write_wire(out);
        proof {
            assert(out@ =~= start + self.spec_wire());
        }
    }

    fn read_wire(buf: &'a [u8], pos: usize) -> (r: Option<Self>) {
        let _len = buf.len();
        let ghost bytes = buf@.subrange(pos as int, pos + 4);
        proof {
            assert(bytes.subrange(0, 4) =~= buf@.subrange(pos + 0, pos + 4));
        }
        let v0 = match <u32 as FixedWire>::read_wire(buf, pos) {
            Some(v) => v,
            None => return None,
        };
        Some(GetEndpointListChangeResponse { list_change_number: v0 })
    }

    proof fn lemma_wire(&self) {
        self.list_change_number.lemma_wire();
        let w = self.spec_wire();
        assert(w.subrange(0, 4) =~= self.list_change_number.spec_wire());
        if self.spec_wire_valid() {
            assert(<u32 as FixedWire>::spec_read(w.subrange(0, 4)) == Some(self.list_change_number));
        }
    }
}

impl GetEndpointListChangeResponse {
    /// The parameter data of the value.
    pub open spec fn spec_encoding(&self) -> Seq<u8> {
        self.spec_wire()
    }

    /// The value that parameter data stands for, or why it stands for none.
    pub open spec fn spec_decoded(buf: Seq<u8>) -> Result<Self, ParameterDataError> {
        record_decoded::<Self>(buf)
    }

    /// Whether decoding the parameter data gives the value back.
    pub open spec fn spec_encodable(&self) -> bool {
        self.spec_wire_valid()
    }

    pub fn size_of(&self) -> (n: usize)
        ensures
            n == self.spec_encoding().len(),
            n <= 4,
    {
        proof {
            self.lemma_wire();
        }
        Self::wire_size()
    }

    /// Appends the parameter data to `out`.
    pub fn write_encoding(&self, out: &mut Vec<u8>)
        ensures
            final(out)@ == old(out)@ + self.spec_encoding(),
    {
        self.write_wire(out);
    }

    pub fn encode_parameter_data(&self, buf: &mut [u8]) -> (r: Result<usize, ParameterDataError>)
        ensures
            encoded_into(old(buf)@, final(buf)@, self.spec_encoding(), r),
    {
        encode_record(self, buf)
    }

    pub fn decode_parameter_data(buf: &[u8]) -> (r: Result<Self, ParameterDataError>)
        ensures
            r == Self::spec_decoded(buf@),
    {
        decode_record(buf)
    }

    /// Decoding the parameter data of an encodable value gives it back.
    pub proof fn lemma_roundtrip(&self)
        requires
            self.spec_encodable(),
        ensures
            Self::spec_decoded(self.spec_encoding()) == Ok::<Self, ParameterDataError>(*self),
    {
        lemma_record_roundtrip(*self);
    }
}

#[derive(Clone, Copy, Debug, PartialEq, Eq, Structural)]
pub struct GetIdentifyEndpointResponse {
    pub endpoint_id: EndpointId,
    pub identify: bool,
}

impl<'a> FixedWire<'a> for GetIdentifyEndpointResponse {
    open spec fn spec_size() -> nat {
        3
    }

    open spec fn spec_wire(&self) -> Seq<u8> {
        self.endpoint_id.spec_wire() + self.identify.spec_wire()
    }

    open spec fn spec_read(bytes: Seq<u8>) -> Option<Self> {
        if <EndpointId as FixedWire>::spec_read(bytes.subrange(0, 2)) is Some
            && <bool as FixedWire>::spec_read(bytes.subrange(2, 3)) is Some {
            Some(GetIdentifyEndpointResponse {
                endpoint_id: <EndpointId as FixedWire>::spec_read(bytes.subrange(0, 2)).unwrap(),
                identify: <bool as FixedWire>::spec_read(bytes.subrange(2, 3)).unwrap(),
            })
        } else {
            None
        }
    }

    open spec fn spec_wire_valid(&self) -> bool {
        self.endpoint_id.spec_wire_valid() && self.identify.spec_wire_valid()
    }

    fn wire_size() -> (n: usize) {
        3
    }

    fn write_wire(&self, out: &mut Vec<u8>) {
        let ghost start = out@;
        self.endpoint_id.write_wire(out);
        self.identify.write_wire(out);
        proof {
            assert(out@ =~= start + self.spec_wire());
        }
    }

    fn read_wire(buf: &'a [u8], pos: usize) -> (r: Option<Self>) {
        let _len = buf.len();
        let ghost bytes = buf@.subrange(pos as int, pos + 3);
        proof {
            assert(bytes.subrange(0, 2) =~= buf@.subrange(pos + 0, pos + 2));
            assert(bytes.subrange(2, 3) =~= buf@.subrange(pos + 2, pos + 3));
        }
        let v0 = match <EndpointId as FixedWire>::read_wire(buf, pos) {
            Some(v) => v,
            None => return None,
        };
        let v1 = match <bool as FixedWire>::read_wire(buf, pos + 2) {
            Some(v) => v,
            None => return None,
        };
        Some(GetIdentifyEndpointResponse { endpoint_id: v0, identify: v1 })
    }

    proof fn lemma_wire(&self) {
        self.endpoint_id.lemma_wire();
        self.identify.lemma_wire();
        let w = self.spec_wire();
        assert(w.subrange(0, 2) =~= self.endpoint_id.spec_wire());
        assert(w.subrange(2, 3) =~= self.identify.spec_wire());
        if self.spec_wire_valid() {
            assert(<EndpointId as FixedWire>::spec_read(w.subrange(0, 2)) == Some(self.endpoint_id));
            assert(<bool as FixedWire>::spec_read(w.subrange(2, 3)) == Some(self.identify));
        }
    }
}

impl GetIdentifyEndpointResponse {
    /// The parameter data of the value.
    pub open spec fn spec_encoding(&self) -> Seq<u8> {
        self.spec_wire()
    }

    /// The value that parameter data stands for, or why it stands for none.
    pub open spec fn spec_decoded(buf: Seq<u8>) -> Result<Self, ParameterDataError> {
        record_decoded::<Self>(buf)
    }

    /// Whether decoding the parameter data gives the value back.
    pub open spec fn spec_encodable(&self) -> bool {
        self.spec_wire_valid()
    }

    pub fn size_of(&self) -> (n: usize)
        ensures
            n == self.spec_encoding().len(),
            n <= 3,
    {
        proof {
            self.lemma_wire();
        }
        Self::wire_size()
    }

    /// Appends the parameter data to `out`.
    pub fn write_encoding(&self, out: &mut Vec<u8>)
        ensures
            final(out)@ == old(out)@ + self.spec_encoding(),
    {
        self.write_wire(out);
    }

    pub fn encode_parameter_data(&self, buf: &mut [u8]) -> (r: Result<usize, ParameterDataError>)
        ensures
            encoded_into(old(buf)@, final(buf)@, self.spec_encoding(), r),
    {
        encode_record(self, buf)
    }

    pub fn decode_parameter_data(buf: &[u8]) -> (r: Result<Self, ParameterDataError>)
        ensures
            r == Self::spec_decoded(buf@),
    {
        decode_record(buf)
    }

    /// Decoding the parameter data of an encodable value gives it back.
    pub proof fn lemma_roundtrip(&self)
        requires
            self.spec_encodable(),
        ensures
            Self::spec_decoded(self.spec_encoding()) == Ok::<Self, ParameterDataError>(*self),
    {
        lemma_record_roundtrip(*self);
    }
}

#[derive(Clone, Copy, Debug, PartialEq, Eq, Structural)]
pub struct SetIdentifyEndpointResponse {
    pub endpoint_id: EndpointId,
}

impl<'a> FixedWire<'a> for SetIdentifyEndpointResponse {
    open spec fn spec_size() -> nat {
        2
    }

    open spec fn spec_wire(&self) -> Seq<u8> {
        self.endpoint_id.spec_wire()
    }

    open spec fn spec_read(bytes: Seq<u8>) -> Option<Self> {
        if <EndpointId as FixedWire>::spec_read(bytes.subrange(0, 2)) is Some {
            Some(SetIdentifyEndpointResponse {
                endpoint_id: <EndpointId as FixedWire>::spec_read(bytes.subrange(0, 2)).unwrap(),
            })
        } else {
            None
        }
    }

    open spec fn spec_wire_valid(&self) -> bool {
        self.endpoint_id.spec_wire_valid()
    }

    fn wire_size() -> (n: usize) {
        2
    }

    fn write_wire(&self, out: &mut Vec<u8>) {
        let ghost start = out@;
        self.endpoint_id.write_wire(out);
        proof {
            assert(out@ =~= start + self.spec_wire());
        }
    }

    fn read_wire(buf: &'a [u8], pos: usize) -> (r: Option<Self>) {
        let _len = buf.len();
        let ghost bytes = buf@.subrange(pos as int, pos + 2);
        proof {
            assert(bytes.subrange(0, 2) =~= buf@.subrange(pos + 0, pos + 2));
        }
        let v0 = match <EndpointId as FixedWire>::read_wire(buf, pos) {
            Some(v) => v,
            None => return None,
        };
        Some(SetIdentifyEndpointResponse { endpoint_id: v0 })
    }

    proof fn lemma_wire(&self) {
        self.endpoint_id.lemma_wire();
        let w = self.spec_wire();
        assert(w.subrange(0, 2) =~= self.endpoint_id.spec_wire());
        if self.spec_wire_valid() {
            assert(<EndpointId as FixedWire>::spec_read(w.subrange(0, 2)) == Some(self.endpoint_id));
        }
    }
}

impl SetIdentifyEndpointResponse {
    /// The parameter data of the value.
    pub open spec fn spec_encoding(&self) -> Seq<u8> {
        self.spec_wire()
    }

    /// The value that parameter data stands for, or why it stands for none.
    pub open spec fn spec_decoded(buf: Seq<u8>) -> Result<Self, ParameterDataError> {
        record_decoded::<Self>(buf)
    }

    /// Whether decoding the parameter data gives the value back.
    pub open spec fn spec_encodable(&self) -> bool {
        self.spec_wire_valid()
    }

    pub fn size_of(&self) -> (n: usize)
        ensures
            n == self.spec_encoding().len(),
            n <= 2,
    {
        proof {
            self.lemma_wire();
        }
        Self::wire_size()
    }

    /// Appends the parameter data to `out`.
    pub fn write_encoding(&self, out: &mut Vec<u8>)
        ensures
            final(out)@ == old(out)@ + self.spec_encoding(),
    {
        self.write_wire(out);
    }

    pub fn encode_parameter_data(&self, buf: &mut [u8]) -> (r: Result<usize, ParameterDataError>)
        ensures
            encoded_into(old(buf)@, final(buf)@, self.spec_encoding(), r),
    {
        encode_record(self, buf)
    }

    pub fn decode_parameter_data(buf: &[u8]) -> (r: Result<Self, ParameterDataError>)
        ensures
            r == Self::spec_decoded(buf@),
    {
        decode_record(buf)
    }

    /// Decoding the parameter data of an encodable value gives it back.
    pub proof fn lemma_roundtrip(&self)
        requires
            self.spec_encodable(),
        ensures
            Self::spec_decoded(self.spec_encoding()) == Ok::<Self, ParameterDataError>(*self),
    {
        lemma_record_roundtrip(*self);
    }
}

#[derive(Clone, Copy, Debug, PartialEq, Eq, Structural)]
pub struct GetEndpointToUniverseResponse {
    pub endpoint_id: EndpointId,
    pub universe: u16,
}

impl<'a> FixedWire<'a> for GetEndpointToUniverseResponse {
    open spec fn spec_size() -> nat {
        4
    }

    open spec fn spec_wire(&self) -> Seq<u8> {
        self.endpoint_id.spec_wire() + self.universe.spec_wire()
    }

    open spec fn spec_read(bytes: Seq<u8>) -> Option<Self> {
        if <EndpointId as FixedWire>::spec_read(bytes.subrange(0, 2)) is Some
            && <u16 as FixedWire>::spec_read(bytes.subrange(2, 4)) is Some {
            Some(GetEndpointToUniverseResponse {
                endpoint_id: <EndpointId as FixedWire>::spec_read(bytes.subrange(0, 2)).unwrap(),
                universe: <u16 as FixedWire>::spec_read(bytes.subrange(2, 4)).unwrap(),
            })
        } else {
            None
        }
    }

    open spec fn spec_wire_valid(&self) -> bool {
        self.endpoint_id.spec_wire_valid() && self.universe.spec_wire_valid()
    }

    fn wire_size() -> (n: usize) {
        4
    }

    fn write_wire(&self, out: &mut Vec<u8>) {
        let ghost start = out@;
        self.endpoint_id.write_wire(out);
        self.universe.write_wire(out);
        proof {
            assert(out@ =~= start + self.spec_wire());
        }
    }

    fn read_wire(buf: &'a [u8], pos: usize) -> (r: Option<Self>) {
        let _len = buf.len();
        let ghost bytes = buf@.subrange(pos as int, pos + 4);
        proof {
            assert(bytes.subrange(0, 2) =~= buf@.subrange(pos + 0, pos + 2));
            assert(bytes.subrange(2, 4) =~= buf@.subrange(pos + 2, pos + 4));
        }
        let v0 = match <EndpointId as FixedWire>::read_wire(buf, pos) {
            Some(v) => v,
            None => return None,
        };
        let v1 = match <u16 as FixedWire>::read_wire(buf, pos + 2) {
            Some(v) => v,
            None => return None,
        };
        Some(GetEndpointToUniverseResponse { endpoint_id: v0, universe: v1 })
    }

    proof fn lemma_wire(&self) {
        self.endpoint_id.lemma_wire();
        self.universe.lemma_wire();
        let w = self.spec_wire();
        assert(w.subrange(0, 2) =~= self.endpoint_id.spec_wire());
        assert(w.subrange(2, 4) =~= self.universe.spec_wire());
        if self.spec_wire_valid() {
            assert(<EndpointId as FixedWire>::spec_read(w.subrange(0, 2)) == Some(self.endpoint_id));
            assert(<u16 as FixedWire>::spec_read(w.subrange(2, 4)) == Some(self.universe));
        }
    }
}

impl GetEndpointToUniverseResponse {
    /// The parameter data of the value.
    pub open spec fn spec_encoding(&self) -> Seq<u8> {
        self.spec_wire()
    }

    /// The value that parameter data stands for, or why it stands for none.
    pub open spec fn spec_decoded(buf: Seq<u8>) -> Result<Self, ParameterDataError> {
        record_decoded::<Self>(buf)
    }

    /// Whether decoding the parameter data gives the value back.
    pub open spec fn spec_encodable(&self) -> bool {
        self.spec_wire_valid()
    }

    pub fn size_of(&self) -> (n: usize)
        ensures
            n == self.spec_encoding().len(),
            n <= 4,
    {
        proof {
            self.lemma_wire();
        }
        Self::wire_size()
    }

    /// Appends the parameter data to `out`.
    pub fn write_encoding(&self, out: &mut Vec<u8>)
        ensures
            final(out)@ == old(out)@ + self.spec_encoding(),
    {
        self.write_wire(out);
    }

    pub fn encode_parameter_data(&self, buf: &mut [u8]) -> (r: Result<usize, ParameterDataError>)
        ensures
            encoded_into(old(buf)@, final(buf)@, self.spec_encoding(), r),
    {
        encode_record(self, buf)
    }

    pub fn decode_parameter_data(buf: &[u8]) -> (r: Result<Self, ParameterDataError>)
        ensures
            r == Self::spec_decoded(buf@),
    {
        decode_record(buf)
    }

    /// Decoding the parameter data of an encodable value gives it back.
    pub proof fn lemma_roundtrip(&self)
        requires
            self.spec_encodable(),
        ensures
            Self::spec_decoded(self.spec_encoding()) == Ok::<Self, ParameterDataError>(*self),
    {
        lemma_record_roundtrip(*self);
    }
}

#[derive(Clone, Copy, Debug, PartialEq, Eq, Structural)]
pub struct SetEndpointToUniverseResponse {
    pub endpoint_id: EndpointId,
}

impl<'a> FixedWire<'a> for SetEndpointToUniverseResponse {
    open spec fn spec_size() -> nat {
        2
    }

    open spec fn spec_wire(&self) -> Seq<u8> {
        self.endpoint_id.spec_wire()
    }

    open spec fn spec_read(bytes: Seq<u8>) -> Option<Self> {
        if <EndpointId as FixedWire>::spec_read(bytes.subrange(0, 2)) is Some {
            Some(SetEndpointToUniverseResponse {
                endpoint_id: <EndpointId as FixedWire>::spec_read(bytes.subrange(0, 2)).unwrap(),
            })
        } else {
            None
        }
    }

    open spec fn spec_wire_valid(&self) -> bool {
        self.endpoint_id.spec_wire_valid()
    }

    fn wire_size() -> (n: usize) {
        2
    }

    fn write_wire(&self, out: &mut Vec<u8>) {
        let ghost start = out@;
        self.endpoint_id.write_wire(out);
        proof {
            assert(out@ =~= start + self.spec_wire());
        }
    }

    fn read_wire(buf: &'a [u8], pos: usize) -> (r: Option<Self>) {
        let _len = buf.len();
        let ghost bytes = buf@.subrange(pos as int, pos + 2);
        proof {
            assert(bytes.subrange(0, 2) =~= buf@.subrange(pos + 0, pos + 2));
        }
        let v0 = match <EndpointId as FixedWire>::read_wire(buf, pos) {
            Some(v) => v,
            None => return None,
        };
        Some(SetEndpointToUniverseResponse { endpoint_id: v0 })
    }

    proof fn lemma_wire(&self) {
        self.endpoint_id.lemma_wire();
        let w = self.spec_wire();
        assert(w.subrange(0, 2) =~= self.endpoint_id.spec_wire());
        if self.spec_wire_valid() {
            assert(<EndpointId as FixedWire>::spec_read(w.subrange(0, 2)) == Some(self.endpoint_id));
        }
    }
}

impl SetEndpointToUniverseResponse {
    /// The parameter data of the value.
    pub open spec fn spec_encoding(&self) -> Seq<u8> {
        self.spec_wire()
    }

    /// The value that parameter data stands for, or why it stands for none.
    pub open spec fn spec_decoded(buf: Seq<u8>) -> Result<Self, ParameterDataError> {
        record_decoded::<Self>(buf)
    }

    /// Whether decoding the parameter data gives the value back.
    pub open spec fn spec_encodable(&self) -> bool {
        self.spec_wire_valid()
    }

    pub fn size_of(&self) -> (n: usize)
        ensures
            n == self.spec_encoding().len(),
            n <= 2,
    {
        proof {
            self.lemma_wire();
        }
        Self::wire_size()
    }

    /// Appends the parameter data to `out`.
    pub fn write_encoding(&self, out: &mut Vec<u8>)
        ensures
            final(out)@ == old(out)@ + self.spec_encoding(),
    {
        self.write_wire(out);
    }

    pub fn encode_parameter_data(&self, buf: &mut [u8]) -> (r: Result<usize, ParameterDataError>)
        ensures
            encoded_into(old(buf)@, final(buf)@, self.spec_encoding(), r),
    {
        encode_record(self, buf)
    }

    pub fn decode_parameter_data(buf: &[u8]) -> (r: Result<Self, ParameterDataError>)
        ensures
            r == Self::spec_decoded(buf@),
    {
        decode_record(buf)
    }

    /// Decoding the parameter data of an encodable value gives it back.
    pub proof fn lemma_roundtrip(&self)
        requires
            self.spec_encodable(),
        ensures
            Self::spec_decoded(self.spec_encoding()) == Ok::<Self, ParameterDataError>(*self),
    {
        lemma_record_roundtrip(*self);
    }
}

#[derive(Clone, Copy, Debug, PartialEq, Eq, Structural)]
pub struct GetEndpointModeResponse {
    pub endpoint_id: EndpointId,
    pub mode: EndpointMode,
}

impl<'a> FixedWire<'a> for GetEndpointModeResponse {
    open spec fn spec_size() -> nat {
        3
    }

    open spec fn spec_wire(&self) -> Seq<u8> {
        self.endpoint_id.spec_wire() + self.mode.spec_wire()
    }

    open spec fn spec_read(bytes: Seq<u8>) -> Option<Self> {
        if <EndpointId as FixedWire>::spec_read(bytes.subrange(0, 2)) is Some
            && <EndpointMode as FixedWire>::spec_read(bytes.subrange(2, 3)) is Some {
            Some(GetEndpointModeResponse {
                endpoint_id: <EndpointId as FixedWire>::spec_read(bytes.subrange(0, 2)).unwrap(),
                mode: <EndpointMode as FixedWire>::spec_read(bytes.subrange(2, 3)).unwrap(),
            })
        } else {
            None
        }
    }

    open spec fn spec_wire_valid(&self) -> bool {
        self.endpoint_id.spec_wire_valid() && self.mode.spec_wire_valid()
    }

    fn wire_size() -> (n: usize) {
        3
    }

    fn write_wire(&self, out: &mut Vec<u8>) {
        let ghost start = out@;
        self.endpoint_id.write_wire(out);
        self.mode.write_wire(out);
        proof {
            assert(out@ =~= start + self.spec_wire());
        }
    }

    fn read_wire(buf: &'a [u8], pos: usize) -> (r: Option<Self>) {
        let _len = buf.len();
        let ghost bytes = buf@.subrange(pos as int, pos + 3);
        proof {
            assert(bytes.subrange(0, 2) =~= buf@.subrange(pos + 0, pos + 2));
            assert(bytes.subrange(2, 3) =~= buf@.subrange(pos + 2, pos + 3));
        }
        let v0 = match <EndpointId as FixedWire>::read_wire(buf, pos) {
            Some(v) => v,
            None => return None,
        };
        let v1 = match <EndpointMode as FixedWire>::read_wire(buf, pos + 2) {
            Some(v) => v,
            None => return None,
        };
        Some(GetEndpointModeResponse { endpoint_id: v0, mode: v1 })
    }

    proof fn lemma_wire(&self) {
        self.endpoint_id.lemma_wire();
        self.mode.lemma_wire();
        let w = self.spec_wire();
        assert(w.subrange(0, 2) =~= self.endpoint_id.spec_wire());
        assert(w.subrange(2, 3) =~= self.mode.spec_wire());
        if self.spec_wire_valid() {
            assert(<EndpointId as FixedWire>::spec_read(w.subrange(0, 2)) == Some(self.endpoint_id));
            assert(<EndpointMode as FixedWire>::spec_read(w.subrange(2, 3)) == Some(self.mode));
        }
    }
}

impl GetEndpointModeResponse {
    /// The parameter data of the value.
    pub open spec fn spec_encoding(&self) -> Seq<u8> {
        self.spec_wire()
    }

    /// The value that parameter data stands for, or why it stands for none.
    pub open spec fn spec_decoded(buf: Seq<u8>) -> Result<Self, ParameterDataError> {
        record_decoded::<Self>(buf)
    }

    /// Whether decoding the parameter data gives the value back.
    pub open spec fn spec_encodable(&self) -> bool {
        self.spec_wire_valid()
    }

    pub fn size_of(&self) -> (n: usize)
        ensures
            n == self.spec_encoding().len(),
            n <= 3,
    {
        proof {
            self.lemma_wire();
        }
        Self::wire_size()
    }

    /// Appends the parameter data to `out`.
    pub fn write_encoding(&self, out: &mut Vec<u8>)
        ensures
            final(out)@ == old(out)@ + self.spec_encoding(),
    {
        self.write_wire(out);
    }

    pub fn encode_parameter_data(&self, buf: &mut [u8]) -> (r: Result<usize, ParameterDataError>)
        ensures
            encoded_into(old(buf)@, final(buf)@, self.spec_encoding(), r),
    {
        encode_record(self, buf)
    }

    pub fn decode_parameter_data(buf: &[u8]) -> (r: Result<Self, ParameterDataError>)
        ensures
            r == Self::spec_decoded(buf@),
    {
        decode_record(buf)
    }

    /// Decoding the parameter data of an encodable value gives it back.
    pub proof fn lemma_roundtrip(&self)
        requires
            self.spec_encodable(),
        ensures
            Self::spec_decoded(self.spec_encoding()) == Ok::<Self, ParameterDataError>(*self),
    {
        lemma_record_roundtrip(*self);
    }
}

#[derive(Clone, Copy, Debug, PartialEq, Eq, Structural)]
pub struct SetEndpointModeResponse {
    pub endpoint_id: EndpointId,
}

impl<'a> FixedWire<'a> for SetEndpointModeResponse {
    open spec fn spec_size() -> nat {
        2
    }

    open spec fn spec_wire(&self) -> Seq<u8> {
        self.endpoint_id.spec_wire()
    }

    open spec fn spec_read(bytes: Seq<u8>) -> Option<Self> {
        if <EndpointId as FixedWire>::spec_read(bytes.subrange(0, 2)) is Some {
            Some(SetEndpointModeResponse {
                endpoint_id: <EndpointId as FixedWire>::spec_read(bytes.subrange(0, 2)).unwrap(),
            })
        } else {
            None
        }
    }

    open spec fn spec_wire_valid(&self) -> bool {
        self.endpoint_id.spec_wire_valid()
    }

    fn wire_size() -> (n: usize) {
        2
    }

    fn write_wire(&self, out: &mut Vec<u8>) {
        let ghost start = out@;
        self.endpoint_id.write_wire(out);
        proof {
            assert(out@ =~= start + self.spec_wire());
        }
    }

    fn read_wire(buf: &'a [u8], pos: usize) -> (r: Option<Self>) {
        let _len = buf.len();
        let ghost bytes = buf@.subrange(pos as int, pos + 2);
        proof {
            assert(bytes.subrange(0, 2) =~= buf@.subrange(pos + 0, pos + 2));
        }
        let v0 = match <EndpointId as FixedWire>::read_wire(buf, pos) {
            Some(v) => v,
            None => return None,
        };
        Some(SetEndpointModeResponse { endpoint_id: v0 })
    }

    proof fn lemma_wire(&self) {
        self.endpoint_id.lemma_wire();
        let w = self.spec_wire();
        assert(w.subrange(0, 2) =~= self.endpoint_id.spec_wire());
        if self.spec_wire_valid() {
            assert(<EndpointId as FixedWire>::spec_read(w.subrange(0, 2)) == Some(self.endpoint_id));
        }
    }
}

impl SetEndpointModeResponse {
    /// The parameter data of the value.
    pub open spec fn spec_encoding(&self) -> Seq<u8> {
        self.spec_wire()
    }

    /// The value that parameter data stands for, or why it stands for none.
    pub open spec fn spec_decoded(buf: Seq<u8>) -> Result<Self, ParameterDataError> {
        record_decoded::<Self>(buf)
    }

    /// Whether decoding the parameter data gives the value back.
    pub open spec fn spec_encodable(&self) -> bool {
        self.spec_wire_valid()
    }

    pub fn size_of(&self) -> (n: usize)
        ensures
            n == self.spec_encoding().len(),
            n <= 2,
    {
        proof {
            self.lemma_wire();
        }
        Self::wire_size()
    }

    /// Appends the parameter data to `out`.
    pub fn write_encoding(&self, out: &mut Vec<u8>)
        ensures
            final(out)@ == old(out)@ + self.spec_encoding(),
    {
        self.write_wire(out);
    }

    pub fn encode_parameter_data(&self, buf: &mut [u8]) -> (r: Result<usize, ParameterDataError>)
        ensures
            encoded_into(old(buf)@, final(buf)@, self.spec_encoding(), r),
    {
        encode_record(self, buf)
    }

    pub fn decode_parameter_data(buf: &[u8]) -> (r: Result<Self, ParameterDataError>)
        ensures
            r == Self::spec_decoded(buf@),
    {
        decode_record(buf)
    }

    /// Decoding the parameter data of an encodable value gives it back.
    pub proof fn lemma_roundtrip(&self)
        requires
            self.spec_encodable(),
        ensures
            Self::spec_decoded(self.spec_encoding()) == Ok::<Self, ParameterDataError>(*self),
    {
        lemma_record_roundtrip(*self);
    }
}

#[derive(Clone, Copy, Debug, PartialEq)]
pub struct GetEndpointLabelResponse {
    pub endpoint_id: EndpointId,
    pub label: EndpointLabel,
}

impl GetEndpointLabelResponse {
    /// The parameter data of the value.
    pub open spec fn spec_encoding(&self) -> Seq<u8> {
        self.endpoint_id.spec_wire() + self.label.spec_encode()
    }

    /// The value that parameter data stands for, or why it stands for none.
    pub open spec fn spec_decoded(buf: Seq<u8>) -> Result<Self, ParameterDataError> {
        if buf.len() < 2 {
            Err(too_short(buf.len(), 2))
        } else if !(<EndpointId as FixedWire>::spec_read(buf.subrange(0, 2)) is Some) {
            Err(ParameterDataError::MalformedData)
        } else {
            let rest = buf.subrange(2, buf.len() as int);
            match EndpointLabel::spec_decode(rest) {
                Ok(t) => Ok(GetEndpointLabelResponse { endpoint_id: <EndpointId as FixedWire>::spec_read(buf.subrange(0, 2)).unwrap(), label: t }),
                Err(e) => Err(e),
            }
        }
    }

    /// Whether decoding the parameter data gives the value back.
    pub open spec fn spec_encodable(&self) -> bool {
        self.endpoint_id.spec_wire_valid() && self.label.spec_encodable()
    }

    /// Appends the parameter data to `out`.
    pub fn write_encoding(&self, out: &mut Vec<u8>)
        ensures
            final(out)@ == old(out)@ + self.spec_encoding(),
    {
        let ghost start = out@;
        self.endpoint_id.write_wire(out);
        self.label.write_encoded(out);
        proof {
            assert(out@ =~= start + self.spec_encoding());
        }
    }

    pub fn size_of(&self) -> (n: usize)
        ensures
            n == self.spec_encoding().len(),
            n <= 233,
    {
        proof {
            self.endpoint_id.lemma_wire();
            use_type_invariant(&self.label);
            self.label.lemma_encode_len();
        }
        let mut out: Vec<u8> = Vec::new();
        self.write_encoding(&mut out);
        proof {
            assert(out@ =~= self.spec_encoding());
        }
        out.len()
    }

    pub fn encode_parameter_data(&self, buf: &mut [u8]) -> (r: Result<usize, ParameterDataError>)
        ensures
            encoded_into(old(buf)@, final(buf)@, self.spec_encoding(), r),
    {
        let mut out: Vec<u8> = Vec::new();
        self.write_encoding(&mut out);
        proof {
            assert(out@ =~= self.spec_encoding());
        }
        copy_encoded(buf, out.as_slice())
    }

    pub fn decode_parameter_data(buf: &[u8]) -> (r: Result<Self, ParameterDataError>)
        ensures
            r == Self::spec_decoded(buf@),
    {
        if buf.len() < 2 {
            return Err(ParameterDataError::BufferTooSmall { provided: buf.len(), required: 2 });
        }
        let v0 = match <EndpointId as FixedWire>::read_wire(buf, 0) {
            Some(v) => v,
            None => return Err(ParameterDataError::MalformedData),
        };
        match EndpointLabel::decode_parameter_data(vstd::slice::slice_subrange(buf, 2, buf.len())) {
            Ok(t) => Ok(GetEndpointLabelResponse { endpoint_id: v0, label: t }),
            Err(e) => Err(e),
        }
    }

    /// Decoding the parameter data of an encodable value gives it back.
    pub proof fn lemma_roundtrip(&self)
        requires
            self.spec_encodable(),
        ensures
            Self::spec_decoded(self.spec_encoding()) == Ok::<Self, ParameterDataError>(*self),
    {
        let e = self.spec_encoding();
        self.endpoint_id.lemma_wire();
        assert(e.subrange(0, 2) =~= self.endpoint_id.spec_wire());
        assert(e.subrange(2, e.len() as int) =~= self.label.spec_encode());
        self.label.lemma_roundtrip();
    }
}

#[derive(Clone, Copy, Debug, PartialEq, Eq, Structural)]
pub struct SetEndpointLabelResponse {
    pub endpoint_id: EndpointId,
}

impl<'a> FixedWire<'a> for SetEndpointLabelResponse {
    open spec fn spec_size() -> nat {
        2
    }

    open spec fn spec_wire(&self) -> Seq<u8> {
        self.endpoint_id.spec_wire()
    }

    open spec fn spec_read(bytes: Seq<u8>) -> Option<Self> {
        if <EndpointId as FixedWire>::spec_read(bytes.subrange(0, 2)) is Some {
            Some(SetEndpointLabelResponse {
                endpoint_id: <EndpointId as FixedWire>::spec_read(bytes.subrange(0, 2)).unwrap(),
            })
        } else {
            None
        }
    }

    open spec fn spec_wire_valid(&self) -> bool {
        self.endpoint_id.spec_wire_valid()
    }

    fn wire_size() -> (n: usize) {
        2
    }

    fn write_wire(&self, out: &mut Vec<u8>) {
        let ghost start = out@;
        self.endpoint_id.write_wire(out);
        proof {
            assert(out@ =~= start + self.spec_wire());
        }
    }

    fn read_wire(buf: &'a [u8], pos: usize) -> (r: Option<Self>) {
        let _len = buf.len();
        let ghost bytes = buf@.subrange(pos as int, pos + 2);
        proof {
            assert(bytes.subrange(0, 2) =~= buf@.subrange(pos + 0, pos + 2));
        }
        let v0 = match <EndpointId as FixedWire>::read_wire(buf, pos) {
            Some(v) => v,
            None => return None,
        };
        Some(SetEndpointLabelResponse { endpoint_id: v0 })
    }

    proof fn lemma_wire(&self) {
        self.endpoint_id.lemma_wire();
        let w = self.spec_wire();
        assert(w.subrange(0, 2) =~= self.endpoint_id.spec_wire());
        if self.spec_wire_valid() {
            assert(<EndpointId as FixedWire>::spec_read(w.subrange(0, 2)) == Some(self.endpoint_id));
        }
    }
}

impl SetEndpointLabelResponse {
    /// The parameter data of the value.
    pub open spec fn spec_encoding(&self) -> Seq<u8> {
        self.spec_wire()
    }

    /// The value that parameter data stands for, or why it stands for none.
    pub open spec fn spec_decoded(buf: Seq<u8>) -> Result<Self, ParameterDataError> {
        record_decoded::<Self>(buf)
    }

    /// Whether decoding the parameter data gives the value back.
    pub open spec fn spec_encodable(&self) -> bool {
        self.spec_wire_valid()
    }

    pub fn size_of(&self) -> (n: usize)
        ensures
            n == self.spec_encoding().len(),
            n <= 2,
    {
        proof {
            self.lemma_wire();
        }
        Self::wire_size()
    }

    /// Appends the parameter data to `out`.
    pub fn write_encoding(&self, out: &mut Vec<u8>)
        ensures
            final(out)@ == old(out)@ + self.spec_encoding(),
    {
        self.write_wire(out);
    }

    pub fn encode_parameter_data(&self, buf: &mut [u8]) -> (r: Result<usize, ParameterDataError>)
        ensures
            encoded_into(old(buf)@, final(buf)@, self.spec_encoding(), r),
    {
        encode_record(self, buf)
    }

    pub fn decode_parameter_data(buf: &[u8]) -> (r: Result<Self, ParameterDataError>)
        ensures
            r == Self::spec_decoded(buf@),
    {
        decode_record(buf)
    }

    /// Decoding the parameter data of an encodable value gives it back.
    pub proof fn lemma_roundtrip(&self)
        requires
            self.spec_encodable(),
        ensures
            Self::spec_decoded(self.spec_encoding()) == Ok::<Self, ParameterDataError>(*self),
    {
        lemma_record_roundtrip(*self);
    }
}

#[derive(Clone, Copy, Debug, PartialEq, Eq, Structural)]
pub struct GetRdmTrafficEnableResponse {
    pub endpoint_id: EndpointId,
    pub enable: bool,
}

impl<'a> FixedWire<'a> for GetRdmTrafficEnableResponse {
    open spec fn spec_size() -> nat {
        3
    }

    open spec fn spec_wire(&self) -> Seq<u8> {
        self.endpoint_id.spec_wire() + self.enable.spec_wire()
    }

    open spec fn spec_read(bytes: Seq<u8>) -> Option<Self> {
        if <EndpointId as FixedWire>::spec_read(bytes.subrange(0, 2)) is Some
            && <bool as FixedWire>::spec_read(bytes.subrange(2, 3)) is Some {
            Some(GetRdmTrafficEnableResponse {
                endpoint_id: <EndpointId as FixedWire>::spec_read(bytes.subrange(0, 2)).unwrap(),
                enable: <bool as FixedWire>::spec_read(bytes.subrange(2, 3)).unwrap(),
            })
        } else {
            None
        }
    }

    open spec fn spec_wire_valid(&self) -> bool {
        self.endpoint_id.spec_wire_valid() && self.enable.spec_wire_valid()
    }

    fn wire_size() -> (n: usize) {
        3
    }

    fn write_wire(&self, out: &mut Vec<u8>) {
        let ghost start = out@;
        self.endpoint_id.write_wire(out);
        self.enable.write_wire(out);
        proof {
            assert(out@ =~= start + self.spec_wire());
        }
    }

    fn read_wire(buf: &'a [u8], pos: usize) -> (r: Option<Self>) {
        let _len = buf.len();
        let ghost bytes = buf@.subrange(pos as int, pos + 3);
        proof {
            assert(bytes.subrange(0, 2) =~= buf@.subrange(pos + 0, pos + 2));
            assert(bytes.subrange(2, 3) =~= buf@.subrange(pos + 2, pos + 3));
        }
        let v0 = match <EndpointId as FixedWire>::read_wire(buf, pos) {
            Some(v) => v,
            None => return None,
        };
        let v1 = match <bool as FixedWire>::read_wire(buf, pos + 2) {
            Some(v) => v,
            None => return None,
        };
        Some(GetRdmTrafficEnableResponse { endpoint_id: v0, enable: v1 })
    }

    proof fn lemma_wire(&self) {
        self.endpoint_id.lemma_wire();
        self.enable.lemma_wire();
        let w = self.spec_wire();
        assert(w.subrange(0, 2) =~= self.endpoint_id.spec_wire());
        assert(w.subrange(2, 3) =~= self.enable.spec_wire());
        if self.spec_wire_valid() {
            assert(<EndpointId as FixedWire>::spec_read(w.subrange(0, 2)) == Some(self.endpoint_id));
            assert(<bool as FixedWire>::spec_read(w.subrange(2, 3)) == Some(self.enable));
        }
    }
}

impl GetRdmTrafficEnableResponse {
    /// The parameter data of the value.
    pub open spec fn spec_encoding(&self) -> Seq<u8> {
        self.spec_wire()
    }

    /// The value that parameter data stands for, or why it stands for none.
    pub open spec fn spec_decoded(buf: Seq<u8>) -> Result<Self, ParameterDataError> {
        record_decoded::<Self>(buf)
    }

    /// Whether decoding the parameter data gives the value back.
    pub open spec fn spec_encodable(&self) -> bool {
        self.spec_wire_valid()
    }

    pub fn size_of(&self) -> (n: usize)
        ensures
            n == self.spec_encoding().len(),
            n <= 3,
    {
        proof {
            self.lemma_wire();
        }
        Self::wire_size()
    }

    /// Appends the parameter data to `out`.
    pub fn write_encoding(&self, out: &mut Vec<u8>)
        ensures
            final(out)@ == old(out)@ + self.spec_encoding(),
    {
        self.write_wire(out);
    }

    pub fn encode_parameter_data(&self, buf: &mut [u8]) -> (r: Result<usize, ParameterDataError>)
        ensures
            encoded_into(old(buf)@, final(buf)@, self.spec_encoding(), r),
    {
        encode_record(self, buf)
    }

    pub fn decode_parameter_data(buf: &[u8]) -> (r: Result<Self, ParameterDataError>)
        ensures
            r == Self::spec_decoded(buf@),
    {
        decode_record(buf)
    }

    /// Decoding the parameter data of an encodable value gives it back.
    pub proof fn lemma_roundtrip(&self)
        requires
            self.spec_encodable(),
        ensures
            Self::spec_decoded(self.spec_encoding()) == Ok::<Self, ParameterDataError>(*self),
    {
        lemma_record_roundtrip(*self);
    }
}

#[derive(Clone, Copy, Debug, PartialEq, Eq, Structural)]
pub struct SetRdmTrafficEnableResponse {
    pub endpoint_id: EndpointId,
}

impl<'a> FixedWire<'a> for SetRdmTrafficEnableResponse {
    open spec fn spec_size() -> nat {
        2
    }

    open spec fn spec_wire(&self) -> Seq<u8> {
        self.endpoint_id.spec_wire()
    }

    open spec fn spec_read(bytes: Seq<u8>) -> Option<Self> {
        if <EndpointId as FixedWire>::spec_read(bytes.subrange(0, 2)) is Some {
            Some(SetRdmTrafficEnableResponse {
                endpoint_id: <EndpointId as FixedWire>::spec_read(bytes.subrange(0, 2)).unwrap(),
            })
        } else {
            None
        }
    }

    open spec fn spec_wire_valid(&self) -> bool {
        self.endpoint_id.spec_wire_valid()
    }

    fn wire_size() -> (n: usize) {
        2
    }

    fn write_wire(&self, out: &mut Vec<u8>) {
        let ghost start = out@;
        self.endpoint_id.write_wire(out);
        proof {
            assert(out@ =~= start + self.spec_wire());
        }
    }

    fn read_wire(buf: &'a [u8], pos: usize) -> (r: Option<Self>) {
        let _len = buf.len();
        let ghost bytes = buf@.subrange(pos as int, pos + 2);
        proof {
            assert(bytes.subrange(0, 2) =~= buf@.subrange(pos + 0, pos + 2));
        }
        let v0 = match <EndpointId as FixedWire>::read_wire(buf, pos) {
            Some(v) => v,
            None => return None,
        };
        Some(SetRdmTrafficEnableResponse { endpoint_id: v0 })
    }

    proof fn lemma_wire(&self) {
        self.endpoint_id.lemma_wire();
        let w = self.spec_wire();
        assert(w.subrange(0, 2) =~= self.endpoint_id.spec_wire());
        if self.spec_wire_valid() {
            assert(<EndpointId as FixedWire>::spec_read(w.subrange(0, 2)) == Some(self.endpoint_id));
        }
    }
}

impl SetRdmTrafficEnableResponse {
    /// The parameter data of the value.
    pub open spec fn spec_encoding(&self) -> Seq<u8> {
        self.spec_wire()
    }

    /// The value that parameter data stands for, or why it stands for none.
    pub open spec fn spec_decoded(buf: Seq<u8>) -> Result<Self, ParameterDataError> {
        record_decoded::<Self>(buf)
    }

    /// Whether decoding the parameter data gives the value back.
    pub open spec fn spec_encodable(&self) -> bool {
        self.spec_wire_valid()
    }

    pub fn size_of(&self) -> (n: usize)
        ensures
            n == self.spec_encoding().len(),
            n <= 2,
    {
        proof {
            self.lemma_wire();
        }
        Self::wire_size()
    }

    /// Appends the parameter data to `out`.
    pub fn write_encoding(&self, out: &mut Vec<u8>)
        ensures
            final(out)@ == old(out)@ + self.spec_encoding(),
    {
        self.write_wire(out);
    }

    pub fn encode_parameter_data(&self, buf: &mut [u8]) -> (r: Result<usize, ParameterDataError>)
        ensures
            encoded_into(old(buf)@, final(buf)@, self.spec_encoding(), r),
    {
        encode_record(self, buf)
    }

    pub fn decode_parameter_data(buf: &[u8]) -> (r: Result<Self, ParameterDataError>)
        ensures
            r == Self::spec_decoded(buf@),
    {
        decode_record(buf)
    }

    /// Decoding the parameter data of an encodable value gives it back.
    pub proof fn lemma_roundtrip(&self)
        requires
            self.spec_encodable(),
        ensures
            Self::spec_decoded(self.spec_encoding()) == Ok::<Self, ParameterDataError>(*self),
    {
        lemma_record_roundtrip(*self);
    }
}

#[derive(Clone, Copy, Debug, PartialEq, Eq, Structural)]
pub struct GetDiscoveryStateResponse {
    pub endpoint_id: EndpointId,
    pub device_count: DiscoveryCountStatus,
    pub discovery_state: DiscoveryState,
}

impl<'a> FixedWire<'a> for GetDiscoveryStateResponse {
    open spec fn spec_size() -> nat {
        5
    }

    open spec fn spec_wire(&self) -> Seq<u8> {
        self.endpoint_id.spec_wire() + self.device_count.spec_wire() + self.discovery_state.spec_wire()
    }

    open spec fn spec_read(bytes: Seq<u8>) -> Option<Self> {
        if <EndpointId as FixedWire>::spec_read(bytes.subrange(0, 2)) is Some
            && <DiscoveryCountStatus as FixedWire>::spec_read(bytes.subrange(2, 4)) is Some
            && <DiscoveryState as FixedWire>::spec_read(bytes.subrange(4, 5)) is Some {
            Some(GetDiscoveryStateResponse {
                endpoint_id: <EndpointId as FixedWire>::spec_read(bytes.subrange(0, 2)).unwrap(),
                device_count: <DiscoveryCountStatus as FixedWire>::spec_read(bytes.subrange(2, 4)).unwrap(),
                discovery_state: <DiscoveryState as FixedWire>::spec_read(bytes.subrange(4, 5)).unwrap(),
            })
        } else {
            None
        }
    }

    open spec fn spec_wire_valid(&self) -> bool {
        self.endpoint_id.spec_wire_valid() && self.device_count.spec_wire_valid() && self.discovery_state.spec_wire_valid()
    }

    fn wire_size() -> (n: usize) {
        5
    }

    fn write_wire(&self, out: &mut Vec<u8>) {
        let ghost start = out@;
        self.endpoint_id.write_wire(out);
        self.device_count.write_wire(out);
        self.discovery_state.write_wire(out);
        proof {
            assert(out@ =~= start + self.spec_wire());
        }
    }

    fn read_wire(buf: &'a [u8], pos: usize) -> (r: Option<Self>) {
        let _len = buf.len();
        let ghost bytes = buf@.subrange(pos as int, pos + 5);
        proof {
            assert(bytes.subrange(0, 2) =~= buf@.subrange(pos + 0, pos + 2));
            assert(bytes.subrange(2, 4) =~= buf@.subrange(pos + 2, pos + 4));
            assert(bytes.subrange(4, 5) =~= buf@.subrange(pos + 4, pos + 5));
        }
        let v0 = match <EndpointId as FixedWire>::read_wire(buf, pos) {
            Some(v) => v,
            None => return None,
        };
        let v1 = match <DiscoveryCountStatus as FixedWire>::read_wire(buf, pos + 2) {
            Some(v) => v,
            None => return None,
        };
        let v2 = match <DiscoveryState as FixedWire>::read_wire(buf, pos + 4) {
            Some(v) => v,
            None => return None,
        };
        Some(GetDiscoveryStateResponse { endpoint_id: v0, device_count: v1, discovery_state: v2 })
    }

    proof fn lemma_wire(&self) {
        self.endpoint_id.lemma_wire();
        self.device_count.lemma_wire();
        self.discovery_state.lemma_wire();
        let w = self.spec_wire();
        assert(w.subrange(0, 2) =~= self.endpoint_id.spec_wire());
        assert(w.subrange(2, 4) =~= self.device_count.spec_wire());
        assert(w.subrange(4, 5) =~= self.discovery_state.spec_wire());
        if self.spec_wire_valid() {
            assert(<EndpointId as FixedWire>::spec_read(w.subrange(0, 2)) == Some(self.endpoint_id));
            assert(<DiscoveryCountStatus as FixedWire>::spec_read(w.subrange(2, 4)) == Some(self.device_count));
            assert(<DiscoveryState as FixedWire>::spec_read(w.subrange(4, 5)) == Some(self.discovery_state));
        }
    }
}

impl GetDiscoveryStateResponse {
    /// The parameter data of the value.
    pub open spec fn spec_encoding(&self) -> Seq<u8> {
        self.spec_wire()
    }

    /// The value that parameter data stands for, or why it stands for none.
    pub open spec fn spec_decoded(buf: Seq<u8>) -> Result<Self, ParameterDataError> {
        record_decoded::<Self>(buf)
    }

    /// Whether decoding the parameter data gives the value back.
    pub open spec fn spec_encodable(&self) -> bool {
        self.spec_wire_valid()
    }

    pub fn size_of(&self) -> (n: usize)
        ensures
            n == self.spec_encoding().len(),
            n <= 5,
    {
        proof {
            self.lemma_wire();
        }
        Self::wire_size()
    }

    /// Appends the parameter data to `out`.
    pub fn write_encoding(&self, out: &mut Vec<u8>)
        ensures
            final(out)@ == old(out)@ + self.spec_encoding(),
    {
        self.write_wire(out);
    }

    pub fn encode_parameter_data(&self, buf: &mut [u8]) -> (r: Result<usize, ParameterDataError>)
        ensures
            encoded_into(old(buf)@, final(buf)@, self.spec_encoding(), r),
    {
        encode_record(self, buf)
    }

    pub fn decode_parameter_data(buf: &[u8]) -> (r: Result<Self, ParameterDataError>)
        ensures
            r == Self::spec_decoded(buf@),
    {
        decode_record(buf)
    }

    /// Decoding the parameter data of an encodable value gives it back.
    pub proof fn lemma_roundtrip(&self)
        requires
            self.spec_encodable(),
        ensures
            Self::spec_decoded(self.spec_encoding()) == Ok::<Self, ParameterDataError>(*self),
    {
        lemma_record_roundtrip(*self);
    }
}

#[derive(Clone, Copy, Debug, PartialEq, Eq, Structural)]
pub struct SetDiscoveryStateResponse {
    pub endpoint_id: EndpointId,
}

impl<'a> FixedWire<'a> for SetDiscoveryStateResponse {
    open spec fn spec_size() -> nat {
        2
    }

    open spec fn spec_wire(&self) -> Seq<u8> {
        self.endpoint_id.spec_wire()
    }

    open spec fn spec_read(bytes: Seq<u8>) -> Option<Self> {
        if <EndpointId as FixedWire>::spec_read(bytes.subrange(0, 2)) is Some {
            Some(SetDiscoveryStateResponse {
                endpoint_id: <EndpointId as FixedWire>::spec_read(bytes.subrange(0, 2)).unwrap(),
            })
        } else {
            None
        }
    }

    open spec fn spec_wire_valid(&self) -> bool {
        self.endpoint_id.spec_wire_valid()
    }

    fn wire_size() -> (n: usize) {
        2
    }

    fn write_wire(&self, out: &mut Vec<u8>) {
        let ghost start = out@;
        self.endpoint_id.write_wire(out);
        proof {
            assert(out@ =~= start + self.spec_wire());
        }
    }

    fn read_wire(buf: &'a [u8], pos: usize) -> (r: Option<Self>) {
        let _len = buf.len();
        let ghost bytes = buf@.subrange(pos as int, pos + 2);
        proof {
            assert(bytes.subrange(0, 2) =~= buf@.subrange(pos + 0, pos + 2));
        }
        let v0 = match <EndpointId as FixedWire>::read_wire(buf, pos) {
            Some(v) => v,
            None => return None,
        };
        Some(SetDiscoveryStateResponse { endpoint_id: v0 })
    }

    proof fn lemma_wire(&self) {
        self.endpoint_id.lemma_wire();
        let w = self.spec_wire();
        assert(w.subrange(0, 2) =~= self.endpoint_id.spec_wire());
        if self.spec_wire_valid() {
            assert(<EndpointId as FixedWire>::spec_read(w.subrange(0, 2)) == Some(self.endpoint_id));
        }
    }
}

impl SetDiscoveryStateResponse {
    /// The parameter data of the value.
    pub open spec fn spec_encoding(&self) -> Seq<u8> {
        self.spec_wire()
    }

    /// The value that parameter data stands for, or why it stands for none.
    pub open spec fn spec_decoded(buf: Seq<u8>) -> Result<Self, ParameterDataError> {
        record_decoded::<Self>(buf)
    }

    /// Whether decoding the parameter data gives the value back.
    pub open spec fn spec_encodable(&self) -> bool {
        self.spec_wire_valid()
    }

    pub fn size_of(&self) -> (n: usize)
        ensures
            n == self.spec_encoding().len(),
            n <= 2,
    {
        proof {
            self.lemma_wire();
        }
        Self::wire_size()
    }

    /// Appends the parameter data to `out`.
    pub fn write_encoding(&self, out: &mut Vec<u8>)
        ensures
            final(out)@ == old(out)@ + self.spec_encoding(),
    {
        self.write_wire(out);
    }

    pub fn encode_parameter_data(&self, buf: &mut [u8]) -> (r: Result<usize, ParameterDataError>)
        ensures
            encoded_into(old(buf)@, final(buf)@, self.spec_encoding(), r),
    {
        encode_record(self, buf)
    }

    pub fn decode_parameter_data(buf: &[u8]) -> (r: Result<Self, ParameterDataError>)
        ensures
            r == Self::spec_decoded(buf@),
    {
        decode_record(buf)
    }

    /// Decoding the parameter data of an encodable value gives it back.
    pub proof fn lemma_roundtrip(&self)
        requires
            self.spec_encodable(),
        ensures
            Self::spec_decoded(self.spec_encoding()) == Ok::<Self, ParameterDataError>(*self),
    {
        lemma_record_roundtrip(*self);
    }
}

#[derive(Clone, Copy, Debug, PartialEq, Eq, Structural)]
pub struct GetBackgroundDiscoveryResponse {
    pub endpoint_id: EndpointId,
    pub enabled: bool,
}

impl<'a> FixedWire<'a> for GetBackgroundDiscoveryResponse {
    open spec fn spec_size() -> nat {
        3
    }

    open spec fn spec_wire(&self) -> Seq<u8> {
        self.endpoint_id.spec_wire() + self.enabled.spec_wire()
    }

    open spec fn spec_read(bytes: Seq<u8>) -> Option<Self> {
        if <EndpointId as FixedWire>::spec_read(bytes.subrange(0, 2)) is Some
            && <bool as FixedWire>::spec_read(bytes.subrange(2, 3)) is Some {
            Some(GetBackgroundDiscoveryResponse {
                endpoint_id: <EndpointId as FixedWire>::spec_read(bytes.subrange(0, 2)).unwrap(),
                enabled: <bool as FixedWire>::spec_read(bytes.subrange(2, 3)).unwrap(),
            })
        } else {
            None
        }
    }

    open spec fn spec_wire_valid(&self) -> bool {
        self.endpoint_id.spec_wire_valid() && self.enabled.spec_wire_valid()
    }

    fn wire_size() -> (n: usize) {
        3
    }

    fn write_wire(&self, out: &mut Vec<u8>) {
        let ghost start = out@;
        self.endpoint_id.write_wire(out);
        self.enabled.write_wire(out);
        proof {
            assert(out@ =~= start + self.spec_wire());
        }
    }

    fn read_wire(buf: &'a [u8], pos: usize) -> (r: Option<Self>) {
        let _len = buf.len();
        let ghost bytes = buf@.subrange(pos as int, pos + 3);
        proof {
            assert(bytes.subrange(0, 2) =~= buf@.subrange(pos + 0, pos + 2));
            assert(bytes.subrange(2, 3) =~= buf@.subrange(pos + 2, pos + 3));
        }
        let v0 = match <EndpointId as FixedWire>::read_wire(buf, pos) {
            Some(v) => v,
            None => return None,
        };
        let v1 = match <bool as FixedWire>::read_wire(buf, pos + 2) {
            Some(v) => v,
            None => return None,
        };
        Some(GetBackgroundDiscoveryResponse { endpoint_id: v0, enabled: v1 })
    }

    proof fn lemma_wire(&self) {
        self.endpoint_id.lemma_wire();
        self.enabled.lemma_wire();
        let w = self.spec_wire();
        assert(w.subrange(0, 2) =~= self.endpoint_id.spec_wire());
        assert(w.subrange(2, 3) =~= self.enabled.spec_wire());
        if self.spec_wire_valid() {
            assert(<EndpointId as FixedWire>::spec_read(w.subrange(0, 2)) == Some(self.endpoint_id));
            assert(<bool as FixedWire>::spec_read(w.subrange(2, 3)) == Some(self.enabled));
        }
    }
}

impl GetBackgroundDiscoveryResponse {
    /// The parameter data of the value.
    pub open spec fn spec_encoding(&self) -> Seq<u8> {
        self.spec_wire()
    }

    /// The value that parameter data stands for, or why it stands for none.
    pub open spec fn spec_decoded(buf: Seq<u8>) -> Result<Self, ParameterDataError> {
        record_decoded::<Self>(buf)
    }

    /// Whether decoding the parameter data gives the value back.
    pub open spec fn spec_encodable(&self) -> bool {
        self.spec_wire_valid()
    }

    pub fn size_of(&self) -> (n: usize)
        ensures
            n == self.spec_encoding().len(),
            n <= 3,
    {
        proof {
            self.lemma_wire();
        }
        Self::wire_size()
    }

    /// Appends the parameter data to `out`.
    pub fn write_encoding(&self, out: &mut Vec<u8>)
        ensures
            final(out)@ == old(out)@ + self.spec_encoding(),
    {
        self.write_wire(out);
    }

    pub fn encode_parameter_data(&self, buf: &mut [u8]) -> (r: Result<usize, ParameterDataError>)
        ensures
            encoded_into(old(buf)@, final(buf)@, self.spec_encoding(), r),
    {
        encode_record(self, buf)
    }

    pub fn decode_parameter_data(buf: &[u8]) -> (r: Result<Self, ParameterDataError>)
        ensures
            r == Self::spec_decoded(buf@),
    {
        decode_record(buf)
    }

    /// Decoding the parameter data of an encodable value gives it back.
    pub proof fn lemma_roundtrip(&self)
        requires
            self.spec_encodable(),
        ensures
            Self::spec_decoded(self.spec_encoding()) == Ok::<Self, ParameterDataError>(*self),
    {
        lemma_record_roundtrip(*self);
    }
}

#[derive(Clone, Copy, Debug, PartialEq, Eq, Structural)]
pub struct SetBackgroundDiscoveryResponse {
    pub endpoint_id: EndpointId,
}

impl<'a> FixedWire<'a> for SetBackgroundDiscoveryResponse {
    open spec fn spec_size() -> nat {
        2
    }

    open spec fn spec_wire(&self) -> Seq<u8> {
        self.endpoint_id.spec_wire()
    }

    open spec fn spec_read(bytes: Seq<u8>) -> Option<Self> {
        if <EndpointId as FixedWire>::spec_read(bytes.subrange(0, 2)) is Some {
            Some(SetBackgroundDiscoveryResponse {
                endpoint_id: <EndpointId as FixedWire>::spec_read(bytes.subrange(0, 2)).unwrap(),
            })
        } else {
            None
        }
    }

    open spec fn spec_wire_valid(&self) -> bool {
        self.endpoint_id.spec_wire_valid()
    }

    fn wire_size() -> (n: usize) {
        2
    }

    fn write_wire(&self, out: &mut Vec<u8>) {
        let ghost start = out@;
        self.endpoint_id.write_wire(out);
        proof {
            assert(out@ =~= start + self.spec_wire());
        }
    }

    fn read_wire(buf: &'a [u8], pos: usize) -> (r: Option<Self>) {
        let _len = buf.len();
        let ghost bytes = buf@.subrange(pos as int, pos + 2);
        proof {
            assert(bytes.subrange(0, 2) =~= buf@.subrange(pos + 0, pos + 2));
        }
        let v0 = match <EndpointId as FixedWire>::read_wire(buf, pos) {
            Some(v) => v,
            None => return None,
        };
        Some(SetBackgroundDiscoveryResponse { endpoint_id: v0 })
    }

    proof fn lemma_wire(&self) {
        self.endpoint_id.lemma_wire();
        let w = self.spec_wire();
        assert(w.subrange(0, 2) =~= self.endpoint_id.spec_wire());
        if self.spec_wire_valid() {
            assert(<EndpointId as FixedWire>::spec_read(w.subrange(0, 2)) == Some(self.endpoint_id));
        }
    }
}

impl SetBackgroundDiscoveryResponse {
    /// The parameter data of the value.
    pub open spec fn spec_encoding(&self) -> Seq<u8> {
        self.spec_wire()
    }

    /// The value that parameter data stands for, or why it stands for none.
    pub open spec fn spec_decoded(buf: Seq<u8>) -> Result<Self, ParameterDataError> {
        record_decoded::<Self>(buf)
    }

    /// Whether decoding the parameter data gives the value back.
    pub open spec fn spec_encodable(&self) -> bool {
        self.spec_wire_valid()
    }

    pub fn size_of(&self) -> (n: usize)
        ensures
            n == self.spec_encoding().len(),
            n <= 2,
    {
        proof {
            self.lemma_wire();
        }
        Self::wire_size()
    }

    /// Appends the parameter data to `out`.
    pub fn write_encoding(&self, out: &mut Vec<u8>)
        ensures
            final(out)@ == old(out)@ + self.spec_encoding(),
    {
        self.write_wire(out);
    }

    pub fn encode_parameter_data(&self, buf: &mut [u8]) -> (r: Result<usize, ParameterDataError>)
        ensures
            encoded_into(old(buf)@, final(buf)@, self.spec_encoding(), r),
    {
        encode_record(self, buf)
    }

    pub fn decode_parameter_data(buf: &[u8]) -> (r: Result<Self, ParameterDataError>)
        ensures
            r == Self::spec_decoded(buf@),
    {
        decode_record(buf)
    }

    /// Decoding the parameter data of an encodable value gives it back.
    pub proof fn lemma_roundtrip(&self)
        requires
            self.spec_encodable(),
        ensures
            Self::spec_decoded(self.spec_encoding()) == Ok::<Self, ParameterDataError>(*self),
    {
        lemma_record_roundtrip(*self);
    }
}

#[derive(Clone, Copy, Debug, PartialEq, Eq, Structural)]
pub struct GetEndpointTimingResponse {
    pub endpoint_id: EndpointId,
    pub current_setting_id: u8,
    pub setting_count: u8,
}

impl<'a> FixedWire<'a> for GetEndpointTimingResponse {
    open spec fn spec_size() -> nat {
        4
    }

    open spec fn spec_wire(&self) -> Seq<u8> {
        self.endpoint_id.spec_wire() + self.current_setting_id.spec_wire() + self.setting_count.spec_wire()
    }

    open spec fn spec_read(bytes: Seq<u8>) -> Option<Self> {
        if <EndpointId as FixedWire>::spec_read(bytes.subrange(0, 2)) is Some
            && <u8 as FixedWire>::spec_read(bytes.subrange(2, 3)) is Some
            && <u8 as FixedWire>::spec_read(bytes.subrange(3, 4)) is Some {
            Some(GetEndpointTimingResponse {
                endpoint_id: <EndpointId as FixedWire>::spec_read(bytes.subrange(0, 2)).unwrap(),
                current_setting_id: <u8 as FixedWire>::spec_read(bytes.subrange(2, 3)).unwrap(),
                setting_count: <u8 as FixedWire>::spec_read(bytes.subrange(3, 4)).unwrap(),
            })
        } else {
            None
        }
    }

    open spec fn spec_wire_valid(&self) -> bool {
        self.endpoint_id.spec_wire_valid() && self.current_setting_id.spec_wire_valid() && self.setting_count.spec_wire_valid()
    }

    fn wire_size() -> (n: usize) {
        4
    }

    fn write_wire(&self, out: &mut Vec<u8>) {
        let ghost start = out@;
        self.endpoint_id.write_wire(out);
        self.current_setting_id.write_wire(out);
        self.setting_count.write_wire(out);
        proof {
            assert(out@ =~= start + self.spec_wire());
        }
    }

    fn read_wire(buf: &'a [u8], pos: usize) -> (r: Option<Self>) {
        let _len = buf.len();
        let ghost bytes = buf@.subrange(pos as int, pos + 4);
        proof {
            assert(bytes.subrange(0, 2) =~= buf@.subrange(pos + 0, pos + 2));
            assert(bytes.subrange(2, 3) =~= buf@.subrange(pos + 2, pos + 3));
            assert(bytes.subrange(3, 4) =~= buf@.subrange(pos + 3, pos + 4));
        }
        let v0 = match <EndpointId as FixedWire>::read_wire(buf, pos) {
            Some(v) => v,
            None => return None,
        };
        let v1 = match <u8 as FixedWire>::read_wire(buf, pos + 2) {
            Some(v) => v,
            None => return None,
        };
        let v2 = match <u8 as FixedWire>::read_wire(buf, pos + 3) {
            Some(v) => v,
            None => return None,
        };
        Some(GetEndpointTimingResponse { endpoint_id: v0, current_setting_id: v1, setting_count: v2 })
    }

    proof fn lemma_wire(&self) {
        self.endpoint_id.lemma_wire();
        self.current_setting_id.lemma_wire();
        self.setting_count.lemma_wire();
        let w = self.spec_wire();
        assert(w.subrange(0, 2) =~= self.endpoint_id.spec_wire());
        assert(w.subrange(2, 3) =~= self.current_setting_id.spec_wire());
        assert(w.subrange(3, 4) =~= self.setting_count.spec_wire());
        if self.spec_wire_valid() {
            assert(<EndpointId as FixedWire>::spec_read(w.subrange(0, 2)) == Some(self.endpoint_id));
            assert(<u8 as FixedWire>::spec_read(w.subrange(2, 3)) == Some(self.current_setting_id));
            assert(<u8 as FixedWire>::spec_read(w.subrange(3, 4)) == Some(self.setting_count));
        }
    }
}

impl GetEndpointTimingResponse {
    /// The parameter data of the value.
    pub open spec fn spec_encoding(&self) -> Seq<u8> {
        self.spec_wire()
    }

    /// The value that parameter data stands for, or why it stands for none.
    pub open spec fn spec_decoded(buf: Seq<u8>) -> Result<Self, ParameterDataError> {
        record_decoded::<Self>(buf)
    }

    /// Whether decoding the parameter data gives the value back.
    pub open spec fn spec_encodable(&self) -> bool {
        self.spec_wire_valid()
    }

    pub fn size_of(&self) -> (n: usize)
        ensures
            n == self.spec_encoding().len(),
            n <= 4,
    {
        proof {
            self.lemma_wire();
        }
        Self::wire_size()
    }

    /// Appends the parameter data to `out`.
    pub fn write_encoding(&self, out: &mut Vec<u8>)
        ensures
            final(out)@ == old(out)@ + self.spec_encoding(),
    {
        self.write_wire(out);
    }

    pub fn encode_parameter_data(&self, buf: &mut [u8]) -> (r: Result<usize, ParameterDataError>)
        ensures
            encoded_into(old(buf)@, final(buf)@, self.spec_encoding(), r),
    {
        encode_record(self, buf)
    }

    pub fn decode_parameter_data(buf: &[u8]) -> (r: Result<Self, ParameterDataError>)
        ensures
            r == Self::spec_decoded(buf@),
    {
        decode_record(buf)
    }

    /// Decoding the parameter data of an encodable value gives it back.
    pub proof fn lemma_roundtrip(&self)
        requires
            self.spec_encodable(),
        ensures
            Self::spec_decoded(self.spec_encoding()) == Ok::<Self, ParameterDataError>(*self),
    {
        lemma_record_roundtrip(*self);
    }
}

#[derive(Clone, Copy, Debug, PartialEq, Eq, Structural)]
pub struct SetEndpointTimingResponse {
    pub endpoint_id: EndpointId,
}

impl<'a> FixedWire<'a> for SetEndpointTimingResponse {
    open spec fn spec_size() -> nat {
        2
    }

    open spec fn spec_wire(&self) -> Seq<u8> {
        self.endpoint_id.spec_wire()
    }

    open spec fn spec_read(bytes: Seq<u8>) -> Option<Self> {
        if <EndpointId as FixedWire>::spec_read(bytes.subrange(0, 2)) is Some {
            Some(SetEndpointTimingResponse {
                endpoint_id: <EndpointId as FixedWire>::spec_read(bytes.subrange(0, 2)).unwrap(),
            })
        } else {
            None
        }
    }

    open spec fn spec_wire_valid(&self) -> bool {
        self.endpoint_id.spec_wire_valid()
    }

    fn wire_size() -> (n: usize) {
        2
    }

    fn write_wire(&self, out: &mut Vec<u8>) {
        let ghost start = out@;
        self.endpoint_id.write_wire(out);
        proof {
            assert(out@ =~= start + self.spec_wire());
        }
    }

    fn read_wire(buf: &'a [u8], pos: usize) -> (r: Option<Self>) {
        let _len = buf.len();
        let ghost bytes = buf@.subrange(pos as int, pos + 2);
        proof {
            assert(bytes.subrange(0, 2) =~= buf@.subrange(pos + 0, pos + 2));
        }
        let v0 = match <EndpointId as FixedWire>::read_wire(buf, pos) {
            Some(v) => v,
            None => return None,
        };
        Some(SetEndpointTimingResponse { endpoint_id: v0 })
    }

    proof fn lemma_wire(&self) {
        self.endpoint_id.lemma_wire();
        let w = self.spec_wire();
        assert(w.subrange(0, 2) =~= self.endpoint_id.spec_wire());
        if self.spec_wire_valid() {
            assert(<EndpointId as FixedWire>::spec_read(w.subrange(0, 2)) == Some(self.endpoint_id));
        }
    }
}

impl SetEndpointTimingResponse {
    /// The parameter data of the value.
    pub open spec fn spec_encoding(&self) -> Seq<u8> {
        self.spec_wire()
    }

    /// The value that parameter data stands for, or why it stands for none.
    pub open spec fn spec_decoded(buf: Seq<u8>) -> Result<Self, ParameterDataError> {
        record_decoded::<Self>(buf)
    }

    /// Whether decoding the parameter data gives the value back.
    pub open spec fn spec_encodable(&self) -> bool {
        self.spec_wire_valid()
    }

    pub fn size_of(&self) -> (n: usize)
        ensures
            n == self.spec_encoding().len(),
            n <= 2,
    {
        proof {
            self.lemma_wire();
        }
        Self::wire_size()
    }

    /// Appends the parameter data to `out`.
    pub fn write_encoding(&self, out: &mut Vec<u8>)
        ensures
            final(out)@ == old(out)@ + self.spec_encoding(),
    {
        self.write_wire(out);
    }

    pub fn encode_parameter_data(&self, buf: &mut [u8]) -> (r: Result<usize, ParameterDataError>)
        ensures
            encoded_into(old(buf)@, final(buf)@, self.spec_encoding(), r),
    {
        encode_record(self, buf)
    }

    pub fn decode_parameter_data(buf: &[u8]) -> (r: Result<Self, ParameterDataError>)
        ensures
            r == Self::spec_decoded(buf@),
    {
        decode_record(buf)
    }

    /// Decoding the parameter data of an encodable value gives it back.
    pub proof fn lemma_roundtrip(&self)
        requires
            self.spec_encodable(),
        ensures
            Self::spec_decoded(self.spec_encoding()) == Ok::<Self, ParameterDataError>(*self),
    {
        lemma_record_roundtrip(*self);
    }
}

#[derive(Clone, Copy, Debug, PartialEq)]
pub struct GetEndpointTimingDescriptionResponse {
    pub setting_id: u8,
    pub description: EndpointTimingDescription,
}

impl GetEndpointTimingDescriptionResponse {
    /// The parameter data of the value.
    pub open spec fn spec_encoding(&self) -> Seq<u8> {
        self.setting_id.spec_wire() + self.description.spec_encode()
    }

    /// The value that parameter data stands for, or why it stands for none.
    pub open spec fn spec_decoded(buf: Seq<u8>) -> Result<Self, ParameterDataError> {
        if buf.len() < 1 {
            Err(too_short(buf.len(), 1))
        } else if !(<u8 as FixedWire>::spec_read(buf.subrange(0, 1)) is Some) {
            Err(ParameterDataError::MalformedData)
        } else {
            let rest = buf.subrange(1, buf.len() as int);
            match EndpointTimingDescription::spec_decode(rest) {
                Ok(t) => Ok(GetEndpointTimingDescriptionResponse { setting_id: <u8 as FixedWire>::spec_read(buf.subrange(0, 1)).unwrap(), description: t }),
                Err(e) => Err(e),
            }
        }
    }

    /// Whether decoding the parameter data gives the value back.
    pub open spec fn spec_encodable(&self) -> bool {
        self.setting_id.spec_wire_valid() && self.description.spec_encodable()
    }

    /// Appends the parameter data to `out`.
    pub fn write_encoding(&self, out: &mut Vec<u8>)
        ensures
            final(out)@ == old(out)@ + self.spec_encoding(),
    {
        let ghost start = out@;
        self.setting_id.write_wire(out);
        self.description.write_encoded(out);
        proof {
            assert(out@ =~= start + self.spec_encoding());
        }
    }

    pub fn size_of(&self) -> (n: usize)
        ensures
            n == self.spec_encoding().len(),
            n <= 33,
    {
        proof {
            self.setting_id.lemma_wire();
            use_type_invariant(&self.description);
            self.description.lemma_encode_len();
        }
        let mut out: Vec<u8> = Vec::new();
        self.write_encoding(&mut out);
        proof {
            assert(out@ =~= self.spec_encoding());
        }
        out.len()
    }

    pub fn encode_parameter_data(&self, buf: &mut [u8]) -> (r: Result<usize, ParameterDataError>)
        ensures
            encoded_into(old(buf)@, final(buf)@, self.spec_encoding(), r),
    {
        let mut out: Vec<u8> = Vec::new();
        self.write_encoding(&mut out);
        proof {
            assert(out@ =~= self.spec_encoding());
        }
        copy_encoded(buf, out.as_slice())
    }

    pub fn decode_parameter_data(buf: &[u8]) -> (r: Result<Self, ParameterDataError>)
        ensures
            r == Self::spec_decoded(buf@),
    {
        if buf.len() < 1 {
            return Err(ParameterDataError::BufferTooSmall { provided: buf.len(), required: 1 });
        }
        let v0 = match <u8 as FixedWire>::read_wire(buf, 0) {
            Some(v) => v,
            None => return Err(ParameterDataError::MalformedData),
        };
        match EndpointTimingDescription::decode_parameter_data(vstd::slice::slice_subrange(buf, 1, buf.len())) {
            Ok(t) => Ok(GetEndpointTimingDescriptionResponse { setting_id: v0, description: t }),
            Err(e) => Err(e),
        }
    }

    /// Decoding the parameter data of an encodable value gives it back.
    pub proof fn lemma_roundtrip(&self)
        requires
            self.spec_encodable(),
        ensures
            Self::spec_decoded(self.spec_encoding()) == Ok::<Self, ParameterDataError>(*self),
    {
        let e = self.spec_encoding();
        self.setting_id.lemma_wire();
        assert(e.subrange(0, 1) =~= self.setting_id.spec_wire());
        assert(e.subrange(1, e.len() as int) =~= self.description.spec_encode());
        self.description.lemma_roundtrip();
    }
}

#[derive(Clone, Copy, Debug, PartialEq)]
pub struct GetEndpointRespondersResponse {
    pub endpoint_id: EndpointId,
    pub list_change_number: u32,
    pub responders: ResponderList,
}

impl GetEndpointRespondersResponse {
    /// The parameter data of the value.
    pub open spec fn spec_encoding(&self) -> Seq<u8> {
        self.endpoint_id.spec_wire() + self.list_change_number.spec_wire() + self.responders.spec_encode_items()
    }

    /// The value that parameter data stands for, or why it stands for none.
    pub open spec fn spec_decoded(buf: Seq<u8>) -> Result<Self, ParameterDataError> {
        if buf.len() < 6 {
            Err(too_short(buf.len(), 6))
        } else if !(<EndpointId as FixedWire>::spec_read(buf.subrange(0, 2)) is Some && <u32 as FixedWire>::spec_read(buf.subrange(2, 6)) is Some) {
            Err(ParameterDataError::MalformedData)
        } else {
            let rest = buf.subrange(6, buf.len() as int);
            match ResponderList::spec_decode_items(rest) {
                Ok(t) => Ok(GetEndpointRespondersResponse { endpoint_id: <EndpointId as FixedWire>::spec_read(buf.subrange(0, 2)).unwrap(), list_change_number: <u32 as FixedWire>::spec_read(buf.subrange(2, 6)).unwrap(), responders: t }),
                Err(e) => Err(e),
            }
        }
    }

    /// Whether decoding the parameter data gives the value back.
    pub open spec fn spec_encodable(&self) -> bool {
        self.endpoint_id.spec_wire_valid() && self.list_change_number.spec_wire_valid() && self.responders.spec_items_encodable()
    }

    /// Appends the parameter data to `out`.
    pub fn write_encoding(&self, out: &mut Vec<u8>)
        ensures
            final(out)@ == old(out)@ + self.spec_encoding(),
    {
        let ghost start = out@;
        self.endpoint_id.write_wire(out);
        self.list_change_number.write_wire(out);
        self.responders.write_items_to(out);
        proof {
            assert(out@ =~= start + self.spec_encoding());
        }
    }

    pub fn size_of(&self) -> (n: usize)
        ensures
            n == self.spec_encoding().len(),
            n <= 228,
    {
        proof {
            self.endpoint_id.lemma_wire();
            self.list_change_number.lemma_wire();
            use_type_invariant(&self.responders);
            self.responders.lemma_encode_items_len();
        }
        let mut out: Vec<u8> = Vec::new();
        self.write_encoding(&mut out);
        proof {
            assert(out@ =~= self.spec_encoding());
        }
        out.len()
    }

    pub fn encode_parameter_data(&self, buf: &mut [u8]) -> (r: Result<usize, ParameterDataError>)
        ensures
            encoded_into(old(buf)@, final(buf)@, self.spec_encoding(), r),
    {
        let mut out: Vec<u8> = Vec::new();
        self.write_encoding(&mut out);
        proof {
            assert(out@ =~= self.spec_encoding());
        }
        copy_encoded(buf, out.as_slice())
    }

    pub fn decode_parameter_data(buf: &[u8]) -> (r: Result<Self, ParameterDataError>)
        ensures
            r == Self::spec_decoded(buf@),
    {
        if buf.len() < 6 {
            return Err(ParameterDataError::BufferTooSmall { provided: buf.len(), required: 6 });
        }
        let v0 = match <EndpointId as FixedWire>::read_wire(buf, 0) {
            Some(v) => v,
            None => return Err(ParameterDataError::MalformedData),
        };
        let v1 = match <u32 as FixedWire>::read_wire(buf, 2) {
            Some(v) => v,
            None => return Err(ParameterDataError::MalformedData),
        };
        match ResponderList::decode_items(buf, 6) {
            Ok(t) => Ok(GetEndpointRespondersResponse { endpoint_id: v0, list_change_number: v1, responders: t }),
            Err(e) => Err(e),
        }
    }

    /// Decoding the parameter data of an encodable value gives it back.
    pub proof fn lemma_roundtrip(&self)
        requires
            self.spec_encodable(),
        ensures
            Self::spec_decoded(self.spec_encoding()) == Ok::<Self, ParameterDataError>(*self),
    {
        let e = self.spec_encoding();
        self.endpoint_id.lemma_wire();
        self.list_change_number.lemma_wire();
        assert(e.subrange(0, 2) =~= self.endpoint_id.spec_wire());
        assert(e.subrange(2, 6) =~= self.list_change_number.spec_wire());
        assert(e.subrange(6, e.len() as int) =~= self.responders.spec_encode_items());
        self.responders.lemma_items_roundtrip();
    }
}

#[derive(Clone, Copy, Debug, PartialEq, Eq, Structural)]
pub struct GetEndpointResponderListChangeResponse {
    pub endpoint_id: EndpointId,
    pub list_change_number: u32,
}

impl<'a> FixedWire<'a> for GetEndpointResponderListChangeResponse {
    open spec fn spec_size() -> nat {
        6
    }

    open spec fn spec_wire(&self) -> Seq<u8> {
        self.endpoint_id.spec_wire() + self.list_change_number.spec_wire()
    }

    open spec fn spec_read(bytes: Seq<u8>) -> Option<Self> {
        if <EndpointId as FixedWire>::spec_read(bytes.subrange(0, 2)) is Some
            && <u32 as FixedWire>::spec_read(bytes.subrange(2, 6)) is Some {
            Some(GetEndpointResponderListChangeResponse {
                endpoint_id: <EndpointId as FixedWire>::spec_read(bytes.subrange(0, 2)).unwrap(),
                list_change_number: <u32 as FixedWire>::spec_read(bytes.subrange(2, 6)).unwrap(),
            })
        } else {
            None
        }
    }

    open spec fn spec_wire_valid(&self) -> bool {
        self.endpoint_id.spec_wire_valid() && self.list_change_number.spec_wire_valid()
    }

    fn wire_size() -> (n: usize) {
        6
    }

    fn write_wire(&self, out: &mut Vec<u8>) {
        let ghost start = out@;
        self.endpoint_id.write_wire(out);
        self.list_change_number.write_wire(out);
        proof {
            assert(out@ =~= start + self.spec_wire());
        }
    }

    fn read_wire(buf: &'a [u8], pos: usize) -> (r: Option<Self>) {
        let _len = buf.len();
        let ghost bytes = buf@.subrange(pos as int, pos + 6);
        proof {
            assert(bytes.subrange(0, 2) =~= buf@.subrange(pos + 0, pos + 2));
            assert(bytes.subrange(2, 6) =~= buf@.subrange(pos + 2, pos + 6));
        }
        let v0 = match <EndpointId as FixedWire>::read_wire(buf, pos) {
            Some(v) => v,
            None => return None,
        };
        let v1 = match <u32 as FixedWire>::read_wire(buf, pos + 2) {
            Some(v) => v,
            None => return None,
        };
        Some(GetEndpointResponderListChangeResponse { endpoint_id: v0, list_change_number: v1 })
    }

    proof fn lemma_wire(&self) {
        self.endpoint_id.lemma_wire();
        self.list_change_number.lemma_wire();
        let w = self.spec_wire();
        assert(w.subrange(0, 2) =~= self.endpoint_id.spec_wire());
        assert(w.subrange(2, 6) =~= self.list_change_number.spec_wire());
        if self.spec_wire_valid() {
            assert(<EndpointId as FixedWire>::spec_read(w.subrange(0, 2)) == Some(self.endpoint_id));
            assert(<u32 as FixedWire>::spec_read(w.subrange(2, 6)) == Some(self.list_change_number));
        }
    }
}

impl GetEndpointResponderListChangeResponse {
    /// The parameter data of the value.
    pub open spec fn spec_encoding(&self) -> Seq<u8> {
        self.spec_wire()
    }

    /// The value that parameter data stands for, or why it stands for none.
    pub open spec fn spec_decoded(buf: Seq<u8>) -> Result<Self, ParameterDataError> {
        record_decoded::<Self>(buf)
    }

    /// Whether decoding the parameter data gives the value back.
    pub open spec fn spec_encodable(&self) -> bool {
        self.spec_wire_valid()
    }

    pub fn size_of(&self) -> (n: usize)
        ensures
            n == self.spec_encoding().len(),
            n <= 6,
    {
        proof {
            self.lemma_wire();
        }
        Self::wire_size()
    }

    /// Appends the parameter data to `out`.
    pub fn write_encoding(&self, out: &mut Vec<u8>)
        ensures
            final(out)@ == old(out)@ + self.spec_encoding(),
    {
        self.write_wire(out);
    }

    pub fn encode_parameter_data(&self, buf: &mut [u8]) -> (r: Result<usize, ParameterDataError>)
        ensures
            encoded_into(old(buf)@, final(buf)@, self.spec_encoding(), r),
    {
        encode_record(self, buf)
    }

    pub fn decode_parameter_data(buf: &[u8]) -> (r: Result<Self, ParameterDataError>)
        ensures
            r == Self::spec_decoded(buf@),
    {
        decode_record(buf)
    }

    /// Decoding the parameter data of an encodable value gives it back.
    pub proof fn lemma_roundtrip(&self)
        requires
            self.spec_encodable(),
        ensures
            Self::spec_decoded(self.spec_encoding()) == Ok::<Self, ParameterDataError>(*self),
    {
        lemma_record_roundtrip(*self);
    }
}

#[derive(Clone, Copy, Debug, PartialEq, Eq, Structural)]
pub struct GetBindingControlFieldsResponse {
    pub endpoint_id: EndpointId,
    pub uid: DeviceUID,
    pub control_field: u16,
    pub binding_uid: DeviceUID,
}

impl<'a> FixedWire<'a> for GetBindingControlFieldsResponse {
    open spec fn spec_size() -> nat {
        16
    }

    open spec fn spec_wire(&self) -> Seq<u8> {
        self.endpoint_id.spec_wire() + self.uid.spec_wire() + self.control_field.spec_wire() + self.binding_uid.spec_wire()
    }

    open spec fn spec_read(bytes: Seq<u8>) -> Option<Self> {
        if <EndpointId as FixedWire>::spec_read(bytes.subrange(0, 2)) is Some
            && <DeviceUID as FixedWire>::spec_read(bytes.subrange(2, 8)) is Some
            && <u16 as FixedWire>::spec_read(bytes.subrange(8, 10)) is Some
            && <DeviceUID as FixedWire>::spec_read(bytes.subrange(10, 16)) is Some {
            Some(GetBindingControlFieldsResponse {
                endpoint_id: <EndpointId as FixedWire>::spec_read(bytes.subrange(0, 2)).unwrap(),
                uid: <DeviceUID as FixedWire>::spec_read(bytes.subrange(2, 8)).unwrap(),
                control_field: <u16 as FixedWire>::spec_read(bytes.subrange(8, 10)).unwrap(),
                binding_uid: <DeviceUID as FixedWire>::spec_read(bytes.subrange(10, 16)).unwrap(),
            })
        } else {
            None
        }
    }

    open spec fn spec_wire_valid(&self) -> bool {
        self.endpoint_id.spec_wire_valid() && self.uid.spec_wire_valid() && self.control_field.spec_wire_valid() && self.binding_uid.spec_wire_valid()
    }

    fn wire_size() -> (n: usize) {
        16
    }

    fn write_wire(&self, out: &mut Vec<u8>) {
        let ghost start = out@;
        self.endpoint_id.write_wire(out);
        self.uid.write_wire(out);
        self.control_field.write_wire(out);
        self.binding_uid.write_wire(out);
        proof {
            assert(out@ =~= start + self.spec_wire());
        }
    }

    fn read_wire(buf: &'a [u8], pos: usize) -> (r: Option<Self>) {
        let _len = buf.len();
        let ghost bytes = buf@.subrange(pos as int, pos + 16);
        proof {
            assert(bytes.subrange(0, 2) =~= buf@.subrange(pos + 0, pos + 2));
            assert(bytes.subrange(2, 8) =~= buf@.subrange(pos + 2, pos + 8));
            assert(bytes.subrange(8, 10) =~= buf@.subrange(pos + 8, pos + 10));
            assert(bytes.subrange(10, 16) =~= buf@.subrange(pos + 10, pos + 16));
        }
        let v0 = match <EndpointId as FixedWire>::read_wire(buf, pos) {
            Some(v) => v,
            None => return None,
        };
        let v1 = match <DeviceUID as FixedWire>::read_wire(buf, pos + 2) {
            Some(v) => v,
            None => return None,
        };
        let v2 = match <u16 as FixedWire>::read_wire(buf, pos + 8) {
            Some(v) => v,
            None => return None,
        };
        let v3 = match <DeviceUID as FixedWire>::read_wire(buf, pos + 10) {
            Some(v) => v,
            None => return None,
        };
        Some(GetBindingControlFieldsResponse { endpoint_id: v0, uid: v1, control_field: v2, binding_uid: v3 })
    }

    proof fn lemma_wire(&self) {
        self.endpoint_id.lemma_wire();
        self.uid.lemma_wire();
        self.control_field.lemma_wire();
        self.binding_uid.lemma_wire();
        let w = self.spec_wire();
        assert(w.subrange(0, 2) =~= self.endpoint_id.spec_wire());
        assert(w.subrange(2, 8) =~= self.uid.spec_wire());
        assert(w.subrange(8, 10) =~= self.control_field.spec_wire());
        assert(w.subrange(10, 16) =~= self.binding_uid.spec_wire());
        if self.spec_wire_valid() {
            assert(<EndpointId as FixedWire>::spec_read(w.subrange(0, 2)) == Some(self.endpoint_id));
            assert(<DeviceUID as FixedWire>::spec_read(w.subrange(2, 8)) == Some(self.uid));
            assert(<u16 as FixedWire>::spec_read(w.subrange(8, 10)) == Some(self.control_field));
            assert(<DeviceUID as FixedWire>::spec_read(w.subrange(10, 16)) == Some(self.binding_uid));
        }
    }
}

impl GetBindingControlFieldsResponse {
    /// The parameter data of the value.
    pub open spec fn spec_encoding(&self) -> Seq<u8> {
        self.spec_wire()
    }

    /// The value that parameter data stands for, or why it stands for none.
    pub open spec fn spec_decoded(buf: Seq<u8>) -> Result<Self, ParameterDataError> {
        record_decoded::<Self>(buf)
    }

    /// Whether decoding the parameter data gives the value back.
    pub open spec fn spec_encodable(&self) -> bool {
        self.spec_wire_valid()
    }

    pub fn size_of(&self) -> (n: usize)
        ensures
            n == self.spec_encoding().len(),
            n <= 16,
    {
        proof {
            self.lemma_wire();
        }
        Self::wire_size()
    }

    /// Appends the parameter data to `out`.
    pub fn write_encoding(&self, out: &mut Vec<u8>)
        ensures
            final(out)@ == old(out)@ + self.spec_encoding(),
    {
        self.write_wire(out);
    }

    pub fn encode_parameter_data(&self, buf: &mut [u8]) -> (r: Result<usize, ParameterDataError>)
        ensures
            encoded_into(old(buf)@, final(buf)@, self.spec_encoding(), r),
    {
        encode_record(self, buf)
    }

    pub fn decode_parameter_data(buf: &[u8]) -> (r: Result<Self, ParameterDataError>)
        ensures
            r == Self::spec_decoded(buf@),
    {
        decode_record(buf)
    }

    /// Decoding the parameter data of an encodable value gives it back.
    pub proof fn lemma_roundtrip(&self)
        requires
            self.spec_encodable(),
        ensures
            Self::spec_decoded(self.spec_encoding()) == Ok::<Self, ParameterDataError>(*self),
    {
        lemma_record_roundtrip(*self);
    }
}

#[derive(Clone, Copy, Debug, PartialEq, Eq, Structural)]
pub struct GetBackgroundQueuedStatusPolicyResponse {
    pub current_policy_id: u8,
    pub policy_count: u8,
}

impl<'a> FixedWire<'a> for GetBackgroundQueuedStatusPolicyResponse {
    open spec fn spec_size() -> nat {
        2
    }

    open spec fn spec_wire(&self) -> Seq<u8> {
        self.current_policy_id.spec_wire() + self.policy_count.spec_wire()
    }

    open spec fn spec_read(bytes: Seq<u8>) -> Option<Self> {
        if <u8 as FixedWire>::spec_read(bytes.subrange(0, 1)) is Some
            && <u8 as FixedWire>::spec_read(bytes.subrange(1, 2)) is Some {
            Some(GetBackgroundQueuedStatusPolicyResponse {
                current_policy_id: <u8 as FixedWire>::spec_read(bytes.subrange(0, 1)).unwrap(),
                policy_count: <u8 as FixedWire>::spec_read(bytes.subrange(1, 2)).unwrap(),
            })
        } else {
            None
        }
    }

    open spec fn spec_wire_valid(&self) -> bool {
        self.current_policy_id.spec_wire_valid() && self.policy_count.spec_wire_valid()
    }

    fn wire_size() -> (n: usize) {
        2
    }

    fn write_wire(&self, out: &mut Vec<u8>) {
        let ghost start = out@;
        self.current_policy_id.write_wire(out);
        self.policy_count.write_wire(out);
        proof {
            assert(out@ =~= start + self.spec_wire());
        }
    }

    fn read_wire(buf: &'a [u8], pos: usize) -> (r: Option<Self>) {
        let _len = buf.len();
        let ghost bytes = buf@.subrange(pos as int, pos + 2);
        proof {
            assert(bytes.subrange(0, 1) =~= buf@.subrange(pos + 0, pos + 1));
            assert(bytes.subrange(1, 2) =~= buf@.subrange(pos + 1, pos + 2));
        }
        let v0 = match <u8 as FixedWire>::read_wire(buf, pos) {
            Some(v) => v,
            None => return None,
        };
        let v1 = match <u8 as FixedWire>::read_wire(buf, pos + 1) {
            Some(v) => v,
            None => return None,
        };
        Some(GetBackgroundQueuedStatusPolicyResponse { current_policy_id: v0, policy_count: v1 })
    }

    proof fn lemma_wire(&self) {
        self.current_policy_id.lemma_wire();
        self.policy_count.lemma_wire();
        let w = self.spec_wire();
        assert(w.subrange(0, 1) =~= self.current_policy_id.spec_wire());
        assert(w.subrange(1, 2) =~= self.policy_count.spec_wire());
        if self.spec_wire_valid() {
            assert(<u8 as FixedWire>::spec_read(w.subrange(0, 1)) == Some(self.current_policy_id));
            assert(<u8 as FixedWire>::spec_read(w.subrange(1, 2)) == Some(self.policy_count));
        }
    }
}

impl GetBackgroundQueuedStatusPolicyResponse {
    /// The parameter data of the value.
    pub open spec fn spec_encoding(&self) -> Seq<u8> {
        self.spec_wire()
    }

    /// The value that parameter data stands for, or why it stands for none.
    pub open spec fn spec_decoded(buf: Seq<u8>) -> Result<Self, ParameterDataError> {
        record_decoded::<Self>(buf)
    }

    /// Whether decoding the parameter data gives the value back.
    pub open spec fn spec_encodable(&self) -> bool {
        self.spec_wire_valid()
    }

    pub fn size_of(&self) -> (n: usize)
        ensures
            n == self.spec_encoding().len(),
            n <= 2,
    {
        proof {
            self.lemma_wire();
        }
        Self::wire_size()
    }

    /// Appends the parameter data to `out`.
    pub fn write_encoding(&self, out: &mut Vec<u8>)
        ensures
            final(out)@ == old(out)@ + self.spec_encoding(),
    {
        self.write_wire(out);
    }

    pub fn encode_parameter_data(&self, buf: &mut [u8]) -> (r: Result<usize, ParameterDataError>)
        ensures
            encoded_into(old(buf)@, final(buf)@, self.spec_encoding(), r),
    {
        encode_record(self, buf)
    }

    pub fn decode_parameter_data(buf: &[u8]) -> (r: Result<Self, ParameterDataError>)
        ensures
            r == Self::spec_decoded(buf@),
    {
        decode_record(buf)
    }

    /// Decoding the parameter data of an encodable value gives it back.
    pub proof fn lemma_roundtrip(&self)
        requires
            self.spec_encodable(),
        ensures
            Self::spec_decoded(self.spec_encoding()) == Ok::<Self, ParameterDataError>(*self),
    {
        lemma_record_roundtrip(*self);
    }
}

#[derive(Clone, Copy, Debug, PartialEq)]
pub struct GetBackgroundQueuedStatusPolicyDescriptionResponse {
    pub policy_id: u8,
    pub description: BackgroundQueuedStatusPolicyDescription,
}

impl GetBackgroundQueuedStatusPolicyDescriptionResponse {
    /// The parameter data of the value.
    pub open spec fn spec_encoding(&self) -> Seq<u8> {
        self.policy_id.spec_wire() + self.description.spec_encode()
    }

    /// The value that parameter data stands for, or why it stands for none.
    pub open spec fn spec_decoded(buf: Seq<u8>) -> Result<Self, ParameterDataError> {
        if buf.len() < 1 {
            Err(too_short(buf.len(), 1))
        } else if !(<u8 as FixedWire>::spec_read(buf.subrange(0, 1)) is Some) {
            Err(ParameterDataError::MalformedData)
        } else {
            let rest = buf.subrange(1, buf.len() as int);
            match BackgroundQueuedStatusPolicyDescription::spec_decode(rest) {
                Ok(t) => Ok(GetBackgroundQueuedStatusPolicyDescriptionResponse { policy_id: <u8 as FixedWire>::spec_read(buf.subrange(0, 1)).unwrap(), description: t }),
                Err(e) => Err(e),
            }
        }
    }

    /// Whether decoding the parameter data gives the value back.
    pub open spec fn spec_encodable(&self) -> bool {
        self.policy_id.spec_wire_valid() && self.description.spec_encodable()
    }

    /// Appends the parameter data to `out`.
    pub fn write_encoding(&self, out: &mut Vec<u8>)
        ensures
            final(out)@ == old(out)@ + self.spec_encoding(),
    {
        let ghost start = out@;
        self.policy_id.write_wire(out);
        self.description.write_encoded(out);
        proof {
            assert(out@ =~= start + self.spec_encoding());
        }
    }

    pub fn size_of(&self) -> (n: usize)
        ensures
            n == self.spec_encoding().len(),
            n <= 33,
    {
        proof {
            self.policy_id.lemma_wire();
            use_type_invariant(&self.description);
            self.description.lemma_encode_len();
        }
        let mut out: Vec<u8> = Vec::new();
        self.write_encoding(&mut out);
        proof {
            assert(out@ =~= self.spec_encoding());
        }
        out.len()
    }

    pub fn encode_parameter_data(&self, buf: &mut [u8]) -> (r: Result<usize, ParameterDataError>)
        ensures
            encoded_into(old(buf)@, final(buf)@, self.spec_encoding(), r),
    {
        let mut out: Vec<u8> = Vec::new();
        self.write_encoding(&mut out);
        proof {
            assert(out@ =~= self.spec_encoding());
        }
        copy_encoded(buf, out.as_slice())
    }

    pub fn decode_parameter_data(buf: &[u8]) -> (r: Result<Self, ParameterDataError>)
        ensures
            r == Self::spec_decoded(buf@),
    {
        if buf.len() < 1 {
            return Err(ParameterDataError::BufferTooSmall { provided: buf.len(), required: 1 });
        }
        let v0 = match <u8 as FixedWire>::read_wire(buf, 0) {
            Some(v) => v,
            None => return Err(ParameterDataError::MalformedData),
        };
        match BackgroundQueuedStatusPolicyDescription::decode_parameter_data(vstd::slice::slice_subrange(buf, 1, buf.len())) {
            Ok(t) => Ok(GetBackgroundQueuedStatusPolicyDescriptionResponse { policy_id: v0, description: t }),
            Err(e) => Err(e),
        }
    }

    /// Decoding the parameter data of an encodable value gives it back.
    pub proof fn lemma_roundtrip(&self)
        requires
            self.spec_encodable(),
        ensures
            Self::spec_decoded(self.spec_encoding()) == Ok::<Self, ParameterDataError>(*self),
    {
        let e = self.spec_encoding();
        self.policy_id.lemma_wire();
        assert(e.subrange(0, 1) =~= self.policy_id.spec_wire());
        assert(e.subrange(1, e.len() as int) =~= self.description.spec_encode());
        self.description.lemma_roundtrip();
    }
}

} // verus!
