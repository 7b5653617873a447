//! Parameter data of the E137-2 requests.

use crate::rdm::error::{ParameterDataError};
use crate::rdm::utils::{copy_encoded, encoded_into};
use crate::rdm::wire::{decode_record, encode_record, lemma_record_roundtrip, record_decoded, FixedWire};
use vstd::prelude::*;
use vstd::std_specs::convert::{FromSpecImpl, TryFromSpecImpl};
use vstd::string::StringSliceAdditionalSpecFns;
use crate::rdm::parameter::e137_2::{DnsDomainName, DnsHostName, Ipv4Address, Ipv4Route};

verus! {

broadcast use vstd::array::group_array_axioms;

#[derive(Clone, Copy, Debug, PartialEq, Eq, Structural)]
pub struct GetInterfaceLabelRequest {
    pub interface_id: u32,
}

impl<'a> FixedWire<'a> for GetInterfaceLabelRequest {
    open spec fn spec_size() -> nat {
        4
    }

    open spec fn spec_wire(&self) -> Seq<u8> {
        self.interface_id.spec_wire()
    }

    open spec fn spec_read(bytes: Seq<u8>) -> Option<Self> {
        if <u32 as FixedWire>::spec_read(bytes.subrange(0, 4)) is Some {
            Some(GetInterfaceLabelRequest {
                interface_id: <u32 as FixedWire>::spec_read(bytes.subrange(0, 4)).unwrap(),
            })
        } else {
            None
        }
    }

    open spec fn spec_wire_valid(&self) -> bool {
        self.interface_id.spec_wire_valid()
    }

    fn wire_size() -> (n: usize) {
        4
    }

    fn write_wire(&self, out: &mut Vec<u8>) {
        let ghost start = out@;
        self.interface_id.write_wire(out);
        proof {
            assert(out@ =~= start + self.spec_wire());
        }
    }

    fn read_wire(buf: &'a [u8], pos: usize) -> (r: Option<Self>) {
        let _len = buf.len();
        let ghost bytes = buf@.subrange(pos as int, pos + 4);
        proof {
            assert(bytes.subrange(0, 4) =~= buf@.subrange(pos + 0, pos + 4));
        }
        let v0 = match <u32 as FixedWire>::read_wire(buf, pos) {
            Some(v) => v,
            None => return None,
        };
        Some(GetInterfaceLabelRequest { interface_id: v0 })
    }

    proof fn lemma_wire(&self) {
        self.interface_id.lemma_wire();
        let w = self.spec_wire();
        assert(w.subrange(0, 4) =~= self.interface_id.spec_wire());
        if self.spec_wire_valid() {
            assert(<u32 as FixedWire>::spec_read(w.subrange(0, 4)) == Some(self.interface_id));
        }
    }
}

impl GetInterfaceLabelRequest {
    /// The parameter data of the value.
    pub open spec fn spec_encoding(&self) -> Seq<u8> {
        self.spec_wire()
    }

    /// The value that parameter data stands for, or why it stands for none.
    pub open spec fn spec_decoded(buf: Seq<u8>) -> Result<Self, ParameterDataError> {
        record_decoded::<Self>(buf)
    }

    /// Whether decoding the parameter data gives the value back.
    pub open spec fn spec_encodable(&self) -> bool {
        self.spec_wire_valid()
    }

    pub fn size_of(&self) -> (n: usize)
        ensures
            n == self.spec_encoding().len(),
            n <= 4,
    {
        proof {
            self.lemma_wire();
        }
        Self::wire_size()
    }

    /// Appends the parameter data to `out`.
    pub fn write_encoding(&self, out: &mut Vec<u8>)
        ensures
            final(out)@ == old(out)@ + self.spec_encoding(),
    {
        self.write_wire(out);
    }

    pub fn encode_parameter_data(&self, buf: &mut [u8]) -> (r: Result<usize, ParameterDataError>)
        ensures
            encoded_into(old(buf)@, final(buf)@, self.spec_encoding(), r),
    {
        encode_record(self, buf)
    }

    pub fn decode_parameter_data(buf: &[u8]) -> (r: Result<Self, ParameterDataError>)
        ensures
            r == Self::spec_decoded(buf@),
    {
        decode_record(buf)
    }

    /// Decoding the parameter data of an encodable value gives it back.
    pub proof fn lemma_roundtrip(&self)
        requires
            self.spec_encodable(),
        ensures
            Self::spec_decoded(self.spec_encoding()) == Ok::<Self, ParameterDataError>(*self),
    {
        lemma_record_roundtrip(*self);
    }
}

#[derive(Clone, Copy, Debug, PartialEq, Eq, Structural)]
pub struct GetInterfaceHardwareAddressType1Request {
    pub interface_id: u32,
}

impl<'a> FixedWire<'a> for GetInterfaceHardwareAddressType1Request {
    open spec fn spec_size() -> nat {
        4
    }

    open spec fn spec_wire(&self) -> Seq<u8> {
        self.interface_id.spec_wire()
    }

    open spec fn spec_read(bytes: Seq<u8>) -> Option<Self> {
        if <u32 as FixedWire>::spec_read(bytes.subrange(0, 4)) is Some {
            Some(GetInterfaceHardwareAddressType1Request {
                interface_id: <u32 as FixedWire>::spec_read(bytes.subrange(0, 4)).unwrap(),
            })
        } else {
            None
        }
    }

    open spec fn spec_wire_valid(&self) -> bool {
        self.interface_id.spec_wire_valid()
    }

    fn wire_size() -> (n: usize) {
        4
    }

    fn write_wire(&self, out: &mut Vec<u8>) {
        let ghost start = out@;
        self.interface_id.write_wire(out);
        proof {
            assert(out@ =~= start + self.spec_wire());
        }
    }

    fn read_wire(buf: &'a [u8], pos: usize) -> (r: Option<Self>) {
        let _len = buf.len();
        let ghost bytes = buf@.subrange(pos as int, pos + 4);
        proof {
            assert(bytes.subrange(0, 4) =~= buf@.subrange(pos + 0, pos + 4));
        }
        let v0 = match <u32 as FixedWire>::read_wire(buf, pos) {
            Some(v) => v,
            None => return None,
        };
        Some(GetInterfaceHardwareAddressType1Request { interface_id: v0 })
    }

    proof fn lemma_wire(&self) {
        self.interface_id.lemma_wire();
        let w = self.spec_wire();
        assert(w.subrange(0, 4) =~= self.interface_id.spec_wire());
        if self.spec_wire_valid() {
            assert(<u32 as FixedWire>::spec_read(w.subrange(0, 4)) == Some(self.interface_id));
        }
    }
}

impl GetInterfaceHardwareAddressType1Request {
    /// The parameter data of the value.
    pub open spec fn spec_encoding(&self) -> Seq<u8> {
        self.spec_wire()
    }

    /// The value that parameter data stands for, or why it stands for none.
    pub open spec fn spec_decoded(buf: Seq<u8>) -> Result<Self, ParameterDataError> {
        record_decoded::<Self>(buf)
    }

    /// Whether decoding the parameter data gives the value back.
    pub open spec fn spec_encodable(&self) -> bool {
        self.spec_wire_valid()
    }

    pub fn size_of(&self) -> (n: usize)
        ensures
            n == self.spec_encoding().len(),
            n <= 4,
    {
        proof {
            self.lemma_wire();
        }
        Self::wire_size()
    }

    /// Appends the parameter data to `out`.
    pub fn write_encoding(&self, out: &mut Vec<u8>)
        ensures
            final(out)@ == old(out)@ + self.spec_encoding(),
    {
        self.write_wire(out);
    }

    pub fn encode_parameter_data(&self, buf: &mut [u8]) -> (r: Result<usize, ParameterDataError>)
        ensures
            encoded_into(old(buf)@, final(buf)@, self.spec_encoding(), r),
    {
        encode_record(self, buf)
    }

    pub fn decode_parameter_data(buf: &[u8]) -> (r: Result<Self, ParameterDataError>)
        ensures
            r == Self::spec_decoded(buf@),
    {
        decode_record(buf)
    }

    /// Decoding the parameter data of an encodable value gives it back.
    pub proof fn lemma_roundtrip(&self)
        requires
            self.spec_encodable(),
        ensures
            Self::spec_decoded(self.spec_encoding()) == Ok::<Self, ParameterDataError>(*self),
    {
        lemma_record_roundtrip(*self);
    }
}

#[derive(Clone, Copy, Debug, PartialEq, Eq, Structural)]
pub struct GetIpV4DhcpModeRequest {
    pub interface_id: u32,
}

impl<'a> FixedWire<'a> for GetIpV4DhcpModeRequest {
    open spec fn spec_size() -> nat {
        4
    }

    open spec fn spec_wire(&self) -> Seq<u8> {
        self.interface_id.spec_wire()
    }

    open spec fn spec_read(bytes: Seq<u8>) -> Option<Self> {
        if <u32 as FixedWire>::spec_read(bytes.subrange(0, 4)) is Some {
            Some(GetIpV4DhcpModeRequest {
                interface_id: <u32 as FixedWire>::spec_read(bytes.subrange(0, 4)).unwrap(),
            })
        } else {
            None
        }
    }

    open spec fn spec_wire_valid(&self) -> bool {
        self.interface_id.spec_wire_valid()
    }

    fn wire_size() -> (n: usize) {
        4
    }

    fn write_wire(&self, out: &mut Vec<u8>) {
        let ghost start = out@;
        self.interface_id.write_wire(out);
        proof {
            assert(out@ =~= start + self.spec_wire());
        }
    }

    fn read_wire(buf: &'a [u8], pos: usize) -> (r: Option<Self>) {
        let _len = buf.len();
        let ghost bytes = buf@.subrange(pos as int, pos + 4);
        proof {
            assert(bytes.subrange(0, 4) =~= buf@.subrange(pos + 0, pos + 4));
        }
        let v0 = match <u32 as FixedWire>::read_wire(buf, pos) {
            Some(v) => v,
            None => return None,
        };
        Some(GetIpV4DhcpModeRequest { interface_id: v0 })
    }

    proof fn lemma_wire(&self) {
        self.interface_id.lemma_wire();
        let w = self.spec_wire();
        assert(w.subrange(0, 4) =~= self.interface_id.spec_wire());
        if self.spec_wire_valid() {
            assert(<u32 as FixedWire>::spec_read(w.subrange(0, 4)) == Some(self.interface_id));
        }
    }
}

impl GetIpV4DhcpModeRequest {
    /// The parameter data of the value.
    pub open spec fn spec_encoding(&self) -> Seq<u8> {
        self.spec_wire()
    }

    /// The value that parameter data stands for, or why it stands for none.
    pub open spec fn spec_decoded(buf: Seq<u8>) -> Result<Self, ParameterDataError> {
        record_decoded::<Self>(buf)
    }

    /// Whether decoding the parameter data gives the value back.
    pub open spec fn spec_encodable(&self) -> bool {
        self.spec_wire_valid()
    }

    pub fn size_of(&self) -> (n: usize)
        ensures
            n == self.spec_encoding().len(),
            n <= 4,
    {
        proof {
            self.lemma_wire();
        }
        Self::wire_size()
    }

    /// Appends the parameter data to `out`.
    pub fn write_encoding(&self, out: &mut Vec<u8>)
        ensures
            final(out)@ == old(out)@ + self.spec_encoding(),
    {
        self.write_wire(out);
    }

    pub fn encode_parameter_data(&self, buf: &mut [u8]) -> (r: Result<usize, ParameterDataError>)
        ensures
            encoded_into(old(buf)@, final(buf)@, self.spec_encoding(), r),
    {
        encode_record(self, buf)
    }

    pub fn decode_parameter_data(buf: &[u8]) -> (r: Result<Self, ParameterDataError>)
        ensures
            r == Self::spec_decoded(buf@),
    {
        decode_record(buf)
    }

    /// Decoding the parameter data of an encodable value gives it back.
    pub proof fn lemma_roundtrip(&self)
        requires
            self.spec_encodable(),
        ensures
            Self::spec_decoded(self.spec_encoding()) == Ok::<Self, ParameterDataError>(*self),
    {
        lemma_record_roundtrip(*self);
    }
}

#[derive(Clone, Copy, Debug, PartialEq, Eq, Structural)]
pub struct SetIpV4DhcpModeRequest {
    pub interface_id: u32,
    pub dhcp_mode: bool,
}

impl<'a> FixedWire<'a> for SetIpV4DhcpModeRequest {
    open spec fn spec_size() -> nat {
        5
    }

    open spec fn spec_wire(&self) -> Seq<u8> {
        self.interface_id.spec_wire() + self.dhcp_mode.spec_wire()
    }

    open spec fn spec_read(bytes: Seq<u8>) -> Option<Self> {
        if <u32 as FixedWire>::spec_read(bytes.subrange(0, 4)) is Some
            && <bool as FixedWire>::spec_read(bytes.subrange(4, 5)) is Some {
            Some(SetIpV4DhcpModeRequest {
                interface_id: <u32 as FixedWire>::spec_read(bytes.subrange(0, 4)).unwrap(),
                dhcp_mode: <bool as FixedWire>::spec_read(bytes.subrange(4, 5)).unwrap(),
            })
        } else {
            None
        }
    }

    open spec fn spec_wire_valid(&self) -> bool {
        self.interface_id.spec_wire_valid() && self.dhcp_mode.spec_wire_valid()
    }

    fn wire_size() -> (n: usize) {
        5
    }

    fn write_wire(&self, out: &mut Vec<u8>) {
        let ghost start = out@;
        self.interface_id.write_wire(out);
        self.dhcp_mode.write_wire(out);
        proof {
            assert(out@ =~= start + self.spec_wire());
        }
    }

    fn read_wire(buf: &'a [u8], pos: usize) -> (r: Option<Self>) {
        let _len = buf.len();
        let ghost bytes = buf@.subrange(pos as int, pos + 5);
        proof {
            assert(bytes.subrange(0, 4) =~= buf@.subrange(pos + 0, pos + 4));
            assert(bytes.subrange(4, 5) =~= buf@.subrange(pos + 4, pos + 5));
        }
        let v0 = match <u32 as FixedWire>::read_wire(buf, pos) {
            Some(v) => v,
            None => return None,
        };
        let v1 = match <bool as FixedWire>::read_wire(buf, pos + 4) {
            Some(v) => v,
            None => return None,
        };
        Some(SetIpV4DhcpModeRequest { interface_id: v0, dhcp_mode: v1 })
    }

    proof fn lemma_wire(&self) {
        self.interface_id.lemma_wire();
        self.dhcp_mode.lemma_wire();
        let w = self.spec_wire();
        assert(w.subrange(0, 4) =~= self.interface_id.spec_wire());
        assert(w.subrange(4, 5) =~= self.dhcp_mode.spec_wire());
        if self.spec_wire_valid() {
            assert(<u32 as FixedWire>::spec_read(w.subrange(0, 4)) == Some(self.interface_id));
            assert(<bool as FixedWire>::spec_read(w.subrange(4, 5)) == Some(self.dhcp_mode));
        }
    }
}

impl SetIpV4DhcpModeRequest {
    /// The parameter data of the value.
    pub open spec fn spec_encoding(&self) -> Seq<u8> {
        self.spec_wire()
    }

    /// The value that parameter data stands for, or why it stands for none.
    pub open spec fn spec_decoded(buf: Seq<u8>) -> Result<Self, ParameterDataError> {
        record_decoded::<Self>(buf)
    }

    /// Whether decoding the parameter data gives the value back.
    pub open spec fn spec_encodable(&self) -> bool {
        self.spec_wire_valid()
    }

    pub fn size_of(&self) -> (n: usize)
        ensures
            n == self.spec_encoding().len(),
            n <= 5,
    {
        proof {
            self.lemma_wire();
        }
        Self::wire_size()
    }

    /// Appends the parameter data to `out`.
    pub fn write_encoding(&self, out: &mut Vec<u8>)
        ensures
            final(out)@ == old(out)@ + self.spec_encoding(),
    {
        self.write_wire(out);
    }

    pub fn encode_parameter_data(&self, buf: &mut [u8]) -> (r: Result<usize, ParameterDataError>)
        ensures
            encoded_into(old(buf)@, final(buf)@, self.spec_encoding(), r),
    {
        encode_record(self, buf)
    }

    pub fn decode_parameter_data(buf: &[u8]) -> (r: Result<Self, ParameterDataError>)
        ensures
            r == Self::spec_decoded(buf@),
    {
        decode_record(buf)
    }

    /// Decoding the parameter data of an encodable value gives it back.
    pub proof fn lemma_roundtrip(&self)
        requires
            self.spec_encodable(),
        ensures
            Self::spec_decoded(self.spec_encoding()) == Ok::<Self, ParameterDataError>(*self),
    {
        lemma_record_roundtrip(*self);
    }
}

#[derive(Clone, Copy, Debug, PartialEq, Eq, Structural)]
pub struct GetIpV4ZeroConfModeRequest {
    pub interface_id: u32,
}

impl<'a> FixedWire<'a> for GetIpV4ZeroConfModeRequest {
    open spec fn spec_size() -> nat {
        4
    }

    open spec fn spec_wire(&self) -> Seq<u8> {
        self.interface_id.spec_wire()
    }

    open spec fn spec_read(bytes: Seq<u8>) -> Option<Self> {
        if <u32 as FixedWire>::spec_read(bytes.subrange(0, 4)) is Some {
            Some(GetIpV4ZeroConfModeRequest {
                interface_id: <u32 as FixedWire>::spec_read(bytes.subrange(0, 4)).unwrap(),
            })
        } else {
            None
        }
    }

    open spec fn spec_wire_valid(&self) -> bool {
        self.interface_id.spec_wire_valid()
    }

    fn wire_size() -> (n: usize) {
        4
    }

    fn write_wire(&self, out: &mut Vec<u8>) {
        let ghost start = out@;
        self.interface_id.write_wire(out);
        proof {
            assert(out@ =~= start + self.spec_wire());
        }
    }

    fn read_wire(buf: &'a [u8], pos: usize) -> (r: Option<Self>) {
        let _len = buf.len();
        let ghost bytes = buf@.subrange(pos as int, pos + 4);
        proof {
            assert(bytes.subrange(0, 4) =~= buf@.subrange(pos + 0, pos + 4));
        }
        let v0 = match <u32 as FixedWire>::read_wire(buf, pos) {
            Some(v) => v,
            None => return None,
        };
        Some(GetIpV4ZeroConfModeRequest { interface_id: v0 })
    }

    proof fn lemma_wire(&self) {
        self.interface_id.lemma_wire();
        let w = self.spec_wire();
        assert(w.subrange(0, 4) =~= self.interface_id.spec_wire());
        if self.spec_wire_valid() {
            assert(<u32 as FixedWire>::spec_read(w.subrange(0, 4)) == Some(self.interface_id));
        }
    }
}

impl GetIpV4ZeroConfModeRequest {
    /// The parameter data of the value.
    pub open spec fn spec_encoding(&self) -> Seq<u8> {
        self.spec_wire()
    }

    /// The value that parameter data stands for, or why it stands for none.
    pub open spec fn spec_decoded(buf: Seq<u8>) -> Result<Self, ParameterDataError> {
        record_decoded::<Self>(buf)
    }

    /// Whether decoding the parameter data gives the value back.
    pub open spec fn spec_encodable(&self) -> bool {
        self.spec_wire_valid()
    }

    pub fn size_of(&self) -> (n: usize)
        ensures
            n == self.spec_encoding().len(),
            n <= 4,
    {
        proof {
            self.lemma_wire();
        }
        Self::wire_size()
    }

    /// Appends the parameter data to `out`.
    pub fn write_encoding(&self, out: &mut Vec<u8>)
        ensures
            final(out)@ == old(out)@ + self.spec_encoding(),
    {
        self.write_wire(out);
    }

    pub fn encode_parameter_data(&self, buf: &mut [u8]) -> (r: Result<usize, ParameterDataError>)
        ensures
            encoded_into(old(buf)@, final(buf)@, self.spec_encoding(), r),
    {
        encode_record(self, buf)
    }

    pub fn decode_parameter_data(buf: &[u8]) -> (r: Result<Self, ParameterDataError>)
        ensures
            r == Self::spec_decoded(buf@),
    {
        decode_record(buf)
    }

    /// Decoding the parameter data of an encodable value gives it back.
    pub proof fn lemma_roundtrip(&self)
        requires
            self.spec_encodable(),
        ensures
            Self::spec_decoded(self.spec_encoding()) == Ok::<Self, ParameterDataError>(*self),
    {
        lemma_record_roundtrip(*self);
    }
}

#[derive(Clone, Copy, Debug, PartialEq, Eq, Structural)]
pub struct SetIpV4ZeroConfModeRequest {
    pub interface_id: u32,
    pub zero_conf_mode: bool,
}

impl<'a> FixedWire<'a> for SetIpV4ZeroConfModeRequest {
    open spec fn spec_size() -> nat {
        5
    }

    open spec fn spec_wire(&self) -> Seq<u8> {
        self.interface_id.spec_wire() + self.zero_conf_mode.spec_wire()
    }

    open spec fn spec_read(bytes: Seq<u8>) -> Option<Self> {
        if <u32 as FixedWire>::spec_read(bytes.subrange(0, 4)) is Some
            && <bool as FixedWire>::spec_read(bytes.subrange(4, 5)) is Some {
            Some(SetIpV4ZeroConfModeRequest {
                interface_id: <u32 as FixedWire>::spec_read(bytes.subrange(0, 4)).unwrap(),
                zero_conf_mode: <bool as FixedWire>::spec_read(bytes.subrange(4, 5)).unwrap(),
            })
        } else {
            None
        }
    }

    open spec fn spec_wire_valid(&self) -> bool {
        self.interface_id.spec_wire_valid() && self.zero_conf_mode.spec_wire_valid()
    }

    fn wire_size() -> (n: usize) {
        5
    }

    fn write_wire(&self, out: &mut Vec<u8>) {
        let ghost start = out@;
        self.interface_id.write_wire(out);
        self.zero_conf_mode.write_wire(out);
        proof {
            assert(out@ =~= start + self.spec_wire());
        }
    }

    fn read_wire(buf: &'a [u8], pos: usize) -> (r: Option<Self>) {
        let _len = buf.len();
        let ghost bytes = buf@.subrange(pos as int, pos + 5);
        proof {
            assert(bytes.subrange(0, 4) =~= buf@.subrange(pos + 0, pos + 4));
            assert(bytes.subrange(4, 5) =~= buf@.subrange(pos + 4, pos + 5));
        }
        let v0 = match <u32 as FixedWire>::read_wire(buf, pos) {
            Some(v) => v,
            None => return None,
        };
        let v1 = match <bool as FixedWire>::read_wire(buf, pos + 4) {
            Some(v) => v,
            None => return None,
        };
        Some(SetIpV4ZeroConfModeRequest { interface_id: v0, zero_conf_mode: v1 })
    }

    proof fn lemma_wire(&self) {
        self.interface_id.lemma_wire();
        self.zero_conf_mode.lemma_wire();
        let w = self.spec_wire();
        assert(w.subrange(0, 4) =~= self.interface_id.spec_wire());
        assert(w.subrange(4, 5) =~= self.zero_conf_mode.spec_wire());
        if self.spec_wire_valid() {
            assert(<u32 as FixedWire>::spec_read(w.subrange(0, 4)) == Some(self.interface_id));
            assert(<bool as FixedWire>::spec_read(w.subrange(4, 5)) == Some(self.zero_conf_mode));
        }
    }
}

impl SetIpV4ZeroConfModeRequest {
    /// The parameter data of the value.
    pub open spec fn spec_encoding(&self) -> Seq<u8> {
        self.spec_wire()
    }

    /// The value that parameter data stands for, or why it stands for none.
    pub open spec fn spec_decoded(buf: Seq<u8>) -> Result<Self, ParameterDataError> {
        record_decoded::<Self>(buf)
    }

    /// Whether decoding the parameter data gives the value back.
    pub open spec fn spec_encodable(&self) -> bool {
        self.spec_wire_valid()
    }

    pub fn size_of(&self) -> (n: usize)
        ensures
            n == self.spec_encoding().len(),
            n <= 5,
    {
        proof {
            self.lemma_wire();
        }
        Self::wire_size()
    }

    /// Appends the parameter data to `out`.
    pub fn write_encoding(&self, out: &mut Vec<u8>)
        ensures
            final(out)@ == old(out)@ + self.spec_encoding(),
    {
        self.write_wire(out);
    }

    pub fn encode_parameter_data(&self, buf: &mut [u8]) -> (r: Result<usize, ParameterDataError>)
        ensures
            encoded_into(old(buf)@, final(buf)@, self.spec_encoding(), r),
    {
        encode_record(self, buf)
    }

    pub fn decode_parameter_data(buf: &[u8]) -> (r: Result<Self, ParameterDataError>)
        ensures
            r == Self::spec_decoded(buf@),
    {
        decode_record(buf)
    }

    /// Decoding the parameter data of an encodable value gives it back.
    pub proof fn lemma_roundtrip(&self)
        requires
            self.spec_encodable(),
        ensures
            Self::spec_decoded(self.spec_encoding()) == Ok::<Self, ParameterDataError>(*self),
    {
        lemma_record_roundtrip(*self);
    }
}

#[derive(Clone, Copy, Debug, PartialEq, Eq, Structural)]
pub struct GetIpV4CurrentAddressRequest {
    pub interface_id: u32,
}

impl<'a> FixedWire<'a> for GetIpV4CurrentAddressRequest {
    open spec fn spec_size() -> nat {
        4
    }

    open spec fn spec_wire(&self) -> Seq<u8> {
        self.interface_id.spec_wire()
    }

    open spec fn spec_read(bytes: Seq<u8>) -> Option<Self> {
        if <u32 as FixedWire>::spec_read(bytes.subrange(0, 4)) is Some {
            Some(GetIpV4CurrentAddressRequest {
                interface_id: <u32 as FixedWire>::spec_read(bytes.subrange(0, 4)).unwrap(),
            })
        } else {
            None
        }
    }

    open spec fn spec_wire_valid(&self) -> bool {
        self.interface_id.spec_wire_valid()
    }

    fn wire_size() -> (n: usize) {
        4
    }

    fn write_wire(&self, out: &mut Vec<u8>) {
        let ghost start = out@;
        self.interface_id.write_wire(out);
        proof {
            assert(out@ =~= start + self.spec_wire());
        }
    }

    fn read_wire(buf: &'a [u8], pos: usize) -> (r: Option<Self>) {
        let _len = buf.len();
        let ghost bytes = buf@.subrange(pos as int, pos + 4);
        proof {
            assert(bytes.subrange(0, 4) =~= buf@.subrange(pos + 0, pos + 4));
        }
        let v0 = match <u32 as FixedWire>::read_wire(buf, pos) {
            Some(v) => v,
            None => return None,
        };
        Some(GetIpV4CurrentAddressRequest { interface_id: v0 })
    }

    proof fn lemma_wire(&self) {
        self.interface_id.lemma_wire();
        let w = self.spec_wire();
        assert(w.subrange(0, 4) =~= self.interface_id.spec_wire());
        if self.spec_wire_valid() {
            assert(<u32 as FixedWire>::spec_read(w.subrange(0, 4)) == Some(self.interface_id));
        }
    }
}

impl GetIpV4CurrentAddressRequest {
    /// The parameter data of the value.
    pub open spec fn spec_encoding(&self) -> Seq<u8> {
        self.spec_wire()
    }

    /// The value that parameter data stands for, or why it stands for none.
    pub open spec fn spec_decoded(buf: Seq<u8>) -> Result<Self, ParameterDataError> {
        record_decoded::<Self>(buf)
    }

    /// Whether decoding the parameter data gives the value back.
    pub open spec fn spec_encodable(&self) -> bool {
        self.spec_wire_valid()
    }

    pub fn size_of(&self) -> (n: usize)
        ensures
            n == self.spec_encoding().len(),
            n <= 4,
    {
        proof {
            self.lemma_wire();
        }
        Self::wire_size()
    }

    /// Appends the parameter data to `out`.
    pub fn write_encoding(&self, out: &mut Vec<u8>)
        ensures
            final(out)@ == old(out)@ + self.spec_encoding(),
    {
        self.write_wire(out);
    }

    pub fn encode_parameter_data(&self, buf: &mut [u8]) -> (r: Result<usize, ParameterDataError>)
        ensures
            encoded_into(old(buf)@, final(buf)@, self.spec_encoding(), r),
    {
        encode_record(self, buf)
    }

    pub fn decode_parameter_data(buf: &[u8]) -> (r: Result<Self, ParameterDataError>)
        ensures
            r == Self::spec_decoded(buf@),
    {
        decode_record(buf)
    }

    /// Decoding the parameter data of an encodable value gives it back.
    pub proof fn lemma_roundtrip(&self)
        requires
            self.spec_encodable(),
        ensures
            Self::spec_decoded(self.spec_encoding()) == Ok::<Self, ParameterDataError>(*self),
    {
        lemma_record_roundtrip(*self);
    }
}

#[derive(Clone, Copy, Debug, PartialEq, Eq, Structural)]
pub struct GetIpV4StaticAddressRequest {
    pub interface_id: u32,
}

impl<'a> FixedWire<'a> for GetIpV4StaticAddressRequest {
    open spec fn spec_size() -> nat {
        4
    }

    open spec fn spec_wire(&self) -> Seq<u8> {
        self.interface_id.spec_wire()
    }

    open spec fn spec_read(bytes: Seq<u8>) -> Option<Self> {
        if <u32 as FixedWire>::spec_read(bytes.subrange(0, 4)) is Some {
            Some(GetIpV4StaticAddressRequest {
                interface_id: <u32 as FixedWire>::spec_read(bytes.subrange(0, 4)).unwrap(),
            })
        } else {
            None
        }
    }

    open spec fn spec_wire_valid(&self) -> bool {
        self.interface_id.spec_wire_valid()
    }

    fn wire_size() -> (n: usize) {
        4
    }

    fn write_wire(&self, out: &mut Vec<u8>) {
        let ghost start = out@;
        self.interface_id.write_wire(out);
        proof {
            assert(out@ =~= start + self.spec_wire());
        }
    }

    fn read_wire(buf: &'a [u8], pos: usize) -> (r: Option<Self>) {
        let _len = buf.len();
        let ghost bytes = buf@.subrange(pos as int, pos + 4);
        proof {
            assert(bytes.subrange(0, 4) =~= buf@.subrange(pos + 0, pos + 4));
        }
        let v0 = match <u32 as FixedWire>::read_wire(buf, pos) {
            Some(v) => v,
            None => return None,
        };
        Some(GetIpV4StaticAddressRequest { interface_id: v0 })
    }

    proof fn lemma_wire(&self) {
        self.interface_id.lemma_wire();
        let w = self.spec_wire();
        assert(w.subrange(0, 4) =~= self.interface_id.spec_wire());
        if self.spec_wire_valid() {
            assert(<u32 as FixedWire>::spec_read(w.subrange(0, 4)) == Some(self.interface_id));
        }
    }
}

impl GetIpV4StaticAddressRequest {
    /// The parameter data of the value.
    pub open spec fn spec_encoding(&self) -> Seq<u8> {
        self.spec_wire()
    }

    /// The value that parameter data stands for, or why it stands for none.
    pub open spec fn spec_decoded(buf: Seq<u8>) -> Result<Self, ParameterDataError> {
        record_decoded::<Self>(buf)
    }

    /// Whether decoding the parameter data gives the value back.
    pub open spec fn spec_encodable(&self) -> bool {
        self.spec_wire_valid()
    }

    pub fn size_of(&self) -> (n: usize)
        ensures
            n == self.spec_encoding().len(),
            n <= 4,
    {
        proof {
            self.lemma_wire();
        }
        Self::wire_size()
    }

    /// Appends the parameter data to `out`.
    pub fn write_encoding(&self, out: &mut Vec<u8>)
        ensures
            final(out)@ == old(out)@ + self.spec_encoding(),
    {
        self.write_wire(out);
    }

    pub fn encode_parameter_data(&self, buf: &mut [u8]) -> (r: Result<usize, ParameterDataError>)
        ensures
            encoded_into(old(buf)@, final(buf)@, self.spec_encoding(), r),
    {
        encode_record(self, buf)
    }

    pub fn decode_parameter_data(buf: &[u8]) -> (r: Result<Self, ParameterDataError>)
        ensures
            r == Self::spec_decoded(buf@),
    {
        decode_record(buf)
    }

    /// Decoding the parameter data of an encodable value gives it back.
    pub proof fn lemma_roundtrip(&self)
        requires
            self.spec_encodable(),
        ensures
            Self::spec_decoded(self.spec_encoding()) == Ok::<Self, ParameterDataError>(*self),
    {
        lemma_record_roundtrip(*self);
    }
}

#[derive(Clone, Copy, Debug, PartialEq)]
pub struct SetIpV4StaticAddressRequest {
    pub interface_id: u32,
    pub address: Ipv4Address,
    pub netmask: u8,
}

impl<'a> FixedWire<'a> for SetIpV4StaticAddressRequest {
    open spec fn spec_size() -> nat {
        9
    }

    open spec fn spec_wire(&self) -> Seq<u8> {
        self.interface_id.spec_wire() + self.address.spec_wire() + self.netmask.spec_wire()
    }

    open spec fn spec_read(bytes: Seq<u8>) -> Option<Self> {
        if <u32 as FixedWire>::spec_read(bytes.subrange(0, 4)) is Some
            && <Ipv4Address as FixedWire>::spec_read(bytes.subrange(4, 8)) is Some
            && <u8 as FixedWire>::spec_read(bytes.subrange(8, 9)) is Some {
            Some(SetIpV4StaticAddressRequest {
                interface_id: <u32 as FixedWire>::spec_read(bytes.subrange(0, 4)).unwrap(),
                address: <Ipv4Address as FixedWire>::spec_read(bytes.subrange(4, 8)).unwrap(),
                netmask: <u8 as FixedWire>::spec_read(bytes.subrange(8, 9)).unwrap(),
            })
        } else {
            None
        }
    }

    open spec fn spec_wire_valid(&self) -> bool {
        self.interface_id.spec_wire_valid() && self.address.spec_wire_valid() && self.netmask.spec_wire_valid()
    }

    fn wire_size() -> (n: usize) {
        9
    }

    fn write_wire(&self, out: &mut Vec<u8>) {
        let ghost start = out@;
        self.interface_id.write_wire(out);
        self.address.write_wire(out);
        self.netmask.write_wire(out);
        proof {
            assert(out@ =~= start + self.spec_wire());
        }
    }

    fn read_wire(buf: &'a [u8], pos: usize) -> (r: Option<Self>) {
        let _len = buf.len();
        let ghost bytes = buf@.subrange(pos as int, pos + 9);
        proof {
            assert(bytes.subrange(0, 4) =~= buf@.subrange(pos + 0, pos + 4));
            assert(bytes.subrange(4, 8) =~= buf@.subrange(pos + 4, pos + 8));
            assert(bytes.subrange(8, 9) =~= buf@.subrange(pos + 8, pos + 9));
        }
        let v0 = match <u32 as FixedWire>::read_wire(buf, pos) {
            Some(v) => v,
            None => return None,
        };
        let v1 = match <Ipv4Address as FixedWire>::read_wire(buf, pos + 4) {
            Some(v) => v,
            None => return None,
        };
        let v2 = match <u8 as FixedWire>::read_wire(buf, pos + 8) {
            Some(v) => v,
            None => return None,
        };
        Some(SetIpV4StaticAddressRequest { interface_id: v0, address: v1, netmask: v2 })
    }

    proof fn lemma_wire(&self) {
        self.interface_id.lemma_wire();
        self.address.lemma_wire();
        self.netmask.lemma_wire();
        let w = self.spec_wire();
        assert(w.subrange(0, 4) =~= self.interface_id.spec_wire());
        assert(w.subrange(4, 8) =~= self.address.spec_wire());
        assert(w.subrange(8, 9) =~= self.netmask.spec_wire());
        if self.spec_wire_valid() {
            assert(<u32 as FixedWire>::spec_read(w.subrange(0, 4)) == Some(self.interface_id));
            assert(<Ipv4Address as FixedWire>::spec_read(w.subrange(4, 8)) == Some(self.address));
            assert(<u8 as FixedWire>::spec_read(w.subrange(8, 9)) == Some(self.netmask));
        }
    }
}

impl SetIpV4StaticAddressRequest {
    /// The parameter data of the value.
    pub open spec fn spec_encoding(&self) -> Seq<u8> {
        self.spec_wire()
    }

    /// The value that parameter data stands for, or why it stands for none.
    pub open spec fn spec_decoded(buf: Seq<u8>) -> Result<Self, ParameterDataError> {
        record_decoded::<Self>(buf)
    }

    /// Whether decoding the parameter data gives the value back.
    pub open spec fn spec_encodable(&self) -> bool {
        self.spec_wire_valid()
    }

    pub fn size_of(&self) -> (n: usize)
        ensures
            n == self.spec_encoding().len(),
            n <= 9,
    {
        proof {
            self.lemma_wire();
        }
        Self::wire_size()
    }

    /// Appends the parameter data to `out`.
    pub fn write_encoding(&self, out: &mut Vec<u8>)
        ensures
            final(out)@ == old(out)@ + self.spec_encoding(),
    {
        self.write_wire(out);
    }

    pub fn encode_parameter_data(&self, buf: &mut [u8]) -> (r: Result<usize, ParameterDataError>)
        ensures
            encoded_into(old(buf)@, final(buf)@, self.spec_encoding(), r),
    {
        encode_record(self, buf)
    }

    pub fn decode_parameter_data(buf: &[u8]) -> (r: Result<Self, ParameterDataError>)
        ensures
            r == Self::spec_decoded(buf@),
    {
        decode_record(buf)
    }

    /// Decoding the parameter data of an encodable value gives it back.
    pub proof fn lemma_roundtrip(&self)
        requires
            self.spec_encodable(),
        ensures
            Self::spec_decoded(self.spec_encoding()) == Ok::<Self, ParameterDataError>(*self),
    {
        lemma_record_roundtrip(*self);
    }
}

#[derive(Clone, Copy, Debug, PartialEq, Eq, Structural)]
pub struct SetInterfaceRenewDhcpRequest {
    pub interface_id: u32,
}

impl<'a> FixedWire<'a> for SetInterfaceRenewDhcpRequest {
    open spec fn spec_size() -> nat {
        4
    }

    open spec fn spec_wire(&self) -> Seq<u8> {
        self.interface_id.spec_wire()
    }

    open spec fn spec_read(bytes: Seq<u8>) -> Option<Self> {
        if <u32 as FixedWire>::spec_read(bytes.subrange(0, 4)) is Some {
            Some(SetInterfaceRenewDhcpRequest {
                interface_id: <u32 as FixedWire>::spec_read(bytes.subrange(0, 4)).unwrap(),
            })
        } else {
            None
        }
    }

    open spec fn spec_wire_valid(&self) -> bool {
        self.interface_id.spec_wire_valid()
    }

    fn wire_size() -> (n: usize) {
        4
    }

    fn write_wire(&self, out: &mut Vec<u8>) {
        let ghost start = out@;
        self.interface_id.write_wire(out);
        proof {
            assert(out@ =~= start + self.spec_wire());
        }
    }

    fn read_wire(buf: &'a [u8], pos: usize) -> (r: Option<Self>) {
        let _len = buf.len();
        let ghost bytes = buf@.subrange(pos as int, pos + 4);
        proof {
            assert(bytes.subrange(0, 4) =~= buf@.subrange(pos + 0, pos + 4));
        }
        let v0 = match <u32 as FixedWire>::read_wire(buf, pos) {
            Some(v) => v,
            None => return None,
        };
        Some(SetInterfaceRenewDhcpRequest { interface_id: v0 })
    }

    proof fn lemma_wire(&self) {
        self.interface_id.lemma_wire();
        let w = self.spec_wire();
        assert(w.subrange(0, 4) =~= self.interface_id.spec_wire());
        if self.spec_wire_valid() {
            assert(<u32 as FixedWire>::spec_read(w.subrange(0, 4)) == Some(self.interface_id));
        }
    }
}

impl SetInterfaceRenewDhcpRequest {
    /// The parameter data of the value.
    pub open spec fn spec_encoding(&self) -> Seq<u8> {
        self.spec_wire()
    }

    /// The value that parameter data stands for, or why it stands for none.
    pub open spec fn spec_decoded(buf: Seq<u8>) -> Result<Self, ParameterDataError> {
        record_decoded::<Self>(buf)
    }

    /// Whether decoding the parameter data gives the value back.
    pub open spec fn spec_encodable(&self) -> bool {
        self.spec_wire_valid()
    }

    pub fn size_of(&self) -> (n: usize)
        ensures
            n == self.spec_encoding().len(),
            n <= 4,
    {
        proof {
            self.lemma_wire();
        }
        Self::wire_size()
    }

    /// Appends the parameter data to `out`.
    pub fn write_encoding(&self, out: &mut Vec<u8>)
        ensures
            final(out)@ == old(out)@ + self.spec_encoding(),
    {
        self.write_wire(out);
    }

    pub fn encode_parameter_data(&self, buf: &mut [u8]) -> (r: Result<usize, ParameterDataError>)
        ensures
            encoded_into(old(buf)@, final(buf)@, self.spec_encoding(), r),
    {
        encode_record(self, buf)
    }

    pub fn decode_parameter_data(buf: &[u8]) -> (r: Result<Self, ParameterDataError>)
        ensures
            r == Self::spec_decoded(buf@),
    {
        decode_record(buf)
    }

    /// Decoding the parameter data of an encodable value gives it back.
    pub proof fn lemma_roundtrip(&self)
        requires
            self.spec_encodable(),
        ensures
            Self::spec_decoded(self.spec_encoding()) == Ok::<Self, ParameterDataError>(*self),
    {
        lemma_record_roundtrip(*self);
    }
}

#[derive(Clone, Copy, Debug, PartialEq, Eq, Structural)]
pub struct SetInterfaceReleaseDhcpRequest {
    pub interface_id: u32,
}

impl<'a> FixedWire<'a> for SetInterfaceReleaseDhcpRequest {
    open spec fn spec_size() -> nat {
        4
    }

    open spec fn spec_wire(&self) -> Seq<u8> {
        self.interface_id.spec_wire()
    }

    open spec fn spec_read(bytes: Seq<u8>) -> Option<Self> {
        if <u32 as FixedWire>::spec_read(bytes.subrange(0, 4)) is Some {
            Some(SetInterfaceReleaseDhcpRequest {
                interface_id: <u32 as FixedWire>::spec_read(bytes.subrange(0, 4)).unwrap(),
            })
        } else {
            None
        }
    }

    open spec fn spec_wire_valid(&self) -> bool {
        self.interface_id.spec_wire_valid()
    }

    fn wire_size() -> (n: usize) {
        4
    }

    fn write_wire(&self, out: &mut Vec<u8>) {
        let ghost start = out@;
        self.interface_id.write_wire(out);
        proof {
            assert(out@ =~= start + self.spec_wire());
        }
    }

    fn read_wire(buf: &'a [u8], pos: usize) -> (r: Option<Self>) {
        let _len = buf.len();
        let ghost bytes = buf@.subrange(pos as int, pos + 4);
        proof {
            assert(bytes.subrange(0, 4) =~= buf@.subrange(pos + 0, pos + 4));
        }
        let v0 = match <u32 as FixedWire>::read_wire(buf, pos) {
            Some(v) => v,
            None => return None,
        };
        Some(SetInterfaceReleaseDhcpRequest { interface_id: v0 })
    }

    proof fn lemma_wire(&self) {
        self.interface_id.lemma_wire();
        let w = self.spec_wire();
        assert(w.subrange(0, 4) =~= self.interface_id.spec_wire());
        if self.spec_wire_valid() {
            assert(<u32 as FixedWire>::spec_read(w.subrange(0, 4)) == Some(self.interface_id));
        }
    }
}

impl SetInterfaceReleaseDhcpRequest {
    /// The parameter data of the value.
    pub open spec fn spec_encoding(&self) -> Seq<u8> {
        self.spec_wire()
    }

    /// The value that parameter data stands for, or why it stands for none.
    pub open spec fn spec_decoded(buf: Seq<u8>) -> Result<Self, ParameterDataError> {
        record_decoded::<Self>(buf)
    }

    /// Whether decoding the parameter data gives the value back.
    pub open spec fn spec_encodable(&self) -> bool {
        self.spec_wire_valid()
    }

    pub fn size_of(&self) -> (n: usize)
        ensures
            n == self.spec_encoding().len(),
            n <= 4,
    {
        proof {
            self.lemma_wire();
        }
        Self::wire_size()
    }

    /// Appends the parameter data to `out`.
    pub fn write_encoding(&self, out: &mut Vec<u8>)
        ensures
            final(out)@ == old(out)@ + self.spec_encoding(),
    {
        self.write_wire(out);
    }

    pub fn encode_parameter_data(&self, buf: &mut [u8]) -> (r: Result<usize, ParameterDataError>)
        ensures
            encoded_into(old(buf)@, final(buf)@, self.spec_encoding(), r),
    {
        encode_record(self, buf)
    }

    pub fn decode_parameter_data(buf: &[u8]) -> (r: Result<Self, ParameterDataError>)
        ensures
            r == Self::spec_decoded(buf@),
    {
        decode_record(buf)
    }

    /// Decoding the parameter data of an encodable value gives it back.
    pub proof fn lemma_roundtrip(&self)
        requires
            self.spec_encodable(),
        ensures
            Self::spec_decoded(self.spec_encoding()) == Ok::<Self, ParameterDataError>(*self),
    {
        lemma_record_roundtrip(*self);
    }
}

#[derive(Clone, Copy, Debug, PartialEq, Eq, Structural)]
pub struct SetInterfaceApplyConfigurationRequest {
    pub interface_id: u32,
}

impl<'a> FixedWire<'a> for SetInterfaceApplyConfigurationRequest {
    open spec fn spec_size() -> nat {
        4
    }

    open spec fn spec_wire(&self) -> Seq<u8> {
        self.interface_id.spec_wire()
    }

    open spec fn spec_read(bytes: Seq<u8>) -> Option<Self> {
        if <u32 as FixedWire>::spec_read(bytes.subrange(0, 4)) is Some {
            Some(SetInterfaceApplyConfigurationRequest {
                interface_id: <u32 as FixedWire>::spec_read(bytes.subrange(0, 4)).unwrap(),
            })
        } else {
            None
        }
    }

    open spec fn spec_wire_valid(&self) -> bool {
        self.interface_id.spec_wire_valid()
    }

    fn wire_size() -> (n: usize) {
        4
    }

    fn write_wire(&self, out: &mut Vec<u8>) {
        let ghost start = out@;
        self.interface_id.write_wire(out);
        proof {
            assert(out@ =~= start + self.spec_wire());
        }
    }

    fn read_wire(buf: &'a [u8], pos: usize) -> (r: Option<Self>) {
        let _len = buf.len();
        let ghost bytes = buf@.subrange(pos as int, pos + 4);
        proof {
            assert(bytes.subrange(0, 4) =~= buf@.subrange(pos + 0, pos + 4));
        }
        let v0 = match <u32 as FixedWire>::read_wire(buf, pos) {
            Some(v) => v,
            None => return None,
        };
        Some(SetInterfaceApplyConfigurationRequest { interface_id: v0 })
    }

    proof fn lemma_wire(&self) {
        self.interface_id.lemma_wire();
        let w = self.spec_wire();
        assert(w.subrange(0, 4) =~= self.interface_id.spec_wire());
        if self.spec_wire_valid() {
            assert(<u32 as FixedWire>::spec_read(w.subrange(0, 4)) == Some(self.interface_id));
        }
    }
}

impl SetInterfaceApplyConfigurationRequest {
    /// The parameter data of the value.
    pub open spec fn spec_encoding(&self) -> Seq<u8> {
        self.spec_wire()
    }

    /// The value that parameter data stands for, or why it stands for none.
    pub open spec fn spec_decoded(buf: Seq<u8>) -> Result<Self, ParameterDataError> {
        record_decoded::<Self>(buf)
    }

    /// Whether decoding the parameter data gives the value back.
    pub open spec fn spec_encodable(&self) -> bool {
        self.spec_wire_valid()
    }

    pub fn size_of(&self) -> (n: usize)
        ensures
            n == self.spec_encoding().len(),
            n <= 4,
    {
        proof {
            self.lemma_wire();
        }
        Self::wire_size()
    }

    /// Appends the parameter data to `out`.
    pub fn write_encoding(&self, out: &mut Vec<u8>)
        ensures
            final(out)@ == old(out)@ + self.spec_encoding(),
    {
        self.write_wire(out);
    }

    pub fn encode_parameter_data(&self, buf: &mut [u8]) -> (r: Result<usize, ParameterDataError>)
        ensures
            encoded_into(old(buf)@, final(buf)@, self.spec_encoding(), r),
    {
        encode_record(self, buf)
    }

    pub fn decode_parameter_data(buf: &[u8]) -> (r: Result<Self, ParameterDataError>)
        ensures
            r == Self::spec_decoded(buf@),
    {
        decode_record(buf)
    }

    /// Decoding the parameter data of an encodable value gives it back.
    pub proof fn lemma_roundtrip(&self)
        requires
            self.spec_encodable(),
        ensures
            Self::spec_decoded(self.spec_encoding()) == Ok::<Self, ParameterDataError>(*self),
    {
        lemma_record_roundtrip(*self);
    }
}

#[derive(Clone, Copy, Debug, PartialEq)]
pub struct SetIpV4DefaultRouteRequest {
    pub interface_id: u32,
    pub address: Ipv4Route,
}

impl<'a> FixedWire<'a> for SetIpV4DefaultRouteRequest {
    open spec fn spec_size() -> nat {
        8
    }

    open spec fn spec_wire(&self) -> Seq<u8> {
        self.interface_id.spec_wire() + self.address.spec_wire()
    }

    open spec fn spec_read(bytes: Seq<u8>) -> Option<Self> {
        if <u32 as FixedWire>::spec_read(bytes.subrange(0, 4)) is Some
            && <Ipv4Route as FixedWire>::spec_read(bytes.subrange(4, 8)) is Some {
            Some(SetIpV4DefaultRouteRequest {
                interface_id: <u32 as FixedWire>::spec_read(bytes.subrange(0, 4)).unwrap(),
                address: <Ipv4Route as FixedWire>::spec_read(bytes.subrange(4, 8)).unwrap(),
            })
        } else {
            None
        }
    }

    open spec fn spec_wire_valid(&self) -> bool {
        self.interface_id.spec_wire_valid() && self.address.spec_wire_valid()
    }

    fn wire_size() -> (n: usize) {
        8
    }

    fn write_wire(&self, out: &mut Vec<u8>) {
        let ghost start = out@;
        self.interface_id.write_wire(out);
        self.address.write_wire(out);
        proof {
            assert(out@ =~= start + self.spec_wire());
        }
    }

    fn read_wire(buf: &'a [u8], pos: usize) -> (r: Option<Self>) {
        let _len = buf.len();
        let ghost bytes = buf@.subrange(pos as int, pos + 8);
        proof {
            assert(bytes.subrange(0, 4) =~= buf@.subrange(pos + 0, pos + 4));
            assert(bytes.subrange(4, 8) =~= buf@.subrange(pos + 4, pos + 8));
        }
        let v0 = match <u32 as FixedWire>::read_wire(buf, pos) {
            Some(v) => v,
            None => return None,
        };
        let v1 = match <Ipv4Route as FixedWire>::read_wire(buf, pos + 4) {
            Some(v) => v,
            None => return None,
        };
        Some(SetIpV4DefaultRouteRequest { interface_id: v0, address: v1 })
    }

    proof fn lemma_wire(&self) {
        self.interface_id.lemma_wire();
        self.address.lemma_wire();
        let w = self.spec_wire();
        assert(w.subrange(0, 4) =~= self.interface_id.spec_wire());
        assert(w.subrange(4, 8) =~= self.address.spec_wire());
        if self.spec_wire_valid() {
            assert(<u32 as FixedWire>::spec_read(w.subrange(0, 4)) == Some(self.interface_id));
            assert(<Ipv4Route as FixedWire>::spec_read(w.subrange(4, 8)) == Some(self.address));
        }
    }
}

impl SetIpV4DefaultRouteRequest {
    /// The parameter data of the value.
    pub open spec fn spec_encoding(&self) -> Seq<u8> {
        self.spec_wire()
    }

    /// The value that parameter data stands for, or why it stands for none.
    pub open spec fn spec_decoded(buf: Seq<u8>) -> Result<Self, ParameterDataError> {
        record_decoded::<Self>(buf)
    }

    /// Whether decoding the parameter data gives the value back.
    pub open spec fn spec_encodable(&self) -> bool {
        self.spec_wire_valid()
    }

    pub fn size_of(&self) -> (n: usize)
        ensures
            n == self.spec_encoding().len(),
            n <= 8,
    {
        proof {
            self.lemma_wire();
        }
        Self::wire_size()
    }

    /// Appends the parameter data to `out`.
    pub fn write_encoding(&self, out: &mut Vec<u8>)
        ensures
            final(out)@ == old(out)@ + self.spec_encoding(),
    {
        self.write_wire(out);
    }

    pub fn encode_parameter_data(&self, buf: &mut [u8]) -> (r: Result<usize, ParameterDataError>)
        ensures
            encoded_into(old(buf)@, final(buf)@, self.spec_encoding(), r),
    {
        encode_record(self, buf)
    }

    pub fn decode_parameter_data(buf: &[u8]) -> (r: Result<Self, ParameterDataError>)
        ensures
            r == Self::spec_decoded(buf@),
    {
        decode_record(buf)
    }

    /// Decoding the parameter data of an encodable value gives it back.
    pub proof fn lemma_roundtrip(&self)
        requires
            self.spec_encodable(),
        ensures
            Self::spec_decoded(self.spec_encoding()) == Ok::<Self, ParameterDataError>(*self),
    {
        lemma_record_roundtrip(*self);
    }
}

#[derive(Clone, Copy, Debug, PartialEq, Eq, Structural)]
pub struct GetDnsIpV4NameServerRequest {
    pub name_server_index: u8,
}

impl<'a> FixedWire<'a> for GetDnsIpV4NameServerRequest {
    open spec fn spec_size() -> nat {
        1
    }

    open spec fn spec_wire(&self) -> Seq<u8> {
        self.name_server_index.spec_wire()
    }

    open spec fn spec_read(bytes: Seq<u8>) -> Option<Self> {
        if <u8 as FixedWire>::spec_read(bytes.subrange(0, 1)) is Some {
            Some(GetDnsIpV4NameServerRequest {
                name_server_index: <u8 as FixedWire>::spec_read(bytes.subrange(0, 1)).unwrap(),
            })
        } else {
            None
        }
    }

    open spec fn spec_wire_valid(&self) -> bool {
        self.name_server_index.spec_wire_valid()
    }

    fn wire_size() -> (n: usize) {
        1
    }

    fn write_wire(&self, out: &mut Vec<u8>) {
        let ghost start = out@;
        self.name_server_index.write_wire(out);
        proof {
            assert(out@ =~= start + self.spec_wire());
        }
    }

    fn read_wire(buf: &'a [u8], pos: usize) -> (r: Option<Self>) {
        let _len = buf.len();
        let ghost bytes = buf@.subrange(pos as int, pos + 1);
        proof {
            assert(bytes.subrange(0, 1) =~= buf@.subrange(pos + 0, pos + 1));
        }
        let v0 = match <u8 as FixedWire>::read_wire(buf, pos) {
            Some(v) => v,
            None => return None,
        };
        Some(GetDnsIpV4NameServerRequest { name_server_index: v0 })
    }

    proof fn lemma_wire(&self) {
        self.name_server_index.lemma_wire();
        let w = self.spec_wire();
        assert(w.subrange(0, 1) =~= self.name_server_index.spec_wire());
        if self.spec_wire_valid() {
            assert(<u8 as FixedWire>::spec_read(w.subrange(0, 1)) == Some(self.name_server_index));
        }
    }
}

impl GetDnsIpV4NameServerRequest {
    /// The parameter data of the value.
    pub open spec fn spec_encoding(&self) -> Seq<u8> {
        self.spec_wire()
    }

    /// The value that parameter data stands for, or why it stands for none.
    pub open spec fn spec_decoded(buf: Seq<u8>) -> Result<Self, ParameterDataError> {
        record_decoded::<Self>(buf)
    }

    /// Whether decoding the parameter data gives the value back.
    pub open spec fn spec_encodable(&self) -> bool {
        self.spec_wire_valid()
    }

    pub fn size_of(&self) -> (n: usize)
        ensures
            n == self.spec_encoding().len(),
            n <= 1,
    {
        proof {
            self.lemma_wire();
        }
        Self::wire_size()
    }

    /// Appends the parameter data to `out`.
    pub fn write_encoding(&self, out: &mut Vec<u8>)
        ensures
            final(out)@ == old(out)@ + self.spec_encoding(),
    {
        self.write_wire(out);
    }

    pub fn encode_parameter_data(&self, buf: &mut [u8]) -> (r: Result<usize, ParameterDataError>)
        ensures
            encoded_into(old(buf)@, final(buf)@, self.spec_encoding(), r),
    {
        encode_record(self, buf)
    }

    pub fn decode_parameter_data(buf: &[u8]) -> (r: Result<Self, ParameterDataError>)
        ensures
            r == Self::spec_decoded(buf@),
    {
        decode_record(buf)
    }

    /// Decoding the parameter data of an encodable value gives it back.
    pub proof fn lemma_roundtrip(&self)
        requires
            self.spec_encodable(),
        ensures
            Self::spec_decoded(self.spec_encoding()) == Ok::<Self, ParameterDataError>(*self),
    {
        lemma_record_roundtrip(*self);
    }
}

#[derive(Clone, Copy, Debug, PartialEq)]
pub struct SetDnsIpv4NameServerRequest {
    pub name_server_index: u8,
    pub name_server_address: Ipv4Address,
}

impl<'a> FixedWire<'a> for SetDnsIpv4NameServerRequest {
    open spec fn spec_size() -> nat {
        5
    }

    open spec fn spec_wire(&self) -> Seq<u8> {
        self.name_server_index.spec_wire() + self.name_server_address.spec_wire()
    }

    open spec fn spec_read(bytes: Seq<u8>) -> Option<Self> {
        if <u8 as FixedWire>::spec_read(bytes.subrange(0, 1)) is Some
            && <Ipv4Address as FixedWire>::spec_read(bytes.subrange(1, 5)) is Some {
            Some(SetDnsIpv4NameServerRequest {
                name_server_index: <u8 as FixedWire>::spec_read(bytes.subrange(0, 1)).unwrap(),
                name_server_address: <Ipv4Address as FixedWire>::spec_read(bytes.subrange(1, 5)).unwrap(),
            })
        } else {
            None
        }
    }

    open spec fn spec_wire_valid(&self) -> bool {
        self.name_server_index.spec_wire_valid() && self.name_server_address.spec_wire_valid()
    }

    fn wire_size() -> (n: usize) {
        5
    }

    fn write_wire(&self, out: &mut Vec<u8>) {
        let ghost start = out@;
        self.name_server_index.write_wire(out);
        self.name_server_address.write_wire(out);
        proof {
            assert(out@ =~= start + self.spec_wire());
        }
    }

    fn read_wire(buf: &'a [u8], pos: usize) -> (r: Option<Self>) {
        let _len = buf.len();
        let ghost bytes = buf@.subrange(pos as int, pos + 5);
        proof {
            assert(bytes.subrange(0, 1) =~= buf@.subrange(pos + 0, pos + 1));
            assert(bytes.subrange(1, 5) =~= buf@.subrange(pos + 1, pos + 5));
        }
        let v0 = match <u8 as FixedWire>::read_wire(buf, pos) {
            Some(v) => v,
            None => return None,
        };
        let v1 = match <Ipv4Address as FixedWire>::read_wire(buf, pos + 1) {
            Some(v) => v,
            None => return None,
        };
        Some(SetDnsIpv4NameServerRequest { name_server_index: v0, name_server_address: v1 })
    }

    proof fn lemma_wire(&self) {
        self.name_server_index.lemma_wire();
        self.name_server_address.lemma_wire();
        let w = self.spec_wire();
        assert(w.subrange(0, 1) =~= self.name_server_index.spec_wire());
        assert(w.subrange(1, 5) =~= self.name_server_address.spec_wire());
        if self.spec_wire_valid() {
            assert(<u8 as FixedWire>::spec_read(w.subrange(0, 1)) == Some(self.name_server_index));
            assert(<Ipv4Address as FixedWire>::spec_read(w.subrange(1, 5)) == Some(self.name_server_address));
        }
    }
}

impl SetDnsIpv4NameServerRequest {
    /// The parameter data of the value.
    pub open spec fn spec_encoding(&self) -> Seq<u8> {
        self.spec_wire()
    }

    /// The value that parameter data stands for, or why it stands for none.
    pub open spec fn spec_decoded(buf: Seq<u8>) -> Result<Self, ParameterDataError> {
        record_decoded::<Self>(buf)
    }

    /// Whether decoding the parameter data gives the value back.
    pub open spec fn spec_encodable(&self) -> bool {
        self.spec_wire_valid()
    }

    pub fn size_of(&self) -> (n: usize)
        ensures
            n == self.spec_encoding().len(),
            n <= 5,
    {
        proof {
            self.lemma_wire();
        }
        Self::wire_size()
    }

    /// Appends the parameter data to `out`.
    pub fn write_encoding(&self, out: &mut Vec<u8>)
        ensures
            final(out)@ == old(out)@ + self.spec_encoding(),
    {
        self.write_wire(out);
    }

    pub fn encode_parameter_data(&self, buf: &mut [u8]) -> (r: Result<usize, ParameterDataError>)
        ensures
            encoded_into(old(buf)@, final(buf)@, self.spec_encoding(), r),
    {
        encode_record(self, buf)
    }

    pub fn decode_parameter_data(buf: &[u8]) -> (r: Result<Self, ParameterDataError>)
        ensures
            r == Self::spec_decoded(buf@),
    {
        decode_record(buf)
    }

    /// Decoding the parameter data of an encodable value gives it back.
    pub proof fn lemma_roundtrip(&self)
        requires
            self.spec_encodable(),
        ensures
            Self::spec_decoded(self.spec_encoding()) == Ok::<Self, ParameterDataError>(*self),
    {
        lemma_record_roundtrip(*self);
    }
}

#[derive(Clone, Copy, Debug, PartialEq)]
pub struct SetDnsHostNameRequest {
    pub dns_host_name: DnsHostName,
}

impl SetDnsHostNameRequest {
    /// The parameter data of the value.
    pub open spec fn spec_encoding(&self) -> Seq<u8> {
        self.dns_host_name.spec_encode()
    }

    /// The value that parameter data stands for, or why it stands for none.
    pub open spec fn spec_decoded(buf: Seq<u8>) -> Result<Self, ParameterDataError> {
        let rest = buf.subrange(0, buf.len() as int);
        match DnsHostName::spec_decode(rest) {
            Ok(t) => Ok(SetDnsHostNameRequest { dns_host_name: t }),
            Err(e) => Err(e),
        }
    }

    /// Whether decoding the parameter data gives the value back.
    pub open spec fn spec_encodable(&self) -> bool {
        self.dns_host_name.spec_encodable()
    }

    /// Appends the parameter data to `out`.
    pub fn write_encoding(&self, out: &mut Vec<u8>)
        ensures
            final(out)@ == old(out)@ + self.spec_encoding(),
    {
        let ghost start = out@;
        self.dns_host_name.write_encoded(out);
        proof {
            assert(out@ =~= start + self.spec_encoding());
        }
    }

    pub fn size_of(&self) -> (n: usize)
        ensures
            n == self.spec_encoding().len(),
            n <= 63,
    {
        proof {
            use_type_invariant(&self.dns_host_name);
            self.dns_host_name.lemma_encode_len();
        }
        let mut out: Vec<u8> = Vec::new();
        self.write_encoding(&mut out);
        proof {
            assert(out@ =~= self.spec_encoding());
        }
        out.len()
    }

    pub fn encode_parameter_data(&self, buf: &mut [u8]) -> (r: Result<usize, ParameterDataError>)
        ensures
            encoded_into(old(buf)@, final(buf)@, self.spec_encoding(), r),
    {
        let mut out: Vec<u8> = Vec::new();
        self.write_encoding(&mut out);
        proof {
            assert(out@ =~= self.spec_encoding());
        }
        copy_encoded(buf, out.as_slice())
    }

    pub fn decode_parameter_data(buf: &[u8]) -> (r: Result<Self, ParameterDataError>)
        ensures
            r == Self::spec_decoded(buf@),
    {
        match DnsHostName::decode_parameter_data(vstd::slice::slice_subrange(buf, 0, buf.len())) {
            Ok(t) => Ok(SetDnsHostNameRequest { dns_host_name: t }),
            Err(e) => Err(e),
        }
    }

    /// Decoding the parameter data of an encodable value gives it back.
    pub proof fn lemma_roundtrip(&self)
        requires
            self.spec_encodable(),
        ensures
            Self::spec_decoded(self.spec_encoding()) == Ok::<Self, ParameterDataError>(*self),
    {
        let e = self.spec_encoding();
        assert(e.subrange(0, e.len() as int) =~= self.dns_host_name.spec_encode());
        self.dns_host_name.lemma_roundtrip();
    }
}

#[derive(Clone, Copy, Debug, PartialEq)]
pub struct SetDnsDomainNameRequest {
    pub dns_domain_name: DnsDomainName,
}

impl SetDnsDomainNameRequest {
    /// The parameter data of the value.
    pub open spec fn spec_encoding(&self) -> Seq<u8> {
        self.dns_domain_name.spec_encode()
    }

    /// The value that parameter data stands for, or why it stands for none.
    pub open spec fn spec_decoded(buf: Seq<u8>) -> Result<Self, ParameterDataError> {
        let rest = buf.subrange(0, buf.len() as int);
        match DnsDomainName::spec_decode(rest) {
            Ok(t) => Ok(SetDnsDomainNameRequest { dns_domain_name: t }),
            Err(e) => Err(e),
        }
    }

    /// Whether decoding the parameter data gives the value back.
    pub open spec fn spec_encodable(&self) -> bool {
        self.dns_domain_name.spec_encodable()
    }

    /// Appends the parameter data to `out`.
    pub fn write_encoding(&self, out: &mut Vec<u8>)
        ensures
            final(out)@ == old(out)@ + self.spec_encoding(),
    {
        let ghost start = out@;
        self.dns_domain_name.write_encoded(out);
        proof {
            assert(out@ =~= start + self.spec_encoding());
        }
    }

    pub fn size_of(&self) -> (n: usize)
        ensures
            n == self.spec_encoding().len(),
            n <= 231,
    {
        proof {
            use_type_invariant(&self.dns_domain_name);
            self.dns_domain_name.lemma_encode_len();
        }
        let mut out: Vec<u8> = Vec::new();
        self.write_encoding(&mut out);
        proof {
            assert(out@ =~= self.spec_encoding());
        }
        out.len()
    }

    pub fn encode_parameter_data(&self, buf: &mut [u8]) -> (r: Result<usize, ParameterDataError>)
        ensures
            encoded_into(old(buf)@, final(buf)@, self.spec_encoding(), r),
    {
        let mut out: Vec<u8> = Vec::new();
        self.write_encoding(&mut out);
        proof {
            assert(out@ =~= self.spec_encoding());
        }
        copy_encoded(buf, out.as_slice())
    }

    pub fn decode_parameter_data(buf: &[u8]) -> (r: Result<Self, ParameterDataError>)
        ensures
            r == Self::spec_decoded(buf@),
    {
        match DnsDomainName::decode_parameter_data(vstd::slice::slice_subrange(buf, 0, buf.len())) {
            Ok(t) => Ok(SetDnsDomainNameRequest { dns_domain_name: t }),
            Err(e) => Err(e),
        }
    }

    /// Decoding the parameter data of an encodable value gives it back.
    pub proof fn lemma_roundtrip(&self)
        requires
            self.spec_encodable(),
        ensures
            Self::spec_decoded(self.spec_encoding()) == Ok::<Self, ParameterDataError>(*self),
    {
        let e = self.spec_encoding();
        assert(e.subrange(0, e.len() as int) =~= self.dns_domain_name.spec_encode());
        self.dns_domain_name.lemma_roundtrip();
    }
}

} // verus!
