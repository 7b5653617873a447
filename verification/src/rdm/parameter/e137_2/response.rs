//! Parameter data of the E137-2 responses.

use crate::rdm::error::{ParameterDataError};
use crate::rdm::utils::{copy_encoded, encoded_into};
use crate::rdm::wire::{decode_record, encode_record, lemma_record_roundtrip, record_decoded, FixedWire};
use vstd::prelude::*;
use vstd::std_specs::convert::{FromSpecImpl, TryFromSpecImpl};
use vstd::string::StringSliceAdditionalSpecFns;
use crate::rdm::parameter::e137_2::{DhcpMode, DnsDomainName, DnsHostName, InterfaceLabel, Ipv4Address, Ipv4Route, MacAddress};
use crate::rdm::parameter::lists::{NetworkInterfaceList};

verus! {

broadcast use vstd::array::group_array_axioms;

#[derive(Clone, Copy, Debug, PartialEq)]
pub struct GetListInterfacesResponse {
    pub interface_list: NetworkInterfaceList,
}

impl GetListInterfacesResponse {
    /// The parameter data of the value.
    pub open spec fn spec_encoding(&self) -> Seq<u8> {
        self.interface_list.spec_encode_items()
    }

    /// The value that parameter data stands for, or why it stands for none.
    pub open spec fn spec_decoded(buf: Seq<u8>) -> Result<Self, ParameterDataError> {
        let rest = buf.subrange(0, buf.len() as int);
        match NetworkInterfaceList::spec_decode_items(rest) {
            Ok(t) => Ok(GetListInterfacesResponse { interface_list: t }),
            Err(e) => Err(e),
        }
    }

    /// Whether decoding the parameter data gives the value back.
    pub open spec fn spec_encodable(&self) -> bool {
        self.interface_list.spec_items_encodable()
    }

    /// Appends the parameter data to `out`.
    pub fn write_encoding(&self, out: &mut Vec<u8>)
        ensures
            final(out)@ == old(out)@ + self.spec_encoding(),
    {
        let ghost start = out@;
        self.interface_list.write_items_to(out);
        proof {
            assert(out@ =~= start + self.spec_encoding());
        }
    }

    pub fn size_of(&self) -> (n: usize)
        ensures
            n == self.spec_encoding().len(),
            n <= 228,
    {
        proof {
            use_type_invariant(&self.interface_list);
            self.interface_list.lemma_encode_items_len();
        }
        let mut out: Vec<u8> = Vec::new();
        self.write_encoding(&mut out);
        proof {
            assert(out@ =~= self.spec_encoding());
        }
        out.len()
    }

    pub fn encode_parameter_data(&self, buf: &mut [u8]) -> (r: Result<usize, ParameterDataError>)
        ensures
            encoded_into(old(buf)@, final(buf)@, self.spec_encoding(), r),
    {
        let mut out: Vec<u8> = Vec::new();
        self.write_encoding(&mut out);
        proof {
            assert(out@ =~= self.spec_encoding());
        }
        copy_encoded(buf, out.as_slice())
    }

    pub fn decode_parameter_data(buf: &[u8]) -> (r: Result<Self, ParameterDataError>)
        ensures
            r == Self::spec_decoded(buf@),
    {
        match NetworkInterfaceList::decode_items(buf, 0) {
            Ok(t) => Ok(GetListInterfacesResponse { interface_list: t }),
            Err(e) => Err(e),
        }
    }

    /// Decoding the parameter data of an encodable value gives it back.
    pub proof fn lemma_roundtrip(&self)
        requires
            self.spec_encodable(),
        ensures
            Self::spec_decoded(self.spec_encoding()) == Ok::<Self, ParameterDataError>(*self),
    {
        let e = self.spec_encoding();
        assert(e.subrange(0, e.len() as int) =~= self.interface_list.spec_encode_items());
        self.interface_list.lemma_items_roundtrip();
    }
}

#[derive(Clone, Copy, Debug, PartialEq)]
pub struct GetInterfaceLabelResponse {
    pub interface_id: u32,
    pub interface_label: InterfaceLabel,
}

impl<'a> FixedWire<'a> for GetInterfaceLabelResponse {
    open spec fn spec_size() -> nat {
        36
    }

    open spec fn spec_wire(&self) -> Seq<u8> {
        self.interface_id.spec_wire() + self.interface_label.spec_wire()
    }

    open spec fn spec_read(bytes: Seq<u8>) -> Option<Self> {
        if <u32 as FixedWire>::spec_read(bytes.subrange(0, 4)) is Some
            && <InterfaceLabel as FixedWire>::spec_read(bytes.subrange(4, 36)) is Some {
            Some(GetInterfaceLabelResponse {
                interface_id: <u32 as FixedWire>::spec_read(bytes.subrange(0, 4)).unwrap(),
                interface_label: <InterfaceLabel as FixedWire>::spec_read(bytes.subrange(4, 36)).unwrap(),
            })
        } else {
            None
        }
    }

    open spec fn spec_wire_valid(&self) -> bool {
        self.interface_id.spec_wire_valid() && self.interface_label.spec_wire_valid()
    }

    fn wire_size() -> (n: usize) {
        36
    }

    fn write_wire(&self, out: &mut Vec<u8>) {
        let ghost start = out@;
        self.interface_id.write_wire(out);
        self.interface_label.write_wire(out);
        proof {
            assert(out@ =~= start + self.spec_wire());
        }
    }

    fn read_wire(buf: &'a [u8], pos: usize) -> (r: Option<Self>) {
        let _len = buf.len();
        let ghost bytes = buf@.subrange(pos as int, pos + 36);
        proof {
            assert(bytes.subrange(0, 4) =~= buf@.subrange(pos + 0, pos + 4));
            assert(bytes.subrange(4, 36) =~= buf@.subrange(pos + 4, pos + 36));
        }
        let v0 = match <u32 as FixedWire>::read_wire(buf, pos) {
            Some(v) => v,
            None => return None,
        };
        let v1 = match <InterfaceLabel as FixedWire>::read_wire(buf, pos + 4) {
            Some(v) => v,
            None => return None,
        };
        Some(GetInterfaceLabelResponse { interface_id: v0, interface_label: v1 })
    }

    proof fn lemma_wire(&self) {
        self.interface_id.lemma_wire();
        self.interface_label.lemma_wire();
        let w = self.spec_wire();
        assert(w.subrange(0, 4) =~= self.interface_id.spec_wire());
        assert(w.subrange(4, 36) =~= self.interface_label.spec_wire());
        if self.spec_wire_valid() {
            assert(<u32 as FixedWire>::spec_read(w.subrange(0, 4)) == Some(self.interface_id));
            assert(<InterfaceLabel as FixedWire>::spec_read(w.subrange(4, 36)) == Some(self.interface_label));
        }
    }
}

impl GetInterfaceLabelResponse {
    /// The parameter data of the value.
    pub open spec fn spec_encoding(&self) -> Seq<u8> {
        self.spec_wire()
    }

    /// The value that parameter data stands for, or why it stands for none.
    pub open spec fn spec_decoded(buf: Seq<u8>) -> Result<Self, ParameterDataError> {
        record_decoded::<Self>(buf)
    }

    /// Whether decoding the parameter data gives the value back.
    pub open spec fn spec_encodable(&self) -> bool {
        self.spec_wire_valid()
    }

    pub fn size_of(&self) -> (n: usize)
        ensures
            n == self.spec_encoding().len(),
            n <= 36,
    {
        proof {
            self.lemma_wire();
        }
        Self::wire_size()
    }

    /// Appends the parameter data to `out`.
    pub fn write_encoding(&self, out: &mut Vec<u8>)
        ensures
            final(out)@ == old(out)@ + self.spec_encoding(),
    {
        self.write_wire(out);
    }

    pub fn encode_parameter_data(&self, buf: &mut [u8]) -> (r: Result<usize, ParameterDataError>)
        ensures
            encoded_into(old(buf)@, final(buf)@, self.spec_encoding(), r),
    {
        encode_record(self, buf)
    }

    pub fn decode_parameter_data(buf: &[u8]) -> (r: Result<Self, ParameterDataError>)
        ensures
            r == Self::spec_decoded(buf@),
    {
        decode_record(buf)
    }

    /// Decoding the parameter data of an encodable value gives it back.
    pub proof fn lemma_roundtrip(&self)
        requires
            self.spec_encodable(),
        ensures
            Self::spec_decoded(self.spec_encoding()) == Ok::<Self, ParameterDataError>(*self),
    {
        lemma_record_roundtrip(*self);
    }
}

#[derive(Clone, Copy, Debug, PartialEq)]
pub struct GetInterfaceHardwareAddressType1Response {
    pub interface_id: u32,
    pub hardware_address: MacAddress,
}

impl<'a> FixedWire<'a> for GetInterfaceHardwareAddressType1Response {
    open spec fn spec_size() -> nat {
        10
    }

    open spec fn spec_wire(&self) -> Seq<u8> {
        self.interface_id.spec_wire() + self.hardware_address.spec_wire()
    }

    open spec fn spec_read(bytes: Seq<u8>) -> Option<Self> {
        if <u32 as FixedWire>::spec_read(bytes.subrange(0, 4)) is Some
            && <MacAddress as FixedWire>::spec_read(bytes.subrange(4, 10)) is Some {
            Some(GetInterfaceHardwareAddressType1Response {
                interface_id: <u32 as FixedWire>::spec_read(bytes.subrange(0, 4)).unwrap(),
                hardware_address: <MacAddress as FixedWire>::spec_read(bytes.subrange(4, 10)).unwrap(),
            })
        } else {
            None
        }
    }

    open spec fn spec_wire_valid(&self) -> bool {
        self.interface_id.spec_wire_valid() && self.hardware_address.spec_wire_valid()
    }

    fn wire_size() -> (n: usize) {
        10
    }

    fn write_wire(&self, out: &mut Vec<u8>) {
        let ghost start = out@;
        self.interface_id.write_wire(out);
        self.hardware_address.write_wire(out);
        proof {
            assert(out@ =~= start + self.spec_wire());
        }
    }

    fn read_wire(buf: &'a [u8], pos: usize) -> (r: Option<Self>) {
        let _len = buf.len();
        let ghost bytes = buf@.subrange(pos as int, pos + 10);
        proof {
            assert(bytes.subrange(0, 4) =~= buf@.subrange(pos + 0, pos + 4));
            assert(bytes.subrange(4, 10) =~= buf@.subrange(pos + 4, pos + 10));
        }
        let v0 = match <u32 as FixedWire>::read_wire(buf, pos) {
            Some(v) => v,
            None => return None,
        };
        let v1 = match <MacAddress as FixedWire>::read_wire(buf, pos + 4) {
            Some(v) => v,
            None => return None,
        };
        Some(GetInterfaceHardwareAddressType1Response { interface_id: v0, hardware_address: v1 })
    }

    proof fn lemma_wire(&self) {
        self.interface_id.lemma_wire();
        self.hardware_address.lemma_wire();
        let w = self.spec_wire();
        assert(w.subrange(0, 4) =~= self.interface_id.spec_wire());
        assert(w.subrange(4, 10) =~= self.hardware_address.spec_wire());
        if self.spec_wire_valid() {
            assert(<u32 as FixedWire>::spec_read(w.subrange(0, 4)) == Some(self.interface_id));
            assert(<MacAddress as FixedWire>::spec_read(w.subrange(4, 10)) == Some(self.hardware_address));
        }
    }
}

impl GetInterfaceHardwareAddressType1Response {
    /// The parameter data of the value.
    pub open spec fn spec_encoding(&self) -> Seq<u8> {
        self.spec_wire()
    }

    /// The value that parameter data stands for, or why it stands for none.
    pub open spec fn spec_decoded(buf: Seq<u8>) -> Result<Self, ParameterDataError> {
        record_decoded::<Self>(buf)
    }

    /// Whether decoding the parameter data gives the value back.
    pub open spec fn spec_encodable(&self) -> bool {
        self.spec_wire_valid()
    }

    pub fn size_of(&self) -> (n: usize)
        ensures
            n == self.spec_encoding().len(),
            n <= 10,
    {
        proof {
            self.lemma_wire();
        }
        Self::wire_size()
    }

    /// Appends the parameter data to `out`.
    pub fn write_encoding(&self, out: &mut Vec<u8>)
        ensures
            final(out)@ == old(out)@ + self.spec_encoding(),
    {
        self.write_wire(out);
    }

    pub fn encode_parameter_data(&self, buf: &mut [u8]) -> (r: Result<usize, ParameterDataError>)
        ensures
            encoded_into(old(buf)@, final(buf)@, self.spec_encoding(), r),
    {
        encode_record(self, buf)
    }

    pub fn decode_parameter_data(buf: &[u8]) -> (r: Result<Self, ParameterDataError>)
        ensures
            r == Self::spec_decoded(buf@),
    {
        decode_record(buf)
    }

    /// Decoding the parameter data of an encodable value gives it back.
    pub proof fn lemma_roundtrip(&self)
        requires
            self.spec_encodable(),
        ensures
            Self::spec_decoded(self.spec_encoding()) == Ok::<Self, ParameterDataError>(*self),
    {
        lemma_record_roundtrip(*self);
    }
}

#[derive(Clone, Copy, Debug, PartialEq, Eq, Structural)]
pub struct GetIpV4DhcpModeResponse {
    pub interface_id: u32,
    pub dhcp_mode: bool,
}

impl<'a> FixedWire<'a> for GetIpV4DhcpModeResponse {
    open spec fn spec_size() -> nat {
        5
    }

    open spec fn spec_wire(&self) -> Seq<u8> {
        self.interface_id.spec_wire() + self.dhcp_mode.spec_wire()
    }

    open spec fn spec_read(bytes: Seq<u8>) -> Option<Self> {
        if <u32 as FixedWire>::spec_read(bytes.subrange(0, 4)) is Some
            && <bool as FixedWire>::spec_read(bytes.subrange(4, 5)) is Some {
            Some(GetIpV4DhcpModeResponse {
                interface_id: <u32 as FixedWire>::spec_read(bytes.subrange(0, 4)).unwrap(),
                dhcp_mode: <bool as FixedWire>::spec_read(bytes.subrange(4, 5)).unwrap(),
            })
        } else {
            None
        }
    }

    open spec fn spec_wire_valid(&self) -> bool {
        self.interface_id.spec_wire_valid() && self.dhcp_mode.spec_wire_valid()
    }

    fn wire_size() -> (n: usize) {
        5
    }

    fn write_wire(&self, out: &mut Vec<u8>) {
        let ghost start = out@;
        self.interface_id.write_wire(out);
        self.dhcp_mode.write_wire(out);
        proof {
            assert(out@ =~= start + self.spec_wire());
        }
    }

    fn read_wire(buf: &'a [u8], pos: usize) -> (r: Option<Self>) {
        let _len = buf.len();
        let ghost bytes = buf@.subrange(pos as int, pos + 5);
        proof {
            assert(bytes.subrange(0, 4) =~= buf@.subrange(pos + 0, pos + 4));
            assert(bytes.subrange(4, 5) =~= buf@.subrange(pos + 4, pos + 5));
        }
        let v0 = match <u32 as FixedWire>::read_wire(buf, pos) {
            Some(v) => v,
            None => return None,
        };
        let v1 = match <bool as FixedWire>::read_wire(buf, pos + 4) {
            Some(v) => v,
            None => return None,
        };
        Some(GetIpV4DhcpModeResponse { interface_id: v0, dhcp_mode: v1 })
    }

    proof fn lemma_wire(&self) {
        self.interface_id.lemma_wire();
        self.dhcp_mode.lemma_wire();
        let w = self.spec_wire();
        assert(w.subrange(0, 4) =~= self.interface_id.spec_wire());
        assert(w.subrange(4, 5) =~= self.dhcp_mode.spec_wire());
        if self.spec_wire_valid() {
            assert(<u32 as FixedWire>::spec_read(w.subrange(0, 4)) == Some(self.interface_id));
            assert(<bool as FixedWire>::spec_read(w.subrange(4, 5)) == Some(self.dhcp_mode));
        }
    }
}

impl GetIpV4DhcpModeResponse {
    /// The parameter data of the value.
    pub open spec fn spec_encoding(&self) -> Seq<u8> {
        self.spec_wire()
    }

    /// The value that parameter data stands for, or why it stands for none.
    pub open spec fn spec_decoded(buf: Seq<u8>) -> Result<Self, ParameterDataError> {
        record_decoded::<Self>(buf)
    }

    /// Whether decoding the parameter data gives the value back.
    pub open spec fn spec_encodable(&self) -> bool {
        self.spec_wire_valid()
    }

    pub fn size_of(&self) -> (n: usize)
        ensures
            n == self.spec_encoding().len(),
            n <= 5,
    {
        proof {
            self.lemma_wire();
        }
        Self::wire_size()
    }

    /// Appends the parameter data to `out`.
    pub fn write_encoding(&self, out: &mut Vec<u8>)
        ensures
            final(out)@ == old(out)@ + self.spec_encoding(),
    {
        self.write_wire(out);
    }

    pub fn encode_parameter_data(&self, buf: &mut [u8]) -> (r: Result<usize, ParameterDataError>)
        ensures
            encoded_into(old(buf)@, final(buf)@, self.spec_encoding(), r),
    {
        encode_record(self, buf)
    }

    pub fn decode_parameter_data(buf: &[u8]) -> (r: Result<Self, ParameterDataError>)
        ensures
            r == Self::spec_decoded(buf@),
    {
        decode_record(buf)
    }

    /// Decoding the parameter data of an encodable value gives it back.
    pub proof fn lemma_roundtrip(&self)
        requires
            self.spec_encodable(),
        ensures
            Self::spec_decoded(self.spec_encoding()) == Ok::<Self, ParameterDataError>(*self),
    {
        lemma_record_roundtrip(*self);
    }
}

#[derive(Clone, Copy, Debug, PartialEq, Eq, Structural)]
pub struct GetIpV4ZeroConfModeResponse {
    pub interface_id: u32,
    pub zero_conf_mode: bool,
}

impl<'a> FixedWire<'a> for GetIpV4ZeroConfModeResponse {
    open spec fn spec_size() -> nat {
        5
    }

    open spec fn spec_wire(&self) -> Seq<u8> {
        self.interface_id.spec_wire() + self.zero_conf_mode.spec_wire()
    }

    open spec fn spec_read(bytes: Seq<u8>) -> Option<Self> {
        if <u32 as FixedWire>::spec_read(bytes.subrange(0, 4)) is Some
            && <bool as FixedWire>::spec_read(bytes.subrange(4, 5)) is Some {
            Some(GetIpV4ZeroConfModeResponse {
                interface_id: <u32 as FixedWire>::spec_read(bytes.subrange(0, 4)).unwrap(),
                zero_conf_mode: <bool as FixedWire>::spec_read(bytes.subrange(4, 5)).unwrap(),
            })
        } else {
            None
        }
    }

    open spec fn spec_wire_valid(&self) -> bool {
        self.interface_id.spec_wire_valid() && self.zero_conf_mode.spec_wire_valid()
    }

    fn wire_size() -> (n: usize) {
        5
    }

    fn write_wire(&self, out: &mut Vec<u8>) {
        let ghost start = out@;
        self.interface_id.write_wire(out);
        self.zero_conf_mode.write_wire(out);
        proof {
            assert(out@ =~= start + self.spec_wire());
        }
    }

    fn read_wire(buf: &'a [u8], pos: usize) -> (r: Option<Self>) {
        let _len = buf.len();
        let ghost bytes = buf@.subrange(pos as int, pos + 5);
        proof {
            assert(bytes.subrange(0, 4) =~= buf@.subrange(pos + 0, pos + 4));
            assert(bytes.subrange(4, 5) =~= buf@.subrange(pos + 4, pos + 5));
        }
        let v0 = match <u32 as FixedWire>::read_wire(buf, pos) {
            Some(v) => v,
            None => return None,
        };
        let v1 = match <bool as FixedWire>::read_wire(buf, pos + 4) {
            Some(v) => v,
            None => return None,
        };
        Some(GetIpV4ZeroConfModeResponse { interface_id: v0, zero_conf_mode: v1 })
    }

    proof fn lemma_wire(&self) {
        self.interface_id.lemma_wire();
        self.zero_conf_mode.lemma_wire();
        let w = self.spec_wire();
        assert(w.subrange(0, 4) =~= self.interface_id.spec_wire());
        assert(w.subrange(4, 5) =~= self.zero_conf_mode.spec_wire());
        if self.spec_wire_valid() {
            assert(<u32 as FixedWire>::spec_read(w.subrange(0, 4)) == Some(self.interface_id));
            assert(<bool as FixedWire>::spec_read(w.subrange(4, 5)) == Some(self.zero_conf_mode));
        }
    }
}

impl GetIpV4ZeroConfModeResponse {
    /// The parameter data of the value.
    pub open spec fn spec_encoding(&self) -> Seq<u8> {
        self.spec_wire()
    }

    /// The value that parameter data stands for, or why it stands for none.
    pub open spec fn spec_decoded(buf: Seq<u8>) -> Result<Self, ParameterDataError> {
        record_decoded::<Self>(buf)
    }

    /// Whether decoding the parameter data gives the value back.
    pub open spec fn spec_encodable(&self) -> bool {
        self.spec_wire_valid()
    }

    pub fn size_of(&self) -> (n: usize)
        ensures
            n == self.spec_encoding().len(),
            n <= 5,
    {
        proof {
            self.lemma_wire();
        }
        Self::wire_size()
    }

    /// Appends the parameter data to `out`.
    pub fn write_encoding(&self, out: &mut Vec<u8>)
        ensures
            final(out)@ == old(out)@ + self.spec_encoding(),
    {
        self.write_wire(out);
    }

    pub fn encode_parameter_data(&self, buf: &mut [u8]) -> (r: Result<usize, ParameterDataError>)
        ensures
            encoded_into(old(buf)@, final(buf)@, self.spec_encoding(), r),
    {
        encode_record(self, buf)
    }

    pub fn decode_parameter_data(buf: &[u8]) -> (r: Result<Self, ParameterDataError>)
        ensures
            r == Self::spec_decoded(buf@),
    {
        decode_record(buf)
    }

    /// Decoding the parameter data of an encodable value gives it back.
    pub proof fn lemma_roundtrip(&self)
        requires
            self.spec_encodable(),
        ensures
            Self::spec_decoded(self.spec_encoding()) == Ok::<Self, ParameterDataError>(*self),
    {
        lemma_record_roundtrip(*self);
    }
}

#[derive(Clone, Copy, Debug, PartialEq)]
pub struct GetIpV4CurrentAddressResponse {
    pub interface_id: u32,
    pub address: Ipv4Address,
    pub netmask: u8,
    pub dhcp_status: DhcpMode,
}

impl<'a> FixedWire<'a> for GetIpV4CurrentAddressResponse {
    open spec fn spec_size() -> nat {
        10
    }

    open spec fn spec_wire(&self) -> Seq<u8> {
        self.interface_id.spec_wire() + self.address.spec_wire() + self.netmask.spec_wire() + self.dhcp_status.spec_wire()
    }

    open spec fn spec_read(bytes: Seq<u8>) -> Option<Self> {
        if <u32 as FixedWire>::spec_read(bytes.subrange(0, 4)) is Some
            && <Ipv4Address as FixedWire>::spec_read(bytes.subrange(4, 8)) is Some
            && <u8 as FixedWire>::spec_read(bytes.subrange(8, 9)) is Some
            && <DhcpMode as FixedWire>::spec_read(bytes.subrange(9, 10)) is Some {
            Some(GetIpV4CurrentAddressResponse {
                interface_id: <u32 as FixedWire>::spec_read(bytes.subrange(0, 4)).unwrap(),
                address: <Ipv4Address as FixedWire>::spec_read(bytes.subrange(4, 8)).unwrap(),
                netmask: <u8 as FixedWire>::spec_read(bytes.subrange(8, 9)).unwrap(),
                dhcp_status: <DhcpMode as FixedWire>::spec_read(bytes.subrange(9, 10)).unwrap(),
            })
        } else {
            None
        }
    }

    open spec fn spec_wire_valid(&self) -> bool {
        self.interface_id.spec_wire_valid() && self.address.spec_wire_valid() && self.netmask.spec_wire_valid() && self.dhcp_status.spec_wire_valid()
    }

    fn wire_size() -> (n: usize) {
        10
    }

    fn write_wire(&self, out: &mut Vec<u8>) {
        let ghost start = out@;
        self.interface_id.write_wire(out);
        self.address.write_wire(out);
        self.netmask.write_wire(out);
        self.dhcp_status.write_wire(out);
        proof {
            assert(out@ =~= start + self.spec_wire());
        }
    }

    fn read_wire(buf: &'a [u8], pos: usize) -> (r: Option<Self>) {
        let _len = buf.len();
        let ghost bytes = buf@.subrange(pos as int, pos + 10);
        proof {
            assert(bytes.subrange(0, 4) =~= buf@.subrange(pos + 0, pos + 4));
            assert(bytes.subrange(4, 8) =~= buf@.subrange(pos + 4, pos + 8));
            assert(bytes.subrange(8, 9) =~= buf@.subrange(pos + 8, pos + 9));
            assert(bytes.subrange(9, 10) =~= buf@.subrange(pos + 9, pos + 10));
        }
        let v0 = match <u32 as FixedWire>::read_wire(buf, pos) {
            Some(v) => v,
            None => return None,
        };
        let v1 = match <Ipv4Address as FixedWire>::read_wire(buf, pos + 4) {
            Some(v) => v,
            None => return None,
        };
        let v2 = match <u8 as FixedWire>::read_wire(buf, pos + 8) {
            Some(v) => v,
            None => return None,
        };
        let v3 = match <DhcpMode as FixedWire>::read_wire(buf, pos + 9) {
            Some(v) => v,
            None => return None,
        };
        Some(GetIpV4CurrentAddressResponse { interface_id: v0, address: v1, netmask: v2, dhcp_status: v3 })
    }

    proof fn lemma_wire(&self) {
        self.interface_id.lemma_wire();
        self.address.lemma_wire();
        self.netmask.lemma_wire();
        self.dhcp_status.lemma_wire();
        let w = self.spec_wire();
        assert(w.subrange(0, 4) =~= self.interface_id.spec_wire());
        assert(w.subrange(4, 8) =~= self.address.spec_wire());
        assert(w.subrange(8, 9) =~= self.netmask.spec_wire());
        assert(w.subrange(9, 10) =~= self.dhcp_status.spec_wire());
        if self.spec_wire_valid() {
            assert(<u32 as FixedWire>::spec_read(w.subrange(0, 4)) == Some(self.interface_id));
            assert(<Ipv4Address as FixedWire>::spec_read(w.subrange(4, 8)) == Some(self.address));
            assert(<u8 as FixedWire>::spec_read(w.subrange(8, 9)) == Some(self.netmask));
            assert(<DhcpMode as FixedWire>::spec_read(w.subrange(9, 10)) == Some(self.dhcp_status));
        }
    }
}

impl GetIpV4CurrentAddressResponse {
    /// The parameter data of the value.
    pub open spec fn spec_encoding(&self) -> Seq<u8> {
        self.spec_wire()
    }

    /// The value that parameter data stands for, or why it stands for none.
    pub open spec fn spec_decoded(buf: Seq<u8>) -> Result<Self, ParameterDataError> {
        record_decoded::<Self>(buf)
    }

    /// Whether decoding the parameter data gives the value back.
    pub open spec fn spec_encodable(&self) -> bool {
        self.spec_wire_valid()
    }

    pub fn size_of(&self) -> (n: usize)
        ensures
            n == self.spec_encoding().len(),
            n <= 10,
    {
        proof {
            self.lemma_wire();
        }
        Self::wire_size()
    }

    /// Appends the parameter data to `out`.
    pub fn write_encoding(&self, out: &mut Vec<u8>)
        ensures
            final(out)@ == old(out)@ + self.spec_encoding(),
    {
        self.write_wire(out);
    }

    pub fn encode_parameter_data(&self, buf: &mut [u8]) -> (r: Result<usize, ParameterDataError>)
        ensures
            encoded_into(old(buf)@, final(buf)@, self.spec_encoding(), r),
    {
        encode_record(self, buf)
    }

    pub fn decode_parameter_data(buf: &[u8]) -> (r: Result<Self, ParameterDataError>)
        ensures
            r == Self::spec_decoded(buf@),
    {
        decode_record(buf)
    }

    /// Decoding the parameter data of an encodable value gives it back.
    pub proof fn lemma_roundtrip(&self)
        requires
            self.spec_encodable(),
        ensures
            Self::spec_decoded(self.spec_encoding()) == Ok::<Self, ParameterDataError>(*self),
    {
        lemma_record_roundtrip(*self);
    }
}

#[derive(Clone, Copy, Debug, PartialEq)]
pub struct GetIpV4StaticAddressResponse {
    pub interface_id: u32,
    pub address: Ipv4Address,
    pub netmask: u8,
}

impl<'a> FixedWire<'a> for GetIpV4StaticAddressResponse {
    open spec fn spec_size() -> nat {
        9
    }

    open spec fn spec_wire(&self) -> Seq<u8> {
        self.interface_id.spec_wire() + self.address.spec_wire() + self.netmask.spec_wire()
    }

    open spec fn spec_read(bytes: Seq<u8>) -> Option<Self> {
        if <u32 as FixedWire>::spec_read(bytes.subrange(0, 4)) is Some
            && <Ipv4Address as FixedWire>::spec_read(bytes.subrange(4, 8)) is Some
            && <u8 as FixedWire>::spec_read(bytes.subrange(8, 9)) is Some {
            Some(GetIpV4StaticAddressResponse {
                interface_id: <u32 as FixedWire>::spec_read(bytes.subrange(0, 4)).unwrap(),
                address: <Ipv4Address as FixedWire>::spec_read(bytes.subrange(4, 8)).unwrap(),
                netmask: <u8 as FixedWire>::spec_read(bytes.subrange(8, 9)).unwrap(),
            })
        } else {
            None
        }
    }

    open spec fn spec_wire_valid(&self) -> bool {
        self.interface_id.spec_wire_valid() && self.address.spec_wire_valid() && self.netmask.spec_wire_valid()
    }

    fn wire_size() -> (n: usize) {
        9
    }

    fn write_wire(&self, out: &mut Vec<u8>) {
        let ghost start = out@;
        self.interface_id.write_wire(out);
        self.address.write_wire(out);
        self.netmask.write_wire(out);
        proof {
            assert(out@ =~= start + self.spec_wire());
        }
    }

    fn read_wire(buf: &'a [u8], pos: usize) -> (r: Option<Self>) {
        let _len = buf.len();
        let ghost bytes = buf@.subrange(pos as int, pos + 9);
        proof {
            assert(bytes.subrange(0, 4) =~= buf@.subrange(pos + 0, pos + 4));
            assert(bytes.subrange(4, 8) =~= buf@.subrange(pos + 4, pos + 8));
            assert(bytes.subrange(8, 9) =~= buf@.subrange(pos + 8, pos + 9));
        }
        let v0 = match <u32 as FixedWire>::read_wire(buf, pos) {
            Some(v) => v,
            None => return None,
        };
        let v1 = match <Ipv4Address as FixedWire>::read_wire(buf, pos + 4) {
            Some(v) => v,
            None => return None,
        };
        let v2 = match <u8 as FixedWire>::read_wire(buf, pos + 8) {
            Some(v) => v,
            None => return None,
        };
        Some(GetIpV4StaticAddressResponse { interface_id: v0, address: v1, netmask: v2 })
    }

    proof fn lemma_wire(&self) {
        self.interface_id.lemma_wire();
        self.address.lemma_wire();
        self.netmask.lemma_wire();
        let w = self.spec_wire();
        assert(w.subrange(0, 4) =~= self.interface_id.spec_wire());
        assert(w.subrange(4, 8) =~= self.address.spec_wire());
        assert(w.subrange(8, 9) =~= self.netmask.spec_wire());
        if self.spec_wire_valid() {
            assert(<u32 as FixedWire>::spec_read(w.subrange(0, 4)) == Some(self.interface_id));
            assert(<Ipv4Address as FixedWire>::spec_read(w.subrange(4, 8)) == Some(self.address));
            assert(<u8 as FixedWire>::spec_read(w.subrange(8, 9)) == Some(self.netmask));
        }
    }
}

impl GetIpV4StaticAddressResponse {
    /// The parameter data of the value.
    pub open spec fn spec_encoding(&self) -> Seq<u8> {
        self.spec_wire()
    }

    /// The value that parameter data stands for, or why it stands for none.
    pub open spec fn spec_decoded(buf: Seq<u8>) -> Result<Self, ParameterDataError> {
        record_decoded::<Self>(buf)
    }

    /// Whether decoding the parameter data gives the value back.
    pub open spec fn spec_encodable(&self) -> bool {
        self.spec_wire_valid()
    }

    pub fn size_of(&self) -> (n: usize)
        ensures
            n == self.spec_encoding().len(),
            n <= 9,
    {
        proof {
            self.lemma_wire();
        }
        Self::wire_size()
    }

    /// Appends the parameter data to `out`.
    pub fn write_encoding(&self, out: &mut Vec<u8>)
        ensures
            final(out)@ == old(out)@ + self.spec_encoding(),
    {
        self.write_wire(out);
    }

    pub fn encode_parameter_data(&self, buf: &mut [u8]) -> (r: Result<usize, ParameterDataError>)
        ensures
            encoded_into(old(buf)@, final(buf)@, self.spec_encoding(), r),
    {
        encode_record(self, buf)
    }

    pub fn decode_parameter_data(buf: &[u8]) -> (r: Result<Self, ParameterDataError>)
        ensures
            r == Self::spec_decoded(buf@),
    {
        decode_record(buf)
    }

    /// Decoding the parameter data of an encodable value gives it back.
    pub proof fn lemma_roundtrip(&self)
        requires
            self.spec_encodable(),
        ensures
            Self::spec_decoded(self.spec_encoding()) == Ok::<Self, ParameterDataError>(*self),
    {
        lemma_record_roundtrip(*self);
    }
}

#[derive(Clone, Copy, Debug, PartialEq)]
pub struct GetIpV4DefaultRouteResponse {
    pub interface_id: u32,
    pub address: Ipv4Route,
}

impl<'a> FixedWire<'a> for GetIpV4DefaultRouteResponse {
    open spec fn spec_size() -> nat {
        8
    }

    open spec fn spec_wire(&self) -> Seq<u8> {
        self.interface_id.spec_wire() + self.address.spec_wire()
    }

    open spec fn spec_read(bytes: Seq<u8>) -> Option<Self> {
        if <u32 as FixedWire>::spec_read(bytes.subrange(0, 4)) is Some
            && <Ipv4Route as FixedWire>::spec_read(bytes.subrange(4, 8)) is Some {
            Some(GetIpV4DefaultRouteResponse {
                interface_id: <u32 as FixedWire>::spec_read(bytes.subrange(0, 4)).unwrap(),
                address: <Ipv4Route as FixedWire>::spec_read(bytes.subrange(4, 8)).unwrap(),
            })
        } else {
            None
        }
    }

    open spec fn spec_wire_valid(&self) -> bool {
        self.interface_id.spec_wire_valid() && self.address.spec_wire_valid()
    }

    fn wire_size() -> (n: usize) {
        8
    }

    fn write_wire(&self, out: &mut Vec<u8>) {
        let ghost start = out@;
        self.interface_id.write_wire(out);
        self.address.write_wire(out);
        proof {
            assert(out@ =~= start + self.spec_wire());
        }
    }

    fn read_wire(buf: &'a [u8], pos: usize) -> (r: Option<Self>) {
        let _len = buf.len();
        let ghost bytes = buf@.subrange(pos as int, pos + 8);
        proof {
            assert(bytes.subrange(0, 4) =~= buf@.subrange(pos + 0, pos + 4));
            assert(bytes.subrange(4, 8) =~= buf@.subrange(pos + 4, pos + 8));
        }
        let v0 = match <u32 as FixedWire>::read_wire(buf, pos) {
            Some(v) => v,
            None => return None,
        };
        let v1 = match <Ipv4Route as FixedWire>::read_wire(buf, pos + 4) {
            Some(v) => v,
            None => return None,
        };
        Some(GetIpV4DefaultRouteResponse { interface_id: v0, address: v1 })
    }

    proof fn lemma_wire(&self) {
        self.interface_id.lemma_wire();
        self.address.lemma_wire();
        let w = self.spec_wire();
        assert(w.subrange(0, 4) =~= self.interface_id.spec_wire());
        assert(w.subrange(4, 8) =~= self.address.spec_wire());
        if self.spec_wire_valid() {
            assert(<u32 as FixedWire>::spec_read(w.subrange(0, 4)) == Some(self.interface_id));
            assert(<Ipv4Route as FixedWire>::spec_read(w.subrange(4, 8)) == Some(self.address));
        }
    }
}

impl GetIpV4DefaultRouteResponse {
    /// The parameter data of the value.
    pub open spec fn spec_encoding(&self) -> Seq<u8> {
        self.spec_wire()
    }

    /// The value that parameter data stands for, or why it stands for none.
    pub open spec fn spec_decoded(buf: Seq<u8>) -> Result<Self, ParameterDataError> {
        record_decoded::<Self>(buf)
    }

    /// Whether decoding the parameter data gives the value back.
    pub open spec fn spec_encodable(&self) -> bool {
        self.spec_wire_valid()
    }

    pub fn size_of(&self) -> (n: usize)
        ensures
            n == self.spec_encoding().len(),
            n <= 8,
    {
        proof {
            self.lemma_wire();
        }
        Self::wire_size()
    }

    /// Appends the parameter data to `out`.
    pub fn write_encoding(&self, out: &mut Vec<u8>)
        ensures
            final(out)@ == old(out)@ + self.spec_encoding(),
    {
        self.write_wire(out);
    }

    pub fn encode_parameter_data(&self, buf: &mut [u8]) -> (r: Result<usize, ParameterDataError>)
        ensures
            encoded_into(old(buf)@, final(buf)@, self.spec_encoding(), r),
    {
        encode_record(self, buf)
    }

    pub fn decode_parameter_data(buf: &[u8]) -> (r: Result<Self, ParameterDataError>)
        ensures
            r == Self::spec_decoded(buf@),
    {
        decode_record(buf)
    }

    /// Decoding the parameter data of an encodable value gives it back.
    pub proof fn lemma_roundtrip(&self)
        requires
            self.spec_encodable(),
        ensures
            Self::spec_decoded(self.spec_encoding()) == Ok::<Self, ParameterDataError>(*self),
    {
        lemma_record_roundtrip(*self);
    }
}

#[derive(Clone, Copy, Debug, PartialEq)]
pub struct GetDnsIpV4NameServerResponse {
    pub name_server_index: u8,
    pub address: Ipv4Address,
}

impl<'a> FixedWire<'a> for GetDnsIpV4NameServerResponse {
    open spec fn spec_size() -> nat {
        5
    }

    open spec fn spec_wire(&self) -> Seq<u8> {
        self.name_server_index.spec_wire() + self.address.spec_wire()
    }

    open spec fn spec_read(bytes: Seq<u8>) -> Option<Self> {
        if <u8 as FixedWire>::spec_read(bytes.subrange(0, 1)) is Some
            && <Ipv4Address as FixedWire>::spec_read(bytes.subrange(1, 5)) is Some {
            Some(GetDnsIpV4NameServerResponse {
                name_server_index: <u8 as FixedWire>::spec_read(bytes.subrange(0, 1)).unwrap(),
                address: <Ipv4Address as FixedWire>::spec_read(bytes.subrange(1, 5)).unwrap(),
            })
        } else {
            None
        }
    }

    open spec fn spec_wire_valid(&self) -> bool {
        self.name_server_index.spec_wire_valid() && self.address.spec_wire_valid()
    }

    fn wire_size() -> (n: usize) {
        5
    }

    fn write_wire(&self, out: &mut Vec<u8>) {
        let ghost start = out@;
        self.name_server_index.write_wire(out);
        self.address.write_wire(out);
        proof {
            assert(out@ =~= start + self.spec_wire());
        }
    }

    fn read_wire(buf: &'a [u8], pos: usize) -> (r: Option<Self>) {
        let _len = buf.len();
        let ghost bytes = buf@.subrange(pos as int, pos + 5);
        proof {
            assert(bytes.subrange(0, 1) =~= buf@.subrange(pos + 0, pos + 1));
            assert(bytes.subrange(1, 5) =~= buf@.subrange(pos + 1, pos + 5));
        }
        let v0 = match <u8 as FixedWire>::read_wire(buf, pos) {
            Some(v) => v,
            None => return None,
        };
        let v1 = match <Ipv4Address as FixedWire>::read_wire(buf, pos + 1) {
            Some(v) => v,
            None => return None,
        };
        Some(GetDnsIpV4NameServerResponse { name_server_index: v0, address: v1 })
    }

    proof fn lemma_wire(&self) {
        self.name_server_index.lemma_wire();
        self.address.lemma_wire();
        let w = self.spec_wire();
        assert(w.subrange(0, 1) =~= self.name_server_index.spec_wire());
        assert(w.subrange(1, 5) =~= self.address.spec_wire());
        if self.spec_wire_valid() {
            assert(<u8 as FixedWire>::spec_read(w.subrange(0, 1)) == Some(self.name_server_index));
            assert(<Ipv4Address as FixedWire>::spec_read(w.subrange(1, 5)) == Some(self.address));
        }
    }
}

impl GetDnsIpV4NameServerResponse {
    /// The parameter data of the value.
    pub open spec fn spec_encoding(&self) -> Seq<u8> {
        self.spec_wire()
    }

    /// The value that parameter data stands for, or why it stands for none.
    pub open spec fn spec_decoded(buf: Seq<u8>) -> Result<Self, ParameterDataError> {
        record_decoded::<Self>(buf)
    }

    /// Whether decoding the parameter data gives the value back.
    pub open spec fn spec_encodable(&self) -> bool {
        self.spec_wire_valid()
    }

    pub fn size_of(&self) -> (n: usize)
        ensures
            n == self.spec_encoding().len(),
            n <= 5,
    {
        proof {
            self.lemma_wire();
        }
        Self::wire_size()
    }

    /// Appends the parameter data to `out`.
    pub fn write_encoding(&self, out: &mut Vec<u8>)
        ensures
            final(out)@ == old(out)@ + self.spec_encoding(),
    {
        self.write_wire(out);
    }

    pub fn encode_parameter_data(&self, buf: &mut [u8]) -> (r: Result<usize, ParameterDataError>)
        ensures
            encoded_into(old(buf)@, final(buf)@, self.spec_encoding(), r),
    {
        encode_record(self, buf)
    }

    pub fn decode_parameter_data(buf: &[u8]) -> (r: Result<Self, ParameterDataError>)
        ensures
            r == Self::spec_decoded(buf@),
    {
        decode_record(buf)
    }

    /// Decoding the parameter data of an encodable value gives it back.
    pub proof fn lemma_roundtrip(&self)
        requires
            self.spec_encodable(),
        ensures
            Self::spec_decoded(self.spec_encoding()) == Ok::<Self, ParameterDataError>(*self),
    {
        lemma_record_roundtrip(*self);
    }
}

#[derive(Clone, Copy, Debug, PartialEq)]
pub struct GetDnsHostNameResponse {
    pub dns_host_name: DnsHostName,
}

impl GetDnsHostNameResponse {
    /// The parameter data of the value.
    pub open spec fn spec_encoding(&self) -> Seq<u8> {
        self.dns_host_name.spec_encode()
    }

    /// The value that parameter data stands for, or why it stands for none.
    pub open spec fn spec_decoded(buf: Seq<u8>) -> Result<Self, ParameterDataError> {
        let rest = buf.subrange(0, buf.len() as int);
        match DnsHostName::spec_decode(rest) {
            Ok(t) => Ok(GetDnsHostNameResponse { dns_host_name: t }),
            Err(e) => Err(e),
        }
    }

    /// Whether decoding the parameter data gives the value back.
    pub open spec fn spec_encodable(&self) -> bool {
        self.dns_host_name.spec_encodable()
    }

    /// Appends the parameter data to `out`.
    pub fn write_encoding(&self, out: &mut Vec<u8>)
        ensures
            final(out)@ == old(out)@ + self.spec_encoding(),
    {
        let ghost start = out@;
        self.dns_host_name.write_encoded(out);
        proof {
            assert(out@ =~= start + self.spec_encoding());
        }
    }

    pub fn size_of(&self) -> (n: usize)
        ensures
            n == self.spec_encoding().len(),
            n <= 63,
    {
        proof {
            use_type_invariant(&self.dns_host_name);
            self.dns_host_name.lemma_encode_len();
        }
        let mut out: Vec<u8> = Vec::new();
        self.write_encoding(&mut out);
        proof {
            assert(out@ =~= self.spec_encoding());
        }
        out.len()
    }

    pub fn encode_parameter_data(&self, buf: &mut [u8]) -> (r: Result<usize, ParameterDataError>)
        ensures
            encoded_into(old(buf)@, final(buf)@, self.spec_encoding(), r),
    {
        let mut out: Vec<u8> = Vec::new();
        self.write_encoding(&mut out);
        proof {
            assert(out@ =~= self.spec_encoding());
        }
        copy_encoded(buf, out.as_slice())
    }

    pub fn decode_parameter_data(buf: &[u8]) -> (r: Result<Self, ParameterDataError>)
        ensures
            r == Self::spec_decoded(buf@),
    {
        match DnsHostName::decode_parameter_data(vstd::slice::slice_subrange(buf, 0, buf.len())) {
            Ok(t) => Ok(GetDnsHostNameResponse { dns_host_name: t }),
            Err(e) => Err(e),
        }
    }

    /// Decoding the parameter data of an encodable value gives it back.
    pub proof fn lemma_roundtrip(&self)
        requires
            self.spec_encodable(),
        ensures
            Self::spec_decoded(self.spec_encoding()) == Ok::<Self, ParameterDataError>(*self),
    {
        let e = self.spec_encoding();
        assert(e.subrange(0, e.len() as int) =~= self.dns_host_name.spec_encode());
        self.dns_host_name.lemma_roundtrip();
    }
}

#[derive(Clone, Copy, Debug, PartialEq)]
pub struct GetDnsDomainNameResponse {
    pub dns_domain_name: DnsDomainName,
}

impl GetDnsDomainNameResponse {
    /// The parameter data of the value.
    pub open spec fn spec_encoding(&self) -> Seq<u8> {
        self.dns_domain_name.spec_encode()
    }

    /// The value that parameter data stands for, or why it stands for none.
    pub open spec fn spec_decoded(buf: Seq<u8>) -> Result<Self, ParameterDataError> {
        let rest = buf.subrange(0, buf.len() as int);
        match DnsDomainName::spec_decode(rest) {
            Ok(t) => Ok(GetDnsDomainNameResponse { dns_domain_name: t }),
            Err(e) => Err(e),
        }
    }

    /// Whether decoding the parameter data gives the value back.
    pub open spec fn spec_encodable(&self) -> bool {
        self.dns_domain_name.spec_encodable()
    }

    /// Appends the parameter data to `out`.
    pub fn write_encoding(&self, out: &mut Vec<u8>)
        ensures
            final(out)@ == old(out)@ + self.spec_encoding(),
    {
        let ghost start = out@;
        self.dns_domain_name.write_encoded(out);
        proof {
            assert(out@ =~= start + self.spec_encoding());
        }
    }

    pub fn size_of(&self) -> (n: usize)
        ensures
            n == self.spec_encoding().len(),
            n <= 231,
    {
        proof {
            use_type_invariant(&self.dns_domain_name);
            self.dns_domain_name.lemma_encode_len();
        }
        let mut out: Vec<u8> = Vec::new();
        self.write_encoding(&mut out);
        proof {
            assert(out@ =~= self.spec_encoding());
        }
        out.len()
    }

    pub fn encode_parameter_data(&self, buf: &mut [u8]) -> (r: Result<usize, ParameterDataError>)
        ensures
            encoded_into(old(buf)@, final(buf)@, self.spec_encoding(), r),
    {
        let mut out: Vec<u8> = Vec::new();
        self.write_encoding(&mut out);
        proof {
            assert(out@ =~= self.spec_encoding());
        }
        copy_encoded(buf, out.as_slice())
    }

    pub fn decode_parameter_data(buf: &[u8]) -> (r: Result<Self, ParameterDataError>)
        ensures
            r == Self::spec_decoded(buf@),
    {
        match DnsDomainName::decode_parameter_data(vstd::slice::slice_subrange(buf, 0, buf.len())) {
            Ok(t) => Ok(GetDnsDomainNameResponse { dns_domain_name: t }),
            Err(e) => Err(e),
        }
    }

    /// Decoding the parameter data of an encodable value gives it back.
    pub proof fn lemma_roundtrip(&self)
        requires
            self.spec_encodable(),
        ensures
            Self::spec_decoded(self.spec_encoding()) == Ok::<Self, ParameterDataError>(*self),
    {
        let e = self.spec_encoding();
        assert(e.subrange(0, e.len() as int) =~= self.dns_domain_name.spec_encode());
        self.dns_domain_name.lemma_roundtrip();
    }
}

} // verus!
