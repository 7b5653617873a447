//! Parameter data of the E133 responses.

use crate::rdm::error::{ParameterDataError};
use crate::rdm::utils::{copy_encoded, encoded_into};
use crate::rdm::wire::{decode_record, encode_record, lemma_record_roundtrip, record_decoded, FixedWire};
use vstd::prelude::*;
use vstd::std_specs::convert::{FromSpecImpl, TryFromSpecImpl};
use vstd::string::StringSliceAdditionalSpecFns;
use crate::rdm::parameter::e133::{BrokerState, Scope, SearchDomain, StaticConfigType};
use crate::rdm::parameter::e137_2::{Ipv4Address, Ipv6Address};

verus! {

broadcast use vstd::array::group_array_axioms;

#[derive(Clone, Copy, Debug, PartialEq)]
pub struct GetComponentScopeResponse {
    pub scope_slot: u16,
    pub scope: Scope,
    pub static_config_type: StaticConfigType,
    pub static_broker_ipv4_address: Ipv4Address,
    pub static_broker_ipv6_address: Ipv6Address,
    pub static_broker_port: u16,
}

impl<'a> FixedWire<'a> for GetComponentScopeResponse {
    open spec fn spec_size() -> nat {
        88
    }

    open spec fn spec_wire(&self) -> Seq<u8> {
        self.scope_slot.spec_wire() + self.scope.spec_wire() + self.static_config_type.spec_wire() + self.static_broker_ipv4_address.spec_wire() + self.static_broker_ipv6_address.spec_wire() + self.static_broker_port.spec_wire()
    }

    open spec fn spec_read(bytes: Seq<u8>) -> Option<Self> {
        if <u16 as FixedWire>::spec_read(bytes.subrange(0, 2)) is Some
            && <Scope as FixedWire>::spec_read(bytes.subrange(2, 65)) is Some
            && <StaticConfigType as FixedWire>::spec_read(bytes.subrange(65, 66)) is Some
            && <Ipv4Address as FixedWire>::spec_read(bytes.subrange(66, 70)) is Some
            && <Ipv6Address as FixedWire>::spec_read(bytes.subrange(70, 86)) is Some
            && <u16 as FixedWire>::spec_read(bytes.subrange(86, 88)) is Some {
            Some(GetComponentScopeResponse {
                scope_slot: <u16 as FixedWire>::spec_read(bytes.subrange(0, 2)).unwrap(),
                scope: <Scope as FixedWire>::spec_read(bytes.subrange(2, 65)).unwrap(),
                static_config_type: <StaticConfigType as FixedWire>::spec_read(bytes.subrange(65, 66)).unwrap(),
                static_broker_ipv4_address: <Ipv4Address as FixedWire>::spec_read(bytes.subrange(66, 70)).unwrap(),
                static_broker_ipv6_address: <Ipv6Address as FixedWire>::spec_read(bytes.subrange(70, 86)).unwrap(),
                static_broker_port: <u16 as FixedWire>::spec_read(bytes.subrange(86, 88)).unwrap(),
            })
        } else {
            None
        }
    }

    open spec fn spec_wire_valid(&self) -> bool {
        self.scope_slot.spec_wire_valid() && self.scope.spec_wire_valid() && self.static_config_type.spec_wire_valid() && self.static_broker_ipv4_address.spec_wire_valid() && self.static_broker_ipv6_address.spec_wire_valid() && self.static_broker_port.spec_wire_valid()
    }

    fn wire_size() -> (n: usize) {
        88
    }

    fn write_wire(&self, out: &mut Vec<u8>) {
        let ghost start = out@;
        self.scope_slot.write_wire(out);
        self.scope.write_wire(out);
        self.static_config_type.write_wire(out);
        self.static_broker_ipv4_address.write_wire(out);
        self.static_broker_ipv6_address.write_wire(out);
        self.static_broker_port.write_wire(out);
        proof {
            assert(out@ =~= start + self.spec_wire());
        }
    }

    fn read_wire(buf: &'a [u8], pos: usize) -> (r: Option<Self>) {
        let _len = buf.len();
        let ghost bytes = buf@.subrange(pos as int, pos + 88);
        proof {
            assert(bytes.subrange(0, 2) =~= buf@.subrange(pos + 0, pos + 2));
            assert(bytes.subrange(2, 65) =~= buf@.subrange(pos + 2, pos + 65));
            assert(bytes.subrange(65, 66) =~= buf@.subrange(pos + 65, pos + 66));
            assert(bytes.subrange(66, 70) =~= buf@.subrange(pos + 66, pos + 70));
            assert(bytes.subrange(70, 86) =~= buf@.subrange(pos + 70, pos + 86));
            assert(bytes.subrange(86, 88) =~= buf@.subrange(pos + 86, pos + 88));
        }
        let v0 = match <u16 as FixedWire>::read_wire(buf, pos) {
            Some(v) => v,
            None => return None,
        };
        let v1 = match <Scope as FixedWire>::read_wire(buf, pos + 2) {
            Some(v) => v,
            None => return None,
        };
        let v2 = match <StaticConfigType as FixedWire>::read_wire(buf, pos + 65) {
            Some(v) => v,
            None => return None,
        };
        let v3 = match <Ipv4Address as FixedWire>::read_wire(buf, pos + 66) {
            Some(v) => v,
            None => return None,
        };
        let v4 = match <Ipv6Address as FixedWire>::read_wire(buf, pos + 70) {
            Some(v) => v,
            None => return None,
        };
        let v5 = match <u16 as FixedWire>::read_wire(buf, pos + 86) {
            Some(v) => v,
            None => return None,
        };
        Some(GetComponentScopeResponse { scope_slot: v0, scope: v1, static_config_type: v2, static_broker_ipv4_address: v3, static_broker_ipv6_address: v4, static_broker_port: v5 })
    }

    proof fn lemma_wire(&self) {
        self.scope_slot.lemma_wire();
        self.scope.lemma_wire();
        self.static_config_type.lemma_wire();
        self.static_broker_ipv4_address.lemma_wire();
        self.static_broker_ipv6_address.lemma_wire();
        self.static_broker_port.lemma_wire();
        let w = self.spec_wire();
        assert(w.subrange(0, 2) =~= self.scope_slot.spec_wire());
        assert(w.subrange(2, 65) =~= self.scope.spec_wire());
        assert(w.subrange(65, 66) =~= self.static_config_type.spec_wire());
        assert(w.subrange(66, 70) =~= self.static_broker_ipv4_address.spec_wire());
        assert(w.subrange(70, 86) =~= self.static_broker_ipv6_address.spec_wire());
        assert(w.subrange(86, 88) =~= self.static_broker_port.spec_wire());
        if self.spec_wire_valid() {
            assert(<u16 as FixedWire>::spec_read(w.subrange(0, 2)) == Some(self.scope_slot));
            assert(<Scope as FixedWire>::spec_read(w.subrange(2, 65)) == Some(self.scope));
            assert(<StaticConfigType as FixedWire>::spec_read(w.subrange(65, 66)) == Some(self.static_config_type));
            assert(<Ipv4Address as FixedWire>::spec_read(w.subrange(66, 70)) == Some(self.static_broker_ipv4_address));
            assert(<Ipv6Address as FixedWire>::spec_read(w.subrange(70, 86)) == Some(self.static_broker_ipv6_address));
            assert(<u16 as FixedWire>::spec_read(w.subrange(86, 88)) == Some(self.static_broker_port));
        }
    }
}

impl GetComponentScopeResponse {
    /// The parameter data of the value.
    pub open spec fn spec_encoding(&self) -> Seq<u8> {
        self.spec_wire()
    }

    /// The value that parameter data stands for, or why it stands for none.
    pub open spec fn spec_decoded(buf: Seq<u8>) -> Result<Self, ParameterDataError> {
        record_decoded::<Self>(buf)
    }

    /// Whether decoding the parameter data gives the value back.
    pub open spec fn spec_encodable(&self) -> bool {
        self.spec_wire_valid()
    }

    pub fn size_of(&self) -> (n: usize)
        ensures
            n == self.spec_encoding().len(),
            n <= 88,
    {
        proof {
            self.lemma_wire();
        }
        Self::wire_size()
    }

    /// Appends the parameter data to `out`.
    pub fn write_encoding(&self, out: &mut Vec<u8>)
        ensures
            final(out)@ == old(out)@ + self.spec_encoding(),
    {
        self.write_wire(out);
    }

    pub fn encode_parameter_data(&self, buf: &mut [u8]) -> (r: Result<usize, ParameterDataError>)
        ensures
            encoded_into(old(buf)@, final(buf)@, self.spec_encoding(), r),
    {
        encode_record(self, buf)
    }

    pub fn decode_parameter_data(buf: &[u8]) -> (r: Result<Self, ParameterDataError>)
        ensures
            r == Self::spec_decoded(buf@),
    {
        decode_record(buf)
    }

    /// Decoding the parameter data of an encodable value gives it back.
    pub proof fn lemma_roundtrip(&self)
        requires
            self.spec_encodable(),
        ensures
            Self::spec_decoded(self.spec_encoding()) == Ok::<Self, ParameterDataError>(*self),
    {
        lemma_record_roundtrip(*self);
    }
}

#[derive(Clone, Copy, Debug, PartialEq)]
pub struct GetSearchDomainResponse {
    pub search_domain: SearchDomain,
}

impl GetSearchDomainResponse {
    /// The parameter data of the value.
    pub open spec fn spec_encoding(&self) -> Seq<u8> {
        self.search_domain.spec_encode()
    }

    /// The value that parameter data stands for, or why it stands for none.
    pub open spec fn spec_decoded(buf: Seq<u8>) -> Result<Self, ParameterDataError> {
        let rest = buf.subrange(0, buf.len() as int);
        match SearchDomain::spec_decode(rest) {
            Ok(t) => Ok(GetSearchDomainResponse { search_domain: t }),
            Err(e) => Err(e),
        }
    }

    /// Whether decoding the parameter data gives the value back.
    pub open spec fn spec_encodable(&self) -> bool {
        self.search_domain.spec_encodable()
    }

    /// Appends the parameter data to `out`.
    pub fn write_encoding(&self, out: &mut Vec<u8>)
        ensures
            final(out)@ == old(out)@ + self.spec_encoding(),
    {
        let ghost start = out@;
        self.search_domain.write_encoded(out);
        proof {
            assert(out@ =~= start + self.spec_encoding());
        }
    }

    pub fn size_of(&self) -> (n: usize)
        ensures
            n == self.spec_encoding().len(),
            n <= 231,
    {
        proof {
            use_type_invariant(&self.search_domain);
            self.search_domain.lemma_encode_len();
        }
        let mut out: Vec<u8> = Vec::new();
        self.write_encoding(&mut out);
        proof {
            assert(out@ =~= self.spec_encoding());
        }
        out.len()
    }

    pub fn encode_parameter_data(&self, buf: &mut [u8]) -> (r: Result<usize, ParameterDataError>)
        ensures
            encoded_into(old(buf)@, final(buf)@, self.spec_encoding(), r),
    {
        let mut out: Vec<u8> = Vec::new();
        self.write_encoding(&mut out);
        proof {
            assert(out@ =~= self.spec_encoding());
        }
        copy_encoded(buf, out.as_slice())
    }

    pub fn decode_parameter_data(buf: &[u8]) -> (r: Result<Self, ParameterDataError>)
        ensures
            r == Self::spec_decoded(buf@),
    {
        match SearchDomain::decode_parameter_data(vstd::slice::slice_subrange(buf, 0, buf.len())) {
            Ok(t) => Ok(GetSearchDomainResponse { search_domain: t }),
            Err(e) => Err(e),
        }
    }

    /// Decoding the parameter data of an encodable value gives it back.
    pub proof fn lemma_roundtrip(&self)
        requires
            self.spec_encodable(),
        ensures
            Self::spec_decoded(self.spec_encoding()) == Ok::<Self, ParameterDataError>(*self),
    {
        let e = self.spec_encoding();
        assert(e.subrange(0, e.len() as int) =~= self.search_domain.spec_encode());
        self.search_domain.lemma_roundtrip();
    }
}

#[derive(Clone, Copy, Debug, PartialEq)]
pub struct GetTcpCommsStatusResponse {
    pub scope_string: Scope,
    pub broker_ipv4_address: Ipv4Address,
    pub broker_ipv6_address: Ipv6Address,
    pub broker_port: u16,
    pub unhealthy_tcp_events: u16,
}

impl<'a> FixedWire<'a> for GetTcpCommsStatusResponse {
    open spec fn spec_size() -> nat {
        87
    }

    open spec fn spec_wire(&self) -> Seq<u8> {
        self.scope_string.spec_wire() + self.broker_ipv4_address.spec_wire() + self.broker_ipv6_address.spec_wire() + self.broker_port.spec_wire() + self.unhealthy_tcp_events.spec_wire()
    }

    open spec fn spec_read(bytes: Seq<u8>) -> Option<Self> {
        if <Scope as FixedWire>::spec_read(bytes.subrange(0, 63)) is Some
            && <Ipv4Address as FixedWire>::spec_read(bytes.subrange(63, 67)) is Some
            && <Ipv6Address as FixedWire>::spec_read(bytes.subrange(67, 83)) is Some
            && <u16 as FixedWire>::spec_read(bytes.subrange(83, 85)) is Some
            && <u16 as FixedWire>::spec_read(bytes.subrange(85, 87)) is Some {
            Some(GetTcpCommsStatusResponse {
                scope_string: <Scope as FixedWire>::spec_read(bytes.subrange(0, 63)).unwrap(),
                broker_ipv4_address: <Ipv4Address as FixedWire>::spec_read(bytes.subrange(63, 67)).unwrap(),
                broker_ipv6_address: <Ipv6Address as FixedWire>::spec_read(bytes.subrange(67, 83)).unwrap(),
                broker_port: <u16 as FixedWire>::spec_read(bytes.subrange(83, 85)).unwrap(),
                unhealthy_tcp_events: <u16 as FixedWire>::spec_read(bytes.subrange(85, 87)).unwrap(),
            })
        } else {
            None
        }
    }

    open spec fn spec_wire_valid(&self) -> bool {
        self.scope_string.spec_wire_valid() && self.broker_ipv4_address.spec_wire_valid() && self.broker_ipv6_address.spec_wire_valid() && self.broker_port.spec_wire_valid() && self.unhealthy_tcp_events.spec_wire_valid()
    }

    fn wire_size() -> (n: usize) {
        87
    }

    fn write_wire(&self, out: &mut Vec<u8>) {
        let ghost start = out@;
        self.scope_string.write_wire(out);
        self.broker_ipv4_address.write_wire(out);
        self.broker_ipv6_address.write_wire(out);
        self.broker_port.write_wire(out);
        self.unhealthy_tcp_events.write_wire(out);
        proof {
            assert(out@ =~= start + self.spec_wire());
        }
    }

    fn read_wire(buf: &'a [u8], pos: usize) -> (r: Option<Self>) {
        let _len = buf.len();
        let ghost bytes = buf@.subrange(pos as int, pos + 87);
        proof {
            assert(bytes.subrange(0, 63) =~= buf@.subrange(pos + 0, pos + 63));
            assert(bytes.subrange(63, 67) =~= buf@.subrange(pos + 63, pos + 67));
            assert(bytes.subrange(67, 83) =~= buf@.subrange(pos + 67, pos + 83));
            assert(bytes.subrange(83, 85) =~= buf@.subrange(pos + 83, pos + 85));
            assert(bytes.subrange(85, 87) =~= buf@.subrange(pos + 85, pos + 87));
        }
        let v0 = match <Scope as FixedWire>::read_wire(buf, pos) {
            Some(v) => v,
            None => return None,
        };
        let v1 = match <Ipv4Address as FixedWire>::read_wire(buf, pos + 63) {
            Some(v) => v,
            None => return None,
        };
        let v2 = match <Ipv6Address as FixedWire>::read_wire(buf, pos + 67) {
            Some(v) => v,
            None => return None,
        };
        let v3 = match <u16 as FixedWire>::read_wire(buf, pos + 83) {
            Some(v) => v,
            None => return None,
        };
        let v4 = match <u16 as FixedWire>::read_wire(buf, pos + 85) {
            Some(v) => v,
            None => return None,
        };
        Some(GetTcpCommsStatusResponse { scope_string: v0, broker_ipv4_address: v1, broker_ipv6_address: v2, broker_port: v3, unhealthy_tcp_events: v4 })
    }

    proof fn lemma_wire(&self) {
        self.scope_string.lemma_wire();
        self.broker_ipv4_address.lemma_wire();
        self.broker_ipv6_address.lemma_wire();
        self.broker_port.lemma_wire();
        self.unhealthy_tcp_events.lemma_wire();
        let w = self.spec_wire();
        assert(w.subrange(0, 63) =~= self.scope_string.spec_wire());
        assert(w.subrange(63, 67) =~= self.broker_ipv4_address.spec_wire());
        assert(w.subrange(67, 83) =~= self.broker_ipv6_address.spec_wire());
        assert(w.subrange(83, 85) =~= self.broker_port.spec_wire());
        assert(w.subrange(85, 87) =~= self.unhealthy_tcp_events.spec_wire());
        if self.spec_wire_valid() {
            assert(<Scope as FixedWire>::spec_read(w.subrange(0, 63)) == Some(self.scope_string));
            assert(<Ipv4Address as FixedWire>::spec_read(w.subrange(63, 67)) == Some(self.broker_ipv4_address));
            assert(<Ipv6Address as FixedWire>::spec_read(w.subrange(67, 83)) == Some(self.broker_ipv6_address));
            assert(<u16 as FixedWire>::spec_read(w.subrange(83, 85)) == Some(self.broker_port));
            assert(<u16 as FixedWire>::spec_read(w.subrange(85, 87)) == Some(self.unhealthy_tcp_events));
        }
    }
}

impl GetTcpCommsStatusResponse {
    /// The parameter data of the value.
    pub open spec fn spec_encoding(&self) -> Seq<u8> {
        self.spec_wire()
    }

    /// The value that parameter data stands for, or why it stands for none.
    pub open spec fn spec_decoded(buf: Seq<u8>) -> Result<Self, ParameterDataError> {
        record_decoded::<Self>(buf)
    }

    /// Whether decoding the parameter data gives the value back.
    pub open spec fn spec_encodable(&self) -> bool {
        self.spec_wire_valid()
    }

    pub fn size_of(&self) -> (n: usize)
        ensures
            n == self.spec_encoding().len(),
            n <= 87,
    {
        proof {
            self.lemma_wire();
        }
        Self::wire_size()
    }

    /// Appends the parameter data to `out`.
    pub fn write_encoding(&self, out: &mut Vec<u8>)
        ensures
            final(out)@ == old(out)@ + self.spec_encoding(),
    {
        self.write_wire(out);
    }

    pub fn encode_parameter_data(&self, buf: &mut [u8]) -> (r: Result<usize, ParameterDataError>)
        ensures
            encoded_into(old(buf)@, final(buf)@, self.spec_encoding(), r),
    {
        encode_record(self, buf)
    }

    pub fn decode_parameter_data(buf: &[u8]) -> (r: Result<Self, ParameterDataError>)
        ensures
            r == Self::spec_decoded(buf@),
    {
        decode_record(buf)
    }

    /// Decoding the parameter data of an encodable value gives it back.
    pub proof fn lemma_roundtrip(&self)
        requires
            self.spec_encodable(),
        ensures
            Self::spec_decoded(self.spec_encoding()) == Ok::<Self, ParameterDataError>(*self),
    {
        lemma_record_roundtrip(*self);
    }
}

#[derive(Clone, Copy, Debug, PartialEq, Eq, Structural)]
pub struct GetBrokerStatusResponse {
    pub is_allowing_set_commands: bool,
    pub broker_state: BrokerState,
}

impl<'a> FixedWire<'a> for GetBrokerStatusResponse {
    open spec fn spec_size() -> nat {
        2
    }

    open spec fn spec_wire(&self) -> Seq<u8> {
        self.is_allowing_set_commands.spec_wire() + self.broker_state.spec_wire()
    }

    open spec fn spec_read(bytes: Seq<u8>) -> Option<Self> {
        if <bool as FixedWire>::spec_read(bytes.subrange(0, 1)) is Some
            && <BrokerState as FixedWire>::spec_read(bytes.subrange(1, 2)) is Some {
            Some(GetBrokerStatusResponse {
                is_allowing_set_commands: <bool as FixedWire>::spec_read(bytes.subrange(0, 1)).unwrap(),
                broker_state: <BrokerState as FixedWire>::spec_read(bytes.subrange(1, 2)).unwrap(),
            })
        } else {
            None
        }
    }

    open spec fn spec_wire_valid(&self) -> bool {
        self.is_allowing_set_commands.spec_wire_valid() && self.broker_state.spec_wire_valid()
    }

    fn wire_size() -> (n: usize) {
        2
    }

    fn write_wire(&self, out: &mut Vec<u8>) {
        let ghost start = out@;
        self.is_allowing_set_commands.write_wire(out);
        self.broker_state.write_wire(out);
        proof {
            assert(out@ =~= start + self.spec_wire());
        }
    }

    fn read_wire(buf: &'a [u8], pos: usize) -> (r: Option<Self>) {
        let _len = buf.len();
        let ghost bytes = buf@.subrange(pos as int, pos + 2);
        proof {
            assert(bytes.subrange(0, 1) =~= buf@.subrange(pos + 0, pos + 1));
            assert(bytes.subrange(1, 2) =~= buf@.subrange(pos + 1, pos + 2));
        }
        let v0 = match <bool as FixedWire>::read_wire(buf, pos) {
            Some(v) => v,
            None => return None,
        };
        let v1 = match <BrokerState as FixedWire>::read_wire(buf, pos + 1) {
            Some(v) => v,
            None => return None,
        };
        Some(GetBrokerStatusResponse { is_allowing_set_commands: v0, broker_state: v1 })
    }

    proof fn lemma_wire(&self) {
        self.is_allowing_set_commands.lemma_wire();
        self.broker_state.lemma_wire();
        let w = self.spec_wire();
        assert(w.subrange(0, 1) =~= self.is_allowing_set_commands.spec_wire());
        assert(w.subrange(1, 2) =~= self.broker_state.spec_wire());
        if self.spec_wire_valid() {
            assert(<bool as FixedWire>::spec_read(w.subrange(0, 1)) == Some(self.is_allowing_set_commands));
            assert(<BrokerState as FixedWire>::spec_read(w.subrange(1, 2)) == Some(self.broker_state));
        }
    }
}

impl GetBrokerStatusResponse {
    /// The parameter data of the value.
    pub open spec fn spec_encoding(&self) -> Seq<u8> {
        self.spec_wire()
    }

    /// The value that parameter data stands for, or why it stands for none.
    pub open spec fn spec_decoded(buf: Seq<u8>) -> Result<Self, ParameterDataError> {
        record_decoded::<Self>(buf)
    }

    /// Whether decoding the parameter data gives the value back.
    pub open spec fn spec_encodable(&self) -> bool {
        self.spec_wire_valid()
    }

    pub fn size_of(&self) -> (n: usize)
        ensures
            n == self.spec_encoding().len(),
            n <= 2,
    {
        proof {
            self.lemma_wire();
        }
        Self::wire_size()
    }

    /// Appends the parameter data to `out`.
    pub fn write_encoding(&self, out: &mut Vec<u8>)
        ensures
            final(out)@ == old(out)@ + self.spec_encoding(),
    {
        self.write_wire(out);
    }

    pub fn encode_parameter_data(&self, buf: &mut [u8]) -> (r: Result<usize, ParameterDataError>)
        ensures
            encoded_into(old(buf)@, final(buf)@, self.spec_encoding(), r),
    {
        encode_record(self, buf)
    }

    pub fn decode_parameter_data(buf: &[u8]) -> (r: Result<Self, ParameterDataError>)
        ensures
            r == Self::spec_decoded(buf@),
    {
        decode_record(buf)
    }

    /// Decoding the parameter data of an encodable value gives it back.
    pub proof fn lemma_roundtrip(&self)
        requires
            self.spec_encodable(),
        ensures
            Self::spec_decoded(self.spec_encoding()) == Ok::<Self, ParameterDataError>(*self),
    {
        lemma_record_roundtrip(*self);
    }
}

} // verus!
