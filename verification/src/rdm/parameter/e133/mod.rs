//! Data types of the E1.33 parameters.

pub mod request;
pub mod response;

use crate::rdm::error::{ParameterDataError, RdmError};
use crate::rdm::utils::{copy_encoded, encoded_into, extend_from, has_no_null, lemma_trim_trailing_nulls_valid_utf8, lemma_truncated_at_null_prefix, lemma_truncated_at_null_shape, null_position, str_from_utf8, trim_trailing_nulls, trimmed_trailing_nulls, truncate_at_null, truncated_at_null, written_prefix, spec_padded_array, lemma_padded_array};
use crate::rdm::wire::{decode_fixed, decoded_fixed, encode_fixed, FixedWire};
use vstd::prelude::*;
use vstd::std_specs::convert::{FromSpecImpl, TryFromSpecImpl};
use vstd::string::StringSliceAdditionalSpecFns;

verus! {

broadcast use vstd::array::group_array_axioms;

#[derive(Copy, Clone, Debug, PartialEq, Eq, Structural)]
pub enum StaticConfigType {
    NoStaticConfig,
    StaticConfigIpv4,
    StaticConfigIpv6,
}

impl StaticConfigType {
    /// The wire value of the variant.
    pub open spec fn spec_to_u8(self) -> u8 {
        match self {
            StaticConfigType::NoStaticConfig => 0x00,
            StaticConfigType::StaticConfigIpv4 => 0x01,
            StaticConfigType::StaticConfigIpv6 => 0x02,
        }
    }

    /// The variant that a wire value stands for.
    pub open spec fn spec_try_from_u8(value: u8) -> Result<Self, RdmError> {
        match value {
            0x00 => Ok(StaticConfigType::NoStaticConfig),
            0x01 => Ok(StaticConfigType::StaticConfigIpv4),
            0x02 => Ok(StaticConfigType::StaticConfigIpv6),
            _ => Err(RdmError::InvalidStaticConfigType(value)),
        }
    }

    /// Whether the value is one that decoding its wire value gives back.
    pub open spec fn spec_wire_valid(self) -> bool {
        match self {
            _ => true,
        }
    }

    /// Decoding the wire value of a valid variant gives it back.
    pub proof fn lemma_encode_decode(self)
        requires
            self.spec_wire_valid(),
        ensures
            Self::spec_try_from_u8(self.spec_to_u8()) == Ok::<Self, RdmError>(self),
    {
    }

    /// Encoding the variant that a wire value stands for gives the value back.
    pub proof fn lemma_decode_encode(value: u8)
        ensures
            Self::spec_try_from_u8(value) matches Ok(v) ==> v.spec_to_u8() == value && v.spec_wire_valid(),
    {
    }
}

impl StaticConfigType {
    /// The wire value of the variant.
    pub fn to_u8(&self) -> (r: u8)
        ensures
            r == self.spec_to_u8(),
    {
        match self {
            StaticConfigType::NoStaticConfig => 0x00,
            StaticConfigType::StaticConfigIpv4 => 0x01,
            StaticConfigType::StaticConfigIpv6 => 0x02,
        }
    }

    /// The variant that a wire value stands for, or the error for a value that stands for none.
    pub fn try_from_u8(value: u8) -> (r: Result<Self, RdmError>)
        ensures
            r == Self::spec_try_from_u8(value),
    {
        match value {
            0x00 => Ok(StaticConfigType::NoStaticConfig),
            0x01 => Ok(StaticConfigType::StaticConfigIpv4),
            0x02 => Ok(StaticConfigType::StaticConfigIpv6),
            _ => Err(RdmError::InvalidStaticConfigType(value)),
        }
    }
}

impl TryFrom<u8> for StaticConfigType {
    type Error = RdmError;

    fn try_from(value: u8) -> (r: Result<Self, RdmError>) {
        Self::try_from_u8(value)
    }
}

impl TryFromSpecImpl<u8> for StaticConfigType {
    open spec fn obeys_try_from_spec() -> bool {
        true
    }

    open spec fn try_from_spec(value: u8) -> Result<Self, RdmError> {
        Self::spec_try_from_u8(value)
    }
}

impl From<StaticConfigType> for u8 {
    fn from(value: StaticConfigType) -> (r: u8) {
        value.to_u8()
    }
}

impl FromSpecImpl<StaticConfigType> for u8 {
    open spec fn obeys_from_spec() -> bool {
        true
    }

    open spec fn from_spec(value: StaticConfigType) -> u8 {
        value.spec_to_u8()
    }
}

impl<'a> FixedWire<'a> for StaticConfigType {
    open spec fn spec_size() -> nat {
        1
    }

    open spec fn spec_wire(&self) -> Seq<u8> {
        self.spec_to_u8().spec_wire()
    }

    open spec fn spec_read(bytes: Seq<u8>) -> Option<Self> {
        match u8::spec_read(bytes) {
            Some(value) => match Self::spec_try_from_u8(value) {
                Ok(v) => Some(v),
                Err(_) => None,
            },
            None => None,
        }
    }

    open spec fn spec_wire_valid(&self) -> bool {
        StaticConfigType::spec_wire_valid(*self)
    }

    fn wire_size() -> (n: usize) {
        1
    }

    fn write_wire(&self, out: &mut Vec<u8>) {
        self.to_u8().write_wire(out);
    }

    fn read_wire(buf: &'a [u8], pos: usize) -> (r: Option<Self>) {
        let value = match u8::read_wire(buf, pos) {
            Some(value) => value,
            None => return None,
        };
        match Self::try_from_u8(value) {
            Ok(v) => Some(v),
            Err(_) => None,
        }
    }

    proof fn lemma_wire(&self) {
        self.spec_to_u8().lemma_wire();
        if self.spec_wire_valid() {
            self.lemma_encode_decode();
        }
    }
}

impl StaticConfigType {
    pub fn size_of(&self) -> (n: usize)
        ensures
            n == Self::spec_size(),
    {
        Self::wire_size()
    }

    /// Writes the wire form at the start of `buf`.
    pub fn encode_parameter_data(&self, buf: &mut [u8]) -> (r: Result<usize, ParameterDataError>)
        requires
            old(buf)@.len() >= Self::spec_size(),
        ensures
            r == Ok::<usize, ParameterDataError>(Self::spec_size() as usize),
            final(buf)@ == written_prefix(old(buf)@, self.spec_wire()),
    {
        encode_fixed(self, buf)
    }

    /// Reads the value from the start of `buf`.
    pub fn decode_parameter_data(buf: &[u8]) -> (r: Result<Self, ParameterDataError>)
        requires
            buf@.len() >= Self::spec_size(),
        ensures
            r == decoded_fixed::<Self>(buf@),
    {
        decode_fixed(buf)
    }
}

#[derive(Copy, Clone, Debug, PartialEq, Eq, Structural)]
pub enum BrokerState {
    Disabled,
    Active,
    Standby,
}

impl BrokerState {
    /// The wire value of the variant.
    pub open spec fn spec_to_u8(self) -> u8 {
        match self {
            BrokerState::Disabled => 0x00,
            BrokerState::Active => 0x01,
            BrokerState::Standby => 0x02,
        }
    }

    /// The variant that a wire value stands for.
    pub open spec fn spec_try_from_u8(value: u8) -> Result<Self, RdmError> {
        match value {
            0x00 => Ok(BrokerState::Disabled),
            0x01 => Ok(BrokerState::Active),
            0x02 => Ok(BrokerState::Standby),
            _ => Err(RdmError::InvalidBrokerState(value)),
        }
    }

    /// Whether the value is one that decoding its wire value gives back.
    pub open spec fn spec_wire_valid(self) -> bool {
        match self {
            _ => true,
        }
    }

    /// Decoding the wire value of a valid variant gives it back.
    pub proof fn lemma_encode_decode(self)
        requires
            self.spec_wire_valid(),
        ensures
            Self::spec_try_from_u8(self.spec_to_u8()) == Ok::<Self, RdmError>(self),
    {
    }

    /// Encoding the variant that a wire value stands for gives the value back.
    pub proof fn lemma_decode_encode(value: u8)
        ensures
            Self::spec_try_from_u8(value) matches Ok(v) ==> v.spec_to_u8() == value && v.spec_wire_valid(),
    {
    }
}

impl BrokerState {
    /// The wire value of the variant.
    pub fn to_u8(&self) -> (r: u8)
        ensures
            r == self.spec_to_u8(),
    {
        match self {
            BrokerState::Disabled => 0x00,
            BrokerState::Active => 0x01,
            BrokerState::Standby => 0x02,
        }
    }

    /// The variant that a wire value stands for, or the error for a value that stands for none.
    pub fn try_from_u8(value: u8) -> (r: Result<Self, RdmError>)
        ensures
            r == Self::spec_try_from_u8(value),
    {
        match value {
            0x00 => Ok(BrokerState::Disabled),
            0x01 => Ok(BrokerState::Active),
            0x02 => Ok(BrokerState::Standby),
            _ => Err(RdmError::InvalidBrokerState(value)),
        }
    }
}

impl TryFrom<u8> for BrokerState {
    type Error = RdmError;

    fn try_from(value: u8) -> (r: Result<Self, RdmError>) {
        Self::try_from_u8(value)
    }
}

impl TryFromSpecImpl<u8> for BrokerState {
    open spec fn obeys_try_from_spec() -> bool {
        true
    }

    open spec fn try_from_spec(value: u8) -> Result<Self, RdmError> {
        Self::spec_try_from_u8(value)
    }
}

impl From<BrokerState> for u8 {
    fn from(value: BrokerState) -> (r: u8) {
        value.to_u8()
    }
}

impl FromSpecImpl<BrokerState> for u8 {
    open spec fn obeys_from_spec() -> bool {
        true
    }

    open spec fn from_spec(value: BrokerState) -> u8 {
        value.spec_to_u8()
    }
}

impl<'a> FixedWire<'a> for BrokerState {
    open spec fn spec_size() -> nat {
        1
    }

    open spec fn spec_wire(&self) -> Seq<u8> {
        self.spec_to_u8().spec_wire()
    }

    open spec fn spec_read(bytes: Seq<u8>) -> Option<Self> {
        match u8::spec_read(bytes) {
            Some(value) => match Self::spec_try_from_u8(value) {
                Ok(v) => Some(v),
                Err(_) => None,
            },
            None => None,
        }
    }

    open spec fn spec_wire_valid(&self) -> bool {
        BrokerState::spec_wire_valid(*self)
    }

    fn wire_size() -> (n: usize) {
        1
    }

    fn write_wire(&self, out: &mut Vec<u8>) {
        self.to_u8().write_wire(out);
    }

    fn read_wire(buf: &'a [u8], pos: usize) -> (r: Option<Self>) {
        let value = match u8::read_wire(buf, pos) {
            Some(value) => value,
            None => return None,
        };
        match Self::try_from_u8(value) {
            Ok(v) => Some(v),
            Err(_) => None,
        }
    }

    proof fn lemma_wire(&self) {
        self.spec_to_u8().lemma_wire();
        if self.spec_wire_valid() {
            self.lemma_encode_decode();
        }
    }
}

impl BrokerState {
    pub fn size_of(&self) -> (n: usize)
        ensures
            n == Self::spec_size(),
    {
        Self::wire_size()
    }

    /// Writes the wire form at the start of `buf`.
    pub fn encode_parameter_data(&self, buf: &mut [u8]) -> (r: Result<usize, ParameterDataError>)
        requires
            old(buf)@.len() >= Self::spec_size(),
        ensures
            r == Ok::<usize, ParameterDataError>(Self::spec_size() as usize),
            final(buf)@ == written_prefix(old(buf)@, self.spec_wire()),
    {
        encode_fixed(self, buf)
    }

    /// Reads the value from the start of `buf`.
    pub fn decode_parameter_data(buf: &[u8]) -> (r: Result<Self, ParameterDataError>)
        requires
            buf@.len() >= Self::spec_size(),
        ensures
            r == decoded_fixed::<Self>(buf@),
    {
        decode_fixed(buf)
    }
}

/// A bounded string of at most 231 bytes of UTF-8.
#[derive(Clone, Copy, Debug, PartialEq, Eq)]
pub struct SearchDomain {
    len: usize,
    bytes: [u8; 231],
}

impl SearchDomain {
    pub const MAX_LENGTH: usize = 231;

    #[verifier::type_invariant]
    pub closed spec fn wf(self) -> bool {
        &&& self.len <= 231
        &&& vstd::utf8::valid_utf8(self.bytes@.subrange(0, self.len as int))
        &&& forall|i: int| self.len <= i < 231 ==> self.bytes@[i] == 0
    }

    /// The UTF-8 bytes of the string.
    pub closed spec fn spec_bytes(self) -> Seq<u8> {
        self.bytes@.subrange(0, self.len as int)
    }

    /// The label whose bytes are `content`, when they fit and are UTF-8.
    pub closed spec fn spec_of_bytes(content: Seq<u8>) -> Self {
        choose|l: Self| l.wf() && l.spec_bytes() == content
    }

    /// A label is determined by its bytes.
    pub proof fn lemma_determined_by_bytes(a: Self, b: Self)
        requires
            a.wf(),
            b.wf(),
            a.spec_bytes() == b.spec_bytes(),
        ensures
            a == b,
    {
        assert forall|i: int| 0 <= i < 231 implies a.bytes@[i] == b.bytes@[i] by {
            if i < a.len {
                assert(a.bytes@[i] == a.spec_bytes()[i]);
                assert(b.bytes@[i] == b.spec_bytes()[i]);
            }
        }
        assert(a.bytes =~= b.bytes);
    }

    /// The label that holds `content` holds exactly those bytes, when they fit and are UTF-8.
    pub proof fn lemma_of_bytes(content: Seq<u8>)
        requires
            content.len() <= 231,
            vstd::utf8::valid_utf8(content),
        ensures
            Self::spec_of_bytes(content).wf(),
            Self::spec_of_bytes(content).spec_bytes() == content,
    {
        let bytes = spec_padded_array::<231>(content, content.len());
        lemma_padded_array::<231>(content, content.len());
        let l = SearchDomain { len: content.len() as usize, bytes };
        assert(l.bytes@.subrange(0, l.len as int) =~= content);
        assert(l.wf() && l.spec_bytes() == content);
    }

    fn of_bytes(content: &[u8]) -> (r: Self)
        requires
            content@.len() <= 231,
            vstd::utf8::valid_utf8(content@),
        ensures
            r == Self::spec_of_bytes(content@),
            r.spec_bytes() == content@,
    {
        let mut bytes = [0u8; 231];
        proof {
            vstd::array::axiom_spec_array_fill_for_copy_type::<u8, 231>(0u8);
        }
        let mut i: usize = 0;
        while i < content.len()
            invariant
                i <= content@.len(),
                content@.len() <= 231,
                forall|j: int| 0 <= j < i ==> bytes@[j] == content@[j],
                forall|j: int| i <= j < 231 ==> bytes@[j] == 0,
            decreases content@.len() - i,
        {
            bytes[i] = content[i];
            i = i + 1;
        }
        proof {
            assert(bytes@.subrange(0, content@.len() as int) =~= content@);
        }
        let r = SearchDomain { len: content.len(), bytes };
        proof {
            Self::lemma_determined_by_bytes(r, Self::spec_of_bytes(content@));
        }
        r
    }

    /// Makes a label of `s`, failing when it is longer than 231 bytes.
    pub fn new(s: &str) -> (r: Result<Self, RdmError>)
        ensures
            s.spec_bytes().len() <= 231 ==> r == Ok::<Self, RdmError>(Self::spec_of_bytes(s.spec_bytes())),
            r matches Ok(l) ==> l.spec_bytes() == s.spec_bytes(),
            s.spec_bytes().len() > 231 ==> r == Err::<Self, RdmError>(
                RdmError::InvalidStringLength(s.spec_bytes().len() as usize, 231),
            ),
    {
        let b = s.as_bytes();
        if b.len() > 231 {
            return Err(RdmError::InvalidStringLength(b.len(), 231));
        }
        proof {
            vstd::utf8::encode_utf8_valid_utf8(s@);
        }
        Ok(Self::of_bytes(b))
    }

    /// Makes a label of `s` without its trailing zero characters, failing when it is longer than 231 bytes.
    pub fn from_str(s: &str) -> (r: Result<Self, ParameterDataError>)
        ensures
            trimmed_trailing_nulls(s.spec_bytes()).len() <= 231 ==> r == Ok::<Self, ParameterDataError>(
                Self::spec_of_bytes(trimmed_trailing_nulls(s.spec_bytes())),
            ),
            r matches Ok(l) ==> l.spec_bytes() == trimmed_trailing_nulls(s.spec_bytes()),
            trimmed_trailing_nulls(s.spec_bytes()).len() > 231 ==> r == Err::<Self, ParameterDataError>(
                ParameterDataError::StringTooLong {
                    length: trimmed_trailing_nulls(s.spec_bytes()).len() as usize,
                    max_length: 231,
                },
            ),
    {
        let b = s.as_bytes();
        let t = trim_trailing_nulls(b);
        if t.len() > 231 {
            return Err(ParameterDataError::StringTooLong { length: t.len(), max_length: 231 });
        }
        proof {
            vstd::utf8::encode_utf8_valid_utf8(s@);
            lemma_trim_trailing_nulls_valid_utf8(s.spec_bytes());
        }
        Ok(Self::of_bytes(t))
    }

    /// The label as a string slice.
    pub fn as_str(&self) -> (r: &str)
        ensures
            r.spec_bytes() == self.spec_bytes(),
    {
        proof {
            use_type_invariant(self);
        }
        let s = vstd::slice::slice_subrange(self.bytes.as_slice(), 0, self.len);
        match str_from_utf8(s) {
            Some(r) => r,
            None => {
                proof {
                    assert(false);
                }
                ""
            },
        }
    }

    /// The UTF-8 bytes of the label.
    pub fn as_bytes(&self) -> (r: &[u8])
        ensures
            r@ == self.spec_bytes(),
    {
        proof {
            use_type_invariant(self);
        }
        vstd::slice::slice_subrange(self.bytes.as_slice(), 0, self.len)
    }

    /// The length in bytes.
    pub fn len(&self) -> (n: usize)
        ensures
            n == self.spec_bytes().len(),
    {
        proof {
            use_type_invariant(self);
        }
        self.len
    }

    pub fn is_empty(&self) -> (b: bool)
        ensures
            b == (self.spec_bytes().len() == 0),
    {
        proof {
            use_type_invariant(self);
        }
        self.len == 0
    }

    /// The wire form: the bytes up to the first zero byte.
    pub open spec fn spec_encode(self) -> Seq<u8> {
        truncated_at_null(self.spec_bytes())
    }

    /// The label carried by `buf`: its bytes up to the first zero byte, when they are UTF-8 and fit.
    pub open spec fn spec_decode(buf: Seq<u8>) -> Result<Self, ParameterDataError> {
        let content = truncated_at_null(buf);
        if content.len() > 231 {
            Err(ParameterDataError::StringTooLong { length: content.len() as usize, max_length: 231 })
        } else if !vstd::utf8::valid_utf8(content) {
            Err(ParameterDataError::InvalidUtf8)
        } else {
            Ok(Self::spec_of_bytes(content))
        }
    }

    /// The parameter data of a text without a zero byte is the text itself, and a text of at most
    /// 231 bytes of UTF-8 without a zero byte decodes to the value holding that text; whatever
    /// follows a zero byte is not read.
    pub proof fn lemma_text_codec(self, text: Seq<u8>)
        ensures
            has_no_null(self.spec_bytes()) ==> self.spec_encode() == self.spec_bytes(),
            text.len() <= 231 && has_no_null(text) && vstd::utf8::valid_utf8(text) ==> (Self::spec_decode(text) matches Ok(l)
                && l.spec_bytes() == text),
            forall|rest: Seq<u8>| #![auto] has_no_null(text) ==> Self::spec_decode(text + seq![0u8] + rest) == Self::spec_decode(text),
    {
        let b = self.spec_bytes();
        if has_no_null(b) {
            assert(b.subrange(0, b.len() as int) =~= b);
            lemma_truncated_at_null_prefix(b, b.len() as int);
        }
        if has_no_null(text) {
            assert(text.subrange(0, text.len() as int) =~= text);
            lemma_truncated_at_null_prefix(text, text.len() as int);
            if text.len() <= 231 && vstd::utf8::valid_utf8(text) {
                Self::lemma_of_bytes(text);
            }
            assert forall|rest: Seq<u8>| #![auto] Self::spec_decode(text + seq![0u8] + rest) == Self::spec_decode(text) by {
                let w = text + seq![0u8] + rest;
                assert(w.subrange(0, text.len() as int) =~= text);
                lemma_truncated_at_null_prefix(w, text.len() as int);
            }
        }
    }

    pub fn size_of(&self) -> (n: usize)
        ensures
            n == self.spec_encode().len(),
    {
        proof {
            use_type_invariant(self);
        }
        let s = vstd::slice::slice_subrange(self.bytes.as_slice(), 0, self.len);
        null_position(s)
    }

    pub fn encode_parameter_data(&self, buf: &mut [u8]) -> (r: Result<usize, ParameterDataError>)
        ensures
            encoded_into(old(buf)@, final(buf)@, self.spec_encode(), r),
    {
        proof {
            use_type_invariant(self);
        }
        let s = vstd::slice::slice_subrange(self.bytes.as_slice(), 0, self.len);
        copy_encoded(buf, truncate_at_null(s))
    }

    pub fn decode_parameter_data(buf: &[u8]) -> (r: Result<Self, ParameterDataError>)
        ensures
            r == Self::spec_decode(buf@),
            r matches Ok(l) ==> l.spec_bytes() == truncated_at_null(buf@),
    {
        let content = truncate_at_null(buf);
        if content.len() > 231 {
            return Err(ParameterDataError::StringTooLong { length: content.len(), max_length: 231 });
        }
        match str_from_utf8(content) {
            Some(_) => Ok(Self::of_bytes(content)),
            None => Err(ParameterDataError::InvalidUtf8),
        }
    }

    /// Decoding the wire form of a label without zero bytes gives the label back.
    pub proof fn lemma_roundtrip(self)
        requires
            self.wf(),
            has_no_null(self.spec_bytes()),
        ensures
            Self::spec_decode(self.spec_encode()) == Ok::<Self, ParameterDataError>(self),
    {
        lemma_truncated_at_null_prefix(self.spec_bytes(), self.spec_bytes().len() as int);
        assert(self.spec_bytes().subrange(0, self.spec_bytes().len() as int) =~= self.spec_bytes());
        Self::lemma_determined_by_bytes(self, Self::spec_of_bytes(self.spec_bytes()));
    }

    /// The wire form is no longer than 231 bytes.
    pub proof fn lemma_encode_len(self)
        requires
            self.wf(),
        ensures
            self.spec_encode().len() <= 231,
    {
        lemma_truncated_at_null_shape(self.spec_bytes());
    }

    /// Whether decoding the wire form gives the label back: it holds no zero byte.
    pub open spec fn spec_encodable(self) -> bool {
        self.wf() && has_no_null(self.spec_bytes())
    }

    /// The bytes followed by zeros up to 231 bytes.
    pub closed spec fn spec_padded(self) -> Seq<u8> {
        self.bytes@
    }

    /// Appends the wire form to `out`.
    pub fn write_encoded(&self, out: &mut Vec<u8>)
        ensures
            final(out)@ == old(out)@ + self.spec_encode(),
    {
        proof {
            use_type_invariant(self);
        }
        let s = vstd::slice::slice_subrange(self.bytes.as_slice(), 0, self.len);
        extend_from(out, truncate_at_null(s));
    }
}

impl<'a> FixedWire<'a> for SearchDomain {
    open spec fn spec_size() -> nat {
        231
    }

    open spec fn spec_wire(&self) -> Seq<u8> {
        self.spec_padded()
    }

    open spec fn spec_read(bytes: Seq<u8>) -> Option<Self> {
        match Self::spec_decode(bytes) {
            Ok(l) => Some(l),
            Err(_) => None,
        }
    }

    open spec fn spec_wire_valid(&self) -> bool {
        self.spec_encodable()
    }

    fn wire_size() -> (n: usize) {
        231
    }

    fn write_wire(&self, out: &mut Vec<u8>) {
        proof {
            use_type_invariant(self);
        }
        extend_from(out, self.bytes.as_slice());
    }

    fn read_wire(buf: &'a [u8], pos: usize) -> (r: Option<Self>) {
        let _len = buf.len();
        let s = vstd::slice::slice_subrange(buf, pos, pos + 231);
        match Self::decode_parameter_data(s) {
            Ok(l) => Some(l),
            Err(_) => None,
        }
    }

    proof fn lemma_wire(&self) {
        if self.spec_encodable() {
            let b = self.spec_bytes();
            let p = self.bytes@;
            assert(p.subrange(0, self.len as int) =~= b);
            assert forall|i: int| 0 <= i < self.len implies p[i] != 0 by {
                assert(p[i] == b[i]);
            }
            assert(self.len < 231 ==> p[self.len as int] == 0);
            assert(has_no_null(p.subrange(0, self.len as int)));
            lemma_truncated_at_null_prefix(p, self.len as int);
            Self::lemma_determined_by_bytes(*self, Self::spec_of_bytes(b));
        }
    }
}

/// A bounded string of at most 63 bytes of UTF-8.
#[derive(Clone, Copy, Debug, PartialEq, Eq)]
pub struct Scope {
    len: usize,
    bytes: [u8; 63],
}

impl Scope {
    pub const MAX_LENGTH: usize = 63;

    #[verifier::type_invariant]
    pub closed spec fn wf(self) -> bool {
        &&& self.len <= 63
        &&& vstd::utf8::valid_utf8(self.bytes@.subrange(0, self.len as int))
        &&& forall|i: int| self.len <= i < 63 ==> self.bytes@[i] == 0
    }

    /// The UTF-8 bytes of the string.
    pub closed spec fn spec_bytes(self) -> Seq<u8> {
        self.bytes@.subrange(0, self.len as int)
    }

    /// The label whose bytes are `content`, when they fit and are UTF-8.
    pub closed spec fn spec_of_bytes(content: Seq<u8>) -> Self {
        choose|l: Self| l.wf() && l.spec_bytes() == content
    }

    /// A label is determined by its bytes.
    pub proof fn lemma_determined_by_bytes(a: Self, b: Self)
        requires
            a.wf(),
            b.wf(),
            a.spec_bytes() == b.spec_bytes(),
        ensures
            a == b,
    {
        assert forall|i: int| 0 <= i < 63 implies a.bytes@[i] == b.bytes@[i] by {
            if i < a.len {
                assert(a.bytes@[i] == a.spec_bytes()[i]);
                assert(b.bytes@[i] == b.spec_bytes()[i]);
            }
        }
        assert(a.bytes =~= b.bytes);
    }

    /// The label that holds `content` holds exactly those bytes, when they fit and are UTF-8.
    pub proof fn lemma_of_bytes(content: Seq<u8>)
        requires
            content.len() <= 63,
            vstd::utf8::valid_utf8(content),
        ensures
            Self::spec_of_bytes(content).wf(),
            Self::spec_of_bytes(content).spec_bytes() == content,
    {
        let bytes = spec_padded_array::<63>(content, content.len());
        lemma_padded_array::<63>(content, content.len());
        let l = Scope { len: content.len() as usize, bytes };
        assert(l.bytes@.subrange(0, l.len as int) =~= content);
        assert(l.wf() && l.spec_bytes() == content);
    }

    fn of_bytes(content: &[u8]) -> (r: Self)
        requires
            content@.len() <= 63,
            vstd::utf8::valid_utf8(content@),
        ensures
            r == Self::spec_of_bytes(content@),
            r.spec_bytes() == content@,
    {
        let mut bytes = [0u8; 63];
        proof {
            vstd::array::axiom_spec_array_fill_for_copy_type::<u8, 63>(0u8);
        }
        let mut i: usize = 0;
        while i < content.len()
            invariant
                i <= content@.len(),
                content@.len() <= 63,
                forall|j: int| 0 <= j < i ==> bytes@[j] == content@[j],
                forall|j: int| i <= j < 63 ==> bytes@[j] == 0,
            decreases content@.len() - i,
        {
            bytes[i] = content[i];
            i = i + 1;
        }
        proof {
            assert(bytes@.subrange(0, content@.len() as int) =~= content@);
        }
        let r = Scope { len: content.len(), bytes };
        proof {
            Self::lemma_determined_by_bytes(r, Self::spec_of_bytes(content@));
        }
        r
    }

    /// Makes a label of `s`, failing when it is longer than 63 bytes.
    pub fn new(s: &str) -> (r: Result<Self, RdmError>)
        ensures
            s.spec_bytes().len() <= 63 ==> r == Ok::<Self, RdmError>(Self::spec_of_bytes(s.spec_bytes())),
            r matches Ok(l) ==> l.spec_bytes() == s.spec_bytes(),
            s.spec_bytes().len() > 63 ==> r == Err::<Self, RdmError>(
                RdmError::InvalidStringLength(s.spec_bytes().len() as usize, 63),
            ),
    {
        let b = s.as_bytes();
        if b.len() > 63 {
            return Err(RdmError::InvalidStringLength(b.len(), 63));
        }
        proof {
            vstd::utf8::encode_utf8_valid_utf8(s@);
        }
        Ok(Self::of_bytes(b))
    }

    /// Makes a label of `s` without its trailing zero characters, failing when it is longer than 63 bytes.
    pub fn from_str(s: &str) -> (r: Result<Self, ParameterDataError>)
        ensures
            trimmed_trailing_nulls(s.spec_bytes()).len() <= 63 ==> r == Ok::<Self, ParameterDataError>(
                Self::spec_of_bytes(trimmed_trailing_nulls(s.spec_bytes())),
            ),
            r matches Ok(l) ==> l.spec_bytes() == trimmed_trailing_nulls(s.spec_bytes()),
            trimmed_trailing_nulls(s.spec_bytes()).len() > 63 ==> r == Err::<Self, ParameterDataError>(
                ParameterDataError::StringTooLong {
                    length: trimmed_trailing_nulls(s.spec_bytes()).len() as usize,
                    max_length: 63,
                },
            ),
    {
        let b = s.as_bytes();
        let t = trim_trailing_nulls(b);
        if t.len() > 63 {
            return Err(ParameterDataError::StringTooLong { length: t.len(), max_length: 63 });
        }
        proof {
            vstd::utf8::encode_utf8_valid_utf8(s@);
            lemma_trim_trailing_nulls_valid_utf8(s.spec_bytes());
        }
        Ok(Self::of_bytes(t))
    }

    /// The label as a string slice.
    pub fn as_str(&self) -> (r: &str)
        ensures
            r.spec_bytes() == self.spec_bytes(),
    {
        proof {
            use_type_invariant(self);
        }
        let s = vstd::slice::slice_subrange(self.bytes.as_slice(), 0, self.len);
        match str_from_utf8(s) {
            Some(r) => r,
            None => {
                proof {
                    assert(false);
                }
                ""
            },
        }
    }

    /// The UTF-8 bytes of the label.
    pub fn as_bytes(&self) -> (r: &[u8])
        ensures
            r@ == self.spec_bytes(),
    {
        proof {
            use_type_invariant(self);
        }
        vstd::slice::slice_subrange(self.bytes.as_slice(), 0, self.len)
    }

    /// The length in bytes.
    pub fn len(&self) -> (n: usize)
        ensures
            n == self.spec_bytes().len(),
    {
        proof {
            use_type_invariant(self);
        }
        self.len
    }

    pub fn is_empty(&self) -> (b: bool)
        ensures
            b == (self.spec_bytes().len() == 0),
    {
        proof {
            use_type_invariant(self);
        }
        self.len == 0
    }

    /// The wire form: the bytes up to the first zero byte.
    pub open spec fn spec_encode(self) -> Seq<u8> {
        truncated_at_null(self.spec_bytes())
    }

    /// The label carried by `buf`: its bytes up to the first zero byte, when they are UTF-8 and fit.
    pub open spec fn spec_decode(buf: Seq<u8>) -> Result<Self, ParameterDataError> {
        let content = truncated_at_null(buf);
        if content.len() > 63 {
            Err(ParameterDataError::StringTooLong { length: content.len() as usize, max_length: 63 })
        } else if !vstd::utf8::valid_utf8(content) {
            Err(ParameterDataError::InvalidUtf8)
        } else {
            Ok(Self::spec_of_bytes(content))
        }
    }

    /// The parameter data of a text without a zero byte is the text itself, and a text of at most
    /// 63 bytes of UTF-8 without a zero byte decodes to the value holding that text; whatever
    /// follows a zero byte is not read.
    pub proof fn lemma_text_codec(self, text: Seq<u8>)
        ensures
            has_no_null(self.spec_bytes()) ==> self.spec_encode() == self.spec_bytes(),
            text.len() <= 63 && has_no_null(text) && vstd::utf8::valid_utf8(text) ==> (Self::spec_decode(text) matches Ok(l)
                && l.spec_bytes() == text),
            forall|rest: Seq<u8>| #![auto] has_no_null(text) ==> Self::spec_decode(text + seq![0u8] + rest) == Self::spec_decode(text),
    {
        let b = self.spec_bytes();
        if has_no_null(b) {
            assert(b.subrange(0, b.len() as int) =~= b);
            lemma_truncated_at_null_prefix(b, b.len() as int);
        }
        if has_no_null(text) {
            assert(text.subrange(0, text.len() as int) =~= text);
            lemma_truncated_at_null_prefix(text, text.len() as int);
            if text.len() <= 63 && vstd::utf8::valid_utf8(text) {
                Self::lemma_of_bytes(text);
            }
            assert forall|rest: Seq<u8>| #![auto] Self::spec_decode(text + seq![0u8] + rest) == Self::spec_decode(text) by {
                let w = text + seq![0u8] + rest;
                assert(w.subrange(0, text.len() as int) =~= text);
                lemma_truncated_at_null_prefix(w, text.len() as int);
            }
        }
    }

    pub fn size_of(&self) -> (n: usize)
        ensures
            n == self.spec_encode().len(),
    {
        proof {
            use_type_invariant(self);
        }
        let s = vstd::slice::slice_subrange(self.bytes.as_slice(), 0, self.len);
        null_position(s)
    }

    pub fn encode_parameter_data(&self, buf: &mut [u8]) -> (r: Result<usize, ParameterDataError>)
        ensures
            encoded_into(old(buf)@, final(buf)@, self.spec_encode(), r),
    {
        proof {
            use_type_invariant(self);
        }
        let s = vstd::slice::slice_subrange(self.bytes.as_slice(), 0, self.len);
        copy_encoded(buf, truncate_at_null(s))
    }

    pub fn decode_parameter_data(buf: &[u8]) -> (r: Result<Self, ParameterDataError>)
        ensures
            r == Self::spec_decode(buf@),
            r matches Ok(l) ==> l.spec_bytes() == truncated_at_null(buf@),
    {
        let content = truncate_at_null(buf);
        if content.len() > 63 {
            return Err(ParameterDataError::StringTooLong { length: content.len(), max_length: 63 });
        }
        match str_from_utf8(content) {
            Some(_) => Ok(Self::of_bytes(content)),
            None => Err(ParameterDataError::InvalidUtf8),
        }
    }

    /// Decoding the wire form of a label without zero bytes gives the label back.
    pub proof fn lemma_roundtrip(self)
        requires
            self.wf(),
            has_no_null(self.spec_bytes()),
        ensures
            Self::spec_decode(self.spec_encode()) == Ok::<Self, ParameterDataError>(self),
    {
        lemma_truncated_at_null_prefix(self.spec_bytes(), self.spec_bytes().len() as int);
        assert(self.spec_bytes().subrange(0, self.spec_bytes().len() as int) =~= self.spec_bytes());
        Self::lemma_determined_by_bytes(self, Self::spec_of_bytes(self.spec_bytes()));
    }

    /// The wire form is no longer than 63 bytes.
    pub proof fn lemma_encode_len(self)
        requires
            self.wf(),
        ensures
            self.spec_encode().len() <= 63,
    {
        lemma_truncated_at_null_shape(self.spec_bytes());
    }

    /// Whether decoding the wire form gives the label back: it holds no zero byte.
    pub open spec fn spec_encodable(self) -> bool {
        self.wf() && has_no_null(self.spec_bytes())
    }

    /// The bytes followed by zeros up to 63 bytes.
    pub closed spec fn spec_padded(self) -> Seq<u8> {
        self.bytes@
    }

    /// Appends the wire form to `out`.
    pub fn write_encoded(&self, out: &mut Vec<u8>)
        ensures
            final(out)@ == old(out)@ + self.spec_encode(),
    {
        proof {
            use_type_invariant(self);
        }
        let s = vstd::slice::slice_subrange(self.bytes.as_slice(), 0, self.len);
        extend_from(out, truncate_at_null(s));
    }
}

impl<'a> FixedWire<'a> for Scope {
    open spec fn spec_size() -> nat {
        63
    }

    open spec fn spec_wire(&self) -> Seq<u8> {
        self.spec_padded()
    }

    open spec fn spec_read(bytes: Seq<u8>) -> Option<Self> {
        match Self::spec_decode(bytes) {
            Ok(l) => Some(l),
            Err(_) => None,
        }
    }

    open spec fn spec_wire_valid(&self) -> bool {
        self.spec_encodable()
    }

    fn wire_size() -> (n: usize) {
        63
    }

    fn write_wire(&self, out: &mut Vec<u8>) {
        proof {
            use_type_invariant(self);
        }
        extend_from(out, self.bytes.as_slice());
    }

    fn read_wire(buf: &'a [u8], pos: usize) -> (r: Option<Self>) {
        let _len = buf.len();
        let s = vstd::slice::slice_subrange(buf, pos, pos + 63);
        match Self::decode_parameter_data(s) {
            Ok(l) => Some(l),
            Err(_) => None,
        }
    }

    proof fn lemma_wire(&self) {
        if self.spec_encodable() {
            let b = self.spec_bytes();
            let p = self.bytes@;
            assert(p.subrange(0, self.len as int) =~= b);
            assert forall|i: int| 0 <= i < self.len implies p[i] != 0 by {
                assert(p[i] == b[i]);
            }
            assert(self.len < 63 ==> p[self.len as int] == 0);
            assert(has_no_null(p.subrange(0, self.len as int)));
            lemma_truncated_at_null_prefix(p, self.len as int);
            Self::lemma_determined_by_bytes(*self, Self::spec_of_bytes(b));
        }
    }
}

} // verus!
