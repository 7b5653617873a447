//! Data types of the E1.37-7 parameters.

pub mod request;
pub mod response;

use crate::rdm::error::{ParameterDataError, RdmError};
use crate::rdm::utils::{copy_encoded, encoded_into, extend_from, has_no_null, lemma_trim_trailing_nulls_valid_utf8, lemma_truncated_at_null_prefix, lemma_truncated_at_null_shape, null_position, str_from_utf8, trim_trailing_nulls, trimmed_trailing_nulls, truncate_at_null, truncated_at_null, written_prefix, spec_padded_array, lemma_padded_array};
use crate::rdm::wire::{decode_fixed, decode_record, decoded_fixed, encode_fixed, encode_record, lemma_record_roundtrip, record_decoded, FixedWire};
use vstd::prelude::*;
use vstd::std_specs::convert::{FromSpecImpl, TryFromSpecImpl};
use vstd::string::StringSliceAdditionalSpecFns;

verus! {

broadcast use vstd::array::group_array_axioms;

#[derive(Copy, Clone, Debug, PartialEq, Eq, Structural, Hash)]
pub enum EndpointId {
    Null,
    Broadcast,
    Reserved(u16),
    Device(u16),
}

impl EndpointId {
    /// The wire value of the variant.
    pub open spec fn spec_to_u16(self) -> u16 {
        match self {
            EndpointId::Null => 0x0000,
            EndpointId::Broadcast => 0xffff,
            EndpointId::Reserved(value) => value,
            EndpointId::Device(value) => value,
        }
    }

    /// The variant that a wire value stands for.
    pub open spec fn spec_from_u16(value: u16) -> Self {
        match value {
            0x0000 => EndpointId::Null,
            0xffff => EndpointId::Broadcast,
            _ => if 0xfa00 <= value && value <= 0xfffe { EndpointId::Reserved(value) } else { EndpointId::Device(value) },
        }
    }

    /// Whether the value is one that decoding its wire value gives back.
    pub open spec fn spec_wire_valid(self) -> bool {
        match self {
            EndpointId::Reserved(value) => 0xfa00 <= value && value <= 0xfffe,
            EndpointId::Device(value) => value != 0x0000 && value != 0xffff && !(0xfa00 <= value && value <= 0xfffe),
            _ => true,
        }
    }

    /// Decoding the wire value of a valid variant gives it back.
    pub proof fn lemma_encode_decode(self)
        requires
            self.spec_wire_valid(),
        ensures
            Self::spec_from_u16(self.spec_to_u16()) == self,
    {
    }

    /// Encoding the variant that a wire value stands for gives the value back.
    pub proof fn lemma_decode_encode(value: u16)
        ensures
            Self::spec_from_u16(value).spec_to_u16() == value,
            Self::spec_from_u16(value).spec_wire_valid(),
    {
    }
}

impl EndpointId {
    /// The wire value of the variant.
    pub fn to_u16(&self) -> (r: u16)
        ensures
            r == self.spec_to_u16(),
    {
        match self {
            EndpointId::Null => 0x0000,
            EndpointId::Broadcast => 0xffff,
            EndpointId::Reserved(value) => *value,
            EndpointId::Device(value) => *value,
        }
    }

    /// The variant that a wire value stands for.
    pub fn from_u16(value: u16) -> (r: Self)
        ensures
            r == Self::spec_from_u16(value),
    {
        match value {
            0x0000 => EndpointId::Null,
            0xffff => EndpointId::Broadcast,
            _ => if 0xfa00 <= value && value <= 0xfffe { EndpointId::Reserved(value) } else { EndpointId::Device(value) },
        }
    }
}

impl From<u16> for EndpointId {
    fn from(value: u16) -> (r: Self) {
        Self::from_u16(value)
    }
}

impl FromSpecImpl<u16> for EndpointId {
    open spec fn obeys_from_spec() -> bool {
        true
    }

    open spec fn from_spec(value: u16) -> Self {
        Self::spec_from_u16(value)
    }
}

impl From<EndpointId> for u16 {
    fn from(value: EndpointId) -> (r: u16) {
        value.to_u16()
    }
}

impl FromSpecImpl<EndpointId> for u16 {
    open spec fn obeys_from_spec() -> bool {
        true
    }

    open spec fn from_spec(value: EndpointId) -> u16 {
        value.spec_to_u16()
    }
}

impl<'a> FixedWire<'a> for EndpointId {
    open spec fn spec_size() -> nat {
        2
    }

    open spec fn spec_wire(&self) -> Seq<u8> {
        self.spec_to_u16().spec_wire()
    }

    open spec fn spec_read(bytes: Seq<u8>) -> Option<Self> {
        match u16::spec_read(bytes) {
            Some(value) => Some(Self::spec_from_u16(value)),
            None => None,
        }
    }

    open spec fn spec_wire_valid(&self) -> bool {
        EndpointId::spec_wire_valid(*self)
    }

    fn wire_size() -> (n: usize) {
        2
    }

    fn write_wire(&self, out: &mut Vec<u8>) {
        self.to_u16().write_wire(out);
    }

    fn read_wire(buf: &'a [u8], pos: usize) -> (r: Option<Self>) {
        let value = match u16::read_wire(buf, pos) {
            Some(value) => value,
            None => return None,
        };
        Some(Self::from_u16(value))
    }

    proof fn lemma_wire(&self) {
        self.spec_to_u16().lemma_wire();
        if self.spec_wire_valid() {
            self.lemma_encode_decode();
        }
    }
}

impl EndpointId {
    pub fn size_of(&self) -> (n: usize)
        ensures
            n == Self::spec_size(),
    {
        Self::wire_size()
    }

    /// Writes the wire form at the start of `buf`.
    pub fn encode_parameter_data(&self, buf: &mut [u8]) -> (r: Result<usize, ParameterDataError>)
        requires
            old(buf)@.len() >= Self::spec_size(),
        ensures
            r == Ok::<usize, ParameterDataError>(Self::spec_size() as usize),
            final(buf)@ == written_prefix(old(buf)@, self.spec_wire()),
    {
        encode_fixed(self, buf)
    }

    /// Reads the value from the start of `buf`.
    pub fn decode_parameter_data(buf: &[u8]) -> (r: Result<Self, ParameterDataError>)
        requires
            buf@.len() >= Self::spec_size(),
        ensures
            r == decoded_fixed::<Self>(buf@),
    {
        decode_fixed(buf)
    }
}

#[derive(Copy, Clone, Debug, PartialEq, Eq, Structural)]
pub enum DiscoveryState {
    Incomplete,
    Incremental,
    Full,
    NotActive,
    ManufacturerSpecific(u8),
}

impl DiscoveryState {
    /// The wire value of the variant.
    pub open spec fn spec_to_u8(self) -> u8 {
        match self {
            DiscoveryState::Incomplete => 0x00,
            DiscoveryState::Incremental => 0x01,
            DiscoveryState::Full => 0x02,
            DiscoveryState::NotActive => 0x04,
            DiscoveryState::ManufacturerSpecific(value) => value,
        }
    }

    /// The variant that a wire value stands for.
    pub open spec fn spec_try_from_u8(value: u8) -> Result<Self, RdmError> {
        match value {
            0x00 => Ok(DiscoveryState::Incomplete),
            0x01 => Ok(DiscoveryState::Incremental),
            0x02 => Ok(DiscoveryState::Full),
            0x04 => Ok(DiscoveryState::NotActive),
            _ => if 0x80 <= value && value <= 0xff { Ok(DiscoveryState::ManufacturerSpecific(value)) } else { Err(RdmError::InvalidDiscoveryState(value)) },
        }
    }

    /// Whether the value is one that decoding its wire value gives back.
    pub open spec fn spec_wire_valid(self) -> bool {
        match self {
            DiscoveryState::ManufacturerSpecific(value) => 0x80 <= value && value <= 0xff,
            _ => true,
        }
    }

    /// Decoding the wire value of a valid variant gives it back.
    pub proof fn lemma_encode_decode(self)
        requires
            self.spec_wire_valid(),
        ensures
            Self::spec_try_from_u8(self.spec_to_u8()) == Ok::<Self, RdmError>(self),
    {
    }

    /// Encoding the variant that a wire value stands for gives the value back.
    pub proof fn lemma_decode_encode(value: u8)
        ensures
            Self::spec_try_from_u8(value) matches Ok(v) ==> v.spec_to_u8() == value && v.spec_wire_valid(),
    {
    }
}

impl DiscoveryState {
    /// The wire value of the variant.
    pub fn to_u8(&self) -> (r: u8)
        ensures
            r == self.spec_to_u8(),
    {
        match self {
            DiscoveryState::Incomplete => 0x00,
            DiscoveryState::Incremental => 0x01,
            DiscoveryState::Full => 0x02,
            DiscoveryState::NotActive => 0x04,
            DiscoveryState::ManufacturerSpecific(value) => *value,
        }
    }

    /// The variant that a wire value stands for, or the error for a value that stands for none.
    pub fn try_from_u8(value: u8) -> (r: Result<Self, RdmError>)
        ensures
            r == Self::spec_try_from_u8(value),
    {
        match value {
            0x00 => Ok(DiscoveryState::Incomplete),
            0x01 => Ok(DiscoveryState::Incremental),
            0x02 => Ok(DiscoveryState::Full),
            0x04 => Ok(DiscoveryState::NotActive),
            _ => if 0x80 <= value && value <= 0xff { Ok(DiscoveryState::ManufacturerSpecific(value)) } else { Err(RdmError::InvalidDiscoveryState(value)) },
        }
    }
}

impl TryFrom<u8> for DiscoveryState {
    type Error = RdmError;

    fn try_from(value: u8) -> (r: Result<Self, RdmError>) {
        Self::try_from_u8(value)
    }
}

impl TryFromSpecImpl<u8> for DiscoveryState {
    open spec fn obeys_try_from_spec() -> bool {
        true
    }

    open spec fn try_from_spec(value: u8) -> Result<Self, RdmError> {
        Self::spec_try_from_u8(value)
    }
}

impl From<DiscoveryState> for u8 {
    fn from(value: DiscoveryState) -> (r: u8) {
        value.to_u8()
    }
}

impl FromSpecImpl<DiscoveryState> for u8 {
    open spec fn obeys_from_spec() -> bool {
        true
    }

    open spec fn from_spec(value: DiscoveryState) -> u8 {
        value.spec_to_u8()
    }
}

impl<'a> FixedWire<'a> for DiscoveryState {
    open spec fn spec_size() -> nat {
        1
    }

    open spec fn spec_wire(&self) -> Seq<u8> {
        self.spec_to_u8().spec_wire()
    }

    open spec fn spec_read(bytes: Seq<u8>) -> Option<Self> {
        match u8::spec_read(bytes) {
            Some(value) => match Self::spec_try_from_u8(value) {
                Ok(v) => Some(v),
                Err(_) => None,
            },
            None => None,
        }
    }

    open spec fn spec_wire_valid(&self) -> bool {
        DiscoveryState::spec_wire_valid(*self)
    }

    fn wire_size() -> (n: usize) {
        1
    }

    fn write_wire(&self, out: &mut Vec<u8>) {
        self.to_u8().write_wire(out);
    }

    fn read_wire(buf: &'a [u8], pos: usize) -> (r: Option<Self>) {
        let value = match u8::read_wire(buf, pos) {
            Some(value) => value,
            None => return None,
        };
        match Self::try_from_u8(value) {
            Ok(v) => Some(v),
            Err(_) => None,
        }
    }

    proof fn lemma_wire(&self) {
        self.spec_to_u8().lemma_wire();
        if self.spec_wire_valid() {
            self.lemma_encode_decode();
        }
    }
}

impl DiscoveryState {
    pub fn size_of(&self) -> (n: usize)
        ensures
            n == Self::spec_size(),
    {
        Self::wire_size()
    }

    /// Writes the wire form at the start of `buf`.
    pub fn encode_parameter_data(&self, buf: &mut [u8]) -> (r: Result<usize, ParameterDataError>)
        requires
            old(buf)@.len() >= Self::spec_size(),
        ensures
            r == Ok::<usize, ParameterDataError>(Self::spec_size() as usize),
            final(buf)@ == written_prefix(old(buf)@, self.spec_wire()),
    {
        encode_fixed(self, buf)
    }

    /// Reads the value from the start of `buf`.
    pub fn decode_parameter_data(buf: &[u8]) -> (r: Result<Self, ParameterDataError>)
        requires
            buf@.len() >= Self::spec_size(),
        ensures
            r == decoded_fixed::<Self>(buf@),
    {
        decode_fixed(buf)
    }
}

#[derive(Copy, Clone, Debug, PartialEq, Eq, Structural)]
pub enum DiscoveryCountStatus {
    Incomplete,
    Unknown,
    Count(u16),
}

impl DiscoveryCountStatus {
    /// The wire value of the variant.
    pub open spec fn spec_to_u16(self) -> u16 {
        match self {
            DiscoveryCountStatus::Incomplete => 0x0000,
            DiscoveryCountStatus::Unknown => 0xffff,
            DiscoveryCountStatus::Count(value) => value,
        }
    }

    /// The variant that a wire value stands for.
    pub open spec fn spec_from_u16(value: u16) -> Self {
        match value {
            0x0000 => DiscoveryCountStatus::Incomplete,
            0xffff => DiscoveryCountStatus::Unknown,
            _ => DiscoveryCountStatus::Count(value),
        }
    }

    /// Whether the value is one that decoding its wire value gives back.
    pub open spec fn spec_wire_valid(self) -> bool {
        match self {
            DiscoveryCountStatus::Count(value) => value != 0x0000 && value != 0xffff,
            _ => true,
        }
    }

    /// Decoding the wire value of a valid variant gives it back.
    pub proof fn lemma_encode_decode(self)
        requires
            self.spec_wire_valid(),
        ensures
            Self::spec_from_u16(self.spec_to_u16()) == self,
    {
    }

    /// Encoding the variant that a wire value stands for gives the value back.
    pub proof fn lemma_decode_encode(value: u16)
        ensures
            Self::spec_from_u16(value).spec_to_u16() == value,
            Self::spec_from_u16(value).spec_wire_valid(),
    {
    }
}

impl DiscoveryCountStatus {
    /// The wire value of the variant.
    pub fn to_u16(&self) -> (r: u16)
        ensures
            r == self.spec_to_u16(),
    {
        match self {
            DiscoveryCountStatus::Incomplete => 0x0000,
            DiscoveryCountStatus::Unknown => 0xffff,
            DiscoveryCountStatus::Count(value) => *value,
        }
    }

    /// The variant that a wire value stands for.
    pub fn from_u16(value: u16) -> (r: Self)
        ensures
            r == Self::spec_from_u16(value),
    {
        match value {
            0x0000 => DiscoveryCountStatus::Incomplete,
            0xffff => DiscoveryCountStatus::Unknown,
            _ => DiscoveryCountStatus::Count(value),
        }
    }
}

impl From<u16> for DiscoveryCountStatus {
    fn from(value: u16) -> (r: Self) {
        Self::from_u16(value)
    }
}

impl FromSpecImpl<u16> for DiscoveryCountStatus {
    open spec fn obeys_from_spec() -> bool {
        true
    }

    open spec fn from_spec(value: u16) -> Self {
        Self::spec_from_u16(value)
    }
}

impl From<DiscoveryCountStatus> for u16 {
    fn from(value: DiscoveryCountStatus) -> (r: u16) {
        value.to_u16()
    }
}

impl FromSpecImpl<DiscoveryCountStatus> for u16 {
    open spec fn obeys_from_spec() -> bool {
        true
    }

    open spec fn from_spec(value: DiscoveryCountStatus) -> u16 {
        value.spec_to_u16()
    }
}

impl<'a> FixedWire<'a> for DiscoveryCountStatus {
    open spec fn spec_size() -> nat {
        2
    }

    open spec fn spec_wire(&self) -> Seq<u8> {
        self.spec_to_u16().spec_wire()
    }

    open spec fn spec_read(bytes: Seq<u8>) -> Option<Self> {
        match u16::spec_read(bytes) {
            Some(value) => Some(Self::spec_from_u16(value)),
            None => None,
        }
    }

    open spec fn spec_wire_valid(&self) -> bool {
        DiscoveryCountStatus::spec_wire_valid(*self)
    }

    fn wire_size() -> (n: usize) {
        2
    }

    fn write_wire(&self, out: &mut Vec<u8>) {
        self.to_u16().write_wire(out);
    }

    fn read_wire(buf: &'a [u8], pos: usize) -> (r: Option<Self>) {
        let value = match u16::read_wire(buf, pos) {
            Some(value) => value,
            None => return None,
        };
        Some(Self::from_u16(value))
    }

    proof fn lemma_wire(&self) {
        self.spec_to_u16().lemma_wire();
        if self.spec_wire_valid() {
            self.lemma_encode_decode();
        }
    }
}

impl DiscoveryCountStatus {
    pub fn size_of(&self) -> (n: usize)
        ensures
            n == Self::spec_size(),
    {
        Self::wire_size()
    }

    /// Writes the wire form at the start of `buf`.
    pub fn encode_parameter_data(&self, buf: &mut [u8]) -> (r: Result<usize, ParameterDataError>)
        requires
            old(buf)@.len() >= Self::spec_size(),
        ensures
            r == Ok::<usize, ParameterDataError>(Self::spec_size() as usize),
            final(buf)@ == written_prefix(old(buf)@, self.spec_wire()),
    {
        encode_fixed(self, buf)
    }

    /// Reads the value from the start of `buf`.
    pub fn decode_parameter_data(buf: &[u8]) -> (r: Result<Self, ParameterDataError>)
        requires
            buf@.len() >= Self::spec_size(),
        ensures
            r == decoded_fixed::<Self>(buf@),
    {
        decode_fixed(buf)
    }
}

#[derive(Copy, Clone, Debug, PartialEq, Eq, Structural)]
pub enum EndpointMode {
    Disabled,
    Input,
    Output,
}

impl EndpointMode {
    /// The wire value of the variant.
    pub open spec fn spec_to_u8(self) -> u8 {
        match self {
            EndpointMode::Disabled => 0x00,
            EndpointMode::Input => 0x01,
            EndpointMode::Output => 0x02,
        }
    }

    /// The variant that a wire value stands for.
    pub open spec fn spec_try_from_u8(value: u8) -> Result<Self, RdmError> {
        match value {
            0x00 => Ok(EndpointMode::Disabled),
            0x01 => Ok(EndpointMode::Input),
            0x02 => Ok(EndpointMode::Output),
            _ => Err(RdmError::InvalidEndpointMode(value)),
        }
    }

    /// Whether the value is one that decoding its wire value gives back.
    pub open spec fn spec_wire_valid(self) -> bool {
        match self {
            _ => true,
        }
    }

    /// Decoding the wire value of a valid variant gives it back.
    pub proof fn lemma_encode_decode(self)
        requires
            self.spec_wire_valid(),
        ensures
            Self::spec_try_from_u8(self.spec_to_u8()) == Ok::<Self, RdmError>(self),
    {
    }

    /// Encoding the variant that a wire value stands for gives the value back.
    pub proof fn lemma_decode_encode(value: u8)
        ensures
            Self::spec_try_from_u8(value) matches Ok(v) ==> v.spec_to_u8() == value && v.spec_wire_valid(),
    {
    }
}

impl EndpointMode {
    /// The wire value of the variant.
    pub fn to_u8(&self) -> (r: u8)
        ensures
            r == self.spec_to_u8(),
    {
        match self {
            EndpointMode::Disabled => 0x00,
            EndpointMode::Input => 0x01,
            EndpointMode::Output => 0x02,
        }
    }

    /// The variant that a wire value stands for, or the error for a value that stands for none.
    pub fn try_from_u8(value: u8) -> (r: Result<Self, RdmError>)
        ensures
            r == Self::spec_try_from_u8(value),
    {
        match value {
            0x00 => Ok(EndpointMode::Disabled),
            0x01 => Ok(EndpointMode::Input),
            0x02 => Ok(EndpointMode::Output),
            _ => Err(RdmError::InvalidEndpointMode(value)),
        }
    }
}

impl TryFrom<u8> for EndpointMode {
    type Error = RdmError;

    fn try_from(value: u8) -> (r: Result<Self, RdmError>) {
        Self::try_from_u8(value)
    }
}

impl TryFromSpecImpl<u8> for EndpointMode {
    open spec fn obeys_try_from_spec() -> bool {
        true
    }

    open spec fn try_from_spec(value: u8) -> Result<Self, RdmError> {
        Self::spec_try_from_u8(value)
    }
}

impl From<EndpointMode> for u8 {
    fn from(value: EndpointMode) -> (r: u8) {
        value.to_u8()
    }
}

impl FromSpecImpl<EndpointMode> for u8 {
    open spec fn obeys_from_spec() -> bool {
        true
    }

    open spec fn from_spec(value: EndpointMode) -> u8 {
        value.spec_to_u8()
    }
}

impl<'a> FixedWire<'a> for EndpointMode {
    open spec fn spec_size() -> nat {
        1
    }

    open spec fn spec_wire(&self) -> Seq<u8> {
        self.spec_to_u8().spec_wire()
    }

    open spec fn spec_read(bytes: Seq<u8>) -> Option<Self> {
        match u8::spec_read(bytes) {
            Some(value) => match Self::spec_try_from_u8(value) {
                Ok(v) => Some(v),
                Err(_) => None,
            },
            None => None,
        }
    }

    open spec fn spec_wire_valid(&self) -> bool {
        EndpointMode::spec_wire_valid(*self)
    }

    fn wire_size() -> (n: usize) {
        1
    }

    fn write_wire(&self, out: &mut Vec<u8>) {
        self.to_u8().write_wire(out);
    }

    fn read_wire(buf: &'a [u8], pos: usize) -> (r: Option<Self>) {
        let value = match u8::read_wire(buf, pos) {
            Some(value) => value,
            None => return None,
        };
        match Self::try_from_u8(value) {
            Ok(v) => Some(v),
            Err(_) => None,
        }
    }

    proof fn lemma_wire(&self) {
        self.spec_to_u8().lemma_wire();
        if self.spec_wire_valid() {
            self.lemma_encode_decode();
        }
    }
}

impl EndpointMode {
    pub fn size_of(&self) -> (n: usize)
        ensures
            n == Self::spec_size(),
    {
        Self::wire_size()
    }

    /// Writes the wire form at the start of `buf`.
    pub fn encode_parameter_data(&self, buf: &mut [u8]) -> (r: Result<usize, ParameterDataError>)
        requires
            old(buf)@.len() >= Self::spec_size(),
        ensures
            r == Ok::<usize, ParameterDataError>(Self::spec_size() as usize),
            final(buf)@ == written_prefix(old(buf)@, self.spec_wire()),
    {
        encode_fixed(self, buf)
    }

    /// Reads the value from the start of `buf`.
    pub fn decode_parameter_data(buf: &[u8]) -> (r: Result<Self, ParameterDataError>)
        requires
            buf@.len() >= Self::spec_size(),
        ensures
            r == decoded_fixed::<Self>(buf@),
    {
        decode_fixed(buf)
    }
}

#[derive(Copy, Clone, Debug, PartialEq, Eq, Structural)]
pub enum EndpointType {
    Virtual,
    Physical,
}

impl EndpointType {
    /// The wire value of the variant.
    pub open spec fn spec_to_u8(self) -> u8 {
        match self {
            EndpointType::Virtual => 0x00,
            EndpointType::Physical => 0x01,
        }
    }

    /// The variant that a wire value stands for.
    pub open spec fn spec_try_from_u8(value: u8) -> Result<Self, RdmError> {
        match value {
            0x00 => Ok(EndpointType::Virtual),
            0x01 => Ok(EndpointType::Physical),
            _ => Err(RdmError::InvalidEndpointType(value)),
        }
    }

    /// Whether the value is one that decoding its wire value gives back.
    pub open spec fn spec_wire_valid(self) -> bool {
        match self {
            _ => true,
        }
    }

    /// Decoding the wire value of a valid variant gives it back.
    pub proof fn lemma_encode_decode(self)
        requires
            self.spec_wire_valid(),
        ensures
            Self::spec_try_from_u8(self.spec_to_u8()) == Ok::<Self, RdmError>(self),
    {
    }

    /// Encoding the variant that a wire value stands for gives the value back.
    pub proof fn lemma_decode_encode(value: u8)
        ensures
            Self::spec_try_from_u8(value) matches Ok(v) ==> v.spec_to_u8() == value && v.spec_wire_valid(),
    {
    }
}

impl EndpointType {
    /// The wire value of the variant.
    pub fn to_u8(&self) -> (r: u8)
        ensures
            r == self.spec_to_u8(),
    {
        match self {
            EndpointType::Virtual => 0x00,
            EndpointType::Physical => 0x01,
        }
    }

    /// The variant that a wire value stands for, or the error for a value that stands for none.
    pub fn try_from_u8(value: u8) -> (r: Result<Self, RdmError>)
        ensures
            r == Self::spec_try_from_u8(value),
    {
        match value {
            0x00 => Ok(EndpointType::Virtual),
            0x01 => Ok(EndpointType::Physical),
            _ => Err(RdmError::InvalidEndpointType(value)),
        }
    }
}

impl TryFrom<u8> for EndpointType {
    type Error = RdmError;

    fn try_from(value: u8) -> (r: Result<Self, RdmError>) {
        Self::try_from_u8(value)
    }
}

impl TryFromSpecImpl<u8> for EndpointType {
    open spec fn obeys_try_from_spec() -> bool {
        true
    }

    open spec fn try_from_spec(value: u8) -> Result<Self, RdmError> {
        Self::spec_try_from_u8(value)
    }
}

impl From<EndpointType> for u8 {
    fn from(value: EndpointType) -> (r: u8) {
        value.to_u8()
    }
}

impl FromSpecImpl<EndpointType> for u8 {
    open spec fn obeys_from_spec() -> bool {
        true
    }

    open spec fn from_spec(value: EndpointType) -> u8 {
        value.spec_to_u8()
    }
}

impl<'a> FixedWire<'a> for EndpointType {
    open spec fn spec_size() -> nat {
        1
    }

    open spec fn spec_wire(&self) -> Seq<u8> {
        self.spec_to_u8().spec_wire()
    }

    open spec fn spec_read(bytes: Seq<u8>) -> Option<Self> {
        match u8::spec_read(bytes) {
            Some(value) => match Self::spec_try_from_u8(value) {
                Ok(v) => Some(v),
                Err(_) => None,
            },
            None => None,
        }
    }

    open spec fn spec_wire_valid(&self) -> bool {
        EndpointType::spec_wire_valid(*self)
    }

    fn wire_size() -> (n: usize) {
        1
    }

    fn write_wire(&self, out: &mut Vec<u8>) {
        self.to_u8().write_wire(out);
    }

    fn read_wire(buf: &'a [u8], pos: usize) -> (r: Option<Self>) {
        let value = match u8::read_wire(buf, pos) {
            Some(value) => value,
            None => return None,
        };
        match Self::try_from_u8(value) {
            Ok(v) => Some(v),
            Err(_) => None,
        }
    }

    proof fn lemma_wire(&self) {
        self.spec_to_u8().lemma_wire();
        if self.spec_wire_valid() {
            self.lemma_encode_decode();
        }
    }
}

/// The raw value of an endpoint identifier.
#[derive(Clone, Copy, Debug, PartialEq, Eq, Hash)]
pub struct EndpointIdValue(pub u16);

impl<'a> FixedWire<'a> for EndpointIdValue {
    open spec fn spec_size() -> nat {
        2
    }

    open spec fn spec_wire(&self) -> Seq<u8> {
        self.0.spec_wire()
    }

    open spec fn spec_read(bytes: Seq<u8>) -> Option<Self> {
        if <u16 as FixedWire>::spec_read(bytes.subrange(0, 2)) is Some {
            Some(EndpointIdValue(<u16 as FixedWire>::spec_read(bytes.subrange(0, 2)).unwrap()))
        } else {
            None
        }
    }

    open spec fn spec_wire_valid(&self) -> bool {
        self.0.spec_wire_valid()
    }

    fn wire_size() -> (n: usize) {
        2
    }

    fn write_wire(&self, out: &mut Vec<u8>) {
        let ghost start = out@;
        self.0.write_wire(out);
        proof {
            assert(out@ =~= start + self.spec_wire());
        }
    }

    fn read_wire(buf: &'a [u8], pos: usize) -> (r: Option<Self>) {
        let _len = buf.len();
        let ghost bytes = buf@.subrange(pos as int, pos + 2);
        proof {
            assert(bytes.subrange(0, 2) =~= buf@.subrange(pos + 0, pos + 2));
        }
        let v0 = match <u16 as FixedWire>::read_wire(buf, pos) {
            Some(v) => v,
            None => return None,
        };
        Some(EndpointIdValue(v0))
    }

    proof fn lemma_wire(&self) {
        self.0.lemma_wire();
        let w = self.spec_wire();
        assert(w.subrange(0, 2) =~= self.0.spec_wire());
        if self.spec_wire_valid() {
            assert(<u16 as FixedWire>::spec_read(w.subrange(0, 2)) == Some(self.0));
        }
    }
}

impl EndpointIdValue {
    /// The parameter data of the value.
    pub open spec fn spec_encoding(&self) -> Seq<u8> {
        self.spec_wire()
    }

    /// The value that parameter data stands for, or why it stands for none.
    pub open spec fn spec_decoded(buf: Seq<u8>) -> Result<Self, ParameterDataError> {
        record_decoded::<Self>(buf)
    }

    /// Whether decoding the parameter data gives the value back.
    pub open spec fn spec_encodable(&self) -> bool {
        self.spec_wire_valid()
    }

    pub fn size_of(&self) -> (n: usize)
        ensures
            n == self.spec_encoding().len(),
            n <= 2,
    {
        proof {
            self.lemma_wire();
        }
        Self::wire_size()
    }

    /// Appends the parameter data to `out`.
    pub fn write_encoding(&self, out: &mut Vec<u8>)
        ensures
            final(out)@ == old(out)@ + self.spec_encoding(),
    {
        self.write_wire(out);
    }

    pub fn encode_parameter_data(&self, buf: &mut [u8]) -> (r: Result<usize, ParameterDataError>)
        ensures
            encoded_into(old(buf)@, final(buf)@, self.spec_encoding(), r),
    {
        encode_record(self, buf)
    }

    pub fn decode_parameter_data(buf: &[u8]) -> (r: Result<Self, ParameterDataError>)
        ensures
            r == Self::spec_decoded(buf@),
    {
        decode_record(buf)
    }

    /// Decoding the parameter data of an encodable value gives it back.
    pub proof fn lemma_roundtrip(&self)
        requires
            self.spec_encodable(),
        ensures
            Self::spec_decoded(self.spec_encoding()) == Ok::<Self, ParameterDataError>(*self),
    {
        lemma_record_roundtrip(*self);
    }
}

impl From<EndpointIdValue> for EndpointId {
    #[verifier::spinoff_prover]
    fn from(value: EndpointIdValue) -> (r: EndpointId) {
        EndpointId::from(value.0)
    }
}

impl FromSpecImpl<EndpointIdValue> for EndpointId {
    open spec fn obeys_from_spec() -> bool {
        true
    }

    open spec fn from_spec(value: EndpointIdValue) -> EndpointId {
        EndpointId::spec_from_u16(value.0)
    }
}

impl From<EndpointId> for EndpointIdValue {
    #[verifier::spinoff_prover]
    fn from(value: EndpointId) -> (r: EndpointIdValue) {
        EndpointIdValue(u16::from(value))
    }
}

impl FromSpecImpl<EndpointId> for EndpointIdValue {
    open spec fn obeys_from_spec() -> bool {
        true
    }

    open spec fn from_spec(value: EndpointId) -> EndpointIdValue {
        EndpointIdValue(value.spec_to_u16())
    }
}

#[derive(Clone, Copy, Debug, PartialEq)]
pub struct EndpointEntry {
    pub endpoint_id: EndpointId,
    pub endpoint_type: EndpointType,
}

impl<'a> FixedWire<'a> for EndpointEntry {
    open spec fn spec_size() -> nat {
        3
    }

    open spec fn spec_wire(&self) -> Seq<u8> {
        self.endpoint_id.spec_wire() + self.endpoint_type.spec_wire()
    }

    open spec fn spec_read(bytes: Seq<u8>) -> Option<Self> {
        if <EndpointId as FixedWire>::spec_read(bytes.subrange(0, 2)) is Some
            && <EndpointType as FixedWire>::spec_read(bytes.subrange(2, 3)) is Some {
            Some(EndpointEntry {
                endpoint_id: <EndpointId as FixedWire>::spec_read(bytes.subrange(0, 2)).unwrap(),
                endpoint_type: <EndpointType as FixedWire>::spec_read(bytes.subrange(2, 3)).unwrap(),
            })
        } else {
            None
        }
    }

    open spec fn spec_wire_valid(&self) -> bool {
        self.endpoint_id.spec_wire_valid() && self.endpoint_type.spec_wire_valid()
    }

    fn wire_size() -> (n: usize) {
        3
    }

    fn write_wire(&self, out: &mut Vec<u8>) {
        let ghost start = out@;
        self.endpoint_id.write_wire(out);
        self.endpoint_type.write_wire(out);
        proof {
            assert(out@ =~= start + self.spec_wire());
        }
    }

    fn read_wire(buf: &'a [u8], pos: usize) -> (r: Option<Self>) {
        let _len = buf.len();
        let ghost bytes = buf@.subrange(pos as int, pos + 3);
        proof {
            assert(bytes.subrange(0, 2) =~= buf@.subrange(pos + 0, pos + 2));
            assert(bytes.subrange(2, 3) =~= buf@.subrange(pos + 2, pos + 3));
        }
        let v0 = match <EndpointId as FixedWire>::read_wire(buf, pos) {
            Some(v) => v,
            None => return None,
        };
        let v1 = match <EndpointType as FixedWire>::read_wire(buf, pos + 2) {
            Some(v) => v,
            None => return None,
        };
        Some(EndpointEntry { endpoint_id: v0, endpoint_type: v1 })
    }

    proof fn lemma_wire(&self) {
        self.endpoint_id.lemma_wire();
        self.endpoint_type.lemma_wire();
        let w = self.spec_wire();
        assert(w.subrange(0, 2) =~= self.endpoint_id.spec_wire());
        assert(w.subrange(2, 3) =~= self.endpoint_type.spec_wire());
        if self.spec_wire_valid() {
            assert(<EndpointId as FixedWire>::spec_read(w.subrange(0, 2)) == Some(self.endpoint_id));
            assert(<EndpointType as FixedWire>::spec_read(w.subrange(2, 3)) == Some(self.endpoint_type));
        }
    }
}

impl EndpointEntry {
    /// The parameter data of the value.
    pub open spec fn spec_encoding(&self) -> Seq<u8> {
        self.spec_wire()
    }

    /// The value that parameter data stands for, or why it stands for none.
    pub open spec fn spec_decoded(buf: Seq<u8>) -> Result<Self, ParameterDataError> {
        record_decoded::<Self>(buf)
    }

    /// Whether decoding the parameter data gives the value back.
    pub open spec fn spec_encodable(&self) -> bool {
        self.spec_wire_valid()
    }

    pub fn size_of(&self) -> (n: usize)
        ensures
            n == self.spec_encoding().len(),
            n <= 3,
    {
        proof {
            self.lemma_wire();
        }
        Self::wire_size()
    }

    /// Appends the parameter data to `out`.
    pub fn write_encoding(&self, out: &mut Vec<u8>)
        ensures
            final(out)@ == old(out)@ + self.spec_encoding(),
    {
        self.write_wire(out);
    }

    pub fn encode_parameter_data(&self, buf: &mut [u8]) -> (r: Result<usize, ParameterDataError>)
        ensures
            encoded_into(old(buf)@, final(buf)@, self.spec_encoding(), r),
    {
        encode_record(self, buf)
    }

    pub fn decode_parameter_data(buf: &[u8]) -> (r: Result<Self, ParameterDataError>)
        ensures
            r == Self::spec_decoded(buf@),
    {
        decode_record(buf)
    }

    /// Decoding the parameter data of an encodable value gives it back.
    pub proof fn lemma_roundtrip(&self)
        requires
            self.spec_encodable(),
        ensures
            Self::spec_decoded(self.spec_encoding()) == Ok::<Self, ParameterDataError>(*self),
    {
        lemma_record_roundtrip(*self);
    }
}

/// A bounded string of at most 231 bytes of UTF-8.
#[derive(Clone, Copy, Debug, PartialEq, Eq)]
pub struct EndpointLabel {
    len: usize,
    bytes: [u8; 231],
}

impl EndpointLabel {
    pub const MAX_LENGTH: usize = 231;

    #[verifier::type_invariant]
    pub closed spec fn wf(self) -> bool {
        &&& self.len <= 231
        &&& vstd::utf8::valid_utf8(self.bytes@.subrange(0, self.len as int))
        &&& forall|i: int| self.len <= i < 231 ==> self.bytes@[i] == 0
    }

    /// The UTF-8 bytes of the string.
    pub closed spec fn spec_bytes(self) -> Seq<u8> {
        self.bytes@.subrange(0, self.len as int)
    }

    /// The label whose bytes are `content`, when they fit and are UTF-8.
    pub closed spec fn spec_of_bytes(content: Seq<u8>) -> Self {
        choose|l: Self| l.wf() && l.spec_bytes() == content
    }

    /// A label is determined by its bytes.
    pub proof fn lemma_determined_by_bytes(a: Self, b: Self)
        requires
            a.wf(),
            b.wf(),
            a.spec_bytes() == b.spec_bytes(),
        ensures
            a == b,
    {
        assert forall|i: int| 0 <= i < 231 implies a.bytes@[i] == b.bytes@[i] by {
            if i < a.len {
                assert(a.bytes@[i] == a.spec_bytes()[i]);
                assert(b.bytes@[i] == b.spec_bytes()[i]);
            }
        }
        assert(a.bytes =~= b.bytes);
    }

    /// The label that holds `content` holds exactly those bytes, when they fit and are UTF-8.
    pub proof fn lemma_of_bytes(content: Seq<u8>)
        requires
            content.len() <= 231,
            vstd::utf8::valid_utf8(content),
        ensures
            Self::spec_of_bytes(content).wf(),
            Self::spec_of_bytes(content).spec_bytes() == content,
    {
        let bytes = spec_padded_array::<231>(content, content.len());
        lemma_padded_array::<231>(content, content.len());
        let l = EndpointLabel { len: content.len() as usize, bytes };
        assert(l.bytes@.subrange(0, l.len as int) =~= content);
        assert(l.wf() && l.spec_bytes() == content);
    }

    fn of_bytes(content: &[u8]) -> (r: Self)
        requires
            content@.len() <= 231,
            vstd::utf8::valid_utf8(content@),
        ensures
            r == Self::spec_of_bytes(content@),
            r.spec_bytes() == content@,
    {
        let mut bytes = [0u8; 231];
        proof {
            vstd::array::axiom_spec_array_fill_for_copy_type::<u8, 231>(0u8);
        }
        let mut i: usize = 0;
        while i < content.len()
            invariant
                i <= content@.len(),
                content@.len() <= 231,
                forall|j: int| 0 <= j < i ==> bytes@[j] == content@[j],
                forall|j: int| i <= j < 231 ==> bytes@[j] == 0,
            decreases content@.len() - i,
        {
            bytes[i] = content[i];
            i = i + 1;
        }
        proof {
            assert(bytes@.subrange(0, content@.len() as int) =~= content@);
        }
        let r = EndpointLabel { len: content.len(), bytes };
        proof {
            Self::lemma_determined_by_bytes(r, Self::spec_of_bytes(content@));
        }
        r
    }

    /// Makes a label of `s`, failing when it is longer than 231 bytes.
    pub fn new(s: &str) -> (r: Result<Self, RdmError>)
        ensures
            s.spec_bytes().len() <= 231 ==> r == Ok::<Self, RdmError>(Self::spec_of_bytes(s.spec_bytes())),
            r matches Ok(l) ==> l.spec_bytes() == s.spec_bytes(),
            s.spec_bytes().len() > 231 ==> r == Err::<Self, RdmError>(
                RdmError::InvalidStringLength(s.spec_bytes().len() as usize, 231),
            ),
    {
        let b = s.as_bytes();
        if b.len() > 231 {
            return Err(RdmError::InvalidStringLength(b.len(), 231));
        }
        proof {
            vstd::utf8::encode_utf8_valid_utf8(s@);
        }
        Ok(Self::of_bytes(b))
    }

    /// Makes a label of `s` without its trailing zero characters, failing when it is longer than 231 bytes.
    pub fn from_str(s: &str) -> (r: Result<Self, ParameterDataError>)
        ensures
            trimmed_trailing_nulls(s.spec_bytes()).len() <= 231 ==> r == Ok::<Self, ParameterDataError>(
                Self::spec_of_bytes(trimmed_trailing_nulls(s.spec_bytes())),
            ),
            r matches Ok(l) ==> l.spec_bytes() == trimmed_trailing_nulls(s.spec_bytes()),
            trimmed_trailing_nulls(s.spec_bytes()).len() > 231 ==> r == Err::<Self, ParameterDataError>(
                ParameterDataError::StringTooLong {
                    length: trimmed_trailing_nulls(s.spec_bytes()).len() as usize,
                    max_length: 231,
                },
            ),
    {
        let b = s.as_bytes();
        let t = trim_trailing_nulls(b);
        if t.len() > 231 {
            return Err(ParameterDataError::StringTooLong { length: t.len(), max_length: 231 });
        }
        proof {
            vstd::utf8::encode_utf8_valid_utf8(s@);
            lemma_trim_trailing_nulls_valid_utf8(s.spec_bytes());
        }
        Ok(Self::of_bytes(t))
    }

    /// The label as a string slice.
    pub fn as_str(&self) -> (r: &str)
        ensures
            r.spec_bytes() == self.spec_bytes(),
    {
        proof {
            use_type_invariant(self);
        }
        let s = vstd::slice::slice_subrange(self.bytes.as_slice(), 0, self.len);
        match str_from_utf8(s) {
            Some(r) => r,
            None => {
                proof {
                    assert(false);
                }
                ""
            },
        }
    }

    /// The UTF-8 bytes of the label.
    pub fn as_bytes(&self) -> (r: &[u8])
        ensures
            r@ == self.spec_bytes(),
    {
        proof {
            use_type_invariant(self);
        }
        vstd::slice::slice_subrange(self.bytes.as_slice(), 0, self.len)
    }

    /// The length in bytes.
    pub fn len(&self) -> (n: usize)
        ensures
            n == self.spec_bytes().len(),
    {
        proof {
            use_type_invariant(self);
        }
        self.len
    }

    pub fn is_empty(&self) -> (b: bool)
        ensures
            b == (self.spec_bytes().len() == 0),
    {
        proof {
            use_type_invariant(self);
        }
        self.len == 0
    }

    /// The wire form: the bytes up to the first zero byte.
    pub open spec fn spec_encode(self) -> Seq<u8> {
        truncated_at_null(self.spec_bytes())
    }

    /// The label carried by `buf`: its bytes up to the first zero byte, when they are UTF-8 and fit.
    pub open spec fn spec_decode(buf: Seq<u8>) -> Result<Self, ParameterDataError> {
        let content = truncated_at_null(buf);
        if content.len() > 231 {
            Err(ParameterDataError::StringTooLong { length: content.len() as usize, max_length: 231 })
        } else if !vstd::utf8::valid_utf8(content) {
            Err(ParameterDataError::InvalidUtf8)
        } else {
            Ok(Self::spec_of_bytes(content))
        }
    }

    /// The parameter data of a text without a zero byte is the text itself, and a text of at most
    /// 231 bytes of UTF-8 without a zero byte decodes to the value holding that text; whatever
    /// follows a zero byte is not read.
    pub proof fn lemma_text_codec(self, text: Seq<u8>)
        ensures
            has_no_null(self.spec_bytes()) ==> self.spec_encode() == self.spec_bytes(),
            text.len() <= 231 && has_no_null(text) && vstd::utf8::valid_utf8(text) ==> (Self::spec_decode(text) matches Ok(l)
                && l.spec_bytes() == text),
            forall|rest: Seq<u8>| #![auto] has_no_null(text) ==> Self::spec_decode(text + seq![0u8] + rest) == Self::spec_decode(text),
    {
        let b = self.spec_bytes();
        if has_no_null(b) {
            assert(b.subrange(0, b.len() as int) =~= b);
            lemma_truncated_at_null_prefix(b, b.len() as int);
        }
        if has_no_null(text) {
            assert(text.subrange(0, text.len() as int) =~= text);
            lemma_truncated_at_null_prefix(text, text.len() as int);
            if text.len() <= 231 && vstd::utf8::valid_utf8(text) {
                Self::lemma_of_bytes(text);
            }
            assert forall|rest: Seq<u8>| #![auto] Self::spec_decode(text + seq![0u8] + rest) == Self::spec_decode(text) by {
                let w = text + seq![0u8] + rest;
                assert(w.subrange(0, text.len() as int) =~= text);
                lemma_truncated_at_null_prefix(w, text.len() as int);
            }
        }
    }

    pub fn size_of(&self) -> (n: usize)
        ensures
            n == self.spec_encode().len(),
    {
        proof {
            use_type_invariant(self);
        }
        let s = vstd::slice::slice_subrange(self.bytes.as_slice(), 0, self.len);
        null_position(s)
    }

    pub fn encode_parameter_data(&self, buf: &mut [u8]) -> (r: Result<usize, ParameterDataError>)
        ensures
            encoded_into(old(buf)@, final(buf)@, self.spec_encode(), r),
    {
        proof {
            use_type_invariant(self);
        }
        let s = vstd::slice::slice_subrange(self.bytes.as_slice(), 0, self.len);
        copy_encoded(buf, truncate_at_null(s))
    }

    pub fn decode_parameter_data(buf: &[u8]) -> (r: Result<Self, ParameterDataError>)
        ensures
            r == Self::spec_decode(buf@),
            r matches Ok(l) ==> l.spec_bytes() == truncated_at_null(buf@),
    {
        let content = truncate_at_null(buf);
        if content.len() > 231 {
            return Err(ParameterDataError::StringTooLong { length: content.len(), max_length: 231 });
        }
        match str_from_utf8(content) {
            Some(_) => Ok(Self::of_bytes(content)),
            None => Err(ParameterDataError::InvalidUtf8),
        }
    }

    /// Decoding the wire form of a label without zero bytes gives the label back.
    pub proof fn lemma_roundtrip(self)
        requires
            self.wf(),
            has_no_null(self.spec_bytes()),
        ensures
            Self::spec_decode(self.spec_encode()) == Ok::<Self, ParameterDataError>(self),
    {
        lemma_truncated_at_null_prefix(self.spec_bytes(), self.spec_bytes().len() as int);
        assert(self.spec_bytes().subrange(0, self.spec_bytes().len() as int) =~= self.spec_bytes());
        Self::lemma_determined_by_bytes(self, Self::spec_of_bytes(self.spec_bytes()));
    }

    /// The wire form is no longer than 231 bytes.
    pub proof fn lemma_encode_len(self)
        requires
            self.wf(),
        ensures
            self.spec_encode().len() <= 231,
    {
        lemma_truncated_at_null_shape(self.spec_bytes());
    }

    /// Whether decoding the wire form gives the label back: it holds no zero byte.
    pub open spec fn spec_encodable(self) -> bool {
        self.wf() && has_no_null(self.spec_bytes())
    }

    /// The bytes followed by zeros up to 231 bytes.
    pub closed spec fn spec_padded(self) -> Seq<u8> {
        self.bytes@
    }

    /// Appends the wire form to `out`.
    pub fn write_encoded(&self, out: &mut Vec<u8>)
        ensures
            final(out)@ == old(out)@ + self.spec_encode(),
    {
        proof {
            use_type_invariant(self);
        }
        let s = vstd::slice::slice_subrange(self.bytes.as_slice(), 0, self.len);
        extend_from(out, truncate_at_null(s));
    }
}

impl<'a> FixedWire<'a> for EndpointLabel {
    open spec fn spec_size() -> nat {
        231
    }

    open spec fn spec_wire(&self) -> Seq<u8> {
        self.spec_padded()
    }

    open spec fn spec_read(bytes: Seq<u8>) -> Option<Self> {
        match Self::spec_decode(bytes) {
            Ok(l) => Some(l),
            Err(_) => None,
        }
    }

    open spec fn spec_wire_valid(&self) -> bool {
        self.spec_encodable()
    }

    fn wire_size() -> (n: usize) {
        231
    }

    fn write_wire(&self, out: &mut Vec<u8>) {
        proof {
            use_type_invariant(self);
        }
        extend_from(out, self.bytes.as_slice());
    }

    fn read_wire(buf: &'a [u8], pos: usize) -> (r: Option<Self>) {
        let _len = buf.len();
        let s = vstd::slice::slice_subrange(buf, pos, pos + 231);
        match Self::decode_parameter_data(s) {
            Ok(l) => Some(l),
            Err(_) => None,
        }
    }

    proof fn lemma_wire(&self) {
        if self.spec_encodable() {
            let b = self.spec_bytes();
            let p = self.bytes@;
            assert(p.subrange(0, self.len as int) =~= b);
            assert forall|i: int| 0 <= i < self.len implies p[i] != 0 by {
                assert(p[i] == b[i]);
            }
            assert(self.len < 231 ==> p[self.len as int] == 0);
            assert(has_no_null(p.subrange(0, self.len as int)));
            lemma_truncated_at_null_prefix(p, self.len as int);
            Self::lemma_determined_by_bytes(*self, Self::spec_of_bytes(b));
        }
    }
}

/// A bounded string of at most 32 bytes of UTF-8.
#[derive(Clone, Copy, Debug, PartialEq, Eq)]
pub struct EndpointTimingDescription {
    len: usize,
    bytes: [u8; 32],
}

impl EndpointTimingDescription {
    pub const MAX_LENGTH: usize = 32;

    #[verifier::type_invariant]
    pub closed spec fn wf(self) -> bool {
        &&& self.len <= 32
        &&& vstd::utf8::valid_utf8(self.bytes@.subrange(0, self.len as int))
        &&& forall|i: int| self.len <= i < 32 ==> self.bytes@[i] == 0
    }

    /// The UTF-8 bytes of the string.
    pub closed spec fn spec_bytes(self) -> Seq<u8> {
        self.bytes@.subrange(0, self.len as int)
    }

    /// The label whose bytes are `content`, when they fit and are UTF-8.
    pub closed spec fn spec_of_bytes(content: Seq<u8>) -> Self {
        choose|l: Self| l.wf() && l.spec_bytes() == content
    }

    /// A label is determined by its bytes.
    pub proof fn lemma_determined_by_bytes(a: Self, b: Self)
        requires
            a.wf(),
            b.wf(),
            a.spec_bytes() == b.spec_bytes(),
        ensures
            a == b,
    {
        assert forall|i: int| 0 <= i < 32 implies a.bytes@[i] == b.bytes@[i] by {
            if i < a.len {
                assert(a.bytes@[i] == a.spec_bytes()[i]);
                assert(b.bytes@[i] == b.spec_bytes()[i]);
            }
        }
        assert(a.bytes =~= b.bytes);
    }

    /// The label that holds `content` holds exactly those bytes, when they fit and are UTF-8.
    pub proof fn lemma_of_bytes(content: Seq<u8>)
        requires
            content.len() <= 32,
            vstd::utf8::valid_utf8(content),
        ensures
            Self::spec_of_bytes(content).wf(),
            Self::spec_of_bytes(content).spec_bytes() == content,
    {
        let bytes = spec_padded_array::<32>(content, content.len());
        lemma_padded_array::<32>(content, content.len());
        let l = EndpointTimingDescription { len: content.len() as usize, bytes };
        assert(l.bytes@.subrange(0, l.len as int) =~= content);
        assert(l.wf() && l.spec_bytes() == content);
    }

    fn of_bytes(content: &[u8]) -> (r: Self)
        requires
            content@.len() <= 32,
            vstd::utf8::valid_utf8(content@),
        ensures
            r == Self::spec_of_bytes(content@),
            r.spec_bytes() == content@,
    {
        let mut bytes = [0u8; 32];
        proof {
            vstd::array::axiom_spec_array_fill_for_copy_type::<u8, 32>(0u8);
        }
        let mut i: usize = 0;
        while i < content.len()
            invariant
                i <= content@.len(),
                content@.len() <= 32,
                forall|j: int| 0 <= j < i ==> bytes@[j] == content@[j],
                forall|j: int| i <= j < 32 ==> bytes@[j] == 0,
            decreases content@.len() - i,
        {
            bytes[i] = content[i];
            i = i + 1;
        }
        proof {
            assert(bytes@.subrange(0, content@.len() as int) =~= content@);
        }
        let r = EndpointTimingDescription { len: content.len(), bytes };
        proof {
            Self::lemma_determined_by_bytes(r, Self::spec_of_bytes(content@));
        }
        r
    }

    /// Makes a label of `s`, failing when it is longer than 32 bytes.
    pub fn new(s: &str) -> (r: Result<Self, RdmError>)
        ensures
            s.spec_bytes().len() <= 32 ==> r == Ok::<Self, RdmError>(Self::spec_of_bytes(s.spec_bytes())),
            r matches Ok(l) ==> l.spec_bytes() == s.spec_bytes(),
            s.spec_bytes().len() > 32 ==> r == Err::<Self, RdmError>(
                RdmError::InvalidStringLength(s.spec_bytes().len() as usize, 32),
            ),
    {
        let b = s.as_bytes();
        if b.len() > 32 {
            return Err(RdmError::InvalidStringLength(b.len(), 32));
        }
        proof {
            vstd::utf8::encode_utf8_valid_utf8(s@);
        }
        Ok(Self::of_bytes(b))
    }

    /// Makes a label of `s` without its trailing zero characters, failing when it is longer than 32 bytes.
    pub fn from_str(s: &str) -> (r: Result<Self, ParameterDataError>)
        ensures
            trimmed_trailing_nulls(s.spec_bytes()).len() <= 32 ==> r == Ok::<Self, ParameterDataError>(
                Self::spec_of_bytes(trimmed_trailing_nulls(s.spec_bytes())),
            ),
            r matches Ok(l) ==> l.spec_bytes() == trimmed_trailing_nulls(s.spec_bytes()),
            trimmed_trailing_nulls(s.spec_bytes()).len() > 32 ==> r == Err::<Self, ParameterDataError>(
                ParameterDataError::StringTooLong {
                    length: trimmed_trailing_nulls(s.spec_bytes()).len() as usize,
                    max_length: 32,
                },
            ),
    {
        let b = s.as_bytes();
        let t = trim_trailing_nulls(b);
        if t.len() > 32 {
            return Err(ParameterDataError::StringTooLong { length: t.len(), max_length: 32 });
        }
        proof {
            vstd::utf8::encode_utf8_valid_utf8(s@);
            lemma_trim_trailing_nulls_valid_utf8(s.spec_bytes());
        }
        Ok(Self::of_bytes(t))
    }

    /// The label as a string slice.
    pub fn as_str(&self) -> (r: &str)
        ensures
            r.spec_bytes() == self.spec_bytes(),
    {
        proof {
            use_type_invariant(self);
        }
        let s = vstd::slice::slice_subrange(self.bytes.as_slice(), 0, self.len);
        match str_from_utf8(s) {
            Some(r) => r,
            None => {
                proof {
                    assert(false);
                }
                ""
            },
        }
    }

    /// The UTF-8 bytes of the label.
    pub fn as_bytes(&self) -> (r: &[u8])
        ensures
            r@ == self.spec_bytes(),
    {
        proof {
            use_type_invariant(self);
        }
        vstd::slice::slice_subrange(self.bytes.as_slice(), 0, self.len)
    }

    /// The length in bytes.
    pub fn len(&self) -> (n: usize)
        ensures
            n == self.spec_bytes().len(),
    {
        proof {
            use_type_invariant(self);
        }
        self.len
    }

    pub fn is_empty(&self) -> (b: bool)
        ensures
            b == (self.spec_bytes().len() == 0),
    {
        proof {
            use_type_invariant(self);
        }
        self.len == 0
    }

    /// The wire form: the bytes up to the first zero byte.
    pub open spec fn spec_encode(self) -> Seq<u8> {
        truncated_at_null(self.spec_bytes())
    }

    /// The label carried by `buf`: its bytes up to the first zero byte, when they are UTF-8 and fit.
    pub open spec fn spec_decode(buf: Seq<u8>) -> Result<Self, ParameterDataError> {
        let content = truncated_at_null(buf);
        if content.len() > 32 {
            Err(ParameterDataError::StringTooLong { length: content.len() as usize, max_length: 32 })
        } else if !vstd::utf8::valid_utf8(content) {
            Err(ParameterDataError::InvalidUtf8)
        } else {
            Ok(Self::spec_of_bytes(content))
        }
    }

    /// The parameter data of a text without a zero byte is the text itself, and a text of at most
    /// 32 bytes of UTF-8 without a zero byte decodes to the value holding that text; whatever
    /// follows a zero byte is not read.
    pub proof fn lemma_text_codec(self, text: Seq<u8>)
        ensures
            has_no_null(self.spec_bytes()) ==> self.spec_encode() == self.spec_bytes(),
            text.len() <= 32 && has_no_null(text) && vstd::utf8::valid_utf8(text) ==> (Self::spec_decode(text) matches Ok(l)
                && l.spec_bytes() == text),
            forall|rest: Seq<u8>| #![auto] has_no_null(text) ==> Self::spec_decode(text + seq![0u8] + rest) == Self::spec_decode(text),
    {
        let b = self.spec_bytes();
        if has_no_null(b) {
            assert(b.subrange(0, b.len() as int) =~= b);
            lemma_truncated_at_null_prefix(b, b.len() as int);
        }
        if has_no_null(text) {
            assert(text.subrange(0, text.len() as int) =~= text);
            lemma_truncated_at_null_prefix(text, text.len() as int);
            if text.len() <= 32 && vstd::utf8::valid_utf8(text) {
                Self::lemma_of_bytes(text);
            }
            assert forall|rest: Seq<u8>| #![auto] Self::spec_decode(text + seq![0u8] + rest) == Self::spec_decode(text) by {
                let w = text + seq![0u8] + rest;
                assert(w.subrange(0, text.len() as int) =~= text);
                lemma_truncated_at_null_prefix(w, text.len() as int);
            }
        }
    }

    pub fn size_of(&self) -> (n: usize)
        ensures
            n == self.spec_encode().len(),
    {
        proof {
            use_type_invariant(self);
        }
        let s = vstd::slice::slice_subrange(self.bytes.as_slice(), 0, self.len);
        null_position(s)
    }

    pub fn encode_parameter_data(&self, buf: &mut [u8]) -> (r: Result<usize, ParameterDataError>)
        ensures
            encoded_into(old(buf)@, final(buf)@, self.spec_encode(), r),
    {
        proof {
            use_type_invariant(self);
        }
        let s = vstd::slice::slice_subrange(self.bytes.as_slice(), 0, self.len);
        copy_encoded(buf, truncate_at_null(s))
    }

    pub fn decode_parameter_data(buf: &[u8]) -> (r: Result<Self, ParameterDataError>)
        ensures
            r == Self::spec_decode(buf@),
            r matches Ok(l) ==> l.spec_bytes() == truncated_at_null(buf@),
    {
        let content = truncate_at_null(buf);
        if content.len() > 32 {
            return Err(ParameterDataError::StringTooLong { length: content.len(), max_length: 32 });
        }
        match str_from_utf8(content) {
            Some(_) => Ok(Self::of_bytes(content)),
            None => Err(ParameterDataError::InvalidUtf8),
        }
    }

    /// Decoding the wire form of a label without zero bytes gives the label back.
    pub proof fn lemma_roundtrip(self)
        requires
            self.wf(),
            has_no_null(self.spec_bytes()),
        ensures
            Self::spec_decode(self.spec_encode()) == Ok::<Self, ParameterDataError>(self),
    {
        lemma_truncated_at_null_prefix(self.spec_bytes(), self.spec_bytes().len() as int);
        assert(self.spec_bytes().subrange(0, self.spec_bytes().len() as int) =~= self.spec_bytes());
        Self::lemma_determined_by_bytes(self, Self::spec_of_bytes(self.spec_bytes()));
    }

    /// The wire form is no longer than 32 bytes.
    pub proof fn lemma_encode_len(self)
        requires
            self.wf(),
        ensures
            self.spec_encode().len() <= 32,
    {
        lemma_truncated_at_null_shape(self.spec_bytes());
    }

    /// Whether decoding the wire form gives the label back: it holds no zero byte.
    pub open spec fn spec_encodable(self) -> bool {
        self.wf() && has_no_null(self.spec_bytes())
    }

    /// The bytes followed by zeros up to 32 bytes.
    pub closed spec fn spec_padded(self) -> Seq<u8> {
        self.bytes@
    }

    /// Appends the wire form to `out`.
    pub fn write_encoded(&self, out: &mut Vec<u8>)
        ensures
            final(out)@ == old(out)@ + self.spec_encode(),
    {
        proof {
            use_type_invariant(self);
        }
        let s = vstd::slice::slice_subrange(self.bytes.as_slice(), 0, self.len);
        extend_from(out, truncate_at_null(s));
    }
}

impl<'a> FixedWire<'a> for EndpointTimingDescription {
    open spec fn spec_size() -> nat {
        32
    }

    open spec fn spec_wire(&self) -> Seq<u8> {
        self.spec_padded()
    }

    open spec fn spec_read(bytes: Seq<u8>) -> Option<Self> {
        match Self::spec_decode(bytes) {
            Ok(l) => Some(l),
            Err(_) => None,
        }
    }

    open spec fn spec_wire_valid(&self) -> bool {
        self.spec_encodable()
    }

    fn wire_size() -> (n: usize) {
        32
    }

    fn write_wire(&self, out: &mut Vec<u8>) {
        proof {
            use_type_invariant(self);
        }
        extend_from(out, self.bytes.as_slice());
    }

    fn read_wire(buf: &'a [u8], pos: usize) -> (r: Option<Self>) {
        let _len = buf.len();
        let s = vstd::slice::slice_subrange(buf, pos, pos + 32);
        match Self::decode_parameter_data(s) {
            Ok(l) => Some(l),
            Err(_) => None,
        }
    }

    proof fn lemma_wire(&self) {
        if self.spec_encodable() {
            let b = self.spec_bytes();
            let p = self.bytes@;
            assert(p.subrange(0, self.len as int) =~= b);
            assert forall|i: int| 0 <= i < self.len implies p[i] != 0 by {
                assert(p[i] == b[i]);
            }
            assert(self.len < 32 ==> p[self.len as int] == 0);
            assert(has_no_null(p.subrange(0, self.len as int)));
            lemma_truncated_at_null_prefix(p, self.len as int);
            Self::lemma_determined_by_bytes(*self, Self::spec_of_bytes(b));
        }
    }
}

/// A bounded string of at most 32 bytes of UTF-8.
#[derive(Clone, Copy, Debug, PartialEq, Eq)]
pub struct BackgroundQueuedStatusPolicyDescription {
    len: usize,
    bytes: [u8; 32],
}

impl BackgroundQueuedStatusPolicyDescription {
    pub const MAX_LENGTH: usize = 32;

    #[verifier::type_invariant]
    pub closed spec fn wf(self) -> bool {
        &&& self.len <= 32
        &&& vstd::utf8::valid_utf8(self.bytes@.subrange(0, self.len as int))
        &&& forall|i: int| self.len <= i < 32 ==> self.bytes@[i] == 0
    }

    /// The UTF-8 bytes of the string.
    pub closed spec fn spec_bytes(self) -> Seq<u8> {
        self.bytes@.subrange(0, self.len as int)
    }

    /// The label whose bytes are `content`, when they fit and are UTF-8.
    pub closed spec fn spec_of_bytes(content: Seq<u8>) -> Self {
        choose|l: Self| l.wf() && l.spec_bytes() == content
    }

    /// A label is determined by its bytes.
    pub proof fn lemma_determined_by_bytes(a: Self, b: Self)
        requires
            a.wf(),
            b.wf(),
            a.spec_bytes() == b.spec_bytes(),
        ensures
            a == b,
    {
        assert forall|i: int| 0 <= i < 32 implies a.bytes@[i] == b.bytes@[i] by {
            if i < a.len {
                assert(a.bytes@[i] == a.spec_bytes()[i]);
                assert(b.bytes@[i] == b.spec_bytes()[i]);
            }
        }
        assert(a.bytes =~= b.bytes);
    }

    /// The label that holds `content` holds exactly those bytes, when they fit and are UTF-8.
    pub proof fn lemma_of_bytes(content: Seq<u8>)
        requires
            content.len() <= 32,
            vstd::utf8::valid_utf8(content),
        ensures
            Self::spec_of_bytes(content).wf(),
            Self::spec_of_bytes(content).spec_bytes() == content,
    {
        let bytes = spec_padded_array::<32>(content, content.len());
        lemma_padded_array::<32>(content, content.len());
        let l = BackgroundQueuedStatusPolicyDescription { len: content.len() as usize, bytes };
        assert(l.bytes@.subrange(0, l.len as int) =~= content);
        assert(l.wf() && l.spec_bytes() == content);
    }

    fn of_bytes(content: &[u8]) -> (r: Self)
        requires
            content@.len() <= 32,
            vstd::utf8::valid_utf8(content@),
        ensures
            r == Self::spec_of_bytes(content@),
            r.spec_bytes() == content@,
    {
        let mut bytes = [0u8; 32];
        proof {
            vstd::array::axiom_spec_array_fill_for_copy_type::<u8, 32>(0u8);
        }
        let mut i: usize = 0;
        while i < content.len()
            invariant
                i <= content@.len(),
                content@.len() <= 32,
                forall|j: int| 0 <= j < i ==> bytes@[j] == content@[j],
                forall|j: int| i <= j < 32 ==> bytes@[j] == 0,
            decreases content@.len() - i,
        {
            bytes[i] = content[i];
            i = i + 1;
        }
        proof {
            assert(bytes@.subrange(0, content@.len() as int) =~= content@);
        }
        let r = BackgroundQueuedStatusPolicyDescription { len: content.len(), bytes };
        proof {
            Self::lemma_determined_by_bytes(r, Self::spec_of_bytes(content@));
        }
        r
    }

    /// Makes a label of `s`, failing when it is longer than 32 bytes.
    pub fn new(s: &str) -> (r: Result<Self, RdmError>)
        ensures
            s.spec_bytes().len() <= 32 ==> r == Ok::<Self, RdmError>(Self::spec_of_bytes(s.spec_bytes())),
            r matches Ok(l) ==> l.spec_bytes() == s.spec_bytes(),
            s.spec_bytes().len() > 32 ==> r == Err::<Self, RdmError>(
                RdmError::InvalidStringLength(s.spec_bytes().len() as usize, 32),
            ),
    {
        let b = s.as_bytes();
        if b.len() > 32 {
            return Err(RdmError::InvalidStringLength(b.len(), 32));
        }
        proof {
            vstd::utf8::encode_utf8_valid_utf8(s@);
        }
        Ok(Self::of_bytes(b))
    }

    /// Makes a label of `s` without its trailing zero characters, failing when it is longer than 32 bytes.
    pub fn from_str(s: &str) -> (r: Result<Self, ParameterDataError>)
        ensures
            trimmed_trailing_nulls(s.spec_bytes()).len() <= 32 ==> r == Ok::<Self, ParameterDataError>(
                Self::spec_of_bytes(trimmed_trailing_nulls(s.spec_bytes())),
            ),
            r matches Ok(l) ==> l.spec_bytes() == trimmed_trailing_nulls(s.spec_bytes()),
            trimmed_trailing_nulls(s.spec_bytes()).len() > 32 ==> r == Err::<Self, ParameterDataError>(
                ParameterDataError::StringTooLong {
                    length: trimmed_trailing_nulls(s.spec_bytes()).len() as usize,
                    max_length: 32,
                },
            ),
    {
        let b = s.as_bytes();
        let t = trim_trailing_nulls(b);
        if t.len() > 32 {
            return Err(ParameterDataError::StringTooLong { length: t.len(), max_length: 32 });
        }
        proof {
            vstd::utf8::encode_utf8_valid_utf8(s@);
            lemma_trim_trailing_nulls_valid_utf8(s.spec_bytes());
        }
        Ok(Self::of_bytes(t))
    }

    /// The label as a string slice.
    pub fn as_str(&self) -> (r: &str)
        ensures
            r.spec_bytes() == self.spec_bytes(),
    {
        proof {
            use_type_invariant(self);
        }
        let s = vstd::slice::slice_subrange(self.bytes.as_slice(), 0, self.len);
        match str_from_utf8(s) {
            Some(r) => r,
            None => {
                proof {
                    assert(false);
                }
                ""
            },
        }
    }

    /// The UTF-8 bytes of the label.
    pub fn as_bytes(&self) -> (r: &[u8])
        ensures
            r@ == self.spec_bytes(),
    {
        proof {
            use_type_invariant(self);
        }
        vstd::slice::slice_subrange(self.bytes.as_slice(), 0, self.len)
    }

    /// The length in bytes.
    pub fn len(&self) -> (n: usize)
        ensures
            n == self.spec_bytes().len(),
    {
        proof {
            use_type_invariant(self);
        }
        self.len
    }

    pub fn is_empty(&self) -> (b: bool)
        ensures
            b == (self.spec_bytes().len() == 0),
    {
        proof {
            use_type_invariant(self);
        }
        self.len == 0
    }

    /// The wire form: the bytes up to the first zero byte.
    pub open spec fn spec_encode(self) -> Seq<u8> {
        truncated_at_null(self.spec_bytes())
    }

    /// The label carried by `buf`: its bytes up to the first zero byte, when they are UTF-8 and fit.
    pub open spec fn spec_decode(buf: Seq<u8>) -> Result<Self, ParameterDataError> {
        let content = truncated_at_null(buf);
        if content.len() > 32 {
            Err(ParameterDataError::StringTooLong { length: content.len() as usize, max_length: 32 })
        } else if !vstd::utf8::valid_utf8(content) {
            Err(ParameterDataError::InvalidUtf8)
        } else {
            Ok(Self::spec_of_bytes(content))
        }
    }

    /// The parameter data of a text without a zero byte is the text itself, and a text of at most
    /// 32 bytes of UTF-8 without a zero byte decodes to the value holding that text; whatever
    /// follows a zero byte is not read.
    pub proof fn lemma_text_codec(self, text: Seq<u8>)
        ensures
            has_no_null(self.spec_bytes()) ==> self.spec_encode() == self.spec_bytes(),
            text.len() <= 32 && has_no_null(text) && vstd::utf8::valid_utf8(text) ==> (Self::spec_decode(text) matches Ok(l)
                && l.spec_bytes() == text),
            forall|rest: Seq<u8>| #![auto] has_no_null(text) ==> Self::spec_decode(text + seq![0u8] + rest) == Self::spec_decode(text),
    {
        let b = self.spec_bytes();
        if has_no_null(b) {
            assert(b.subrange(0, b.len() as int) =~= b);
            lemma_truncated_at_null_prefix(b, b.len() as int);
        }
        if has_no_null(text) {
            assert(text.subrange(0, text.len() as int) =~= text);
            lemma_truncated_at_null_prefix(text, text.len() as int);
            if text.len() <= 32 && vstd::utf8::valid_utf8(text) {
                Self::lemma_of_bytes(text);
            }
            assert forall|rest: Seq<u8>| #![auto] Self::spec_decode(text + seq![0u8] + rest) == Self::spec_decode(text) by {
                let w = text + seq![0u8] + rest;
                assert(w.subrange(0, text.len() as int) =~= text);
                lemma_truncated_at_null_prefix(w, text.len() as int);
            }
        }
    }

    pub fn size_of(&self) -> (n: usize)
        ensures
            n == self.spec_encode().len(),
    {
        proof {
            use_type_invariant(self);
        }
        let s = vstd::slice::slice_subrange(self.bytes.as_slice(), 0, self.len);
        null_position(s)
    }

    pub fn encode_parameter_data(&self, buf: &mut [u8]) -> (r: Result<usize, ParameterDataError>)
        ensures
            encoded_into(old(buf)@, final(buf)@, self.spec_encode(), r),
    {
        proof {
            use_type_invariant(self);
        }
        let s = vstd::slice::slice_subrange(self.bytes.as_slice(), 0, self.len);
        copy_encoded(buf, truncate_at_null(s))
    }

    pub fn decode_parameter_data(buf: &[u8]) -> (r: Result<Self, ParameterDataError>)
        ensures
            r == Self::spec_decode(buf@),
            r matches Ok(l) ==> l.spec_bytes() == truncated_at_null(buf@),
    {
        let content = truncate_at_null(buf);
        if content.len() > 32 {
            return Err(ParameterDataError::StringTooLong { length: content.len(), max_length: 32 });
        }
        match str_from_utf8(content) {
            Some(_) => Ok(Self::of_bytes(content)),
            None => Err(ParameterDataError::InvalidUtf8),
        }
    }

    /// Decoding the wire form of a label without zero bytes gives the label back.
    pub proof fn lemma_roundtrip(self)
        requires
            self.wf(),
            has_no_null(self.spec_bytes()),
        ensures
            Self::spec_decode(self.spec_encode()) == Ok::<Self, ParameterDataError>(self),
    {
        lemma_truncated_at_null_prefix(self.spec_bytes(), self.spec_bytes().len() as int);
        assert(self.spec_bytes().subrange(0, self.spec_bytes().len() as int) =~= self.spec_bytes());
        Self::lemma_determined_by_bytes(self, Self::spec_of_bytes(self.spec_bytes()));
    }

    /// The wire form is no longer than 32 bytes.
    pub proof fn lemma_encode_len(self)
        requires
            self.wf(),
        ensures
            self.spec_encode().len() <= 32,
    {
        lemma_truncated_at_null_shape(self.spec_bytes());
    }

    /// Whether decoding the wire form gives the label back: it holds no zero byte.
    pub open spec fn spec_encodable(self) -> bool {
        self.wf() && has_no_null(self.spec_bytes())
    }

    /// The bytes followed by zeros up to 32 bytes.
    pub closed spec fn spec_padded(self) -> Seq<u8> {
        self.bytes@
    }

    /// Appends the wire form to `out`.
    pub fn write_encoded(&self, out: &mut Vec<u8>)
        ensures
            final(out)@ == old(out)@ + self.spec_encode(),
    {
        proof {
            use_type_invariant(self);
        }
        let s = vstd::slice::slice_subrange(self.bytes.as_slice(), 0, self.len);
        extend_from(out, truncate_at_null(s));
    }
}

impl<'a> FixedWire<'a> for BackgroundQueuedStatusPolicyDescription {
    open spec fn spec_size() -> nat {
        32
    }

    open spec fn spec_wire(&self) -> Seq<u8> {
        self.spec_padded()
    }

    open spec fn spec_read(bytes: Seq<u8>) -> Option<Self> {
        match Self::spec_decode(bytes) {
            Ok(l) => Some(l),
            Err(_) => None,
        }
    }

    open spec fn spec_wire_valid(&self) -> bool {
        self.spec_encodable()
    }

    fn wire_size() -> (n: usize) {
        32
    }

    fn write_wire(&self, out: &mut Vec<u8>) {
        proof {
            use_type_invariant(self);
        }
        extend_from(out, self.bytes.as_slice());
    }

    fn read_wire(buf: &'a [u8], pos: usize) -> (r: Option<Self>) {
        let _len = buf.len();
        let s = vstd::slice::slice_subrange(buf, pos, pos + 32);
        match Self::decode_parameter_data(s) {
            Ok(l) => Some(l),
            Err(_) => None,
        }
    }

    proof fn lemma_wire(&self) {
        if self.spec_encodable() {
            let b = self.spec_bytes();
            let p = self.bytes@;
            assert(p.subrange(0, self.len as int) =~= b);
            assert forall|i: int| 0 <= i < self.len implies p[i] != 0 by {
                assert(p[i] == b[i]);
            }
            assert(self.len < 32 ==> p[self.len as int] == 0);
            assert(has_no_null(p.subrange(0, self.len as int)));
            lemma_truncated_at_null_prefix(p, self.len as int);
            Self::lemma_determined_by_bytes(*self, Self::spec_of_bytes(b));
        }
    }
}

} // verus!
