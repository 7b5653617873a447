//! Parameter data of the E137-1 requests.

use crate::rdm::error::{ParameterDataError};
use crate::rdm::utils::{encoded_into};
use crate::rdm::wire::{decode_record, encode_record, lemma_record_roundtrip, record_decoded, FixedWire};
use vstd::prelude::*;
use vstd::std_specs::convert::{FromSpecImpl, TryFromSpecImpl};
use vstd::string::StringSliceAdditionalSpecFns;
use crate::rdm::parameter::e120::{PresetPlaybackMode, SelfTest};
use crate::rdm::parameter::e137_1::{MergeMode, PinCode, TimeMode};

verus! {

broadcast use vstd::array::group_array_axioms;

#[derive(Clone, Copy, Debug, PartialEq, Eq, Structural)]
pub struct SetDmxBlockAddressRequest {
    pub dmx_block_address: u16,
}

impl<'a> FixedWire<'a> for SetDmxBlockAddressRequest {
    open spec fn spec_size() -> nat {
        2
    }

    open spec fn spec_wire(&self) -> Seq<u8> {
        self.dmx_block_address.spec_wire()
    }

    open spec fn spec_read(bytes: Seq<u8>) -> Option<Self> {
        if <u16 as FixedWire>::spec_read(bytes.subrange(0, 2)) is Some {
            Some(SetDmxBlockAddressRequest {
                dmx_block_address: <u16 as FixedWire>::spec_read(bytes.subrange(0, 2)).unwrap(),
            })
        } else {
            None
        }
    }

    open spec fn spec_wire_valid(&self) -> bool {
        self.dmx_block_address.spec_wire_valid()
    }

    fn wire_size() -> (n: usize) {
        2
    }

    fn write_wire(&self, out: &mut Vec<u8>) {
        let ghost start = out@;
        self.dmx_block_address.write_wire(out);
        proof {
            assert(out@ =~= start + self.spec_wire());
        }
    }

    fn read_wire(buf: &'a [u8], pos: usize) -> (r: Option<Self>) {
        let _len = buf.len();
        let ghost bytes = buf@.subrange(pos as int, pos + 2);
        proof {
            assert(bytes.subrange(0, 2) =~= buf@.subrange(pos + 0, pos + 2));
        }
        let v0 = match <u16 as FixedWire>::read_wire(buf, pos) {
            Some(v) => v,
            None => return None,
        };
        Some(SetDmxBlockAddressRequest { dmx_block_address: v0 })
    }

    proof fn lemma_wire(&self) {
        self.dmx_block_address.lemma_wire();
        let w = self.spec_wire();
        assert(w.subrange(0, 2) =~= self.dmx_block_address.spec_wire());
        if self.spec_wire_valid() {
            assert(<u16 as FixedWire>::spec_read(w.subrange(0, 2)) == Some(self.dmx_block_address));
        }
    }
}

impl SetDmxBlockAddressRequest {
    /// The parameter data of the value.
    pub open spec fn spec_encoding(&self) -> Seq<u8> {
        self.spec_wire()
    }

    /// The value that parameter data stands for, or why it stands for none.
    pub open spec fn spec_decoded(buf: Seq<u8>) -> Result<Self, ParameterDataError> {
        record_decoded::<Self>(buf)
    }

    /// Whether decoding the parameter data gives the value back.
    pub open spec fn spec_encodable(&self) -> bool {
        self.spec_wire_valid()
    }

    pub fn size_of(&self) -> (n: usize)
        ensures
            n == self.spec_encoding().len(),
            n <= 2,
    {
        proof {
            self.lemma_wire();
        }
        Self::wire_size()
    }

    /// Appends the parameter data to `out`.
    pub fn write_encoding(&self, out: &mut Vec<u8>)
        ensures
            final(out)@ == old(out)@ + self.spec_encoding(),
    {
        self.write_wire(out);
    }

    pub fn encode_parameter_data(&self, buf: &mut [u8]) -> (r: Result<usize, ParameterDataError>)
        ensures
            encoded_into(old(buf)@, final(buf)@, self.spec_encoding(), r),
    {
        encode_record(self, buf)
    }

    pub fn decode_parameter_data(buf: &[u8]) -> (r: Result<Self, ParameterDataError>)
        ensures
            r == Self::spec_decoded(buf@),
    {
        decode_record(buf)
    }

    /// Decoding the parameter data of an encodable value gives it back.
    pub proof fn lemma_roundtrip(&self)
        requires
            self.spec_encodable(),
        ensures
            Self::spec_decoded(self.spec_encoding()) == Ok::<Self, ParameterDataError>(*self),
    {
        lemma_record_roundtrip(*self);
    }
}

#[derive(Clone, Copy, Debug, PartialEq, Eq, Structural)]
pub struct SetDmxFailModeRequest {
    pub scene_id: PresetPlaybackMode,
    pub loss_of_signal_delay: TimeMode,
    pub hold_time: TimeMode,
    pub level: u8,
}

impl<'a> FixedWire<'a> for SetDmxFailModeRequest {
    open spec fn spec_size() -> nat {
        7
    }

    open spec fn spec_wire(&self) -> Seq<u8> {
        self.scene_id.spec_wire() + self.loss_of_signal_delay.spec_wire() + self.hold_time.spec_wire() + self.level.spec_wire()
    }

    open spec fn spec_read(bytes: Seq<u8>) -> Option<Self> {
        if <PresetPlaybackMode as FixedWire>::spec_read(bytes.subrange(0, 2)) is Some
            && <TimeMode as FixedWire>::spec_read(bytes.subrange(2, 4)) is Some
            && <TimeMode as FixedWire>::spec_read(bytes.subrange(4, 6)) is Some
            && <u8 as FixedWire>::spec_read(bytes.subrange(6, 7)) is Some {
            Some(SetDmxFailModeRequest {
                scene_id: <PresetPlaybackMode as FixedWire>::spec_read(bytes.subrange(0, 2)).unwrap(),
                loss_of_signal_delay: <TimeMode as FixedWire>::spec_read(bytes.subrange(2, 4)).unwrap(),
                hold_time: <TimeMode as FixedWire>::spec_read(bytes.subrange(4, 6)).unwrap(),
                level: <u8 as FixedWire>::spec_read(bytes.subrange(6, 7)).unwrap(),
            })
        } else {
            None
        }
    }

    open spec fn spec_wire_valid(&self) -> bool {
        self.scene_id.spec_wire_valid() && self.loss_of_signal_delay.spec_wire_valid() && self.hold_time.spec_wire_valid() && self.level.spec_wire_valid()
    }

    fn wire_size() -> (n: usize) {
        7
    }

    fn write_wire(&self, out: &mut Vec<u8>) {
        let ghost start = out@;
        self.scene_id.write_wire(out);
        self.loss_of_signal_delay.write_wire(out);
        self.hold_time.write_wire(out);
        self.level.write_wire(out);
        proof {
            assert(out@ =~= start + self.spec_wire());
        }
    }

    fn read_wire(buf: &'a [u8], pos: usize) -> (r: Option<Self>) {
        let _len = buf.len();
        let ghost bytes = buf@.subrange(pos as int, pos + 7);
        proof {
            assert(bytes.subrange(0, 2) =~= buf@.subrange(pos + 0, pos + 2));
            assert(bytes.subrange(2, 4) =~= buf@.subrange(pos + 2, pos + 4));
            assert(bytes.subrange(4, 6) =~= buf@.subrange(pos + 4, pos + 6));
            assert(bytes.subrange(6, 7) =~= buf@.subrange(pos + 6, pos + 7));
        }
        let v0 = match <PresetPlaybackMode as FixedWire>::read_wire(buf, pos) {
            Some(v) => v,
            None => return None,
        };
        let v1 = match <TimeMode as FixedWire>::read_wire(buf, pos + 2) {
            Some(v) => v,
            None => return None,
        };
        let v2 = match <TimeMode as FixedWire>::read_wire(buf, pos + 4) {
            Some(v) => v,
            None => return None,
        };
        let v3 = match <u8 as FixedWire>::read_wire(buf, pos + 6) {
            Some(v) => v,
            None => return None,
        };
        Some(SetDmxFailModeRequest { scene_id: v0, loss_of_signal_delay: v1, hold_time: v2, level: v3 })
    }

    proof fn lemma_wire(&self) {
        self.scene_id.lemma_wire();
        self.loss_of_signal_delay.lemma_wire();
        self.hold_time.lemma_wire();
        self.level.lemma_wire();
        let w = self.spec_wire();
        assert(w.subrange(0, 2) =~= self.scene_id.spec_wire());
        assert(w.subrange(2, 4) =~= self.loss_of_signal_delay.spec_wire());
        assert(w.subrange(4, 6) =~= self.hold_time.spec_wire());
        assert(w.subrange(6, 7) =~= self.level.spec_wire());
        if self.spec_wire_valid() {
            assert(<PresetPlaybackMode as FixedWire>::spec_read(w.subrange(0, 2)) == Some(self.scene_id));
            assert(<TimeMode as FixedWire>::spec_read(w.subrange(2, 4)) == Some(self.loss_of_signal_delay));
            assert(<TimeMode as FixedWire>::spec_read(w.subrange(4, 6)) == Some(self.hold_time));
            assert(<u8 as FixedWire>::spec_read(w.subrange(6, 7)) == Some(self.level));
        }
    }
}

impl SetDmxFailModeRequest {
    /// The parameter data of the value.
    pub open spec fn spec_encoding(&self) -> Seq<u8> {
        self.spec_wire()
    }

    /// The value that parameter data stands for, or why it stands for none.
    pub open spec fn spec_decoded(buf: Seq<u8>) -> Result<Self, ParameterDataError> {
        record_decoded::<Self>(buf)
    }

    /// Whether decoding the parameter data gives the value back.
    pub open spec fn spec_encodable(&self) -> bool {
        self.spec_wire_valid()
    }

    pub fn size_of(&self) -> (n: usize)
        ensures
            n == self.spec_encoding().len(),
            n <= 7,
    {
        proof {
            self.lemma_wire();
        }
        Self::wire_size()
    }

    /// Appends the parameter data to `out`.
    pub fn write_encoding(&self, out: &mut Vec<u8>)
        ensures
            final(out)@ == old(out)@ + self.spec_encoding(),
    {
        self.write_wire(out);
    }

    pub fn encode_parameter_data(&self, buf: &mut [u8]) -> (r: Result<usize, ParameterDataError>)
        ensures
            encoded_into(old(buf)@, final(buf)@, self.spec_encoding(), r),
    {
        encode_record(self, buf)
    }

    pub fn decode_parameter_data(buf: &[u8]) -> (r: Result<Self, ParameterDataError>)
        ensures
            r == Self::spec_decoded(buf@),
    {
        decode_record(buf)
    }

    /// Decoding the parameter data of an encodable value gives it back.
    pub proof fn lemma_roundtrip(&self)
        requires
            self.spec_encodable(),
        ensures
            Self::spec_decoded(self.spec_encoding()) == Ok::<Self, ParameterDataError>(*self),
    {
        lemma_record_roundtrip(*self);
    }
}

#[derive(Clone, Copy, Debug, PartialEq, Eq, Structural)]
pub struct SetDmxStartupModeRequest {
    pub scene_id: PresetPlaybackMode,
    pub startup_delay: TimeMode,
    pub hold_time: TimeMode,
    pub level: u8,
}

impl<'a> FixedWire<'a> for SetDmxStartupModeRequest {
    open spec fn spec_size() -> nat {
        7
    }

    open spec fn spec_wire(&self) -> Seq<u8> {
        self.scene_id.spec_wire() + self.startup_delay.spec_wire() + self.hold_time.spec_wire() + self.level.spec_wire()
    }

    open spec fn spec_read(bytes: Seq<u8>) -> Option<Self> {
        if <PresetPlaybackMode as FixedWire>::spec_read(bytes.subrange(0, 2)) is Some
            && <TimeMode as FixedWire>::spec_read(bytes.subrange(2, 4)) is Some
            && <TimeMode as FixedWire>::spec_read(bytes.subrange(4, 6)) is Some
            && <u8 as FixedWire>::spec_read(bytes.subrange(6, 7)) is Some {
            Some(SetDmxStartupModeRequest {
                scene_id: <PresetPlaybackMode as FixedWire>::spec_read(bytes.subrange(0, 2)).unwrap(),
                startup_delay: <TimeMode as FixedWire>::spec_read(bytes.subrange(2, 4)).unwrap(),
                hold_time: <TimeMode as FixedWire>::spec_read(bytes.subrange(4, 6)).unwrap(),
                level: <u8 as FixedWire>::spec_read(bytes.subrange(6, 7)).unwrap(),
            })
        } else {
            None
        }
    }

    open spec fn spec_wire_valid(&self) -> bool {
        self.scene_id.spec_wire_valid() && self.startup_delay.spec_wire_valid() && self.hold_time.spec_wire_valid() && self.level.spec_wire_valid()
    }

    fn wire_size() -> (n: usize) {
        7
    }

    fn write_wire(&self, out: &mut Vec<u8>) {
        let ghost start = out@;
        self.scene_id.write_wire(out);
        self.startup_delay.write_wire(out);
        self.hold_time.write_wire(out);
        self.level.write_wire(out);
        proof {
            assert(out@ =~= start + self.spec_wire());
        }
    }

    fn read_wire(buf: &'a [u8], pos: usize) -> (r: Option<Self>) {
        let _len = buf.len();
        let ghost bytes = buf@.subrange(pos as int, pos + 7);
        proof {
            assert(bytes.subrange(0, 2) =~= buf@.subrange(pos + 0, pos + 2));
            assert(bytes.subrange(2, 4) =~= buf@.subrange(pos + 2, pos + 4));
            assert(bytes.subrange(4, 6) =~= buf@.subrange(pos + 4, pos + 6));
            assert(bytes.subrange(6, 7) =~= buf@.subrange(pos + 6, pos + 7));
        }
        let v0 = match <PresetPlaybackMode as FixedWire>::read_wire(buf, pos) {
            Some(v) => v,
            None => return None,
        };
        let v1 = match <TimeMode as FixedWire>::read_wire(buf, pos + 2) {
            Some(v) => v,
            None => return None,
        };
        let v2 = match <TimeMode as FixedWire>::read_wire(buf, pos + 4) {
            Some(v) => v,
            None => return None,
        };
        let v3 = match <u8 as FixedWire>::read_wire(buf, pos + 6) {
            Some(v) => v,
            None => return None,
        };
        Some(SetDmxStartupModeRequest { scene_id: v0, startup_delay: v1, hold_time: v2, level: v3 })
    }

    proof fn lemma_wire(&self) {
        self.scene_id.lemma_wire();
        self.startup_delay.lemma_wire();
        self.hold_time.lemma_wire();
        self.level.lemma_wire();
        let w = self.spec_wire();
        assert(w.subrange(0, 2) =~= self.scene_id.spec_wire());
        assert(w.subrange(2, 4) =~= self.startup_delay.spec_wire());
        assert(w.subrange(4, 6) =~= self.hold_time.spec_wire());
        assert(w.subrange(6, 7) =~= self.level.spec_wire());
        if self.spec_wire_valid() {
            assert(<PresetPlaybackMode as FixedWire>::spec_read(w.subrange(0, 2)) == Some(self.scene_id));
            assert(<TimeMode as FixedWire>::spec_read(w.subrange(2, 4)) == Some(self.startup_delay));
            assert(<TimeMode as FixedWire>::spec_read(w.subrange(4, 6)) == Some(self.hold_time));
            assert(<u8 as FixedWire>::spec_read(w.subrange(6, 7)) == Some(self.level));
        }
    }
}

impl SetDmxStartupModeRequest {
    /// The parameter data of the value.
    pub open spec fn spec_encoding(&self) -> Seq<u8> {
        self.spec_wire()
    }

    /// The value that parameter data stands for, or why it stands for none.
    pub open spec fn spec_decoded(buf: Seq<u8>) -> Result<Self, ParameterDataError> {
        record_decoded::<Self>(buf)
    }

    /// Whether decoding the parameter data gives the value back.
    pub open spec fn spec_encodable(&self) -> bool {
        self.spec_wire_valid()
    }

    pub fn size_of(&self) -> (n: usize)
        ensures
            n == self.spec_encoding().len(),
            n <= 7,
    {
        proof {
            self.lemma_wire();
        }
        Self::wire_size()
    }

    /// Appends the parameter data to `out`.
    pub fn write_encoding(&self, out: &mut Vec<u8>)
        ensures
            final(out)@ == old(out)@ + self.spec_encoding(),
    {
        self.write_wire(out);
    }

    pub fn encode_parameter_data(&self, buf: &mut [u8]) -> (r: Result<usize, ParameterDataError>)
        ensures
            encoded_into(old(buf)@, final(buf)@, self.spec_encoding(), r),
    {
        encode_record(self, buf)
    }

    pub fn decode_parameter_data(buf: &[u8]) -> (r: Result<Self, ParameterDataError>)
        ensures
            r == Self::spec_decoded(buf@),
    {
        decode_record(buf)
    }

    /// Decoding the parameter data of an encodable value gives it back.
    pub proof fn lemma_roundtrip(&self)
        requires
            self.spec_encodable(),
        ensures
            Self::spec_decoded(self.spec_encoding()) == Ok::<Self, ParameterDataError>(*self),
    {
        lemma_record_roundtrip(*self);
    }
}

#[derive(Clone, Copy, Debug, PartialEq, Eq, Structural)]
pub struct SetMinimumLevelRequest {
    pub minimum_level_increasing: u16,
    pub minimum_level_decreasing: u16,
    pub on_below_minimum: bool,
}

impl<'a> FixedWire<'a> for SetMinimumLevelRequest {
    open spec fn spec_size() -> nat {
        5
    }

    open spec fn spec_wire(&self) -> Seq<u8> {
        self.minimum_level_increasing.spec_wire() + self.minimum_level_decreasing.spec_wire() + self.on_below_minimum.spec_wire()
    }

    open spec fn spec_read(bytes: Seq<u8>) -> Option<Self> {
        if <u16 as FixedWire>::spec_read(bytes.subrange(0, 2)) is Some
            && <u16 as FixedWire>::spec_read(bytes.subrange(2, 4)) is Some
            && <bool as FixedWire>::spec_read(bytes.subrange(4, 5)) is Some {
            Some(SetMinimumLevelRequest {
                minimum_level_increasing: <u16 as FixedWire>::spec_read(bytes.subrange(0, 2)).unwrap(),
                minimum_level_decreasing: <u16 as FixedWire>::spec_read(bytes.subrange(2, 4)).unwrap(),
                on_below_minimum: <bool as FixedWire>::spec_read(bytes.subrange(4, 5)).unwrap(),
            })
        } else {
            None
        }
    }

    open spec fn spec_wire_valid(&self) -> bool {
        self.minimum_level_increasing.spec_wire_valid() && self.minimum_level_decreasing.spec_wire_valid() && self.on_below_minimum.spec_wire_valid()
    }

    fn wire_size() -> (n: usize) {
        5
    }

    fn write_wire(&self, out: &mut Vec<u8>) {
        let ghost start = out@;
        self.minimum_level_increasing.write_wire(out);
        self.minimum_level_decreasing.write_wire(out);
        self.on_below_minimum.write_wire(out);
        proof {
            assert(out@ =~= start + self.spec_wire());
        }
    }

    fn read_wire(buf: &'a [u8], pos: usize) -> (r: Option<Self>) {
        let _len = buf.len();
        let ghost bytes = buf@.subrange(pos as int, pos + 5);
        proof {
            assert(bytes.subrange(0, 2) =~= buf@.subrange(pos + 0, pos + 2));
            assert(bytes.subrange(2, 4) =~= buf@.subrange(pos + 2, pos + 4));
            assert(bytes.subrange(4, 5) =~= buf@.subrange(pos + 4, pos + 5));
        }
        let v0 = match <u16 as FixedWire>::read_wire(buf, pos) {
            Some(v) => v,
            None => return None,
        };
        let v1 = match <u16 as FixedWire>::read_wire(buf, pos + 2) {
            Some(v) => v,
            None => return None,
        };
        let v2 = match <bool as FixedWire>::read_wire(buf, pos + 4) {
            Some(v) => v,
            None => return None,
        };
        Some(SetMinimumLevelRequest { minimum_level_increasing: v0, minimum_level_decreasing: v1, on_below_minimum: v2 })
    }

    proof fn lemma_wire(&self) {
        self.minimum_level_increasing.lemma_wire();
        self.minimum_level_decreasing.lemma_wire();
        self.on_below_minimum.lemma_wire();
        let w = self.spec_wire();
        assert(w.subrange(0, 2) =~= self.minimum_level_increasing.spec_wire());
        assert(w.subrange(2, 4) =~= self.minimum_level_decreasing.spec_wire());
        assert(w.subrange(4, 5) =~= self.on_below_minimum.spec_wire());
        if self.spec_wire_valid() {
            assert(<u16 as FixedWire>::spec_read(w.subrange(0, 2)) == Some(self.minimum_level_increasing));
            assert(<u16 as FixedWire>::spec_read(w.subrange(2, 4)) == Some(self.minimum_level_decreasing));
            assert(<bool as FixedWire>::spec_read(w.subrange(4, 5)) == Some(self.on_below_minimum));
        }
    }
}

impl SetMinimumLevelRequest {
    /// The parameter data of the value.
    pub open spec fn spec_encoding(&self) -> Seq<u8> {
        self.spec_wire()
    }

    /// The value that parameter data stands for, or why it stands for none.
    pub open spec fn spec_decoded(buf: Seq<u8>) -> Result<Self, ParameterDataError> {
        record_decoded::<Self>(buf)
    }

    /// Whether decoding the parameter data gives the value back.
    pub open spec fn spec_encodable(&self) -> bool {
        self.spec_wire_valid()
    }

    pub fn size_of(&self) -> (n: usize)
        ensures
            n == self.spec_encoding().len(),
            n <= 5,
    {
        proof {
            self.lemma_wire();
        }
        Self::wire_size()
    }

    /// Appends the parameter data to `out`.
    pub fn write_encoding(&self, out: &mut Vec<u8>)
        ensures
            final(out)@ == old(out)@ + self.spec_encoding(),
    {
        self.write_wire(out);
    }

    pub fn encode_parameter_data(&self, buf: &mut [u8]) -> (r: Result<usize, ParameterDataError>)
        ensures
            encoded_into(old(buf)@, final(buf)@, self.spec_encoding(), r),
    {
        encode_record(self, buf)
    }

    pub fn decode_parameter_data(buf: &[u8]) -> (r: Result<Self, ParameterDataError>)
        ensures
            r == Self::spec_decoded(buf@),
    {
        decode_record(buf)
    }

    /// Decoding the parameter data of an encodable value gives it back.
    pub proof fn lemma_roundtrip(&self)
        requires
            self.spec_encodable(),
        ensures
            Self::spec_decoded(self.spec_encoding()) == Ok::<Self, ParameterDataError>(*self),
    {
        lemma_record_roundtrip(*self);
    }
}

#[derive(Clone, Copy, Debug, PartialEq, Eq, Structural)]
pub struct SetMaximumLevelRequest {
    pub maximum_level: u16,
}

impl<'a> FixedWire<'a> for SetMaximumLevelRequest {
    open spec fn spec_size() -> nat {
        2
    }

    open spec fn spec_wire(&self) -> Seq<u8> {
        self.maximum_level.spec_wire()
    }

    open spec fn spec_read(bytes: Seq<u8>) -> Option<Self> {
        if <u16 as FixedWire>::spec_read(bytes.subrange(0, 2)) is Some {
            Some(SetMaximumLevelRequest {
                maximum_level: <u16 as FixedWire>::spec_read(bytes.subrange(0, 2)).unwrap(),
            })
        } else {
            None
        }
    }

    open spec fn spec_wire_valid(&self) -> bool {
        self.maximum_level.spec_wire_valid()
    }

    fn wire_size() -> (n: usize) {
        2
    }

    fn write_wire(&self, out: &mut Vec<u8>) {
        let ghost start = out@;
        self.maximum_level.write_wire(out);
        proof {
            assert(out@ =~= start + self.spec_wire());
        }
    }

    fn read_wire(buf: &'a [u8], pos: usize) -> (r: Option<Self>) {
        let _len = buf.len();
        let ghost bytes = buf@.subrange(pos as int, pos + 2);
        proof {
            assert(bytes.subrange(0, 2) =~= buf@.subrange(pos + 0, pos + 2));
        }
        let v0 = match <u16 as FixedWire>::read_wire(buf, pos) {
            Some(v) => v,
            None => return None,
        };
        Some(SetMaximumLevelRequest { maximum_level: v0 })
    }

    proof fn lemma_wire(&self) {
        self.maximum_level.lemma_wire();
        let w = self.spec_wire();
        assert(w.subrange(0, 2) =~= self.maximum_level.spec_wire());
        if self.spec_wire_valid() {
            assert(<u16 as FixedWire>::spec_read(w.subrange(0, 2)) == Some(self.maximum_level));
        }
    }
}

impl SetMaximumLevelRequest {
    /// The parameter data of the value.
    pub open spec fn spec_encoding(&self) -> Seq<u8> {
        self.spec_wire()
    }

    /// The value that parameter data stands for, or why it stands for none.
    pub open spec fn spec_decoded(buf: Seq<u8>) -> Result<Self, ParameterDataError> {
        record_decoded::<Self>(buf)
    }

    /// Whether decoding the parameter data gives the value back.
    pub open spec fn spec_encodable(&self) -> bool {
        self.spec_wire_valid()
    }

    pub fn size_of(&self) -> (n: usize)
        ensures
            n == self.spec_encoding().len(),
            n <= 2,
    {
        proof {
            self.lemma_wire();
        }
        Self::wire_size()
    }

    /// Appends the parameter data to `out`.
    pub fn write_encoding(&self, out: &mut Vec<u8>)
        ensures
            final(out)@ == old(out)@ + self.spec_encoding(),
    {
        self.write_wire(out);
    }

    pub fn encode_parameter_data(&self, buf: &mut [u8]) -> (r: Result<usize, ParameterDataError>)
        ensures
            encoded_into(old(buf)@, final(buf)@, self.spec_encoding(), r),
    {
        encode_record(self, buf)
    }

    pub fn decode_parameter_data(buf: &[u8]) -> (r: Result<Self, ParameterDataError>)
        ensures
            r == Self::spec_decoded(buf@),
    {
        decode_record(buf)
    }

    /// Decoding the parameter data of an encodable value gives it back.
    pub proof fn lemma_roundtrip(&self)
        requires
            self.spec_encodable(),
        ensures
            Self::spec_decoded(self.spec_encoding()) == Ok::<Self, ParameterDataError>(*self),
    {
        lemma_record_roundtrip(*self);
    }
}

#[derive(Clone, Copy, Debug, PartialEq, Eq, Structural)]
pub struct SetCurveRequest {
    pub curve_id: u8,
}

impl<'a> FixedWire<'a> for SetCurveRequest {
    open spec fn spec_size() -> nat {
        1
    }

    open spec fn spec_wire(&self) -> Seq<u8> {
        self.curve_id.spec_wire()
    }

    open spec fn spec_read(bytes: Seq<u8>) -> Option<Self> {
        if <u8 as FixedWire>::spec_read(bytes.subrange(0, 1)) is Some {
            Some(SetCurveRequest {
                curve_id: <u8 as FixedWire>::spec_read(bytes.subrange(0, 1)).unwrap(),
            })
        } else {
            None
        }
    }

    open spec fn spec_wire_valid(&self) -> bool {
        self.curve_id.spec_wire_valid()
    }

    fn wire_size() -> (n: usize) {
        1
    }

    fn write_wire(&self, out: &mut Vec<u8>) {
        let ghost start = out@;
        self.curve_id.write_wire(out);
        proof {
            assert(out@ =~= start + self.spec_wire());
        }
    }

    fn read_wire(buf: &'a [u8], pos: usize) -> (r: Option<Self>) {
        let _len = buf.len();
        let ghost bytes = buf@.subrange(pos as int, pos + 1);
        proof {
            assert(bytes.subrange(0, 1) =~= buf@.subrange(pos + 0, pos + 1));
        }
        let v0 = match <u8 as FixedWire>::read_wire(buf, pos) {
            Some(v) => v,
            None => return None,
        };
        Some(SetCurveRequest { curve_id: v0 })
    }

    proof fn lemma_wire(&self) {
        self.curve_id.lemma_wire();
        let w = self.spec_wire();
        assert(w.subrange(0, 1) =~= self.curve_id.spec_wire());
        if self.spec_wire_valid() {
            assert(<u8 as FixedWire>::spec_read(w.subrange(0, 1)) == Some(self.curve_id));
        }
    }
}

impl SetCurveRequest {
    /// The parameter data of the value.
    pub open spec fn spec_encoding(&self) -> Seq<u8> {
        self.spec_wire()
    }

    /// The value that parameter data stands for, or why it stands for none.
    pub open spec fn spec_decoded(buf: Seq<u8>) -> Result<Self, ParameterDataError> {
        record_decoded::<Self>(buf)
    }

    /// Whether decoding the parameter data gives the value back.
    pub open spec fn spec_encodable(&self) -> bool {
        self.spec_wire_valid()
    }

    pub fn size_of(&self) -> (n: usize)
        ensures
            n == self.spec_encoding().len(),
            n <= 1,
    {
        proof {
            self.lemma_wire();
        }
        Self::wire_size()
    }

    /// Appends the parameter data to `out`.
    pub fn write_encoding(&self, out: &mut Vec<u8>)
        ensures
            final(out)@ == old(out)@ + self.spec_encoding(),
    {
        self.write_wire(out);
    }

    pub fn encode_parameter_data(&self, buf: &mut [u8]) -> (r: Result<usize, ParameterDataError>)
        ensures
            encoded_into(old(buf)@, final(buf)@, self.spec_encoding(), r),
    {
        encode_record(self, buf)
    }

    pub fn decode_parameter_data(buf: &[u8]) -> (r: Result<Self, ParameterDataError>)
        ensures
            r == Self::spec_decoded(buf@),
    {
        decode_record(buf)
    }

    /// Decoding the parameter data of an encodable value gives it back.
    pub proof fn lemma_roundtrip(&self)
        requires
            self.spec_encodable(),
        ensures
            Self::spec_decoded(self.spec_encoding()) == Ok::<Self, ParameterDataError>(*self),
    {
        lemma_record_roundtrip(*self);
    }
}

#[derive(Clone, Copy, Debug, PartialEq, Eq, Structural)]
pub struct GetCurveDescriptionRequest {
    pub curve_id: u8,
}

impl<'a> FixedWire<'a> for GetCurveDescriptionRequest {
    open spec fn spec_size() -> nat {
        1
    }

    open spec fn spec_wire(&self) -> Seq<u8> {
        self.curve_id.spec_wire()
    }

    open spec fn spec_read(bytes: Seq<u8>) -> Option<Self> {
        if <u8 as FixedWire>::spec_read(bytes.subrange(0, 1)) is Some {
            Some(GetCurveDescriptionRequest {
                curve_id: <u8 as FixedWire>::spec_read(bytes.subrange(0, 1)).unwrap(),
            })
        } else {
            None
        }
    }

    open spec fn spec_wire_valid(&self) -> bool {
        self.curve_id.spec_wire_valid()
    }

    fn wire_size() -> (n: usize) {
        1
    }

    fn write_wire(&self, out: &mut Vec<u8>) {
        let ghost start = out@;
        self.curve_id.write_wire(out);
        proof {
            assert(out@ =~= start + self.spec_wire());
        }
    }

    fn read_wire(buf: &'a [u8], pos: usize) -> (r: Option<Self>) {
        let _len = buf.len();
        let ghost bytes = buf@.subrange(pos as int, pos + 1);
        proof {
            assert(bytes.subrange(0, 1) =~= buf@.subrange(pos + 0, pos + 1));
        }
        let v0 = match <u8 as FixedWire>::read_wire(buf, pos) {
            Some(v) => v,
            None => return None,
        };
        Some(GetCurveDescriptionRequest { curve_id: v0 })
    }

    proof fn lemma_wire(&self) {
        self.curve_id.lemma_wire();
        let w = self.spec_wire();
        assert(w.subrange(0, 1) =~= self.curve_id.spec_wire());
        if self.spec_wire_valid() {
            assert(<u8 as FixedWire>::spec_read(w.subrange(0, 1)) == Some(self.curve_id));
        }
    }
}

impl GetCurveDescriptionRequest {
    /// The parameter data of the value.
    pub open spec fn spec_encoding(&self) -> Seq<u8> {
        self.spec_wire()
    }

    /// The value that parameter data stands for, or why it stands for none.
    pub open spec fn spec_decoded(buf: Seq<u8>) -> Result<Self, ParameterDataError> {
        record_decoded::<Self>(buf)
    }

    /// Whether decoding the parameter data gives the value back.
    pub open spec fn spec_encodable(&self) -> bool {
        self.spec_wire_valid()
    }

    pub fn size_of(&self) -> (n: usize)
        ensures
            n == self.spec_encoding().len(),
            n <= 1,
    {
        proof {
            self.lemma_wire();
        }
        Self::wire_size()
    }

    /// Appends the parameter data to `out`.
    pub fn write_encoding(&self, out: &mut Vec<u8>)
        ensures
            final(out)@ == old(out)@ + self.spec_encoding(),
    {
        self.write_wire(out);
    }

    pub fn encode_parameter_data(&self, buf: &mut [u8]) -> (r: Result<usize, ParameterDataError>)
        ensures
            encoded_into(old(buf)@, final(buf)@, self.spec_encoding(), r),
    {
        encode_record(self, buf)
    }

    pub fn decode_parameter_data(buf: &[u8]) -> (r: Result<Self, ParameterDataError>)
        ensures
            r == Self::spec_decoded(buf@),
    {
        decode_record(buf)
    }

    /// Decoding the parameter data of an encodable value gives it back.
    pub proof fn lemma_roundtrip(&self)
        requires
            self.spec_encodable(),
        ensures
            Self::spec_decoded(self.spec_encoding()) == Ok::<Self, ParameterDataError>(*self),
    {
        lemma_record_roundtrip(*self);
    }
}

#[derive(Clone, Copy, Debug, PartialEq, Eq, Structural)]
pub struct SetOutputResponseTimeRequest {
    pub output_response_time_id: u8,
}

impl<'a> FixedWire<'a> for SetOutputResponseTimeRequest {
    open spec fn spec_size() -> nat {
        1
    }

    open spec fn spec_wire(&self) -> Seq<u8> {
        self.output_response_time_id.spec_wire()
    }

    open spec fn spec_read(bytes: Seq<u8>) -> Option<Self> {
        if <u8 as FixedWire>::spec_read(bytes.subrange(0, 1)) is Some {
            Some(SetOutputResponseTimeRequest {
                output_response_time_id: <u8 as FixedWire>::spec_read(bytes.subrange(0, 1)).unwrap(),
            })
        } else {
            None
        }
    }

    open spec fn spec_wire_valid(&self) -> bool {
        self.output_response_time_id.spec_wire_valid()
    }

    fn wire_size() -> (n: usize) {
        1
    }

    fn write_wire(&self, out: &mut Vec<u8>) {
        let ghost start = out@;
        self.output_response_time_id.write_wire(out);
        proof {
            assert(out@ =~= start + self.spec_wire());
        }
    }

    fn read_wire(buf: &'a [u8], pos: usize) -> (r: Option<Self>) {
        let _len = buf.len();
        let ghost bytes = buf@.subrange(pos as int, pos + 1);
        proof {
            assert(bytes.subrange(0, 1) =~= buf@.subrange(pos + 0, pos + 1));
        }
        let v0 = match <u8 as FixedWire>::read_wire(buf, pos) {
            Some(v) => v,
            None => return None,
        };
        Some(SetOutputResponseTimeRequest { output_response_time_id: v0 })
    }

    proof fn lemma_wire(&self) {
        self.output_response_time_id.lemma_wire();
        let w = self.spec_wire();
        assert(w.subrange(0, 1) =~= self.output_response_time_id.spec_wire());
        if self.spec_wire_valid() {
            assert(<u8 as FixedWire>::spec_read(w.subrange(0, 1)) == Some(self.output_response_time_id));
        }
    }
}

impl SetOutputResponseTimeRequest {
    /// The parameter data of the value.
    pub open spec fn spec_encoding(&self) -> Seq<u8> {
        self.spec_wire()
    }

    /// The value that parameter data stands for, or why it stands for none.
    pub open spec fn spec_decoded(buf: Seq<u8>) -> Result<Self, ParameterDataError> {
        record_decoded::<Self>(buf)
    }

    /// Whether decoding the parameter data gives the value back.
    pub open spec fn spec_encodable(&self) -> bool {
        self.spec_wire_valid()
    }

    pub fn size_of(&self) -> (n: usize)
        ensures
            n == self.spec_encoding().len(),
            n <= 1,
    {
        proof {
            self.lemma_wire();
        }
        Self::wire_size()
    }

    /// Appends the parameter data to `out`.
    pub fn write_encoding(&self, out: &mut Vec<u8>)
        ensures
            final(out)@ == old(out)@ + self.spec_encoding(),
    {
        self.write_wire(out);
    }

    pub fn encode_parameter_data(&self, buf: &mut [u8]) -> (r: Result<usize, ParameterDataError>)
        ensures
            encoded_into(old(buf)@, final(buf)@, self.spec_encoding(), r),
    {
        encode_record(self, buf)
    }

    pub fn decode_parameter_data(buf: &[u8]) -> (r: Result<Self, ParameterDataError>)
        ensures
            r == Self::spec_decoded(buf@),
    {
        decode_record(buf)
    }

    /// Decoding the parameter data of an encodable value gives it back.
    pub proof fn lemma_roundtrip(&self)
        requires
            self.spec_encodable(),
        ensures
            Self::spec_decoded(self.spec_encoding()) == Ok::<Self, ParameterDataError>(*self),
    {
        lemma_record_roundtrip(*self);
    }
}

#[derive(Clone, Copy, Debug, PartialEq, Eq, Structural)]
pub struct GetOutputResponseTimeDescriptionRequest {
    pub output_response_time_id: u8,
}

impl<'a> FixedWire<'a> for GetOutputResponseTimeDescriptionRequest {
    open spec fn spec_size() -> nat {
        1
    }

    open spec fn spec_wire(&self) -> Seq<u8> {
        self.output_response_time_id.spec_wire()
    }

    open spec fn spec_read(bytes: Seq<u8>) -> Option<Self> {
        if <u8 as FixedWire>::spec_read(bytes.subrange(0, 1)) is Some {
            Some(GetOutputResponseTimeDescriptionRequest {
                output_response_time_id: <u8 as FixedWire>::spec_read(bytes.subrange(0, 1)).unwrap(),
            })
        } else {
            None
        }
    }

    open spec fn spec_wire_valid(&self) -> bool {
        self.output_response_time_id.spec_wire_valid()
    }

    fn wire_size() -> (n: usize) {
        1
    }

    fn write_wire(&self, out: &mut Vec<u8>) {
        let ghost start = out@;
        self.output_response_time_id.write_wire(out);
        proof {
            assert(out@ =~= start + self.spec_wire());
        }
    }

    fn read_wire(buf: &'a [u8], pos: usize) -> (r: Option<Self>) {
        let _len = buf.len();
        let ghost bytes = buf@.subrange(pos as int, pos + 1);
        proof {
            assert(bytes.subrange(0, 1) =~= buf@.subrange(pos + 0, pos + 1));
        }
        let v0 = match <u8 as FixedWire>::read_wire(buf, pos) {
            Some(v) => v,
            None => return None,
        };
        Some(GetOutputResponseTimeDescriptionRequest { output_response_time_id: v0 })
    }

    proof fn lemma_wire(&self) {
        self.output_response_time_id.lemma_wire();
        let w = self.spec_wire();
        assert(w.subrange(0, 1) =~= self.output_response_time_id.spec_wire());
        if self.spec_wire_valid() {
            assert(<u8 as FixedWire>::spec_read(w.subrange(0, 1)) == Some(self.output_response_time_id));
        }
    }
}

impl GetOutputResponseTimeDescriptionRequest {
    /// The parameter data of the value.
    pub open spec fn spec_encoding(&self) -> Seq<u8> {
        self.spec_wire()
    }

    /// The value that parameter data stands for, or why it stands for none.
    pub open spec fn spec_decoded(buf: Seq<u8>) -> Result<Self, ParameterDataError> {
        record_decoded::<Self>(buf)
    }

    /// Whether decoding the parameter data gives the value back.
    pub open spec fn spec_encodable(&self) -> bool {
        self.spec_wire_valid()
    }

    pub fn size_of(&self) -> (n: usize)
        ensures
            n == self.spec_encoding().len(),
            n <= 1,
    {
        proof {
            self.lemma_wire();
        }
        Self::wire_size()
    }

    /// Appends the parameter data to `out`.
    pub fn write_encoding(&self, out: &mut Vec<u8>)
        ensures
            final(out)@ == old(out)@ + self.spec_encoding(),
    {
        self.write_wire(out);
    }

    pub fn encode_parameter_data(&self, buf: &mut [u8]) -> (r: Result<usize, ParameterDataError>)
        ensures
            encoded_into(old(buf)@, final(buf)@, self.spec_encoding(), r),
    {
        encode_record(self, buf)
    }

    pub fn decode_parameter_data(buf: &[u8]) -> (r: Result<Self, ParameterDataError>)
        ensures
            r == Self::spec_decoded(buf@),
    {
        decode_record(buf)
    }

    /// Decoding the parameter data of an encodable value gives it back.
    pub proof fn lemma_roundtrip(&self)
        requires
            self.spec_encodable(),
        ensures
            Self::spec_decoded(self.spec_encoding()) == Ok::<Self, ParameterDataError>(*self),
    {
        lemma_record_roundtrip(*self);
    }
}

#[derive(Clone, Copy, Debug, PartialEq, Eq, Structural)]
pub struct SetModulationFrequencyRequest {
    pub modulation_frequency_id: u8,
}

impl<'a> FixedWire<'a> for SetModulationFrequencyRequest {
    open spec fn spec_size() -> nat {
        1
    }

    open spec fn spec_wire(&self) -> Seq<u8> {
        self.modulation_frequency_id.spec_wire()
    }

    open spec fn spec_read(bytes: Seq<u8>) -> Option<Self> {
        if <u8 as FixedWire>::spec_read(bytes.subrange(0, 1)) is Some {
            Some(SetModulationFrequencyRequest {
                modulation_frequency_id: <u8 as FixedWire>::spec_read(bytes.subrange(0, 1)).unwrap(),
            })
        } else {
            None
        }
    }

    open spec fn spec_wire_valid(&self) -> bool {
        self.modulation_frequency_id.spec_wire_valid()
    }

    fn wire_size() -> (n: usize) {
        1
    }

    fn write_wire(&self, out: &mut Vec<u8>) {
        let ghost start = out@;
        self.modulation_frequency_id.write_wire(out);
        proof {
            assert(out@ =~= start + self.spec_wire());
        }
    }

    fn read_wire(buf: &'a [u8], pos: usize) -> (r: Option<Self>) {
        let _len = buf.len();
        let ghost bytes = buf@.subrange(pos as int, pos + 1);
        proof {
            assert(bytes.subrange(0, 1) =~= buf@.subrange(pos + 0, pos + 1));
        }
        let v0 = match <u8 as FixedWire>::read_wire(buf, pos) {
            Some(v) => v,
            None => return None,
        };
        Some(SetModulationFrequencyRequest { modulation_frequency_id: v0 })
    }

    proof fn lemma_wire(&self) {
        self.modulation_frequency_id.lemma_wire();
        let w = self.spec_wire();
        assert(w.subrange(0, 1) =~= self.modulation_frequency_id.spec_wire());
        if self.spec_wire_valid() {
            assert(<u8 as FixedWire>::spec_read(w.subrange(0, 1)) == Some(self.modulation_frequency_id));
        }
    }
}

impl SetModulationFrequencyRequest {
    /// The parameter data of the value.
    pub open spec fn spec_encoding(&self) -> Seq<u8> {
        self.spec_wire()
    }

    /// The value that parameter data stands for, or why it stands for none.
    pub open spec fn spec_decoded(buf: Seq<u8>) -> Result<Self, ParameterDataError> {
        record_decoded::<Self>(buf)
    }

    /// Whether decoding the parameter data gives the value back.
    pub open spec fn spec_encodable(&self) -> bool {
        self.spec_wire_valid()
    }

    pub fn size_of(&self) -> (n: usize)
        ensures
            n == self.spec_encoding().len(),
            n <= 1,
    {
        proof {
            self.lemma_wire();
        }
        Self::wire_size()
    }

    /// Appends the parameter data to `out`.
    pub fn write_encoding(&self, out: &mut Vec<u8>)
        ensures
            final(out)@ == old(out)@ + self.spec_encoding(),
    {
        self.write_wire(out);
    }

    pub fn encode_parameter_data(&self, buf: &mut [u8]) -> (r: Result<usize, ParameterDataError>)
        ensures
            encoded_into(old(buf)@, final(buf)@, self.spec_encoding(), r),
    {
        encode_record(self, buf)
    }

    pub fn decode_parameter_data(buf: &[u8]) -> (r: Result<Self, ParameterDataError>)
        ensures
            r == Self::spec_decoded(buf@),
    {
        decode_record(buf)
    }

    /// Decoding the parameter data of an encodable value gives it back.
    pub proof fn lemma_roundtrip(&self)
        requires
            self.spec_encodable(),
        ensures
            Self::spec_decoded(self.spec_encoding()) == Ok::<Self, ParameterDataError>(*self),
    {
        lemma_record_roundtrip(*self);
    }
}

#[derive(Clone, Copy, Debug, PartialEq, Eq, Structural)]
pub struct GetModulationFrequencyDescriptionRequest {
    pub modulation_frequency_id: u8,
}

impl<'a> FixedWire<'a> for GetModulationFrequencyDescriptionRequest {
    open spec fn spec_size() -> nat {
        1
    }

    open spec fn spec_wire(&self) -> Seq<u8> {
        self.modulation_frequency_id.spec_wire()
    }

    open spec fn spec_read(bytes: Seq<u8>) -> Option<Self> {
        if <u8 as FixedWire>::spec_read(bytes.subrange(0, 1)) is Some {
            Some(GetModulationFrequencyDescriptionRequest {
                modulation_frequency_id: <u8 as FixedWire>::spec_read(bytes.subrange(0, 1)).unwrap(),
            })
        } else {
            None
        }
    }

    open spec fn spec_wire_valid(&self) -> bool {
        self.modulation_frequency_id.spec_wire_valid()
    }

    fn wire_size() -> (n: usize) {
        1
    }

    fn write_wire(&self, out: &mut Vec<u8>) {
        let ghost start = out@;
        self.modulation_frequency_id.write_wire(out);
        proof {
            assert(out@ =~= start + self.spec_wire());
        }
    }

    fn read_wire(buf: &'a [u8], pos: usize) -> (r: Option<Self>) {
        let _len = buf.len();
        let ghost bytes = buf@.subrange(pos as int, pos + 1);
        proof {
            assert(bytes.subrange(0, 1) =~= buf@.subrange(pos + 0, pos + 1));
        }
        let v0 = match <u8 as FixedWire>::read_wire(buf, pos) {
            Some(v) => v,
            None => return None,
        };
        Some(GetModulationFrequencyDescriptionRequest { modulation_frequency_id: v0 })
    }

    proof fn lemma_wire(&self) {
        self.modulation_frequency_id.lemma_wire();
        let w = self.spec_wire();
        assert(w.subrange(0, 1) =~= self.modulation_frequency_id.spec_wire());
        if self.spec_wire_valid() {
            assert(<u8 as FixedWire>::spec_read(w.subrange(0, 1)) == Some(self.modulation_frequency_id));
        }
    }
}

impl GetModulationFrequencyDescriptionRequest {
    /// The parameter data of the value.
    pub open spec fn spec_encoding(&self) -> Seq<u8> {
        self.spec_wire()
    }

    /// The value that parameter data stands for, or why it stands for none.
    pub open spec fn spec_decoded(buf: Seq<u8>) -> Result<Self, ParameterDataError> {
        record_decoded::<Self>(buf)
    }

    /// Whether decoding the parameter data gives the value back.
    pub open spec fn spec_encodable(&self) -> bool {
        self.spec_wire_valid()
    }

    pub fn size_of(&self) -> (n: usize)
        ensures
            n == self.spec_encoding().len(),
            n <= 1,
    {
        proof {
            self.lemma_wire();
        }
        Self::wire_size()
    }

    /// Appends the parameter data to `out`.
    pub fn write_encoding(&self, out: &mut Vec<u8>)
        ensures
            final(out)@ == old(out)@ + self.spec_encoding(),
    {
        self.write_wire(out);
    }

    pub fn encode_parameter_data(&self, buf: &mut [u8]) -> (r: Result<usize, ParameterDataError>)
        ensures
            encoded_into(old(buf)@, final(buf)@, self.spec_encoding(), r),
    {
        encode_record(self, buf)
    }

    pub fn decode_parameter_data(buf: &[u8]) -> (r: Result<Self, ParameterDataError>)
        ensures
            r == Self::spec_decoded(buf@),
    {
        decode_record(buf)
    }

    /// Decoding the parameter data of an encodable value gives it back.
    pub proof fn lemma_roundtrip(&self)
        requires
            self.spec_encodable(),
        ensures
            Self::spec_decoded(self.spec_encoding()) == Ok::<Self, ParameterDataError>(*self),
    {
        lemma_record_roundtrip(*self);
    }
}

#[derive(Clone, Copy, Debug, PartialEq, Eq, Structural)]
pub struct SetBurnInRequest {
    pub hours: u8,
}

impl<'a> FixedWire<'a> for SetBurnInRequest {
    open spec fn spec_size() -> nat {
        1
    }

    open spec fn spec_wire(&self) -> Seq<u8> {
        self.hours.spec_wire()
    }

    open spec fn spec_read(bytes: Seq<u8>) -> Option<Self> {
        if <u8 as FixedWire>::spec_read(bytes.subrange(0, 1)) is Some {
            Some(SetBurnInRequest {
                hours: <u8 as FixedWire>::spec_read(bytes.subrange(0, 1)).unwrap(),
            })
        } else {
            None
        }
    }

    open spec fn spec_wire_valid(&self) -> bool {
        self.hours.spec_wire_valid()
    }

    fn wire_size() -> (n: usize) {
        1
    }

    fn write_wire(&self, out: &mut Vec<u8>) {
        let ghost start = out@;
        self.hours.write_wire(out);
        proof {
            assert(out@ =~= start + self.spec_wire());
        }
    }

    fn read_wire(buf: &'a [u8], pos: usize) -> (r: Option<Self>) {
        let _len = buf.len();
        let ghost bytes = buf@.subrange(pos as int, pos + 1);
        proof {
            assert(bytes.subrange(0, 1) =~= buf@.subrange(pos + 0, pos + 1));
        }
        let v0 = match <u8 as FixedWire>::read_wire(buf, pos) {
            Some(v) => v,
            None => return None,
        };
        Some(SetBurnInRequest { hours: v0 })
    }

    proof fn lemma_wire(&self) {
        self.hours.lemma_wire();
        let w = self.spec_wire();
        assert(w.subrange(0, 1) =~= self.hours.spec_wire());
        if self.spec_wire_valid() {
            assert(<u8 as FixedWire>::spec_read(w.subrange(0, 1)) == Some(self.hours));
        }
    }
}

impl SetBurnInRequest {
    /// The parameter data of the value.
    pub open spec fn spec_encoding(&self) -> Seq<u8> {
        self.spec_wire()
    }

    /// The value that parameter data stands for, or why it stands for none.
    pub open spec fn spec_decoded(buf: Seq<u8>) -> Result<Self, ParameterDataError> {
        record_decoded::<Self>(buf)
    }

    /// Whether decoding the parameter data gives the value back.
    pub open spec fn spec_encodable(&self) -> bool {
        self.spec_wire_valid()
    }

    pub fn size_of(&self) -> (n: usize)
        ensures
            n == self.spec_encoding().len(),
            n <= 1,
    {
        proof {
            self.lemma_wire();
        }
        Self::wire_size()
    }

    /// Appends the parameter data to `out`.
    pub fn write_encoding(&self, out: &mut Vec<u8>)
        ensures
            final(out)@ == old(out)@ + self.spec_encoding(),
    {
        self.write_wire(out);
    }

    pub fn encode_parameter_data(&self, buf: &mut [u8]) -> (r: Result<usize, ParameterDataError>)
        ensures
            encoded_into(old(buf)@, final(buf)@, self.spec_encoding(), r),
    {
        encode_record(self, buf)
    }

    pub fn decode_parameter_data(buf: &[u8]) -> (r: Result<Self, ParameterDataError>)
        ensures
            r == Self::spec_decoded(buf@),
    {
        decode_record(buf)
    }

    /// Decoding the parameter data of an encodable value gives it back.
    pub proof fn lemma_roundtrip(&self)
        requires
            self.spec_encodable(),
        ensures
            Self::spec_decoded(self.spec_encoding()) == Ok::<Self, ParameterDataError>(*self),
    {
        lemma_record_roundtrip(*self);
    }
}

#[derive(Clone, Copy, Debug, PartialEq)]
pub struct SetLockPinRequest {
    pub new_pin_code: PinCode,
    pub current_pin_code: PinCode,
}

impl<'a> FixedWire<'a> for SetLockPinRequest {
    open spec fn spec_size() -> nat {
        4
    }

    open spec fn spec_wire(&self) -> Seq<u8> {
        self.new_pin_code.spec_wire() + self.current_pin_code.spec_wire()
    }

    open spec fn spec_read(bytes: Seq<u8>) -> Option<Self> {
        if <PinCode as FixedWire>::spec_read(bytes.subrange(0, 2)) is Some
            && <PinCode as FixedWire>::spec_read(bytes.subrange(2, 4)) is Some {
            Some(SetLockPinRequest {
                new_pin_code: <PinCode as FixedWire>::spec_read(bytes.subrange(0, 2)).unwrap(),
                current_pin_code: <PinCode as FixedWire>::spec_read(bytes.subrange(2, 4)).unwrap(),
            })
        } else {
            None
        }
    }

    open spec fn spec_wire_valid(&self) -> bool {
        self.new_pin_code.spec_wire_valid() && self.current_pin_code.spec_wire_valid()
    }

    fn wire_size() -> (n: usize) {
        4
    }

    fn write_wire(&self, out: &mut Vec<u8>) {
        let ghost start = out@;
        self.new_pin_code.write_wire(out);
        self.current_pin_code.write_wire(out);
        proof {
            assert(out@ =~= start + self.spec_wire());
        }
    }

    fn read_wire(buf: &'a [u8], pos: usize) -> (r: Option<Self>) {
        let _len = buf.len();
        let ghost bytes = buf@.subrange(pos as int, pos + 4);
        proof {
            assert(bytes.subrange(0, 2) =~= buf@.subrange(pos + 0, pos + 2));
            assert(bytes.subrange(2, 4) =~= buf@.subrange(pos + 2, pos + 4));
        }
        let v0 = match <PinCode as FixedWire>::read_wire(buf, pos) {
            Some(v) => v,
            None => return None,
        };
        let v1 = match <PinCode as FixedWire>::read_wire(buf, pos + 2) {
            Some(v) => v,
            None => return None,
        };
        Some(SetLockPinRequest { new_pin_code: v0, current_pin_code: v1 })
    }

    proof fn lemma_wire(&self) {
        self.new_pin_code.lemma_wire();
        self.current_pin_code.lemma_wire();
        let w = self.spec_wire();
        assert(w.subrange(0, 2) =~= self.new_pin_code.spec_wire());
        assert(w.subrange(2, 4) =~= self.current_pin_code.spec_wire());
        if self.spec_wire_valid() {
            assert(<PinCode as FixedWire>::spec_read(w.subrange(0, 2)) == Some(self.new_pin_code));
            assert(<PinCode as FixedWire>::spec_read(w.subrange(2, 4)) == Some(self.current_pin_code));
        }
    }
}

impl SetLockPinRequest {
    /// The parameter data of the value.
    pub open spec fn spec_encoding(&self) -> Seq<u8> {
        self.spec_wire()
    }

    /// The value that parameter data stands for, or why it stands for none.
    pub open spec fn spec_decoded(buf: Seq<u8>) -> Result<Self, ParameterDataError> {
        record_decoded::<Self>(buf)
    }

    /// Whether decoding the parameter data gives the value back.
    pub open spec fn spec_encodable(&self) -> bool {
        self.spec_wire_valid()
    }

    pub fn size_of(&self) -> (n: usize)
        ensures
            n == self.spec_encoding().len(),
            n <= 4,
    {
        proof {
            self.lemma_wire();
        }
        Self::wire_size()
    }

    /// Appends the parameter data to `out`.
    pub fn write_encoding(&self, out: &mut Vec<u8>)
        ensures
            final(out)@ == old(out)@ + self.spec_encoding(),
    {
        self.write_wire(out);
    }

    pub fn encode_parameter_data(&self, buf: &mut [u8]) -> (r: Result<usize, ParameterDataError>)
        ensures
            encoded_into(old(buf)@, final(buf)@, self.spec_encoding(), r),
    {
        encode_record(self, buf)
    }

    pub fn decode_parameter_data(buf: &[u8]) -> (r: Result<Self, ParameterDataError>)
        ensures
            r == Self::spec_decoded(buf@),
    {
        decode_record(buf)
    }

    /// Decoding the parameter data of an encodable value gives it back.
    pub proof fn lemma_roundtrip(&self)
        requires
            self.spec_encodable(),
        ensures
            Self::spec_decoded(self.spec_encoding()) == Ok::<Self, ParameterDataError>(*self),
    {
        lemma_record_roundtrip(*self);
    }
}

#[derive(Clone, Copy, Debug, PartialEq)]
pub struct SetLockStateRequest {
    pub pin_code: PinCode,
    pub lock_state: bool,
}

impl<'a> FixedWire<'a> for SetLockStateRequest {
    open spec fn spec_size() -> nat {
        3
    }

    open spec fn spec_wire(&self) -> Seq<u8> {
        self.pin_code.spec_wire() + self.lock_state.spec_wire()
    }

    open spec fn spec_read(bytes: Seq<u8>) -> Option<Self> {
        if <PinCode as FixedWire>::spec_read(bytes.subrange(0, 2)) is Some
            && <bool as FixedWire>::spec_read(bytes.subrange(2, 3)) is Some {
            Some(SetLockStateRequest {
                pin_code: <PinCode as FixedWire>::spec_read(bytes.subrange(0, 2)).unwrap(),
                lock_state: <bool as FixedWire>::spec_read(bytes.subrange(2, 3)).unwrap(),
            })
        } else {
            None
        }
    }

    open spec fn spec_wire_valid(&self) -> bool {
        self.pin_code.spec_wire_valid() && self.lock_state.spec_wire_valid()
    }

    fn wire_size() -> (n: usize) {
        3
    }

    fn write_wire(&self, out: &mut Vec<u8>) {
        let ghost start = out@;
        self.pin_code.write_wire(out);
        self.lock_state.write_wire(out);
        proof {
            assert(out@ =~= start + self.spec_wire());
        }
    }

    fn read_wire(buf: &'a [u8], pos: usize) -> (r: Option<Self>) {
        let _len = buf.len();
        let ghost bytes = buf@.subrange(pos as int, pos + 3);
        proof {
            assert(bytes.subrange(0, 2) =~= buf@.subrange(pos + 0, pos + 2));
            assert(bytes.subrange(2, 3) =~= buf@.subrange(pos + 2, pos + 3));
        }
        let v0 = match <PinCode as FixedWire>::read_wire(buf, pos) {
            Some(v) => v,
            None => return None,
        };
        let v1 = match <bool as FixedWire>::read_wire(buf, pos + 2) {
            Some(v) => v,
            None => return None,
        };
        Some(SetLockStateRequest { pin_code: v0, lock_state: v1 })
    }

    proof fn lemma_wire(&self) {
        self.pin_code.lemma_wire();
        self.lock_state.lemma_wire();
        let w = self.spec_wire();
        assert(w.subrange(0, 2) =~= self.pin_code.spec_wire());
        assert(w.subrange(2, 3) =~= self.lock_state.spec_wire());
        if self.spec_wire_valid() {
            assert(<PinCode as FixedWire>::spec_read(w.subrange(0, 2)) == Some(self.pin_code));
            assert(<bool as FixedWire>::spec_read(w.subrange(2, 3)) == Some(self.lock_state));
        }
    }
}

impl SetLockStateRequest {
    /// The parameter data of the value.
    pub open spec fn spec_encoding(&self) -> Seq<u8> {
        self.spec_wire()
    }

    /// The value that parameter data stands for, or why it stands for none.
    pub open spec fn spec_decoded(buf: Seq<u8>) -> Result<Self, ParameterDataError> {
        record_decoded::<Self>(buf)
    }

    /// Whether decoding the parameter data gives the value back.
    pub open spec fn spec_encodable(&self) -> bool {
        self.spec_wire_valid()
    }

    pub fn size_of(&self) -> (n: usize)
        ensures
            n == self.spec_encoding().len(),
            n <= 3,
    {
        proof {
            self.lemma_wire();
        }
        Self::wire_size()
    }

    /// Appends the parameter data to `out`.
    pub fn write_encoding(&self, out: &mut Vec<u8>)
        ensures
            final(out)@ == old(out)@ + self.spec_encoding(),
    {
        self.write_wire(out);
    }

    pub fn encode_parameter_data(&self, buf: &mut [u8]) -> (r: Result<usize, ParameterDataError>)
        ensures
            encoded_into(old(buf)@, final(buf)@, self.spec_encoding(), r),
    {
        encode_record(self, buf)
    }

    pub fn decode_parameter_data(buf: &[u8]) -> (r: Result<Self, ParameterDataError>)
        ensures
            r == Self::spec_decoded(buf@),
    {
        decode_record(buf)
    }

    /// Decoding the parameter data of an encodable value gives it back.
    pub proof fn lemma_roundtrip(&self)
        requires
            self.spec_encodable(),
        ensures
            Self::spec_decoded(self.spec_encoding()) == Ok::<Self, ParameterDataError>(*self),
    {
        lemma_record_roundtrip(*self);
    }
}

#[derive(Clone, Copy, Debug, PartialEq, Eq, Structural)]
pub struct GetLockStateDescriptionRequest {
    pub lock_state_id: u8,
}

impl<'a> FixedWire<'a> for GetLockStateDescriptionRequest {
    open spec fn spec_size() -> nat {
        1
    }

    open spec fn spec_wire(&self) -> Seq<u8> {
        self.lock_state_id.spec_wire()
    }

    open spec fn spec_read(bytes: Seq<u8>) -> Option<Self> {
        if <u8 as FixedWire>::spec_read(bytes.subrange(0, 1)) is Some {
            Some(GetLockStateDescriptionRequest {
                lock_state_id: <u8 as FixedWire>::spec_read(bytes.subrange(0, 1)).unwrap(),
            })
        } else {
            None
        }
    }

    open spec fn spec_wire_valid(&self) -> bool {
        self.lock_state_id.spec_wire_valid()
    }

    fn wire_size() -> (n: usize) {
        1
    }

    fn write_wire(&self, out: &mut Vec<u8>) {
        let ghost start = out@;
        self.lock_state_id.write_wire(out);
        proof {
            assert(out@ =~= start + self.spec_wire());
        }
    }

    fn read_wire(buf: &'a [u8], pos: usize) -> (r: Option<Self>) {
        let _len = buf.len();
        let ghost bytes = buf@.subrange(pos as int, pos + 1);
        proof {
            assert(bytes.subrange(0, 1) =~= buf@.subrange(pos + 0, pos + 1));
        }
        let v0 = match <u8 as FixedWire>::read_wire(buf, pos) {
            Some(v) => v,
            None => return None,
        };
        Some(GetLockStateDescriptionRequest { lock_state_id: v0 })
    }

    proof fn lemma_wire(&self) {
        self.lock_state_id.lemma_wire();
        let w = self.spec_wire();
        assert(w.subrange(0, 1) =~= self.lock_state_id.spec_wire());
        if self.spec_wire_valid() {
            assert(<u8 as FixedWire>::spec_read(w.subrange(0, 1)) == Some(self.lock_state_id));
        }
    }
}

impl GetLockStateDescriptionRequest {
    /// The parameter data of the value.
    pub open spec fn spec_encoding(&self) -> Seq<u8> {
        self.spec_wire()
    }

    /// The value that parameter data stands for, or why it stands for none.
    pub open spec fn spec_decoded(buf: Seq<u8>) -> Result<Self, ParameterDataError> {
        record_decoded::<Self>(buf)
    }

    /// Whether decoding the parameter data gives the value back.
    pub open spec fn spec_encodable(&self) -> bool {
        self.spec_wire_valid()
    }

    pub fn size_of(&self) -> (n: usize)
        ensures
            n == self.spec_encoding().len(),
            n <= 1,
    {
        proof {
            self.lemma_wire();
        }
        Self::wire_size()
    }

    /// Appends the parameter data to `out`.
    pub fn write_encoding(&self, out: &mut Vec<u8>)
        ensures
            final(out)@ == old(out)@ + self.spec_encoding(),
    {
        self.write_wire(out);
    }

    pub fn encode_parameter_data(&self, buf: &mut [u8]) -> (r: Result<usize, ParameterDataError>)
        ensures
            encoded_into(old(buf)@, final(buf)@, self.spec_encoding(), r),
    {
        encode_record(self, buf)
    }

    pub fn decode_parameter_data(buf: &[u8]) -> (r: Result<Self, ParameterDataError>)
        ensures
            r == Self::spec_decoded(buf@),
    {
        decode_record(buf)
    }

    /// Decoding the parameter data of an encodable value gives it back.
    pub proof fn lemma_roundtrip(&self)
        requires
            self.spec_encodable(),
        ensures
            Self::spec_decoded(self.spec_encoding()) == Ok::<Self, ParameterDataError>(*self),
    {
        lemma_record_roundtrip(*self);
    }
}

#[derive(Clone, Copy, Debug, PartialEq, Eq, Structural)]
pub struct SetIdentifyModeRequest {
    pub identify_mode: u8,
}

impl<'a> FixedWire<'a> for SetIdentifyModeRequest {
    open spec fn spec_size() -> nat {
        1
    }

    open spec fn spec_wire(&self) -> Seq<u8> {
        self.identify_mode.spec_wire()
    }

    open spec fn spec_read(bytes: Seq<u8>) -> Option<Self> {
        if <u8 as FixedWire>::spec_read(bytes.subrange(0, 1)) is Some {
            Some(SetIdentifyModeRequest {
                identify_mode: <u8 as FixedWire>::spec_read(bytes.subrange(0, 1)).unwrap(),
            })
        } else {
            None
        }
    }

    open spec fn spec_wire_valid(&self) -> bool {
        self.identify_mode.spec_wire_valid()
    }

    fn wire_size() -> (n: usize) {
        1
    }

    fn write_wire(&self, out: &mut Vec<u8>) {
        let ghost start = out@;
        self.identify_mode.write_wire(out);
        proof {
            assert(out@ =~= start + self.spec_wire());
        }
    }

    fn read_wire(buf: &'a [u8], pos: usize) -> (r: Option<Self>) {
        let _len = buf.len();
        let ghost bytes = buf@.subrange(pos as int, pos + 1);
        proof {
            assert(bytes.subrange(0, 1) =~= buf@.subrange(pos + 0, pos + 1));
        }
        let v0 = match <u8 as FixedWire>::read_wire(buf, pos) {
            Some(v) => v,
            None => return None,
        };
        Some(SetIdentifyModeRequest { identify_mode: v0 })
    }

    proof fn lemma_wire(&self) {
        self.identify_mode.lemma_wire();
        let w = self.spec_wire();
        assert(w.subrange(0, 1) =~= self.identify_mode.spec_wire());
        if self.spec_wire_valid() {
            assert(<u8 as FixedWire>::spec_read(w.subrange(0, 1)) == Some(self.identify_mode));
        }
    }
}

impl SetIdentifyModeRequest {
    /// The parameter data of the value.
    pub open spec fn spec_encoding(&self) -> Seq<u8> {
        self.spec_wire()
    }

    /// The value that parameter data stands for, or why it stands for none.
    pub open spec fn spec_decoded(buf: Seq<u8>) -> Result<Self, ParameterDataError> {
        record_decoded::<Self>(buf)
    }

    /// Whether decoding the parameter data gives the value back.
    pub open spec fn spec_encodable(&self) -> bool {
        self.spec_wire_valid()
    }

    pub fn size_of(&self) -> (n: usize)
        ensures
            n == self.spec_encoding().len(),
            n <= 1,
    {
        proof {
            self.lemma_wire();
        }
        Self::wire_size()
    }

    /// Appends the parameter data to `out`.
    pub fn write_encoding(&self, out: &mut Vec<u8>)
        ensures
            final(out)@ == old(out)@ + self.spec_encoding(),
    {
        self.write_wire(out);
    }

    pub fn encode_parameter_data(&self, buf: &mut [u8]) -> (r: Result<usize, ParameterDataError>)
        ensures
            encoded_into(old(buf)@, final(buf)@, self.spec_encoding(), r),
    {
        encode_record(self, buf)
    }

    pub fn decode_parameter_data(buf: &[u8]) -> (r: Result<Self, ParameterDataError>)
        ensures
            r == Self::spec_decoded(buf@),
    {
        decode_record(buf)
    }

    /// Decoding the parameter data of an encodable value gives it back.
    pub proof fn lemma_roundtrip(&self)
        requires
            self.spec_encodable(),
        ensures
            Self::spec_decoded(self.spec_encoding()) == Ok::<Self, ParameterDataError>(*self),
    {
        lemma_record_roundtrip(*self);
    }
}

#[derive(Clone, Copy, Debug, PartialEq, Eq, Structural)]
pub struct GetPresetStatusRequest {
    pub scene_id: u16,
}

impl<'a> FixedWire<'a> for GetPresetStatusRequest {
    open spec fn spec_size() -> nat {
        2
    }

    open spec fn spec_wire(&self) -> Seq<u8> {
        self.scene_id.spec_wire()
    }

    open spec fn spec_read(bytes: Seq<u8>) -> Option<Self> {
        if <u16 as FixedWire>::spec_read(bytes.subrange(0, 2)) is Some {
            Some(GetPresetStatusRequest {
                scene_id: <u16 as FixedWire>::spec_read(bytes.subrange(0, 2)).unwrap(),
            })
        } else {
            None
        }
    }

    open spec fn spec_wire_valid(&self) -> bool {
        self.scene_id.spec_wire_valid()
    }

    fn wire_size() -> (n: usize) {
        2
    }

    fn write_wire(&self, out: &mut Vec<u8>) {
        let ghost start = out@;
        self.scene_id.write_wire(out);
        proof {
            assert(out@ =~= start + self.spec_wire());
        }
    }

    fn read_wire(buf: &'a [u8], pos: usize) -> (r: Option<Self>) {
        let _len = buf.len();
        let ghost bytes = buf@.subrange(pos as int, pos + 2);
        proof {
            assert(bytes.subrange(0, 2) =~= buf@.subrange(pos + 0, pos + 2));
        }
        let v0 = match <u16 as FixedWire>::read_wire(buf, pos) {
            Some(v) => v,
            None => return None,
        };
        Some(GetPresetStatusRequest { scene_id: v0 })
    }

    proof fn lemma_wire(&self) {
        self.scene_id.lemma_wire();
        let w = self.spec_wire();
        assert(w.subrange(0, 2) =~= self.scene_id.spec_wire());
        if self.spec_wire_valid() {
            assert(<u16 as FixedWire>::spec_read(w.subrange(0, 2)) == Some(self.scene_id));
        }
    }
}

impl GetPresetStatusRequest {
    /// The parameter data of the value.
    pub open spec fn spec_encoding(&self) -> Seq<u8> {
        self.spec_wire()
    }

    /// The value that parameter data stands for, or why it stands for none.
    pub open spec fn spec_decoded(buf: Seq<u8>) -> Result<Self, ParameterDataError> {
        record_decoded::<Self>(buf)
    }

    /// Whether decoding the parameter data gives the value back.
    pub open spec fn spec_encodable(&self) -> bool {
        self.spec_wire_valid()
    }

    pub fn size_of(&self) -> (n: usize)
        ensures
            n == self.spec_encoding().len(),
            n <= 2,
    {
        proof {
            self.lemma_wire();
        }
        Self::wire_size()
    }

    /// Appends the parameter data to `out`.
    pub fn write_encoding(&self, out: &mut Vec<u8>)
        ensures
            final(out)@ == old(out)@ + self.spec_encoding(),
    {
        self.write_wire(out);
    }

    pub fn encode_parameter_data(&self, buf: &mut [u8]) -> (r: Result<usize, ParameterDataError>)
        ensures
            encoded_into(old(buf)@, final(buf)@, self.spec_encoding(), r),
    {
        encode_record(self, buf)
    }

    pub fn decode_parameter_data(buf: &[u8]) -> (r: Result<Self, ParameterDataError>)
        ensures
            r == Self::spec_decoded(buf@),
    {
        decode_record(buf)
    }

    /// Decoding the parameter data of an encodable value gives it back.
    pub proof fn lemma_roundtrip(&self)
        requires
            self.spec_encodable(),
        ensures
            Self::spec_decoded(self.spec_encoding()) == Ok::<Self, ParameterDataError>(*self),
    {
        lemma_record_roundtrip(*self);
    }
}

#[derive(Clone, Copy, Debug, PartialEq, Eq, Structural)]
pub struct SetPresetStatusRequest {
    pub scene_id: u16,
    pub up_fade_time: u16,
    pub down_fade_time: u16,
    pub wait_time: u16,
    pub clear_preset: bool,
}

impl<'a> FixedWire<'a> for SetPresetStatusRequest {
    open spec fn spec_size() -> nat {
        9
    }

    open spec fn spec_wire(&self) -> Seq<u8> {
        self.scene_id.spec_wire() + self.up_fade_time.spec_wire() + self.down_fade_time.spec_wire() + self.wait_time.spec_wire() + self.clear_preset.spec_wire()
    }

    open spec fn spec_read(bytes: Seq<u8>) -> Option<Self> {
        if <u16 as FixedWire>::spec_read(bytes.subrange(0, 2)) is Some
            && <u16 as FixedWire>::spec_read(bytes.subrange(2, 4)) is Some
            && <u16 as FixedWire>::spec_read(bytes.subrange(4, 6)) is Some
            && <u16 as FixedWire>::spec_read(bytes.subrange(6, 8)) is Some
            && <bool as FixedWire>::spec_read(bytes.subrange(8, 9)) is Some {
            Some(SetPresetStatusRequest {
                scene_id: <u16 as FixedWire>::spec_read(bytes.subrange(0, 2)).unwrap(),
                up_fade_time: <u16 as FixedWire>::spec_read(bytes.subrange(2, 4)).unwrap(),
                down_fade_time: <u16 as FixedWire>::spec_read(bytes.subrange(4, 6)).unwrap(),
                wait_time: <u16 as FixedWire>::spec_read(bytes.subrange(6, 8)).unwrap(),
                clear_preset: <bool as FixedWire>::spec_read(bytes.subrange(8, 9)).unwrap(),
            })
        } else {
            None
        }
    }

    open spec fn spec_wire_valid(&self) -> bool {
        self.scene_id.spec_wire_valid() && self.up_fade_time.spec_wire_valid() && self.down_fade_time.spec_wire_valid() && self.wait_time.spec_wire_valid() && self.clear_preset.spec_wire_valid()
    }

    fn wire_size() -> (n: usize) {
        9
    }

    fn write_wire(&self, out: &mut Vec<u8>) {
        let ghost start = out@;
        self.scene_id.write_wire(out);
        self.up_fade_time.write_wire(out);
        self.down_fade_time.write_wire(out);
        self.wait_time.write_wire(out);
        self.clear_preset.write_wire(out);
        proof {
            assert(out@ =~= start + self.spec_wire());
        }
    }

    fn read_wire(buf: &'a [u8], pos: usize) -> (r: Option<Self>) {
        let _len = buf.len();
        let ghost bytes = buf@.subrange(pos as int, pos + 9);
        proof {
            assert(bytes.subrange(0, 2) =~= buf@.subrange(pos + 0, pos + 2));
            assert(bytes.subrange(2, 4) =~= buf@.subrange(pos + 2, pos + 4));
            assert(bytes.subrange(4, 6) =~= buf@.subrange(pos + 4, pos + 6));
            assert(bytes.subrange(6, 8) =~= buf@.subrange(pos + 6, pos + 8));
            assert(bytes.subrange(8, 9) =~= buf@.subrange(pos + 8, pos + 9));
        }
        let v0 = match <u16 as FixedWire>::read_wire(buf, pos) {
            Some(v) => v,
            None => return None,
        };
        let v1 = match <u16 as FixedWire>::read_wire(buf, pos + 2) {
            Some(v) => v,
            None => return None,
        };
        let v2 = match <u16 as FixedWire>::read_wire(buf, pos + 4) {
            Some(v) => v,
            None => return None,
        };
        let v3 = match <u16 as FixedWire>::read_wire(buf, pos + 6) {
            Some(v) => v,
            None => return None,
        };
        let v4 = match <bool as FixedWire>::read_wire(buf, pos + 8) {
            Some(v) => v,
            None => return None,
        };
        Some(SetPresetStatusRequest { scene_id: v0, up_fade_time: v1, down_fade_time: v2, wait_time: v3, clear_preset: v4 })
    }

    proof fn lemma_wire(&self) {
        self.scene_id.lemma_wire();
        self.up_fade_time.lemma_wire();
        self.down_fade_time.lemma_wire();
        self.wait_time.lemma_wire();
        self.clear_preset.lemma_wire();
        let w = self.spec_wire();
        assert(w.subrange(0, 2) =~= self.scene_id.spec_wire());
        assert(w.subrange(2, 4) =~= self.up_fade_time.spec_wire());
        assert(w.subrange(4, 6) =~= self.down_fade_time.spec_wire());
        assert(w.subrange(6, 8) =~= self.wait_time.spec_wire());
        assert(w.subrange(8, 9) =~= self.clear_preset.spec_wire());
        if self.spec_wire_valid() {
            assert(<u16 as FixedWire>::spec_read(w.subrange(0, 2)) == Some(self.scene_id));
            assert(<u16 as FixedWire>::spec_read(w.subrange(2, 4)) == Some(self.up_fade_time));
            assert(<u16 as FixedWire>::spec_read(w.subrange(4, 6)) == Some(self.down_fade_time));
            assert(<u16 as FixedWire>::spec_read(w.subrange(6, 8)) == Some(self.wait_time));
            assert(<bool as FixedWire>::spec_read(w.subrange(8, 9)) == Some(self.clear_preset));
        }
    }
}

impl SetPresetStatusRequest {
    /// The parameter data of the value.
    pub open spec fn spec_encoding(&self) -> Seq<u8> {
        self.spec_wire()
    }

    /// The value that parameter data stands for, or why it stands for none.
    pub open spec fn spec_decoded(buf: Seq<u8>) -> Result<Self, ParameterDataError> {
        record_decoded::<Self>(buf)
    }

    /// Whether decoding the parameter data gives the value back.
    pub open spec fn spec_encodable(&self) -> bool {
        self.spec_wire_valid()
    }

    pub fn size_of(&self) -> (n: usize)
        ensures
            n == self.spec_encoding().len(),
            n <= 9,
    {
        proof {
            self.lemma_wire();
        }
        Self::wire_size()
    }

    /// Appends the parameter data to `out`.
    pub fn write_encoding(&self, out: &mut Vec<u8>)
        ensures
            final(out)@ == old(out)@ + self.spec_encoding(),
    {
        self.write_wire(out);
    }

    pub fn encode_parameter_data(&self, buf: &mut [u8]) -> (r: Result<usize, ParameterDataError>)
        ensures
            encoded_into(old(buf)@, final(buf)@, self.spec_encoding(), r),
    {
        encode_record(self, buf)
    }

    pub fn decode_parameter_data(buf: &[u8]) -> (r: Result<Self, ParameterDataError>)
        ensures
            r == Self::spec_decoded(buf@),
    {
        decode_record(buf)
    }

    /// Decoding the parameter data of an encodable value gives it back.
    pub proof fn lemma_roundtrip(&self)
        requires
            self.spec_encodable(),
        ensures
            Self::spec_decoded(self.spec_encoding()) == Ok::<Self, ParameterDataError>(*self),
    {
        lemma_record_roundtrip(*self);
    }
}

#[derive(Clone, Copy, Debug, PartialEq, Eq, Structural)]
pub struct SetPresetMergeModeRequest {
    pub merge_mode: MergeMode,
}

impl<'a> FixedWire<'a> for SetPresetMergeModeRequest {
    open spec fn spec_size() -> nat {
        1
    }

    open spec fn spec_wire(&self) -> Seq<u8> {
        self.merge_mode.spec_wire()
    }

    open spec fn spec_read(bytes: Seq<u8>) -> Option<Self> {
        if <MergeMode as FixedWire>::spec_read(bytes.subrange(0, 1)) is Some {
            Some(SetPresetMergeModeRequest {
                merge_mode: <MergeMode as FixedWire>::spec_read(bytes.subrange(0, 1)).unwrap(),
            })
        } else {
            None
        }
    }

    open spec fn spec_wire_valid(&self) -> bool {
        self.merge_mode.spec_wire_valid()
    }

    fn wire_size() -> (n: usize) {
        1
    }

    fn write_wire(&self, out: &mut Vec<u8>) {
        let ghost start = out@;
        self.merge_mode.write_wire(out);
        proof {
            assert(out@ =~= start + self.spec_wire());
        }
    }

    fn read_wire(buf: &'a [u8], pos: usize) -> (r: Option<Self>) {
        let _len = buf.len();
        let ghost bytes = buf@.subrange(pos as int, pos + 1);
        proof {
            assert(bytes.subrange(0, 1) =~= buf@.subrange(pos + 0, pos + 1));
        }
        let v0 = match <MergeMode as FixedWire>::read_wire(buf, pos) {
            Some(v) => v,
            None => return None,
        };
        Some(SetPresetMergeModeRequest { merge_mode: v0 })
    }

    proof fn lemma_wire(&self) {
        self.merge_mode.lemma_wire();
        let w = self.spec_wire();
        assert(w.subrange(0, 1) =~= self.merge_mode.spec_wire());
        if self.spec_wire_valid() {
            assert(<MergeMode as FixedWire>::spec_read(w.subrange(0, 1)) == Some(self.merge_mode));
        }
    }
}

impl SetPresetMergeModeRequest {
    /// The parameter data of the value.
    pub open spec fn spec_encoding(&self) -> Seq<u8> {
        self.spec_wire()
    }

    /// The value that parameter data stands for, or why it stands for none.
    pub open spec fn spec_decoded(buf: Seq<u8>) -> Result<Self, ParameterDataError> {
        record_decoded::<Self>(buf)
    }

    /// Whether decoding the parameter data gives the value back.
    pub open spec fn spec_encodable(&self) -> bool {
        self.spec_wire_valid()
    }

    pub fn size_of(&self) -> (n: usize)
        ensures
            n == self.spec_encoding().len(),
            n <= 1,
    {
        proof {
            self.lemma_wire();
        }
        Self::wire_size()
    }

    /// Appends the parameter data to `out`.
    pub fn write_encoding(&self, out: &mut Vec<u8>)
        ensures
            final(out)@ == old(out)@ + self.spec_encoding(),
    {
        self.write_wire(out);
    }

    pub fn encode_parameter_data(&self, buf: &mut [u8]) -> (r: Result<usize, ParameterDataError>)
        ensures
            encoded_into(old(buf)@, final(buf)@, self.spec_encoding(), r),
    {
        encode_record(self, buf)
    }

    pub fn decode_parameter_data(buf: &[u8]) -> (r: Result<Self, ParameterDataError>)
        ensures
            r == Self::spec_decoded(buf@),
    {
        decode_record(buf)
    }

    /// Decoding the parameter data of an encodable value gives it back.
    pub proof fn lemma_roundtrip(&self)
        requires
            self.spec_encodable(),
        ensures
            Self::spec_decoded(self.spec_encoding()) == Ok::<Self, ParameterDataError>(*self),
    {
        lemma_record_roundtrip(*self);
    }
}

#[derive(Clone, Copy, Debug, PartialEq, Eq, Structural)]
pub struct SetPowerOnSelfTestRequest {
    pub self_test_id: SelfTest,
}

impl<'a> FixedWire<'a> for SetPowerOnSelfTestRequest {
    open spec fn spec_size() -> nat {
        1
    }

    open spec fn spec_wire(&self) -> Seq<u8> {
        self.self_test_id.spec_wire()
    }

    open spec fn spec_read(bytes: Seq<u8>) -> Option<Self> {
        if <SelfTest as FixedWire>::spec_read(bytes.subrange(0, 1)) is Some {
            Some(SetPowerOnSelfTestRequest {
                self_test_id: <SelfTest as FixedWire>::spec_read(bytes.subrange(0, 1)).unwrap(),
            })
        } else {
            None
        }
    }

    open spec fn spec_wire_valid(&self) -> bool {
        self.self_test_id.spec_wire_valid()
    }

    fn wire_size() -> (n: usize) {
        1
    }

    fn write_wire(&self, out: &mut Vec<u8>) {
        let ghost start = out@;
        self.self_test_id.write_wire(out);
        proof {
            assert(out@ =~= start + self.spec_wire());
        }
    }

    fn read_wire(buf: &'a [u8], pos: usize) -> (r: Option<Self>) {
        let _len = buf.len();
        let ghost bytes = buf@.subrange(pos as int, pos + 1);
        proof {
            assert(bytes.subrange(0, 1) =~= buf@.subrange(pos + 0, pos + 1));
        }
        let v0 = match <SelfTest as FixedWire>::read_wire(buf, pos) {
            Some(v) => v,
            None => return None,
        };
        Some(SetPowerOnSelfTestRequest { self_test_id: v0 })
    }

    proof fn lemma_wire(&self) {
        self.self_test_id.lemma_wire();
        let w = self.spec_wire();
        assert(w.subrange(0, 1) =~= self.self_test_id.spec_wire());
        if self.spec_wire_valid() {
            assert(<SelfTest as FixedWire>::spec_read(w.subrange(0, 1)) == Some(self.self_test_id));
        }
    }
}

impl SetPowerOnSelfTestRequest {
    /// The parameter data of the value.
    pub open spec fn spec_encoding(&self) -> Seq<u8> {
        self.spec_wire()
    }

    /// The value that parameter data stands for, or why it stands for none.
    pub open spec fn spec_decoded(buf: Seq<u8>) -> Result<Self, ParameterDataError> {
        record_decoded::<Self>(buf)
    }

    /// Whether decoding the parameter data gives the value back.
    pub open spec fn spec_encodable(&self) -> bool {
        self.spec_wire_valid()
    }

    pub fn size_of(&self) -> (n: usize)
        ensures
            n == self.spec_encoding().len(),
            n <= 1,
    {
        proof {
            self.lemma_wire();
        }
        Self::wire_size()
    }

    /// Appends the parameter data to `out`.
    pub fn write_encoding(&self, out: &mut Vec<u8>)
        ensures
            final(out)@ == old(out)@ + self.spec_encoding(),
    {
        self.write_wire(out);
    }

    pub fn encode_parameter_data(&self, buf: &mut [u8]) -> (r: Result<usize, ParameterDataError>)
        ensures
            encoded_into(old(buf)@, final(buf)@, self.spec_encoding(), r),
    {
        encode_record(self, buf)
    }

    pub fn decode_parameter_data(buf: &[u8]) -> (r: Result<Self, ParameterDataError>)
        ensures
            r == Self::spec_decoded(buf@),
    {
        decode_record(buf)
    }

    /// Decoding the parameter data of an encodable value gives it back.
    pub proof fn lemma_roundtrip(&self)
        requires
            self.spec_encodable(),
        ensures
            Self::spec_decoded(self.spec_encoding()) == Ok::<Self, ParameterDataError>(*self),
    {
        lemma_record_roundtrip(*self);
    }
}

} // verus!
