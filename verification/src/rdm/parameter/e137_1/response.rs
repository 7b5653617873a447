//! Parameter data of the E137-1 responses.

use crate::rdm::error::{ParameterDataError};
use crate::rdm::utils::{copy_encoded, encoded_into};
use crate::rdm::wire::{decode_record, encode_record, lemma_record_roundtrip, record_decoded, too_short, FixedWire};
use vstd::prelude::*;
use vstd::std_specs::convert::{FromSpecImpl, TryFromSpecImpl};
use vstd::string::StringSliceAdditionalSpecFns;
use crate::rdm::parameter::e120::{PresetPlaybackMode};
use crate::rdm::parameter::e137_1::{CurveDescription, LockStateDescription, MergeMode, ModulationFrequencyDescription, OutputResponseTimeDescription, PinCode, PresetProgrammed, SupportedTimes, TimeMode};

verus! {

broadcast use vstd::array::group_array_axioms;

#[derive(Clone, Copy, Debug, PartialEq, Eq, Structural)]
pub struct GetDmxBlockAddressResponse {
    pub total_sub_device_footprint: u16,
    pub base_dmx_address: u16,
}

impl<'a> FixedWire<'a> for GetDmxBlockAddressResponse {
    open spec fn spec_size() -> nat {
        4
    }

    open spec fn spec_wire(&self) -> Seq<u8> {
        self.total_sub_device_footprint.spec_wire() + self.base_dmx_address.spec_wire()
    }

    open spec fn spec_read(bytes: Seq<u8>) -> Option<Self> {
        if <u16 as FixedWire>::spec_read(bytes.subrange(0, 2)) is Some
            && <u16 as FixedWire>::spec_read(bytes.subrange(2, 4)) is Some {
            Some(GetDmxBlockAddressResponse {
                total_sub_device_footprint: <u16 as FixedWire>::spec_read(bytes.subrange(0, 2)).unwrap(),
                base_dmx_address: <u16 as FixedWire>::spec_read(bytes.subrange(2, 4)).unwrap(),
            })
        } else {
            None
        }
    }

    open spec fn spec_wire_valid(&self) -> bool {
        self.total_sub_device_footprint.spec_wire_valid() && self.base_dmx_address.spec_wire_valid()
    }

    fn wire_size() -> (n: usize) {
        4
    }

    fn write_wire(&self, out: &mut Vec<u8>) {
        let ghost start = out@;
        self.total_sub_device_footprint.write_wire(out);
        self.base_dmx_address.write_wire(out);
        proof {
            assert(out@ =~= start + self.spec_wire());
        }
    }

    fn read_wire(buf: &'a [u8], pos: usize) -> (r: Option<Self>) {
        let _len = buf.len();
        let ghost bytes = buf@.subrange(pos as int, pos + 4);
        proof {
            assert(bytes.subrange(0, 2) =~= buf@.subrange(pos + 0, pos + 2));
            assert(bytes.subrange(2, 4) =~= buf@.subrange(pos + 2, pos + 4));
        }
        let v0 = match <u16 as FixedWire>::read_wire(buf, pos) {
            Some(v) => v,
            None => return None,
        };
        let v1 = match <u16 as FixedWire>::read_wire(buf, pos + 2) {
            Some(v) => v,
            None => return None,
        };
        Some(GetDmxBlockAddressResponse { total_sub_device_footprint: v0, base_dmx_address: v1 })
    }

    proof fn lemma_wire(&self) {
        self.total_sub_device_footprint.lemma_wire();
        self.base_dmx_address.lemma_wire();
        let w = self.spec_wire();
        assert(w.subrange(0, 2) =~= self.total_sub_device_footprint.spec_wire());
        assert(w.subrange(2, 4) =~= self.base_dmx_address.spec_wire());
        if self.spec_wire_valid() {
            assert(<u16 as FixedWire>::spec_read(w.subrange(0, 2)) == Some(self.total_sub_device_footprint));
            assert(<u16 as FixedWire>::spec_read(w.subrange(2, 4)) == Some(self.base_dmx_address));
        }
    }
}

impl GetDmxBlockAddressResponse {
    /// The parameter data of the value.
    pub open spec fn spec_encoding(&self) -> Seq<u8> {
        self.spec_wire()
    }

    /// The value that parameter data stands for, or why it stands for none.
    pub open spec fn spec_decoded(buf: Seq<u8>) -> Result<Self, ParameterDataError> {
        record_decoded::<Self>(buf)
    }

    /// Whether decoding the parameter data gives the value back.
    pub open spec fn spec_encodable(&self) -> bool {
        self.spec_wire_valid()
    }

    pub fn size_of(&self) -> (n: usize)
        ensures
            n == self.spec_encoding().len(),
            n <= 4,
    {
        proof {
            self.lemma_wire();
        }
        Self::wire_size()
    }

    /// Appends the parameter data to `out`.
    pub fn write_encoding(&self, out: &mut Vec<u8>)
        ensures
            final(out)@ == old(out)@ + self.spec_encoding(),
    {
        self.write_wire(out);
    }

    pub fn encode_parameter_data(&self, buf: &mut [u8]) -> (r: Result<usize, ParameterDataError>)
        ensures
            encoded_into(old(buf)@, final(buf)@, self.spec_encoding(), r),
    {
        encode_record(self, buf)
    }

    pub fn decode_parameter_data(buf: &[u8]) -> (r: Result<Self, ParameterDataError>)
        ensures
            r == Self::spec_decoded(buf@),
    {
        decode_record(buf)
    }

    /// Decoding the parameter data of an encodable value gives it back.
    pub proof fn lemma_roundtrip(&self)
        requires
            self.spec_encodable(),
        ensures
            Self::spec_decoded(self.spec_encoding()) == Ok::<Self, ParameterDataError>(*self),
    {
        lemma_record_roundtrip(*self);
    }
}

#[derive(Clone, Copy, Debug, PartialEq, Eq, Structural)]
pub struct GetDmxFailModeResponse {
    pub scene_id: PresetPlaybackMode,
    pub loss_of_signal_delay: TimeMode,
    pub hold_time: TimeMode,
    pub level: u8,
}

impl<'a> FixedWire<'a> for GetDmxFailModeResponse {
    open spec fn spec_size() -> nat {
        7
    }

    open spec fn spec_wire(&self) -> Seq<u8> {
        self.scene_id.spec_wire() + self.loss_of_signal_delay.spec_wire() + self.hold_time.spec_wire() + self.level.spec_wire()
    }

    open spec fn spec_read(bytes: Seq<u8>) -> Option<Self> {
        if <PresetPlaybackMode as FixedWire>::spec_read(bytes.subrange(0, 2)) is Some
            && <TimeMode as FixedWire>::spec_read(bytes.subrange(2, 4)) is Some
            && <TimeMode as FixedWire>::spec_read(bytes.subrange(4, 6)) is Some
            && <u8 as FixedWire>::spec_read(bytes.subrange(6, 7)) is Some {
            Some(GetDmxFailModeResponse {
                scene_id: <PresetPlaybackMode as FixedWire>::spec_read(bytes.subrange(0, 2)).unwrap(),
                loss_of_signal_delay: <TimeMode as FixedWire>::spec_read(bytes.subrange(2, 4)).unwrap(),
                hold_time: <TimeMode as FixedWire>::spec_read(bytes.subrange(4, 6)).unwrap(),
                level: <u8 as FixedWire>::spec_read(bytes.subrange(6, 7)).unwrap(),
            })
        } else {
            None
        }
    }

    open spec fn spec_wire_valid(&self) -> bool {
        self.scene_id.spec_wire_valid() && self.loss_of_signal_delay.spec_wire_valid() && self.hold_time.spec_wire_valid() && self.level.spec_wire_valid()
    }

    fn wire_size() -> (n: usize) {
        7
    }

    fn write_wire(&self, out: &mut Vec<u8>) {
        let ghost start = out@;
        self.scene_id.write_wire(out);
        self.loss_of_signal_delay.write_wire(out);
        self.hold_time.write_wire(out);
        self.level.write_wire(out);
        proof {
            assert(out@ =~= start + self.spec_wire());
        }
    }

    fn read_wire(buf: &'a [u8], pos: usize) -> (r: Option<Self>) {
        let _len = buf.len();
        let ghost bytes = buf@.subrange(pos as int, pos + 7);
        proof {
            assert(bytes.subrange(0, 2) =~= buf@.subrange(pos + 0, pos + 2));
            assert(bytes.subrange(2, 4) =~= buf@.subrange(pos + 2, pos + 4));
            assert(bytes.subrange(4, 6) =~= buf@.subrange(pos + 4, pos + 6));
            assert(bytes.subrange(6, 7) =~= buf@.subrange(pos + 6, pos + 7));
        }
        let v0 = match <PresetPlaybackMode as FixedWire>::read_wire(buf, pos) {
            Some(v) => v,
            None => return None,
        };
        let v1 = match <TimeMode as FixedWire>::read_wire(buf, pos + 2) {
            Some(v) => v,
            None => return None,
        };
        let v2 = match <TimeMode as FixedWire>::read_wire(buf, pos + 4) {
            Some(v) => v,
            None => return None,
        };
        let v3 = match <u8 as FixedWire>::read_wire(buf, pos + 6) {
            Some(v) => v,
            None => return None,
        };
        Some(GetDmxFailModeResponse { scene_id: v0, loss_of_signal_delay: v1, hold_time: v2, level: v3 })
    }

    proof fn lemma_wire(&self) {
        self.scene_id.lemma_wire();
        self.loss_of_signal_delay.lemma_wire();
        self.hold_time.lemma_wire();
        self.level.lemma_wire();
        let w = self.spec_wire();
        assert(w.subrange(0, 2) =~= self.scene_id.spec_wire());
        assert(w.subrange(2, 4) =~= self.loss_of_signal_delay.spec_wire());
        assert(w.subrange(4, 6) =~= self.hold_time.spec_wire());
        assert(w.subrange(6, 7) =~= self.level.spec_wire());
        if self.spec_wire_valid() {
            assert(<PresetPlaybackMode as FixedWire>::spec_read(w.subrange(0, 2)) == Some(self.scene_id));
            assert(<TimeMode as FixedWire>::spec_read(w.subrange(2, 4)) == Some(self.loss_of_signal_delay));
            assert(<TimeMode as FixedWire>::spec_read(w.subrange(4, 6)) == Some(self.hold_time));
            assert(<u8 as FixedWire>::spec_read(w.subrange(6, 7)) == Some(self.level));
        }
    }
}

impl GetDmxFailModeResponse {
    /// The parameter data of the value.
    pub open spec fn spec_encoding(&self) -> Seq<u8> {
        self.spec_wire()
    }

    /// The value that parameter data stands for, or why it stands for none.
    pub open spec fn spec_decoded(buf: Seq<u8>) -> Result<Self, ParameterDataError> {
        record_decoded::<Self>(buf)
    }

    /// Whether decoding the parameter data gives the value back.
    pub open spec fn spec_encodable(&self) -> bool {
        self.spec_wire_valid()
    }

    pub fn size_of(&self) -> (n: usize)
        ensures
            n == self.spec_encoding().len(),
            n <= 7,
    {
        proof {
            self.lemma_wire();
        }
        Self::wire_size()
    }

    /// Appends the parameter data to `out`.
    pub fn write_encoding(&self, out: &mut Vec<u8>)
        ensures
            final(out)@ == old(out)@ + self.spec_encoding(),
    {
        self.write_wire(out);
    }

    pub fn encode_parameter_data(&self, buf: &mut [u8]) -> (r: Result<usize, ParameterDataError>)
        ensures
            encoded_into(old(buf)@, final(buf)@, self.spec_encoding(), r),
    {
        encode_record(self, buf)
    }

    pub fn decode_parameter_data(buf: &[u8]) -> (r: Result<Self, ParameterDataError>)
        ensures
            r == Self::spec_decoded(buf@),
    {
        decode_record(buf)
    }

    /// Decoding the parameter data of an encodable value gives it back.
    pub proof fn lemma_roundtrip(&self)
        requires
            self.spec_encodable(),
        ensures
            Self::spec_decoded(self.spec_encoding()) == Ok::<Self, ParameterDataError>(*self),
    {
        lemma_record_roundtrip(*self);
    }
}

#[derive(Clone, Copy, Debug, PartialEq, Eq, Structural)]
pub struct GetDmxStartupModeResponse {
    pub scene_id: PresetPlaybackMode,
    pub startup_delay: TimeMode,
    pub hold_time: TimeMode,
    pub level: u8,
}

impl<'a> FixedWire<'a> for GetDmxStartupModeResponse {
    open spec fn spec_size() -> nat {
        7
    }

    open spec fn spec_wire(&self) -> Seq<u8> {
        self.scene_id.spec_wire() + self.startup_delay.spec_wire() + self.hold_time.spec_wire() + self.level.spec_wire()
    }

    open spec fn spec_read(bytes: Seq<u8>) -> Option<Self> {
        if <PresetPlaybackMode as FixedWire>::spec_read(bytes.subrange(0, 2)) is Some
            && <TimeMode as FixedWire>::spec_read(bytes.subrange(2, 4)) is Some
            && <TimeMode as FixedWire>::spec_read(bytes.subrange(4, 6)) is Some
            && <u8 as FixedWire>::spec_read(bytes.subrange(6, 7)) is Some {
            Some(GetDmxStartupModeResponse {
                scene_id: <PresetPlaybackMode as FixedWire>::spec_read(bytes.subrange(0, 2)).unwrap(),
                startup_delay: <TimeMode as FixedWire>::spec_read(bytes.subrange(2, 4)).unwrap(),
                hold_time: <TimeMode as FixedWire>::spec_read(bytes.subrange(4, 6)).unwrap(),
                level: <u8 as FixedWire>::spec_read(bytes.subrange(6, 7)).unwrap(),
            })
        } else {
            None
        }
    }

    open spec fn spec_wire_valid(&self) -> bool {
        self.scene_id.spec_wire_valid() && self.startup_delay.spec_wire_valid() && self.hold_time.spec_wire_valid() && self.level.spec_wire_valid()
    }

    fn wire_size() -> (n: usize) {
        7
    }

    fn write_wire(&self, out: &mut Vec<u8>) {
        let ghost start = out@;
        self.scene_id.write_wire(out);
        self.startup_delay.write_wire(out);
        self.hold_time.write_wire(out);
        self.level.write_wire(out);
        proof {
            assert(out@ =~= start + self.spec_wire());
        }
    }

    fn read_wire(buf: &'a [u8], pos: usize) -> (r: Option<Self>) {
        let _len = buf.len();
        let ghost bytes = buf@.subrange(pos as int, pos + 7);
        proof {
            assert(bytes.subrange(0, 2) =~= buf@.subrange(pos + 0, pos + 2));
            assert(bytes.subrange(2, 4) =~= buf@.subrange(pos + 2, pos + 4));
            assert(bytes.subrange(4, 6) =~= buf@.subrange(pos + 4, pos + 6));
            assert(bytes.subrange(6, 7) =~= buf@.subrange(pos + 6, pos + 7));
        }
        let v0 = match <PresetPlaybackMode as FixedWire>::read_wire(buf, pos) {
            Some(v) => v,
            None => return None,
        };
        let v1 = match <TimeMode as FixedWire>::read_wire(buf, pos + 2) {
            Some(v) => v,
            None => return None,
        };
        let v2 = match <TimeMode as FixedWire>::read_wire(buf, pos + 4) {
            Some(v) => v,
            None => return None,
        };
        let v3 = match <u8 as FixedWire>::read_wire(buf, pos + 6) {
            Some(v) => v,
            None => return None,
        };
        Some(GetDmxStartupModeResponse { scene_id: v0, startup_delay: v1, hold_time: v2, level: v3 })
    }

    proof fn lemma_wire(&self) {
        self.scene_id.lemma_wire();
        self.startup_delay.lemma_wire();
        self.hold_time.lemma_wire();
        self.level.lemma_wire();
        let w = self.spec_wire();
        assert(w.subrange(0, 2) =~= self.scene_id.spec_wire());
        assert(w.subrange(2, 4) =~= self.startup_delay.spec_wire());
        assert(w.subrange(4, 6) =~= self.hold_time.spec_wire());
        assert(w.subrange(6, 7) =~= self.level.spec_wire());
        if self.spec_wire_valid() {
            assert(<PresetPlaybackMode as FixedWire>::spec_read(w.subrange(0, 2)) == Some(self.scene_id));
            assert(<TimeMode as FixedWire>::spec_read(w.subrange(2, 4)) == Some(self.startup_delay));
            assert(<TimeMode as FixedWire>::spec_read(w.subrange(4, 6)) == Some(self.hold_time));
            assert(<u8 as FixedWire>::spec_read(w.subrange(6, 7)) == Some(self.level));
        }
    }
}

impl GetDmxStartupModeResponse {
    /// The parameter data of the value.
    pub open spec fn spec_encoding(&self) -> Seq<u8> {
        self.spec_wire()
    }

    /// The value that parameter data stands for, or why it stands for none.
    pub open spec fn spec_decoded(buf: Seq<u8>) -> Result<Self, ParameterDataError> {
        record_decoded::<Self>(buf)
    }

    /// Whether decoding the parameter data gives the value back.
    pub open spec fn spec_encodable(&self) -> bool {
        self.spec_wire_valid()
    }

    pub fn size_of(&self) -> (n: usize)
        ensures
            n == self.spec_encoding().len(),
            n <= 7,
    {
        proof {
            self.lemma_wire();
        }
        Self::wire_size()
    }

    /// Appends the parameter data to `out`.
    pub fn write_encoding(&self, out: &mut Vec<u8>)
        ensures
            final(out)@ == old(out)@ + self.spec_encoding(),
    {
        self.write_wire(out);
    }

    pub fn encode_parameter_data(&self, buf: &mut [u8]) -> (r: Result<usize, ParameterDataError>)
        ensures
            encoded_into(old(buf)@, final(buf)@, self.spec_encoding(), r),
    {
        encode_record(self, buf)
    }

    pub fn decode_parameter_data(buf: &[u8]) -> (r: Result<Self, ParameterDataError>)
        ensures
            r == Self::spec_decoded(buf@),
    {
        decode_record(buf)
    }

    /// Decoding the parameter data of an encodable value gives it back.
    pub proof fn lemma_roundtrip(&self)
        requires
            self.spec_encodable(),
        ensures
            Self::spec_decoded(self.spec_encoding()) == Ok::<Self, ParameterDataError>(*self),
    {
        lemma_record_roundtrip(*self);
    }
}

#[derive(Clone, Copy, Debug, PartialEq, Eq, Structural)]
pub struct GetDimmerInfoResponse {
    pub minimum_level_lower_limit: u16,
    pub minimum_level_upper_limit: u16,
    pub maximum_level_lower_limit: u16,
    pub maximum_level_upper_limit: u16,
    pub number_of_supported_curves: u8,
    pub levels_resolution: u8,
    pub minimum_level_split_levels_supported: bool,
}

impl<'a> FixedWire<'a> for GetDimmerInfoResponse {
    open spec fn spec_size() -> nat {
        11
    }

    open spec fn spec_wire(&self) -> Seq<u8> {
        self.minimum_level_lower_limit.spec_wire() + self.minimum_level_upper_limit.spec_wire() + self.maximum_level_lower_limit.spec_wire() + self.maximum_level_upper_limit.spec_wire() + self.number_of_supported_curves.spec_wire() + self.levels_resolution.spec_wire() + self.minimum_level_split_levels_supported.spec_wire()
    }

    open spec fn spec_read(bytes: Seq<u8>) -> Option<Self> {
        if <u16 as FixedWire>::spec_read(bytes.subrange(0, 2)) is Some
            && <u16 as FixedWire>::spec_read(bytes.subrange(2, 4)) is Some
            && <u16 as FixedWire>::spec_read(bytes.subrange(4, 6)) is Some
            && <u16 as FixedWire>::spec_read(bytes.subrange(6, 8)) is Some
            && <u8 as FixedWire>::spec_read(bytes.subrange(8, 9)) is Some
            && <u8 as FixedWire>::spec_read(bytes.subrange(9, 10)) is Some
            && <bool as FixedWire>::spec_read(bytes.subrange(10, 11)) is Some {
            Some(GetDimmerInfoResponse {
                minimum_level_lower_limit: <u16 as FixedWire>::spec_read(bytes.subrange(0, 2)).unwrap(),
                minimum_level_upper_limit: <u16 as FixedWire>::spec_read(bytes.subrange(2, 4)).unwrap(),
                maximum_level_lower_limit: <u16 as FixedWire>::spec_read(bytes.subrange(4, 6)).unwrap(),
                maximum_level_upper_limit: <u16 as FixedWire>::spec_read(bytes.subrange(6, 8)).unwrap(),
                number_of_supported_curves: <u8 as FixedWire>::spec_read(bytes.subrange(8, 9)).unwrap(),
                levels_resolution: <u8 as FixedWire>::spec_read(bytes.subrange(9, 10)).unwrap(),
                minimum_level_split_levels_supported: <bool as FixedWire>::spec_read(bytes.subrange(10, 11)).unwrap(),
            })
        } else {
            None
        }
    }

    open spec fn spec_wire_valid(&self) -> bool {
        self.minimum_level_lower_limit.spec_wire_valid() && self.minimum_level_upper_limit.spec_wire_valid() && self.maximum_level_lower_limit.spec_wire_valid() && self.maximum_level_upper_limit.spec_wire_valid() && self.number_of_supported_curves.spec_wire_valid() && self.levels_resolution.spec_wire_valid() && self.minimum_level_split_levels_supported.spec_wire_valid()
    }

    fn wire_size() -> (n: usize) {
        11
    }

    fn write_wire(&self, out: &mut Vec<u8>) {
        let ghost start = out@;
        self.minimum_level_lower_limit.write_wire(out);
        self.minimum_level_upper_limit.write_wire(out);
        self.maximum_level_lower_limit.write_wire(out);
        self.maximum_level_upper_limit.write_wire(out);
        self.number_of_supported_curves.write_wire(out);
        self.levels_resolution.write_wire(out);
        self.minimum_level_split_levels_supported.write_wire(out);
        proof {
            assert(out@ =~= start + self.spec_wire());
        }
    }

    fn read_wire(buf: &'a [u8], pos: usize) -> (r: Option<Self>) {
        let _len = buf.len();
        let ghost bytes = buf@.subrange(pos as int, pos + 11);
        proof {
            assert(bytes.subrange(0, 2) =~= buf@.subrange(pos + 0, pos + 2));
            assert(bytes.subrange(2, 4) =~= buf@.subrange(pos + 2, pos + 4));
            assert(bytes.subrange(4, 6) =~= buf@.subrange(pos + 4, pos + 6));
            assert(bytes.subrange(6, 8) =~= buf@.subrange(pos + 6, pos + 8));
            assert(bytes.subrange(8, 9) =~= buf@.subrange(pos + 8, pos + 9));
            assert(bytes.subrange(9, 10) =~= buf@.subrange(pos + 9, pos + 10));
            assert(bytes.subrange(10, 11) =~= buf@.subrange(pos + 10, pos + 11));
        }
        let v0 = match <u16 as FixedWire>::read_wire(buf, pos) {
            Some(v) => v,
            None => return None,
        };
        let v1 = match <u16 as FixedWire>::read_wire(buf, pos + 2) {
            Some(v) => v,
            None => return None,
        };
        let v2 = match <u16 as FixedWire>::read_wire(buf, pos + 4) {
            Some(v) => v,
            None => return None,
        };
        let v3 = match <u16 as FixedWire>::read_wire(buf, pos + 6) {
            Some(v) => v,
            None => return None,
        };
        let v4 = match <u8 as FixedWire>::read_wire(buf, pos + 8) {
            Some(v) => v,
            None => return None,
        };
        let v5 = match <u8 as FixedWire>::read_wire(buf, pos + 9) {
            Some(v) => v,
            None => return None,
        };
        let v6 = match <bool as FixedWire>::read_wire(buf, pos + 10) {
            Some(v) => v,
            None => return None,
        };
        Some(GetDimmerInfoResponse { minimum_level_lower_limit: v0, minimum_level_upper_limit: v1, maximum_level_lower_limit: v2, maximum_level_upper_limit: v3, number_of_supported_curves: v4, levels_resolution: v5, minimum_level_split_levels_supported: v6 })
    }

    proof fn lemma_wire(&self) {
        self.minimum_level_lower_limit.lemma_wire();
        self.minimum_level_upper_limit.lemma_wire();
        self.maximum_level_lower_limit.lemma_wire();
        self.maximum_level_upper_limit.lemma_wire();
        self.number_of_supported_curves.lemma_wire();
        self.levels_resolution.lemma_wire();
        self.minimum_level_split_levels_supported.lemma_wire();
        let w = self.spec_wire();
        assert(w.subrange(0, 2) =~= self.minimum_level_lower_limit.spec_wire());
        assert(w.subrange(2, 4) =~= self.minimum_level_upper_limit.spec_wire());
        assert(w.subrange(4, 6) =~= self.maximum_level_lower_limit.spec_wire());
        assert(w.subrange(6, 8) =~= self.maximum_level_upper_limit.spec_wire());
        assert(w.subrange(8, 9) =~= self.number_of_supported_curves.spec_wire());
        assert(w.subrange(9, 10) =~= self.levels_resolution.spec_wire());
        assert(w.subrange(10, 11) =~= self.minimum_level_split_levels_supported.spec_wire());
        if self.spec_wire_valid() {
            assert(<u16 as FixedWire>::spec_read(w.subrange(0, 2)) == Some(self.minimum_level_lower_limit));
            assert(<u16 as FixedWire>::spec_read(w.subrange(2, 4)) == Some(self.minimum_level_upper_limit));
            assert(<u16 as FixedWire>::spec_read(w.subrange(4, 6)) == Some(self.maximum_level_lower_limit));
            assert(<u16 as FixedWire>::spec_read(w.subrange(6, 8)) == Some(self.maximum_level_upper_limit));
            assert(<u8 as FixedWire>::spec_read(w.subrange(8, 9)) == Some(self.number_of_supported_curves));
            assert(<u8 as FixedWire>::spec_read(w.subrange(9, 10)) == Some(self.levels_resolution));
            assert(<bool as FixedWire>::spec_read(w.subrange(10, 11)) == Some(self.minimum_level_split_levels_supported));
        }
    }
}

impl GetDimmerInfoResponse {
    /// The parameter data of the value.
    pub open spec fn spec_encoding(&self) -> Seq<u8> {
        self.spec_wire()
    }

    /// The value that parameter data stands for, or why it stands for none.
    pub open spec fn spec_decoded(buf: Seq<u8>) -> Result<Self, ParameterDataError> {
        record_decoded::<Self>(buf)
    }

    /// Whether decoding the parameter data gives the value back.
    pub open spec fn spec_encodable(&self) -> bool {
        self.spec_wire_valid()
    }

    pub fn size_of(&self) -> (n: usize)
        ensures
            n == self.spec_encoding().len(),
            n <= 11,
    {
        proof {
            self.lemma_wire();
        }
        Self::wire_size()
    }

    /// Appends the parameter data to `out`.
    pub fn write_encoding(&self, out: &mut Vec<u8>)
        ensures
            final(out)@ == old(out)@ + self.spec_encoding(),
    {
        self.write_wire(out);
    }

    pub fn encode_parameter_data(&self, buf: &mut [u8]) -> (r: Result<usize, ParameterDataError>)
        ensures
            encoded_into(old(buf)@, final(buf)@, self.spec_encoding(), r),
    {
        encode_record(self, buf)
    }

    pub fn decode_parameter_data(buf: &[u8]) -> (r: Result<Self, ParameterDataError>)
        ensures
            r == Self::spec_decoded(buf@),
    {
        decode_record(buf)
    }

    /// Decoding the parameter data of an encodable value gives it back.
    pub proof fn lemma_roundtrip(&self)
        requires
            self.spec_encodable(),
        ensures
            Self::spec_decoded(self.spec_encoding()) == Ok::<Self, ParameterDataError>(*self),
    {
        lemma_record_roundtrip(*self);
    }
}

#[derive(Clone, Copy, Debug, PartialEq, Eq, Structural)]
pub struct GetMinimumLevelResponse {
    pub minimum_level_increasing: u16,
    pub minimum_level_decreasing: u16,
    pub on_below_minimum: bool,
}

impl<'a> FixedWire<'a> for GetMinimumLevelResponse {
    open spec fn spec_size() -> nat {
        5
    }

    open spec fn spec_wire(&self) -> Seq<u8> {
        self.minimum_level_increasing.spec_wire() + self.minimum_level_decreasing.spec_wire() + self.on_below_minimum.spec_wire()
    }

    open spec fn spec_read(bytes: Seq<u8>) -> Option<Self> {
        if <u16 as FixedWire>::spec_read(bytes.subrange(0, 2)) is Some
            && <u16 as FixedWire>::spec_read(bytes.subrange(2, 4)) is Some
            && <bool as FixedWire>::spec_read(bytes.subrange(4, 5)) is Some {
            Some(GetMinimumLevelResponse {
                minimum_level_increasing: <u16 as FixedWire>::spec_read(bytes.subrange(0, 2)).unwrap(),
                minimum_level_decreasing: <u16 as FixedWire>::spec_read(bytes.subrange(2, 4)).unwrap(),
                on_below_minimum: <bool as FixedWire>::spec_read(bytes.subrange(4, 5)).unwrap(),
            })
        } else {
            None
        }
    }

    open spec fn spec_wire_valid(&self) -> bool {
        self.minimum_level_increasing.spec_wire_valid() && self.minimum_level_decreasing.spec_wire_valid() && self.on_below_minimum.spec_wire_valid()
    }

    fn wire_size() -> (n: usize) {
        5
    }

    fn write_wire(&self, out: &mut Vec<u8>) {
        let ghost start = out@;
        self.minimum_level_increasing.write_wire(out);
        self.minimum_level_decreasing.write_wire(out);
        self.on_below_minimum.write_wire(out);
        proof {
            assert(out@ =~= start + self.spec_wire());
        }
    }

    fn read_wire(buf: &'a [u8], pos: usize) -> (r: Option<Self>) {
        let _len = buf.len();
        let ghost bytes = buf@.subrange(pos as int, pos + 5);
        proof {
            assert(bytes.subrange(0, 2) =~= buf@.subrange(pos + 0, pos + 2));
            assert(bytes.subrange(2, 4) =~= buf@.subrange(pos + 2, pos + 4));
            assert(bytes.subrange(4, 5) =~= buf@.subrange(pos + 4, pos + 5));
        }
        let v0 = match <u16 as FixedWire>::read_wire(buf, pos) {
            Some(v) => v,
            None => return None,
        };
        let v1 = match <u16 as FixedWire>::read_wire(buf, pos + 2) {
            Some(v) => v,
            None => return None,
        };
        let v2 = match <bool as FixedWire>::read_wire(buf, pos + 4) {
            Some(v) => v,
            None => return None,
        };
        Some(GetMinimumLevelResponse { minimum_level_increasing: v0, minimum_level_decreasing: v1, on_below_minimum: v2 })
    }

    proof fn lemma_wire(&self) {
        self.minimum_level_increasing.lemma_wire();
        self.minimum_level_decreasing.lemma_wire();
        self.on_below_minimum.lemma_wire();
        let w = self.spec_wire();
        assert(w.subrange(0, 2) =~= self.minimum_level_increasing.spec_wire());
        assert(w.subrange(2, 4) =~= self.minimum_level_decreasing.spec_wire());
        assert(w.subrange(4, 5) =~= self.on_below_minimum.spec_wire());
        if self.spec_wire_valid() {
            assert(<u16 as FixedWire>::spec_read(w.subrange(0, 2)) == Some(self.minimum_level_increasing));
            assert(<u16 as FixedWire>::spec_read(w.subrange(2, 4)) == Some(self.minimum_level_decreasing));
            assert(<bool as FixedWire>::spec_read(w.subrange(4, 5)) == Some(self.on_below_minimum));
        }
    }
}

impl GetMinimumLevelResponse {
    /// The parameter data of the value.
    pub open spec fn spec_encoding(&self) -> Seq<u8> {
        self.spec_wire()
    }

    /// The value that parameter data stands for, or why it stands for none.
    pub open spec fn spec_decoded(buf: Seq<u8>) -> Result<Self, ParameterDataError> {
        record_decoded::<Self>(buf)
    }

    /// Whether decoding the parameter data gives the value back.
    pub open spec fn spec_encodable(&self) -> bool {
        self.spec_wire_valid()
    }

    pub fn size_of(&self) -> (n: usize)
        ensures
            n == self.spec_encoding().len(),
            n <= 5,
    {
        proof {
            self.lemma_wire();
        }
        Self::wire_size()
    }

    /// Appends the parameter data to `out`.
    pub fn write_encoding(&self, out: &mut Vec<u8>)
        ensures
            final(out)@ == old(out)@ + self.spec_encoding(),
    {
        self.write_wire(out);
    }

    pub fn encode_parameter_data(&self, buf: &mut [u8]) -> (r: Result<usize, ParameterDataError>)
        ensures
            encoded_into(old(buf)@, final(buf)@, self.spec_encoding(), r),
    {
        encode_record(self, buf)
    }

    pub fn decode_parameter_data(buf: &[u8]) -> (r: Result<Self, ParameterDataError>)
        ensures
            r == Self::spec_decoded(buf@),
    {
        decode_record(buf)
    }

    /// Decoding the parameter data of an encodable value gives it back.
    pub proof fn lemma_roundtrip(&self)
        requires
            self.spec_encodable(),
        ensures
            Self::spec_decoded(self.spec_encoding()) == Ok::<Self, ParameterDataError>(*self),
    {
        lemma_record_roundtrip(*self);
    }
}

#[derive(Clone, Copy, Debug, PartialEq, Eq, Structural)]
pub struct GetMaximumLevelResponse {
    pub maximum_level: u16,
}

impl<'a> FixedWire<'a> for GetMaximumLevelResponse {
    open spec fn spec_size() -> nat {
        2
    }

    open spec fn spec_wire(&self) -> Seq<u8> {
        self.maximum_level.spec_wire()
    }

    open spec fn spec_read(bytes: Seq<u8>) -> Option<Self> {
        if <u16 as FixedWire>::spec_read(bytes.subrange(0, 2)) is Some {
            Some(GetMaximumLevelResponse {
                maximum_level: <u16 as FixedWire>::spec_read(bytes.subrange(0, 2)).unwrap(),
            })
        } else {
            None
        }
    }

    open spec fn spec_wire_valid(&self) -> bool {
        self.maximum_level.spec_wire_valid()
    }

    fn wire_size() -> (n: usize) {
        2
    }

    fn write_wire(&self, out: &mut Vec<u8>) {
        let ghost start = out@;
        self.maximum_level.write_wire(out);
        proof {
            assert(out@ =~= start + self.spec_wire());
        }
    }

    fn read_wire(buf: &'a [u8], pos: usize) -> (r: Option<Self>) {
        let _len = buf.len();
        let ghost bytes = buf@.subrange(pos as int, pos + 2);
        proof {
            assert(bytes.subrange(0, 2) =~= buf@.subrange(pos + 0, pos + 2));
        }
        let v0 = match <u16 as FixedWire>::read_wire(buf, pos) {
            Some(v) => v,
            None => return None,
        };
        Some(GetMaximumLevelResponse { maximum_level: v0 })
    }

    proof fn lemma_wire(&self) {
        self.maximum_level.lemma_wire();
        let w = self.spec_wire();
        assert(w.subrange(0, 2) =~= self.maximum_level.spec_wire());
        if self.spec_wire_valid() {
            assert(<u16 as FixedWire>::spec_read(w.subrange(0, 2)) == Some(self.maximum_level));
        }
    }
}

impl GetMaximumLevelResponse {
    /// The parameter data of the value.
    pub open spec fn spec_encoding(&self) -> Seq<u8> {
        self.spec_wire()
    }

    /// The value that parameter data stands for, or why it stands for none.
    pub open spec fn spec_decoded(buf: Seq<u8>) -> Result<Self, ParameterDataError> {
        record_decoded::<Self>(buf)
    }

    /// Whether decoding the parameter data gives the value back.
    pub open spec fn spec_encodable(&self) -> bool {
        self.spec_wire_valid()
    }

    pub fn size_of(&self) -> (n: usize)
        ensures
            n == self.spec_encoding().len(),
            n <= 2,
    {
        proof {
            self.lemma_wire();
        }
        Self::wire_size()
    }

    /// Appends the parameter data to `out`.
    pub fn write_encoding(&self, out: &mut Vec<u8>)
        ensures
            final(out)@ == old(out)@ + self.spec_encoding(),
    {
        self.write_wire(out);
    }

    pub fn encode_parameter_data(&self, buf: &mut [u8]) -> (r: Result<usize, ParameterDataError>)
        ensures
            encoded_into(old(buf)@, final(buf)@, self.spec_encoding(), r),
    {
        encode_record(self, buf)
    }

    pub fn decode_parameter_data(buf: &[u8]) -> (r: Result<Self, ParameterDataError>)
        ensures
            r == Self::spec_decoded(buf@),
    {
        decode_record(buf)
    }

    /// Decoding the parameter data of an encodable value gives it back.
    pub proof fn lemma_roundtrip(&self)
        requires
            self.spec_encodable(),
        ensures
            Self::spec_decoded(self.spec_encoding()) == Ok::<Self, ParameterDataError>(*self),
    {
        lemma_record_roundtrip(*self);
    }
}

#[derive(Clone, Copy, Debug, PartialEq, Eq, Structural)]
pub struct GetCurveResponse {
    pub curve_id: u8,
    pub curve_count: u8,
}

impl<'a> FixedWire<'a> for GetCurveResponse {
    open spec fn spec_size() -> nat {
        2
    }

    open spec fn spec_wire(&self) -> Seq<u8> {
        self.curve_id.spec_wire() + self.curve_count.spec_wire()
    }

    open spec fn spec_read(bytes: Seq<u8>) -> Option<Self> {
        if <u8 as FixedWire>::spec_read(bytes.subrange(0, 1)) is Some
            && <u8 as FixedWire>::spec_read(bytes.subrange(1, 2)) is Some {
            Some(GetCurveResponse {
                curve_id: <u8 as FixedWire>::spec_read(bytes.subrange(0, 1)).unwrap(),
                curve_count: <u8 as FixedWire>::spec_read(bytes.subrange(1, 2)).unwrap(),
            })
        } else {
            None
        }
    }

    open spec fn spec_wire_valid(&self) -> bool {
        self.curve_id.spec_wire_valid() && self.curve_count.spec_wire_valid()
    }

    fn wire_size() -> (n: usize) {
        2
    }

    fn write_wire(&self, out: &mut Vec<u8>) {
        let ghost start = out@;
        self.curve_id.write_wire(out);
        self.curve_count.write_wire(out);
        proof {
            assert(out@ =~= start + self.spec_wire());
        }
    }

    fn read_wire(buf: &'a [u8], pos: usize) -> (r: Option<Self>) {
        let _len = buf.len();
        let ghost bytes = buf@.subrange(pos as int, pos + 2);
        proof {
            assert(bytes.subrange(0, 1) =~= buf@.subrange(pos + 0, pos + 1));
            assert(bytes.subrange(1, 2) =~= buf@.subrange(pos + 1, pos + 2));
        }
        let v0 = match <u8 as FixedWire>::read_wire(buf, pos) {
            Some(v) => v,
            None => return None,
        };
        let v1 = match <u8 as FixedWire>::read_wire(buf, pos + 1) {
            Some(v) => v,
            None => return None,
        };
        Some(GetCurveResponse { curve_id: v0, curve_count: v1 })
    }

    proof fn lemma_wire(&self) {
        self.curve_id.lemma_wire();
        self.curve_count.lemma_wire();
        let w = self.spec_wire();
        assert(w.subrange(0, 1) =~= self.curve_id.spec_wire());
        assert(w.subrange(1, 2) =~= self.curve_count.spec_wire());
        if self.spec_wire_valid() {
            assert(<u8 as FixedWire>::spec_read(w.subrange(0, 1)) == Some(self.curve_id));
            assert(<u8 as FixedWire>::spec_read(w.subrange(1, 2)) == Some(self.curve_count));
        }
    }
}

impl GetCurveResponse {
    /// The parameter data of the value.
    pub open spec fn spec_encoding(&self) -> Seq<u8> {
        self.spec_wire()
    }

    /// The value that parameter data stands for, or why it stands for none.
    pub open spec fn spec_decoded(buf: Seq<u8>) -> Result<Self, ParameterDataError> {
        record_decoded::<Self>(buf)
    }

    /// Whether decoding the parameter data gives the value back.
    pub open spec fn spec_encodable(&self) -> bool {
        self.spec_wire_valid()
    }

    pub fn size_of(&self) -> (n: usize)
        ensures
            n == self.spec_encoding().len(),
            n <= 2,
    {
        proof {
            self.lemma_wire();
        }
        Self::wire_size()
    }

    /// Appends the parameter data to `out`.
    pub fn write_encoding(&self, out: &mut Vec<u8>)
        ensures
            final(out)@ == old(out)@ + self.spec_encoding(),
    {
        self.write_wire(out);
    }

    pub fn encode_parameter_data(&self, buf: &mut [u8]) -> (r: Result<usize, ParameterDataError>)
        ensures
            encoded_into(old(buf)@, final(buf)@, self.spec_encoding(), r),
    {
        encode_record(self, buf)
    }

    pub fn decode_parameter_data(buf: &[u8]) -> (r: Result<Self, ParameterDataError>)
        ensures
            r == Self::spec_decoded(buf@),
    {
        decode_record(buf)
    }

    /// Decoding the parameter data of an encodable value gives it back.
    pub proof fn lemma_roundtrip(&self)
        requires
            self.spec_encodable(),
        ensures
            Self::spec_decoded(self.spec_encoding()) == Ok::<Self, ParameterDataError>(*self),
    {
        lemma_record_roundtrip(*self);
    }
}

#[derive(Clone, Copy, Debug, PartialEq)]
pub struct GetCurveDescriptionResponse {
    pub curve_id: u8,
    pub description: CurveDescription,
}

impl GetCurveDescriptionResponse {
    /// The parameter data of the value.
    pub open spec fn spec_encoding(&self) -> Seq<u8> {
        self.curve_id.spec_wire() + self.description.spec_encode()
    }

    /// The value that parameter data stands for, or why it stands for none.
    pub open spec fn spec_decoded(buf: Seq<u8>) -> Result<Self, ParameterDataError> {
        if buf.len() < 1 {
            Err(too_short(buf.len(), 1))
        } else if !(<u8 as FixedWire>::spec_read(buf.subrange(0, 1)) is Some) {
            Err(ParameterDataError::MalformedData)
        } else {
            let rest = buf.subrange(1, buf.len() as int);
            match CurveDescription::spec_decode(rest) {
                Ok(t) => Ok(GetCurveDescriptionResponse { curve_id: <u8 as FixedWire>::spec_read(buf.subrange(0, 1)).unwrap(), description: t }),
                Err(e) => Err(e),
            }
        }
    }

    /// Whether decoding the parameter data gives the value back.
    pub open spec fn spec_encodable(&self) -> bool {
        self.curve_id.spec_wire_valid() && self.description.spec_encodable()
    }

    /// Appends the parameter data to `out`.
    pub fn write_encoding(&self, out: &mut Vec<u8>)
        ensures
            final(out)@ == old(out)@ + self.spec_encoding(),
    {
        let ghost start = out@;
        self.curve_id.write_wire(out);
        self.description.write_encoded(out);
        proof {
            assert(out@ =~= start + self.spec_encoding());
        }
    }

    pub fn size_of(&self) -> (n: usize)
        ensures
            n == self.spec_encoding().len(),
            n <= 33,
    {
        proof {
            self.curve_id.lemma_wire();
            use_type_invariant(&self.description);
            self.description.lemma_encode_len();
        }
        let mut out: Vec<u8> = Vec::new();
        self.write_encoding(&mut out);
        proof {
            assert(out@ =~= self.spec_encoding());
        }
        out.len()
    }

    pub fn encode_parameter_data(&self, buf: &mut [u8]) -> (r: Result<usize, ParameterDataError>)
        ensures
            encoded_into(old(buf)@, final(buf)@, self.spec_encoding(), r),
    {
        let mut out: Vec<u8> = Vec::new();
        self.write_encoding(&mut out);
        proof {
            assert(out@ =~= self.spec_encoding());
        }
        copy_encoded(buf, out.as_slice())
    }

    pub fn decode_parameter_data(buf: &[u8]) -> (r: Result<Self, ParameterDataError>)
        ensures
            r == Self::spec_decoded(buf@),
    {
        if buf.len() < 1 {
            return Err(ParameterDataError::BufferTooSmall { provided: buf.len(), required: 1 });
        }
        let v0 = match <u8 as FixedWire>::read_wire(buf, 0) {
            Some(v) => v,
            None => return Err(ParameterDataError::MalformedData),
        };
        match CurveDescription::decode_parameter_data(vstd::slice::slice_subrange(buf, 1, buf.len())) {
            Ok(t) => Ok(GetCurveDescriptionResponse { curve_id: v0, description: t }),
            Err(e) => Err(e),
        }
    }

    /// Decoding the parameter data of an encodable value gives it back.
    pub proof fn lemma_roundtrip(&self)
        requires
            self.spec_encodable(),
        ensures
            Self::spec_decoded(self.spec_encoding()) == Ok::<Self, ParameterDataError>(*self),
    {
        let e = self.spec_encoding();
        self.curve_id.lemma_wire();
        assert(e.subrange(0, 1) =~= self.curve_id.spec_wire());
        assert(e.subrange(1, e.len() as int) =~= self.description.spec_encode());
        self.description.lemma_roundtrip();
    }
}

#[derive(Clone, Copy, Debug, PartialEq, Eq, Structural)]
pub struct GetOutputResponseTimeResponse {
    pub response_time_id: u8,
    pub response_time_count: u8,
}

impl<'a> FixedWire<'a> for GetOutputResponseTimeResponse {
    open spec fn spec_size() -> nat {
        2
    }

    open spec fn spec_wire(&self) -> Seq<u8> {
        self.response_time_id.spec_wire() + self.response_time_count.spec_wire()
    }

    open spec fn spec_read(bytes: Seq<u8>) -> Option<Self> {
        if <u8 as FixedWire>::spec_read(bytes.subrange(0, 1)) is Some
            && <u8 as FixedWire>::spec_read(bytes.subrange(1, 2)) is Some {
            Some(GetOutputResponseTimeResponse {
                response_time_id: <u8 as FixedWire>::spec_read(bytes.subrange(0, 1)).unwrap(),
                response_time_count: <u8 as FixedWire>::spec_read(bytes.subrange(1, 2)).unwrap(),
            })
        } else {
            None
        }
    }

    open spec fn spec_wire_valid(&self) -> bool {
        self.response_time_id.spec_wire_valid() && self.response_time_count.spec_wire_valid()
    }

    fn wire_size() -> (n: usize) {
        2
    }

    fn write_wire(&self, out: &mut Vec<u8>) {
        let ghost start = out@;
        self.response_time_id.write_wire(out);
        self.response_time_count.write_wire(out);
        proof {
            assert(out@ =~= start + self.spec_wire());
        }
    }

    fn read_wire(buf: &'a [u8], pos: usize) -> (r: Option<Self>) {
        let _len = buf.len();
        let ghost bytes = buf@.subrange(pos as int, pos + 2);
        proof {
            assert(bytes.subrange(0, 1) =~= buf@.subrange(pos + 0, pos + 1));
            assert(bytes.subrange(1, 2) =~= buf@.subrange(pos + 1, pos + 2));
        }
        let v0 = match <u8 as FixedWire>::read_wire(buf, pos) {
            Some(v) => v,
            None => return None,
        };
        let v1 = match <u8 as FixedWire>::read_wire(buf, pos + 1) {
            Some(v) => v,
            None => return None,
        };
        Some(GetOutputResponseTimeResponse { response_time_id: v0, response_time_count: v1 })
    }

    proof fn lemma_wire(&self) {
        self.response_time_id.lemma_wire();
        self.response_time_count.lemma_wire();
        let w = self.spec_wire();
        assert(w.subrange(0, 1) =~= self.response_time_id.spec_wire());
        assert(w.subrange(1, 2) =~= self.response_time_count.spec_wire());
        if self.spec_wire_valid() {
            assert(<u8 as FixedWire>::spec_read(w.subrange(0, 1)) == Some(self.response_time_id));
            assert(<u8 as FixedWire>::spec_read(w.subrange(1, 2)) == Some(self.response_time_count));
        }
    }
}

impl GetOutputResponseTimeResponse {
    /// The parameter data of the value.
    pub open spec fn spec_encoding(&self) -> Seq<u8> {
        self.spec_wire()
    }

    /// The value that parameter data stands for, or why it stands for none.
    pub open spec fn spec_decoded(buf: Seq<u8>) -> Result<Self, ParameterDataError> {
        record_decoded::<Self>(buf)
    }

    /// Whether decoding the parameter data gives the value back.
    pub open spec fn spec_encodable(&self) -> bool {
        self.spec_wire_valid()
    }

    pub fn size_of(&self) -> (n: usize)
        ensures
            n == self.spec_encoding().len(),
            n <= 2,
    {
        proof {
            self.lemma_wire();
        }
        Self::wire_size()
    }

    /// Appends the parameter data to `out`.
    pub fn write_encoding(&self, out: &mut Vec<u8>)
        ensures
            final(out)@ == old(out)@ + self.spec_encoding(),
    {
        self.write_wire(out);
    }

    pub fn encode_parameter_data(&self, buf: &mut [u8]) -> (r: Result<usize, ParameterDataError>)
        ensures
            encoded_into(old(buf)@, final(buf)@, self.spec_encoding(), r),
    {
        encode_record(self, buf)
    }

    pub fn decode_parameter_data(buf: &[u8]) -> (r: Result<Self, ParameterDataError>)
        ensures
            r == Self::spec_decoded(buf@),
    {
        decode_record(buf)
    }

    /// Decoding the parameter data of an encodable value gives it back.
    pub proof fn lemma_roundtrip(&self)
        requires
            self.spec_encodable(),
        ensures
            Self::spec_decoded(self.spec_encoding()) == Ok::<Self, ParameterDataError>(*self),
    {
        lemma_record_roundtrip(*self);
    }
}

#[derive(Clone, Copy, Debug, PartialEq)]
pub struct GetOutputResponseTimeDescriptionResponse {
    pub response_time_id: u8,
    pub description: OutputResponseTimeDescription,
}

impl GetOutputResponseTimeDescriptionResponse {
    /// The parameter data of the value.
    pub open spec fn spec_encoding(&self) -> Seq<u8> {
        self.response_time_id.spec_wire() + self.description.spec_encode()
    }

    /// The value that parameter data stands for, or why it stands for none.
    pub open spec fn spec_decoded(buf: Seq<u8>) -> Result<Self, ParameterDataError> {
        if buf.len() < 1 {
            Err(too_short(buf.len(), 1))
        } else if !(<u8 as FixedWire>::spec_read(buf.subrange(0, 1)) is Some) {
            Err(ParameterDataError::MalformedData)
        } else {
            let rest = buf.subrange(1, buf.len() as int);
            match OutputResponseTimeDescription::spec_decode(rest) {
                Ok(t) => Ok(GetOutputResponseTimeDescriptionResponse { response_time_id: <u8 as FixedWire>::spec_read(buf.subrange(0, 1)).unwrap(), description: t }),
                Err(e) => Err(e),
            }
        }
    }

    /// Whether decoding the parameter data gives the value back.
    pub open spec fn spec_encodable(&self) -> bool {
        self.response_time_id.spec_wire_valid() && self.description.spec_encodable()
    }

    /// Appends the parameter data to `out`.
    pub fn write_encoding(&self, out: &mut Vec<u8>)
        ensures
            final(out)@ == old(out)@ + self.spec_encoding(),
    {
        let ghost start = out@;
        self.response_time_id.write_wire(out);
        self.description.write_encoded(out);
        proof {
            assert(out@ =~= start + self.spec_encoding());
        }
    }

    pub fn size_of(&self) -> (n: usize)
        ensures
            n == self.spec_encoding().len(),
            n <= 33,
    {
        proof {
            self.response_time_id.lemma_wire();
            use_type_invariant(&self.description);
            self.description.lemma_encode_len();
        }
        let mut out: Vec<u8> = Vec::new();
        self.write_encoding(&mut out);
        proof {
            assert(out@ =~= self.spec_encoding());
        }
        out.len()
    }

    pub fn encode_parameter_data(&self, buf: &mut [u8]) -> (r: Result<usize, ParameterDataError>)
        ensures
            encoded_into(old(buf)@, final(buf)@, self.spec_encoding(), r),
    {
        let mut out: Vec<u8> = Vec::new();
        self.write_encoding(&mut out);
        proof {
            assert(out@ =~= self.spec_encoding());
        }
        copy_encoded(buf, out.as_slice())
    }

    pub fn decode_parameter_data(buf: &[u8]) -> (r: Result<Self, ParameterDataError>)
        ensures
            r == Self::spec_decoded(buf@),
    {
        if buf.len() < 1 {
            return Err(ParameterDataError::BufferTooSmall { provided: buf.len(), required: 1 });
        }
        let v0 = match <u8 as FixedWire>::read_wire(buf, 0) {
            Some(v) => v,
            None => return Err(ParameterDataError::MalformedData),
        };
        match OutputResponseTimeDescription::decode_parameter_data(vstd::slice::slice_subrange(buf, 1, buf.len())) {
            Ok(t) => Ok(GetOutputResponseTimeDescriptionResponse { response_time_id: v0, description: t }),
            Err(e) => Err(e),
        }
    }

    /// Decoding the parameter data of an encodable value gives it back.
    pub proof fn lemma_roundtrip(&self)
        requires
            self.spec_encodable(),
        ensures
            Self::spec_decoded(self.spec_encoding()) == Ok::<Self, ParameterDataError>(*self),
    {
        let e = self.spec_encoding();
        self.response_time_id.lemma_wire();
        assert(e.subrange(0, 1) =~= self.response_time_id.spec_wire());
        assert(e.subrange(1, e.len() as int) =~= self.description.spec_encode());
        self.description.lemma_roundtrip();
    }
}

#[derive(Clone, Copy, Debug, PartialEq, Eq, Structural)]
pub struct GetModulationFrequencyResponse {
    pub modulation_frequency_id: u8,
    pub modulation_frequency_count: u8,
}

impl<'a> FixedWire<'a> for GetModulationFrequencyResponse {
    open spec fn spec_size() -> nat {
        2
    }

    open spec fn spec_wire(&self) -> Seq<u8> {
        self.modulation_frequency_id.spec_wire() + self.modulation_frequency_count.spec_wire()
    }

    open spec fn spec_read(bytes: Seq<u8>) -> Option<Self> {
        if <u8 as FixedWire>::spec_read(bytes.subrange(0, 1)) is Some
            && <u8 as FixedWire>::spec_read(bytes.subrange(1, 2)) is Some {
            Some(GetModulationFrequencyResponse {
                modulation_frequency_id: <u8 as FixedWire>::spec_read(bytes.subrange(0, 1)).unwrap(),
                modulation_frequency_count: <u8 as FixedWire>::spec_read(bytes.subrange(1, 2)).unwrap(),
            })
        } else {
            None
        }
    }

    open spec fn spec_wire_valid(&self) -> bool {
        self.modulation_frequency_id.spec_wire_valid() && self.modulation_frequency_count.spec_wire_valid()
    }

    fn wire_size() -> (n: usize) {
        2
    }

    fn write_wire(&self, out: &mut Vec<u8>) {
        let ghost start = out@;
        self.modulation_frequency_id.write_wire(out);
        self.modulation_frequency_count.write_wire(out);
        proof {
            assert(out@ =~= start + self.spec_wire());
        }
    }

    fn read_wire(buf: &'a [u8], pos: usize) -> (r: Option<Self>) {
        let _len = buf.len();
        let ghost bytes = buf@.subrange(pos as int, pos + 2);
        proof {
            assert(bytes.subrange(0, 1) =~= buf@.subrange(pos + 0, pos + 1));
            assert(bytes.subrange(1, 2) =~= buf@.subrange(pos + 1, pos + 2));
        }
        let v0 = match <u8 as FixedWire>::read_wire(buf, pos) {
            Some(v) => v,
            None => return None,
        };
        let v1 = match <u8 as FixedWire>::read_wire(buf, pos + 1) {
            Some(v) => v,
            None => return None,
        };
        Some(GetModulationFrequencyResponse { modulation_frequency_id: v0, modulation_frequency_count: v1 })
    }

    proof fn lemma_wire(&self) {
        self.modulation_frequency_id.lemma_wire();
        self.modulation_frequency_count.lemma_wire();
        let w = self.spec_wire();
        assert(w.subrange(0, 1) =~= self.modulation_frequency_id.spec_wire());
        assert(w.subrange(1, 2) =~= self.modulation_frequency_count.spec_wire());
        if self.spec_wire_valid() {
            assert(<u8 as FixedWire>::spec_read(w.subrange(0, 1)) == Some(self.modulation_frequency_id));
            assert(<u8 as FixedWire>::spec_read(w.subrange(1, 2)) == Some(self.modulation_frequency_count));
        }
    }
}

impl GetModulationFrequencyResponse {
    /// The parameter data of the value.
    pub open spec fn spec_encoding(&self) -> Seq<u8> {
        self.spec_wire()
    }

    /// The value that parameter data stands for, or why it stands for none.
    pub open spec fn spec_decoded(buf: Seq<u8>) -> Result<Self, ParameterDataError> {
        record_decoded::<Self>(buf)
    }

    /// Whether decoding the parameter data gives the value back.
    pub open spec fn spec_encodable(&self) -> bool {
        self.spec_wire_valid()
    }

    pub fn size_of(&self) -> (n: usize)
        ensures
            n == self.spec_encoding().len(),
            n <= 2,
    {
        proof {
            self.lemma_wire();
        }
        Self::wire_size()
    }

    /// Appends the parameter data to `out`.
    pub fn write_encoding(&self, out: &mut Vec<u8>)
        ensures
            final(out)@ == old(out)@ + self.spec_encoding(),
    {
        self.write_wire(out);
    }

    pub fn encode_parameter_data(&self, buf: &mut [u8]) -> (r: Result<usize, ParameterDataError>)
        ensures
            encoded_into(old(buf)@, final(buf)@, self.spec_encoding(), r),
    {
        encode_record(self, buf)
    }

    pub fn decode_parameter_data(buf: &[u8]) -> (r: Result<Self, ParameterDataError>)
        ensures
            r == Self::spec_decoded(buf@),
    {
        decode_record(buf)
    }

    /// Decoding the parameter data of an encodable value gives it back.
    pub proof fn lemma_roundtrip(&self)
        requires
            self.spec_encodable(),
        ensures
            Self::spec_decoded(self.spec_encoding()) == Ok::<Self, ParameterDataError>(*self),
    {
        lemma_record_roundtrip(*self);
    }
}

#[derive(Clone, Copy, Debug, PartialEq)]
pub struct GetModulationFrequencyDescriptionResponse {
    pub modulation_frequency_id: u8,
    pub frequency: u32,
    pub description: ModulationFrequencyDescription,
}

impl GetModulationFrequencyDescriptionResponse {
    /// The parameter data of the value.
    pub open spec fn spec_encoding(&self) -> Seq<u8> {
        self.modulation_frequency_id.spec_wire() + self.frequency.spec_wire() + self.description.spec_encode()
    }

    /// The value that parameter data stands for, or why it stands for none.
    pub open spec fn spec_decoded(buf: Seq<u8>) -> Result<Self, ParameterDataError> {
        if buf.len() < 5 {
            Err(too_short(buf.len(), 5))
        } else if !(<u8 as FixedWire>::spec_read(buf.subrange(0, 1)) is Some && <u32 as FixedWire>::spec_read(buf.subrange(1, 5)) is Some) {
            Err(ParameterDataError::MalformedData)
        } else {
            let rest = buf.subrange(5, buf.len() as int);
            match ModulationFrequencyDescription::spec_decode(rest) {
                Ok(t) => Ok(GetModulationFrequencyDescriptionResponse { modulation_frequency_id: <u8 as FixedWire>::spec_read(buf.subrange(0, 1)).unwrap(), frequency: <u32 as FixedWire>::spec_read(buf.subrange(1, 5)).unwrap(), description: t }),
                Err(e) => Err(e),
            }
        }
    }

    /// Whether decoding the parameter data gives the value back.
    pub open spec fn spec_encodable(&self) -> bool {
        self.modulation_frequency_id.spec_wire_valid() && self.frequency.spec_wire_valid() && self.description.spec_encodable()
    }

    /// Appends the parameter data to `out`.
    pub fn write_encoding(&self, out: &mut Vec<u8>)
        ensures
            final(out)@ == old(out)@ + self.spec_encoding(),
    {
        let ghost start = out@;
        self.modulation_frequency_id.write_wire(out);
        self.frequency.write_wire(out);
        self.description.write_encoded(out);
        proof {
            assert(out@ =~= start + self.spec_encoding());
        }
    }

    pub fn size_of(&self) -> (n: usize)
        ensures
            n == self.spec_encoding().len(),
            n <= 37,
    {
        proof {
            self.modulation_frequency_id.lemma_wire();
            self.frequency.lemma_wire();
            use_type_invariant(&self.description);
            self.description.lemma_encode_len();
        }
        let mut out: Vec<u8> = Vec::new();
        self.write_encoding(&mut out);
        proof {
            assert(out@ =~= self.spec_encoding());
        }
        out.len()
    }

    pub fn encode_parameter_data(&self, buf: &mut [u8]) -> (r: Result<usize, ParameterDataError>)
        ensures
            encoded_into(old(buf)@, final(buf)@, self.spec_encoding(), r),
    {
        let mut out: Vec<u8> = Vec::new();
        self.write_encoding(&mut out);
        proof {
            assert(out@ =~= self.spec_encoding());
        }
        copy_encoded(buf, out.as_slice())
    }

    pub fn decode_parameter_data(buf: &[u8]) -> (r: Result<Self, ParameterDataError>)
        ensures
            r == Self::spec_decoded(buf@),
    {
        if buf.len() < 5 {
            return Err(ParameterDataError::BufferTooSmall { provided: buf.len(), required: 5 });
        }
        let v0 = match <u8 as FixedWire>::read_wire(buf, 0) {
            Some(v) => v,
            None => return Err(ParameterDataError::MalformedData),
        };
        let v1 = match <u32 as FixedWire>::read_wire(buf, 1) {
            Some(v) => v,
            None => return Err(ParameterDataError::MalformedData),
        };
        match ModulationFrequencyDescription::decode_parameter_data(vstd::slice::slice_subrange(buf, 5, buf.len())) {
            Ok(t) => Ok(GetModulationFrequencyDescriptionResponse { modulation_frequency_id: v0, frequency: v1, description: t }),
            Err(e) => Err(e),
        }
    }

    /// Decoding the parameter data of an encodable value gives it back.
    pub proof fn lemma_roundtrip(&self)
        requires
            self.spec_encodable(),
        ensures
            Self::spec_decoded(self.spec_encoding()) == Ok::<Self, ParameterDataError>(*self),
    {
        let e = self.spec_encoding();
        self.modulation_frequency_id.lemma_wire();
        self.frequency.lemma_wire();
        assert(e.subrange(0, 1) =~= self.modulation_frequency_id.spec_wire());
        assert(e.subrange(1, 5) =~= self.frequency.spec_wire());
        assert(e.subrange(5, e.len() as int) =~= self.description.spec_encode());
        self.description.lemma_roundtrip();
    }
}

#[derive(Clone, Copy, Debug, PartialEq, Eq, Structural)]
pub struct GetBurnInResponse {
    pub hours_remaining: u8,
}

impl<'a> FixedWire<'a> for GetBurnInResponse {
    open spec fn spec_size() -> nat {
        1
    }

    open spec fn spec_wire(&self) -> Seq<u8> {
        self.hours_remaining.spec_wire()
    }

    open spec fn spec_read(bytes: Seq<u8>) -> Option<Self> {
        if <u8 as FixedWire>::spec_read(bytes.subrange(0, 1)) is Some {
            Some(GetBurnInResponse {
                hours_remaining: <u8 as FixedWire>::spec_read(bytes.subrange(0, 1)).unwrap(),
            })
        } else {
            None
        }
    }

    open spec fn spec_wire_valid(&self) -> bool {
        self.hours_remaining.spec_wire_valid()
    }

    fn wire_size() -> (n: usize) {
        1
    }

    fn write_wire(&self, out: &mut Vec<u8>) {
        let ghost start = out@;
        self.hours_remaining.write_wire(out);
        proof {
            assert(out@ =~= start + self.spec_wire());
        }
    }

    fn read_wire(buf: &'a [u8], pos: usize) -> (r: Option<Self>) {
        let _len = buf.len();
        let ghost bytes = buf@.subrange(pos as int, pos + 1);
        proof {
            assert(bytes.subrange(0, 1) =~= buf@.subrange(pos + 0, pos + 1));
        }
        let v0 = match <u8 as FixedWire>::read_wire(buf, pos) {
            Some(v) => v,
            None => return None,
        };
        Some(GetBurnInResponse { hours_remaining: v0 })
    }

    proof fn lemma_wire(&self) {
        self.hours_remaining.lemma_wire();
        let w = self.spec_wire();
        assert(w.subrange(0, 1) =~= self.hours_remaining.spec_wire());
        if self.spec_wire_valid() {
            assert(<u8 as FixedWire>::spec_read(w.subrange(0, 1)) == Some(self.hours_remaining));
        }
    }
}

impl GetBurnInResponse {
    /// The parameter data of the value.
    pub open spec fn spec_encoding(&self) -> Seq<u8> {
        self.spec_wire()
    }

    /// The value that parameter data stands for, or why it stands for none.
    pub open spec fn spec_decoded(buf: Seq<u8>) -> Result<Self, ParameterDataError> {
        record_decoded::<Self>(buf)
    }

    /// Whether decoding the parameter data gives the value back.
    pub open spec fn spec_encodable(&self) -> bool {
        self.spec_wire_valid()
    }

    pub fn size_of(&self) -> (n: usize)
        ensures
            n == self.spec_encoding().len(),
            n <= 1,
    {
        proof {
            self.lemma_wire();
        }
        Self::wire_size()
    }

    /// Appends the parameter data to `out`.
    pub fn write_encoding(&self, out: &mut Vec<u8>)
        ensures
            final(out)@ == old(out)@ + self.spec_encoding(),
    {
        self.write_wire(out);
    }

    pub fn encode_parameter_data(&self, buf: &mut [u8]) -> (r: Result<usize, ParameterDataError>)
        ensures
            encoded_into(old(buf)@, final(buf)@, self.spec_encoding(), r),
    {
        encode_record(self, buf)
    }

    pub fn decode_parameter_data(buf: &[u8]) -> (r: Result<Self, ParameterDataError>)
        ensures
            r == Self::spec_decoded(buf@),
    {
        decode_record(buf)
    }

    /// Decoding the parameter data of an encodable value gives it back.
    pub proof fn lemma_roundtrip(&self)
        requires
            self.spec_encodable(),
        ensures
            Self::spec_decoded(self.spec_encoding()) == Ok::<Self, ParameterDataError>(*self),
    {
        lemma_record_roundtrip(*self);
    }
}

#[derive(Clone, Copy, Debug, PartialEq)]
pub struct GetLockPinResponse {
    pub current_pin_code: PinCode,
}

impl<'a> FixedWire<'a> for GetLockPinResponse {
    open spec fn spec_size() -> nat {
        2
    }

    open spec fn spec_wire(&self) -> Seq<u8> {
        self.current_pin_code.spec_wire()
    }

    open spec fn spec_read(bytes: Seq<u8>) -> Option<Self> {
        if <PinCode as FixedWire>::spec_read(bytes.subrange(0, 2)) is Some {
            Some(GetLockPinResponse {
                current_pin_code: <PinCode as FixedWire>::spec_read(bytes.subrange(0, 2)).unwrap(),
            })
        } else {
            None
        }
    }

    open spec fn spec_wire_valid(&self) -> bool {
        self.current_pin_code.spec_wire_valid()
    }

    fn wire_size() -> (n: usize) {
        2
    }

    fn write_wire(&self, out: &mut Vec<u8>) {
        let ghost start = out@;
        self.current_pin_code.write_wire(out);
        proof {
            assert(out@ =~= start + self.spec_wire());
        }
    }

    fn read_wire(buf: &'a [u8], pos: usize) -> (r: Option<Self>) {
        let _len = buf.len();
        let ghost bytes = buf@.subrange(pos as int, pos + 2);
        proof {
            assert(bytes.subrange(0, 2) =~= buf@.subrange(pos + 0, pos + 2));
        }
        let v0 = match <PinCode as FixedWire>::read_wire(buf, pos) {
            Some(v) => v,
            None => return None,
        };
        Some(GetLockPinResponse { current_pin_code: v0 })
    }

    proof fn lemma_wire(&self) {
        self.current_pin_code.lemma_wire();
        let w = self.spec_wire();
        assert(w.subrange(0, 2) =~= self.current_pin_code.spec_wire());
        if self.spec_wire_valid() {
            assert(<PinCode as FixedWire>::spec_read(w.subrange(0, 2)) == Some(self.current_pin_code));
        }
    }
}

impl GetLockPinResponse {
    /// The parameter data of the value.
    pub open spec fn spec_encoding(&self) -> Seq<u8> {
        self.spec_wire()
    }

    /// The value that parameter data stands for, or why it stands for none.
    pub open spec fn spec_decoded(buf: Seq<u8>) -> Result<Self, ParameterDataError> {
        record_decoded::<Self>(buf)
    }

    /// Whether decoding the parameter data gives the value back.
    pub open spec fn spec_encodable(&self) -> bool {
        self.spec_wire_valid()
    }

    pub fn size_of(&self) -> (n: usize)
        ensures
            n == self.spec_encoding().len(),
            n <= 2,
    {
        proof {
            self.lemma_wire();
        }
        Self::wire_size()
    }

    /// Appends the parameter data to `out`.
    pub fn write_encoding(&self, out: &mut Vec<u8>)
        ensures
            final(out)@ == old(out)@ + self.spec_encoding(),
    {
        self.write_wire(out);
    }

    pub fn encode_parameter_data(&self, buf: &mut [u8]) -> (r: Result<usize, ParameterDataError>)
        ensures
            encoded_into(old(buf)@, final(buf)@, self.spec_encoding(), r),
    {
        encode_record(self, buf)
    }

    pub fn decode_parameter_data(buf: &[u8]) -> (r: Result<Self, ParameterDataError>)
        ensures
            r == Self::spec_decoded(buf@),
    {
        decode_record(buf)
    }

    /// Decoding the parameter data of an encodable value gives it back.
    pub proof fn lemma_roundtrip(&self)
        requires
            self.spec_encodable(),
        ensures
            Self::spec_decoded(self.spec_encoding()) == Ok::<Self, ParameterDataError>(*self),
    {
        lemma_record_roundtrip(*self);
    }
}

#[derive(Clone, Copy, Debug, PartialEq, Eq, Structural)]
pub struct GetLockStateResponse {
    pub lock_state_id: u8,
    pub lock_state_count: u8,
}

impl<'a> FixedWire<'a> for GetLockStateResponse {
    open spec fn spec_size() -> nat {
        2
    }

    open spec fn spec_wire(&self) -> Seq<u8> {
        self.lock_state_id.spec_wire() + self.lock_state_count.spec_wire()
    }

    open spec fn spec_read(bytes: Seq<u8>) -> Option<Self> {
        if <u8 as FixedWire>::spec_read(bytes.subrange(0, 1)) is Some
            && <u8 as FixedWire>::spec_read(bytes.subrange(1, 2)) is Some {
            Some(GetLockStateResponse {
                lock_state_id: <u8 as FixedWire>::spec_read(bytes.subrange(0, 1)).unwrap(),
                lock_state_count: <u8 as FixedWire>::spec_read(bytes.subrange(1, 2)).unwrap(),
            })
        } else {
            None
        }
    }

    open spec fn spec_wire_valid(&self) -> bool {
        self.lock_state_id.spec_wire_valid() && self.lock_state_count.spec_wire_valid()
    }

    fn wire_size() -> (n: usize) {
        2
    }

    fn write_wire(&self, out: &mut Vec<u8>) {
        let ghost start = out@;
        self.lock_state_id.write_wire(out);
        self.lock_state_count.write_wire(out);
        proof {
            assert(out@ =~= start + self.spec_wire());
        }
    }

    fn read_wire(buf: &'a [u8], pos: usize) -> (r: Option<Self>) {
        let _len = buf.len();
        let ghost bytes = buf@.subrange(pos as int, pos + 2);
        proof {
            assert(bytes.subrange(0, 1) =~= buf@.subrange(pos + 0, pos + 1));
            assert(bytes.subrange(1, 2) =~= buf@.subrange(pos + 1, pos + 2));
        }
        let v0 = match <u8 as FixedWire>::read_wire(buf, pos) {
            Some(v) => v,
            None => return None,
        };
        let v1 = match <u8 as FixedWire>::read_wire(buf, pos + 1) {
            Some(v) => v,
            None => return None,
        };
        Some(GetLockStateResponse { lock_state_id: v0, lock_state_count: v1 })
    }

    proof fn lemma_wire(&self) {
        self.lock_state_id.lemma_wire();
        self.lock_state_count.lemma_wire();
        let w = self.spec_wire();
        assert(w.subrange(0, 1) =~= self.lock_state_id.spec_wire());
        assert(w.subrange(1, 2) =~= self.lock_state_count.spec_wire());
        if self.spec_wire_valid() {
            assert(<u8 as FixedWire>::spec_read(w.subrange(0, 1)) == Some(self.lock_state_id));
            assert(<u8 as FixedWire>::spec_read(w.subrange(1, 2)) == Some(self.lock_state_count));
        }
    }
}

impl GetLockStateResponse {
    /// The parameter data of the value.
    pub open spec fn spec_encoding(&self) -> Seq<u8> {
        self.spec_wire()
    }

    /// The value that parameter data stands for, or why it stands for none.
    pub open spec fn spec_decoded(buf: Seq<u8>) -> Result<Self, ParameterDataError> {
        record_decoded::<Self>(buf)
    }

    /// Whether decoding the parameter data gives the value back.
    pub open spec fn spec_encodable(&self) -> bool {
        self.spec_wire_valid()
    }

    pub fn size_of(&self) -> (n: usize)
        ensures
            n == self.spec_encoding().len(),
            n <= 2,
    {
        proof {
            self.lemma_wire();
        }
        Self::wire_size()
    }

    /// Appends the parameter data to `out`.
    pub fn write_encoding(&self, out: &mut Vec<u8>)
        ensures
            final(out)@ == old(out)@ + self.spec_encoding(),
    {
        self.write_wire(out);
    }

    pub fn encode_parameter_data(&self, buf: &mut [u8]) -> (r: Result<usize, ParameterDataError>)
        ensures
            encoded_into(old(buf)@, final(buf)@, self.spec_encoding(), r),
    {
        encode_record(self, buf)
    }

    pub fn decode_parameter_data(buf: &[u8]) -> (r: Result<Self, ParameterDataError>)
        ensures
            r == Self::spec_decoded(buf@),
    {
        decode_record(buf)
    }

    /// Decoding the parameter data of an encodable value gives it back.
    pub proof fn lemma_roundtrip(&self)
        requires
            self.spec_encodable(),
        ensures
            Self::spec_decoded(self.spec_encoding()) == Ok::<Self, ParameterDataError>(*self),
    {
        lemma_record_roundtrip(*self);
    }
}

#[derive(Clone, Copy, Debug, PartialEq)]
pub struct GetLockStateDescriptionResponse {
    pub lock_state_id: u8,
    pub description: LockStateDescription,
}

impl GetLockStateDescriptionResponse {
    /// The parameter data of the value.
    pub open spec fn spec_encoding(&self) -> Seq<u8> {
        self.lock_state_id.spec_wire() + self.description.spec_encode()
    }

    /// The value that parameter data stands for, or why it stands for none.
    pub open spec fn spec_decoded(buf: Seq<u8>) -> Result<Self, ParameterDataError> {
        if buf.len() < 1 {
            Err(too_short(buf.len(), 1))
        } else if !(<u8 as FixedWire>::spec_read(buf.subrange(0, 1)) is Some) {
            Err(ParameterDataError::MalformedData)
        } else {
            let rest = buf.subrange(1, buf.len() as int);
            match LockStateDescription::spec_decode(rest) {
                Ok(t) => Ok(GetLockStateDescriptionResponse { lock_state_id: <u8 as FixedWire>::spec_read(buf.subrange(0, 1)).unwrap(), description: t }),
                Err(e) => Err(e),
            }
        }
    }

    /// Whether decoding the parameter data gives the value back.
    pub open spec fn spec_encodable(&self) -> bool {
        self.lock_state_id.spec_wire_valid() && self.description.spec_encodable()
    }

    /// Appends the parameter data to `out`.
    pub fn write_encoding(&self, out: &mut Vec<u8>)
        ensures
            final(out)@ == old(out)@ + self.spec_encoding(),
    {
        let ghost start = out@;
        self.lock_state_id.write_wire(out);
        self.description.write_encoded(out);
        proof {
            assert(out@ =~= start + self.spec_encoding());
        }
    }

    pub fn size_of(&self) -> (n: usize)
        ensures
            n == self.spec_encoding().len(),
            n <= 33,
    {
        proof {
            self.lock_state_id.lemma_wire();
            use_type_invariant(&self.description);
            self.description.lemma_encode_len();
        }
        let mut out: Vec<u8> = Vec::new();
        self.write_encoding(&mut out);
        proof {
            assert(out@ =~= self.spec_encoding());
        }
        out.len()
    }

    pub fn encode_parameter_data(&self, buf: &mut [u8]) -> (r: Result<usize, ParameterDataError>)
        ensures
            encoded_into(old(buf)@, final(buf)@, self.spec_encoding(), r),
    {
        let mut out: Vec<u8> = Vec::new();
        self.write_encoding(&mut out);
        proof {
            assert(out@ =~= self.spec_encoding());
        }
        copy_encoded(buf, out.as_slice())
    }

    pub fn decode_parameter_data(buf: &[u8]) -> (r: Result<Self, ParameterDataError>)
        ensures
            r == Self::spec_decoded(buf@),
    {
        if buf.len() < 1 {
            return Err(ParameterDataError::BufferTooSmall { provided: buf.len(), required: 1 });
        }
        let v0 = match <u8 as FixedWire>::read_wire(buf, 0) {
            Some(v) => v,
            None => return Err(ParameterDataError::MalformedData),
        };
        match LockStateDescription::decode_parameter_data(vstd::slice::slice_subrange(buf, 1, buf.len())) {
            Ok(t) => Ok(GetLockStateDescriptionResponse { lock_state_id: v0, description: t }),
            Err(e) => Err(e),
        }
    }

    /// Decoding the parameter data of an encodable value gives it back.
    pub proof fn lemma_roundtrip(&self)
        requires
            self.spec_encodable(),
        ensures
            Self::spec_decoded(self.spec_encoding()) == Ok::<Self, ParameterDataError>(*self),
    {
        let e = self.spec_encoding();
        self.lock_state_id.lemma_wire();
        assert(e.subrange(0, 1) =~= self.lock_state_id.spec_wire());
        assert(e.subrange(1, e.len() as int) =~= self.description.spec_encode());
        self.description.lemma_roundtrip();
    }
}

#[derive(Clone, Copy, Debug, PartialEq, Eq, Structural)]
pub struct GetIdentifyModeResponse {
    pub identify_mode: u8,
}

impl<'a> FixedWire<'a> for GetIdentifyModeResponse {
    open spec fn spec_size() -> nat {
        1
    }

    open spec fn spec_wire(&self) -> Seq<u8> {
        self.identify_mode.spec_wire()
    }

    open spec fn spec_read(bytes: Seq<u8>) -> Option<Self> {
        if <u8 as FixedWire>::spec_read(bytes.subrange(0, 1)) is Some {
            Some(GetIdentifyModeResponse {
                identify_mode: <u8 as FixedWire>::spec_read(bytes.subrange(0, 1)).unwrap(),
            })
        } else {
            None
        }
    }

    open spec fn spec_wire_valid(&self) -> bool {
        self.identify_mode.spec_wire_valid()
    }

    fn wire_size() -> (n: usize) {
        1
    }

    fn write_wire(&self, out: &mut Vec<u8>) {
        let ghost start = out@;
        self.identify_mode.write_wire(out);
        proof {
            assert(out@ =~= start + self.spec_wire());
        }
    }

    fn read_wire(buf: &'a [u8], pos: usize) -> (r: Option<Self>) {
        let _len = buf.len();
        let ghost bytes = buf@.subrange(pos as int, pos + 1);
        proof {
            assert(bytes.subrange(0, 1) =~= buf@.subrange(pos + 0, pos + 1));
        }
        let v0 = match <u8 as FixedWire>::read_wire(buf, pos) {
            Some(v) => v,
            None => return None,
        };
        Some(GetIdentifyModeResponse { identify_mode: v0 })
    }

    proof fn lemma_wire(&self) {
        self.identify_mode.lemma_wire();
        let w = self.spec_wire();
        assert(w.subrange(0, 1) =~= self.identify_mode.spec_wire());
        if self.spec_wire_valid() {
            assert(<u8 as FixedWire>::spec_read(w.subrange(0, 1)) == Some(self.identify_mode));
        }
    }
}

impl GetIdentifyModeResponse {
    /// The parameter data of the value.
    pub open spec fn spec_encoding(&self) -> Seq<u8> {
        self.spec_wire()
    }

    /// The value that parameter data stands for, or why it stands for none.
    pub open spec fn spec_decoded(buf: Seq<u8>) -> Result<Self, ParameterDataError> {
        record_decoded::<Self>(buf)
    }

    /// Whether decoding the parameter data gives the value back.
    pub open spec fn spec_encodable(&self) -> bool {
        self.spec_wire_valid()
    }

    pub fn size_of(&self) -> (n: usize)
        ensures
            n == self.spec_encoding().len(),
            n <= 1,
    {
        proof {
            self.lemma_wire();
        }
        Self::wire_size()
    }

    /// Appends the parameter data to `out`.
    pub fn write_encoding(&self, out: &mut Vec<u8>)
        ensures
            final(out)@ == old(out)@ + self.spec_encoding(),
    {
        self.write_wire(out);
    }

    pub fn encode_parameter_data(&self, buf: &mut [u8]) -> (r: Result<usize, ParameterDataError>)
        ensures
            encoded_into(old(buf)@, final(buf)@, self.spec_encoding(), r),
    {
        encode_record(self, buf)
    }

    pub fn decode_parameter_data(buf: &[u8]) -> (r: Result<Self, ParameterDataError>)
        ensures
            r == Self::spec_decoded(buf@),
    {
        decode_record(buf)
    }

    /// Decoding the parameter data of an encodable value gives it back.
    pub proof fn lemma_roundtrip(&self)
        requires
            self.spec_encodable(),
        ensures
            Self::spec_decoded(self.spec_encoding()) == Ok::<Self, ParameterDataError>(*self),
    {
        lemma_record_roundtrip(*self);
    }
}

#[derive(Clone, Copy, Debug, PartialEq, Eq, Structural)]
pub struct GetPresetInfoResponse {
    pub level_field_supported: bool,
    pub preset_sequence_supported: bool,
    pub split_times_supported: bool,
    pub dmx_fail_infinite_delay_time_supported: bool,
    pub dmx_fail_infinite_hold_time_supported: bool,
    pub startup_infinite_hold_time_supported: bool,
    pub maximum_scene_number: u16,
    pub minimum_preset_fade_time_supported: u16,
    pub maximum_preset_fade_time_supported: u16,
    pub minimum_preset_wait_time_supported: u16,
    pub maximum_preset_wait_time_supported: u16,
    pub minimum_dmx_fail_delay_time_supported: SupportedTimes,
    pub maximum_dmx_fail_delay_time_supported: SupportedTimes,
    pub minimum_dmx_fail_hold_time_supported: SupportedTimes,
    pub maximum_dmx_fail_hold_time_supported: SupportedTimes,
    pub minimum_startup_delay_time_supported: SupportedTimes,
    pub maximum_startup_delay_time_supported: SupportedTimes,
    pub minimum_startup_hold_time_supported: SupportedTimes,
    pub maximum_startup_hold_time_supported: SupportedTimes,
}

impl<'a> FixedWire<'a> for GetPresetInfoResponse {
    open spec fn spec_size() -> nat {
        32
    }

    open spec fn spec_wire(&self) -> Seq<u8> {
        self.level_field_supported.spec_wire() + self.preset_sequence_supported.spec_wire() + self.split_times_supported.spec_wire() + self.dmx_fail_infinite_delay_time_supported.spec_wire() + self.dmx_fail_infinite_hold_time_supported.spec_wire() + self.startup_infinite_hold_time_supported.spec_wire() + self.maximum_scene_number.spec_wire() + self.minimum_preset_fade_time_supported.spec_wire() + self.maximum_preset_fade_time_supported.spec_wire() + self.minimum_preset_wait_time_supported.spec_wire() + self.maximum_preset_wait_time_supported.spec_wire() + self.minimum_dmx_fail_delay_time_supported.spec_wire() + self.maximum_dmx_fail_delay_time_supported.spec_wire() + self.minimum_dmx_fail_hold_time_supported.spec_wire() + self.maximum_dmx_fail_hold_time_supported.spec_wire() + self.minimum_startup_delay_time_supported.spec_wire() + self.maximum_startup_delay_time_supported.spec_wire() + self.minimum_startup_hold_time_supported.spec_wire() + self.maximum_startup_hold_time_supported.spec_wire()
    }

    open spec fn spec_read(bytes: Seq<u8>) -> Option<Self> {
        if <bool as FixedWire>::spec_read(bytes.subrange(0, 1)) is Some
            && <bool as FixedWire>::spec_read(bytes.subrange(1, 2)) is Some
            && <bool as FixedWire>::spec_read(bytes.subrange(2, 3)) is Some
            && <bool as FixedWire>::spec_read(bytes.subrange(3, 4)) is Some
            && <bool as FixedWire>::spec_read(bytes.subrange(4, 5)) is Some
            && <bool as FixedWire>::spec_read(bytes.subrange(5, 6)) is Some
            && <u16 as FixedWire>::spec_read(bytes.subrange(6, 8)) is Some
            && <u16 as FixedWire>::spec_read(bytes.subrange(8, 10)) is Some
            && <u16 as FixedWire>::spec_read(bytes.subrange(10, 12)) is Some
            && <u16 as FixedWire>::spec_read(bytes.subrange(12, 14)) is Some
            && <u16 as FixedWire>::spec_read(bytes.subrange(14, 16)) is Some
            && <SupportedTimes as FixedWire>::spec_read(bytes.subrange(16, 18)) is Some
            && <SupportedTimes as FixedWire>::spec_read(bytes.subrange(18, 20)) is Some
            && <SupportedTimes as FixedWire>::spec_read(bytes.subrange(20, 22)) is Some
            && <SupportedTimes as FixedWire>::spec_read(bytes.subrange(22, 24)) is Some
            && <SupportedTimes as FixedWire>::spec_read(bytes.subrange(24, 26)) is Some
            && <SupportedTimes as FixedWire>::spec_read(bytes.subrange(26, 28)) is Some
            && <SupportedTimes as FixedWire>::spec_read(bytes.subrange(28, 30)) is Some
            && <SupportedTimes as FixedWire>::spec_read(bytes.subrange(30, 32)) is Some {
            Some(GetPresetInfoResponse {
                level_field_supported: <bool as FixedWire>::spec_read(bytes.subrange(0, 1)).unwrap(),
                preset_sequence_supported: <bool as FixedWire>::spec_read(bytes.subrange(1, 2)).unwrap(),
                split_times_supported: <bool as FixedWire>::spec_read(bytes.subrange(2, 3)).unwrap(),
                dmx_fail_infinite_delay_time_supported: <bool as FixedWire>::spec_read(bytes.subrange(3, 4)).unwrap(),
                dmx_fail_infinite_hold_time_supported: <bool as FixedWire>::spec_read(bytes.subrange(4, 5)).unwrap(),
                startup_infinite_hold_time_supported: <bool as FixedWire>::spec_read(bytes.subrange(5, 6)).unwrap(),
                maximum_scene_number: <u16 as FixedWire>::spec_read(bytes.subrange(6, 8)).unwrap(),
                minimum_preset_fade_time_supported: <u16 as FixedWire>::spec_read(bytes.subrange(8, 10)).unwrap(),
                maximum_preset_fade_time_supported: <u16 as FixedWire>::spec_read(bytes.subrange(10, 12)).unwrap(),
                minimum_preset_wait_time_supported: <u16 as FixedWire>::spec_read(bytes.subrange(12, 14)).unwrap(),
                maximum_preset_wait_time_supported: <u16 as FixedWire>::spec_read(bytes.subrange(14, 16)).unwrap(),
                minimum_dmx_fail_delay_time_supported: <SupportedTimes as FixedWire>::spec_read(bytes.subrange(16, 18)).unwrap(),
                maximum_dmx_fail_delay_time_supported: <SupportedTimes as FixedWire>::spec_read(bytes.subrange(18, 20)).unwrap(),
                minimum_dmx_fail_hold_time_supported: <SupportedTimes as FixedWire>::spec_read(bytes.subrange(20, 22)).unwrap(),
                maximum_dmx_fail_hold_time_supported: <SupportedTimes as FixedWire>::spec_read(bytes.subrange(22, 24)).unwrap(),
                minimum_startup_delay_time_supported: <SupportedTimes as FixedWire>::spec_read(bytes.subrange(24, 26)).unwrap(),
                maximum_startup_delay_time_supported: <SupportedTimes as FixedWire>::spec_read(bytes.subrange(26, 28)).unwrap(),
                minimum_startup_hold_time_supported: <SupportedTimes as FixedWire>::spec_read(bytes.subrange(28, 30)).unwrap(),
                maximum_startup_hold_time_supported: <SupportedTimes as FixedWire>::spec_read(bytes.subrange(30, 32)).unwrap(),
            })
        } else {
            None
        }
    }

    open spec fn spec_wire_valid(&self) -> bool {
        self.level_field_supported.spec_wire_valid() && self.preset_sequence_supported.spec_wire_valid() && self.split_times_supported.spec_wire_valid() && self.dmx_fail_infinite_delay_time_supported.spec_wire_valid() && self.dmx_fail_infinite_hold_time_supported.spec_wire_valid() && self.startup_infinite_hold_time_supported.spec_wire_valid() && self.maximum_scene_number.spec_wire_valid() && self.minimum_preset_fade_time_supported.spec_wire_valid() && self.maximum_preset_fade_time_supported.spec_wire_valid() && self.minimum_preset_wait_time_supported.spec_wire_valid() && self.maximum_preset_wait_time_supported.spec_wire_valid() && self.minimum_dmx_fail_delay_time_supported.spec_wire_valid() && self.maximum_dmx_fail_delay_time_supported.spec_wire_valid() && self.minimum_dmx_fail_hold_time_supported.spec_wire_valid() && self.maximum_dmx_fail_hold_time_supported.spec_wire_valid() && self.minimum_startup_delay_time_supported.spec_wire_valid() && self.maximum_startup_delay_time_supported.spec_wire_valid() && self.minimum_startup_hold_time_supported.spec_wire_valid() && self.maximum_startup_hold_time_supported.spec_wire_valid()
    }

    fn wire_size() -> (n: usize) {
        32
    }

    #[verifier::spinoff_prover]
    #[verifier::rlimit(100)]
    fn write_wire(&self, out: &mut Vec<u8>) {
        let ghost start = out@;
        self.level_field_supported.write_wire(out);
        assert(out@ =~= start + (self.level_field_supported.spec_wire()));
        self.preset_sequence_supported.write_wire(out);
        assert(out@ =~= start + (self.level_field_supported.spec_wire() + self.preset_sequence_supported.spec_wire()));
        self.split_times_supported.write_wire(out);
        assert(out@ =~= start + (self.level_field_supported.spec_wire() + self.preset_sequence_supported.spec_wire() + self.split_times_supported.spec_wire()));
        self.dmx_fail_infinite_delay_time_supported.write_wire(out);
        assert(out@ =~= start + (self.level_field_supported.spec_wire() + self.preset_sequence_supported.spec_wire() + self.split_times_supported.spec_wire() + self.dmx_fail_infinite_delay_time_supported.spec_wire()));
        self.dmx_fail_infinite_hold_time_supported.write_wire(out);
        assert(out@ =~= start + (self.level_field_supported.spec_wire() + self.preset_sequence_supported.spec_wire() + self.split_times_supported.spec_wire() + self.dmx_fail_infinite_delay_time_supported.spec_wire() + self.dmx_fail_infinite_hold_time_supported.spec_wire()));
        self.startup_infinite_hold_time_supported.write_wire(out);
        assert(out@ =~= start + (self.level_field_supported.spec_wire() + self.preset_sequence_supported.spec_wire() + self.split_times_supported.spec_wire() + self.dmx_fail_infinite_delay_time_supported.spec_wire() + self.dmx_fail_infinite_hold_time_supported.spec_wire() + self.startup_infinite_hold_time_supported.spec_wire()));
        self.maximum_scene_number.write_wire(out);
        assert(out@ =~= start + (self.level_field_supported.spec_wire() + self.preset_sequence_supported.spec_wire() + self.split_times_supported.spec_wire() + self.dmx_fail_infinite_delay_time_supported.spec_wire() + self.dmx_fail_infinite_hold_time_supported.spec_wire() + self.startup_infinite_hold_time_supported.spec_wire() + self.maximum_scene_number.spec_wire()));
        self.minimum_preset_fade_time_supported.write_wire(out);
        assert(out@ =~= start + (self.level_field_supported.spec_wire() + self.preset_sequence_supported.spec_wire() + self.split_times_supported.spec_wire() + self.dmx_fail_infinite_delay_time_supported.spec_wire() + self.dmx_fail_infinite_hold_time_supported.spec_wire() + self.startup_infinite_hold_time_supported.spec_wire() + self.maximum_scene_number.spec_wire() + self.minimum_preset_fade_time_supported.spec_wire()));
        self.maximum_preset_fade_time_supported.write_wire(out);
        assert(out@ =~= start + (self.level_field_supported.spec_wire() + self.preset_sequence_supported.spec_wire() + self.split_times_supported.spec_wire() + self.dmx_fail_infinite_delay_time_supported.spec_wire() + self.dmx_fail_infinite_hold_time_supported.spec_wire() + self.startup_infinite_hold_time_supported.spec_wire() + self.maximum_scene_number.spec_wire() + self.minimum_preset_fade_time_supported.spec_wire() + self.maximum_preset_fade_time_supported.spec_wire()));
        self.minimum_preset_wait_time_supported.write_wire(out);
        assert(out@ =~= start + (self.level_field_supported.spec_wire() + self.preset_sequence_supported.spec_wire() + self.split_times_supported.spec_wire() + self.dmx_fail_infinite_delay_time_supported.spec_wire() + self.dmx_fail_infinite_hold_time_supported.spec_wire() + self.startup_infinite_hold_time_supported.spec_wire() + self.maximum_scene_number.spec_wire() + self.minimum_preset_fade_time_supported.spec_wire() + self.maximum_preset_fade_time_supported.spec_wire() + self.minimum_preset_wait_time_supported.spec_wire()));
        self.maximum_preset_wait_time_supported.write_wire(out);
        assert(out@ =~= start + (self.level_field_supported.spec_wire() + self.preset_sequence_supported.spec_wire() + self.split_times_supported.spec_wire() + self.dmx_fail_infinite_delay_time_supported.spec_wire() + self.dmx_fail_infinite_hold_time_supported.spec_wire() + self.startup_infinite_hold_time_supported.spec_wire() + self.maximum_scene_number.spec_wire() + self.minimum_preset_fade_time_supported.spec_wire() + self.maximum_preset_fade_time_supported.spec_wire() + self.minimum_preset_wait_time_supported.spec_wire() + self.maximum_preset_wait_time_supported.spec_wire()));
        self.minimum_dmx_fail_delay_time_supported.write_wire(out);
        assert(out@ =~= start + (self.level_field_supported.spec_wire() + self.preset_sequence_supported.spec_wire() + self.split_times_supported.spec_wire() + self.dmx_fail_infinite_delay_time_supported.spec_wire() + self.dmx_fail_infinite_hold_time_supported.spec_wire() + self.startup_infinite_hold_time_supported.spec_wire() + self.maximum_scene_number.spec_wire() + self.minimum_preset_fade_time_supported.spec_wire() + self.maximum_preset_fade_time_supported.spec_wire() + self.minimum_preset_wait_time_supported.spec_wire() + self.maximum_preset_wait_time_supported.spec_wire() + self.minimum_dmx_fail_delay_time_supported.spec_wire()));
        self.maximum_dmx_fail_delay_time_supported.write_wire(out);
        assert(out@ =~= start + (self.level_field_supported.spec_wire() + self.preset_sequence_supported.spec_wire() + self.split_times_supported.spec_wire() + self.dmx_fail_infinite_delay_time_supported.spec_wire() + self.dmx_fail_infinite_hold_time_supported.spec_wire() + self.startup_infinite_hold_time_supported.spec_wire() + self.maximum_scene_number.spec_wire() + self.minimum_preset_fade_time_supported.spec_wire() + self.maximum_preset_fade_time_supported.spec_wire() + self.minimum_preset_wait_time_supported.spec_wire() + self.maximum_preset_wait_time_supported.spec_wire() + self.minimum_dmx_fail_delay_time_supported.spec_wire() + self.maximum_dmx_fail_delay_time_supported.spec_wire()));
        self.minimum_dmx_fail_hold_time_supported.write_wire(out);
        assert(out@ =~= start + (self.level_field_supported.spec_wire() + self.preset_sequence_supported.spec_wire() + self.split_times_supported.spec_wire() + self.dmx_fail_infinite_delay_time_supported.spec_wire() + self.dmx_fail_infinite_hold_time_supported.spec_wire() + self.startup_infinite_hold_time_supported.spec_wire() + self.maximum_scene_number.spec_wire() + self.minimum_preset_fade_time_supported.spec_wire() + self.maximum_preset_fade_time_supported.spec_wire() + self.minimum_preset_wait_time_supported.spec_wire() + self.maximum_preset_wait_time_supported.spec_wire() + self.minimum_dmx_fail_delay_time_supported.spec_wire() + self.maximum_dmx_fail_delay_time_supported.spec_wire() + self.minimum_dmx_fail_hold_time_supported.spec_wire()));
        self.maximum_dmx_fail_hold_time_supported.write_wire(out);
        assert(out@ =~= start + (self.level_field_supported.spec_wire() + self.preset_sequence_supported.spec_wire() + self.split_times_supported.spec_wire() + self.dmx_fail_infinite_delay_time_supported.spec_wire() + self.dmx_fail_infinite_hold_time_supported.spec_wire() + self.startup_infinite_hold_time_supported.spec_wire() + self.maximum_scene_number.spec_wire() + self.minimum_preset_fade_time_supported.spec_wire() + self.maximum_preset_fade_time_supported.spec_wire() + self.minimum_preset_wait_time_supported.spec_wire() + self.maximum_preset_wait_time_supported.spec_wire() + self.minimum_dmx_fail_delay_time_supported.spec_wire() + self.maximum_dmx_fail_delay_time_supported.spec_wire() + self.minimum_dmx_fail_hold_time_supported.spec_wire() + self.maximum_dmx_fail_hold_time_supported.spec_wire()));
        self.minimum_startup_delay_time_supported.write_wire(out);
        assert(out@ =~= start + (self.level_field_supported.spec_wire() + self.preset_sequence_supported.spec_wire() + self.split_times_supported.spec_wire() + self.dmx_fail_infinite_delay_time_supported.spec_wire() + self.dmx_fail_infinite_hold_time_supported.spec_wire() + self.startup_infinite_hold_time_supported.spec_wire() + self.maximum_scene_number.spec_wire() + self.minimum_preset_fade_time_supported.spec_wire() + self.maximum_preset_fade_time_supported.spec_wire() + self.minimum_preset_wait_time_supported.spec_wire() + self.maximum_preset_wait_time_supported.spec_wire() + self.minimum_dmx_fail_delay_time_supported.spec_wire() + self.maximum_dmx_fail_delay_time_supported.spec_wire() + self.minimum_dmx_fail_hold_time_supported.spec_wire() + self.maximum_dmx_fail_hold_time_supported.spec_wire() + self.minimum_startup_delay_time_supported.spec_wire()));
        self.maximum_startup_delay_time_supported.write_wire(out);
        assert(out@ =~= start + (self.level_field_supported.spec_wire() + self.preset_sequence_supported.spec_wire() + self.split_times_supported.spec_wire() + self.dmx_fail_infinite_delay_time_supported.spec_wire() + self.dmx_fail_infinite_hold_time_supported.spec_wire() + self.startup_infinite_hold_time_supported.spec_wire() + self.maximum_scene_number.spec_wire() + self.minimum_preset_fade_time_supported.spec_wire() + self.maximum_preset_fade_time_supported.spec_wire() + self.minimum_preset_wait_time_supported.spec_wire() + self.maximum_preset_wait_time_supported.spec_wire() + self.minimum_dmx_fail_delay_time_supported.spec_wire() + self.maximum_dmx_fail_delay_time_supported.spec_wire() + self.minimum_dmx_fail_hold_time_supported.spec_wire() + self.maximum_dmx_fail_hold_time_supported.spec_wire() + self.minimum_startup_delay_time_supported.spec_wire() + self.maximum_startup_delay_time_supported.spec_wire()));
        self.minimum_startup_hold_time_supported.write_wire(out);
        assert(out@ =~= start + (self.level_field_supported.spec_wire() + self.preset_sequence_supported.spec_wire() + self.split_times_supported.spec_wire() + self.dmx_fail_infinite_delay_time_supported.spec_wire() + self.dmx_fail_infinite_hold_time_supported.spec_wire() + self.startup_infinite_hold_time_supported.spec_wire() + self.maximum_scene_number.spec_wire() + self.minimum_preset_fade_time_supported.spec_wire() + self.maximum_preset_fade_time_supported.spec_wire() + self.minimum_preset_wait_time_supported.spec_wire() + self.maximum_preset_wait_time_supported.spec_wire() + self.minimum_dmx_fail_delay_time_supported.spec_wire() + self.maximum_dmx_fail_delay_time_supported.spec_wire() + self.minimum_dmx_fail_hold_time_supported.spec_wire() + self.maximum_dmx_fail_hold_time_supported.spec_wire() + self.minimum_startup_delay_time_supported.spec_wire() + self.maximum_startup_delay_time_supported.spec_wire() + self.minimum_startup_hold_time_supported.spec_wire()));
        self.maximum_startup_hold_time_supported.write_wire(out);
        assert(out@ =~= start + (self.level_field_supported.spec_wire() + self.preset_sequence_supported.spec_wire() + self.split_times_supported.spec_wire() + self.dmx_fail_infinite_delay_time_supported.spec_wire() + self.dmx_fail_infinite_hold_time_supported.spec_wire() + self.startup_infinite_hold_time_supported.spec_wire() + self.maximum_scene_number.spec_wire() + self.minimum_preset_fade_time_supported.spec_wire() + self.maximum_preset_fade_time_supported.spec_wire() + self.minimum_preset_wait_time_supported.spec_wire() + self.maximum_preset_wait_time_supported.spec_wire() + self.minimum_dmx_fail_delay_time_supported.spec_wire() + self.maximum_dmx_fail_delay_time_supported.spec_wire() + self.minimum_dmx_fail_hold_time_supported.spec_wire() + self.maximum_dmx_fail_hold_time_supported.spec_wire() + self.minimum_startup_delay_time_supported.spec_wire() + self.maximum_startup_delay_time_supported.spec_wire() + self.minimum_startup_hold_time_supported.spec_wire() + self.maximum_startup_hold_time_supported.spec_wire()));
        proof {
            assert(out@ =~= start + self.spec_wire());
        }
    }

    #[verifier::spinoff_prover]
    #[verifier::rlimit(100)]
    fn read_wire(buf: &'a [u8], pos: usize) -> (r: Option<Self>) {
        let _len = buf.len();
        let ghost bytes = buf@.subrange(pos as int, pos + 32);
        proof {
            assert(bytes.subrange(0, 1) =~= buf@.subrange(pos + 0, pos + 1));
            assert(bytes.subrange(1, 2) =~= buf@.subrange(pos + 1, pos + 2));
            assert(bytes.subrange(2, 3) =~= buf@.subrange(pos + 2, pos + 3));
            assert(bytes.subrange(3, 4) =~= buf@.subrange(pos + 3, pos + 4));
            assert(bytes.subrange(4, 5) =~= buf@.subrange(pos + 4, pos + 5));
            assert(bytes.subrange(5, 6) =~= buf@.subrange(pos + 5, pos + 6));
            assert(bytes.subrange(6, 8) =~= buf@.subrange(pos + 6, pos + 8));
            assert(bytes.subrange(8, 10) =~= buf@.subrange(pos + 8, pos + 10));
            assert(bytes.subrange(10, 12) =~= buf@.subrange(pos + 10, pos + 12));
            assert(bytes.subrange(12, 14) =~= buf@.subrange(pos + 12, pos + 14));
            assert(bytes.subrange(14, 16) =~= buf@.subrange(pos + 14, pos + 16));
            assert(bytes.subrange(16, 18) =~= buf@.subrange(pos + 16, pos + 18));
            assert(bytes.subrange(18, 20) =~= buf@.subrange(pos + 18, pos + 20));
            assert(bytes.subrange(20, 22) =~= buf@.subrange(pos + 20, pos + 22));
            assert(bytes.subrange(22, 24) =~= buf@.subrange(pos + 22, pos + 24));
            assert(bytes.subrange(24, 26) =~= buf@.subrange(pos + 24, pos + 26));
            assert(bytes.subrange(26, 28) =~= buf@.subrange(pos + 26, pos + 28));
            assert(bytes.subrange(28, 30) =~= buf@.subrange(pos + 28, pos + 30));
            assert(bytes.subrange(30, 32) =~= buf@.subrange(pos + 30, pos + 32));
        }
        let v0 = match <bool as FixedWire>::read_wire(buf, pos) {
            Some(v) => v,
            None => return None,
        };
        let v1 = match <bool as FixedWire>::read_wire(buf, pos + 1) {
            Some(v) => v,
            None => return None,
        };
        let v2 = match <bool as FixedWire>::read_wire(buf, pos + 2) {
            Some(v) => v,
            None => return None,
        };
        let v3 = match <bool as FixedWire>::read_wire(buf, pos + 3) {
            Some(v) => v,
            None => return None,
        };
        let v4 = match <bool as FixedWire>::read_wire(buf, pos + 4) {
            Some(v) => v,
            None => return None,
        };
        let v5 = match <bool as FixedWire>::read_wire(buf, pos + 5) {
            Some(v) => v,
            None => return None,
        };
        let v6 = match <u16 as FixedWire>::read_wire(buf, pos + 6) {
            Some(v) => v,
            None => return None,
        };
        let v7 = match <u16 as FixedWire>::read_wire(buf, pos + 8) {
            Some(v) => v,
            None => return None,
        };
        let v8 = match <u16 as FixedWire>::read_wire(buf, pos + 10) {
            Some(v) => v,
            None => return None,
        };
        let v9 = match <u16 as FixedWire>::read_wire(buf, pos + 12) {
            Some(v) => v,
            None => return None,
        };
        let v10 = match <u16 as FixedWire>::read_wire(buf, pos + 14) {
            Some(v) => v,
            None => return None,
        };
        let v11 = match <SupportedTimes as FixedWire>::read_wire(buf, pos + 16) {
            Some(v) => v,
            None => return None,
        };
        let v12 = match <SupportedTimes as FixedWire>::read_wire(buf, pos + 18) {
            Some(v) => v,
            None => return None,
        };
        let v13 = match <SupportedTimes as FixedWire>::read_wire(buf, pos + 20) {
            Some(v) => v,
            None => return None,
        };
        let v14 = match <SupportedTimes as FixedWire>::read_wire(buf, pos + 22) {
            Some(v) => v,
            None => return None,
        };
        let v15 = match <SupportedTimes as FixedWire>::read_wire(buf, pos + 24) {
            Some(v) => v,
            None => return None,
        };
        let v16 = match <SupportedTimes as FixedWire>::read_wire(buf, pos + 26) {
            Some(v) => v,
            None => return None,
        };
        let v17 = match <SupportedTimes as FixedWire>::read_wire(buf, pos + 28) {
            Some(v) => v,
            None => return None,
        };
        let v18 = match <SupportedTimes as FixedWire>::read_wire(buf, pos + 30) {
            Some(v) => v,
            None => return None,
        };
        Some(GetPresetInfoResponse { level_field_supported: v0, preset_sequence_supported: v1, split_times_supported: v2, dmx_fail_infinite_delay_time_supported: v3, dmx_fail_infinite_hold_time_supported: v4, startup_infinite_hold_time_supported: v5, maximum_scene_number: v6, minimum_preset_fade_time_supported: v7, maximum_preset_fade_time_supported: v8, minimum_preset_wait_time_supported: v9, maximum_preset_wait_time_supported: v10, minimum_dmx_fail_delay_time_supported: v11, maximum_dmx_fail_delay_time_supported: v12, minimum_dmx_fail_hold_time_supported: v13, maximum_dmx_fail_hold_time_supported: v14, minimum_startup_delay_time_supported: v15, maximum_startup_delay_time_supported: v16, minimum_startup_hold_time_supported: v17, maximum_startup_hold_time_supported: v18 })
    }

    #[verifier::spinoff_prover]
    #[verifier::rlimit(100)]
    proof fn lemma_wire(&self) {
        self.level_field_supported.lemma_wire();
        self.preset_sequence_supported.lemma_wire();
        self.split_times_supported.lemma_wire();
        self.dmx_fail_infinite_delay_time_supported.lemma_wire();
        self.dmx_fail_infinite_hold_time_supported.lemma_wire();
        self.startup_infinite_hold_time_supported.lemma_wire();
        self.maximum_scene_number.lemma_wire();
        self.minimum_preset_fade_time_supported.lemma_wire();
        self.maximum_preset_fade_time_supported.lemma_wire();
        self.minimum_preset_wait_time_supported.lemma_wire();
        self.maximum_preset_wait_time_supported.lemma_wire();
        self.minimum_dmx_fail_delay_time_supported.lemma_wire();
        self.maximum_dmx_fail_delay_time_supported.lemma_wire();
        self.minimum_dmx_fail_hold_time_supported.lemma_wire();
        self.maximum_dmx_fail_hold_time_supported.lemma_wire();
        self.minimum_startup_delay_time_supported.lemma_wire();
        self.maximum_startup_delay_time_supported.lemma_wire();
        self.minimum_startup_hold_time_supported.lemma_wire();
        self.maximum_startup_hold_time_supported.lemma_wire();
        let w = self.spec_wire();
        assert(w.subrange(0, 1) =~= self.level_field_supported.spec_wire());
        assert(w.subrange(1, 2) =~= self.preset_sequence_supported.spec_wire());
        assert(w.subrange(2, 3) =~= self.split_times_supported.spec_wire());
        assert(w.subrange(3, 4) =~= self.dmx_fail_infinite_delay_time_supported.spec_wire());
        assert(w.subrange(4, 5) =~= self.dmx_fail_infinite_hold_time_supported.spec_wire());
        assert(w.subrange(5, 6) =~= self.startup_infinite_hold_time_supported.spec_wire());
        assert(w.subrange(6, 8) =~= self.maximum_scene_number.spec_wire());
        assert(w.subrange(8, 10) =~= self.minimum_preset_fade_time_supported.spec_wire());
        assert(w.subrange(10, 12) =~= self.maximum_preset_fade_time_supported.spec_wire());
        assert(w.subrange(12, 14) =~= self.minimum_preset_wait_time_supported.spec_wire());
        assert(w.subrange(14, 16) =~= self.maximum_preset_wait_time_supported.spec_wire());
        assert(w.subrange(16, 18) =~= self.minimum_dmx_fail_delay_time_supported.spec_wire());
        assert(w.subrange(18, 20) =~= self.maximum_dmx_fail_delay_time_supported.spec_wire());
        assert(w.subrange(20, 22) =~= self.minimum_dmx_fail_hold_time_supported.spec_wire());
        assert(w.subrange(22, 24) =~= self.maximum_dmx_fail_hold_time_supported.spec_wire());
        assert(w.subrange(24, 26) =~= self.minimum_startup_delay_time_supported.spec_wire());
        assert(w.subrange(26, 28) =~= self.maximum_startup_delay_time_supported.spec_wire());
        assert(w.subrange(28, 30) =~= self.minimum_startup_hold_time_supported.spec_wire());
        assert(w.subrange(30, 32) =~= self.maximum_startup_hold_time_supported.spec_wire());
        if self.spec_wire_valid() {
            assert(<bool as FixedWire>::spec_read(w.subrange(0, 1)) == Some(self.level_field_supported));
            assert(<bool as FixedWire>::spec_read(w.subrange(1, 2)) == Some(self.preset_sequence_supported));
            assert(<bool as FixedWire>::spec_read(w.subrange(2, 3)) == Some(self.split_times_supported));
            assert(<bool as FixedWire>::spec_read(w.subrange(3, 4)) == Some(self.dmx_fail_infinite_delay_time_supported));
            assert(<bool as FixedWire>::spec_read(w.subrange(4, 5)) == Some(self.dmx_fail_infinite_hold_time_supported));
            assert(<bool as FixedWire>::spec_read(w.subrange(5, 6)) == Some(self.startup_infinite_hold_time_supported));
            assert(<u16 as FixedWire>::spec_read(w.subrange(6, 8)) == Some(self.maximum_scene_number));
            assert(<u16 as FixedWire>::spec_read(w.subrange(8, 10)) == Some(self.minimum_preset_fade_time_supported));
            assert(<u16 as FixedWire>::spec_read(w.subrange(10, 12)) == Some(self.maximum_preset_fade_time_supported));
            assert(<u16 as FixedWire>::spec_read(w.subrange(12, 14)) == Some(self.minimum_preset_wait_time_supported));
            assert(<u16 as FixedWire>::spec_read(w.subrange(14, 16)) == Some(self.maximum_preset_wait_time_supported));
            assert(<SupportedTimes as FixedWire>::spec_read(w.subrange(16, 18)) == Some(self.minimum_dmx_fail_delay_time_supported));
            assert(<SupportedTimes as FixedWire>::spec_read(w.subrange(18, 20)) == Some(self.maximum_dmx_fail_delay_time_supported));
            assert(<SupportedTimes as FixedWire>::spec_read(w.subrange(20, 22)) == Some(self.minimum_dmx_fail_hold_time_supported));
            assert(<SupportedTimes as FixedWire>::spec_read(w.subrange(22, 24)) == Some(self.maximum_dmx_fail_hold_time_supported));
            assert(<SupportedTimes as FixedWire>::spec_read(w.subrange(24, 26)) == Some(self.minimum_startup_delay_time_supported));
            assert(<SupportedTimes as FixedWire>::spec_read(w.subrange(26, 28)) == Some(self.maximum_startup_delay_time_supported));
            assert(<SupportedTimes as FixedWire>::spec_read(w.subrange(28, 30)) == Some(self.minimum_startup_hold_time_supported));
            assert(<SupportedTimes as FixedWire>::spec_read(w.subrange(30, 32)) == Some(self.maximum_startup_hold_time_supported));
        }
    }
}

impl GetPresetInfoResponse {
    /// The parameter data of the value.
    pub open spec fn spec_encoding(&self) -> Seq<u8> {
        self.spec_wire()
    }

    /// The value that parameter data stands for, or why it stands for none.
    pub open spec fn spec_decoded(buf: Seq<u8>) -> Result<Self, ParameterDataError> {
        record_decoded::<Self>(buf)
    }

    /// Whether decoding the parameter data gives the value back.
    pub open spec fn spec_encodable(&self) -> bool {
        self.spec_wire_valid()
    }

    pub fn size_of(&self) -> (n: usize)
        ensures
            n == self.spec_encoding().len(),
            n <= 32,
    {
        proof {
            self.lemma_wire();
        }
        Self::wire_size()
    }

    /// Appends the parameter data to `out`.
    pub fn write_encoding(&self, out: &mut Vec<u8>)
        ensures
            final(out)@ == old(out)@ + self.spec_encoding(),
    {
        self.write_wire(out);
    }

    pub fn encode_parameter_data(&self, buf: &mut [u8]) -> (r: Result<usize, ParameterDataError>)
        ensures
            encoded_into(old(buf)@, final(buf)@, self.spec_encoding(), r),
    {
        encode_record(self, buf)
    }

    pub fn decode_parameter_data(buf: &[u8]) -> (r: Result<Self, ParameterDataError>)
        ensures
            r == Self::spec_decoded(buf@),
    {
        decode_record(buf)
    }

    /// Decoding the parameter data of an encodable value gives it back.
    pub proof fn lemma_roundtrip(&self)
        requires
            self.spec_encodable(),
        ensures
            Self::spec_decoded(self.spec_encoding()) == Ok::<Self, ParameterDataError>(*self),
    {
        lemma_record_roundtrip(*self);
    }
}

#[derive(Clone, Copy, Debug, PartialEq, Eq, Structural)]
pub struct GetPresetMergeModeResponse {
    pub merge_mode: MergeMode,
}

impl<'a> FixedWire<'a> for GetPresetMergeModeResponse {
    open spec fn spec_size() -> nat {
        1
    }

    open spec fn spec_wire(&self) -> Seq<u8> {
        self.merge_mode.spec_wire()
    }

    open spec fn spec_read(bytes: Seq<u8>) -> Option<Self> {
        if <MergeMode as FixedWire>::spec_read(bytes.subrange(0, 1)) is Some {
            Some(GetPresetMergeModeResponse {
                merge_mode: <MergeMode as FixedWire>::spec_read(bytes.subrange(0, 1)).unwrap(),
            })
        } else {
            None
        }
    }

    open spec fn spec_wire_valid(&self) -> bool {
        self.merge_mode.spec_wire_valid()
    }

    fn wire_size() -> (n: usize) {
        1
    }

    fn write_wire(&self, out: &mut Vec<u8>) {
        let ghost start = out@;
        self.merge_mode.write_wire(out);
        proof {
            assert(out@ =~= start + self.spec_wire());
        }
    }

    fn read_wire(buf: &'a [u8], pos: usize) -> (r: Option<Self>) {
        let _len = buf.len();
        let ghost bytes = buf@.subrange(pos as int, pos + 1);
        proof {
            assert(bytes.subrange(0, 1) =~= buf@.subrange(pos + 0, pos + 1));
        }
        let v0 = match <MergeMode as FixedWire>::read_wire(buf, pos) {
            Some(v) => v,
            None => return None,
        };
        Some(GetPresetMergeModeResponse { merge_mode: v0 })
    }

    proof fn lemma_wire(&self) {
        self.merge_mode.lemma_wire();
        let w = self.spec_wire();
        assert(w.subrange(0, 1) =~= self.merge_mode.spec_wire());
        if self.spec_wire_valid() {
            assert(<MergeMode as FixedWire>::spec_read(w.subrange(0, 1)) == Some(self.merge_mode));
        }
    }
}

impl GetPresetMergeModeResponse {
    /// The parameter data of the value.
    pub open spec fn spec_encoding(&self) -> Seq<u8> {
        self.spec_wire()
    }

    /// The value that parameter data stands for, or why it stands for none.
    pub open spec fn spec_decoded(buf: Seq<u8>) -> Result<Self, ParameterDataError> {
        record_decoded::<Self>(buf)
    }

    /// Whether decoding the parameter data gives the value back.
    pub open spec fn spec_encodable(&self) -> bool {
        self.spec_wire_valid()
    }

    pub fn size_of(&self) -> (n: usize)
        ensures
            n == self.spec_encoding().len(),
            n <= 1,
    {
        proof {
            self.lemma_wire();
        }
        Self::wire_size()
    }

    /// Appends the parameter data to `out`.
    pub fn write_encoding(&self, out: &mut Vec<u8>)
        ensures
            final(out)@ == old(out)@ + self.spec_encoding(),
    {
        self.write_wire(out);
    }

    pub fn encode_parameter_data(&self, buf: &mut [u8]) -> (r: Result<usize, ParameterDataError>)
        ensures
            encoded_into(old(buf)@, final(buf)@, self.spec_encoding(), r),
    {
        encode_record(self, buf)
    }

    pub fn decode_parameter_data(buf: &[u8]) -> (r: Result<Self, ParameterDataError>)
        ensures
            r == Self::spec_decoded(buf@),
    {
        decode_record(buf)
    }

    /// Decoding the parameter data of an encodable value gives it back.
    pub proof fn lemma_roundtrip(&self)
        requires
            self.spec_encodable(),
        ensures
            Self::spec_decoded(self.spec_encoding()) == Ok::<Self, ParameterDataError>(*self),
    {
        lemma_record_roundtrip(*self);
    }
}

#[derive(Clone, Copy, Debug, PartialEq, Eq, Structural)]
pub struct GetPresetStatusResponse {
    pub scene_id: u16,
    pub up_fade_time: u16,
    pub down_fade_time: u16,
    pub wait_time: u16,
    pub programmed: PresetProgrammed,
}

impl<'a> FixedWire<'a> for GetPresetStatusResponse {
    open spec fn spec_size() -> nat {
        9
    }

    open spec fn spec_wire(&self) -> Seq<u8> {
        self.scene_id.spec_wire() + self.up_fade_time.spec_wire() + self.down_fade_time.spec_wire() + self.wait_time.spec_wire() + self.programmed.spec_wire()
    }

    open spec fn spec_read(bytes: Seq<u8>) -> Option<Self> {
        if <u16 as FixedWire>::spec_read(bytes.subrange(0, 2)) is Some
            && <u16 as FixedWire>::spec_read(bytes.subrange(2, 4)) is Some
            && <u16 as FixedWire>::spec_read(bytes.subrange(4, 6)) is Some
            && <u16 as FixedWire>::spec_read(bytes.subrange(6, 8)) is Some
            && <PresetProgrammed as FixedWire>::spec_read(bytes.subrange(8, 9)) is Some {
            Some(GetPresetStatusResponse {
                scene_id: <u16 as FixedWire>::spec_read(bytes.subrange(0, 2)).unwrap(),
                up_fade_time: <u16 as FixedWire>::spec_read(bytes.subrange(2, 4)).unwrap(),
                down_fade_time: <u16 as FixedWire>::spec_read(bytes.subrange(4, 6)).unwrap(),
                wait_time: <u16 as FixedWire>::spec_read(bytes.subrange(6, 8)).unwrap(),
                programmed: <PresetProgrammed as FixedWire>::spec_read(bytes.subrange(8, 9)).unwrap(),
            })
        } else {
            None
        }
    }

    open spec fn spec_wire_valid(&self) -> bool {
        self.scene_id.spec_wire_valid() && self.up_fade_time.spec_wire_valid() && self.down_fade_time.spec_wire_valid() && self.wait_time.spec_wire_valid() && self.programmed.spec_wire_valid()
    }

    fn wire_size() -> (n: usize) {
        9
    }

    fn write_wire(&self, out: &mut Vec<u8>) {
        let ghost start = out@;
        self.scene_id.write_wire(out);
        self.up_fade_time.write_wire(out);
        self.down_fade_time.write_wire(out);
        self.wait_time.write_wire(out);
        self.programmed.write_wire(out);
        proof {
            assert(out@ =~= start + self.spec_wire());
        }
    }

    fn read_wire(buf: &'a [u8], pos: usize) -> (r: Option<Self>) {
        let _len = buf.len();
        let ghost bytes = buf@.subrange(pos as int, pos + 9);
        proof {
            assert(bytes.subrange(0, 2) =~= buf@.subrange(pos + 0, pos + 2));
            assert(bytes.subrange(2, 4) =~= buf@.subrange(pos + 2, pos + 4));
            assert(bytes.subrange(4, 6) =~= buf@.subrange(pos + 4, pos + 6));
            assert(bytes.subrange(6, 8) =~= buf@.subrange(pos + 6, pos + 8));
            assert(bytes.subrange(8, 9) =~= buf@.subrange(pos + 8, pos + 9));
        }
        let v0 = match <u16 as FixedWire>::read_wire(buf, pos) {
            Some(v) => v,
            None => return None,
        };
        let v1 = match <u16 as FixedWire>::read_wire(buf, pos + 2) {
            Some(v) => v,
            None => return None,
        };
        let v2 = match <u16 as FixedWire>::read_wire(buf, pos + 4) {
            Some(v) => v,
            None => return None,
        };
        let v3 = match <u16 as FixedWire>::read_wire(buf, pos + 6) {
            Some(v) => v,
            None => return None,
        };
        let v4 = match <PresetProgrammed as FixedWire>::read_wire(buf, pos + 8) {
            Some(v) => v,
            None => return None,
        };
        Some(GetPresetStatusResponse { scene_id: v0, up_fade_time: v1, down_fade_time: v2, wait_time: v3, programmed: v4 })
    }

    proof fn lemma_wire(&self) {
        self.scene_id.lemma_wire();
        self.up_fade_time.lemma_wire();
        self.down_fade_time.lemma_wire();
        self.wait_time.lemma_wire();
        self.programmed.lemma_wire();
        let w = self.spec_wire();
        assert(w.subrange(0, 2) =~= self.scene_id.spec_wire());
        assert(w.subrange(2, 4) =~= self.up_fade_time.spec_wire());
        assert(w.subrange(4, 6) =~= self.down_fade_time.spec_wire());
        assert(w.subrange(6, 8) =~= self.wait_time.spec_wire());
        assert(w.subrange(8, 9) =~= self.programmed.spec_wire());
        if self.spec_wire_valid() {
            assert(<u16 as FixedWire>::spec_read(w.subrange(0, 2)) == Some(self.scene_id));
            assert(<u16 as FixedWire>::spec_read(w.subrange(2, 4)) == Some(self.up_fade_time));
            assert(<u16 as FixedWire>::spec_read(w.subrange(4, 6)) == Some(self.down_fade_time));
            assert(<u16 as FixedWire>::spec_read(w.subrange(6, 8)) == Some(self.wait_time));
            assert(<PresetProgrammed as FixedWire>::spec_read(w.subrange(8, 9)) == Some(self.programmed));
        }
    }
}

impl GetPresetStatusResponse {
    /// The parameter data of the value.
    pub open spec fn spec_encoding(&self) -> Seq<u8> {
        self.spec_wire()
    }

    /// The value that parameter data stands for, or why it stands for none.
    pub open spec fn spec_decoded(buf: Seq<u8>) -> Result<Self, ParameterDataError> {
        record_decoded::<Self>(buf)
    }

    /// Whether decoding the parameter data gives the value back.
    pub open spec fn spec_encodable(&self) -> bool {
        self.spec_wire_valid()
    }

    pub fn size_of(&self) -> (n: usize)
        ensures
            n == self.spec_encoding().len(),
            n <= 9,
    {
        proof {
            self.lemma_wire();
        }
        Self::wire_size()
    }

    /// Appends the parameter data to `out`.
    pub fn write_encoding(&self, out: &mut Vec<u8>)
        ensures
            final(out)@ == old(out)@ + self.spec_encoding(),
    {
        self.write_wire(out);
    }

    pub fn encode_parameter_data(&self, buf: &mut [u8]) -> (r: Result<usize, ParameterDataError>)
        ensures
            encoded_into(old(buf)@, final(buf)@, self.spec_encoding(), r),
    {
        encode_record(self, buf)
    }

    pub fn decode_parameter_data(buf: &[u8]) -> (r: Result<Self, ParameterDataError>)
        ensures
            r == Self::spec_decoded(buf@),
    {
        decode_record(buf)
    }

    /// Decoding the parameter data of an encodable value gives it back.
    pub proof fn lemma_roundtrip(&self)
        requires
            self.spec_encodable(),
        ensures
            Self::spec_decoded(self.spec_encoding()) == Ok::<Self, ParameterDataError>(*self),
    {
        lemma_record_roundtrip(*self);
    }
}

#[derive(Clone, Copy, Debug, PartialEq, Eq, Structural)]
pub struct GetPowerOnSelfTestResponse {
    pub power_on_self_test: bool,
}

impl<'a> FixedWire<'a> for GetPowerOnSelfTestResponse {
    open spec fn spec_size() -> nat {
        1
    }

    open spec fn spec_wire(&self) -> Seq<u8> {
        self.power_on_self_test.spec_wire()
    }

    open spec fn spec_read(bytes: Seq<u8>) -> Option<Self> {
        if <bool as FixedWire>::spec_read(bytes.subrange(0, 1)) is Some {
            Some(GetPowerOnSelfTestResponse {
                power_on_self_test: <bool as FixedWire>::spec_read(bytes.subrange(0, 1)).unwrap(),
            })
        } else {
            None
        }
    }

    open spec fn spec_wire_valid(&self) -> bool {
        self.power_on_self_test.spec_wire_valid()
    }

    fn wire_size() -> (n: usize) {
        1
    }

    fn write_wire(&self, out: &mut Vec<u8>) {
        let ghost start = out@;
        self.power_on_self_test.write_wire(out);
        proof {
            assert(out@ =~= start + self.spec_wire());
        }
    }

    fn read_wire(buf: &'a [u8], pos: usize) -> (r: Option<Self>) {
        let _len = buf.len();
        let ghost bytes = buf@.subrange(pos as int, pos + 1);
        proof {
            assert(bytes.subrange(0, 1) =~= buf@.subrange(pos + 0, pos + 1));
        }
        let v0 = match <bool as FixedWire>::read_wire(buf, pos) {
            Some(v) => v,
            None => return None,
        };
        Some(GetPowerOnSelfTestResponse { power_on_self_test: v0 })
    }

    proof fn lemma_wire(&self) {
        self.power_on_self_test.lemma_wire();
        let w = self.spec_wire();
        assert(w.subrange(0, 1) =~= self.power_on_self_test.spec_wire());
        if self.spec_wire_valid() {
            assert(<bool as FixedWire>::spec_read(w.subrange(0, 1)) == Some(self.power_on_self_test));
        }
    }
}

impl GetPowerOnSelfTestResponse {
    /// The parameter data of the value.
    pub open spec fn spec_encoding(&self) -> Seq<u8> {
        self.spec_wire()
    }

    /// The value that parameter data stands for, or why it stands for none.
    pub open spec fn spec_decoded(buf: Seq<u8>) -> Result<Self, ParameterDataError> {
        record_decoded::<Self>(buf)
    }

    /// Whether decoding the parameter data gives the value back.
    pub open spec fn spec_encodable(&self) -> bool {
        self.spec_wire_valid()
    }

    pub fn size_of(&self) -> (n: usize)
        ensures
            n == self.spec_encoding().len(),
            n <= 1,
    {
        proof {
            self.lemma_wire();
        }
        Self::wire_size()
    }

    /// Appends the parameter data to `out`.
    pub fn write_encoding(&self, out: &mut Vec<u8>)
        ensures
            final(out)@ == old(out)@ + self.spec_encoding(),
    {
        self.write_wire(out);
    }

    pub fn encode_parameter_data(&self, buf: &mut [u8]) -> (r: Result<usize, ParameterDataError>)
        ensures
            encoded_into(old(buf)@, final(buf)@, self.spec_encoding(), r),
    {
        encode_record(self, buf)
    }

    pub fn decode_parameter_data(buf: &[u8]) -> (r: Result<Self, ParameterDataError>)
        ensures
            r == Self::spec_decoded(buf@),
    {
        decode_record(buf)
    }

    /// Decoding the parameter data of an encodable value gives it back.
    pub proof fn lemma_roundtrip(&self)
        requires
            self.spec_encodable(),
        ensures
            Self::spec_decoded(self.spec_encoding()) == Ok::<Self, ParameterDataError>(*self),
    {
        lemma_record_roundtrip(*self);
    }
}

} // verus!
