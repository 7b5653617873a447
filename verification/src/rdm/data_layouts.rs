//! The byte layout of parameter data made of fixed size fields followed by a text or a list.

use crate::rdm::parameter::{ParameterId};
use crate::rdm::parameter::e120::{DmxPersonalityDescription, ImplementedCommandClass, ParameterDataType, ParameterDescriptionLabel, SelfTest, SelfTestDescription, SensorDefinitionDescription, SensorType, SensorUnit, SensorUnitPrefix, SlotDescription};
use crate::rdm::parameter::e120::response::{GetDmxPersonalityDescriptionResponse, GetParameterDescriptionResponse, GetSelfTestDescriptionResponse, GetSensorDefinitionResponse, GetSlotDescriptionResponse};
use crate::rdm::parameter::e137_1::{CurveDescription, LockStateDescription, ModulationFrequencyDescription, OutputResponseTimeDescription};
use crate::rdm::parameter::e137_1::response::{GetCurveDescriptionResponse, GetLockStateDescriptionResponse, GetModulationFrequencyDescriptionResponse, GetOutputResponseTimeDescriptionResponse};
use crate::rdm::parameter::e137_7::{BackgroundQueuedStatusPolicyDescription, EndpointId, EndpointLabel, EndpointTimingDescription};
use crate::rdm::parameter::e137_7::request::{SetEndpointLabelRequest};
use crate::rdm::parameter::e137_7::response::{GetBackgroundQueuedStatusPolicyDescriptionResponse, GetEndpointLabelResponse, GetEndpointListResponse, GetEndpointRespondersResponse, GetEndpointTimingDescriptionResponse};
use crate::rdm::parameter::lists::{EndpointEntryList, ResponderList};
use crate::rdm::error::ParameterDataError;
use crate::rdm::wire::FixedWire;
use crate::rdm::wire_layouts::lemma_i16_bytes;
use vstd::prelude::*;

verus! {

impl GetEndpointListResponse {
    /// The parameter data holds the fixed size fields first, big endian, in their order, then `endpoint_list`.
    pub proof fn lemma_encoding_layout(self)
        ensures
            self.spec_encoding() == seq![(self.list_change_number / 0x100_0000) as u8, ((self.list_change_number / 0x1_0000) % 0x100) as u8, ((self.list_change_number / 0x100) % 0x100) as u8, (self.list_change_number % 0x100) as u8] + self.endpoint_list.spec_encode_items(),
    {
    }

    /// Decoded parameter data has its fixed size fields at their bytes and `endpoint_list` read from the rest.
    pub proof fn lemma_decoding_layout(buf: Seq<u8>)
        ensures
            Self::spec_decoded(buf) matches Ok(v) ==> buf.len() >= 4
                && v.list_change_number == (buf[0] as int * 0x100_0000 + buf[1] as int * 0x1_0000 + buf[2] as int * 0x100 + buf[3] as int) as u32
                && EndpointEntryList::spec_decode_items(buf.subrange(4, buf.len() as int)) == Ok::<_, ParameterDataError>(v.endpoint_list),
    {
    }
}

impl GetEndpointLabelResponse {
    /// The parameter data holds the fixed size fields first, big endian, in their order, then `label`.
    pub proof fn lemma_encoding_layout(self)
        ensures
            self.spec_encoding() == self.endpoint_id.spec_wire() + self.label.spec_encode(),
    {
    }

    /// Decoded parameter data has its fixed size fields at their bytes and `label` read from the rest.
    pub proof fn lemma_decoding_layout(buf: Seq<u8>)
        ensures
            Self::spec_decoded(buf) matches Ok(v) ==> buf.len() >= 2
                && Some(v.endpoint_id) == <EndpointId as FixedWire>::spec_read(buf.subrange(0, 2))
                && EndpointLabel::spec_decode(buf.subrange(2, buf.len() as int)) == Ok::<_, ParameterDataError>(v.label),
    {
    }
}

impl GetEndpointTimingDescriptionResponse {
    /// The parameter data holds the fixed size fields first, big endian, in their order, then `description`.
    pub proof fn lemma_encoding_layout(self)
        ensures
            self.spec_encoding() == seq![self.setting_id] + self.description.spec_encode(),
    {
    }

    /// Decoded parameter data has its fixed size fields at their bytes and `description` read from the rest.
    pub proof fn lemma_decoding_layout(buf: Seq<u8>)
        ensures
            Self::spec_decoded(buf) matches Ok(v) ==> buf.len() >= 1
                && v.setting_id == buf[0]
                && EndpointTimingDescription::spec_decode(buf.subrange(1, buf.len() as int)) == Ok::<_, ParameterDataError>(v.description),
    {
    }
}

impl GetEndpointRespondersResponse {
    /// The parameter data holds the fixed size fields first, big endian, in their order, then `responders`.
    pub proof fn lemma_encoding_layout(self)
        ensures
            self.spec_encoding() == self.endpoint_id.spec_wire() + seq![(self.list_change_number / 0x100_0000) as u8, ((self.list_change_number / 0x1_0000) % 0x100) as u8, ((self.list_change_number / 0x100) % 0x100) as u8, (self.list_change_number % 0x100) as u8] + self.responders.spec_encode_items(),
    {
    }

    /// Decoded parameter data has its fixed size fields at their bytes and `responders` read from the rest.
    pub proof fn lemma_decoding_layout(buf: Seq<u8>)
        ensures
            Self::spec_decoded(buf) matches Ok(v) ==> buf.len() >= 6
                && Some(v.endpoint_id) == <EndpointId as FixedWire>::spec_read(buf.subrange(0, 2))
                && v.list_change_number == (buf[2] as int * 0x100_0000 + buf[3] as int * 0x1_0000 + buf[4] as int * 0x100 + buf[5] as int) as u32
                && ResponderList::spec_decode_items(buf.subrange(6, buf.len() as int)) == Ok::<_, ParameterDataError>(v.responders),
    {
    }
}

impl GetBackgroundQueuedStatusPolicyDescriptionResponse {
    /// The parameter data holds the fixed size fields first, big endian, in their order, then `description`.
    pub proof fn lemma_encoding_layout(self)
        ensures
            self.spec_encoding() == seq![self.policy_id] + self.description.spec_encode(),
    {
    }

    /// Decoded parameter data has its fixed size fields at their bytes and `description` read from the rest.
    pub proof fn lemma_decoding_layout(buf: Seq<u8>)
        ensures
            Self::spec_decoded(buf) matches Ok(v) ==> buf.len() >= 1
                && v.policy_id == buf[0]
                && BackgroundQueuedStatusPolicyDescription::spec_decode(buf.subrange(1, buf.len() as int)) == Ok::<_, ParameterDataError>(v.description),
    {
    }
}

impl SetEndpointLabelRequest {
    /// The parameter data holds the fixed size fields first, big endian, in their order, then `label`.
    pub proof fn lemma_encoding_layout(self)
        ensures
            self.spec_encoding() == self.endpoint_id.spec_wire() + self.label.spec_encode(),
    {
    }

    /// Decoded parameter data has its fixed size fields at their bytes and `label` read from the rest.
    pub proof fn lemma_decoding_layout(buf: Seq<u8>)
        ensures
            Self::spec_decoded(buf) matches Ok(v) ==> buf.len() >= 2
                && Some(v.endpoint_id) == <EndpointId as FixedWire>::spec_read(buf.subrange(0, 2))
                && EndpointLabel::spec_decode(buf.subrange(2, buf.len() as int)) == Ok::<_, ParameterDataError>(v.label),
    {
    }
}

impl GetCurveDescriptionResponse {
    /// The parameter data holds the fixed size fields first, big endian, in their order, then `description`.
    pub proof fn lemma_encoding_layout(self)
        ensures
            self.spec_encoding() == seq![self.curve_id] + self.description.spec_encode(),
    {
    }

    /// Decoded parameter data has its fixed size fields at their bytes and `description` read from the rest.
    pub proof fn lemma_decoding_layout(buf: Seq<u8>)
        ensures
            Self::spec_decoded(buf) matches Ok(v) ==> buf.len() >= 1
                && v.curve_id == buf[0]
                && CurveDescription::spec_decode(buf.subrange(1, buf.len() as int)) == Ok::<_, ParameterDataError>(v.description),
    {
    }
}

impl GetOutputResponseTimeDescriptionResponse {
    /// The parameter data holds the fixed size fields first, big endian, in their order, then `description`.
    pub proof fn lemma_encoding_layout(self)
        ensures
            self.spec_encoding() == seq![self.response_time_id] + self.description.spec_encode(),
    {
    }

    /// Decoded parameter data has its fixed size fields at their bytes and `description` read from the rest.
    pub proof fn lemma_decoding_layout(buf: Seq<u8>)
        ensures
            Self::spec_decoded(buf) matches Ok(v) ==> buf.len() >= 1
                && v.response_time_id == buf[0]
                && OutputResponseTimeDescription::spec_decode(buf.subrange(1, buf.len() as int)) == Ok::<_, ParameterDataError>(v.description),
    {
    }
}

impl GetModulationFrequencyDescriptionResponse {
    /// The parameter data holds the fixed size fields first, big endian, in their order, then `description`.
    pub proof fn lemma_encoding_layout(self)
        ensures
            self.spec_encoding() == seq![self.modulation_frequency_id] + seq![(self.frequency / 0x100_0000) as u8, ((self.frequency / 0x1_0000) % 0x100) as u8, ((self.frequency / 0x100) % 0x100) as u8, (self.frequency % 0x100) as u8] + self.description.spec_encode(),
    {
    }

    /// Decoded parameter data has its fixed size fields at their bytes and `description` read from the rest.
    pub proof fn lemma_decoding_layout(buf: Seq<u8>)
        ensures
            Self::spec_decoded(buf) matches Ok(v) ==> buf.len() >= 5
                && v.modulation_frequency_id == buf[0]
                && v.frequency == (buf[1] as int * 0x100_0000 + buf[2] as int * 0x1_0000 + buf[3] as int * 0x100 + buf[4] as int) as u32
                && ModulationFrequencyDescription::spec_decode(buf.subrange(5, buf.len() as int)) == Ok::<_, ParameterDataError>(v.description),
    {
    }
}

impl GetLockStateDescriptionResponse {
    /// The parameter data holds the fixed size fields first, big endian, in their order, then `description`.
    pub proof fn lemma_encoding_layout(self)
        ensures
            self.spec_encoding() == seq![self.lock_state_id] + self.description.spec_encode(),
    {
    }

    /// Decoded parameter data has its fixed size fields at their bytes and `description` read from the rest.
    pub proof fn lemma_decoding_layout(buf: Seq<u8>)
        ensures
            Self::spec_decoded(buf) matches Ok(v) ==> buf.len() >= 1
                && v.lock_state_id == buf[0]
                && LockStateDescription::spec_decode(buf.subrange(1, buf.len() as int)) == Ok::<_, ParameterDataError>(v.description),
    {
    }
}

impl GetParameterDescriptionResponse {
    /// The parameter data holds the fixed size fields first, big endian, in their order, then `description`.
    pub proof fn lemma_encoding_layout(self)
        ensures
            self.spec_encoding() == self.parameter_id.spec_wire() + seq![self.parameter_data_length] + self.data_type.spec_wire() + self.command_class.spec_wire() + self.command_class.spec_wire() + self.unit_type.spec_wire() + self.prefix.spec_wire() + self.raw_minimum_valid_value.spec_wire() + self.raw_maximum_valid_value.spec_wire() + self.raw_default_value.spec_wire() + self.description.spec_encode(),
    {
    }

    /// Decoded parameter data has its fixed size fields at their bytes and `description` read from the rest.
    pub proof fn lemma_decoding_layout(buf: Seq<u8>)
        ensures
            Self::spec_decoded(buf) matches Ok(v) ==> buf.len() >= 20
                && Some(v.parameter_id) == <ParameterId as FixedWire>::spec_read(buf.subrange(0, 2))
                && v.parameter_data_length == buf[2]
                && Some(v.data_type) == <ParameterDataType as FixedWire>::spec_read(buf.subrange(3, 4))
                && Some(v.command_class) == <ImplementedCommandClass as FixedWire>::spec_read(buf.subrange(4, 5))
                && Some(v.unit_type) == <SensorUnit as FixedWire>::spec_read(buf.subrange(6, 7))
                && Some(v.prefix) == <SensorUnitPrefix as FixedWire>::spec_read(buf.subrange(7, 8))
                && Some(v.raw_minimum_valid_value) == <[u8; 4] as FixedWire>::spec_read(buf.subrange(8, 12))
                && Some(v.raw_maximum_valid_value) == <[u8; 4] as FixedWire>::spec_read(buf.subrange(12, 16))
                && Some(v.raw_default_value) == <[u8; 4] as FixedWire>::spec_read(buf.subrange(16, 20))
                && ParameterDescriptionLabel::spec_decode(buf.subrange(20, buf.len() as int)) == Ok::<_, ParameterDataError>(v.description),
    {
    }
}

impl GetDmxPersonalityDescriptionResponse {
    /// The parameter data holds the fixed size fields first, big endian, in their order, then `description`.
    pub proof fn lemma_encoding_layout(self)
        ensures
            self.spec_encoding() == seq![self.id] + seq![(self.dmx_slots_required / 0x100) as u8, (self.dmx_slots_required % 0x100) as u8] + self.description.spec_encode(),
    {
    }

    /// Decoded parameter data has its fixed size fields at their bytes and `description` read from the rest.
    pub proof fn lemma_decoding_layout(buf: Seq<u8>)
        ensures
            Self::spec_decoded(buf) matches Ok(v) ==> buf.len() >= 3
                && v.id == buf[0]
                && v.dmx_slots_required == (buf[1] as int * 0x100 + buf[2] as int) as u16
                && DmxPersonalityDescription::spec_decode(buf.subrange(3, buf.len() as int)) == Ok::<_, ParameterDataError>(v.description),
    {
    }
}

impl GetSlotDescriptionResponse {
    /// The parameter data holds the fixed size fields first, big endian, in their order, then `description`.
    pub proof fn lemma_encoding_layout(self)
        ensures
            self.spec_encoding() == seq![(self.slot_id / 0x100) as u8, (self.slot_id % 0x100) as u8] + self.description.spec_encode(),
    {
    }

    /// Decoded parameter data has its fixed size fields at their bytes and `description` read from the rest.
    pub proof fn lemma_decoding_layout(buf: Seq<u8>)
        ensures
            Self::spec_decoded(buf) matches Ok(v) ==> buf.len() >= 2
                && v.slot_id == (buf[0] as int * 0x100 + buf[1] as int) as u16
                && SlotDescription::spec_decode(buf.subrange(2, buf.len() as int)) == Ok::<_, ParameterDataError>(v.description),
    {
    }
}

impl GetSensorDefinitionResponse {
    /// The parameter data holds the fixed size fields first, big endian, in their order, then `description`.
    pub proof fn lemma_encoding_layout(self)
        ensures
            self.spec_encoding() == seq![self.id] + self.kind.spec_wire() + self.unit.spec_wire() + self.prefix.spec_wire() + seq![(((self.range_minimum_value as int + 0x1_0000) % 0x1_0000) / 0x100) as u8, (((self.range_minimum_value as int + 0x1_0000) % 0x1_0000) % 0x100) as u8] + seq![(((self.range_maximum_value as int + 0x1_0000) % 0x1_0000) / 0x100) as u8, (((self.range_maximum_value as int + 0x1_0000) % 0x1_0000) % 0x100) as u8] + seq![(((self.normal_minimum_value as int + 0x1_0000) % 0x1_0000) / 0x100) as u8, (((self.normal_minimum_value as int + 0x1_0000) % 0x1_0000) % 0x100) as u8] + seq![(((self.normal_maximum_value as int + 0x1_0000) % 0x1_0000) / 0x100) as u8, (((self.normal_maximum_value as int + 0x1_0000) % 0x1_0000) % 0x100) as u8] + seq![((if self.is_lowest_highest_detected_value_supported { 2int } else { 0int }) + (if self.is_recorded_value_supported { 1int } else { 0int })) as u8] + self.description.spec_encode(),
    {
        lemma_i16_bytes(self.range_minimum_value);
        lemma_i16_bytes(self.range_maximum_value);
        lemma_i16_bytes(self.normal_minimum_value);
        lemma_i16_bytes(self.normal_maximum_value);
    }

    /// Decoded parameter data has its fixed size fields at their bytes and `description` read from the rest.
    pub proof fn lemma_decoding_layout(buf: Seq<u8>)
        ensures
            Self::spec_decoded(buf) matches Ok(v) ==> buf.len() >= 13
                && v.id == buf[0]
                && Some(v.kind) == <SensorType as FixedWire>::spec_read(buf.subrange(1, 2))
                && Some(v.unit) == <SensorUnit as FixedWire>::spec_read(buf.subrange(2, 3))
                && Some(v.prefix) == <SensorUnitPrefix as FixedWire>::spec_read(buf.subrange(3, 4))
                && v.range_minimum_value == (if (buf[4] as int * 0x100 + buf[5] as int) < 0x8000 { (buf[4] as int * 0x100 + buf[5] as int) } else { (buf[4] as int * 0x100 + buf[5] as int) - 0x1_0000 }) as i16
                && v.range_maximum_value == (if (buf[6] as int * 0x100 + buf[7] as int) < 0x8000 { (buf[6] as int * 0x100 + buf[7] as int) } else { (buf[6] as int * 0x100 + buf[7] as int) - 0x1_0000 }) as i16
                && v.normal_minimum_value == (if (buf[8] as int * 0x100 + buf[9] as int) < 0x8000 { (buf[8] as int * 0x100 + buf[9] as int) } else { (buf[8] as int * 0x100 + buf[9] as int) - 0x1_0000 }) as i16
                && v.normal_maximum_value == (if (buf[10] as int * 0x100 + buf[11] as int) < 0x8000 { (buf[10] as int * 0x100 + buf[11] as int) } else { (buf[10] as int * 0x100 + buf[11] as int) - 0x1_0000 }) as i16
                && v.is_lowest_highest_detected_value_supported == ((buf[12] / 2) % 2 == 1)
                && v.is_recorded_value_supported == (buf[12] % 2 == 1)
                && SensorDefinitionDescription::spec_decode(buf.subrange(13, buf.len() as int)) == Ok::<_, ParameterDataError>(v.description),
    {
    }
}

impl GetSelfTestDescriptionResponse {
    /// The parameter data holds the fixed size fields first, big endian, in their order, then `description`.
    pub proof fn lemma_encoding_layout(self)
        ensures
            self.spec_encoding() == self.self_test_id.spec_wire() + self.description.spec_encode(),
    {
    }

    /// Decoded parameter data has its fixed size fields at their bytes and `description` read from the rest.
    pub proof fn lemma_decoding_layout(buf: Seq<u8>)
        ensures
            Self::spec_decoded(buf) matches Ok(v) ==> buf.len() >= 1
                && Some(v.self_test_id) == <SelfTest as FixedWire>::spec_read(buf.subrange(0, 1))
                && SelfTestDescription::spec_decode(buf.subrange(1, buf.len() as int)) == Ok::<_, ParameterDataError>(v.description),
    {
    }
}

} // verus!
