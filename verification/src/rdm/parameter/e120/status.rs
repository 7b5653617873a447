//! Status messages that responders queue, and the text that each standard status message stands
//! for.

use crate::rdm::common::SubDeviceId;
use crate::rdm::error::RdmError;
use crate::rdm::parameter::e120::{SlotIdDefinition, StatusType};
use crate::rdm::text::{
    lemma_ascii_concat, lemma_decimal, lemma_encode_utf8_concat, push_decimal, push_text, spec_decimal,
};
use crate::rdm::utils::{lemma_padded_array, spec_padded_array, str_from_utf8};
use crate::rdm::wire::FixedWire;
use vstd::prelude::*;
use vstd::string::StringSliceAdditionalSpecFns;
use vstd::utf8::{encode_utf8, is_ascii_chars, valid_utf8};

verus! {

broadcast use vstd::array::group_array_axioms;

impl SlotIdDefinition {
    /// The name of the slot definition, as it is shown to a user.
    pub open spec fn spec_text(self) -> Seq<char> {
        match self {
            SlotIdDefinition::Intensity => "Intensity"@,
            SlotIdDefinition::IntensityMaster => "Intensity Master"@,
            SlotIdDefinition::Pan => "Pan"@,
            SlotIdDefinition::Tilt => "Tilt"@,
            SlotIdDefinition::ColorWheel => "Color Wheel"@,
            SlotIdDefinition::ColorSubCyan => "Color Sub Cyan"@,
            SlotIdDefinition::ColorSubYellow => "Color Sub Yellow"@,
            SlotIdDefinition::ColorSubMagenta => "Color Sub Magenta"@,
            SlotIdDefinition::ColorAddRed => "Color Add Red"@,
            SlotIdDefinition::ColorAddGreen => "Color Add Green"@,
            SlotIdDefinition::ColorAddBlue => "Color Add Blue"@,
            SlotIdDefinition::ColorCorrection => "Color Correction"@,
            SlotIdDefinition::ColorScroll => "Color Scroll"@,
            SlotIdDefinition::ColorSemaphore => "Color Semaphore"@,
            SlotIdDefinition::StaticGoboWheel => "Static Gobo Wheel"@,
            SlotIdDefinition::RotoGoboWheel => "Roto Gobo Wheel"@,
            SlotIdDefinition::PrismWheel => "Prism Wheel"@,
            SlotIdDefinition::EffectsWheel => "Effects Wheel"@,
            SlotIdDefinition::BeamSizeIris => "Beam Size Iris"@,
            SlotIdDefinition::Edge => "Edge"@,
            SlotIdDefinition::Frost => "Frost"@,
            SlotIdDefinition::Strobe => "Strobe"@,
            SlotIdDefinition::Zoom => "Zoom"@,
            SlotIdDefinition::FramingShutter => "Framing Shutter"@,
            SlotIdDefinition::ShutterRotate => "Shutter Rotate"@,
            SlotIdDefinition::Douser => "Douser"@,
            SlotIdDefinition::BarnDoor => "Barn Door"@,
            SlotIdDefinition::LampControl => "Lamp Control"@,
            SlotIdDefinition::FixtureControl => "Fixture Control"@,
            SlotIdDefinition::FixtureSpeed => "Fixture Speed"@,
            SlotIdDefinition::Macro => "Macro"@,
            SlotIdDefinition::Undefined => "Undefined"@,
            SlotIdDefinition::ManufacturerSpecific(value) => "Manufacturer Specific: "@ + spec_decimal(value as nat),
            SlotIdDefinition::Unknown(value) => "Unknown Slot Id Definition: "@ + spec_decimal(value as nat),
        }
    }

    /// Appends the name of the slot definition, in UTF-8.
    pub fn write_text(&self, out: &mut Vec<u8>)
        ensures
            final(out)@ == old(out)@ + encode_utf8(self.spec_text()),
    {
        match self {
            SlotIdDefinition::Intensity => push_text(out, "Intensity"),
            SlotIdDefinition::IntensityMaster => push_text(out, "Intensity Master"),
            SlotIdDefinition::Pan => push_text(out, "Pan"),
            SlotIdDefinition::Tilt => push_text(out, "Tilt"),
            SlotIdDefinition::ColorWheel => push_text(out, "Color Wheel"),
            SlotIdDefinition::ColorSubCyan => push_text(out, "Color Sub Cyan"),
            SlotIdDefinition::ColorSubYellow => push_text(out, "Color Sub Yellow"),
            SlotIdDefinition::ColorSubMagenta => push_text(out, "Color Sub Magenta"),
            SlotIdDefinition::ColorAddRed => push_text(out, "Color Add Red"),
            SlotIdDefinition::ColorAddGreen => push_text(out, "Color Add Green"),
            SlotIdDefinition::ColorAddBlue => push_text(out, "Color Add Blue"),
            SlotIdDefinition::ColorCorrection => push_text(out, "Color Correction"),
            SlotIdDefinition::ColorScroll => push_text(out, "Color Scroll"),
            SlotIdDefinition::ColorSemaphore => push_text(out, "Color Semaphore"),
            SlotIdDefinition::StaticGoboWheel => push_text(out, "Static Gobo Wheel"),
            SlotIdDefinition::RotoGoboWheel => push_text(out, "Roto Gobo Wheel"),
            SlotIdDefinition::PrismWheel => push_text(out, "Prism Wheel"),
            SlotIdDefinition::EffectsWheel => push_text(out, "Effects Wheel"),
            SlotIdDefinition::BeamSizeIris => push_text(out, "Beam Size Iris"),
            SlotIdDefinition::Edge => push_text(out, "Edge"),
            SlotIdDefinition::Frost => push_text(out, "Frost"),
            SlotIdDefinition::Strobe => push_text(out, "Strobe"),
            SlotIdDefinition::Zoom => push_text(out, "Zoom"),
            SlotIdDefinition::FramingShutter => push_text(out, "Framing Shutter"),
            SlotIdDefinition::ShutterRotate => push_text(out, "Shutter Rotate"),
            SlotIdDefinition::Douser => push_text(out, "Douser"),
            SlotIdDefinition::BarnDoor => push_text(out, "Barn Door"),
            SlotIdDefinition::LampControl => push_text(out, "Lamp Control"),
            SlotIdDefinition::FixtureControl => push_text(out, "Fixture Control"),
            SlotIdDefinition::FixtureSpeed => push_text(out, "Fixture Speed"),
            SlotIdDefinition::Macro => push_text(out, "Macro"),
            SlotIdDefinition::Undefined => push_text(out, "Undefined"),
            SlotIdDefinition::ManufacturerSpecific(value) => {
                push_text(out, "Manufacturer Specific: ");
                push_decimal(out, *value as u64);
                proof {
                    lemma_encode_utf8_concat("Manufacturer Specific: "@, spec_decimal(*value as nat));
                }
            },
            SlotIdDefinition::Unknown(value) => {
                push_text(out, "Unknown Slot Id Definition: ");
                push_decimal(out, *value as u64);
                proof {
                    lemma_encode_utf8_concat("Unknown Slot Id Definition: "@, spec_decimal(*value as nat));
                }
            },
        }
    }

    /// The name of a slot definition is at most 33 ASCII characters.
    pub proof fn lemma_text(self)
        ensures
            is_ascii_chars(self.spec_text()),
            self.spec_text().len() <= 33,
    {
        match self {
            SlotIdDefinition::Intensity => reveal_strlit("Intensity"),
            SlotIdDefinition::IntensityMaster => reveal_strlit("Intensity Master"),
            SlotIdDefinition::Pan => reveal_strlit("Pan"),
            SlotIdDefinition::Tilt => reveal_strlit("Tilt"),
            SlotIdDefinition::ColorWheel => reveal_strlit("Color Wheel"),
            SlotIdDefinition::ColorSubCyan => reveal_strlit("Color Sub Cyan"),
            SlotIdDefinition::ColorSubYellow => reveal_strlit("Color Sub Yellow"),
            SlotIdDefinition::ColorSubMagenta => reveal_strlit("Color Sub Magenta"),
            SlotIdDefinition::ColorAddRed => reveal_strlit("Color Add Red"),
            SlotIdDefinition::ColorAddGreen => reveal_strlit("Color Add Green"),
            SlotIdDefinition::ColorAddBlue => reveal_strlit("Color Add Blue"),
            SlotIdDefinition::ColorCorrection => reveal_strlit("Color Correction"),
            SlotIdDefinition::ColorScroll => reveal_strlit("Color Scroll"),
            SlotIdDefinition::ColorSemaphore => reveal_strlit("Color Semaphore"),
            SlotIdDefinition::StaticGoboWheel => reveal_strlit("Static Gobo Wheel"),
            SlotIdDefinition::RotoGoboWheel => reveal_strlit("Roto Gobo Wheel"),
            SlotIdDefinition::PrismWheel => reveal_strlit("Prism Wheel"),
            SlotIdDefinition::EffectsWheel => reveal_strlit("Effects Wheel"),
            SlotIdDefinition::BeamSizeIris => reveal_strlit("Beam Size Iris"),
            SlotIdDefinition::Edge => reveal_strlit("Edge"),
            SlotIdDefinition::Frost => reveal_strlit("Frost"),
            SlotIdDefinition::Strobe => reveal_strlit("Strobe"),
            SlotIdDefinition::Zoom => reveal_strlit("Zoom"),
            SlotIdDefinition::FramingShutter => reveal_strlit("Framing Shutter"),
            SlotIdDefinition::ShutterRotate => reveal_strlit("Shutter Rotate"),
            SlotIdDefinition::Douser => reveal_strlit("Douser"),
            SlotIdDefinition::BarnDoor => reveal_strlit("Barn Door"),
            SlotIdDefinition::LampControl => reveal_strlit("Lamp Control"),
            SlotIdDefinition::FixtureControl => reveal_strlit("Fixture Control"),
            SlotIdDefinition::FixtureSpeed => reveal_strlit("Fixture Speed"),
            SlotIdDefinition::Macro => reveal_strlit("Macro"),
            SlotIdDefinition::Undefined => reveal_strlit("Undefined"),
            SlotIdDefinition::ManufacturerSpecific(value) => {
                reveal_strlit("Manufacturer Specific: ");
                lemma_decimal(value as nat);
                lemma_ascii_concat("Manufacturer Specific: "@, spec_decimal(value as nat));
            },
            SlotIdDefinition::Unknown(value) => {
                reveal_strlit("Unknown Slot Id Definition: ");
                lemma_decimal(value as nat);
                lemma_ascii_concat("Unknown Slot Id Definition: "@, spec_decimal(value as nat));
            },
        }
    }
}

/// The standard status messages.
#[derive(Clone, Copy, Debug, PartialEq, Eq, Structural)]
pub enum StatusMessageIdDefinition {
    CalibrationFailed,
    SensorNotFound,
    SensorAlwaysOn,
    LampDoused,
    LampStrike,
    OverTemperature,
    UnderTemperature,
    SensorOutOfRange,
    OverVoltagePhase,
    UnderVoltagePhase,
    OverCurrent,
    UnderCurrent,
    Phase,
    PhaseError,
    Amps,
    Volts,
    DimSlotOccupied,
    BreakerTrip,
    Watts,
    DimmerFailure,
    DimmerPanic,
    Ready,
    NotReady,
    LowFluid,
}

impl StatusMessageIdDefinition {
    /// The status message identifier of the definition.
    pub open spec fn spec_to_u16(self) -> u16 {
        match self {
            StatusMessageIdDefinition::CalibrationFailed => 0x0001,
            StatusMessageIdDefinition::SensorNotFound => 0x0002,
            StatusMessageIdDefinition::SensorAlwaysOn => 0x0003,
            StatusMessageIdDefinition::LampDoused => 0x0011,
            StatusMessageIdDefinition::LampStrike => 0x0012,
            StatusMessageIdDefinition::OverTemperature => 0x0021,
            StatusMessageIdDefinition::UnderTemperature => 0x0022,
            StatusMessageIdDefinition::SensorOutOfRange => 0x0023,
            StatusMessageIdDefinition::OverVoltagePhase => 0x0031,
            StatusMessageIdDefinition::UnderVoltagePhase => 0x0032,
            StatusMessageIdDefinition::OverCurrent => 0x0033,
            StatusMessageIdDefinition::UnderCurrent => 0x0034,
            StatusMessageIdDefinition::Phase => 0x0035,
            StatusMessageIdDefinition::PhaseError => 0x0036,
            StatusMessageIdDefinition::Amps => 0x0037,
            StatusMessageIdDefinition::Volts => 0x0038,
            StatusMessageIdDefinition::DimSlotOccupied => 0x0041,
            StatusMessageIdDefinition::BreakerTrip => 0x0042,
            StatusMessageIdDefinition::Watts => 0x0043,
            StatusMessageIdDefinition::DimmerFailure => 0x0044,
            StatusMessageIdDefinition::DimmerPanic => 0x0045,
            StatusMessageIdDefinition::Ready => 0x0050,
            StatusMessageIdDefinition::NotReady => 0x0051,
            StatusMessageIdDefinition::LowFluid => 0x0052,
        }
    }

    pub fn to_u16(&self) -> (r: u16)
        ensures
            r == self.spec_to_u16(),
    {
        match self {
            StatusMessageIdDefinition::CalibrationFailed => 0x0001,
            StatusMessageIdDefinition::SensorNotFound => 0x0002,
            StatusMessageIdDefinition::SensorAlwaysOn => 0x0003,
            StatusMessageIdDefinition::LampDoused => 0x0011,
            StatusMessageIdDefinition::LampStrike => 0x0012,
            StatusMessageIdDefinition::OverTemperature => 0x0021,
            StatusMessageIdDefinition::UnderTemperature => 0x0022,
            StatusMessageIdDefinition::SensorOutOfRange => 0x0023,
            StatusMessageIdDefinition::OverVoltagePhase => 0x0031,
            StatusMessageIdDefinition::UnderVoltagePhase => 0x0032,
            StatusMessageIdDefinition::OverCurrent => 0x0033,
            StatusMessageIdDefinition::UnderCurrent => 0x0034,
            StatusMessageIdDefinition::Phase => 0x0035,
            StatusMessageIdDefinition::PhaseError => 0x0036,
            StatusMessageIdDefinition::Amps => 0x0037,
            StatusMessageIdDefinition::Volts => 0x0038,
            StatusMessageIdDefinition::DimSlotOccupied => 0x0041,
            StatusMessageIdDefinition::BreakerTrip => 0x0042,
            StatusMessageIdDefinition::Watts => 0x0043,
            StatusMessageIdDefinition::DimmerFailure => 0x0044,
            StatusMessageIdDefinition::DimmerPanic => 0x0045,
            StatusMessageIdDefinition::Ready => 0x0050,
            StatusMessageIdDefinition::NotReady => 0x0051,
            StatusMessageIdDefinition::LowFluid => 0x0052,
        }
    }
}

/// The text that a standard status message stands for, with its two data values; none for other
/// messages.
pub open spec fn spec_status_text(status_message_id: u16, data_value1: u16, data_value2: u16) -> Option<Seq<char>> {
    let slot = SlotIdDefinition::spec_from_u16(data_value1).spec_text();
    let d1 = spec_decimal(data_value1 as nat);
    let d2 = spec_decimal(data_value2 as nat);
    match status_message_id {
        0x0001 => Some(slot + " failed calibration"@),
        0x0002 => Some(slot + " sensor not found"@),
        0x0003 => Some(slot + " sensor always on"@),
        0x0011 => Some("Lamp Doused"@),
        0x0012 => Some("Lamp Strike"@),
        0x0021 => Some("Sensor "@ + d1 + " over temp at "@ + d2 + " degrees C"@),
        0x0022 => Some("Sensor "@ + d1 + " under temp at "@ + d2 + " degrees C"@),
        0x0023 => Some("Sensor "@ + d1 + " out of range"@),
        0x0031 => Some("Phase "@ + d1 + " over voltage at "@ + d2 + " V"@),
        0x0032 => Some("Phase "@ + d1 + " under voltage at "@ + d2 + " V"@),
        0x0033 => Some("Phase "@ + d1 + " over current at "@ + d2 + " A"@),
        0x0034 => Some("Phase "@ + d1 + " under current at "@ + d2 + " A"@),
        0x0035 => Some("Phase "@ + d1 + " is at "@ + d2 + " degrees"@),
        0x0036 => Some("Phase "@ + d1 + " Error"@),
        0x0037 => Some(d1 + " Amps"@),
        0x0038 => Some(d1 + " Volts"@),
        0x0041 => Some("No Dimmer"@),
        0x0042 => Some("Tripped Breaker"@),
        0x0043 => Some(d1 + " Watts"@),
        0x0044 => Some("Dimmer Failure"@),
        0x0045 => Some("Panic Mode"@),
        0x0050 => Some(slot + " ready"@),
        0x0051 => Some(slot + " not ready"@),
        0x0052 => Some(slot + " low fluid"@),
        _ => None,
    }
}

/// The text of a status message is at most 64 ASCII characters.
#[verifier::spinoff_prover]
#[verifier::rlimit(50)]
pub proof fn lemma_status_text(status_message_id: u16, data_value1: u16, data_value2: u16)
    ensures
        spec_status_text(status_message_id, data_value1, data_value2) matches Some(t) ==> is_ascii_chars(t) && t.len() <= 64,
{
    let slot = SlotIdDefinition::spec_from_u16(data_value1).spec_text();
    let d1 = spec_decimal(data_value1 as nat);
    let d2 = spec_decimal(data_value2 as nat);
    SlotIdDefinition::spec_from_u16(data_value1).lemma_text();
    lemma_decimal(data_value1 as nat);
    lemma_decimal(data_value2 as nat);
    match status_message_id {
        0x0001 => {
            reveal_strlit(" failed calibration");
            lemma_ascii_concat(slot, " failed calibration"@);
        },
        0x0002 => {
            reveal_strlit(" sensor not found");
            lemma_ascii_concat(slot, " sensor not found"@);
        },
        0x0003 => {
            reveal_strlit(" sensor always on");
            lemma_ascii_concat(slot, " sensor always on"@);
        },
        0x0011 => {
            reveal_strlit("Lamp Doused");
        },
        0x0012 => {
            reveal_strlit("Lamp Strike");
        },
        0x0021 => {
            reveal_strlit("Sensor ");
            reveal_strlit(" over temp at ");
            reveal_strlit(" degrees C");
            lemma_ascii_concat("Sensor "@, d1);
            lemma_ascii_concat("Sensor "@ + d1, " over temp at "@);
            lemma_ascii_concat("Sensor "@ + d1 + " over temp at "@, d2);
            lemma_ascii_concat("Sensor "@ + d1 + " over temp at "@ + d2, " degrees C"@);
        },
        0x0022 => {
            reveal_strlit("Sensor ");
            reveal_strlit(" under temp at ");
            reveal_strlit(" degrees C");
            lemma_ascii_concat("Sensor "@, d1);
            lemma_ascii_concat("Sensor "@ + d1, " under temp at "@);
            lemma_ascii_concat("Sensor "@ + d1 + " under temp at "@, d2);
            lemma_ascii_concat("Sensor "@ + d1 + " under temp at "@ + d2, " degrees C"@);
        },
        0x0023 => {
            reveal_strlit("Sensor ");
            reveal_strlit(" out of range");
            lemma_ascii_concat("Sensor "@, d1);
            lemma_ascii_concat("Sensor "@ + d1, " out of range"@);
        },
        0x0031 => {
            reveal_strlit("Phase ");
            reveal_strlit(" over voltage at ");
            reveal_strlit(" V");
            lemma_ascii_concat("Phase "@, d1);
            lemma_ascii_concat("Phase "@ + d1, " over voltage at "@);
            lemma_ascii_concat("Phase "@ + d1 + " over voltage at "@, d2);
            lemma_ascii_concat("Phase "@ + d1 + " over voltage at "@ + d2, " V"@);
        },
        0x0032 => {
            reveal_strlit("Phase ");
            reveal_strlit(" under voltage at ");
            reveal_strlit(" V");
            lemma_ascii_concat("Phase "@, d1);
            lemma_ascii_concat("Phase "@ + d1, " under voltage at "@);
            lemma_ascii_concat("Phase "@ + d1 + " under voltage at "@, d2);
            lemma_ascii_concat("Phase "@ + d1 + " under voltage at "@ + d2, " V"@);
        },
        0x0033 => {
            reveal_strlit("Phase ");
            reveal_strlit(" over current at ");
            reveal_strlit(" A");
            lemma_ascii_concat("Phase "@, d1);
            lemma_ascii_concat("Phase "@ + d1, " over current at "@);
            lemma_ascii_concat("Phase "@ + d1 + " over current at "@, d2);
            lemma_ascii_concat("Phase "@ + d1 + " over current at "@ + d2, " A"@);
        },
        0x0034 => {
            reveal_strlit("Phase ");
            reveal_strlit(" under current at ");
            reveal_strlit(" A");
            lemma_ascii_concat("Phase "@, d1);
            lemma_ascii_concat("Phase "@ + d1, " under current at "@);
            lemma_ascii_concat("Phase "@ + d1 + " under current at "@, d2);
            lemma_ascii_concat("Phase "@ + d1 + " under current at "@ + d2, " A"@);
        },
        0x0035 => {
            reveal_strlit("Phase ");
            reveal_strlit(" is at ");
            reveal_strlit(" degrees");
            lemma_ascii_concat("Phase "@, d1);
            lemma_ascii_concat("Phase "@ + d1, " is at "@);
            lemma_ascii_concat("Phase "@ + d1 + " is at "@, d2);
            lemma_ascii_concat("Phase "@ + d1 + " is at "@ + d2, " degrees"@);
        },
        0x0036 => {
            reveal_strlit("Phase ");
            reveal_strlit(" Error");
            lemma_ascii_concat("Phase "@, d1);
            lemma_ascii_concat("Phase "@ + d1, " Error"@);
        },
        0x0037 => {
            reveal_strlit(" Amps");
            lemma_ascii_concat(d1, " Amps"@);
        },
        0x0038 => {
            reveal_strlit(" Volts");
            lemma_ascii_concat(d1, " Volts"@);
        },
        0x0041 => {
            reveal_strlit("No Dimmer");
        },
        0x0042 => {
            reveal_strlit("Tripped Breaker");
        },
        0x0043 => {
            reveal_strlit(" Watts");
            lemma_ascii_concat(d1, " Watts"@);
        },
        0x0044 => {
            reveal_strlit("Dimmer Failure");
        },
        0x0045 => {
            reveal_strlit("Panic Mode");
        },
        0x0050 => {
            reveal_strlit(" ready");
            lemma_ascii_concat(slot, " ready"@);
        },
        0x0051 => {
            reveal_strlit(" not ready");
            lemma_ascii_concat(slot, " not ready"@);
        },
        0x0052 => {
            reveal_strlit(" low fluid");
            lemma_ascii_concat(slot, " low fluid"@);
        },
        _ => {},
    }
}

/// Appends the text of a status message, for a standard one; returns whether it is one.
#[verifier::spinoff_prover]
#[verifier::rlimit(50)]
fn write_status_text(out: &mut Vec<u8>, status_message_id: u16, data_value1: u16, data_value2: u16) -> (known: bool)
    ensures
        known == spec_status_text(status_message_id, data_value1, data_value2) is Some,
        spec_status_text(status_message_id, data_value1, data_value2) matches Some(t) ==> final(out)@ == old(out)@ + encode_utf8(t),
        spec_status_text(status_message_id, data_value1, data_value2) is None ==> final(out)@ == old(out)@,
{
    let ghost slot = SlotIdDefinition::spec_from_u16(data_value1).spec_text();
    let ghost d1 = spec_decimal(data_value1 as nat);
    let ghost d2 = spec_decimal(data_value2 as nat);
    match status_message_id {
        0x0001 => {
            SlotIdDefinition::from_u16(data_value1).write_text(out);
            push_text(out, " failed calibration");
            proof {
                lemma_encode_utf8_concat(slot, " failed calibration"@);
            }
            true
        },
        0x0002 => {
            SlotIdDefinition::from_u16(data_value1).write_text(out);
            push_text(out, " sensor not found");
            proof {
                lemma_encode_utf8_concat(slot, " sensor not found"@);
            }
            true
        },
        0x0003 => {
            SlotIdDefinition::from_u16(data_value1).write_text(out);
            push_text(out, " sensor always on");
            proof {
                lemma_encode_utf8_concat(slot, " sensor always on"@);
            }
            true
        },
        0x0011 => {
            push_text(out, "Lamp Doused");
            proof {
            }
            true
        },
        0x0012 => {
            push_text(out, "Lamp Strike");
            proof {
            }
            true
        },
        0x0021 => {
            push_text(out, "Sensor ");
            push_decimal(out, data_value1 as u64);
            push_text(out, " over temp at ");
            push_decimal(out, data_value2 as u64);
            push_text(out, " degrees C");
            proof {
                lemma_encode_utf8_concat("Sensor "@, d1);
                lemma_encode_utf8_concat("Sensor "@ + d1, " over temp at "@);
                lemma_encode_utf8_concat("Sensor "@ + d1 + " over temp at "@, d2);
                lemma_encode_utf8_concat("Sensor "@ + d1 + " over temp at "@ + d2, " degrees C"@);
            }
            true
        },
        0x0022 => {
            push_text(out, "Sensor ");
            push_decimal(out, data_value1 as u64);
            push_text(out, " under temp at ");
            push_decimal(out, data_value2 as u64);
            push_text(out, " degrees C");
            proof {
                lemma_encode_utf8_concat("Sensor "@, d1);
                lemma_encode_utf8_concat("Sensor "@ + d1, " under temp at "@);
                lemma_encode_utf8_concat("Sensor "@ + d1 + " under temp at "@, d2);
                lemma_encode_utf8_concat("Sensor "@ + d1 + " under temp at "@ + d2, " degrees C"@);
            }
            true
        },
        0x0023 => {
            push_text(out, "Sensor ");
            push_decimal(out, data_value1 as u64);
            push_text(out, " out of range");
            proof {
                lemma_encode_utf8_concat("Sensor "@, d1);
                lemma_encode_utf8_concat("Sensor "@ + d1, " out of range"@);
            }
            true
        },
        0x0031 => {
            push_text(out, "Phase ");
            push_decimal(out, data_value1 as u64);
            push_text(out, " over voltage at ");
            push_decimal(out, data_value2 as u64);
            push_text(out, " V");
            proof {
                lemma_encode_utf8_concat("Phase "@, d1);
                lemma_encode_utf8_concat("Phase "@ + d1, " over voltage at "@);
                lemma_encode_utf8_concat("Phase "@ + d1 + " over voltage at "@, d2);
                lemma_encode_utf8_concat("Phase "@ + d1 + " over voltage at "@ + d2, " V"@);
            }
            true
        },
        0x0032 => {
            push_text(out, "Phase ");
            push_decimal(out, data_value1 as u64);
            push_text(out, " under voltage at ");
            push_decimal(out, data_value2 as u64);
            push_text(out, " V");
            proof {
                lemma_encode_utf8_concat("Phase "@, d1);
                lemma_encode_utf8_concat("Phase "@ + d1, " under voltage at "@);
                lemma_encode_utf8_concat("Phase "@ + d1 + " under voltage at "@, d2);
                lemma_encode_utf8_concat("Phase "@ + d1 + " under voltage at "@ + d2, " V"@);
            }
            true
        },
        0x0033 => {
            push_text(out, "Phase ");
            push_decimal(out, data_value1 as u64);
            push_text(out, " over current at ");
            push_decimal(out, data_value2 as u64);
            push_text(out, " A");
            proof {
                lemma_encode_utf8_concat("Phase "@, d1);
                lemma_encode_utf8_concat("Phase "@ + d1, " over current at "@);
                lemma_encode_utf8_concat("Phase "@ + d1 + " over current at "@, d2);
                lemma_encode_utf8_concat("Phase "@ + d1 + " over current at "@ + d2, " A"@);
            }
            true
        },
        0x0034 => {
            push_text(out, "Phase ");
            push_decimal(out, data_value1 as u64);
            push_text(out, " under current at ");
            push_decimal(out, data_value2 as u64);
            push_text(out, " A");
            proof {
                lemma_encode_utf8_concat("Phase "@, d1);
                lemma_encode_utf8_concat("Phase "@ + d1, " under current at "@);
                lemma_encode_utf8_concat("Phase "@ + d1 + " under current at "@, d2);
                lemma_encode_utf8_concat("Phase "@ + d1 + " under current at "@ + d2, " A"@);
            }
            true
        },
        0x0035 => {
            push_text(out, "Phase ");
            push_decimal(out, data_value1 as u64);
            push_text(out, " is at ");
            push_decimal(out, data_value2 as u64);
            push_text(out, " degrees");
            proof {
                lemma_encode_utf8_concat("Phase "@, d1);
                lemma_encode_utf8_concat("Phase "@ + d1, " is at "@);
                lemma_encode_utf8_concat("Phase "@ + d1 + " is at "@, d2);
                lemma_encode_utf8_concat("Phase "@ + d1 + " is at "@ + d2, " degrees"@);
            }
            true
        },
        0x0036 => {
            push_text(out, "Phase ");
            push_decimal(out, data_value1 as u64);
            push_text(out, " Error");
            proof {
                lemma_encode_utf8_concat("Phase "@, d1);
                lemma_encode_utf8_concat("Phase "@ + d1, " Error"@);
            }
            true
        },
        0x0037 => {
            push_decimal(out, data_value1 as u64);
            push_text(out, " Amps");
            proof {
                lemma_encode_utf8_concat(d1, " Amps"@);
            }
            true
        },
        0x0038 => {
            push_decimal(out, data_value1 as u64);
            push_text(out, " Volts");
            proof {
                lemma_encode_utf8_concat(d1, " Volts"@);
            }
            true
        },
        0x0041 => {
            push_text(out, "No Dimmer");
            proof {
            }
            true
        },
        0x0042 => {
            push_text(out, "Tripped Breaker");
            proof {
            }
            true
        },
        0x0043 => {
            push_decimal(out, data_value1 as u64);
            push_text(out, " Watts");
            proof {
                lemma_encode_utf8_concat(d1, " Watts"@);
            }
            true
        },
        0x0044 => {
            push_text(out, "Dimmer Failure");
            proof {
            }
            true
        },
        0x0045 => {
            push_text(out, "Panic Mode");
            proof {
            }
            true
        },
        0x0050 => {
            SlotIdDefinition::from_u16(data_value1).write_text(out);
            push_text(out, " ready");
            proof {
                lemma_encode_utf8_concat(slot, " ready"@);
            }
            true
        },
        0x0051 => {
            SlotIdDefinition::from_u16(data_value1).write_text(out);
            push_text(out, " not ready");
            proof {
                lemma_encode_utf8_concat(slot, " not ready"@);
            }
            true
        },
        0x0052 => {
            SlotIdDefinition::from_u16(data_value1).write_text(out);
            push_text(out, " low fluid");
            proof {
                lemma_encode_utf8_concat(slot, " low fluid"@);
            }
            true
        },
        _ => false,
    }
}

/// The text of a status message: at most 64 bytes of UTF-8.
#[derive(Clone, Copy, Debug, PartialEq, Eq)]
pub struct StatusDescription {
    len: usize,
    bytes: [u8; 64],
}

impl StatusDescription {
    #[verifier::type_invariant]
    pub closed spec fn wf(self) -> bool {
        &&& self.len <= 64
        &&& valid_utf8(self.bytes@.subrange(0, self.len as int))
        &&& forall|i: int| self.len <= i < 64 ==> self.bytes@[i] == 0
    }

    /// The UTF-8 bytes of the text.
    pub closed spec fn spec_bytes(self) -> Seq<u8> {
        self.bytes@.subrange(0, self.len as int)
    }

    /// The description whose bytes are `content`, when they fit and are UTF-8.
    pub closed spec fn spec_of_bytes(content: Seq<u8>) -> Self {
        choose|d: Self| d.wf() && d.spec_bytes() == content
    }

    /// A description is determined by its bytes.
    pub proof fn lemma_determined_by_bytes(a: Self, b: Self)
        requires
            a.wf(),
            b.wf(),
            a.spec_bytes() == b.spec_bytes(),
        ensures
            a == b,
    {
        assert forall|i: int| 0 <= i < 64 implies a.bytes@[i] == b.bytes@[i] by {
            if i < a.len {
                assert(a.bytes@[i] == a.spec_bytes()[i]);
                assert(b.bytes@[i] == b.spec_bytes()[i]);
            }
        }
        assert(a.bytes =~= b.bytes);
    }

    /// The description that holds `content` holds exactly those bytes, when they fit and are UTF-8.
    pub proof fn lemma_of_bytes(content: Seq<u8>)
        requires
            content.len() <= 64,
            valid_utf8(content),
        ensures
            Self::spec_of_bytes(content).wf(),
            Self::spec_of_bytes(content).spec_bytes() == content,
    {
        let bytes = spec_padded_array::<64>(content, content.len());
        lemma_padded_array::<64>(content, content.len());
        let d = StatusDescription { len: content.len() as usize, bytes };
        assert(d.bytes@.subrange(0, d.len as int) =~= content);
        assert(d.wf() && d.spec_bytes() == content);
    }

    fn of_bytes(content: &[u8]) -> (r: Self)
        requires
            content@.len() <= 64,
            valid_utf8(content@),
        ensures
            r == Self::spec_of_bytes(content@),
            r.spec_bytes() == content@,
    {
        let mut bytes = [0u8; 64];
        proof {
            vstd::array::axiom_spec_array_fill_for_copy_type::<u8, 64>(0u8);
        }
        let mut i: usize = 0;
        while i < content.len()
            invariant
                i <= content@.len(),
                content@.len() <= 64,
                forall|j: int| 0 <= j < i ==> bytes@[j] == content@[j],
                forall|j: int| i <= j < 64 ==> bytes@[j] == 0,
            decreases content@.len() - i,
        {
            bytes[i] = content[i];
            i = i + 1;
        }
        proof {
            assert(bytes@.subrange(0, content@.len() as int) =~= content@);
        }
        let r = StatusDescription { len: content.len(), bytes };
        proof {
            Self::lemma_determined_by_bytes(r, Self::spec_of_bytes(content@));
        }
        r
    }

    /// The text as a string slice.
    pub fn as_str(&self) -> (r: &str)
        ensures
            r.spec_bytes() == self.spec_bytes(),
    {
        proof {
            use_type_invariant(self);
        }
        let s = vstd::slice::slice_subrange(self.bytes.as_slice(), 0, self.len);
        match str_from_utf8(s) {
            Some(r) => r,
            None => {
                proof {
                    assert(false);
                }
                ""
            },
        }
    }

    /// The length in bytes.
    pub fn len(&self) -> (n: usize)
        ensures
            n == self.spec_bytes().len(),
    {
        proof {
            use_type_invariant(self);
        }
        self.len
    }

    pub fn is_empty(&self) -> (b: bool)
        ensures
            b == (self.spec_bytes().len() == 0),
    {
        proof {
            use_type_invariant(self);
        }
        self.len == 0
    }
}

/// The description of a status message: the text of a standard one, none for any other.
pub open spec fn spec_status_description(status_message_id: u16, data_value1: u16, data_value2: u16) -> Option<StatusDescription> {
    match spec_status_text(status_message_id, data_value1, data_value2) {
        Some(t) => Some(StatusDescription::spec_of_bytes(encode_utf8(t))),
        None => None,
    }
}

/// A status message that a responder queued.
#[derive(Clone, Copy, Debug, PartialEq)]
pub struct StatusMessage {
    pub sub_device_id: SubDeviceId,
    pub status_type: StatusType,
    pub status_message_id: u16,
    pub data_value1: u16,
    pub data_value2: u16,
    pub description: Option<StatusDescription>,
}

impl StatusMessage {
    /// The message with these fields, described by the text of its identifier.
    pub open spec fn spec_new(
        sub_device_id: SubDeviceId,
        status_type: StatusType,
        status_message_id: u16,
        data_value1: u16,
        data_value2: u16,
    ) -> Self {
        StatusMessage {
            sub_device_id,
            status_type,
            status_message_id,
            data_value1,
            data_value2,
            description: spec_status_description(status_message_id, data_value1, data_value2),
        }
    }

    /// Makes a status message; a standard message (an identifier below 0x8000 that the standard
    /// defines) gets the text that it stands for as its description.
    pub fn new(
        sub_device_id: SubDeviceId,
        status_type: StatusType,
        status_message_id: u16,
        data_value1: u16,
        data_value2: u16,
    ) -> (r: Self)
        ensures
            r == Self::spec_new(sub_device_id, status_type, status_message_id, data_value1, data_value2),
            match spec_status_text(status_message_id, data_value1, data_value2) {
                Some(t) => r.description matches Some(d) && d.spec_bytes() == encode_utf8(t),
                None => r.description is None,
            },
    {
        let mut text: Vec<u8> = Vec::new();
        let known = write_status_text(&mut text, status_message_id, data_value1, data_value2);
        let description = if known {
            proof {
                lemma_status_text(status_message_id, data_value1, data_value2);
                let t = spec_status_text(status_message_id, data_value1, data_value2).unwrap();
                vstd::utf8::is_ascii_chars_encode_utf8(t);
                vstd::utf8::encode_utf8_valid_utf8(t);
                assert(text@ =~= encode_utf8(t));
            }
            Some(StatusDescription::of_bytes(text.as_slice()))
        } else {
            None
        };
        StatusMessage {
            sub_device_id,
            status_type,
            status_message_id,
            data_value1,
            data_value2,
            description,
        }
    }
}

impl<'a> FixedWire<'a> for StatusMessage {
    open spec fn spec_size() -> nat {
        9
    }

    open spec fn spec_wire(&self) -> Seq<u8> {
        self.sub_device_id.spec_wire() + self.status_type.spec_wire() + self.status_message_id.spec_wire()
            + self.data_value1.spec_wire() + self.data_value2.spec_wire()
    }

    open spec fn spec_read(bytes: Seq<u8>) -> Option<Self> {
        if <SubDeviceId as FixedWire>::spec_read(bytes.subrange(0, 2)) is Some
            && <StatusType as FixedWire>::spec_read(bytes.subrange(2, 3)) is Some
            && <u16 as FixedWire>::spec_read(bytes.subrange(3, 5)) is Some
            && <u16 as FixedWire>::spec_read(bytes.subrange(5, 7)) is Some
            && <u16 as FixedWire>::spec_read(bytes.subrange(7, 9)) is Some {
            Some(
                StatusMessage::spec_new(
                    <SubDeviceId as FixedWire>::spec_read(bytes.subrange(0, 2)).unwrap(),
                    <StatusType as FixedWire>::spec_read(bytes.subrange(2, 3)).unwrap(),
                    <u16 as FixedWire>::spec_read(bytes.subrange(3, 5)).unwrap(),
                    <u16 as FixedWire>::spec_read(bytes.subrange(5, 7)).unwrap(),
                    <u16 as FixedWire>::spec_read(bytes.subrange(7, 9)).unwrap(),
                ),
            )
        } else {
            None
        }
    }

    /// A message is given back by its wire form when its description is the one that its
    /// identifier and data values make.
    open spec fn spec_wire_valid(&self) -> bool {
        &&& self.sub_device_id.spec_wire_valid()
        &&& self.status_type.spec_wire_valid()
        &&& self.description == spec_status_description(self.status_message_id, self.data_value1, self.data_value2)
    }

    fn wire_size() -> (n: usize) {
        9
    }

    fn write_wire(&self, out: &mut Vec<u8>) {
        let ghost start = out@;
        self.sub_device_id.write_wire(out);
        self.status_type.write_wire(out);
        self.status_message_id.write_wire(out);
        self.data_value1.write_wire(out);
        self.data_value2.write_wire(out);
        proof {
            assert(out@ =~= start + self.spec_wire());
        }
    }

    fn read_wire(buf: &'a [u8], pos: usize) -> (r: Option<Self>) {
        let _len = buf.len();
        let ghost bytes = buf@.subrange(pos as int, pos + 9);
        proof {
            assert(bytes.subrange(0, 2) =~= buf@.subrange(pos + 0, pos + 2));
            assert(bytes.subrange(2, 3) =~= buf@.subrange(pos + 2, pos + 3));
            assert(bytes.subrange(3, 5) =~= buf@.subrange(pos + 3, pos + 5));
            assert(bytes.subrange(5, 7) =~= buf@.subrange(pos + 5, pos + 7));
            assert(bytes.subrange(7, 9) =~= buf@.subrange(pos + 7, pos + 9));
        }
        let v0 = match <SubDeviceId as FixedWire>::read_wire(buf, pos) {
            Some(v) => v,
            None => return None,
        };
        let v1 = match <StatusType as FixedWire>::read_wire(buf, pos + 2) {
            Some(v) => v,
            None => return None,
        };
        let v2 = match <u16 as FixedWire>::read_wire(buf, pos + 3) {
            Some(v) => v,
            None => return None,
        };
        let v3 = match <u16 as FixedWire>::read_wire(buf, pos + 5) {
            Some(v) => v,
            None => return None,
        };
        let v4 = match <u16 as FixedWire>::read_wire(buf, pos + 7) {
            Some(v) => v,
            None => return None,
        };
        Some(StatusMessage::new(v0, v1, v2, v3, v4))
    }

    proof fn lemma_wire(&self) {
        self.sub_device_id.lemma_wire();
        self.status_type.lemma_wire();
        self.status_message_id.lemma_wire();
        self.data_value1.lemma_wire();
        self.data_value2.lemma_wire();
        let w = self.spec_wire();
        assert(w.subrange(0, 2) =~= self.sub_device_id.spec_wire());
        assert(w.subrange(2, 3) =~= self.status_type.spec_wire());
        assert(w.subrange(3, 5) =~= self.status_message_id.spec_wire());
        assert(w.subrange(5, 7) =~= self.data_value1.spec_wire());
        assert(w.subrange(7, 9) =~= self.data_value2.spec_wire());
    }
}


impl StatusMessage {
    /// A status message is written as its sub-device (two bytes, big endian), the code of its
    /// status type, its message identifier and its two data values (two bytes each, big endian).
    pub proof fn lemma_wire_layout(self)
        ensures
            self.spec_wire() == seq![
                (self.sub_device_id.spec_to_u16() / 0x100) as u8,
                (self.sub_device_id.spec_to_u16() % 0x100) as u8,
                self.status_type.spec_to_u8(),
                (self.status_message_id / 0x100) as u8,
                (self.status_message_id % 0x100) as u8,
                (self.data_value1 / 0x100) as u8,
                (self.data_value1 % 0x100) as u8,
                (self.data_value2 / 0x100) as u8,
                (self.data_value2 % 0x100) as u8,
            ],
    {
        SubDeviceId::lemma_wire_code(self.sub_device_id, 0, 0);
        StatusType::lemma_wire_code(self.status_type, 0);
    }

    /// Nine bytes read as a status message when the third names a status type: the sub-device, the
    /// message identifier and the data values are read big endian from their two bytes each, and
    /// the message is described by the text of its identifier and data values.
    pub proof fn lemma_read_layout(bytes: Seq<u8>)
        requires
            bytes.len() == 9,
        ensures
            (<StatusMessage as FixedWire>::spec_read(bytes) is Some) == (StatusType::spec_try_from_u8(bytes[2]) is Ok),
            <StatusMessage as FixedWire>::spec_read(bytes) matches Some(m) ==> {
                &&& m.sub_device_id == SubDeviceId::spec_from_u16((bytes[0] as int * 0x100 + bytes[1] as int) as u16)
                &&& StatusType::spec_try_from_u8(bytes[2]) == Ok::<StatusType, RdmError>(m.status_type)
                &&& m.status_message_id == (bytes[3] as int * 0x100 + bytes[4] as int) as u16
                &&& m.data_value1 == (bytes[5] as int * 0x100 + bytes[6] as int) as u16
                &&& m.data_value2 == (bytes[7] as int * 0x100 + bytes[8] as int) as u16
                &&& m.description == spec_status_description(m.status_message_id, m.data_value1, m.data_value2)
            },
    {
        SubDeviceId::lemma_wire_code(SubDeviceId::RootDevice, bytes[0], bytes[1]);
        assert(bytes.subrange(0, 2) =~= seq![bytes[0], bytes[1]]);
        StatusType::lemma_wire_code(StatusType::NoStatus, bytes[2]);
        assert(bytes.subrange(2, 3) =~= seq![bytes[2]]);
    }
}

} // verus!
