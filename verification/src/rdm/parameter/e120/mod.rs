//! Data types of the E1.20 parameters.

pub mod request;
pub mod response;
pub mod status;
pub mod values;

pub use status::{StatusDescription, StatusMessage, StatusMessageIdDefinition};
pub use values::{ConvertedParameterValue, ParameterDescription};
pub use response::GetSensorDefinitionResponse as SensorDefinition;

use crate::rdm::error::{ParameterDataError, RdmError};
use crate::rdm::utils::{
    copy_encoded, encoded_into, extend_from, write_prefix, has_no_null, lemma_trim_trailing_nulls_valid_utf8,
    lemma_ascii_valid_utf8, lemma_truncated_at_null_prefix, lemma_truncated_at_null_shape, null_position, str_from_utf8, str_of_bytes, trim_trailing_nulls,
    trimmed_trailing_nulls, truncate_at_null, truncated_at_null, written_prefix, spec_padded_array, lemma_padded_array,
};
use crate::rdm::wire::{FixedWire};
use vstd::prelude::*;
use vstd::std_specs::convert::{FromSpecImpl, TryFromSpecImpl};
use vstd::string::StringSliceAdditionalSpecFns;

verus! {

broadcast use vstd::array::group_array_axioms;

#[derive(Copy, Clone, Debug, PartialEq, Eq, Structural)]
pub enum ProductDetail {
    NotDeclared,
    Arc,
    MetalHalide,
    Incandescent,
    Led,
    Fluorescent,
    ColdCathode,
    ElectroLuminescent,
    Laser,
    FlashTube,
    ColorScroller,
    ColorWheel,
    ColorChange,
    IrisDouser,
    DimmingShutter,
    ProfileShutter,
    BarnDoorShutter,
    EffectsDisc,
    GoboRotator,
    Video,
    Slide,
    Film,
    OilWheel,
    LcdGate,
    FoggerGlycol,
    FoggerMineralOil,
    FoggerWater,
    CO2,
    LN2,
    Bubble,
    FlamePropane,
    FlameOther,
    OlefactoryStimulator,
    Snow,
    WaterJet,
    Wind,
    Confetti,
    Hazard,
    PhaseControl,
    ReversePhaseControl,
    Sine,
    Pwm,
    Dc,
    HfBallast,
    HfHvNeonBallast,
    HfHvEl,
    MhrBallast,
    BitangleModulation,
    FrequencyModulation,
    HighFrequency12V,
    RelayMechanical,
    RelayElectronic,
    SwitchElectronic,
    Contactor,
    MirrorBallRotator,
    OtherRotator,
    KabukiDrop,
    Curtain,
    LineSet,
    MotorControl,
    DamperControl,
    Splitter,
    EthernetNode,
    Merge,
    DataPatch,
    WirelessLink,
    ProtocolConvertor,
    AnalogDemultiplex,
    AnalogMultiplex,
    SwitchPanel,
    Router,
    Fader,
    Mixer,
    ChangeOverManual,
    ChangeOverAuto,
    Test,
    GfiRcd,
    Battery,
    ControllableBreaker,
    Other,
    ManufacturerSpecific(u16),
    Unknown(u16),
}

impl ProductDetail {
    /// The wire value of the variant.
    pub open spec fn spec_to_u16(self) -> u16 {
        match self {
            ProductDetail::NotDeclared => 0x0000,
            ProductDetail::Arc => 0x0001,
            ProductDetail::MetalHalide => 0x0002,
            ProductDetail::Incandescent => 0x0003,
            ProductDetail::Led => 0x0004,
            ProductDetail::Fluorescent => 0x0005,
            ProductDetail::ColdCathode => 0x0006,
            ProductDetail::ElectroLuminescent => 0x0007,
            ProductDetail::Laser => 0x0008,
            ProductDetail::FlashTube => 0x0009,
            ProductDetail::ColorScroller => 0x0100,
            ProductDetail::ColorWheel => 0x0101,
            ProductDetail::ColorChange => 0x0102,
            ProductDetail::IrisDouser => 0x0103,
            ProductDetail::DimmingShutter => 0x0104,
            ProductDetail::ProfileShutter => 0x0105,
            ProductDetail::BarnDoorShutter => 0x0106,
            ProductDetail::EffectsDisc => 0x0107,
            ProductDetail::GoboRotator => 0x0108,
            ProductDetail::Video => 0x0200,
            ProductDetail::Slide => 0x0201,
            ProductDetail::Film => 0x0202,
            ProductDetail::OilWheel => 0x0203,
            ProductDetail::LcdGate => 0x0204,
            ProductDetail::FoggerGlycol => 0x0300,
            ProductDetail::FoggerMineralOil => 0x0301,
            ProductDetail::FoggerWater => 0x0302,
            ProductDetail::CO2 => 0x0303,
            ProductDetail::LN2 => 0x0304,
            ProductDetail::Bubble => 0x0305,
            ProductDetail::FlamePropane => 0x0306,
            ProductDetail::FlameOther => 0x0307,
            ProductDetail::OlefactoryStimulator => 0x0308,
            ProductDetail::Snow => 0x0309,
            ProductDetail::WaterJet => 0x030a,
            ProductDetail::Wind => 0x030b,
            ProductDetail::Confetti => 0x030c,
            ProductDetail::Hazard => 0x030d,
            ProductDetail::PhaseControl => 0x0400,
            ProductDetail::ReversePhaseControl => 0x0401,
            ProductDetail::Sine => 0x0402,
            ProductDetail::Pwm => 0x0403,
            ProductDetail::Dc => 0x0404,
            ProductDetail::HfBallast => 0x0405,
            ProductDetail::HfHvNeonBallast => 0x0406,
            ProductDetail::HfHvEl => 0x0407,
            ProductDetail::MhrBallast => 0x0408,
            ProductDetail::BitangleModulation => 0x0409,
            ProductDetail::FrequencyModulation => 0x040a,
            ProductDetail::HighFrequency12V => 0x040b,
            ProductDetail::RelayMechanical => 0x040c,
            ProductDetail::RelayElectronic => 0x040d,
            ProductDetail::SwitchElectronic => 0x040e,
            ProductDetail::Contactor => 0x040f,
            ProductDetail::MirrorBallRotator => 0x0500,
            ProductDetail::OtherRotator => 0x0501,
            ProductDetail::KabukiDrop => 0x0502,
            ProductDetail::Curtain => 0x0503,
            ProductDetail::LineSet => 0x0504,
            ProductDetail::MotorControl => 0x0505,
            ProductDetail::DamperControl => 0x0506,
            ProductDetail::Splitter => 0x0600,
            ProductDetail::EthernetNode => 0x0601,
            ProductDetail::Merge => 0x0602,
            ProductDetail::DataPatch => 0x0603,
            ProductDetail::WirelessLink => 0x0604,
            ProductDetail::ProtocolConvertor => 0x0701,
            ProductDetail::AnalogDemultiplex => 0x0702,
            ProductDetail::AnalogMultiplex => 0x0703,
            ProductDetail::SwitchPanel => 0x0704,
            ProductDetail::Router => 0x0800,
            ProductDetail::Fader => 0x0801,
            ProductDetail::Mixer => 0x0802,
            ProductDetail::ChangeOverManual => 0x0900,
            ProductDetail::ChangeOverAuto => 0x0901,
            ProductDetail::Test => 0x0902,
            ProductDetail::GfiRcd => 0x0a00,
            ProductDetail::Battery => 0x0a01,
            ProductDetail::ControllableBreaker => 0x0a02,
            ProductDetail::Other => 0x7fff,
            ProductDetail::ManufacturerSpecific(value) => value,
            ProductDetail::Unknown(value) => value,
        }
    }

    /// The variant that a wire value stands for.
    pub open spec fn spec_from_u16(value: u16) -> Self {
        match value {
            0x0000 => ProductDetail::NotDeclared,
            0x0001 => ProductDetail::Arc,
            0x0002 => ProductDetail::MetalHalide,
            0x0003 => ProductDetail::Incandescent,
            0x0004 => ProductDetail::Led,
            0x0005 => ProductDetail::Fluorescent,
            0x0006 => ProductDetail::ColdCathode,
            0x0007 => ProductDetail::ElectroLuminescent,
            0x0008 => ProductDetail::Laser,
            0x0009 => ProductDetail::FlashTube,
            0x0100 => ProductDetail::ColorScroller,
            0x0101 => ProductDetail::ColorWheel,
            0x0102 => ProductDetail::ColorChange,
            0x0103 => ProductDetail::IrisDouser,
            0x0104 => ProductDetail::DimmingShutter,
            0x0105 => ProductDetail::ProfileShutter,
            0x0106 => ProductDetail::BarnDoorShutter,
            0x0107 => ProductDetail::EffectsDisc,
            0x0108 => ProductDetail::GoboRotator,
            0x0200 => ProductDetail::Video,
            0x0201 => ProductDetail::Slide,
            0x0202 => ProductDetail::Film,
            0x0203 => ProductDetail::OilWheel,
            0x0204 => ProductDetail::LcdGate,
            0x0300 => ProductDetail::FoggerGlycol,
            0x0301 => ProductDetail::FoggerMineralOil,
            0x0302 => ProductDetail::FoggerWater,
            0x0303 => ProductDetail::CO2,
            0x0304 => ProductDetail::LN2,
            0x0305 => ProductDetail::Bubble,
            0x0306 => ProductDetail::FlamePropane,
            0x0307 => ProductDetail::FlameOther,
            0x0308 => ProductDetail::OlefactoryStimulator,
            0x0309 => ProductDetail::Snow,
            0x030a => ProductDetail::WaterJet,
            0x030b => ProductDetail::Wind,
            0x030c => ProductDetail::Confetti,
            0x030d => ProductDetail::Hazard,
            0x0400 => ProductDetail::PhaseControl,
            0x0401 => ProductDetail::ReversePhaseControl,
            0x0402 => ProductDetail::Sine,
            0x0403 => ProductDetail::Pwm,
            0x0404 => ProductDetail::Dc,
            0x0405 => ProductDetail::HfBallast,
            0x0406 => ProductDetail::HfHvNeonBallast,
            0x0407 => ProductDetail::HfHvEl,
            0x0408 => ProductDetail::MhrBallast,
            0x0409 => ProductDetail::BitangleModulation,
            0x040a => ProductDetail::FrequencyModulation,
            0x040b => ProductDetail::HighFrequency12V,
            0x040c => ProductDetail::RelayMechanical,
            0x040d => ProductDetail::RelayElectronic,
            0x040e => ProductDetail::SwitchElectronic,
            0x040f => ProductDetail::Contactor,
            0x0500 => ProductDetail::MirrorBallRotator,
            0x0501 => ProductDetail::OtherRotator,
            0x0502 => ProductDetail::KabukiDrop,
            0x0503 => ProductDetail::Curtain,
            0x0504 => ProductDetail::LineSet,
            0x0505 => ProductDetail::MotorControl,
            0x0506 => ProductDetail::DamperControl,
            0x0600 => ProductDetail::Splitter,
            0x0601 => ProductDetail::EthernetNode,
            0x0602 => ProductDetail::Merge,
            0x0603 => ProductDetail::DataPatch,
            0x0604 => ProductDetail::WirelessLink,
            0x0701 => ProductDetail::ProtocolConvertor,
            0x0702 => ProductDetail::AnalogDemultiplex,
            0x0703 => ProductDetail::AnalogMultiplex,
            0x0704 => ProductDetail::SwitchPanel,
            0x0800 => ProductDetail::Router,
            0x0801 => ProductDetail::Fader,
            0x0802 => ProductDetail::Mixer,
            0x0900 => ProductDetail::ChangeOverManual,
            0x0901 => ProductDetail::ChangeOverAuto,
            0x0902 => ProductDetail::Test,
            0x0a00 => ProductDetail::GfiRcd,
            0x0a01 => ProductDetail::Battery,
            0x0a02 => ProductDetail::ControllableBreaker,
            0x7fff => ProductDetail::Other,
            _ => if 0x8000 <= value && value <= 0xdfff { ProductDetail::ManufacturerSpecific(value) } else { ProductDetail::Unknown(value) },
        }
    }

    /// Whether the value is one that decoding its wire value gives back.
    pub open spec fn spec_wire_valid(self) -> bool {
        match self {
            ProductDetail::ManufacturerSpecific(value) => 0x8000 <= value && value <= 0xdfff,
            ProductDetail::Unknown(value) => value != 0x0000 && value != 0x0001 && value != 0x0002 && value != 0x0003 && value != 0x0004 && value != 0x0005 && value != 0x0006 && value != 0x0007 && value != 0x0008 && value != 0x0009 && value != 0x0100 && value != 0x0101 && value != 0x0102 && value != 0x0103 && value != 0x0104 && value != 0x0105 && value != 0x0106 && value != 0x0107 && value != 0x0108 && value != 0x0200 && value != 0x0201 && value != 0x0202 && value != 0x0203 && value != 0x0204 && value != 0x0300 && value != 0x0301 && value != 0x0302 && value != 0x0303 && value != 0x0304 && value != 0x0305 && value != 0x0306 && value != 0x0307 && value != 0x0308 && value != 0x0309 && value != 0x030a && value != 0x030b && value != 0x030c && value != 0x030d && value != 0x0400 && value != 0x0401 && value != 0x0402 && value != 0x0403 && value != 0x0404 && value != 0x0405 && value != 0x0406 && value != 0x0407 && value != 0x0408 && value != 0x0409 && value != 0x040a && value != 0x040b && value != 0x040c && value != 0x040d && value != 0x040e && value != 0x040f && value != 0x0500 && value != 0x0501 && value != 0x0502 && value != 0x0503 && value != 0x0504 && value != 0x0505 && value != 0x0506 && value != 0x0600 && value != 0x0601 && value != 0x0602 && value != 0x0603 && value != 0x0604 && value != 0x0701 && value != 0x0702 && value != 0x0703 && value != 0x0704 && value != 0x0800 && value != 0x0801 && value != 0x0802 && value != 0x0900 && value != 0x0901 && value != 0x0902 && value != 0x0a00 && value != 0x0a01 && value != 0x0a02 && value != 0x7fff && !(0x8000 <= value && value <= 0xdfff),
            _ => true,
        }
    }

    /// Decoding the wire value of a valid variant gives it back.
    pub proof fn lemma_encode_decode(self)
        requires
            self.spec_wire_valid(),
        ensures
            Self::spec_from_u16(self.spec_to_u16()) == self,
    {
    }

    /// Encoding the variant that a wire value stands for gives the value back.
    pub proof fn lemma_decode_encode(value: u16)
        ensures
            Self::spec_from_u16(value).spec_to_u16() == value,
            Self::spec_from_u16(value).spec_wire_valid(),
    {
    }
}

impl ProductDetail {
    /// The wire value of the variant.
    #[verifier::rlimit(50)]
    pub fn to_u16(&self) -> (r: u16)
        ensures
            r == self.spec_to_u16(),
    {
        match self {
            ProductDetail::NotDeclared => 0x0000,
            ProductDetail::Arc => 0x0001,
            ProductDetail::MetalHalide => 0x0002,
            ProductDetail::Incandescent => 0x0003,
            ProductDetail::Led => 0x0004,
            ProductDetail::Fluorescent => 0x0005,
            ProductDetail::ColdCathode => 0x0006,
            ProductDetail::ElectroLuminescent => 0x0007,
            ProductDetail::Laser => 0x0008,
            ProductDetail::FlashTube => 0x0009,
            ProductDetail::ColorScroller => 0x0100,
            ProductDetail::ColorWheel => 0x0101,
            ProductDetail::ColorChange => 0x0102,
            ProductDetail::IrisDouser => 0x0103,
            ProductDetail::DimmingShutter => 0x0104,
            ProductDetail::ProfileShutter => 0x0105,
            ProductDetail::BarnDoorShutter => 0x0106,
            ProductDetail::EffectsDisc => 0x0107,
            ProductDetail::GoboRotator => 0x0108,
            ProductDetail::Video => 0x0200,
            ProductDetail::Slide => 0x0201,
            ProductDetail::Film => 0x0202,
            ProductDetail::OilWheel => 0x0203,
            ProductDetail::LcdGate => 0x0204,
            ProductDetail::FoggerGlycol => 0x0300,
            ProductDetail::FoggerMineralOil => 0x0301,
            ProductDetail::FoggerWater => 0x0302,
            ProductDetail::CO2 => 0x0303,
            ProductDetail::LN2 => 0x0304,
            ProductDetail::Bubble => 0x0305,
            ProductDetail::FlamePropane => 0x0306,
            ProductDetail::FlameOther => 0x0307,
            ProductDetail::OlefactoryStimulator => 0x0308,
            ProductDetail::Snow => 0x0309,
            ProductDetail::WaterJet => 0x030a,
            ProductDetail::Wind => 0x030b,
            ProductDetail::Confetti => 0x030c,
            ProductDetail::Hazard => 0x030d,
            ProductDetail::PhaseControl => 0x0400,
            ProductDetail::ReversePhaseControl => 0x0401,
            ProductDetail::Sine => 0x0402,
            ProductDetail::Pwm => 0x0403,
            ProductDetail::Dc => 0x0404,
            ProductDetail::HfBallast => 0x0405,
            ProductDetail::HfHvNeonBallast => 0x0406,
            ProductDetail::HfHvEl => 0x0407,
            ProductDetail::MhrBallast => 0x0408,
            ProductDetail::BitangleModulation => 0x0409,
            ProductDetail::FrequencyModulation => 0x040a,
            ProductDetail::HighFrequency12V => 0x040b,
            ProductDetail::RelayMechanical => 0x040c,
            ProductDetail::RelayElectronic => 0x040d,
            ProductDetail::SwitchElectronic => 0x040e,
            ProductDetail::Contactor => 0x040f,
            ProductDetail::MirrorBallRotator => 0x0500,
            ProductDetail::OtherRotator => 0x0501,
            ProductDetail::KabukiDrop => 0x0502,
            ProductDetail::Curtain => 0x0503,
            ProductDetail::LineSet => 0x0504,
            ProductDetail::MotorControl => 0x0505,
            ProductDetail::DamperControl => 0x0506,
            ProductDetail::Splitter => 0x0600,
            ProductDetail::EthernetNode => 0x0601,
            ProductDetail::Merge => 0x0602,
            ProductDetail::DataPatch => 0x0603,
            ProductDetail::WirelessLink => 0x0604,
            ProductDetail::ProtocolConvertor => 0x0701,
            ProductDetail::AnalogDemultiplex => 0x0702,
            ProductDetail::AnalogMultiplex => 0x0703,
            ProductDetail::SwitchPanel => 0x0704,
            ProductDetail::Router => 0x0800,
            ProductDetail::Fader => 0x0801,
            ProductDetail::Mixer => 0x0802,
            ProductDetail::ChangeOverManual => 0x0900,
            ProductDetail::ChangeOverAuto => 0x0901,
            ProductDetail::Test => 0x0902,
            ProductDetail::GfiRcd => 0x0a00,
            ProductDetail::Battery => 0x0a01,
            ProductDetail::ControllableBreaker => 0x0a02,
            ProductDetail::Other => 0x7fff,
            ProductDetail::ManufacturerSpecific(value) => *value,
            ProductDetail::Unknown(value) => *value,
        }
    }

    /// The variant that a wire value stands for.
    #[verifier::rlimit(50)]
    pub fn from_u16(value: u16) -> (r: Self)
        ensures
            r == Self::spec_from_u16(value),
    {
        match value {
            0x0000 => ProductDetail::NotDeclared,
            0x0001 => ProductDetail::Arc,
            0x0002 => ProductDetail::MetalHalide,
            0x0003 => ProductDetail::Incandescent,
            0x0004 => ProductDetail::Led,
            0x0005 => ProductDetail::Fluorescent,
            0x0006 => ProductDetail::ColdCathode,
            0x0007 => ProductDetail::ElectroLuminescent,
            0x0008 => ProductDetail::Laser,
            0x0009 => ProductDetail::FlashTube,
            0x0100 => ProductDetail::ColorScroller,
            0x0101 => ProductDetail::ColorWheel,
            0x0102 => ProductDetail::ColorChange,
            0x0103 => ProductDetail::IrisDouser,
            0x0104 => ProductDetail::DimmingShutter,
            0x0105 => ProductDetail::ProfileShutter,
            0x0106 => ProductDetail::BarnDoorShutter,
            0x0107 => ProductDetail::EffectsDisc,
            0x0108 => ProductDetail::GoboRotator,
            0x0200 => ProductDetail::Video,
            0x0201 => ProductDetail::Slide,
            0x0202 => ProductDetail::Film,
            0x0203 => ProductDetail::OilWheel,
            0x0204 => ProductDetail::LcdGate,
            0x0300 => ProductDetail::FoggerGlycol,
            0x0301 => ProductDetail::FoggerMineralOil,
            0x0302 => ProductDetail::FoggerWater,
            0x0303 => ProductDetail::CO2,
            0x0304 => ProductDetail::LN2,
            0x0305 => ProductDetail::Bubble,
            0x0306 => ProductDetail::FlamePropane,
            0x0307 => ProductDetail::FlameOther,
            0x0308 => ProductDetail::OlefactoryStimulator,
            0x0309 => ProductDetail::Snow,
            0x030a => ProductDetail::WaterJet,
            0x030b => ProductDetail::Wind,
            0x030c => ProductDetail::Confetti,
            0x030d => ProductDetail::Hazard,
            0x0400 => ProductDetail::PhaseControl,
            0x0401 => ProductDetail::ReversePhaseControl,
            0x0402 => ProductDetail::Sine,
            0x0403 => ProductDetail::Pwm,
            0x0404 => ProductDetail::Dc,
            0x0405 => ProductDetail::HfBallast,
            0x0406 => ProductDetail::HfHvNeonBallast,
            0x0407 => ProductDetail::HfHvEl,
            0x0408 => ProductDetail::MhrBallast,
            0x0409 => ProductDetail::BitangleModulation,
            0x040a => ProductDetail::FrequencyModulation,
            0x040b => ProductDetail::HighFrequency12V,
            0x040c => ProductDetail::RelayMechanical,
            0x040d => ProductDetail::RelayElectronic,
            0x040e => ProductDetail::SwitchElectronic,
            0x040f => ProductDetail::Contactor,
            0x0500 => ProductDetail::MirrorBallRotator,
            0x0501 => ProductDetail::OtherRotator,
            0x0502 => ProductDetail::KabukiDrop,
            0x0503 => ProductDetail::Curtain,
            0x0504 => ProductDetail::LineSet,
            0x0505 => ProductDetail::MotorControl,
            0x0506 => ProductDetail::DamperControl,
            0x0600 => ProductDetail::Splitter,
            0x0601 => ProductDetail::EthernetNode,
            0x0602 => ProductDetail::Merge,
            0x0603 => ProductDetail::DataPatch,
            0x0604 => ProductDetail::WirelessLink,
            0x0701 => ProductDetail::ProtocolConvertor,
            0x0702 => ProductDetail::AnalogDemultiplex,
            0x0703 => ProductDetail::AnalogMultiplex,
            0x0704 => ProductDetail::SwitchPanel,
            0x0800 => ProductDetail::Router,
            0x0801 => ProductDetail::Fader,
            0x0802 => ProductDetail::Mixer,
            0x0900 => ProductDetail::ChangeOverManual,
            0x0901 => ProductDetail::ChangeOverAuto,
            0x0902 => ProductDetail::Test,
            0x0a00 => ProductDetail::GfiRcd,
            0x0a01 => ProductDetail::Battery,
            0x0a02 => ProductDetail::ControllableBreaker,
            0x7fff => ProductDetail::Other,
            _ => if 0x8000 <= value && value <= 0xdfff { ProductDetail::ManufacturerSpecific(value) } else { ProductDetail::Unknown(value) },
        }
    }
}

impl From<u16> for ProductDetail {
    fn from(value: u16) -> (r: Self) {
        Self::from_u16(value)
    }
}

impl FromSpecImpl<u16> for ProductDetail {
    open spec fn obeys_from_spec() -> bool {
        true
    }

    open spec fn from_spec(value: u16) -> Self {
        Self::spec_from_u16(value)
    }
}

impl From<ProductDetail> for u16 {
    fn from(value: ProductDetail) -> (r: u16) {
        value.to_u16()
    }
}

impl FromSpecImpl<ProductDetail> for u16 {
    open spec fn obeys_from_spec() -> bool {
        true
    }

    open spec fn from_spec(value: ProductDetail) -> u16 {
        value.spec_to_u16()
    }
}

impl<'a> FixedWire<'a> for ProductDetail {
    open spec fn spec_size() -> nat {
        2
    }

    open spec fn spec_wire(&self) -> Seq<u8> {
        self.spec_to_u16().spec_wire()
    }

    open spec fn spec_read(bytes: Seq<u8>) -> Option<Self> {
        match u16::spec_read(bytes) {
            Some(value) => Some(Self::spec_from_u16(value)),
            None => None,
        }
    }

    open spec fn spec_wire_valid(&self) -> bool {
        ProductDetail::spec_wire_valid(*self)
    }

    fn wire_size() -> (n: usize) {
        2
    }

    fn write_wire(&self, out: &mut Vec<u8>) {
        self.to_u16().write_wire(out);
    }

    fn read_wire(buf: &'a [u8], pos: usize) -> (r: Option<Self>) {
        let value = match u16::read_wire(buf, pos) {
            Some(value) => value,
            None => return None,
        };
        Some(Self::from_u16(value))
    }

    proof fn lemma_wire(&self) {
        self.spec_to_u16().lemma_wire();
        if self.spec_wire_valid() {
            self.lemma_encode_decode();
        }
    }
}

#[derive(Copy, Clone, Debug, PartialEq, Eq, Structural)]
pub enum ImplementedCommandClass {
    Get,
    SetOnly,
    GetSet,
}

impl ImplementedCommandClass {
    /// The wire value of the variant.
    pub open spec fn spec_to_u8(self) -> u8 {
        match self {
            ImplementedCommandClass::Get => 0x01,
            ImplementedCommandClass::SetOnly => 0x02,
            ImplementedCommandClass::GetSet => 0x03,
        }
    }

    /// The variant that a wire value stands for.
    pub open spec fn spec_try_from_u8(value: u8) -> Result<Self, RdmError> {
        match value {
            0x01 => Ok(ImplementedCommandClass::Get),
            0x02 => Ok(ImplementedCommandClass::SetOnly),
            0x03 => Ok(ImplementedCommandClass::GetSet),
            _ => Err(RdmError::InvalidCommandClassImplementation(value)),
        }
    }

    /// Whether the value is one that decoding its wire value gives back.
    pub open spec fn spec_wire_valid(self) -> bool {
        match self {
            _ => true,
        }
    }

    /// Decoding the wire value of a valid variant gives it back.
    pub proof fn lemma_encode_decode(self)
        requires
            self.spec_wire_valid(),
        ensures
            Self::spec_try_from_u8(self.spec_to_u8()) == Ok::<Self, RdmError>(self),
    {
    }

    /// Encoding the variant that a wire value stands for gives the value back.
    pub proof fn lemma_decode_encode(value: u8)
        ensures
            Self::spec_try_from_u8(value) matches Ok(v) ==> v.spec_to_u8() == value && v.spec_wire_valid(),
    {
    }
}

impl ImplementedCommandClass {
    /// The wire value of the variant.
    pub fn to_u8(&self) -> (r: u8)
        ensures
            r == self.spec_to_u8(),
    {
        match self {
            ImplementedCommandClass::Get => 0x01,
            ImplementedCommandClass::SetOnly => 0x02,
            ImplementedCommandClass::GetSet => 0x03,
        }
    }

    /// The variant that a wire value stands for, or the error for a value that stands for none.
    pub fn try_from_u8(value: u8) -> (r: Result<Self, RdmError>)
        ensures
            r == Self::spec_try_from_u8(value),
    {
        match value {
            0x01 => Ok(ImplementedCommandClass::Get),
            0x02 => Ok(ImplementedCommandClass::SetOnly),
            0x03 => Ok(ImplementedCommandClass::GetSet),
            _ => Err(RdmError::InvalidCommandClassImplementation(value)),
        }
    }
}

impl TryFrom<u8> for ImplementedCommandClass {
    type Error = RdmError;

    fn try_from(value: u8) -> (r: Result<Self, RdmError>) {
        Self::try_from_u8(value)
    }
}

impl TryFromSpecImpl<u8> for ImplementedCommandClass {
    open spec fn obeys_try_from_spec() -> bool {
        true
    }

    open spec fn try_from_spec(value: u8) -> Result<Self, RdmError> {
        Self::spec_try_from_u8(value)
    }
}

impl From<ImplementedCommandClass> for u8 {
    fn from(value: ImplementedCommandClass) -> (r: u8) {
        value.to_u8()
    }
}

impl FromSpecImpl<ImplementedCommandClass> for u8 {
    open spec fn obeys_from_spec() -> bool {
        true
    }

    open spec fn from_spec(value: ImplementedCommandClass) -> u8 {
        value.spec_to_u8()
    }
}

impl<'a> FixedWire<'a> for ImplementedCommandClass {
    open spec fn spec_size() -> nat {
        1
    }

    open spec fn spec_wire(&self) -> Seq<u8> {
        self.spec_to_u8().spec_wire()
    }

    open spec fn spec_read(bytes: Seq<u8>) -> Option<Self> {
        match u8::spec_read(bytes) {
            Some(value) => match Self::spec_try_from_u8(value) {
                Ok(v) => Some(v),
                Err(_) => None,
            },
            None => None,
        }
    }

    open spec fn spec_wire_valid(&self) -> bool {
        ImplementedCommandClass::spec_wire_valid(*self)
    }

    fn wire_size() -> (n: usize) {
        1
    }

    fn write_wire(&self, out: &mut Vec<u8>) {
        self.to_u8().write_wire(out);
    }

    fn read_wire(buf: &'a [u8], pos: usize) -> (r: Option<Self>) {
        let value = match u8::read_wire(buf, pos) {
            Some(value) => value,
            None => return None,
        };
        match Self::try_from_u8(value) {
            Ok(v) => Some(v),
            Err(_) => None,
        }
    }

    proof fn lemma_wire(&self) {
        self.spec_to_u8().lemma_wire();
        if self.spec_wire_valid() {
            self.lemma_encode_decode();
        }
    }
}

#[derive(Copy, Clone, Debug, PartialEq, Eq, Structural)]
pub enum ParameterDataType {
    NotDefined,
    BitField,
    Ascii,
    UnsignedByte,
    SignedByte,
    UnsignedWord,
    SignedWord,
    UnsignedDWord,
    SignedDWord,
    ManufacturerSpecific(u8),
}

impl ParameterDataType {
    /// The wire value of the variant.
    pub open spec fn spec_to_u8(self) -> u8 {
        match self {
            ParameterDataType::NotDefined => 0x00,
            ParameterDataType::BitField => 0x01,
            ParameterDataType::Ascii => 0x02,
            ParameterDataType::UnsignedByte => 0x03,
            ParameterDataType::SignedByte => 0x04,
            ParameterDataType::UnsignedWord => 0x05,
            ParameterDataType::SignedWord => 0x06,
            ParameterDataType::UnsignedDWord => 0x07,
            ParameterDataType::SignedDWord => 0x08,
            ParameterDataType::ManufacturerSpecific(value) => value,
        }
    }

    /// The variant that a wire value stands for.
    pub open spec fn spec_try_from_u8(value: u8) -> Result<Self, RdmError> {
        match value {
            0x00 => Ok(ParameterDataType::NotDefined),
            0x01 => Ok(ParameterDataType::BitField),
            0x02 => Ok(ParameterDataType::Ascii),
            0x03 => Ok(ParameterDataType::UnsignedByte),
            0x04 => Ok(ParameterDataType::SignedByte),
            0x05 => Ok(ParameterDataType::UnsignedWord),
            0x06 => Ok(ParameterDataType::SignedWord),
            0x07 => Ok(ParameterDataType::UnsignedDWord),
            0x08 => Ok(ParameterDataType::SignedDWord),
            _ => if 0x80 <= value && value <= 0xdf { Ok(ParameterDataType::ManufacturerSpecific(value)) } else { Err(RdmError::InvalidParameterDataType(value)) },
        }
    }

    /// Whether the value is one that decoding its wire value gives back.
    pub open spec fn spec_wire_valid(self) -> bool {
        match self {
            ParameterDataType::ManufacturerSpecific(value) => 0x80 <= value && value <= 0xdf,
            _ => true,
        }
    }

    /// Decoding the wire value of a valid variant gives it back.
    pub proof fn lemma_encode_decode(self)
        requires
            self.spec_wire_valid(),
        ensures
            Self::spec_try_from_u8(self.spec_to_u8()) == Ok::<Self, RdmError>(self),
    {
    }

    /// Encoding the variant that a wire value stands for gives the value back.
    pub proof fn lemma_decode_encode(value: u8)
        ensures
            Self::spec_try_from_u8(value) matches Ok(v) ==> v.spec_to_u8() == value && v.spec_wire_valid(),
    {
    }
}

impl ParameterDataType {
    /// The wire value of the variant.
    pub fn to_u8(&self) -> (r: u8)
        ensures
            r == self.spec_to_u8(),
    {
        match self {
            ParameterDataType::NotDefined => 0x00,
            ParameterDataType::BitField => 0x01,
            ParameterDataType::Ascii => 0x02,
            ParameterDataType::UnsignedByte => 0x03,
            ParameterDataType::SignedByte => 0x04,
            ParameterDataType::UnsignedWord => 0x05,
            ParameterDataType::SignedWord => 0x06,
            ParameterDataType::UnsignedDWord => 0x07,
            ParameterDataType::SignedDWord => 0x08,
            ParameterDataType::ManufacturerSpecific(value) => *value,
        }
    }

    /// The variant that a wire value stands for, or the error for a value that stands for none.
    pub fn try_from_u8(value: u8) -> (r: Result<Self, RdmError>)
        ensures
            r == Self::spec_try_from_u8(value),
    {
        match value {
            0x00 => Ok(ParameterDataType::NotDefined),
            0x01 => Ok(ParameterDataType::BitField),
            0x02 => Ok(ParameterDataType::Ascii),
            0x03 => Ok(ParameterDataType::UnsignedByte),
            0x04 => Ok(ParameterDataType::SignedByte),
            0x05 => Ok(ParameterDataType::UnsignedWord),
            0x06 => Ok(ParameterDataType::SignedWord),
            0x07 => Ok(ParameterDataType::UnsignedDWord),
            0x08 => Ok(ParameterDataType::SignedDWord),
            _ => if 0x80 <= value && value <= 0xdf { Ok(ParameterDataType::ManufacturerSpecific(value)) } else { Err(RdmError::InvalidParameterDataType(value)) },
        }
    }
}

impl TryFrom<u8> for ParameterDataType {
    type Error = RdmError;

    fn try_from(value: u8) -> (r: Result<Self, RdmError>) {
        Self::try_from_u8(value)
    }
}

impl TryFromSpecImpl<u8> for ParameterDataType {
    open spec fn obeys_try_from_spec() -> bool {
        true
    }

    open spec fn try_from_spec(value: u8) -> Result<Self, RdmError> {
        Self::spec_try_from_u8(value)
    }
}

impl From<ParameterDataType> for u8 {
    fn from(value: ParameterDataType) -> (r: u8) {
        value.to_u8()
    }
}

impl FromSpecImpl<ParameterDataType> for u8 {
    open spec fn obeys_from_spec() -> bool {
        true
    }

    open spec fn from_spec(value: ParameterDataType) -> u8 {
        value.spec_to_u8()
    }
}

impl<'a> FixedWire<'a> for ParameterDataType {
    open spec fn spec_size() -> nat {
        1
    }

    open spec fn spec_wire(&self) -> Seq<u8> {
        self.spec_to_u8().spec_wire()
    }

    open spec fn spec_read(bytes: Seq<u8>) -> Option<Self> {
        match u8::spec_read(bytes) {
            Some(value) => match Self::spec_try_from_u8(value) {
                Ok(v) => Some(v),
                Err(_) => None,
            },
            None => None,
        }
    }

    open spec fn spec_wire_valid(&self) -> bool {
        ParameterDataType::spec_wire_valid(*self)
    }

    fn wire_size() -> (n: usize) {
        1
    }

    fn write_wire(&self, out: &mut Vec<u8>) {
        self.to_u8().write_wire(out);
    }

    fn read_wire(buf: &'a [u8], pos: usize) -> (r: Option<Self>) {
        let value = match u8::read_wire(buf, pos) {
            Some(value) => value,
            None => return None,
        };
        match Self::try_from_u8(value) {
            Ok(v) => Some(v),
            Err(_) => None,
        }
    }

    proof fn lemma_wire(&self) {
        self.spec_to_u8().lemma_wire();
        if self.spec_wire_valid() {
            self.lemma_encode_decode();
        }
    }
}

#[derive(Copy, Clone, Debug, PartialEq, Eq, Structural)]
pub enum StatusType {
    NoStatus,
    GetLastMessage,
    Advisory,
    Warning,
    Error,
    AdvisoryCleared,
    WarningCleared,
    ErrorCleared,
}

impl StatusType {
    /// The wire value of the variant.
    pub open spec fn spec_to_u8(self) -> u8 {
        match self {
            StatusType::NoStatus => 0x00,
            StatusType::GetLastMessage => 0x01,
            StatusType::Advisory => 0x02,
            StatusType::Warning => 0x03,
            StatusType::Error => 0x04,
            StatusType::AdvisoryCleared => 0x12,
            StatusType::WarningCleared => 0x13,
            StatusType::ErrorCleared => 0x14,
        }
    }

    /// The variant that a wire value stands for.
    pub open spec fn spec_try_from_u8(value: u8) -> Result<Self, RdmError> {
        match value {
            0x00 => Ok(StatusType::NoStatus),
            0x01 => Ok(StatusType::GetLastMessage),
            0x02 => Ok(StatusType::Advisory),
            0x03 => Ok(StatusType::Warning),
            0x04 => Ok(StatusType::Error),
            0x12 => Ok(StatusType::AdvisoryCleared),
            0x13 => Ok(StatusType::WarningCleared),
            0x14 => Ok(StatusType::ErrorCleared),
            _ => Err(RdmError::InvalidStatusType(value)),
        }
    }

    /// Whether the value is one that decoding its wire value gives back.
    pub open spec fn spec_wire_valid(self) -> bool {
        match self {
            _ => true,
        }
    }

    /// Decoding the wire value of a valid variant gives it back.
    pub proof fn lemma_encode_decode(self)
        requires
            self.spec_wire_valid(),
        ensures
            Self::spec_try_from_u8(self.spec_to_u8()) == Ok::<Self, RdmError>(self),
    {
    }

    /// Encoding the variant that a wire value stands for gives the value back.
    pub proof fn lemma_decode_encode(value: u8)
        ensures
            Self::spec_try_from_u8(value) matches Ok(v) ==> v.spec_to_u8() == value && v.spec_wire_valid(),
    {
    }
}

impl StatusType {
    /// The wire value of the variant.
    pub fn to_u8(&self) -> (r: u8)
        ensures
            r == self.spec_to_u8(),
    {
        match self {
            StatusType::NoStatus => 0x00,
            StatusType::GetLastMessage => 0x01,
            StatusType::Advisory => 0x02,
            StatusType::Warning => 0x03,
            StatusType::Error => 0x04,
            StatusType::AdvisoryCleared => 0x12,
            StatusType::WarningCleared => 0x13,
            StatusType::ErrorCleared => 0x14,
        }
    }

    /// The variant that a wire value stands for, or the error for a value that stands for none.
    pub fn try_from_u8(value: u8) -> (r: Result<Self, RdmError>)
        ensures
            r == Self::spec_try_from_u8(value),
    {
        match value {
            0x00 => Ok(StatusType::NoStatus),
            0x01 => Ok(StatusType::GetLastMessage),
            0x02 => Ok(StatusType::Advisory),
            0x03 => Ok(StatusType::Warning),
            0x04 => Ok(StatusType::Error),
            0x12 => Ok(StatusType::AdvisoryCleared),
            0x13 => Ok(StatusType::WarningCleared),
            0x14 => Ok(StatusType::ErrorCleared),
            _ => Err(RdmError::InvalidStatusType(value)),
        }
    }
}

impl TryFrom<u8> for StatusType {
    type Error = RdmError;

    fn try_from(value: u8) -> (r: Result<Self, RdmError>) {
        Self::try_from_u8(value)
    }
}

impl TryFromSpecImpl<u8> for StatusType {
    open spec fn obeys_try_from_spec() -> bool {
        true
    }

    open spec fn try_from_spec(value: u8) -> Result<Self, RdmError> {
        Self::spec_try_from_u8(value)
    }
}

impl From<StatusType> for u8 {
    fn from(value: StatusType) -> (r: u8) {
        value.to_u8()
    }
}

impl FromSpecImpl<StatusType> for u8 {
    open spec fn obeys_from_spec() -> bool {
        true
    }

    open spec fn from_spec(value: StatusType) -> u8 {
        value.spec_to_u8()
    }
}

impl<'a> FixedWire<'a> for StatusType {
    open spec fn spec_size() -> nat {
        1
    }

    open spec fn spec_wire(&self) -> Seq<u8> {
        self.spec_to_u8().spec_wire()
    }

    open spec fn spec_read(bytes: Seq<u8>) -> Option<Self> {
        match u8::spec_read(bytes) {
            Some(value) => match Self::spec_try_from_u8(value) {
                Ok(v) => Some(v),
                Err(_) => None,
            },
            None => None,
        }
    }

    open spec fn spec_wire_valid(&self) -> bool {
        StatusType::spec_wire_valid(*self)
    }

    fn wire_size() -> (n: usize) {
        1
    }

    fn write_wire(&self, out: &mut Vec<u8>) {
        self.to_u8().write_wire(out);
    }

    fn read_wire(buf: &'a [u8], pos: usize) -> (r: Option<Self>) {
        let value = match u8::read_wire(buf, pos) {
            Some(value) => value,
            None => return None,
        };
        match Self::try_from_u8(value) {
            Ok(v) => Some(v),
            Err(_) => None,
        }
    }

    proof fn lemma_wire(&self) {
        self.spec_to_u8().lemma_wire();
        if self.spec_wire_valid() {
            self.lemma_encode_decode();
        }
    }
}

#[derive(Copy, Clone, Debug, PartialEq, Eq, Structural)]
pub enum ProductCategory {
    NotDeclared,
    Fixture,
    FixtureFixed,
    FixtureMovingYoke,
    FixtureMovingMirror,
    FixtureOther,
    FixtureAccessory,
    FixtureAccessoryColor,
    FixtureAccessoryYoke,
    FixtureAccessoryMirror,
    FixtureAccessoryEffect,
    FixtureAccessoryBeam,
    AccessoryOther,
    Projector,
    ProjectorFixed,
    ProjectorMovingYoke,
    ProjectorMovingMirror,
    ProjectorOther,
    Atmospheric,
    AtmosphericEffect,
    AtmosphericPyro,
    AtmosphericOther,
    Dimmer,
    DimmerACIncandescent,
    DimmerACFlourescent,
    DimmerACColdCathode,
    DimmerACNonDimModule,
    DimmerACLowVoltage,
    DimmerControllableAC,
    DimmerDCLevelOutput,
    DimmerDCPWMOutput,
    DimmerSpecialisedLED,
    DimmerOther,
    Power,
    PowerControl,
    PowerSource,
    PowerOther,
    Scenic,
    ScenicDrive,
    ScenicOther,
    Data,
    DataDistribution,
    DataConversion,
    DataOther,
    AV,
    AVAudio,
    AVVideo,
    AVOther,
    Monitor,
    MonitorACLinePower,
    MonitorDCPower,
    MonitorEnvironmental,
    MonitorOther,
    Control,
    ControlController,
    ControlBackupDevice,
    ControlOther,
    Test,
    TestEquipment,
    TestEquipmentOther,
    Other,
    ManufacturerSpecific(u16),
    Unknown(u16),
}

impl ProductCategory {
    /// The wire value of the variant.
    pub open spec fn spec_to_u16(self) -> u16 {
        match self {
            ProductCategory::NotDeclared => 0x0000,
            ProductCategory::Fixture => 0x0100,
            ProductCategory::FixtureFixed => 0x0101,
            ProductCategory::FixtureMovingYoke => 0x0102,
            ProductCategory::FixtureMovingMirror => 0x0103,
            ProductCategory::FixtureOther => 0x01ff,
            ProductCategory::FixtureAccessory => 0x0200,
            ProductCategory::FixtureAccessoryColor => 0x0201,
            ProductCategory::FixtureAccessoryYoke => 0x0202,
            ProductCategory::FixtureAccessoryMirror => 0x0203,
            ProductCategory::FixtureAccessoryEffect => 0x0204,
            ProductCategory::FixtureAccessoryBeam => 0x0205,
            ProductCategory::AccessoryOther => 0x02ff,
            ProductCategory::Projector => 0x0300,
            ProductCategory::ProjectorFixed => 0x0301,
            ProductCategory::ProjectorMovingYoke => 0x0302,
            ProductCategory::ProjectorMovingMirror => 0x0303,
            ProductCategory::ProjectorOther => 0x03ff,
            ProductCategory::Atmospheric => 0x0400,
            ProductCategory::AtmosphericEffect => 0x0401,
            ProductCategory::AtmosphericPyro => 0x0402,
            ProductCategory::AtmosphericOther => 0x04ff,
            ProductCategory::Dimmer => 0x0500,
            ProductCategory::DimmerACIncandescent => 0x0501,
            ProductCategory::DimmerACFlourescent => 0x0502,
            ProductCategory::DimmerACColdCathode => 0x0503,
            ProductCategory::DimmerACNonDimModule => 0x0504,
            ProductCategory::DimmerACLowVoltage => 0x0505,
            ProductCategory::DimmerControllableAC => 0x0506,
            ProductCategory::DimmerDCLevelOutput => 0x0507,
            ProductCategory::DimmerDCPWMOutput => 0x0508,
            ProductCategory::DimmerSpecialisedLED => 0x0509,
            ProductCategory::DimmerOther => 0x05ff,
            ProductCategory::Power => 0x0600,
            ProductCategory::PowerControl => 0x0601,
            ProductCategory::PowerSource => 0x0602,
            ProductCategory::PowerOther => 0x06ff,
            ProductCategory::Scenic => 0x0700,
            ProductCategory::ScenicDrive => 0x0701,
            ProductCategory::ScenicOther => 0x07ff,
            ProductCategory::Data => 0x0800,
            ProductCategory::DataDistribution => 0x0801,
            ProductCategory::DataConversion => 0x0802,
            ProductCategory::DataOther => 0x08ff,
            ProductCategory::AV => 0x0900,
            ProductCategory::AVAudio => 0x0901,
            ProductCategory::AVVideo => 0x0902,
            ProductCategory::AVOther => 0x09ff,
            ProductCategory::Monitor => 0x0a00,
            ProductCategory::MonitorACLinePower => 0x0a01,
            ProductCategory::MonitorDCPower => 0x0a02,
            ProductCategory::MonitorEnvironmental => 0x0a03,
            ProductCategory::MonitorOther => 0x0aff,
            ProductCategory::Control => 0x7000,
            ProductCategory::ControlController => 0x7001,
            ProductCategory::ControlBackupDevice => 0x7002,
            ProductCategory::ControlOther => 0x70ff,
            ProductCategory::Test => 0x7100,
            ProductCategory::TestEquipment => 0x7101,
            ProductCategory::TestEquipmentOther => 0x71ff,
            ProductCategory::Other => 0x7fff,
            ProductCategory::ManufacturerSpecific(value) => value,
            ProductCategory::Unknown(value) => value,
        }
    }

    /// The variant that a wire value stands for.
    pub open spec fn spec_from_u16(value: u16) -> Self {
        match value {
            0x0000 => ProductCategory::NotDeclared,
            0x0100 => ProductCategory::Fixture,
            0x0101 => ProductCategory::FixtureFixed,
            0x0102 => ProductCategory::FixtureMovingYoke,
            0x0103 => ProductCategory::FixtureMovingMirror,
            0x01ff => ProductCategory::FixtureOther,
            0x0200 => ProductCategory::FixtureAccessory,
            0x0201 => ProductCategory::FixtureAccessoryColor,
            0x0202 => ProductCategory::FixtureAccessoryYoke,
            0x0203 => ProductCategory::FixtureAccessoryMirror,
            0x0204 => ProductCategory::FixtureAccessoryEffect,
            0x0205 => ProductCategory::FixtureAccessoryBeam,
            0x02ff => ProductCategory::AccessoryOther,
            0x0300 => ProductCategory::Projector,
            0x0301 => ProductCategory::ProjectorFixed,
            0x0302 => ProductCategory::ProjectorMovingYoke,
            0x0303 => ProductCategory::ProjectorMovingMirror,
            0x03ff => ProductCategory::ProjectorOther,
            0x0400 => ProductCategory::Atmospheric,
            0x0401 => ProductCategory::AtmosphericEffect,
            0x0402 => ProductCategory::AtmosphericPyro,
            0x04ff => ProductCategory::AtmosphericOther,
            0x0500 => ProductCategory::Dimmer,
            0x0501 => ProductCategory::DimmerACIncandescent,
            0x0502 => ProductCategory::DimmerACFlourescent,
            0x0503 => ProductCategory::DimmerACColdCathode,
            0x0504 => ProductCategory::DimmerACNonDimModule,
            0x0505 => ProductCategory::DimmerACLowVoltage,
            0x0506 => ProductCategory::DimmerControllableAC,
            0x0507 => ProductCategory::DimmerDCLevelOutput,
            0x0508 => ProductCategory::DimmerDCPWMOutput,
            0x0509 => ProductCategory::DimmerSpecialisedLED,
            0x05ff => ProductCategory::DimmerOther,
            0x0600 => ProductCategory::Power,
            0x0601 => ProductCategory::PowerControl,
            0x0602 => ProductCategory::PowerSource,
            0x06ff => ProductCategory::PowerOther,
            0x0700 => ProductCategory::Scenic,
            0x0701 => ProductCategory::ScenicDrive,
            0x07ff => ProductCategory::ScenicOther,
            0x0800 => ProductCategory::Data,
            0x0801 => ProductCategory::DataDistribution,
            0x0802 => ProductCategory::DataConversion,
            0x08ff => ProductCategory::DataOther,
            0x0900 => ProductCategory::AV,
            0x0901 => ProductCategory::AVAudio,
            0x0902 => ProductCategory::AVVideo,
            0x09ff => ProductCategory::AVOther,
            0x0a00 => ProductCategory::Monitor,
            0x0a01 => ProductCategory::MonitorACLinePower,
            0x0a02 => ProductCategory::MonitorDCPower,
            0x0a03 => ProductCategory::MonitorEnvironmental,
            0x0aff => ProductCategory::MonitorOther,
            0x7000 => ProductCategory::Control,
            0x7001 => ProductCategory::ControlController,
            0x7002 => ProductCategory::ControlBackupDevice,
            0x70ff => ProductCategory::ControlOther,
            0x7100 => ProductCategory::Test,
            0x7101 => ProductCategory::TestEquipment,
            0x71ff => ProductCategory::TestEquipmentOther,
            0x7fff => ProductCategory::Other,
            _ => if 0x8000 <= value && value <= 0xdfff { ProductCategory::ManufacturerSpecific(value) } else { ProductCategory::Unknown(value) },
        }
    }

    /// Whether the value is one that decoding its wire value gives back.
    pub open spec fn spec_wire_valid(self) -> bool {
        match self {
            ProductCategory::ManufacturerSpecific(value) => 0x8000 <= value && value <= 0xdfff,
            ProductCategory::Unknown(value) => value != 0x0000 && value != 0x0100 && value != 0x0101 && value != 0x0102 && value != 0x0103 && value != 0x01ff && value != 0x0200 && value != 0x0201 && value != 0x0202 && value != 0x0203 && value != 0x0204 && value != 0x0205 && value != 0x02ff && value != 0x0300 && value != 0x0301 && value != 0x0302 && value != 0x0303 && value != 0x03ff && value != 0x0400 && value != 0x0401 && value != 0x0402 && value != 0x04ff && value != 0x0500 && value != 0x0501 && value != 0x0502 && value != 0x0503 && value != 0x0504 && value != 0x0505 && value != 0x0506 && value != 0x0507 && value != 0x0508 && value != 0x0509 && value != 0x05ff && value != 0x0600 && value != 0x0601 && value != 0x0602 && value != 0x06ff && value != 0x0700 && value != 0x0701 && value != 0x07ff && value != 0x0800 && value != 0x0801 && value != 0x0802 && value != 0x08ff && value != 0x0900 && value != 0x0901 && value != 0x0902 && value != 0x09ff && value != 0x0a00 && value != 0x0a01 && value != 0x0a02 && value != 0x0a03 && value != 0x0aff && value != 0x7000 && value != 0x7001 && value != 0x7002 && value != 0x70ff && value != 0x7100 && value != 0x7101 && value != 0x71ff && value != 0x7fff && !(0x8000 <= value && value <= 0xdfff),
            _ => true,
        }
    }

    /// Decoding the wire value of a valid variant gives it back.
    pub proof fn lemma_encode_decode(self)
        requires
            self.spec_wire_valid(),
        ensures
            Self::spec_from_u16(self.spec_to_u16()) == self,
    {
    }

    /// Encoding the variant that a wire value stands for gives the value back.
    pub proof fn lemma_decode_encode(value: u16)
        ensures
            Self::spec_from_u16(value).spec_to_u16() == value,
            Self::spec_from_u16(value).spec_wire_valid(),
    {
    }
}

impl ProductCategory {
    /// The wire value of the variant.
    #[verifier::rlimit(50)]
    pub fn to_u16(&self) -> (r: u16)
        ensures
            r == self.spec_to_u16(),
    {
        match self {
            ProductCategory::NotDeclared => 0x0000,
            ProductCategory::Fixture => 0x0100,
            ProductCategory::FixtureFixed => 0x0101,
            ProductCategory::FixtureMovingYoke => 0x0102,
            ProductCategory::FixtureMovingMirror => 0x0103,
            ProductCategory::FixtureOther => 0x01ff,
            ProductCategory::FixtureAccessory => 0x0200,
            ProductCategory::FixtureAccessoryColor => 0x0201,
            ProductCategory::FixtureAccessoryYoke => 0x0202,
            ProductCategory::FixtureAccessoryMirror => 0x0203,
            ProductCategory::FixtureAccessoryEffect => 0x0204,
            ProductCategory::FixtureAccessoryBeam => 0x0205,
            ProductCategory::AccessoryOther => 0x02ff,
            ProductCategory::Projector => 0x0300,
            ProductCategory::ProjectorFixed => 0x0301,
            ProductCategory::ProjectorMovingYoke => 0x0302,
            ProductCategory::ProjectorMovingMirror => 0x0303,
            ProductCategory::ProjectorOther => 0x03ff,
            ProductCategory::Atmospheric => 0x0400,
            ProductCategory::AtmosphericEffect => 0x0401,
            ProductCategory::AtmosphericPyro => 0x0402,
            ProductCategory::AtmosphericOther => 0x04ff,
            ProductCategory::Dimmer => 0x0500,
            ProductCategory::DimmerACIncandescent => 0x0501,
            ProductCategory::DimmerACFlourescent => 0x0502,
            ProductCategory::DimmerACColdCathode => 0x0503,
            ProductCategory::DimmerACNonDimModule => 0x0504,
            ProductCategory::DimmerACLowVoltage => 0x0505,
            ProductCategory::DimmerControllableAC => 0x0506,
            ProductCategory::DimmerDCLevelOutput => 0x0507,
            ProductCategory::DimmerDCPWMOutput => 0x0508,
            ProductCategory::DimmerSpecialisedLED => 0x0509,
            ProductCategory::DimmerOther => 0x05ff,
            ProductCategory::Power => 0x0600,
            ProductCategory::PowerControl => 0x0601,
            ProductCategory::PowerSource => 0x0602,
            ProductCategory::PowerOther => 0x06ff,
            ProductCategory::Scenic => 0x0700,
            ProductCategory::ScenicDrive => 0x0701,
            ProductCategory::ScenicOther => 0x07ff,
            ProductCategory::Data => 0x0800,
            ProductCategory::DataDistribution => 0x0801,
            ProductCategory::DataConversion => 0x0802,
            ProductCategory::DataOther => 0x08ff,
            ProductCategory::AV => 0x0900,
            ProductCategory::AVAudio => 0x0901,
            ProductCategory::AVVideo => 0x0902,
            ProductCategory::AVOther => 0x09ff,
            ProductCategory::Monitor => 0x0a00,
            ProductCategory::MonitorACLinePower => 0x0a01,
            ProductCategory::MonitorDCPower => 0x0a02,
            ProductCategory::MonitorEnvironmental => 0x0a03,
            ProductCategory::MonitorOther => 0x0aff,
            ProductCategory::Control => 0x7000,
            ProductCategory::ControlController => 0x7001,
            ProductCategory::ControlBackupDevice => 0x7002,
            ProductCategory::ControlOther => 0x70ff,
            ProductCategory::Test => 0x7100,
            ProductCategory::TestEquipment => 0x7101,
            ProductCategory::TestEquipmentOther => 0x71ff,
            ProductCategory::Other => 0x7fff,
            ProductCategory::ManufacturerSpecific(value) => *value,
            ProductCategory::Unknown(value) => *value,
        }
    }

    /// The variant that a wire value stands for.
    #[verifier::rlimit(50)]
    pub fn from_u16(value: u16) -> (r: Self)
        ensures
            r == Self::spec_from_u16(value),
    {
        match value {
            0x0000 => ProductCategory::NotDeclared,
            0x0100 => ProductCategory::Fixture,
            0x0101 => ProductCategory::FixtureFixed,
            0x0102 => ProductCategory::FixtureMovingYoke,
            0x0103 => ProductCategory::FixtureMovingMirror,
            0x01ff => ProductCategory::FixtureOther,
            0x0200 => ProductCategory::FixtureAccessory,
            0x0201 => ProductCategory::FixtureAccessoryColor,
            0x0202 => ProductCategory::FixtureAccessoryYoke,
            0x0203 => ProductCategory::FixtureAccessoryMirror,
            0x0204 => ProductCategory::FixtureAccessoryEffect,
            0x0205 => ProductCategory::FixtureAccessoryBeam,
            0x02ff => ProductCategory::AccessoryOther,
            0x0300 => ProductCategory::Projector,
            0x0301 => ProductCategory::ProjectorFixed,
            0x0302 => ProductCategory::ProjectorMovingYoke,
            0x0303 => ProductCategory::ProjectorMovingMirror,
            0x03ff => ProductCategory::ProjectorOther,
            0x0400 => ProductCategory::Atmospheric,
            0x0401 => ProductCategory::AtmosphericEffect,
            0x0402 => ProductCategory::AtmosphericPyro,
            0x04ff => ProductCategory::AtmosphericOther,
            0x0500 => ProductCategory::Dimmer,
            0x0501 => ProductCategory::DimmerACIncandescent,
            0x0502 => ProductCategory::DimmerACFlourescent,
            0x0503 => ProductCategory::DimmerACColdCathode,
            0x0504 => ProductCategory::DimmerACNonDimModule,
            0x0505 => ProductCategory::DimmerACLowVoltage,
            0x0506 => ProductCategory::DimmerControllableAC,
            0x0507 => ProductCategory::DimmerDCLevelOutput,
            0x0508 => ProductCategory::DimmerDCPWMOutput,
            0x0509 => ProductCategory::DimmerSpecialisedLED,
            0x05ff => ProductCategory::DimmerOther,
            0x0600 => ProductCategory::Power,
            0x0601 => ProductCategory::PowerControl,
            0x0602 => ProductCategory::PowerSource,
            0x06ff => ProductCategory::PowerOther,
            0x0700 => ProductCategory::Scenic,
            0x0701 => ProductCategory::ScenicDrive,
            0x07ff => ProductCategory::ScenicOther,
            0x0800 => ProductCategory::Data,
            0x0801 => ProductCategory::DataDistribution,
            0x0802 => ProductCategory::DataConversion,
            0x08ff => ProductCategory::DataOther,
            0x0900 => ProductCategory::AV,
            0x0901 => ProductCategory::AVAudio,
            0x0902 => ProductCategory::AVVideo,
            0x09ff => ProductCategory::AVOther,
            0x0a00 => ProductCategory::Monitor,
            0x0a01 => ProductCategory::MonitorACLinePower,
            0x0a02 => ProductCategory::MonitorDCPower,
            0x0a03 => ProductCategory::MonitorEnvironmental,
            0x0aff => ProductCategory::MonitorOther,
            0x7000 => ProductCategory::Control,
            0x7001 => ProductCategory::ControlController,
            0x7002 => ProductCategory::ControlBackupDevice,
            0x70ff => ProductCategory::ControlOther,
            0x7100 => ProductCategory::Test,
            0x7101 => ProductCategory::TestEquipment,
            0x71ff => ProductCategory::TestEquipmentOther,
            0x7fff => ProductCategory::Other,
            _ => if 0x8000 <= value && value <= 0xdfff { ProductCategory::ManufacturerSpecific(value) } else { ProductCategory::Unknown(value) },
        }
    }
}

impl From<u16> for ProductCategory {
    fn from(value: u16) -> (r: Self) {
        Self::from_u16(value)
    }
}

impl FromSpecImpl<u16> for ProductCategory {
    open spec fn obeys_from_spec() -> bool {
        true
    }

    open spec fn from_spec(value: u16) -> Self {
        Self::spec_from_u16(value)
    }
}

impl From<ProductCategory> for u16 {
    fn from(value: ProductCategory) -> (r: u16) {
        value.to_u16()
    }
}

impl FromSpecImpl<ProductCategory> for u16 {
    open spec fn obeys_from_spec() -> bool {
        true
    }

    open spec fn from_spec(value: ProductCategory) -> u16 {
        value.spec_to_u16()
    }
}

impl<'a> FixedWire<'a> for ProductCategory {
    open spec fn spec_size() -> nat {
        2
    }

    open spec fn spec_wire(&self) -> Seq<u8> {
        self.spec_to_u16().spec_wire()
    }

    open spec fn spec_read(bytes: Seq<u8>) -> Option<Self> {
        match u16::spec_read(bytes) {
            Some(value) => Some(Self::spec_from_u16(value)),
            None => None,
        }
    }

    open spec fn spec_wire_valid(&self) -> bool {
        ProductCategory::spec_wire_valid(*self)
    }

    fn wire_size() -> (n: usize) {
        2
    }

    fn write_wire(&self, out: &mut Vec<u8>) {
        self.to_u16().write_wire(out);
    }

    fn read_wire(buf: &'a [u8], pos: usize) -> (r: Option<Self>) {
        let value = match u16::read_wire(buf, pos) {
            Some(value) => value,
            None => return None,
        };
        Some(Self::from_u16(value))
    }

    proof fn lemma_wire(&self) {
        self.spec_to_u16().lemma_wire();
        if self.spec_wire_valid() {
            self.lemma_encode_decode();
        }
    }
}

#[derive(Copy, Clone, Debug, PartialEq, Eq, Structural)]
pub enum LampState {
    LampOff,
    LampOn,
    LampStrike,
    LampStandby,
    LampNotPresent,
    LampError,
    ManufacturerSpecific(u8),
}

impl LampState {
    /// The wire value of the variant.
    pub open spec fn spec_to_u8(self) -> u8 {
        match self {
            LampState::LampOff => 0x00,
            LampState::LampOn => 0x01,
            LampState::LampStrike => 0x02,
            LampState::LampStandby => 0x03,
            LampState::LampNotPresent => 0x04,
            LampState::LampError => 0x05,
            LampState::ManufacturerSpecific(value) => value,
        }
    }

    /// The variant that a wire value stands for.
    pub open spec fn spec_try_from_u8(value: u8) -> Result<Self, RdmError> {
        match value {
            0x00 => Ok(LampState::LampOff),
            0x01 => Ok(LampState::LampOn),
            0x02 => Ok(LampState::LampStrike),
            0x03 => Ok(LampState::LampStandby),
            0x04 => Ok(LampState::LampNotPresent),
            0x05 => Ok(LampState::LampError),
            _ => if 0x80 <= value && value <= 0xdf { Ok(LampState::ManufacturerSpecific(value)) } else { Err(RdmError::InvalidLampState(value)) },
        }
    }

    /// Whether the value is one that decoding its wire value gives back.
    pub open spec fn spec_wire_valid(self) -> bool {
        match self {
            LampState::ManufacturerSpecific(value) => 0x80 <= value && value <= 0xdf,
            _ => true,
        }
    }

    /// Decoding the wire value of a valid variant gives it back.
    pub proof fn lemma_encode_decode(self)
        requires
            self.spec_wire_valid(),
        ensures
            Self::spec_try_from_u8(self.spec_to_u8()) == Ok::<Self, RdmError>(self),
    {
    }

    /// Encoding the variant that a wire value stands for gives the value back.
    pub proof fn lemma_decode_encode(value: u8)
        ensures
            Self::spec_try_from_u8(value) matches Ok(v) ==> v.spec_to_u8() == value && v.spec_wire_valid(),
    {
    }
}

impl LampState {
    /// The wire value of the variant.
    pub fn to_u8(&self) -> (r: u8)
        ensures
            r == self.spec_to_u8(),
    {
        match self {
            LampState::LampOff => 0x00,
            LampState::LampOn => 0x01,
            LampState::LampStrike => 0x02,
            LampState::LampStandby => 0x03,
            LampState::LampNotPresent => 0x04,
            LampState::LampError => 0x05,
            LampState::ManufacturerSpecific(value) => *value,
        }
    }

    /// The variant that a wire value stands for, or the error for a value that stands for none.
    pub fn try_from_u8(value: u8) -> (r: Result<Self, RdmError>)
        ensures
            r == Self::spec_try_from_u8(value),
    {
        match value {
            0x00 => Ok(LampState::LampOff),
            0x01 => Ok(LampState::LampOn),
            0x02 => Ok(LampState::LampStrike),
            0x03 => Ok(LampState::LampStandby),
            0x04 => Ok(LampState::LampNotPresent),
            0x05 => Ok(LampState::LampError),
            _ => if 0x80 <= value && value <= 0xdf { Ok(LampState::ManufacturerSpecific(value)) } else { Err(RdmError::InvalidLampState(value)) },
        }
    }
}

impl TryFrom<u8> for LampState {
    type Error = RdmError;

    fn try_from(value: u8) -> (r: Result<Self, RdmError>) {
        Self::try_from_u8(value)
    }
}

impl TryFromSpecImpl<u8> for LampState {
    open spec fn obeys_try_from_spec() -> bool {
        true
    }

    open spec fn try_from_spec(value: u8) -> Result<Self, RdmError> {
        Self::spec_try_from_u8(value)
    }
}

impl From<LampState> for u8 {
    fn from(value: LampState) -> (r: u8) {
        value.to_u8()
    }
}

impl FromSpecImpl<LampState> for u8 {
    open spec fn obeys_from_spec() -> bool {
        true
    }

    open spec fn from_spec(value: LampState) -> u8 {
        value.spec_to_u8()
    }
}

impl<'a> FixedWire<'a> for LampState {
    open spec fn spec_size() -> nat {
        1
    }

    open spec fn spec_wire(&self) -> Seq<u8> {
        self.spec_to_u8().spec_wire()
    }

    open spec fn spec_read(bytes: Seq<u8>) -> Option<Self> {
        match u8::spec_read(bytes) {
            Some(value) => match Self::spec_try_from_u8(value) {
                Ok(v) => Some(v),
                Err(_) => None,
            },
            None => None,
        }
    }

    open spec fn spec_wire_valid(&self) -> bool {
        LampState::spec_wire_valid(*self)
    }

    fn wire_size() -> (n: usize) {
        1
    }

    fn write_wire(&self, out: &mut Vec<u8>) {
        self.to_u8().write_wire(out);
    }

    fn read_wire(buf: &'a [u8], pos: usize) -> (r: Option<Self>) {
        let value = match u8::read_wire(buf, pos) {
            Some(value) => value,
            None => return None,
        };
        match Self::try_from_u8(value) {
            Ok(v) => Some(v),
            Err(_) => None,
        }
    }

    proof fn lemma_wire(&self) {
        self.spec_to_u8().lemma_wire();
        if self.spec_wire_valid() {
            self.lemma_encode_decode();
        }
    }
}

#[derive(Copy, Clone, Debug, PartialEq, Eq, Structural)]
pub enum LampOnMode {
    OffMode,
    DmxMode,
    OnMode,
    AfterCal,
    ManufacturerSpecific(u8),
}

impl LampOnMode {
    /// The wire value of the variant.
    pub open spec fn spec_to_u8(self) -> u8 {
        match self {
            LampOnMode::OffMode => 0x00,
            LampOnMode::DmxMode => 0x01,
            LampOnMode::OnMode => 0x02,
            LampOnMode::AfterCal => 0x03,
            LampOnMode::ManufacturerSpecific(value) => value,
        }
    }

    /// The variant that a wire value stands for.
    pub open spec fn spec_try_from_u8(value: u8) -> Result<Self, RdmError> {
        match value {
            0x00 => Ok(LampOnMode::OffMode),
            0x01 => Ok(LampOnMode::DmxMode),
            0x02 => Ok(LampOnMode::OnMode),
            0x03 => Ok(LampOnMode::AfterCal),
            _ => if 0x80 <= value && value <= 0xdf { Ok(LampOnMode::ManufacturerSpecific(value)) } else { Err(RdmError::InvalidLampOnMode(value)) },
        }
    }

    /// Whether the value is one that decoding its wire value gives back.
    pub open spec fn spec_wire_valid(self) -> bool {
        match self {
            LampOnMode::ManufacturerSpecific(value) => 0x80 <= value && value <= 0xdf,
            _ => true,
        }
    }

    /// Decoding the wire value of a valid variant gives it back.
    pub proof fn lemma_encode_decode(self)
        requires
            self.spec_wire_valid(),
        ensures
            Self::spec_try_from_u8(self.spec_to_u8()) == Ok::<Self, RdmError>(self),
    {
    }

    /// Encoding the variant that a wire value stands for gives the value back.
    pub proof fn lemma_decode_encode(value: u8)
        ensures
            Self::spec_try_from_u8(value) matches Ok(v) ==> v.spec_to_u8() == value && v.spec_wire_valid(),
    {
    }
}

impl LampOnMode {
    /// The wire value of the variant.
    pub fn to_u8(&self) -> (r: u8)
        ensures
            r == self.spec_to_u8(),
    {
        match self {
            LampOnMode::OffMode => 0x00,
            LampOnMode::DmxMode => 0x01,
            LampOnMode::OnMode => 0x02,
            LampOnMode::AfterCal => 0x03,
            LampOnMode::ManufacturerSpecific(value) => *value,
        }
    }

    /// The variant that a wire value stands for, or the error for a value that stands for none.
    pub fn try_from_u8(value: u8) -> (r: Result<Self, RdmError>)
        ensures
            r == Self::spec_try_from_u8(value),
    {
        match value {
            0x00 => Ok(LampOnMode::OffMode),
            0x01 => Ok(LampOnMode::DmxMode),
            0x02 => Ok(LampOnMode::OnMode),
            0x03 => Ok(LampOnMode::AfterCal),
            _ => if 0x80 <= value && value <= 0xdf { Ok(LampOnMode::ManufacturerSpecific(value)) } else { Err(RdmError::InvalidLampOnMode(value)) },
        }
    }
}

impl TryFrom<u8> for LampOnMode {
    type Error = RdmError;

    fn try_from(value: u8) -> (r: Result<Self, RdmError>) {
        Self::try_from_u8(value)
    }
}

impl TryFromSpecImpl<u8> for LampOnMode {
    open spec fn obeys_try_from_spec() -> bool {
        true
    }

    open spec fn try_from_spec(value: u8) -> Result<Self, RdmError> {
        Self::spec_try_from_u8(value)
    }
}

impl From<LampOnMode> for u8 {
    fn from(value: LampOnMode) -> (r: u8) {
        value.to_u8()
    }
}

impl FromSpecImpl<LampOnMode> for u8 {
    open spec fn obeys_from_spec() -> bool {
        true
    }

    open spec fn from_spec(value: LampOnMode) -> u8 {
        value.spec_to_u8()
    }
}

impl<'a> FixedWire<'a> for LampOnMode {
    open spec fn spec_size() -> nat {
        1
    }

    open spec fn spec_wire(&self) -> Seq<u8> {
        self.spec_to_u8().spec_wire()
    }

    open spec fn spec_read(bytes: Seq<u8>) -> Option<Self> {
        match u8::spec_read(bytes) {
            Some(value) => match Self::spec_try_from_u8(value) {
                Ok(v) => Some(v),
                Err(_) => None,
            },
            None => None,
        }
    }

    open spec fn spec_wire_valid(&self) -> bool {
        LampOnMode::spec_wire_valid(*self)
    }

    fn wire_size() -> (n: usize) {
        1
    }

    fn write_wire(&self, out: &mut Vec<u8>) {
        self.to_u8().write_wire(out);
    }

    fn read_wire(buf: &'a [u8], pos: usize) -> (r: Option<Self>) {
        let value = match u8::read_wire(buf, pos) {
            Some(value) => value,
            None => return None,
        };
        match Self::try_from_u8(value) {
            Ok(v) => Some(v),
            Err(_) => None,
        }
    }

    proof fn lemma_wire(&self) {
        self.spec_to_u8().lemma_wire();
        if self.spec_wire_valid() {
            self.lemma_encode_decode();
        }
    }
}

#[derive(Copy, Clone, Debug, PartialEq, Eq, Structural)]
pub enum PowerState {
    FullOff,
    Shutdown,
    Standby,
    Normal,
}

impl PowerState {
    /// The wire value of the variant.
    pub open spec fn spec_to_u8(self) -> u8 {
        match self {
            PowerState::FullOff => 0x00,
            PowerState::Shutdown => 0x01,
            PowerState::Standby => 0x02,
            PowerState::Normal => 0xff,
        }
    }

    /// The variant that a wire value stands for.
    pub open spec fn spec_try_from_u8(value: u8) -> Result<Self, RdmError> {
        match value {
            0x00 => Ok(PowerState::FullOff),
            0x01 => Ok(PowerState::Shutdown),
            0x02 => Ok(PowerState::Standby),
            0xff => Ok(PowerState::Normal),
            _ => Err(RdmError::InvalidPowerState(value)),
        }
    }

    /// Whether the value is one that decoding its wire value gives back.
    pub open spec fn spec_wire_valid(self) -> bool {
        match self {
            _ => true,
        }
    }

    /// Decoding the wire value of a valid variant gives it back.
    pub proof fn lemma_encode_decode(self)
        requires
            self.spec_wire_valid(),
        ensures
            Self::spec_try_from_u8(self.spec_to_u8()) == Ok::<Self, RdmError>(self),
    {
    }

    /// Encoding the variant that a wire value stands for gives the value back.
    pub proof fn lemma_decode_encode(value: u8)
        ensures
            Self::spec_try_from_u8(value) matches Ok(v) ==> v.spec_to_u8() == value && v.spec_wire_valid(),
    {
    }
}

impl PowerState {
    /// The wire value of the variant.
    pub fn to_u8(&self) -> (r: u8)
        ensures
            r == self.spec_to_u8(),
    {
        match self {
            PowerState::FullOff => 0x00,
            PowerState::Shutdown => 0x01,
            PowerState::Standby => 0x02,
            PowerState::Normal => 0xff,
        }
    }

    /// The variant that a wire value stands for, or the error for a value that stands for none.
    pub fn try_from_u8(value: u8) -> (r: Result<Self, RdmError>)
        ensures
            r == Self::spec_try_from_u8(value),
    {
        match value {
            0x00 => Ok(PowerState::FullOff),
            0x01 => Ok(PowerState::Shutdown),
            0x02 => Ok(PowerState::Standby),
            0xff => Ok(PowerState::Normal),
            _ => Err(RdmError::InvalidPowerState(value)),
        }
    }
}

impl TryFrom<u8> for PowerState {
    type Error = RdmError;

    fn try_from(value: u8) -> (r: Result<Self, RdmError>) {
        Self::try_from_u8(value)
    }
}

impl TryFromSpecImpl<u8> for PowerState {
    open spec fn obeys_try_from_spec() -> bool {
        true
    }

    open spec fn try_from_spec(value: u8) -> Result<Self, RdmError> {
        Self::spec_try_from_u8(value)
    }
}

impl From<PowerState> for u8 {
    fn from(value: PowerState) -> (r: u8) {
        value.to_u8()
    }
}

impl FromSpecImpl<PowerState> for u8 {
    open spec fn obeys_from_spec() -> bool {
        true
    }

    open spec fn from_spec(value: PowerState) -> u8 {
        value.spec_to_u8()
    }
}

impl<'a> FixedWire<'a> for PowerState {
    open spec fn spec_size() -> nat {
        1
    }

    open spec fn spec_wire(&self) -> Seq<u8> {
        self.spec_to_u8().spec_wire()
    }

    open spec fn spec_read(bytes: Seq<u8>) -> Option<Self> {
        match u8::spec_read(bytes) {
            Some(value) => match Self::spec_try_from_u8(value) {
                Ok(v) => Some(v),
                Err(_) => None,
            },
            None => None,
        }
    }

    open spec fn spec_wire_valid(&self) -> bool {
        PowerState::spec_wire_valid(*self)
    }

    fn wire_size() -> (n: usize) {
        1
    }

    fn write_wire(&self, out: &mut Vec<u8>) {
        self.to_u8().write_wire(out);
    }

    fn read_wire(buf: &'a [u8], pos: usize) -> (r: Option<Self>) {
        let value = match u8::read_wire(buf, pos) {
            Some(value) => value,
            None => return None,
        };
        match Self::try_from_u8(value) {
            Ok(v) => Some(v),
            Err(_) => None,
        }
    }

    proof fn lemma_wire(&self) {
        self.spec_to_u8().lemma_wire();
        if self.spec_wire_valid() {
            self.lemma_encode_decode();
        }
    }
}

#[derive(Copy, Clone, Debug, PartialEq, Eq, Structural)]
pub enum OnOffStates {
    Off,
    On,
}

impl OnOffStates {
    /// The wire value of the variant.
    pub open spec fn spec_to_u8(self) -> u8 {
        match self {
            OnOffStates::Off => 0x00,
            OnOffStates::On => 0x01,
        }
    }

    /// The variant that a wire value stands for.
    pub open spec fn spec_try_from_u8(value: u8) -> Result<Self, RdmError> {
        match value {
            0x00 => Ok(OnOffStates::Off),
            0x01 => Ok(OnOffStates::On),
            _ => Err(RdmError::InvalidOnOffStates(value)),
        }
    }

    /// Whether the value is one that decoding its wire value gives back.
    pub open spec fn spec_wire_valid(self) -> bool {
        match self {
            _ => true,
        }
    }

    /// Decoding the wire value of a valid variant gives it back.
    pub proof fn lemma_encode_decode(self)
        requires
            self.spec_wire_valid(),
        ensures
            Self::spec_try_from_u8(self.spec_to_u8()) == Ok::<Self, RdmError>(self),
    {
    }

    /// Encoding the variant that a wire value stands for gives the value back.
    pub proof fn lemma_decode_encode(value: u8)
        ensures
            Self::spec_try_from_u8(value) matches Ok(v) ==> v.spec_to_u8() == value && v.spec_wire_valid(),
    {
    }
}

impl OnOffStates {
    /// The wire value of the variant.
    pub fn to_u8(&self) -> (r: u8)
        ensures
            r == self.spec_to_u8(),
    {
        match self {
            OnOffStates::Off => 0x00,
            OnOffStates::On => 0x01,
        }
    }

    /// The variant that a wire value stands for, or the error for a value that stands for none.
    pub fn try_from_u8(value: u8) -> (r: Result<Self, RdmError>)
        ensures
            r == Self::spec_try_from_u8(value),
    {
        match value {
            0x00 => Ok(OnOffStates::Off),
            0x01 => Ok(OnOffStates::On),
            _ => Err(RdmError::InvalidOnOffStates(value)),
        }
    }
}

impl TryFrom<u8> for OnOffStates {
    type Error = RdmError;

    fn try_from(value: u8) -> (r: Result<Self, RdmError>) {
        Self::try_from_u8(value)
    }
}

impl TryFromSpecImpl<u8> for OnOffStates {
    open spec fn obeys_try_from_spec() -> bool {
        true
    }

    open spec fn try_from_spec(value: u8) -> Result<Self, RdmError> {
        Self::spec_try_from_u8(value)
    }
}

impl From<OnOffStates> for u8 {
    fn from(value: OnOffStates) -> (r: u8) {
        value.to_u8()
    }
}

impl FromSpecImpl<OnOffStates> for u8 {
    open spec fn obeys_from_spec() -> bool {
        true
    }

    open spec fn from_spec(value: OnOffStates) -> u8 {
        value.spec_to_u8()
    }
}

impl<'a> FixedWire<'a> for OnOffStates {
    open spec fn spec_size() -> nat {
        1
    }

    open spec fn spec_wire(&self) -> Seq<u8> {
        self.spec_to_u8().spec_wire()
    }

    open spec fn spec_read(bytes: Seq<u8>) -> Option<Self> {
        match u8::spec_read(bytes) {
            Some(value) => match Self::spec_try_from_u8(value) {
                Ok(v) => Some(v),
                Err(_) => None,
            },
            None => None,
        }
    }

    open spec fn spec_wire_valid(&self) -> bool {
        OnOffStates::spec_wire_valid(*self)
    }

    fn wire_size() -> (n: usize) {
        1
    }

    fn write_wire(&self, out: &mut Vec<u8>) {
        self.to_u8().write_wire(out);
    }

    fn read_wire(buf: &'a [u8], pos: usize) -> (r: Option<Self>) {
        let value = match u8::read_wire(buf, pos) {
            Some(value) => value,
            None => return None,
        };
        match Self::try_from_u8(value) {
            Ok(v) => Some(v),
            Err(_) => None,
        }
    }

    proof fn lemma_wire(&self) {
        self.spec_to_u8().lemma_wire();
        if self.spec_wire_valid() {
            self.lemma_encode_decode();
        }
    }
}

#[derive(Copy, Clone, Debug, PartialEq, Eq, Structural)]
pub enum DisplayInvertMode {
    Off,
    On,
    Auto,
}

impl DisplayInvertMode {
    /// The wire value of the variant.
    pub open spec fn spec_to_u8(self) -> u8 {
        match self {
            DisplayInvertMode::Off => 0x00,
            DisplayInvertMode::On => 0x01,
            DisplayInvertMode::Auto => 0x02,
        }
    }

    /// The variant that a wire value stands for.
    pub open spec fn spec_try_from_u8(value: u8) -> Result<Self, RdmError> {
        match value {
            0x00 => Ok(DisplayInvertMode::Off),
            0x01 => Ok(DisplayInvertMode::On),
            0x02 => Ok(DisplayInvertMode::Auto),
            _ => Err(RdmError::InvalidDisplayInvertMode(value)),
        }
    }

    /// Whether the value is one that decoding its wire value gives back.
    pub open spec fn spec_wire_valid(self) -> bool {
        match self {
            _ => true,
        }
    }

    /// Decoding the wire value of a valid variant gives it back.
    pub proof fn lemma_encode_decode(self)
        requires
            self.spec_wire_valid(),
        ensures
            Self::spec_try_from_u8(self.spec_to_u8()) == Ok::<Self, RdmError>(self),
    {
    }

    /// Encoding the variant that a wire value stands for gives the value back.
    pub proof fn lemma_decode_encode(value: u8)
        ensures
            Self::spec_try_from_u8(value) matches Ok(v) ==> v.spec_to_u8() == value && v.spec_wire_valid(),
    {
    }
}

impl DisplayInvertMode {
    /// The wire value of the variant.
    pub fn to_u8(&self) -> (r: u8)
        ensures
            r == self.spec_to_u8(),
    {
        match self {
            DisplayInvertMode::Off => 0x00,
            DisplayInvertMode::On => 0x01,
            DisplayInvertMode::Auto => 0x02,
        }
    }

    /// The variant that a wire value stands for, or the error for a value that stands for none.
    pub fn try_from_u8(value: u8) -> (r: Result<Self, RdmError>)
        ensures
            r == Self::spec_try_from_u8(value),
    {
        match value {
            0x00 => Ok(DisplayInvertMode::Off),
            0x01 => Ok(DisplayInvertMode::On),
            0x02 => Ok(DisplayInvertMode::Auto),
            _ => Err(RdmError::InvalidDisplayInvertMode(value)),
        }
    }
}

impl TryFrom<u8> for DisplayInvertMode {
    type Error = RdmError;

    fn try_from(value: u8) -> (r: Result<Self, RdmError>) {
        Self::try_from_u8(value)
    }
}

impl TryFromSpecImpl<u8> for DisplayInvertMode {
    open spec fn obeys_try_from_spec() -> bool {
        true
    }

    open spec fn try_from_spec(value: u8) -> Result<Self, RdmError> {
        Self::spec_try_from_u8(value)
    }
}

impl From<DisplayInvertMode> for u8 {
    fn from(value: DisplayInvertMode) -> (r: u8) {
        value.to_u8()
    }
}

impl FromSpecImpl<DisplayInvertMode> for u8 {
    open spec fn obeys_from_spec() -> bool {
        true
    }

    open spec fn from_spec(value: DisplayInvertMode) -> u8 {
        value.spec_to_u8()
    }
}

impl<'a> FixedWire<'a> for DisplayInvertMode {
    open spec fn spec_size() -> nat {
        1
    }

    open spec fn spec_wire(&self) -> Seq<u8> {
        self.spec_to_u8().spec_wire()
    }

    open spec fn spec_read(bytes: Seq<u8>) -> Option<Self> {
        match u8::spec_read(bytes) {
            Some(value) => match Self::spec_try_from_u8(value) {
                Ok(v) => Some(v),
                Err(_) => None,
            },
            None => None,
        }
    }

    open spec fn spec_wire_valid(&self) -> bool {
        DisplayInvertMode::spec_wire_valid(*self)
    }

    fn wire_size() -> (n: usize) {
        1
    }

    fn write_wire(&self, out: &mut Vec<u8>) {
        self.to_u8().write_wire(out);
    }

    fn read_wire(buf: &'a [u8], pos: usize) -> (r: Option<Self>) {
        let value = match u8::read_wire(buf, pos) {
            Some(value) => value,
            None => return None,
        };
        match Self::try_from_u8(value) {
            Ok(v) => Some(v),
            Err(_) => None,
        }
    }

    proof fn lemma_wire(&self) {
        self.spec_to_u8().lemma_wire();
        if self.spec_wire_valid() {
            self.lemma_encode_decode();
        }
    }
}

#[derive(Copy, Clone, Debug, PartialEq, Eq, Structural)]
pub enum ResetDeviceMode {
    Warm,
    Cold,
}

impl ResetDeviceMode {
    /// The wire value of the variant.
    pub open spec fn spec_to_u8(self) -> u8 {
        match self {
            ResetDeviceMode::Warm => 0x01,
            ResetDeviceMode::Cold => 0xff,
        }
    }

    /// The variant that a wire value stands for.
    pub open spec fn spec_try_from_u8(value: u8) -> Result<Self, RdmError> {
        match value {
            0x01 => Ok(ResetDeviceMode::Warm),
            0xff => Ok(ResetDeviceMode::Cold),
            _ => Err(RdmError::InvalidResetDeviceMode(value)),
        }
    }

    /// Whether the value is one that decoding its wire value gives back.
    pub open spec fn spec_wire_valid(self) -> bool {
        match self {
            _ => true,
        }
    }

    /// Decoding the wire value of a valid variant gives it back.
    pub proof fn lemma_encode_decode(self)
        requires
            self.spec_wire_valid(),
        ensures
            Self::spec_try_from_u8(self.spec_to_u8()) == Ok::<Self, RdmError>(self),
    {
    }

    /// Encoding the variant that a wire value stands for gives the value back.
    pub proof fn lemma_decode_encode(value: u8)
        ensures
            Self::spec_try_from_u8(value) matches Ok(v) ==> v.spec_to_u8() == value && v.spec_wire_valid(),
    {
    }
}

impl ResetDeviceMode {
    /// The wire value of the variant.
    pub fn to_u8(&self) -> (r: u8)
        ensures
            r == self.spec_to_u8(),
    {
        match self {
            ResetDeviceMode::Warm => 0x01,
            ResetDeviceMode::Cold => 0xff,
        }
    }

    /// The variant that a wire value stands for, or the error for a value that stands for none.
    pub fn try_from_u8(value: u8) -> (r: Result<Self, RdmError>)
        ensures
            r == Self::spec_try_from_u8(value),
    {
        match value {
            0x01 => Ok(ResetDeviceMode::Warm),
            0xff => Ok(ResetDeviceMode::Cold),
            _ => Err(RdmError::InvalidResetDeviceMode(value)),
        }
    }
}

impl TryFrom<u8> for ResetDeviceMode {
    type Error = RdmError;

    fn try_from(value: u8) -> (r: Result<Self, RdmError>) {
        Self::try_from_u8(value)
    }
}

impl TryFromSpecImpl<u8> for ResetDeviceMode {
    open spec fn obeys_try_from_spec() -> bool {
        true
    }

    open spec fn try_from_spec(value: u8) -> Result<Self, RdmError> {
        Self::spec_try_from_u8(value)
    }
}

impl From<ResetDeviceMode> for u8 {
    fn from(value: ResetDeviceMode) -> (r: u8) {
        value.to_u8()
    }
}

impl FromSpecImpl<ResetDeviceMode> for u8 {
    open spec fn obeys_from_spec() -> bool {
        true
    }

    open spec fn from_spec(value: ResetDeviceMode) -> u8 {
        value.spec_to_u8()
    }
}

impl<'a> FixedWire<'a> for ResetDeviceMode {
    open spec fn spec_size() -> nat {
        1
    }

    open spec fn spec_wire(&self) -> Seq<u8> {
        self.spec_to_u8().spec_wire()
    }

    open spec fn spec_read(bytes: Seq<u8>) -> Option<Self> {
        match u8::spec_read(bytes) {
            Some(value) => match Self::spec_try_from_u8(value) {
                Ok(v) => Some(v),
                Err(_) => None,
            },
            None => None,
        }
    }

    open spec fn spec_wire_valid(&self) -> bool {
        ResetDeviceMode::spec_wire_valid(*self)
    }

    fn wire_size() -> (n: usize) {
        1
    }

    fn write_wire(&self, out: &mut Vec<u8>) {
        self.to_u8().write_wire(out);
    }

    fn read_wire(buf: &'a [u8], pos: usize) -> (r: Option<Self>) {
        let value = match u8::read_wire(buf, pos) {
            Some(value) => value,
            None => return None,
        };
        match Self::try_from_u8(value) {
            Ok(v) => Some(v),
            Err(_) => None,
        }
    }

    proof fn lemma_wire(&self) {
        self.spec_to_u8().lemma_wire();
        if self.spec_wire_valid() {
            self.lemma_encode_decode();
        }
    }
}

#[derive(Copy, Clone, Debug, PartialEq, Eq, Structural)]
pub enum SelfTest {
    Off,
    All,
    ManufacturerId(u8),
}

impl SelfTest {
    /// The wire value of the variant.
    pub open spec fn spec_to_u8(self) -> u8 {
        match self {
            SelfTest::Off => 0x00,
            SelfTest::All => 0xff,
            SelfTest::ManufacturerId(value) => value,
        }
    }

    /// The variant that a wire value stands for.
    pub open spec fn spec_from_u8(value: u8) -> Self {
        match value {
            0x00 => SelfTest::Off,
            0xff => SelfTest::All,
            _ => SelfTest::ManufacturerId(value),
        }
    }

    /// Whether the value is one that decoding its wire value gives back.
    pub open spec fn spec_wire_valid(self) -> bool {
        match self {
            SelfTest::ManufacturerId(value) => value != 0x00 && value != 0xff,
            _ => true,
        }
    }

    /// Decoding the wire value of a valid variant gives it back.
    pub proof fn lemma_encode_decode(self)
        requires
            self.spec_wire_valid(),
        ensures
            Self::spec_from_u8(self.spec_to_u8()) == self,
    {
    }

    /// Encoding the variant that a wire value stands for gives the value back.
    pub proof fn lemma_decode_encode(value: u8)
        ensures
            Self::spec_from_u8(value).spec_to_u8() == value,
            Self::spec_from_u8(value).spec_wire_valid(),
    {
    }
}

impl SelfTest {
    /// The wire value of the variant.
    pub fn to_u8(&self) -> (r: u8)
        ensures
            r == self.spec_to_u8(),
    {
        match self {
            SelfTest::Off => 0x00,
            SelfTest::All => 0xff,
            SelfTest::ManufacturerId(value) => *value,
        }
    }

    /// The variant that a wire value stands for.
    pub fn from_u8(value: u8) -> (r: Self)
        ensures
            r == Self::spec_from_u8(value),
    {
        match value {
            0x00 => SelfTest::Off,
            0xff => SelfTest::All,
            _ => SelfTest::ManufacturerId(value),
        }
    }
}

impl From<u8> for SelfTest {
    fn from(value: u8) -> (r: Self) {
        Self::from_u8(value)
    }
}

impl FromSpecImpl<u8> for SelfTest {
    open spec fn obeys_from_spec() -> bool {
        true
    }

    open spec fn from_spec(value: u8) -> Self {
        Self::spec_from_u8(value)
    }
}

impl From<SelfTest> for u8 {
    fn from(value: SelfTest) -> (r: u8) {
        value.to_u8()
    }
}

impl FromSpecImpl<SelfTest> for u8 {
    open spec fn obeys_from_spec() -> bool {
        true
    }

    open spec fn from_spec(value: SelfTest) -> u8 {
        value.spec_to_u8()
    }
}

impl<'a> FixedWire<'a> for SelfTest {
    open spec fn spec_size() -> nat {
        1
    }

    open spec fn spec_wire(&self) -> Seq<u8> {
        self.spec_to_u8().spec_wire()
    }

    open spec fn spec_read(bytes: Seq<u8>) -> Option<Self> {
        match u8::spec_read(bytes) {
            Some(value) => Some(Self::spec_from_u8(value)),
            None => None,
        }
    }

    open spec fn spec_wire_valid(&self) -> bool {
        SelfTest::spec_wire_valid(*self)
    }

    fn wire_size() -> (n: usize) {
        1
    }

    fn write_wire(&self, out: &mut Vec<u8>) {
        self.to_u8().write_wire(out);
    }

    fn read_wire(buf: &'a [u8], pos: usize) -> (r: Option<Self>) {
        let value = match u8::read_wire(buf, pos) {
            Some(value) => value,
            None => return None,
        };
        Some(Self::from_u8(value))
    }

    proof fn lemma_wire(&self) {
        self.spec_to_u8().lemma_wire();
        if self.spec_wire_valid() {
            self.lemma_encode_decode();
        }
    }
}

#[derive(Copy, Clone, Debug, PartialEq, Eq, Structural)]
pub enum PresetPlaybackMode {
    Off,
    All,
    Scene(u16),
}

impl PresetPlaybackMode {
    /// The wire value of the variant.
    pub open spec fn spec_to_u16(self) -> u16 {
        match self {
            PresetPlaybackMode::Off => 0x0000,
            PresetPlaybackMode::All => 0xffff,
            PresetPlaybackMode::Scene(value) => value,
        }
    }

    /// The variant that a wire value stands for.
    pub open spec fn spec_from_u16(value: u16) -> Self {
        match value {
            0x0000 => PresetPlaybackMode::Off,
            0xffff => PresetPlaybackMode::All,
            _ => PresetPlaybackMode::Scene(value),
        }
    }

    /// Whether the value is one that decoding its wire value gives back.
    pub open spec fn spec_wire_valid(self) -> bool {
        match self {
            PresetPlaybackMode::Scene(value) => value != 0x0000 && value != 0xffff,
            _ => true,
        }
    }

    /// Decoding the wire value of a valid variant gives it back.
    pub proof fn lemma_encode_decode(self)
        requires
            self.spec_wire_valid(),
        ensures
            Self::spec_from_u16(self.spec_to_u16()) == self,
    {
    }

    /// Encoding the variant that a wire value stands for gives the value back.
    pub proof fn lemma_decode_encode(value: u16)
        ensures
            Self::spec_from_u16(value).spec_to_u16() == value,
            Self::spec_from_u16(value).spec_wire_valid(),
    {
    }
}

impl PresetPlaybackMode {
    /// The wire value of the variant.
    pub fn to_u16(&self) -> (r: u16)
        ensures
            r == self.spec_to_u16(),
    {
        match self {
            PresetPlaybackMode::Off => 0x0000,
            PresetPlaybackMode::All => 0xffff,
            PresetPlaybackMode::Scene(value) => *value,
        }
    }

    /// The variant that a wire value stands for.
    pub fn from_u16(value: u16) -> (r: Self)
        ensures
            r == Self::spec_from_u16(value),
    {
        match value {
            0x0000 => PresetPlaybackMode::Off,
            0xffff => PresetPlaybackMode::All,
            _ => PresetPlaybackMode::Scene(value),
        }
    }
}

impl From<u16> for PresetPlaybackMode {
    fn from(value: u16) -> (r: Self) {
        Self::from_u16(value)
    }
}

impl FromSpecImpl<u16> for PresetPlaybackMode {
    open spec fn obeys_from_spec() -> bool {
        true
    }

    open spec fn from_spec(value: u16) -> Self {
        Self::spec_from_u16(value)
    }
}

impl From<PresetPlaybackMode> for u16 {
    fn from(value: PresetPlaybackMode) -> (r: u16) {
        value.to_u16()
    }
}

impl FromSpecImpl<PresetPlaybackMode> for u16 {
    open spec fn obeys_from_spec() -> bool {
        true
    }

    open spec fn from_spec(value: PresetPlaybackMode) -> u16 {
        value.spec_to_u16()
    }
}

impl<'a> FixedWire<'a> for PresetPlaybackMode {
    open spec fn spec_size() -> nat {
        2
    }

    open spec fn spec_wire(&self) -> Seq<u8> {
        self.spec_to_u16().spec_wire()
    }

    open spec fn spec_read(bytes: Seq<u8>) -> Option<Self> {
        match u16::spec_read(bytes) {
            Some(value) => Some(Self::spec_from_u16(value)),
            None => None,
        }
    }

    open spec fn spec_wire_valid(&self) -> bool {
        PresetPlaybackMode::spec_wire_valid(*self)
    }

    fn wire_size() -> (n: usize) {
        2
    }

    fn write_wire(&self, out: &mut Vec<u8>) {
        self.to_u16().write_wire(out);
    }

    fn read_wire(buf: &'a [u8], pos: usize) -> (r: Option<Self>) {
        let value = match u16::read_wire(buf, pos) {
            Some(value) => value,
            None => return None,
        };
        Some(Self::from_u16(value))
    }

    proof fn lemma_wire(&self) {
        self.spec_to_u16().lemma_wire();
        if self.spec_wire_valid() {
            self.lemma_encode_decode();
        }
    }
}

#[derive(Copy, Clone, Debug, PartialEq, Eq, Structural)]
pub enum SlotType {
    Primary,
    SecondaryFine,
    SecondaryTiming,
    SecondarySpeed,
    SecondaryControl,
    SecondaryIndex,
    SecondaryRotation,
    SecondaryIndexRotate,
    SecondaryUndefined,
    Unknown(u8),
}

impl SlotType {
    /// The wire value of the variant.
    pub open spec fn spec_to_u8(self) -> u8 {
        match self {
            SlotType::Primary => 0x00,
            SlotType::SecondaryFine => 0x01,
            SlotType::SecondaryTiming => 0x02,
            SlotType::SecondarySpeed => 0x03,
            SlotType::SecondaryControl => 0x04,
            SlotType::SecondaryIndex => 0x05,
            SlotType::SecondaryRotation => 0x06,
            SlotType::SecondaryIndexRotate => 0x07,
            SlotType::SecondaryUndefined => 0xff,
            SlotType::Unknown(value) => value,
        }
    }

    /// The variant that a wire value stands for.
    pub open spec fn spec_from_u8(value: u8) -> Self {
        match value {
            0x00 => SlotType::Primary,
            0x01 => SlotType::SecondaryFine,
            0x02 => SlotType::SecondaryTiming,
            0x03 => SlotType::SecondarySpeed,
            0x04 => SlotType::SecondaryControl,
            0x05 => SlotType::SecondaryIndex,
            0x06 => SlotType::SecondaryRotation,
            0x07 => SlotType::SecondaryIndexRotate,
            0xff => SlotType::SecondaryUndefined,
            _ => SlotType::Unknown(value),
        }
    }

    /// Whether the value is one that decoding its wire value gives back.
    pub open spec fn spec_wire_valid(self) -> bool {
        match self {
            SlotType::Unknown(value) => value != 0x00 && value != 0x01 && value != 0x02 && value != 0x03 && value != 0x04 && value != 0x05 && value != 0x06 && value != 0x07 && value != 0xff,
            _ => true,
        }
    }

    /// Decoding the wire value of a valid variant gives it back.
    pub proof fn lemma_encode_decode(self)
        requires
            self.spec_wire_valid(),
        ensures
            Self::spec_from_u8(self.spec_to_u8()) == self,
    {
    }

    /// Encoding the variant that a wire value stands for gives the value back.
    pub proof fn lemma_decode_encode(value: u8)
        ensures
            Self::spec_from_u8(value).spec_to_u8() == value,
            Self::spec_from_u8(value).spec_wire_valid(),
    {
    }
}

impl SlotType {
    /// The wire value of the variant.
    pub fn to_u8(&self) -> (r: u8)
        ensures
            r == self.spec_to_u8(),
    {
        match self {
            SlotType::Primary => 0x00,
            SlotType::SecondaryFine => 0x01,
            SlotType::SecondaryTiming => 0x02,
            SlotType::SecondarySpeed => 0x03,
            SlotType::SecondaryControl => 0x04,
            SlotType::SecondaryIndex => 0x05,
            SlotType::SecondaryRotation => 0x06,
            SlotType::SecondaryIndexRotate => 0x07,
            SlotType::SecondaryUndefined => 0xff,
            SlotType::Unknown(value) => *value,
        }
    }

    /// The variant that a wire value stands for.
    pub fn from_u8(value: u8) -> (r: Self)
        ensures
            r == Self::spec_from_u8(value),
    {
        match value {
            0x00 => SlotType::Primary,
            0x01 => SlotType::SecondaryFine,
            0x02 => SlotType::SecondaryTiming,
            0x03 => SlotType::SecondarySpeed,
            0x04 => SlotType::SecondaryControl,
            0x05 => SlotType::SecondaryIndex,
            0x06 => SlotType::SecondaryRotation,
            0x07 => SlotType::SecondaryIndexRotate,
            0xff => SlotType::SecondaryUndefined,
            _ => SlotType::Unknown(value),
        }
    }
}

impl From<u8> for SlotType {
    fn from(value: u8) -> (r: Self) {
        Self::from_u8(value)
    }
}

impl FromSpecImpl<u8> for SlotType {
    open spec fn obeys_from_spec() -> bool {
        true
    }

    open spec fn from_spec(value: u8) -> Self {
        Self::spec_from_u8(value)
    }
}

impl From<SlotType> for u8 {
    fn from(value: SlotType) -> (r: u8) {
        value.to_u8()
    }
}

impl FromSpecImpl<SlotType> for u8 {
    open spec fn obeys_from_spec() -> bool {
        true
    }

    open spec fn from_spec(value: SlotType) -> u8 {
        value.spec_to_u8()
    }
}

impl<'a> FixedWire<'a> for SlotType {
    open spec fn spec_size() -> nat {
        1
    }

    open spec fn spec_wire(&self) -> Seq<u8> {
        self.spec_to_u8().spec_wire()
    }

    open spec fn spec_read(bytes: Seq<u8>) -> Option<Self> {
        match u8::spec_read(bytes) {
            Some(value) => Some(Self::spec_from_u8(value)),
            None => None,
        }
    }

    open spec fn spec_wire_valid(&self) -> bool {
        SlotType::spec_wire_valid(*self)
    }

    fn wire_size() -> (n: usize) {
        1
    }

    fn write_wire(&self, out: &mut Vec<u8>) {
        self.to_u8().write_wire(out);
    }

    fn read_wire(buf: &'a [u8], pos: usize) -> (r: Option<Self>) {
        let value = match u8::read_wire(buf, pos) {
            Some(value) => value,
            None => return None,
        };
        Some(Self::from_u8(value))
    }

    proof fn lemma_wire(&self) {
        self.spec_to_u8().lemma_wire();
        if self.spec_wire_valid() {
            self.lemma_encode_decode();
        }
    }
}

#[derive(Copy, Clone, Debug, PartialEq, Eq, Structural)]
pub enum SlotIdDefinition {
    Intensity,
    IntensityMaster,
    Pan,
    Tilt,
    ColorWheel,
    ColorSubCyan,
    ColorSubYellow,
    ColorSubMagenta,
    ColorAddRed,
    ColorAddGreen,
    ColorAddBlue,
    ColorCorrection,
    ColorScroll,
    ColorSemaphore,
    StaticGoboWheel,
    RotoGoboWheel,
    PrismWheel,
    EffectsWheel,
    BeamSizeIris,
    Edge,
    Frost,
    Strobe,
    Zoom,
    FramingShutter,
    ShutterRotate,
    Douser,
    BarnDoor,
    LampControl,
    FixtureControl,
    FixtureSpeed,
    Macro,
    Undefined,
    ManufacturerSpecific(u16),
    Unknown(u16),
}

impl SlotIdDefinition {
    /// The wire value of the variant.
    pub open spec fn spec_to_u16(self) -> u16 {
        match self {
            SlotIdDefinition::Intensity => 0x0001,
            SlotIdDefinition::IntensityMaster => 0x0002,
            SlotIdDefinition::Pan => 0x0101,
            SlotIdDefinition::Tilt => 0x0102,
            SlotIdDefinition::ColorWheel => 0x0201,
            SlotIdDefinition::ColorSubCyan => 0x0202,
            SlotIdDefinition::ColorSubYellow => 0x0203,
            SlotIdDefinition::ColorSubMagenta => 0x0204,
            SlotIdDefinition::ColorAddRed => 0x0205,
            SlotIdDefinition::ColorAddGreen => 0x0206,
            SlotIdDefinition::ColorAddBlue => 0x0207,
            SlotIdDefinition::ColorCorrection => 0x0208,
            SlotIdDefinition::ColorScroll => 0x0209,
            SlotIdDefinition::ColorSemaphore => 0x0210,
            SlotIdDefinition::StaticGoboWheel => 0x0301,
            SlotIdDefinition::RotoGoboWheel => 0x0302,
            SlotIdDefinition::PrismWheel => 0x0303,
            SlotIdDefinition::EffectsWheel => 0x0304,
            SlotIdDefinition::BeamSizeIris => 0x0401,
            SlotIdDefinition::Edge => 0x0402,
            SlotIdDefinition::Frost => 0x0403,
            SlotIdDefinition::Strobe => 0x0404,
            SlotIdDefinition::Zoom => 0x0405,
            SlotIdDefinition::FramingShutter => 0x0406,
            SlotIdDefinition::ShutterRotate => 0x0407,
            SlotIdDefinition::Douser => 0x0408,
            SlotIdDefinition::BarnDoor => 0x0409,
            SlotIdDefinition::LampControl => 0x0501,
            SlotIdDefinition::FixtureControl => 0x0502,
            SlotIdDefinition::FixtureSpeed => 0x0503,
            SlotIdDefinition::Macro => 0x0504,
            SlotIdDefinition::Undefined => 0xffff,
            SlotIdDefinition::ManufacturerSpecific(value) => value,
            SlotIdDefinition::Unknown(value) => value,
        }
    }

    /// The variant that a wire value stands for.
    pub open spec fn spec_from_u16(value: u16) -> Self {
        match value {
            0x0001 => SlotIdDefinition::Intensity,
            0x0002 => SlotIdDefinition::IntensityMaster,
            0x0101 => SlotIdDefinition::Pan,
            0x0102 => SlotIdDefinition::Tilt,
            0x0201 => SlotIdDefinition::ColorWheel,
            0x0202 => SlotIdDefinition::ColorSubCyan,
            0x0203 => SlotIdDefinition::ColorSubYellow,
            0x0204 => SlotIdDefinition::ColorSubMagenta,
            0x0205 => SlotIdDefinition::ColorAddRed,
            0x0206 => SlotIdDefinition::ColorAddGreen,
            0x0207 => SlotIdDefinition::ColorAddBlue,
            0x0208 => SlotIdDefinition::ColorCorrection,
            0x0209 => SlotIdDefinition::ColorScroll,
            0x0210 => SlotIdDefinition::ColorSemaphore,
            0x0301 => SlotIdDefinition::StaticGoboWheel,
            0x0302 => SlotIdDefinition::RotoGoboWheel,
            0x0303 => SlotIdDefinition::PrismWheel,
            0x0304 => SlotIdDefinition::EffectsWheel,
            0x0401 => SlotIdDefinition::BeamSizeIris,
            0x0402 => SlotIdDefinition::Edge,
            0x0403 => SlotIdDefinition::Frost,
            0x0404 => SlotIdDefinition::Strobe,
            0x0405 => SlotIdDefinition::Zoom,
            0x0406 => SlotIdDefinition::FramingShutter,
            0x0407 => SlotIdDefinition::ShutterRotate,
            0x0408 => SlotIdDefinition::Douser,
            0x0409 => SlotIdDefinition::BarnDoor,
            0x0501 => SlotIdDefinition::LampControl,
            0x0502 => SlotIdDefinition::FixtureControl,
            0x0503 => SlotIdDefinition::FixtureSpeed,
            0x0504 => SlotIdDefinition::Macro,
            0xffff => SlotIdDefinition::Undefined,
            _ => if 0x8000 <= value && value <= 0xffdf { SlotIdDefinition::ManufacturerSpecific(value) } else { SlotIdDefinition::Unknown(value) },
        }
    }

    /// Whether the value is one that decoding its wire value gives back.
    pub open spec fn spec_wire_valid(self) -> bool {
        match self {
            SlotIdDefinition::ManufacturerSpecific(value) => 0x8000 <= value && value <= 0xffdf,
            SlotIdDefinition::Unknown(value) => value != 0x0001 && value != 0x0002 && value != 0x0101 && value != 0x0102 && value != 0x0201 && value != 0x0202 && value != 0x0203 && value != 0x0204 && value != 0x0205 && value != 0x0206 && value != 0x0207 && value != 0x0208 && value != 0x0209 && value != 0x0210 && value != 0x0301 && value != 0x0302 && value != 0x0303 && value != 0x0304 && value != 0x0401 && value != 0x0402 && value != 0x0403 && value != 0x0404 && value != 0x0405 && value != 0x0406 && value != 0x0407 && value != 0x0408 && value != 0x0409 && value != 0x0501 && value != 0x0502 && value != 0x0503 && value != 0x0504 && value != 0xffff && !(0x8000 <= value && value <= 0xffdf),
            _ => true,
        }
    }

    /// Decoding the wire value of a valid variant gives it back.
    pub proof fn lemma_encode_decode(self)
        requires
            self.spec_wire_valid(),
        ensures
            Self::spec_from_u16(self.spec_to_u16()) == self,
    {
    }

    /// Encoding the variant that a wire value stands for gives the value back.
    pub proof fn lemma_decode_encode(value: u16)
        ensures
            Self::spec_from_u16(value).spec_to_u16() == value,
            Self::spec_from_u16(value).spec_wire_valid(),
    {
    }
}

impl SlotIdDefinition {
    /// The wire value of the variant.
    #[verifier::rlimit(50)]
    pub fn to_u16(&self) -> (r: u16)
        ensures
            r == self.spec_to_u16(),
    {
        match self {
            SlotIdDefinition::Intensity => 0x0001,
            SlotIdDefinition::IntensityMaster => 0x0002,
            SlotIdDefinition::Pan => 0x0101,
            SlotIdDefinition::Tilt => 0x0102,
            SlotIdDefinition::ColorWheel => 0x0201,
            SlotIdDefinition::ColorSubCyan => 0x0202,
            SlotIdDefinition::ColorSubYellow => 0x0203,
            SlotIdDefinition::ColorSubMagenta => 0x0204,
            SlotIdDefinition::ColorAddRed => 0x0205,
            SlotIdDefinition::ColorAddGreen => 0x0206,
            SlotIdDefinition::ColorAddBlue => 0x0207,
            SlotIdDefinition::ColorCorrection => 0x0208,
            SlotIdDefinition::ColorScroll => 0x0209,
            SlotIdDefinition::ColorSemaphore => 0x0210,
            SlotIdDefinition::StaticGoboWheel => 0x0301,
            SlotIdDefinition::RotoGoboWheel => 0x0302,
            SlotIdDefinition::PrismWheel => 0x0303,
            SlotIdDefinition::EffectsWheel => 0x0304,
            SlotIdDefinition::BeamSizeIris => 0x0401,
            SlotIdDefinition::Edge => 0x0402,
            SlotIdDefinition::Frost => 0x0403,
            SlotIdDefinition::Strobe => 0x0404,
            SlotIdDefinition::Zoom => 0x0405,
            SlotIdDefinition::FramingShutter => 0x0406,
            SlotIdDefinition::ShutterRotate => 0x0407,
            SlotIdDefinition::Douser => 0x0408,
            SlotIdDefinition::BarnDoor => 0x0409,
            SlotIdDefinition::LampControl => 0x0501,
            SlotIdDefinition::FixtureControl => 0x0502,
            SlotIdDefinition::FixtureSpeed => 0x0503,
            SlotIdDefinition::Macro => 0x0504,
            SlotIdDefinition::Undefined => 0xffff,
            SlotIdDefinition::ManufacturerSpecific(value) => *value,
            SlotIdDefinition::Unknown(value) => *value,
        }
    }

    /// The variant that a wire value stands for.
    #[verifier::rlimit(50)]
    pub fn from_u16(value: u16) -> (r: Self)
        ensures
            r == Self::spec_from_u16(value),
    {
        match value {
            0x0001 => SlotIdDefinition::Intensity,
            0x0002 => SlotIdDefinition::IntensityMaster,
            0x0101 => SlotIdDefinition::Pan,
            0x0102 => SlotIdDefinition::Tilt,
            0x0201 => SlotIdDefinition::ColorWheel,
            0x0202 => SlotIdDefinition::ColorSubCyan,
            0x0203 => SlotIdDefinition::ColorSubYellow,
            0x0204 => SlotIdDefinition::ColorSubMagenta,
            0x0205 => SlotIdDefinition::ColorAddRed,
            0x0206 => SlotIdDefinition::ColorAddGreen,
            0x0207 => SlotIdDefinition::ColorAddBlue,
            0x0208 => SlotIdDefinition::ColorCorrection,
            0x0209 => SlotIdDefinition::ColorScroll,
            0x0210 => SlotIdDefinition::ColorSemaphore,
            0x0301 => SlotIdDefinition::StaticGoboWheel,
            0x0302 => SlotIdDefinition::RotoGoboWheel,
            0x0303 => SlotIdDefinition::PrismWheel,
            0x0304 => SlotIdDefinition::EffectsWheel,
            0x0401 => SlotIdDefinition::BeamSizeIris,
            0x0402 => SlotIdDefinition::Edge,
            0x0403 => SlotIdDefinition::Frost,
            0x0404 => SlotIdDefinition::Strobe,
            0x0405 => SlotIdDefinition::Zoom,
            0x0406 => SlotIdDefinition::FramingShutter,
            0x0407 => SlotIdDefinition::ShutterRotate,
            0x0408 => SlotIdDefinition::Douser,
            0x0409 => SlotIdDefinition::BarnDoor,
            0x0501 => SlotIdDefinition::LampControl,
            0x0502 => SlotIdDefinition::FixtureControl,
            0x0503 => SlotIdDefinition::FixtureSpeed,
            0x0504 => SlotIdDefinition::Macro,
            0xffff => SlotIdDefinition::Undefined,
            _ => if 0x8000 <= value && value <= 0xffdf { SlotIdDefinition::ManufacturerSpecific(value) } else { SlotIdDefinition::Unknown(value) },
        }
    }
}

impl From<u16> for SlotIdDefinition {
    fn from(value: u16) -> (r: Self) {
        Self::from_u16(value)
    }
}

impl FromSpecImpl<u16> for SlotIdDefinition {
    open spec fn obeys_from_spec() -> bool {
        true
    }

    open spec fn from_spec(value: u16) -> Self {
        Self::spec_from_u16(value)
    }
}

impl From<SlotIdDefinition> for u16 {
    fn from(value: SlotIdDefinition) -> (r: u16) {
        value.to_u16()
    }
}

impl FromSpecImpl<SlotIdDefinition> for u16 {
    open spec fn obeys_from_spec() -> bool {
        true
    }

    open spec fn from_spec(value: SlotIdDefinition) -> u16 {
        value.spec_to_u16()
    }
}

impl<'a> FixedWire<'a> for SlotIdDefinition {
    open spec fn spec_size() -> nat {
        2
    }

    open spec fn spec_wire(&self) -> Seq<u8> {
        self.spec_to_u16().spec_wire()
    }

    open spec fn spec_read(bytes: Seq<u8>) -> Option<Self> {
        match u16::spec_read(bytes) {
            Some(value) => Some(Self::spec_from_u16(value)),
            None => None,
        }
    }

    open spec fn spec_wire_valid(&self) -> bool {
        SlotIdDefinition::spec_wire_valid(*self)
    }

    fn wire_size() -> (n: usize) {
        2
    }

    fn write_wire(&self, out: &mut Vec<u8>) {
        self.to_u16().write_wire(out);
    }

    fn read_wire(buf: &'a [u8], pos: usize) -> (r: Option<Self>) {
        let value = match u16::read_wire(buf, pos) {
            Some(value) => value,
            None => return None,
        };
        Some(Self::from_u16(value))
    }

    proof fn lemma_wire(&self) {
        self.spec_to_u16().lemma_wire();
        if self.spec_wire_valid() {
            self.lemma_encode_decode();
        }
    }
}

#[derive(Copy, Clone, Debug, PartialEq, Eq, Structural)]
pub enum SensorType {
    Temperature,
    Voltage,
    Current,
    Frequency,
    Resistance,
    Power,
    Mass,
    Length,
    Area,
    Volume,
    Density,
    Velocity,
    Acceleration,
    Force,
    Energy,
    Pressure,
    Time,
    Angle,
    PositionX,
    PositionY,
    PositionZ,
    AngularVelocity,
    LuminousIntensity,
    LuminousFlux,
    Illuminance,
    ChrominanceRed,
    ChrominanceGreen,
    ChrominanceBlue,
    Contacts,
    Memory,
    Items,
    Humidity,
    Counter16Bit,
    Other,
    ManufacturerSpecific(u8),
}

impl SensorType {
    /// The wire value of the variant.
    pub open spec fn spec_to_u8(self) -> u8 {
        match self {
            SensorType::Temperature => 0x00,
            SensorType::Voltage => 0x01,
            SensorType::Current => 0x02,
            SensorType::Frequency => 0x03,
            SensorType::Resistance => 0x04,
            SensorType::Power => 0x05,
            SensorType::Mass => 0x06,
            SensorType::Length => 0x07,
            SensorType::Area => 0x08,
            SensorType::Volume => 0x09,
            SensorType::Density => 0x0a,
            SensorType::Velocity => 0x0b,
            SensorType::Acceleration => 0x0c,
            SensorType::Force => 0x0d,
            SensorType::Energy => 0x0e,
            SensorType::Pressure => 0x0f,
            SensorType::Time => 0x10,
            SensorType::Angle => 0x11,
            SensorType::PositionX => 0x12,
            SensorType::PositionY => 0x13,
            SensorType::PositionZ => 0x14,
            SensorType::AngularVelocity => 0x15,
            SensorType::LuminousIntensity => 0x16,
            SensorType::LuminousFlux => 0x17,
            SensorType::Illuminance => 0x18,
            SensorType::ChrominanceRed => 0x19,
            SensorType::ChrominanceGreen => 0x1a,
            SensorType::ChrominanceBlue => 0x1b,
            SensorType::Contacts => 0x1c,
            SensorType::Memory => 0x1d,
            SensorType::Items => 0x1e,
            SensorType::Humidity => 0x1f,
            SensorType::Counter16Bit => 0x20,
            SensorType::Other => 0x7f,
            SensorType::ManufacturerSpecific(value) => value,
        }
    }

    /// The variant that a wire value stands for.
    pub open spec fn spec_try_from_u8(value: u8) -> Result<Self, RdmError> {
        match value {
            0x00 => Ok(SensorType::Temperature),
            0x01 => Ok(SensorType::Voltage),
            0x02 => Ok(SensorType::Current),
            0x03 => Ok(SensorType::Frequency),
            0x04 => Ok(SensorType::Resistance),
            0x05 => Ok(SensorType::Power),
            0x06 => Ok(SensorType::Mass),
            0x07 => Ok(SensorType::Length),
            0x08 => Ok(SensorType::Area),
            0x09 => Ok(SensorType::Volume),
            0x0a => Ok(SensorType::Density),
            0x0b => Ok(SensorType::Velocity),
            0x0c => Ok(SensorType::Acceleration),
            0x0d => Ok(SensorType::Force),
            0x0e => Ok(SensorType::Energy),
            0x0f => Ok(SensorType::Pressure),
            0x10 => Ok(SensorType::Time),
            0x11 => Ok(SensorType::Angle),
            0x12 => Ok(SensorType::PositionX),
            0x13 => Ok(SensorType::PositionY),
            0x14 => Ok(SensorType::PositionZ),
            0x15 => Ok(SensorType::AngularVelocity),
            0x16 => Ok(SensorType::LuminousIntensity),
            0x17 => Ok(SensorType::LuminousFlux),
            0x18 => Ok(SensorType::Illuminance),
            0x19 => Ok(SensorType::ChrominanceRed),
            0x1a => Ok(SensorType::ChrominanceGreen),
            0x1b => Ok(SensorType::ChrominanceBlue),
            0x1c => Ok(SensorType::Contacts),
            0x1d => Ok(SensorType::Memory),
            0x1e => Ok(SensorType::Items),
            0x1f => Ok(SensorType::Humidity),
            0x20 => Ok(SensorType::Counter16Bit),
            0x7f => Ok(SensorType::Other),
            _ => if 0x80 <= value && value <= 0xff { Ok(SensorType::ManufacturerSpecific(value)) } else { Err(RdmError::InvalidSensorType(value)) },
        }
    }

    /// Whether the value is one that decoding its wire value gives back.
    pub open spec fn spec_wire_valid(self) -> bool {
        match self {
            SensorType::ManufacturerSpecific(value) => 0x80 <= value && value <= 0xff,
            _ => true,
        }
    }

    /// Decoding the wire value of a valid variant gives it back.
    pub proof fn lemma_encode_decode(self)
        requires
            self.spec_wire_valid(),
        ensures
            Self::spec_try_from_u8(self.spec_to_u8()) == Ok::<Self, RdmError>(self),
    {
    }

    /// Encoding the variant that a wire value stands for gives the value back.
    pub proof fn lemma_decode_encode(value: u8)
        ensures
            Self::spec_try_from_u8(value) matches Ok(v) ==> v.spec_to_u8() == value && v.spec_wire_valid(),
    {
    }
}

impl SensorType {
    /// The wire value of the variant.
    #[verifier::rlimit(50)]
    pub fn to_u8(&self) -> (r: u8)
        ensures
            r == self.spec_to_u8(),
    {
        match self {
            SensorType::Temperature => 0x00,
            SensorType::Voltage => 0x01,
            SensorType::Current => 0x02,
            SensorType::Frequency => 0x03,
            SensorType::Resistance => 0x04,
            SensorType::Power => 0x05,
            SensorType::Mass => 0x06,
            SensorType::Length => 0x07,
            SensorType::Area => 0x08,
            SensorType::Volume => 0x09,
            SensorType::Density => 0x0a,
            SensorType::Velocity => 0x0b,
            SensorType::Acceleration => 0x0c,
            SensorType::Force => 0x0d,
            SensorType::Energy => 0x0e,
            SensorType::Pressure => 0x0f,
            SensorType::Time => 0x10,
            SensorType::Angle => 0x11,
            SensorType::PositionX => 0x12,
            SensorType::PositionY => 0x13,
            SensorType::PositionZ => 0x14,
            SensorType::AngularVelocity => 0x15,
            SensorType::LuminousIntensity => 0x16,
            SensorType::LuminousFlux => 0x17,
            SensorType::Illuminance => 0x18,
            SensorType::ChrominanceRed => 0x19,
            SensorType::ChrominanceGreen => 0x1a,
            SensorType::ChrominanceBlue => 0x1b,
            SensorType::Contacts => 0x1c,
            SensorType::Memory => 0x1d,
            SensorType::Items => 0x1e,
            SensorType::Humidity => 0x1f,
            SensorType::Counter16Bit => 0x20,
            SensorType::Other => 0x7f,
            SensorType::ManufacturerSpecific(value) => *value,
        }
    }

    /// The variant that a wire value stands for, or the error for a value that stands for none.
    #[verifier::rlimit(50)]
    pub fn try_from_u8(value: u8) -> (r: Result<Self, RdmError>)
        ensures
            r == Self::spec_try_from_u8(value),
    {
        match value {
            0x00 => Ok(SensorType::Temperature),
            0x01 => Ok(SensorType::Voltage),
            0x02 => Ok(SensorType::Current),
            0x03 => Ok(SensorType::Frequency),
            0x04 => Ok(SensorType::Resistance),
            0x05 => Ok(SensorType::Power),
            0x06 => Ok(SensorType::Mass),
            0x07 => Ok(SensorType::Length),
            0x08 => Ok(SensorType::Area),
            0x09 => Ok(SensorType::Volume),
            0x0a => Ok(SensorType::Density),
            0x0b => Ok(SensorType::Velocity),
            0x0c => Ok(SensorType::Acceleration),
            0x0d => Ok(SensorType::Force),
            0x0e => Ok(SensorType::Energy),
            0x0f => Ok(SensorType::Pressure),
            0x10 => Ok(SensorType::Time),
            0x11 => Ok(SensorType::Angle),
            0x12 => Ok(SensorType::PositionX),
            0x13 => Ok(SensorType::PositionY),
            0x14 => Ok(SensorType::PositionZ),
            0x15 => Ok(SensorType::AngularVelocity),
            0x16 => Ok(SensorType::LuminousIntensity),
            0x17 => Ok(SensorType::LuminousFlux),
            0x18 => Ok(SensorType::Illuminance),
            0x19 => Ok(SensorType::ChrominanceRed),
            0x1a => Ok(SensorType::ChrominanceGreen),
            0x1b => Ok(SensorType::ChrominanceBlue),
            0x1c => Ok(SensorType::Contacts),
            0x1d => Ok(SensorType::Memory),
            0x1e => Ok(SensorType::Items),
            0x1f => Ok(SensorType::Humidity),
            0x20 => Ok(SensorType::Counter16Bit),
            0x7f => Ok(SensorType::Other),
            _ => if 0x80 <= value && value <= 0xff { Ok(SensorType::ManufacturerSpecific(value)) } else { Err(RdmError::InvalidSensorType(value)) },
        }
    }
}

impl TryFrom<u8> for SensorType {
    type Error = RdmError;

    fn try_from(value: u8) -> (r: Result<Self, RdmError>) {
        Self::try_from_u8(value)
    }
}

impl TryFromSpecImpl<u8> for SensorType {
    open spec fn obeys_try_from_spec() -> bool {
        true
    }

    open spec fn try_from_spec(value: u8) -> Result<Self, RdmError> {
        Self::spec_try_from_u8(value)
    }
}

impl From<SensorType> for u8 {
    fn from(value: SensorType) -> (r: u8) {
        value.to_u8()
    }
}

impl FromSpecImpl<SensorType> for u8 {
    open spec fn obeys_from_spec() -> bool {
        true
    }

    open spec fn from_spec(value: SensorType) -> u8 {
        value.spec_to_u8()
    }
}

impl<'a> FixedWire<'a> for SensorType {
    open spec fn spec_size() -> nat {
        1
    }

    open spec fn spec_wire(&self) -> Seq<u8> {
        self.spec_to_u8().spec_wire()
    }

    open spec fn spec_read(bytes: Seq<u8>) -> Option<Self> {
        match u8::spec_read(bytes) {
            Some(value) => match Self::spec_try_from_u8(value) {
                Ok(v) => Some(v),
                Err(_) => None,
            },
            None => None,
        }
    }

    open spec fn spec_wire_valid(&self) -> bool {
        SensorType::spec_wire_valid(*self)
    }

    fn wire_size() -> (n: usize) {
        1
    }

    fn write_wire(&self, out: &mut Vec<u8>) {
        self.to_u8().write_wire(out);
    }

    fn read_wire(buf: &'a [u8], pos: usize) -> (r: Option<Self>) {
        let value = match u8::read_wire(buf, pos) {
            Some(value) => value,
            None => return None,
        };
        match Self::try_from_u8(value) {
            Ok(v) => Some(v),
            Err(_) => None,
        }
    }

    proof fn lemma_wire(&self) {
        self.spec_to_u8().lemma_wire();
        if self.spec_wire_valid() {
            self.lemma_encode_decode();
        }
    }
}

#[derive(Copy, Clone, Debug, PartialEq, Eq, Structural)]
pub enum SensorUnit {
    NoUnit,
    Centigrade,
    VoltsDc,
    VoltsAcPeak,
    VoltsAcRms,
    AmpsDc,
    AmpsAcPeak,
    AmpsAcRms,
    Hertz,
    Ohm,
    Watt,
    Kilogram,
    Meter,
    SquareMeter,
    CubicMeter,
    KilogramPerCubicMeter,
    MeterPerSecond,
    MeterPerSecondSquared,
    Newton,
    Joule,
    Pascal,
    Second,
    Degree,
    Steradian,
    Candela,
    Lumen,
    Lux,
    Ire,
    Byte,
    ManufacturerSpecific(u8),
}

impl SensorUnit {
    /// The wire value of the variant.
    pub open spec fn spec_to_u8(self) -> u8 {
        match self {
            SensorUnit::NoUnit => 0x00,
            SensorUnit::Centigrade => 0x01,
            SensorUnit::VoltsDc => 0x02,
            SensorUnit::VoltsAcPeak => 0x03,
            SensorUnit::VoltsAcRms => 0x04,
            SensorUnit::AmpsDc => 0x05,
            SensorUnit::AmpsAcPeak => 0x06,
            SensorUnit::AmpsAcRms => 0x07,
            SensorUnit::Hertz => 0x08,
            SensorUnit::Ohm => 0x09,
            SensorUnit::Watt => 0x0a,
            SensorUnit::Kilogram => 0x0b,
            SensorUnit::Meter => 0x0c,
            SensorUnit::SquareMeter => 0x0d,
            SensorUnit::CubicMeter => 0x0e,
            SensorUnit::KilogramPerCubicMeter => 0x0f,
            SensorUnit::MeterPerSecond => 0x10,
            SensorUnit::MeterPerSecondSquared => 0x11,
            SensorUnit::Newton => 0x12,
            SensorUnit::Joule => 0x13,
            SensorUnit::Pascal => 0x14,
            SensorUnit::Second => 0x15,
            SensorUnit::Degree => 0x16,
            SensorUnit::Steradian => 0x17,
            SensorUnit::Candela => 0x18,
            SensorUnit::Lumen => 0x19,
            SensorUnit::Lux => 0x1a,
            SensorUnit::Ire => 0x1b,
            SensorUnit::Byte => 0x1c,
            SensorUnit::ManufacturerSpecific(value) => value,
        }
    }

    /// The variant that a wire value stands for.
    pub open spec fn spec_try_from_u8(value: u8) -> Result<Self, RdmError> {
        match value {
            0x00 => Ok(SensorUnit::NoUnit),
            0x01 => Ok(SensorUnit::Centigrade),
            0x02 => Ok(SensorUnit::VoltsDc),
            0x03 => Ok(SensorUnit::VoltsAcPeak),
            0x04 => Ok(SensorUnit::VoltsAcRms),
            0x05 => Ok(SensorUnit::AmpsDc),
            0x06 => Ok(SensorUnit::AmpsAcPeak),
            0x07 => Ok(SensorUnit::AmpsAcRms),
            0x08 => Ok(SensorUnit::Hertz),
            0x09 => Ok(SensorUnit::Ohm),
            0x0a => Ok(SensorUnit::Watt),
            0x0b => Ok(SensorUnit::Kilogram),
            0x0c => Ok(SensorUnit::Meter),
            0x0d => Ok(SensorUnit::SquareMeter),
            0x0e => Ok(SensorUnit::CubicMeter),
            0x0f => Ok(SensorUnit::KilogramPerCubicMeter),
            0x10 => Ok(SensorUnit::MeterPerSecond),
            0x11 => Ok(SensorUnit::MeterPerSecondSquared),
            0x12 => Ok(SensorUnit::Newton),
            0x13 => Ok(SensorUnit::Joule),
            0x14 => Ok(SensorUnit::Pascal),
            0x15 => Ok(SensorUnit::Second),
            0x16 => Ok(SensorUnit::Degree),
            0x17 => Ok(SensorUnit::Steradian),
            0x18 => Ok(SensorUnit::Candela),
            0x19 => Ok(SensorUnit::Lumen),
            0x1a => Ok(SensorUnit::Lux),
            0x1b => Ok(SensorUnit::Ire),
            0x1c => Ok(SensorUnit::Byte),
            _ => if 0x80 <= value && value <= 0xff { Ok(SensorUnit::ManufacturerSpecific(value)) } else { Err(RdmError::InvalidSensorUnit(value)) },
        }
    }

    /// Whether the value is one that decoding its wire value gives back.
    pub open spec fn spec_wire_valid(self) -> bool {
        match self {
            SensorUnit::ManufacturerSpecific(value) => 0x80 <= value && value <= 0xff,
            _ => true,
        }
    }

    /// Decoding the wire value of a valid variant gives it back.
    pub proof fn lemma_encode_decode(self)
        requires
            self.spec_wire_valid(),
        ensures
            Self::spec_try_from_u8(self.spec_to_u8()) == Ok::<Self, RdmError>(self),
    {
    }

    /// Encoding the variant that a wire value stands for gives the value back.
    pub proof fn lemma_decode_encode(value: u8)
        ensures
            Self::spec_try_from_u8(value) matches Ok(v) ==> v.spec_to_u8() == value && v.spec_wire_valid(),
    {
    }
}

impl SensorUnit {
    /// The wire value of the variant.
    #[verifier::rlimit(50)]
    pub fn to_u8(&self) -> (r: u8)
        ensures
            r == self.spec_to_u8(),
    {
        match self {
            SensorUnit::NoUnit => 0x00,
            SensorUnit::Centigrade => 0x01,
            SensorUnit::VoltsDc => 0x02,
            SensorUnit::VoltsAcPeak => 0x03,
            SensorUnit::VoltsAcRms => 0x04,
            SensorUnit::AmpsDc => 0x05,
            SensorUnit::AmpsAcPeak => 0x06,
            SensorUnit::AmpsAcRms => 0x07,
            SensorUnit::Hertz => 0x08,
            SensorUnit::Ohm => 0x09,
            SensorUnit::Watt => 0x0a,
            SensorUnit::Kilogram => 0x0b,
            SensorUnit::Meter => 0x0c,
            SensorUnit::SquareMeter => 0x0d,
            SensorUnit::CubicMeter => 0x0e,
            SensorUnit::KilogramPerCubicMeter => 0x0f,
            SensorUnit::MeterPerSecond => 0x10,
            SensorUnit::MeterPerSecondSquared => 0x11,
            SensorUnit::Newton => 0x12,
            SensorUnit::Joule => 0x13,
            SensorUnit::Pascal => 0x14,
            SensorUnit::Second => 0x15,
            SensorUnit::Degree => 0x16,
            SensorUnit::Steradian => 0x17,
            SensorUnit::Candela => 0x18,
            SensorUnit::Lumen => 0x19,
            SensorUnit::Lux => 0x1a,
            SensorUnit::Ire => 0x1b,
            SensorUnit::Byte => 0x1c,
            SensorUnit::ManufacturerSpecific(value) => *value,
        }
    }

    /// The variant that a wire value stands for, or the error for a value that stands for none.
    #[verifier::rlimit(50)]
    pub fn try_from_u8(value: u8) -> (r: Result<Self, RdmError>)
        ensures
            r == Self::spec_try_from_u8(value),
    {
        match value {
            0x00 => Ok(SensorUnit::NoUnit),
            0x01 => Ok(SensorUnit::Centigrade),
            0x02 => Ok(SensorUnit::VoltsDc),
            0x03 => Ok(SensorUnit::VoltsAcPeak),
            0x04 => Ok(SensorUnit::VoltsAcRms),
            0x05 => Ok(SensorUnit::AmpsDc),
            0x06 => Ok(SensorUnit::AmpsAcPeak),
            0x07 => Ok(SensorUnit::AmpsAcRms),
            0x08 => Ok(SensorUnit::Hertz),
            0x09 => Ok(SensorUnit::Ohm),
            0x0a => Ok(SensorUnit::Watt),
            0x0b => Ok(SensorUnit::Kilogram),
            0x0c => Ok(SensorUnit::Meter),
            0x0d => Ok(SensorUnit::SquareMeter),
            0x0e => Ok(SensorUnit::CubicMeter),
            0x0f => Ok(SensorUnit::KilogramPerCubicMeter),
            0x10 => Ok(SensorUnit::MeterPerSecond),
            0x11 => Ok(SensorUnit::MeterPerSecondSquared),
            0x12 => Ok(SensorUnit::Newton),
            0x13 => Ok(SensorUnit::Joule),
            0x14 => Ok(SensorUnit::Pascal),
            0x15 => Ok(SensorUnit::Second),
            0x16 => Ok(SensorUnit::Degree),
            0x17 => Ok(SensorUnit::Steradian),
            0x18 => Ok(SensorUnit::Candela),
            0x19 => Ok(SensorUnit::Lumen),
            0x1a => Ok(SensorUnit::Lux),
            0x1b => Ok(SensorUnit::Ire),
            0x1c => Ok(SensorUnit::Byte),
            _ => if 0x80 <= value && value <= 0xff { Ok(SensorUnit::ManufacturerSpecific(value)) } else { Err(RdmError::InvalidSensorUnit(value)) },
        }
    }
}

impl TryFrom<u8> for SensorUnit {
    type Error = RdmError;

    fn try_from(value: u8) -> (r: Result<Self, RdmError>) {
        Self::try_from_u8(value)
    }
}

impl TryFromSpecImpl<u8> for SensorUnit {
    open spec fn obeys_try_from_spec() -> bool {
        true
    }

    open spec fn try_from_spec(value: u8) -> Result<Self, RdmError> {
        Self::spec_try_from_u8(value)
    }
}

impl From<SensorUnit> for u8 {
    fn from(value: SensorUnit) -> (r: u8) {
        value.to_u8()
    }
}

impl FromSpecImpl<SensorUnit> for u8 {
    open spec fn obeys_from_spec() -> bool {
        true
    }

    open spec fn from_spec(value: SensorUnit) -> u8 {
        value.spec_to_u8()
    }
}

impl<'a> FixedWire<'a> for SensorUnit {
    open spec fn spec_size() -> nat {
        1
    }

    open spec fn spec_wire(&self) -> Seq<u8> {
        self.spec_to_u8().spec_wire()
    }

    open spec fn spec_read(bytes: Seq<u8>) -> Option<Self> {
        match u8::spec_read(bytes) {
            Some(value) => match Self::spec_try_from_u8(value) {
                Ok(v) => Some(v),
                Err(_) => None,
            },
            None => None,
        }
    }

    open spec fn spec_wire_valid(&self) -> bool {
        SensorUnit::spec_wire_valid(*self)
    }

    fn wire_size() -> (n: usize) {
        1
    }

    fn write_wire(&self, out: &mut Vec<u8>) {
        self.to_u8().write_wire(out);
    }

    fn read_wire(buf: &'a [u8], pos: usize) -> (r: Option<Self>) {
        let value = match u8::read_wire(buf, pos) {
            Some(value) => value,
            None => return None,
        };
        match Self::try_from_u8(value) {
            Ok(v) => Some(v),
            Err(_) => None,
        }
    }

    proof fn lemma_wire(&self) {
        self.spec_to_u8().lemma_wire();
        if self.spec_wire_valid() {
            self.lemma_encode_decode();
        }
    }
}

#[derive(Copy, Clone, Debug, PartialEq, Eq, Structural)]
pub enum SensorUnitPrefix {
    NoPrefix,
    Deci,
    Centi,
    Milli,
    Micro,
    Nano,
    Pico,
    Femto,
    Atto,
    Zepto,
    Yocto,
    Deca,
    Hecto,
    Kilo,
    Mega,
    Giga,
    Terra,
    Peta,
    Exa,
    Zetta,
    Yotta,
}

impl SensorUnitPrefix {
    /// The wire value of the variant.
    pub open spec fn spec_to_u8(self) -> u8 {
        match self {
            SensorUnitPrefix::NoPrefix => 0x00,
            SensorUnitPrefix::Deci => 0x01,
            SensorUnitPrefix::Centi => 0x02,
            SensorUnitPrefix::Milli => 0x03,
            SensorUnitPrefix::Micro => 0x04,
            SensorUnitPrefix::Nano => 0x05,
            SensorUnitPrefix::Pico => 0x06,
            SensorUnitPrefix::Femto => 0x07,
            SensorUnitPrefix::Atto => 0x08,
            SensorUnitPrefix::Zepto => 0x09,
            SensorUnitPrefix::Yocto => 0x0a,
            SensorUnitPrefix::Deca => 0x11,
            SensorUnitPrefix::Hecto => 0x12,
            SensorUnitPrefix::Kilo => 0x13,
            SensorUnitPrefix::Mega => 0x14,
            SensorUnitPrefix::Giga => 0x15,
            SensorUnitPrefix::Terra => 0x16,
            SensorUnitPrefix::Peta => 0x17,
            SensorUnitPrefix::Exa => 0x18,
            SensorUnitPrefix::Zetta => 0x19,
            SensorUnitPrefix::Yotta => 0x1a,
        }
    }

    /// The variant that a wire value stands for.
    pub open spec fn spec_try_from_u8(value: u8) -> Result<Self, RdmError> {
        match value {
            0x00 => Ok(SensorUnitPrefix::NoPrefix),
            0x01 => Ok(SensorUnitPrefix::Deci),
            0x02 => Ok(SensorUnitPrefix::Centi),
            0x03 => Ok(SensorUnitPrefix::Milli),
            0x04 => Ok(SensorUnitPrefix::Micro),
            0x05 => Ok(SensorUnitPrefix::Nano),
            0x06 => Ok(SensorUnitPrefix::Pico),
            0x07 => Ok(SensorUnitPrefix::Femto),
            0x08 => Ok(SensorUnitPrefix::Atto),
            0x09 => Ok(SensorUnitPrefix::Zepto),
            0x0a => Ok(SensorUnitPrefix::Yocto),
            0x11 => Ok(SensorUnitPrefix::Deca),
            0x12 => Ok(SensorUnitPrefix::Hecto),
            0x13 => Ok(SensorUnitPrefix::Kilo),
            0x14 => Ok(SensorUnitPrefix::Mega),
            0x15 => Ok(SensorUnitPrefix::Giga),
            0x16 => Ok(SensorUnitPrefix::Terra),
            0x17 => Ok(SensorUnitPrefix::Peta),
            0x18 => Ok(SensorUnitPrefix::Exa),
            0x19 => Ok(SensorUnitPrefix::Zetta),
            0x1a => Ok(SensorUnitPrefix::Yotta),
            _ => Err(RdmError::InvalidSensorUnitPrefix(value)),
        }
    }

    /// Whether the value is one that decoding its wire value gives back.
    pub open spec fn spec_wire_valid(self) -> bool {
        match self {
            _ => true,
        }
    }

    /// Decoding the wire value of a valid variant gives it back.
    pub proof fn lemma_encode_decode(self)
        requires
            self.spec_wire_valid(),
        ensures
            Self::spec_try_from_u8(self.spec_to_u8()) == Ok::<Self, RdmError>(self),
    {
    }

    /// Encoding the variant that a wire value stands for gives the value back.
    pub proof fn lemma_decode_encode(value: u8)
        ensures
            Self::spec_try_from_u8(value) matches Ok(v) ==> v.spec_to_u8() == value && v.spec_wire_valid(),
    {
    }
}

impl SensorUnitPrefix {
    /// The wire value of the variant.
    #[verifier::rlimit(50)]
    pub fn to_u8(&self) -> (r: u8)
        ensures
            r == self.spec_to_u8(),
    {
        match self {
            SensorUnitPrefix::NoPrefix => 0x00,
            SensorUnitPrefix::Deci => 0x01,
            SensorUnitPrefix::Centi => 0x02,
            SensorUnitPrefix::Milli => 0x03,
            SensorUnitPrefix::Micro => 0x04,
            SensorUnitPrefix::Nano => 0x05,
            SensorUnitPrefix::Pico => 0x06,
            SensorUnitPrefix::Femto => 0x07,
            SensorUnitPrefix::Atto => 0x08,
            SensorUnitPrefix::Zepto => 0x09,
            SensorUnitPrefix::Yocto => 0x0a,
            SensorUnitPrefix::Deca => 0x11,
            SensorUnitPrefix::Hecto => 0x12,
            SensorUnitPrefix::Kilo => 0x13,
            SensorUnitPrefix::Mega => 0x14,
            SensorUnitPrefix::Giga => 0x15,
            SensorUnitPrefix::Terra => 0x16,
            SensorUnitPrefix::Peta => 0x17,
            SensorUnitPrefix::Exa => 0x18,
            SensorUnitPrefix::Zetta => 0x19,
            SensorUnitPrefix::Yotta => 0x1a,
        }
    }

    /// The variant that a wire value stands for, or the error for a value that stands for none.
    #[verifier::rlimit(50)]
    pub fn try_from_u8(value: u8) -> (r: Result<Self, RdmError>)
        ensures
            r == Self::spec_try_from_u8(value),
    {
        match value {
            0x00 => Ok(SensorUnitPrefix::NoPrefix),
            0x01 => Ok(SensorUnitPrefix::Deci),
            0x02 => Ok(SensorUnitPrefix::Centi),
            0x03 => Ok(SensorUnitPrefix::Milli),
            0x04 => Ok(SensorUnitPrefix::Micro),
            0x05 => Ok(SensorUnitPrefix::Nano),
            0x06 => Ok(SensorUnitPrefix::Pico),
            0x07 => Ok(SensorUnitPrefix::Femto),
            0x08 => Ok(SensorUnitPrefix::Atto),
            0x09 => Ok(SensorUnitPrefix::Zepto),
            0x0a => Ok(SensorUnitPrefix::Yocto),
            0x11 => Ok(SensorUnitPrefix::Deca),
            0x12 => Ok(SensorUnitPrefix::Hecto),
            0x13 => Ok(SensorUnitPrefix::Kilo),
            0x14 => Ok(SensorUnitPrefix::Mega),
            0x15 => Ok(SensorUnitPrefix::Giga),
            0x16 => Ok(SensorUnitPrefix::Terra),
            0x17 => Ok(SensorUnitPrefix::Peta),
            0x18 => Ok(SensorUnitPrefix::Exa),
            0x19 => Ok(SensorUnitPrefix::Zetta),
            0x1a => Ok(SensorUnitPrefix::Yotta),
            _ => Err(RdmError::InvalidSensorUnitPrefix(value)),
        }
    }
}

impl TryFrom<u8> for SensorUnitPrefix {
    type Error = RdmError;

    fn try_from(value: u8) -> (r: Result<Self, RdmError>) {
        Self::try_from_u8(value)
    }
}

impl TryFromSpecImpl<u8> for SensorUnitPrefix {
    open spec fn obeys_try_from_spec() -> bool {
        true
    }

    open spec fn try_from_spec(value: u8) -> Result<Self, RdmError> {
        Self::spec_try_from_u8(value)
    }
}

impl From<SensorUnitPrefix> for u8 {
    fn from(value: SensorUnitPrefix) -> (r: u8) {
        value.to_u8()
    }
}

impl FromSpecImpl<SensorUnitPrefix> for u8 {
    open spec fn obeys_from_spec() -> bool {
        true
    }

    open spec fn from_spec(value: SensorUnitPrefix) -> u8 {
        value.spec_to_u8()
    }
}

impl<'a> FixedWire<'a> for SensorUnitPrefix {
    open spec fn spec_size() -> nat {
        1
    }

    open spec fn spec_wire(&self) -> Seq<u8> {
        self.spec_to_u8().spec_wire()
    }

    open spec fn spec_read(bytes: Seq<u8>) -> Option<Self> {
        match u8::spec_read(bytes) {
            Some(value) => match Self::spec_try_from_u8(value) {
                Ok(v) => Some(v),
                Err(_) => None,
            },
            None => None,
        }
    }

    open spec fn spec_wire_valid(&self) -> bool {
        SensorUnitPrefix::spec_wire_valid(*self)
    }

    fn wire_size() -> (n: usize) {
        1
    }

    fn write_wire(&self, out: &mut Vec<u8>) {
        self.to_u8().write_wire(out);
    }

    fn read_wire(buf: &'a [u8], pos: usize) -> (r: Option<Self>) {
        let value = match u8::read_wire(buf, pos) {
            Some(value) => value,
            None => return None,
        };
        match Self::try_from_u8(value) {
            Ok(v) => Some(v),
            Err(_) => None,
        }
    }

    proof fn lemma_wire(&self) {
        self.spec_to_u8().lemma_wire();
        if self.spec_wire_valid() {
            self.lemma_encode_decode();
        }
    }
}

/// The RDM protocol version: a major and a minor number.
#[derive(Clone, Copy, Debug, PartialEq, Eq, Structural)]
pub struct ProtocolVersion {
    pub major: u8,
    pub minor: u8,
}

impl<'a> FixedWire<'a> for ProtocolVersion {
    open spec fn spec_size() -> nat {
        2
    }

    open spec fn spec_wire(&self) -> Seq<u8> {
        self.major.spec_wire() + self.minor.spec_wire()
    }

    open spec fn spec_read(bytes: Seq<u8>) -> Option<Self> {
        if <u8 as FixedWire>::spec_read(bytes.subrange(0, 1)) is Some
            && <u8 as FixedWire>::spec_read(bytes.subrange(1, 2)) is Some {
            Some(ProtocolVersion {
                major: <u8 as FixedWire>::spec_read(bytes.subrange(0, 1)).unwrap(),
                minor: <u8 as FixedWire>::spec_read(bytes.subrange(1, 2)).unwrap(),
            })
        } else {
            None
        }
    }

    open spec fn spec_wire_valid(&self) -> bool {
        self.major.spec_wire_valid() && self.minor.spec_wire_valid()
    }

    fn wire_size() -> (n: usize) {
        2
    }

    fn write_wire(&self, out: &mut Vec<u8>) {
        let ghost start = out@;
        self.major.write_wire(out);
        self.minor.write_wire(out);
        proof {
            assert(out@ =~= start + self.spec_wire());
        }
    }

    fn read_wire(buf: &'a [u8], pos: usize) -> (r: Option<Self>) {
        let _len = buf.len();
        let ghost bytes = buf@.subrange(pos as int, pos + 2);
        proof {
            assert(bytes.subrange(0, 1) =~= buf@.subrange(pos + 0, pos + 1));
            assert(bytes.subrange(1, 2) =~= buf@.subrange(pos + 1, pos + 2));
        }
        let v0 = match <u8 as FixedWire>::read_wire(buf, pos) {
            Some(v) => v,
            None => return None,
        };
        let v1 = match <u8 as FixedWire>::read_wire(buf, pos + 1) {
            Some(v) => v,
            None => return None,
        };
        Some(ProtocolVersion { major: v0, minor: v1 })
    }

    proof fn lemma_wire(&self) {
        self.major.lemma_wire();
        self.minor.lemma_wire();
        let w = self.spec_wire();
        assert(w.subrange(0, 1) =~= self.major.spec_wire());
        assert(w.subrange(1, 2) =~= self.minor.spec_wire());
        if self.spec_wire_valid() {
            assert(<u8 as FixedWire>::spec_read(w.subrange(0, 1)) == Some(self.major));
            assert(<u8 as FixedWire>::spec_read(w.subrange(1, 2)) == Some(self.minor));
        }
    }
}

impl ProtocolVersion {
    pub fn new(major: u8, minor: u8) -> (v: Self)
        ensures
            v.major == major,
            v.minor == minor,
    {
        Self { major, minor }
    }

    /// The version as one 16 bit value: the major number in the high byte.
    pub open spec fn spec_to_u16(self) -> u16 {
        (self.major * 0x100 + self.minor) as u16
    }
}

impl From<ProtocolVersion> for u16 {
    fn from(value: ProtocolVersion) -> (r: u16) {
        value.major as u16 * 0x100 + value.minor as u16
    }
}

impl FromSpecImpl<ProtocolVersion> for u16 {
    open spec fn obeys_from_spec() -> bool {
        true
    }

    open spec fn from_spec(value: ProtocolVersion) -> u16 {
        value.spec_to_u16()
    }
}

#[derive(Clone, Copy, Debug, PartialEq, Eq, Structural)]
pub struct FadeTimes {
    pub up_fade_time: u16,
    pub down_fade_time: u16,
    pub wait_time: u16,
}

impl<'a> FixedWire<'a> for FadeTimes {
    open spec fn spec_size() -> nat {
        6
    }

    open spec fn spec_wire(&self) -> Seq<u8> {
        self.up_fade_time.spec_wire() + self.down_fade_time.spec_wire() + self.wait_time.spec_wire()
    }

    open spec fn spec_read(bytes: Seq<u8>) -> Option<Self> {
        if <u16 as FixedWire>::spec_read(bytes.subrange(0, 2)) is Some
            && <u16 as FixedWire>::spec_read(bytes.subrange(2, 4)) is Some
            && <u16 as FixedWire>::spec_read(bytes.subrange(4, 6)) is Some {
            Some(FadeTimes {
                up_fade_time: <u16 as FixedWire>::spec_read(bytes.subrange(0, 2)).unwrap(),
                down_fade_time: <u16 as FixedWire>::spec_read(bytes.subrange(2, 4)).unwrap(),
                wait_time: <u16 as FixedWire>::spec_read(bytes.subrange(4, 6)).unwrap(),
            })
        } else {
            None
        }
    }

    open spec fn spec_wire_valid(&self) -> bool {
        self.up_fade_time.spec_wire_valid() && self.down_fade_time.spec_wire_valid() && self.wait_time.spec_wire_valid()
    }

    fn wire_size() -> (n: usize) {
        6
    }

    fn write_wire(&self, out: &mut Vec<u8>) {
        let ghost start = out@;
        self.up_fade_time.write_wire(out);
        self.down_fade_time.write_wire(out);
        self.wait_time.write_wire(out);
        proof {
            assert(out@ =~= start + self.spec_wire());
        }
    }

    fn read_wire(buf: &'a [u8], pos: usize) -> (r: Option<Self>) {
        let _len = buf.len();
        let ghost bytes = buf@.subrange(pos as int, pos + 6);
        proof {
            assert(bytes.subrange(0, 2) =~= buf@.subrange(pos + 0, pos + 2));
            assert(bytes.subrange(2, 4) =~= buf@.subrange(pos + 2, pos + 4));
            assert(bytes.subrange(4, 6) =~= buf@.subrange(pos + 4, pos + 6));
        }
        let v0 = match <u16 as FixedWire>::read_wire(buf, pos) {
            Some(v) => v,
            None => return None,
        };
        let v1 = match <u16 as FixedWire>::read_wire(buf, pos + 2) {
            Some(v) => v,
            None => return None,
        };
        let v2 = match <u16 as FixedWire>::read_wire(buf, pos + 4) {
            Some(v) => v,
            None => return None,
        };
        Some(FadeTimes { up_fade_time: v0, down_fade_time: v1, wait_time: v2 })
    }

    proof fn lemma_wire(&self) {
        self.up_fade_time.lemma_wire();
        self.down_fade_time.lemma_wire();
        self.wait_time.lemma_wire();
        let w = self.spec_wire();
        assert(w.subrange(0, 2) =~= self.up_fade_time.spec_wire());
        assert(w.subrange(2, 4) =~= self.down_fade_time.spec_wire());
        assert(w.subrange(4, 6) =~= self.wait_time.spec_wire());
        if self.spec_wire_valid() {
            assert(<u16 as FixedWire>::spec_read(w.subrange(0, 2)) == Some(self.up_fade_time));
            assert(<u16 as FixedWire>::spec_read(w.subrange(2, 4)) == Some(self.down_fade_time));
            assert(<u16 as FixedWire>::spec_read(w.subrange(4, 6)) == Some(self.wait_time));
        }
    }
}

#[derive(Clone, Copy, Debug, PartialEq)]
pub struct SlotInfo {
    pub id: u16,
    pub kind: SlotType,
    pub label_id: u16,
}

impl<'a> FixedWire<'a> for SlotInfo {
    open spec fn spec_size() -> nat {
        5
    }

    open spec fn spec_wire(&self) -> Seq<u8> {
        self.id.spec_wire() + self.kind.spec_wire() + self.label_id.spec_wire()
    }

    open spec fn spec_read(bytes: Seq<u8>) -> Option<Self> {
        if <u16 as FixedWire>::spec_read(bytes.subrange(0, 2)) is Some
            && <SlotType as FixedWire>::spec_read(bytes.subrange(2, 3)) is Some
            && <u16 as FixedWire>::spec_read(bytes.subrange(3, 5)) is Some {
            Some(SlotInfo {
                id: <u16 as FixedWire>::spec_read(bytes.subrange(0, 2)).unwrap(),
                kind: <SlotType as FixedWire>::spec_read(bytes.subrange(2, 3)).unwrap(),
                label_id: <u16 as FixedWire>::spec_read(bytes.subrange(3, 5)).unwrap(),
            })
        } else {
            None
        }
    }

    open spec fn spec_wire_valid(&self) -> bool {
        self.id.spec_wire_valid() && self.kind.spec_wire_valid() && self.label_id.spec_wire_valid()
    }

    fn wire_size() -> (n: usize) {
        5
    }

    fn write_wire(&self, out: &mut Vec<u8>) {
        let ghost start = out@;
        self.id.write_wire(out);
        self.kind.write_wire(out);
        self.label_id.write_wire(out);
        proof {
            assert(out@ =~= start + self.spec_wire());
        }
    }

    fn read_wire(buf: &'a [u8], pos: usize) -> (r: Option<Self>) {
        let _len = buf.len();
        let ghost bytes = buf@.subrange(pos as int, pos + 5);
        proof {
            assert(bytes.subrange(0, 2) =~= buf@.subrange(pos + 0, pos + 2));
            assert(bytes.subrange(2, 3) =~= buf@.subrange(pos + 2, pos + 3));
            assert(bytes.subrange(3, 5) =~= buf@.subrange(pos + 3, pos + 5));
        }
        let v0 = match <u16 as FixedWire>::read_wire(buf, pos) {
            Some(v) => v,
            None => return None,
        };
        let v1 = match <SlotType as FixedWire>::read_wire(buf, pos + 2) {
            Some(v) => v,
            None => return None,
        };
        let v2 = match <u16 as FixedWire>::read_wire(buf, pos + 3) {
            Some(v) => v,
            None => return None,
        };
        Some(SlotInfo { id: v0, kind: v1, label_id: v2 })
    }

    proof fn lemma_wire(&self) {
        self.id.lemma_wire();
        self.kind.lemma_wire();
        self.label_id.lemma_wire();
        let w = self.spec_wire();
        assert(w.subrange(0, 2) =~= self.id.spec_wire());
        assert(w.subrange(2, 3) =~= self.kind.spec_wire());
        assert(w.subrange(3, 5) =~= self.label_id.spec_wire());
        if self.spec_wire_valid() {
            assert(<u16 as FixedWire>::spec_read(w.subrange(0, 2)) == Some(self.id));
            assert(<SlotType as FixedWire>::spec_read(w.subrange(2, 3)) == Some(self.kind));
            assert(<u16 as FixedWire>::spec_read(w.subrange(3, 5)) == Some(self.label_id));
        }
    }
}

#[derive(Clone, Copy, Debug, PartialEq, Eq, Structural)]
pub struct DefaultSlotValue {
    pub id: u16,
    pub value: u8,
}

impl<'a> FixedWire<'a> for DefaultSlotValue {
    open spec fn spec_size() -> nat {
        3
    }

    open spec fn spec_wire(&self) -> Seq<u8> {
        self.id.spec_wire() + self.value.spec_wire()
    }

    open spec fn spec_read(bytes: Seq<u8>) -> Option<Self> {
        if <u16 as FixedWire>::spec_read(bytes.subrange(0, 2)) is Some
            && <u8 as FixedWire>::spec_read(bytes.subrange(2, 3)) is Some {
            Some(DefaultSlotValue {
                id: <u16 as FixedWire>::spec_read(bytes.subrange(0, 2)).unwrap(),
                value: <u8 as FixedWire>::spec_read(bytes.subrange(2, 3)).unwrap(),
            })
        } else {
            None
        }
    }

    open spec fn spec_wire_valid(&self) -> bool {
        self.id.spec_wire_valid() && self.value.spec_wire_valid()
    }

    fn wire_size() -> (n: usize) {
        3
    }

    fn write_wire(&self, out: &mut Vec<u8>) {
        let ghost start = out@;
        self.id.write_wire(out);
        self.value.write_wire(out);
        proof {
            assert(out@ =~= start + self.spec_wire());
        }
    }

    fn read_wire(buf: &'a [u8], pos: usize) -> (r: Option<Self>) {
        let _len = buf.len();
        let ghost bytes = buf@.subrange(pos as int, pos + 3);
        proof {
            assert(bytes.subrange(0, 2) =~= buf@.subrange(pos + 0, pos + 2));
            assert(bytes.subrange(2, 3) =~= buf@.subrange(pos + 2, pos + 3));
        }
        let v0 = match <u16 as FixedWire>::read_wire(buf, pos) {
            Some(v) => v,
            None => return None,
        };
        let v1 = match <u8 as FixedWire>::read_wire(buf, pos + 2) {
            Some(v) => v,
            None => return None,
        };
        Some(DefaultSlotValue { id: v0, value: v1 })
    }

    proof fn lemma_wire(&self) {
        self.id.lemma_wire();
        self.value.lemma_wire();
        let w = self.spec_wire();
        assert(w.subrange(0, 2) =~= self.id.spec_wire());
        assert(w.subrange(2, 3) =~= self.value.spec_wire());
        if self.spec_wire_valid() {
            assert(<u16 as FixedWire>::spec_read(w.subrange(0, 2)) == Some(self.id));
            assert(<u8 as FixedWire>::spec_read(w.subrange(2, 3)) == Some(self.value));
        }
    }
}

#[derive(Clone, Copy, Debug, PartialEq, Eq, Structural)]
pub struct SensorValue {
    pub sensor_id: u8,
    pub current_value: i16,
    pub lowest_detected_value: i16,
    pub highest_detected_value: i16,
    pub recorded_value: i16,
}

impl<'a> FixedWire<'a> for SensorValue {
    open spec fn spec_size() -> nat {
        9
    }

    open spec fn spec_wire(&self) -> Seq<u8> {
        self.sensor_id.spec_wire() + self.current_value.spec_wire() + self.lowest_detected_value.spec_wire() + self.highest_detected_value.spec_wire() + self.recorded_value.spec_wire()
    }

    open spec fn spec_read(bytes: Seq<u8>) -> Option<Self> {
        if <u8 as FixedWire>::spec_read(bytes.subrange(0, 1)) is Some
            && <i16 as FixedWire>::spec_read(bytes.subrange(1, 3)) is Some
            && <i16 as FixedWire>::spec_read(bytes.subrange(3, 5)) is Some
            && <i16 as FixedWire>::spec_read(bytes.subrange(5, 7)) is Some
            && <i16 as FixedWire>::spec_read(bytes.subrange(7, 9)) is Some {
            Some(SensorValue {
                sensor_id: <u8 as FixedWire>::spec_read(bytes.subrange(0, 1)).unwrap(),
                current_value: <i16 as FixedWire>::spec_read(bytes.subrange(1, 3)).unwrap(),
                lowest_detected_value: <i16 as FixedWire>::spec_read(bytes.subrange(3, 5)).unwrap(),
                highest_detected_value: <i16 as FixedWire>::spec_read(bytes.subrange(5, 7)).unwrap(),
                recorded_value: <i16 as FixedWire>::spec_read(bytes.subrange(7, 9)).unwrap(),
            })
        } else {
            None
        }
    }

    open spec fn spec_wire_valid(&self) -> bool {
        self.sensor_id.spec_wire_valid() && self.current_value.spec_wire_valid() && self.lowest_detected_value.spec_wire_valid() && self.highest_detected_value.spec_wire_valid() && self.recorded_value.spec_wire_valid()
    }

    fn wire_size() -> (n: usize) {
        9
    }

    fn write_wire(&self, out: &mut Vec<u8>) {
        let ghost start = out@;
        self.sensor_id.write_wire(out);
        self.current_value.write_wire(out);
        self.lowest_detected_value.write_wire(out);
        self.highest_detected_value.write_wire(out);
        self.recorded_value.write_wire(out);
        proof {
            assert(out@ =~= start + self.spec_wire());
        }
    }

    fn read_wire(buf: &'a [u8], pos: usize) -> (r: Option<Self>) {
        let _len = buf.len();
        let ghost bytes = buf@.subrange(pos as int, pos + 9);
        proof {
            assert(bytes.subrange(0, 1) =~= buf@.subrange(pos + 0, pos + 1));
            assert(bytes.subrange(1, 3) =~= buf@.subrange(pos + 1, pos + 3));
            assert(bytes.subrange(3, 5) =~= buf@.subrange(pos + 3, pos + 5));
            assert(bytes.subrange(5, 7) =~= buf@.subrange(pos + 5, pos + 7));
            assert(bytes.subrange(7, 9) =~= buf@.subrange(pos + 7, pos + 9));
        }
        let v0 = match <u8 as FixedWire>::read_wire(buf, pos) {
            Some(v) => v,
            None => return None,
        };
        let v1 = match <i16 as FixedWire>::read_wire(buf, pos + 1) {
            Some(v) => v,
            None => return None,
        };
        let v2 = match <i16 as FixedWire>::read_wire(buf, pos + 3) {
            Some(v) => v,
            None => return None,
        };
        let v3 = match <i16 as FixedWire>::read_wire(buf, pos + 5) {
            Some(v) => v,
            None => return None,
        };
        let v4 = match <i16 as FixedWire>::read_wire(buf, pos + 7) {
            Some(v) => v,
            None => return None,
        };
        Some(SensorValue { sensor_id: v0, current_value: v1, lowest_detected_value: v2, highest_detected_value: v3, recorded_value: v4 })
    }

    proof fn lemma_wire(&self) {
        self.sensor_id.lemma_wire();
        self.current_value.lemma_wire();
        self.lowest_detected_value.lemma_wire();
        self.highest_detected_value.lemma_wire();
        self.recorded_value.lemma_wire();
        let w = self.spec_wire();
        assert(w.subrange(0, 1) =~= self.sensor_id.spec_wire());
        assert(w.subrange(1, 3) =~= self.current_value.spec_wire());
        assert(w.subrange(3, 5) =~= self.lowest_detected_value.spec_wire());
        assert(w.subrange(5, 7) =~= self.highest_detected_value.spec_wire());
        assert(w.subrange(7, 9) =~= self.recorded_value.spec_wire());
        if self.spec_wire_valid() {
            assert(<u8 as FixedWire>::spec_read(w.subrange(0, 1)) == Some(self.sensor_id));
            assert(<i16 as FixedWire>::spec_read(w.subrange(1, 3)) == Some(self.current_value));
            assert(<i16 as FixedWire>::spec_read(w.subrange(3, 5)) == Some(self.lowest_detected_value));
            assert(<i16 as FixedWire>::spec_read(w.subrange(5, 7)) == Some(self.highest_detected_value));
            assert(<i16 as FixedWire>::spec_read(w.subrange(7, 9)) == Some(self.recorded_value));
        }
    }
}

/// A bounded string of at most 32 bytes of UTF-8.
#[derive(Clone, Copy, Debug, PartialEq, Eq)]
pub struct DeviceLabel {
    len: usize,
    bytes: [u8; 32],
}

impl DeviceLabel {
    pub const MAX_LENGTH: usize = 32;

    #[verifier::type_invariant]
    pub closed spec fn wf(self) -> bool {
        &&& self.len <= 32
        &&& vstd::utf8::valid_utf8(self.bytes@.subrange(0, self.len as int))
        &&& forall|i: int| self.len <= i < 32 ==> self.bytes@[i] == 0
    }

    /// The UTF-8 bytes of the string.
    pub closed spec fn spec_bytes(self) -> Seq<u8> {
        self.bytes@.subrange(0, self.len as int)
    }

    /// The label whose bytes are `content`, when they fit and are UTF-8.
    pub closed spec fn spec_of_bytes(content: Seq<u8>) -> Self {
        choose|l: Self| l.wf() && l.spec_bytes() == content
    }

    /// A label is determined by its bytes.
    pub proof fn lemma_determined_by_bytes(a: Self, b: Self)
        requires
            a.wf(),
            b.wf(),
            a.spec_bytes() == b.spec_bytes(),
        ensures
            a == b,
    {
        assert forall|i: int| 0 <= i < 32 implies a.bytes@[i] == b.bytes@[i] by {
            if i < a.len {
                assert(a.bytes@[i] == a.spec_bytes()[i]);
                assert(b.bytes@[i] == b.spec_bytes()[i]);
            }
        }
        assert(a.bytes =~= b.bytes);
    }

    /// The label that holds `content` holds exactly those bytes, when they fit and are UTF-8.
    pub proof fn lemma_of_bytes(content: Seq<u8>)
        requires
            content.len() <= 32,
            vstd::utf8::valid_utf8(content),
        ensures
            Self::spec_of_bytes(content).wf(),
            Self::spec_of_bytes(content).spec_bytes() == content,
    {
        let bytes = spec_padded_array::<32>(content, content.len());
        lemma_padded_array::<32>(content, content.len());
        let l = DeviceLabel { len: content.len() as usize, bytes };
        assert(l.bytes@.subrange(0, l.len as int) =~= content);
        assert(l.wf() && l.spec_bytes() == content);
    }

    fn of_bytes(content: &[u8]) -> (r: Self)
        requires
            content@.len() <= 32,
            vstd::utf8::valid_utf8(content@),
        ensures
            r == Self::spec_of_bytes(content@),
            r.spec_bytes() == content@,
    {
        let mut bytes = [0u8; 32];
        proof {
            vstd::array::axiom_spec_array_fill_for_copy_type::<u8, 32>(0u8);
        }
        let mut i: usize = 0;
        while i < content.len()
            invariant
                i <= content@.len(),
                content@.len() <= 32,
                forall|j: int| 0 <= j < i ==> bytes@[j] == content@[j],
                forall|j: int| i <= j < 32 ==> bytes@[j] == 0,
            decreases content@.len() - i,
        {
            bytes[i] = content[i];
            i = i + 1;
        }
        proof {
            assert(bytes@.subrange(0, content@.len() as int) =~= content@);
        }
        let r = DeviceLabel { len: content.len(), bytes };
        proof {
            Self::lemma_determined_by_bytes(r, Self::spec_of_bytes(content@));
        }
        r
    }

    /// Makes a label of `s`, failing when it is longer than 32 bytes.
    pub fn new(s: &str) -> (r: Result<Self, RdmError>)
        ensures
            s.spec_bytes().len() <= 32 ==> r == Ok::<Self, RdmError>(Self::spec_of_bytes(s.spec_bytes())),
            r matches Ok(l) ==> l.spec_bytes() == s.spec_bytes(),
            s.spec_bytes().len() > 32 ==> r == Err::<Self, RdmError>(
                RdmError::InvalidStringLength(s.spec_bytes().len() as usize, 32),
            ),
    {
        let b = s.as_bytes();
        if b.len() > 32 {
            return Err(RdmError::InvalidStringLength(b.len(), 32));
        }
        proof {
            vstd::utf8::encode_utf8_valid_utf8(s@);
        }
        Ok(Self::of_bytes(b))
    }

    /// Makes a label of `s` without its trailing zero characters, failing when it is longer than 32 bytes.
    pub fn from_str(s: &str) -> (r: Result<Self, ParameterDataError>)
        ensures
            trimmed_trailing_nulls(s.spec_bytes()).len() <= 32 ==> r == Ok::<Self, ParameterDataError>(
                Self::spec_of_bytes(trimmed_trailing_nulls(s.spec_bytes())),
            ),
            r matches Ok(l) ==> l.spec_bytes() == trimmed_trailing_nulls(s.spec_bytes()),
            trimmed_trailing_nulls(s.spec_bytes()).len() > 32 ==> r == Err::<Self, ParameterDataError>(
                ParameterDataError::StringTooLong {
                    length: trimmed_trailing_nulls(s.spec_bytes()).len() as usize,
                    max_length: 32,
                },
            ),
    {
        let b = s.as_bytes();
        let t = trim_trailing_nulls(b);
        if t.len() > 32 {
            return Err(ParameterDataError::StringTooLong { length: t.len(), max_length: 32 });
        }
        proof {
            vstd::utf8::encode_utf8_valid_utf8(s@);
            lemma_trim_trailing_nulls_valid_utf8(s.spec_bytes());
        }
        Ok(Self::of_bytes(t))
    }

    /// The label as a string slice.
    pub fn as_str(&self) -> (r: &str)
        ensures
            r.spec_bytes() == self.spec_bytes(),
    {
        proof {
            use_type_invariant(self);
        }
        let s = vstd::slice::slice_subrange(self.bytes.as_slice(), 0, self.len);
        match str_from_utf8(s) {
            Some(r) => r,
            None => {
                proof {
                    assert(false);
                }
                ""
            },
        }
    }

    /// The UTF-8 bytes of the label.
    pub fn as_bytes(&self) -> (r: &[u8])
        ensures
            r@ == self.spec_bytes(),
    {
        proof {
            use_type_invariant(self);
        }
        vstd::slice::slice_subrange(self.bytes.as_slice(), 0, self.len)
    }

    /// The length in bytes.
    pub fn len(&self) -> (n: usize)
        ensures
            n == self.spec_bytes().len(),
    {
        proof {
            use_type_invariant(self);
        }
        self.len
    }

    pub fn is_empty(&self) -> (b: bool)
        ensures
            b == (self.spec_bytes().len() == 0),
    {
        proof {
            use_type_invariant(self);
        }
        self.len == 0
    }

    /// The wire form: the bytes up to the first zero byte.
    pub open spec fn spec_encode(self) -> Seq<u8> {
        truncated_at_null(self.spec_bytes())
    }

    /// The label carried by `buf`: its bytes up to the first zero byte, when they are UTF-8 and fit.
    pub open spec fn spec_decode(buf: Seq<u8>) -> Result<Self, ParameterDataError> {
        let content = truncated_at_null(buf);
        if content.len() > 32 {
            Err(ParameterDataError::StringTooLong { length: content.len() as usize, max_length: 32 })
        } else if !vstd::utf8::valid_utf8(content) {
            Err(ParameterDataError::InvalidUtf8)
        } else {
            Ok(Self::spec_of_bytes(content))
        }
    }

    /// The parameter data of a text without a zero byte is the text itself, and a text of at most
    /// 32 bytes of UTF-8 without a zero byte decodes to the value holding that text; whatever
    /// follows a zero byte is not read.
    pub proof fn lemma_text_codec(self, text: Seq<u8>)
        ensures
            has_no_null(self.spec_bytes()) ==> self.spec_encode() == self.spec_bytes(),
            text.len() <= 32 && has_no_null(text) && vstd::utf8::valid_utf8(text) ==> (Self::spec_decode(text) matches Ok(l)
                && l.spec_bytes() == text),
            forall|rest: Seq<u8>| #![auto] has_no_null(text) ==> Self::spec_decode(text + seq![0u8] + rest) == Self::spec_decode(text),
    {
        let b = self.spec_bytes();
        if has_no_null(b) {
            assert(b.subrange(0, b.len() as int) =~= b);
            lemma_truncated_at_null_prefix(b, b.len() as int);
        }
        if has_no_null(text) {
            assert(text.subrange(0, text.len() as int) =~= text);
            lemma_truncated_at_null_prefix(text, text.len() as int);
            if text.len() <= 32 && vstd::utf8::valid_utf8(text) {
                Self::lemma_of_bytes(text);
            }
            assert forall|rest: Seq<u8>| #![auto] Self::spec_decode(text + seq![0u8] + rest) == Self::spec_decode(text) by {
                let w = text + seq![0u8] + rest;
                assert(w.subrange(0, text.len() as int) =~= text);
                lemma_truncated_at_null_prefix(w, text.len() as int);
            }
        }
    }

    pub fn size_of(&self) -> (n: usize)
        ensures
            n == self.spec_encode().len(),
    {
        proof {
            use_type_invariant(self);
        }
        let s = vstd::slice::slice_subrange(self.bytes.as_slice(), 0, self.len);
        null_position(s)
    }

    pub fn encode_parameter_data(&self, buf: &mut [u8]) -> (r: Result<usize, ParameterDataError>)
        ensures
            encoded_into(old(buf)@, final(buf)@, self.spec_encode(), r),
    {
        proof {
            use_type_invariant(self);
        }
        let s = vstd::slice::slice_subrange(self.bytes.as_slice(), 0, self.len);
        copy_encoded(buf, truncate_at_null(s))
    }

    pub fn decode_parameter_data(buf: &[u8]) -> (r: Result<Self, ParameterDataError>)
        ensures
            r == Self::spec_decode(buf@),
            r matches Ok(l) ==> l.spec_bytes() == truncated_at_null(buf@),
    {
        let content = truncate_at_null(buf);
        if content.len() > 32 {
            return Err(ParameterDataError::StringTooLong { length: content.len(), max_length: 32 });
        }
        match str_from_utf8(content) {
            Some(_) => Ok(Self::of_bytes(content)),
            None => Err(ParameterDataError::InvalidUtf8),
        }
    }

    /// Decoding the wire form of a label without zero bytes gives the label back.
    pub proof fn lemma_roundtrip(self)
        requires
            self.wf(),
            has_no_null(self.spec_bytes()),
        ensures
            Self::spec_decode(self.spec_encode()) == Ok::<Self, ParameterDataError>(self),
    {
        lemma_truncated_at_null_prefix(self.spec_bytes(), self.spec_bytes().len() as int);
        assert(self.spec_bytes().subrange(0, self.spec_bytes().len() as int) =~= self.spec_bytes());
        Self::lemma_determined_by_bytes(self, Self::spec_of_bytes(self.spec_bytes()));
    }

    /// The wire form is no longer than 32 bytes.
    pub proof fn lemma_encode_len(self)
        requires
            self.wf(),
        ensures
            self.spec_encode().len() <= 32,
    {
        lemma_truncated_at_null_shape(self.spec_bytes());
    }

    /// Whether decoding the wire form gives the label back: it holds no zero byte.
    pub open spec fn spec_encodable(self) -> bool {
        self.wf() && has_no_null(self.spec_bytes())
    }

    /// The bytes followed by zeros up to 32 bytes.
    pub closed spec fn spec_padded(self) -> Seq<u8> {
        self.bytes@
    }

    /// Appends the wire form to `out`.
    pub fn write_encoded(&self, out: &mut Vec<u8>)
        ensures
            final(out)@ == old(out)@ + self.spec_encode(),
    {
        proof {
            use_type_invariant(self);
        }
        let s = vstd::slice::slice_subrange(self.bytes.as_slice(), 0, self.len);
        extend_from(out, truncate_at_null(s));
    }
}

impl<'a> FixedWire<'a> for DeviceLabel {
    open spec fn spec_size() -> nat {
        32
    }

    open spec fn spec_wire(&self) -> Seq<u8> {
        self.spec_padded()
    }

    open spec fn spec_read(bytes: Seq<u8>) -> Option<Self> {
        match Self::spec_decode(bytes) {
            Ok(l) => Some(l),
            Err(_) => None,
        }
    }

    open spec fn spec_wire_valid(&self) -> bool {
        self.spec_encodable()
    }

    fn wire_size() -> (n: usize) {
        32
    }

    fn write_wire(&self, out: &mut Vec<u8>) {
        proof {
            use_type_invariant(self);
        }
        extend_from(out, self.bytes.as_slice());
    }

    fn read_wire(buf: &'a [u8], pos: usize) -> (r: Option<Self>) {
        let _len = buf.len();
        let s = vstd::slice::slice_subrange(buf, pos, pos + 32);
        match Self::decode_parameter_data(s) {
            Ok(l) => Some(l),
            Err(_) => None,
        }
    }

    proof fn lemma_wire(&self) {
        if self.spec_encodable() {
            let b = self.spec_bytes();
            let p = self.bytes@;
            assert(p.subrange(0, self.len as int) =~= b);
            assert forall|i: int| 0 <= i < self.len implies p[i] != 0 by {
                assert(p[i] == b[i]);
            }
            assert(self.len < 32 ==> p[self.len as int] == 0);
            assert(has_no_null(p.subrange(0, self.len as int)));
            lemma_truncated_at_null_prefix(p, self.len as int);
            Self::lemma_determined_by_bytes(*self, Self::spec_of_bytes(b));
        }
    }
}

/// A bounded string of at most 32 bytes of UTF-8.
#[derive(Clone, Copy, Debug, PartialEq, Eq)]
pub struct ParameterDescriptionLabel {
    len: usize,
    bytes: [u8; 32],
}

impl ParameterDescriptionLabel {
    pub const MAX_LENGTH: usize = 32;

    #[verifier::type_invariant]
    pub closed spec fn wf(self) -> bool {
        &&& self.len <= 32
        &&& vstd::utf8::valid_utf8(self.bytes@.subrange(0, self.len as int))
        &&& forall|i: int| self.len <= i < 32 ==> self.bytes@[i] == 0
    }

    /// The UTF-8 bytes of the string.
    pub closed spec fn spec_bytes(self) -> Seq<u8> {
        self.bytes@.subrange(0, self.len as int)
    }

    /// The label whose bytes are `content`, when they fit and are UTF-8.
    pub closed spec fn spec_of_bytes(content: Seq<u8>) -> Self {
        choose|l: Self| l.wf() && l.spec_bytes() == content
    }

    /// A label is determined by its bytes.
    pub proof fn lemma_determined_by_bytes(a: Self, b: Self)
        requires
            a.wf(),
            b.wf(),
            a.spec_bytes() == b.spec_bytes(),
        ensures
            a == b,
    {
        assert forall|i: int| 0 <= i < 32 implies a.bytes@[i] == b.bytes@[i] by {
            if i < a.len {
                assert(a.bytes@[i] == a.spec_bytes()[i]);
                assert(b.bytes@[i] == b.spec_bytes()[i]);
            }
        }
        assert(a.bytes =~= b.bytes);
    }

    /// The label that holds `content` holds exactly those bytes, when they fit and are UTF-8.
    pub proof fn lemma_of_bytes(content: Seq<u8>)
        requires
            content.len() <= 32,
            vstd::utf8::valid_utf8(content),
        ensures
            Self::spec_of_bytes(content).wf(),
            Self::spec_of_bytes(content).spec_bytes() == content,
    {
        let bytes = spec_padded_array::<32>(content, content.len());
        lemma_padded_array::<32>(content, content.len());
        let l = ParameterDescriptionLabel { len: content.len() as usize, bytes };
        assert(l.bytes@.subrange(0, l.len as int) =~= content);
        assert(l.wf() && l.spec_bytes() == content);
    }

    fn of_bytes(content: &[u8]) -> (r: Self)
        requires
            content@.len() <= 32,
            vstd::utf8::valid_utf8(content@),
        ensures
            r == Self::spec_of_bytes(content@),
            r.spec_bytes() == content@,
    {
        let mut bytes = [0u8; 32];
        proof {
            vstd::array::axiom_spec_array_fill_for_copy_type::<u8, 32>(0u8);
        }
        let mut i: usize = 0;
        while i < content.len()
            invariant
                i <= content@.len(),
                content@.len() <= 32,
                forall|j: int| 0 <= j < i ==> bytes@[j] == content@[j],
                forall|j: int| i <= j < 32 ==> bytes@[j] == 0,
            decreases content@.len() - i,
        {
            bytes[i] = content[i];
            i = i + 1;
        }
        proof {
            assert(bytes@.subrange(0, content@.len() as int) =~= content@);
        }
        let r = ParameterDescriptionLabel { len: content.len(), bytes };
        proof {
            Self::lemma_determined_by_bytes(r, Self::spec_of_bytes(content@));
        }
        r
    }

    /// Makes a label of `s`, failing when it is longer than 32 bytes.
    pub fn new(s: &str) -> (r: Result<Self, RdmError>)
        ensures
            s.spec_bytes().len() <= 32 ==> r == Ok::<Self, RdmError>(Self::spec_of_bytes(s.spec_bytes())),
            r matches Ok(l) ==> l.spec_bytes() == s.spec_bytes(),
            s.spec_bytes().len() > 32 ==> r == Err::<Self, RdmError>(
                RdmError::InvalidStringLength(s.spec_bytes().len() as usize, 32),
            ),
    {
        let b = s.as_bytes();
        if b.len() > 32 {
            return Err(RdmError::InvalidStringLength(b.len(), 32));
        }
        proof {
            vstd::utf8::encode_utf8_valid_utf8(s@);
        }
        Ok(Self::of_bytes(b))
    }

    /// Makes a label of `s` without its trailing zero characters, failing when it is longer than 32 bytes.
    pub fn from_str(s: &str) -> (r: Result<Self, ParameterDataError>)
        ensures
            trimmed_trailing_nulls(s.spec_bytes()).len() <= 32 ==> r == Ok::<Self, ParameterDataError>(
                Self::spec_of_bytes(trimmed_trailing_nulls(s.spec_bytes())),
            ),
            r matches Ok(l) ==> l.spec_bytes() == trimmed_trailing_nulls(s.spec_bytes()),
            trimmed_trailing_nulls(s.spec_bytes()).len() > 32 ==> r == Err::<Self, ParameterDataError>(
                ParameterDataError::StringTooLong {
                    length: trimmed_trailing_nulls(s.spec_bytes()).len() as usize,
                    max_length: 32,
                },
            ),
    {
        let b = s.as_bytes();
        let t = trim_trailing_nulls(b);
        if t.len() > 32 {
            return Err(ParameterDataError::StringTooLong { length: t.len(), max_length: 32 });
        }
        proof {
            vstd::utf8::encode_utf8_valid_utf8(s@);
            lemma_trim_trailing_nulls_valid_utf8(s.spec_bytes());
        }
        Ok(Self::of_bytes(t))
    }

    /// The label as a string slice.
    pub fn as_str(&self) -> (r: &str)
        ensures
            r.spec_bytes() == self.spec_bytes(),
    {
        proof {
            use_type_invariant(self);
        }
        let s = vstd::slice::slice_subrange(self.bytes.as_slice(), 0, self.len);
        match str_from_utf8(s) {
            Some(r) => r,
            None => {
                proof {
                    assert(false);
                }
                ""
            },
        }
    }

    /// The UTF-8 bytes of the label.
    pub fn as_bytes(&self) -> (r: &[u8])
        ensures
            r@ == self.spec_bytes(),
    {
        proof {
            use_type_invariant(self);
        }
        vstd::slice::slice_subrange(self.bytes.as_slice(), 0, self.len)
    }

    /// The length in bytes.
    pub fn len(&self) -> (n: usize)
        ensures
            n == self.spec_bytes().len(),
    {
        proof {
            use_type_invariant(self);
        }
        self.len
    }

    pub fn is_empty(&self) -> (b: bool)
        ensures
            b == (self.spec_bytes().len() == 0),
    {
        proof {
            use_type_invariant(self);
        }
        self.len == 0
    }

    /// The wire form: the bytes up to the first zero byte.
    pub open spec fn spec_encode(self) -> Seq<u8> {
        truncated_at_null(self.spec_bytes())
    }

    /// The label carried by `buf`: its bytes up to the first zero byte, when they are UTF-8 and fit.
    pub open spec fn spec_decode(buf: Seq<u8>) -> Result<Self, ParameterDataError> {
        let content = truncated_at_null(buf);
        if content.len() > 32 {
            Err(ParameterDataError::StringTooLong { length: content.len() as usize, max_length: 32 })
        } else if !vstd::utf8::valid_utf8(content) {
            Err(ParameterDataError::InvalidUtf8)
        } else {
            Ok(Self::spec_of_bytes(content))
        }
    }

    /// The parameter data of a text without a zero byte is the text itself, and a text of at most
    /// 32 bytes of UTF-8 without a zero byte decodes to the value holding that text; whatever
    /// follows a zero byte is not read.
    pub proof fn lemma_text_codec(self, text: Seq<u8>)
        ensures
            has_no_null(self.spec_bytes()) ==> self.spec_encode() == self.spec_bytes(),
            text.len() <= 32 && has_no_null(text) && vstd::utf8::valid_utf8(text) ==> (Self::spec_decode(text) matches Ok(l)
                && l.spec_bytes() == text),
            forall|rest: Seq<u8>| #![auto] has_no_null(text) ==> Self::spec_decode(text + seq![0u8] + rest) == Self::spec_decode(text),
    {
        let b = self.spec_bytes();
        if has_no_null(b) {
            assert(b.subrange(0, b.len() as int) =~= b);
            lemma_truncated_at_null_prefix(b, b.len() as int);
        }
        if has_no_null(text) {
            assert(text.subrange(0, text.len() as int) =~= text);
            lemma_truncated_at_null_prefix(text, text.len() as int);
            if text.len() <= 32 && vstd::utf8::valid_utf8(text) {
                Self::lemma_of_bytes(text);
            }
            assert forall|rest: Seq<u8>| #![auto] Self::spec_decode(text + seq![0u8] + rest) == Self::spec_decode(text) by {
                let w = text + seq![0u8] + rest;
                assert(w.subrange(0, text.len() as int) =~= text);
                lemma_truncated_at_null_prefix(w, text.len() as int);
            }
        }
    }

    pub fn size_of(&self) -> (n: usize)
        ensures
            n == self.spec_encode().len(),
    {
        proof {
            use_type_invariant(self);
        }
        let s = vstd::slice::slice_subrange(self.bytes.as_slice(), 0, self.len);
        null_position(s)
    }

    pub fn encode_parameter_data(&self, buf: &mut [u8]) -> (r: Result<usize, ParameterDataError>)
        ensures
            encoded_into(old(buf)@, final(buf)@, self.spec_encode(), r),
    {
        proof {
            use_type_invariant(self);
        }
        let s = vstd::slice::slice_subrange(self.bytes.as_slice(), 0, self.len);
        copy_encoded(buf, truncate_at_null(s))
    }

    pub fn decode_parameter_data(buf: &[u8]) -> (r: Result<Self, ParameterDataError>)
        ensures
            r == Self::spec_decode(buf@),
            r matches Ok(l) ==> l.spec_bytes() == truncated_at_null(buf@),
    {
        let content = truncate_at_null(buf);
        if content.len() > 32 {
            return Err(ParameterDataError::StringTooLong { length: content.len(), max_length: 32 });
        }
        match str_from_utf8(content) {
            Some(_) => Ok(Self::of_bytes(content)),
            None => Err(ParameterDataError::InvalidUtf8),
        }
    }

    /// Decoding the wire form of a label without zero bytes gives the label back.
    pub proof fn lemma_roundtrip(self)
        requires
            self.wf(),
            has_no_null(self.spec_bytes()),
        ensures
            Self::spec_decode(self.spec_encode()) == Ok::<Self, ParameterDataError>(self),
    {
        lemma_truncated_at_null_prefix(self.spec_bytes(), self.spec_bytes().len() as int);
        assert(self.spec_bytes().subrange(0, self.spec_bytes().len() as int) =~= self.spec_bytes());
        Self::lemma_determined_by_bytes(self, Self::spec_of_bytes(self.spec_bytes()));
    }

    /// The wire form is no longer than 32 bytes.
    pub proof fn lemma_encode_len(self)
        requires
            self.wf(),
        ensures
            self.spec_encode().len() <= 32,
    {
        lemma_truncated_at_null_shape(self.spec_bytes());
    }

    /// Whether decoding the wire form gives the label back: it holds no zero byte.
    pub open spec fn spec_encodable(self) -> bool {
        self.wf() && has_no_null(self.spec_bytes())
    }

    /// The bytes followed by zeros up to 32 bytes.
    pub closed spec fn spec_padded(self) -> Seq<u8> {
        self.bytes@
    }

    /// Appends the wire form to `out`.
    pub fn write_encoded(&self, out: &mut Vec<u8>)
        ensures
            final(out)@ == old(out)@ + self.spec_encode(),
    {
        proof {
            use_type_invariant(self);
        }
        let s = vstd::slice::slice_subrange(self.bytes.as_slice(), 0, self.len);
        extend_from(out, truncate_at_null(s));
    }
}

impl<'a> FixedWire<'a> for ParameterDescriptionLabel {
    open spec fn spec_size() -> nat {
        32
    }

    open spec fn spec_wire(&self) -> Seq<u8> {
        self.spec_padded()
    }

    open spec fn spec_read(bytes: Seq<u8>) -> Option<Self> {
        match Self::spec_decode(bytes) {
            Ok(l) => Some(l),
            Err(_) => None,
        }
    }

    open spec fn spec_wire_valid(&self) -> bool {
        self.spec_encodable()
    }

    fn wire_size() -> (n: usize) {
        32
    }

    fn write_wire(&self, out: &mut Vec<u8>) {
        proof {
            use_type_invariant(self);
        }
        extend_from(out, self.bytes.as_slice());
    }

    fn read_wire(buf: &'a [u8], pos: usize) -> (r: Option<Self>) {
        let _len = buf.len();
        let s = vstd::slice::slice_subrange(buf, pos, pos + 32);
        match Self::decode_parameter_data(s) {
            Ok(l) => Some(l),
            Err(_) => None,
        }
    }

    proof fn lemma_wire(&self) {
        if self.spec_encodable() {
            let b = self.spec_bytes();
            let p = self.bytes@;
            assert(p.subrange(0, self.len as int) =~= b);
            assert forall|i: int| 0 <= i < self.len implies p[i] != 0 by {
                assert(p[i] == b[i]);
            }
            assert(self.len < 32 ==> p[self.len as int] == 0);
            assert(has_no_null(p.subrange(0, self.len as int)));
            lemma_truncated_at_null_prefix(p, self.len as int);
            Self::lemma_determined_by_bytes(*self, Self::spec_of_bytes(b));
        }
    }
}

/// A bounded string of at most 32 bytes of UTF-8.
#[derive(Clone, Copy, Debug, PartialEq, Eq)]
pub struct DeviceModelDescription {
    len: usize,
    bytes: [u8; 32],
}

impl DeviceModelDescription {
    pub const MAX_LENGTH: usize = 32;

    #[verifier::type_invariant]
    pub closed spec fn wf(self) -> bool {
        &&& self.len <= 32
        &&& vstd::utf8::valid_utf8(self.bytes@.subrange(0, self.len as int))
        &&& forall|i: int| self.len <= i < 32 ==> self.bytes@[i] == 0
    }

    /// The UTF-8 bytes of the string.
    pub closed spec fn spec_bytes(self) -> Seq<u8> {
        self.bytes@.subrange(0, self.len as int)
    }

    /// The label whose bytes are `content`, when they fit and are UTF-8.
    pub closed spec fn spec_of_bytes(content: Seq<u8>) -> Self {
        choose|l: Self| l.wf() && l.spec_bytes() == content
    }

    /// A label is determined by its bytes.
    pub proof fn lemma_determined_by_bytes(a: Self, b: Self)
        requires
            a.wf(),
            b.wf(),
            a.spec_bytes() == b.spec_bytes(),
        ensures
            a == b,
    {
        assert forall|i: int| 0 <= i < 32 implies a.bytes@[i] == b.bytes@[i] by {
            if i < a.len {
                assert(a.bytes@[i] == a.spec_bytes()[i]);
                assert(b.bytes@[i] == b.spec_bytes()[i]);
            }
        }
        assert(a.bytes =~= b.bytes);
    }

    /// The label that holds `content` holds exactly those bytes, when they fit and are UTF-8.
    pub proof fn lemma_of_bytes(content: Seq<u8>)
        requires
            content.len() <= 32,
            vstd::utf8::valid_utf8(content),
        ensures
            Self::spec_of_bytes(content).wf(),
            Self::spec_of_bytes(content).spec_bytes() == content,
    {
        let bytes = spec_padded_array::<32>(content, content.len());
        lemma_padded_array::<32>(content, content.len());
        let l = DeviceModelDescription { len: content.len() as usize, bytes };
        assert(l.bytes@.subrange(0, l.len as int) =~= content);
        assert(l.wf() && l.spec_bytes() == content);
    }

    fn of_bytes(content: &[u8]) -> (r: Self)
        requires
            content@.len() <= 32,
            vstd::utf8::valid_utf8(content@),
        ensures
            r == Self::spec_of_bytes(content@),
            r.spec_bytes() == content@,
    {
        let mut bytes = [0u8; 32];
        proof {
            vstd::array::axiom_spec_array_fill_for_copy_type::<u8, 32>(0u8);
        }
        let mut i: usize = 0;
        while i < content.len()
            invariant
                i <= content@.len(),
                content@.len() <= 32,
                forall|j: int| 0 <= j < i ==> bytes@[j] == content@[j],
                forall|j: int| i <= j < 32 ==> bytes@[j] == 0,
            decreases content@.len() - i,
        {
            bytes[i] = content[i];
            i = i + 1;
        }
        proof {
            assert(bytes@.subrange(0, content@.len() as int) =~= content@);
        }
        let r = DeviceModelDescription { len: content.len(), bytes };
        proof {
            Self::lemma_determined_by_bytes(r, Self::spec_of_bytes(content@));
        }
        r
    }

    /// Makes a label of `s`, failing when it is longer than 32 bytes.
    pub fn new(s: &str) -> (r: Result<Self, RdmError>)
        ensures
            s.spec_bytes().len() <= 32 ==> r == Ok::<Self, RdmError>(Self::spec_of_bytes(s.spec_bytes())),
            r matches Ok(l) ==> l.spec_bytes() == s.spec_bytes(),
            s.spec_bytes().len() > 32 ==> r == Err::<Self, RdmError>(
                RdmError::InvalidStringLength(s.spec_bytes().len() as usize, 32),
            ),
    {
        let b = s.as_bytes();
        if b.len() > 32 {
            return Err(RdmError::InvalidStringLength(b.len(), 32));
        }
        proof {
            vstd::utf8::encode_utf8_valid_utf8(s@);
        }
        Ok(Self::of_bytes(b))
    }

    /// Makes a label of `s` without its trailing zero characters, failing when it is longer than 32 bytes.
    pub fn from_str(s: &str) -> (r: Result<Self, ParameterDataError>)
        ensures
            trimmed_trailing_nulls(s.spec_bytes()).len() <= 32 ==> r == Ok::<Self, ParameterDataError>(
                Self::spec_of_bytes(trimmed_trailing_nulls(s.spec_bytes())),
            ),
            r matches Ok(l) ==> l.spec_bytes() == trimmed_trailing_nulls(s.spec_bytes()),
            trimmed_trailing_nulls(s.spec_bytes()).len() > 32 ==> r == Err::<Self, ParameterDataError>(
                ParameterDataError::StringTooLong {
                    length: trimmed_trailing_nulls(s.spec_bytes()).len() as usize,
                    max_length: 32,
                },
            ),
    {
        let b = s.as_bytes();
        let t = trim_trailing_nulls(b);
        if t.len() > 32 {
            return Err(ParameterDataError::StringTooLong { length: t.len(), max_length: 32 });
        }
        proof {
            vstd::utf8::encode_utf8_valid_utf8(s@);
            lemma_trim_trailing_nulls_valid_utf8(s.spec_bytes());
        }
        Ok(Self::of_bytes(t))
    }

    /// The label as a string slice.
    pub fn as_str(&self) -> (r: &str)
        ensures
            r.spec_bytes() == self.spec_bytes(),
    {
        proof {
            use_type_invariant(self);
        }
        let s = vstd::slice::slice_subrange(self.bytes.as_slice(), 0, self.len);
        match str_from_utf8(s) {
            Some(r) => r,
            None => {
                proof {
                    assert(false);
                }
                ""
            },
        }
    }

    /// The UTF-8 bytes of the label.
    pub fn as_bytes(&self) -> (r: &[u8])
        ensures
            r@ == self.spec_bytes(),
    {
        proof {
            use_type_invariant(self);
        }
        vstd::slice::slice_subrange(self.bytes.as_slice(), 0, self.len)
    }

    /// The length in bytes.
    pub fn len(&self) -> (n: usize)
        ensures
            n == self.spec_bytes().len(),
    {
        proof {
            use_type_invariant(self);
        }
        self.len
    }

    pub fn is_empty(&self) -> (b: bool)
        ensures
            b == (self.spec_bytes().len() == 0),
    {
        proof {
            use_type_invariant(self);
        }
        self.len == 0
    }

    /// The wire form: the bytes up to the first zero byte.
    pub open spec fn spec_encode(self) -> Seq<u8> {
        truncated_at_null(self.spec_bytes())
    }

    /// The label carried by `buf`: its bytes up to the first zero byte, when they are UTF-8 and fit.
    pub open spec fn spec_decode(buf: Seq<u8>) -> Result<Self, ParameterDataError> {
        let content = truncated_at_null(buf);
        if content.len() > 32 {
            Err(ParameterDataError::StringTooLong { length: content.len() as usize, max_length: 32 })
        } else if !vstd::utf8::valid_utf8(content) {
            Err(ParameterDataError::InvalidUtf8)
        } else {
            Ok(Self::spec_of_bytes(content))
        }
    }

    /// The parameter data of a text without a zero byte is the text itself, and a text of at most
    /// 32 bytes of UTF-8 without a zero byte decodes to the value holding that text; whatever
    /// follows a zero byte is not read.
    pub proof fn lemma_text_codec(self, text: Seq<u8>)
        ensures
            has_no_null(self.spec_bytes()) ==> self.spec_encode() == self.spec_bytes(),
            text.len() <= 32 && has_no_null(text) && vstd::utf8::valid_utf8(text) ==> (Self::spec_decode(text) matches Ok(l)
                && l.spec_bytes() == text),
            forall|rest: Seq<u8>| #![auto] has_no_null(text) ==> Self::spec_decode(text + seq![0u8] + rest) == Self::spec_decode(text),
    {
        let b = self.spec_bytes();
        if has_no_null(b) {
            assert(b.subrange(0, b.len() as int) =~= b);
            lemma_truncated_at_null_prefix(b, b.len() as int);
        }
        if has_no_null(text) {
            assert(text.subrange(0, text.len() as int) =~= text);
            lemma_truncated_at_null_prefix(text, text.len() as int);
            if text.len() <= 32 && vstd::utf8::valid_utf8(text) {
                Self::lemma_of_bytes(text);
            }
            assert forall|rest: Seq<u8>| #![auto] Self::spec_decode(text + seq![0u8] + rest) == Self::spec_decode(text) by {
                let w = text + seq![0u8] + rest;
                assert(w.subrange(0, text.len() as int) =~= text);
                lemma_truncated_at_null_prefix(w, text.len() as int);
            }
        }
    }

    pub fn size_of(&self) -> (n: usize)
        ensures
            n == self.spec_encode().len(),
    {
        proof {
            use_type_invariant(self);
        }
        let s = vstd::slice::slice_subrange(self.bytes.as_slice(), 0, self.len);
        null_position(s)
    }

    pub fn encode_parameter_data(&self, buf: &mut [u8]) -> (r: Result<usize, ParameterDataError>)
        ensures
            encoded_into(old(buf)@, final(buf)@, self.spec_encode(), r),
    {
        proof {
            use_type_invariant(self);
        }
        let s = vstd::slice::slice_subrange(self.bytes.as_slice(), 0, self.len);
        copy_encoded(buf, truncate_at_null(s))
    }

    pub fn decode_parameter_data(buf: &[u8]) -> (r: Result<Self, ParameterDataError>)
        ensures
            r == Self::spec_decode(buf@),
            r matches Ok(l) ==> l.spec_bytes() == truncated_at_null(buf@),
    {
        let content = truncate_at_null(buf);
        if content.len() > 32 {
            return Err(ParameterDataError::StringTooLong { length: content.len(), max_length: 32 });
        }
        match str_from_utf8(content) {
            Some(_) => Ok(Self::of_bytes(content)),
            None => Err(ParameterDataError::InvalidUtf8),
        }
    }

    /// Decoding the wire form of a label without zero bytes gives the label back.
    pub proof fn lemma_roundtrip(self)
        requires
            self.wf(),
            has_no_null(self.spec_bytes()),
        ensures
            Self::spec_decode(self.spec_encode()) == Ok::<Self, ParameterDataError>(self),
    {
        lemma_truncated_at_null_prefix(self.spec_bytes(), self.spec_bytes().len() as int);
        assert(self.spec_bytes().subrange(0, self.spec_bytes().len() as int) =~= self.spec_bytes());
        Self::lemma_determined_by_bytes(self, Self::spec_of_bytes(self.spec_bytes()));
    }

    /// The wire form is no longer than 32 bytes.
    pub proof fn lemma_encode_len(self)
        requires
            self.wf(),
        ensures
            self.spec_encode().len() <= 32,
    {
        lemma_truncated_at_null_shape(self.spec_bytes());
    }

    /// Whether decoding the wire form gives the label back: it holds no zero byte.
    pub open spec fn spec_encodable(self) -> bool {
        self.wf() && has_no_null(self.spec_bytes())
    }

    /// The bytes followed by zeros up to 32 bytes.
    pub closed spec fn spec_padded(self) -> Seq<u8> {
        self.bytes@
    }

    /// Appends the wire form to `out`.
    pub fn write_encoded(&self, out: &mut Vec<u8>)
        ensures
            final(out)@ == old(out)@ + self.spec_encode(),
    {
        proof {
            use_type_invariant(self);
        }
        let s = vstd::slice::slice_subrange(self.bytes.as_slice(), 0, self.len);
        extend_from(out, truncate_at_null(s));
    }
}

impl<'a> FixedWire<'a> for DeviceModelDescription {
    open spec fn spec_size() -> nat {
        32
    }

    open spec fn spec_wire(&self) -> Seq<u8> {
        self.spec_padded()
    }

    open spec fn spec_read(bytes: Seq<u8>) -> Option<Self> {
        match Self::spec_decode(bytes) {
            Ok(l) => Some(l),
            Err(_) => None,
        }
    }

    open spec fn spec_wire_valid(&self) -> bool {
        self.spec_encodable()
    }

    fn wire_size() -> (n: usize) {
        32
    }

    fn write_wire(&self, out: &mut Vec<u8>) {
        proof {
            use_type_invariant(self);
        }
        extend_from(out, self.bytes.as_slice());
    }

    fn read_wire(buf: &'a [u8], pos: usize) -> (r: Option<Self>) {
        let _len = buf.len();
        let s = vstd::slice::slice_subrange(buf, pos, pos + 32);
        match Self::decode_parameter_data(s) {
            Ok(l) => Some(l),
            Err(_) => None,
        }
    }

    proof fn lemma_wire(&self) {
        if self.spec_encodable() {
            let b = self.spec_bytes();
            let p = self.bytes@;
            assert(p.subrange(0, self.len as int) =~= b);
            assert forall|i: int| 0 <= i < self.len implies p[i] != 0 by {
                assert(p[i] == b[i]);
            }
            assert(self.len < 32 ==> p[self.len as int] == 0);
            assert(has_no_null(p.subrange(0, self.len as int)));
            lemma_truncated_at_null_prefix(p, self.len as int);
            Self::lemma_determined_by_bytes(*self, Self::spec_of_bytes(b));
        }
    }
}

/// A bounded string of at most 32 bytes of UTF-8.
#[derive(Clone, Copy, Debug, PartialEq, Eq)]
pub struct ManufacturerLabel {
    len: usize,
    bytes: [u8; 32],
}

impl ManufacturerLabel {
    pub const MAX_LENGTH: usize = 32;

    #[verifier::type_invariant]
    pub closed spec fn wf(self) -> bool {
        &&& self.len <= 32
        &&& vstd::utf8::valid_utf8(self.bytes@.subrange(0, self.len as int))
        &&& forall|i: int| self.len <= i < 32 ==> self.bytes@[i] == 0
    }

    /// The UTF-8 bytes of the string.
    pub closed spec fn spec_bytes(self) -> Seq<u8> {
        self.bytes@.subrange(0, self.len as int)
    }

    /// The label whose bytes are `content`, when they fit and are UTF-8.
    pub closed spec fn spec_of_bytes(content: Seq<u8>) -> Self {
        choose|l: Self| l.wf() && l.spec_bytes() == content
    }

    /// A label is determined by its bytes.
    pub proof fn lemma_determined_by_bytes(a: Self, b: Self)
        requires
            a.wf(),
            b.wf(),
            a.spec_bytes() == b.spec_bytes(),
        ensures
            a == b,
    {
        assert forall|i: int| 0 <= i < 32 implies a.bytes@[i] == b.bytes@[i] by {
            if i < a.len {
                assert(a.bytes@[i] == a.spec_bytes()[i]);
                assert(b.bytes@[i] == b.spec_bytes()[i]);
            }
        }
        assert(a.bytes =~= b.bytes);
    }

    /// The label that holds `content` holds exactly those bytes, when they fit and are UTF-8.
    pub proof fn lemma_of_bytes(content: Seq<u8>)
        requires
            content.len() <= 32,
            vstd::utf8::valid_utf8(content),
        ensures
            Self::spec_of_bytes(content).wf(),
            Self::spec_of_bytes(content).spec_bytes() == content,
    {
        let bytes = spec_padded_array::<32>(content, content.len());
        lemma_padded_array::<32>(content, content.len());
        let l = ManufacturerLabel { len: content.len() as usize, bytes };
        assert(l.bytes@.subrange(0, l.len as int) =~= content);
        assert(l.wf() && l.spec_bytes() == content);
    }

    fn of_bytes(content: &[u8]) -> (r: Self)
        requires
            content@.len() <= 32,
            vstd::utf8::valid_utf8(content@),
        ensures
            r == Self::spec_of_bytes(content@),
            r.spec_bytes() == content@,
    {
        let mut bytes = [0u8; 32];
        proof {
            vstd::array::axiom_spec_array_fill_for_copy_type::<u8, 32>(0u8);
        }
        let mut i: usize = 0;
        while i < content.len()
            invariant
                i <= content@.len(),
                content@.len() <= 32,
                forall|j: int| 0 <= j < i ==> bytes@[j] == content@[j],
                forall|j: int| i <= j < 32 ==> bytes@[j] == 0,
            decreases content@.len() - i,
        {
            bytes[i] = content[i];
            i = i + 1;
        }
        proof {
            assert(bytes@.subrange(0, content@.len() as int) =~= content@);
        }
        let r = ManufacturerLabel { len: content.len(), bytes };
        proof {
            Self::lemma_determined_by_bytes(r, Self::spec_of_bytes(content@));
        }
        r
    }

    /// Makes a label of `s`, failing when it is longer than 32 bytes.
    pub fn new(s: &str) -> (r: Result<Self, RdmError>)
        ensures
            s.spec_bytes().len() <= 32 ==> r == Ok::<Self, RdmError>(Self::spec_of_bytes(s.spec_bytes())),
            r matches Ok(l) ==> l.spec_bytes() == s.spec_bytes(),
            s.spec_bytes().len() > 32 ==> r == Err::<Self, RdmError>(
                RdmError::InvalidStringLength(s.spec_bytes().len() as usize, 32),
            ),
    {
        let b = s.as_bytes();
        if b.len() > 32 {
            return Err(RdmError::InvalidStringLength(b.len(), 32));
        }
        proof {
            vstd::utf8::encode_utf8_valid_utf8(s@);
        }
        Ok(Self::of_bytes(b))
    }

    /// Makes a label of `s` without its trailing zero characters, failing when it is longer than 32 bytes.
    pub fn from_str(s: &str) -> (r: Result<Self, ParameterDataError>)
        ensures
            trimmed_trailing_nulls(s.spec_bytes()).len() <= 32 ==> r == Ok::<Self, ParameterDataError>(
                Self::spec_of_bytes(trimmed_trailing_nulls(s.spec_bytes())),
            ),
            r matches Ok(l) ==> l.spec_bytes() == trimmed_trailing_nulls(s.spec_bytes()),
            trimmed_trailing_nulls(s.spec_bytes()).len() > 32 ==> r == Err::<Self, ParameterDataError>(
                ParameterDataError::StringTooLong {
                    length: trimmed_trailing_nulls(s.spec_bytes()).len() as usize,
                    max_length: 32,
                },
            ),
    {
        let b = s.as_bytes();
        let t = trim_trailing_nulls(b);
        if t.len() > 32 {
            return Err(ParameterDataError::StringTooLong { length: t.len(), max_length: 32 });
        }
        proof {
            vstd::utf8::encode_utf8_valid_utf8(s@);
            lemma_trim_trailing_nulls_valid_utf8(s.spec_bytes());
        }
        Ok(Self::of_bytes(t))
    }

    /// The label as a string slice.
    pub fn as_str(&self) -> (r: &str)
        ensures
            r.spec_bytes() == self.spec_bytes(),
    {
        proof {
            use_type_invariant(self);
        }
        let s = vstd::slice::slice_subrange(self.bytes.as_slice(), 0, self.len);
        match str_from_utf8(s) {
            Some(r) => r,
            None => {
                proof {
                    assert(false);
                }
                ""
            },
        }
    }

    /// The UTF-8 bytes of the label.
    pub fn as_bytes(&self) -> (r: &[u8])
        ensures
            r@ == self.spec_bytes(),
    {
        proof {
            use_type_invariant(self);
        }
        vstd::slice::slice_subrange(self.bytes.as_slice(), 0, self.len)
    }

    /// The length in bytes.
    pub fn len(&self) -> (n: usize)
        ensures
            n == self.spec_bytes().len(),
    {
        proof {
            use_type_invariant(self);
        }
        self.len
    }

    pub fn is_empty(&self) -> (b: bool)
        ensures
            b == (self.spec_bytes().len() == 0),
    {
        proof {
            use_type_invariant(self);
        }
        self.len == 0
    }

    /// The wire form: the bytes up to the first zero byte.
    pub open spec fn spec_encode(self) -> Seq<u8> {
        truncated_at_null(self.spec_bytes())
    }

    /// The label carried by `buf`: its bytes up to the first zero byte, when they are UTF-8 and fit.
    pub open spec fn spec_decode(buf: Seq<u8>) -> Result<Self, ParameterDataError> {
        let content = truncated_at_null(buf);
        if content.len() > 32 {
            Err(ParameterDataError::StringTooLong { length: content.len() as usize, max_length: 32 })
        } else if !vstd::utf8::valid_utf8(content) {
            Err(ParameterDataError::InvalidUtf8)
        } else {
            Ok(Self::spec_of_bytes(content))
        }
    }

    /// The parameter data of a text without a zero byte is the text itself, and a text of at most
    /// 32 bytes of UTF-8 without a zero byte decodes to the value holding that text; whatever
    /// follows a zero byte is not read.
    pub proof fn lemma_text_codec(self, text: Seq<u8>)
        ensures
            has_no_null(self.spec_bytes()) ==> self.spec_encode() == self.spec_bytes(),
            text.len() <= 32 && has_no_null(text) && vstd::utf8::valid_utf8(text) ==> (Self::spec_decode(text) matches Ok(l)
                && l.spec_bytes() == text),
            forall|rest: Seq<u8>| #![auto] has_no_null(text) ==> Self::spec_decode(text + seq![0u8] + rest) == Self::spec_decode(text),
    {
        let b = self.spec_bytes();
        if has_no_null(b) {
            assert(b.subrange(0, b.len() as int) =~= b);
            lemma_truncated_at_null_prefix(b, b.len() as int);
        }
        if has_no_null(text) {
            assert(text.subrange(0, text.len() as int) =~= text);
            lemma_truncated_at_null_prefix(text, text.len() as int);
            if text.len() <= 32 && vstd::utf8::valid_utf8(text) {
                Self::lemma_of_bytes(text);
            }
            assert forall|rest: Seq<u8>| #![auto] Self::spec_decode(text + seq![0u8] + rest) == Self::spec_decode(text) by {
                let w = text + seq![0u8] + rest;
                assert(w.subrange(0, text.len() as int) =~= text);
                lemma_truncated_at_null_prefix(w, text.len() as int);
            }
        }
    }

    pub fn size_of(&self) -> (n: usize)
        ensures
            n == self.spec_encode().len(),
    {
        proof {
            use_type_invariant(self);
        }
        let s = vstd::slice::slice_subrange(self.bytes.as_slice(), 0, self.len);
        null_position(s)
    }

    pub fn encode_parameter_data(&self, buf: &mut [u8]) -> (r: Result<usize, ParameterDataError>)
        ensures
            encoded_into(old(buf)@, final(buf)@, self.spec_encode(), r),
    {
        proof {
            use_type_invariant(self);
        }
        let s = vstd::slice::slice_subrange(self.bytes.as_slice(), 0, self.len);
        copy_encoded(buf, truncate_at_null(s))
    }

    pub fn decode_parameter_data(buf: &[u8]) -> (r: Result<Self, ParameterDataError>)
        ensures
            r == Self::spec_decode(buf@),
            r matches Ok(l) ==> l.spec_bytes() == truncated_at_null(buf@),
    {
        let content = truncate_at_null(buf);
        if content.len() > 32 {
            return Err(ParameterDataError::StringTooLong { length: content.len(), max_length: 32 });
        }
        match str_from_utf8(content) {
            Some(_) => Ok(Self::of_bytes(content)),
            None => Err(ParameterDataError::InvalidUtf8),
        }
    }

    /// Decoding the wire form of a label without zero bytes gives the label back.
    pub proof fn lemma_roundtrip(self)
        requires
            self.wf(),
            has_no_null(self.spec_bytes()),
        ensures
            Self::spec_decode(self.spec_encode()) == Ok::<Self, ParameterDataError>(self),
    {
        lemma_truncated_at_null_prefix(self.spec_bytes(), self.spec_bytes().len() as int);
        assert(self.spec_bytes().subrange(0, self.spec_bytes().len() as int) =~= self.spec_bytes());
        Self::lemma_determined_by_bytes(self, Self::spec_of_bytes(self.spec_bytes()));
    }

    /// The wire form is no longer than 32 bytes.
    pub proof fn lemma_encode_len(self)
        requires
            self.wf(),
        ensures
            self.spec_encode().len() <= 32,
    {
        lemma_truncated_at_null_shape(self.spec_bytes());
    }

    /// Whether decoding the wire form gives the label back: it holds no zero byte.
    pub open spec fn spec_encodable(self) -> bool {
        self.wf() && has_no_null(self.spec_bytes())
    }

    /// The bytes followed by zeros up to 32 bytes.
    pub closed spec fn spec_padded(self) -> Seq<u8> {
        self.bytes@
    }

    /// Appends the wire form to `out`.
    pub fn write_encoded(&self, out: &mut Vec<u8>)
        ensures
            final(out)@ == old(out)@ + self.spec_encode(),
    {
        proof {
            use_type_invariant(self);
        }
        let s = vstd::slice::slice_subrange(self.bytes.as_slice(), 0, self.len);
        extend_from(out, truncate_at_null(s));
    }
}

impl<'a> FixedWire<'a> for ManufacturerLabel {
    open spec fn spec_size() -> nat {
        32
    }

    open spec fn spec_wire(&self) -> Seq<u8> {
        self.spec_padded()
    }

    open spec fn spec_read(bytes: Seq<u8>) -> Option<Self> {
        match Self::spec_decode(bytes) {
            Ok(l) => Some(l),
            Err(_) => None,
        }
    }

    open spec fn spec_wire_valid(&self) -> bool {
        self.spec_encodable()
    }

    fn wire_size() -> (n: usize) {
        32
    }

    fn write_wire(&self, out: &mut Vec<u8>) {
        proof {
            use_type_invariant(self);
        }
        extend_from(out, self.bytes.as_slice());
    }

    fn read_wire(buf: &'a [u8], pos: usize) -> (r: Option<Self>) {
        let _len = buf.len();
        let s = vstd::slice::slice_subrange(buf, pos, pos + 32);
        match Self::decode_parameter_data(s) {
            Ok(l) => Some(l),
            Err(_) => None,
        }
    }

    proof fn lemma_wire(&self) {
        if self.spec_encodable() {
            let b = self.spec_bytes();
            let p = self.bytes@;
            assert(p.subrange(0, self.len as int) =~= b);
            assert forall|i: int| 0 <= i < self.len implies p[i] != 0 by {
                assert(p[i] == b[i]);
            }
            assert(self.len < 32 ==> p[self.len as int] == 0);
            assert(has_no_null(p.subrange(0, self.len as int)));
            lemma_truncated_at_null_prefix(p, self.len as int);
            Self::lemma_determined_by_bytes(*self, Self::spec_of_bytes(b));
        }
    }
}

/// A bounded string of at most 32 bytes of UTF-8.
#[derive(Clone, Copy, Debug, PartialEq, Eq)]
pub struct SoftwareVersionLabel {
    len: usize,
    bytes: [u8; 32],
}

impl SoftwareVersionLabel {
    pub const MAX_LENGTH: usize = 32;

    #[verifier::type_invariant]
    pub closed spec fn wf(self) -> bool {
        &&& self.len <= 32
        &&& vstd::utf8::valid_utf8(self.bytes@.subrange(0, self.len as int))
        &&& forall|i: int| self.len <= i < 32 ==> self.bytes@[i] == 0
    }

    /// The UTF-8 bytes of the string.
    pub closed spec fn spec_bytes(self) -> Seq<u8> {
        self.bytes@.subrange(0, self.len as int)
    }

    /// The label whose bytes are `content`, when they fit and are UTF-8.
    pub closed spec fn spec_of_bytes(content: Seq<u8>) -> Self {
        choose|l: Self| l.wf() && l.spec_bytes() == content
    }

    /// A label is determined by its bytes.
    pub proof fn lemma_determined_by_bytes(a: Self, b: Self)
        requires
            a.wf(),
            b.wf(),
            a.spec_bytes() == b.spec_bytes(),
        ensures
            a == b,
    {
        assert forall|i: int| 0 <= i < 32 implies a.bytes@[i] == b.bytes@[i] by {
            if i < a.len {
                assert(a.bytes@[i] == a.spec_bytes()[i]);
                assert(b.bytes@[i] == b.spec_bytes()[i]);
            }
        }
        assert(a.bytes =~= b.bytes);
    }

    /// The label that holds `content` holds exactly those bytes, when they fit and are UTF-8.
    pub proof fn lemma_of_bytes(content: Seq<u8>)
        requires
            content.len() <= 32,
            vstd::utf8::valid_utf8(content),
        ensures
            Self::spec_of_bytes(content).wf(),
            Self::spec_of_bytes(content).spec_bytes() == content,
    {
        let bytes = spec_padded_array::<32>(content, content.len());
        lemma_padded_array::<32>(content, content.len());
        let l = SoftwareVersionLabel { len: content.len() as usize, bytes };
        assert(l.bytes@.subrange(0, l.len as int) =~= content);
        assert(l.wf() && l.spec_bytes() == content);
    }

    fn of_bytes(content: &[u8]) -> (r: Self)
        requires
            content@.len() <= 32,
            vstd::utf8::valid_utf8(content@),
        ensures
            r == Self::spec_of_bytes(content@),
            r.spec_bytes() == content@,
    {
        let mut bytes = [0u8; 32];
        proof {
            vstd::array::axiom_spec_array_fill_for_copy_type::<u8, 32>(0u8);
        }
        let mut i: usize = 0;
        while i < content.len()
            invariant
                i <= content@.len(),
                content@.len() <= 32,
                forall|j: int| 0 <= j < i ==> bytes@[j] == content@[j],
                forall|j: int| i <= j < 32 ==> bytes@[j] == 0,
            decreases content@.len() - i,
        {
            bytes[i] = content[i];
            i = i + 1;
        }
        proof {
            assert(bytes@.subrange(0, content@.len() as int) =~= content@);
        }
        let r = SoftwareVersionLabel { len: content.len(), bytes };
        proof {
            Self::lemma_determined_by_bytes(r, Self::spec_of_bytes(content@));
        }
        r
    }

    /// Makes a label of `s`, failing when it is longer than 32 bytes.
    pub fn new(s: &str) -> (r: Result<Self, RdmError>)
        ensures
            s.spec_bytes().len() <= 32 ==> r == Ok::<Self, RdmError>(Self::spec_of_bytes(s.spec_bytes())),
            r matches Ok(l) ==> l.spec_bytes() == s.spec_bytes(),
            s.spec_bytes().len() > 32 ==> r == Err::<Self, RdmError>(
                RdmError::InvalidStringLength(s.spec_bytes().len() as usize, 32),
            ),
    {
        let b = s.as_bytes();
        if b.len() > 32 {
            return Err(RdmError::InvalidStringLength(b.len(), 32));
        }
        proof {
            vstd::utf8::encode_utf8_valid_utf8(s@);
        }
        Ok(Self::of_bytes(b))
    }

    /// Makes a label of `s` without its trailing zero characters, failing when it is longer than 32 bytes.
    pub fn from_str(s: &str) -> (r: Result<Self, ParameterDataError>)
        ensures
            trimmed_trailing_nulls(s.spec_bytes()).len() <= 32 ==> r == Ok::<Self, ParameterDataError>(
                Self::spec_of_bytes(trimmed_trailing_nulls(s.spec_bytes())),
            ),
            r matches Ok(l) ==> l.spec_bytes() == trimmed_trailing_nulls(s.spec_bytes()),
            trimmed_trailing_nulls(s.spec_bytes()).len() > 32 ==> r == Err::<Self, ParameterDataError>(
                ParameterDataError::StringTooLong {
                    length: trimmed_trailing_nulls(s.spec_bytes()).len() as usize,
                    max_length: 32,
                },
            ),
    {
        let b = s.as_bytes();
        let t = trim_trailing_nulls(b);
        if t.len() > 32 {
            return Err(ParameterDataError::StringTooLong { length: t.len(), max_length: 32 });
        }
        proof {
            vstd::utf8::encode_utf8_valid_utf8(s@);
            lemma_trim_trailing_nulls_valid_utf8(s.spec_bytes());
        }
        Ok(Self::of_bytes(t))
    }

    /// The label as a string slice.
    pub fn as_str(&self) -> (r: &str)
        ensures
            r.spec_bytes() == self.spec_bytes(),
    {
        proof {
            use_type_invariant(self);
        }
        let s = vstd::slice::slice_subrange(self.bytes.as_slice(), 0, self.len);
        match str_from_utf8(s) {
            Some(r) => r,
            None => {
                proof {
                    assert(false);
                }
                ""
            },
        }
    }

    /// The UTF-8 bytes of the label.
    pub fn as_bytes(&self) -> (r: &[u8])
        ensures
            r@ == self.spec_bytes(),
    {
        proof {
            use_type_invariant(self);
        }
        vstd::slice::slice_subrange(self.bytes.as_slice(), 0, self.len)
    }

    /// The length in bytes.
    pub fn len(&self) -> (n: usize)
        ensures
            n == self.spec_bytes().len(),
    {
        proof {
            use_type_invariant(self);
        }
        self.len
    }

    pub fn is_empty(&self) -> (b: bool)
        ensures
            b == (self.spec_bytes().len() == 0),
    {
        proof {
            use_type_invariant(self);
        }
        self.len == 0
    }

    /// The wire form: the bytes up to the first zero byte.
    pub open spec fn spec_encode(self) -> Seq<u8> {
        truncated_at_null(self.spec_bytes())
    }

    /// The label carried by `buf`: its bytes up to the first zero byte, when they are UTF-8 and fit.
    pub open spec fn spec_decode(buf: Seq<u8>) -> Result<Self, ParameterDataError> {
        let content = truncated_at_null(buf);
        if content.len() > 32 {
            Err(ParameterDataError::StringTooLong { length: content.len() as usize, max_length: 32 })
        } else if !vstd::utf8::valid_utf8(content) {
            Err(ParameterDataError::InvalidUtf8)
        } else {
            Ok(Self::spec_of_bytes(content))
        }
    }

    /// The parameter data of a text without a zero byte is the text itself, and a text of at most
    /// 32 bytes of UTF-8 without a zero byte decodes to the value holding that text; whatever
    /// follows a zero byte is not read.
    pub proof fn lemma_text_codec(self, text: Seq<u8>)
        ensures
            has_no_null(self.spec_bytes()) ==> self.spec_encode() == self.spec_bytes(),
            text.len() <= 32 && has_no_null(text) && vstd::utf8::valid_utf8(text) ==> (Self::spec_decode(text) matches Ok(l)
                && l.spec_bytes() == text),
            forall|rest: Seq<u8>| #![auto] has_no_null(text) ==> Self::spec_decode(text + seq![0u8] + rest) == Self::spec_decode(text),
    {
        let b = self.spec_bytes();
        if has_no_null(b) {
            assert(b.subrange(0, b.len() as int) =~= b);
            lemma_truncated_at_null_prefix(b, b.len() as int);
        }
        if has_no_null(text) {
            assert(text.subrange(0, text.len() as int) =~= text);
            lemma_truncated_at_null_prefix(text, text.len() as int);
            if text.len() <= 32 && vstd::utf8::valid_utf8(text) {
                Self::lemma_of_bytes(text);
            }
            assert forall|rest: Seq<u8>| #![auto] Self::spec_decode(text + seq![0u8] + rest) == Self::spec_decode(text) by {
                let w = text + seq![0u8] + rest;
                assert(w.subrange(0, text.len() as int) =~= text);
                lemma_truncated_at_null_prefix(w, text.len() as int);
            }
        }
    }

    pub fn size_of(&self) -> (n: usize)
        ensures
            n == self.spec_encode().len(),
    {
        proof {
            use_type_invariant(self);
        }
        let s = vstd::slice::slice_subrange(self.bytes.as_slice(), 0, self.len);
        null_position(s)
    }

    pub fn encode_parameter_data(&self, buf: &mut [u8]) -> (r: Result<usize, ParameterDataError>)
        ensures
            encoded_into(old(buf)@, final(buf)@, self.spec_encode(), r),
    {
        proof {
            use_type_invariant(self);
        }
        let s = vstd::slice::slice_subrange(self.bytes.as_slice(), 0, self.len);
        copy_encoded(buf, truncate_at_null(s))
    }

    pub fn decode_parameter_data(buf: &[u8]) -> (r: Result<Self, ParameterDataError>)
        ensures
            r == Self::spec_decode(buf@),
            r matches Ok(l) ==> l.spec_bytes() == truncated_at_null(buf@),
    {
        let content = truncate_at_null(buf);
        if content.len() > 32 {
            return Err(ParameterDataError::StringTooLong { length: content.len(), max_length: 32 });
        }
        match str_from_utf8(content) {
            Some(_) => Ok(Self::of_bytes(content)),
            None => Err(ParameterDataError::InvalidUtf8),
        }
    }

    /// Decoding the wire form of a label without zero bytes gives the label back.
    pub proof fn lemma_roundtrip(self)
        requires
            self.wf(),
            has_no_null(self.spec_bytes()),
        ensures
            Self::spec_decode(self.spec_encode()) == Ok::<Self, ParameterDataError>(self),
    {
        lemma_truncated_at_null_prefix(self.spec_bytes(), self.spec_bytes().len() as int);
        assert(self.spec_bytes().subrange(0, self.spec_bytes().len() as int) =~= self.spec_bytes());
        Self::lemma_determined_by_bytes(self, Self::spec_of_bytes(self.spec_bytes()));
    }

    /// The wire form is no longer than 32 bytes.
    pub proof fn lemma_encode_len(self)
        requires
            self.wf(),
        ensures
            self.spec_encode().len() <= 32,
    {
        lemma_truncated_at_null_shape(self.spec_bytes());
    }

    /// Whether decoding the wire form gives the label back: it holds no zero byte.
    pub open spec fn spec_encodable(self) -> bool {
        self.wf() && has_no_null(self.spec_bytes())
    }

    /// The bytes followed by zeros up to 32 bytes.
    pub closed spec fn spec_padded(self) -> Seq<u8> {
        self.bytes@
    }

    /// Appends the wire form to `out`.
    pub fn write_encoded(&self, out: &mut Vec<u8>)
        ensures
            final(out)@ == old(out)@ + self.spec_encode(),
    {
        proof {
            use_type_invariant(self);
        }
        let s = vstd::slice::slice_subrange(self.bytes.as_slice(), 0, self.len);
        extend_from(out, truncate_at_null(s));
    }
}

impl<'a> FixedWire<'a> for SoftwareVersionLabel {
    open spec fn spec_size() -> nat {
        32
    }

    open spec fn spec_wire(&self) -> Seq<u8> {
        self.spec_padded()
    }

    open spec fn spec_read(bytes: Seq<u8>) -> Option<Self> {
        match Self::spec_decode(bytes) {
            Ok(l) => Some(l),
            Err(_) => None,
        }
    }

    open spec fn spec_wire_valid(&self) -> bool {
        self.spec_encodable()
    }

    fn wire_size() -> (n: usize) {
        32
    }

    fn write_wire(&self, out: &mut Vec<u8>) {
        proof {
            use_type_invariant(self);
        }
        extend_from(out, self.bytes.as_slice());
    }

    fn read_wire(buf: &'a [u8], pos: usize) -> (r: Option<Self>) {
        let _len = buf.len();
        let s = vstd::slice::slice_subrange(buf, pos, pos + 32);
        match Self::decode_parameter_data(s) {
            Ok(l) => Some(l),
            Err(_) => None,
        }
    }

    proof fn lemma_wire(&self) {
        if self.spec_encodable() {
            let b = self.spec_bytes();
            let p = self.bytes@;
            assert(p.subrange(0, self.len as int) =~= b);
            assert forall|i: int| 0 <= i < self.len implies p[i] != 0 by {
                assert(p[i] == b[i]);
            }
            assert(self.len < 32 ==> p[self.len as int] == 0);
            assert(has_no_null(p.subrange(0, self.len as int)));
            lemma_truncated_at_null_prefix(p, self.len as int);
            Self::lemma_determined_by_bytes(*self, Self::spec_of_bytes(b));
        }
    }
}

/// A bounded string of at most 32 bytes of UTF-8.
#[derive(Clone, Copy, Debug, PartialEq, Eq)]
pub struct BootSoftwareVersionLabel {
    len: usize,
    bytes: [u8; 32],
}

impl BootSoftwareVersionLabel {
    pub const MAX_LENGTH: usize = 32;

    #[verifier::type_invariant]
    pub closed spec fn wf(self) -> bool {
        &&& self.len <= 32
        &&& vstd::utf8::valid_utf8(self.bytes@.subrange(0, self.len as int))
        &&& forall|i: int| self.len <= i < 32 ==> self.bytes@[i] == 0
    }

    /// The UTF-8 bytes of the string.
    pub closed spec fn spec_bytes(self) -> Seq<u8> {
        self.bytes@.subrange(0, self.len as int)
    }

    /// The label whose bytes are `content`, when they fit and are UTF-8.
    pub closed spec fn spec_of_bytes(content: Seq<u8>) -> Self {
        choose|l: Self| l.wf() && l.spec_bytes() == content
    }

    /// A label is determined by its bytes.
    pub proof fn lemma_determined_by_bytes(a: Self, b: Self)
        requires
            a.wf(),
            b.wf(),
            a.spec_bytes() == b.spec_bytes(),
        ensures
            a == b,
    {
        assert forall|i: int| 0 <= i < 32 implies a.bytes@[i] == b.bytes@[i] by {
            if i < a.len {
                assert(a.bytes@[i] == a.spec_bytes()[i]);
                assert(b.bytes@[i] == b.spec_bytes()[i]);
            }
        }
        assert(a.bytes =~= b.bytes);
    }

    /// The label that holds `content` holds exactly those bytes, when they fit and are UTF-8.
    pub proof fn lemma_of_bytes(content: Seq<u8>)
        requires
            content.len() <= 32,
            vstd::utf8::valid_utf8(content),
        ensures
            Self::spec_of_bytes(content).wf(),
            Self::spec_of_bytes(content).spec_bytes() == content,
    {
        let bytes = spec_padded_array::<32>(content, content.len());
        lemma_padded_array::<32>(content, content.len());
        let l = BootSoftwareVersionLabel { len: content.len() as usize, bytes };
        assert(l.bytes@.subrange(0, l.len as int) =~= content);
        assert(l.wf() && l.spec_bytes() == content);
    }

    fn of_bytes(content: &[u8]) -> (r: Self)
        requires
            content@.len() <= 32,
            vstd::utf8::valid_utf8(content@),
        ensures
            r == Self::spec_of_bytes(content@),
            r.spec_bytes() == content@,
    {
        let mut bytes = [0u8; 32];
        proof {
            vstd::array::axiom_spec_array_fill_for_copy_type::<u8, 32>(0u8);
        }
        let mut i: usize = 0;
        while i < content.len()
            invariant
                i <= content@.len(),
                content@.len() <= 32,
                forall|j: int| 0 <= j < i ==> bytes@[j] == content@[j],
                forall|j: int| i <= j < 32 ==> bytes@[j] == 0,
            decreases content@.len() - i,
        {
            bytes[i] = content[i];
            i = i + 1;
        }
        proof {
            assert(bytes@.subrange(0, content@.len() as int) =~= content@);
        }
        let r = BootSoftwareVersionLabel { len: content.len(), bytes };
        proof {
            Self::lemma_determined_by_bytes(r, Self::spec_of_bytes(content@));
        }
        r
    }

    /// Makes a label of `s`, failing when it is longer than 32 bytes.
    pub fn new(s: &str) -> (r: Result<Self, RdmError>)
        ensures
            s.spec_bytes().len() <= 32 ==> r == Ok::<Self, RdmError>(Self::spec_of_bytes(s.spec_bytes())),
            r matches Ok(l) ==> l.spec_bytes() == s.spec_bytes(),
            s.spec_bytes().len() > 32 ==> r == Err::<Self, RdmError>(
                RdmError::InvalidStringLength(s.spec_bytes().len() as usize, 32),
            ),
    {
        let b = s.as_bytes();
        if b.len() > 32 {
            return Err(RdmError::InvalidStringLength(b.len(), 32));
        }
        proof {
            vstd::utf8::encode_utf8_valid_utf8(s@);
        }
        Ok(Self::of_bytes(b))
    }

    /// Makes a label of `s` without its trailing zero characters, failing when it is longer than 32 bytes.
    pub fn from_str(s: &str) -> (r: Result<Self, ParameterDataError>)
        ensures
            trimmed_trailing_nulls(s.spec_bytes()).len() <= 32 ==> r == Ok::<Self, ParameterDataError>(
                Self::spec_of_bytes(trimmed_trailing_nulls(s.spec_bytes())),
            ),
            r matches Ok(l) ==> l.spec_bytes() == trimmed_trailing_nulls(s.spec_bytes()),
            trimmed_trailing_nulls(s.spec_bytes()).len() > 32 ==> r == Err::<Self, ParameterDataError>(
                ParameterDataError::StringTooLong {
                    length: trimmed_trailing_nulls(s.spec_bytes()).len() as usize,
                    max_length: 32,
                },
            ),
    {
        let b = s.as_bytes();
        let t = trim_trailing_nulls(b);
        if t.len() > 32 {
            return Err(ParameterDataError::StringTooLong { length: t.len(), max_length: 32 });
        }
        proof {
            vstd::utf8::encode_utf8_valid_utf8(s@);
            lemma_trim_trailing_nulls_valid_utf8(s.spec_bytes());
        }
        Ok(Self::of_bytes(t))
    }

    /// The label as a string slice.
    pub fn as_str(&self) -> (r: &str)
        ensures
            r.spec_bytes() == self.spec_bytes(),
    {
        proof {
            use_type_invariant(self);
        }
        let s = vstd::slice::slice_subrange(self.bytes.as_slice(), 0, self.len);
        match str_from_utf8(s) {
            Some(r) => r,
            None => {
                proof {
                    assert(false);
                }
                ""
            },
        }
    }

    /// The UTF-8 bytes of the label.
    pub fn as_bytes(&self) -> (r: &[u8])
        ensures
            r@ == self.spec_bytes(),
    {
        proof {
            use_type_invariant(self);
        }
        vstd::slice::slice_subrange(self.bytes.as_slice(), 0, self.len)
    }

    /// The length in bytes.
    pub fn len(&self) -> (n: usize)
        ensures
            n == self.spec_bytes().len(),
    {
        proof {
            use_type_invariant(self);
        }
        self.len
    }

    pub fn is_empty(&self) -> (b: bool)
        ensures
            b == (self.spec_bytes().len() == 0),
    {
        proof {
            use_type_invariant(self);
        }
        self.len == 0
    }

    /// The wire form: the bytes up to the first zero byte.
    pub open spec fn spec_encode(self) -> Seq<u8> {
        truncated_at_null(self.spec_bytes())
    }

    /// The label carried by `buf`: its bytes up to the first zero byte, when they are UTF-8 and fit.
    pub open spec fn spec_decode(buf: Seq<u8>) -> Result<Self, ParameterDataError> {
        let content = truncated_at_null(buf);
        if content.len() > 32 {
            Err(ParameterDataError::StringTooLong { length: content.len() as usize, max_length: 32 })
        } else if !vstd::utf8::valid_utf8(content) {
            Err(ParameterDataError::InvalidUtf8)
        } else {
            Ok(Self::spec_of_bytes(content))
        }
    }

    /// The parameter data of a text without a zero byte is the text itself, and a text of at most
    /// 32 bytes of UTF-8 without a zero byte decodes to the value holding that text; whatever
    /// follows a zero byte is not read.
    pub proof fn lemma_text_codec(self, text: Seq<u8>)
        ensures
            has_no_null(self.spec_bytes()) ==> self.spec_encode() == self.spec_bytes(),
            text.len() <= 32 && has_no_null(text) && vstd::utf8::valid_utf8(text) ==> (Self::spec_decode(text) matches Ok(l)
                && l.spec_bytes() == text),
            forall|rest: Seq<u8>| #![auto] has_no_null(text) ==> Self::spec_decode(text + seq![0u8] + rest) == Self::spec_decode(text),
    {
        let b = self.spec_bytes();
        if has_no_null(b) {
            assert(b.subrange(0, b.len() as int) =~= b);
            lemma_truncated_at_null_prefix(b, b.len() as int);
        }
        if has_no_null(text) {
            assert(text.subrange(0, text.len() as int) =~= text);
            lemma_truncated_at_null_prefix(text, text.len() as int);
            if text.len() <= 32 && vstd::utf8::valid_utf8(text) {
                Self::lemma_of_bytes(text);
            }
            assert forall|rest: Seq<u8>| #![auto] Self::spec_decode(text + seq![0u8] + rest) == Self::spec_decode(text) by {
                let w = text + seq![0u8] + rest;
                assert(w.subrange(0, text.len() as int) =~= text);
                lemma_truncated_at_null_prefix(w, text.len() as int);
            }
        }
    }

    pub fn size_of(&self) -> (n: usize)
        ensures
            n == self.spec_encode().len(),
    {
        proof {
            use_type_invariant(self);
        }
        let s = vstd::slice::slice_subrange(self.bytes.as_slice(), 0, self.len);
        null_position(s)
    }

    pub fn encode_parameter_data(&self, buf: &mut [u8]) -> (r: Result<usize, ParameterDataError>)
        ensures
            encoded_into(old(buf)@, final(buf)@, self.spec_encode(), r),
    {
        proof {
            use_type_invariant(self);
        }
        let s = vstd::slice::slice_subrange(self.bytes.as_slice(), 0, self.len);
        copy_encoded(buf, truncate_at_null(s))
    }

    pub fn decode_parameter_data(buf: &[u8]) -> (r: Result<Self, ParameterDataError>)
        ensures
            r == Self::spec_decode(buf@),
            r matches Ok(l) ==> l.spec_bytes() == truncated_at_null(buf@),
    {
        let content = truncate_at_null(buf);
        if content.len() > 32 {
            return Err(ParameterDataError::StringTooLong { length: content.len(), max_length: 32 });
        }
        match str_from_utf8(content) {
            Some(_) => Ok(Self::of_bytes(content)),
            None => Err(ParameterDataError::InvalidUtf8),
        }
    }

    /// Decoding the wire form of a label without zero bytes gives the label back.
    pub proof fn lemma_roundtrip(self)
        requires
            self.wf(),
            has_no_null(self.spec_bytes()),
        ensures
            Self::spec_decode(self.spec_encode()) == Ok::<Self, ParameterDataError>(self),
    {
        lemma_truncated_at_null_prefix(self.spec_bytes(), self.spec_bytes().len() as int);
        assert(self.spec_bytes().subrange(0, self.spec_bytes().len() as int) =~= self.spec_bytes());
        Self::lemma_determined_by_bytes(self, Self::spec_of_bytes(self.spec_bytes()));
    }

    /// The wire form is no longer than 32 bytes.
    pub proof fn lemma_encode_len(self)
        requires
            self.wf(),
        ensures
            self.spec_encode().len() <= 32,
    {
        lemma_truncated_at_null_shape(self.spec_bytes());
    }

    /// Whether decoding the wire form gives the label back: it holds no zero byte.
    pub open spec fn spec_encodable(self) -> bool {
        self.wf() && has_no_null(self.spec_bytes())
    }

    /// The bytes followed by zeros up to 32 bytes.
    pub closed spec fn spec_padded(self) -> Seq<u8> {
        self.bytes@
    }

    /// Appends the wire form to `out`.
    pub fn write_encoded(&self, out: &mut Vec<u8>)
        ensures
            final(out)@ == old(out)@ + self.spec_encode(),
    {
        proof {
            use_type_invariant(self);
        }
        let s = vstd::slice::slice_subrange(self.bytes.as_slice(), 0, self.len);
        extend_from(out, truncate_at_null(s));
    }
}

impl<'a> FixedWire<'a> for BootSoftwareVersionLabel {
    open spec fn spec_size() -> nat {
        32
    }

    open spec fn spec_wire(&self) -> Seq<u8> {
        self.spec_padded()
    }

    open spec fn spec_read(bytes: Seq<u8>) -> Option<Self> {
        match Self::spec_decode(bytes) {
            Ok(l) => Some(l),
            Err(_) => None,
        }
    }

    open spec fn spec_wire_valid(&self) -> bool {
        self.spec_encodable()
    }

    fn wire_size() -> (n: usize) {
        32
    }

    fn write_wire(&self, out: &mut Vec<u8>) {
        proof {
            use_type_invariant(self);
        }
        extend_from(out, self.bytes.as_slice());
    }

    fn read_wire(buf: &'a [u8], pos: usize) -> (r: Option<Self>) {
        let _len = buf.len();
        let s = vstd::slice::slice_subrange(buf, pos, pos + 32);
        match Self::decode_parameter_data(s) {
            Ok(l) => Some(l),
            Err(_) => None,
        }
    }

    proof fn lemma_wire(&self) {
        if self.spec_encodable() {
            let b = self.spec_bytes();
            let p = self.bytes@;
            assert(p.subrange(0, self.len as int) =~= b);
            assert forall|i: int| 0 <= i < self.len implies p[i] != 0 by {
                assert(p[i] == b[i]);
            }
            assert(self.len < 32 ==> p[self.len as int] == 0);
            assert(has_no_null(p.subrange(0, self.len as int)));
            lemma_truncated_at_null_prefix(p, self.len as int);
            Self::lemma_determined_by_bytes(*self, Self::spec_of_bytes(b));
        }
    }
}

/// A bounded string of at most 32 bytes of UTF-8.
#[derive(Clone, Copy, Debug, PartialEq, Eq)]
pub struct StatusIdDescription {
    len: usize,
    bytes: [u8; 32],
}

impl StatusIdDescription {
    pub const MAX_LENGTH: usize = 32;

    #[verifier::type_invariant]
    pub closed spec fn wf(self) -> bool {
        &&& self.len <= 32
        &&& vstd::utf8::valid_utf8(self.bytes@.subrange(0, self.len as int))
        &&& forall|i: int| self.len <= i < 32 ==> self.bytes@[i] == 0
    }

    /// The UTF-8 bytes of the string.
    pub closed spec fn spec_bytes(self) -> Seq<u8> {
        self.bytes@.subrange(0, self.len as int)
    }

    /// The label whose bytes are `content`, when they fit and are UTF-8.
    pub closed spec fn spec_of_bytes(content: Seq<u8>) -> Self {
        choose|l: Self| l.wf() && l.spec_bytes() == content
    }

    /// A label is determined by its bytes.
    pub proof fn lemma_determined_by_bytes(a: Self, b: Self)
        requires
            a.wf(),
            b.wf(),
            a.spec_bytes() == b.spec_bytes(),
        ensures
            a == b,
    {
        assert forall|i: int| 0 <= i < 32 implies a.bytes@[i] == b.bytes@[i] by {
            if i < a.len {
                assert(a.bytes@[i] == a.spec_bytes()[i]);
                assert(b.bytes@[i] == b.spec_bytes()[i]);
            }
        }
        assert(a.bytes =~= b.bytes);
    }

    /// The label that holds `content` holds exactly those bytes, when they fit and are UTF-8.
    pub proof fn lemma_of_bytes(content: Seq<u8>)
        requires
            content.len() <= 32,
            vstd::utf8::valid_utf8(content),
        ensures
            Self::spec_of_bytes(content).wf(),
            Self::spec_of_bytes(content).spec_bytes() == content,
    {
        let bytes = spec_padded_array::<32>(content, content.len());
        lemma_padded_array::<32>(content, content.len());
        let l = StatusIdDescription { len: content.len() as usize, bytes };
        assert(l.bytes@.subrange(0, l.len as int) =~= content);
        assert(l.wf() && l.spec_bytes() == content);
    }

    fn of_bytes(content: &[u8]) -> (r: Self)
        requires
            content@.len() <= 32,
            vstd::utf8::valid_utf8(content@),
        ensures
            r == Self::spec_of_bytes(content@),
            r.spec_bytes() == content@,
    {
        let mut bytes = [0u8; 32];
        proof {
            vstd::array::axiom_spec_array_fill_for_copy_type::<u8, 32>(0u8);
        }
        let mut i: usize = 0;
        while i < content.len()
            invariant
                i <= content@.len(),
                content@.len() <= 32,
                forall|j: int| 0 <= j < i ==> bytes@[j] == content@[j],
                forall|j: int| i <= j < 32 ==> bytes@[j] == 0,
            decreases content@.len() - i,
        {
            bytes[i] = content[i];
            i = i + 1;
        }
        proof {
            assert(bytes@.subrange(0, content@.len() as int) =~= content@);
        }
        let r = StatusIdDescription { len: content.len(), bytes };
        proof {
            Self::lemma_determined_by_bytes(r, Self::spec_of_bytes(content@));
        }
        r
    }

    /// Makes a label of `s`, failing when it is longer than 32 bytes.
    pub fn new(s: &str) -> (r: Result<Self, RdmError>)
        ensures
            s.spec_bytes().len() <= 32 ==> r == Ok::<Self, RdmError>(Self::spec_of_bytes(s.spec_bytes())),
            r matches Ok(l) ==> l.spec_bytes() == s.spec_bytes(),
            s.spec_bytes().len() > 32 ==> r == Err::<Self, RdmError>(
                RdmError::InvalidStringLength(s.spec_bytes().len() as usize, 32),
            ),
    {
        let b = s.as_bytes();
        if b.len() > 32 {
            return Err(RdmError::InvalidStringLength(b.len(), 32));
        }
        proof {
            vstd::utf8::encode_utf8_valid_utf8(s@);
        }
        Ok(Self::of_bytes(b))
    }

    /// Makes a label of `s` without its trailing zero characters, failing when it is longer than 32 bytes.
    pub fn from_str(s: &str) -> (r: Result<Self, ParameterDataError>)
        ensures
            trimmed_trailing_nulls(s.spec_bytes()).len() <= 32 ==> r == Ok::<Self, ParameterDataError>(
                Self::spec_of_bytes(trimmed_trailing_nulls(s.spec_bytes())),
            ),
            r matches Ok(l) ==> l.spec_bytes() == trimmed_trailing_nulls(s.spec_bytes()),
            trimmed_trailing_nulls(s.spec_bytes()).len() > 32 ==> r == Err::<Self, ParameterDataError>(
                ParameterDataError::StringTooLong {
                    length: trimmed_trailing_nulls(s.spec_bytes()).len() as usize,
                    max_length: 32,
                },
            ),
    {
        let b = s.as_bytes();
        let t = trim_trailing_nulls(b);
        if t.len() > 32 {
            return Err(ParameterDataError::StringTooLong { length: t.len(), max_length: 32 });
        }
        proof {
            vstd::utf8::encode_utf8_valid_utf8(s@);
            lemma_trim_trailing_nulls_valid_utf8(s.spec_bytes());
        }
        Ok(Self::of_bytes(t))
    }

    /// The label as a string slice.
    pub fn as_str(&self) -> (r: &str)
        ensures
            r.spec_bytes() == self.spec_bytes(),
    {
        proof {
            use_type_invariant(self);
        }
        let s = vstd::slice::slice_subrange(self.bytes.as_slice(), 0, self.len);
        match str_from_utf8(s) {
            Some(r) => r,
            None => {
                proof {
                    assert(false);
                }
                ""
            },
        }
    }

    /// The UTF-8 bytes of the label.
    pub fn as_bytes(&self) -> (r: &[u8])
        ensures
            r@ == self.spec_bytes(),
    {
        proof {
            use_type_invariant(self);
        }
        vstd::slice::slice_subrange(self.bytes.as_slice(), 0, self.len)
    }

    /// The length in bytes.
    pub fn len(&self) -> (n: usize)
        ensures
            n == self.spec_bytes().len(),
    {
        proof {
            use_type_invariant(self);
        }
        self.len
    }

    pub fn is_empty(&self) -> (b: bool)
        ensures
            b == (self.spec_bytes().len() == 0),
    {
        proof {
            use_type_invariant(self);
        }
        self.len == 0
    }

    /// The wire form: the bytes up to the first zero byte.
    pub open spec fn spec_encode(self) -> Seq<u8> {
        truncated_at_null(self.spec_bytes())
    }

    /// The label carried by `buf`: its bytes up to the first zero byte, when they are UTF-8 and fit.
    pub open spec fn spec_decode(buf: Seq<u8>) -> Result<Self, ParameterDataError> {
        let content = truncated_at_null(buf);
        if content.len() > 32 {
            Err(ParameterDataError::StringTooLong { length: content.len() as usize, max_length: 32 })
        } else if !vstd::utf8::valid_utf8(content) {
            Err(ParameterDataError::InvalidUtf8)
        } else {
            Ok(Self::spec_of_bytes(content))
        }
    }

    /// The parameter data of a text without a zero byte is the text itself, and a text of at most
    /// 32 bytes of UTF-8 without a zero byte decodes to the value holding that text; whatever
    /// follows a zero byte is not read.
    pub proof fn lemma_text_codec(self, text: Seq<u8>)
        ensures
            has_no_null(self.spec_bytes()) ==> self.spec_encode() == self.spec_bytes(),
            text.len() <= 32 && has_no_null(text) && vstd::utf8::valid_utf8(text) ==> (Self::spec_decode(text) matches Ok(l)
                && l.spec_bytes() == text),
            forall|rest: Seq<u8>| #![auto] has_no_null(text) ==> Self::spec_decode(text + seq![0u8] + rest) == Self::spec_decode(text),
    {
        let b = self.spec_bytes();
        if has_no_null(b) {
            assert(b.subrange(0, b.len() as int) =~= b);
            lemma_truncated_at_null_prefix(b, b.len() as int);
        }
        if has_no_null(text) {
            assert(text.subrange(0, text.len() as int) =~= text);
            lemma_truncated_at_null_prefix(text, text.len() as int);
            if text.len() <= 32 && vstd::utf8::valid_utf8(text) {
                Self::lemma_of_bytes(text);
            }
            assert forall|rest: Seq<u8>| #![auto] Self::spec_decode(text + seq![0u8] + rest) == Self::spec_decode(text) by {
                let w = text + seq![0u8] + rest;
                assert(w.subrange(0, text.len() as int) =~= text);
                lemma_truncated_at_null_prefix(w, text.len() as int);
            }
        }
    }

    pub fn size_of(&self) -> (n: usize)
        ensures
            n == self.spec_encode().len(),
    {
        proof {
            use_type_invariant(self);
        }
        let s = vstd::slice::slice_subrange(self.bytes.as_slice(), 0, self.len);
        null_position(s)
    }

    pub fn encode_parameter_data(&self, buf: &mut [u8]) -> (r: Result<usize, ParameterDataError>)
        ensures
            encoded_into(old(buf)@, final(buf)@, self.spec_encode(), r),
    {
        proof {
            use_type_invariant(self);
        }
        let s = vstd::slice::slice_subrange(self.bytes.as_slice(), 0, self.len);
        copy_encoded(buf, truncate_at_null(s))
    }

    pub fn decode_parameter_data(buf: &[u8]) -> (r: Result<Self, ParameterDataError>)
        ensures
            r == Self::spec_decode(buf@),
            r matches Ok(l) ==> l.spec_bytes() == truncated_at_null(buf@),
    {
        let content = truncate_at_null(buf);
        if content.len() > 32 {
            return Err(ParameterDataError::StringTooLong { length: content.len(), max_length: 32 });
        }
        match str_from_utf8(content) {
            Some(_) => Ok(Self::of_bytes(content)),
            None => Err(ParameterDataError::InvalidUtf8),
        }
    }

    /// Decoding the wire form of a label without zero bytes gives the label back.
    pub proof fn lemma_roundtrip(self)
        requires
            self.wf(),
            has_no_null(self.spec_bytes()),
        ensures
            Self::spec_decode(self.spec_encode()) == Ok::<Self, ParameterDataError>(self),
    {
        lemma_truncated_at_null_prefix(self.spec_bytes(), self.spec_bytes().len() as int);
        assert(self.spec_bytes().subrange(0, self.spec_bytes().len() as int) =~= self.spec_bytes());
        Self::lemma_determined_by_bytes(self, Self::spec_of_bytes(self.spec_bytes()));
    }

    /// The wire form is no longer than 32 bytes.
    pub proof fn lemma_encode_len(self)
        requires
            self.wf(),
        ensures
            self.spec_encode().len() <= 32,
    {
        lemma_truncated_at_null_shape(self.spec_bytes());
    }

    /// Whether decoding the wire form gives the label back: it holds no zero byte.
    pub open spec fn spec_encodable(self) -> bool {
        self.wf() && has_no_null(self.spec_bytes())
    }

    /// The bytes followed by zeros up to 32 bytes.
    pub closed spec fn spec_padded(self) -> Seq<u8> {
        self.bytes@
    }

    /// Appends the wire form to `out`.
    pub fn write_encoded(&self, out: &mut Vec<u8>)
        ensures
            final(out)@ == old(out)@ + self.spec_encode(),
    {
        proof {
            use_type_invariant(self);
        }
        let s = vstd::slice::slice_subrange(self.bytes.as_slice(), 0, self.len);
        extend_from(out, truncate_at_null(s));
    }
}

impl<'a> FixedWire<'a> for StatusIdDescription {
    open spec fn spec_size() -> nat {
        32
    }

    open spec fn spec_wire(&self) -> Seq<u8> {
        self.spec_padded()
    }

    open spec fn spec_read(bytes: Seq<u8>) -> Option<Self> {
        match Self::spec_decode(bytes) {
            Ok(l) => Some(l),
            Err(_) => None,
        }
    }

    open spec fn spec_wire_valid(&self) -> bool {
        self.spec_encodable()
    }

    fn wire_size() -> (n: usize) {
        32
    }

    fn write_wire(&self, out: &mut Vec<u8>) {
        proof {
            use_type_invariant(self);
        }
        extend_from(out, self.bytes.as_slice());
    }

    fn read_wire(buf: &'a [u8], pos: usize) -> (r: Option<Self>) {
        let _len = buf.len();
        let s = vstd::slice::slice_subrange(buf, pos, pos + 32);
        match Self::decode_parameter_data(s) {
            Ok(l) => Some(l),
            Err(_) => None,
        }
    }

    proof fn lemma_wire(&self) {
        if self.spec_encodable() {
            let b = self.spec_bytes();
            let p = self.bytes@;
            assert(p.subrange(0, self.len as int) =~= b);
            assert forall|i: int| 0 <= i < self.len implies p[i] != 0 by {
                assert(p[i] == b[i]);
            }
            assert(self.len < 32 ==> p[self.len as int] == 0);
            assert(has_no_null(p.subrange(0, self.len as int)));
            lemma_truncated_at_null_prefix(p, self.len as int);
            Self::lemma_determined_by_bytes(*self, Self::spec_of_bytes(b));
        }
    }
}

/// A bounded string of at most 32 bytes of UTF-8.
#[derive(Clone, Copy, Debug, PartialEq, Eq)]
pub struct SlotDescription {
    len: usize,
    bytes: [u8; 32],
}

impl SlotDescription {
    pub const MAX_LENGTH: usize = 32;

    #[verifier::type_invariant]
    pub closed spec fn wf(self) -> bool {
        &&& self.len <= 32
        &&& vstd::utf8::valid_utf8(self.bytes@.subrange(0, self.len as int))
        &&& forall|i: int| self.len <= i < 32 ==> self.bytes@[i] == 0
    }

    /// The UTF-8 bytes of the string.
    pub closed spec fn spec_bytes(self) -> Seq<u8> {
        self.bytes@.subrange(0, self.len as int)
    }

    /// The label whose bytes are `content`, when they fit and are UTF-8.
    pub closed spec fn spec_of_bytes(content: Seq<u8>) -> Self {
        choose|l: Self| l.wf() && l.spec_bytes() == content
    }

    /// A label is determined by its bytes.
    pub proof fn lemma_determined_by_bytes(a: Self, b: Self)
        requires
            a.wf(),
            b.wf(),
            a.spec_bytes() == b.spec_bytes(),
        ensures
            a == b,
    {
        assert forall|i: int| 0 <= i < 32 implies a.bytes@[i] == b.bytes@[i] by {
            if i < a.len {
                assert(a.bytes@[i] == a.spec_bytes()[i]);
                assert(b.bytes@[i] == b.spec_bytes()[i]);
            }
        }
        assert(a.bytes =~= b.bytes);
    }

    /// The label that holds `content` holds exactly those bytes, when they fit and are UTF-8.
    pub proof fn lemma_of_bytes(content: Seq<u8>)
        requires
            content.len() <= 32,
            vstd::utf8::valid_utf8(content),
        ensures
            Self::spec_of_bytes(content).wf(),
            Self::spec_of_bytes(content).spec_bytes() == content,
    {
        let bytes = spec_padded_array::<32>(content, content.len());
        lemma_padded_array::<32>(content, content.len());
        let l = SlotDescription { len: content.len() as usize, bytes };
        assert(l.bytes@.subrange(0, l.len as int) =~= content);
        assert(l.wf() && l.spec_bytes() == content);
    }

    fn of_bytes(content: &[u8]) -> (r: Self)
        requires
            content@.len() <= 32,
            vstd::utf8::valid_utf8(content@),
        ensures
            r == Self::spec_of_bytes(content@),
            r.spec_bytes() == content@,
    {
        let mut bytes = [0u8; 32];
        proof {
            vstd::array::axiom_spec_array_fill_for_copy_type::<u8, 32>(0u8);
        }
        let mut i: usize = 0;
        while i < content.len()
            invariant
                i <= content@.len(),
                content@.len() <= 32,
                forall|j: int| 0 <= j < i ==> bytes@[j] == content@[j],
                forall|j: int| i <= j < 32 ==> bytes@[j] == 0,
            decreases content@.len() - i,
        {
            bytes[i] = content[i];
            i = i + 1;
        }
        proof {
            assert(bytes@.subrange(0, content@.len() as int) =~= content@);
        }
        let r = SlotDescription { len: content.len(), bytes };
        proof {
            Self::lemma_determined_by_bytes(r, Self::spec_of_bytes(content@));
        }
        r
    }

    /// Makes a label of `s`, failing when it is longer than 32 bytes.
    pub fn new(s: &str) -> (r: Result<Self, RdmError>)
        ensures
            s.spec_bytes().len() <= 32 ==> r == Ok::<Self, RdmError>(Self::spec_of_bytes(s.spec_bytes())),
            r matches Ok(l) ==> l.spec_bytes() == s.spec_bytes(),
            s.spec_bytes().len() > 32 ==> r == Err::<Self, RdmError>(
                RdmError::InvalidStringLength(s.spec_bytes().len() as usize, 32),
            ),
    {
        let b = s.as_bytes();
        if b.len() > 32 {
            return Err(RdmError::InvalidStringLength(b.len(), 32));
        }
        proof {
            vstd::utf8::encode_utf8_valid_utf8(s@);
        }
        Ok(Self::of_bytes(b))
    }

    /// Makes a label of `s` without its trailing zero characters, failing when it is longer than 32 bytes.
    pub fn from_str(s: &str) -> (r: Result<Self, ParameterDataError>)
        ensures
            trimmed_trailing_nulls(s.spec_bytes()).len() <= 32 ==> r == Ok::<Self, ParameterDataError>(
                Self::spec_of_bytes(trimmed_trailing_nulls(s.spec_bytes())),
            ),
            r matches Ok(l) ==> l.spec_bytes() == trimmed_trailing_nulls(s.spec_bytes()),
            trimmed_trailing_nulls(s.spec_bytes()).len() > 32 ==> r == Err::<Self, ParameterDataError>(
                ParameterDataError::StringTooLong {
                    length: trimmed_trailing_nulls(s.spec_bytes()).len() as usize,
                    max_length: 32,
                },
            ),
    {
        let b = s.as_bytes();
        let t = trim_trailing_nulls(b);
        if t.len() > 32 {
            return Err(ParameterDataError::StringTooLong { length: t.len(), max_length: 32 });
        }
        proof {
            vstd::utf8::encode_utf8_valid_utf8(s@);
            lemma_trim_trailing_nulls_valid_utf8(s.spec_bytes());
        }
        Ok(Self::of_bytes(t))
    }

    /// The label as a string slice.
    pub fn as_str(&self) -> (r: &str)
        ensures
            r.spec_bytes() == self.spec_bytes(),
    {
        proof {
            use_type_invariant(self);
        }
        let s = vstd::slice::slice_subrange(self.bytes.as_slice(), 0, self.len);
        match str_from_utf8(s) {
            Some(r) => r,
            None => {
                proof {
                    assert(false);
                }
                ""
            },
        }
    }

    /// The UTF-8 bytes of the label.
    pub fn as_bytes(&self) -> (r: &[u8])
        ensures
            r@ == self.spec_bytes(),
    {
        proof {
            use_type_invariant(self);
        }
        vstd::slice::slice_subrange(self.bytes.as_slice(), 0, self.len)
    }

    /// The length in bytes.
    pub fn len(&self) -> (n: usize)
        ensures
            n == self.spec_bytes().len(),
    {
        proof {
            use_type_invariant(self);
        }
        self.len
    }

    pub fn is_empty(&self) -> (b: bool)
        ensures
            b == (self.spec_bytes().len() == 0),
    {
        proof {
            use_type_invariant(self);
        }
        self.len == 0
    }

    /// The wire form: the bytes up to the first zero byte.
    pub open spec fn spec_encode(self) -> Seq<u8> {
        truncated_at_null(self.spec_bytes())
    }

    /// The label carried by `buf`: its bytes up to the first zero byte, when they are UTF-8 and fit.
    pub open spec fn spec_decode(buf: Seq<u8>) -> Result<Self, ParameterDataError> {
        let content = truncated_at_null(buf);
        if content.len() > 32 {
            Err(ParameterDataError::StringTooLong { length: content.len() as usize, max_length: 32 })
        } else if !vstd::utf8::valid_utf8(content) {
            Err(ParameterDataError::InvalidUtf8)
        } else {
            Ok(Self::spec_of_bytes(content))
        }
    }

    /// The parameter data of a text without a zero byte is the text itself, and a text of at most
    /// 32 bytes of UTF-8 without a zero byte decodes to the value holding that text; whatever
    /// follows a zero byte is not read.
    pub proof fn lemma_text_codec(self, text: Seq<u8>)
        ensures
            has_no_null(self.spec_bytes()) ==> self.spec_encode() == self.spec_bytes(),
            text.len() <= 32 && has_no_null(text) && vstd::utf8::valid_utf8(text) ==> (Self::spec_decode(text) matches Ok(l)
                && l.spec_bytes() == text),
            forall|rest: Seq<u8>| #![auto] has_no_null(text) ==> Self::spec_decode(text + seq![0u8] + rest) == Self::spec_decode(text),
    {
        let b = self.spec_bytes();
        if has_no_null(b) {
            assert(b.subrange(0, b.len() as int) =~= b);
            lemma_truncated_at_null_prefix(b, b.len() as int);
        }
        if has_no_null(text) {
            assert(text.subrange(0, text.len() as int) =~= text);
            lemma_truncated_at_null_prefix(text, text.len() as int);
            if text.len() <= 32 && vstd::utf8::valid_utf8(text) {
                Self::lemma_of_bytes(text);
            }
            assert forall|rest: Seq<u8>| #![auto] Self::spec_decode(text + seq![0u8] + rest) == Self::spec_decode(text) by {
                let w = text + seq![0u8] + rest;
                assert(w.subrange(0, text.len() as int) =~= text);
                lemma_truncated_at_null_prefix(w, text.len() as int);
            }
        }
    }

    pub fn size_of(&self) -> (n: usize)
        ensures
            n == self.spec_encode().len(),
    {
        proof {
            use_type_invariant(self);
        }
        let s = vstd::slice::slice_subrange(self.bytes.as_slice(), 0, self.len);
        null_position(s)
    }

    pub fn encode_parameter_data(&self, buf: &mut [u8]) -> (r: Result<usize, ParameterDataError>)
        ensures
            encoded_into(old(buf)@, final(buf)@, self.spec_encode(), r),
    {
        proof {
            use_type_invariant(self);
        }
        let s = vstd::slice::slice_subrange(self.bytes.as_slice(), 0, self.len);
        copy_encoded(buf, truncate_at_null(s))
    }

    pub fn decode_parameter_data(buf: &[u8]) -> (r: Result<Self, ParameterDataError>)
        ensures
            r == Self::spec_decode(buf@),
            r matches Ok(l) ==> l.spec_bytes() == truncated_at_null(buf@),
    {
        let content = truncate_at_null(buf);
        if content.len() > 32 {
            return Err(ParameterDataError::StringTooLong { length: content.len(), max_length: 32 });
        }
        match str_from_utf8(content) {
            Some(_) => Ok(Self::of_bytes(content)),
            None => Err(ParameterDataError::InvalidUtf8),
        }
    }

    /// Decoding the wire form of a label without zero bytes gives the label back.
    pub proof fn lemma_roundtrip(self)
        requires
            self.wf(),
            has_no_null(self.spec_bytes()),
        ensures
            Self::spec_decode(self.spec_encode()) == Ok::<Self, ParameterDataError>(self),
    {
        lemma_truncated_at_null_prefix(self.spec_bytes(), self.spec_bytes().len() as int);
        assert(self.spec_bytes().subrange(0, self.spec_bytes().len() as int) =~= self.spec_bytes());
        Self::lemma_determined_by_bytes(self, Self::spec_of_bytes(self.spec_bytes()));
    }

    /// The wire form is no longer than 32 bytes.
    pub proof fn lemma_encode_len(self)
        requires
            self.wf(),
        ensures
            self.spec_encode().len() <= 32,
    {
        lemma_truncated_at_null_shape(self.spec_bytes());
    }

    /// Whether decoding the wire form gives the label back: it holds no zero byte.
    pub open spec fn spec_encodable(self) -> bool {
        self.wf() && has_no_null(self.spec_bytes())
    }

    /// The bytes followed by zeros up to 32 bytes.
    pub closed spec fn spec_padded(self) -> Seq<u8> {
        self.bytes@
    }

    /// Appends the wire form to `out`.
    pub fn write_encoded(&self, out: &mut Vec<u8>)
        ensures
            final(out)@ == old(out)@ + self.spec_encode(),
    {
        proof {
            use_type_invariant(self);
        }
        let s = vstd::slice::slice_subrange(self.bytes.as_slice(), 0, self.len);
        extend_from(out, truncate_at_null(s));
    }
}

impl<'a> FixedWire<'a> for SlotDescription {
    open spec fn spec_size() -> nat {
        32
    }

    open spec fn spec_wire(&self) -> Seq<u8> {
        self.spec_padded()
    }

    open spec fn spec_read(bytes: Seq<u8>) -> Option<Self> {
        match Self::spec_decode(bytes) {
            Ok(l) => Some(l),
            Err(_) => None,
        }
    }

    open spec fn spec_wire_valid(&self) -> bool {
        self.spec_encodable()
    }

    fn wire_size() -> (n: usize) {
        32
    }

    fn write_wire(&self, out: &mut Vec<u8>) {
        proof {
            use_type_invariant(self);
        }
        extend_from(out, self.bytes.as_slice());
    }

    fn read_wire(buf: &'a [u8], pos: usize) -> (r: Option<Self>) {
        let _len = buf.len();
        let s = vstd::slice::slice_subrange(buf, pos, pos + 32);
        match Self::decode_parameter_data(s) {
            Ok(l) => Some(l),
            Err(_) => None,
        }
    }

    proof fn lemma_wire(&self) {
        if self.spec_encodable() {
            let b = self.spec_bytes();
            let p = self.bytes@;
            assert(p.subrange(0, self.len as int) =~= b);
            assert forall|i: int| 0 <= i < self.len implies p[i] != 0 by {
                assert(p[i] == b[i]);
            }
            assert(self.len < 32 ==> p[self.len as int] == 0);
            assert(has_no_null(p.subrange(0, self.len as int)));
            lemma_truncated_at_null_prefix(p, self.len as int);
            Self::lemma_determined_by_bytes(*self, Self::spec_of_bytes(b));
        }
    }
}

/// A bounded string of at most 32 bytes of UTF-8.
#[derive(Clone, Copy, Debug, PartialEq, Eq)]
pub struct SensorDefinitionDescription {
    len: usize,
    bytes: [u8; 32],
}

impl SensorDefinitionDescription {
    pub const MAX_LENGTH: usize = 32;

    #[verifier::type_invariant]
    pub closed spec fn wf(self) -> bool {
        &&& self.len <= 32
        &&& vstd::utf8::valid_utf8(self.bytes@.subrange(0, self.len as int))
        &&& forall|i: int| self.len <= i < 32 ==> self.bytes@[i] == 0
    }

    /// The UTF-8 bytes of the string.
    pub closed spec fn spec_bytes(self) -> Seq<u8> {
        self.bytes@.subrange(0, self.len as int)
    }

    /// The label whose bytes are `content`, when they fit and are UTF-8.
    pub closed spec fn spec_of_bytes(content: Seq<u8>) -> Self {
        choose|l: Self| l.wf() && l.spec_bytes() == content
    }

    /// A label is determined by its bytes.
    pub proof fn lemma_determined_by_bytes(a: Self, b: Self)
        requires
            a.wf(),
            b.wf(),
            a.spec_bytes() == b.spec_bytes(),
        ensures
            a == b,
    {
        assert forall|i: int| 0 <= i < 32 implies a.bytes@[i] == b.bytes@[i] by {
            if i < a.len {
                assert(a.bytes@[i] == a.spec_bytes()[i]);
                assert(b.bytes@[i] == b.spec_bytes()[i]);
            }
        }
        assert(a.bytes =~= b.bytes);
    }

    /// The label that holds `content` holds exactly those bytes, when they fit and are UTF-8.
    pub proof fn lemma_of_bytes(content: Seq<u8>)
        requires
            content.len() <= 32,
            vstd::utf8::valid_utf8(content),
        ensures
            Self::spec_of_bytes(content).wf(),
            Self::spec_of_bytes(content).spec_bytes() == content,
    {
        let bytes = spec_padded_array::<32>(content, content.len());
        lemma_padded_array::<32>(content, content.len());
        let l = SensorDefinitionDescription { len: content.len() as usize, bytes };
        assert(l.bytes@.subrange(0, l.len as int) =~= content);
        assert(l.wf() && l.spec_bytes() == content);
    }

    fn of_bytes(content: &[u8]) -> (r: Self)
        requires
            content@.len() <= 32,
            vstd::utf8::valid_utf8(content@),
        ensures
            r == Self::spec_of_bytes(content@),
            r.spec_bytes() == content@,
    {
        let mut bytes = [0u8; 32];
        proof {
            vstd::array::axiom_spec_array_fill_for_copy_type::<u8, 32>(0u8);
        }
        let mut i: usize = 0;
        while i < content.len()
            invariant
                i <= content@.len(),
                content@.len() <= 32,
                forall|j: int| 0 <= j < i ==> bytes@[j] == content@[j],
                forall|j: int| i <= j < 32 ==> bytes@[j] == 0,
            decreases content@.len() - i,
        {
            bytes[i] = content[i];
            i = i + 1;
        }
        proof {
            assert(bytes@.subrange(0, content@.len() as int) =~= content@);
        }
        let r = SensorDefinitionDescription { len: content.len(), bytes };
        proof {
            Self::lemma_determined_by_bytes(r, Self::spec_of_bytes(content@));
        }
        r
    }

    /// Makes a label of `s`, failing when it is longer than 32 bytes.
    pub fn new(s: &str) -> (r: Result<Self, RdmError>)
        ensures
            s.spec_bytes().len() <= 32 ==> r == Ok::<Self, RdmError>(Self::spec_of_bytes(s.spec_bytes())),
            r matches Ok(l) ==> l.spec_bytes() == s.spec_bytes(),
            s.spec_bytes().len() > 32 ==> r == Err::<Self, RdmError>(
                RdmError::InvalidStringLength(s.spec_bytes().len() as usize, 32),
            ),
    {
        let b = s.as_bytes();
        if b.len() > 32 {
            return Err(RdmError::InvalidStringLength(b.len(), 32));
        }
        proof {
            vstd::utf8::encode_utf8_valid_utf8(s@);
        }
        Ok(Self::of_bytes(b))
    }

    /// Makes a label of `s` without its trailing zero characters, failing when it is longer than 32 bytes.
    pub fn from_str(s: &str) -> (r: Result<Self, ParameterDataError>)
        ensures
            trimmed_trailing_nulls(s.spec_bytes()).len() <= 32 ==> r == Ok::<Self, ParameterDataError>(
                Self::spec_of_bytes(trimmed_trailing_nulls(s.spec_bytes())),
            ),
            r matches Ok(l) ==> l.spec_bytes() == trimmed_trailing_nulls(s.spec_bytes()),
            trimmed_trailing_nulls(s.spec_bytes()).len() > 32 ==> r == Err::<Self, ParameterDataError>(
                ParameterDataError::StringTooLong {
                    length: trimmed_trailing_nulls(s.spec_bytes()).len() as usize,
                    max_length: 32,
                },
            ),
    {
        let b = s.as_bytes();
        let t = trim_trailing_nulls(b);
        if t.len() > 32 {
            return Err(ParameterDataError::StringTooLong { length: t.len(), max_length: 32 });
        }
        proof {
            vstd::utf8::encode_utf8_valid_utf8(s@);
            lemma_trim_trailing_nulls_valid_utf8(s.spec_bytes());
        }
        Ok(Self::of_bytes(t))
    }

    /// The label as a string slice.
    pub fn as_str(&self) -> (r: &str)
        ensures
            r.spec_bytes() == self.spec_bytes(),
    {
        proof {
            use_type_invariant(self);
        }
        let s = vstd::slice::slice_subrange(self.bytes.as_slice(), 0, self.len);
        match str_from_utf8(s) {
            Some(r) => r,
            None => {
                proof {
                    assert(false);
                }
                ""
            },
        }
    }

    /// The UTF-8 bytes of the label.
    pub fn as_bytes(&self) -> (r: &[u8])
        ensures
            r@ == self.spec_bytes(),
    {
        proof {
            use_type_invariant(self);
        }
        vstd::slice::slice_subrange(self.bytes.as_slice(), 0, self.len)
    }

    /// The length in bytes.
    pub fn len(&self) -> (n: usize)
        ensures
            n == self.spec_bytes().len(),
    {
        proof {
            use_type_invariant(self);
        }
        self.len
    }

    pub fn is_empty(&self) -> (b: bool)
        ensures
            b == (self.spec_bytes().len() == 0),
    {
        proof {
            use_type_invariant(self);
        }
        self.len == 0
    }

    /// The wire form: the bytes up to the first zero byte.
    pub open spec fn spec_encode(self) -> Seq<u8> {
        truncated_at_null(self.spec_bytes())
    }

    /// The label carried by `buf`: its bytes up to the first zero byte, when they are UTF-8 and fit.
    pub open spec fn spec_decode(buf: Seq<u8>) -> Result<Self, ParameterDataError> {
        let content = truncated_at_null(buf);
        if content.len() > 32 {
            Err(ParameterDataError::StringTooLong { length: content.len() as usize, max_length: 32 })
        } else if !vstd::utf8::valid_utf8(content) {
            Err(ParameterDataError::InvalidUtf8)
        } else {
            Ok(Self::spec_of_bytes(content))
        }
    }

    /// The parameter data of a text without a zero byte is the text itself, and a text of at most
    /// 32 bytes of UTF-8 without a zero byte decodes to the value holding that text; whatever
    /// follows a zero byte is not read.
    pub proof fn lemma_text_codec(self, text: Seq<u8>)
        ensures
            has_no_null(self.spec_bytes()) ==> self.spec_encode() == self.spec_bytes(),
            text.len() <= 32 && has_no_null(text) && vstd::utf8::valid_utf8(text) ==> (Self::spec_decode(text) matches Ok(l)
                && l.spec_bytes() == text),
            forall|rest: Seq<u8>| #![auto] has_no_null(text) ==> Self::spec_decode(text + seq![0u8] + rest) == Self::spec_decode(text),
    {
        let b = self.spec_bytes();
        if has_no_null(b) {
            assert(b.subrange(0, b.len() as int) =~= b);
            lemma_truncated_at_null_prefix(b, b.len() as int);
        }
        if has_no_null(text) {
            assert(text.subrange(0, text.len() as int) =~= text);
            lemma_truncated_at_null_prefix(text, text.len() as int);
            if text.len() <= 32 && vstd::utf8::valid_utf8(text) {
                Self::lemma_of_bytes(text);
            }
            assert forall|rest: Seq<u8>| #![auto] Self::spec_decode(text + seq![0u8] + rest) == Self::spec_decode(text) by {
                let w = text + seq![0u8] + rest;
                assert(w.subrange(0, text.len() as int) =~= text);
                lemma_truncated_at_null_prefix(w, text.len() as int);
            }
        }
    }

    pub fn size_of(&self) -> (n: usize)
        ensures
            n == self.spec_encode().len(),
    {
        proof {
            use_type_invariant(self);
        }
        let s = vstd::slice::slice_subrange(self.bytes.as_slice(), 0, self.len);
        null_position(s)
    }

    pub fn encode_parameter_data(&self, buf: &mut [u8]) -> (r: Result<usize, ParameterDataError>)
        ensures
            encoded_into(old(buf)@, final(buf)@, self.spec_encode(), r),
    {
        proof {
            use_type_invariant(self);
        }
        let s = vstd::slice::slice_subrange(self.bytes.as_slice(), 0, self.len);
        copy_encoded(buf, truncate_at_null(s))
    }

    pub fn decode_parameter_data(buf: &[u8]) -> (r: Result<Self, ParameterDataError>)
        ensures
            r == Self::spec_decode(buf@),
            r matches Ok(l) ==> l.spec_bytes() == truncated_at_null(buf@),
    {
        let content = truncate_at_null(buf);
        if content.len() > 32 {
            return Err(ParameterDataError::StringTooLong { length: content.len(), max_length: 32 });
        }
        match str_from_utf8(content) {
            Some(_) => Ok(Self::of_bytes(content)),
            None => Err(ParameterDataError::InvalidUtf8),
        }
    }

    /// Decoding the wire form of a label without zero bytes gives the label back.
    pub proof fn lemma_roundtrip(self)
        requires
            self.wf(),
            has_no_null(self.spec_bytes()),
        ensures
            Self::spec_decode(self.spec_encode()) == Ok::<Self, ParameterDataError>(self),
    {
        lemma_truncated_at_null_prefix(self.spec_bytes(), self.spec_bytes().len() as int);
        assert(self.spec_bytes().subrange(0, self.spec_bytes().len() as int) =~= self.spec_bytes());
        Self::lemma_determined_by_bytes(self, Self::spec_of_bytes(self.spec_bytes()));
    }

    /// The wire form is no longer than 32 bytes.
    pub proof fn lemma_encode_len(self)
        requires
            self.wf(),
        ensures
            self.spec_encode().len() <= 32,
    {
        lemma_truncated_at_null_shape(self.spec_bytes());
    }

    /// Whether decoding the wire form gives the label back: it holds no zero byte.
    pub open spec fn spec_encodable(self) -> bool {
        self.wf() && has_no_null(self.spec_bytes())
    }

    /// The bytes followed by zeros up to 32 bytes.
    pub closed spec fn spec_padded(self) -> Seq<u8> {
        self.bytes@
    }

    /// Appends the wire form to `out`.
    pub fn write_encoded(&self, out: &mut Vec<u8>)
        ensures
            final(out)@ == old(out)@ + self.spec_encode(),
    {
        proof {
            use_type_invariant(self);
        }
        let s = vstd::slice::slice_subrange(self.bytes.as_slice(), 0, self.len);
        extend_from(out, truncate_at_null(s));
    }
}

impl<'a> FixedWire<'a> for SensorDefinitionDescription {
    open spec fn spec_size() -> nat {
        32
    }

    open spec fn spec_wire(&self) -> Seq<u8> {
        self.spec_padded()
    }

    open spec fn spec_read(bytes: Seq<u8>) -> Option<Self> {
        match Self::spec_decode(bytes) {
            Ok(l) => Some(l),
            Err(_) => None,
        }
    }

    open spec fn spec_wire_valid(&self) -> bool {
        self.spec_encodable()
    }

    fn wire_size() -> (n: usize) {
        32
    }

    fn write_wire(&self, out: &mut Vec<u8>) {
        proof {
            use_type_invariant(self);
        }
        extend_from(out, self.bytes.as_slice());
    }

    fn read_wire(buf: &'a [u8], pos: usize) -> (r: Option<Self>) {
        let _len = buf.len();
        let s = vstd::slice::slice_subrange(buf, pos, pos + 32);
        match Self::decode_parameter_data(s) {
            Ok(l) => Some(l),
            Err(_) => None,
        }
    }

    proof fn lemma_wire(&self) {
        if self.spec_encodable() {
            let b = self.spec_bytes();
            let p = self.bytes@;
            assert(p.subrange(0, self.len as int) =~= b);
            assert forall|i: int| 0 <= i < self.len implies p[i] != 0 by {
                assert(p[i] == b[i]);
            }
            assert(self.len < 32 ==> p[self.len as int] == 0);
            assert(has_no_null(p.subrange(0, self.len as int)));
            lemma_truncated_at_null_prefix(p, self.len as int);
            Self::lemma_determined_by_bytes(*self, Self::spec_of_bytes(b));
        }
    }
}

/// A bounded string of at most 32 bytes of UTF-8.
#[derive(Clone, Copy, Debug, PartialEq, Eq)]
pub struct SelfTestDescription {
    len: usize,
    bytes: [u8; 32],
}

impl SelfTestDescription {
    pub const MAX_LENGTH: usize = 32;

    #[verifier::type_invariant]
    pub closed spec fn wf(self) -> bool {
        &&& self.len <= 32
        &&& vstd::utf8::valid_utf8(self.bytes@.subrange(0, self.len as int))
        &&& forall|i: int| self.len <= i < 32 ==> self.bytes@[i] == 0
    }

    /// The UTF-8 bytes of the string.
    pub closed spec fn spec_bytes(self) -> Seq<u8> {
        self.bytes@.subrange(0, self.len as int)
    }

    /// The label whose bytes are `content`, when they fit and are UTF-8.
    pub closed spec fn spec_of_bytes(content: Seq<u8>) -> Self {
        choose|l: Self| l.wf() && l.spec_bytes() == content
    }

    /// A label is determined by its bytes.
    pub proof fn lemma_determined_by_bytes(a: Self, b: Self)
        requires
            a.wf(),
            b.wf(),
            a.spec_bytes() == b.spec_bytes(),
        ensures
            a == b,
    {
        assert forall|i: int| 0 <= i < 32 implies a.bytes@[i] == b.bytes@[i] by {
            if i < a.len {
                assert(a.bytes@[i] == a.spec_bytes()[i]);
                assert(b.bytes@[i] == b.spec_bytes()[i]);
            }
        }
        assert(a.bytes =~= b.bytes);
    }

    /// The label that holds `content` holds exactly those bytes, when they fit and are UTF-8.
    pub proof fn lemma_of_bytes(content: Seq<u8>)
        requires
            content.len() <= 32,
            vstd::utf8::valid_utf8(content),
        ensures
            Self::spec_of_bytes(content).wf(),
            Self::spec_of_bytes(content).spec_bytes() == content,
    {
        let bytes = spec_padded_array::<32>(content, content.len());
        lemma_padded_array::<32>(content, content.len());
        let l = SelfTestDescription { len: content.len() as usize, bytes };
        assert(l.bytes@.subrange(0, l.len as int) =~= content);
        assert(l.wf() && l.spec_bytes() == content);
    }

    fn of_bytes(content: &[u8]) -> (r: Self)
        requires
            content@.len() <= 32,
            vstd::utf8::valid_utf8(content@),
        ensures
            r == Self::spec_of_bytes(content@),
            r.spec_bytes() == content@,
    {
        let mut bytes = [0u8; 32];
        proof {
            vstd::array::axiom_spec_array_fill_for_copy_type::<u8, 32>(0u8);
        }
        let mut i: usize = 0;
        while i < content.len()
            invariant
                i <= content@.len(),
                content@.len() <= 32,
                forall|j: int| 0 <= j < i ==> bytes@[j] == content@[j],
                forall|j: int| i <= j < 32 ==> bytes@[j] == 0,
            decreases content@.len() - i,
        {
            bytes[i] = content[i];
            i = i + 1;
        }
        proof {
            assert(bytes@.subrange(0, content@.len() as int) =~= content@);
        }
        let r = SelfTestDescription { len: content.len(), bytes };
        proof {
            Self::lemma_determined_by_bytes(r, Self::spec_of_bytes(content@));
        }
        r
    }

    /// Makes a label of `s`, failing when it is longer than 32 bytes.
    pub fn new(s: &str) -> (r: Result<Self, RdmError>)
        ensures
            s.spec_bytes().len() <= 32 ==> r == Ok::<Self, RdmError>(Self::spec_of_bytes(s.spec_bytes())),
            r matches Ok(l) ==> l.spec_bytes() == s.spec_bytes(),
            s.spec_bytes().len() > 32 ==> r == Err::<Self, RdmError>(
                RdmError::InvalidStringLength(s.spec_bytes().len() as usize, 32),
            ),
    {
        let b = s.as_bytes();
        if b.len() > 32 {
            return Err(RdmError::InvalidStringLength(b.len(), 32));
        }
        proof {
            vstd::utf8::encode_utf8_valid_utf8(s@);
        }
        Ok(Self::of_bytes(b))
    }

    /// Makes a label of `s` without its trailing zero characters, failing when it is longer than 32 bytes.
    pub fn from_str(s: &str) -> (r: Result<Self, ParameterDataError>)
        ensures
            trimmed_trailing_nulls(s.spec_bytes()).len() <= 32 ==> r == Ok::<Self, ParameterDataError>(
                Self::spec_of_bytes(trimmed_trailing_nulls(s.spec_bytes())),
            ),
            r matches Ok(l) ==> l.spec_bytes() == trimmed_trailing_nulls(s.spec_bytes()),
            trimmed_trailing_nulls(s.spec_bytes()).len() > 32 ==> r == Err::<Self, ParameterDataError>(
                ParameterDataError::StringTooLong {
                    length: trimmed_trailing_nulls(s.spec_bytes()).len() as usize,
                    max_length: 32,
                },
            ),
    {
        let b = s.as_bytes();
        let t = trim_trailing_nulls(b);
        if t.len() > 32 {
            return Err(ParameterDataError::StringTooLong { length: t.len(), max_length: 32 });
        }
        proof {
            vstd::utf8::encode_utf8_valid_utf8(s@);
            lemma_trim_trailing_nulls_valid_utf8(s.spec_bytes());
        }
        Ok(Self::of_bytes(t))
    }

    /// The label as a string slice.
    pub fn as_str(&self) -> (r: &str)
        ensures
            r.spec_bytes() == self.spec_bytes(),
    {
        proof {
            use_type_invariant(self);
        }
        let s = vstd::slice::slice_subrange(self.bytes.as_slice(), 0, self.len);
        match str_from_utf8(s) {
            Some(r) => r,
            None => {
                proof {
                    assert(false);
                }
                ""
            },
        }
    }

    /// The UTF-8 bytes of the label.
    pub fn as_bytes(&self) -> (r: &[u8])
        ensures
            r@ == self.spec_bytes(),
    {
        proof {
            use_type_invariant(self);
        }
        vstd::slice::slice_subrange(self.bytes.as_slice(), 0, self.len)
    }

    /// The length in bytes.
    pub fn len(&self) -> (n: usize)
        ensures
            n == self.spec_bytes().len(),
    {
        proof {
            use_type_invariant(self);
        }
        self.len
    }

    pub fn is_empty(&self) -> (b: bool)
        ensures
            b == (self.spec_bytes().len() == 0),
    {
        proof {
            use_type_invariant(self);
        }
        self.len == 0
    }

    /// The wire form: the bytes up to the first zero byte.
    pub open spec fn spec_encode(self) -> Seq<u8> {
        truncated_at_null(self.spec_bytes())
    }

    /// The label carried by `buf`: its bytes up to the first zero byte, when they are UTF-8 and fit.
    pub open spec fn spec_decode(buf: Seq<u8>) -> Result<Self, ParameterDataError> {
        let content = truncated_at_null(buf);
        if content.len() > 32 {
            Err(ParameterDataError::StringTooLong { length: content.len() as usize, max_length: 32 })
        } else if !vstd::utf8::valid_utf8(content) {
            Err(ParameterDataError::InvalidUtf8)
        } else {
            Ok(Self::spec_of_bytes(content))
        }
    }

    /// The parameter data of a text without a zero byte is the text itself, and a text of at most
    /// 32 bytes of UTF-8 without a zero byte decodes to the value holding that text; whatever
    /// follows a zero byte is not read.
    pub proof fn lemma_text_codec(self, text: Seq<u8>)
        ensures
            has_no_null(self.spec_bytes()) ==> self.spec_encode() == self.spec_bytes(),
            text.len() <= 32 && has_no_null(text) && vstd::utf8::valid_utf8(text) ==> (Self::spec_decode(text) matches Ok(l)
                && l.spec_bytes() == text),
            forall|rest: Seq<u8>| #![auto] has_no_null(text) ==> Self::spec_decode(text + seq![0u8] + rest) == Self::spec_decode(text),
    {
        let b = self.spec_bytes();
        if has_no_null(b) {
            assert(b.subrange(0, b.len() as int) =~= b);
            lemma_truncated_at_null_prefix(b, b.len() as int);
        }
        if has_no_null(text) {
            assert(text.subrange(0, text.len() as int) =~= text);
            lemma_truncated_at_null_prefix(text, text.len() as int);
            if text.len() <= 32 && vstd::utf8::valid_utf8(text) {
                Self::lemma_of_bytes(text);
            }
            assert forall|rest: Seq<u8>| #![auto] Self::spec_decode(text + seq![0u8] + rest) == Self::spec_decode(text) by {
                let w = text + seq![0u8] + rest;
                assert(w.subrange(0, text.len() as int) =~= text);
                lemma_truncated_at_null_prefix(w, text.len() as int);
            }
        }
    }

    pub fn size_of(&self) -> (n: usize)
        ensures
            n == self.spec_encode().len(),
    {
        proof {
            use_type_invariant(self);
        }
        let s = vstd::slice::slice_subrange(self.bytes.as_slice(), 0, self.len);
        null_position(s)
    }

    pub fn encode_parameter_data(&self, buf: &mut [u8]) -> (r: Result<usize, ParameterDataError>)
        ensures
            encoded_into(old(buf)@, final(buf)@, self.spec_encode(), r),
    {
        proof {
            use_type_invariant(self);
        }
        let s = vstd::slice::slice_subrange(self.bytes.as_slice(), 0, self.len);
        copy_encoded(buf, truncate_at_null(s))
    }

    pub fn decode_parameter_data(buf: &[u8]) -> (r: Result<Self, ParameterDataError>)
        ensures
            r == Self::spec_decode(buf@),
            r matches Ok(l) ==> l.spec_bytes() == truncated_at_null(buf@),
    {
        let content = truncate_at_null(buf);
        if content.len() > 32 {
            return Err(ParameterDataError::StringTooLong { length: content.len(), max_length: 32 });
        }
        match str_from_utf8(content) {
            Some(_) => Ok(Self::of_bytes(content)),
            None => Err(ParameterDataError::InvalidUtf8),
        }
    }

    /// Decoding the wire form of a label without zero bytes gives the label back.
    pub proof fn lemma_roundtrip(self)
        requires
            self.wf(),
            has_no_null(self.spec_bytes()),
        ensures
            Self::spec_decode(self.spec_encode()) == Ok::<Self, ParameterDataError>(self),
    {
        lemma_truncated_at_null_prefix(self.spec_bytes(), self.spec_bytes().len() as int);
        assert(self.spec_bytes().subrange(0, self.spec_bytes().len() as int) =~= self.spec_bytes());
        Self::lemma_determined_by_bytes(self, Self::spec_of_bytes(self.spec_bytes()));
    }

    /// The wire form is no longer than 32 bytes.
    pub proof fn lemma_encode_len(self)
        requires
            self.wf(),
        ensures
            self.spec_encode().len() <= 32,
    {
        lemma_truncated_at_null_shape(self.spec_bytes());
    }

    /// Whether decoding the wire form gives the label back: it holds no zero byte.
    pub open spec fn spec_encodable(self) -> bool {
        self.wf() && has_no_null(self.spec_bytes())
    }

    /// The bytes followed by zeros up to 32 bytes.
    pub closed spec fn spec_padded(self) -> Seq<u8> {
        self.bytes@
    }

    /// Appends the wire form to `out`.
    pub fn write_encoded(&self, out: &mut Vec<u8>)
        ensures
            final(out)@ == old(out)@ + self.spec_encode(),
    {
        proof {
            use_type_invariant(self);
        }
        let s = vstd::slice::slice_subrange(self.bytes.as_slice(), 0, self.len);
        extend_from(out, truncate_at_null(s));
    }
}

impl<'a> FixedWire<'a> for SelfTestDescription {
    open spec fn spec_size() -> nat {
        32
    }

    open spec fn spec_wire(&self) -> Seq<u8> {
        self.spec_padded()
    }

    open spec fn spec_read(bytes: Seq<u8>) -> Option<Self> {
        match Self::spec_decode(bytes) {
            Ok(l) => Some(l),
            Err(_) => None,
        }
    }

    open spec fn spec_wire_valid(&self) -> bool {
        self.spec_encodable()
    }

    fn wire_size() -> (n: usize) {
        32
    }

    fn write_wire(&self, out: &mut Vec<u8>) {
        proof {
            use_type_invariant(self);
        }
        extend_from(out, self.bytes.as_slice());
    }

    fn read_wire(buf: &'a [u8], pos: usize) -> (r: Option<Self>) {
        let _len = buf.len();
        let s = vstd::slice::slice_subrange(buf, pos, pos + 32);
        match Self::decode_parameter_data(s) {
            Ok(l) => Some(l),
            Err(_) => None,
        }
    }

    proof fn lemma_wire(&self) {
        if self.spec_encodable() {
            let b = self.spec_bytes();
            let p = self.bytes@;
            assert(p.subrange(0, self.len as int) =~= b);
            assert forall|i: int| 0 <= i < self.len implies p[i] != 0 by {
                assert(p[i] == b[i]);
            }
            assert(self.len < 32 ==> p[self.len as int] == 0);
            assert(has_no_null(p.subrange(0, self.len as int)));
            lemma_truncated_at_null_prefix(p, self.len as int);
            Self::lemma_determined_by_bytes(*self, Self::spec_of_bytes(b));
        }
    }
}

/// A bounded string of at most 32 bytes of UTF-8.
#[derive(Clone, Copy, Debug, PartialEq, Eq)]
pub struct DmxPersonalityDescription {
    len: usize,
    bytes: [u8; 32],
}

impl DmxPersonalityDescription {
    pub const MAX_LENGTH: usize = 32;

    #[verifier::type_invariant]
    pub closed spec fn wf(self) -> bool {
        &&& self.len <= 32
        &&& vstd::utf8::valid_utf8(self.bytes@.subrange(0, self.len as int))
        &&& forall|i: int| self.len <= i < 32 ==> self.bytes@[i] == 0
    }

    /// The UTF-8 bytes of the string.
    pub closed spec fn spec_bytes(self) -> Seq<u8> {
        self.bytes@.subrange(0, self.len as int)
    }

    /// The label whose bytes are `content`, when they fit and are UTF-8.
    pub closed spec fn spec_of_bytes(content: Seq<u8>) -> Self {
        choose|l: Self| l.wf() && l.spec_bytes() == content
    }

    /// A label is determined by its bytes.
    pub proof fn lemma_determined_by_bytes(a: Self, b: Self)
        requires
            a.wf(),
            b.wf(),
            a.spec_bytes() == b.spec_bytes(),
        ensures
            a == b,
    {
        assert forall|i: int| 0 <= i < 32 implies a.bytes@[i] == b.bytes@[i] by {
            if i < a.len {
                assert(a.bytes@[i] == a.spec_bytes()[i]);
                assert(b.bytes@[i] == b.spec_bytes()[i]);
            }
        }
        assert(a.bytes =~= b.bytes);
    }

    /// The label that holds `content` holds exactly those bytes, when they fit and are UTF-8.
    pub proof fn lemma_of_bytes(content: Seq<u8>)
        requires
            content.len() <= 32,
            vstd::utf8::valid_utf8(content),
        ensures
            Self::spec_of_bytes(content).wf(),
            Self::spec_of_bytes(content).spec_bytes() == content,
    {
        let bytes = spec_padded_array::<32>(content, content.len());
        lemma_padded_array::<32>(content, content.len());
        let l = DmxPersonalityDescription { len: content.len() as usize, bytes };
        assert(l.bytes@.subrange(0, l.len as int) =~= content);
        assert(l.wf() && l.spec_bytes() == content);
    }

    fn of_bytes(content: &[u8]) -> (r: Self)
        requires
            content@.len() <= 32,
            vstd::utf8::valid_utf8(content@),
        ensures
            r == Self::spec_of_bytes(content@),
            r.spec_bytes() == content@,
    {
        let mut bytes = [0u8; 32];
        proof {
            vstd::array::axiom_spec_array_fill_for_copy_type::<u8, 32>(0u8);
        }
        let mut i: usize = 0;
        while i < content.len()
            invariant
                i <= content@.len(),
                content@.len() <= 32,
                forall|j: int| 0 <= j < i ==> bytes@[j] == content@[j],
                forall|j: int| i <= j < 32 ==> bytes@[j] == 0,
            decreases content@.len() - i,
        {
            bytes[i] = content[i];
            i = i + 1;
        }
        proof {
            assert(bytes@.subrange(0, content@.len() as int) =~= content@);
        }
        let r = DmxPersonalityDescription { len: content.len(), bytes };
        proof {
            Self::lemma_determined_by_bytes(r, Self::spec_of_bytes(content@));
        }
        r
    }

    /// Makes a label of `s`, failing when it is longer than 32 bytes.
    pub fn new(s: &str) -> (r: Result<Self, RdmError>)
        ensures
            s.spec_bytes().len() <= 32 ==> r == Ok::<Self, RdmError>(Self::spec_of_bytes(s.spec_bytes())),
            r matches Ok(l) ==> l.spec_bytes() == s.spec_bytes(),
            s.spec_bytes().len() > 32 ==> r == Err::<Self, RdmError>(
                RdmError::InvalidStringLength(s.spec_bytes().len() as usize, 32),
            ),
    {
        let b = s.as_bytes();
        if b.len() > 32 {
            return Err(RdmError::InvalidStringLength(b.len(), 32));
        }
        proof {
            vstd::utf8::encode_utf8_valid_utf8(s@);
        }
        Ok(Self::of_bytes(b))
    }

    /// Makes a label of `s` without its trailing zero characters, failing when it is longer than 32 bytes.
    pub fn from_str(s: &str) -> (r: Result<Self, ParameterDataError>)
        ensures
            trimmed_trailing_nulls(s.spec_bytes()).len() <= 32 ==> r == Ok::<Self, ParameterDataError>(
                Self::spec_of_bytes(trimmed_trailing_nulls(s.spec_bytes())),
            ),
            r matches Ok(l) ==> l.spec_bytes() == trimmed_trailing_nulls(s.spec_bytes()),
            trimmed_trailing_nulls(s.spec_bytes()).len() > 32 ==> r == Err::<Self, ParameterDataError>(
                ParameterDataError::StringTooLong {
                    length: trimmed_trailing_nulls(s.spec_bytes()).len() as usize,
                    max_length: 32,
                },
            ),
    {
        let b = s.as_bytes();
        let t = trim_trailing_nulls(b);
        if t.len() > 32 {
            return Err(ParameterDataError::StringTooLong { length: t.len(), max_length: 32 });
        }
        proof {
            vstd::utf8::encode_utf8_valid_utf8(s@);
            lemma_trim_trailing_nulls_valid_utf8(s.spec_bytes());
        }
        Ok(Self::of_bytes(t))
    }

    /// The label as a string slice.
    pub fn as_str(&self) -> (r: &str)
        ensures
            r.spec_bytes() == self.spec_bytes(),
    {
        proof {
            use_type_invariant(self);
        }
        let s = vstd::slice::slice_subrange(self.bytes.as_slice(), 0, self.len);
        match str_from_utf8(s) {
            Some(r) => r,
            None => {
                proof {
                    assert(false);
                }
                ""
            },
        }
    }

    /// The UTF-8 bytes of the label.
    pub fn as_bytes(&self) -> (r: &[u8])
        ensures
            r@ == self.spec_bytes(),
    {
        proof {
            use_type_invariant(self);
        }
        vstd::slice::slice_subrange(self.bytes.as_slice(), 0, self.len)
    }

    /// The length in bytes.
    pub fn len(&self) -> (n: usize)
        ensures
            n == self.spec_bytes().len(),
    {
        proof {
            use_type_invariant(self);
        }
        self.len
    }

    pub fn is_empty(&self) -> (b: bool)
        ensures
            b == (self.spec_bytes().len() == 0),
    {
        proof {
            use_type_invariant(self);
        }
        self.len == 0
    }

    /// The wire form: the bytes up to the first zero byte.
    pub open spec fn spec_encode(self) -> Seq<u8> {
        truncated_at_null(self.spec_bytes())
    }

    /// The label carried by `buf`: its bytes up to the first zero byte, when they are UTF-8 and fit.
    pub open spec fn spec_decode(buf: Seq<u8>) -> Result<Self, ParameterDataError> {
        let content = truncated_at_null(buf);
        if content.len() > 32 {
            Err(ParameterDataError::StringTooLong { length: content.len() as usize, max_length: 32 })
        } else if !vstd::utf8::valid_utf8(content) {
            Err(ParameterDataError::InvalidUtf8)
        } else {
            Ok(Self::spec_of_bytes(content))
        }
    }

    /// The parameter data of a text without a zero byte is the text itself, and a text of at most
    /// 32 bytes of UTF-8 without a zero byte decodes to the value holding that text; whatever
    /// follows a zero byte is not read.
    pub proof fn lemma_text_codec(self, text: Seq<u8>)
        ensures
            has_no_null(self.spec_bytes()) ==> self.spec_encode() == self.spec_bytes(),
            text.len() <= 32 && has_no_null(text) && vstd::utf8::valid_utf8(text) ==> (Self::spec_decode(text) matches Ok(l)
                && l.spec_bytes() == text),
            forall|rest: Seq<u8>| #![auto] has_no_null(text) ==> Self::spec_decode(text + seq![0u8] + rest) == Self::spec_decode(text),
    {
        let b = self.spec_bytes();
        if has_no_null(b) {
            assert(b.subrange(0, b.len() as int) =~= b);
            lemma_truncated_at_null_prefix(b, b.len() as int);
        }
        if has_no_null(text) {
            assert(text.subrange(0, text.len() as int) =~= text);
            lemma_truncated_at_null_prefix(text, text.len() as int);
            if text.len() <= 32 && vstd::utf8::valid_utf8(text) {
                Self::lemma_of_bytes(text);
            }
            assert forall|rest: Seq<u8>| #![auto] Self::spec_decode(text + seq![0u8] + rest) == Self::spec_decode(text) by {
                let w = text + seq![0u8] + rest;
                assert(w.subrange(0, text.len() as int) =~= text);
                lemma_truncated_at_null_prefix(w, text.len() as int);
            }
        }
    }

    pub fn size_of(&self) -> (n: usize)
        ensures
            n == self.spec_encode().len(),
    {
        proof {
            use_type_invariant(self);
        }
        let s = vstd::slice::slice_subrange(self.bytes.as_slice(), 0, self.len);
        null_position(s)
    }

    pub fn encode_parameter_data(&self, buf: &mut [u8]) -> (r: Result<usize, ParameterDataError>)
        ensures
            encoded_into(old(buf)@, final(buf)@, self.spec_encode(), r),
    {
        proof {
            use_type_invariant(self);
        }
        let s = vstd::slice::slice_subrange(self.bytes.as_slice(), 0, self.len);
        copy_encoded(buf, truncate_at_null(s))
    }

    pub fn decode_parameter_data(buf: &[u8]) -> (r: Result<Self, ParameterDataError>)
        ensures
            r == Self::spec_decode(buf@),
            r matches Ok(l) ==> l.spec_bytes() == truncated_at_null(buf@),
    {
        let content = truncate_at_null(buf);
        if content.len() > 32 {
            return Err(ParameterDataError::StringTooLong { length: content.len(), max_length: 32 });
        }
        match str_from_utf8(content) {
            Some(_) => Ok(Self::of_bytes(content)),
            None => Err(ParameterDataError::InvalidUtf8),
        }
    }

    /// Decoding the wire form of a label without zero bytes gives the label back.
    pub proof fn lemma_roundtrip(self)
        requires
            self.wf(),
            has_no_null(self.spec_bytes()),
        ensures
            Self::spec_decode(self.spec_encode()) == Ok::<Self, ParameterDataError>(self),
    {
        lemma_truncated_at_null_prefix(self.spec_bytes(), self.spec_bytes().len() as int);
        assert(self.spec_bytes().subrange(0, self.spec_bytes().len() as int) =~= self.spec_bytes());
        Self::lemma_determined_by_bytes(self, Self::spec_of_bytes(self.spec_bytes()));
    }

    /// The wire form is no longer than 32 bytes.
    pub proof fn lemma_encode_len(self)
        requires
            self.wf(),
        ensures
            self.spec_encode().len() <= 32,
    {
        lemma_truncated_at_null_shape(self.spec_bytes());
    }

    /// Whether decoding the wire form gives the label back: it holds no zero byte.
    pub open spec fn spec_encodable(self) -> bool {
        self.wf() && has_no_null(self.spec_bytes())
    }

    /// The bytes followed by zeros up to 32 bytes.
    pub closed spec fn spec_padded(self) -> Seq<u8> {
        self.bytes@
    }

    /// Appends the wire form to `out`.
    pub fn write_encoded(&self, out: &mut Vec<u8>)
        ensures
            final(out)@ == old(out)@ + self.spec_encode(),
    {
        proof {
            use_type_invariant(self);
        }
        let s = vstd::slice::slice_subrange(self.bytes.as_slice(), 0, self.len);
        extend_from(out, truncate_at_null(s));
    }
}

impl<'a> FixedWire<'a> for DmxPersonalityDescription {
    open spec fn spec_size() -> nat {
        32
    }

    open spec fn spec_wire(&self) -> Seq<u8> {
        self.spec_padded()
    }

    open spec fn spec_read(bytes: Seq<u8>) -> Option<Self> {
        match Self::spec_decode(bytes) {
            Ok(l) => Some(l),
            Err(_) => None,
        }
    }

    open spec fn spec_wire_valid(&self) -> bool {
        self.spec_encodable()
    }

    fn wire_size() -> (n: usize) {
        32
    }

    fn write_wire(&self, out: &mut Vec<u8>) {
        proof {
            use_type_invariant(self);
        }
        extend_from(out, self.bytes.as_slice());
    }

    fn read_wire(buf: &'a [u8], pos: usize) -> (r: Option<Self>) {
        let _len = buf.len();
        let s = vstd::slice::slice_subrange(buf, pos, pos + 32);
        match Self::decode_parameter_data(s) {
            Ok(l) => Some(l),
            Err(_) => None,
        }
    }

    proof fn lemma_wire(&self) {
        if self.spec_encodable() {
            let b = self.spec_bytes();
            let p = self.bytes@;
            assert(p.subrange(0, self.len as int) =~= b);
            assert forall|i: int| 0 <= i < self.len implies p[i] != 0 by {
                assert(p[i] == b[i]);
            }
            assert(self.len < 32 ==> p[self.len as int] == 0);
            assert(has_no_null(p.subrange(0, self.len as int)));
            lemma_truncated_at_null_prefix(p, self.len as int);
            Self::lemma_determined_by_bytes(*self, Self::spec_of_bytes(b));
        }
    }
}

impl DeviceLabel {
    /// A label without zero bytes, written with `encode` into 32 bytes, reads back as itself with
    /// `decode`: from the whole buffer when a zero byte follows the text (or the text fills it),
    /// and from the bytes written in any case.
    pub proof fn lemma_codec_roundtrip(self, buf: Seq<u8>)
        requires
            self.wf(),
            has_no_null(self.spec_bytes()),
            buf.len() == 32,
        ensures
            ({
                let n = self.spec_bytes().len() as int;
                let w = written_prefix(buf, self.spec_bytes());
                &&& (n == 32 || buf[n] == 0) ==> vstd::utf8::valid_utf8(truncated_at_null(w))
                    && Self::spec_of_bytes(truncated_at_null(w)) == self
                &&& vstd::utf8::valid_utf8(truncated_at_null(w.subrange(0, n)))
                &&& Self::spec_of_bytes(truncated_at_null(w.subrange(0, n))) == self
            }),
    {
        let b = self.spec_bytes();
        let n = b.len() as int;
        let w = written_prefix(buf, b);
        assert(w.subrange(0, n) =~= b);
        lemma_truncated_at_null_prefix(w.subrange(0, n), n);
        assert(w.subrange(0, n).subrange(0, n) =~= b);
        if n == 32 || buf[n] == 0 {
            lemma_truncated_at_null_prefix(w, n);
        }
        Self::lemma_of_bytes(b);
        Self::lemma_determined_by_bytes(self, Self::spec_of_bytes(b));
    }

    /// Writes the bytes of the label at the start of `buf`, which must have room for 32 bytes.
    pub fn encode(&self, buf: &mut [u8]) -> (r: Result<usize, RdmError>)
        ensures
            old(buf)@.len() < 32 ==> r == Err::<usize, RdmError>(RdmError::InvalidBufferLength(old(buf)@.len() as usize, 32))
                && final(buf)@ == old(buf)@,
            old(buf)@.len() >= 32 ==> r == Ok::<usize, RdmError>(self.spec_bytes().len() as usize)
                && final(buf)@ == written_prefix(old(buf)@, self.spec_bytes()),
    {
        if buf.len() < 32 {
            return Err(RdmError::InvalidBufferLength(buf.len(), 32));
        }
        proof {
            use_type_invariant(self);
        }
        let s = self.as_str().as_bytes();
        write_prefix(buf, s);
        Ok(s.len())
    }

    /// Reads a label of at most 32 bytes: the bytes up to the first zero byte.
    pub fn decode(bytes: &[u8]) -> (r: Result<Self, RdmError>)
        ensures
            bytes@.len() > 32 ==> r == Err::<Self, RdmError>(RdmError::InvalidStringLength(bytes@.len() as usize, 32)),
            bytes@.len() <= 32 && !vstd::utf8::valid_utf8(truncated_at_null(bytes@)) ==> r == Err::<Self, RdmError>(RdmError::Utf8Error),
            bytes@.len() <= 32 && vstd::utf8::valid_utf8(truncated_at_null(bytes@)) ==> r == Ok::<Self, RdmError>(
                Self::spec_of_bytes(truncated_at_null(bytes@)),
            ),
            r matches Ok(l) ==> l.spec_bytes() == truncated_at_null(bytes@),
    {
        if bytes.len() > 32 {
            return Err(RdmError::InvalidStringLength(bytes.len(), 32));
        }
        let t = truncate_at_null(bytes);
        proof {
            lemma_truncated_at_null_shape(bytes@);
        }
        match str_from_utf8(t) {
            Some(_) => Ok(Self::of_bytes(t)),
            None => Err(RdmError::Utf8Error),
        }
    }
}

impl ParameterDescriptionLabel {
    /// A label without zero bytes, written with `encode` into 32 bytes, reads back as itself with
    /// `decode`: from the whole buffer when a zero byte follows the text (or the text fills it),
    /// and from the bytes written in any case.
    pub proof fn lemma_codec_roundtrip(self, buf: Seq<u8>)
        requires
            self.wf(),
            has_no_null(self.spec_bytes()),
            buf.len() == 32,
        ensures
            ({
                let n = self.spec_bytes().len() as int;
                let w = written_prefix(buf, self.spec_bytes());
                &&& (n == 32 || buf[n] == 0) ==> vstd::utf8::valid_utf8(truncated_at_null(w))
                    && Self::spec_of_bytes(truncated_at_null(w)) == self
                &&& vstd::utf8::valid_utf8(truncated_at_null(w.subrange(0, n)))
                &&& Self::spec_of_bytes(truncated_at_null(w.subrange(0, n))) == self
            }),
    {
        let b = self.spec_bytes();
        let n = b.len() as int;
        let w = written_prefix(buf, b);
        assert(w.subrange(0, n) =~= b);
        lemma_truncated_at_null_prefix(w.subrange(0, n), n);
        assert(w.subrange(0, n).subrange(0, n) =~= b);
        if n == 32 || buf[n] == 0 {
            lemma_truncated_at_null_prefix(w, n);
        }
        Self::lemma_of_bytes(b);
        Self::lemma_determined_by_bytes(self, Self::spec_of_bytes(b));
    }

    /// Writes the bytes of the label at the start of `buf`, which must have room for 32 bytes.
    pub fn encode(&self, buf: &mut [u8]) -> (r: Result<usize, RdmError>)
        ensures
            old(buf)@.len() < 32 ==> r == Err::<usize, RdmError>(RdmError::InvalidBufferLength(old(buf)@.len() as usize, 32))
                && final(buf)@ == old(buf)@,
            old(buf)@.len() >= 32 ==> r == Ok::<usize, RdmError>(self.spec_bytes().len() as usize)
                && final(buf)@ == written_prefix(old(buf)@, self.spec_bytes()),
    {
        if buf.len() < 32 {
            return Err(RdmError::InvalidBufferLength(buf.len(), 32));
        }
        proof {
            use_type_invariant(self);
        }
        let s = self.as_str().as_bytes();
        write_prefix(buf, s);
        Ok(s.len())
    }

    /// Reads a label of at most 32 bytes: the bytes up to the first zero byte.
    pub fn decode(bytes: &[u8]) -> (r: Result<Self, RdmError>)
        ensures
            bytes@.len() > 32 ==> r == Err::<Self, RdmError>(RdmError::InvalidStringLength(bytes@.len() as usize, 32)),
            bytes@.len() <= 32 && !vstd::utf8::valid_utf8(truncated_at_null(bytes@)) ==> r == Err::<Self, RdmError>(RdmError::Utf8Error),
            bytes@.len() <= 32 && vstd::utf8::valid_utf8(truncated_at_null(bytes@)) ==> r == Ok::<Self, RdmError>(
                Self::spec_of_bytes(truncated_at_null(bytes@)),
            ),
            r matches Ok(l) ==> l.spec_bytes() == truncated_at_null(bytes@),
    {
        if bytes.len() > 32 {
            return Err(RdmError::InvalidStringLength(bytes.len(), 32));
        }
        let t = truncate_at_null(bytes);
        proof {
            lemma_truncated_at_null_shape(bytes@);
        }
        match str_from_utf8(t) {
            Some(_) => Ok(Self::of_bytes(t)),
            None => Err(RdmError::Utf8Error),
        }
    }
}

/// ISO 639-1 language codes.
#[derive(Copy, Clone, Debug, Eq, PartialEq, Ord, PartialOrd, Hash)]
pub enum Iso639_1<'a> {
    Aa,
    Ab,
    Ae,
    Af,
    Ak,
    Am,
    An,
    Ar,
    As,
    Av,
    Ay,
    Az,
    Ba,
    Be,
    Bg,
    Bh,
    Bi,
    Bm,
    Bn,
    Bo,
    Br,
    Bs,
    Ca,
    Ce,
    Ch,
    Co,
    Cr,
    Cs,
    Cu,
    Cv,
    Cy,
    Da,
    De,
    Dv,
    Dz,
    Ee,
    El,
    En,
    Eo,
    Es,
    Et,
    Eu,
    Fa,
    Ff,
    Fi,
    Fj,
    Fo,
    Fr,
    Fy,
    Ga,
    Gd,
    Gl,
    Gn,
    Gu,
    Gv,
    Ha,
    He,
    Hi,
    Ho,
    Hr,
    Ht,
    Hu,
    Hy,
    Hz,
    Ia,
    Id,
    Ie,
    Ig,
    Ii,
    Ik,
    Io,
    Is,
    It,
    Iu,
    Ja,
    Jv,
    Ka,
    Kg,
    Ki,
    Kj,
    Kk,
    Kl,
    Km,
    Kn,
    Ko,
    Kr,
    Ks,
    Ku,
    Kv,
    Kw,
    Ky,
    La,
    Lb,
    Lg,
    Li,
    Ln,
    Lo,
    Lt,
    Lu,
    Lv,
    Mg,
    Mh,
    Mi,
    Mk,
    Ml,
    Mn,
    Mr,
    Ms,
    Mt,
    My,
    Na,
    Nb,
    Nd,
    Ne,
    Ng,
    Nl,
    Nn,
    No,
    Nr,
    Nv,
    Ny,
    Oc,
    Oj,
    Om,
    Or,
    Os,
    Pa,
    Pi,
    Pl,
    Ps,
    Pt,
    Qu,
    Rm,
    Rn,
    Ro,
    Ru,
    Rw,
    Sa,
    Sc,
    Sd,
    Se,
    Sg,
    Si,
    Sk,
    Sl,
    Sm,
    Sn,
    So,
    Sq,
    Sr,
    Ss,
    St,
    Su,
    Sv,
    Sw,
    Ta,
    Te,
    Tg,
    Th,
    Ti,
    Tk,
    Tl,
    Tn,
    To,
    Tr,
    Ts,
    Tt,
    Tw,
    Ty,
    Ug,
    Uk,
    Ur,
    Uz,
    Ve,
    Vi,
    Vo,
    Wa,
    Wo,
    Xh,
    Yi,
    Yo,
    Za,
    Zh,
    Zu,
    Unsupported(&'a str),
}

impl<'a> Iso639_1<'a> {
    pub const LENGTH: usize = 2;

    /// The code of the language: its two letters, or the text of an unsupported code.
    pub open spec fn spec_code(self) -> Seq<u8> {
        match self {
            Iso639_1::Aa => seq![0x61u8, 0x61u8],
            Iso639_1::Ab => seq![0x61u8, 0x62u8],
            Iso639_1::Ae => seq![0x61u8, 0x65u8],
            Iso639_1::Af => seq![0x61u8, 0x66u8],
            Iso639_1::Ak => seq![0x61u8, 0x6bu8],
            Iso639_1::Am => seq![0x61u8, 0x6du8],
            Iso639_1::An => seq![0x61u8, 0x6eu8],
            Iso639_1::Ar => seq![0x61u8, 0x72u8],
            Iso639_1::As => seq![0x61u8, 0x73u8],
            Iso639_1::Av => seq![0x61u8, 0x76u8],
            Iso639_1::Ay => seq![0x61u8, 0x79u8],
            Iso639_1::Az => seq![0x61u8, 0x7au8],
            Iso639_1::Ba => seq![0x62u8, 0x61u8],
            Iso639_1::Be => seq![0x62u8, 0x65u8],
            Iso639_1::Bg => seq![0x62u8, 0x67u8],
            Iso639_1::Bh => seq![0x62u8, 0x68u8],
            Iso639_1::Bi => seq![0x62u8, 0x69u8],
            Iso639_1::Bm => seq![0x62u8, 0x6du8],
            Iso639_1::Bn => seq![0x62u8, 0x6eu8],
            Iso639_1::Bo => seq![0x62u8, 0x6fu8],
            Iso639_1::Br => seq![0x62u8, 0x72u8],
            Iso639_1::Bs => seq![0x62u8, 0x73u8],
            Iso639_1::Ca => seq![0x63u8, 0x61u8],
            Iso639_1::Ce => seq![0x63u8, 0x65u8],
            Iso639_1::Ch => seq![0x63u8, 0x68u8],
            Iso639_1::Co => seq![0x63u8, 0x6fu8],
            Iso639_1::Cr => seq![0x63u8, 0x72u8],
            Iso639_1::Cs => seq![0x63u8, 0x73u8],
            Iso639_1::Cu => seq![0x63u8, 0x75u8],
            Iso639_1::Cv => seq![0x63u8, 0x76u8],
            Iso639_1::Cy => seq![0x63u8, 0x79u8],
            Iso639_1::Da => seq![0x64u8, 0x61u8],
            Iso639_1::De => seq![0x64u8, 0x65u8],
            Iso639_1::Dv => seq![0x64u8, 0x76u8],
            Iso639_1::Dz => seq![0x64u8, 0x7au8],
            Iso639_1::Ee => seq![0x65u8, 0x65u8],
            Iso639_1::El => seq![0x65u8, 0x6cu8],
            Iso639_1::En => seq![0x65u8, 0x6eu8],
            Iso639_1::Eo => seq![0x65u8, 0x6fu8],
            Iso639_1::Es => seq![0x65u8, 0x73u8],
            Iso639_1::Et => seq![0x65u8, 0x74u8],
            Iso639_1::Eu => seq![0x65u8, 0x75u8],
            Iso639_1::Fa => seq![0x66u8, 0x61u8],
            Iso639_1::Ff => seq![0x66u8, 0x66u8],
            Iso639_1::Fi => seq![0x66u8, 0x69u8],
            Iso639_1::Fj => seq![0x66u8, 0x6au8],
            Iso639_1::Fo => seq![0x66u8, 0x6fu8],
            Iso639_1::Fr => seq![0x66u8, 0x72u8],
            Iso639_1::Fy => seq![0x66u8, 0x79u8],
            Iso639_1::Ga => seq![0x67u8, 0x61u8],
            Iso639_1::Gd => seq![0x67u8, 0x64u8],
            Iso639_1::Gl => seq![0x67u8, 0x6cu8],
            Iso639_1::Gn => seq![0x67u8, 0x6eu8],
            Iso639_1::Gu => seq![0x67u8, 0x75u8],
            Iso639_1::Gv => seq![0x67u8, 0x76u8],
            Iso639_1::Ha => seq![0x68u8, 0x61u8],
            Iso639_1::He => seq![0x68u8, 0x65u8],
            Iso639_1::Hi => seq![0x68u8, 0x69u8],
            Iso639_1::Ho => seq![0x68u8, 0x6fu8],
            Iso639_1::Hr => seq![0x68u8, 0x72u8],
            Iso639_1::Ht => seq![0x68u8, 0x74u8],
            Iso639_1::Hu => seq![0x68u8, 0x75u8],
            Iso639_1::Hy => seq![0x68u8, 0x79u8],
            Iso639_1::Hz => seq![0x68u8, 0x7au8],
            Iso639_1::Ia => seq![0x69u8, 0x61u8],
            Iso639_1::Id => seq![0x69u8, 0x64u8],
            Iso639_1::Ie => seq![0x69u8, 0x65u8],
            Iso639_1::Ig => seq![0x69u8, 0x67u8],
            Iso639_1::Ii => seq![0x69u8, 0x69u8],
            Iso639_1::Ik => seq![0x69u8, 0x6bu8],
            Iso639_1::Io => seq![0x69u8, 0x6fu8],
            Iso639_1::Is => seq![0x69u8, 0x73u8],
            Iso639_1::It => seq![0x69u8, 0x74u8],
            Iso639_1::Iu => seq![0x69u8, 0x75u8],
            Iso639_1::Ja => seq![0x6au8, 0x61u8],
            Iso639_1::Jv => seq![0x6au8, 0x76u8],
            Iso639_1::Ka => seq![0x6bu8, 0x61u8],
            Iso639_1::Kg => seq![0x6bu8, 0x67u8],
            Iso639_1::Ki => seq![0x6bu8, 0x69u8],
            Iso639_1::Kj => seq![0x6bu8, 0x6au8],
            Iso639_1::Kk => seq![0x6bu8, 0x6bu8],
            Iso639_1::Kl => seq![0x6bu8, 0x6cu8],
            Iso639_1::Km => seq![0x6bu8, 0x6du8],
            Iso639_1::Kn => seq![0x6bu8, 0x6eu8],
            Iso639_1::Ko => seq![0x6bu8, 0x6fu8],
            Iso639_1::Kr => seq![0x6bu8, 0x72u8],
            Iso639_1::Ks => seq![0x6bu8, 0x73u8],
            Iso639_1::Ku => seq![0x6bu8, 0x75u8],
            Iso639_1::Kv => seq![0x6bu8, 0x76u8],
            Iso639_1::Kw => seq![0x6bu8, 0x77u8],
            Iso639_1::Ky => seq![0x6bu8, 0x79u8],
            Iso639_1::La => seq![0x6cu8, 0x61u8],
            Iso639_1::Lb => seq![0x6cu8, 0x62u8],
            Iso639_1::Lg => seq![0x6cu8, 0x67u8],
            Iso639_1::Li => seq![0x6cu8, 0x69u8],
            Iso639_1::Ln => seq![0x6cu8, 0x6eu8],
            Iso639_1::Lo => seq![0x6cu8, 0x6fu8],
            Iso639_1::Lt => seq![0x6cu8, 0x74u8],
            Iso639_1::Lu => seq![0x6cu8, 0x75u8],
            Iso639_1::Lv => seq![0x6cu8, 0x76u8],
            Iso639_1::Mg => seq![0x6du8, 0x67u8],
            Iso639_1::Mh => seq![0x6du8, 0x68u8],
            Iso639_1::Mi => seq![0x6du8, 0x69u8],
            Iso639_1::Mk => seq![0x6du8, 0x6bu8],
            Iso639_1::Ml => seq![0x6du8, 0x6cu8],
            Iso639_1::Mn => seq![0x6du8, 0x6eu8],
            Iso639_1::Mr => seq![0x6du8, 0x72u8],
            Iso639_1::Ms => seq![0x6du8, 0x73u8],
            Iso639_1::Mt => seq![0x6du8, 0x74u8],
            Iso639_1::My => seq![0x6du8, 0x79u8],
            Iso639_1::Na => seq![0x6eu8, 0x61u8],
            Iso639_1::Nb => seq![0x6eu8, 0x62u8],
            Iso639_1::Nd => seq![0x6eu8, 0x64u8],
            Iso639_1::Ne => seq![0x6eu8, 0x65u8],
            Iso639_1::Ng => seq![0x6eu8, 0x67u8],
            Iso639_1::Nl => seq![0x6eu8, 0x6cu8],
            Iso639_1::Nn => seq![0x6eu8, 0x6eu8],
            Iso639_1::No => seq![0x6eu8, 0x6fu8],
            Iso639_1::Nr => seq![0x6eu8, 0x72u8],
            Iso639_1::Nv => seq![0x6eu8, 0x76u8],
            Iso639_1::Ny => seq![0x6eu8, 0x79u8],
            Iso639_1::Oc => seq![0x6fu8, 0x63u8],
            Iso639_1::Oj => seq![0x6fu8, 0x6au8],
            Iso639_1::Om => seq![0x6fu8, 0x6du8],
            Iso639_1::Or => seq![0x6fu8, 0x72u8],
            Iso639_1::Os => seq![0x6fu8, 0x73u8],
            Iso639_1::Pa => seq![0x70u8, 0x61u8],
            Iso639_1::Pi => seq![0x70u8, 0x69u8],
            Iso639_1::Pl => seq![0x70u8, 0x6cu8],
            Iso639_1::Ps => seq![0x70u8, 0x73u8],
            Iso639_1::Pt => seq![0x70u8, 0x74u8],
            Iso639_1::Qu => seq![0x71u8, 0x75u8],
            Iso639_1::Rm => seq![0x72u8, 0x6du8],
            Iso639_1::Rn => seq![0x72u8, 0x6eu8],
            Iso639_1::Ro => seq![0x72u8, 0x6fu8],
            Iso639_1::Ru => seq![0x72u8, 0x75u8],
            Iso639_1::Rw => seq![0x72u8, 0x77u8],
            Iso639_1::Sa => seq![0x73u8, 0x61u8],
            Iso639_1::Sc => seq![0x73u8, 0x63u8],
            Iso639_1::Sd => seq![0x73u8, 0x64u8],
            Iso639_1::Se => seq![0x73u8, 0x65u8],
            Iso639_1::Sg => seq![0x73u8, 0x67u8],
            Iso639_1::Si => seq![0x73u8, 0x69u8],
            Iso639_1::Sk => seq![0x73u8, 0x6bu8],
            Iso639_1::Sl => seq![0x73u8, 0x6cu8],
            Iso639_1::Sm => seq![0x73u8, 0x6du8],
            Iso639_1::Sn => seq![0x73u8, 0x6eu8],
            Iso639_1::So => seq![0x73u8, 0x6fu8],
            Iso639_1::Sq => seq![0x73u8, 0x71u8],
            Iso639_1::Sr => seq![0x73u8, 0x72u8],
            Iso639_1::Ss => seq![0x73u8, 0x73u8],
            Iso639_1::St => seq![0x73u8, 0x74u8],
            Iso639_1::Su => seq![0x73u8, 0x75u8],
            Iso639_1::Sv => seq![0x73u8, 0x76u8],
            Iso639_1::Sw => seq![0x73u8, 0x77u8],
            Iso639_1::Ta => seq![0x74u8, 0x61u8],
            Iso639_1::Te => seq![0x74u8, 0x65u8],
            Iso639_1::Tg => seq![0x74u8, 0x67u8],
            Iso639_1::Th => seq![0x74u8, 0x68u8],
            Iso639_1::Ti => seq![0x74u8, 0x69u8],
            Iso639_1::Tk => seq![0x74u8, 0x6bu8],
            Iso639_1::Tl => seq![0x74u8, 0x6cu8],
            Iso639_1::Tn => seq![0x74u8, 0x6eu8],
            Iso639_1::To => seq![0x74u8, 0x6fu8],
            Iso639_1::Tr => seq![0x74u8, 0x72u8],
            Iso639_1::Ts => seq![0x74u8, 0x73u8],
            Iso639_1::Tt => seq![0x74u8, 0x74u8],
            Iso639_1::Tw => seq![0x74u8, 0x77u8],
            Iso639_1::Ty => seq![0x74u8, 0x79u8],
            Iso639_1::Ug => seq![0x75u8, 0x67u8],
            Iso639_1::Uk => seq![0x75u8, 0x6bu8],
            Iso639_1::Ur => seq![0x75u8, 0x72u8],
            Iso639_1::Uz => seq![0x75u8, 0x7au8],
            Iso639_1::Ve => seq![0x76u8, 0x65u8],
            Iso639_1::Vi => seq![0x76u8, 0x69u8],
            Iso639_1::Vo => seq![0x76u8, 0x6fu8],
            Iso639_1::Wa => seq![0x77u8, 0x61u8],
            Iso639_1::Wo => seq![0x77u8, 0x6fu8],
            Iso639_1::Xh => seq![0x78u8, 0x68u8],
            Iso639_1::Yi => seq![0x79u8, 0x69u8],
            Iso639_1::Yo => seq![0x79u8, 0x6fu8],
            Iso639_1::Za => seq![0x7au8, 0x61u8],
            Iso639_1::Zh => seq![0x7au8, 0x68u8],
            Iso639_1::Zu => seq![0x7au8, 0x75u8],
            Iso639_1::Unsupported(s) => s.spec_bytes(),
        }
    }

    /// The supported language whose code is `code`, if any.
    pub open spec fn spec_known(code: Seq<u8>) -> Option<Iso639_1<'a>> {
        if code.len() != 2 {
            None
        } else {
            match (code[0], code[1]) {
                (0x61u8, 0x61u8) => Some(Iso639_1::Aa),
                (0x61u8, 0x62u8) => Some(Iso639_1::Ab),
                (0x61u8, 0x65u8) => Some(Iso639_1::Ae),
                (0x61u8, 0x66u8) => Some(Iso639_1::Af),
                (0x61u8, 0x6bu8) => Some(Iso639_1::Ak),
                (0x61u8, 0x6du8) => Some(Iso639_1::Am),
                (0x61u8, 0x6eu8) => Some(Iso639_1::An),
                (0x61u8, 0x72u8) => Some(Iso639_1::Ar),
                (0x61u8, 0x73u8) => Some(Iso639_1::As),
                (0x61u8, 0x76u8) => Some(Iso639_1::Av),
                (0x61u8, 0x79u8) => Some(Iso639_1::Ay),
                (0x61u8, 0x7au8) => Some(Iso639_1::Az),
                (0x62u8, 0x61u8) => Some(Iso639_1::Ba),
                (0x62u8, 0x65u8) => Some(Iso639_1::Be),
                (0x62u8, 0x67u8) => Some(Iso639_1::Bg),
                (0x62u8, 0x68u8) => Some(Iso639_1::Bh),
                (0x62u8, 0x69u8) => Some(Iso639_1::Bi),
                (0x62u8, 0x6du8) => Some(Iso639_1::Bm),
                (0x62u8, 0x6eu8) => Some(Iso639_1::Bn),
                (0x62u8, 0x6fu8) => Some(Iso639_1::Bo),
                (0x62u8, 0x72u8) => Some(Iso639_1::Br),
                (0x62u8, 0x73u8) => Some(Iso639_1::Bs),
                (0x63u8, 0x61u8) => Some(Iso639_1::Ca),
                (0x63u8, 0x65u8) => Some(Iso639_1::Ce),
                (0x63u8, 0x68u8) => Some(Iso639_1::Ch),
                (0x63u8, 0x6fu8) => Some(Iso639_1::Co),
                (0x63u8, 0x72u8) => Some(Iso639_1::Cr),
                (0x63u8, 0x73u8) => Some(Iso639_1::Cs),
                (0x63u8, 0x75u8) => Some(Iso639_1::Cu),
                (0x63u8, 0x76u8) => Some(Iso639_1::Cv),
                (0x63u8, 0x79u8) => Some(Iso639_1::Cy),
                (0x64u8, 0x61u8) => Some(Iso639_1::Da),
                (0x64u8, 0x65u8) => Some(Iso639_1::De),
                (0x64u8, 0x76u8) => Some(Iso639_1::Dv),
                (0x64u8, 0x7au8) => Some(Iso639_1::Dz),
                (0x65u8, 0x65u8) => Some(Iso639_1::Ee),
                (0x65u8, 0x6cu8) => Some(Iso639_1::El),
                (0x65u8, 0x6eu8) => Some(Iso639_1::En),
                (0x65u8, 0x6fu8) => Some(Iso639_1::Eo),
                (0x65u8, 0x73u8) => Some(Iso639_1::Es),
                (0x65u8, 0x74u8) => Some(Iso639_1::Et),
                (0x65u8, 0x75u8) => Some(Iso639_1::Eu),
                (0x66u8, 0x61u8) => Some(Iso639_1::Fa),
                (0x66u8, 0x66u8) => Some(Iso639_1::Ff),
                (0x66u8, 0x69u8) => Some(Iso639_1::Fi),
                (0x66u8, 0x6au8) => Some(Iso639_1::Fj),
                (0x66u8, 0x6fu8) => Some(Iso639_1::Fo),
                (0x66u8, 0x72u8) => Some(Iso639_1::Fr),
                (0x66u8, 0x79u8) => Some(Iso639_1::Fy),
                (0x67u8, 0x61u8) => Some(Iso639_1::Ga),
                (0x67u8, 0x64u8) => Some(Iso639_1::Gd),
                (0x67u8, 0x6cu8) => Some(Iso639_1::Gl),
                (0x67u8, 0x6eu8) => Some(Iso639_1::Gn),
                (0x67u8, 0x75u8) => Some(Iso639_1::Gu),
                (0x67u8, 0x76u8) => Some(Iso639_1::Gv),
                (0x68u8, 0x61u8) => Some(Iso639_1::Ha),
                (0x68u8, 0x65u8) => Some(Iso639_1::He),
                (0x68u8, 0x69u8) => Some(Iso639_1::Hi),
                (0x68u8, 0x6fu8) => Some(Iso639_1::Ho),
                (0x68u8, 0x72u8) => Some(Iso639_1::Hr),
                (0x68u8, 0x74u8) => Some(Iso639_1::Ht),
                (0x68u8, 0x75u8) => Some(Iso639_1::Hu),
                (0x68u8, 0x79u8) => Some(Iso639_1::Hy),
                (0x68u8, 0x7au8) => Some(Iso639_1::Hz),
                (0x69u8, 0x61u8) => Some(Iso639_1::Ia),
                (0x69u8, 0x64u8) => Some(Iso639_1::Id),
                (0x69u8, 0x65u8) => Some(Iso639_1::Ie),
                (0x69u8, 0x67u8) => Some(Iso639_1::Ig),
                (0x69u8, 0x69u8) => Some(Iso639_1::Ii),
                (0x69u8, 0x6bu8) => Some(Iso639_1::Ik),
                (0x69u8, 0x6fu8) => Some(Iso639_1::Io),
                (0x69u8, 0x73u8) => Some(Iso639_1::Is),
                (0x69u8, 0x74u8) => Some(Iso639_1::It),
                (0x69u8, 0x75u8) => Some(Iso639_1::Iu),
                (0x6au8, 0x61u8) => Some(Iso639_1::Ja),
                (0x6au8, 0x76u8) => Some(Iso639_1::Jv),
                (0x6bu8, 0x61u8) => Some(Iso639_1::Ka),
                (0x6bu8, 0x67u8) => Some(Iso639_1::Kg),
                (0x6bu8, 0x69u8) => Some(Iso639_1::Ki),
                (0x6bu8, 0x6au8) => Some(Iso639_1::Kj),
                (0x6bu8, 0x6bu8) => Some(Iso639_1::Kk),
                (0x6bu8, 0x6cu8) => Some(Iso639_1::Kl),
                (0x6bu8, 0x6du8) => Some(Iso639_1::Km),
                (0x6bu8, 0x6eu8) => Some(Iso639_1::Kn),
                (0x6bu8, 0x6fu8) => Some(Iso639_1::Ko),
                (0x6bu8, 0x72u8) => Some(Iso639_1::Kr),
                (0x6bu8, 0x73u8) => Some(Iso639_1::Ks),
                (0x6bu8, 0x75u8) => Some(Iso639_1::Ku),
                (0x6bu8, 0x76u8) => Some(Iso639_1::Kv),
                (0x6bu8, 0x77u8) => Some(Iso639_1::Kw),
                (0x6bu8, 0x79u8) => Some(Iso639_1::Ky),
                (0x6cu8, 0x61u8) => Some(Iso639_1::La),
                (0x6cu8, 0x62u8) => Some(Iso639_1::Lb),
                (0x6cu8, 0x67u8) => Some(Iso639_1::Lg),
                (0x6cu8, 0x69u8) => Some(Iso639_1::Li),
                (0x6cu8, 0x6eu8) => Some(Iso639_1::Ln),
                (0x6cu8, 0x6fu8) => Some(Iso639_1::Lo),
                (0x6cu8, 0x74u8) => Some(Iso639_1::Lt),
                (0x6cu8, 0x75u8) => Some(Iso639_1::Lu),
                (0x6cu8, 0x76u8) => Some(Iso639_1::Lv),
                (0x6du8, 0x67u8) => Some(Iso639_1::Mg),
                (0x6du8, 0x68u8) => Some(Iso639_1::Mh),
                (0x6du8, 0x69u8) => Some(Iso639_1::Mi),
                (0x6du8, 0x6bu8) => Some(Iso639_1::Mk),
                (0x6du8, 0x6cu8) => Some(Iso639_1::Ml),
                (0x6du8, 0x6eu8) => Some(Iso639_1::Mn),
                (0x6du8, 0x72u8) => Some(Iso639_1::Mr),
                (0x6du8, 0x73u8) => Some(Iso639_1::Ms),
                (0x6du8, 0x74u8) => Some(Iso639_1::Mt),
                (0x6du8, 0x79u8) => Some(Iso639_1::My),
                (0x6eu8, 0x61u8) => Some(Iso639_1::Na),
                (0x6eu8, 0x62u8) => Some(Iso639_1::Nb),
                (0x6eu8, 0x64u8) => Some(Iso639_1::Nd),
                (0x6eu8, 0x65u8) => Some(Iso639_1::Ne),
                (0x6eu8, 0x67u8) => Some(Iso639_1::Ng),
                (0x6eu8, 0x6cu8) => Some(Iso639_1::Nl),
                (0x6eu8, 0x6eu8) => Some(Iso639_1::Nn),
                (0x6eu8, 0x6fu8) => Some(Iso639_1::No),
                (0x6eu8, 0x72u8) => Some(Iso639_1::Nr),
                (0x6eu8, 0x76u8) => Some(Iso639_1::Nv),
                (0x6eu8, 0x79u8) => Some(Iso639_1::Ny),
                (0x6fu8, 0x63u8) => Some(Iso639_1::Oc),
                (0x6fu8, 0x6au8) => Some(Iso639_1::Oj),
                (0x6fu8, 0x6du8) => Some(Iso639_1::Om),
                (0x6fu8, 0x72u8) => Some(Iso639_1::Or),
                (0x6fu8, 0x73u8) => Some(Iso639_1::Os),
                (0x70u8, 0x61u8) => Some(Iso639_1::Pa),
                (0x70u8, 0x69u8) => Some(Iso639_1::Pi),
                (0x70u8, 0x6cu8) => Some(Iso639_1::Pl),
                (0x70u8, 0x73u8) => Some(Iso639_1::Ps),
                (0x70u8, 0x74u8) => Some(Iso639_1::Pt),
                (0x71u8, 0x75u8) => Some(Iso639_1::Qu),
                (0x72u8, 0x6du8) => Some(Iso639_1::Rm),
                (0x72u8, 0x6eu8) => Some(Iso639_1::Rn),
                (0x72u8, 0x6fu8) => Some(Iso639_1::Ro),
                (0x72u8, 0x75u8) => Some(Iso639_1::Ru),
                (0x72u8, 0x77u8) => Some(Iso639_1::Rw),
                (0x73u8, 0x61u8) => Some(Iso639_1::Sa),
                (0x73u8, 0x63u8) => Some(Iso639_1::Sc),
                (0x73u8, 0x64u8) => Some(Iso639_1::Sd),
                (0x73u8, 0x65u8) => Some(Iso639_1::Se),
                (0x73u8, 0x67u8) => Some(Iso639_1::Sg),
                (0x73u8, 0x69u8) => Some(Iso639_1::Si),
                (0x73u8, 0x6bu8) => Some(Iso639_1::Sk),
                (0x73u8, 0x6cu8) => Some(Iso639_1::Sl),
                (0x73u8, 0x6du8) => Some(Iso639_1::Sm),
                (0x73u8, 0x6eu8) => Some(Iso639_1::Sn),
                (0x73u8, 0x6fu8) => Some(Iso639_1::So),
                (0x73u8, 0x71u8) => Some(Iso639_1::Sq),
                (0x73u8, 0x72u8) => Some(Iso639_1::Sr),
                (0x73u8, 0x73u8) => Some(Iso639_1::Ss),
                (0x73u8, 0x74u8) => Some(Iso639_1::St),
                (0x73u8, 0x75u8) => Some(Iso639_1::Su),
                (0x73u8, 0x76u8) => Some(Iso639_1::Sv),
                (0x73u8, 0x77u8) => Some(Iso639_1::Sw),
                (0x74u8, 0x61u8) => Some(Iso639_1::Ta),
                (0x74u8, 0x65u8) => Some(Iso639_1::Te),
                (0x74u8, 0x67u8) => Some(Iso639_1::Tg),
                (0x74u8, 0x68u8) => Some(Iso639_1::Th),
                (0x74u8, 0x69u8) => Some(Iso639_1::Ti),
                (0x74u8, 0x6bu8) => Some(Iso639_1::Tk),
                (0x74u8, 0x6cu8) => Some(Iso639_1::Tl),
                (0x74u8, 0x6eu8) => Some(Iso639_1::Tn),
                (0x74u8, 0x6fu8) => Some(Iso639_1::To),
                (0x74u8, 0x72u8) => Some(Iso639_1::Tr),
                (0x74u8, 0x73u8) => Some(Iso639_1::Ts),
                (0x74u8, 0x74u8) => Some(Iso639_1::Tt),
                (0x74u8, 0x77u8) => Some(Iso639_1::Tw),
                (0x74u8, 0x79u8) => Some(Iso639_1::Ty),
                (0x75u8, 0x67u8) => Some(Iso639_1::Ug),
                (0x75u8, 0x6bu8) => Some(Iso639_1::Uk),
                (0x75u8, 0x72u8) => Some(Iso639_1::Ur),
                (0x75u8, 0x7au8) => Some(Iso639_1::Uz),
                (0x76u8, 0x65u8) => Some(Iso639_1::Ve),
                (0x76u8, 0x69u8) => Some(Iso639_1::Vi),
                (0x76u8, 0x6fu8) => Some(Iso639_1::Vo),
                (0x77u8, 0x61u8) => Some(Iso639_1::Wa),
                (0x77u8, 0x6fu8) => Some(Iso639_1::Wo),
                (0x78u8, 0x68u8) => Some(Iso639_1::Xh),
                (0x79u8, 0x69u8) => Some(Iso639_1::Yi),
                (0x79u8, 0x6fu8) => Some(Iso639_1::Yo),
                (0x7au8, 0x61u8) => Some(Iso639_1::Za),
                (0x7au8, 0x68u8) => Some(Iso639_1::Zh),
                (0x7au8, 0x75u8) => Some(Iso639_1::Zu),
                _ => None,
            }
        }
    }

    /// The language that `code` names: a supported one, or an unsupported code.
    pub open spec fn spec_from_str(code: &'a str) -> Self {
        match Self::spec_known(code.spec_bytes()) {
            Some(l) => l,
            None => Iso639_1::Unsupported(code),
        }
    }

    /// Whether the value is one that its code names: an unsupported code names no supported language.
    pub open spec fn spec_canonical(self) -> bool {
        match self {
            Iso639_1::Unsupported(s) => Self::spec_known(s.spec_bytes()) is None,
            _ => true,
        }
    }

    /// The code as a string slice.
    #[verifier::spinoff_prover]
    #[verifier::rlimit(100)]
    pub fn as_str(&self) -> (r: &'a str)
        ensures
            r.spec_bytes() == self.spec_code(),
            self matches Iso639_1::Unsupported(s) ==> r == s,
    {
        match self {
            Iso639_1::Aa => {
                proof {
                    reveal_strlit("aa");
                    vstd::string::is_ascii_spec_bytes("aa");
                }
                "aa"
            },
            Iso639_1::Ab => {
                proof {
                    reveal_strlit("ab");
                    vstd::string::is_ascii_spec_bytes("ab");
                }
                "ab"
            },
            Iso639_1::Ae => {
                proof {
                    reveal_strlit("ae");
                    vstd::string::is_ascii_spec_bytes("ae");
                }
                "ae"
            },
            Iso639_1::Af => {
                proof {
                    reveal_strlit("af");
                    vstd::string::is_ascii_spec_bytes("af");
                }
                "af"
            },
            Iso639_1::Ak => {
                proof {
                    reveal_strlit("ak");
                    vstd::string::is_ascii_spec_bytes("ak");
                }
                "ak"
            },
            Iso639_1::Am => {
                proof {
                    reveal_strlit("am");
                    vstd::string::is_ascii_spec_bytes("am");
                }
                "am"
            },
            Iso639_1::An => {
                proof {
                    reveal_strlit("an");
                    vstd::string::is_ascii_spec_bytes("an");
                }
                "an"
            },
            Iso639_1::Ar => {
                proof {
                    reveal_strlit("ar");
                    vstd::string::is_ascii_spec_bytes("ar");
                }
                "ar"
            },
            Iso639_1::As => {
                proof {
                    reveal_strlit("as");
                    vstd::string::is_ascii_spec_bytes("as");
                }
                "as"
            },
            Iso639_1::Av => {
                proof {
                    reveal_strlit("av");
                    vstd::string::is_ascii_spec_bytes("av");
                }
                "av"
            },
            Iso639_1::Ay => {
                proof {
                    reveal_strlit("ay");
                    vstd::string::is_ascii_spec_bytes("ay");
                }
                "ay"
            },
            Iso639_1::Az => {
                proof {
                    reveal_strlit("az");
                    vstd::string::is_ascii_spec_bytes("az");
                }
                "az"
            },
            Iso639_1::Ba => {
                proof {
                    reveal_strlit("ba");
                    vstd::string::is_ascii_spec_bytes("ba");
                }
                "ba"
            },
            Iso639_1::Be => {
                proof {
                    reveal_strlit("be");
                    vstd::string::is_ascii_spec_bytes("be");
                }
                "be"
            },
            Iso639_1::Bg => {
                proof {
                    reveal_strlit("bg");
                    vstd::string::is_ascii_spec_bytes("bg");
                }
                "bg"
            },
            Iso639_1::Bh => {
                proof {
                    reveal_strlit("bh");
                    vstd::string::is_ascii_spec_bytes("bh");
                }
                "bh"
            },
            Iso639_1::Bi => {
                proof {
                    reveal_strlit("bi");
                    vstd::string::is_ascii_spec_bytes("bi");
                }
                "bi"
            },
            Iso639_1::Bm => {
                proof {
                    reveal_strlit("bm");
                    vstd::string::is_ascii_spec_bytes("bm");
                }
                "bm"
            },
            Iso639_1::Bn => {
                proof {
                    reveal_strlit("bn");
                    vstd::string::is_ascii_spec_bytes("bn");
                }
                "bn"
            },
            Iso639_1::Bo => {
                proof {
                    reveal_strlit("bo");
                    vstd::string::is_ascii_spec_bytes("bo");
                }
                "bo"
            },
            Iso639_1::Br => {
                proof {
                    reveal_strlit("br");
                    vstd::string::is_ascii_spec_bytes("br");
                }
                "br"
            },
            Iso639_1::Bs => {
                proof {
                    reveal_strlit("bs");
                    vstd::string::is_ascii_spec_bytes("bs");
                }
                "bs"
            },
            Iso639_1::Ca => {
                proof {
                    reveal_strlit("ca");
                    vstd::string::is_ascii_spec_bytes("ca");
                }
                "ca"
            },
            Iso639_1::Ce => {
                proof {
                    reveal_strlit("ce");
                    vstd::string::is_ascii_spec_bytes("ce");
                }
                "ce"
            },
            Iso639_1::Ch => {
                proof {
                    reveal_strlit("ch");
                    vstd::string::is_ascii_spec_bytes("ch");
                }
                "ch"
            },
            Iso639_1::Co => {
                proof {
                    reveal_strlit("co");
                    vstd::string::is_ascii_spec_bytes("co");
                }
                "co"
            },
            Iso639_1::Cr => {
                proof {
                    reveal_strlit("cr");
                    vstd::string::is_ascii_spec_bytes("cr");
                }
                "cr"
            },
            Iso639_1::Cs => {
                proof {
                    reveal_strlit("cs");
                    vstd::string::is_ascii_spec_bytes("cs");
                }
                "cs"
            },
            Iso639_1::Cu => {
                proof {
                    reveal_strlit("cu");
                    vstd::string::is_ascii_spec_bytes("cu");
                }
                "cu"
            },
            Iso639_1::Cv => {
                proof {
                    reveal_strlit("cv");
                    vstd::string::is_ascii_spec_bytes("cv");
                }
                "cv"
            },
            Iso639_1::Cy => {
                proof {
                    reveal_strlit("cy");
                    vstd::string::is_ascii_spec_bytes("cy");
                }
                "cy"
            },
            Iso639_1::Da => {
                proof {
                    reveal_strlit("da");
                    vstd::string::is_ascii_spec_bytes("da");
                }
                "da"
            },
            Iso639_1::De => {
                proof {
                    reveal_strlit("de");
                    vstd::string::is_ascii_spec_bytes("de");
                }
                "de"
            },
            Iso639_1::Dv => {
                proof {
                    reveal_strlit("dv");
                    vstd::string::is_ascii_spec_bytes("dv");
                }
                "dv"
            },
            Iso639_1::Dz => {
                proof {
                    reveal_strlit("dz");
                    vstd::string::is_ascii_spec_bytes("dz");
                }
                "dz"
            },
            Iso639_1::Ee => {
                proof {
                    reveal_strlit("ee");
                    vstd::string::is_ascii_spec_bytes("ee");
                }
                "ee"
            },
            Iso639_1::El => {
                proof {
                    reveal_strlit("el");
                    vstd::string::is_ascii_spec_bytes("el");
                }
                "el"
            },
            Iso639_1::En => {
                proof {
                    reveal_strlit("en");
                    vstd::string::is_ascii_spec_bytes("en");
                }
                "en"
            },
            Iso639_1::Eo => {
                proof {
                    reveal_strlit("eo");
                    vstd::string::is_ascii_spec_bytes("eo");
                }
                "eo"
            },
            Iso639_1::Es => {
                proof {
                    reveal_strlit("es");
                    vstd::string::is_ascii_spec_bytes("es");
                }
                "es"
            },
            Iso639_1::Et => {
                proof {
                    reveal_strlit("et");
                    vstd::string::is_ascii_spec_bytes("et");
                }
                "et"
            },
            Iso639_1::Eu => {
                proof {
                    reveal_strlit("eu");
                    vstd::string::is_ascii_spec_bytes("eu");
                }
                "eu"
            },
            Iso639_1::Fa => {
                proof {
                    reveal_strlit("fa");
                    vstd::string::is_ascii_spec_bytes("fa");
                }
                "fa"
            },
            Iso639_1::Ff => {
                proof {
                    reveal_strlit("ff");
                    vstd::string::is_ascii_spec_bytes("ff");
                }
                "ff"
            },
            Iso639_1::Fi => {
                proof {
                    reveal_strlit("fi");
                    vstd::string::is_ascii_spec_bytes("fi");
                }
                "fi"
            },
            Iso639_1::Fj => {
                proof {
                    reveal_strlit("fj");
                    vstd::string::is_ascii_spec_bytes("fj");
                }
                "fj"
            },
            Iso639_1::Fo => {
                proof {
                    reveal_strlit("fo");
                    vstd::string::is_ascii_spec_bytes("fo");
                }
                "fo"
            },
            Iso639_1::Fr => {
                proof {
                    reveal_strlit("fr");
                    vstd::string::is_ascii_spec_bytes("fr");
                }
                "fr"
            },
            Iso639_1::Fy => {
                proof {
                    reveal_strlit("fy");
                    vstd::string::is_ascii_spec_bytes("fy");
                }
                "fy"
            },
            Iso639_1::Ga => {
                proof {
                    reveal_strlit("ga");
                    vstd::string::is_ascii_spec_bytes("ga");
                }
                "ga"
            },
            Iso639_1::Gd => {
                proof {
                    reveal_strlit("gd");
                    vstd::string::is_ascii_spec_bytes("gd");
                }
                "gd"
            },
            Iso639_1::Gl => {
                proof {
                    reveal_strlit("gl");
                    vstd::string::is_ascii_spec_bytes("gl");
                }
                "gl"
            },
            Iso639_1::Gn => {
                proof {
                    reveal_strlit("gn");
                    vstd::string::is_ascii_spec_bytes("gn");
                }
                "gn"
            },
            Iso639_1::Gu => {
                proof {
                    reveal_strlit("gu");
                    vstd::string::is_ascii_spec_bytes("gu");
                }
                "gu"
            },
            Iso639_1::Gv => {
                proof {
                    reveal_strlit("gv");
                    vstd::string::is_ascii_spec_bytes("gv");
                }
                "gv"
            },
            Iso639_1::Ha => {
                proof {
                    reveal_strlit("ha");
                    vstd::string::is_ascii_spec_bytes("ha");
                }
                "ha"
            },
            Iso639_1::He => {
                proof {
                    reveal_strlit("he");
                    vstd::string::is_ascii_spec_bytes("he");
                }
                "he"
            },
            Iso639_1::Hi => {
                proof {
                    reveal_strlit("hi");
                    vstd::string::is_ascii_spec_bytes("hi");
                }
                "hi"
            },
            Iso639_1::Ho => {
                proof {
                    reveal_strlit("ho");
                    vstd::string::is_ascii_spec_bytes("ho");
                }
                "ho"
            },
            Iso639_1::Hr => {
                proof {
                    reveal_strlit("hr");
                    vstd::string::is_ascii_spec_bytes("hr");
                }
                "hr"
            },
            Iso639_1::Ht => {
                proof {
                    reveal_strlit("ht");
                    vstd::string::is_ascii_spec_bytes("ht");
                }
                "ht"
            },
            Iso639_1::Hu => {
                proof {
                    reveal_strlit("hu");
                    vstd::string::is_ascii_spec_bytes("hu");
                }
                "hu"
            },
            Iso639_1::Hy => {
                proof {
                    reveal_strlit("hy");
                    vstd::string::is_ascii_spec_bytes("hy");
                }
                "hy"
            },
            Iso639_1::Hz => {
                proof {
                    reveal_strlit("hz");
                    vstd::string::is_ascii_spec_bytes("hz");
                }
                "hz"
            },
            Iso639_1::Ia => {
                proof {
                    reveal_strlit("ia");
                    vstd::string::is_ascii_spec_bytes("ia");
                }
                "ia"
            },
            Iso639_1::Id => {
                proof {
                    reveal_strlit("id");
                    vstd::string::is_ascii_spec_bytes("id");
                }
                "id"
            },
            Iso639_1::Ie => {
                proof {
                    reveal_strlit("ie");
                    vstd::string::is_ascii_spec_bytes("ie");
                }
                "ie"
            },
            Iso639_1::Ig => {
                proof {
                    reveal_strlit("ig");
                    vstd::string::is_ascii_spec_bytes("ig");
                }
                "ig"
            },
            Iso639_1::Ii => {
                proof {
                    reveal_strlit("ii");
                    vstd::string::is_ascii_spec_bytes("ii");
                }
                "ii"
            },
            Iso639_1::Ik => {
                proof {
                    reveal_strlit("ik");
                    vstd::string::is_ascii_spec_bytes("ik");
                }
                "ik"
            },
            Iso639_1::Io => {
                proof {
                    reveal_strlit("io");
                    vstd::string::is_ascii_spec_bytes("io");
                }
                "io"
            },
            Iso639_1::Is => {
                proof {
                    reveal_strlit("is");
                    vstd::string::is_ascii_spec_bytes("is");
                }
                "is"
            },
            Iso639_1::It => {
                proof {
                    reveal_strlit("it");
                    vstd::string::is_ascii_spec_bytes("it");
                }
                "it"
            },
            Iso639_1::Iu => {
                proof {
                    reveal_strlit("iu");
                    vstd::string::is_ascii_spec_bytes("iu");
                }
                "iu"
            },
            Iso639_1::Ja => {
                proof {
                    reveal_strlit("ja");
                    vstd::string::is_ascii_spec_bytes("ja");
                }
                "ja"
            },
            Iso639_1::Jv => {
                proof {
                    reveal_strlit("jv");
                    vstd::string::is_ascii_spec_bytes("jv");
                }
                "jv"
            },
            Iso639_1::Ka => {
                proof {
                    reveal_strlit("ka");
                    vstd::string::is_ascii_spec_bytes("ka");
                }
                "ka"
            },
            Iso639_1::Kg => {
                proof {
                    reveal_strlit("kg");
                    vstd::string::is_ascii_spec_bytes("kg");
                }
                "kg"
            },
            Iso639_1::Ki => {
                proof {
                    reveal_strlit("ki");
                    vstd::string::is_ascii_spec_bytes("ki");
                }
                "ki"
            },
            Iso639_1::Kj => {
                proof {
                    reveal_strlit("kj");
                    vstd::string::is_ascii_spec_bytes("kj");
                }
                "kj"
            },
            Iso639_1::Kk => {
                proof {
                    reveal_strlit("kk");
                    vstd::string::is_ascii_spec_bytes("kk");
                }
                "kk"
            },
            Iso639_1::Kl => {
                proof {
                    reveal_strlit("kl");
                    vstd::string::is_ascii_spec_bytes("kl");
                }
                "kl"
            },
            Iso639_1::Km => {
                proof {
                    reveal_strlit("km");
                    vstd::string::is_ascii_spec_bytes("km");
                }
                "km"
            },
            Iso639_1::Kn => {
                proof {
                    reveal_strlit("kn");
                    vstd::string::is_ascii_spec_bytes("kn");
                }
                "kn"
            },
            Iso639_1::Ko => {
                proof {
                    reveal_strlit("ko");
                    vstd::string::is_ascii_spec_bytes("ko");
                }
                "ko"
            },
            Iso639_1::Kr => {
                proof {
                    reveal_strlit("kr");
                    vstd::string::is_ascii_spec_bytes("kr");
                }
                "kr"
            },
            Iso639_1::Ks => {
                proof {
                    reveal_strlit("ks");
                    vstd::string::is_ascii_spec_bytes("ks");
                }
                "ks"
            },
            Iso639_1::Ku => {
                proof {
                    reveal_strlit("ku");
                    vstd::string::is_ascii_spec_bytes("ku");
                }
                "ku"
            },
            Iso639_1::Kv => {
                proof {
                    reveal_strlit("kv");
                    vstd::string::is_ascii_spec_bytes("kv");
                }
                "kv"
            },
            Iso639_1::Kw => {
                proof {
                    reveal_strlit("kw");
                    vstd::string::is_ascii_spec_bytes("kw");
                }
                "kw"
            },
            Iso639_1::Ky => {
                proof {
                    reveal_strlit("ky");
                    vstd::string::is_ascii_spec_bytes("ky");
                }
                "ky"
            },
            Iso639_1::La => {
                proof {
                    reveal_strlit("la");
                    vstd::string::is_ascii_spec_bytes("la");
                }
                "la"
            },
            Iso639_1::Lb => {
                proof {
                    reveal_strlit("lb");
                    vstd::string::is_ascii_spec_bytes("lb");
                }
                "lb"
            },
            Iso639_1::Lg => {
                proof {
                    reveal_strlit("lg");
                    vstd::string::is_ascii_spec_bytes("lg");
                }
                "lg"
            },
            Iso639_1::Li => {
                proof {
                    reveal_strlit("li");
                    vstd::string::is_ascii_spec_bytes("li");
                }
                "li"
            },
            Iso639_1::Ln => {
                proof {
                    reveal_strlit("ln");
                    vstd::string::is_ascii_spec_bytes("ln");
                }
                "ln"
            },
            Iso639_1::Lo => {
                proof {
                    reveal_strlit("lo");
                    vstd::string::is_ascii_spec_bytes("lo");
                }
                "lo"
            },
            Iso639_1::Lt => {
                proof {
                    reveal_strlit("lt");
                    vstd::string::is_ascii_spec_bytes("lt");
                }
                "lt"
            },
            Iso639_1::Lu => {
                proof {
                    reveal_strlit("lu");
                    vstd::string::is_ascii_spec_bytes("lu");
                }
                "lu"
            },
            Iso639_1::Lv => {
                proof {
                    reveal_strlit("lv");
                    vstd::string::is_ascii_spec_bytes("lv");
                }
                "lv"
            },
            Iso639_1::Mg => {
                proof {
                    reveal_strlit("mg");
                    vstd::string::is_ascii_spec_bytes("mg");
                }
                "mg"
            },
            Iso639_1::Mh => {
                proof {
                    reveal_strlit("mh");
                    vstd::string::is_ascii_spec_bytes("mh");
                }
                "mh"
            },
            Iso639_1::Mi => {
                proof {
                    reveal_strlit("mi");
                    vstd::string::is_ascii_spec_bytes("mi");
                }
                "mi"
            },
            Iso639_1::Mk => {
                proof {
                    reveal_strlit("mk");
                    vstd::string::is_ascii_spec_bytes("mk");
                }
                "mk"
            },
            Iso639_1::Ml => {
                proof {
                    reveal_strlit("ml");
                    vstd::string::is_ascii_spec_bytes("ml");
                }
                "ml"
            },
            Iso639_1::Mn => {
                proof {
                    reveal_strlit("mn");
                    vstd::string::is_ascii_spec_bytes("mn");
                }
                "mn"
            },
            Iso639_1::Mr => {
                proof {
                    reveal_strlit("mr");
                    vstd::string::is_ascii_spec_bytes("mr");
                }
                "mr"
            },
            Iso639_1::Ms => {
                proof {
                    reveal_strlit("ms");
                    vstd::string::is_ascii_spec_bytes("ms");
                }
                "ms"
            },
            Iso639_1::Mt => {
                proof {
                    reveal_strlit("mt");
                    vstd::string::is_ascii_spec_bytes("mt");
                }
                "mt"
            },
            Iso639_1::My => {
                proof {
                    reveal_strlit("my");
                    vstd::string::is_ascii_spec_bytes("my");
                }
                "my"
            },
            Iso639_1::Na => {
                proof {
                    reveal_strlit("na");
                    vstd::string::is_ascii_spec_bytes("na");
                }
                "na"
            },
            Iso639_1::Nb => {
                proof {
                    reveal_strlit("nb");
                    vstd::string::is_ascii_spec_bytes("nb");
                }
                "nb"
            },
            Iso639_1::Nd => {
                proof {
                    reveal_strlit("nd");
                    vstd::string::is_ascii_spec_bytes("nd");
                }
                "nd"
            },
            Iso639_1::Ne => {
                proof {
                    reveal_strlit("ne");
                    vstd::string::is_ascii_spec_bytes("ne");
                }
                "ne"
            },
            Iso639_1::Ng => {
                proof {
                    reveal_strlit("ng");
                    vstd::string::is_ascii_spec_bytes("ng");
                }
                "ng"
            },
            Iso639_1::Nl => {
                proof {
                    reveal_strlit("nl");
                    vstd::string::is_ascii_spec_bytes("nl");
                }
                "nl"
            },
            Iso639_1::Nn => {
                proof {
                    reveal_strlit("nn");
                    vstd::string::is_ascii_spec_bytes("nn");
                }
                "nn"
            },
            Iso639_1::No => {
                proof {
                    reveal_strlit("no");
                    vstd::string::is_ascii_spec_bytes("no");
                }
                "no"
            },
            Iso639_1::Nr => {
                proof {
                    reveal_strlit("nr");
                    vstd::string::is_ascii_spec_bytes("nr");
                }
                "nr"
            },
            Iso639_1::Nv => {
                proof {
                    reveal_strlit("nv");
                    vstd::string::is_ascii_spec_bytes("nv");
                }
                "nv"
            },
            Iso639_1::Ny => {
                proof {
                    reveal_strlit("ny");
                    vstd::string::is_ascii_spec_bytes("ny");
                }
                "ny"
            },
            Iso639_1::Oc => {
                proof {
                    reveal_strlit("oc");
                    vstd::string::is_ascii_spec_bytes("oc");
                }
                "oc"
            },
            Iso639_1::Oj => {
                proof {
                    reveal_strlit("oj");
                    vstd::string::is_ascii_spec_bytes("oj");
                }
                "oj"
            },
            Iso639_1::Om => {
                proof {
                    reveal_strlit("om");
                    vstd::string::is_ascii_spec_bytes("om");
                }
                "om"
            },
            Iso639_1::Or => {
                proof {
                    reveal_strlit("or");
                    vstd::string::is_ascii_spec_bytes("or");
                }
                "or"
            },
            Iso639_1::Os => {
                proof {
                    reveal_strlit("os");
                    vstd::string::is_ascii_spec_bytes("os");
                }
                "os"
            },
            Iso639_1::Pa => {
                proof {
                    reveal_strlit("pa");
                    vstd::string::is_ascii_spec_bytes("pa");
                }
                "pa"
            },
            Iso639_1::Pi => {
                proof {
                    reveal_strlit("pi");
                    vstd::string::is_ascii_spec_bytes("pi");
                }
                "pi"
            },
            Iso639_1::Pl => {
                proof {
                    reveal_strlit("pl");
                    vstd::string::is_ascii_spec_bytes("pl");
                }
                "pl"
            },
            Iso639_1::Ps => {
                proof {
                    reveal_strlit("ps");
                    vstd::string::is_ascii_spec_bytes("ps");
                }
                "ps"
            },
            Iso639_1::Pt => {
                proof {
                    reveal_strlit("pt");
                    vstd::string::is_ascii_spec_bytes("pt");
                }
                "pt"
            },
            Iso639_1::Qu => {
                proof {
                    reveal_strlit("qu");
                    vstd::string::is_ascii_spec_bytes("qu");
                }
                "qu"
            },
            Iso639_1::Rm => {
                proof {
                    reveal_strlit("rm");
                    vstd::string::is_ascii_spec_bytes("rm");
                }
                "rm"
            },
            Iso639_1::Rn => {
                proof {
                    reveal_strlit("rn");
                    vstd::string::is_ascii_spec_bytes("rn");
                }
                "rn"
            },
            Iso639_1::Ro => {
                proof {
                    reveal_strlit("ro");
                    vstd::string::is_ascii_spec_bytes("ro");
                }
                "ro"
            },
            Iso639_1::Ru => {
                proof {
                    reveal_strlit("ru");
                    vstd::string::is_ascii_spec_bytes("ru");
                }
                "ru"
            },
            Iso639_1::Rw => {
                proof {
                    reveal_strlit("rw");
                    vstd::string::is_ascii_spec_bytes("rw");
                }
                "rw"
            },
            Iso639_1::Sa => {
                proof {
                    reveal_strlit("sa");
                    vstd::string::is_ascii_spec_bytes("sa");
                }
                "sa"
            },
            Iso639_1::Sc => {
                proof {
                    reveal_strlit("sc");
                    vstd::string::is_ascii_spec_bytes("sc");
                }
                "sc"
            },
            Iso639_1::Sd => {
                proof {
                    reveal_strlit("sd");
                    vstd::string::is_ascii_spec_bytes("sd");
                }
                "sd"
            },
            Iso639_1::Se => {
                proof {
                    reveal_strlit("se");
                    vstd::string::is_ascii_spec_bytes("se");
                }
                "se"
            },
            Iso639_1::Sg => {
                proof {
                    reveal_strlit("sg");
                    vstd::string::is_ascii_spec_bytes("sg");
                }
                "sg"
            },
            Iso639_1::Si => {
                proof {
                    reveal_strlit("si");
                    vstd::string::is_ascii_spec_bytes("si");
                }
                "si"
            },
            Iso639_1::Sk => {
                proof {
                    reveal_strlit("sk");
                    vstd::string::is_ascii_spec_bytes("sk");
                }
                "sk"
            },
            Iso639_1::Sl => {
                proof {
                    reveal_strlit("sl");
                    vstd::string::is_ascii_spec_bytes("sl");
                }
                "sl"
            },
            Iso639_1::Sm => {
                proof {
                    reveal_strlit("sm");
                    vstd::string::is_ascii_spec_bytes("sm");
                }
                "sm"
            },
            Iso639_1::Sn => {
                proof {
                    reveal_strlit("sn");
                    vstd::string::is_ascii_spec_bytes("sn");
                }
                "sn"
            },
            Iso639_1::So => {
                proof {
                    reveal_strlit("so");
                    vstd::string::is_ascii_spec_bytes("so");
                }
                "so"
            },
            Iso639_1::Sq => {
                proof {
                    reveal_strlit("sq");
                    vstd::string::is_ascii_spec_bytes("sq");
                }
                "sq"
            },
            Iso639_1::Sr => {
                proof {
                    reveal_strlit("sr");
                    vstd::string::is_ascii_spec_bytes("sr");
                }
                "sr"
            },
            Iso639_1::Ss => {
                proof {
                    reveal_strlit("ss");
                    vstd::string::is_ascii_spec_bytes("ss");
                }
                "ss"
            },
            Iso639_1::St => {
                proof {
                    reveal_strlit("st");
                    vstd::string::is_ascii_spec_bytes("st");
                }
                "st"
            },
            Iso639_1::Su => {
                proof {
                    reveal_strlit("su");
                    vstd::string::is_ascii_spec_bytes("su");
                }
                "su"
            },
            Iso639_1::Sv => {
                proof {
                    reveal_strlit("sv");
                    vstd::string::is_ascii_spec_bytes("sv");
                }
                "sv"
            },
            Iso639_1::Sw => {
                proof {
                    reveal_strlit("sw");
                    vstd::string::is_ascii_spec_bytes("sw");
                }
                "sw"
            },
            Iso639_1::Ta => {
                proof {
                    reveal_strlit("ta");
                    vstd::string::is_ascii_spec_bytes("ta");
                }
                "ta"
            },
            Iso639_1::Te => {
                proof {
                    reveal_strlit("te");
                    vstd::string::is_ascii_spec_bytes("te");
                }
                "te"
            },
            Iso639_1::Tg => {
                proof {
                    reveal_strlit("tg");
                    vstd::string::is_ascii_spec_bytes("tg");
                }
                "tg"
            },
            Iso639_1::Th => {
                proof {
                    reveal_strlit("th");
                    vstd::string::is_ascii_spec_bytes("th");
                }
                "th"
            },
            Iso639_1::Ti => {
                proof {
                    reveal_strlit("ti");
                    vstd::string::is_ascii_spec_bytes("ti");
                }
                "ti"
            },
            Iso639_1::Tk => {
                proof {
                    reveal_strlit("tk");
                    vstd::string::is_ascii_spec_bytes("tk");
                }
                "tk"
            },
            Iso639_1::Tl => {
                proof {
                    reveal_strlit("tl");
                    vstd::string::is_ascii_spec_bytes("tl");
                }
                "tl"
            },
            Iso639_1::Tn => {
                proof {
                    reveal_strlit("tn");
                    vstd::string::is_ascii_spec_bytes("tn");
                }
                "tn"
            },
            Iso639_1::To => {
                proof {
                    reveal_strlit("to");
                    vstd::string::is_ascii_spec_bytes("to");
                }
                "to"
            },
            Iso639_1::Tr => {
                proof {
                    reveal_strlit("tr");
                    vstd::string::is_ascii_spec_bytes("tr");
                }
                "tr"
            },
            Iso639_1::Ts => {
                proof {
                    reveal_strlit("ts");
                    vstd::string::is_ascii_spec_bytes("ts");
                }
                "ts"
            },
            Iso639_1::Tt => {
                proof {
                    reveal_strlit("tt");
                    vstd::string::is_ascii_spec_bytes("tt");
                }
                "tt"
            },
            Iso639_1::Tw => {
                proof {
                    reveal_strlit("tw");
                    vstd::string::is_ascii_spec_bytes("tw");
                }
                "tw"
            },
            Iso639_1::Ty => {
                proof {
                    reveal_strlit("ty");
                    vstd::string::is_ascii_spec_bytes("ty");
                }
                "ty"
            },
            Iso639_1::Ug => {
                proof {
                    reveal_strlit("ug");
                    vstd::string::is_ascii_spec_bytes("ug");
                }
                "ug"
            },
            Iso639_1::Uk => {
                proof {
                    reveal_strlit("uk");
                    vstd::string::is_ascii_spec_bytes("uk");
                }
                "uk"
            },
            Iso639_1::Ur => {
                proof {
                    reveal_strlit("ur");
                    vstd::string::is_ascii_spec_bytes("ur");
                }
                "ur"
            },
            Iso639_1::Uz => {
                proof {
                    reveal_strlit("uz");
                    vstd::string::is_ascii_spec_bytes("uz");
                }
                "uz"
            },
            Iso639_1::Ve => {
                proof {
                    reveal_strlit("ve");
                    vstd::string::is_ascii_spec_bytes("ve");
                }
                "ve"
            },
            Iso639_1::Vi => {
                proof {
                    reveal_strlit("vi");
                    vstd::string::is_ascii_spec_bytes("vi");
                }
                "vi"
            },
            Iso639_1::Vo => {
                proof {
                    reveal_strlit("vo");
                    vstd::string::is_ascii_spec_bytes("vo");
                }
                "vo"
            },
            Iso639_1::Wa => {
                proof {
                    reveal_strlit("wa");
                    vstd::string::is_ascii_spec_bytes("wa");
                }
                "wa"
            },
            Iso639_1::Wo => {
                proof {
                    reveal_strlit("wo");
                    vstd::string::is_ascii_spec_bytes("wo");
                }
                "wo"
            },
            Iso639_1::Xh => {
                proof {
                    reveal_strlit("xh");
                    vstd::string::is_ascii_spec_bytes("xh");
                }
                "xh"
            },
            Iso639_1::Yi => {
                proof {
                    reveal_strlit("yi");
                    vstd::string::is_ascii_spec_bytes("yi");
                }
                "yi"
            },
            Iso639_1::Yo => {
                proof {
                    reveal_strlit("yo");
                    vstd::string::is_ascii_spec_bytes("yo");
                }
                "yo"
            },
            Iso639_1::Za => {
                proof {
                    reveal_strlit("za");
                    vstd::string::is_ascii_spec_bytes("za");
                }
                "za"
            },
            Iso639_1::Zh => {
                proof {
                    reveal_strlit("zh");
                    vstd::string::is_ascii_spec_bytes("zh");
                }
                "zh"
            },
            Iso639_1::Zu => {
                proof {
                    reveal_strlit("zu");
                    vstd::string::is_ascii_spec_bytes("zu");
                }
                "zu"
            },
            Iso639_1::Unsupported(value) => value,
        }
    }

    /// The language that `code` names.
    #[verifier::spinoff_prover]
    #[verifier::rlimit(100)]
    pub fn from_str(code: &'a str) -> (r: Self)
        ensures
            r == Self::spec_from_str(code),
    {
        let b = code.as_bytes();
        if b.len() != 2 {
            return Iso639_1::Unsupported(code);
        }
        match (b[0], b[1]) {
            (0x61, 0x61) => Iso639_1::Aa,
            (0x61, 0x62) => Iso639_1::Ab,
            (0x61, 0x65) => Iso639_1::Ae,
            (0x61, 0x66) => Iso639_1::Af,
            (0x61, 0x6b) => Iso639_1::Ak,
            (0x61, 0x6d) => Iso639_1::Am,
            (0x61, 0x6e) => Iso639_1::An,
            (0x61, 0x72) => Iso639_1::Ar,
            (0x61, 0x73) => Iso639_1::As,
            (0x61, 0x76) => Iso639_1::Av,
            (0x61, 0x79) => Iso639_1::Ay,
            (0x61, 0x7a) => Iso639_1::Az,
            (0x62, 0x61) => Iso639_1::Ba,
            (0x62, 0x65) => Iso639_1::Be,
            (0x62, 0x67) => Iso639_1::Bg,
            (0x62, 0x68) => Iso639_1::Bh,
            (0x62, 0x69) => Iso639_1::Bi,
            (0x62, 0x6d) => Iso639_1::Bm,
            (0x62, 0x6e) => Iso639_1::Bn,
            (0x62, 0x6f) => Iso639_1::Bo,
            (0x62, 0x72) => Iso639_1::Br,
            (0x62, 0x73) => Iso639_1::Bs,
            (0x63, 0x61) => Iso639_1::Ca,
            (0x63, 0x65) => Iso639_1::Ce,
            (0x63, 0x68) => Iso639_1::Ch,
            (0x63, 0x6f) => Iso639_1::Co,
            (0x63, 0x72) => Iso639_1::Cr,
            (0x63, 0x73) => Iso639_1::Cs,
            (0x63, 0x75) => Iso639_1::Cu,
            (0x63, 0x76) => Iso639_1::Cv,
            (0x63, 0x79) => Iso639_1::Cy,
            (0x64, 0x61) => Iso639_1::Da,
            (0x64, 0x65) => Iso639_1::De,
            (0x64, 0x76) => Iso639_1::Dv,
            (0x64, 0x7a) => Iso639_1::Dz,
            (0x65, 0x65) => Iso639_1::Ee,
            (0x65, 0x6c) => Iso639_1::El,
            (0x65, 0x6e) => Iso639_1::En,
            (0x65, 0x6f) => Iso639_1::Eo,
            (0x65, 0x73) => Iso639_1::Es,
            (0x65, 0x74) => Iso639_1::Et,
            (0x65, 0x75) => Iso639_1::Eu,
            (0x66, 0x61) => Iso639_1::Fa,
            (0x66, 0x66) => Iso639_1::Ff,
            (0x66, 0x69) => Iso639_1::Fi,
            (0x66, 0x6a) => Iso639_1::Fj,
            (0x66, 0x6f) => Iso639_1::Fo,
            (0x66, 0x72) => Iso639_1::Fr,
            (0x66, 0x79) => Iso639_1::Fy,
            (0x67, 0x61) => Iso639_1::Ga,
            (0x67, 0x64) => Iso639_1::Gd,
            (0x67, 0x6c) => Iso639_1::Gl,
            (0x67, 0x6e) => Iso639_1::Gn,
            (0x67, 0x75) => Iso639_1::Gu,
            (0x67, 0x76) => Iso639_1::Gv,
            (0x68, 0x61) => Iso639_1::Ha,
            (0x68, 0x65) => Iso639_1::He,
            (0x68, 0x69) => Iso639_1::Hi,
            (0x68, 0x6f) => Iso639_1::Ho,
            (0x68, 0x72) => Iso639_1::Hr,
            (0x68, 0x74) => Iso639_1::Ht,
            (0x68, 0x75) => Iso639_1::Hu,
            (0x68, 0x79) => Iso639_1::Hy,
            (0x68, 0x7a) => Iso639_1::Hz,
            (0x69, 0x61) => Iso639_1::Ia,
            (0x69, 0x64) => Iso639_1::Id,
            (0x69, 0x65) => Iso639_1::Ie,
            (0x69, 0x67) => Iso639_1::Ig,
            (0x69, 0x69) => Iso639_1::Ii,
            (0x69, 0x6b) => Iso639_1::Ik,
            (0x69, 0x6f) => Iso639_1::Io,
            (0x69, 0x73) => Iso639_1::Is,
            (0x69, 0x74) => Iso639_1::It,
            (0x69, 0x75) => Iso639_1::Iu,
            (0x6a, 0x61) => Iso639_1::Ja,
            (0x6a, 0x76) => Iso639_1::Jv,
            (0x6b, 0x61) => Iso639_1::Ka,
            (0x6b, 0x67) => Iso639_1::Kg,
            (0x6b, 0x69) => Iso639_1::Ki,
            (0x6b, 0x6a) => Iso639_1::Kj,
            (0x6b, 0x6b) => Iso639_1::Kk,
            (0x6b, 0x6c) => Iso639_1::Kl,
            (0x6b, 0x6d) => Iso639_1::Km,
            (0x6b, 0x6e) => Iso639_1::Kn,
            (0x6b, 0x6f) => Iso639_1::Ko,
            (0x6b, 0x72) => Iso639_1::Kr,
            (0x6b, 0x73) => Iso639_1::Ks,
            (0x6b, 0x75) => Iso639_1::Ku,
            (0x6b, 0x76) => Iso639_1::Kv,
            (0x6b, 0x77) => Iso639_1::Kw,
            (0x6b, 0x79) => Iso639_1::Ky,
            (0x6c, 0x61) => Iso639_1::La,
            (0x6c, 0x62) => Iso639_1::Lb,
            (0x6c, 0x67) => Iso639_1::Lg,
            (0x6c, 0x69) => Iso639_1::Li,
            (0x6c, 0x6e) => Iso639_1::Ln,
            (0x6c, 0x6f) => Iso639_1::Lo,
            (0x6c, 0x74) => Iso639_1::Lt,
            (0x6c, 0x75) => Iso639_1::Lu,
            (0x6c, 0x76) => Iso639_1::Lv,
            (0x6d, 0x67) => Iso639_1::Mg,
            (0x6d, 0x68) => Iso639_1::Mh,
            (0x6d, 0x69) => Iso639_1::Mi,
            (0x6d, 0x6b) => Iso639_1::Mk,
            (0x6d, 0x6c) => Iso639_1::Ml,
            (0x6d, 0x6e) => Iso639_1::Mn,
            (0x6d, 0x72) => Iso639_1::Mr,
            (0x6d, 0x73) => Iso639_1::Ms,
            (0x6d, 0x74) => Iso639_1::Mt,
            (0x6d, 0x79) => Iso639_1::My,
            (0x6e, 0x61) => Iso639_1::Na,
            (0x6e, 0x62) => Iso639_1::Nb,
            (0x6e, 0x64) => Iso639_1::Nd,
            (0x6e, 0x65) => Iso639_1::Ne,
            (0x6e, 0x67) => Iso639_1::Ng,
            (0x6e, 0x6c) => Iso639_1::Nl,
            (0x6e, 0x6e) => Iso639_1::Nn,
            (0x6e, 0x6f) => Iso639_1::No,
            (0x6e, 0x72) => Iso639_1::Nr,
            (0x6e, 0x76) => Iso639_1::Nv,
            (0x6e, 0x79) => Iso639_1::Ny,
            (0x6f, 0x63) => Iso639_1::Oc,
            (0x6f, 0x6a) => Iso639_1::Oj,
            (0x6f, 0x6d) => Iso639_1::Om,
            (0x6f, 0x72) => Iso639_1::Or,
            (0x6f, 0x73) => Iso639_1::Os,
            (0x70, 0x61) => Iso639_1::Pa,
            (0x70, 0x69) => Iso639_1::Pi,
            (0x70, 0x6c) => Iso639_1::Pl,
            (0x70, 0x73) => Iso639_1::Ps,
            (0x70, 0x74) => Iso639_1::Pt,
            (0x71, 0x75) => Iso639_1::Qu,
            (0x72, 0x6d) => Iso639_1::Rm,
            (0x72, 0x6e) => Iso639_1::Rn,
            (0x72, 0x6f) => Iso639_1::Ro,
            (0x72, 0x75) => Iso639_1::Ru,
            (0x72, 0x77) => Iso639_1::Rw,
            (0x73, 0x61) => Iso639_1::Sa,
            (0x73, 0x63) => Iso639_1::Sc,
            (0x73, 0x64) => Iso639_1::Sd,
            (0x73, 0x65) => Iso639_1::Se,
            (0x73, 0x67) => Iso639_1::Sg,
            (0x73, 0x69) => Iso639_1::Si,
            (0x73, 0x6b) => Iso639_1::Sk,
            (0x73, 0x6c) => Iso639_1::Sl,
            (0x73, 0x6d) => Iso639_1::Sm,
            (0x73, 0x6e) => Iso639_1::Sn,
            (0x73, 0x6f) => Iso639_1::So,
            (0x73, 0x71) => Iso639_1::Sq,
            (0x73, 0x72) => Iso639_1::Sr,
            (0x73, 0x73) => Iso639_1::Ss,
            (0x73, 0x74) => Iso639_1::St,
            (0x73, 0x75) => Iso639_1::Su,
            (0x73, 0x76) => Iso639_1::Sv,
            (0x73, 0x77) => Iso639_1::Sw,
            (0x74, 0x61) => Iso639_1::Ta,
            (0x74, 0x65) => Iso639_1::Te,
            (0x74, 0x67) => Iso639_1::Tg,
            (0x74, 0x68) => Iso639_1::Th,
            (0x74, 0x69) => Iso639_1::Ti,
            (0x74, 0x6b) => Iso639_1::Tk,
            (0x74, 0x6c) => Iso639_1::Tl,
            (0x74, 0x6e) => Iso639_1::Tn,
            (0x74, 0x6f) => Iso639_1::To,
            (0x74, 0x72) => Iso639_1::Tr,
            (0x74, 0x73) => Iso639_1::Ts,
            (0x74, 0x74) => Iso639_1::Tt,
            (0x74, 0x77) => Iso639_1::Tw,
            (0x74, 0x79) => Iso639_1::Ty,
            (0x75, 0x67) => Iso639_1::Ug,
            (0x75, 0x6b) => Iso639_1::Uk,
            (0x75, 0x72) => Iso639_1::Ur,
            (0x75, 0x7a) => Iso639_1::Uz,
            (0x76, 0x65) => Iso639_1::Ve,
            (0x76, 0x69) => Iso639_1::Vi,
            (0x76, 0x6f) => Iso639_1::Vo,
            (0x77, 0x61) => Iso639_1::Wa,
            (0x77, 0x6f) => Iso639_1::Wo,
            (0x78, 0x68) => Iso639_1::Xh,
            (0x79, 0x69) => Iso639_1::Yi,
            (0x79, 0x6f) => Iso639_1::Yo,
            (0x7a, 0x61) => Iso639_1::Za,
            (0x7a, 0x68) => Iso639_1::Zh,
            (0x7a, 0x75) => Iso639_1::Zu,
            _ => Iso639_1::Unsupported(code),
        }
    }

    /// Writes the code at the start of `buf`, which must have room for two bytes.
    pub fn encode(&self, buf: &mut [u8]) -> (r: Result<usize, RdmError>)
        requires
            old(buf)@.len() >= 2 ==> self.spec_code().len() == 2,
        ensures
            old(buf)@.len() < 2 ==> r == Err::<usize, RdmError>(RdmError::InvalidBufferLength(old(buf)@.len() as usize, 2))
                && final(buf)@ == old(buf)@,
            old(buf)@.len() >= 2 ==> r == Ok::<usize, RdmError>(2)
                && final(buf)@ == written_prefix(old(buf)@, self.spec_code()),
    {
        if buf.len() < 2 {
            return Err(RdmError::InvalidBufferLength(buf.len(), 2));
        }
        let s = self.as_str().as_bytes();
        buf[0] = s[0];
        buf[1] = s[1];
        proof {
            assert(buf@ =~= written_prefix(old(buf)@, self.spec_code()));
        }
        Ok(2)
    }

    /// Reads a code of two bytes.
    pub fn decode(bytes: &'a [u8]) -> (r: Result<Self, RdmError>)
        requires
            bytes@.len() >= 2,
        ensures
            bytes@.len() > 2 ==> r == Err::<Self, RdmError>(RdmError::InvalidStringLength(bytes@.len() as usize, 2)),
            bytes@.len() == 2 && !vstd::utf8::valid_utf8(bytes@) ==> r == Err::<Self, RdmError>(RdmError::Utf8Error),
            bytes@.len() == 2 && vstd::utf8::valid_utf8(bytes@) ==> r == Ok::<Self, RdmError>(
                Self::spec_from_str(str_of_bytes::<'a>(bytes@)),
            ),
    {
        if bytes.len() > 2 {
            return Err(RdmError::InvalidStringLength(bytes.len(), 2));
        }
        match str_from_utf8(bytes) {
            Some(s) => Ok(Self::from_str(s)),
            None => Err(RdmError::Utf8Error),
        }
    }

    /// The code of a supported language names it again.
    #[verifier::spinoff_prover]
    #[verifier::rlimit(100)]
    pub proof fn lemma_known_code(self)
        requires
            !(self is Unsupported),
        ensures
            Self::spec_known(self.spec_code()) == Some(self),
    {
    }

    /// Reading back the code of a language gives the language: `from_str(as_str(l)) == l`.
    #[verifier::spinoff_prover]
    pub proof fn lemma_str_roundtrip(self, code: &'a str)
        requires
            self.spec_canonical(),
            code.spec_bytes() == self.spec_code(),
            self matches Iso639_1::Unsupported(s) ==> code == s,
        ensures
            Self::spec_from_str(code) == self,
    {
        if !(self is Unsupported) {
            self.lemma_known_code();
        }
    }

    /// The code of the language that a string names is that string: `as_str(from_str(s))` has the
    /// bytes of `s`, and is `s` itself where `s` names no supported language.
    #[verifier::spinoff_prover]
    #[verifier::rlimit(100)]
    pub proof fn lemma_from_str_code(code: &'a str)
        ensures
            Self::spec_from_str(code).spec_code() == code.spec_bytes(),
            Self::spec_from_str(code) matches Iso639_1::Unsupported(s) ==> s == code,
    {
        let b = code.spec_bytes();
        if b.len() == 2 {
            assert(b =~= seq![b[0], b[1]]);
        }
    }
}

impl<'a> FixedWire<'a> for Iso639_1<'a> {
    open spec fn spec_size() -> nat {
        2
    }

    open spec fn spec_wire(&self) -> Seq<u8> {
        (self.spec_code() + seq![0u8, 0u8]).subrange(0, 2)
    }

    open spec fn spec_read(bytes: Seq<u8>) -> Option<Self> {
        if vstd::utf8::valid_utf8(bytes) {
            match Self::spec_known(bytes) {
                Some(l) => Some(l),
                None => Some(Iso639_1::Unsupported(str_of_bytes::<'a>(bytes))),
            }
        } else {
            None
        }
    }

    open spec fn spec_wire_valid(&self) -> bool {
        !(*self is Unsupported)
    }

    fn wire_size() -> (n: usize) {
        2
    }

    fn write_wire(&self, out: &mut Vec<u8>) {
        let s = self.as_str().as_bytes();
        let b0: u8 = if s.len() > 0 { s[0] } else { 0 };
        let b1: u8 = if s.len() > 1 { s[1] } else { 0 };
        out.push(b0);
        out.push(b1);
        proof {
            assert(out@ =~= old(out)@ + self.spec_wire());
        }
    }

    fn read_wire(buf: &'a [u8], pos: usize) -> (r: Option<Self>) {
        let _len = buf.len();
        let s = vstd::slice::slice_subrange(buf, pos, pos + 2);
        match str_from_utf8(s) {
            Some(t) => Some(Self::from_str(t)),
            None => None,
        }
    }

    #[verifier::spinoff_prover]
    #[verifier::rlimit(100)]
    proof fn lemma_wire(&self) {
        if self.spec_wire_valid() {
            let c = self.spec_code();
            assert(c.len() == 2 && c[0] < 0x80 && c[1] < 0x80);
            assert(self.spec_wire() =~= c);
            lemma_ascii_valid_utf8(c);
        }
    }
}


impl SlotInfo {
    pub fn new(id: u16, kind: SlotType, label_id: u16) -> (r: Self)
        ensures
            r == (SlotInfo { id, kind, label_id }),
    {
        SlotInfo { id, kind, label_id }
    }
}

impl DefaultSlotValue {
    pub fn new(id: u16, value: u8) -> (r: Self)
        ensures
            r == (DefaultSlotValue { id, value }),
    {
        DefaultSlotValue { id, value }
    }
}

impl SensorValue {
    pub fn new(
        sensor_id: u8,
        current_value: i16,
        lowest_detected_value: i16,
        highest_detected_value: i16,
        recorded_value: i16,
    ) -> (r: Self)
        ensures
            r == (SensorValue { sensor_id, current_value, lowest_detected_value, highest_detected_value, recorded_value }),
    {
        SensorValue { sensor_id, current_value, lowest_detected_value, highest_detected_value, recorded_value }
    }
}

/// Reads the bytes of a language capabilities response two by two, as languages.
#[derive(Clone, Copy, Debug, PartialEq)]
pub struct LanguageCapabilitiesIter<'a> {
    buf: &'a [u8],
    pos: usize,
}

impl<'a> LanguageCapabilitiesIter<'a> {
    #[verifier::type_invariant]
    pub closed spec fn wf(self) -> bool {
        self.pos <= self.buf@.len()
    }

    /// The bytes read.
    pub closed spec fn spec_bytes(self) -> Seq<u8> {
        self.buf@
    }

    /// The index of the next code.
    pub closed spec fn spec_pos(self) -> int {
        self.pos as int
    }

    pub fn new(buf: &'a [u8]) -> (r: Self)
        ensures
            r.spec_bytes() == buf@,
            r.spec_pos() == 0,
    {
        LanguageCapabilitiesIter { buf, pos: 0 }
    }

    /// The number of codes of two bytes in the whole buffer.
    pub fn len(&self) -> (n: usize)
        ensures
            n == self.spec_bytes().len() / 2,
    {
        self.buf.len() / 2
    }

    pub fn is_empty(&self) -> (b: bool)
        ensures
            b == (self.spec_bytes().len() == 0),
    {
        self.buf.len() == 0
    }

    /// What a call of `next` does at index `pos` of `bytes`: the index after it and the language read.
    pub open spec fn spec_step(bytes: Seq<u8>, pos: int) -> (int, Option<Iso639_1<'a>>) {
        if pos + 2 > bytes.len() {
            (pos, None)
        } else {
            let code = bytes.subrange(pos, pos + 2);
            (pos + 2, if vstd::utf8::valid_utf8(code) {
                Some(Iso639_1::spec_from_str(str_of_bytes::<'a>(code)))
            } else {
                None
            })
        }
    }

    /// The index reached after `k` calls of `next` from index `pos`.
    pub open spec fn spec_pos_after(bytes: Seq<u8>, pos: int, k: nat) -> int
        decreases k,
    {
        if k == 0 {
            pos
        } else {
            Self::spec_step(bytes, Self::spec_pos_after(bytes, pos, (k - 1) as nat)).0
        }
    }

    /// From a new iterator over `bytes`, call number `k` of `next` (counting from zero) reads the
    /// code in bytes `2 * k` and `2 * k + 1` while `k` is below `len`, and every later call reads
    /// nothing: the iterator yields `len` codes, in order, and a trailing odd byte is never read.
    pub proof fn lemma_reads_codes_in_order(bytes: Seq<u8>, k: nat)
        ensures
            k <= bytes.len() / 2 ==> Self::spec_pos_after(bytes, 0, k) == 2 * k,
            k > bytes.len() / 2 ==> Self::spec_pos_after(bytes, 0, k) == 2 * (bytes.len() / 2),
            k < bytes.len() / 2 ==> Self::spec_step(bytes, Self::spec_pos_after(bytes, 0, k)).1 == (if vstd::utf8::valid_utf8(bytes.subrange(2 * (k as int), 2 * (k as int) + 2)) {
                Some(Iso639_1::spec_from_str(str_of_bytes::<'a>(bytes.subrange(2 * (k as int), 2 * (k as int) + 2))))
            } else {
                None
            }),
            k >= bytes.len() / 2 ==> Self::spec_step(bytes, Self::spec_pos_after(bytes, 0, k)).1 is None,
        decreases k,
    {
        if k > 0 {
            Self::lemma_reads_codes_in_order(bytes, (k - 1) as nat);
        }
    }

    /// The language of the next two bytes, or none when fewer than two bytes are left; the
    /// language is also none when the two bytes are not UTF-8.
    pub fn next(&mut self) -> (r: Option<Iso639_1<'a>>)
        ensures
            final(self).spec_bytes() == old(self).spec_bytes(),
            (final(self).spec_pos(), r) == Self::spec_step(old(self).spec_bytes(), old(self).spec_pos()),
            old(self).spec_pos() + 2 > old(self).spec_bytes().len() ==> r is None && final(self).spec_pos() == old(self).spec_pos(),
            old(self).spec_pos() + 2 <= old(self).spec_bytes().len() ==> {
                let code = old(self).spec_bytes().subrange(old(self).spec_pos(), old(self).spec_pos() + 2);
                &&& final(self).spec_pos() == old(self).spec_pos() + 2
                &&& r == (if vstd::utf8::valid_utf8(code) {
                    Some(Iso639_1::spec_from_str(str_of_bytes::<'a>(code)))
                } else {
                    None
                })
            },
    {
        proof {
            use_type_invariant(&*self);
        }
        if self.buf.len() - self.pos < 2 {
            return None;
        }
        let code = vstd::slice::slice_subrange(self.buf, self.pos, self.pos + 2);
        self.pos = self.pos + 2;
        match Iso639_1::decode(code) {
            Ok(l) => Some(l),
            Err(_) => None,
        }
    }
}

} // verus!
