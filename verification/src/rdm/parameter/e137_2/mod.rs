//! Data types of the E1.37-2 parameters.

pub mod request;
pub mod response;

pub use response::{
    GetDnsIpV4NameServerResponse as GetDnsIpV4NameServer,
    GetInterfaceHardwareAddressType1Response as GetInterfaceHardwareAddressType1,
    GetInterfaceLabelResponse as GetInterfaceLabel,
    GetIpV4CurrentAddressResponse as GetIpV4CurrentAddress,
    GetIpV4DefaultRouteResponse as GetIpV4DefaultRoute,
    GetIpV4DhcpModeResponse as GetIpV4DhcpMode,
    GetIpV4StaticAddressResponse as GetIpV4StaticAddress,
    GetIpV4ZeroConfModeResponse as GetIpV4ZeroConfMode,
};

use crate::rdm::error::{ParameterDataError, RdmError};
use crate::rdm::utils::{copy_encoded, encoded_into, extend_from, has_no_null, lemma_trim_trailing_nulls_valid_utf8, lemma_truncated_at_null_prefix, lemma_truncated_at_null_shape, null_position, str_from_utf8, trim_trailing_nulls, trimmed_trailing_nulls, truncate_at_null, truncated_at_null, written_prefix, spec_padded_array, lemma_padded_array};
use crate::rdm::wire::{decode_fixed, decode_record, decoded_fixed, encode_fixed, encode_record, lemma_record_roundtrip, record_decoded, FixedWire};
use vstd::prelude::*;
use vstd::std_specs::convert::{FromSpecImpl, TryFromSpecImpl};
use vstd::string::StringSliceAdditionalSpecFns;

verus! {

broadcast use vstd::array::group_array_axioms;

#[derive(Copy, Clone, Debug, PartialEq, Eq, Structural)]
pub enum DhcpMode {
    Inactive,
    Active,
    Unknown,
}

impl DhcpMode {
    /// The wire value of the variant.
    pub open spec fn spec_to_u8(self) -> u8 {
        match self {
            DhcpMode::Inactive => 0x00,
            DhcpMode::Active => 0x01,
            DhcpMode::Unknown => 0x02,
        }
    }

    /// The variant that a wire value stands for.
    pub open spec fn spec_try_from_u8(value: u8) -> Result<Self, RdmError> {
        match value {
            0x00 => Ok(DhcpMode::Inactive),
            0x01 => Ok(DhcpMode::Active),
            0x02 => Ok(DhcpMode::Unknown),
            _ => Err(RdmError::InvalidDhcpMode(value)),
        }
    }

    /// Whether the value is one that decoding its wire value gives back.
    pub open spec fn spec_wire_valid(self) -> bool {
        match self {
            _ => true,
        }
    }

    /// Decoding the wire value of a valid variant gives it back.
    pub proof fn lemma_encode_decode(self)
        requires
            self.spec_wire_valid(),
        ensures
            Self::spec_try_from_u8(self.spec_to_u8()) == Ok::<Self, RdmError>(self),
    {
    }

    /// Encoding the variant that a wire value stands for gives the value back.
    pub proof fn lemma_decode_encode(value: u8)
        ensures
            Self::spec_try_from_u8(value) matches Ok(v) ==> v.spec_to_u8() == value && v.spec_wire_valid(),
    {
    }
}

impl DhcpMode {
    /// The wire value of the variant.
    pub fn to_u8(&self) -> (r: u8)
        ensures
            r == self.spec_to_u8(),
    {
        match self {
            DhcpMode::Inactive => 0x00,
            DhcpMode::Active => 0x01,
            DhcpMode::Unknown => 0x02,
        }
    }

    /// The variant that a wire value stands for, or the error for a value that stands for none.
    pub fn try_from_u8(value: u8) -> (r: Result<Self, RdmError>)
        ensures
            r == Self::spec_try_from_u8(value),
    {
        match value {
            0x00 => Ok(DhcpMode::Inactive),
            0x01 => Ok(DhcpMode::Active),
            0x02 => Ok(DhcpMode::Unknown),
            _ => Err(RdmError::InvalidDhcpMode(value)),
        }
    }
}

impl TryFrom<u8> for DhcpMode {
    type Error = RdmError;

    fn try_from(value: u8) -> (r: Result<Self, RdmError>) {
        Self::try_from_u8(value)
    }
}

impl TryFromSpecImpl<u8> for DhcpMode {
    open spec fn obeys_try_from_spec() -> bool {
        true
    }

    open spec fn try_from_spec(value: u8) -> Result<Self, RdmError> {
        Self::spec_try_from_u8(value)
    }
}

impl From<DhcpMode> for u8 {
    fn from(value: DhcpMode) -> (r: u8) {
        value.to_u8()
    }
}

impl FromSpecImpl<DhcpMode> for u8 {
    open spec fn obeys_from_spec() -> bool {
        true
    }

    open spec fn from_spec(value: DhcpMode) -> u8 {
        value.spec_to_u8()
    }
}

impl<'a> FixedWire<'a> for DhcpMode {
    open spec fn spec_size() -> nat {
        1
    }

    open spec fn spec_wire(&self) -> Seq<u8> {
        self.spec_to_u8().spec_wire()
    }

    open spec fn spec_read(bytes: Seq<u8>) -> Option<Self> {
        match u8::spec_read(bytes) {
            Some(value) => match Self::spec_try_from_u8(value) {
                Ok(v) => Some(v),
                Err(_) => None,
            },
            None => None,
        }
    }

    open spec fn spec_wire_valid(&self) -> bool {
        DhcpMode::spec_wire_valid(*self)
    }

    fn wire_size() -> (n: usize) {
        1
    }

    fn write_wire(&self, out: &mut Vec<u8>) {
        self.to_u8().write_wire(out);
    }

    fn read_wire(buf: &'a [u8], pos: usize) -> (r: Option<Self>) {
        let value = match u8::read_wire(buf, pos) {
            Some(value) => value,
            None => return None,
        };
        match Self::try_from_u8(value) {
            Ok(v) => Some(v),
            Err(_) => None,
        }
    }

    proof fn lemma_wire(&self) {
        self.spec_to_u8().lemma_wire();
        if self.spec_wire_valid() {
            self.lemma_encode_decode();
        }
    }
}

impl DhcpMode {
    pub fn size_of(&self) -> (n: usize)
        ensures
            n == Self::spec_size(),
    {
        Self::wire_size()
    }

    /// Writes the wire form at the start of `buf`.
    pub fn encode_parameter_data(&self, buf: &mut [u8]) -> (r: Result<usize, ParameterDataError>)
        requires
            old(buf)@.len() >= Self::spec_size(),
        ensures
            r == Ok::<usize, ParameterDataError>(Self::spec_size() as usize),
            final(buf)@ == written_prefix(old(buf)@, self.spec_wire()),
    {
        encode_fixed(self, buf)
    }

    /// Reads the value from the start of `buf`.
    pub fn decode_parameter_data(buf: &[u8]) -> (r: Result<Self, ParameterDataError>)
        requires
            buf@.len() >= Self::spec_size(),
        ensures
            r == decoded_fixed::<Self>(buf@),
    {
        decode_fixed(buf)
    }
}

#[derive(Copy, Clone, Debug, PartialEq, Eq, Structural)]
pub enum HardwareType {
    Ethernet,
    ExperimentEthernet,
    AmateurRadioAx25,
    ProteonPronetTokenRing,
    Chaos,
    Ieee802Networks,
    Arcnet,
    Hyperchannel,
    Lanstar,
    AutonetShortAddress,
    LocalTalk,
    LocalNet,
    UltraLink,
    SMDS,
    FrameRelay,
    ATM,
    HDLC,
    FibreChannel,
    ATMLogical,
    SerialLine,
    ATMPhysical,
    MilStd188220,
    Metricom,
    IEEE1394,
    MAPOS,
    Twinaxial,
    EUI64,
    HIPARP,
    IPAndARPOverISO,
    ARPSec,
    IPsecTunnel,
    InfiniBand,
    TIA102,
    Wiegand,
    PureIP,
    HwExp1,
    Hf1,
    UnifiedBus,
    HwExp2,
    AEthernet,
    Unknown(u16),
}

impl HardwareType {
    /// The wire value of the variant.
    pub open spec fn spec_to_u16(self) -> u16 {
        match self {
            HardwareType::Ethernet => 0x0001,
            HardwareType::ExperimentEthernet => 0x0002,
            HardwareType::AmateurRadioAx25 => 0x0003,
            HardwareType::ProteonPronetTokenRing => 0x0004,
            HardwareType::Chaos => 0x0005,
            HardwareType::Ieee802Networks => 0x0006,
            HardwareType::Arcnet => 0x0007,
            HardwareType::Hyperchannel => 0x0008,
            HardwareType::Lanstar => 0x0009,
            HardwareType::AutonetShortAddress => 0x000a,
            HardwareType::LocalTalk => 0x000b,
            HardwareType::LocalNet => 0x000c,
            HardwareType::UltraLink => 0x000d,
            HardwareType::SMDS => 0x000e,
            HardwareType::FrameRelay => 0x000f,
            HardwareType::ATM => 0x0010,
            HardwareType::HDLC => 0x0011,
            HardwareType::FibreChannel => 0x0012,
            HardwareType::ATMLogical => 0x0013,
            HardwareType::SerialLine => 0x0014,
            HardwareType::ATMPhysical => 0x0015,
            HardwareType::MilStd188220 => 0x0016,
            HardwareType::Metricom => 0x0017,
            HardwareType::IEEE1394 => 0x0018,
            HardwareType::MAPOS => 0x0019,
            HardwareType::Twinaxial => 0x001a,
            HardwareType::EUI64 => 0x001b,
            HardwareType::HIPARP => 0x001c,
            HardwareType::IPAndARPOverISO => 0x001d,
            HardwareType::ARPSec => 0x001e,
            HardwareType::IPsecTunnel => 0x001f,
            HardwareType::InfiniBand => 0x0020,
            HardwareType::TIA102 => 0x0021,
            HardwareType::Wiegand => 0x0022,
            HardwareType::PureIP => 0x0023,
            HardwareType::HwExp1 => 0x0024,
            HardwareType::Hf1 => 0x0025,
            HardwareType::UnifiedBus => 0x0026,
            HardwareType::HwExp2 => 0x0100,
            HardwareType::AEthernet => 0x0101,
            HardwareType::Unknown(value) => value,
        }
    }

    /// The variant that a wire value stands for.
    pub open spec fn spec_from_u16(value: u16) -> Self {
        match value {
            0x0001 => HardwareType::Ethernet,
            0x0002 => HardwareType::ExperimentEthernet,
            0x0003 => HardwareType::AmateurRadioAx25,
            0x0004 => HardwareType::ProteonPronetTokenRing,
            0x0005 => HardwareType::Chaos,
            0x0006 => HardwareType::Ieee802Networks,
            0x0007 => HardwareType::Arcnet,
            0x0008 => HardwareType::Hyperchannel,
            0x0009 => HardwareType::Lanstar,
            0x000a => HardwareType::AutonetShortAddress,
            0x000b => HardwareType::LocalTalk,
            0x000c => HardwareType::LocalNet,
            0x000d => HardwareType::UltraLink,
            0x000e => HardwareType::SMDS,
            0x000f => HardwareType::FrameRelay,
            0x0010 => HardwareType::ATM,
            0x0011 => HardwareType::HDLC,
            0x0012 => HardwareType::FibreChannel,
            0x0013 => HardwareType::ATMLogical,
            0x0014 => HardwareType::SerialLine,
            0x0015 => HardwareType::ATMPhysical,
            0x0016 => HardwareType::MilStd188220,
            0x0017 => HardwareType::Metricom,
            0x0018 => HardwareType::IEEE1394,
            0x0019 => HardwareType::MAPOS,
            0x001a => HardwareType::Twinaxial,
            0x001b => HardwareType::EUI64,
            0x001c => HardwareType::HIPARP,
            0x001d => HardwareType::IPAndARPOverISO,
            0x001e => HardwareType::ARPSec,
            0x001f => HardwareType::IPsecTunnel,
            0x0020 => HardwareType::InfiniBand,
            0x0021 => HardwareType::TIA102,
            0x0022 => HardwareType::Wiegand,
            0x0023 => HardwareType::PureIP,
            0x0024 => HardwareType::HwExp1,
            0x0025 => HardwareType::Hf1,
            0x0026 => HardwareType::UnifiedBus,
            0x0100 => HardwareType::HwExp2,
            0x0101 => HardwareType::AEthernet,
            _ => HardwareType::Unknown(value),
        }
    }

    /// Whether the value is one that decoding its wire value gives back.
    pub open spec fn spec_wire_valid(self) -> bool {
        match self {
            HardwareType::Unknown(value) => value != 0x0001 && value != 0x0002 && value != 0x0003 && value != 0x0004 && value != 0x0005 && value != 0x0006 && value != 0x0007 && value != 0x0008 && value != 0x0009 && value != 0x000a && value != 0x000b && value != 0x000c && value != 0x000d && value != 0x000e && value != 0x000f && value != 0x0010 && value != 0x0011 && value != 0x0012 && value != 0x0013 && value != 0x0014 && value != 0x0015 && value != 0x0016 && value != 0x0017 && value != 0x0018 && value != 0x0019 && value != 0x001a && value != 0x001b && value != 0x001c && value != 0x001d && value != 0x001e && value != 0x001f && value != 0x0020 && value != 0x0021 && value != 0x0022 && value != 0x0023 && value != 0x0024 && value != 0x0025 && value != 0x0026 && value != 0x0100 && value != 0x0101,
            _ => true,
        }
    }

    /// Decoding the wire value of a valid variant gives it back.
    pub proof fn lemma_encode_decode(self)
        requires
            self.spec_wire_valid(),
        ensures
            Self::spec_from_u16(self.spec_to_u16()) == self,
    {
    }

    /// Encoding the variant that a wire value stands for gives the value back.
    pub proof fn lemma_decode_encode(value: u16)
        ensures
            Self::spec_from_u16(value).spec_to_u16() == value,
            Self::spec_from_u16(value).spec_wire_valid(),
    {
    }
}

impl HardwareType {
    /// The wire value of the variant.
    #[verifier::rlimit(50)]
    pub fn to_u16(&self) -> (r: u16)
        ensures
            r == self.spec_to_u16(),
    {
        match self {
            HardwareType::Ethernet => 0x0001,
            HardwareType::ExperimentEthernet => 0x0002,
            HardwareType::AmateurRadioAx25 => 0x0003,
            HardwareType::ProteonPronetTokenRing => 0x0004,
            HardwareType::Chaos => 0x0005,
            HardwareType::Ieee802Networks => 0x0006,
            HardwareType::Arcnet => 0x0007,
            HardwareType::Hyperchannel => 0x0008,
            HardwareType::Lanstar => 0x0009,
            HardwareType::AutonetShortAddress => 0x000a,
            HardwareType::LocalTalk => 0x000b,
            HardwareType::LocalNet => 0x000c,
            HardwareType::UltraLink => 0x000d,
            HardwareType::SMDS => 0x000e,
            HardwareType::FrameRelay => 0x000f,
            HardwareType::ATM => 0x0010,
            HardwareType::HDLC => 0x0011,
            HardwareType::FibreChannel => 0x0012,
            HardwareType::ATMLogical => 0x0013,
            HardwareType::SerialLine => 0x0014,
            HardwareType::ATMPhysical => 0x0015,
            HardwareType::MilStd188220 => 0x0016,
            HardwareType::Metricom => 0x0017,
            HardwareType::IEEE1394 => 0x0018,
            HardwareType::MAPOS => 0x0019,
            HardwareType::Twinaxial => 0x001a,
            HardwareType::EUI64 => 0x001b,
            HardwareType::HIPARP => 0x001c,
            HardwareType::IPAndARPOverISO => 0x001d,
            HardwareType::ARPSec => 0x001e,
            HardwareType::IPsecTunnel => 0x001f,
            HardwareType::InfiniBand => 0x0020,
            HardwareType::TIA102 => 0x0021,
            HardwareType::Wiegand => 0x0022,
            HardwareType::PureIP => 0x0023,
            HardwareType::HwExp1 => 0x0024,
            HardwareType::Hf1 => 0x0025,
            HardwareType::UnifiedBus => 0x0026,
            HardwareType::HwExp2 => 0x0100,
            HardwareType::AEthernet => 0x0101,
            HardwareType::Unknown(value) => *value,
        }
    }

    /// The variant that a wire value stands for.
    #[verifier::rlimit(50)]
    pub fn from_u16(value: u16) -> (r: Self)
        ensures
            r == Self::spec_from_u16(value),
    {
        match value {
            0x0001 => HardwareType::Ethernet,
            0x0002 => HardwareType::ExperimentEthernet,
            0x0003 => HardwareType::AmateurRadioAx25,
            0x0004 => HardwareType::ProteonPronetTokenRing,
            0x0005 => HardwareType::Chaos,
            0x0006 => HardwareType::Ieee802Networks,
            0x0007 => HardwareType::Arcnet,
            0x0008 => HardwareType::Hyperchannel,
            0x0009 => HardwareType::Lanstar,
            0x000a => HardwareType::AutonetShortAddress,
            0x000b => HardwareType::LocalTalk,
            0x000c => HardwareType::LocalNet,
            0x000d => HardwareType::UltraLink,
            0x000e => HardwareType::SMDS,
            0x000f => HardwareType::FrameRelay,
            0x0010 => HardwareType::ATM,
            0x0011 => HardwareType::HDLC,
            0x0012 => HardwareType::FibreChannel,
            0x0013 => HardwareType::ATMLogical,
            0x0014 => HardwareType::SerialLine,
            0x0015 => HardwareType::ATMPhysical,
            0x0016 => HardwareType::MilStd188220,
            0x0017 => HardwareType::Metricom,
            0x0018 => HardwareType::IEEE1394,
            0x0019 => HardwareType::MAPOS,
            0x001a => HardwareType::Twinaxial,
            0x001b => HardwareType::EUI64,
            0x001c => HardwareType::HIPARP,
            0x001d => HardwareType::IPAndARPOverISO,
            0x001e => HardwareType::ARPSec,
            0x001f => HardwareType::IPsecTunnel,
            0x0020 => HardwareType::InfiniBand,
            0x0021 => HardwareType::TIA102,
            0x0022 => HardwareType::Wiegand,
            0x0023 => HardwareType::PureIP,
            0x0024 => HardwareType::HwExp1,
            0x0025 => HardwareType::Hf1,
            0x0026 => HardwareType::UnifiedBus,
            0x0100 => HardwareType::HwExp2,
            0x0101 => HardwareType::AEthernet,
            _ => HardwareType::Unknown(value),
        }
    }
}

impl From<u16> for HardwareType {
    fn from(value: u16) -> (r: Self) {
        Self::from_u16(value)
    }
}

impl FromSpecImpl<u16> for HardwareType {
    open spec fn obeys_from_spec() -> bool {
        true
    }

    open spec fn from_spec(value: u16) -> Self {
        Self::spec_from_u16(value)
    }
}

impl From<HardwareType> for u16 {
    fn from(value: HardwareType) -> (r: u16) {
        value.to_u16()
    }
}

impl FromSpecImpl<HardwareType> for u16 {
    open spec fn obeys_from_spec() -> bool {
        true
    }

    open spec fn from_spec(value: HardwareType) -> u16 {
        value.spec_to_u16()
    }
}

impl<'a> FixedWire<'a> for HardwareType {
    open spec fn spec_size() -> nat {
        2
    }

    open spec fn spec_wire(&self) -> Seq<u8> {
        self.spec_to_u16().spec_wire()
    }

    open spec fn spec_read(bytes: Seq<u8>) -> Option<Self> {
        match u16::spec_read(bytes) {
            Some(value) => Some(Self::spec_from_u16(value)),
            None => None,
        }
    }

    open spec fn spec_wire_valid(&self) -> bool {
        HardwareType::spec_wire_valid(*self)
    }

    fn wire_size() -> (n: usize) {
        2
    }

    fn write_wire(&self, out: &mut Vec<u8>) {
        self.to_u16().write_wire(out);
    }

    fn read_wire(buf: &'a [u8], pos: usize) -> (r: Option<Self>) {
        let value = match u16::read_wire(buf, pos) {
            Some(value) => value,
            None => return None,
        };
        Some(Self::from_u16(value))
    }

    proof fn lemma_wire(&self) {
        self.spec_to_u16().lemma_wire();
        if self.spec_wire_valid() {
            self.lemma_encode_decode();
        }
    }
}

/// An IPv4 address, or none configured.
#[derive(Clone, Copy, Debug, PartialEq, Eq)]
pub enum Ipv4Address {
    Unconfigured,
    Configured([u8; 4]),
}

impl Ipv4Address {
    /// The octets of the address; all zero when it is not configured.
    pub open spec fn spec_octets(self) -> Seq<u8> {
        match self {
            Ipv4Address::Unconfigured => seq![0u8, 0u8, 0u8, 0u8],
            Ipv4Address::Configured(o) => o@,
        }
    }

    /// The address that octets stand for: all zero octets stand for none.
    pub open spec fn spec_from_octets(bytes: Seq<u8>) -> Self {
        if bytes[0] == 0 && bytes[1] == 0 && bytes[2] == 0 && bytes[3] == 0 {
            Ipv4Address::Unconfigured
        } else {
            Ipv4Address::Configured([bytes[0], bytes[1], bytes[2], bytes[3]])
        }
    }
}

impl Ipv4Address {
    /// The address that octets stand for.
    pub fn from_octets(value: [u8; 4]) -> (r: Self)
        ensures
            r == Ipv4Address::spec_from_octets(value@),
    {
        let mut all_zero = true;
        let mut i: usize = 0;
        while i < 4
            invariant
                i <= 4,
                all_zero == (forall|j: int| 0 <= j < i ==> value@[j] == 0),
            decreases 4 - i,
        {
            if value[i] != 0 {
                all_zero = false;
            }
            i = i + 1;
        }
        proof {
            let bytes = value@;
            assert(value =~= [bytes[0], bytes[1], bytes[2], bytes[3]]);
        }
        if all_zero {
            Ipv4Address::Unconfigured
        } else {
            Ipv4Address::Configured(value)
        }
    }
}

impl From<[u8; 4]> for Ipv4Address {
    fn from(value: [u8; 4]) -> (r: Self) {
        Ipv4Address::from_octets(value)
    }
}

impl FromSpecImpl<[u8; 4]> for Ipv4Address {
    open spec fn obeys_from_spec() -> bool {
        true
    }

    open spec fn from_spec(value: [u8; 4]) -> Self {
        Ipv4Address::spec_from_octets(value@)
    }
}

impl From<Ipv4Address> for [u8; 4] {
    #[verifier::spinoff_prover]
    fn from(value: Ipv4Address) -> (r: [u8; 4]) {
        match value {
            Ipv4Address::Unconfigured => [0u8, 0u8, 0u8, 0u8],
            Ipv4Address::Configured(o) => o,
        }
    }
}

impl FromSpecImpl<Ipv4Address> for [u8; 4] {
    open spec fn obeys_from_spec() -> bool {
        true
    }

    open spec fn from_spec(value: Ipv4Address) -> [u8; 4] {
        match value {
            Ipv4Address::Unconfigured => [0u8, 0u8, 0u8, 0u8],
            Ipv4Address::Configured(o) => o,
        }
    }
}

impl<'a> FixedWire<'a> for Ipv4Address {
    open spec fn spec_size() -> nat {
        4
    }

    open spec fn spec_wire(&self) -> Seq<u8> {
        self.spec_octets()
    }

    open spec fn spec_read(bytes: Seq<u8>) -> Option<Self> {
        Some(Ipv4Address::spec_from_octets(bytes))
    }

    open spec fn spec_wire_valid(&self) -> bool {
        match *self {
            Ipv4Address::Unconfigured => true,
            Ipv4Address::Configured(o) => !(o[0] == 0 && o[1] == 0 && o[2] == 0 && o[3] == 0),
        }
    }

    fn wire_size() -> (n: usize) {
        4
    }

    fn write_wire(&self, out: &mut Vec<u8>) {
        let o: [u8; 4] = match self {
            Ipv4Address::Unconfigured => [0u8, 0u8, 0u8, 0u8],
            Ipv4Address::Configured(o) => *o,
        };
        proof {
            assert(o@ =~= self.spec_octets());
        }
        o.write_wire(out);
    }

    fn read_wire(buf: &'a [u8], pos: usize) -> (r: Option<Self>) {
        let o = match <[u8; 4] as FixedWire>::read_wire(buf, pos) {
            Some(o) => o,
            None => return None,
        };
        proof {
            let bytes = buf@.subrange(pos as int, pos + 4);
            assert(o@ =~= bytes);
        }
        Some(Ipv4Address::from_octets(o))
    }

    proof fn lemma_wire(&self) {
        match *self {
            Ipv4Address::Unconfigured => {},
            Ipv4Address::Configured(o) => {
                let bytes = o@;
                assert(o =~= [bytes[0], bytes[1], bytes[2], bytes[3]]);
            },
        }
    }
}

/// An IPv6 address, or none configured.
#[derive(Clone, Copy, Debug, PartialEq, Eq)]
pub enum Ipv6Address {
    Unconfigured,
    Configured([u8; 16]),
}

impl Ipv6Address {
    /// The octets of the address; all zero when it is not configured.
    pub open spec fn spec_octets(self) -> Seq<u8> {
        match self {
            Ipv6Address::Unconfigured => seq![0u8, 0u8, 0u8, 0u8, 0u8, 0u8, 0u8, 0u8, 0u8, 0u8, 0u8, 0u8, 0u8, 0u8, 0u8, 0u8],
            Ipv6Address::Configured(o) => o@,
        }
    }

    /// The address that octets stand for: all zero octets stand for none.
    pub open spec fn spec_from_octets(bytes: Seq<u8>) -> Self {
        if bytes[0] == 0 && bytes[1] == 0 && bytes[2] == 0 && bytes[3] == 0 && bytes[4] == 0 && bytes[5] == 0 && bytes[6] == 0 && bytes[7] == 0 && bytes[8] == 0 && bytes[9] == 0 && bytes[10] == 0 && bytes[11] == 0 && bytes[12] == 0 && bytes[13] == 0 && bytes[14] == 0 && bytes[15] == 0 {
            Ipv6Address::Unconfigured
        } else {
            Ipv6Address::Configured([bytes[0], bytes[1], bytes[2], bytes[3], bytes[4], bytes[5], bytes[6], bytes[7], bytes[8], bytes[9], bytes[10], bytes[11], bytes[12], bytes[13], bytes[14], bytes[15]])
        }
    }
}

impl Ipv6Address {
    /// The address that octets stand for.
    pub fn from_octets(value: [u8; 16]) -> (r: Self)
        ensures
            r == Ipv6Address::spec_from_octets(value@),
    {
        let mut all_zero = true;
        let mut i: usize = 0;
        while i < 16
            invariant
                i <= 16,
                all_zero == (forall|j: int| 0 <= j < i ==> value@[j] == 0),
            decreases 16 - i,
        {
            if value[i] != 0 {
                all_zero = false;
            }
            i = i + 1;
        }
        proof {
            let bytes = value@;
            assert(value =~= [bytes[0], bytes[1], bytes[2], bytes[3], bytes[4], bytes[5], bytes[6], bytes[7], bytes[8], bytes[9], bytes[10], bytes[11], bytes[12], bytes[13], bytes[14], bytes[15]]);
        }
        if all_zero {
            Ipv6Address::Unconfigured
        } else {
            Ipv6Address::Configured(value)
        }
    }
}

impl From<[u8; 16]> for Ipv6Address {
    fn from(value: [u8; 16]) -> (r: Self) {
        Ipv6Address::from_octets(value)
    }
}

impl FromSpecImpl<[u8; 16]> for Ipv6Address {
    open spec fn obeys_from_spec() -> bool {
        true
    }

    open spec fn from_spec(value: [u8; 16]) -> Self {
        Ipv6Address::spec_from_octets(value@)
    }
}

impl From<Ipv6Address> for [u8; 16] {
    #[verifier::spinoff_prover]
    fn from(value: Ipv6Address) -> (r: [u8; 16]) {
        match value {
            Ipv6Address::Unconfigured => [0u8, 0u8, 0u8, 0u8, 0u8, 0u8, 0u8, 0u8, 0u8, 0u8, 0u8, 0u8, 0u8, 0u8, 0u8, 0u8],
            Ipv6Address::Configured(o) => o,
        }
    }
}

impl FromSpecImpl<Ipv6Address> for [u8; 16] {
    open spec fn obeys_from_spec() -> bool {
        true
    }

    open spec fn from_spec(value: Ipv6Address) -> [u8; 16] {
        match value {
            Ipv6Address::Unconfigured => [0u8, 0u8, 0u8, 0u8, 0u8, 0u8, 0u8, 0u8, 0u8, 0u8, 0u8, 0u8, 0u8, 0u8, 0u8, 0u8],
            Ipv6Address::Configured(o) => o,
        }
    }
}

impl<'a> FixedWire<'a> for Ipv6Address {
    open spec fn spec_size() -> nat {
        16
    }

    open spec fn spec_wire(&self) -> Seq<u8> {
        self.spec_octets()
    }

    open spec fn spec_read(bytes: Seq<u8>) -> Option<Self> {
        Some(Ipv6Address::spec_from_octets(bytes))
    }

    open spec fn spec_wire_valid(&self) -> bool {
        match *self {
            Ipv6Address::Unconfigured => true,
            Ipv6Address::Configured(o) => !(o[0] == 0 && o[1] == 0 && o[2] == 0 && o[3] == 0 && o[4] == 0 && o[5] == 0 && o[6] == 0 && o[7] == 0 && o[8] == 0 && o[9] == 0 && o[10] == 0 && o[11] == 0 && o[12] == 0 && o[13] == 0 && o[14] == 0 && o[15] == 0),
        }
    }

    fn wire_size() -> (n: usize) {
        16
    }

    fn write_wire(&self, out: &mut Vec<u8>) {
        let o: [u8; 16] = match self {
            Ipv6Address::Unconfigured => [0u8, 0u8, 0u8, 0u8, 0u8, 0u8, 0u8, 0u8, 0u8, 0u8, 0u8, 0u8, 0u8, 0u8, 0u8, 0u8],
            Ipv6Address::Configured(o) => *o,
        };
        proof {
            assert(o@ =~= self.spec_octets());
        }
        o.write_wire(out);
    }

    fn read_wire(buf: &'a [u8], pos: usize) -> (r: Option<Self>) {
        let o = match <[u8; 16] as FixedWire>::read_wire(buf, pos) {
            Some(o) => o,
            None => return None,
        };
        proof {
            let bytes = buf@.subrange(pos as int, pos + 16);
            assert(o@ =~= bytes);
        }
        Some(Ipv6Address::from_octets(o))
    }

    proof fn lemma_wire(&self) {
        match *self {
            Ipv6Address::Unconfigured => {},
            Ipv6Address::Configured(o) => {
                let bytes = o@;
                assert(o =~= [bytes[0], bytes[1], bytes[2], bytes[3], bytes[4], bytes[5], bytes[6], bytes[7], bytes[8], bytes[9], bytes[10], bytes[11], bytes[12], bytes[13], bytes[14], bytes[15]]);
            },
        }
    }
}

/// An IPv4 default route, or none.
#[derive(Clone, Copy, Debug, PartialEq, Eq)]
pub enum Ipv4Route {
    NoDefault,
    Configured([u8; 4]),
}

impl Ipv4Route {
    /// The octets of the address; all zero when it is not configured.
    pub open spec fn spec_octets(self) -> Seq<u8> {
        match self {
            Ipv4Route::NoDefault => seq![0u8, 0u8, 0u8, 0u8],
            Ipv4Route::Configured(o) => o@,
        }
    }

    /// The address that octets stand for: all zero octets stand for none.
    pub open spec fn spec_from_octets(bytes: Seq<u8>) -> Self {
        if bytes[0] == 0 && bytes[1] == 0 && bytes[2] == 0 && bytes[3] == 0 {
            Ipv4Route::NoDefault
        } else {
            Ipv4Route::Configured([bytes[0], bytes[1], bytes[2], bytes[3]])
        }
    }
}

impl Ipv4Route {
    /// The address that octets stand for.
    pub fn from_octets(value: [u8; 4]) -> (r: Self)
        ensures
            r == Ipv4Route::spec_from_octets(value@),
    {
        let mut all_zero = true;
        let mut i: usize = 0;
        while i < 4
            invariant
                i <= 4,
                all_zero == (forall|j: int| 0 <= j < i ==> value@[j] == 0),
            decreases 4 - i,
        {
            if value[i] != 0 {
                all_zero = false;
            }
            i = i + 1;
        }
        proof {
            let bytes = value@;
            assert(value =~= [bytes[0], bytes[1], bytes[2], bytes[3]]);
        }
        if all_zero {
            Ipv4Route::NoDefault
        } else {
            Ipv4Route::Configured(value)
        }
    }
}

impl From<[u8; 4]> for Ipv4Route {
    fn from(value: [u8; 4]) -> (r: Self) {
        Ipv4Route::from_octets(value)
    }
}

impl FromSpecImpl<[u8; 4]> for Ipv4Route {
    open spec fn obeys_from_spec() -> bool {
        true
    }

    open spec fn from_spec(value: [u8; 4]) -> Self {
        Ipv4Route::spec_from_octets(value@)
    }
}

impl From<Ipv4Route> for [u8; 4] {
    #[verifier::spinoff_prover]
    fn from(value: Ipv4Route) -> (r: [u8; 4]) {
        match value {
            Ipv4Route::NoDefault => [0u8, 0u8, 0u8, 0u8],
            Ipv4Route::Configured(o) => o,
        }
    }
}

impl FromSpecImpl<Ipv4Route> for [u8; 4] {
    open spec fn obeys_from_spec() -> bool {
        true
    }

    open spec fn from_spec(value: Ipv4Route) -> [u8; 4] {
        match value {
            Ipv4Route::NoDefault => [0u8, 0u8, 0u8, 0u8],
            Ipv4Route::Configured(o) => o,
        }
    }
}

impl<'a> FixedWire<'a> for Ipv4Route {
    open spec fn spec_size() -> nat {
        4
    }

    open spec fn spec_wire(&self) -> Seq<u8> {
        self.spec_octets()
    }

    open spec fn spec_read(bytes: Seq<u8>) -> Option<Self> {
        Some(Ipv4Route::spec_from_octets(bytes))
    }

    open spec fn spec_wire_valid(&self) -> bool {
        match *self {
            Ipv4Route::NoDefault => true,
            Ipv4Route::Configured(o) => !(o[0] == 0 && o[1] == 0 && o[2] == 0 && o[3] == 0),
        }
    }

    fn wire_size() -> (n: usize) {
        4
    }

    fn write_wire(&self, out: &mut Vec<u8>) {
        let o: [u8; 4] = match self {
            Ipv4Route::NoDefault => [0u8, 0u8, 0u8, 0u8],
            Ipv4Route::Configured(o) => *o,
        };
        proof {
            assert(o@ =~= self.spec_octets());
        }
        o.write_wire(out);
    }

    fn read_wire(buf: &'a [u8], pos: usize) -> (r: Option<Self>) {
        let o = match <[u8; 4] as FixedWire>::read_wire(buf, pos) {
            Some(o) => o,
            None => return None,
        };
        proof {
            let bytes = buf@.subrange(pos as int, pos + 4);
            assert(o@ =~= bytes);
        }
        Some(Ipv4Route::from_octets(o))
    }

    proof fn lemma_wire(&self) {
        match *self {
            Ipv4Route::NoDefault => {},
            Ipv4Route::Configured(o) => {
                let bytes = o@;
                assert(o =~= [bytes[0], bytes[1], bytes[2], bytes[3]]);
            },
        }
    }
}

#[derive(Clone, Copy, Debug, PartialEq)]
pub struct NetworkInterface {
    pub interface_id: u32,
    pub hardware_type: HardwareType,
}

impl<'a> FixedWire<'a> for NetworkInterface {
    open spec fn spec_size() -> nat {
        6
    }

    open spec fn spec_wire(&self) -> Seq<u8> {
        self.interface_id.spec_wire() + self.hardware_type.spec_wire()
    }

    open spec fn spec_read(bytes: Seq<u8>) -> Option<Self> {
        if <u32 as FixedWire>::spec_read(bytes.subrange(0, 4)) is Some
            && <HardwareType as FixedWire>::spec_read(bytes.subrange(4, 6)) is Some {
            Some(NetworkInterface {
                interface_id: <u32 as FixedWire>::spec_read(bytes.subrange(0, 4)).unwrap(),
                hardware_type: <HardwareType as FixedWire>::spec_read(bytes.subrange(4, 6)).unwrap(),
            })
        } else {
            None
        }
    }

    open spec fn spec_wire_valid(&self) -> bool {
        self.interface_id.spec_wire_valid() && self.hardware_type.spec_wire_valid()
    }

    fn wire_size() -> (n: usize) {
        6
    }

    fn write_wire(&self, out: &mut Vec<u8>) {
        let ghost start = out@;
        self.interface_id.write_wire(out);
        self.hardware_type.write_wire(out);
        proof {
            assert(out@ =~= start + self.spec_wire());
        }
    }

    fn read_wire(buf: &'a [u8], pos: usize) -> (r: Option<Self>) {
        let _len = buf.len();
        let ghost bytes = buf@.subrange(pos as int, pos + 6);
        proof {
            assert(bytes.subrange(0, 4) =~= buf@.subrange(pos + 0, pos + 4));
            assert(bytes.subrange(4, 6) =~= buf@.subrange(pos + 4, pos + 6));
        }
        let v0 = match <u32 as FixedWire>::read_wire(buf, pos) {
            Some(v) => v,
            None => return None,
        };
        let v1 = match <HardwareType as FixedWire>::read_wire(buf, pos + 4) {
            Some(v) => v,
            None => return None,
        };
        Some(NetworkInterface { interface_id: v0, hardware_type: v1 })
    }

    proof fn lemma_wire(&self) {
        self.interface_id.lemma_wire();
        self.hardware_type.lemma_wire();
        let w = self.spec_wire();
        assert(w.subrange(0, 4) =~= self.interface_id.spec_wire());
        assert(w.subrange(4, 6) =~= self.hardware_type.spec_wire());
        if self.spec_wire_valid() {
            assert(<u32 as FixedWire>::spec_read(w.subrange(0, 4)) == Some(self.interface_id));
            assert(<HardwareType as FixedWire>::spec_read(w.subrange(4, 6)) == Some(self.hardware_type));
        }
    }
}

/// A 48 bit hardware address.
#[derive(Clone, Copy, Debug, PartialEq, Eq)]
pub struct MacAddress(pub [u8; 6]);

impl<'a> FixedWire<'a> for MacAddress {
    open spec fn spec_size() -> nat {
        6
    }

    open spec fn spec_wire(&self) -> Seq<u8> {
        self.0.spec_wire()
    }

    open spec fn spec_read(bytes: Seq<u8>) -> Option<Self> {
        if <[u8; 6] as FixedWire>::spec_read(bytes.subrange(0, 6)) is Some {
            Some(MacAddress(<[u8; 6] as FixedWire>::spec_read(bytes.subrange(0, 6)).unwrap()))
        } else {
            None
        }
    }

    open spec fn spec_wire_valid(&self) -> bool {
        self.0.spec_wire_valid()
    }

    fn wire_size() -> (n: usize) {
        6
    }

    fn write_wire(&self, out: &mut Vec<u8>) {
        let ghost start = out@;
        self.0.write_wire(out);
        proof {
            assert(out@ =~= start + self.spec_wire());
        }
    }

    fn read_wire(buf: &'a [u8], pos: usize) -> (r: Option<Self>) {
        let _len = buf.len();
        let ghost bytes = buf@.subrange(pos as int, pos + 6);
        proof {
            assert(bytes.subrange(0, 6) =~= buf@.subrange(pos + 0, pos + 6));
        }
        let v0 = match <[u8; 6] as FixedWire>::read_wire(buf, pos) {
            Some(v) => v,
            None => return None,
        };
        Some(MacAddress(v0))
    }

    proof fn lemma_wire(&self) {
        self.0.lemma_wire();
        let w = self.spec_wire();
        assert(w.subrange(0, 6) =~= self.0.spec_wire());
        if self.spec_wire_valid() {
            assert(<[u8; 6] as FixedWire>::spec_read(w.subrange(0, 6)) == Some(self.0));
        }
    }
}

impl MacAddress {
    /// The parameter data of the value.
    pub open spec fn spec_encoding(&self) -> Seq<u8> {
        self.spec_wire()
    }

    /// The value that parameter data stands for, or why it stands for none.
    pub open spec fn spec_decoded(buf: Seq<u8>) -> Result<Self, ParameterDataError> {
        record_decoded::<Self>(buf)
    }

    /// Whether decoding the parameter data gives the value back.
    pub open spec fn spec_encodable(&self) -> bool {
        self.spec_wire_valid()
    }

    pub fn size_of(&self) -> (n: usize)
        ensures
            n == self.spec_encoding().len(),
            n <= 6,
    {
        proof {
            self.lemma_wire();
        }
        Self::wire_size()
    }

    /// Appends the parameter data to `out`.
    pub fn write_encoding(&self, out: &mut Vec<u8>)
        ensures
            final(out)@ == old(out)@ + self.spec_encoding(),
    {
        self.write_wire(out);
    }

    pub fn encode_parameter_data(&self, buf: &mut [u8]) -> (r: Result<usize, ParameterDataError>)
        ensures
            encoded_into(old(buf)@, final(buf)@, self.spec_encoding(), r),
    {
        encode_record(self, buf)
    }

    pub fn decode_parameter_data(buf: &[u8]) -> (r: Result<Self, ParameterDataError>)
        ensures
            r == Self::spec_decoded(buf@),
    {
        decode_record(buf)
    }

    /// Decoding the parameter data of an encodable value gives it back.
    pub proof fn lemma_roundtrip(&self)
        requires
            self.spec_encodable(),
        ensures
            Self::spec_decoded(self.spec_encoding()) == Ok::<Self, ParameterDataError>(*self),
    {
        lemma_record_roundtrip(*self);
    }
}

/// A bounded string of at most 32 bytes of UTF-8.
#[derive(Clone, Copy, Debug, PartialEq, Eq)]
pub struct InterfaceLabel {
    len: usize,
    bytes: [u8; 32],
}

impl InterfaceLabel {
    pub const MAX_LENGTH: usize = 32;

    #[verifier::type_invariant]
    pub closed spec fn wf(self) -> bool {
        &&& self.len <= 32
        &&& vstd::utf8::valid_utf8(self.bytes@.subrange(0, self.len as int))
        &&& forall|i: int| self.len <= i < 32 ==> self.bytes@[i] == 0
    }

    /// The UTF-8 bytes of the string.
    pub closed spec fn spec_bytes(self) -> Seq<u8> {
        self.bytes@.subrange(0, self.len as int)
    }

    /// The label whose bytes are `content`, when they fit and are UTF-8.
    pub closed spec fn spec_of_bytes(content: Seq<u8>) -> Self {
        choose|l: Self| l.wf() && l.spec_bytes() == content
    }

    /// A label is determined by its bytes.
    pub proof fn lemma_determined_by_bytes(a: Self, b: Self)
        requires
            a.wf(),
            b.wf(),
            a.spec_bytes() == b.spec_bytes(),
        ensures
            a == b,
    {
        assert forall|i: int| 0 <= i < 32 implies a.bytes@[i] == b.bytes@[i] by {
            if i < a.len {
                assert(a.bytes@[i] == a.spec_bytes()[i]);
                assert(b.bytes@[i] == b.spec_bytes()[i]);
            }
        }
        assert(a.bytes =~= b.bytes);
    }

    /// The label that holds `content` holds exactly those bytes, when they fit and are UTF-8.
    pub proof fn lemma_of_bytes(content: Seq<u8>)
        requires
            content.len() <= 32,
            vstd::utf8::valid_utf8(content),
        ensures
            Self::spec_of_bytes(content).wf(),
            Self::spec_of_bytes(content).spec_bytes() == content,
    {
        let bytes = spec_padded_array::<32>(content, content.len());
        lemma_padded_array::<32>(content, content.len());
        let l = InterfaceLabel { len: content.len() as usize, bytes };
        assert(l.bytes@.subrange(0, l.len as int) =~= content);
        assert(l.wf() && l.spec_bytes() == content);
    }

    fn of_bytes(content: &[u8]) -> (r: Self)
        requires
            content@.len() <= 32,
            vstd::utf8::valid_utf8(content@),
        ensures
            r == Self::spec_of_bytes(content@),
            r.spec_bytes() == content@,
    {
        let mut bytes = [0u8; 32];
        proof {
            vstd::array::axiom_spec_array_fill_for_copy_type::<u8, 32>(0u8);
        }
        let mut i: usize = 0;
        while i < content.len()
            invariant
                i <= content@.len(),
                content@.len() <= 32,
                forall|j: int| 0 <= j < i ==> bytes@[j] == content@[j],
                forall|j: int| i <= j < 32 ==> bytes@[j] == 0,
            decreases content@.len() - i,
        {
            bytes[i] = content[i];
            i = i + 1;
        }
        proof {
            assert(bytes@.subrange(0, content@.len() as int) =~= content@);
        }
        let r = InterfaceLabel { len: content.len(), bytes };
        proof {
            Self::lemma_determined_by_bytes(r, Self::spec_of_bytes(content@));
        }
        r
    }

    /// Makes a label of `s`, failing when it is longer than 32 bytes.
    pub fn new(s: &str) -> (r: Result<Self, RdmError>)
        ensures
            s.spec_bytes().len() <= 32 ==> r == Ok::<Self, RdmError>(Self::spec_of_bytes(s.spec_bytes())),
            r matches Ok(l) ==> l.spec_bytes() == s.spec_bytes(),
            s.spec_bytes().len() > 32 ==> r == Err::<Self, RdmError>(
                RdmError::InvalidStringLength(s.spec_bytes().len() as usize, 32),
            ),
    {
        let b = s.as_bytes();
        if b.len() > 32 {
            return Err(RdmError::InvalidStringLength(b.len(), 32));
        }
        proof {
            vstd::utf8::encode_utf8_valid_utf8(s@);
        }
        Ok(Self::of_bytes(b))
    }

    /// Makes a label of `s` without its trailing zero characters, failing when it is longer than 32 bytes.
    pub fn from_str(s: &str) -> (r: Result<Self, ParameterDataError>)
        ensures
            trimmed_trailing_nulls(s.spec_bytes()).len() <= 32 ==> r == Ok::<Self, ParameterDataError>(
                Self::spec_of_bytes(trimmed_trailing_nulls(s.spec_bytes())),
            ),
            r matches Ok(l) ==> l.spec_bytes() == trimmed_trailing_nulls(s.spec_bytes()),
            trimmed_trailing_nulls(s.spec_bytes()).len() > 32 ==> r == Err::<Self, ParameterDataError>(
                ParameterDataError::StringTooLong {
                    length: trimmed_trailing_nulls(s.spec_bytes()).len() as usize,
                    max_length: 32,
                },
            ),
    {
        let b = s.as_bytes();
        let t = trim_trailing_nulls(b);
        if t.len() > 32 {
            return Err(ParameterDataError::StringTooLong { length: t.len(), max_length: 32 });
        }
        proof {
            vstd::utf8::encode_utf8_valid_utf8(s@);
            lemma_trim_trailing_nulls_valid_utf8(s.spec_bytes());
        }
        Ok(Self::of_bytes(t))
    }

    /// The label as a string slice.
    pub fn as_str(&self) -> (r: &str)
        ensures
            r.spec_bytes() == self.spec_bytes(),
    {
        proof {
            use_type_invariant(self);
        }
        let s = vstd::slice::slice_subrange(self.bytes.as_slice(), 0, self.len);
        match str_from_utf8(s) {
            Some(r) => r,
            None => {
                proof {
                    assert(false);
                }
                ""
            },
        }
    }

    /// The UTF-8 bytes of the label.
    pub fn as_bytes(&self) -> (r: &[u8])
        ensures
            r@ == self.spec_bytes(),
    {
        proof {
            use_type_invariant(self);
        }
        vstd::slice::slice_subrange(self.bytes.as_slice(), 0, self.len)
    }

    /// The length in bytes.
    pub fn len(&self) -> (n: usize)
        ensures
            n == self.spec_bytes().len(),
    {
        proof {
            use_type_invariant(self);
        }
        self.len
    }

    pub fn is_empty(&self) -> (b: bool)
        ensures
            b == (self.spec_bytes().len() == 0),
    {
        proof {
            use_type_invariant(self);
        }
        self.len == 0
    }

    /// The wire form: the bytes up to the first zero byte.
    pub open spec fn spec_encode(self) -> Seq<u8> {
        truncated_at_null(self.spec_bytes())
    }

    /// The label carried by `buf`: its bytes up to the first zero byte, when they are UTF-8 and fit.
    pub open spec fn spec_decode(buf: Seq<u8>) -> Result<Self, ParameterDataError> {
        let content = truncated_at_null(buf);
        if content.len() > 32 {
            Err(ParameterDataError::StringTooLong { length: content.len() as usize, max_length: 32 })
        } else if !vstd::utf8::valid_utf8(content) {
            Err(ParameterDataError::InvalidUtf8)
        } else {
            Ok(Self::spec_of_bytes(content))
        }
    }

    /// The parameter data of a text without a zero byte is the text itself, and a text of at most
    /// 32 bytes of UTF-8 without a zero byte decodes to the value holding that text; whatever
    /// follows a zero byte is not read.
    pub proof fn lemma_text_codec(self, text: Seq<u8>)
        ensures
            has_no_null(self.spec_bytes()) ==> self.spec_encode() == self.spec_bytes(),
            text.len() <= 32 && has_no_null(text) && vstd::utf8::valid_utf8(text) ==> (Self::spec_decode(text) matches Ok(l)
                && l.spec_bytes() == text),
            forall|rest: Seq<u8>| #![auto] has_no_null(text) ==> Self::spec_decode(text + seq![0u8] + rest) == Self::spec_decode(text),
    {
        let b = self.spec_bytes();
        if has_no_null(b) {
            assert(b.subrange(0, b.len() as int) =~= b);
            lemma_truncated_at_null_prefix(b, b.len() as int);
        }
        if has_no_null(text) {
            assert(text.subrange(0, text.len() as int) =~= text);
            lemma_truncated_at_null_prefix(text, text.len() as int);
            if text.len() <= 32 && vstd::utf8::valid_utf8(text) {
                Self::lemma_of_bytes(text);
            }
            assert forall|rest: Seq<u8>| #![auto] Self::spec_decode(text + seq![0u8] + rest) == Self::spec_decode(text) by {
                let w = text + seq![0u8] + rest;
                assert(w.subrange(0, text.len() as int) =~= text);
                lemma_truncated_at_null_prefix(w, text.len() as int);
            }
        }
    }

    pub fn size_of(&self) -> (n: usize)
        ensures
            n == self.spec_encode().len(),
    {
        proof {
            use_type_invariant(self);
        }
        let s = vstd::slice::slice_subrange(self.bytes.as_slice(), 0, self.len);
        null_position(s)
    }

    pub fn encode_parameter_data(&self, buf: &mut [u8]) -> (r: Result<usize, ParameterDataError>)
        ensures
            encoded_into(old(buf)@, final(buf)@, self.spec_encode(), r),
    {
        proof {
            use_type_invariant(self);
        }
        let s = vstd::slice::slice_subrange(self.bytes.as_slice(), 0, self.len);
        copy_encoded(buf, truncate_at_null(s))
    }

    pub fn decode_parameter_data(buf: &[u8]) -> (r: Result<Self, ParameterDataError>)
        ensures
            r == Self::spec_decode(buf@),
            r matches Ok(l) ==> l.spec_bytes() == truncated_at_null(buf@),
    {
        let content = truncate_at_null(buf);
        if content.len() > 32 {
            return Err(ParameterDataError::StringTooLong { length: content.len(), max_length: 32 });
        }
        match str_from_utf8(content) {
            Some(_) => Ok(Self::of_bytes(content)),
            None => Err(ParameterDataError::InvalidUtf8),
        }
    }

    /// Decoding the wire form of a label without zero bytes gives the label back.
    pub proof fn lemma_roundtrip(self)
        requires
            self.wf(),
            has_no_null(self.spec_bytes()),
        ensures
            Self::spec_decode(self.spec_encode()) == Ok::<Self, ParameterDataError>(self),
    {
        lemma_truncated_at_null_prefix(self.spec_bytes(), self.spec_bytes().len() as int);
        assert(self.spec_bytes().subrange(0, self.spec_bytes().len() as int) =~= self.spec_bytes());
        Self::lemma_determined_by_bytes(self, Self::spec_of_bytes(self.spec_bytes()));
    }

    /// The wire form is no longer than 32 bytes.
    pub proof fn lemma_encode_len(self)
        requires
            self.wf(),
        ensures
            self.spec_encode().len() <= 32,
    {
        lemma_truncated_at_null_shape(self.spec_bytes());
    }

    /// Whether decoding the wire form gives the label back: it holds no zero byte.
    pub open spec fn spec_encodable(self) -> bool {
        self.wf() && has_no_null(self.spec_bytes())
    }

    /// The bytes followed by zeros up to 32 bytes.
    pub closed spec fn spec_padded(self) -> Seq<u8> {
        self.bytes@
    }

    /// Appends the wire form to `out`.
    pub fn write_encoded(&self, out: &mut Vec<u8>)
        ensures
            final(out)@ == old(out)@ + self.spec_encode(),
    {
        proof {
            use_type_invariant(self);
        }
        let s = vstd::slice::slice_subrange(self.bytes.as_slice(), 0, self.len);
        extend_from(out, truncate_at_null(s));
    }
}

impl<'a> FixedWire<'a> for InterfaceLabel {
    open spec fn spec_size() -> nat {
        32
    }

    open spec fn spec_wire(&self) -> Seq<u8> {
        self.spec_padded()
    }

    open spec fn spec_read(bytes: Seq<u8>) -> Option<Self> {
        match Self::spec_decode(bytes) {
            Ok(l) => Some(l),
            Err(_) => None,
        }
    }

    open spec fn spec_wire_valid(&self) -> bool {
        self.spec_encodable()
    }

    fn wire_size() -> (n: usize) {
        32
    }

    fn write_wire(&self, out: &mut Vec<u8>) {
        proof {
            use_type_invariant(self);
        }
        extend_from(out, self.bytes.as_slice());
    }

    fn read_wire(buf: &'a [u8], pos: usize) -> (r: Option<Self>) {
        let _len = buf.len();
        let s = vstd::slice::slice_subrange(buf, pos, pos + 32);
        match Self::decode_parameter_data(s) {
            Ok(l) => Some(l),
            Err(_) => None,
        }
    }

    proof fn lemma_wire(&self) {
        if self.spec_encodable() {
            let b = self.spec_bytes();
            let p = self.bytes@;
            assert(p.subrange(0, self.len as int) =~= b);
            assert forall|i: int| 0 <= i < self.len implies p[i] != 0 by {
                assert(p[i] == b[i]);
            }
            assert(self.len < 32 ==> p[self.len as int] == 0);
            assert(has_no_null(p.subrange(0, self.len as int)));
            lemma_truncated_at_null_prefix(p, self.len as int);
            Self::lemma_determined_by_bytes(*self, Self::spec_of_bytes(b));
        }
    }
}

/// A bounded string of at most 63 bytes of UTF-8.
#[derive(Clone, Copy, Debug, PartialEq, Eq)]
pub struct DnsHostName {
    len: usize,
    bytes: [u8; 63],
}

impl DnsHostName {
    pub const MAX_LENGTH: usize = 63;

    #[verifier::type_invariant]
    pub closed spec fn wf(self) -> bool {
        &&& self.len <= 63
        &&& vstd::utf8::valid_utf8(self.bytes@.subrange(0, self.len as int))
        &&& forall|i: int| self.len <= i < 63 ==> self.bytes@[i] == 0
    }

    /// The UTF-8 bytes of the string.
    pub closed spec fn spec_bytes(self) -> Seq<u8> {
        self.bytes@.subrange(0, self.len as int)
    }

    /// The label whose bytes are `content`, when they fit and are UTF-8.
    pub closed spec fn spec_of_bytes(content: Seq<u8>) -> Self {
        choose|l: Self| l.wf() && l.spec_bytes() == content
    }

    /// A label is determined by its bytes.
    pub proof fn lemma_determined_by_bytes(a: Self, b: Self)
        requires
            a.wf(),
            b.wf(),
            a.spec_bytes() == b.spec_bytes(),
        ensures
            a == b,
    {
        assert forall|i: int| 0 <= i < 63 implies a.bytes@[i] == b.bytes@[i] by {
            if i < a.len {
                assert(a.bytes@[i] == a.spec_bytes()[i]);
                assert(b.bytes@[i] == b.spec_bytes()[i]);
            }
        }
        assert(a.bytes =~= b.bytes);
    }

    /// The label that holds `content` holds exactly those bytes, when they fit and are UTF-8.
    pub proof fn lemma_of_bytes(content: Seq<u8>)
        requires
            content.len() <= 63,
            vstd::utf8::valid_utf8(content),
        ensures
            Self::spec_of_bytes(content).wf(),
            Self::spec_of_bytes(content).spec_bytes() == content,
    {
        let bytes = spec_padded_array::<63>(content, content.len());
        lemma_padded_array::<63>(content, content.len());
        let l = DnsHostName { len: content.len() as usize, bytes };
        assert(l.bytes@.subrange(0, l.len as int) =~= content);
        assert(l.wf() && l.spec_bytes() == content);
    }

    fn of_bytes(content: &[u8]) -> (r: Self)
        requires
            content@.len() <= 63,
            vstd::utf8::valid_utf8(content@),
        ensures
            r == Self::spec_of_bytes(content@),
            r.spec_bytes() == content@,
    {
        let mut bytes = [0u8; 63];
        proof {
            vstd::array::axiom_spec_array_fill_for_copy_type::<u8, 63>(0u8);
        }
        let mut i: usize = 0;
        while i < content.len()
            invariant
                i <= content@.len(),
                content@.len() <= 63,
                forall|j: int| 0 <= j < i ==> bytes@[j] == content@[j],
                forall|j: int| i <= j < 63 ==> bytes@[j] == 0,
            decreases content@.len() - i,
        {
            bytes[i] = content[i];
            i = i + 1;
        }
        proof {
            assert(bytes@.subrange(0, content@.len() as int) =~= content@);
        }
        let r = DnsHostName { len: content.len(), bytes };
        proof {
            Self::lemma_determined_by_bytes(r, Self::spec_of_bytes(content@));
        }
        r
    }

    /// Makes a label of `s`, failing when it is longer than 63 bytes.
    pub fn new(s: &str) -> (r: Result<Self, RdmError>)
        ensures
            s.spec_bytes().len() <= 63 ==> r == Ok::<Self, RdmError>(Self::spec_of_bytes(s.spec_bytes())),
            r matches Ok(l) ==> l.spec_bytes() == s.spec_bytes(),
            s.spec_bytes().len() > 63 ==> r == Err::<Self, RdmError>(
                RdmError::InvalidStringLength(s.spec_bytes().len() as usize, 63),
            ),
    {
        let b = s.as_bytes();
        if b.len() > 63 {
            return Err(RdmError::InvalidStringLength(b.len(), 63));
        }
        proof {
            vstd::utf8::encode_utf8_valid_utf8(s@);
        }
        Ok(Self::of_bytes(b))
    }

    /// Makes a label of `s` without its trailing zero characters, failing when it is longer than 63 bytes.
    pub fn from_str(s: &str) -> (r: Result<Self, ParameterDataError>)
        ensures
            trimmed_trailing_nulls(s.spec_bytes()).len() <= 63 ==> r == Ok::<Self, ParameterDataError>(
                Self::spec_of_bytes(trimmed_trailing_nulls(s.spec_bytes())),
            ),
            r matches Ok(l) ==> l.spec_bytes() == trimmed_trailing_nulls(s.spec_bytes()),
            trimmed_trailing_nulls(s.spec_bytes()).len() > 63 ==> r == Err::<Self, ParameterDataError>(
                ParameterDataError::StringTooLong {
                    length: trimmed_trailing_nulls(s.spec_bytes()).len() as usize,
                    max_length: 63,
                },
            ),
    {
        let b = s.as_bytes();
        let t = trim_trailing_nulls(b);
        if t.len() > 63 {
            return Err(ParameterDataError::StringTooLong { length: t.len(), max_length: 63 });
        }
        proof {
            vstd::utf8::encode_utf8_valid_utf8(s@);
            lemma_trim_trailing_nulls_valid_utf8(s.spec_bytes());
        }
        Ok(Self::of_bytes(t))
    }

    /// The label as a string slice.
    pub fn as_str(&self) -> (r: &str)
        ensures
            r.spec_bytes() == self.spec_bytes(),
    {
        proof {
            use_type_invariant(self);
        }
        let s = vstd::slice::slice_subrange(self.bytes.as_slice(), 0, self.len);
        match str_from_utf8(s) {
            Some(r) => r,
            None => {
                proof {
                    assert(false);
                }
                ""
            },
        }
    }

    /// The UTF-8 bytes of the label.
    pub fn as_bytes(&self) -> (r: &[u8])
        ensures
            r@ == self.spec_bytes(),
    {
        proof {
            use_type_invariant(self);
        }
        vstd::slice::slice_subrange(self.bytes.as_slice(), 0, self.len)
    }

    /// The length in bytes.
    pub fn len(&self) -> (n: usize)
        ensures
            n == self.spec_bytes().len(),
    {
        proof {
            use_type_invariant(self);
        }
        self.len
    }

    pub fn is_empty(&self) -> (b: bool)
        ensures
            b == (self.spec_bytes().len() == 0),
    {
        proof {
            use_type_invariant(self);
        }
        self.len == 0
    }

    /// The wire form: the bytes up to the first zero byte.
    pub open spec fn spec_encode(self) -> Seq<u8> {
        truncated_at_null(self.spec_bytes())
    }

    /// The label carried by `buf`: its bytes up to the first zero byte, when they are UTF-8 and fit.
    pub open spec fn spec_decode(buf: Seq<u8>) -> Result<Self, ParameterDataError> {
        let content = truncated_at_null(buf);
        if content.len() > 63 {
            Err(ParameterDataError::StringTooLong { length: content.len() as usize, max_length: 63 })
        } else if !vstd::utf8::valid_utf8(content) {
            Err(ParameterDataError::InvalidUtf8)
        } else {
            Ok(Self::spec_of_bytes(content))
        }
    }

    /// The parameter data of a text without a zero byte is the text itself, and a text of at most
    /// 63 bytes of UTF-8 without a zero byte decodes to the value holding that text; whatever
    /// follows a zero byte is not read.
    pub proof fn lemma_text_codec(self, text: Seq<u8>)
        ensures
            has_no_null(self.spec_bytes()) ==> self.spec_encode() == self.spec_bytes(),
            text.len() <= 63 && has_no_null(text) && vstd::utf8::valid_utf8(text) ==> (Self::spec_decode(text) matches Ok(l)
                && l.spec_bytes() == text),
            forall|rest: Seq<u8>| #![auto] has_no_null(text) ==> Self::spec_decode(text + seq![0u8] + rest) == Self::spec_decode(text),
    {
        let b = self.spec_bytes();
        if has_no_null(b) {
            assert(b.subrange(0, b.len() as int) =~= b);
            lemma_truncated_at_null_prefix(b, b.len() as int);
        }
        if has_no_null(text) {
            assert(text.subrange(0, text.len() as int) =~= text);
            lemma_truncated_at_null_prefix(text, text.len() as int);
            if text.len() <= 63 && vstd::utf8::valid_utf8(text) {
                Self::lemma_of_bytes(text);
            }
            assert forall|rest: Seq<u8>| #![auto] Self::spec_decode(text + seq![0u8] + rest) == Self::spec_decode(text) by {
                let w = text + seq![0u8] + rest;
                assert(w.subrange(0, text.len() as int) =~= text);
                lemma_truncated_at_null_prefix(w, text.len() as int);
            }
        }
    }

    pub fn size_of(&self) -> (n: usize)
        ensures
            n == self.spec_encode().len(),
    {
        proof {
            use_type_invariant(self);
        }
        let s = vstd::slice::slice_subrange(self.bytes.as_slice(), 0, self.len);
        null_position(s)
    }

    pub fn encode_parameter_data(&self, buf: &mut [u8]) -> (r: Result<usize, ParameterDataError>)
        ensures
            encoded_into(old(buf)@, final(buf)@, self.spec_encode(), r),
    {
        proof {
            use_type_invariant(self);
        }
        let s = vstd::slice::slice_subrange(self.bytes.as_slice(), 0, self.len);
        copy_encoded(buf, truncate_at_null(s))
    }

    pub fn decode_parameter_data(buf: &[u8]) -> (r: Result<Self, ParameterDataError>)
        ensures
            r == Self::spec_decode(buf@),
            r matches Ok(l) ==> l.spec_bytes() == truncated_at_null(buf@),
    {
        let content = truncate_at_null(buf);
        if content.len() > 63 {
            return Err(ParameterDataError::StringTooLong { length: content.len(), max_length: 63 });
        }
        match str_from_utf8(content) {
            Some(_) => Ok(Self::of_bytes(content)),
            None => Err(ParameterDataError::InvalidUtf8),
        }
    }

    /// Decoding the wire form of a label without zero bytes gives the label back.
    pub proof fn lemma_roundtrip(self)
        requires
            self.wf(),
            has_no_null(self.spec_bytes()),
        ensures
            Self::spec_decode(self.spec_encode()) == Ok::<Self, ParameterDataError>(self),
    {
        lemma_truncated_at_null_prefix(self.spec_bytes(), self.spec_bytes().len() as int);
        assert(self.spec_bytes().subrange(0, self.spec_bytes().len() as int) =~= self.spec_bytes());
        Self::lemma_determined_by_bytes(self, Self::spec_of_bytes(self.spec_bytes()));
    }

    /// The wire form is no longer than 63 bytes.
    pub proof fn lemma_encode_len(self)
        requires
            self.wf(),
        ensures
            self.spec_encode().len() <= 63,
    {
        lemma_truncated_at_null_shape(self.spec_bytes());
    }

    /// Whether decoding the wire form gives the label back: it holds no zero byte.
    pub open spec fn spec_encodable(self) -> bool {
        self.wf() && has_no_null(self.spec_bytes())
    }

    /// The bytes followed by zeros up to 63 bytes.
    pub closed spec fn spec_padded(self) -> Seq<u8> {
        self.bytes@
    }

    /// Appends the wire form to `out`.
    pub fn write_encoded(&self, out: &mut Vec<u8>)
        ensures
            final(out)@ == old(out)@ + self.spec_encode(),
    {
        proof {
            use_type_invariant(self);
        }
        let s = vstd::slice::slice_subrange(self.bytes.as_slice(), 0, self.len);
        extend_from(out, truncate_at_null(s));
    }
}

impl<'a> FixedWire<'a> for DnsHostName {
    open spec fn spec_size() -> nat {
        63
    }

    open spec fn spec_wire(&self) -> Seq<u8> {
        self.spec_padded()
    }

    open spec fn spec_read(bytes: Seq<u8>) -> Option<Self> {
        match Self::spec_decode(bytes) {
            Ok(l) => Some(l),
            Err(_) => None,
        }
    }

    open spec fn spec_wire_valid(&self) -> bool {
        self.spec_encodable()
    }

    fn wire_size() -> (n: usize) {
        63
    }

    fn write_wire(&self, out: &mut Vec<u8>) {
        proof {
            use_type_invariant(self);
        }
        extend_from(out, self.bytes.as_slice());
    }

    fn read_wire(buf: &'a [u8], pos: usize) -> (r: Option<Self>) {
        let _len = buf.len();
        let s = vstd::slice::slice_subrange(buf, pos, pos + 63);
        match Self::decode_parameter_data(s) {
            Ok(l) => Some(l),
            Err(_) => None,
        }
    }

    proof fn lemma_wire(&self) {
        if self.spec_encodable() {
            let b = self.spec_bytes();
            let p = self.bytes@;
            assert(p.subrange(0, self.len as int) =~= b);
            assert forall|i: int| 0 <= i < self.len implies p[i] != 0 by {
                assert(p[i] == b[i]);
            }
            assert(self.len < 63 ==> p[self.len as int] == 0);
            assert(has_no_null(p.subrange(0, self.len as int)));
            lemma_truncated_at_null_prefix(p, self.len as int);
            Self::lemma_determined_by_bytes(*self, Self::spec_of_bytes(b));
        }
    }
}

/// A bounded string of at most 231 bytes of UTF-8.
#[derive(Clone, Copy, Debug, PartialEq, Eq)]
pub struct DnsDomainName {
    len: usize,
    bytes: [u8; 231],
}

impl DnsDomainName {
    pub const MAX_LENGTH: usize = 231;

    #[verifier::type_invariant]
    pub closed spec fn wf(self) -> bool {
        &&& self.len <= 231
        &&& vstd::utf8::valid_utf8(self.bytes@.subrange(0, self.len as int))
        &&& forall|i: int| self.len <= i < 231 ==> self.bytes@[i] == 0
    }

    /// The UTF-8 bytes of the string.
    pub closed spec fn spec_bytes(self) -> Seq<u8> {
        self.bytes@.subrange(0, self.len as int)
    }

    /// The label whose bytes are `content`, when they fit and are UTF-8.
    pub closed spec fn spec_of_bytes(content: Seq<u8>) -> Self {
        choose|l: Self| l.wf() && l.spec_bytes() == content
    }

    /// A label is determined by its bytes.
    pub proof fn lemma_determined_by_bytes(a: Self, b: Self)
        requires
            a.wf(),
            b.wf(),
            a.spec_bytes() == b.spec_bytes(),
        ensures
            a == b,
    {
        assert forall|i: int| 0 <= i < 231 implies a.bytes@[i] == b.bytes@[i] by {
            if i < a.len {
                assert(a.bytes@[i] == a.spec_bytes()[i]);
                assert(b.bytes@[i] == b.spec_bytes()[i]);
            }
        }
        assert(a.bytes =~= b.bytes);
    }

    /// The label that holds `content` holds exactly those bytes, when they fit and are UTF-8.
    pub proof fn lemma_of_bytes(content: Seq<u8>)
        requires
            content.len() <= 231,
            vstd::utf8::valid_utf8(content),
        ensures
            Self::spec_of_bytes(content).wf(),
            Self::spec_of_bytes(content).spec_bytes() == content,
    {
        let bytes = spec_padded_array::<231>(content, content.len());
        lemma_padded_array::<231>(content, content.len());
        let l = DnsDomainName { len: content.len() as usize, bytes };
        assert(l.bytes@.subrange(0, l.len as int) =~= content);
        assert(l.wf() && l.spec_bytes() == content);
    }

    fn of_bytes(content: &[u8]) -> (r: Self)
        requires
            content@.len() <= 231,
            vstd::utf8::valid_utf8(content@),
        ensures
            r == Self::spec_of_bytes(content@),
            r.spec_bytes() == content@,
    {
        let mut bytes = [0u8; 231];
        proof {
            vstd::array::axiom_spec_array_fill_for_copy_type::<u8, 231>(0u8);
        }
        let mut i: usize = 0;
        while i < content.len()
            invariant
                i <= content@.len(),
                content@.len() <= 231,
                forall|j: int| 0 <= j < i ==> bytes@[j] == content@[j],
                forall|j: int| i <= j < 231 ==> bytes@[j] == 0,
            decreases content@.len() - i,
        {
            bytes[i] = content[i];
            i = i + 1;
        }
        proof {
            assert(bytes@.subrange(0, content@.len() as int) =~= content@);
        }
        let r = DnsDomainName { len: content.len(), bytes };
        proof {
            Self::lemma_determined_by_bytes(r, Self::spec_of_bytes(content@));
        }
        r
    }

    /// Makes a label of `s`, failing when it is longer than 231 bytes.
    pub fn new(s: &str) -> (r: Result<Self, RdmError>)
        ensures
            s.spec_bytes().len() <= 231 ==> r == Ok::<Self, RdmError>(Self::spec_of_bytes(s.spec_bytes())),
            r matches Ok(l) ==> l.spec_bytes() == s.spec_bytes(),
            s.spec_bytes().len() > 231 ==> r == Err::<Self, RdmError>(
                RdmError::InvalidStringLength(s.spec_bytes().len() as usize, 231),
            ),
    {
        let b = s.as_bytes();
        if b.len() > 231 {
            return Err(RdmError::InvalidStringLength(b.len(), 231));
        }
        proof {
            vstd::utf8::encode_utf8_valid_utf8(s@);
        }
        Ok(Self::of_bytes(b))
    }

    /// Makes a label of `s` without its trailing zero characters, failing when it is longer than 231 bytes.
    pub fn from_str(s: &str) -> (r: Result<Self, ParameterDataError>)
        ensures
            trimmed_trailing_nulls(s.spec_bytes()).len() <= 231 ==> r == Ok::<Self, ParameterDataError>(
                Self::spec_of_bytes(trimmed_trailing_nulls(s.spec_bytes())),
            ),
            r matches Ok(l) ==> l.spec_bytes() == trimmed_trailing_nulls(s.spec_bytes()),
            trimmed_trailing_nulls(s.spec_bytes()).len() > 231 ==> r == Err::<Self, ParameterDataError>(
                ParameterDataError::StringTooLong {
                    length: trimmed_trailing_nulls(s.spec_bytes()).len() as usize,
                    max_length: 231,
                },
            ),
    {
        let b = s.as_bytes();
        let t = trim_trailing_nulls(b);
        if t.len() > 231 {
            return Err(ParameterDataError::StringTooLong { length: t.len(), max_length: 231 });
        }
        proof {
            vstd::utf8::encode_utf8_valid_utf8(s@);
            lemma_trim_trailing_nulls_valid_utf8(s.spec_bytes());
        }
        Ok(Self::of_bytes(t))
    }

    /// The label as a string slice.
    pub fn as_str(&self) -> (r: &str)
        ensures
            r.spec_bytes() == self.spec_bytes(),
    {
        proof {
            use_type_invariant(self);
        }
        let s = vstd::slice::slice_subrange(self.bytes.as_slice(), 0, self.len);
        match str_from_utf8(s) {
            Some(r) => r,
            None => {
                proof {
                    assert(false);
                }
                ""
            },
        }
    }

    /// The UTF-8 bytes of the label.
    pub fn as_bytes(&self) -> (r: &[u8])
        ensures
            r@ == self.spec_bytes(),
    {
        proof {
            use_type_invariant(self);
        }
        vstd::slice::slice_subrange(self.bytes.as_slice(), 0, self.len)
    }

    /// The length in bytes.
    pub fn len(&self) -> (n: usize)
        ensures
            n == self.spec_bytes().len(),
    {
        proof {
            use_type_invariant(self);
        }
        self.len
    }

    pub fn is_empty(&self) -> (b: bool)
        ensures
            b == (self.spec_bytes().len() == 0),
    {
        proof {
            use_type_invariant(self);
        }
        self.len == 0
    }

    /// The wire form: the bytes up to the first zero byte.
    pub open spec fn spec_encode(self) -> Seq<u8> {
        truncated_at_null(self.spec_bytes())
    }

    /// The label carried by `buf`: its bytes up to the first zero byte, when they are UTF-8 and fit.
    pub open spec fn spec_decode(buf: Seq<u8>) -> Result<Self, ParameterDataError> {
        let content = truncated_at_null(buf);
        if content.len() > 231 {
            Err(ParameterDataError::StringTooLong { length: content.len() as usize, max_length: 231 })
        } else if !vstd::utf8::valid_utf8(content) {
            Err(ParameterDataError::InvalidUtf8)
        } else {
            Ok(Self::spec_of_bytes(content))
        }
    }

    /// The parameter data of a text without a zero byte is the text itself, and a text of at most
    /// 231 bytes of UTF-8 without a zero byte decodes to the value holding that text; whatever
    /// follows a zero byte is not read.
    pub proof fn lemma_text_codec(self, text: Seq<u8>)
        ensures
            has_no_null(self.spec_bytes()) ==> self.spec_encode() == self.spec_bytes(),
            text.len() <= 231 && has_no_null(text) && vstd::utf8::valid_utf8(text) ==> (Self::spec_decode(text) matches Ok(l)
                && l.spec_bytes() == text),
            forall|rest: Seq<u8>| #![auto] has_no_null(text) ==> Self::spec_decode(text + seq![0u8] + rest) == Self::spec_decode(text),
    {
        let b = self.spec_bytes();
        if has_no_null(b) {
            assert(b.subrange(0, b.len() as int) =~= b);
            lemma_truncated_at_null_prefix(b, b.len() as int);
        }
        if has_no_null(text) {
            assert(text.subrange(0, text.len() as int) =~= text);
            lemma_truncated_at_null_prefix(text, text.len() as int);
            if text.len() <= 231 && vstd::utf8::valid_utf8(text) {
                Self::lemma_of_bytes(text);
            }
            assert forall|rest: Seq<u8>| #![auto] Self::spec_decode(text + seq![0u8] + rest) == Self::spec_decode(text) by {
                let w = text + seq![0u8] + rest;
                assert(w.subrange(0, text.len() as int) =~= text);
                lemma_truncated_at_null_prefix(w, text.len() as int);
            }
        }
    }

    pub fn size_of(&self) -> (n: usize)
        ensures
            n == self.spec_encode().len(),
    {
        proof {
            use_type_invariant(self);
        }
        let s = vstd::slice::slice_subrange(self.bytes.as_slice(), 0, self.len);
        null_position(s)
    }

    pub fn encode_parameter_data(&self, buf: &mut [u8]) -> (r: Result<usize, ParameterDataError>)
        ensures
            encoded_into(old(buf)@, final(buf)@, self.spec_encode(), r),
    {
        proof {
            use_type_invariant(self);
        }
        let s = vstd::slice::slice_subrange(self.bytes.as_slice(), 0, self.len);
        copy_encoded(buf, truncate_at_null(s))
    }

    pub fn decode_parameter_data(buf: &[u8]) -> (r: Result<Self, ParameterDataError>)
        ensures
            r == Self::spec_decode(buf@),
            r matches Ok(l) ==> l.spec_bytes() == truncated_at_null(buf@),
    {
        let content = truncate_at_null(buf);
        if content.len() > 231 {
            return Err(ParameterDataError::StringTooLong { length: content.len(), max_length: 231 });
        }
        match str_from_utf8(content) {
            Some(_) => Ok(Self::of_bytes(content)),
            None => Err(ParameterDataError::InvalidUtf8),
        }
    }

    /// Decoding the wire form of a label without zero bytes gives the label back.
    pub proof fn lemma_roundtrip(self)
        requires
            self.wf(),
            has_no_null(self.spec_bytes()),
        ensures
            Self::spec_decode(self.spec_encode()) == Ok::<Self, ParameterDataError>(self),
    {
        lemma_truncated_at_null_prefix(self.spec_bytes(), self.spec_bytes().len() as int);
        assert(self.spec_bytes().subrange(0, self.spec_bytes().len() as int) =~= self.spec_bytes());
        Self::lemma_determined_by_bytes(self, Self::spec_of_bytes(self.spec_bytes()));
    }

    /// The wire form is no longer than 231 bytes.
    pub proof fn lemma_encode_len(self)
        requires
            self.wf(),
        ensures
            self.spec_encode().len() <= 231,
    {
        lemma_truncated_at_null_shape(self.spec_bytes());
    }

    /// Whether decoding the wire form gives the label back: it holds no zero byte.
    pub open spec fn spec_encodable(self) -> bool {
        self.wf() && has_no_null(self.spec_bytes())
    }

    /// The bytes followed by zeros up to 231 bytes.
    pub closed spec fn spec_padded(self) -> Seq<u8> {
        self.bytes@
    }

    /// Appends the wire form to `out`.
    pub fn write_encoded(&self, out: &mut Vec<u8>)
        ensures
            final(out)@ == old(out)@ + self.spec_encode(),
    {
        proof {
            use_type_invariant(self);
        }
        let s = vstd::slice::slice_subrange(self.bytes.as_slice(), 0, self.len);
        extend_from(out, truncate_at_null(s));
    }
}

impl<'a> FixedWire<'a> for DnsDomainName {
    open spec fn spec_size() -> nat {
        231
    }

    open spec fn spec_wire(&self) -> Seq<u8> {
        self.spec_padded()
    }

    open spec fn spec_read(bytes: Seq<u8>) -> Option<Self> {
        match Self::spec_decode(bytes) {
            Ok(l) => Some(l),
            Err(_) => None,
        }
    }

    open spec fn spec_wire_valid(&self) -> bool {
        self.spec_encodable()
    }

    fn wire_size() -> (n: usize) {
        231
    }

    fn write_wire(&self, out: &mut Vec<u8>) {
        proof {
            use_type_invariant(self);
        }
        extend_from(out, self.bytes.as_slice());
    }

    fn read_wire(buf: &'a [u8], pos: usize) -> (r: Option<Self>) {
        let _len = buf.len();
        let s = vstd::slice::slice_subrange(buf, pos, pos + 231);
        match Self::decode_parameter_data(s) {
            Ok(l) => Some(l),
            Err(_) => None,
        }
    }

    proof fn lemma_wire(&self) {
        if self.spec_encodable() {
            let b = self.spec_bytes();
            let p = self.bytes@;
            assert(p.subrange(0, self.len as int) =~= b);
            assert forall|i: int| 0 <= i < self.len implies p[i] != 0 by {
                assert(p[i] == b[i]);
            }
            assert(self.len < 231 ==> p[self.len as int] == 0);
            assert(has_no_null(p.subrange(0, self.len as int)));
            lemma_truncated_at_null_prefix(p, self.len as int);
            Self::lemma_determined_by_bytes(*self, Self::spec_of_bytes(b));
        }
    }
}

} // verus!
