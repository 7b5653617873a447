//! Core RDM types: device identifiers, sub-devices and command classes.

use crate::rdm::error::RdmError;
use crate::rdm::wire::FixedWire;
use vstd::prelude::*;
use vstd::std_specs::convert::{FromSpecImpl, TryFromSpecImpl};

verus! {

/// A 48 bit RDM unique identifier: a 16 bit manufacturer id and a 32 bit device id.
#[derive(Clone, Copy, Debug, PartialEq, Eq, Structural, Hash, Default)]
pub struct DeviceUID {
    pub manufacturer_id: u16,
    pub device_id: u32,
}

impl DeviceUID {
    pub fn new(manufacturer_id: u16, device_id: u32) -> (uid: Self)
        ensures
            uid.manufacturer_id == manufacturer_id,
            uid.device_id == device_id,
    {
        DeviceUID { manufacturer_id, device_id }
    }

    /// The identifier that addresses every device.
    pub fn broadcast_all_devices() -> (uid: Self)
        ensures
            uid.manufacturer_id == 0xffff,
            uid.device_id == 0xffff_ffff,
    {
        DeviceUID { manufacturer_id: 0xffff, device_id: 0xffff_ffff }
    }

    /// The identifier held in the low 48 bits of a 64 bit value.
    pub open spec fn spec_from_u64(value: u64) -> Self {
        DeviceUID {
            manufacturer_id: ((value / 0x1_0000_0000) % 0x1_0000) as u16,
            device_id: (value % 0x1_0000_0000) as u32,
        }
    }

    /// The identifier as a 64 bit value: the manufacturer id above the device id.
    pub open spec fn spec_to_u64(self) -> u64 {
        (self.manufacturer_id * 0x1_0000_0000 + self.device_id) as u64
    }

    /// As a 64 bit value, the manufacturer identifier takes the bits from 32 up and the device
    /// identifier the 32 low bits; bits from 48 up are dropped when a value is read.
    pub proof fn lemma_u64_layout(self, value: u64)
        ensures
            self.spec_to_u64() / 0x1_0000_0000 == self.manufacturer_id,
            self.spec_to_u64() % 0x1_0000_0000 == self.device_id,
            Self::spec_from_u64(value).manufacturer_id == (value / 0x1_0000_0000) % 0x1_0000,
            Self::spec_from_u64(value).device_id == value % 0x1_0000_0000,
    {
        let v = self.manufacturer_id * 0x1_0000_0000 + self.device_id;
        assert(v < 0x1_0000_0000_0000) by (nonlinear_arith)
            requires v == self.manufacturer_id * 0x1_0000_0000 + self.device_id, self.device_id < 0x1_0000_0000, self.manufacturer_id < 0x1_0000;
        assert(v / 0x1_0000_0000 == self.manufacturer_id as int) by (nonlinear_arith)
            requires v == self.manufacturer_id * 0x1_0000_0000 + self.device_id, self.device_id < 0x1_0000_0000;
        assert(v % 0x1_0000_0000 == self.device_id as int) by (nonlinear_arith)
            requires v == self.manufacturer_id * 0x1_0000_0000 + self.device_id, self.device_id < 0x1_0000_0000;
    }

    /// Converting an identifier to a 64 bit value and back gives it back.
    pub proof fn lemma_u64_roundtrip(self)
        ensures
            Self::spec_from_u64(self.spec_to_u64()) == self,
    {
        let v = self.manufacturer_id * 0x1_0000_0000 + self.device_id;
        assert(v / 0x1_0000_0000 == self.manufacturer_id as int) by (nonlinear_arith)
            requires v == self.manufacturer_id * 0x1_0000_0000 + self.device_id, self.device_id < 0x1_0000_0000;
        assert(v % 0x1_0000_0000 == self.device_id as int) by (nonlinear_arith)
            requires v == self.manufacturer_id * 0x1_0000_0000 + self.device_id, self.device_id < 0x1_0000_0000;
    }
}

impl From<u64> for DeviceUID {
    #[verifier::spinoff_prover]
    fn from(value: u64) -> (r: Self) {
        DeviceUID {
            manufacturer_id: ((value / 0x1_0000_0000) % 0x1_0000) as u16,
            device_id: (value % 0x1_0000_0000) as u32,
        }
    }
}

impl FromSpecImpl<u64> for DeviceUID {
    open spec fn obeys_from_spec() -> bool {
        true
    }

    open spec fn from_spec(value: u64) -> Self {
        DeviceUID::spec_from_u64(value)
    }
}

impl From<DeviceUID> for u64 {
    #[verifier::spinoff_prover]
    fn from(value: DeviceUID) -> (r: u64) {
        value.manufacturer_id as u64 * 0x1_0000_0000 + value.device_id as u64
    }
}

impl FromSpecImpl<DeviceUID> for u64 {
    open spec fn obeys_from_spec() -> bool {
        true
    }

    open spec fn from_spec(value: DeviceUID) -> u64 {
        value.spec_to_u64()
    }
}

/// The kind of an RDM frame: a request from a controller or a response from a responder.
#[derive(Clone, Copy, Debug, PartialEq, Eq, Structural)]
pub enum RdmFrameKind {
    Request,
    Response,
}

#[derive(Copy, Clone, Debug, PartialEq, Eq, Structural)]
pub enum SubDeviceId {
    RootDevice,
    AllCall,
    Id(u16),
}

impl SubDeviceId {
    /// The wire value of the variant.
    pub open spec fn spec_to_u16(self) -> u16 {
        match self {
            SubDeviceId::RootDevice => 0x0000,
            SubDeviceId::AllCall => 0xffff,
            SubDeviceId::Id(value) => value,
        }
    }

    /// The variant that a wire value stands for.
    pub open spec fn spec_from_u16(value: u16) -> Self {
        match value {
            0x0000 => SubDeviceId::RootDevice,
            0xffff => SubDeviceId::AllCall,
            _ => SubDeviceId::Id(value),
        }
    }

    /// Whether the value is one that decoding its wire value gives back.
    pub open spec fn spec_wire_valid(self) -> bool {
        match self {
            SubDeviceId::Id(value) => value != 0x0000 && value != 0xffff,
            _ => true,
        }
    }

    /// Decoding the wire value of a valid variant gives it back.
    pub proof fn lemma_encode_decode(self)
        requires
            self.spec_wire_valid(),
        ensures
            Self::spec_from_u16(self.spec_to_u16()) == self,
    {
    }

    /// Encoding the variant that a wire value stands for gives the value back.
    pub proof fn lemma_decode_encode(value: u16)
        ensures
            Self::spec_from_u16(value).spec_to_u16() == value,
            Self::spec_from_u16(value).spec_wire_valid(),
    {
    }
}

impl SubDeviceId {
    /// The wire value of the variant.
    pub fn to_u16(&self) -> (r: u16)
        ensures
            r == self.spec_to_u16(),
    {
        match self {
            SubDeviceId::RootDevice => 0x0000,
            SubDeviceId::AllCall => 0xffff,
            SubDeviceId::Id(value) => *value,
        }
    }

    /// The variant that a wire value stands for.
    pub fn from_u16(value: u16) -> (r: Self)
        ensures
            r == Self::spec_from_u16(value),
    {
        match value {
            0x0000 => SubDeviceId::RootDevice,
            0xffff => SubDeviceId::AllCall,
            _ => SubDeviceId::Id(value),
        }
    }
}

impl From<u16> for SubDeviceId {
    fn from(value: u16) -> (r: Self) {
        Self::from_u16(value)
    }
}

impl FromSpecImpl<u16> for SubDeviceId {
    open spec fn obeys_from_spec() -> bool {
        true
    }

    open spec fn from_spec(value: u16) -> Self {
        Self::spec_from_u16(value)
    }
}

impl From<SubDeviceId> for u16 {
    fn from(value: SubDeviceId) -> (r: u16) {
        value.to_u16()
    }
}

impl FromSpecImpl<SubDeviceId> for u16 {
    open spec fn obeys_from_spec() -> bool {
        true
    }

    open spec fn from_spec(value: SubDeviceId) -> u16 {
        value.spec_to_u16()
    }
}

impl<'a> FixedWire<'a> for SubDeviceId {
    open spec fn spec_size() -> nat {
        2
    }

    open spec fn spec_wire(&self) -> Seq<u8> {
        self.spec_to_u16().spec_wire()
    }

    open spec fn spec_read(bytes: Seq<u8>) -> Option<Self> {
        match u16::spec_read(bytes) {
            Some(value) => Some(Self::spec_from_u16(value)),
            None => None,
        }
    }

    open spec fn spec_wire_valid(&self) -> bool {
        SubDeviceId::spec_wire_valid(*self)
    }

    fn wire_size() -> (n: usize) {
        2
    }

    fn write_wire(&self, out: &mut Vec<u8>) {
        self.to_u16().write_wire(out);
    }

    fn read_wire(buf: &'a [u8], pos: usize) -> (r: Option<Self>) {
        let value = match u16::read_wire(buf, pos) {
            Some(value) => value,
            None => return None,
        };
        Some(Self::from_u16(value))
    }

    proof fn lemma_wire(&self) {
        self.spec_to_u16().lemma_wire();
        if self.spec_wire_valid() {
            self.lemma_encode_decode();
        }
    }
}

#[derive(Copy, Clone, Debug, PartialEq, Eq, Structural)]
pub enum CommandClass {
    DiscoveryCommand,
    DiscoveryCommandResponse,
    GetCommand,
    GetCommandResponse,
    SetCommand,
    SetCommandResponse,
}

impl CommandClass {
    /// The wire value of the variant.
    pub open spec fn spec_to_u8(self) -> u8 {
        match self {
            CommandClass::DiscoveryCommand => 0x10,
            CommandClass::DiscoveryCommandResponse => 0x11,
            CommandClass::GetCommand => 0x20,
            CommandClass::GetCommandResponse => 0x21,
            CommandClass::SetCommand => 0x30,
            CommandClass::SetCommandResponse => 0x31,
        }
    }

    /// The variant that a wire value stands for.
    pub open spec fn spec_try_from_u8(value: u8) -> Result<Self, RdmError> {
        match value {
            0x10 => Ok(CommandClass::DiscoveryCommand),
            0x11 => Ok(CommandClass::DiscoveryCommandResponse),
            0x20 => Ok(CommandClass::GetCommand),
            0x21 => Ok(CommandClass::GetCommandResponse),
            0x30 => Ok(CommandClass::SetCommand),
            0x31 => Ok(CommandClass::SetCommandResponse),
            _ => Err(RdmError::InvalidCommandClass(value)),
        }
    }

    /// Whether the value is one that decoding its wire value gives back.
    pub open spec fn spec_wire_valid(self) -> bool {
        match self {
            _ => true,
        }
    }

    /// Decoding the wire value of a valid variant gives it back.
    pub proof fn lemma_encode_decode(self)
        requires
            self.spec_wire_valid(),
        ensures
            Self::spec_try_from_u8(self.spec_to_u8()) == Ok::<Self, RdmError>(self),
    {
    }

    /// Encoding the variant that a wire value stands for gives the value back.
    pub proof fn lemma_decode_encode(value: u8)
        ensures
            Self::spec_try_from_u8(value) matches Ok(v) ==> v.spec_to_u8() == value && v.spec_wire_valid(),
    {
    }
}

impl CommandClass {
    /// The wire value of the variant.
    pub fn to_u8(&self) -> (r: u8)
        ensures
            r == self.spec_to_u8(),
    {
        match self {
            CommandClass::DiscoveryCommand => 0x10,
            CommandClass::DiscoveryCommandResponse => 0x11,
            CommandClass::GetCommand => 0x20,
            CommandClass::GetCommandResponse => 0x21,
            CommandClass::SetCommand => 0x30,
            CommandClass::SetCommandResponse => 0x31,
        }
    }

    /// The variant that a wire value stands for, or the error for a value that stands for none.
    pub fn try_from_u8(value: u8) -> (r: Result<Self, RdmError>)
        ensures
            r == Self::spec_try_from_u8(value),
    {
        match value {
            0x10 => Ok(CommandClass::DiscoveryCommand),
            0x11 => Ok(CommandClass::DiscoveryCommandResponse),
            0x20 => Ok(CommandClass::GetCommand),
            0x21 => Ok(CommandClass::GetCommandResponse),
            0x30 => Ok(CommandClass::SetCommand),
            0x31 => Ok(CommandClass::SetCommandResponse),
            _ => Err(RdmError::InvalidCommandClass(value)),
        }
    }
}

impl TryFrom<u8> for CommandClass {
    type Error = RdmError;

    fn try_from(value: u8) -> (r: Result<Self, RdmError>) {
        Self::try_from_u8(value)
    }
}

impl TryFromSpecImpl<u8> for CommandClass {
    open spec fn obeys_try_from_spec() -> bool {
        true
    }

    open spec fn try_from_spec(value: u8) -> Result<Self, RdmError> {
        Self::spec_try_from_u8(value)
    }
}

impl From<CommandClass> for u8 {
    fn from(value: CommandClass) -> (r: u8) {
        value.to_u8()
    }
}

impl FromSpecImpl<CommandClass> for u8 {
    open spec fn obeys_from_spec() -> bool {
        true
    }

    open spec fn from_spec(value: CommandClass) -> u8 {
        value.spec_to_u8()
    }
}

impl<'a> FixedWire<'a> for CommandClass {
    open spec fn spec_size() -> nat {
        1
    }

    open spec fn spec_wire(&self) -> Seq<u8> {
        self.spec_to_u8().spec_wire()
    }

    open spec fn spec_read(bytes: Seq<u8>) -> Option<Self> {
        match u8::spec_read(bytes) {
            Some(value) => match Self::spec_try_from_u8(value) {
                Ok(v) => Some(v),
                Err(_) => None,
            },
            None => None,
        }
    }

    open spec fn spec_wire_valid(&self) -> bool {
        CommandClass::spec_wire_valid(*self)
    }

    fn wire_size() -> (n: usize) {
        1
    }

    fn write_wire(&self, out: &mut Vec<u8>) {
        self.to_u8().write_wire(out);
    }

    fn read_wire(buf: &'a [u8], pos: usize) -> (r: Option<Self>) {
        let value = match u8::read_wire(buf, pos) {
            Some(value) => value,
            None => return None,
        };
        match Self::try_from_u8(value) {
            Ok(v) => Some(v),
            Err(_) => None,
        }
    }

    proof fn lemma_wire(&self) {
        self.spec_to_u8().lemma_wire();
        if self.spec_wire_valid() {
            self.lemma_encode_decode();
        }
    }
}

impl CommandClass {
    /// The kind of frame that carries the command class.
    pub open spec fn spec_frame_kind(self) -> RdmFrameKind {
        match self {
            CommandClass::DiscoveryCommand | CommandClass::GetCommand | CommandClass::SetCommand => RdmFrameKind::Request,
            _ => RdmFrameKind::Response,
        }
    }

    pub fn rdm_frame_kind(&self) -> (k: RdmFrameKind)
        ensures
            k == self.spec_frame_kind(),
    {
        match self {
            CommandClass::DiscoveryCommand | CommandClass::GetCommand | CommandClass::SetCommand => RdmFrameKind::Request,
            _ => RdmFrameKind::Response,
        }
    }
}

} // verus!
