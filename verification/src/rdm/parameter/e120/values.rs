//! The valid range and default value of a parameter, as its description gives them, read by the
//! data type that the description names.

use crate::rdm::error::RdmError;
use crate::rdm::parameter::e120::response::GetParameterDescriptionResponse;
use crate::rdm::parameter::e120::ParameterDataType;
use crate::rdm::utils::{
    decode_string_bytes, from_be16, from_be32, i16_of_bits, read_i16, read_u16, read_u32,
    truncated_at_null,
};
use vstd::prelude::*;

verus! {

/// A parameter description, with the values it carries read by their data type.
pub type ParameterDescription = GetParameterDescriptionResponse;

/// The signed 8 bit value of a two's complement bit pattern.
pub open spec fn i8_of_bits(b: u8) -> i8 {
    if b < 0x80 { b as i8 } else { (b as int - 0x100) as i8 }
}

/// The signed 32 bit value of a two's complement bit pattern.
pub open spec fn i32_of_bits(b: u32) -> i32 {
    if b < 0x8000_0000 { b as i32 } else { (b as int - 0x1_0000_0000) as i32 }
}

/// A value of a parameter description, read by the data type of the parameter.
#[derive(Clone, Debug, PartialEq)]
pub enum ConvertedParameterValue {
    BitField(u8),
    Ascii(String),
    UnsignedByte(u8),
    SignedByte(i8),
    UnsignedWord(u16),
    SignedWord(i16),
    UnsignedDWord(u32),
    SignedDWord(i32),
    Raw([u8; 4]),
}

/// What reading four value bytes by a data type gives: a byte type takes the last byte, a word
/// type the last two, a double word type all four, big endian; text is the bytes up to the first
/// zero byte and must be UTF-8; any other type keeps the bytes as they are.
pub open spec fn spec_converted(data_type: ParameterDataType, value: [u8; 4], r: Result<ConvertedParameterValue, RdmError>) -> bool {
    match data_type {
        ParameterDataType::BitField => r == Ok::<ConvertedParameterValue, RdmError>(ConvertedParameterValue::BitField(value[3])),
        ParameterDataType::Ascii => if vstd::utf8::valid_utf8(value@) {
            r matches Ok(ConvertedParameterValue::Ascii(s)) && vstd::utf8::encode_utf8(s@) == truncated_at_null(value@)
        } else {
            r == Err::<ConvertedParameterValue, RdmError>(RdmError::Utf8Error)
        },
        ParameterDataType::UnsignedByte => r == Ok::<ConvertedParameterValue, RdmError>(ConvertedParameterValue::UnsignedByte(value[3])),
        ParameterDataType::SignedByte => r == Ok::<ConvertedParameterValue, RdmError>(ConvertedParameterValue::SignedByte(i8_of_bits(value[3]))),
        ParameterDataType::UnsignedWord => r == Ok::<ConvertedParameterValue, RdmError>(
            ConvertedParameterValue::UnsignedWord(from_be16(value[2], value[3])),
        ),
        ParameterDataType::SignedWord => r == Ok::<ConvertedParameterValue, RdmError>(
            ConvertedParameterValue::SignedWord(i16_of_bits(from_be16(value[2], value[3]))),
        ),
        ParameterDataType::UnsignedDWord => r == Ok::<ConvertedParameterValue, RdmError>(
            ConvertedParameterValue::UnsignedDWord(from_be32(value[0], value[1], value[2], value[3])),
        ),
        ParameterDataType::SignedDWord => r == Ok::<ConvertedParameterValue, RdmError>(
            ConvertedParameterValue::SignedDWord(i32_of_bits(from_be32(value[0], value[1], value[2], value[3]))),
        ),
        ParameterDataType::NotDefined | ParameterDataType::ManufacturerSpecific(_) => r == Ok::<
            ConvertedParameterValue,
            RdmError,
        >(ConvertedParameterValue::Raw(value)),
    }
}

impl GetParameterDescriptionResponse {
    fn convert_parameter_value(parameter_data_type: ParameterDataType, value: [u8; 4]) -> (r: Result<
        ConvertedParameterValue,
        RdmError,
    >)
        ensures
            spec_converted(parameter_data_type, value, r),
    {
        let bytes = value.as_slice();
        match parameter_data_type {
            ParameterDataType::BitField => Ok(ConvertedParameterValue::BitField(value[3])),
            ParameterDataType::Ascii => match decode_string_bytes(bytes) {
                Ok(s) => Ok(ConvertedParameterValue::Ascii(s)),
                Err(e) => Err(e),
            },
            ParameterDataType::UnsignedByte => Ok(ConvertedParameterValue::UnsignedByte(value[3])),
            ParameterDataType::SignedByte => {
                let b = value[3];
                let v: i8 = if b < 0x80 { b as i8 } else { (b as i16 - 0x100) as i8 };
                Ok(ConvertedParameterValue::SignedByte(v))
            },
            ParameterDataType::UnsignedWord => Ok(ConvertedParameterValue::UnsignedWord(read_u16(bytes, 2))),
            ParameterDataType::SignedWord => Ok(ConvertedParameterValue::SignedWord(read_i16(bytes, 2))),
            ParameterDataType::UnsignedDWord => Ok(ConvertedParameterValue::UnsignedDWord(read_u32(bytes, 0))),
            ParameterDataType::SignedDWord => {
                let bits = read_u32(bytes, 0);
                let v: i32 = if bits < 0x8000_0000 { bits as i32 } else { (bits as i64 - 0x1_0000_0000) as i32 };
                Ok(ConvertedParameterValue::SignedDWord(v))
            },
            ParameterDataType::NotDefined | ParameterDataType::ManufacturerSpecific(_) => Ok(ConvertedParameterValue::Raw(value)),
        }
    }

    /// The smallest valid value of the parameter, read by its data type.
    pub fn minimum_valid_value(&self) -> (r: Result<ConvertedParameterValue, RdmError>)
        ensures
            spec_converted(self.data_type, self.raw_minimum_valid_value, r),
    {
        Self::convert_parameter_value(self.data_type, self.raw_minimum_valid_value)
    }

    /// The largest valid value of the parameter, read by its data type.
    pub fn maximum_valid_value(&self) -> (r: Result<ConvertedParameterValue, RdmError>)
        ensures
            spec_converted(self.data_type, self.raw_maximum_valid_value, r),
    {
        Self::convert_parameter_value(self.data_type, self.raw_maximum_valid_value)
    }

    /// The default value of the parameter, read by its data type.
    pub fn default_value(&self) -> (r: Result<ConvertedParameterValue, RdmError>)
        ensures
            spec_converted(self.data_type, self.raw_default_value, r),
    {
        Self::convert_parameter_value(self.data_type, self.raw_default_value)
    }
}


/// The readings of the same four value bytes agree: a double word is the four bytes big endian, a
/// word is its low 16 bits and a byte (or bit field) its low 8 bits, and each signed reading is
/// the unsigned one taken modulo the width of its type.
pub proof fn lemma_conversions_agree(
    value: [u8; 4],
    bit_field: u8,
    byte: u8,
    signed_byte: i8,
    word: u16,
    signed_word: i16,
    dword: u32,
    signed_dword: i32,
)
    requires
        spec_converted(ParameterDataType::BitField, value, Ok(ConvertedParameterValue::BitField(bit_field))),
        spec_converted(ParameterDataType::UnsignedByte, value, Ok(ConvertedParameterValue::UnsignedByte(byte))),
        spec_converted(ParameterDataType::SignedByte, value, Ok(ConvertedParameterValue::SignedByte(signed_byte))),
        spec_converted(ParameterDataType::UnsignedWord, value, Ok(ConvertedParameterValue::UnsignedWord(word))),
        spec_converted(ParameterDataType::SignedWord, value, Ok(ConvertedParameterValue::SignedWord(signed_word))),
        spec_converted(ParameterDataType::UnsignedDWord, value, Ok(ConvertedParameterValue::UnsignedDWord(dword))),
        spec_converted(ParameterDataType::SignedDWord, value, Ok(ConvertedParameterValue::SignedDWord(signed_dword))),
    ensures
        dword == value[0] as int * 0x100_0000 + value[1] as int * 0x1_0000 + value[2] as int * 0x100 + value[3] as int,
        word == dword % 0x1_0000,
        byte == dword % 0x100,
        bit_field == byte,
        (signed_byte - byte) % 0x100 == 0,
        (signed_word - word) % 0x1_0000 == 0,
        (signed_dword - dword) % 0x1_0000_0000 == 0,
{
    let d = value[0] as int * 0x100_0000 + value[1] as int * 0x1_0000 + value[2] as int * 0x100 + value[3] as int;
    assert(d % 0x1_0000 == value[2] as int * 0x100 + value[3] as int) by (nonlinear_arith)
        requires
            d == value[0] as int * 0x100_0000 + value[1] as int * 0x1_0000 + value[2] as int * 0x100 + value[3] as int,
            0 <= value[2] < 0x100,
            0 <= value[3] < 0x100,
            0 <= value[0],
            0 <= value[1],
    ;
    assert(d % 0x100 == value[3] as int) by (nonlinear_arith)
        requires
            d == value[0] as int * 0x100_0000 + value[1] as int * 0x1_0000 + value[2] as int * 0x100 + value[3] as int,
            0 <= value[3] < 0x100,
            0 <= value[0],
            0 <= value[1],
            0 <= value[2],
    ;
}

} // verus!
