use crate::decode_advertising_packet::{MODE_COLOR_ID_OFFSET, PRODUCT_TYPE_OFFSET};
use vstd::prelude::*;

verus! {

/// Why a buffer was not decoded, or a value not accepted for a sized integer.
#[derive(Debug, Clone, Copy, PartialEq, Eq, Structural)]
pub enum DecodeError {
    /// Byte 0 stands for no product type. Holds that byte.
    InvalidProductType(u8),
    /// Bits 2 to 4 of byte 18 stand for no colour. Holds those three bits as
    /// a number.
    InvalidColor(u8),
    /// The buffer ends before the last byte that is read.
    BufferTooShort {
        /// Number of bytes a packet has at least.
        required: usize,
        /// Number of bytes the buffer has.
        actual: usize,
    },
    /// A value is above the bound of the sized integer it was meant for.
    OutOfRange {
        /// The value that was refused.
        value: u8,
        /// The largest value the sized integer takes.
        max: u8,
    },
}

impl DecodeError {
    /// Name of the field that a packet was refused for, where it was refused
    /// for a field.
    pub open spec fn field_name(self) -> Option<Seq<char>> {
        match self {
            DecodeError::InvalidProductType(_) => Some("product_type"@),
            DecodeError::InvalidColor(_) => Some("color"@),
            _ => None,
        }
    }

    /// Offset of the byte that holds the field that a packet was refused for,
    /// where it was refused for a field.
    pub open spec fn field_offset(self) -> Option<usize> {
        match self {
            DecodeError::InvalidProductType(_) => Some(PRODUCT_TYPE_OFFSET),
            DecodeError::InvalidColor(_) => Some(MODE_COLOR_ID_OFFSET),
            _ => None,
        }
    }

    /// Name of the field that a packet was refused for. A buffer that is too
    /// short and a value out of range are about no field.
    pub fn field(&self) -> (name: Option<&'static str>)
        ensures
            name matches Some(text) ==> self.field_name() == Some(text@),
            name is None ==> self.field_name() is None,
    {
        match self {
            DecodeError::InvalidProductType(_) => Some("product_type"),
            DecodeError::InvalidColor(_) => Some("color"),
            _ => None,
        }
    }

    /// Offset of the byte that holds the field that a packet was refused for.
    /// A buffer that is too short and a value out of range are about no
    /// field.
    pub fn offset(&self) -> (offset: Option<usize>)
        ensures
            offset == self.field_offset(),
    {
        match self {
            DecodeError::InvalidProductType(_) => Some(PRODUCT_TYPE_OFFSET),
            DecodeError::InvalidColor(_) => Some(MODE_COLOR_ID_OFFSET),
            _ => None,
        }
    }
}

} // verus!
