//! The number of bits of one echo sample.
use crate::error::Field;
use crate::types::util::primitive::Primitive;
use vstd::prelude::*;
use vstd::string::StringExecFns;

verus! {

/// The number of bits of one echo sample.
#[derive(Debug, Clone, Copy, PartialEq, Eq, Structural, Hash, PartialOrd, Ord)]
pub enum DataBits {
    /// Four bits a sample.
    X4Bits,
    /// Eight bits a sample.
    X8Bits,
    /// Fourteen bits a sample.
    X14Bits,
}

impl Primitive for DataBits {
    open spec fn code(self) -> Option<u8> {
        Some(
            match self {
                DataBits::X4Bits => 0u8,
                DataBits::X8Bits => 1u8,
                DataBits::X14Bits => 2u8,
            },
        )
    }

    open spec fn from_code(raw: u8) -> Option<DataBits> {
        if raw == 0 {
            Some(DataBits::X4Bits)
        } else if raw == 1 {
            Some(DataBits::X8Bits)
        } else if raw == 2 {
            Some(DataBits::X14Bits)
        } else {
            None
        }
    }

    open spec fn field() -> Field {
        Field::DataBits
    }

    fn from_u8(raw: u8) -> (r: Option<DataBits>) {
        match raw {
            0 => Some(DataBits::X4Bits),
            1 => Some(DataBits::X8Bits),
            2 => Some(DataBits::X14Bits),
            _ => None,
        }
    }

    fn to_u8(&self) -> (r: Option<u8>) {
        Some(
            match self {
                DataBits::X4Bits => 0,
                DataBits::X8Bits => 1,
                DataBits::X14Bits => 2,
            },
        )
    }

    fn subject() -> (f: Field) {
        Field::DataBits
    }

    proof fn code_is_read_back(self) {
    }

    proof fn read_is_coded_back(raw: u8) {
    }
}

impl DataBits {
    /// The words that describe the value.
    pub open spec fn text(self) -> Seq<char> {
        match self {
            DataBits::X4Bits => "4 bits"@,
            DataBits::X8Bits => "8 bits"@,
            DataBits::X14Bits => "14 bits"@,
        }
    }

    /// The value in words.
    pub fn to_string(&self) -> (r: String)
        ensures
            r@ == self.text(),
    {
        match self {
            DataBits::X4Bits => String::from_str("4 bits"),
            DataBits::X8Bits => String::from_str("8 bits"),
            DataBits::X14Bits => String::from_str("14 bits"),
        }
    }

    /// The number of bits of one sample.
    pub fn bits(self) -> (r: u8)
        ensures
            r == match self {
                DataBits::X4Bits => 4u8,
                DataBits::X8Bits => 8u8,
                DataBits::X14Bits => 14u8,
            },
    {
        match self {
            DataBits::X4Bits => 4,
            DataBits::X8Bits => 8,
            DataBits::X14Bits => 14,
        }
    }
}

} // verus!
