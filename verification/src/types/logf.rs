//! The logarithmic gain setting of the receiver.
use crate::error::Field;
use crate::types::util::primitive::Primitive;
use vstd::prelude::*;
use vstd::string::StringExecFns;

verus! {

/// The logarithmic gain setting of the receiver.
#[derive(Debug, Clone, Copy, PartialEq, Eq, Structural, Hash, PartialOrd, Ord)]
pub enum Logf {
    X10dB,
    X20dB,
    X30dB,
    X40dB,
}

impl Primitive for Logf {
    open spec fn code(self) -> Option<u8> {
        Some(
            match self {
                Logf::X10dB => 0u8,
                Logf::X20dB => 1u8,
                Logf::X30dB => 2u8,
                Logf::X40dB => 3u8,
            },
        )
    }

    open spec fn from_code(raw: u8) -> Option<Logf> {
        if raw == 0 {
            Some(Logf::X10dB)
        } else if raw == 1 {
            Some(Logf::X20dB)
        } else if raw == 2 {
            Some(Logf::X30dB)
        } else if raw == 3 {
            Some(Logf::X40dB)
        } else {
            None
        }
    }

    open spec fn field() -> Field {
        Field::Logf
    }

    fn from_u8(raw: u8) -> (r: Option<Logf>) {
        match raw {
            0 => Some(Logf::X10dB),
            1 => Some(Logf::X20dB),
            2 => Some(Logf::X30dB),
            3 => Some(Logf::X40dB),
            _ => None,
        }
    }

    fn to_u8(&self) -> (r: Option<u8>) {
        Some(
            match self {
                Logf::X10dB => 0,
                Logf::X20dB => 1,
                Logf::X30dB => 2,
                Logf::X40dB => 3,
            },
        )
    }

    fn subject() -> (f: Field) {
        Field::Logf
    }

    proof fn code_is_read_back(self) {
    }

    proof fn read_is_coded_back(raw: u8) {
    }
}

impl Logf {
    /// The words that describe the value.
    pub open spec fn text(self) -> Seq<char> {
        match self {
            Logf::X10dB => "10 dB"@,
            Logf::X20dB => "20 dB"@,
            Logf::X30dB => "30 dB"@,
            Logf::X40dB => "40 dB"@,
        }
    }

    /// The value in words.
    pub fn to_string(&self) -> (r: String)
        ensures
            r@ == self.text(),
    {
        match self {
            Logf::X10dB => String::from_str("10 dB"),
            Logf::X20dB => String::from_str("20 dB"),
            Logf::X30dB => String::from_str("30 dB"),
            Logf::X40dB => String::from_str("40 dB"),
        }
    }

    /// The gain in decibels.
    pub fn decibels(&self) -> (r: usize)
        ensures
            r == match self {
                Logf::X10dB => 10usize,
                Logf::X20dB => 20usize,
                Logf::X30dB => 30usize,
                Logf::X40dB => 40usize,
            },
    {
        match self {
            Logf::X10dB => 10,
            Logf::X20dB => 20,
            Logf::X30dB => 30,
            Logf::X40dB => 40,
        }
    }
}

} // verus!
