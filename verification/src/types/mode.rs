//! The scanning mode of the head.
use crate::error::Field;
use crate::types::util::primitive::Primitive;
use vstd::prelude::*;
use vstd::string::StringExecFns;

verus! {

/// The scanning mode of the head.
#[derive(Debug, Clone, Copy, PartialEq, Eq, Structural, Hash)]
pub enum Mode {
    Sector,
    Polar,
    Sidescan,
}

impl Primitive for Mode {
    open spec fn code(self) -> Option<u8> {
        Some(
            match self {
                Mode::Sector => 0u8,
                Mode::Polar => 1u8,
                Mode::Sidescan => 2u8,
            },
        )
    }

    open spec fn from_code(raw: u8) -> Option<Mode> {
        if raw == 0 {
            Some(Mode::Sector)
        } else if raw == 1 {
            Some(Mode::Polar)
        } else if raw == 2 {
            Some(Mode::Sidescan)
        } else {
            None
        }
    }

    open spec fn field() -> Field {
        Field::Mode
    }

    fn from_u8(raw: u8) -> (r: Option<Mode>) {
        match raw {
            0 => Some(Mode::Sector),
            1 => Some(Mode::Polar),
            2 => Some(Mode::Sidescan),
            _ => None,
        }
    }

    fn to_u8(&self) -> (r: Option<u8>) {
        Some(
            match self {
                Mode::Sector => 0,
                Mode::Polar => 1,
                Mode::Sidescan => 2,
            },
        )
    }

    fn subject() -> (f: Field) {
        Field::Mode
    }

    proof fn code_is_read_back(self) {
    }

    proof fn read_is_coded_back(raw: u8) {
    }
}

impl Mode {
    /// The words that describe the value.
    pub open spec fn text(self) -> Seq<char> {
        match self {
            Mode::Sector => "sector"@,
            Mode::Polar => "polar"@,
            Mode::Sidescan => "sidescan"@,
        }
    }

    /// The value in words.
    pub fn to_string(&self) -> (r: String)
        ensures
            r@ == self.text(),
    {
        match self {
            Mode::Sector => String::from_str("sector"),
            Mode::Polar => String::from_str("polar"),
            Mode::Sidescan => String::from_str("sidescan"),
        }
    }
}

} // verus!
