//! Where the zero of the head position lies.
use crate::error::Field;
use crate::types::util::primitive::Primitive;
use vstd::prelude::*;
use vstd::string::StringExecFns;

verus! {

/// Where the zero of the head position lies.
#[derive(Debug, Clone, Copy, PartialEq, Eq, Structural, Hash)]
pub enum Zero {
    Up,
    Down,
}

impl Primitive for Zero {
    open spec fn code(self) -> Option<u8> {
        Some(
            match self {
                Zero::Up => 0u8,
                Zero::Down => 1u8,
            },
        )
    }

    open spec fn from_code(raw: u8) -> Option<Zero> {
        if raw == 0 {
            Some(Zero::Up)
        } else if raw == 1 {
            Some(Zero::Down)
        } else {
            None
        }
    }

    open spec fn field() -> Field {
        Field::Zero
    }

    fn from_u8(raw: u8) -> (r: Option<Zero>) {
        match raw {
            0 => Some(Zero::Up),
            1 => Some(Zero::Down),
            _ => None,
        }
    }

    fn to_u8(&self) -> (r: Option<u8>) {
        Some(
            match self {
                Zero::Up => 0,
                Zero::Down => 1,
            },
        )
    }

    fn subject() -> (f: Field) {
        Field::Zero
    }

    proof fn code_is_read_back(self) {
    }

    proof fn read_is_coded_back(raw: u8) {
    }
}

impl Zero {
    /// The words that describe the value.
    pub open spec fn text(self) -> Seq<char> {
        match self {
            Zero::Up => "up"@,
            Zero::Down => "down"@,
        }
    }

    /// The value in words.
    pub fn to_string(&self) -> (r: String)
        ensures
            r@ == self.text(),
    {
        match self {
            Zero::Up => String::from_str("up"),
            Zero::Down => String::from_str("down"),
        }
    }
}

} // verus!
