//! The side to which the transducer points.
use crate::error::Field;
use crate::types::util::primitive::Primitive;
use vstd::prelude::*;
use vstd::string::StringExecFns;

verus! {

/// The side to which the transducer points.
#[derive(Debug, Clone, Copy, PartialEq, Eq, Structural, Hash)]
pub enum Transducer {
    Down,
    Up,
}

impl Primitive for Transducer {
    open spec fn code(self) -> Option<u8> {
        Some(
            match self {
                Transducer::Down => 0u8,
                Transducer::Up => 1u8,
            },
        )
    }

    open spec fn from_code(raw: u8) -> Option<Transducer> {
        if raw == 0 {
            Some(Transducer::Down)
        } else if raw == 1 {
            Some(Transducer::Up)
        } else {
            None
        }
    }

    open spec fn field() -> Field {
        Field::Transducer
    }

    fn from_u8(raw: u8) -> (r: Option<Transducer>) {
        match raw {
            0 => Some(Transducer::Down),
            1 => Some(Transducer::Up),
            _ => None,
        }
    }

    fn to_u8(&self) -> (r: Option<u8>) {
        Some(
            match self {
                Transducer::Down => 0,
                Transducer::Up => 1,
            },
        )
    }

    fn subject() -> (f: Field) {
        Field::Transducer
    }

    proof fn code_is_read_back(self) {
    }

    proof fn read_is_coded_back(raw: u8) {
    }
}

impl Transducer {
    /// The words that describe the value.
    pub open spec fn text(self) -> Seq<char> {
        match self {
            Transducer::Down => "down"@,
            Transducer::Up => "up"@,
        }
    }

    /// The value in words.
    pub fn to_string(&self) -> (r: String)
        ensures
            r@ == self.text(),
    {
        match self {
            Transducer::Down => String::from_str("down"),
            Transducer::Up => String::from_str("up"),
        }
    }
}

} // verus!
