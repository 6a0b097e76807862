//! The reversed-step flag of a switch command, as the byte it occupies.
use crate::error::Field;
use crate::types::util::primitive::Primitive;
use vstd::prelude::*;
use vstd::string::StringExecFns;

verus! {

/// The reversed-step flag of a switch command, as the byte it occupies.
#[derive(Debug, Clone, Copy, PartialEq, Eq, Structural, Hash)]
pub enum Reverse {
    Normal,
    Reverse,
}

impl Primitive for Reverse {
    open spec fn code(self) -> Option<u8> {
        Some(
            match self {
                Reverse::Normal => 0u8,
                Reverse::Reverse => 64u8,
            },
        )
    }

    open spec fn from_code(raw: u8) -> Option<Reverse> {
        if raw == 0 {
            Some(Reverse::Normal)
        } else if raw == 64 {
            Some(Reverse::Reverse)
        } else {
            None
        }
    }

    open spec fn field() -> Field {
        Field::Reverse
    }

    fn from_u8(raw: u8) -> (r: Option<Reverse>) {
        match raw {
            0 => Some(Reverse::Normal),
            64 => Some(Reverse::Reverse),
            _ => None,
        }
    }

    fn to_u8(&self) -> (r: Option<u8>) {
        Some(
            match self {
                Reverse::Normal => 0,
                Reverse::Reverse => 64,
            },
        )
    }

    fn subject() -> (f: Field) {
        Field::Reverse
    }

    proof fn code_is_read_back(self) {
    }

    proof fn read_is_coded_back(raw: u8) {
    }
}

impl Reverse {
    /// The words that describe the value.
    pub open spec fn text(self) -> Seq<char> {
        match self {
            Reverse::Normal => "normal"@,
            Reverse::Reverse => "reverse step direction"@,
        }
    }

    /// The value in words.
    pub fn to_string(&self) -> (r: String)
        ensures
            r@ == self.text(),
    {
        match self {
            Reverse::Normal => String::from_str("normal"),
            Reverse::Reverse => String::from_str("reverse step direction"),
        }
    }
}

impl Default for Reverse {
    fn default() -> (r: Self)
        ensures
            r == Reverse::Normal,
    {
        Reverse::Normal
    }
}

} // verus!
