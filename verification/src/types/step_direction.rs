//! The direction of the next step of the head.
use crate::error::Field;
use crate::types::util::primitive::Primitive;
use vstd::prelude::*;
use vstd::string::StringExecFns;

verus! {

/// The direction of the next step of the head.
#[derive(Debug, Clone, Copy, PartialEq, Eq, Structural, Hash)]
pub enum StepDirection {
    Normal,
    Reverse,
}

impl Primitive for StepDirection {
    open spec fn code(self) -> Option<u8> {
        Some(
            match self {
                StepDirection::Normal => 0u8,
                StepDirection::Reverse => 1u8,
            },
        )
    }

    open spec fn from_code(raw: u8) -> Option<StepDirection> {
        if raw == 0 {
            Some(StepDirection::Normal)
        } else if raw == 1 {
            Some(StepDirection::Reverse)
        } else {
            None
        }
    }

    open spec fn field() -> Field {
        Field::StepDirection
    }

    fn from_u8(raw: u8) -> (r: Option<StepDirection>) {
        match raw {
            0 => Some(StepDirection::Normal),
            1 => Some(StepDirection::Reverse),
            _ => None,
        }
    }

    fn to_u8(&self) -> (r: Option<u8>) {
        Some(
            match self {
                StepDirection::Normal => 0,
                StepDirection::Reverse => 1,
            },
        )
    }

    fn subject() -> (f: Field) {
        Field::StepDirection
    }

    proof fn code_is_read_back(self) {
    }

    proof fn read_is_coded_back(raw: u8) {
    }
}

impl StepDirection {
    /// The words that describe the value.
    pub open spec fn text(self) -> Seq<char> {
        match self {
            StepDirection::Normal => "normal"@,
            StepDirection::Reverse => "reverse step direction"@,
        }
    }

    /// The value in words.
    pub fn to_string(&self) -> (r: String)
        ensures
            r@ == self.text(),
    {
        match self {
            StepDirection::Normal => String::from_str("normal"),
            StepDirection::Reverse => String::from_str("reverse step direction"),
        }
    }
}

impl Default for StepDirection {
    fn default() -> (r: Self)
        ensures
            r == StepDirection::Normal,
    {
        StepDirection::Normal
    }
}

} // verus!
