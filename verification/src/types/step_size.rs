//! The angle by which the head turns between pings.
use crate::error::Field;
use crate::types::util::primitive::Primitive;
use vstd::prelude::*;
use vstd::string::StringExecFns;

verus! {

/// The angle by which the head turns between pings.
#[derive(Debug, Clone, Copy, PartialEq, Eq, Structural, Hash)]
pub enum StepSize {
    Slow,
    Medium,
    Fast,
    Faster,
    Fastest,
}

impl Primitive for StepSize {
    open spec fn code(self) -> Option<u8> {
        Some(
            match self {
                StepSize::Slow => 0u8,
                StepSize::Medium => 1u8,
                StepSize::Fast => 2u8,
                StepSize::Faster => 3u8,
                StepSize::Fastest => 4u8,
            },
        )
    }

    open spec fn from_code(raw: u8) -> Option<StepSize> {
        if raw == 0 {
            Some(StepSize::Slow)
        } else if raw == 1 {
            Some(StepSize::Medium)
        } else if raw == 2 {
            Some(StepSize::Fast)
        } else if raw == 3 {
            Some(StepSize::Faster)
        } else if raw == 4 {
            Some(StepSize::Fastest)
        } else {
            None
        }
    }

    open spec fn field() -> Field {
        Field::StepSize
    }

    fn from_u8(raw: u8) -> (r: Option<StepSize>) {
        match raw {
            0 => Some(StepSize::Slow),
            1 => Some(StepSize::Medium),
            2 => Some(StepSize::Fast),
            3 => Some(StepSize::Faster),
            4 => Some(StepSize::Fastest),
            _ => None,
        }
    }

    fn to_u8(&self) -> (r: Option<u8>) {
        Some(
            match self {
                StepSize::Slow => 0,
                StepSize::Medium => 1,
                StepSize::Fast => 2,
                StepSize::Faster => 3,
                StepSize::Fastest => 4,
            },
        )
    }

    fn subject() -> (f: Field) {
        Field::StepSize
    }

    proof fn code_is_read_back(self) {
    }

    proof fn read_is_coded_back(raw: u8) {
    }
}

impl StepSize {
    /// The words that describe the value.
    pub open spec fn text(self) -> Seq<char> {
        match self {
            StepSize::Slow => "slow"@,
            StepSize::Medium => "medium"@,
            StepSize::Fast => "fast"@,
            StepSize::Faster => "faster"@,
            StepSize::Fastest => "fastest"@,
        }
    }

    /// The value in words.
    pub fn to_string(&self) -> (r: String)
        ensures
            r@ == self.text(),
    {
        match self {
            StepSize::Slow => String::from_str("slow"),
            StepSize::Medium => String::from_str("medium"),
            StepSize::Fast => String::from_str("fast"),
            StepSize::Faster => String::from_str("faster"),
            StepSize::Fastest => String::from_str("fastest"),
        }
    }

    /// The step in tenths of a degree.
    pub open spec fn tenths_of_degree(self) -> int {
        match self {
            StepSize::Slow => 3,
            StepSize::Medium => 6,
            StepSize::Fast => 9,
            StepSize::Faster => 12,
            StepSize::Fastest => 24,
        }
    }

    /// The step between pings, in tenths of a degree: 0.3, 0.6, 0.9, 1.2 or 2.4 degrees.
    pub fn degrees(&self) -> (r: u8)
        ensures
            r == self.tenths_of_degree(),
    {
        match self {
            StepSize::Slow => 3,
            StepSize::Medium => 6,
            StepSize::Fast => 9,
            StepSize::Faster => 12,
            StepSize::Fastest => 24,
        }
    }
}

} // verus!
