//! The direction in which the head turns.
use crate::error::Field;
use crate::types::util::primitive::Primitive;
use vstd::prelude::*;
use vstd::string::StringExecFns;

verus! {

/// The direction in which the head turns.
#[derive(Debug, Clone, Copy, PartialEq, Eq, Structural, Hash)]
pub enum Direction {
    Counterclockwise,
    Clockwise,
}

impl Primitive for Direction {
    open spec fn code(self) -> Option<u8> {
        Some(
            match self {
                Direction::Counterclockwise => 0u8,
                Direction::Clockwise => 1u8,
            },
        )
    }

    open spec fn from_code(raw: u8) -> Option<Direction> {
        if raw == 0 {
            Some(Direction::Counterclockwise)
        } else if raw == 1 {
            Some(Direction::Clockwise)
        } else {
            None
        }
    }

    open spec fn field() -> Field {
        Field::Direction
    }

    fn from_u8(raw: u8) -> (r: Option<Direction>) {
        match raw {
            0 => Some(Direction::Counterclockwise),
            1 => Some(Direction::Clockwise),
            _ => None,
        }
    }

    fn to_u8(&self) -> (r: Option<u8>) {
        Some(
            match self {
                Direction::Counterclockwise => 0,
                Direction::Clockwise => 1,
            },
        )
    }

    fn subject() -> (f: Field) {
        Field::Direction
    }

    proof fn code_is_read_back(self) {
    }

    proof fn read_is_coded_back(raw: u8) {
    }
}

impl Direction {
    /// The words that describe the value.
    pub open spec fn text(self) -> Seq<char> {
        match self {
            Direction::Counterclockwise => "counterclockwise"@,
            Direction::Clockwise => "clockwise"@,
        }
    }

    /// The value in words.
    pub fn to_string(&self) -> (r: String)
        ensures
            r@ == self.text(),
    {
        match self {
            Direction::Counterclockwise => String::from_str("counterclockwise"),
            Direction::Clockwise => String::from_str("clockwise"),
        }
    }
}

impl Default for Direction {
    fn default() -> (r: Self)
        ensures
            r == Direction::Counterclockwise,
    {
        Direction::Counterclockwise
    }
}

} // verus!
