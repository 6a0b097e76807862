//! The kind of sonar head.
use crate::error::Field;
use crate::types::util::primitive::Primitive;
use vstd::prelude::*;
use vstd::string::StringExecFns;

verus! {

/// The kind of sonar head.
#[derive(Debug, Clone, Copy, PartialEq, Eq, Structural, Hash)]
pub enum SonarType {
    Scanning,
    FixedPosition,
}

impl Primitive for SonarType {
    open spec fn code(self) -> Option<u8> {
        Some(
            match self {
                SonarType::Scanning => 0u8,
                SonarType::FixedPosition => 1u8,
            },
        )
    }

    open spec fn from_code(raw: u8) -> Option<SonarType> {
        if raw == 0 {
            Some(SonarType::Scanning)
        } else if raw == 1 {
            Some(SonarType::FixedPosition)
        } else {
            None
        }
    }

    open spec fn field() -> Field {
        Field::SonarType
    }

    fn from_u8(raw: u8) -> (r: Option<SonarType>) {
        match raw {
            0 => Some(SonarType::Scanning),
            1 => Some(SonarType::FixedPosition),
            _ => None,
        }
    }

    fn to_u8(&self) -> (r: Option<u8>) {
        Some(
            match self {
                SonarType::Scanning => 0,
                SonarType::FixedPosition => 1,
            },
        )
    }

    fn subject() -> (f: Field) {
        Field::SonarType
    }

    proof fn code_is_read_back(self) {
    }

    proof fn read_is_coded_back(raw: u8) {
    }
}

impl SonarType {
    /// The words that describe the value.
    pub open spec fn text(self) -> Seq<char> {
        match self {
            SonarType::Scanning => "scanning"@,
            SonarType::FixedPosition => "fixed position"@,
        }
    }

    /// The value in words.
    pub fn to_string(&self) -> (r: String)
        ensures
            r@ == self.text(),
    {
        match self {
            SonarType::Scanning => String::from_str("scanning"),
            SonarType::FixedPosition => String::from_str("fixed position"),
        }
    }
}

} // verus!
