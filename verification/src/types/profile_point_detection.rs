//! Which part of the echo pulse marks the profile point.
use crate::error::Field;
use crate::types::util::primitive::Primitive;
use vstd::prelude::*;
use vstd::string::StringExecFns;

verus! {

/// Which part of the echo pulse marks the profile point.
#[derive(Debug, Clone, Copy, PartialEq, Eq, Structural, Hash)]
pub enum ProfilePointDetection {
    CenterOfPulse,
    StartOfPulse,
}

impl Primitive for ProfilePointDetection {
    open spec fn code(self) -> Option<u8> {
        Some(
            match self {
                ProfilePointDetection::CenterOfPulse => 0u8,
                ProfilePointDetection::StartOfPulse => 1u8,
            },
        )
    }

    open spec fn from_code(raw: u8) -> Option<ProfilePointDetection> {
        if raw == 0 {
            Some(ProfilePointDetection::CenterOfPulse)
        } else if raw == 1 {
            Some(ProfilePointDetection::StartOfPulse)
        } else {
            None
        }
    }

    open spec fn field() -> Field {
        Field::ProfilePointDetection
    }

    fn from_u8(raw: u8) -> (r: Option<ProfilePointDetection>) {
        match raw {
            0 => Some(ProfilePointDetection::CenterOfPulse),
            1 => Some(ProfilePointDetection::StartOfPulse),
            _ => None,
        }
    }

    fn to_u8(&self) -> (r: Option<u8>) {
        Some(
            match self {
                ProfilePointDetection::CenterOfPulse => 0,
                ProfilePointDetection::StartOfPulse => 1,
            },
        )
    }

    fn subject() -> (f: Field) {
        Field::ProfilePointDetection
    }

    proof fn code_is_read_back(self) {
    }

    proof fn read_is_coded_back(raw: u8) {
    }
}

impl ProfilePointDetection {
    /// The words that describe the value.
    pub open spec fn text(self) -> Seq<char> {
        match self {
            ProfilePointDetection::CenterOfPulse => "center of pulse"@,
            ProfilePointDetection::StartOfPulse => "start of pulse"@,
        }
    }

    /// The value in words.
    pub fn to_string(&self) -> (r: String)
        ensures
            r@ == self.text(),
    {
        match self {
            ProfilePointDetection::CenterOfPulse => String::from_str("center of pulse"),
            ProfilePointDetection::StartOfPulse => String::from_str("start of pulse"),
        }
    }
}

} // verus!
