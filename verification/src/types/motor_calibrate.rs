//! Whether the head is asked to calibrate its transducer motor.
use crate::error::Field;
use crate::types::util::primitive::Primitive;
use vstd::prelude::*;
use vstd::std_specs::convert::FromSpecImpl;
use vstd::string::StringExecFns;

verus! {

/// Whether the head is asked to calibrate its transducer motor.
#[derive(Debug, Clone, Copy, PartialEq, Eq, Structural, Hash)]
pub enum MotorCalibrate {
    NoCalibrate,
    Calibrate,
}

impl Primitive for MotorCalibrate {
    open spec fn code(self) -> Option<u8> {
        Some(
            match self {
                MotorCalibrate::NoCalibrate => 0u8,
                MotorCalibrate::Calibrate => 1u8,
            },
        )
    }

    open spec fn from_code(raw: u8) -> Option<MotorCalibrate> {
        if raw == 0 {
            Some(MotorCalibrate::NoCalibrate)
        } else if raw == 1 {
            Some(MotorCalibrate::Calibrate)
        } else {
            None
        }
    }

    open spec fn field() -> Field {
        Field::MotorCalibrate
    }

    fn from_u8(raw: u8) -> (r: Option<MotorCalibrate>) {
        match raw {
            0 => Some(MotorCalibrate::NoCalibrate),
            1 => Some(MotorCalibrate::Calibrate),
            _ => None,
        }
    }

    fn to_u8(&self) -> (r: Option<u8>) {
        Some(
            match self {
                MotorCalibrate::NoCalibrate => 0,
                MotorCalibrate::Calibrate => 1,
            },
        )
    }

    fn subject() -> (f: Field) {
        Field::MotorCalibrate
    }

    proof fn code_is_read_back(self) {
    }

    proof fn read_is_coded_back(raw: u8) {
    }
}

impl MotorCalibrate {
    /// The words that describe the value.
    pub open spec fn text(self) -> Seq<char> {
        match self {
            MotorCalibrate::NoCalibrate => "normal operation"@,
            MotorCalibrate::Calibrate => "calibrate sonar head transducer"@,
        }
    }

    /// The value in words.
    pub fn to_string(&self) -> (r: String)
        ensures
            r@ == self.text(),
    {
        match self {
            MotorCalibrate::NoCalibrate => String::from_str("normal operation"),
            MotorCalibrate::Calibrate => String::from_str("calibrate sonar head transducer"),
        }
    }
}

impl Default for MotorCalibrate {
    fn default() -> (r: Self)
        ensures
            r == MotorCalibrate::NoCalibrate,
    {
        MotorCalibrate::NoCalibrate
    }
}

impl From<bool> for MotorCalibrate {
    fn from(value: bool) -> (r: Self) {
        match value {
            false => MotorCalibrate::NoCalibrate,
            true => MotorCalibrate::Calibrate,
        }
    }
}

impl FromSpecImpl<bool> for MotorCalibrate {
    open spec fn obeys_from_spec() -> bool {
        true
    }

    open spec fn from_spec(value: bool) -> MotorCalibrate {
        if value {
            MotorCalibrate::Calibrate
        } else {
            MotorCalibrate::NoCalibrate
        }
    }
}

impl From<MotorCalibrate> for bool {
    fn from(value: MotorCalibrate) -> (r: bool) {
        match value {
            MotorCalibrate::NoCalibrate => false,
            MotorCalibrate::Calibrate => true,
        }
    }
}

impl FromSpecImpl<MotorCalibrate> for bool {
    open spec fn obeys_from_spec() -> bool {
        true
    }

    open spec fn from_spec(value: MotorCalibrate) -> bool {
        value == MotorCalibrate::Calibrate
    }
}

} // verus!
