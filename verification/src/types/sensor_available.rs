//! Whether an external pitch, roll and distance sensor is present.
use crate::error::Field;
use crate::types::util::primitive::Primitive;
use vstd::prelude::*;
use vstd::std_specs::convert::FromSpecImpl;
use vstd::string::StringExecFns;

verus! {

/// Whether an external pitch, roll and distance sensor is present.
#[derive(Debug, Clone, Copy, PartialEq, Eq, Structural, Hash)]
pub enum SensorAvailable {
    NotAvailable,
    Available,
}

impl Primitive for SensorAvailable {
    open spec fn code(self) -> Option<u8> {
        Some(
            match self {
                SensorAvailable::NotAvailable => 0u8,
                SensorAvailable::Available => 1u8,
            },
        )
    }

    open spec fn from_code(raw: u8) -> Option<SensorAvailable> {
        if raw == 0 {
            Some(SensorAvailable::NotAvailable)
        } else if raw == 1 {
            Some(SensorAvailable::Available)
        } else {
            None
        }
    }

    open spec fn field() -> Field {
        Field::SensorAvailable
    }

    fn from_u8(raw: u8) -> (r: Option<SensorAvailable>) {
        match raw {
            0 => Some(SensorAvailable::NotAvailable),
            1 => Some(SensorAvailable::Available),
            _ => None,
        }
    }

    fn to_u8(&self) -> (r: Option<u8>) {
        Some(
            match self {
                SensorAvailable::NotAvailable => 0,
                SensorAvailable::Available => 1,
            },
        )
    }

    fn subject() -> (f: Field) {
        Field::SensorAvailable
    }

    proof fn code_is_read_back(self) {
    }

    proof fn read_is_coded_back(raw: u8) {
    }
}

impl SensorAvailable {
    /// The words that describe the value.
    pub open spec fn text(self) -> Seq<char> {
        match self {
            SensorAvailable::NotAvailable => "no external pitch / roll / distance sensor present"@,
            SensorAvailable::Available => "external pitch / roll / distance sensor present"@,
        }
    }

    /// The value in words.
    pub fn to_string(&self) -> (r: String)
        ensures
            r@ == self.text(),
    {
        match self {
            SensorAvailable::NotAvailable => String::from_str(
                "no external pitch / roll / distance sensor present"
            ),
            SensorAvailable::Available => String::from_str(
                "external pitch / roll / distance sensor present"
            ),
        }
    }
}

impl Default for SensorAvailable {
    fn default() -> (r: Self)
        ensures
            r == SensorAvailable::NotAvailable,
    {
        SensorAvailable::NotAvailable
    }
}

impl From<bool> for SensorAvailable {
    fn from(value: bool) -> (r: Self) {
        match value {
            false => SensorAvailable::NotAvailable,
            true => SensorAvailable::Available,
        }
    }
}

impl FromSpecImpl<bool> for SensorAvailable {
    open spec fn obeys_from_spec() -> bool {
        true
    }

    open spec fn from_spec(value: bool) -> SensorAvailable {
        if value {
            SensorAvailable::Available
        } else {
            SensorAvailable::NotAvailable
        }
    }
}

impl From<SensorAvailable> for bool {
    fn from(value: SensorAvailable) -> (r: bool) {
        match value {
            SensorAvailable::NotAvailable => false,
            SensorAvailable::Available => true,
        }
    }
}

impl FromSpecImpl<SensorAvailable> for bool {
    open spec fn obeys_from_spec() -> bool {
        true
    }

    open spec fn from_spec(value: SensorAvailable) -> bool {
        value == SensorAvailable::Available
    }
}

} // verus!
