//! The number of points in the sonar data field.
use crate::error::Field;
use crate::types::util::primitive::Primitive;
use vstd::prelude::*;
use vstd::string::StringExecFns;

verus! {

/// The number of points in the sonar data field.
#[derive(Debug, Clone, Copy, PartialEq, Eq, Structural, Hash, PartialOrd, Ord)]
pub enum DataPoints {
    /// 250 data points are returned by the head, under the `IMX` header.
    X250Points,
}

impl Primitive for DataPoints {
    open spec fn code(self) -> Option<u8> {
        Some(
            match self {
                DataPoints::X250Points => 2u8,
            },
        )
    }

    open spec fn from_code(raw: u8) -> Option<DataPoints> {
        if raw == 2 {
            Some(DataPoints::X250Points)
        } else {
            None
        }
    }

    open spec fn field() -> Field {
        Field::DataPoints
    }

    fn from_u8(raw: u8) -> (r: Option<DataPoints>) {
        match raw {
            2 => Some(DataPoints::X250Points),
            _ => None,
        }
    }

    fn to_u8(&self) -> (r: Option<u8>) {
        Some(
            match self {
                DataPoints::X250Points => 2,
            },
        )
    }

    fn subject() -> (f: Field) {
        Field::DataPoints
    }

    proof fn code_is_read_back(self) {
    }

    proof fn read_is_coded_back(raw: u8) {
    }
}

impl DataPoints {
    /// The words that describe the value.
    pub open spec fn text(self) -> Seq<char> {
        match self {
            DataPoints::X250Points => "250 points"@,
        }
    }

    /// The value in words.
    pub fn to_string(&self) -> (r: String)
        ensures
            r@ == self.text(),
    {
        match self {
            DataPoints::X250Points => String::from_str("250 points"),
        }
    }

    /// The number of points that the data field holds.
    pub fn points(&self) -> (r: usize)
        ensures
            r == 250,
    {
        match self {
            DataPoints::X250Points => 250,
        }
    }
}

impl Default for DataPoints {
    fn default() -> (r: Self)
        ensures
            r == DataPoints::X250Points,
    {
        DataPoints::X250Points
    }
}

} // verus!
