//! The size index of the sonar data field.
use crate::error::Field;
use crate::types::util::primitive::Primitive;
use vstd::prelude::*;
use vstd::string::StringExecFns;

verus! {

/// The size index of the sonar data field.
#[derive(Debug, Clone, Copy, PartialEq, Eq, Structural, Hash)]
pub enum DataSizeIndex {
    /// The data field holds 250 bytes.
    X250Bytes,
}

impl Primitive for DataSizeIndex {
    open spec fn code(self) -> Option<u8> {
        Some(
            match self {
                DataSizeIndex::X250Bytes => 2u8,
            },
        )
    }

    open spec fn from_code(raw: u8) -> Option<DataSizeIndex> {
        if raw == 2 {
            Some(DataSizeIndex::X250Bytes)
        } else {
            None
        }
    }

    open spec fn field() -> Field {
        Field::DataSizeIndex
    }

    fn from_u8(raw: u8) -> (r: Option<DataSizeIndex>) {
        match raw {
            2 => Some(DataSizeIndex::X250Bytes),
            _ => None,
        }
    }

    fn to_u8(&self) -> (r: Option<u8>) {
        Some(
            match self {
                DataSizeIndex::X250Bytes => 2,
            },
        )
    }

    fn subject() -> (f: Field) {
        Field::DataSizeIndex
    }

    proof fn code_is_read_back(self) {
    }

    proof fn read_is_coded_back(raw: u8) {
    }
}

impl DataSizeIndex {
    /// The words that describe the value.
    pub open spec fn text(self) -> Seq<char> {
        match self {
            DataSizeIndex::X250Bytes => "250 bytes"@,
        }
    }

    /// The value in words.
    pub fn to_string(&self) -> (r: String)
        ensures
            r@ == self.text(),
    {
        match self {
            DataSizeIndex::X250Bytes => String::from_str("250 bytes"),
        }
    }

    /// The number of bytes that the data field holds.
    pub fn bytes(&self) -> (r: usize)
        ensures
            r == 250,
    {
        match self {
            DataSizeIndex::X250Bytes => 250,
        }
    }
}

impl Default for DataSizeIndex {
    fn default() -> (r: Self)
        ensures
            r == DataSizeIndex::X250Bytes,
    {
        DataSizeIndex::X250Bytes
    }
}

} // verus!
