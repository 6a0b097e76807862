//! The range setting of the sonar, as the switch command names it.
use crate::error::Field;
use crate::types::util::primitive::Primitive;
use vstd::prelude::*;
use vstd::string::StringExecFns;

verus! {

/// The range setting of the sonar, as the switch command names it.
#[derive(Debug, Clone, Copy, PartialEq, Eq, Structural, Hash, PartialOrd, Ord)]
pub enum RangeIndex {
    X0_125m,
    X0_25m,
    X0_50m,
    X0_75m,
    X1m,
    X2m,
    X3m,
    X4m,
    X5m,
    X6m,
}

impl Primitive for RangeIndex {
    open spec fn code(self) -> Option<u8> {
        Some(
            match self {
                RangeIndex::X0_125m => 2u8,
                RangeIndex::X0_25m => 4u8,
                RangeIndex::X0_50m => 6u8,
                RangeIndex::X0_75m => 8u8,
                RangeIndex::X1m => 10u8,
                RangeIndex::X2m => 20u8,
                RangeIndex::X3m => 30u8,
                RangeIndex::X4m => 40u8,
                RangeIndex::X5m => 50u8,
                RangeIndex::X6m => 60u8,
            },
        )
    }

    open spec fn from_code(raw: u8) -> Option<RangeIndex> {
        if raw == 2 {
            Some(RangeIndex::X0_125m)
        } else if raw == 4 {
            Some(RangeIndex::X0_25m)
        } else if raw == 6 {
            Some(RangeIndex::X0_50m)
        } else if raw == 8 {
            Some(RangeIndex::X0_75m)
        } else if raw == 10 {
            Some(RangeIndex::X1m)
        } else if raw == 20 {
            Some(RangeIndex::X2m)
        } else if raw == 30 {
            Some(RangeIndex::X3m)
        } else if raw == 40 {
            Some(RangeIndex::X4m)
        } else if raw == 50 {
            Some(RangeIndex::X5m)
        } else if raw == 60 {
            Some(RangeIndex::X6m)
        } else {
            None
        }
    }

    open spec fn field() -> Field {
        Field::RangeIndex
    }

    fn from_u8(raw: u8) -> (r: Option<RangeIndex>) {
        match raw {
            2 => Some(RangeIndex::X0_125m),
            4 => Some(RangeIndex::X0_25m),
            6 => Some(RangeIndex::X0_50m),
            8 => Some(RangeIndex::X0_75m),
            10 => Some(RangeIndex::X1m),
            20 => Some(RangeIndex::X2m),
            30 => Some(RangeIndex::X3m),
            40 => Some(RangeIndex::X4m),
            50 => Some(RangeIndex::X5m),
            60 => Some(RangeIndex::X6m),
            _ => None,
        }
    }

    fn to_u8(&self) -> (r: Option<u8>) {
        Some(
            match self {
                RangeIndex::X0_125m => 2,
                RangeIndex::X0_25m => 4,
                RangeIndex::X0_50m => 6,
                RangeIndex::X0_75m => 8,
                RangeIndex::X1m => 10,
                RangeIndex::X2m => 20,
                RangeIndex::X3m => 30,
                RangeIndex::X4m => 40,
                RangeIndex::X5m => 50,
                RangeIndex::X6m => 60,
            },
        )
    }

    fn subject() -> (f: Field) {
        Field::RangeIndex
    }

    proof fn code_is_read_back(self) {
    }

    proof fn read_is_coded_back(raw: u8) {
    }
}

impl RangeIndex {
    /// The words that describe the value.
    pub open spec fn text(self) -> Seq<char> {
        match self {
            RangeIndex::X0_125m => "0.125 meters"@,
            RangeIndex::X0_25m => "0.250 meters"@,
            RangeIndex::X0_50m => "0.500 meters"@,
            RangeIndex::X0_75m => "0.750 meters"@,
            RangeIndex::X1m => "1.000 meters"@,
            RangeIndex::X2m => "2.000 meters"@,
            RangeIndex::X3m => "3.000 meters"@,
            RangeIndex::X4m => "4.000 meters"@,
            RangeIndex::X5m => "5.000 meters"@,
            RangeIndex::X6m => "6.000 meters"@,
        }
    }

    /// The value in words.
    pub fn to_string(&self) -> (r: String)
        ensures
            r@ == self.text(),
    {
        match self {
            RangeIndex::X0_125m => String::from_str("0.125 meters"),
            RangeIndex::X0_25m => String::from_str("0.250 meters"),
            RangeIndex::X0_50m => String::from_str("0.500 meters"),
            RangeIndex::X0_75m => String::from_str("0.750 meters"),
            RangeIndex::X1m => String::from_str("1.000 meters"),
            RangeIndex::X2m => String::from_str("2.000 meters"),
            RangeIndex::X3m => String::from_str("3.000 meters"),
            RangeIndex::X4m => String::from_str("4.000 meters"),
            RangeIndex::X5m => String::from_str("5.000 meters"),
            RangeIndex::X6m => String::from_str("6.000 meters"),
        }
    }


    /// The range in tenths of a millimetre.
    pub open spec fn range_spec(self) -> int {
        match self {
            RangeIndex::X0_125m => 1250,
            RangeIndex::X0_25m => 2500,
            RangeIndex::X0_50m => 5000,
            RangeIndex::X0_75m => 7500,
            RangeIndex::X1m => 10000,
            RangeIndex::X2m => 20000,
            RangeIndex::X3m => 30000,
            RangeIndex::X4m => 40000,
            RangeIndex::X5m => 50000,
            RangeIndex::X6m => 60000,
        }
    }

    /// The filter delay in tenths of a millimetre: 16 mm up to the 0.75 m range, 20 mm at
    /// 1 m, 24 mm at 2 m and 30 mm from 3 m on.
    pub open spec fn filter_delay_spec(self) -> int {
        match self {
            RangeIndex::X0_125m | RangeIndex::X0_25m | RangeIndex::X0_50m
                | RangeIndex::X0_75m => 160,
            RangeIndex::X1m => 200,
            RangeIndex::X2m => 240,
            RangeIndex::X3m | RangeIndex::X4m | RangeIndex::X5m | RangeIndex::X6m => 300,
        }
    }

    /// The range that the setting stands for, in tenths of a millimetre (0.125 m is 1250).
    pub fn range(&self) -> (r: u32)
        ensures
            r == self.range_spec(),
    {
        match self {
            RangeIndex::X0_125m => 1250,
            RangeIndex::X0_25m => 2500,
            RangeIndex::X0_50m => 5000,
            RangeIndex::X0_75m => 7500,
            RangeIndex::X1m => 10000,
            RangeIndex::X2m => 20000,
            RangeIndex::X3m => 30000,
            RangeIndex::X4m => 40000,
            RangeIndex::X5m => 50000,
            RangeIndex::X6m => 60000,
        }
    }

    /// The distance, in tenths of a millimetre, that the receive filter adds to every profile
    /// range taken at this setting.
    pub fn filter_delay(&self) -> (r: u32)
        ensures
            r == self.filter_delay_spec(),
    {
        match self {
            RangeIndex::X0_125m | RangeIndex::X0_25m | RangeIndex::X0_50m
                | RangeIndex::X0_75m => 160,
            RangeIndex::X1m => 200,
            RangeIndex::X2m => 240,
            RangeIndex::X3m | RangeIndex::X4m | RangeIndex::X5m | RangeIndex::X6m => 300,
        }
    }
}

} // verus!
