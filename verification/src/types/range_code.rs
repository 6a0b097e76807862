//! The range setting of the sonar: the greatest distance it listens for.
use crate::error::Field;
use crate::types::util::primitive::Primitive;
use vstd::prelude::*;
use crate::types::range_table::RangeTable;
use vstd::string::StringExecFns;

verus! {

/// The range setting of the sonar: the greatest distance it listens for.
#[derive(Debug, Clone, Copy, PartialEq, Eq, Structural, Hash, PartialOrd, Ord)]
pub enum RangeCode {
    X0_125m,
    X0_25m,
    X0_50m,
    X0_75m,
    X1m,
    X2m,
    X3m,
    X4m,
    X5m,
    X6m,
}

impl Primitive for RangeCode {
    open spec fn code(self) -> Option<u8> {
        Some(
            match self {
                RangeCode::X0_125m => 2u8,
                RangeCode::X0_25m => 4u8,
                RangeCode::X0_50m => 6u8,
                RangeCode::X0_75m => 8u8,
                RangeCode::X1m => 10u8,
                RangeCode::X2m => 20u8,
                RangeCode::X3m => 30u8,
                RangeCode::X4m => 40u8,
                RangeCode::X5m => 50u8,
                RangeCode::X6m => 60u8,
            },
        )
    }

    open spec fn from_code(raw: u8) -> Option<RangeCode> {
        if raw == 2 {
            Some(RangeCode::X0_125m)
        } else if raw == 4 {
            Some(RangeCode::X0_25m)
        } else if raw == 6 {
            Some(RangeCode::X0_50m)
        } else if raw == 8 {
            Some(RangeCode::X0_75m)
        } else if raw == 10 {
            Some(RangeCode::X1m)
        } else if raw == 20 {
            Some(RangeCode::X2m)
        } else if raw == 30 {
            Some(RangeCode::X3m)
        } else if raw == 40 {
            Some(RangeCode::X4m)
        } else if raw == 50 {
            Some(RangeCode::X5m)
        } else if raw == 60 {
            Some(RangeCode::X6m)
        } else {
            None
        }
    }

    open spec fn field() -> Field {
        Field::RangeCode
    }

    fn from_u8(raw: u8) -> (r: Option<RangeCode>) {
        match raw {
            2 => Some(RangeCode::X0_125m),
            4 => Some(RangeCode::X0_25m),
            6 => Some(RangeCode::X0_50m),
            8 => Some(RangeCode::X0_75m),
            10 => Some(RangeCode::X1m),
            20 => Some(RangeCode::X2m),
            30 => Some(RangeCode::X3m),
            40 => Some(RangeCode::X4m),
            50 => Some(RangeCode::X5m),
            60 => Some(RangeCode::X6m),
            _ => None,
        }
    }

    fn to_u8(&self) -> (r: Option<u8>) {
        Some(
            match self {
                RangeCode::X0_125m => 2,
                RangeCode::X0_25m => 4,
                RangeCode::X0_50m => 6,
                RangeCode::X0_75m => 8,
                RangeCode::X1m => 10,
                RangeCode::X2m => 20,
                RangeCode::X3m => 30,
                RangeCode::X4m => 40,
                RangeCode::X5m => 50,
                RangeCode::X6m => 60,
            },
        )
    }

    fn subject() -> (f: Field) {
        Field::RangeCode
    }

    proof fn code_is_read_back(self) {
    }

    proof fn read_is_coded_back(raw: u8) {
    }
}

impl RangeCode {
    /// The words that describe the value.
    pub open spec fn text(self) -> Seq<char> {
        match self {
            RangeCode::X0_125m => "0.125 meters"@,
            RangeCode::X0_25m => "0.250 meters"@,
            RangeCode::X0_50m => "0.500 meters"@,
            RangeCode::X0_75m => "0.750 meters"@,
            RangeCode::X1m => "1.000 meters"@,
            RangeCode::X2m => "2.000 meters"@,
            RangeCode::X3m => "3.000 meters"@,
            RangeCode::X4m => "4.000 meters"@,
            RangeCode::X5m => "5.000 meters"@,
            RangeCode::X6m => "6.000 meters"@,
        }
    }

    /// The value in words.
    pub fn to_string(&self) -> (r: String)
        ensures
            r@ == self.text(),
    {
        match self {
            RangeCode::X0_125m => String::from_str("0.125 meters"),
            RangeCode::X0_25m => String::from_str("0.250 meters"),
            RangeCode::X0_50m => String::from_str("0.500 meters"),
            RangeCode::X0_75m => String::from_str("0.750 meters"),
            RangeCode::X1m => String::from_str("1.000 meters"),
            RangeCode::X2m => String::from_str("2.000 meters"),
            RangeCode::X3m => String::from_str("3.000 meters"),
            RangeCode::X4m => String::from_str("4.000 meters"),
            RangeCode::X5m => String::from_str("5.000 meters"),
            RangeCode::X6m => String::from_str("6.000 meters"),
        }
    }


    /// The range in tenths of a millimetre.
    pub open spec fn range_spec(self) -> int {
        match self {
            RangeCode::X0_125m => 1250,
            RangeCode::X0_25m => 2500,
            RangeCode::X0_50m => 5000,
            RangeCode::X0_75m => 7500,
            RangeCode::X1m => 10000,
            RangeCode::X2m => 20000,
            RangeCode::X3m => 30000,
            RangeCode::X4m => 40000,
            RangeCode::X5m => 50000,
            RangeCode::X6m => 60000,
        }
    }

    /// The filter delay in tenths of a millimetre: 16 mm up to the 0.75 m range, 20 mm at
    /// 1 m, 24 mm at 2 m and 30 mm from 3 m on.
    pub open spec fn filter_delay_spec(self) -> int {
        match self {
            RangeCode::X0_125m | RangeCode::X0_25m | RangeCode::X0_50m | RangeCode::X0_75m => 160,
            RangeCode::X1m => 200,
            RangeCode::X2m => 240,
            RangeCode::X3m | RangeCode::X4m | RangeCode::X5m | RangeCode::X6m => 300,
        }
    }

    /// The range that the setting stands for, in tenths of a millimetre (0.125 m is 1250).
    pub fn range(&self) -> (r: u32)
        ensures
            r == self.range_spec(),
    {
        match self {
            RangeCode::X0_125m => 1250,
            RangeCode::X0_25m => 2500,
            RangeCode::X0_50m => 5000,
            RangeCode::X0_75m => 7500,
            RangeCode::X1m => 10000,
            RangeCode::X2m => 20000,
            RangeCode::X3m => 30000,
            RangeCode::X4m => 40000,
            RangeCode::X5m => 50000,
            RangeCode::X6m => 60000,
        }
    }

    /// The distance, in tenths of a millimetre, that the receive filter adds to every profile
    /// range taken at this setting.
    pub fn filter_delay(&self) -> (r: u32)
        ensures
            r == self.filter_delay_spec(),
    {
        match self {
            RangeCode::X0_125m | RangeCode::X0_25m | RangeCode::X0_50m | RangeCode::X0_75m => 160,
            RangeCode::X1m => 200,
            RangeCode::X2m => 240,
            RangeCode::X3m | RangeCode::X4m | RangeCode::X5m | RangeCode::X6m => 300,
        }
    }

    /// The distance between two neighbouring samples, in tenths of a millimetre: the 250th
    /// part of the range.
    pub open spec fn sample_step(self) -> int {
        self.range_spec() / 250
    }

    /// The distance table of the setting: entry `i` is the distance of sample `i`, in tenths
    /// of a millimetre.
    pub open spec fn table_spec(self) -> Seq<u32> {
        Seq::new(250, |i: int| ((i + 1) * self.sample_step()) as u32)
    }

    /// The distance table of the setting, in tenths of a millimetre.
    pub fn table(&self) -> (table: RangeTable)
        ensures
            table@ == self.table_spec(),
    {
        let step: u32 = self.range() / 250;
        let mut table: RangeTable = [0u32;250];
        let mut i: usize = 0;
        while i < 250
            invariant
                i <= 250,
                step == self.sample_step(),
                step <= 240,
                forall|k: int| 0 <= k < i ==> table@[k] == (k + 1) * step,
            decreases 250 - i,
        {
            assert((i + 1) * step <= 250 * 240) by (nonlinear_arith)
                requires
                    i < 250,
                    step <= 240,
            ;
            table[i] = (i as u32 + 1) * step;
            i += 1;
        }
        assert(table@ =~= self.table_spec());
        table
    }
}

} // verus!
