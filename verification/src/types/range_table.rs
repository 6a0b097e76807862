//! The distance tables of the range settings.
use crate::types::range_code::RangeCode;
use vstd::prelude::*;

verus! {

/// The distances of the 250 samples of one ping, in tenths of a millimetre.
pub type RangeTable = [u32; 250];

/// The entries of every table grow strictly, and the last one is the range itself.
pub proof fn table_is_increasing(code: RangeCode, i: int, j: int)
    requires
        0 <= i < j < 250,
    ensures
        code.table_spec()[i] < code.table_spec()[j],
        code.table_spec()[249] == code.range_spec(),
{
    let step = code.sample_step();
    assert(0 < step <= 240 && 250 * step == code.range_spec());
    assert(0 < (i + 1) * step < (j + 1) * step <= 250 * step) by (nonlinear_arith)
        requires
            0 <= i < j < 250,
            0 < step,
    ;
}

} // verus!
