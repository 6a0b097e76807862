//! The **Profile Range** primitive: the distance to the detected target in tenths of a
//! millimetre. On the wire it is a `u14` sample index; each sample is half a millimetre, and the
//! filter delay of the active range setting is added to every range.
use crate::error::{ErrorKind, Field, FormatError};
use crate::types::primitive::u14;
use crate::types::range_code::RangeCode;
use crate::types::util::bytes::{available, holds_at, word_at, Endian};
use vstd::prelude::*;

verus! {

/// The tenths of a millimetre in one sample: 0.0005 m.
pub const SCALE: i32 = 5;

/// Whether `profile_range` lies in the range that the wire can carry at the setting
/// `range_index`: from the filter delay up to the filter delay and 16383 samples.
pub open spec fn valid_for_spec(range_index: RangeCode, profile_range: i32) -> bool {
    range_index.filter_delay_spec() <= profile_range <= range_index.filter_delay_spec() + u14::MAX
        * SCALE
}

/// Whether `profile_range` is one that the wire carries exactly: valid, and a whole number of
/// samples beyond the filter delay.
pub open spec fn exact_for(range_index: RangeCode, profile_range: i32) -> bool {
    valid_for_spec(range_index, profile_range) && (profile_range
        - range_index.filter_delay_spec()) % (SCALE as int) == 0
}

/// The range that the sample index `index` stands for.
pub open spec fn from_index(range_index: RangeCode, index: u16) -> i32 {
    (index * SCALE + range_index.filter_delay_spec()) as i32
}

/// The sample index that stands for `profile_range`: its samples beyond the filter delay,
/// rounded down.
pub open spec fn to_index(range_index: RangeCode, profile_range: i32) -> u16 {
    ((profile_range - range_index.filter_delay_spec()) / (SCALE as int)) as u16
}

/// What parsing at `pos` gives: the range and the offset behind it, or the failure.
pub open spec fn parse_spec(
    input: Seq<u8>,
    pos: usize,
    endian: Endian,
    range_index: RangeCode,
) -> Result<(i32, usize), FormatError> {
    match u14::parse_spec(input, pos, endian) {
        Ok((index, next)) => Ok((from_index(range_index, index), next)),
        Err(e) => Err(e),
    }
}

/// What writing `profile_range` at offset `pos` gives: its two bytes, or the failure.
pub open spec fn write_spec(
    profile_range: i32,
    pos: usize,
    endian: Endian,
    range_index: RangeCode,
) -> Result<Seq<u8>, FormatError> {
    if valid_for_spec(range_index, profile_range) {
        u14::write_spec(to_index(range_index, profile_range), pos, endian)
    } else {
        Err(FormatError { kind: ErrorKind::FieldOutOfRange, pos, field: Field::ProfileRange })
    }
}

/// Validate the **Profile Range**, in tenths of a millimetre, for the specified [RangeCode].
pub fn valid_for(range_index: RangeCode, profile_range: i32) -> (ok: bool)
    ensures
        ok == valid_for_spec(range_index, profile_range),
{
    let delay: i32 = range_index.filter_delay() as i32;
    delay <= profile_range && profile_range <= delay + (u14::MAX as i32) * SCALE
}

/// Parses the **Profile Range**, in tenths of a millimetre, from the two bytes at `pos`: the
/// sample index times the scale, and the filter delay of `range_index`.
pub fn parse(input: &[u8], pos: usize, endian: Endian, range_index: RangeCode) -> (r: Result<
    (i32, usize),
    FormatError,
>)
    ensures
        r == parse_spec(input@, pos, endian, range_index),
        r matches Ok((value, _)) ==> exact_for(range_index, value),
{
    match u14::parse(input, pos, endian) {
        Ok((index, next)) => {
            proof {
                u14::from_raw_is_valid(word_at(input@, pos, endian));
            }
            let profile_range: i32 = index as i32 * SCALE + range_index.filter_delay() as i32;
            Ok((profile_range, next))
        },
        Err(e) => Err(e),
    }
}

/// Appends the two bytes of the **Profile Range** to `out`. A range that the wire cannot carry
/// at the setting `range_index` is refused, and `out` is left as it was; the failure names the
/// offset at which the bytes would have begun.
pub fn write(profile_range: &i32, out: &mut Vec<u8>, endian: Endian, range_index: &RangeCode) -> (r:
    Result<(), FormatError>)
    ensures
        match write_spec(*profile_range, old(out)@.len() as usize, endian, *range_index) {
            Ok(bytes) => r.is_ok() && final(out)@ == old(out)@ + bytes,
            Err(e) => r == Err::<(), FormatError>(e) && final(out)@ == old(out)@,
        },
{
    if !valid_for(*range_index, *profile_range) {
        return Err(FormatError::new(ErrorKind::FieldOutOfRange, out.len(), Field::ProfileRange));
    }
    let value: u16 = ((*profile_range - range_index.filter_delay() as i32) / SCALE) as u16;
    u14::write(&value, out, endian)
}

/// An exact range is parsed back from the bytes that it is written as.
pub proof fn written_is_read_back(
    profile_range: i32,
    input: Seq<u8>,
    pos: usize,
    endian: Endian,
    range_index: RangeCode,
)
    requires
        exact_for(range_index, profile_range),
        input.len() <= usize::MAX,
        write_spec(profile_range, pos, endian, range_index) matches Ok(bytes) && holds_at(
            input,
            pos,
            bytes,
        ),
    ensures
        parse_spec(input, pos, endian, range_index) == Ok::<(i32, usize), FormatError>(
            (profile_range, (pos + 2) as usize),
        ),
{
    u14::written_is_read_back(to_index(range_index, profile_range), input, pos, endian);
}

/// Two bytes with both unused bits clear are written back from the range parsed from them,
/// which is exact.
pub proof fn read_is_written_back(
    input: Seq<u8>,
    pos: usize,
    endian: Endian,
    range_index: RangeCode,
)
    requires
        input.len() <= usize::MAX,
        available(input, pos, 2),
        u14::canonical(word_at(input, pos, endian)),
    ensures
        parse_spec(input, pos, endian, range_index) matches Ok((value, next)) && next == pos + 2
            && exact_for(range_index, value) && write_spec(value, pos, endian, range_index) == Ok::<
            Seq<u8>,
            FormatError,
        >(input.subrange(pos as int, pos + 2)),
{
    u14::read_is_written_back(input, pos, endian);
    u14::from_raw_is_valid(word_at(input, pos, endian));
}

/// A range that the wire cannot carry is never written, every range that is parsed is one
/// that it can carry, and both bounds are written.
pub proof fn range_is_enforced(
    profile_range: i32,
    input: Seq<u8>,
    pos: usize,
    endian: Endian,
    range_index: RangeCode,
)
    ensures
        !valid_for_spec(range_index, profile_range) ==> write_spec(
            profile_range,
            pos,
            endian,
            range_index,
        ) == Err::<Seq<u8>, FormatError>(
            FormatError { kind: ErrorKind::FieldOutOfRange, pos, field: Field::ProfileRange },
        ),
        valid_for_spec(range_index, profile_range) ==> write_spec(
            profile_range,
            pos,
            endian,
            range_index,
        ).is_ok(),
        parse_spec(input, pos, endian, range_index) matches Ok((value, _)) ==> valid_for_spec(
            range_index,
            value,
        ),
{
    if available(input, pos, 2) {
        u14::from_raw_is_valid(word_at(input, pos, endian));
    }
}

} // verus!
