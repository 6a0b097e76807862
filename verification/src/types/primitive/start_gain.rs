//! The **Start Gain** primitive: the amplification applied to the echo at the beginning of its
//! travel through the receiver, in decibels, from 0 to 40 in one byte.
use crate::error::{ErrorKind, Field, FormatError};
use crate::types::util::bytes::{available, holds_at, take_u8, take_u8_spec};
use vstd::prelude::*;

verus! {

/// The largest valid value.
pub const MAX: u8 = 40;

/// Whether `start_gain` lies in the valid range.
pub open spec fn valid_spec(start_gain: u8) -> bool {
    start_gain <= MAX
}

/// Whether `start_gain` is one that the wire carries exactly: every valid value.
pub open spec fn exact(start_gain: u8) -> bool {
    valid_spec(start_gain)
}

/// The value that the byte `raw` stands for.
pub open spec fn from_raw(raw: u8) -> int {
    raw as int
}

/// The byte that stands for `start_gain`.
pub open spec fn to_raw(start_gain: u8) -> u8 {
    start_gain as u8
}

/// What parsing at `pos` gives: the value and the offset behind it, or the failure. A byte
/// that stands for a value out of range fails at the offset behind it.
pub open spec fn parse_spec(input: Seq<u8>, pos: usize) -> Result<(u8, usize), FormatError> {
    match take_u8_spec(input, pos, Field::StartGain) {
        Ok((raw, next)) => if from_raw(raw) <= MAX {
            Ok((from_raw(raw) as u8, next))
        } else {
            Err(
                FormatError { kind: ErrorKind::FieldOutOfRange, pos: next, field: Field::StartGain }
            )
        },
        Err(e) => Err(e),
    }
}

/// What writing `start_gain` at offset `pos` gives: its byte, or the failure.
pub open spec fn write_spec(start_gain: u8, pos: usize) -> Result<Seq<u8>, FormatError> {
    if valid_spec(start_gain) {
        Ok(seq![to_raw(start_gain)])
    } else {
        Err(FormatError { kind: ErrorKind::FieldOutOfRange, pos, field: Field::StartGain })
    }
}

/// Validate the **Start Gain**, in decibels.
pub fn valid(start_gain: u8) -> (ok: bool)
    ensures
        ok == valid_spec(start_gain),
{
    start_gain <= MAX
}

/// Parses the **Start Gain**, in decibels, from the byte at `pos`.
pub fn parse(input: &[u8], pos: usize) -> (r: Result<(u8, usize), FormatError>)
    ensures
        r == parse_spec(input@, pos),
        r matches Ok((value, _)) ==> exact(value),
{
    let (raw, next) = match take_u8(input, pos, Field::StartGain) {
        Ok(read) => read,
        Err(e) => { return Err(e); },
    };
    let start_gain: u8 = raw;

    if !valid(start_gain) {
        return Err(FormatError::new(ErrorKind::FieldOutOfRange, next, Field::StartGain));
    }
    Ok((start_gain, next))
}

/// Appends the byte of the **Start Gain** to `out`. A value out of range is refused, and `out` is
/// left as it was; the failure names the offset at which the byte would have stood.
pub fn write(start_gain: &u8, out: &mut Vec<u8>) -> (r: Result<(), FormatError>)
    ensures
        match write_spec(*start_gain, old(out)@.len() as usize) {
            Ok(bytes) => r.is_ok() && final(out)@ == old(out)@ + bytes,
            Err(e) => r == Err::<(), FormatError>(e) && final(out)@ == old(out)@,
        },
{
    if !valid(*start_gain) {
        return Err(FormatError::new(ErrorKind::FieldOutOfRange, out.len(), Field::StartGain));
    }
    let raw: u8 = *start_gain;
    out.push(raw);
    assert(out@ =~= old(out)@ + seq![raw]);
    Ok(())
}

/// An exact value is parsed back from the byte that it is written as.
pub proof fn written_is_read_back(start_gain: u8, input: Seq<u8>, pos: usize)
    requires
        exact(start_gain),
        input.len() <= usize::MAX,
        holds_at(input, pos, seq![to_raw(start_gain)]),
    ensures
        parse_spec(input, pos) == Ok::<(u8, usize), FormatError>((start_gain, (pos + 1) as usize)),
{
    assert(input[pos as int] == input.subrange(pos as int, pos + 1)[0]);
}

/// A byte that parses is written back from the value parsed from it, which is exact.
pub proof fn read_is_written_back(input: Seq<u8>, pos: usize)
    requires
        input.len() <= usize::MAX,
        parse_spec(input, pos).is_ok(),
    ensures
        parse_spec(input, pos) matches Ok((value, next)) && next == pos + 1 && exact(value)
            && write_spec(value, pos) == Ok::<Seq<u8>, FormatError>(
            input.subrange(pos as int, pos + 1),
        ),
{
    assert(input.subrange(pos as int, pos + 1) =~= seq![input[pos as int]]);
}

/// A value outside the valid range is never written, and a byte that stands for one is never
/// parsed; both bounds of the range are written.
pub proof fn range_is_enforced(start_gain: u8, input: Seq<u8>, pos: usize)
    ensures
        !valid_spec(start_gain) ==> write_spec(start_gain, pos) == Err::<Seq<u8>, FormatError>(
            FormatError { kind: ErrorKind::FieldOutOfRange, pos, field: Field::StartGain },
        ),
        valid_spec(start_gain) ==> write_spec(start_gain, pos).is_ok(),
        write_spec(0, pos).is_ok(),
        write_spec(MAX, pos).is_ok(),
        parse_spec(input, pos) matches Ok((value, _)) ==> valid_spec(value),
        available(input, pos, 1) && from_raw(input[pos as int]) > MAX ==> parse_spec(input, pos)
            == Err::<(u8, usize), FormatError>(
            FormatError {
                kind: ErrorKind::FieldOutOfRange,
                pos: (pos + 1) as usize,
                field: Field::StartGain,
            },
        ),
{
}

} // verus!
