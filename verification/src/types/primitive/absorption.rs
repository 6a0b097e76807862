//! The **Absorption** primitive: the absorption of sound in water, in hundredths of a decibel per
//! metre, from 0.00 to 2.55 dB/m in one byte.
use crate::error::{ErrorKind, Field, FormatError};
use crate::types::util::bytes::{available, holds_at, take_u8, take_u8_spec};
use vstd::prelude::*;

verus! {

/// The smallest valid value.
pub const MIN: i32 = 0;

/// The largest valid value.
pub const MAX: i32 = 255;

/// Whether `absorption` lies in the valid range.
pub open spec fn valid_spec(absorption: i32) -> bool {
    MIN <= absorption <= MAX
}

/// Whether `absorption` is one that the wire carries exactly: every valid value.
pub open spec fn exact(absorption: i32) -> bool {
    valid_spec(absorption)
}

/// The value that the byte `raw` stands for.
pub open spec fn from_raw(raw: u8) -> int {
    raw as int
}

/// The byte that stands for `absorption`.
pub open spec fn to_raw(absorption: i32) -> u8 {
    absorption as u8
}

/// What parsing at `pos` gives: the value and the offset behind it, or the failure. A byte
/// that stands for a value out of range fails at the offset behind it.
pub open spec fn parse_spec(input: Seq<u8>, pos: usize) -> Result<(i32, usize), FormatError> {
    match take_u8_spec(input, pos, Field::Absorption) {
        Ok((raw, next)) => if from_raw(raw) <= MAX {
            Ok((from_raw(raw) as i32, next))
        } else {
            Err(
                FormatError {
                    kind: ErrorKind::FieldOutOfRange,
                    pos: next,
                    field: Field::Absorption,
                }
            )
        },
        Err(e) => Err(e),
    }
}

/// What writing `absorption` at offset `pos` gives: its byte, or the failure.
pub open spec fn write_spec(absorption: i32, pos: usize) -> Result<Seq<u8>, FormatError> {
    if valid_spec(absorption) {
        Ok(seq![to_raw(absorption)])
    } else {
        Err(FormatError { kind: ErrorKind::FieldOutOfRange, pos, field: Field::Absorption })
    }
}

/// Validate the **Absorption**, in hundredths of a decibel per metre.
pub fn valid(absorption: i32) -> (ok: bool)
    ensures
        ok == valid_spec(absorption),
{
    MIN <= absorption && absorption <= MAX
}

/// Parses the **Absorption**, in hundredths of a decibel per metre, from the byte at `pos`.
pub fn parse(input: &[u8], pos: usize) -> (r: Result<(i32, usize), FormatError>)
    ensures
        r == parse_spec(input@, pos),
        r matches Ok((value, _)) ==> exact(value),
{
    let (raw, next) = match take_u8(input, pos, Field::Absorption) {
        Ok(read) => read,
        Err(e) => { return Err(e); },
    };
    let absorption: i32 = raw as i32;

    if !valid(absorption) {
        return Err(FormatError::new(ErrorKind::FieldOutOfRange, next, Field::Absorption));
    }
    Ok((absorption, next))
}

/// Appends the byte of the **Absorption** to `out`. A value out of range is refused, and `out` is
/// left as it was; the failure names the offset at which the byte would have stood.
pub fn write(absorption: &i32, out: &mut Vec<u8>) -> (r: Result<(), FormatError>)
    ensures
        match write_spec(*absorption, old(out)@.len() as usize) {
            Ok(bytes) => r.is_ok() && final(out)@ == old(out)@ + bytes,
            Err(e) => r == Err::<(), FormatError>(e) && final(out)@ == old(out)@,
        },
{
    if !valid(*absorption) {
        return Err(FormatError::new(ErrorKind::FieldOutOfRange, out.len(), Field::Absorption));
    }
    let raw: u8 = *absorption as u8;
    out.push(raw);
    assert(out@ =~= old(out)@ + seq![raw]);
    Ok(())
}

/// An exact value is parsed back from the byte that it is written as.
pub proof fn written_is_read_back(absorption: i32, input: Seq<u8>, pos: usize)
    requires
        exact(absorption),
        input.len() <= usize::MAX,
        holds_at(input, pos, seq![to_raw(absorption)]),
    ensures
        parse_spec(input, pos) == Ok::<(i32, usize), FormatError>((absorption, (pos + 1) as usize)),
{
    assert(input[pos as int] == input.subrange(pos as int, pos + 1)[0]);
}

/// A byte that parses is written back from the value parsed from it, which is exact.
pub proof fn read_is_written_back(input: Seq<u8>, pos: usize)
    requires
        input.len() <= usize::MAX,
        parse_spec(input, pos).is_ok(),
    ensures
        parse_spec(input, pos) matches Ok((value, next)) && next == pos + 1 && exact(value)
            && write_spec(value, pos) == Ok::<Seq<u8>, FormatError>(
            input.subrange(pos as int, pos + 1),
        ),
{
    assert(input.subrange(pos as int, pos + 1) =~= seq![input[pos as int]]);
}

/// A value outside the valid range is never written, and a byte that stands for one is never
/// parsed; both bounds of the range are written.
pub proof fn range_is_enforced(absorption: i32, input: Seq<u8>, pos: usize)
    ensures
        !valid_spec(absorption) ==> write_spec(absorption, pos) == Err::<Seq<u8>, FormatError>(
            FormatError { kind: ErrorKind::FieldOutOfRange, pos, field: Field::Absorption },
        ),
        valid_spec(absorption) ==> write_spec(absorption, pos).is_ok(),
        write_spec(MIN, pos).is_ok(),
        write_spec(MAX, pos).is_ok(),
        parse_spec(input, pos) matches Ok((value, _)) ==> valid_spec(value),
        available(input, pos, 1) && from_raw(input[pos as int]) > MAX ==> parse_spec(input, pos)
            == Err::<(i32, usize), FormatError>(
            FormatError {
                kind: ErrorKind::FieldOutOfRange,
                pos: (pos + 1) as usize,
                field: Field::Absorption,
            },
        ),
{
}

} // verus!
