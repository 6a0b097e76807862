//! The **Sector Size** primitive: the width of the scanned sector in degrees, from 0 to 360 in
//! steps of 3, in one byte. *Ignored in Fixed-transducer sonars*.
use crate::error::{ErrorKind, Field, FormatError};
use crate::types::util::bytes::{available, holds_at, take_u8, take_u8_spec};
use vstd::prelude::*;

verus! {

/// The largest valid value.
pub const MAX: u16 = 360;

/// Whether `sector_size` lies in the valid range.
pub open spec fn valid_spec(sector_size: u16) -> bool {
    sector_size <= MAX
}

/// Whether `sector_size` is one that the wire carries exactly: valid, and a whole number of steps.
pub open spec fn exact(sector_size: u16) -> bool {
    valid_spec(sector_size) && sector_size % 3 == 0
}

/// The value that the byte `raw` stands for: 3 for each step.
pub open spec fn from_raw(raw: u8) -> int {
    raw * 3
}

/// The byte that stands for `sector_size`: its steps of 3, rounded down.
pub open spec fn to_raw(sector_size: u16) -> u8 {
    (sector_size / 3) as u8
}

/// What parsing at `pos` gives: the value and the offset behind it, or the failure. A byte
/// that stands for a value out of range fails at the offset behind it.
pub open spec fn parse_spec(input: Seq<u8>, pos: usize) -> Result<(u16, usize), FormatError> {
    match take_u8_spec(input, pos, Field::SectorSize) {
        Ok((raw, next)) => if from_raw(raw) <= MAX {
            Ok((from_raw(raw) as u16, next))
        } else {
            Err(
                FormatError {
                    kind: ErrorKind::FieldOutOfRange,
                    pos: next,
                    field: Field::SectorSize,
                }
            )
        },
        Err(e) => Err(e),
    }
}

/// What writing `sector_size` at offset `pos` gives: its byte, or the failure.
pub open spec fn write_spec(sector_size: u16, pos: usize) -> Result<Seq<u8>, FormatError> {
    if valid_spec(sector_size) {
        Ok(seq![to_raw(sector_size)])
    } else {
        Err(FormatError { kind: ErrorKind::FieldOutOfRange, pos, field: Field::SectorSize })
    }
}

/// Validate the **Sector Size**, in degrees.
pub fn valid(sector_size: u16) -> (ok: bool)
    ensures
        ok == valid_spec(sector_size),
{
    sector_size <= MAX
}

/// Parses the **Sector Size**, in degrees, from the byte at `pos`.
pub fn parse(input: &[u8], pos: usize) -> (r: Result<(u16, usize), FormatError>)
    ensures
        r == parse_spec(input@, pos),
        r matches Ok((value, _)) ==> exact(value),
{
    let (raw, next) = match take_u8(input, pos, Field::SectorSize) {
        Ok(read) => read,
        Err(e) => { return Err(e); },
    };
    let sector_size: u16 = raw as u16 * 3;

    if !valid(sector_size) {
        return Err(FormatError::new(ErrorKind::FieldOutOfRange, next, Field::SectorSize));
    }
    Ok((sector_size, next))
}

/// Appends the byte of the **Sector Size** to `out`. A value out of range is refused, and `out` is
/// left as it was; the failure names the offset at which the byte would have stood.
pub fn write(sector_size: &u16, out: &mut Vec<u8>) -> (r: Result<(), FormatError>)
    ensures
        match write_spec(*sector_size, old(out)@.len() as usize) {
            Ok(bytes) => r.is_ok() && final(out)@ == old(out)@ + bytes,
            Err(e) => r == Err::<(), FormatError>(e) && final(out)@ == old(out)@,
        },
{
    if !valid(*sector_size) {
        return Err(FormatError::new(ErrorKind::FieldOutOfRange, out.len(), Field::SectorSize));
    }
    let raw: u8 = (*sector_size / 3) as u8;
    out.push(raw);
    assert(out@ =~= old(out)@ + seq![raw]);
    Ok(())
}

/// An exact value is parsed back from the byte that it is written as.
pub proof fn written_is_read_back(sector_size: u16, input: Seq<u8>, pos: usize)
    requires
        exact(sector_size),
        input.len() <= usize::MAX,
        holds_at(input, pos, seq![to_raw(sector_size)]),
    ensures
        parse_spec(input, pos)
            == Ok::<(u16, usize), FormatError>((sector_size, (pos + 1) as usize)),
{
    assert(input[pos as int] == input.subrange(pos as int, pos + 1)[0]);
}

/// A byte that parses is written back from the value parsed from it, which is exact.
pub proof fn read_is_written_back(input: Seq<u8>, pos: usize)
    requires
        input.len() <= usize::MAX,
        parse_spec(input, pos).is_ok(),
    ensures
        parse_spec(input, pos) matches Ok((value, next)) && next == pos + 1 && exact(value)
            && write_spec(value, pos) == Ok::<Seq<u8>, FormatError>(
            input.subrange(pos as int, pos + 1),
        ),
{
    assert(input.subrange(pos as int, pos + 1) =~= seq![input[pos as int]]);
}

/// A value outside the valid range is never written, and a byte that stands for one is never
/// parsed; both bounds of the range are written.
pub proof fn range_is_enforced(sector_size: u16, input: Seq<u8>, pos: usize)
    ensures
        !valid_spec(sector_size) ==> write_spec(sector_size, pos) == Err::<Seq<u8>, FormatError>(
            FormatError { kind: ErrorKind::FieldOutOfRange, pos, field: Field::SectorSize },
        ),
        valid_spec(sector_size) ==> write_spec(sector_size, pos).is_ok(),
        write_spec(0, pos).is_ok(),
        write_spec(MAX, pos).is_ok(),
        parse_spec(input, pos) matches Ok((value, _)) ==> valid_spec(value),
        available(input, pos, 1) && from_raw(input[pos as int]) > MAX ==> parse_spec(input, pos)
            == Err::<(u16, usize), FormatError>(
            FormatError {
                kind: ErrorKind::FieldOutOfRange,
                pos: (pos + 1) as usize,
                field: Field::SectorSize,
            },
        ),
{
}

} // verus!
