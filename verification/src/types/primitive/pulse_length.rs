//! The **Pulse Length** primitive: the length of the transmit pulse in microseconds, from 0 to 1000
//! in steps of 10, in one byte.
use crate::error::{ErrorKind, Field, FormatError};
use crate::types::util::bytes::{available, holds_at, take_u8, take_u8_spec};
use vstd::prelude::*;

verus! {

/// The largest valid value.
pub const MAX: u16 = 1_000;

/// Whether `pulse_length` lies in the valid range.
pub open spec fn valid_spec(pulse_length: u16) -> bool {
    pulse_length <= MAX
}

/// Whether `pulse_length` is one that the wire carries exactly: valid, and a whole number of steps.
pub open spec fn exact(pulse_length: u16) -> bool {
    valid_spec(pulse_length) && pulse_length % 10 == 0
}

/// The value that the byte `raw` stands for: 10 for each step.
pub open spec fn from_raw(raw: u8) -> int {
    raw * 10
}

/// The byte that stands for `pulse_length`: its steps of 10, rounded down.
pub open spec fn to_raw(pulse_length: u16) -> u8 {
    (pulse_length / 10) as u8
}

/// What parsing at `pos` gives: the value and the offset behind it, or the failure. A byte
/// that stands for a value out of range fails at the offset behind it.
pub open spec fn parse_spec(input: Seq<u8>, pos: usize) -> Result<(u16, usize), FormatError> {
    match take_u8_spec(input, pos, Field::PulseLength) {
        Ok((raw, next)) => if from_raw(raw) <= MAX {
            Ok((from_raw(raw) as u16, next))
        } else {
            Err(
                FormatError {
                    kind: ErrorKind::FieldOutOfRange,
                    pos: next,
                    field: Field::PulseLength,
                }
            )
        },
        Err(e) => Err(e),
    }
}

/// What writing `pulse_length` at offset `pos` gives: its byte, or the failure.
pub open spec fn write_spec(pulse_length: u16, pos: usize) -> Result<Seq<u8>, FormatError> {
    if valid_spec(pulse_length) {
        Ok(seq![to_raw(pulse_length)])
    } else {
        Err(FormatError { kind: ErrorKind::FieldOutOfRange, pos, field: Field::PulseLength })
    }
}

/// Validate the **Pulse Length**, in microseconds.
pub fn valid(pulse_length: u16) -> (ok: bool)
    ensures
        ok == valid_spec(pulse_length),
{
    pulse_length <= MAX
}

/// Parses the **Pulse Length**, in microseconds, from the byte at `pos`.
pub fn parse(input: &[u8], pos: usize) -> (r: Result<(u16, usize), FormatError>)
    ensures
        r == parse_spec(input@, pos),
        r matches Ok((value, _)) ==> exact(value),
{
    let (raw, next) = match take_u8(input, pos, Field::PulseLength) {
        Ok(read) => read,
        Err(e) => { return Err(e); },
    };
    let pulse_length: u16 = raw as u16 * 10;

    if !valid(pulse_length) {
        return Err(FormatError::new(ErrorKind::FieldOutOfRange, next, Field::PulseLength));
    }
    Ok((pulse_length, next))
}

/// Appends the byte of the **Pulse Length** to `out`. A value out of range is refused, and `out` is
/// left as it was; the failure names the offset at which the byte would have stood.
pub fn write(pulse_length: &u16, out: &mut Vec<u8>) -> (r: Result<(), FormatError>)
    ensures
        match write_spec(*pulse_length, old(out)@.len() as usize) {
            Ok(bytes) => r.is_ok() && final(out)@ == old(out)@ + bytes,
            Err(e) => r == Err::<(), FormatError>(e) && final(out)@ == old(out)@,
        },
{
    if !valid(*pulse_length) {
        return Err(FormatError::new(ErrorKind::FieldOutOfRange, out.len(), Field::PulseLength));
    }
    let raw: u8 = (*pulse_length / 10) as u8;
    out.push(raw);
    assert(out@ =~= old(out)@ + seq![raw]);
    Ok(())
}

/// An exact value is parsed back from the byte that it is written as.
pub proof fn written_is_read_back(pulse_length: u16, input: Seq<u8>, pos: usize)
    requires
        exact(pulse_length),
        input.len() <= usize::MAX,
        holds_at(input, pos, seq![to_raw(pulse_length)]),
    ensures
        parse_spec(input, pos)
            == Ok::<(u16, usize), FormatError>((pulse_length, (pos + 1) as usize)),
{
    assert(input[pos as int] == input.subrange(pos as int, pos + 1)[0]);
}

/// A byte that parses is written back from the value parsed from it, which is exact.
pub proof fn read_is_written_back(input: Seq<u8>, pos: usize)
    requires
        input.len() <= usize::MAX,
        parse_spec(input, pos).is_ok(),
    ensures
        parse_spec(input, pos) matches Ok((value, next)) && next == pos + 1 && exact(value)
            && write_spec(value, pos) == Ok::<Seq<u8>, FormatError>(
            input.subrange(pos as int, pos + 1),
        ),
{
    assert(input.subrange(pos as int, pos + 1) =~= seq![input[pos as int]]);
}

/// A value outside the valid range is never written, and a byte that stands for one is never
/// parsed; both bounds of the range are written.
pub proof fn range_is_enforced(pulse_length: u16, input: Seq<u8>, pos: usize)
    ensures
        !valid_spec(pulse_length) ==> write_spec(pulse_length, pos) == Err::<Seq<u8>, FormatError>(
            FormatError { kind: ErrorKind::FieldOutOfRange, pos, field: Field::PulseLength },
        ),
        valid_spec(pulse_length) ==> write_spec(pulse_length, pos).is_ok(),
        write_spec(0, pos).is_ok(),
        write_spec(MAX, pos).is_ok(),
        parse_spec(input, pos) matches Ok((value, _)) ==> valid_spec(value),
        available(input, pos, 1) && from_raw(input[pos as int]) > MAX ==> parse_spec(input, pos)
            == Err::<(u16, usize), FormatError>(
            FormatError {
                kind: ErrorKind::FieldOutOfRange,
                pos: (pos + 1) as usize,
                field: Field::PulseLength,
            },
        ),
{
}

} // verus!
