//! The **Real-Time PRF** primitive: the pulse repetition frequency in hundredths of a hertz,
//! from 0.00 to 327.67 Hz, in the low 15 bits of two bytes.
use crate::error::{ErrorKind, Field, FormatError};
use crate::types::util::bytes::{
    available, holds_at, put_u16, take_u16, take_u16_spec, u16_bytes, word_at, word_is_read_back,
    word_is_written_back, Endian,
};
use vstd::prelude::*;

verus! {

/// The smallest valid value.
pub const MIN: i32 = 0;

/// The largest valid value.
pub const MAX: i32 = 32_767;

const MASK: u16 = 0x7FFF;

/// Whether `real_time_prf` lies in the valid range.
pub open spec fn valid_spec(real_time_prf: i32) -> bool {
    MIN <= real_time_prf <= MAX
}

/// The value that the 16-bit word `raw` carries: its low 15 bits.
pub open spec fn from_raw(raw: u16) -> i32 {
    (raw % 0x8000) as i32
}

/// Whether the unused top bit of `raw` is clear.
pub open spec fn canonical(raw: u16) -> bool {
    raw < 0x8000
}

/// What parsing at `pos` gives: the value and the offset behind it, or the failure.
pub open spec fn parse_spec(input: Seq<u8>, pos: usize, endian: Endian) -> Result<
    (i32, usize),
    FormatError,
> {
    match take_u16_spec(input, pos, endian, Field::RealTimePrf) {
        Ok((raw, next)) => Ok((from_raw(raw), next)),
        Err(e) => Err(e),
    }
}

/// What writing `real_time_prf` at offset `pos` gives: its two bytes, or the failure.
pub open spec fn write_spec(real_time_prf: i32, pos: usize, endian: Endian) -> Result<
    Seq<u8>,
    FormatError,
> {
    if valid_spec(real_time_prf) {
        Ok(u16_bytes(real_time_prf as u16, endian))
    } else {
        Err(FormatError { kind: ErrorKind::FieldOutOfRange, pos, field: Field::RealTimePrf })
    }
}

/// Validate the **Real-Time PRF**, in hundredths of a hertz.
pub fn valid(real_time_prf: i32) -> (ok: bool)
    ensures
        ok == valid_spec(real_time_prf),
{
    MIN <= real_time_prf && real_time_prf <= MAX
}

/// Parses the **Real-Time PRF**, in hundredths of a hertz, from the two bytes at `pos`. The
/// top bit is ignored, so this fails only when fewer than two bytes are left.
pub fn parse(input: &[u8], pos: usize, endian: Endian) -> (r: Result<(i32, usize), FormatError>)
    ensures
        r == parse_spec(input@, pos, endian),
        r matches Ok((value, _)) ==> valid_spec(value),
{
    let (raw, next) = match take_u16(input, pos, endian, Field::RealTimePrf) {
        Ok(read) => read,
        Err(e) => { return Err(e); },
    };
    let masked: u16 = raw & MASK;
    assert(masked == raw % 0x8000) by (bit_vector)
        requires
            masked == raw & 0x7FFF,
    ;
    Ok((masked as i32, next))
}

/// Appends the two bytes of the **Real-Time PRF** to `out`. A value out of range is refused,
/// and `out` is left as it was; the failure names the offset at which the bytes would have
/// begun.
pub fn write(real_time_prf: &i32, out: &mut Vec<u8>, endian: Endian) -> (r: Result<
    (),
    FormatError,
>)
    ensures
        match write_spec(*real_time_prf, old(out)@.len() as usize, endian) {
            Ok(bytes) => r.is_ok() && final(out)@ == old(out)@ + bytes,
            Err(e) => r == Err::<(), FormatError>(e) && final(out)@ == old(out)@,
        },
{
    if !valid(*real_time_prf) {
        return Err(FormatError::new(ErrorKind::FieldOutOfRange, out.len(), Field::RealTimePrf));
    }
    let value: u16 = *real_time_prf as u16;
    let raw: u16 = value & MASK;
    assert(raw == value) by (bit_vector)
        requires
            value <= 0x7FFF,
            raw == value & 0x7FFF,
    ;
    put_u16(raw, endian, out);
    Ok(())
}

/// A valid value is parsed back from the bytes that it is written as.
pub proof fn written_is_read_back(real_time_prf: i32, input: Seq<u8>, pos: usize, endian: Endian)
    requires
        valid_spec(real_time_prf),
        input.len() <= usize::MAX,
        holds_at(input, pos, u16_bytes(real_time_prf as u16, endian)),
    ensures
        parse_spec(input, pos, endian) == Ok::<(i32, usize), FormatError>(
            (real_time_prf, (pos + 2) as usize),
        ),
{
    word_is_read_back(input, pos, real_time_prf as u16, endian);
}

/// Two bytes with the unused bit clear are written back from the value parsed from them.
pub proof fn read_is_written_back(input: Seq<u8>, pos: usize, endian: Endian)
    requires
        input.len() <= usize::MAX,
        available(input, pos, 2),
        canonical(word_at(input, pos, endian)),
    ensures
        parse_spec(input, pos, endian) matches Ok((value, next)) && next == pos + 2 && valid_spec(
            value,
        ) && write_spec(value, pos, endian) == Ok::<Seq<u8>, FormatError>(
            input.subrange(pos as int, pos + 2),
        ),
{
    word_is_written_back(input, pos, endian);
}

/// A value outside the valid range is never written, every value that is parsed is valid, and
/// both bounds of the range are written.
pub proof fn range_is_enforced(real_time_prf: i32, input: Seq<u8>, pos: usize, endian: Endian)
    ensures
        !valid_spec(real_time_prf) ==> write_spec(real_time_prf, pos, endian) == Err::<
            Seq<u8>,
            FormatError,
        >(FormatError { kind: ErrorKind::FieldOutOfRange, pos, field: Field::RealTimePrf }),
        valid_spec(real_time_prf) ==> write_spec(real_time_prf, pos, endian).is_ok(),
        write_spec(MIN, pos, endian).is_ok(),
        write_spec(MAX, pos, endian).is_ok(),
        parse_spec(input, pos, endian) matches Ok((value, _)) ==> valid_spec(value),
{
}

} // verus!
