//! The `u14` primitive: an unsigned 14-bit integer in two bytes, used for the profile range
//! and for the length of the echo data.
//!
//! Of the byte read first, bits 6 to 0 are the low seven bits of the value and bit 7 is unused.
//! Of the byte read second (in big-endian order), bit 0 is bit 7 of the value, bits 6 to 1 are
//! its high six bits, and bit 7 is unused.
use crate::error::{ErrorKind, Field, FormatError};
use crate::types::util::bytes::{
    available, holds_at, put_u16, take_u16, take_u16_spec, u16_bytes, word_at, word_is_read_back,
    word_is_written_back, Endian,
};
use vstd::prelude::*;

verus! {

/// The largest value of a `u14`.
pub const MAX: u16 = 0x3FFF;

const MASK_HIGH: u8 = 0x7E;

const SHIFT_HIGH: usize = 1;

const MASK_HIGH_L: u8 = 0x01;

const SHIFT_HIGH_L: usize = 7;

const MASK_LOW: u8 = 0x7F;

/// Whether `value` fits in 14 bits.
pub open spec fn valid_spec(value: u16) -> bool {
    value <= MAX
}

/// The value that the 16-bit word `raw` carries. Its low byte holds the high six bits of the
/// value in bits 6 to 1 and bit 7 of the value in bit 0; its high byte holds the low seven bits.
pub open spec fn from_raw(raw: u16) -> u16 {
    let high = raw % 256;
    let low = raw / 256;
    ((high / 2 % 64) * 256 + (high % 2) * 128 + low % 128) as u16
}

/// The 16-bit word that carries `value`, with both unused bits clear.
pub open spec fn to_raw(value: u16) -> u16 {
    let high = (value / 256 % 64) * 2 + value / 128 % 2;
    let low = value % 128;
    (low * 256 + high) as u16
}

/// Whether both unused bits of `raw` are clear.
pub open spec fn canonical(raw: u16) -> bool {
    raw / 256 < 128 && raw % 256 < 128
}

/// What parsing a `u14` at `pos` gives: the value and the offset behind it, or the failure.
pub open spec fn parse_spec(input: Seq<u8>, pos: usize, endian: Endian) -> Result<
    (u16, usize),
    FormatError,
> {
    match take_u16_spec(input, pos, endian, Field::U14) {
        Ok((raw, next)) => Ok((from_raw(raw), next)),
        Err(e) => Err(e),
    }
}

/// What writing `value` at offset `pos` gives: its two bytes, or the failure.
pub open spec fn write_spec(value: u16, pos: usize, endian: Endian) -> Result<
    Seq<u8>,
    FormatError,
> {
    if valid_spec(value) {
        Ok(u16_bytes(to_raw(value), endian))
    } else {
        Err(FormatError { kind: ErrorKind::FieldOutOfRange, pos, field: Field::U14 })
    }
}

/// Validate if the provided value can fit in a `u14`.
pub fn valid(value: u16) -> (ok: bool)
    ensures
        ok == valid_spec(value),
{
    value <= MAX
}

/// Parses a `u14` from the two bytes at `pos`. Fails only when fewer than two bytes are left.
pub fn parse(input: &[u8], pos: usize, endian: Endian) -> (r: Result<(u16, usize), FormatError>)
    ensures
        r == parse_spec(input@, pos, endian),
{
    let (raw, next) = match take_u16(input, pos, endian, Field::U14) {
        Ok(read) => read,
        Err(e) => { return Err(e); },
    };

    // extract the high and low parts
    let high: u8 = (raw & 0xFF) as u8;
    let low: u8 = (raw >> 8) as u8;

    let high_part: u8 = (high & MASK_HIGH) >> SHIFT_HIGH;
    let low_part: u8 = (low & MASK_LOW) | ((high & MASK_HIGH_L) << SHIFT_HIGH_L);

    let value: u16 = ((high_part as u16) << 8) | (low_part as u16);
    assert(value == from_raw(raw)) by (bit_vector)
        requires
            high == (raw & 0xFF) as u8,
            low == (raw >> 8) as u8,
            high_part == (high & 0x7E) >> 1usize,
            low_part == (low & 0x7F) | ((high & 0x01) << 7usize),
            value == ((high_part as u16) << 8) | (low_part as u16),
    ;
    Ok((value, next))
}

/// Appends the two bytes of `value` to `out`. A value above 14 bits is refused, and `out` is
/// left as it was; the failure names the offset at which the bytes would have begun.
pub fn write(value: &u16, out: &mut Vec<u8>, endian: Endian) -> (r: Result<(), FormatError>)
    ensures
        match write_spec(*value, old(out)@.len() as usize, endian) {
            Ok(bytes) => r.is_ok() && final(out)@ == old(out)@ + bytes,
            Err(e) => r == Err::<(), FormatError>(e) && final(out)@ == old(out)@,
        },
{
    let u14: u16 = *value;
    if !valid(u14) {
        return Err(FormatError::new(ErrorKind::FieldOutOfRange, out.len(), Field::U14));
    }
    let high: u8 = (u14 >> 8) as u8;
    let low: u8 = (u14 & 0xFF) as u8;

    let high_part: u8 = ((high << SHIFT_HIGH) & MASK_HIGH) | ((low >> SHIFT_HIGH_L) & MASK_HIGH_L);
    let low_part: u8 = low & MASK_LOW;

    let raw: u16 = ((low_part as u16) << 8) | (high_part as u16);
    assert(raw == to_raw(u14)) by (bit_vector)
        requires
            u14 <= 0x3FFF,
            high == (u14 >> 8) as u8,
            low == (u14 & 0xFF) as u8,
            high_part == ((high << 1usize) & 0x7E) | ((low >> 7usize) & 0x01),
            low_part == low & 0x7F,
            raw == ((low_part as u16) << 8) | (high_part as u16),
    ;
    put_u16(raw, endian, out);
    Ok(())
}

/// Every word carries a value of at most 14 bits.
pub proof fn from_raw_is_valid(raw: u16)
    ensures
        valid_spec(from_raw(raw)),
{
}

/// A valid value is read back from the word that carries it, and that word is canonical.
pub proof fn value_round_trip(value: u16)
    requires
        valid_spec(value),
    ensures
        from_raw(to_raw(value)) == value,
        canonical(to_raw(value)),
{
}

/// A canonical word is written back from the value that it carries.
pub proof fn raw_round_trip(raw: u16)
    requires
        canonical(raw),
    ensures
        to_raw(from_raw(raw)) == raw,
{
}

/// A value above 14 bits is never written, both bounds of the range are, and every value that
/// is parsed fits in 14 bits.
pub proof fn range_is_enforced(value: u16, input: Seq<u8>, pos: usize, endian: Endian)
    ensures
        !valid_spec(value) ==> write_spec(value, pos, endian) == Err::<Seq<u8>, FormatError>(
            FormatError { kind: ErrorKind::FieldOutOfRange, pos, field: Field::U14 },
        ),
        valid_spec(value) ==> write_spec(value, pos, endian).is_ok(),
        write_spec(0, pos, endian).is_ok(),
        write_spec(MAX, pos, endian).is_ok(),
        parse_spec(input, pos, endian) matches Ok((parsed, _)) ==> valid_spec(parsed),
{
}

/// A valid value is parsed back from the bytes that it is written as.
pub proof fn written_is_read_back(value: u16, input: Seq<u8>, pos: usize, endian: Endian)
    requires
        valid_spec(value),
        input.len() <= usize::MAX,
        holds_at(input, pos, u16_bytes(to_raw(value), endian)),
    ensures
        parse_spec(input, pos, endian) == Ok::<(u16, usize), FormatError>(
            (value, (pos + 2) as usize),
        ),
{
    word_is_read_back(input, pos, to_raw(value), endian);
    value_round_trip(value);
}

/// Two bytes with both unused bits clear are written back from the value parsed from them.
pub proof fn read_is_written_back(input: Seq<u8>, pos: usize, endian: Endian)
    requires
        input.len() <= usize::MAX,
        available(input, pos, 2),
        canonical(word_at(input, pos, endian)),
    ensures
        parse_spec(input, pos, endian) matches Ok((value, next)) && next == pos + 2 && write_spec(
            value,
            pos,
            endian,
        ) == Ok::<Seq<u8>, FormatError>(input.subrange(pos as int, pos + 2)),
{
    word_is_written_back(input, pos, endian);
    raw_round_trip(word_at(input, pos, endian));
}

} // verus!
