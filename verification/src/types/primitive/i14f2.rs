//! The `i14f2` primitive: a signed 14-bit integer and two flags in two bytes.
//!
//! The byte read first (in big-endian order) holds the low eight bits of the value. The byte read
//! second holds the first flag in bit 7, the second flag in bit 6, and the high six bits of the
//! value, in two's complement, in bits 5 to 0.
use crate::error::{ErrorKind, Field, FormatError};
use crate::types::util::bytes::{
    available, holds_at, put_u16, take_u16, take_u16_spec, u16_bytes, word_at, word_is_read_back,
    word_is_written_back, Endian,
};
use vstd::prelude::*;

verus! {

/// The largest value of an `i14`.
pub const MAX: i16 = 8191;

/// The smallest value of an `i14`.
pub const MIN: i16 = -8192;

const FLAG_1: u8 = 0x80;

const FLAG_2: u8 = 0x40;

const MASK_I14: u16 = 0x3FFF;

const MASK_I14_HIGH: u8 = 0x3F;

const MASK_I14_LOW: u16 = 0xFF;

const SIGN_I14: u16 = 0x2000;

const SIGN_I16_FILL: u16 = 0xC000;

/// Whether `i14` lies in the range of a signed 14-bit integer.
pub open spec fn valid_spec(i14: i16) -> bool {
    MIN <= i14 <= MAX
}

/// The signed value of the 14-bit pattern `payload`, by two's complement: patterns from
/// `0x2000` on stand for `payload - 0x4000`.
pub open spec fn sign_extend(payload: int) -> int {
    if payload >= 0x2000 {
        payload - 0x4000
    } else {
        payload
    }
}

/// The 14-bit pattern of `i14` in two's complement.
pub open spec fn pattern(i14: int) -> int {
    if i14 < 0 {
        i14 + 0x4000
    } else {
        i14
    }
}

/// The quotient of `a` by the positive `b`, rounded toward zero: how a scaled value is turned
/// into its count of steps.
pub open spec fn truncating_quotient(a: int, b: int) -> int
    recommends
        b > 0,
{
    if a >= 0 {
        a / b
    } else {
        -((-a) / b)
    }
}

/// The value and the two flags that the 16-bit word `raw` carries.
pub open spec fn from_raw(raw: u16) -> (i16, bool, bool) {
    let high = raw % 256;
    let low = raw / 256;
    (sign_extend((high % 64) * 256 + low) as i16, high >= 128, high / 64 % 2 == 1)
}

/// The 16-bit word that carries `i14` and the two flags.
pub open spec fn to_raw(i14: i16, flag1: bool, flag2: bool) -> u16 {
    let payload = pattern(i14 as int);
    let high = payload / 256 + if flag1 {
        128int
    } else {
        0int
    } + if flag2 {
        64int
    } else {
        0int
    };
    let low = payload % 256;
    (low * 256 + high) as u16
}

/// What parsing an `i14f2` at `pos` gives: the value, the flags and the offset behind them, or
/// the failure.
pub open spec fn parse_spec(input: Seq<u8>, pos: usize, endian: Endian) -> Result<
    ((i16, bool, bool), usize),
    FormatError,
> {
    match take_u16_spec(input, pos, endian, Field::I14) {
        Ok((raw, next)) => Ok((from_raw(raw), next)),
        Err(e) => Err(e),
    }
}

/// What writing the value and the flags at offset `pos` gives: their two bytes, or the failure.
pub open spec fn write_spec(values: (i16, bool, bool), pos: usize, endian: Endian) -> Result<
    Seq<u8>,
    FormatError,
> {
    if valid_spec(values.0) {
        Ok(u16_bytes(to_raw(values.0, values.1, values.2), endian))
    } else {
        Err(FormatError { kind: ErrorKind::FieldOutOfRange, pos, field: Field::I14 })
    }
}

/// Whether `i14` lies in the range of a signed 14-bit integer.
pub fn valid_i14(i14: i16) -> (ok: bool)
    ensures
        ok == valid_spec(i14),
{
    MIN <= i14 && i14 <= MAX
}

/// Parses a signed 14-bit value and its two flags from the two bytes at `pos`. Every bit
/// pattern stands for a value, so this fails only when fewer than two bytes are left.
pub fn parse(input: &[u8], pos: usize, endian: Endian) -> (r: Result<
    ((i16, bool, bool), usize),
    FormatError,
>)
    ensures
        r == parse_spec(input@, pos, endian),
{
    let (raw, next) = match take_u16(input, pos, endian, Field::I14) {
        Ok(read) => read,
        Err(e) => { return Err(e); },
    };

    // extract the high and low parts
    let low: u8 = (raw >> 8) as u8;
    let high: u8 = (raw & MASK_I14_LOW) as u8;

    // extract the flags
    let flag1: bool = (high & FLAG_1) != 0;
    let flag2: bool = (high & FLAG_2) != 0;

    // assemble the integer
    let high_part: u16 = (high & MASK_I14_HIGH) as u16;
    let assembled: u16 = ((high_part << 8) | (low as u16)) & MASK_I14;
    assert(assembled == (raw % 256 % 64) * 256 + raw / 256 && flag1 == (raw % 256 >= 128) && flag2
        == (raw % 256 / 64 % 2 == 1)) by (bit_vector)
        requires
            low == (raw >> 8) as u8,
            high == (raw & 0xFF) as u8,
            flag1 == ((high & 0x80) != 0),
            flag2 == ((high & 0x40) != 0),
            high_part == (high & 0x3F) as u16,
            assembled == ((high_part << 8) | (low as u16)) & 0x3FFF,
    ;

    // extend the 14-bit sign
    let i14: i16 = if assembled >= SIGN_I14 {
        (assembled as i16) - 0x4000
    } else {
        assembled as i16
    };
    Ok(((i14, flag1, flag2), next))
}

/// Appends the two bytes of the value and its flags to `out`. A value outside 14 bits is
/// refused, and `out` is left as it was; the failure names the offset at which the bytes would
/// have begun.
pub fn write(values: &(i16, bool, bool), out: &mut Vec<u8>, endian: Endian) -> (r: Result<
    (),
    FormatError,
>)
    ensures
        match write_spec(*values, old(out)@.len() as usize, endian) {
            Ok(bytes) => r.is_ok() && final(out)@ == old(out)@ + bytes,
            Err(e) => r == Err::<(), FormatError>(e) && final(out)@ == old(out)@,
        },
{
    let (i14, flag1, flag2) = *values;

    if !valid_i14(i14) {
        return Err(FormatError::new(ErrorKind::FieldOutOfRange, out.len(), Field::I14));
    }
    let payload: u16 = if i14 < 0 {
        (i14 + 0x4000) as u16
    } else {
        i14 as u16
    };
    let mut high: u8 = (payload >> 8) as u8 & MASK_I14_HIGH;
    let low: u8 = (payload & MASK_I14_LOW) as u8;
    let ghost bare = high;

    if flag1 {
        high |= FLAG_1;
    }
    let ghost flagged = high;

    if flag2 {
        high |= FLAG_2;
    }

    let raw: u16 = ((low as u16) << 8) | (high as u16);
    assert(raw == (payload % 256) * 256 + payload / 256 + if flag1 {
        128int
    } else {
        0int
    } + if flag2 {
        64int
    } else {
        0int
    }) by (bit_vector)
        requires
            payload <= 0x3FFF,
            bare == (payload >> 8) as u8 & 0x3F,
            low == (payload & 0xFF) as u8,
            flagged == if flag1 {
                bare | 0x80
            } else {
                bare
            },
            high == if flag2 {
                flagged | 0x40
            } else {
                flagged
            },
            raw == ((low as u16) << 8) | (high as u16),
    ;
    put_u16(raw, endian, out);
    Ok(())
}

/// Sign extension is two's-complement arithmetic on a 14-bit width: every word carries a value
/// in range, the all-zero pattern is 0, the all-one pattern is -1, and the pattern with only
/// the sign bit set is the smallest value.
pub proof fn sign_extension(raw: u16)
    ensures
        valid_spec(from_raw(raw).0),
        from_raw(raw).0 == sign_extend((raw % 256 % 64) * 256 + raw / 256),
        sign_extend(0x0000) == 0,
        sign_extend(0x3FFF) == -1,
        sign_extend(0x2000) == MIN,
        sign_extend(0x1FFF) == MAX,
        forall|payload: int| 0 <= payload < 0x4000
            ==> #[trigger] pattern(sign_extend(payload)) == payload,
{
}

/// A valid value and its flags are read back from the word that carries them.
pub proof fn value_round_trip(i14: i16, flag1: bool, flag2: bool)
    requires
        valid_spec(i14),
    ensures
        from_raw(to_raw(i14, flag1, flag2)) == (i14, flag1, flag2),
{
}

/// Every word is written back from the value and the flags that it carries.
pub proof fn raw_round_trip(raw: u16)
    ensures
        to_raw(from_raw(raw).0, from_raw(raw).1, from_raw(raw).2) == raw,
{
}

/// A value outside 14 bits is never written, both bounds of the range are, and every value
/// that is parsed lies in 14 bits.
pub proof fn range_is_enforced(
    values: (i16, bool, bool),
    input: Seq<u8>,
    pos: usize,
    endian: Endian,
)
    ensures
        !valid_spec(values.0) ==> write_spec(values, pos, endian) == Err::<Seq<u8>, FormatError>(
            FormatError { kind: ErrorKind::FieldOutOfRange, pos, field: Field::I14 },
        ),
        valid_spec(values.0) ==> write_spec(values, pos, endian).is_ok(),
        write_spec((MIN, values.1, values.2), pos, endian).is_ok(),
        write_spec((MAX, values.1, values.2), pos, endian).is_ok(),
        parse_spec(input, pos, endian) matches Ok((parsed, _)) ==> valid_spec(parsed.0),
{
}

/// A valid value and its flags are parsed back from the bytes that they are written as.
pub proof fn written_is_read_back(
    values: (i16, bool, bool),
    input: Seq<u8>,
    pos: usize,
    endian: Endian,
)
    requires
        valid_spec(values.0),
        input.len() <= usize::MAX,
        holds_at(input, pos, u16_bytes(to_raw(values.0, values.1, values.2), endian)),
    ensures
        parse_spec(input, pos, endian) == Ok::<((i16, bool, bool), usize), FormatError>(
            (values, (pos + 2) as usize),
        ),
{
    word_is_read_back(input, pos, to_raw(values.0, values.1, values.2), endian);
    value_round_trip(values.0, values.1, values.2);
}

/// Any two bytes are written back from the value and the flags parsed from them.
pub proof fn read_is_written_back(input: Seq<u8>, pos: usize, endian: Endian)
    requires
        input.len() <= usize::MAX,
        available(input, pos, 2),
    ensures
        parse_spec(input, pos, endian) matches Ok((values, next)) && next == pos + 2 && write_spec(
            values,
            pos,
            endian,
        ) == Ok::<Seq<u8>, FormatError>(input.subrange(pos as int, pos + 2)),
{
    word_is_written_back(input, pos, endian);
    raw_round_trip(word_at(input, pos, endian));
    sign_extension(word_at(input, pos, endian));
}

} // verus!
