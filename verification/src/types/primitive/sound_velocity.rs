//! The **Sound Velocity** primitive: the speed of sound in tenths of a metre per second, from
//! 0.0 to 3276.7 m/s, in two bytes. The top bit selects the default of 1500.0 m/s, whatever the
//! other 15 bits hold; with the top bit clear the other 15 bits are the value.
use crate::error::{ErrorKind, Field, FormatError};
use crate::types::util::bytes::{
    available, holds_at, put_u16, take_u16, take_u16_spec, u16_bytes, word_at, word_is_read_back,
    word_is_written_back, Endian,
};
use vstd::prelude::*;

verus! {

/// The smallest valid value.
pub const MIN: i32 = 0;

/// The largest valid value.
pub const MAX: i32 = 32_767;

/// The default: 1500.0 m/s.
pub const V_VALUE: i32 = 15_000;

const MASK: u16 = 0x7FFF;

const MASK_V: u16 = 0x8000;

/// Whether `sound_velocity` lies in the valid range.
pub open spec fn valid_spec(sound_velocity: i32) -> bool {
    MIN <= sound_velocity <= MAX
}

/// The value that the 16-bit word `raw` carries: the default where the top bit is set, else
/// the low 15 bits.
pub open spec fn from_raw(raw: u16) -> i32 {
    if raw >= 0x8000 {
        V_VALUE
    } else {
        raw as i32
    }
}

/// The 16-bit word that carries `sound_velocity`: the top bit alone for the default, else the
/// value itself.
pub open spec fn to_raw(sound_velocity: i32) -> u16 {
    if sound_velocity == V_VALUE {
        0x8000
    } else {
        sound_velocity as u16
    }
}

/// Whether `raw` is the word that its value is written as: the top bit alone, or a value other
/// than the default with the top bit clear.
pub open spec fn canonical(raw: u16) -> bool {
    raw == 0x8000 || (raw < 0x8000 && raw != V_VALUE)
}

/// What parsing at `pos` gives: the value and the offset behind it, or the failure.
pub open spec fn parse_spec(input: Seq<u8>, pos: usize, endian: Endian) -> Result<
    (i32, usize),
    FormatError,
> {
    match take_u16_spec(input, pos, endian, Field::SoundVelocity) {
        Ok((raw, next)) => Ok((from_raw(raw), next)),
        Err(e) => Err(e),
    }
}

/// What writing `sound_velocity` at offset `pos` gives: its two bytes, or the failure.
pub open spec fn write_spec(sound_velocity: i32, pos: usize, endian: Endian) -> Result<
    Seq<u8>,
    FormatError,
> {
    if valid_spec(sound_velocity) {
        Ok(u16_bytes(to_raw(sound_velocity), endian))
    } else {
        Err(FormatError { kind: ErrorKind::FieldOutOfRange, pos, field: Field::SoundVelocity })
    }
}

/// Validate the **Sound Velocity**, in tenths of a metre per second.
pub fn valid(sound_velocity: i32) -> (ok: bool)
    ensures
        ok == valid_spec(sound_velocity),
{
    MIN <= sound_velocity && sound_velocity <= MAX
}

/// Parses the **Sound Velocity**, in tenths of a metre per second, from the two bytes at
/// `pos`. Every word stands for a value, so this fails only when fewer than two bytes are left.
pub fn parse(input: &[u8], pos: usize, endian: Endian) -> (r: Result<(i32, usize), FormatError>)
    ensures
        r == parse_spec(input@, pos, endian),
        r matches Ok((value, _)) ==> valid_spec(value),
{
    let (raw, next) = match take_u16(input, pos, endian, Field::SoundVelocity) {
        Ok(read) => read,
        Err(e) => { return Err(e); },
    };
    let flag: u16 = raw & MASK_V;
    let masked: u16 = raw & MASK;
    assert((flag != 0) == (raw >= 0x8000) && (raw < 0x8000 ==> masked == raw)) by (bit_vector)
        requires
            flag == raw & 0x8000,
            masked == raw & 0x7FFF,
    ;

    if flag != 0 {
        return Ok((V_VALUE, next));
    }
    Ok((masked as i32, next))
}

/// Appends the two bytes of the **Sound Velocity** to `out`. A value out of range is refused,
/// and `out` is left as it was; the failure names the offset at which the bytes would have
/// begun.
pub fn write(sound_velocity: &i32, out: &mut Vec<u8>, endian: Endian) -> (r: Result<
    (),
    FormatError,
>)
    ensures
        match write_spec(*sound_velocity, old(out)@.len() as usize, endian) {
            Ok(bytes) => r.is_ok() && final(out)@ == old(out)@ + bytes,
            Err(e) => r == Err::<(), FormatError>(e) && final(out)@ == old(out)@,
        },
{
    if !valid(*sound_velocity) {
        return Err(FormatError::new(ErrorKind::FieldOutOfRange, out.len(), Field::SoundVelocity));
    }
    if *sound_velocity == V_VALUE {
        put_u16(MASK_V, endian, out);
        return Ok(());
    }
    let value: u16 = *sound_velocity as u16;
    let raw: u16 = value & MASK;
    assert(raw == value) by (bit_vector)
        requires
            value <= 0x7FFF,
            raw == value & 0x7FFF,
    ;
    put_u16(raw, endian, out);
    Ok(())
}

/// The default is always written as the top bit alone, and every word with the top bit set
/// is read as the default, whatever its other 15 bits hold.
pub proof fn sentinel(raw: u16, pos: usize, endian: Endian)
    ensures
        write_spec(V_VALUE, pos, endian) == Ok::<Seq<u8>, FormatError>(u16_bytes(0x8000, endian)),
        raw >= 0x8000 ==> from_raw(raw) == V_VALUE,
{
}

/// A valid value is parsed back from the bytes that it is written as.
pub proof fn written_is_read_back(sound_velocity: i32, input: Seq<u8>, pos: usize, endian: Endian)
    requires
        valid_spec(sound_velocity),
        input.len() <= usize::MAX,
        holds_at(input, pos, u16_bytes(to_raw(sound_velocity), endian)),
    ensures
        parse_spec(input, pos, endian) == Ok::<(i32, usize), FormatError>(
            (sound_velocity, (pos + 2) as usize),
        ),
{
    word_is_read_back(input, pos, to_raw(sound_velocity), endian);
}

/// Two bytes that hold a canonical word are written back from the value parsed from them.
pub proof fn read_is_written_back(input: Seq<u8>, pos: usize, endian: Endian)
    requires
        input.len() <= usize::MAX,
        available(input, pos, 2),
        canonical(word_at(input, pos, endian)),
    ensures
        parse_spec(input, pos, endian) matches Ok((value, next)) && next == pos + 2 && valid_spec(
            value,
        ) && write_spec(value, pos, endian) == Ok::<Seq<u8>, FormatError>(
            input.subrange(pos as int, pos + 2),
        ),
{
    word_is_written_back(input, pos, endian);
}

/// A value outside the valid range is never written, every value that is parsed is valid, and
/// both bounds of the range are written.
pub proof fn range_is_enforced(sound_velocity: i32, input: Seq<u8>, pos: usize, endian: Endian)
    ensures
        !valid_spec(sound_velocity) ==> write_spec(sound_velocity, pos, endian) == Err::<
            Seq<u8>,
            FormatError,
        >(FormatError { kind: ErrorKind::FieldOutOfRange, pos, field: Field::SoundVelocity }),
        valid_spec(sound_velocity) ==> write_spec(sound_velocity, pos, endian).is_ok(),
        write_spec(MIN, pos, endian).is_ok(),
        write_spec(MAX, pos, endian).is_ok(),
        parse_spec(input, pos, endian) matches Ok((value, _)) ==> valid_spec(value),
{
}

} // verus!
