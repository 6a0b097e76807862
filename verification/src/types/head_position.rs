//! The position of the sonar head: its angle and the direction in which it turns, in two bytes.
//!
//! The byte read first (in big-endian order) holds the low seven bits of a 13-bit count in
//! bits 6 to 0. The byte read second holds the direction in bit 6, the high five bits of the
//! count in bits 5 to 1, and bit 7 of the count in bit 0. Bit 7 of either byte is unused. The
//! count is in steps of 0.3 degrees, and 600 stands for 0 degrees.
use crate::error::{ErrorKind, Field, FormatError};
use crate::types::direction::Direction;
use crate::types::util::bytes::{
    holds_at, put_u16, take_u16, take_u16_spec, u16_bytes, word_at, word_is_read_back,
    word_is_written_back, Endian,
};
use crate::types::util::primitive::{read_u8_bits, write_u8_bits, Primitive};
use std::cmp::Ordering;
use vstd::prelude::*;
use vstd::std_specs::cmp::PartialEqSpecImpl;
use vstd::std_specs::cmp::PartialOrdSpecImpl;
use vstd::string::StringExecFns;

verus! {

/// The position of the sonar head. Two positions compare by their angle alone.
#[derive(Debug, Clone, Copy)]
pub struct HeadPosition {
    /// The angle in tenths of a degree.
    pub angle: i32,
    /// The direction in which the head turns.
    pub direction: Direction,
}

impl HeadPosition {
    /// The smallest valid angle: -180 degrees.
    pub const MIN: i32 = -1800;

    /// The largest valid angle: 180 degrees.
    pub const MAX: i32 = 1800;

    /// The tenths of a degree in one step of the count.
    pub const SCALE: i32 = 3;

    /// The count that stands for 0 degrees.
    pub const ZERO: i32 = 600;

    const FLAG_DIRECTION: u8 = 0x40;

    const SHIFT_DIRECTION: usize = 6;

    /// The position with this angle and direction.
    pub fn new(angle: i32, direction: Direction) -> (r: Self)
        ensures
            r == (HeadPosition { angle, direction }),
    {
        HeadPosition { angle, direction }
    }

    /// Whether the angle lies in the valid range.
    pub open spec fn valid_spec(self) -> bool {
        Self::MIN <= self.angle <= Self::MAX
    }

    /// Whether the position is one that the wire carries exactly: valid, and a whole number
    /// of steps.
    pub open spec fn exact(self) -> bool {
        self.valid_spec() && self.angle % Self::SCALE == 0
    }

    /// The 13-bit count that the 16-bit word `raw` carries.
    pub open spec fn count_of(raw: u16) -> int {
        let first = raw / 256;
        let second = raw % 256;
        (second / 2 % 32) * 256 + (second % 2) * 128 + first % 128
    }

    /// The direction that the 16-bit word `raw` carries.
    pub open spec fn direction_of(raw: u16) -> Direction {
        if raw % 256 / 64 % 2 == 1 {
            Direction::Clockwise
        } else {
            Direction::Counterclockwise
        }
    }

    /// The angle that `count` stands for.
    pub open spec fn angle_of(count: int) -> int {
        Self::SCALE * (count - Self::ZERO)
    }

    /// The count that stands for the angle: the angle over the scale, rounded to the nearest,
    /// counted from the count of 0 degrees.
    pub open spec fn count(self) -> int {
        (self.angle + 1) / (Self::SCALE as int) + Self::ZERO
    }

    /// The 16-bit word that carries the position, with both unused bits clear.
    pub open spec fn to_raw(self) -> u16 {
        let count = self.count();
        let first = count % 128;
        let second = (if self.direction == Direction::Clockwise {
            64int
        } else {
            0int
        }) + (count / 256 % 32) * 2 + count / 128 % 2;
        (first * 256 + second) as u16
    }

    /// Whether both unused bits of `raw` are clear.
    pub open spec fn canonical(raw: u16) -> bool {
        raw / 256 < 128 && raw % 256 < 128
    }

    /// What parsing at `pos` gives: the position and the offset behind it, or the failure. A
    /// word that carries an angle out of range fails at the offset behind it.
    pub open spec fn parse_spec(input: Seq<u8>, pos: usize, endian: Endian) -> Result<
        (HeadPosition, usize),
        FormatError,
    > {
        match take_u16_spec(input, pos, endian, Field::HeadPosition) {
            Ok((raw, next)) => {
                let angle = Self::angle_of(Self::count_of(raw));
                if Self::MIN <= angle <= Self::MAX {
                    Ok(
                        (
                            HeadPosition {
                                angle: angle as i32,
                                direction: Self::direction_of(raw),
                            },
                            next,
                        )
                    )
                } else {
                    Err(
                        FormatError {
                            kind: ErrorKind::FieldOutOfRange,
                            pos: next,
                            field: Field::HeadPosition,
                        },
                    )
                }
            },
            Err(e) => Err(e),
        }
    }

    /// What writing the position at offset `pos` gives: its two bytes, or the failure.
    pub open spec fn write_spec(self, pos: usize, endian: Endian) -> Result<Seq<u8>, FormatError> {
        if self.valid_spec() {
            Ok(u16_bytes(self.to_raw(), endian))
        } else {
            Err(FormatError { kind: ErrorKind::FieldOutOfRange, pos, field: Field::HeadPosition })
        }
    }

    /// Whether the angle lies in the valid range, from -180 to 180 degrees.
    pub fn valid(&self) -> (ok: bool)
        ensures
            ok == self.valid_spec(),
    {
        Self::MIN <= self.angle && self.angle <= Self::MAX
    }

    /// Parses the head position from the two bytes at `pos`.
    pub fn parse(input: &[u8], pos: usize, endian: Endian) -> (r: Result<
        (HeadPosition, usize),
        FormatError,
    >)
        ensures
            r == Self::parse_spec(input@, pos, endian),
            r matches Ok((value, _)) ==> value.exact(),
    {
        let (raw, next) = match take_u16(input, pos, endian, Field::HeadPosition) {
            Ok(read) => read,
            Err(e) => { return Err(e); },
        };

        // extract the high and low parts
        let high: u8 = (raw >> 8) as u8;
        let low: u8 = (raw & 0xFF) as u8;

        // assemble the value
        let high_part: u8 = (low & 0x3E) >> 1;
        let low_part: u8 = (high & 0x7F) | (low & 0x01) << 7;
        let value: u16 = ((high_part as u16) << 8) | (low_part as u16);
        let ghost bit: u8 = (low & 0x40) >> 6usize;
        assert(value == (raw % 256 / 2 % 32) * 256 + (raw % 256 % 2) * 128 + raw / 256 % 128 && bit
            == raw % 256 / 64 % 2) by (bit_vector)
            requires
                high == (raw >> 8) as u8,
                low == (raw & 0xFF) as u8,
                high_part == (low & 0x3E) >> 1,
                low_part == (high & 0x7F) | (low & 0x01) << 7,
                value == ((high_part as u16) << 8) | (low_part as u16),
                bit == (low & 0x40) >> 6usize,
        ;

        // extract the direction enum
        let direction = match read_u8_bits::<Direction>(
            low,
            Self::FLAG_DIRECTION,
            Self::SHIFT_DIRECTION,
            next,
        ) {
            Ok(direction) => direction,
            Err(e) => { return Err(e); },
        };

        // convert the value to an angle
        let angle: i32 = Self::SCALE * (value as i32 - Self::ZERO);
        let position = HeadPosition { angle, direction };
        if !position.valid() {
            return Err(FormatError::new(ErrorKind::FieldOutOfRange, next, Field::HeadPosition));
        }
        Ok((position, next))
    }

    /// Appends the two bytes of the head position to `out`. An angle out of range is refused,
    /// and `out` is left as it was; the failure names the offset at which the bytes would have
    /// begun.
    pub fn write(&self, out: &mut Vec<u8>, endian: Endian) -> (r: Result<(), FormatError>)
        ensures
            match self.write_spec(old(out)@.len() as usize, endian) {
                Ok(bytes) => r.is_ok() && final(out)@ == old(out)@ + bytes,
                Err(e) => r == Err::<(), FormatError>(e) && final(out)@ == old(out)@,
            },
    {
        let pos: usize = out.len();
        if !self.valid() {
            return Err(FormatError::new(ErrorKind::FieldOutOfRange, pos, Field::HeadPosition));
        }
        let value: u16 = ((self.angle + 1 - Self::MIN) / Self::SCALE) as u16;
        assert(value == self.count());

        // extract the high and low parts
        let high: u8 = ((value >> 8) & 0xFF) as u8;
        let low: u8 = (value & 0xFF) as u8;

        // prepare the high byte
        let high_bits: u8 = match write_u8_bits(high, 0x3E, 1, pos) {
            Ok(bits) => bits,
            Err(e) => { return Err(e); },
        };
        let carried: u8 = (low >> 7) & 0x01;
        let raw_direction: u8 = match self.direction.to_u8() {
            Some(raw) => raw,
            None => {
                return Err(FormatError::new(ErrorKind::Unrepresentable, pos, Field::Direction));
            },
        };
        let direction_bits: u8 = match write_u8_bits(
            raw_direction,
            Self::FLAG_DIRECTION,
            Self::SHIFT_DIRECTION,
            pos,
        ) {
            Ok(bits) => bits,
            Err(e) => { return Err(e); },
        };
        let high: u8 = high_bits | carried | direction_bits;

        let low: u8 = low & 0x7F;

        // combine the high and low parts into a single u16
        let raw: u16 = ((low as u16) << 8) | high as u16;
        assert(raw == (value % 128) * 256 + raw_direction * 64 + (value / 256 % 32) * 2 + value
            / 128 % 2) by (bit_vector)
            requires
                value <= 1200,
                raw_direction <= 1,
                raw == (((value & 0xFF) as u8 & 0x7F) as u16) << 8 | (((((value >> 8) & 0xFF) as u8)
                    << 1usize) & 0x3E | (((value & 0xFF) as u8 >> 7) & 0x01) | ((raw_direction
                    << 6usize) & 0x40)) as u16,
        ;
        put_u16(raw, endian, out);
        Ok(())
    }

    /// The count of an exact position is the angle over the scale, and it is read back.
    pub proof fn count_round_trip(self)
        requires
            self.exact(),
        ensures
            0 <= self.count() <= 1200,
            Self::angle_of(self.count()) == self.angle,
            Self::count_of(self.to_raw()) == self.count(),
            Self::direction_of(self.to_raw()) == self.direction,
            Self::canonical(self.to_raw()),
    {
    }

    /// An angle out of range is never written, both bounds of the range are, and every
    /// position that is parsed is in range.
    pub proof fn range_is_enforced(self, input: Seq<u8>, pos: usize, endian: Endian)
        ensures
            !self.valid_spec() ==> self.write_spec(pos, endian) == Err::<Seq<u8>, FormatError>(
                FormatError { kind: ErrorKind::FieldOutOfRange, pos, field: Field::HeadPosition },
            ),
            self.valid_spec() ==> self.write_spec(pos, endian).is_ok(),
            self.angle == Self::MIN || self.angle == Self::MAX
                ==> self.write_spec(pos, endian).is_ok(),
            Self::parse_spec(input, pos, endian) matches Ok((value, _)) ==> value.valid_spec(),
    {
    }

    /// An exact position is parsed back from the bytes that it is written as.
    pub proof fn written_is_read_back(self, input: Seq<u8>, pos: usize, endian: Endian)
        requires
            self.exact(),
            input.len() <= usize::MAX,
            holds_at(input, pos, u16_bytes(self.to_raw(), endian)),
        ensures
            Self::parse_spec(input, pos, endian) == Ok::<(HeadPosition, usize), FormatError>(
                (self, (pos + 2) as usize),
            ),
    {
        word_is_read_back(input, pos, self.to_raw(), endian);
        self.count_round_trip();
    }

    /// Two bytes with both unused bits clear that parse are written back from the position
    /// parsed from them, which is exact.
    pub proof fn read_is_written_back(input: Seq<u8>, pos: usize, endian: Endian)
        requires
            input.len() <= usize::MAX,
            Self::parse_spec(input, pos, endian).is_ok(),
            Self::canonical(word_at(input, pos, endian)),
        ensures
            Self::parse_spec(input, pos, endian) matches Ok((value, next)) && next == pos + 2
                && value.exact() && value.write_spec(pos, endian) == Ok::<Seq<u8>, FormatError>(
                input.subrange(pos as int, pos + 2),
            ),
    {
        word_is_written_back(input, pos, endian);
    }
}

/// The character of the decimal digit `digit`.
pub open spec fn digit_char(digit: int) -> char {
    (0x30 + digit % 10) as char
}

/// `number` in decimal, without leading zeros.
pub open spec fn decimal_text(number: nat) -> Seq<char>
    decreases number,
{
    if number < 10 {
        seq![digit_char(number as int)]
    } else {
        decimal_text(number / 10) + seq![digit_char(number as int)]
    }
}

/// Appends `number` in decimal to `text`.
pub fn push_decimal(text: &mut String, number: u32)
    ensures
        final(text)@ == old(text)@ + decimal_text(number as nat),
    decreases number,
{
    if number >= 10 {
        push_decimal(text, number / 10);
    }
    proof {
        reveal_strlit("0");
        reveal_strlit("1");
        reveal_strlit("2");
        reveal_strlit("3");
        reveal_strlit("4");
        reveal_strlit("5");
        reveal_strlit("6");
        reveal_strlit("7");
        reveal_strlit("8");
        reveal_strlit("9");
    }
    let ghost before = text@;
    let digit: &str = match number % 10 {
        0 => "0",
        1 => "1",
        2 => "2",
        3 => "3",
        4 => "4",
        5 => "5",
        6 => "6",
        7 => "7",
        8 => "8",
        _ => "9",
    };
    assert(digit@ =~= seq![digit_char(number as int)]);
    text.append(digit);
    assert(text@ =~= old(text)@ + decimal_text(number as nat));
}

impl HeadPosition {
    /// The size of the angle, in tenths of a degree.
    pub open spec fn magnitude(self) -> nat {
        if self.angle < 0 {
            (-self.angle) as nat
        } else {
            self.angle as nat
        }
    }

    /// The position in words: the angle in degrees with three decimals, the degree sign, and
    /// the direction.
    pub open spec fn text(self) -> Seq<char> {
        (if self.angle < 0 {
            "-"@
        } else {
            ""@
        }) + decimal_text(self.magnitude() / 10) + "."@ + decimal_text(self.magnitude() % 10)
            + "00° "@ + self.direction.text()
    }

    /// The position in words.
    pub fn to_string(&self) -> (r: String)
        ensures
            r@ == self.text(),
    {
        proof {
            reveal_strlit("");
        }
        let mut text = String::new();
        let magnitude: u32 = if self.angle < 0 {
            text.append("-");
            (-(self.angle as i64)) as u32
        } else {
            text.append("");
            self.angle as u32
        };
        push_decimal(&mut text, magnitude / 10);
        text.append(".");
        push_decimal(&mut text, magnitude % 10);
        text.append("00° ");
        let direction = self.direction.to_string();
        text.append(direction.as_str());
        text
    }
}

impl Default for HeadPosition {
    fn default() -> (r: Self)
        ensures
            r == (HeadPosition { angle: 0, direction: Direction::Counterclockwise }),
    {
        HeadPosition { angle: 0, direction: Direction::Counterclockwise }
    }
}

impl PartialEq for HeadPosition {
    fn eq(&self, other: &Self) -> (r: bool) {
        self.angle == other.angle
    }
}

impl PartialEqSpecImpl for HeadPosition {
    open spec fn obeys_eq_spec() -> bool {
        true
    }

    open spec fn eq_spec(&self, other: &Self) -> bool {
        self.angle == other.angle
    }
}

impl PartialOrd for HeadPosition {
    fn partial_cmp(&self, other: &Self) -> (r: Option<Ordering>) {
        if self.angle < other.angle {
            Some(Ordering::Less)
        } else if self.angle > other.angle {
            Some(Ordering::Greater)
        } else {
            Some(Ordering::Equal)
        }
    }
}

impl PartialOrdSpecImpl for HeadPosition {
    open spec fn obeys_partial_cmp_spec() -> bool {
        true
    }

    open spec fn partial_cmp_spec(&self, other: &Self) -> Option<Ordering> {
        if self.angle < other.angle {
            Some(Ordering::Less)
        } else if self.angle > other.angle {
            Some(Ordering::Greater)
        } else {
            Some(Ordering::Equal)
        }
    }
}

} // verus!
