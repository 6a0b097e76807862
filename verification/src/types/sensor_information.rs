//! Which readings of the external sensor are valid, packed in one byte.
use crate::error::{Field, FormatError};
use crate::types::util::bytes::{holds_at, take_u8, take_u8_spec};
use vstd::prelude::*;
use vstd::string::StringExecFns;

verus! {

const FLAG_PITCH_VALID: u8 = 0x01;

const FLAG_ROLL_VALID: u8 = 0x02;

const FLAG_DISTANCE_VALID: u8 = 0x04;

/// Which readings of the external sensor are valid: pitch in bit 0, roll in bit 1, distance in bit
/// 2.
#[derive(Debug, Clone, Copy, PartialEq, Eq, Structural)]
pub struct SensorInformation {
    pub pitch_valid: bool,
    pub roll_valid: bool,
    pub distance_valid: bool,
}

impl SensorInformation {
    /// The value with these fields.
    pub fn new(pitch_valid: bool, roll_valid: bool, distance_valid: bool) -> (r: Self)
        ensures
            r == (SensorInformation { pitch_valid, roll_valid, distance_valid }),
    {
        SensorInformation { pitch_valid, roll_valid, distance_valid }
    }

    /// The number in bit 0 of `raw`.
    pub open spec fn pitch_valid_bits(raw: u8) -> u8 {
        (raw % 2) as u8
    }

    /// The number in bit 1 of `raw`.
    pub open spec fn roll_valid_bits(raw: u8) -> u8 {
        (raw / 2 % 2) as u8
    }

    /// The number in bit 2 of `raw`.
    pub open spec fn distance_valid_bits(raw: u8) -> u8 {
        (raw / 4 % 2) as u8
    }

    /// What the byte `raw` stands for; `pos` is the offset that a failure names. The fields
    /// are read in the order in which they are declared, and the first one whose bits stand
    /// for no value fails.
    pub open spec fn from_byte(raw: u8, pos: usize) -> Result<SensorInformation, FormatError> {
        {
            Ok(
                SensorInformation {
                    pitch_valid: Self::pitch_valid_bits(raw) == 1,
                    roll_valid: Self::roll_valid_bits(raw) == 1,
                    distance_valid: Self::distance_valid_bits(raw) == 1,
                },
            )
        }
    }

    /// The byte that stands for the value: every field at its place, every other bit clear.
    pub open spec fn to_byte(self) -> u8 {
        ((if self.pitch_valid {
            1int
        } else {
            0int
        }) + (if self.roll_valid {
            2int
        } else {
            0int
        }) + (if self.distance_valid {
            4int
        } else {
            0int
        })) as u8
    }

    /// Whether every bit of `raw` that belongs to no field is clear.
    pub open spec fn canonical(raw: u8) -> bool {
        Self::pitch_valid_bits(raw) + Self::roll_valid_bits(raw) * 2
            + Self::distance_valid_bits(raw) * 4 == raw
    }

    /// What parsing at `pos` gives: the value and the offset behind it, or the failure,
    /// which names the offset behind the byte.
    pub open spec fn parse_spec(
        input: Seq<u8>,
        pos: usize,
    ) -> Result<(SensorInformation, usize), FormatError> {
        match take_u8_spec(input, pos, Field::SensorInformation) {
            Ok((raw, next)) => match Self::from_byte(raw, next) {
                Ok(value) => Ok((value, next)),
                Err(e) => Err(e),
            },
            Err(e) => Err(e),
        }
    }

    /// What writing the value gives: its byte.
    pub open spec fn write_spec(self) -> Seq<u8> {
        seq![self.to_byte()]
    }

    /// The word for a validity flag.
    pub open spec fn fmt_valid_spec(valid: bool) -> Seq<char> {
        if valid {
            "valid"@
        } else {
            "invalid"@
        }
    }

    /// The flags in words.
    pub open spec fn text(self) -> Seq<char> {
        "(pitch: "@ + Self::fmt_valid_spec(self.pitch_valid) + ", roll: "@ + Self::fmt_valid_spec(
            self.roll_valid,
        ) + ", distance: "@ + Self::fmt_valid_spec(self.distance_valid) + ")"@
    }

    /// The word for a validity flag.
    pub fn fmt_valid(valid: bool) -> (r: &'static str)
        ensures
            r@ == Self::fmt_valid_spec(valid),
    {
        if valid {
            "valid"
        } else {
            "invalid"
        }
    }

    /// The flags in words.
    pub fn to_string(&self) -> (r: String)
        ensures
            r@ == self.text(),
    {
        let mut message = String::from_str("(pitch: ");
        message.append(Self::fmt_valid(self.pitch_valid));
        message.append(", roll: ");
        message.append(Self::fmt_valid(self.roll_valid));
        message.append(", distance: ");
        message.append(Self::fmt_valid(self.distance_valid));
        message.append(")");
        message
    }

    /// Parses the value from the byte at `pos`.
    pub fn parse(input: &[u8], pos: usize) -> (r: Result<(SensorInformation, usize), FormatError>)
        ensures
            r == Self::parse_spec(input@, pos),
    {
        let (raw, next) = match take_u8(input, pos, Field::SensorInformation) {
            Ok(read) => read,
            Err(e) => { return Err(e); },
        };
        assert(((raw & 0x01) != 0) == ((raw % 2) == 1)
            && ((raw & 0x02) != 0) == ((raw / 2 % 2) == 1)
            && ((raw & 0x04) != 0) == ((raw / 4 % 2) == 1)) by (bit_vector);
        let pitch_valid: bool = (raw & FLAG_PITCH_VALID) != 0;
        let roll_valid: bool = (raw & FLAG_ROLL_VALID) != 0;
        let distance_valid: bool = (raw & FLAG_DISTANCE_VALID) != 0;
        Ok((SensorInformation { pitch_valid, roll_valid, distance_valid }, next))
    }

    /// Appends the byte of the value to `out`: the contributions of the fields, combined by
    /// bitwise or.
    pub fn write(&self, out: &mut Vec<u8>) -> (r: Result<(), FormatError>)
        ensures
            r.is_ok(),
            final(out)@ == old(out)@ + self.write_spec(),
    {
        let mut raw: u8 = 0;

        if self.pitch_valid {
            raw |= FLAG_PITCH_VALID;
        }
        let ghost step0 = raw;
        if self.roll_valid {
            raw |= FLAG_ROLL_VALID;
        }
        let ghost step1 = raw;
        if self.distance_valid {
            raw |= FLAG_DISTANCE_VALID;
        }
        let ghost step2 = raw;
        proof {
            let c0: u8 = if self.pitch_valid {
                1u8
            } else {
                0u8
            };
            let c1: u8 = if self.roll_valid {
                1u8
            } else {
                0u8
            };
            let c2: u8 = if self.distance_valid {
                1u8
            } else {
                0u8
            };
            assert(step2 == c0 + c1 * 2 + c2 * 4) by (bit_vector)
                requires
                    c0 <= 1,
                    step0 == if c0 == 1 {
                        0u8 | 0x01
                    } else {
                        0u8
                    },
                    c1 <= 1,
                    step1 == if c1 == 1 {
                        step0 | 0x02
                    } else {
                        step0
                    },
                    c2 <= 1,
                    step2 == if c2 == 1 {
                        step1 | 0x04
                    } else {
                        step1
                    },
            ;
        }
        out.push(raw);
        assert(out@ =~= old(out)@ + self.write_spec());
        Ok(())
    }

    /// Every value is read back from its byte.
    pub proof fn byte_is_read_back(self, pos: usize)
        ensures
            Self::from_byte(self.to_byte(), pos) == Ok::<SensorInformation, FormatError>(self),
    {
    }

    /// Every value is parsed back from the byte that it is written as.
    pub proof fn written_is_read_back(self, input: Seq<u8>, pos: usize)
        requires
            input.len() <= usize::MAX,
            holds_at(input, pos, self.write_spec()),
        ensures
            Self::parse_spec(input, pos) == Ok::<(SensorInformation, usize), FormatError>(
                (self, (pos + 1) as usize),
            ),
    {
        assert(input[pos as int] == input.subrange(pos as int, pos + 1)[0]);
        self.byte_is_read_back((pos + 1) as usize);
    }

    /// A byte that parses, and whose bits outside the fields are clear, is written back from
    /// the value parsed from it.
    pub proof fn read_is_written_back(input: Seq<u8>, pos: usize)
        requires
            input.len() <= usize::MAX,
            Self::parse_spec(input, pos).is_ok(),
            Self::canonical(input[pos as int]),
        ensures
            Self::parse_spec(input, pos) matches Ok((value, next)) && next == pos + 1
                && value.write_spec() == input.subrange(pos as int, pos + 1),
    {
        let raw = input[pos as int];
        assert(input.subrange(pos as int, pos + 1) =~= seq![raw]);
    }
}

impl Default for SensorInformation {
    fn default() -> (r: Self)
        ensures
            r == (SensorInformation { pitch_valid: true, roll_valid: true, distance_valid: true }),
    {
        SensorInformation { pitch_valid: true, roll_valid: true, distance_valid: true }
    }
}

} // verus!
