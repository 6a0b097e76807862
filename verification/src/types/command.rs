//! The command byte of a switch record.
use crate::error::{ErrorKind, Field, FormatError};
use crate::types::profile_point_detection::ProfilePointDetection;
use crate::types::step_direction::StepDirection;
use crate::types::util::bytes::{holds_at, take_u8, take_u8_spec};
use crate::types::util::primitive::{read_u8_bits, write_u8_bits, Primitive};
use vstd::prelude::*;

verus! {

const MASK_PROFILE_POINT_DETECTION: u8 = 0x01;

const MASK_STEP_DIRECTION: u8 = 0x40;

const SHIFT_STEP_DIRECTION: usize = 6;

/// The command byte of a switch record: profile point detection in bit 0, step direction in bit 6.
#[derive(Debug, Clone, Copy, PartialEq, Eq, Structural)]
pub struct Command {
    pub profile_point_detection: ProfilePointDetection,
    pub step_direction: StepDirection,
}

impl Command {
    /// The value with these fields.
    pub fn new(
        profile_point_detection: ProfilePointDetection,
        step_direction: StepDirection,
    ) -> (r: Self)
        ensures
            r == (Command { profile_point_detection, step_direction }),
    {
        Command { profile_point_detection, step_direction }
    }

    /// The number in bit 0 of `raw`.
    pub open spec fn profile_point_detection_bits(raw: u8) -> u8 {
        (raw % 2) as u8
    }

    /// The number in bit 6 of `raw`.
    pub open spec fn step_direction_bits(raw: u8) -> u8 {
        (raw / 64 % 2) as u8
    }

    /// What the byte `raw` stands for; `pos` is the offset that a failure names. The fields
    /// are read in the order in which they are declared, and the first one whose bits stand
    /// for no value fails.
    pub open spec fn from_byte(raw: u8, pos: usize) -> Result<Command, FormatError> {
        if ProfilePointDetection::from_code(Self::profile_point_detection_bits(raw)).is_none() {
            Err(
                FormatError {
                    kind: ErrorKind::InvalidEnumValue,
                    pos,
                    field: Field::ProfilePointDetection,
                }
            )
        } else if StepDirection::from_code(Self::step_direction_bits(raw)).is_none() {
            Err(FormatError { kind: ErrorKind::InvalidEnumValue, pos, field: Field::StepDirection })
        } else {
            Ok(
                Command {
                    profile_point_detection: ProfilePointDetection::from_code(
                        Self::profile_point_detection_bits(raw)
                    ).unwrap(),
                    step_direction: StepDirection::from_code(
                        Self::step_direction_bits(raw)
                    ).unwrap(),
                },
            )
        }
    }

    /// The byte that stands for the value: every field at its place, every other bit clear.
    pub open spec fn to_byte(self) -> u8 {
        (
            self.profile_point_detection.code().unwrap() + self.step_direction.code().unwrap() * 64
        ) as u8
    }

    /// Whether every bit of `raw` that belongs to no field is clear.
    pub open spec fn canonical(raw: u8) -> bool {
        Self::profile_point_detection_bits(raw) + Self::step_direction_bits(raw) * 64 == raw
    }

    /// What parsing at `pos` gives: the value and the offset behind it, or the failure,
    /// which names the offset behind the byte.
    pub open spec fn parse_spec(
        input: Seq<u8>,
        pos: usize,
    ) -> Result<(Command, usize), FormatError> {
        match take_u8_spec(input, pos, Field::Command) {
            Ok((raw, next)) => match Self::from_byte(raw, next) {
                Ok(value) => Ok((value, next)),
                Err(e) => Err(e),
            },
            Err(e) => Err(e),
        }
    }

    /// What writing the value gives: its byte.
    pub open spec fn write_spec(self) -> Seq<u8> {
        seq![self.to_byte()]
    }

    /// Parses the value from the byte at `pos`.
    pub fn parse(input: &[u8], pos: usize) -> (r: Result<(Command, usize), FormatError>)
        ensures
            r == Self::parse_spec(input@, pos),
    {
        let (raw, next) = match take_u8(input, pos, Field::Command) {
            Ok(read) => read,
            Err(e) => { return Err(e); },
        };
        assert((raw & 0x01) >> 0usize == raw % 2
            && (raw & 0x40) >> 6usize == raw / 64 % 2) by (bit_vector);
        let profile_point_detection = match read_u8_bits::<ProfilePointDetection>(
            raw,
            MASK_PROFILE_POINT_DETECTION,
            0,
            next,
        ) {
            Ok(value) => value,
            Err(e) => { return Err(e); },
        };
        let step_direction = match read_u8_bits::<StepDirection>(
            raw,
            MASK_STEP_DIRECTION,
            SHIFT_STEP_DIRECTION,
            next,
        ) {
            Ok(value) => value,
            Err(e) => { return Err(e); },
        };
        Ok((Command { profile_point_detection, step_direction }, next))
    }

    /// Appends the byte of the value to `out`: the contributions of the fields, combined by
    /// bitwise or.
    pub fn write(&self, out: &mut Vec<u8>) -> (r: Result<(), FormatError>)
        ensures
            r.is_ok(),
            final(out)@ == old(out)@ + self.write_spec(),
    {
        let mut raw: u8 = 0;
        let pos: usize = out.len();

        raw |= match write_u8_bits(
            self.profile_point_detection,
            MASK_PROFILE_POINT_DETECTION,
            0,
            pos,
        ) {
            Ok(bits) => bits,
            Err(e) => { return Err(e); },
        };
        let ghost step0 = raw;
        raw |= match write_u8_bits(
            self.step_direction,
            MASK_STEP_DIRECTION,
            SHIFT_STEP_DIRECTION,
            pos,
        ) {
            Ok(bits) => bits,
            Err(e) => { return Err(e); },
        };
        let ghost step1 = raw;
        proof {
            let c0: u8 = self.profile_point_detection.code().unwrap();
            let c1: u8 = self.step_direction.code().unwrap();
            assert(step1 == c0 + c1 * 64) by (bit_vector)
                requires
                    c0 < 2,
                    step0 == 0u8 | ((c0 << 0usize) & 0x01),
                    c1 < 2,
                    step1 == step0 | ((c1 << 6usize) & 0x40),
            ;
        }
        out.push(raw);
        assert(out@ =~= old(out)@ + self.write_spec());
        Ok(())
    }

    /// Every value is read back from its byte.
    pub proof fn byte_is_read_back(self, pos: usize)
        ensures
            Self::from_byte(self.to_byte(), pos) == Ok::<Command, FormatError>(self),
    {
        self.profile_point_detection.code_is_read_back();
        self.step_direction.code_is_read_back();
    }

    /// Every value is parsed back from the byte that it is written as.
    pub proof fn written_is_read_back(self, input: Seq<u8>, pos: usize)
        requires
            input.len() <= usize::MAX,
            holds_at(input, pos, self.write_spec()),
        ensures
            Self::parse_spec(input, pos) == Ok::<(Command, usize), FormatError>(
                (self, (pos + 1) as usize),
            ),
    {
        assert(input[pos as int] == input.subrange(pos as int, pos + 1)[0]);
        self.byte_is_read_back((pos + 1) as usize);
    }

    /// A byte that parses, and whose bits outside the fields are clear, is written back from
    /// the value parsed from it.
    pub proof fn read_is_written_back(input: Seq<u8>, pos: usize)
        requires
            input.len() <= usize::MAX,
            Self::parse_spec(input, pos).is_ok(),
            Self::canonical(input[pos as int]),
        ensures
            Self::parse_spec(input, pos) matches Ok((value, next)) && next == pos + 1
                && value.write_spec() == input.subrange(pos as int, pos + 1),
    {
        let raw = input[pos as int];
        ProfilePointDetection::read_is_coded_back(Self::profile_point_detection_bits(raw));
        StepDirection::read_is_coded_back(Self::step_direction_bits(raw));
        assert(input.subrange(pos as int, pos + 1) =~= seq![raw]);
    }
}

} // verus!
