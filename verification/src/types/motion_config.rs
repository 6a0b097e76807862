//! The motion settings of the head, packed in one byte.
use crate::error::{ErrorKind, Field, FormatError};
use crate::types::direction::Direction;
use crate::types::mode::Mode;
use crate::types::step_size::StepSize;
use crate::types::transducer::Transducer;
use crate::types::util::bytes::{holds_at, take_u8, take_u8_spec};
use crate::types::util::primitive::{read_u8_bits, write_u8_bits, Primitive};
use vstd::prelude::*;

verus! {

const MASK_DIRECTION: u8 = 0x80;

const SHIFT_DIRECTION: usize = 7;

const MASK_TRANSDUCER: u8 = 0x40;

const SHIFT_TRANSDUCER: usize = 6;

const MASK_MODE: u8 = 0x38;

const SHIFT_MODE: usize = 3;

const MASK_STEP_SIZE: u8 = 0x07;

/// The motion settings of the head: direction in bit 7, transducer in bit 6, mode in bits 5 to 3,
/// step size in bits 2 to 0.
#[derive(Debug, Clone, Copy, PartialEq, Eq, Structural)]
pub struct MotionConfig {
    pub direction: Direction,
    pub transducer: Transducer,
    pub mode: Mode,
    pub step_size: StepSize,
}

impl MotionConfig {
    /// The value with these fields.
    pub fn new(
        direction: Direction,
        transducer: Transducer,
        mode: Mode,
        step_size: StepSize,
    ) -> (r: Self)
        ensures
            r == (MotionConfig { direction, transducer, mode, step_size }),
    {
        MotionConfig { direction, transducer, mode, step_size }
    }

    /// The number in bit 7 of `raw`.
    pub open spec fn direction_bits(raw: u8) -> u8 {
        (raw / 128) as u8
    }

    /// The number in bit 6 of `raw`.
    pub open spec fn transducer_bits(raw: u8) -> u8 {
        (raw / 64 % 2) as u8
    }

    /// The number in bits 5 to 3 of `raw`.
    pub open spec fn mode_bits(raw: u8) -> u8 {
        (raw / 8 % 8) as u8
    }

    /// The number in bits 2 to 0 of `raw`.
    pub open spec fn step_size_bits(raw: u8) -> u8 {
        (raw % 8) as u8
    }

    /// What the byte `raw` stands for; `pos` is the offset that a failure names. The fields
    /// are read in the order in which they are declared, and the first one whose bits stand
    /// for no value fails.
    pub open spec fn from_byte(raw: u8, pos: usize) -> Result<MotionConfig, FormatError> {
        if Direction::from_code(Self::direction_bits(raw)).is_none() {
            Err(FormatError { kind: ErrorKind::InvalidEnumValue, pos, field: Field::Direction })
        } else if Transducer::from_code(Self::transducer_bits(raw)).is_none() {
            Err(FormatError { kind: ErrorKind::InvalidEnumValue, pos, field: Field::Transducer })
        } else if Mode::from_code(Self::mode_bits(raw)).is_none() {
            Err(FormatError { kind: ErrorKind::InvalidEnumValue, pos, field: Field::Mode })
        } else if StepSize::from_code(Self::step_size_bits(raw)).is_none() {
            Err(FormatError { kind: ErrorKind::InvalidEnumValue, pos, field: Field::StepSize })
        } else {
            Ok(
                MotionConfig {
                    direction: Direction::from_code(Self::direction_bits(raw)).unwrap(),
                    transducer: Transducer::from_code(Self::transducer_bits(raw)).unwrap(),
                    mode: Mode::from_code(Self::mode_bits(raw)).unwrap(),
                    step_size: StepSize::from_code(Self::step_size_bits(raw)).unwrap(),
                },
            )
        }
    }

    /// The byte that stands for the value: every field at its place, every other bit clear.
    pub open spec fn to_byte(self) -> u8 {
        (
            self.direction.code().unwrap() * 128 + self.transducer.code().unwrap() * 64
                + self.mode.code().unwrap() * 8 + self.step_size.code().unwrap()
        ) as u8
    }

    /// What parsing at `pos` gives: the value and the offset behind it, or the failure,
    /// which names the offset behind the byte.
    pub open spec fn parse_spec(
        input: Seq<u8>,
        pos: usize,
    ) -> Result<(MotionConfig, usize), FormatError> {
        match take_u8_spec(input, pos, Field::MotionConfig) {
            Ok((raw, next)) => match Self::from_byte(raw, next) {
                Ok(value) => Ok((value, next)),
                Err(e) => Err(e),
            },
            Err(e) => Err(e),
        }
    }

    /// What writing the value gives: its byte.
    pub open spec fn write_spec(self) -> Seq<u8> {
        seq![self.to_byte()]
    }

    /// Parses the value from the byte at `pos`.
    pub fn parse(input: &[u8], pos: usize) -> (r: Result<(MotionConfig, usize), FormatError>)
        ensures
            r == Self::parse_spec(input@, pos),
    {
        let (raw, next) = match take_u8(input, pos, Field::MotionConfig) {
            Ok(read) => read,
            Err(e) => { return Err(e); },
        };
        assert((raw & 0x80) >> 7usize == raw / 128
            && (raw & 0x40) >> 6usize == raw / 64 % 2
            && (raw & 0x38) >> 3usize == raw / 8 % 8
            && (raw & 0x07) >> 0usize == raw % 8) by (bit_vector);
        let direction = match read_u8_bits::<Direction>(
            raw,
            MASK_DIRECTION,
            SHIFT_DIRECTION,
            next,
        ) {
            Ok(value) => value,
            Err(e) => { return Err(e); },
        };
        let transducer = match read_u8_bits::<Transducer>(
            raw,
            MASK_TRANSDUCER,
            SHIFT_TRANSDUCER,
            next,
        ) {
            Ok(value) => value,
            Err(e) => { return Err(e); },
        };
        let mode = match read_u8_bits::<Mode>(raw, MASK_MODE, SHIFT_MODE, next) {
            Ok(value) => value,
            Err(e) => { return Err(e); },
        };
        let step_size = match read_u8_bits::<StepSize>(raw, MASK_STEP_SIZE, 0, next) {
            Ok(value) => value,
            Err(e) => { return Err(e); },
        };
        Ok((MotionConfig { direction, transducer, mode, step_size }, next))
    }

    /// Appends the byte of the value to `out`: the contributions of the fields, combined by
    /// bitwise or.
    pub fn write(&self, out: &mut Vec<u8>) -> (r: Result<(), FormatError>)
        ensures
            r.is_ok(),
            final(out)@ == old(out)@ + self.write_spec(),
    {
        let mut raw: u8 = 0;
        let pos: usize = out.len();

        raw |= match write_u8_bits(self.direction, MASK_DIRECTION, SHIFT_DIRECTION, pos) {
            Ok(bits) => bits,
            Err(e) => { return Err(e); },
        };
        let ghost step0 = raw;
        raw |= match write_u8_bits(self.transducer, MASK_TRANSDUCER, SHIFT_TRANSDUCER, pos) {
            Ok(bits) => bits,
            Err(e) => { return Err(e); },
        };
        let ghost step1 = raw;
        raw |= match write_u8_bits(self.mode, MASK_MODE, SHIFT_MODE, pos) {
            Ok(bits) => bits,
            Err(e) => { return Err(e); },
        };
        let ghost step2 = raw;
        raw |= match write_u8_bits(self.step_size, MASK_STEP_SIZE, 0, pos) {
            Ok(bits) => bits,
            Err(e) => { return Err(e); },
        };
        let ghost step3 = raw;
        proof {
            let c0: u8 = self.direction.code().unwrap();
            let c1: u8 = self.transducer.code().unwrap();
            let c2: u8 = self.mode.code().unwrap();
            let c3: u8 = self.step_size.code().unwrap();
            assert(step3 == c0 * 128 + c1 * 64 + c2 * 8 + c3) by (bit_vector)
                requires
                    c0 < 2,
                    step0 == 0u8 | ((c0 << 7usize) & 0x80),
                    c1 < 2,
                    step1 == step0 | ((c1 << 6usize) & 0x40),
                    c2 < 3,
                    step2 == step1 | ((c2 << 3usize) & 0x38),
                    c3 < 5,
                    step3 == step2 | ((c3 << 0usize) & 0x07),
            ;
        }
        out.push(raw);
        assert(out@ =~= old(out)@ + self.write_spec());
        Ok(())
    }

    /// Every value is read back from its byte.
    pub proof fn byte_is_read_back(self, pos: usize)
        ensures
            Self::from_byte(self.to_byte(), pos) == Ok::<MotionConfig, FormatError>(self),
    {
        self.direction.code_is_read_back();
        self.transducer.code_is_read_back();
        self.mode.code_is_read_back();
        self.step_size.code_is_read_back();
    }

    /// Every value is parsed back from the byte that it is written as.
    pub proof fn written_is_read_back(self, input: Seq<u8>, pos: usize)
        requires
            input.len() <= usize::MAX,
            holds_at(input, pos, self.write_spec()),
        ensures
            Self::parse_spec(input, pos) == Ok::<(MotionConfig, usize), FormatError>(
                (self, (pos + 1) as usize),
            ),
    {
        assert(input[pos as int] == input.subrange(pos as int, pos + 1)[0]);
        self.byte_is_read_back((pos + 1) as usize);
    }

    /// A byte that parses is written back from the value parsed from it.
    pub proof fn read_is_written_back(input: Seq<u8>, pos: usize)
        requires
            input.len() <= usize::MAX,
            Self::parse_spec(input, pos).is_ok(),
        ensures
            Self::parse_spec(input, pos) matches Ok((value, next)) && next == pos + 1
                && value.write_spec() == input.subrange(pos as int, pos + 1),
    {
        let raw = input[pos as int];
        Direction::read_is_coded_back(Self::direction_bits(raw));
        Transducer::read_is_coded_back(Self::transducer_bits(raw));
        Mode::read_is_coded_back(Self::mode_bits(raw));
        StepSize::read_is_coded_back(Self::step_size_bits(raw));
        assert(input.subrange(pos as int, pos + 1) =~= seq![raw]);
    }
}

} // verus!
