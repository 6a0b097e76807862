//! The display and sampling settings, packed in one byte.
use crate::error::{ErrorKind, Field, FormatError};
use crate::types::data_bits::DataBits;
use crate::types::logf::Logf;
use crate::types::profile_grid::ProfileGrid;
use crate::types::zero::Zero;
use crate::types::util::bytes::{holds_at, take_u8, take_u8_spec};
use crate::types::util::primitive::{read_u8_bits, write_u8_bits, Primitive};
use vstd::prelude::*;

verus! {

const MASK_PROFILE_GRID: u8 = 0x80;

const SHIFT_PROFILE_GRID: usize = 7;

const MASK_ZERO: u8 = 0x40;

const SHIFT_ZERO: usize = 6;

const MASK_DATA_BITS: u8 = 0x38;

const SHIFT_DATA_BITS: usize = 3;

const MASK_LOGF: u8 = 0x07;

/// The display and sampling settings: profile grid in bit 7, zero in bit 6, data bits in bits 5 to
/// 3, logarithmic gain in bits 2 to 0.
#[derive(Debug, Clone, Copy, PartialEq, Eq, Structural)]
pub struct Config {
    pub profile_grid: ProfileGrid,
    pub zero: Zero,
    pub data_bits: DataBits,
    pub logf: Logf,
}

impl Config {
    /// The value with these fields.
    pub fn new(profile_grid: ProfileGrid, zero: Zero, data_bits: DataBits, logf: Logf) -> (r: Self)
        ensures
            r == (Config { profile_grid, zero, data_bits, logf }),
    {
        Config { profile_grid, zero, data_bits, logf }
    }

    /// The number in bit 7 of `raw`.
    pub open spec fn profile_grid_bits(raw: u8) -> u8 {
        (raw / 128) as u8
    }

    /// The number in bit 6 of `raw`.
    pub open spec fn zero_bits(raw: u8) -> u8 {
        (raw / 64 % 2) as u8
    }

    /// The number in bits 5 to 3 of `raw`.
    pub open spec fn data_bits_bits(raw: u8) -> u8 {
        (raw / 8 % 8) as u8
    }

    /// The number in bits 2 to 0 of `raw`.
    pub open spec fn logf_bits(raw: u8) -> u8 {
        (raw % 8) as u8
    }

    /// What the byte `raw` stands for; `pos` is the offset that a failure names. The fields
    /// are read in the order in which they are declared, and the first one whose bits stand
    /// for no value fails.
    pub open spec fn from_byte(raw: u8, pos: usize) -> Result<Config, FormatError> {
        if ProfileGrid::from_code(Self::profile_grid_bits(raw)).is_none() {
            Err(FormatError { kind: ErrorKind::InvalidEnumValue, pos, field: Field::ProfileGrid })
        } else if Zero::from_code(Self::zero_bits(raw)).is_none() {
            Err(FormatError { kind: ErrorKind::InvalidEnumValue, pos, field: Field::Zero })
        } else if DataBits::from_code(Self::data_bits_bits(raw)).is_none() {
            Err(FormatError { kind: ErrorKind::InvalidEnumValue, pos, field: Field::DataBits })
        } else if Logf::from_code(Self::logf_bits(raw)).is_none() {
            Err(FormatError { kind: ErrorKind::InvalidEnumValue, pos, field: Field::Logf })
        } else {
            Ok(
                Config {
                    profile_grid: ProfileGrid::from_code(Self::profile_grid_bits(raw)).unwrap(),
                    zero: Zero::from_code(Self::zero_bits(raw)).unwrap(),
                    data_bits: DataBits::from_code(Self::data_bits_bits(raw)).unwrap(),
                    logf: Logf::from_code(Self::logf_bits(raw)).unwrap(),
                },
            )
        }
    }

    /// The byte that stands for the value: every field at its place, every other bit clear.
    pub open spec fn to_byte(self) -> u8 {
        (
            self.profile_grid.code().unwrap() * 128 + self.zero.code().unwrap() * 64
                + self.data_bits.code().unwrap() * 8 + self.logf.code().unwrap()
        ) as u8
    }

    /// What parsing at `pos` gives: the value and the offset behind it, or the failure,
    /// which names the offset behind the byte.
    pub open spec fn parse_spec(
        input: Seq<u8>,
        pos: usize,
    ) -> Result<(Config, usize), FormatError> {
        match take_u8_spec(input, pos, Field::Config) {
            Ok((raw, next)) => match Self::from_byte(raw, next) {
                Ok(value) => Ok((value, next)),
                Err(e) => Err(e),
            },
            Err(e) => Err(e),
        }
    }

    /// What writing the value gives: its byte.
    pub open spec fn write_spec(self) -> Seq<u8> {
        seq![self.to_byte()]
    }

    /// Parses the value from the byte at `pos`.
    pub fn parse(input: &[u8], pos: usize) -> (r: Result<(Config, usize), FormatError>)
        ensures
            r == Self::parse_spec(input@, pos),
    {
        let (raw, next) = match take_u8(input, pos, Field::Config) {
            Ok(read) => read,
            Err(e) => { return Err(e); },
        };
        assert((raw & 0x80) >> 7usize == raw / 128
            && (raw & 0x40) >> 6usize == raw / 64 % 2
            && (raw & 0x38) >> 3usize == raw / 8 % 8
            && (raw & 0x07) >> 0usize == raw % 8) by (bit_vector);
        let profile_grid = match read_u8_bits::<ProfileGrid>(
            raw,
            MASK_PROFILE_GRID,
            SHIFT_PROFILE_GRID,
            next,
        ) {
            Ok(value) => value,
            Err(e) => { return Err(e); },
        };
        let zero = match read_u8_bits::<Zero>(raw, MASK_ZERO, SHIFT_ZERO, next) {
            Ok(value) => value,
            Err(e) => { return Err(e); },
        };
        let data_bits = match read_u8_bits::<DataBits>(raw, MASK_DATA_BITS, SHIFT_DATA_BITS, next) {
            Ok(value) => value,
            Err(e) => { return Err(e); },
        };
        let logf = match read_u8_bits::<Logf>(raw, MASK_LOGF, 0, next) {
            Ok(value) => value,
            Err(e) => { return Err(e); },
        };
        Ok((Config { profile_grid, zero, data_bits, logf }, next))
    }

    /// Appends the byte of the value to `out`: the contributions of the fields, combined by
    /// bitwise or.
    pub fn write(&self, out: &mut Vec<u8>) -> (r: Result<(), FormatError>)
        ensures
            r.is_ok(),
            final(out)@ == old(out)@ + self.write_spec(),
    {
        let mut raw: u8 = 0;
        let pos: usize = out.len();

        raw |= match write_u8_bits(self.profile_grid, MASK_PROFILE_GRID, SHIFT_PROFILE_GRID, pos) {
            Ok(bits) => bits,
            Err(e) => { return Err(e); },
        };
        let ghost step0 = raw;
        raw |= match write_u8_bits(self.zero, MASK_ZERO, SHIFT_ZERO, pos) {
            Ok(bits) => bits,
            Err(e) => { return Err(e); },
        };
        let ghost step1 = raw;
        raw |= match write_u8_bits(self.data_bits, MASK_DATA_BITS, SHIFT_DATA_BITS, pos) {
            Ok(bits) => bits,
            Err(e) => { return Err(e); },
        };
        let ghost step2 = raw;
        raw |= match write_u8_bits(self.logf, MASK_LOGF, 0, pos) {
            Ok(bits) => bits,
            Err(e) => { return Err(e); },
        };
        let ghost step3 = raw;
        proof {
            let c0: u8 = self.profile_grid.code().unwrap();
            let c1: u8 = self.zero.code().unwrap();
            let c2: u8 = self.data_bits.code().unwrap();
            let c3: u8 = self.logf.code().unwrap();
            assert(step3 == c0 * 128 + c1 * 64 + c2 * 8 + c3) by (bit_vector)
                requires
                    c0 < 2,
                    step0 == 0u8 | ((c0 << 7usize) & 0x80),
                    c1 < 2,
                    step1 == step0 | ((c1 << 6usize) & 0x40),
                    c2 < 3,
                    step2 == step1 | ((c2 << 3usize) & 0x38),
                    c3 < 4,
                    step3 == step2 | ((c3 << 0usize) & 0x07),
            ;
        }
        out.push(raw);
        assert(out@ =~= old(out)@ + self.write_spec());
        Ok(())
    }

    /// Every value is read back from its byte.
    pub proof fn byte_is_read_back(self, pos: usize)
        ensures
            Self::from_byte(self.to_byte(), pos) == Ok::<Config, FormatError>(self),
    {
        self.profile_grid.code_is_read_back();
        self.zero.code_is_read_back();
        self.data_bits.code_is_read_back();
        self.logf.code_is_read_back();
    }

    /// Every value is parsed back from the byte that it is written as.
    pub proof fn written_is_read_back(self, input: Seq<u8>, pos: usize)
        requires
            input.len() <= usize::MAX,
            holds_at(input, pos, self.write_spec()),
        ensures
            Self::parse_spec(input, pos) == Ok::<(Config, usize), FormatError>(
                (self, (pos + 1) as usize),
            ),
    {
        assert(input[pos as int] == input.subrange(pos as int, pos + 1)[0]);
        self.byte_is_read_back((pos + 1) as usize);
    }

    /// A byte that parses is written back from the value parsed from it.
    pub proof fn read_is_written_back(input: Seq<u8>, pos: usize)
        requires
            input.len() <= usize::MAX,
            Self::parse_spec(input, pos).is_ok(),
        ensures
            Self::parse_spec(input, pos) matches Ok((value, next)) && next == pos + 1
                && value.write_spec() == input.subrange(pos as int, pos + 1),
    {
        let raw = input[pos as int];
        ProfileGrid::read_is_coded_back(Self::profile_grid_bits(raw));
        Zero::read_is_coded_back(Self::zero_bits(raw));
        DataBits::read_is_coded_back(Self::data_bits_bits(raw));
        Logf::read_is_coded_back(Self::logf_bits(raw));
        assert(input.subrange(pos as int, pos + 1) =~= seq![raw]);
    }
}

} // verus!
