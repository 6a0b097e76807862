//! The switch record: the short command that configures the head.
use crate::error::{ErrorKind, Field, FormatError};
use crate::types::command::Command;
use crate::types::range_code::RangeCode;
use crate::types::util::bytes::{
    available, holds_at, holds_both, in_bounds, put_zeros, skip, skip_spec, stretches_join,
    truncated, zeros,
};
use crate::types::util::primitive::{
    parse_u8, parse_u8_spec, parsed_is_put_back, put_is_parsed_back, put_u8, Primitive,
};
use vstd::prelude::*;

verus! {

/// The command sent to the head: the two bytes `FE 44`, one reserved byte, the range setting,
/// one reserved byte, the command byte and one reserved byte.
#[derive(Debug, Clone, Copy, PartialEq, Eq, Structural)]
pub struct SwitchData {
    pub range_index: RangeCode,
    pub command: Command,
}

/// The two bytes that open a switch record.
pub open spec fn magic() -> Seq<u8> {
    seq![0xFEu8, 0x44u8]
}

impl SwitchData {
    /// The number of bytes of a switch record on the wire.
    pub const LENGTH: usize = 7;

    /// The switch record with this range setting and command.
    pub fn new(range_index: RangeCode, command: Command) -> (r: Self)
        ensures
            r == (SwitchData { range_index, command }),
    {
        SwitchData { range_index, command }
    }

    /// What reading the two bytes that open a switch record at `pos` gives: the offset behind
    /// them, or the failure. Other bytes fail at `pos`.
    pub open spec fn magic_spec(input: Seq<u8>, pos: usize) -> Result<usize, FormatError> {
        if !available(input, pos, 2) {
            Err(truncated(pos, Field::SwitchData))
        } else if input.subrange(pos as int, pos + 2) == magic() {
            Ok((pos + 2) as usize)
        } else {
            Err(FormatError { kind: ErrorKind::MagicMismatch, pos, field: Field::SwitchData })
        }
    }

    /// What parsing a switch record at `pos` gives: the record and the offset behind it, or
    /// the failure of the first part that fails.
    pub open spec fn parse_spec(input: Seq<u8>, pos: usize) -> Result<
        (SwitchData, usize),
        FormatError,
    > {
        match Self::magic_spec(input, pos) {
            Err(e) => Err(e),
            Ok(p) => match skip_spec(input, p, 1) {
                Err(e) => Err(e),
                Ok(p) => match parse_u8_spec::<RangeCode>(input, p) {
                    Err(e) => Err(e),
                    Ok((range_index, p)) => match skip_spec(input, p, 1) {
                        Err(e) => Err(e),
                        Ok(p) => match Command::parse_spec(input, p) {
                            Err(e) => Err(e),
                            Ok((command, p)) => match skip_spec(input, p, 1) {
                                Err(e) => Err(e),
                                Ok(next) => Ok((SwitchData { range_index, command }, next)),
                            },
                        },
                    },
                },
            },
        }
    }

    /// The seven bytes of the record.
    pub open spec fn write_spec(self) -> Seq<u8> {
        magic() + zeros(1) + seq![self.range_index.code().unwrap()] + zeros(1)
            + self.command.write_spec() + zeros(1)
    }

    /// Reads the two bytes that open a switch record.
    pub fn parse_magic(input: &[u8], pos: usize) -> (r: Result<usize, FormatError>)
        ensures
            r == Self::magic_spec(input@, pos),
    {
        if !in_bounds(input, pos, 2) {
            return Err(FormatError::new(ErrorKind::Truncated, pos, Field::SwitchData));
        }
        let ghost raw = input@.subrange(pos as int, pos + 2);
        assert(raw[0] == input@[pos as int] && raw[1] == input@[pos + 1]);
        if input[pos] == 0xFE && input[pos + 1] == 0x44 {
            assert(raw =~= magic());
            Ok(pos + 2)
        } else {
            assert(raw != magic()) by {
                if raw == magic() {
                    assert(raw[0] == 0xFE && raw[1] == 0x44);
                }
            }
            Err(FormatError::new(ErrorKind::MagicMismatch, pos, Field::SwitchData))
        }
    }

    /// Parses a switch record from the seven bytes at `pos`.
    pub fn parse(input: &[u8], pos: usize) -> (r: Result<(SwitchData, usize), FormatError>)
        ensures
            r == Self::parse_spec(input@, pos),
    {
        let next = Self::parse_magic(input, pos)?;
        let next = skip(input, next, 1)?;
        let (range_index, next) = parse_u8::<RangeCode>(input, next)?;
        let next = skip(input, next, 1)?;
        let (command, next) = Command::parse(input, next)?;
        let next = skip(input, next, 1)?;
        Ok((SwitchData { range_index, command }, next))
    }

    /// Appends the seven bytes of the record to `out`.
    pub fn write(&self, out: &mut Vec<u8>) -> (r: Result<(), FormatError>)
        ensures
            r.is_ok(),
            final(out)@ == old(out)@ + self.write_spec(),
    {
        out.push(0xFE);
        out.push(0x44);
        put_zeros(1, out);
        put_u8::<RangeCode>(self.range_index, out)?;
        put_zeros(1, out);
        self.command.write(out)?;
        put_zeros(1, out);
        assert(out@ =~= old(out)@ + self.write_spec());
        Ok(())
    }

    /// Whether the bytes at `pos` are written the way this library writes a switch record: the
    /// reserved bytes are zero, and so is every bit of the command byte that belongs to no
    /// field.
    pub open spec fn canonical(input: Seq<u8>, pos: usize) -> bool {
        input.subrange(pos + 2, pos + 3) == zeros(1) && input.subrange(pos + 4, pos + 5) == zeros(
            1,
        ) && Command::canonical(input[pos + 5]) && input.subrange(pos + 6, pos + 7) == zeros(1)
    }

    /// Every switch record is parsed back from the bytes that it is written as.
    pub proof fn written_is_read_back(self, input: Seq<u8>, pos: usize)
        requires
            input.len() <= usize::MAX,
            holds_at(input, pos, self.write_spec()),
        ensures
            Self::parse_spec(input, pos) == Ok::<(SwitchData, usize), FormatError>(
                (self, (pos + 7) as usize),
            ),
    {
        let range = seq![self.range_index.code().unwrap()];
        let command = self.command.write_spec();
        holds_both(input, pos, magic() + zeros(1) + range + zeros(1) + command, zeros(1));
        holds_both(input, pos, magic() + zeros(1) + range + zeros(1), command);
        holds_both(input, pos, magic() + zeros(1) + range, zeros(1));
        holds_both(input, pos, magic() + zeros(1), range);
        holds_both(input, pos, magic(), zeros(1));
        put_is_parsed_back::<RangeCode>(self.range_index, input, (pos + 3) as usize);
        self.command.written_is_read_back(input, (pos + 5) as usize);
    }

    /// Canonical bytes that parse are written back from the switch record parsed from them.
    pub proof fn read_is_written_back(input: Seq<u8>, pos: usize)
        requires
            input.len() <= usize::MAX,
            Self::parse_spec(input, pos).is_ok(),
            Self::canonical(input, pos),
        ensures
            Self::parse_spec(input, pos) matches Ok((value, next)) && next == pos + 7
                && value.write_spec() == input.subrange(pos as int, pos + 7),
    {
        parsed_is_put_back::<RangeCode>(input, (pos + 3) as usize);
        Command::read_is_written_back(input, (pos + 5) as usize);
        stretches_join(input, pos as int, pos + 2, pos + 3);
        stretches_join(input, pos as int, pos + 3, pos + 4);
        stretches_join(input, pos as int, pos + 4, pos + 5);
        stretches_join(input, pos as int, pos + 5, pos + 6);
        stretches_join(input, pos as int, pos + 6, pos + 7);
    }
}

} // verus!
