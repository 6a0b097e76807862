//! The three-byte identifier that opens a sonar return.
use crate::error::{ErrorKind, Field, FormatError};
use crate::types::util::bytes::{available, holds_at, in_bounds, truncated};
use vstd::prelude::*;
use vstd::string::StringExecFns;

verus! {

/// The identifier that opens a sonar return; it tells how many bytes of echo data the head
/// sends.
#[derive(Debug, Clone, Copy, PartialEq, Eq, Structural, Hash)]
pub enum SonarReturnMagic {
    /// `IMX`: 250 bytes of echo data follow the header.
    IMX,
    /// `IPX`: no echo data follows the header.
    IPX,
}

impl SonarReturnMagic {
    /// The three bytes of the identifier: the letters of its name.
    pub open spec fn bytes(self) -> Seq<u8> {
        match self {
            SonarReturnMagic::IMX => seq![0x49u8, 0x4Du8, 0x58u8],
            SonarReturnMagic::IPX => seq![0x49u8, 0x50u8, 0x58u8],
        }
    }

    /// The name of the identifier.
    pub open spec fn text(self) -> Seq<char> {
        match self {
            SonarReturnMagic::IMX => "IMX"@,
            SonarReturnMagic::IPX => "IPX"@,
        }
    }

    /// What parsing at `pos` gives: the identifier and the offset behind it, or the failure.
    /// Three bytes that are neither identifier fail at `pos` itself.
    pub open spec fn parse_spec(input: Seq<u8>, pos: usize) -> Result<
        (SonarReturnMagic, usize),
        FormatError,
    > {
        if !available(input, pos, 3) {
            Err(truncated(pos, Field::SonarReturnMagic))
        } else if input.subrange(pos as int, pos + 3) == SonarReturnMagic::IMX.bytes() {
            Ok((SonarReturnMagic::IMX, (pos + 3) as usize))
        } else if input.subrange(pos as int, pos + 3) == SonarReturnMagic::IPX.bytes() {
            Ok((SonarReturnMagic::IPX, (pos + 3) as usize))
        } else {
            Err(
                FormatError {
                    kind: ErrorKind::MagicMismatch,
                    pos,
                    field: Field::SonarReturnMagic,
                },
            )
        }
    }

    /// The number of bytes of echo data that the head sends under the identifier.
    pub fn data_length(&self) -> (r: usize)
        ensures
            r == match self {
                SonarReturnMagic::IMX => 250usize,
                SonarReturnMagic::IPX => 0usize,
            },
    {
        match self {
            SonarReturnMagic::IMX => 250,
            SonarReturnMagic::IPX => 0,
        }
    }

    /// The name of the identifier.
    pub fn to_string(&self) -> (r: String)
        ensures
            r@ == self.text(),
    {
        match self {
            SonarReturnMagic::IMX => String::from_str("IMX"),
            SonarReturnMagic::IPX => String::from_str("IPX"),
        }
    }

    /// Parses the identifier from the three bytes at `pos`.
    pub fn parse(input: &[u8], pos: usize) -> (r: Result<(SonarReturnMagic, usize), FormatError>)
        ensures
            r == Self::parse_spec(input@, pos),
    {
        if !in_bounds(input, pos, 3) {
            return Err(FormatError::new(ErrorKind::Truncated, pos, Field::SonarReturnMagic));
        }
        let ghost raw = input@.subrange(pos as int, pos + 3);
        assert(raw[0] == input@[pos as int] && raw[1] == input@[pos + 1] && raw[2] == input@[pos
            + 2]);
        if input[pos] == 0x49 && input[pos + 2] == 0x58 {
            if input[pos + 1] == 0x4D {
                assert(raw =~= SonarReturnMagic::IMX.bytes());
                return Ok((SonarReturnMagic::IMX, pos + 3));
            }
            if input[pos + 1] == 0x50 {
                assert(raw =~= SonarReturnMagic::IPX.bytes());
                return Ok((SonarReturnMagic::IPX, pos + 3));
            }
        }
        assert(raw != SonarReturnMagic::IMX.bytes()) by {
            if raw == SonarReturnMagic::IMX.bytes() {
                assert(raw[0] == 0x49 && raw[1] == 0x4D && raw[2] == 0x58);
            }
        }
        assert(raw != SonarReturnMagic::IPX.bytes()) by {
            if raw == SonarReturnMagic::IPX.bytes() {
                assert(raw[0] == 0x49 && raw[1] == 0x50 && raw[2] == 0x58);
            }
        }
        Err(FormatError::new(ErrorKind::MagicMismatch, pos, Field::SonarReturnMagic))
    }

    /// Appends the three bytes of the identifier to `out`.
    pub fn write(&self, out: &mut Vec<u8>) -> (r: Result<(), FormatError>)
        ensures
            r.is_ok(),
            final(out)@ == old(out)@ + self.bytes(),
    {
        out.push(0x49);
        match self {
            SonarReturnMagic::IMX => out.push(0x4D),
            SonarReturnMagic::IPX => out.push(0x50),
        }
        out.push(0x58);
        assert(out@ =~= old(out)@ + self.bytes());
        Ok(())
    }

    /// Every identifier is parsed back from the bytes that it is written as.
    pub proof fn written_is_read_back(self, input: Seq<u8>, pos: usize)
        requires
            input.len() <= usize::MAX,
            holds_at(input, pos, self.bytes()),
        ensures
            Self::parse_spec(input, pos) == Ok::<(SonarReturnMagic, usize), FormatError>(
                (self, (pos + 3) as usize),
            ),
    {
        assert(SonarReturnMagic::IMX.bytes()[1] != SonarReturnMagic::IPX.bytes()[1]);
    }

    /// Three bytes that parse are written back from the identifier parsed from them.
    pub proof fn read_is_written_back(input: Seq<u8>, pos: usize)
        requires
            input.len() <= usize::MAX,
            Self::parse_spec(input, pos).is_ok(),
        ensures
            Self::parse_spec(input, pos) matches Ok((value, next)) && next == pos + 3
                && value.bytes() == input.subrange(pos as int, pos + 3),
    {
    }
}

} // verus!
