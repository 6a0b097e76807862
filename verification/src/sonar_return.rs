//! The sonar return of a shot: its header, the echo data and the terminator.
use crate::error::{ErrorKind, Field, FormatError};
use crate::types::sonar_return_header::SonarReturnHeader;
use crate::types::util::bytes::{
    holds_at, holds_both, put_bytes, stretches_join, take_bytes, take_bytes_spec, take_u8,
    take_u8_spec,
};
use vstd::prelude::*;

verus! {

/// What the head sends for one ping: the header, as many bytes of echo data as the header
/// announces, and the terminator.
#[derive(Debug, Clone, PartialEq)]
pub struct SonarReturn {
    pub header: SonarReturnHeader,
    /// The echo intensities.
    pub data: Vec<u8>,
    /// The byte that ends the return; always `0xFC`.
    pub termination_byte: u8,
}

/// A sonar return as a mathematical value.
pub struct SonarReturnView {
    pub header: SonarReturnHeader,
    pub data: Seq<u8>,
    pub termination_byte: u8,
}

impl View for SonarReturn {
    type V = SonarReturnView;

    open spec fn view(&self) -> SonarReturnView {
        SonarReturnView {
            header: self.header,
            data: self.data@,
            termination_byte: self.termination_byte,
        }
    }
}

impl SonarReturnView {
    /// Whether the terminator is the one that ends every return.
    pub open spec fn terminated(self) -> bool {
        self.termination_byte == SonarReturn::TERMINATION_BYTE
    }

    /// Whether the return is one that the wire carries exactly: its header is exact, it holds
    /// as many bytes of data as the header announces, and its terminator is `0xFC`.
    pub open spec fn exact(self) -> bool {
        self.header.exact() && self.data.len() == self.header.data_length && self.terminated()
    }

    /// What writing the return at offset `pos` gives: its bytes, or the failure. A terminator
    /// other than `0xFC` fails first, at `pos`; then the header is written.
    pub open spec fn write_spec(self, pos: usize) -> Result<Seq<u8>, FormatError> {
        if !self.terminated() {
            Err(FormatError { kind: ErrorKind::InvariantViolation, pos, field: Field::SonarReturn })
        } else {
            match self.header.write_spec(pos) {
                Ok(header) => Ok(header + self.data + seq![self.termination_byte]),
                Err(e) => Err(e),
            }
        }
    }
}

impl SonarReturn {
    /// The byte that ends every return.
    pub const TERMINATION_BYTE: u8 = 0xFC;

    /// The return with these parts.
    pub fn new(header: SonarReturnHeader, data: Vec<u8>, termination_byte: u8) -> (r: Self)
        ensures
            r@ == (SonarReturnView { header, data: data@, termination_byte }),
    {
        SonarReturn { header, data, termination_byte }
    }

    /// What parsing a return at `pos` gives: the return and the offset behind it, or the
    /// failure. The header is read, then as many bytes of data as it announces, then the
    /// terminator; a terminator other than `0xFC` fails at `pos`.
    pub open spec fn parse_spec(input: Seq<u8>, pos: usize) -> Result<
        (SonarReturnView, usize),
        FormatError,
    > {
        match SonarReturnHeader::parse_spec(input, pos) {
            Err(e) => Err(e),
            Ok((header, data_pos)) => match take_bytes_spec(
                input,
                data_pos,
                header.data_length as usize,
                Field::Data,
            ) {
                Err(e) => Err(e),
                Ok((data, end_pos)) => match take_u8_spec(input, end_pos, Field::SonarReturn) {
                    Err(e) => Err(e),
                    Ok((termination_byte, next)) => {
                        let value = SonarReturnView { header, data, termination_byte };
                        if value.terminated() {
                            Ok((value, next))
                        } else {
                            Err(
                                FormatError {
                                    kind: ErrorKind::InvariantViolation,
                                    pos,
                                    field: Field::SonarReturn,
                                },
                            )
                        }
                    },
                },
            },
        }
    }

    /// Parses a sonar return from the bytes at `pos`.
    pub fn parse(input: &[u8], pos: usize) -> (r: Result<(SonarReturn, usize), FormatError>)
        ensures
            match Self::parse_spec(input@, pos) {
                Ok((view, next)) => r matches Ok((value, end)) && value@ == view && end == next,
                Err(e) => r == Err::<(SonarReturn, usize), FormatError>(e),
            },
    {
        let (header, next) = SonarReturnHeader::parse(input, pos)?;
        let (data, next) = take_bytes(input, next, header.data_length as usize, Field::Data)?;
        let (termination_byte, next) = take_u8(input, next, Field::SonarReturn)?;
        if termination_byte != Self::TERMINATION_BYTE {
            return Err(FormatError::new(ErrorKind::InvariantViolation, pos, Field::SonarReturn));
        }
        Ok((SonarReturn { header, data, termination_byte }, next))
    }

    /// Appends the bytes of the return to `out`. On a failure `out` is left as it was.
    pub fn write(&self, out: &mut Vec<u8>) -> (r: Result<(), FormatError>)
        ensures
            match self@.write_spec(old(out)@.len() as usize) {
                Ok(bytes) => r.is_ok() && final(out)@ == old(out)@ + bytes,
                Err(e) => r == Err::<(), FormatError>(e) && final(out)@ == old(out)@,
            },
    {
        let start: usize = out.len();
        if self.termination_byte != Self::TERMINATION_BYTE {
            return Err(FormatError::new(ErrorKind::InvariantViolation, start, Field::SonarReturn));
        }
        self.header.write(out)?;
        put_bytes(self.data.as_slice(), out);
        out.push(self.termination_byte);
        assert(out@ =~= old(out)@ + (self.header.write_spec(start)->Ok_0 + self.data@
            + seq![self.termination_byte]));
        Ok(())
    }

    /// Bytes whose terminator is not `0xFC` never parse as a return, and a return whose
    /// terminator is another byte is never written.
    pub proof fn terminator_is_asserted(value: SonarReturnView, input: Seq<u8>, pos: usize)
        requires
            input.len() <= usize::MAX,
        ensures
            Self::parse_spec(input, pos) matches Ok((parsed, next)) ==> parsed.termination_byte
                == Self::TERMINATION_BYTE && input[next - 1] == Self::TERMINATION_BYTE,
            !value.terminated() ==> value.write_spec(pos) == Err::<Seq<u8>, FormatError>(
                FormatError { kind: ErrorKind::InvariantViolation, pos, field: Field::SonarReturn },
            ),
    {
    }

    /// A return that is written takes 32 bytes, its data and one byte more.
    pub proof fn written_len(value: SonarReturnView, pos: usize)
        ensures
            value.write_spec(pos) matches Ok(bytes) ==> bytes.len() == 33 + value.data.len(),
    {
        value.header.written_len(pos);
    }

    /// An exact return is parsed back from the bytes that it is written as.
    pub proof fn written_is_read_back(value: SonarReturnView, input: Seq<u8>, pos: usize)
        requires
            input.len() <= usize::MAX,
            value.exact(),
            value.write_spec(pos).is_ok(),
            holds_at(input, pos, value.write_spec(pos)->Ok_0),
        ensures
            Self::parse_spec(input, pos) == Ok::<(SonarReturnView, usize), FormatError>(
                (value, (pos + 33 + value.data.len()) as usize),
            ),
    {
        let header = value.header.write_spec(pos)->Ok_0;
        let end = seq![value.termination_byte];
        value.header.written_len(pos);
        holds_both(input, pos, header + value.data, end);
        holds_both(input, pos, header, value.data);
        value.header.written_is_read_back(input, pos);
        SonarReturnHeader::parsed_len(input, pos);
        let end_pos = (pos + 32 + value.data.len()) as usize;
        assert(input[end_pos as int] == input.subrange(end_pos as int, end_pos + 1)[0]);
    }

    /// Bytes that parse, with a canonical header, are written back from the return parsed from
    /// them, which is exact.
    pub proof fn read_is_written_back(input: Seq<u8>, pos: usize)
        requires
            input.len() <= usize::MAX,
            Self::parse_spec(input, pos).is_ok(),
            SonarReturnHeader::canonical(input, pos),
        ensures
            Self::parse_spec(input, pos) matches Ok((value, next)) && value.exact()
                && value.write_spec(pos) == Ok::<Seq<u8>, FormatError>(
                input.subrange(pos as int, next as int),
            ) && next == pos + 33 + value.data.len(),
    {
        SonarReturnHeader::read_is_written_back(input, pos);
        SonarReturnHeader::parsed_len(input, pos);
        let (value, next) = Self::parse_spec(input, pos)->Ok_0;
        let data_end = pos + 32 + value.data.len();
        assert(seq![value.termination_byte] =~= input.subrange(data_end, data_end + 1));
        stretches_join(input, pos as int, pos + 32, data_end);
        stretches_join(input, pos as int, data_end, data_end + 1);
    }
}

} // verus!
