//! A shot: one complete acquisition of the sonar.
use crate::error::{ErrorKind, Field, FormatError};
use crate::sonar_return::{SonarReturn, SonarReturnView};
use crate::types::file_header::FileHeader;
use crate::types::primitive::datetime::SubFormat;
use crate::types::primitive::datetime;
use crate::types::sonar_return_header::SonarReturnHeader;
use crate::types::util::bytes::{
    available, holds_at, holds_both, in_bounds, put_zeros, skip, skip_spec, stretches_join,
    truncated, zeros,
};
use vstd::prelude::*;

verus! {

/// One complete acquisition: the three bytes `31L`, the header, 117 reserved bytes, the sonar
/// return and one reserved byte.
#[derive(Debug, Clone, PartialEq)]
pub struct Shot {
    pub header: FileHeader,
    pub sonar_return: SonarReturn,
}

/// A shot as a mathematical value.
pub struct ShotView {
    pub header: FileHeader,
    pub sonar_return: SonarReturnView,
}

impl View for Shot {
    type V = ShotView;

    open spec fn view(&self) -> ShotView {
        ShotView { header: self.header, sonar_return: self.sonar_return@ }
    }
}

/// The three bytes that open a shot: `31L`.
pub open spec fn magic() -> Seq<u8> {
    seq![0x33u8, 0x31u8, 0x4Cu8]
}

impl ShotView {
    /// Whether the shot is one that the wire carries exactly: its header and its sonar return
    /// are.
    pub open spec fn exact(self) -> bool {
        self.header.exact() && self.sonar_return.exact()
    }

    /// What writing the shot at offset `pos` gives: its bytes, or the failure of the header or
    /// of the sonar return, whichever comes first.
    pub open spec fn write_spec(self, pos: usize, sub_format: SubFormat) -> Result<
        Seq<u8>,
        FormatError,
    > {
        match self.header.write_spec((pos + 3) as usize, sub_format) {
            Err(e) => Err(e),
            Ok(header) => match self.sonar_return.write_spec((pos + 228) as usize) {
                Err(e) => Err(e),
                Ok(sonar_return) => Ok(
                    magic() + header + zeros(Shot::HEADER_PADDING as nat) + sonar_return + zeros(
                        Shot::RETURN_PADDING as nat,
                    ),
                ),
            },
        }
    }
}

impl Shot {
    /// The number of reserved bytes behind the header.
    pub const HEADER_PADDING: usize = 117;

    /// The number of reserved bytes behind the sonar return.
    pub const RETURN_PADDING: usize = 1;

    /// The shot with this header and sonar return.
    pub fn new(header: FileHeader, sonar_return: SonarReturn) -> (r: Self)
        ensures
            r@ == (ShotView { header, sonar_return: sonar_return@ }),
    {
        Shot { header, sonar_return }
    }

    /// What reading the three bytes that open a shot at `pos` gives: the offset behind them, or
    /// the failure. Other bytes fail at `pos`.
    pub open spec fn magic_spec(input: Seq<u8>, pos: usize) -> Result<usize, FormatError> {
        if !available(input, pos, 3) {
            Err(truncated(pos, Field::Shot))
        } else if input.subrange(pos as int, pos + 3) == magic() {
            Ok((pos + 3) as usize)
        } else {
            Err(FormatError { kind: ErrorKind::MagicMismatch, pos, field: Field::Shot })
        }
    }

    /// What parsing a shot at `pos` gives: the shot and the offset behind it, or the failure.
    /// The bytes are consumed strictly in order: the magic, the header, 117 reserved bytes, the
    /// sonar return, one reserved byte; the first part that fails gives the failure.
    pub open spec fn parse_spec(
        input: Seq<u8>,
        pos: usize,
    ) -> Result<(ShotView, usize), FormatError> {
        match Self::magic_spec(input, pos) {
            Err(e) => Err(e),
            Ok(header_pos) => match FileHeader::parse_spec(input, header_pos) {
                Err(e) => Err(e),
                Ok((header, padding_pos)) => match skip_spec(
                    input,
                    padding_pos,
                    Self::HEADER_PADDING,
                ) {
                    Err(e) => Err(e),
                    Ok(return_pos) => match SonarReturn::parse_spec(input, return_pos) {
                        Err(e) => Err(e),
                        Ok((sonar_return, end_pos)) => match skip_spec(
                            input,
                            end_pos,
                            Self::RETURN_PADDING,
                        ) {
                            Err(e) => Err(e),
                            Ok(next) => Ok((ShotView { header, sonar_return }, next)),
                        },
                    },
                },
            },
        }
    }

    /// Reads the three bytes that open a shot.
    pub fn parse_magic(input: &[u8], pos: usize) -> (r: Result<usize, FormatError>)
        ensures
            r == Self::magic_spec(input@, pos),
    {
        if !in_bounds(input, pos, 3) {
            return Err(FormatError::new(ErrorKind::Truncated, pos, Field::Shot));
        }
        let ghost raw = input@.subrange(pos as int, pos + 3);
        assert(raw[0] == input@[pos as int] && raw[1] == input@[pos + 1] && raw[2] == input@[pos
            + 2]);
        if input[pos] == 0x33 && input[pos + 1] == 0x31 && input[pos + 2] == 0x4C {
            assert(raw =~= magic());
            Ok(pos + 3)
        } else {
            assert(raw != magic()) by {
                if raw == magic() {
                    assert(raw[0] == 0x33 && raw[1] == 0x31 && raw[2] == 0x4C);
                }
            }
            Err(FormatError::new(ErrorKind::MagicMismatch, pos, Field::Shot))
        }
    }

    /// Parses a shot from the bytes at `pos`. Nothing of a shot is returned unless all of it
    /// was read.
    pub fn parse(input: &[u8], pos: usize) -> (r: Result<(Shot, usize), FormatError>)
        ensures
            match Self::parse_spec(input@, pos) {
                Ok((view, next)) => r matches Ok((value, end)) && value@ == view && end == next,
                Err(e) => r == Err::<(Shot, usize), FormatError>(e),
            },
    {
        let next = Self::parse_magic(input, pos)?;
        let (header, next) = FileHeader::parse(input, next)?;
        let next = skip(input, next, Self::HEADER_PADDING)?;
        let (sonar_return, next) = SonarReturn::parse(input, next)?;
        let next = skip(input, next, Self::RETURN_PADDING)?;
        Ok((Shot { header, sonar_return }, next))
    }

    /// Appends the bytes of the shot to `out`, with the sub-seconds of its timestamp in
    /// `sub_format`. On a failure `out` is left as it was.
    pub fn write(&self, out: &mut Vec<u8>, sub_format: SubFormat) -> (r: Result<(), FormatError>)
        ensures
            match self@.write_spec(old(out)@.len() as usize, sub_format) {
                Ok(bytes) => r.is_ok() && final(out)@ == old(out)@ + bytes,
                Err(e) => r == Err::<(), FormatError>(e) && final(out)@ == old(out)@,
            },
    {
        let start: usize = out.len();
        out.push(0x33);
        out.push(0x31);
        out.push(0x4C);
        assert(out@ =~= old(out)@ + magic());
        let ghost header_pos = (start + 3) as usize;
        proof {
            self.header.written_len(header_pos, sub_format);
        }
        match self.header.write(out, sub_format) {
            Ok(()) => {},
            Err(e) => {
                out.truncate(start);
                assert(out@ =~= old(out)@);
                return Err(e);
            },
        }
        put_zeros(Self::HEADER_PADDING, out);
        match self.sonar_return.write(out) {
            Ok(()) => {},
            Err(e) => {
                out.truncate(start);
                assert(out@ =~= old(out)@);
                return Err(e);
            },
        }
        put_zeros(Self::RETURN_PADDING, out);
        assert(out@ =~= old(out)@ + self@.write_spec(start, sub_format)->Ok_0);
        Ok(())
    }

    /// Whether the bytes at `pos` are written the way this library writes a shot: the header
    /// and the header of the sonar return are canonical, and the reserved bytes are zero.
    pub open spec fn canonical(input: Seq<u8>, pos: usize) -> bool {
        let end = SonarReturn::parse_spec(input, (pos + 228) as usize)->Ok_0.1;
        FileHeader::canonical(input, (pos + 3) as usize) && input.subrange(pos + 111, pos + 228)
            == zeros(117) && SonarReturnHeader::canonical(input, (pos + 228) as usize)
            && input.subrange(end as int, end + 1) == zeros(1)
    }

    /// A shot that is written takes 262 bytes and its data.
    pub proof fn written_len(value: ShotView, pos: usize, sub_format: SubFormat)
        ensures
            value.write_spec(pos, sub_format) matches Ok(bytes) ==> bytes.len() == 262
                + value.sonar_return.data.len(),
    {
        value.header.written_len((pos + 3) as usize, sub_format);
        SonarReturn::written_len(value.sonar_return, (pos + 228) as usize);
    }

    /// Decoding what was encoded gives the value back: an exact shot is parsed back from the
    /// bytes that it is written as, where the text of its timestamp reads back.
    pub proof fn written_is_read_back(
        value: ShotView,
        input: Seq<u8>,
        pos: usize,
        sub_format: SubFormat,
    )
        requires
            input.len() <= usize::MAX,
        ensures
            value.exact() && value.write_spec(pos, sub_format).is_ok() && holds_at(
                input,
                pos,
                value.write_spec(pos, sub_format)->Ok_0,
            ) && datetime::reads_back(value.header.datetime, sub_format) ==> Self::parse_spec(
                input,
                pos,
            ) == Ok::<
                (ShotView, usize),
                FormatError,
            >((value, (pos + 262 + value.sonar_return.data.len()) as usize)),
    {
        if value.exact() && value.write_spec(pos, sub_format).is_ok() && holds_at(
            input,
            pos,
            value.write_spec(pos, sub_format)->Ok_0,
        ) && datetime::reads_back(value.header.datetime, sub_format) {
            let header_pos = (pos + 3) as usize;
            let return_pos = (pos + 228) as usize;
            let header = value.header.write_spec(header_pos, sub_format)->Ok_0;
            let sonar_return = value.sonar_return.write_spec(return_pos)->Ok_0;
            value.header.written_len(header_pos, sub_format);
            SonarReturn::written_len(value.sonar_return, return_pos);
            holds_both(input, pos, magic() + header + zeros(117) + sonar_return, zeros(1));
            holds_both(input, pos, magic() + header + zeros(117), sonar_return);
            holds_both(input, pos, magic() + header, zeros(117));
            holds_both(input, pos, magic(), header);
            value.header.written_is_read_back(input, header_pos, sub_format);
            FileHeader::parsed_len(input, header_pos);
            SonarReturn::written_is_read_back(value.sonar_return, input, return_pos);
        }
    }

    /// Encoding what was decoded gives the bytes back: canonical bytes that parse are written
    /// back from the shot parsed from them, which is exact, where its timestamp is written back
    /// as the text that it was parsed from.
    pub proof fn read_is_written_back(input: Seq<u8>, pos: usize, sub_format: SubFormat)
        requires
            input.len() <= usize::MAX,
        ensures
            Self::parse_spec(input, pos).is_ok() && Self::canonical(input, pos)
                && datetime::write_spec(
                Self::parse_spec(input, pos)->Ok_0.0.header.datetime,
                (pos + 8) as usize,
                sub_format,
            ) == Ok::<Seq<u8>, FormatError>(input.subrange(pos + 8, pos + 33)) ==> Self::parse_spec(
                input,
                pos,
            )->Ok_0.0.exact() && Self::parse_spec(input, pos)->Ok_0.0.write_spec(pos, sub_format)
                == Ok::<Seq<u8>, FormatError>(
                input.subrange(pos as int, Self::parse_spec(input, pos)->Ok_0.1 as int),
            ),
    {
        if Self::parse_spec(input, pos).is_ok() && Self::canonical(input, pos)
            && datetime::write_spec(
            Self::parse_spec(input, pos)->Ok_0.0.header.datetime,
            (pos + 8) as usize,
            sub_format,
        ) == Ok::<Seq<u8>, FormatError>(input.subrange(pos + 8, pos + 33)) {
            let header_pos = (pos + 3) as usize;
            let return_pos = (pos + 228) as usize;
            let (value, next) = Self::parse_spec(input, pos)->Ok_0;
            FileHeader::parsed_len(input, header_pos);
            FileHeader::read_is_written_back(input, header_pos, sub_format);
            SonarReturn::read_is_written_back(input, return_pos);
            let end = SonarReturn::parse_spec(input, return_pos)->Ok_0.1;
            assert(input.subrange(pos as int, pos + 3) == magic());
            stretches_join(input, pos as int, pos + 3, pos + 111);
            stretches_join(input, pos as int, pos + 111, pos + 228);
            stretches_join(input, pos as int, pos + 228, end as int);
            stretches_join(input, pos as int, end as int, end + 1);
        }
    }
}

} // verus!
