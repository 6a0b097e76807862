//! The header of a sonar return: what the head reports of one ping.
use crate::error::FormatError;
use crate::types::acceleration::Acceleration;
use crate::types::angle::Angle;
use crate::types::head_position::HeadPosition;
use crate::types::primitive::{profile_range, u14};
use crate::types::range_code::RangeCode;
use crate::types::sonar_return_magic::SonarReturnMagic;
use crate::types::sonar_return_status::SonarReturnStatus;
use crate::types::sonar_type::SonarType;
use crate::types::util::bytes::{
    appended_keeps, appended_twice, available, holds_at, holds_both, put_zeros, skip, skip_spec,
    stretches_join, word_at, zeros, Endian,
};
use crate::types::util::primitive::{
    parse_u8, parse_u8_spec, parsed_is_put_back, put_is_parsed_back, put_u8, put_u8_spec,
};
use vstd::prelude::*;

verus! {

/// What the head reports of one ping, before the echo data. On the wire it takes 32 bytes, in
/// big-endian order.
#[derive(Debug, Clone, Copy, PartialEq)]
pub struct SonarReturnHeader {
    /// The identifier of the return.
    pub magic: SonarReturnMagic,
    /// The kind of head.
    pub sonar_type: SonarType,
    /// The status flags.
    pub status: SonarReturnStatus,
    /// The position of the head.
    pub head_position: HeadPosition,
    /// The range setting.
    pub range_code: RangeCode,
    /// The distance to the detected target, in tenths of a millimetre.
    pub profile_range: i32,
    /// The number of bytes of echo data that follow the header.
    pub data_length: u16,
    /// The roll angle.
    pub roll_angle: Angle,
    /// The pitch angle.
    pub pitch_angle: Angle,
    /// The roll acceleration.
    pub roll_acceleration: Acceleration,
    /// The pitch acceleration.
    pub pitch_acceleration: Acceleration,
}

/// Every part of a return header that was read, each with the offset behind it, or its failure.
pub struct SonarReturnHeaderParts {
    pub magic: Result<(SonarReturnMagic, usize), FormatError>,
    pub sonar_type: Result<(SonarType, usize), FormatError>,
    pub status: Result<(SonarReturnStatus, usize), FormatError>,
    pub head_position: Result<(HeadPosition, usize), FormatError>,
    pub range_code: Result<(RangeCode, usize), FormatError>,
    pub profile_range: Result<(i32, usize), FormatError>,
    pub data_length: Result<(u16, usize), FormatError>,
    pub after_data_length: Result<usize, FormatError>,
    pub roll_angle: Result<(Angle, usize), FormatError>,
    pub pitch_angle: Result<(Angle, usize), FormatError>,
    pub roll_acceleration: Result<(Acceleration, usize), FormatError>,
    pub pitch_acceleration: Result<(Acceleration, usize), FormatError>,
    pub after_pitch_acceleration: Result<usize, FormatError>,
}

/// Every part of a return header whose writing can fail, as it is written: its bytes, or its
/// failure.
pub struct SonarReturnHeaderWritten {
    pub sonar_type: Result<Seq<u8>, FormatError>,
    pub head_position: Result<Seq<u8>, FormatError>,
    pub range_code: Result<Seq<u8>, FormatError>,
    pub profile_range: Result<Seq<u8>, FormatError>,
    pub data_length: Result<Seq<u8>, FormatError>,
    pub roll_angle: Result<Seq<u8>, FormatError>,
    pub pitch_angle: Result<Seq<u8>, FormatError>,
    pub roll_acceleration: Result<Seq<u8>, FormatError>,
    pub pitch_acceleration: Result<Seq<u8>, FormatError>,
}

impl SonarReturnHeader {
    /// The number of bytes of a return header on the wire.
    pub const LENGTH: usize = 32;

    /// Every part of the return header at `pos`, each read at its own offset.
    pub open spec fn parts(input: Seq<u8>, pos: usize) -> SonarReturnHeaderParts {
        let range_code = parse_u8_spec::<RangeCode>(input, (pos + 7) as usize);
        SonarReturnHeaderParts {
            magic: SonarReturnMagic::parse_spec(input, pos),
            sonar_type: parse_u8_spec::<SonarType>(input, (pos + 3) as usize),
            status: SonarReturnStatus::parse_spec(input, (pos + 4) as usize),
            head_position: HeadPosition::parse_spec(input, (pos + 5) as usize, Endian::Big),
            range_code: parse_u8_spec::<RangeCode>(input, (pos + 7) as usize),
            profile_range: match range_code {
                Ok((range_code, _)) => {
                    profile_range::parse_spec(input, (pos + 8) as usize, Endian::Big, range_code)
                },
                Err(e) => Err(e),
            },
            data_length: u14::parse_spec(input, (pos + 10) as usize, Endian::Big),
            after_data_length: skip_spec(input, (pos + 12) as usize, 4),
            roll_angle: Angle::parse_spec(input, (pos + 16) as usize, Endian::Big),
            pitch_angle: Angle::parse_spec(input, (pos + 18) as usize, Endian::Big),
            roll_acceleration: Acceleration::parse_spec(input, (pos + 20) as usize, Endian::Big),
            pitch_acceleration: Acceleration::parse_spec(input, (pos + 22) as usize, Endian::Big),
            after_pitch_acceleration: skip_spec(input, (pos + 24) as usize, 8),
        }
    }

    /// What parsing a return header at `pos` gives: the return header and the offset behind it, or
    /// the failure. The parts are read in the order of the wire, and the first that fails
    /// gives the failure.
    #[verifier::opaque]
    pub open spec fn parse_spec(
        input: Seq<u8>,
        pos: usize,
    ) -> Result<(SonarReturnHeader, usize), FormatError> {
        let parts = Self::parts(input, pos);
        if parts.magic is Err {
            Err(parts.magic->Err_0)
        } else if parts.sonar_type is Err {
            Err(parts.sonar_type->Err_0)
        } else if parts.status is Err {
            Err(parts.status->Err_0)
        } else if parts.head_position is Err {
            Err(parts.head_position->Err_0)
        } else if parts.range_code is Err {
            Err(parts.range_code->Err_0)
        } else if parts.profile_range is Err {
            Err(parts.profile_range->Err_0)
        } else if parts.data_length is Err {
            Err(parts.data_length->Err_0)
        } else if parts.after_data_length is Err {
            Err(parts.after_data_length->Err_0)
        } else if parts.roll_angle is Err {
            Err(parts.roll_angle->Err_0)
        } else if parts.pitch_angle is Err {
            Err(parts.pitch_angle->Err_0)
        } else if parts.roll_acceleration is Err {
            Err(parts.roll_acceleration->Err_0)
        } else if parts.pitch_acceleration is Err {
            Err(parts.pitch_acceleration->Err_0)
        } else if parts.after_pitch_acceleration is Err {
            Err(parts.after_pitch_acceleration->Err_0)
        } else {
            let value = SonarReturnHeader {
                magic: parts.magic->Ok_0.0,
                sonar_type: parts.sonar_type->Ok_0.0,
                status: parts.status->Ok_0.0,
                head_position: parts.head_position->Ok_0.0,
                range_code: parts.range_code->Ok_0.0,
                profile_range: parts.profile_range->Ok_0.0,
                data_length: parts.data_length->Ok_0.0,
                roll_angle: parts.roll_angle->Ok_0.0,
                pitch_angle: parts.pitch_angle->Ok_0.0,
                roll_acceleration: parts.roll_acceleration->Ok_0.0,
                pitch_acceleration: parts.pitch_acceleration->Ok_0.0,
            };
            Ok((value, (pos + 32) as usize))
        }
    }

    /// Every part of the return header whose writing can fail, as it is written at offset `pos`.
    pub open spec fn written(self, pos: usize) -> SonarReturnHeaderWritten {
        SonarReturnHeaderWritten {
            sonar_type: put_u8_spec::<SonarType>(self.sonar_type, (pos + 3) as usize),
            head_position: self.head_position.write_spec((pos + 5) as usize, Endian::Big),
            range_code: put_u8_spec::<RangeCode>(self.range_code, (pos + 7) as usize),
            profile_range: profile_range::write_spec(
                self.profile_range,
                (pos + 8) as usize,
                Endian::Big,
                self.range_code,
            ),
            data_length: u14::write_spec(self.data_length, (pos + 10) as usize, Endian::Big),
            roll_angle: self.roll_angle.write_spec((pos + 16) as usize, Endian::Big),
            pitch_angle: self.pitch_angle.write_spec((pos + 18) as usize, Endian::Big),
            roll_acceleration: self.roll_acceleration.write_spec((pos + 20) as usize, Endian::Big),
            pitch_acceleration: self.pitch_acceleration.write_spec(
                (pos + 22) as usize,
                Endian::Big,
            ),
        }
    }

    /// The bytes of the return header, given the bytes of its parts whose writing can fail.
    pub open spec fn bytes(self, written: SonarReturnHeaderWritten) -> Seq<u8> {
        self.magic.bytes()
            + written.sonar_type->Ok_0
            + self.status.write_spec()
            + written.head_position->Ok_0
            + written.range_code->Ok_0
            + written.profile_range->Ok_0
            + written.data_length->Ok_0
            + zeros(4)
            + written.roll_angle->Ok_0
            + written.pitch_angle->Ok_0
            + written.roll_acceleration->Ok_0
            + written.pitch_acceleration->Ok_0
            + zeros(8)
    }

    /// What writing the return header at offset `pos` gives: its 32 bytes, or the failure.
    /// The parts are written in the order of the wire, and the first that fails gives the
    /// failure.
    #[verifier::opaque]
    pub open spec fn write_spec(self, pos: usize) -> Result<Seq<u8>, FormatError> {
        let written = self.written(pos);
        if written.sonar_type is Err {
            Err(written.sonar_type->Err_0)
        } else if written.head_position is Err {
            Err(written.head_position->Err_0)
        } else if written.range_code is Err {
            Err(written.range_code->Err_0)
        } else if written.profile_range is Err {
            Err(written.profile_range->Err_0)
        } else if written.data_length is Err {
            Err(written.data_length->Err_0)
        } else if written.roll_angle is Err {
            Err(written.roll_angle->Err_0)
        } else if written.pitch_angle is Err {
            Err(written.pitch_angle->Err_0)
        } else if written.roll_acceleration is Err {
            Err(written.roll_acceleration->Err_0)
        } else if written.pitch_acceleration is Err {
            Err(written.pitch_acceleration->Err_0)
        } else {
            Ok(self.bytes(written))
        }
    }

    /// Parses a return header from the 32 bytes at `pos`.
    pub fn parse(input: &[u8], pos: usize) -> (r: Result<(SonarReturnHeader, usize), FormatError>)
        ensures
            r == Self::parse_spec(input@, pos),
    {
        proof {
            reveal(SonarReturnHeader::parse_spec);
        }
        let _ = input.len();
        let (magic, next) = SonarReturnMagic::parse(input, pos)?;
        let (sonar_type, next) = parse_u8::<SonarType>(input, next)?;
        let (status, next) = SonarReturnStatus::parse(input, next)?;
        let (head_position, next) = HeadPosition::parse(input, next, Endian::Big)?;
        let (range_code, next) = parse_u8::<RangeCode>(input, next)?;
        let (profile_range, next) = profile_range::parse(input, next, Endian::Big, range_code)?;
        let (data_length, next) = u14::parse(input, next, Endian::Big)?;
        let next = skip(input, next, 4)?;
        let (roll_angle, next) = Angle::parse(input, next, Endian::Big)?;
        let (pitch_angle, next) = Angle::parse(input, next, Endian::Big)?;
        let (roll_acceleration, next) = Acceleration::parse(input, next, Endian::Big)?;
        let (pitch_acceleration, next) = Acceleration::parse(input, next, Endian::Big)?;
        let next = skip(input, next, 8)?;
        let value = SonarReturnHeader {
            magic,
            sonar_type,
            status,
            head_position,
            range_code,
            profile_range,
            data_length,
            roll_angle,
            pitch_angle,
            roll_acceleration,
            pitch_acceleration,
        };
        Ok((value, next))
    }

    /// Appends the parts of the return header to `out`, up to the first that fails.
    #[verifier::rlimit(40)]
    fn write_parts(&self, out: &mut Vec<u8>, pos: usize) -> (r: Result<(), FormatError>)
        requires
            pos == old(out)@.len(),
        ensures
            match self.write_spec(pos) {
                Ok(bytes) => r.is_ok() && final(out)@ == old(out)@ + bytes,
                Err(e) => r == Err::<(), FormatError>(e) && old(out)@.len() <= final(out)@.len()
                    && final(out)@.subrange(0, old(out)@.len() as int) == old(out)@,
            },
    {
        proof {
            reveal(SonarReturnHeader::write_spec);
        }
        let ghost start = old(out)@;
        let ghost written = self.written(pos);
        let ghost mut done = Seq::<u8>::empty();
        self.magic.write(out)?;
        proof {
            done = self.magic.bytes();
            assert(done.len() == 3);
            appended_keeps(start, done);
        }
        put_u8::<SonarType>(self.sonar_type, out)?;
        proof {
            appended_twice(start, done, written.sonar_type->Ok_0);
            done = done + written.sonar_type->Ok_0;
            assert(done.len() == 4);
            appended_keeps(start, done);
        }
        self.status.write(out)?;
        proof {
            appended_twice(start, done, self.status.write_spec());
            done = done + self.status.write_spec();
            assert(done.len() == 5);
            appended_keeps(start, done);
        }
        self.head_position.write(out, Endian::Big)?;
        proof {
            appended_twice(start, done, written.head_position->Ok_0);
            done = done + written.head_position->Ok_0;
            assert(done.len() == 7);
            appended_keeps(start, done);
        }
        put_u8::<RangeCode>(self.range_code, out)?;
        proof {
            appended_twice(start, done, written.range_code->Ok_0);
            done = done + written.range_code->Ok_0;
            assert(done.len() == 8);
            appended_keeps(start, done);
        }
        profile_range::write(&self.profile_range, out, Endian::Big, &self.range_code)?;
        proof {
            appended_twice(start, done, written.profile_range->Ok_0);
            done = done + written.profile_range->Ok_0;
            assert(done.len() == 10);
            appended_keeps(start, done);
        }
        u14::write(&self.data_length, out, Endian::Big)?;
        proof {
            appended_twice(start, done, written.data_length->Ok_0);
            done = done + written.data_length->Ok_0;
            assert(done.len() == 12);
            appended_keeps(start, done);
        }
        put_zeros(4, out);
        proof {
            appended_twice(start, done, zeros(4));
            done = done + zeros(4);
            assert(done.len() == 16);
            appended_keeps(start, done);
        }
        self.roll_angle.write(out, Endian::Big)?;
        proof {
            appended_twice(start, done, written.roll_angle->Ok_0);
            done = done + written.roll_angle->Ok_0;
            assert(done.len() == 18);
            appended_keeps(start, done);
        }
        self.pitch_angle.write(out, Endian::Big)?;
        proof {
            appended_twice(start, done, written.pitch_angle->Ok_0);
            done = done + written.pitch_angle->Ok_0;
            assert(done.len() == 20);
            appended_keeps(start, done);
        }
        self.roll_acceleration.write(out, Endian::Big)?;
        proof {
            appended_twice(start, done, written.roll_acceleration->Ok_0);
            done = done + written.roll_acceleration->Ok_0;
            assert(done.len() == 22);
            appended_keeps(start, done);
        }
        self.pitch_acceleration.write(out, Endian::Big)?;
        proof {
            appended_twice(start, done, written.pitch_acceleration->Ok_0);
            done = done + written.pitch_acceleration->Ok_0;
            assert(done.len() == 24);
            appended_keeps(start, done);
        }
        put_zeros(8, out);
        proof {
            appended_twice(start, done, zeros(8));
            done = done + zeros(8);
            assert(done.len() == 32);
            appended_keeps(start, done);
        }
        Ok(())
    }

    /// Appends the 32 bytes of the return header to `out`. On a failure `out` is left as it was.
    pub fn write(&self, out: &mut Vec<u8>) -> (r: Result<(), FormatError>)
        ensures
            match self.write_spec(old(out)@.len() as usize) {
                Ok(bytes) => r.is_ok() && final(out)@ == old(out)@ + bytes,
                Err(e) => r == Err::<(), FormatError>(e) && final(out)@ == old(out)@,
            },
    {
        let start: usize = out.len();
        match self.write_parts(out, start) {
            Ok(()) => Ok(()),
            Err(e) => {
                out.truncate(start);
                Err(e)
            },
        }
    }

    /// Whether the return header is one that the wire carries exactly: every part is in range and a
    /// whole number of its steps.
    pub open spec fn exact(self) -> bool {
        self.head_position.exact()
            && profile_range::exact_for(self.range_code, self.profile_range)
            && u14::valid_spec(self.data_length)
            && self.roll_angle.exact()
            && self.pitch_angle.exact()
            && self.roll_acceleration.exact()
            && self.pitch_acceleration.exact()
    }

    /// Whether the bytes at `pos` are written the way this library writes a return header: the
    /// reserved bytes are zero, and so is every bit that belongs to no field.
    pub open spec fn canonical(input: Seq<u8>, pos: usize) -> bool {
        SonarReturnStatus::canonical(input[(pos + 4) as usize as int])
            && HeadPosition::canonical(word_at(input, (pos + 5) as usize, Endian::Big))
            && u14::canonical(word_at(input, (pos + 8) as usize, Endian::Big))
            && u14::canonical(word_at(input, (pos + 10) as usize, Endian::Big))
            && input.subrange(pos + 12, pos + 16) == zeros(4)
            && input.subrange(pos + 24, pos + 32) == zeros(8)
    }

    /// A return header that is written takes 32 bytes.
    pub proof fn written_len(self, pos: usize)
        ensures
            self.write_spec(pos) matches Ok(bytes) ==> bytes.len() == 32,
    {
        reveal(SonarReturnHeader::write_spec);
    }

    /// A return header that is parsed takes 32 bytes.
    pub proof fn parsed_len(input: Seq<u8>, pos: usize)
        requires
            input.len() <= usize::MAX,
        ensures
            Self::parse_spec(input, pos) matches Ok((_, next)) ==> next == pos + 32 && available(
                input,
                pos,
                32,
            ),
    {
        reveal(SonarReturnHeader::parse_spec);
    }

    /// Where `input` holds the bytes of the return header at `pos`, it holds each part at its
    /// offset.
    proof fn parts_hold(self, input: Seq<u8>, pos: usize)
        requires
            input.len() <= usize::MAX,
            self.write_spec(pos).is_ok(),
            holds_at(input, pos, self.write_spec(pos)->Ok_0),
        ensures
            holds_at(input, pos, self.magic.bytes()),
            holds_at(input, (pos + 3) as usize, self.written(pos).sonar_type->Ok_0),
            holds_at(input, (pos + 4) as usize, self.status.write_spec()),
            holds_at(input, (pos + 5) as usize, self.written(pos).head_position->Ok_0),
            holds_at(input, (pos + 7) as usize, self.written(pos).range_code->Ok_0),
            holds_at(input, (pos + 8) as usize, self.written(pos).profile_range->Ok_0),
            holds_at(input, (pos + 10) as usize, self.written(pos).data_length->Ok_0),
            holds_at(input, (pos + 12) as usize, zeros(4)),
            holds_at(input, (pos + 16) as usize, self.written(pos).roll_angle->Ok_0),
            holds_at(input, (pos + 18) as usize, self.written(pos).pitch_angle->Ok_0),
            holds_at(input, (pos + 20) as usize, self.written(pos).roll_acceleration->Ok_0),
            holds_at(input, (pos + 22) as usize, self.written(pos).pitch_acceleration->Ok_0),
            holds_at(input, (pos + 24) as usize, zeros(8)),
    {
        reveal(SonarReturnHeader::write_spec);
        let w0 = self.magic.bytes();
        let w1 = w0 + self.written(pos).sonar_type->Ok_0;
        let w2 = w1 + self.status.write_spec();
        let w3 = w2 + self.written(pos).head_position->Ok_0;
        let w4 = w3 + self.written(pos).range_code->Ok_0;
        let w5 = w4 + self.written(pos).profile_range->Ok_0;
        let w6 = w5 + self.written(pos).data_length->Ok_0;
        let w7 = w6 + zeros(4);
        let w8 = w7 + self.written(pos).roll_angle->Ok_0;
        let w9 = w8 + self.written(pos).pitch_angle->Ok_0;
        let w10 = w9 + self.written(pos).roll_acceleration->Ok_0;
        let w11 = w10 + self.written(pos).pitch_acceleration->Ok_0;
        let w12 = w11 + zeros(8);
        holds_both(input, pos, w11, zeros(8));
        assert(w11.len() == 24);
        holds_both(input, pos, w10, self.written(pos).pitch_acceleration->Ok_0);
        assert(w10.len() == 22);
        holds_both(input, pos, w9, self.written(pos).roll_acceleration->Ok_0);
        assert(w9.len() == 20);
        holds_both(input, pos, w8, self.written(pos).pitch_angle->Ok_0);
        assert(w8.len() == 18);
        holds_both(input, pos, w7, self.written(pos).roll_angle->Ok_0);
        assert(w7.len() == 16);
        holds_both(input, pos, w6, zeros(4));
        assert(w6.len() == 12);
        holds_both(input, pos, w5, self.written(pos).data_length->Ok_0);
        assert(w5.len() == 10);
        holds_both(input, pos, w4, self.written(pos).profile_range->Ok_0);
        assert(w4.len() == 8);
        holds_both(input, pos, w3, self.written(pos).range_code->Ok_0);
        assert(w3.len() == 7);
        holds_both(input, pos, w2, self.written(pos).head_position->Ok_0);
        assert(w2.len() == 5);
        holds_both(input, pos, w1, self.status.write_spec());
        assert(w1.len() == 4);
        holds_both(input, pos, w0, self.written(pos).sonar_type->Ok_0);
        assert(w0.len() == 3);
    }

    /// Where `input` holds each part of the exact return header at its offset, each part is parsed
    /// back.
    proof fn parts_are_read_back(self, input: Seq<u8>, pos: usize)
        requires
            input.len() <= usize::MAX,
            self.exact(),
            self.write_spec(pos).is_ok(),
            available(input, pos, 32),
            holds_at(input, pos, self.magic.bytes()),
            holds_at(input, (pos + 3) as usize, self.written(pos).sonar_type->Ok_0),
            holds_at(input, (pos + 4) as usize, self.status.write_spec()),
            holds_at(input, (pos + 5) as usize, self.written(pos).head_position->Ok_0),
            holds_at(input, (pos + 7) as usize, self.written(pos).range_code->Ok_0),
            holds_at(input, (pos + 8) as usize, self.written(pos).profile_range->Ok_0),
            holds_at(input, (pos + 10) as usize, self.written(pos).data_length->Ok_0),
            holds_at(input, (pos + 12) as usize, zeros(4)),
            holds_at(input, (pos + 16) as usize, self.written(pos).roll_angle->Ok_0),
            holds_at(input, (pos + 18) as usize, self.written(pos).pitch_angle->Ok_0),
            holds_at(input, (pos + 20) as usize, self.written(pos).roll_acceleration->Ok_0),
            holds_at(input, (pos + 22) as usize, self.written(pos).pitch_acceleration->Ok_0),
            holds_at(input, (pos + 24) as usize, zeros(8)),
        ensures
            Self::parts(input, pos) == (SonarReturnHeaderParts {
                magic: Ok((self.magic, (pos + 3) as usize)),
                sonar_type: Ok((self.sonar_type, (pos + 4) as usize)),
                status: Ok((self.status, (pos + 5) as usize)),
                head_position: Ok((self.head_position, (pos + 7) as usize)),
                range_code: Ok((self.range_code, (pos + 8) as usize)),
                profile_range: Ok((self.profile_range, (pos + 10) as usize)),
                data_length: Ok((self.data_length, (pos + 12) as usize)),
                after_data_length: Ok((pos + 16) as usize),
                roll_angle: Ok((self.roll_angle, (pos + 18) as usize)),
                pitch_angle: Ok((self.pitch_angle, (pos + 20) as usize)),
                roll_acceleration: Ok((self.roll_acceleration, (pos + 22) as usize)),
                pitch_acceleration: Ok((self.pitch_acceleration, (pos + 24) as usize)),
                after_pitch_acceleration: Ok((pos + 32) as usize),
            }),
    {
        reveal(SonarReturnHeader::write_spec);
        let parts = Self::parts(input, pos);
        assert(parts.magic == Ok::<(SonarReturnMagic, usize), FormatError>(
            (self.magic, (pos + 3) as usize),
        )) by {
            self.magic.written_is_read_back(input, pos);
        }
        assert(parts.sonar_type == Ok::<(SonarType, usize), FormatError>(
            (self.sonar_type, (pos + 4) as usize),
        )) by {
            put_is_parsed_back::<SonarType>(self.sonar_type, input, (pos + 3) as usize);
        }
        assert(parts.status == Ok::<(SonarReturnStatus, usize), FormatError>(
            (self.status, (pos + 5) as usize),
        )) by {
            self.status.written_is_read_back(input, (pos + 4) as usize);
        }
        assert(parts.head_position == Ok::<(HeadPosition, usize), FormatError>(
            (self.head_position, (pos + 7) as usize),
        )) by {
            self.head_position.written_is_read_back(input, (pos + 5) as usize, Endian::Big);
        }
        assert(parts.range_code == Ok::<(RangeCode, usize), FormatError>(
            (self.range_code, (pos + 8) as usize),
        )) by {
            put_is_parsed_back::<RangeCode>(self.range_code, input, (pos + 7) as usize);
        }
        assert(parts.profile_range == Ok::<(i32, usize), FormatError>(
            (self.profile_range, (pos + 10) as usize),
        )) by {
            profile_range::written_is_read_back(
                self.profile_range,
                input,
                (pos + 8) as usize,
                Endian::Big,
                self.range_code,
            );
        }
        assert(parts.data_length == Ok::<(u16, usize), FormatError>(
            (self.data_length, (pos + 12) as usize),
        )) by {
            u14::written_is_read_back(self.data_length, input, (pos + 10) as usize, Endian::Big);
        }
        assert(parts.roll_angle == Ok::<(Angle, usize), FormatError>(
            (self.roll_angle, (pos + 18) as usize),
        )) by {
            self.roll_angle.written_is_read_back(input, (pos + 16) as usize, Endian::Big);
        }
        assert(parts.pitch_angle == Ok::<(Angle, usize), FormatError>(
            (self.pitch_angle, (pos + 20) as usize),
        )) by {
            self.pitch_angle.written_is_read_back(input, (pos + 18) as usize, Endian::Big);
        }
        assert(parts.roll_acceleration == Ok::<(Acceleration, usize), FormatError>(
            (self.roll_acceleration, (pos + 22) as usize),
        )) by {
            self.roll_acceleration.written_is_read_back(input, (pos + 20) as usize, Endian::Big);
        }
        assert(parts.pitch_acceleration == Ok::<(Acceleration, usize), FormatError>(
            (self.pitch_acceleration, (pos + 24) as usize),
        )) by {
            self.pitch_acceleration.written_is_read_back(input, (pos + 22) as usize, Endian::Big);
        }
    }

    /// An exact return header is parsed back from the bytes that it is written as.
    pub proof fn written_is_read_back(self, input: Seq<u8>, pos: usize)
        requires
            input.len() <= usize::MAX,
        ensures
            self.exact() && self.write_spec(pos).is_ok() && holds_at(
                input,
                pos,
                self.write_spec(pos)->Ok_0,
            ) ==> Self::parse_spec(input, pos) == Ok::<(SonarReturnHeader, usize), FormatError>(
                (self, (pos + 32) as usize),
            ),
    {
        if self.exact() && self.write_spec(pos).is_ok() && holds_at(
                input,
                pos,
                self.write_spec(pos)->Ok_0,
            ) {
            reveal(SonarReturnHeader::parse_spec);
            self.written_len(pos);
            self.parts_hold(input, pos);
            self.parts_are_read_back(input, pos);
        }
    }

    /// Each part of canonical bytes that parse is written back as the bytes at its offset.
    proof fn parts_are_written_back(input: Seq<u8>, pos: usize)
        requires
            input.len() <= usize::MAX,
            Self::parse_spec(input, pos).is_ok(),
            Self::canonical(input, pos),
        ensures
            Self::parse_spec(input, pos)->Ok_0.0.exact(),
            Self::parse_spec(input, pos)->Ok_0.0.write_spec(pos).is_ok(),
            available(input, pos, 32),
            Self::parse_spec(input, pos)->Ok_0.0.magic.bytes()
                == input.subrange(pos as int, pos + 3),
            Self::parse_spec(input, pos)->Ok_0.0.written(pos).sonar_type->Ok_0
                == input.subrange(pos + 3, pos + 4),
            Self::parse_spec(input, pos)->Ok_0.0.status.write_spec()
                == input.subrange(pos + 4, pos + 5),
            Self::parse_spec(input, pos)->Ok_0.0.written(pos).head_position->Ok_0
                == input.subrange(pos + 5, pos + 7),
            Self::parse_spec(input, pos)->Ok_0.0.written(pos).range_code->Ok_0
                == input.subrange(pos + 7, pos + 8),
            Self::parse_spec(input, pos)->Ok_0.0.written(pos).profile_range->Ok_0
                == input.subrange(pos + 8, pos + 10),
            Self::parse_spec(input, pos)->Ok_0.0.written(pos).data_length->Ok_0
                == input.subrange(pos + 10, pos + 12),
            zeros(4) == input.subrange(pos + 12, pos + 16),
            Self::parse_spec(input, pos)->Ok_0.0.written(pos).roll_angle->Ok_0
                == input.subrange(pos + 16, pos + 18),
            Self::parse_spec(input, pos)->Ok_0.0.written(pos).pitch_angle->Ok_0
                == input.subrange(pos + 18, pos + 20),
            Self::parse_spec(input, pos)->Ok_0.0.written(pos).roll_acceleration->Ok_0
                == input.subrange(pos + 20, pos + 22),
            Self::parse_spec(input, pos)->Ok_0.0.written(pos).pitch_acceleration->Ok_0
                == input.subrange(pos + 22, pos + 24),
            zeros(8) == input.subrange(pos + 24, pos + 32),
    {
        reveal(SonarReturnHeader::parse_spec);
        reveal(SonarReturnHeader::write_spec);
        let parts = Self::parts(input, pos);
        let value = Self::parse_spec(input, pos)->Ok_0.0;
        assert(value.magic.bytes() == input.subrange(pos as int, pos + 3)) by {
            SonarReturnMagic::read_is_written_back(input, pos);
        }
        assert(value.written(pos).sonar_type == Ok::<Seq<u8>, FormatError>(
            input.subrange(pos + 3, pos + 4),
        )) by {
            parsed_is_put_back::<SonarType>(input, (pos + 3) as usize);
        }
        assert(value.status.write_spec() == input.subrange(pos + 4, pos + 5)) by {
            SonarReturnStatus::read_is_written_back(input, (pos + 4) as usize);
        }
        assert(value.written(pos).head_position == Ok::<Seq<u8>, FormatError>(
            input.subrange(pos + 5, pos + 7),
        ) && value.head_position.exact()) by {
            HeadPosition::read_is_written_back(input, (pos + 5) as usize, Endian::Big);
        }
        assert(value.written(pos).range_code == Ok::<Seq<u8>, FormatError>(
            input.subrange(pos + 7, pos + 8),
        )) by {
            parsed_is_put_back::<RangeCode>(input, (pos + 7) as usize);
        }
        assert(value.written(pos).profile_range == Ok::<Seq<u8>, FormatError>(
            input.subrange(pos + 8, pos + 10),
        ) && profile_range::exact_for(value.range_code, value.profile_range)) by {
            profile_range::read_is_written_back(
                input,
                (pos + 8) as usize,
                Endian::Big,
                value.range_code,
            );
        }
        assert(value.written(pos).data_length == Ok::<Seq<u8>, FormatError>(
            input.subrange(pos + 10, pos + 12),
        ) && u14::valid_spec(value.data_length)) by {
            u14::read_is_written_back(input, (pos + 10) as usize, Endian::Big);
        }
        assert(value.written(pos).roll_angle == Ok::<Seq<u8>, FormatError>(
            input.subrange(pos + 16, pos + 18),
        ) && value.roll_angle.exact()) by {
            Angle::read_is_written_back(input, (pos + 16) as usize, Endian::Big);
        }
        assert(value.written(pos).pitch_angle == Ok::<Seq<u8>, FormatError>(
            input.subrange(pos + 18, pos + 20),
        ) && value.pitch_angle.exact()) by {
            Angle::read_is_written_back(input, (pos + 18) as usize, Endian::Big);
        }
        assert(value.written(pos).roll_acceleration == Ok::<Seq<u8>, FormatError>(
            input.subrange(pos + 20, pos + 22),
        ) && value.roll_acceleration.exact()) by {
            Acceleration::read_is_written_back(input, (pos + 20) as usize, Endian::Big);
        }
        assert(value.written(pos).pitch_acceleration == Ok::<Seq<u8>, FormatError>(
            input.subrange(pos + 22, pos + 24),
        ) && value.pitch_acceleration.exact()) by {
            Acceleration::read_is_written_back(input, (pos + 22) as usize, Endian::Big);
        }
    }

    /// The stretches of `input` that hold the parts make the stretch that holds the return header.
    proof fn parts_join(input: Seq<u8>, pos: usize)
        requires
            available(input, pos, 32),
        ensures
            input.subrange(pos as int, pos + 3)
                + input.subrange(pos + 3, pos + 4)
                + input.subrange(pos + 4, pos + 5)
                + input.subrange(pos + 5, pos + 7)
                + input.subrange(pos + 7, pos + 8)
                + input.subrange(pos + 8, pos + 10)
                + input.subrange(pos + 10, pos + 12)
                + input.subrange(pos + 12, pos + 16)
                + input.subrange(pos + 16, pos + 18)
                + input.subrange(pos + 18, pos + 20)
                + input.subrange(pos + 20, pos + 22)
                + input.subrange(pos + 22, pos + 24)
                + input.subrange(pos + 24, pos + 32) == input.subrange(
                pos as int,
                pos + 32,
            ),
    {
        stretches_join(input, pos as int, pos + 3, pos + 4);
        stretches_join(input, pos as int, pos + 4, pos + 5);
        stretches_join(input, pos as int, pos + 5, pos + 7);
        stretches_join(input, pos as int, pos + 7, pos + 8);
        stretches_join(input, pos as int, pos + 8, pos + 10);
        stretches_join(input, pos as int, pos + 10, pos + 12);
        stretches_join(input, pos as int, pos + 12, pos + 16);
        stretches_join(input, pos as int, pos + 16, pos + 18);
        stretches_join(input, pos as int, pos + 18, pos + 20);
        stretches_join(input, pos as int, pos + 20, pos + 22);
        stretches_join(input, pos as int, pos + 22, pos + 24);
        stretches_join(input, pos as int, pos + 24, pos + 32);
    }

    /// Bytes that parse and are canonical are written back from the return header parsed from them,
    /// which is exact.
    pub proof fn read_is_written_back(input: Seq<u8>, pos: usize)
        requires
            input.len() <= usize::MAX,
        ensures
            Self::parse_spec(input, pos).is_ok() && Self::canonical(input, pos)
                ==> Self::parse_spec(input, pos)->Ok_0.0.exact() && Self::parse_spec(
                input,
                pos,
            )->Ok_0.0.write_spec(pos) == Ok::<Seq<u8>, FormatError>(
                input.subrange(pos as int, pos + 32),
            ),
    {
        if Self::parse_spec(input, pos).is_ok() && Self::canonical(input, pos) {
            reveal(SonarReturnHeader::write_spec);
            Self::parts_are_written_back(input, pos);
            Self::parts_join(input, pos);
        }
    }
}

} // verus!
