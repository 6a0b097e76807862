//! Roll and pitch angles: a signed 14-bit count of steps of 0.025 degrees, with two flags.
use crate::error::{ErrorKind, Field, FormatError};
use crate::types::primitive::i14f2;
use crate::types::util::bytes::{available, holds_at, word_at, Endian};
use std::cmp::Ordering;
use vstd::prelude::*;
use vstd::std_specs::cmp::PartialOrdSpecImpl;
use vstd::std_specs::convert::FromSpecImpl;

verus! {

/// A roll or pitch angle with its two flags.
#[derive(Debug, Clone, Copy, PartialEq, Eq, Structural)]
pub struct Angle {
    /// The angle in thousandths of a degree.
    pub angle: i32,
    /// Whether the reading is new since the last ping.
    pub new_data: bool,
    /// Whether the sensor raised its error alarm.
    pub error_alarm: bool,
}

impl Angle {
    /// The thousandths of a degree in one step of the count: 0.025 degrees.
    pub const SCALE: i32 = 25;

    /// The largest value that the wire can carry.
    pub const MAX: i32 = 204_775;

    /// The smallest value that the wire can carry.
    pub const MIN: i32 = -204_800;

    /// The value with its two flags.
    pub fn new(angle: i32, new_data: bool, error_alarm: bool) -> (r: Self)
        ensures
            r == (Angle { angle, new_data, error_alarm }),
    {
        Angle { angle, new_data, error_alarm }
    }

    /// Whether `angle` lies in the range that the wire can carry.
    pub open spec fn valid_angle_spec(angle: i32) -> bool {
        Self::MIN <= angle <= Self::MAX
    }

    /// Whether the value lies in the range that the wire can carry.
    pub open spec fn valid_spec(self) -> bool {
        Self::valid_angle_spec(self.angle)
    }

    /// Whether the value is one that the wire carries exactly: in range, and a whole number
    /// of steps.
    #[verifier::opaque]
    pub open spec fn exact(self) -> bool {
        self.valid_spec() && self.angle % Self::SCALE == 0
    }

    /// The 14-bit count that stands for the value: the value over the scale, rounded toward
    /// zero.
    #[verifier::opaque]
    pub open spec fn count(self) -> i16 {
        i14f2::truncating_quotient(self.angle as int, Self::SCALE as int) as i16
    }

    /// What parsing at `pos` gives: the value and the offset behind it, or the failure.
    pub open spec fn parse_spec(input: Seq<u8>, pos: usize, endian: Endian) -> Result<
        (Angle, usize),
        FormatError,
    > {
        match i14f2::parse_spec(input, pos, endian) {
            Ok(((raw, new_data, error_alarm), next)) => Ok(
                (Angle { angle: (raw * Self::SCALE) as i32, new_data, error_alarm }, next),
            ),
            Err(e) => Err(e),
        }
    }

    /// What writing the value at offset `pos` gives: its two bytes, or the failure.
    pub open spec fn write_spec(self, pos: usize, endian: Endian) -> Result<Seq<u8>, FormatError> {
        if self.valid_spec() {
            i14f2::write_spec((self.count(), self.new_data, self.error_alarm), pos, endian)
        } else {
            Err(FormatError { kind: ErrorKind::FieldOutOfRange, pos, field: Field::Angle })
        }
    }

    /// Whether `angle` lies in the range that the wire can carry.
    pub fn valid_angle(angle: i32) -> (ok: bool)
        ensures
            ok == Self::valid_angle_spec(angle),
    {
        Self::MIN <= angle && angle <= Self::MAX
    }

    /// Whether the value lies in the range that the wire can carry.
    pub fn valid(&self) -> (ok: bool)
        ensures
            ok == self.valid_spec(),
    {
        Self::valid_angle(self.angle)
    }

    /// Parses the value from the two bytes at `pos`: the signed 14-bit count times the scale,
    /// and the two flags.
    pub fn parse(
        input: &[u8],
        pos: usize,
        endian: Endian,
    ) -> (r: Result<(Angle, usize), FormatError>)
        ensures
            r == Self::parse_spec(input@, pos, endian),
            r matches Ok((value, _)) ==> value.exact(),
    {
        match i14f2::parse(input, pos, endian) {
            Ok(((raw, new_data, error_alarm), next)) => {
                proof {
                    reveal(Angle::exact);
                    i14f2::sign_extension(word_at(input@, pos, endian));
                }
                let angle: i32 = (raw as i32) * Self::SCALE;
                Ok((Angle { angle, new_data, error_alarm }, next))
            },
            Err(e) => Err(e),
        }
    }

    /// Appends the two bytes of the value to `out`. A value out of range is refused, and `out`
    /// is left as it was; the failure names the offset at which the bytes would have begun.
    pub fn write(&self, out: &mut Vec<u8>, endian: Endian) -> (r: Result<(), FormatError>)
        ensures
            match self.write_spec(old(out)@.len() as usize, endian) {
                Ok(bytes) => r.is_ok() && final(out)@ == old(out)@ + bytes,
                Err(e) => r == Err::<(), FormatError>(e) && final(out)@ == old(out)@,
            },
    {
        if !self.valid() {
            return Err(FormatError::new(ErrorKind::FieldOutOfRange, out.len(), Field::Angle));
        }
        proof {
            reveal(Angle::count);
        }
        let raw: i16 = if self.angle >= 0 {
            (self.angle / Self::SCALE) as i16
        } else {
            -(((-self.angle) / Self::SCALE) as i16)
        };
        let values: (i16, bool, bool) = (raw, self.new_data, self.error_alarm);
        i14f2::write(&values, out, endian)
    }

    /// A count times the scale is an exact value, and stands for that count.
    pub proof fn scaled_count_is_exact(raw: i16, new_data: bool, error_alarm: bool)
        requires
            i14f2::valid_spec(raw),
        ensures
            (Angle { angle: (raw * Self::SCALE) as i32, new_data, error_alarm }).exact(),
            (Angle { angle: (raw * Self::SCALE) as i32, new_data, error_alarm }).count() == raw,
    {
        reveal(Angle::exact);
        reveal(Angle::count);
        let value = raw * 25;
        assert(value % 25 == 0);
        if raw >= 0 {
            assert(value / 25 == raw);
        } else {
            assert((-value) / 25 == -raw);
        }
    }

    /// A value out of range is never written, both bounds of the range are, and every value
    /// that is parsed is in range.
    pub proof fn range_is_enforced(self, input: Seq<u8>, pos: usize, endian: Endian)
        ensures
            !self.valid_spec() ==> self.write_spec(pos, endian) == Err::<Seq<u8>, FormatError>(
                FormatError { kind: ErrorKind::FieldOutOfRange, pos, field: Field::Angle },
            ),
            self.valid_spec() ==> self.write_spec(pos, endian).is_ok(),
            self.angle == Self::MIN || self.angle == Self::MAX
                ==> self.write_spec(pos, endian).is_ok(),
            Self::parse_spec(input, pos, endian) matches Ok((value, _)) ==> value.valid_spec(),
    {
        reveal(Angle::exact);
        reveal(Angle::count);
        if available(input, pos, 2) {
            let (raw, new_data, error_alarm) = i14f2::from_raw(word_at(input, pos, endian));
            i14f2::sign_extension(word_at(input, pos, endian));
            Self::scaled_count_is_exact(raw, new_data, error_alarm);
        }
    }

    /// An exact value is parsed back from the bytes that it is written as.
    pub proof fn written_is_read_back(self, input: Seq<u8>, pos: usize, endian: Endian)
        requires
            self.exact(),
            input.len() <= usize::MAX,
            self.write_spec(pos, endian) matches Ok(bytes) && holds_at(input, pos, bytes),
        ensures
            Self::parse_spec(input, pos, endian) == Ok::<(Angle, usize), FormatError>(
                (self, (pos + 2) as usize),
            ),
    {
        reveal(Angle::exact);
        reveal(Angle::count);
        i14f2::written_is_read_back(
            (self.count(), self.new_data, self.error_alarm),
            input,
            pos,
            endian,
        );
    }

    /// Any two bytes are written back from the value parsed from them, which is exact.
    pub proof fn read_is_written_back(input: Seq<u8>, pos: usize, endian: Endian)
        requires
            input.len() <= usize::MAX,
            available(input, pos, 2),
        ensures
            Self::parse_spec(input, pos, endian) matches Ok((value, next)) && next == pos + 2
                && value.exact() && value.write_spec(pos, endian) == Ok::<Seq<u8>, FormatError>(
                input.subrange(pos as int, pos + 2),
            ),
    {
        i14f2::read_is_written_back(input, pos, endian);
        i14f2::sign_extension(word_at(input, pos, endian));
        let (raw, new_data, error_alarm) = i14f2::from_raw(word_at(input, pos, endian));
        Self::scaled_count_is_exact(raw, new_data, error_alarm);
    }
}

impl PartialOrd for Angle {
    fn partial_cmp(&self, other: &Self) -> (r: Option<Ordering>) {
        if self.angle < other.angle {
            Some(Ordering::Less)
        } else if self.angle > other.angle {
            Some(Ordering::Greater)
        } else {
            Some(Ordering::Equal)
        }
    }
}

impl PartialOrdSpecImpl for Angle {
    open spec fn obeys_partial_cmp_spec() -> bool {
        true
    }

    open spec fn partial_cmp_spec(&self, other: &Self) -> Option<Ordering> {
        if self.angle < other.angle {
            Some(Ordering::Less)
        } else if self.angle > other.angle {
            Some(Ordering::Greater)
        } else {
            Some(Ordering::Equal)
        }
    }
}

impl From<i32> for Angle {
    fn from(angle: i32) -> (r: Self) {
        Angle { angle, new_data: false, error_alarm: false }
    }
}

impl FromSpecImpl<i32> for Angle {
    open spec fn obeys_from_spec() -> bool {
        true
    }

    open spec fn from_spec(angle: i32) -> Self {
        Angle { angle, new_data: false, error_alarm: false }
    }
}

} // verus!
