//! The **Date Time** primitive, a timestamp in text.
//!
//! ## Wire format
//! Three fields of text, each filled up with NUL bytes:
//! - Date: 12 bytes, `DD-MMM-YYYY`, the month abbreviated in upper case,
//! - Time: 9 bytes, `HH:MM:SS`, and
//! - Sub-seconds: 4 bytes,
//!     - *PipeSonarL* up to version 1012: `.hh` (_hundredths of seconds_), or
//!     - *PipeSonarL* version 1013 and above: `mmm` (_milliseconds_).
//!
//! The calendar is left to `chrono`: it reads the date and the time, adds the sub-seconds to
//! the time, and writes both back as text.
use crate::error::{ErrorKind, Field, FormatError};
use crate::types::primitive::string;
use crate::types::util::bytes::{holds_at, holds_both};
use std::fmt::Write;
use vstd::prelude::*;
use vstd::string::StrSliceExecFns;
use vstd::utf8::{decode_utf8, encode_utf8, valid_utf8};

verus! {

/// The format of the date field.
pub const DATE_FORMAT: &'static str = "%d-%b-%Y";

/// The format of the time field.
pub const TIME_FORMAT: &'static str = "%H:%M:%S";

/// The width of the date field.
pub const DATE_LENGTH: usize = 12;

/// The width of the time field.
pub const TIME_LENGTH: usize = 9;

/// The width of the sub-seconds field.
pub const SUB_LENGTH: usize = 4;

/// The nanoseconds in a hundredth of a second.
pub const NANOSECONDS_PER_HUNDREDTH: u32 = 10_000_000;

/// The nanoseconds in a millisecond.
pub const NANOSECONDS_PER_MILLISECOND: u32 = 1_000_000;

/// The format of the sub-seconds component of the **Date Time** primitive.
#[derive(Debug, Clone, Copy, PartialEq, Eq, Structural, Hash)]
pub enum SubFormat {
    /// Hundredths of Seconds (`.hh`) for *PipeSonarL* up to version 1012.
    Hundredths,
    /// Milliseconds (`mmm`) for *PipeSonarL* version 1013 and above.
    Milliseconds,
}

impl Default for SubFormat {
    fn default() -> (r: Self)
        ensures
            r == SubFormat::Hundredths,
    {
        SubFormat::Hundredths
    }
}

/// A date and a time of day in UTC, as plain numbers.
#[derive(Debug, Clone, Copy, PartialEq, Eq, Structural, Hash)]
pub struct DateTime {
    pub year: i32,
    /// The month, from 1.
    pub month: u32,
    /// The day of the month, from 1.
    pub day: u32,
    pub hour: u32,
    pub minute: u32,
    pub second: u32,
    /// The nanoseconds since the whole second; 1,000,000,000 and more within a leap second.
    pub nanosecond: u32,
}

/// `chrono::format::ParseError`, why `chrono` could not read a text. It is carried from the
/// call to the place where it becomes a failure of the codec, and never looked into.
#[verifier::external_type_specification]
#[verifier::external_body]
pub struct ExParseError(chrono::format::ParseError);

/// The year, month and day that `chrono` reads from `text` under `format`, if it reads one.
pub uninterp spec fn date_from_text(text: Seq<char>, format: Seq<char>) -> Option<(i32, u32, u32)>;

/// The hour, minute, second and nanosecond that `chrono` reads from `text` under `format`, if
/// it reads one.
pub uninterp spec fn time_from_text(text: Seq<char>, format: Seq<char>) -> Option<
    (u32, u32, u32, u32),
>;

/// The time of day that `chrono` gives for the given time of day and `nanoseconds` more, if it
/// accepts the time of day.
pub uninterp spec fn time_after(
    hour: u32,
    minute: u32,
    second: u32,
    nanosecond: u32,
    nanoseconds: i64,
) -> Option<(u32, u32, u32, u32)>;

/// The text that `chrono` writes for the date and time under `format`, if it accepts the date
/// and time and the format.
pub uninterp spec fn text_from_datetime(
    year: i32,
    month: u32,
    day: u32,
    hour: u32,
    minute: u32,
    second: u32,
    nanosecond: u32,
    format: Seq<char>,
) -> Option<Seq<char>>;

/// `chrono::NaiveDate::parse_from_str`, with the date that it reads taken apart into year,
/// month and day by `Datelike`. Nothing is claimed of the result but that it depends on the
/// text and the format alone: the date is `date_from_text` of them.
#[verifier::external_body]
fn parse_date(text: &str, format: &str) -> (r: Result<(i32, u32, u32), chrono::format::ParseError>)
    ensures
        match r {
            Ok(date) => date_from_text(text@, format@) == Some(date),
            Err(_) => date_from_text(text@, format@).is_none(),
        },
{
    match chrono::NaiveDate::parse_from_str(text, format) {
        Ok(date) => Ok(
            (
                chrono::Datelike::year(&date),
                chrono::Datelike::month(&date),
                chrono::Datelike::day(&date),
            ),
        ),
        Err(e) => Err(e),
    }
}

/// `chrono::NaiveTime::parse_from_str`, with the time that it reads taken apart into hour,
/// minute, second and nanosecond by `Timelike`. Nothing is claimed of the result but that it
/// depends on the text and the format alone: the time is `time_from_text` of them.
#[verifier::external_body]
fn parse_time(text: &str, format: &str) -> (r: Result<
    (u32, u32, u32, u32),
    chrono::format::ParseError,
>)
    ensures
        match r {
            Ok(time) => time_from_text(text@, format@) == Some(time),
            Err(_) => time_from_text(text@, format@).is_none(),
        },
{
    match chrono::NaiveTime::parse_from_str(text, format) {
        Ok(time) => Ok(
            (
                chrono::Timelike::hour(&time),
                chrono::Timelike::minute(&time),
                chrono::Timelike::second(&time),
                chrono::Timelike::nanosecond(&time),
            ),
        ),
        Err(e) => Err(e),
    }
}

/// The sum of a `chrono::NaiveTime` and a `chrono::TimeDelta` of `nanoseconds` (`Add` for
/// `NaiveTime`), which wraps around midnight. The time is put together by
/// `NaiveTime::from_hms_nano_opt`, and where that refuses the numbers there is no sum. Nothing
/// is claimed of the result but that it depends on the arguments alone: it is `time_after` of
/// them.
#[verifier::external_body]
fn add_nanoseconds(
    time: (u32, u32, u32, u32),
    nanoseconds: i64,
) -> (r: Option<(u32, u32, u32, u32)>)
    ensures
        r == time_after(time.0, time.1, time.2, time.3, nanoseconds),
{
    match chrono::NaiveTime::from_hms_nano_opt(time.0, time.1, time.2, time.3) {
        Some(start) => {
            let sum = start + chrono::TimeDelta::nanoseconds(nanoseconds);
            Some(
                (
                    chrono::Timelike::hour(&sum),
                    chrono::Timelike::minute(&sum),
                    chrono::Timelike::second(&sum),
                    chrono::Timelike::nanosecond(&sum),
                ),
            )
        },
        None => None,
    }
}

/// `chrono::DateTime::<Utc>::format`, written out as text. The date and time are put together
/// by `NaiveDate::from_ymd_opt` and `NaiveDate::and_hms_nano_opt`; where they refuse the
/// numbers, or the format cannot be written, there is no text. Nothing is claimed of the result
/// but that it depends on the arguments alone: it is `text_from_datetime` of them.
#[verifier::external_body]
fn format_datetime(datetime: &DateTime, format: &str) -> (r: Option<String>)
    ensures
        match r {
            Some(text) => text_from_datetime(
                datetime.year,
                datetime.month,
                datetime.day,
                datetime.hour,
                datetime.minute,
                datetime.second,
                datetime.nanosecond,
                format@,
            ) == Some(text@),
            None => text_from_datetime(
                datetime.year,
                datetime.month,
                datetime.day,
                datetime.hour,
                datetime.minute,
                datetime.second,
                datetime.nanosecond,
                format@,
            ).is_none(),
        },
{
    let date = chrono::NaiveDate::from_ymd_opt(datetime.year, datetime.month, datetime.day)?;
    let naive = date.and_hms_nano_opt(
        datetime.hour,
        datetime.minute,
        datetime.second,
        datetime.nanosecond,
    )?;
    let mut text = String::new();
    match write!(text, "{}", naive.and_utc().format(format)) {
        Ok(()) => Some(text),
        Err(_) => None,
    }
}

/// Whether every byte of `text` is a decimal digit.
pub open spec fn all_digits(text: Seq<u8>) -> bool {
    forall|i: int| 0 <= i < text.len() ==> 0x30 <= #[trigger] text[i] <= 0x39
}

/// The number that the decimal digits `digits` write.
pub open spec fn number(digits: Seq<u8>) -> int
    decreases digits.len(),
{
    if digits.len() == 0 {
        0
    } else {
        number(digits.drop_last()) * 10 + (digits.last() - 0x30)
    }
}

/// `text` without a plus sign at its head.
pub open spec fn unsigned(text: Seq<u8>) -> Seq<u8> {
    if text.len() > 0 && text[0] == 0x2B {
        text.skip(1)
    } else {
        text
    }
}

/// The number that `text` writes in decimal: at least one digit, after at most one plus sign,
/// and no more than 32 bits can hold.
pub open spec fn decimal_spec(text: Seq<u8>) -> Option<u32> {
    if unsigned(text).len() > 0 && all_digits(unsigned(text)) && number(unsigned(text))
        <= u32::MAX {
        Some(number(unsigned(text)) as u32)
    } else {
        None
    }
}

/// `text` without the full stops at its head.
pub open spec fn without_stops(text: Seq<u8>) -> Seq<u8>
    decreases text.len(),
{
    if text.len() > 0 && text[0] == 0x2E {
        without_stops(text.skip(1))
    } else {
        text
    }
}

/// The nanoseconds that the text of a sub-seconds field stands for; `pos` is the offset that a
/// failure names. Behind a full stop stand hundredths of a second, up to 99; without one,
/// milliseconds, up to 999.
pub open spec fn sub_nanoseconds_spec(text: Seq<u8>, pos: usize) -> Result<u32, FormatError> {
    let hundredths = text.len() > 0 && text[0] == 0x2E;
    let digits = if hundredths {
        without_stops(text)
    } else {
        text
    };
    match decimal_spec(digits) {
        None => Err(FormatError { kind: ErrorKind::EncodingError, pos, field: Field::SubSeconds }),
        Some(count) => if hundredths && count <= 99 {
            Ok((count * NANOSECONDS_PER_HUNDREDTH) as u32)
        } else if !hundredths && count <= 999 {
            Ok((count * NANOSECONDS_PER_MILLISECOND) as u32)
        } else {
            Err(FormatError { kind: ErrorKind::FieldOutOfRange, pos, field: Field::SubSeconds })
        },
    }
}

/// The decimal digit for `n`.
pub open spec fn digit(n: u32) -> u8 {
    (0x30 + n % 10) as u8
}

/// `count` in decimal, with at least `width` digits.
pub open spec fn digits_of(count: u32, width: int) -> Seq<u8>
    recommends
        count < 10_000,
        2 <= width <= 3,
{
    if count >= 1000 {
        seq![digit(count / 1000), digit(count / 100), digit(count / 10), digit(count)]
    } else if count >= 100 || width >= 3 {
        seq![digit(count / 100), digit(count / 10), digit(count)]
    } else {
        seq![digit(count / 10), digit(count)]
    }
}

/// The text of the sub-seconds field for `nanosecond`: a full stop and the hundredths of a
/// second in two digits, or the milliseconds in three.
pub open spec fn sub_text(nanosecond: u32, sub_format: SubFormat) -> Seq<u8> {
    match sub_format {
        SubFormat::Hundredths => seq![0x2Eu8] + digits_of(
            nanosecond / NANOSECONDS_PER_HUNDREDTH,
            2,
        ),
        SubFormat::Milliseconds => digits_of(nanosecond / NANOSECONDS_PER_MILLISECOND, 3),
    }
}

/// `bytes` with every small letter of ASCII made a capital.
pub open spec fn upper(bytes: Seq<u8>) -> Seq<u8> {
    Seq::new(
        bytes.len(),
        |i: int|
            if 0x61 <= bytes[i] <= 0x7A {
                (bytes[i] - 0x20) as u8
            } else {
                bytes[i]
            },
    )
}

impl DateTime {
    /// The date and time with these numbers.
    pub fn new(
        year: i32,
        month: u32,
        day: u32,
        hour: u32,
        minute: u32,
        second: u32,
        nanosecond: u32,
    ) -> (r: Self)
        ensures
            r == (DateTime { year, month, day, hour, minute, second, nanosecond }),
    {
        DateTime { year, month, day, hour, minute, second, nanosecond }
    }

    /// The text that `chrono` writes for the date and time under `format`.
    pub open spec fn text(self, format: Seq<char>) -> Option<Seq<char>> {
        text_from_datetime(
            self.year,
            self.month,
            self.day,
            self.hour,
            self.minute,
            self.second,
            self.nanosecond,
            format,
        )
    }
}

/// What the date, the time and the sub-seconds that were read make together; `time_pos` and
/// `sub_pos` are the offsets of the time and the sub-seconds fields, which a failure names.
pub open spec fn assemble_spec(
    date: Option<(i32, u32, u32)>,
    time: Option<(u32, u32, u32, u32)>,
    sub: Seq<u8>,
    date_pos: usize,
    time_pos: usize,
    sub_pos: usize,
) -> Result<((i32, u32, u32), (u32, u32, u32, u32), u32), FormatError> {
    match date {
        None => Err(
            FormatError { kind: ErrorKind::EncodingError, pos: date_pos, field: Field::Date }
        ),
        Some(date) => match time {
            None => Err(
                FormatError { kind: ErrorKind::EncodingError, pos: time_pos, field: Field::Time },
            ),
            Some(time) => match sub_nanoseconds_spec(sub, sub_pos) {
                Err(e) => Err(e),
                Ok(nanoseconds) => Ok((date, time, nanoseconds)),
            },
        },
    }
}

/// What parsing a **Date Time** at `pos` gives: the date and time and the offset behind the
/// three fields, or the failure. The three texts are read first; then the date, the time and
/// the sub-seconds are understood, in this order, and the first that is not fails at the offset
/// of its field.
pub open spec fn parse_spec(input: Seq<u8>, pos: usize) -> Result<(DateTime, usize), FormatError> {
    match string::parse_spec(input, pos, DATE_LENGTH) {
        Err(e) => Err(e),
        Ok((date_text, time_pos)) => match string::parse_spec(input, time_pos, TIME_LENGTH) {
            Err(e) => Err(e),
            Ok((time_text, sub_pos)) => match string::parse_spec(input, sub_pos, SUB_LENGTH) {
                Err(e) => Err(e),
                Ok((sub_text, next)) => match assemble_spec(
                    date_from_text(date_text, DATE_FORMAT@),
                    time_from_text(time_text, TIME_FORMAT@),
                    encode_utf8(sub_text),
                    pos,
                    time_pos,
                    sub_pos,
                ) {
                    Err(e) => Err(e),
                    Ok((date, time, nanoseconds)) => match time_after(
                        time.0,
                        time.1,
                        time.2,
                        time.3,
                        nanoseconds as i64,
                    ) {
                        None => Err(
                            FormatError {
                                kind: ErrorKind::FieldOutOfRange,
                                pos: time_pos,
                                field: Field::Time,
                            },
                        ),
                        Some(time) => Ok(
                            (
                                DateTime {
                                    year: date.0,
                                    month: date.1,
                                    day: date.2,
                                    hour: time.0,
                                    minute: time.1,
                                    second: time.2,
                                    nanosecond: time.3,
                                },
                                next,
                            ),
                        ),
                    },
                },
            },
        },
    }
}

/// The bytes of the three fields, given the texts of the date and of the time.
pub open spec fn fields_spec(
    date_text: Seq<char>,
    time_text: Seq<char>,
    nanosecond: u32,
    sub_format: SubFormat,
) -> Seq<u8> {
    string::padded(upper(encode_utf8(date_text)), DATE_LENGTH) + string::padded(
        encode_utf8(time_text),
        TIME_LENGTH,
    ) + string::padded(sub_text(nanosecond, sub_format), SUB_LENGTH)
}

/// What writing `datetime` at offset `pos` gives: the 25 bytes of the three fields, or the
/// failure where the date and time have no text.
pub open spec fn write_spec(datetime: DateTime, pos: usize, sub_format: SubFormat) -> Result<
    Seq<u8>,
    FormatError,
> {
    match datetime.text(DATE_FORMAT@) {
        None => Err(FormatError { kind: ErrorKind::Unrepresentable, pos, field: Field::Date }),
        Some(date_text) => match datetime.text(TIME_FORMAT@) {
            None => Err(FormatError { kind: ErrorKind::Unrepresentable, pos, field: Field::Time }),
            Some(time_text) => Ok(
                fields_spec(date_text, time_text, datetime.nanosecond, sub_format),
            ),
        },
    }
}

/// Sub-seconds that the field carries exactly are read back from their text: whole hundredths
/// of a second behind a full stop, whole milliseconds without one.
pub proof fn sub_seconds_are_read_back(nanosecond: u32, sub_format: SubFormat, pos: usize)
    requires
        nanosecond < 1_000_000_000,
        sub_format == SubFormat::Hundredths ==> nanosecond % NANOSECONDS_PER_HUNDREDTH == 0,
        sub_format == SubFormat::Milliseconds ==> nanosecond % NANOSECONDS_PER_MILLISECOND == 0,
    ensures
        sub_text(nanosecond, sub_format).len() <= SUB_LENGTH,
        sub_nanoseconds_spec(sub_text(nanosecond, sub_format), pos) == Ok::<u32, FormatError>(
            nanosecond,
        ),
{
    reveal_with_fuel(number, 4);
    reveal_with_fuel(without_stops, 2);
    match sub_format {
        SubFormat::Hundredths => {
            let count = nanosecond / NANOSECONDS_PER_HUNDREDTH;
            let digits = digits_of(count, 2);
            let text = sub_text(nanosecond, sub_format);
            assert(text.skip(1) =~= digits);
            assert(without_stops(digits) == digits);
            assert(unsigned(digits) == digits);
            assert(digits.drop_last() =~= seq![digit(count / 10)]);
            assert(digits.drop_last().drop_last() =~= Seq::<u8>::empty());
            assert(number(digits) == count);
        },
        SubFormat::Milliseconds => {
            let count = nanosecond / NANOSECONDS_PER_MILLISECOND;
            let digits = digits_of(count, 3);
            assert(unsigned(digits) == digits);
            assert(digits.drop_last() =~= seq![digit(count / 100), digit(count / 10)]);
            assert(digits.drop_last().drop_last() =~= seq![digit(count / 100)]);
            assert(digits.drop_last().drop_last().drop_last() =~= Seq::<u8>::empty());
            assert(number(digits) == count);
        },
    }
}

/// Whether the text of `datetime` reads back as `datetime`. The date and the time must have
/// texts; the date in capitals must fit its field, and `chrono` must read it as the date; the
/// time must fit its field, and `chrono` must read it as a time that is the time of day once the
/// sub-seconds are added; and the sub-seconds must be below a second, and whole steps of the
/// format.
pub open spec fn reads_back(datetime: DateTime, sub_format: SubFormat) -> bool {
    let date_text = datetime.text(DATE_FORMAT@);
    let time_text = datetime.text(TIME_FORMAT@);
    let date_bytes = upper(encode_utf8(date_text->Some_0));
    let time = time_from_text(time_text->Some_0, TIME_FORMAT@);
    &&& date_text is Some
    &&& time_text is Some
    &&& string::fits(date_bytes, DATE_LENGTH)
    &&& valid_utf8(date_bytes)
    &&& date_from_text(decode_utf8(date_bytes), DATE_FORMAT@) == Some(
        (datetime.year, datetime.month, datetime.day),
    )
    &&& string::fits(encode_utf8(time_text->Some_0), TIME_LENGTH)
    &&& time is Some
    &&& time_after(
        time->Some_0.0,
        time->Some_0.1,
        time->Some_0.2,
        time->Some_0.3,
        datetime.nanosecond as i64,
    ) == Some((datetime.hour, datetime.minute, datetime.second, datetime.nanosecond))
    &&& datetime.nanosecond < 1_000_000_000
    &&& sub_format == SubFormat::Hundredths ==> datetime.nanosecond % NANOSECONDS_PER_HUNDREDTH == 0
    &&& sub_format == SubFormat::Milliseconds ==> datetime.nanosecond % NANOSECONDS_PER_MILLISECOND
        == 0
}

/// A date and time whose text reads back is parsed back from the bytes that it is written as.
pub proof fn written_is_read_back(
    datetime: DateTime,
    input: Seq<u8>,
    pos: usize,
    sub_format: SubFormat,
)
    requires
        input.len() <= usize::MAX,
    ensures
        reads_back(datetime, sub_format) && holds_at(
            input,
            pos,
            write_spec(datetime, pos, sub_format)->Ok_0,
        ) ==> parse_spec(input, pos) == Ok::<(DateTime, usize), FormatError>(
            (datetime, (pos + 25) as usize),
        ),
{
    if reads_back(datetime, sub_format) && holds_at(
        input,
        pos,
        write_spec(datetime, pos, sub_format)->Ok_0,
    ) {
        let date_bytes = upper(encode_utf8(datetime.text(DATE_FORMAT@)->Some_0));
        let time_text = datetime.text(TIME_FORMAT@)->Some_0;
        let sub = sub_text(datetime.nanosecond, sub_format);
        let date_field = string::padded(date_bytes, DATE_LENGTH);
        let time_field = string::padded(encode_utf8(time_text), TIME_LENGTH);
        let sub_field = string::padded(sub, SUB_LENGTH);
        let time_pos = (pos + 12) as usize;
        let sub_pos = (pos + 21) as usize;
        sub_seconds_are_read_back(datetime.nanosecond, sub_format, sub_pos);
        holds_both(input, pos, date_field + time_field, sub_field);
        holds_both(input, pos, date_field, time_field);
        string::field_is_read_back(date_bytes, input, pos, DATE_LENGTH);
        string::written_is_read_back(time_text, input, time_pos, TIME_LENGTH);
        assert(string::fits(sub, SUB_LENGTH));
        string::field_is_read_back(sub, input, sub_pos, SUB_LENGTH);
        string::ascii_is_utf8(sub);
    }
}

/// The three fields take 25 bytes.
pub proof fn written_len(datetime: DateTime, pos: usize, sub_format: SubFormat)
    ensures
        write_spec(datetime, pos, sub_format) matches Ok(bytes) ==> bytes.len() == 25,
{
}

/// The digits at the head of a number write no more than the whole.
pub proof fn number_grows(digits: Seq<u8>, n: int)
    requires
        all_digits(digits),
        0 <= n <= digits.len(),
    ensures
        0 <= number(digits.subrange(0, n)) <= number(digits),
    decreases digits.len() - n,
{
    if n == digits.len() {
        assert(digits.subrange(0, n) =~= digits);
        number_is_natural(digits);
    } else {
        let longer = digits.subrange(0, n + 1);
        assert(longer.drop_last() =~= digits.subrange(0, n));
        assert(longer.last() == digits[n]);
        number_is_natural(digits.subrange(0, n));
        number_grows(digits, n + 1);
    }
}

/// Digits write a number that is not negative.
pub proof fn number_is_natural(digits: Seq<u8>)
    requires
        all_digits(digits),
    ensures
        0 <= number(digits),
    decreases digits.len(),
{
    if digits.len() > 0 {
        number_is_natural(digits.drop_last());
    }
}

/// Reads the number that `text` writes in decimal.
pub fn decimal(text: &[u8]) -> (r: Option<u32>)
    ensures
        r == decimal_spec(text@),
{
    let start: usize = if text.len() > 0 && text[0] == 0x2B {
        1
    } else {
        0
    };
    let ghost digits = unsigned(text@);
    if start == text.len() {
        return None;
    }
    let mut value: u32 = 0;
    let mut i: usize = start;
    assert(digits =~= text@.skip(start as int));
    assert(digits.subrange(0, 0) =~= Seq::<u8>::empty());
    while i < text.len()
        invariant
            start <= i <= text@.len(),
            digits == unsigned(text@),
            digits == text@.skip(start as int),
            all_digits(digits.subrange(0, i - start)),
            value == number(digits.subrange(0, i - start)),
        decreases text@.len() - i,
    {
        let byte: u8 = text[i];
        if byte < 0x30 || byte > 0x39 {
            assert(digits[i - start] == byte);
            return None;
        }
        let ghost longer = digits.subrange(0, i + 1 - start);
        assert(longer.drop_last() =~= digits.subrange(0, i - start));
        assert(longer.last() == byte);
        let digit: u32 = (byte - 0x30) as u32;
        if value > (u32::MAX - digit) / 10 {
            proof {
                if all_digits(digits) {
                    number_grows(digits, i + 1 - start);
                }
            }
            return None;
        }
        value = value * 10 + digit;
        i += 1;
    }
    assert(digits.subrange(0, i - start) =~= digits);
    Some(value)
}

/// Reads the nanoseconds that the text of a sub-seconds field stands for: the hundredths of a
/// second behind a full stop, or else the milliseconds.
pub fn sub_nanoseconds(text: &[u8], pos: usize) -> (r: Result<u32, FormatError>)
    ensures
        r == sub_nanoseconds_spec(text@, pos),
{
    let hundredths: bool = text.len() > 0 && text[0] == 0x2E;
    let mut start: usize = 0;
    assert(text@.skip(0) =~= text@);
    if hundredths {
        while start < text.len() && text[start] == 0x2E
            invariant
                start <= text@.len(),
                without_stops(text@.skip(start as int)) == without_stops(text@),
            decreases text@.len() - start,
        {
            assert(text@.skip(start as int).skip(1) =~= text@.skip(start + 1));
            start += 1;
        }
    }
    let digits = vstd::slice::slice_subrange(text, start, text.len());
    assert(digits@ =~= text@.skip(start as int));
    match decimal(digits) {
        None => Err(FormatError::new(ErrorKind::EncodingError, pos, Field::SubSeconds)),
        Some(count) => if hundredths && count <= 99 {
            Ok(count * NANOSECONDS_PER_HUNDREDTH)
        } else if !hundredths && count <= 999 {
            Ok(count * NANOSECONDS_PER_MILLISECOND)
        } else {
            Err(FormatError::new(ErrorKind::FieldOutOfRange, pos, Field::SubSeconds))
        },
    }
}

/// Puts together what was read of the three fields: fails for the date, the time or the
/// sub-seconds, in this order, where one was not understood.
pub fn assemble(
    date: Option<(i32, u32, u32)>,
    time: Option<(u32, u32, u32, u32)>,
    sub: &[u8],
    date_pos: usize,
    time_pos: usize,
    sub_pos: usize,
) -> (r: Result<((i32, u32, u32), (u32, u32, u32, u32), u32), FormatError>)
    ensures
        r == assemble_spec(date, time, sub@, date_pos, time_pos, sub_pos),
{
    let date = match date {
        Some(date) => date,
        None => { return Err(FormatError::new(ErrorKind::EncodingError, date_pos, Field::Date)); },
    };
    let time = match time {
        Some(time) => time,
        None => { return Err(FormatError::new(ErrorKind::EncodingError, time_pos, Field::Time)); },
    };
    match sub_nanoseconds(sub, sub_pos) {
        Ok(nanoseconds) => Ok((date, time, nanoseconds)),
        Err(e) => Err(e),
    }
}

/// Parse a **Date Time** from the 25 bytes at `pos`.
pub fn parse(input: &[u8], pos: usize) -> (r: Result<(DateTime, usize), FormatError>)
    ensures
        r == parse_spec(input@, pos),
{
    let (date_string, time_pos) = match string::parse(input, pos, DATE_LENGTH) {
        Ok(read) => read,
        Err(e) => { return Err(e); },
    };
    let (time_string, sub_pos) = match string::parse(input, time_pos, TIME_LENGTH) {
        Ok(read) => read,
        Err(e) => { return Err(e); },
    };
    let (sub_string, next) = match string::parse(input, sub_pos, SUB_LENGTH) {
        Ok(read) => read,
        Err(e) => { return Err(e); },
    };
    let date = match parse_date(date_string.as_str(), DATE_FORMAT) {
        Ok(date) => Some(date),
        Err(_) => None,
    };
    let time = match parse_time(time_string.as_str(), TIME_FORMAT) {
        Ok(time) => Some(time),
        Err(_) => None,
    };
    let (date, time, nanoseconds) = match assemble(
        date,
        time,
        sub_string.as_str().as_bytes(),
        pos,
        time_pos,
        sub_pos,
    ) {
        Ok(read) => read,
        Err(e) => { return Err(e); },
    };
    match add_nanoseconds(time, nanoseconds as i64) {
        Some(time) => Ok(
            (
                DateTime {
                    year: date.0,
                    month: date.1,
                    day: date.2,
                    hour: time.0,
                    minute: time.1,
                    second: time.2,
                    nanosecond: time.3,
                },
                next,
            ),
        ),
        None => Err(FormatError::new(ErrorKind::FieldOutOfRange, time_pos, Field::Time)),
    }
}

/// Makes every small letter of ASCII in `bytes` a capital.
pub fn make_upper(bytes: &mut Vec<u8>)
    ensures
        final(bytes)@ == upper(old(bytes)@),
{
    let mut i: usize = 0;
    while i < bytes.len()
        invariant
            i <= bytes@.len(),
            bytes@.len() == old(bytes)@.len(),
            forall|k: int| 0 <= k < i ==> bytes@[k] == upper(old(bytes)@)[k],
            forall|k: int| i <= k < bytes@.len() ==> bytes@[k] == old(bytes)@[k],
        decreases bytes@.len() - i,
    {
        let byte: u8 = bytes[i];
        if 0x61 <= byte && byte <= 0x7A {
            bytes[i] = byte - 0x20;
        }
        i += 1;
    }
    assert(bytes@ =~= upper(old(bytes)@));
}

/// The text of the sub-seconds field for `nanosecond`.
pub fn sub_bytes(nanosecond: u32, sub_format: SubFormat) -> (r: Vec<u8>)
    ensures
        r@ == sub_text(nanosecond, sub_format),
{
    let mut text: Vec<u8> = Vec::new();
    let (count, width): (u32, u32) = match sub_format {
        SubFormat::Hundredths => {
            text.push(0x2E);
            (nanosecond / NANOSECONDS_PER_HUNDREDTH, 2)
        },
        SubFormat::Milliseconds => (nanosecond / NANOSECONDS_PER_MILLISECOND, 3),
    };
    let ghost head = text@;
    if count >= 1000 {
        text.push(0x30 + (count / 1000 % 10) as u8);
    }
    if count >= 100 || width >= 3 {
        text.push(0x30 + (count / 100 % 10) as u8);
    }
    text.push(0x30 + (count / 10 % 10) as u8);
    text.push(0x30 + (count % 10) as u8);
    assert(text@ =~= head + digits_of(count, width as int));
    text
}

/// Write a **Date Time** as 25 bytes to `out`, with the sub-seconds in `sub_format`. Where the
/// date and time have no text, nothing is written; the failure names the offset at which the
/// bytes would have begun.
pub fn write(datetime: &DateTime, out: &mut Vec<u8>, sub_format: SubFormat) -> (r: Result<
    (),
    FormatError,
>)
    ensures
        match write_spec(*datetime, old(out)@.len() as usize, sub_format) {
            Ok(bytes) => r.is_ok() && final(out)@ == old(out)@ + bytes,
            Err(e) => r == Err::<(), FormatError>(e) && final(out)@ == old(out)@,
        },
{
    let pos: usize = out.len();
    let date_string = match format_datetime(datetime, DATE_FORMAT) {
        Some(text) => text,
        None => { return Err(FormatError::new(ErrorKind::Unrepresentable, pos, Field::Date)); },
    };
    let time_string = match format_datetime(datetime, TIME_FORMAT) {
        Some(text) => text,
        None => { return Err(FormatError::new(ErrorKind::Unrepresentable, pos, Field::Time)); },
    };
    let mut date_bytes = date_string.as_str().as_bytes_vec();
    make_upper(&mut date_bytes);
    let sub = sub_bytes(datetime.nanosecond, sub_format);

    string::write_bytes(date_bytes.as_slice(), out, DATE_LENGTH);
    string::write_bytes(time_string.as_str().as_bytes(), out, TIME_LENGTH);
    string::write_bytes(sub.as_slice(), out, SUB_LENGTH);
    assert(out@ =~= old(out)@ + fields_spec(
        date_string@,
        time_string@,
        datetime.nanosecond,
        sub_format,
    ));
    Ok(())
}

} // verus!
