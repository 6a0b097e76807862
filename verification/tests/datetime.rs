use chrono::{Datelike, TimeDelta, TimeZone, Timelike, Utc};
use imagenex831l::types::primitive::datetime;
use imagenex831l::types::primitive::datetime::{
    assemble, decimal, make_upper, parse, sub_bytes, sub_nanoseconds, DateTime, SubFormat,
};
use imagenex831l::{ErrorKind, Field, FormatError};
use std::str::from_utf8;

const SCALE_NANOSECONDS_TO_HUNDREDTHS: u32 = 10_000_000;

fn plain(datetime: chrono::DateTime<Utc>) -> DateTime {
    DateTime::new(
        datetime.year(),
        datetime.month(),
        datetime.day(),
        datetime.hour(),
        datetime.minute(),
        datetime.second(),
        datetime.nanosecond(),
    )
}

#[test]
fn sub_format_default() {
    assert_eq!(SubFormat::Hundredths, SubFormat::default());
}

#[test]
fn datetime_test_parse() {
    let cases = [
        (
            b"01-JAN-2023\012:34:56\0.23\0",
            Utc.with_ymd_and_hms(2023, 1, 1, 12, 34, 56).unwrap()
                + TimeDelta::nanoseconds((23 * SCALE_NANOSECONDS_TO_HUNDREDTHS) as i64),
        ),
        (
            b"01-JAN-2023\012:34:56\0.99\0",
            Utc.with_ymd_and_hms(2023, 1, 1, 12, 34, 56).unwrap()
                + TimeDelta::nanoseconds(990_000_000), // Near 1 second
        ),
        (
            b"01-JAN-2023\012:34:57\0.00\0",
            Utc.with_ymd_and_hms(2023, 1, 1, 12, 34, 56).unwrap()
                + TimeDelta::nanoseconds(1_000_000_000), // Exactly 1 second
        ),
    ];

    for (bytes, want) in cases {
        let (got, next) = parse(bytes, 0).expect("Should succeed");
        assert_eq!(plain(want), got);
        assert_eq!(25, next);
    }
}

#[test]
fn datetime_test_write() {
    let cases = [
        (
            b"01-JAN-2023\012:34:56\0.23\0",
            Utc.with_ymd_and_hms(2023, 1, 1, 12, 34, 56).unwrap()
                + TimeDelta::nanoseconds((23 * SCALE_NANOSECONDS_TO_HUNDREDTHS) as i64),
        ),
        (
            b"01-JAN-2023\012:34:56\0.99\0",
            Utc.with_ymd_and_hms(2023, 1, 1, 12, 34, 56).unwrap()
                + TimeDelta::nanoseconds(999_000_000), // Near 1 second
        ),
        (
            b"01-JAN-2023\012:34:57\0.00\0",
            Utc.with_ymd_and_hms(2023, 1, 1, 12, 34, 56).unwrap()
                + TimeDelta::nanoseconds(1_000_000_000), // Exactly 1 second
        ),
    ];

    for (want, datetime) in cases {
        let mut out = Vec::new();

        datetime::write(&plain(datetime), &mut out, SubFormat::Hundredths)
            .expect("It should not return an error");

        let want_str = from_utf8(want).unwrap();
        let got_str = from_utf8(out.as_slice()).unwrap();

        assert_eq!(want_str, got_str);
    }
}

#[test]
fn milliseconds_are_read_and_written() {
    let (got, next) = parse(b"xx27-JUL-2023\010:19:14\0123\0", 2).expect("Should succeed");
    assert_eq!(DateTime::new(2023, 7, 27, 10, 19, 14, 123_000_000), got);
    assert_eq!(27, next);

    let mut out = vec![b'x', b'x'];
    datetime::write(&got, &mut out, SubFormat::Milliseconds).unwrap();
    assert_eq!(b"xx27-JUL-2023\010:19:14\0123\0".as_slice(), out.as_slice());

    let mut padded = Vec::new();
    datetime::write(&DateTime::new(2023, 7, 27, 10, 19, 14, 7_000_000), &mut padded, SubFormat::Milliseconds)
        .unwrap();
    assert_eq!(b"27-JUL-2023\010:19:14\0007\0".as_slice(), padded.as_slice());
    let (back, _) = parse(&padded, 0).unwrap();
    assert_eq!(DateTime::new(2023, 7, 27, 10, 19, 14, 7_000_000), back);
}

#[test]
fn every_month_is_written_in_capitals_and_read_back() {
    let names = [
        "JAN", "FEB", "MAR", "APR", "MAY", "JUN", "JUL", "AUG", "SEP", "OCT", "NOV", "DEC",
    ];
    for (index, name) in names.iter().enumerate() {
        let datetime = DateTime::new(1999, index as u32 + 1, 9, 0, 0, 0, 50_000_000);
        let mut out = Vec::new();
        datetime::write(&datetime, &mut out, SubFormat::Hundredths).unwrap();
        assert_eq!(25, out.len());
        assert_eq!(format!("09-{name}-1999\0"), from_utf8(&out[..12]).unwrap());
        assert_eq!("00:00:00\0", from_utf8(&out[12..21]).unwrap());
        assert_eq!(".05\0", from_utf8(&out[21..]).unwrap());
        let (got, _) = parse(&out, 0).unwrap();
        assert_eq!(datetime, got);
    }
}

#[test]
fn what_is_not_a_timestamp_fails() {
    // no such day
    assert_eq!(
        Err(FormatError { kind: ErrorKind::EncodingError, pos: 0, field: Field::Date }),
        parse(b"31-FEB-2023\012:34:56\0.23\0", 0)
    );
    // no such time; the failure names the offset of the time field
    assert_eq!(
        Err(FormatError { kind: ErrorKind::EncodingError, pos: 13, field: Field::Time }),
        parse(b"x01-JAN-2023\025:34:56\0.23\0", 1)
    );
    // no digits behind the full stop
    assert_eq!(
        Err(FormatError { kind: ErrorKind::EncodingError, pos: 21, field: Field::SubSeconds }),
        parse(b"01-JAN-2023\012:34:56\0.\0\0\0", 0)
    );
    assert_eq!(
        Err(FormatError { kind: ErrorKind::EncodingError, pos: 21, field: Field::SubSeconds }),
        parse(b"01-JAN-2023\012:34:56\0\0\0\0\0", 0)
    );
    // more than 99 hundredths, more than 999 milliseconds
    assert_eq!(
        Err(FormatError { kind: ErrorKind::FieldOutOfRange, pos: 21, field: Field::SubSeconds }),
        parse(b"01-JAN-2023\012:34:56\0.100", 0)
    );
    assert_eq!(
        Err(FormatError { kind: ErrorKind::FieldOutOfRange, pos: 21, field: Field::SubSeconds }),
        parse(b"01-JAN-2023\012:34:56\01000", 0)
    );
    // text that is not UTF-8 fails before anything is understood
    assert_eq!(
        Err(FormatError { kind: ErrorKind::EncodingError, pos: 12, field: Field::Text }),
        parse(b"31-FEB-2023\012:34:\xFF6\0.23\0", 0)
    );
    assert_eq!(
        Err(FormatError { kind: ErrorKind::Truncated, pos: 21, field: Field::Text }),
        parse(b"01-JAN-2023\012:34:56\0.23", 0)
    );
    // a date that the calendar does not have is not written
    let mut out = vec![1u8];
    assert_eq!(
        Err(FormatError { kind: ErrorKind::Unrepresentable, pos: 1, field: Field::Date }),
        datetime::write(&DateTime::new(2023, 2, 31, 0, 0, 0, 0), &mut out, SubFormat::Hundredths)
    );
    assert_eq!(
        Err(FormatError { kind: ErrorKind::Unrepresentable, pos: 1, field: Field::Date }),
        datetime::write(&DateTime::new(2023, 1, 1, 24, 0, 0, 0), &mut out, SubFormat::Hundredths)
    );
    assert_eq!(vec![1u8], out);
}

#[test]
fn sub_seconds_in_text() {
    assert_eq!(Ok(230_000_000), sub_nanoseconds(b".23", 0));
    assert_eq!(Ok(50_000_000), sub_nanoseconds(b"..5", 0));
    assert_eq!(Ok(990_000_000), sub_nanoseconds(b".+99", 0));
    assert_eq!(Ok(999_000_000), sub_nanoseconds(b"999", 0));
    assert_eq!(Ok(1_000_000), sub_nanoseconds(b"001", 0));
    assert_eq!(Ok(0), sub_nanoseconds(b"0", 0));
    assert_eq!(
        Err(FormatError { kind: ErrorKind::EncodingError, pos: 7, field: Field::SubSeconds }),
        sub_nanoseconds(b"1.5", 7)
    );
    assert_eq!(
        Err(FormatError { kind: ErrorKind::EncodingError, pos: 7, field: Field::SubSeconds }),
        sub_nanoseconds(b"-5", 7)
    );
    assert_eq!(Some(1234), decimal(b"1234"));
    assert_eq!(Some(7), decimal(b"+007"));
    assert_eq!(None, decimal(b"+"));
    assert_eq!(None, decimal(b""));
    assert_eq!(None, decimal(b"1 2"));

    assert_eq!(b".00".to_vec(), sub_bytes(9_999_999, SubFormat::Hundredths));
    assert_eq!(b".99".to_vec(), sub_bytes(999_999_999, SubFormat::Hundredths));
    assert_eq!(b".150".to_vec(), sub_bytes(1_500_000_000, SubFormat::Hundredths));
    assert_eq!(b"000".to_vec(), sub_bytes(999_999, SubFormat::Milliseconds));
    assert_eq!(b"042".to_vec(), sub_bytes(42_000_000, SubFormat::Milliseconds));
    assert_eq!(b"999".to_vec(), sub_bytes(999_999_999, SubFormat::Milliseconds));
    assert_eq!(b"1500".to_vec(), sub_bytes(1_500_000_000, SubFormat::Milliseconds));

    let mut text = b"01-Jan-2023 az{`".to_vec();
    make_upper(&mut text);
    assert_eq!(b"01-JAN-2023 AZ{`".to_vec(), text);
}

#[test]
fn what_was_read_is_put_together_in_order() {
    let date = Some((2023, 1, 1));
    let time = Some((12, 34, 56, 0));
    assert_eq!(Ok(((2023, 1, 1), (12, 34, 56, 0), 230_000_000)), assemble(date, time, b".23", 0, 12, 21));
    assert_eq!(
        Err(FormatError { kind: ErrorKind::EncodingError, pos: 0, field: Field::Date }),
        assemble(None, None, b"x", 0, 12, 21)
    );
    assert_eq!(
        Err(FormatError { kind: ErrorKind::EncodingError, pos: 12, field: Field::Time }),
        assemble(date, None, b"x", 0, 12, 21)
    );
    assert_eq!(
        Err(FormatError { kind: ErrorKind::EncodingError, pos: 21, field: Field::SubSeconds }),
        assemble(date, time, b"x", 0, 12, 21)
    );
}

#[test]
fn a_leap_second_keeps_its_sub_seconds() {
    let (got, _) = parse(b"30-JUN-2015\023:59:60\0.50\0", 0).unwrap();
    assert_eq!(DateTime::new(2015, 6, 30, 23, 59, 59, 1_500_000_000), got);
}
