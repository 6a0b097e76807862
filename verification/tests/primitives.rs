use imagenex831l::types::primitive::{
    absorption, frequency, i14f2, profile_min_range, profile_range, pulse_length, real_time_prf,
    sector_size, sound_velocity, start_gain, string, train_angle, u14,
};
use imagenex831l::types::{Endian, RangeCode, SonarType};
use imagenex831l::{ErrorKind, Field, FormatError};

fn scaled(value: f64, scale: f64) -> i32 {
    (value * scale).round() as i32
}

// absorption: hundredths of a decibel per metre

const ABSORPTION_CASES: [(f32, [u8; 1]); 3] = [(1.0, [100u8]), (2.55, [255u8]), (0.0, [0u8])];

#[test]
fn absorption_test_valid() {
    let min = 0.0;
    let max = 2.55;
    let cases = vec![(0.0, true), (0.0, true), (0.0, true), (min - 0.1, false), (max + 0.1, false)];

    for (absorption, want) in cases {
        let got = absorption::valid(scaled(absorption, 100.0));
        assert_eq!(want, got);
    }
}

#[test]
fn absorption_test_parse() {
    for &(want, ref bytes) in ABSORPTION_CASES.iter() {
        let (got, next) = absorption::parse(bytes, 0).expect("Should not return an error");
        assert_eq!(want, got as f32 / 100.0);
        assert_eq!(1, next);
    }
}

#[test]
fn absorption_test_write() {
    for &(absorption, ref want) in ABSORPTION_CASES.iter() {
        let mut out = Vec::new();
        absorption::write(&scaled(absorption as f64, 100.0), &mut out)
            .expect("Should not return an error");
        assert_eq!(want, out.as_slice());
    }
}

#[test]
fn absorption_test_write_invalid() {
    let min = 0.0;
    let max = 2.55;
    for absorption in [min - 0.1, min - 1.0, max + 0.1, max + 1.0] {
        let mut out = Vec::new();
        let got = absorption::write(&scaled(absorption, 100.0), &mut out);
        assert!(got.is_err(), "Should return an error");
        assert!(out.is_empty());
    }
}

#[test]
fn absorption_of_1_7_is_byte_170() {
    let mut out = Vec::new();
    absorption::write(&scaled(1.7, 100.0), &mut out).unwrap();
    assert_eq!(vec![0xAAu8], out);
    let (got, _) = absorption::parse(&[0xAA], 0).unwrap();
    assert_eq!(170, got);
    assert_eq!(1.7f32, got as f32 / 100.0);
}

#[test]
fn absorption_bounds_are_written() {
    let mut out = Vec::new();
    absorption::write(&absorption::MIN, &mut out).unwrap();
    absorption::write(&absorption::MAX, &mut out).unwrap();
    assert_eq!(vec![0u8, 255u8], out);
    let got = absorption::write(&256, &mut out);
    assert_eq!(
        Err(FormatError { kind: ErrorKind::FieldOutOfRange, pos: 2, field: Field::Absorption }),
        got
    );
    assert_eq!(Err(FormatError { kind: ErrorKind::Truncated, pos: 1, field: Field::Absorption }),
        absorption::parse(&[1], 1));
}

// i14f2

const I14_MAX: i16 = 8191;
const I14_MIN: i16 = -8192;

const I14_CASES: [(i16, bool, bool, [u8; 2]); 9] = [
    (0, false, false, [0x00, 0x00]),
    (1, false, false, [0b0000_0001, 0b0000_0000]),
    (2, true, true, [0b0000_0010, 0b1100_0000]),
    (3, true, false, [0b0000_0011, 0b1000_0000]),
    (4, false, true, [0b0000_0100, 0b0100_0000]),
    (-1, false, false, [0b1111_1111, 0b0011_1111]),
    (8191, false, false, [0b1111_1111, 0b0001_1111]),
    (-8192, false, false, [0b0000_0000, 0b0010_0000]),
    (1234, true, false, [0b1101_0010, 0b1000_0100]),
];

#[test]
fn test_valid_i14() {
    let cases = vec![
        (0, true),
        (1, true),
        (-1, true),
        (1000, true),
        (-1000, true),
        (I14_MAX + 1, false),
        (I14_MIN - 1, false),
    ];

    for (i14, want) in cases {
        let got = i14f2::valid_i14(i14);
        assert_eq!(want, got);
    }
    assert_eq!(I14_MAX, i14f2::MAX);
    assert_eq!(I14_MIN, i14f2::MIN);
}

#[test]
fn i14f2_test_parse() {
    for &(want_i14, want_flag1, want_flag2, ref bytes) in I14_CASES.iter() {
        let want = (want_i14, want_flag1, want_flag2);
        let (got, next) = i14f2::parse(bytes, 0, Endian::Big).expect("Should not return an error");
        assert_eq!(want, got);
        assert_eq!(2, next);
    }
}

#[test]
fn i14f2_test_write() {
    for &(i14, flag1, flag2, ref want) in I14_CASES.iter() {
        let mut out = Vec::new();
        i14f2::write(&(i14, flag1, flag2), &mut out, Endian::Big)
            .expect("Should not return an error");
        assert_eq!(want, out.as_slice());
    }
}

#[test]
fn i14f2_test_write_invalid() {
    let invalid_i14 = I14_MAX + 1;
    let values = (invalid_i14, true, false);

    let mut out = Vec::new();
    let got = i14f2::write(&values, &mut out, Endian::Big);
    assert!(got.is_err());
    assert_eq!(
        Err(FormatError { kind: ErrorKind::FieldOutOfRange, pos: 0, field: Field::I14 }),
        got
    );
}

#[test]
fn i14f2_sign_extension() {
    // the 14-bit patterns 0x0000, 0x3FFF and 0x2000, low byte first
    let (zero, _) = i14f2::parse(&[0x00, 0x00], 0, Endian::Big).unwrap();
    let (minus_one, _) = i14f2::parse(&[0xFF, 0x3F], 0, Endian::Big).unwrap();
    let (least, _) = i14f2::parse(&[0x00, 0x20], 0, Endian::Big).unwrap();
    assert_eq!(0, zero.0);
    assert_eq!(-1, minus_one.0);
    assert_eq!(-8192, least.0);
    for pattern in 0u16..0x4000 {
        let bytes = [(pattern & 0xFF) as u8, (pattern >> 8) as u8];
        let (got, _) = i14f2::parse(&bytes, 0, Endian::Big).unwrap();
        let want = ((pattern << 2) as i16) >> 2;
        assert_eq!(want, got.0);
    }
}

#[test]
fn i14f2_every_word_round_trips() {
    for raw in 0u16..=u16::MAX {
        let bytes = raw.to_be_bytes();
        let (got, _) = i14f2::parse(&bytes, 0, Endian::Big).unwrap();
        let mut out = Vec::new();
        i14f2::write(&got, &mut out, Endian::Big).unwrap();
        assert_eq!(bytes.as_slice(), out.as_slice());
        let little = raw.to_le_bytes();
        let (got_little, _) = i14f2::parse(&little, 0, Endian::Little).unwrap();
        assert_eq!(got, got_little);
    }
}

// u14

const U14_CASES: [(u16, [u8; 2]); 3] = [
    (0x0000, [0x00, 0x00]),
    (0b0011_1111_1111_1111, [0b0111_1111, 0b0111_1111]),
    (0b0010_1010_1010_1010, [0b0010_1010, 0b0101_0101]),
];

#[test]
fn u14_test_valid() {
    let cases = vec![(0, true), (8191, true), (16383, true), (16384, false), (65535, false)];

    for (u14_value, want) in cases {
        let got = u14::valid(u14_value);
        assert_eq!(want, got);
    }
}

#[test]
fn u14_test_parse() {
    for &(want, bytes) in U14_CASES.iter() {
        let (got, _) = u14::parse(&bytes, 0, Endian::Big).expect("It should not return an error");
        assert_eq!(want, got);
    }
}

#[test]
fn u14_test_write() {
    for (u14_value, want) in U14_CASES.iter() {
        let mut out = Vec::new();
        u14::write(u14_value, &mut out, Endian::Big).expect("It should not return an error");
        assert_eq!(want, out.as_slice());
    }
}

#[test]
fn u14_test_write_invalid() {
    let cases = [
        16384, // Invalid: just over the maximum for u14
        32768, // Invalid: exceeds the u14 range
    ];

    for u14_value in cases.iter() {
        let mut out = Vec::new();
        let error = u14::write(u14_value, &mut out, Endian::Big).unwrap_err();
        assert_eq!(ErrorKind::FieldOutOfRange, error.kind);
    }
}

#[test]
fn u14_every_value_round_trips() {
    for value in 0u16..=u14::MAX {
        let mut out = Vec::new();
        u14::write(&value, &mut out, Endian::Big).unwrap();
        assert_eq!(0, out[0] & 0x80);
        assert_eq!(0, out[1] & 0x80);
        let (got, next) = u14::parse(&out, 0, Endian::Big).unwrap();
        assert_eq!(value, got);
        assert_eq!(2, next);
    }
    assert_eq!(Err(FormatError { kind: ErrorKind::Truncated, pos: 0, field: Field::U14 }),
        u14::parse(&[0x7F], 0, Endian::Big));
}

// profile minimum range

const PROFILE_MIN_RANGE_CASES: [(f32, [u8; 1]); 4] = [
    (0.0, [0x00]),   // 0.0m
    (125.0, [0x7D]), // 125.0m
    (250.0, [0xFA]), // 250.0m
    (100.0, [0x64]), // 100.0m
];

#[test]
fn profile_min_range_test_valid() {
    let cases = vec![(0.0, true), (125.0, true), (250.0, true), (-1.0, false), (251.0, false)];

    for (profile_min_range, want) in cases {
        let got = profile_min_range::valid(scaled(profile_min_range, 1.0));
        assert_eq!(want, got);
    }
}

#[test]
fn profile_min_range_test_parse() {
    for &(want, bytes) in PROFILE_MIN_RANGE_CASES.iter() {
        let (got, _) = profile_min_range::parse(&bytes, 0).expect("It should not return an error");
        assert_eq!(want, got as f32);
    }
}

#[test]
fn profile_min_range_test_parse_invalid() {
    let cases = [
        [0xFB], // 251.0m (out of range)
        [0xFF], // 255.0m (out of range)
    ];

    for bytes in cases.iter() {
        let error = profile_min_range::parse(bytes, 0).unwrap_err();
        assert_eq!(
            FormatError { kind: ErrorKind::FieldOutOfRange, pos: 1, field: Field::ProfileMinRange },
            error
        );
    }
}

#[test]
fn profile_min_range_test_write() {
    for (profile_min_range, want) in PROFILE_MIN_RANGE_CASES.iter() {
        let mut out = Vec::new();
        profile_min_range::write(&scaled(*profile_min_range as f64, 1.0), &mut out)
            .expect("It should not return an error");
        assert_eq!(want, out.as_slice());
    }
}

#[test]
fn profile_min_range_test_write_invalid() {
    let cases = [
        -1.0,  // Below minimum
        251.0, // Above maximum
    ];

    for profile_min_range in cases.iter() {
        let mut out = Vec::new();
        let error = profile_min_range::write(&scaled(*profile_min_range, 1.0), &mut out).unwrap_err();
        assert_eq!(ErrorKind::FieldOutOfRange, error.kind);
    }
}

// pulse length

const PULSE_LENGTH_CASES: [(u16, [u8; 1]); 3] = [
    (0, [0x00]),     // 0 μs
    (500, [0x32]),   // 500 μs
    (1_000, [0x64]), // 1,000 μs
];

#[test]
fn pulse_length_test_valid() {
    assert!(pulse_length::valid(0));
    assert!(pulse_length::valid(500));
    assert!(pulse_length::valid(1_000));
    assert!(!pulse_length::valid(1_001));
}

#[test]
fn pulse_length_test_parse() {
    for &(want, bytes) in PULSE_LENGTH_CASES.iter() {
        let (got, _) = pulse_length::parse(&bytes, 0).expect("It should not return an error");
        assert_eq!(want, got);
    }
}

#[test]
fn pulse_length_test_parse_invalid() {
    let cases = [
        [0x65], // 1,010 μs (out of range)
        [0xFF], // 2,550 μs (out of range)
    ];

    for bytes in cases.iter() {
        let error = pulse_length::parse(bytes, 0).unwrap_err();
        assert_eq!(ErrorKind::FieldOutOfRange, error.kind);
    }
}

#[test]
fn pulse_length_test_write() {
    for (pulse_length, want) in PULSE_LENGTH_CASES.iter() {
        let mut out = Vec::new();
        pulse_length::write(pulse_length, &mut out).expect("It should not return an error");
        assert_eq!(want, out.as_slice());
    }
}

#[test]
fn pulse_length_test_write_invalid() {
    let cases = [
        1_010, // Just over max
        2_550, // Well over max
    ];

    for pulse_length in cases.iter() {
        let mut out = Vec::new();
        let error = pulse_length::write(pulse_length, &mut out).unwrap_err();
        assert_eq!(ErrorKind::FieldOutOfRange, error.kind);
    }
}

// real-time PRF: hundredths of a hertz

const REAL_TIME_PRF_CASES: [(f32, [u8; 2]); 4] = [
    (0.00, [0x00, 0x00]),   // 0.00 Hz
    (4.00, [0x01, 0x90]),   // 4.00 Hz
    (327.67, [0x7F, 0xFF]), // 327.67 Hz
    (200.00, [0x4E, 0x20]), // 200.00 Hz
];

#[test]
fn real_time_prf_test_valid() {
    let cases = vec![(0.0, true), (327.67, true), (150.25, true), (-1.0, false), (327.68, false)];

    for (prf, want) in cases {
        let got = real_time_prf::valid(scaled(prf, 100.0));
        assert_eq!(want, got);
    }
}

#[test]
fn real_time_prf_test_parse() {
    for &(want, bytes) in REAL_TIME_PRF_CASES.iter() {
        let (result, _) =
            real_time_prf::parse(&bytes, 0, Endian::Big).expect("It should not return an error");
        assert_eq!(result as f32 / 100.0, want);
    }
}

#[test]
fn real_time_prf_test_write() {
    for (prf, want) in REAL_TIME_PRF_CASES.iter() {
        let mut out = Vec::new();
        real_time_prf::write(&scaled(*prf as f64, 100.0), &mut out, Endian::Big)
            .expect("It should not return an error");
        assert_eq!(want, out.as_slice());
    }
}

#[test]
fn real_time_prf_test_write_invalid() {
    let cases = [
        -1.0,   // Below min value
        327.68, // Above max value
    ];

    for prf in cases.iter() {
        let mut out = Vec::new();
        let error = real_time_prf::write(&scaled(*prf, 100.0), &mut out, Endian::Big).unwrap_err();
        assert_eq!(ErrorKind::FieldOutOfRange, error.kind);
    }
}

#[test]
fn real_time_prf_ignores_the_top_bit() {
    let (got, _) = real_time_prf::parse(&[0x81, 0x90], 0, Endian::Big).unwrap();
    assert_eq!(400, got);
}

// sector size

const SECTOR_SIZE_CASES: [(u16, [u8; 1]); 4] = [(360, [120]), (60, [20]), (9, [3]), (15, [5])];

#[test]
fn sector_size_test_valid() {
    let cases = vec![
        (sector_size::MAX + 1, false),
        (sector_size::MAX - 1, true),
        (sector_size::MAX, true),
    ];

    for (sector_size, want) in cases {
        let got = sector_size::valid(sector_size);
        assert_eq!(want, got);
    }
}

#[test]
fn sector_size_test_parse() {
    for (want, bytes) in SECTOR_SIZE_CASES {
        let (got, _) = sector_size::parse(&bytes, 0).expect("It should not return an error");
        assert_eq!(want, got);
    }
}

#[test]
fn sector_size_test_parse_invalid() {
    let got = sector_size::parse(&[122u8], 0);
    assert!(got.is_err());
}

#[test]
fn sector_size_test_write() {
    for (sector_size, want) in SECTOR_SIZE_CASES {
        let mut out = Vec::new();
        sector_size::write(&sector_size, &mut out).expect("It should not return an error");
        assert_eq!(want.as_slice(), out.as_slice());
    }
}

#[test]
fn sector_size_test_write_invalid() {
    let sector_size = sector_size::MAX + 1;
    let mut out = Vec::new();
    let got = sector_size::write(&sector_size, &mut out);
    assert!(got.is_err());
}

#[test]
fn sector_size_steps_round_trip() {
    for raw in 0u8..=120 {
        let (got, _) = sector_size::parse(&[raw], 0).unwrap();
        assert_eq!(raw as u16 * 3, got);
        let mut out = Vec::new();
        sector_size::write(&got, &mut out).unwrap();
        assert_eq!(vec![raw], out);
    }
    for raw in 121u8..=255 {
        assert_eq!(
            Err(FormatError { kind: ErrorKind::FieldOutOfRange, pos: 1, field: Field::SectorSize }),
            sector_size::parse(&[raw], 0)
        );
    }
}

// sound velocity: tenths of a metre per second

const SOUND_VELOCITY_CASES: [(f32, [u8; 2]); 4] = [
    (0.0, [0x00, 0x00]),    // 0.0 m/s
    (1500.0, [0x80, 0x00]), // Special value for 1500.0 m/s
    (3276.7, [0x7F, 0xFF]), // 3276.7 m/s
    (2000.0, [0x4E, 0x20]), // 2000.0 m/s
];

#[test]
fn sound_velocity_test_valid() {
    let cases =
        vec![(0.0, true), (1500.0, true), (3276.7, true), (-1.0, false), (3276.8, false)];

    for &(sound_velocity, want) in cases.iter() {
        let got = sound_velocity::valid(scaled(sound_velocity, 10.0));
        assert_eq!(want, got);
    }
}

#[test]
fn sound_velocity_test_parse() {
    for &(want, bytes) in SOUND_VELOCITY_CASES.iter() {
        let (got, _) =
            sound_velocity::parse(&bytes, 0, Endian::Big).expect("It should not return an error");
        assert_eq!(want, got as f32 / 10.0);
    }
}

#[test]
fn sound_velocity_test_write() {
    for (sound_velocity, want) in SOUND_VELOCITY_CASES.iter() {
        let mut out = Vec::new();
        sound_velocity::write(&scaled(*sound_velocity as f64, 10.0), &mut out, Endian::Big)
            .expect("It should not return an error");
        assert_eq!(want, out.as_slice());
    }
}

#[test]
fn sound_velocity_test_write_invalid() {
    let cases = [
        -1.0,   // Below minimum
        3276.8, // Above maximum
    ];

    for sound_velocity in cases.iter() {
        let mut out = Vec::new();
        let error =
            sound_velocity::write(&scaled(*sound_velocity, 10.0), &mut out, Endian::Big).unwrap_err();
        assert_eq!(ErrorKind::FieldOutOfRange, error.kind);
    }
}

#[test]
fn sound_velocity_sentinel() {
    for low in [0x0000u16, 0x0001, 0x3A98, 0x7FFF] {
        let bytes = (0x8000 | low).to_be_bytes();
        let (got, _) = sound_velocity::parse(&bytes, 0, Endian::Big).unwrap();
        assert_eq!(sound_velocity::V_VALUE, got);
        assert_eq!(1500.0, got as f32 / 10.0);
    }
    let mut out = Vec::new();
    sound_velocity::write(&15_000, &mut out, Endian::Big).unwrap();
    assert_eq!(vec![0x80u8, 0x00], out);
    let mut little = Vec::new();
    sound_velocity::write(&15_000, &mut little, Endian::Little).unwrap();
    assert_eq!(vec![0x00u8, 0x80], little);
}

// start gain

const START_GAIN_CASES: [(u8, [u8; 1]); 2] = [(12, [12]), (30, [30])];

#[test]
fn start_gain_test_valid() {
    let cases = vec![(0, true), (20, true), (40, true), (41, false), (200, false), (255, false)];

    for (start_gain, want) in cases {
        let got = start_gain::valid(start_gain);
        assert_eq!(want, got);
    }
}

#[test]
fn start_gain_test_parse() {
    for (want, bytes) in START_GAIN_CASES {
        let (got, _) = start_gain::parse(&bytes, 0).expect("Should succeed");
        assert_eq!(want, got);
    }
    assert_eq!(
        Err(FormatError { kind: ErrorKind::FieldOutOfRange, pos: 1, field: Field::StartGain }),
        start_gain::parse(&[41], 0)
    );
}

#[test]
fn start_gain_test_write() {
    for (start_gain, want) in START_GAIN_CASES {
        let mut out = Vec::new();
        start_gain::write(&start_gain, &mut out).expect("Should succeed");
        assert_eq!(want.as_slice(), out.as_slice());
    }
    let mut out = vec![1u8, 2, 3];
    assert_eq!(
        Err(FormatError { kind: ErrorKind::FieldOutOfRange, pos: 3, field: Field::StartGain }),
        start_gain::write(&41, &mut out)
    );
    assert_eq!(vec![1u8, 2, 3], out);
}

// string

const STRING_CASES: [(&[u8], usize, &str); 3] = [
    (b"HELLO WORLD\0", 12, "HELLO WORLD"),
    (b"ASDF\0", 5, "ASDF"),
    (b"how do you do?\0", 15, "how do you do?"),
];

#[test]
fn string_test_parse() {
    for (bytes, length, want) in STRING_CASES {
        let (got, next) = string::parse(bytes, 0, length).expect("It should not return an error");
        assert_eq!(want, got);
        assert_eq!(length, next);
    }
}

#[test]
fn string_test_write() {
    for (want, length, string) in STRING_CASES {
        let mut out = Vec::new();
        string::write(string, &mut out, length).expect("It should not return an error");
        assert_eq!(want, out.as_slice());
    }
}

#[test]
fn string_field_edges() {
    // the whole width is read and only trailing NUL bytes are dropped
    let (got, next) = string::parse(b"xxA\0B\0\0\0yy", 2, 6).unwrap();
    assert_eq!("A\0B", got);
    assert_eq!(8, next);
    // text longer than the field is cut, shorter text is filled up
    let mut out = Vec::new();
    string::write("ABCDEF", &mut out, 4).unwrap();
    string::write("AB", &mut out, 4).unwrap();
    string::write("", &mut out, 2).unwrap();
    assert_eq!(b"ABCDAB\0\0\0\0".as_slice(), out.as_slice());
    // bytes that are not UTF-8 fail at the start of the field
    assert_eq!(
        Err(FormatError { kind: ErrorKind::EncodingError, pos: 1, field: Field::Text }),
        string::parse(&[0x41, 0xFF, 0xFE, 0x00], 1, 3)
    );
    // non-ASCII text is accepted
    let (got, _) = string::parse("é\0".as_bytes(), 0, 3).unwrap();
    assert_eq!("é", got);
    assert_eq!(
        Err(FormatError { kind: ErrorKind::Truncated, pos: 0, field: Field::Text }),
        string::parse(b"AB", 0, 3)
    );
}

// train angle

const TRAIN_ANGLE_CASES: [(u16, [u8; 1]); 4] = [
    (0, [0]),     // 0° (0 * 3)
    (3, [1]),     // 3° (1 * 3)
    (180, [60]),  // 180° (60 * 3)
    (360, [120]), // 360° (120 * 3)
];

#[test]
fn train_angle_test_valid() {
    let cases = vec![(0, true), (180, true), (360, true), (361, false)];

    for (train_angle, want) in cases {
        let got = train_angle::valid(train_angle);
        assert_eq!(want, got);
    }
}

#[test]
fn train_angle_test_parse() {
    for &(want, bytes) in TRAIN_ANGLE_CASES.iter() {
        let (got, _) = train_angle::parse(&bytes, 0).expect("Should succeed");
        assert_eq!(want, got);
    }
}

#[test]
fn train_angle_test_parse_invalid() {
    let cases = [
        [0xC1], // out of range
        [0xFF], // 765° (out of range, 255 * 3)
    ];

    for bytes in cases.iter() {
        let error = train_angle::parse(bytes, 0).unwrap_err();
        assert_eq!(ErrorKind::FieldOutOfRange, error.kind);
    }
}

#[test]
fn train_angle_test_write() {
    for (train_angle, want) in TRAIN_ANGLE_CASES.iter() {
        let mut out = Vec::new();
        train_angle::write(train_angle, &mut out).expect("It should not return an error");
        assert_eq!(want, out.as_slice());
    }
}

#[test]
fn train_angle_test_write_invalid() {
    let cases = [
        361, // Just over max
        400, // Well over max
    ];

    for train_angle in cases.iter() {
        let mut out = Vec::new();
        let error = train_angle::write(train_angle, &mut out).unwrap_err();
        assert_eq!(ErrorKind::FieldOutOfRange, error.kind);
    }
}

// frequency: kilohertz

#[test]
fn test_offset_for() {
    let cases = vec![(SonarType::Scanning, 2250.0), (SonarType::FixedPosition, 1000.0)];

    for (sonar_type, want) in cases {
        let got = frequency::offset_for(sonar_type);
        assert_eq!(want, got as f32);
    }
}

#[test]
fn test_valid_for() {
    let max_scanning = 2.35;
    let min_scanning = 2.15;
    let max_fixed_position = 1.1;
    let min_fixed_position = 0.9;
    let cases = vec![
        (SonarType::Scanning, max_scanning + 1.2, false),
        (SonarType::Scanning, min_scanning - 0.3, false),
        (SonarType::FixedPosition, max_fixed_position + 3.4, false),
        (SonarType::FixedPosition, min_fixed_position - 0.9, false),
        (SonarType::Scanning, max_scanning - 0.001, true),
        (SonarType::Scanning, min_scanning + 0.003, true),
        (SonarType::FixedPosition, max_fixed_position - 0.05, true),
        (SonarType::FixedPosition, min_fixed_position + 0.09, true),
        (SonarType::Scanning, max_scanning, true),
        (SonarType::Scanning, min_scanning, true),
        (SonarType::FixedPosition, max_fixed_position, true),
        (SonarType::FixedPosition, min_fixed_position, true),
    ];

    for (sonar_type, frequency, want) in cases {
        let got = frequency::valid_for(sonar_type, scaled(frequency, 1000.0));
        assert_eq!(want, got);
    }
}

#[test]
fn frequency_steps_of_5_khz() {
    let (center, _) = frequency::parse(&[100], 0, SonarType::Scanning).unwrap();
    assert_eq!(2250, center);
    let (low, _) = frequency::parse(&[80], 0, SonarType::Scanning).unwrap();
    assert_eq!(2150, low);
    let (high, _) = frequency::parse(&[120], 0, SonarType::FixedPosition).unwrap();
    assert_eq!(1100, high);
    assert_eq!(
        Err(FormatError { kind: ErrorKind::FieldOutOfRange, pos: 1, field: Field::Frequency }),
        frequency::parse(&[121], 0, SonarType::Scanning)
    );
    let mut out = Vec::new();
    frequency::write(&2250, &mut out, SonarType::Scanning).unwrap();
    frequency::write(&900, &mut out, SonarType::FixedPosition).unwrap();
    frequency::write(&1001, &mut out, SonarType::FixedPosition).unwrap();
    assert_eq!(vec![100u8, 80, 101], out);
    assert!(frequency::write(&2351, &mut out, SonarType::Scanning).is_err());
}

// profile range: tenths of a millimetre

#[test]
fn profile_range_of_the_1_m_range() {
    // sample index 0 is the filter delay alone: 0.020 m
    let (at_zero, _) = profile_range::parse(&[0x00, 0x00], 0, Endian::Big, RangeCode::X1m).unwrap();
    assert_eq!(200, at_zero);
    assert_eq!(0.020f32, at_zero as f32 / 10000.0);
    // sample index 2000 is 0.020 + 2000 * 0.0005 = 1.020 m
    let mut index = Vec::new();
    u14::write(&2000, &mut index, Endian::Big).unwrap();
    let (at_2000, _) = profile_range::parse(&index, 0, Endian::Big, RangeCode::X1m).unwrap();
    assert_eq!(10_200, at_2000);
    assert_eq!(1.020f32, at_2000 as f32 / 10000.0);
    let mut out = Vec::new();
    profile_range::write(&10_200, &mut out, Endian::Big, &RangeCode::X1m).unwrap();
    assert_eq!(index, out);
}

#[test]
fn profile_range_is_enforced() {
    for code in [RangeCode::X0_125m, RangeCode::X1m, RangeCode::X2m, RangeCode::X6m] {
        let delay = code.filter_delay() as i32;
        let top = delay + 16383 * 5;
        assert!(profile_range::valid_for(code, delay));
        assert!(profile_range::valid_for(code, top));
        assert!(!profile_range::valid_for(code, delay - 1));
        assert!(!profile_range::valid_for(code, top + 1));
        let mut out = Vec::new();
        profile_range::write(&delay, &mut out, Endian::Big, &code).unwrap();
        profile_range::write(&top, &mut out, Endian::Big, &code).unwrap();
        assert_eq!(vec![0u8, 0, 0x7F, 0x7F], out);
        assert_eq!(
            Err(FormatError { kind: ErrorKind::FieldOutOfRange, pos: 4, field: Field::ProfileRange }),
            profile_range::write(&(delay - 1), &mut out, Endian::Big, &code)
        );
        assert_eq!(
            Err(FormatError { kind: ErrorKind::FieldOutOfRange, pos: 4, field: Field::ProfileRange }),
            profile_range::write(&(top + 1), &mut out, Endian::Big, &code)
        );
        assert_eq!(4, out.len());
    }
}
