use imagenex831l::types::{
    Acceleration, Angle, Command, Config, DataBits, Direction, Endian, HeadPosition, Logf, Mode,
    MotionConfig, ProfileGrid, ProfilePointDetection, SensorInformation, SonarReturnMagic,
    SonarReturnStatus, StepDirection, StepSize, Transducer, Zero,
};
use imagenex831l::{ErrorKind, Field, FormatError};
use std::cmp::Ordering;

// acceleration: hundred-thousandths; angle: thousandths of a degree

fn acceleration(value: f64, new_data: bool, error_alarm: bool) -> Acceleration {
    Acceleration::new((value * 100_000.0).round() as i32, new_data, error_alarm)
}

#[test]
fn eq() {
    let cases = vec![
        (acceleration(6.0, true, false), acceleration(6.0, true, false), true),
        (acceleration(12.0, true, false), acceleration(12.0, true, false), true),
        (acceleration(32.0, true, false), acceleration(60.0, true, false), false),
        (acceleration(86.0, true, false), acceleration(62.0, true, false), false),
    ];

    for (a, b, want) in cases {
        assert_eq!(a.eq(&b), want);
    }
    // the flags take no part
    assert!(acceleration(6.0, true, false).eq(&acceleration(6.0, false, true)));
}

#[test]
fn acceleration_ord() {
    let cases = vec![
        (acceleration(6.0, true, false), acceleration(6.0, true, false), Some(Ordering::Equal)),
        (acceleration(12.0, true, false), acceleration(12.0, true, false), Some(Ordering::Equal)),
        (acceleration(32.0, true, false), acceleration(60.0, true, false), Some(Ordering::Less)),
        (acceleration(86.0, true, false), acceleration(62.0, true, false), Some(Ordering::Greater)),
    ];

    for (a, b, want) in cases {
        assert_eq!(a.partial_cmp(&b), want);
    }
}

#[test]
fn from_f32() {
    let value: f32 = 1.0;
    assert_eq!(
        Acceleration::from((value * 100_000.0).round() as i32),
        acceleration(1.0, false, false)
    );
}

#[test]
fn from_f64() {
    let value: f64 = 1.0;
    assert_eq!(
        Acceleration::from((value * 100_000.0).round() as i32),
        acceleration(1.0, false, false)
    );
    assert_eq!(Angle::from(1000), Angle::new(1000, false, false));
}

#[test]
fn acceleration_scale_and_range() {
    assert_eq!(24_414, Acceleration::SCALE);
    let (one, _) = Acceleration::parse(&[0x01, 0x00], 0, Endian::Big).unwrap();
    assert_eq!(24_414, one.acceleration);
    assert_eq!(0.24414f32, one.acceleration as f32 / 100_000.0);
    let (least, _) = Acceleration::parse(&[0x00, 0x20], 0, Endian::Big).unwrap();
    assert_eq!(Acceleration::MIN, least.acceleration);
    let mut out = Vec::new();
    Acceleration::new(Acceleration::MAX, true, false).write(&mut out, Endian::Big).unwrap();
    Acceleration::new(Acceleration::MIN, false, true).write(&mut out, Endian::Big).unwrap();
    // between two steps the count is cut toward zero
    Acceleration::new(24_414 + 24_413, false, false).write(&mut out, Endian::Big).unwrap();
    Acceleration::new(-24_414 - 24_413, false, false).write(&mut out, Endian::Big).unwrap();
    assert_eq!(vec![0xFFu8, 0x9F, 0x00, 0x60, 0x01, 0x00, 0xFF, 0x3F], out);
    assert_eq!(
        Err(FormatError { kind: ErrorKind::FieldOutOfRange, pos: 8, field: Field::Acceleration }),
        Acceleration::new(Acceleration::MAX + 1, false, false).write(&mut out, Endian::Big)
    );
    assert_eq!(
        Err(FormatError { kind: ErrorKind::FieldOutOfRange, pos: 8, field: Field::Acceleration }),
        Acceleration::new(Acceleration::MIN - 1, false, false).write(&mut out, Endian::Big)
    );
    assert_eq!(8, out.len());
}

const ANGLE_CASES: [(Angle, [u8; 2]); 2] = [
    (Angle { angle: Angle::MIN, new_data: true, error_alarm: true }, [0b1110_0000, 0b0000_0000]),
    (Angle { angle: Angle::MAX, new_data: false, error_alarm: false }, [0b0001_1111, 0b1111_1111]),
];

#[test]
fn test_valid_angle() {
    let cases = vec![
        (Angle::MAX, true),
        (Angle::MIN, true),
        (Angle::MAX + 1000, false),
        (Angle::MIN - 1000, false),
    ];

    for (angle, want) in cases {
        let got = Angle::valid_angle(angle);
        assert_eq!(want, got);
    }
}

#[test]
fn angle_test_valid() {
    let cases = vec![
        (Angle::new(Angle::MAX, true, false), true),
        (Angle::new(Angle::MIN, false, true), true),
        (Angle::new(Angle::MAX + 1000, true, false), false),
        (Angle::new(Angle::MIN - 1000, false, false), false),
    ];

    for (angle, want) in cases {
        let got = angle.valid();
        assert_eq!(want, got);
    }
}

#[test]
fn angle_test_parse() {
    for &(want, ref bytes) in ANGLE_CASES.iter() {
        let (got, _) = Angle::parse(bytes, 0, Endian::Little).expect("Should not return an error");
        assert_eq!(want, got);
    }
}

#[test]
fn angle_test_write() {
    for &(angle, ref want) in ANGLE_CASES.iter() {
        let mut out = Vec::new();
        angle.write(&mut out, Endian::Little).expect("Should not return an error");
        assert_eq!(want, out.as_slice());
    }
}

#[test]
fn angle_scale_and_range() {
    assert_eq!(8191 * 25, Angle::MAX);
    assert_eq!(-8192 * 25, Angle::MIN);
    let (got, _) = Angle::parse(&[0xD2, 0x84], 0, Endian::Big).unwrap();
    assert_eq!(Angle::new(1234 * 25, true, false), got);
    assert_eq!(30.85f32, got.angle as f32 / 1000.0);
    let mut out = Vec::new();
    assert_eq!(
        Err(FormatError { kind: ErrorKind::FieldOutOfRange, pos: 0, field: Field::Angle }),
        Angle::new(Angle::MAX + 1, false, false).write(&mut out, Endian::Big)
    );
    assert!(Angle::new(1, false, false) < Angle::new(2, true, true));
}

// head position: tenths of a degree

#[test]
fn head_position_layout() {
    // the count 600 stands for 0 degrees: low seven bits first, then the high bits moved up by one
    let zero = HeadPosition::new(0, Direction::Counterclockwise);
    let mut out = Vec::new();
    zero.write(&mut out, Endian::Big).unwrap();
    assert_eq!(vec![0x58u8, 0x04], out);
    let (got, next) = HeadPosition::parse(&out, 0, Endian::Big).unwrap();
    assert_eq!(0, got.angle);
    assert_eq!(Direction::Counterclockwise, got.direction);
    assert_eq!(2, next);

    let cases = [
        (HeadPosition::new(-1800, Direction::Clockwise), [0x00u8, 0x40]),
        (HeadPosition::new(1800, Direction::Clockwise), [0x30, 0x49]),
        (HeadPosition::new(3, Direction::Counterclockwise), [0x59, 0x04]),
        (HeadPosition::new(-3, Direction::Clockwise), [0x57, 0x44]),
        (HeadPosition::new(900, Direction::Counterclockwise), [0x04, 0x07]),
    ];
    for (position, want) in cases {
        let mut out = Vec::new();
        position.write(&mut out, Endian::Big).unwrap();
        assert_eq!(want.as_slice(), out.as_slice());
        let (got, _) = HeadPosition::parse(&want, 0, Endian::Big).unwrap();
        assert_eq!(position.angle, got.angle);
        assert_eq!(position.direction, got.direction);
    }
}

#[test]
fn head_position_range_and_order() {
    assert!(HeadPosition::new(1800, Direction::Clockwise).valid());
    assert!(HeadPosition::new(-1800, Direction::Clockwise).valid());
    assert!(!HeadPosition::new(1801, Direction::Clockwise).valid());
    assert!(!HeadPosition::new(-1801, Direction::Clockwise).valid());
    let mut out = vec![0u8];
    assert_eq!(
        Err(FormatError { kind: ErrorKind::FieldOutOfRange, pos: 1, field: Field::HeadPosition }),
        HeadPosition::new(1801, Direction::Clockwise).write(&mut out, Endian::Big)
    );
    assert_eq!(vec![0u8], out);
    // the count 1201 stands for 180.3 degrees
    assert_eq!(
        Err(FormatError { kind: ErrorKind::FieldOutOfRange, pos: 2, field: Field::HeadPosition }),
        HeadPosition::parse(&[0x31, 0x09], 0, Endian::Big)
    );
    // an angle between two steps is written as the nearest step
    let mut near = Vec::new();
    HeadPosition::new(4, Direction::Counterclockwise).write(&mut near, Endian::Big).unwrap();
    HeadPosition::new(5, Direction::Counterclockwise).write(&mut near, Endian::Big).unwrap();
    HeadPosition::new(-4, Direction::Counterclockwise).write(&mut near, Endian::Big).unwrap();
    assert_eq!(vec![0x59u8, 0x04, 0x5A, 0x04, 0x57, 0x04], near);

    let default = HeadPosition::default();
    assert_eq!(0, default.angle);
    assert_eq!(Direction::Counterclockwise, default.direction);
    assert!(HeadPosition::new(10, Direction::Clockwise) == HeadPosition::new(10, Direction::Counterclockwise));
    assert_eq!(
        Some(Ordering::Less),
        HeadPosition::new(-10, Direction::Clockwise).partial_cmp(&HeadPosition::new(10, Direction::Clockwise))
    );
}

// motion config

const MOTION_CONFIG_CASES: [(MotionConfig, [u8; 1]); 3] = [
    (
        MotionConfig {
            direction: Direction::Counterclockwise,
            transducer: Transducer::Down,
            mode: Mode::Sector,
            step_size: StepSize::Slow,
        },
        [0b0000_0000],
    ),
    (
        MotionConfig {
            direction: Direction::Clockwise,
            transducer: Transducer::Up,
            mode: Mode::Polar,
            step_size: StepSize::Medium,
        },
        [0b1100_1001],
    ),
    (
        MotionConfig {
            direction: Direction::Clockwise,
            transducer: Transducer::Up,
            mode: Mode::Polar,
            step_size: StepSize::Fast,
        },
        [0b1100_1010],
    ),
];

#[test]
fn motion_config_parse() {
    for (want, bytes) in MOTION_CONFIG_CASES {
        let (got, _) = MotionConfig::parse(&bytes, 0).expect("It should not return an error");
        assert_eq!(want, got);
    }
}

#[test]
fn motion_config_parse_options() {
    for (want, bytes) in MOTION_CONFIG_CASES {
        let mut input = vec![0xFFu8, 0xFF];
        input.extend_from_slice(&bytes);
        let (got, next) = MotionConfig::parse(&input, 2).expect("It should not return an error");
        assert_eq!(want, got);
        assert_eq!(3, next);
    }
}

#[test]
fn motion_config_write() {
    for (motion_config, want) in MOTION_CONFIG_CASES {
        let mut out = Vec::new();
        motion_config.write(&mut out).expect("It should not return an error");
        assert_eq!(want.as_slice(), out.as_slice());
    }
}

#[test]
fn motion_config_write_options() {
    for (motion_config, want) in MOTION_CONFIG_CASES {
        let mut out = vec![0xAAu8];
        motion_config.write(&mut out).expect("It should not return an error");
        assert_eq!(0xAA, out[0]);
        assert_eq!(want.as_slice(), &out[1..]);
    }
}

#[test]
fn motion_config_invalid_bits() {
    // mode bits 3 have no variant; the failure names the offset behind the byte
    assert_eq!(
        Err(FormatError { kind: ErrorKind::InvalidEnumValue, pos: 1, field: Field::Mode }),
        MotionConfig::parse(&[0b0001_1000], 0)
    );
    // step size bits 5 have no variant
    assert_eq!(
        Err(FormatError { kind: ErrorKind::InvalidEnumValue, pos: 4, field: Field::StepSize }),
        MotionConfig::parse(&[0, 0, 0, 0b0000_0101], 3)
    );
    // the mode is read before the step size
    assert_eq!(
        Err(FormatError { kind: ErrorKind::InvalidEnumValue, pos: 1, field: Field::Mode }),
        MotionConfig::parse(&[0b0011_1111], 0)
    );
    assert_eq!(
        Err(FormatError { kind: ErrorKind::Truncated, pos: 0, field: Field::MotionConfig }),
        MotionConfig::parse(&[], 0)
    );
    for raw in 0u8..=255 {
        if let Ok((value, _)) = MotionConfig::parse(&[raw], 0) {
            let mut out = Vec::new();
            value.write(&mut out).unwrap();
            assert_eq!(vec![raw], out);
        }
    }
}

// config

const CONFIG_CASES: [(Config, [u8; 1]); 3] = [
    (
        Config {
            profile_grid: ProfileGrid::Off,
            zero: Zero::Up,
            data_bits: DataBits::X4Bits,
            logf: Logf::X10dB,
        },
        [0b0000_0000],
    ),
    (
        Config {
            profile_grid: ProfileGrid::On,
            zero: Zero::Down,
            data_bits: DataBits::X8Bits,
            logf: Logf::X40dB,
        },
        [0b1100_1011],
    ),
    (
        Config {
            profile_grid: ProfileGrid::On,
            zero: Zero::Up,
            data_bits: DataBits::X14Bits,
            logf: Logf::X40dB,
        },
        [0b1001_0011],
    ),
];

#[test]
fn config_test_parse() {
    for (want, bytes) in CONFIG_CASES {
        let (got, _) = Config::parse(&bytes, 0).expect("It should not return an error");
        assert_eq!(want, got);
    }
}

#[test]
fn config_test_write() {
    for (config, want) in CONFIG_CASES {
        let mut out = Vec::new();
        config.write(&mut out).expect("It should not return an error");
        assert_eq!(want.as_slice(), out.as_slice());
    }
}

#[test]
fn config_invalid_bits() {
    assert_eq!(
        Err(FormatError { kind: ErrorKind::InvalidEnumValue, pos: 1, field: Field::DataBits }),
        Config::parse(&[0b0001_1000], 0)
    );
    assert_eq!(
        Err(FormatError { kind: ErrorKind::InvalidEnumValue, pos: 1, field: Field::Logf }),
        Config::parse(&[0b0000_0100], 0)
    );
}

// command

#[test]
fn command_layout() {
    let command = Command::new(ProfilePointDetection::StartOfPulse, StepDirection::Reverse);
    let mut out = Vec::new();
    command.write(&mut out).unwrap();
    assert_eq!(vec![0b0100_0001u8], out);
    // the bits of no field are ignored
    let (got, _) = Command::parse(&[0b1011_1110], 0).unwrap();
    assert_eq!(Command::new(ProfilePointDetection::CenterOfPulse, StepDirection::Normal), got);
    let (got, _) = Command::parse(&[0b1111_1111], 0).unwrap();
    assert_eq!(command, got);
}

// sensor information

#[test]
fn fmt_valid() {
    let cases = vec![(true, "valid"), (false, "invalid")];

    for (validity, want) in cases {
        let got = SensorInformation::fmt_valid(validity);
        assert_eq!(want, got);
    }
}

#[test]
fn sensor_information_display() {
    let cases = vec![
        (
            SensorInformation { pitch_valid: true, roll_valid: true, distance_valid: true },
            "(pitch: valid, roll: valid, distance: valid)",
        ),
        (
            SensorInformation { pitch_valid: true, roll_valid: false, distance_valid: true },
            "(pitch: valid, roll: invalid, distance: valid)",
        ),
        (
            SensorInformation { pitch_valid: true, roll_valid: true, distance_valid: false },
            "(pitch: valid, roll: valid, distance: invalid)",
        ),
        (
            SensorInformation { pitch_valid: false, roll_valid: true, distance_valid: true },
            "(pitch: invalid, roll: valid, distance: valid)",
        ),
    ];

    for (sensor_information, want) in cases {
        let got = sensor_information.to_string();
        assert_eq!(want, got);
    }
}

const SENSOR_INFORMATION_CASES: [(SensorInformation, [u8; 1]); 5] = [
    (SensorInformation { pitch_valid: true, roll_valid: true, distance_valid: true }, [0b0000_0111]),
    (SensorInformation { pitch_valid: true, roll_valid: true, distance_valid: false }, [0b0000_0011]),
    (SensorInformation { pitch_valid: true, roll_valid: false, distance_valid: true }, [0b0000_0101]),
    (SensorInformation { pitch_valid: false, roll_valid: true, distance_valid: true }, [0b0000_0110]),
    (SensorInformation { pitch_valid: false, roll_valid: false, distance_valid: false }, [0b0000_0000]),
];

#[test]
fn sensor_information_parse() {
    for (want, bytes) in SENSOR_INFORMATION_CASES {
        let (got, _) = SensorInformation::parse(&bytes, 0).expect("It should not return an error");
        assert_eq!(want, got);
    }
}

#[test]
fn sensor_information_parse_options() {
    for (want, bytes) in SENSOR_INFORMATION_CASES {
        let input = [0x00, bytes[0] | 0b1111_1000];
        let (got, next) =
            SensorInformation::parse(&input, 1).expect("It should not return an error");
        assert_eq!(want, got);
        assert_eq!(2, next);
    }
}

#[test]
fn sensor_information_write() {
    for (sensor_information, want) in SENSOR_INFORMATION_CASES {
        let mut out = Vec::new();
        sensor_information.write(&mut out).expect("It should not return an error");
        assert_eq!(want.as_slice(), out.as_slice());
    }
}

#[test]
fn sensor_information_write_options() {
    for (sensor_information, want) in SENSOR_INFORMATION_CASES {
        let mut out = vec![7u8, 7];
        sensor_information.write(&mut out).expect("It should not return an error");
        assert_eq!(want.as_slice(), &out[2..]);
    }
    assert_eq!(
        SensorInformation { pitch_valid: true, roll_valid: true, distance_valid: true },
        SensorInformation::default()
    );
}

// sonar return magic

#[test]
fn test_data_length() {
    let cases = vec![(SonarReturnMagic::IMX, 250), (SonarReturnMagic::IPX, 0)];

    for (magic, want) in cases {
        let got = magic.data_length();
        assert_eq!(want, got);
    }
}

#[test]
fn sonar_return_magic_test_display() {
    let cases = vec![(SonarReturnMagic::IMX, "IMX"), (SonarReturnMagic::IPX, "IPX")];

    for (magic, want) in cases {
        let got = magic.to_string();
        assert_eq!(want, got);
    }
}

const MAGIC_CASES: [(SonarReturnMagic, &[u8; 3]); 2] =
    [(SonarReturnMagic::IMX, b"IMX"), (SonarReturnMagic::IPX, b"IPX")];

#[test]
fn sonar_return_magic_test_parse() {
    for (want, bytes) in MAGIC_CASES {
        let (got, next) = SonarReturnMagic::parse(bytes, 0).expect("It should not return an error");
        assert_eq!(want, got);
        assert_eq!(3, next);
    }
}

#[test]
fn sonar_return_magic_test_parse_invalid() {
    let cases = vec![b"ASD", b"QWE", b"TFD"];

    for bytes in cases {
        let error = SonarReturnMagic::parse(bytes, 0).unwrap_err();
        assert_eq!(
            FormatError { kind: ErrorKind::MagicMismatch, pos: 0, field: Field::SonarReturnMagic },
            error
        );
    }
    assert_eq!(ErrorKind::MagicMismatch, SonarReturnMagic::parse(b"IMY", 0).unwrap_err().kind);
    assert_eq!(ErrorKind::MagicMismatch, SonarReturnMagic::parse(b"XMX", 0).unwrap_err().kind);
    assert_eq!(ErrorKind::Truncated, SonarReturnMagic::parse(b"IM", 0).unwrap_err().kind);
}

#[test]
fn sonar_return_magic_test_write() {
    for (magic, want) in MAGIC_CASES {
        let mut out = Vec::new();
        magic.write(&mut out).expect("It should not return an error");
        assert_eq!(want.as_slice(), out.as_slice());
    }
}

// sonar return status

#[test]
fn sonar_return_status_test_default() {
    let want = SonarReturnStatus {
        range_error: false,
        frequency_error: false,
        internal_sensor_error: false,
        calibration_error: false,
        switches_accepted: false,
    };

    let got = SonarReturnStatus::default();
    assert_eq!(want, got);
}

#[test]
fn test_has_error() {
    let mut status = SonarReturnStatus::default();
    assert!(!status.has_error());

    status.range_error = true;
    assert!(status.has_error());

    status.range_error = false;
    status.frequency_error = true;
    assert!(status.has_error());

    status.internal_sensor_error = true;
    assert!(status.has_error());

    status.calibration_error = true;
    assert!(status.has_error());
}

const STATUS_CASES: [(SonarReturnStatus, u8); 5] = [
    (
        SonarReturnStatus {
            range_error: false,
            frequency_error: false,
            internal_sensor_error: false,
            calibration_error: false,
            switches_accepted: false,
        },
        0b0000_0000,
    ),
    (
        SonarReturnStatus {
            range_error: true,
            frequency_error: false,
            internal_sensor_error: false,
            calibration_error: false,
            switches_accepted: true,
        },
        0b1000_0001,
    ),
    (
        SonarReturnStatus {
            range_error: true,
            frequency_error: true,
            internal_sensor_error: true,
            calibration_error: true,
            switches_accepted: true,
        },
        0b1111_0001,
    ),
    (
        SonarReturnStatus {
            range_error: false,
            frequency_error: true,
            internal_sensor_error: false,
            calibration_error: true,
            switches_accepted: false,
        },
        0b0101_0000,
    ),
    (
        SonarReturnStatus {
            range_error: true,
            frequency_error: true,
            internal_sensor_error: false,
            calibration_error: false,
            switches_accepted: false,
        },
        0b1100_0000,
    ),
];

#[test]
fn sonar_return_status_test_parse() {
    for &(ref want, raw) in STATUS_CASES.iter() {
        let (got, _) =
            SonarReturnStatus::parse(&vec![raw], 0).expect("It should not return an error");
        assert_eq!(want, &got);
    }
}

#[test]
fn sonar_return_status_test_write() {
    for &(ref status, raw) in STATUS_CASES.iter() {
        let mut out = Vec::new();
        status.write(&mut out).expect("It should not return an error");
        assert_eq!(out, vec![raw]);
    }
}

#[test]
fn sonar_return_status_in_words() {
    let mut status = SonarReturnStatus::default();
    assert_eq!("no errors", status.to_string());
    status.switches_accepted = true;
    assert_eq!("no errors, switches accepted", status.to_string());
    status.frequency_error = true;
    assert_eq!("frequency error, switches accepted", status.to_string());
    status.range_error = true;
    status.internal_sensor_error = true;
    status.calibration_error = true;
    assert_eq!(
        "range error, frequency error, internal sensor error, calibration error, switches accepted",
        status.to_string()
    );
    status.switches_accepted = false;
    status.range_error = false;
    status.frequency_error = false;
    assert_eq!("internal sensor error, calibration error", status.to_string());
}

#[test]
fn head_position_in_words() {
    assert_eq!("0.000° counterclockwise", HeadPosition::default().to_string());
    assert_eq!("90.000° clockwise", HeadPosition::new(900, Direction::Clockwise).to_string());
    assert_eq!("-180.000° clockwise", HeadPosition::new(-1800, Direction::Clockwise).to_string());
    assert_eq!("0.300° counterclockwise", HeadPosition::new(3, Direction::Counterclockwise).to_string());
    assert_eq!("-0.300° clockwise", HeadPosition::new(-3, Direction::Clockwise).to_string());
    assert_eq!("123.400° clockwise", HeadPosition::new(1234, Direction::Clockwise).to_string());
    assert_eq!(
        "-214748364.800° clockwise",
        HeadPosition::new(i32::MIN, Direction::Clockwise).to_string()
    );
}
