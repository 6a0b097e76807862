use imagenex831l::types::primitive::datetime::{DateTime, SubFormat};
use imagenex831l::types::{
    Acceleration, Angle, Command, Config, DataBits, DataPoints, Direction, FileHeader,
    HeadPosition, Logf, Mode, MotionConfig, ProfileGrid, ProfilePointDetection, RangeCode,
    SensorAvailable, SensorInformation, SonarReturnHeader, SonarReturnMagic, SonarReturnStatus,
    SonarType, StepDirection, StepSize, Transducer, Zero,
};
use imagenex831l::{
    Array, Error, ErrorKind, Field, FormatError, Reader, Shot, SonarReturn, SwitchData,
};

fn header() -> FileHeader {
    FileHeader {
        data_size_index: DataPoints::X250Points,
        total_length: 512,
        data_length: 283,
        datetime: DateTime::new(2023, 7, 27, 10, 19, 14, 310_000_000),
        sensor_available: SensorAvailable::Available,
        motion: MotionConfig::new(Direction::Clockwise, Transducer::Up, Mode::Polar, StepSize::Fast),
        start_gain: 12,
        sector_size: 360,
        train_angle: 180,
        range_code: RangeCode::X1m,
        absorption: 170,
        config: Config::new(ProfileGrid::On, Zero::Down, DataBits::X8Bits, Logf::X40dB),
        pulse_length: 500,
        sound_velocity: 15_000,
        operating_frequency: 2250,
        real_time_prf: 400,
        sensor_information: SensorInformation::new(true, false, true),
        pitch: 1.5f32.to_bits(),
        roll: (-0.25f32).to_bits(),
        distance: 12.0f32.to_bits(),
    }
}

fn return_header(data_length: u16) -> SonarReturnHeader {
    SonarReturnHeader {
        magic: if data_length == 0 { SonarReturnMagic::IPX } else { SonarReturnMagic::IMX },
        sonar_type: SonarType::Scanning,
        status: SonarReturnStatus::new(false, false, false, false, true),
        head_position: HeadPosition::new(900, Direction::Clockwise),
        range_code: RangeCode::X1m,
        profile_range: 10_200,
        data_length,
        roll_angle: Angle::new(1234 * 25, true, false),
        pitch_angle: Angle::new(-25, false, false),
        roll_acceleration: Acceleration::new(24_414, false, true),
        pitch_acceleration: Acceleration::new(-8192 * 24_414, false, false),
    }
}

fn shot(data_length: u16) -> Shot {
    let data: Vec<u8> = (0..data_length).map(|i| (i % 251) as u8).collect();
    Shot::new(header(), SonarReturn::new(return_header(data_length), data, 0xFC))
}

fn encoded(shot: &Shot) -> Vec<u8> {
    let mut out = Vec::new();
    shot.write(&mut out, SubFormat::Hundredths).expect("the shot should be written");
    out
}

#[test]
fn a_shot_takes_512_bytes() {
    let bytes = encoded(&shot(250));
    assert_eq!(512, bytes.len());
    assert_eq!(262, encoded(&shot(0)).len());
}

#[test]
fn a_shot_is_laid_out_field_by_field() {
    let bytes = encoded(&shot(250));
    assert_eq!(b"31L", &bytes[0..3]);
    // the header
    assert_eq!(2, bytes[3]);
    assert_eq!([0x02, 0x00], bytes[4..6]);
    assert_eq!([0x01, 0x1B], bytes[6..8]);
    assert_eq!(b"27-JUL-2023\010:19:14\0.31\0", &bytes[8..33]);
    assert_eq!(0, bytes[33]);
    assert_eq!([1, 0, 0], bytes[34..37]);
    assert_eq!(0b1100_1010, bytes[37]);
    assert_eq!([12, 120, 60, 10, 170], bytes[38..43]);
    assert_eq!(0b1100_1011, bytes[43]);
    assert_eq!([50, 0], bytes[44..46]);
    assert_eq!([0x80, 0x00], bytes[46..48]);
    assert!(bytes[48..79].iter().all(|byte| *byte == 0));
    assert_eq!([0x08, 0xCA], bytes[79..81]);
    assert_eq!([0x01, 0x90], bytes[81..83]);
    assert!(bytes[83..98].iter().all(|byte| *byte == 0));
    assert_eq!(0b0000_0101, bytes[98]);
    assert_eq!(1.5f32.to_be_bytes(), bytes[99..103]);
    assert_eq!((-0.25f32).to_be_bytes(), bytes[103..107]);
    assert_eq!(12.0f32.to_be_bytes(), bytes[107..111]);
    assert!(bytes[111..228].iter().all(|byte| *byte == 0));
    // the sonar return
    assert_eq!(b"IMX", &bytes[228..231]);
    assert_eq!([0, 0b0000_0001], bytes[231..233]);
    assert_eq!([0x04, 0x47], bytes[233..235]);
    assert_eq!(10, bytes[235]);
    assert_eq!([0x50, 0x0F], bytes[236..238]);
    assert_eq!([0x7A, 0x01], bytes[238..240]);
    assert_eq!([0, 0, 0, 0], bytes[240..244]);
    assert_eq!([0xD2, 0x84], bytes[244..246]);
    assert_eq!([0xFF, 0x3F], bytes[246..248]);
    assert_eq!([0x01, 0x40], bytes[248..250]);
    assert_eq!([0x00, 0x20], bytes[250..252]);
    assert!(bytes[252..260].iter().all(|byte| *byte == 0));
    assert_eq!(0, bytes[260]);
    assert_eq!(249, bytes[260 + 249]);
    assert_eq!(0xFC, bytes[510]);
    assert_eq!(0, bytes[511]);
}

#[test]
fn decoding_what_was_encoded_gives_the_shot_back() {
    for data_length in [0u16, 1, 250, 0x3FFF] {
        let shot = shot(data_length);
        let mut bytes = vec![0xEEu8; 5];
        shot.write(&mut bytes, SubFormat::Hundredths).unwrap();
        let (got, next) = Shot::parse(&bytes, 5).expect("the shot should be read");
        assert_eq!(bytes.len(), next);
        assert_eq!(shot, got);
        assert_eq!(shot.header.datetime, got.header.datetime);
        assert_eq!(shot.sonar_return.header.head_position.direction, Direction::Clockwise);
        assert_eq!(got.sonar_return.header.roll_angle, Angle::new(1234 * 25, true, false));
        assert_eq!(data_length as usize, got.sonar_return.data.len());
    }
}

#[test]
fn encoding_what_was_decoded_gives_the_bytes_back() {
    let bytes = encoded(&shot(250));
    let (got, _) = Shot::parse(&bytes, 0).unwrap();
    assert_eq!(bytes, encoded(&got));

    let mut milliseconds = Vec::new();
    shot(250).write(&mut milliseconds, SubFormat::Milliseconds).unwrap();
    assert_eq!(b"310\0", &milliseconds[29..33]);
    let (got, _) = Shot::parse(&milliseconds, 0).unwrap();
    let mut again = Vec::new();
    got.write(&mut again, SubFormat::Milliseconds).unwrap();
    assert_eq!(milliseconds, again);
}

#[test]
fn reserved_bytes_are_passed_over_but_must_be_there() {
    let mut bytes = encoded(&shot(250));
    for index in (48..79).chain(83..98).chain(111..228).chain(240..244).chain(252..260) {
        bytes[index] = 0xA5;
    }
    bytes[511] = 0xA5;
    let (got, next) = Shot::parse(&bytes, 0).unwrap();
    assert_eq!(shot(250), got);
    assert_eq!(512, next);

    assert_eq!(
        Err(FormatError { kind: ErrorKind::Truncated, pos: 511, field: Field::Padding }),
        Shot::parse(&bytes[..511], 0)
    );
    assert_eq!(
        Err(FormatError { kind: ErrorKind::Truncated, pos: 510, field: Field::SonarReturn }),
        Shot::parse(&bytes[..510], 0)
    );
    assert_eq!(
        Err(FormatError { kind: ErrorKind::Truncated, pos: 260, field: Field::Data }),
        Shot::parse(&bytes[..509], 0)
    );
    assert_eq!(
        Err(FormatError { kind: ErrorKind::Truncated, pos: 111, field: Field::Padding }),
        Shot::parse(&bytes[..227], 0)
    );
    assert_eq!(
        Err(FormatError { kind: ErrorKind::Truncated, pos: 0, field: Field::Shot }),
        Shot::parse(&bytes[..2], 0)
    );
    assert_eq!(
        Err(FormatError { kind: ErrorKind::Truncated, pos: 600, field: Field::Shot }),
        Shot::parse(&bytes, 600)
    );
}

#[test]
fn the_magic_is_checked() {
    let mut bytes = encoded(&shot(250));
    bytes[2] = b'l';
    assert_eq!(
        Err(FormatError { kind: ErrorKind::MagicMismatch, pos: 0, field: Field::Shot }),
        Shot::parse(&bytes, 0)
    );
    let mut bytes = encoded(&shot(250));
    bytes[229] = b'Q';
    assert_eq!(
        Err(FormatError { kind: ErrorKind::MagicMismatch, pos: 228, field: Field::SonarReturnMagic }),
        Shot::parse(&bytes, 0)
    );
}

#[test]
fn the_lengths_of_the_header_are_asserted() {
    for (offset, value) in [(4usize, 511u16), (4, 513), (6, 282), (6, 0)] {
        let mut bytes = encoded(&shot(250));
        bytes[offset..offset + 2].copy_from_slice(&value.to_be_bytes());
        assert_eq!(
            Err(FormatError { kind: ErrorKind::InvariantViolation, pos: 3, field: Field::FileHeader }),
            Shot::parse(&bytes, 0)
        );
        assert_eq!(
            Err(FormatError { kind: ErrorKind::InvariantViolation, pos: 0, field: Field::FileHeader }),
            FileHeader::parse(&bytes[3..], 0).map(|read| read.1)
        );
    }
    let mut wrong = header();
    wrong.total_length = 513;
    let mut out = vec![9u8];
    assert_eq!(
        Err(FormatError { kind: ErrorKind::InvariantViolation, pos: 1, field: Field::FileHeader }),
        wrong.write(&mut out, SubFormat::Hundredths)
    );
    let mut wrong = header();
    wrong.data_length = 250;
    assert_eq!(
        Err(FormatError { kind: ErrorKind::InvariantViolation, pos: 1, field: Field::FileHeader }),
        wrong.write(&mut out, SubFormat::Hundredths)
    );
    assert_eq!(vec![9u8], out);
}

#[test]
fn the_terminator_is_asserted() {
    for terminator in [0x00u8, 0xFB, 0xFD, 0xFF] {
        let mut bytes = encoded(&shot(250));
        bytes[510] = terminator;
        assert_eq!(
            Err(FormatError { kind: ErrorKind::InvariantViolation, pos: 228, field: Field::SonarReturn }),
            Shot::parse(&bytes, 0)
        );
        let unterminated = SonarReturn::new(return_header(2), vec![1, 2], terminator);
        let mut out = Vec::new();
        assert_eq!(
            Err(FormatError { kind: ErrorKind::InvariantViolation, pos: 0, field: Field::SonarReturn }),
            unterminated.write(&mut out)
        );
        assert!(out.is_empty());
    }
}

#[test]
fn a_field_out_of_range_fails_the_whole_record() {
    // start gain of 41 dB at offset 38
    let mut bytes = encoded(&shot(250));
    bytes[38] = 41;
    assert_eq!(
        Err(FormatError { kind: ErrorKind::FieldOutOfRange, pos: 39, field: Field::StartGain }),
        Shot::parse(&bytes, 0)
    );
    // a range code that is none
    let mut bytes = encoded(&shot(250));
    bytes[41] = 11;
    assert_eq!(
        Err(FormatError { kind: ErrorKind::InvalidEnumValue, pos: 41, field: Field::RangeCode }),
        Shot::parse(&bytes, 0)
    );
    // a field fails before the lengths are asserted
    bytes[4] = 0;
    assert_eq!(
        Err(FormatError { kind: ErrorKind::InvalidEnumValue, pos: 41, field: Field::RangeCode }),
        Shot::parse(&bytes, 0)
    );

    // nothing is written of a shot with a part out of range
    let mut wrong = shot(250);
    wrong.header.pulse_length = 1010;
    let mut out = vec![1u8, 2, 3];
    assert_eq!(
        Err(FormatError { kind: ErrorKind::FieldOutOfRange, pos: 3 + 3 + 41, field: Field::PulseLength }),
        wrong.write(&mut out, SubFormat::Hundredths)
    );
    assert_eq!(vec![1u8, 2, 3], out);
    let mut wrong = shot(250);
    wrong.sonar_return.header.pitch_angle = Angle::new(Angle::MAX + 25, false, false);
    assert_eq!(
        Err(FormatError { kind: ErrorKind::FieldOutOfRange, pos: 3 + 228 + 18, field: Field::Angle }),
        wrong.write(&mut out, SubFormat::Hundredths)
    );
    let mut wrong = shot(250);
    wrong.sonar_return.header.data_length = 0x4000;
    assert_eq!(
        Err(FormatError { kind: ErrorKind::FieldOutOfRange, pos: 3 + 228 + 10, field: Field::U14 }),
        wrong.write(&mut out, SubFormat::Hundredths)
    );
    assert_eq!(vec![1u8, 2, 3], out);
}

#[test]
fn the_sound_velocity_takes_the_general_path_but_for_1500() {
    let mut value = header();
    value.sound_velocity = 14_999;
    let mut out = Vec::new();
    value.write(&mut out, SubFormat::Hundredths).unwrap();
    assert_eq!([0x3A, 0x97], out[43..45]);
    assert_eq!(108, out.len());
    let (got, next) = FileHeader::parse(&out, 0).unwrap();
    assert_eq!(value, got);
    assert_eq!(108, next);
    // 1500.0 m/s without the default bit is read, and written back with it
    out[43] = 0x3A;
    out[44] = 0x98;
    let (got, _) = FileHeader::parse(&out, 0).unwrap();
    assert_eq!(15_000, got.sound_velocity);
    let mut again = Vec::new();
    got.write(&mut again, SubFormat::Hundredths).unwrap();
    assert_eq!([0x80, 0x00], again[43..45]);
}

#[test]
fn switch_data_takes_seven_bytes() {
    let switch = SwitchData::new(
        RangeCode::X2m,
        Command::new(ProfilePointDetection::StartOfPulse, StepDirection::Reverse),
    );
    let mut out = Vec::new();
    switch.write(&mut out).unwrap();
    assert_eq!(vec![0xFEu8, 0x44, 0x00, 20, 0x00, 0b0100_0001, 0x00], out);
    assert_eq!(Ok((switch, 7)), SwitchData::parse(&out, 0));

    assert_eq!(
        Err(FormatError { kind: ErrorKind::MagicMismatch, pos: 0, field: Field::SwitchData }),
        SwitchData::parse(&[0xFE, 0x45, 0, 20, 0, 0, 0], 0)
    );
    assert_eq!(
        Err(FormatError { kind: ErrorKind::InvalidEnumValue, pos: 3, field: Field::RangeCode }),
        SwitchData::parse(&[0xFE, 0x44, 0, 21, 0, 0, 0], 0)
    );
    assert_eq!(
        Err(FormatError { kind: ErrorKind::Truncated, pos: 6, field: Field::Padding }),
        SwitchData::parse(&[0xFE, 0x44, 0, 20, 0, 0], 0)
    );
    assert_eq!(
        Err(FormatError { kind: ErrorKind::Truncated, pos: 1, field: Field::SwitchData }),
        SwitchData::parse(&[0xFE, 0xFE], 1)
    );
}

#[test]
fn a_reader_gives_one_shot_after_another() {
    let mut bytes = encoded(&shot(250));
    bytes.extend(encoded(&shot(0)));
    bytes.extend_from_slice(b"31L and then nothing of a shot");
    let mut reader = Reader::new(bytes);
    assert_eq!(0, reader.position());
    assert_eq!(Some(shot(250)), reader.next());
    assert_eq!(512, reader.position());
    assert_eq!(Some(shot(0)), reader.next());
    assert_eq!(774, reader.position());
    // what is no shot leaves the reader where it was
    assert_eq!(None, reader.next());
    assert_eq!(774, reader.position());
    reader.seek(512);
    assert_eq!(Some(shot(0)), reader.next());
    reader.seek(10_000);
    assert_eq!(None, reader.next());
    assert_eq!(10_000, reader.position());
    assert_eq!(None, Reader::new(Vec::new()).next());
}

#[test]
fn errors_carry_a_message() {
    let failure = FormatError::new(ErrorKind::FieldOutOfRange, 39, Field::StartGain);
    assert_eq!("value out of range for start gain", failure.message());
    assert_eq!(
        "invalid value for rangecode",
        FormatError::new(ErrorKind::InvalidEnumValue, 0, Field::RangeCode).message()
    );
    assert_eq!(
        "unexpected magic for shot",
        FormatError::new(ErrorKind::MagicMismatch, 0, Field::Shot).message()
    );
    assert_eq!(
        "invariant violated for file header",
        FormatError::new(ErrorKind::InvariantViolation, 0, Field::FileHeader).message()
    );
    assert_eq!(
        "not enough bytes for padding",
        FormatError::new(ErrorKind::Truncated, 0, Field::Padding).message()
    );
    assert_eq!(
        "malformed text for date",
        FormatError::new(ErrorKind::EncodingError, 0, Field::Date).message()
    );
    assert_eq!(
        "value has no wire form for time",
        FormatError::new(ErrorKind::Unrepresentable, 0, Field::Time).message()
    );

    let error = Error::new("Failed to open shot file for reading".to_string());
    assert_eq!("Failed to open shot file for reading", error.message);
    assert_eq!("Failed to open shot file for reading", error.to_string());
    assert!(error.source.is_none());
    assert_eq!("", Error::default().message);
    let wrapped = Error::from_format(failure);
    assert_eq!("Binary Encoding Error", wrapped.message);
    assert_eq!(Some(failure), wrapped.source);
}

#[test]
fn an_array_keeps_its_buffer() {
    let array = Array::new(vec![1, 2, 3]);
    let copy = array.clone();
    assert_eq!(format!("{array:?}"), format!("{copy:?}"));
}
