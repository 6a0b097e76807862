//! The header of a shot: the settings of the instrument when the shot was taken.
use crate::error::{ErrorKind, Field, FormatError};
use crate::types::config::Config;
use crate::types::data_size_index::DataPoints;
use crate::types::motion_config::MotionConfig;
use crate::types::primitive::datetime::{DateTime, SubFormat};
use crate::types::primitive::{
    absorption, datetime, pulse_length, real_time_prf, sector_size, sound_velocity, start_gain,
    train_angle,
};
use crate::types::range_code::RangeCode;
use crate::types::sensor_available::SensorAvailable;
use crate::types::sensor_information::SensorInformation;
use crate::types::util::bytes::{
    appended_keeps, appended_twice, available, holds_at, holds_both, put_u16, put_u32, put_zeros,
    skip, skip_spec, stretches_join, take_u16, take_u16_spec, take_u32, take_u32_spec, u16_bytes,
    u32_bytes, u32_is_read_back, u32_is_written_back, word_at, word_is_read_back,
    word_is_written_back, zeros, Endian,
};
use crate::types::util::primitive::{
    parse_u8, parse_u8_spec, parsed_is_put_back, put_is_parsed_back, put_u8, put_u8_spec,
};
use vstd::prelude::*;

verus! {

/// The settings of the instrument when a shot was taken. On the wire it takes 108 bytes, in
/// big-endian order, with reserved bytes between some of the fields.
#[derive(Debug, Clone, Copy, PartialEq, Eq, Structural)]
pub struct FileHeader {
    /// The size of the echo data.
    pub data_size_index: DataPoints,
    /// The length of the whole shot in bytes; always 512.
    pub total_length: u16,
    /// The length of the sonar return in bytes; always 283.
    pub data_length: u16,
    /// When the shot was taken.
    pub datetime: DateTime,
    /// Whether an external sensor is present.
    pub sensor_available: SensorAvailable,
    /// The motion settings of the head.
    pub motion: MotionConfig,
    /// The start gain in decibels.
    pub start_gain: u8,
    /// The sector size in degrees.
    pub sector_size: u16,
    /// The train angle in degrees.
    pub train_angle: u16,
    /// The range setting.
    pub range_code: RangeCode,
    /// The absorption in hundredths of a decibel per metre.
    pub absorption: i32,
    /// The display and sampling settings.
    pub config: Config,
    /// The pulse length in microseconds.
    pub pulse_length: u16,
    /// The sound velocity in tenths of a metre per second.
    pub sound_velocity: i32,
    /// The operating frequency, as the head reports it.
    pub operating_frequency: u16,
    /// The pulse repetition frequency in hundredths of a hertz.
    pub real_time_prf: i32,
    /// Which readings of the external sensor are valid.
    pub sensor_information: SensorInformation,
    /// The pitch of the external sensor: the bits of a single-precision float.
    pub pitch: u32,
    /// The roll of the external sensor: the bits of a single-precision float.
    pub roll: u32,
    /// The distance of the external sensor: the bits of a single-precision float.
    pub distance: u32,
}

/// Every part of a header that was read, each with the offset behind it, or its failure.
pub struct FileHeaderParts {
    pub data_size_index: Result<(DataPoints, usize), FormatError>,
    pub total_length: Result<(u16, usize), FormatError>,
    pub data_length: Result<(u16, usize), FormatError>,
    pub datetime: Result<(DateTime, usize), FormatError>,
    pub after_datetime: Result<usize, FormatError>,
    pub sensor_available: Result<(SensorAvailable, usize), FormatError>,
    pub after_sensor_available: Result<usize, FormatError>,
    pub motion: Result<(MotionConfig, usize), FormatError>,
    pub start_gain: Result<(u8, usize), FormatError>,
    pub sector_size: Result<(u16, usize), FormatError>,
    pub train_angle: Result<(u16, usize), FormatError>,
    pub range_code: Result<(RangeCode, usize), FormatError>,
    pub absorption: Result<(i32, usize), FormatError>,
    pub config: Result<(Config, usize), FormatError>,
    pub pulse_length: Result<(u16, usize), FormatError>,
    pub after_pulse_length: Result<usize, FormatError>,
    pub sound_velocity: Result<(i32, usize), FormatError>,
    pub after_sound_velocity: Result<usize, FormatError>,
    pub operating_frequency: Result<(u16, usize), FormatError>,
    pub real_time_prf: Result<(i32, usize), FormatError>,
    pub after_real_time_prf: Result<usize, FormatError>,
    pub sensor_information: Result<(SensorInformation, usize), FormatError>,
    pub pitch: Result<(u32, usize), FormatError>,
    pub roll: Result<(u32, usize), FormatError>,
    pub distance: Result<(u32, usize), FormatError>,
}

/// Every part of a header whose writing can fail, as it is written: its bytes, or its failure.
pub struct FileHeaderWritten {
    pub data_size_index: Result<Seq<u8>, FormatError>,
    pub datetime: Result<Seq<u8>, FormatError>,
    pub sensor_available: Result<Seq<u8>, FormatError>,
    pub start_gain: Result<Seq<u8>, FormatError>,
    pub sector_size: Result<Seq<u8>, FormatError>,
    pub train_angle: Result<Seq<u8>, FormatError>,
    pub range_code: Result<Seq<u8>, FormatError>,
    pub absorption: Result<Seq<u8>, FormatError>,
    pub pulse_length: Result<Seq<u8>, FormatError>,
    pub sound_velocity: Result<Seq<u8>, FormatError>,
    pub real_time_prf: Result<Seq<u8>, FormatError>,
}

impl FileHeader {
    /// The length that `total_length` must hold.
    pub const VALID_TOTAL_LENGTH: u16 = 512;

    /// The length that `data_length` must hold.
    pub const VALID_DATA_LENGTH: u16 = 283;

    /// The number of bytes of a header on the wire.
    pub const LENGTH: usize = 108;

    /// Whether both length fields hold the constants that they must.
    pub open spec fn lengths_hold(self) -> bool {
        self.total_length == Self::VALID_TOTAL_LENGTH && self.data_length == Self::VALID_DATA_LENGTH
    }

    /// Every part of the header at `pos`, each read at its own offset.
    pub open spec fn parts(input: Seq<u8>, pos: usize) -> FileHeaderParts {
        FileHeaderParts {
            data_size_index: parse_u8_spec::<DataPoints>(input, pos),
            total_length: take_u16_spec(input, (pos + 1) as usize, Endian::Big, Field::U16),
            data_length: take_u16_spec(input, (pos + 3) as usize, Endian::Big, Field::U16),
            datetime: datetime::parse_spec(input, (pos + 5) as usize),
            after_datetime: skip_spec(input, (pos + 30) as usize, 1),
            sensor_available: parse_u8_spec::<SensorAvailable>(input, (pos + 31) as usize),
            after_sensor_available: skip_spec(input, (pos + 32) as usize, 2),
            motion: MotionConfig::parse_spec(input, (pos + 34) as usize),
            start_gain: start_gain::parse_spec(input, (pos + 35) as usize),
            sector_size: sector_size::parse_spec(input, (pos + 36) as usize),
            train_angle: train_angle::parse_spec(input, (pos + 37) as usize),
            range_code: parse_u8_spec::<RangeCode>(input, (pos + 38) as usize),
            absorption: absorption::parse_spec(input, (pos + 39) as usize),
            config: Config::parse_spec(input, (pos + 40) as usize),
            pulse_length: pulse_length::parse_spec(input, (pos + 41) as usize),
            after_pulse_length: skip_spec(input, (pos + 42) as usize, 1),
            sound_velocity: sound_velocity::parse_spec(input, (pos + 43) as usize, Endian::Big),
            after_sound_velocity: skip_spec(input, (pos + 45) as usize, 31),
            operating_frequency: take_u16_spec(input, (pos + 76) as usize, Endian::Big, Field::U16),
            real_time_prf: real_time_prf::parse_spec(input, (pos + 78) as usize, Endian::Big),
            after_real_time_prf: skip_spec(input, (pos + 80) as usize, 15),
            sensor_information: SensorInformation::parse_spec(input, (pos + 95) as usize),
            pitch: take_u32_spec(input, (pos + 96) as usize, Endian::Big, Field::U32),
            roll: take_u32_spec(input, (pos + 100) as usize, Endian::Big, Field::U32),
            distance: take_u32_spec(input, (pos + 104) as usize, Endian::Big, Field::U32),
        }
    }

    /// What parsing a header at `pos` gives: the header and the offset behind it, or
    /// the failure. The parts are read in the order of the wire, and the first that fails
    /// gives the failure. When all are read, a length field that does not hold its
    /// constant fails at `pos`.
    #[verifier::opaque]
    pub open spec fn parse_spec(
        input: Seq<u8>,
        pos: usize,
    ) -> Result<(FileHeader, usize), FormatError> {
        let parts = Self::parts(input, pos);
        if parts.data_size_index is Err {
            Err(parts.data_size_index->Err_0)
        } else if parts.total_length is Err {
            Err(parts.total_length->Err_0)
        } else if parts.data_length is Err {
            Err(parts.data_length->Err_0)
        } else if parts.datetime is Err {
            Err(parts.datetime->Err_0)
        } else if parts.after_datetime is Err {
            Err(parts.after_datetime->Err_0)
        } else if parts.sensor_available is Err {
            Err(parts.sensor_available->Err_0)
        } else if parts.after_sensor_available is Err {
            Err(parts.after_sensor_available->Err_0)
        } else if parts.motion is Err {
            Err(parts.motion->Err_0)
        } else if parts.start_gain is Err {
            Err(parts.start_gain->Err_0)
        } else if parts.sector_size is Err {
            Err(parts.sector_size->Err_0)
        } else if parts.train_angle is Err {
            Err(parts.train_angle->Err_0)
        } else if parts.range_code is Err {
            Err(parts.range_code->Err_0)
        } else if parts.absorption is Err {
            Err(parts.absorption->Err_0)
        } else if parts.config is Err {
            Err(parts.config->Err_0)
        } else if parts.pulse_length is Err {
            Err(parts.pulse_length->Err_0)
        } else if parts.after_pulse_length is Err {
            Err(parts.after_pulse_length->Err_0)
        } else if parts.sound_velocity is Err {
            Err(parts.sound_velocity->Err_0)
        } else if parts.after_sound_velocity is Err {
            Err(parts.after_sound_velocity->Err_0)
        } else if parts.operating_frequency is Err {
            Err(parts.operating_frequency->Err_0)
        } else if parts.real_time_prf is Err {
            Err(parts.real_time_prf->Err_0)
        } else if parts.after_real_time_prf is Err {
            Err(parts.after_real_time_prf->Err_0)
        } else if parts.sensor_information is Err {
            Err(parts.sensor_information->Err_0)
        } else if parts.pitch is Err {
            Err(parts.pitch->Err_0)
        } else if parts.roll is Err {
            Err(parts.roll->Err_0)
        } else if parts.distance is Err {
            Err(parts.distance->Err_0)
        } else {
            let value = FileHeader {
                data_size_index: parts.data_size_index->Ok_0.0,
                total_length: parts.total_length->Ok_0.0,
                data_length: parts.data_length->Ok_0.0,
                datetime: parts.datetime->Ok_0.0,
                sensor_available: parts.sensor_available->Ok_0.0,
                motion: parts.motion->Ok_0.0,
                start_gain: parts.start_gain->Ok_0.0,
                sector_size: parts.sector_size->Ok_0.0,
                train_angle: parts.train_angle->Ok_0.0,
                range_code: parts.range_code->Ok_0.0,
                absorption: parts.absorption->Ok_0.0,
                config: parts.config->Ok_0.0,
                pulse_length: parts.pulse_length->Ok_0.0,
                sound_velocity: parts.sound_velocity->Ok_0.0,
                operating_frequency: parts.operating_frequency->Ok_0.0,
                real_time_prf: parts.real_time_prf->Ok_0.0,
                sensor_information: parts.sensor_information->Ok_0.0,
                pitch: parts.pitch->Ok_0.0,
                roll: parts.roll->Ok_0.0,
                distance: parts.distance->Ok_0.0,
            };
            if value.lengths_hold() {
                Ok((value, (pos + 108) as usize))
            } else {
                Err(
                    FormatError {
                        kind: ErrorKind::InvariantViolation,
                        pos,
                        field: Field::FileHeader,
                    },
                )
            }
        }
    }

    /// Every part of the header whose writing can fail, as it is written at offset `pos`.
    pub open spec fn written(self, pos: usize, sub_format: SubFormat) -> FileHeaderWritten {
        FileHeaderWritten {
            data_size_index: put_u8_spec::<DataPoints>(self.data_size_index, pos),
            datetime: datetime::write_spec(self.datetime, (pos + 5) as usize, sub_format),
            sensor_available: put_u8_spec::<SensorAvailable>(
                self.sensor_available,
                (pos + 31) as usize,
            ),
            start_gain: start_gain::write_spec(self.start_gain, (pos + 35) as usize),
            sector_size: sector_size::write_spec(self.sector_size, (pos + 36) as usize),
            train_angle: train_angle::write_spec(self.train_angle, (pos + 37) as usize),
            range_code: put_u8_spec::<RangeCode>(self.range_code, (pos + 38) as usize),
            absorption: absorption::write_spec(self.absorption, (pos + 39) as usize),
            pulse_length: pulse_length::write_spec(self.pulse_length, (pos + 41) as usize),
            sound_velocity: sound_velocity::write_spec(
                self.sound_velocity,
                (pos + 43) as usize,
                Endian::Big,
            ),
            real_time_prf: real_time_prf::write_spec(
                self.real_time_prf,
                (pos + 78) as usize,
                Endian::Big,
            ),
        }
    }

    /// The bytes of the header, given the bytes of its parts whose writing can fail.
    pub open spec fn bytes(self, written: FileHeaderWritten) -> Seq<u8> {
        written.data_size_index->Ok_0
            + u16_bytes(self.total_length, Endian::Big)
            + u16_bytes(self.data_length, Endian::Big)
            + written.datetime->Ok_0
            + zeros(1)
            + written.sensor_available->Ok_0
            + zeros(2)
            + self.motion.write_spec()
            + written.start_gain->Ok_0
            + written.sector_size->Ok_0
            + written.train_angle->Ok_0
            + written.range_code->Ok_0
            + written.absorption->Ok_0
            + self.config.write_spec()
            + written.pulse_length->Ok_0
            + zeros(1)
            + written.sound_velocity->Ok_0
            + zeros(31)
            + u16_bytes(self.operating_frequency, Endian::Big)
            + written.real_time_prf->Ok_0
            + zeros(15)
            + self.sensor_information.write_spec()
            + u32_bytes(self.pitch, Endian::Big)
            + u32_bytes(self.roll, Endian::Big)
            + u32_bytes(self.distance, Endian::Big)
    }

    /// What writing the header at offset `pos` gives: its 108 bytes, or the failure.
    /// A length field that does not hold its constant fails first, at `pos`.
    /// The parts are written in the order of the wire, and the first that fails gives the
    /// failure.
    #[verifier::opaque]
    pub open spec fn write_spec(
        self,
        pos: usize,
        sub_format: SubFormat,
    ) -> Result<Seq<u8>, FormatError> {
        let written = self.written(pos, sub_format);
        if !self.lengths_hold() {
            Err(FormatError { kind: ErrorKind::InvariantViolation, pos, field: Field::FileHeader })
        } else if written.data_size_index is Err {
            Err(written.data_size_index->Err_0)
        } else if written.datetime is Err {
            Err(written.datetime->Err_0)
        } else if written.sensor_available is Err {
            Err(written.sensor_available->Err_0)
        } else if written.start_gain is Err {
            Err(written.start_gain->Err_0)
        } else if written.sector_size is Err {
            Err(written.sector_size->Err_0)
        } else if written.train_angle is Err {
            Err(written.train_angle->Err_0)
        } else if written.range_code is Err {
            Err(written.range_code->Err_0)
        } else if written.absorption is Err {
            Err(written.absorption->Err_0)
        } else if written.pulse_length is Err {
            Err(written.pulse_length->Err_0)
        } else if written.sound_velocity is Err {
            Err(written.sound_velocity->Err_0)
        } else if written.real_time_prf is Err {
            Err(written.real_time_prf->Err_0)
        } else {
            Ok(self.bytes(written))
        }
    }

    /// Parses a header from the 108 bytes at `pos`.
    pub fn parse(input: &[u8], pos: usize) -> (r: Result<(FileHeader, usize), FormatError>)
        ensures
            r == Self::parse_spec(input@, pos),
    {
        proof {
            reveal(FileHeader::parse_spec);
        }
        let _ = input.len();
        let (data_size_index, next) = parse_u8::<DataPoints>(input, pos)?;
        let (total_length, next) = take_u16(input, next, Endian::Big, Field::U16)?;
        let (data_length, next) = take_u16(input, next, Endian::Big, Field::U16)?;
        let (datetime, next) = datetime::parse(input, next)?;
        let next = skip(input, next, 1)?;
        let (sensor_available, next) = parse_u8::<SensorAvailable>(input, next)?;
        let next = skip(input, next, 2)?;
        let (motion, next) = MotionConfig::parse(input, next)?;
        let (start_gain, next) = start_gain::parse(input, next)?;
        let (sector_size, next) = sector_size::parse(input, next)?;
        let (train_angle, next) = train_angle::parse(input, next)?;
        let (range_code, next) = parse_u8::<RangeCode>(input, next)?;
        let (absorption, next) = absorption::parse(input, next)?;
        let (config, next) = Config::parse(input, next)?;
        let (pulse_length, next) = pulse_length::parse(input, next)?;
        let next = skip(input, next, 1)?;
        let (sound_velocity, next) = sound_velocity::parse(input, next, Endian::Big)?;
        let next = skip(input, next, 31)?;
        let (operating_frequency, next) = take_u16(input, next, Endian::Big, Field::U16)?;
        let (real_time_prf, next) = real_time_prf::parse(input, next, Endian::Big)?;
        let next = skip(input, next, 15)?;
        let (sensor_information, next) = SensorInformation::parse(input, next)?;
        let (pitch, next) = take_u32(input, next, Endian::Big, Field::U32)?;
        let (roll, next) = take_u32(input, next, Endian::Big, Field::U32)?;
        let (distance, next) = take_u32(input, next, Endian::Big, Field::U32)?;
        let value = FileHeader {
            data_size_index,
            total_length,
            data_length,
            datetime,
            sensor_available,
            motion,
            start_gain,
            sector_size,
            train_angle,
            range_code,
            absorption,
            config,
            pulse_length,
            sound_velocity,
            operating_frequency,
            real_time_prf,
            sensor_information,
            pitch,
            roll,
            distance,
        };
        if !(value.total_length == Self::VALID_TOTAL_LENGTH && value.data_length
            == Self::VALID_DATA_LENGTH) {
            return Err(FormatError::new(ErrorKind::InvariantViolation, pos, Field::FileHeader));
        }
        Ok((value, next))
    }

    /// Appends the parts of the header to `out`, up to the first that fails.
    #[verifier::rlimit(40)]
    fn write_parts(
        &self,
        out: &mut Vec<u8>,
        sub_format: SubFormat,
        pos: usize,
    ) -> (r: Result<(), FormatError>)
        requires
            self.lengths_hold(),
            pos == old(out)@.len(),
        ensures
            match self.write_spec(pos, sub_format) {
                Ok(bytes) => r.is_ok() && final(out)@ == old(out)@ + bytes,
                Err(e) => r == Err::<(), FormatError>(e) && old(out)@.len() <= final(out)@.len()
                    && final(out)@.subrange(0, old(out)@.len() as int) == old(out)@,
            },
    {
        proof {
            reveal(FileHeader::write_spec);
        }
        let ghost start = old(out)@;
        let ghost written = self.written(pos, sub_format);
        let ghost mut done = Seq::<u8>::empty();
        proof {
            datetime::written_len(self.datetime, (pos + 5) as usize, sub_format);
        }
        put_u8::<DataPoints>(self.data_size_index, out)?;
        proof {
            done = written.data_size_index->Ok_0;
            assert(done.len() == 1);
            appended_keeps(start, done);
        }
        put_u16(self.total_length, Endian::Big, out);
        proof {
            appended_twice(start, done, u16_bytes(self.total_length, Endian::Big));
            done = done + u16_bytes(self.total_length, Endian::Big);
            assert(done.len() == 3);
            appended_keeps(start, done);
        }
        put_u16(self.data_length, Endian::Big, out);
        proof {
            appended_twice(start, done, u16_bytes(self.data_length, Endian::Big));
            done = done + u16_bytes(self.data_length, Endian::Big);
            assert(done.len() == 5);
            appended_keeps(start, done);
        }
        datetime::write(&self.datetime, out, sub_format)?;
        proof {
            appended_twice(start, done, written.datetime->Ok_0);
            done = done + written.datetime->Ok_0;
            assert(done.len() == 30);
            appended_keeps(start, done);
        }
        put_zeros(1, out);
        proof {
            appended_twice(start, done, zeros(1));
            done = done + zeros(1);
            assert(done.len() == 31);
            appended_keeps(start, done);
        }
        put_u8::<SensorAvailable>(self.sensor_available, out)?;
        proof {
            appended_twice(start, done, written.sensor_available->Ok_0);
            done = done + written.sensor_available->Ok_0;
            assert(done.len() == 32);
            appended_keeps(start, done);
        }
        put_zeros(2, out);
        proof {
            appended_twice(start, done, zeros(2));
            done = done + zeros(2);
            assert(done.len() == 34);
            appended_keeps(start, done);
        }
        self.motion.write(out)?;
        proof {
            appended_twice(start, done, self.motion.write_spec());
            done = done + self.motion.write_spec();
            assert(done.len() == 35);
            appended_keeps(start, done);
        }
        start_gain::write(&self.start_gain, out)?;
        proof {
            appended_twice(start, done, written.start_gain->Ok_0);
            done = done + written.start_gain->Ok_0;
            assert(done.len() == 36);
            appended_keeps(start, done);
        }
        sector_size::write(&self.sector_size, out)?;
        proof {
            appended_twice(start, done, written.sector_size->Ok_0);
            done = done + written.sector_size->Ok_0;
            assert(done.len() == 37);
            appended_keeps(start, done);
        }
        train_angle::write(&self.train_angle, out)?;
        proof {
            appended_twice(start, done, written.train_angle->Ok_0);
            done = done + written.train_angle->Ok_0;
            assert(done.len() == 38);
            appended_keeps(start, done);
        }
        put_u8::<RangeCode>(self.range_code, out)?;
        proof {
            appended_twice(start, done, written.range_code->Ok_0);
            done = done + written.range_code->Ok_0;
            assert(done.len() == 39);
            appended_keeps(start, done);
        }
        absorption::write(&self.absorption, out)?;
        proof {
            appended_twice(start, done, written.absorption->Ok_0);
            done = done + written.absorption->Ok_0;
            assert(done.len() == 40);
            appended_keeps(start, done);
        }
        self.config.write(out)?;
        proof {
            appended_twice(start, done, self.config.write_spec());
            done = done + self.config.write_spec();
            assert(done.len() == 41);
            appended_keeps(start, done);
        }
        pulse_length::write(&self.pulse_length, out)?;
        proof {
            appended_twice(start, done, written.pulse_length->Ok_0);
            done = done + written.pulse_length->Ok_0;
            assert(done.len() == 42);
            appended_keeps(start, done);
        }
        put_zeros(1, out);
        proof {
            appended_twice(start, done, zeros(1));
            done = done + zeros(1);
            assert(done.len() == 43);
            appended_keeps(start, done);
        }
        sound_velocity::write(&self.sound_velocity, out, Endian::Big)?;
        proof {
            appended_twice(start, done, written.sound_velocity->Ok_0);
            done = done + written.sound_velocity->Ok_0;
            assert(done.len() == 45);
            appended_keeps(start, done);
        }
        put_zeros(31, out);
        proof {
            appended_twice(start, done, zeros(31));
            done = done + zeros(31);
            assert(done.len() == 76);
            appended_keeps(start, done);
        }
        put_u16(self.operating_frequency, Endian::Big, out);
        proof {
            appended_twice(start, done, u16_bytes(self.operating_frequency, Endian::Big));
            done = done + u16_bytes(self.operating_frequency, Endian::Big);
            assert(done.len() == 78);
            appended_keeps(start, done);
        }
        real_time_prf::write(&self.real_time_prf, out, Endian::Big)?;
        proof {
            appended_twice(start, done, written.real_time_prf->Ok_0);
            done = done + written.real_time_prf->Ok_0;
            assert(done.len() == 80);
            appended_keeps(start, done);
        }
        put_zeros(15, out);
        proof {
            appended_twice(start, done, zeros(15));
            done = done + zeros(15);
            assert(done.len() == 95);
            appended_keeps(start, done);
        }
        self.sensor_information.write(out)?;
        proof {
            appended_twice(start, done, self.sensor_information.write_spec());
            done = done + self.sensor_information.write_spec();
            assert(done.len() == 96);
            appended_keeps(start, done);
        }
        put_u32(self.pitch, Endian::Big, out);
        proof {
            appended_twice(start, done, u32_bytes(self.pitch, Endian::Big));
            done = done + u32_bytes(self.pitch, Endian::Big);
            assert(done.len() == 100);
            appended_keeps(start, done);
        }
        put_u32(self.roll, Endian::Big, out);
        proof {
            appended_twice(start, done, u32_bytes(self.roll, Endian::Big));
            done = done + u32_bytes(self.roll, Endian::Big);
            assert(done.len() == 104);
            appended_keeps(start, done);
        }
        put_u32(self.distance, Endian::Big, out);
        proof {
            appended_twice(start, done, u32_bytes(self.distance, Endian::Big));
            done = done + u32_bytes(self.distance, Endian::Big);
            assert(done.len() == 108);
            appended_keeps(start, done);
        }
        Ok(())
    }

    /// Appends the 108 bytes of the header to `out`, with the sub-seconds of its timestamp in
    /// `sub_format`. On a failure `out` is left as it was.
    pub fn write(&self, out: &mut Vec<u8>, sub_format: SubFormat) -> (r: Result<(), FormatError>)
        ensures
            match self.write_spec(old(out)@.len() as usize, sub_format) {
                Ok(bytes) => r.is_ok() && final(out)@ == old(out)@ + bytes,
                Err(e) => r == Err::<(), FormatError>(e) && final(out)@ == old(out)@,
            },
    {
        let start: usize = out.len();
        proof {
            reveal(FileHeader::write_spec);
        }
        if !(self.total_length == Self::VALID_TOTAL_LENGTH && self.data_length
            == Self::VALID_DATA_LENGTH) {
            return Err(FormatError::new(ErrorKind::InvariantViolation, start, Field::FileHeader));
        }
        match self.write_parts(out, sub_format, start) {
            Ok(()) => Ok(()),
            Err(e) => {
                out.truncate(start);
                Err(e)
            },
        }
    }

    /// Whether the header is one that the wire carries exactly: every part is in range and a
    /// whole number of its steps, and the length fields hold their constants.
    pub open spec fn exact(self) -> bool {
        self.lengths_hold()
            && start_gain::exact(self.start_gain)
            && sector_size::exact(self.sector_size)
            && train_angle::exact(self.train_angle)
            && absorption::exact(self.absorption)
            && pulse_length::exact(self.pulse_length)
            && sound_velocity::valid_spec(self.sound_velocity)
            && real_time_prf::valid_spec(self.real_time_prf)
    }

    /// Whether the bytes at `pos` are written the way this library writes a header: the
    /// reserved bytes are zero, and so is every bit that belongs to no field.
    pub open spec fn canonical(input: Seq<u8>, pos: usize) -> bool {
        input.subrange(pos + 30, pos + 31) == zeros(1)
            && input.subrange(pos + 32, pos + 34) == zeros(2)
            && input.subrange(pos + 42, pos + 43) == zeros(1)
            && sound_velocity::canonical(word_at(input, (pos + 43) as usize, Endian::Big))
            && input.subrange(pos + 45, pos + 76) == zeros(31)
            && real_time_prf::canonical(word_at(input, (pos + 78) as usize, Endian::Big))
            && input.subrange(pos + 80, pos + 95) == zeros(15)
            && SensorInformation::canonical(input[(pos + 95) as usize as int])
    }

    /// A header that is written takes 108 bytes.
    pub proof fn written_len(self, pos: usize, sub_format: SubFormat)
        ensures
            self.write_spec(pos, sub_format) matches Ok(bytes) ==> bytes.len() == 108,
    {
        reveal(FileHeader::write_spec);
        datetime::written_len(self.datetime, (pos + 5) as usize, sub_format);
    }

    /// A header that is parsed takes 108 bytes.
    pub proof fn parsed_len(input: Seq<u8>, pos: usize)
        requires
            input.len() <= usize::MAX,
        ensures
            Self::parse_spec(input, pos) matches Ok((_, next)) ==> next == pos + 108 && available(
                input,
                pos,
                108,
            ),
    {
        reveal(FileHeader::parse_spec);
    }

    /// Where `input` holds the bytes of the header at `pos`, it holds each part at its offset.
    proof fn parts_hold(self, input: Seq<u8>, pos: usize, sub_format: SubFormat)
        requires
            input.len() <= usize::MAX,
            self.write_spec(pos, sub_format).is_ok(),
            holds_at(input, pos, self.write_spec(pos, sub_format)->Ok_0),
        ensures
            holds_at(input, pos, self.written(pos, sub_format).data_size_index->Ok_0),
            holds_at(input, (pos + 1) as usize, u16_bytes(self.total_length, Endian::Big)),
            holds_at(input, (pos + 3) as usize, u16_bytes(self.data_length, Endian::Big)),
            holds_at(input, (pos + 5) as usize, self.written(pos, sub_format).datetime->Ok_0),
            holds_at(input, (pos + 30) as usize, zeros(1)),
            holds_at(
                input,
                (pos + 31) as usize,
                self.written(pos, sub_format).sensor_available->Ok_0,
            ),
            holds_at(input, (pos + 32) as usize, zeros(2)),
            holds_at(input, (pos + 34) as usize, self.motion.write_spec()),
            holds_at(input, (pos + 35) as usize, self.written(pos, sub_format).start_gain->Ok_0),
            holds_at(input, (pos + 36) as usize, self.written(pos, sub_format).sector_size->Ok_0),
            holds_at(input, (pos + 37) as usize, self.written(pos, sub_format).train_angle->Ok_0),
            holds_at(input, (pos + 38) as usize, self.written(pos, sub_format).range_code->Ok_0),
            holds_at(input, (pos + 39) as usize, self.written(pos, sub_format).absorption->Ok_0),
            holds_at(input, (pos + 40) as usize, self.config.write_spec()),
            holds_at(input, (pos + 41) as usize, self.written(pos, sub_format).pulse_length->Ok_0),
            holds_at(input, (pos + 42) as usize, zeros(1)),
            holds_at(
                input,
                (pos + 43) as usize,
                self.written(pos, sub_format).sound_velocity->Ok_0,
            ),
            holds_at(input, (pos + 45) as usize, zeros(31)),
            holds_at(input, (pos + 76) as usize, u16_bytes(self.operating_frequency, Endian::Big)),
            holds_at(input, (pos + 78) as usize, self.written(pos, sub_format).real_time_prf->Ok_0),
            holds_at(input, (pos + 80) as usize, zeros(15)),
            holds_at(input, (pos + 95) as usize, self.sensor_information.write_spec()),
            holds_at(input, (pos + 96) as usize, u32_bytes(self.pitch, Endian::Big)),
            holds_at(input, (pos + 100) as usize, u32_bytes(self.roll, Endian::Big)),
            holds_at(input, (pos + 104) as usize, u32_bytes(self.distance, Endian::Big)),
    {
        reveal(FileHeader::write_spec);
        datetime::written_len(self.datetime, (pos + 5) as usize, sub_format);
        let w0 = self.written(pos, sub_format).data_size_index->Ok_0;
        let w1 = w0 + u16_bytes(self.total_length, Endian::Big);
        let w2 = w1 + u16_bytes(self.data_length, Endian::Big);
        let w3 = w2 + self.written(pos, sub_format).datetime->Ok_0;
        let w4 = w3 + zeros(1);
        let w5 = w4 + self.written(pos, sub_format).sensor_available->Ok_0;
        let w6 = w5 + zeros(2);
        let w7 = w6 + self.motion.write_spec();
        let w8 = w7 + self.written(pos, sub_format).start_gain->Ok_0;
        let w9 = w8 + self.written(pos, sub_format).sector_size->Ok_0;
        let w10 = w9 + self.written(pos, sub_format).train_angle->Ok_0;
        let w11 = w10 + self.written(pos, sub_format).range_code->Ok_0;
        let w12 = w11 + self.written(pos, sub_format).absorption->Ok_0;
        let w13 = w12 + self.config.write_spec();
        let w14 = w13 + self.written(pos, sub_format).pulse_length->Ok_0;
        let w15 = w14 + zeros(1);
        let w16 = w15 + self.written(pos, sub_format).sound_velocity->Ok_0;
        let w17 = w16 + zeros(31);
        let w18 = w17 + u16_bytes(self.operating_frequency, Endian::Big);
        let w19 = w18 + self.written(pos, sub_format).real_time_prf->Ok_0;
        let w20 = w19 + zeros(15);
        let w21 = w20 + self.sensor_information.write_spec();
        let w22 = w21 + u32_bytes(self.pitch, Endian::Big);
        let w23 = w22 + u32_bytes(self.roll, Endian::Big);
        let w24 = w23 + u32_bytes(self.distance, Endian::Big);
        holds_both(input, pos, w23, u32_bytes(self.distance, Endian::Big));
        assert(w23.len() == 104);
        holds_both(input, pos, w22, u32_bytes(self.roll, Endian::Big));
        assert(w22.len() == 100);
        holds_both(input, pos, w21, u32_bytes(self.pitch, Endian::Big));
        assert(w21.len() == 96);
        holds_both(input, pos, w20, self.sensor_information.write_spec());
        assert(w20.len() == 95);
        holds_both(input, pos, w19, zeros(15));
        assert(w19.len() == 80);
        holds_both(input, pos, w18, self.written(pos, sub_format).real_time_prf->Ok_0);
        assert(w18.len() == 78);
        holds_both(input, pos, w17, u16_bytes(self.operating_frequency, Endian::Big));
        assert(w17.len() == 76);
        holds_both(input, pos, w16, zeros(31));
        assert(w16.len() == 45);
        holds_both(input, pos, w15, self.written(pos, sub_format).sound_velocity->Ok_0);
        assert(w15.len() == 43);
        holds_both(input, pos, w14, zeros(1));
        assert(w14.len() == 42);
        holds_both(input, pos, w13, self.written(pos, sub_format).pulse_length->Ok_0);
        assert(w13.len() == 41);
        holds_both(input, pos, w12, self.config.write_spec());
        assert(w12.len() == 40);
        holds_both(input, pos, w11, self.written(pos, sub_format).absorption->Ok_0);
        assert(w11.len() == 39);
        holds_both(input, pos, w10, self.written(pos, sub_format).range_code->Ok_0);
        assert(w10.len() == 38);
        holds_both(input, pos, w9, self.written(pos, sub_format).train_angle->Ok_0);
        assert(w9.len() == 37);
        holds_both(input, pos, w8, self.written(pos, sub_format).sector_size->Ok_0);
        assert(w8.len() == 36);
        holds_both(input, pos, w7, self.written(pos, sub_format).start_gain->Ok_0);
        assert(w7.len() == 35);
        holds_both(input, pos, w6, self.motion.write_spec());
        assert(w6.len() == 34);
        holds_both(input, pos, w5, zeros(2));
        assert(w5.len() == 32);
        holds_both(input, pos, w4, self.written(pos, sub_format).sensor_available->Ok_0);
        assert(w4.len() == 31);
        holds_both(input, pos, w3, zeros(1));
        assert(w3.len() == 30);
        holds_both(input, pos, w2, self.written(pos, sub_format).datetime->Ok_0);
        assert(w2.len() == 5);
        holds_both(input, pos, w1, u16_bytes(self.data_length, Endian::Big));
        assert(w1.len() == 3);
        holds_both(input, pos, w0, u16_bytes(self.total_length, Endian::Big));
        assert(w0.len() == 1);
    }

    /// Where `input` holds each part of the exact header at its offset, each part is parsed back.
    proof fn parts_are_read_back(self, input: Seq<u8>, pos: usize, sub_format: SubFormat)
        requires
            input.len() <= usize::MAX,
            self.exact(),
            self.write_spec(pos, sub_format).is_ok(),
            available(input, pos, 108),
            datetime::parse_spec(input, (pos + 5) as usize) == Ok::<(DateTime, usize), FormatError>(
                (self.datetime, (pos + 30) as usize),
            ),
            holds_at(input, pos, self.written(pos, sub_format).data_size_index->Ok_0),
            holds_at(input, (pos + 1) as usize, u16_bytes(self.total_length, Endian::Big)),
            holds_at(input, (pos + 3) as usize, u16_bytes(self.data_length, Endian::Big)),
            holds_at(input, (pos + 5) as usize, self.written(pos, sub_format).datetime->Ok_0),
            holds_at(input, (pos + 30) as usize, zeros(1)),
            holds_at(
                input,
                (pos + 31) as usize,
                self.written(pos, sub_format).sensor_available->Ok_0,
            ),
            holds_at(input, (pos + 32) as usize, zeros(2)),
            holds_at(input, (pos + 34) as usize, self.motion.write_spec()),
            holds_at(input, (pos + 35) as usize, self.written(pos, sub_format).start_gain->Ok_0),
            holds_at(input, (pos + 36) as usize, self.written(pos, sub_format).sector_size->Ok_0),
            holds_at(input, (pos + 37) as usize, self.written(pos, sub_format).train_angle->Ok_0),
            holds_at(input, (pos + 38) as usize, self.written(pos, sub_format).range_code->Ok_0),
            holds_at(input, (pos + 39) as usize, self.written(pos, sub_format).absorption->Ok_0),
            holds_at(input, (pos + 40) as usize, self.config.write_spec()),
            holds_at(input, (pos + 41) as usize, self.written(pos, sub_format).pulse_length->Ok_0),
            holds_at(input, (pos + 42) as usize, zeros(1)),
            holds_at(
                input,
                (pos + 43) as usize,
                self.written(pos, sub_format).sound_velocity->Ok_0,
            ),
            holds_at(input, (pos + 45) as usize, zeros(31)),
            holds_at(input, (pos + 76) as usize, u16_bytes(self.operating_frequency, Endian::Big)),
            holds_at(input, (pos + 78) as usize, self.written(pos, sub_format).real_time_prf->Ok_0),
            holds_at(input, (pos + 80) as usize, zeros(15)),
            holds_at(input, (pos + 95) as usize, self.sensor_information.write_spec()),
            holds_at(input, (pos + 96) as usize, u32_bytes(self.pitch, Endian::Big)),
            holds_at(input, (pos + 100) as usize, u32_bytes(self.roll, Endian::Big)),
            holds_at(input, (pos + 104) as usize, u32_bytes(self.distance, Endian::Big)),
        ensures
            Self::parts(input, pos) == (FileHeaderParts {
                data_size_index: Ok((self.data_size_index, (pos + 1) as usize)),
                total_length: Ok((self.total_length, (pos + 3) as usize)),
                data_length: Ok((self.data_length, (pos + 5) as usize)),
                datetime: Ok((self.datetime, (pos + 30) as usize)),
                after_datetime: Ok((pos + 31) as usize),
                sensor_available: Ok((self.sensor_available, (pos + 32) as usize)),
                after_sensor_available: Ok((pos + 34) as usize),
                motion: Ok((self.motion, (pos + 35) as usize)),
                start_gain: Ok((self.start_gain, (pos + 36) as usize)),
                sector_size: Ok((self.sector_size, (pos + 37) as usize)),
                train_angle: Ok((self.train_angle, (pos + 38) as usize)),
                range_code: Ok((self.range_code, (pos + 39) as usize)),
                absorption: Ok((self.absorption, (pos + 40) as usize)),
                config: Ok((self.config, (pos + 41) as usize)),
                pulse_length: Ok((self.pulse_length, (pos + 42) as usize)),
                after_pulse_length: Ok((pos + 43) as usize),
                sound_velocity: Ok((self.sound_velocity, (pos + 45) as usize)),
                after_sound_velocity: Ok((pos + 76) as usize),
                operating_frequency: Ok((self.operating_frequency, (pos + 78) as usize)),
                real_time_prf: Ok((self.real_time_prf, (pos + 80) as usize)),
                after_real_time_prf: Ok((pos + 95) as usize),
                sensor_information: Ok((self.sensor_information, (pos + 96) as usize)),
                pitch: Ok((self.pitch, (pos + 100) as usize)),
                roll: Ok((self.roll, (pos + 104) as usize)),
                distance: Ok((self.distance, (pos + 108) as usize)),
            }),
    {
        reveal(FileHeader::write_spec);
        let parts = Self::parts(input, pos);
        assert(parts.data_size_index == Ok::<(DataPoints, usize), FormatError>(
            (self.data_size_index, (pos + 1) as usize),
        )) by {
            put_is_parsed_back::<DataPoints>(self.data_size_index, input, pos);
        }
        assert(parts.total_length == Ok::<(u16, usize), FormatError>(
            (self.total_length, (pos + 3) as usize),
        )) by {
            word_is_read_back(input, (pos + 1) as usize, self.total_length, Endian::Big);
        }
        assert(parts.data_length == Ok::<(u16, usize), FormatError>(
            (self.data_length, (pos + 5) as usize),
        )) by {
            word_is_read_back(input, (pos + 3) as usize, self.data_length, Endian::Big);
        }
        assert(parts.datetime == Ok::<(DateTime, usize), FormatError>(
            (self.datetime, (pos + 30) as usize),
        )) by {
        }
        assert(parts.sensor_available == Ok::<(SensorAvailable, usize), FormatError>(
            (self.sensor_available, (pos + 32) as usize),
        )) by {
            put_is_parsed_back::<SensorAvailable>(
                self.sensor_available,
                input,
                (pos + 31) as usize,
            );
        }
        assert(parts.motion == Ok::<(MotionConfig, usize), FormatError>(
            (self.motion, (pos + 35) as usize),
        )) by {
            self.motion.written_is_read_back(input, (pos + 34) as usize);
        }
        assert(parts.start_gain == Ok::<(u8, usize), FormatError>(
            (self.start_gain, (pos + 36) as usize),
        )) by {
            start_gain::written_is_read_back(self.start_gain, input, (pos + 35) as usize);
        }
        assert(parts.sector_size == Ok::<(u16, usize), FormatError>(
            (self.sector_size, (pos + 37) as usize),
        )) by {
            sector_size::written_is_read_back(self.sector_size, input, (pos + 36) as usize);
        }
        assert(parts.train_angle == Ok::<(u16, usize), FormatError>(
            (self.train_angle, (pos + 38) as usize),
        )) by {
            train_angle::written_is_read_back(self.train_angle, input, (pos + 37) as usize);
        }
        assert(parts.range_code == Ok::<(RangeCode, usize), FormatError>(
            (self.range_code, (pos + 39) as usize),
        )) by {
            put_is_parsed_back::<RangeCode>(self.range_code, input, (pos + 38) as usize);
        }
        assert(parts.absorption == Ok::<(i32, usize), FormatError>(
            (self.absorption, (pos + 40) as usize),
        )) by {
            absorption::written_is_read_back(self.absorption, input, (pos + 39) as usize);
        }
        assert(parts.config == Ok::<(Config, usize), FormatError>(
            (self.config, (pos + 41) as usize),
        )) by {
            self.config.written_is_read_back(input, (pos + 40) as usize);
        }
        assert(parts.pulse_length == Ok::<(u16, usize), FormatError>(
            (self.pulse_length, (pos + 42) as usize),
        )) by {
            pulse_length::written_is_read_back(self.pulse_length, input, (pos + 41) as usize);
        }
        assert(parts.sound_velocity == Ok::<(i32, usize), FormatError>(
            (self.sound_velocity, (pos + 45) as usize),
        )) by {
            sound_velocity::written_is_read_back(
                self.sound_velocity,
                input,
                (pos + 43) as usize,
                Endian::Big,
            );
        }
        assert(parts.operating_frequency == Ok::<(u16, usize), FormatError>(
            (self.operating_frequency, (pos + 78) as usize),
        )) by {
            word_is_read_back(input, (pos + 76) as usize, self.operating_frequency, Endian::Big);
        }
        assert(parts.real_time_prf == Ok::<(i32, usize), FormatError>(
            (self.real_time_prf, (pos + 80) as usize),
        )) by {
            real_time_prf::written_is_read_back(
                self.real_time_prf,
                input,
                (pos + 78) as usize,
                Endian::Big,
            );
        }
        assert(parts.sensor_information == Ok::<(SensorInformation, usize), FormatError>(
            (self.sensor_information, (pos + 96) as usize),
        )) by {
            self.sensor_information.written_is_read_back(input, (pos + 95) as usize);
        }
        assert(parts.pitch == Ok::<(u32, usize), FormatError>(
            (self.pitch, (pos + 100) as usize),
        )) by {
            u32_is_read_back(input, (pos + 96) as usize, self.pitch, Endian::Big, Field::U32);
        }
        assert(parts.roll == Ok::<(u32, usize), FormatError>(
            (self.roll, (pos + 104) as usize),
        )) by {
            u32_is_read_back(input, (pos + 100) as usize, self.roll, Endian::Big, Field::U32);
        }
        assert(parts.distance == Ok::<(u32, usize), FormatError>(
            (self.distance, (pos + 108) as usize),
        )) by {
            u32_is_read_back(input, (pos + 104) as usize, self.distance, Endian::Big, Field::U32);
        }
    }

    /// An exact header is parsed back from the bytes that it is written as,
    /// where the text of its timestamp reads back.
    pub proof fn written_is_read_back(self, input: Seq<u8>, pos: usize, sub_format: SubFormat)
        requires
            input.len() <= usize::MAX,
        ensures
            self.exact() && self.write_spec(pos, sub_format).is_ok() && holds_at(
                input,
                pos,
                self.write_spec(pos, sub_format)->Ok_0,
            ) && datetime::reads_back(self.datetime, sub_format)
                ==> Self::parse_spec(input, pos) == Ok::<(FileHeader, usize), FormatError>(
                (self, (pos + 108) as usize),
            ),
    {
        if self.exact() && self.write_spec(pos, sub_format).is_ok() && holds_at(
                input,
                pos,
                self.write_spec(pos, sub_format)->Ok_0,
            ) && datetime::reads_back(self.datetime, sub_format) {
            reveal(FileHeader::parse_spec);
            self.written_len(pos, sub_format);
            self.parts_hold(input, pos, sub_format);
            datetime::written_is_read_back(self.datetime, input, (pos + 5) as usize, sub_format);
            self.parts_are_read_back(input, pos, sub_format);
        }
    }

    /// Each part of canonical bytes that parse is written back as the bytes at its offset.
    proof fn parts_are_written_back(input: Seq<u8>, pos: usize, sub_format: SubFormat)
        requires
            input.len() <= usize::MAX,
            Self::parse_spec(input, pos).is_ok(),
            Self::canonical(input, pos),
            datetime::write_spec(
                Self::parse_spec(input, pos)->Ok_0.0.datetime,
                (pos + 5) as usize,
                sub_format,
            ) == Ok::<Seq<u8>, FormatError>(input.subrange(pos + 5, pos + 30)),
        ensures
            Self::parse_spec(input, pos)->Ok_0.0.exact(),
            Self::parse_spec(input, pos)->Ok_0.0.write_spec(pos, sub_format).is_ok(),
            available(input, pos, 108),
            Self::parse_spec(input, pos)->Ok_0.0.written(pos, sub_format).data_size_index->Ok_0
                == input.subrange(pos as int, pos + 1),
            u16_bytes(Self::parse_spec(input, pos)->Ok_0.0.total_length, Endian::Big)
                == input.subrange(pos + 1, pos + 3),
            u16_bytes(Self::parse_spec(input, pos)->Ok_0.0.data_length, Endian::Big)
                == input.subrange(pos + 3, pos + 5),
            Self::parse_spec(input, pos)->Ok_0.0.written(pos, sub_format).datetime->Ok_0
                == input.subrange(pos + 5, pos + 30),
            zeros(1) == input.subrange(pos + 30, pos + 31),
            Self::parse_spec(input, pos)->Ok_0.0.written(pos, sub_format).sensor_available->Ok_0
                == input.subrange(pos + 31, pos + 32),
            zeros(2) == input.subrange(pos + 32, pos + 34),
            Self::parse_spec(input, pos)->Ok_0.0.motion.write_spec()
                == input.subrange(pos + 34, pos + 35),
            Self::parse_spec(input, pos)->Ok_0.0.written(pos, sub_format).start_gain->Ok_0
                == input.subrange(pos + 35, pos + 36),
            Self::parse_spec(input, pos)->Ok_0.0.written(pos, sub_format).sector_size->Ok_0
                == input.subrange(pos + 36, pos + 37),
            Self::parse_spec(input, pos)->Ok_0.0.written(pos, sub_format).train_angle->Ok_0
                == input.subrange(pos + 37, pos + 38),
            Self::parse_spec(input, pos)->Ok_0.0.written(pos, sub_format).range_code->Ok_0
                == input.subrange(pos + 38, pos + 39),
            Self::parse_spec(input, pos)->Ok_0.0.written(pos, sub_format).absorption->Ok_0
                == input.subrange(pos + 39, pos + 40),
            Self::parse_spec(input, pos)->Ok_0.0.config.write_spec()
                == input.subrange(pos + 40, pos + 41),
            Self::parse_spec(input, pos)->Ok_0.0.written(pos, sub_format).pulse_length->Ok_0
                == input.subrange(pos + 41, pos + 42),
            zeros(1) == input.subrange(pos + 42, pos + 43),
            Self::parse_spec(input, pos)->Ok_0.0.written(pos, sub_format).sound_velocity->Ok_0
                == input.subrange(pos + 43, pos + 45),
            zeros(31) == input.subrange(pos + 45, pos + 76),
            u16_bytes(Self::parse_spec(input, pos)->Ok_0.0.operating_frequency, Endian::Big)
                == input.subrange(pos + 76, pos + 78),
            Self::parse_spec(input, pos)->Ok_0.0.written(pos, sub_format).real_time_prf->Ok_0
                == input.subrange(pos + 78, pos + 80),
            zeros(15) == input.subrange(pos + 80, pos + 95),
            Self::parse_spec(input, pos)->Ok_0.0.sensor_information.write_spec()
                == input.subrange(pos + 95, pos + 96),
            u32_bytes(Self::parse_spec(input, pos)->Ok_0.0.pitch, Endian::Big)
                == input.subrange(pos + 96, pos + 100),
            u32_bytes(Self::parse_spec(input, pos)->Ok_0.0.roll, Endian::Big)
                == input.subrange(pos + 100, pos + 104),
            u32_bytes(Self::parse_spec(input, pos)->Ok_0.0.distance, Endian::Big)
                == input.subrange(pos + 104, pos + 108),
    {
        reveal(FileHeader::parse_spec);
        reveal(FileHeader::write_spec);
        let parts = Self::parts(input, pos);
        let value = Self::parse_spec(input, pos)->Ok_0.0;
        assert(value.written(pos, sub_format).data_size_index == Ok::<Seq<u8>, FormatError>(
            input.subrange(pos as int, pos + 1),
        )) by {
            parsed_is_put_back::<DataPoints>(input, pos);
        }
        assert(u16_bytes(value.total_length, Endian::Big) == input.subrange(pos + 1, pos + 3)) by {
            word_is_written_back(input, (pos + 1) as usize, Endian::Big);
        }
        assert(u16_bytes(value.data_length, Endian::Big) == input.subrange(pos + 3, pos + 5)) by {
            word_is_written_back(input, (pos + 3) as usize, Endian::Big);
        }
        assert(value.written(pos, sub_format).datetime == Ok::<Seq<u8>, FormatError>(
            input.subrange(pos + 5, pos + 30),
        )) by {
        }
        assert(value.written(pos, sub_format).sensor_available == Ok::<Seq<u8>, FormatError>(
            input.subrange(pos + 31, pos + 32),
        )) by {
            parsed_is_put_back::<SensorAvailable>(input, (pos + 31) as usize);
        }
        assert(value.motion.write_spec() == input.subrange(pos + 34, pos + 35)) by {
            MotionConfig::read_is_written_back(input, (pos + 34) as usize);
        }
        assert(value.written(pos, sub_format).start_gain == Ok::<Seq<u8>, FormatError>(
            input.subrange(pos + 35, pos + 36),
        ) && start_gain::exact(value.start_gain)) by {
            start_gain::read_is_written_back(input, (pos + 35) as usize);
        }
        assert(value.written(pos, sub_format).sector_size == Ok::<Seq<u8>, FormatError>(
            input.subrange(pos + 36, pos + 37),
        ) && sector_size::exact(value.sector_size)) by {
            sector_size::read_is_written_back(input, (pos + 36) as usize);
        }
        assert(value.written(pos, sub_format).train_angle == Ok::<Seq<u8>, FormatError>(
            input.subrange(pos + 37, pos + 38),
        ) && train_angle::exact(value.train_angle)) by {
            train_angle::read_is_written_back(input, (pos + 37) as usize);
        }
        assert(value.written(pos, sub_format).range_code == Ok::<Seq<u8>, FormatError>(
            input.subrange(pos + 38, pos + 39),
        )) by {
            parsed_is_put_back::<RangeCode>(input, (pos + 38) as usize);
        }
        assert(value.written(pos, sub_format).absorption == Ok::<Seq<u8>, FormatError>(
            input.subrange(pos + 39, pos + 40),
        ) && absorption::exact(value.absorption)) by {
            absorption::read_is_written_back(input, (pos + 39) as usize);
        }
        assert(value.config.write_spec() == input.subrange(pos + 40, pos + 41)) by {
            Config::read_is_written_back(input, (pos + 40) as usize);
        }
        assert(value.written(pos, sub_format).pulse_length == Ok::<Seq<u8>, FormatError>(
            input.subrange(pos + 41, pos + 42),
        ) && pulse_length::exact(value.pulse_length)) by {
            pulse_length::read_is_written_back(input, (pos + 41) as usize);
        }
        assert(value.written(pos, sub_format).sound_velocity == Ok::<Seq<u8>, FormatError>(
            input.subrange(pos + 43, pos + 45),
        ) && sound_velocity::valid_spec(value.sound_velocity)) by {
            sound_velocity::read_is_written_back(input, (pos + 43) as usize, Endian::Big);
        }
        assert(
            u16_bytes(value.operating_frequency, Endian::Big) == input.subrange(pos + 76, pos + 78)
        ) by {
            word_is_written_back(input, (pos + 76) as usize, Endian::Big);
        }
        assert(value.written(pos, sub_format).real_time_prf == Ok::<Seq<u8>, FormatError>(
            input.subrange(pos + 78, pos + 80),
        ) && real_time_prf::valid_spec(value.real_time_prf)) by {
            real_time_prf::read_is_written_back(input, (pos + 78) as usize, Endian::Big);
        }
        assert(value.sensor_information.write_spec() == input.subrange(pos + 95, pos + 96)) by {
            SensorInformation::read_is_written_back(input, (pos + 95) as usize);
        }
        assert(u32_bytes(value.pitch, Endian::Big) == input.subrange(pos + 96, pos + 100)) by {
            u32_is_written_back(input, (pos + 96) as usize, Endian::Big);
        }
        assert(u32_bytes(value.roll, Endian::Big) == input.subrange(pos + 100, pos + 104)) by {
            u32_is_written_back(input, (pos + 100) as usize, Endian::Big);
        }
        assert(u32_bytes(value.distance, Endian::Big) == input.subrange(pos + 104, pos + 108)) by {
            u32_is_written_back(input, (pos + 104) as usize, Endian::Big);
        }
    }

    /// The stretches of `input` that hold the parts make the stretch that holds the header.
    proof fn parts_join(input: Seq<u8>, pos: usize)
        requires
            available(input, pos, 108),
        ensures
            input.subrange(pos as int, pos + 1)
                + input.subrange(pos + 1, pos + 3)
                + input.subrange(pos + 3, pos + 5)
                + input.subrange(pos + 5, pos + 30)
                + input.subrange(pos + 30, pos + 31)
                + input.subrange(pos + 31, pos + 32)
                + input.subrange(pos + 32, pos + 34)
                + input.subrange(pos + 34, pos + 35)
                + input.subrange(pos + 35, pos + 36)
                + input.subrange(pos + 36, pos + 37)
                + input.subrange(pos + 37, pos + 38)
                + input.subrange(pos + 38, pos + 39)
                + input.subrange(pos + 39, pos + 40)
                + input.subrange(pos + 40, pos + 41)
                + input.subrange(pos + 41, pos + 42)
                + input.subrange(pos + 42, pos + 43)
                + input.subrange(pos + 43, pos + 45)
                + input.subrange(pos + 45, pos + 76)
                + input.subrange(pos + 76, pos + 78)
                + input.subrange(pos + 78, pos + 80)
                + input.subrange(pos + 80, pos + 95)
                + input.subrange(pos + 95, pos + 96)
                + input.subrange(pos + 96, pos + 100)
                + input.subrange(pos + 100, pos + 104)
                + input.subrange(pos + 104, pos + 108) == input.subrange(
                pos as int,
                pos + 108,
            ),
    {
        stretches_join(input, pos as int, pos + 1, pos + 3);
        stretches_join(input, pos as int, pos + 3, pos + 5);
        stretches_join(input, pos as int, pos + 5, pos + 30);
        stretches_join(input, pos as int, pos + 30, pos + 31);
        stretches_join(input, pos as int, pos + 31, pos + 32);
        stretches_join(input, pos as int, pos + 32, pos + 34);
        stretches_join(input, pos as int, pos + 34, pos + 35);
        stretches_join(input, pos as int, pos + 35, pos + 36);
        stretches_join(input, pos as int, pos + 36, pos + 37);
        stretches_join(input, pos as int, pos + 37, pos + 38);
        stretches_join(input, pos as int, pos + 38, pos + 39);
        stretches_join(input, pos as int, pos + 39, pos + 40);
        stretches_join(input, pos as int, pos + 40, pos + 41);
        stretches_join(input, pos as int, pos + 41, pos + 42);
        stretches_join(input, pos as int, pos + 42, pos + 43);
        stretches_join(input, pos as int, pos + 43, pos + 45);
        stretches_join(input, pos as int, pos + 45, pos + 76);
        stretches_join(input, pos as int, pos + 76, pos + 78);
        stretches_join(input, pos as int, pos + 78, pos + 80);
        stretches_join(input, pos as int, pos + 80, pos + 95);
        stretches_join(input, pos as int, pos + 95, pos + 96);
        stretches_join(input, pos as int, pos + 96, pos + 100);
        stretches_join(input, pos as int, pos + 100, pos + 104);
        stretches_join(input, pos as int, pos + 104, pos + 108);
    }

    /// Bytes that parse and are canonical are written back from the header parsed from them,
    /// which is exact,
    /// where its timestamp is written back as the text that it was parsed from.
    pub proof fn read_is_written_back(input: Seq<u8>, pos: usize, sub_format: SubFormat)
        requires
            input.len() <= usize::MAX,
        ensures
            Self::parse_spec(input, pos).is_ok() && Self::canonical(input, pos)
                && datetime::write_spec(
                Self::parse_spec(input, pos)->Ok_0.0.datetime,
                (pos + 5) as usize,
                sub_format,
            ) == Ok::<Seq<u8>, FormatError>(input.subrange(pos + 5, pos + 30))
                ==> Self::parse_spec(input, pos)->Ok_0.0.exact() && Self::parse_spec(
                input,
                pos,
            )->Ok_0.0.write_spec(pos, sub_format) == Ok::<Seq<u8>, FormatError>(
                input.subrange(pos as int, pos + 108),
            ),
    {
        if Self::parse_spec(input, pos).is_ok() && Self::canonical(input, pos)
            && datetime::write_spec(
                Self::parse_spec(input, pos)->Ok_0.0.datetime,
                (pos + 5) as usize,
                sub_format,
            ) == Ok::<Seq<u8>, FormatError>(input.subrange(pos + 5, pos + 30)) {
            reveal(FileHeader::write_spec);
            Self::parts_are_written_back(input, pos, sub_format);
            Self::parts_join(input, pos);
        }
    }

    /// Bytes whose total length is not 512, or whose data length is not 283, never parse as a
    /// header, and a header whose length fields hold other numbers is never written.
    pub proof fn lengths_are_asserted(self, input: Seq<u8>, pos: usize, sub_format: SubFormat)
        requires
            input.len() <= usize::MAX,
        ensures
            available(input, pos, 5) && (word_at(input, (pos + 1) as usize, Endian::Big)
                != Self::VALID_TOTAL_LENGTH || word_at(input, (pos + 3) as usize, Endian::Big)
                != Self::VALID_DATA_LENGTH) ==> Self::parse_spec(input, pos).is_err(),
            Self::parse_spec(input, pos) matches Ok((header, _)) ==> header.lengths_hold(),
            !self.lengths_hold()
                ==> self.write_spec(pos, sub_format) == Err::<Seq<u8>, FormatError>(
                FormatError { kind: ErrorKind::InvariantViolation, pos, field: Field::FileHeader },
            ),
    {
        reveal(FileHeader::parse_spec);
        reveal(FileHeader::write_spec);
    }
}

} // verus!
