//! Errors of the codec: what went wrong, where in the byte stream, and about which field.
use vstd::prelude::*;
use vstd::string::StringExecFns;

verus! {

/// What kind of failure stopped a decode or an encode.
#[derive(Debug, Clone, Copy, PartialEq, Eq, Structural)]
pub enum ErrorKind {
    /// A record or sub-record identifier is not the expected one.
    MagicMismatch,
    /// A field that must hold a fixed constant, or a terminator byte, holds something else.
    InvariantViolation,
    /// A physical value lies outside the valid range of its quantity.
    FieldOutOfRange,
    /// A bit pattern has no corresponding enumerated variant.
    InvalidEnumValue,
    /// A value has no on-wire numeric form.
    Unrepresentable,
    /// Fewer bytes are available than the field or record requires.
    Truncated,
    /// The text of a fixed-length string field is malformed.
    EncodingError,
}

/// The field, quantity or enumerated type that an error is about.
#[derive(Debug, Clone, Copy, PartialEq, Eq, Structural)]
pub enum Field {
    Shot,
    FileHeader,
    SonarReturn,
    SwitchData,
    Padding,
    Data,
    Text,
    Date,
    Time,
    SubSeconds,
    U8,
    U16,
    U32,
    U14,
    I14,
    Angle,
    Acceleration,
    Absorption,
    Frequency,
    ProfileMinRange,
    ProfileRange,
    PulseLength,
    RealTimePrf,
    SectorSize,
    SoundVelocity,
    StartGain,
    TrainAngle,
    HeadPosition,
    MotionConfig,
    Config,
    Command,
    SensorInformation,
    SonarReturnStatus,
    DataBits,
    DataPoints,
    DataSizeIndex,
    Direction,
    Logf,
    Mode,
    MotorCalibrate,
    ProfileGrid,
    ProfilePointDetection,
    RangeCode,
    RangeIndex,
    Reverse,
    SensorAvailable,
    SonarReturnMagic,
    SonarType,
    StepDirection,
    StepSize,
    Transducer,
    Zero,
}

impl ErrorKind {
    /// The words that describe the kind in a message.
    pub open spec fn text(self) -> Seq<char> {
        match self {
            ErrorKind::MagicMismatch => "unexpected magic"@,
            ErrorKind::InvariantViolation => "invariant violated"@,
            ErrorKind::FieldOutOfRange => "value out of range"@,
            ErrorKind::InvalidEnumValue => "invalid value"@,
            ErrorKind::Unrepresentable => "value has no wire form"@,
            ErrorKind::Truncated => "not enough bytes"@,
            ErrorKind::EncodingError => "malformed text"@,
        }
    }

    /// The description of the kind.
    pub fn describe(&self) -> (r: &'static str)
        ensures
            r@ == self.text(),
    {
        match self {
            ErrorKind::MagicMismatch => "unexpected magic",
            ErrorKind::InvariantViolation => "invariant violated",
            ErrorKind::FieldOutOfRange => "value out of range",
            ErrorKind::InvalidEnumValue => "invalid value",
            ErrorKind::Unrepresentable => "value has no wire form",
            ErrorKind::Truncated => "not enough bytes",
            ErrorKind::EncodingError => "malformed text",
        }
    }
}

impl Field {
    /// The lower-case name of the field.
    pub open spec fn text(self) -> Seq<char> {
        match self {
            Field::Shot => "shot"@,
            Field::FileHeader => "file header"@,
            Field::SonarReturn => "sonar return"@,
            Field::SwitchData => "switch data"@,
            Field::Padding => "padding"@,
            Field::Data => "data"@,
            Field::Text => "text"@,
            Field::Date => "date"@,
            Field::Time => "time"@,
            Field::SubSeconds => "sub-seconds"@,
            Field::U8 => "u8"@,
            Field::U16 => "u16"@,
            Field::U32 => "u32"@,
            Field::U14 => "u14"@,
            Field::I14 => "i14"@,
            Field::Angle => "angle"@,
            Field::Acceleration => "acceleration"@,
            Field::Absorption => "absorption"@,
            Field::Frequency => "frequency"@,
            Field::ProfileMinRange => "profile minimum range"@,
            Field::ProfileRange => "profile range"@,
            Field::PulseLength => "pulse length"@,
            Field::RealTimePrf => "real-time prf"@,
            Field::SectorSize => "sector size"@,
            Field::SoundVelocity => "sound velocity"@,
            Field::StartGain => "start gain"@,
            Field::TrainAngle => "train angle"@,
            Field::HeadPosition => "head position"@,
            Field::MotionConfig => "motion config"@,
            Field::Config => "config"@,
            Field::Command => "command"@,
            Field::SensorInformation => "sensor information"@,
            Field::SonarReturnStatus => "sonar return status"@,
            Field::DataBits => "databits"@,
            Field::DataPoints => "datapoints"@,
            Field::DataSizeIndex => "datasizeindex"@,
            Field::Direction => "direction"@,
            Field::Logf => "logf"@,
            Field::Mode => "mode"@,
            Field::MotorCalibrate => "motorcalibrate"@,
            Field::ProfileGrid => "profilegrid"@,
            Field::ProfilePointDetection => "profilepointdetection"@,
            Field::RangeCode => "rangecode"@,
            Field::RangeIndex => "rangeindex"@,
            Field::Reverse => "reverse"@,
            Field::SensorAvailable => "sensoravailable"@,
            Field::SonarReturnMagic => "sonarreturnmagic"@,
            Field::SonarType => "sonartype"@,
            Field::StepDirection => "stepdirection"@,
            Field::StepSize => "stepsize"@,
            Field::Transducer => "transducer"@,
            Field::Zero => "zero"@,
        }
    }

    /// The name of the field.
    pub fn name(&self) -> (r: &'static str)
        ensures
            r@ == self.text(),
    {
        match self {
            Field::Shot => "shot",
            Field::FileHeader => "file header",
            Field::SonarReturn => "sonar return",
            Field::SwitchData => "switch data",
            Field::Padding => "padding",
            Field::Data => "data",
            Field::Text => "text",
            Field::Date => "date",
            Field::Time => "time",
            Field::SubSeconds => "sub-seconds",
            Field::U8 => "u8",
            Field::U16 => "u16",
            Field::U32 => "u32",
            Field::U14 => "u14",
            Field::I14 => "i14",
            Field::Angle => "angle",
            Field::Acceleration => "acceleration",
            Field::Absorption => "absorption",
            Field::Frequency => "frequency",
            Field::ProfileMinRange => "profile minimum range",
            Field::ProfileRange => "profile range",
            Field::PulseLength => "pulse length",
            Field::RealTimePrf => "real-time prf",
            Field::SectorSize => "sector size",
            Field::SoundVelocity => "sound velocity",
            Field::StartGain => "start gain",
            Field::TrainAngle => "train angle",
            Field::HeadPosition => "head position",
            Field::MotionConfig => "motion config",
            Field::Config => "config",
            Field::Command => "command",
            Field::SensorInformation => "sensor information",
            Field::SonarReturnStatus => "sonar return status",
            Field::DataBits => "databits",
            Field::DataPoints => "datapoints",
            Field::DataSizeIndex => "datasizeindex",
            Field::Direction => "direction",
            Field::Logf => "logf",
            Field::Mode => "mode",
            Field::MotorCalibrate => "motorcalibrate",
            Field::ProfileGrid => "profilegrid",
            Field::ProfilePointDetection => "profilepointdetection",
            Field::RangeCode => "rangecode",
            Field::RangeIndex => "rangeindex",
            Field::Reverse => "reverse",
            Field::SensorAvailable => "sensoravailable",
            Field::SonarReturnMagic => "sonarreturnmagic",
            Field::SonarType => "sonartype",
            Field::StepDirection => "stepdirection",
            Field::StepSize => "stepsize",
            Field::Transducer => "transducer",
            Field::Zero => "zero",
        }
    }
}

/// A failure of the codec, positioned in the byte stream.
#[derive(Debug, Clone, Copy, PartialEq, Eq, Structural)]
pub struct FormatError {
    /// What went wrong.
    pub kind: ErrorKind,
    /// The byte offset at which it went wrong.
    pub pos: usize,
    /// The field it went wrong about.
    pub field: Field,
}

impl FormatError {
    /// The error of the given kind about `field` at offset `pos`.
    pub open spec fn at(kind: ErrorKind, pos: int, field: Field) -> FormatError {
        FormatError { kind, pos: pos as usize, field }
    }

    /// The failure of the given kind about `field` at offset `pos`.
    pub fn new(kind: ErrorKind, pos: usize, field: Field) -> (e: Self)
        ensures
            e == Self::at(kind, pos as int, field),
    {
        FormatError { kind, pos, field }
    }

    /// The human-readable message: the kind, then the field.
    pub open spec fn text(self) -> Seq<char> {
        self.kind.text() + " for "@ + self.field.text()
    }

    /// The human-readable message of the error.
    pub fn message(&self) -> (r: String)
        ensures
            r@ == self.text(),
    {
        let mut message = String::from_str(self.kind.describe());
        message.append(" for ");
        message.append(self.field.name());
        message
    }
}

/// The error of the library's fallible operations: a message, and the codec failure behind it
/// where there is one.
#[derive(Debug, Clone)]
pub struct Error {
    pub message: String,
    pub source: Option<FormatError>,
}

impl Error {
    /// The error with this message and no codec failure behind it.
    pub fn new(message: String) -> (e: Self)
        ensures
            e.message@ == message@,
            e.source.is_none(),
    {
        Self { message, source: None }
    }

    /// The error that a codec failure turns into: a fixed message, with the failure as its
    /// source.
    pub fn from_format(error: FormatError) -> (e: Self)
        ensures
            e.message@ == "Binary Encoding Error"@,
            e.source == Some(error),
    {
        Error { message: String::from_str("Binary Encoding Error"), source: Some(error) }
    }

    /// What `Display` would show: the message.
    pub fn to_string(&self) -> (r: String)
        ensures
            r@ == self.message@,
    {
        self.message.clone()
    }
}

impl Default for Error {
    fn default() -> (e: Self)
        ensures
            e.message@ == Seq::<char>::empty(),
            e.source.is_none(),
    {
        Error { message: String::new(), source: None }
    }
}


} // verus!
