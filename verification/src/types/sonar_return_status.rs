//! The status flags of a sonar return, packed in one byte.
use crate::error::{Field, FormatError};
use crate::types::util::bytes::{holds_at, take_u8, take_u8_spec};
use vstd::prelude::*;
use vstd::string::StringExecFns;

verus! {

const FLAG_RANGE_ERROR: u8 = 0x80;

const FLAG_FREQUENCY_ERROR: u8 = 0x40;

const FLAG_INTERNAL_SENSOR_ERROR: u8 = 0x20;

const FLAG_CALIBRATION_ERROR: u8 = 0x10;

const FLAG_SWITCHES_ACCEPTED: u8 = 0x01;

/// The status flags of a sonar return: range error in bit 7, frequency error in bit 6, internal
/// sensor error in bit 5, calibration error in bit 4, switches accepted in bit 0.
#[derive(Debug, Clone, Copy, PartialEq, Eq, Structural)]
pub struct SonarReturnStatus {
    pub range_error: bool,
    pub frequency_error: bool,
    pub internal_sensor_error: bool,
    pub calibration_error: bool,
    pub switches_accepted: bool,
}

impl SonarReturnStatus {
    /// The value with these fields.
    pub fn new(
        range_error: bool,
        frequency_error: bool,
        internal_sensor_error: bool,
        calibration_error: bool,
        switches_accepted: bool,
    ) -> (r: Self)
        ensures
            r == (
                SonarReturnStatus {
                    range_error,
                    frequency_error,
                    internal_sensor_error,
                    calibration_error,
                    switches_accepted,
                }
            ),
    {
        SonarReturnStatus {
            range_error,
            frequency_error,
            internal_sensor_error,
            calibration_error,
            switches_accepted,
        }
    }

    /// The number in bit 7 of `raw`.
    pub open spec fn range_error_bits(raw: u8) -> u8 {
        (raw / 128) as u8
    }

    /// The number in bit 6 of `raw`.
    pub open spec fn frequency_error_bits(raw: u8) -> u8 {
        (raw / 64 % 2) as u8
    }

    /// The number in bit 5 of `raw`.
    pub open spec fn internal_sensor_error_bits(raw: u8) -> u8 {
        (raw / 32 % 2) as u8
    }

    /// The number in bit 4 of `raw`.
    pub open spec fn calibration_error_bits(raw: u8) -> u8 {
        (raw / 16 % 2) as u8
    }

    /// The number in bit 0 of `raw`.
    pub open spec fn switches_accepted_bits(raw: u8) -> u8 {
        (raw % 2) as u8
    }

    /// What the byte `raw` stands for; `pos` is the offset that a failure names. The fields
    /// are read in the order in which they are declared, and the first one whose bits stand
    /// for no value fails.
    pub open spec fn from_byte(raw: u8, pos: usize) -> Result<SonarReturnStatus, FormatError> {
        {
            Ok(
                SonarReturnStatus {
                    range_error: Self::range_error_bits(raw) == 1,
                    frequency_error: Self::frequency_error_bits(raw) == 1,
                    internal_sensor_error: Self::internal_sensor_error_bits(raw) == 1,
                    calibration_error: Self::calibration_error_bits(raw) == 1,
                    switches_accepted: Self::switches_accepted_bits(raw) == 1,
                },
            )
        }
    }

    /// The byte that stands for the value: every field at its place, every other bit clear.
    pub open spec fn to_byte(self) -> u8 {
        ((if self.range_error {
            128int
        } else {
            0int
        }) + (if self.frequency_error {
            64int
        } else {
            0int
        }) + (if self.internal_sensor_error {
            32int
        } else {
            0int
        }) + (if self.calibration_error {
            16int
        } else {
            0int
        }) + (if self.switches_accepted {
            1int
        } else {
            0int
        })) as u8
    }

    /// Whether every bit of `raw` that belongs to no field is clear.
    pub open spec fn canonical(raw: u8) -> bool {
        Self::range_error_bits(raw) * 128 + Self::frequency_error_bits(raw) * 64
            + Self::internal_sensor_error_bits(raw) * 32 + Self::calibration_error_bits(raw) * 16
                + Self::switches_accepted_bits(raw) == raw
    }

    /// What parsing at `pos` gives: the value and the offset behind it, or the failure,
    /// which names the offset behind the byte.
    pub open spec fn parse_spec(
        input: Seq<u8>,
        pos: usize,
    ) -> Result<(SonarReturnStatus, usize), FormatError> {
        match take_u8_spec(input, pos, Field::SonarReturnStatus) {
            Ok((raw, next)) => match Self::from_byte(raw, next) {
                Ok(value) => Ok((value, next)),
                Err(e) => Err(e),
            },
            Err(e) => Err(e),
        }
    }

    /// What writing the value gives: its byte.
    pub open spec fn write_spec(self) -> Seq<u8> {
        seq![self.to_byte()]
    }

    /// Whether any of the four error flags is set.
    pub open spec fn has_error_spec(self) -> bool {
        self.range_error || self.frequency_error || self.internal_sensor_error
            || self.calibration_error
    }

    /// `list` with `word` added: after a comma and a space, unless it is the first.
    pub open spec fn listed(list: Seq<char>, word: Seq<char>) -> Seq<char> {
        if list.len() == 0 {
            word
        } else {
            list + ", "@ + word
        }
    }

    /// The names of the errors that are set, in the order of their flags.
    pub open spec fn errors_text(self) -> Seq<char> {
        let none = Seq::<char>::empty();
        let range = if self.range_error {
            Self::listed(none, "range error"@)
        } else {
            none
        };
        let frequency = if self.frequency_error {
            Self::listed(range, "frequency error"@)
        } else {
            range
        };
        let sensor = if self.internal_sensor_error {
            Self::listed(frequency, "internal sensor error"@)
        } else {
            frequency
        };
        if self.calibration_error {
            Self::listed(sensor, "calibration error"@)
        } else {
            sensor
        }
    }

    /// The status in words: the errors that are set, or that there are none, and then whether
    /// the switches were accepted.
    pub open spec fn text(self) -> Seq<char> {
        let errors = if self.has_error_spec() {
            self.errors_text()
        } else {
            "no errors"@
        };
        if self.switches_accepted {
            Self::listed(errors, "switches accepted"@)
        } else {
            errors
        }
    }

    /// Whether any of the four error flags is set.
    pub fn has_error(&self) -> (r: bool)
        ensures
            r == self.has_error_spec(),
    {
        self.range_error || self.frequency_error || self.internal_sensor_error
            || self.calibration_error
    }

    fn list(message: &mut String, word: &str)
        requires
            word@.len() > 0,
        ensures
            final(message)@ == Self::listed(old(message)@, word@),
            final(message)@.len() > 0,
    {
        if !message.as_str().is_empty() {
            message.append(", ");
        }
        message.append(word);
    }

    /// The status in words.
    pub fn to_string(&self) -> (r: String)
        ensures
            r@ == self.text(),
    {
        proof {
            reveal_strlit("range error");
            reveal_strlit("frequency error");
            reveal_strlit("internal sensor error");
            reveal_strlit("calibration error");
            reveal_strlit("no errors");
            reveal_strlit("switches accepted");
        }
        let mut message = String::new();

        if self.has_error() {
            if self.range_error {
                Self::list(&mut message, "range error");
            }
            if self.frequency_error {
                Self::list(&mut message, "frequency error");
            }
            if self.internal_sensor_error {
                Self::list(&mut message, "internal sensor error");
            }
            if self.calibration_error {
                Self::list(&mut message, "calibration error");
            }
        } else {
            Self::list(&mut message, "no errors");
        }
        if self.switches_accepted {
            Self::list(&mut message, "switches accepted");
        }
        message
    }

    /// Parses the value from the byte at `pos`.
    pub fn parse(input: &[u8], pos: usize) -> (r: Result<(SonarReturnStatus, usize), FormatError>)
        ensures
            r == Self::parse_spec(input@, pos),
    {
        let (raw, next) = match take_u8(input, pos, Field::SonarReturnStatus) {
            Ok(read) => read,
            Err(e) => { return Err(e); },
        };
        assert(((raw & 0x80) != 0) == ((raw / 128) == 1)
            && ((raw & 0x40) != 0) == ((raw / 64 % 2) == 1)
            && ((raw & 0x20) != 0) == ((raw / 32 % 2) == 1)
            && ((raw & 0x10) != 0) == ((raw / 16 % 2) == 1)
            && ((raw & 0x01) != 0) == ((raw % 2) == 1)) by (bit_vector);
        let range_error: bool = (raw & FLAG_RANGE_ERROR) != 0;
        let frequency_error: bool = (raw & FLAG_FREQUENCY_ERROR) != 0;
        let internal_sensor_error: bool = (raw & FLAG_INTERNAL_SENSOR_ERROR) != 0;
        let calibration_error: bool = (raw & FLAG_CALIBRATION_ERROR) != 0;
        let switches_accepted: bool = (raw & FLAG_SWITCHES_ACCEPTED) != 0;
        Ok(
            (
                SonarReturnStatus {
                    range_error,
                    frequency_error,
                    internal_sensor_error,
                    calibration_error,
                    switches_accepted,
                },
                next,
            )
        )
    }

    /// Appends the byte of the value to `out`: the contributions of the fields, combined by
    /// bitwise or.
    pub fn write(&self, out: &mut Vec<u8>) -> (r: Result<(), FormatError>)
        ensures
            r.is_ok(),
            final(out)@ == old(out)@ + self.write_spec(),
    {
        let mut raw: u8 = 0;

        if self.range_error {
            raw |= FLAG_RANGE_ERROR;
        }
        let ghost step0 = raw;
        if self.frequency_error {
            raw |= FLAG_FREQUENCY_ERROR;
        }
        let ghost step1 = raw;
        if self.internal_sensor_error {
            raw |= FLAG_INTERNAL_SENSOR_ERROR;
        }
        let ghost step2 = raw;
        if self.calibration_error {
            raw |= FLAG_CALIBRATION_ERROR;
        }
        let ghost step3 = raw;
        if self.switches_accepted {
            raw |= FLAG_SWITCHES_ACCEPTED;
        }
        let ghost step4 = raw;
        proof {
            let c0: u8 = if self.range_error {
                1u8
            } else {
                0u8
            };
            let c1: u8 = if self.frequency_error {
                1u8
            } else {
                0u8
            };
            let c2: u8 = if self.internal_sensor_error {
                1u8
            } else {
                0u8
            };
            let c3: u8 = if self.calibration_error {
                1u8
            } else {
                0u8
            };
            let c4: u8 = if self.switches_accepted {
                1u8
            } else {
                0u8
            };
            assert(step4 == c0 * 128 + c1 * 64 + c2 * 32 + c3 * 16 + c4) by (bit_vector)
                requires
                    c0 <= 1,
                    step0 == if c0 == 1 {
                        0u8 | 0x80
                    } else {
                        0u8
                    },
                    c1 <= 1,
                    step1 == if c1 == 1 {
                        step0 | 0x40
                    } else {
                        step0
                    },
                    c2 <= 1,
                    step2 == if c2 == 1 {
                        step1 | 0x20
                    } else {
                        step1
                    },
                    c3 <= 1,
                    step3 == if c3 == 1 {
                        step2 | 0x10
                    } else {
                        step2
                    },
                    c4 <= 1,
                    step4 == if c4 == 1 {
                        step3 | 0x01
                    } else {
                        step3
                    },
            ;
        }
        out.push(raw);
        assert(out@ =~= old(out)@ + self.write_spec());
        Ok(())
    }

    /// Every value is read back from its byte.
    pub proof fn byte_is_read_back(self, pos: usize)
        ensures
            Self::from_byte(self.to_byte(), pos) == Ok::<SonarReturnStatus, FormatError>(self),
    {
    }

    /// Every value is parsed back from the byte that it is written as.
    pub proof fn written_is_read_back(self, input: Seq<u8>, pos: usize)
        requires
            input.len() <= usize::MAX,
            holds_at(input, pos, self.write_spec()),
        ensures
            Self::parse_spec(input, pos) == Ok::<(SonarReturnStatus, usize), FormatError>(
                (self, (pos + 1) as usize),
            ),
    {
        assert(input[pos as int] == input.subrange(pos as int, pos + 1)[0]);
        self.byte_is_read_back((pos + 1) as usize);
    }

    /// A byte that parses, and whose bits outside the fields are clear, is written back from
    /// the value parsed from it.
    pub proof fn read_is_written_back(input: Seq<u8>, pos: usize)
        requires
            input.len() <= usize::MAX,
            Self::parse_spec(input, pos).is_ok(),
            Self::canonical(input[pos as int]),
        ensures
            Self::parse_spec(input, pos) matches Ok((value, next)) && next == pos + 1
                && value.write_spec() == input.subrange(pos as int, pos + 1),
    {
        let raw = input[pos as int];
        assert(input.subrange(pos as int, pos + 1) =~= seq![raw]);
    }
}

impl Default for SonarReturnStatus {
    fn default() -> (r: Self)
        ensures
            r == (SonarReturnStatus {
                range_error: false,
                frequency_error: false,
                internal_sensor_error: false,
                calibration_error: false,
                switches_accepted: false,
            }),
    {
        SonarReturnStatus {
            range_error: false,
            frequency_error: false,
            internal_sensor_error: false,
            calibration_error: false,
            switches_accepted: false,
        }
    }
}

} // verus!
