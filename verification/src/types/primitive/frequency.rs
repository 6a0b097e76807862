//! The **Frequency** primitive: the operating frequency of the sonar in kilohertz, in one byte.
//!
//! The byte counts steps of 5 kHz around a centre that depends on the kind of head, and 100
//! stands for the centre itself:
//! - [SonarType::Scanning]: 2150 kHz to 2350 kHz around 2250 kHz, and
//! - [SonarType::FixedPosition]: 900 kHz to 1100 kHz around 1000 kHz.
use crate::error::{ErrorKind, Field, FormatError};
use crate::types::sonar_type::SonarType;
use crate::types::util::bytes::{holds_at, take_u8, take_u8_spec};
use vstd::prelude::*;

verus! {

/// The lowest frequency of a scanning head.
pub const MIN_SCANNING: i32 = 2150;

/// The highest frequency of a scanning head.
pub const MAX_SCANNING: i32 = 2350;

/// The lowest frequency of a fixed-position head.
pub const MIN_FIXED_POSITION: i32 = 900;

/// The highest frequency of a fixed-position head.
pub const MAX_FIXED_POSITION: i32 = 1100;

/// The kilohertz in one step of the byte.
pub const STEP: i32 = 5;

/// The byte that stands for the centre frequency.
pub const CENTER: i32 = 100;

/// The centre frequency of the kind of head, in kilohertz.
pub open spec fn offset_for_spec(sonar_type: SonarType) -> i32 {
    match sonar_type {
        SonarType::Scanning => 2250,
        SonarType::FixedPosition => 1000,
    }
}

/// Whether `frequency` lies in the band of the kind of head.
pub open spec fn valid_for_spec(sonar_type: SonarType, frequency: i32) -> bool {
    match sonar_type {
        SonarType::Scanning => MIN_SCANNING <= frequency <= MAX_SCANNING,
        SonarType::FixedPosition => MIN_FIXED_POSITION <= frequency <= MAX_FIXED_POSITION,
    }
}

/// Whether `frequency` is one that the wire carries exactly: valid, and a whole number of
/// steps from the centre.
pub open spec fn exact_for(sonar_type: SonarType, frequency: i32) -> bool {
    valid_for_spec(sonar_type, frequency) && (frequency - offset_for_spec(sonar_type)) % (
    STEP as int) == 0
}

/// The frequency that the byte `raw` stands for.
pub open spec fn from_raw(sonar_type: SonarType, raw: u8) -> i32 {
    (offset_for_spec(sonar_type) + (raw - CENTER) * STEP) as i32
}

/// The byte that stands for the valid `frequency`: its steps from the centre, rounded up.
pub open spec fn to_raw(sonar_type: SonarType, frequency: i32) -> u8 {
    ((frequency - offset_for_spec(sonar_type) + CENTER * STEP + (STEP - 1)) / (STEP as int)) as u8
}

/// What parsing at `pos` gives: the frequency and the offset behind it, or the failure. A byte
/// that stands for a frequency outside the band fails at the offset behind it.
pub open spec fn parse_spec(input: Seq<u8>, pos: usize, sonar_type: SonarType) -> Result<
    (i32, usize),
    FormatError,
> {
    match take_u8_spec(input, pos, Field::Frequency) {
        Ok((raw, next)) => if valid_for_spec(sonar_type, from_raw(sonar_type, raw)) {
            Ok((from_raw(sonar_type, raw), next))
        } else {
            Err(
                FormatError { kind: ErrorKind::FieldOutOfRange, pos: next, field: Field::Frequency }
            )
        },
        Err(e) => Err(e),
    }
}

/// What writing `frequency` at offset `pos` gives: its byte, or the failure.
pub open spec fn write_spec(frequency: i32, pos: usize, sonar_type: SonarType) -> Result<
    Seq<u8>,
    FormatError,
> {
    if valid_for_spec(sonar_type, frequency) {
        Ok(seq![to_raw(sonar_type, frequency)])
    } else {
        Err(FormatError { kind: ErrorKind::FieldOutOfRange, pos, field: Field::Frequency })
    }
}

/// Obtain the center **Frequency** for the specified [SonarType], in kilohertz.
pub fn offset_for(sonar_type: SonarType) -> (r: i32)
    ensures
        r == offset_for_spec(sonar_type),
{
    match sonar_type {
        SonarType::Scanning => 2250,
        SonarType::FixedPosition => 1000,
    }
}

/// Validate the **Frequency**, in kilohertz, for the specified [SonarType].
pub fn valid_for(sonar_type: SonarType, frequency: i32) -> (ok: bool)
    ensures
        ok == valid_for_spec(sonar_type, frequency),
{
    match sonar_type {
        SonarType::Scanning => MIN_SCANNING <= frequency && frequency <= MAX_SCANNING,
        SonarType::FixedPosition => MIN_FIXED_POSITION <= frequency && frequency
            <= MAX_FIXED_POSITION,
    }
}

/// Parse the **Frequency** for the specified [SonarType] from the byte at `pos`.
pub fn parse(input: &[u8], pos: usize, sonar_type: SonarType) -> (r: Result<
    (i32, usize),
    FormatError,
>)
    ensures
        r == parse_spec(input@, pos, sonar_type),
        r matches Ok((value, _)) ==> exact_for(sonar_type, value),
{
    let (raw, next) = match take_u8(input, pos, Field::Frequency) {
        Ok(read) => read,
        Err(e) => { return Err(e); },
    };
    let frequency: i32 = offset_for(sonar_type) + (raw as i32 - CENTER) * STEP;

    if !valid_for(sonar_type, frequency) {
        return Err(FormatError::new(ErrorKind::FieldOutOfRange, next, Field::Frequency));
    }
    Ok((frequency, next))
}

/// Write the **Frequency** for the specified [SonarType] as one byte to `out`. A frequency
/// outside the band is refused, and `out` is left as it was; the failure names the offset at
/// which the byte would have stood.
pub fn write(frequency: &i32, out: &mut Vec<u8>, sonar_type: SonarType) -> (r: Result<
    (),
    FormatError,
>)
    ensures
        match write_spec(*frequency, old(out)@.len() as usize, sonar_type) {
            Ok(bytes) => r.is_ok() && final(out)@ == old(out)@ + bytes,
            Err(e) => r == Err::<(), FormatError>(e) && final(out)@ == old(out)@,
        },
{
    if !valid_for(sonar_type, *frequency) {
        return Err(FormatError::new(ErrorKind::FieldOutOfRange, out.len(), Field::Frequency));
    }
    let raw: u8 = ((*frequency - offset_for(sonar_type) + CENTER * STEP + (STEP - 1))
        / STEP) as u8;
    out.push(raw);
    assert(out@ =~= old(out)@ + seq![raw]);
    Ok(())
}

/// A frequency outside the band is never written, both bounds of either band are, and every
/// frequency that is parsed lies in the band.
pub proof fn range_is_enforced(frequency: i32, input: Seq<u8>, pos: usize, sonar_type: SonarType)
    ensures
        !valid_for_spec(sonar_type, frequency) ==> write_spec(frequency, pos, sonar_type) == Err::<
            Seq<u8>,
            FormatError,
        >(FormatError { kind: ErrorKind::FieldOutOfRange, pos, field: Field::Frequency }),
        valid_for_spec(sonar_type, frequency) ==> write_spec(frequency, pos, sonar_type).is_ok(),
        write_spec(MIN_SCANNING, pos, SonarType::Scanning).is_ok(),
        write_spec(MAX_SCANNING, pos, SonarType::Scanning).is_ok(),
        write_spec(MIN_FIXED_POSITION, pos, SonarType::FixedPosition).is_ok(),
        write_spec(MAX_FIXED_POSITION, pos, SonarType::FixedPosition).is_ok(),
        parse_spec(input, pos, sonar_type) matches Ok((parsed, _)) ==> valid_for_spec(
            sonar_type,
            parsed,
        ),
{
}

/// An exact frequency is parsed back from the byte that it is written as.
pub proof fn written_is_read_back(frequency: i32, input: Seq<u8>, pos: usize, sonar_type: SonarType)
    requires
        exact_for(sonar_type, frequency),
        input.len() <= usize::MAX,
        holds_at(input, pos, seq![to_raw(sonar_type, frequency)]),
    ensures
        parse_spec(input, pos, sonar_type) == Ok::<(i32, usize), FormatError>(
            (frequency, (pos + 1) as usize),
        ),
{
    assert(input[pos as int] == input.subrange(pos as int, pos + 1)[0]);
}

/// A byte that parses is written back from the frequency parsed from it, which is exact.
pub proof fn read_is_written_back(input: Seq<u8>, pos: usize, sonar_type: SonarType)
    requires
        input.len() <= usize::MAX,
        parse_spec(input, pos, sonar_type).is_ok(),
    ensures
        parse_spec(input, pos, sonar_type) matches Ok((value, next)) && next == pos + 1
            && exact_for(sonar_type, value) && write_spec(value, pos, sonar_type) == Ok::<
            Seq<u8>,
            FormatError,
        >(input.subrange(pos as int, pos + 1)),
{
    assert(input.subrange(pos as int, pos + 1) =~= seq![input[pos as int]]);
}

} // verus!
