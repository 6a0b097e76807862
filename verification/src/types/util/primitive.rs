//! Sub-byte fields: a value packed into a contiguous range of bits of one byte.
use crate::error::{ErrorKind, Field, FormatError};
use crate::types::util::bytes::{holds_at, take_u8, take_u8_spec};
use vstd::prelude::*;

verus! {

/// A type whose values stand on the wire as small numbers.
pub trait Primitive: Sized {
    /// The number that stands for the value, if it has one.
    spec fn code(self) -> Option<u8>;

    /// The value that `raw` stands for, if there is one.
    spec fn from_code(raw: u8) -> Option<Self>;

    /// The name under which errors about this type are reported.
    spec fn field() -> Field;

    fn from_u8(raw: u8) -> (r: Option<Self>)
        ensures
            r == Self::from_code(raw),
    ;

    fn to_u8(&self) -> (r: Option<u8>)
        ensures
            r == self.code(),
    ;

    fn subject() -> (f: Field)
        ensures
            f == Self::field(),
    ;

    /// A value's number stands for that value.
    proof fn code_is_read_back(self)
        ensures
            self.code() matches Some(raw) ==> Self::from_code(raw) == Some(self),
    ;

    /// The value that a number stands for has that number.
    proof fn read_is_coded_back(raw: u8)
        ensures
            Self::from_code(raw) matches Some(v) ==> v.code() == Some(raw),
    ;
}

impl Primitive for u8 {
    open spec fn code(self) -> Option<u8> {
        Some(self)
    }

    open spec fn from_code(raw: u8) -> Option<u8> {
        Some(raw)
    }

    open spec fn field() -> Field {
        Field::U8
    }

    fn from_u8(raw: u8) -> (r: Option<u8>) {
        Some(raw)
    }

    fn to_u8(&self) -> (r: Option<u8>) {
        Some(*self)
    }

    fn subject() -> (f: Field) {
        Field::U8
    }

    proof fn code_is_read_back(self) {
    }

    proof fn read_is_coded_back(raw: u8) {
    }
}

/// What reading `raw` as a `T` at offset `pos` gives.
pub open spec fn read_u8_spec<T: Primitive>(raw: u8, pos: usize) -> Result<T, FormatError> {
    match T::from_code(raw) {
        Some(value) => Ok(value),
        None => Err(FormatError { kind: ErrorKind::InvalidEnumValue, pos, field: T::field() }),
    }
}

/// What writing `value` at offset `pos` gives.
pub open spec fn write_u8_spec<T: Primitive>(value: T, pos: usize) -> Result<u8, FormatError> {
    match value.code() {
        Some(raw) => Ok(raw),
        None => Err(FormatError { kind: ErrorKind::Unrepresentable, pos, field: T::field() }),
    }
}

/// The bits of `raw` under `mask`, moved down by `shift`.
pub open spec fn extract_bits(raw: u8, mask: u8, shift: usize) -> u8 {
    (raw & mask) >> shift
}

/// `raw` moved up by `shift`, cut to the bits under `mask`.
pub open spec fn place_bits(raw: u8, mask: u8, shift: usize) -> u8 {
    (raw << shift) & mask
}

/// Reads `raw` as a `T`; `pos` is the offset reported when no value of `T` has that number.
pub fn read_u8<T: Primitive>(raw: u8, pos: usize) -> (r: Result<T, FormatError>)
    ensures
        r == read_u8_spec::<T>(raw, pos),
{
    match T::from_u8(raw) {
        Some(value) => Ok(value),
        None => Err(FormatError::new(ErrorKind::InvalidEnumValue, pos, T::subject())),
    }
}

/// Reads the bits of `raw` under `mask`, moved down by `shift`, as a `T`.
pub fn read_u8_bits<T: Primitive>(raw: u8, mask: u8, shift: usize, pos: usize) -> (r: Result<
    T,
    FormatError,
>)
    requires
        shift < 8,
    ensures
        r == read_u8_spec::<T>(extract_bits(raw, mask, shift), pos),
{
    read_u8::<T>((raw & mask) >> shift, pos)
}

/// The number that stands for `value`; `pos` is the offset reported when it has none.
pub fn write_u8<T: Primitive>(value: T, pos: usize) -> (r: Result<u8, FormatError>)
    ensures
        r == write_u8_spec::<T>(value, pos),
{
    match value.to_u8() {
        Some(raw) => Ok(raw),
        None => Err(FormatError::new(ErrorKind::Unrepresentable, pos, T::subject())),
    }
}

/// The contribution of `value` to a byte shared with other fields: its number moved up by
/// `shift` and cut to `mask`, to be combined with the others by bitwise or.
pub fn write_u8_bits<T: Primitive>(value: T, mask: u8, shift: usize, pos: usize) -> (r: Result<
    u8,
    FormatError,
>)
    requires
        shift < 8,
    ensures
        r == match write_u8_spec::<T>(value, pos) {
            Ok(raw) => Ok(place_bits(raw, mask, shift)),
            Err(e) => Err(e),
        },
{
    match write_u8(value, pos) {
        Ok(raw) => Ok((raw << shift) & mask),
        Err(e) => Err(e),
    }
}

/// What parsing a `T` that fills one byte at `pos` gives: the value and the offset behind it,
/// or the failure. A byte that stands for no value fails at `pos` itself.
pub open spec fn parse_u8_spec<T: Primitive>(input: Seq<u8>, pos: usize) -> Result<
    (T, usize),
    FormatError,
> {
    match take_u8_spec(input, pos, T::field()) {
        Ok((raw, next)) => match read_u8_spec::<T>(raw, pos) {
            Ok(value) => Ok((value, next)),
            Err(e) => Err(e),
        },
        Err(e) => Err(e),
    }
}

/// What writing a `T` that fills one byte at offset `pos` gives: its byte, or the failure.
pub open spec fn put_u8_spec<T: Primitive>(value: T, pos: usize) -> Result<Seq<u8>, FormatError> {
    match write_u8_spec::<T>(value, pos) {
        Ok(raw) => Ok(seq![raw]),
        Err(e) => Err(e),
    }
}

/// Parses a `T` that fills the byte at `pos`.
pub fn parse_u8<T: Primitive>(input: &[u8], pos: usize) -> (r: Result<(T, usize), FormatError>)
    ensures
        r == parse_u8_spec::<T>(input@, pos),
{
    let (raw, next) = take_u8(input, pos, T::subject())?;
    let value = read_u8::<T>(raw, pos)?;
    Ok((value, next))
}

/// Appends the byte of `value` to `out`. A value without a number is refused, and `out` is left
/// as it was; the failure names the offset at which the byte would have stood.
pub fn put_u8<T: Primitive>(value: T, out: &mut Vec<u8>) -> (r: Result<(), FormatError>)
    ensures
        match put_u8_spec::<T>(value, old(out)@.len() as usize) {
            Ok(bytes) => r.is_ok() && final(out)@ == old(out)@ + bytes,
            Err(e) => r == Err::<(), FormatError>(e) && final(out)@ == old(out)@,
        },
{
    let raw = write_u8(value, out.len())?;
    out.push(raw);
    assert(out@ =~= old(out)@ + seq![raw]);
    Ok(())
}

/// A value with a number is parsed back from the byte that it is written as.
pub proof fn put_is_parsed_back<T: Primitive>(value: T, input: Seq<u8>, pos: usize)
    requires
        input.len() <= usize::MAX,
        put_u8_spec::<T>(value, pos) matches Ok(bytes) && holds_at(input, pos, bytes),
    ensures
        parse_u8_spec::<T>(input, pos) == Ok::<(T, usize), FormatError>(
            (value, (pos + 1) as usize),
        ),
{
    value.code_is_read_back();
    assert(input[pos as int] == input.subrange(pos as int, pos + 1)[0]);
}

/// A byte that parses is written back from the value parsed from it.
pub proof fn parsed_is_put_back<T: Primitive>(input: Seq<u8>, pos: usize)
    requires
        input.len() <= usize::MAX,
        parse_u8_spec::<T>(input, pos).is_ok(),
    ensures
        parse_u8_spec::<T>(input, pos) matches Ok((value, next)) && next == pos + 1
            && put_u8_spec::<
            T,
        >(value, pos) == Ok::<Seq<u8>, FormatError>(input.subrange(pos as int, pos + 1)),
{
    T::read_is_coded_back(input[pos as int]);
    assert(input.subrange(pos as int, pos + 1) =~= seq![input[pos as int]]);
}

} // verus!
