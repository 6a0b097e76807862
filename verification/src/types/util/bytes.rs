//! Whole bytes and multi-byte integers at an offset of a byte sequence.
use crate::error::{ErrorKind, Field, FormatError};
use vstd::prelude::*;

verus! {

/// The order of the bytes of a multi-byte integer on the wire.
#[derive(Debug, Clone, Copy, PartialEq, Eq, Structural, Hash)]
pub enum Endian {
    /// The most significant byte comes first.
    Big,
    /// The least significant byte comes first.
    Little,
}

/// Whether `input` holds `n` bytes from offset `pos` on.
pub open spec fn available(input: Seq<u8>, pos: usize, n: int) -> bool {
    pos + n <= input.len()
}

/// The failure of a read of `field` at `pos` that ran out of bytes.
pub open spec fn truncated(pos: usize, field: Field) -> FormatError {
    FormatError { kind: ErrorKind::Truncated, pos, field }
}

/// The 16-bit number whose bytes are `first` and `second`, in wire order.
pub open spec fn u16_of(first: u8, second: u8, endian: Endian) -> u16 {
    match endian {
        Endian::Big => (first * 256 + second) as u16,
        Endian::Little => (second * 256 + first) as u16,
    }
}

/// The two bytes of `value` in wire order.
pub open spec fn u16_bytes(value: u16, endian: Endian) -> Seq<u8> {
    match endian {
        Endian::Big => seq![(value / 256) as u8, (value % 256) as u8],
        Endian::Little => seq![(value % 256) as u8, (value / 256) as u8],
    }
}

/// The 32-bit number whose bytes are `bytes`, in wire order: two 16-bit halves.
pub open spec fn u32_of(bytes: Seq<u8>, endian: Endian) -> u32
    recommends
        bytes.len() == 4,
{
    match endian {
        Endian::Big => (u16_of(bytes[0], bytes[1], endian) * 0x1_0000 + u16_of(
            bytes[2],
            bytes[3],
            endian,
        )) as u32,
        Endian::Little => (u16_of(bytes[2], bytes[3], endian) * 0x1_0000 + u16_of(
            bytes[0],
            bytes[1],
            endian,
        )) as u32,
    }
}

/// The four bytes of `value` in wire order.
pub open spec fn u32_bytes(value: u32, endian: Endian) -> Seq<u8> {
    let high = (value / 0x1_0000) as u16;
    let low = (value % 0x1_0000) as u16;
    match endian {
        Endian::Big => u16_bytes(high, endian) + u16_bytes(low, endian),
        Endian::Little => u16_bytes(low, endian) + u16_bytes(high, endian),
    }
}

/// Whether `input` holds exactly `bytes` from offset `pos` on.
pub open spec fn holds_at(input: Seq<u8>, pos: usize, bytes: Seq<u8>) -> bool {
    available(input, pos, bytes.len() as int) && input.subrange(pos as int, pos + bytes.len())
        == bytes
}

/// Appending in two steps is appending the whole at once.
pub proof fn appended_twice(head: Seq<u8>, middle: Seq<u8>, tail: Seq<u8>)
    ensures
        (head + middle) + tail == head + (middle + tail),
{
    assert((head + middle) + tail =~= head + (middle + tail));
}

/// What is appended leaves what was there in place.
pub proof fn appended_keeps(head: Seq<u8>, tail: Seq<u8>)
    ensures
        head.len() <= (head + tail).len(),
        (head + tail).subrange(0, head.len() as int) == head,
{
    assert((head + tail).subrange(0, head.len() as int) =~= head);
}

/// The 16-bit word that `input` holds at `pos`.
pub open spec fn word_at(input: Seq<u8>, pos: usize, endian: Endian) -> u16
    recommends
        available(input, pos, 2),
{
    u16_of(input[pos as int], input[pos + 1], endian)
}

/// Reading one byte of `field` at `pos`.
pub open spec fn take_u8_spec(input: Seq<u8>, pos: usize, field: Field) -> Result<
    (u8, usize),
    FormatError,
> {
    if available(input, pos, 1) {
        Ok((input[pos as int], (pos + 1) as usize))
    } else {
        Err(truncated(pos, field))
    }
}

/// Reading a 16-bit number of `field` at `pos`.
pub open spec fn take_u16_spec(input: Seq<u8>, pos: usize, endian: Endian, field: Field) -> Result<
    (u16, usize),
    FormatError,
> {
    if available(input, pos, 2) {
        Ok((word_at(input, pos, endian), (pos + 2) as usize))
    } else {
        Err(truncated(pos, field))
    }
}

/// Reading a 32-bit number of `field` at `pos`.
pub open spec fn take_u32_spec(input: Seq<u8>, pos: usize, endian: Endian, field: Field) -> Result<
    (u32, usize),
    FormatError,
> {
    if available(input, pos, 4) {
        Ok((u32_of(input.subrange(pos as int, pos + 4), endian), (pos + 4) as usize))
    } else {
        Err(truncated(pos, field))
    }
}

/// Reading `n` bytes of `field` at `pos`.
pub open spec fn take_bytes_spec(input: Seq<u8>, pos: usize, n: usize, field: Field) -> Result<
    (Seq<u8>, usize),
    FormatError,
> {
    if available(input, pos, n as int) {
        Ok((input.subrange(pos as int, pos + n), (pos + n) as usize))
    } else {
        Err(truncated(pos, field))
    }
}

/// Passing over `n` bytes of padding at `pos`.
pub open spec fn skip_spec(input: Seq<u8>, pos: usize, n: usize) -> Result<usize, FormatError> {
    if available(input, pos, n as int) {
        Ok((pos + n) as usize)
    } else {
        Err(truncated(pos, Field::Padding))
    }
}

/// `n` zero bytes.
pub open spec fn zeros(n: nat) -> Seq<u8> {
    Seq::new(n, |i: int| 0u8)
}

/// Whether `input` holds `n` bytes from `pos` on.
pub fn in_bounds(input: &[u8], pos: usize, n: usize) -> (ok: bool)
    ensures
        ok == available(input@, pos, n as int),
        input@.len() <= usize::MAX,
{
    pos <= input.len() && input.len() - pos >= n
}

/// Reads the byte at `pos`; gives it with the offset behind it.
pub fn take_u8(input: &[u8], pos: usize, field: Field) -> (r: Result<(u8, usize), FormatError>)
    ensures
        r == take_u8_spec(input@, pos, field),
{
    if !in_bounds(input, pos, 1) {
        return Err(FormatError::new(ErrorKind::Truncated, pos, field));
    }
    Ok((input[pos], pos + 1))
}

/// Reads the 16-bit number at `pos`; gives it with the offset behind it.
pub fn take_u16(input: &[u8], pos: usize, endian: Endian, field: Field) -> (r: Result<
    (u16, usize),
    FormatError,
>)
    ensures
        r == take_u16_spec(input@, pos, endian, field),
{
    if !in_bounds(input, pos, 2) {
        return Err(FormatError::new(ErrorKind::Truncated, pos, field));
    }
    let first: u16 = input[pos] as u16;
    let second: u16 = input[pos + 1] as u16;
    let value: u16 = match endian {
        Endian::Big => first * 256 + second,
        Endian::Little => second * 256 + first,
    };
    Ok((value, pos + 2))
}

/// Reads the 32-bit number at `pos`; gives it with the offset behind it.
pub fn take_u32(input: &[u8], pos: usize, endian: Endian, field: Field) -> (r: Result<
    (u32, usize),
    FormatError,
>)
    ensures
        r == take_u32_spec(input@, pos, endian, field),
{
    if !in_bounds(input, pos, 4) {
        return Err(FormatError::new(ErrorKind::Truncated, pos, field));
    }
    let first: u32 = match endian {
        Endian::Big => input[pos] as u32 * 256 + input[pos + 1] as u32,
        Endian::Little => input[pos + 1] as u32 * 256 + input[pos] as u32,
    };
    let second: u32 = match endian {
        Endian::Big => input[pos + 2] as u32 * 256 + input[pos + 3] as u32,
        Endian::Little => input[pos + 3] as u32 * 256 + input[pos + 2] as u32,
    };
    let value: u32 = match endian {
        Endian::Big => first * 0x1_0000 + second,
        Endian::Little => second * 0x1_0000 + first,
    };
    Ok((value, pos + 4))
}

/// Copies the `n` bytes at `pos`; gives them with the offset behind them.
pub fn take_bytes(input: &[u8], pos: usize, n: usize, field: Field) -> (r: Result<
    (Vec<u8>, usize),
    FormatError,
>)
    ensures
        match take_bytes_spec(input@, pos, n, field) {
            Ok((bytes, next)) => r matches Ok((got, end)) && got@ == bytes && end == next,
            Err(e) => r == Err::<(Vec<u8>, usize), FormatError>(e),
        },
{
    if !in_bounds(input, pos, n) {
        return Err(FormatError::new(ErrorKind::Truncated, pos, field));
    }
    let mut bytes: Vec<u8> = Vec::new();
    let mut i: usize = 0;
    while i < n
        invariant
            i <= n,
            pos + n <= input@.len() <= usize::MAX,
            bytes@ == input@.subrange(pos as int, pos + i),
        decreases n - i,
    {
        bytes.push(input[pos + i]);
        i += 1;
        assert(bytes@ =~= input@.subrange(pos as int, pos + i));
    }
    Ok((bytes, pos + n))
}

/// Passes over `n` bytes of padding at `pos`, whatever they hold.
pub fn skip(input: &[u8], pos: usize, n: usize) -> (r: Result<usize, FormatError>)
    ensures
        r == skip_spec(input@, pos, n),
{
    if !in_bounds(input, pos, n) {
        return Err(FormatError::new(ErrorKind::Truncated, pos, Field::Padding));
    }
    Ok(pos + n)
}

/// Appends the two bytes of `value`.
pub fn put_u16(value: u16, endian: Endian, out: &mut Vec<u8>)
    ensures
        final(out)@ == old(out)@ + u16_bytes(value, endian),
{
    let high: u8 = (value / 256) as u8;
    let low: u8 = (value % 256) as u8;
    match endian {
        Endian::Big => {
            out.push(high);
            out.push(low);
        },
        Endian::Little => {
            out.push(low);
            out.push(high);
        },
    }
    assert(out@ =~= old(out)@ + u16_bytes(value, endian));
}

/// Appends the four bytes of `value`.
pub fn put_u32(value: u32, endian: Endian, out: &mut Vec<u8>)
    ensures
        final(out)@ == old(out)@ + u32_bytes(value, endian),
{
    let high: u16 = (value / 0x1_0000) as u16;
    let low: u16 = (value % 0x1_0000) as u16;
    match endian {
        Endian::Big => {
            put_u16(high, endian, out);
            put_u16(low, endian, out);
        },
        Endian::Little => {
            put_u16(low, endian, out);
            put_u16(high, endian, out);
        },
    }
    assert(out@ =~= old(out)@ + u32_bytes(value, endian));
}

/// Appends `n` zero bytes.
pub fn put_zeros(n: usize, out: &mut Vec<u8>)
    ensures
        final(out)@ == old(out)@ + zeros(n as nat),
{
    let mut i: usize = 0;
    while i < n
        invariant
            i <= n,
            out@ == old(out)@ + zeros(i as nat),
        decreases n - i,
    {
        out.push(0u8);
        i += 1;
        assert(out@ =~= old(out)@ + zeros(i as nat));
    }
}

/// Appends `bytes`.
pub fn put_bytes(bytes: &[u8], out: &mut Vec<u8>)
    ensures
        final(out)@ == old(out)@ + bytes@,
{
    let mut i: usize = 0;
    while i < bytes.len()
        invariant
            i <= bytes@.len(),
            out@ == old(out)@ + bytes@.subrange(0, i as int),
        decreases bytes@.len() - i,
    {
        out.push(bytes[i]);
        i += 1;
        assert(out@ =~= old(out)@ + bytes@.subrange(0, i as int));
    }
    assert(bytes@.subrange(0, bytes@.len() as int) =~= bytes@);
}

/// The two bytes of a 16-bit number read back give the number.
pub proof fn u16_round_trip(value: u16, endian: Endian)
    ensures
        u16_bytes(value, endian).len() == 2,
        u16_of(u16_bytes(value, endian)[0], u16_bytes(value, endian)[1], endian) == value,
{
}

/// A 16-bit number read from two bytes is written as those bytes.
pub proof fn u16_bytes_round_trip(first: u8, second: u8, endian: Endian)
    ensures
        u16_bytes(u16_of(first, second, endian), endian) == seq![first, second],
{
    assert(u16_bytes(u16_of(first, second, endian), endian) =~= seq![first, second]);
}

/// Where `input` holds the two bytes of `value`, the word there is `value`.
pub proof fn word_is_read_back(input: Seq<u8>, pos: usize, value: u16, endian: Endian)
    requires
        holds_at(input, pos, u16_bytes(value, endian)),
    ensures
        available(input, pos, 2),
        word_at(input, pos, endian) == value,
{
    let bytes = u16_bytes(value, endian);
    assert(bytes.len() == 2);
    assert(input[pos as int] == input.subrange(pos as int, pos + 2)[0]);
    assert(input[pos + 1] == input.subrange(pos as int, pos + 2)[1]);
}

/// The word that `input` holds at `pos` is written as the two bytes there.
pub proof fn word_is_written_back(input: Seq<u8>, pos: usize, endian: Endian)
    requires
        available(input, pos, 2),
    ensures
        u16_bytes(word_at(input, pos, endian), endian) == input.subrange(pos as int, pos + 2),
{
    u16_bytes_round_trip(input[pos as int], input[pos + 1], endian);
    assert(input.subrange(pos as int, pos + 2) =~= seq![input[pos as int], input[pos + 1]]);
}

/// Where `input` holds the four bytes of `value`, the number read there is `value`.
pub proof fn u32_is_read_back(input: Seq<u8>, pos: usize, value: u32, endian: Endian, field: Field)
    requires
        input.len() <= usize::MAX,
        holds_at(input, pos, u32_bytes(value, endian)),
    ensures
        take_u32_spec(input, pos, endian, field) == Ok::<(u32, usize), FormatError>(
            (value, (pos + 4) as usize),
        ),
{
    u32_round_trip(value, endian);
}

/// The number that `input` holds at `pos` is written as the four bytes there.
pub proof fn u32_is_written_back(input: Seq<u8>, pos: usize, endian: Endian)
    requires
        available(input, pos, 4),
    ensures
        u32_bytes(u32_of(input.subrange(pos as int, pos + 4), endian), endian) == input.subrange(
            pos as int,
            pos + 4,
        ),
{
    u32_bytes_round_trip(input.subrange(pos as int, pos + 4), endian);
}

/// Where `input` holds two sequences one after the other, it holds each at its place.
pub proof fn holds_both(input: Seq<u8>, pos: usize, head: Seq<u8>, tail: Seq<u8>)
    requires
        input.len() <= usize::MAX,
        holds_at(input, pos, head + tail),
    ensures
        holds_at(input, pos, head),
        holds_at(input, (pos + head.len()) as usize, tail),
{
    let whole = input.subrange(pos as int, pos + (head + tail).len());
    assert(input.subrange(pos as int, pos + head.len()) =~= whole.subrange(0, head.len() as int));
    assert(whole.subrange(0, head.len() as int) =~= head);
    assert(input.subrange(pos + head.len(), pos + head.len() + tail.len()) =~= whole.subrange(
        head.len() as int,
        (head + tail).len() as int,
    ));
    assert(whole.subrange(head.len() as int, (head + tail).len() as int) =~= tail);
}

/// Two neighbouring stretches of `input` make one.
pub proof fn stretches_join(input: Seq<u8>, from: int, middle: int, to: int)
    requires
        0 <= from <= middle <= to <= input.len(),
    ensures
        input.subrange(from, middle) + input.subrange(middle, to) == input.subrange(from, to),
{
    assert(input.subrange(from, middle) + input.subrange(middle, to) =~= input.subrange(from, to));
}

/// The four bytes of a 32-bit number read back give the number.
pub proof fn u32_round_trip(value: u32, endian: Endian)
    ensures
        u32_bytes(value, endian).len() == 4,
        u32_of(u32_bytes(value, endian), endian) == value,
{
    let high = (value / 0x1_0000) as u16;
    let low = (value % 0x1_0000) as u16;
    u16_round_trip(high, endian);
    u16_round_trip(low, endian);
}

/// A 32-bit number read from four bytes is written as those bytes.
pub proof fn u32_bytes_round_trip(bytes: Seq<u8>, endian: Endian)
    requires
        bytes.len() == 4,
    ensures
        u32_bytes(u32_of(bytes, endian), endian) == bytes,
{
    u16_bytes_round_trip(bytes[0], bytes[1], endian);
    u16_bytes_round_trip(bytes[2], bytes[3], endian);
    let first = u16_of(bytes[0], bytes[1], endian);
    let second = u16_of(bytes[2], bytes[3], endian);
    assert(seq![bytes[0], bytes[1]] + seq![bytes[2], bytes[3]] =~= bytes);
    match endian {
        Endian::Big => {
            assert(u32_of(bytes, endian) / 0x1_0000 == first);
            assert(u32_of(bytes, endian) % 0x1_0000 == second);
        },
        Endian::Little => {
            assert(u32_of(bytes, endian) / 0x1_0000 == second);
            assert(u32_of(bytes, endian) % 0x1_0000 == first);
        },
    }
}

} // verus!
