//! Fixed-length text fields: the text, then NUL bytes up to the width of the field.
use crate::error::{ErrorKind, Field, FormatError};
use crate::types::util::bytes::{
    holds_at, put_bytes, put_zeros, take_bytes, take_bytes_spec, zeros,
};
use vstd::prelude::*;
use vstd::slice::slice_subrange;
use vstd::string::StringSliceAdditionalSpecFns;
use vstd::utf8::{decode_utf8, encode_utf8, encode_utf8_decode_utf8, valid_utf8};

verus! {

/// `bytes` without its trailing NUL bytes.
pub open spec fn trimmed(bytes: Seq<u8>) -> Seq<u8>
    decreases bytes.len(),
{
    if bytes.len() > 0 && bytes.last() == 0 {
        trimmed(bytes.drop_last())
    } else {
        bytes
    }
}

/// `bytes` as a field of `length` bytes: cut to the width, then filled up with NUL bytes.
pub open spec fn padded(bytes: Seq<u8>, length: usize) -> Seq<u8> {
    if bytes.len() >= length {
        bytes.subrange(0, length as int)
    } else {
        bytes + zeros((length - bytes.len()) as nat)
    }
}

/// What reading the bytes of a field of `length` bytes at `pos` gives: the bytes without the
/// trailing NUL bytes and the offset behind the field, or the failure.
pub open spec fn field_spec(input: Seq<u8>, pos: usize, length: usize) -> Result<
    (Seq<u8>, usize),
    FormatError,
> {
    match take_bytes_spec(input, pos, length, Field::Text) {
        Ok((bytes, next)) => Ok((trimmed(bytes), next)),
        Err(e) => Err(e),
    }
}

/// What parsing a field of `length` bytes at `pos` gives: the text and the offset behind the
/// field, or the failure. Bytes that are not UTF-8 fail at `pos` itself.
pub open spec fn parse_spec(input: Seq<u8>, pos: usize, length: usize) -> Result<
    (Seq<char>, usize),
    FormatError,
> {
    match field_spec(input, pos, length) {
        Ok((bytes, next)) => if valid_utf8(bytes) {
            Ok((decode_utf8(bytes), next))
        } else {
            Err(FormatError { kind: ErrorKind::EncodingError, pos, field: Field::Text })
        },
        Err(e) => Err(e),
    }
}

/// What writing `text` as a field of `length` bytes gives.
pub open spec fn write_spec(text: Seq<char>, length: usize) -> Seq<u8> {
    padded(encode_utf8(text), length)
}

/// The text that `bytes` encode in UTF-8, if they do. This is `std::str::from_utf8`, which
/// accepts exactly the valid UTF-8 sequences and keeps the bytes as they are.
#[verifier::external_body]
pub(crate) fn text_of(bytes: &[u8]) -> (r: Option<String>)
    ensures
        r.is_some() == valid_utf8(bytes@),
        r matches Some(text) ==> encode_utf8(text@) == bytes@,
{
    match std::str::from_utf8(bytes) {
        Ok(text) => Some(text.to_string()),
        Err(_) => None,
    }
}

/// The number of bytes of `bytes` before its trailing NUL bytes.
pub fn trimmed_len(bytes: &[u8]) -> (end: usize)
    ensures
        end <= bytes@.len(),
        bytes@.subrange(0, end as int) == trimmed(bytes@),
{
    let mut end: usize = bytes.len();
    assert(bytes@.subrange(0, end as int) =~= bytes@);
    while end > 0 && bytes[end - 1] == 0
        invariant
            end <= bytes@.len(),
            trimmed(bytes@.subrange(0, end as int)) == trimmed(bytes@),
        decreases end,
    {
        assert(bytes@.subrange(0, end as int).drop_last() =~= bytes@.subrange(0, end - 1));
        end -= 1;
    }
    end
}

/// Reads the bytes of the field of `length` bytes at `pos`, without its trailing NUL bytes.
pub fn field(input: &[u8], pos: usize, length: usize) -> (r: Result<(Vec<u8>, usize), FormatError>)
    ensures
        match field_spec(input@, pos, length) {
            Ok((bytes, next)) => r matches Ok((got, end)) && got@ == bytes && end == next,
            Err(e) => r == Err::<(Vec<u8>, usize), FormatError>(e),
        },
{
    let (mut bytes, next) = match take_bytes(input, pos, length, Field::Text) {
        Ok(read) => read,
        Err(e) => { return Err(e); },
    };
    let end = trimmed_len(bytes.as_slice());
    bytes.truncate(end);
    Ok((bytes, next))
}

/// Parses the text of the field of `length` bytes at `pos`: the whole width is read, and the
/// trailing NUL bytes are dropped.
pub fn parse(input: &[u8], pos: usize, length: usize) -> (r: Result<(String, usize), FormatError>)
    ensures
        match parse_spec(input@, pos, length) {
            Ok((text, next)) => r matches Ok((got, end)) && got@ == text && end == next,
            Err(e) => r == Err::<(String, usize), FormatError>(e),
        },
{
    let (bytes, next) = match field(input, pos, length) {
        Ok(read) => read,
        Err(e) => { return Err(e); },
    };
    match text_of(bytes.as_slice()) {
        Some(text) => {
            proof {
                encode_utf8_decode_utf8(text@);
            }
            Ok((text, next))
        },
        None => Err(FormatError::new(ErrorKind::EncodingError, pos, Field::Text)),
    }
}

/// Appends `data` as a field of `length` bytes to `out`: at most `length` bytes of it, then
/// NUL bytes up to the width.
pub fn write_bytes(data: &[u8], out: &mut Vec<u8>, length: usize)
    ensures
        final(out)@ == old(out)@ + padded(data@, length),
{
    if data.len() >= length {
        put_bytes(slice_subrange(data, 0, length), out);
    } else {
        put_bytes(data, out);
        put_zeros(length - data.len(), out);
        assert(out@ =~= old(out)@ + padded(data@, length));
    }
}

/// Appends `data` as a field of `length` bytes to `out`: at most `length` bytes of its UTF-8
/// form, then NUL bytes up to the width.
pub fn write(data: &str, out: &mut Vec<u8>, length: usize) -> (r: Result<(), FormatError>)
    ensures
        r.is_ok(),
        final(out)@ == old(out)@ + write_spec(data@, length),
{
    write_bytes(data.as_bytes(), out, length);
    Ok(())
}

/// A field is as long as its width.
pub proof fn padded_len(bytes: Seq<u8>, length: usize)
    ensures
        padded(bytes, length).len() == length,
{
}

/// Trailing NUL bytes are dropped up to the last byte that is not NUL.
pub proof fn trimmed_of_padded(bytes: Seq<u8>, n: nat)
    requires
        bytes.len() > 0 ==> bytes.last() != 0,
    ensures
        trimmed(bytes + zeros(n)) == bytes,
    decreases n,
{
    if n == 0 {
        assert(bytes + zeros(0) =~= bytes);
    } else {
        assert((bytes + zeros(n)).drop_last() =~= bytes + zeros((n - 1) as nat));
        trimmed_of_padded(bytes, (n - 1) as nat);
    }
}

/// Whether `bytes` are read back from a field of `length` bytes as they are: they fit, and do
/// not end in NUL.
pub open spec fn fits(bytes: Seq<u8>, length: usize) -> bool {
    bytes.len() <= length && (bytes.len() > 0 ==> bytes.last() != 0)
}

/// Bytes that fit the field are read back from the field that they are written as.
pub proof fn field_is_read_back(bytes: Seq<u8>, input: Seq<u8>, pos: usize, length: usize)
    requires
        fits(bytes, length),
        input.len() <= usize::MAX,
        holds_at(input, pos, padded(bytes, length)),
    ensures
        field_spec(input, pos, length) == Ok::<(Seq<u8>, usize), FormatError>(
            (bytes, (pos + length) as usize),
        ),
{
    assert(padded(bytes, length) =~= bytes + zeros((length - bytes.len()) as nat));
    trimmed_of_padded(bytes, (length - bytes.len()) as nat);
}

/// Bytes of ASCII are UTF-8, and stand for themselves.
pub proof fn ascii_is_utf8(bytes: Seq<u8>)
    requires
        forall|i: int| 0 <= i < bytes.len() ==> #[trigger] bytes[i] < 0x80,
    ensures
        valid_utf8(bytes),
        encode_utf8(decode_utf8(bytes)) == bytes,
{
    let chars = Seq::new(bytes.len(), |i: int| bytes[i] as char);
    assert(vstd::utf8::is_ascii_chars(chars)) by {
        assert forall|i: int| 0 <= i < chars.len() implies '\0' <= #[trigger] chars[i]
            <= '\u{7f}' by {
            assert(bytes[i] < 0x80);
        }
    }
    vstd::utf8::is_ascii_chars_encode_utf8(chars);
    assert(encode_utf8(chars) =~= bytes) by {
        assert forall|i: int| 0 <= i < bytes.len() implies encode_utf8(chars)[i] == bytes[i] by {
            assert(chars[i] as u8 == encode_utf8(chars)[i]);
            assert(bytes[i] < 0x80);
        }
    }
    vstd::utf8::encode_utf8_valid_utf8(chars);
    vstd::utf8::decode_utf8_encode_utf8(bytes);
}

/// A text that fits the field and does not end in NUL is parsed back from the bytes that it is
/// written as.
pub proof fn written_is_read_back(text: Seq<char>, input: Seq<u8>, pos: usize, length: usize)
    requires
        fits(encode_utf8(text), length),
        input.len() <= usize::MAX,
        holds_at(input, pos, write_spec(text, length)),
    ensures
        parse_spec(input, pos, length) == Ok::<(Seq<char>, usize), FormatError>(
            (text, (pos + length) as usize),
        ),
{
    field_is_read_back(encode_utf8(text), input, pos, length);
    encode_utf8_decode_utf8(text);
    vstd::utf8::encode_utf8_valid_utf8(text);
}

} // verus!
