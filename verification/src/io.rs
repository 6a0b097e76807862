//! Reading shots one after another from bytes in memory.
use crate::shot::Shot;
use vstd::prelude::*;

verus! {

/// A sequence of bytes and a position in it, from which shots are read one after another.
pub struct Reader {
    buffer: Vec<u8>,
    position: usize,
}

impl Reader {
    /// The bytes that the reader reads from.
    pub closed spec fn bytes(&self) -> Seq<u8> {
        self.buffer@
    }

    /// The offset of the next byte that the reader reads.
    pub closed spec fn offset(&self) -> usize {
        self.position
    }

    /// A reader at the start of `inner`.
    pub fn new(inner: Vec<u8>) -> (r: Self)
        ensures
            r.bytes() == inner@,
            r.offset() == 0,
    {
        Self { buffer: inner, position: 0 }
    }

    /// The offset of the next byte that the reader reads.
    pub fn position(&self) -> (r: u64)
        ensures
            r == self.offset(),
    {
        self.position as u64
    }

    /// Moves the reader to the offset `position`, which may lie behind the last byte.
    pub fn seek(&mut self, position: usize)
        ensures
            final(self).bytes() == old(self).bytes(),
            final(self).offset() == position,
    {
        self.position = position;
    }

    /// Reads the shot at the position of the reader. Where one is read the reader moves behind
    /// it; where none can be read there is no shot, and the reader stays where it was.
    pub fn next(&mut self) -> (r: Option<Shot>)
        ensures
            final(self).bytes() == old(self).bytes(),
            match Shot::parse_spec(old(self).bytes(), old(self).offset()) {
                Ok((shot, next)) => r matches Some(got) && got@ == shot && final(self).offset()
                    == next,
                Err(_) => r.is_none() && final(self).offset() == old(self).offset(),
            },
    {
        match Shot::parse(self.buffer.as_slice(), self.position) {
            Ok((shot, next)) => {
                self.position = next;
                Some(shot)
            },
            Err(_) => None,
        }
    }
}

} // verus!
