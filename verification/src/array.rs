//! Bytes in memory with a cursor.
use vstd::prelude::*;

verus! {

/// A buffer of bytes and a cursor over a copy of them.
#[derive(Debug, Clone)]
pub struct Array {
    buffer: Vec<u8>,
    cursor: Vec<u8>,
    position: u64,
}

impl Array {
    /// The bytes of the buffer.
    pub closed spec fn bytes(&self) -> Seq<u8> {
        self.buffer@
    }

    /// The bytes under the cursor.
    pub closed spec fn cursor_bytes(&self) -> Seq<u8> {
        self.cursor@
    }

    /// The offset of the cursor.
    pub closed spec fn cursor_position(&self) -> u64 {
        self.position
    }

    /// An array over `buffer`, with the cursor at the start of a copy of it.
    pub fn new(buffer: Vec<u8>) -> (r: Self)
        ensures
            r.bytes() == buffer@,
            r.cursor_bytes() == buffer@,
            r.cursor_position() == 0,
    {
        let cursor = buffer.clone();
        Self { buffer, cursor, position: 0 }
    }
}

} // verus!
