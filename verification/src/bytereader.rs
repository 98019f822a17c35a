//! A read-only, position-tracked view over an immutable byte buffer.

use vstd::prelude::*;
use vstd::slice::{slice_subrange, slice_to_vec};

use crate::errors::{MidiParseError, MidiParseResult};

verus! {

/// The big-endian value of two bytes.
pub open spec fn spec_u16_be(b0: u8, b1: u8) -> int {
    b0 * 0x100 + b1
}

/// The big-endian value of four bytes.
pub open spec fn spec_u32_be(b0: u8, b1: u8, b2: u8, b3: u8) -> int {
    b0 * 0x1000000 + b1 * 0x10000 + b2 * 0x100 + b3
}

/// The four big-endian bytes of a 32-bit value.
pub open spec fn spec_u32_bytes_be(v: int) -> Seq<u8>
    recommends
        0 <= v <= 0xFFFFFFFF,
{
    seq![
        ((v / 0x1000000) % 0x100) as u8,
        ((v / 0x10000) % 0x100) as u8,
        ((v / 0x100) % 0x100) as u8,
        (v % 0x100) as u8,
    ]
}

/// The ByteReader struct allows for reading the data and moving around.
pub struct ByteReader {
    /// The data to read
    data: Vec<u8>,
    /// The current position in the data
    pos: u64,
    /// The length of the data
    len: u64,
}

impl ByteReader {
    /// The bytes this reader walks over.
    pub closed spec fn bytes(self) -> Seq<u8> {
        self.data@
    }

    /// The current read position, always within `[0, bytes().len()]`.
    pub closed spec fn cur(self) -> int {
        self.pos as int
    }

    #[verifier::type_invariant]
    spec fn wf(self) -> bool {
        self.pos <= self.len && self.len == self.data@.len() && self.data@.len() <= usize::MAX
    }

    /// Create a new ByteReader over a copy of `data`, positioned at the start.
    pub fn new(data: &[u8]) -> (r: ByteReader)
        ensures
            r.bytes() == data@,
            r.cur() == 0,
    {
        let owned: Vec<u8> = slice_to_vec(data);
        let n: usize = owned.len();
        ByteReader { data: owned, pos: 0, len: n as u64 }
    }

    /// Read a single byte and advance, or report `None` at the end of the data.
    pub fn get_next_byte(&mut self) -> (r: Option<u8>)
        ensures
            0 <= old(self).cur() <= old(self).bytes().len(),
            final(self).bytes() == old(self).bytes(),
            old(self).cur() < old(self).bytes().len() ==> r == Some(old(self).bytes()[old(self).cur()]) && final(self).cur() == old(self).cur() + 1,
            old(self).cur() >= old(self).bytes().len() ==> r is None && final(self).cur() == old(self).cur(),
    {
        proof {
            use_type_invariant(&*self);
        }
        if self.pos < self.len {
            let byte: u8 = self.data[self.pos as usize];
            self.pos = self.pos + 1;
            Some(byte)
        } else {
            None
        }
    }

    /// Look at the next byte without moving the position.
    pub fn peek(&self) -> (r: MidiParseResult<u8>)
        ensures
            0 <= self.cur() <= self.bytes().len(),
            self.cur() < self.bytes().len() ==> r == Ok::<u8, MidiParseError>(self.bytes()[self.cur()]),
            self.cur() >= self.bytes().len() ==> (r matches Err(e) && e is EndOfData),
    {
        proof {
            use_type_invariant(&*self);
        }
        if self.pos < self.len {
            Ok(self.data[self.pos as usize])
        } else {
            Err(MidiParseError::EndOfData(String::from_str("End of data reached")))
        }
    }

    /// Get the length of the data.
    pub fn len(&self) -> (r: u64)
        ensures
            r == self.bytes().len(),
    {
        proof {
            use_type_invariant(&*self);
        }
        self.len
    }

    /// Get the current position in the data.
    pub fn pos(&self) -> (r: u64)
        ensures
            r == self.cur(),
            0 <= self.cur() <= self.bytes().len(),
    {
        proof {
            use_type_invariant(&*self);
        }
        self.pos
    }

    /// Read the next `num_bytes` bytes and advance past them.
    pub fn get_next_bytes(&mut self, num_bytes: u64) -> (r: MidiParseResult<Vec<u8>>)
        ensures
            0 <= old(self).cur() <= old(self).bytes().len(),
            final(self).bytes() == old(self).bytes(),
            old(self).cur() + num_bytes <= old(self).bytes().len() ==> ({
                &&& r matches Ok(v) && v@ == old(self).bytes().subrange(
                    old(self).cur(),
                    old(self).cur() + num_bytes,
                )
                &&& final(self).cur() == old(self).cur() + num_bytes
            }),
            old(self).cur() + num_bytes > old(self).bytes().len() ==> ({
                &&& r matches Err(e) && e is EndOfData
                &&& final(self).cur() == old(self).cur()
            }),
    {
        proof {
            use_type_invariant(&*self);
        }
        if num_bytes <= self.len - self.pos {
            let start: usize = self.pos as usize;
            let end: usize = (self.pos + num_bytes) as usize;
            let bytes: Vec<u8> = slice_to_vec(slice_subrange(self.data.as_slice(), start, end));
            self.pos = self.pos + num_bytes;
            Ok(bytes)
        } else {
            Err(MidiParseError::EndOfData(String::from_str("Not enough bytes remaining")))
        }
    }

    /// Move the current position to a specific position, which must lie within
    /// the data.
    pub fn seek(&mut self, pos: u64) -> (r: MidiParseResult<()>)
        ensures
            0 <= old(self).cur() <= old(self).bytes().len(),
            final(self).bytes() == old(self).bytes(),
            pos <= old(self).bytes().len() ==> r is Ok && final(self).cur() == pos,
            pos > old(self).bytes().len() ==> ({
                &&& r matches Err(e) && e is InvalidDataBounds
                &&& final(self).cur() == old(self).cur()
            }),
    {
        proof {
            use_type_invariant(&*self);
        }
        if pos <= self.len {
            self.pos = pos;
            Ok(())
        } else {
            Err(MidiParseError::InvalidDataBounds(String::from_str(
                "Seeking past the end of the data",
            )))
        }
    }

    /// Move the current position by a signed amount; the new position must lie
    /// within the data.
    pub fn move_pos(&mut self, num_bytes: i128) -> (r: MidiParseResult<()>)
        ensures
            0 <= old(self).cur() <= old(self).bytes().len(),
            final(self).bytes() == old(self).bytes(),
            old(self).cur() + num_bytes < 0 || old(self).cur() + num_bytes > old(self).bytes().len() ==> ({
                &&& r matches Err(e) && e is InvalidDataBounds
                &&& final(self).cur() == old(self).cur()
            }),
            0 <= old(self).cur() + num_bytes <= old(self).bytes().len() ==> r is Ok && final(self).cur() == old(self).cur() + num_bytes,
    {
        proof {
            use_type_invariant(&*self);
        }
        // If the new position would be less than 0, report an error
        if num_bytes < -(self.pos as i128) {
            return Err(MidiParseError::InvalidDataBounds(String::from_str(
                "Moving position would be less than 0",
            )));
        }
        // If the new position would be greater than the length of the data,
        // report an error
        if num_bytes > (self.len - self.pos) as i128 {
            return Err(MidiParseError::InvalidDataBounds(String::from_str(
                "Moving position would be greater than the length of the data",
            )));
        }
        // The new position is within the bounds of the data: update it
        self.pos = (self.pos as i128 + num_bytes) as u64;
        Ok(())
    }

    /// Get the number of bytes remaining in the data.
    pub fn num_bytes_remaining(&self) -> (r: u64)
        ensures
            r == self.bytes().len() - self.cur(),
            0 <= self.cur() <= self.bytes().len(),
    {
        proof {
            use_type_invariant(&*self);
        }
        self.len - self.pos
    }

    /// Get the next `num_bytes` bytes without moving the position.
    pub fn peek_next_bytes(&self, num_bytes: u64) -> (r: Option<Vec<u8>>)
        ensures
            0 <= self.cur() <= self.bytes().len(),
            self.cur() + num_bytes <= self.bytes().len() ==> (r matches Some(v) && v@
                == self.bytes().subrange(self.cur(), self.cur() + num_bytes)),
            self.cur() + num_bytes > self.bytes().len() ==> r is None,
    {
        proof {
            use_type_invariant(&*self);
        }
        if num_bytes <= self.len - self.pos {
            let start: usize = self.pos as usize;
            let end: usize = (self.pos + num_bytes) as usize;
            Some(slice_to_vec(slice_subrange(self.data.as_slice(), start, end)))
        } else {
            None
        }
    }

    /// Read the next four bytes as a big-endian u32.
    pub fn get_next_u32(&mut self) -> (r: MidiParseResult<u32>)
        ensures
            0 <= old(self).cur() <= old(self).bytes().len(),
            final(self).bytes() == old(self).bytes(),
            old(self).cur() + 4 <= old(self).bytes().len() ==> ({
                &&& r matches Ok(v) && v == spec_u32_be(
                    old(self).bytes()[old(self).cur()],
                    old(self).bytes()[old(self).cur() + 1],
                    old(self).bytes()[old(self).cur() + 2],
                    old(self).bytes()[old(self).cur() + 3],
                )
                &&& final(self).cur() == old(self).cur() + 4
            }),
            old(self).cur() + 4 > old(self).bytes().len() ==> ({
                &&& r matches Err(e) && e is EndOfData
                &&& final(self).cur() == old(self).cur()
            }),
    {
        let bytes = self.get_next_bytes(4)?;
        Ok((bytes[0] as u32) * 0x1000000 + (bytes[1] as u32) * 0x10000 + (bytes[2] as u32) * 0x100
            + (bytes[3] as u32))
    }

    /// Read the next two bytes as a big-endian u16.
    pub fn get_next_u16(&mut self) -> (r: MidiParseResult<u16>)
        ensures
            0 <= old(self).cur() <= old(self).bytes().len(),
            final(self).bytes() == old(self).bytes(),
            old(self).cur() + 2 <= old(self).bytes().len() ==> ({
                &&& r matches Ok(v) && v == spec_u16_be(
                    old(self).bytes()[old(self).cur()],
                    old(self).bytes()[old(self).cur() + 1],
                )
                &&& final(self).cur() == old(self).cur() + 2
            }),
            old(self).cur() + 2 > old(self).bytes().len() ==> ({
                &&& r matches Err(e) && e is EndOfData
                &&& final(self).cur() == old(self).cur()
            }),
    {
        let bytes = self.get_next_bytes(2)?;
        Ok((bytes[0] as u16) * 0x100 + (bytes[1] as u16))
    }
}

} // verus!
