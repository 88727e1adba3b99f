//! A checked cursor over a message body.
//!
//! Bodies carry little-endian integers, length-prefixed strings and
//! `1`-prefixed, `0`-terminated collections.  The reader consumes them
//! front to back and reports, rather than failing, when the body is too
//! short.

use vstd::assert_seqs_equal;
use vstd::bytes::{spec_u16_from_le_bytes, spec_u32_from_le_bytes, u16_from_le_bytes,
    u32_from_le_bytes};
use vstd::prelude::*;

verus! {

/// A cursor over a body's bytes.
#[derive(Debug)]
pub struct Reader {
    /// The bytes being read.
    pub data: Vec<u8>,
    /// How many bytes have been consumed.
    pub pos: usize,
}

/// The 16-bit little-endian value standing at `pos`.
pub open spec fn spec_u16_at(s: Seq<u8>, pos: int) -> u16
    recommends
        0 <= pos && pos + 2 <= s.len(),
{
    spec_u16_from_le_bytes(s.subrange(pos, pos + 2))
}

/// The 32-bit little-endian value standing at `pos`.
pub open spec fn spec_u32_at(s: Seq<u8>, pos: int) -> u32
    recommends
        0 <= pos && pos + 4 <= s.len(),
{
    spec_u32_from_le_bytes(s.subrange(pos, pos + 4))
}

impl Reader {
    /// A cursor at the front of the given bytes.
    pub fn new(data: Vec<u8>) -> (r: Self)
        ensures
            r.data@ == data@,
            r.pos == 0,
    {
        Reader { data, pos: 0 }
    }

    /// How many bytes remain.
    pub fn remaining(&self) -> (r: usize)
        ensures
            r == if self.pos <= self.data@.len() {
                self.data@.len() - self.pos
            } else {
                0
            },
    {
        if self.pos <= self.data.len() {
            self.data.len() - self.pos
        } else {
            0
        }
    }

    /// The next byte, if one remains.
    pub fn get_u8(&mut self) -> (r: Option<u8>)
        ensures
            final(self).data == old(self).data,
            old(self).pos < old(self).data@.len() ==> r == Some(old(self).data@[old(self).pos as int])
                && final(self).pos == old(self).pos + 1,
            old(self).pos >= old(self).data@.len() ==> r is None && final(self).pos == old(
                self,
            ).pos,
    {
        if self.pos < self.data.len() {
            let b = self.data[self.pos];
            self.pos = self.pos + 1;
            Some(b)
        } else {
            None
        }
    }

    /// The next 16-bit little-endian value, if two bytes remain.
    pub fn get_u16_le(&mut self) -> (r: Option<u16>)
        ensures
            final(self).data == old(self).data,
            old(self).pos + 2 <= old(self).data@.len() ==> r == Some(
                spec_u16_at(old(self).data@, old(self).pos as int),
            ) && final(self).pos == old(self).pos + 2,
            old(self).pos + 2 > old(self).data@.len() ==> r is None && final(self).pos == old(
                self,
            ).pos,
    {
        let n = self.data.len();
        if self.pos <= n && 2 <= n - self.pos {
            let mut bytes: Vec<u8> = Vec::new();
            bytes.push(self.data[self.pos]);
            bytes.push(self.data[self.pos + 1]);
            proof {
                assert_seqs_equal!(bytes@
                    == self.data@.subrange(self.pos as int, self.pos as int + 2));
            }
            let v = u16_from_le_bytes(bytes.as_slice());
            self.pos = self.pos + 2;
            Some(v)
        } else {
            None
        }
    }

    /// The next 32-bit little-endian value, if four bytes remain.
    pub fn get_u32_le(&mut self) -> (r: Option<u32>)
        ensures
            final(self).data == old(self).data,
            old(self).pos + 4 <= old(self).data@.len() ==> r == Some(
                spec_u32_at(old(self).data@, old(self).pos as int),
            ) && final(self).pos == old(self).pos + 4,
            old(self).pos + 4 > old(self).data@.len() ==> r is None && final(self).pos == old(
                self,
            ).pos,
    {
        let n = self.data.len();
        if self.pos <= n && 4 <= n - self.pos {
            let mut bytes: Vec<u8> = Vec::new();
            bytes.push(self.data[self.pos]);
            bytes.push(self.data[self.pos + 1]);
            bytes.push(self.data[self.pos + 2]);
            bytes.push(self.data[self.pos + 3]);
            proof {
                assert_seqs_equal!(bytes@
                    == self.data@.subrange(self.pos as int, self.pos as int + 4));
            }
            let v = u32_from_le_bytes(bytes.as_slice());
            self.pos = self.pos + 4;
            Some(v)
        } else {
            None
        }
    }

    /// The next `count` bytes, if they remain.
    pub fn get_bytes(&mut self, count: usize) -> (r: Option<Vec<u8>>)
        ensures
            final(self).data == old(self).data,
            old(self).pos + count <= old(self).data@.len() ==> r is Some && r->0@ == old(
                self,
            ).data@.subrange(old(self).pos as int, old(self).pos + count) && final(self).pos
                == old(self).pos + count,
            old(self).pos + count > old(self).data@.len() ==> r is None && final(self).pos == old(
                self,
            ).pos,
    {
        let n = self.data.len();
        if self.pos <= n && count <= n - self.pos {
            let bytes = crate::message::copy_byte_range(
                self.data.as_slice(),
                self.pos,
                self.pos + count,
            );
            self.pos = self.pos + count;
            Some(bytes)
        } else {
            None
        }
    }

    /// The next length-prefixed string: a 16-bit little-endian length,
    /// then that many bytes.
    pub fn get_string(&mut self) -> (r: Option<Vec<u8>>)
        ensures
            final(self).data == old(self).data,
            ({
                let s = old(self).data@;
                let pos = old(self).pos as int;
                if pos + 2 <= s.len() && pos + 2 + spec_u16_at(s, pos) <= s.len() {
                    let len = spec_u16_at(s, pos) as int;
                    r is Some && r->0@ == s.subrange(pos + 2, pos + 2 + len) && final(self).pos
                        == pos + 2 + len
                } else if pos + 2 <= s.len() {
                    r is None && final(self).pos == pos + 2
                } else {
                    r is None && final(self).pos == pos
                }
            }),
    {
        let len = match self.get_u16_le() {
            Some(len) => len,
            None => {
                return None;
            },
        };
        match self.get_bytes(len as usize) {
            Some(bytes) => Some(bytes),
            None => None,
        }
    }
}

} // verus!
