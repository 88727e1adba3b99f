//! The per-message checksum byte.
//!
//! A checksum instance is seeded by a 32-bit value and produces one byte
//! over a message's full wire bytes.  The fold used here is a table-free
//! redundancy check: the accumulator starts as the xor of the seed's four
//! bytes, absorbs each data byte by xor, and diffuses it through eight
//! shift-and-xor rounds with the polynomial `0x07`.

use vstd::assert_seqs_equal;
use vstd::prelude::*;

verus! {

/// One diffusion round: shift left, folding the dropped high bit back in
/// with the polynomial `0x07`.
pub open spec fn spec_checksum_shift(acc: u8) -> u8 {
    if acc & 0x80 != 0 {
        (acc << 1) ^ 0x07
    } else {
        acc << 1
    }
}

/// The diffusion iterated a given number of rounds.
pub open spec fn spec_checksum_rounds(acc: u8, rounds: nat) -> u8
    decreases rounds,
{
    if rounds == 0 {
        acc
    } else {
        spec_checksum_rounds(spec_checksum_shift(acc), (rounds - 1) as nat)
    }
}

/// Absorb one byte: xor it in, then run eight diffusion rounds.
pub open spec fn spec_checksum_step(acc: u8, byte: u8) -> u8 {
    spec_checksum_rounds(acc ^ byte, 8)
}

/// The accumulator a seed starts with: the xor of its four bytes.
pub open spec fn spec_checksum_init(seed: u32) -> u8 {
    ((seed ^ (seed >> 8) ^ (seed >> 16) ^ (seed >> 24)) & 0xFF) as u8
}

/// Fold a byte sequence into an accumulator, front to back.
pub open spec fn spec_checksum_fold(acc: u8, data: Seq<u8>) -> u8
    decreases data.len(),
{
    if data.len() == 0 {
        acc
    } else {
        spec_checksum_fold(spec_checksum_step(acc, data[0]), data.skip(1))
    }
}

/// The checksum byte of a byte sequence under a seed.
pub open spec fn spec_checksum(seed: u32, data: Seq<u8>) -> u8 {
    spec_checksum_fold(spec_checksum_init(seed), data)
}

/// The seeded checksum-byte generator.
#[derive(Clone, Copy, Debug, PartialEq, Eq, Structural)]
pub struct Checksum {
    /// The 32-bit seed the fold starts from.
    pub seed: u32,
}

impl Checksum {
    /// A checksum generator for the given seed.
    pub fn new(seed: u32) -> (r: Self)
        ensures
            r == (Checksum { seed }),
    {
        Checksum { seed }
    }

    /// Absorb one byte into an accumulator.
    fn step(acc: u8, byte: u8) -> (r: u8)
        ensures
            r == spec_checksum_step(acc, byte),
    {
        let mut a = acc ^ byte;
        let mut i: usize = 0;
        while i < 8
            invariant
                i <= 8,
                spec_checksum_rounds(a, (8 - i) as nat) == spec_checksum_step(acc, byte),
            decreases 8 - i,
        {
            if a & 0x80 != 0 {
                a = (a << 1) ^ 0x07;
            } else {
                a = a << 1;
            }
            i = i + 1;
        }
        a
    }

    /// The checksum byte over the first `len` bytes of `data`.
    pub fn compute(&self, data: &[u8], len: usize) -> (r: u8)
        requires
            len <= data@.len(),
        ensures
            r == spec_checksum(self.seed, data@.subrange(0, len as int)),
    {
        let mut acc = ((self.seed ^ (self.seed >> 8) ^ (self.seed >> 16) ^ (self.seed >> 24))
            & 0xFF) as u8;
        let mut i: usize = 0;
        while i < len
            invariant
                i <= len <= data@.len(),
                spec_checksum_fold(acc, data@.subrange(i as int, len as int))
                    == spec_checksum(self.seed, data@.subrange(0, len as int)),
            decreases len - i,
        {
            let b = data[i];
            proof {
                let rest = data@.subrange(i as int, len as int);
                assert(rest[0] == b);
                assert_seqs_equal!(rest.skip(1) == data@.subrange(i as int + 1, len as int));
            }
            acc = Checksum::step(acc, b);
            i = i + 1;
        }
        acc
    }
}

impl Default for Checksum {
    /// A checksum generator seeded with zero.
    fn default() -> (r: Self)
        ensures
            r.seed == 0,
    {
        Checksum { seed: 0 }
    }
}

} // verus!
