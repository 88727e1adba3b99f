//! The per-message sequence-byte generator.
//!
//! A sequencer is seeded by a 32-bit value (a zero seed falls back to a
//! fixed default).  Seeding derives four intermediate values with a 32-round
//! scramble and folds them into three state bytes; every call of `next`
//! produces the following sequence byte and updates the state.

use vstd::prelude::*;

verus! {

/// Seed used in place of a caller-supplied seed of zero.
pub const DEFAULT_SEED: u32 = 0x9ABF_B3B6;

/// One round of the scramble: five shift-and-xor folds decide the new low
/// bit while the value itself rotates right by one with its top bit cleared.
pub open spec fn spec_scramble_round(value: u32) -> u32 {
    let v1 = (value >> 2) ^ value;
    let v2 = (v1 >> 2) ^ value;
    let v3 = (v2 >> 1) ^ value;
    let v4 = (v3 >> 1) ^ value;
    let v5 = (v4 >> 1) ^ value;
    (((value >> 1) | (value << 31)) & !1u32) | (v5 & 1)
}

/// The scramble iterated a given number of rounds.
pub open spec fn spec_scramble_rounds(value: u32, rounds: nat) -> u32
    decreases rounds,
{
    if rounds == 0 {
        value
    } else {
        spec_scramble_rounds(spec_scramble_round(value), (rounds - 1) as nat)
    }
}

/// The 32-round scramble that derives each intermediate seeding value.
pub open spec fn spec_generate_value(value: u32) -> u32 {
    spec_scramble_rounds(value, 32)
}

/// Run the 32-round scramble on a value.
pub fn generate_value(value: u32) -> (r: u32)
    ensures
        r == spec_generate_value(value),
{
    let mut v = value;
    let mut i: usize = 0;
    while i < 32
        invariant
            i <= 32,
            spec_scramble_rounds(v, (32 - i) as nat) == spec_generate_value(value),
        decreases 32 - i,
    {
        let t1 = (v >> 2) ^ v;
        let t2 = (t1 >> 2) ^ v;
        let t3 = (t2 >> 1) ^ v;
        let t4 = (t3 >> 1) ^ v;
        let t5 = (t4 >> 1) ^ v;
        v = (((v >> 1) | (v << 31)) & !1u32) | (t5 & 1);
        i = i + 1;
    }
    v
}

/// The sequence-byte generator state.
#[derive(Clone, Copy, Debug, PartialEq, Eq, Structural)]
pub struct Sequencer {
    /// The evolving output byte.
    pub byte0: u8,
    /// First fixed multiplier byte.
    pub byte1: u8,
    /// Second fixed multiplier byte.
    pub byte2: u8,
}

/// The state a sequencer starts in for a given seed, zero falling back to
/// `DEFAULT_SEED`: four chained scrambles, whose low bytes pair-wise xor
/// (zero replaced by one) into the two multiplier bytes.
pub open spec fn spec_sequencer_init(value: u32) -> Sequencer {
    let seed = if value != 0 { value } else { DEFAULT_SEED };
    let mut1 = spec_generate_value(seed);
    let mut2 = spec_generate_value(mut1);
    let mut3 = spec_generate_value(mut2);
    let mut4 = spec_generate_value(mut3);
    let x1 = ((mut1 & 0xFF) ^ (mut2 & 0xFF)) as u8;
    let byte1 = if x1 == 0 { 1u8 } else { x1 };
    let x2 = ((mut4 & 0xFF) ^ (mut3 & 0xFF)) as u8;
    let byte2 = if x2 == 0 { 1u8 } else { x2 };
    Sequencer { byte0: byte2 ^ byte1, byte1, byte2 }
}

/// The state after one step: the new output byte is a truncated product of
/// the multiplier bytes folded with its own high nibble.
pub open spec fn spec_sequencer_next(s: Sequencer) -> Sequencer {
    let value = ((s.byte2 as u32) * ((!s.byte0 as u32) + (s.byte1 as u32))) as u8;
    Sequencer { byte0: value ^ (value >> 4), byte1: s.byte1, byte2: s.byte2 }
}

/// The stream of sequence bytes a state emits.
pub open spec fn spec_sequencer_stream_from(s: Sequencer, n: nat) -> Seq<u8>
    decreases n,
{
    if n == 0 {
        Seq::empty()
    } else {
        let next = spec_sequencer_next(s);
        seq![next.byte0] + spec_sequencer_stream_from(next, (n - 1) as nat)
    }
}

/// The stream of sequence bytes a seed produces.
pub open spec fn spec_sequencer_stream(seed: u32, n: nat) -> Seq<u8> {
    spec_sequencer_stream_from(spec_sequencer_init(seed), n)
}

impl Sequencer {
    /// Seed a sequencer; a zero seed falls back to `DEFAULT_SEED`.
    pub fn new(value: u32) -> (r: Self)
        ensures
            r == spec_sequencer_init(value),
    {
        let seed = if value != 0 { value } else { DEFAULT_SEED };
        let mut1 = generate_value(seed);
        let mut2 = generate_value(mut1);
        let mut3 = generate_value(mut2);
        let mut4 = generate_value(mut3);

        let mut byte1: u8 = ((mut1 & 0xFF) ^ (mut2 & 0xFF)) as u8;
        if byte1 == 0 {
            byte1 = 1;
        }
        let mut byte2: u8 = ((mut4 & 0xFF) ^ (mut3 & 0xFF)) as u8;
        if byte2 == 0 {
            byte2 = 1;
        }

        Sequencer { byte0: byte2 ^ byte1, byte1, byte2 }
    }

    /// Produce the next sequence byte and advance the state.
    pub fn next(&mut self) -> (r: u8)
        ensures
            *final(self) == spec_sequencer_next(*old(self)),
            r == spec_sequencer_next(*old(self)).byte0,
    {
        proof {
            assert((self.byte2 as u32) * ((!self.byte0 as u32) + (self.byte1 as u32))
                <= 255 * 510) by (nonlinear_arith)
                requires
                    self.byte2 <= 255 && (!self.byte0 as u32) + (self.byte1 as u32) <= 510,
            ;
        }
        let value = ((self.byte2 as u32) * ((!self.byte0 as u32) + (self.byte1 as u32))) as u8;
        self.byte0 = value ^ (value >> 4);
        self.byte0
    }
}

impl Default for Sequencer {
    /// A sequencer seeded with zero, which falls back to `DEFAULT_SEED`.
    fn default() -> (r: Self)
        ensures
            r == spec_sequencer_init(0),
    {
        Sequencer::new(0)
    }
}

/// Sequencer determinism: equal seeds emit bit-equal streams of any length,
/// and a zero seed emits exactly the stream of the fixed default seed.
pub proof fn lemma_sequencer_deterministic(a: u32, b: u32, n: nat)
    requires
        a == b || (a == 0 && b == DEFAULT_SEED),
    ensures
        spec_sequencer_stream(a, n) == spec_sequencer_stream(b, n),
{
    assert(spec_sequencer_init(a) == spec_sequencer_init(b));
}

} // verus!
