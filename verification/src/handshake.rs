//! The handshake's wire structures.
//!
//! The options byte carries five flags (least significant bit first):
//! `disabled`, `encryption`, `error_detection`, `exchange`, `challenge`;
//! the top three bits are reserved.  Behind it the setup body optionally
//! carries an 8-byte cipher key, the two 32-bit integrity seeds, and the
//! 20-byte exchange block; the response and challenge bodies carry a
//! public value and an 8-byte signature.

use crate::exchange::{Key, Signature};
use vstd::assert_seqs_equal;
use vstd::bytes::{spec_u32_to_le_bytes, u32_to_le_bytes};
use vstd::prelude::*;

verus! {

/// The five handshake option flags, packed into one byte.
#[derive(Clone, Copy, Debug, PartialEq, Eq, Structural)]
pub struct HandshakeOptions(pub u8);

/// The `disabled` flag: bit 0.
pub open spec fn spec_opt_disabled(bits: u8) -> bool {
    bits & 0x01 != 0
}

/// The `encryption` flag: bit 1.
pub open spec fn spec_opt_encryption(bits: u8) -> bool {
    bits & 0x02 != 0
}

/// The `error_detection` flag: bit 2.
pub open spec fn spec_opt_error_detection(bits: u8) -> bool {
    bits & 0x04 != 0
}

/// The `exchange` flag: bit 3.
pub open spec fn spec_opt_exchange(bits: u8) -> bool {
    bits & 0x08 != 0
}

/// The `challenge` flag: bit 4.
pub open spec fn spec_opt_challenge(bits: u8) -> bool {
    bits & 0x10 != 0
}

impl HandshakeOptions {
    /// The options with every flag clear.
    pub fn new() -> (r: Self)
        ensures
            r.0 == 0,
    {
        HandshakeOptions(0)
    }

    /// The options encoded by a raw byte.
    pub fn from_bits(value: u8) -> (r: Self)
        ensures
            r.0 == value,
    {
        HandshakeOptions(value)
    }

    /// The raw byte of these options.
    pub fn into_bits(self) -> (r: u8)
        ensures
            r == self.0,
    {
        self.0
    }

    /// The `disabled` flag.
    pub fn disabled(&self) -> (r: bool)
        ensures
            r == spec_opt_disabled(self.0),
    {
        self.0 & 0x01 != 0
    }

    /// The `encryption` flag.
    pub fn encryption(&self) -> (r: bool)
        ensures
            r == spec_opt_encryption(self.0),
    {
        self.0 & 0x02 != 0
    }

    /// The `error_detection` flag.
    pub fn error_detection(&self) -> (r: bool)
        ensures
            r == spec_opt_error_detection(self.0),
    {
        self.0 & 0x04 != 0
    }

    /// The `exchange` flag.
    pub fn exchange(&self) -> (r: bool)
        ensures
            r == spec_opt_exchange(self.0),
    {
        self.0 & 0x08 != 0
    }

    /// The `challenge` flag.
    pub fn challenge(&self) -> (r: bool)
        ensures
            r == spec_opt_challenge(self.0),
    {
        self.0 & 0x10 != 0
    }

    /// These options with the `disabled` flag replaced.
    pub fn with_disabled(self, value: bool) -> (r: Self)
        ensures
            r.0 == if value {
                self.0 | 0x01
            } else {
                self.0 & 0xFE
            },
    {
        if value {
            HandshakeOptions(self.0 | 0x01)
        } else {
            HandshakeOptions(self.0 & 0xFE)
        }
    }

    /// These options with the `encryption` flag replaced.
    pub fn with_encryption(self, value: bool) -> (r: Self)
        ensures
            r.0 == if value {
                self.0 | 0x02
            } else {
                self.0 & 0xFD
            },
    {
        if value {
            HandshakeOptions(self.0 | 0x02)
        } else {
            HandshakeOptions(self.0 & 0xFD)
        }
    }

    /// These options with the `error_detection` flag replaced.
    pub fn with_error_detection(self, value: bool) -> (r: Self)
        ensures
            r.0 == if value {
                self.0 | 0x04
            } else {
                self.0 & 0xFB
            },
    {
        if value {
            HandshakeOptions(self.0 | 0x04)
        } else {
            HandshakeOptions(self.0 & 0xFB)
        }
    }

    /// These options with the `exchange` flag replaced.
    pub fn with_exchange(self, value: bool) -> (r: Self)
        ensures
            r.0 == if value {
                self.0 | 0x08
            } else {
                self.0 & 0xF7
            },
    {
        if value {
            HandshakeOptions(self.0 | 0x08)
        } else {
            HandshakeOptions(self.0 & 0xF7)
        }
    }

    /// These options with the `challenge` flag replaced.
    pub fn with_challenge(self, value: bool) -> (r: Self)
        ensures
            r.0 == if value {
                self.0 | 0x10
            } else {
                self.0 & 0xEF
            },
    {
        if value {
            HandshakeOptions(self.0 | 0x10)
        } else {
            HandshakeOptions(self.0 & 0xEF)
        }
    }
}

/// The two 32-bit integrity seeds of the `error_detection` option.
#[derive(Clone, Copy, Debug, PartialEq, Eq, Structural)]
pub struct ErrorDetectionSeed {
    /// The sequencer seed.
    pub sequence: u32,
    /// The checksum seed.
    pub checksum: u32,
}

/// The 8 wire bytes of the integrity seeds, both little-endian.
pub open spec fn spec_seed_bytes(e: ErrorDetectionSeed) -> Seq<u8> {
    spec_u32_to_le_bytes(e.sequence) + spec_u32_to_le_bytes(e.checksum)
}

impl ErrorDetectionSeed {
    /// Seeds from their two values.
    pub fn new(sequence: u32, checksum: u32) -> (r: Self)
        ensures
            r == (ErrorDetectionSeed { sequence, checksum }),
    {
        Self { sequence, checksum }
    }

    /// Serialise the seeds to their 8 wire bytes.
    pub fn to_bytes(&self) -> (r: Vec<u8>)
        ensures
            r@ == spec_seed_bytes(*self),
    {
        let mut out = u32_to_le_bytes(self.sequence);
        let mut ck = u32_to_le_bytes(self.checksum);
        out.append(&mut ck);
        out
    }
}

/// The 20-byte exchange block of a setup body: the initial key, the
/// generator, the modulus and the sender's public value.
#[derive(Clone, Copy, Debug)]
pub struct ExchangeSetup {
    /// The 8-byte initial key.
    pub initial_key: Key,
    /// The generator `g`.
    pub generator: u32,
    /// The modulus `p`.
    pub prime: u32,
    /// The sender's public value.
    pub public: u32,
}

/// The 20 wire bytes of an exchange block.
pub open spec fn spec_setup_bytes(e: ExchangeSetup) -> Seq<u8> {
    e.initial_key@ + spec_u32_to_le_bytes(e.generator) + spec_u32_to_le_bytes(e.prime)
        + spec_u32_to_le_bytes(e.public)
}

impl ExchangeSetup {
    /// An exchange block from its parts.
    pub fn new(initial_key: Key, generator: u32, prime: u32, public: u32) -> (r: Self)
        ensures
            r.initial_key == initial_key,
            r.generator == generator,
            r.prime == prime,
            r.public == public,
    {
        Self { initial_key, generator, prime, public }
    }

    /// Serialise the exchange block to its 20 wire bytes.
    pub fn to_bytes(&self) -> (r: Vec<u8>)
        ensures
            r@ == spec_setup_bytes(*self),
    {
        let mut out: Vec<u8> = Vec::new();
        let mut i: usize = 0;
        while i < 8
            invariant
                i <= 8,
                out@ == self.initial_key@.subrange(0, i as int),
        decreases 8 - i,
        {
            out.push(self.initial_key[i]);
            proof {
                assert_seqs_equal!(out@ == self.initial_key@.subrange(0, i as int + 1));
            }
            i = i + 1;
        }
        proof {
            assert_seqs_equal!(out@ == self.initial_key@);
        }
        let mut g = u32_to_le_bytes(self.generator);
        let mut p = u32_to_le_bytes(self.prime);
        let mut public = u32_to_le_bytes(self.public);
        out.append(&mut g);
        out.append(&mut p);
        out.append(&mut public);
        out
    }
}

/// The response body of the exchange: the responder's public value and
/// its encrypted signature.
#[derive(Clone, Copy, Debug)]
pub struct ExchangeResponse {
    /// The sender's public value.
    pub public: u32,
    /// The encrypted challenge signature.
    pub signature: Signature,
}

/// The 12 wire bytes of an exchange response.
pub open spec fn spec_response_bytes(e: ExchangeResponse) -> Seq<u8> {
    spec_u32_to_le_bytes(e.public) + e.signature@
}

impl ExchangeResponse {
    /// A response from its parts.
    pub fn new(public: u32, signature: Signature) -> (r: Self)
        ensures
            r.public == public,
            r.signature == signature,
    {
        Self { public, signature }
    }

    /// Serialise the response to its 12 wire bytes.
    pub fn to_bytes(&self) -> (r: Vec<u8>)
        ensures
            r@ == spec_response_bytes(*self),
    {
        let mut out = u32_to_le_bytes(self.public);
        let mut i: usize = 0;
        while i < 8
            invariant
                i <= 8,
                out@ == spec_u32_to_le_bytes(self.public) + self.signature@.subrange(0, i as int),
        decreases 8 - i,
        {
            out.push(self.signature[i]);
            proof {
                assert_seqs_equal!(out@ == spec_u32_to_le_bytes(self.public)
                    + self.signature@.subrange(0, i as int + 1));
            }
            i = i + 1;
        }
        proof {
            assert_seqs_equal!(out@ == spec_response_bytes(*self));
        }
        out
    }
}

/// Whether two 8-byte signatures hold the same bytes.
pub fn signatures_equal(a: &[u8; 8], b: &[u8; 8]) -> (r: bool)
    ensures
        r == (a@ == b@),
{
    let r = a[0] == b[0] && a[1] == b[1] && a[2] == b[2] && a[3] == b[3] && a[4] == b[4]
        && a[5] == b[5] && a[6] == b[6] && a[7] == b[7];
    proof {
        if r {
            assert_seqs_equal!(a@ == b@);
        }
    }
    r
}

} // verus!
