//! The per-connection security pipeline.
//!
//! Outbound messages are stamped with the next sequence byte and a checksum
//! over their wire bytes when outbound encoding is required.  Inbound
//! messages whose encrypted-body flag is set are deciphered with the
//! connection's byte-swapped Blowfish instance: every complete 8-byte block
//! after the two size bytes is decrypted and the flag is cleared.

use crate::blowfish::{spec_compat_decrypt, spec_compat_encrypt, BlowfishCompat};
use crate::checksum::{spec_checksum, Checksum};
use crate::exchange::Key;
use crate::message::{spec_message_bytes, spec_message_of, Header, Message, MessageView};
use crate::sequencer::{spec_sequencer_init, spec_sequencer_next, Sequencer};
use vstd::assert_seqs_equal;
use vstd::bytes::{
    lemma_auto_spec_u16_to_from_le_bytes, spec_u16_to_le_bytes, u16_from_le_bytes, u16_to_le_bytes,
};
use vstd::prelude::*;

verus! {

/// Whether inbound and outbound traffic must carry sequence and checksum
/// bytes.
#[derive(Clone, Copy, Debug, PartialEq, Eq, Structural)]
pub struct EncodingRequirements {
    /// Inbound traffic is expected to arrive encoded.
    pub inbound: bool,
    /// Outbound traffic must be encoded before sending.
    pub outbound: bool,
}

impl EncodingRequirements {
    /// Requirements from the two flags.
    pub fn new(inbound: bool, outbound: bool) -> (r: Self)
        ensures
            r == (EncodingRequirements { inbound, outbound }),
    {
        Self { inbound, outbound }
    }
}

/// The sequence and checksum machinery of one connection.
#[derive(Clone, Copy, Debug, PartialEq, Eq, Structural)]
pub struct Encoder {
    /// Which directions must be encoded.
    pub requirements: EncodingRequirements,
    /// The sequence-byte generator.
    pub sequencer: Sequencer,
    /// The checksum-byte generator.
    pub checksum: Checksum,
}

impl Encoder {
    /// An encoder from its flags and seeds.
    pub fn new(inbound: bool, outbound: bool, sequencer_seed: u32, checksum_seed: u32) -> (r: Self)
        ensures
            r == (Encoder {
                requirements: EncodingRequirements { inbound, outbound },
                sequencer: spec_sequencer_init(sequencer_seed),
                checksum: Checksum { seed: checksum_seed },
            }),
    {
        Self {
            requirements: EncodingRequirements::new(inbound, outbound),
            sequencer: Sequencer::new(sequencer_seed),
            checksum: Checksum::new(checksum_seed),
        }
    }
}

impl Default for Encoder {
    /// An encoder that requires nothing, with zero seeds.
    fn default() -> (r: Self)
        ensures
            r.requirements == (EncodingRequirements { inbound: false, outbound: false }),
            r.sequencer == spec_sequencer_init(0),
            r.checksum.seed == 0,
    {
        Encoder::new(false, false, 0, 0)
    }
}

/// The error of receiving an encrypted message on a connection whose
/// cipher was never installed.
#[derive(Clone, Copy, Debug, PartialEq, Eq, Structural)]
pub struct MissingCipher;

/// A message stamped for sending: the sequence byte set, the checksum
/// byte cleared, body and everything else untouched.
pub open spec fn spec_stamped(m: MessageView, sequence: u8) -> MessageView {
    MessageView {
        header: Header { sequence, checksum: 0, ..m.header },
        data: m.data,
    }
}

/// The outcome of encoding a message: the stamped message with its
/// checksum byte computed over the stamped wire bytes.
pub open spec fn spec_encoded(m: MessageView, sequence: u8, checksum_seed: u32) -> MessageView {
    let stamped = spec_stamped(m, sequence);
    let ck = spec_checksum(checksum_seed, spec_message_bytes(stamped));
    MessageView {
        header: Header { sequence, checksum: ck, ..m.header },
        data: m.data,
    }
}

/// A byte region deciphered block by block: every complete 8-byte block
/// from the front is decrypted in place, a trailing remainder of fewer
/// than 8 bytes stays as it is.
pub open spec fn spec_decrypt_region(key: Seq<u8>, region: Seq<u8>) -> Seq<u8>
    decreases region.len(),
{
    if region.len() < 8 {
        region
    } else {
        spec_compat_decrypt(key, region.subrange(0, 8)) + spec_decrypt_region(
            key,
            region.skip(8),
        )
    }
}

/// The outcome of deciphering an encrypted message: all bytes after the
/// two size bytes (identity, sequence, checksum and body) run through the
/// cipher block-wise, and the encrypted-body flag is cleared.
pub open spec fn spec_decrypted(key: Seq<u8>, m: MessageView) -> MessageView {
    let region = spec_message_bytes(m).skip(2);
    let masked = (m.header.size & 0x7FFF) as u16;
    spec_message_of(spec_u16_to_le_bytes(masked) + spec_decrypt_region(key, region))
}

/// Copy the 8-byte block standing at `at` out of a byte vector.
fn read_block(v: &Vec<u8>, at: usize) -> (r: [u8; 8])
    requires
        at + 8 <= v@.len(),
    ensures
        r@ == v@.subrange(at as int, at as int + 8),
{
    let n = v.len();
    let r: [u8; 8] = [v[at], v[at + 1], v[at + 2], v[at + 3], v[at + 4], v[at + 5], v[at + 6], v[at
        + 7]];
    proof {
        assert_seqs_equal!(r@ == v@.subrange(at as int, at as int + 8));
    }
    r
}

/// Write an 8-byte block into a byte vector at `at`.
fn write_block(v: &mut Vec<u8>, at: usize, block: &[u8; 8])
    requires
        at + 8 <= old(v)@.len(),
    ensures
        final(v)@ == old(v)@.subrange(0, at as int) + block@ + old(v)@.skip(at as int + 8),
{
    let n = v.len();
    let mut i: usize = 0;
    while i < 8
        invariant
            i <= 8,
            at + 8 <= n == v@.len(),
            v@.len() == old(v)@.len(),
            forall|j: int| #![auto] 0 <= j < at ==> v@[j] == old(v)@[j],
            forall|j: int| #![auto] at + 8 <= j < v@.len() ==> v@[j] == old(v)@[j],
            forall|j: int| #![auto] at <= j < at + i ==> v@[j] == block@[j - at],
            forall|j: int| #![auto] at + i <= j < at + 8 ==> v@[j] == old(v)@[j],
        decreases 8 - i,
    {
        v[at + i] = block[i];
        i = i + 1;
    }
    proof {
        assert_seqs_equal!(v@ ==
            old(v)@.subrange(0, at as int) + block@ + old(v)@.skip(at as int + 8));
    }
}

/// The security block of one connection: an optional cipher and the
/// sequence/checksum encoder.
#[derive(Clone, Copy, Debug)]
pub struct Security {
    /// The byte-swapped Blowfish instance, once keys are agreed.
    pub blowfish: Option<BlowfishCompat>,
    /// The sequence and checksum machinery.
    pub encoder: Encoder,
}

impl Default for Security {
    /// A security block with no cipher and an idle encoder.
    fn default() -> (r: Self)
        ensures
            r.blowfish is None,
            r.encoder.requirements == (EncodingRequirements { inbound: false, outbound: false }),
            r.encoder.sequencer == spec_sequencer_init(0),
            r.encoder.checksum.seed == 0,
    {
        Self { blowfish: None, encoder: Encoder::default() }
    }
}

impl Security {
    /// Stamp an outbound message when outbound encoding is required: set
    /// the next sequence byte, clear the checksum byte, and write the
    /// checksum of the whole wire image into the header.  When outbound
    /// encoding is not required the message passes through untouched.
    pub fn encode(&mut self, message: Message) -> (r: Message)
        ensures
            !old(self).encoder.requirements.outbound ==> r@ == message@ && *final(self)
                == *old(self),
            old(self).encoder.requirements.outbound ==> {
                let stepped = spec_sequencer_next(old(self).encoder.sequencer);
                &&& r@ == spec_encoded(message@, stepped.byte0, old(self).encoder.checksum.seed)
                &&& *final(self) == (Security {
                    blowfish: old(self).blowfish,
                    encoder: Encoder { sequencer: stepped, ..old(self).encoder },
                })
            },
    {
        if !self.encoder.requirements.outbound {
            return message;
        }

        let mut message = message;
        let sequence = self.encoder.sequencer.next();
        message.header_mut().sequence = sequence;
        message.header_mut().checksum = 0;

        let bytes = message.to_bytes();
        let checksum = self.encoder.checksum.compute(bytes.as_slice(), bytes.len());
        proof {
            assert(bytes@.subrange(0, bytes@.len() as int) == bytes@);
        }
        message.header_mut().checksum = checksum;
        message
    }

    /// Encrypt one 8-byte block in place if a cipher is installed; without
    /// one the block stays as it is.
    pub fn encrypt(&self, data: &mut [u8; 8])
        ensures
            self.blowfish is Some ==> {
                let key = self.blowfish->0.key@;
                &&& final(data)@ == spec_compat_encrypt(key, old(data)@)
                &&& spec_compat_decrypt(key, final(data)@) == old(data)@
            },
            self.blowfish is None ==> final(data)@ == old(data)@,
    {
        match &self.blowfish {
            Some(blowfish) => blowfish.encrypt_block(data),
            None => (),
        }
    }

    /// Decipher an inbound message.  A message without the encrypted-body
    /// flag passes through untouched; one with the flag needs the cipher,
    /// and arrives deciphered block-wise with the flag cleared.
    pub fn decrypt(&self, message: Message) -> (r: Result<Message, MissingCipher>)
        ensures
            message@.header.size & 0x8000 == 0 ==> r is Ok && r->Ok_0@ == message@,
            message@.header.size & 0x8000 != 0 && self.blowfish is None ==> r is Err,
            message@.header.size & 0x8000 != 0 && self.blowfish is Some ==> r is Ok
                && r->Ok_0@ == spec_decrypted(self.blowfish->0.key@, message@),
    {
        if !message.is_encrypted() {
            return Ok(message);
        }
        let blowfish = match &self.blowfish {
            Some(blowfish) => blowfish,
            None => {
                return Err(MissingCipher);
            },
        };

        let ghost m = message@;

        // The deciphered region: everything after the two size bytes.
        let mut region = u16_to_le_bytes(message.header.id.0);
        region.push(message.header.sequence);
        region.push(message.header.checksum);
        let mut i: usize = 0;
        while i < message.data.len()
            invariant
                i <= message.data@.len(),
                region@ == spec_u16_to_le_bytes(message.header.id.0)
                    + seq![message.header.sequence, message.header.checksum]
                    + message.data@.subrange(0, i as int),
            decreases message.data@.len() - i,
        {
            region.push(message.data[i]);
            proof {
                assert_seqs_equal!(region@ ==
                    spec_u16_to_le_bytes(message.header.id.0)
                    + seq![message.header.sequence, message.header.checksum]
                    + message.data@.subrange(0, i as int + 1));
            }
            i = i + 1;
        }
        proof {
            lemma_auto_spec_u16_to_from_le_bytes();
            assert_seqs_equal!(region@ == spec_message_bytes(m).skip(2));
        }

        let ghost key = blowfish.key@;
        let ghost region0 = region@;

        // Decrypt every complete 8-byte block from the front.
        let mut at: usize = 0;
        proof {
            assert_seqs_equal!(region0.skip(0) == region0);
            assert_seqs_equal!(region@.subrange(0, 0) + spec_decrypt_region(key, region0)
                == spec_decrypt_region(key, region0));
        }
        while region.len() - at >= 8
            invariant
                at <= region@.len(),
                region@.len() == region0.len(),
                forall|j: int| #![auto] at <= j < region0.len() ==> region@[j] == region0[j],
                spec_decrypt_region(key, region0) == region@.subrange(0, at as int)
                    + spec_decrypt_region(key, region0.skip(at as int)),
                blowfish.key@ == key,
            decreases region@.len() - at,
        {
            let mut block = read_block(&region, at);
            proof {
                assert(forall|k: int| #![auto] 0 <= k < 8 ==> block@[k] == region0[at + k]);
                assert_seqs_equal!(block@ == region0.skip(at as int).subrange(0, 8));
            }
            blowfish.decrypt_block(&mut block);
            let ghost before = region@;
            write_block(&mut region, at, &block);
            proof {
                assert(forall|j: int| #![auto] 0 <= j < at ==> region@[j] == before[j]);
                assert(forall|j: int| #![auto] at + 8 <= j < region0.len()
                    ==> region@[j] == before[j]);
                assert(forall|j: int| #![auto] at + 8 <= j < region0.len()
                    ==> region@[j] == region0[j]);
                assert_seqs_equal!(region0.skip(at as int).skip(8)
                    == region0.skip(at as int + 8));
                assert(spec_decrypt_region(key, region0.skip(at as int))
                    == spec_compat_decrypt(key, region0.skip(at as int).subrange(0, 8))
                    + spec_decrypt_region(key, region0.skip(at as int + 8)));
                assert_seqs_equal!(region@.subrange(0, at as int + 8)
                    == before.subrange(0, at as int) + block@);
                assert_seqs_equal!(before.subrange(0, at as int)
                    == region@.subrange(0, at as int));
                assert(spec_decrypt_region(key, region0) == before.subrange(0, at as int)
                    + spec_decrypt_region(key, region0.skip(at as int)));
                assert(block@ == spec_compat_decrypt(
                    key,
                    region0.skip(at as int).subrange(0, 8),
                ));
                assert(spec_decrypt_region(key, region0.skip(at as int)) == block@
                    + spec_decrypt_region(key, region0.skip(at as int + 8)));
                assert(spec_decrypt_region(key, region0) == before.subrange(0, at as int) + (
                block@ + spec_decrypt_region(key, region0.skip(at as int + 8))));
                assert_seqs_equal!(before.subrange(0, at as int) + (block@
                    + spec_decrypt_region(key, region0.skip(at as int + 8)))
                    == (before.subrange(0, at as int) + block@)
                    + spec_decrypt_region(key, region0.skip(at as int + 8)));
                assert(spec_decrypt_region(key, region0)
                    == region@.subrange(0, at as int + 8)
                    + spec_decrypt_region(key, region0.skip(at as int + 8)));
            }
            at = at + 8;
        }
        proof {
            assert_seqs_equal!(spec_decrypt_region(key, region0) == region@);
        }

        // Reassemble: masked size, then the deciphered identity, sequence,
        // checksum and body.
        let masked = message.header.size & 0x7FFF;
        let mut id_bytes: Vec<u8> = Vec::new();
        id_bytes.push(region[0]);
        id_bytes.push(region[1]);
        let id = u16_from_le_bytes(id_bytes.as_slice());
        let sequence = region[2];
        let checksum = region[3];
        let data = crate::message::copy_byte_range(region.as_slice(), 4, region.len());
        let result = Message {
            header: Header { size: masked, id: crate::message::MessageId(id), sequence, checksum },
            data,
        };
        proof {
            lemma_auto_spec_u16_to_from_le_bytes();
            let whole = spec_u16_to_le_bytes(masked) + spec_decrypt_region(key, region0);
            assert(whole == spec_u16_to_le_bytes(masked) + region@);
            assert_seqs_equal!(whole.subrange(0, 2) == spec_u16_to_le_bytes(masked));
            assert_seqs_equal!(whole.subrange(2, 4) == id_bytes@);
            assert_seqs_equal!(whole.skip(6) == data@);
            assert(result@ == spec_decrypted(self.blowfish->0.key@, m));
        }
        Ok(result)
    }
}

/// Accumulating configuration for a connection's security block.
#[derive(Clone, Copy, Debug)]
pub struct SecurityBuilder {
    /// The Blowfish key, if encryption is wanted from the start.
    pub key: Option<Key>,
    /// Whether inbound and outbound traffic must be encoded.
    pub encoding_requirements: (bool, bool),
    /// The sequencer and checksum seeds.
    pub error_detection: (u32, u32),
}

impl Default for SecurityBuilder {
    /// A builder with no key, no encoding requirements and zero seeds.
    fn default() -> (r: Self)
        ensures
            r.key is None,
            r.encoding_requirements == (false, false),
            r.error_detection == (0u32, 0u32),
    {
        Self { key: None, error_detection: (0, 0), encoding_requirements: (false, false) }
    }
}

impl SecurityBuilder {
    /// The security block `build` assembles from this configuration.
    pub open spec fn spec_built(self) -> Security {
        Security {
            blowfish: match self.key {
                Some(key) => Some(BlowfishCompat { key }),
                None => None,
            },
            encoder: Encoder {
                requirements: EncodingRequirements {
                    inbound: self.encoding_requirements.0,
                    outbound: self.encoding_requirements.1,
                },
                sequencer: spec_sequencer_init(self.error_detection.0),
                checksum: Checksum { seed: self.error_detection.1 },
            },
        }
    }

    /// This builder with the Blowfish key set.
    pub fn blowfish(self, key: Key) -> (r: Self)
        ensures
            r.key == Some(key),
            r.encoding_requirements == self.encoding_requirements,
            r.error_detection == self.error_detection,
    {
        Self {
            error_detection: self.error_detection,
            encoding_requirements: self.encoding_requirements,
            key: Some(key),
        }
    }

    /// This builder with the `(inbound, outbound)` encoding requirements
    /// set.
    pub fn encoding_requirements(self, encoding_requirements: (bool, bool)) -> (r: Self)
        ensures
            r.encoding_requirements == encoding_requirements,
            r.key == self.key,
            r.error_detection == self.error_detection,
    {
        Self {
            encoding_requirements,
            error_detection: self.error_detection,
            key: self.key,
        }
    }

    /// This builder with the `(sequencer, checksum)` seeds set.
    pub fn error_detection(self, error_detection: (u32, u32)) -> (r: Self)
        ensures
            r.error_detection == error_detection,
            r.key == self.key,
            r.encoding_requirements == self.encoding_requirements,
    {
        Self {
            encoding_requirements: self.encoding_requirements,
            error_detection,
            key: self.key,
        }
    }

    /// Build the security block: the cipher from the key if one was given,
    /// and the encoder from the requirements and seeds.
    pub fn build(self) -> (r: Security)
        ensures
            r == self.spec_built(),
    {
        let blowfish = match self.key {
            Some(key) => Some(BlowfishCompat::new(key)),
            None => None,
        };
        Security {
            blowfish,
            encoder: Encoder::new(
                self.encoding_requirements.0,
                self.encoding_requirements.1,
                self.error_detection.0,
                self.error_detection.1,
            ),
        }
    }
}

} // verus!
