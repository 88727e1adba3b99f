//! Blowfish with byte-swapped block layout.
//!
//! The protocol runs standard Blowfish over 8-byte blocks, but each block is
//! treated as two 32-bit words whose bytes are reversed within each word
//! before the cipher runs and reversed again after.  The cipher itself is
//! the `blowfish` crate's; the word reversal around it is this module's own
//! and is verified.

use blowfish::cipher::generic_array::GenericArray;
use blowfish::cipher::{BlockDecrypt, BlockEncrypt, NewBlockCipher};
use vstd::assert_seqs_equal;
use vstd::prelude::*;

verus! {

/// Blowfish block size in bytes.
pub const BLOCK_SIZE: usize = 8;

/// What Blowfish returns when one 8-byte block is encrypted under a key.
/// The result is a function of the key and block bytes alone; the key
/// schedule and Feistel rounds stay the cipher crate's own and are not
/// restated here.
pub uninterp spec fn spec_blowfish_encrypt(key: Seq<u8>, block: Seq<u8>) -> Seq<u8>;

/// What Blowfish returns when one 8-byte block is decrypted under a key.
pub uninterp spec fn spec_blowfish_decrypt(key: Seq<u8>, block: Seq<u8>) -> Seq<u8>;

/// Relies on `blowfish::Blowfish`: `new_from_slice` accepts any key of 4 to
/// 56 bytes (an 8-byte key always succeeds), and `encrypt_block` replaces
/// the block with its encryption under that key, a pure function of key and
/// block bytes.  `decrypt_block` inverts `encrypt_block` under the same key,
/// which the second clause records for the block at hand.
#[verifier::external_body]
fn blowfish_encrypt_block(key: &[u8; 8], block: &mut [u8; 8])
    ensures
        final(block)@ == spec_blowfish_encrypt(key@, old(block)@),
        spec_blowfish_decrypt(key@, spec_blowfish_encrypt(key@, old(block)@)) == old(block)@,
{
    let cipher: blowfish::Blowfish = blowfish::Blowfish::new_from_slice(key.as_slice())
        .expect("an 8-byte key is a valid Blowfish key length");
    cipher.encrypt_block(GenericArray::from_mut_slice(block.as_mut_slice()));
}

/// Relies on `blowfish::Blowfish`: `new_from_slice` accepts an 8-byte key,
/// and `decrypt_block` replaces the block with its decryption under that
/// key, a pure function of key and block bytes.
#[verifier::external_body]
fn blowfish_decrypt_block(key: &[u8; 8], block: &mut [u8; 8])
    ensures
        final(block)@ == spec_blowfish_decrypt(key@, old(block)@),
{
    let cipher: blowfish::Blowfish = blowfish::Blowfish::new_from_slice(key.as_slice())
        .expect("an 8-byte key is a valid Blowfish key length");
    cipher.decrypt_block(GenericArray::from_mut_slice(block.as_mut_slice()));
}

/// An 8-byte block with the byte order of each of its two 32-bit words
/// reversed.
pub open spec fn spec_reverse_words(s: Seq<u8>) -> Seq<u8>
    recommends
        s.len() == 8,
{
    seq![s[3], s[2], s[1], s[0], s[7], s[6], s[5], s[4]]
}

/// Reversing the words of a block twice yields the block.
pub proof fn lemma_reverse_words_involution(s: Seq<u8>)
    requires
        s.len() == 8,
    ensures
        spec_reverse_words(spec_reverse_words(s)) == s,
{
    assert_seqs_equal!(spec_reverse_words(spec_reverse_words(s)) == s);
}

/// Reverse the byte order of each 32-bit word of a block in place.
pub fn reverse_words(buf: &mut [u8; 8])
    ensures
        final(buf)@ == spec_reverse_words(old(buf)@),
{
    let b0 = buf[0];
    let b1 = buf[1];
    let b2 = buf[2];
    let b3 = buf[3];
    let b4 = buf[4];
    let b5 = buf[5];
    let b6 = buf[6];
    let b7 = buf[7];
    buf[0] = b3;
    buf[1] = b2;
    buf[2] = b1;
    buf[3] = b0;
    buf[4] = b7;
    buf[5] = b6;
    buf[6] = b5;
    buf[7] = b4;
    proof {
        assert_seqs_equal!(buf@ == spec_reverse_words(old(buf)@));
    }
}

/// One 8-byte block encrypted in the byte-swapped layout: words reversed,
/// Blowfish applied, words reversed again.
pub open spec fn spec_compat_encrypt(key: Seq<u8>, block: Seq<u8>) -> Seq<u8> {
    spec_reverse_words(spec_blowfish_encrypt(key, spec_reverse_words(block)))
}

/// One 8-byte block decrypted in the byte-swapped layout.
pub open spec fn spec_compat_decrypt(key: Seq<u8>, block: Seq<u8>) -> Seq<u8> {
    spec_reverse_words(spec_blowfish_decrypt(key, spec_reverse_words(block)))
}

/// The error of building a cipher from a key of the wrong length.
#[derive(Clone, Copy, Debug, PartialEq, Eq, Structural)]
pub struct InvalidKeyLength;

/// The byte-swapped Blowfish cipher of one connection, pinned to the 8-byte
/// keys that the protocol's key exchange and encryption option produce.
#[derive(Clone, Copy, Debug)]
pub struct BlowfishCompat {
    /// The 8-byte key every block operation runs under.
    pub key: [u8; 8],
}

impl BlowfishCompat {
    /// A cipher for the given 8-byte key.
    pub fn new(key: [u8; 8]) -> (r: Self)
        ensures
            r == (BlowfishCompat { key }),
    {
        BlowfishCompat { key }
    }

    /// A cipher built from a key slice.  The protocol's keys are always
    /// exactly 8 bytes; any other length is refused.
    pub fn new_from_slice(key: &[u8]) -> (r: Result<Self, InvalidKeyLength>)
        ensures
            r is Ok <==> key@.len() == 8,
            r is Ok ==> r->Ok_0.key@ == key@,
    {
        if key.len() == 8 {
            let mut k: [u8; 8] = [0; 8];
            let mut i: usize = 0;
            while i < 8
                invariant
                    i <= 8,
                    k@.len() == 8,
                    key@.len() == 8,
                    forall|j: int| 0 <= j < i ==> k@[j] == key@[j],
                decreases 8 - i,
            {
                k[i] = key[i];
                i = i + 1;
            }
            proof {
                assert_seqs_equal!(k@ == key@);
            }
            Ok(BlowfishCompat { key: k })
        } else {
            Err(InvalidKeyLength)
        }
    }

    /// Encrypt one 8-byte block in place.  The last clause holds Blowfish's
    /// own promise against this block: decrypting the result under the same
    /// key yields the block back.
    pub fn encrypt_block(&self, block: &mut [u8; 8])
        ensures
            final(block)@ == spec_compat_encrypt(self.key@, old(block)@),
            spec_compat_decrypt(self.key@, final(block)@) == old(block)@,
    {
        let ghost b0 = block@;
        reverse_words(block);
        blowfish_encrypt_block(&self.key, block);
        let ghost e = block@;
        reverse_words(block);
        proof {
            lemma_reverse_words_involution(e);
            lemma_reverse_words_involution(b0);
        }
    }

    /// Decrypt one 8-byte block in place.
    pub fn decrypt_block(&self, block: &mut [u8; 8])
        ensures
            final(block)@ == spec_compat_decrypt(self.key@, old(block)@),
    {
        reverse_words(block);
        blowfish_decrypt_block(&self.key, block);
        reverse_words(block);
    }
}

} // verus!
