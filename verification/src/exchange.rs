//! The Diffie-Hellman-flavoured key agreement.
//!
//! All values are 32-bit; exponentiation runs modulo a 32-bit prime with
//! 64-bit intermediates.  An `Exchange` accumulates the agreement's
//! parameters; once the remote public value is known the shared secret, the
//! challenge signatures and the keys can be derived.  The two `Challenge`
//! roles differ only in the argument order of their signature and key
//! derivations, which is exactly what lets each side verify the other.

use crate::blowfish::{spec_compat_encrypt, BlowfishCompat};
use vstd::arithmetic::div_mod::{
    lemma_mod_bound, lemma_mul_mod_noop_left, lemma_mul_mod_noop_right,
};
use vstd::arithmetic::power::{
    lemma_pow0, lemma_pow1, lemma_pow_adds, lemma_pow_mod_noop, lemma_pow_multiplies,
    lemma_square_is_pow2, pow,
};
use vstd::assert_seqs_equal;
use vstd::bytes::{spec_u32_to_le_bytes, u32_to_le_bytes};
use vstd::prelude::*;

verus! {

/// A signature that is used to verify a successful secret exchange.
pub type Signature = [u8; 8];

/// A key that initialises the byte-swapped Blowfish cipher.
pub type Key = [u8; 8];

/// `g^x mod p`, with the protocol's convention that a zero exponent yields
/// 1 whatever `p` is.
pub open spec fn spec_modexp(g: u32, x: u32, p: u32) -> int
    recommends
        x == 0 || p > 0,
{
    if x == 0 {
        1
    } else {
        pow(g as int, x as nat) % (p as int)
    }
}

/// Raise `g` to the power `x` modulo `p` by square-and-multiply, with the
/// convention that `x == 0` yields 1 for every `p`.
pub fn g_pow_x_mod_p(g: u32, x: u32, p: i64) -> (r: u32)
    requires
        x == 0 || 0 < p <= 0xFFFF_FFFF,
    ensures
        r == spec_modexp(g, x, p as u32),
{
    if x == 0 {
        return 1;
    }
    let p64: u64 = p as u64;
    let mut current: u64 = 1;
    let mut mult: u64 = (g as u64) % p64;
    let mut xx: u32 = x;

    proof {
        lemma_mod_bound(g as int, p64 as int);
        lemma_pow_mod_noop(g as int, x as nat, p64 as int);
    }

    while xx != 0
        invariant
            0 < p64 <= 0xFFFF_FFFF,
            p64 == p as u64,
            current < p64 || (current == 1 && xx > 0),
            mult < p64,
            (current as int * pow(mult as int, xx as nat)) % (p64 as int)
                == pow(g as int, x as nat) % (p64 as int),
        decreases xx,
    {
        let ghost c = current as int;
        let ghost m = mult as int;
        let ghost pp = p64 as int;
        let ghost n = xx as nat;
        let ghost k = (xx >> 1) as nat;
        let ghost b = (xx & 1) as nat;
        proof {
            let xv = xx;
            assert(xv >> 1 == xv / 2 && (xv & 1) == xv % 2) by (bit_vector);
            assert(n == 2 * k + b && b < 2);
        }

        if xx & 1 > 0 {
            proof {
                if current < p64 {
                    assert(mult * current < p64 * p64) by (nonlinear_arith)
                        requires
                            mult < p64 && current < p64 && current >= 0 && mult >= 0,
                    ;
                }
                assert(p64 * p64 <= 0xFFFF_FFFFu64 * 0xFFFF_FFFFu64) by (nonlinear_arith)
                    requires
                        0 < p64 <= 0xFFFF_FFFFu64,
                ;
            }
            current = (mult * current) % p64;
        }
        xx = xx >> 1;
        proof {
            assert(mult * mult < p64 * p64) by (nonlinear_arith)
                requires
                    mult < p64 && mult >= 0,
            ;
            assert(p64 * p64 <= 0xFFFF_FFFFu64 * 0xFFFF_FFFFu64) by (nonlinear_arith)
                requires
                    0 < p64 <= 0xFFFF_FFFFu64,
            ;
        }
        mult = (mult * mult) % p64;

        proof {
            let c2 = current as int;
            let m2 = mult as int;
            assert(m2 == (m * m) % pp);
            // pow(m, n) == pow(m, b) * pow(m * m, k)
            lemma_pow_adds(m, b, (2 * k) as nat);
            lemma_pow_multiplies(m, 2, k);
            lemma_square_is_pow2(m);
            assert(pow(m, n) == pow(m, b) * pow(m * m, k));
            // Push the squared multiplier behind the modulus.
            lemma_pow_mod_noop(m * m, k, pp);
            assert(pow(m2, k) % pp == pow(m * m, k) % pp);
            if b == 1 {
                lemma_pow1(m);
                assert(pow(m, n) == m * pow(m * m, k));
                assert(c2 == (m * c) % pp);
                lemma_mul_mod_noop_left(m * c, pow(m2, k), pp);
                lemma_mul_mod_noop_right(m * c, pow(m2, k), pp);
                lemma_mul_mod_noop_right(m * c, pow(m * m, k), pp);
                assert((c2 * pow(m2, k)) % pp == ((m * c) * pow(m * m, k)) % pp);
                assert((m * c) * pow(m * m, k) == c * pow(m, n)) by (nonlinear_arith)
                    requires
                        pow(m, n) == m * pow(m * m, k),
                ;
                assert((c2 * pow(m2, k)) % pp == (c * pow(m, n)) % pp);
            } else {
                lemma_pow0(m);
                assert(pow(m, n) == pow(m * m, k));
                assert(c2 == c);
                lemma_mul_mod_noop_right(c, pow(m2, k), pp);
                lemma_mul_mod_noop_right(c, pow(m * m, k), pp);
                assert((c2 * pow(m2, k)) % pp == (c * pow(m, n)) % pp);
            }
        }
    }
    proof {
        lemma_pow0(mult as int);
        vstd::arithmetic::div_mod::lemma_small_mod(current as nat, p64 as nat);
    }
    current as u32
}

/// Every base raised to the zero exponent yields 1, whatever the modulus:
/// the protocol's convention, stated as a law over the derivation.
pub proof fn lemma_modexp_zero_exponent(g: u32, p: u32)
    ensures
        spec_modexp(g, 0, p) == 1,
{
}

/// Shared-secret symmetry: raising the other side's public value to one's
/// own private exponent lands both sides on the same value, for every
/// choice of generator, positive modulus and private exponents.
pub proof fn lemma_shared_secret_symmetric(g: u32, p: u32, xa: u32, xb: u32)
    requires
        p > 0,
        xa > 0,
        xb > 0,
    ensures
        ({
            let pub_a = spec_modexp(g, xa, p);
            let pub_b = spec_modexp(g, xb, p);
            spec_modexp(pub_b as u32, xa, p) == spec_modexp(pub_a as u32, xb, p)
        }),
{
    let gi = g as int;
    let pp = p as int;
    let a = xa as nat;
    let b = xb as nat;
    lemma_mod_bound(pow(gi, a), pp);
    lemma_mod_bound(pow(gi, b), pp);
    let pub_a = pow(gi, a) % pp;
    let pub_b = pow(gi, b) % pp;
    assert(pub_a == spec_modexp(g, xa, p) && pub_b == spec_modexp(g, xb, p));
    assert(pub_a as u32 == pub_a && pub_b as u32 == pub_b);
    lemma_pow_mod_noop(pow(gi, b), a, pp);
    lemma_pow_mod_noop(pow(gi, a), b, pp);
    lemma_pow_multiplies(gi, b, a);
    lemma_pow_multiplies(gi, a, b);
    assert(b * a == a * b) by (nonlinear_arith);
    assert(pow(pub_b, a) % pp == pow(gi, (b * a)) % pp);
    assert(pow(pub_a, b) % pp == pow(gi, (a * b)) % pp);
}

/// The key byte folded into position `i` of an 8-byte transform: byte
/// `i mod 4` of the 32-bit key.
pub open spec fn spec_key_byte(key: u32, i: int) -> u8 {
    ((key >> ((8 * (i % 4)) as u32)) & 0xFF) as u8
}

/// One byte of the obfuscation transform: the byte is replaced by itself
/// xored with the wrapping sum of itself, its key byte and the tweak.
pub open spec fn spec_transform_byte(v: u8, key_byte: u8, tweak: u8) -> u8 {
    v ^ v.wrapping_add(key_byte).wrapping_add(tweak)
}

/// The 8-byte obfuscation transform under a 32-bit key and a tweak byte.
pub open spec fn spec_transform(s: Seq<u8>, key: u32, tweak: u8) -> Seq<u8>
    recommends
        s.len() == 8,
{
    Seq::new(8, |i: int| spec_transform_byte(s[i], spec_key_byte(key, i), tweak))
}

/// Obfuscate an 8-byte buffer in place: each byte is xored with the
/// wrapping sum of itself, the matching byte of `key` and `key_byte`.
pub fn transform_value(value: &mut [u8; 8], key: u32, key_byte: u8)
    ensures
        final(value)@ == spec_transform(old(value)@, key, key_byte),
{
    let k0 = ((key >> 0) & 0xFF) as u8;
    let k1 = ((key >> 8) & 0xFF) as u8;
    let k2 = ((key >> 16) & 0xFF) as u8;
    let k3 = ((key >> 24) & 0xFF) as u8;

    value[0] = value[0] ^ value[0].wrapping_add(k0).wrapping_add(key_byte);
    value[1] = value[1] ^ value[1].wrapping_add(k1).wrapping_add(key_byte);
    value[2] = value[2] ^ value[2].wrapping_add(k2).wrapping_add(key_byte);
    value[3] = value[3] ^ value[3].wrapping_add(k3).wrapping_add(key_byte);
    value[4] = value[4] ^ value[4].wrapping_add(k0).wrapping_add(key_byte);
    value[5] = value[5] ^ value[5].wrapping_add(k1).wrapping_add(key_byte);
    value[6] = value[6] ^ value[6].wrapping_add(k2).wrapping_add(key_byte);
    value[7] = value[7] ^ value[7].wrapping_add(k3).wrapping_add(key_byte);
    proof {
        assert_seqs_equal!(value@ == spec_transform(old(value)@, key, key_byte));
    }
}

/// An 8-byte buffer holding two 32-bit values little-endian, obfuscated
/// under the shared secret with the given tweak byte.
pub open spec fn spec_packed_transform(shared: u32, a: u32, b: u32, tweak: u8) -> Seq<u8> {
    spec_transform(spec_u32_to_le_bytes(a) + spec_u32_to_le_bytes(b), shared, tweak)
}

/// The challenge signature over `(secret1, secret2)` under a shared secret:
/// the two values little-endian, transformed with tweak `secret1 & 7`.
pub open spec fn spec_signature(shared: u32, secret1: u32, secret2: u32) -> Seq<u8> {
    spec_packed_transform(shared, secret1, secret2, (secret1 & 7) as u8)
}

/// The intermediary key over `(secret1, secret2)` under a shared secret:
/// the two values little-endian, transformed with tweak `shared & 3`.
pub open spec fn spec_intermediary(shared: u32, secret1: u32, secret2: u32) -> Seq<u8> {
    spec_packed_transform(shared, secret1, secret2, (shared & 3) as u8)
}

/// Pack two 32-bit values little-endian into an 8-byte buffer and
/// obfuscate it under the shared secret with the given tweak.
fn packed_transform(shared: u32, a: u32, b: u32, tweak: u8) -> (r: [u8; 8])
    ensures
        r@ == spec_packed_transform(shared, a, b, tweak),
{
    let a_bytes = u32_to_le_bytes(a);
    let b_bytes = u32_to_le_bytes(b);
    let mut buf: [u8; 8] = [0; 8];
    buf[0] = a_bytes[0];
    buf[1] = a_bytes[1];
    buf[2] = a_bytes[2];
    buf[3] = a_bytes[3];
    buf[4] = b_bytes[0];
    buf[5] = b_bytes[1];
    buf[6] = b_bytes[2];
    buf[7] = b_bytes[3];
    proof {
        assert_seqs_equal!(buf@ == spec_u32_to_le_bytes(a) + spec_u32_to_le_bytes(b));
    }
    transform_value(&mut buf, shared, tweak);
    buf
}

/// The signature that verifies a successful secret exchange: `secret1` and
/// `secret2` packed little-endian, transformed with tweak `secret1 & 7`.
pub fn calculate_signature(shared_secret: u32, secret1: u32, secret2: u32) -> (r: Signature)
    ensures
        r@ == spec_signature(shared_secret, secret1, secret2),
{
    packed_transform(shared_secret, secret1, secret2, (secret1 & 7) as u8)
}

/// The intermediary Blowfish key of the challenge phase: `secret1` and
/// `secret2` packed little-endian, transformed with tweak `shared & 3`.
pub fn calculate_key(shared_secret: u32, secret1: u32, secret2: u32) -> (r: Key)
    ensures
        r@ == spec_intermediary(shared_secret, secret1, secret2),
{
    packed_transform(shared_secret, secret1, secret2, (shared_secret & 3) as u8)
}

/// Marker for an exchange whose remote public value is not yet known.
#[derive(Clone, Copy, Debug)]
pub struct NotSet;

/// The remote public value, once known.
#[derive(Clone, Copy, Debug)]
pub struct RemoteSet(pub u32);

/// The in-flight state of one side's key agreement: the 8-byte initial key,
/// the public parameters, the local private exponent, and (by type state)
/// the remote public value once it is known.
#[derive(Clone, Copy, Debug)]
pub struct Exchange<TRemote> {
    /// The 8-byte initial key the final key is derived from.
    pub initial: Key,
    /// The generator `g`.
    pub generator: u32,
    /// The modulus `p`.
    pub prime: u32,
    /// The local private exponent.
    pub private: u32,
    /// The remote public value, or a marker that it is not yet known.
    pub remote: TRemote,
}

impl<TRemote> Exchange<TRemote> {
    /// The exponentiations this exchange makes are defined: a zero modulus
    /// is only tolerated beside a zero private exponent.
    pub open spec fn wf(&self) -> bool {
        self.private == 0 || self.prime > 0
    }

    /// The local public value `g^private mod p`.
    pub open spec fn spec_local(&self) -> u32 {
        spec_modexp(self.generator, self.private, self.prime) as u32
    }

    /// This exchange with the initial key replaced.
    pub fn set_initial(self, initial: Key) -> (r: Self)
        ensures
            r.initial == initial,
            r.generator == self.generator,
            r.prime == self.prime,
            r.private == self.private,
            r.remote == self.remote,
    {
        Self { initial, ..self }
    }

    /// The initial key.
    pub fn get_initial(&self) -> (r: Key)
        ensures
            r == self.initial,
    {
        self.initial
    }

    /// This exchange with the generator replaced.
    pub fn set_generator(self, generator: u32) -> (r: Self)
        ensures
            r.generator == generator,
            r.initial == self.initial,
            r.prime == self.prime,
            r.private == self.private,
            r.remote == self.remote,
    {
        Self { generator, ..self }
    }

    /// The generator.
    pub fn get_generator(&self) -> (r: u32)
        ensures
            r == self.generator,
    {
        self.generator
    }

    /// This exchange with the modulus replaced.
    pub fn set_prime(self, prime: u32) -> (r: Self)
        ensures
            r.prime == prime,
            r.initial == self.initial,
            r.generator == self.generator,
            r.private == self.private,
            r.remote == self.remote,
    {
        Self { prime, ..self }
    }

    /// The modulus.
    pub fn get_prime(&self) -> (r: u32)
        ensures
            r == self.prime,
    {
        self.prime
    }

    /// This exchange with the private exponent replaced.
    pub fn set_private(self, private: u32) -> (r: Self)
        ensures
            r.private == private,
            r.initial == self.initial,
            r.generator == self.generator,
            r.prime == self.prime,
            r.remote == self.remote,
    {
        Self { private, ..self }
    }

    /// The local public value `g^private mod p`.
    pub fn get_local(&self) -> (r: u32)
        requires
            self.wf(),
        ensures
            r == self.spec_local(),
    {
        proof {
            if self.private != 0 {
                lemma_mod_bound(
                    pow(self.generator as int, self.private as nat),
                    self.prime as int,
                );
            }
        }
        g_pow_x_mod_p(self.generator, self.private, self.prime as i64)
    }
}

impl Exchange<NotSet> {
    /// Record the remote public value, moving to the completed type state.
    pub fn remote(self, remote: u32) -> (r: Exchange<RemoteSet>)
        ensures
            r.remote.0 == remote,
            r.initial == self.initial,
            r.generator == self.generator,
            r.prime == self.prime,
            r.private == self.private,
    {
        Exchange {
            remote: RemoteSet(remote),
            generator: self.generator,
            initial: self.initial,
            prime: self.prime,
            private: self.private,
        }
    }
}

impl Default for Exchange<NotSet> {
    /// An exchange with all parameters zero and no remote public value.
    fn default() -> (r: Self)
        ensures
            r.initial@ == Seq::<u8>::empty().push(0).push(0).push(0).push(0).push(0).push(0)
                .push(0).push(0),
            r.generator == 0,
            r.prime == 0,
            r.private == 0,
    {
        let initial: Key = [0; 8];
        proof {
            assert_seqs_equal!(initial@ ==
                Seq::<u8>::empty().push(0).push(0).push(0).push(0).push(0).push(0).push(0)
                .push(0));
        }
        Exchange { initial, generator: 0, prime: 0, private: 0, remote: NotSet }
    }
}

impl Exchange<RemoteSet> {
    /// The shared secret `remote^private mod p`.
    pub open spec fn spec_shared(&self) -> u32 {
        spec_modexp(self.remote.0, self.private, self.prime) as u32
    }

    /// The remote public value.
    pub fn remote(&self) -> (r: u32)
        ensures
            r == self.remote.0,
    {
        self.remote.0
    }

    /// The shared secret `remote^private mod p`.
    pub fn shared(&self) -> (r: u32)
        requires
            self.wf(),
        ensures
            r == self.spec_shared(),
    {
        proof {
            if self.private != 0 {
                lemma_mod_bound(pow(self.remote.0 as int, self.private as nat), self.prime as int);
            }
        }
        g_pow_x_mod_p(self.remote.0, self.private, self.prime as i64)
    }
}

/// The failure of a challenge signature comparison.
#[derive(Clone, Copy, Debug, PartialEq, Eq, Structural)]
pub struct ChallengeMismatch;

/// The signature a side creates for the other to verify: the local and
/// remote public values signed under the shared secret, then encrypted
/// under the role's intermediary key.
pub open spec fn spec_created_challenge(chal_key: Seq<u8>, e: Exchange<RemoteSet>) -> Seq<u8> {
    spec_compat_encrypt(chal_key, spec_signature(e.spec_shared(), e.spec_local(), e.remote.0))
}

/// The ciphertext a side compares a received challenge against: the remote
/// and local public values (in that order) signed under the shared secret,
/// then encrypted under the role's intermediary key.
pub open spec fn spec_expected_challenge(chal_key: Seq<u8>, e: Exchange<RemoteSet>) -> Seq<u8> {
    spec_compat_encrypt(chal_key, spec_signature(e.spec_shared(), e.remote.0, e.spec_local()))
}

/// The final key: the initial key transformed under the shared secret with
/// tweak 3.
pub open spec fn spec_final_key(e: Exchange<RemoteSet>) -> Seq<u8> {
    spec_transform(e.initial@, e.spec_shared(), 3)
}

/// Whether two 8-byte buffers hold the same bytes.
fn bytes8_equal(a: &[u8; 8], b: &[u8; 8]) -> (r: bool)
    ensures
        r == (a@ == b@),
{
    let r = a[0] == b[0] && a[1] == b[1] && a[2] == b[2] && a[3] == b[3] && a[4] == b[4]
        && a[5] == b[5] && a[6] == b[6] && a[7] == b[7];
    proof {
        if r {
            assert_seqs_equal!(a@ == b@);
        }
    }
    r
}

/// Create the challenge signature of a role whose intermediary key is
/// `key`: sign `(local, remote)` under the shared secret and encrypt it.
fn challenge_create_with_key(context: &Exchange<RemoteSet>, key: &Key) -> (r: Signature)
    requires
        context.wf(),
    ensures
        r@ == spec_created_challenge(key@, *context),
{
    let mut signature = calculate_signature(
        context.shared(),
        context.get_local(),
        context.remote(),
    );
    let blowfish = BlowfishCompat::new(*key);
    blowfish.encrypt_block(&mut signature);
    signature
}

/// Verify a received challenge against a role whose intermediary key is
/// `key`: recompute the signature over `(remote, local)`, encrypt it, and
/// compare ciphertext to ciphertext.
fn challenge_verify_with_key(context: &Exchange<RemoteSet>, key: &Key, challenge: Signature) -> (r:
    Result<(), ChallengeMismatch>)
    requires
        context.wf(),
    ensures
        r is Ok <==> challenge@ == spec_expected_challenge(key@, *context),
{
    let mut signature = calculate_signature(
        context.shared(),
        context.remote(),
        context.get_local(),
    );
    let blowfish = BlowfishCompat::new(*key);
    blowfish.encrypt_block(&mut signature);
    if bytes8_equal(&signature, &challenge) {
        Ok(())
    } else {
        Err(ChallengeMismatch)
    }
}

/// Derive the final key: the initial key transformed under the shared
/// secret with tweak 3.
fn challenge_finalize(context: &Exchange<RemoteSet>) -> (r: Key)
    requires
        context.wf(),
    ensures
        r@ == spec_final_key(*context),
{
    let shared = context.shared();
    let mut initial = context.get_initial();
    transform_value(&mut initial, shared, 3);
    initial
}

/// One role of the mutual challenge.  The two roles differ only in the
/// argument order of their intermediary-key derivation; creation, checking
/// and finalisation follow the same shape on both sides.
pub trait Challenge {
    /// The intermediary key this role encrypts challenge signatures with.
    spec fn spec_chal_key(context: Exchange<RemoteSet>) -> Seq<u8>;

    /// Derive this role's intermediary key.
    fn key(context: &Exchange<RemoteSet>) -> (r: Key)
        requires
            context.wf(),
        ensures
            r@ == Self::spec_chal_key(*context),
    ;

    /// Create the challenge signature this role places on the wire.
    fn create(context: &Exchange<RemoteSet>) -> (r: Signature)
        requires
            context.wf(),
        ensures
            r@ == spec_created_challenge(Self::spec_chal_key(*context), *context),
    ;

    /// Verify a received challenge signature, comparing ciphertext to
    /// ciphertext.
    fn verify(context: &Exchange<RemoteSet>, challenge: Signature) -> (r: Result<
        (),
        ChallengeMismatch,
    >)
        requires
            context.wf(),
        ensures
            r is Ok <==> challenge@ == spec_expected_challenge(
                Self::spec_chal_key(*context),
                *context,
            ),
    ;

    /// Derive the final key both sides re-key their cipher to.
    fn finalize(context: &Exchange<RemoteSet>) -> (r: Key)
        requires
            context.wf(),
        ensures
            r@ == spec_final_key(*context),
    ;
}

/// The endpoint that opens the handshake and sends the setup.
pub struct Initiator;

/// The endpoint that answers a received setup.
pub struct Responder;

impl Challenge for Initiator {
    /// The initiator's intermediary key orders the publics (local, remote).
    open spec fn spec_chal_key(context: Exchange<RemoteSet>) -> Seq<u8> {
        spec_intermediary(context.spec_shared(), context.spec_local(), context.remote.0)
    }

    fn key(context: &Exchange<RemoteSet>) -> (r: Key) {
        calculate_key(context.shared(), context.get_local(), context.remote())
    }

    fn create(context: &Exchange<RemoteSet>) -> (r: Signature) {
        let key = Self::key(context);
        challenge_create_with_key(context, &key)
    }

    fn verify(context: &Exchange<RemoteSet>, challenge: Signature) -> (r: Result<
        (),
        ChallengeMismatch,
    >) {
        let key = Self::key(context);
        challenge_verify_with_key(context, &key, challenge)
    }

    fn finalize(context: &Exchange<RemoteSet>) -> (r: Key) {
        challenge_finalize(context)
    }
}

impl Challenge for Responder {
    /// The responder's intermediary key orders the publics (remote, local).
    open spec fn spec_chal_key(context: Exchange<RemoteSet>) -> Seq<u8> {
        spec_intermediary(context.spec_shared(), context.remote.0, context.spec_local())
    }

    fn key(context: &Exchange<RemoteSet>) -> (r: Key) {
        calculate_key(context.shared(), context.remote(), context.get_local())
    }

    fn create(context: &Exchange<RemoteSet>) -> (r: Signature) {
        let key = Self::key(context);
        challenge_create_with_key(context, &key)
    }

    fn verify(context: &Exchange<RemoteSet>, challenge: Signature) -> (r: Result<
        (),
        ChallengeMismatch,
    >) {
        let key = Self::key(context);
        challenge_verify_with_key(context, &key, challenge)
    }

    fn finalize(context: &Exchange<RemoteSet>) -> (r: Key) {
        challenge_finalize(context)
    }
}

/// The two paired exchange contexts of one agreement: same parameters and
/// initial key, each side holding its own private exponent and the other
/// side's public value.
pub open spec fn spec_paired_contexts(
    initial: Key,
    g: u32,
    p: u32,
    xa: u32,
    xb: u32,
    a_side: Exchange<RemoteSet>,
    b_side: Exchange<RemoteSet>,
) -> bool {
    let pub_a = spec_modexp(g, xa, p) as u32;
    let pub_b = spec_modexp(g, xb, p) as u32;
    &&& a_side == (Exchange {
        initial,
        generator: g,
        prime: p,
        private: xa,
        remote: RemoteSet(pub_b),
    })
    &&& b_side == (Exchange {
        initial,
        generator: g,
        prime: p,
        private: xb,
        remote: RemoteSet(pub_a),
    })
}

/// Both paired endpoints land on the same shared secret.
pub proof fn lemma_paired_shared_secret(
    initial: Key,
    g: u32,
    p: u32,
    xa: u32,
    xb: u32,
    a_side: Exchange<RemoteSet>,
    b_side: Exchange<RemoteSet>,
)
    requires
        p > 0,
        xa > 0,
        xb > 0,
        spec_paired_contexts(initial, g, p, xa, xb, a_side, b_side),
    ensures
        a_side.spec_shared() == b_side.spec_shared(),
        a_side.spec_local() == b_side.remote.0,
        b_side.spec_local() == a_side.remote.0,
{
    lemma_shared_secret_symmetric(g, p, xa, xb);
    lemma_mod_bound(pow(g as int, xa as nat), p as int);
    lemma_mod_bound(pow(g as int, xb as nat), p as int);
    lemma_mod_bound(pow(a_side.remote.0 as int, xa as nat), p as int);
    lemma_mod_bound(pow(b_side.remote.0 as int, xb as nat), p as int);
}

/// Challenge mutuality: for any parameters, private exponents and initial
/// key (positive modulus and exponents), the challenge either role creates
/// is exactly the ciphertext the opposite role's check recomputes, in both
/// directions.
pub proof fn lemma_challenge_mutuality(
    initial: Key,
    g: u32,
    p: u32,
    xa: u32,
    xb: u32,
    a_side: Exchange<RemoteSet>,
    b_side: Exchange<RemoteSet>,
)
    requires
        p > 0,
        xa > 0,
        xb > 0,
        spec_paired_contexts(initial, g, p, xa, xb, a_side, b_side),
    ensures
        spec_created_challenge(<Initiator as Challenge>::spec_chal_key(a_side), a_side)
            == spec_expected_challenge(<Responder as Challenge>::spec_chal_key(b_side), b_side),
        spec_created_challenge(<Responder as Challenge>::spec_chal_key(b_side), b_side)
            == spec_expected_challenge(<Initiator as Challenge>::spec_chal_key(a_side), a_side),
{
    lemma_paired_shared_secret(initial, g, p, xa, xb, a_side, b_side);
}

/// Final-key symmetry: both endpoints of one agreement derive the same
/// final key from the shared initial key.
pub proof fn lemma_final_key_symmetry(
    initial: Key,
    g: u32,
    p: u32,
    xa: u32,
    xb: u32,
    a_side: Exchange<RemoteSet>,
    b_side: Exchange<RemoteSet>,
)
    requires
        p > 0,
        xa > 0,
        xb > 0,
        spec_paired_contexts(initial, g, p, xa, xb, a_side, b_side),
    ensures
        spec_final_key(a_side) == spec_final_key(b_side),
{
    lemma_paired_shared_secret(initial, g, p, xa, xb, a_side, b_side);
}

} // verus!
