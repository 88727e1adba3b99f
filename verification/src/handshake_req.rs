//! The setup-handling side of the handshake.
//!
//! This processor answers `NetEngine/Req/0`.  A setup message configures
//! the connection's security from the options byte: an optional cipher
//! key, optional integrity seeds, and optionally the 20-byte exchange
//! block, which it answers with its own public value and an encrypted
//! signature while keeping the secret context for the challenge that
//! follows.  A challenge message is checked against that context; on a
//! match the cipher is re-keyed to the final key and the handshake is
//! acknowledged.

use crate::blowfish::spec_compat_encrypt;
use crate::exchange::{spec_intermediary, spec_modexp, spec_signature, spec_transform};
use crate::handshake::{
    spec_opt_challenge, spec_opt_encryption, spec_opt_error_detection, spec_opt_exchange,
    ExchangeResponse, HandshakeOptions,
};
use crate::message::{Header, Message, MessageDirection, MessageId, MessageKind};
use crate::reader::{spec_u32_at, Reader};
use crate::secret_context::{BlowfishKey, SecretContext};
use crate::security::{Security, SecurityBuilder};
use vstd::assert_seqs_equal;
use vstd::prelude::*;

verus! {

/// The failures of handshake processing; each one closes the connection.
#[derive(Clone, Copy, Debug, PartialEq, Eq, Structural)]
pub enum HandshakeError {
    /// The body is too short for what its options promise.
    Malformed,
    /// A challenge arrived with no secret context to check it against.
    MissingContext,
    /// An exchange whose parameters leave the arithmetic undefined.
    BadParameters,
    /// The received signature does not match the recomputed one.
    SignatureMismatch,
    /// A handshake message that its state machine does not expect.
    UnexpectedState,
}

/// What a processed handshake message asks the connection to do: replace
/// its security block, re-key its cipher, and send the response.
#[derive(Debug)]
pub struct HandshakeStep {
    /// A security block to install, if the step configures one.
    pub security: Option<Security>,
    /// A final key to re-key the cipher with, if the step derives one.
    pub rekey: Option<BlowfishKey>,
    /// The message to send back.
    pub response: Message,
}

/// An 8-byte block encrypted under a security block's cipher, or left
/// alone when none is installed.
pub open spec fn spec_security_encrypt8(s: Security, block: Seq<u8>) -> Seq<u8> {
    if s.blowfish is Some {
        spec_compat_encrypt(s.blowfish->0.key@, block)
    } else {
        block
    }
}

/// Bytes the encryption option consumes in a setup body.
pub open spec fn spec_enc_len(options: u8) -> int {
    if spec_opt_encryption(options) {
        8
    } else {
        0
    }
}

/// Bytes the error-detection option consumes in a setup body.
pub open spec fn spec_ed_len(options: u8) -> int {
    if spec_opt_error_detection(options) {
        8
    } else {
        0
    }
}

/// Bytes the exchange option consumes in a setup body.
pub open spec fn spec_ex_len(options: u8) -> int {
    if spec_opt_exchange(options) {
        20
    } else {
        0
    }
}

/// The length a setup body must reach for its options.
pub open spec fn spec_setup_needed(options: u8) -> int {
    1 + spec_enc_len(options) + spec_ed_len(options) + spec_ex_len(options)
}

/// Where the exchange block starts in a setup body.
pub open spec fn spec_ex_at(options: u8) -> int {
    1 + spec_enc_len(options) + spec_ed_len(options)
}

/// The generator of the exchange block in a setup body.
pub open spec fn spec_body_generator(b: Seq<u8>) -> u32 {
    spec_u32_at(b, spec_ex_at(b[0]) + 8)
}

/// The modulus of the exchange block in a setup body.
pub open spec fn spec_body_prime(b: Seq<u8>) -> u32 {
    spec_u32_at(b, spec_ex_at(b[0]) + 12)
}

/// The remote public value of the exchange block in a setup body.
pub open spec fn spec_body_public(b: Seq<u8>) -> u32 {
    spec_u32_at(b, spec_ex_at(b[0]) + 16)
}

/// The initial key of the exchange block in a setup body.
pub open spec fn spec_body_initial(b: Seq<u8>) -> Seq<u8> {
    b.subrange(spec_ex_at(b[0]), spec_ex_at(b[0]) + 8)
}

/// The local public value the exchange in a setup body leads to.
pub open spec fn spec_reply_local(b: Seq<u8>, private: u32) -> u32 {
    spec_modexp(spec_body_generator(b), private, spec_body_prime(b)) as u32
}

/// The shared secret the exchange in a setup body leads to.
pub open spec fn spec_reply_shared(b: Seq<u8>, private: u32) -> u32 {
    spec_modexp(spec_body_public(b), private, spec_body_prime(b)) as u32
}

/// The intermediary key the exchange in a setup body leads to: the remote
/// and local publics keyed under the shared secret.
pub open spec fn spec_reply_key(b: Seq<u8>, private: u32) -> Seq<u8> {
    spec_intermediary(spec_reply_shared(b, private), spec_body_public(b), spec_reply_local(
        b,
        private,
    ))
}

/// The response body the exchange in a setup body leads to: the local
/// public value, then the local signature encrypted under the
/// intermediary key.
pub open spec fn spec_reply_body(b: Seq<u8>, private: u32) -> Seq<u8> {
    vstd::bytes::spec_u32_to_le_bytes(spec_reply_local(b, private)) + spec_compat_encrypt(
        spec_reply_key(b, private),
        spec_signature(
            spec_reply_shared(b, private),
            spec_reply_local(b, private),
            spec_body_public(b),
        ),
    )
}

/// The handshake acknowledgement: `NetEngine/Ack/0` with an empty body.
pub open spec fn spec_ack_message(m: crate::message::MessageView) -> bool {
    &&& m.header.size == 0
    &&& m.header.id.0 == 0x9000
    &&& m.header.sequence == 0
    &&& m.header.checksum == 0
    &&& m.data.len() == 0
}

/// Copy an 8-byte vector into a key array.
pub(crate) fn to_key(v: &Vec<u8>) -> (r: [u8; 8])
    requires
        v@.len() == 8,
    ensures
        r@ == v@,
{
    let r: [u8; 8] = [v[0], v[1], v[2], v[3], v[4], v[5], v[6], v[7]];
    proof {
        assert_seqs_equal!(r@ == v@);
    }
    r
}

/// Build the handshake acknowledgement message.
fn ack_message() -> (r: Message)
    ensures
        spec_ack_message(r@),
{
    proof {
        assert((2u16 << 14) | (1u16 << 12) | 0u16 == 0x9000u16) by (bit_vector);
    }
    Message::new(MessageDirection::Ack, MessageKind::NetEngine, 0, Vec::new())
}

/// Answers handshake requests on the connection that receives the setup:
/// configures security, answers the exchange, and checks the challenge.
#[derive(Debug)]
pub struct HandshakeReqProcessor {
    /// The in-flight exchange state, once a setup with `exchange` arrived.
    pub secret_context: Option<SecretContext>,
}

impl Default for HandshakeReqProcessor {
    /// A processor with no exchange in flight.
    fn default() -> (r: Self)
        ensures
            r.secret_context is None,
    {
        HandshakeReqProcessor { secret_context: None }
    }
}

impl HandshakeReqProcessor {
    /// Process one `NetEngine/Req/0` message, either the setup or the
    /// challenge, with `fresh_private` as the locally drawn private
    /// exponent and `security` the connection's current security block.
    pub fn process(&mut self, message: &Message, fresh_private: u32, security: &Security) -> (r:
        Result<HandshakeStep, HandshakeError>)
        ensures
            ({
                let b = message@.data;
                if b.len() == 0 {
                    r == Err::<HandshakeStep, HandshakeError>(HandshakeError::Malformed)
                        && *final(self) == *old(self)
                } else if spec_opt_challenge(b[0]) {
                    old(self).spec_challenge_outcome(b, security, r) && *final(self) == *old(self)
                } else if b.len() < spec_setup_needed(b[0]) {
                    r == Err::<HandshakeStep, HandshakeError>(HandshakeError::Malformed)
                        && *final(self) == *old(self)
                } else if spec_opt_exchange(b[0]) {
                    &&& Self::spec_exchange_result(b, fresh_private, r)
                    &&& (r is Err ==> *final(self) == *old(self))
                    &&& (r is Ok ==> final(self).secret_context is Some
                        && Self::spec_context_from(b, fresh_private, final(self).secret_context->0))
                } else {
                    &&& *final(self) == *old(self)
                    &&& r is Ok
                    &&& r->Ok_0.rekey is None
                    &&& spec_ack_message(r->Ok_0.response@)
                    &&& Self::spec_plain_security(b, r->Ok_0.security)
                }
            }),
    {
        let body = crate::message::copy_byte_range(
            message.data.as_slice(),
            0,
            message.data.len(),
        );
        proof {
            assert_seqs_equal!(body@ == message@.data);
        }
        let mut reader = Reader::new(body);
        let options = match reader.get_u8() {
            Some(bits) => HandshakeOptions::from_bits(bits),
            None => {
                return Err(HandshakeError::Malformed);
            },
        };

        if options.challenge() {
            self.process_challenge(&mut reader, security)
        } else {
            let builder = SecurityBuilder::default();
            let builder = match self.handle_encryption(options, &mut reader, builder) {
                Ok(builder) => builder,
                Err(e) => {
                    return Err(e);
                },
            };
            let builder = match self.handle_error_detection(options, &mut reader, builder) {
                Ok(builder) => builder,
                Err(e) => {
                    return Err(e);
                },
            };
            if options.exchange() {
                self.handle_exchange(builder, &mut reader, fresh_private)
            } else {
                Ok(self.handle_no_exchange(builder))
            }
        }
    }

    /// What processing a challenge body yields, given the context this
    /// processor holds and the connection's security block.
    pub open spec fn spec_challenge_outcome(
        self,
        b: Seq<u8>,
        security: &Security,
        r: Result<HandshakeStep, HandshakeError>,
    ) -> bool
        recommends
            b.len() >= 1,
    {
        match self.secret_context {
            None => r == Err::<HandshakeStep, HandshakeError>(HandshakeError::MissingContext),
            Some(ctx) => {
                if ctx.private != 0 && ctx.prime == 0 {
                    r == Err::<HandshakeStep, HandshakeError>(HandshakeError::BadParameters)
                } else if ctx.remote_public is None {
                    r == Err::<HandshakeStep, HandshakeError>(HandshakeError::MissingContext)
                } else if b.len() < 9 {
                    r == Err::<HandshakeStep, HandshakeError>(HandshakeError::Malformed)
                } else {
                    let expected = spec_security_encrypt8(
                        *security,
                        spec_signature(ctx.spec_shared(), ctx.remote_public->0, ctx.spec_local()),
                    );
                    if b.subrange(1, 9) != expected {
                        r == Err::<HandshakeStep, HandshakeError>(HandshakeError::SignatureMismatch)
                    } else {
                        &&& r is Ok
                        &&& r->Ok_0.security is None
                        &&& r->Ok_0.rekey is Some
                        &&& r->Ok_0.rekey->0@ == spec_transform(
                            ctx.initial_key@,
                            ctx.spec_shared(),
                            3,
                        )
                        &&& spec_ack_message(r->Ok_0.response@)
                    }
                }
            },
        }
    }

    /// What processing an exchange setup answers: the security block
    /// carries the intermediary key and the seeds, and the response
    /// carries the local public value and the encrypted signature.
    pub open spec fn spec_exchange_result(
        b: Seq<u8>,
        private: u32,
        r: Result<HandshakeStep, HandshakeError>,
    ) -> bool
        recommends
            b.len() >= spec_setup_needed(b[0]),
    {
        if private != 0 && spec_body_prime(b) == 0 {
            r == Err::<HandshakeStep, HandshakeError>(HandshakeError::BadParameters)
        } else {
            &&& r is Ok
            &&& r->Ok_0.rekey is None
            &&& r->Ok_0.security is Some
            &&& {
                let s = r->Ok_0.security->0;
                &&& s.blowfish is Some
                &&& s.blowfish->0.key@ == spec_reply_key(b, private)
                &&& Self::spec_encoder_from(b, s)
            }
            &&& r->Ok_0.response@.header.id.0 == 0x5000
            &&& r->Ok_0.response@.header.size == 12
            &&& r->Ok_0.response@.header.sequence == 0
            &&& r->Ok_0.response@.header.checksum == 0
            &&& r->Ok_0.response@.data == spec_reply_body(b, private)
        }
    }

    /// The secret context an exchange setup stores.
    pub open spec fn spec_context_from(b: Seq<u8>, private: u32, ctx: SecretContext) -> bool
        recommends
            b.len() >= spec_setup_needed(b[0]),
    {
        &&& ctx.initial_key@ == spec_body_initial(b)
        &&& ctx.generator == spec_body_generator(b)
        &&& ctx.prime == spec_body_prime(b)
        &&& ctx.private == private
        &&& ctx.remote_public == Some(spec_body_public(b))
    }

    /// The encoder a setup body configures: seeds from the body when
    /// error detection is on (inbound traffic then validated), idle
    /// otherwise.
    pub open spec fn spec_encoder_from(b: Seq<u8>, s: Security) -> bool
        recommends
            b.len() >= 1,
    {
        if spec_opt_error_detection(b[0]) {
            let at = 1 + spec_enc_len(b[0]);
            &&& s.encoder.requirements.inbound
            &&& !s.encoder.requirements.outbound
            &&& s.encoder.sequencer == crate::sequencer::spec_sequencer_init(spec_u32_at(b, at))
            &&& s.encoder.checksum.seed == spec_u32_at(b, at + 4)
        } else {
            &&& !s.encoder.requirements.inbound
            &&& !s.encoder.requirements.outbound
            &&& s.encoder.sequencer == crate::sequencer::spec_sequencer_init(0)
            &&& s.encoder.checksum.seed == 0
        }
    }

    /// The security block a setup without exchange configures: the cipher
    /// from the encryption option's key, if that option is on.
    pub open spec fn spec_plain_security(b: Seq<u8>, s: Option<Security>) -> bool
        recommends
            b.len() >= 1,
    {
        &&& s is Some
        &&& (spec_opt_encryption(b[0]) ==> s->0.blowfish is Some && s->0.blowfish->0.key@
            == b.subrange(1, 9))
        &&& (!spec_opt_encryption(b[0]) ==> s->0.blowfish is None)
        &&& Self::spec_encoder_from(b, s->0)
    }

    /// Consume the encryption option's 8-byte key, if the option is on.
    fn handle_encryption(
        &self,
        options: HandshakeOptions,
        reader: &mut Reader,
        security_builder: SecurityBuilder,
    ) -> (r: Result<SecurityBuilder, HandshakeError>)
        requires
            old(reader).pos == 1,
        ensures
            final(reader).data == old(reader).data,
            ({
                let b = old(reader).data@;
                if !spec_opt_encryption(options.0) {
                    r == Ok::<SecurityBuilder, HandshakeError>(security_builder)
                        && final(reader).pos == 1
                } else if b.len() >= 9 {
                    &&& r is Ok
                    &&& r->Ok_0.key is Some
                    &&& r->Ok_0.key->0@ == b.subrange(1, 9)
                    &&& r->Ok_0.encoding_requirements == security_builder.encoding_requirements
                    &&& r->Ok_0.error_detection == security_builder.error_detection
                    &&& final(reader).pos == 9
                } else {
                    r == Err::<SecurityBuilder, HandshakeError>(HandshakeError::Malformed)
                }
            }),
    {
        if !options.encryption() {
            return Ok(security_builder);
        }
        match reader.get_bytes(8) {
            Some(key) => Ok(security_builder.blowfish(to_key(&key))),
            None => Err(HandshakeError::Malformed),
        }
    }

    /// Consume the error-detection option's two seeds, if the option is
    /// on; inbound traffic is then required to arrive encoded.
    fn handle_error_detection(
        &self,
        options: HandshakeOptions,
        reader: &mut Reader,
        security_builder: SecurityBuilder,
    ) -> (r: Result<SecurityBuilder, HandshakeError>)
        ensures
            final(reader).data == old(reader).data,
            ({
                let b = old(reader).data@;
                let at = old(reader).pos as int;
                if !spec_opt_error_detection(options.0) {
                    r == Ok::<SecurityBuilder, HandshakeError>(security_builder)
                        && final(reader).pos == old(reader).pos
                } else if at + 8 <= b.len() {
                    &&& r is Ok
                    &&& r->Ok_0.key == security_builder.key
                    &&& r->Ok_0.encoding_requirements == (true, false)
                    &&& r->Ok_0.error_detection == (spec_u32_at(b, at), spec_u32_at(b, at + 4))
                    &&& final(reader).pos == old(reader).pos + 8
                } else {
                    r == Err::<SecurityBuilder, HandshakeError>(HandshakeError::Malformed)
                }
            }),
    {
        if !options.error_detection() {
            return Ok(security_builder);
        }
        let sequence = match reader.get_u32_le() {
            Some(v) => v,
            None => {
                return Err(HandshakeError::Malformed);
            },
        };
        let checksum = match reader.get_u32_le() {
            Some(v) => v,
            None => {
                return Err(HandshakeError::Malformed);
            },
        };
        Ok(
            security_builder.encoding_requirements((true, false)).error_detection(
                (sequence, checksum),
            ),
        )
    }

    /// Consume the 20-byte exchange block, derive the secret context and
    /// the intermediary key, and build the response and the security
    /// block.
    fn handle_exchange(
        &mut self,
        security_builder: SecurityBuilder,
        reader: &mut Reader,
        fresh_private: u32,
    ) -> (r: Result<HandshakeStep, HandshakeError>)
        requires
            old(reader).data@.len() >= 1,
            old(reader).pos as int == spec_ex_at(old(reader).data@[0]),
            spec_opt_exchange(old(reader).data@[0]),
            security_builder.encoding_requirements == (
                spec_opt_error_detection(old(reader).data@[0]),
                false,
            ),
            security_builder.error_detection == if spec_opt_error_detection(
                old(reader).data@[0],
            ) {
                (
                    spec_u32_at(old(reader).data@, 1 + spec_enc_len(old(reader).data@[0])),
                    spec_u32_at(old(reader).data@, 5 + spec_enc_len(old(reader).data@[0])),
                )
            } else {
                (0u32, 0u32)
            },
        ensures
            old(reader).data@.len() < spec_setup_needed(old(reader).data@[0]) ==> r == Err::<
                HandshakeStep,
                HandshakeError,
            >(HandshakeError::Malformed),
            old(reader).data@.len() >= spec_setup_needed(old(reader).data@[0])
                ==> Self::spec_exchange_result(old(reader).data@, fresh_private, r),
            r is Err ==> *final(self) == *old(self),
            r is Ok ==> final(self).secret_context is Some && Self::spec_context_from(
                old(reader).data@,
                fresh_private,
                final(self).secret_context->0,
            ),
    {
        let ghost b = reader.data@;
        let initial = match reader.get_bytes(8) {
            Some(v) => to_key(&v),
            None => {
                return Err(HandshakeError::Malformed);
            },
        };
        let generator = match reader.get_u32_le() {
            Some(v) => v,
            None => {
                return Err(HandshakeError::Malformed);
            },
        };
        let prime = match reader.get_u32_le() {
            Some(v) => v,
            None => {
                return Err(HandshakeError::Malformed);
            },
        };
        let public = match reader.get_u32_le() {
            Some(v) => v,
            None => {
                return Err(HandshakeError::Malformed);
            },
        };
        proof {
            assert(initial@ == spec_body_initial(b));
            assert(generator == spec_body_generator(b));
            assert(prime == spec_body_prime(b));
            assert(public == spec_body_public(b));
        }
        if fresh_private != 0 && prime == 0 {
            return Err(HandshakeError::BadParameters);
        }

        let secret_context = SecretContext::new(
            initial,
            generator,
            prime,
            fresh_private,
            Some(public),
        );

        let intermediary = match secret_context.intermediary_key() {
            Ok(key) => key,
            Err(_) => {
                return Err(HandshakeError::MissingContext);
            },
        };
        let security = security_builder.blowfish(intermediary).build();

        let mut signature = match secret_context.local_signature() {
            Ok(signature) => signature,
            Err(_) => {
                return Err(HandshakeError::MissingContext);
            },
        };
        security.encrypt(&mut signature);

        let response = ExchangeResponse::new(secret_context.local_public(), signature);
        let body = response.to_bytes();
        proof {
            vstd::bytes::lemma_auto_spec_u32_to_from_le_bytes();
            assert((1u16 << 14) | (1u16 << 12) | 0u16 == 0x5000u16) by (bit_vector);
        }
        let message = Message::new(MessageDirection::Req, MessageKind::NetEngine, 0, body);

        self.secret_context = Some(secret_context);

        Ok(HandshakeStep { security: Some(security), rekey: None, response: message })
    }

    /// A setup without exchange: acknowledge and install the security the
    /// options configured.
    fn handle_no_exchange(&self, security_builder: SecurityBuilder) -> (r: HandshakeStep)
        ensures
            r.security == Some(security_builder.spec_built()),
            r.rekey is None,
            spec_ack_message(r.response@),
    {
        HandshakeStep {
            security: Some(security_builder.build()),
            rekey: None,
            response: ack_message(),
        }
    }

    /// Check a received challenge signature against the stored context;
    /// on a match, derive the final key and acknowledge.
    fn process_challenge(&mut self, reader: &mut Reader, security: &Security) -> (r: Result<
        HandshakeStep,
        HandshakeError,
    >)
        requires
            old(reader).data@.len() >= 1,
            old(reader).pos == 1,
        ensures
            old(self).spec_challenge_outcome(old(reader).data@, security, r),
            *final(self) == *old(self),
    {
        let secret_context = match &self.secret_context {
            Some(ctx) => *ctx,
            None => {
                return Err(HandshakeError::MissingContext);
            },
        };
        if secret_context.private != 0 && secret_context.prime == 0 {
            return Err(HandshakeError::BadParameters);
        }
        if let Err(_) = secret_context.remote_public() {
            return Err(HandshakeError::MissingContext);
        }
        let given = match reader.get_bytes(8) {
            Some(v) => to_key(&v),
            None => {
                return Err(HandshakeError::Malformed);
            },
        };
        let mut calculated = match secret_context.remote_signature() {
            Ok(signature) => signature,
            Err(_) => {
                return Err(HandshakeError::MissingContext);
            },
        };
        security.encrypt(&mut calculated);
        if !crate::handshake::signatures_equal(&calculated, &given) {
            return Err(HandshakeError::SignatureMismatch);
        }
        let final_key = match secret_context.final_key() {
            Ok(key) => key,
            Err(_) => {
                return Err(HandshakeError::MissingContext);
            },
        };
        Ok(HandshakeStep { security: None, rekey: Some(final_key), response: ack_message() })
    }
}

} // verus!
