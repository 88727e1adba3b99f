//! The side that answers a received setup.
//!
//! The responder walks the handshake's states: it waits for the setup,
//! configures security from its options, answers the exchange with its
//! own public value and signature, then waits for the challenge, checks
//! it, re-keys to the final key and acknowledges.

use crate::exchange::{Challenge, Exchange, NotSet, RemoteSet, Responder};
use crate::handshake::{
    spec_opt_challenge, spec_opt_encryption, spec_opt_error_detection, spec_opt_exchange,
    ExchangeResponse, HandshakeOptions,
};
use crate::handshake_req::{
    spec_ack_message, spec_body_generator, spec_body_initial, spec_body_prime, spec_body_public,
    spec_enc_len, spec_reply_body, spec_reply_local, spec_setup_needed, to_key, HandshakeError,
    HandshakeStep,
};
use crate::message::{Message, MessageDirection, MessageKind};
use crate::reader::{spec_u32_at, Reader};
use crate::security::{Security, SecurityBuilder};
use vstd::assert_seqs_equal;
use vstd::prelude::*;

verus! {

/// Where the responder stands in the handshake.
#[derive(Clone, Copy, Debug, PartialEq, Eq, Structural)]
pub enum HandshakeState {
    /// Nothing arrived yet: the setup is awaited.
    AwaitSetup,
    /// The exchange was answered: the challenge is awaited.
    AwaitChallenge,
    /// The handshake is complete.
    Ready,
}

/// Answers handshake requests on the side that receives the setup and
/// walks the responder's states.
#[derive(Debug)]
pub struct ResponderHandshakeReqProcessor {
    /// The completed exchange, once a setup with `exchange` was answered.
    pub exchange: Option<Exchange<RemoteSet>>,
    /// Where the handshake stands.
    pub state: HandshakeState,
}

impl Default for ResponderHandshakeReqProcessor {
    /// A responder awaiting the setup.
    fn default() -> (r: Self)
        ensures
            r.exchange is None,
            r.state == HandshakeState::AwaitSetup,
    {
        ResponderHandshakeReqProcessor { exchange: None, state: HandshakeState::AwaitSetup }
    }
}

impl ResponderHandshakeReqProcessor {
    /// The exchange a setup body and a fresh private exponent lead to.
    pub open spec fn spec_exchange_from(b: Seq<u8>, private: u32, ex: Exchange<RemoteSet>) -> bool
        recommends
            b.len() >= spec_setup_needed(b[0]),
    {
        &&& ex.initial@ == spec_body_initial(b)
        &&& ex.generator == spec_body_generator(b)
        &&& ex.prime == spec_body_prime(b)
        &&& ex.private == private
        &&& ex.remote.0 == spec_body_public(b)
    }

    /// The security block a setup's options configure: the cipher from
    /// the encryption key if that option is on, the seeds from the body
    /// if error detection is on (inbound traffic then validated).
    pub open spec fn spec_plain_security(b: Seq<u8>, s: Option<Security>) -> bool
        recommends
            b.len() >= 1,
    {
        &&& s is Some
        &&& (spec_opt_encryption(b[0]) ==> s->0.blowfish is Some && s->0.blowfish->0.key@
            == b.subrange(1, 9))
        &&& (!spec_opt_encryption(b[0]) ==> s->0.blowfish is None)
        &&& ({
            let at = 1 + spec_enc_len(b[0]);
            if spec_opt_error_detection(b[0]) {
                &&& s->0.encoder.requirements.inbound
                &&& !s->0.encoder.requirements.outbound
                &&& s->0.encoder.sequencer == crate::sequencer::spec_sequencer_init(
                    spec_u32_at(b, at),
                )
                &&& s->0.encoder.checksum.seed == spec_u32_at(b, at + 4)
            } else {
                &&& !s->0.encoder.requirements.inbound
                &&& !s->0.encoder.requirements.outbound
                &&& s->0.encoder.sequencer == crate::sequencer::spec_sequencer_init(0)
                &&& s->0.encoder.checksum.seed == 0
            }
        })
    }

    /// What answering a setup body yields, given the fresh private
    /// exponent: the security block the options configure, and either
    /// the exchange response or the closing acknowledgement.
    pub open spec fn spec_setup_outcome(
        self,
        b: Seq<u8>,
        private: u32,
        r: Result<HandshakeStep, HandshakeError>,
        after: Self,
    ) -> bool
        recommends
            b.len() >= 1,
    {
        if self.state != HandshakeState::AwaitSetup {
            r == Err::<HandshakeStep, HandshakeError>(HandshakeError::UnexpectedState) && after
                == self
        } else if b.len() < spec_setup_needed(b[0]) {
            r == Err::<HandshakeStep, HandshakeError>(HandshakeError::Malformed) && after == self
        } else if spec_opt_exchange(b[0]) {
            if private != 0 && spec_body_prime(b) == 0 {
                r == Err::<HandshakeStep, HandshakeError>(HandshakeError::BadParameters) && after
                    == self
            } else {
                &&& r is Ok
                &&& r->Ok_0.rekey is None
                &&& Self::spec_plain_security(b, r->Ok_0.security)
                &&& r->Ok_0.response@.header.id.0 == 0x5000
                &&& r->Ok_0.response@.header.size == 12
                &&& r->Ok_0.response@.header.sequence == 0
                &&& r->Ok_0.response@.header.checksum == 0
                &&& r->Ok_0.response@.data == spec_reply_body(b, private)
                &&& after.exchange is Some
                &&& Self::spec_exchange_from(b, private, after.exchange->0)
                &&& after.state == HandshakeState::AwaitChallenge
            }
        } else {
            &&& r is Ok
            &&& r->Ok_0.rekey is None
            &&& Self::spec_plain_security(b, r->Ok_0.security)
            &&& spec_ack_message(r->Ok_0.response@)
            &&& after.exchange == self.exchange
            &&& after.state == HandshakeState::Ready
        }
    }

    /// What answering a challenge body yields: on a matching signature,
    /// the final key and the acknowledgement.
    pub open spec fn spec_challenge_outcome(
        self,
        b: Seq<u8>,
        r: Result<HandshakeStep, HandshakeError>,
        after: Self,
    ) -> bool
        recommends
            b.len() >= 1,
    {
        if self.state != HandshakeState::AwaitChallenge || self.exchange is None {
            r == Err::<HandshakeStep, HandshakeError>(HandshakeError::UnexpectedState) && after
                == self
        } else {
            let ex = self.exchange->0;
            if ex.private != 0 && ex.prime == 0 {
                r == Err::<HandshakeStep, HandshakeError>(HandshakeError::BadParameters) && after
                    == self
            } else if b.len() < 9 {
                r == Err::<HandshakeStep, HandshakeError>(HandshakeError::Malformed) && after
                    == self
            } else if b.subrange(1, 9) != crate::exchange::spec_expected_challenge(
                <Responder as Challenge>::spec_chal_key(ex),
                ex,
            ) {
                r == Err::<HandshakeStep, HandshakeError>(HandshakeError::SignatureMismatch)
                    && after == self
            } else {
                &&& r is Ok
                &&& r->Ok_0.security is None
                &&& r->Ok_0.rekey is Some
                &&& r->Ok_0.rekey->0@ == crate::exchange::spec_final_key(ex)
                &&& spec_ack_message(r->Ok_0.response@)
                &&& after.exchange == self.exchange
                &&& after.state == HandshakeState::Ready
            }
        }
    }

    /// Process one `NetEngine/Req/0` message, either the setup or the
    /// challenge, with `fresh_private` as the locally drawn private
    /// exponent.
    pub fn process(&mut self, message: &Message, fresh_private: u32) -> (r: Result<
        HandshakeStep,
        HandshakeError,
    >)
        ensures
            ({
                let b = message@.data;
                if b.len() == 0 {
                    r == Err::<HandshakeStep, HandshakeError>(HandshakeError::Malformed)
                        && *final(self) == *old(self)
                } else if spec_opt_challenge(b[0]) {
                    old(self).spec_challenge_outcome(b, r, *final(self))
                } else {
                    old(self).spec_setup_outcome(b, fresh_private, r, *final(self))
                }
            }),
    {
        let body = crate::message::copy_byte_range(
            message.data.as_slice(),
            0,
            message.data.len(),
        );
        proof {
            assert_seqs_equal!(body@ == message@.data);
        }
        let mut reader = Reader::new(body);
        let options = match reader.get_u8() {
            Some(bits) => HandshakeOptions::from_bits(bits),
            None => {
                return Err(HandshakeError::Malformed);
            },
        };
        if options.challenge() {
            self.handle_challenge(&mut reader)
        } else {
            self.handle_setup(options, &mut reader, fresh_private)
        }
    }

    /// Check the challenge signature against the answered exchange; on a
    /// match, derive the final key and acknowledge.
    fn handle_challenge(&mut self, reader: &mut Reader) -> (r: Result<
        HandshakeStep,
        HandshakeError,
    >)
        requires
            old(reader).data@.len() >= 1,
            old(reader).pos == 1,
        ensures
            old(self).spec_challenge_outcome(old(reader).data@, r, *final(self)),
    {
        if !matches!(self.state, HandshakeState::AwaitChallenge) {
            return Err(HandshakeError::UnexpectedState);
        }
        let exchange = match &self.exchange {
            Some(exchange) => *exchange,
            None => {
                return Err(HandshakeError::UnexpectedState);
            },
        };
        if exchange.private != 0 && exchange.prime == 0 {
            return Err(HandshakeError::BadParameters);
        }
        let signature = match reader.get_bytes(8) {
            Some(v) => to_key(&v),
            None => {
                return Err(HandshakeError::Malformed);
            },
        };
        if let Err(_) = <Responder as Challenge>::verify(&exchange, signature) {
            return Err(HandshakeError::SignatureMismatch);
        }
        let key = <Responder as Challenge>::finalize(&exchange);
        self.state = HandshakeState::Ready;
        proof {
            assert((2u16 << 14) | (1u16 << 12) | 0u16 == 0x9000u16) by (bit_vector);
        }
        let response = Message::new(MessageDirection::Ack, MessageKind::NetEngine, 0, Vec::new());
        Ok(HandshakeStep { security: None, rekey: Some(key), response })
    }

    /// Configure security from the setup's options and answer the
    /// exchange, or acknowledge when no exchange was asked for.
    fn handle_setup(
        &mut self,
        options: HandshakeOptions,
        reader: &mut Reader,
        fresh_private: u32,
    ) -> (r: Result<HandshakeStep, HandshakeError>)
        requires
            old(reader).data@.len() >= 1,
            old(reader).pos == 1,
            old(reader).data@[0] == options.0,
            !spec_opt_challenge(options.0),
        ensures
            old(self).spec_setup_outcome(old(reader).data@, fresh_private, r, *final(self)),
    {
        let ghost b = reader.data@;
        if !matches!(self.state, HandshakeState::AwaitSetup) {
            return Err(HandshakeError::UnexpectedState);
        }
        let mut security_builder = SecurityBuilder::default();

        if options.encryption() {
            let key = match reader.get_bytes(8) {
                Some(v) => to_key(&v),
                None => {
                    return Err(HandshakeError::Malformed);
                },
            };
            security_builder = security_builder.blowfish(key);
        }

        if options.error_detection() {
            let sequence = match reader.get_u32_le() {
                Some(v) => v,
                None => {
                    return Err(HandshakeError::Malformed);
                },
            };
            let checksum = match reader.get_u32_le() {
                Some(v) => v,
                None => {
                    return Err(HandshakeError::Malformed);
                },
            };
            security_builder = security_builder.encoding_requirements((true, false))
                .error_detection((sequence, checksum));
        }

        let security = security_builder.build();

        if !options.exchange() {
            self.state = HandshakeState::Ready;
            proof {
                assert((2u16 << 14) | (1u16 << 12) | 0u16 == 0x9000u16) by (bit_vector);
            }
            let response = Message::new(
                MessageDirection::Ack,
                MessageKind::NetEngine,
                0,
                Vec::new(),
            );
            return Ok(HandshakeStep { security: Some(security), rekey: None, response });
        }

        let initial = match reader.get_bytes(8) {
            Some(v) => to_key(&v),
            None => {
                return Err(HandshakeError::Malformed);
            },
        };
        let generator = match reader.get_u32_le() {
            Some(v) => v,
            None => {
                return Err(HandshakeError::Malformed);
            },
        };
        let prime = match reader.get_u32_le() {
            Some(v) => v,
            None => {
                return Err(HandshakeError::Malformed);
            },
        };
        let public = match reader.get_u32_le() {
            Some(v) => v,
            None => {
                return Err(HandshakeError::Malformed);
            },
        };
        if fresh_private != 0 && prime == 0 {
            return Err(HandshakeError::BadParameters);
        }

        let exchange = Exchange {
            initial,
            generator,
            prime,
            private: fresh_private,
            remote: NotSet,
        }.remote(public);

        let signature = <Responder as Challenge>::create(&exchange);
        let response = ExchangeResponse::new(exchange.get_local(), signature);
        let body = response.to_bytes();
        proof {
            vstd::bytes::lemma_auto_spec_u32_to_from_le_bytes();
            assert((1u16 << 14) | (1u16 << 12) | 0u16 == 0x5000u16) by (bit_vector);
            assert(exchange.spec_local() == spec_reply_local(b, fresh_private));
        }
        let message = Message::new(MessageDirection::Req, MessageKind::NetEngine, 0, body);

        self.exchange = Some(exchange);
        self.state = HandshakeState::AwaitChallenge;

        Ok(HandshakeStep { security: Some(security), rekey: None, response: message })
    }
}

} // verus!
