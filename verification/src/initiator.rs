//! The side that opens the handshake.
//!
//! The initiator sends the setup — integrity seeds and the 20-byte
//! exchange block — and waits for the remote public value and signature.
//! On a good signature it answers with its own challenge, re-keys its
//! cipher to the final key, and waits for the closing acknowledgement.

use crate::exchange::{Challenge, Exchange, Initiator, NotSet, RemoteSet};
use crate::handshake::{ErrorDetectionSeed, ExchangeSetup, HandshakeOptions};
use crate::handshake_req::{HandshakeError, HandshakeStep};
use crate::message::{Message, MessageDirection, MessageKind};
use crate::reader::{spec_u32_at, Reader};
use crate::security::{Security, SecurityBuilder};
use vstd::assert_seqs_equal;
use vstd::prelude::*;

verus! {

/// The options byte of the opening setup: `error_detection` and
/// `exchange` set, everything else clear.
pub open spec fn spec_init_options() -> u8 {
    0x0C
}

/// The body of the opening setup: the options byte, the two integrity
/// seeds, and the exchange block carrying the local public value.
pub open spec fn spec_init_body(
    exchange: Exchange<NotSet>,
    sequence_seed: u32,
    checksum_seed: u32,
) -> Seq<u8> {
    seq![spec_init_options()] + crate::handshake::spec_seed_bytes(
        crate::handshake::ErrorDetectionSeed { sequence: sequence_seed, checksum: checksum_seed },
    ) + crate::handshake::spec_setup_bytes(
        crate::handshake::ExchangeSetup {
            initial_key: exchange.initial,
            generator: exchange.generator,
            prime: exchange.prime,
            public: exchange.spec_local(),
        },
    )
}

/// Open the handshake: build the setup message carrying fresh seeds and
/// the exchange parameters, and the security block that requires inbound
/// traffic to arrive encoded under those seeds.
pub fn init_handshake(exchange: &Exchange<NotSet>, sequence_seed: u32, checksum_seed: u32) -> (r:
    (Message, Security))
    requires
        exchange.wf(),
    ensures
        r.1 == (SecurityBuilder {
            key: None,
            encoding_requirements: (true, false),
            error_detection: (sequence_seed, checksum_seed),
        }).spec_built(),
        r.0@.header.id.0 == 0x5000,
        r.0@.header.size == 29,
        r.0@.header.sequence == 0,
        r.0@.header.checksum == 0,
        r.0@.data == spec_init_body(*exchange, sequence_seed, checksum_seed),
{
    let security = SecurityBuilder::default().encoding_requirements((true, false))
        .error_detection((sequence_seed, checksum_seed)).build();

    let options = HandshakeOptions::new().with_disabled(false).with_challenge(false)
        .with_encryption(false).with_exchange(true).with_error_detection(true);
    proof {
        assert((((((0u8 & 0xFE) & 0xEF) & 0xFD) | 0x08) | 0x04) == 0x0C) by (bit_vector);
    }

    let error_detection = ErrorDetectionSeed::new(sequence_seed, checksum_seed);
    let setup = ExchangeSetup::new(
        exchange.get_initial(),
        exchange.get_generator(),
        exchange.get_prime(),
        exchange.get_local(),
    );

    let mut data: Vec<u8> = Vec::new();
    data.push(options.into_bits());
    let mut seed_bytes = error_detection.to_bytes();
    data.append(&mut seed_bytes);
    let mut setup_bytes = setup.to_bytes();
    data.append(&mut setup_bytes);
    proof {
        vstd::bytes::lemma_auto_spec_u32_to_from_le_bytes();
        assert_seqs_equal!(data@
            == spec_init_body(*exchange, sequence_seed, checksum_seed));
        assert((1u16 << 14) | (1u16 << 12) | 0u16 == 0x5000u16) by (bit_vector);
    }
    let message = Message::new(MessageDirection::Req, MessageKind::NetEngine, 0, data);
    (message, security)
}

/// Handles the exchange response on the side that opened the handshake:
/// checks the remote signature, answers with the local challenge, and
/// re-keys to the final key.
#[derive(Debug)]
pub struct HandshakeReqProcessor {
    /// The exchange parameters the setup was built from, still waiting
    /// for the remote public value.
    pub context_builder: Exchange<NotSet>,
}

/// The exchange an initiator completes when the response supplies the
/// remote public value.
pub open spec fn spec_completed(builder: Exchange<NotSet>, remote: u32) -> Exchange<RemoteSet> {
    Exchange {
        initial: builder.initial,
        generator: builder.generator,
        prime: builder.prime,
        private: builder.private,
        remote: RemoteSet(remote),
    }
}

impl HandshakeReqProcessor {
    /// A processor around the exchange the setup was built from.
    pub fn new(context_builder: Exchange<NotSet>) -> (r: Self)
        ensures
            r.context_builder == context_builder,
    {
        Self { context_builder }
    }

    /// Process the exchange response: on a matching signature, answer
    /// with the challenge message and the final key to re-key with.
    pub fn process(&self, message: &Message) -> (r: Result<HandshakeStep, HandshakeError>)
        requires
            self.context_builder.wf(),
        ensures
            ({
                let b = message@.data;
                if b.len() < 12 {
                    r == Err::<HandshakeStep, HandshakeError>(HandshakeError::Malformed)
                } else {
                    let ex = spec_completed(self.context_builder, spec_u32_at(b, 0));
                    if b.subrange(4, 12) != crate::exchange::spec_expected_challenge(
                        <Initiator as Challenge>::spec_chal_key(ex),
                        ex,
                    ) {
                        r == Err::<HandshakeStep, HandshakeError>(HandshakeError::SignatureMismatch)
                    } else {
                        &&& r is Ok
                        &&& r->Ok_0.security is None
                        &&& r->Ok_0.rekey is Some
                        &&& r->Ok_0.rekey->0@ == crate::exchange::spec_final_key(ex)
                        &&& r->Ok_0.response@.header.id.0 == 0x5000
                        &&& r->Ok_0.response@.header.size == 9
                        &&& r->Ok_0.response@.header.sequence == 0
                        &&& r->Ok_0.response@.header.checksum == 0
                        &&& r->Ok_0.response@.data == seq![0x10u8]
                            + crate::exchange::spec_created_challenge(
                            <Initiator as Challenge>::spec_chal_key(ex),
                            ex,
                        )
                    }
                }
            }),
    {
        let body = crate::message::copy_byte_range(
            message.data.as_slice(),
            0,
            message.data.len(),
        );
        proof {
            assert_seqs_equal!(body@ == message@.data);
        }
        let mut reader = Reader::new(body);
        let public = match reader.get_u32_le() {
            Some(v) => v,
            None => {
                return Err(HandshakeError::Malformed);
            },
        };
        let signature = match reader.get_bytes(8) {
            Some(v) => crate::handshake_req::to_key(&v),
            None => {
                return Err(HandshakeError::Malformed);
            },
        };

        let exchange = self.context_builder.remote(public);
        proof {
            assert(exchange == spec_completed(self.context_builder, spec_u32_at(message@.data, 0)));
        }
        if let Err(_) = <Initiator as Challenge>::verify(&exchange, signature) {
            return Err(HandshakeError::SignatureMismatch);
        }

        let challenge = <Initiator as Challenge>::create(&exchange);
        let options = HandshakeOptions::new().with_challenge(true);
        proof {
            assert(0u8 | 0x10 == 0x10u8) by (bit_vector);
        }
        let mut data: Vec<u8> = Vec::new();
        data.push(options.into_bits());
        let mut i: usize = 0;
        while i < 8
            invariant
                i <= 8,
                data@ == seq![0x10u8] + challenge@.subrange(0, i as int),
            decreases 8 - i,
        {
            data.push(challenge[i]);
            proof {
                assert_seqs_equal!(data@ == seq![0x10u8]
                    + challenge@.subrange(0, i as int + 1));
            }
            i = i + 1;
        }
        proof {
            assert_seqs_equal!(data@ == seq![0x10u8] + challenge@);
            assert((1u16 << 14) | (1u16 << 12) | 0u16 == 0x5000u16) by (bit_vector);
        }
        let response = Message::new(MessageDirection::Req, MessageKind::NetEngine, 0, data);

        let final_key = <Initiator as Challenge>::finalize(&exchange);
        Ok(HandshakeStep { security: None, rekey: Some(final_key), response })
    }
}

/// Marks the closing acknowledgement of the handshake: once it arrives,
/// forwarding of buffered traffic may begin.  The message decides by its
/// shape alone.
pub fn is_handshake_ack(message: &Message) -> (r: bool)
    ensures
        r == (message@.header.id.0 == 0x9000),
{
    message.header.id.0 == 0x9000
}

} // verus!
