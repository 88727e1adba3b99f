use silkrust::exchange::{Exchange, Key, NotSet};
use silkrust::handshake::{ErrorDetectionSeed, ExchangeResponse, ExchangeSetup, HandshakeOptions};
use silkrust::handshake_req::{HandshakeError, HandshakeReqProcessor};
use silkrust::initiator::{init_handshake, is_handshake_ack, HandshakeReqProcessor as InitiatorProcessor};
use silkrust::message::{Message, MessageDirection, MessageKind};
use silkrust::responder::{HandshakeState, ResponderHandshakeReqProcessor};
use silkrust::security::Security;

fn initiator_exchange() -> Exchange<NotSet> {
    let initial: Key = [1, 2, 3, 4, 5, 6, 7, 8];
    Exchange::<NotSet>::default()
        .set_initial(initial)
        .set_generator(10007)
        .set_prime(2147483647)
        .set_private(123456)
}

#[test]
fn options_pack_their_five_flags() {
    let options = HandshakeOptions::new()
        .with_disabled(false)
        .with_challenge(false)
        .with_encryption(false)
        .with_exchange(true)
        .with_error_detection(true);
    assert_eq!(options.into_bits(), 0x0C);
    assert!(options.exchange());
    assert!(options.error_detection());
    assert!(!options.encryption());
    assert!(!options.challenge());
    assert!(!options.disabled());

    let challenge = HandshakeOptions::new().with_challenge(true);
    assert_eq!(challenge.into_bits(), 0x10);
    assert!(HandshakeOptions::from_bits(0x10).challenge());
}

#[test]
fn wire_structures_serialise_to_their_sizes() {
    assert_eq!(ErrorDetectionSeed::new(1, 2).to_bytes().len(), 8);
    let setup = ExchangeSetup::new([0; 8], 1, 2, 3);
    assert_eq!(setup.to_bytes().len(), 20);
    let response = ExchangeResponse::new(9, [1; 8]);
    assert_eq!(response.to_bytes().len(), 12);

    let seed_bytes = ErrorDetectionSeed::new(0x01020304, 0x05060708).to_bytes();
    assert_eq!(seed_bytes, vec![4, 3, 2, 1, 8, 7, 6, 5]);
}

#[test]
fn init_handshake_builds_the_setup() {
    let exchange = initiator_exchange();
    let (message, security) = init_handshake(&exchange, 1111, 2222);
    assert_eq!(message.header.id.0, 0x5000);
    assert_eq!(message.header.data_size(), 29);
    assert_eq!(message.data[0], 0x0C);
    assert!(security.blowfish.is_none());
    assert!(security.encoder.requirements.inbound);
    assert!(!security.encoder.requirements.outbound);
}

#[test]
fn end_to_end_handshake_with_secret_context() {
    let exchange = initiator_exchange();
    let (setup, _initiator_security) = init_handshake(&exchange, 1111, 2222);

    let mut responder = HandshakeReqProcessor::default();
    let step = responder
        .process(&setup, 654321, &Security::default())
        .unwrap();
    let responder_security = step.security.unwrap();
    assert!(responder_security.blowfish.is_some());
    assert_eq!(step.response.header.id.0, 0x5000);
    assert_eq!(step.response.header.data_size(), 12);

    let initiator = InitiatorProcessor::new(exchange);
    let step2 = initiator.process(&step.response).unwrap();
    let initiator_final = step2.rekey.unwrap();
    assert_eq!(step2.response.data[0], 0x10);

    let step3 = responder
        .process(&step2.response, 0, &responder_security)
        .unwrap();
    let responder_final = step3.rekey.unwrap();

    assert_eq!(initiator_final, responder_final);
    assert!(is_handshake_ack(&step3.response));
}

#[test]
fn end_to_end_handshake_with_responder_states() {
    let exchange = initiator_exchange();
    let (setup, _initiator_security) = init_handshake(&exchange, 1111, 2222);

    let mut responder = ResponderHandshakeReqProcessor::default();
    let step = responder.process(&setup, 654321).unwrap();
    assert_eq!(responder.state, HandshakeState::AwaitChallenge);

    let initiator = InitiatorProcessor::new(exchange);
    let step2 = initiator.process(&step.response).unwrap();
    let initiator_final = step2.rekey.unwrap();

    let step3 = responder.process(&step2.response, 0).unwrap();
    assert_eq!(responder.state, HandshakeState::Ready);
    let responder_final = step3.rekey.unwrap();

    assert_eq!(initiator_final, responder_final);
    assert!(is_handshake_ack(&step3.response));
}

#[test]
fn setup_without_exchange_acknowledges() {
    let mut responder = ResponderHandshakeReqProcessor::default();
    // Options byte alone: error detection off, exchange off.
    let setup = Message::new(MessageDirection::Req, MessageKind::NetEngine, 0, vec![0]);
    let step = responder.process(&setup, 1).unwrap();
    assert!(is_handshake_ack(&step.response));
    assert_eq!(responder.state, HandshakeState::Ready);
    let security = step.security.unwrap();
    assert!(security.blowfish.is_none());
}

#[test]
fn empty_handshake_body_is_malformed() {
    let mut responder = HandshakeReqProcessor::default();
    let empty = Message::new(MessageDirection::Req, MessageKind::NetEngine, 0, Vec::new());
    assert!(matches!(
        responder.process(&empty, 1, &Security::default()),
        Err(HandshakeError::Malformed)
    ));
}

#[test]
fn challenge_before_setup_is_refused() {
    let mut context_less = HandshakeReqProcessor::default();
    let mut challenge_body = vec![0x10u8];
    challenge_body.extend_from_slice(&[0; 8]);
    let challenge = Message::new(
        MessageDirection::Req,
        MessageKind::NetEngine,
        0,
        challenge_body.clone(),
    );
    assert!(matches!(
        context_less.process(&challenge, 1, &Security::default()),
        Err(HandshakeError::MissingContext)
    ));

    let mut stateful = ResponderHandshakeReqProcessor::default();
    assert!(matches!(
        stateful.process(&challenge, 1),
        Err(HandshakeError::UnexpectedState)
    ));
}

#[test]
fn second_setup_is_refused_by_the_state_machine() {
    let exchange = initiator_exchange();
    let (setup, _) = init_handshake(&exchange, 1, 2);
    let mut responder = ResponderHandshakeReqProcessor::default();
    assert!(responder.process(&setup, 3).is_ok());
    assert!(matches!(
        responder.process(&setup, 3),
        Err(HandshakeError::UnexpectedState)
    ));
}

#[test]
fn tampered_exchange_response_is_refused() {
    let exchange = initiator_exchange();
    let (setup, _) = init_handshake(&exchange, 1111, 2222);
    let mut responder = ResponderHandshakeReqProcessor::default();
    let step = responder.process(&setup, 654321).unwrap();

    let mut tampered = step.response.clone();
    tampered.data[5] ^= 0xFF;
    let initiator = InitiatorProcessor::new(exchange);
    assert!(matches!(
        initiator.process(&tampered),
        Err(HandshakeError::SignatureMismatch)
    ));
}

#[test]
fn tampered_challenge_signature_is_refused() {
    let exchange = initiator_exchange();
    let (setup, _) = init_handshake(&exchange, 1111, 2222);
    let mut responder = ResponderHandshakeReqProcessor::default();
    let step = responder.process(&setup, 654321).unwrap();
    let initiator = InitiatorProcessor::new(exchange);
    let step2 = initiator.process(&step.response).unwrap();

    let mut tampered = step2.response.clone();
    tampered.data[3] ^= 0x55;
    assert!(matches!(
        responder.process(&tampered, 0),
        Err(HandshakeError::SignatureMismatch)
    ));
}

#[test]
fn truncated_setup_is_malformed() {
    let mut responder = ResponderHandshakeReqProcessor::default();
    // Exchange flag set, but only five of its twenty bytes present.
    let mut body = vec![0x08u8];
    body.extend_from_slice(&[0; 5]);
    let setup = Message::new(MessageDirection::Req, MessageKind::NetEngine, 0, body);
    assert!(matches!(
        responder.process(&setup, 1),
        Err(HandshakeError::Malformed)
    ));
}

#[test]
fn zero_prime_exchange_is_refused() {
    let mut responder = ResponderHandshakeReqProcessor::default();
    // Exchange flag set, all twenty exchange bytes zero: the modulus is 0.
    let mut body = vec![0x08u8];
    body.extend_from_slice(&[0; 20]);
    let setup = Message::new(MessageDirection::Req, MessageKind::NetEngine, 0, body);
    assert!(matches!(
        responder.process(&setup, 1),
        Err(HandshakeError::BadParameters)
    ));
}
