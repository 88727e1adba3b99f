use silkrust::blowfish::BlowfishCompat;
use silkrust::checksum::Checksum;
use silkrust::message::{Header, Message, MessageDirection, MessageId, MessageKind};
use silkrust::security::{Security, SecurityBuilder};
use silkrust::sequencer::Sequencer;

#[test]
fn blowfish_compat_matches_the_reference_cipher() {
    // The all-zero key and block are the classic Blowfish test vector:
    // 0x0000000000000000 encrypts to 0x4EF997456198DD78.  In the
    // byte-swapped layout both words come out reversed.
    let cipher = BlowfishCompat::new([0; 8]);
    let mut block = [0u8; 8];
    cipher.encrypt_block(&mut block);
    assert_eq!(block, [0x45, 0x97, 0xF9, 0x4E, 0x78, 0xDD, 0x98, 0x61]);
}

#[test]
fn blowfish_encrypt_then_decrypt_restores_the_block() {
    let cipher = BlowfishCompat::new([7, 6, 5, 4, 3, 2, 1, 0]);
    let original = [10u8, 20, 30, 40, 50, 60, 70, 80];
    let mut block = original;
    cipher.encrypt_block(&mut block);
    assert_ne!(block, original);
    cipher.decrypt_block(&mut block);
    assert_eq!(block, original);
}

#[test]
fn blowfish_rejects_keys_of_other_lengths() {
    assert!(BlowfishCompat::new_from_slice(&[1, 2, 3]).is_err());
    assert!(BlowfishCompat::new_from_slice(&[0; 9]).is_err());
    assert!(BlowfishCompat::new_from_slice(&[0; 8]).is_ok());
}

#[test]
fn encode_stamps_sequence_and_checksum() {
    let mut security = SecurityBuilder::default()
        .encoding_requirements((false, true))
        .error_detection((0x1234, 77))
        .build();

    let message = Message::new(MessageDirection::NoDir, MessageKind::Framework, 2, Vec::new());
    let encoded = security.encode(message);

    // The first sequence byte of seed 0x1234 is the known value 4.
    let mut sequencer = Sequencer::new(0x1234);
    assert_eq!(encoded.header.sequence, sequencer.next());
    assert_eq!(encoded.header.sequence, 4);

    // The checksum covers the stamped wire image with its checksum byte
    // still cleared.
    let stamped = Message {
        header: Header {
            sequence: 4,
            checksum: 0,
            ..encoded.header
        },
        data: Vec::new(),
    };
    let stamped_bytes = stamped.to_bytes();
    let expected = Checksum::new(77).compute(&stamped_bytes, stamped_bytes.len());
    assert_eq!(encoded.header.checksum, expected);
}

#[test]
fn encode_without_outbound_requirement_is_identity() {
    let mut security = Security::default();
    let message = Message::new(MessageDirection::Req, MessageKind::Game, 5, vec![1, 2]);
    let encoded = security.encode(message.clone());
    assert_eq!(encoded, message);
}

#[test]
fn decrypt_restores_an_encrypted_message() {
    let key = [9u8, 9, 9, 9, 1, 1, 1, 1];
    let cipher = BlowfishCompat::new(key);

    // A message with a 4-byte body: everything after the size field is
    // exactly one cipher block.
    let plain = Message {
        header: Header {
            size: 4,
            id: MessageId(0x2002),
            sequence: 5,
            checksum: 6,
        },
        data: vec![0xAA, 0xBB, 0xCC, 0xDD],
    };
    let plain_bytes = plain.to_bytes();
    let mut block = [0u8; 8];
    block.copy_from_slice(&plain_bytes[2..]);
    cipher.encrypt_block(&mut block);

    let encrypted = Message {
        header: Header {
            size: 4 | 0x8000,
            id: MessageId(u16::from_le_bytes([block[0], block[1]])),
            sequence: block[2],
            checksum: block[3],
        },
        data: block[4..].to_vec(),
    };
    assert!(encrypted.is_encrypted());

    let security = SecurityBuilder::default().blowfish(key).build();
    let decrypted = security.decrypt(encrypted).unwrap();
    assert_eq!(decrypted, plain);
    assert!(!decrypted.is_encrypted());
}

#[test]
fn decrypt_without_cipher_is_fatal() {
    let security = Security::default();
    let encrypted = Message {
        header: Header::new(MessageId(0x2002), 4 | 0x8000),
        data: vec![1, 2, 3, 4],
    };
    assert!(security.decrypt(encrypted).is_err());
}

#[test]
fn decrypt_passes_plain_messages_through() {
    let security = Security::default();
    let message = Message::new(MessageDirection::Req, MessageKind::Game, 1, vec![5, 6, 7]);
    let out = security.decrypt(message.clone()).unwrap();
    assert_eq!(out, message);
}

#[test]
fn encrypt_without_cipher_leaves_the_block() {
    let security = Security::default();
    let mut block = [1u8, 2, 3, 4, 5, 6, 7, 8];
    security.encrypt(&mut block);
    assert_eq!(block, [1, 2, 3, 4, 5, 6, 7, 8]);
}
