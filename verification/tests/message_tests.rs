use silkrust::message::{Header, Message, MessageDirection, MessageId, MessageKind};

#[test]
fn back_and_forth_works() {
    let id_from_u16 = MessageId::from_bits(0x5000);
    assert_eq!(id_from_u16.operation(), 0);
    assert_eq!(id_from_u16.direction(), MessageDirection::Req);
    assert_eq!(id_from_u16.kind(), MessageKind::NetEngine);

    let id_from_struct = MessageId::new()
        .with_direction(MessageDirection::Ack)
        .with_kind(MessageKind::NetEngine)
        .with_operation(0);
    assert_eq!(id_from_struct.0, 0x9000);
}

#[test]
fn request_identity_packs_to_0x5000() {
    let id = MessageId::new()
        .with_direction(MessageDirection::Req)
        .with_kind(MessageKind::NetEngine)
        .with_operation(0);
    assert_eq!(id.into_bits(), 0x5000);
}

#[test]
fn ack_identity_packs_to_0x9000() {
    let id = MessageId::new()
        .with_direction(MessageDirection::Ack)
        .with_kind(MessageKind::NetEngine)
        .with_operation(0);
    assert_eq!(id.into_bits(), 0x9000);
}

#[test]
fn every_identity_value_round_trips() {
    for v in 0..=0xFFFFu16 {
        let id = MessageId::from_bits(v);
        assert_eq!(id.into_bits(), v);
    }
}

#[test]
fn keepalive_wire_bytes() {
    let message = Message::new(
        MessageDirection::NoDir,
        MessageKind::Framework,
        2,
        Vec::new(),
    );
    // Operation 2 sits in the low bits of the identity: 0x2002.
    assert_eq!(message.header.id.0, 0x2002);
    let bytes = message.to_bytes();
    assert_eq!(bytes, vec![0x00, 0x00, 0x02, 0x20, 0x00, 0x00]);

    let decoded = Message::from_bytes(&bytes);
    assert_eq!(decoded, message);
}

#[test]
fn header_round_trips_bit_exactly() {
    let header = Header {
        size: 0x8123,
        id: MessageId(0xABCD),
        sequence: 7,
        checksum: 99,
    };
    let bytes = header.to_bytes();
    assert_eq!(bytes.len(), 6);
    let decoded = Header::from_bytes(&bytes);
    assert_eq!(decoded, header);
}

#[test]
fn header_sizes_mask_the_encryption_flag() {
    let header = Header::new(MessageId(0x2002), 0x8005);
    assert_eq!(header.data_size(), 5);
    assert_eq!(header.message_size(), 11);
    let message = Message {
        header,
        data: vec![1, 2, 3, 4, 5],
    };
    assert!(message.is_encrypted());
    let plain = Message {
        header: Header::new(MessageId(0x2002), 5),
        data: vec![1, 2, 3, 4, 5],
    };
    assert!(!plain.is_encrypted());
}

#[test]
fn message_round_trips_with_body() {
    let message = Message::new(
        MessageDirection::Req,
        MessageKind::Game,
        0x123,
        vec![9, 8, 7, 6],
    );
    let bytes = message.to_bytes();
    let decoded = Message::from_bytes(&bytes);
    assert_eq!(decoded, message);
    assert_eq!(decoded.reader(), vec![9, 8, 7, 6]);
}

#[test]
fn empty_framework_message_wire_bytes() {
    // Operation 0 of the Framework kind packs to the bare id 0x2000; its
    // empty message is the six bytes 00 00 00 20 00 00 on the wire.
    let message = Message::new(
        MessageDirection::NoDir,
        MessageKind::Framework,
        0,
        Vec::new(),
    );
    assert_eq!(message.header.id.0, 0x2000);
    let bytes = message.to_bytes();
    assert_eq!(bytes, vec![0x00, 0x00, 0x00, 0x20, 0x00, 0x00]);
    assert_eq!(Message::from_bytes(&bytes), message);
}
