use silkrust::message::{Header, Message, MessageDirection, MessageId, MessageKind};
use silkrust::message_buffer::MessageBuffer;

fn sample_message() -> Message {
    Message::new(
        MessageDirection::Req,
        MessageKind::NetEngine,
        0,
        vec![0, 1, 2],
    )
}

#[test]
fn read_complete_message_in_one_go() {
    let mut buffer = MessageBuffer::default();

    let message = sample_message();
    let message_bytes = message.to_bytes();

    // The read hands over more bytes than the message holds; the tail is
    // kept as the start of the next (still incomplete) message.
    let mut net_buffer = vec![0u8; 14];
    net_buffer[..message_bytes.len()].copy_from_slice(&message_bytes);

    let messages = buffer.read(&net_buffer).unwrap();
    assert_eq!(messages.len(), 1);
    assert_eq!(messages[0], sample_message());
}

#[test]
fn read_split_message_across_reads() {
    let mut buffer = MessageBuffer::default();

    let message = sample_message();
    let message_bytes = message.to_bytes();

    let messages = buffer.read(&message_bytes[..6]).unwrap();
    assert_eq!(messages.len(), 0);

    let messages = buffer.read(&message_bytes[6..]).unwrap();
    assert_eq!(messages.len(), 1);
    assert_eq!(messages[0], sample_message());
}

#[test]
fn one_byte_at_a_time_reassembles() {
    let first = sample_message();
    let second = Message::new(MessageDirection::Ack, MessageKind::Framework, 7, vec![42]);
    let mut stream = first.to_bytes();
    stream.extend_from_slice(&second.to_bytes());

    let mut buffer = MessageBuffer::default();
    let mut collected = Vec::new();
    for byte in stream {
        let mut out = buffer.read(&[byte]).unwrap();
        collected.append(&mut out);
    }
    assert_eq!(collected.len(), 2);
    assert_eq!(collected[0], first);
    assert_eq!(collected[1], second);
}

#[test]
fn arbitrary_chunking_matches_single_read() {
    let first = Message::new(MessageDirection::NoDir, MessageKind::Framework, 2, Vec::new());
    let second = Message::new(MessageDirection::Req, MessageKind::Game, 9, vec![1, 2, 3, 4, 5]);
    let third = Message::new(MessageDirection::Ack, MessageKind::NetEngine, 0, vec![255]);
    let mut stream = first.to_bytes();
    stream.extend_from_slice(&second.to_bytes());
    stream.extend_from_slice(&third.to_bytes());

    let mut whole = MessageBuffer::default();
    let expected = whole.read(&stream).unwrap();
    assert_eq!(expected.len(), 3);

    let mut buffer = MessageBuffer::default();
    let mut collected = Vec::new();
    // Split inside the first header, inside a body, and at a boundary.
    let cuts = [0usize, 3, 8, 13, 20, stream.len()];
    for pair in cuts.windows(2) {
        let mut out = buffer.read(&stream[pair[0]..pair[1]]).unwrap();
        collected.append(&mut out);
    }
    assert_eq!(collected, expected);
}

#[test]
fn zero_length_body_frames() {
    let message = Message::new(MessageDirection::NoDir, MessageKind::Framework, 2, Vec::new());
    let mut buffer = MessageBuffer::default();
    let messages = buffer.read(&message.to_bytes()).unwrap();
    assert_eq!(messages.len(), 1);
    assert_eq!(messages[0].header.data_size(), 0);
    assert_eq!(messages[0].data.len(), 0);
}

#[test]
fn maximum_size_message_frames() {
    let body = vec![0xABu8; 4090];
    let message = Message::new(MessageDirection::Req, MessageKind::Game, 1, body.clone());
    let bytes = message.to_bytes();
    assert_eq!(bytes.len(), 4096);

    let mut buffer = MessageBuffer::default();
    let messages = buffer.read(&bytes).unwrap();
    assert_eq!(messages.len(), 1);
    assert_eq!(messages[0].data, body);
}

#[test]
fn oversized_data_size_is_a_framing_violation() {
    // A header declaring 4091 body bytes: one past the maximum.
    let header = Header::new(MessageId(0x2002), 4091);
    let bytes = header.to_bytes();
    let mut buffer = MessageBuffer::default();
    assert!(buffer.read(&bytes).is_err());
}
