use silkrust::massive::{MassiveBuffer, MassiveError, MassiveProcessor};
use silkrust::message::{Message, MessageDirection, MessageKind};

fn fragment(body: Vec<u8>) -> Message {
    Message::new(MessageDirection::Req, MessageKind::Framework, 13, body)
}

fn header_fragment(total: u16, id: u16) -> Message {
    let mut body = vec![1u8];
    body.extend_from_slice(&total.to_le_bytes());
    body.extend_from_slice(&id.to_le_bytes());
    fragment(body)
}

fn body_fragment(payload: &[u8]) -> Message {
    let mut body = vec![0u8];
    body.extend_from_slice(payload);
    fragment(body)
}

#[test]
fn header_and_bodies_reassemble_the_payload() {
    let mut processor = MassiveProcessor::default();
    assert!(processor.process(header_fragment(3, 0x2001)).is_none());
    assert!(processor.process(body_fragment(b"hello ")).is_none());
    assert!(processor.process(body_fragment(b"massive ")).is_none());
    let collected = processor.process(body_fragment(b"world")).unwrap();
    assert_eq!(collected.header.id.0, 0x2001);
    assert_eq!(collected.data, b"hello massive world".to_vec());
    assert_eq!(collected.header.data_size() as usize, collected.data.len());
}

#[test]
fn empty_payload_fragments_reassemble_empty() {
    let mut processor = MassiveProcessor::default();
    assert!(processor.process(header_fragment(1, 7)).is_none());
    let collected = processor.process(body_fragment(b"")).unwrap();
    assert_eq!(collected.data.len(), 0);
    assert_eq!(collected.header.id.0, 7);
}

#[test]
fn second_header_is_refused() {
    let mut buffer = MassiveBuffer::default();
    assert!(buffer.add(header_fragment(2, 1)).is_ok());
    assert_eq!(
        buffer.add(header_fragment(2, 1)),
        Err(MassiveError::AlreadyInitialized)
    );
}

#[test]
fn orphan_body_is_refused() {
    let mut buffer = MassiveBuffer::default();
    assert_eq!(
        buffer.add(body_fragment(b"stray")),
        Err(MassiveError::HeaderMissing)
    );
}

#[test]
fn too_many_bodies_are_refused() {
    let mut buffer = MassiveBuffer::default();
    assert!(buffer.add(header_fragment(1, 1)).is_ok());
    assert!(buffer.add(body_fragment(b"one")).is_ok());
    assert_eq!(
        buffer.add(body_fragment(b"two")),
        Err(MassiveError::TooMany)
    );
}

#[test]
fn empty_fragment_body_is_malformed() {
    let mut buffer = MassiveBuffer::default();
    assert_eq!(buffer.add(fragment(Vec::new())), Err(MassiveError::Malformed));
    let mut short = MassiveBuffer::default();
    assert_eq!(
        short.add(fragment(vec![1u8, 2])),
        Err(MassiveError::Malformed)
    );
}

#[test]
fn error_resets_the_processor_buffer() {
    let mut processor = MassiveProcessor::default();
    assert!(processor.process(header_fragment(1, 5)).is_none());
    // An unexpected second header discards the pending aggregation.
    assert!(processor.process(header_fragment(1, 5)).is_none());
    // A fresh aggregation then runs to completion.
    assert!(processor.process(header_fragment(1, 5)).is_none());
    let collected = processor.process(body_fragment(b"x")).unwrap();
    assert_eq!(collected.data, b"x".to_vec());
}

#[test]
fn collect_waits_for_every_fragment() {
    let mut buffer = MassiveBuffer::default();
    assert!(buffer.add(header_fragment(2, 9)).is_ok());
    assert!(buffer.add(body_fragment(b"a")).is_ok());
    assert!(buffer.collect().is_none());
    assert!(buffer.add(body_fragment(b"b")).is_ok());
    let collected = buffer.collect().unwrap();
    assert_eq!(collected.data, b"ab".to_vec());
}
