use silkrust::message::{Message, MessageDirection, MessageKind};
use silkrust::processors::{Module, ModuleIdentification, NetPing, ShardListProcessor};
use silkrust::reader::Reader;

fn string_bytes(s: &str) -> Vec<u8> {
    let mut out = (s.len() as u16).to_le_bytes().to_vec();
    out.extend_from_slice(s.as_bytes());
    out
}

#[test]
fn ping_answers_with_a_keepalive() {
    let ping = NetPing;
    let incoming = Message::new(MessageDirection::NoDir, MessageKind::Framework, 2, Vec::new());
    let reply = ping.process(&incoming);
    assert_eq!(reply.header.id.0, 0x2002);
    assert_eq!(reply.header.data_size(), 0);
}

#[test]
fn module_round_trips_and_is_answered() {
    let mut body = string_bytes("GatewayServer");
    body.push(1);
    let message = Message::new(MessageDirection::NoDir, MessageKind::Framework, 1, body);

    let (module, reply) = ModuleIdentification.process(&message).unwrap();
    assert_eq!(module.servicename, b"GatewayServer".to_vec());
    assert!(module.is_local);

    assert_eq!(reply.header.id.0, 0x2001);
    let answered = Module::from_bytes(&reply.data).unwrap();
    assert_eq!(answered.servicename, b"SR_CLIENT".to_vec());
    assert!(!answered.is_local);
}

#[test]
fn truncated_module_body_is_refused() {
    // Length prefix promises 10 bytes, only 3 follow.
    let mut body = (10u16).to_le_bytes().to_vec();
    body.extend_from_slice(b"abc");
    assert!(Module::from_bytes(&body).is_none());
}

#[test]
fn shard_list_parses_farms_and_shards() {
    let mut body = Vec::new();
    // One farm: id 3, name "Alpha".
    body.push(1);
    body.push(3);
    body.extend_from_slice(&string_bytes("Alpha"));
    body.push(0);
    // Two shards.
    body.push(1);
    body.extend_from_slice(&21u16.to_le_bytes());
    body.extend_from_slice(&string_bytes("Rome"));
    body.extend_from_slice(&17u16.to_le_bytes());
    body.extend_from_slice(&100u16.to_le_bytes());
    body.push(1);
    body.push(3);
    body.push(1);
    body.extend_from_slice(&22u16.to_le_bytes());
    body.extend_from_slice(&string_bytes("Troy"));
    body.extend_from_slice(&0u16.to_le_bytes());
    body.extend_from_slice(&50u16.to_le_bytes());
    body.push(0);
    body.push(3);
    body.push(0);

    let message = Message::new(MessageDirection::Ack, MessageKind::Framework, 257, body);
    let (farms, shards) = ShardListProcessor.process(message).unwrap();

    assert_eq!(farms.len(), 1);
    assert_eq!(farms[0].id, 3);
    assert_eq!(farms[0].name, b"Alpha".to_vec());

    assert_eq!(shards.len(), 2);
    assert_eq!(shards[0].id, 21);
    assert_eq!(shards[0].name, b"Rome".to_vec());
    assert_eq!(shards[0].clients_connected, 17);
    assert_eq!(shards[0].capacity, 100);
    assert!(shards[0].operating);
    assert_eq!(shards[0].farm_id, 3);
    assert_eq!(shards[1].id, 22);
    assert_eq!(shards[1].name, b"Troy".to_vec());
    assert!(!shards[1].operating);
}

#[test]
fn truncated_shard_list_is_refused() {
    // A farm introducer with nothing after it.
    let body = vec![1u8];
    let message = Message::new(MessageDirection::Ack, MessageKind::Framework, 257, body);
    assert!(ShardListProcessor.process(message).is_none());
}

#[test]
fn reader_consumes_little_endian_values() {
    let mut reader = Reader::new(vec![0x01, 0x02, 0x03, 0x04, 0x05, 0x06, 0x07]);
    assert_eq!(reader.get_u8(), Some(0x01));
    assert_eq!(reader.get_u16_le(), Some(0x0302));
    assert_eq!(reader.get_u32_le(), Some(0x07060504));
    assert_eq!(reader.get_u8(), None);
    assert_eq!(reader.remaining(), 0);
}

#[test]
fn reader_strings_are_length_prefixed() {
    let mut data = string_bytes("abc");
    data.push(9);
    let mut reader = Reader::new(data);
    assert_eq!(reader.get_string(), Some(b"abc".to_vec()));
    assert_eq!(reader.get_u8(), Some(9));
}
