//! Message identity, header and message types, and their wire layout.
//!
//! A message identity packs a 12-bit operation, a 2-bit kind and a 2-bit
//! direction into 16 bits.  A header is exactly 6 bytes on the wire:
//! `size:u16le` (whose most significant bit flags an encrypted body),
//! `id:u16le`, `sequence:u8`, `checksum:u8`.  A message is a header plus a
//! body of exactly `data_size` bytes.

use vstd::assert_seqs_equal;
use vstd::bytes::{
    lemma_auto_spec_u16_to_from_le_bytes, spec_u16_from_le_bytes, spec_u16_to_le_bytes,
    u16_from_le_bytes, u16_to_le_bytes,
};
use vstd::prelude::*;

verus! {

/// Size of the wire header in bytes.
pub const HEADER_SIZE: usize = 6;

/// Maximum size of a whole message (header plus body) on the wire.
pub const MAX_MESSAGE_SIZE: usize = 4096;

/// Maximum declared body size: `MAX_MESSAGE_SIZE - HEADER_SIZE`.
pub const MAX_DATA_SIZE: u16 = 4090;

/// Mask of the encrypted-body flag inside the `size` field.
pub const HEADER_ENC_MASK: u16 = 0x8000;

/// The message kind: transport control, session services or gameplay.
#[derive(Clone, Copy, Debug, PartialEq, Eq, Structural)]
pub enum MessageKind {
    /// No particular subsystem.
    NoKind,
    /// Transport-layer control (handshake).
    NetEngine,
    /// Session services (keepalive, module identification, shard list).
    Framework,
    /// Application-level gameplay traffic.
    Game,
}

/// The two-bit encoding of a message kind.
pub open spec fn spec_kind_bits(kind: MessageKind) -> u16 {
    match kind {
        MessageKind::NoKind => 0,
        MessageKind::NetEngine => 1,
        MessageKind::Framework => 2,
        MessageKind::Game => 3,
    }
}

impl MessageKind {
    /// The two-bit wire encoding of this kind.
    pub fn into_bits(self) -> (r: u16)
        ensures
            r == spec_kind_bits(self),
    {
        match self {
            MessageKind::NoKind => 0,
            MessageKind::NetEngine => 1,
            MessageKind::Framework => 2,
            MessageKind::Game => 3,
        }
    }

    /// The kind encoded by a two-bit value.
    pub fn from_bits(value: u16) -> (r: Self)
        requires
            value <= 3,
        ensures
            spec_kind_bits(r) == value,
    {
        if value == 0 {
            MessageKind::NoKind
        } else if value == 1 {
            MessageKind::NetEngine
        } else if value == 2 {
            MessageKind::Framework
        } else {
            MessageKind::Game
        }
    }
}

/// The message direction: fire-and-forget, request, or answer.
#[derive(Clone, Copy, Debug, PartialEq, Eq, Structural)]
pub enum MessageDirection {
    /// The message is sent as part of a fire-and-forget operation.
    NoDir,
    /// The message expects to receive (at some point) a reply.
    Req,
    /// The message is sent as answer to a previous message.
    Ack,
}

/// The two-bit encoding of a message direction.
pub open spec fn spec_direction_bits(direction: MessageDirection) -> u16 {
    match direction {
        MessageDirection::NoDir => 0,
        MessageDirection::Req => 1,
        MessageDirection::Ack => 2,
    }
}

impl MessageDirection {
    /// The two-bit wire encoding of this direction.
    pub fn into_bits(self) -> (r: u16)
        ensures
            r == spec_direction_bits(self),
    {
        match self {
            MessageDirection::NoDir => 0,
            MessageDirection::Req => 1,
            MessageDirection::Ack => 2,
        }
    }

    /// The direction encoded by a two-bit value.  The value 3 encodes no
    /// direction and is left out here; received identities carrying it are
    /// undecodable and must be routed raw.
    pub fn from_bits(value: u16) -> (r: Self)
        requires
            value <= 2,
        ensures
            spec_direction_bits(r) == value,
    {
        if value == 0 {
            MessageDirection::NoDir
        } else if value == 1 {
            MessageDirection::Req
        } else {
            MessageDirection::Ack
        }
    }
}

/// The operation code of a packed identity: bits 0 to 11.
pub open spec fn spec_id_operation(bits: u16) -> u16 {
    bits & 0x0FFF
}

/// The kind field of a packed identity: bits 12 and 13.
pub open spec fn spec_id_kind_bits(bits: u16) -> u16 {
    (bits >> 12) & 3
}

/// The direction field of a packed identity: bits 14 and 15.
pub open spec fn spec_id_direction_bits(bits: u16) -> u16 {
    (bits >> 14) & 3
}

/// The message identity: a 16-bit value packing a direction (bits 14-15),
/// a kind (bits 12-13) and an operation code (bits 0-11).
#[derive(Clone, Copy, Debug, PartialEq, Eq, Hash, Structural)]
pub struct MessageId(pub u16);

impl MessageId {
    /// The identity with all bits zero.
    pub fn new() -> (r: Self)
        ensures
            r.0 == 0,
    {
        MessageId(0)
    }

    /// The identity encoded by a raw 16-bit value.
    pub fn from_bits(value: u16) -> (r: Self)
        ensures
            r.0 == value,
    {
        MessageId(value)
    }

    /// The raw 16-bit encoding of this identity.
    pub fn into_bits(self) -> (r: u16)
        ensures
            r == self.0,
    {
        self.0
    }

    /// This identity with the operation code replaced.
    pub fn with_operation(self, operation: usize) -> (r: Self)
        requires
            operation < 4096,
        ensures
            r.0 == (self.0 & 0xF000) | (operation as u16),
    {
        MessageId((self.0 & 0xF000) | (operation as u16))
    }

    /// This identity with the kind field replaced.
    pub fn with_kind(self, kind: MessageKind) -> (r: Self)
        ensures
            r.0 == (self.0 & 0xCFFF) | (spec_kind_bits(kind) << 12),
    {
        let bits = kind.into_bits();
        MessageId((self.0 & 0xCFFF) | (bits << 12))
    }

    /// This identity with the direction field replaced.
    pub fn with_direction(self, direction: MessageDirection) -> (r: Self)
        ensures
            r.0 == (self.0 & 0x3FFF) | (spec_direction_bits(direction) << 14),
    {
        let bits = direction.into_bits();
        MessageId((self.0 & 0x3FFF) | (bits << 14))
    }

    /// The operation code: bits 0 to 11.
    pub fn operation(&self) -> (r: usize)
        ensures
            r == spec_id_operation(self.0),
    {
        (self.0 & 0x0FFF) as usize
    }

    /// The kind field, decoded.
    pub fn kind(&self) -> (r: MessageKind)
        ensures
            spec_kind_bits(r) == spec_id_kind_bits(self.0),
    {
        let bits = (self.0 >> 12) & 3;
        proof {
            let x = self.0;
            assert((x >> 12) & 3 <= 3) by (bit_vector);
        }
        MessageKind::from_bits(bits)
    }

    /// Whether the direction field holds one of the three known directions.
    pub fn has_known_direction(&self) -> (r: bool)
        ensures
            r == (spec_id_direction_bits(self.0) <= 2),
    {
        (self.0 >> 14) & 3 <= 2
    }

    /// The direction field, decoded.  An identity whose direction bits hold
    /// the unknown value 3 is undecodable and is left out here.
    pub fn direction(&self) -> (r: MessageDirection)
        requires
            spec_id_direction_bits(self.0) <= 2,
        ensures
            spec_direction_bits(r) == spec_id_direction_bits(self.0),
    {
        let bits = (self.0 >> 14) & 3;
        proof {
            let x = self.0;
            assert((x >> 14) & 3 <= 3) by (bit_vector);
        }
        MessageDirection::from_bits(bits)
    }
}

/// Every packed identity is exactly the packing of its three fields: putting
/// the direction bits back at 14, the kind bits at 12 and the operation code
/// below them reassembles the original 16-bit value.
pub proof fn lemma_id_round_trip(v: u16)
    ensures
        (spec_id_direction_bits(v) << 14) | (spec_id_kind_bits(v) << 12) | spec_id_operation(v)
            == v,
{
    assert((((v >> 14) & 3) << 14) | ((((v >> 12) & 3)) << 12) | (v & 0x0FFF) == v)
        by (bit_vector);
}

/// Packing three in-range fields and reading them back yields the fields:
/// the three extractors recover exactly what the packing put in.
pub proof fn lemma_id_fields(direction: u16, kind: u16, operation: u16)
    requires
        direction <= 3,
        kind <= 3,
        operation <= 0x0FFF,
    ensures
        spec_id_direction_bits((direction << 14) | (kind << 12) | operation) == direction,
        spec_id_kind_bits((direction << 14) | (kind << 12) | operation) == kind,
        spec_id_operation((direction << 14) | (kind << 12) | operation) == operation,
{
    assert(direction <= 3 && kind <= 3 && operation <= 0x0FFF ==> {
        &&& ((((direction << 14) | (kind << 12) | operation) >> 14) & 3) == direction
        &&& ((((direction << 14) | (kind << 12) | operation) >> 12) & 3) == kind
        &&& (((direction << 14) | (kind << 12) | operation) & 0x0FFF) == operation
    }) by (bit_vector);
}

/// Message header: always exactly 6 bytes on the wire.
#[derive(Clone, Copy, Debug, PartialEq, Eq, Structural)]
pub struct Header {
    /// Declared body size.  A most significant bit of 1 means that the
    /// message body is encrypted.
    pub size: u16,
    /// The packed message identity.
    pub id: MessageId,
    /// Sequential check byte, ensures a message is not being replayed.
    pub sequence: u8,
    /// Redundancy check byte over the whole message.
    pub checksum: u8,
}

/// The declared body size with the encrypted-body flag masked off.
pub open spec fn spec_data_size(h: Header) -> u16 {
    h.size & 0x7FFF
}

/// The 6 wire bytes of a header, in order: `size`, `id`, `sequence`,
/// `checksum`, the two 16-bit fields little-endian.
pub open spec fn spec_header_bytes(h: Header) -> Seq<u8> {
    spec_u16_to_le_bytes(h.size) + spec_u16_to_le_bytes(h.id.0) + seq![h.sequence, h.checksum]
}

/// The header whose 6 wire bytes stand at the front of `s`.
pub open spec fn spec_header_of(s: Seq<u8>) -> Header
    recommends
        s.len() >= 6,
{
    Header {
        size: spec_u16_from_le_bytes(s.subrange(0, 2)),
        id: MessageId(spec_u16_from_le_bytes(s.subrange(2, 4))),
        sequence: s[4],
        checksum: s[5],
    }
}

impl Header {
    /// A header for the given identity and size field, with the sequence and
    /// checksum bytes cleared.
    pub fn new(id: MessageId, size: u16) -> (r: Self)
        ensures
            r == (Header { id, size, sequence: 0, checksum: 0 }),
    {
        Header { id, size, sequence: 0, checksum: 0 }
    }

    /// The declared body size: the `size` field with the encrypted-body
    /// flag masked off.
    pub fn data_size(&self) -> (r: u16)
        ensures
            r == spec_data_size(*self),
    {
        self.size & 0x7FFF
    }

    /// The whole size of the message on the wire: declared body size plus
    /// the 6 header bytes.
    pub fn message_size(&self) -> (r: u16)
        ensures
            r == spec_data_size(*self) + 6,
    {
        proof {
            let x = self.size;
            assert(x & 0x7FFF <= 0x7FFF) by (bit_vector);
        }
        self.data_size() + 6
    }

    /// Serialise this header to its 6 wire bytes.
    pub fn to_bytes(&self) -> (r: Vec<u8>)
        ensures
            r@ == spec_header_bytes(*self),
    {
        let mut out = u16_to_le_bytes(self.size);
        let mut id_bytes = u16_to_le_bytes(self.id.0);
        out.append(&mut id_bytes);
        out.push(self.sequence);
        out.push(self.checksum);
        proof {
            assert_seqs_equal!(out@ == spec_header_bytes(*self));
        }
        out
    }

    /// Parse the header standing at the front of `b`.
    pub fn from_bytes(b: &[u8]) -> (r: Self)
        requires
            b@.len() >= 6,
        ensures
            r == spec_header_of(b@),
    {
        let mut size_bytes: Vec<u8> = Vec::new();
        size_bytes.push(b[0]);
        size_bytes.push(b[1]);
        proof {
            assert_seqs_equal!(size_bytes@ == b@.subrange(0, 2));
        }
        let size = u16_from_le_bytes(size_bytes.as_slice());
        let mut id_bytes: Vec<u8> = Vec::new();
        id_bytes.push(b[2]);
        id_bytes.push(b[3]);
        proof {
            assert_seqs_equal!(id_bytes@ == b@.subrange(2, 4));
        }
        let id = u16_from_le_bytes(id_bytes.as_slice());
        Header { size, id: MessageId(id), sequence: b[4], checksum: b[5] }
    }
}

/// Decoding the 6 wire bytes of any header yields the header back, field
/// for field.
pub proof fn lemma_header_round_trip(h: Header)
    ensures
        spec_header_of(spec_header_bytes(h)) == h,
{
    lemma_auto_spec_u16_to_from_le_bytes();
    let s = spec_header_bytes(h);
    assert_seqs_equal!(s.subrange(0, 2) == spec_u16_to_le_bytes(h.size));
    assert_seqs_equal!(s.subrange(2, 4) == spec_u16_to_le_bytes(h.id.0));
}

/// Re-encoding the header parsed from any 6 bytes yields those bytes back.
pub proof fn lemma_header_bytes_round_trip(s: Seq<u8>)
    requires
        s.len() == 6,
    ensures
        spec_header_bytes(spec_header_of(s)) == s,
{
    lemma_auto_spec_u16_to_from_le_bytes();
    let h = spec_header_of(s);
    assert_seqs_equal!(spec_header_bytes(h) == s);
}

/// A framed protocol unit: a 6-byte header plus its body bytes.
#[derive(Clone, Debug)]
pub struct Message {
    /// The message header.
    pub header: Header,
    /// The message body.
    pub data: Vec<u8>,
}

impl PartialEq for Message {
    fn eq(&self, other: &Message) -> (r: bool) {
        let headers_equal = self.header == other.header;
        let bodies_equal = self.data == other.data;
        proof {
            if self.data@.len() == other.data@.len()
                && (forall|i: int| #![auto] 0 <= i < self.data@.len()
                    ==> self.data@[i] == other.data@[i]) {
                assert_seqs_equal!(self.data@ == other.data@);
            }
        }
        headers_equal && bodies_equal
    }
}

impl vstd::std_specs::cmp::PartialEqSpecImpl for Message {
    open spec fn obeys_eq_spec() -> bool {
        true
    }

    open spec fn eq_spec(&self, other: &Message) -> bool {
        self.header == other.header && self.data@ == other.data@
    }
}

/// The mathematical value of a message: its header and its body bytes.
#[verifier::ext_equal]
pub ghost struct MessageView {
    /// The message header.
    pub header: Header,
    /// The message body as a byte sequence.
    pub data: Seq<u8>,
}

impl View for Message {
    type V = MessageView;

    open spec fn view(&self) -> MessageView {
        MessageView { header: self.header, data: self.data@ }
    }
}

/// The full wire bytes of a message: header bytes then body bytes.
pub open spec fn spec_message_bytes(m: MessageView) -> Seq<u8> {
    spec_header_bytes(m.header) + m.data
}

/// The message whose header stands at the front of `s` and whose body is
/// everything after the 6 header bytes.
pub open spec fn spec_message_of(s: Seq<u8>) -> MessageView
    recommends
        s.len() >= 6,
{
    MessageView { header: spec_header_of(s), data: s.skip(6) }
}

/// Copy the byte range `[from, to)` of a slice into a fresh vector.
pub fn copy_byte_range(b: &[u8], from: usize, to: usize) -> (r: Vec<u8>)
    requires
        from <= to <= b@.len(),
    ensures
        r@ == b@.subrange(from as int, to as int),
{
    let mut out: Vec<u8> = Vec::new();
    let mut i: usize = from;
    while i < to
        invariant
            from <= i <= to <= b@.len(),
            out@ == b@.subrange(from as int, i as int),
        decreases to - i,
    {
        out.push(b[i]);
        proof {
            assert_seqs_equal!(out@ == b@.subrange(from as int, i as int + 1));
        }
        i = i + 1;
    }
    out
}

impl Message {
    /// A message built from an identity's three fields and a body.  The
    /// `size` field is the body length; sequence and checksum start at zero.
    pub fn new(direction: MessageDirection, kind: MessageKind, operation: usize, data: Vec<u8>)
        -> (r: Self)
        requires
            operation < 4096,
            data@.len() <= 0x7FFF,
        ensures
            r.header.id.0 == (spec_direction_bits(direction) << 14)
                | (spec_kind_bits(kind) << 12) | (operation as u16),
            r.header.size == data@.len(),
            r.header.sequence == 0,
            r.header.checksum == 0,
            r@.data == data@,
    {
        let id = MessageId::new().with_kind(kind).with_direction(direction).with_operation(
            operation,
        );
        proof {
            let k = spec_kind_bits(kind);
            let d = spec_direction_bits(direction);
            let op = operation as u16;
            assert(k <= 3 && d <= 3 && op <= 0x0FFF ==> ((((0u16 & 0xCFFF) | (k << 12))
                & 0x3FFF) | (d << 14)) & 0xF000 | op == (d << 14) | (k << 12) | op)
                by (bit_vector);
        }
        let len = data.len() as u16;
        Message { header: Header::new(id, len), data }
    }

    /// Whether the encrypted-body flag is set in the `size` field.
    pub fn is_encrypted(&self) -> (r: bool)
        ensures
            r == (self.header.size & 0x8000 != 0),
    {
        self.header.size & 0x8000 != 0
    }

    /// Read access to the header.
    pub fn header(&self) -> (r: &Header)
        ensures
            *r == self.header,
    {
        &self.header
    }

    /// Exclusive access to the header; the body is left alone.
    pub fn header_mut(&mut self) -> (r: &mut Header)
        ensures
            *r == old(self).header,
            *final(self) == (Message { header: *final(r), data: old(self).data }),
    {
        &mut self.header
    }

    /// The message body, consuming the message.
    pub fn reader(self) -> (r: Vec<u8>)
        ensures
            r == self.data,
    {
        self.data
    }

    /// Serialise the whole message: 6 header bytes, then the body.
    pub fn to_bytes(&self) -> (r: Vec<u8>)
        ensures
            r@ == spec_message_bytes(self@),
    {
        let mut out = self.header.to_bytes();
        let mut i: usize = 0;
        while i < self.data.len()
            invariant
                i <= self.data@.len(),
                out@ == spec_header_bytes(self.header) + self.data@.subrange(0, i as int),
            decreases self.data@.len() - i,
        {
            out.push(self.data[i]);
            proof {
                assert_seqs_equal!(out@ ==
                    spec_header_bytes(self.header) + self.data@.subrange(0, i as int + 1));
            }
            i = i + 1;
        }
        proof {
            assert_seqs_equal!(out@ == spec_message_bytes(self@));
        }
        out
    }

    /// Parse a message whose wire bytes are exactly `b`: the first 6 bytes
    /// are the header, everything after them is the body.
    pub fn from_bytes(b: &[u8]) -> (r: Self)
        requires
            b@.len() >= 6,
        ensures
            r@ == spec_message_of(b@),
    {
        let header = Header::from_bytes(b);
        let data = copy_byte_range(b, 6, b.len());
        proof {
            assert_seqs_equal!(data@ == b@.skip(6));
        }
        Message { header, data }
    }
}

/// Serialising any message and parsing the bytes back yields the message.
pub proof fn lemma_message_round_trip(m: MessageView)
    ensures
        spec_message_of(spec_message_bytes(m)) == m,
{
    lemma_header_round_trip(m.header);
    let s = spec_message_bytes(m);

    assert(spec_header_bytes(m.header).len() == 6) by {
        lemma_auto_spec_u16_to_from_le_bytes();
    }
    assert_seqs_equal!(s.subrange(0, 6) == spec_header_bytes(m.header));
    assert(spec_header_of(s) == spec_header_of(spec_header_bytes(m.header))) by {
        assert(s.subrange(0, 2) == s.subrange(0, 6).subrange(0, 2));
        assert(s.subrange(2, 4) == s.subrange(0, 6).subrange(2, 4));
        assert_seqs_equal!(s.subrange(0, 2) == spec_header_bytes(m.header).subrange(0, 2));
        assert_seqs_equal!(s.subrange(2, 4) == spec_header_bytes(m.header).subrange(2, 4));
    }
    assert_seqs_equal!(s.skip(6) == m.data);
}

} // verus!
