//! The multi-fragment ("massive") reassembly buffer.
//!
//! A logical message too large for one frame travels as one header
//! fragment (first body byte 1, then the fragment count and the eventual
//! identity, both 16-bit little-endian) followed by body fragments (first
//! body byte 0, then payload).  The buffer aggregates the payloads in
//! arrival order; when the promised count is reached it reassembles one
//! message under the stored identity, to be re-injected through the
//! loopback path.

use crate::message::{Header, Message, MessageId, MessageView};
use vstd::assert_seqs_equal;
use vstd::bytes::{
    lemma_auto_spec_u16_to_from_le_bytes, spec_u16_from_le_bytes, spec_u16_to_le_bytes,
    u16_from_le_bytes,
};
use vstd::prelude::*;

verus! {

/// The protocol errors of massive reassembly.
#[derive(Clone, Copy, Debug, PartialEq, Eq, Structural)]
pub enum MassiveError {
    /// A second header fragment arrived before the aggregation finished.
    AlreadyInitialized,
    /// A body fragment arrived with no header fragment before it.
    HeaderMissing,
    /// More body fragments arrived than the header promised.
    TooMany,
    /// A fragment body too short to carry its own framing.
    Malformed,
}

/// The header fragment's payload: how many body fragments follow, and the
/// identity the reassembled message will carry.
#[derive(Clone, Copy, Debug, PartialEq, Eq, Structural)]
pub struct MassiveHeader {
    /// The number of body fragments the aggregation will hold.
    pub total_count: u16,
    /// The identity of the eventual logical message.
    pub id: MessageId,
}

/// The mathematical state of a reassembly buffer.
#[verifier::ext_equal]
pub ghost struct MassiveState {
    /// The pending header: `(total_count, id bits)`, if one arrived.
    pub header: Option<(u16, u16)>,
    /// How many body fragments arrived so far.
    pub count: nat,
    /// The concatenated payloads of the body fragments, in arrival order.
    pub data: Seq<u8>,
}

/// The empty state: no pending aggregation.
pub open spec fn spec_massive_empty() -> MassiveState {
    MassiveState { header: None, count: 0, data: Seq::empty() }
}

/// The fragment count a pending header promised.
pub open spec fn spec_promised_total(s: MassiveState) -> u16
    recommends
        s.header is Some,
{
    let h = s.header->0;
    h.0
}

/// One fragment body consumed: the state afterwards and the error, if the
/// fragment was refused.  A refused fragment leaves the state as it was.
pub open spec fn spec_massive_add(s: MassiveState, body: Seq<u8>) -> (MassiveState, Option<
    MassiveError,
>) {
    if body.len() == 0 {
        (s, Some(MassiveError::Malformed))
    } else if body[0] == 1 {
        if body.len() < 5 {
            (s, Some(MassiveError::Malformed))
        } else if s.header is Some {
            (s, Some(MassiveError::AlreadyInitialized))
        } else {
            let total = spec_u16_from_le_bytes(body.subrange(1, 3));
            let id = spec_u16_from_le_bytes(body.subrange(3, 5));
            (MassiveState { header: Some((total, id)), ..s }, None)
        }
    } else {
        if s.header is None {
            (s, Some(MassiveError::HeaderMissing))
        } else if s.count + 1 > spec_promised_total(s) {
            (s, Some(MassiveError::TooMany))
        } else {
            (MassiveState { count: s.count + 1, data: s.data + body.skip(1), ..s }, None)
        }
    }
}

/// What collecting yields: the state afterwards and the reassembled
/// message, if the aggregation was complete.  A complete aggregation
/// whose payload exceeds the 15-bit size field is discarded.
pub open spec fn spec_massive_collect(s: MassiveState) -> (MassiveState, Option<MessageView>) {
    match s.header {
        None => (s, None),
        Some(h) => {
            if s.count == h.0 {
                if s.data.len() <= 0x7FFF {
                    let m = MessageView {
                        header: Header {
                            size: s.data.len() as u16,
                            id: MessageId(h.1),
                            sequence: 0,
                            checksum: 0,
                        },
                        data: s.data,
                    };
                    (spec_massive_empty(), Some(m))
                } else {
                    (spec_massive_empty(), None)
                }
            } else {
                (s, None)
            }
        },
    }
}

/// Aggregates the fragments of one massive message.
#[derive(Debug)]
pub struct MassiveBuffer {
    /// The pending header fragment, if one arrived.
    pub header: Option<MassiveHeader>,
    /// How many body fragments arrived so far.
    pub count: usize,
    /// The concatenated payloads, in arrival order.
    pub data: Vec<u8>,
}

impl View for MassiveBuffer {
    type V = MassiveState;

    open spec fn view(&self) -> MassiveState {
        MassiveState {
            header: match self.header {
                Some(h) => Some((h.total_count, h.id.0)),
                None => None,
            },
            count: self.count as nat,
            data: self.data@,
        }
    }
}

impl Default for MassiveBuffer {
    /// An empty buffer: no pending aggregation.
    fn default() -> (r: Self)
        ensures
            r@ == spec_massive_empty(),
    {
        MassiveBuffer { header: None, count: 0, data: Vec::new() }
    }
}

impl MassiveBuffer {
    /// Consume one fragment body: a header fragment opens an aggregation,
    /// a body fragment appends its payload.  A refused fragment reports
    /// its protocol error and changes nothing.
    pub fn add(&mut self, message: Message) -> (r: Result<(), MassiveError>)
        ensures
            final(self)@ == spec_massive_add(old(self)@, message@.data).0,
            r is Ok <==> spec_massive_add(old(self)@, message@.data).1 is None,
            r is Err ==> Some(r->Err_0) == spec_massive_add(old(self)@, message@.data).1,
    {
        let body = message.reader();
        if body.len() == 0 {
            return Err(MassiveError::Malformed);
        }
        if body[0] == 1 {
            self.add_header_bytes(&body)
        } else {
            self.add_body_bytes(&body)
        }
    }

    /// Open an aggregation from a header fragment body.
    fn add_header_bytes(&mut self, body: &Vec<u8>) -> (r: Result<(), MassiveError>)
        requires
            body@.len() > 0,
            body@[0] == 1,
        ensures
            final(self)@ == spec_massive_add(old(self)@, body@).0,
            r is Ok <==> spec_massive_add(old(self)@, body@).1 is None,
            r is Err ==> Some(r->Err_0) == spec_massive_add(old(self)@, body@).1,
    {
        if body.len() < 5 {
            return Err(MassiveError::Malformed);
        }
        if self.header.is_some() {
            return Err(MassiveError::AlreadyInitialized);
        }
        let mut tc_bytes: Vec<u8> = Vec::new();
        tc_bytes.push(body[1]);
        tc_bytes.push(body[2]);
        proof {
            assert_seqs_equal!(tc_bytes@ == body@.subrange(1, 3));
        }
        let total_count = u16_from_le_bytes(tc_bytes.as_slice());
        let mut id_bytes: Vec<u8> = Vec::new();
        id_bytes.push(body[3]);
        id_bytes.push(body[4]);
        proof {
            assert_seqs_equal!(id_bytes@ == body@.subrange(3, 5));
        }
        let id = MessageId(u16_from_le_bytes(id_bytes.as_slice()));
        self.header = Some(MassiveHeader { total_count, id });
        Ok(())
    }

    /// Append one body fragment's payload.
    fn add_body_bytes(&mut self, body: &Vec<u8>) -> (r: Result<(), MassiveError>)
        requires
            body@.len() > 0,
            body@[0] != 1,
        ensures
            final(self)@ == spec_massive_add(old(self)@, body@).0,
            r is Ok <==> spec_massive_add(old(self)@, body@).1 is None,
            r is Err ==> Some(r->Err_0) == spec_massive_add(old(self)@, body@).1,
    {
        let total_count = match &self.header {
            Some(header) => header.total_count,
            None => {
                return Err(MassiveError::HeaderMissing);
            },
        };
        if self.count >= total_count as usize {
            return Err(MassiveError::TooMany);
        }
        self.count = self.count + 1;
        let payload = crate::message::copy_byte_range(body.as_slice(), 1, body.len());
        let mut payload = payload;
        self.data.append(&mut payload);
        proof {
            assert_seqs_equal!(self.data@ == old(self)@.data + body@.skip(1));
        }
        Ok(())
    }

    /// Give back the reassembled message if every promised fragment has
    /// arrived, resetting the buffer; otherwise leave everything pending.
    pub fn collect(&mut self) -> (r: Option<Message>)
        ensures
            final(self)@ == spec_massive_collect(old(self)@).0,
            r is Some <==> spec_massive_collect(old(self)@).1 is Some,
            r is Some ==> r->0@ == spec_massive_collect(old(self)@).1->0,
    {
        let header = match &self.header {
            Some(header) => *header,
            None => {
                return None;
            },
        };
        if self.count != header.total_count as usize {
            return None;
        }
        if self.data.len() > 0x7FFF {
            self.reset();
            return None;
        }
        let mut data: Vec<u8> = Vec::new();
        data.append(&mut self.data);
        let len = data.len() as u16;
        self.reset();
        Some(Message { header: Header::new(header.id, len), data })
    }

    /// Drop any pending aggregation.
    pub fn reset(&mut self)
        ensures
            final(self)@ == spec_massive_empty(),
    {
        self.header = None;
        self.count = 0;
        self.data = Vec::new();
    }
}

/// Handles `Framework/Req/13` fragments: feeds each into the reassembly
/// buffer and hands back the reassembled message once it is complete.
#[derive(Debug)]
pub struct MassiveProcessor {
    /// The aggregation state of this connection.
    pub buffer: MassiveBuffer,
}

impl Default for MassiveProcessor {
    /// A processor with an empty reassembly buffer.
    fn default() -> (r: Self)
        ensures
            r.buffer@ == spec_massive_empty(),
    {
        MassiveProcessor { buffer: MassiveBuffer::default() }
    }
}

impl MassiveProcessor {
    /// Consume one fragment message.  A completed aggregation comes back
    /// as the message to re-inject through the loopback path.  A protocol
    /// error discards the partial aggregation and the connection goes on.
    pub fn process(&mut self, message: Message) -> (r: Option<Message>)
        ensures
            ({
                let (added, err) = spec_massive_add(old(self).buffer@, message@.data);
                match err {
                    Some(_) => final(self).buffer@ == spec_massive_empty() && r is None,
                    None => {
                        let (after, collected) = spec_massive_collect(added);
                        &&& final(self).buffer@ == after
                        &&& r is Some <==> collected is Some
                        &&& r is Some ==> r->0@ == collected->0
                    },
                }
            }),
    {
        match self.buffer.add(message) {
            Ok(_) => self.buffer.collect(),
            Err(_) => {
                self.buffer.reset();
                None
            },
        }
    }
}

/// The concatenation of a sequence of payloads, in order.
pub open spec fn spec_concat_payloads(payloads: Seq<Seq<u8>>) -> Seq<u8>
    decreases payloads.len(),
{
    if payloads.len() == 0 {
        Seq::empty()
    } else {
        payloads[0] + spec_concat_payloads(payloads.skip(1))
    }
}

/// The fragment body that carries one payload: a zero byte, then the
/// payload.
pub open spec fn spec_body_fragment(payload: Seq<u8>) -> Seq<u8> {
    seq![0u8] + payload
}

/// The state after feeding a run of body fragments, one per payload.
pub open spec fn spec_feed_payloads(s: MassiveState, payloads: Seq<Seq<u8>>) -> MassiveState
    decreases payloads.len(),
{
    if payloads.len() == 0 {
        s
    } else {
        spec_feed_payloads(
            spec_massive_add(s, spec_body_fragment(payloads[0])).0,
            payloads.skip(1),
        )
    }
}

/// Feeding body fragments into an open aggregation with room for them is
/// accepted fragment by fragment, and appends their payloads in order.
pub proof fn lemma_feed_payloads_ok(s: MassiveState, payloads: Seq<Seq<u8>>)
    requires
        s.header is Some,
        s.count + payloads.len() <= spec_promised_total(s),
    ensures
        spec_feed_payloads(s, payloads) == (MassiveState {
            count: s.count + payloads.len(),
            data: s.data + spec_concat_payloads(payloads),
            ..s
        }),
        forall|i: int| 0 <= i < payloads.len() ==> spec_massive_add(
            #[trigger] spec_feed_payloads(s, payloads.subrange(0, i)),
            spec_body_fragment(payloads[i]),
        ).1 is None,
    decreases payloads.len(),
{
    if payloads.len() == 0 {
        assert(spec_feed_payloads(s, payloads) =~= MassiveState {
            count: s.count + payloads.len(),
            data: s.data + spec_concat_payloads(payloads),
            ..s
        });
    } else {
        let frag = spec_body_fragment(payloads[0]);
        assert(frag.len() > 0 && frag[0] == 0);
        let (s1, e1) = spec_massive_add(s, frag);
        assert(e1 is None);
        assert_seqs_equal!(frag.skip(1) == payloads[0]);
        assert(s1 =~= MassiveState { count: s.count + 1, data: s.data + payloads[0], ..s });
        lemma_feed_payloads_ok(s1, payloads.skip(1));
        assert_seqs_equal!(s.data + spec_concat_payloads(payloads)
            == (s.data + payloads[0]) + spec_concat_payloads(payloads.skip(1)));
        assert(spec_feed_payloads(s, payloads) =~= MassiveState {
            count: s.count + payloads.len(),
            data: s.data + spec_concat_payloads(payloads),
            ..s
        });
        assert forall|i: int| 0 <= i < payloads.len() implies spec_massive_add(
            #[trigger] spec_feed_payloads(s, payloads.subrange(0, i)),
            spec_body_fragment(payloads[i]),
        ).1 is None by {
            if i == 0 {
                assert(payloads.subrange(0, 0) =~= Seq::<Seq<u8>>::empty());
                assert(spec_feed_payloads(s, payloads.subrange(0, 0)) == s);
            } else {
                let sub = payloads.subrange(0, i);
                assert(sub[0] == payloads[0]);
                assert_seqs_equal!(sub.skip(1) == payloads.skip(1).subrange(0, i - 1));
                assert(spec_feed_payloads(s, sub) == spec_feed_payloads(
                    s1,
                    payloads.skip(1).subrange(0, i - 1),
                ));
                assert(payloads.skip(1)[i - 1] == payloads[i]);
            }
        }
    }
}

/// Massive idempotence: one header fragment promising `n` bodies,
/// followed by exactly those `n` body fragments, reassembles into exactly
/// one message whose identity is the header's and whose body is the
/// payloads' concatenation, leaving the buffer empty.
pub proof fn lemma_massive_idempotence(total: u16, id: u16, payloads: Seq<Seq<u8>>)
    requires
        payloads.len() == total,
        spec_concat_payloads(payloads).len() <= 0x7FFF,
    ensures
        ({
            let header_body = seq![1u8] + spec_u16_to_le_bytes(total) + spec_u16_to_le_bytes(id);
            let (s1, e1) = spec_massive_add(spec_massive_empty(), header_body);
            let s2 = spec_feed_payloads(s1, payloads);
            let (s3, collected) = spec_massive_collect(s2);
            &&& e1 is None
            &&& s3 == spec_massive_empty()
            &&& collected is Some
            &&& collected->0.header.id == MessageId(id)
            &&& collected->0.data == spec_concat_payloads(payloads)
        }),
{
    lemma_auto_spec_u16_to_from_le_bytes();
    let header_body = seq![1u8] + spec_u16_to_le_bytes(total) + spec_u16_to_le_bytes(id);
    assert(header_body.len() == 5);
    assert(header_body[0] == 1);
    assert_seqs_equal!(header_body.subrange(1, 3) == spec_u16_to_le_bytes(total));
    assert_seqs_equal!(header_body.subrange(3, 5) == spec_u16_to_le_bytes(id));
    let (s1, e1) = spec_massive_add(spec_massive_empty(), header_body);
    assert(e1 is None);
    assert(s1.header == Some((total, id)) && s1.count == 0 && s1.data == Seq::<u8>::empty());
    lemma_feed_payloads_ok(s1, payloads);
    let s2 = spec_feed_payloads(s1, payloads);
    assert(s2.count == total && s2.header == Some((total, id)));
    assert_seqs_equal!(s2.data == spec_concat_payloads(payloads));
}

} // verus!
