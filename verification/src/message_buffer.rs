//! Reassembly of complete messages from arbitrary TCP read chunks.
//!
//! A `MessageBuffer` consumes byte chunks of any size and emits the
//! complete messages they form, keeping a partial message across calls
//! until later chunks supply the rest.  Extraction is greedy: as long as a
//! full header and the body it declares are present, one message is
//! emitted and the cursor moves past it.  A header declaring a body larger
//! than 4090 bytes is a framing violation and fatal to the connection.

use crate::message::{
    copy_byte_range, spec_message_bytes, spec_message_of, Message, MessageView,
};
use vstd::assert_seqs_equal;
use vstd::bytes::{spec_u16_from_le_bytes, u16_from_le_bytes};
use vstd::prelude::*;

verus! {

/// The error of a header that declares a body larger than 4090 bytes:
/// a fatal framing violation, surfaced as connection-closed.
#[derive(Clone, Copy, Debug, PartialEq, Eq, Structural)]
pub struct FramingViolation;

/// The declared body size at the front of a byte stream.
pub open spec fn spec_stream_data_size(s: Seq<u8>) -> int
    recommends
        s.len() >= 2,
{
    (spec_u16_from_le_bytes(s.subrange(0, 2)) & 0x7FFF) as int
}

/// What greedy extraction leaves of a byte stream: the complete messages
/// at its front, the remainder that is not yet a whole message, and
/// whether a framing violation was met.
#[verifier::ext_equal]
pub ghost struct Extraction {
    /// The complete messages, in stream order.
    pub messages: Seq<MessageView>,
    /// The bytes after the last complete message.
    pub rest: Seq<u8>,
    /// Whether a header declaring an oversized body was met.
    pub fault: bool,
}

/// Greedily extract complete messages from the front of a byte stream.
pub open spec fn spec_extract(s: Seq<u8>) -> Extraction
    decreases s.len(),
{
    if s.len() < 6 {
        Extraction { messages: Seq::empty(), rest: s, fault: false }
    } else if spec_stream_data_size(s) > 4090 {
        Extraction { messages: Seq::empty(), rest: s, fault: true }
    } else if s.len() < spec_stream_data_size(s) + 6 {
        Extraction { messages: Seq::empty(), rest: s, fault: false }
    } else {
        let size = spec_stream_data_size(s) + 6;
        let tail = spec_extract(s.skip(size));
        Extraction {
            messages: seq![spec_message_of(s.subrange(0, size))] + tail.messages,
            rest: tail.rest,
            fault: tail.fault,
        }
    }
}

/// A byte stream that holds no complete message and no oversized header:
/// what may remain buffered between reads.
pub open spec fn spec_pending_ok(s: Seq<u8>) -> bool {
    s.len() < 6 || (spec_stream_data_size(s) <= 4090 && s.len() < spec_stream_data_size(s) + 6)
}

/// The views of a sequence of messages, in order.
pub open spec fn spec_views(ms: Seq<Message>) -> Seq<MessageView> {
    Seq::new(ms.len(), |i: int| ms[i]@)
}

/// A pending stream extracts to itself: no messages, no fault.
pub proof fn lemma_extract_pending(s: Seq<u8>)
    requires
        spec_pending_ok(s),
    ensures
        spec_extract(s) == (Extraction { messages: Seq::empty(), rest: s, fault: false }),
{
}

/// Extraction that meets no fault leaves a pending remainder.
pub proof fn lemma_extract_rest_pending(s: Seq<u8>)
    ensures
        !spec_extract(s).fault ==> spec_pending_ok(spec_extract(s).rest),
    decreases s.len(),
{
    if s.len() < 6 {
    } else if spec_stream_data_size(s) > 4090 {
    } else if s.len() < spec_stream_data_size(s) + 6 {
    } else {
        lemma_extract_rest_pending(s.skip(spec_stream_data_size(s) + 6));
    }
}

/// A stream whose extraction faults still faults with more bytes behind
/// it: the offending header stays where it is.
pub proof fn lemma_extract_fault_sticky(a: Seq<u8>, b: Seq<u8>)
    requires
        spec_extract(a).fault,
    ensures
        spec_extract(a + b).fault,
    decreases a.len(),
{
    let s = a + b;
    assert(a.len() >= 6);
    assert_seqs_equal!(s.subrange(0, 2) == a.subrange(0, 2));
    if spec_stream_data_size(a) > 4090 {
    } else {
        let size = spec_stream_data_size(a) + 6;
        if a.len() < size {
        } else {
            lemma_extract_fault_sticky(a.skip(size), b);
            assert_seqs_equal!(s.skip(size) == a.skip(size) + b);
        }
    }
}

/// Extraction is incremental: extracting a stream extended by more bytes
/// yields the messages of the first stream, then whatever the remainder
/// plus the new bytes yield.
pub proof fn lemma_extract_append(a: Seq<u8>, b: Seq<u8>)
    requires
        !spec_extract(a).fault,
    ensures
        ({
            let ea = spec_extract(a);
            let et = spec_extract(ea.rest + b);
            spec_extract(a + b) == (Extraction {
                messages: ea.messages + et.messages,
                rest: et.rest,
                fault: et.fault,
            })
        }),
    decreases a.len(),
{
    let ea = spec_extract(a);
    let s = a + b;
    if a.len() < 6 || (spec_stream_data_size(a) <= 4090 && a.len() < spec_stream_data_size(a)
        + 6) {
        assert(ea.rest == a);
        assert(ea.messages =~= Seq::<MessageView>::empty());
        let et = spec_extract(ea.rest + b);
        assert(ea.rest + b == s);
        assert(ea.messages + et.messages =~= et.messages);
        assert(spec_extract(s) =~= Extraction {
            messages: ea.messages + et.messages,
            rest: et.rest,
            fault: et.fault,
        });
    } else {
        let size = spec_stream_data_size(a) + 6;
        assert_seqs_equal!(s.subrange(0, 2) == a.subrange(0, 2));
        assert(spec_stream_data_size(s) == spec_stream_data_size(a));
        assert(s.len() >= size);
        assert_seqs_equal!(s.subrange(0, size) == a.subrange(0, size));
        assert_seqs_equal!(s.skip(size) == a.skip(size) + b);
        lemma_extract_append(a.skip(size), b);
        let ra = spec_extract(a.skip(size));
        let rs = spec_extract(s.skip(size));
        let m = spec_message_of(a.subrange(0, size));
        assert(ea.messages == seq![m] + ra.messages);
        assert(ea.rest == ra.rest);
        let et = spec_extract(ea.rest + b);
        assert(rs =~= Extraction {
            messages: ra.messages + et.messages,
            rest: et.rest,
            fault: et.fault,
        });
        assert_seqs_equal!(seq![m] + (ra.messages + et.messages)
            == (seq![m] + ra.messages) + et.messages);
        assert(spec_extract(s) =~= Extraction {
            messages: ea.messages + et.messages,
            rest: et.rest,
            fault: et.fault,
        });
    }
}

/// Reassembles complete messages from arbitrary-size read chunks, keeping
/// a partial message across reads.
#[derive(Debug)]
pub struct MessageBuffer {
    /// The bytes of the partial message left by earlier reads.
    incomplete_buffer: Vec<u8>,
}

impl View for MessageBuffer {
    type V = Seq<u8>;

    closed spec fn view(&self) -> Seq<u8> {
        self.incomplete_buffer@
    }
}

impl Default for MessageBuffer {
    /// An empty buffer, holding no partial message.
    fn default() -> (r: Self)
        ensures
            r@ == Seq::<u8>::empty(),
            spec_pending_ok(r@),
    {
        MessageBuffer { incomplete_buffer: Vec::new() }
    }
}

impl MessageBuffer {
    /// Join the partial message left by earlier reads with the new chunk:
    /// the buffered bytes come first, and the buffer empties.
    fn handle_incomplete_buffer(&mut self, incoming: &[u8]) -> (r: Vec<u8>)
        ensures
            r@ == old(self)@ + incoming@,
            final(self)@ == Seq::<u8>::empty(),
    {
        let mut buf: Vec<u8> = Vec::new();
        buf.append(&mut self.incomplete_buffer);
        buf.extend_from_slice(incoming);
        buf
    }

    /// Consume one read chunk and emit every message that is now
    /// complete, in stream order.  The buffered partial bytes and the
    /// chunk form one stream; its complete messages come out, its
    /// remainder stays buffered.  A header declaring a body larger than
    /// 4090 bytes is a fatal framing violation: the buffer resets and the
    /// read reports it.
    pub fn read(&mut self, incoming: &[u8]) -> (r: Result<Vec<Message>, FramingViolation>)
        requires
            spec_pending_ok(old(self)@),
        ensures
            ({
                let ex = spec_extract(old(self)@ + incoming@);
                &&& ex.fault ==> r is Err && final(self)@ == Seq::<u8>::empty()
                &&& !ex.fault ==> r is Ok && spec_views(r->Ok_0@) == ex.messages
                    && final(self)@ == ex.rest && spec_pending_ok(final(self)@)
            }),
    {
        let buf = self.handle_incomplete_buffer(incoming);
        let ghost total = buf@;
        proof {
            assert(total == old(self)@ + incoming@);
            assert(self@ == Seq::<u8>::empty());
            assert_seqs_equal!(total.skip(0) == total);
            assert(spec_views(Seq::<Message>::empty()) =~= Seq::<MessageView>::empty());
        }

        let mut out: Vec<Message> = Vec::new();
        let mut ptr: usize = 0;
        loop
            invariant
                ptr <= buf@.len(),
                buf@ == total,
                total == old(self)@ + incoming@,
                self@ == Seq::<u8>::empty(),
                ({
                    let tail = spec_extract(total.skip(ptr as int));
                    spec_extract(total) == (Extraction {
                        messages: spec_views(out@) + tail.messages,
                        rest: tail.rest,
                        fault: tail.fault,
                    })
                }),
            ensures
                ptr <= buf@.len(),
                buf@ == total,
                self@ == Seq::<u8>::empty(),
                spec_pending_ok(total.skip(ptr as int)),
                ({
                    let tail = spec_extract(total.skip(ptr as int));
                    spec_extract(total) == (Extraction {
                        messages: spec_views(out@) + tail.messages,
                        rest: tail.rest,
                        fault: tail.fault,
                    })
                }),
            decreases buf@.len() - ptr,
        {
            let n = buf.len();
            let ghost tail = total.skip(ptr as int);
            if n - ptr < 6 {
                break;
            }
            let mut size_bytes: Vec<u8> = Vec::new();
            size_bytes.push(buf[ptr]);
            size_bytes.push(buf[ptr + 1]);
            proof {
                assert_seqs_equal!(size_bytes@ == tail.subrange(0, 2));
            }
            let raw_size = u16_from_le_bytes(size_bytes.as_slice());
            let data_size = (raw_size & 0x7FFF) as usize;
            proof {
                assert(data_size == spec_stream_data_size(tail));
            }
            if data_size > 4090 {
                self.incomplete_buffer = Vec::new();
                proof {
                    assert(spec_extract(tail).fault);
                    assert(spec_extract(total).fault);
                }
                return Err(FramingViolation);
            }
            let message_size = data_size + 6;
            if n - ptr < message_size {
                break;
            }
            let chunk = copy_byte_range(buf.as_slice(), ptr, ptr + message_size);
            proof {
                assert_seqs_equal!(chunk@ == tail.subrange(0, message_size as int));
            }
            let message = Message::from_bytes(chunk.as_slice());
            let ghost out_before = out@;
            out.push(message);
            ptr = ptr + message_size;
            proof {
                let tail2 = total.skip(ptr as int);
                assert_seqs_equal!(tail2 == tail.skip(message_size as int));
                let et = spec_extract(tail);
                let e2 = spec_extract(tail2);
                assert(et.messages == seq![message@] + e2.messages);
                assert(et.rest == e2.rest && et.fault == e2.fault);
                assert_seqs_equal!(spec_views(out@)
                    == spec_views(out_before) + seq![message@]);
                assert_seqs_equal!(spec_views(out_before) + (seq![message@] + e2.messages)
                    == (spec_views(out_before) + seq![message@]) + e2.messages);
            }
        }
        let n = buf.len();
        let remainder = copy_byte_range(buf.as_slice(), ptr, n);
        self.incomplete_buffer = remainder;
        proof {
            lemma_extract_pending(total.skip(ptr as int));
            let tail = spec_extract(total.skip(ptr as int));
            assert(spec_views(out@) + tail.messages =~= spec_views(out@));
        }
        Ok(out)
    }
}

/// The byte stream a sequence of chunks forms, in order.
pub open spec fn spec_concat_chunks(chunks: Seq<Seq<u8>>) -> Seq<u8>
    decreases chunks.len(),
{
    if chunks.len() == 0 {
        Seq::empty()
    } else {
        chunks[0] + spec_concat_chunks(chunks.skip(1))
    }
}

/// The byte stream a sequence of messages forms on the wire, in order.
pub open spec fn spec_concat_messages(ms: Seq<MessageView>) -> Seq<u8>
    decreases ms.len(),
{
    if ms.len() == 0 {
        Seq::empty()
    } else {
        spec_message_bytes(ms[0]) + spec_concat_messages(ms.skip(1))
    }
}

/// A message whose wire form frames correctly: the size field's declared
/// body length matches the body and stays within the 4090-byte bound.
pub open spec fn spec_wire_valid(m: MessageView) -> bool {
    &&& m.data.len() == (m.header.size & 0x7FFF)
    &&& (m.header.size & 0x7FFF) <= 4090
}

/// What a buffer's state becomes, and what it emits, when a sequence of
/// chunks is fed through `read` one after the other: each chunk joins the
/// pending remainder, its complete messages come out, the new remainder
/// stays.  A framing violation stops the feed.
pub open spec fn spec_feed(state: Seq<u8>, chunks: Seq<Seq<u8>>) -> Extraction
    decreases chunks.len(),
{
    if chunks.len() == 0 {
        Extraction { messages: Seq::empty(), rest: state, fault: false }
    } else {
        let first = spec_extract(state + chunks[0]);
        if first.fault {
            Extraction { messages: first.messages, rest: first.rest, fault: true }
        } else {
            let rec = spec_feed(first.rest, chunks.skip(1));
            Extraction {
                messages: first.messages + rec.messages,
                rest: rec.rest,
                fault: rec.fault,
            }
        }
    }
}

/// Feeding chunks one at a time extracts exactly what the whole stream
/// extracts: the chunk boundaries do not matter.
pub proof fn lemma_feed_is_extract(state: Seq<u8>, chunks: Seq<Seq<u8>>)
    requires
        spec_pending_ok(state),
        !spec_extract(state + spec_concat_chunks(chunks)).fault,
    ensures
        spec_feed(state, chunks) == spec_extract(state + spec_concat_chunks(chunks)),
    decreases chunks.len(),
{
    if chunks.len() == 0 {
        assert(state + spec_concat_chunks(chunks) =~= state);
        lemma_extract_pending(state);
        assert(spec_feed(state, chunks) =~= Extraction {
            messages: Seq::empty(),
            rest: state,
            fault: false,
        });
    } else {
        let c0 = chunks[0];
        let rest_chunks = chunks.skip(1);
        let rest_flat = spec_concat_chunks(rest_chunks);
        assert_seqs_equal!(state + spec_concat_chunks(chunks) == (state + c0) + rest_flat);
        let whole = spec_extract((state + c0) + rest_flat);
        let first = spec_extract(state + c0);
        if first.fault {
            lemma_extract_fault_sticky(state + c0, rest_flat);
        } else {
            lemma_extract_append(state + c0, rest_flat);
            let et = spec_extract(first.rest + rest_flat);
            assert(whole =~= Extraction {
                messages: first.messages + et.messages,
                rest: et.rest,
                fault: et.fault,
            });
            lemma_extract_rest_pending(state + c0);
            lemma_feed_is_extract(first.rest, rest_chunks);
            assert(spec_feed(first.rest, rest_chunks) == et);
            assert(spec_feed(state, chunks) =~= Extraction {
                messages: first.messages + et.messages,
                rest: et.rest,
                fault: et.fault,
            });
        }
    }
}

/// The wire bytes of correctly-framed messages extract back to exactly
/// those messages, with nothing left over and no fault.
pub proof fn lemma_extract_of_messages(ms: Seq<MessageView>)
    requires
        forall|i: int| 0 <= i < ms.len() ==> spec_wire_valid(#[trigger] ms[i]),
    ensures
        spec_extract(spec_concat_messages(ms)) == (Extraction {
            messages: ms,
            rest: Seq::<u8>::empty(),
            fault: false,
        }),
    decreases ms.len(),
{
    vstd::bytes::lemma_auto_spec_u16_to_from_le_bytes();
    let s = spec_concat_messages(ms);
    if ms.len() == 0 {
        assert(spec_extract(s) =~= Extraction {
            messages: ms,
            rest: Seq::<u8>::empty(),
            fault: false,
        });
    } else {
        let m = ms[0];
        let mb = spec_message_bytes(m);
        let size = (m.header.size & 0x7FFF) + 6;
        assert(mb.len() == size);
        assert(s.len() >= size);
        assert_seqs_equal!(s.subrange(0, 2) == crate::message::spec_header_bytes(m.header)
            .subrange(0, 2));
        assert_seqs_equal!(crate::message::spec_header_bytes(m.header).subrange(0, 2)
            == vstd::bytes::spec_u16_to_le_bytes(m.header.size));
        assert(spec_u16_from_le_bytes(s.subrange(0, 2)) == m.header.size);
        assert(spec_stream_data_size(s) == (m.header.size & 0x7FFF));
        assert_seqs_equal!(s.subrange(0, size as int) == mb);
        crate::message::lemma_message_round_trip(m);
        assert(spec_message_of(s.subrange(0, size as int)) == m);
        assert_seqs_equal!(s.skip(size as int) == spec_concat_messages(ms.skip(1)));
        lemma_extract_of_messages(ms.skip(1));
        assert(spec_extract(s) =~= Extraction {
            messages: ms,
            rest: Seq::<u8>::empty(),
            fault: false,
        });
    }
}

/// Framing equivalence: take any correctly-framed messages, lay their
/// wire bytes end to end, and split that stream into chunks at any
/// boundaries; feeding the chunks through a fresh buffer emits exactly
/// those messages, in order, with nothing buffered and no fault.
pub proof fn lemma_framing_equivalence(ms: Seq<MessageView>, chunks: Seq<Seq<u8>>)
    requires
        forall|i: int| 0 <= i < ms.len() ==> spec_wire_valid(#[trigger] ms[i]),
        spec_concat_chunks(chunks) == spec_concat_messages(ms),
    ensures
        spec_feed(Seq::empty(), chunks) == (Extraction {
            messages: ms,
            rest: Seq::<u8>::empty(),
            fault: false,
        }),
{
    lemma_extract_of_messages(ms);
    assert(Seq::<u8>::empty() + spec_concat_chunks(chunks) =~= spec_concat_messages(ms));
    lemma_feed_is_extract(Seq::empty(), chunks);
}

} // verus!
