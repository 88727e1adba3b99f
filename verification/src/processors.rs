//! Session-service processors: keepalive, module identification and the
//! shard list.
//!
//! Bodies encode strings as a 16-bit little-endian length followed by the
//! bytes, and collections as a run of elements each introduced by a `1`
//! byte and closed by a terminator byte.

use crate::message::{Message, MessageDirection, MessageKind};
use crate::reader::{spec_u16_at, Reader};
use vstd::assert_seqs_equal;
use vstd::bytes::spec_u16_to_le_bytes;
use vstd::prelude::*;

verus! {

/// The views of a sequence of viewable values, in order.
pub open spec fn spec_element_views<T: View>(s: Seq<T>) -> Seq<T::V> {
    Seq::new(s.len(), |i: int| s[i]@)
}

/// One element of a wire collection: how it parses from a byte stream.
pub trait Fragment: Sized + View {
    /// Where parsing one element at `pos` leads: the element's value and
    /// the position after it, or nothing if the bytes are too short.
    spec fn spec_get(s: Seq<u8>, pos: int) -> Option<(Self::V, int)>;

    /// Parse one element at the reader's position.
    fn get(reader: &mut Reader) -> (r: Option<Self>)
        ensures
            final(reader).data == old(reader).data,
            match Self::spec_get(old(reader).data@, old(reader).pos as int) {
                Some((v, p)) => r is Some && r->0@ == v && final(reader).pos == p,
                None => r is None,
            },
            r is Some ==> final(reader).pos > old(reader).pos
                && final(reader).pos <= final(reader).data@.len(),
    ;
}

/// Where parsing a collection at `pos` leads: each element is introduced
/// by a `1` byte; any other byte closes the collection and is consumed.
pub open spec fn spec_get_collection<T: Fragment>(s: Seq<u8>, pos: int) -> Option<
    (Seq<T::V>, int),
>
    decreases s.len() - pos,
{
    if pos < 0 || pos >= s.len() {
        None
    } else if s[pos] != 1 {
        Some((Seq::empty(), pos + 1))
    } else {
        match T::spec_get(s, pos + 1) {
            None => None,
            Some((v, p2)) => {
                if p2 <= pos || p2 > s.len() {
                    None
                } else {
                    match spec_get_collection::<T>(s, p2) {
                        None => None,
                        Some((rest, p3)) => Some((seq![v] + rest, p3)),
                    }
                }
            },
        }
    }
}

/// Parse a collection at the reader's position: elements while the next
/// byte is `1`, closed by the first other byte.
pub fn get_collection<T: Fragment>(reader: &mut Reader) -> (r: Option<Vec<T>>)
    ensures
        final(reader).data == old(reader).data,
        match spec_get_collection::<T>(old(reader).data@, old(reader).pos as int) {
            Some((vs, p)) => r is Some && spec_element_views(r->0@) == vs && final(reader).pos
                == p,
            None => r is None,
        },
{
    let ghost data0 = reader.data@;
    let ghost pos0 = reader.pos as int;
    let mut out: Vec<T> = Vec::new();
    proof {
        assert(spec_element_views(out@) =~= Seq::<T::V>::empty());
        match spec_get_collection::<T>(data0, pos0) {
            Some((vs, p)) => {
                assert(spec_element_views(out@) + vs =~= vs);
            },
            None => {},
        }
    }
    loop
        invariant
            reader.data == old(reader).data,
            reader.data@ == data0,
            data0 == old(reader).data@,
            pos0 == old(reader).pos,
            reader.pos >= pos0,
            ({
                let target = spec_get_collection::<T>(data0, pos0);
                let here = spec_get_collection::<T>(data0, reader.pos as int);
                match here {
                    Some((vs, p)) => target == Some(
                        (spec_element_views(out@) + vs, p),
                    ),
                    None => target is None,
                }
            }),
        decreases data0.len() - reader.pos,
    {
        let ghost cur = reader.pos as int;
        let marker = match reader.get_u8() {
            Some(marker) => marker,
            None => {
                return None;
            },
        };
        if marker != 1 {
            proof {
                let here = spec_get_collection::<T>(data0, cur);
                assert(here == Some((Seq::<T::V>::empty(), cur + 1)));
                assert(spec_element_views(out@) + Seq::<T::V>::empty()
                    =~= spec_element_views(out@));
            }
            return Some(out);
        }
        let element = match T::get(reader) {
            Some(element) => element,
            None => {
                return None;
            },
        };
        let ghost out_before = out@;
        out.push(element);
        proof {
            let (v, p2) = T::spec_get(data0, cur + 1)->0;
            assert_seqs_equal!(spec_element_views(out@)
                == spec_element_views(out_before) + seq![element@]);
            let here2 = spec_get_collection::<T>(data0, reader.pos as int);
            match here2 {
                Some((vs2, pp)) => {
                    assert(spec_get_collection::<T>(data0, cur)
                        == Some((seq![v] + vs2, pp)));
                    assert_seqs_equal!(spec_element_views(out_before) + (seq![v] + vs2)
                        == spec_element_views(out@) + vs2);
                },
                None => {
                    assert(spec_get_collection::<T>(data0, cur) is None);
                },
            }
        }
    }
}

/// Answers a keepalive with a keepalive.
#[derive(Clone, Copy, Debug, PartialEq, Eq, Structural)]
pub struct NetPing;

impl NetPing {
    /// The reply to a keepalive: `Framework/NoDir/2` with an empty body.
    pub fn process(&self, _message: &Message) -> (r: Message)
        ensures
            r@.header.size == 0,
            r@.header.id.0 == 0x2002,
            r@.header.sequence == 0,
            r@.header.checksum == 0,
            r@.data.len() == 0,
    {
        proof {
            assert((0u16 << 14) | (2u16 << 12) | 2u16 == 0x2002u16) by (bit_vector);
        }
        Message::new(MessageDirection::NoDir, MessageKind::Framework, 2, Vec::new())
    }
}

/// A module identification body: the peer's service name and whether it
/// is local.
#[derive(Clone, Debug)]
pub struct Module {
    /// The service name's bytes.
    pub servicename: Vec<u8>,
    /// Whether the module is local.
    pub is_local: bool,
}

/// The mathematical value of a module identification body.
#[verifier::ext_equal]
pub ghost struct ModuleView {
    /// The service name's bytes.
    pub servicename: Seq<u8>,
    /// Whether the module is local.
    pub is_local: bool,
}

impl View for Module {
    type V = ModuleView;

    open spec fn view(&self) -> ModuleView {
        ModuleView { servicename: self.servicename@, is_local: self.is_local }
    }
}

/// The wire bytes of a module identification body: the length-prefixed
/// name, then the locality byte.
pub open spec fn spec_module_bytes(m: ModuleView) -> Seq<u8> {
    spec_u16_to_le_bytes(m.servicename.len() as u16) + m.servicename + seq![
        if m.is_local {
            1u8
        } else {
            0u8
        },
    ]
}

/// The module a body parses to, if it is long enough.
pub open spec fn spec_module_of(s: Seq<u8>) -> Option<ModuleView> {
    if 2 <= s.len() && 3 + spec_u16_at(s, 0) <= s.len() {
        let len = spec_u16_at(s, 0) as int;
        Some(
            ModuleView {
                servicename: s.subrange(2, 2 + len),
                is_local: s[2 + len] == 1,
            },
        )
    } else {
        None
    }
}

impl Module {
    /// Parse a module identification body.
    pub fn from_bytes(body: &Vec<u8>) -> (r: Option<Module>)
        ensures
            match spec_module_of(body@) {
                Some(v) => r is Some && r->0@ == v,
                None => r is None,
            },
    {
        let mut reader = Reader::new(crate::message::copy_byte_range(
            body.as_slice(),
            0,
            body.len(),
        ));
        proof {
            assert_seqs_equal!(reader.data@ == body@);
        }
        let servicename = match reader.get_string() {
            Some(name) => name,
            None => {
                return None;
            },
        };
        let is_local = match reader.get_u8() {
            Some(b) => b == 1,
            None => {
                return None;
            },
        };
        Some(Module { servicename, is_local })
    }

    /// Serialise a module identification body.
    pub fn to_bytes(&self) -> (r: Vec<u8>)
        requires
            self.servicename@.len() <= 0xFFFF,
        ensures
            r@ == spec_module_bytes(self@),
    {
        let len = self.servicename.len() as u16;
        let mut out = vstd::bytes::u16_to_le_bytes(len);
        let mut i: usize = 0;
        while i < self.servicename.len()
            invariant
                i <= self.servicename@.len(),
                out@ == spec_u16_to_le_bytes((self.servicename@.len() as u16))
                    + self.servicename@.subrange(0, i as int),
            decreases self.servicename@.len() - i,
        {
            out.push(self.servicename[i]);
            proof {
                assert_seqs_equal!(out@
                    == spec_u16_to_le_bytes((self.servicename@.len() as u16))
                    + self.servicename@.subrange(0, i as int + 1));
            }
            i = i + 1;
        }
        if self.is_local {
            out.push(1);
        } else {
            out.push(0);
        }
        proof {
            assert_seqs_equal!(out@ == spec_module_bytes(self@));
        }
        out
    }
}

/// The service name this endpoint identifies itself with.
pub fn own_service_name() -> (r: Vec<u8>)
    ensures
        r@ == seq![83u8, 82u8, 95u8, 67u8, 76u8, 73u8, 69u8, 78u8, 84u8],
{
    let mut out: Vec<u8> = Vec::new();
    out.push(83);
    out.push(82);
    out.push(95);
    out.push(67);
    out.push(76);
    out.push(73);
    out.push(69);
    out.push(78);
    out.push(84);
    proof {
        assert_seqs_equal!(out@ == seq![83u8, 82u8, 95u8, 67u8, 76u8, 73u8, 69u8, 78u8, 84u8]);
    }
    out
}

/// Answers the peer's module identification with this endpoint's own.
#[derive(Clone, Copy, Debug, PartialEq, Eq, Structural)]
pub struct ModuleIdentification;

impl ModuleIdentification {
    /// Parse the peer's identification; on a well-formed body, answer
    /// with this endpoint's own identification under `Framework/NoDir/1`.
    /// The parsed peer name comes back beside the response.
    pub fn process(&self, message: &Message) -> (r: Option<(Module, Message)>)
        ensures
            match spec_module_of(message@.data) {
                Some(v) => {
                    let pair = r->0;
                    &&& r is Some
                    &&& pair.0@ == v
                    &&& pair.1@.header.id.0 == 0x2001
                    &&& pair.1@.header.sequence == 0
                    &&& pair.1@.header.checksum == 0
                    &&& pair.1@.data == spec_module_bytes(
                        ModuleView {
                            servicename: seq![83u8, 82u8, 95u8, 67u8, 76u8, 73u8, 69u8, 78u8,
                                84u8],
                            is_local: false,
                        },
                    )
                    &&& pair.1@.header.size == 12
                },
                None => r is None,
            },
    {
        let module = match Module::from_bytes(&message.data) {
            Some(module) => module,
            None => {
                return None;
            },
        };
        let response = Module { servicename: own_service_name(), is_local: false };
        let body = response.to_bytes();
        proof {
            vstd::bytes::lemma_auto_spec_u16_to_from_le_bytes();
            assert((0u16 << 14) | (2u16 << 12) | 1u16 == 0x2001u16) by (bit_vector);
        }
        let reply = Message::new(MessageDirection::NoDir, MessageKind::Framework, 1, body);
        Some((module, reply))
    }
}

/// One game world in the shard list.
#[derive(Clone, Debug)]
pub struct Shard {
    /// The shard's identifier.
    pub id: u16,
    /// The shard's name bytes.
    pub name: Vec<u8>,
    /// How many clients are connected.
    pub clients_connected: u16,
    /// The shard's capacity.
    pub capacity: u16,
    /// Whether the shard is operating.
    pub operating: bool,
    /// The farm the shard belongs to.
    pub farm_id: u8,
}

/// The mathematical value of a shard record.
#[verifier::ext_equal]
pub ghost struct ShardView {
    /// The shard's identifier.
    pub id: u16,
    /// The shard's name bytes.
    pub name: Seq<u8>,
    /// How many clients are connected.
    pub clients_connected: u16,
    /// The shard's capacity.
    pub capacity: u16,
    /// Whether the shard is operating.
    pub operating: bool,
    /// The farm the shard belongs to.
    pub farm_id: u8,
}

impl View for Shard {
    type V = ShardView;

    open spec fn view(&self) -> ShardView {
        ShardView {
            id: self.id,
            name: self.name@,
            clients_connected: self.clients_connected,
            capacity: self.capacity,
            operating: self.operating,
            farm_id: self.farm_id,
        }
    }
}

impl Fragment for Shard {
    /// A shard record: identifier, length-prefixed name, client count,
    /// capacity, operating byte, farm identifier.
    open spec fn spec_get(s: Seq<u8>, pos: int) -> Option<(ShardView, int)> {
        if pos < 0 || pos + 4 > s.len() {
            None
        } else {
            let name_len = spec_u16_at(s, pos + 2) as int;
            let q = pos + 4 + name_len;
            if q + 6 > s.len() {
                None
            } else {
                Some(
                    (
                        ShardView {
                            id: spec_u16_at(s, pos),
                            name: s.subrange(pos + 4, q),
                            clients_connected: spec_u16_at(s, q),
                            capacity: spec_u16_at(s, q + 2),
                            operating: s[q + 4] == 1,
                            farm_id: s[q + 5],
                        },
                        q + 6,
                    ),
                )
            }
        }
    }

    fn get(reader: &mut Reader) -> (r: Option<Shard>) {
        let id = match reader.get_u16_le() {
            Some(v) => v,
            None => {
                return None;
            },
        };
        let name = match reader.get_string() {
            Some(v) => v,
            None => {
                return None;
            },
        };
        let clients_connected = match reader.get_u16_le() {
            Some(v) => v,
            None => {
                return None;
            },
        };
        let capacity = match reader.get_u16_le() {
            Some(v) => v,
            None => {
                return None;
            },
        };
        let operating = match reader.get_u8() {
            Some(v) => v == 1,
            None => {
                return None;
            },
        };
        let farm_id = match reader.get_u8() {
            Some(v) => v,
            None => {
                return None;
            },
        };
        Some(Shard { id, name, clients_connected, capacity, operating, farm_id })
    }
}

/// One farm grouping shards.
#[derive(Clone, Debug)]
pub struct Farm {
    /// The farm's identifier.
    pub id: u8,
    /// The farm's name bytes.
    pub name: Vec<u8>,
}

/// The mathematical value of a farm record.
#[verifier::ext_equal]
pub ghost struct FarmView {
    /// The farm's identifier.
    pub id: u8,
    /// The farm's name bytes.
    pub name: Seq<u8>,
}

impl View for Farm {
    type V = FarmView;

    open spec fn view(&self) -> FarmView {
        FarmView { id: self.id, name: self.name@ }
    }
}

impl Fragment for Farm {
    /// A farm record: identifier, then the length-prefixed name.
    open spec fn spec_get(s: Seq<u8>, pos: int) -> Option<(FarmView, int)> {
        if pos < 0 || pos + 3 > s.len() {
            None
        } else {
            let name_len = spec_u16_at(s, pos + 1) as int;
            let q = pos + 3 + name_len;
            if q > s.len() {
                None
            } else {
                Some((FarmView { id: s[pos], name: s.subrange(pos + 3, q) }, q))
            }
        }
    }

    fn get(reader: &mut Reader) -> (r: Option<Farm>) {
        let id = match reader.get_u8() {
            Some(v) => v,
            None => {
                return None;
            },
        };
        let name = match reader.get_string() {
            Some(v) => v,
            None => {
                return None;
            },
        };
        Some(Farm { id, name })
    }
}

/// Parses the shard list: a collection of farms, then a collection of
/// shards.
#[derive(Clone, Copy, Debug, PartialEq, Eq, Structural)]
pub struct ShardListProcessor;

impl ShardListProcessor {
    /// Parse the farms and shards out of a shard-list body.
    pub fn process(&self, message: Message) -> (r: Option<(Vec<Farm>, Vec<Shard>)>)
        ensures
            ({
                let b = message@.data;
                match spec_get_collection::<Farm>(b, 0) {
                    None => r is None,
                    Some((farms, p)) => match spec_get_collection::<Shard>(b, p) {
                        None => r is None,
                        Some((shards, _)) => {
                            let pair = r->0;
                            &&& r is Some
                            &&& spec_element_views(pair.0@) == farms
                            &&& spec_element_views(pair.1@) == shards
                        },
                    },
                }
            }),
    {
        let mut reader = Reader::new(message.reader());
        let farms = match get_collection::<Farm>(&mut reader) {
            Some(farms) => farms,
            None => {
                return None;
            },
        };
        let shards = match get_collection::<Shard>(&mut reader) {
            Some(shards) => shards,
            None => {
                return None;
            },
        };
        Some((farms, shards))
    }
}

} // verus!
