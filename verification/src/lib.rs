//! Core of a framed, little-endian game-networking protocol: message
//! identity and framing, integrity primitives, a Blowfish-based cipher with
//! byte-swapped block layout, a Diffie-Hellman-flavoured key exchange with
//! mutual challenge/response, the per-connection security pipeline, and the
//! multi-fragment ("massive") reassembly buffer.

pub mod blowfish;
pub mod checksum;
pub mod exchange;
pub mod handshake;
pub mod handshake_req;
pub mod initiator;
pub mod massive;
pub mod message;
pub mod message_buffer;
pub mod processors;
pub mod reader;
pub mod responder;
pub mod rng;
pub mod secret_context;
pub mod security;
pub mod sequencer;
