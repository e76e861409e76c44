//! Connection-establishment handshake of a peer-to-peer node.
//!
//! Two peers exchange a `Hand` and a `Shake` to agree on a protocol version
//! and to learn each other's capabilities, advertised chain difficulty and
//! address. The crate holds the decisions of that exchange: what is sent,
//! what is accepted, what is refused, and which peer descriptor results.
//! Reading and writing the messages is left to the caller.

pub mod address;
mod entropy;
pub mod handshake;
pub mod nonce;
pub mod types;

pub use address::extract_ip;
pub use handshake::Handshake;
pub use nonce::NonceRegistry;
pub use types::{
    Capabilities, Difficulty, Error, Hand, Ip, PeerInfo, Protocol, Shake, SockAddr,
};
