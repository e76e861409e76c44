//! The values that travel through a handshake, and their mathematical views.

use vstd::prelude::*;

verus! {

/// The one protocol version that this node speaks.
pub const PROTOCOL_VERSION: u32 = 1;

/// The client identifier that this node sends in every handshake message.
pub const USER_AGENT: &'static str = "MW/Grin 0.1";

/// Features that a peer supports. The handshake carries the bits and never
/// reads them.
#[derive(Clone, Copy, Debug, PartialEq, Eq, Structural)]
pub struct Capabilities {
    pub bits: u32,
}

/// Cumulative chain work that a peer advertises. The handshake carries the
/// number and never computes with it.
#[derive(Clone, Copy, Debug, PartialEq, Eq, PartialOrd, Ord, Structural)]
pub struct Difficulty {
    pub num: u64,
}

/// An IP address: the four octets of an IPv4 address, first octet first, or
/// the 128 bits of an IPv6 address, first segment in the highest bits.
#[derive(Clone, Copy, Debug, PartialEq, Eq, Structural)]
pub enum Ip {
    V4(u8, u8, u8, u8),
    V6(u128),
}

/// An IP address and a port.
#[derive(Clone, Copy, Debug, PartialEq, Eq, Structural)]
pub struct SockAddr {
    pub ip: Ip,
    pub port: u16,
}

/// The handler that speaks a negotiated protocol version on the connection.
#[derive(Clone, Copy, Debug, PartialEq, Eq, Structural)]
pub enum Protocol {
    V1,
}

/// The first message of a handshake, sent by the peer that opened the
/// connection.
#[derive(Clone, Debug, PartialEq, Eq)]
pub struct Hand {
    pub version: u32,
    pub capabilities: Capabilities,
    pub nonce: u64,
    pub total_difficulty: Difficulty,
    pub sender_addr: SockAddr,
    pub receiver_addr: SockAddr,
    pub user_agent: String,
}

/// The second message of a handshake, sent in reply to an accepted `Hand`.
#[derive(Clone, Debug, PartialEq, Eq)]
pub struct Shake {
    pub version: u32,
    pub capabilities: Capabilities,
    pub total_difficulty: Difficulty,
    pub user_agent: String,
}

/// What a node knows of a peer once the handshake has succeeded.
#[derive(Clone, Debug, PartialEq, Eq)]
pub struct PeerInfo {
    pub capabilities: Capabilities,
    pub user_agent: String,
    pub addr: SockAddr,
    pub version: u32,
    pub total_difficulty: Difficulty,
}

/// Why a handshake ended without a peer.
#[derive(Clone, Debug, PartialEq, Eq)]
pub enum Error {
    /// The transport failed, or could not tell the remote address.
    Connection,
    /// The peer speaks another protocol version. Each side of the
    /// disagreement is one byte: the low byte of the version number.
    ProtocolVersionMismatch { expected: Vec<u8>, received: Vec<u8> },
    /// The peer sent a nonce that this node issued itself, or something
    /// that makes as little sense. Nothing is sent back to such a peer.
    SelfConnectionOrMalformed,
    /// The operating system's random source gave no nonce.
    RandomSource,
}

/// A `Hand` as a mathematical value.
pub ghost struct HandView {
    pub version: u32,
    pub capabilities: Capabilities,
    pub nonce: u64,
    pub total_difficulty: Difficulty,
    pub sender_addr: SockAddr,
    pub receiver_addr: SockAddr,
    pub user_agent: Seq<char>,
}

/// A `Shake` as a mathematical value.
pub ghost struct ShakeView {
    pub version: u32,
    pub capabilities: Capabilities,
    pub total_difficulty: Difficulty,
    pub user_agent: Seq<char>,
}

/// A `PeerInfo` as a mathematical value.
pub ghost struct PeerInfoView {
    pub capabilities: Capabilities,
    pub user_agent: Seq<char>,
    pub addr: SockAddr,
    pub version: u32,
    pub total_difficulty: Difficulty,
}

impl View for Hand {
    type V = HandView;

    open spec fn view(&self) -> HandView {
        HandView {
            version: self.version,
            capabilities: self.capabilities,
            nonce: self.nonce,
            total_difficulty: self.total_difficulty,
            sender_addr: self.sender_addr,
            receiver_addr: self.receiver_addr,
            user_agent: self.user_agent@,
        }
    }
}

impl View for Shake {
    type V = ShakeView;

    open spec fn view(&self) -> ShakeView {
        ShakeView {
            version: self.version,
            capabilities: self.capabilities,
            total_difficulty: self.total_difficulty,
            user_agent: self.user_agent@,
        }
    }
}

impl View for PeerInfo {
    type V = PeerInfoView;

    open spec fn view(&self) -> PeerInfoView {
        PeerInfoView {
            capabilities: self.capabilities,
            user_agent: self.user_agent@,
            addr: self.addr,
            version: self.version,
            total_difficulty: self.total_difficulty,
        }
    }
}

/// The byte that stands for a version number in a mismatch report: the
/// number modulo 256.
pub open spec fn version_byte(version: u32) -> u8 {
    (version % 256) as u8
}

/// `e` reports that the peer announced `received` where this node speaks
/// `PROTOCOL_VERSION`.
pub open spec fn is_version_mismatch(e: Error, received: u32) -> bool {
    match e {
        Error::ProtocolVersionMismatch { expected, received: got } => {
            &&& expected@ == seq![version_byte(PROTOCOL_VERSION)]
            &&& got@ == seq![version_byte(received)]
        },
        _ => false,
    }
}

/// The handler for a version, where this node has one.
pub open spec fn protocol_for(version: u32) -> Option<Protocol> {
    if version == PROTOCOL_VERSION {
        Some(Protocol::V1)
    } else {
        None
    }
}

/// Picks the protocol handler for a negotiated version. Today one version
/// has a handler; every other version has none.
pub fn select_protocol(version: u32) -> (r: Option<Protocol>)
    ensures
        r == protocol_for(version),
{
    if version == PROTOCOL_VERSION {
        Some(Protocol::V1)
    } else {
        None
    }
}

/// Builds the error for a peer that announced the version `received`.
pub fn version_mismatch(received: u32) -> (e: Error)
    ensures
        is_version_mismatch(e, received),
{
    let mut expected: Vec<u8> = Vec::new();
    expected.push((PROTOCOL_VERSION % 256) as u8);
    let mut got: Vec<u8> = Vec::new();
    got.push((received % 256) as u8);
    proof {
        assert(expected@ =~= seq![version_byte(PROTOCOL_VERSION)]);
        assert(got@ =~= seq![version_byte(received)]);
    }
    Error::ProtocolVersionMismatch { expected, received: got }
}

/// The client identifier as an owned string.
pub fn user_agent() -> (s: String)
    ensures
        s@ == USER_AGENT@,
{
    USER_AGENT.to_string()
}

} // verus!
