//! The decisions of both sides of a handshake.
//!
//! The side that opened the connection builds a `Hand` with
//! [`Handshake::connect`], sends it, reads the `Shake` that answers it and
//! judges that with [`Handshake::accept_shake`]. The side that accepted the
//! connection reads a `Hand` and judges it with [`Handshake::handshake`],
//! which hands back the `Shake` to send. A refused `Hand` gets no answer:
//! there is no `Shake` to send.

use vstd::prelude::*;
use crate::address::{extract_ip, resolved_addr};
use crate::nonce::{registered, NonceRegistry, NONCES_CAP};
use crate::types::{
    is_version_mismatch, protocol_for, select_protocol, user_agent, version_mismatch,
    Capabilities, Difficulty, Error, Hand, HandView, Ip, PeerInfo, PeerInfoView, Protocol,
    Shake, ShakeView, SockAddr, PROTOCOL_VERSION, USER_AGENT,
};

verus! {

/// The `Hand` that a node with these parameters sends to the peer at
/// `peer_addr`.
pub open spec fn hand_for(
    capab: Capabilities,
    total_difficulty: Difficulty,
    nonce: u64,
    self_addr: SockAddr,
    peer_addr: SockAddr,
) -> HandView {
    HandView {
        version: PROTOCOL_VERSION,
        capabilities: capab,
        nonce,
        total_difficulty,
        sender_addr: self_addr,
        receiver_addr: peer_addr,
        user_agent: USER_AGENT@,
    }
}

/// The `Shake` with which a node with these parameters answers.
pub open spec fn shake_for(capab: Capabilities, total_difficulty: Difficulty) -> ShakeView {
    ShakeView {
        version: PROTOCOL_VERSION,
        capabilities: capab,
        total_difficulty,
        user_agent: USER_AGENT@,
    }
}

/// A `Shake` is accepted where it announces this node's protocol version.
pub open spec fn shake_accepted(shake: ShakeView) -> bool {
    shake.version == PROTOCOL_VERSION
}

/// A `Hand` is accepted by a node that holds the nonces `held` where it
/// announces this node's protocol version and its nonce is none of `held`.
pub open spec fn hand_accepted(held: Seq<u64>, hand: HandView) -> bool {
    hand.version == PROTOCOL_VERSION && !held.contains(hand.nonce)
}

/// What the opening side knows of a peer that answered with `shake` on a
/// connection to `peer_addr`.
pub open spec fn peer_from_shake(shake: ShakeView, peer_addr: SockAddr) -> PeerInfoView {
    PeerInfoView {
        capabilities: shake.capabilities,
        user_agent: shake.user_agent,
        addr: peer_addr,
        version: shake.version,
        total_difficulty: shake.total_difficulty,
    }
}

/// What the accepting side knows of a peer that sent `hand` on a
/// connection that comes from `observed`.
pub open spec fn peer_from_hand(hand: HandView, observed: Option<Ip>) -> PeerInfoView {
    PeerInfoView {
        capabilities: hand.capabilities,
        user_agent: hand.user_agent,
        addr: resolved_addr(hand.sender_addr, observed),
        version: hand.version,
        total_difficulty: hand.total_difficulty,
    }
}

/// Builds the `Hand` that carries `nonce` to the peer at `peer_addr`.
pub fn build_hand(
    capab: Capabilities,
    total_difficulty: Difficulty,
    nonce: u64,
    self_addr: SockAddr,
    peer_addr: SockAddr,
) -> (hand: Hand)
    ensures
        hand@ == hand_for(capab, total_difficulty, nonce, self_addr, peer_addr),
{
    Hand {
        version: PROTOCOL_VERSION,
        capabilities: capab,
        nonce,
        total_difficulty,
        sender_addr: self_addr,
        receiver_addr: peer_addr,
        user_agent: user_agent(),
    }
}

/// Builds the `Shake` that answers an accepted `Hand`.
pub fn build_shake(capab: Capabilities, total_difficulty: Difficulty) -> (shake: Shake)
    ensures
        shake@ == shake_for(capab, total_difficulty),
{
    Shake {
        version: PROTOCOL_VERSION,
        capabilities: capab,
        total_difficulty,
        user_agent: user_agent(),
    }
}

/// Handles the handshake negotiation when two peers connect and decides on
/// the protocol. It remembers the nonces it has sent, to know a connection
/// to itself without a node id.
pub struct Handshake {
    nonces: NonceRegistry,
}

impl View for Handshake {
    type V = Seq<u64>;

    /// The nonces sent lately, oldest first.
    closed spec fn view(&self) -> Seq<u64> {
        self.nonces@
    }
}

impl Handshake {
    /// The remembered nonces are below the registry's cap. They are in a
    /// new handler, and no call changes that.
    pub open spec fn wf(&self) -> bool {
        self@.len() < NONCES_CAP
    }

    /// Creates a new handshake handler, which has sent no nonce yet.
    pub fn new() -> (h: Handshake)
        ensures
            h.wf(),
            h@ == Seq::<u64>::empty(),
    {
        Handshake { nonces: NonceRegistry::new() }
    }

    /// Creates a handshake handler that takes `nonces` for the nonces it
    /// has sent.
    pub fn with_registry(nonces: NonceRegistry) -> (h: Handshake)
        ensures
            h@ == nonces@,
    {
        Handshake { nonces }
    }

    /// The nonces sent lately.
    pub fn nonces(&self) -> (r: &NonceRegistry)
        ensures
            r@ == self@,
    {
        &self.nonces
    }

    /// Starts the handshake with a peer that this node has connected to.
    ///
    /// `peer_addr` is the remote address of the connection, `None` where
    /// the connection could not tell it: that ends the attempt before a
    /// nonce is drawn. Otherwise a fresh nonce is drawn and remembered, and
    /// the `Hand` to send comes back. The nonce stays remembered whatever
    /// becomes of the attempt.
    pub fn connect(
        &mut self,
        capab: Capabilities,
        total_difficulty: Difficulty,
        self_addr: SockAddr,
        peer_addr: Option<SockAddr>,
    ) -> (r: Result<Hand, Error>)
        ensures
            old(self).wf() ==> final(self).wf(),
            match r {
                Ok(hand) => {
                    &&& peer_addr is Some
                    &&& hand@ == hand_for(
                        capab,
                        total_difficulty,
                        hand.nonce,
                        self_addr,
                        peer_addr->Some_0,
                    )
                    &&& final(self)@ == registered(old(self)@, hand.nonce)
                    &&& !hand_accepted(final(self)@, hand@)
                },
                Err(e) => {
                    &&& final(self)@ == old(self)@
                    &&& peer_addr is None ==> e is Connection
                    &&& peer_addr is Some ==> e is RandomSource
                },
            },
    {
        let peer_addr = match peer_addr {
            Some(addr) => addr,
            None => {
                return Err(Error::Connection);
            },
        };
        match self.next_nonce() {
            Ok(nonce) => {
                Ok(build_hand(capab, total_difficulty, nonce, self_addr, peer_addr))
            },
            Err(e) => Err(e),
        }
    }

    /// Judges the `Shake` with which the peer at `peer_addr` answered this
    /// node's `Hand`. A `Shake` of this node's protocol version gives the
    /// handler for that version and the peer's description; any other gives
    /// a version mismatch and no peer.
    pub fn accept_shake(peer_addr: SockAddr, shake: Shake) -> (r: Result<
        (Protocol, PeerInfo),
        Error,
    >)
        ensures
            match r {
                Ok((protocol, info)) => {
                    &&& shake_accepted(shake@)
                    &&& protocol_for(shake.version) == Some(protocol)
                    &&& info@ == peer_from_shake(shake@, peer_addr)
                },
                Err(e) => !shake_accepted(shake@) && is_version_mismatch(e, shake.version),
            },
    {
        match select_protocol(shake.version) {
            None => Err(version_mismatch(shake.version)),
            Some(protocol) => {
                let info = PeerInfo {
                    capabilities: shake.capabilities,
                    user_agent: shake.user_agent,
                    addr: peer_addr,
                    version: shake.version,
                    total_difficulty: shake.total_difficulty,
                };
                Ok((protocol, info))
            },
        }
    }

    /// Judges the `Hand` of a peer that has connected to this node, on a
    /// connection that comes from the IP `observed` (`None` where the
    /// connection could not tell).
    ///
    /// A `Hand` of another protocol version is a version mismatch. A `Hand`
    /// whose nonce this node has sent itself is a connection to itself.
    /// Both are refused without a `Shake`. Any other `Hand` gives the
    /// `Shake` to send, the handler for the version and the peer's
    /// description, with its address corrected by the observed one.
    pub fn handshake(
        &self,
        capab: Capabilities,
        total_difficulty: Difficulty,
        hand: Hand,
        observed: Option<Ip>,
    ) -> (r: Result<(Shake, Protocol, PeerInfo), Error>)
        ensures
            match r {
                Ok((shake, protocol, info)) => {
                    &&& hand_accepted(self@, hand@)
                    &&& shake@ == shake_for(capab, total_difficulty)
                    &&& protocol_for(hand.version) == Some(protocol)
                    &&& info@ == peer_from_hand(hand@, observed)
                },
                Err(e) => {
                    &&& !hand_accepted(self@, hand@)
                    &&& if hand.version != PROTOCOL_VERSION {
                        is_version_mismatch(e, hand.version)
                    } else {
                        e is SelfConnectionOrMalformed
                    }
                },
            },
    {
        let protocol = match select_protocol(hand.version) {
            None => {
                return Err(version_mismatch(hand.version));
            },
            Some(protocol) => protocol,
        };
        if self.nonces.contains(hand.nonce) {
            return Err(Error::SelfConnectionOrMalformed);
        }
        let info = PeerInfo {
            capabilities: hand.capabilities,
            user_agent: hand.user_agent,
            addr: extract_ip(&hand.sender_addr, observed),
            version: hand.version,
            total_difficulty: hand.total_difficulty,
        };
        Ok((build_shake(capab, total_difficulty), protocol, info))
    }

    /// Draws a new random nonce and remembers it. Where the random source
    /// fails, nothing is remembered.
    pub fn next_nonce(&mut self) -> (r: Result<u64, Error>)
        ensures
            old(self).wf() ==> final(self).wf(),
            match r {
                Ok(nonce) => {
                    &&& final(self)@ == registered(old(self)@, nonce)
                    &&& final(self)@.contains(nonce)
                },
                Err(e) => e is RandomSource && final(self)@ == old(self)@,
            },
    {
        self.nonces.generate_and_register()
    }
}

/// A node refuses the `Hand` that it has just built itself: its nonce is
/// remembered.
pub proof fn lemma_own_hand_refused(
    held: Seq<u64>,
    capab: Capabilities,
    total_difficulty: Difficulty,
    nonce: u64,
    self_addr: SockAddr,
    peer_addr: SockAddr,
)
    requires
        held.len() < NONCES_CAP,
    ensures
        !hand_accepted(
            registered(held, nonce),
            hand_for(capab, total_difficulty, nonce, self_addr, peer_addr),
        ),
{
    let now = registered(held, nonce);
    assert(now[now.len() - 1] == nonce);
}

/// Two nodes that run this handshake with each other both succeed: the
/// accepting side accepts the `Hand` of the opening side unless it has sent
/// that nonce itself, the opening side accepts the `Shake` that answers,
/// and each side's description of the other holds the other's
/// capabilities, difficulty and user agent, with one and the same version.
pub proof fn lemma_both_sides_agree(
    opener_capab: Capabilities,
    opener_difficulty: Difficulty,
    nonce: u64,
    opener_addr: SockAddr,
    accepter_addr: SockAddr,
    accepter_held: Seq<u64>,
    accepter_capab: Capabilities,
    accepter_difficulty: Difficulty,
    observed: Option<Ip>,
)
    requires
        !accepter_held.contains(nonce),
    ensures
        ({
            let hand = hand_for(
                opener_capab,
                opener_difficulty,
                nonce,
                opener_addr,
                accepter_addr,
            );
            let shake = shake_for(accepter_capab, accepter_difficulty);
            let seen_by_accepter = peer_from_hand(hand, observed);
            let seen_by_opener = peer_from_shake(shake, accepter_addr);
            &&& hand_accepted(accepter_held, hand)
            &&& shake_accepted(shake)
            &&& seen_by_accepter.capabilities == opener_capab
            &&& seen_by_accepter.total_difficulty == opener_difficulty
            &&& seen_by_accepter.user_agent == USER_AGENT@
            &&& seen_by_accepter.addr == resolved_addr(opener_addr, observed)
            &&& seen_by_opener.capabilities == accepter_capab
            &&& seen_by_opener.total_difficulty == accepter_difficulty
            &&& seen_by_opener.user_agent == USER_AGENT@
            &&& seen_by_opener.addr == accepter_addr
            &&& seen_by_accepter.version == seen_by_opener.version
            &&& seen_by_opener.version == PROTOCOL_VERSION
        }),
{
}

} // verus!
