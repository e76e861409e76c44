//! Correcting the address that a peer advertises by the address it was seen
//! at.

use vstd::prelude::*;
use crate::types::{Ip, SockAddr};

verus! {

impl Ip {
    /// Loopback: any IPv4 address in 127.0.0.0/8, or the IPv6 address `::1`.
    pub open spec fn spec_is_loopback(self) -> bool {
        match self {
            Ip::V4(a, _, _, _) => a == 127,
            Ip::V6(bits) => bits == 1,
        }
    }

    /// Unspecified: the IPv4 address 0.0.0.0, or the IPv6 address `::`.
    pub open spec fn spec_is_unspecified(self) -> bool {
        match self {
            Ip::V4(a, b, c, d) => a == 0 && b == 0 && c == 0 && d == 0,
            Ip::V6(bits) => bits == 0,
        }
    }

    /// An address that no other host can dial: loopback or unspecified.
    pub open spec fn undialable(self) -> bool {
        self.spec_is_loopback() || self.spec_is_unspecified()
    }

    #[verifier::when_used_as_spec(spec_is_loopback)]
    pub fn is_loopback(self) -> (r: bool)
        ensures
            r == self.spec_is_loopback(),
    {
        match self {
            Ip::V4(a, _, _, _) => a == 127,
            Ip::V6(bits) => bits == 1,
        }
    }

    #[verifier::when_used_as_spec(spec_is_unspecified)]
    pub fn is_unspecified(self) -> (r: bool)
        ensures
            r == self.spec_is_unspecified(),
    {
        match self {
            Ip::V4(a, b, c, d) => a == 0 && b == 0 && c == 0 && d == 0,
            Ip::V6(bits) => bits == 0,
        }
    }
}

/// The address at which a peer is taken to listen.
///
/// A peer that advertises a loopback or unspecified IP, and whose
/// connection shows the IP it comes from, gets that observed IP with the
/// port it advertised. Every other peer keeps the address it advertised.
/// The port of the connection itself is never used: for an inbound
/// connection it is an ephemeral client port.
pub open spec fn resolved_addr(advertised: SockAddr, observed: Option<Ip>) -> SockAddr {
    match observed {
        Some(ip) if advertised.ip.undialable() => SockAddr { ip, port: advertised.port },
        _ => advertised,
    }
}

/// Makes a best guess at the address of the remote peer from the address
/// it advertised and the IP that the connection reports (`None` where the
/// connection could not tell).
pub fn extract_ip(advertised: &SockAddr, observed: Option<Ip>) -> (addr: SockAddr)
    ensures
        addr == resolved_addr(*advertised, observed),
        addr.port == advertised.port,
{
    if advertised.ip.is_loopback() || advertised.ip.is_unspecified() {
        if let Some(ip) = observed {
            return SockAddr { ip, port: advertised.port };
        }
    }
    *advertised
}

} // verus!
