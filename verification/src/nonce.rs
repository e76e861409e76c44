//! The nonces that this node has issued lately.
//!
//! Every outbound handshake carries a fresh random nonce. A node that
//! receives one of its own nonces is talking to itself. The registry keeps
//! the newest nonces in the order in which they were issued and forgets the
//! oldest first.

use vstd::prelude::*;
use std::collections::VecDeque;
use crate::entropy::os_random_u64;
use crate::types::Error;

verus! {

/// The size that the registry never reaches: a registration that brings it
/// to this many nonces drops the oldest.
pub const NONCES_CAP: usize = 100;

/// The newest `k` entries of `s`, oldest first; all of `s` where it has no
/// more than `k`.
pub open spec fn newest(s: Seq<u64>, k: nat) -> Seq<u64> {
    if s.len() <= k {
        s
    } else {
        s.subrange(s.len() - k, s.len() as int)
    }
}

/// What a registry that held `held` holds once `nonce` is registered:
/// `nonce` comes last, and where that brings the registry to its cap the
/// oldest entry leaves.
pub open spec fn registered(held: Seq<u64>, nonce: u64) -> Seq<u64> {
    let grown = held.push(nonce);
    if grown.len() >= NONCES_CAP {
        grown.drop_first()
    } else {
        grown
    }
}

/// What a registry that held `held` holds once all of `nonces` are
/// registered, first entry first.
pub open spec fn registered_all(held: Seq<u64>, nonces: Seq<u64>) -> Seq<u64>
    decreases nonces.len(),
{
    if nonces.len() == 0 {
        held
    } else {
        registered(registered_all(held, nonces.drop_last()), nonces.last())
    }
}

/// The nonces issued lately, oldest first.
pub struct NonceRegistry {
    nonces: VecDeque<u64>,
}

impl View for NonceRegistry {
    type V = Seq<u64>;

    closed spec fn view(&self) -> Seq<u64> {
        self.nonces@
    }
}

impl NonceRegistry {
    /// The registry is below its cap. A new registry is, and no
    /// registration changes that.
    pub open spec fn wf(&self) -> bool {
        self@.len() < NONCES_CAP
    }

    /// A registry that holds nothing.
    pub fn new() -> (r: NonceRegistry)
        ensures
            r.wf(),
            r@ == Seq::<u64>::empty(),
    {
        NonceRegistry { nonces: VecDeque::with_capacity(NONCES_CAP) }
    }

    /// How many nonces are held.
    pub fn len(&self) -> (n: usize)
        ensures
            n == self@.len(),
    {
        self.nonces.len()
    }

    /// Whether `nonce` is held.
    pub fn contains(&self, nonce: u64) -> (r: bool)
        ensures
            r == self@.contains(nonce),
    {
        let n: usize = self.nonces.len();
        let mut i: usize = 0;
        while i < n
            invariant
                n == self.nonces@.len(),
                i <= n,
                forall|j: int| 0 <= j < i ==> self.nonces@[j] != nonce,
            decreases n - i,
        {
            if self.nonces[i] == nonce {
                return true;
            }
            i += 1;
        }
        false
    }

    /// Appends `nonce`, then drops the oldest entry if the registry has
    /// reached its cap.
    pub fn register(&mut self, nonce: u64)
        ensures
            old(self).wf() ==> final(self).wf(),
            final(self)@ == registered(old(self)@, nonce),
            final(self)@.contains(nonce),
    {
        self.nonces.push_back(nonce);
        if self.nonces.len() >= NONCES_CAP {
            self.nonces.pop_front();
        }
        proof {
            let r = registered(old(self)@, nonce);
            assert(self@ =~= r);
            assert(r[r.len() - 1] == nonce);
        }
    }

    /// Draws a nonce from the operating system's random source and
    /// registers it. Where the source fails, nothing is registered.
    pub fn generate_and_register(&mut self) -> (r: Result<u64, Error>)
        ensures
            old(self).wf() ==> final(self).wf(),
            match r {
                Ok(nonce) => {
                    &&& final(self)@ == registered(old(self)@, nonce)
                    &&& final(self)@.contains(nonce)
                },
                Err(e) => e is RandomSource && final(self)@ == old(self)@,
            },
    {
        match os_random_u64() {
            Ok(nonce) => {
                self.register(nonce);
                Ok(nonce)
            },
            Err(_) => Err(Error::RandomSource),
        }
    }
}

/// Registering any run of nonces leaves exactly the newest `NONCES_CAP - 1`
/// of all that the registry held and was given, in the order of issue.
pub proof fn lemma_registry_holds_newest(held: Seq<u64>, nonces: Seq<u64>)
    requires
        held.len() < NONCES_CAP,
    ensures
        registered_all(held, nonces) == newest(held + nonces, (NONCES_CAP - 1) as nat),
        registered_all(held, nonces).len() < NONCES_CAP,
    decreases nonces.len(),
{
    if nonces.len() == 0 {
        assert(held + nonces =~= held);
    } else {
        let front = nonces.drop_last();
        lemma_registry_holds_newest(held, front);
        assert((held + front).push(nonces.last()) =~= held + nonces);
        assert(registered_all(held, nonces) =~= newest(
            held + nonces,
            (NONCES_CAP - 1) as nat,
        ));
    }
}

/// Once `NONCES_CAP - 1` or more nonces have been registered, the registry
/// holds `NONCES_CAP - 1` entries: the last that were given, whatever it
/// held before. The registration that brings the count to `NONCES_CAP`
/// drops the first of them.
pub proof fn lemma_registry_window(held: Seq<u64>, nonces: Seq<u64>)
    requires
        held.len() < NONCES_CAP,
        nonces.len() >= NONCES_CAP - 1,
    ensures
        registered_all(held, nonces) == nonces.subrange(
            nonces.len() - (NONCES_CAP - 1),
            nonces.len() as int,
        ),
        registered_all(held, nonces).len() == NONCES_CAP - 1,
{
    lemma_registry_holds_newest(held, nonces);
    assert(registered_all(held, nonces) =~= nonces.subrange(
        nonces.len() - (NONCES_CAP - 1),
        nonces.len() as int,
    ));
}

/// A nonce is held right after it is registered, and stays held while
/// fewer than `NONCES_CAP - 1` further nonces are registered.
pub proof fn lemma_remembered(held: Seq<u64>, nonce: u64, later: Seq<u64>)
    requires
        held.len() < NONCES_CAP,
        later.len() < NONCES_CAP - 1,
    ensures
        registered_all(registered(held, nonce), later).contains(nonce),
{
    let first = registered(held, nonce);
    lemma_registry_holds_newest(first, later);
    let all = first + later;
    let kept = newest(all, (NONCES_CAP - 1) as nat);
    let at = first.len() - 1;
    assert(all[at] == nonce);
    if all.len() <= NONCES_CAP - 1 {
        assert(kept[at] == nonce);
    } else {
        let cut = all.len() - (NONCES_CAP - 1);
        assert(kept[at - cut] == nonce);
    }
}

/// A nonce is no longer held once `NONCES_CAP - 1` or more further nonces
/// have been registered, unless one of those is the same number again.
pub proof fn lemma_forgotten(held: Seq<u64>, nonce: u64, later: Seq<u64>)
    requires
        held.len() < NONCES_CAP,
        later.len() >= NONCES_CAP - 1,
        !later.contains(nonce),
    ensures
        !registered_all(registered(held, nonce), later).contains(nonce),
{
    let first = registered(held, nonce);
    lemma_registry_window(first, later);
    let kept = registered_all(first, later);
    if kept.contains(nonce) {
        let i = choose|i: int| 0 <= i < kept.len() && kept[i] == nonce;
        assert(later[later.len() - (NONCES_CAP - 1) + i] == nonce);
    }
}

} // verus!
