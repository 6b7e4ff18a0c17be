//! System bookkeeping pallet: the global block counter and each account's
//! nonce. The block number starts at zero and is incremented once per block;
//! an account's nonce starts at zero (absence in the map means zero) and is
//! incremented once per extrinsic the account originates.

use vstd::hash_map::StringHashMap;
use vstd::prelude::*;

verus! {

/// The nonce recorded for an account: the map's entry, or zero when absent.
pub open spec fn spec_nonce_of(nonces: Map<Seq<char>, u32>, who: Seq<char>) -> u32 {
    if nonces.contains_key(who) {
        nonces[who]
    } else {
        0u32
    }
}

/// One nonce increment: the account's entry becomes its previous value plus one.
pub open spec fn spec_inc_nonce(nonces: Map<Seq<char>, u32>, who: Seq<char>) -> Map<
    Seq<char>,
    u32,
> {
    nonces.insert(who, (spec_nonce_of(nonces, who) + 1) as u32)
}

/// `n` nonce increments in a row on the same account.
pub open spec fn spec_inc_nonce_n(nonces: Map<Seq<char>, u32>, who: Seq<char>, n: nat) -> Map<
    Seq<char>,
    u32,
>
    decreases n,
{
    if n == 0 {
        nonces
    } else {
        spec_inc_nonce(spec_inc_nonce_n(nonces, who, (n - 1) as nat), who)
    }
}

/// Law: nonce incrementing is monotonic — `n` increments on an account with no
/// recorded nonce leave its nonce at exactly `n`, and never touch any other
/// account's nonce.
pub proof fn lemma_inc_nonce_monotonic(nonces: Map<Seq<char>, u32>, who: Seq<char>, n: nat)
    requires
        !nonces.contains_key(who),
        n <= u32::MAX,
    ensures
        spec_nonce_of(spec_inc_nonce_n(nonces, who, n), who) == n,
        forall|other: Seq<char>|
            other != who ==> spec_nonce_of(spec_inc_nonce_n(nonces, who, n), other)
                == spec_nonce_of(nonces, other),
    decreases n,
{
    if n > 0 {
        lemma_inc_nonce_monotonic(nonces, who, (n - 1) as nat);
    }
}

/// Owns the global block counter and the per-account nonces.
pub struct Pallet {
    block_number: u32,
    nonce: StringHashMap<u32>,
}

impl Pallet {
    /// The current block number.
    pub closed spec fn spec_block_number(&self) -> u32 {
        self.block_number
    }

    /// The recorded nonces, as a map from account name to counter.
    pub closed spec fn nonces(&self) -> Map<Seq<char>, u32> {
        self.nonce@
    }

    /// The nonce of an account, zero when the account has never sent anything.
    pub open spec fn spec_nonce(&self, who: Seq<char>) -> u32 {
        spec_nonce_of(self.nonces(), who)
    }

    /// A fresh pallet: block number zero, no nonces recorded.
    pub fn new() -> (r: Self)
        ensures
            r.spec_block_number() == 0,
            r.nonces() == Map::<Seq<char>, u32>::empty(),
    {
        Pallet { block_number: 0, nonce: StringHashMap::new() }
    }

    /// Advances the block counter by one. The counter carries no overflow
    /// check, so the caller must stay below the numeric limit.
    pub fn inc_block_number(&mut self)
        requires
            old(self).spec_block_number() < u32::MAX,
        ensures
            final(self).spec_block_number() == old(self).spec_block_number() + 1,
            final(self).nonces() == old(self).nonces(),
    {
        self.block_number = self.block_number + 1;
    }

    /// The current block number.
    pub fn block_number(&self) -> (r: u32)
        ensures
            r == self.spec_block_number(),
    {
        self.block_number
    }

    /// The nonce of an account; zero for an account never seen.
    pub fn get_nonce(&self, who: &String) -> (r: u32)
        ensures
            r == self.spec_nonce(who@),
    {
        match self.nonce.get(who.as_str()) {
            Some(n) => *n,
            None => 0,
        }
    }

    /// Records one more extrinsic from the account: its nonce grows by one.
    pub fn inc_nonce(&mut self, who: &String)
        requires
            old(self).spec_nonce(who@) < u32::MAX,
        ensures
            final(self).nonces() == spec_inc_nonce(old(self).nonces(), who@),
            final(self).spec_block_number() == old(self).spec_block_number(),
    {
        let current_nonce = self.get_nonce(who);
        self.nonce.insert(who.clone(), current_nonce + 1);
    }
}

} // verus!
