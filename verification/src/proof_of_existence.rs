//! Claim registry pallet: a map from claim content to the owning account. A
//! content value is claimed by at most one account; a content with no entry is
//! unclaimed.

use crate::support::{Dispatch, DispatchError, DispatchResult};
use vstd::hash_map::StringHashMap;
use vstd::prelude::*;

verus! {

/// The owner recorded for a content value, if any.
pub open spec fn spec_get_claim(claims: Map<Seq<char>, Seq<char>>, claim: Seq<char>) -> Option<
    Seq<char>,
> {
    if claims.contains_key(claim) {
        Some(claims[claim])
    } else {
        None
    }
}

/// The claim-creation transition: fails when the content is already claimed,
/// otherwise records the caller as its owner.
pub open spec fn spec_create_claim(
    claims: Map<Seq<char>, Seq<char>>,
    caller: Seq<char>,
    claim: Seq<char>,
) -> Result<Map<Seq<char>, Seq<char>>, DispatchError> {
    if claims.contains_key(claim) {
        Err(DispatchError::ClaimAlreadyExists)
    } else {
        Ok(claims.insert(claim, caller))
    }
}

/// The claim-revocation transition: fails when the content is unclaimed or
/// claimed by someone else, otherwise removes the entry.
pub open spec fn spec_revoke_claim(
    claims: Map<Seq<char>, Seq<char>>,
    caller: Seq<char>,
    claim: Seq<char>,
) -> Result<Map<Seq<char>, Seq<char>>, DispatchError> {
    if !claims.contains_key(claim) {
        Err(DispatchError::ClaimNotFound)
    } else if claims[claim] != caller {
        Err(DispatchError::NotClaimOwner)
    } else {
        Ok(claims.remove(claim))
    }
}

/// Law: after a successful claim creation, the recorded owner is the creator,
/// and a second creation on the same content fails with `ClaimAlreadyExists`
/// whoever the second caller is.
pub proof fn lemma_created_claim_is_exclusive(
    claims: Map<Seq<char>, Seq<char>>,
    first: Seq<char>,
    second: Seq<char>,
    claim: Seq<char>,
)
    requires
        spec_create_claim(claims, first, claim) is Ok,
    ensures
        ({
            let after = spec_create_claim(claims, first, claim)->Ok_0;
            &&& spec_get_claim(after, claim) == Some(first)
            &&& spec_create_claim(after, second, claim) == Result::<
                Map<Seq<char>, Seq<char>>,
                DispatchError,
            >::Err(DispatchError::ClaimAlreadyExists)
        }),
{
}

/// Law: revoking as a non-owner fails with `NotClaimOwner` (and, by
/// `revoke_claim`'s contract, leaves the registry unchanged); revoking as the
/// owner succeeds and removes the claim, so a subsequent lookup finds nothing.
pub proof fn lemma_revoke_claim_owner_rules(
    claims: Map<Seq<char>, Seq<char>>,
    caller: Seq<char>,
    claim: Seq<char>,
)
    ensures
        (spec_get_claim(claims, claim) matches Some(owner) && owner != caller)
            ==> spec_revoke_claim(claims, caller, claim) == Result::<
            Map<Seq<char>, Seq<char>>,
            DispatchError,
        >::Err(DispatchError::NotClaimOwner),
        spec_get_claim(claims, claim) == Some(caller) ==> ({
            &&& spec_revoke_claim(claims, caller, claim) is Ok
            &&& spec_get_claim(spec_revoke_claim(claims, caller, claim)->Ok_0, claim) is None
        }),
{
}

/// Owns the map from claim content to owning account.
pub struct Pallet {
    claims: StringHashMap<String>,
}

impl View for Pallet {
    type V = Map<Seq<char>, Seq<char>>;

    closed spec fn view(&self) -> Map<Seq<char>, Seq<char>> {
        self.claims@.map_values(|owner: String| owner@)
    }
}

impl Pallet {
    /// A fresh registry with no claims recorded.
    pub fn new() -> (r: Self)
        ensures
            r@ == Map::<Seq<char>, Seq<char>>::empty(),
    {
        let claims = StringHashMap::<String>::new();
        proof {
            assert(claims@.map_values(|owner: String| owner@) =~= Map::<
                Seq<char>,
                Seq<char>,
            >::empty());
        }
        Pallet { claims }
    }

    /// Looks the content up; returns the owning account, or nothing when the
    /// content is unclaimed. Never fails.
    pub fn get_claim(&self, claim: &String) -> (r: Option<&String>)
        ensures
            match r {
                Some(owner) => spec_get_claim(self@, claim@) == Some(owner@),
                None => spec_get_claim(self@, claim@) is None,
            },
    {
        self.claims.get(claim.as_str())
    }

    /// Records the caller as owner of the content; fails with
    /// `ClaimAlreadyExists` when the content is already claimed, and then
    /// changes nothing.
    pub fn create_claim(&mut self, caller: String, claim: String) -> (r: DispatchResult)
        ensures
            (match spec_create_claim(old(self)@, caller@, claim@) {
                Ok(m) => r == Result::<(), DispatchError>::Ok(()) && final(self)@ == m,
                Err(e) => r == Result::<(), DispatchError>::Err(e) && final(self)@ == old(self)@,
            }),
    {
        if self.claims.contains_key(claim.as_str()) {
            Err(DispatchError::ClaimAlreadyExists)
        } else {
            let ghost before = self.claims@;
            self.claims.insert(claim, caller);
            proof {
                assert(self.claims@.map_values(|owner: String| owner@) =~= before.map_values(
                    |owner: String| owner@,
                ).insert(claim@, caller@));
            }
            Ok(())
        }
    }

    /// Removes the caller's claim on the content; fails with `ClaimNotFound`
    /// when the content is unclaimed and with `NotClaimOwner` when another
    /// account owns it, and then changes nothing.
    pub fn revoke_claim(&mut self, caller: String, claim: String) -> (r: DispatchResult)
        ensures
            (match spec_revoke_claim(old(self)@, caller@, claim@) {
                Ok(m) => r == Result::<(), DispatchError>::Ok(()) && final(self)@ == m,
                Err(e) => r == Result::<(), DispatchError>::Err(e) && final(self)@ == old(self)@,
            }),
    {
        let owned: Option<bool> = match self.claims.get(claim.as_str()) {
            Some(owner) => Some(*owner == caller),
            None => None,
        };
        match owned {
            None => Err(DispatchError::ClaimNotFound),
            Some(false) => Err(DispatchError::NotClaimOwner),
            Some(true) => {
                let ghost before = self.claims@;
                self.claims.remove(claim.as_str());
                proof {
                    assert(self.claims@.map_values(|owner: String| owner@) =~= before.map_values(
                        |owner: String| owner@,
                    ).remove(claim@));
                }
                Ok(())
            },
        }
    }
}

/// The calls this pallet accepts via dispatch.
pub enum Call {
    CreateClaim { claim: String },
    RevokeClaim { claim: String },
}

impl Dispatch for Pallet {
    type Caller = String;

    type Call = Call;

    open spec fn dispatch_ens(
        pre: &Pallet,
        post: &Pallet,
        caller: &String,
        call: &Call,
        r: DispatchResult,
    ) -> bool {
        let outcome = match call {
            Call::CreateClaim { claim } => spec_create_claim(pre@, caller@, claim@),
            Call::RevokeClaim { claim } => spec_revoke_claim(pre@, caller@, claim@),
        };
        match outcome {
            Ok(m) => r == Result::<(), DispatchError>::Ok(()) && post@ == m,
            Err(e) => r == Result::<(), DispatchError>::Err(e) && post@ == pre@,
        }
    }

    /// Routes each call variant to the matching operation, propagating its
    /// result verbatim.
    fn dispatch(&mut self, caller: String, call: Call) -> (r: DispatchResult) {
        match call {
            Call::CreateClaim { claim } => self.create_claim(caller, claim),
            Call::RevokeClaim { claim } => self.revoke_claim(caller, claim),
        }
    }
}

} // verus!
