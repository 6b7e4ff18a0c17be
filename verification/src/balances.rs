//! Account ledger pallet: per-account balances and transfer, the pallet's only
//! operation reachable via dispatch. An absent account reads as balance zero.

use crate::support::{Dispatch, DispatchError, DispatchResult};
use vstd::hash_map::StringHashMap;
use vstd::prelude::*;

verus! {

/// The balance recorded for an account: the map's entry, or zero when absent.
pub open spec fn spec_balance_of(balances: Map<Seq<char>, u128>, who: Seq<char>) -> u128 {
    if balances.contains_key(who) {
        balances[who]
    } else {
        0u128
    }
}

/// The transfer transition. Both starting balances are read first and both
/// checks are made on them; only when both succeed are the two new balances
/// written, the caller's first. The recipient's new balance is taken from the
/// ledger as it stands after the caller's write, so that a transfer to oneself
/// cancels out instead of minting.
pub open spec fn spec_transfer(
    balances: Map<Seq<char>, u128>,
    caller: Seq<char>,
    to: Seq<char>,
    amount: u128,
) -> Result<Map<Seq<char>, u128>, DispatchError> {
    let caller_balance = spec_balance_of(balances, caller);
    let to_balance = spec_balance_of(balances, to);
    if caller_balance < amount {
        Err(DispatchError::InsufficientBalance)
    } else if to_balance + amount > u128::MAX {
        Err(DispatchError::BalanceOverflow)
    } else {
        let written = balances.insert(caller, (caller_balance - amount) as u128);
        Ok(written.insert(to, (spec_balance_of(written, to) + amount) as u128))
    }
}

/// Law: an account with no recorded balance reads as zero.
pub proof fn lemma_unfunded_account_is_zero(balances: Map<Seq<char>, u128>, who: Seq<char>)
    requires
        !balances.contains_key(who),
    ensures
        spec_balance_of(balances, who) == 0,
{
}

/// Law: a successful transfer conserves the combined balance of the two
/// accounts, and when they differ moves exactly `amount` from one to the other.
pub proof fn lemma_transfer_conserves(
    balances: Map<Seq<char>, u128>,
    caller: Seq<char>,
    to: Seq<char>,
    amount: u128,
)
    requires
        spec_transfer(balances, caller, to, amount) is Ok,
    ensures
        ({
            let after = spec_transfer(balances, caller, to, amount)->Ok_0;
            &&& spec_balance_of(after, caller) + spec_balance_of(after, to) == spec_balance_of(
                balances,
                caller,
            ) + spec_balance_of(balances, to)
            &&& caller != to ==> spec_balance_of(after, caller) == spec_balance_of(
                balances,
                caller,
            ) - amount
            &&& caller != to ==> spec_balance_of(after, to) == spec_balance_of(balances, to)
                + amount
            &&& caller == to ==> after == balances.insert(caller, spec_balance_of(balances, caller))
        }),
{
}

/// Owns the map from account name to balance.
pub struct Pallet {
    balances: StringHashMap<u128>,
}

impl View for Pallet {
    type V = Map<Seq<char>, u128>;

    closed spec fn view(&self) -> Map<Seq<char>, u128> {
        self.balances@
    }
}

impl Pallet {
    /// The balance of an account, zero when the account is absent.
    pub open spec fn spec_balance(&self, who: Seq<char>) -> u128 {
        spec_balance_of(self@, who)
    }

    /// A fresh ledger with no balances recorded.
    pub fn new() -> (r: Self)
        ensures
            r@ == Map::<Seq<char>, u128>::empty(),
    {
        Pallet { balances: StringHashMap::new() }
    }

    /// Unconditional overwrite of an account's balance. Used only for
    /// out-of-band initialization; not reachable via dispatch.
    pub fn set_balance(&mut self, who: &String, amount: u128)
        ensures
            final(self)@ == old(self)@.insert(who@, amount),
    {
        self.balances.insert(who.clone(), amount);
    }

    /// The balance of an account; zero for an unknown account, never fails.
    pub fn get_balance(&self, who: &String) -> (r: u128)
        ensures
            r == self.spec_balance(who@),
    {
        match self.balances.get(who.as_str()) {
            Some(b) => *b,
            None => 0,
        }
    }

    /// Moves `amount` from the caller to `to`. Fails with
    /// `InsufficientBalance` when the caller's balance is smaller than the
    /// amount, with `BalanceOverflow` when the recipient's balance cannot take
    /// it; on failure nothing is written.
    pub fn transfer(&mut self, caller: String, to: String, amount: u128) -> (r: DispatchResult)
        ensures
            (match spec_transfer(old(self)@, caller@, to@, amount) {
                Ok(m) => r == Result::<(), DispatchError>::Ok(()) && final(self)@ == m,
                Err(e) => r == Result::<(), DispatchError>::Err(e) && final(self)@ == old(self)@,
            }),
            r is Ok <==> spec_balance_of(old(self)@, caller@) >= amount && spec_balance_of(
                old(self)@,
                to@,
            ) + amount <= u128::MAX,
            r is Ok ==> final(self).spec_balance(caller@) + final(self).spec_balance(to@)
                == old(self).spec_balance(caller@) + old(self).spec_balance(to@),
            r is Ok && caller@ != to@ ==> final(self).spec_balance(caller@) == old(
                self,
            ).spec_balance(caller@) - amount && final(self).spec_balance(to@) == old(
                self,
            ).spec_balance(to@) + amount,
            r is Ok && caller@ == to@ ==> final(self).spec_balance(caller@) == old(
                self,
            ).spec_balance(caller@),
    {
        let caller_balance = self.get_balance(&caller);
        let to_balance = self.get_balance(&to);
        let new_caller_balance = match caller_balance.checked_sub(amount) {
            Some(b) => b,
            None => {
                return Err(DispatchError::InsufficientBalance);
            },
        };
        if to_balance.checked_add(amount).is_none() {
            return Err(DispatchError::BalanceOverflow);
        }
        self.set_balance(&caller, new_caller_balance);
        let new_to_balance = self.get_balance(&to) + amount;
        self.set_balance(&to, new_to_balance);
        Ok(())
    }
}

/// The calls this pallet accepts via dispatch.
pub enum Call {
    Transfer { to: String, amount: u128 },
}

impl Dispatch for Pallet {
    type Caller = String;

    type Call = Call;

    open spec fn dispatch_ens(
        pre: &Pallet,
        post: &Pallet,
        caller: &String,
        call: &Call,
        r: DispatchResult,
    ) -> bool {
        match call {
            Call::Transfer { to, amount } => match spec_transfer(pre@, caller@, to@, *amount) {
                Ok(m) => r == Result::<(), DispatchError>::Ok(()) && post@ == m,
                Err(e) => r == Result::<(), DispatchError>::Err(e) && post@ == pre@,
            },
        }
    }

    /// Routes the pallet's one call variant to `transfer`, propagating its
    /// result verbatim.
    fn dispatch(&mut self, caller: String, call: Call) -> (r: DispatchResult) {
        match call {
            Call::Transfer { to, amount } => self.transfer(caller, to, amount),
        }
    }
}

} // verus!
