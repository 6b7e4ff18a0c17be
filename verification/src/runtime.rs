//! Runtime composition and block execution: one instance of each pallet, a
//! closed call union routed to the matching pallet, and the block-execution
//! loop with its error-isolation policy.

use crate::balances;
use crate::proof_of_existence;
use crate::support;
use crate::support::{Dispatch, DispatchError, DispatchResult};
use crate::system;
use vstd::prelude::*;

verus! {

/// The closed union of every call the runtime can dispatch: one variant per
/// pallet, carrying that pallet's own call union as payload.
pub enum RuntimeCall {
    Balances(balances::Call),
    ProofOfExistence(proof_of_existence::Call),
}

/// The whole runtime state, as mathematical maps: the block counter, the
/// balances, the nonces and the claims.
pub ghost struct RuntimeState {
    pub block_number: u32,
    pub balances: Map<Seq<char>, u128>,
    pub nonces: Map<Seq<char>, u32>,
    pub claims: Map<Seq<char>, Seq<char>>,
}

/// The state of a runtime with nothing recorded yet.
pub open spec fn genesis_state() -> RuntimeState {
    RuntimeState {
        block_number: 0,
        balances: Map::<Seq<char>, u128>::empty(),
        nonces: Map::<Seq<char>, u32>::empty(),
        claims: Map::<Seq<char>, Seq<char>>::empty(),
    }
}

/// Aggregates one instance of each pallet. Pallet state is mutated only
/// through that pallet's own methods; pallets never call each other directly.
pub struct Runtime {
    pub system: system::Pallet,
    pub balances: balances::Pallet,
    pub proof_of_existence: proof_of_existence::Pallet,
}

impl View for Runtime {
    type V = RuntimeState;

    open spec fn view(&self) -> RuntimeState {
        RuntimeState {
            block_number: self.system.spec_block_number(),
            balances: self.balances@,
            nonces: self.system.nonces(),
            claims: self.proof_of_existence@,
        }
    }
}

/// The dispatch transition of the whole runtime: the outer call variant picks
/// the pallet, whose own transition decides the new state and the result. A
/// failure leaves the state untouched.
pub open spec fn spec_dispatch(pre: RuntimeState, caller: Seq<char>, call: RuntimeCall) -> (
    RuntimeState,
    DispatchResult,
) {
    match call {
        RuntimeCall::Balances(balances::Call::Transfer { to, amount }) => {
            match balances::spec_transfer(pre.balances, caller, to@, amount) {
                Ok(m) => (RuntimeState { balances: m, ..pre }, Ok(())),
                Err(e) => (pre, Err(e)),
            }
        },
        RuntimeCall::ProofOfExistence(proof_of_existence::Call::CreateClaim { claim }) => {
            match proof_of_existence::spec_create_claim(pre.claims, caller, claim@) {
                Ok(m) => (RuntimeState { claims: m, ..pre }, Ok(())),
                Err(e) => (pre, Err(e)),
            }
        },
        RuntimeCall::ProofOfExistence(proof_of_existence::Call::RevokeClaim { claim }) => {
            match proof_of_existence::spec_revoke_claim(pre.claims, caller, claim@) {
                Ok(m) => (RuntimeState { claims: m, ..pre }, Ok(())),
                Err(e) => (pre, Err(e)),
            }
        },
    }
}

/// One failed extrinsic, recorded as a non-fatal diagnostic while the block
/// goes on: the block it happened in, the zero-based position of the extrinsic
/// in that block, and the failure reason.
#[derive(Clone, Copy, Debug, PartialEq, Eq, Structural)]
pub struct ExtrinsicFailure {
    pub block_number: u32,
    pub extrinsic_index: usize,
    pub error: DispatchError,
}

/// One extrinsic applied to the runtime state: the caller's nonce grows by one
/// whatever happens, then the call is dispatched.
pub open spec fn spec_apply_extrinsic(
    pre: RuntimeState,
    ext: support::Extrinsic<String, RuntimeCall>,
) -> (RuntimeState, DispatchResult) {
    let noted = RuntimeState { nonces: system::spec_inc_nonce(pre.nonces, ext.caller@), ..pre };
    spec_dispatch(noted, ext.caller@, ext.call)
}

/// The extrinsics of a block applied in declared order, starting at position
/// `index`: the final state, and the failures that were recorded on the way.
pub open spec fn spec_execute_extrinsics(
    pre: RuntimeState,
    exts: Seq<support::Extrinsic<String, RuntimeCall>>,
    index: int,
) -> (RuntimeState, Seq<ExtrinsicFailure>)
    decreases exts.len(),
{
    if exts.len() == 0 {
        (pre, Seq::<ExtrinsicFailure>::empty())
    } else {
        let step = spec_apply_extrinsic(pre, exts[0]);
        let rest = spec_execute_extrinsics(step.0, exts.drop_first(), index + 1);
        let failures = match step.1 {
            Ok(_) => rest.1,
            Err(e) => seq![
                ExtrinsicFailure {
                    block_number: pre.block_number,
                    extrinsic_index: index as usize,
                    error: e,
                },
            ] + rest.1,
        };
        (rest.0, failures)
    }
}

/// How many of the given extrinsics are signed by `who`.
pub open spec fn spec_caller_count(
    exts: Seq<support::Extrinsic<String, RuntimeCall>>,
    who: Seq<char>,
) -> nat
    decreases exts.len(),
{
    if exts.len() == 0 {
        0nat
    } else {
        spec_caller_count(exts.drop_last(), who) + (if exts.last().caller@ == who {
            1nat
        } else {
            0nat
        })
    }
}

/// Taking one more extrinsic into the prefix raises the count of its own
/// caller by one and leaves every other account's count unchanged.
proof fn lemma_caller_count_step(
    exts: Seq<support::Extrinsic<String, RuntimeCall>>,
    who: Seq<char>,
    i: int,
)
    requires
        0 <= i < exts.len(),
    ensures
        spec_caller_count(exts.take(i + 1), who) == spec_caller_count(exts.take(i), who) + (
        if exts[i].caller@ == who {
            1int
        } else {
            0int
        }),
{
    assert(exts.take(i + 1).drop_last() =~= exts.take(i));
    assert(exts.take(i + 1).last() == exts[i]);
}

impl Runtime {
    /// A fresh runtime: every pallet in its starting state.
    pub fn new() -> (r: Self)
        ensures
            r@ == genesis_state(),
    {
        Runtime {
            system: system::Pallet::new(),
            balances: balances::Pallet::new(),
            proof_of_existence: proof_of_existence::Pallet::new(),
        }
    }

    /// Executes one block: advances the block counter, validates the block's
    /// declared number, and applies each extrinsic in order. A failing
    /// extrinsic is recorded as a diagnostic and execution goes on; only a
    /// number mismatch fails the whole block, before any extrinsic runs.
    ///
    /// The preconditions rule out counter overflow: the block counter has no
    /// overflow check, and each extrinsic raises its caller's nonce by one
    /// whether or not its dispatch succeeds.
    #[verifier::loop_isolation(false)]
    pub fn execute_block(
        &mut self,
        block: support::Block<support::Header<u32>, support::Extrinsic<String, RuntimeCall>>,
    ) -> (r: Result<Vec<ExtrinsicFailure>, DispatchError>)
        requires
            old(self)@.block_number < u32::MAX,
            forall|j: int|
                0 <= j < block.extrinsics@.len() ==> ({
                    let who = (#[trigger] block.extrinsics@[j]).caller@;
                    system::spec_nonce_of(old(self)@.nonces, who) + spec_caller_count(
                        block.extrinsics@.take(j + 1),
                        who,
                    ) <= u32::MAX
                }),
        ensures
            ({
                let pre = old(self)@;
                let entered = RuntimeState { block_number: (pre.block_number + 1) as u32, ..pre };
                match r {
                    Err(e) => {
                        &&& e == DispatchError::BlockNumberMismatch
                        &&& block.header.block_number != entered.block_number
                        &&& final(self)@ == entered
                    },
                    Ok(failures) => {
                        &&& block.header.block_number == entered.block_number
                        &&& (final(self)@, failures@) == spec_execute_extrinsics(
                            entered,
                            block.extrinsics@,
                            0,
                        )
                    },
                }
            }),
    {
        self.system.inc_block_number();
        if block.header.block_number != self.system.block_number() {
            return Err(DispatchError::BlockNumberMismatch);
        }
        let ghost entered = self@;
        let ghost all_exts = block.extrinsics@;
        let block_number = self.system.block_number();
        let mut extrinsics = block.extrinsics;
        let extrinsic_count = extrinsics.len();
        let mut failures: Vec<ExtrinsicFailure> = Vec::new();
        let mut i: usize = 0;
        while extrinsics.len() > 0
            invariant
                i + extrinsics@.len() == all_exts.len(),
                extrinsics@ == all_exts.skip(i as int),
                self@.block_number == entered.block_number,
                forall|a: Seq<char>|
                    system::spec_nonce_of(self@.nonces, a) == #[trigger] system::spec_nonce_of(
                        entered.nonces,
                        a,
                    ) + spec_caller_count(all_exts.take(i as int), a),
                spec_execute_extrinsics(entered, all_exts, 0) == ({
                    let cont = spec_execute_extrinsics(self@, extrinsics@, i as int);
                    (cont.0, failures@ + cont.1)
                }),
            decreases extrinsics@.len(),
        {
            let ext = extrinsics.remove(0);
            proof {
                assert(extrinsics@ =~= all_exts.skip(i as int + 1));
                lemma_caller_count_step(all_exts, ext.caller@, i as int);
            }
            self.system.inc_nonce(&ext.caller);
            let support::Extrinsic { caller, call } = ext;
            let res = self.dispatch(caller, call);
            if let Err(e) = res {
                failures.push(ExtrinsicFailure { block_number, extrinsic_index: i, error: e });
            }
            proof {
                assert forall|a: Seq<char>|
                    system::spec_nonce_of(self@.nonces, a) == #[trigger] system::spec_nonce_of(
                        entered.nonces,
                        a,
                    ) + spec_caller_count(all_exts.take(i as int + 1), a) by {
                    lemma_caller_count_step(all_exts, a, i as int);
                }
            }
            assert(i < extrinsic_count);
            i = i + 1;
        }
        proof {
            let cont = spec_execute_extrinsics(self@, extrinsics@, i as int);
            assert(failures@ + cont.1 =~= failures@);
        }
        Ok(failures)
    }
}

impl Dispatch for Runtime {
    type Caller = String;

    type Call = RuntimeCall;

    open spec fn dispatch_ens(
        pre: &Runtime,
        post: &Runtime,
        caller: &String,
        call: &RuntimeCall,
        r: DispatchResult,
    ) -> bool {
        (post@, r) == spec_dispatch(pre@, caller@, *call)
    }

    /// Pattern-matches the outer variant and forwards unchanged to the
    /// corresponding pallet's dispatch, propagating its result verbatim.
    fn dispatch(&mut self, caller: String, call: RuntimeCall) -> (r: DispatchResult) {
        match call {
            RuntimeCall::Balances(call) => self.balances.dispatch(caller, call),
            RuntimeCall::ProofOfExistence(call) => self.proof_of_existence.dispatch(caller, call),
        }
    }
}

} // verus!
