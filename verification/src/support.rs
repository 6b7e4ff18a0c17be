//! Shared building blocks: the block and extrinsic shapes, the closed set of
//! failure reasons, and the uniform dispatch contract every pallet implements.

use vstd::prelude::*;

verus! {

/// The closed set of reasons a dispatched call or a block execution can fail.
#[derive(Clone, Copy, Debug, PartialEq, Eq, Structural)]
pub enum DispatchError {
    /// `transfer`: the caller's balance is smaller than the amount.
    InsufficientBalance,
    /// `transfer`: adding the amount to the recipient's balance would overflow.
    BalanceOverflow,
    /// `create_claim`: the content is already claimed.
    ClaimAlreadyExists,
    /// `revoke_claim`: the content is not claimed at all.
    ClaimNotFound,
    /// `revoke_claim`: the content is claimed, but by a different account.
    NotClaimOwner,
    /// `execute_block`: the header's declared number does not match the counter.
    BlockNumberMismatch,
}

impl DispatchError {
    /// The diagnostic text for this failure reason.
    pub open spec fn spec_reason(&self) -> Seq<char> {
        match self {
            DispatchError::InsufficientBalance => "Insufficient balance"@,
            DispatchError::BalanceOverflow => "Overflow when adding to balance"@,
            DispatchError::ClaimAlreadyExists => "Claim already exists"@,
            DispatchError::ClaimNotFound => "Claim does not exist"@,
            DispatchError::NotClaimOwner => "Caller does not own the claim"@,
            DispatchError::BlockNumberMismatch => "Block number mismatch"@,
        }
    }

    /// The diagnostic text for this failure reason.
    pub fn reason(&self) -> (r: &'static str)
        ensures
            r@ == self.spec_reason(),
    {
        match self {
            DispatchError::InsufficientBalance => "Insufficient balance",
            DispatchError::BalanceOverflow => "Overflow when adding to balance",
            DispatchError::ClaimAlreadyExists => "Claim already exists",
            DispatchError::ClaimNotFound => "Claim does not exist",
            DispatchError::NotClaimOwner => "Caller does not own the claim",
            DispatchError::BlockNumberMismatch => "Block number mismatch",
        }
    }
}

/// The outcome of dispatching one call: success carries no payload, failure
/// carries one reason from the closed set.
pub type DispatchResult = Result<(), DispatchError>;

/// A block: a header with the declared block number, plus the ordered
/// extrinsics to apply.
pub struct Block<Header, Extrinsics> {
    pub header: Header,
    pub extrinsics: Vec<Extrinsics>,
}

/// A block header, carrying only the declared block number.
pub struct Header<BlockNumber> {
    pub block_number: BlockNumber,
}

/// One externally submitted instruction: which account signed it, and what it
/// asks the runtime to do.
pub struct Extrinsic<Caller, Call> {
    pub caller: Caller,
    pub call: Call,
}

/// The uniform dispatch contract: given a caller identity and an opaque call
/// value, mutate internal state and return success or a failure reason. Each
/// implementor pins the exact transition down in its own `dispatch_ens`.
pub trait Dispatch {
    type Caller;

    type Call;

    /// The transition `dispatch` promises: how the state after (`post`)
    /// relates to the state before (`pre`), and when which result comes back.
    spec fn dispatch_ens(
        pre: &Self,
        post: &Self,
        caller: &Self::Caller,
        call: &Self::Call,
        r: DispatchResult,
    ) -> bool;

    fn dispatch(&mut self, caller: Self::Caller, call: Self::Call) -> (r: DispatchResult)
        ensures
            Self::dispatch_ens(old(self), final(self), &caller, &call, r),
    ;
}

} // verus!
