//! Types shared by every pallet: blocks, extrinsics, errors and the dispatch
//! capability.
use vstd::prelude::*;

verus! {

/// A block: a header and the extrinsics to run, in order.
pub struct Block<Header, Extrinsic> {
    pub header: Header,
    pub extrinsics: Vec<Extrinsic>,
}

/// The part of a block that the runtime validates before running it.
pub struct Header<BlockNumber> {
    pub block_number: BlockNumber,
}

/// A call attributed to the account that makes it.
pub struct Extrinsic<Caller, Call> {
    pub caller: Caller,
    pub call: Call,
}

/// Why an operation was refused.
#[derive(Clone, Copy, Debug, PartialEq, Eq, Structural)]
pub enum DispatchError {
    /// The sender holds less than the amount to transfer.
    InsufficientFunds,
    /// The receiver's balance would exceed the largest balance.
    Overflow,
    /// A stake of zero.
    InvalidStake,
    /// The staker's pool entry would exceed the largest balance.
    StakeOverflow,
    /// The block number already has a recorded miner.
    AlreadyMined,
    /// The work or the stake threshold was not met.
    ConsensusValidationFailed,
    /// The block's number is not the one that comes next.
    BlockNumberMismatch,
    /// The content already has a claimant.
    ClaimAlreadyExists,
    /// The content has no claimant.
    ClaimNotFound,
    /// The content is claimed by another account.
    NotClaimOwner,
}

impl DispatchError {
    /// A human-readable label for the error.
    pub fn message(&self) -> &'static str {
        match self {
            DispatchError::InsufficientFunds => "Not enough funds.",
            DispatchError::Overflow => "Overflow",
            DispatchError::InvalidStake => "Stake amount must be greater than zero",
            DispatchError::StakeOverflow => "Overflow in staking balance",
            DispatchError::AlreadyMined => "Block already mined",
            DispatchError::ConsensusValidationFailed => "Block mining failed due to consensus validation",
            DispatchError::BlockNumberMismatch => "block number does not match what is expected",
            DispatchError::ClaimAlreadyExists => "this content is already claimed",
            DispatchError::ClaimNotFound => "claim does not exist",
            DispatchError::NotClaimOwner => "this content is NOT owned by the caller",
        }
    }
}

/// The outcome of a dispatched call.
pub type DispatchResult = Result<(), DispatchError>;

/// Routes a call, attributed to a caller, to the handler that owns it.
///
/// `inv` is the implementor's state invariant; `dispatch_outcome`
/// relates the state before a call, the call, the state after it and the
/// result.
pub trait Dispatch: Sized {
    type Caller;
    type Call;

    spec fn inv(&self) -> bool;

    spec fn dispatch_outcome(
        &self,
        caller: Self::Caller,
        call: Self::Call,
        next: Self,
        r: DispatchResult,
    ) -> bool;

    fn dispatch(&mut self, caller: Self::Caller, call: Self::Call) -> (r: DispatchResult)
        requires
            old(self).inv(),
        ensures
            final(self).inv(),
            old(self).dispatch_outcome(caller, call, *final(self), r),
    ;
}

} // verus!
