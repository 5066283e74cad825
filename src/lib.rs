//! A small modular ledger runtime: independent state modules ("pallets")
//! composed under one dispatcher that executes blocks of caller-attributed
//! calls.
use vstd::prelude::*;

pub mod account_map;
pub mod balances;
pub mod pow_pos;
pub mod proof_of_existence;
pub mod runtime;
pub mod support;
pub mod system;

verus! {

/// Identity of an account: a string compared by its characters.
pub type AccountId = String;

/// A non-negative amount of funds or stake.
pub type Balance = u128;

/// Number of a block in the chain.
pub type BlockNumber = u32;

/// Content that an account can claim.
pub type Content = String;

/// Per-account counter of executed extrinsics.
pub type Nonce = u32;

} // verus!
