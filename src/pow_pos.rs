//! The consensus pallet: a stake pool and a write-once record of the miner
//! accepted for each block number. A block is accepted only when the miner
//! shows enough work and holds enough stake.
use vstd::prelude::*;
use std::collections::BTreeMap;
use crate::account_map::AccountMap;
use crate::support::{DispatchError, DispatchResult, Dispatch};
use crate::{AccountId, Balance, BlockNumber};

verus! {

broadcast use vstd::std_specs::btree::group_btree_axioms;

/// A proof of work is valid when it is below this value.
pub const WORK_THRESHOLD: u64 = 10_000;

/// A miner is eligible when its stake is at least this value.
pub const STAKE_THRESHOLD: Balance = 50;

/// What the consensus pallet holds, as mathematical values.
pub struct PowPosView {
    pub stake_pool: Map<Seq<char>, Balance>,
    pub mined_blocks: Map<BlockNumber, AccountId>,
    pub work_threshold: u64,
    pub stake_threshold: Balance,
}

impl PowPosView {
    /// The stake of `who`: zero when it has never staked.
    pub open spec fn stake_of(self, who: Seq<char>) -> int {
        if self.stake_pool.contains_key(who) {
            self.stake_pool[who] as int
        } else {
            0
        }
    }

    /// Whether a proof of work is below the work threshold.
    pub open spec fn work_valid(self, proof_of_work: u64) -> bool {
        proof_of_work < self.work_threshold
    }

    /// Whether `miner` holds at least the stake threshold.
    pub open spec fn stake_valid(self, miner: Seq<char>) -> bool {
        self.stake_of(miner) >= self.stake_threshold
    }

    /// The state and result after `staker` stakes `amount`.
    pub open spec fn after_stake(self, staker: Seq<char>, amount: Balance) -> (PowPosView, DispatchResult) {
        if amount == 0 {
            (self, Err(DispatchError::InvalidStake))
        } else if self.stake_of(staker) + amount > u128::MAX {
            (self, Err(DispatchError::StakeOverflow))
        } else {
            (
                PowPosView {
                    stake_pool: self.stake_pool.insert(staker, (self.stake_of(staker) + amount) as u128),
                    ..self
                },
                Ok(()),
            )
        }
    }

    /// The state and result after `miner` offers block `block_number` with
    /// `proof_of_work`.
    pub open spec fn after_mine(
        self,
        miner: AccountId,
        block_number: BlockNumber,
        proof_of_work: u64,
    ) -> (PowPosView, DispatchResult) {
        if self.mined_blocks.contains_key(block_number) {
            (self, Err(DispatchError::AlreadyMined))
        } else if self.work_valid(proof_of_work) && self.stake_valid(miner@) {
            (PowPosView { mined_blocks: self.mined_blocks.insert(block_number, miner), ..self }, Ok(()))
        } else {
            (self, Err(DispatchError::ConsensusValidationFailed))
        }
    }

    /// The state and result after dispatching `call` for `caller`.
    pub open spec fn after_call(self, caller: AccountId, call: Call) -> (PowPosView, DispatchResult) {
        match call {
            Call::Stake { amount } => self.after_stake(caller@, amount),
            Call::MineBlock { block_number, proof_of_work } => self.after_mine(
                caller,
                block_number,
                proof_of_work,
            ),
        }
    }
}

/// The consensus pallet.
pub struct Pallet {
    pub stake_pool: AccountMap<Balance>,
    pub mined_blocks: BTreeMap<BlockNumber, AccountId>,
    pub work_threshold: u64,
    pub stake_threshold: Balance,
}

impl View for Pallet {
    type V = PowPosView;

    open spec fn view(&self) -> PowPosView {
        PowPosView {
            stake_pool: self.stake_pool@,
            mined_blocks: self.mined_blocks@,
            work_threshold: self.work_threshold,
            stake_threshold: self.stake_threshold,
        }
    }
}

/// The calls that the consensus pallet handles.
pub enum Call {
    Stake { amount: Balance },
    MineBlock { block_number: BlockNumber, proof_of_work: u64 },
}

impl Pallet {
    pub open spec fn well_formed(&self) -> bool {
        self.stake_pool.well_formed()
    }

    /// An empty pallet with the default thresholds.
    pub fn new() -> (r: Self)
        ensures
            r.well_formed(),
            r@.stake_pool == Map::<Seq<char>, Balance>::empty(),
            r@.mined_blocks == Map::<BlockNumber, AccountId>::empty(),
            r@.work_threshold == WORK_THRESHOLD,
            r@.stake_threshold == STAKE_THRESHOLD,
    {
        Self::with_thresholds(WORK_THRESHOLD, STAKE_THRESHOLD)
    }

    /// An empty pallet with the given thresholds.
    pub fn with_thresholds(work_threshold: u64, stake_threshold: Balance) -> (r: Self)
        ensures
            r.well_formed(),
            r@.stake_pool == Map::<Seq<char>, Balance>::empty(),
            r@.mined_blocks == Map::<BlockNumber, AccountId>::empty(),
            r@.work_threshold == work_threshold,
            r@.stake_threshold == stake_threshold,
    {
        Pallet { stake_pool: AccountMap::new(), mined_blocks: BTreeMap::new(), work_threshold, stake_threshold }
    }

    /// The stake of `who`, zero when it has never staked.
    pub fn stake_of(&self, who: &AccountId) -> (r: Balance)
        requires
            self.well_formed(),
        ensures
            r == self@.stake_of(who@),
    {
        match self.stake_pool.get(who) {
            Some(s) => *s,
            None => 0,
        }
    }

    /// The miner recorded for `block_number`, if the block was mined.
    pub fn miner_of(&self, block_number: BlockNumber) -> (r: Option<&AccountId>)
        ensures
            match r {
                Some(m) => self@.mined_blocks.contains_key(block_number) && *m == self@.mined_blocks[block_number],
                None => !self@.mined_blocks.contains_key(block_number),
            },
    {
        self.mined_blocks.get(&block_number)
    }

    /// Adds `amount` to the stake of `staker`. A zero amount is refused with
    /// `InvalidStake`, a sum beyond the largest balance with `StakeOverflow`;
    /// a refused call changes nothing.
    pub fn stake(&mut self, staker: AccountId, amount: Balance) -> (r: DispatchResult)
        requires
            old(self).well_formed(),
        ensures
            final(self).well_formed(),
            (final(self)@, r) == old(self)@.after_stake(staker@, amount),
    {
        if amount == 0 {
            return Err(DispatchError::InvalidStake);
        }
        let current = self.stake_of(&staker);
        match current.checked_add(amount) {
            Some(total) => {
                self.stake_pool.insert(staker, total);
                Ok(())
            },
            None => Err(DispatchError::StakeOverflow),
        }
    }

    /// Records `miner` as the miner of `block_number`. Refused with
    /// `AlreadyMined` when the block already has a miner, and with
    /// `ConsensusValidationFailed` unless the proof of work is below the work
    /// threshold and the miner's stake reaches the stake threshold. A refused
    /// call changes nothing.
    pub fn mine_block(
        &mut self,
        miner: AccountId,
        block_number: BlockNumber,
        proof_of_work: u64,
    ) -> (r: DispatchResult)
        requires
            old(self).well_formed(),
        ensures
            final(self).well_formed(),
            (final(self)@, r) == old(self)@.after_mine(miner, block_number, proof_of_work),
    {
        if self.mined_blocks.contains_key(&block_number) {
            return Err(DispatchError::AlreadyMined);
        }
        let pow_valid = proof_of_work < self.work_threshold;
        let pos_valid = self.stake_of(&miner) >= self.stake_threshold;
        if pow_valid && pos_valid {
            self.mined_blocks.insert(block_number, miner);
            Ok(())
        } else {
            Err(DispatchError::ConsensusValidationFailed)
        }
    }
}

impl Dispatch for Pallet {
    type Caller = AccountId;
    type Call = Call;

    open spec fn inv(&self) -> bool {
        self.well_formed()
    }

    open spec fn dispatch_outcome(&self, caller: AccountId, call: Call, next: Self, r: DispatchResult) -> bool {
        (next@, r) == self@.after_call(caller, call)
    }

    fn dispatch(&mut self, caller: AccountId, call: Call) -> (r: DispatchResult) {
        match call {
            Call::Stake { amount } => self.stake(caller, amount),
            Call::MineBlock { block_number, proof_of_work } => {
                self.mine_block(caller, block_number, proof_of_work)
            },
        }
    }
}

/// The sum of a sequence of amounts.
pub open spec fn total(amounts: Seq<Balance>) -> int
    decreases amounts.len(),
{
    if amounts.len() == 0 {
        0
    } else {
        total(amounts.drop_last()) + amounts.last()
    }
}

/// Mining the same block number twice succeeds at most once. Once the first
/// call has left the block mined, the second is refused with `AlreadyMined`
/// and changes nothing, whoever the miners are.
pub proof fn lemma_mine_at_most_once(
    s: PowPosView,
    first_miner: AccountId,
    second_miner: AccountId,
    block_number: BlockNumber,
    first_work: u64,
    second_work: u64,
)
    ensures
        ({
            let (s1, r1) = s.after_mine(first_miner, block_number, first_work);
            let (s2, r2) = s1.after_mine(second_miner, block_number, second_work);
            &&& !(r1 is Ok && r2 is Ok)
            &&& s1.mined_blocks.contains_key(block_number) ==> r2 == Err::<(), DispatchError>(
                DispatchError::AlreadyMined,
            ) && s2 == s1
        }),
{
}

/// Mining a free block number succeeds exactly when the work is valid and
/// the miner's stake is valid; every other case is refused with
/// `ConsensusValidationFailed` and changes nothing.
pub proof fn lemma_conjunctive_admission(
    s: PowPosView,
    miner: AccountId,
    block_number: BlockNumber,
    proof_of_work: u64,
)
    requires
        !s.mined_blocks.contains_key(block_number),
    ensures
        ({
            let (s1, r) = s.after_mine(miner, block_number, proof_of_work);
            &&& r is Ok <==> (proof_of_work < s.work_threshold && s.stake_of(miner@)
                >= s.stake_threshold)
            &&& r is Err ==> r == Err::<(), DispatchError>(DispatchError::ConsensusValidationFailed)
                && s1 == s
        }),
{
}

/// Successive successful stakes by one account add up: its stake grows by
/// the sum of the amounts.
pub proof fn lemma_stakes_add_up(states: Seq<PowPosView>, staker: Seq<char>, amounts: Seq<Balance>)
    requires
        states.len() == amounts.len() + 1,
        forall|i: int|
            0 <= i < amounts.len() ==> #[trigger] states[i].after_stake(staker, amounts[i]) == (
            states[i + 1],
            Ok::<(), DispatchError>(()),
        ),
    ensures
        states.last().stake_of(staker) == states[0].stake_of(staker) + total(amounts),
    decreases amounts.len(),
{
    if amounts.len() > 0 {
        let n = amounts.len() - 1;
        assert(states[n].after_stake(staker, amounts[n]) == (states[n + 1], Ok::<(), DispatchError>(())));
        lemma_stakes_add_up(states.drop_last(), staker, amounts.drop_last());
        assert(states.drop_last().last() == states[n]);
    }
}

/// A stake of zero is always refused with `InvalidStake` and changes nothing.
pub proof fn lemma_zero_stake_refused(s: PowPosView, staker: Seq<char>)
    ensures
        s.after_stake(staker, 0) == (s, Err::<(), DispatchError>(DispatchError::InvalidStake)),
{
}

} // verus!
