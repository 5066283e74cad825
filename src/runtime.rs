//! The runtime: every pallet under one dispatcher, and block execution.
use vstd::prelude::*;
use crate::support::{DispatchError, DispatchResult, Dispatch};
use crate::system::SystemView;
use crate::pow_pos::PowPosView;
use crate::{balances, pow_pos, proof_of_existence, support, system};
use crate::{AccountId, Balance, BlockNumber};

verus! {

/// A call to one of the runtime's pallets.
pub enum RuntimeCall {
    Balances(balances::Call),
    ProofOfExistence(proof_of_existence::Call),
    PowPos(pow_pos::Call),
}

/// An extrinsic that the runtime runs.
pub type Extrinsic = support::Extrinsic<AccountId, RuntimeCall>;

/// The header of a block that the runtime runs.
pub type Header = support::Header<BlockNumber>;

/// A block that the runtime runs.
pub type Block = support::Block<Header, Extrinsic>;

/// What the runtime holds, as mathematical values.
pub struct RuntimeView {
    pub system: SystemView,
    pub balances: Map<Seq<char>, Balance>,
    pub proof_of_existence: Map<Seq<char>, AccountId>,
    pub pow_pos: PowPosView,
}

impl RuntimeView {
    /// The state and result after `call` is routed, for `caller`, to the
    /// pallet that owns it.
    pub open spec fn after_dispatch(self, caller: AccountId, call: RuntimeCall) -> (RuntimeView, DispatchResult) {
        match call {
            RuntimeCall::Balances(c) => {
                let (b, r) = balances::after_call(self.balances, caller, c);
                (RuntimeView { balances: b, ..self }, r)
            },
            RuntimeCall::ProofOfExistence(c) => {
                let (p, r) = proof_of_existence::after_call(self.proof_of_existence, caller, c);
                (RuntimeView { proof_of_existence: p, ..self }, r)
            },
            RuntimeCall::PowPos(c) => {
                let (p, r) = self.pow_pos.after_call(caller, c);
                (RuntimeView { pow_pos: p, ..self }, r)
            },
        }
    }

    /// The state after one extrinsic: the caller's nonce is counted up and
    /// the call dispatched.
    pub open spec fn after_extrinsic(self, e: Extrinsic) -> (RuntimeView, DispatchResult) {
        RuntimeView { system: self.system.after_inc_nonce(e.caller@), ..self }.after_dispatch(
            e.caller,
            e.call,
        )
    }

    /// The state after running `exts` in order, and the position and error
    /// of each extrinsic that failed, in order.
    pub open spec fn after_extrinsics(self, exts: Seq<Extrinsic>) -> (RuntimeView, Seq<(usize, DispatchError)>)
        decreases exts.len(),
    {
        if exts.len() == 0 {
            (self, Seq::empty())
        } else {
            let (s, failures) = self.after_extrinsics(exts.drop_last());
            let (next, r) = s.after_extrinsic(exts.last());
            match r {
                Ok(_) => (next, failures),
                Err(e) => (next, failures.push(((exts.len() - 1) as usize, e))),
            }
        }
    }
}

/// Running extrinsics never changes the block number.
pub proof fn lemma_extrinsics_keep_block_number(s: RuntimeView, exts: Seq<Extrinsic>)
    ensures
        s.after_extrinsics(exts).0.system.block_number == s.system.block_number,
    decreases exts.len(),
{
    if exts.len() > 0 {
        lemma_extrinsics_keep_block_number(s, exts.drop_last());
    }
}

/// All the pallets of the ledger.
pub struct Runtime {
    pub system: system::Pallet,
    pub balances: balances::Pallet,
    pub proof_of_existence: proof_of_existence::Pallet,
    pub pow_pos: pow_pos::Pallet,
}

impl View for Runtime {
    type V = RuntimeView;

    open spec fn view(&self) -> RuntimeView {
        RuntimeView {
            system: self.system@,
            balances: self.balances@,
            proof_of_existence: self.proof_of_existence@,
            pow_pos: self.pow_pos@,
        }
    }
}

impl Runtime {
    pub open spec fn well_formed(&self) -> bool {
        &&& self.system.well_formed()
        &&& self.balances.well_formed()
        &&& self.proof_of_existence.well_formed()
        &&& self.pow_pos.well_formed()
    }

    /// A runtime at block zero with every pallet empty.
    pub fn new() -> (r: Self)
        ensures
            r.well_formed(),
            r@.system.block_number == 0,
            r@.system.nonce == Map::<Seq<char>, u32>::empty(),
            r@.balances == Map::<Seq<char>, Balance>::empty(),
            r@.proof_of_existence == Map::<Seq<char>, AccountId>::empty(),
            r@.pow_pos.stake_pool == Map::<Seq<char>, Balance>::empty(),
            r@.pow_pos.mined_blocks == Map::<BlockNumber, AccountId>::empty(),
            r@.pow_pos.work_threshold == pow_pos::WORK_THRESHOLD,
            r@.pow_pos.stake_threshold == pow_pos::STAKE_THRESHOLD,
    {
        Runtime {
            system: system::Pallet::new(),
            balances: balances::Pallet::new(),
            proof_of_existence: proof_of_existence::Pallet::new(),
            pow_pos: pow_pos::Pallet::new(),
        }
    }

    /// Runs `block`. Its number must be the one after the current block
    /// number; otherwise it is refused with `BlockNumberMismatch` and nothing
    /// changes. Else the block number advances by one and each extrinsic runs
    /// in order: the caller's nonce is counted up and the call dispatched. A
    /// failed call does not stop the block; the result lists the position and
    /// error of each one that failed.
    pub fn execute_block(&mut self, block: Block) -> (r: Result<Vec<(usize, DispatchError)>, DispatchError>)
        requires
            old(self).well_formed(),
        ensures
            final(self).well_formed(),
            block.header.block_number != old(self)@.system.block_number + 1 ==> r == Err::<
                Vec<(usize, DispatchError)>,
                DispatchError,
            >(DispatchError::BlockNumberMismatch) && final(self)@ == old(self)@,
            block.header.block_number == old(self)@.system.block_number + 1 ==> {
                let started = RuntimeView {
                    system: SystemView { block_number: block.header.block_number, ..old(self)@.system },
                    ..old(self)@
                };
                &&& r is Ok
                &&& (final(self)@, r->Ok_0@) == started.after_extrinsics(block.extrinsics@)
                &&& final(self)@.system.block_number == old(self)@.system.block_number + 1
            },
    {
        let current = self.system.block_number();
        if current == u32::MAX || block.header.block_number != current + 1 {
            return Err(DispatchError::BlockNumberMismatch);
        }
        self.system.inc_block_number();
        let ghost started = self@;
        let ghost all = block.extrinsics@;
        let mut remaining = block.extrinsics;
        let mut failures: Vec<(usize, DispatchError)> = Vec::new();
        let mut i: usize = 0;
        let count = remaining.len();
        while remaining.len() > 0
            invariant
                self.well_formed(),
                i + remaining@.len() == all.len() == count,
                remaining@ == all.subrange(i as int, all.len() as int),
                (self@, failures@) == started.after_extrinsics(all.subrange(0, i as int)),
            decreases remaining@.len(),
        {
            let support::Extrinsic { caller, call } = remaining.remove(0);
            proof {
                let done = all.subrange(0, i as int + 1);
                assert(done.drop_last() =~= all.subrange(0, i as int));
                assert(done.last() == all[i as int]);
                assert(remaining@ =~= all.subrange(i as int + 1, all.len() as int));
            }
            self.system.inc_nonce(&caller);
            match self.dispatch(caller, call) {
                Ok(()) => {},
                Err(e) => {
                    failures.push((i, e));
                },
            }
            i = i + 1;
        }
        proof {
            assert(all.subrange(0, i as int) =~= all);
            lemma_extrinsics_keep_block_number(started, all);
        }
        Ok(failures)
    }
}

impl Dispatch for Runtime {
    type Caller = AccountId;
    type Call = RuntimeCall;

    open spec fn inv(&self) -> bool {
        self.well_formed()
    }

    open spec fn dispatch_outcome(
        &self,
        caller: AccountId,
        call: RuntimeCall,
        next: Self,
        r: DispatchResult,
    ) -> bool {
        (next@, r) == self@.after_dispatch(caller, call)
    }

    fn dispatch(&mut self, caller: AccountId, runtime_call: RuntimeCall) -> (r: DispatchResult) {
        match runtime_call {
            RuntimeCall::Balances(call) => self.balances.dispatch(caller, call),
            RuntimeCall::ProofOfExistence(call) => self.proof_of_existence.dispatch(caller, call),
            RuntimeCall::PowPos(call) => self.pow_pos.dispatch(caller, call),
        }
    }
}

} // verus!
