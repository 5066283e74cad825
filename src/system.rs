//! The system pallet: the current block number and a nonce per account.
use vstd::prelude::*;
use crate::account_map::AccountMap;
use crate::{AccountId, BlockNumber, Nonce};

verus! {

/// What the system pallet holds, as mathematical values.
pub struct SystemView {
    pub block_number: BlockNumber,
    pub nonce: Map<Seq<char>, Nonce>,
}

/// The nonce of `who` in `nonces`: zero when it has none.
pub open spec fn nonce_in(nonces: Map<Seq<char>, Nonce>, who: Seq<char>) -> int {
    if nonces.contains_key(who) {
        nonces[who] as int
    } else {
        0
    }
}

impl SystemView {
    /// The state after the nonce of `who` is counted up; it stays at the
    /// largest nonce once there.
    pub open spec fn after_inc_nonce(self, who: Seq<char>) -> SystemView {
        let n = nonce_in(self.nonce, who);
        SystemView {
            nonce: self.nonce.insert(who, if n < u32::MAX { (n + 1) as u32 } else { u32::MAX }),
            ..self
        }
    }
}

/// The system pallet.
pub struct Pallet {
    block_number: BlockNumber,
    nonce: AccountMap<Nonce>,
}

impl View for Pallet {
    type V = SystemView;

    closed spec fn view(&self) -> SystemView {
        SystemView { block_number: self.block_number, nonce: self.nonce@ }
    }
}

impl Pallet {
    pub closed spec fn well_formed(&self) -> bool {
        self.nonce.well_formed()
    }

    /// Block number zero and no nonces.
    pub fn new() -> (r: Self)
        ensures
            r.well_formed(),
            r@.block_number == 0,
            r@.nonce == Map::<Seq<char>, Nonce>::empty(),
    {
        Pallet { block_number: 0, nonce: AccountMap::new() }
    }

    /// The current block number.
    pub fn block_number(&self) -> (r: BlockNumber)
        ensures
            r == self@.block_number,
    {
        self.block_number
    }

    /// Advances the block number by one.
    pub fn inc_block_number(&mut self)
        requires
            old(self).well_formed(),
            old(self)@.block_number < u32::MAX,
        ensures
            final(self).well_formed(),
            final(self)@ == (SystemView { block_number: (old(self)@.block_number + 1) as u32, ..old(self)@ }),
    {
        self.block_number = self.block_number + 1;
    }

    /// The nonce of `who`, zero when it has none.
    pub fn nonce(&self, who: &AccountId) -> (r: Nonce)
        requires
            self.well_formed(),
        ensures
            r == nonce_in(self@.nonce, who@),
    {
        match self.nonce.get(who) {
            Some(n) => *n,
            None => 0,
        }
    }

    /// Counts up the nonce of `who`; at the largest nonce it stays there.
    pub fn inc_nonce(&mut self, who: &AccountId)
        requires
            old(self).well_formed(),
        ensures
            final(self).well_formed(),
            final(self)@ == old(self)@.after_inc_nonce(who@),
    {
        let n = self.nonce(who);
        self.nonce.insert(who.clone(), n.saturating_add(1));
    }
}

} // verus!
