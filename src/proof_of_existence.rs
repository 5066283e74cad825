//! The claim registry: which account claims each piece of content.
use vstd::prelude::*;
use crate::account_map::AccountMap;
use crate::support::{DispatchError, DispatchResult, Dispatch};
use crate::{AccountId, Content};

verus! {

/// The claims and result after `caller` claims `claim`.
pub open spec fn after_create(claims: Map<Seq<char>, AccountId>, caller: AccountId, claim: Seq<char>) -> (
    Map<Seq<char>, AccountId>,
    DispatchResult,
) {
    if claims.contains_key(claim) {
        (claims, Err(DispatchError::ClaimAlreadyExists))
    } else {
        (claims.insert(claim, caller), Ok(()))
    }
}

/// The claims and result after `caller` gives up `claim`.
pub open spec fn after_revoke(claims: Map<Seq<char>, AccountId>, caller: Seq<char>, claim: Seq<char>) -> (
    Map<Seq<char>, AccountId>,
    DispatchResult,
) {
    if !claims.contains_key(claim) {
        (claims, Err(DispatchError::ClaimNotFound))
    } else if claims[claim]@ != caller {
        (claims, Err(DispatchError::NotClaimOwner))
    } else {
        (claims.remove(claim), Ok(()))
    }
}

/// The calls that the claim registry handles.
pub enum Call {
    CreateClaim { claim: Content },
    RevokeClaim { claim: Content },
}

/// The claims and result after dispatching `call` for `caller`.
pub open spec fn after_call(claims: Map<Seq<char>, AccountId>, caller: AccountId, call: Call) -> (
    Map<Seq<char>, AccountId>,
    DispatchResult,
) {
    match call {
        Call::CreateClaim { claim } => after_create(claims, caller, claim@),
        Call::RevokeClaim { claim } => after_revoke(claims, caller@, claim@),
    }
}

/// The claim registry pallet.
pub struct Pallet {
    claims: AccountMap<AccountId>,
}

impl View for Pallet {
    type V = Map<Seq<char>, AccountId>;

    closed spec fn view(&self) -> Map<Seq<char>, AccountId> {
        self.claims@
    }
}

impl Pallet {
    pub closed spec fn well_formed(&self) -> bool {
        self.claims.well_formed()
    }

    /// A registry with no claims.
    pub fn new() -> (r: Self)
        ensures
            r.well_formed(),
            r@ == Map::<Seq<char>, AccountId>::empty(),
    {
        Pallet { claims: AccountMap::new() }
    }

    /// The account that claims `claim`, if any.
    pub fn get_claim(&self, claim: &Content) -> (r: Option<&AccountId>)
        requires
            self.well_formed(),
        ensures
            match r {
                Some(owner) => self@.contains_key(claim@) && *owner == self@[claim@],
                None => !self@.contains_key(claim@),
            },
    {
        self.claims.get(claim)
    }

    /// Records `caller` as the claimant of `claim`; refused with
    /// `ClaimAlreadyExists` when it already has one.
    pub fn create_claim(&mut self, caller: AccountId, claim: Content) -> (r: DispatchResult)
        requires
            old(self).well_formed(),
        ensures
            final(self).well_formed(),
            (final(self)@, r) == after_create(old(self)@, caller, claim@),
    {
        if self.claims.contains_key(&claim) {
            return Err(DispatchError::ClaimAlreadyExists);
        }
        self.claims.insert(claim, caller);
        Ok(())
    }

    /// Removes the claim of `caller` on `claim`; refused with
    /// `ClaimNotFound` when nobody claims it and with `NotClaimOwner` when
    /// another account does.
    pub fn revoke_claim(&mut self, caller: AccountId, claim: Content) -> (r: DispatchResult)
        requires
            old(self).well_formed(),
        ensures
            final(self).well_formed(),
            (final(self)@, r) == after_revoke(old(self)@, caller@, claim@),
    {
        let is_owner = match self.claims.get(&claim) {
            Some(owner) => *owner == caller,
            None => return Err(DispatchError::ClaimNotFound),
        };
        if !is_owner {
            return Err(DispatchError::NotClaimOwner);
        }
        self.claims.remove(&claim);
        Ok(())
    }
}

impl Dispatch for Pallet {
    type Caller = AccountId;
    type Call = Call;

    open spec fn inv(&self) -> bool {
        self.well_formed()
    }

    open spec fn dispatch_outcome(&self, caller: AccountId, call: Call, next: Self, r: DispatchResult) -> bool {
        (next@, r) == after_call(self@, caller, call)
    }

    fn dispatch(&mut self, caller: AccountId, call: Call) -> (r: DispatchResult) {
        match call {
            Call::CreateClaim { claim } => self.create_claim(caller, claim),
            Call::RevokeClaim { claim } => self.revoke_claim(caller, claim),
        }
    }
}

} // verus!
