//! The ledger pallet: the balance of each account, with transfers that
//! check both sides before changing either.
use vstd::prelude::*;
use crate::account_map::AccountMap;
use crate::support::{DispatchError, DispatchResult, Dispatch};
use crate::{AccountId, Balance};

verus! {

/// The balance of `who` in `balances`: zero when it has none.
pub open spec fn balance_in(balances: Map<Seq<char>, Balance>, who: Seq<char>) -> int {
    if balances.contains_key(who) {
        balances[who] as int
    } else {
        0
    }
}

/// The balances and result after `from` sends `amount` to `to`.
pub open spec fn after_transfer(
    balances: Map<Seq<char>, Balance>,
    from: Seq<char>,
    to: Seq<char>,
    amount: Balance,
) -> (Map<Seq<char>, Balance>, DispatchResult) {
    if balance_in(balances, from) < amount {
        (balances, Err(DispatchError::InsufficientFunds))
    } else if balance_in(balances, to) + amount > u128::MAX {
        (balances, Err(DispatchError::Overflow))
    } else {
        (
            balances.insert(from, (balance_in(balances, from) - amount) as u128).insert(
                to,
                (balance_in(balances, to) + amount) as u128,
            ),
            Ok(()),
        )
    }
}

/// The calls that the ledger pallet handles.
pub enum Call {
    Transfer { to: AccountId, amount: Balance },
}

/// The balances and result after dispatching `call` for `caller`.
pub open spec fn after_call(balances: Map<Seq<char>, Balance>, caller: AccountId, call: Call) -> (
    Map<Seq<char>, Balance>,
    DispatchResult,
) {
    match call {
        Call::Transfer { to, amount } => after_transfer(balances, caller@, to@, amount),
    }
}

/// The ledger pallet.
pub struct Pallet {
    balances: AccountMap<Balance>,
}

impl View for Pallet {
    type V = Map<Seq<char>, Balance>;

    closed spec fn view(&self) -> Map<Seq<char>, Balance> {
        self.balances@
    }
}

impl Pallet {
    pub closed spec fn well_formed(&self) -> bool {
        self.balances.well_formed()
    }

    /// A ledger where every balance is zero.
    pub fn new() -> (r: Self)
        ensures
            r.well_formed(),
            r@ == Map::<Seq<char>, Balance>::empty(),
    {
        Pallet { balances: AccountMap::new() }
    }

    /// Sets the balance of `who` to `amount`.
    pub fn set_balance(&mut self, who: &AccountId, amount: Balance)
        requires
            old(self).well_formed(),
        ensures
            final(self).well_formed(),
            final(self)@ == old(self)@.insert(who@, amount),
    {
        self.balances.insert(who.clone(), amount);
    }

    /// The balance of `who`, zero when it has none.
    pub fn balance(&self, who: &AccountId) -> (r: Balance)
        requires
            self.well_formed(),
        ensures
            r == balance_in(self@, who@),
    {
        match self.balances.get(who) {
            Some(b) => *b,
            None => 0,
        }
    }

    /// Moves `amount` from `caller` to `to`. Refused with `InsufficientFunds`
    /// when the caller holds less than `amount`, and with `Overflow` when the
    /// receiver's balance would pass the largest balance; a refused transfer
    /// changes nothing.
    pub fn transfer(&mut self, caller: AccountId, to: AccountId, amount: Balance) -> (r: DispatchResult)
        requires
            old(self).well_formed(),
        ensures
            final(self).well_formed(),
            (final(self)@, r) == after_transfer(old(self)@, caller@, to@, amount),
    {
        let caller_balance = self.balance(&caller);
        let to_balance = self.balance(&to);
        let new_caller_balance = match caller_balance.checked_sub(amount) {
            Some(b) => b,
            None => return Err(DispatchError::InsufficientFunds),
        };
        let new_to_balance = match to_balance.checked_add(amount) {
            Some(b) => b,
            None => return Err(DispatchError::Overflow),
        };
        self.balances.insert(caller, new_caller_balance);
        self.balances.insert(to, new_to_balance);
        Ok(())
    }
}

impl Dispatch for Pallet {
    type Caller = AccountId;
    type Call = Call;

    open spec fn inv(&self) -> bool {
        self.well_formed()
    }

    open spec fn dispatch_outcome(&self, caller: AccountId, call: Call, next: Self, r: DispatchResult) -> bool {
        (next@, r) == after_call(self@, caller, call)
    }

    fn dispatch(&mut self, caller: AccountId, call: Call) -> (r: DispatchResult) {
        match call {
            Call::Transfer { to, amount } => self.transfer(caller, to, amount),
        }
    }
}

/// A transfer never leaks value: a refused one leaves every balance as it
/// was; an accepted one between two accounts takes exactly `amount` from the
/// sender, gives exactly `amount` to the receiver, and leaves every other
/// account alone.
pub proof fn lemma_transfer_exact(
    balances: Map<Seq<char>, Balance>,
    from: Seq<char>,
    to: Seq<char>,
    amount: Balance,
)
    ensures
        ({
            let (next, r) = after_transfer(balances, from, to, amount);
            &&& r is Err ==> next == balances
            &&& (r is Ok && from != to) ==> {
                &&& balance_in(next, from) == balance_in(balances, from) - amount
                &&& balance_in(next, to) == balance_in(balances, to) + amount
                &&& balance_in(next, from) + balance_in(next, to) == balance_in(balances, from)
                    + balance_in(balances, to)
            }
            &&& forall|who: Seq<char>|
                who != from && who != to ==> #[trigger] balance_in(next, who) == balance_in(
                    balances,
                    who,
                )
        }),
{
}

} // verus!
