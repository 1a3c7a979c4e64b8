//! The ledger module: one balance per account, and the checked transfer.

use crate::numeric::Numeric;
use crate::support::{Dispatch, DispatchError, DispatchResult};
use std::collections::BTreeMap;
use vstd::prelude::*;

verus! {

broadcast use vstd::std_specs::btree::group_btree_axioms;

/// What the ledger needs beyond the shared types: the type of a balance.
pub trait Config: crate::system::Config {
    /// An amount of funds.
    type Balance: Numeric;
}

/// The balance that `balances` gives `who`: what is stored for it, and zero
/// for an account that has no entry.
pub open spec fn balance_in<A>(balances: Map<A, nat>, who: A) -> nat {
    if balances.contains_key(who) {
        balances[who]
    } else {
        0
    }
}

/// What a transfer of `amount` from `caller` to `to` ends in, where no balance
/// can exceed `limit`. The caller must hold the amount, and the recipient's
/// balance must be able to take it on top of what it holds.
pub open spec fn transfer_outcome<A>(
    balances: Map<A, nat>,
    caller: A,
    to: A,
    amount: nat,
    limit: nat,
) -> DispatchResult {
    if amount > balance_in(balances, caller) {
        Err(DispatchError::InsufficientBalance)
    } else if balance_in(balances, to) + amount > limit {
        Err(DispatchError::BalanceOverflow)
    } else {
        Ok(())
    }
}

/// The balances after a transfer of `amount` from `caller` to `to`: on
/// success the caller is debited and then the recipient credited, so that a
/// transfer to oneself changes no balance; on failure nothing changes.
pub open spec fn transfer_balances<A>(
    balances: Map<A, nat>,
    caller: A,
    to: A,
    amount: nat,
    limit: nat,
) -> Map<A, nat> {
    if transfer_outcome(balances, caller, to, amount, limit) is Ok {
        let debited = balances.insert(caller, (balance_in(balances, caller) - amount) as nat);
        debited.insert(to, balance_in(debited, to) + amount)
    } else {
        balances
    }
}

/// An account without an entry has a balance of zero; in particular every
/// account of an empty ledger has.
pub proof fn lemma_unknown_account_has_no_funds<A>(balances: Map<A, nat>, who: A)
    requires
        !balances.contains_key(who),
    ensures
        balance_in(balances, who) == 0,
        balance_in(Map::<A, nat>::empty(), who) == 0,
{
}

/// A balance that has been set is the balance that is read, and the balance
/// of every other account stays what it was.
pub proof fn lemma_set_then_read<A>(balances: Map<A, nat>, who: A, amount: nat, other: A)
    ensures
        balance_in(balances.insert(who, amount), who) == amount,
        other != who ==> balance_in(balances.insert(who, amount), other) == balance_in(
            balances,
            other,
        ),
{
}

/// A transfer between two accounts succeeds when the caller holds the amount
/// and the recipient's balance can take it. It then lowers the caller's
/// balance by the amount, raises the recipient's by the amount, and leaves
/// every other balance as it was.
pub proof fn lemma_transfer_moves_amount<A>(
    balances: Map<A, nat>,
    caller: A,
    to: A,
    amount: nat,
    limit: nat,
    other: A,
)
    requires
        caller != to,
        balance_in(balances, caller) >= amount,
        balance_in(balances, to) + amount <= limit,
    ensures
        transfer_outcome(balances, caller, to, amount, limit) == Ok::<(), DispatchError>(()),
        balance_in(transfer_balances(balances, caller, to, amount, limit), caller) == balance_in(
            balances,
            caller,
        ) - amount,
        balance_in(transfer_balances(balances, caller, to, amount, limit), to) == balance_in(
            balances,
            to,
        ) + amount,
        other != caller && other != to ==> balance_in(
            transfer_balances(balances, caller, to, amount, limit),
            other,
        ) == balance_in(balances, other),
{
}

/// A transfer to oneself succeeds under the same two conditions and changes
/// no balance.
pub proof fn lemma_transfer_to_self_is_neutral<A>(
    balances: Map<A, nat>,
    caller: A,
    amount: nat,
    limit: nat,
    other: A,
)
    requires
        balance_in(balances, caller) >= amount,
        balance_in(balances, caller) + amount <= limit,
    ensures
        transfer_outcome(balances, caller, caller, amount, limit) == Ok::<(), DispatchError>(()),
        balance_in(transfer_balances(balances, caller, caller, amount, limit), other)
            == balance_in(balances, other),
{
}

/// No transfer, whether it succeeds or fails and whoever the two parties
/// are, changes the sum of the two parties' balances.
pub proof fn lemma_transfer_keeps_sum<A>(
    balances: Map<A, nat>,
    caller: A,
    to: A,
    amount: nat,
    limit: nat,
)
    ensures
        balance_in(transfer_balances(balances, caller, to, amount, limit), caller) + balance_in(
            transfer_balances(balances, caller, to, amount, limit),
            to,
        ) == balance_in(balances, caller) + balance_in(balances, to),
{
}

/// A transfer of more than the caller holds fails with `InsufficientBalance`
/// and changes nothing.
pub proof fn lemma_transfer_beyond_funds_fails<A>(
    balances: Map<A, nat>,
    caller: A,
    to: A,
    amount: nat,
    limit: nat,
)
    requires
        amount > balance_in(balances, caller),
    ensures
        transfer_outcome(balances, caller, to, amount, limit) == Err::<(), DispatchError>(
            DispatchError::InsufficientBalance,
        ),
        transfer_balances(balances, caller, to, amount, limit) == balances,
{
}

/// A transfer that the recipient's balance cannot take fails with
/// `BalanceOverflow` and changes nothing.
pub proof fn lemma_transfer_beyond_limit_fails<A>(
    balances: Map<A, nat>,
    caller: A,
    to: A,
    amount: nat,
    limit: nat,
)
    requires
        amount <= balance_in(balances, caller),
        balance_in(balances, to) + amount > limit,
    ensures
        transfer_outcome(balances, caller, to, amount, limit) == Err::<(), DispatchError>(
            DispatchError::BalanceOverflow,
        ),
        transfer_balances(balances, caller, to, amount, limit) == balances,
{
}

/// The balances of all accounts.
#[derive(Debug)]
pub struct Pallet<T: Config> {
    balances: BTreeMap<T::AccountId, T::Balance>,
}

/// What can be called on the ledger.
pub enum Call<T: Config> {
    /// Move `amount` from the caller to `to`.
    Transfer { to: T::AccountId, amount: T::Balance },
}

impl<T: Config> Pallet<T> {
    /// The balances that are stored, by account.
    pub closed spec fn balances(&self) -> Map<T::AccountId, nat> {
        self.balances@.map_values(|b: T::Balance| b.value())
    }

    /// The balance of an account, zero for an account that has no entry.
    pub open spec fn balance_of(&self, who: T::AccountId) -> nat {
        balance_in(self.balances(), who)
    }

    /// No balance exceeds what the balance type can hold.
    pub proof fn lemma_balances_within_limit(&self)
        ensures
            forall|who: T::AccountId| #[trigger] self.balance_of(who) <= T::Balance::limit(),
    {
        assert forall|who: T::AccountId| #[trigger] self.balance_of(who) <= T::Balance::limit() by {
            if self.balances().contains_key(who) {
                self.balances@[who].lemma_value_within_limit();
            }
        }
    }

    /// A ledger in which no account has an entry.
    pub fn new() -> (r: Self)
        ensures
            r.balances() == Map::<T::AccountId, nat>::empty(),
            forall|who: T::AccountId| r.balance_of(who) == 0,
    {
        let r = Self { balances: BTreeMap::new() };
        assert(r.balances() =~= Map::<T::AccountId, nat>::empty());
        r
    }

    /// Overwrites the balance of `who` with `amount`; every other balance
    /// stays.
    pub fn set_balance(&mut self, who: &T::AccountId, amount: T::Balance)
        ensures
            final(self).balances() == old(self).balances().insert(*who, amount.value()),
            final(self).balance_of(*who) == amount.value(),
    {
        proof {
            T::lemma_account_id_laws();
        }
        let key = who.clone();
        assert(cloned(*who, key));
        self.balances.insert(key, amount);
        assert(self.balances() =~= old(self).balances().insert(*who, amount.value()));
    }

    /// The balance of `who`, zero for an account that has no entry.
    pub fn balance(&self, who: &T::AccountId) -> (r: T::Balance)
        ensures
            r.value() == self.balance_of(*who),
    {
        proof {
            T::lemma_account_id_laws();
        }
        match self.balances.get(who) {
            Some(balance) => *balance,
            None => T::Balance::zero(),
        }
    }

    /// Moves `amount` from `caller` to `to`, or fails and changes nothing.
    ///
    /// Fails with `InsufficientBalance` when the caller holds less than
    /// `amount`, else with `BalanceOverflow` when the recipient's balance
    /// cannot take `amount` on top of what it holds.
    pub fn transfer(&mut self, caller: T::AccountId, to: T::AccountId, amount: T::Balance) -> (r:
        DispatchResult)
        ensures
            r == transfer_outcome(
                old(self).balances(),
                caller,
                to,
                amount.value(),
                T::Balance::limit(),
            ),
            final(self).balances() == transfer_balances(
                old(self).balances(),
                caller,
                to,
                amount.value(),
                T::Balance::limit(),
            ),
    {
        proof {
            T::lemma_account_id_laws();
            reveal(vstd::laws_eq::obeys_concrete_eq);
        }
        let caller_balance = self.balance(&caller);
        let to_balance = self.balance(&to);

        let new_caller_balance = match caller_balance.checked_sub(amount) {
            Some(balance) => balance,
            None => {
                return Err(DispatchError::InsufficientBalance);
            },
        };
        let new_to_balance = match to_balance.checked_add(amount) {
            Some(balance) => balance,
            None => {
                return Err(DispatchError::BalanceOverflow);
            },
        };
        let to_self = caller == to;

        self.set_balance(&caller, new_caller_balance);
        if to_self {
            self.set_balance(&to, caller_balance);
        } else {
            self.set_balance(&to, new_to_balance);
        }
        Ok(())
    }
}

impl<T: Config> Dispatch for Pallet<T> {
    type Caller = T::AccountId;

    type Call = Call<T>;

    /// Carries out a ledger call: a transfer from the caller.
    fn dispatch(&mut self, caller: Self::Caller, call: Self::Call) -> (r: DispatchResult)
        ensures
            r == dispatch_outcome(old(self).balances(), caller, call),
            final(self).balances() == dispatch_balances(old(self).balances(), caller, call),
    {
        match call {
            Call::Transfer { to, amount } => self.transfer(caller, to, amount),
        }
    }
}

/// What a ledger call made by `caller` ends in.
pub open spec fn dispatch_outcome<T: Config>(
    balances: Map<T::AccountId, nat>,
    caller: T::AccountId,
    call: Call<T>,
) -> DispatchResult {
    match call {
        Call::Transfer { to, amount } => transfer_outcome(
            balances,
            caller,
            to,
            amount.value(),
            T::Balance::limit(),
        ),
    }
}

/// The balances after a ledger call made by `caller`.
pub open spec fn dispatch_balances<T: Config>(
    balances: Map<T::AccountId, nat>,
    caller: T::AccountId,
    call: Call<T>,
) -> Map<T::AccountId, nat> {
    match call {
        Call::Transfer { to, amount } => transfer_balances(
            balances,
            caller,
            to,
            amount.value(),
            T::Balance::limit(),
        ),
    }
}

} // verus!
