//! The counter module: the global block counter and one nonce per account.

use crate::numeric::Numeric;
use std::collections::BTreeMap;
use vstd::prelude::*;

verus! {

broadcast use vstd::std_specs::btree::group_btree_axioms;

/// The types that every state module shares, with the laws they must obey.
pub trait Config {
    /// Identifies an account: the key into every module's state.
    type AccountId: Ord + Clone;

    /// Counts blocks.
    type BlockNumber: Numeric;

    /// Counts the extrinsics that an account has sent.
    type Nonce: Numeric;

    /// Account identifiers are totally ordered, their equality test agrees
    /// with equality of values, and a clone equals what it was cloned from.
    proof fn lemma_account_id_laws()
        ensures
            vstd::laws_cmp::obeys_cmp::<Self::AccountId>(),
            vstd::laws_eq::obeys_concrete_eq::<Self::AccountId>(),
            forall|a: Self::AccountId, b: Self::AccountId| cloned(a, b) ==> a == b,
    ;
}

/// The nonce that `nonces` gives `who`: what is stored for it, and zero for
/// an account that has no entry.
pub open spec fn nonce_in<A>(nonces: Map<A, nat>, who: A) -> nat {
    if nonces.contains_key(who) {
        nonces[who]
    } else {
        0
    }
}

/// An account without an entry has a nonce of zero; in particular every
/// account of a fresh counter module has.
pub proof fn lemma_unknown_account_has_zero_nonce<A>(nonces: Map<A, nat>, who: A)
    requires
        !nonces.contains_key(who),
    ensures
        nonce_in(nonces, who) == 0,
        nonce_in(Map::<A, nat>::empty(), who) == 0,
{
}

/// The block counter and the per-account nonces.
#[derive(Debug)]
pub struct Pallet<T: Config> {
    block_number: T::BlockNumber,
    nonce: BTreeMap<T::AccountId, T::Nonce>,
}

impl<T: Config> Pallet<T> {
    /// The number of the current block.
    pub closed spec fn current_block(&self) -> nat {
        self.block_number.value()
    }

    /// The nonces that are stored, by account.
    pub closed spec fn nonces(&self) -> Map<T::AccountId, nat> {
        self.nonce@.map_values(|n: T::Nonce| n.value())
    }

    /// The nonce of an account: what is stored for it, and zero for an
    /// account that has none.
    pub open spec fn nonce_of(&self, who: T::AccountId) -> nat {
        nonce_in(self.nonces(), who)
    }

    /// A counter module at block zero in which no account has a nonce.
    pub fn new() -> (r: Self)
        ensures
            r.current_block() == 0,
            r.nonces() == Map::<T::AccountId, nat>::empty(),
            forall|who: T::AccountId| r.nonce_of(who) == 0,
    {
        let r = Self { block_number: T::BlockNumber::zero(), nonce: BTreeMap::new() };
        assert(r.nonces() =~= Map::<T::AccountId, nat>::empty());
        r
    }

    /// The number of the current block.
    pub fn block_number(&self) -> (r: T::BlockNumber)
        ensures
            r.value() == self.current_block(),
    {
        self.block_number
    }

    /// Advances the block counter by exactly one.
    pub fn inc_block_number(&mut self)
        requires
            old(self).current_block() < T::BlockNumber::limit(),
        ensures
            final(self).current_block() == old(self).current_block() + 1,
            final(self).nonces() == old(self).nonces(),
    {
        if let Some(next) = self.block_number.checked_add(T::BlockNumber::one()) {
            self.block_number = next;
        }
    }

    /// Advances the nonce of `who` by exactly one; every other nonce stays.
    pub fn inc_nonce(&mut self, who: &T::AccountId)
        requires
            old(self).nonce_of(*who) < T::Nonce::limit(),
        ensures
            final(self).nonces() == old(self).nonces().insert(*who, old(self).nonce_of(*who) + 1),
            final(self).nonce_of(*who) == old(self).nonce_of(*who) + 1,
            final(self).current_block() == old(self).current_block(),
    {
        proof {
            T::lemma_account_id_laws();
        }
        let nonce = self.get_nonce(who);
        if let Some(next) = nonce.checked_add(T::Nonce::one()) {
            let key = who.clone();
            assert(cloned(*who, key));
            self.nonce.insert(key, next);
            assert(self.nonces() =~= old(self).nonces().insert(
                *who,
                old(self).nonce_of(*who) + 1,
            ));
        }
    }

    /// The nonce of `who`, zero for an account that has none.
    pub fn get_nonce(&self, who: &T::AccountId) -> (r: T::Nonce)
        ensures
            r.value() == self.nonce_of(*who),
    {
        proof {
            T::lemma_account_id_laws();
        }
        match self.nonce.get(who) {
            Some(nonce) => *nonce,
            None => T::Nonce::zero(),
        }
    }
}

} // verus!
