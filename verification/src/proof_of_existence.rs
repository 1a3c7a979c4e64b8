//! The claim module: a registry that binds a piece of content to the account
//! that registered it first.

use crate::support::{Dispatch, DispatchError, DispatchResult};
use core::fmt::Debug;
use std::collections::BTreeMap;
use vstd::prelude::*;

verus! {

broadcast use vstd::std_specs::btree::group_btree_axioms;

/// What the claim registry needs beyond the shared types: the type of the
/// content that is claimed.
pub trait Config: crate::system::Config {
    /// The content of a claim: the key of the registry.
    type Content: Debug + Ord;

    /// Contents are totally ordered.
    proof fn lemma_content_laws()
        ensures
            vstd::laws_cmp::obeys_cmp::<Self::Content>(),
    ;
}

/// What creating a claim on `claim` ends in: it must not be registered yet.
pub open spec fn create_outcome<C, A>(claims: Map<C, A>, claim: C) -> DispatchResult {
    if claims.contains_key(claim) {
        Err(DispatchError::ClaimExists)
    } else {
        Ok(())
    }
}

/// The registry after `caller` tried to create a claim on `claim`.
pub open spec fn create_claims<C, A>(claims: Map<C, A>, caller: A, claim: C) -> Map<C, A> {
    if create_outcome(claims, claim) is Ok {
        claims.insert(claim, caller)
    } else {
        claims
    }
}

/// What revoking the claim on `claim` ends in for `caller`: the claim must be
/// registered, and to the caller.
pub open spec fn revoke_outcome<C, A>(claims: Map<C, A>, caller: A, claim: C) -> DispatchResult {
    if !claims.contains_key(claim) {
        Err(DispatchError::ClaimNotFound)
    } else if claims[claim] != caller {
        Err(DispatchError::NotClaimOwner)
    } else {
        Ok(())
    }
}

/// The registry after `caller` tried to revoke the claim on `claim`.
pub open spec fn revoke_claims<C, A>(claims: Map<C, A>, caller: A, claim: C) -> Map<C, A> {
    if revoke_outcome(claims, caller, claim) is Ok {
        claims.remove(claim)
    } else {
        claims
    }
}

/// The owner that `claims` records for `claim`, `None` for content that
/// nobody has claimed.
pub open spec fn owner_in<C, A>(claims: Map<C, A>, claim: C) -> Option<A> {
    if claims.contains_key(claim) {
        Some(claims[claim])
    } else {
        None
    }
}

/// Content without an entry has no owner; in particular no content has one
/// in an empty registry.
pub proof fn lemma_unclaimed_content_has_no_owner<C, A>(claims: Map<C, A>, claim: C)
    requires
        !claims.contains_key(claim),
    ensures
        owner_in(claims, claim) is None,
        owner_in(Map::<C, A>::empty(), claim) is None,
{
}

/// Once `first` has tried to claim a piece of content, a claim on it by
/// `second` fails with `ClaimExists` and changes nothing. Where the first
/// claim succeeded, the content's owner is and stays `first`.
pub proof fn lemma_second_claim_fails<C, A>(claims: Map<C, A>, first: A, second: A, claim: C)
    ensures
        create_outcome(create_claims(claims, first, claim), claim) == Err::<(), DispatchError>(
            DispatchError::ClaimExists,
        ),
        create_claims(create_claims(claims, first, claim), second, claim) == create_claims(
            claims,
            first,
            claim,
        ),
        create_outcome(claims, claim) is Ok ==> owner_in(
            create_claims(create_claims(claims, first, claim), second, claim),
            claim,
        ) == Some(first),
{
}

/// A claim can be revoked by its owner only: for any other account the
/// revocation fails with `NotClaimOwner` and changes nothing, and for the
/// owner it succeeds and leaves the content without an owner.
pub proof fn lemma_only_owner_revokes<C, A>(claims: Map<C, A>, owner: A, other: A, claim: C)
    requires
        owner_in(claims, claim) == Some(owner),
        other != owner,
    ensures
        revoke_outcome(claims, other, claim) == Err::<(), DispatchError>(
            DispatchError::NotClaimOwner,
        ),
        revoke_claims(claims, other, claim) == claims,
        revoke_outcome(claims, owner, claim) == Ok::<(), DispatchError>(()),
        owner_in(revoke_claims(claims, owner, claim), claim) is None,
{
}

/// Revoking a claim on content that nobody has claimed fails with
/// `ClaimNotFound` and changes nothing.
pub proof fn lemma_revoke_unclaimed_fails<C, A>(claims: Map<C, A>, caller: A, claim: C)
    requires
        owner_in(claims, claim) is None,
    ensures
        revoke_outcome(claims, caller, claim) == Err::<(), DispatchError>(
            DispatchError::ClaimNotFound,
        ),
        revoke_claims(claims, caller, claim) == claims,
{
}

/// Creating or revoking a claim on one piece of content leaves the owner of
/// every other piece as it was.
pub proof fn lemma_other_claims_stay<C, A>(claims: Map<C, A>, caller: A, claim: C, other: C)
    requires
        other != claim,
    ensures
        owner_in(create_claims(claims, caller, claim), other) == owner_in(claims, other),
        owner_in(revoke_claims(claims, caller, claim), other) == owner_in(claims, other),
{
}

/// The registry of claims.
#[derive(Debug)]
pub struct Pallet<T: Config> {
    claims: BTreeMap<T::Content, T::AccountId>,
}

/// What can be called on the claim registry.
pub enum Call<T: Config> {
    /// Register the content to the caller.
    CreateClaim { claim: T::Content },
    /// Remove the content's registration, which must be the caller's.
    RevokeClaim { claim: T::Content },
}

impl<T: Config> Pallet<T> {
    /// The claims that are registered: each content with its owner.
    pub closed spec fn claims(&self) -> Map<T::Content, T::AccountId> {
        self.claims@
    }

    /// The owner of a claim, `None` for content that nobody has claimed.
    pub open spec fn claim_owner(&self, claim: T::Content) -> Option<T::AccountId> {
        owner_in(self.claims(), claim)
    }

    /// A registry without claims.
    pub fn new() -> (r: Self)
        ensures
            r.claims() == Map::<T::Content, T::AccountId>::empty(),
            forall|claim: T::Content| r.claim_owner(claim) is None,
    {
        Self { claims: BTreeMap::new() }
    }

    /// The owner of `claim`, `None` for content that nobody has claimed.
    pub fn get_claim(&self, claim: &T::Content) -> (r: Option<&T::AccountId>)
        ensures
            match r {
                Some(owner) => self.claim_owner(*claim) == Some(*owner),
                None => self.claim_owner(*claim) is None,
            },
    {
        proof {
            T::lemma_content_laws();
        }
        self.claims.get(claim)
    }

    /// Registers `claim` to `caller`, or fails with `ClaimExists` and changes
    /// nothing when the content is already claimed.
    pub fn create_claim(&mut self, caller: T::AccountId, claim: T::Content) -> (r: DispatchResult)
        ensures
            r == create_outcome(old(self).claims(), claim),
            final(self).claims() == create_claims(old(self).claims(), caller, claim),
    {
        proof {
            T::lemma_content_laws();
        }
        match self.get_claim(&claim) {
            Some(_) => Err(DispatchError::ClaimExists),
            None => {
                self.claims.insert(claim, caller);
                Ok(())
            },
        }
    }

    /// Removes the registration of `claim`, or fails and changes nothing:
    /// with `ClaimNotFound` when nobody has claimed the content, with
    /// `NotClaimOwner` when its owner is not `caller`.
    pub fn revoke_claim(&mut self, caller: T::AccountId, claim: T::Content) -> (r: DispatchResult)
        ensures
            r == revoke_outcome(old(self).claims(), caller, claim),
            final(self).claims() == revoke_claims(old(self).claims(), caller, claim),
    {
        proof {
            T::lemma_content_laws();
            T::lemma_account_id_laws();
            reveal(vstd::laws_eq::obeys_concrete_eq);
        }
        let claim_owner = match self.get_claim(&claim) {
            Some(owner) => owner,
            None => {
                return Err(DispatchError::ClaimNotFound);
            },
        };

        if claim_owner != &caller {
            return Err(DispatchError::NotClaimOwner);
        }
        self.claims.remove(&claim);
        Ok(())
    }
}

/// What a registry call made by `caller` ends in.
pub open spec fn dispatch_outcome<T: Config>(
    claims: Map<T::Content, T::AccountId>,
    caller: T::AccountId,
    call: Call<T>,
) -> DispatchResult {
    match call {
        Call::CreateClaim { claim } => create_outcome(claims, claim),
        Call::RevokeClaim { claim } => revoke_outcome(claims, caller, claim),
    }
}

/// The registry after a registry call made by `caller`.
pub open spec fn dispatch_claims<T: Config>(
    claims: Map<T::Content, T::AccountId>,
    caller: T::AccountId,
    call: Call<T>,
) -> Map<T::Content, T::AccountId> {
    match call {
        Call::CreateClaim { claim } => create_claims(claims, caller, claim),
        Call::RevokeClaim { claim } => revoke_claims(claims, caller, claim),
    }
}

impl<T: Config> Dispatch for Pallet<T> {
    type Caller = T::AccountId;

    type Call = Call<T>;

    /// Carries out a registry call: creating or revoking a claim.
    fn dispatch(&mut self, caller: Self::Caller, call: Self::Call) -> (r: DispatchResult)
        ensures
            r == dispatch_outcome(old(self).claims(), caller, call),
            final(self).claims() == dispatch_claims(old(self).claims(), caller, call),
    {
        match call {
            Call::CreateClaim { claim } => self.create_claim(caller, claim),
            Call::RevokeClaim { claim } => self.revoke_claim(caller, claim),
        }
    }
}

} // verus!
