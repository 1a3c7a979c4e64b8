//! A configuration of the runtime whose laws are proved: accounts and
//! contents are identified by numbers.

use crate::balances;
use crate::proof_of_existence;
use crate::system;
use vstd::prelude::*;

verus! {

broadcast use {vstd::laws_cmp::group_laws_cmp, vstd::laws_eq::group_laws_eq};

/// Accounts and contents identified by 64-bit numbers, 32-bit block numbers
/// and nonces, and 128-bit balances.
#[derive(Debug)]
pub struct IntegerTypes;

impl system::Config for IntegerTypes {
    type AccountId = u64;

    type BlockNumber = u32;

    type Nonce = u32;

    proof fn lemma_account_id_laws() {
    }
}

impl balances::Config for IntegerTypes {
    type Balance = u128;
}

impl proof_of_existence::Config for IntegerTypes {
    type Content = u64;

    proof fn lemma_content_laws() {
    }
}

} // verus!
