//! A minimal deterministic state-transition runtime: three state modules
//! (block and nonce counters, an account ledger, a claim registry), a uniform
//! dispatch contract, and a block executor that applies ordered batches of
//! extrinsics.
//!
//! Every state module has a mathematical view, and every operation states in
//! its contract how that view changes.

pub mod balances;
pub mod numeric;
pub mod proof_of_existence;
pub mod runtime;
pub mod support;
pub mod system;
pub mod types;
