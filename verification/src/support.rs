//! What the state modules and the executor share: the failures a call can
//! end in, the dispatch contract, and the shape of a block.

use vstd::prelude::*;

verus! {

/// Why a dispatched call failed. Such a failure is scoped to one extrinsic.
#[derive(Debug, Clone, Copy, PartialEq, Eq, Structural)]
pub enum DispatchError {
    /// The caller's balance is smaller than the amount to transfer.
    InsufficientBalance,
    /// The recipient's balance cannot hold the amount on top of what it has.
    BalanceOverflow,
    /// The claim is already registered.
    ClaimExists,
    /// The claim is not registered.
    ClaimNotFound,
    /// The claim is registered to an account other than the caller.
    NotClaimOwner,
}

/// Why a block was rejected as a whole.
#[derive(Debug, Clone, Copy, PartialEq, Eq, Structural)]
pub enum BlockError {
    /// The header does not declare the number that the block counter has
    /// after it was advanced for this block.
    BlockNumberMismatch,
}

/// What a dispatched call ends in.
pub type DispatchResult = Result<(), DispatchError>;

impl DispatchError {
    /// The text that describes the failure.
    pub open spec fn message_text(&self) -> Seq<char> {
        match self {
            DispatchError::InsufficientBalance => "insufficient Balance"@,
            DispatchError::BalanceOverflow => "Overflow when adding to balance"@,
            DispatchError::ClaimExists => "Claim already exists"@,
            DispatchError::ClaimNotFound => "claim does not exists"@,
            DispatchError::NotClaimOwner => "Caller is not the owner of the claim"@,
        }
    }

    /// The text that describes the failure.
    pub fn message(&self) -> (r: &'static str)
        ensures
            r@ == self.message_text(),
    {
        match self {
            DispatchError::InsufficientBalance => "insufficient Balance",
            DispatchError::BalanceOverflow => "Overflow when adding to balance",
            DispatchError::ClaimExists => "Claim already exists",
            DispatchError::ClaimNotFound => "claim does not exists",
            DispatchError::NotClaimOwner => "Caller is not the owner of the claim",
        }
    }
}

impl BlockError {
    /// The text that describes the failure.
    pub open spec fn message_text(&self) -> Seq<char> {
        match self {
            BlockError::BlockNumberMismatch => "Block number mismatch"@,
        }
    }

    /// The text that describes the failure.
    pub fn message(&self) -> (r: &'static str)
        ensures
            r@ == self.message_text(),
    {
        match self {
            BlockError::BlockNumberMismatch => "Block number mismatch",
        }
    }
}

/// The dispatch contract: given who calls and what is called, carry the call
/// out on the state that `self` owns, and report success or a named failure.
pub trait Dispatch {
    /// Who can make a call.
    type Caller;

    /// What can be called.
    type Call;

    /// Carries out `call` on behalf of `caller`.
    fn dispatch(&mut self, caller: Self::Caller, call: Self::Call) -> (r: DispatchResult);
}

/// The head of a block: the number it declares.
pub struct Header<BlockNumber> {
    pub block_number: BlockNumber,
}

/// One unit of block content: who calls, and what.
pub struct Extrinsic<Caller, Call> {
    pub caller: Caller,
    pub call: Call,
}

/// A header and the extrinsics to apply, in order.
pub struct Block<Header, Extrinsic> {
    pub header: Header,
    pub extrinsics: Vec<Extrinsic>,
}

} // verus!
