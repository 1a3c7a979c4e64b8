use ledger_runtime::support::{BlockError, DispatchError};

#[test]
fn dispatch_errors_have_their_messages() {
    assert_eq!(DispatchError::InsufficientBalance.message(), "insufficient Balance");
    assert_eq!(DispatchError::BalanceOverflow.message(), "Overflow when adding to balance");
    assert_eq!(DispatchError::ClaimExists.message(), "Claim already exists");
    assert_eq!(DispatchError::ClaimNotFound.message(), "claim does not exists");
    assert_eq!(
        DispatchError::NotClaimOwner.message(),
        "Caller is not the owner of the claim"
    );
}

#[test]
fn block_error_has_its_message() {
    assert_eq!(BlockError::BlockNumberMismatch.message(), "Block number mismatch");
}
