use ledger_runtime::balances;
use ledger_runtime::proof_of_existence;
use ledger_runtime::runtime::{Block, Extrinsic, Runtime, RuntimeCall};
use ledger_runtime::support;
use ledger_runtime::support::{BlockError, DispatchError};
use ledger_runtime::system;

struct SmallTypes;

impl system::Config for SmallTypes {
    type AccountId = &'static str;
    type BlockNumber = u8;
    type Nonce = u8;

    fn lemma_account_id_laws() {}
}

impl balances::Config for SmallTypes {
    type Balance = u8;
}

impl proof_of_existence::Config for SmallTypes {
    type Content = u16;

    fn lemma_content_laws() {}
}

fn transfer(caller: &'static str, to: &'static str, amount: u8) -> Extrinsic<SmallTypes> {
    support::Extrinsic {
        caller,
        call: RuntimeCall::Balances(balances::Call::Transfer { to, amount }),
    }
}

fn block(block_number: u8, extrinsics: Vec<Extrinsic<SmallTypes>>) -> Block<SmallTypes> {
    support::Block { header: support::Header { block_number }, extrinsics }
}

#[test]
fn small_balances_overflow() {
    let mut ledger: balances::Pallet<SmallTypes> = balances::Pallet::new();
    ledger.set_balance(&"alice", 200);
    ledger.set_balance(&"bob", 100);
    assert_eq!(ledger.transfer("alice", "bob", 156), Err(DispatchError::BalanceOverflow));
    assert_eq!(ledger.transfer("alice", "bob", 155), Ok(()));
    assert_eq!(ledger.balance(&"alice"), 45);
    assert_eq!(ledger.balance(&"bob"), 255);
}

#[test]
fn nonce_can_reach_the_limit() {
    let mut counters: system::Pallet<SmallTypes> = system::Pallet::new();
    for _ in 0..255 {
        counters.inc_nonce(&"alice");
    }
    assert_eq!(counters.get_nonce(&"alice"), 255);
    assert_eq!(counters.get_nonce(&"bob"), 0);
}

#[test]
fn block_number_can_reach_the_limit() {
    let mut counters: system::Pallet<SmallTypes> = system::Pallet::new();
    for _ in 0..255 {
        counters.inc_block_number();
    }
    assert_eq!(counters.block_number(), 255);
}

#[test]
fn ordinary_blocks_can_be_executed() {
    let mut runtime: Runtime<SmallTypes> = Runtime::new();
    let first = block(1, vec![transfer("alice", "bob", 1), transfer("alice", "bob", 2)]);
    assert!(runtime.can_execute_block(&first));
    assert_eq!(
        runtime.execute_block(first),
        Ok(vec![
            Err(DispatchError::InsufficientBalance),
            Err(DispatchError::InsufficientBalance),
        ])
    );
    assert!(runtime.can_execute_block(&block(2, vec![])));
    assert!(runtime.can_execute_block(&block(7, vec![transfer("alice", "bob", 1)])));
}

#[test]
fn block_cannot_be_executed_when_the_block_counter_is_at_its_limit() {
    let mut runtime: Runtime<SmallTypes> = Runtime::new();
    for number in 1..=255u8 {
        let next = block(number, vec![]);
        assert!(runtime.can_execute_block(&next));
        assert_eq!(runtime.execute_block(next), Ok(vec![]));
    }
    assert_eq!(runtime.system.block_number(), 255);
    assert!(!runtime.can_execute_block(&block(0, vec![])));
    assert!(!runtime.can_execute_block(&block(255, vec![])));
}

#[test]
fn block_cannot_be_executed_when_a_nonce_would_run_over() {
    let mut runtime: Runtime<SmallTypes> = Runtime::new();
    for _ in 0..253 {
        runtime.system.inc_nonce(&"alice");
    }
    assert_eq!(runtime.system.get_nonce(&"alice"), 253);

    let three = vec![
        transfer("alice", "bob", 1),
        transfer("bob", "alice", 1),
        transfer("alice", "bob", 1),
        transfer("alice", "bob", 1),
    ];
    assert!(!runtime.can_execute_block(&block(1, three)));

    let out_of_sequence = vec![
        transfer("alice", "bob", 1),
        transfer("alice", "bob", 1),
        transfer("alice", "bob", 1),
    ];
    assert!(runtime.can_execute_block(&block(2, out_of_sequence)));

    let two = block(
        1,
        vec![
            transfer("alice", "bob", 1),
            transfer("bob", "alice", 1),
            transfer("alice", "bob", 1),
        ],
    );
    assert!(runtime.can_execute_block(&two));
    assert_eq!(
        runtime.execute_block(two),
        Ok(vec![
            Err(DispatchError::InsufficientBalance),
            Err(DispatchError::InsufficientBalance),
            Err(DispatchError::InsufficientBalance),
        ])
    );
    assert_eq!(runtime.system.get_nonce(&"alice"), 255);
    assert_eq!(runtime.system.get_nonce(&"bob"), 1);

    assert!(!runtime.can_execute_block(&block(2, vec![transfer("alice", "bob", 1)])));
    assert!(runtime.can_execute_block(&block(2, vec![transfer("bob", "alice", 1)])));
}

#[test]
fn rejected_block_at_small_types() {
    let mut runtime: Runtime<SmallTypes> = Runtime::new();
    runtime.balances.set_balance(&"alice", 9);
    let wrong = block(3, vec![transfer("alice", "bob", 9)]);
    assert!(runtime.can_execute_block(&wrong));
    assert_eq!(runtime.execute_block(wrong), Err(BlockError::BlockNumberMismatch));
    assert_eq!(runtime.balances.balance(&"alice"), 9);
    assert_eq!(runtime.system.get_nonce(&"alice"), 0);
    assert_eq!(runtime.system.block_number(), 1);
}
