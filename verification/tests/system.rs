use ledger_runtime::system::{Config, Pallet};

struct TestConfig;

impl Config for TestConfig {
    type AccountId = String;
    type BlockNumber = u32;
    type Nonce = u32;

    fn lemma_account_id_laws() {}
}

#[test]
fn init_system() {
    let system: Pallet<TestConfig> = Pallet::new();

    assert_eq!(system.block_number(), 0);
}

#[test]
fn inc_block_number() {
    let mut system: Pallet<TestConfig> = Pallet::new();
    system.inc_block_number();
    assert_eq!(system.block_number(), 1);
}

#[test]
fn inc_nonce() {
    let mut system: Pallet<TestConfig> = Pallet::new();
    system.inc_nonce(&String::from("alice"));
    assert_eq!(system.get_nonce(&String::from("alice")), 1);
}

#[test]
fn block_number_counts_every_advance() {
    let mut system: Pallet<TestConfig> = Pallet::new();
    system.inc_block_number();
    system.inc_block_number();
    system.inc_block_number();
    assert_eq!(system.block_number(), 3);
}

#[test]
fn block_number_after_many_advances() {
    let mut system: Pallet<TestConfig> = Pallet::new();
    for _ in 0..1000 {
        system.inc_block_number();
    }
    assert_eq!(system.block_number(), 1000);
}

#[test]
fn unknown_account_has_zero_nonce() {
    let mut system: Pallet<TestConfig> = Pallet::new();
    assert_eq!(system.get_nonce(&String::from("alice")), 0);
    system.inc_nonce(&String::from("alice"));
    assert_eq!(system.get_nonce(&String::from("bob")), 0);
}

#[test]
fn nonce_counts_per_account() {
    let mut system: Pallet<TestConfig> = Pallet::new();
    system.inc_nonce(&String::from("alice"));
    system.inc_nonce(&String::from("bob"));
    system.inc_nonce(&String::from("alice"));
    system.inc_nonce(&String::from("alice"));
    assert_eq!(system.get_nonce(&String::from("alice")), 3);
    assert_eq!(system.get_nonce(&String::from("bob")), 1);
    assert_eq!(system.get_nonce(&String::from("charlie")), 0);
}

#[test]
fn advancing_a_nonce_keeps_the_block_number() {
    let mut system: Pallet<TestConfig> = Pallet::new();
    system.inc_block_number();
    system.inc_nonce(&String::from("alice"));
    assert_eq!(system.block_number(), 1);
    system.inc_block_number();
    assert_eq!(system.get_nonce(&String::from("alice")), 1);
    assert_eq!(system.block_number(), 2);
}
