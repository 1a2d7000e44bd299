use token_escrow::{EscrowError, EscrowKeys, Identity, Ledger};

fn id(byte: u8) -> Identity {
    Identity::new([byte; 32])
}

const BUYER: u8 = 1;
const SELLER: u8 = 2;
const BUYER_TOKENS: u8 = 10;
const SELLER_TOKENS: u8 = 20;
const MINT: u8 = 200;

fn keys() -> EscrowKeys {
    EscrowKeys::derive(&id(BUYER), &id(SELLER)).unwrap()
}

fn funded() -> Ledger {
    let mut ledger = Ledger::new();
    assert!(ledger.deposit(&id(BUYER_TOKENS), &id(BUYER), &id(MINT), 1_000));
    assert!(ledger.deposit(&id(SELLER_TOKENS), &id(SELLER), &id(MINT), 7));
    ledger
}

fn with_widget() -> (Ledger, Identity) {
    let mut ledger = funded();
    let escrow = ledger
        .create(&keys(), &id(MINT), &id(BUYER_TOKENS), 100, String::from("Widget"))
        .unwrap();
    (ledger, escrow)
}

#[test]
fn new_ledger_is_empty() {
    let ledger = Ledger::new();
    assert_eq!(ledger.supply(), 0);
    assert_eq!(ledger.balance(&id(BUYER_TOKENS)), None);
    assert_eq!(ledger.vault_balance(&keys().escrow()), None);
    assert_eq!(ledger.record(&keys().escrow()).err(), Some(EscrowError::NotFound));
}

#[test]
fn deposit_opens_and_credits_accounts() {
    let mut ledger = Ledger::new();
    assert!(ledger.deposit(&id(10), &id(1), &id(MINT), 40));
    assert!(ledger.deposit(&id(10), &id(1), &id(MINT), 2));
    assert_eq!(ledger.balance(&id(10)), Some(42));
    assert_eq!(ledger.supply(), 42);
}

#[test]
fn deposit_refuses_the_account_of_someone_else() {
    let mut ledger = Ledger::new();
    assert!(ledger.deposit(&id(10), &id(1), &id(MINT), 40));
    assert!(!ledger.deposit(&id(10), &id(2), &id(MINT), 1));
    assert_eq!(ledger.balance(&id(10)), Some(40));
    assert_eq!(ledger.supply(), 40);
}

#[test]
fn deposit_keeps_the_supply_in_range() {
    let mut ledger = Ledger::new();
    assert!(ledger.deposit(&id(10), &id(1), &id(MINT), u64::MAX - 1));
    assert!(!ledger.deposit(&id(11), &id(2), &id(MINT), 2));
    assert!(ledger.deposit(&id(11), &id(2), &id(MINT), 1));
    assert!(!ledger.deposit(&id(10), &id(1), &id(MINT), 1));
    assert_eq!(ledger.supply(), u64::MAX);
    assert_eq!(ledger.balance(&id(10)), Some(u64::MAX - 1));
    assert_eq!(ledger.balance(&id(11)), Some(1));
}

#[test]
fn create_locks_the_amount_in_the_vault() {
    let (ledger, escrow) = with_widget();
    assert_eq!(escrow, keys().escrow());
    let record = ledger.record(&escrow).unwrap();
    assert_eq!(record.buyer, id(BUYER));
    assert_eq!(record.seller, id(SELLER));
    assert_eq!(record.amount, 100);
    assert_eq!(record.item_name, "Widget");
    assert!(!record.is_completed);
    assert_eq!(record.bump, keys().bump());
    assert_eq!(ledger.vault_balance(&escrow), Some(100));
    assert_eq!(ledger.balance(&id(BUYER_TOKENS)), Some(900));
    assert_eq!(ledger.supply(), 1_007);
}

#[test]
fn complete_pays_the_seller_and_settles() {
    let (mut ledger, escrow) = with_widget();
    assert_eq!(ledger.complete(&escrow, &id(SELLER), &id(SELLER_TOKENS)), Ok(()));
    assert_eq!(ledger.vault_balance(&escrow), Some(0));
    assert_eq!(ledger.balance(&id(SELLER_TOKENS)), Some(107));
    assert_eq!(ledger.balance(&id(BUYER_TOKENS)), Some(900));
    assert!(ledger.record(&escrow).unwrap().is_completed);
    assert_eq!(ledger.supply(), 1_007);
}

#[test]
fn cancel_signed_by_the_seller_is_refused() {
    let (mut ledger, escrow) = with_widget();
    assert_eq!(
        ledger.cancel(&escrow, &id(SELLER), &id(SELLER_TOKENS)),
        Err(EscrowError::UnauthorizedCancel)
    );
    assert!(!ledger.record(&escrow).unwrap().is_completed);
    assert_eq!(ledger.vault_balance(&escrow), Some(100));
    assert_eq!(ledger.balance(&id(SELLER_TOKENS)), Some(7));
    assert_eq!(ledger.balance(&id(BUYER_TOKENS)), Some(900));
}

#[test]
fn complete_again_is_refused() {
    let (mut ledger, escrow) = with_widget();
    ledger.complete(&escrow, &id(SELLER), &id(SELLER_TOKENS)).unwrap();
    assert_eq!(
        ledger.complete(&escrow, &id(SELLER), &id(SELLER_TOKENS)),
        Err(EscrowError::AlreadyCompleted)
    );
    assert_eq!(ledger.balance(&id(SELLER_TOKENS)), Some(107));
    assert_eq!(ledger.vault_balance(&escrow), Some(0));
}

#[test]
fn create_again_for_the_pair_is_refused() {
    let (mut ledger, escrow) = with_widget();
    assert_eq!(
        ledger.create(&keys(), &id(MINT), &id(BUYER_TOKENS), 50, String::from("Item")),
        Err(EscrowError::AlreadyExists)
    );
    let record = ledger.record(&escrow).unwrap();
    assert_eq!(record.amount, 100);
    assert_eq!(record.item_name, "Widget");
    assert_eq!(ledger.vault_balance(&escrow), Some(100));
    assert_eq!(ledger.balance(&id(BUYER_TOKENS)), Some(900));
}

#[test]
fn create_again_is_refused_after_settlement_too() {
    let (mut ledger, escrow) = with_widget();
    ledger.cancel(&escrow, &id(BUYER), &id(BUYER_TOKENS)).unwrap();
    assert_eq!(
        ledger.create(&keys(), &id(MINT), &id(BUYER_TOKENS), 50, String::from("Item")),
        Err(EscrowError::AlreadyExists)
    );
    assert_eq!(ledger.balance(&id(BUYER_TOKENS)), Some(1_000));
}

#[test]
fn cancel_refunds_the_buyer_and_settles() {
    let (mut ledger, escrow) = with_widget();
    assert_eq!(ledger.cancel(&escrow, &id(BUYER), &id(BUYER_TOKENS)), Ok(()));
    assert_eq!(ledger.vault_balance(&escrow), Some(0));
    assert_eq!(ledger.balance(&id(BUYER_TOKENS)), Some(1_000));
    assert_eq!(ledger.balance(&id(SELLER_TOKENS)), Some(7));
    assert!(ledger.record(&escrow).unwrap().is_completed);
    assert_eq!(ledger.supply(), 1_007);
}

#[test]
fn settled_escrow_refuses_completion_and_cancellation() {
    let (mut ledger, escrow) = with_widget();
    ledger.cancel(&escrow, &id(BUYER), &id(BUYER_TOKENS)).unwrap();
    assert_eq!(
        ledger.complete(&escrow, &id(SELLER), &id(SELLER_TOKENS)),
        Err(EscrowError::AlreadyCompleted)
    );
    assert_eq!(
        ledger.cancel(&escrow, &id(BUYER), &id(BUYER_TOKENS)),
        Err(EscrowError::AlreadyCompleted)
    );
    assert_eq!(
        ledger.cancel(&escrow, &id(SELLER), &id(99)),
        Err(EscrowError::AlreadyCompleted)
    );
    assert_eq!(ledger.balance(&id(BUYER_TOKENS)), Some(1_000));
    assert_eq!(ledger.balance(&id(SELLER_TOKENS)), Some(7));
}

#[test]
fn create_needs_the_funding_account() {
    let mut ledger = funded();
    assert_eq!(
        ledger.create(&keys(), &id(MINT), &id(11), 100, String::from("Widget")),
        Err(EscrowError::NotFound)
    );
    assert_eq!(ledger.record(&keys().escrow()).err(), Some(EscrowError::NotFound));
    assert_eq!(ledger.vault_balance(&keys().escrow()), None);
}

#[test]
fn create_needs_the_buyers_own_account() {
    let mut ledger = funded();
    assert_eq!(
        ledger.create(&keys(), &id(MINT), &id(SELLER_TOKENS), 5, String::from("Widget")),
        Err(EscrowError::AuthorityMismatch)
    );
    assert_eq!(ledger.balance(&id(SELLER_TOKENS)), Some(7));
    assert_eq!(ledger.vault_balance(&keys().escrow()), None);
}

#[test]
fn create_needs_enough_funds() {
    let mut ledger = funded();
    assert_eq!(
        ledger.create(&keys(), &id(MINT), &id(BUYER_TOKENS), 1_001, String::from("Widget")),
        Err(EscrowError::InsufficientFunds)
    );
    assert_eq!(ledger.balance(&id(BUYER_TOKENS)), Some(1_000));
    assert_eq!(ledger.record(&keys().escrow()).err(), Some(EscrowError::NotFound));
    assert_eq!(ledger.vault_balance(&keys().escrow()), None);
    assert_eq!(
        ledger.create(&keys(), &id(MINT), &id(BUYER_TOKENS), 1_000, String::from("Widget")),
        Ok(keys().escrow())
    );
    assert_eq!(ledger.balance(&id(BUYER_TOKENS)), Some(0));
    assert_eq!(ledger.vault_balance(&keys().escrow()), Some(1_000));
}

#[test]
fn settlement_needs_a_record() {
    let mut ledger = funded();
    assert_eq!(
        ledger.complete(&keys().escrow(), &id(SELLER), &id(SELLER_TOKENS)),
        Err(EscrowError::NotFound)
    );
    assert_eq!(
        ledger.cancel(&keys().escrow(), &id(BUYER), &id(BUYER_TOKENS)),
        Err(EscrowError::NotFound)
    );
}

#[test]
fn settlement_needs_a_destination_of_the_signer() {
    let (mut ledger, escrow) = with_widget();
    assert_eq!(
        ledger.complete(&escrow, &id(SELLER), &id(21)),
        Err(EscrowError::NotFound)
    );
    assert_eq!(
        ledger.complete(&escrow, &id(SELLER), &id(BUYER_TOKENS)),
        Err(EscrowError::AuthorityMismatch)
    );
    assert_eq!(
        ledger.cancel(&escrow, &id(BUYER), &id(SELLER_TOKENS)),
        Err(EscrowError::AuthorityMismatch)
    );
    assert!(!ledger.record(&escrow).unwrap().is_completed);
    assert_eq!(ledger.vault_balance(&escrow), Some(100));
    assert_eq!(ledger.balance(&id(BUYER_TOKENS)), Some(900));
    assert_eq!(ledger.balance(&id(SELLER_TOKENS)), Some(7));
}

#[test]
fn escrows_of_different_pairs_do_not_touch() {
    let (mut ledger, first) = with_widget();
    assert!(ledger.deposit(&id(30), &id(3), &id(MINT), 500));
    let other_keys = EscrowKeys::derive(&id(3), &id(SELLER)).unwrap();
    let second = ledger.create(&other_keys, &id(MINT), &id(30), 200, String::from("Gadget")).unwrap();
    assert_ne!(first, second);
    assert_eq!(ledger.vault_balance(&first), Some(100));
    assert_eq!(ledger.vault_balance(&second), Some(200));
    ledger.complete(&second, &id(SELLER), &id(SELLER_TOKENS)).unwrap();
    assert_eq!(ledger.vault_balance(&first), Some(100));
    assert_eq!(ledger.vault_balance(&second), Some(0));
    assert!(!ledger.record(&first).unwrap().is_completed);
    assert!(ledger.record(&second).unwrap().is_completed);
    assert_eq!(ledger.balance(&id(SELLER_TOKENS)), Some(207));
    ledger.cancel(&first, &id(BUYER), &id(BUYER_TOKENS)).unwrap();
    assert_eq!(ledger.balance(&id(BUYER_TOKENS)), Some(1_000));
    assert_eq!(ledger.balance(&id(30)), Some(300));
    assert_eq!(ledger.supply(), 1_507);
}

#[test]
fn tokens_are_conserved_through_an_escrow() {
    let (mut ledger, escrow) = with_widget();
    let total = |ledger: &Ledger| {
        ledger.balance(&id(BUYER_TOKENS)).unwrap()
            + ledger.balance(&id(SELLER_TOKENS)).unwrap()
            + ledger.vault_balance(&escrow).unwrap()
    };
    assert_eq!(total(&ledger), 1_007);
    ledger.complete(&escrow, &id(SELLER), &id(SELLER_TOKENS)).unwrap();
    assert_eq!(total(&ledger), 1_007);
    assert_eq!(ledger.supply(), 1_007);
}

#[test]
fn complete_signed_by_a_third_party_pays_nobody() {
    let (mut ledger, escrow) = with_widget();
    assert!(ledger.deposit(&id(30), &id(3), &id(MINT), 0));
    assert_eq!(
        ledger.complete(&escrow, &id(3), &id(30)),
        Err(EscrowError::AuthorityMismatch)
    );
    assert_eq!(
        ledger.complete(&escrow, &id(3), &id(SELLER_TOKENS)),
        Err(EscrowError::AuthorityMismatch)
    );
    assert_eq!(
        ledger.complete(&escrow, &id(BUYER), &id(BUYER_TOKENS)),
        Err(EscrowError::AuthorityMismatch)
    );
    assert!(!ledger.record(&escrow).unwrap().is_completed);
    assert_eq!(ledger.vault_balance(&escrow), Some(100));
    assert_eq!(ledger.balance(&id(30)), Some(0));
    assert_eq!(ledger.balance(&id(BUYER_TOKENS)), Some(900));
    assert_eq!(ledger.balance(&id(SELLER_TOKENS)), Some(7));
    assert_eq!(ledger.complete(&escrow, &id(SELLER), &id(SELLER_TOKENS)), Ok(()));
    assert_eq!(ledger.balance(&id(SELLER_TOKENS)), Some(107));
}

#[test]
fn create_with_a_zero_amount_stores_nothing() {
    let mut ledger = funded();
    assert_eq!(
        ledger.create(&keys(), &id(MINT), &id(BUYER_TOKENS), 0, String::from("Widget")),
        Err(EscrowError::InvalidTerms)
    );
    assert_eq!(ledger.record(&keys().escrow()).err(), Some(EscrowError::NotFound));
    assert_eq!(ledger.vault_balance(&keys().escrow()), None);
    assert_eq!(ledger.balance(&id(BUYER_TOKENS)), Some(1_000));
    assert_eq!(ledger.supply(), 1_007);
}

#[test]
fn create_with_a_name_over_fifty_bytes_stores_nothing() {
    let mut ledger = funded();
    assert_eq!(
        ledger.create(&keys(), &id(MINT), &id(BUYER_TOKENS), 100, "x".repeat(51)),
        Err(EscrowError::InvalidTerms)
    );
    assert_eq!(
        ledger.create(&keys(), &id(MINT), &id(BUYER_TOKENS), 100, "é".repeat(26)),
        Err(EscrowError::InvalidTerms)
    );
    assert_eq!(ledger.record(&keys().escrow()).err(), Some(EscrowError::NotFound));
    assert_eq!(ledger.balance(&id(BUYER_TOKENS)), Some(1_000));
    assert_eq!(
        ledger.create(&keys(), &id(MINT), &id(BUYER_TOKENS), 100, "x".repeat(50)),
        Ok(keys().escrow())
    );
    assert_eq!(ledger.record(&keys().escrow()).unwrap().item_name, "x".repeat(50));
    assert_eq!(ledger.balance(&id(BUYER_TOKENS)), Some(900));
}

#[test]
fn create_again_is_refused_whatever_the_terms() {
    let (mut ledger, escrow) = with_widget();
    assert_eq!(
        ledger.create(&keys(), &id(MINT), &id(BUYER_TOKENS), 0, "x".repeat(51)),
        Err(EscrowError::AlreadyExists)
    );
    assert_eq!(
        ledger.create(&keys(), &id(201), &id(99), 5_000, String::from("Item")),
        Err(EscrowError::AlreadyExists)
    );
    assert_eq!(ledger.record(&escrow).unwrap().amount, 100);
    assert_eq!(ledger.vault_balance(&escrow), Some(100));
    assert_eq!(ledger.balance(&id(BUYER_TOKENS)), Some(900));
}

#[test]
fn create_reports_the_terms_before_the_funding_account() {
    let mut ledger = funded();
    assert_eq!(
        ledger.create(&keys(), &id(MINT), &id(99), 0, String::from("Widget")),
        Err(EscrowError::InvalidTerms)
    );
}

#[test]
fn create_needs_funds_of_the_mint() {
    let mut ledger = funded();
    assert_eq!(
        ledger.create(&keys(), &id(201), &id(BUYER_TOKENS), 100, String::from("Widget")),
        Err(EscrowError::MintMismatch)
    );
    assert_eq!(ledger.balance(&id(BUYER_TOKENS)), Some(1_000));
    assert_eq!(ledger.vault_balance(&keys().escrow()), None);
}

#[test]
fn settlement_needs_a_destination_of_the_mint() {
    let (mut ledger, escrow) = with_widget();
    assert!(ledger.deposit(&id(21), &id(SELLER), &id(201), 3));
    assert!(ledger.deposit(&id(11), &id(BUYER), &id(201), 4));
    assert_eq!(
        ledger.complete(&escrow, &id(SELLER), &id(21)),
        Err(EscrowError::MintMismatch)
    );
    assert_eq!(
        ledger.cancel(&escrow, &id(BUYER), &id(11)),
        Err(EscrowError::MintMismatch)
    );
    assert!(!ledger.record(&escrow).unwrap().is_completed);
    assert_eq!(ledger.vault_balance(&escrow), Some(100));
    assert_eq!(ledger.balance(&id(21)), Some(3));
    assert_eq!(ledger.balance(&id(11)), Some(4));
}

#[test]
fn deposit_refuses_tokens_of_another_mint() {
    let mut ledger = Ledger::new();
    assert!(ledger.deposit(&id(10), &id(1), &id(MINT), 40));
    assert!(!ledger.deposit(&id(10), &id(1), &id(201), 1));
    assert_eq!(ledger.balance(&id(10)), Some(40));
    assert_eq!(ledger.supply(), 40);
}
