use token_escrow::record::{check_terms, MAX_ITEM_NAME, SPACE};
use token_escrow::{Escrow, EscrowError, Holdings, Identity, RecordStore, TokenAccount};

fn person(byte: u8) -> Identity {
    Identity::new([byte; 32])
}

fn widget(amount: u64) -> Escrow {
    Escrow::new(person(1), person(2), amount, String::from("Widget"), 254)
}

#[test]
fn new_record_is_open() {
    let record = widget(100);
    assert_eq!(record.buyer, person(1));
    assert_eq!(record.seller, person(2));
    assert_eq!(record.amount, 100);
    assert_eq!(record.item_name, "Widget");
    assert!(!record.is_completed);
    assert_eq!(record.bump, 254);
}

#[test]
fn duplicate_keeps_every_field() {
    let mut record = widget(7);
    record.is_completed = true;
    let copy = record.duplicate();
    assert_eq!(copy.buyer, record.buyer);
    assert_eq!(copy.seller, record.seller);
    assert_eq!(copy.amount, 7);
    assert_eq!(copy.item_name, "Widget");
    assert!(copy.is_completed);
    assert_eq!(copy.bump, 254);
}

#[test]
fn space_fits_the_longest_record() {
    assert_eq!(SPACE, 136);
    assert_eq!(MAX_ITEM_NAME, 50);
    assert_eq!(widget(1).stored_size(), 92);
    let longest = Escrow::new(person(1), person(2), 1, "x".repeat(50), 0);
    assert_eq!(longest.stored_size(), 136);
    let empty = Escrow::new(person(1), person(2), 1, String::new(), 0);
    assert_eq!(empty.stored_size(), 86);
}

#[test]
fn terms_need_a_positive_amount() {
    assert!(check_terms(1, &String::from("Widget")));
    assert!(check_terms(u64::MAX, &String::from("Widget")));
    assert!(!check_terms(0, &String::from("Widget")));
}

#[test]
fn terms_bound_the_name_by_its_bytes() {
    assert!(check_terms(1, &String::new()));
    assert!(check_terms(1, &"x".repeat(50)));
    assert!(!check_terms(1, &"x".repeat(51)));
    // Twenty-five two-byte characters take fifty bytes, twenty-six take more.
    assert!(check_terms(1, &"é".repeat(25)));
    assert!(!check_terms(1, &"é".repeat(26)));
}

#[test]
fn open_record_passes_the_check() {
    assert_eq!(widget(1).check_open(), Ok(()));
}

#[test]
fn settled_record_fails_the_check() {
    let mut record = widget(1);
    record.is_completed = true;
    assert_eq!(record.check_open(), Err(EscrowError::AlreadyCompleted));
}

#[test]
fn only_the_buyer_passes_the_cancel_check() {
    let record = widget(1);
    assert_eq!(record.check_cancel(&person(1)), Ok(()));
    assert_eq!(record.check_cancel(&person(2)), Err(EscrowError::UnauthorizedCancel));
    assert_eq!(record.check_cancel(&person(3)), Err(EscrowError::UnauthorizedCancel));
}

#[test]
fn only_the_seller_passes_the_complete_check() {
    let record = widget(1);
    assert_eq!(record.check_complete(&person(2)), Ok(()));
    assert_eq!(record.check_complete(&person(1)), Err(EscrowError::AuthorityMismatch));
    assert_eq!(record.check_complete(&person(3)), Err(EscrowError::AuthorityMismatch));
}

#[test]
fn settled_record_fails_the_complete_check_for_everyone() {
    let mut record = widget(1);
    record.is_completed = true;
    assert_eq!(record.check_complete(&person(2)), Err(EscrowError::AlreadyCompleted));
    assert_eq!(record.check_complete(&person(3)), Err(EscrowError::AlreadyCompleted));
}

#[test]
fn settled_record_fails_the_cancel_check_for_everyone() {
    let mut record = widget(1);
    record.is_completed = true;
    assert_eq!(record.check_cancel(&person(1)), Err(EscrowError::AlreadyCompleted));
    assert_eq!(record.check_cancel(&person(2)), Err(EscrowError::AlreadyCompleted));
}

#[test]
fn store_creates_once() {
    let mut store = RecordStore::new();
    assert!(!store.contains(&person(9)));
    assert_eq!(store.create(&person(9), widget(100)), Ok(()));
    assert!(store.contains(&person(9)));
    assert_eq!(store.create(&person(9), widget(50)), Err(EscrowError::AlreadyExists));
    assert_eq!(store.load(&person(9)).unwrap().amount, 100);
}

#[test]
fn store_loads_what_was_created() {
    let mut store = RecordStore::new();
    store.create(&person(9), widget(100)).unwrap();
    store.create(&person(8), widget(200)).unwrap();
    assert_eq!(store.load(&person(9)).unwrap().amount, 100);
    assert_eq!(store.load(&person(8)).unwrap().amount, 200);
    assert_eq!(store.load(&person(7)).err(), Some(EscrowError::NotFound));
}

#[test]
fn store_overwrites_in_place() {
    let mut store = RecordStore::new();
    store.create(&person(9), widget(100)).unwrap();
    store.create(&person(8), widget(200)).unwrap();
    let mut settled = store.load(&person(9)).unwrap();
    settled.is_completed = true;
    assert_eq!(store.store(&person(9), settled), Ok(()));
    assert!(store.load(&person(9)).unwrap().is_completed);
    assert!(!store.load(&person(8)).unwrap().is_completed);
    assert_eq!(store.load(&person(8)).unwrap().amount, 200);
}

#[test]
fn store_overwrites_nothing_that_is_missing() {
    let mut store = RecordStore::new();
    assert_eq!(store.store(&person(9), widget(100)), Err(EscrowError::NotFound));
    assert!(!store.contains(&person(9)));
}

#[test]
fn holdings_put_and_get() {
    let mut holdings = Holdings::new();
    assert!(holdings.get(&person(1)).is_none());
    let first = TokenAccount { key: person(1), mint: person(9), authority: person(5), balance: 10 };
    let second = TokenAccount { key: person(2), mint: person(9), authority: person(6), balance: 20 };
    holdings.put(&person(1), first);
    holdings.put(&person(2), second);
    assert_eq!(holdings.get(&person(1)).unwrap().balance, 10);
    assert_eq!(holdings.get(&person(2)).unwrap().balance, 20);
    assert_eq!(holdings.get(&person(2)).unwrap().authority, person(6));
    let third = TokenAccount { key: person(1), mint: person(9), authority: person(5), balance: 3 };
    holdings.put(&person(1), third);
    assert_eq!(holdings.get(&person(1)).unwrap().balance, 3);
    assert_eq!(holdings.get(&person(2)).unwrap().balance, 20);
    assert!(holdings.get(&person(3)).is_none());
}
