use anchor_lang::prelude::Pubkey;
use std::str::FromStr;
use token_escrow::address::derive_authority;
use token_escrow::{program_id, EscrowKeys, Identity};

fn party(byte: u8) -> Identity {
    Identity::new([byte; 32])
}

fn program() -> Pubkey {
    Pubkey::from_str("9JTUfhRAejqktmCAfdyEToCkHBTyRn2PHWCaBjMWwe3z").unwrap()
}

#[test]
fn program_id_is_the_declared_one() {
    assert_eq!(program_id().bytes, program().to_bytes());
}

#[test]
fn escrow_address_is_the_one_the_ledger_derives() {
    let buyer = party(1);
    let seller = party(2);
    let keys = EscrowKeys::derive(&buyer, &seller).unwrap();
    let (address, bump) =
        Pubkey::find_program_address(&[b"escrow", &buyer.bytes, &seller.bytes], &program());
    assert_eq!(keys.escrow().bytes, address.to_bytes());
    assert_eq!(keys.bump(), bump);
    assert_ne!(keys.escrow(), buyer);
    assert_ne!(keys.escrow(), seller);
}

#[test]
fn vault_address_is_derived_from_the_escrow_address() {
    let keys = EscrowKeys::derive(&party(1), &party(2)).unwrap();
    let (vault, _) =
        Pubkey::find_program_address(&[b"vault", &keys.escrow().bytes], &program());
    assert_eq!(keys.vault().bytes, vault.to_bytes());
    assert_ne!(keys.vault(), keys.escrow());
}

#[test]
fn keys_name_the_parties_they_were_derived_for() {
    let keys = EscrowKeys::derive(&party(7), &party(9)).unwrap();
    assert_eq!(keys.buyer(), party(7));
    assert_eq!(keys.seller(), party(9));
}

#[test]
fn derivation_is_deterministic() {
    let first = EscrowKeys::derive(&party(3), &party(4)).unwrap();
    let second = EscrowKeys::derive(&party(3), &party(4)).unwrap();
    assert_eq!(first.escrow(), second.escrow());
    assert_eq!(first.bump(), second.bump());
    assert_eq!(first.vault(), second.vault());
}

#[test]
fn different_pairs_have_different_addresses() {
    let one = EscrowKeys::derive(&party(1), &party(2)).unwrap();
    let swapped = EscrowKeys::derive(&party(2), &party(1)).unwrap();
    let other = EscrowKeys::derive(&party(1), &party(3)).unwrap();
    assert_ne!(one.escrow(), swapped.escrow());
    assert_ne!(one.escrow(), other.escrow());
    assert_ne!(one.vault(), other.vault());
}

#[test]
fn stored_bump_recomputes_the_escrow_address() {
    let buyer = party(1);
    let seller = party(2);
    let keys = EscrowKeys::derive(&buyer, &seller).unwrap();
    assert_eq!(derive_authority(&buyer, &seller, keys.bump()), Some(keys.escrow()));
}

#[test]
fn authority_is_the_address_created_from_seeds_and_bump() {
    let buyer = party(5);
    let seller = party(6);
    for bump in [0u8, 1, 17, 128, 254, 255] {
        let expected = Pubkey::create_program_address(
            &[b"escrow", &buyer.bytes, &seller.bytes, &[bump]],
            &program(),
        )
        .ok()
        .map(|address| Identity::new(address.to_bytes()));
        assert_eq!(derive_authority(&buyer, &seller, bump), expected);
    }
}

#[test]
fn another_bump_gives_another_authority() {
    let buyer = party(1);
    let seller = party(2);
    let keys = EscrowKeys::derive(&buyer, &seller).unwrap();
    let forged = keys.bump().wrapping_sub(1);
    assert_ne!(derive_authority(&buyer, &seller, forged), Some(keys.escrow()));
}

#[test]
fn identities_compare_by_their_bytes() {
    let mut bytes = [9u8; 32];
    let one = Identity::new(bytes);
    assert!(one.same(&Identity::new([9u8; 32])));
    bytes[31] = 8;
    assert!(!one.same(&Identity::new(bytes)));
    bytes[31] = 9;
    bytes[0] = 0;
    assert!(!one.same(&Identity::new(bytes)));
    assert_eq!(one.to_vec(), vec![9u8; 32]);
}
