//! Derivation of the addresses of escrow records and of their vaults.
//!
//! An escrow record lives at an address derived from its buyer and seller, and
//! its vault at an address derived from the record's. Neither address has a
//! private key: the program signs for them by presenting the seeds and the
//! bump from which they were derived.

use crate::identity::Identity;
use anchor_lang::prelude::Pubkey;
use anchor_lang::solana_program::pubkey::PubkeyError;
use vstd::prelude::*;

verus! {

/// The error of `Pubkey::create_program_address`. Nothing is read from it.
#[verifier::external_type_specification]
#[verifier::external_body]
pub struct ExPubkeyError(PubkeyError);

/// The address and bump that `Pubkey::try_find_program_address` yields for
/// the given seeds and program, or `None` where it finds no bump.
pub uninterp spec fn found_program_address(seeds: Seq<Seq<u8>>, program: Seq<u8>) -> Option<
    (Seq<u8>, u8),
>;

/// The address that `Pubkey::create_program_address` yields for the given
/// seeds and program, or `None` where it reports an error.
pub uninterp spec fn created_program_address(seeds: Seq<Seq<u8>>, program: Seq<u8>) -> Option<
    Seq<u8>,
>;

/// Calls `Pubkey::try_find_program_address` with the seeds and the program.
///
/// Believed without proof: the result depends on the seeds and the program
/// alone; and where an address and a bump are found, the seeds followed by
/// the bump as a seed of one byte are seeds for which
/// `Pubkey::create_program_address` returns that address.
#[verifier::external_body]
pub(crate) fn find_program_address(seeds: &Vec<Vec<u8>>, program: &Identity) -> (found: Option<
    (Identity, u8),
>)
    ensures
        found_program_address(seeds.deep_view(), program@) == match found {
            Some((address, bump)) => Some((address@, bump)),
            None => None,
        },
        found matches Some((address, bump)) ==> created_program_address(
            seeds.deep_view().push(seq![bump]),
            program@,
        ) == Some(address@),
{
    let parts: Vec<&[u8]> = seeds.iter().map(|seed| seed.as_slice()).collect();
    match Pubkey::try_find_program_address(&parts, &Pubkey::new_from_array(program.bytes)) {
        Some((address, bump)) => Some((Identity { bytes: address.to_bytes() }, bump)),
        None => None,
    }
}

/// Calls `Pubkey::create_program_address` with the seeds and the program.
///
/// Believed without proof: whether an address is returned, and which,
/// depends on the seeds and the program alone.
#[verifier::external_body]
pub(crate) fn create_program_address(seeds: &Vec<Vec<u8>>, program: &Identity) -> (made: Result<
    Identity,
    PubkeyError,
>)
    ensures
        created_program_address(seeds.deep_view(), program@) == match made {
            Ok(address) => Some(address@),
            Err(_) => None,
        },
{
    let parts: Vec<&[u8]> = seeds.iter().map(|seed| seed.as_slice()).collect();
    match Pubkey::create_program_address(&parts, &Pubkey::new_from_array(program.bytes)) {
        Ok(address) => Ok(Identity { bytes: address.to_bytes() }),
        Err(error) => Err(error),
    }
}

/// The bytes of the program's own identity.
pub open spec fn program_address() -> Seq<u8> {
    seq![
        123u8, 86, 78, 140, 64, 130, 117, 124, 89, 157, 63, 39, 203, 77, 177, 15,
        88, 77, 199, 220, 246, 12, 70, 31, 69, 85, 216, 172, 233, 29, 185, 33,
    ]
}

/// The program's own identity, under which every address is derived.
pub fn program_id() -> (id: Identity)
    ensures
        id@ == program_address(),
{
    let id = Identity {
        bytes: [
            123u8, 86, 78, 140, 64, 130, 117, 124, 89, 157, 63, 39, 203, 77, 177, 15,
            88, 77, 199, 220, 246, 12, 70, 31, 69, 85, 216, 172, 233, 29, 185, 33,
        ],
    };
    assert(id@ =~= program_address());
    id
}

/// The domain tag of escrow records: the bytes of `escrow`.
pub open spec fn escrow_tag() -> Seq<u8> {
    seq![101u8, 115, 99, 114, 111, 119]
}

/// The domain tag of vaults: the bytes of `vault`.
pub open spec fn vault_tag() -> Seq<u8> {
    seq![118u8, 97, 117, 108, 116]
}

/// The seeds of the escrow record between a buyer and a seller.
pub open spec fn escrow_seeds(buyer: Seq<u8>, seller: Seq<u8>) -> Seq<Seq<u8>> {
    seq![escrow_tag(), buyer, seller]
}

/// The seeds of the vault of the escrow record at the given address.
pub open spec fn vault_seeds(escrow: Seq<u8>) -> Seq<Seq<u8>> {
    seq![vault_tag(), escrow]
}

/// The address and bump of the escrow record between a buyer and a seller.
pub open spec fn escrow_address(buyer: Seq<u8>, seller: Seq<u8>) -> Option<(Seq<u8>, u8)> {
    found_program_address(escrow_seeds(buyer, seller), program_address())
}

/// The address of the vault of the escrow record at the given address.
pub open spec fn vault_address(escrow: Seq<u8>) -> Option<Seq<u8>> {
    match found_program_address(vault_seeds(escrow), program_address()) {
        Some((address, _)) => Some(address),
        None => None,
    }
}

/// The identity that signs for the record between a buyer and a seller when
/// the given bump is presented as its derivation proof.
pub open spec fn signing_authority(buyer: Seq<u8>, seller: Seq<u8>, bump: u8) -> Option<Seq<u8>> {
    created_program_address(escrow_seeds(buyer, seller).push(seq![bump]), program_address())
}

fn escrow_seed_bytes(buyer: &Identity, seller: &Identity) -> (seeds: Vec<Vec<u8>>)
    ensures
        seeds.deep_view() == escrow_seeds(buyer@, seller@),
{
    let tag: Vec<u8> = vec![101u8, 115, 99, 114, 111, 119];
    assert(tag@ =~= escrow_tag());
    let seeds: Vec<Vec<u8>> = vec![tag, buyer.to_vec(), seller.to_vec()];
    assert(seeds.deep_view() =~~= escrow_seeds(buyer@, seller@));
    seeds
}

fn vault_seed_bytes(escrow: &Identity) -> (seeds: Vec<Vec<u8>>)
    ensures
        seeds.deep_view() == vault_seeds(escrow@),
{
    let tag: Vec<u8> = vec![118u8, 97, 117, 108, 116];
    assert(tag@ =~= vault_tag());
    let seeds: Vec<Vec<u8>> = vec![tag, escrow.to_vec()];
    assert(seeds.deep_view() =~~= vault_seeds(escrow@));
    seeds
}

/// Recomputes the identity that signs for a record from the record's parties
/// and its stored bump. `None` where the bump derives no address.
pub fn derive_authority(buyer: &Identity, seller: &Identity, bump: u8) -> (authority: Option<
    Identity,
>)
    ensures
        signing_authority(buyer@, seller@, bump) == match authority {
            Some(identity) => Some(identity@),
            None => None,
        },
{
    let mut seeds = escrow_seed_bytes(buyer, seller);
    let salt: Vec<u8> = vec![bump];
    assert(salt@ =~= seq![bump]);
    seeds.push(salt);
    assert(seeds.deep_view() =~~= escrow_seeds(buyer@, seller@).push(seq![bump]));
    match create_program_address(&seeds, &program_id()) {
        Ok(identity) => Some(identity),
        Err(_) => None,
    }
}

/// The addresses of one escrow: of its record, with the bump that proves the
/// derivation, and of its vault. A value of this type is always the result of
/// a derivation from the buyer and the seller it names.
#[derive(Clone, Copy, Debug)]
pub struct EscrowKeys {
    buyer: Identity,
    seller: Identity,
    escrow: Identity,
    bump: u8,
    vault: Identity,
}

impl EscrowKeys {
    #[verifier::type_invariant]
    closed spec fn always_derived(self) -> bool {
        self.is_derived()
    }

    /// The addresses are the ones derived from the buyer and the seller, and
    /// the bump signs for the record.
    pub open spec fn is_derived(self) -> bool {
        &&& escrow_address(self.buyer_id()@, self.seller_id()@) == Some(
            (self.escrow_id()@, self.bump_seed()),
        )
        &&& signing_authority(self.buyer_id()@, self.seller_id()@, self.bump_seed()) == Some(
            self.escrow_id()@,
        )
        &&& vault_address(self.escrow_id()@) == Some(self.vault_id()@)
    }

    /// The buyer the addresses were derived for.
    pub closed spec fn buyer_id(self) -> Identity {
        self.buyer
    }

    /// The seller the addresses were derived for.
    pub closed spec fn seller_id(self) -> Identity {
        self.seller
    }

    /// The address of the escrow record.
    pub closed spec fn escrow_id(self) -> Identity {
        self.escrow
    }

    /// The bump that proves the record's derivation.
    pub closed spec fn bump_seed(self) -> u8 {
        self.bump
    }

    /// The address of the vault.
    pub closed spec fn vault_id(self) -> Identity {
        self.vault
    }

    /// Derives the addresses of the escrow between a buyer and a seller.
    /// `None` where no address can be derived for the pair or for its vault.
    pub fn derive(buyer: &Identity, seller: &Identity) -> (keys: Option<EscrowKeys>)
        ensures
            match keys {
                Some(k) => {
                    &&& k.is_derived()
                    &&& k.buyer_id() == *buyer
                    &&& k.seller_id() == *seller
                    &&& escrow_address(buyer@, seller@) == Some((k.escrow_id()@, k.bump_seed()))
                    &&& vault_address(k.escrow_id()@) == Some(k.vault_id()@)
                },
                None => match escrow_address(buyer@, seller@) {
                    Some((escrow, _)) => vault_address(escrow) is None,
                    None => true,
                },
            },
    {
        let escrow_seeds = escrow_seed_bytes(buyer, seller);
        match find_program_address(&escrow_seeds, &program_id()) {
            None => None,
            Some((escrow, bump)) => {
                let vault_seeds = vault_seed_bytes(&escrow);
                match find_program_address(&vault_seeds, &program_id()) {
                    None => None,
                    Some((vault, _)) => Some(
                        EscrowKeys { buyer: *buyer, seller: *seller, escrow, bump, vault },
                    ),
                }
            },
        }
    }

    /// The buyer the addresses were derived for.
    pub fn buyer(&self) -> (id: Identity)
        ensures
            id == self.buyer_id(),
            self.is_derived(),
    {
        proof {
            use_type_invariant(self);
        }
        self.buyer
    }

    /// The seller the addresses were derived for.
    pub fn seller(&self) -> (id: Identity)
        ensures
            id == self.seller_id(),
            self.is_derived(),
    {
        proof {
            use_type_invariant(self);
        }
        self.seller
    }

    /// The address of the escrow record.
    pub fn escrow(&self) -> (id: Identity)
        ensures
            id == self.escrow_id(),
            self.is_derived(),
    {
        proof {
            use_type_invariant(self);
        }
        self.escrow
    }

    /// The bump that proves the record's derivation.
    pub fn bump(&self) -> (bump: u8)
        ensures
            bump == self.bump_seed(),
            self.is_derived(),
    {
        proof {
            use_type_invariant(self);
        }
        self.bump
    }

    /// The address of the vault.
    pub fn vault(&self) -> (id: Identity)
        ensures
            id == self.vault_id(),
            self.is_derived(),
    {
        proof {
            use_type_invariant(self);
        }
        self.vault
    }
}

} // verus!
