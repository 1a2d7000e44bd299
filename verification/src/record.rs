//! The escrow record and the errors of the protocol.

use crate::address::{derive_authority, signing_authority};
use crate::identity::Identity;
use vstd::prelude::*;

verus! {

/// Why a transition was refused. A refused transition changes nothing.
#[derive(Clone, Copy, Debug, PartialEq, Eq, Structural)]
pub enum EscrowError {
    /// A record already exists for the buyer and the seller.
    AlreadyExists,
    /// The escrow was already settled, by completion or by cancellation.
    AlreadyCompleted,
    /// Someone other than the record's buyer asked to cancel.
    UnauthorizedCancel,
    /// The authority presented is not the one recorded: on a custody
    /// account, its authority; on a record that is to be completed, its
    /// seller.
    AuthorityMismatch,
    /// The account to debit holds less than the amount to move.
    InsufficientFunds,
    /// Nothing is stored under the key that was named.
    NotFound,
    /// The terms do not allow an escrow: the amount is zero, or the item
    /// name takes more than fifty bytes.
    InvalidTerms,
    /// The two accounts of a transfer hold tokens of different mints.
    MintMismatch,
}

impl EscrowError {
    /// The text that tells a caller what went wrong.
    pub open spec fn text(self) -> Seq<char> {
        match self {
            EscrowError::AlreadyExists => "An escrow already exists for this buyer and seller"@,
            EscrowError::AlreadyCompleted => "This escrow has already been completed"@,
            EscrowError::UnauthorizedCancel => "Only the buyer can cancel the escrow"@,
            EscrowError::AuthorityMismatch => "The authority presented is not the one recorded"@,
            EscrowError::InsufficientFunds => "The account holds less than the amount to move"@,
            EscrowError::NotFound => "Nothing is stored under this key"@,
            EscrowError::InvalidTerms => "The amount is zero or the item name is too long"@,
            EscrowError::MintMismatch => "The accounts hold tokens of different mints"@,
        }
    }

    /// The text that tells a caller what went wrong.
    pub fn message(&self) -> (message: String)
        ensures
            message@ == self.text(),
    {
        match self {
            EscrowError::AlreadyExists => "An escrow already exists for this buyer and seller".to_owned(),
            EscrowError::AlreadyCompleted => "This escrow has already been completed".to_owned(),
            EscrowError::UnauthorizedCancel => "Only the buyer can cancel the escrow".to_owned(),
            EscrowError::AuthorityMismatch => "The authority presented is not the one recorded".to_owned(),
            EscrowError::InsufficientFunds => "The account holds less than the amount to move".to_owned(),
            EscrowError::NotFound => "Nothing is stored under this key".to_owned(),
            EscrowError::InvalidTerms => "The amount is zero or the item name is too long".to_owned(),
            EscrowError::MintMismatch => "The accounts hold tokens of different mints".to_owned(),
        }
    }
}

/// The most bytes an item name may take.
pub const MAX_ITEM_NAME: usize = 50;

/// The bytes set aside for a stored record: an eight-byte tag, the two
/// parties, the amount, the length-prefixed item name, the settlement flag
/// and the bump.
pub const SPACE: usize = 8 + 32 + 32 + 8 + 4 + 50 + 1 + 1;

/// The number of bytes that a name takes when it is stored.
pub open spec fn name_length(name: Seq<char>) -> nat {
    vstd::utf8::encode_utf8(name).len()
}

/// The terms under which an escrow may be created: a positive amount and an
/// item name of at most fifty bytes.
pub open spec fn terms_acceptable(amount: u64, item_name: Seq<char>) -> bool {
    amount > 0 && name_length(item_name) <= MAX_ITEM_NAME
}

/// One trade between a buyer and a seller.
#[derive(Debug)]
pub struct Escrow {
    /// The party whose tokens are locked.
    pub buyer: Identity,
    /// The party who is paid when the trade completes.
    pub seller: Identity,
    /// The number of tokens locked.
    pub amount: u64,
    /// A label for the traded item.
    pub item_name: String,
    /// Whether the escrow was settled.
    pub is_completed: bool,
    /// The bump that proves the derivation of the record's address.
    pub bump: u8,
}

/// The mathematical value of an escrow record.
pub struct EscrowView {
    pub buyer: Seq<u8>,
    pub seller: Seq<u8>,
    pub amount: nat,
    pub item_name: Seq<char>,
    pub is_completed: bool,
    pub bump: u8,
}

impl View for Escrow {
    type V = EscrowView;

    open spec fn view(&self) -> EscrowView {
        EscrowView {
            buyer: self.buyer@,
            seller: self.seller@,
            amount: self.amount as nat,
            item_name: self.item_name@,
            is_completed: self.is_completed,
            bump: self.bump,
        }
    }
}

impl EscrowView {
    /// The record as it is once it was settled: only the flag differs.
    pub open spec fn settled(self) -> EscrowView {
        EscrowView { is_completed: true, ..self }
    }

    /// The identity that signs for the record's vault.
    pub open spec fn authority(self) -> Option<Seq<u8>> {
        signing_authority(self.buyer, self.seller, self.bump)
    }

    /// Whether the record may still be settled.
    pub open spec fn open_result(self) -> Result<(), EscrowError> {
        if self.is_completed {
            Err(EscrowError::AlreadyCompleted)
        } else {
            Ok(())
        }
    }

    /// Whether the signer may complete the record: it must be open, and the
    /// signer must be its seller. A signer who is not is refused with
    /// `AuthorityMismatch`.
    pub open spec fn complete_result(self, signer: Seq<u8>) -> Result<(), EscrowError> {
        if self.is_completed {
            Err(EscrowError::AlreadyCompleted)
        } else if signer != self.seller {
            Err(EscrowError::AuthorityMismatch)
        } else {
            Ok(())
        }
    }

    /// Whether the signer may cancel the record.
    pub open spec fn cancel_result(self, signer: Seq<u8>) -> Result<(), EscrowError> {
        if self.is_completed {
            Err(EscrowError::AlreadyCompleted)
        } else if signer != self.buyer {
            Err(EscrowError::UnauthorizedCancel)
        } else {
            Ok(())
        }
    }
}

/// A name of ASCII characters takes one byte for each character, so one of at
/// most fifty characters is within the bound.
pub proof fn ascii_name_fits(name: Seq<char>)
    requires
        vstd::utf8::is_ascii_chars(name),
        name.len() <= MAX_ITEM_NAME,
    ensures
        name_length(name) == name.len(),
        name_length(name) <= MAX_ITEM_NAME,
{
    vstd::utf8::is_ascii_chars_encode_utf8(name);
}

/// Whether the terms allow an escrow to be created, and why not.
pub open spec fn terms_result(amount: u64, item_name: Seq<char>) -> Result<(), EscrowError> {
    if terms_acceptable(amount, item_name) {
        Ok(())
    } else {
        Err(EscrowError::InvalidTerms)
    }
}

/// Whether the terms allow an escrow to be created.
pub fn check_terms(amount: u64, item_name: &String) -> (acceptable: bool)
    ensures
        acceptable == terms_acceptable(amount, item_name@),
{
    amount > 0 && item_name.as_str().as_bytes().len() <= MAX_ITEM_NAME
}

impl Escrow {
    /// The record of a fresh escrow: open, with the given terms.
    pub fn new(buyer: Identity, seller: Identity, amount: u64, item_name: String, bump: u8) -> (record:
        Escrow)
        ensures
            record@ == (EscrowView {
                buyer: buyer@,
                seller: seller@,
                amount: amount as nat,
                item_name: item_name@,
                is_completed: false,
                bump,
            }),
    {
        Escrow { buyer, seller, amount, item_name, is_completed: false, bump }
    }

    /// A copy of the record.
    pub fn duplicate(&self) -> (copy: Escrow)
        ensures
            copy == *self,
    {
        Escrow {
            buyer: self.buyer,
            seller: self.seller,
            amount: self.amount,
            item_name: self.item_name.clone(),
            is_completed: self.is_completed,
            bump: self.bump,
        }
    }

    /// The number of bytes the record takes when it is stored. A record with
    /// acceptable terms fits the space set aside for it.
    pub fn stored_size(&self) -> (size: usize)
        requires
            name_length(self.item_name@) <= MAX_ITEM_NAME,
        ensures
            size == 86 + name_length(self.item_name@),
            size <= SPACE,
    {
        8 + 32 + 32 + 8 + 4 + self.item_name.as_str().as_bytes().len() + 1 + 1
    }

    /// Refuses a record that was already settled.
    pub fn check_open(&self) -> (result: Result<(), EscrowError>)
        ensures
            result == self@.open_result(),
    {
        if self.is_completed {
            Err(EscrowError::AlreadyCompleted)
        } else {
            Ok(())
        }
    }

    /// Refuses a record that was already settled, and then, with
    /// `AuthorityMismatch`, a signer who is not the record's seller.
    pub fn check_complete(&self, signer: &Identity) -> (result: Result<(), EscrowError>)
        ensures
            result == self@.complete_result(signer@),
    {
        if self.is_completed {
            Err(EscrowError::AlreadyCompleted)
        } else if !signer.same(&self.seller) {
            Err(EscrowError::AuthorityMismatch)
        } else {
            Ok(())
        }
    }

    /// Refuses a record that was already settled, and then a signer who is
    /// not the record's buyer.
    pub fn check_cancel(&self, signer: &Identity) -> (result: Result<(), EscrowError>)
        ensures
            result == self@.cancel_result(signer@),
    {
        if self.is_completed {
            Err(EscrowError::AlreadyCompleted)
        } else if !signer.same(&self.buyer) {
            Err(EscrowError::UnauthorizedCancel)
        } else {
            Ok(())
        }
    }

    /// Recomputes, from the parties and the stored bump, the identity that
    /// signs for the record's vault. `None` where the bump derives none.
    pub fn authority(&self) -> (authority: Option<Identity>)
        ensures
            self@.authority() == match authority {
                Some(identity) => Some(identity@),
                None => None,
            },
    {
        derive_authority(&self.buyer, &self.seller, self.bump)
    }
}

} // verus!
