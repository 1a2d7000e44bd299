//! The three transitions of an escrow: creation, completion, cancellation.
//!
//! Each transition works on the accounts that were loaded for it, and either
//! takes effect as a whole or leaves every account as it was.

use crate::address::EscrowKeys;
use crate::custody::{identity_view, open, release, TokenAccount, TokenAccountView};
use crate::identity::Identity;
use crate::record::{check_terms, terms_acceptable, Escrow, EscrowError, EscrowView};
use vstd::prelude::*;

verus! {

/// The accounts of a creation. The buyer named in `keys` is the party who
/// asks for it.
#[derive(Debug)]
pub struct CreateEscrow {
    /// The addresses derived for the buyer and the seller.
    pub keys: EscrowKeys,
    /// The mint of the tokens that the escrow is to hold.
    pub mint: Identity,
    /// The record at the escrow's address: `None` until it is created.
    pub escrow: Option<Escrow>,
    /// The vault at the vault's address: `None` until it is opened.
    pub escrow_vault: Option<TokenAccount>,
    /// The account the buyer funds the escrow from.
    pub buyer_token_account: TokenAccount,
}

/// The accounts of a completion.
#[derive(Debug)]
pub struct CompleteEscrow {
    /// The record of the escrow.
    pub escrow: Escrow,
    /// The vault of the escrow.
    pub escrow_vault: TokenAccount,
    /// The account that receives the tokens.
    pub seller_token_account: TokenAccount,
    /// The party who asks for the completion.
    pub seller: Identity,
}

/// The accounts of a cancellation.
#[derive(Debug)]
pub struct CancelEscrow {
    /// The record of the escrow.
    pub escrow: Escrow,
    /// The vault of the escrow.
    pub escrow_vault: TokenAccount,
    /// The account that receives the refund.
    pub buyer_token_account: TokenAccount,
    /// The party who asks for the cancellation.
    pub buyer: Identity,
}

/// The record that a creation writes.
pub open spec fn created_record(keys: EscrowKeys, amount: u64, item_name: Seq<char>) -> EscrowView {
    EscrowView {
        buyer: keys.buyer_id()@,
        seller: keys.seller_id()@,
        amount: amount as nat,
        item_name,
        is_completed: false,
        bump: keys.bump_seed(),
    }
}

/// The vault that a creation opens.
pub open spec fn created_vault(keys: EscrowKeys, mint: Seq<u8>, amount: u64) -> TokenAccountView {
    TokenAccountView {
        key: keys.vault_id()@,
        mint,
        authority: keys.escrow_id()@,
        balance: amount as nat,
    }
}

/// Whether a creation takes effect, and why not: no record and no vault may
/// be there yet, the terms must be acceptable, and the buyer must be able to
/// move the amount out of the funding account into a vault of the mint.
pub open spec fn create_result(
    keys: EscrowKeys,
    mint: Seq<u8>,
    escrow: Option<Escrow>,
    escrow_vault: Option<TokenAccount>,
    funding: TokenAccountView,
    amount: u64,
    item_name: Seq<char>,
) -> Result<(), EscrowError> {
    if escrow is Some || escrow_vault is Some {
        Err(EscrowError::AlreadyExists)
    } else if !terms_acceptable(amount, item_name) {
        Err(EscrowError::InvalidTerms)
    } else {
        funding.debit_result(keys.buyer_id()@, mint, amount as nat)
    }
}

/// Whether a settlement takes effect, and why not: the record must be open,
/// the destination must belong to the signer, and the vault must accept the
/// authority, be of the destination's mint and hold the amount.
pub open spec fn settle_result(
    record: EscrowView,
    vault: TokenAccountView,
    destination: TokenAccountView,
    signer: Seq<u8>,
    authority: Option<Seq<u8>>,
) -> Result<(), EscrowError> {
    if record.is_completed {
        Err(EscrowError::AlreadyCompleted)
    } else if destination.authority != signer {
        Err(EscrowError::AuthorityMismatch)
    } else {
        vault.release_result(authority, destination.mint, record.amount)
    }
}

/// Whether a completion takes effect, and why not: the signer must be the
/// record's seller, and the settlement must take effect.
pub open spec fn complete_result(
    record: EscrowView,
    vault: TokenAccountView,
    destination: TokenAccountView,
    signer: Seq<u8>,
    authority: Option<Seq<u8>>,
) -> Result<(), EscrowError> {
    match record.complete_result(signer) {
        Err(error) => Err(error),
        Ok(()) => settle_result(record, vault, destination, signer, authority),
    }
}

/// Whether a cancellation takes effect, and why not: the signer must be the
/// record's buyer, and the settlement must take effect.
pub open spec fn cancel_result(
    record: EscrowView,
    vault: TokenAccountView,
    destination: TokenAccountView,
    signer: Seq<u8>,
    authority: Option<Seq<u8>>,
) -> Result<(), EscrowError> {
    match record.cancel_result(signer) {
        Err(error) => Err(error),
        Ok(()) => settle_result(record, vault, destination, signer, authority),
    }
}

/// A settlement that the vault cannot pay in full is refused for want of
/// funds, whatever else is in order.
pub proof fn short_vault_is_refused(
    record: EscrowView,
    vault: TokenAccountView,
    destination: TokenAccountView,
    signer: Seq<u8>,
)
    requires
        !record.is_completed,
        destination.authority == signer,
        destination.mint == vault.mint,
        vault.balance < record.amount,
    ensures
        settle_result(record, vault, destination, signer, Some(vault.authority)) == Err::<
            (),
            EscrowError,
        >(EscrowError::InsufficientFunds),
{
}

/// Creates the escrow between the buyer and the seller named in the keys:
/// writes the record and opens the vault with `amount` tokens of the mint
/// from the buyer's account.
///
/// Fails with `AlreadyExists` where a record or a vault is already there,
/// with `InvalidTerms` where the amount is zero or the item name takes more
/// than fifty bytes, with `AuthorityMismatch` where the funding account is
/// not the buyer's, with `MintMismatch` where it is of another mint, and with
/// `InsufficientFunds` where it holds less than `amount`.
pub fn create_escrow(ctx: &mut CreateEscrow, amount: u64, item_name: String) -> (result: Result<
    (),
    EscrowError,
>)
    ensures
        result == create_result(
            old(ctx).keys,
            old(ctx).mint@,
            old(ctx).escrow,
            old(ctx).escrow_vault,
            old(ctx).buyer_token_account@,
            amount,
            item_name@,
        ),
        final(ctx).keys == old(ctx).keys,
        final(ctx).mint == old(ctx).mint,
        result is Ok ==> {
            &&& final(ctx).escrow matches Some(record) && record@ == created_record(
                old(ctx).keys,
                amount,
                item_name@,
            )
            &&& final(ctx).escrow_vault matches Some(vault) && vault@ == created_vault(
                old(ctx).keys,
                old(ctx).mint@,
                amount,
            )
            &&& final(ctx).buyer_token_account@ == old(ctx).buyer_token_account@.holding(
                (old(ctx).buyer_token_account.balance - amount) as nat,
            )
        },
        result is Err ==> *final(ctx) == *old(ctx),
{
    if ctx.escrow.is_some() || ctx.escrow_vault.is_some() {
        return Err(EscrowError::AlreadyExists);
    }
    if !check_terms(amount, &item_name) {
        return Err(EscrowError::InvalidTerms);
    }
    let buyer = ctx.keys.buyer();
    let record = Escrow::new(buyer, ctx.keys.seller(), amount, item_name, ctx.keys.bump());
    let mut funding = ctx.buyer_token_account;
    match open(&ctx.keys.escrow(), &ctx.mint, &ctx.keys.vault(), &mut funding, &buyer, amount) {
        Err(error) => Err(error),
        Ok(vault) => {
            ctx.escrow = Some(record);
            ctx.escrow_vault = Some(vault);
            ctx.buyer_token_account = funding;
            Ok(())
        },
    }
}

/// Settles an open record: releases the record's amount from the vault to
/// the destination under the authority presented, then marks the record as
/// settled. Either all of it happens or nothing changes.
pub fn settle(
    record: &mut Escrow,
    vault: &mut TokenAccount,
    destination: &mut TokenAccount,
    signer: &Identity,
    authority: &Option<Identity>,
) -> (result: Result<(), EscrowError>)
    requires
        old(vault).balance + old(destination).balance <= u64::MAX,
    ensures
        result == settle_result(
            old(record)@,
            old(vault)@,
            old(destination)@,
            signer@,
            identity_view(*authority),
        ),
        result is Ok ==> {
            &&& final(record)@ == old(record)@.settled()
            &&& final(vault)@ == old(vault)@.holding(
                (old(vault).balance - old(record).amount) as nat,
            )
            &&& final(destination)@ == old(destination)@.holding(
                (old(destination).balance + old(record).amount) as nat,
            )
        },
        result is Err ==> {
            &&& *final(record) == *old(record)
            &&& *final(vault) == *old(vault)
            &&& *final(destination) == *old(destination)
        },
{
    if record.is_completed {
        return Err(EscrowError::AlreadyCompleted);
    }
    if !destination.authority.same(signer) {
        return Err(EscrowError::AuthorityMismatch);
    }
    match release(vault, authority, destination, record.amount) {
        Err(error) => Err(error),
        Ok(()) => {
            record.is_completed = true;
            Ok(())
        },
    }
}

/// Completes the escrow: pays the record's amount out of the vault into the
/// seller's account and settles the record.
///
/// Fails with `AlreadyCompleted` where the record was settled before, then
/// with `AuthorityMismatch` where the signer is not the record's seller, the
/// destination is not the signer's, or the record's derived identity is not
/// the vault's authority, with `MintMismatch` where the destination is of
/// another mint than the vault, and with `InsufficientFunds` where the vault
/// holds less than the amount.
pub fn complete_escrow(ctx: &mut CompleteEscrow) -> (result: Result<(), EscrowError>)
    requires
        old(ctx).escrow_vault.balance + old(ctx).seller_token_account.balance <= u64::MAX,
    ensures
        result == complete_result(
            old(ctx).escrow@,
            old(ctx).escrow_vault@,
            old(ctx).seller_token_account@,
            old(ctx).seller@,
            old(ctx).escrow@.authority(),
        ),
        final(ctx).seller == old(ctx).seller,
        result is Ok ==> {
            &&& final(ctx).escrow@ == old(ctx).escrow@.settled()
            &&& final(ctx).escrow_vault@ == old(ctx).escrow_vault@.holding(
                (old(ctx).escrow_vault.balance - old(ctx).escrow.amount) as nat,
            )
            &&& final(ctx).seller_token_account@ == old(ctx).seller_token_account@.holding(
                (old(ctx).seller_token_account.balance + old(ctx).escrow.amount) as nat,
            )
        },
        result is Err ==> *final(ctx) == *old(ctx),
{
    let signer = ctx.seller;
    match ctx.escrow.check_complete(&signer) {
        Err(error) => Err(error),
        Ok(()) => {
            let authority = ctx.escrow.authority();
            settle(
                &mut ctx.escrow,
                &mut ctx.escrow_vault,
                &mut ctx.seller_token_account,
                &signer,
                &authority,
            )
        },
    }
}

/// Cancels the escrow: refunds the record's amount out of the vault into the
/// buyer's account and settles the record.
///
/// Fails with `AlreadyCompleted` where the record was settled before, then
/// with `UnauthorizedCancel` where the signer is not the record's buyer, with
/// `AuthorityMismatch` where the destination is not the signer's or the
/// record's derived identity is not the vault's authority, with
/// `MintMismatch` where the destination is of another mint than the vault,
/// and with `InsufficientFunds` where the vault holds less than the amount.
pub fn cancel_escrow(ctx: &mut CancelEscrow) -> (result: Result<(), EscrowError>)
    requires
        old(ctx).escrow_vault.balance + old(ctx).buyer_token_account.balance <= u64::MAX,
    ensures
        result == cancel_result(
            old(ctx).escrow@,
            old(ctx).escrow_vault@,
            old(ctx).buyer_token_account@,
            old(ctx).buyer@,
            old(ctx).escrow@.authority(),
        ),
        final(ctx).buyer == old(ctx).buyer,
        result is Ok ==> {
            &&& final(ctx).escrow@ == old(ctx).escrow@.settled()
            &&& final(ctx).escrow_vault@ == old(ctx).escrow_vault@.holding(
                (old(ctx).escrow_vault.balance - old(ctx).escrow.amount) as nat,
            )
            &&& final(ctx).buyer_token_account@ == old(ctx).buyer_token_account@.holding(
                (old(ctx).buyer_token_account.balance + old(ctx).escrow.amount) as nat,
            )
        },
        result is Err ==> *final(ctx) == *old(ctx),
{
    let signer = ctx.buyer;
    match ctx.escrow.check_cancel(&signer) {
        Err(error) => Err(error),
        Ok(()) => {
            let authority = ctx.escrow.authority();
            settle(
                &mut ctx.escrow,
                &mut ctx.escrow_vault,
                &mut ctx.buyer_token_account,
                &signer,
                &authority,
            )
        },
    }
}

} // verus!
