//! Custody accounts and the movement of tokens between them.
//!
//! A vault is a custody account whose authority is the derived identity of
//! one escrow record. Tokens leave an account only when the authority that
//! the account records is presented, and only for an account of the same
//! mint.

use crate::identity::Identity;
use crate::record::EscrowError;
use vstd::prelude::*;

verus! {

/// An account that holds tokens of one mint on behalf of its authority.
#[derive(Clone, Copy, Debug)]
pub struct TokenAccount {
    /// The address of the account.
    pub key: Identity,
    /// The mint of the tokens that the account holds.
    pub mint: Identity,
    /// The identity that may move tokens out of the account.
    pub authority: Identity,
    /// The number of tokens held.
    pub balance: u64,
}

/// The mathematical value of a custody account.
pub struct TokenAccountView {
    pub key: Seq<u8>,
    pub mint: Seq<u8>,
    pub authority: Seq<u8>,
    pub balance: nat,
}

impl View for TokenAccount {
    type V = TokenAccountView;

    open spec fn view(&self) -> TokenAccountView {
        TokenAccountView {
            key: self.key@,
            mint: self.mint@,
            authority: self.authority@,
            balance: self.balance as nat,
        }
    }
}

impl TokenAccountView {
    /// The account with the given balance in place of its own.
    pub open spec fn holding(self, balance: nat) -> TokenAccountView {
        TokenAccountView { balance, ..self }
    }

    /// Whether the authority may move the amount out of the account into an
    /// account of the given mint: the authority must be the account's, the
    /// mint must be the account's, and the account must hold the amount.
    pub open spec fn debit_result(self, authority: Seq<u8>, mint: Seq<u8>, amount: nat) -> Result<
        (),
        EscrowError,
    > {
        if authority != self.authority {
            Err(EscrowError::AuthorityMismatch)
        } else if mint != self.mint {
            Err(EscrowError::MintMismatch)
        } else if self.balance < amount {
            Err(EscrowError::InsufficientFunds)
        } else {
            Ok(())
        }
    }

    /// Whether the authority presented, if any, may move the amount out of
    /// the account into an account of the given mint.
    pub open spec fn release_result(
        self,
        authority: Option<Seq<u8>>,
        mint: Seq<u8>,
        amount: nat,
    ) -> Result<(), EscrowError> {
        match authority {
            Some(identity) => self.debit_result(identity, mint, amount),
            None => Err(EscrowError::AuthorityMismatch),
        }
    }
}

/// The view of an optional identity.
pub open spec fn identity_view(identity: Option<Identity>) -> Option<Seq<u8>> {
    match identity {
        Some(id) => Some(id@),
        None => None,
    }
}

/// Moves `amount` tokens from one account to another under the authority
/// presented. The authority must be the one recorded on the source, the two
/// accounts must be of one mint, and the source must hold the amount;
/// otherwise nothing moves.
///
/// The two balances are part of one token supply, which fits in sixty-four
/// bits.
pub fn transfer(
    from: &mut TokenAccount,
    to: &mut TokenAccount,
    authority: &Identity,
    amount: u64,
) -> (result: Result<(), EscrowError>)
    requires
        old(from).balance + old(to).balance <= u64::MAX,
    ensures
        result == old(from)@.debit_result(authority@, old(to)@.mint, amount as nat),
        result is Ok ==> {
            &&& final(from)@ == old(from)@.holding((old(from).balance - amount) as nat)
            &&& final(to)@ == old(to)@.holding((old(to).balance + amount) as nat)
        },
        result is Err ==> *final(from) == *old(from) && *final(to) == *old(to),
{
    if !authority.same(&from.authority) {
        return Err(EscrowError::AuthorityMismatch);
    }
    if !to.mint.same(&from.mint) {
        return Err(EscrowError::MintMismatch);
    }
    if from.balance < amount {
        return Err(EscrowError::InsufficientFunds);
    }
    from.balance = from.balance - amount;
    to.balance = to.balance + amount;
    Ok(())
}

/// Opens the vault of an escrow: a new account of `mint` at `vault_key`
/// whose sole authority is `owner`, funded with `amount` tokens that the
/// buyer moves out of the funding account. Where the buyer is not the funding
/// account's authority, the funding account is of another mint, or it holds
/// too little, no vault is opened and the funding account is unchanged.
pub fn open(
    owner: &Identity,
    mint: &Identity,
    vault_key: &Identity,
    funding: &mut TokenAccount,
    buyer: &Identity,
    amount: u64,
) -> (result: Result<TokenAccount, EscrowError>)
    ensures
        match result {
            Ok(vault) => {
                &&& old(funding)@.debit_result(buyer@, mint@, amount as nat) is Ok
                &&& vault@ == (TokenAccountView {
                    key: vault_key@,
                    mint: mint@,
                    authority: owner@,
                    balance: amount as nat,
                })
                &&& final(funding)@ == old(funding)@.holding(
                    (old(funding).balance - amount) as nat,
                )
            },
            Err(error) => {
                &&& old(funding)@.debit_result(buyer@, mint@, amount as nat) == Err::<
                    (),
                    EscrowError,
                >(error)
                &&& *final(funding) == *old(funding)
            },
        },
{
    let mut vault = TokenAccount { key: *vault_key, mint: *mint, authority: *owner, balance: 0 };
    match transfer(funding, &mut vault, buyer, amount) {
        Ok(()) => Ok(vault),
        Err(error) => Err(error),
    }
}

/// Releases `amount` tokens from a vault to a destination under the
/// authority that was recomputed from the owning record. Where no authority
/// could be recomputed, or it is not the one the vault records, or the
/// destination is of another mint, or the vault holds too little, nothing
/// moves.
pub fn release(
    vault: &mut TokenAccount,
    authority: &Option<Identity>,
    destination: &mut TokenAccount,
    amount: u64,
) -> (result: Result<(), EscrowError>)
    requires
        old(vault).balance + old(destination).balance <= u64::MAX,
    ensures
        result == old(vault)@.release_result(
            identity_view(*authority),
            old(destination)@.mint,
            amount as nat,
        ),
        result is Ok ==> {
            &&& final(vault)@ == old(vault)@.holding((old(vault).balance - amount) as nat)
            &&& final(destination)@ == old(destination)@.holding(
                (old(destination).balance + amount) as nat,
            )
        },
        result is Err ==> *final(vault) == *old(vault) && *final(destination) == *old(
            destination,
        ),
{
    match authority {
        Some(identity) => transfer(vault, destination, identity, amount),
        None => Err(EscrowError::AuthorityMismatch),
    }
}

} // verus!
