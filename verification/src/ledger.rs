//! The ledger: the escrow records, their vaults, and the parties' token
//! accounts, with the transitions that move tokens between them.
//!
//! The ledger loads the accounts that a transition names, lets the engine
//! decide, and writes the accounts back only where the transition took
//! effect. A transition borrows the ledger exclusively, so two transitions on
//! one ledger are ordered one before the other: of a completion and a
//! cancellation of one escrow, the first finds the record open and the second
//! finds it settled.

use crate::address::{escrow_address, vault_address, EscrowKeys};
use crate::custody::{TokenAccount, TokenAccountView};
use crate::engine::{
    cancel_escrow, complete_escrow, create_escrow, created_record, created_vault, CancelEscrow,
    CompleteEscrow, CreateEscrow,
};
use crate::holdings::Holdings;
use crate::identity::Identity;
use crate::record::{
    check_terms, name_length, terms_acceptable, Escrow, EscrowError, EscrowView, MAX_ITEM_NAME,
};
use crate::store::RecordStore;
use vstd::prelude::*;

verus! {

/// The mathematical value of a ledger.
pub struct LedgerView {
    /// The escrow records, under their derived addresses.
    pub records: Map<Seq<u8>, EscrowView>,
    /// The vaults, each under the address of the record that owns it.
    pub vaults: Map<Seq<u8>, TokenAccountView>,
    /// The parties' token accounts, under their keys.
    pub accounts: Map<Seq<u8>, TokenAccountView>,
    /// The number of tokens in vaults and accounts together.
    pub supply: nat,
}

impl LedgerView {
    /// What a vault holds; nothing where there is no vault.
    pub open spec fn vault_balance(self, escrow: Seq<u8>) -> nat {
        if self.vaults.contains_key(escrow) {
            self.vaults[escrow].balance
        } else {
            0
        }
    }

    /// What holds of the record at an address and of its vault: the address
    /// is the one derived from the record's parties, the record's bump signs
    /// for it, the vault sits at the address derived from the record's and
    /// answers to the record alone, and the vault holds the record's amount
    /// until the record is settled and nothing afterwards.
    pub open spec fn record_sound(self, escrow: Seq<u8>) -> bool {
        let record = self.records[escrow];
        let vault = self.vaults[escrow];
        &&& self.vaults.contains_key(escrow)
        &&& escrow_address(record.buyer, record.seller) == Some((escrow, record.bump))
        &&& record.authority() == Some(escrow)
        &&& vault_address(escrow) == Some(vault.key)
        &&& vault.authority == escrow
        &&& vault.balance == if record.is_completed {
            0
        } else {
            record.amount
        }
        &&& 0 < record.amount <= u64::MAX
        &&& name_length(record.item_name) <= MAX_ITEM_NAME
    }

    /// Every record is sound, every vault has its record, and every account
    /// sits under its own key.
    pub open spec fn consistent(self) -> bool {
        &&& forall|escrow: Seq<u8>| #[trigger]
            self.records.contains_key(escrow) ==> self.record_sound(escrow)
        &&& forall|escrow: Seq<u8>| #[trigger]
            self.vaults.contains_key(escrow) ==> self.records.contains_key(escrow)
        &&& forall|key: Seq<u8>| #[trigger]
            self.accounts.contains_key(key) ==> self.accounts[key].key == key
    }

    /// Whether a deposit is taken: the account is new, or belongs to the
    /// owner and is of the mint, and the supply stays within sixty-four bits.
    pub open spec fn deposit_taken(
        self,
        account: Seq<u8>,
        owner: Seq<u8>,
        mint: Seq<u8>,
        amount: u64,
    ) -> bool {
        &&& self.accounts.contains_key(account) ==> self.accounts[account].authority == owner
            && self.accounts[account].mint == mint
        &&& self.supply + amount <= u64::MAX
    }

    /// The ledger after a deposit was taken.
    pub open spec fn deposited(
        self,
        account: Seq<u8>,
        owner: Seq<u8>,
        mint: Seq<u8>,
        amount: u64,
    ) -> LedgerView {
        let held: nat = if self.accounts.contains_key(account) {
            self.accounts[account].balance
        } else {
            0
        };
        LedgerView {
            accounts: self.accounts.insert(
                account,
                TokenAccountView {
                    key: account,
                    mint,
                    authority: owner,
                    balance: (held + amount) as nat,
                },
            ),
            supply: (self.supply + amount) as nat,
            ..self
        }
    }

    /// Whether a creation takes effect, and why not: the pair must have no
    /// record yet, the terms must be acceptable, the funding account must
    /// exist, and the buyer must be able to move the amount out of it into
    /// a vault of the mint.
    pub open spec fn create_result(
        self,
        keys: EscrowKeys,
        mint: Seq<u8>,
        funding: Seq<u8>,
        amount: u64,
        item_name: Seq<char>,
    ) -> Result<(), EscrowError> {
        if self.records.contains_key(keys.escrow_id()@) {
            Err(EscrowError::AlreadyExists)
        } else if !terms_acceptable(amount, item_name) {
            Err(EscrowError::InvalidTerms)
        } else if !self.accounts.contains_key(funding) {
            Err(EscrowError::NotFound)
        } else {
            self.accounts[funding].debit_result(keys.buyer_id()@, mint, amount as nat)
        }
    }

    /// The ledger after a creation took effect.
    pub open spec fn created(
        self,
        keys: EscrowKeys,
        mint: Seq<u8>,
        funding: Seq<u8>,
        amount: u64,
        item_name: Seq<char>,
    ) -> LedgerView {
        let source = self.accounts[funding];
        LedgerView {
            records: self.records.insert(
                keys.escrow_id()@,
                created_record(keys, amount, item_name),
            ),
            vaults: self.vaults.insert(keys.escrow_id()@, created_vault(keys, mint, amount)),
            accounts: self.accounts.insert(
                funding,
                source.holding((source.balance - amount) as nat),
            ),
            supply: self.supply,
        }
    }

    /// Whether the destination of a settlement is accepted, and why not: it
    /// must exist, belong to the signer, and be of the mint of the escrow's
    /// vault.
    pub open spec fn destination_result(
        self,
        escrow: Seq<u8>,
        signer: Seq<u8>,
        destination: Seq<u8>,
    ) -> Result<(), EscrowError> {
        if !self.accounts.contains_key(destination) {
            Err(EscrowError::NotFound)
        } else if self.accounts[destination].authority != signer {
            Err(EscrowError::AuthorityMismatch)
        } else if self.accounts[destination].mint != self.vaults[escrow].mint {
            Err(EscrowError::MintMismatch)
        } else {
            Ok(())
        }
    }

    /// Whether a completion takes effect, and why not: the record must
    /// exist and be open, the signer must be its seller, and the destination
    /// must be accepted.
    pub open spec fn complete_result(self, escrow: Seq<u8>, seller: Seq<u8>, destination: Seq<u8>)
        -> Result<(), EscrowError> {
        if !self.records.contains_key(escrow) {
            Err(EscrowError::NotFound)
        } else {
            match self.records[escrow].complete_result(seller) {
                Err(error) => Err(error),
                Ok(()) => self.destination_result(escrow, seller, destination),
            }
        }
    }

    /// Whether a cancellation takes effect, and why not: the record must
    /// exist and be open, the signer must be its buyer, and the destination
    /// must be accepted.
    pub open spec fn cancel_result(self, escrow: Seq<u8>, buyer: Seq<u8>, destination: Seq<u8>)
        -> Result<(), EscrowError> {
        if !self.records.contains_key(escrow) {
            Err(EscrowError::NotFound)
        } else {
            match self.records[escrow].cancel_result(buyer) {
                Err(error) => Err(error),
                Ok(()) => self.destination_result(escrow, buyer, destination),
            }
        }
    }

    /// The ledger after a settlement took effect: the record is settled, its
    /// vault is empty, and the destination holds the record's amount more.
    pub open spec fn settled(self, escrow: Seq<u8>, destination: Seq<u8>) -> LedgerView {
        let record = self.records[escrow];
        let target = self.accounts[destination];
        LedgerView {
            records: self.records.insert(escrow, record.settled()),
            vaults: self.vaults.insert(escrow, self.vaults[escrow].holding(0)),
            accounts: self.accounts.insert(
                destination,
                target.holding(target.balance + record.amount),
            ),
            supply: self.supply,
        }
    }
}

/// The escrow records, their vaults and the parties' token accounts.
#[derive(Debug)]
pub struct Ledger {
    records: RecordStore,
    vaults: Holdings,
    accounts: Holdings,
    supply: u64,
}

impl View for Ledger {
    type V = LedgerView;

    closed spec fn view(&self) -> LedgerView {
        LedgerView {
            records: self.records@,
            vaults: self.vaults@,
            accounts: self.accounts@,
            supply: self.supply as nat,
        }
    }
}

impl Ledger {
    /// The ledger is consistent, and its supply is what its vaults and
    /// accounts hold together.
    pub closed spec fn wf(&self) -> bool {
        &&& self.records.wf()
        &&& self.vaults.wf()
        &&& self.accounts.wf()
        &&& self@.consistent()
        &&& self.supply == self.vaults.total() + self.accounts.total()
    }

    /// A well-formed ledger is consistent, and its supply fits in sixty-four
    /// bits.
    pub proof fn wf_means_consistent(&self)
        requires
            self.wf(),
        ensures
            self@.consistent(),
            self@.supply <= u64::MAX,
    {
    }

    /// A ledger without records, vaults or accounts.
    pub fn new() -> (ledger: Ledger)
        ensures
            ledger.wf(),
            ledger@ == (LedgerView {
                records: Map::empty(),
                vaults: Map::empty(),
                accounts: Map::empty(),
                supply: 0,
            }),
    {
        Ledger {
            records: RecordStore::new(),
            vaults: Holdings::new(),
            accounts: Holdings::new(),
            supply: 0,
        }
    }

    /// The number of tokens in vaults and accounts together.
    pub fn supply(&self) -> (supply: u64)
        ensures
            supply == self@.supply,
    {
        self.supply
    }

    /// What the account under a key holds, or `None` where there is none.
    pub fn balance(&self, account: &Identity) -> (held: Option<u64>)
        requires
            self.wf(),
        ensures
            match held {
                Some(balance) => self@.accounts.contains_key(account@)
                    && self@.accounts[account@].balance == balance,
                None => !self@.accounts.contains_key(account@),
            },
    {
        match self.accounts.get(account) {
            Some(found) => Some(found.balance),
            None => None,
        }
    }

    /// What the vault of the record at an address holds, or `None` where the
    /// address holds no record.
    pub fn vault_balance(&self, escrow: &Identity) -> (held: Option<u64>)
        requires
            self.wf(),
        ensures
            match held {
                Some(balance) => self@.records.contains_key(escrow@) && self@.vault_balance(
                    escrow@,
                ) == balance,
                None => !self@.records.contains_key(escrow@),
            },
    {
        proof {
            if self@.records.contains_key(escrow@) {
                assert(self@.record_sound(escrow@));
            }
            if self@.vaults.contains_key(escrow@) {
                assert(self@.records.contains_key(escrow@));
            }
        }
        match self.vaults.get(escrow) {
            Some(found) => Some(found.balance),
            None => None,
        }
    }

    /// A copy of the record at an address. Fails with `NotFound` where the
    /// address holds none.
    pub fn record(&self, escrow: &Identity) -> (result: Result<Escrow, EscrowError>)
        requires
            self.wf(),
        ensures
            match result {
                Ok(record) => self@.records.contains_key(escrow@) && record@
                    == self@.records[escrow@],
                Err(error) => error == EscrowError::NotFound && !self@.records.contains_key(
                    escrow@,
                ),
            },
    {
        self.records.load(escrow)
    }

    /// Credits `amount` new tokens of a mint to the owner's account under a
    /// key, which is opened where it does not exist. The deposit is refused,
    /// and nothing changes, where the account belongs to someone else or is
    /// of another mint, or the supply would leave sixty-four bits.
    pub fn deposit(
        &mut self,
        account: &Identity,
        owner: &Identity,
        mint: &Identity,
        amount: u64,
    ) -> (taken: bool)
        requires
            old(self).wf(),
        ensures
            final(self).wf(),
            taken == old(self)@.deposit_taken(account@, owner@, mint@, amount),
            taken ==> final(self)@ == old(self)@.deposited(account@, owner@, mint@, amount),
            !taken ==> final(self)@ == old(self)@,
    {
        if amount > u64::MAX - self.supply {
            return false;
        }
        let held: u64 = match self.accounts.get(account) {
            None => 0,
            Some(found) => {
                if !found.authority.same(owner) || !found.mint.same(mint) {
                    return false;
                }
                proof {
                    self.accounts.balance_within_total(account@);
                }
                found.balance
            },
        };
        let credited = TokenAccount {
            key: *account,
            mint: *mint,
            authority: *owner,
            balance: held + amount,
        };
        let ghost before = self@;
        self.accounts.put(account, credited);
        self.supply = self.supply + amount;
        proof {
            let after = self@;
            assert(after == before.deposited(account@, owner@, mint@, amount));
            assert forall|escrow: Seq<u8>| #[trigger]
                after.records.contains_key(escrow) implies after.record_sound(escrow) by {
                assert(before.record_sound(escrow));
            }
        }
        true
    }

    /// Creates the escrow between the buyer and the seller named in the keys,
    /// funded with `amount` tokens of the mint from the buyer's account under
    /// `funding`, and returns the address of its record.
    ///
    /// Fails with `AlreadyExists` where the pair already has a record,
    /// whatever the terms; with `InvalidTerms` where the amount is zero or
    /// the item name takes more than fifty bytes; with `NotFound` where there
    /// is no funding account; with `AuthorityMismatch` where the funding
    /// account is not the buyer's; with `MintMismatch` where it is of another
    /// mint; and with `InsufficientFunds` where it holds less than `amount`.
    pub fn create(
        &mut self,
        keys: &EscrowKeys,
        mint: &Identity,
        funding: &Identity,
        amount: u64,
        item_name: String,
    ) -> (result: Result<Identity, EscrowError>)
        requires
            old(self).wf(),
        ensures
            final(self).wf(),
            match result {
                Ok(handle) => {
                    &&& handle == keys.escrow_id()
                    &&& old(self)@.create_result(*keys, mint@, funding@, amount, item_name@) is Ok
                    &&& final(self)@ == old(self)@.created(
                        *keys,
                        mint@,
                        funding@,
                        amount,
                        item_name@,
                    )
                },
                Err(error) => {
                    &&& old(self)@.create_result(*keys, mint@, funding@, amount, item_name@)
                        == Err::<(), EscrowError>(error)
                    &&& final(self)@ == old(self)@
                },
            },
    {
        let handle = keys.escrow();
        if self.records.contains(&handle) {
            return Err(EscrowError::AlreadyExists);
        }
        if !check_terms(amount, &item_name) {
            return Err(EscrowError::InvalidTerms);
        }
        let source = match self.accounts.get(funding) {
            Some(found) => found,
            None => {
                return Err(EscrowError::NotFound);
            },
        };
        let mut ctx = CreateEscrow {
            keys: *keys,
            mint: *mint,
            escrow: None,
            escrow_vault: None,
            buyer_token_account: source,
        };
        let ghost name = item_name@;
        let ghost before = self@;
        match create_escrow(&mut ctx, amount, item_name) {
            Err(error) => Err(error),
            Ok(()) => {
                let CreateEscrow { keys: _, mint: _, escrow, escrow_vault, buyer_token_account } =
                    ctx;
                let record = escrow.unwrap();
                let vault = escrow_vault.unwrap();
                proof {
                    self.accounts.balance_within_total(funding@);
                }
                let _ = self.records.create(&handle, record);
                self.vaults.put(&handle, vault);
                self.accounts.put(funding, buyer_token_account);
                proof {
                    let after = self@;
                    assert(after == before.created(*keys, mint@, funding@, amount, name));
                    assert forall|escrow: Seq<u8>| #[trigger]
                        after.records.contains_key(escrow) implies after.record_sound(escrow) by {
                        if escrow != handle@ {
                            assert(before.record_sound(escrow));
                        }
                    }
                }
                Ok(handle)
            },
        }
    }

    /// Completes the escrow at an address: pays the record's amount out of
    /// its vault into the seller's account under `destination`.
    ///
    /// Fails with `NotFound` where the address holds no record, with
    /// `AlreadyCompleted` where the record was settled before, with
    /// `AuthorityMismatch` where the signer is not the record's seller, with
    /// `NotFound` where there is no destination account, with
    /// `AuthorityMismatch` where the destination is not the signer's, and
    /// with `MintMismatch` where it is of another mint than the vault.
    pub fn complete(&mut self, escrow: &Identity, seller: &Identity, destination: &Identity) -> (result:
        Result<(), EscrowError>)
        requires
            old(self).wf(),
        ensures
            final(self).wf(),
            result == old(self)@.complete_result(escrow@, seller@, destination@),
            result is Ok ==> final(self)@ == old(self)@.settled(escrow@, destination@),
            result is Err ==> final(self)@ == old(self)@,
    {
        let record = match self.records.load(escrow) {
            Ok(found) => found,
            Err(error) => {
                return Err(error);
            },
        };
        match record.check_complete(seller) {
            Ok(()) => {},
            Err(error) => {
                return Err(error);
            },
        }
        let (vault, target) = match self.load_custody(escrow, destination) {
            Some(loaded) => loaded,
            None => {
                return Err(EscrowError::NotFound);
            },
        };
        let mut ctx = CompleteEscrow {
            escrow: record,
            escrow_vault: vault,
            seller_token_account: target,
            seller: *seller,
        };
        match complete_escrow(&mut ctx) {
            Err(error) => Err(error),
            Ok(()) => {
                let CompleteEscrow { escrow: settled, escrow_vault, seller_token_account, seller: _ } =
                    ctx;
                self.commit_settlement(escrow, destination, settled, escrow_vault, seller_token_account);
                Ok(())
            },
        }
    }

    /// Cancels the escrow at an address: refunds the record's amount out of
    /// its vault into the buyer's account under `destination`.
    ///
    /// Fails with `NotFound` where the address holds no record, with
    /// `AlreadyCompleted` where the record was settled before, with
    /// `UnauthorizedCancel` where the signer is not the record's buyer, with
    /// `NotFound` where there is no destination account, with
    /// `AuthorityMismatch` where the destination is not the signer's, and
    /// with `MintMismatch` where it is of another mint than the vault.
    pub fn cancel(&mut self, escrow: &Identity, buyer: &Identity, destination: &Identity) -> (result:
        Result<(), EscrowError>)
        requires
            old(self).wf(),
        ensures
            final(self).wf(),
            result == old(self)@.cancel_result(escrow@, buyer@, destination@),
            result is Ok ==> final(self)@ == old(self)@.settled(escrow@, destination@),
            result is Err ==> final(self)@ == old(self)@,
    {
        let record = match self.records.load(escrow) {
            Ok(found) => found,
            Err(error) => {
                return Err(error);
            },
        };
        match record.check_cancel(buyer) {
            Ok(()) => {},
            Err(error) => {
                return Err(error);
            },
        }
        let (vault, target) = match self.load_custody(escrow, destination) {
            Some(loaded) => loaded,
            None => {
                return Err(EscrowError::NotFound);
            },
        };
        let mut ctx = CancelEscrow {
            escrow: record,
            escrow_vault: vault,
            buyer_token_account: target,
            buyer: *buyer,
        };
        match cancel_escrow(&mut ctx) {
            Err(error) => Err(error),
            Ok(()) => {
                let CancelEscrow { escrow: settled, escrow_vault, buyer_token_account, buyer: _ } =
                    ctx;
                self.commit_settlement(escrow, destination, settled, escrow_vault, buyer_token_account);
                Ok(())
            },
        }
    }

    /// Loads the vault of a record and the destination of its settlement.
    /// `None` where there is no destination account.
    fn load_custody(&self, escrow: &Identity, destination: &Identity) -> (loaded: Option<
        (TokenAccount, TokenAccount),
    >)
        requires
            self.wf(),
            self@.records.contains_key(escrow@),
        ensures
            match loaded {
                Some((vault, target)) => {
                    &&& self@.accounts.contains_key(destination@)
                    &&& vault@ == self@.vaults[escrow@]
                    &&& target@ == self@.accounts[destination@]
                    &&& vault.balance + target.balance <= u64::MAX
                },
                None => !self@.accounts.contains_key(destination@),
            },
    {
        let target = match self.accounts.get(destination) {
            Some(found) => found,
            None => {
                return None;
            },
        };
        proof {
            assert(self@.record_sound(escrow@));
            self.vaults.balance_within_total(escrow@);
            self.accounts.balance_within_total(destination@);
        }
        let vault = self.vaults.get(escrow).unwrap();
        Some((vault, target))
    }

    /// Writes back the accounts of a settlement that took effect.
    fn commit_settlement(
        &mut self,
        escrow: &Identity,
        destination: &Identity,
        settled: Escrow,
        vault: TokenAccount,
        target: TokenAccount,
    )
        requires
            old(self).wf(),
            old(self)@.records.contains_key(escrow@),
            old(self)@.accounts.contains_key(destination@),
            !old(self)@.records[escrow@].is_completed,
            settled@ == old(self)@.records[escrow@].settled(),
            vault@ == old(self)@.vaults[escrow@].holding(0),
            target@ == old(self)@.accounts[destination@].holding(
                old(self)@.accounts[destination@].balance + old(self)@.records[escrow@].amount,
            ),
        ensures
            final(self).wf(),
            final(self)@ == old(self)@.settled(escrow@, destination@),
    {
        let ghost before = self@;
        proof {
            assert(before.record_sound(escrow@));
        }
        let _ = self.records.store(escrow, settled);
        self.vaults.put(escrow, vault);
        self.accounts.put(destination, target);
        proof {
            let after = self@;
            assert(after == before.settled(escrow@, destination@));
            assert forall|other: Seq<u8>| #[trigger] after.records.contains_key(other) implies after.record_sound(
                other,
            ) by {
                assert(before.records.contains_key(other));
                assert(before.record_sound(other));
            }
        }
    }
}

} // verus!
