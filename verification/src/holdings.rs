//! Custody accounts under their keys, with the total of the tokens they hold.

use crate::custody::{TokenAccount, TokenAccountView};
use crate::identity::Identity;
use crate::table::Table;
use vstd::prelude::*;

verus! {

/// The sum of the balances of a sequence of accounts.
pub open spec fn sum_of_balances(accounts: Seq<TokenAccountView>) -> nat
    decreases accounts.len(),
{
    if accounts.len() == 0 {
        0
    } else {
        sum_of_balances(accounts.drop_last()) + accounts.last().balance
    }
}

/// Adding an account adds its balance to the sum.
pub proof fn sum_after_push(accounts: Seq<TokenAccountView>, account: TokenAccountView)
    ensures
        sum_of_balances(accounts.push(account)) == sum_of_balances(accounts) + account.balance,
{
    assert(accounts.push(account).drop_last() =~= accounts);
}

/// Replacing an account replaces its balance in the sum, and no account
/// holds more than the sum.
pub proof fn sum_after_update(accounts: Seq<TokenAccountView>, at: int, account: TokenAccountView)
    requires
        0 <= at < accounts.len(),
    ensures
        accounts[at].balance <= sum_of_balances(accounts),
        sum_of_balances(accounts.update(at, account)) == sum_of_balances(accounts)
            - accounts[at].balance + account.balance,
    decreases accounts.len(),
{
    let updated = accounts.update(at, account);
    if at == accounts.len() - 1 {
        assert(updated.drop_last() =~= accounts.drop_last());
    } else {
        sum_after_update(accounts.drop_last(), at, account);
        assert(updated.drop_last() =~= accounts.drop_last().update(at, account));
    }
}

/// Custody accounts under their keys.
#[derive(Debug)]
pub struct Holdings {
    table: Table<TokenAccount>,
}

impl View for Holdings {
    type V = Map<Seq<u8>, TokenAccountView>;

    closed spec fn view(&self) -> Map<Seq<u8>, TokenAccountView> {
        self.table@
    }
}

impl Holdings {
    /// No key holds two accounts.
    pub closed spec fn wf(&self) -> bool {
        self.table.wf()
    }

    /// The number of tokens that the accounts hold together.
    pub closed spec fn total(&self) -> nat {
        sum_of_balances(self.table.value_seq())
    }

    /// No account holds more than all accounts together.
    pub proof fn balance_within_total(&self, key: Seq<u8>)
        requires
            self.wf(),
            self@.contains_key(key),
        ensures
            self@[key].balance <= self.total(),
    {
        let at = self.table.key_seq().index_of(key);
        self.table.place_of_key(at);
        sum_after_update(self.table.value_seq(), at, self.table.value_seq()[at]);
    }

    /// Holdings without accounts.
    pub fn new() -> (holdings: Holdings)
        ensures
            holdings.wf(),
            holdings@ == Map::<Seq<u8>, TokenAccountView>::empty(),
            holdings.total() == 0,
    {
        Holdings { table: Table::new() }
    }

    /// The account under a key, or `None` where there is none.
    pub fn get(&self, key: &Identity) -> (found: Option<TokenAccount>)
        requires
            self.wf(),
        ensures
            match found {
                Some(account) => self@.contains_key(key@) && account@ == self@[key@],
                None => !self@.contains_key(key@),
            },
    {
        match self.table.position(key) {
            Some(at) => Some(*self.table.get(at)),
            None => None,
        }
    }

    /// Puts an account under a key, in place of the one that was there.
    pub fn put(&mut self, key: &Identity, account: TokenAccount)
        requires
            old(self).wf(),
        ensures
            final(self).wf(),
            final(self)@ == old(self)@.insert(key@, account@),
            final(self).total() == old(self).total() - (if old(self)@.contains_key(key@) {
                old(self)@[key@].balance
            } else {
                0
            }) + account.balance,
    {
        match self.table.position(key) {
            Some(at) => {
                proof {
                    sum_after_update(self.table.value_seq(), at as int, account@);
                }
                self.table.replace(at, account);
            },
            None => {
                proof {
                    sum_after_push(self.table.value_seq(), account@);
                }
                self.table.append(*key, account);
            },
        }
    }
}

} // verus!
