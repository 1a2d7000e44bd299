//! What holds of every run of the protocol: of any sequence of requests that
//! a ledger accepted, one after the other, from any consistent ledger.

use crate::address::EscrowKeys;
use crate::ledger::LedgerView;
use crate::record::{terms_acceptable, EscrowError, EscrowView};
use vstd::prelude::*;

verus! {

/// A request to the ledger.
pub enum Request {
    /// Credit new tokens of a mint to an owner's account.
    Deposit { account: Seq<u8>, owner: Seq<u8>, mint: Seq<u8>, amount: u64 },
    /// Create the escrow of the keys' buyer and seller.
    Create {
        keys: EscrowKeys,
        mint: Seq<u8>,
        funding: Seq<u8>,
        amount: u64,
        item_name: Seq<char>,
    },
    /// Complete an escrow, signed by the seller.
    Complete { escrow: Seq<u8>, seller: Seq<u8>, destination: Seq<u8> },
    /// Cancel an escrow, signed by the buyer.
    Cancel { escrow: Seq<u8>, buyer: Seq<u8>, destination: Seq<u8> },
}

impl LedgerView {
    /// Whether the ledger lets the request take effect.
    pub open spec fn accepts(self, request: Request) -> bool {
        match request {
            Request::Deposit { account, owner, mint, amount } => self.deposit_taken(
                account,
                owner,
                mint,
                amount,
            ),
            Request::Create { keys, mint, funding, amount, item_name } => {
                &&& keys.is_derived()
                &&& self.create_result(keys, mint, funding, amount, item_name) is Ok
            },
            Request::Complete { escrow, seller, destination } => self.complete_result(
                escrow,
                seller,
                destination,
            ) is Ok,
            Request::Cancel { escrow, buyer, destination } => self.cancel_result(
                escrow,
                buyer,
                destination,
            ) is Ok,
        }
    }

    /// The ledger after a request that it accepted.
    pub open spec fn after(self, request: Request) -> LedgerView {
        match request {
            Request::Deposit { account, owner, mint, amount } => self.deposited(
                account,
                owner,
                mint,
                amount,
            ),
            Request::Create { keys, mint, funding, amount, item_name } => self.created(
                keys,
                mint,
                funding,
                amount,
                item_name,
            ),
            Request::Complete { escrow, seller, destination } => self.settled(escrow, destination),
            Request::Cancel { escrow, buyer, destination } => self.settled(escrow, destination),
        }
    }
}

/// A run: each state accepted the request that led to the next.
pub open spec fn is_run(states: Seq<LedgerView>, requests: Seq<Request>) -> bool {
    &&& states.len() == requests.len() + 1
    &&& forall|i: int|
        0 <= i < requests.len() ==> (#[trigger] states[i]).accepts(requests[i]) && states[i + 1]
            == states[i].after(requests[i])
}

/// The terms of a record: everything but its settlement flag.
pub open spec fn same_terms(before: EscrowView, after: EscrowView) -> bool {
    &&& after.buyer == before.buyer
    &&& after.seller == before.seller
    &&& after.amount == before.amount
    &&& after.item_name == before.item_name
    &&& after.bump == before.bump
}

/// Keys derived for the same buyer and seller name the same record, with the
/// same bump, and the same vault.
pub proof fn one_address_per_pair(first: EscrowKeys, second: EscrowKeys)
    requires
        first.is_derived(),
        second.is_derived(),
        first.buyer_id()@ == second.buyer_id()@,
        first.seller_id()@ == second.seller_id()@,
    ensures
        first.escrow_id()@ == second.escrow_id()@,
        first.bump_seed() == second.bump_seed(),
        first.vault_id()@ == second.vault_id()@,
{
}

/// An accepted request keeps a consistent ledger consistent: afterwards too
/// every vault holds its record's amount while the record is open and
/// nothing once it is settled.
pub proof fn step_keeps_consistent(ledger: LedgerView, request: Request)
    requires
        ledger.consistent(),
        ledger.accepts(request),
    ensures
        ledger.after(request).consistent(),
{
    let next = ledger.after(request);
    assert forall|escrow: Seq<u8>| #[trigger] next.records.contains_key(escrow) implies next.record_sound(
        escrow,
    ) by {
        if ledger.records.contains_key(escrow) {
            assert(ledger.record_sound(escrow));
        }
    }
    assert forall|escrow: Seq<u8>| #[trigger] next.vaults.contains_key(escrow) implies next.records.contains_key(
        escrow,
    ) by {
        if ledger.vaults.contains_key(escrow) {
            assert(ledger.records.contains_key(escrow));
        }
    }
    assert forall|key: Seq<u8>| #[trigger] next.accounts.contains_key(key) implies next.accounts[key].key
        == key by {
        if ledger.accounts.contains_key(key) {
            assert(ledger.accounts[key].key == key);
        }
    }
}

/// An accepted request keeps every record, with its terms, and never reopens
/// a settled one.
pub proof fn step_keeps_records(ledger: LedgerView, request: Request, escrow: Seq<u8>)
    requires
        ledger.accepts(request),
        ledger.records.contains_key(escrow),
    ensures
        ledger.after(request).records.contains_key(escrow),
        same_terms(ledger.records[escrow], ledger.after(request).records[escrow]),
        ledger.records[escrow].is_completed ==> ledger.after(request).records[escrow].is_completed,
{
}

/// A record comes into being by a creation and in no other way: where a
/// request puts a record at an address that held none, the request is the
/// creation of the escrow at that address.
pub proof fn records_come_from_creation(ledger: LedgerView, request: Request, escrow: Seq<u8>)
    requires
        ledger.accepts(request),
        !ledger.records.contains_key(escrow),
        ledger.after(request).records.contains_key(escrow),
    ensures
        request is Create,
        request->Create_keys.escrow_id()@ == escrow,
        !ledger.after(request).records[escrow].is_completed,
{
}

/// Every state of a run from a consistent ledger is consistent.
pub proof fn run_keeps_consistent(states: Seq<LedgerView>, requests: Seq<Request>, at: int)
    requires
        is_run(states, requests),
        states[0].consistent(),
        0 <= at < states.len(),
    ensures
        states[at].consistent(),
    decreases at,
{
    if at > 0 {
        run_keeps_consistent(states, requests, at - 1);
        assert(states[at - 1].accepts(requests[at - 1]));
        step_keeps_consistent(states[at - 1], requests[at - 1]);
    }
}

/// A record that is there at one state of a run is there at every later
/// state, with the same terms, and once settled it stays settled.
pub proof fn run_keeps_records(
    states: Seq<LedgerView>,
    requests: Seq<Request>,
    from: int,
    to: int,
    escrow: Seq<u8>,
)
    requires
        is_run(states, requests),
        0 <= from <= to < states.len(),
        states[from].records.contains_key(escrow),
    ensures
        states[to].records.contains_key(escrow),
        same_terms(states[from].records[escrow], states[to].records[escrow]),
        states[from].records[escrow].is_completed ==> states[to].records[escrow].is_completed,
    decreases to - from,
{
    if from < to {
        run_keeps_records(states, requests, from, to - 1, escrow);
        assert(states[to - 1].accepts(requests[to - 1]));
        step_keeps_records(states[to - 1], requests[to - 1], escrow);
    }
}

/// At most one creation takes effect for a buyer and a seller: once one did,
/// every later creation for the same pair fails with `AlreadyExists`,
/// whatever its mint, its funding and its terms, acceptable or not.
pub proof fn create_is_unique(
    states: Seq<LedgerView>,
    requests: Seq<Request>,
    at: int,
    later: int,
    again: EscrowKeys,
    mint: Seq<u8>,
    funding: Seq<u8>,
    amount: u64,
    item_name: Seq<char>,
)
    requires
        is_run(states, requests),
        0 <= at < later < states.len(),
        requests[at] is Create,
        again.is_derived(),
        again.buyer_id()@ == requests[at]->Create_keys.buyer_id()@,
        again.seller_id()@ == requests[at]->Create_keys.seller_id()@,
    ensures
        states[later].create_result(again, mint, funding, amount, item_name) == Err::<
            (),
            EscrowError,
        >(EscrowError::AlreadyExists),
{
    let first = requests[at]->Create_keys;
    assert(states[at].accepts(requests[at]));
    one_address_per_pair(first, again);
    assert(states[at + 1].records.contains_key(first.escrow_id()@));
    run_keeps_records(states, requests, at + 1, later, first.escrow_id()@);
}

/// Once a record is settled, every later completion and every later
/// cancellation of it fails with `AlreadyCompleted`, whoever signs and
/// whatever the destination.
pub proof fn settlement_is_final(
    states: Seq<LedgerView>,
    requests: Seq<Request>,
    at: int,
    later: int,
    escrow: Seq<u8>,
    signer: Seq<u8>,
    destination: Seq<u8>,
)
    requires
        is_run(states, requests),
        0 <= at <= later < states.len(),
        states[at].records.contains_key(escrow),
        states[at].records[escrow].is_completed,
    ensures
        states[later].complete_result(escrow, signer, destination) == Err::<(), EscrowError>(
            EscrowError::AlreadyCompleted,
        ),
        states[later].cancel_result(escrow, signer, destination) == Err::<(), EscrowError>(
            EscrowError::AlreadyCompleted,
        ),
{
    run_keeps_records(states, requests, at, later, escrow);
}

/// Of two settlements of one escrow the first wins: once a completion or a
/// cancellation took effect, the other one fails with `AlreadyCompleted`.
pub proof fn first_settlement_wins(
    ledger: LedgerView,
    first: Request,
    escrow: Seq<u8>,
    signer: Seq<u8>,
    destination: Seq<u8>,
)
    requires
        ledger.accepts(first),
        (first matches Request::Complete { escrow: settled, .. } && settled == escrow) || (
        first matches Request::Cancel { escrow: settled, .. } && settled == escrow),
    ensures
        ledger.after(first).complete_result(escrow, signer, destination) == Err::<
            (),
            EscrowError,
        >(EscrowError::AlreadyCompleted),
        ledger.after(first).cancel_result(escrow, signer, destination) == Err::<
            (),
            EscrowError,
        >(EscrowError::AlreadyCompleted),
{
}

/// No funds are stuck: while a record is open, its seller can complete it
/// and its buyer can cancel it, each into any account of their own that is of
/// the vault's mint. The vault never refuses its record.
pub proof fn open_escrow_can_be_settled(
    ledger: LedgerView,
    escrow: Seq<u8>,
    signer: Seq<u8>,
    destination: Seq<u8>,
)
    requires
        ledger.records.contains_key(escrow),
        !ledger.records[escrow].is_completed,
        ledger.accounts.contains_key(destination),
        ledger.accounts[destination].authority == signer,
        ledger.accounts[destination].mint == ledger.vaults[escrow].mint,
    ensures
        signer == ledger.records[escrow].seller ==> ledger.complete_result(
            escrow,
            signer,
            destination,
        ) is Ok,
        signer == ledger.records[escrow].buyer ==> ledger.cancel_result(
            escrow,
            signer,
            destination,
        ) is Ok,
{
}

/// A completion of an open record that anyone but the record's seller signs
/// fails with `AuthorityMismatch`, whatever the destination.
pub proof fn only_the_seller_completes(
    ledger: LedgerView,
    escrow: Seq<u8>,
    signer: Seq<u8>,
    destination: Seq<u8>,
)
    requires
        ledger.records.contains_key(escrow),
        !ledger.records[escrow].is_completed,
        signer != ledger.records[escrow].seller,
    ensures
        ledger.complete_result(escrow, signer, destination) == Err::<(), EscrowError>(
            EscrowError::AuthorityMismatch,
        ),
{
}

/// A creation with a zero amount, or with an item name of more than fifty
/// bytes, fails with `InvalidTerms` where the pair has no record yet; and a
/// creation that finds no record, acceptable terms and a funding account of
/// the buyer and of the mint that holds the amount takes effect.
pub proof fn creation_depends_on_the_terms(
    ledger: LedgerView,
    keys: EscrowKeys,
    mint: Seq<u8>,
    funding: Seq<u8>,
    amount: u64,
    item_name: Seq<char>,
)
    requires
        !ledger.records.contains_key(keys.escrow_id()@),
    ensures
        !terms_acceptable(amount, item_name) ==> ledger.create_result(
            keys,
            mint,
            funding,
            amount,
            item_name,
        ) == Err::<(), EscrowError>(EscrowError::InvalidTerms),
        ledger.accounts.contains_key(funding) && ledger.accounts[funding].authority
            == keys.buyer_id()@ && ledger.accounts[funding].mint == mint
            && ledger.accounts[funding].balance >= amount ==> (ledger.create_result(
            keys,
            mint,
            funding,
            amount,
            item_name,
        ) is Ok <==> terms_acceptable(amount, item_name)),
{
}

/// A cancellation of an open record that anyone but the record's buyer signs
/// fails with `UnauthorizedCancel`.
pub proof fn only_the_buyer_cancels(
    ledger: LedgerView,
    escrow: Seq<u8>,
    signer: Seq<u8>,
    destination: Seq<u8>,
)
    requires
        ledger.records.contains_key(escrow),
        !ledger.records[escrow].is_completed,
        signer != ledger.records[escrow].buyer,
    ensures
        ledger.cancel_result(escrow, signer, destination) == Err::<(), EscrowError>(
            EscrowError::UnauthorizedCancel,
        ),
{
}

/// A settlement pays the destination that the signer named, which is the
/// signer's own, and touches no other account. The signer of a completion is
/// the record's seller and the signer of a cancellation is its buyer: a
/// completion pays nobody but the seller's destination.
pub proof fn settlement_pays_the_destination_alone(
    ledger: LedgerView,
    request: Request,
    other: Seq<u8>,
)
    requires
        ledger.accepts(request),
        request is Complete || request is Cancel,
    ensures
        ({
            let (escrow, signer, destination) = match request {
                Request::Complete { escrow, seller, destination } => (escrow, seller, destination),
                Request::Cancel { escrow, buyer, destination } => (escrow, buyer, destination),
                _ => arbitrary(),
            };
            &&& ledger.accounts.contains_key(destination)
            &&& ledger.accounts[destination].authority == signer
            &&& request is Complete ==> signer == ledger.records[escrow].seller
            &&& request is Cancel ==> signer == ledger.records[escrow].buyer
            &&& ledger.after(request).accounts.dom() == ledger.accounts.dom()
            &&& ledger.after(request).accounts[destination].balance
                == ledger.accounts[destination].balance + ledger.records[escrow].amount
            &&& other != destination ==> ledger.after(request).accounts[other]
                == ledger.accounts[other]
        }),
{
    let (escrow, destination) = match request {
        Request::Complete { escrow, seller, destination } => (escrow, destination),
        Request::Cancel { escrow, buyer, destination } => (escrow, destination),
        _ => arbitrary(),
    };
    assert(ledger.after(request).accounts.dom() =~= ledger.accounts.dom());
}

/// A creation moves exactly its amount out of the buyer's account into the
/// new vault, which did not exist before.
pub proof fn creation_fills_the_vault(
    ledger: LedgerView,
    keys: EscrowKeys,
    mint: Seq<u8>,
    funding: Seq<u8>,
    amount: u64,
    item_name: Seq<char>,
)
    requires
        ledger.consistent(),
        ledger.create_result(keys, mint, funding, amount, item_name) is Ok,
    ensures
        ledger.vault_balance(keys.escrow_id()@) == 0,
        ledger.created(keys, mint, funding, amount, item_name).vault_balance(
            keys.escrow_id()@,
        ) == amount,
        ledger.created(keys, mint, funding, amount, item_name).accounts[funding].balance
            + amount == ledger.accounts[funding].balance,
        ledger.created(keys, mint, funding, amount, item_name).records[keys.escrow_id()@].amount
            == amount,
{
    if ledger.vaults.contains_key(keys.escrow_id()@) {
        assert(ledger.records.contains_key(keys.escrow_id()@));
    }
}

/// Tokens are conserved from creation to settlement. Take a run from a
/// consistent ledger in which an escrow is created at one step and settled,
/// by completion or by cancellation, at a later one. Then the amount that the
/// creation took out of the buyer's account is the amount that the settlement
/// put into the destination; the vault held nothing before the creation,
/// exactly that amount at every state between the two steps, and nothing
/// after the settlement.
pub proof fn tokens_are_conserved(
    states: Seq<LedgerView>,
    requests: Seq<Request>,
    created_at: int,
    settled_at: int,
    between: int,
)
    requires
        is_run(states, requests),
        states[0].consistent(),
        0 <= created_at < between <= settled_at < requests.len(),
        requests[created_at] is Create,
        requests[settled_at] is Complete || requests[settled_at] is Cancel,
        requests[created_at]->Create_keys.escrow_id()@ == (match requests[settled_at] {
            Request::Complete { escrow, .. } => escrow,
            Request::Cancel { escrow, .. } => escrow,
            _ => arbitrary(),
        }),
    ensures
        ({
            let escrow = requests[created_at]->Create_keys.escrow_id()@;
            let funding = requests[created_at]->Create_funding;
            let amount = requests[created_at]->Create_amount;
            let destination = match requests[settled_at] {
                Request::Complete { destination, .. } => destination,
                Request::Cancel { destination, .. } => destination,
                _ => arbitrary(),
            };
            &&& states[created_at].vault_balance(escrow) == 0
            &&& states[created_at].accounts[funding].balance - states[created_at
                + 1].accounts[funding].balance == amount
            &&& states[between].vault_balance(escrow) == amount
            &&& states[settled_at + 1].accounts[destination].balance
                - states[settled_at].accounts[destination].balance == amount
            &&& states[settled_at + 1].vault_balance(escrow) == 0
        }),
{
    let keys = requests[created_at]->Create_keys;
    let escrow = keys.escrow_id()@;
    let mint = requests[created_at]->Create_mint;
    let funding = requests[created_at]->Create_funding;
    let amount = requests[created_at]->Create_amount;
    let item_name = requests[created_at]->Create_item_name;
    assert(states[created_at].accepts(requests[created_at]));
    assert(states[settled_at].accepts(requests[settled_at]));
    run_keeps_consistent(states, requests, created_at);
    creation_fills_the_vault(states[created_at], keys, mint, funding, amount, item_name);
    run_keeps_records(states, requests, created_at + 1, between, escrow);
    run_keeps_records(states, requests, between, settled_at, escrow);
    run_keeps_consistent(states, requests, between);
    run_keeps_consistent(states, requests, settled_at);
    assert(states[between].record_sound(escrow));
    assert(states[settled_at].record_sound(escrow));
    assert(!states[settled_at].records[escrow].is_completed);
    assert(!states[between].records[escrow].is_completed);
}

} // verus!
