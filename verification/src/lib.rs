//! Custodial escrow for fungible-token trades between a buyer and a seller.
//!
//! A buyer locks tokens in a vault that only the escrow record's derived
//! identity controls. The tokens leave the vault exactly once: to the seller
//! when the trade completes, or back to the buyer when it is cancelled.
//!
//! - [`address`] derives the addresses of records and vaults.
//! - [`record`] and [`layout`] hold the escrow record and its stored form.
//! - [`custody`] moves tokens between custody accounts.
//! - [`engine`] decides the three transitions on the accounts loaded for them.
//! - [`store`], [`holdings`] and [`ledger`] keep records, vaults and accounts
//!   together and run the transitions on them.
//! - [`history`] states what holds of every run of the protocol.

pub mod address;
pub mod custody;
pub mod engine;
pub mod history;
pub mod holdings;
pub mod identity;
pub mod layout;
pub mod ledger;
pub mod record;
pub mod store;
pub mod table;

pub use address::{program_id, EscrowKeys};
pub use custody::{TokenAccount, TokenAccountView};
pub use engine::{
    cancel_escrow, complete_escrow, create_escrow, CancelEscrow, CompleteEscrow, CreateEscrow,
};
pub use holdings::Holdings;
pub use identity::Identity;
pub use ledger::{Ledger, LedgerView};
pub use record::{Escrow, EscrowError, EscrowView};
pub use store::RecordStore;
