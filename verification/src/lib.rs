//! Donations on a ledger of accounts, recorded under an identifier.
//!
//! A donation moves native currency or tokens from a donor to a recipient and writes one
//! record, kept at an address that is derived from the identifier. The handlers work on the
//! accounts as plain values and say, for every input, what the ledger is afterwards: a
//! donation goes through whole or changes nothing.
//!
//! - `address`: addresses, and the derivation of a record's address.
//! - `accounts`: the accounts as a handler sees them, and what the ledger hands over.
//! - `state`: the record, and how it is stored.
//! - `instructions`: the two handlers.
//! - `dispatch`: the data of an instruction, the shape of its accounts, the entry points.
//! - `guarantees`: what holds of the handlers over all ledgers.
//! - `wire`: numbers and texts as bytes.
//! - `error`: why a donation is refused.

pub mod accounts;
pub mod address;
pub mod dispatch;
pub mod error;
pub mod guarantees;
pub mod instructions;
pub mod state;
pub mod wire;

pub use crate::accounts::Context;
pub use crate::dispatch::{donate_sol, donate_token};
pub use crate::error::DonationError;
pub use crate::instructions::donate_sol::DonateSol;
pub use crate::instructions::donate_token::DonateToken;
pub use crate::state::donation_record::DonationRecord;
