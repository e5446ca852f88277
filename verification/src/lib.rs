//! A small in-memory ledger.
//!
//! An [`Account`] holds an identifier, a holder name and a balance that
//! deposits and withdrawals change; a [`Bank`] owns accounts in the order in
//! which they were registered and reports on them. Every function carries a
//! contract that Verus proves.

pub mod account;
pub mod bank;
pub mod decimal;
pub mod error;

pub use crate::account::{Account, AccountView};
pub use crate::bank::Bank;
pub use crate::error::AccountError;
