//! Ledger accounts, transactions and splits, and their rendering as
//! line-oriented text records.

pub mod account;
pub mod date;
pub mod split;
pub mod text;
pub mod transaction;
