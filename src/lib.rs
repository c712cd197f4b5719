//! A time-locked vault: each owner has one vault account whose address is
//! derived from the owner's key. Deposits are always accepted; withdrawals
//! are accepted only before a fixed cutoff instant and only while the vault
//! keeps its rent-exempt reserve.

pub mod accounts;
pub mod address;
pub mod laws;
pub mod vault;
