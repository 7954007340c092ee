//! Verified core of two Solana programs written against `pinocchio`:
//! a lamport vault (deposit into a program-derived account, withdraw all
//! but the rent-exempt minimum) and a data store (keep a caller's bytes in a
//! program-derived account funded to exactly its rent-exempt minimum).
//!
//! Accounts are modelled as plain values ([`account::Account`]); the
//! functions here decide what happens to them and return the changes to
//! apply (lamport values, accounts to create, transfers to invoke).

pub mod error;
pub mod account;
pub mod pda;
pub mod base58;
pub mod rent;
pub mod vault;
pub mod storage;
pub mod client;
pub mod effects;
pub mod laws;
