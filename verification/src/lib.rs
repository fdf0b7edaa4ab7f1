//! A staking ledger: per-owner records of staked principal that accrue
//! time-weighted points at a fixed rate.
//!
//! `accrual` holds the point formula and the roll-forward of a record to
//! the present. `instructions` holds the operations on a record: each one
//! decides, from plain values, whether it is accepted, what the record
//! becomes, and which outside effect (a transfer, a mint) belongs to it.
//! The host carries that effect out and keeps the new record only if it
//! succeeded. `laws` states what holds of all of them.

pub mod account;
pub mod accrual;
pub mod derivation;
pub mod error;
pub mod identity;
pub mod instructions;
pub mod laws;
pub mod reward;
