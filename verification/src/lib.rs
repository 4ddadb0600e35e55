//! Account lifecycle and transaction-fee core of a multi-currency ledger.
//!
//! The crate models the ledger state (per-account, per-currency free and
//! reserved balances, plus the account record store) as plain data and
//! verifies the rules that govern it: when an account comes into existence,
//! when it may be closed, how a deposit is reserved on creation, and how
//! transaction fees are collected, prioritised and reconciled.
//!
//! - [`model`]: the mathematical model of both stores;
//! - [`state`]: configuration and the primitive ledger operations;
//! - [`tracker`] and [`tracker_laws`]: account existence, its notifications
//!   and their exactly-once laws;
//! - [`closer`]: the all-or-nothing account teardown;
//! - [`hook`]: the auto-open-on-receive swap hook;
//! - [`fee`] and [`fee_laws`]: the fee-charging extension and the
//!   monotonicity of its priority formula;
//! - [`wire`]: the extension's wire identity over the SCALE compact codec;
//! - [`commands`]: data of the host's genesis-export commands.
//!
//! What is deliberately outside: the real balance storage and its locks, the
//! exchange's pricing, the fee formula over weights, and the host's I/O.
//! They enter as plain values (endowments, swap verdicts, computed fees),
//! and every operation is verified for all values of them.

pub mod model;
pub mod state;
pub mod tracker;
pub mod tracker_laws;
pub mod closer;
pub mod hook;
pub mod fee;
pub mod fee_laws;
pub mod wire;
pub mod commands;

use vstd::prelude::*;

verus! {

/// Balance amount of any currency.
pub type Balance = u128;

/// Identity of an account.
pub type AccountId = u64;

/// Identity of a currency.
pub type CurrencyId = u32;

/// Dispatch weight of a transaction.
pub type Weight = u64;

/// Scheduling priority of a transaction.
pub type TransactionPriority = u64;

} // verus!
