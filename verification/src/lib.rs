//! An Ethereum-compatible execution engine hosted by a ledger program.
//!
//! An invocation of the host is bounded by a compute budget, so a
//! transaction is executed over several invocations: it is decoded and
//! begun from the account that holds its bytes, suspended in an account of
//! its own whenever the step budget of an invocation runs out, resumed by
//! the next invocation, and replaced by a marker once it has ended.
//!
//! This crate holds the decisions of that machine, each with its
//! contract: what role an account plays ([`account`]), how a transaction
//! is decoded and whom it comes from ([`types::transaction`]), how gas is
//! metered ([`gasometer`]), how an invocation begins or continues a
//! transaction and how it ends ([`instruction`]), how the treasury pool is
//! swept ([`commands::collect_treasury`]), and how the reason of a revert
//! travels ([`error`]). It does not hold the interpreter, and it does not
//! talk to the ledger: both are the caller's.
pub mod account;
pub mod commands;
pub mod config;
pub mod error;
pub mod evm;
pub mod gasometer;
pub mod instruction;
pub mod neon_elf;
pub mod types;
