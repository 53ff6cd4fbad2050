//! The instructions of the program that execute a transaction step by
//! step.
pub mod transaction_step;
pub mod transaction_step_from_account;
