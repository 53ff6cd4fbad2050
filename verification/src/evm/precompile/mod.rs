//! Precompiled contracts.
pub mod big_mod_exp;
