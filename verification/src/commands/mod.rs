//! The decisions of the maintenance commands.
pub mod collect_treasury;
