//! What the program offers to the contracts that it runs.
pub mod precompile;
