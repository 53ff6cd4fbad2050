//! The values that the program computes with: keys and addresses,
//! 256-bit integers, byte strings read as numbers, RLP items and signed
//! transactions.
pub mod address;
pub mod bytes;
pub mod rlp_data;
pub mod transaction;
pub mod uint;

pub use address::{Address, Pubkey};
pub use transaction::Transaction;
pub use uint::U256;
