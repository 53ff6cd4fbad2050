//! Parameters of the deployment.
use vstd::prelude::*;

verus! {

/// The chain that transactions must be signed for.
pub const CHAIN_ID: u64 = 111;

/// What the gas limit of a transaction signed for no chain is multiplied
/// by.
pub const GAS_LIMIT_MULTIPLIER_NO_CHAINID: u32 = 1000;

/// What the operator pays into the treasury for an invocation that ran
/// the interpreter.
pub const PAYMENT_TO_TREASURE: u64 = 5000;

/// What the host charges for one signature of a transaction.
pub const LAMPORTS_PER_SIGNATURE: u64 = 5000;

/// How many bytes of a transaction one write to a holder carries.
pub const HOLDER_MSG_SIZE: u64 = 950;

/// The cost of keeping one more account in an address lookup table.
pub const ADDRESS_LOOKUP_TABLE_ACCOUNT_COST: u64 = 1000;

/// The instruction that moves the collectible balance of an auxiliary
/// treasury account into the main treasury.
pub const COLLECT_TREASURY_INSTRUCTION: u8 = 30;

} // verus!
