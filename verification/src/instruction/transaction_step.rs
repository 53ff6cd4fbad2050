//! The end of an invocation.
//!
//! An invocation runs the interpreter for a bounded number of steps. What
//! the run used is charged, the total is stored with the transaction, and
//! the transaction is either kept for the next invocation or, where the
//! run came to an end, replaced by its marker.
use crate::account::state::{FinalizedState, State};
use crate::config::PAYMENT_TO_TREASURE;
use crate::error::{is_out_of_gas, Result};
use crate::gasometer::Gasometer;
use crate::types::uint::U256;
use vstd::prelude::*;

verus! {

/// How a run of the interpreter ended.
#[derive(Debug, Clone, PartialEq, Eq)]
pub enum ExitStatus {
    Stop,
    Return(Vec<u8>),
    Revert(Vec<u8>),
    Suicide,
    /// The run used up its steps before the transaction ended.
    StepLimit,
}

/// What a run of the interpreter hands back.
#[derive(Debug, Clone, PartialEq, Eq)]
pub struct Run {
    /// How many steps were executed.
    pub steps_executed: u64,
    /// The gas that the steps used.
    pub gas_used: U256,
    /// How the run ended.
    pub exit_status: ExitStatus,
    /// The continuation of the interpreter, from which the next run
    /// resumes.
    pub continuation: Vec<u8>,
}

/// Whether a transaction is ended by the account being kept or replaced.
#[derive(Debug, Clone, Copy, PartialEq, Eq)]
pub enum Completion {
    /// The transaction goes on: the state is to be stored again.
    Suspended,
    /// The transaction has ended: the marker is to be stored in place of
    /// the state.
    Finalized(FinalizedState),
}

/// What an invocation leaves to be done on the ledger.
#[derive(Debug, Clone, Copy, PartialEq, Eq)]
pub struct Settlement {
    pub completion: Completion,
    /// What the operator pays into the treasury.
    pub treasury_payment: u64,
}

/// What an invocation that executed `steps_executed` steps pays into the
/// treasury.
pub open spec fn treasury_payment(steps_executed: u64) -> u64 {
    if steps_executed > 0 {
        PAYMENT_TO_TREASURE
    } else {
        0
    }
}

/// Ends an invocation.
///
/// The gas that the run used is charged. Where that takes the total past
/// the limit, the invocation fails with the out-of-gas condition and the
/// state is left as it was. Otherwise the total is stored in the state:
/// it has not decreased and does not exceed the limit. A run that used
/// up its steps leaves the state with the new continuation; any other
/// run ends the transaction.
pub fn finalize(storage: &mut State, gasometer: Gasometer, run: Run) -> (r: Result<Settlement>)
    requires
        old(storage).wf(),
        gasometer.wf(),
        gasometer.limit() == old(storage).gas_limit@,
        gasometer.paid() == old(storage).gas_used@,
    ensures
        final(storage).wf(),
        final(storage).owner == old(storage).owner,
        final(storage).transaction_hash == old(storage).transaction_hash,
        final(storage).caller == old(storage).caller,
        final(storage).gas_limit == old(storage).gas_limit,
        final(storage).accounts == old(storage).accounts,
        final(storage).gas_used@ >= old(storage).gas_used@,
        match r {
            Ok(settlement) => {
                &&& run.gas_used@ <= gasometer.left()
                &&& final(storage).gas_used@ == gasometer.total() + run.gas_used@
                &&& settlement.treasury_payment == treasury_payment(run.steps_executed)
                &&& match settlement.completion {
                    Completion::Suspended => run.exit_status is StepLimit
                        && final(storage).continuation == run.continuation,
                    Completion::Finalized(marker) => !(run.exit_status is StepLimit)
                        && final(storage).continuation == old(storage).continuation
                        && marker.owner == old(storage).owner && marker.transaction_hash
                        == old(storage).transaction_hash,
                }
            },
            Err(e) => {
                &&& run.gas_used@ > gasometer.left()
                &&& *final(storage) == *old(storage)
                &&& is_out_of_gas(e, gasometer.left(), run.gas_used@)
            },
        },
{
    let mut gasometer = gasometer;
    match gasometer.charge(run.gas_used) {
        Ok(()) => {},
        Err(e) => { return Err(e); },
    }
    proof {
        gasometer.lemma_wf();
    }
    storage.gas_used = gasometer.used_gas_total();
    let treasury_payment = if run.steps_executed > 0 {
        PAYMENT_TO_TREASURE
    } else {
        0
    };
    let completion = match run.exit_status {
        ExitStatus::StepLimit => {
            storage.continuation = run.continuation;
            Completion::Suspended
        },
        _ => Completion::Finalized(storage.finalize()),
    };
    Ok(Settlement { completion, treasury_payment })
}

} // verus!
