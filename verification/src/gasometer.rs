//! Gas accounting for one invocation.
//!
//! A transaction is executed over several invocations. What the earlier
//! ones used is stored with the transaction; the meter of an invocation
//! starts from it, adds the named costs of this invocation, and hands the
//! total back to be stored. No charge ever takes the total past the limit.
use crate::config::{
    ADDRESS_LOOKUP_TABLE_ACCOUNT_COST, HOLDER_MSG_SIZE, LAMPORTS_PER_SIGNATURE,
};
use crate::error::{is_out_of_gas, Error, Result};
use crate::types::uint::{lemma_u256_bound, u256_max, U256};
use vstd::prelude::*;

verus! {

/// The fixed cost of being resumable: the last iteration may have to be
/// repeated, and an abandoned transaction has to be cancelled.
pub const ITERATIVE_OVERHEAD: u64 = 10000;

/// The cost of one write to a holder.
pub const WRITE_TO_HOLDER_TRX_COST: u64 = 5000;

/// The cost of keeping `additional_accounts` accounts in an address
/// lookup table.
pub open spec fn address_lookup_table_cost(additional_accounts: nat) -> nat {
    additional_accounts * ADDRESS_LOOKUP_TABLE_ACCOUNT_COST as nat
}

/// The cost of writing a transaction of `size` bytes to a holder: one
/// write for every `HOLDER_MSG_SIZE` bytes, the last one counted in full.
pub open spec fn write_to_holder_cost(size: nat) -> nat {
    ((size + HOLDER_MSG_SIZE - 1) / HOLDER_MSG_SIZE as int) as nat * WRITE_TO_HOLDER_TRX_COST as nat
}

/// The gas meter of one invocation.
#[derive(Debug, Clone, Copy, PartialEq, Eq, Structural)]
pub struct Gasometer {
    paid_gas: U256,
    gas: U256,
    gas_limit: U256,
}

impl Gasometer {
    /// The total never exceeds the limit.
    pub closed spec fn wf(&self) -> bool {
        self.paid_gas@ + self.gas@ <= self.gas_limit@
    }

    /// What earlier invocations used.
    pub closed spec fn paid(&self) -> nat {
        self.paid_gas@
    }

    /// What this invocation has been charged.
    pub closed spec fn used(&self) -> nat {
        self.gas@
    }

    /// The most that the transaction may use.
    pub closed spec fn limit(&self) -> nat {
        self.gas_limit@
    }

    /// What the transaction has used in all.
    pub open spec fn total(&self) -> nat {
        self.paid() + self.used()
    }

    /// What may still be charged.
    pub open spec fn left(&self) -> nat {
        (self.limit() - self.total()) as nat
    }

    /// What a meter in order guarantees.
    pub proof fn lemma_wf(&self)
        requires
            self.wf(),
        ensures
            self.total() <= self.limit(),
            self.limit() <= u256_max(),
    {
        lemma_u256_bound(self.gas_limit);
    }

    /// A meter that starts from what earlier invocations used, or from
    /// nothing. It is refused where that is already more than the limit.
    pub fn new(paid_gas: Option<U256>, gas_limit: U256) -> (r: Result<Gasometer>)
        ensures
            match r {
                Ok(meter) => {
                    &&& meter.wf()
                    &&& meter.paid() == match paid_gas {
                        Some(paid) => paid@,
                        None => 0,
                    }
                    &&& meter.used() == 0
                    &&& meter.limit() == gas_limit@
                },
                Err(e) => paid_gas matches Some(paid) && paid@ > gas_limit@ && is_out_of_gas(
                    e,
                    gas_limit@,
                    paid@,
                ),
            },
    {
        let paid = match paid_gas {
            Some(paid) => paid,
            None => U256::zero(),
        };
        if gas_limit.lt(&paid) {
            return Err(Error::OutOfGas(gas_limit, paid));
        }
        Ok(Gasometer { paid_gas: paid, gas: U256::zero(), gas_limit })
    }

    /// What earlier invocations used.
    pub fn paid_gas(&self) -> (r: U256)
        ensures
            r@ == self.paid(),
    {
        self.paid_gas
    }

    /// What this invocation has been charged.
    pub fn used_gas(&self) -> (r: U256)
        ensures
            r@ == self.used(),
    {
        self.gas
    }

    /// What the transaction has used in all: this is what is stored with
    /// the transaction when the invocation ends.
    pub fn used_gas_total(&self) -> (r: U256)
        requires
            self.wf(),
        ensures
            r@ == self.total(),
    {
        proof {
            self.lemma_wf();
        }
        self.paid_gas.saturating_add(&self.gas)
    }

    /// The most that the transaction may use.
    pub fn gas_limit(&self) -> (r: U256)
        ensures
            r@ == self.limit(),
    {
        self.gas_limit
    }

    /// What may still be charged.
    pub fn remaining(&self) -> (r: U256)
        requires
            self.wf(),
        ensures
            r@ == self.left(),
    {
        let total = self.used_gas_total();
        match self.gas_limit.checked_sub(&total) {
            Some(left) => left,
            None => U256::zero(),
        }
    }

    /// Charges `amount`. Where that would take the total past the limit,
    /// nothing is charged, and the error carries what was available and
    /// what was asked for.
    pub fn charge(&mut self, amount: U256) -> (r: Result<()>)
        requires
            old(self).wf(),
        ensures
            final(self).wf(),
            final(self).paid() == old(self).paid(),
            final(self).limit() == old(self).limit(),
            match r {
                Ok(()) => amount@ <= old(self).left() && final(self).used() == old(self).used()
                    + amount@,
                Err(e) => amount@ > old(self).left() && *final(self) == *old(self)
                    && is_out_of_gas(e, old(self).left(), amount@),
            },
    {
        let left = self.remaining();
        if left.lt(&amount) {
            return Err(Error::OutOfGas(left, amount));
        }
        proof {
            self.lemma_wf();
        }
        self.gas = self.gas.saturating_add(&amount);
        Ok(())
    }

    /// Charges the base cost of the host transaction that carries this
    /// invocation.
    pub fn record_solana_transaction_cost(&mut self) -> (r: Result<()>)
        requires
            old(self).wf(),
        ensures
            final(self).wf(),
            final(self).paid() == old(self).paid(),
            final(self).limit() == old(self).limit(),
            r is Ok <==> LAMPORTS_PER_SIGNATURE <= old(self).left(),
            r is Ok ==> final(self).used() == old(self).used() + LAMPORTS_PER_SIGNATURE,
            r is Err ==> *final(self) == *old(self) && is_out_of_gas(
                r->Err_0,
                old(self).left(),
                LAMPORTS_PER_SIGNATURE as nat,
            ),
    {
        self.charge(U256::from_u64(LAMPORTS_PER_SIGNATURE))
    }

    /// Charges the fixed overhead of executing a transaction iteratively.
    pub fn record_iterative_overhead(&mut self) -> (r: Result<()>)
        requires
            old(self).wf(),
        ensures
            final(self).wf(),
            final(self).paid() == old(self).paid(),
            final(self).limit() == old(self).limit(),
            r is Ok <==> ITERATIVE_OVERHEAD <= old(self).left(),
            r is Ok ==> final(self).used() == old(self).used() + ITERATIVE_OVERHEAD,
            r is Err ==> *final(self) == *old(self) && is_out_of_gas(
                r->Err_0,
                old(self).left(),
                ITERATIVE_OVERHEAD as nat,
            ),
    {
        self.charge(U256::from_u64(ITERATIVE_OVERHEAD))
    }

    /// Charges for the address lookup table that holds the accounts
    /// which a transaction names beyond the fixed ones.
    pub fn record_address_lookup_table(&mut self, additional_accounts: usize) -> (r: Result<()>)
        requires
            old(self).wf(),
        ensures
            final(self).wf(),
            final(self).paid() == old(self).paid(),
            final(self).limit() == old(self).limit(),
            r is Ok <==> address_lookup_table_cost(additional_accounts as nat) <= old(self).left(),
            r is Ok ==> final(self).used() == old(self).used() + address_lookup_table_cost(
                additional_accounts as nat,
            ),
            r is Err ==> *final(self) == *old(self) && is_out_of_gas(
                r->Err_0,
                old(self).left(),
                address_lookup_table_cost(additional_accounts as nat),
            ),
    {
        let count = additional_accounts as u128;
        let rate = ADDRESS_LOOKUP_TABLE_ACCOUNT_COST as u128;
        assert(count * rate <= u128::MAX) by (nonlinear_arith)
            requires
                count <= 0xffff_ffff_ffff_ffff,
                rate == 1000,
        ;
        let cost: u128 = count * rate;
        self.charge(U256::new(cost))
    }

    /// Charges for the writes that put a transaction of `rlp_len` bytes
    /// into its holder.
    pub fn record_write_to_holder(&mut self, rlp_len: usize) -> (r: Result<()>)
        requires
            old(self).wf(),
        ensures
            final(self).wf(),
            final(self).paid() == old(self).paid(),
            final(self).limit() == old(self).limit(),
            r is Ok <==> write_to_holder_cost(rlp_len as nat) <= old(self).left(),
            r is Ok ==> final(self).used() == old(self).used() + write_to_holder_cost(
                rlp_len as nat,
            ),
            r is Err ==> *final(self) == *old(self) && is_out_of_gas(
                r->Err_0,
                old(self).left(),
                write_to_holder_cost(rlp_len as nat),
            ),
    {
        let size = rlp_len as u128;
        let writes: u128 = (size + (HOLDER_MSG_SIZE as u128 - 1)) / (HOLDER_MSG_SIZE as u128);
        let rate = WRITE_TO_HOLDER_TRX_COST as u128;
        assert(writes * rate <= u128::MAX) by (nonlinear_arith)
            requires
                writes <= 0x1_0000_0000_0000_0000,
                rate == 5000,
        ;
        let cost: u128 = writes * rate;
        self.charge(U256::new(cost))
    }
}

} // verus!
