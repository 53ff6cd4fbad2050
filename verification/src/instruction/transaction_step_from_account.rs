//! Beginning or continuing a transaction from an account.
//!
//! One instruction serves both. The account that it is aimed at decides:
//! a holder begins the transaction that it keeps, a state continues the
//! transaction that it is, the marker of an ended transaction refuses,
//! and nothing else is accepted. What comes out is what the interpreter
//! is to be run on; the run itself, and what follows it, come after.
use crate::account::holder::{holder_of, Holder};
use crate::account::state::{
    account_keys, keys_view, lemma_pubkey_of, pubkey_of, restored_state, State, StateModel,
};
use crate::account::{
    account_tag, check_key, ethereum_account, found_program_address, role, role_of_tag,
    system_program_id, tag, treasury_seeds, Account, AccountRole, EthereumAccount, Operator,
    Treasury, TAG_FINALIZED_STATE, TAG_HOLDER,
};
use crate::config::{CHAIN_ID, GAS_LIMIT_MULTIPLIER_NO_CHAINID, LAMPORTS_PER_SIGNATURE};
use crate::error::{is_out_of_gas, Error, Result};
use crate::gasometer::{
    address_lookup_table_cost, write_to_holder_cost, Gasometer, ITERATIVE_OVERHEAD,
};
use crate::types::address::{Address, Pubkey};
use crate::types::bytes::{extend_bytes, le_nat, u32_from_le};
use crate::types::transaction::{
    chain_id_accepted, decoded_transaction, is_transaction, recovered_caller, Transaction,
    TransactionModel,
};
use crate::types::uint::{lemma_u256_of, u256_max, u256_of, U256};
use vstd::prelude::*;

verus! {

/// The accounts of an invocation, by what they are for.
pub struct Accounts<'a> {
    pub operator: Operator,
    pub treasury: Treasury,
    pub operator_ether_account: EthereumAccount,
    pub system_program: Pubkey,
    pub neon_program: Pubkey,
    /// The accounts that the transaction declares.
    pub remaining_accounts: &'a [Account],
    pub all_accounts: &'a [Account],
}

/// What the interpreter is to be run on.
#[derive(Debug, Clone, PartialEq, Eq)]
pub enum Step {
    /// A transaction that has just been begun.
    Begin {
        storage: State,
        gasometer: Gasometer,
        trx: Transaction,
        caller: Address,
        step_count: u64,
    },
    /// A transaction that is resumed.
    Continue { storage: State, gasometer: Gasometer, step_count: u64 },
}

/// What the interpreter is to be run on, as mathematical values: the
/// state, what this invocation has been charged so far, and the step
/// budget; for a transaction that has just been begun, also the
/// transaction and its sender. What earlier invocations used is the gas
/// used of the state, and the limit is the state's.
pub enum StepModel {
    Begin {
        storage: StateModel,
        charged: nat,
        trx: TransactionModel,
        caller: Seq<u8>,
        step_count: u64,
    },
    Continue { storage: StateModel, charged: nat, step_count: u64 },
}

/// Why an invocation is refused: with exactly this error, or with one of
/// the decoder's for a transaction that cannot be decoded.
pub enum Refusal {
    Exactly(Error),
    Undecodable,
}

/// The 32 bytes as an array.
pub open spec fn hash_of(bytes: Seq<u8>) -> [u8; 32] {
    choose|hash: [u8; 32]| hash@ == bytes
}

/// The array of the bytes of an array is that array.
pub proof fn lemma_hash_of(hash: [u8; 32])
    ensures
        hash_of(hash@) == hash,
{
    assert(hash_of(hash@)@ == hash@);
}

/// What charging `cost` gives where `used` of `limit` is used already:
/// the new use, or what was available and what was asked for.
pub open spec fn charged(limit: nat, used: nat, cost: nat) -> core::result::Result<
    nat,
    (nat, nat),
> {
    if used + cost > limit {
        Err(((limit - used) as nat, cost))
    } else {
        Ok(used + cost)
    }
}

/// What charging the costs of beginning a transaction gives, in the
/// order in which they are charged: the host transaction, the address
/// lookup table for the declared accounts, the overhead of executing
/// iteratively, and the writes that filled the holder.
pub open spec fn begin_charges(
    limit: nat,
    declared_accounts: nat,
    rlp_len: nat,
) -> core::result::Result<nat, (nat, nat)> {
    match charged(limit, 0, LAMPORTS_PER_SIGNATURE as nat) {
        Err(e) => Err(e),
        Ok(first) => match charged(limit, first, address_lookup_table_cost(declared_accounts)) {
            Err(e) => Err(e),
            Ok(second) => match charged(limit, second, ITERATIVE_OVERHEAD as nat) {
                Err(e) => Err(e),
                Ok(third) => charged(limit, third, write_to_holder_cost(rlp_len)),
            },
        },
    }
}

/// The gas limit of the state of a transaction: the limit that the
/// transaction names, multiplied for a transaction signed for no chain.
pub open spec fn begin_gas_limit(trx: TransactionModel) -> nat {
    if trx.chain_id is None {
        if trx.gas_limit * GAS_LIMIT_MULTIPLIER_NO_CHAINID as nat <= u256_max() {
            trx.gas_limit * GAS_LIMIT_MULTIPLIER_NO_CHAINID as nat
        } else {
            u256_max()
        }
    } else {
        trx.gas_limit
    }
}

/// What beginning a transaction gives once its sender is known: the
/// state of the transaction and the use of the meter after the costs of
/// beginning have been charged, or the out-of-gas condition of the first
/// cost that the limit does not cover.
pub open spec fn begin_state_outcome(
    trx: TransactionModel,
    caller: Seq<u8>,
    operator: Operator,
    declared: Seq<Account>,
    step_count: u64,
) -> core::result::Result<StepModel, Refusal> {
    match begin_charges(begin_gas_limit(trx), declared.len(), trx.rlp_len) {
        Err((available, requested)) => Err(
            Refusal::Exactly(Error::OutOfGas(u256_of(available), u256_of(requested))),
        ),
        Ok(used) => Ok(
            StepModel::Begin {
                storage: StateModel {
                    owner: operator.key@,
                    transaction_hash: trx.hash,
                    caller,
                    gas_limit: begin_gas_limit(trx),
                    gas_used: 0,
                    accounts: keys_view(account_keys(declared)),
                    continuation: Seq::empty(),
                },
                charged: used,
                trx,
                caller,
                step_count,
            },
        ),
    }
}

/// What beginning a decoded transaction gives: the holder must be bound
/// to the transaction, the chain must be accepted, and the signature must
/// recover to a sender.
pub open spec fn begin_transaction_outcome(
    holder_hash: Seq<u8>,
    trx: TransactionModel,
    operator: Operator,
    declared: Seq<Account>,
    step_count: u64,
    expected_chain_id: Option<U256>,
) -> core::result::Result<StepModel, Refusal> {
    if holder_hash != trx.hash {
        Err(Refusal::Exactly(Error::HolderInvalidHash(hash_of(trx.hash), hash_of(holder_hash))))
    } else if !chain_id_accepted(trx.chain_id, expected_chain_id) {
        Err(Refusal::Exactly(Error::InvalidChainId(u256_of(trx.chain_id->0))))
    } else {
        match recovered_caller(trx.signed_hash, trx.recovery_id, trx.r, trx.s) {
            Err(reason) => Err(Refusal::Exactly(Error::Secp256k1Error(reason))),
            Ok(caller) => begin_state_outcome(trx, caller, operator, declared, step_count),
        }
    }
}

/// What beginning the transaction in a holder gives: the account must be
/// a holder of the operator's, and what it keeps must be a transaction.
pub open spec fn begin_outcome(
    program_id: Pubkey,
    target: Account,
    operator: Operator,
    declared: Seq<Account>,
    step_count: u64,
    expected_chain_id: Option<U256>,
) -> core::result::Result<StepModel, Refusal> {
    match holder_of(program_id, target) {
        Err(e) => Err(Refusal::Exactly(e)),
        Ok(holder) => if holder.owner != operator.key@ {
            Err(Refusal::Exactly(Error::HolderInvalidOwner(pubkey_of(holder.owner), operator.key)))
        } else if !is_transaction(holder.transaction) {
            Err(Refusal::Undecodable)
        } else {
            begin_transaction_outcome(
                holder.transaction_hash,
                decoded_transaction(holder.transaction),
                operator,
                declared,
                step_count,
                expected_chain_id,
            )
        },
    }
}

/// What continuing the transaction in a state gives.
pub open spec fn continue_outcome(
    program_id: Pubkey,
    target: Account,
    declared: Seq<Account>,
    step_count: u64,
) -> core::result::Result<StepModel, Refusal> {
    match restored_state(program_id, target, account_keys(declared)) {
        Err(e) => Err(Refusal::Exactly(e)),
        Ok(storage) => match charged(
            storage.gas_limit,
            storage.gas_used,
            LAMPORTS_PER_SIGNATURE as nat,
        ) {
            Err((available, requested)) => Err(
                Refusal::Exactly(Error::OutOfGas(u256_of(available), u256_of(requested))),
            ),
            Ok(used) => Ok(
                StepModel::Continue {
                    storage,
                    charged: (used - storage.gas_used) as nat,
                    step_count,
                },
            ),
        },
    }
}

/// What an invocation aimed at `target` gives.
pub open spec fn step_outcome(
    program_id: Pubkey,
    target: Account,
    operator: Operator,
    declared: Seq<Account>,
    step_count: u64,
    expected_chain_id: Option<U256>,
) -> core::result::Result<StepModel, Refusal> {
    match account_tag(program_id, target) {
        Err(e) => Err(Refusal::Exactly(e)),
        Ok(tag) => match role_of_tag(tag) {
            AccountRole::Holder => begin_outcome(
                program_id,
                target,
                operator,
                declared,
                step_count,
                expected_chain_id,
            ),
            AccountRole::State => continue_outcome(program_id, target, declared, step_count),
            AccountRole::FinalizedState => Err(Refusal::Exactly(Error::StorageAccountFinalized)),
            AccountRole::Treasury | AccountRole::Invalid => Err(
                Refusal::Exactly(Error::AccountInvalidTag(target.key, tag, TAG_HOLDER)),
            ),
        },
    }
}

impl Step {
    /// Whether the step is the one that the model describes: a state that
    /// is fit to be stored, and a meter that continues from it.
    pub open spec fn is(&self, model: StepModel) -> bool {
        match (*self, model) {
            (
                Step::Begin { storage, gasometer, trx, caller, step_count },
                StepModel::Begin {
                    storage: storage_model,
                    charged,
                    trx: trx_model,
                    caller: caller_model,
                    step_count: steps,
                },
            ) => {
                &&& storage.wf()
                &&& storage@ == storage_model
                &&& gasometer.wf()
                &&& gasometer.limit() == storage.gas_limit@
                &&& gasometer.paid() == storage.gas_used@
                &&& gasometer.used() == charged
                &&& trx@ == trx_model
                &&& caller@ == caller_model
                &&& step_count == steps
            },
            (
                Step::Continue { storage, gasometer, step_count },
                StepModel::Continue { storage: storage_model, charged, step_count: steps },
            ) => {
                &&& storage.wf()
                &&& storage@ == storage_model
                &&& gasometer.wf()
                &&& gasometer.limit() == storage.gas_limit@
                &&& gasometer.paid() == storage.gas_used@
                &&& gasometer.used() == charged
                &&& step_count == steps
            },
            _ => false,
        }
    }

    /// The hash of the transaction that the step belongs to.
    pub fn transaction_hash(&self) -> (hash: [u8; 32])
        ensures
            hash == match *self {
                Step::Begin { storage, .. } => storage.transaction_hash,
                Step::Continue { storage, .. } => storage.transaction_hash,
            },
    {
        match self {
            Step::Begin { storage, .. } => storage.transaction_hash,
            Step::Continue { storage, .. } => storage.transaction_hash,
        }
    }
}

/// Whether what an invocation returned is what was to come out of it.
pub open spec fn agrees(
    r: Result<Step>,
    outcome: core::result::Result<StepModel, Refusal>,
) -> bool {
    match (r, outcome) {
        (Ok(step), Ok(model)) => step.is(model),
        (Err(e), Err(Refusal::Exactly(expected))) => e == expected,
        (Err(e), Err(Refusal::Undecodable)) => e is RlpError,
        _ => false,
    }
}

/// The log record that marks an invocation: the word `HASH`, then the
/// hash of the transaction.
pub open spec fn hash_record(hash: Seq<u8>) -> Seq<Seq<u8>> {
    seq![seq![0x48u8, 0x41u8, 0x53u8, 0x48u8], hash]
}

/// Builds the log record that marks an invocation.
pub fn hash_log_record(hash: &[u8; 32]) -> (record: Vec<Vec<u8>>)
    ensures
        record@.len() == 2,
        record@[0]@ == hash_record(hash@)[0],
        record@[1]@ == hash_record(hash@)[1],
{
    let mut word: Vec<u8> = Vec::new();
    extend_bytes(&mut word, &[0x48, 0x41, 0x53, 0x48]);
    let mut bytes: Vec<u8> = Vec::new();
    extend_bytes(&mut bytes, hash.as_slice());
    let mut record: Vec<Vec<u8>> = Vec::new();
    record.push(word);
    record.push(bytes);
    record
}

/// Charges the costs of beginning a transaction.
fn charge_begin(gasometer: &mut Gasometer, declared_accounts: usize, rlp_len: usize) -> (r: Result<
    (),
>)
    requires
        old(gasometer).wf(),
        old(gasometer).paid() == 0,
        old(gasometer).used() == 0,
    ensures
        final(gasometer).wf(),
        final(gasometer).paid() == 0,
        final(gasometer).limit() == old(gasometer).limit(),
        match r {
            Ok(()) => begin_charges(
                old(gasometer).limit(),
                declared_accounts as nat,
                rlp_len as nat,
            ) == Ok::<nat, (nat, nat)>(final(gasometer).used()),
            Err(e) => {
                &&& begin_charges(old(gasometer).limit(), declared_accounts as nat, rlp_len as nat)
                    matches Err((available, requested))
                &&& is_out_of_gas(e, available, requested)
            },
        },
{
    proof {
        gasometer.lemma_wf();
    }
    match gasometer.record_solana_transaction_cost() {
        Ok(()) => {},
        Err(e) => { return Err(e); },
    }
    proof {
        gasometer.lemma_wf();
    }
    match gasometer.record_address_lookup_table(declared_accounts) {
        Ok(()) => {},
        Err(e) => { return Err(e); },
    }
    proof {
        gasometer.lemma_wf();
    }
    match gasometer.record_iterative_overhead() {
        Ok(()) => {},
        Err(e) => { return Err(e); },
    }
    proof {
        gasometer.lemma_wf();
    }
    gasometer.record_write_to_holder(rlp_len)
}

/// Makes the state of a transaction whose sender is known, and charges
/// the costs of beginning it.
pub fn begin_state(
    trx: Transaction,
    caller: Address,
    operator: &Operator,
    remaining_accounts: &[Account],
    step_count: u64,
) -> (r: Result<Step>)
    ensures
        agrees(r, begin_state_outcome(trx@, caller@, *operator, remaining_accounts@, step_count)),
{
    let mut storage = State::new(operator, remaining_accounts, caller, &trx);
    if trx.chain_id.is_none() {
        let gas_multiplier = U256::from_u64(GAS_LIMIT_MULTIPLIER_NO_CHAINID as u64);
        storage.gas_limit = storage.gas_limit.saturating_mul(&gas_multiplier);
    }
    let mut gasometer = match Gasometer::new(None, storage.gas_limit) {
        Ok(gasometer) => gasometer,
        Err(e) => { return Err(e); },
    };
    match charge_begin(&mut gasometer, remaining_accounts.len(), trx.rlp_len) {
        Ok(()) => {},
        Err(e) => {
            proof {
                match e {
                    Error::OutOfGas(available, requested) => {
                        lemma_u256_of(available);
                        lemma_u256_of(requested);
                    },
                    _ => {},
                }
            }
            return Err(e);
        },
    }
    Ok(Step::Begin { storage, gasometer, trx, caller, step_count })
}

/// Begins a decoded transaction: checks that the holder is bound to it
/// and that its chain is accepted, recovers its sender, and makes its
/// state.
pub fn begin_transaction(
    holder: &Holder,
    trx: Transaction,
    operator: &Operator,
    remaining_accounts: &[Account],
    step_count: u64,
    expected_chain_id: Option<U256>,
) -> (r: Result<Step>)
    ensures
        agrees(
            r,
            begin_transaction_outcome(
                holder.transaction_hash@,
                trx@,
                *operator,
                remaining_accounts@,
                step_count,
                expected_chain_id,
            ),
        ),
{
    match holder.validate_transaction(&trx) {
        Ok(()) => {},
        Err(e) => {
            proof {
                lemma_hash_of(trx.hash);
                lemma_hash_of(holder.transaction_hash);
            }
            return Err(e);
        },
    }
    match trx.validate_chain_id(expected_chain_id) {
        Ok(()) => {},
        Err(e) => {
            proof {
                lemma_u256_of(trx.chain_id->0);
            }
            return Err(e);
        },
    }
    let caller = match trx.recover_caller_address() {
        Ok(caller) => caller,
        Err(e) => { return Err(e); },
    };
    begin_state(trx, caller, operator, remaining_accounts, step_count)
}

/// Begins the transaction in a holder.
fn begin(
    program_id: &Pubkey,
    holder_info: &Account,
    accounts: &Accounts,
    step_count: u64,
    expected_chain_id: Option<U256>,
) -> (r: Result<Step>)
    ensures
        agrees(
            r,
            begin_outcome(
                *program_id,
                *holder_info,
                accounts.operator,
                accounts.remaining_accounts@,
                step_count,
                expected_chain_id,
            ),
        ),
{
    let holder = match Holder::from_account(program_id, holder_info) {
        Ok(holder) => holder,
        Err(e) => { return Err(e); },
    };
    match holder.validate_owner(&accounts.operator) {
        Ok(()) => {},
        Err(e) => {
            proof {
                lemma_pubkey_of(holder.owner);
            }
            return Err(e);
        },
    }
    let data_len = holder_info.data.len();
    assert(holder.transaction@.len() <= data_len);
    let trx = match Transaction::from_rlp(holder.transaction()) {
        Ok(trx) => trx,
        Err(e) => { return Err(e); },
    };
    begin_transaction(
        &holder,
        trx,
        &accounts.operator,
        accounts.remaining_accounts,
        step_count,
        expected_chain_id,
    )
}

/// Continues the transaction in a state.
fn resume(program_id: &Pubkey, storage_info: &Account, accounts: &Accounts, step_count: u64) -> (r:
    Result<Step>)
    ensures
        agrees(
            r,
            continue_outcome(*program_id, *storage_info, accounts.remaining_accounts@, step_count),
        ),
{
    let storage = match State::restore(program_id, storage_info, accounts.remaining_accounts) {
        Ok(storage) => storage,
        Err(e) => { return Err(e); },
    };
    let mut gasometer = match Gasometer::new(Some(storage.gas_used), storage.gas_limit) {
        Ok(gasometer) => gasometer,
        Err(e) => { return Err(e); },
    };
    proof {
        gasometer.lemma_wf();
    }
    match gasometer.record_solana_transaction_cost() {
        Ok(()) => {},
        Err(e) => {
            proof {
                match e {
                    Error::OutOfGas(available, requested) => {
                        lemma_u256_of(available);
                        lemma_u256_of(requested);
                    },
                    _ => {},
                }
            }
            return Err(e);
        },
    }
    Ok(Step::Continue { storage, gasometer, step_count })
}

/// The treasury index that an instruction names: its first four bytes,
/// in little-endian order.
pub open spec fn instruction_treasury_index(instruction: Seq<u8>) -> u32 {
    le_nat(instruction.subrange(0, 4)) as u32
}

/// The step budget that an instruction names: its next four bytes, in
/// little-endian order.
pub open spec fn instruction_step_count(instruction: Seq<u8>) -> u64 {
    le_nat(instruction.subrange(4, 8)) as u64
}

/// The operator that an account stands for.
pub open spec fn operator_of(info: Account) -> Operator {
    Operator { key: info.key, lamports: info.lamports }
}

/// The key of the system program.
pub open spec fn system_key() -> Pubkey {
    pubkey_of(Seq::new(32, |i: int| 0u8))
}

/// Whether the accounts of an invocation are what their places ask for,
/// and if not, the error of the first one that is not. The account after
/// the target must have signed as operator; the next must be the
/// treasury account of the index that the instruction names; the next the
/// operator's own Ethereum account; then the system program and this
/// program.
pub open spec fn accounts_outcome(
    program_id: Pubkey,
    accounts: Seq<Account>,
    treasury_index: u32,
) -> Result<()> {
    if !accounts[1].is_signer {
        Err(Error::UnauthorizedOperator)
    } else {
        match found_program_address(treasury_seeds(treasury_index), program_id@) {
            None => Err(Error::AccountInvalidData(accounts[2].key)),
            Some(found) => if found.0 != accounts[2].key@ {
                Err(Error::AccountInvalidKey(accounts[2].key, pubkey_of(found.0)))
            } else {
                match ethereum_account(program_id, accounts[3]) {
                    Err(e) => Err(e),
                    Ok(_) => if accounts[4].key != system_key() {
                        Err(Error::AccountInvalidKey(accounts[4].key, system_key()))
                    } else if accounts[5].key != program_id {
                        Err(Error::AccountInvalidKey(accounts[5].key, program_id))
                    } else {
                        Ok(())
                    },
                }
            },
        }
    }
}

/// Reads the accounts of an invocation by their places.
fn read_accounts<'a>(program_id: &Pubkey, accounts: &'a [Account], treasury_index: u32) -> (r:
    Result<Accounts<'a>>)
    requires
        accounts@.len() >= 6,
    ensures
        match r {
            Ok(read) => {
                &&& accounts_outcome(*program_id, accounts@, treasury_index) == Ok::<(), Error>(())
                &&& read.operator == operator_of(accounts@[1])
                &&& read.remaining_accounts@ == accounts@.subrange(6, accounts@.len() as int)
                &&& read.all_accounts@ == accounts@
            },
            Err(e) => accounts_outcome(*program_id, accounts@, treasury_index) == Err::<(), Error>(
                e,
            ),
        },
{
    let operator = match Operator::from_account(&accounts[1]) {
        Ok(operator) => operator,
        Err(e) => { return Err(e); },
    };
    let treasury = match Treasury::from_account(program_id, treasury_index, &accounts[2]) {
        Ok(treasury) => treasury,
        Err(e) => {
            proof {
                match e {
                    Error::AccountInvalidKey(_, expected) => {
                        lemma_pubkey_of(expected);
                    },
                    _ => {},
                }
            }
            return Err(e);
        },
    };
    let operator_ether_account = match EthereumAccount::from_account(program_id, &accounts[3]) {
        Ok(account) => account,
        Err(e) => { return Err(e); },
    };
    let system = system_program_id();
    proof {
        lemma_pubkey_of(system);
    }
    match check_key(&accounts[4], &system) {
        Ok(()) => {},
        Err(e) => { return Err(e); },
    }
    match check_key(&accounts[5], program_id) {
        Ok(()) => {},
        Err(e) => { return Err(e); },
    }
    Ok(
        Accounts {
            operator,
            treasury,
            operator_ether_account,
            system_program: accounts[4].key,
            neon_program: accounts[5].key,
            remaining_accounts: vstd::slice::slice_subrange(accounts, 6, accounts.len()),
            all_accounts: accounts,
        },
    )
}

/// Begins or continues a transaction from an account, for the configured
/// chain.
///
/// The instruction names the treasury index and the step budget. The
/// target comes first among the accounts, then the operator, the treasury
/// account of that index, the operator's Ethereum account, the system
/// program and this program; every account after these is one that the
/// transaction declares.
pub fn process(program_id: &Pubkey, accounts: &[Account], instruction: &[u8]) -> (r: Result<Step>)
    requires
        accounts@.len() >= 6,
        instruction@.len() >= 8,
    ensures
        match accounts_outcome(*program_id, accounts@, instruction_treasury_index(instruction@)) {
            Err(e) => r == Err::<Step, Error>(e),
            Ok(()) => agrees(
                r,
                step_outcome(
                    *program_id,
                    accounts@[0],
                    operator_of(accounts@[1]),
                    accounts@.subrange(6, accounts@.len() as int),
                    instruction_step_count(instruction@),
                    Some(u256_of(CHAIN_ID as nat)),
                ),
            ),
        },
{
    let treasury_index = u32_from_le(instruction, 0);
    let step_count = u32_from_le(instruction, 4) as u64;

    let holder_or_storage_info = &accounts[0];

    let accounts = match read_accounts(program_id, accounts, treasury_index) {
        Ok(accounts) => accounts,
        Err(e) => { return Err(e); },
    };

    execute(
        program_id,
        holder_or_storage_info,
        &accounts,
        step_count,
        Some(U256::from_u64(CHAIN_ID)),
    )
}

/// An invocation aimed at the marker of an ended transaction is refused
/// with the finalized condition, whatever else it is handed; and such an
/// account is not resumed.
pub proof fn lemma_finalized_is_refused(
    program_id: Pubkey,
    target: Account,
    operator: Operator,
    declared: Seq<Account>,
    step_count: u64,
    expected_chain_id: Option<U256>,
)
    requires
        account_tag(program_id, target) == Ok::<u8, Error>(TAG_FINALIZED_STATE),
    ensures
        step_outcome(program_id, target, operator, declared, step_count, expected_chain_id)
            == Err::<StepModel, Refusal>(Refusal::Exactly(Error::StorageAccountFinalized)),
        restored_state(program_id, target, account_keys(declared)) == Err::<StateModel, Error>(
            Error::StorageAccountFinalized,
        ),
{
}

/// Beginning from a holder that is bound to another hash than that of
/// the transaction it keeps is refused with the hash-mismatch condition,
/// which names both hashes.
pub proof fn lemma_holder_hash_mismatch_is_refused(
    program_id: Pubkey,
    target: Account,
    operator: Operator,
    declared: Seq<Account>,
    step_count: u64,
    expected_chain_id: Option<U256>,
)
    requires
        holder_of(program_id, target) matches Ok(holder) && holder.owner == operator.key@
            && is_transaction(holder.transaction) && holder.transaction_hash != decoded_transaction(
            holder.transaction,
        ).hash,
    ensures
        ({
            let holder = holder_of(program_id, target)->Ok_0;
            step_outcome(program_id, target, operator, declared, step_count, expected_chain_id)
                == Err::<StepModel, Refusal>(
                Refusal::Exactly(
                    Error::HolderInvalidHash(
                        hash_of(decoded_transaction(holder.transaction).hash),
                        hash_of(holder.transaction_hash),
                    ),
                ),
            )
        }),
{
}

/// Beginning a transaction that names another chain than the configured
/// one is refused with the invalid-chain-id condition, which names the
/// chain of the transaction.
pub proof fn lemma_foreign_chain_is_refused(
    holder_hash: Seq<u8>,
    trx: TransactionModel,
    operator: Operator,
    declared: Seq<Account>,
    step_count: u64,
    expected_chain_id: Option<U256>,
)
    requires
        holder_hash == trx.hash,
        trx.chain_id matches Some(id) && !(expected_chain_id matches Some(configured) && configured@
            == id),
    ensures
        begin_transaction_outcome(
            holder_hash,
            trx,
            operator,
            declared,
            step_count,
            expected_chain_id,
        ) == Err::<StepModel, Refusal>(
            Refusal::Exactly(Error::InvalidChainId(u256_of(trx.chain_id->0))),
        ),
{
}

/// Beginning a transaction that names no chain goes through on every
/// configuration, and its state gets the gas limit of the transaction
/// multiplied by the fixed factor, or the largest limit where the product
/// does not fit. It is refused only where the signature recovers to no
/// sender or the limit does not cover the costs of beginning.
pub proof fn lemma_legacy_transaction_begins(
    holder_hash: Seq<u8>,
    trx: TransactionModel,
    operator: Operator,
    declared: Seq<Account>,
    step_count: u64,
    expected_chain_id: Option<U256>,
)
    requires
        holder_hash == trx.hash,
        trx.chain_id is None,
        recovered_caller(trx.signed_hash, trx.recovery_id, trx.r, trx.s) is Ok,
        begin_charges(begin_gas_limit(trx), declared.len(), trx.rlp_len) is Ok,
    ensures
        begin_transaction_outcome(
            holder_hash,
            trx,
            operator,
            declared,
            step_count,
            expected_chain_id,
        ) matches Ok(StepModel::Begin { storage, .. }) && storage.gas_limit == if trx.gas_limit
            * GAS_LIMIT_MULTIPLIER_NO_CHAINID as nat <= u256_max() {
            trx.gas_limit * GAS_LIMIT_MULTIPLIER_NO_CHAINID as nat
        } else {
            u256_max()
        },
{
}

/// Begins or continues the transaction in an account.
pub fn execute(
    program_id: &Pubkey,
    holder_or_storage_info: &Account,
    accounts: &Accounts,
    step_count: u64,
    expected_chain_id: Option<U256>,
) -> (r: Result<Step>)
    ensures
        agrees(
            r,
            step_outcome(
                *program_id,
                *holder_or_storage_info,
                accounts.operator,
                accounts.remaining_accounts@,
                step_count,
                expected_chain_id,
            ),
        ),
{
    let found = match tag(program_id, holder_or_storage_info) {
        Ok(found) => found,
        Err(e) => { return Err(e); },
    };
    match role(found) {
        AccountRole::Holder => begin(
            program_id,
            holder_or_storage_info,
            accounts,
            step_count,
            expected_chain_id,
        ),
        AccountRole::State => resume(program_id, holder_or_storage_info, accounts, step_count),
        AccountRole::FinalizedState => Err(Error::StorageAccountFinalized),
        AccountRole::Treasury | AccountRole::Invalid => Err(
            Error::AccountInvalidTag(holder_or_storage_info.key, found, TAG_HOLDER),
        ),
    }
}

} // verus!
