//! Transactions in progress, and transactions that have ended.
//!
//! A transaction in progress is kept in a state account: the key of the
//! operator that began it, its hash, its sender, its gas limit and the gas
//! used so far, the accounts that it reserves, and the continuation of the
//! interpreter. The data of the account is the tag, these fields in this
//! order (the two gas values as 32 big-endian bytes each, the number of
//! reserved accounts as eight little-endian bytes before their keys), and
//! the continuation to the end.
//!
//! The hash, the sender, the limit and the reserved accounts are fixed
//! when the state is made. The gas used never decreases and never exceeds
//! the limit.
use crate::account::{
    account_tag, tag, Account, Operator, TAG_FINALIZED_STATE, TAG_STATE,
};
use crate::error::{Error, ProgramError, Result};
use crate::types::address::{lemma_pubkey_view_injective, Address, Pubkey};
use crate::types::bytes::{
    array_at, be_bytes, be_nat, extend_bytes, le_bytes, le_nat, lemma_be_bytes_len,
    lemma_be_nat_of_be_bytes, lemma_le_bytes_len, lemma_le_nat_of_le_bytes, pow256, u64_from_le,
    u64_to_le,
};
use crate::types::transaction::Transaction;
use crate::types::uint::{lemma_pow256_range, u256_max, U256};
use vstd::arithmetic::div_mod::lemma_small_mod;
use vstd::prelude::*;

verus! {

/// The length of what stands before the reserved accounts in a state.
pub const STATE_HEADER_LEN: usize = 157;

/// A transaction in progress.
#[derive(Debug, Clone, PartialEq, Eq)]
pub struct State {
    pub owner: Pubkey,
    pub transaction_hash: [u8; 32],
    pub caller: Address,
    pub gas_limit: U256,
    pub gas_used: U256,
    pub accounts: Vec<Pubkey>,
    pub continuation: Vec<u8>,
}

/// What a state says, as mathematical values.
pub struct StateModel {
    pub owner: Seq<u8>,
    pub transaction_hash: Seq<u8>,
    pub caller: Seq<u8>,
    pub gas_limit: nat,
    pub gas_used: nat,
    pub accounts: Seq<Seq<u8>>,
    pub continuation: Seq<u8>,
}

/// The marker that stands in place of a state once its transaction has
/// ended.
#[derive(Debug, Clone, Copy, PartialEq, Eq)]
pub struct FinalizedState {
    pub owner: Pubkey,
    pub transaction_hash: [u8; 32],
}

/// The bytes of keys.
pub open spec fn keys_view(keys: Seq<Pubkey>) -> Seq<Seq<u8>> {
    Seq::new(keys.len(), |i: int| keys[i]@)
}

/// The keys of accounts.
pub open spec fn account_keys(accounts: Seq<Account>) -> Seq<Pubkey> {
    Seq::new(accounts.len(), |i: int| accounts[i].key)
}

/// The key with the given bytes.
pub open spec fn pubkey_of(bytes: Seq<u8>) -> Pubkey {
    choose|key: Pubkey| key@ == bytes
}

impl View for State {
    type V = StateModel;

    open spec fn view(&self) -> StateModel {
        StateModel {
            owner: self.owner@,
            transaction_hash: self.transaction_hash@,
            caller: self.caller@,
            gas_limit: self.gas_limit@,
            gas_used: self.gas_used@,
            accounts: keys_view(self.accounts@),
            continuation: self.continuation@,
        }
    }
}

/// Keys one after the other.
pub open spec fn joined(keys: Seq<Seq<u8>>) -> Seq<u8>
    decreases keys.len(),
{
    if keys.len() == 0 {
        Seq::empty()
    } else {
        joined(keys.drop_last()) + keys.last()
    }
}

/// What stands before the reserved accounts in the data of a state.
pub open spec fn state_header(state: StateModel) -> Seq<u8> {
    seq![TAG_STATE] + state.owner + state.transaction_hash + state.caller + be_bytes(
        state.gas_limit,
        32,
    ) + be_bytes(state.gas_used, 32) + le_bytes(state.accounts.len(), 8)
}

/// The data of a state.
pub open spec fn state_data(state: StateModel) -> Seq<u8> {
    state_header(state) + joined(state.accounts) + state.continuation
}

/// The data of the marker of an ended transaction.
pub open spec fn finalized_data(owner: Seq<u8>, transaction_hash: Seq<u8>) -> Seq<u8> {
    seq![TAG_FINALIZED_STATE] + owner + transaction_hash
}

/// Whether a state is one that can be stored: fields of the right widths,
/// and no more gas used than the limit allows.
pub open spec fn state_model_wf(state: StateModel) -> bool {
    &&& state.owner.len() == 32
    &&& state.transaction_hash.len() == 32
    &&& state.caller.len() == 20
    &&& state.gas_limit <= u256_max()
    &&& state.gas_used <= state.gas_limit
    &&& state.accounts.len() <= u64::MAX
    &&& forall|i: int| 0 <= i < state.accounts.len() ==> (#[trigger] state.accounts[i]).len() == 32
}

/// What the data of a state says, where it is long enough for its header
/// and for the reserved accounts that the header announces, and records
/// no more gas used than its limit allows.
pub open spec fn parsed_state(data: Seq<u8>) -> Option<StateModel> {
    if data.len() < STATE_HEADER_LEN {
        None
    } else {
        let gas_limit = be_nat(data.subrange(85, 117));
        let gas_used = be_nat(data.subrange(117, 149));
        let count = le_nat(data.subrange(149, 157));
        if STATE_HEADER_LEN + 32 * count > data.len() || gas_used > gas_limit {
            None
        } else {
            Some(
                StateModel {
                    owner: data.subrange(1, 33),
                    transaction_hash: data.subrange(33, 65),
                    caller: data.subrange(65, 85),
                    gas_limit,
                    gas_used,
                    accounts: Seq::new(
                        count,
                        |i: int| data.subrange(157 + 32 * i, 157 + 32 * i + 32),
                    ),
                    continuation: data.subrange((157 + 32 * count) as int, data.len() as int),
                },
            )
        }
    }
}

/// The first place, among the first `count`, where the accounts handed
/// to an invocation differ from the accounts that a state reserves.
pub open spec fn first_difference(reserved: Seq<Seq<u8>>, given: Seq<Pubkey>, count: nat) -> Option<
    nat,
>
    decreases count,
{
    if count == 0 {
        None
    } else {
        let i = (count - 1) as nat;
        match first_difference(reserved, given, i) {
            Some(at) => Some(at),
            None => if reserved[i as int] != given[i as int]@ {
                Some(i)
            } else {
                None
            },
        }
    }
}

/// What resuming the transaction in an account gives. The account must
/// be the program's. A transaction that has ended is not resumed. The
/// account must carry the tag of states and hold a state's data. The
/// accounts handed to the invocation must be the reserved ones, in the
/// same order.
pub open spec fn restored_state(program_id: Pubkey, info: Account, given: Seq<Pubkey>) -> Result<
    StateModel,
> {
    match account_tag(program_id, info) {
        Err(e) => Err(e),
        Ok(tag) => if tag == TAG_FINALIZED_STATE {
            Err(Error::StorageAccountFinalized)
        } else if tag != TAG_STATE {
            Err(Error::AccountInvalidTag(info.key, tag, TAG_STATE))
        } else {
            match parsed_state(info.data@) {
                None => Err(Error::AccountInvalidData(info.key)),
                Some(state) => if state.accounts.len() != given.len() {
                    Err(Error::ProgramError(ProgramError::NotEnoughAccountKeys))
                } else {
                    match first_difference(state.accounts, given, given.len()) {
                        Some(at) => Err(
                            Error::AccountInvalidKey(
                                given[at as int],
                                pubkey_of(state.accounts[at as int]),
                            ),
                        ),
                        None => Ok(state),
                    }
                },
            }
        },
    }
}

/// The key with the bytes of a key is that key.
pub proof fn lemma_pubkey_of(key: Pubkey)
    ensures
        pubkey_of(key@) == key,
{
    let found = pubkey_of(key@);
    lemma_pubkey_view_injective(found, key);
}

/// Keys of 32 bytes, joined, lie 32 bytes apart.
pub proof fn lemma_joined(keys: Seq<Seq<u8>>)
    requires
        forall|i: int| 0 <= i < keys.len() ==> (#[trigger] keys[i]).len() == 32,
    ensures
        joined(keys).len() == 32 * keys.len(),
        forall|i: int|
            0 <= i < keys.len() ==> #[trigger] joined(keys).subrange(32 * i, 32 * i + 32)
                == keys[i],
    decreases keys.len(),
{
    if keys.len() > 0 {
        let head = keys.drop_last();
        lemma_joined(head);
        assert forall|i: int| 0 <= i < keys.len() implies #[trigger] joined(keys).subrange(
            32 * i,
            32 * i + 32,
        ) == keys[i] by {
            if i < keys.len() - 1 {
                assert(joined(keys).subrange(32 * i, 32 * i + 32) =~= joined(head).subrange(
                    32 * i,
                    32 * i + 32,
                ));
            }
        }
    }
}

/// Once the accounts differ somewhere, looking further changes nothing.
proof fn lemma_first_difference_stable(
    reserved: Seq<Seq<u8>>,
    given: Seq<Pubkey>,
    at: nat,
    count: nat,
)
    requires
        at <= count,
        first_difference(reserved, given, at) is Some,
    ensures
        first_difference(reserved, given, count) == first_difference(reserved, given, at),
    decreases count,
{
    if at < count {
        lemma_first_difference_stable(reserved, given, at, (count - 1) as nat);
    }
}

/// The data of a state says what the state says.
pub proof fn lemma_state_round_trip(state: StateModel)
    requires
        state_model_wf(state),
    ensures
        parsed_state(state_data(state)) == Some(state),
{
    let data = state_data(state);
    let count = state.accounts.len();
    lemma_joined(state.accounts);
    lemma_be_bytes_len(state.gas_limit, 32);
    lemma_be_bytes_len(state.gas_used, 32);
    lemma_le_bytes_len(count, 8);
    lemma_be_nat_of_be_bytes(state.gas_limit, 32);
    lemma_be_nat_of_be_bytes(state.gas_used, 32);
    lemma_le_nat_of_le_bytes(count, 8);
    assert(pow256(8) == 0x1_0000_0000_0000_0000) by {
        reveal_with_fuel(pow256, 9);
    }
    lemma_pow256_range();
    lemma_small_mod(count, pow256(8));
    lemma_small_mod(state.gas_limit, pow256(32));
    lemma_small_mod(state.gas_used, pow256(32));
    assert(data.subrange(1, 33) =~= state.owner);
    assert(data.subrange(33, 65) =~= state.transaction_hash);
    assert(data.subrange(65, 85) =~= state.caller);
    assert(data.subrange(85, 117) =~= be_bytes(state.gas_limit, 32));
    assert(data.subrange(117, 149) =~= be_bytes(state.gas_used, 32));
    assert(data.subrange(149, 157) =~= le_bytes(count, 8));
    let parsed = parsed_state(data)->0;
    assert(data.subrange((157 + 32 * count) as int, data.len() as int) =~= state.continuation);
    assert forall|i: int| 0 <= i < count implies #[trigger] parsed.accounts[i]
        == state.accounts[i] by {
        assert(data.subrange(157 + 32 * i, 157 + 32 * i + 32) =~= joined(state.accounts).subrange(
            32 * i,
            32 * i + 32,
        ));
    }
    assert(parsed.accounts =~= state.accounts);
}

/// Finds the first place where the accounts handed to an invocation
/// differ from the reserved ones.
fn find_difference(reserved: &Vec<Pubkey>, given: &[Account]) -> (r: Option<usize>)
    requires
        reserved@.len() == given@.len(),
    ensures
        match r {
            Some(at) => at < given@.len() && first_difference(
                keys_view(reserved@),
                account_keys(given@),
                given@.len(),
            ) == Some(at as nat),
            None => first_difference(keys_view(reserved@), account_keys(given@), given@.len())
                is None,
        },
{
    let ghost keys = account_keys(given@);
    let mut i: usize = 0;
    while i < given.len()
        invariant
            keys == account_keys(given@),
            reserved@.len() == given@.len(),
            i <= given@.len(),
            first_difference(keys_view(reserved@), keys, i as nat) is None,
        decreases given@.len() - i,
    {
        if given[i].key != reserved[i] {
            proof {
                lemma_first_difference_stable(
                    keys_view(reserved@),
                    keys,
                    (i + 1) as nat,
                    keys.len(),
                );
            }
            return Some(i);
        }
        i += 1;
    }
    None
}

impl State {
    /// The tag of states.
    pub const TAG: u8 = TAG_STATE;

    /// No more gas is used than the limit allows.
    pub open spec fn wf(&self) -> bool {
        self.gas_used@ <= self.gas_limit@
    }

    /// The state of a transaction that is begun: bound to the operator,
    /// to the hash of the transaction and to its sender, with the limit
    /// that the transaction names, no gas used, the accounts handed to the
    /// invocation reserved, and no continuation yet.
    pub fn new(
        operator: &Operator,
        remaining_accounts: &[Account],
        caller: Address,
        trx: &Transaction,
    ) -> (state: State)
        ensures
            state.wf(),
            state.owner == operator.key,
            state.transaction_hash == trx.hash,
            state.caller == caller,
            state.gas_limit == trx.gas_limit,
            state.gas_used@ == 0,
            state.accounts@ == account_keys(remaining_accounts@),
            state.continuation@ == Seq::<u8>::empty(),
    {
        let mut accounts: Vec<Pubkey> = Vec::new();
        let mut i: usize = 0;
        while i < remaining_accounts.len()
            invariant
                i <= remaining_accounts@.len(),
                accounts@.len() == i,
                forall|j: int| 0 <= j < i ==> accounts@[j] == remaining_accounts@[j].key,
            decreases remaining_accounts@.len() - i,
        {
            accounts.push(remaining_accounts[i].key);
            i += 1;
        }
        State {
            owner: operator.key,
            transaction_hash: trx.hash,
            caller,
            gas_limit: trx.gas_limit,
            gas_used: U256::zero(),
            accounts,
            continuation: Vec::new(),
        }
    }

    /// Reads a state from its data.
    pub fn unpack(data: &[u8]) -> (r: Option<State>)
        ensures
            match r {
                Some(state) => parsed_state(data@) == Some(state@) && state.wf(),
                None => parsed_state(data@) is None,
            },
    {
        let total = data.len();
        if total < STATE_HEADER_LEN {
            return None;
        }
        let gas_limit = U256::from_be_bytes(&array_at::<32>(data, 85));
        let gas_used = U256::from_be_bytes(&array_at::<32>(data, 117));
        let count = u64_from_le(data, 149);
        if count > ((total - STATE_HEADER_LEN) / 32) as u64 || gas_limit.lt(&gas_used) {
            return None;
        }
        let count = count as usize;
        let mut accounts: Vec<Pubkey> = Vec::new();
        let mut i: usize = 0;
        while i < count
            invariant
                total == data@.len(),
                STATE_HEADER_LEN + 32 * count <= total,
                i <= count,
                accounts@.len() == i,
                forall|j: int|
                    0 <= j < i ==> (#[trigger] accounts@[j])@ == data@.subrange(
                        157 + 32 * j,
                        157 + 32 * j + 32,
                    ),
            decreases count - i,
        {
            accounts.push(Pubkey(array_at::<32>(data, STATE_HEADER_LEN + 32 * i)));
            i += 1;
        }
        let mut continuation: Vec<u8> = Vec::new();
        extend_bytes(
            &mut continuation,
            vstd::slice::slice_subrange(data, STATE_HEADER_LEN + 32 * count, total),
        );
        let state = State {
            owner: Pubkey(array_at::<32>(data, 1)),
            transaction_hash: array_at::<32>(data, 33),
            caller: Address(array_at::<20>(data, 65)),
            gas_limit,
            gas_used,
            accounts,
            continuation,
        };
        assert(state@.accounts =~= parsed_state(data@)->0.accounts);
        Some(state)
    }

    /// Resumes the transaction in an account.
    pub fn restore(program_id: &Pubkey, info: &Account, remaining_accounts: &[Account]) -> (r:
        Result<State>)
        ensures
            match r {
                Ok(state) => state.wf() && restored_state(
                    *program_id,
                    *info,
                    account_keys(remaining_accounts@),
                ) == Ok::<StateModel, Error>(state@),
                Err(e) => restored_state(*program_id, *info, account_keys(remaining_accounts@))
                    == Err::<StateModel, Error>(e),
            },
    {
        let found = match tag(program_id, info) {
            Ok(found) => found,
            Err(e) => { return Err(e); },
        };
        if found == TAG_FINALIZED_STATE {
            return Err(Error::StorageAccountFinalized);
        }
        if found != TAG_STATE {
            return Err(Error::AccountInvalidTag(info.key, found, TAG_STATE));
        }
        let state = match State::unpack(info.data.as_slice()) {
            Some(state) => state,
            None => { return Err(Error::AccountInvalidData(info.key)); },
        };
        if state.accounts.len() != remaining_accounts.len() {
            return Err(Error::ProgramError(ProgramError::NotEnoughAccountKeys));
        }
        match find_difference(&state.accounts, remaining_accounts) {
            Some(at) => {
                proof {
                    lemma_pubkey_of(state.accounts@[at as int]);
                }
                Err(Error::AccountInvalidKey(remaining_accounts[at].key, state.accounts[at]))
            },
            None => Ok(state),
        }
    }

    /// Whether the transaction reserves an account: it may touch no
    /// other.
    pub fn reserves(&self, key: &Pubkey) -> (r: bool)
        ensures
            r == exists|i: int| 0 <= i < self.accounts@.len() && self.accounts@[i]@ == key@,
    {
        let mut i: usize = 0;
        while i < self.accounts.len()
            invariant
                i <= self.accounts@.len(),
                forall|j: int| 0 <= j < i ==> self.accounts@[j]@ != key@,
            decreases self.accounts@.len() - i,
        {
            if self.accounts[i] == *key {
                return true;
            }
            i += 1;
        }
        false
    }

    /// The data of the state.
    pub fn pack(&self) -> (data: Vec<u8>)
        ensures
            data@ == state_data(self@),
    {
        let mut data: Vec<u8> = Vec::new();
        data.push(TAG_STATE);
        extend_bytes(&mut data, self.owner.0.as_slice());
        extend_bytes(&mut data, self.transaction_hash.as_slice());
        extend_bytes(&mut data, self.caller.0.as_slice());
        extend_bytes(&mut data, self.gas_limit.to_be_bytes().as_slice());
        extend_bytes(&mut data, self.gas_used.to_be_bytes().as_slice());
        extend_bytes(&mut data, u64_to_le(self.accounts.len() as u64).as_slice());
        let ghost keys = keys_view(self.accounts@);
        let mut i: usize = 0;
        while i < self.accounts.len()
            invariant
                keys == keys_view(self.accounts@),
                i <= self.accounts@.len(),
                data@ == state_header(self@) + joined(keys.take(i as int)),
            decreases self.accounts@.len() - i,
        {
            extend_bytes(&mut data, self.accounts[i].0.as_slice());
            proof {
                assert(keys.take(i + 1).drop_last() =~= keys.take(i as int));
            }
            i += 1;
        }
        assert(keys.take(i as int) =~= keys);
        extend_bytes(&mut data, self.continuation.as_slice());
        data
    }

    /// The marker that takes the place of the state when its transaction
    /// ends: it keeps the owner and the hash, so that the account cannot
    /// be taken for a transaction again.
    pub fn finalize(&self) -> (marker: FinalizedState)
        ensures
            marker.owner == self.owner,
            marker.transaction_hash == self.transaction_hash,
    {
        FinalizedState { owner: self.owner, transaction_hash: self.transaction_hash }
    }
}

impl FinalizedState {
    /// The tag of markers.
    pub const TAG: u8 = TAG_FINALIZED_STATE;

    /// The data of the marker.
    pub fn pack(&self) -> (data: Vec<u8>)
        ensures
            data@ == finalized_data(self.owner@, self.transaction_hash@),
    {
        let mut data: Vec<u8> = Vec::new();
        data.push(TAG_FINALIZED_STATE);
        extend_bytes(&mut data, self.owner.0.as_slice());
        extend_bytes(&mut data, self.transaction_hash.as_slice());
        data
    }
}

} // verus!
