//! The accounts that an instruction is handed, and what they are.
//!
//! The program owns accounts of several kinds. What kind an account is
//! shows in the first byte of its data, the tag. The role of an account
//! is read from its tag and from nowhere else.
use crate::error::{Error, Result};
use crate::types::address::{lemma_pubkey_view_injective, Address, Pubkey};
use crate::types::bytes::{array_at, extend_bytes, le_bytes, lemma_le_bytes_len, u64_to_le};
use vstd::prelude::*;

pub mod holder;
pub mod state;

pub use holder::Holder;
pub use state::{FinalizedState, State};

verus! {

/// The tag of an account that holds nothing yet.
pub const TAG_EMPTY: u8 = 0;

/// The tag of the account of an Ethereum address.
pub const TAG_ACCOUNT: u8 = 12;

/// The tag of a transaction in progress.
pub const TAG_STATE: u8 = 22;

/// The tag of a transaction that has ended.
pub const TAG_FINALIZED_STATE: u8 = 31;

/// The tag of a transaction that waits to be begun.
pub const TAG_HOLDER: u8 = 51;

/// The tag of a treasury account.
pub const TAG_TREASURY: u8 = 61;

/// The seed of the addresses of the treasury accounts.
pub open spec fn treasury_pool_seed() -> Seq<u8> {
    seq![
        0x74u8, 0x72u8, 0x65u8, 0x61u8, 0x73u8, 0x75u8, 0x72u8, 0x79u8, 0x5fu8, 0x70u8, 0x6fu8,
        0x6fu8, 0x6cu8,
    ]
}

/// What an account is to the program.
#[derive(Debug, Clone, Copy, PartialEq, Eq, Structural)]
pub enum AccountRole {
    Holder,
    State,
    FinalizedState,
    Treasury,
    Invalid,
}

/// The role that a tag stands for.
pub open spec fn role_of_tag(tag: u8) -> AccountRole {
    if tag == TAG_HOLDER {
        AccountRole::Holder
    } else if tag == TAG_STATE {
        AccountRole::State
    } else if tag == TAG_FINALIZED_STATE {
        AccountRole::FinalizedState
    } else if tag == TAG_TREASURY {
        AccountRole::Treasury
    } else {
        AccountRole::Invalid
    }
}

/// What the program reads of an account that it is handed.
#[derive(Debug, Clone, PartialEq, Eq)]
pub struct Account {
    pub key: Pubkey,
    pub owner: Pubkey,
    pub lamports: u64,
    pub data: Vec<u8>,
    pub is_signer: bool,
    pub is_writable: bool,
}

/// What reading the tag of an account gives: the first byte of the data
/// of an account that the program owns.
pub open spec fn account_tag(program_id: Pubkey, info: Account) -> Result<u8> {
    if info.owner@ != program_id@ {
        Err(Error::AccountInvalidOwner(info.key, program_id))
    } else if info.data@.len() == 0 {
        Err(Error::AccountInvalidData(info.key))
    } else {
        Ok(info.data@[0])
    }
}

/// What resolving the role of an account gives.
pub open spec fn account_role(program_id: Pubkey, info: Account) -> Result<AccountRole> {
    match account_tag(program_id, info) {
        Ok(tag) => Ok(role_of_tag(tag)),
        Err(e) => Err(e),
    }
}

/// The role that a tag stands for.
pub fn role(tag: u8) -> (r: AccountRole)
    ensures
        r == role_of_tag(tag),
{
    if tag == TAG_HOLDER {
        AccountRole::Holder
    } else if tag == TAG_STATE {
        AccountRole::State
    } else if tag == TAG_FINALIZED_STATE {
        AccountRole::FinalizedState
    } else if tag == TAG_TREASURY {
        AccountRole::Treasury
    } else {
        AccountRole::Invalid
    }
}

/// Reads the tag of an account.
pub fn tag(program_id: &Pubkey, info: &Account) -> (r: Result<u8>)
    ensures
        r == account_tag(*program_id, *info),
{
    if info.owner != *program_id {
        return Err(Error::AccountInvalidOwner(info.key, *program_id));
    }
    if info.data.len() == 0 {
        return Err(Error::AccountInvalidData(info.key));
    }
    Ok(info.data[0])
}

/// Resolves the role of an account. Nothing is changed by it.
pub fn resolve(program_id: &Pubkey, info: &Account) -> (r: Result<AccountRole>)
    ensures
        r == account_role(*program_id, *info),
{
    match tag(program_id, info) {
        Ok(tag) => Ok(role(tag)),
        Err(e) => Err(e),
    }
}

/// The key of the system program.
pub fn system_program_id() -> (id: Pubkey)
    ensures
        id@ == Seq::new(32, |i: int| 0u8),
{
    let id = Pubkey([0u8; 32]);
    id
}

/// The operator: who pays for an invocation and signs it.
#[derive(Debug, Clone, Copy, PartialEq, Eq)]
pub struct Operator {
    pub key: Pubkey,
    pub lamports: u64,
}

impl Operator {
    /// Takes an account for the operator: it must have signed.
    pub fn from_account(info: &Account) -> (r: Result<Operator>)
        ensures
            match r {
                Ok(operator) => info.is_signer && operator.key == info.key && operator.lamports
                    == info.lamports,
                Err(e) => !info.is_signer && e == Error::UnauthorizedOperator,
            },
    {
        if !info.is_signer {
            return Err(Error::UnauthorizedOperator);
        }
        Ok(Operator { key: info.key, lamports: info.lamports })
    }
}

/// The account of an Ethereum address.
#[derive(Debug, Clone, Copy, PartialEq, Eq)]
pub struct EthereumAccount {
    pub key: Pubkey,
    pub address: Address,
}

/// What taking an account for that of an Ethereum address gives: the
/// account must be the program's, carry the tag of such accounts, and
/// hold an address behind the tag.
pub open spec fn ethereum_account(program_id: Pubkey, info: Account) -> Result<Seq<u8>> {
    match account_tag(program_id, info) {
        Err(e) => Err(e),
        Ok(tag) => if tag != TAG_ACCOUNT {
            Err(Error::AccountInvalidTag(info.key, tag, TAG_ACCOUNT))
        } else if info.data@.len() < 21 {
            Err(Error::AccountInvalidData(info.key))
        } else {
            Ok(info.data@.subrange(1, 21))
        },
    }
}

impl EthereumAccount {
    /// Takes an account for that of an Ethereum address.
    pub fn from_account(program_id: &Pubkey, info: &Account) -> (r: Result<EthereumAccount>)
        ensures
            match r {
                Ok(account) => account.key == info.key && ethereum_account(*program_id, *info)
                    == Ok::<Seq<u8>, Error>(account.address@),
                Err(e) => ethereum_account(*program_id, *info) == Err::<Seq<u8>, Error>(e),
            },
    {
        let found = match tag(program_id, info) {
            Ok(found) => found,
            Err(e) => { return Err(e); },
        };
        if found != TAG_ACCOUNT {
            return Err(Error::AccountInvalidTag(info.key, found, TAG_ACCOUNT));
        }
        if info.data.len() < 21 {
            return Err(Error::AccountInvalidData(info.key));
        }
        let address = Address(array_at::<20>(info.data.as_slice(), 1));
        Ok(EthereumAccount { key: info.key, address })
    }
}

/// Checks that an account is the one with the expected key.
pub fn check_key(info: &Account, expected: &Pubkey) -> (r: Result<()>)
    ensures
        match r {
            Ok(()) => info.key == *expected,
            Err(e) => info.key != *expected && e == Error::AccountInvalidKey(info.key, *expected),
        },
{
    if info.key != *expected {
        return Err(Error::AccountInvalidKey(info.key, *expected));
    }
    proof {
        lemma_pubkey_view_injective(info.key, *expected);
    }
    Ok(())
}

/// What `solana_program::pubkey::Pubkey::try_find_program_address` finds
/// for seeds and a program: an address that no private key controls, and
/// the bump seed that led to it.
pub uninterp spec fn found_program_address(seeds: Seq<Seq<u8>>, program_id: Seq<u8>) -> Option<
    (Seq<u8>, u8),
>;

/// The seeds as sequences of bytes.
pub open spec fn seeds_view(seeds: Seq<Vec<u8>>) -> Seq<Seq<u8>> {
    Seq::new(seeds.len(), |i: int| seeds[i]@)
}

/// `solana_program::pubkey::Pubkey::try_find_program_address`: the
/// address derived from the seeds for the program, with its bump seed, or
/// nothing where there is none.
#[verifier::external_body]
fn try_find_program_address(seeds: &Vec<Vec<u8>>, program_id: &Pubkey) -> (r: Option<(Pubkey, u8)>)
    ensures
        r is Some <==> found_program_address(seeds_view(seeds@), program_id@) is Some,
        r matches Some(found) ==> found_program_address(seeds_view(seeds@), program_id@) == Some(
            (found.0@, found.1),
        ),
{
    let seeds: Vec<&[u8]> = seeds.iter().map(|seed| seed.as_slice()).collect();
    let program_id = solana_program::pubkey::Pubkey::new_from_array(program_id.0);
    solana_program::pubkey::Pubkey::try_find_program_address(&seeds, &program_id).map(
        |(key, bump_seed)| (Pubkey(key.to_bytes()), bump_seed),
    )
}

/// The seeds of the auxiliary treasury account at `index`: the pool seed,
/// then the index in little-endian order.
pub open spec fn treasury_seeds(index: u32) -> Seq<Seq<u8>> {
    seq![treasury_pool_seed(), le_bytes(index as nat, 4)]
}

/// The seeds of the main treasury account: the pool seed alone.
pub open spec fn main_treasury_seeds() -> Seq<Seq<u8>> {
    seq![treasury_pool_seed()]
}

/// The bytes of the pool seed, `treasury_pool`.
fn pool_seed() -> (seed: Vec<u8>)
    ensures
        seed@ == treasury_pool_seed(),
{
    let seed: [u8; 13] = [
        0x74, 0x72, 0x65, 0x61, 0x73, 0x75, 0x72, 0x79, 0x5f, 0x70, 0x6f, 0x6f, 0x6c,
    ];
    let mut out: Vec<u8> = Vec::new();
    extend_bytes(&mut out, seed.as_slice());
    out
}

/// An auxiliary treasury account: one of the pool that fees are paid
/// into.
#[derive(Debug, Clone, Copy, PartialEq, Eq)]
pub struct Treasury {
    pub key: Pubkey,
    pub index: u32,
    pub lamports: u64,
}

impl Treasury {
    /// The address of the auxiliary treasury account at `index`.
    pub fn address(program_id: &Pubkey, index: u32) -> (r: Option<(Pubkey, u8)>)
        ensures
            r is Some <==> found_program_address(treasury_seeds(index), program_id@) is Some,
            r matches Some(found) ==> found_program_address(treasury_seeds(index), program_id@)
                == Some((found.0@, found.1)),
    {
        let index_bytes = u64_to_le(index as u64);
        let mut second: Vec<u8> = Vec::new();
        extend_bytes(
            &mut second,
            vstd::slice::slice_subrange(index_bytes.as_slice(), 0, 4),
        );
        proof {
            lemma_le_bytes_prefix(index as nat, 4, 8);
        }
        let mut seeds: Vec<Vec<u8>> = Vec::new();
        seeds.push(pool_seed());
        seeds.push(second);
        assert(seeds_view(seeds@) =~= treasury_seeds(index));
        try_find_program_address(&seeds, program_id)
    }

    /// Takes an account for the auxiliary treasury account at `index`:
    /// its key must be the address derived for that index.
    pub fn from_account(program_id: &Pubkey, index: u32, info: &Account) -> (r: Result<Treasury>)
        ensures
            match r {
                Ok(treasury) => {
                    &&& found_program_address(treasury_seeds(index), program_id@) matches Some(
                        found,
                    )
                    &&& found.0 == info.key@
                    &&& treasury.key == info.key
                    &&& treasury.index == index
                    &&& treasury.lamports == info.lamports
                },
                Err(e) => match found_program_address(treasury_seeds(index), program_id@) {
                    Some(found) => {
                        &&& found.0 != info.key@
                        &&& e matches Error::AccountInvalidKey(key, expected)
                        &&& key == info.key
                        &&& expected@ == found.0
                    },
                    None => e == Error::AccountInvalidData(info.key),
                },
            },
    {
        match Treasury::address(program_id, index) {
            Some((expected, _)) => {
                if info.key != expected {
                    return Err(Error::AccountInvalidKey(info.key, expected));
                }
                Ok(Treasury { key: info.key, index, lamports: info.lamports })
            },
            None => Err(Error::AccountInvalidData(info.key)),
        }
    }
}

/// The main treasury account: where a sweep gathers the pool.
pub struct MainTreasury {}

impl MainTreasury {
    /// The address of the main treasury account.
    pub fn address(program_id: &Pubkey) -> (r: Option<(Pubkey, u8)>)
        ensures
            r is Some <==> found_program_address(main_treasury_seeds(), program_id@) is Some,
            r matches Some(found) ==> found_program_address(main_treasury_seeds(), program_id@)
                == Some((found.0@, found.1)),
    {
        let mut seeds: Vec<Vec<u8>> = Vec::new();
        seeds.push(pool_seed());
        assert(seeds_view(seeds@) =~= main_treasury_seeds());
        try_find_program_address(&seeds, program_id)
    }
}

/// The first bytes of a longer little-endian form are the shorter form.
pub proof fn lemma_le_bytes_prefix(n: nat, short: nat, long: nat)
    requires
        short <= long,
    ensures
        le_bytes(n, long).subrange(0, short as int) == le_bytes(n, short),
    decreases short,
{
    lemma_le_bytes_len(n, long);
    lemma_le_bytes_len(n, short);
    if short > 0 {
        let rest_long = le_bytes(n / 256, (long - 1) as nat);
        let rest_short = le_bytes(n / 256, (short - 1) as nat);
        lemma_le_bytes_prefix(n / 256, (short - 1) as nat, (long - 1) as nat);
        lemma_le_bytes_len(n / 256, (long - 1) as nat);
        lemma_le_bytes_len(n / 256, (short - 1) as nat);
        assert forall|i: int| 0 <= i < short implies le_bytes(n, long)[i] == le_bytes(
            n,
            short,
        )[i] by {
            if i > 0 {
                assert(rest_long.subrange(0, short - 1)[i - 1] == rest_short[i - 1]);
            }
        }
    }
}

} // verus!
