//! Holders: accounts that keep the bytes of a transaction until it is
//! begun.
//!
//! A holder is written by whoever loads the transaction. To this crate it
//! is read-only. Its data is the tag, the key of its owner, the hash of
//! the transaction that it is bound to, the length of the transaction in
//! eight little-endian bytes, and the transaction.
use crate::account::{account_tag, tag, Account, Operator, TAG_HOLDER};
use crate::error::{Error, Result};
use crate::types::address::{bytes_equal, Pubkey};
use crate::types::bytes::{
    array_at, extend_bytes, le_bytes, le_nat, lemma_le_bytes_len, lemma_le_nat_of_le_bytes,
    pow256, u64_from_le, u64_to_le,
};
use crate::types::transaction::Transaction;
use vstd::arithmetic::div_mod::lemma_small_mod;
use vstd::prelude::*;

verus! {

/// The length of what stands before the transaction in a holder.
pub const HOLDER_HEADER_LEN: usize = 73;

/// A holder.
#[derive(Debug, Clone, PartialEq, Eq)]
pub struct Holder {
    pub owner: Pubkey,
    pub transaction_hash: [u8; 32],
    pub transaction: Vec<u8>,
}

/// What a holder says, as mathematical values.
pub struct HolderModel {
    pub owner: Seq<u8>,
    pub transaction_hash: Seq<u8>,
    pub transaction: Seq<u8>,
}

impl View for Holder {
    type V = HolderModel;

    open spec fn view(&self) -> HolderModel {
        HolderModel {
            owner: self.owner@,
            transaction_hash: self.transaction_hash@,
            transaction: self.transaction@,
        }
    }
}

/// The data of a holder.
pub open spec fn holder_data(holder: HolderModel) -> Seq<u8> {
    seq![TAG_HOLDER] + holder.owner + holder.transaction_hash + le_bytes(
        holder.transaction.len(),
        8,
    ) + holder.transaction
}

/// What the data of a holder says, where it is long enough for its
/// header and for the transaction that the header announces.
pub open spec fn parsed_holder(data: Seq<u8>) -> Option<HolderModel> {
    if data.len() < HOLDER_HEADER_LEN {
        None
    } else {
        let len = le_nat(data.subrange(65, 73));
        if HOLDER_HEADER_LEN + len <= data.len() {
            Some(
                HolderModel {
                    owner: data.subrange(1, 33),
                    transaction_hash: data.subrange(33, 65),
                    transaction: data.subrange(73, 73 + len as int),
                },
            )
        } else {
            None
        }
    }
}

/// What taking an account for a holder gives: the account must be the
/// program's, carry the tag of holders, and hold a holder's data.
pub open spec fn holder_of(program_id: Pubkey, info: Account) -> Result<HolderModel> {
    match account_tag(program_id, info) {
        Err(e) => Err(e),
        Ok(tag) => if tag != TAG_HOLDER {
            Err(Error::AccountInvalidTag(info.key, tag, TAG_HOLDER))
        } else {
            match parsed_holder(info.data@) {
                Some(holder) => Ok(holder),
                None => Err(Error::AccountInvalidData(info.key)),
            }
        },
    }
}

impl Holder {
    /// The tag of holders.
    pub const TAG: u8 = TAG_HOLDER;

    /// Takes an account for a holder.
    pub fn from_account(program_id: &Pubkey, info: &Account) -> (r: Result<Holder>)
        ensures
            match r {
                Ok(holder) => holder_of(*program_id, *info) == Ok::<HolderModel, Error>(holder@),
                Err(e) => holder_of(*program_id, *info) == Err::<HolderModel, Error>(e),
            },
    {
        let found = match tag(program_id, info) {
            Ok(found) => found,
            Err(e) => { return Err(e); },
        };
        if found != TAG_HOLDER {
            return Err(Error::AccountInvalidTag(info.key, found, TAG_HOLDER));
        }
        let data = info.data.as_slice();
        if data.len() < HOLDER_HEADER_LEN {
            return Err(Error::AccountInvalidData(info.key));
        }
        let len = u64_from_le(data, 65);
        if len > (data.len() - HOLDER_HEADER_LEN) as u64 {
            return Err(Error::AccountInvalidData(info.key));
        }
        let end = HOLDER_HEADER_LEN + len as usize;
        let mut transaction: Vec<u8> = Vec::new();
        extend_bytes(&mut transaction, vstd::slice::slice_subrange(data, HOLDER_HEADER_LEN, end));
        Ok(
            Holder {
                owner: Pubkey(array_at::<32>(data, 1)),
                transaction_hash: array_at::<32>(data, 33),
                transaction,
            },
        )
    }

    /// Checks that the holder belongs to the operator.
    pub fn validate_owner(&self, operator: &Operator) -> (r: Result<()>)
        ensures
            match r {
                Ok(()) => self.owner@ == operator.key@,
                Err(e) => self.owner@ != operator.key@ && e == Error::HolderInvalidOwner(
                    self.owner,
                    operator.key,
                ),
            },
    {
        if self.owner != operator.key {
            return Err(Error::HolderInvalidOwner(self.owner, operator.key));
        }
        Ok(())
    }

    /// Checks that the holder is bound to the transaction: the hash that
    /// it was loaded under is the hash of the transaction.
    pub fn validate_transaction(&self, trx: &Transaction) -> (r: Result<()>)
        ensures
            match r {
                Ok(()) => self.transaction_hash@ == trx.hash@,
                Err(e) => self.transaction_hash@ != trx.hash@ && e == Error::HolderInvalidHash(
                    trx.hash,
                    self.transaction_hash,
                ),
            },
    {
        if !bytes_equal(self.transaction_hash.as_slice(), trx.hash.as_slice()) {
            return Err(Error::HolderInvalidHash(trx.hash, self.transaction_hash));
        }
        Ok(())
    }

    /// The bytes of the transaction.
    pub fn transaction(&self) -> (bytes: &[u8])
        ensures
            bytes@ == self.transaction@,
    {
        self.transaction.as_slice()
    }

    /// The data of the holder.
    pub fn pack(&self) -> (data: Vec<u8>)
        ensures
            data@ == holder_data(self@),
    {
        let mut data: Vec<u8> = Vec::new();
        data.push(TAG_HOLDER);
        extend_bytes(&mut data, self.owner.0.as_slice());
        extend_bytes(&mut data, self.transaction_hash.as_slice());
        extend_bytes(&mut data, u64_to_le(self.transaction.len() as u64).as_slice());
        extend_bytes(&mut data, self.transaction.as_slice());
        data
    }
}

/// The data of a holder says what the holder says.
pub proof fn lemma_holder_round_trip(holder: HolderModel)
    requires
        holder.owner.len() == 32,
        holder.transaction_hash.len() == 32,
        holder.transaction.len() <= u64::MAX,
    ensures
        parsed_holder(holder_data(holder)) == Some(holder),
{
    let data = holder_data(holder);
    let len = holder.transaction.len();
    lemma_le_bytes_len(len, 8);
    lemma_le_nat_of_le_bytes(len, 8);
    assert(pow256(8) == 0x1_0000_0000_0000_0000) by {
        reveal_with_fuel(pow256, 9);
    }
    lemma_small_mod(len, pow256(8));
    assert(data.subrange(65, 73) =~= le_bytes(len, 8));
    assert(data.subrange(1, 33) =~= holder.owner);
    assert(data.subrange(33, 65) =~= holder.transaction_hash);
    assert(data.subrange(73, 73 + len as int) =~= holder.transaction);
}

} // verus!
