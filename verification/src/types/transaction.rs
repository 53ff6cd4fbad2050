//! Signed transactions.
//!
//! A transaction arrives as the RLP list of nine items that its sender
//! signed and sent: nonce, gas price, gas limit, recipient, value, call
//! data, and the signature `v`, `r`, `s`. The chain that it was signed for
//! and the recovery id are folded into `v`. Its sender is not among the
//! items: the sender is whoever the signature recovers to.
use crate::error::{Error, Result, RlpError, Secp256k1RecoverError};
use crate::types::address::Address;
use crate::types::bytes::{array_at, be_bytes, extend_bytes};
use crate::types::rlp_data::{
    decode_address, decode_u256, decode_u64, decode_value, decoder_error, encode_list_header,
    encode_number, item_at, payload_address, payload_info, payload_number, rlp_item_at,
    rlp_list_header, rlp_number, rlp_payload_info, rlp_value,
};
use crate::types::uint::U256;
use vstd::prelude::*;

verus! {

/// The Keccak-256 hash of `data`, as `solana_program::keccak::hash`
/// computes it.
pub uninterp spec fn keccak256(data: Seq<u8>) -> Seq<u8>;

/// What `solana_program::secp256k1_recover::secp256k1_recover` recovers
/// from a message hash, a recovery id and a 64-byte signature: the 64
/// bytes of a public key, or the reason why there is none.
pub uninterp spec fn secp256k1_recovered(
    hash: Seq<u8>,
    recovery_id: u8,
    signature: Seq<u8>,
) -> core::result::Result<Seq<u8>, Secp256k1RecoverError>;

/// `solana_program::keccak::hash`: the Keccak-256 hash of `data`.
#[verifier::external_body]
fn keccak_hash(data: &[u8]) -> (hash: [u8; 32])
    ensures
        hash@ == keccak256(data@),
{
    solana_program::keccak::hash(data).to_bytes()
}

/// `solana_program::secp256k1_recover::secp256k1_recover`: the public key
/// that signed `hash`, or the reason why none can be recovered.
#[verifier::external_body]
fn secp256k1_recover(hash: &[u8], recovery_id: u8, signature: &[u8]) -> (r: core::result::Result<
    [u8; 64],
    Secp256k1RecoverError,
>)
    ensures
        match r {
            Ok(key) => secp256k1_recovered(hash@, recovery_id, signature@) == Ok::<
                Seq<u8>,
                Secp256k1RecoverError,
            >(key@),
            Err(e) => secp256k1_recovered(hash@, recovery_id, signature@) == Err::<
                Seq<u8>,
                Secp256k1RecoverError,
            >(e),
        },
{
    match solana_program::secp256k1_recover::secp256k1_recover(hash, recovery_id, signature) {
        Ok(key) => Ok(key.to_bytes()),
        Err(solana_program::secp256k1_recover::Secp256k1RecoverError::InvalidHash) => Err(
            Secp256k1RecoverError::InvalidHash,
        ),
        Err(solana_program::secp256k1_recover::Secp256k1RecoverError::InvalidRecoveryId) => Err(
            Secp256k1RecoverError::InvalidRecoveryId,
        ),
        Err(solana_program::secp256k1_recover::Secp256k1RecoverError::InvalidSignature) => Err(
            Secp256k1RecoverError::InvalidSignature,
        ),
    }
}

/// A decoded transaction.
#[derive(Debug, Clone, PartialEq, Eq)]
pub struct Transaction {
    pub nonce: u64,
    pub gas_price: U256,
    pub gas_limit: U256,
    pub target: Option<Address>,
    pub value: U256,
    pub call_data: Vec<u8>,
    pub v: U256,
    pub r: U256,
    pub s: U256,
    /// The chain that the transaction was signed for; none for a legacy
    /// transaction, which is valid on every chain.
    pub chain_id: Option<U256>,
    pub recovery_id: u8,
    /// The length of the encoding that the transaction was decoded from.
    pub rlp_len: usize,
    /// The hash of the transaction.
    pub hash: [u8; 32],
    /// The hash that the sender signed.
    pub signed_hash: [u8; 32],
}

/// What a transaction says, as mathematical values.
pub struct TransactionModel {
    pub nonce: u64,
    pub gas_price: nat,
    pub gas_limit: nat,
    pub target: Option<Seq<u8>>,
    pub value: nat,
    pub call_data: Seq<u8>,
    pub v: nat,
    pub r: nat,
    pub s: nat,
    pub chain_id: Option<nat>,
    pub recovery_id: u8,
    pub rlp_len: nat,
    pub hash: Seq<u8>,
    pub signed_hash: Seq<u8>,
}

impl View for Transaction {
    type V = TransactionModel;

    open spec fn view(&self) -> TransactionModel {
        TransactionModel {
            nonce: self.nonce,
            gas_price: self.gas_price@,
            gas_limit: self.gas_limit@,
            target: match self.target {
                Some(address) => Some(address@),
                None => None,
            },
            value: self.value@,
            call_data: self.call_data@,
            v: self.v@,
            r: self.r@,
            s: self.s@,
            chain_id: match self.chain_id {
                Some(id) => Some(id@),
                None => None,
            },
            recovery_id: self.recovery_id,
            rlp_len: self.rlp_len as nat,
            hash: self.hash@,
            signed_hash: self.signed_hash@,
        }
    }
}

/// What `v` says: the chain that the transaction was signed for, if any,
/// and the recovery id of the signature. From 35 on, `v` is twice the
/// chain id plus 35 plus the recovery id; 27 and 28 are the two recovery
/// ids of a legacy transaction; anything else is no signature.
pub open spec fn signature_parameters(v: nat) -> core::result::Result<(Option<nat>, u8), RlpError> {
    if v >= 35 {
        Ok(
            (
                Some(((v - 35) / 2) as nat),
                if v % 2 == 0 {
                    1u8
                } else {
                    0u8
                },
            ),
        )
    } else if v == 27 {
        Ok((None, 0u8))
    } else if v == 28 {
        Ok((None, 1u8))
    } else {
        Err(RlpError::RlpExpectedToBeData)
    }
}

/// What follows the six signed items in the list that is hashed for
/// signing: the chain id and two empty values, or nothing for a legacy
/// transaction.
pub open spec fn signing_trailer(chain_id: Option<nat>) -> Seq<u8> {
    match chain_id {
        Some(id) => rlp_number(id) + seq![0x80u8, 0x80u8],
        None => Seq::empty(),
    }
}

/// The list that is hashed for signing: the first six items of the
/// transaction, which lie between its header and `v`, then the trailer,
/// under a header of their own.
pub open spec fn signing_payload(
    bytes: Seq<u8>,
    header_len: nat,
    v_offset: nat,
    chain_id: Option<nat>,
) -> Seq<u8> {
    let middle = bytes.subrange(header_len as int, v_offset as int);
    let trailer = signing_trailer(chain_id);
    rlp_list_header(middle.len() + trailer.len()) + middle + trailer
}

/// The item at `index` of the list that `bytes` encode, header included.
pub open spec fn list_item(bytes: Seq<u8>, index: nat) -> Option<Seq<u8>> {
    match rlp_item_at(bytes, index) {
        Some((offset, len)) => if offset + len <= bytes.len() {
            Some(bytes.subrange(offset as int, (offset + len) as int))
        } else {
            None
        },
        None => None,
    }
}

/// The number that the item at `index` spells in at most `width` bytes.
pub open spec fn list_number(bytes: Seq<u8>, index: nat, width: nat) -> Option<nat> {
    match list_item(bytes, index) {
        Some(item) => match rlp_value(item) {
            Some(payload) => match payload_number(payload, width) {
                Ok(n) => Some(n),
                Err(_) => None,
            },
            None => None,
        },
        None => None,
    }
}

/// The payload of the item at `index`.
pub open spec fn list_data(bytes: Seq<u8>, index: nat) -> Option<Seq<u8>> {
    match list_item(bytes, index) {
        Some(item) => match rlp_payload_info(item) {
            Some((header_len, value_len)) => if header_len + value_len <= item.len() {
                Some(item.subrange(header_len as int, (header_len + value_len) as int))
            } else {
                None
            },
            None => None,
        },
        None => None,
    }
}

/// The recipient that the item at `index` names: none where the item is
/// the empty value, an address where it holds twenty bytes.
pub open spec fn list_target(bytes: Seq<u8>, index: nat) -> Option<Option<Seq<u8>>> {
    match list_item(bytes, index) {
        Some(item) => if item.len() > 0 && item[0] == 0x80 {
            Some(None)
        } else if item.len() > 0 && item[0] == 0xc0 {
            None
        } else {
            match rlp_value(item) {
                Some(payload) => match payload_address(payload) {
                    Ok(address) => Some(Some(address)),
                    Err(_) => None,
                },
                None => None,
            }
        },
        None => None,
    }
}

/// The length of the header of the item that `bytes` begin with.
pub open spec fn header_len_of(bytes: Seq<u8>) -> nat {
    match rlp_payload_info(bytes) {
        Some((header_len, _)) => header_len,
        None => 0,
    }
}

/// The offset in `bytes` of the list item at `index`.
pub open spec fn item_offset(bytes: Seq<u8>, index: nat) -> nat {
    match rlp_item_at(bytes, index) {
        Some((offset, _)) => offset,
        None => 0,
    }
}

/// The chain that `v` names, if it names one.
pub open spec fn chain_id_of(v: nat) -> Option<nat> {
    match signature_parameters(v) {
        Ok((chain_id, _)) => chain_id,
        Err(_) => None,
    }
}

/// The recovery id that `v` names.
pub open spec fn recovery_id_of(v: nat) -> u8 {
    match signature_parameters(v) {
        Ok((_, recovery_id)) => recovery_id,
        Err(_) => 0,
    }
}

/// Whether `bytes` are one RLP item and nothing else.
pub open spec fn is_whole_item(bytes: Seq<u8>) -> bool {
    rlp_payload_info(bytes) matches Some((header_len, value_len)) && header_len + value_len
        == bytes.len()
}

/// Whether `bytes` are the encoding of a transaction.
pub open spec fn is_transaction(bytes: Seq<u8>) -> bool {
    &&& is_whole_item(bytes)
    &&& list_number(bytes, 0, 8) is Some
    &&& list_number(bytes, 1, 32) is Some
    &&& list_number(bytes, 2, 32) is Some
    &&& list_target(bytes, 3) is Some
    &&& list_number(bytes, 4, 32) is Some
    &&& list_data(bytes, 5) is Some
    &&& list_number(bytes, 6, 32) is Some
    &&& list_number(bytes, 7, 32) is Some
    &&& list_number(bytes, 8, 32) is Some
    &&& rlp_item_at(bytes, 9) is None
    &&& signature_parameters(list_number(bytes, 6, 32)->0) is Ok
    &&& header_len_of(bytes) <= item_offset(bytes, 6) <= bytes.len()
}

/// What the encoding of a transaction says.
pub open spec fn decoded_transaction(bytes: Seq<u8>) -> TransactionModel
    recommends
        is_transaction(bytes),
{
    let v = list_number(bytes, 6, 32)->0;
    let chain_id = chain_id_of(v);
    TransactionModel {
        nonce: list_number(bytes, 0, 8)->0 as u64,
        gas_price: list_number(bytes, 1, 32)->0,
        gas_limit: list_number(bytes, 2, 32)->0,
        target: list_target(bytes, 3)->0,
        value: list_number(bytes, 4, 32)->0,
        call_data: list_data(bytes, 5)->0,
        v,
        r: list_number(bytes, 7, 32)->0,
        s: list_number(bytes, 8, 32)->0,
        chain_id,
        recovery_id: recovery_id_of(v),
        rlp_len: bytes.len(),
        hash: keccak256(bytes),
        signed_hash: keccak256(
            signing_payload(bytes, header_len_of(bytes), item_offset(bytes, 6), chain_id),
        ),
    }
}

/// Whether a transaction may run on the configured chain: one that names
/// a chain must name exactly the configured one; one that names none is
/// let through.
pub open spec fn chain_id_accepted(declared: Option<nat>, expected: Option<U256>) -> bool {
    match declared {
        Some(id) => expected matches Some(configured) && configured@ == id,
        None => true,
    }
}

/// The address of the account that a public key controls: the last
/// twenty bytes of the key's hash.
pub open spec fn key_address(public_key: Seq<u8>) -> Seq<u8> {
    keccak256(public_key).subrange(12, 32)
}

/// The sender of a transaction: the address of the key that its
/// signature recovers to.
pub open spec fn recovered_caller(
    signed_hash: Seq<u8>,
    recovery_id: u8,
    r: nat,
    s: nat,
) -> core::result::Result<Seq<u8>, Secp256k1RecoverError> {
    match secp256k1_recovered(signed_hash, recovery_id, be_bytes(r, 32) + be_bytes(s, 32)) {
        Ok(public_key) => Ok(key_address(public_key)),
        Err(e) => Err(e),
    }
}

/// Reads what `v` says.
pub fn read_signature_parameters(v: &U256) -> (r: core::result::Result<
    (Option<U256>, u8),
    RlpError,
>)
    ensures
        match r {
            Ok((chain_id, recovery_id)) => signature_parameters(v@) == Ok::<
                (Option<nat>, u8),
                RlpError,
            >(
                (
                    match chain_id {
                        Some(id) => Some(id@),
                        None => None,
                    },
                    recovery_id,
                ),
            ),
            Err(e) => signature_parameters(v@) == Err::<(Option<nat>, u8), RlpError>(e),
        },
{
    match v.checked_sub(&U256::new(35)) {
        Some(rest) => {
            let chain_id = rest.half();
            let recovery_id: u8 = if v.is_even() {
                1
            } else {
                0
            };
            Ok((Some(chain_id), recovery_id))
        },
        None => {
            if *v == U256::new(27) {
                Ok((None, 0))
            } else if *v == U256::new(28) {
                Ok((None, 1))
            } else {
                Err(RlpError::RlpExpectedToBeData)
            }
        },
    }
}

/// Builds the list that is hashed for signing.
pub fn build_signing_payload(
    bytes: &[u8],
    header_len: usize,
    v_offset: usize,
    chain_id: Option<U256>,
) -> (payload: Vec<u8>)
    requires
        header_len <= v_offset <= bytes@.len(),
        bytes@.len() + 64 <= usize::MAX,
    ensures
        payload@ == signing_payload(
            bytes@,
            header_len as nat,
            v_offset as nat,
            match chain_id {
                Some(id) => Some(id@),
                None => None,
            },
        ),
{
    let middle = vstd::slice::slice_subrange(bytes, header_len, v_offset);
    let mut trailer: Vec<u8> = Vec::new();
    match chain_id {
        Some(id) => {
            let number = encode_number(&id);
            proof {
                crate::types::uint::lemma_u256_bound(id);
                crate::types::rlp_data::lemma_minimal_be_width(id@, 32);
            }
            extend_bytes(&mut trailer, number.as_slice());
            trailer.push(0x80);
            trailer.push(0x80);
        },
        None => {},
    }
    let mut payload = encode_list_header(middle.len() + trailer.len());
    extend_bytes(&mut payload, middle);
    extend_bytes(&mut payload, trailer.as_slice());
    payload
}

/// Reads the list item at `index`.
fn read_item(bytes: &[u8], index: usize) -> (r: core::result::Result<&[u8], RlpError>)
    ensures
        r is Ok <==> list_item(bytes@, index as nat) is Some,
        r matches Ok(item) ==> list_item(bytes@, index as nat) == Some(item@),
{
    let total = bytes.len();
    match item_at(bytes, index) {
        Ok((offset, len)) => {
            match offset.checked_add(len) {
                Some(end) => {
                    if end <= total {
                        Ok(vstd::slice::slice_subrange(bytes, offset, end))
                    } else {
                        Err(RlpError::RlpIsTooShort)
                    }
                },
                None => Err(RlpError::RlpIsTooShort),
            }
        },
        Err(e) => Err(decoder_error(e)),
    }
}

/// Reads the number that the list item at `index` spells in at most
/// eight bytes.
fn read_u64(bytes: &[u8], index: usize) -> (r: core::result::Result<u64, RlpError>)
    ensures
        r is Ok <==> list_number(bytes@, index as nat, 8) is Some,
        r matches Ok(n) ==> list_number(bytes@, index as nat, 8) == Some(n as nat),
{
    let item = match read_item(bytes, index) {
        Ok(item) => item,
        Err(e) => { return Err(e); },
    };
    match decode_value(item) {
        Ok(payload) => decode_u64(payload.as_slice()),
        Err(e) => Err(decoder_error(e)),
    }
}

/// Reads the number that the list item at `index` spells in at most
/// thirty-two bytes.
fn read_u256(bytes: &[u8], index: usize) -> (r: core::result::Result<U256, RlpError>)
    ensures
        r is Ok <==> list_number(bytes@, index as nat, 32) is Some,
        r matches Ok(n) ==> list_number(bytes@, index as nat, 32) == Some(n@),
{
    let item = match read_item(bytes, index) {
        Ok(item) => item,
        Err(e) => { return Err(e); },
    };
    match decode_value(item) {
        Ok(payload) => decode_u256(payload.as_slice()),
        Err(e) => Err(decoder_error(e)),
    }
}

/// Reads the payload of the list item at `index`.
fn read_data(bytes: &[u8], index: usize) -> (r: core::result::Result<Vec<u8>, RlpError>)
    ensures
        r is Ok <==> list_data(bytes@, index as nat) is Some,
        r matches Ok(data) ==> list_data(bytes@, index as nat) == Some(data@),
{
    let item = match read_item(bytes, index) {
        Ok(item) => item,
        Err(e) => { return Err(e); },
    };
    let total = item.len();
    match payload_info(item) {
        Ok((header_len, value_len)) => {
            match header_len.checked_add(value_len) {
                Some(end) => {
                    if end <= total {
                        let mut data: Vec<u8> = Vec::new();
                        extend_bytes(&mut data, vstd::slice::slice_subrange(item, header_len, end));
                        Ok(data)
                    } else {
                        Err(RlpError::RlpIsTooShort)
                    }
                },
                None => Err(RlpError::RlpIsTooShort),
            }
        },
        Err(e) => Err(decoder_error(e)),
    }
}

/// Reads the recipient that the list item at `index` names.
fn read_target(bytes: &[u8], index: usize) -> (r: core::result::Result<Option<Address>, RlpError>)
    ensures
        r is Ok <==> list_target(bytes@, index as nat) is Some,
        r matches Ok(target) ==> list_target(bytes@, index as nat) == Some(
            match target {
                Some(address) => Some(address@),
                None => None,
            },
        ),
{
    let item = match read_item(bytes, index) {
        Ok(item) => item,
        Err(e) => { return Err(e); },
    };
    if item.len() > 0 && item[0] == 0x80 {
        Ok(None)
    } else if item.len() > 0 && item[0] == 0xc0 {
        Err(RlpError::RlpExpectedToBeData)
    } else {
        match decode_value(item) {
            Ok(payload) => match decode_address(payload.as_slice()) {
                Ok(address) => Ok(Some(address)),
                Err(e) => Err(e),
            },
            Err(e) => Err(decoder_error(e)),
        }
    }
}

impl Transaction {
    /// Decodes a transaction. Anything that is not the encoding of one is
    /// refused with a decoding error.
    pub fn from_rlp(transaction: &[u8]) -> (r: Result<Transaction>)
        requires
            transaction@.len() + 64 <= usize::MAX,
        ensures
            r is Ok <==> is_transaction(transaction@),
            r matches Ok(trx) ==> trx@ == decoded_transaction(transaction@),
            r matches Err(e) ==> e is RlpError,
    {
        let header_len = match payload_info(transaction) {
            Ok((header_len, value_len)) => {
                match header_len.checked_add(value_len) {
                    Some(rlp_len) => {
                        if transaction.len() != rlp_len {
                            return Err(Error::RlpError(RlpError::RlpInconsistentLengthAndData));
                        }
                    },
                    None => {
                        return Err(Error::RlpError(RlpError::RlpInconsistentLengthAndData));
                    },
                }
                header_len
            },
            Err(e) => { return Err(Error::RlpError(decoder_error(e))); },
        };
        let nonce = match read_u64(transaction, 0) {
            Ok(n) => n,
            Err(e) => { return Err(Error::RlpError(e)); },
        };
        let gas_price = match read_u256(transaction, 1) {
            Ok(n) => n,
            Err(e) => { return Err(Error::RlpError(e)); },
        };
        let gas_limit = match read_u256(transaction, 2) {
            Ok(n) => n,
            Err(e) => { return Err(Error::RlpError(e)); },
        };
        let target = match read_target(transaction, 3) {
            Ok(target) => target,
            Err(e) => { return Err(Error::RlpError(e)); },
        };
        let value = match read_u256(transaction, 4) {
            Ok(n) => n,
            Err(e) => { return Err(Error::RlpError(e)); },
        };
        let call_data = match read_data(transaction, 5) {
            Ok(data) => data,
            Err(e) => { return Err(Error::RlpError(e)); },
        };
        let v = match read_u256(transaction, 6) {
            Ok(n) => n,
            Err(e) => { return Err(Error::RlpError(e)); },
        };
        let r = match read_u256(transaction, 7) {
            Ok(n) => n,
            Err(e) => { return Err(Error::RlpError(e)); },
        };
        let s = match read_u256(transaction, 8) {
            Ok(n) => n,
            Err(e) => { return Err(Error::RlpError(e)); },
        };
        if item_at(transaction, 9).is_ok() {
            return Err(Error::RlpError(RlpError::RlpIncorrectListLen));
        }
        let (chain_id, recovery_id) = match read_signature_parameters(&v) {
            Ok(parameters) => parameters,
            Err(e) => { return Err(Error::RlpError(e)); },
        };
        let v_offset = match item_at(transaction, 6) {
            Ok((offset, _)) => offset,
            Err(e) => { return Err(Error::RlpError(decoder_error(e))); },
        };
        if header_len > v_offset || v_offset > transaction.len() {
            return Err(Error::RlpError(RlpError::RlpInconsistentLengthAndData));
        }
        let hash = keccak_hash(transaction);
        let payload = build_signing_payload(transaction, header_len, v_offset, chain_id);
        let signed_hash = keccak_hash(payload.as_slice());

        let trx = Transaction {
            nonce,
            gas_price,
            gas_limit,
            target,
            value,
            call_data,
            v,
            r,
            s,
            chain_id,
            recovery_id,
            rlp_len: transaction.len(),
            hash,
            signed_hash,
        };
        Ok(trx)
    }

    /// Checks the chain that the transaction was signed for against the
    /// configured one. A transaction that names a chain must name exactly
    /// the configured one; the error names the chain of the transaction.
    /// A transaction that names none is let through.
    pub fn validate_chain_id(&self, expected: Option<U256>) -> (r: Result<()>)
        ensures
            match r {
                Ok(()) => chain_id_accepted(self@.chain_id, expected),
                Err(e) => {
                    &&& !chain_id_accepted(self@.chain_id, expected)
                    &&& self.chain_id matches Some(declared)
                    &&& e == Error::InvalidChainId(declared)
                },
            },
    {
        match self.chain_id {
            Some(declared) => {
                let accepted = match expected {
                    Some(configured) => configured == declared,
                    None => false,
                };
                if !accepted {
                    return Err(Error::InvalidChainId(declared));
                }
                Ok(())
            },
            None => Ok(()),
        }
    }

    /// Checks the nonce of the transaction against the nonce of its
    /// sender: the sender must have a nonce left to use, and the
    /// transaction must carry exactly the sender's nonce.
    pub fn validate_nonce(&self, origin: Address, origin_nonce: u64) -> (r: Result<()>)
        ensures
            r == if origin_nonce == u64::MAX {
                Err::<(), Error>(Error::NonceOverflow(origin))
            } else if origin_nonce != self.nonce {
                Err::<(), Error>(Error::InvalidTransactionNonce(origin, origin_nonce, self.nonce))
            } else {
                Ok::<(), Error>(())
            },
    {
        if origin_nonce == u64::MAX {
            return Err(Error::NonceOverflow(origin));
        }
        if origin_nonce != self.nonce {
            return Err(Error::InvalidTransactionNonce(origin, origin_nonce, self.nonce));
        }
        Ok(())
    }

    /// Recovers the sender from the signature.
    pub fn recover_caller_address(&self) -> (r: Result<Address>)
        ensures
            match r {
                Ok(address) => recovered_caller(
                    self.signed_hash@,
                    self.recovery_id,
                    self.r@,
                    self.s@,
                ) == Ok::<Seq<u8>, Secp256k1RecoverError>(address@),
                Err(e) => {
                    &&& e matches Error::Secp256k1Error(reason)
                    &&& recovered_caller(self.signed_hash@, self.recovery_id, self.r@, self.s@)
                        == Err::<Seq<u8>, Secp256k1RecoverError>(reason)
                },
            },
    {
        let mut signature: Vec<u8> = Vec::new();
        extend_bytes(&mut signature, self.r.to_be_bytes().as_slice());
        extend_bytes(&mut signature, self.s.to_be_bytes().as_slice());
        let public_key = match secp256k1_recover(
            self.signed_hash.as_slice(),
            self.recovery_id,
            signature.as_slice(),
        ) {
            Ok(key) => key,
            Err(e) => { return Err(Error::Secp256k1Error(e)); },
        };
        let hash = keccak_hash(public_key.as_slice());
        let address = array_at::<20>(hash.as_slice(), 12);
        Ok(Address(address))
    }
}

} // verus!
