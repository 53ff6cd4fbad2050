//! The error taxonomy of the program, and the codec for revert payloads.
//!
//! A revert is not an error: it is a finished execution that carries a
//! reason. The reason travels as ABI-encoded bytes, either `Error(string)`
//! or `Panic(uint256)`.
use crate::types::address::{Address, Pubkey};
use crate::types::bytes::{
    array_at, be_bytes, be_nat, extend_bytes, has_selector, lemma_be_bytes_len,
    lemma_be_nat_of_be_bytes, lemma_pow256_add, lemma_pow256_positive, pow256, starts_with,
    str_from_utf8, zeros,
};
use crate::types::uint::{lemma_pow256_word, lower_hex_digit, lower_hex_digits, word_base, U256};
use vstd::arithmetic::div_mod::lemma_small_mod;
use vstd::prelude::*;
use vstd::string::{StringExecFns, StringSliceAdditionalSpecFns};
use vstd::utf8::{
    decode_utf8, encode_utf8, encode_utf8_decode_utf8, encode_utf8_valid_utf8, valid_utf8,
};

verus! {

/// Why the host refuses an instruction.
#[derive(Debug, Clone, PartialEq, Eq)]
pub enum ProgramError {
    Custom(u32),
    InvalidArgument,
    InvalidInstructionData,
    InvalidAccountData,
    AccountDataTooSmall,
    InsufficientFunds,
    IncorrectProgramId,
    MissingRequiredSignature,
    AccountAlreadyInitialized,
    UninitializedAccount,
    NotEnoughAccountKeys,
    AccountBorrowFailed,
    MaxSeedLengthExceeded,
    InvalidSeeds,
    BorshIoError(String),
    AccountNotRentExempt,
    UnsupportedSysvar,
    IllegalOwner,
    MaxAccountsDataSizeExceeded,
    InvalidRealloc,
}

/// Why a byte string is not the RLP encoding that was asked for.
#[derive(Debug, Clone, PartialEq, Eq)]
pub enum RlpError {
    RlpIsTooBig,
    RlpIsTooShort,
    RlpExpectedToBeList,
    RlpExpectedToBeData,
    RlpIncorrectListLen,
    RlpDataLenWithZeroPrefix,
    RlpListLenWithZeroPrefix,
    RlpInvalidIndirection,
    RlpInconsistentLengthAndData,
    RlpInvalidLength,
    Custom(&'static str),
}

/// Why no public key could be recovered from a signature.
#[derive(Debug, Clone, PartialEq, Eq)]
pub enum Secp256k1RecoverError {
    InvalidHash,
    InvalidRecoveryId,
    InvalidSignature,
}

/// Errors that the program may return.
#[derive(Debug, Clone, PartialEq, Eq)]
pub enum Error {
    Custom(String),
    ProgramError(ProgramError),
    RlpError(RlpError),
    Secp256k1Error(Secp256k1RecoverError),
    TryFromIntError,
    TryFromSliceError,
    /// Account not found.
    AccountMissing(Address),
    /// Account is reserved by another transaction.
    AccountBlocked(Address),
    /// Account with an unexpected tag: its key, the tag found and the tag
    /// that the caller expected.
    AccountInvalidTag(Pubkey, u8, u8),
    /// Account with an unexpected owner: its key and the expected owner.
    AccountInvalidOwner(Pubkey, Pubkey),
    /// Account with an unexpected key: its key and the expected key.
    AccountInvalidKey(Pubkey, Pubkey),
    AccountInvalidData(Pubkey),
    AccountNotWritable(Pubkey),
    AccountNotRentExempt(Pubkey),
    AccountAlreadyInitialized(Pubkey),
    UnauthorizedOperator,
    StorageAccountUninitialized,
    StorageAccountFinalized,
    UnknownPrecompileMethodSelector(Address, [u8; 4]),
    InsufficientBalance(Address, U256),
    /// Out of gas: what was available and what was asked for.
    OutOfGas(U256, U256),
    StackOverflow,
    StackUnderflow,
    PushOutOfBounds(Address),
    MemoryAccessOutOfLimits(usize, usize),
    ReturnDataCopyOverflow(usize, usize),
    StaticModeViolation(Address),
    InvalidJump(Address, usize),
    InvalidOpcode(Address, u8),
    UnknownOpcode(Address, u8),
    NonceOverflow(Address),
    /// Origin, its nonce and the nonce of the transaction.
    InvalidTransactionNonce(Address, u64, u64),
    InvalidChainId(U256),
    DeployToExistingAccount(Address, Address),
    EVMObjectFormatNotSupported(Address),
    ContractCodeSizeLimit(Address, usize),
    IntegerOverflow,
    OutOfBounds,
    /// Holder with an unexpected owner: its owner and the expected one.
    HolderInvalidOwner(Pubkey, Pubkey),
    /// Holder bound to another transaction: the hash of the transaction
    /// and the hash that the holder is bound to.
    HolderInvalidHash([u8; 32], [u8; 32]),
}

/// What the program returns.
pub type Result<T> = std::result::Result<T, Error>;

impl Error {
    /// What the host is told: a host error passes through unchanged, every
    /// other error becomes the custom code zero.
    pub fn into_program_error(self) -> (r: ProgramError)
        ensures
            r == match self {
                Error::ProgramError(e) => e,
                _ => ProgramError::Custom(0),
            },
    {
        match self {
            Error::ProgramError(e) => e,
            _ => ProgramError::Custom(0),
        }
    }
}

/// Whether an error says that `requested` gas was asked for where only
/// `available` was left.
pub open spec fn is_out_of_gas(e: Error, available: nat, requested: nat) -> bool {
    e matches Error::OutOfGas(a, r) && a@ == available && r@ == requested
}

/// The selector of `Error(string)`.
pub open spec fn error_selector() -> Seq<u8> {
    seq![0x08u8, 0xc3u8, 0x79u8, 0xa0u8]
}

/// The selector of `Panic(uint256)`.
pub open spec fn panic_selector() -> Seq<u8> {
    seq![0x4eu8, 0x48u8, 0x7bu8, 0x71u8]
}

/// The size of the data region that holds a reason of `len` bytes: `len`
/// rounded up to a multiple of 32, and never less than 32.
pub open spec fn revert_data_len(len: nat) -> nat {
    if len % 32 == 0 {
        if len > 32 {
            len
        } else {
            32
        }
    } else {
        (len / 32 + 1) * 32
    }
}

/// The `Error(string)` payload for a reason: selector, the offset `0x20`
/// and the reason's length as 32-byte big-endian words, the reason, and
/// zeros up to the end of the data region.
pub open spec fn revert_message(reason: Seq<u8>) -> Seq<u8> {
    error_selector() + be_bytes(32, 32) + be_bytes(reason.len(), 32) + reason + zeros(
        (revert_data_len(reason.len()) - reason.len()) as nat,
    )
}

/// The reason bytes of an `Error(string)` payload, if `data` is one: the
/// selector matches, at least 64 bytes follow it, the offset word is
/// exactly `0x20`, and the declared length stays inside the buffer.
pub open spec fn revert_error_reason(data: Seq<u8>) -> Option<Seq<u8>> {
    if starts_with(data, error_selector()) {
        let body = data.skip(4);
        if body.len() < 64 {
            None
        } else if be_nat(body.subrange(0, 32)) != 32 {
            None
        } else {
            let length = be_nat(body.subrange(32, 64));
            if 64 + length <= body.len() {
                Some(body.subrange(64, 64 + length as int))
            } else {
                None
            }
        }
    } else {
        None
    }
}

/// The reason text of an `Error(string)` payload: its reason bytes, where
/// they are UTF-8.
pub open spec fn revert_error_text(data: Seq<u8>) -> Option<Seq<char>> {
    match revert_error_reason(data) {
        Some(reason) => if valid_utf8(reason) {
            Some(decode_utf8(reason))
        } else {
            None
        },
        None => None,
    }
}

/// The code of a `Panic(uint256)` payload, if `data` is one: the selector
/// and exactly one 32-byte big-endian word.
pub open spec fn revert_panic_code(data: Seq<u8>) -> Option<nat> {
    if starts_with(data, panic_selector()) && data.len() == 36 {
        Some(be_nat(data.skip(4)))
    } else {
        None
    }
}

/// The text of bytes in lower-case hexadecimal, two digits a byte.
pub open spec fn hex_lower(bytes: Seq<u8>) -> Seq<char> {
    Seq::new(
        2 * bytes.len(),
        |i: int|
            if i % 2 == 0 {
                lower_hex_digit((bytes[i / 2] / 16) as nat)
            } else {
                lower_hex_digit((bytes[i / 2] % 16) as nat)
            },
    )
}

/// The log line for a revert payload.
pub open spec fn revert_line(data: Seq<u8>) -> Seq<char> {
    if data.len() == 0 {
        "Revert"@
    } else if revert_error_text(data) is Some {
        "Revert: Error(\""@ + revert_error_text(data)->0 + "\")"@
    } else if revert_panic_code(data) is Some {
        "Revert: Panic("@ + seq!['0', 'x'] + lower_hex_digits(revert_panic_code(data)->0) + ")"@
    } else {
        "Revert: "@ + hex_lower(data)
    }
}

/// A word of 32 bytes holds every length that a machine can address.
pub proof fn lemma_length_fits_word(len: nat)
    requires
        len <= usize::MAX,
    ensures
        be_nat(be_bytes(len, 32)) == len,
{
    lemma_pow256_word();
    lemma_pow256_add(16, 16);
    lemma_pow256_positive(16);
    assert(len < word_base() * word_base()) by (nonlinear_arith)
        requires
            len < word_base(),
            word_base() >= 1,
    ;
    lemma_be_nat_of_be_bytes(len, 32);
    lemma_small_mod(len, pow256(32));
}

/// The payload built for a reason decodes to that reason's bytes.
pub proof fn lemma_revert_reason_round_trip(reason: Seq<u8>)
    requires
        reason.len() <= usize::MAX,
    ensures
        revert_error_reason(revert_message(reason)) == Some(reason),
{
    let offset_word = be_bytes(32, 32);
    let length_word = be_bytes(reason.len(), 32);
    let data = revert_message(reason);
    lemma_be_bytes_len(32, 32);
    lemma_be_bytes_len(reason.len(), 32);
    lemma_length_fits_word(32);
    lemma_length_fits_word(reason.len());
    assert(data.subrange(0, 4) =~= error_selector());
    let body = data.skip(4);
    assert(body.subrange(0, 32) =~= offset_word);
    assert(body.subrange(32, 64) =~= length_word);
}

/// Encoding a text message and decoding the result gives the message back.
pub proof fn lemma_revert_message_round_trip(text: Seq<char>)
    requires
        encode_utf8(text).len() <= usize::MAX,
    ensures
        revert_error_text(revert_message(encode_utf8(text))) == Some(text),
{
    lemma_revert_reason_round_trip(encode_utf8(text));
    encode_utf8_valid_utf8(text);
    encode_utf8_decode_utf8(text);
}

/// A buffer that is shorter than a selector, or begins with another one,
/// is no payload of that kind.
pub proof fn lemma_revert_selector_mismatch(data: Seq<u8>)
    ensures
        data.len() < 4 || !starts_with(data, error_selector()) ==> revert_error_text(data) is None,
        data.len() < 4 || !starts_with(data, panic_selector()) ==> revert_panic_code(data) is None,
{
}

/// `hex::encode`: two lower-case hexadecimal digits for each byte, the
/// high four bits first.
#[verifier::external_body]
fn hex_encode(bytes: &[u8]) -> (text: String)
    ensures
        text@ == hex_lower(bytes@),
{
    hex::encode(bytes)
}

/// Decodes an `Error(string)` payload.
#[must_use]
pub fn format_revert_error(msg: &[u8]) -> (r: Option<&str>)
    ensures
        r is Some <==> revert_error_text(msg@) is Some,
        r matches Some(text) ==> revert_error_text(msg@) == Some(text@),
{
    if has_selector(msg, &[0x08, 0xc3, 0x79, 0xa0]) {
        let body = vstd::slice::slice_subrange(msg, 4, msg.len());
        if body.len() < 64 {
            return None;
        }
        let offset = U256::from_be_bytes(&array_at::<32>(body, 0));
        if offset != U256::new(32) {
            return None;
        }
        let length = U256::from_be_bytes(&array_at::<32>(body, 32));
        let length: usize = match length.as_usize() {
            Some(length) => length,
            None => { return None; },
        };
        let begin = 64_usize;
        let end = match begin.checked_add(length) {
            Some(end) => end,
            None => { return None; },
        };
        if end > body.len() {
            return None;
        }
        let reason = vstd::slice::slice_subrange(body, begin, end);
        match str_from_utf8(reason) {
            Some(text) => {
                proof {
                    encode_utf8_decode_utf8(text@);
                }
                Some(text)
            },
            None => None,
        }
    } else {
        None
    }
}

/// Decodes a `Panic(uint256)` payload.
#[must_use]
pub fn format_revert_panic(msg: &[u8]) -> (r: Option<U256>)
    ensures
        r is Some <==> revert_panic_code(msg@) is Some,
        r matches Some(code) ==> revert_panic_code(msg@) == Some(code@),
{
    if has_selector(msg, &[0x4e, 0x48, 0x7b, 0x71]) {
        let body = vstd::slice::slice_subrange(msg, 4, msg.len());
        if body.len() != 32 {
            return None;
        }
        let value = array_at::<32>(body, 0);
        assert(value@ == body@);
        Some(U256::from_be_bytes(&value))
    } else {
        None
    }
}

/// Encodes a reason as an `Error(string)` payload. The payload is a
/// hundred bytes longer than the reason at most, and must fit in memory.
#[must_use]
pub fn build_revert_message(msg: &str) -> (result: Vec<u8>)
    requires
        msg.spec_bytes().len() + 100 <= usize::MAX,
    ensures
        result@ == revert_message(msg.spec_bytes()),
{
    let bytes = msg.as_bytes();
    let len = bytes.len();
    let data_len = if len % 32 == 0 {
        if len > 32 {
            len
        } else {
            32
        }
    } else {
        ((len / 32) + 1) * 32
    };

    let capacity = 4 + 32 + 32 + data_len;
    let mut result = Vec::with_capacity(capacity);
    extend_bytes(&mut result, &[0x08, 0xc3, 0x79, 0xa0]);

    let offset = U256::new(0x20);
    extend_bytes(&mut result, offset.to_be_bytes().as_slice());

    let length = U256::new(len as u128);
    extend_bytes(&mut result, length.to_be_bytes().as_slice());

    extend_bytes(&mut result, bytes);

    proof {
        lemma_be_bytes_len(32, 32);
        lemma_be_bytes_len(len as nat, 32);
    }
    result.resize(capacity, 0);

    result
}

/// The log line for a revert payload: the reason of an `Error(string)`,
/// the code of a `Panic(uint256)`, or else the payload in hexadecimal.
pub fn revert_message_line(msg: &[u8]) -> (line: String)
    ensures
        line@ == revert_line(msg@),
{
    if msg.len() == 0 {
        return String::from_str("Revert");
    }
    if let Some(reason) = format_revert_error(msg) {
        let mut line = String::from_str("Revert: Error(\"");
        line.append(reason);
        line.append("\")");
        return line;
    }
    if let Some(code) = format_revert_panic(msg) {
        let mut line = String::from_str("Revert: Panic(");
        let code_text = code.to_lower_hex();
        line.append(code_text.as_str());
        line.append(")");
        return line;
    }
    let mut line = String::from_str("Revert: ");
    let hex_text = hex_encode(msg);
    line.append(hex_text.as_str());
    line
}

} // verus!
