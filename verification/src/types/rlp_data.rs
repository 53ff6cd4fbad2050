//! Reading RLP.
//!
//! The structure of an encoding (where an item begins, how long its
//! header and payload are, what the payload of a value is) is read by the
//! `rlp` crate. What the payloads mean, and the headers that this crate
//! writes itself, are decided here.
use crate::error::RlpError;
use crate::types::address::Address;
use crate::types::bytes::{
    array_at, be_bytes, be_nat, extend_bytes, lemma_be_bytes_len, lemma_be_nat_concat, zeros,
};
use crate::types::uint::{lemma_u256_bound, U256};
use rlp::DecoderError;
use vstd::prelude::*;

verus! {

/// `rlp::DecoderError`, carried through from the decoder to
/// `decoder_error` and never looked into.
#[verifier::external_type_specification]
#[verifier::external_body]
pub struct ExDecoderError(DecoderError);

/// What `rlp::Rlp::payload_info` finds at the start of `bytes`: the
/// lengths of the header and of the payload of the first item.
pub uninterp spec fn rlp_payload_info(bytes: Seq<u8>) -> Option<(nat, nat)>;

/// What `rlp::Rlp::at_with_offset` finds in the list that `bytes` encode:
/// the offset in `bytes` of the item at `index`, and the length of that
/// item, header included.
pub uninterp spec fn rlp_item_at(bytes: Seq<u8>, index: nat) -> Option<(nat, nat)>;

/// What `rlp::BasicDecoder::decode_value` hands to its reader: the payload
/// of the value that `bytes` encode.
pub uninterp spec fn rlp_value(bytes: Seq<u8>) -> Option<Seq<u8>>;

/// `rlp::Rlp::payload_info` on `bytes`: the lengths of the header and of
/// the payload of the first item, or the decoder's error.
#[verifier::external_body]
pub(crate) fn payload_info(bytes: &[u8]) -> (r: core::result::Result<(usize, usize), DecoderError>)
    ensures
        r is Ok <==> rlp_payload_info(bytes@) is Some,
        r matches Ok(info) ==> rlp_payload_info(bytes@) == Some((info.0 as nat, info.1 as nat)),
{
    rlp::Rlp::new(bytes).payload_info().map(|info| (info.header_len, info.value_len))
}

/// `rlp::Rlp::at_with_offset` on `bytes`: the offset of the list item at
/// `index` and the length of that item, or the decoder's error.
#[verifier::external_body]
pub(crate) fn item_at(bytes: &[u8], index: usize) -> (r: core::result::Result<
    (usize, usize),
    DecoderError,
>)
    ensures
        r is Ok <==> rlp_item_at(bytes@, index as nat) is Some,
        r matches Ok(place) ==> rlp_item_at(bytes@, index as nat) == Some(
            (place.0 as nat, place.1 as nat),
        ),
{
    rlp::Rlp::new(bytes).at_with_offset(index).map(|(item, offset)| (offset, item.as_raw().len()))
}

/// `rlp::BasicDecoder::decode_value` on `bytes`, with a reader that keeps
/// what it is handed: the payload of the value, or the decoder's error.
#[verifier::external_body]
pub(crate) fn decode_value(bytes: &[u8]) -> (r: core::result::Result<Vec<u8>, DecoderError>)
    ensures
        r is Ok <==> rlp_value(bytes@) is Some,
        r matches Ok(payload) ==> rlp_value(bytes@) == Some(payload@),
{
    rlp::Rlp::new(bytes).decoder().decode_value(|payload| Ok(payload.to_vec()))
}

/// Tells the variants of `rlp::DecoderError` apart.
#[verifier::external_body]
pub(crate) fn decoder_error(error: DecoderError) -> RlpError {
    match error {
        DecoderError::RlpIsTooBig => RlpError::RlpIsTooBig,
        DecoderError::RlpIsTooShort => RlpError::RlpIsTooShort,
        DecoderError::RlpExpectedToBeList => RlpError::RlpExpectedToBeList,
        DecoderError::RlpExpectedToBeData => RlpError::RlpExpectedToBeData,
        DecoderError::RlpIncorrectListLen => RlpError::RlpIncorrectListLen,
        DecoderError::RlpDataLenWithZeroPrefix => RlpError::RlpDataLenWithZeroPrefix,
        DecoderError::RlpListLenWithZeroPrefix => RlpError::RlpListLenWithZeroPrefix,
        DecoderError::RlpInvalidIndirection => RlpError::RlpInvalidIndirection,
        DecoderError::RlpInconsistentLengthAndData => RlpError::RlpInconsistentLengthAndData,
        DecoderError::RlpInvalidLength => RlpError::RlpInvalidLength,
        DecoderError::Custom(text) => RlpError::Custom(text),
    }
}

/// The number that a payload spells, where the payload is the canonical
/// form of a number of at most `width` bytes: big-endian, without a
/// leading zero byte.
pub open spec fn payload_number(payload: Seq<u8>, width: nat) -> core::result::Result<
    nat,
    RlpError,
> {
    if payload.len() > 0 && payload[0] == 0 {
        Err(RlpError::RlpInvalidIndirection)
    } else if payload.len() <= width {
        Ok(be_nat(payload))
    } else {
        Err(RlpError::RlpIsTooBig)
    }
}

/// The address that a payload holds: exactly twenty bytes.
pub open spec fn payload_address(payload: Seq<u8>) -> core::result::Result<Seq<u8>, RlpError> {
    if payload.len() < 20 {
        Err(RlpError::RlpIsTooShort)
    } else if payload.len() > 20 {
        Err(RlpError::RlpIsTooBig)
    } else {
        Ok(payload)
    }
}

/// The bytes of a number in big-endian order, without leading zeros.
pub open spec fn minimal_be(n: nat) -> Seq<u8>
    decreases n,
{
    if n == 0 {
        Seq::empty()
    } else {
        minimal_be(n / 256).push((n % 256) as u8)
    }
}

/// The encoding of a number as an RLP value.
pub open spec fn rlp_number(n: nat) -> Seq<u8> {
    let digits = minimal_be(n);
    if digits.len() == 1 && digits[0] < 0x80 {
        digits
    } else {
        seq![(0x80 + digits.len()) as u8] + digits
    }
}

/// The header of an RLP list whose payload is `len` bytes long.
pub open spec fn rlp_list_header(len: nat) -> Seq<u8> {
    if len <= 55 {
        seq![(0xc0 + len) as u8]
    } else {
        seq![(0xf7 + minimal_be(len).len()) as u8] + minimal_be(len)
    }
}

/// Bytes of zero spell zero.
pub proof fn lemma_be_nat_zeros(len: nat)
    ensures
        be_nat(zeros(len)) == 0,
    decreases len,
{
    if len > 0 {
        assert(zeros(len).drop_last() =~= zeros((len - 1) as nat));
        lemma_be_nat_zeros((len - 1) as nat);
    }
}

/// The minimal bytes of a number spell that number, begin with no zero,
/// and are no more than a fixed-width form of it holds.
pub proof fn lemma_minimal_be(n: nat)
    ensures
        be_nat(minimal_be(n)) == n,
        minimal_be(n).len() > 0 ==> minimal_be(n)[0] != 0,
        n > 0 ==> minimal_be(n).len() > 0,
    decreases n,
{
    if n > 0 {
        lemma_minimal_be(n / 256);
        let head = minimal_be(n / 256);
        assert(minimal_be(n).drop_last() =~= head);
    }
}

/// A fixed-width form of a number is its minimal form behind zeros.
pub proof fn lemma_be_bytes_minimal(n: nat, width: nat)
    requires
        minimal_be(n).len() <= width,
    ensures
        be_bytes(n, width) == zeros((width - minimal_be(n).len()) as nat) + minimal_be(n),
    decreases width,
{
    lemma_be_bytes_len(n, width);
    if width > 0 {
        lemma_be_bytes_minimal(n / 256, (width - 1) as nat);
    }
}

/// Reads the number that a payload spells in at most eight bytes.
pub fn decode_u64(payload: &[u8]) -> (r: core::result::Result<u64, RlpError>)
    ensures
        match r {
            Ok(n) => payload_number(payload@, 8) == Ok::<nat, RlpError>(n as nat),
            Err(e) => payload_number(payload@, 8) == Err::<nat, RlpError>(e),
        },
{
    if payload.len() > 0 && payload[0] == 0 {
        return Err(RlpError::RlpInvalidIndirection);
    }
    if payload.len() > 8 {
        return Err(RlpError::RlpIsTooBig);
    }
    let mut value: u64 = 0;
    let mut i: usize = 0;
    while i < payload.len()
        invariant
            payload@.len() <= 8,
            i <= payload@.len(),
            value == be_nat(payload@.take(i as int)),
            value < crate::types::bytes::pow256(i as nat),
        decreases payload@.len() - i,
    {
        proof {
            assert(payload@.take(i + 1).drop_last() =~= payload@.take(i as int));
            reveal_with_fuel(crate::types::bytes::pow256, 9);
        }
        value = value * 256 + payload[i] as u64;
        i += 1;
    }
    assert(payload@.take(i as int) =~= payload@);
    Ok(value)
}

/// Reads the number that a payload spells in at most thirty-two bytes.
pub fn decode_u256(payload: &[u8]) -> (r: core::result::Result<U256, RlpError>)
    ensures
        match r {
            Ok(n) => payload_number(payload@, 32) == Ok::<nat, RlpError>(n@),
            Err(e) => payload_number(payload@, 32) == Err::<nat, RlpError>(e),
        },
{
    if payload.len() > 0 && payload[0] == 0 {
        return Err(RlpError::RlpInvalidIndirection);
    }
    if payload.len() > 32 {
        return Err(RlpError::RlpIsTooBig);
    }
    let mut buffer = [0u8; 32];
    let pad = 32 - payload.len();
    let mut i: usize = 0;
    while i < payload.len()
        invariant
            pad + payload@.len() == 32,
            i <= payload@.len(),
            buffer@.len() == 32,
            forall|j: int| 0 <= j < pad ==> buffer@[j] == 0,
            forall|j: int| 0 <= j < i ==> buffer@[pad + j] == payload@[j],
        decreases payload@.len() - i,
    {
        buffer[pad + i] = payload[i];
        i += 1;
    }
    proof {
        assert(buffer@ =~= zeros(pad as nat) + payload@);
        lemma_be_nat_concat(zeros(pad as nat), payload@);
        lemma_be_nat_zeros(pad as nat);
    }
    Ok(U256::from_be_bytes(&buffer))
}

/// Reads the address that a payload holds.
pub fn decode_address(payload: &[u8]) -> (r: core::result::Result<Address, RlpError>)
    ensures
        match r {
            Ok(address) => payload_address(payload@) == Ok::<Seq<u8>, RlpError>(address@),
            Err(e) => payload_address(payload@) == Err::<Seq<u8>, RlpError>(e),
        },
{
    if payload.len() < 20 {
        Err(RlpError::RlpIsTooShort)
    } else if payload.len() > 20 {
        Err(RlpError::RlpIsTooBig)
    } else {
        let bytes = array_at::<20>(payload, 0);
        assert(bytes@ =~= payload@);
        Ok(Address(bytes))
    }
}

/// The bytes of a number in big-endian order, without leading zeros.
pub fn minimal_be_bytes(n: &U256) -> (bytes: Vec<u8>)
    ensures
        bytes@ == minimal_be(n@),
{
    let full = n.to_be_bytes();
    let mut start: usize = 0;
    while start < 32 && full[start] == 0
        invariant
            start <= 32,
            full@.len() == 32,
            forall|j: int| 0 <= j < start ==> full@[j] == 0,
        decreases 32 - start,
    {
        start += 1;
    }
    let mut bytes: Vec<u8> = Vec::new();
    extend_bytes(&mut bytes, vstd::slice::slice_subrange(full.as_slice(), start, 32));
    proof {
        let digits = minimal_be(n@);
        lemma_minimal_be(n@);
        lemma_be_bytes_len(n@, 32);
        assert(digits.len() <= 32) by {
            lemma_u256_bound(*n);
            lemma_minimal_be_width(n@, 32);
        }
        lemma_be_bytes_minimal(n@, 32);
        let pad = (32 - digits.len()) as nat;
        if start > pad {
            assert(full@[pad as int] == digits[0]);
        }
    }
    bytes
}

/// A number below `256^width` has no more than `width` minimal bytes.
pub proof fn lemma_minimal_be_width(n: nat, width: nat)
    requires
        n < crate::types::bytes::pow256(width),
    ensures
        minimal_be(n).len() <= width,
    decreases width,
{
    if n > 0 && width > 0 {
        lemma_minimal_be_width(n / 256, (width - 1) as nat);
    }
}

/// Encodes a number as an RLP value.
pub fn encode_number(n: &U256) -> (bytes: Vec<u8>)
    ensures
        bytes@ == rlp_number(n@),
{
    let digits = minimal_be_bytes(n);
    if digits.len() == 1 && digits[0] < 0x80 {
        digits
    } else {
        proof {
            lemma_u256_bound(*n);
            lemma_minimal_be_width(n@, 32);
        }
        let mut bytes: Vec<u8> = Vec::new();
        bytes.push(0x80 + digits.len() as u8);
        extend_bytes(&mut bytes, digits.as_slice());
        bytes
    }
}

/// Writes the header of an RLP list whose payload is `len` bytes long.
pub fn encode_list_header(len: usize) -> (bytes: Vec<u8>)
    ensures
        bytes@ == rlp_list_header(len as nat),
{
    let mut bytes: Vec<u8> = Vec::new();
    if len <= 55 {
        bytes.push(0xc0 + len as u8);
    } else {
        let digits = minimal_be_bytes(&U256::new(len as u128));
        proof {
            reveal_with_fuel(crate::types::bytes::pow256, 9);
            lemma_minimal_be_width(len as nat, 8);
        }
        bytes.push(0xf7 + digits.len() as u8);
        extend_bytes(&mut bytes, digits.as_slice());
    }
    bytes
}

} // verus!
