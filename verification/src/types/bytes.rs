//! Numbers over byte strings: the mathematical model that the encodings
//! of this crate are stated in, the facts that relate reading to writing,
//! and the helpers that copy bytes about.
use vstd::arithmetic::div_mod::{lemma_breakdown, lemma_div_denominator};
use vstd::prelude::*;
use vstd::string::StringSliceAdditionalSpecFns;
use vstd::utf8::valid_utf8;

verus! {

/// 256 to the power `len`: the number of byte strings of length `len`.
pub open spec fn pow256(len: nat) -> nat
    decreases len,
{
    if len == 0 {
        1
    } else {
        256 * pow256((len - 1) as nat)
    }
}

/// The value of a byte string read as a big-endian number.
pub open spec fn be_nat(bytes: Seq<u8>) -> nat
    decreases bytes.len(),
{
    if bytes.len() == 0 {
        0
    } else {
        be_nat(bytes.drop_last()) * 256 + bytes.last() as nat
    }
}

/// The `len` low-order bytes of `n`, most significant byte first.
pub open spec fn be_bytes(n: nat, len: nat) -> Seq<u8>
    decreases len,
{
    if len == 0 {
        Seq::empty()
    } else {
        be_bytes(n / 256, (len - 1) as nat).push((n % 256) as u8)
    }
}

/// The value of a byte string read as a little-endian number.
pub open spec fn le_nat(bytes: Seq<u8>) -> nat
    decreases bytes.len(),
{
    if bytes.len() == 0 {
        0
    } else {
        bytes.first() as nat + 256 * le_nat(bytes.drop_first())
    }
}

/// The `len` low-order bytes of `n`, least significant byte first.
pub open spec fn le_bytes(n: nat, len: nat) -> Seq<u8>
    decreases len,
{
    if len == 0 {
        Seq::empty()
    } else {
        seq![(n % 256) as u8] + le_bytes(n / 256, (len - 1) as nat)
    }
}

/// `len` zero bytes.
pub open spec fn zeros(len: nat) -> Seq<u8> {
    Seq::new(len, |i: int| 0u8)
}

/// Every power of 256 is positive.
pub proof fn lemma_pow256_positive(len: nat)
    ensures
        pow256(len) > 0,
    decreases len,
{
    if len > 0 {
        lemma_pow256_positive((len - 1) as nat);
    }
}

/// The power of a sum is the product of the powers.
pub proof fn lemma_pow256_add(a: nat, b: nat)
    ensures
        pow256(a + b) == pow256(a) * pow256(b),
    decreases a,
{
    if a == 0 {
        assert(pow256(0 + b) == 1 * pow256(b));
    } else {
        lemma_pow256_add((a - 1) as nat, b);
        assert(256 * (pow256((a - 1) as nat) * pow256(b)) == (256 * pow256((a - 1) as nat))
            * pow256(b)) by (nonlinear_arith);
    }
}

/// A number written at a width takes that many bytes.
pub proof fn lemma_be_bytes_len(n: nat, len: nat)
    ensures
        be_bytes(n, len).len() == len,
    decreases len,
{
    if len > 0 {
        lemma_be_bytes_len(n / 256, (len - 1) as nat);
    }
}

/// Reading what was written gives the number back, reduced to the width.
pub proof fn lemma_be_nat_of_be_bytes(n: nat, len: nat)
    ensures
        be_nat(be_bytes(n, len)) == n % pow256(len),
    decreases len,
{
    if len > 0 {
        let rest = be_bytes(n / 256, (len - 1) as nat);
        lemma_be_nat_of_be_bytes(n / 256, (len - 1) as nat);
        assert(be_bytes(n, len).drop_last() =~= rest);
        let p = pow256((len - 1) as nat);
        lemma_pow256_positive((len - 1) as nat);
        lemma_breakdown(n as int, 256, p as int);
    }
}

/// The value of a concatenation: the left part shifted by the width of the
/// right part, plus the right part.
pub proof fn lemma_be_nat_concat(a: Seq<u8>, b: Seq<u8>)
    ensures
        be_nat(a + b) == be_nat(a) * pow256(b.len()) + be_nat(b),
    decreases b.len(),
{
    if b.len() == 0 {
        assert(pow256(b.len()) == 1);
    } else {
        lemma_be_nat_concat(a, b.drop_last());
        assert((a + b).drop_last() =~= a + b.drop_last());
        let p = pow256((b.len() - 1) as nat);
        let x = be_nat(a);
        let y = be_nat(b.drop_last());
        assert((x * p + y) * 256 == x * (256 * p) + y * 256) by (nonlinear_arith);
    }
}

/// Writing a number at width `hi + lo` writes its quotient by `256^lo` at
/// width `hi`, then its remainder at width `lo`.
pub proof fn lemma_be_bytes_split(n: nat, hi: nat, lo: nat)
    ensures
        be_bytes(n, hi + lo) == be_bytes(n / pow256(lo), hi) + be_bytes(n % pow256(lo), lo),
    decreases lo,
{
    lemma_pow256_positive(lo);
    if lo == 0 {
        assert(pow256(lo) == 1);
    } else {
        let p = pow256((lo - 1) as nat);
        lemma_pow256_positive((lo - 1) as nat);
        lemma_be_bytes_split(n / 256, hi, (lo - 1) as nat);
        lemma_breakdown(n as int, 256, p as int);
        lemma_div_denominator(n as int, 256, p as int);
    }
}

/// A number written at a width takes that many bytes.
pub proof fn lemma_le_bytes_len(n: nat, len: nat)
    ensures
        le_bytes(n, len).len() == len,
    decreases len,
{
    if len > 0 {
        lemma_le_bytes_len(n / 256, (len - 1) as nat);
    }
}

/// Reading little-endian bytes that were written gives the number back,
/// reduced to the width.
pub proof fn lemma_le_nat_of_le_bytes(n: nat, len: nat)
    ensures
        le_nat(le_bytes(n, len)) == n % pow256(len),
    decreases len,
{
    if len > 0 {
        let rest = le_bytes(n / 256, (len - 1) as nat);
        lemma_le_nat_of_le_bytes(n / 256, (len - 1) as nat);
        assert(le_bytes(n, len).drop_first() =~= rest);
        let p = pow256((len - 1) as nat);
        lemma_pow256_positive((len - 1) as nat);
        lemma_breakdown(n as int, 256, p as int);
    }
}

/// The `N` bytes of `bytes` that start at `offset`, as an array.
pub fn array_at<const N: usize>(bytes: &[u8], offset: usize) -> (out: [u8; N])
    requires
        offset + N <= bytes@.len(),
    ensures
        out@ == bytes@.subrange(offset as int, offset + N),
{
    let mut out = [0u8; N];
    let total = bytes.len();
    let mut i: usize = 0;
    while i < N
        invariant
            total == bytes@.len(),
            offset + N <= bytes@.len(),
            i <= N,
            out@.len() == N,
            forall|j: int| 0 <= j < i ==> out@[j] == bytes@[offset + j],
        decreases N - i,
    {
        out[i] = bytes[offset + i];
        i += 1;
    }
    out
}

/// Appends `bytes` to `buffer`.
pub fn extend_bytes(buffer: &mut Vec<u8>, bytes: &[u8])
    ensures
        final(buffer)@ == old(buffer)@ + bytes@,
{
    let mut i: usize = 0;
    while i < bytes.len()
        invariant
            i <= bytes@.len(),
            buffer@ == old(buffer)@ + bytes@.subrange(0, i as int),
        decreases bytes@.len() - i,
    {
        buffer.push(bytes[i]);
        i += 1;
    }
}

/// Whether `data` begins with `prefix`.
pub open spec fn starts_with(data: Seq<u8>, prefix: Seq<u8>) -> bool {
    data.len() >= prefix.len() && data.subrange(0, prefix.len() as int) == prefix
}

/// Whether `data` begins with the four bytes of `selector`.
pub fn has_selector(data: &[u8], selector: &[u8; 4]) -> (r: bool)
    ensures
        r == starts_with(data@, selector@),
{
    if data.len() < 4 {
        return false;
    }
    let r = data[0] == selector[0] && data[1] == selector[1] && data[2] == selector[2] && data[3]
        == selector[3];
    proof {
        if r {
            assert(data@.subrange(0, 4) =~= selector@);
        } else {
            assert(data@.subrange(0, 4)[0] == data@[0]);
        }
    }
    r
}

/// The number that the four bytes of `bytes` at `offset` spell in
/// little-endian order.
pub fn u32_from_le(bytes: &[u8], offset: usize) -> (value: u32)
    requires
        offset + 4 <= bytes@.len(),
    ensures
        value == le_nat(bytes@.subrange(offset as int, offset + 4)),
{
    let b0 = bytes[offset] as u32;
    let b1 = bytes[offset + 1] as u32;
    let b2 = bytes[offset + 2] as u32;
    let b3 = bytes[offset + 3] as u32;
    proof {
        let s0 = bytes@.subrange(offset as int, offset + 4);
        let s1 = s0.drop_first();
        let s2 = s1.drop_first();
        let s3 = s2.drop_first();
        let s4 = s3.drop_first();
        assert(le_nat(s4) == 0);
        assert(le_nat(s2) == b2 + 256 * le_nat(s3));
        assert(le_nat(s0) == b0 + 256 * le_nat(s1));
    }
    b0 + b1 * 0x100 + b2 * 0x1_0000 + b3 * 0x100_0000
}

/// The number that the eight bytes of `bytes` at `offset` spell in
/// little-endian order.
pub fn u64_from_le(bytes: &[u8], offset: usize) -> (value: u64)
    requires
        offset + 8 <= bytes@.len(),
    ensures
        value == le_nat(bytes@.subrange(offset as int, offset + 8)),
{
    let ghost whole = bytes@.subrange(offset as int, offset + 8);
    let total = bytes.len();
    let mut value: u64 = 0;
    let mut i: usize = 8;
    while i > 0
        invariant
            total == bytes@.len(),
            offset + 8 <= bytes@.len(),
            whole == bytes@.subrange(offset as int, offset + 8),
            i <= 8,
            value == le_nat(whole.skip(i as int)),
            value < pow256((8 - i) as nat),
        decreases i,
    {
        i -= 1;
        proof {
            let tail = whole.skip(i as int);
            assert(tail.drop_first() =~= whole.skip(i + 1));
            reveal_with_fuel(pow256, 9);
        }
        value = bytes[offset + i] as u64 + 256 * value;
    }
    assert(whole.skip(0) =~= whole);
    value
}

/// The eight bytes that spell `value` in little-endian order.
pub fn u64_to_le(value: u64) -> (bytes: [u8; 8])
    ensures
        bytes@ == le_bytes(value as nat, 8),
{
    let mut bytes = [0u8; 8];
    let mut rest = value;
    let mut i: usize = 0;
    while i < 8
        invariant
            i <= 8,
            bytes@.len() == 8,
            le_bytes(value as nat, 8) =~= bytes@.subrange(0, i as int) + le_bytes(
                rest as nat,
                (8 - i) as nat,
            ),
        decreases 8 - i,
    {
        bytes[i] = (rest % 256) as u8;
        rest = rest / 256;
        i += 1;
    }
    bytes
}

/// `std::str::from_utf8`: the bytes as text where they are UTF-8, and
/// nothing where they are not. The text is made of exactly these bytes.
#[verifier::external_body]
pub(crate) fn str_from_utf8(bytes: &[u8]) -> (r: Option<&str>)
    ensures
        r is Some <==> valid_utf8(bytes@),
        r matches Some(text) ==> text.spec_bytes() == bytes@,
{
    std::str::from_utf8(bytes).ok()
}

} // verus!
