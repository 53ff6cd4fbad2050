//! 256-bit unsigned integers.
//!
//! A value is held as two 128-bit words and stands for a natural number,
//! its view. Comparison and addition are done on the words here; byte
//! conversion, multiplication and text formatting are `ethnum`'s.
use crate::types::bytes::{
    be_bytes, be_nat, lemma_be_bytes_split, lemma_be_nat_concat, lemma_pow256_add, pow256,
};
use vstd::prelude::*;

verus! {

/// Two to the power 128: the weight of the high word.
pub open spec fn word_base() -> nat {
    0x1_0000_0000_0000_0000_0000_0000_0000_0000nat
}

/// The largest 256-bit value.
pub open spec fn u256_max() -> nat {
    (word_base() * word_base() - 1) as nat
}

/// The lower-case hexadecimal digit for a number below sixteen.
pub open spec fn lower_hex_digit(d: nat) -> char {
    if d < 10 {
        (0x30 + d) as u8 as char
    } else {
        (0x61 + d - 10) as u8 as char
    }
}

/// The text of a number in lower-case hexadecimal, without leading zeros.
pub open spec fn lower_hex_digits(n: nat) -> Seq<char>
    decreases n,
{
    if n < 16 {
        seq![lower_hex_digit(n)]
    } else {
        lower_hex_digits(n / 16).push(lower_hex_digit(n % 16))
    }
}

/// A 256-bit unsigned integer.
#[derive(Clone, Copy, Debug, PartialEq, Eq, Structural)]
pub struct U256 {
    pub hi: u128,
    pub lo: u128,
}

impl View for U256 {
    type V = nat;

    open spec fn view(&self) -> nat {
        self.hi as nat * word_base() + self.lo as nat
    }
}

/// `256^16` is the weight of the high word.
pub proof fn lemma_pow256_word()
    ensures
        pow256(16) == word_base(),
{
    reveal_with_fuel(pow256, 17);
}

/// Thirty-two bytes hold exactly the 256-bit values.
pub proof fn lemma_pow256_range()
    ensures
        pow256(32) == u256_max() + 1,
{
    lemma_pow256_word();
    lemma_pow256_add(16, 16);
}

/// Every value is below `256^32`.
pub proof fn lemma_u256_bound(a: U256)
    ensures
        a@ <= u256_max(),
        a@ < pow256(32),
{
    lemma_pow256_range();
    let base = word_base();
    assert(a@ <= base * base - 1) by (nonlinear_arith)
        requires
            a@ == a.hi as nat * base + a.lo as nat,
            a.hi as nat <= base - 1,
            a.lo as nat <= base - 1,
            base > 0,
    ;
}

/// The value that stands for a number below `2^256`.
pub open spec fn u256_of(n: nat) -> U256 {
    U256 { hi: (n / word_base()) as u128, lo: (n % word_base()) as u128 }
}

/// The value that stands for the number of a value is that value.
pub proof fn lemma_u256_of(a: U256)
    ensures
        u256_of(a@) == a,
{
}

/// `ethnum::U256::from_be_bytes`, then `into_words`: the high word is the
/// number that the first sixteen bytes spell in big-endian order, the low
/// word the number that the last sixteen spell.
#[verifier::external_body]
fn ethnum_from_be_bytes(bytes: &[u8; 32]) -> (words: (u128, u128))
    ensures
        words.0 as nat == be_nat(bytes@.subrange(0, 16)),
        words.1 as nat == be_nat(bytes@.subrange(16, 32)),
{
    ethnum::U256::from_be_bytes(*bytes).into_words()
}

/// `ethnum::U256::to_be_bytes` on the value made by `from_words`: the
/// sixteen big-endian bytes of the high word, then those of the low word.
#[verifier::external_body]
fn ethnum_to_be_bytes(hi: u128, lo: u128) -> (bytes: [u8; 32])
    ensures
        bytes@ == be_bytes(hi as nat, 16) + be_bytes(lo as nat, 16),
{
    ethnum::U256::from_words(hi, lo).to_be_bytes()
}

/// `ethnum::U256::saturating_mul`: the product, or the largest value where
/// the product does not fit.
#[verifier::external_body]
fn ethnum_saturating_mul(a: U256, b: U256) -> (product: U256)
    ensures
        product@ == if a@ * b@ <= u256_max() {
            a@ * b@
        } else {
            u256_max()
        },
{
    let x = ethnum::U256::from_words(a.hi, a.lo);
    let y = ethnum::U256::from_words(b.hi, b.lo);
    let (hi, lo) = x.saturating_mul(y).into_words();
    U256 { hi, lo }
}

/// `ethnum`'s `LowerHex` for `U256` with the alternate flag (`{:#x}`): the
/// prefix `0x`, then the digits without leading zeros.
#[verifier::external_body]
fn ethnum_lower_hex(a: U256) -> (text: String)
    ensures
        text@ == seq!['0', 'x'] + lower_hex_digits(a@),
{
    format!("{:#x}", ethnum::U256::from_words(a.hi, a.lo))
}

impl U256 {
    /// The value of one 128-bit integer.
    pub fn new(value: u128) -> (r: U256)
        ensures
            r@ == value,
    {
        U256 { hi: 0, lo: value }
    }

    /// The value with the given high and low words.
    pub fn from_words(hi: u128, lo: u128) -> (r: U256)
        ensures
            r.hi == hi,
            r.lo == lo,
    {
        U256 { hi, lo }
    }

    /// Zero.
    pub fn zero() -> (r: U256)
        ensures
            r@ == 0,
    {
        U256 { hi: 0, lo: 0 }
    }

    /// The largest value.
    pub fn max_value() -> (r: U256)
        ensures
            r@ == u256_max(),
    {
        let r = U256 { hi: u128::MAX, lo: u128::MAX };
        assert(r@ == u256_max()) by (nonlinear_arith)
            requires
                r.hi == 0xffff_ffff_ffff_ffff_ffff_ffff_ffff_ffff,
                r.lo == 0xffff_ffff_ffff_ffff_ffff_ffff_ffff_ffff,
        ;
        r
    }

    /// The value of one 64-bit integer.
    pub fn from_u64(value: u64) -> (r: U256)
        ensures
            r@ == value,
    {
        U256 { hi: 0, lo: value as u128 }
    }

    /// The number that thirty-two bytes spell in big-endian order.
    pub fn from_be_bytes(bytes: &[u8; 32]) -> (r: U256)
        ensures
            r@ == be_nat(bytes@),
    {
        let (hi, lo) = ethnum_from_be_bytes(bytes);
        proof {
            let head = bytes@.subrange(0, 16);
            let tail = bytes@.subrange(16, 32);
            assert(bytes@ =~= head + tail);
            lemma_be_nat_concat(head, tail);
            lemma_pow256_word();
        }
        U256 { hi, lo }
    }

    /// The thirty-two bytes that spell this value in big-endian order.
    pub fn to_be_bytes(&self) -> (bytes: [u8; 32])
        ensures
            bytes@ == be_bytes(self@, 32),
    {
        let bytes = ethnum_to_be_bytes(self.hi, self.lo);
        proof {
            lemma_pow256_word();
            lemma_be_bytes_split(self@, 16, 16);
        }
        bytes
    }

    /// This value as a `usize`, where it fits.
    pub fn as_usize(&self) -> (r: Option<usize>)
        ensures
            r is Some <==> self@ <= usize::MAX,
            r matches Some(n) ==> n == self@,
    {
        if self.hi == 0 && self.lo <= usize::MAX as u128 {
            Some(self.lo as usize)
        } else {
            None
        }
    }

    /// This value as a `u64`, where it fits.
    pub fn as_u64(&self) -> (r: Option<u64>)
        ensures
            r is Some <==> self@ <= u64::MAX,
            r matches Some(n) ==> n == self@,
    {
        if self.hi == 0 && self.lo <= u64::MAX as u128 {
            Some(self.lo as u64)
        } else {
            None
        }
    }

    /// Whether the value is zero.
    pub fn is_zero(&self) -> (r: bool)
        ensures
            r == (self@ == 0),
    {
        self.hi == 0 && self.lo == 0
    }

    /// Whether this value is less than `other`.
    pub fn lt(&self, other: &U256) -> (r: bool)
        ensures
            r == (self@ < other@),
    {
        self.hi < other.hi || (self.hi == other.hi && self.lo < other.lo)
    }

    /// Whether this value is no more than `other`.
    pub fn le(&self, other: &U256) -> (r: bool)
        ensures
            r == (self@ <= other@),
    {
        self.hi < other.hi || (self.hi == other.hi && self.lo <= other.lo)
    }

    /// The sum, where it fits in 256 bits.
    pub fn checked_add(&self, other: &U256) -> (r: Option<U256>)
        ensures
            r is Some <==> self@ + other@ <= u256_max(),
            r matches Some(sum) ==> sum@ == self@ + other@,
    {
        let (lo, carry): (u128, u128) = match self.lo.checked_add(other.lo) {
            Some(lo) => (lo, 0),
            None => (self.lo - (u128::MAX - other.lo) - 1, 1),
        };
        match self.hi.checked_add(other.hi) {
            None => None,
            Some(hi) => match hi.checked_add(carry) {
                None => None,
                Some(hi) => Some(U256 { hi, lo }),
            },
        }
    }

    /// The sum, or the largest value where the sum does not fit.
    pub fn saturating_add(&self, other: &U256) -> (r: U256)
        ensures
            r@ == if self@ + other@ <= u256_max() {
                self@ + other@
            } else {
                u256_max()
            },
    {
        match self.checked_add(other) {
            Some(sum) => sum,
            None => U256::max_value(),
        }
    }

    /// The difference, where `other` is not the larger.
    pub fn checked_sub(&self, other: &U256) -> (r: Option<U256>)
        ensures
            r is Some <==> other@ <= self@,
            r matches Some(diff) ==> diff@ == self@ - other@,
    {
        if self.lt(other) {
            None
        } else if self.lo >= other.lo {
            Some(U256 { hi: self.hi - other.hi, lo: self.lo - other.lo })
        } else {
            Some(U256 { hi: self.hi - other.hi - 1, lo: u128::MAX - other.lo + self.lo + 1 })
        }
    }

    /// Whether the value is even.
    pub fn is_even(&self) -> (r: bool)
        ensures
            r == (self@ % 2 == 0),
    {
        self.lo % 2 == 0
    }

    /// Half the value, rounded down.
    pub fn half(&self) -> (r: U256)
        ensures
            r@ == self@ / 2,
    {
        let carry: u128 = if self.hi % 2 == 1 {
            0x8000_0000_0000_0000_0000_0000_0000_0000
        } else {
            0
        };
        U256 { hi: self.hi / 2, lo: self.lo / 2 + carry }
    }

    /// The product, or the largest value where the product does not fit.
    pub fn saturating_mul(&self, other: &U256) -> (r: U256)
        ensures
            r@ == if self@ * other@ <= u256_max() {
                self@ * other@
            } else {
                u256_max()
            },
    {
        ethnum_saturating_mul(*self, *other)
    }

    /// The value as text: `0x`, then lower-case hexadecimal digits without
    /// leading zeros.
    pub fn to_lower_hex(&self) -> (text: String)
        ensures
            text@ == seq!['0', 'x'] + lower_hex_digits(self@),
    {
        ethnum_lower_hex(*self)
    }
}

} // verus!
