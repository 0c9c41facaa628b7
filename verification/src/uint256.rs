//! Unsigned 256-bit and 512-bit integers, held as 64-bit words.
//!
//! The arithmetic itself is done by `ethers::types::U256` and `U512`; this
//! module gives each operation a contract over the mathematical value of its
//! operands.

use ethers::types::{U256, U512};
use vstd::prelude::*;

verus! {

/// 2^64, the weight of the second word.
pub open spec fn two_pow_64() -> nat {
    0x1_0000_0000_0000_0000nat
}

/// 2^128, the weight of the third word.
pub open spec fn two_pow_128() -> nat {
    0x1_0000_0000_0000_0000_0000_0000_0000_0000nat
}

/// 2^192, the weight of the fourth word.
pub open spec fn two_pow_192() -> nat {
    0x1_0000_0000_0000_0000_0000_0000_0000_0000_0000_0000_0000_0000nat
}

/// 2^256, one more than the largest value a `Uint256` holds.
pub open spec fn two_pow_256() -> nat {
    0x1_0000_0000_0000_0000_0000_0000_0000_0000_0000_0000_0000_0000_0000_0000_0000_0000nat
}

/// The number that a byte string denotes when read most significant byte first.
pub open spec fn be_value(bytes: Seq<u8>) -> nat
    decreases bytes.len(),
{
    if bytes.len() == 0 {
        0
    } else {
        be_value(bytes.drop_last()) * 256 + bytes.last() as nat
    }
}

/// The `len` bytes that hold `value` most significant byte first; a value
/// that needs more bytes loses its upper part.
pub open spec fn be_bytes(value: nat, len: nat) -> Seq<u8>
    decreases len,
{
    if len == 0 {
        Seq::empty()
    } else {
        be_bytes(value / 256, (len - 1) as nat).push((value % 256) as u8)
    }
}

/// 256 to the power `len`: the number of values that `len` bytes can hold.
pub open spec fn pow256(len: nat) -> nat
    decreases len,
{
    if len == 0 {
        1
    } else {
        256 * pow256((len - 1) as nat)
    }
}

/// `be_bytes` gives `len` bytes, and reading them back gives the value
/// again, less what did not fit.
pub proof fn lemma_be_bytes_round_trip(value: nat, len: nat)
    ensures
        be_bytes(value, len).len() == len,
        pow256(len) > 0,
        be_value(be_bytes(value, len)) == value % pow256(len),
    decreases len,
{
    if len > 0 {
        let rest = (len - 1) as nat;
        lemma_be_bytes_round_trip(value / 256, rest);
        let bytes = be_bytes(value, len);
        assert(bytes.drop_last() =~= be_bytes(value / 256, rest));
        assert(bytes.last() == (value % 256) as u8);
        vstd::arithmetic::div_mod::lemma_mod_breakdown(value as int, 256, pow256(rest) as int);
        assert(((value / 256) % pow256(rest)) * 256 == 256 * ((value / 256) % pow256(rest)))
            by (nonlinear_arith);
    }
}

/// An unsigned 256-bit integer; `w0` is the least significant word.
#[derive(Clone, Copy, Debug, PartialEq, Eq, Structural)]
pub struct Uint256 {
    pub w0: u64,
    pub w1: u64,
    pub w2: u64,
    pub w3: u64,
}

impl Uint256 {
    /// The number this value stands for.
    pub open spec fn value(self) -> nat {
        self.w0 as nat + self.w1 as nat * two_pow_64() + self.w2 as nat * two_pow_128()
            + self.w3 as nat * two_pow_192()
    }

    /// Zero.
    pub fn zero() -> (r: Self)
        ensures
            r.value() == 0,
    {
        Uint256 { w0: 0, w1: 0, w2: 0, w3: 0 }
    }

    /// The 256-bit integer equal to `v`.
    pub fn from_u64(v: u64) -> (r: Self)
        ensures
            r.value() == v,
    {
        Uint256 { w0: v, w1: 0, w2: 0, w3: 0 }
    }

    /// The 256-bit integer equal to `v`.
    pub fn from_u128(v: u128) -> (r: Self)
        ensures
            r.value() == v,
    {
        let low: u128 = v & 0xffff_ffff_ffff_ffff;
        let high: u128 = v >> 64;
        assert(low <= 0xffff_ffff_ffff_ffff && high <= 0xffff_ffff_ffff_ffff && v == low + high
            * 0x1_0000_0000_0000_0000) by (bit_vector)
            requires
                low == v & 0xffff_ffff_ffff_ffff,
                high == v >> 64,
        ;
        Uint256 { w0: low as u64, w1: high as u64, w2: 0, w3: 0 }
    }

    /// Whether the value is zero.
    pub fn is_zero(&self) -> (r: bool)
        ensures
            r == (self.value() == 0),
    {
        self.w0 == 0 && self.w1 == 0 && self.w2 == 0 && self.w3 == 0
    }

    /// The value as a `u128`, where it fits.
    pub fn to_u128(&self) -> (r: Option<u128>)
        ensures
            match r {
                Some(v) => v == self.value(),
                None => self.value() >= two_pow_128(),
            },
    {
        if self.w2 == 0 && self.w3 == 0 {
            let low: u128 = self.w0 as u128;
            let high: u128 = self.w1 as u128;
            assert(high * 0x1_0000_0000_0000_0000 <= 0xffff_ffff_ffff_ffff_0000_0000_0000_0000);
            Some(high * 0x1_0000_0000_0000_0000 + low)
        } else {
            None
        }
    }

    /// The value as a `u64`, capped at `u64::MAX` where it is larger.
    pub fn to_u64_saturating(&self) -> (r: u64)
        ensures
            r == if self.value() <= u64::MAX { self.value() } else { u64::MAX as nat },
    {
        if self.w1 == 0 && self.w2 == 0 && self.w3 == 0 {
            self.w0
        } else {
            u64::MAX
        }
    }

    /// Reads up to 32 bytes as a big-endian number; `None` for a longer input.
    pub fn from_big_endian(bytes: &[u8]) -> (r: Option<Self>)
        ensures
            r is Some <==> bytes@.len() <= 32,
            r matches Some(v) ==> v.value() == be_value(bytes@),
    {
        if bytes.len() <= 32 {
            Some(u256_from_big_endian(bytes))
        } else {
            None
        }
    }

    /// The product, or `None` where it does not fit in 256 bits.
    pub fn checked_mul(&self, other: &Uint256) -> (r: Option<Self>)
        ensures
            r is Some <==> self.value() * other.value() < two_pow_256(),
            r matches Some(p) ==> p.value() == self.value() * other.value(),
    {
        u256_checked_mul(self, other)
    }

    /// The difference `self - other`, or `None` where `other` is the larger.
    pub fn checked_sub(&self, other: &Uint256) -> (r: Option<Self>)
        ensures
            r is Some <==> self.value() >= other.value(),
            r matches Some(d) ==> d.value() == self.value() - other.value(),
    {
        u256_checked_sub(self, other)
    }

    /// The quotient rounded toward zero, or `None` where `other` is zero.
    pub fn checked_div(&self, other: &Uint256) -> (r: Option<Self>)
        ensures
            r is Some <==> other.value() != 0,
            r matches Some(q) ==> q.value() == self.value() / other.value(),
    {
        u256_checked_div(self, other)
    }

    /// The distance between the two values.
    pub fn abs_diff(&self, other: &Uint256) -> (r: Self)
        ensures
            r.value() == if self.value() >= other.value() {
                self.value() - other.value()
            } else {
                other.value() - self.value()
            },
    {
        match self.checked_sub(other) {
            Some(d) => d,
            None => match other.checked_sub(self) {
                Some(d) => d,
                None => Uint256::zero(),
            },
        }
    }

    /// Whether `self` is at least `other`.
    pub fn ge(&self, other: &Uint256) -> (r: bool)
        ensures
            r == (self.value() >= other.value()),
    {
        self.checked_sub(other).is_some()
    }

    /// The product in full: it always fits in 512 bits.
    pub fn full_mul(&self, other: &Uint256) -> (r: Uint512)
        ensures
            r.value() == self.value() * other.value(),
    {
        u256_full_mul(self, other)
    }

    /// The same number in 512 bits.
    pub fn widen(&self) -> (r: Uint512)
        ensures
            r.value() == self.value(),
    {
        Uint512 {
            w0: self.w0,
            w1: self.w1,
            w2: self.w2,
            w3: self.w3,
            w4: 0,
            w5: 0,
            w6: 0,
            w7: 0,
        }
    }
}

/// 2^320, the weight of the sixth word.
pub open spec fn two_pow_320() -> nat {
    0x1_0000_0000_0000_0000_0000_0000_0000_0000_0000_0000_0000_0000_0000_0000_0000_0000_0000_0000_0000_0000nat
}

/// 2^384, the weight of the seventh word.
pub open spec fn two_pow_384() -> nat {
    0x1_0000_0000_0000_0000_0000_0000_0000_0000_0000_0000_0000_0000_0000_0000_0000_0000_0000_0000_0000_0000_0000_0000_0000_0000nat
}

/// 2^448, the weight of the eighth word.
pub open spec fn two_pow_448() -> nat {
    0x1_0000_0000_0000_0000_0000_0000_0000_0000_0000_0000_0000_0000_0000_0000_0000_0000_0000_0000_0000_0000_0000_0000_0000_0000_0000_0000_0000_0000nat
}

/// An unsigned 512-bit integer; `w0` is the least significant word.
#[derive(Clone, Copy, Debug, PartialEq, Eq, Structural)]
pub struct Uint512 {
    pub w0: u64,
    pub w1: u64,
    pub w2: u64,
    pub w3: u64,
    pub w4: u64,
    pub w5: u64,
    pub w6: u64,
    pub w7: u64,
}

impl Uint512 {
    /// The number this value stands for.
    pub open spec fn value(self) -> nat {
        self.w0 as nat + self.w1 as nat * two_pow_64() + self.w2 as nat * two_pow_128()
            + self.w3 as nat * two_pow_192() + self.w4 as nat * two_pow_256() + self.w5 as nat
            * two_pow_320() + self.w6 as nat * two_pow_384() + self.w7 as nat * two_pow_448()
    }

    /// The quotient rounded toward zero, or `None` where `other` is zero.
    pub fn checked_div(&self, other: &Uint512) -> (r: Option<Self>)
        ensures
            r is Some <==> other.value() != 0,
            r matches Some(q) ==> q.value() == self.value() / other.value(),
    {
        u512_checked_div(self, other)
    }

    /// The value as a `u64`, capped at `u64::MAX` where it is larger.
    pub fn to_u64_saturating(&self) -> (r: u64)
        ensures
            r == if self.value() <= u64::MAX { self.value() } else { u64::MAX as nat },
    {
        if self.w1 == 0 && self.w2 == 0 && self.w3 == 0 && self.w4 == 0 && self.w5 == 0 && self.w6
            == 0 && self.w7 == 0 {
            self.w0
        } else {
            u64::MAX
        }
    }
}

/// `U256::from_big_endian`: the number that `bytes` denotes, most significant
/// byte first. The outside function panics on more than 32 bytes.
#[verifier::external_body]
fn u256_from_big_endian(bytes: &[u8]) -> (r: Uint256)
    requires
        bytes@.len() <= 32,
    ensures
        r.value() == be_value(bytes@),
{
    let v = U256::from_big_endian(bytes);
    Uint256 { w0: v.0[0], w1: v.0[1], w2: v.0[2], w3: v.0[3] }
}

/// `U256::checked_mul`: the product where it is below 2^256, `None` on overflow.
#[verifier::external_body]
fn u256_checked_mul(a: &Uint256, b: &Uint256) -> (r: Option<Uint256>)
    ensures
        r is Some <==> a.value() * b.value() < two_pow_256(),
        r matches Some(p) ==> p.value() == a.value() * b.value(),
{
    let x = U256([a.w0, a.w1, a.w2, a.w3]);
    let y = U256([b.w0, b.w1, b.w2, b.w3]);
    x.checked_mul(y).map(|v| Uint256 { w0: v.0[0], w1: v.0[1], w2: v.0[2], w3: v.0[3] })
}

/// `U256::checked_sub`: the difference where `a` is at least `b`, `None` otherwise.
#[verifier::external_body]
fn u256_checked_sub(a: &Uint256, b: &Uint256) -> (r: Option<Uint256>)
    ensures
        r is Some <==> a.value() >= b.value(),
        r matches Some(d) ==> d.value() == a.value() - b.value(),
{
    let x = U256([a.w0, a.w1, a.w2, a.w3]);
    let y = U256([b.w0, b.w1, b.w2, b.w3]);
    x.checked_sub(y).map(|v| Uint256 { w0: v.0[0], w1: v.0[1], w2: v.0[2], w3: v.0[3] })
}

/// `U256::checked_div`: the quotient rounded toward zero, `None` where `b` is zero.
#[verifier::external_body]
fn u256_checked_div(a: &Uint256, b: &Uint256) -> (r: Option<Uint256>)
    ensures
        r is Some <==> b.value() != 0,
        r matches Some(q) ==> q.value() == a.value() / b.value(),
{
    let x = U256([a.w0, a.w1, a.w2, a.w3]);
    let y = U256([b.w0, b.w1, b.w2, b.w3]);
    x.checked_div(y).map(|v| Uint256 { w0: v.0[0], w1: v.0[1], w2: v.0[2], w3: v.0[3] })
}

/// `U256::full_mul`: the product of two 256-bit integers as a 512-bit integer.
/// Overflow is not possible.
#[verifier::external_body]
fn u256_full_mul(a: &Uint256, b: &Uint256) -> (r: Uint512)
    ensures
        r.value() == a.value() * b.value(),
{
    let p = U256([a.w0, a.w1, a.w2, a.w3]).full_mul(U256([b.w0, b.w1, b.w2, b.w3]));
    Uint512 {
        w0: p.0[0],
        w1: p.0[1],
        w2: p.0[2],
        w3: p.0[3],
        w4: p.0[4],
        w5: p.0[5],
        w6: p.0[6],
        w7: p.0[7],
    }
}

/// `U512::checked_div`: the quotient rounded toward zero, `None` where `b` is zero.
#[verifier::external_body]
fn u512_checked_div(a: &Uint512, b: &Uint512) -> (r: Option<Uint512>)
    ensures
        r is Some <==> b.value() != 0,
        r matches Some(q) ==> q.value() == a.value() / b.value(),
{
    let x = U512([a.w0, a.w1, a.w2, a.w3, a.w4, a.w5, a.w6, a.w7]);
    let y = U512([b.w0, b.w1, b.w2, b.w3, b.w4, b.w5, b.w6, b.w7]);
    x.checked_div(y).map(|q| Uint512 {
        w0: q.0[0],
        w1: q.0[1],
        w2: q.0[2],
        w3: q.0[3],
        w4: q.0[4],
        w5: q.0[5],
        w6: q.0[6],
        w7: q.0[7],
    })
}

} // verus!
