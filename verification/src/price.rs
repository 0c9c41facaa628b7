//! Prices normalised by decimal precision, and the spread between two of them.
//!
//! A price is kept exactly, as the two reserves and the decimal exponent that
//! define it, so nothing is lost to rounding until the spread is truncated to
//! whole basis points.

use crate::market::Venue;
use crate::uint256::Uint256;
use vstd::arithmetic::div_mod::*;
use vstd::arithmetic::mul::*;
use vstd::pervasive::unreached;
use vstd::prelude::*;

verus! {

/// The largest power of ten that fits in a `u128` is 10^38.
pub const MAX_POW10: u8 = 38;

/// Basis points in one whole.
pub const BPS_SCALE: u64 = 10_000;

/// Ten to the power `n`.
pub open spec fn pow10(n: nat) -> nat
    decreases n,
{
    if n == 0 {
        1
    } else {
        10 * pow10((n - 1) as nat)
    }
}

/// The distance between two natural numbers.
pub open spec fn distance(x: nat, y: nat) -> nat {
    if x >= y {
        (x - y) as nat
    } else {
        (y - x) as nat
    }
}

/// A non-negative fraction `num / den`.
pub struct Ratio {
    pub num: nat,
    pub den: nat,
}

impl Ratio {
    /// Whether the two fractions denote the same number.
    pub open spec fn same(self, other: Ratio) -> bool {
        self.num * other.den == other.num * self.den
    }

    /// The fraction rounded down to a whole number.
    pub open spec fn floor(self) -> nat {
        self.num / self.den
    }

    /// Whether this fraction is at most `other`.
    pub open spec fn at_most(self, other: Ratio) -> bool {
        self.num * other.den <= other.num * self.den
    }
}

/// The price of one whole base asset in whole quote assets:
/// `(quote_reserve / 10^quote_decimals) / (base_reserve / 10^base_decimals)`.
pub open spec fn price_ratio(
    base_reserve: nat,
    quote_reserve: nat,
    base_decimals: nat,
    quote_decimals: nat,
) -> Ratio {
    Ratio { num: quote_reserve * pow10(base_decimals), den: base_reserve * pow10(quote_decimals) }
}

/// `|price_b - price_a| / price_a * 10_000`, truncated toward zero. Venue A's
/// price is always the denominator.
pub open spec fn spread_bps_spec(price_a: Ratio, price_b: Ratio) -> nat {
    distance(price_b.num * price_a.den, price_a.num * price_b.den) * 10_000 / (price_a.num
        * price_b.den)
}

/// The spread of two pools of one pair, written over their raw reserves.
pub open spec fn reserve_spread_bps(base_a: nat, quote_a: nat, base_b: nat, quote_b: nat) -> nat {
    distance(quote_b * base_a, quote_a * base_b) * 10_000 / (quote_a * base_b)
}

/// The venue with the lower price, where the pair is bought: venue A unless
/// venue B is strictly cheaper.
pub open spec fn cheaper_venue_spec(price_a: Ratio, price_b: Ratio) -> Venue {
    if price_a.at_most(price_b) {
        Venue::A
    } else {
        Venue::B
    }
}

/// Whether the spread of these reserves is defined: neither base reserve is
/// zero, and venue A's price is not zero.
pub open spec fn spread_defined(base_a: u128, quote_a: u128, base_b: u128, quote_b: u128) -> bool {
    &&& base_a > 0
    &&& base_b > 0
    &&& quote_a > 0
}

/// A whole number of basis points as a `u64`, capped at `u64::MAX`.
pub open spec fn capped_bps(bps: nat) -> u64 {
    if bps <= u64::MAX {
        bps as u64
    } else {
        u64::MAX
    }
}

/// Powers of ten grow with the exponent.
pub proof fn lemma_pow10_increases(i: nat, j: nat)
    requires
        i <= j,
    ensures
        0 < pow10(i) <= pow10(j),
    decreases j,
{
    if j == 0 {
    } else if i == j {
        lemma_pow10_increases((i - 1) as nat, (j - 1) as nat);
    } else {
        lemma_pow10_increases(i, (j - 1) as nat);
    }
}

/// 10^38, the largest power of ten in use, fits in a `u128`.
pub proof fn lemma_pow10_max()
    ensures
        pow10(38) == 100_000_000_000_000_000_000_000_000_000_000_000_000nat,
{
    reveal_with_fuel(pow10, 39);
}

/// Scaling both reserves of a pool by the same positive factor leaves its
/// price unchanged, as a fraction and rounded down.
pub proof fn lemma_price_scale_invariant(
    base_reserve: nat,
    quote_reserve: nat,
    base_decimals: nat,
    quote_decimals: nat,
    factor: nat,
)
    requires
        base_reserve > 0,
        quote_reserve > 0,
        factor > 0,
    ensures
        price_ratio(
            factor * base_reserve,
            factor * quote_reserve,
            base_decimals,
            quote_decimals,
        ).same(price_ratio(base_reserve, quote_reserve, base_decimals, quote_decimals)),
        price_ratio(
            factor * base_reserve,
            factor * quote_reserve,
            base_decimals,
            quote_decimals,
        ).floor() == price_ratio(
            base_reserve,
            quote_reserve,
            base_decimals,
            quote_decimals,
        ).floor(),
{
    let n = quote_reserve * pow10(base_decimals);
    let d = base_reserve * pow10(quote_decimals);
    lemma_pow10_increases(0, base_decimals);
    lemma_pow10_increases(0, quote_decimals);
    assert((factor * quote_reserve) * pow10(base_decimals) == factor * n) by {
        lemma_mul_is_associative(factor as int, quote_reserve as int, pow10(base_decimals) as int);
    }
    assert((factor * base_reserve) * pow10(quote_decimals) == factor * d) by {
        lemma_mul_is_associative(factor as int, base_reserve as int, pow10(quote_decimals) as int);
    }
    assert((factor * n) * d == n * (factor * d)) by (nonlinear_arith);
    assert(d > 0) by {
        lemma_mul_strictly_positive(base_reserve as int, pow10(quote_decimals) as int);
    }
    lemma_div_multiples_vanish_quotient(factor as int, n as int, d as int);
}

/// The spread of two pools of one pair does not depend on the pair's decimal
/// precisions: it is the spread of the raw reserves.
pub proof fn lemma_spread_ignores_decimals(
    base_a: nat,
    quote_a: nat,
    base_b: nat,
    quote_b: nat,
    base_decimals: nat,
    quote_decimals: nat,
)
    requires
        base_b > 0,
        quote_a > 0,
    ensures
        spread_bps_spec(
            price_ratio(base_a, quote_a, base_decimals, quote_decimals),
            price_ratio(base_b, quote_b, base_decimals, quote_decimals),
        ) == reserve_spread_bps(base_a, quote_a, base_b, quote_b),
{
    let pb = pow10(base_decimals);
    let pq = pow10(quote_decimals);
    lemma_pow10_increases(0, base_decimals);
    lemma_pow10_increases(0, quote_decimals);
    let s = pb * pq;
    let x = quote_b * base_a;
    let y = quote_a * base_b;
    assert(s > 0) by {
        lemma_mul_strictly_positive(pb as int, pq as int);
    }
    assert(y > 0) by {
        lemma_mul_strictly_positive(quote_a as int, base_b as int);
    }
    assert((quote_b * pb) * (base_a * pq) == s * x) by (nonlinear_arith)
        requires
            s == pb * pq,
            x == quote_b * base_a,
    ;
    assert((quote_a * pb) * (base_b * pq) == s * y) by (nonlinear_arith)
        requires
            s == pb * pq,
            y == quote_a * base_b,
    ;
    let dist = distance(x, y);
    assert(distance(s * x, s * y) == s * dist) by (nonlinear_arith)
        requires
            dist == distance(x, y),
            s > 0,
    ;
    assert((s * dist) * 10_000 == s * (dist * 10_000)) by (nonlinear_arith);
    lemma_div_multiples_vanish_quotient(s as int, (dist * 10_000) as int, y as int);
}

/// Which of two pools of one pair is cheaper does not depend on the pair's
/// decimal precisions either.
pub proof fn lemma_cheaper_ignores_decimals(
    base_a: nat,
    quote_a: nat,
    base_b: nat,
    quote_b: nat,
    base_decimals: nat,
    quote_decimals: nat,
)
    ensures
        price_ratio(base_a, quote_a, base_decimals, quote_decimals).at_most(
            price_ratio(base_b, quote_b, base_decimals, quote_decimals),
        ) <==> quote_a * base_b <= quote_b * base_a,
{
    let pb = pow10(base_decimals);
    let pq = pow10(quote_decimals);
    lemma_pow10_increases(0, base_decimals);
    lemma_pow10_increases(0, quote_decimals);
    let s = pb * pq;
    let x = quote_b * base_a;
    let y = quote_a * base_b;
    assert(s > 0) by {
        lemma_mul_strictly_positive(pb as int, pq as int);
    }
    assert((quote_b * pb) * (base_a * pq) == s * x) by (nonlinear_arith)
        requires
            s == pb * pq,
            x == quote_b * base_a,
    ;
    assert((quote_a * pb) * (base_b * pq) == s * y) by (nonlinear_arith)
        requires
            s == pb * pq,
            y == quote_a * base_b,
    ;
    assert(s * y <= s * x <==> y <= x) by (nonlinear_arith)
        requires
            s > 0,
    ;
}

/// The spread in basis points is at least `threshold` exactly when the
/// price gap, taken 10_000 times, is at least `threshold` times venue A's price.
pub proof fn lemma_spread_threshold(base_a: nat, quote_a: nat, base_b: nat, quote_b: nat, threshold: nat)
    requires
        base_b > 0,
        quote_a > 0,
    ensures
        reserve_spread_bps(base_a, quote_a, base_b, quote_b) >= threshold <==> distance(
            quote_b * base_a,
            quote_a * base_b,
        ) * 10_000 >= threshold * (quote_a * base_b),
{
    let y = quote_a * base_b;
    let n = distance(quote_b * base_a, quote_a * base_b) * 10_000;
    assert(y > 0) by {
        lemma_mul_strictly_positive(quote_a as int, base_b as int);
    }
    lemma_fundamental_div_mod(n as int, y as int);
    let q = n / y;
    let r = n % y;
    assert(0 <= r < y) by {
        lemma_mod_pos_bound(n as int, y as int);
    }
    assert(n == y * q + r);
    if q >= threshold {
        assert(y * q >= y * threshold) by (nonlinear_arith)
            requires
                q >= threshold,
                y > 0,
        ;
        assert(threshold * y == y * threshold) by (nonlinear_arith);
    } else {
        assert(y * q + y <= y * threshold) by (nonlinear_arith)
            requires
                q + 1 <= threshold,
                y > 0,
        ;
        assert(threshold * y == y * threshold) by (nonlinear_arith);
    }
}

/// An exact price: `quote / base * 10^exponent` whole quote assets for one
/// whole base asset.
#[derive(Clone, Copy, Debug, PartialEq, Eq, Structural)]
pub struct Price {
    /// The quote reserve, in the quote asset's smallest unit.
    pub quote: u128,
    /// The base reserve, in the base asset's smallest unit.
    pub base: u128,
    /// The base asset's decimals less the quote asset's.
    pub exponent: i16,
}

impl Price {
    /// The fraction this price stands for.
    pub open spec fn ratio(self) -> Ratio {
        if self.exponent >= 0 {
            Ratio { num: self.quote as nat * pow10(self.exponent as nat), den: self.base as nat }
        } else {
            Ratio { num: self.quote as nat, den: self.base as nat * pow10((-self.exponent) as nat) }
        }
    }

    /// The price rounded down to whole quote assets.
    ///
    /// `None` for a zero base reserve, and for an exponent above `MAX_POW10`,
    /// where the result may not fit in 256 bits.
    pub fn floor(&self) -> (r: Option<Uint256>)
        ensures
            r is Some <==> self.base != 0 && self.exponent <= MAX_POW10,
            r matches Some(v) ==> v.value() == self.ratio().floor(),
    {
        if self.base == 0 || self.exponent > MAX_POW10 as i16 {
            return None;
        }
        if self.exponent >= 0 {
            let scale: u128 = pow10_u128(self.exponent as u8);
            wide_product(self.quote, scale).checked_div(&Uint256::from_u128(self.base))
        } else if self.exponent >= -(MAX_POW10 as i16) {
            let scale: u128 = pow10_u128((-self.exponent) as u8);
            proof {
                lemma_pow10_increases(0, (-self.exponent) as nat);
                lemma_mul_strictly_positive(self.base as int, scale as int);
            }
            Uint256::from_u128(self.quote).checked_div(&wide_product(self.base, scale))
        } else {
            proof {
                let e = (-self.exponent) as nat;
                lemma_pow10_increases(39, e);
                lemma_pow10_max();
                assert(pow10(39) == 10 * pow10(38)) by {
                    reveal_with_fuel(pow10, 2);
                }
                lemma_mul_inequality(1, self.base as int, pow10(e) as int);
                lemma_basic_div(self.quote as int, (self.base * pow10(e)) as int);
            }
            Some(Uint256::zero())
        }
    }
}

/// The price that reserves and decimals give: the reserves as they are, and
/// the difference of the decimals as the exponent.
pub open spec fn price_of(
    base_reserve: u128,
    quote_reserve: u128,
    base_decimals: u8,
    quote_decimals: u8,
) -> Price {
    Price {
        quote: quote_reserve,
        base: base_reserve,
        exponent: (base_decimals - quote_decimals) as i16,
    }
}

/// Powers of ten multiply as their exponents add.
pub proof fn lemma_pow10_adds(i: nat, j: nat)
    ensures
        pow10(i + j) == pow10(i) * pow10(j),
    decreases i,
{
    if i == 0 {
        assert(pow10(0) * pow10(j) == pow10(j)) by (nonlinear_arith)
            requires
                pow10(0) == 1,
        ;
    } else {
        lemma_pow10_adds((i - 1) as nat, j);
        assert(pow10(i + j) == 10 * pow10((i - 1 + j) as nat));
        assert(10 * (pow10((i - 1) as nat) * pow10(j)) == (10 * pow10((i - 1) as nat)) * pow10(j))
            by (nonlinear_arith);
    }
}

/// `price_of` is the normalised price
/// `(quote_reserve / 10^quote_decimals) / (base_reserve / 10^base_decimals)`:
/// the same fraction, and the same whole number when rounded down.
pub proof fn lemma_price_of_is_normalized(
    base_reserve: u128,
    quote_reserve: u128,
    base_decimals: u8,
    quote_decimals: u8,
)
    ensures
        price_of(base_reserve, quote_reserve, base_decimals, quote_decimals).ratio().same(
            price_ratio(
                base_reserve as nat,
                quote_reserve as nat,
                base_decimals as nat,
                quote_decimals as nat,
            ),
        ),
        base_reserve > 0 ==> price_of(
            base_reserve,
            quote_reserve,
            base_decimals,
            quote_decimals,
        ).ratio().floor() == price_ratio(
            base_reserve as nat,
            quote_reserve as nat,
            base_decimals as nat,
            quote_decimals as nat,
        ).floor(),
{
    let q = quote_reserve as nat;
    let b = base_reserve as nat;
    let bd = base_decimals as nat;
    let qd = quote_decimals as nat;
    lemma_pow10_increases(0, bd);
    lemma_pow10_increases(0, qd);
    if base_decimals >= quote_decimals {
        let e = (bd - qd) as nat;
        lemma_pow10_adds(e, qd);
        lemma_pow10_increases(0, e);
        let pe = pow10(e);
        let pq = pow10(qd);
        assert((q * pe) * (b * pq) == (q * (pe * pq)) * b) by (nonlinear_arith);
        if base_reserve > 0 {
            assert(q * (pe * pq) == pq * (q * pe)) by (nonlinear_arith);
            assert(b * pq == pq * b) by (nonlinear_arith);
            lemma_mul_nonnegative(q as int, pe as int);
            lemma_div_multiples_vanish_quotient(pq as int, (q * pe) as int, b as int);
        }
    } else {
        let e = (qd - bd) as nat;
        lemma_pow10_adds(e, bd);
        lemma_pow10_increases(0, e);
        let pe = pow10(e);
        let pb = pow10(bd);
        assert(q * (b * (pe * pb)) == (q * pb) * (b * pe)) by (nonlinear_arith);
        if base_reserve > 0 {
            assert(q * pb == pb * q) by (nonlinear_arith);
            assert(b * (pe * pb) == pb * (b * pe)) by (nonlinear_arith);
            lemma_mul_strictly_positive(b as int, pe as int);
            lemma_div_multiples_vanish_quotient(pb as int, q as int, (b * pe) as int);
        }
    }
}

/// `10^n`, for an `n` of which the power fits in a `u128`.
pub fn pow10_u128(n: u8) -> (r: u128)
    requires
        n <= MAX_POW10,
    ensures
        r == pow10(n as nat),
{
    let mut r: u128 = 1;
    let mut i: u8 = 0;
    while i < n
        invariant
            i <= n <= MAX_POW10,
            r == pow10(i as nat),
        decreases n - i,
    {
        proof {
            lemma_pow10_increases((i + 1) as nat, 38);
            lemma_pow10_max();
        }
        r = r * 10;
        i = i + 1;
    }
    r
}

/// The product of two 128-bit numbers, which always fits in 256 bits.
pub fn wide_product(a: u128, b: u128) -> (r: Uint256)
    ensures
        r.value() == a * b,
{
    let x = Uint256::from_u128(a);
    let y = Uint256::from_u128(b);
    proof {
        lemma_mul_upper_bound(
            a as int,
            0xffff_ffff_ffff_ffff_ffff_ffff_ffff_ffff,
            b as int,
            0xffff_ffff_ffff_ffff_ffff_ffff_ffff_ffff,
        );
    }
    match x.checked_mul(&y) {
        Some(p) => p,
        None => unreached(),
    }
}

/// Scaling both reserves of a pool by the same positive factor leaves the
/// price that `price_of` gives unchanged, as a fraction and rounded down.
pub proof fn lemma_price_of_scale_invariant(
    base_reserve: u128,
    quote_reserve: u128,
    base_decimals: u8,
    quote_decimals: u8,
    factor: u128,
)
    requires
        base_reserve > 0,
        factor > 0,
        factor * base_reserve <= u128::MAX,
        factor * quote_reserve <= u128::MAX,
    ensures
        price_of(
            (factor * base_reserve) as u128,
            (factor * quote_reserve) as u128,
            base_decimals,
            quote_decimals,
        ).ratio().same(
            price_of(base_reserve, quote_reserve, base_decimals, quote_decimals).ratio(),
        ),
        price_of(
            (factor * base_reserve) as u128,
            (factor * quote_reserve) as u128,
            base_decimals,
            quote_decimals,
        ).ratio().floor() == price_of(
            base_reserve,
            quote_reserve,
            base_decimals,
            quote_decimals,
        ).ratio().floor(),
{
    let f = factor as nat;
    let q = quote_reserve as nat;
    let b = base_reserve as nat;
    if base_decimals >= quote_decimals {
        let pe = pow10((base_decimals - quote_decimals) as nat);
        lemma_pow10_increases(0, (base_decimals - quote_decimals) as nat);
        assert(((f * q) * pe) * b == (q * pe) * (f * b)) by (nonlinear_arith);
        assert((f * q) * pe == f * (q * pe)) by (nonlinear_arith);
        lemma_mul_nonnegative(q as int, pe as int);
        lemma_div_multiples_vanish_quotient(f as int, (q * pe) as int, b as int);
    } else {
        let pe = pow10((quote_decimals - base_decimals) as nat);
        lemma_pow10_increases(0, (quote_decimals - base_decimals) as nat);
        assert((f * q) * (b * pe) == q * ((f * b) * pe)) by (nonlinear_arith);
        assert((f * b) * pe == f * (b * pe)) by (nonlinear_arith);
        lemma_mul_strictly_positive(b as int, pe as int);
        lemma_div_multiples_vanish_quotient(f as int, q as int, (b * pe) as int);
    }
}

/// The price of a pool, normalised by the decimal precision of each asset.
///
/// A pool with a zero base reserve has no price.
pub fn normalized_price(
    base_reserve: u128,
    quote_reserve: u128,
    base_decimals: u8,
    quote_decimals: u8,
) -> (r: Option<Price>)
    ensures
        r is Some <==> base_reserve > 0,
        r matches Some(p) ==> p == price_of(
            base_reserve,
            quote_reserve,
            base_decimals,
            quote_decimals,
        ),
{
    if base_reserve == 0 {
        return None;
    }
    let exponent: i16 = base_decimals as i16 - quote_decimals as i16;
    Some(Price { quote: quote_reserve, base: base_reserve, exponent })
}

/// The spread between two pools of one pair in whole basis points,
/// truncated toward zero and capped at `u64::MAX`.
///
/// `None` where the spread is undefined: a zero base reserve on either venue,
/// or a zero price on venue A.
pub fn spread_bps(base_a: u128, quote_a: u128, base_b: u128, quote_b: u128) -> (r: Option<u64>)
    ensures
        r is Some <==> spread_defined(base_a, quote_a, base_b, quote_b),
        r matches Some(v) ==> v == capped_bps(
            reserve_spread_bps(base_a as nat, quote_a as nat, base_b as nat, quote_b as nat),
        ),
{
    if base_a == 0 || base_b == 0 || quote_a == 0 {
        return None;
    }
    let x = wide_product(quote_b, base_a);
    let y = wide_product(quote_a, base_b);
    let gap = x.abs_diff(&y);
    let scaled = gap.full_mul(&Uint256::from_u64(BPS_SCALE));
    proof {
        lemma_mul_strictly_positive(quote_a as int, base_b as int);
    }
    let bps = match scaled.checked_div(&y.widen()) {
        Some(q) => q,
        None => unreached(),
    };
    Some(bps.to_u64_saturating())
}

/// The venue on which the pair is cheaper, from the raw reserves: venue A
/// unless venue B's price is strictly lower.
pub fn cheaper_venue(base_a: u128, quote_a: u128, base_b: u128, quote_b: u128) -> (r: Venue)
    ensures
        r == if quote_a * base_b <= quote_b * base_a {
            Venue::A
        } else {
            Venue::B
        },
{
    let x = wide_product(quote_b, base_a);
    let y = wide_product(quote_a, base_b);
    if x.ge(&y) {
        Venue::A
    } else {
        Venue::B
    }
}

} // verus!
