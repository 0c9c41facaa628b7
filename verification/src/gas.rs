//! The gas price offered for a submission, raised at a fixed cadence until
//! the submission is included or the resubmission budget runs out.

use crate::price::wide_product;
use crate::uint256::Uint256;
use vstd::arithmetic::div_mod::{
    lemma_div_is_ordered, lemma_div_multiples_vanish, lemma_fundamental_div_mod,
};
use vstd::arithmetic::mul::{lemma_mul_inequality, lemma_mul_is_commutative};
use vstd::pervasive::unreached;
use vstd::prelude::*;

verus! {

/// How the offered price grows from one resubmission to the next.
#[derive(Clone, Copy, Debug, PartialEq, Eq, Structural)]
pub enum GasPolicy {
    /// Every step adds `percent` percent of the initial price.
    Percentage { percent: u32 },
    /// Every step multiplies the last price by `numerator / denominator`,
    /// rounding up. A factor of one or less, or a zero denominator, leaves
    /// the price as it is.
    Geometric { numerator: u32, denominator: u32 },
    /// Every step adds `increment`.
    Linear { increment: u128 },
}

/// A policy with its limits.
#[derive(Clone, Copy, Debug, PartialEq, Eq, Structural)]
pub struct Escalation {
    /// The growth curve.
    pub policy: GasPolicy,
    /// The price that is never exceeded, if there is one.
    pub max_price: Option<u128>,
    /// How many times a submission is resubmitted before it is given up.
    pub max_resubmissions: u32,
}

/// `x / d`, rounded up.
pub open spec fn ceil_div(x: nat, d: nat) -> nat {
    if x % d == 0 {
        x / d
    } else {
        x / d + 1
    }
}

/// One geometric step from `previous`.
pub open spec fn geometric_next(previous: nat, numerator: nat, denominator: nat) -> nat {
    if denominator == 0 || numerator <= denominator {
        previous
    } else {
        ceil_div(previous * numerator, denominator)
    }
}

/// The price after `step` steps, before any cap is applied.
pub open spec fn escalated_spec(policy: GasPolicy, initial: nat, step: nat) -> nat
    decreases step,
{
    match policy {
        GasPolicy::Percentage { percent } => initial + initial * (percent as nat * step) / 100,
        GasPolicy::Linear { increment } => initial + step * (increment as nat),
        GasPolicy::Geometric { numerator, denominator } => if step == 0 {
            initial
        } else {
            geometric_next(
                escalated_spec(policy, initial, (step - 1) as nat),
                numerator as nat,
                denominator as nat,
            )
        },
    }
}

/// The highest price that may be offered.
pub open spec fn price_cap(max_price: Option<u128>) -> nat {
    match max_price {
        Some(m) => m as nat,
        None => u128::MAX as nat,
    }
}

/// The price offered at `step`: the escalated price, held at the cap.
pub open spec fn offered_price_spec(escalation: Escalation, initial: nat, step: nat) -> nat {
    if escalated_spec(escalation.policy, initial, step) <= price_cap(escalation.max_price) {
        escalated_spec(escalation.policy, initial, step)
    } else {
        price_cap(escalation.max_price)
    }
}

/// A geometric step never lowers the price.
pub proof fn lemma_geometric_next_at_least(previous: nat, numerator: nat, denominator: nat)
    ensures
        geometric_next(previous, numerator, denominator) >= previous,
{
    if denominator != 0 && numerator > denominator {
        lemma_mul_inequality(denominator as int, numerator as int, previous as int);
        lemma_mul_is_commutative(previous as int, numerator as int);
        lemma_mul_is_commutative(previous as int, denominator as int);
        lemma_div_is_ordered(
            (previous * denominator) as int,
            (previous * numerator) as int,
            denominator as int,
        );
        lemma_div_multiples_vanish(previous as int, denominator as int);
        lemma_mul_is_commutative(previous as int, denominator as int);
    }
}

/// The escalated price never goes down from one step to a later one.
pub proof fn lemma_escalation_never_decreases(policy: GasPolicy, initial: nat, i: nat, j: nat)
    requires
        i <= j,
    ensures
        escalated_spec(policy, initial, i) <= escalated_spec(policy, initial, j),
    decreases j,
{
    match policy {
        GasPolicy::Percentage { percent } => {
            lemma_mul_inequality(i as int, j as int, percent as int);
            lemma_mul_is_commutative(i as int, percent as int);
            lemma_mul_is_commutative(j as int, percent as int);
            lemma_mul_inequality((percent * i) as int, (percent * j) as int, initial as int);
            lemma_mul_is_commutative((percent * i) as int, initial as int);
            lemma_mul_is_commutative((percent * j) as int, initial as int);
            lemma_div_is_ordered(
                (initial * (percent * i)) as int,
                (initial * (percent * j)) as int,
                100,
            );
        },
        GasPolicy::Linear { increment } => {
            lemma_mul_inequality(i as int, j as int, increment as int);
        },
        GasPolicy::Geometric { numerator, denominator } => {
            if i < j {
                lemma_escalation_never_decreases(policy, initial, i, (j - 1) as nat);
                lemma_geometric_next_at_least(
                    escalated_spec(policy, initial, (j - 1) as nat),
                    numerator as nat,
                    denominator as nat,
                );
            }
        },
    }
}

/// The offered price never goes down from one step to a later one, and never
/// exceeds the cap.
pub proof fn lemma_offer_never_decreases(escalation: Escalation, initial: nat, i: nat, j: nat)
    requires
        i <= j,
    ensures
        offered_price_spec(escalation, initial, i) <= offered_price_spec(escalation, initial, j),
        offered_price_spec(escalation, initial, j) <= price_cap(escalation.max_price),
{
    lemma_escalation_never_decreases(escalation.policy, initial, i, j);
}

/// `value`, held at `cap`.
fn held_at(value: Option<u128>, cap: u128) -> (r: u128)
    ensures
        value matches Some(v) ==> r == if v <= cap {
            v
        } else {
            cap
        },
        value is None ==> r == cap,
{
    match value {
        Some(v) => if v <= cap {
            v
        } else {
            cap
        },
        None => cap,
    }
}

/// `x / d` rounded up, where it fits in 128 bits.
fn ceil_div_wide(x: &Uint256, d: u128) -> (r: Option<u128>)
    requires
        d > 0,
    ensures
        r matches Some(v) ==> v == ceil_div(x.value(), d as nat),
        r is None ==> ceil_div(x.value(), d as nat) > u128::MAX,
{
    let divisor = Uint256::from_u128(d);
    let quotient = match x.checked_div(&divisor) {
        Some(q) => q,
        None => unreached(),
    };
    proof {
        lemma_fundamental_div_mod(x.value() as int, d as int);
        lemma_mul_is_commutative(d as int, (x.value() / (d as nat)) as int);
    }
    let back = match quotient.checked_mul(&divisor) {
        Some(b) => b,
        None => unreached(),
    };
    let exact: bool = back.ge(x);
    match quotient.to_u128() {
        Some(q) => if exact {
            Some(q)
        } else {
            q.checked_add(1)
        },
        None => None,
    }
}

/// `x / d` rounded down, where it fits in 128 bits.
fn floor_div_wide(x: &Uint256, d: u128) -> (r: Option<u128>)
    requires
        d > 0,
    ensures
        r matches Some(v) ==> v == x.value() / (d as nat),
        r is None ==> x.value() / (d as nat) > u128::MAX,
{
    let divisor = Uint256::from_u128(d);
    match x.checked_div(&divisor) {
        Some(q) => q.to_u128(),
        None => unreached(),
    }
}

/// A geometric policy with a factor of one or less never moves the price,
/// and no geometric policy moves a price of zero.
proof fn lemma_geometric_constant(policy: GasPolicy, initial: nat, step: nat)
    requires
        policy matches GasPolicy::Geometric { numerator, denominator } && (denominator == 0
            || numerator <= denominator || initial == 0),
    ensures
        escalated_spec(policy, initial, step) == initial,
    decreases step,
{
    if step > 0 {
        lemma_geometric_constant(policy, initial, (step - 1) as nat);
        if initial == 0 {
            assert(0nat * (policy->numerator as nat) == 0) by (nonlinear_arith);
        }
    }
}

/// The price to offer at resubmission number `step` (zero for the first
/// submission), starting from `initial`.
pub fn offered_price(escalation: &Escalation, initial: u128, step: u32) -> (r: u128)
    ensures
        r == offered_price_spec(*escalation, initial as nat, step as nat),
{
    let cap: u128 = match escalation.max_price {
        Some(m) => m,
        None => u128::MAX,
    };
    match escalation.policy {
        GasPolicy::Linear { increment } => {
            let raise: Option<u128> = (step as u128).checked_mul(increment);
            let total: Option<u128> = match raise {
                Some(x) => initial.checked_add(x),
                None => None,
            };
            held_at(total, cap)
        },
        GasPolicy::Percentage { percent } => {
            assert(percent * step <= 0xffff_ffff_ffff_ffff) by (nonlinear_arith)
                requires
                    percent <= 0xffff_ffff,
                    step <= 0xffff_ffff,
            ;
            let factor: u128 = (percent as u128) * (step as u128);
            let scaled = wide_product(initial, factor);
            let raise: Option<u128> = floor_div_wide(&scaled, 100);
            let total: Option<u128> = match raise {
                Some(x) => initial.checked_add(x),
                None => None,
            };
            held_at(total, cap)
        },
        GasPolicy::Geometric { numerator, denominator } => {
            let mut price: u128 = if initial <= cap {
                initial
            } else {
                cap
            };
            if denominator == 0 || numerator <= denominator || initial == 0 {
                proof {
                    lemma_geometric_constant(escalation.policy, initial as nat, step as nat);
                }
                return price;
            }
            let mut k: u32 = 0;
            while k < step && price < cap
                invariant
                    k <= step,
                    denominator != 0,
                    numerator > denominator,
                    escalation.policy == (GasPolicy::Geometric { numerator, denominator }),
                    cap == price_cap(escalation.max_price),
                    price == offered_price_spec(*escalation, initial as nat, k as nat),
                decreases step - k,
            {
                let grown = wide_product(price, numerator as u128);
                let next: Option<u128> = ceil_div_wide(&grown, denominator as u128);
                price = held_at(next, cap);
                k = k + 1;
            }
            proof {
                if k < step {
                    lemma_escalation_never_decreases(
                        escalation.policy,
                        initial as nat,
                        k as nat,
                        step as nat,
                    );
                }
            }
            price
        },
    }
}

} // verus!
