use spread_engine::gas::{offered_price, Escalation, GasPolicy};

fn with(policy: GasPolicy, max_price: Option<u128>) -> Escalation {
    Escalation { policy, max_price, max_resubmissions: 10 }
}

#[test]
fn linear_policy_adds_the_increment_per_step() {
    let e = with(GasPolicy::Linear { increment: 100 }, None);
    assert_eq!(offered_price(&e, 1_000, 0), 1_000);
    assert_eq!(offered_price(&e, 1_000, 1), 1_100);
    assert_eq!(offered_price(&e, 1_000, 2), 1_200);
    assert_eq!(offered_price(&e, 1_000, 20), 3_000);
}

#[test]
fn linear_policy_is_held_at_the_cap() {
    let e = with(GasPolicy::Linear { increment: 100 }, Some(2_500));
    assert_eq!(offered_price(&e, 1_000, 15), 2_500);
    assert_eq!(offered_price(&e, 1_000, 16), 2_500);
    assert_eq!(offered_price(&e, 1_000, u32::MAX), 2_500);
    // An initial price above the cap is held at the cap too.
    assert_eq!(offered_price(&e, 9_000, 0), 2_500);
}

#[test]
fn linear_policy_saturates_at_the_largest_price() {
    let e = with(GasPolicy::Linear { increment: u128::MAX / 2 }, None);
    assert_eq!(offered_price(&e, 7, 1), u128::MAX / 2 + 7);
    assert_eq!(offered_price(&e, 7, 3), u128::MAX);
    let f = with(GasPolicy::Linear { increment: u128::MAX - 5 }, None);
    assert_eq!(offered_price(&f, 5, 1), u128::MAX);
    assert_eq!(offered_price(&f, 6, 1), u128::MAX);
}

#[test]
fn percentage_policy_adds_a_share_of_the_initial_price_per_step() {
    let e = with(GasPolicy::Percentage { percent: 15 }, None);
    assert_eq!(offered_price(&e, 1_000, 0), 1_000);
    assert_eq!(offered_price(&e, 1_000, 1), 1_150);
    assert_eq!(offered_price(&e, 1_000, 2), 1_300);
    assert_eq!(offered_price(&e, 1_000, 10), 2_500);
    // 7 * 15 * 3 / 100 = 3.15
    assert_eq!(offered_price(&e, 7, 3), 10);
    assert_eq!(offered_price(&e, 0, 3), 0);
}

#[test]
fn percentage_policy_is_held_at_the_cap_and_saturates() {
    let e = with(GasPolicy::Percentage { percent: 15 }, Some(1_200));
    assert_eq!(offered_price(&e, 1_000, 1), 1_150);
    assert_eq!(offered_price(&e, 1_000, 2), 1_200);
    let f = with(GasPolicy::Percentage { percent: u32::MAX }, None);
    assert_eq!(offered_price(&f, u128::MAX, u32::MAX), u128::MAX);
    assert_eq!(offered_price(&f, u128::MAX / 2, 1), u128::MAX);
    // (2^128 - 1) * 50 / 100 still fits beside the initial price of half that.
    let g = with(GasPolicy::Percentage { percent: 50 }, None);
    assert_eq!(offered_price(&g, u128::MAX / 2, 1), u128::MAX / 2 + u128::MAX / 4);
}

#[test]
fn geometric_policy_multiplies_and_rounds_up() {
    let e = with(GasPolicy::Geometric { numerator: 9, denominator: 8 }, None);
    assert_eq!(offered_price(&e, 100, 0), 100);
    // 112.5 -> 113, 127.125 -> 128, 144 -> 144
    assert_eq!(offered_price(&e, 100, 1), 113);
    assert_eq!(offered_price(&e, 100, 2), 128);
    assert_eq!(offered_price(&e, 100, 3), 144);
    assert_eq!(offered_price(&e, 1, 1), 2);
    assert_eq!(offered_price(&e, 0, 5), 0);
    assert_eq!(offered_price(&e, 0, u32::MAX), 0);
    let double = with(GasPolicy::Geometric { numerator: 2, denominator: 1 }, None);
    assert_eq!(offered_price(&double, 3, 10), 3 * 1024);
}

#[test]
fn geometric_policy_is_held_at_the_cap_and_saturates() {
    let e = with(GasPolicy::Geometric { numerator: 2, denominator: 1 }, Some(1_000));
    assert_eq!(offered_price(&e, 3, 8), 768);
    assert_eq!(offered_price(&e, 3, 9), 1_000);
    assert_eq!(offered_price(&e, 3, u32::MAX), 1_000);
    let f = with(GasPolicy::Geometric { numerator: 2, denominator: 1 }, None);
    assert_eq!(offered_price(&f, 1, 127), 1u128 << 127);
    assert_eq!(offered_price(&f, 1, 128), u128::MAX);
    assert_eq!(offered_price(&f, 1, 1_000), u128::MAX);
    // 2^127 * 9 / 8 fits although 2^127 * 9 does not.
    let g = with(GasPolicy::Geometric { numerator: 9, denominator: 8 }, None);
    assert_eq!(offered_price(&g, 1u128 << 127, 1), (1u128 << 127) + (1u128 << 124));
}

#[test]
fn geometric_policy_with_a_factor_of_one_or_less_keeps_the_price() {
    for (numerator, denominator) in [(1, 1), (8, 9), (0, 5), (5, 0), (0, 0)] {
        let e = with(GasPolicy::Geometric { numerator, denominator }, None);
        assert_eq!(offered_price(&e, 100, 0), 100);
        assert_eq!(offered_price(&e, 100, 7), 100);
        let capped = with(GasPolicy::Geometric { numerator, denominator }, Some(40));
        assert_eq!(offered_price(&capped, 100, 7), 40);
    }
}

#[test]
fn offers_never_go_down() {
    let policies = [
        GasPolicy::Linear { increment: 37 },
        GasPolicy::Percentage { percent: 12 },
        GasPolicy::Geometric { numerator: 1125, denominator: 1000 },
    ];
    for policy in policies {
        for cap in [None, Some(5_000u128)] {
            let e = with(policy, cap);
            let mut last = offered_price(&e, 1_000, 0);
            for step in 1..60 {
                let next = offered_price(&e, 1_000, step);
                assert!(next >= last);
                if let Some(c) = cap {
                    assert!(next <= c);
                }
                last = next;
            }
        }
    }
}
