use spread_engine::market::Venue;
use spread_engine::price::{
    cheaper_venue, normalized_price, pow10_u128, spread_bps, wide_product, Price, MAX_POW10,
};
use spread_engine::uint256::Uint256;

const WETH: u128 = 1_000_000_000_000_000_000;
const USDT: u128 = 1_000_000;

fn price(base: u128, quote: u128, base_decimals: u8, quote_decimals: u8) -> Price {
    normalized_price(base, quote, base_decimals, quote_decimals).unwrap()
}

fn same_fraction(a: &Price, b: &Price) -> bool {
    a.exponent == b.exponent && wide_product(a.quote, b.base) == wide_product(b.quote, a.base)
}

#[test]
fn price_of_weth_in_usdt_is_3000() {
    let p = price(1_000 * WETH, 3_000_000 * USDT, 18, 6);
    assert_eq!(p, Price { quote: 3_000_000 * USDT, base: 1_000 * WETH, exponent: 12 });
    assert_eq!(p.floor().unwrap().to_u128(), Some(3000));
}

#[test]
fn price_uses_the_decimals_of_each_asset() {
    // 2 whole units of an 8-decimal asset against 50 whole units of a 2-decimal asset.
    let p = price(2 * 100_000_000, 50 * 100, 8, 2);
    assert_eq!(p.exponent, 6);
    assert_eq!(p.floor().unwrap().to_u128(), Some(25));
    // The same raw numbers read with other decimals give another price.
    let q = price(2 * 100_000_000, 50 * 100, 6, 2);
    assert_eq!(q.exponent, 4);
    assert_eq!(q.floor().unwrap().to_u128(), Some(0));
    // More quote decimals than base decimals: 7 whole quote units for 3 base units.
    let r = price(3, 7_000_000, 0, 6);
    assert_eq!(r.exponent, -6);
    assert_eq!(r.floor().unwrap().to_u128(), Some(2));
    let s = price(3, 7_000_000, 6, 6);
    assert_eq!(s.floor().unwrap().to_u128(), Some(2_333_333));
}

#[test]
fn price_is_unchanged_when_both_reserves_are_scaled() {
    let p = price(7 * WETH, 20_123 * USDT, 18, 6);
    for factor in [2u128, 3, 10, 1_000, 65_537] {
        let scaled = price(7 * WETH * factor, 20_123 * USDT * factor, 18, 6);
        assert!(same_fraction(&p, &scaled));
        assert_eq!(p.floor().unwrap(), scaled.floor().unwrap());
    }
    let q = price(7, 20_123, 2, 9);
    let scaled = price(7 * 1_000_003, 20_123 * 1_000_003, 2, 9);
    assert!(same_fraction(&q, &scaled));
    assert_eq!(q.floor().unwrap(), scaled.floor().unwrap());
}

#[test]
fn zero_base_reserve_has_no_price() {
    assert_eq!(normalized_price(0, 3_000_000 * USDT, 18, 6), None);
    assert_eq!(normalized_price(0, 0, 0, 0), None);
    assert_eq!(normalized_price(0, 1, 255, 0), None);
}

#[test]
fn every_decimal_precision_has_a_price() {
    assert_eq!(normalized_price(1, 1, 255, 0), Some(Price { quote: 1, base: 1, exponent: 255 }));
    assert_eq!(normalized_price(1, 1, 0, 255), Some(Price { quote: 1, base: 1, exponent: -255 }));
    assert_eq!(normalized_price(5, 9, 40, 40), Some(Price { quote: 9, base: 5, exponent: 0 }));
    assert_eq!(normalized_price(u128::MAX, u128::MAX, 77, 39).unwrap().exponent, 38);
}

#[test]
fn floor_of_a_price() {
    assert_eq!(MAX_POW10, 38);
    // The largest exponent that is computed: 10^38.
    let p = Price { quote: u128::MAX, base: 1, exponent: 38 };
    assert_eq!(p.floor(), Some(wide_product(u128::MAX, pow10_u128(38))));
    assert_eq!(Price { quote: 1, base: 1, exponent: 39 }.floor(), None);
    assert_eq!(Price { quote: 0, base: 1, exponent: 255 }.floor(), None);
    // 10^38 / (1 * 10^38) = 1
    assert_eq!(Price { quote: pow10_u128(38), base: 1, exponent: -38 }.floor(), Some(Uint256::from_u64(1)));
    assert_eq!(Price { quote: u128::MAX, base: 1, exponent: -38 }.floor(), Some(Uint256::from_u64(3)));
    // A divisor of 10^39 or more is above every quote reserve.
    assert_eq!(Price { quote: u128::MAX, base: 1, exponent: -39 }.floor(), Some(Uint256::zero()));
    assert_eq!(Price { quote: u128::MAX, base: 1, exponent: i16::MIN }.floor(), Some(Uint256::zero()));
    assert_eq!(Price { quote: u128::MAX, base: u128::MAX, exponent: -38 }.floor(), Some(Uint256::zero()));
}

#[test]
fn zero_base_price_has_no_floor() {
    assert_eq!(Price { quote: 5, base: 0, exponent: 0 }.floor(), None);
    assert_eq!(Price { quote: 5, base: 0, exponent: -40 }.floor(), None);
    assert_eq!(Price { quote: 5, base: 0, exponent: 40 }.floor(), None);
}

#[test]
fn powers_of_ten() {
    assert_eq!(pow10_u128(0), 1);
    assert_eq!(pow10_u128(6), 1_000_000);
    assert_eq!(pow10_u128(18), WETH);
    assert_eq!(pow10_u128(38), 100_000_000_000_000_000_000_000_000_000_000_000_000);
}

#[test]
fn wide_product_of_the_largest_operands() {
    let p = wide_product(u128::MAX, u128::MAX);
    // (2^128 - 1)^2 = 2^256 - 2^129 + 1
    assert_eq!(p, Uint256 { w0: 1, w1: 0, w2: u64::MAX - 1, w3: u64::MAX });
    assert_eq!(wide_product(0, u128::MAX), Uint256::zero());
    assert_eq!(wide_product(3, 5).to_u128(), Some(15));
}

#[test]
fn spread_of_3000_and_3015_is_exactly_50_bps() {
    let base = 1_000 * WETH;
    assert_eq!(spread_bps(base, 3_000_000 * USDT, base, 3_015_000 * USDT), Some(50));
}

#[test]
fn spread_of_3000_and_3001_is_3_bps() {
    let base = 1_000 * WETH;
    assert_eq!(spread_bps(base, 3_000_000 * USDT, base, 3_001_000 * USDT), Some(3));
}

#[test]
fn spread_of_3000_and_3090_is_300_bps() {
    let base = 1_000 * WETH;
    assert_eq!(spread_bps(base, 3_000_000 * USDT, base, 3_090_000 * USDT), Some(300));
}

#[test]
fn spread_takes_venue_a_as_the_denominator() {
    // 100 against 125: a quarter above venue A.
    assert_eq!(spread_bps(1, 100, 1, 125), Some(2_500));
    // 125 against 100: a fifth below venue A.
    assert_eq!(spread_bps(1, 125, 1, 100), Some(2_000));
}

#[test]
fn spread_is_truncated_toward_zero() {
    // |10_001 - 30_000| / 30_000 * 10_000 = 6666.33..
    assert_eq!(spread_bps(1, 30_000, 1, 10_001), Some(6_666));
    // 1 / 3 * 10_000 = 3333.33..
    assert_eq!(spread_bps(3, 3, 3, 4), Some(3_333));
    assert_eq!(spread_bps(5, 7, 5, 7), Some(0));
}

#[test]
fn spread_compares_pools_of_different_depth() {
    // Venue A: 10 base for 1000 quote (price 100). Venue B: 3 base for 330 quote (price 110).
    assert_eq!(spread_bps(10, 1_000, 3, 330), Some(1_000));
}

#[test]
fn spread_is_capped_at_u64_max() {
    // price_a = 1 / (2^128 - 1), price_b = 2^128 - 1: the ratio is about 2^256.
    assert_eq!(spread_bps(u128::MAX, 1, 1, u128::MAX), Some(u64::MAX));
    assert_eq!(spread_bps(1u128 << 112, 1, 1, 1), Some(u64::MAX));
    // A spread of exactly u64::MAX bps, and one below it.
    assert_eq!(spread_bps(10_000, 10_000, 10_000, 10_000 + u64::MAX as u128), Some(u64::MAX));
    assert_eq!(spread_bps(10_000, 10_000, 10_000, 10_000 + u64::MAX as u128 - 1), Some(u64::MAX - 1));
}

#[test]
fn spread_of_the_largest_reserves() {
    assert_eq!(spread_bps(u128::MAX, u128::MAX, u128::MAX, u128::MAX), Some(0));
    assert_eq!(spread_bps(u128::MAX, u128::MAX, u128::MAX, u128::MAX - 1), Some(0));
    assert_eq!(spread_bps(u128::MAX, u128::MAX, u128::MAX, 0), Some(10_000));
    assert_eq!(spread_bps(u128::MAX, u128::MAX, u128::MAX, u128::MAX / 2), Some(5_000));
}

#[test]
fn spread_of_reserves_beyond_112_bits_is_exact() {
    let big = 1u128 << 120;
    // 2^113 / 2^120 = 1 / 128 = 78.125 bps
    assert_eq!(spread_bps(big, big, big, big + (1u128 << 113)), Some(78));
    assert_eq!(spread_bps(big, big + (1u128 << 113), big, big), Some(77));
    // 1000 base for 3000 quote against 1000 base for 2^112 quote.
    assert_eq!(spread_bps(1_000, 3_000, 1_000, 1u128 << 112), Some(u64::MAX));
}

#[test]
fn spread_is_undefined_without_a_price_on_either_venue() {
    assert_eq!(spread_bps(0, 100, 1, 100), None);
    assert_eq!(spread_bps(1, 100, 0, 100), None);
    assert_eq!(spread_bps(0, 0, 0, 0), None);
}

#[test]
fn spread_is_undefined_for_a_zero_price_on_venue_a() {
    assert_eq!(spread_bps(1, 0, 1, 100), None);
    // A zero price on venue B is a spread of 100%.
    assert_eq!(spread_bps(1, 100, 1, 0), Some(10_000));
}

#[test]
fn cheaper_venue_is_where_the_price_is_lower() {
    assert_eq!(cheaper_venue(1, 100, 1, 125), Venue::A);
    assert_eq!(cheaper_venue(1, 125, 1, 100), Venue::B);
    assert_eq!(cheaper_venue(10, 1_000, 3, 330), Venue::A);
    assert_eq!(cheaper_venue(3, 330, 10, 1_000), Venue::B);
    // Equal prices: venue A.
    assert_eq!(cheaper_venue(2, 200, 5, 500), Venue::A);
    assert_eq!(cheaper_venue(u128::MAX, u128::MAX, u128::MAX, u128::MAX - 1), Venue::B);
    assert_eq!(cheaper_venue(u128::MAX, u128::MAX - 1, u128::MAX, u128::MAX), Venue::A);
}
