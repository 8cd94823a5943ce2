//! The decimal converter: exact numerals for `value / 10^decimals`.

use uniswap_price::decimal::to_decimal_string;
use uniswap_price::price::Price;

#[test]
fn converter_basic_values() {
    assert_eq!(to_decimal_string(1234567, 6), "1.234567");
    assert_eq!(to_decimal_string(5, 0), "5");
    assert_eq!(to_decimal_string(0, 18), "0.000000000000000000");
}

#[test]
fn converter_matches_float_division() {
    let cases: Vec<(u128, u8)> = vec![
        (1234567, 6),
        (5, 0),
        (0, 18),
        (1, 18),
        (999999999999999999, 18),
        (1000000000000000000, 18),
        (42, 2),
        (7, 7),
    ];
    for (value, d) in cases {
        let s = to_decimal_string(value, d);
        let parsed: f64 = s.parse().unwrap();
        let expected = value as f64 / 10f64.powi(d as i32);
        assert!(
            (parsed - expected).abs() <= expected.abs() * 1e-12,
            "value={} d={} got {} want {}",
            value,
            d,
            parsed,
            expected
        );
    }
}

#[test]
fn converter_short_value_pads_with_zeros() {
    assert_eq!(to_decimal_string(5, 3), "0.005");
    assert_eq!(to_decimal_string(50, 2), "0.50");
    assert_eq!(to_decimal_string(123, 3), "0.123");
}

#[test]
fn converter_largest_amount_is_exact() {
    let s = to_decimal_string(u128::MAX, 18);
    assert_eq!(s, "340282366920938463463.374607431768211455");
}

#[test]
fn converter_through_aggregator_method() {
    let price = Price::new().unwrap();
    assert_eq!(price.to_decimal(1234567, 6), "1.234567");
    assert_eq!(price.to_decimal(1, 0), "1");
}
