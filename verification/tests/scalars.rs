use tool_pipeline::fixed::Fixed;
use tool_pipeline::numtext::{parse_number, render_number};

fn fx(neg: bool, mag: u128) -> Fixed {
    Fixed { neg, mag }
}

#[test]
fn parse_simple_integers() {
    assert_eq!(parse_number("3"), Some(fx(false, 3_000_000_000)));
    assert_eq!(parse_number("-12"), Some(fx(true, 12_000_000_000)));
    assert_eq!(parse_number("0"), Some(fx(false, 0)));
    assert_eq!(parse_number("-0"), Some(fx(false, 0)));
}

#[test]
fn parse_fractions() {
    assert_eq!(parse_number("2.5"), Some(fx(false, 2_500_000_000)));
    assert_eq!(parse_number("-0.000000001"), Some(fx(true, 1)));
    assert_eq!(parse_number("0.123456789"), Some(fx(false, 123_456_789)));
}

#[test]
fn parse_rejects_bad_text() {
    assert_eq!(parse_number(""), None);
    assert_eq!(parse_number("abc"), None);
    assert_eq!(parse_number("1e3"), None);
    assert_eq!(parse_number("1."), None);
    assert_eq!(parse_number(".5"), None);
    assert_eq!(parse_number("1.0000000001"), None);
    assert_eq!(parse_number("100000000000"), None);
}

#[test]
fn render_canonical_forms() {
    assert_eq!(render_number(fx(false, 5_000_000_000)), "5");
    assert_eq!(render_number(fx(true, 2_500_000_000)), "-2.5");
    assert_eq!(render_number(fx(false, 0)), "0");
    assert_eq!(render_number(fx(false, 1)), "0.000000001");
    assert_eq!(render_number(fx(false, 10_000_000_000_000_000_000)), "10000000000");
}

#[test]
fn round_trip_through_text() {
    for raw in [0u128, 1, 999_999_999, 1_000_000_000, 2_500_000_000, 123_456_789_012] {
        for neg in [false, true] {
            if neg && raw == 0 {
                continue;
            }
            let v = fx(neg, raw);
            assert_eq!(parse_number(&render_number(v)), Some(v));
        }
    }
}

#[test]
fn arithmetic_is_exact_on_small_values() {
    let three = fx(false, 3_000_000_000);
    let four = fx(false, 4_000_000_000);
    assert_eq!(render_number(three.add(four)), "7");
    assert_eq!(render_number(three.sub(four)), "-1");
    assert_eq!(render_number(three.mul(four)), "12");
    assert_eq!(render_number(three.div(four)), "0.75");
    assert_eq!(render_number(fx(false, 25_000_000_000).sqrt()), "5");
}

#[test]
fn arithmetic_saturates_at_the_bound() {
    let big = fx(false, 10_000_000_000_000_000_000);
    assert_eq!(big.add(big).mag, 10_000_000_000_000_000_000);
    assert!(!big.add(big).neg);
    assert_eq!(big.neg().add(big.neg()).mag, 10_000_000_000_000_000_000);
    assert!(big.neg().add(big.neg()).neg);
}

#[test]
fn comparisons_follow_values() {
    let a = fx(true, 2_000_000_000);
    let b = fx(false, 1_000_000_000);
    assert!(a.lt(b));
    assert!(!b.lt(a));
    assert!(a.le(a));
}
