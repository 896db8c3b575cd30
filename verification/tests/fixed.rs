use starfield::fixed::{clamp, sat_add, sat_mul, sat_neg, ONE};

#[test]
fn one_is_a_million() {
    assert_eq!(ONE, 1_000_000);
}

#[test]
fn products_are_fixed_point() {
    assert_eq!(sat_mul(500_000, 500_000), 250_000);
    assert_eq!(sat_mul(ONE, 123_456), 123_456);
    assert_eq!(sat_mul(3 * ONE, -2 * ONE), -6 * ONE);
    assert_eq!(sat_mul(0, i64::MAX), 0);
}

#[test]
fn products_round_toward_zero() {
    assert_eq!(sat_mul(1, 999_999), 0);
    assert_eq!(sat_mul(-1, 999_999), 0);
    assert_eq!(sat_mul(1_500_000, 1), 1);
    assert_eq!(sat_mul(-1_500_000, 1), -1);
    assert_eq!(sat_mul(-1_999_999, 1), -1);
}

#[test]
fn products_saturate() {
    assert_eq!(sat_mul(i64::MAX, i64::MAX), i64::MAX);
    assert_eq!(sat_mul(i64::MIN, i64::MAX), i64::MIN);
    assert_eq!(sat_mul(i64::MIN, i64::MIN), i64::MAX);
    assert_eq!(sat_mul(i64::MAX, ONE), i64::MAX);
    assert_eq!(sat_mul(i64::MAX, 2 * ONE), i64::MAX);
    assert_eq!(sat_mul(i64::MIN, 2 * ONE), i64::MIN);
}

#[test]
fn sums_saturate() {
    assert_eq!(sat_add(1, 2), 3);
    assert_eq!(sat_add(-5, 2), -3);
    assert_eq!(sat_add(i64::MAX, 1), i64::MAX);
    assert_eq!(sat_add(i64::MIN, -1), i64::MIN);
    assert_eq!(sat_add(i64::MAX, i64::MIN), -1);
}

#[test]
fn negation_saturates() {
    assert_eq!(sat_neg(5), -5);
    assert_eq!(sat_neg(-5), 5);
    assert_eq!(sat_neg(0), 0);
    assert_eq!(sat_neg(i64::MIN), i64::MAX);
    assert_eq!(sat_neg(i64::MAX), i64::MIN + 1);
}

#[test]
fn clamp_holds_a_value_in_its_interval() {
    assert_eq!(clamp(5, 0, 10), 5);
    assert_eq!(clamp(-5, 0, 10), 0);
    assert_eq!(clamp(15, 0, 10), 10);
    assert_eq!(clamp(0, 0, 10), 0);
    assert_eq!(clamp(10, 0, 10), 10);
}
