use bion::fixed::{fx_abs, fx_add, fx_div, fx_mul, fx_sub, SCALE};

#[test]
fn multiplication_rescales_and_truncates_toward_zero() {
    // 3e-12 * 0.5 = 1.5e-12, truncated to one unit
    assert_eq!(fx_mul(3, 500_000_000_000), Some(1));
    assert_eq!(fx_mul(-3, 500_000_000_000), Some(-1));
    assert_eq!(fx_mul(2 * SCALE, 3 * SCALE), Some(6 * SCALE));
    assert_eq!(fx_mul(SCALE, -SCALE), Some(-SCALE));
}

#[test]
fn division_rescales_and_truncates_toward_zero() {
    assert_eq!(fx_div(SCALE, 3 * SCALE), Some(333_333_333_333));
    assert_eq!(fx_div(-SCALE, 3 * SCALE), Some(-333_333_333_333));
    assert_eq!(fx_div(6 * SCALE, 2 * SCALE), Some(3 * SCALE));
}

#[test]
fn division_by_zero_is_reported() {
    assert_eq!(fx_div(SCALE, 0), None);
}

#[test]
fn overflow_is_reported_not_wrapped() {
    assert_eq!(fx_mul(i64::MAX, 2 * SCALE), None);
    assert_eq!(fx_add(i64::MAX, 1), None);
    assert_eq!(fx_sub(i64::MIN, 1), None);
    assert_eq!(fx_abs(i64::MIN), None);
}

#[test]
fn sum_difference_magnitude() {
    assert_eq!(fx_add(2 * SCALE, 3 * SCALE), Some(5 * SCALE));
    assert_eq!(fx_sub(2 * SCALE, 3 * SCALE), Some(-SCALE));
    assert_eq!(fx_abs(-7 * SCALE), Some(7 * SCALE));
    assert_eq!(fx_abs(7 * SCALE), Some(7 * SCALE));
}
