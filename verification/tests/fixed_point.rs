use idroid::fixed::{fx_div, fx_mul, fx_rem, i64_tdiv, isqrt_u128, FX_HALF, FX_ONE};

#[test]
fn fx_constants_relate() {
    assert_eq!(FX_ONE, 1_000_000);
    assert_eq!(FX_HALF, 500_000);
}

#[test]
fn fx_mul_scales_exactly() {
    // 1.5 * 2 = 3
    assert_eq!(fx_mul(1_500_000, 2_000_000), 3_000_000);
    // 0.5 * 0.5 = 0.25
    assert_eq!(fx_mul(500_000, 500_000), 250_000);
    // negative factors round toward zero
    assert_eq!(fx_mul(1_500_000, -2_000_000), -3_000_000);
    assert_eq!(fx_mul(-1, 1), 0);
    assert_eq!(fx_mul(0, 123_456), 0);
}

#[test]
fn fx_div_rounds_toward_zero() {
    // 1 / 3 = 0.333333, truncated
    assert_eq!(fx_div(1_000_000, 3_000_000), 333_333);
    assert_eq!(fx_div(-1_000_000, 3_000_000), -333_333);
    assert_eq!(fx_div(1_000_000, -3_000_000), -333_333);
    assert_eq!(fx_div(-1_000_000, -3_000_000), 333_333);
    // 5 / 0.5 = 10
    assert_eq!(fx_div(5_000_000, 500_000), 10_000_000);
}

#[test]
fn fx_rem_keeps_dividend_sign() {
    assert_eq!(fx_rem(7_000_000, 3_000_000), 1_000_000);
    assert_eq!(fx_rem(-7_000_000, 3_000_000), -1_000_000);
    assert_eq!(fx_rem(7_000_000, -3_000_000), 1_000_000);
    assert_eq!(fx_rem(-7_000_000, -3_000_000), -1_000_000);
}

#[test]
fn tdiv_truncates_both_signs() {
    assert_eq!(i64_tdiv(7, 2), 3);
    assert_eq!(i64_tdiv(-7, 2), -3);
    assert_eq!(i64_tdiv(7, -2), -3);
    assert_eq!(i64_tdiv(-7, -2), 3);
}

#[test]
fn isqrt_brackets_the_square() {
    assert_eq!(isqrt_u128(0), 0);
    assert_eq!(isqrt_u128(1), 1);
    assert_eq!(isqrt_u128(3), 1);
    assert_eq!(isqrt_u128(4), 2);
    assert_eq!(isqrt_u128(24), 4);
    assert_eq!(isqrt_u128(25), 5);
    assert_eq!(isqrt_u128(1_000_000_000_000_000_000_000_000), 1_000_000_000_000);
    assert_eq!(isqrt_u128(u128::MAX), u64::MAX);
}
