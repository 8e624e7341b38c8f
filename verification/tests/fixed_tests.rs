use diorama::fixed::{
    fx_add, fx_clamp01, fx_div, fx_from_int, fx_mul, fx_neg, fx_pow_unit, fx_round_exp, fx_sqrt,
    fx_sub, FX_ONE,
};

#[test]
fn add_and_sub_saturate() {
    assert_eq!(fx_add(FX_ONE, FX_ONE), 2 * FX_ONE);
    assert_eq!(fx_add(i64::MAX, 1), i64::MAX);
    assert_eq!(fx_sub(i64::MIN, 1), i64::MIN);
    assert_eq!(fx_neg(i64::MIN), i64::MAX);
}

#[test]
fn mul_truncates_toward_zero() {
    let half = FX_ONE / 2;
    let seven = 7 * FX_ONE;
    assert_eq!(fx_mul(seven, half), 7 * FX_ONE / 2);
    assert_eq!(fx_mul(-seven, half), -(7 * FX_ONE / 2));
    assert_eq!(fx_mul(1, 1), 0);
    assert_eq!(fx_mul(i64::MAX, FX_ONE), i64::MAX);
}

#[test]
fn div_by_zero_saturates_by_sign() {
    assert_eq!(fx_div(FX_ONE, 0), i64::MAX);
    assert_eq!(fx_div(-FX_ONE, 0), i64::MIN);
    assert_eq!(fx_div(0, 0), 0);
}

#[test]
fn div_truncates_toward_zero() {
    assert_eq!(fx_div(8 * FX_ONE, 2 * FX_ONE), 4 * FX_ONE);
    assert_eq!(fx_div(FX_ONE, 3 * FX_ONE), FX_ONE / 3);
    assert_eq!(fx_div(-7 * FX_ONE, 2 * FX_ONE), -(7 * FX_ONE / 2));
}

#[test]
fn sqrt_of_perfect_squares_is_exact() {
    assert_eq!(fx_sqrt(4 * FX_ONE), 2 * FX_ONE);
    assert_eq!(fx_sqrt(100 * FX_ONE), 10 * FX_ONE);
    assert_eq!(fx_sqrt(FX_ONE), FX_ONE);
    assert_eq!(fx_sqrt(0), 0);
    assert_eq!(fx_sqrt(-FX_ONE), 0);
}

#[test]
fn sqrt_truncates() {
    let r = fx_sqrt(2 * FX_ONE) as i128;
    let v = 2 * (FX_ONE as i128) * (FX_ONE as i128);
    assert!(r * r <= v);
    assert!((r + 1) * (r + 1) > v);
}

#[test]
fn pow_unit_cases() {
    assert_eq!(fx_pow_unit(FX_ONE / 2, 0), FX_ONE);
    assert_eq!(fx_pow_unit(FX_ONE / 2, 1), FX_ONE / 2);
    assert_eq!(fx_pow_unit(FX_ONE / 2, 2), FX_ONE / 4);
    assert_eq!(fx_pow_unit(FX_ONE, 50), FX_ONE);
    assert_eq!(fx_pow_unit(0, 3), 0);
}

#[test]
fn round_exp_rounds_to_nearest() {
    assert_eq!(fx_round_exp(0), 0);
    assert_eq!(fx_round_exp(-FX_ONE), 0);
    assert_eq!(fx_round_exp(FX_ONE / 4), 0);
    assert_eq!(fx_round_exp(FX_ONE / 2), 1);
    assert_eq!(fx_round_exp(FX_ONE), 1);
    assert_eq!(fx_round_exp(FX_ONE + FX_ONE / 2), 2);
    assert_eq!(fx_round_exp(50 * FX_ONE), 50);
}

#[test]
fn clamp01_and_from_int() {
    assert_eq!(fx_clamp01(-5), 0);
    assert_eq!(fx_clamp01(FX_ONE + 1), FX_ONE);
    assert_eq!(fx_clamp01(123), 123);
    assert_eq!(fx_from_int(3), 3 * FX_ONE);
    assert_eq!(fx_from_int(-2), -2 * FX_ONE);
}
