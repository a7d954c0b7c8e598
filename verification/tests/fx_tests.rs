use voxeltrace::fx::{
    fx_abs, fx_add, fx_clamp, fx_cos, fx_div, fx_max, fx_min, fx_mul, fx_neg, fx_pow, fx_sin,
    fx_sqrt, fx_sub, isqrt_u128, wrap_angle, FX_LIM, HALF_PI_FX, PI_FX, SCALE, TWO_PI_FX,
};

#[test]
fn add_sub_neg_basics() {
    assert_eq!(fx_add(SCALE, SCALE), 2 * SCALE);
    assert_eq!(fx_sub(SCALE, 3 * SCALE), -2 * SCALE);
    assert_eq!(fx_neg(5), -5);
    assert_eq!(fx_abs(-7), 7);
    assert_eq!(fx_min(3, -4), -4);
    assert_eq!(fx_max(3, -4), 3);
    assert_eq!(fx_clamp(10, 0, 5), 5);
    assert_eq!(fx_clamp(-10, 0, 5), 0);
    assert_eq!(fx_clamp(3, 0, 5), 3);
}

#[test]
fn add_saturates_at_limit() {
    assert_eq!(fx_add(FX_LIM, FX_LIM), FX_LIM);
    assert_eq!(fx_sub(-FX_LIM, FX_LIM), -FX_LIM);
    assert_eq!(fx_neg(i64::MIN), FX_LIM);
}

#[test]
fn mul_is_fixed_point_product() {
    // 1 * 1 == 1, 2 * 0.5 == 1, signs follow the operands.
    assert_eq!(fx_mul(SCALE, SCALE), SCALE);
    assert_eq!(fx_mul(2 * SCALE, SCALE / 2), SCALE);
    assert_eq!(fx_mul(-2 * SCALE, SCALE / 2), -SCALE);
    // Truncation is toward zero.
    assert_eq!(fx_mul(1, 1), 0);
    assert_eq!(fx_mul(-1, 1), 0);
}

#[test]
fn div_is_fixed_point_quotient() {
    assert_eq!(fx_div(SCALE, 2 * SCALE), SCALE / 2);
    assert_eq!(fx_div(-SCALE, 2 * SCALE), -SCALE / 2);
    assert_eq!(fx_div(SCALE, -2 * SCALE), -SCALE / 2);
    // Division by zero yields zero rather than a fault.
    assert_eq!(fx_div(12345, 0), 0);
}

#[test]
fn isqrt_exact_bounds() {
    assert_eq!(isqrt_u128(0), 0);
    assert_eq!(isqrt_u128(1), 1);
    assert_eq!(isqrt_u128(3), 1);
    assert_eq!(isqrt_u128(4), 2);
    assert_eq!(isqrt_u128(1 << 34), 1 << 17);
}

#[test]
fn sqrt_of_four_is_two() {
    assert_eq!(fx_sqrt(4 * SCALE), 2 * SCALE);
    assert_eq!(fx_sqrt(SCALE), SCALE);
    assert_eq!(fx_sqrt(0), 0);
    assert_eq!(fx_sqrt(-SCALE), 0);
}

#[test]
fn pow_small_exponents() {
    assert_eq!(fx_pow(3 * SCALE, 0), SCALE);
    assert_eq!(fx_pow(3 * SCALE, 2), 9 * SCALE);
    assert_eq!(fx_pow(SCALE / 2, 2), SCALE / 4);
}

#[test]
fn wrap_angle_into_turn() {
    assert_eq!(wrap_angle(0), 0);
    assert_eq!(wrap_angle(TWO_PI_FX), 0);
    assert_eq!(wrap_angle(TWO_PI_FX + 5), 5);
    assert_eq!(wrap_angle(-1), TWO_PI_FX - 1);
    assert_eq!(wrap_angle(-TWO_PI_FX), 0);
}

#[test]
fn sine_key_points() {
    assert_eq!(fx_sin(0), 0);
    assert_eq!(fx_sin(PI_FX), 0);
    // The polynomial reaches one at the quarter turn (one step of
    // truncation below the exact value).
    assert_eq!(fx_sin(HALF_PI_FX), 65535);
    // sin(pi/6) is exactly one half.
    assert_eq!(fx_sin(34315), 32768);
    // Odd symmetry across the half turn.
    assert_eq!(fx_sin(PI_FX + HALF_PI_FX), -65535);
}

#[test]
fn cosine_key_points() {
    assert_eq!(fx_cos(0), 65535);
    assert_eq!(fx_cos(HALF_PI_FX), 0);
    assert_eq!(fx_cos(PI_FX), -65535);
}
