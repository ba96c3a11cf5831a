use pathtracer::fx::{fx_add, fx_clamp01, fx_div, fx_div_int, fx_mul, fx_neg, fx_sqrt, fx_sub, FX_MAX, FX_ONE};

#[test]
fn one_times_one_is_one() {
    assert_eq!(fx_mul(FX_ONE, FX_ONE), FX_ONE);
}

#[test]
fn mul_rounds_toward_zero() {
    // 1.5 * 1.5 = 2.25 exactly representable
    let one_half = FX_ONE + FX_ONE / 2;
    assert_eq!(fx_mul(one_half, one_half), 2 * FX_ONE + FX_ONE / 4);
    // (-3) * (1/65536) = -3/65536 rounds toward zero to 0
    assert_eq!(fx_mul(-3, 1), 0);
}

#[test]
fn div_by_zero_is_zero() {
    assert_eq!(fx_div(FX_ONE, 0), 0);
    assert_eq!(fx_div(-5 * FX_ONE, 0), 0);
}

#[test]
fn div_exact() {
    assert_eq!(fx_div(10 * FX_ONE, 5 * FX_ONE), 2 * FX_ONE);
    assert_eq!(fx_div(-10 * FX_ONE, 5 * FX_ONE), -2 * FX_ONE);
    assert_eq!(fx_div(FX_ONE, 2 * FX_ONE), FX_ONE / 2);
}

#[test]
fn sqrt_perfect_squares() {
    assert_eq!(fx_sqrt(FX_ONE), FX_ONE);
    assert_eq!(fx_sqrt(4 * FX_ONE), 2 * FX_ONE);
    assert_eq!(fx_sqrt(25 * FX_ONE), 5 * FX_ONE);
    assert_eq!(fx_sqrt(0), 0);
    // negative radicands produce zero by policy
    assert_eq!(fx_sqrt(-FX_ONE), 0);
}

#[test]
fn add_saturates() {
    assert_eq!(fx_add(FX_MAX, FX_MAX), FX_MAX);
    assert_eq!(fx_sub(-FX_MAX, FX_MAX), -FX_MAX);
    assert_eq!(fx_add(FX_ONE, FX_ONE), 2 * FX_ONE);
}

#[test]
fn neg_is_exact_in_range() {
    assert_eq!(fx_neg(5 * FX_ONE), -5 * FX_ONE);
    assert_eq!(fx_neg(-FX_MAX), FX_MAX);
}

#[test]
fn clamp01_bounds() {
    assert_eq!(fx_clamp01(-7), 0);
    assert_eq!(fx_clamp01(FX_ONE + 1), FX_ONE);
    assert_eq!(fx_clamp01(12345), 12345);
}

#[test]
fn div_int_truncates() {
    assert_eq!(fx_div_int(10 * FX_ONE, 4), (10 * FX_ONE) / 4);
    assert_eq!(fx_div_int(-7, 2), -3);
}
