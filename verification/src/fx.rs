//! Fixed-point scalar arithmetic.
//!
//! Every scalar the renderer works with is a signed 16.16 fixed-point number:
//! an `i64` raw value denoting `raw / 65536`. All operations are total: results
//! are saturated into the symmetric range `[-FX_MAX, FX_MAX]`, products and
//! quotients round toward zero, a quotient with divisor zero is zero, and the
//! square root of a negative number is zero. The spec functions below state the
//! exact value every operation returns, so callers' contracts pin results down
//! to the bit.

use vstd::prelude::*;

verus! {

/// Raw representation of the scalar one.
pub const FX_ONE: i64 = 65536;

/// Largest raw magnitude a scalar can take (2^62); saturation bound.
pub const FX_MAX: i64 = 0x4000_0000_0000_0000;

/// A raw value inside the saturation range.
pub open spec fn fx_ok(a: int) -> bool {
    -(FX_MAX as int) <= a <= FX_MAX as int
}

/// Saturation into the scalar range.
pub open spec fn sat(x: int) -> int {
    if x > FX_MAX as int {
        FX_MAX as int
    } else if x < -(FX_MAX as int) {
        -(FX_MAX as int)
    } else {
        x
    }
}

pub open spec fn spec_abs(a: int) -> int {
    if a >= 0 {
        a
    } else {
        -a
    }
}

/// Division rounding toward zero; zero when the divisor is zero.
pub open spec fn tdiv(a: int, b: int) -> int {
    if b == 0 {
        0
    } else if (a >= 0) == (b >= 0) {
        spec_abs(a) / spec_abs(b)
    } else {
        -(spec_abs(a) / spec_abs(b))
    }
}

pub open spec fn spec_fx_add(a: int, b: int) -> int {
    sat(a + b)
}

pub open spec fn spec_fx_sub(a: int, b: int) -> int {
    sat(a - b)
}

pub open spec fn spec_fx_neg(a: int) -> int {
    sat(-a)
}

pub open spec fn spec_fx_mul(a: int, b: int) -> int {
    sat(tdiv(a * b, FX_ONE as int))
}

pub open spec fn spec_fx_div(a: int, b: int) -> int {
    sat(tdiv(a * (FX_ONE as int), b))
}

/// Integer square root, rounded down.
pub open spec fn isqrt(n: nat) -> nat
    decreases n,
{
    if n == 0 {
        0
    } else {
        let r = isqrt((n - 1) as nat);
        if (r + 1) * (r + 1) <= n {
            r + 1
        } else {
            r
        }
    }
}

/// Scalar square root: zero on non-positive input.
pub open spec fn spec_fx_sqrt(a: int) -> int {
    if a <= 0 {
        0
    } else {
        isqrt((a * (FX_ONE as int)) as nat) as int
    }
}

/// Clamp into the unit interval `[0, 1]`.
pub open spec fn spec_clamp01(a: int) -> int {
    if a < 0 {
        0
    } else if a > FX_ONE as int {
        FX_ONE as int
    } else {
        a
    }
}

pub proof fn lemma_mul_bound(a: int, b: int, m: int)
    by (nonlinear_arith)
    requires
        -m <= a <= m,
        -m <= b <= m,
        0 <= m,
    ensures
        -(m * m) <= a * b <= m * m,
{
}

/// Equal factors give equal products: the congruence step the linear solver
/// will not take on its own.
pub proof fn lemma_mul_subst(a: int, b: int, a2: int, b2: int)
    by (nonlinear_arith)
    requires
        a == a2,
        b == b2,
    ensures
        a * b == a2 * b2,
{
}

pub proof fn lemma_isqrt_bracket(n: nat)
    ensures
        isqrt(n) * isqrt(n) <= n,
        n < (isqrt(n) + 1) * (isqrt(n) + 1),
    decreases n,
{
    reveal_with_fuel(isqrt, 2);
    if n > 0 {
        lemma_isqrt_bracket((n - 1) as nat);
        let r = isqrt((n - 1) as nat);
        let s = isqrt(n);
        assert(r * r <= n - 1);
        assert(n - 1 < (r + 1) * (r + 1));
        if (r + 1) * (r + 1) <= n {
            assert(s == r + 1);
            assert(s * s <= n) by (nonlinear_arith)
                requires
                    s == r + 1,
                    (r + 1) * (r + 1) <= n,
            ;
            assert(n < (s + 1) * (s + 1)) by (nonlinear_arith)
                requires
                    s == r + 1,
                    n - 1 < (r + 1) * (r + 1),
            ;
        } else {
            assert(s == r);
            assert(s * s <= n) by (nonlinear_arith)
                requires
                    s == r,
                    r * r <= n - 1,
            ;
            assert(n < (s + 1) * (s + 1)) by (nonlinear_arith)
                requires
                    s == r,
                    n < (r + 1) * (r + 1),
            ;
        }
    } else {
        assert(isqrt(n) == 0);
        assert(n < (isqrt(n) + 1) * (isqrt(n) + 1)) by (nonlinear_arith)
            requires
                n == 0,
                isqrt(n) == 0,
        ;
    }
}

pub proof fn lemma_isqrt_unique(n: nat, r: nat)
    requires
        r * r <= n,
        n < (r + 1) * (r + 1),
    ensures
        r == isqrt(n),
{
    lemma_isqrt_bracket(n);
    let s = isqrt(n);
    if r < s {
        assert((r + 1) * (r + 1) <= s * s) by (nonlinear_arith)
            requires r + 1 <= s,
        ;
    }
    if s < r {
        assert((s + 1) * (s + 1) <= r * r) by (nonlinear_arith)
            requires s + 1 <= r,
        ;
    }
}

pub proof fn lemma_sat_neg(x: int)
    ensures
        sat(-x) == -sat(x),
{
}

pub proof fn lemma_tdiv_neg(a: int, b: int)
    ensures
        tdiv(-a, b) == -tdiv(a, b),
{
}

/// Division rounding toward zero is exact on multiples.
pub proof fn lemma_tdiv_exact(a: int, c: int)
    requires
        0 < c,
    ensures
        tdiv(a * c, c) == a,
{
    if a >= 0 {
        assert(spec_abs(a * c) == a * c) by (nonlinear_arith)
            requires
                a >= 0,
                c > 0,
        ;
        vstd::arithmetic::div_mod::lemma_div_by_multiple(a, c);
    } else {
        assert(spec_abs(a * c) == (-a) * c && a * c < 0) by (nonlinear_arith)
            requires
                a < 0,
                c > 0,
        ;
        vstd::arithmetic::div_mod::lemma_div_by_multiple(-a, c);
        assert(tdiv(a * c, c) == -(((-a) * c) / c));
    }
}

/// Negating one factor negates a product.
pub proof fn lemma_fx_mul_neg_right(a: int, b: int)
    ensures
        spec_fx_mul(a, -b) == -spec_fx_mul(a, b),
{
    assert(a * (-b) == -(a * b)) by (nonlinear_arith);
    lemma_tdiv_neg(a * b, FX_ONE as int);
    lemma_sat_neg(tdiv(a * b, FX_ONE as int));
}

/// Negating the left factor negates a product.
pub proof fn lemma_fx_mul_neg_left(a: int, b: int)
    ensures
        spec_fx_mul(-a, b) == -spec_fx_mul(a, b),
{
    assert((-a) * b == -(a * b)) by (nonlinear_arith);
    lemma_tdiv_neg(a * b, FX_ONE as int);
    lemma_sat_neg(tdiv(a * b, FX_ONE as int));
}

/// Multiplying by minus one is exact negation, saturated.
pub proof fn lemma_fx_mul_neg_one(a: int)
    ensures
        spec_fx_mul(a, -(FX_ONE as int)) == sat(-a),
{
    lemma_fx_mul_neg_right(a, FX_ONE as int);
    lemma_tdiv_exact(a, FX_ONE as int);
}

/// A product of non-negatives stays non-negative through rounding and
/// saturation.
pub proof fn lemma_fx_mul_nonneg(a: int, b: int)
    requires
        a >= 0,
        b >= 0,
    ensures
        spec_fx_mul(a, b) >= 0,
{
    assert(a * b >= 0) by (nonlinear_arith)
        requires
            a >= 0,
            b >= 0,
    ;
    if a * b > 0 {
        vstd::arithmetic::div_mod::lemma_div_pos_is_pos(a * b, FX_ONE as int);
    } else {
        vstd::arithmetic::div_mod::lemma_div_of0(FX_ONE as int);
    }
}

/// Zero absorbs multiplication.
pub proof fn lemma_fx_mul_zero_left(b: int)
    ensures
        spec_fx_mul(0, b) == 0,
{
    assert(0 * b == 0) by (nonlinear_arith);
    vstd::arithmetic::div_mod::lemma_div_of0(FX_ONE as int);
}

/// Saturate a wide intermediate into the scalar range.
fn clamp_wide(x: i128) -> (r: i64)
    ensures
        r as int == sat(x as int),
        fx_ok(r as int),
{
    if x > FX_MAX as i128 {
        FX_MAX
    } else if x < -(FX_MAX as i128) {
        -FX_MAX
    } else {
        x as i64
    }
}

/// Division of a wide intermediate, rounding toward zero.
fn tdiv_wide(a: i128, b: i128) -> (r: i128)
    requires
        -0x4000_0000_0000_0000_0000_0000_0000_0000 <= a <= 0x4000_0000_0000_0000_0000_0000_0000_0000,
        -0x4000_0000_0000_0000_0000_0000_0000_0000 <= b <= 0x4000_0000_0000_0000_0000_0000_0000_0000,
    ensures
        r as int == tdiv(a as int, b as int),
        spec_abs(r as int) <= spec_abs(a as int),
{
    if b == 0 {
        return 0;
    }
    let an: u128 = if a >= 0 {
        a as u128
    } else {
        (-a) as u128
    };
    let bn: u128 = if b >= 0 {
        b as u128
    } else {
        (-b) as u128
    };
    let q: u128 = an / bn;
    proof {
        assert(an as int == spec_abs(a as int));
        assert(bn as int == spec_abs(b as int));
        vstd::arithmetic::div_mod::lemma_div_nonincreasing(an as int, bn as int);
        vstd::arithmetic::div_mod::lemma_div_pos_is_pos(an as int, bn as int);
    }
    if (a >= 0) == (b >= 0) {
        q as i128
    } else {
        -(q as i128)
    }
}

pub fn fx_add(a: i64, b: i64) -> (r: i64)
    ensures
        r as int == spec_fx_add(a as int, b as int),
        fx_ok(r as int),
{
    clamp_wide((a as i128) + (b as i128))
}

pub fn fx_sub(a: i64, b: i64) -> (r: i64)
    ensures
        r as int == spec_fx_sub(a as int, b as int),
        fx_ok(r as int),
{
    clamp_wide((a as i128) - (b as i128))
}

pub fn fx_neg(a: i64) -> (r: i64)
    ensures
        r as int == spec_fx_neg(a as int),
        fx_ok(r as int),
{
    clamp_wide(-(a as i128))
}

pub fn fx_mul(a: i64, b: i64) -> (r: i64)
    ensures
        r as int == spec_fx_mul(a as int, b as int),
        fx_ok(r as int),
{
    proof {
        lemma_mul_bound(a as int, b as int, 0x8000_0000_0000_0000);
    }
    let p: i128 = (a as i128) * (b as i128);
    let q = tdiv_wide(p, FX_ONE as i128);
    clamp_wide(q)
}

pub fn fx_div(a: i64, b: i64) -> (r: i64)
    ensures
        r as int == spec_fx_div(a as int, b as int),
        fx_ok(r as int),
{
    let n: i128 = (a as i128) * 65536;
    let q = tdiv_wide(n, b as i128);
    clamp_wide(q)
}

/// Division of a raw value by a whole number, as when averaging over a
/// sample count.
pub open spec fn spec_fx_div_int(a: int, b: int) -> int {
    sat(tdiv(a, b))
}

/// Plain integer division of a raw value, rounding toward zero: divides a
/// scalar by a whole number, as when averaging over a sample count.
pub fn fx_div_int(a: i64, b: i64) -> (r: i64)
    ensures
        r as int == spec_fx_div_int(a as int, b as int),
        fx_ok(r as int),
{
    let q = tdiv_wide(a as i128, b as i128);
    clamp_wide(q)
}

pub fn fx_sqrt(a: i64) -> (r: i64)
    ensures
        r as int == spec_fx_sqrt(a as int),
        fx_ok(r as int),
        r >= 0,
{
    if a <= 0 {
        return 0;
    }
    let n: u128 = (a as u128) * 65536;
    let mut lo: u128 = 0;
    let mut hi: u128 = 0x1_0000_0000_0000;
    proof {
        assert(n < hi * hi);
    }
    while lo + 1 < hi
        invariant
            lo < hi <= 0x1_0000_0000_0000,
            lo * lo <= n,
            n < hi * hi,
        decreases hi - lo,
    {
        let mid = lo + (hi - lo) / 2;
        proof {
            lemma_mul_bound(mid as int, mid as int, 0x1_0000_0000_0000);
        }
        if mid * mid <= n {
            lo = mid;
        } else {
            hi = mid;
        }
    }
    proof {
        assert(hi == lo + 1);
        lemma_isqrt_unique(n as nat, lo as nat);
    }
    lo as i64
}

pub fn fx_clamp01(a: i64) -> (r: i64)
    ensures
        r as int == spec_clamp01(a as int),
        0 <= r <= FX_ONE,
{
    if a < 0 {
        0
    } else if a > FX_ONE {
        FX_ONE
    } else {
        a
    }
}

} // verus!
