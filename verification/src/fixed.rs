//! Saturating decimal fixed-point arithmetic.
//!
//! A real value `r` is carried as the `i64` nearest `r * SCALE` (truncated
//! toward zero), so `1.0` is `SCALE`. Sums, differences, products and
//! quotients whose mathematical value leaves the `i64` range saturate at
//! `i64::MIN` / `i64::MAX`: this is the crate's explicit rule for
//! unrepresentable magnitudes, mirrored exactly by the spec functions here.

use vstd::arithmetic::div_mod::{
    lemma_div_is_ordered, lemma_div_multiples_vanish, lemma_div_nonincreasing,
    lemma_div_pos_is_pos,
};
use vstd::prelude::*;

verus! {

/// Number of fixed-point units in `1.0`.
pub const SCALE: i64 = 1_000_000;

/// Mathematical value saturated to the `i64` range.
pub open spec fn sat64(x: int) -> int {
    if x > i64::MAX {
        i64::MAX as int
    } else if x < i64::MIN {
        i64::MIN as int
    } else {
        x
    }
}

/// Absolute value over the mathematical integers.
pub open spec fn abs_int(x: int) -> int {
    if x >= 0 {
        x
    } else {
        -x
    }
}

/// Division truncated toward zero (the semantics of `/` on machine integers).
pub open spec fn div_trunc(n: int, d: int) -> int
    recommends
        d != 0,
{
    if (n >= 0) == (d >= 0) {
        abs_int(n) / abs_int(d)
    } else {
        -(abs_int(n) / abs_int(d))
    }
}

/// Saturating fixed-point addition.
pub open spec fn spec_add(a: int, b: int) -> int {
    sat64(a + b)
}

/// Saturating fixed-point subtraction.
pub open spec fn spec_sub(a: int, b: int) -> int {
    sat64(a - b)
}

/// Saturating fixed-point multiplication: `a * b / SCALE`, truncated.
pub open spec fn spec_mul(a: int, b: int) -> int {
    sat64(div_trunc(a * b, SCALE as int))
}

/// Saturating fixed-point division: `a * SCALE / b`, truncated.
pub open spec fn spec_div(a: int, b: int) -> int
    recommends
        b != 0,
{
    sat64(div_trunc(a * (SCALE as int), b))
}

/// Fixed-point absolute value (the absolute value of `i64::MIN` saturates).
pub open spec fn spec_abs(v: int) -> int {
    sat64(abs_int(v))
}

/// Maximum of two values.
pub open spec fn spec_max(a: int, b: int) -> int {
    if a >= b {
        a
    } else {
        b
    }
}

/// Clamp into `[0, 1]` (that is, `[0, SCALE]` in fixed-point units).
pub open spec fn spec_clamp01(v: int) -> int {
    if v < 0 {
        0
    } else if v > SCALE {
        SCALE as int
    } else {
        v
    }
}

/// Linear interpolation `a + t * (b - a)` over the saturating operations.
pub open spec fn spec_lerp(t: int, a: int, b: int) -> int {
    spec_add(a, spec_mul(t, spec_sub(b, a)))
}

/// Inverse linear interpolation `clamp01((t - a) / (b - a))`, defined as
/// exactly `0` when the range is degenerate (`a == b`).
pub open spec fn spec_inverse_lerp(t: int, a: int, b: int) -> int {
    if a != b {
        spec_clamp01(spec_div(spec_sub(t, a), spec_sub(b, a)))
    } else {
        0
    }
}

/// Fixed-point power with a natural exponent: `pow(v, 0) == 1.0` and
/// `pow(v, n) == v * pow(v, n - 1)` over the saturating multiplication.
pub open spec fn spec_pow(v: int, n: nat) -> int
    decreases n,
{
    if n == 0 {
        SCALE as int
    } else {
        spec_mul(v, spec_pow(v, (n - 1) as nat))
    }
}

/// Truncated division of a nonnegative value stays nonnegative and bounded.
proof fn lemma_div_bound_nonneg(n: int, d: int)
    requires
        n >= 0,
        d >= 1,
    ensures
        0 <= n / d <= n,
{
    lemma_div_pos_is_pos(n, d);
    lemma_div_nonincreasing(n, d);
}

/// The product of two `i64` values always fits in `i128`.
proof fn lemma_i64_product_fits(a: int, b: int)
    requires
        i64::MIN <= a <= i64::MAX,
        i64::MIN <= b <= i64::MAX,
    ensures
        i128::MIN < a * b < i128::MAX,
{
    assert(a * b <= 0x8000_0000_0000_0000 * 0x8000_0000_0000_0000
        && a * b >= -(0x8000_0000_0000_0000 * 0x8000_0000_0000_0000)) by (nonlinear_arith)
        requires
            -0x8000_0000_0000_0000 <= a <= 0x7fff_ffff_ffff_ffff,
            -0x8000_0000_0000_0000 <= b <= 0x7fff_ffff_ffff_ffff,
    ;
}

/// Saturate an `i128` to the `i64` range.
fn sat_to_i64(x: i128) -> (r: i64)
    ensures
        r as int == sat64(x as int),
{
    if x > i64::MAX as i128 {
        i64::MAX
    } else if x < i64::MIN as i128 {
        i64::MIN
    } else {
        x as i64
    }
}

/// Truncated division on `i128`, total for a nonzero divisor.
fn div_trunc_i128(n: i128, d: i128) -> (r: i128)
    requires
        d != 0,
        n > i128::MIN,
        d > i128::MIN,
    ensures
        r as int == div_trunc(n as int, d as int),
{
    let na: i128 = if n >= 0 { n } else { -n };
    let da: i128 = if d >= 0 { d } else { -d };
    proof {
        lemma_div_bound_nonneg(na as int, da as int);
    }
    let q: i128 = na / da;
    if (n >= 0) == (d >= 0) {
        q
    } else {
        -q
    }
}

/// Saturating fixed-point addition.
pub fn fp_add(a: i64, b: i64) -> (r: i64)
    ensures
        r as int == spec_add(a as int, b as int),
{
    sat_to_i64(a as i128 + b as i128)
}

/// Saturating fixed-point subtraction.
pub fn fp_sub(a: i64, b: i64) -> (r: i64)
    ensures
        r as int == spec_sub(a as int, b as int),
{
    sat_to_i64(a as i128 - b as i128)
}

/// Saturating fixed-point multiplication.
pub fn fp_mul(a: i64, b: i64) -> (r: i64)
    ensures
        r as int == spec_mul(a as int, b as int),
{
    proof {
        lemma_i64_product_fits(a as int, b as int);
    }
    let p: i128 = a as i128 * b as i128;
    let q = div_trunc_i128(p, SCALE as i128);
    sat_to_i64(q)
}

/// Saturating fixed-point division by a nonzero divisor.
pub fn fp_div(a: i64, b: i64) -> (r: i64)
    requires
        b != 0,
    ensures
        r as int == spec_div(a as int, b as int),
{
    proof {
        lemma_i64_product_fits(a as int, SCALE as int);
    }
    let p: i128 = a as i128 * SCALE as i128;
    let q = div_trunc_i128(p, b as i128);
    sat_to_i64(q)
}

/// Fixed-point power with a small natural exponent.
pub fn fp_pow(v: i64, n: u32) -> (r: i64)
    ensures
        r as int == spec_pow(v as int, n as nat),
{
    let mut result: i64 = SCALE;
    let mut k: u32 = 0;
    while k < n
        invariant
            k <= n,
            result as int == spec_pow(v as int, k as nat),
        decreases n - k,
    {
        result = fp_mul(v, result);
        k = k + 1;
        proof {
            lemma_pow_unfold_up(v as int, k as nat);
        }
    }
    result
}

/// Unfolding step for `spec_pow` at a positive exponent.
proof fn lemma_pow_unfold_up(v: int, k: nat)
    requires
        k >= 1,
    ensures
        spec_pow(v, k) == spec_mul(v, spec_pow(v, (k - 1) as nat)),
{
}

/// Small numeric helpers shared across the pipeline.
pub struct Utility;

impl Utility {
    /// Fixed-point absolute value.
    pub fn abs32(x: i64) -> (r: i64)
        ensures
            r as int == spec_abs(x as int),
    {
        if x >= 0 {
            x
        } else if x == i64::MIN {
            i64::MAX
        } else {
            -x
        }
    }

    /// Maximum of two fixed-point values.
    pub fn max(a: i64, b: i64) -> (r: i64)
        ensures
            r as int == spec_max(a as int, b as int),
    {
        if a >= b {
            a
        } else {
            b
        }
    }

    /// Clamp a fixed-point value into `[0, 1]`. Total: every `i64` input,
    /// however far outside the range, maps into `[0, SCALE]`.
    pub fn clamp01(value: i64) -> (r: i64)
        ensures
            r as int == spec_clamp01(value as int),
            0 <= r <= SCALE,
    {
        if value < 0 {
            0
        } else if value > SCALE {
            SCALE
        } else {
            value
        }
    }

    /// Linear interpolation `a + t * (b - a)`.
    pub fn lerp(t: i64, a: i64, b: i64) -> (r: i64)
        ensures
            r as int == spec_lerp(t as int, a as int, b as int),
    {
        fp_add(a, fp_mul(t, fp_sub(b, a)))
    }

    /// Inverse linear interpolation, clamped into `[0, 1]`; exactly `0`
    /// on a degenerate range (`a == b`).
    pub fn inverse_lerp(t: i64, a: i64, b: i64) -> (r: i64)
        ensures
            r as int == spec_inverse_lerp(t as int, a as int, b as int),
            0 <= r <= SCALE,
    {
        if a != b {
            let range = fp_sub(b, a);
            assert(range != 0);
            Utility::clamp01(fp_div(fp_sub(t, a), range))
        } else {
            0
        }
    }
}

/// Clamping is total: for every `i64` input the result lies in `[0, 1]`.
/// (Stated over the spec function so callers can use it on ghost values.)
pub proof fn lemma_clamp01_total(v: int)
    ensures
        0 <= spec_clamp01(v) <= SCALE,
{
}

/// A row-major grid cell `(x, y)` indexes strictly below row `rows`.
pub proof fn lemma_grid_index_bound(x: int, y: int, w: int, rows: int)
    requires
        0 <= x < w,
        0 <= y < rows,
    ensures
        0 <= y * w + x < rows * w,
{
    assert(0 <= y * w + x && y * w + x < rows * w) by (nonlinear_arith)
        requires
            0 <= x < w,
            0 <= y < rows,
    ;
}

/// A product of nonnegative fixed-point values is nonnegative.
pub proof fn lemma_spec_mul_nonneg(a: int, b: int)
    requires
        a >= 0,
        b >= 0,
    ensures
        spec_mul(a, b) >= 0,
{
    assert(a * b >= 0) by (nonlinear_arith)
        requires
            a >= 0,
            b >= 0,
    ;
    lemma_div_pos_is_pos(a * b, SCALE as int);
}

/// A nonnegative base raised to any power stays nonnegative.
pub proof fn lemma_pow_nonneg(v: int, n: nat)
    requires
        v >= 0,
    ensures
        spec_pow(v, n) >= 0,
    decreases n,
{
    if n > 0 {
        lemma_pow_nonneg(v, (n - 1) as nat);
        lemma_spec_mul_nonneg(v, spec_pow(v, (n - 1) as nat));
    }
}

/// Multiplying a nonnegative value by a factor in `[0, 1]` shrinks it.
pub proof fn lemma_spec_mul_le(b: int, v: int)
    requires
        0 <= b <= i64::MAX,
        0 <= v <= SCALE,
    ensures
        0 <= spec_mul(b, v) <= b,
{
    lemma_spec_mul_nonneg(b, v);
    assert(b * v <= b * SCALE) by (nonlinear_arith)
        requires
            0 <= b,
            v <= SCALE,
    ;
    lemma_div_is_ordered(b * v, b * (SCALE as int), SCALE as int);
    lemma_div_multiples_vanish(b, SCALE as int);
    assert(b * (SCALE as int) == (SCALE as int) * b) by (nonlinear_arith);
}

/// A quotient of a value by a bound at least as large stays in `[0, 1]`.
pub proof fn lemma_spec_div_unit(n: int, d: int)
    requires
        0 <= n <= d,
        0 < d,
    ensures
        0 <= spec_div(n, d) <= SCALE,
{
    assert(n * SCALE >= 0 && n * SCALE <= d * SCALE) by (nonlinear_arith)
        requires
            0 <= n <= d,
    ;
    lemma_div_pos_is_pos(n * (SCALE as int), d);
    lemma_div_is_ordered(n * (SCALE as int), d * (SCALE as int), d);
    lemma_div_multiples_vanish(SCALE as int, d);
    assert(d * (SCALE as int) == (SCALE as int) * d) by (nonlinear_arith);
}

} // verus!
