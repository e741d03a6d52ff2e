//! Edge-darkening falloff mask.
//!
//! The mask attenuates noise near the image edges so the texture reads as a
//! bounded island rather than tiling abruptly. Each pixel's coordinates are
//! normalized to `[-1, 1]` per axis, turned into a direction weight `v` by
//! the chosen shape, and shaped by the curve
//! `f(v) = v^A / (v^A + (B - B*v)^A)`, which is exactly `0` at `v == 0` and
//! exactly `1` at `v == 1`. The directional variant supports an optional
//! threshold `T`: below it the curve is mirrored (`1 - f(T - v)`), carving a
//! flat, low-falloff middle band bounded by two symmetric falloff edges.

use vstd::prelude::*;

use crate::fixed::{
    abs_int, fp_add, fp_div, fp_mul, fp_pow, fp_sub, lemma_grid_index_bound, lemma_pow_nonneg,
    lemma_spec_div_unit, lemma_spec_mul_le, spec_abs, spec_add, spec_div, spec_max, spec_mul,
    spec_pow, spec_sub, Utility, SCALE,
};

verus! {

/// Direction-weight heuristic for the directional (mirrored/banded) shape.
pub enum Heuristic {
    /// `1 - max(|x_norm|, |y_norm|)`: high in the middle, falling toward
    /// every edge — the radial desktop look.
    Radial,
    /// `1 - |y_norm| - c` for a band constant `c`: a horizontal band for
    /// tall, narrow layouts.
    Vertical(i64),
}

/// Which falloff variant shapes the mask.
pub enum FalloffShape {
    /// `v = max(|x_norm|, |y_norm|)` fed straight into the curve.
    Radial,
    /// A caller-chosen direction weight, with an optional mirror threshold.
    Directional { heuristic: Heuristic, threshold: Option<i64> },
}

/// Normalize a pixel coordinate to `[-1, 1]`: `p / extent * 2 - 1`.
pub open spec fn spec_norm_coord(p: int, extent: int) -> int {
    spec_sub(spec_mul(spec_div(p * SCALE, extent * SCALE), 2 * SCALE), SCALE as int)
}

/// The falloff curve `v^A / (v^A + (B - B*v)^A)`, with the quotient defined
/// as `0` when the (saturating, truncating) denominator vanishes.
pub open spec fn spec_evaluate(v: int, a: nat, b: int) -> int {
    let n = spec_pow(v, a);
    let d = spec_add(n, spec_pow(spec_sub(b, spec_mul(b, v)), a));
    if d == 0 {
        0
    } else {
        spec_div(n, d)
    }
}

/// The mirrored curve: below the threshold `t`, evaluate at the mirror
/// point `1 - (v + (1 - t))` and negate-plus-one the result; at or above
/// `t`, the plain curve.
pub open spec fn spec_evaluate_mirrored(v: int, t: int, a: nat, b: int) -> int {
    if v < t {
        let m = spec_sub(SCALE as int, spec_add(v, spec_sub(SCALE as int, t)));
        spec_sub(SCALE as int, spec_evaluate(m, a, b))
    } else {
        spec_evaluate(v, a, b)
    }
}

/// Direction weight of a normalized coordinate pair under a heuristic.
pub open spec fn spec_heuristic(h: Heuristic, xn: int, yn: int) -> int {
    match h {
        Heuristic::Radial => spec_sub(SCALE as int, spec_max(spec_abs(xn), spec_abs(yn))),
        Heuristic::Vertical(c) => spec_sub(spec_sub(SCALE as int, spec_abs(yn)), c as int),
    }
}

/// The mask weight of one pixel: normalize its coordinates, derive the
/// direction weight for the shape, and shape it with the curve.
pub open spec fn spec_falloff_at(
    x: int,
    y: int,
    width: int,
    height: int,
    shape: FalloffShape,
    a: nat,
    b: int,
) -> int {
    let xn = spec_norm_coord(x, width);
    let yn = spec_norm_coord(y, height);
    match shape {
        FalloffShape::Radial => spec_evaluate(spec_max(spec_abs(xn), spec_abs(yn)), a, b),
        FalloffShape::Directional { heuristic, threshold } => {
            let v = spec_heuristic(heuristic, xn, yn);
            match threshold {
                Some(t) => spec_evaluate_mirrored(v, t as int, a, b),
                None => spec_evaluate(v, a, b),
            }
        },
    }
}

/// A per-pixel grid of falloff weights for a `width x height` image.
pub struct FallOffMap {
    pub width: u32,
    pub height: u32,
    pub a: u32,
    pub b: i64,
    pub shape: FalloffShape,
    pub map: Vec<i64>,
}

impl FallOffMap {
    /// Every cell holds the weight of its pixel under the stored shape.
    pub open spec fn wf(self) -> bool {
        &&& self.map@.len() == self.width as int * self.height as int
        &&& forall|x: int, y: int|
            0 <= x < self.width && 0 <= y < self.height
                ==> #[trigger] self.map@[y * self.width as int + x] == spec_falloff_at(
                x,
                y,
                self.width as int,
                self.height as int,
                self.shape,
                self.a as nat,
                self.b as int,
            )
    }

    /// Build the mask for a grid, one curve evaluation per pixel.
    pub fn new(width: u32, height: u32, shape: FalloffShape, a: u32, b: i64) -> (r: Self)
        requires
            width >= 1,
            height >= 1,
            a >= 1,
            b >= 1,
            width as int * height as int <= usize::MAX,
        ensures
            r.wf(),
            r.width == width,
            r.height == height,
            r.a == a,
            r.b == b,
            r.shape == shape,
    {
        let mut map: Vec<i64> = Vec::new();
        let mut y: u32 = 0;
        while y < height
            invariant
                y <= height,
                width >= 1,
                height >= 1,
                width as int * height as int <= usize::MAX,
                map@.len() == y as int * width as int,
                forall|xi: int, yi: int|
                    0 <= xi < width && 0 <= yi < y
                        ==> #[trigger] map@[yi * width as int + xi] == spec_falloff_at(
                        xi,
                        yi,
                        width as int,
                        height as int,
                        shape,
                        a as nat,
                        b as int,
                    ),
            decreases height - y,
        {
            proof {
                lemma_row_bound(y as int, width as int, height as int);
            }
            let mut x: u32 = 0;
            while x < width
                invariant
                    x <= width,
                    y < height,
                    width >= 1,
                    height >= 1,
                    width as int * height as int <= usize::MAX,
                    (y as int + 1) * width as int <= width as int * height as int,
                    map@.len() == y as int * width as int + x as int,
                    forall|xi: int, yi: int|
                        0 <= xi < width && 0 <= yi < y
                            ==> #[trigger] map@[yi * width as int + xi] == spec_falloff_at(
                            xi,
                            yi,
                            width as int,
                            height as int,
                            shape,
                            a as nat,
                            b as int,
                        ),
                    forall|xi: int|
                        0 <= xi < x ==> #[trigger] map@[y as int * width as int + xi]
                            == spec_falloff_at(
                            xi,
                            y as int,
                            width as int,
                            height as int,
                            shape,
                            a as nat,
                            b as int,
                        ),
                decreases width - x,
            {
                let xn = norm_coord(x, width);
                let yn = norm_coord(y, height);
                let w = weight_of(xn, yn, &shape, a, b);
                map.push(w);
                proof {
                    assert(y as int * width as int + x as int + 1 <= (y as int + 1)
                        * width as int) by (nonlinear_arith)
                        requires
                            (x as int) < (width as int),
                    ;
                    assert forall|xi: int, yi: int|
                        0 <= xi < width && 0 <= yi < y implies 0 <= #[trigger] (yi * width as int
                        + xi) < y as int * width as int by {
                        lemma_grid_index_bound(xi, yi, width as int, y as int);
                    }
                }
                x = x + 1;
            }
            proof {
                assert((y as int + 1) * width as int == y as int * width as int + width as int)
                    by (nonlinear_arith);
            }
            y = y + 1;
        }
        proof {
            assert(height as int * width as int == width as int * height as int)
                by (nonlinear_arith);
        }
        FallOffMap { width, height, a, b, shape, map }
    }

    /// The historical radial mask with the gentler preset (`A = 3`,
    /// `B = 1.5`), returned as a bare grid of weights.
    pub fn generate(width: u32, height: u32) -> (r: Vec<i64>)
        requires
            width >= 1,
            height >= 1,
            width as int * height as int <= usize::MAX,
        ensures
            r@.len() == width as int * height as int,
            forall|x: int, y: int|
                0 <= x < width && 0 <= y < height
                    ==> #[trigger] r@[y * width as int + x] == spec_falloff_at(
                    x,
                    y,
                    width as int,
                    height as int,
                    FalloffShape::Radial,
                    3,
                    1_500_000,
                ),
    {
        let m = FallOffMap::new(width, height, FalloffShape::Radial, 3, 1_500_000);
        m.map
    }

    /// The curve `f(v) = v^A / (v^A + (B - B*v)^A)` with this mask's
    /// exponents.
    pub fn evaluate(&self, value: i64) -> (r: i64)
        ensures
            r as int == spec_evaluate(value as int, self.a as nat, self.b as int),
    {
        evaluate_curve(value, self.a, self.b)
    }

    /// The mirrored curve around a threshold `t`.
    pub fn evaluate_mirrored(&self, value: i64, t: i64) -> (r: i64)
        ensures
            r as int == spec_evaluate_mirrored(value as int, t as int, self.a as nat, self.b as int),
    {
        if value < t {
            let m = fp_sub(SCALE, fp_add(value, fp_sub(SCALE, t)));
            fp_sub(SCALE, evaluate_curve(m, self.a, self.b))
        } else {
            evaluate_curve(value, self.a, self.b)
        }
    }

    /// The stored weight of cell `i` (row-major).
    pub fn at(&self, i: usize) -> (r: i64)
        requires
            i < self.map@.len(),
        ensures
            r == self.map@[i as int],
    {
        self.map[i]
    }
}

/// A row that still fits below the grid: `(y + 1) * width <= width * height`.
proof fn lemma_row_bound(y: int, width: int, height: int)
    requires
        0 <= y < height,
        width >= 0,
    ensures
        (y + 1) * width <= width * height,
{
    assert((y + 1) * width <= width * height) by (nonlinear_arith)
        requires
            0 <= y < height,
            width >= 0,
    ;
}

/// Normalize pixel `p` of an axis with `extent` pixels to `[-1, 1]`.
pub fn norm_coord(p: u32, extent: u32) -> (r: i64)
    requires
        extent >= 1,
    ensures
        r as int == spec_norm_coord(p as int, extent as int),
{
    let fp: i64 = p as i64 * SCALE;
    let fe: i64 = extent as i64 * SCALE;
    fp_sub(fp_mul(fp_div(fp, fe), 2 * SCALE), SCALE)
}

/// The falloff curve as a free function over explicit exponents.
pub fn evaluate_curve(value: i64, a: u32, b: i64) -> (r: i64)
    ensures
        r as int == spec_evaluate(value as int, a as nat, b as int),
{
    let n = fp_pow(value, a);
    let d = fp_add(n, fp_pow(fp_sub(b, fp_mul(b, value)), a));
    if d == 0 {
        0
    } else {
        fp_div(n, d)
    }
}

/// Direction weight under a heuristic, from normalized coordinates.
pub fn heuristic_weight(h: &Heuristic, xn: i64, yn: i64) -> (r: i64)
    ensures
        r as int == spec_heuristic(*h, xn as int, yn as int),
{
    match h {
        Heuristic::Radial => {
            fp_sub(SCALE, Utility::max(Utility::abs32(xn), Utility::abs32(yn)))
        },
        Heuristic::Vertical(c) => fp_sub(fp_sub(SCALE, Utility::abs32(yn)), *c),
    }
}

/// One pixel's mask weight from its normalized coordinates.
fn weight_of(xn: i64, yn: i64, shape: &FalloffShape, a: u32, b: i64) -> (r: i64)
    ensures
        r as int == match *shape {
            FalloffShape::Radial => spec_evaluate(
                spec_max(spec_abs(xn as int), spec_abs(yn as int)),
                a as nat,
                b as int,
            ),
            FalloffShape::Directional { heuristic, threshold } => {
                let v = spec_heuristic(heuristic, xn as int, yn as int);
                match threshold {
                    Some(t) => spec_evaluate_mirrored(v, t as int, a as nat, b as int),
                    None => spec_evaluate(v, a as nat, b as int),
                }
            },
        },
{
    match shape {
        FalloffShape::Radial => {
            let v = Utility::max(Utility::abs32(xn), Utility::abs32(yn));
            evaluate_curve(v, a, b)
        },
        FalloffShape::Directional { heuristic, threshold } => {
            let v = heuristic_weight(heuristic, xn, yn);
            match threshold {
                Some(t) => {
                    if v < *t {
                        let m = fp_sub(SCALE, fp_add(v, fp_sub(SCALE, *t)));
                        fp_sub(SCALE, evaluate_curve(m, a, b))
                    } else {
                        evaluate_curve(v, a, b)
                    }
                },
                None => evaluate_curve(v, a, b),
            }
        },
    }
}

/// Boundary exactness: for any valid exponents the curve is exactly `0` at
/// `v == 0` and exactly `1` at `v == 1` — no floating-point slack.
pub proof fn lemma_falloff_boundaries(a: nat, b: int)
    requires
        a >= 1,
        1 <= b <= i64::MAX,
    ensures
        spec_evaluate(0, a, b) == 0,
        spec_evaluate(SCALE as int, a, b) == SCALE,
{
    lemma_pow_zero_base(a);
    lemma_pow_one(a);
    lemma_mul_by_one(b);
    assert(spec_mul(b, 0) == 0) by {
        vstd::arithmetic::div_mod::lemma_div_of0(SCALE as int);
    }
    assert(spec_sub(b, spec_mul(b, SCALE as int)) == 0);
    assert(spec_evaluate(0, a, b) == 0) by {
        assert(spec_pow(0, a) == 0);
        let d0 = spec_add(0, spec_pow(spec_sub(b, spec_mul(b, 0)), a));
        if d0 != 0 {
            lemma_pow_nonneg(spec_sub(b, spec_mul(b, 0)), a);
            lemma_spec_div_unit(0, d0);
            assert(spec_div(0, d0) == 0) by {
                vstd::arithmetic::div_mod::lemma_div_of0(d0);
            }
        }
    }
    assert(spec_evaluate(SCALE as int, a, b) == SCALE) by {
        let n = spec_pow(SCALE as int, a);
        assert(n == SCALE);
        assert(spec_pow(0, a) == 0);
        let d = spec_add(n, 0);
        assert(d == SCALE);
        assert(spec_div(SCALE as int, SCALE as int) == SCALE) by {
            lemma_div_exact_scale();
        }
    }
}

/// `0^a == 0` for a positive exponent.
proof fn lemma_pow_zero_base(a: nat)
    requires
        a >= 1,
    ensures
        spec_pow(0, a) == 0,
    decreases a,
{
    if a > 1 {
        lemma_pow_zero_base((a - 1) as nat);
    }
    assert(spec_mul(0, spec_pow(0, (a - 1) as nat)) == 0) by {
        vstd::arithmetic::div_mod::lemma_div_of0(SCALE as int);
    }
}

/// `1^a == 1` in fixed point: multiplying by `SCALE` and dividing back is
/// exact at every step.
proof fn lemma_pow_one(a: nat)
    ensures
        spec_pow(SCALE as int, a) == SCALE,
    decreases a,
{
    if a > 0 {
        lemma_pow_one((a - 1) as nat);
        lemma_mul_by_one(SCALE as int);
    }
}

/// `v * 1 == v` exactly: the product `v * SCALE` is divisible by `SCALE`.
proof fn lemma_mul_by_one(v: int)
    requires
        i64::MIN <= v <= i64::MAX,
    ensures
        spec_mul(v, SCALE as int) == v,
{
    if v >= 0 {
        lemma_div_multiples_vanish_comm(v);
    } else {
        lemma_div_multiples_vanish_comm(-v);
        assert(abs_int(v * (SCALE as int)) == (-v) * (SCALE as int)) by (nonlinear_arith)
            requires
                v < 0,
        ;
    }
}

/// `(v * SCALE) / SCALE == v` for nonnegative `v`.
proof fn lemma_div_multiples_vanish_comm(v: int)
    requires
        v >= 0,
    ensures
        (v * (SCALE as int)) / (SCALE as int) == v,
{
    vstd::arithmetic::div_mod::lemma_div_multiples_vanish(v, SCALE as int);
    assert(v * (SCALE as int) == (SCALE as int) * v) by (nonlinear_arith);
}

/// `SCALE / SCALE == 1` under the fixed-point division.
proof fn lemma_div_exact_scale()
    ensures
        spec_div(SCALE as int, SCALE as int) == SCALE,
{
    lemma_div_multiples_vanish_comm(SCALE as int);
}

/// Mirrored band symmetry: below the threshold the mirrored curve is
/// exactly one minus the plain curve at the mirror point `t - v` — an
/// algebraic identity of the fixed-point operations, not an approximation.
pub proof fn lemma_mirror_symmetry(v: int, t: int, a: nat, b: int)
    requires
        0 <= v < t,
        t <= SCALE,
    ensures
        spec_evaluate_mirrored(v, t, a, b) == spec_sub(
            SCALE as int,
            spec_evaluate(t - v, a, b),
        ),
{
    assert(spec_sub(SCALE as int, spec_add(v, spec_sub(SCALE as int, t))) == t - v);
}

/// The curve stays within `[0, 1]` on `[0, 1]`: the mask is a weight.
pub proof fn lemma_evaluate_range(v: int, a: nat, b: int)
    requires
        0 <= v <= SCALE,
        a >= 1,
        1 <= b <= i64::MAX,
    ensures
        0 <= spec_evaluate(v, a, b) <= SCALE,
{
    let n = spec_pow(v, a);
    lemma_pow_nonneg(v, a);
    lemma_spec_mul_le(b, v);
    let inner = spec_sub(b, spec_mul(b, v));
    assert(inner == b - spec_mul(b, v));
    assert(inner >= 0);
    lemma_pow_nonneg(inner, a);
    let pw = spec_pow(inner, a);
    let d = spec_add(n, pw);
    lemma_pow_in_range(v, a);
    assert(d >= n);
    if d != 0 {
        lemma_spec_div_unit(n, d);
    }
}

/// For a positive exponent the power is a saturated value, hence within
/// the `i64` range.
proof fn lemma_pow_in_range(v: int, a: nat)
    requires
        a >= 1,
    ensures
        i64::MIN <= spec_pow(v, a) <= i64::MAX,
{
    assert(spec_pow(v, a) == spec_mul(v, spec_pow(v, (a - 1) as nat)));
}

} // verus!
