//! Multi-octave fractal accumulation, normalization, and compositing.
//!
//! For each grid cell the accumulator sums `octaves` rounds of gradient
//! noise — sampling at `(x / scale * frequency, y / scale * frequency)`,
//! weighting by the current amplitude, then decaying the amplitude by the
//! persistence and growing the frequency by the lacunarity — and tracks the
//! global minimum and maximum height in the same single pass. The
//! normalizer inverse-lerps raw heights into `[0, 1]` (exactly `0`
//! everywhere when the range is degenerate), and the compositor subtracts
//! the falloff weight and clamps.

use vstd::prelude::*;

use crate::falloff::{spec_falloff_at, FalloffShape};
use crate::fixed::{
    fp_add, fp_div, fp_mul, lemma_grid_index_bound, spec_add, spec_clamp01, spec_div,
    spec_inverse_lerp, spec_mul, spec_sub, Utility, SCALE,
};
use crate::noise::{spec_noise, PerlinNoise};

verus! {

/// Running minimum of a sequence, folded in push order; `i64::MAX` for the
/// empty sequence (the fold's seed, as the accumulator starts).
pub open spec fn seq_min(s: Seq<i64>) -> int
    decreases s.len(),
{
    if s.len() == 0 {
        i64::MAX as int
    } else {
        let m = seq_min(s.drop_last());
        if s.last() < m {
            s.last() as int
        } else {
            m
        }
    }
}

/// Running maximum of a sequence, folded in push order; `i64::MIN` for the
/// empty sequence.
pub open spec fn seq_max(s: Seq<i64>) -> int
    decreases s.len(),
{
    if s.len() == 0 {
        i64::MIN as int
    } else {
        let m = seq_max(s.drop_last());
        if s.last() > m {
            s.last() as int
        } else {
            m
        }
    }
}

/// The minimum and maximum bound every element and are attained.
pub proof fn lemma_seq_min_max_props(s: Seq<i64>)
    ensures
        forall|i: int| 0 <= i < s.len() ==> seq_min(s) <= #[trigger] s[i] <= seq_max(s),
        s.len() > 0 ==> exists|i: int| 0 <= i < s.len() && s[i] == seq_min(s),
        s.len() > 0 ==> exists|i: int| 0 <= i < s.len() && s[i] == seq_max(s),
    decreases s.len(),
{
    if s.len() > 0 {
        let prefix = s.drop_last();
        lemma_seq_min_max_props(prefix);
        assert forall|i: int| 0 <= i < s.len() implies seq_min(s) <= #[trigger] s[i] <= seq_max(
            s,
        ) by {
            if i < prefix.len() {
                assert(s[i] == prefix[i]);
            } else {
                assert(s[i] == s.last());
            }
        }
        if prefix.len() > 0 {
            let ghost i0 = choose|i: int| 0 <= i < prefix.len() && prefix[i] == seq_min(prefix);
            let ghost i1 = choose|i: int| 0 <= i < prefix.len() && prefix[i] == seq_max(prefix);
            assert(s[i0] == seq_min(prefix));
            assert(s[i1] == seq_max(prefix));
        }
        assert(s[s.len() - 1] == s.last());
    }
}

/// One octave round: the sample coordinate of grid position `p` at the
/// current frequency, `p / scale * frequency` in fixed point.
pub open spec fn spec_sample_coord(p: int, scale: int, frequency: int) -> int {
    spec_mul(spec_div(p * SCALE, scale), frequency)
}

/// Tail-recursive octave accumulation, mirroring the evaluation order of
/// the summation loop: `k` rounds left, accumulated height `acc`, current
/// `amplitude` and `frequency`.
pub open spec fn spec_accum(
    t: Seq<u8>,
    x: int,
    y: int,
    scale: int,
    k: nat,
    acc: int,
    amplitude: int,
    frequency: int,
    persistence: int,
    lacunarity: int,
) -> int
    decreases k,
{
    if k == 0 {
        acc
    } else {
        let sx = spec_sample_coord(x, scale, frequency);
        let sy = spec_sample_coord(y, scale, frequency);
        let sample = spec_noise(t, sx, sy);
        spec_accum(
            t,
            x,
            y,
            scale,
            (k - 1) as nat,
            spec_add(acc, spec_mul(sample, amplitude)),
            spec_mul(amplitude, persistence),
            spec_mul(frequency, lacunarity),
            persistence,
            lacunarity,
        )
    }
}

/// The raw height of grid cell `(x, y)`: `octaves` rounds starting from
/// height `0`, amplitude `1`, frequency `1`.
pub open spec fn spec_octave_sum(
    t: Seq<u8>,
    x: int,
    y: int,
    scale: int,
    octaves: nat,
    persistence: int,
    lacunarity: int,
) -> int {
    spec_accum(t, x, y, scale, octaves, 0, SCALE as int, SCALE as int, persistence, lacunarity)
}

/// The whole raw height grid, row-major.
pub open spec fn spec_raw_field(
    t: Seq<u8>,
    width: int,
    height: int,
    scale: int,
    octaves: nat,
    persistence: int,
    lacunarity: int,
) -> Seq<i64> {
    Seq::new(
        (width * height) as nat,
        |i: int| spec_octave_sum(t, i % width, i / width, scale, octaves, persistence, lacunarity)
            as i64,
    )
}

/// The composited grid: each raw height normalized by the grid's own
/// min/max, lowered by the pixel's falloff weight, clamped into `[0, 1]`.
pub open spec fn spec_composite_field(
    t: Seq<u8>,
    width: int,
    height: int,
    scale: int,
    octaves: nat,
    persistence: int,
    lacunarity: int,
    shape: FalloffShape,
    a: nat,
    b: int,
) -> Seq<i64> {
    let field = spec_raw_field(t, width, height, scale, octaves, persistence, lacunarity);
    let mn = seq_min(field);
    let mx = seq_max(field);
    Seq::new(
        (width * height) as nat,
        |i: int| spec_clamp01(
            spec_sub(
                spec_inverse_lerp(field[i] as int, mn, mx),
                spec_falloff_at(i % width, i / width, width, height, shape, a, b) ,
            ),
        ) as i64,
    )
}

/// A raw height grid with its tracked extrema; transient, consumed by the
/// normalizer.
pub struct NoiseField {
    pub width: u32,
    pub height: u32,
    pub data: Vec<i64>,
    pub min: i64,
    pub max: i64,
}

impl NoiseField {
    /// The data covers the grid and the extrema are the fold of the data.
    pub open spec fn wf(self) -> bool {
        &&& self.data@.len() == self.width as int * self.height as int
        &&& self.min as int == seq_min(self.data@)
        &&& self.max as int == seq_max(self.data@)
    }
}

/// Multi-octave summation across a grid, tracking global extrema.
pub struct FractalAccumulator;

impl FractalAccumulator {
    /// The raw height of one grid cell.
    pub fn cell_height(
        noise: &PerlinNoise,
        x: u32,
        y: u32,
        scale: i64,
        octaves: u32,
        persistence: i64,
        lacunarity: i64,
    ) -> (r: i64)
        requires
            noise.wf(),
            scale != 0,
        ensures
            r as int == spec_octave_sum(
                noise@,
                x as int,
                y as int,
                scale as int,
                octaves as nat,
                persistence as int,
                lacunarity as int,
            ),
    {
        let bx = fp_div(x as i64 * SCALE, scale);
        let by = fp_div(y as i64 * SCALE, scale);
        let mut acc: i64 = 0;
        let mut amplitude: i64 = SCALE;
        let mut frequency: i64 = SCALE;
        let mut k: u32 = 0;
        while k < octaves
            invariant
                noise.wf(),
                scale != 0,
                k <= octaves,
                bx as int == spec_div(x as int * SCALE, scale as int),
                by as int == spec_div(y as int * SCALE, scale as int),
                spec_accum(
                    noise@,
                    x as int,
                    y as int,
                    scale as int,
                    (octaves - k) as nat,
                    acc as int,
                    amplitude as int,
                    frequency as int,
                    persistence as int,
                    lacunarity as int,
                ) == spec_octave_sum(
                    noise@,
                    x as int,
                    y as int,
                    scale as int,
                    octaves as nat,
                    persistence as int,
                    lacunarity as int,
                ),
            decreases octaves - k,
        {
            let sx = fp_mul(bx, frequency);
            let sy = fp_mul(by, frequency);
            proof {
                lemma_sample_coord_split(
                    x as int,
                    scale as int,
                    frequency as int,
                    sx as int,
                );
                lemma_sample_coord_split(
                    y as int,
                    scale as int,
                    frequency as int,
                    sy as int,
                );
            }
            let sample = noise.noise(sx, sy);
            acc = fp_add(acc, fp_mul(sample, amplitude));
            amplitude = fp_mul(amplitude, persistence);
            frequency = fp_mul(frequency, lacunarity);
            k = k + 1;
        }
        acc
    }

    /// Sum `octaves` rounds of noise for every grid cell, in one traversal
    /// that also folds the global minimum and maximum.
    pub fn accumulate(
        noise: &PerlinNoise,
        width: u32,
        height: u32,
        scale: i64,
        octaves: u32,
        persistence: i64,
        lacunarity: i64,
    ) -> (r: NoiseField)
        requires
            noise.wf(),
            scale > 0,
            width >= 1,
            height >= 1,
            width as int * height as int <= usize::MAX,
        ensures
            r.wf(),
            r.width == width,
            r.height == height,
            r.data@ == spec_raw_field(
                noise@,
                width as int,
                height as int,
                scale as int,
                octaves as nat,
                persistence as int,
                lacunarity as int,
            ),
    {
        let ghost t = noise@;
        let mut data: Vec<i64> = Vec::new();
        let mut min: i64 = i64::MAX;
        let mut max: i64 = i64::MIN;
        let mut y: u32 = 0;
        while y < height
            invariant
                noise.wf(),
                noise@ == t,
                scale > 0,
                y <= height,
                width >= 1,
                height >= 1,
                width as int * height as int <= usize::MAX,
                data@.len() == y as int * width as int,
                min as int == seq_min(data@),
                max as int == seq_max(data@),
                forall|xi: int, yi: int|
                    0 <= xi < width && 0 <= yi < y
                        ==> #[trigger] data@[yi * width as int + xi] as int == spec_octave_sum(
                        t,
                        xi,
                        yi,
                        scale as int,
                        octaves as nat,
                        persistence as int,
                        lacunarity as int,
                    ),
            decreases height - y,
        {
            proof {
                assert((y as int + 1) * width as int <= width as int * height as int)
                    by (nonlinear_arith)
                    requires
                        0 <= (y as int) < (height as int),
                        width as int >= 0,
                ;
            }
            let mut x: u32 = 0;
            while x < width
                invariant
                    noise.wf(),
                    noise@ == t,
                    scale > 0,
                    x <= width,
                    y < height,
                    width >= 1,
                    height >= 1,
                    width as int * height as int <= usize::MAX,
                    (y as int + 1) * width as int <= width as int * height as int,
                    data@.len() == y as int * width as int + x as int,
                    min as int == seq_min(data@),
                    max as int == seq_max(data@),
                    forall|xi: int, yi: int|
                        0 <= xi < width && 0 <= yi < y
                            ==> #[trigger] data@[yi * width as int + xi] as int == spec_octave_sum(
                            t,
                            xi,
                            yi,
                            scale as int,
                            octaves as nat,
                            persistence as int,
                            lacunarity as int,
                        ),
                    forall|xi: int|
                        0 <= xi < x ==> #[trigger] data@[y as int * width as int + xi] as int
                            == spec_octave_sum(
                            t,
                            xi,
                            y as int,
                            scale as int,
                            octaves as nat,
                            persistence as int,
                            lacunarity as int,
                        ),
                decreases width - x,
            {
                let h = FractalAccumulator::cell_height(
                    noise,
                    x,
                    y,
                    scale,
                    octaves,
                    persistence,
                    lacunarity,
                );
                let ghost prev = data@;
                data.push(h);
                min = if h < min {
                    h
                } else {
                    min
                };
                max = if h > max {
                    h
                } else {
                    max
                };
                proof {
                    assert(data@.drop_last() =~= prev);
                    assert(y as int * width as int + x as int + 1 <= (y as int + 1)
                        * width as int) by (nonlinear_arith)
                        requires
                            (x as int) < (width as int),
                    ;
                    assert forall|xi: int, yi: int|
                        0 <= xi < width && 0 <= yi < y implies 0 <= #[trigger] (yi * width as int
                        + xi) < y as int * width as int by {
                        lemma_grid_index_bound(xi, yi, width as int, y as int);
                    }
                }
                x = x + 1;
            }
            proof {
                assert((y as int + 1) * width as int == y as int * width as int + width as int)
                    by (nonlinear_arith);
            }
            y = y + 1;
        }
        proof {
            assert(height as int * width as int == width as int * height as int)
                by (nonlinear_arith);
        }
        let r = NoiseField { width, height, data, min, max };
        proof {
            lemma_field_matches_raw(
                r.data@,
                t,
                width as int,
                height as int,
                scale as int,
                octaves as nat,
                persistence as int,
                lacunarity as int,
            );
        }
        r
    }
}

/// A grid whose rows all hold the octave sums equals the raw-field sequence.
proof fn lemma_field_matches_raw(
    data: Seq<i64>,
    t: Seq<u8>,
    width: int,
    height: int,
    scale: int,
    octaves: nat,
    persistence: int,
    lacunarity: int,
)
    requires
        width >= 1,
        height >= 1,
        data.len() == width * height,
        forall|xi: int, yi: int|
            0 <= xi < width && 0 <= yi < height
                ==> #[trigger] data[yi * width + xi] as int == spec_octave_sum(
                t,
                xi,
                yi,
                scale,
                octaves,
                persistence,
                lacunarity,
            ),
    ensures
        data == spec_raw_field(t, width, height, scale, octaves, persistence, lacunarity),
{
    let raw = spec_raw_field(t, width, height, scale, octaves, persistence, lacunarity);
    assert forall|i: int| 0 <= i < data.len() implies data[i] == raw[i] by {
        lemma_row_major_split(i, width, height);
        assert(data[(i / width) * width + (i % width)] as int == spec_octave_sum(
            t,
            i % width,
            i / width,
            scale,
            octaves,
            persistence,
            lacunarity,
        ));
    }
    assert(data =~= raw);
}

/// Splitting a row-major index: `i == (i / w) * w + i % w` with the
/// quotient a valid row and the remainder a valid column.
pub proof fn lemma_row_major_split(i: int, width: int, height: int)
    requires
        width >= 1,
        height >= 1,
        0 <= i < width * height,
    ensures
        0 <= i % width < width,
        0 <= i / width < height,
        i == (i / width) * width + (i % width),
{
    vstd::arithmetic::div_mod::lemma_fundamental_div_mod(i, width);
    vstd::arithmetic::div_mod::lemma_mod_division_less_than_divisor(i, width);
    vstd::arithmetic::div_mod::lemma_div_pos_is_pos(i, width);
    assert(width * (i / width) == (i / width) * width) by (nonlinear_arith);
    assert(i / width < height) by {
        if i / width >= height {
            assert((i / width) * width >= height * width) by (nonlinear_arith)
                requires
                    i / width >= height,
                    width >= 1,
            ;
            assert(height * width == width * height) by (nonlinear_arith);
        }
    }
}

/// The sample coordinate built stepwise equals the spec's composition.
proof fn lemma_sample_coord_split(p: int, scale: int, frequency: int, sx: int)
    requires
        sx == spec_mul(spec_div(p * (SCALE as int), scale), frequency),
    ensures
        sx == spec_sample_coord(p, scale, frequency),
{
}

/// Inverse-lerp of raw heights into `[0, 1]` using the tracked extrema.
pub struct Normalizer;

impl Normalizer {
    /// Normalize every cell. On a degenerate range (`min == max`, as with
    /// an octave count of zero) every cell maps to exactly `0` — there is
    /// no division by zero and no panic.
    pub fn normalize(field: &NoiseField) -> (r: Vec<i64>)
        ensures
            r@.len() == field.data@.len(),
            forall|i: int|
                0 <= i < r@.len() ==> #[trigger] r@[i] as int == spec_inverse_lerp(
                    field.data@[i] as int,
                    field.min as int,
                    field.max as int,
                ),
            forall|i: int| 0 <= i < r@.len() ==> 0 <= #[trigger] r@[i] <= SCALE,
    {
        let mut r: Vec<i64> = Vec::new();
        let n = field.data.len();
        let mut i: usize = 0;
        while i < n
            invariant
                n == field.data@.len(),
                i <= n,
                r@.len() == i,
                forall|j: int|
                    0 <= j < i ==> #[trigger] r@[j] as int == spec_inverse_lerp(
                        field.data@[j] as int,
                        field.min as int,
                        field.max as int,
                    ),
                forall|j: int| 0 <= j < i ==> 0 <= #[trigger] r@[j] <= SCALE,
            decreases n - i,
        {
            let v = Utility::inverse_lerp(field.data[i], field.min, field.max);
            r.push(v);
            i = i + 1;
        }
        r
    }
}

/// Degenerate normalization: when every raw height in a non-empty field is
/// equal, the tracked extrema coincide and normalization yields exactly `0`
/// for every cell.
pub proof fn lemma_degenerate_normalization(f: NoiseField)
    requires
        f.wf(),
        f.data@.len() > 0,
        forall|i: int| 0 <= i < f.data@.len() ==> #[trigger] f.data@[i] == f.data@[0],
    ensures
        f.min == f.max,
        forall|i: int|
            0 <= i < f.data@.len() ==> spec_inverse_lerp(
                #[trigger] f.data@[i] as int,
                f.min as int,
                f.max as int,
            ) == 0,
{
    lemma_seq_min_max_props(f.data@);
    let i0 = choose|i: int| 0 <= i < f.data@.len() && f.data@[i] == seq_min(f.data@);
    let i1 = choose|i: int| 0 <= i < f.data@.len() && f.data@[i] == seq_max(f.data@);
    assert(f.data@[i0] == f.data@[0]);
    assert(f.data@[i1] == f.data@[0]);
}

/// Combine normalized heights with falloff weights.
pub struct Compositor;

impl Compositor {
    /// Per cell: `clamp01(normalized - falloff)`. Subtracting the weight
    /// pushes near-edge cells toward the low end of the palette.
    pub fn composite(normalized: &Vec<i64>, falloff: &Vec<i64>) -> (r: Vec<i64>)
        requires
            normalized@.len() == falloff@.len(),
        ensures
            r@.len() == normalized@.len(),
            forall|i: int|
                0 <= i < r@.len() ==> #[trigger] r@[i] as int == spec_clamp01(
                    spec_sub(normalized@[i] as int, falloff@[i] as int),
                ),
            forall|i: int| 0 <= i < r@.len() ==> 0 <= #[trigger] r@[i] <= SCALE,
    {
        let mut r: Vec<i64> = Vec::new();
        let n = normalized.len();
        let mut i: usize = 0;
        while i < n
            invariant
                n == normalized@.len(),
                normalized@.len() == falloff@.len(),
                i <= n,
                r@.len() == i,
                forall|j: int|
                    0 <= j < i ==> #[trigger] r@[j] as int == spec_clamp01(
                        spec_sub(normalized@[j] as int, falloff@[j] as int),
                    ),
                forall|j: int| 0 <= j < i ==> 0 <= #[trigger] r@[j] <= SCALE,
            decreases n - i,
        {
            let v = Utility::clamp01(crate::fixed::fp_sub(normalized[i], falloff[i]));
            r.push(v);
            i = i + 1;
        }
        r
    }
}

} // verus!
