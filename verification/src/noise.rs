//! Permutation-driven 2D gradient (Perlin) noise.
//!
//! A [`PerlinNoise`] owns a 512-entry lattice table: positions `0..256` hold
//! a shuffled permutation of `0..=255`, positions `256..512` duplicate the
//! first half, so every lookup `table[i + 1]` for `i` in `0..256` stays in
//! bounds without modulo wrapping. Sampling splits each fixed-point
//! coordinate into a lattice cell and a fractional offset, picks one of four
//! fixed gradient directions per surrounding corner through a double table
//! lookup, and bilinearly interpolates the four corner dot products with the
//! smoothstep fade curve `6t^5 - 15t^4 + 10t^3`, blending along y within
//! each column first, then across x (see [`spec_noise`]).

use vstd::arithmetic::div_mod::{
    lemma_fundamental_div_mod, lemma_fundamental_div_mod_converse_div,
    lemma_fundamental_div_mod_converse_mod, lemma_mod_division_less_than_divisor,
};
use vstd::prelude::*;

use rand::seq::SliceRandom;

use crate::fixed::{
    fp_add, fp_mul, fp_sub, sat64, spec_add, spec_lerp, spec_mul, spec_sub, Utility, SCALE,
};

verus! {

/// The identity table `0, 1, ..., 255`, the starting point of the shuffle.
pub open spec fn spec_identity_table() -> Seq<u8> {
    Seq::new(256, |i: int| i as u8)
}

/// Lattice cell of a fixed-point coordinate: the floor, masked to `0..256`.
pub open spec fn spec_cell(x: int) -> int {
    (x / (SCALE as int)) % 256
}

/// Fractional offset of a fixed-point coordinate within its cell, in
/// `[0, 1)` (that is, `[0, SCALE)` in fixed-point units).
pub open spec fn spec_frac(x: int) -> int {
    x % (SCALE as int)
}

/// Dot product of the gradient direction selected by the low two bits of a
/// table value with a corner-relative offset vector. The four directions
/// are `(1,1)`, `(-1,1)`, `(-1,-1)`, `(1,-1)`.
pub open spec fn spec_dot(h: int, px: int, py: int) -> int {
    let m = h % 4;
    if m == 0 {
        sat64(px + py)
    } else if m == 1 {
        sat64(-px + py)
    } else if m == 2 {
        sat64(-px - py)
    } else {
        sat64(px - py)
    }
}

/// The smoothstep fade curve `6t^5 - 15t^4 + 10t^3`, evaluated as
/// `((6t - 15) * t + 10) * t * t * t` over the saturating operations.
pub open spec fn spec_fade(t: int) -> int {
    let a = spec_sub(spec_mul(6 * SCALE, t), 15 * SCALE);
    let b = spec_add(spec_mul(a, t), 10 * SCALE);
    spec_mul(spec_mul(spec_mul(b, t), t), t)
}

/// One gradient selector: the double lookup `t[t[cx + dx] + cy + dy]`.
pub open spec fn spec_grad(t: Seq<u8>, cx: int, cy: int, dx: int, dy: int) -> int {
    t[t[cx + dx] as int + cy + dy] as int
}

/// A single gradient-noise sample at fixed-point coordinates `(x, y)`:
/// the four corner dot products, bilinearly interpolated with the faded
/// offsets — the inner interpolations blend along y within each column
/// (left pair `d3`/`d1`, right pair `d2`/`d0`), the outer one blends the
/// two columns across x. In exact arithmetic this equals the transposed
/// (x-first) reading of the same bilinear blend; the fixed-point result
/// is pinned to this evaluation order.
pub open spec fn spec_noise(t: Seq<u8>, x: int, y: int) -> int {
    let cx = spec_cell(x);
    let cy = spec_cell(y);
    let fx = spec_frac(x);
    let fy = spec_frac(y);
    let d0 = spec_dot(spec_grad(t, cx, cy, 1, 1), fx - SCALE, fy - SCALE);
    let d1 = spec_dot(spec_grad(t, cx, cy, 0, 1), fx, fy - SCALE);
    let d2 = spec_dot(spec_grad(t, cx, cy, 1, 0), fx - SCALE, fy);
    let d3 = spec_dot(spec_grad(t, cx, cy, 0, 0), fx, fy);
    let u = spec_fade(fx);
    let v = spec_fade(fy);
    spec_lerp(u, spec_lerp(v, d3, d1), spec_lerp(v, d2, d0))
}

/// A well-formed lattice table: length 512; the first 256 positions hold
/// each of `0..=255` exactly once; the upper half duplicates the lower half.
pub open spec fn wf_table(t: Seq<u8>) -> bool {
    &&& t.len() == 512
    &&& (forall|i: int| 0 <= i < 256 ==> t[i + 256] == #[trigger] t[i])
    &&& t.subrange(0, 256).to_multiset() == spec_identity_table().to_multiset()
}

/// Gradient noise over a freshly shuffled 512-entry permutation table.
pub struct PerlinNoise {
    permutation: Vec<u8>,
}

impl View for PerlinNoise {
    type V = Seq<u8>;

    closed spec fn view(&self) -> Seq<u8> {
        self.permutation@
    }
}

impl PerlinNoise {
    /// The owned table is well-formed (see [`wf_table`]).
    pub open spec fn wf(self) -> bool {
        wf_table(self@)
    }

    /// Build a table: the identity sequence `0..=255`, uniformly shuffled,
    /// then appended to itself. Always succeeds; the shuffle order is the
    /// one source of randomness in the pipeline.
    pub fn new() -> (r: Self)
        ensures
            r.wf(),
    {
        let mut permutation: Vec<u8> = Vec::new();
        proof {
            assert(permutation@ =~= spec_identity_table().subrange(0, 0));
        }
        let mut i: usize = 0;
        while i < 256
            invariant
                i <= 256,
                permutation@ == spec_identity_table().subrange(0, i as int),
            decreases 256 - i,
        {
            permutation.push(i as u8);
            proof {
                assert(permutation@ =~= spec_identity_table().subrange(0, i + 1));
            }
            i = i + 1;
        }
        proof {
            assert(permutation@ =~= spec_identity_table());
        }

        shuffle_bytes(&mut permutation);
        let ghost shuffled = permutation@;

        let mut i: usize = 0;
        while i < 256
            invariant
                i <= 256,
                permutation@.len() == 256 + i,
                permutation@.subrange(0, 256) == shuffled,
                forall|j: int| 0 <= j < i ==> permutation@[256 + j] == #[trigger] permutation@[j],
            decreases 256 - i,
        {
            let b = permutation[i];
            let ghost prev = permutation@;
            permutation.push(b);
            proof {
                assert(permutation@.subrange(0, 256) =~= prev.subrange(0, 256));
            }
            i = i + 1;
        }

        let r = PerlinNoise { permutation };
        proof {
            assert(r@.subrange(0, 256) == shuffled);
            assert(shuffled.to_multiset() == spec_identity_table().to_multiset());
        }
        r
    }

    /// One noise sample at fixed-point coordinates `(x, y)`. A pure
    /// function of the table and the coordinates: repeated calls with the
    /// same arguments return the same value.
    pub fn noise(&self, x: i64, y: i64) -> (r: i64)
        requires
            self.wf(),
        ensures
            r as int == spec_noise(self@, x as int, y as int),
    {
        let (cx, fx) = lattice(x);
        let (cy, fy) = lattice(y);

        let v0 = self.grad(cx + 1, cy + 1);
        let v1 = self.grad(cx, cy + 1);
        let v2 = self.grad(cx + 1, cy);
        let v3 = self.grad(cx, cy);

        let d0 = dot(v0, fp_sub(fx, SCALE), fp_sub(fy, SCALE));
        let d1 = dot(v1, fx, fp_sub(fy, SCALE));
        let d2 = dot(v2, fp_sub(fx, SCALE), fy);
        let d3 = dot(v3, fx, fy);

        let u = fade(fx);
        let v = fade(fy);

        Utility::lerp(u, Utility::lerp(v, d3, d1), Utility::lerp(v, d2, d0))
    }

    /// The table entry at position `i`.
    pub fn table_at(&self, i: usize) -> (r: u8)
        requires
            i < self@.len(),
        ensures
            r == self@[i as int],
    {
        self.permutation[i]
    }

    /// The number of table entries (512 for a well-formed table).
    pub fn table_len(&self) -> (r: usize)
        ensures
            r == self@.len(),
    {
        self.permutation.len()
    }

    /// The double table lookup selecting a corner's gradient.
    fn grad(&self, ix: usize, iy: usize) -> (r: usize)
        requires
            self.wf(),
            ix < 512,
            iy <= 256,
        ensures
            r == spec_grad(self@, ix as int, iy as int, 0, 0),
            r < 256,
    {
        let inner = self.permutation[ix] as usize;
        self.permutation[inner + iy] as usize
    }
}

/// Relies on rand's `SliceRandom::shuffle` with `thread_rng`: it reorders
/// the slice in place, so the multiset of elements (and hence the length)
/// is unchanged; nothing more is promised of the randomized order.
#[verifier::external_body]
fn shuffle_bytes(v: &mut Vec<u8>)
    ensures
        final(v)@.to_multiset() == old(v)@.to_multiset(),
        final(v)@.len() == old(v)@.len(),
{
    v.shuffle(&mut rand::thread_rng());
}

/// Split a fixed-point coordinate into its lattice cell (floor masked to
/// `0..256`) and its fractional offset in `[0, SCALE)`.
pub fn lattice(x: i64) -> (r: (usize, i64))
    ensures
        r.0 == spec_cell(x as int),
        r.1 == spec_frac(x as int),
        r.0 < 256,
        0 <= r.1 < SCALE,
{
    proof {
        lemma_mod_division_less_than_divisor(x as int / (SCALE as int), 256);
        lemma_mod_division_less_than_divisor(x as int, SCALE as int);
    }
    if x >= 0 {
        let xu = x as u64;
        let q = xu / (SCALE as u64);
        let r = xu % (SCALE as u64);
        let c = (q % 256) as usize;
        (c, r as i64)
    } else {
        let s: i128 = SCALE as i128;
        let m: i128 = -(x as i128);
        let qm: i128 = (m + s - 1) / s;
        proof {
            let mi = m as int;
            let si = s as int;
            lemma_fundamental_div_mod(mi + si - 1, si);
            assert(0 <= qm * si - mi < si) by {
                assert(qm * si == mi + si - 1 - ((mi + si - 1) % si));
            }
            lemma_fundamental_div_mod_converse_div(x as int, SCALE as int, -(qm as int), qm * si - mi);
            lemma_fundamental_div_mod_converse_mod(x as int, SCALE as int, -(qm as int), qm * si - mi);
        }
        let fr: i128 = qm * s - m;
        let cr: i128 = qm % 256;
        proof {
            lemma_fundamental_div_mod(qm as int, 256);
            lemma_mod_division_less_than_divisor(qm as int, 256);
            if cr == 0 {
                lemma_fundamental_div_mod_converse_mod(-(qm as int), 256, -(qm as int / 256), 0);
            } else {
                lemma_fundamental_div_mod_converse_mod(
                    -(qm as int),
                    256,
                    -(qm as int / 256) - 1,
                    256 - cr as int,
                );
            }
        }
        let c: usize = if cr == 0 {
            0
        } else {
            (256 - cr) as usize
        };
        (c, fr as i64)
    }
}

/// Gradient dot product: map the low two bits of `value` to one of the four
/// fixed directions and dot it with the offset `(px, py)`.
pub fn dot(value: usize, px: i64, py: i64) -> (r: i64)
    ensures
        r as int == spec_dot(value as int, px as int, py as int),
{
    let m = value % 4;
    if m == 0 {
        sat_sum(px as i128 + py as i128)
    } else if m == 1 {
        sat_sum(-(px as i128) + py as i128)
    } else if m == 2 {
        sat_sum(-(px as i128) - py as i128)
    } else {
        sat_sum(px as i128 - py as i128)
    }
}

/// Saturate a two-term `i128` sum back to `i64`.
fn sat_sum(x: i128) -> (r: i64)
    ensures
        r as int == sat64(x as int),
{
    if x > i64::MAX as i128 {
        i64::MAX
    } else if x < i64::MIN as i128 {
        i64::MIN
    } else {
        x as i64
    }
}

/// The fade curve `((6t - 15) * t + 10) * t^3` in fixed point.
pub fn fade(t: i64) -> (r: i64)
    ensures
        r as int == spec_fade(t as int),
{
    let a = fp_sub(fp_mul(6 * SCALE, t), 15 * SCALE);
    let b = fp_add(fp_mul(a, t), 10 * SCALE);
    fp_mul(fp_mul(fp_mul(b, t), t), t)
}

/// Determinism of sampling: any two results that meet the sampling contract
/// for the same table and the same coordinates are equal.
pub proof fn lemma_noise_deterministic(t: Seq<u8>, x: int, y: int, r1: int, r2: int)
    requires
        r1 == spec_noise(t, x, y),
        r2 == spec_noise(t, x, y),
    ensures
        r1 == r2,
{
}

/// Table duplication law: in a well-formed table every upper-half entry
/// mirrors the entry 256 positions below it.
pub proof fn lemma_table_duplication(n: PerlinNoise)
    requires
        n.wf(),
    ensures
        forall|i: int| 0 <= i < 256 ==> n@[i + 256] == #[trigger] n@[i],
{
}

} // verus!
