//! The generation pipeline: permutation table through encoded payload.
//!
//! A generation request validates its parameters once, up front, and fails
//! fast with `InvalidParameter` before any grid work; a raster-encoder
//! failure surfaces as `ImageEncodingFailed`. Each call shuffles a fresh
//! permutation table, so two calls with identical numeric parameters
//! legitimately differ; everything downstream of the table is a proven
//! function of the table and the parameters.

use vstd::prelude::*;

use crate::encode::{
    spec_base64_of, spec_pixel_bytes, spec_png_of, GenerationError, ImageEncoder, ImagePayload,
    PAYLOAD_BYTE_CAP,
};
use crate::falloff::{spec_falloff_at, FallOffMap, FalloffShape};
use crate::field::{
    lemma_row_major_split, seq_max, seq_min, spec_composite_field, spec_raw_field, Compositor,
    FractalAccumulator, Normalizer,
};
use crate::fixed::{spec_clamp01, spec_inverse_lerp, spec_sub, SCALE};
use crate::noise::{wf_table, PerlinNoise};

verus! {

/// Exponent of the falloff curve shared by both historical presets' gentler
/// variant.
pub const DEFAULT_FALLOFF_A: u32 = 3;

/// `B = 1.5`, the gentler preset's divisor shape.
pub const DEFAULT_FALLOFF_B: i64 = 1_500_000;

/// The vertical band constant used on narrow layouts (`0.125`).
pub const BAND_CONSTANT: i64 = 125_000;

/// Dimensions and scale a request must satisfy: positive width and height,
/// strictly positive scale (a zero scale would divide by zero), positive
/// curve shape parameters.
pub open spec fn spec_valid_params(
    width: int,
    height: int,
    scale: int,
    a: int,
    b: int,
) -> bool {
    width >= 1 && height >= 1 && scale >= 1 && a >= 1 && b >= 1
}

/// The payload text a fixed table and fixed parameters produce: the
/// composited grid, classified, packed, PNG-encoded, base64-encoded.
pub open spec fn spec_payload_of(
    t: Seq<u8>,
    width: int,
    height: int,
    scale: int,
    octaves: nat,
    persistence: int,
    lacunarity: int,
    shape: FalloffShape,
    a: nat,
    b: int,
) -> Seq<char> {
    spec_base64_of(
        spec_png_of(
            width,
            height,
            spec_pixel_bytes(
                spec_composite_field(
                    t,
                    width,
                    height,
                    scale,
                    octaves,
                    persistence,
                    lacunarity,
                    shape,
                    a,
                    b,
                ),
            ),
        ),
    )
}

/// The PNG byte count a fixed table and fixed parameters produce; a
/// payload request fails only when this exceeds [`PAYLOAD_BYTE_CAP`].
pub open spec fn spec_png_len(
    t: Seq<u8>,
    width: int,
    height: int,
    scale: int,
    octaves: nat,
    persistence: int,
    lacunarity: int,
    shape: FalloffShape,
    a: nat,
    b: int,
) -> int {
    spec_png_of(
        width,
        height,
        spec_pixel_bytes(
            spec_composite_field(
                t,
                width,
                height,
                scale,
                octaves,
                persistence,
                lacunarity,
                shape,
                a,
                b,
            ),
        ),
    ).len() as int
}

/// The composited grid for a given table: accumulate, normalize, mask,
/// clamp. Every step is verified against the spec-level field.
pub fn composite_grid(
    noise: &PerlinNoise,
    width: u32,
    height: u32,
    scale: i64,
    octaves: u32,
    persistance: i64,
    lacunarity: i64,
    shape: FalloffShape,
    a: u32,
    b: i64,
) -> (r: Vec<i64>)
    requires
        noise.wf(),
        width >= 1,
        height >= 1,
        scale >= 1,
        a >= 1,
        b >= 1,
        width as int * height as int <= usize::MAX,
    ensures
        r@ == spec_composite_field(
            noise@,
            width as int,
            height as int,
            scale as int,
            octaves as nat,
            persistance as int,
            lacunarity as int,
            shape,
            a as nat,
            b as int,
        ),
        r@.len() == width as int * height as int,
        forall|i: int| 0 <= i < r@.len() ==> 0 <= #[trigger] r@[i] <= crate::fixed::SCALE,
{
    let field = FractalAccumulator::accumulate(
        noise,
        width,
        height,
        scale,
        octaves,
        persistance,
        lacunarity,
    );
    let normalized = Normalizer::normalize(&field);
    let mask = FallOffMap::new(width, height, shape, a, b);
    let comp = Compositor::composite(&normalized, &mask.map);
    proof {
        let w = width as int;
        let h = height as int;
        let raw = spec_raw_field(
            noise@,
            w,
            h,
            scale as int,
            octaves as nat,
            persistance as int,
            lacunarity as int,
        );
        let target = spec_composite_field(
            noise@,
            w,
            h,
            scale as int,
            octaves as nat,
            persistance as int,
            lacunarity as int,
            shape,
            a as nat,
            b as int,
        );
        assert(field.data@ == raw);
        assert forall|i: int| 0 <= i < comp@.len() implies comp@[i] == target[i] by {
            lemma_row_major_split(i, w, h);
            let xi = i % w;
            let yi = i / w;
            assert(mask.map@[yi * w + xi] == spec_falloff_at(
                xi,
                yi,
                w,
                h,
                shape,
                a as nat,
                b as int,
            ));
            assert(comp@[i] as int == spec_clamp01(
                spec_sub(normalized@[i] as int, mask.map@[i] as int),
            ));
            assert(normalized@[i] as int == spec_inverse_lerp(
                raw[i] as int,
                seq_min(raw),
                seq_max(raw),
            ));
        }
        assert(comp@ =~= target);
    }
    comp
}

/// The full noise pipeline behind a single entry point.
pub struct Noise;

impl Noise {
    /// Generate a payload with an explicit falloff shape and curve
    /// parameters, over a caller-supplied table. Deterministic: the result
    /// is a function of the table and the arguments.
    pub fn generate_with(
        noise: &PerlinNoise,
        width: u32,
        height: u32,
        scale: i64,
        octaves: u32,
        persistance: i64,
        lacunarity: i64,
        shape: FalloffShape,
        a: u32,
        b: i64,
    ) -> (r: Result<ImagePayload, GenerationError>)
        requires
            noise.wf(),
            width as int * height as int * 3 <= usize::MAX,
        ensures
            !spec_valid_params(width as int, height as int, scale as int, a as int, b as int)
                <==> r == Err::<ImagePayload, GenerationError>(GenerationError::InvalidParameter),
            r matches Err(e) ==> (e == GenerationError::InvalidParameter || (e
                == GenerationError::ImageEncodingFailed && spec_png_len(
                noise@,
                width as int,
                height as int,
                scale as int,
                octaves as nat,
                persistance as int,
                lacunarity as int,
                shape,
                a as nat,
                b as int,
            ) > PAYLOAD_BYTE_CAP)),
            spec_valid_params(width as int, height as int, scale as int, a as int, b as int)
                && spec_png_len(
                noise@,
                width as int,
                height as int,
                scale as int,
                octaves as nat,
                persistance as int,
                lacunarity as int,
                shape,
                a as nat,
                b as int,
            ) <= PAYLOAD_BYTE_CAP ==> r is Ok,
            r matches Ok(p) ==> {
                &&& p.width == width
                &&& p.height == height
                &&& p.data@ == spec_payload_of(
                    noise@,
                    width as int,
                    height as int,
                    scale as int,
                    octaves as nat,
                    persistance as int,
                    lacunarity as int,
                    shape,
                    a as nat,
                    b as int,
                )
            },
    {
        if width < 1 || height < 1 || scale < 1 || a < 1 || b < 1 {
            return Err(GenerationError::InvalidParameter);
        }
        let comp = composite_grid(
            noise,
            width,
            height,
            scale,
            octaves,
            persistance,
            lacunarity,
            shape,
            a,
            b,
        );
        match ImageEncoder::encode(width, height, &comp) {
            Ok(p) => Ok(p),
            Err(_) => Err(GenerationError::ImageEncodingFailed),
        }
    }

    /// The single conceptual entry point with the historical defaults: a
    /// radial falloff with the gentler preset. Parameters are validated
    /// here, once, before any grid work; a fresh permutation is shuffled
    /// for every call, so repeated calls legitimately differ.
    pub fn generate(
        width: u32,
        height: u32,
        scale: i64,
        octaves: u32,
        persistance: i64,
        lacunarity: i64,
    ) -> (r: Result<ImagePayload, GenerationError>)
        requires
            width as int * height as int * 3 <= usize::MAX,
        ensures
            !spec_valid_params(width as int, height as int, scale as int, 3, 1_500_000) <==> r
                == Err::<ImagePayload, GenerationError>(GenerationError::InvalidParameter),
            r == Err::<ImagePayload, GenerationError>(GenerationError::ImageEncodingFailed)
                ==> exists|t: Seq<u8>|
                #![auto]
                wf_table(t) && spec_png_len(
                    t,
                    width as int,
                    height as int,
                    scale as int,
                    octaves as nat,
                    persistance as int,
                    lacunarity as int,
                    FalloffShape::Radial,
                    3,
                    1_500_000,
                ) > PAYLOAD_BYTE_CAP,
            r matches Err(e) ==> (e == GenerationError::InvalidParameter || e
                == GenerationError::ImageEncodingFailed),
            spec_valid_params(width as int, height as int, scale as int, 3, 1_500_000) && (
            forall|t: Seq<u8>|
                #![auto]
                wf_table(t) ==> spec_png_len(
                    t,
                    width as int,
                    height as int,
                    scale as int,
                    octaves as nat,
                    persistance as int,
                    lacunarity as int,
                    FalloffShape::Radial,
                    3,
                    1_500_000,
                ) <= PAYLOAD_BYTE_CAP) ==> r is Ok,
            r matches Ok(p) ==> {
                &&& p.width == width
                &&& p.height == height
                &&& exists|t: Seq<u8>|
                    #![auto]
                    wf_table(t) && p.data@ == spec_payload_of(
                        t,
                        width as int,
                        height as int,
                        scale as int,
                        octaves as nat,
                        persistance as int,
                        lacunarity as int,
                        FalloffShape::Radial,
                        3,
                        1_500_000,
                    )
            },
    {
        let noise = PerlinNoise::new();
        let r = Noise::generate_with(
            &noise,
            width,
            height,
            scale,
            octaves,
            persistance,
            lacunarity,
            FalloffShape::Radial,
            DEFAULT_FALLOFF_A,
            DEFAULT_FALLOFF_B,
        );
        proof {
            assert(wf_table(noise@));
            assert(r matches Ok(p) ==> wf_table(noise@) && p.data@ == spec_payload_of(
                    noise@,
                    width as int,
                    height as int,
                    scale as int,
                    octaves as nat,
                    persistance as int,
                    lacunarity as int,
                    FalloffShape::Radial,
                    3,
                    1_500_000,
                ));
            assert(r == Err::<ImagePayload, GenerationError>(GenerationError::ImageEncodingFailed)
                ==> spec_png_len(
                    noise@,
                    width as int,
                    height as int,
                    scale as int,
                    octaves as nat,
                    persistance as int,
                    lacunarity as int,
                    FalloffShape::Radial,
                    3,
                    1_500_000,
                ) > PAYLOAD_BYTE_CAP);
        }
        r
    }
}

} // verus!
