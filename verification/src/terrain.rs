//! Terrain backgrounds for concrete layouts.
//!
//! A [`TerrainProperties`] bundle carries the grid dimensions, the fractal
//! parameters, and the layout flags a caller supplies; [`Terrain`] turns it
//! into a composited grid or a finished payload using the directional
//! falloff: a vertical band heuristic on narrow (mobile) layouts, the
//! radial look otherwise, both with the gentler curve preset.

use vstd::prelude::*;

use crate::encode::{GenerationError, ImagePayload};
use crate::falloff::{FalloffShape, Heuristic};
use crate::field::spec_composite_field;
use crate::noise::{wf_table, PerlinNoise};
use crate::encode::PAYLOAD_BYTE_CAP;
use crate::pipeline::{
    composite_grid, spec_payload_of, spec_png_len, spec_valid_params, Noise, BAND_CONSTANT,
    DEFAULT_FALLOFF_A, DEFAULT_FALLOFF_B,
};

verus! {

/// Parameters of one terrain background request.
pub struct TerrainProperties {
    /// Grid width in pixels.
    pub width: u32,
    /// Grid height in pixels.
    pub height: u32,
    /// Viewport width the caller will stretch the texture to.
    pub window_width: u32,
    /// Viewport height the caller will stretch the texture to.
    pub window_height: u32,
    /// Narrow layout: use the vertical band heuristic.
    pub mobile: bool,
    /// Coordinate divisor, fixed-point; must be positive.
    pub scale: i64,
    /// Number of fractal rounds.
    pub octaves: u32,
    /// Per-octave amplitude decay factor, fixed-point.
    pub persistance: i64,
    /// Per-octave frequency growth factor, fixed-point.
    pub lacunarity: i64,
}

impl Default for TerrainProperties {
    /// The historical defaults: scale `40`, four octaves, persistence
    /// `0.5`, lacunarity `2`, desktop layout. Dimensions default to zero
    /// and must be supplied by the caller.
    fn default() -> (r: Self)
        ensures
            r.width == 0 && r.height == 0 && r.window_width == 0 && r.window_height == 0,
            !r.mobile,
            r.scale == 40_000_000int,
            r.octaves == 4,
            r.persistance == 500_000int,
            r.lacunarity == 2_000_000int,
    {
        TerrainProperties {
            width: 0,
            height: 0,
            window_width: 0,
            window_height: 0,
            mobile: false,
            scale: 40_000_000,
            octaves: 4,
            persistance: 500_000,
            lacunarity: 2_000_000,
        }
    }
}

/// The direction heuristic a layout uses: a vertical band with constant
/// `0.125` on mobile, the radial look otherwise.
pub open spec fn spec_heuristic_for(mobile: bool) -> Heuristic {
    if mobile {
        Heuristic::Vertical(BAND_CONSTANT)
    } else {
        Heuristic::Radial
    }
}

/// Generates terrain grids and payloads for layout callers.
pub struct Terrain;

impl Terrain {
    /// Pick the direction heuristic for a layout.
    pub fn heuristic_for(mobile: bool) -> (r: Heuristic)
        ensures
            r == spec_heuristic_for(mobile),
    {
        if mobile {
            Heuristic::Vertical(BAND_CONSTANT)
        } else {
            Heuristic::Radial
        }
    }

    /// The composited (normalized, masked, clamped) grid for a layout:
    /// a fresh table, `octaves` rounds per cell, and the directional
    /// falloff under the given heuristic. Succeeds exactly on valid
    /// parameters.
    pub fn generate(
        width: u32,
        height: u32,
        scale: i64,
        heuristic: Heuristic,
        octaves: u32,
        persistance: i64,
        lacunarity: i64,
    ) -> (r: Result<Vec<i64>, GenerationError>)
        requires
            width as int * height as int <= usize::MAX,
        ensures
            !spec_valid_params(width as int, height as int, scale as int, 3, 1_500_000) <==> r
                == Err::<Vec<i64>, GenerationError>(GenerationError::InvalidParameter),
            r matches Err(e) ==> e == GenerationError::InvalidParameter,
            r matches Ok(v) ==> forall|i: int|
                0 <= i < v@.len() ==> 0 <= #[trigger] v@[i] <= crate::fixed::SCALE,
            r matches Ok(v) ==> exists|t: Seq<u8>|
                #![auto]
                wf_table(t) && v@ == spec_composite_field(
                    t,
                    width as int,
                    height as int,
                    scale as int,
                    octaves as nat,
                    persistance as int,
                    lacunarity as int,
                    FalloffShape::Directional { heuristic, threshold: None },
                    3,
                    1_500_000,
                ),
    {
        if width < 1 || height < 1 || scale < 1 {
            return Err(GenerationError::InvalidParameter);
        }
        let noise = PerlinNoise::new();
        let comp = composite_grid(
            &noise,
            width,
            height,
            scale,
            octaves,
            persistance,
            lacunarity,
            FalloffShape::Directional { heuristic, threshold: None },
            DEFAULT_FALLOFF_A,
            DEFAULT_FALLOFF_B,
        );
        proof {
            assert(wf_table(noise@) && comp@ == spec_composite_field(
                noise@,
                width as int,
                height as int,
                scale as int,
                octaves as nat,
                persistance as int,
                lacunarity as int,
                FalloffShape::Directional { heuristic, threshold: None },
                3,
                1_500_000,
            ));
        }
        Ok(comp)
    }

    /// The full payload for a layout: the composited grid under the
    /// layout's heuristic, classified, PNG- and base64-encoded.
    pub fn render(props: &TerrainProperties) -> (r: Result<ImagePayload, GenerationError>)
        requires
            props.width as int * props.height as int * 3 <= usize::MAX,
        ensures
            !spec_valid_params(
                props.width as int,
                props.height as int,
                props.scale as int,
                3,
                1_500_000,
            ) <==> r == Err::<ImagePayload, GenerationError>(GenerationError::InvalidParameter),
            r == Err::<ImagePayload, GenerationError>(GenerationError::ImageEncodingFailed)
                ==> exists|t: Seq<u8>|
                #![auto]
                wf_table(t) && spec_png_len(
                    t,
                    props.width as int,
                    props.height as int,
                    props.scale as int,
                    props.octaves as nat,
                    props.persistance as int,
                    props.lacunarity as int,
                    FalloffShape::Directional {
                        heuristic: spec_heuristic_for(props.mobile),
                        threshold: None,
                    },
                    3,
                    1_500_000,
                ) > PAYLOAD_BYTE_CAP,
            r matches Err(e) ==> (e == GenerationError::InvalidParameter || e
                == GenerationError::ImageEncodingFailed),
            spec_valid_params(
                props.width as int,
                props.height as int,
                props.scale as int,
                3,
                1_500_000,
            ) && (forall|t: Seq<u8>|
                #![auto]
                wf_table(t) ==> spec_png_len(
                    t,
                    props.width as int,
                    props.height as int,
                    props.scale as int,
                    props.octaves as nat,
                    props.persistance as int,
                    props.lacunarity as int,
                    FalloffShape::Directional {
                        heuristic: spec_heuristic_for(props.mobile),
                        threshold: None,
                    },
                    3,
                    1_500_000,
                ) <= PAYLOAD_BYTE_CAP) ==> r is Ok,
            r matches Ok(p) ==> {
                &&& p.width == props.width
                &&& p.height == props.height
                &&& exists|t: Seq<u8>|
                    #![auto]
                    wf_table(t) && p.data@ == spec_payload_of(
                        t,
                        props.width as int,
                        props.height as int,
                        props.scale as int,
                        props.octaves as nat,
                        props.persistance as int,
                        props.lacunarity as int,
                        FalloffShape::Directional {
                            heuristic: spec_heuristic_for(props.mobile),
                            threshold: None,
                        },
                        3,
                        1_500_000,
                    )
            },
    {
        let noise = PerlinNoise::new();
        let heuristic = Terrain::heuristic_for(props.mobile);
        let r = Noise::generate_with(
            &noise,
            props.width,
            props.height,
            props.scale,
            props.octaves,
            props.persistance,
            props.lacunarity,
            FalloffShape::Directional { heuristic, threshold: None },
            DEFAULT_FALLOFF_A,
            DEFAULT_FALLOFF_B,
        );
        proof {
            assert(wf_table(noise@));
            assert(r == Err::<ImagePayload, GenerationError>(GenerationError::ImageEncodingFailed)
                ==> spec_png_len(
                noise@,
                props.width as int,
                props.height as int,
                props.scale as int,
                props.octaves as nat,
                props.persistance as int,
                props.lacunarity as int,
                FalloffShape::Directional {
                    heuristic: spec_heuristic_for(props.mobile),
                    threshold: None,
                },
                3,
                1_500_000,
            ) > PAYLOAD_BYTE_CAP);
            assert(r matches Ok(p) ==> wf_table(noise@) && p.data@ == spec_payload_of(
                noise@,
                props.width as int,
                props.height as int,
                props.scale as int,
                props.octaves as nat,
                props.persistance as int,
                props.lacunarity as int,
                FalloffShape::Directional {
                    heuristic: spec_heuristic_for(props.mobile),
                    threshold: None,
                },
                3,
                1_500_000,
            ));
        }
        r
    }
}

} // verus!
