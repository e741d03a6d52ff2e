//! Tests for accumulation, normalization, classification, and the
//! end-to-end payload.

use base64::Engine;
use terrain::classify::{Color, ColorClassifier};
use terrain::field::{FractalAccumulator, NoiseField, Normalizer};
use terrain::fixed::SCALE;
use terrain::layout::{background_size, is_mobile};
use terrain::{GenerationError, Heuristic, Noise, PerlinNoise, Terrain, TerrainProperties};

const PALETTE: [(u8, u8, u8); 8] = [
    (52, 14, 156),
    (82, 40, 199),
    (196, 172, 63),
    (49, 215, 4),
    (42, 133, 21),
    (69, 44, 44),
    (45, 31, 31),
    (154, 168, 153),
];

fn in_palette(r: u8, g: u8, b: u8) -> bool {
    PALETTE.iter().any(|&(pr, pg, pb)| (pr, pg, pb) == (r, g, b))
}

#[test]
fn degenerate_normalization_returns_zero() {
    // Zero octaves leave every raw height equal; the normalizer must map
    // every cell to exactly 0 without dividing by zero.
    let noise = PerlinNoise::new();
    let field = FractalAccumulator::accumulate(&noise, 8, 6, 40_000_000, 0, 500_000, 2_000_000);
    assert_eq!(field.min, field.max);
    let normalized = Normalizer::normalize(&field);
    assert_eq!(normalized.len(), 48);
    for v in normalized.iter() {
        assert_eq!(*v, 0);
    }
}

#[test]
fn degenerate_normalization_on_constant_field() {
    let field = NoiseField {
        width: 3,
        height: 2,
        data: vec![7_777; 6],
        min: 7_777,
        max: 7_777,
    };
    let normalized = Normalizer::normalize(&field);
    for v in normalized.iter() {
        assert_eq!(*v, 0);
    }
}

#[test]
fn accumulator_tracks_extrema() {
    let noise = PerlinNoise::new();
    let field = FractalAccumulator::accumulate(&noise, 16, 16, 4_000_000, 3, 500_000, 2_000_000);
    assert_eq!(field.data.len(), 256);
    let mut min = i64::MAX;
    let mut max = i64::MIN;
    for v in field.data.iter() {
        min = min.min(*v);
        max = max.max(*v);
    }
    assert_eq!(field.min, min);
    assert_eq!(field.max, max);
}

#[test]
fn classifier_respects_bin_boundaries() {
    // 0.4199 is still shallow water; 0.42 is the first beach value.
    let shallow = ColorClassifier::classify(419_900);
    assert_eq!((shallow.r, shallow.g, shallow.b), (82, 40, 199));
    let beach = ColorClassifier::classify(420_000);
    assert_eq!((beach.r, beach.g, beach.b), (196, 172, 63));
    let deep = ColorClassifier::classify(0);
    assert_eq!((deep.r, deep.g, deep.b), (52, 14, 156));
    let snow = ColorClassifier::classify(SCALE);
    assert_eq!((snow.r, snow.g, snow.b), (154, 168, 153));
}

#[test]
fn classifier_covers_unit_interval() {
    // 10,000 evenly sampled scalars in [0, 1]: every output belongs to the
    // fixed eight-color palette, never the guard.
    for k in 0..10_000i64 {
        let v = k * 100;
        let c = ColorClassifier::classify(v);
        assert!(in_palette(c.r, c.g, c.b));
    }
    let c = ColorClassifier::classify(SCALE);
    assert!(in_palette(c.r, c.g, c.b));
}

#[test]
fn classifier_guards_out_of_range_values() {
    let below: Color = ColorClassifier::classify(-1);
    assert_eq!((below.r, below.g, below.b), (0, 0, 0));
    let above = ColorClassifier::classify(SCALE + 1);
    assert_eq!((above.r, above.g, above.b), (0, 0, 0));
}

#[test]
fn generate_rejects_invalid_parameters() {
    assert_eq!(
        Noise::generate(0, 360, 40_000_000, 4, 500_000, 2_000_000).err(),
        Some(GenerationError::InvalidParameter)
    );
    assert_eq!(
        Noise::generate(640, 0, 40_000_000, 4, 500_000, 2_000_000).err(),
        Some(GenerationError::InvalidParameter)
    );
    assert_eq!(
        Noise::generate(640, 360, 0, 4, 500_000, 2_000_000).err(),
        Some(GenerationError::InvalidParameter)
    );
    assert_eq!(
        Noise::generate(640, 360, -40_000_000, 4, 500_000, 2_000_000).err(),
        Some(GenerationError::InvalidParameter)
    );
}

#[test]
fn end_to_end_payload_decodes_to_palette_image() {
    // generate(640, 360, 40, 4, 0.5, 2, Radial, default): the payload must
    // decode to a 640x360 raster whose every pixel is a palette color.
    let payload = Noise::generate(640, 360, 40_000_000, 4, 500_000, 2_000_000)
        .expect("valid parameters must produce a payload");
    assert_eq!(payload.width, 640);
    assert_eq!(payload.height, 360);
    let png = base64::engine::general_purpose::STANDARD
        .decode(payload.data.as_bytes())
        .expect("payload must be valid base64");
    let img = image::load_from_memory(&png).expect("payload must decode as an image");
    let rgb = img.to_rgb8();
    assert_eq!(rgb.width(), 640);
    assert_eq!(rgb.height(), 360);
    for p in rgb.pixels() {
        assert!(in_palette(p.0[0], p.0[1], p.0[2]));
    }
}

#[test]
fn terrain_generate_stays_clamped() {
    let comp = Terrain::generate(32, 18, 4_000_000, Heuristic::Radial, 3, 500_000, 2_000_000)
        .expect("valid parameters must produce a grid");
    assert_eq!(comp.len(), 32 * 18);
    for v in comp.iter() {
        assert!((0..=SCALE).contains(v));
    }
}

#[test]
fn terrain_generate_rejects_zero_scale() {
    let r = Terrain::generate(32, 18, 0, Heuristic::Vertical(125_000), 3, 500_000, 2_000_000);
    assert_eq!(r.err(), Some(GenerationError::InvalidParameter));
}

#[test]
fn terrain_render_produces_payload() {
    let props = TerrainProperties {
        width: 90,
        height: 160,
        window_width: 390,
        window_height: 800,
        mobile: true,
        ..TerrainProperties::default()
    };
    let payload = Terrain::render(&props).expect("valid properties must render");
    assert_eq!(payload.width, 90);
    assert_eq!(payload.height, 160);
    let png = base64::engine::general_purpose::STANDARD
        .decode(payload.data.as_bytes())
        .expect("payload must be valid base64");
    let img = image::load_from_memory(&png).expect("payload must decode as an image");
    assert_eq!(img.to_rgb8().dimensions(), (90, 160));
}

#[test]
fn zero_octaves_yield_uniform_deep_water_payload() {
    // With zero octaves every raw height is equal, the normalizer fallback
    // yields 0, and the composited value is clamp01(0 - falloff) == 0
    // everywhere — so the decoded raster is uniformly deep water,
    // independent of the random permutation.
    let payload = Noise::generate(4, 4, 40_000_000, 0, 500_000, 2_000_000)
        .expect("valid parameters must produce a payload");
    let png = base64::engine::general_purpose::STANDARD
        .decode(payload.data.as_bytes())
        .expect("payload must be valid base64");
    let img = image::load_from_memory(&png).expect("payload must decode as an image");
    let rgb = img.to_rgb8();
    assert_eq!(rgb.dimensions(), (4, 4));
    for p in rgb.pixels() {
        assert_eq!((p.0[0], p.0[1], p.0[2]), (52, 14, 156));
    }
}

#[test]
fn generate_with_is_deterministic_for_a_fixed_table() {
    // For one table and identical parameters the whole pipeline — grid,
    // PNG bytes, base64 text — must reproduce bit for bit.
    let noise = PerlinNoise::new();
    let shape = || terrain::FalloffShape::Directional {
        heuristic: Heuristic::Radial,
        threshold: Some(300_000),
    };
    let first = Noise::generate_with(
        &noise, 64, 36, 8_000_000, 4, 500_000, 2_000_000, shape(), 5, 8_000_000,
    )
    .expect("valid parameters must produce a payload");
    let second = Noise::generate_with(
        &noise, 64, 36, 8_000_000, 4, 500_000, 2_000_000, shape(), 5, 8_000_000,
    )
    .expect("valid parameters must produce a payload");
    assert_eq!(first.data, second.data);
    assert_eq!(first.width, second.width);
    assert_eq!(first.height, second.height);
}

#[test]
fn generate_with_rejects_invalid_curve_exponents() {
    let noise = PerlinNoise::new();
    let r = Noise::generate_with(
        &noise,
        64,
        36,
        8_000_000,
        4,
        500_000,
        2_000_000,
        terrain::FalloffShape::Radial,
        0,
        1_500_000,
    );
    assert_eq!(r.err(), Some(GenerationError::InvalidParameter));
}

#[test]
fn layout_lookup_is_pure() {
    assert_eq!(background_size(500), (270, 600));
    assert_eq!(background_size(699), (270, 600));
    assert_eq!(background_size(700), (640, 360));
    assert_eq!(background_size(1119), (640, 360));
    assert_eq!(background_size(1920), (640, 360));
    assert!(is_mobile(699));
    assert!(is_mobile(1119));
    assert!(!is_mobile(1120));
}
