//! Tests for the permutation table, the gradient sampler, and the
//! fixed-point utilities.

use terrain::fixed::{fp_add, fp_div, fp_mul, fp_pow, fp_sub, Utility, SCALE};
use terrain::noise::fade;
use terrain::PerlinNoise;

#[test]
fn permutation_table_duplication() {
    let noise = PerlinNoise::new();
    assert_eq!(noise.table_len(), 512);
    for i in 0..256 {
        assert_eq!(noise.table_at(i + 256), noise.table_at(i));
    }
}

#[test]
fn permutation_table_is_a_permutation() {
    let noise = PerlinNoise::new();
    let mut counts = [0u32; 256];
    for i in 0..256 {
        counts[noise.table_at(i) as usize] += 1;
    }
    for c in counts.iter() {
        assert_eq!(*c, 1);
    }
}

#[test]
fn noise_sampling_is_deterministic() {
    let noise = PerlinNoise::new();
    let samples = [
        (0i64, 0i64),
        (1_234_567, 7_654_321),
        (-3_500_000, 2_250_000),
        (40_000_000, -40_000_000),
    ];
    for (x, y) in samples.iter() {
        let first = noise.noise(*x, *y);
        let second = noise.noise(*x, *y);
        assert_eq!(first, second);
    }
}

#[test]
fn noise_at_lattice_points_is_bounded() {
    // At integer lattice points both fractional offsets are zero, so every
    // corner dot product uses offsets in [-1, 0] and the sample magnitude
    // cannot exceed 2.0.
    let noise = PerlinNoise::new();
    for k in 0..8i64 {
        let v = noise.noise(k * SCALE, (7 - k) * SCALE);
        assert!(v.abs() <= 2 * SCALE);
    }
}

#[test]
fn clamp01_is_total() {
    assert_eq!(Utility::clamp01(i64::MIN), 0);
    assert_eq!(Utility::clamp01(-1), 0);
    assert_eq!(Utility::clamp01(0), 0);
    assert_eq!(Utility::clamp01(123_456), 123_456);
    assert_eq!(Utility::clamp01(SCALE), SCALE);
    assert_eq!(Utility::clamp01(SCALE + 1), SCALE);
    assert_eq!(Utility::clamp01(i64::MAX), SCALE);
}

#[test]
fn fixed_point_arithmetic_is_exact() {
    assert_eq!(fp_mul(2_500_000, 2_000_000), 5_000_000);
    assert_eq!(fp_mul(-1_000_000, 750_000), -750_000);
    assert_eq!(fp_div(1_000_000, 4_000_000), 250_000);
    assert_eq!(fp_add(300_000, 700_000), SCALE);
    assert_eq!(fp_sub(300_000, 700_000), -400_000);
    assert_eq!(fp_pow(2_000_000, 3), 8_000_000);
    assert_eq!(fp_pow(500_000, 2), 250_000);
    assert_eq!(fp_pow(-42, 0), SCALE);
}

#[test]
fn fixed_point_saturates_instead_of_wrapping() {
    assert_eq!(fp_add(i64::MAX, 1), i64::MAX);
    assert_eq!(fp_sub(i64::MIN, 1), i64::MIN);
    assert_eq!(fp_mul(i64::MAX, i64::MAX), i64::MAX);
    assert_eq!(fp_mul(i64::MAX, i64::MIN), i64::MIN);
}

#[test]
fn lerp_and_inverse_lerp_match_reference_values() {
    assert_eq!(Utility::lerp(500_000, 0, SCALE), 500_000);
    assert_eq!(Utility::lerp(250_000, 2_000_000, 6_000_000), 3_000_000);
    assert_eq!(Utility::inverse_lerp(3_000_000, 2_000_000, 6_000_000), 250_000);
    assert_eq!(Utility::inverse_lerp(9_000_000, 2_000_000, 6_000_000), SCALE);
    assert_eq!(Utility::inverse_lerp(-500_000, 0, SCALE), 0);
}

#[test]
fn inverse_lerp_degenerate_range_is_zero() {
    assert_eq!(Utility::inverse_lerp(123, 42, 42), 0);
    assert_eq!(Utility::inverse_lerp(42, 42, 42), 0);
}

#[test]
fn abs32_matches_magnitudes() {
    assert_eq!(Utility::abs32(-250_000), 250_000);
    assert_eq!(Utility::abs32(250_000), 250_000);
    assert_eq!(Utility::abs32(0), 0);
    assert_eq!(Utility::abs32(i64::MIN), i64::MAX);
}

#[test]
fn fade_curve_reference_values() {
    assert_eq!(fade(0), 0);
    assert_eq!(fade(SCALE), SCALE);
    assert_eq!(fade(500_000), 500_000);
}
