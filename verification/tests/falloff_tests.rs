//! Tests for the falloff curve, the mirrored band, and the mask grids.

use terrain::falloff::{evaluate_curve, norm_coord, FallOffMap};
use terrain::fixed::SCALE;
use terrain::{FalloffShape, Heuristic};

#[test]
fn falloff_boundaries_are_exact() {
    // The gentler preset (A = 3, B = 1.5) and the steep one (A = 5, B = 8):
    // f(0) == 0 and f(1) == 1 exactly for both.
    assert_eq!(evaluate_curve(0, 3, 1_500_000), 0);
    assert_eq!(evaluate_curve(SCALE, 3, 1_500_000), SCALE);
    assert_eq!(evaluate_curve(0, 5, 8_000_000), 0);
    assert_eq!(evaluate_curve(SCALE, 5, 8_000_000), SCALE);
}

#[test]
fn falloff_curve_reference_value() {
    // A = 1, B = 1: f(v) = v / (v + (1 - v)) = v exactly.
    assert_eq!(evaluate_curve(250_000, 1, SCALE), 250_000);
    assert_eq!(evaluate_curve(750_000, 1, SCALE), 750_000);
    // A = 2, B = 1 at v = 0.5: 0.25 / (0.25 + 0.25) = 0.5.
    assert_eq!(evaluate_curve(500_000, 2, SCALE), 500_000);
    // A = 3, B = 1.5 at v = 0.5: 0.125 / (0.125 + 0.421875) ~= 0.228571.
    assert_eq!(evaluate_curve(500_000, 3, 1_500_000), 228_571);
}

#[test]
fn falloff_stays_in_unit_interval() {
    for k in 0..=100i64 {
        let v = k * (SCALE / 100);
        let steep = evaluate_curve(v, 5, 8_000_000);
        let gentle = evaluate_curve(v, 3, 1_500_000);
        assert!((0..=SCALE).contains(&steep));
        assert!((0..=SCALE).contains(&gentle));
    }
}

#[test]
fn mirrored_band_symmetry() {
    // For v below the threshold T = 0.3 the mirrored curve equals
    // 1 - f(T - v) exactly.
    let shape = FalloffShape::Directional {
        heuristic: Heuristic::Radial,
        threshold: Some(300_000),
    };
    let mask = FallOffMap::new(4, 4, shape, 5, 8_000_000);
    let t = 300_000i64;
    for k in 0..30i64 {
        let v = k * 10_000;
        assert!(v < t);
        let mirrored = mask.evaluate_mirrored(v, t);
        let plain = mask.evaluate(t - v);
        assert_eq!(mirrored, SCALE - plain);
    }
    // At and above the threshold the plain curve applies.
    assert_eq!(mask.evaluate_mirrored(t, t), mask.evaluate(t));
    assert_eq!(mask.evaluate_mirrored(650_000, t), mask.evaluate(650_000));
}

#[test]
fn norm_coord_spans_minus_one_to_one() {
    assert_eq!(norm_coord(0, 100), -SCALE);
    assert_eq!(norm_coord(50, 100), 0);
    assert_eq!(norm_coord(25, 100), -500_000);
    assert_eq!(norm_coord(75, 100), 500_000);
}

#[test]
fn radial_mask_is_darkest_at_corners() {
    let map = FallOffMap::generate(11, 11);
    assert_eq!(map.len(), 121);
    let center = map[5 * 11 + 5];
    let corner = map[0];
    assert!(corner > center);
    for w in map.iter() {
        assert!((0..=SCALE).contains(w));
    }
}

#[test]
fn directional_mask_with_vertical_band() {
    let shape = FalloffShape::Directional {
        heuristic: Heuristic::Vertical(125_000),
        threshold: None,
    };
    let mask = FallOffMap::new(9, 20, shape, 3, 1_500_000);
    assert_eq!(mask.width, 9);
    assert_eq!(mask.height, 20);
    // The vertical heuristic ignores x: whole rows share one weight.
    for y in 0..20usize {
        let first = mask.at(y * 9);
        for x in 1..9usize {
            assert_eq!(mask.at(y * 9 + x), first);
        }
    }
}
