//! Threshold-based biome color classification.
//!
//! Eight ordered, contiguous bins partition `[0, 1]` exactly; each maps a
//! composited scalar to one fixed RGB triple. Values outside `[0, 1]` —
//! unreachable after upstream clamping, including every negative input —
//! fall to a defensive black guard color.

use vstd::prelude::*;

use crate::fixed::SCALE;

verus! {

/// Upper bound (exclusive) of the deep-water bin.
pub const T_DEEP_WATER: i64 = 180_000;

/// Upper bound (exclusive) of the shallow-water bin.
pub const T_SHALLOW_WATER: i64 = 420_000;

/// Upper bound (exclusive) of the beach bin.
pub const T_BEACH: i64 = 500_000;

/// Upper bound (exclusive) of the low-grass bin.
pub const T_GRASS_LOW: i64 = 600_000;

/// Upper bound (exclusive) of the high-grass bin.
pub const T_GRASS_HIGH: i64 = 720_000;

/// Upper bound (exclusive) of the low-mountain bin.
pub const T_MOUNTAIN_LOW: i64 = 800_000;

/// Upper bound (exclusive) of the high-mountain bin.
pub const T_MOUNTAIN_HIGH: i64 = 900_000;

/// An interleaved-RGB pixel color.
#[derive(PartialEq, Eq, Structural, Clone, Copy, Debug)]
pub struct Color {
    pub r: u8,
    pub g: u8,
    pub b: u8,
}

/// The fixed eight-color biome palette, in bin order.
pub open spec fn spec_palette() -> Seq<Color> {
    seq![
        Color { r: 52, g: 14, b: 156 },
        Color { r: 82, g: 40, b: 199 },
        Color { r: 196, g: 172, b: 63 },
        Color { r: 49, g: 215, b: 4 },
        Color { r: 42, g: 133, b: 21 },
        Color { r: 69, g: 44, b: 44 },
        Color { r: 45, g: 31, b: 31 },
        Color { r: 154, g: 168, b: 153 },
    ]
}

/// The out-of-range guard color.
pub open spec fn spec_guard_color() -> Color {
    Color { r: 0, g: 0, b: 0 }
}

/// The bin of a composited scalar: half-open bins below each threshold,
/// with the snow bin closing at exactly `1` so the bins cover `[0, 1]`
/// exactly; everything else is the guard.
pub open spec fn spec_classify(v: int) -> Color {
    if v < 0 {
        spec_guard_color()
    } else if v < T_DEEP_WATER {
        spec_palette()[0]
    } else if v < T_SHALLOW_WATER {
        spec_palette()[1]
    } else if v < T_BEACH {
        spec_palette()[2]
    } else if v < T_GRASS_LOW {
        spec_palette()[3]
    } else if v < T_GRASS_HIGH {
        spec_palette()[4]
    } else if v < T_MOUNTAIN_LOW {
        spec_palette()[5]
    } else if v < T_MOUNTAIN_HIGH {
        spec_palette()[6]
    } else if v <= SCALE {
        spec_palette()[7]
    } else {
        spec_guard_color()
    }
}

/// Maps composited scalars to biome colors.
pub struct ColorClassifier;

impl ColorClassifier {
    /// Classify one scalar.
    pub fn classify(v: i64) -> (r: Color)
        ensures
            r == spec_classify(v as int),
    {
        if v < 0 {
            Color { r: 0, g: 0, b: 0 }
        } else if v < T_DEEP_WATER {
            Color { r: 52, g: 14, b: 156 }
        } else if v < T_SHALLOW_WATER {
            Color { r: 82, g: 40, b: 199 }
        } else if v < T_BEACH {
            Color { r: 196, g: 172, b: 63 }
        } else if v < T_GRASS_LOW {
            Color { r: 49, g: 215, b: 4 }
        } else if v < T_GRASS_HIGH {
            Color { r: 42, g: 133, b: 21 }
        } else if v < T_MOUNTAIN_LOW {
            Color { r: 69, g: 44, b: 44 }
        } else if v < T_MOUNTAIN_HIGH {
            Color { r: 45, g: 31, b: 31 }
        } else if v <= SCALE {
            Color { r: 154, g: 168, b: 153 }
        } else {
            Color { r: 0, g: 0, b: 0 }
        }
    }
}

/// Classifier coverage: every scalar in `[0, 1]` lands in one of the eight
/// palette colors; the guard is unreachable there.
pub proof fn lemma_classifier_coverage(v: int)
    requires
        0 <= v <= SCALE,
    ensures
        spec_palette().contains(spec_classify(v)),
        spec_classify(v) != spec_guard_color(),
{
    let c = spec_classify(v);
    if v < T_DEEP_WATER {
        assert(spec_palette()[0] == c);
    } else if v < T_SHALLOW_WATER {
        assert(spec_palette()[1] == c);
    } else if v < T_BEACH {
        assert(spec_palette()[2] == c);
    } else if v < T_GRASS_LOW {
        assert(spec_palette()[3] == c);
    } else if v < T_GRASS_HIGH {
        assert(spec_palette()[4] == c);
    } else if v < T_MOUNTAIN_LOW {
        assert(spec_palette()[5] == c);
    } else if v < T_MOUNTAIN_HIGH {
        assert(spec_palette()[6] == c);
    } else {
        assert(spec_palette()[7] == c);
    }
}

} // verus!
