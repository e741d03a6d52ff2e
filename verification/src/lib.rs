//! Procedurally textured terrain backgrounds.
//!
//! The crate synthesizes a stylized heightmap — permutation-driven gradient
//! noise, multi-octave fractal accumulation, an edge-darkening falloff mask,
//! min-max normalization, threshold-based biome coloring — and encodes the
//! result as a base64 PNG payload ready to embed as a background image.
//!
//! All real-valued quantities are carried as decimal fixed-point numbers:
//! an `i64` holds the value times [`fixed::SCALE`] (one million), so `1.0`
//! is `1_000_000`. Operations that would leave the `i64` range saturate at
//! its bounds; this is the crate's explicit, documented rule for values too
//! large to represent (the fixed-point analogue of a non-finite float).

pub mod classify;
pub mod encode;
pub mod falloff;
pub mod field;
pub mod fixed;
pub mod layout;
pub mod noise;
pub mod pipeline;
pub mod props;
pub mod terrain;

pub use encode::{GenerationError, ImagePayload};
pub use falloff::{FallOffMap, FalloffShape, Heuristic};
pub use fixed::Utility;
pub use noise::PerlinNoise;
pub use pipeline::Noise;
pub use terrain::{Terrain, TerrainProperties};
