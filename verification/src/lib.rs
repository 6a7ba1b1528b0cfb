//! Terrain surface synthesis: triangulated mesh topology from a height grid,
//! and per-pixel blend-weight packing for GPU splat textures.
//!
//! The crate proves the discrete parts of terrain meshing: vertex ordering,
//! triangle index generation, Sobel neighbourhood clamping, RGBA byte packing,
//! and the dirty-flag texture sync. Floating-point attribute synthesis
//! (positions, UVs, normal vectors) is left to the rendering layer, which
//! drives it from the verified index structures defined here.

pub mod mesher;
pub mod splat;

pub use mesher::NormalMethod;
pub use splat::{GroundMaterialSettings, SplatTexture, WeightMap, splat_to_image, sync_splat_texture};
