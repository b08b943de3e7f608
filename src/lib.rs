//! Core of an interactive OBJ model viewer: camera state, mesh-to-vertex
//! packing, the scene's texture table and the per-frame render plan.
//!
//! Single-precision values are carried as their IEEE-754 bit patterns
//! (`u32`), so that every decision made on them here is checked by Verus.
use vstd::prelude::*;

pub mod bits;
pub mod camera;
pub mod input;
pub mod model;
pub mod render;
pub mod scene;
pub mod textures;
pub mod vertex;

verus! {

} // verus!
