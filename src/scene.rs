//! The scene: models in draw order, their texture table, and the camera.
use vstd::prelude::*;

use crate::camera::Camera;
use crate::model::Model;
use crate::textures::{insert_all, model_pairs, TextureTable};

verus! {

/// Translation, rotation and scale of a model, as bit patterns.
pub type Placement = ([u32; 3], [u32; 3], [u32; 3]);

/// Bits of 1.0.
pub const ONE: u32 = 0x3f80_0000;

/// Bits of -1.0.
pub const NEG_ONE: u32 = 0xbf80_0000;

/// Bits of 0.01.
pub const HUNDREDTH: u32 = 0x3c23_d70a;

/// The models of a scene, in order (a model's position is its index for
/// transform lookup), the texture table built from their materials, and
/// the camera.
pub struct Scene {
    pub models: Vec<Model>,
    pub textures: TextureTable,
    pub camera: Camera,
}

impl Scene {
    /// A scene of the given models, with a fresh camera for the viewport's
    /// aspect ratio.
    pub fn new(models: Vec<Model>, aspect_ratio: u32) -> (r: Scene)
        ensures
            r.models@ == models@,
            r.textures.entries() == insert_all(seq![], model_pairs(models@)),
            r.camera.is_initial(aspect_ratio),
    {
        let textures = TextureTable::from_models(&models);
        let camera = Camera::new(aspect_ratio);
        Scene { models, textures, camera }
    }
}

/// The example scene's models: asset file and initial placement, in order.
/// A teapot at (1, 1, 1) scaled by 0.01, and a unit cube at (-1, -1, -1).
pub fn example_layout() -> (r: Vec<(&'static str, Placement)>)
    ensures
        r@.len() == 2,
        r@[0].0@ == "./models/teapot.obj"@,
        r@[0].1 == ([ONE, ONE, ONE], [0u32, 0u32, 0u32], [HUNDREDTH, HUNDREDTH, HUNDREDTH]),
        r@[1].0@ == "./models/cube.obj"@,
        r@[1].1 == ([NEG_ONE, NEG_ONE, NEG_ONE], [0u32, 0u32, 0u32], [ONE, ONE, ONE]),
{
    proof {
        reveal_strlit("./models/teapot.obj");
        reveal_strlit("./models/cube.obj");
    }
    vec![
        ("./models/teapot.obj", ([ONE, ONE, ONE], [0, 0, 0], [HUNDREDTH, HUNDREDTH, HUNDREDTH])),
        ("./models/cube.obj", ([NEG_ONE, NEG_ONE, NEG_ONE], [0, 0, 0], [ONE, ONE, ONE])),
    ]
}

} // verus!
