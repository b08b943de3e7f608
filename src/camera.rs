//! Orbit camera state: pitch clamp, yaw accumulation and fixed defaults.
use vstd::prelude::*;

use crate::bits::{clamp, clamp_spec, float_le, float_lt, is_nan, lemma_clamp_in_range};

verus! {

/// Pitch limit, 89 degrees in radians (`PI * 89 / 180` in single precision).
pub const PITCH_LIMIT: u32 = 0x3fc6_d3f2;

/// The negated pitch limit.
pub const NEG_PITCH_LIMIT: u32 = 0xbfc6_d3f2;

/// Default vertical field of view, 1.4 rad.
pub const DEFAULT_FOVY: u32 = 0x3fb3_3333;

/// Default near clip distance, 0.1.
pub const DEFAULT_NEAR: u32 = 0x3dcc_cccd;

/// Default far clip distance, 1000.
pub const DEFAULT_FAR: u32 = 0x447a_0000;

/// Default eye distance from the origin along +z, 2.
pub const DEFAULT_EYE_Z: u32 = 0x4000_0000;

/// An orbit camera. Every scalar is the bit pattern of a single-precision
/// value; `rotation` holds pitch, yaw and an unused roll, in radians.
#[derive(Clone, Debug)]
pub struct Camera {
    pub aspect_ratio: u32,
    pub fovy: u32,
    pub near_bound: u32,
    pub far_bound: u32,
    pub position: [u32; 3],
    pub rotation: [u32; 3],
    pub look_at: [u32; 3],
}

impl Camera {
    /// The pitch never leaves `[-PITCH_LIMIT, PITCH_LIMIT]` unless it is NaN.
    pub open spec fn pitch_in_range(&self) -> bool {
        is_nan(self.rotation@[0]) || (float_le(NEG_PITCH_LIMIT, self.rotation@[0]) && float_le(
            self.rotation@[0],
            PITCH_LIMIT,
        ))
    }

    /// The default lens and eye, looking at the origin, unrotated.
    pub open spec fn is_initial(&self, aspect_ratio: u32) -> bool {
        &&& self.aspect_ratio == aspect_ratio
        &&& self.fovy == DEFAULT_FOVY
        &&& self.near_bound == DEFAULT_NEAR
        &&& self.far_bound == DEFAULT_FAR
        &&& self.position@ == seq![0u32, 0u32, DEFAULT_EYE_Z]
        &&& self.rotation@ == seq![0u32, 0u32, 0u32]
        &&& self.look_at@ == seq![0u32, 0u32, 0u32]
    }

    /// A camera with the default lens and eye, looking at the origin, unrotated.
    pub fn new(aspect_ratio: u32) -> (r: Camera)
        ensures
            r.is_initial(aspect_ratio),
            r.pitch_in_range(),
    {
        let r = Camera {
            aspect_ratio,
            fovy: DEFAULT_FOVY,
            near_bound: DEFAULT_NEAR,
            far_bound: DEFAULT_FAR,
            position: [0, 0, DEFAULT_EYE_Z],
            rotation: [0, 0, 0],
            look_at: [0, 0, 0],
        };
        assert(r.position@ =~= seq![0u32, 0u32, DEFAULT_EYE_Z]);
        assert(r.rotation@ =~= seq![0u32, 0u32, 0u32]);
        assert(r.look_at@ =~= seq![0u32, 0u32, 0u32]);
        r
    }

    /// Current pitch.
    pub fn pitch(&self) -> (r: u32)
        ensures
            r == self.rotation@[0],
    {
        self.rotation[0]
    }

    /// Current yaw.
    pub fn yaw(&self) -> (r: u32)
        ensures
            r == self.rotation@[1],
    {
        self.rotation[1]
    }

    /// Stores the rotation reached after adding a rotation delta: `pitch` is
    /// clamped to the pitch limit, `yaw` is kept as given, roll is untouched.
    pub fn rotate_to(&mut self, pitch: u32, yaw: u32)
        ensures
            final(self).rotation@ == seq![
                clamp_spec(pitch, NEG_PITCH_LIMIT, PITCH_LIMIT),
                yaw,
                old(self).rotation@[2],
            ],
            final(self).pitch_in_range(),
            final(self).aspect_ratio == old(self).aspect_ratio,
            final(self).fovy == old(self).fovy,
            final(self).near_bound == old(self).near_bound,
            final(self).far_bound == old(self).far_bound,
            final(self).position == old(self).position,
            final(self).look_at == old(self).look_at,
    {
        let p = clamp(pitch, NEG_PITCH_LIMIT, PITCH_LIMIT);
        self.rotation[0] = p;
        self.rotation[1] = yaw;
        proof {
            if !is_nan(pitch) {
                lemma_clamp_in_range(pitch, NEG_PITCH_LIMIT, PITCH_LIMIT);
            }
        }
        assert(self.rotation@ =~= seq![p, yaw, old(self).rotation@[2]]);
    }
}

/// Whatever pitch a rotation reaches, the stored pitch lies within the limit;
/// a pitch beyond it is stored as exactly the limit of its sign, and the yaw
/// is stored unchanged.
pub proof fn lemma_rotation_clamps_pitch(pitch: u32, yaw: u32, before: Camera, after: Camera)
    requires
        after.rotation@ == seq![
            clamp_spec(pitch, NEG_PITCH_LIMIT, PITCH_LIMIT),
            yaw,
            before.rotation@[2],
        ],
    ensures
        !is_nan(pitch) ==> float_le(NEG_PITCH_LIMIT, after.rotation@[0]) && float_le(
            after.rotation@[0],
            PITCH_LIMIT,
        ),
        float_lt(PITCH_LIMIT, pitch) ==> after.rotation@[0] == PITCH_LIMIT,
        float_lt(pitch, NEG_PITCH_LIMIT) ==> after.rotation@[0] == NEG_PITCH_LIMIT,
        after.rotation@[1] == yaw,
{
    if !is_nan(pitch) {
        lemma_clamp_in_range(pitch, NEG_PITCH_LIMIT, PITCH_LIMIT);
    }
}

} // verus!
