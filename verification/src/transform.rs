//! World-space placement of an entity: position, rotation and scale.

use vstd::prelude::*;

use crate::math::{Conversions, QuatFx, Vec3Fx, FX_ONE, POS_LIMIT};

verus! {

/// An entity's world-space placement.
#[derive(Debug, Clone, Copy, PartialEq, Eq, Structural)]
pub struct Transform {
    pub position: Vec3Fx,
    pub rotation: QuatFx,
    pub scale: Vec3Fx,
}

impl Transform {
    /// Validity: the position is within world bounds, the rotation is a
    /// bounded unit quaternion and the scale is within scale bounds.
    pub open spec fn wf(&self) -> bool {
        &&& self.position.bounded()
        &&& self.rotation.unit_bounded()
        &&& self.scale.scale_bounded()
    }

    /// A transform at the given position, unrotated and unscaled.
    pub fn new(x: i64, y: i64, z: i64) -> (r: Transform)
        requires
            -POS_LIMIT <= x <= POS_LIMIT,
            -POS_LIMIT <= y <= POS_LIMIT,
            -POS_LIMIT <= z <= POS_LIMIT,
        ensures
            r.position == (Vec3Fx { x, y, z }),
            r.rotation == QuatFx::identity_spec(),
            r.scale == (Vec3Fx { x: FX_ONE as i64, y: FX_ONE as i64, z: FX_ONE as i64 }),
            r.wf(),
    {
        Transform {
            position: Vec3Fx::new(x, y, z),
            rotation: QuatFx::identity(),
            scale: Vec3Fx::one(),
        }
    }

    /// Converts a euler rotation given in degrees, component by
    /// component, to radians.
    pub fn rotation_to_rad(&self, rotation: Vec3Fx) -> (r: Vec3Fx)
        ensures
            r.x == rotation.x.to_rad_spec(),
            r.y == rotation.y.to_rad_spec(),
            r.z == rotation.z.to_rad_spec(),
    {
        Vec3Fx::new(rotation.x.to_rad(), rotation.y.to_rad(), rotation.z.to_rad())
    }
}

} // verus!
