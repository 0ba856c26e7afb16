//! Per-frame shared light uniforms.
//!
//! All lights present in a frame are updated and bound, but the shared
//! render pass binds a single light slot, so only the most-recently
//! processed light's bind group is in effect for the pass's draws.

use vstd::prelude::*;

use crate::color::Color;
use crate::math::Vec3Fx;
use crate::transform::Transform;

verus! {

/// The GPU-visible light data: world position and color.
#[derive(Debug, Clone, Copy, PartialEq, Eq, Structural)]
pub struct LightUniform {
    pub position: Vec3Fx,
    pub color: Color,
}

impl LightUniform {
    /// A uniform at the origin with the given color.
    pub fn new(color: Color) -> (r: LightUniform)
        ensures
            r.position == (Vec3Fx { x: 0, y: 0, z: 0 }),
            r.color == color,
    {
        LightUniform { position: Vec3Fx::zero(), color }
    }

    /// Recomputes the uniform from the owning entity's transform and the
    /// light's color.
    pub fn update(&mut self, color: Color, transform: &Transform)
        ensures
            final(self).position == transform.position,
            final(self).color == color,
    {
        self.position = transform.position;
        self.color = color;
    }
}

/// A point light: color and intensity, plus its GPU uniform buffer and
/// bind group (stood for by identifiers).
#[derive(Debug, Clone, Copy, PartialEq, Eq, Structural)]
pub struct Light {
    pub intensity: i64,
    pub color: Color,
    pub uniform: LightUniform,
    pub buffer: u64,
    pub bind_group: u64,
}

impl Light {
    /// Builds a light over an already-created uniform buffer and bind
    /// group.  The uniform starts green at the origin; the first frame's
    /// update overwrites it with the light's own color and position.
    pub fn new(color: Color, intensity: i64, buffer: u64, bind_group: u64) -> (r: Light)
        ensures
            r.intensity == intensity,
            r.color == color,
            r.buffer == buffer,
            r.bind_group == bind_group,
            r.uniform.position == (Vec3Fx { x: 0, y: 0, z: 0 }),
            r.uniform.color == (Color {
                r: 0,
                g: crate::math::FX_ONE as i64,
                b: 0,
                a: crate::math::FX_ONE as i64,
            }),
    {
        let uniform = LightUniform::new(Color::green());
        Light { intensity, color, uniform, buffer, bind_group }
    }

    /// Recomputes this light's uniform from its transform.
    pub fn update_uniform(&mut self, transform: &Transform)
        ensures
            final(self).uniform.position == transform.position,
            final(self).uniform.color == old(self).color,
            final(self).intensity == old(self).intensity,
            final(self).color == old(self).color,
            final(self).buffer == old(self).buffer,
            final(self).bind_group == old(self).bind_group,
    {
        let color = self.color;
        self.uniform.update(color, transform);
    }
}

} // verus!
