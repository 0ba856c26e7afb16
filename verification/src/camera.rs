//! The camera component: projection parameters plus its GPU uniform
//! buffer and bind group.
//!
//! The view-projection matrix itself is floating-point work done by the
//! GPU layer from these parameters; this component carries the exact
//! parameters the frame logic decides with — in particular the surface
//! dimensions that fix the aspect ratio.

use vstd::prelude::*;

verus! {

/// A perspective camera.  `fovy`, `znear` and `zfar` are fixed-point
/// quantities; the aspect ratio is `width / height`.
#[derive(Debug, Clone, Copy, PartialEq, Eq, Structural)]
pub struct Camera {
    pub width: u32,
    pub height: u32,
    pub fovy: i64,
    pub znear: i64,
    pub zfar: i64,
    pub buffer: u64,
    pub bind_group: u64,
}

impl Camera {
    /// Builds a camera over an already-created uniform buffer and bind
    /// group.
    pub fn new(
        width: u32,
        height: u32,
        fovy: i64,
        znear: i64,
        zfar: i64,
        buffer: u64,
        bind_group: u64,
    ) -> (r: Camera)
        ensures
            r == (Camera { width, height, fovy, znear, zfar, buffer, bind_group }),
    {
        Camera { width, height, fovy, znear, zfar, buffer, bind_group }
    }

    /// Updates the aspect ratio for new surface dimensions.
    pub fn resize(&mut self, width: u32, height: u32)
        ensures
            final(self).width == width,
            final(self).height == height,
            final(self).fovy == old(self).fovy,
            final(self).znear == old(self).znear,
            final(self).zfar == old(self).zfar,
            final(self).buffer == old(self).buffer,
            final(self).bind_group == old(self).bind_group,
    {
        self.width = width;
        self.height = height;
    }
}

} // verus!
