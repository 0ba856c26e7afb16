//! A model: meshes, the materials they draw with, and the transforms of
//! its instances.

use vstd::prelude::*;

use crate::math::{srt_post, Mat4Fx};
use crate::renderer::InstanceRaw;
use crate::resources::{Material, Mesh};
use crate::transform::Transform;

verus! {

/// A model bundling meshes, materials and instance transforms.
pub struct Model {
    pub meshes: Vec<Mesh>,
    pub materials: Vec<Material>,
    pub instances: Vec<Transform>,
}

impl Model {
    /// Bundles the given parts into a model.
    pub fn new(meshes: Vec<Mesh>, materials: Vec<Material>, instances: Vec<Transform>) -> (r:
        Model)
        ensures
            r.meshes == meshes,
            r.materials == materials,
            r.instances == instances,
    {
        Model { meshes, materials, instances }
    }

    /// The instance data for one transform: its model matrix, composing
    /// the transform's scale, then its rotation, then its translation.
    pub fn to_instance_raw(transform: &Transform) -> (r: InstanceRaw)
        requires
            transform.wf(),
        ensures
            srt_post(r.model, transform.scale, transform.rotation, transform.position),
    {
        let matrix = Mat4Fx::from_scale_rotation_translation(
            transform.scale,
            transform.rotation,
            transform.position,
        );
        InstanceRaw { model: matrix }
    }
}

} // verus!
