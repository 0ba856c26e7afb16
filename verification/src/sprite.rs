//! The billboard/sprite drawable: the one concrete drawable kind in this
//! system.
//!
//! A sprite holds a mesh handle and a material handle, set at entity
//! creation and immutable thereafter, and an optional per-frame instance
//! buffer that is destroyed and rebuilt every frame the sprite is drawn.

use vstd::prelude::*;

use crate::asset_manager::AssetManager;
use crate::assets::{AssetRef, AssetType, Error};
use crate::math::{srt_post, Mat4Fx};
use crate::renderer::{DrawCall, InstanceRaw, Renderable};
use crate::resources::{Material, Mesh};
use crate::transform::Transform;

verus! {

/// A drawable sprite component.
#[derive(Debug, Clone)]
pub struct Sprite {
    pub mesh: AssetRef,
    pub material: AssetRef,
    pub instance_buffer: Option<u64>,
}

impl Sprite {
    /// A sprite over the given material and mesh handles, with no
    /// instance buffer yet.
    pub fn new(material: AssetRef, mesh: AssetRef) -> (r: Sprite)
        ensures
            r.material == material,
            r.mesh == mesh,
            r.instance_buffer is None,
    {
        Sprite { material, instance_buffer: None, mesh }
    }

    /// The instance data for one transform: its model matrix, composing
    /// the transform's scale, then its rotation, then its translation.
    pub fn to_instance_raw(transform: &Transform) -> (r: InstanceRaw)
        requires
            transform.wf(),
        ensures
            srt_post(r.model, transform.scale, transform.rotation, transform.position),
            r.model == srt_spec_of(*transform),
    {
        let matrix = Mat4Fx::from_scale_rotation_translation(
            transform.scale,
            transform.rotation,
            transform.position,
        );
        proof {
            crate::math::lemma_srt_post_is_srt_spec(
                matrix,
                transform.scale,
                transform.rotation,
                transform.position,
            );
        }
        InstanceRaw { model: matrix }
    }

    /// The instance-buffer contents for a set of transforms: one raw
    /// instance per transform, in order.
    pub fn generate_instance_buffer(transforms: &Vec<Transform>) -> (r: Vec<InstanceRaw>)
        requires
            forall|i: int| 0 <= i < transforms@.len() ==> (#[trigger] transforms@[i]).wf(),
        ensures
            r@.len() == transforms@.len(),
            forall|i: int|
                0 <= i < r@.len() ==> (#[trigger] r@[i]).model == srt_spec_of(transforms@[i]),
    {
        let mut out: Vec<InstanceRaw> = Vec::new();
        let mut i: usize = 0;
        while i < transforms.len()
            invariant
                i <= transforms@.len(),
                out@.len() == i,
                forall|j: int| 0 <= j < transforms@.len() ==> (#[trigger] transforms@[j]).wf(),
                forall|j: int|
                    0 <= j < i ==> (#[trigger] out@[j]).model == srt_spec_of(transforms@[j]),
            decreases transforms@.len() - i,
        {
            out.push(Sprite::to_instance_raw(&transforms[i]));
            i += 1;
        }
        out
    }

    /// Replaces the sprite's instance buffer with a freshly created one,
    /// stood for by its identifier; the old buffer's GPU resources are
    /// released by whoever tracks command-buffer lifetimes.
    pub fn update_instance_buffer(&mut self, instance_buffer: u64)
        ensures
            final(self).instance_buffer == Some(instance_buffer),
            final(self).mesh == old(self).mesh,
            final(self).material == old(self).material,
    {
        self.instance_buffer = Some(instance_buffer);
    }
}

/// The model matrix of a transform as drawn by a sprite: the
/// transform's scale, then its rotation, then its translation, composed
/// in that order.
pub open spec fn srt_spec_of(t: Transform) -> Mat4Fx {
    crate::math::srt_spec(t.scale, t.rotation, t.position)
}

impl Default for Sprite {
    /// A sprite referencing the default plane mesh and default material
    /// by name.
    fn default() -> (r: Sprite)
        ensures
            r.mesh.id is None,
            r.mesh.name matches Some(n) && n@ == "default_sprite_plane"@,
            r.mesh.asset_type == AssetType::Mesh,
            r.material.id is None,
            r.material.name matches Some(n) && n@ == "default_material"@,
            r.material.asset_type == AssetType::Material,
            r.instance_buffer is None,
    {
        Sprite {
            mesh: AssetRef {
                id: None,
                name: Some("default_sprite_plane".to_owned()),
                asset_type: AssetType::Mesh,
            },
            material: AssetRef {
                id: None,
                name: Some("default_material".to_owned()),
                asset_type: AssetType::Material,
            },
            instance_buffer: None,
        }
    }
}

impl Renderable for Sprite {
    open spec fn mesh_ref(&self) -> AssetRef {
        self.mesh
    }

    open spec fn material_ref(&self) -> AssetRef {
        self.material
    }

    fn get_mesh<'a>(&self, asset_manager: &'a AssetManager) -> (r: Result<&'a Mesh, Error>) {
        asset_manager.get_mesh(&self.mesh)
    }

    fn get_material<'a>(&self, asset_manager: &'a AssetManager) -> (r: Result<
        &'a Material,
        Error,
    >) {
        asset_manager.get_material(&self.material)
    }

    fn draw(&self, asset_manager: &AssetManager, transform: &Transform) -> (r: Result<
        DrawCall,
        Error,
    >) {
        let mesh = match asset_manager.get_mesh(&self.mesh) {
            Ok(m) => m,
            Err(e) => {
                return Err(e);
            },
        };
        let material = match asset_manager.get_material(&self.material) {
            Ok(m) => m,
            Err(e) => {
                return Err(e);
            },
        };
        match asset_manager.get_pipeline(&material.render_pipeline) {
            Ok(_) => {},
            Err(e) => {
                return Err(e);
            },
        };
        let diffuse = match asset_manager.get_texture(&material.diffuse) {
            Ok(t) => t,
            Err(e) => {
                return Err(e);
            },
        };
        let texture_bind_group = match diffuse.bind_group {
            Some(v) => v,
            None => {
                return Err(Error::MissingBindGroup);
            },
        };
        let instance = Sprite::to_instance_raw(transform);
        Ok(DrawCall {
            texture_bind_group,
            vertex_buffer: mesh.vertex_buffer,
            index_buffer: mesh.index_buffer,
            element_count: mesh.element_count,
            instance,
        })
    }
}

} // verus!
