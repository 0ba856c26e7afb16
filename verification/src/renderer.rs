//! The frame renderer's own state and the drawable capability contract.
//!
//! The GPU device, surface and render passes are external collaborators;
//! this module carries the state the renderer decides with — the surface
//! and depth-target dimensions — and the contract every drawable kind
//! implements.  What one draw submission needs is captured as a
//! [`DrawCall`] record for the GPU layer to execute.

use vstd::prelude::*;

use crate::asset_manager::AssetManager;
use crate::assets::{AssetRef, Error};
use crate::math::{srt_spec, Mat4Fx};
use crate::model::Model;
use crate::resources::{Material, Mesh};
use crate::transform::Transform;

verus! {

/// One entity's instance data in GPU layout: its model matrix.
#[derive(Debug, Clone, Copy, PartialEq, Eq, Structural)]
pub struct InstanceRaw {
    pub model: Mat4Fx,
}

/// Everything one indexed draw of a drawable needs: the texture bind
/// group for binding slot 1, the mesh's vertex buffer for vertex-buffer
/// slot 0, the instance data for vertex-buffer slot 1, the index buffer,
/// and the index range (`0 .. element_count`, instance count 1).
#[derive(Debug, Clone, Copy, PartialEq, Eq, Structural)]
pub struct DrawCall {
    pub texture_bind_group: u64,
    pub vertex_buffer: u64,
    pub index_buffer: u64,
    pub element_count: u32,
    pub instance: InstanceRaw,
}

/// What drawing a drawable with the given mesh and material handles
/// resolves to: the first failing resolution's error, in resolution
/// order (mesh, material, the material's pipeline, its diffuse texture,
/// then the texture's bind group), or the complete draw call.  The
/// instance matrix composes the transform's scale, then its rotation,
/// then its translation.
pub open spec fn draw_call_of(
    am: AssetManager,
    mesh_ref: AssetRef,
    material_ref: AssetRef,
    t: Transform,
) -> Result<DrawCall, Error> {
    match am.meshes.resolve_spec(mesh_ref) {
        Err(e) => Err(e),
        Ok(mi) => {
            let mesh = am.meshes.resources()[mi];
            match am.materials.resolve_spec(material_ref) {
                Err(e) => Err(e),
                Ok(mati) => {
                    let material = am.materials.resources()[mati];
                    match am.render_pipelines.resolve_spec(material.render_pipeline) {
                        Err(e) => Err(e),
                        Ok(_) => match am.textures.resolve_spec(material.diffuse) {
                            Err(e) => Err(e),
                            Ok(ti) => {
                                let texture = am.textures.resources()[ti];
                                match texture.bind_group {
                                    None => Err(Error::MissingBindGroup),
                                    Some(bg) => Ok(DrawCall {
                                        texture_bind_group: bg,
                                        vertex_buffer: mesh.vertex_buffer,
                                        index_buffer: mesh.index_buffer,
                                        element_count: mesh.element_count,
                                        instance: InstanceRaw {
                                            model: srt_spec(t.scale, t.rotation, t.position),
                                        },
                                    }),
                                }
                            },
                        },
                    }
                },
            }
        },
    }
}

/// The uniform contract every drawable component kind implements, so the
/// frame renderer can submit heterogeneous drawables without knowing
/// their concrete type.
///
/// A drawable must never reference a mesh, material, pipeline or
/// sampleable texture that was not registered before scene construction
/// completed: such a miss is a scene bug.  These operations surface it
/// as an error value rather than aborting themselves — this library's
/// verified functions do not panic — and the submitting caller treats
/// the error as fatal, aborting the process at draw time.
pub trait Renderable {
    /// The handle of the mesh this drawable renders.
    spec fn mesh_ref(&self) -> AssetRef;

    /// The handle of the material this drawable renders with.
    spec fn material_ref(&self) -> AssetRef;

    /// Resolves the drawable's mesh through the registry; a failure is
    /// a scene bug, fatal to the caller.
    fn get_mesh<'a>(&self, asset_manager: &'a AssetManager) -> (r: Result<&'a Mesh, Error>)
        requires
            asset_manager.wf(),
        ensures
            (match (r, asset_manager.meshes.resolve_spec(self.mesh_ref())) {
                (Ok(v), Ok(i)) => *v == asset_manager.meshes.resources()[i],
                (Err(e), Err(e2)) => e == e2,
                _ => false,
            }),
    ;

    /// Resolves the drawable's material through the registry; a failure
    /// is a scene bug, fatal to the caller.
    fn get_material<'a>(&self, asset_manager: &'a AssetManager) -> (r: Result<&'a Material, Error>)
        requires
            asset_manager.wf(),
        ensures
            (match (r, asset_manager.materials.resolve_spec(self.material_ref())) {
                (Ok(v), Ok(i)) => *v == asset_manager.materials.resources()[i],
                (Err(e), Err(e2)) => e == e2,
                _ => false,
            }),
    ;

    /// Resolves mesh, material, pipeline and diffuse texture, rebuilds
    /// the instance data for the given transform, and returns the draw
    /// call covering the mesh's full index range with instance count 1.
    /// A resolution failure, or a diffuse texture without a bind group
    /// (a render-target-only texture mistakenly assigned as a sampled
    /// diffuse), surfaces as the error the caller aborts on.
    fn draw(&self, asset_manager: &AssetManager, transform: &Transform) -> (r: Result<
        DrawCall,
        Error,
    >)
        requires
            asset_manager.wf(),
            transform.wf(),
        ensures
            r == draw_call_of(*asset_manager, self.mesh_ref(), self.material_ref(), *transform),
    ;
}

/// How the renderer answers a surface-acquisition error.
#[derive(Debug, Clone, Copy, PartialEq, Eq, Structural)]
pub enum SurfaceErrorKind {
    /// Acquiring the next surface target timed out.
    Timeout,
    /// The surface configuration no longer matches the surface.
    Outdated,
    /// The surface was lost and must be reconfigured.
    Lost,
    /// The backend is out of memory.
    OutOfMemory,
}

/// What the frame loop does about a surface-acquisition error.
#[derive(Debug, Clone, Copy, PartialEq, Eq, Structural)]
pub enum FrameAction {
    /// Skip this frame; the next frame retries.
    SkipFrame,
    /// Reconfigure the surface at the current size, then retry.
    Reconfigure,
    /// Unrecoverable: stop the frame loop.
    Exit,
}

/// Policy for surface-acquisition errors: a lost surface is reconfigured,
/// out-of-memory is fatal, and the transient kinds (outdated, timeout)
/// skip the frame.
pub fn surface_error_action(error: &SurfaceErrorKind) -> (r: FrameAction)
    ensures
        r == (match error {
            SurfaceErrorKind::Lost => FrameAction::Reconfigure,
            SurfaceErrorKind::OutOfMemory => FrameAction::Exit,
            SurfaceErrorKind::Timeout => FrameAction::SkipFrame,
            SurfaceErrorKind::Outdated => FrameAction::SkipFrame,
        }),
{
    match error {
        SurfaceErrorKind::Lost => FrameAction::Reconfigure,
        SurfaceErrorKind::OutOfMemory => FrameAction::Exit,
        SurfaceErrorKind::Timeout => FrameAction::SkipFrame,
        SurfaceErrorKind::Outdated => FrameAction::SkipFrame,
    }
}

/// The renderer's dimension state: the presentation surface
/// configuration, the window size, and the depth target, which must
/// track the surface configuration.
#[derive(Debug, Clone, Copy, PartialEq, Eq, Structural)]
pub struct Renderer {
    pub config_width: u32,
    pub config_height: u32,
    pub size_width: u32,
    pub size_height: u32,
    pub depth_width: u32,
    pub depth_height: u32,
}

impl Renderer {
    /// The depth target matches the surface configuration.
    pub open spec fn depth_matches_config(&self) -> bool {
        &&& self.depth_width == self.config_width
        &&& self.depth_height == self.config_height
    }

    /// A renderer for a surface of the given initial dimensions.
    pub fn new(width: u32, height: u32) -> (r: Renderer)
        ensures
            r == (Renderer {
                config_width: width,
                config_height: height,
                size_width: width,
                size_height: height,
                depth_width: width,
                depth_height: height,
            }),
            r.depth_matches_config(),
    {
        Renderer {
            config_width: width,
            config_height: height,
            size_width: width,
            size_height: height,
            depth_width: width,
            depth_height: height,
        }
    }

    /// Bundles meshes, materials and instance transforms into a model.
    pub fn build_model(
        &mut self,
        meshes: Vec<Mesh>,
        materials: Vec<Material>,
        transforms: Vec<Transform>,
    ) -> (r: Model)
        ensures
            *final(self) == *old(self),
            r.meshes == meshes,
            r.materials == materials,
            r.instances == transforms,
    {
        Model::new(meshes, materials, transforms)
    }

    /// Handles a window resize.  A zero-area resize (a minimized window)
    /// is a no-op: the prior surface configuration and depth-target
    /// dimensions stay until a non-zero size is observed.  A non-zero
    /// resize updates the size, reconfigures the surface and recreates
    /// the depth target at the new dimensions; the returned flag tells
    /// the caller to also resize every active camera.
    pub fn resize(&mut self, new_width: u32, new_height: u32) -> (applied: bool)
        ensures
            applied == (new_width > 0 && new_height > 0),
            applied ==> *final(self) == (Renderer {
                config_width: new_width,
                config_height: new_height,
                size_width: new_width,
                size_height: new_height,
                depth_width: new_width,
                depth_height: new_height,
            }),
            !applied ==> *final(self) == *old(self),
            old(self).depth_matches_config() ==> final(self).depth_matches_config(),
    {
        if new_width > 0 && new_height > 0 {
            self.size_width = new_width;
            self.size_height = new_height;
            self.config_width = new_width;
            self.config_height = new_height;
            self.depth_width = new_width;
            self.depth_height = new_height;
            true
        } else {
            false
        }
    }
}

} // verus!
