//! The asset registry: single ownership point for all render-resident
//! resources.
//!
//! The registry owns five independent typed pools (meshes, textures,
//! materials, render pipelines, shader modules), each an insertion-ordered
//! name-to-resource mapping, and resolves logical references
//! ([`AssetRef`]) to live resources by positional slot or by name.

use vstd::prelude::*;

use crate::assets::{AssetRef, AssetType, Error};
use crate::pool::{insert_post, Pool};
use crate::resources::{Material, Mesh, RenderPipeline, ShaderModule, Texture};

verus! {

/// A resource value to be registered, tagged by its kind so the registry
/// knows which pool to append it to.
pub enum Asset {
    Mesh(Mesh),
    Texture(Texture),
    Material(Material),
    Shader(ShaderModule),
    RenderPipeline(RenderPipeline),
}

/// The registry of all render-resident resources.
pub struct AssetManager {
    pub meshes: Pool<Mesh>,
    pub textures: Pool<Texture>,
    pub materials: Pool<Material>,
    pub render_pipelines: Pool<RenderPipeline>,
    pub shaders: Pool<ShaderModule>,
}

impl AssetManager {
    /// Every pool is well-formed.
    pub open spec fn wf(&self) -> bool {
        &&& self.meshes.wf()
        &&& self.textures.wf()
        &&& self.materials.wf()
        &&& self.render_pipelines.wf()
        &&& self.shaders.wf()
    }

    /// An empty registry.
    pub fn new() -> (r: AssetManager)
        ensures
            r.wf(),
            r.meshes.names() == Seq::<Seq<char>>::empty(),
            r.textures.names() == Seq::<Seq<char>>::empty(),
            r.materials.names() == Seq::<Seq<char>>::empty(),
            r.render_pipelines.names() == Seq::<Seq<char>>::empty(),
            r.shaders.names() == Seq::<Seq<char>>::empty(),
    {
        let meshes = Pool::new();
        let textures = Pool::new();
        let materials = Pool::new();
        let render_pipelines = Pool::new();
        let shaders = Pool::new();
        AssetManager { meshes, textures, materials, render_pipelines, shaders }
    }

    /// Appends `asset` to the pool its own tag selects, under `name`.
    ///
    /// Returns a handle whose slot is the entry's positional index in
    /// that pool, whose name is the given name, and whose kind tag is the
    /// caller-supplied `asset_type`.  Only the selected pool changes.
    pub fn insert_asset(&mut self, asset: Asset, asset_type: AssetType, name: &str) -> (r: AssetRef)
        requires
            old(self).wf(),
        ensures
            final(self).wf(),
            r.asset_type == asset_type,
            r.id is Some,
            r.name is Some,
            r.name->0@ == name@,
            (match asset {
                Asset::Mesh(m) => {
                    &&& insert_post(old(self).meshes, final(self).meshes, name@, m, r.id->0)
                    &&& final(self).textures == old(self).textures
                    &&& final(self).materials == old(self).materials
                    &&& final(self).render_pipelines == old(self).render_pipelines
                    &&& final(self).shaders == old(self).shaders
                },
                Asset::Texture(t) => {
                    &&& insert_post(old(self).textures, final(self).textures, name@, t, r.id->0)
                    &&& final(self).meshes == old(self).meshes
                    &&& final(self).materials == old(self).materials
                    &&& final(self).render_pipelines == old(self).render_pipelines
                    &&& final(self).shaders == old(self).shaders
                },
                Asset::Material(m) => {
                    &&& insert_post(old(self).materials, final(self).materials, name@, m, r.id->0)
                    &&& final(self).meshes == old(self).meshes
                    &&& final(self).textures == old(self).textures
                    &&& final(self).render_pipelines == old(self).render_pipelines
                    &&& final(self).shaders == old(self).shaders
                },
                Asset::Shader(s) => {
                    &&& insert_post(old(self).shaders, final(self).shaders, name@, s, r.id->0)
                    &&& final(self).meshes == old(self).meshes
                    &&& final(self).textures == old(self).textures
                    &&& final(self).materials == old(self).materials
                    &&& final(self).render_pipelines == old(self).render_pipelines
                },
                Asset::RenderPipeline(p) => {
                    &&& insert_post(
                        old(self).render_pipelines,
                        final(self).render_pipelines,
                        name@,
                        p,
                        r.id->0,
                    )
                    &&& final(self).meshes == old(self).meshes
                    &&& final(self).textures == old(self).textures
                    &&& final(self).materials == old(self).materials
                    &&& final(self).shaders == old(self).shaders
                },
            }),
    {
        let id: usize = match asset {
            Asset::Mesh(m) => self.meshes.insert(name.to_owned(), m),
            Asset::Texture(t) => self.textures.insert(name.to_owned(), t),
            Asset::Material(m) => self.materials.insert(name.to_owned(), m),
            Asset::Shader(s) => self.shaders.insert(name.to_owned(), s),
            Asset::RenderPipeline(p) => self.render_pipelines.insert(name.to_owned(), p),
        };
        AssetRef { id: Some(id), name: Some(name.to_owned()), asset_type }
    }

    /// Resolves a texture handle.
    pub fn get_texture(&self, target: &AssetRef) -> (r: Result<&Texture, Error>)
        requires
            self.wf(),
        ensures
            (match (r, self.textures.resolve_spec(*target)) {
                (Ok(v), Ok(i)) => *v == self.textures.resources()[i],
                (Err(e), Err(e2)) => e == e2,
                _ => false,
            }),
    {
        self.textures.resolve(target)
    }

    /// Resolves a mesh handle.
    pub fn get_mesh(&self, target: &AssetRef) -> (r: Result<&Mesh, Error>)
        requires
            self.wf(),
        ensures
            (match (r, self.meshes.resolve_spec(*target)) {
                (Ok(v), Ok(i)) => *v == self.meshes.resources()[i],
                (Err(e), Err(e2)) => e == e2,
                _ => false,
            }),
    {
        self.meshes.resolve(target)
    }

    /// Resolves a material handle.
    pub fn get_material(&self, target: &AssetRef) -> (r: Result<&Material, Error>)
        requires
            self.wf(),
        ensures
            (match (r, self.materials.resolve_spec(*target)) {
                (Ok(v), Ok(i)) => *v == self.materials.resources()[i],
                (Err(e), Err(e2)) => e == e2,
                _ => false,
            }),
    {
        self.materials.resolve(target)
    }

    /// Resolves a render-pipeline handle.
    pub fn get_pipeline(&self, target: &AssetRef) -> (r: Result<&RenderPipeline, Error>)
        requires
            self.wf(),
        ensures
            (match (r, self.render_pipelines.resolve_spec(*target)) {
                (Ok(v), Ok(i)) => *v == self.render_pipelines.resources()[i],
                (Err(e), Err(e2)) => e == e2,
                _ => false,
            }),
    {
        self.render_pipelines.resolve(target)
    }
}

} // verus!
