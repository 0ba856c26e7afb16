//! The render-resident resource records the registry owns.
//!
//! GPU objects themselves (buffers, images, samplers, bind groups,
//! compiled pipelines, shader modules) are opaque to this library; each is
//! stood for by a numeric identifier handed out by whatever owns the
//! device.  A record here holds those identifiers together with the plain
//! data the submission logic reads: an element count, the presence of a
//! bind group, the handles a material is composed of.

use vstd::prelude::*;

use crate::assets::{AssetRef, Error};

verus! {

/// An immutable mesh: GPU vertex/index buffers plus the number of index
/// elements one indexed draw of the full mesh covers.
pub struct Mesh {
    pub name: String,
    pub vertex_buffer: u64,
    pub index_buffer: u64,
    pub element_count: u32,
}

impl Mesh {
    /// Builds a mesh record over already-uploaded vertex and index
    /// buffers; `element_count` is the length of the index array.
    pub fn new(name: &str, vertex_buffer: u64, index_buffer: u64, element_count: u32) -> (r: Mesh)
        ensures
            r.name@ == name@,
            r.vertex_buffer == vertex_buffer,
            r.index_buffer == index_buffer,
            r.element_count == element_count,
    {
        Mesh { name: name.to_owned(), vertex_buffer, index_buffer, element_count }
    }
}

/// An immutable GPU image with its sampler, and a bind group when the
/// texture is meant to be sampled by shaders.  A texture created only as
/// a render target (a depth target, say) has no bind group and must never
/// be referenced by a material.
pub struct Texture {
    pub texture: u64,
    pub view: u64,
    pub sampler: u64,
    pub bind_group: Option<u64>,
}

/// A named bundle referencing exactly one render pipeline and one diffuse
/// texture by handle; it owns no GPU state of its own.
pub struct Material {
    pub name: String,
    pub render_pipeline: AssetRef,
    pub diffuse: AssetRef,
}

impl Material {
    /// Composes a material from a pipeline handle and a diffuse-texture
    /// handle.
    pub fn new(render_pipeline: AssetRef, diffuse: AssetRef, name: &str) -> (r: Material)
        ensures
            r.name@ == name@,
            r.render_pipeline == render_pipeline,
            r.diffuse == diffuse,
    {
        Material { name: name.to_owned(), render_pipeline, diffuse }
    }
}

/// An immutable compiled GPU pipeline object, stood for by its identifier.
pub struct RenderPipeline {
    pub id: u64,
}

/// A compiled shader module, stood for by its identifier.
pub struct ShaderModule {
    pub id: u64,
}

/// A decoded image: RGBA8 pixel bytes in row-major order.
pub struct ImageData {
    pub width: u32,
    pub height: u32,
    pub pixels: Vec<u8>,
}

impl ImageData {
    /// Four bytes per pixel.
    pub open spec fn wf(&self) -> bool {
        self.pixels@.len() == 4 * (self.width as int) * (self.height as int)
    }
}

/// The RGBA8 decoding of an encoded image: width, height and pixel bytes,
/// or `None` when the bytes are not a decodable image.  The decoding is a
/// function of the bytes alone.
pub uninterp spec fn rgba_decoding(bytes: Seq<u8>) -> Option<(u32, u32, Seq<u8>)>;

/// Relies on `image::load_from_memory` to decode the bytes (guessing the
/// format) and on `DynamicImage::to_rgba8`, whose buffer holds exactly
/// `width * height * 4` bytes.
#[verifier::external_body]
fn decode_rgba(bytes: &Vec<u8>) -> (r: Option<ImageData>)
    ensures
        (match r {
            Some(img) => {
                &&& rgba_decoding(bytes@) == Some((img.width, img.height, img.pixels@))
                &&& img.pixels@.len() == 4 * (img.width as int) * (img.height as int)
            },
            None => rgba_decoding(bytes@) is None,
        }),
{
    match image::load_from_memory(bytes) {
        Ok(img) => {
            let rgba = img.to_rgba8();
            let (width, height) = (rgba.width(), rgba.height());
            Some(ImageData { width, height, pixels: rgba.into_raw() })
        },
        Err(_) => None,
    }
}

impl Texture {
    /// Decodes encoded image bytes to RGBA8 pixel data, failing with the
    /// generic backend error when the bytes are not a decodable image.
    pub fn decode_bytes(bytes: &Vec<u8>) -> (r: Result<ImageData, Error>)
        ensures
            (match r {
                Ok(img) => {
                    &&& rgba_decoding(bytes@) == Some((img.width, img.height, img.pixels@))
                    &&& img.wf()
                },
                Err(e) => {
                    &&& rgba_decoding(bytes@) is None
                    &&& e == Error::WGPUUnknown
                },
            }),
    {
        match decode_rgba(bytes) {
            Some(img) => Ok(img),
            None => Err(Error::WGPUUnknown),
        }
    }
}

} // verus!
