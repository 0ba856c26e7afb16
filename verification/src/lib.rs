pub mod asset_manager;
pub mod assets;
pub mod camera;
pub mod color;
pub mod frame;
pub mod light;
pub mod math;
pub mod mesh_primitives;
pub mod model;
pub mod pool;
pub mod renderer;
pub mod resources;
pub mod sprite;
pub mod transform;

pub use asset_manager::{Asset, AssetManager};
pub use assets::{AssetRef, AssetType, Error};
pub use camera::Camera;
pub use color::Color;
pub use frame::{build_frame_plan, DrawStep, FramePlan, LightUpdate};
pub use light::{Light, LightUniform};
pub use math::{
    Axis, Conversions, EulerRotation, Mat4Fx, Position, QuatFx, Rotation, Vec2Fx, Vec3Fx, Vec4Fx,
};
pub use mesh_primitives::{MeshData, MeshPrimitives, Vertex};
pub use model::Model;
pub use pool::Pool;
pub use renderer::{DrawCall, FrameAction, InstanceRaw, Renderable, Renderer, SurfaceErrorKind};
pub use resources::{ImageData, Material, Mesh, RenderPipeline, ShaderModule, Texture};
pub use sprite::Sprite;
pub use transform::Transform;
