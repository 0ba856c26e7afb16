use wvreng::math::{dist_sq, fx_mul};
use wvreng::renderer::surface_error_action;
use wvreng::{
    Camera, Color, Conversions, Error, FrameAction, Light, MeshData, MeshPrimitives, QuatFx,
    Renderer, Sprite, SurfaceErrorKind, Texture, Transform, Vec2Fx, Vec3Fx, Vec4Fx,
};

const FX: i64 = 65536;

#[test]
fn instance_matrix_of_pure_translation() {
    // Position (2, 0, 0), identity rotation, unit scale: the identity
    // matrix with translation column (2, 0, 0, 1).
    let transform = Transform::new(2 * FX, 0, 0);
    let raw = Sprite::to_instance_raw(&transform);
    assert_eq!(raw.model.x_axis, Vec4Fx { x: FX, y: 0, z: 0, w: 0 });
    assert_eq!(raw.model.y_axis, Vec4Fx { x: 0, y: FX, z: 0, w: 0 });
    assert_eq!(raw.model.z_axis, Vec4Fx { x: 0, y: 0, z: FX, w: 0 });
    assert_eq!(raw.model.w_axis, Vec4Fx { x: 2 * FX, y: 0, z: 0, w: FX });
}

#[test]
fn instance_matrix_of_half_turn_about_y() {
    // A half turn about y: quaternion (0, 1, 0, 0).  x and z flip.
    let mut transform = Transform::new(0, 0, 3 * FX);
    transform.rotation = QuatFx { x: 0, y: FX, z: 0, w: 0 };
    let raw = Sprite::to_instance_raw(&transform);
    assert_eq!(raw.model.x_axis, Vec4Fx { x: -FX, y: 0, z: 0, w: 0 });
    assert_eq!(raw.model.y_axis, Vec4Fx { x: 0, y: FX, z: 0, w: 0 });
    assert_eq!(raw.model.z_axis, Vec4Fx { x: 0, y: 0, z: -FX, w: 0 });
    assert_eq!(raw.model.w_axis, Vec4Fx { x: 0, y: 0, z: 3 * FX, w: FX });
}

#[test]
fn instance_matrix_composes_the_transform_scale() {
    // Scale (2, 2, 2), identity rotation, position (1, 0, 0): the
    // rotation block is scaled, the translation column is not.
    let mut transform = Transform::new(FX, 0, 0);
    transform.scale = Vec3Fx { x: 2 * FX, y: 2 * FX, z: 2 * FX };
    let raw = Sprite::to_instance_raw(&transform);
    assert_eq!(raw.model.x_axis, Vec4Fx { x: 2 * FX, y: 0, z: 0, w: 0 });
    assert_eq!(raw.model.y_axis, Vec4Fx { x: 0, y: 2 * FX, z: 0, w: 0 });
    assert_eq!(raw.model.z_axis, Vec4Fx { x: 0, y: 0, z: 2 * FX, w: 0 });
    assert_eq!(raw.model.w_axis, Vec4Fx { x: FX, y: 0, z: 0, w: FX });
}

#[test]
fn generate_instance_buffer_maps_each_transform() {
    let transforms = vec![Transform::new(FX, 0, 0), Transform::new(0, FX, 0)];
    let data = Sprite::generate_instance_buffer(&transforms);
    assert_eq!(data.len(), 2);
    assert_eq!(data[0].model.w_axis, Vec4Fx { x: FX, y: 0, z: 0, w: FX });
    assert_eq!(data[1].model.w_axis, Vec4Fx { x: 0, y: FX, z: 0, w: FX });
}

#[test]
fn resize_zero_is_a_no_op_and_nonzero_reconfigures() {
    let mut renderer = Renderer::new(640, 480);
    assert_eq!(renderer.config_width, 640);
    assert_eq!(renderer.depth_height, 480);

    let applied = renderer.resize(0, 0);
    assert!(!applied);
    assert_eq!(renderer.config_width, 640);
    assert_eq!(renderer.config_height, 480);
    assert_eq!(renderer.depth_width, 640);
    assert_eq!(renderer.depth_height, 480);

    let applied = renderer.resize(800, 600);
    assert!(applied);
    assert_eq!(renderer.config_width, 800);
    assert_eq!(renderer.config_height, 600);
    assert_eq!(renderer.depth_width, 800);
    assert_eq!(renderer.depth_height, 600);
    assert_eq!(renderer.size_width, 800);
    assert_eq!(renderer.size_height, 600);

    let applied = renderer.resize(800, 0);
    assert!(!applied);
    assert_eq!(renderer.config_width, 800);
    assert_eq!(renderer.config_height, 600);
}

#[test]
fn fixed_point_multiply_truncates_toward_zero() {
    // 1.5 * 0.5 == 0.75
    assert_eq!(fx_mul(3 * FX / 2, FX / 2), 3 * FX / 4);
    // -1.5 * 0.5 == -0.75
    assert_eq!(fx_mul(-3 * FX / 2, FX / 2), -3 * FX / 4);
    // The smallest magnitudes truncate toward zero from both sides.
    assert_eq!(fx_mul(1, 1), 0);
    assert_eq!(fx_mul(-1, 1), 0);
    assert_eq!(fx_mul(FX, FX), FX);
}

#[test]
fn squared_distance_is_exact() {
    let a = Vec3Fx { x: 3, y: 4, z: 0 };
    let b = Vec3Fx { x: 0, y: 0, z: 0 };
    assert_eq!(dist_sq(&a, &b), 25);
    let c = Vec3Fx { x: -2 * FX, y: 0, z: 2 * FX };
    let d = Vec3Fx { x: 2 * FX, y: 0, z: -2 * FX };
    let side = 4i128 * FX as i128;
    assert_eq!(dist_sq(&c, &d), 2 * side * side);
}

#[test]
fn surface_error_policy() {
    assert_eq!(surface_error_action(&SurfaceErrorKind::Lost), FrameAction::Reconfigure);
    assert_eq!(surface_error_action(&SurfaceErrorKind::OutOfMemory), FrameAction::Exit);
    assert_eq!(surface_error_action(&SurfaceErrorKind::Timeout), FrameAction::SkipFrame);
    assert_eq!(surface_error_action(&SurfaceErrorKind::Outdated), FrameAction::SkipFrame);
}

#[test]
fn camera_resize_updates_only_dimensions() {
    let mut camera = Camera::new(640, 480, 45 * FX, FX / 10, 100 * FX, 10, 11);
    camera.resize(1920, 1080);
    assert_eq!(camera.width, 1920);
    assert_eq!(camera.height, 1080);
    assert_eq!(camera.fovy, 45 * FX);
    assert_eq!(camera.znear, FX / 10);
    assert_eq!(camera.zfar, 100 * FX);
    assert_eq!(camera.buffer, 10);
    assert_eq!(camera.bind_group, 11);
}

#[test]
fn light_uniform_starts_green_and_updates_to_own_color() {
    let mut light = Light::new(Color::blue(), 5 * FX, 20, 21);
    assert_eq!(light.uniform.color, Color::green());
    assert_eq!(light.uniform.position, Vec3Fx { x: 0, y: 0, z: 0 });

    let transform = Transform::new(0, 2 * FX, 0);
    light.update_uniform(&transform);
    assert_eq!(light.uniform.color, Color::blue());
    assert_eq!(light.uniform.position, Vec3Fx { x: 0, y: 2 * FX, z: 0 });
}

#[test]
fn color_defaults_to_white() {
    assert_eq!(Color::default(), Color::white());
    assert_eq!(Color::new(1, 2, 3, 4), Color { r: 1, g: 2, b: 3, a: 4 });
}

#[test]
fn degrees_to_radians_in_fixed_point() {
    // One degree is 1144 fixed-point radians (round(pi / 180 * 65536)).
    assert_eq!((FX).to_rad(), 1144);
    assert_eq!((180 * FX).to_rad(), 180 * 1144);
    assert_eq!((-90 * FX).to_rad(), -90 * 1144);
    assert_eq!(0i64.to_rad(), 0);
}

#[test]
fn rotation_to_rad_converts_each_component() {
    let transform = Transform::new(0, 0, 0);
    let rad = transform.rotation_to_rad(Vec3Fx { x: 90 * FX, y: -45 * FX, z: 0 });
    assert_eq!(rad, Vec3Fx { x: 90 * 1144, y: -45 * 1144, z: 0 });
}

#[test]
fn cube_has_36_in_range_indices() {
    let cube = MeshPrimitives::cube("box");
    assert_eq!(cube.name, "box");
    assert_eq!(cube.vertices.len(), 8);
    assert_eq!(cube.indices.len(), 36);
    assert!(cube.check_indices());
    assert_eq!(&cube.indices[0..6], &[2, 6, 7, 2, 3, 7]);
    assert_eq!(cube.vertices[0].position, Vec3Fx { x: -FX / 2, y: -FX / 2, z: FX / 2 });
    assert_eq!(cube.vertices[7].position, Vec3Fx { x: FX / 2, y: FX / 2, z: -FX / 2 });
}

#[test]
fn triangle_and_plane_topology() {
    let triangle = MeshPrimitives::triangle("tri");
    assert_eq!(triangle.vertices.len(), 3);
    assert_eq!(triangle.indices, vec![0, 1, 2]);
    assert!(triangle.check_indices());

    let plane = MeshPrimitives::plane("plane");
    assert_eq!(plane.vertices.len(), 4);
    assert_eq!(plane.indices, vec![0, 1, 2, 2, 3, 0]);
    assert!(plane.check_indices());
    assert_eq!(plane.vertices[0].uvs, Vec2Fx { x: FX, y: 0 });
    assert_eq!(plane.vertices[0].normal, Vec3Fx { x: 0, y: 0, z: FX });
}

#[test]
fn out_of_range_indices_are_rejected() {
    let bad = MeshData {
        name: String::from("bad"),
        vertices: MeshPrimitives::triangle("tri").vertices,
        indices: vec![0, 1, 3],
    };
    assert!(!bad.check_indices());
}

#[test]
fn sprite_default_references_default_assets_by_name() {
    let sprite = Sprite::default();
    assert_eq!(sprite.mesh.id, None);
    assert_eq!(sprite.mesh.name.as_deref(), Some("default_sprite_plane"));
    assert_eq!(sprite.material.name.as_deref(), Some("default_material"));
    assert!(sprite.instance_buffer.is_none());
}

#[test]
fn decode_roundtrip_recovers_pixels() {
    // Encode a 2x1 RGBA image to PNG, then decode it through the
    // library: the pixel bytes and dimensions must come back.
    let mut image = image::RgbaImage::new(2, 1);
    image.put_pixel(0, 0, image::Rgba([255, 0, 0, 255]));
    image.put_pixel(1, 0, image::Rgba([0, 128, 64, 200]));
    let mut bytes: Vec<u8> = Vec::new();
    image
        .write_to(&mut std::io::Cursor::new(&mut bytes), image::ImageOutputFormat::Png)
        .expect("encode");

    let decoded = Texture::decode_bytes(&bytes).expect("decode");
    assert_eq!(decoded.width, 2);
    assert_eq!(decoded.height, 1);
    assert_eq!(decoded.pixels, vec![255, 0, 0, 255, 0, 128, 64, 200]);
}

#[test]
fn decoding_junk_is_a_backend_error() {
    let junk = vec![1u8, 2, 3, 4, 5];
    assert!(matches!(Texture::decode_bytes(&junk), Err(Error::WGPUUnknown)));
}
