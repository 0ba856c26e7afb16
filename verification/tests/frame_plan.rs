use wvreng::{
    build_frame_plan, Asset, AssetManager, AssetRef, AssetType, Color, DrawStep, Error, Light,
    Material, Mesh, RenderPipeline, Sprite, Texture, Transform, Vec3Fx, Vec4Fx,
};

const FX: i64 = 65536;

/// A registry holding one mesh, two sampleable textures, two pipelines
/// and two materials (one per pipeline).
fn scene_registry() -> AssetManager {
    let mut manager = AssetManager::new();
    manager.insert_asset(
        Asset::Mesh(Mesh::new("plane", 40, 41, 6)),
        AssetType::Mesh,
        "plane",
    );
    manager.insert_asset(
        Asset::Texture(Texture { texture: 1, view: 2, sampler: 3, bind_group: Some(4) }),
        AssetType::Texture,
        "wall_diffuse",
    );
    manager.insert_asset(
        Asset::Texture(Texture { texture: 5, view: 6, sampler: 7, bind_group: Some(8) }),
        AssetType::Texture,
        "icon_diffuse",
    );
    manager.insert_asset(
        Asset::RenderPipeline(RenderPipeline { id: 900 }),
        AssetType::RenderPipeline,
        "Universal",
    );
    manager.insert_asset(
        Asset::RenderPipeline(RenderPipeline { id: 901 }),
        AssetType::RenderPipeline,
        "Debug Icon",
    );
    let universal = AssetRef::new(None, Some(String::from("Universal")), AssetType::RenderPipeline);
    let debug_icon =
        AssetRef::new(None, Some(String::from("Debug Icon")), AssetType::RenderPipeline);
    let wall_tex = AssetRef::new(None, Some(String::from("wall_diffuse")), AssetType::Texture);
    let icon_tex = AssetRef::new(None, Some(String::from("icon_diffuse")), AssetType::Texture);
    manager.insert_asset(
        Asset::Material(Material::new(universal, wall_tex, "wall_material")),
        AssetType::Material,
        "wall_material",
    );
    manager.insert_asset(
        Asset::Material(Material::new(debug_icon, icon_tex, "icon_material")),
        AssetType::Material,
        "icon_material",
    );
    manager
}

fn sprite(material_name: &str) -> Sprite {
    Sprite::new(
        AssetRef::new(None, Some(String::from(material_name)), AssetType::Material),
        AssetRef::new(None, Some(String::from("plane")), AssetType::Mesh),
    )
}

fn draw_count(steps: &[DrawStep]) -> usize {
    steps.iter().filter(|s| matches!(s, DrawStep::Draw { .. })).count()
}

fn bind_count(steps: &[DrawStep]) -> usize {
    steps.iter().filter(|s| matches!(s, DrawStep::BindPipeline { .. })).count()
}

#[test]
fn first_camera_alone_decides_the_frame() {
    let manager = scene_registry();
    let first_camera = Transform::new(0, 0, 0);
    let far_camera = Transform::new(1000 * FX, 0, 0);

    let sprites1 = vec![(sprite("wall_material"), Transform::new(2 * FX, 0, 0))];
    let sprites2 = vec![(sprite("wall_material"), Transform::new(2 * FX, 0, 0))];

    let one_camera =
        build_frame_plan(&manager, &vec![first_camera], &vec![], &sprites1).expect("plan");
    let two_cameras =
        build_frame_plan(&manager, &vec![first_camera, far_camera], &vec![], &sprites2)
            .expect("plan");

    assert_eq!(one_camera.active_camera, Some(0));
    assert_eq!(two_cameras.active_camera, Some(0));
    assert_eq!(one_camera.steps, two_cameras.steps);
    assert_eq!(one_camera.light_updates, two_cameras.light_updates);
}

#[test]
fn culling_boundary_is_exclusive_at_100_units() {
    let manager = scene_registry();
    let camera = Transform::new(0, 0, 0);

    // Exactly 100 units away: excluded.
    let at_boundary = vec![(sprite("wall_material"), Transform::new(100 * FX, 0, 0))];
    let plan = build_frame_plan(&manager, &vec![camera], &vec![], &at_boundary).expect("plan");
    assert_eq!(draw_count(&plan.steps), 0);

    // 99.9 units away: included.
    let inside = vec![(sprite("wall_material"), Transform::new(6547046, 0, 0))];
    let plan = build_frame_plan(&manager, &vec![camera], &vec![], &inside).expect("plan");
    assert_eq!(draw_count(&plan.steps), 1);

    // Just under the boundary: included.
    let just_inside = vec![(sprite("wall_material"), Transform::new(100 * FX - 1, 0, 0))];
    let plan = build_frame_plan(&manager, &vec![camera], &vec![], &just_inside).expect("plan");
    assert_eq!(draw_count(&plan.steps), 1);
}

#[test]
fn adjacent_same_pipeline_draws_share_one_bind() {
    let manager = scene_registry();
    let camera = Transform::new(0, 0, 0);
    let sprites = vec![
        (sprite("wall_material"), Transform::new(FX, 0, 0)),
        (sprite("wall_material"), Transform::new(2 * FX, 0, 0)),
    ];
    let plan = build_frame_plan(&manager, &vec![camera], &vec![], &sprites).expect("plan");
    assert_eq!(draw_count(&plan.steps), 2);
    assert_eq!(bind_count(&plan.steps), 1);
    assert!(matches!(plan.steps[0], DrawStep::BindPipeline { pipeline: 900 }));
}

#[test]
fn pipeline_change_rebinds() {
    let manager = scene_registry();
    let camera = Transform::new(0, 0, 0);
    let sprites = vec![
        (sprite("wall_material"), Transform::new(FX, 0, 0)),
        (sprite("icon_material"), Transform::new(2 * FX, 0, 0)),
        (sprite("wall_material"), Transform::new(3 * FX, 0, 0)),
    ];
    let plan = build_frame_plan(&manager, &vec![camera], &vec![], &sprites).expect("plan");
    assert_eq!(draw_count(&plan.steps), 3);
    assert_eq!(bind_count(&plan.steps), 3);
    assert!(matches!(plan.steps[0], DrawStep::BindPipeline { pipeline: 900 }));
    assert!(matches!(plan.steps[2], DrawStep::BindPipeline { pipeline: 901 }));
    assert!(matches!(plan.steps[4], DrawStep::BindPipeline { pipeline: 900 }));
}

#[test]
fn culled_sprites_cause_no_draw_and_no_bind() {
    let manager = scene_registry();
    let camera = Transform::new(0, 0, 0);
    let sprites = vec![
        (sprite("wall_material"), Transform::new(500 * FX, 0, 0)),
        (sprite("wall_material"), Transform::new(0, 600 * FX, 0)),
    ];
    let plan = build_frame_plan(&manager, &vec![camera], &vec![], &sprites).expect("plan");
    assert!(plan.steps.is_empty());
}

#[test]
fn draw_call_carries_mesh_texture_and_instance() {
    let manager = scene_registry();
    let camera = Transform::new(0, 0, 0);
    let sprites = vec![(sprite("wall_material"), Transform::new(2 * FX, 0, 0))];
    let plan = build_frame_plan(&manager, &vec![camera], &vec![], &sprites).expect("plan");
    match &plan.steps[1] {
        DrawStep::Draw { call } => {
            assert_eq!(call.vertex_buffer, 40);
            assert_eq!(call.index_buffer, 41);
            assert_eq!(call.element_count, 6);
            assert_eq!(call.texture_bind_group, 4);
            // Identity rotation, unit scale: a pure translation matrix.
            assert_eq!(call.instance.model.x_axis, Vec4Fx { x: FX, y: 0, z: 0, w: 0 });
            assert_eq!(call.instance.model.y_axis, Vec4Fx { x: 0, y: FX, z: 0, w: 0 });
            assert_eq!(call.instance.model.z_axis, Vec4Fx { x: 0, y: 0, z: FX, w: 0 });
            assert_eq!(call.instance.model.w_axis, Vec4Fx { x: 2 * FX, y: 0, z: 0, w: FX });
        },
        other => panic!("expected a draw, got {:?}", other),
    }
}

#[test]
fn missing_bind_group_fails_the_frame() {
    let mut manager = scene_registry();
    manager.insert_asset(
        Asset::Texture(Texture { texture: 70, view: 71, sampler: 72, bind_group: None }),
        AssetType::Texture,
        "depth_only",
    );
    let universal = AssetRef::new(None, Some(String::from("Universal")), AssetType::RenderPipeline);
    let depth_tex = AssetRef::new(None, Some(String::from("depth_only")), AssetType::Texture);
    manager.insert_asset(
        Asset::Material(Material::new(universal, depth_tex, "bad_material")),
        AssetType::Material,
        "bad_material",
    );
    let camera = Transform::new(0, 0, 0);
    let sprites = vec![(sprite("bad_material"), Transform::new(FX, 0, 0))];
    let result = build_frame_plan(&manager, &vec![camera], &vec![], &sprites);
    assert!(matches!(result, Err(Error::MissingBindGroup)));
}

#[test]
fn unresolvable_material_fails_the_frame() {
    let manager = scene_registry();
    let camera = Transform::new(0, 0, 0);
    let sprites = vec![(sprite("no_such_material"), Transform::new(FX, 0, 0))];
    let result = build_frame_plan(&manager, &vec![camera], &vec![], &sprites);
    assert!(matches!(result, Err(Error::AssetNotFound)));
}

#[test]
fn no_camera_culls_from_the_origin_with_no_active_camera() {
    let manager = scene_registry();
    let sprites = vec![
        (sprite("wall_material"), Transform::new(FX, 0, 0)),
        (sprite("wall_material"), Transform::new(200 * FX, 0, 0)),
    ];
    let plan = build_frame_plan(&manager, &vec![], &vec![], &sprites).expect("plan");
    assert_eq!(plan.active_camera, None);
    assert_eq!(draw_count(&plan.steps), 1);
}

#[test]
fn every_light_gets_an_update_in_order() {
    let manager = scene_registry();
    let camera = Transform::new(0, 0, 0);
    let lights = vec![
        (Light::new(Color::blue(), 5 * FX, 300, 301), Transform::new(0, 2 * FX, 0)),
        (Light::new(Color::red(), 2 * FX, 310, 311), Transform::new(FX, 0, 0)),
    ];
    let plan = build_frame_plan(&manager, &vec![camera], &lights, &vec![]).expect("plan");
    assert_eq!(plan.light_updates.len(), 2);
    assert_eq!(plan.light_updates[0].index, 0);
    assert_eq!(plan.light_updates[0].buffer, 300);
    assert_eq!(plan.light_updates[0].bind_group, 301);
    assert_eq!(plan.light_updates[0].uniform.position, Vec3Fx { x: 0, y: 2 * FX, z: 0 });
    assert_eq!(plan.light_updates[0].uniform.color, Color::blue());
    assert_eq!(plan.light_updates[1].index, 1);
    assert_eq!(plan.light_updates[1].uniform.position, Vec3Fx { x: FX, y: 0, z: 0 });
    assert_eq!(plan.light_updates[1].uniform.color, Color::red());
}
