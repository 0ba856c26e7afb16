use wvreng::{Asset, AssetManager, AssetRef, AssetType, Error, Material, Mesh, RenderPipeline, Texture};

fn sample_texture(id: u64, with_bind_group: bool) -> Texture {
    Texture {
        texture: id,
        view: id + 1,
        sampler: id + 2,
        bind_group: if with_bind_group { Some(id + 3) } else { None },
    }
}

#[test]
fn insert_returns_slot_and_name() {
    let mut manager = AssetManager::new();
    let mesh = Mesh::new("quad", 10, 11, 6);
    let handle = manager.insert_asset(Asset::Mesh(mesh), AssetType::Mesh, "quad");
    assert_eq!(handle.id, Some(0));
    assert_eq!(handle.name.as_deref(), Some("quad"));
    assert!(matches!(handle.asset_type, AssetType::Mesh));

    let mesh2 = Mesh::new("tri", 20, 21, 3);
    let handle2 = manager.insert_asset(Asset::Mesh(mesh2), AssetType::Mesh, "tri");
    assert_eq!(handle2.id, Some(1));
}

#[test]
fn resolve_by_slot_and_by_name_agree() {
    let mut manager = AssetManager::new();
    let mesh = Mesh::new("quad", 10, 11, 6);
    let handle = manager.insert_asset(Asset::Mesh(mesh), AssetType::Mesh, "quad");

    let by_slot = AssetRef::new(handle.id, None, AssetType::Mesh);
    let by_name = AssetRef::new(None, Some(String::from("quad")), AssetType::Mesh);

    let a = manager.get_mesh(&by_slot).expect("slot lookup");
    let b = manager.get_mesh(&by_name).expect("name lookup");
    assert_eq!(a.vertex_buffer, 10);
    assert_eq!(b.vertex_buffer, 10);
    assert_eq!(a.index_buffer, b.index_buffer);
    assert_eq!(a.element_count, b.element_count);
}

#[test]
fn resolve_empty_handle_is_null_reference() {
    let mut manager = AssetManager::new();
    manager.insert_asset(
        Asset::Texture(sample_texture(1, true)),
        AssetType::Texture,
        "wall",
    );

    let empty = AssetRef::new(None, None, AssetType::Texture);
    assert!(matches!(manager.get_texture(&empty), Err(Error::NullReference)));
    let empty_mesh = AssetRef::new(None, None, AssetType::Mesh);
    assert!(matches!(manager.get_mesh(&empty_mesh), Err(Error::NullReference)));
    let empty_material = AssetRef::new(None, None, AssetType::Material);
    assert!(matches!(manager.get_material(&empty_material), Err(Error::NullReference)));
    let empty_pipeline = AssetRef::new(None, None, AssetType::RenderPipeline);
    assert!(matches!(manager.get_pipeline(&empty_pipeline), Err(Error::NullReference)));
}

#[test]
fn resolve_unknown_name_is_asset_not_found() {
    let mut manager = AssetManager::new();
    manager.insert_asset(
        Asset::Texture(sample_texture(1, true)),
        AssetType::Texture,
        "wall",
    );
    let unknown = AssetRef::new(None, Some(String::from("floor")), AssetType::Texture);
    assert!(matches!(manager.get_texture(&unknown), Err(Error::AssetNotFound)));
}

#[test]
fn out_of_range_slot_falls_back_to_name() {
    let mut manager = AssetManager::new();
    manager.insert_asset(
        Asset::Texture(sample_texture(7, true)),
        AssetType::Texture,
        "wall",
    );
    let stale = AssetRef::new(Some(17), Some(String::from("wall")), AssetType::Texture);
    let resolved = manager.get_texture(&stale).expect("name fallback");
    assert_eq!(resolved.texture, 7);
}

#[test]
fn out_of_range_slot_without_name_is_asset_not_found() {
    let mut manager = AssetManager::new();
    manager.insert_asset(
        Asset::Texture(sample_texture(7, true)),
        AssetType::Texture,
        "wall",
    );
    let stale = AssetRef::new(Some(17), None, AssetType::Texture);
    assert!(matches!(manager.get_texture(&stale), Err(Error::AssetNotFound)));
}

#[test]
fn inserting_existing_name_overwrites_in_place() {
    let mut manager = AssetManager::new();
    let first = manager.insert_asset(
        Asset::Texture(sample_texture(1, true)),
        AssetType::Texture,
        "wall",
    );
    manager.insert_asset(
        Asset::Mesh(Mesh::new("spacer", 90, 91, 3)),
        AssetType::Mesh,
        "spacer",
    );
    let second = manager.insert_asset(
        Asset::Texture(sample_texture(100, true)),
        AssetType::Texture,
        "wall",
    );
    assert_eq!(first.id, Some(0));
    assert_eq!(second.id, Some(0));
    let resolved = manager.get_texture(&second).expect("resolves");
    assert_eq!(resolved.texture, 100);
}

#[test]
fn validate_reports_present_fields() {
    let both = AssetRef::new(Some(3), Some(String::from("wall")), AssetType::Texture);
    assert_eq!(both.validate().expect("valid"), (true, true));

    let name_only = AssetRef::new(None, Some(String::from("wall")), AssetType::Texture);
    assert_eq!(name_only.validate().expect("valid"), (false, true));

    let slot_only = AssetRef::new(Some(3), None, AssetType::Texture);
    assert_eq!(slot_only.validate().expect("valid"), (true, false));

    let neither = AssetRef::new(None, None, AssetType::Texture);
    assert!(matches!(neither.validate(), Err(Error::NullReference)));
}

#[test]
fn material_round_trip_reaches_original_texture() {
    let mut manager = AssetManager::new();
    manager.insert_asset(
        Asset::Mesh(Mesh::new("plane", 40, 41, 6)),
        AssetType::Mesh,
        "plane",
    );
    let texture_handle = manager.insert_asset(
        Asset::Texture(sample_texture(55, true)),
        AssetType::Texture,
        "wall_diffuse",
    );
    manager.insert_asset(
        Asset::RenderPipeline(RenderPipeline { id: 900 }),
        AssetType::RenderPipeline,
        "Universal",
    );
    let pipeline_by_name = AssetRef::new(None, Some(String::from("Universal")), AssetType::RenderPipeline);
    let material = Material::new(pipeline_by_name, texture_handle, "wall_material");
    let material_handle = manager.insert_asset(
        Asset::Material(material),
        AssetType::Material,
        "wall_material",
    );

    let resolved_material = manager.get_material(&material_handle).expect("material");
    let diffuse = resolved_material.diffuse.clone();
    let resolved_texture = manager.get_texture(&diffuse).expect("texture");
    assert_eq!(resolved_texture.texture, 55);
    let pipeline_ref = resolved_material.render_pipeline.clone();
    let pipeline = manager.get_pipeline(&pipeline_ref).expect("pipeline");
    assert_eq!(pipeline.id, 900);
}

#[test]
fn kind_tag_is_caller_supplied() {
    let mut manager = AssetManager::new();
    let handle = manager.insert_asset(
        Asset::Mesh(Mesh::new("quad", 10, 11, 6)),
        AssetType::Texture,
        "quad",
    );
    assert!(matches!(handle.asset_type, AssetType::Texture));
    assert!(manager.get_mesh(&handle).is_ok());
}

#[test]
fn error_descriptions_are_exact() {
    assert_eq!(
        Error::FileNotFound.describe(),
        "AssetManager : File not found, make sure the file is in the correct folder"
    );
    assert_eq!(Error::FileTooLarge.describe(), "AssetManager : File too large.");
    assert_eq!(Error::WGPUUnknown.describe(), "AssetManager : Unknown error occured within WGPU");
    assert_eq!(
        Error::NullReference.describe(),
        "AssetManager : AssetRef does not contain a name OR id"
    );
    assert_eq!(Error::AssetNotFound.describe(), "AssetManager : Asset not registered");
    assert_eq!(
        Error::MissingBindGroup.describe(),
        "AssetManager : Material uses a texture without a bind group"
    );
}

#[test]
fn error_descriptions_are_distinct() {
    let errors = [
        Error::FileNotFound,
        Error::FileTooLarge,
        Error::WGPUUnknown,
        Error::NullReference,
        Error::AssetNotFound,
        Error::MissingBindGroup,
    ];
    for (i, a) in errors.iter().enumerate() {
        assert!(!a.describe().is_empty());
        for (j, b) in errors.iter().enumerate() {
            if i != j {
                assert_ne!(a.describe(), b.describe());
            }
        }
    }
}
