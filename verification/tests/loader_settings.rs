//! Tests for the loader settings.

use bevy_ufbx::{AssetUsages, FbxLoaderSettings};

#[test]
fn test_loader_settings_default() {
    let settings = FbxLoaderSettings::default();

    assert_eq!(settings.load_meshes, AssetUsages::default());
    assert_eq!(settings.load_materials, AssetUsages::default());
    assert!(settings.load_cameras);
    assert!(settings.load_lights);
    assert!(!settings.include_source);
    assert!(!settings.convert_coordinates);
}

#[test]
fn test_loader_settings_custom() {
    let settings = FbxLoaderSettings {
        load_meshes: AssetUsages::render_world(),
        load_materials: AssetUsages::main_world(),
        load_cameras: false,
        load_lights: false,
        include_source: true,
        convert_coordinates: true,
    };

    assert_eq!(settings.load_meshes, AssetUsages::render_world());
    assert_eq!(settings.load_materials, AssetUsages::main_world());
    assert!(!settings.load_cameras);
    assert!(!settings.load_lights);
    assert!(settings.include_source);
    assert!(settings.convert_coordinates);
}

#[test]
fn test_asset_usages_default_is_both_worlds() {
    let usages = AssetUsages::default();
    assert!(usages.main_world);
    assert!(usages.render_world);
    assert_ne!(AssetUsages::main_world(), AssetUsages::render_world());
    assert!(AssetUsages::main_world().main_world);
    assert!(!AssetUsages::main_world().render_world);
    assert!(AssetUsages::render_world().render_world);
    assert!(!AssetUsages::render_world().main_world);
}
