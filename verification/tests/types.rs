//! Tests for the vocabulary of a converted scene.

use bevy_ufbx::types::{
    FbxInterpolation, FbxLightType, FbxMeta, FbxProjectionMode, FbxTextureType, FbxWrapMode,
    Handedness,
};
use std::collections::HashSet;

#[test]
fn test_handedness_equality() {
    assert_eq!(Handedness::Right, Handedness::Right);
    assert_eq!(Handedness::Left, Handedness::Left);
    assert_ne!(Handedness::Right, Handedness::Left);
}

#[test]
fn test_fbx_meta_default() {
    let meta = FbxMeta::default();

    assert!(meta.creator.is_none());
    assert!(meta.creation_time.is_none());
    assert!(meta.original_application.is_none());
}

#[test]
fn test_fbx_wrap_mode_equality() {
    assert_eq!(FbxWrapMode::Repeat, FbxWrapMode::Repeat);
    assert_eq!(FbxWrapMode::Clamp, FbxWrapMode::Clamp);
    assert_ne!(FbxWrapMode::Repeat, FbxWrapMode::Clamp);
}

#[test]
fn test_fbx_texture_type_hash() {
    let mut set = HashSet::new();
    set.insert(FbxTextureType::BaseColor);
    set.insert(FbxTextureType::Normal);
    set.insert(FbxTextureType::Metallic);

    assert!(set.contains(&FbxTextureType::BaseColor));
    assert!(set.contains(&FbxTextureType::Normal));
    assert!(set.contains(&FbxTextureType::Metallic));
    assert!(!set.contains(&FbxTextureType::Roughness));
}

#[test]
fn test_fbx_light_type_equality() {
    assert_eq!(FbxLightType::Directional, FbxLightType::Directional);
    assert_eq!(FbxLightType::Point, FbxLightType::Point);
    assert_eq!(FbxLightType::Spot, FbxLightType::Spot);
    assert_ne!(FbxLightType::Point, FbxLightType::Spot);
}

#[test]
fn test_fbx_projection_mode_equality() {
    assert_eq!(
        FbxProjectionMode::Perspective,
        FbxProjectionMode::Perspective
    );
    assert_eq!(
        FbxProjectionMode::Orthographic,
        FbxProjectionMode::Orthographic
    );
    assert_ne!(
        FbxProjectionMode::Perspective,
        FbxProjectionMode::Orthographic
    );
}

#[test]
fn test_fbx_interpolation_equality() {
    assert_eq!(FbxInterpolation::Constant, FbxInterpolation::Constant);
    assert_eq!(FbxInterpolation::Linear, FbxInterpolation::Linear);
    assert_eq!(FbxInterpolation::Cubic, FbxInterpolation::Cubic);
    assert_ne!(FbxInterpolation::Linear, FbxInterpolation::Cubic);
}
