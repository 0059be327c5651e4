//! Conversion of a parsed FBX scene into renderer-agnostic scene data.
//!
//! The conversion works on the integers, flags and names of the parsed scene
//! ([`source`]) and puts out plain data: the triangles of each mesh,
//! partitioned by material ([`partition`], [`mesh`]), the skin influences of
//! each vertex ([`skinning`]), the resolved materials and the paths of their
//! textures ([`material`], [`path`]), the nodes and skins ([`node`]), and the
//! scene that places the meshes and lights ([`scene`]). [`loader`] runs the
//! stages in order. Polygons are triangulated by the FBX library
//! ([`triangulate`]).
//!
//! Coordinates, colors and weights are never read here. Where the output
//! speaks of them it says where they stand in the parsed scene.

pub mod error;
pub mod label;
pub mod loader;
pub mod material;
pub mod mesh;
pub mod names;
pub mod node;
pub mod partition;
pub mod path;
pub mod scene;
pub mod skinning;
pub mod source;
pub mod text;
pub mod triangulate;
pub mod types;

pub use error::FbxError;
pub use label::FbxAssetLabel;
pub use loader::{convert_scene, AssetUsages, FbxLoaderSettings};
pub use types::{
    Fbx, FbxInterpolation, FbxLightType, FbxMeta, FbxNode, FbxProjectionMode, FbxSkin, FbxTextureType,
    FbxWrapMode, Handedness, Skeleton,
};
