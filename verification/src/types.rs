//! The vocabulary of a converted scene.

use vstd::prelude::*;
use crate::material::ResolvedMaterial;
use crate::mesh::ResolvedMesh;
use crate::names::NameIndex;
use crate::scene::SceneOutput;

verus! {

/// Handedness of a coordinate system.
#[derive(Debug, Clone, Copy, PartialEq, Eq, Structural)]
pub enum Handedness {
    Right,
    Left,
}

/// Texture wrapping modes.
#[derive(Debug, Clone, Copy, PartialEq, Eq, Structural)]
pub enum FbxWrapMode {
    Repeat,
    Clamp,
}

/// The uses a texture can be bound for.
#[derive(Debug, Clone, Copy, PartialEq, Eq, Hash, Structural)]
pub enum FbxTextureType {
    BaseColor,
    Normal,
    Metallic,
    Roughness,
    Emission,
    AmbientOcclusion,
    Height,
}

/// Light types.
#[derive(Debug, Clone, Copy, PartialEq, Eq, Structural)]
pub enum FbxLightType {
    Directional,
    Point,
    Spot,
    Area,
    Volume,
}

/// Camera projection modes.
#[derive(Debug, Clone, Copy, PartialEq, Eq, Structural)]
pub enum FbxProjectionMode {
    Perspective,
    Orthographic,
}

/// Animation interpolation modes.
#[derive(Debug, Clone, Copy, PartialEq, Eq, Structural)]
pub enum FbxInterpolation {
    Constant,
    Linear,
    Cubic,
}

/// Metadata from the header of the file.
#[derive(Debug, Clone)]
pub struct FbxMeta {
    pub creator: Option<String>,
    pub creation_time: Option<String>,
    pub original_application: Option<String>,
}

impl Default for FbxMeta {
    fn default() -> (meta: FbxMeta)
        ensures
            meta.creator is None,
            meta.creation_time is None,
            meta.original_application is None,
    {
        FbxMeta { creator: None, creation_time: None, original_application: None }
    }
}

/// A node of the converted scene. Nodes are addressed by their index, which
/// is their position in the source's node list; the meshes and skins they
/// refer to are addressed by index too.
#[derive(Debug, Clone)]
pub struct FbxNode {
    pub index: usize,
    pub name: String,
    pub children: Vec<usize>,
    pub mesh: Option<usize>,
    pub skin: Option<usize>,
    pub visible: bool,
}

/// A skin: the joints that deform a mesh, as node indices, and for each
/// joint the cluster of the source's skin deformer whose bind matrix is to be
/// inverted for it. The two lists go together, in the deformer's cluster
/// order.
#[derive(Debug, Clone)]
pub struct FbxSkin {
    pub index: usize,
    pub name: String,
    pub joints: Vec<usize>,
    pub inverse_bind_matrices: Vec<usize>,
}

/// Placeholder for skeleton data.
#[derive(Debug, Clone, Copy, PartialEq, Eq, Structural)]
pub struct Skeleton;

/// A converted file: its meshes, materials, nodes, skins and scenes, each
/// list with its lookup by name.
#[derive(Debug, Clone)]
pub struct Fbx {
    pub scenes: Vec<SceneOutput>,
    pub named_scenes: NameIndex,
    pub meshes: Vec<ResolvedMesh>,
    pub named_meshes: NameIndex,
    pub materials: Vec<ResolvedMaterial>,
    pub named_materials: NameIndex,
    pub nodes: Vec<FbxNode>,
    pub named_nodes: NameIndex,
    pub skins: Vec<FbxSkin>,
    pub named_skins: NameIndex,
    pub default_scene: Option<usize>,
}

} // verus!
