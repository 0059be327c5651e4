//! The parsed scene as the conversion reads it: the integers, flags and names
//! of its nodes, meshes, materials, textures and lights. Coordinates, colors
//! and weights are not held here; whoever needs them finds them in the parsed
//! scene by the indices that the conversion hands out.

use vstd::prelude::*;
use crate::types::FbxLightType;

verus! {

/// A texture of the source: its element id and the file names stored with it.
#[derive(Debug, Clone)]
pub struct TextureData {
    pub element_id: u32,
    pub filename: String,
    pub absolute_filename: String,
}

/// The binding of a texture to a property of a material.
#[derive(Debug, Clone)]
pub struct TextureBinding {
    /// The name of the property, as the source declares it.
    pub material_prop: String,
    /// The element id of the bound texture.
    pub texture_element_id: u32,
}

/// A material of the source: which of its properties carry a value, and its
/// texture bindings in source order.
#[derive(Debug, Clone)]
pub struct MaterialData {
    pub element_id: u32,
    pub name: String,
    pub has_diffuse_color: bool,
    pub has_base_color: bool,
    pub has_metalness: bool,
    pub has_roughness: bool,
    pub has_emission_color: bool,
    pub has_pbr_emission_color: bool,
    pub bindings: Vec<TextureBinding>,
}

/// A cluster of a skin deformer: the bone it follows and its influence pairs.
/// Entry `i` says that the cluster influences vertex `vertices[i]`, and
/// `weight_positive[i]` whether the weight of that influence is positive.
/// The two lists need not have the same length.
#[derive(Debug, Clone)]
pub struct ClusterData {
    pub bone_element_id: Option<u32>,
    pub vertices: Vec<u32>,
    pub weight_positive: Vec<bool>,
}

/// A skin deformer: its clusters in source order.
#[derive(Debug, Clone)]
pub struct SkinDeformerData {
    pub clusters: Vec<ClusterData>,
}

/// An attribute of the vertices of a mesh, such as the normal: whether the
/// mesh has it, the value that each index slot selects, and how many values
/// there are.
#[derive(Debug, Clone)]
pub struct VertexStreamData {
    pub exists: bool,
    pub indices: Vec<u32>,
    pub value_count: usize,
}

/// A mesh of the source.
#[derive(Debug, Clone)]
pub struct MeshData {
    /// The number of vertices.
    pub num_vertices: usize,
    /// For each face, in source order, the corners of its triangulation, each
    /// a slot of `vertex_indices`.
    pub face_triangles: Vec<Vec<u32>>,
    /// The index table: the vertex that each index slot refers to.
    pub vertex_indices: Vec<u32>,
    /// For each face, the slot of its material in the mesh's material list.
    /// May be shorter than the face list, or empty.
    pub face_material: Vec<u32>,
    /// The names of the materials in the mesh's material list.
    pub material_names: Vec<String>,
    /// The normals.
    pub normals: VertexStreamData,
    /// The texture coordinates.
    pub uvs: VertexStreamData,
    /// The skin deformers.
    pub skin_deformers: Vec<SkinDeformerData>,
}

/// A node of the source.
#[derive(Debug, Clone)]
pub struct NodeData {
    pub element_id: u32,
    pub name: String,
    pub visible: bool,
    pub mesh: Option<MeshData>,
    /// The element id of the light that the node carries, if it carries one.
    pub light_element_id: Option<u32>,
}

/// A light of the source.
#[derive(Debug, Clone, Copy, PartialEq, Eq, Structural)]
pub struct LightData {
    pub element_id: u32,
    pub light_type: FbxLightType,
    pub cast_shadows: bool,
}

/// The parsed scene.
#[derive(Debug, Clone)]
pub struct SceneData {
    pub nodes: Vec<NodeData>,
    pub materials: Vec<MaterialData>,
    pub textures: Vec<TextureData>,
    pub lights: Vec<LightData>,
}

} // verus!
