//! Resolution of the source's materials and of the textures they refer to.

use std::collections::HashMap;
use vstd::prelude::*;
use vstd::string::StringExecFns;
use crate::names::NameIndex;
use crate::path::{relative_texture_path, resolve_texture_path};
use crate::source::{MaterialData, SceneData, TextureBinding, TextureData};
use crate::text::same_text;
use crate::types::FbxTextureType;

verus! {

broadcast use vstd::std_specs::hash::group_hash_axioms;

/// The textures that can be loaded: for the element id of each, its path
/// relative to the directory of the source asset.
#[derive(Debug, Clone)]
pub struct TextureTable {
    pub paths: HashMap<u32, String>,
}

impl View for TextureTable {
    type V = Map<u32, Seq<char>>;

    open spec fn view(&self) -> Map<u32, Seq<char>> {
        Map::new(|id: u32| self.paths@.contains_key(id), |id: u32| self.paths@[id]@)
    }
}

impl TextureTable {
    /// A table without textures.
    pub fn new() -> (table: TextureTable)
        ensures
            table@ == Map::<u32, Seq<char>>::empty(),
    {
        TextureTable { paths: HashMap::new() }
    }

    /// Enters the path of the texture with element id `element_id`, in place
    /// of an earlier entry for the same id.
    pub fn insert(&mut self, element_id: u32, path: String)
        ensures
            final(self)@ == old(self)@.insert(element_id, path@),
    {
        self.paths.insert(element_id, path);
    }

    /// Whether the table holds the texture with element id `element_id`.
    pub fn contains(&self, element_id: u32) -> (found: bool)
        ensures
            found == self@.contains_key(element_id),
    {
        self.paths.contains_key(&element_id)
    }

    /// The path of the texture with element id `element_id`, if the table
    /// holds it.
    pub fn get(&self, element_id: u32) -> (found: Option<&String>)
        ensures
            match found {
                Some(path) => self@.contains_key(element_id) && path@ == self@[element_id],
                None => !self@.contains_key(element_id),
            },
    {
        self.paths.get(&element_id)
    }
}

/// The table of the first `upto` textures: each texture with a usable file
/// name is entered under its element id, a later one in place of an earlier
/// one with the same id.
pub open spec fn texture_table(textures: Seq<TextureData>, upto: int) -> Map<u32, Seq<char>>
    decreases upto,
{
    if upto <= 0 {
        Map::empty()
    } else {
        let texture = textures[upto - 1];
        let path = relative_texture_path(texture.filename@, texture.absolute_filename@);
        if path.len() > 0 {
            texture_table(textures, upto - 1).insert(texture.element_id, path)
        } else {
            texture_table(textures, upto - 1)
        }
    }
}

/// Resolves the path of every texture of the scene. A texture without a
/// usable file name is left out.
pub fn process_textures(scene: &SceneData) -> (table: TextureTable)
    ensures
        table@ == texture_table(scene.textures@, scene.textures@.len() as int),
{
    let mut table = TextureTable::new();
    let mut i: usize = 0;
    while i < scene.textures.len()
        invariant
            i <= scene.textures@.len(),
            table@ == texture_table(scene.textures@, i as int),
        decreases scene.textures@.len() - i,
    {
        let texture = &scene.textures[i];
        let path = resolve_texture_path(texture.filename.as_str(), texture.absolute_filename.as_str());
        if !path.is_empty() {
            table.insert(texture.element_id, String::from_str(path));
        }
        i += 1;
    }
    table
}

/// Where the value of a property of a resolved material comes from.
#[derive(Debug, Clone, Copy, PartialEq, Eq, Structural)]
pub enum PropertySource {
    /// From the classic property of the source material.
    Classic,
    /// From the physically-based property of the source material.
    Pbr,
    /// From the default descriptor.
    Default,
}

/// A resolved material. Each texture slot holds the element id of the texture
/// bound to it; the values of colors and factors are read from the source
/// material at `source_index`, from the properties named here.
#[derive(Debug, Clone, Copy, PartialEq, Eq, Structural)]
pub struct ResolvedMaterial {
    /// The position of the material in the source's material list.
    pub source_index: usize,
    pub base_color: PropertySource,
    pub emissive: PropertySource,
    /// Whether the metallic factor comes from the source, or is the default.
    pub metallic_from_source: bool,
    /// Whether the roughness comes from the source, or is the default.
    pub roughness_from_source: bool,
    pub base_color_texture: Option<u32>,
    pub normal_map_texture: Option<u32>,
    pub metallic_roughness_texture: Option<u32>,
    pub emissive_texture: Option<u32>,
    pub occlusion_texture: Option<u32>,
    /// The position, among the bindings of the source material, of the one
    /// whose texture gives the transform of the texture coordinates.
    pub uv_transform_binding: Option<usize>,
}

/// The source of a property that has a classic and a physically-based form:
/// the classic form if present, else the physically-based one, else the
/// default.
pub open spec fn choose_source(has_classic: bool, has_pbr: bool) -> PropertySource {
    if has_classic {
        PropertySource::Classic
    } else if has_pbr {
        PropertySource::Pbr
    } else {
        PropertySource::Default
    }
}

/// The use that a binding declares by the name of its property. The names are
/// matched as they are written; an unknown name declares no use.
pub open spec fn binding_use(material_prop: Seq<char>) -> Option<FbxTextureType> {
    if material_prop == "DiffuseColor"@ || material_prop == "BaseColor"@ {
        Some(FbxTextureType::BaseColor)
    } else if material_prop == "NormalMap"@ {
        Some(FbxTextureType::Normal)
    } else if material_prop == "Metallic"@ {
        Some(FbxTextureType::Metallic)
    } else if material_prop == "Roughness"@ {
        Some(FbxTextureType::Roughness)
    } else if material_prop == "EmissiveColor"@ {
        Some(FbxTextureType::Emission)
    } else if material_prop == "AmbientOcclusion"@ {
        Some(FbxTextureType::AmbientOcclusion)
    } else {
        None
    }
}

/// A material before any texture is bound.
pub open spec fn unbound_material(material: MaterialData, source_index: usize) -> ResolvedMaterial {
    ResolvedMaterial {
        source_index,
        base_color: choose_source(material.has_diffuse_color, material.has_base_color),
        emissive: choose_source(material.has_emission_color, material.has_pbr_emission_color),
        metallic_from_source: material.has_metalness,
        roughness_from_source: material.has_roughness,
        base_color_texture: None,
        normal_map_texture: None,
        metallic_roughness_texture: None,
        emissive_texture: None,
        occlusion_texture: None,
        uv_transform_binding: None,
    }
}

/// The material after the binding at position `position` is applied to it. A
/// binding whose texture is not in the table of loadable textures `loadable`,
/// or whose property name is unknown, changes nothing. A roughness texture
/// fills the metallic-roughness slot only while that slot is empty; every
/// other binding replaces what its slot held.
pub open spec fn apply_binding(
    resolved: ResolvedMaterial,
    binding: TextureBinding,
    position: int,
    loadable: Set<u32>,
) -> ResolvedMaterial {
    let id = binding.texture_element_id;
    if !loadable.contains(id) {
        resolved
    } else {
        match binding_use(binding.material_prop@) {
            Some(FbxTextureType::BaseColor) => ResolvedMaterial {
                base_color_texture: Some(id),
                uv_transform_binding: Some(position as usize),
                ..resolved
            },
            Some(FbxTextureType::Normal) => ResolvedMaterial {
                normal_map_texture: Some(id),
                ..resolved
            },
            Some(FbxTextureType::Metallic) => ResolvedMaterial {
                metallic_roughness_texture: Some(id),
                ..resolved
            },
            Some(FbxTextureType::Roughness) => if resolved.metallic_roughness_texture is None {
                ResolvedMaterial { metallic_roughness_texture: Some(id), ..resolved }
            } else {
                resolved
            },
            Some(FbxTextureType::Emission) => ResolvedMaterial {
                emissive_texture: Some(id),
                ..resolved
            },
            Some(FbxTextureType::AmbientOcclusion) => ResolvedMaterial {
                occlusion_texture: Some(id),
                ..resolved
            },
            _ => resolved,
        }
    }
}

/// The material after its first `upto` bindings are applied, in source order.
pub open spec fn bind_textures(
    material: MaterialData,
    source_index: usize,
    loadable: Set<u32>,
    upto: int,
) -> ResolvedMaterial
    decreases upto,
{
    if upto <= 0 {
        unbound_material(material, source_index)
    } else {
        apply_binding(
            bind_textures(material, source_index, loadable, upto - 1),
            material.bindings@[upto - 1],
            upto - 1,
            loadable,
        )
    }
}

/// The resolved form of a source material.
pub open spec fn resolved_material(
    material: MaterialData,
    source_index: usize,
    loadable: Set<u32>,
) -> ResolvedMaterial {
    bind_textures(material, source_index, loadable, material.bindings@.len() as int)
}

/// Reads the use that a binding declares from the name of its property.
pub fn classify_binding(material_prop: &String) -> (declared: Option<FbxTextureType>)
    ensures
        declared == binding_use(material_prop@),
{
    if same_text(material_prop, "DiffuseColor") || same_text(material_prop, "BaseColor") {
        Some(FbxTextureType::BaseColor)
    } else if same_text(material_prop, "NormalMap") {
        Some(FbxTextureType::Normal)
    } else if same_text(material_prop, "Metallic") {
        Some(FbxTextureType::Metallic)
    } else if same_text(material_prop, "Roughness") {
        Some(FbxTextureType::Roughness)
    } else if same_text(material_prop, "EmissiveColor") {
        Some(FbxTextureType::Emission)
    } else if same_text(material_prop, "AmbientOcclusion") {
        Some(FbxTextureType::AmbientOcclusion)
    } else {
        None
    }
}

/// Resolves the source material at position `source_index` of the source's
/// material list: picks the source of each property and binds the loadable
/// textures to their slots.
pub fn create_standard_material(
    material: &MaterialData,
    source_index: usize,
    textures: &TextureTable,
) -> (resolved: ResolvedMaterial)
    ensures
        resolved == resolved_material(*material, source_index, textures@.dom()),
{
    let base_color = if material.has_diffuse_color {
        PropertySource::Classic
    } else if material.has_base_color {
        PropertySource::Pbr
    } else {
        PropertySource::Default
    };
    let emissive = if material.has_emission_color {
        PropertySource::Classic
    } else if material.has_pbr_emission_color {
        PropertySource::Pbr
    } else {
        PropertySource::Default
    };
    let mut resolved = ResolvedMaterial {
        source_index,
        base_color,
        emissive,
        metallic_from_source: material.has_metalness,
        roughness_from_source: material.has_roughness,
        base_color_texture: None,
        normal_map_texture: None,
        metallic_roughness_texture: None,
        emissive_texture: None,
        occlusion_texture: None,
        uv_transform_binding: None,
    };
    let mut i: usize = 0;
    while i < material.bindings.len()
        invariant
            i <= material.bindings@.len(),
            resolved == bind_textures(*material, source_index, textures@.dom(), i as int),
        decreases material.bindings@.len() - i,
    {
        let binding = &material.bindings[i];
        let id = binding.texture_element_id;
        if textures.contains(id) {
            match classify_binding(&binding.material_prop) {
                Some(FbxTextureType::BaseColor) => {
                    resolved.base_color_texture = Some(id);
                    resolved.uv_transform_binding = Some(i);
                },
                Some(FbxTextureType::Normal) => {
                    resolved.normal_map_texture = Some(id);
                },
                Some(FbxTextureType::Metallic) => {
                    resolved.metallic_roughness_texture = Some(id);
                },
                Some(FbxTextureType::Roughness) => {
                    if resolved.metallic_roughness_texture.is_none() {
                        resolved.metallic_roughness_texture = Some(id);
                    }
                },
                Some(FbxTextureType::Emission) => {
                    resolved.emissive_texture = Some(id);
                },
                Some(FbxTextureType::AmbientOcclusion) => {
                    resolved.occlusion_texture = Some(id);
                },
                _ => {},
            }
        }
        i += 1;
    }
    resolved
}

/// Whether a source material is converted: one with the element id 0, which
/// stands for "unassigned", is not.
pub open spec fn is_usable(material: MaterialData) -> bool {
    material.element_id != 0
}

/// The resolved forms of the usable ones among the first `upto` materials, in
/// source order.
pub open spec fn resolved_materials(materials: Seq<MaterialData>, loadable: Set<u32>, upto: int) -> Seq<
    ResolvedMaterial,
>
    decreases upto,
{
    if upto <= 0 {
        Seq::empty()
    } else if is_usable(materials[upto - 1]) {
        resolved_materials(materials, loadable, upto - 1).push(
            resolved_material(materials[upto - 1], (upto - 1) as usize, loadable),
        )
    } else {
        resolved_materials(materials, loadable, upto - 1)
    }
}

/// The lookup by name of the usable ones among the first `upto` materials:
/// each one with a name is registered under it with its position in the list
/// of resolved materials, a later one in place of an earlier one of the same
/// name.
pub open spec fn named_materials(materials: Seq<MaterialData>, loadable: Set<u32>, upto: int) -> Map<
    Seq<char>,
    usize,
>
    decreases upto,
{
    if upto <= 0 {
        Map::empty()
    } else if is_usable(materials[upto - 1]) && materials[upto - 1].name@.len() > 0 {
        named_materials(materials, loadable, upto - 1).insert(
            materials[upto - 1].name@,
            resolved_materials(materials, loadable, upto - 1).len() as usize,
        )
    } else {
        named_materials(materials, loadable, upto - 1)
    }
}

/// Resolves every usable material of the scene, against the table of the
/// scene's loadable textures, and registers the named ones by name.
pub fn process_materials(scene: &SceneData) -> (out: (Vec<ResolvedMaterial>, NameIndex))
    ensures
        out.0@ == resolved_materials(
            scene.materials@,
            texture_table(scene.textures@, scene.textures@.len() as int).dom(),
            scene.materials@.len() as int,
        ),
        out.1@ == named_materials(
            scene.materials@,
            texture_table(scene.textures@, scene.textures@.len() as int).dom(),
            scene.materials@.len() as int,
        ),
{
    let textures = process_textures(scene);
    let mut materials: Vec<ResolvedMaterial> = Vec::new();
    let mut named = NameIndex::new();
    let mut i: usize = 0;
    while i < scene.materials.len()
        invariant
            i <= scene.materials@.len(),
            materials@ == resolved_materials(scene.materials@, textures@.dom(), i as int),
            named@ == named_materials(scene.materials@, textures@.dom(), i as int),
        decreases scene.materials@.len() - i,
    {
        let material = &scene.materials[i];
        if material.element_id != 0 {
            let resolved = create_standard_material(material, i, &textures);
            if !material.name.as_str().is_empty() {
                named.insert(material.name.clone(), materials.len());
            }
            materials.push(resolved);
        }
        i += 1;
    }
    (materials, named)
}

} // verus!
