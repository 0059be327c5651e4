//! Assembly of the converted scene: one drawable instance for each mesh, and
//! the lights.

use vstd::prelude::*;
use crate::loader::FbxLoaderSettings;
use crate::material::ResolvedMaterial;
use crate::mesh::{views, ResolvedMesh};
use crate::names::NameIndex;
use crate::source::{LightData, NodeData, SceneData};
use crate::types::FbxLightType;

verus! {

/// A light to instantiate: the light at `light_index` of the source's light
/// list, placed by the world transform of the node at `node_index`.
#[derive(Debug, Clone, Copy, PartialEq, Eq, Structural)]
pub struct LightInstance {
    pub light_type: FbxLightType,
    pub light_index: usize,
    pub node_index: usize,
    pub cast_shadows: bool,
}

/// Whether a node carries the light with element id `light_id`.
pub open spec fn carries_light(node: NodeData, light_id: u32) -> bool {
    node.light_element_id == Some(light_id)
}

/// The first node at or after position `from` that carries the light with
/// element id `light_id`.
pub open spec fn light_owner_from(nodes: Seq<NodeData>, light_id: u32, from: int) -> Option<int>
    decreases nodes.len() - from,
{
    if from < 0 || from >= nodes.len() {
        None
    } else if carries_light(nodes[from], light_id) {
        Some(from)
    } else {
        light_owner_from(nodes, light_id, from + 1)
    }
}

/// The node that owns a light: the first node that carries it.
pub open spec fn light_owner(nodes: Seq<NodeData>, light_id: u32) -> Option<int> {
    light_owner_from(nodes, light_id, 0)
}

/// Whether lights of this type are instantiated: directional lights, point
/// lights and spot lights are; area and volume lights are not.
pub open spec fn is_instantiated(light_type: FbxLightType) -> bool {
    light_type == FbxLightType::Directional || light_type == FbxLightType::Point || light_type
        == FbxLightType::Spot
}

/// The instance of the light at position `i`, if it gets one: its type must be
/// one that is instantiated, and a node must own it.
pub open spec fn light_instance(lights: Seq<LightData>, nodes: Seq<NodeData>, i: int) -> Option<
    LightInstance,
> {
    match light_owner(nodes, lights[i].element_id) {
        Some(k) => if is_instantiated(lights[i].light_type) {
            Some(
                LightInstance {
                    light_type: lights[i].light_type,
                    light_index: i as usize,
                    node_index: k as usize,
                    cast_shadows: lights[i].cast_shadows,
                },
            )
        } else {
            None
        },
        None => None,
    }
}

/// The instances of the first `upto` lights, in source order.
pub open spec fn light_instances(lights: Seq<LightData>, nodes: Seq<NodeData>, upto: int) -> Seq<
    LightInstance,
>
    decreases upto,
{
    if upto <= 0 {
        Seq::empty()
    } else {
        match light_instance(lights, nodes, upto - 1) {
            Some(instance) => light_instances(lights, nodes, upto - 1).push(instance),
            None => light_instances(lights, nodes, upto - 1),
        }
    }
}

/// The owner of a light is a node that carries it, and no node before it does.
pub proof fn lemma_light_owner(nodes: Seq<NodeData>, light_id: u32, from: int)
    requires
        0 <= from,
    ensures
        match light_owner_from(nodes, light_id, from) {
            Some(k) => from <= k < nodes.len() && carries_light(nodes[k], light_id) && forall|j: int|
                from <= j < k ==> !carries_light(#[trigger] nodes[j], light_id),
            None => forall|j: int|
                from <= j < nodes.len() ==> !carries_light(#[trigger] nodes[j], light_id),
        },
    decreases nodes.len() - from,
{
    if from < nodes.len() && !carries_light(nodes[from], light_id) {
        lemma_light_owner(nodes, light_id, from + 1);
    }
}

/// Finds the node that owns the light with element id `light_id`.
pub fn find_light_node(nodes: &Vec<NodeData>, light_id: u32) -> (found: Option<usize>)
    ensures
        match found {
            Some(k) => light_owner(nodes@, light_id) == Some(k as int),
            None => light_owner(nodes@, light_id) is None,
        },
{
    let mut i: usize = 0;
    while i < nodes.len()
        invariant
            i <= nodes@.len(),
            light_owner(nodes@, light_id) == light_owner_from(nodes@, light_id, i as int),
        decreases nodes@.len() - i,
    {
        match nodes[i].light_element_id {
            Some(id) => {
                if id == light_id {
                    return Some(i);
                }
            },
            None => {},
        }
        i += 1;
    }
    None
}

/// Lists the lights to instantiate, in the order of the source's light list.
/// A light is listed if a node owns it and its type is directional, point or
/// spot; it is placed by the first node that carries it.
pub fn spawn_lights(scene: &SceneData) -> (instances: Vec<LightInstance>)
    ensures
        instances@ == light_instances(scene.lights@, scene.nodes@, scene.lights@.len() as int),
{
    let mut instances: Vec<LightInstance> = Vec::new();
    let mut i: usize = 0;
    while i < scene.lights.len()
        invariant
            i <= scene.lights@.len(),
            instances@ == light_instances(scene.lights@, scene.nodes@, i as int),
        decreases scene.lights@.len() - i,
    {
        let light = scene.lights[i];
        match find_light_node(&scene.nodes, light.element_id) {
            Some(k) => {
                match light.light_type {
                    FbxLightType::Directional | FbxLightType::Point | FbxLightType::Spot => {
                        instances.push(
                            LightInstance {
                                light_type: light.light_type,
                                light_index: i,
                                node_index: k,
                                cast_shadows: light.cast_shadows,
                            },
                        );
                    },
                    _ => {},
                }
            },
            None => {},
        }
        i += 1;
    }
    instances
}

/// The material of a drawable instance, and by which rule it was found.
#[derive(Debug, Clone, Copy, PartialEq, Eq, Structural)]
pub enum MaterialChoice {
    /// The resolved material at this position, found by the name recorded for
    /// the mesh.
    Named(usize),
    /// The resolved material at this position, found by the position of the
    /// mesh.
    Positional(usize),
    /// The default material.
    Default,
}

/// A drawable instance: the resolved mesh at `mesh`, drawn with `material`
/// and placed by the geometry transform of the node at `transform_node`.
#[derive(Debug, Clone, Copy, PartialEq, Eq, Structural)]
pub struct DrawableInstance {
    pub mesh: usize,
    pub material: MaterialChoice,
    pub transform_node: usize,
}

/// The assembled scene.
#[derive(Debug, Clone)]
pub struct SceneOutput {
    /// Whether a default material has to be made: there is no resolved
    /// material that could stand for it.
    pub synthesize_default_material: bool,
    /// The drawable instances, one for each mesh.
    pub instances: Vec<DrawableInstance>,
    /// The lights.
    pub lights: Vec<LightInstance>,
}

/// The material that the first of the names at or after `from` stands for
/// which the lookup knows.
pub open spec fn first_named_from(names: Seq<Seq<char>>, named: Map<Seq<char>, usize>, from: int) -> Option<
    usize,
>
    decreases names.len() - from,
{
    if from < 0 || from >= names.len() {
        None
    } else if named.contains_key(names[from]) {
        Some(named[names[from]])
    } else {
        first_named_from(names, named, from + 1)
    }
}

/// The material at the position of the mesh, or, past the end of the list of
/// materials, the last one. There is none if there is no material.
pub open spec fn positional_material(material_count: nat, mesh_index: int) -> Option<usize> {
    if material_count == 0 {
        None
    } else if mesh_index < material_count - 1 {
        Some(mesh_index as usize)
    } else {
        Some((material_count - 1) as usize)
    }
}

/// The material of the instance of the mesh at `mesh_index`: the one that the
/// first known name among `names` stands for; else the one at the position of
/// the mesh; else the default material.
pub open spec fn instance_material(
    names: Seq<Seq<char>>,
    named: Map<Seq<char>, usize>,
    material_count: nat,
    mesh_index: int,
) -> MaterialChoice {
    match first_named_from(names, named, 0) {
        Some(found) => MaterialChoice::Named(found),
        None => match positional_material(material_count, mesh_index) {
            Some(found) => MaterialChoice::Positional(found),
            None => MaterialChoice::Default,
        },
    }
}

/// The number of drawable instances: the number of meshes for which a
/// transform and material names are given.
pub open spec fn instance_count(mesh_count: nat, transform_count: nat, info_count: nat) -> nat {
    if mesh_count <= transform_count && mesh_count <= info_count {
        mesh_count
    } else if transform_count <= info_count {
        transform_count
    } else {
        info_count
    }
}

/// The drawable instance of the mesh at position `i`, which the geometry
/// transform of the node at `transform_node` places and whose materials go by
/// the names `names`.
pub open spec fn drawable_instance(
    material_count: nat,
    named: Map<Seq<char>, usize>,
    transform_node: usize,
    names: Seq<Seq<char>>,
    i: int,
) -> DrawableInstance {
    DrawableInstance {
        mesh: i as usize,
        material: instance_material(names, named, material_count, i),
        transform_node,
    }
}

/// Finds the material that the first known name among `names` stands for.
fn find_named_material(names: &Vec<String>, named: &NameIndex) -> (found: Option<usize>)
    ensures
        found == first_named_from(views(names@), named@, 0),
{
    let mut j: usize = 0;
    while j < names.len()
        invariant
            j <= names@.len(),
            first_named_from(views(names@), named@, 0) == first_named_from(
                views(names@),
                named@,
                j as int,
            ),
        decreases names@.len() - j,
    {
        match named.get(names[j].as_str()) {
            Some(found) => {
                return Some(found);
            },
            None => {},
        }
        j += 1;
    }
    None
}

/// Assembles the scene. Each mesh for which a transform and material names
/// are given gets one drawable instance, with the material that the first
/// known one of its material names stands for, else the material at the
/// position of the mesh (the last material, past the end), else the default
/// material. The lights are listed if the settings ask for them.
pub fn build_scene(
    scene: &SceneData,
    meshes: &Vec<ResolvedMesh>,
    materials: &Vec<ResolvedMaterial>,
    named_materials: &NameIndex,
    mesh_transforms: &Vec<usize>,
    mesh_material_info: &Vec<Vec<String>>,
    settings: &FbxLoaderSettings,
) -> (out: SceneOutput)
    ensures
        out.synthesize_default_material == (materials@.len() == 0),
        out.instances@.len() == instance_count(
            meshes@.len(),
            mesh_transforms@.len(),
            mesh_material_info@.len(),
        ),
        forall|i: int|
            0 <= i < out.instances@.len() ==> #[trigger] out.instances@[i] == drawable_instance(
                materials@.len(),
                named_materials@,
                mesh_transforms@[i],
                views(mesh_material_info@[i]@),
                i,
            ),
        out.lights@ == if settings.load_lights {
            light_instances(scene.lights@, scene.nodes@, scene.lights@.len() as int)
        } else {
            Seq::empty()
        },
{
    let mut count = meshes.len();
    if mesh_transforms.len() < count {
        count = mesh_transforms.len();
    }
    if mesh_material_info.len() < count {
        count = mesh_material_info.len();
    }
    let mut instances: Vec<DrawableInstance> = Vec::new();
    let mut i: usize = 0;
    while i < count
        invariant
            i <= count,
            count <= meshes@.len(),
            count <= mesh_transforms@.len(),
            count <= mesh_material_info@.len(),
            instances@.len() == i,
            forall|j: int|
                0 <= j < i ==> #[trigger] instances@[j] == drawable_instance(
                    materials@.len(),
                    named_materials@,
                    mesh_transforms@[j],
                    views(mesh_material_info@[j]@),
                    j,
                ),
        decreases count - i,
    {
        let material = match find_named_material(&mesh_material_info[i], named_materials) {
            Some(found) => MaterialChoice::Named(found),
            None => {
                if materials.len() == 0 {
                    MaterialChoice::Default
                } else if i < materials.len() - 1 {
                    MaterialChoice::Positional(i)
                } else {
                    MaterialChoice::Positional(materials.len() - 1)
                }
            },
        };
        instances.push(DrawableInstance { mesh: i, material, transform_node: mesh_transforms[i] });
        i += 1;
    }
    let lights = if settings.load_lights {
        spawn_lights(scene)
    } else {
        Vec::new()
    };
    SceneOutput { synthesize_default_material: materials.len() == 0, instances, lights }
}

} // verus!
