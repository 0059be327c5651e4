//! The settings that a conversion recognizes, and the conversion of a whole
//! scene.

use vstd::prelude::*;
use crate::error::FbxError;
use crate::material::{named_materials, process_materials, resolved_materials, texture_table};
use crate::mesh::{
    named_from, node_meshes, process_meshes, scene_records, scene_resolvable, views,
};
use crate::names::NameIndex;
use crate::node::{
    converted_nodes, named_nodes, named_skins, node_ids, process_nodes, process_skins, scene_skins,
};
use crate::scene::{build_scene, drawable_instance, light_instances};
use crate::source::SceneData;
use crate::types::Fbx;

verus! {

/// Where a converted asset is kept: in the main world, in the render world,
/// or in both.
#[derive(Debug, Clone, Copy, PartialEq, Eq, Structural)]
pub struct AssetUsages {
    pub main_world: bool,
    pub render_world: bool,
}

impl AssetUsages {
    /// The asset is kept in the main world only.
    pub fn main_world() -> (usages: AssetUsages)
        ensures
            usages == (AssetUsages { main_world: true, render_world: false }),
    {
        AssetUsages { main_world: true, render_world: false }
    }

    /// The asset is kept in the render world only.
    pub fn render_world() -> (usages: AssetUsages)
        ensures
            usages == (AssetUsages { main_world: false, render_world: true }),
    {
        AssetUsages { main_world: false, render_world: true }
    }
}

impl Default for AssetUsages {
    /// The asset is kept in both worlds.
    fn default() -> (usages: AssetUsages)
        ensures
            usages == (AssetUsages { main_world: true, render_world: true }),
    {
        AssetUsages { main_world: true, render_world: true }
    }
}

/// What to convert, and how.
#[derive(Debug, Clone, Copy, PartialEq, Eq, Structural)]
pub struct FbxLoaderSettings {
    /// Where converted meshes are kept.
    pub load_meshes: AssetUsages,
    /// Where converted materials are kept.
    pub load_materials: AssetUsages,
    /// Whether cameras are converted.
    pub load_cameras: bool,
    /// Whether lights are converted.
    pub load_lights: bool,
    /// Whether the parsed source is kept with the result.
    pub include_source: bool,
    /// Whether the scene is converted to the target's coordinate system.
    pub convert_coordinates: bool,
}

impl Default for FbxLoaderSettings {
    /// Cameras and lights are converted, meshes and materials are kept in
    /// both worlds, the source is not kept and coordinates are not converted.
    fn default() -> (settings: FbxLoaderSettings)
        ensures
            settings == (FbxLoaderSettings {
                load_meshes: AssetUsages { main_world: true, render_world: true },
                load_materials: AssetUsages { main_world: true, render_world: true },
                load_cameras: true,
                load_lights: true,
                include_source: false,
                convert_coordinates: false,
            }),
    {
        FbxLoaderSettings {
            load_meshes: AssetUsages { main_world: true, render_world: true },
            load_materials: AssetUsages { main_world: true, render_world: true },
            load_cameras: true,
            load_lights: true,
            include_source: false,
            convert_coordinates: false,
        }
    }
}

/// Whether `fbx` is the converted form of `scene` under `settings`: its parts
/// are what the stages of the conversion give, each stage working on what
/// the stages before it gave.
pub open spec fn is_conversion_of(fbx: Fbx, scene: SceneData, settings: FbxLoaderSettings) -> bool {
    let node_count = scene.nodes@.len() as int;
    let records = scene_records(scene.nodes@, settings, node_count);
    let loadable = texture_table(scene.textures@, scene.textures@.len() as int).dom();
    let material_count = scene.materials@.len() as int;
    let ids = node_ids(scene.nodes@, node_count);
    &&& fbx.meshes@.len() == records.len()
    &&& forall|j: int| 0 <= j < records.len() ==> (#[trigger] fbx.meshes@[j])@ == records[j].mesh
    &&& fbx.named_meshes@ == named_from(records)
    &&& fbx.materials@ == resolved_materials(scene.materials@, loadable, material_count)
    &&& fbx.named_materials@ == named_materials(scene.materials@, loadable, material_count)
    &&& views(fbx.nodes@) == converted_nodes(scene.nodes@, node_meshes(scene.nodes@, settings))
    &&& fbx.named_nodes@ == named_nodes(scene.nodes@, node_count)
    &&& views(fbx.skins@) == scene_skins(scene.nodes@, ids, node_count)
    &&& fbx.named_skins@ == named_skins(scene.nodes@, ids, node_count)
    &&& fbx.named_scenes@ == Map::<Seq<char>, usize>::empty()
    &&& fbx.default_scene == Some(0usize)
    &&& fbx.scenes@.len() == 1
    &&& fbx.scenes@[0].synthesize_default_material == (fbx.materials@.len() == 0)
    &&& fbx.scenes@[0].instances@.len() == records.len()
    &&& forall|i: int|
        0 <= i < records.len() ==> #[trigger] fbx.scenes@[0].instances@[i] == drawable_instance(
            fbx.materials@.len(),
            fbx.named_materials@,
            records[i].transform_node,
            seq![records[i].material_name],
            i,
        )
    &&& fbx.scenes@[0].lights@ == if settings.load_lights {
        light_instances(scene.lights@, scene.nodes@, scene.lights@.len() as int)
    } else {
        Seq::empty()
    }
}

/// Converts a parsed scene: the meshes first, then the materials, the nodes,
/// each of which refers to the first mesh of its own, the skins, which refer
/// to the nodes, and last the scene that places the meshes. The conversion fails as a whole, as a
/// mesh conversion, exactly if some material group of some mesh cannot be
/// resolved.
pub fn convert_scene(scene: &SceneData, settings: &FbxLoaderSettings) -> (converted: Result<
    Fbx,
    FbxError,
>)
    ensures
        match converted {
            Ok(fbx) => scene_resolvable(scene.nodes@, scene.nodes@.len() as int)
                && is_conversion_of(fbx, *scene, *settings),
            Err(error) => !scene_resolvable(scene.nodes@, scene.nodes@.len() as int)
                && error is MeshConversion,
        },
{
    let outputs = match process_meshes(scene, settings) {
        Ok(outputs) => outputs,
        Err(error) => {
            return Err(error);
        },
    };
    let ghost records = scene_records(scene.nodes@, *settings, scene.nodes@.len() as int);
    let (materials, named_materials) = process_materials(scene);
    let (nodes, named_nodes, ids) = process_nodes(scene, &outputs.node_meshes);
    let (skins, named_skins) = process_skins(scene, &ids);
    let assembled = build_scene(
        scene,
        &outputs.meshes,
        &materials,
        &named_materials,
        &outputs.transforms,
        &outputs.material_info,
        settings,
    );
    proof {
        assert forall|i: int| 0 <= i < records.len() implies #[trigger] assembled.instances@[i]
            == drawable_instance(
            materials@.len(),
            named_materials@,
            records[i].transform_node,
            seq![records[i].material_name],
            i,
        ) by {
            assert(views(outputs.material_info@[i]@) =~= seq![records[i].material_name]);
        }
    }
    let mut scenes = Vec::new();
    scenes.push(assembled);
    let fbx = Fbx {
        scenes,
        named_scenes: NameIndex::new(),
        meshes: outputs.meshes,
        named_meshes: outputs.named_meshes,
        materials,
        named_materials,
        nodes,
        named_nodes,
        skins,
        named_skins,
        default_scene: Some(0),
    };
    Ok(fbx)
}

} // verus!
