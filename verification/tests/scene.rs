//! Tests for the assembly of the scene.

use bevy_ufbx::material::{create_standard_material, ResolvedMaterial, TextureTable};
use bevy_ufbx::mesh::{create_mesh_from_group, ResolvedMesh};
use bevy_ufbx::names::NameIndex;
use bevy_ufbx::scene::{
    build_scene, find_light_node, spawn_lights, DrawableInstance, LightInstance, MaterialChoice,
};
use bevy_ufbx::source::{LightData, MaterialData, MeshData, NodeData, SceneData, VertexStreamData};
use bevy_ufbx::{FbxLightType, FbxLoaderSettings};

fn node(light_element_id: Option<u32>) -> NodeData {
    NodeData { element_id: 1, name: String::new(), visible: true, mesh: None, light_element_id }
}

fn light(element_id: u32, light_type: FbxLightType, cast_shadows: bool) -> LightData {
    LightData { element_id, light_type, cast_shadows }
}

fn scene_of(nodes: Vec<NodeData>, lights: Vec<LightData>) -> SceneData {
    SceneData { nodes, materials: Vec::new(), textures: Vec::new(), lights }
}

fn some_meshes(count: usize) -> Vec<ResolvedMesh> {
    let mesh = MeshData {
        num_vertices: 3,
        face_triangles: vec![vec![0, 1, 2]],
        vertex_indices: vec![0, 1, 2],
        face_material: Vec::new(),
        material_names: Vec::new(),
        normals: VertexStreamData { exists: false, indices: Vec::new(), value_count: 0 },
        uvs: VertexStreamData { exists: false, indices: Vec::new(), value_count: 0 },
        skin_deformers: Vec::new(),
    };
    let mut meshes = Vec::new();
    for i in 0..count {
        match create_mesh_from_group(&mesh, &vec![0, 1, 2], i, 0, &FbxLoaderSettings::default()) {
            Ok(made) => meshes.push(made),
            Err(error) => panic!("{}", error.to_string()),
        }
    }
    meshes
}

fn some_materials(count: usize) -> Vec<ResolvedMaterial> {
    let source = MaterialData {
        element_id: 1,
        name: String::new(),
        has_diffuse_color: false,
        has_base_color: false,
        has_metalness: false,
        has_roughness: false,
        has_emission_color: false,
        has_pbr_emission_color: false,
        bindings: Vec::new(),
    };
    let mut materials = Vec::new();
    for i in 0..count {
        materials.push(create_standard_material(&source, i, &TextureTable::new()));
    }
    materials
}

fn names(list: &[&str]) -> Vec<String> {
    list.iter().map(|name| name.to_string()).collect()
}

#[test]
fn test_spawn_lights() {
    let scene = scene_of(
        vec![node(None), node(Some(21)), node(Some(20)), node(Some(21)), node(Some(23))],
        vec![
            light(20, FbxLightType::Point, true),
            light(21, FbxLightType::Directional, false),
            // No node carries this light.
            light(22, FbxLightType::Spot, true),
            light(23, FbxLightType::Spot, false),
            light(20, FbxLightType::Area, true),
            light(21, FbxLightType::Volume, true),
        ],
    );
    let lights = spawn_lights(&scene);

    assert_eq!(
        lights,
        vec![
            LightInstance {
                light_type: FbxLightType::Point,
                light_index: 0,
                node_index: 2,
                cast_shadows: true,
            },
            // The first node that carries the light places it.
            LightInstance {
                light_type: FbxLightType::Directional,
                light_index: 1,
                node_index: 1,
                cast_shadows: false,
            },
            LightInstance {
                light_type: FbxLightType::Spot,
                light_index: 3,
                node_index: 4,
                cast_shadows: false,
            },
        ]
    );
}

#[test]
fn test_find_light_node() {
    let nodes = vec![node(None), node(Some(7)), node(Some(0)), node(Some(7))];
    assert_eq!(find_light_node(&nodes, 7), Some(1));
    assert_eq!(find_light_node(&nodes, 0), Some(2));
    assert_eq!(find_light_node(&nodes, 8), None);
    assert_eq!(find_light_node(&Vec::new(), 7), None);
}

#[test]
fn test_material_fallback_tiers() {
    let scene = scene_of(Vec::new(), Vec::new());
    let mut named = NameIndex::new();
    named.insert("Wood".to_string(), 1);
    named.insert("Iron".to_string(), 0);
    let info = vec![
        names(&["Wood"]),
        names(&["Missing"]),
        names(&["Missing", "Iron", "Wood"]),
        names(&[]),
        names(&["default"]),
    ];
    let out = build_scene(
        &scene,
        &some_meshes(5),
        &some_materials(3),
        &named,
        &vec![4, 4, 6, 7, 9],
        &info,
        &FbxLoaderSettings::default(),
    );

    assert!(!out.synthesize_default_material);
    assert_eq!(
        out.instances,
        vec![
            DrawableInstance { mesh: 0, material: MaterialChoice::Named(1), transform_node: 4 },
            DrawableInstance { mesh: 1, material: MaterialChoice::Positional(1), transform_node: 4 },
            DrawableInstance { mesh: 2, material: MaterialChoice::Named(0), transform_node: 6 },
            // Past the end of the materials the last one is taken.
            DrawableInstance { mesh: 3, material: MaterialChoice::Positional(2), transform_node: 7 },
            DrawableInstance { mesh: 4, material: MaterialChoice::Positional(2), transform_node: 9 },
        ]
    );
    assert!(out.lights.is_empty());
}

#[test]
fn test_default_material_when_there_is_none() {
    let scene = scene_of(Vec::new(), Vec::new());
    let mut named = NameIndex::new();
    named.insert("Ghost".to_string(), 5);
    let out = build_scene(
        &scene,
        &some_meshes(2),
        &Vec::new(),
        &named,
        &vec![0, 1],
        &vec![names(&["Ghost"]), names(&["default"])],
        &FbxLoaderSettings::default(),
    );

    assert!(out.synthesize_default_material);
    assert_eq!(
        out.instances,
        vec![
            DrawableInstance { mesh: 0, material: MaterialChoice::Named(5), transform_node: 0 },
            DrawableInstance { mesh: 1, material: MaterialChoice::Default, transform_node: 1 },
        ]
    );
}

#[test]
fn test_instances_need_mesh_transform_and_names() {
    let scene = scene_of(Vec::new(), Vec::new());
    let settings = FbxLoaderSettings::default();
    let named = NameIndex::new();
    let info = vec![names(&[]), names(&[]), names(&[])];
    let out = build_scene(&scene, &some_meshes(3), &Vec::new(), &named, &vec![0, 1], &info, &settings);
    assert_eq!(out.instances.len(), 2);
    let out = build_scene(&scene, &some_meshes(1), &Vec::new(), &named, &vec![0, 1], &info, &settings);
    assert_eq!(out.instances.len(), 1);
    let out = build_scene(&scene, &some_meshes(3), &Vec::new(), &named, &vec![0, 1, 2], &Vec::new(), &settings);
    assert!(out.instances.is_empty());
}

#[test]
fn test_lights_follow_the_settings() {
    let scene = scene_of(vec![node(Some(3))], vec![light(3, FbxLightType::Spot, true)]);
    let named = NameIndex::new();
    let with_lights = build_scene(
        &scene,
        &Vec::new(),
        &Vec::new(),
        &named,
        &Vec::new(),
        &Vec::new(),
        &FbxLoaderSettings::default(),
    );
    assert_eq!(with_lights.lights.len(), 1);
    assert_eq!(with_lights.lights[0].node_index, 0);

    let settings = FbxLoaderSettings { load_lights: false, ..FbxLoaderSettings::default() };
    let without = build_scene(
        &scene,
        &Vec::new(),
        &Vec::new(),
        &named,
        &Vec::new(),
        &Vec::new(),
        &settings,
    );
    assert!(without.lights.is_empty());
}
