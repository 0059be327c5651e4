//! Tests for the conversion of meshes.

use bevy_ufbx::mesh::{
    create_mesh_from_group, group_faces_by_material, material_group_order, process_meshes,
    process_skinning_data, Influence,
};
use bevy_ufbx::source::{
    ClusterData, MeshData, NodeData, SceneData, SkinDeformerData, VertexStreamData,
};
use bevy_ufbx::{AssetUsages, FbxError, FbxLoaderSettings};

fn no_stream() -> VertexStreamData {
    VertexStreamData { exists: false, indices: Vec::new(), value_count: 0 }
}

fn plain_mesh(
    num_vertices: usize,
    face_triangles: Vec<Vec<u32>>,
    vertex_indices: Vec<u32>,
    face_material: Vec<u32>,
    material_names: Vec<&str>,
) -> MeshData {
    MeshData {
        num_vertices,
        face_triangles,
        vertex_indices,
        face_material,
        material_names: material_names.iter().map(|name| name.to_string()).collect(),
        normals: no_stream(),
        uvs: no_stream(),
        skin_deformers: Vec::new(),
    }
}

fn node_with(name: &str, mesh: Option<MeshData>) -> NodeData {
    NodeData { element_id: 1, name: name.to_string(), visible: true, mesh, light_element_id: None }
}

fn scene_of(nodes: Vec<NodeData>) -> SceneData {
    SceneData { nodes, materials: Vec::new(), textures: Vec::new(), lights: Vec::new() }
}

fn cluster(vertices: Vec<u32>, weight_positive: Vec<bool>) -> ClusterData {
    ClusterData { bone_element_id: None, vertices, weight_positive }
}

#[test]
fn test_partition_by_material() {
    let mesh = plain_mesh(
        10,
        vec![vec![0, 1, 2], vec![3, 4, 5, 3, 5, 6], vec![7, 8, 9]],
        vec![10, 11, 12, 13, 14, 15, 16, 17, 18, 19],
        vec![1, 0, 1],
        vec!["A", "B"],
    );
    let groups = group_faces_by_material(&mesh);

    assert_eq!(groups.len(), 2);
    assert_eq!(groups.get(&1), Some(&vec![10, 11, 12, 17, 18, 19]));
    assert_eq!(groups.get(&0), Some(&vec![13, 14, 15, 13, 15, 16]));
    // The groups are listed in the order in which the faces first meet them.
    assert_eq!(material_group_order(&mesh), vec![1, 0]);
}

#[test]
fn test_partition_is_total_and_disjoint() {
    let mesh = plain_mesh(
        6,
        vec![vec![0, 1, 2], vec![3, 4, 5], vec![0, 2, 3], vec![1, 4, 5], vec![2, 3, 4]],
        vec![5, 4, 3, 2, 1, 0],
        vec![2, 0, 2, 7, 0],
        vec!["A", "B", "C"],
    );
    let groups = group_faces_by_material(&mesh);
    let order = material_group_order(&mesh);

    // No group is listed twice, and the listed groups are the groups.
    assert_eq!(order, vec![2, 0, 7]);
    assert_eq!(groups.len(), 3);
    // Together the groups hold every corner of every face exactly once.
    let mut all: Vec<u32> = Vec::new();
    for face in &mesh.face_triangles {
        for corner in face {
            all.push(mesh.vertex_indices[*corner as usize]);
        }
    }
    let mut merged: Vec<u32> = Vec::new();
    for material in &order {
        merged.extend(groups[material].iter());
    }
    assert_eq!(merged.len(), 15);
    all.sort();
    merged.sort();
    assert_eq!(merged, all);
    // Each group holds the faces of its material, in source order.
    assert_eq!(groups[&2], vec![5, 4, 3, 5, 3, 2]);
    assert_eq!(groups[&0], vec![2, 1, 0, 3, 2, 1]);
    assert_eq!(groups[&7], vec![4, 1, 0]);
}

#[test]
fn test_mesh_without_materials_has_one_group() {
    let mesh = plain_mesh(
        4,
        vec![vec![0, 1, 2], vec![2, 3, 0]],
        vec![0, 1, 2, 3],
        vec![5, 6],
        vec![],
    );
    let groups = group_faces_by_material(&mesh);

    assert_eq!(groups.len(), 1);
    assert_eq!(groups.get(&0), Some(&vec![0, 1, 2, 2, 3, 0]));
    assert_eq!(material_group_order(&mesh), vec![0]);
}

#[test]
fn test_face_without_recorded_material_goes_to_group_zero() {
    let mesh = plain_mesh(
        4,
        vec![vec![0, 1, 2], vec![2, 3, 0]],
        vec![0, 1, 2, 3],
        vec![2],
        vec!["A"],
    );
    let groups = group_faces_by_material(&mesh);

    assert_eq!(groups.len(), 2);
    assert_eq!(groups.get(&2), Some(&vec![0, 1, 2]));
    assert_eq!(groups.get(&0), Some(&vec![2, 3, 0]));
    assert_eq!(material_group_order(&mesh), vec![2, 0]);
}

#[test]
fn test_corner_outside_the_index_table_is_dropped() {
    let mesh = plain_mesh(2, vec![vec![0, 99, 1, 2]], vec![7, 8], vec![], vec![]);
    let groups = group_faces_by_material(&mesh);

    assert_eq!(groups.len(), 1);
    assert_eq!(groups.get(&0), Some(&vec![7, 8]));
}

#[test]
fn test_groups_of_a_mesh_without_faces() {
    let with_materials = plain_mesh(3, vec![], vec![0, 1, 2], vec![], vec!["A"]);
    assert_eq!(group_faces_by_material(&with_materials).len(), 0);
    assert!(material_group_order(&with_materials).is_empty());

    let without_materials = plain_mesh(3, vec![], vec![0, 1, 2], vec![], vec![]);
    let groups = group_faces_by_material(&without_materials);
    assert_eq!(groups.len(), 1);
    assert_eq!(groups.get(&0), Some(&Vec::new()));
}

#[test]
fn test_face_that_adds_no_corner_still_opens_its_group() {
    let mesh = plain_mesh(1, vec![vec![], vec![0, 0, 0]], vec![4], vec![1, 0], vec!["A", "B"]);
    let groups = group_faces_by_material(&mesh);

    assert_eq!(groups.len(), 2);
    assert_eq!(groups.get(&1), Some(&Vec::new()));
    assert_eq!(groups.get(&0), Some(&vec![4, 4, 4]));
    assert_eq!(material_group_order(&mesh), vec![1, 0]);
}

#[test]
fn test_skin_influences_take_first_positive_entry() {
    let mut mesh = plain_mesh(3, vec![vec![0, 1, 2]], vec![0, 1, 2], vec![], vec![]);
    mesh.skin_deformers = vec![SkinDeformerData {
        clusters: vec![
            cluster(vec![0, 1, 0], vec![false, true, true]),
            // The weight list is shorter than the vertex list.
            cluster(vec![1, 2], vec![true]),
        ],
    }];
    let influences = process_skinning_data(&mesh);

    assert_eq!(influences.len(), 3);
    assert_eq!(influences[0], vec![Influence { joint: 0, cluster: 0, entry: 2 }]);
    assert_eq!(
        influences[1],
        vec![
            Influence { joint: 0, cluster: 0, entry: 1 },
            Influence { joint: 1, cluster: 1, entry: 0 },
        ]
    );
    assert!(influences[2].is_empty());
}

#[test]
fn test_skin_influences_stop_at_four() {
    let mut mesh = plain_mesh(2, vec![vec![0, 1, 1]], vec![0, 1], vec![], vec![]);
    let mut clusters = Vec::new();
    for c in 0..6 {
        // Cluster 1 gives vertex 0 no positive weight.
        clusters.push(cluster(vec![0, 1], vec![c != 1, true]));
    }
    mesh.skin_deformers = vec![SkinDeformerData { clusters }];
    let influences = process_skinning_data(&mesh);

    let clusters_of_vertex_0: Vec<usize> = influences[0].iter().map(|i| i.cluster).collect();
    assert_eq!(clusters_of_vertex_0, vec![0, 2, 3, 4]);
    let clusters_of_vertex_1: Vec<usize> = influences[1].iter().map(|i| i.cluster).collect();
    assert_eq!(clusters_of_vertex_1, vec![0, 1, 2, 3]);
    for influence in &influences[1] {
        assert_eq!(influence.entry, 1);
        assert_eq!(influence.joint as usize, influence.cluster);
    }
}

#[test]
fn test_only_the_first_skin_deformer_is_used() {
    let mut mesh = plain_mesh(1, vec![vec![0, 0, 0]], vec![0], vec![], vec![]);
    mesh.skin_deformers = vec![
        SkinDeformerData { clusters: vec![cluster(vec![0], vec![false])] },
        SkinDeformerData { clusters: vec![cluster(vec![0], vec![true])] },
    ];
    let influences = process_skinning_data(&mesh);

    assert_eq!(influences.len(), 1);
    assert!(influences[0].is_empty());
}

#[test]
fn test_joint_is_the_cluster_position_in_sixteen_bits() {
    let mut mesh = plain_mesh(1, vec![vec![0, 0, 0]], vec![0], vec![], vec![]);
    let mut clusters = Vec::new();
    for _ in 0..65537 {
        clusters.push(cluster(Vec::new(), Vec::new()));
    }
    clusters[65536] = cluster(vec![0], vec![true]);
    mesh.skin_deformers = vec![SkinDeformerData { clusters }];
    let influences = process_skinning_data(&mesh);

    assert_eq!(influences[0], vec![Influence { joint: 0, cluster: 65536, entry: 0 }]);
}

#[test]
fn test_create_mesh_from_group() {
    let mut mesh = plain_mesh(3, vec![vec![0, 1, 2]], vec![0, 1, 2], vec![], vec!["A"]);
    mesh.normals = VertexStreamData { exists: true, indices: vec![2, 0, 1, 1], value_count: 3 };
    let settings = FbxLoaderSettings {
        load_meshes: AssetUsages::render_world(),
        ..FbxLoaderSettings::default()
    };
    let made = create_mesh_from_group(&mesh, &vec![0, 1, 2], 3, 2, &settings);
    let made = match made {
        Ok(made) => made,
        Err(error) => panic!("{}", error.to_string()),
    };

    assert_eq!(made.label, 3002);
    assert_eq!(made.node_index, 3);
    assert_eq!(made.material_index, 2);
    assert_eq!(made.usages, AssetUsages::render_world());
    assert_eq!(made.normals, Some(vec![2, 0, 1]));
    assert_eq!(made.uvs, None);
    assert!(made.skinning.is_none());
    assert_eq!(made.indices, vec![0, 1, 2]);
}

#[test]
fn test_create_mesh_with_skin() {
    let mut mesh = plain_mesh(2, vec![vec![0, 1, 1]], vec![0, 1], vec![], vec![]);
    mesh.uvs = VertexStreamData { exists: true, indices: vec![1, 0], value_count: 2 };
    mesh.skin_deformers =
        vec![SkinDeformerData { clusters: vec![cluster(vec![1], vec![true])] }];
    let made = create_mesh_from_group(&mesh, &vec![0, 1, 1], 0, 0, &FbxLoaderSettings::default());
    let made = match made {
        Ok(made) => made,
        Err(error) => panic!("{}", error.to_string()),
    };

    assert_eq!(made.label, 0);
    assert_eq!(made.usages, AssetUsages::default());
    assert_eq!(made.normals, None);
    assert_eq!(made.uvs, Some(vec![1, 0]));
    assert_eq!(
        made.skinning,
        Some(vec![vec![], vec![Influence { joint: 0, cluster: 0, entry: 0 }]])
    );
}

#[test]
fn test_unreadable_attribute_is_a_mesh_conversion_error() {
    let settings = FbxLoaderSettings::default();
    let mut short = plain_mesh(3, vec![vec![0, 1, 2]], vec![0, 1, 2], vec![], vec![]);
    short.normals = VertexStreamData { exists: true, indices: vec![0, 1], value_count: 3 };
    let made = create_mesh_from_group(&short, &vec![0, 1, 2], 0, 0, &settings);
    assert!(matches!(made, Err(FbxError::MeshConversion(_))));

    let mut dangling = plain_mesh(3, vec![vec![0, 1, 2]], vec![0, 1, 2], vec![], vec![]);
    dangling.uvs = VertexStreamData { exists: true, indices: vec![0, 1, 3], value_count: 3 };
    let made = create_mesh_from_group(&dangling, &vec![0, 1, 2], 0, 0, &settings);
    assert!(matches!(made, Err(FbxError::MeshConversion(_))));

    // Slots past the vertices are not read.
    let mut spare = plain_mesh(2, vec![vec![0, 1, 1]], vec![0, 1], vec![], vec![]);
    spare.uvs = VertexStreamData { exists: true, indices: vec![0, 1, 9], value_count: 2 };
    assert!(create_mesh_from_group(&spare, &vec![0, 1, 1], 0, 0, &settings).is_ok());
}

#[test]
fn test_label_out_of_range_is_a_mesh_conversion_error() {
    let mesh = plain_mesh(3, vec![vec![0, 1, 2]], vec![0, 1, 2], vec![], vec![]);
    let settings = FbxLoaderSettings::default();
    let made = create_mesh_from_group(&mesh, &vec![0, 1, 2], usize::MAX / 1000 + 1, 0, &settings);
    assert!(matches!(made, Err(FbxError::MeshConversion(_))));
    let made = create_mesh_from_group(&mesh, &vec![0, 1, 2], usize::MAX / 1000, 999, &settings);
    assert!(matches!(made, Err(FbxError::MeshConversion(_))));
    let made = create_mesh_from_group(&mesh, &vec![0, 1, 2], usize::MAX / 1000, 0, &settings);
    assert_eq!(made.map(|m| m.label).ok(), Some(usize::MAX / 1000 * 1000));
}

#[test]
fn test_labels_are_unique_per_node_and_group() {
    let mesh = plain_mesh(3, vec![vec![0, 1, 2]], vec![0, 1, 2], vec![], vec![]);
    let settings = FbxLoaderSettings::default();
    // Group 1000 of node 0 would bear the label number of group 0 of node 1.
    let made = create_mesh_from_group(&mesh, &vec![0, 1, 2], 0, 1000, &settings);
    assert!(matches!(made, Err(FbxError::MeshConversion(_))));
    let made = create_mesh_from_group(&mesh, &vec![0, 1, 2], 0, usize::MAX, &settings);
    assert!(matches!(made, Err(FbxError::MeshConversion(_))));
    let last = create_mesh_from_group(&mesh, &vec![0, 1, 2], 0, 999, &settings);
    assert_eq!(last.map(|m| m.label).ok(), Some(999));
    let next = create_mesh_from_group(&mesh, &vec![0, 1, 2], 1, 0, &settings);
    assert_eq!(next.map(|m| m.label).ok(), Some(1000));

    // A mesh with such a group fails the conversion.
    let wide = plain_mesh(3, vec![vec![0, 1, 2]], vec![0, 1, 2], vec![1000], vec!["A"]);
    let out = process_meshes(&scene_of(vec![node_with("A", Some(wide))]), &settings);
    assert!(matches!(out, Err(FbxError::MeshConversion(_))));
}

#[test]
fn test_process_meshes() {
    let two_groups = plain_mesh(
        4,
        vec![vec![0, 1, 2], vec![2, 3, 0]],
        vec![0, 1, 2, 3],
        vec![1, 0],
        vec!["Red", "Blue"],
    );
    let one_group = plain_mesh(3, vec![vec![0, 1, 2]], vec![0, 1, 2], vec![4], vec!["Pink"]);
    let scene = scene_of(vec![
        node_with("Empty", None),
        node_with("Cube", Some(two_groups)),
        node_with("", Some(one_group.clone())),
        node_with("Cube", Some(one_group)),
    ]);
    let out = match process_meshes(&scene, &FbxLoaderSettings::default()) {
        Ok(out) => out,
        Err(error) => panic!("{}", error.to_string()),
    };

    let labels: Vec<usize> = out.meshes.iter().map(|m| m.label).collect();
    assert_eq!(labels, vec![1001, 1000, 2004, 3004]);
    assert_eq!(out.transforms, vec![1, 1, 2, 3]);
    assert_eq!(
        out.material_info,
        vec![
            vec!["Blue".to_string()],
            vec!["Red".to_string()],
            vec!["default".to_string()],
            vec!["default".to_string()],
        ]
    );
    assert_eq!(out.meshes[0].indices, vec![0, 1, 2]);
    assert_eq!(out.meshes[1].indices, vec![2, 3, 0]);
    assert_eq!(out.meshes[1].node_index, 1);
    assert_eq!(out.meshes[1].material_index, 0);
    // Each node is given the position of the first of its meshes.
    assert_eq!(out.node_meshes, vec![None, Some(0), Some(2), Some(3)]);
    // Only the group 0 of a named node is registered.
    assert_eq!(out.named_meshes.get("Cube"), Some(1));
    assert_eq!(out.named_meshes.get("Empty"), None);
    assert_eq!(out.named_meshes.get(""), None);
}

#[test]
fn test_empty_mesh_is_skipped() {
    let no_vertices = plain_mesh(0, vec![vec![0, 1, 2]], vec![0, 1, 2], vec![], vec![]);
    let mut no_faces = plain_mesh(3, vec![], vec![0, 1, 2], vec![], vec![]);
    // Not even an attribute that cannot be read makes a skipped mesh fail.
    no_faces.normals = VertexStreamData { exists: true, indices: vec![], value_count: 0 };
    let scene = scene_of(vec![
        node_with("A", Some(no_vertices)),
        node_with("B", Some(no_faces)),
        node_with("C", None),
    ]);
    let out = match process_meshes(&scene, &FbxLoaderSettings::default()) {
        Ok(out) => out,
        Err(error) => panic!("{}", error.to_string()),
    };

    assert!(out.meshes.is_empty());
    assert_eq!(out.node_meshes, vec![None, None, None]);
    assert!(out.transforms.is_empty());
    assert!(out.material_info.is_empty());
    assert_eq!(out.named_meshes.get("A"), None);
    assert_eq!(out.named_meshes.get("B"), None);
}

#[test]
fn test_one_bad_mesh_fails_the_whole_conversion() {
    let good = plain_mesh(3, vec![vec![0, 1, 2]], vec![0, 1, 2], vec![], vec![]);
    let mut bad = plain_mesh(3, vec![vec![0, 1, 2]], vec![0, 1, 2], vec![], vec![]);
    bad.normals = VertexStreamData { exists: true, indices: vec![0], value_count: 1 };
    let scene = scene_of(vec![node_with("A", Some(good)), node_with("B", Some(bad))]);
    let out = process_meshes(&scene, &FbxLoaderSettings::default());

    match out {
        Err(error) => {
            assert!(matches!(error, FbxError::MeshConversion(_)));
            assert_eq!(
                error.to_string(),
                "Failed to convert mesh: normals do not cover every vertex"
            );
        }
        Ok(_) => panic!("the conversion should have failed"),
    }
}
