//! Conversion of the source's nodes, and of the skins of their meshes.

use std::collections::HashMap;
use vstd::prelude::*;
use vstd::string::StringExecFns;
use crate::label::{decimal, numbered};
use crate::mesh::views;
use crate::names::NameIndex;
use crate::source::{ClusterData, NodeData, SceneData};
use crate::text::{begins_with, starts_with};
use crate::types::{FbxNode, FbxSkin};

verus! {

broadcast use vstd::std_specs::hash::group_hash_axioms;

/// What a converted node holds.
pub struct FbxNodeView {
    pub index: usize,
    pub name: Seq<char>,
    pub children: Seq<usize>,
    pub mesh: Option<usize>,
    pub skin: Option<usize>,
    pub visible: bool,
}

impl View for FbxNode {
    type V = FbxNodeView;

    open spec fn view(&self) -> FbxNodeView {
        FbxNodeView {
            index: self.index,
            name: self.name@,
            children: self.children@,
            mesh: self.mesh,
            skin: self.skin,
            visible: self.visible,
        }
    }
}

/// What a converted skin holds.
pub struct FbxSkinView {
    pub index: usize,
    pub name: Seq<char>,
    pub joints: Seq<usize>,
    pub inverse_bind_matrices: Seq<usize>,
}

impl View for FbxSkin {
    type V = FbxSkinView;

    open spec fn view(&self) -> FbxSkinView {
        FbxSkinView {
            index: self.index,
            name: self.name@,
            joints: self.joints@,
            inverse_bind_matrices: self.inverse_bind_matrices@,
        }
    }
}

/// The display name of a node: its own name, or, if that is empty, `Node_`
/// followed by its index.
pub open spec fn node_name(node: NodeData, index: usize) -> Seq<char> {
    if node.name@.len() == 0 {
        "Node_"@ + decimal(index as nat)
    } else {
        node.name@
    }
}

/// The converted form of the node at `index`, where `meshes` gives for each
/// node the resolved mesh that came of its mesh, if one did. A node with a
/// mesh refers to what `meshes` gives at the node's own index; a node
/// without a mesh, or past the end of `meshes`, refers to none.
pub open spec fn converted_node(node: NodeData, index: usize, meshes: Seq<Option<usize>>) -> FbxNodeView {
    FbxNodeView {
        index,
        name: node_name(node, index),
        children: Seq::empty(),
        mesh: if node.mesh is Some && index < meshes.len() {
            meshes[index as int]
        } else {
            None
        },
        skin: None,
        visible: node.visible,
    }
}

/// The converted forms of all nodes, in source order.
pub open spec fn converted_nodes(nodes: Seq<NodeData>, meshes: Seq<Option<usize>>) -> Seq<
    FbxNodeView,
> {
    Seq::new(nodes.len(), |i: int| converted_node(nodes[i], i as usize, meshes))
}

/// The lookup by name of the first `upto` nodes: each node with a name of its
/// own is registered under it, a later one in place of an earlier one of the
/// same name.
pub open spec fn named_nodes(nodes: Seq<NodeData>, upto: int) -> Map<Seq<char>, usize>
    decreases upto,
{
    if upto <= 0 {
        Map::empty()
    } else if nodes[upto - 1].name@.len() > 0 {
        named_nodes(nodes, upto - 1).insert(nodes[upto - 1].name@, (upto - 1) as usize)
    } else {
        named_nodes(nodes, upto - 1)
    }
}

/// The lookup by element id of the first `upto` nodes, a later node in place
/// of an earlier one with the same id.
pub open spec fn node_ids(nodes: Seq<NodeData>, upto: int) -> Map<u32, usize>
    decreases upto,
{
    if upto <= 0 {
        Map::empty()
    } else {
        node_ids(nodes, upto - 1).insert(nodes[upto - 1].element_id, (upto - 1) as usize)
    }
}

/// Converts the nodes of the scene: one node for each source node, in source
/// order, addressed by its index. The list `meshes` goes by node index too:
/// it gives for each node the resolved mesh that came of its mesh, if one
/// did. Besides the nodes the result holds the lookup of nodes by name and
/// the lookup of nodes by element id.
pub fn process_nodes(scene: &SceneData, meshes: &Vec<Option<usize>>) -> (out: (
    Vec<FbxNode>,
    NameIndex,
    HashMap<u32, usize>,
))
    ensures
        views(out.0@) == converted_nodes(scene.nodes@, meshes@),
        out.1@ == named_nodes(scene.nodes@, scene.nodes@.len() as int),
        out.2@ == node_ids(scene.nodes@, scene.nodes@.len() as int),
{
    let mut nodes: Vec<FbxNode> = Vec::new();
    let mut named = NameIndex::new();
    let mut ids: HashMap<u32, usize> = HashMap::new();
    let mut i: usize = 0;
    while i < scene.nodes.len()
        invariant
            i <= scene.nodes@.len(),
            nodes@.len() == i,
            forall|j: int|
                0 <= j < i ==> (#[trigger] nodes@[j])@ == converted_node(
                    scene.nodes@[j],
                    j as usize,
                    meshes@,
                ),
            named@ == named_nodes(scene.nodes@, i as int),
            ids@ == node_ids(scene.nodes@, i as int),
        decreases scene.nodes@.len() - i,
    {
        let node = &scene.nodes[i];
        let has_name = !node.name.as_str().is_empty();
        let name = if has_name {
            node.name.clone()
        } else {
            numbered("Node_", i)
        };
        let mesh = if node.mesh.is_some() && i < meshes.len() {
            meshes[i]
        } else {
            None
        };
        nodes.push(
            FbxNode {
                index: i,
                name,
                children: Vec::new(),
                mesh,
                skin: None,
                visible: node.visible,
            },
        );
        ids.insert(node.element_id, i);
        if has_name {
            named.insert(node.name.clone(), i);
        }
        i += 1;
    }
    (nodes, named, ids)
}

/// The node that a cluster follows: the one that the lookup `node_ids` gives
/// for the element id of its bone. A cluster without a bone, or whose bone is
/// not in the lookup, follows none.
pub open spec fn bone_node(cluster: ClusterData, node_ids: Map<u32, usize>) -> Option<usize> {
    match cluster.bone_element_id {
        Some(id) => if node_ids.contains_key(id) {
            Some(node_ids[id])
        } else {
            None
        },
        None => None,
    }
}

/// The joints among the first `upto` clusters: for each cluster that follows
/// a node, in order, that node.
pub open spec fn resolved_joints(clusters: Seq<ClusterData>, node_ids: Map<u32, usize>, upto: int) -> Seq<
    usize,
>
    decreases upto,
{
    if upto <= 0 {
        Seq::empty()
    } else {
        match bone_node(clusters[upto - 1], node_ids) {
            Some(joint) => resolved_joints(clusters, node_ids, upto - 1).push(joint),
            None => resolved_joints(clusters, node_ids, upto - 1),
        }
    }
}

/// The positions of those among the first `upto` clusters that follow a
/// node, in order.
pub open spec fn resolved_clusters(clusters: Seq<ClusterData>, node_ids: Map<u32, usize>, upto: int) -> Seq<
    usize,
>
    decreases upto,
{
    if upto <= 0 {
        Seq::empty()
    } else {
        match bone_node(clusters[upto - 1], node_ids) {
            Some(_) => resolved_clusters(clusters, node_ids, upto - 1).push((upto - 1) as usize),
            None => resolved_clusters(clusters, node_ids, upto - 1),
        }
    }
}

/// Joints and clusters correspond: there is one joint for each resolved
/// cluster, the joint at a position is the node that the cluster at the same
/// position follows, and the clusters come in the deformer's order.
pub proof fn lemma_joints_match_clusters(
    clusters: Seq<ClusterData>,
    node_ids: Map<u32, usize>,
    upto: int,
)
    requires
        upto <= clusters.len() <= usize::MAX,
    ensures
        resolved_joints(clusters, node_ids, upto).len() == resolved_clusters(
            clusters,
            node_ids,
            upto,
        ).len(),
        forall|k: int|
            0 <= k < resolved_clusters(clusters, node_ids, upto).len() ==> {
                let c = #[trigger] resolved_clusters(clusters, node_ids, upto)[k];
                &&& c < upto
                &&& bone_node(clusters[c as int], node_ids) == Some(
                    resolved_joints(clusters, node_ids, upto)[k],
                )
            },
        forall|j: int, k: int|
            0 <= j < k < resolved_clusters(clusters, node_ids, upto).len() ==> (
            #[trigger] resolved_clusters(clusters, node_ids, upto)[j]) < (
            #[trigger] resolved_clusters(clusters, node_ids, upto)[k]),
        resolved_clusters(clusters, node_ids, upto).len() == 0 <==> forall|c: int|
            0 <= c < upto ==> bone_node(#[trigger] clusters[c], node_ids) is None,
    decreases upto,
{
    if upto > 0 {
        lemma_joints_match_clusters(clusters, node_ids, upto - 1);
    }
}

/// The clusters of the skin of a node: those of the first skin deformer of
/// its mesh. A node without a mesh, or whose mesh has no skin deformer, has
/// none.
pub open spec fn skin_clusters(node: NodeData) -> Seq<ClusterData> {
    match node.mesh {
        Some(mesh) => if mesh.skin_deformers@.len() > 0 {
            mesh.skin_deformers@[0].clusters@
        } else {
            Seq::empty()
        },
        None => Seq::empty(),
    }
}

/// The name of the skin of the node at `index`: the name of the node followed
/// by `_Skin`, or, if the node has no name, `Skin_` followed by the index.
pub open spec fn skin_name(node: NodeData, index: usize) -> Seq<char> {
    if node.name@.len() == 0 {
        "Skin_"@ + decimal(index as nat)
    } else {
        node.name@ + "_Skin"@
    }
}

/// The skin of the node at `index`, if it has one: at least one cluster of
/// its skin must follow a node. The skin is made of the clusters that do: it
/// has their joints and, for each joint, the inverse bind matrix of the
/// cluster of that joint, in the deformer's order.
pub open spec fn node_skin(node: NodeData, index: usize, node_ids: Map<u32, usize>) -> Option<
    FbxSkinView,
> {
    let clusters = skin_clusters(node);
    if resolved_clusters(clusters, node_ids, clusters.len() as int).len() > 0 {
        Some(
            FbxSkinView {
                index,
                name: skin_name(node, index),
                joints: resolved_joints(clusters, node_ids, clusters.len() as int),
                inverse_bind_matrices: resolved_clusters(
                    clusters,
                    node_ids,
                    clusters.len() as int,
                ),
            },
        )
    } else {
        None
    }
}

/// The skins of the first `upto` nodes, in source order.
pub open spec fn scene_skins(nodes: Seq<NodeData>, node_ids: Map<u32, usize>, upto: int) -> Seq<
    FbxSkinView,
>
    decreases upto,
{
    if upto <= 0 {
        Seq::empty()
    } else {
        match node_skin(nodes[upto - 1], (upto - 1) as usize, node_ids) {
            Some(skin) => scene_skins(nodes, node_ids, upto - 1).push(skin),
            None => scene_skins(nodes, node_ids, upto - 1),
        }
    }
}

/// The lookup by name of the skins of the first `upto` nodes. A skin is
/// registered, with its position in the list of skins, unless its name begins
/// with `Skin_`.
pub open spec fn named_skins(nodes: Seq<NodeData>, node_ids: Map<u32, usize>, upto: int) -> Map<
    Seq<char>,
    usize,
>
    decreases upto,
{
    if upto <= 0 {
        Map::empty()
    } else {
        match node_skin(nodes[upto - 1], (upto - 1) as usize, node_ids) {
            Some(skin) => if begins_with(skin.name, "Skin_"@) {
                named_skins(nodes, node_ids, upto - 1)
            } else {
                named_skins(nodes, node_ids, upto - 1).insert(
                    skin.name,
                    scene_skins(nodes, node_ids, upto - 1).len() as usize,
                )
            },
            None => named_skins(nodes, node_ids, upto - 1),
        }
    }
}

/// Resolves the bones of the clusters of a skin to nodes: lists the joints,
/// and the positions of the clusters they belong to.
fn resolve_joints(clusters: &Vec<ClusterData>, node_ids: &HashMap<u32, usize>) -> (out: (
    Vec<usize>,
    Vec<usize>,
))
    ensures
        out.0@ == resolved_joints(clusters@, node_ids@, clusters@.len() as int),
        out.1@ == resolved_clusters(clusters@, node_ids@, clusters@.len() as int),
{
    let mut joints: Vec<usize> = Vec::new();
    let mut positions: Vec<usize> = Vec::new();
    let mut c: usize = 0;
    while c < clusters.len()
        invariant
            c <= clusters@.len(),
            joints@ == resolved_joints(clusters@, node_ids@, c as int),
            positions@ == resolved_clusters(clusters@, node_ids@, c as int),
        decreases clusters@.len() - c,
    {
        match clusters[c].bone_element_id {
            Some(id) => {
                match node_ids.get(&id) {
                    Some(joint) => {
                        joints.push(*joint);
                        positions.push(c);
                    },
                    None => {},
                }
            },
            None => {},
        }
        c += 1;
    }
    (joints, positions)
}

/// Converts the skins of the scene. A skin comes from the first skin
/// deformer of the mesh of a node, and is made of those of its clusters whose
/// bone resolves to a node through the lookup `node_ids`: one joint and one
/// inverse bind matrix for each, in the deformer's order. Where no bone
/// resolves, the node gets no skin.
pub fn process_skins(scene: &SceneData, node_ids: &HashMap<u32, usize>) -> (out: (
    Vec<FbxSkin>,
    NameIndex,
))
    ensures
        views(out.0@) == scene_skins(scene.nodes@, node_ids@, scene.nodes@.len() as int),
        out.1@ == named_skins(scene.nodes@, node_ids@, scene.nodes@.len() as int),
{
    let mut skins: Vec<FbxSkin> = Vec::new();
    let mut named = NameIndex::new();
    let mut i: usize = 0;
    while i < scene.nodes.len()
        invariant
            i <= scene.nodes@.len(),
            views(skins@) == scene_skins(scene.nodes@, node_ids@, i as int),
            named@ == named_skins(scene.nodes@, node_ids@, i as int),
        decreases scene.nodes@.len() - i,
    {
        let node = &scene.nodes[i];
        match &node.mesh {
            Some(mesh) => {
                if mesh.skin_deformers.len() > 0 {
                    let clusters = &mesh.skin_deformers[0].clusters;
                    let (joints, positions) = resolve_joints(clusters, node_ids);
                    if positions.len() > 0 {
                        let name = if node.name.as_str().is_empty() {
                            numbered("Skin_", i)
                        } else {
                            node.name.clone().concat("_Skin")
                        };
                        if !starts_with(name.as_str(), "Skin_") {
                            named.insert(name.clone(), skins.len());
                        }
                        skins.push(
                            FbxSkin {
                                index: i,
                                name,
                                joints,
                                inverse_bind_matrices: positions,
                            },
                        );
                    }
                }
            },
            None => {},
        }
        i += 1;
    }
    (skins, named)
}

} // verus!
