//! Conversion of the source's meshes: one resolved mesh for each material
//! group of the mesh of each node.

use vstd::pervasive::unreached;
use vstd::prelude::*;
use vstd::string::StringExecFns;
use crate::error::FbxError;
use crate::loader::{AssetUsages, FbxLoaderSettings};
use crate::names::NameIndex;
use crate::source::{MeshData, NodeData, SceneData, VertexStreamData};

pub use crate::partition::{
    group_faces_by_material, group_order, lists, material_group_order, material_groups,
    ordered_groups, views,
};
pub use crate::skinning::{process_skinning_data, rows, skin_influences, Influence};

verus! {

/// A resolved mesh: the triangles of one material group of the mesh of one
/// node. Attribute values are not held here: for every vertex slot, `normals`
/// and `uvs` give the position of its value in the source's value lists, and
/// `skinning` gives where its weights stand.
#[derive(Debug, Clone)]
pub struct ResolvedMesh {
    /// The number of the mesh's label.
    pub label: usize,
    /// The position of the node in the source's node list.
    pub node_index: usize,
    /// The slot of the material in the mesh's material list.
    pub material_index: usize,
    /// Where the mesh is kept.
    pub usages: AssetUsages,
    /// For every vertex slot, the normal that it has; absent if the source
    /// gives no normals.
    pub normals: Option<Vec<u32>>,
    /// For every vertex slot, the texture coordinate that it has; absent if
    /// the source gives none.
    pub uvs: Option<Vec<u32>>,
    /// For every vertex slot, its skin influences; absent if the mesh has no
    /// skin deformer.
    pub skinning: Option<Vec<Vec<Influence>>>,
    /// The triangle list.
    pub indices: Vec<u32>,
}

/// What a resolved mesh holds.
pub struct ResolvedMeshView {
    pub label: usize,
    pub node_index: usize,
    pub material_index: usize,
    pub usages: AssetUsages,
    pub normals: Option<Seq<u32>>,
    pub uvs: Option<Seq<u32>>,
    pub skinning: Option<Seq<Seq<Influence>>>,
    pub indices: Seq<u32>,
}

impl View for ResolvedMesh {
    type V = ResolvedMeshView;

    open spec fn view(&self) -> ResolvedMeshView {
        ResolvedMeshView {
            label: self.label,
            node_index: self.node_index,
            material_index: self.material_index,
            usages: self.usages,
            normals: match self.normals {
                Some(sources) => Some(sources@),
                None => None,
            },
            uvs: match self.uvs {
                Some(sources) => Some(sources@),
                None => None,
            },
            skinning: match self.skinning {
                Some(influences) => Some(rows(influences@)),
                None => None,
            },
            indices: self.indices@,
        }
    }
}

/// Whether an attribute can be read for every vertex slot: if the mesh has
/// the attribute, it selects an existing value for each of the first
/// `num_vertices` slots.
pub open spec fn stream_usable(stream: VertexStreamData, num_vertices: int) -> bool {
    stream.exists ==> {
        &&& stream.indices@.len() >= num_vertices
        &&& forall|i: int|
            0 <= i < num_vertices ==> (#[trigger] stream.indices@[i]) < stream.value_count
    }
}

/// For every vertex slot the value of an attribute that it has, or nothing if
/// the mesh does not have the attribute.
pub open spec fn stream_sources(stream: VertexStreamData, num_vertices: int) -> Option<Seq<u32>> {
    if stream.exists {
        Some(stream.indices@.take(num_vertices))
    } else {
        None
    }
}

/// The number of the label of the mesh for the group `material_index` of the
/// node at `mesh_index`.
pub open spec fn mesh_label(mesh_index: usize, material_index: usize) -> int {
    mesh_index * 1000 + material_index
}

/// Whether the group `material_index` of the node at `mesh_index` can have a
/// label: the group must be one of the first thousand of its mesh, so that
/// the label numbers of two nodes never meet, and the number must be
/// representable.
pub open spec fn label_fits(mesh_index: usize, material_index: usize) -> bool {
    material_index < 1000 && mesh_label(mesh_index, material_index) <= usize::MAX
}

/// The label numbers tell the meshes apart: two groups that can have a label
/// and have the same label number are the same group of the same node.
pub proof fn lemma_mesh_labels_distinct(
    mesh_index: usize,
    material_index: usize,
    other_mesh_index: usize,
    other_material_index: usize,
)
    requires
        label_fits(mesh_index, material_index),
        label_fits(other_mesh_index, other_material_index),
        mesh_label(mesh_index, material_index) == mesh_label(
            other_mesh_index,
            other_material_index,
        ),
    ensures
        mesh_index == other_mesh_index,
        material_index == other_material_index,
{
}

/// Whether the group `material_index` of the mesh of the node at `mesh_index`
/// can be resolved: the attributes that the mesh has can be read for every
/// vertex slot, and the group can have a label.
pub open spec fn can_resolve(mesh: MeshData, mesh_index: usize, material_index: usize) -> bool {
    &&& stream_usable(mesh.normals, mesh.num_vertices as int)
    &&& stream_usable(mesh.uvs, mesh.num_vertices as int)
    &&& label_fits(mesh_index, material_index)
}

/// The resolved mesh of a material group.
pub open spec fn resolved_mesh(
    mesh: MeshData,
    indices: Seq<u32>,
    mesh_index: usize,
    material_index: usize,
    settings: FbxLoaderSettings,
) -> ResolvedMeshView {
    ResolvedMeshView {
        label: mesh_label(mesh_index, material_index) as usize,
        node_index: mesh_index,
        material_index,
        usages: settings.load_meshes,
        normals: stream_sources(mesh.normals, mesh.num_vertices as int),
        uvs: stream_sources(mesh.uvs, mesh.num_vertices as int),
        skinning: if mesh.skin_deformers@.len() > 0 {
            Some(skin_influences(mesh))
        } else {
            None
        },
        indices,
    }
}

/// Checks whether an attribute can be read for every vertex slot.
fn is_stream_usable(stream: &VertexStreamData, num_vertices: usize) -> (usable: bool)
    ensures
        usable == stream_usable(*stream, num_vertices as int),
{
    if !stream.exists {
        return true;
    }
    if stream.indices.len() < num_vertices {
        return false;
    }
    let mut i: usize = 0;
    while i < num_vertices
        invariant
            stream.exists,
            i <= num_vertices <= stream.indices@.len(),
            forall|j: int| 0 <= j < i ==> (#[trigger] stream.indices@[j]) < stream.value_count,
        decreases num_vertices - i,
    {
        if stream.indices[i] as usize >= stream.value_count {
            return false;
        }
        i += 1;
    }
    true
}

/// Lists for every vertex slot the value of an attribute that it has.
fn read_stream_sources(stream: &VertexStreamData, num_vertices: usize) -> (sources: Option<Vec<u32>>)
    requires
        stream_usable(*stream, num_vertices as int),
    ensures
        match sources {
            Some(list) => stream_sources(*stream, num_vertices as int) == Some(list@),
            None => stream_sources(*stream, num_vertices as int) is None,
        },
{
    if !stream.exists {
        return None;
    }
    let mut list: Vec<u32> = Vec::new();
    let mut i: usize = 0;
    while i < num_vertices
        invariant
            i <= num_vertices <= stream.indices@.len(),
            list@ == stream.indices@.take(i as int),
        decreases num_vertices - i,
    {
        list.push(stream.indices[i]);
        i += 1;
    }
    Some(list)
}

/// A copy of a triangle list.
fn copy_indices(indices: &Vec<u32>) -> (copy: Vec<u32>)
    ensures
        copy@ == indices@,
{
    let mut copy: Vec<u32> = Vec::new();
    let mut i: usize = 0;
    while i < indices.len()
        invariant
            i <= indices@.len(),
            copy@ == indices@.take(i as int),
        decreases indices@.len() - i,
    {
        copy.push(indices[i]);
        i += 1;
    }
    copy
}

/// Resolves the mesh of one material group: the group `material_index`, with
/// the triangle list `indices`, of the mesh of the node at `mesh_index`. The
/// mesh gets the label number `mesh_index * 1000 + material_index`, normals
/// and texture coordinates where the source has them, and skin influences
/// where the source has a skin deformer. It fails, as a mesh conversion,
/// exactly if an attribute that the source has cannot be read for every
/// vertex slot, or the group cannot have a label: it is not one of the first
/// thousand of its mesh, or the label number cannot be represented.
pub fn create_mesh_from_group(
    mesh: &MeshData,
    indices: &Vec<u32>,
    mesh_index: usize,
    material_index: usize,
    settings: &FbxLoaderSettings,
) -> (resolved: Result<ResolvedMesh, FbxError>)
    ensures
        match resolved {
            Ok(made) => can_resolve(*mesh, mesh_index, material_index) && made@ == resolved_mesh(
                *mesh,
                indices@,
                mesh_index,
                material_index,
                *settings,
            ),
            Err(error) => !can_resolve(*mesh, mesh_index, material_index)
                && error is MeshConversion,
        },
{
    if material_index >= 1000 {
        return Err(
            FbxError::MeshConversion(String::from_str("material slot out of range for a label")),
        );
    }
    let label = match mesh_index.checked_mul(1000) {
        Some(base) => match base.checked_add(material_index) {
            Some(label) => label,
            None => {
                return Err(FbxError::MeshConversion(String::from_str("mesh label out of range")));
            },
        },
        None => {
            return Err(FbxError::MeshConversion(String::from_str("mesh label out of range")));
        },
    };
    if !is_stream_usable(&mesh.normals, mesh.num_vertices) {
        return Err(
            FbxError::MeshConversion(String::from_str("normals do not cover every vertex")),
        );
    }
    if !is_stream_usable(&mesh.uvs, mesh.num_vertices) {
        return Err(
            FbxError::MeshConversion(
                String::from_str("texture coordinates do not cover every vertex"),
            ),
        );
    }
    let normals = read_stream_sources(&mesh.normals, mesh.num_vertices);
    let uvs = read_stream_sources(&mesh.uvs, mesh.num_vertices);
    let skinning = if mesh.skin_deformers.len() > 0 {
        Some(process_skinning_data(mesh))
    } else {
        None
    };
    Ok(
        ResolvedMesh {
            label,
            node_index: mesh_index,
            material_index,
            usages: settings.load_meshes,
            normals,
            uvs,
            skinning,
            indices: copy_indices(indices),
        },
    )
}

/// Whether a mesh is converted: it must have a vertex and a face.
pub open spec fn is_convertible(mesh: MeshData) -> bool {
    mesh.num_vertices != 0 && mesh.face_triangles@.len() != 0
}

/// The mesh of a node, if it has one that is converted.
pub open spec fn convertible_mesh(node: NodeData) -> Option<MeshData> {
    match node.mesh {
        Some(mesh) => if is_convertible(mesh) {
            Some(mesh)
        } else {
            None
        },
        None => None,
    }
}

/// The name of the material in slot `material_index` of a mesh, or `default`
/// if the mesh has no such slot.
pub open spec fn material_name(mesh: MeshData, material_index: usize) -> Seq<char> {
    if material_index < mesh.material_names@.len() {
        mesh.material_names@[material_index as int]@
    } else {
        "default"@
    }
}

/// What the conversion puts out for one material group of one node.
pub struct MeshRecord {
    /// The resolved mesh.
    pub mesh: ResolvedMeshView,
    /// The node whose geometry transform places the mesh.
    pub transform_node: usize,
    /// The name of the material of the group.
    pub material_name: Seq<char>,
    /// The name under which the mesh is registered, if it is registered: the
    /// name of the node, for the group 0 of a node with a name.
    pub registered_name: Option<Seq<char>>,
}

/// The record of the group at position `k` of the mesh `mesh` of the node
/// `node`, which stands at `index`.
pub open spec fn group_record(
    node: NodeData,
    mesh: MeshData,
    index: usize,
    settings: FbxLoaderSettings,
    k: int,
) -> MeshRecord {
    let group = ordered_groups(mesh)[k];
    MeshRecord {
        mesh: resolved_mesh(mesh, group.indices, index, group.material_index, settings),
        transform_node: index,
        material_name: material_name(mesh, group.material_index),
        registered_name: if group.material_index == 0 && node.name@.len() > 0 {
            Some(node.name@)
        } else {
            None
        },
    }
}

/// The records of a node: one for each material group of its mesh, and none
/// if it has no mesh that is converted.
pub open spec fn node_records(node: NodeData, index: usize, settings: FbxLoaderSettings) -> Seq<
    MeshRecord,
> {
    match convertible_mesh(node) {
        Some(mesh) => Seq::new(
            ordered_groups(mesh).len(),
            |k: int| group_record(node, mesh, index, settings, k),
        ),
        None => Seq::empty(),
    }
}

/// Whether every material group of a node can be resolved.
pub open spec fn node_resolvable(node: NodeData, index: usize) -> bool {
    match convertible_mesh(node) {
        Some(mesh) => forall|k: int|
            0 <= k < ordered_groups(mesh).len() ==> can_resolve(
                mesh,
                index,
                (#[trigger] ordered_groups(mesh)[k]).material_index,
            ),
        None => true,
    }
}

/// The records of the first `upto` nodes, in source order.
pub open spec fn scene_records(nodes: Seq<NodeData>, settings: FbxLoaderSettings, upto: int) -> Seq<
    MeshRecord,
>
    decreases upto,
{
    if upto <= 0 {
        Seq::empty()
    } else {
        scene_records(nodes, settings, upto - 1) + node_records(
            nodes[upto - 1],
            (upto - 1) as usize,
            settings,
        )
    }
}

/// Whether every material group of the first `upto` nodes can be resolved.
pub open spec fn scene_resolvable(nodes: Seq<NodeData>, upto: int) -> bool {
    forall|i: int| 0 <= i < upto ==> node_resolvable(#[trigger] nodes[i], i as usize)
}

/// The position, in the records of the scene, of the first record of the
/// node at `index`, if the node has a record.
pub open spec fn node_first_mesh(nodes: Seq<NodeData>, settings: FbxLoaderSettings, index: int) -> Option<
    usize,
> {
    if node_records(nodes[index], index as usize, settings).len() > 0 {
        Some(scene_records(nodes, settings, index).len() as usize)
    } else {
        None
    }
}

/// For each node, the position of the first of its records, if it has one.
pub open spec fn node_meshes(nodes: Seq<NodeData>, settings: FbxLoaderSettings) -> Seq<
    Option<usize>,
> {
    Seq::new(nodes.len(), |i: int| node_first_mesh(nodes, settings, i))
}

/// The lookup by name that a sequence of records amounts to: each registered
/// name maps to the position of its record, a later record in place of an
/// earlier one with the same name.
pub open spec fn named_from(records: Seq<MeshRecord>) -> Map<Seq<char>, usize>
    decreases records.len(),
{
    if records.len() == 0 {
        Map::empty()
    } else {
        match records.last().registered_name {
            Some(name) => named_from(records.drop_last()).insert(
                name,
                (records.len() - 1) as usize,
            ),
            None => named_from(records.drop_last()),
        }
    }
}

/// Whether the given lists hold what the records say.
pub open spec fn outputs_hold(
    meshes: Seq<ResolvedMesh>,
    transforms: Seq<usize>,
    material_info: Seq<Vec<String>>,
    named: Map<Seq<char>, usize>,
    records: Seq<MeshRecord>,
) -> bool {
    &&& meshes.len() == records.len()
    &&& transforms.len() == records.len()
    &&& material_info.len() == records.len()
    &&& forall|j: int| 0 <= j < records.len() ==> (#[trigger] meshes[j])@ == records[j].mesh
    &&& forall|j: int|
        0 <= j < records.len() ==> (#[trigger] transforms[j]) == records[j].transform_node
    &&& forall|j: int|
        0 <= j < records.len() ==> (#[trigger] material_info[j])@.len() == 1
            && material_info[j]@[0]@ == records[j].material_name
    &&& named == named_from(records)
}

/// The meshes of a converted scene. The lists go together: position `j` of
/// each speaks of the same mesh.
#[derive(Debug, Clone)]
pub struct MeshOutputs {
    /// The resolved meshes.
    pub meshes: Vec<ResolvedMesh>,
    /// The meshes that go by a name: those of the group 0 of a named node.
    pub named_meshes: NameIndex,
    /// For each mesh, the node whose geometry transform places it.
    pub transforms: Vec<usize>,
    /// For each mesh, the names of its materials.
    pub material_info: Vec<Vec<String>>,
    /// For each node of the source, the position of the first of its meshes,
    /// if it has any.
    pub node_meshes: Vec<Option<usize>>,
}

impl MeshOutputs {
    /// Whether the outputs hold what the records say.
    pub open spec fn holds(&self, records: Seq<MeshRecord>) -> bool {
        outputs_hold(
            self.meshes@,
            self.transforms@,
            self.material_info@,
            self.named_meshes@,
            records,
        )
    }
}

/// A node without a mesh, or whose mesh has no vertex or no face, puts out
/// nothing, and cannot make the conversion fail.
pub proof fn lemma_empty_mesh_is_skipped(node: NodeData, index: usize, settings: FbxLoaderSettings)
    requires
        match node.mesh {
            Some(mesh) => mesh.num_vertices == 0 || mesh.face_triangles@.len() == 0,
            None => true,
        },
    ensures
        node_records(node, index, settings) == Seq::<MeshRecord>::empty(),
        node_resolvable(node, index),
{
}

/// A node that puts out nothing leaves the records of the scene as they were.
pub proof fn lemma_skipped_node_adds_nothing(
    nodes: Seq<NodeData>,
    settings: FbxLoaderSettings,
    upto: int,
)
    requires
        0 < upto <= nodes.len(),
        convertible_mesh(nodes[upto - 1]) is None,
    ensures
        scene_records(nodes, settings, upto) == scene_records(nodes, settings, upto - 1),
        scene_resolvable(nodes, upto) == scene_resolvable(nodes, upto - 1),
{
}

/// Every mesh of a scene that can be converted is the mesh of a group that
/// can have a label, of one of the nodes, and bears the label number of that
/// group; and no two meshes of the scene bear the same label number.
pub proof fn lemma_scene_labels_distinct(
    nodes: Seq<NodeData>,
    settings: FbxLoaderSettings,
    upto: int,
)
    requires
        0 <= upto <= nodes.len() <= usize::MAX,
        scene_resolvable(nodes, upto),
    ensures
        forall|p: int|
            0 <= p < scene_records(nodes, settings, upto).len() ==> {
                let made = (#[trigger] scene_records(nodes, settings, upto)[p]).mesh;
                &&& made.node_index < upto
                &&& label_fits(made.node_index, made.material_index)
                &&& made.label == mesh_label(made.node_index, made.material_index)
            },
        forall|p: int, q: int|
            0 <= p < q < scene_records(nodes, settings, upto).len() ==> (#[trigger] scene_records(
                nodes,
                settings,
                upto,
            )[p]).mesh.label != (#[trigger] scene_records(nodes, settings, upto)[q]).mesh.label,
    decreases upto,
{
    if upto > 0 {
        lemma_scene_labels_distinct(nodes, settings, upto - 1);
        let before = scene_records(nodes, settings, upto - 1);
        let node = nodes[upto - 1];
        let index = (upto - 1) as usize;
        let added = node_records(node, index, settings);
        let all = scene_records(nodes, settings, upto);
        match convertible_mesh(node) {
            Some(mesh) => {
                let faces = mesh.face_triangles@.len() as int;
                crate::partition::lemma_group_keys(mesh, faces);
                assert forall|k: int| 0 <= k < added.len() implies {
                    let made = (#[trigger] added[k]).mesh;
                    &&& made.node_index == index
                    &&& made.material_index == ordered_groups(mesh)[k].material_index
                    &&& label_fits(made.node_index, made.material_index)
                    &&& made.label == mesh_label(made.node_index, made.material_index)
                } by {}
                assert forall|p: int| 0 <= p < all.len() implies {
                    let made = (#[trigger] all[p]).mesh;
                    &&& made.node_index < upto
                    &&& label_fits(made.node_index, made.material_index)
                    &&& made.label == mesh_label(made.node_index, made.material_index)
                } by {}
            },
            None => {},
        }
    }
}

/// The name of the material in slot `material_index` of a mesh.
fn material_name_of(mesh: &MeshData, material_index: usize) -> (name: String)
    ensures
        name@ == material_name(*mesh, material_index),
{
    if material_index < mesh.material_names.len() {
        mesh.material_names[material_index].clone()
    } else {
        String::from_str("default")
    }
}

/// The records of a scene grow node by node: those of the first nodes stay
/// where they are when further nodes are taken in.
pub proof fn lemma_records_grow(
    nodes: Seq<NodeData>,
    settings: FbxLoaderSettings,
    from: int,
    upto: int,
)
    requires
        0 <= from <= upto,
    ensures
        scene_records(nodes, settings, from).len() <= scene_records(nodes, settings, upto).len(),
        forall|p: int|
            0 <= p < scene_records(nodes, settings, from).len() ==> scene_records(
                nodes,
                settings,
                upto,
            )[p] == #[trigger] scene_records(nodes, settings, from)[p],
    decreases upto - from,
{
    if from < upto {
        lemma_records_grow(nodes, settings, from, upto - 1);
    }
}

/// The mesh that a node refers to is its own: the position recorded for a
/// node is that of a mesh of that node.
pub proof fn lemma_node_mesh_is_its_own(
    nodes: Seq<NodeData>,
    settings: FbxLoaderSettings,
    index: int,
)
    requires
        0 <= index < nodes.len() <= usize::MAX,
        scene_records(nodes, settings, nodes.len() as int).len() <= usize::MAX,
    ensures
        node_first_mesh(nodes, settings, index) matches Some(p) ==> p < scene_records(
            nodes,
            settings,
            nodes.len() as int,
        ).len() && scene_records(nodes, settings, nodes.len() as int)[p as int].mesh.node_index
            == index,
{
    let before = scene_records(nodes, settings, index);
    let added = node_records(nodes[index], index as usize, settings);
    if added.len() > 0 {
        lemma_records_grow(nodes, settings, index + 1, nodes.len() as int);
        let now = scene_records(nodes, settings, index + 1);
        assert(now[before.len() as int] == added[0]);
    }
}

/// Converts the meshes of the scene. Nodes are taken in source order; a node
/// without a mesh, or whose mesh has no vertex or no face, is skipped. Every
/// material group of the mesh of a node becomes one resolved mesh, the groups
/// in the order in which the faces first meet them. The mesh is placed by the
/// node's geometry transform and listed with the name of its material; the
/// mesh of group 0 is registered under the name of the node, if the node has
/// one. For each node the position of its first mesh is recorded. The
/// conversion fails as a whole, as a mesh conversion, exactly if some group
/// cannot be resolved.
pub fn process_meshes(scene: &SceneData, settings: &FbxLoaderSettings) -> (converted: Result<
    MeshOutputs,
    FbxError,
>)
    ensures
        match converted {
            Ok(out) => {
                &&& scene_resolvable(scene.nodes@, scene.nodes@.len() as int)
                &&& out.holds(scene_records(scene.nodes@, *settings, scene.nodes@.len() as int))
                &&& out.node_meshes@ == node_meshes(scene.nodes@, *settings)
            },
            Err(error) => !scene_resolvable(scene.nodes@, scene.nodes@.len() as int)
                && error is MeshConversion,
        },
{
    let mut meshes: Vec<ResolvedMesh> = Vec::new();
    let mut named = NameIndex::new();
    let mut transforms: Vec<usize> = Vec::new();
    let mut material_info: Vec<Vec<String>> = Vec::new();
    let mut first_meshes: Vec<Option<usize>> = Vec::new();
    let mut i: usize = 0;
    while i < scene.nodes.len()
        invariant
            i <= scene.nodes@.len(),
            scene_resolvable(scene.nodes@, i as int),
            outputs_hold(
                meshes@,
                transforms@,
                material_info@,
                named@,
                scene_records(scene.nodes@, *settings, i as int),
            ),
            first_meshes@.len() == i,
            forall|j: int|
                0 <= j < i ==> #[trigger] first_meshes@[j] == node_first_mesh(
                    scene.nodes@,
                    *settings,
                    j,
                ),
        decreases scene.nodes@.len() - i,
    {
        let node = &scene.nodes[i];
        let first = meshes.len();
        let ghost before = scene_records(scene.nodes@, *settings, i as int);
        let ghost added = node_records(*node, i, *settings);
        match &node.mesh {
            Some(mesh) => {
                if mesh.num_vertices != 0 && mesh.face_triangles.len() != 0 {
                    let groups = group_faces_by_material(mesh);
                    let order = material_group_order(mesh);
                    let mut k: usize = 0;
                    while k < order.len()
                        invariant
                            k <= order@.len(),
                            i < scene.nodes@.len(),
                            *node == scene.nodes@[i as int],
                            node.mesh == Some(*mesh),
                            is_convertible(*mesh),
                            order@ == group_order(*mesh),
                            lists(groups@) == material_groups(*mesh),
                            before == scene_records(scene.nodes@, *settings, i as int),
                            added == node_records(*node, i, *settings),
                            first == before.len(),
                            scene_resolvable(scene.nodes@, i as int),
                            forall|j: int|
                                0 <= j < k ==> can_resolve(
                                    *mesh,
                                    i,
                                    (#[trigger] ordered_groups(*mesh)[j]).material_index,
                                ),
                            outputs_hold(
                                meshes@,
                                transforms@,
                                material_info@,
                                named@,
                                before + added.take(k as int),
                            ),
                        decreases order@.len() - k,
                    {
                        let material = order[k];
                        proof {
                            assert(material_groups(*mesh).contains_key(material));
                            assert(lists(groups@)[material] == material_groups(*mesh)[material]);
                        }
                        let indices = match groups.get(&material) {
                            Some(indices) => indices,
                            None => unreached(),
                        };
                        let made = match create_mesh_from_group(
                            mesh,
                            indices,
                            i,
                            material,
                            settings,
                        ) {
                            Ok(made) => made,
                            Err(error) => {
                                proof {
                                    assert(!can_resolve(
                                        *mesh,
                                        i,
                                        ordered_groups(*mesh)[k as int].material_index,
                                    ));
                                }
                                return Err(error);
                            },
                        };
                        let ghost old_records = before + added.take(k as int);
                        let ghost new_records = before + added.take(k + 1);
                        proof {
                            assert(new_records.drop_last() =~= old_records);
                        }
                        if material == 0 && !node.name.as_str().is_empty() {
                            named.insert(node.name.clone(), meshes.len());
                        }
                        meshes.push(made);
                        transforms.push(i);
                        let mut names: Vec<String> = Vec::new();
                        names.push(material_name_of(mesh, material));
                        material_info.push(names);
                        k += 1;
                    }
                    proof {
                        assert(added.take(k as int) =~= added);
                    }
                }
            },
            None => {},
        }
        first_meshes.push(if meshes.len() > first {
            Some(first)
        } else {
            None
        });
        i += 1;
    }
    Ok(
        MeshOutputs {
            meshes,
            named_meshes: named,
            transforms,
            material_info,
            node_meshes: first_meshes,
        },
    )
}

} // verus!
