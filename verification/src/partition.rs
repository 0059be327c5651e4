//! Partition of the triangles of a mesh by material.

use std::collections::HashMap;
use vstd::multiset::Multiset;
use vstd::prelude::*;
use crate::source::MeshData;
use crate::triangulate::Face;

verus! {

broadcast use vstd::std_specs::hash::group_hash_axioms;

/// The triangles of a mesh that share one material: the slot of the material
/// in the mesh's material list, and the triangle list, three vertex indices
/// for each triangle.
pub struct MaterialGroup {
    pub material_index: usize,
    pub indices: Seq<u32>,
}

/// What each element of a sequence holds.
pub open spec fn views<T: View>(items: Seq<T>) -> Seq<T::V> {
    Seq::new(items.len(), |i: int| items[i]@)
}

/// The material group of a face: group 0 if the mesh has no materials or
/// records no material for the face, else the material slot recorded for it.
pub open spec fn face_group(mesh: MeshData, face: int) -> usize {
    if mesh.material_names@.len() == 0 {
        0
    } else if 0 <= face < mesh.face_material@.len() {
        mesh.face_material@[face] as usize
    } else {
        0
    }
}

/// The vertices that the corners `corners` refer to through the index table
/// `table`. A corner outside the table is dropped.
pub open spec fn corner_vertices(corners: Seq<u32>, table: Seq<u32>) -> Seq<u32>
    decreases corners.len(),
{
    if corners.len() == 0 {
        Seq::empty()
    } else if (corners.last() as int) < table.len() {
        corner_vertices(corners.drop_last(), table).push(table[corners.last() as int])
    } else {
        corner_vertices(corners.drop_last(), table)
    }
}

/// No corner of a face that lies inside the index table is dropped: where
/// every corner is a slot of such a face, each corner gives the vertex that
/// the table holds for it.
pub proof fn lemma_no_corner_is_dropped(corners: Seq<u32>, table: Seq<u32>, face: Face)
    requires
        face.fits(table.len()),
        forall|i: int| 0 <= i < corners.len() ==> face.has_slot(#[trigger] corners[i]),
    ensures
        corner_vertices(corners, table).len() == corners.len(),
        forall|i: int|
            0 <= i < corners.len() ==> #[trigger] corner_vertices(corners, table)[i]
                == table[corners[i] as int],
    decreases corners.len(),
{
    if corners.len() > 0 {
        lemma_no_corner_is_dropped(corners.drop_last(), table, face);
    }
}

/// The vertex indices of the triangles of one face.
pub open spec fn face_corners(mesh: MeshData, face: int) -> Seq<u32> {
    corner_vertices(mesh.face_triangles@[face]@, mesh.vertex_indices@)
}

/// The triangle list of the group `material`, as far as the first `upto`
/// faces fill it: the triangles of the faces of that group, in source order.
pub open spec fn group_corners(mesh: MeshData, material: usize, upto: int) -> Seq<u32>
    decreases upto,
{
    if upto <= 0 {
        Seq::empty()
    } else if face_group(mesh, upto - 1) == material {
        group_corners(mesh, material, upto - 1) + face_corners(mesh, upto - 1)
    } else {
        group_corners(mesh, material, upto - 1)
    }
}

/// The groups that the first `upto` faces open, in the order in which they
/// are first met. A mesh without materials has the group 0 from the start.
pub open spec fn group_keys(mesh: MeshData, upto: int) -> Seq<usize>
    decreases upto,
{
    if upto <= 0 {
        if mesh.material_names@.len() == 0 {
            seq![0usize]
        } else {
            Seq::empty()
        }
    } else if group_keys(mesh, upto - 1).contains(face_group(mesh, upto - 1)) {
        group_keys(mesh, upto - 1)
    } else {
        group_keys(mesh, upto - 1).push(face_group(mesh, upto - 1))
    }
}

/// The groups of a mesh in the order in which its faces first meet them.
pub open spec fn group_order(mesh: MeshData) -> Seq<usize> {
    group_keys(mesh, mesh.face_triangles@.len() as int)
}

/// The triangle list of the group `material` of a mesh.
pub open spec fn group_triangles(mesh: MeshData, material: usize) -> Seq<u32> {
    group_corners(mesh, material, mesh.face_triangles@.len() as int)
}

/// The material groups of a mesh: for each group that a face opens, all the
/// triangles of its faces.
pub open spec fn material_groups(mesh: MeshData) -> Map<usize, Seq<u32>> {
    Map::new(
        |material: usize| group_order(mesh).contains(material),
        |material: usize| group_triangles(mesh, material),
    )
}

/// The material groups of a mesh, in the order in which its faces first meet
/// them.
pub open spec fn ordered_groups(mesh: MeshData) -> Seq<MaterialGroup> {
    Seq::new(
        group_order(mesh).len(),
        |k: int|
            MaterialGroup {
                material_index: group_order(mesh)[k],
                indices: group_triangles(mesh, group_order(mesh)[k]),
            },
    )
}

/// What the lists of a lookup of lists hold.
pub open spec fn lists(groups: Map<usize, Vec<u32>>) -> Map<usize, Seq<u32>> {
    Map::new(|material: usize| groups.contains_key(material), |material: usize| groups[material]@)
}

/// The material group of the face at position `face`.
fn group_of_face(mesh: &MeshData, face: usize) -> (group: usize)
    ensures
        group == face_group(*mesh, face as int),
{
    if mesh.material_names.len() == 0 {
        0
    } else if face < mesh.face_material.len() {
        mesh.face_material[face] as usize
    } else {
        0
    }
}

/// Whether `keys` holds `key`.
fn holds_key(keys: &Vec<usize>, key: usize) -> (found: bool)
    ensures
        found == keys@.contains(key),
{
    let mut i: usize = 0;
    while i < keys.len()
        invariant
            i <= keys@.len(),
            forall|j: int| 0 <= j < i ==> keys@[j] != key,
        decreases keys@.len() - i,
    {
        if keys[i] == key {
            return true;
        }
        i += 1;
    }
    false
}

/// Appends to `out` the vertices that `corners` refer to through `table`.
fn append_corner_vertices(out: &mut Vec<u32>, corners: &Vec<u32>, table: &Vec<u32>)
    ensures
        final(out)@ == old(out)@ + corner_vertices(corners@, table@),
{
    let mut j: usize = 0;
    while j < corners.len()
        invariant
            j <= corners@.len(),
            out@ == old(out)@ + corner_vertices(corners@.take(j as int), table@),
        decreases corners@.len() - j,
    {
        proof {
            assert(corners@.take(j + 1).drop_last() =~= corners@.take(j as int));
        }
        let corner = corners[j] as usize;
        if corner < table.len() {
            out.push(table[corner]);
        }
        j += 1;
    }
    proof {
        assert(corners@.take(corners@.len() as int) =~= corners@);
    }
}

/// Lists the groups that the faces of the mesh open, in the order in which
/// they are first met. A mesh without materials has the one group 0.
pub fn material_group_order(mesh: &MeshData) -> (keys: Vec<usize>)
    ensures
        keys@ == group_order(*mesh),
{
    let mut keys: Vec<usize> = Vec::new();
    if mesh.material_names.len() == 0 {
        keys.push(0);
    }
    let mut face: usize = 0;
    while face < mesh.face_triangles.len()
        invariant
            face <= mesh.face_triangles@.len(),
            keys@ == group_keys(*mesh, face as int),
        decreases mesh.face_triangles@.len() - face,
    {
        let group = group_of_face(mesh, face);
        if !holds_key(&keys, group) {
            keys.push(group);
        }
        face += 1;
    }
    keys
}

/// The triangle list of the group `material`.
fn collect_group_corners(mesh: &MeshData, material: usize) -> (indices: Vec<u32>)
    ensures
        indices@ == group_triangles(*mesh, material),
{
    let mut indices: Vec<u32> = Vec::new();
    let mut face: usize = 0;
    while face < mesh.face_triangles.len()
        invariant
            face <= mesh.face_triangles@.len(),
            indices@ == group_corners(*mesh, material, face as int),
        decreases mesh.face_triangles@.len() - face,
    {
        if group_of_face(mesh, face) == material {
            append_corner_vertices(&mut indices, &mesh.face_triangles[face], &mesh.vertex_indices);
        }
        face += 1;
    }
    indices
}

/// Partitions the triangles of a mesh by material. Every face goes, with all
/// the triangles of its triangulation, to the group of its material: group 0
/// if the mesh has no materials or records none for the face. The corners of
/// the triangles are looked up in the mesh's index table; a corner outside
/// the table is dropped. Within a group the triangles keep the order of the
/// faces.
pub fn group_faces_by_material(mesh: &MeshData) -> (groups: HashMap<usize, Vec<u32>>)
    ensures
        lists(groups@) == material_groups(*mesh),
{
    let keys = material_group_order(mesh);
    let mut groups: HashMap<usize, Vec<u32>> = HashMap::new();
    let mut k: usize = 0;
    while k < keys.len()
        invariant
            k <= keys@.len(),
            keys@ == group_order(*mesh),
            forall|material: usize|
                groups@.contains_key(material) <==> keys@.take(k as int).contains(material),
            forall|material: usize|
                groups@.contains_key(material) ==> (#[trigger] groups@[material])@
                    == group_triangles(*mesh, material),
        decreases keys@.len() - k,
    {
        let indices = collect_group_corners(mesh, keys[k]);
        groups.insert(keys[k], indices);
        proof {
            let before = keys@.take(k as int);
            let now = keys@.take(k + 1);
            assert forall|material: usize| now.contains(material) <==> (before.contains(material)
                || material == keys@[k as int]) by {
                if material == keys@[k as int] {
                    assert(now[k as int] == material);
                }
            }
        }
        k += 1;
    }
    proof {
        assert(keys@.take(k as int) =~= keys@);
    }
    groups
}

/// The vertex indices of all triangles of the first `upto` faces, in source
/// order.
pub open spec fn all_corners(mesh: MeshData, upto: int) -> Seq<u32>
    decreases upto,
{
    if upto <= 0 {
        Seq::empty()
    } else {
        all_corners(mesh, upto - 1) + face_corners(mesh, upto - 1)
    }
}

/// What the groups `keys` hold, taken together, as far as the first `upto`
/// faces fill them.
pub open spec fn merged_groups(mesh: MeshData, keys: Seq<usize>, upto: int) -> Multiset<u32>
    decreases keys.len(),
{
    if keys.len() == 0 {
        Multiset::empty()
    } else {
        merged_groups(mesh, keys.drop_last(), upto).add(
            group_corners(mesh, keys.last(), upto).to_multiset(),
        )
    }
}

/// No group is opened twice, and every face among the first `upto` has its
/// group among those opened.
pub proof fn lemma_group_keys(mesh: MeshData, upto: int)
    ensures
        group_keys(mesh, upto).no_duplicates(),
        forall|face: int|
            0 <= face < upto ==> group_keys(mesh, upto).contains(#[trigger] face_group(mesh, face)),
    decreases upto,
{
    if upto > 0 {
        lemma_group_keys(mesh, upto - 1);
        let prev = group_keys(mesh, upto - 1);
        let group = face_group(mesh, upto - 1);
        let keys = group_keys(mesh, upto);
        if !prev.contains(group) {
            assert(keys[prev.len() as int] == group);
            assert forall|face: int| 0 <= face < upto implies keys.contains(
                #[trigger] face_group(mesh, face),
            ) by {
                if face < upto - 1 {
                    let i = choose|i: int| 0 <= i < prev.len() && prev[i] == face_group(mesh, face);
                    assert(keys[i] == face_group(mesh, face));
                }
            }
        }
    }
}

/// A group that no face among the first `upto` belongs to holds nothing.
proof fn lemma_unmet_group_is_empty(mesh: MeshData, material: usize, upto: int)
    requires
        !group_keys(mesh, upto).contains(material),
    ensures
        group_corners(mesh, material, upto) == Seq::<u32>::empty(),
    decreases upto,
{
    if upto > 0 {
        let prev = group_keys(mesh, upto - 1);
        let group = face_group(mesh, upto - 1);
        if prev.contains(group) {
            lemma_unmet_group_is_empty(mesh, material, upto - 1);
        } else {
            assert(prev.push(group)[prev.len() as int] == group);
            if prev.contains(material) {
                let i = choose|i: int| 0 <= i < prev.len() && prev[i] == material;
                assert(prev.push(group)[i] == material);
            }
            lemma_unmet_group_is_empty(mesh, material, upto - 1);
        }
    }
}

/// One more face adds its triangles to the groups `keys` taken together once
/// if its group is among them, and not at all otherwise.
proof fn lemma_merged_step(mesh: MeshData, keys: Seq<usize>, upto: int)
    requires
        keys.no_duplicates(),
        upto >= 0,
    ensures
        merged_groups(mesh, keys, upto + 1) == if keys.contains(face_group(mesh, upto)) {
            merged_groups(mesh, keys, upto).add(face_corners(mesh, upto).to_multiset())
        } else {
            merged_groups(mesh, keys, upto)
        },
    decreases keys.len(),
{
    broadcast use vstd::seq_lib::lemma_multiset_commutative;

    let group = face_group(mesh, upto);
    if keys.len() > 0 {
        let front = keys.drop_last();
        let last = keys.last();
        lemma_merged_step(mesh, front, upto);
        assert(keys.contains(group) <==> (front.contains(group) || last == group)) by {
            if keys.contains(group) {
                let i = choose|i: int| 0 <= i < keys.len() && keys[i] == group;
                if i < keys.len() - 1 {
                    assert(front[i] == group);
                }
            }
        }
    }
}

/// An empty triangle list holds nothing.
proof fn lemma_empty_list_holds_nothing()
    ensures
        Seq::<u32>::empty().to_multiset() == Multiset::<u32>::empty(),
{
    broadcast use vstd::seq_lib::group_to_multiset_ensures;

}

/// The groups opened by the first `upto` faces hold, taken together, exactly
/// the triangles of those faces.
proof fn lemma_merged_is_all(mesh: MeshData, upto: int)
    ensures
        merged_groups(mesh, group_keys(mesh, upto), upto) == all_corners(mesh, upto).to_multiset(),
    decreases upto,
{
    broadcast use vstd::seq_lib::lemma_multiset_commutative;

    lemma_empty_list_holds_nothing();
    if upto <= 0 {
        let keys = group_keys(mesh, upto);
        if keys.len() > 0 {
            assert(merged_groups(mesh, keys.drop_last(), upto) == Multiset::<u32>::empty());
        }
    } else {
        lemma_merged_is_all(mesh, upto - 1);
        lemma_group_keys(mesh, upto - 1);
        let prev = group_keys(mesh, upto - 1);
        let group = face_group(mesh, upto - 1);
        let keys = group_keys(mesh, upto);
        if !prev.contains(group) {
            lemma_unmet_group_is_empty(mesh, group, upto - 1);
            assert(keys.drop_last() =~= prev);
        }
        lemma_merged_step(mesh, keys, upto - 1);
    }
}

/// The partition of a mesh by material is total and disjoint. There is one
/// group for each material that a face has, and none is listed twice; every
/// face belongs to exactly one group, the one of its material, which holds
/// the triangles of its faces in source order; and the groups hold, taken
/// together, exactly the triangles of all faces: none is lost and none is
/// there twice.
pub proof fn lemma_partition_total_and_disjoint(mesh: MeshData)
    ensures
        group_order(mesh).no_duplicates(),
        forall|material: usize|
            material_groups(mesh).contains_key(material) <==> group_order(mesh).contains(material),
        forall|face: int|
            0 <= face < mesh.face_triangles@.len() ==> material_groups(mesh).contains_key(
                #[trigger] face_group(mesh, face),
            ),
        forall|material: usize|
            material_groups(mesh).contains_key(material) ==> #[trigger] material_groups(
                mesh,
            )[material] == group_triangles(mesh, material),
        merged_groups(mesh, group_order(mesh), mesh.face_triangles@.len() as int) == all_corners(
            mesh,
            mesh.face_triangles@.len() as int,
        ).to_multiset(),
{
    let faces = mesh.face_triangles@.len() as int;
    lemma_group_keys(mesh, faces);
    lemma_merged_is_all(mesh, faces);
}

} // verus!
