//! Selection of the skin influences of the vertices of a mesh.

use vstd::prelude::*;
use crate::source::{ClusterData, MeshData};

verus! {

/// One influence of a skin on a vertex: the joint, which is the position of
/// the cluster in its deformer reduced to sixteen bits, and where the weight
/// stands in the source: in the cluster at `cluster`, at entry `entry`.
#[derive(Debug, Clone, Copy, PartialEq, Eq, Structural)]
pub struct Influence {
    pub joint: u16,
    pub cluster: usize,
    pub entry: usize,
}

/// Whether entry `i` of a cluster gives the vertex `vertex` a positive weight.
pub open spec fn entry_hits(cluster: ClusterData, vertex: int, i: int) -> bool {
    &&& 0 <= i < cluster.vertices@.len()
    &&& cluster.vertices@[i] as int == vertex
    &&& i < cluster.weight_positive@.len()
    &&& cluster.weight_positive@[i]
}

/// The first entry at or after `from` with which a cluster gives the vertex a
/// positive weight.
pub open spec fn first_hit_from(cluster: ClusterData, vertex: int, from: int) -> Option<int>
    decreases cluster.vertices@.len() - from,
{
    if from < 0 || from >= cluster.vertices@.len() {
        None
    } else if entry_hits(cluster, vertex, from) {
        Some(from)
    } else {
        first_hit_from(cluster, vertex, from + 1)
    }
}

/// The joint of the cluster at position `cluster`.
pub open spec fn joint_of(cluster: int) -> u16 {
    (cluster % 65536) as u16
}

/// The influences on a vertex that the first `upto` clusters give: going
/// through the clusters in order, each cluster that gives the vertex a
/// positive weight adds one influence, by its first such entry, until there
/// are four.
pub open spec fn vertex_influences(clusters: Seq<ClusterData>, vertex: int, upto: int) -> Seq<
    Influence,
>
    decreases upto,
{
    if upto <= 0 {
        Seq::empty()
    } else if vertex_influences(clusters, vertex, upto - 1).len() >= 4 {
        vertex_influences(clusters, vertex, upto - 1)
    } else {
        match first_hit_from(clusters[upto - 1], vertex, 0) {
            Some(entry) => vertex_influences(clusters, vertex, upto - 1).push(
                Influence {
                    joint: joint_of(upto - 1),
                    cluster: (upto - 1) as usize,
                    entry: entry as usize,
                },
            ),
            None => vertex_influences(clusters, vertex, upto - 1),
        }
    }
}

/// The influences on every vertex of a mesh, from the first skin deformer.
pub open spec fn skin_influences(mesh: MeshData) -> Seq<Seq<Influence>> {
    Seq::new(
        mesh.num_vertices as nat,
        |vertex: int|
            vertex_influences(
                mesh.skin_deformers@[0].clusters@,
                vertex,
                mesh.skin_deformers@[0].clusters@.len() as int,
            ),
    )
}

/// What each list of a sequence of lists holds.
pub open spec fn rows<T>(lists: Seq<Vec<T>>) -> Seq<Seq<T>> {
    Seq::new(lists.len(), |i: int| lists[i]@)
}

/// The first hit of a cluster on a vertex is an entry that gives the vertex a
/// positive weight, and no entry before it does.
pub proof fn lemma_first_hit(cluster: ClusterData, vertex: int, from: int)
    requires
        0 <= from,
    ensures
        match first_hit_from(cluster, vertex, from) {
            Some(i) => from <= i && entry_hits(cluster, vertex, i) && forall|j: int|
                from <= j < i ==> !entry_hits(cluster, vertex, j),
            None => forall|j: int| from <= j ==> !entry_hits(cluster, vertex, j),
        },
    decreases cluster.vertices@.len() - from,
{
    if from < cluster.vertices@.len() && !entry_hits(cluster, vertex, from) {
        lemma_first_hit(cluster, vertex, from + 1);
    }
}

/// A vertex has at most four influences. Each is a positive weight that its
/// cluster gives the vertex, and the clusters of the influences come in
/// strictly rising order.
pub proof fn lemma_vertex_influences(clusters: Seq<ClusterData>, vertex: int, upto: int)
    requires
        upto <= clusters.len() <= usize::MAX,
    ensures
        vertex_influences(clusters, vertex, upto).len() <= 4,
        forall|k: int|
            0 <= k < vertex_influences(clusters, vertex, upto).len() ==> {
                let influence = #[trigger] vertex_influences(clusters, vertex, upto)[k];
                &&& influence.cluster < upto
                &&& influence.joint == joint_of(influence.cluster as int)
                &&& entry_hits(clusters[influence.cluster as int], vertex, influence.entry as int)
            },
        forall|j: int, k: int|
            0 <= j < k < vertex_influences(clusters, vertex, upto).len() ==> (
            #[trigger] vertex_influences(clusters, vertex, upto)[j]).cluster < (
            #[trigger] vertex_influences(clusters, vertex, upto)[k]).cluster,
    decreases upto,
{
    if upto > 0 {
        lemma_vertex_influences(clusters, vertex, upto - 1);
        lemma_first_hit(clusters[upto - 1], vertex, 0);
        let before = vertex_influences(clusters, vertex, upto - 1);
        let now = vertex_influences(clusters, vertex, upto);
        if before.len() < 4 {
            match first_hit_from(clusters[upto - 1], vertex, 0) {
                Some(entry) => {
                    assert(entry < clusters[upto - 1].vertices@.len() <= usize::MAX) by {
                        vstd::std_specs::vec::axiom_spec_len(&clusters[upto - 1].vertices);
                    }
                    assert forall|k: int| 0 <= k < now.len() implies {
                        let influence = #[trigger] now[k];
                        &&& influence.cluster < upto
                        &&& influence.joint == joint_of(influence.cluster as int)
                        &&& entry_hits(
                            clusters[influence.cluster as int],
                            vertex,
                            influence.entry as int,
                        )
                    } by {}
                },
                None => {},
            }
        }
    }
}

/// A vertex has no influence exactly if no cluster gives it a positive
/// weight. Such a vertex is left without joints and weights, so that nothing
/// has to be divided by a total weight of zero.
pub proof fn lemma_no_influence_without_positive_weight(
    clusters: Seq<ClusterData>,
    vertex: int,
    upto: int,
)
    requires
        0 <= upto <= clusters.len(),
    ensures
        vertex_influences(clusters, vertex, upto).len() == 0 <==> forall|c: int, i: int|
            0 <= c < upto ==> !#[trigger] entry_hits(clusters[c], vertex, i),
    decreases upto,
{
    if upto > 0 {
        lemma_no_influence_without_positive_weight(clusters, vertex, upto - 1);
        lemma_first_hit(clusters[upto - 1], vertex, 0);
    }
}

/// Finds the first entry with which a cluster gives the vertex a positive
/// weight.
fn find_first_hit(cluster: &ClusterData, vertex: usize) -> (found: Option<usize>)
    ensures
        match found {
            Some(i) => first_hit_from(*cluster, vertex as int, 0) == Some(i as int),
            None => first_hit_from(*cluster, vertex as int, 0) is None,
        },
{
    let mut i: usize = 0;
    while i < cluster.vertices.len()
        invariant
            i <= cluster.vertices@.len(),
            first_hit_from(*cluster, vertex as int, 0) == first_hit_from(
                *cluster,
                vertex as int,
                i as int,
            ),
        decreases cluster.vertices@.len() - i,
    {
        if cluster.vertices[i] as usize == vertex && i < cluster.weight_positive.len()
            && cluster.weight_positive[i] {
            return Some(i);
        }
        i += 1;
    }
    None
}

/// Selects the skin influences of every vertex of a mesh, from its first skin
/// deformer: for each vertex, the first four clusters, in the deformer's
/// order, that give it a positive weight, each by its first such entry.
pub fn process_skinning_data(mesh: &MeshData) -> (influences: Vec<Vec<Influence>>)
    requires
        mesh.skin_deformers@.len() > 0,
    ensures
        rows(influences@) == skin_influences(*mesh),
{
    let clusters = &mesh.skin_deformers[0].clusters;
    let mut influences: Vec<Vec<Influence>> = Vec::new();
    let mut vertex: usize = 0;
    while vertex < mesh.num_vertices
        invariant
            vertex <= mesh.num_vertices,
            mesh.skin_deformers@.len() > 0,
            *clusters == mesh.skin_deformers@[0].clusters,
            influences@.len() == vertex,
            forall|v: int| 0 <= v < vertex ==> (#[trigger] influences@[v])@ == skin_influences(*mesh)[v],
        decreases mesh.num_vertices - vertex,
    {
        let mut selected: Vec<Influence> = Vec::new();
        let mut c: usize = 0;
        while c < clusters.len() && selected.len() < 4
            invariant
                c <= clusters@.len(),
                selected@ == vertex_influences(clusters@, vertex as int, c as int),
            decreases clusters@.len() - c,
        {
            match find_first_hit(&clusters[c], vertex) {
                Some(entry) => {
                    selected.push(Influence { joint: (c % 65536) as u16, cluster: c, entry });
                },
                None => {},
            }
            c += 1;
        }
        proof {
            lemma_full_stays_full(clusters@, vertex as int, c as int, clusters@.len() as int);
        }
        influences.push(selected);
        vertex += 1;
    }
    influences
}

/// Once a vertex has four influences, further clusters add none.
proof fn lemma_full_stays_full(clusters: Seq<ClusterData>, vertex: int, from: int, upto: int)
    requires
        from <= upto,
        from < upto ==> vertex_influences(clusters, vertex, from).len() >= 4,
    ensures
        vertex_influences(clusters, vertex, upto) == vertex_influences(clusters, vertex, from),
    decreases upto - from,
{
    if from < upto {
        lemma_full_stays_full(clusters, vertex, from, upto - 1);
    }
}

} // verus!
