//! Triangulation of polygon faces, delegated to the FBX geometry library.

use vstd::prelude::*;

verus! {

/// A polygon of a mesh: a run of `num_indices` consecutive slots of the mesh's
/// index table, starting at `index_begin`.
#[derive(Debug, Clone, Copy, PartialEq, Eq, Structural)]
pub struct Face {
    pub index_begin: u32,
    pub num_indices: u32,
}

/// A mesh as the FBX library parsed it. Its contents are not visible here; it
/// is only handed back to the library for triangulation.
#[verifier::external_type_specification]
#[verifier::external_body]
pub struct ExMesh(ufbx::Mesh);

/// The number of index slots of a parsed mesh (`ufbx::Mesh::num_indices`).
pub uninterp spec fn mesh_index_count(mesh: &ufbx::Mesh) -> nat;

/// The corner list that `ufbx::triangulate_face_vec` produces for the face
/// `(index_begin, num_indices)` of a parsed mesh.
pub uninterp spec fn face_triangulation(mesh: &ufbx::Mesh, index_begin: u32, num_indices: u32) -> Seq<u32>;

impl Face {
    /// Whether the face lies inside an index table of `index_count` slots.
    pub open spec fn fits(self, index_count: nat) -> bool {
        self.index_begin < index_count && index_count - self.index_begin >= self.num_indices
    }

    /// The number of corners of the face's triangulation: three for each of its
    /// `num_indices - 2` triangles, none for a degenerate face.
    pub open spec fn corner_count(self) -> nat {
        if self.num_indices < 3 {
            0
        } else {
            (3 * (self.num_indices - 2)) as nat
        }
    }

    /// Whether `slot` is one of the index slots of the face.
    pub open spec fn has_slot(self, slot: u32) -> bool {
        self.index_begin <= slot < self.index_begin + self.num_indices
    }

    /// Whether `corners` are corners of triangles of the face: each is a slot
    /// of the face, and a face that is a triangle has its three slots in
    /// order.
    pub open spec fn has_corners(self, corners: Seq<u32>) -> bool {
        &&& forall|i: int| 0 <= i < corners.len() ==> self.has_slot(#[trigger] corners[i])
        &&& self.num_indices == 3 ==> corners == seq![
            self.index_begin,
            (self.index_begin + 1) as u32,
            (self.index_begin + 2) as u32,
        ]
    }
}

/// Reads the field `num_indices` of a `ufbx::Mesh`: the length of its index
/// table.
#[verifier::external_body]
fn index_count(mesh: &ufbx::Mesh) -> (n: usize)
    ensures
        n == mesh_index_count(mesh),
{
    mesh.num_indices
}

/// Calls `ufbx::triangulate_face_vec` on a fresh buffer. That function clears
/// the buffer for a face of fewer than three corners; otherwise it resizes it
/// to `3 * (num_indices - 2)` slots and lets the triangulator fill them, which
/// panics unless the face lies inside the mesh's index table. The
/// triangulator writes `num_indices - 2` triangles; every corner it writes is
/// `index_begin` plus a position within the face, and for a triangle it
/// writes the three slots of the face in order.
#[verifier::external_body]
fn triangulate_face(mesh: &ufbx::Mesh, face: Face) -> (corners: Vec<u32>)
    requires
        face.num_indices < 3 || face.fits(mesh_index_count(mesh)),
    ensures
        corners@ == face_triangulation(mesh, face.index_begin, face.num_indices),
        corners@.len() == face.corner_count(),
        face.has_corners(corners@),
{
    let mut corners = Vec::new();
    let raw = ufbx::Face { index_begin: face.index_begin, num_indices: face.num_indices };
    ufbx::triangulate_face_vec(&mut corners, mesh, raw);
    corners
}

/// The triangulation of one face, or no corners at all for a face that does
/// not lie inside the mesh's index table.
pub open spec fn checked_triangulation(mesh: &ufbx::Mesh, face: Face) -> Seq<u32> {
    if face.num_indices < 3 || face.fits(mesh_index_count(mesh)) {
        face_triangulation(mesh, face.index_begin, face.num_indices)
    } else {
        Seq::empty()
    }
}

/// The number of corners that the triangulation of one face yields against a
/// mesh whose index table has `index_count` slots: those of its `n - 2`
/// triangles, if the face has `n >= 3` corners and lies inside the table, and
/// none otherwise.
pub open spec fn checked_corner_count(face: Face, index_count: nat) -> nat {
    if face.fits(index_count) {
        face.corner_count()
    } else {
        0
    }
}

/// Triangulates every face of `faces` against the parsed mesh `mesh`, in order.
/// A face of `n >= 3` corners yields the corners of `n - 2` triangles, each
/// corner a slot of the face. A face that reaches outside the mesh's index
/// table yields no corners.
pub fn triangulate_faces(mesh: &ufbx::Mesh, faces: &Vec<Face>) -> (triangles: Vec<Vec<u32>>)
    ensures
        triangles@.len() == faces@.len(),
        forall|i: int|
            0 <= i < faces@.len() ==> #[trigger] triangles@[i]@ == checked_triangulation(
                mesh,
                faces@[i],
            ),
        forall|i: int|
            0 <= i < faces@.len() ==> (#[trigger] triangles@[i])@.len() == checked_corner_count(
                faces@[i],
                mesh_index_count(mesh),
            ),
        forall|i: int|
            0 <= i < faces@.len() && faces@[i].fits(mesh_index_count(mesh)) ==> faces@[i].has_corners(
                (#[trigger] triangles@[i])@,
            ),
{
    let count = index_count(mesh);
    let mut triangles: Vec<Vec<u32>> = Vec::new();
    let mut i: usize = 0;
    while i < faces.len()
        invariant
            i <= faces@.len(),
            count == mesh_index_count(mesh),
            triangles@.len() == i,
            forall|j: int|
                0 <= j < i ==> #[trigger] triangles@[j]@ == checked_triangulation(mesh, faces@[j]),
            forall|j: int|
                0 <= j < i ==> (#[trigger] triangles@[j])@.len() == checked_corner_count(
                    faces@[j],
                    mesh_index_count(mesh),
                ),
            forall|j: int|
                0 <= j < i && faces@[j].fits(mesh_index_count(mesh)) ==> faces@[j].has_corners(
                    (#[trigger] triangles@[j])@,
                ),
        decreases faces@.len() - i,
    {
        let face = faces[i];
        let inside = (face.index_begin as usize) < count && count - face.index_begin as usize
            >= face.num_indices as usize;
        let corners = if face.num_indices < 3 || inside {
            triangulate_face(mesh, face)
        } else {
            Vec::new()
        };
        triangles.push(corners);
        i += 1;
    }
    triangles
}

} // verus!
