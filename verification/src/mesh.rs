//! Indexed-triangle mesh assembly.
//!
//! The portal clock's meshes come from scene files holding vertex rows
//! (3D position and UV, all floats) and face rows (lists of vertex
//! indices). The file reading and parsing stay outside; this module
//! takes the parsed rows — float properties as their bit patterns,
//! anything of the wrong type as `None` — validates them, and builds
//! the vertex and index streams the GPU consumes: every face must be a
//! triangle of unsigned indices, narrowed to 16 bits.
use vstd::prelude::*;

verus! {

/// One parsed vertex row: each property as an f32 bit pattern, or
/// `None` where the file held something other than a float.
#[derive(Clone, Copy, Debug, PartialEq, Eq)]
pub struct VertexRow {
    pub x: Option<u32>,
    pub y: Option<u32>,
    pub z: Option<u32>,
    pub s: Option<u32>,
    pub t: Option<u32>,
}

/// One parsed face row: the vertex index list, or `None` where the
/// file held something other than an unsigned-integer list.
#[derive(Clone, Debug, PartialEq, Eq)]
pub struct FaceRow {
    pub vertex_indices: Option<Vec<u32>>,
}

/// One assembled vertex: position and UV as f32 bit patterns.
#[derive(Clone, Copy, Debug, PartialEq, Eq, Structural)]
pub struct MeshVertex {
    pub x_bits: u32,
    pub y_bits: u32,
    pub z_bits: u32,
    pub s_bits: u32,
    pub t_bits: u32,
}

/// An assembled mesh: a vertex stream and a triangle index stream.
#[derive(Clone, Debug, PartialEq, Eq)]
pub struct PlyMesh {
    pub vertices: Vec<MeshVertex>,
    pub indices: Vec<u16>,
}

/// Rejected mesh data.
#[derive(Clone, Copy, Debug, PartialEq, Eq, Structural)]
pub enum MeshError {
    /// A vertex property was not a float.
    VertexNotFloat,
    /// A face had other than three indices.
    FaceIndexCount,
    /// A face's index property was not an unsigned-integer list.
    FaceNotUintList,
}

/// All five properties of a vertex row were floats.
pub open spec fn vertex_row_complete(v: VertexRow) -> bool {
    v.x is Some && v.y is Some && v.z is Some && v.s is Some && v.t is Some
}

/// The vertex a complete row assembles to.
pub open spec fn spec_vertex_of(v: VertexRow) -> MeshVertex {
    MeshVertex {
        x_bits: v.x->0,
        y_bits: v.y->0,
        z_bits: v.z->0,
        s_bits: v.s->0,
        t_bits: v.t->0,
    }
}

/// A face row is usable: an unsigned-integer list of exactly three.
pub open spec fn face_row_ok(f: FaceRow) -> bool {
    f.vertex_indices is Some && f.vertex_indices->0@.len() == 3
}

/// The error a single bad face row produces.
pub open spec fn spec_face_error(f: FaceRow) -> MeshError {
    if f.vertex_indices is Some {
        MeshError::FaceIndexCount
    } else {
        MeshError::FaceNotUintList
    }
}

/// The verdict over the face rows from position `k` on: the error of
/// the first bad row, or `None` when all are usable.
pub open spec fn spec_faces_verdict(faces: Seq<FaceRow>, k: nat) -> Option<MeshError>
    decreases faces.len() - k,
{
    if k >= faces.len() {
        None
    } else if !face_row_ok(faces[k as int]) {
        Some(spec_face_error(faces[k as int]))
    } else {
        spec_faces_verdict(faces, k + 1)
    }
}

proof fn lemma_verdict_skip_ok(faces: Seq<FaceRow>, j: nat, k: nat)
    requires
        j <= k <= faces.len(),
        forall|i: int| j <= i < k ==> face_row_ok(faces[i]),
    ensures
        spec_faces_verdict(faces, j) == spec_faces_verdict(faces, k),
    decreases k - j,
{
    if j < k {
        lemma_verdict_skip_ok(faces, j + 1, k);
    }
}

/// Assemble a mesh from parsed rows.
///
/// Fails on the first vertex row with a non-float property, then on
/// the first unusable face row — with the error that row deserves —
/// and succeeds exactly when every row is usable. On success the
/// vertex stream carries the rows' bit patterns in order and the index
/// stream holds each face's three indices in order, narrowed to 16
/// bits.
pub fn build_mesh(vrows: &Vec<VertexRow>, frows: &Vec<FaceRow>) -> (r: Result<PlyMesh, MeshError>)
    ensures
        r == Err::<PlyMesh, MeshError>(MeshError::VertexNotFloat) <==> exists|i: int|
            0 <= i < vrows@.len() && !vertex_row_complete(vrows@[i]),
        (forall|i: int| 0 <= i < vrows@.len() ==> vertex_row_complete(vrows@[i])) ==> match
            spec_faces_verdict(frows@, 0) {
            Some(e) => r == Err::<PlyMesh, MeshError>(e),
            None => r is Ok,
        },
        r is Ok ==> ({
            let m = r->Ok_0;
            &&& m.vertices@.len() == vrows@.len()
            &&& (forall|i: int|
                0 <= i < vrows@.len() ==> m.vertices@[i] == spec_vertex_of(vrows@[i]))
            &&& m.indices@.len() == 3 * frows@.len()
            &&& (forall|i: int|
                0 <= i < frows@.len() ==> m.indices@[3 * i] == (frows@[i].vertex_indices->0@[0]
                    as u16) && m.indices@[3 * i + 1] == (frows@[i].vertex_indices->0@[1] as u16)
                    && m.indices@[3 * i + 2] == (frows@[i].vertex_indices->0@[2] as u16))
        }),
{
    let mut vertices: Vec<MeshVertex> = Vec::new();
    let mut vi: usize = 0;
    while vi < vrows.len()
        invariant
            vi <= vrows@.len(),
            vertices@.len() == vi,
            forall|i: int| 0 <= i < vi ==> vertex_row_complete(vrows@[i]),
            forall|i: int| 0 <= i < vi ==> vertices@[i] == spec_vertex_of(vrows@[i]),
        decreases vrows@.len() - vi,
    {
        let row = vrows[vi];
        match (row.x, row.y, row.z, row.s, row.t) {
            (Some(x), Some(y), Some(z), Some(s), Some(t)) => {
                vertices.push(
                    MeshVertex { x_bits: x, y_bits: y, z_bits: z, s_bits: s, t_bits: t },
                );
            },
            _ => {
                return Err(MeshError::VertexNotFloat);
            },
        }
        vi = vi + 1;
    }

    let mut indices: Vec<u16> = Vec::new();
    let mut fi: usize = 0;
    while fi < frows.len()
        invariant
            fi <= frows@.len(),
            indices@.len() == 3 * fi,
            forall|i: int| 0 <= i < fi ==> face_row_ok(frows@[i]),
            forall|i: int|
                0 <= i < fi ==> indices@[3 * i] == (frows@[i].vertex_indices->0@[0] as u16)
                    && indices@[3 * i + 1] == (frows@[i].vertex_indices->0@[1] as u16)
                    && indices@[3 * i + 2] == (frows@[i].vertex_indices->0@[2] as u16),
            vertices@.len() == vrows@.len(),
            forall|i: int| 0 <= i < vrows@.len() ==> vertex_row_complete(vrows@[i]),
            forall|i: int| 0 <= i < vrows@.len() ==> vertices@[i] == spec_vertex_of(vrows@[i]),
        decreases frows@.len() - fi,
    {
        let row = &frows[fi];
        match &row.vertex_indices {
            Some(facedata) => {
                if facedata.len() != 3 {
                    proof {
                        lemma_verdict_skip_ok(frows@, 0, fi as nat);
                    }
                    return Err(MeshError::FaceIndexCount);
                }
                indices.push(facedata[0] as u16);
                indices.push(facedata[1] as u16);
                indices.push(facedata[2] as u16);
            },
            None => {
                proof {
                    lemma_verdict_skip_ok(frows@, 0, fi as nat);
                }
                return Err(MeshError::FaceNotUintList);
            },
        }
        fi = fi + 1;
    }
    proof {
        lemma_verdict_skip_ok(frows@, 0, frows@.len() as nat);
    }
    Ok(PlyMesh { vertices, indices })
}

} // verus!
