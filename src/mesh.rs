//! Assembly of per-vertex records from a loaded model's flat arrays.
//!
//! A model loader hands out positions and normals as flat arrays of three
//! values per vertex and texture coordinates as two values per vertex. The
//! functions here are generic in the value type, so they say only which
//! values go where.
use vstd::prelude::*;

verus! {

/// One vertex: its position, its texture coordinates and, where the model
/// has normals, its normal.
#[derive(Debug)]
pub struct MeshVertex<T> {
    pub position: [T; 3],
    pub tex_coords: [T; 2],
    pub normal: Option<[T; 3]>,
}

/// Number of whole vertices in a flat position array of length `n`.
pub open spec fn vertex_count(n: nat) -> nat {
    n / 3
}

/// Whether texture coordinates and normals cover every vertex: two texture
/// coordinates each, and either no normals at all or three per vertex.
pub open spec fn arrays_fit(positions: nat, texcoords: nat, normals: nat) -> bool {
    &&& texcoords >= 2 * vertex_count(positions)
    &&& (normals == 0 || normals >= 3 * vertex_count(positions))
}

/// Vertex `i` as the flat arrays give it.
pub open spec fn vertex_at<T>(positions: Seq<T>, texcoords: Seq<T>, normals: Seq<T>, i: int) -> (
    Seq<T>,
    Seq<T>,
    Option<Seq<T>>,
) {
    (
        seq![positions[3 * i], positions[3 * i + 1], positions[3 * i + 2]],
        seq![texcoords[2 * i], texcoords[2 * i + 1]],
        if normals.len() == 0 {
            None
        } else {
            Some(seq![normals[3 * i], normals[3 * i + 1], normals[3 * i + 2]])
        },
    )
}

/// The view of a vertex, in the shape of `vertex_at`.
pub open spec fn vertex_view<T>(v: MeshVertex<T>) -> (Seq<T>, Seq<T>, Option<Seq<T>>) {
    (
        v.position@,
        v.tex_coords@,
        match v.normal {
            Some(n) => Some(n@),
            None => None,
        },
    )
}

/// Whether arrays of these lengths cover every vertex (see `arrays_fit`).
pub fn mesh_arrays_fit(positions_len: usize, texcoords_len: usize, normals_len: usize) -> (r: bool)
    ensures
        r == arrays_fit(positions_len as nat, texcoords_len as nat, normals_len as nat),
{
    let n: usize = positions_len / 3;
    // 2 * n and 3 * n never exceed positions_len, so they fit in usize.
    texcoords_len >= 2 * n && (normals_len == 0 || normals_len >= 3 * n)
}

/// The vertices of a mesh, one for each whole triple of positions, in order.
pub fn gather_vertices<T: Copy>(positions: &Vec<T>, texcoords: &Vec<T>, normals: &Vec<T>) -> (r:
    Vec<MeshVertex<T>>)
    requires
        arrays_fit(positions.len() as nat, texcoords.len() as nat, normals.len() as nat),
    ensures
        r.len() == vertex_count(positions.len() as nat),
        forall|i: int|
            0 <= i < r.len() ==> vertex_view(#[trigger] r@[i]) == vertex_at(
                positions@,
                texcoords@,
                normals@,
                i,
            ),
{
    let n: usize = positions.len() / 3;
    let has_normals = normals.len() != 0;
    let mut r: Vec<MeshVertex<T>> = Vec::new();
    let mut i: usize = 0;
    while i < n
        invariant
            n == vertex_count(positions.len() as nat),
            has_normals == (normals.len() != 0),
            arrays_fit(positions.len() as nat, texcoords.len() as nat, normals.len() as nat),
            i <= n,
            r.len() == i,
            forall|k: int|
                0 <= k < i ==> vertex_view(#[trigger] r@[k]) == vertex_at(
                    positions@,
                    texcoords@,
                    normals@,
                    k,
                ),
        decreases n - i,
    {
        assert(3 * i + 2 < positions.len()) by (nonlinear_arith)
            requires
                i < n,
                n == positions.len() / 3,
        ;
        let p: usize = 3 * i;
        let t: usize = 2 * i;
        let normal = if has_normals {
            Some([normals[p], normals[p + 1], normals[p + 2]])
        } else {
            None
        };
        let v = MeshVertex {
            position: [positions[p], positions[p + 1], positions[p + 2]],
            tex_coords: [texcoords[t], texcoords[t + 1]],
            normal,
        };
        proof {
            assert(v.position@ =~= seq![positions@[p as int], positions@[p + 1], positions@[p + 2]]);
            assert(v.tex_coords@ =~= seq![texcoords@[t as int], texcoords@[t + 1]]);
            if has_normals {
                assert(normal.unwrap()@ =~= seq![normals@[p as int], normals@[p + 1], normals@[p + 2]]);
            }
        }
        r.push(v);
        i = i + 1;
    }
    r
}

} // verus!
