use vstd::prelude::*;

verus! {

/// One mesh of a model, uploaded: its texture, its number of indices and
/// its vertex array.
#[derive(Clone, Copy, Debug)]
pub struct SubModel {
    pub texture: u32,
    pub indices_len: usize,
    pub vao: u32,
}

/// A model made of meshes.
#[derive(Clone, Debug)]
pub struct Model {
    pub sub_models: Vec<SubModel>,
}

/// A vertex of a mesh: its position and its texture coordinates, in the
/// scalar type `T` of the mesh.
pub type MeshVertex<T> = ((T, T, T), (T, T));

/// The vertices of a mesh given as flat lists: three position scalars and
/// two texture scalars per vertex. A trailing incomplete position is left out.
pub open spec fn spec_mesh_vertices<T>(positions: Seq<T>, texcoords: Seq<T>) -> Seq<MeshVertex<T>> {
    Seq::new(
        positions.len() / 3,
        |i: int|
            (
                (positions[i * 3], positions[i * 3 + 1], positions[i * 3 + 2]),
                (texcoords[i * 2], texcoords[i * 2 + 1]),
            ),
    )
}

/// Pairs each vertex position of a mesh with its texture coordinates. Every
/// vertex needs its two texture scalars.
pub fn mesh_vertices<T: Copy>(positions: &Vec<T>, texcoords: &Vec<T>) -> (vertices: Vec<MeshVertex<T>>)
    requires
        2 * (positions@.len() / 3) <= texcoords@.len(),
    ensures
        vertices@ == spec_mesh_vertices(positions@, texcoords@),
{
    let num_vertices = positions.len() / 3;
    let mut vertices: Vec<MeshVertex<T>> = Vec::new();
    let mut i: usize = 0;
    while i < num_vertices
        invariant
            num_vertices == positions.len() / 3,
            2 * num_vertices <= texcoords.len(),
            i <= num_vertices,
            vertices@ == spec_mesh_vertices(positions@, texcoords@).take(i as int),
        decreases num_vertices - i,
    {
        let p = ((positions[i * 3], positions[i * 3 + 1], positions[i * 3 + 2]), (texcoords[i * 2], texcoords[i * 2 + 1]));
        vertices.push(p);
        assert(vertices@ =~= spec_mesh_vertices(positions@, texcoords@).take(i + 1));
        i = i + 1;
    }
    assert(vertices@ =~= spec_mesh_vertices(positions@, texcoords@));
    vertices
}

} // verus!
