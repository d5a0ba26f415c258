use vstd::prelude::*;

verus! {

/// Where one model's vertices and indices lie in the shared mesh buffers.
#[derive(Clone, Copy, Debug, PartialEq, Eq, Structural)]
pub struct MeshModelLocation {
    pub vertices_start_index: u32,
    pub vertices_count: u32,
    pub indices_start_index: u32,
    pub indices_count: u32,
}

/// The integer part of the static mesh data: the model table, the shared
/// index list, and how many vertices the shared vertex list holds.
pub struct MeshData {
    pub models: Vec<MeshModelLocation>,
    pub indices: Vec<u32>,
    pub vertex_count: usize,
}

/// Vertices of the unit cube: four per face.
pub const CUBE_VERTEX_COUNT: u32 = 24;

/// Indices of the unit cube: two triangles per face.
pub const CUBE_INDEX_COUNT: u32 = 36;

/// Index `k` of the cube: face `k / 6`, triangles (0, 1, 2) and (2, 0, 3)
/// of its four vertices.
pub open spec fn cube_index(k: int) -> u32 {
    let corner: int = if k % 6 == 0 || k % 6 == 4 {
        0
    } else if k % 6 == 1 {
        1
    } else if k % 6 == 5 {
        3
    } else {
        2
    };
    (4 * (k / 6) + corner) as u32
}

impl MeshData {
    /// No models, no indices, no vertices.
    pub fn new() -> (r: Self)
        ensures
            r.models@.len() == 0,
            r.indices@.len() == 0,
            r.vertex_count == 0,
    {
        MeshData { models: Vec::new(), indices: Vec::new(), vertex_count: 0 }
    }
}

/// Loads the built-in models into the mesh data.
pub struct MeshLoader {}

impl MeshLoader {
    /// Appends the unit cube: its location (starting where the vertex and
    /// index lists end), its indices, and its vertex count.
    pub fn new(mesh: &mut MeshData) -> (r: Self)
        requires
            old(mesh).vertex_count + CUBE_VERTEX_COUNT <= u32::MAX,
            old(mesh).indices@.len() + CUBE_INDEX_COUNT <= u32::MAX,
        ensures
            final(mesh).models@ == old(mesh).models@.push(
                MeshModelLocation {
                    vertices_start_index: old(mesh).vertex_count as u32,
                    vertices_count: CUBE_VERTEX_COUNT,
                    indices_start_index: old(mesh).indices@.len() as u32,
                    indices_count: CUBE_INDEX_COUNT,
                },
            ),
            final(mesh).indices@.len() == old(mesh).indices@.len() + CUBE_INDEX_COUNT,
            final(mesh).indices@.subrange(0, old(mesh).indices@.len() as int) == old(mesh).indices@,
            forall|k: int|
                0 <= k < CUBE_INDEX_COUNT ==> #[trigger] final(mesh).indices@[old(
                    mesh,
                ).indices@.len() + k] == cube_index(k),
            final(mesh).vertex_count == old(mesh).vertex_count + CUBE_VERTEX_COUNT,
    {
        let location = MeshModelLocation {
            vertices_start_index: mesh.vertex_count as u32,
            vertices_count: CUBE_VERTEX_COUNT,
            indices_start_index: mesh.indices.len() as u32,
            indices_count: CUBE_INDEX_COUNT,
        };
        mesh.models.push(location);
        let ghost start = mesh.indices@;
        let ghost models = mesh.models@;
        let ghost vertex_count = mesh.vertex_count;
        let mut k: u32 = 0;
        while k < CUBE_INDEX_COUNT
            invariant
                0 <= k <= CUBE_INDEX_COUNT,
                mesh.indices@.len() == start.len() + k,
                mesh.models@ == models,
                mesh.vertex_count == vertex_count,
                mesh.indices@.subrange(0, start.len() as int) == start,
                forall|j: int| 0 <= j < k ==> #[trigger] mesh.indices@[start.len() + j] == cube_index(j),
            decreases CUBE_INDEX_COUNT - k,
        {
            let r = k % 6;
            let corner: u32 = if r == 0 || r == 4 {
                0
            } else if r == 1 {
                1
            } else if r == 5 {
                3
            } else {
                2
            };
            let ghost before = mesh.indices@;
            mesh.indices.push(4 * (k / 6) + corner);
            assert(mesh.indices@.subrange(0, start.len() as int) =~= before.subrange(0, start.len() as int));
            k = k + 1;
        }
        mesh.vertex_count = mesh.vertex_count + CUBE_VERTEX_COUNT as usize;
        MeshLoader {}
    }
}

} // verus!
