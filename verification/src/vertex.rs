//! Vertices as they go into a vertex buffer.

use vstd::prelude::*;

verus! {

/// One vertex of a surface mesh. `T` is the scalar of its coordinates.
#[derive(Copy, Clone, Debug)]
pub struct Vertex<T> {
    pub position: [T; 3],
    pub normal: [T; 3],
    pub color: [T; 3],
}

/// What a surface generator hands over: per-vertex attributes, with one set of
/// colors for the shaded surface and one for its wireframe, and the index list
/// of each of the two.
pub struct ISurfaceOutput<T> {
    pub positions: Vec<[T; 3]>,
    pub normals: Vec<[T; 3]>,
    pub colors: Vec<[T; 3]>,
    pub colors2: Vec<[T; 3]>,
    pub indices: Vec<u16>,
    pub indices2: Vec<u16>,
}

/// The vertex list that pairs each position and normal with the color of the same index.
pub open spec fn interleaved<T>(
    positions: Seq<[T; 3]>,
    normals: Seq<[T; 3]>,
    colors: Seq<[T; 3]>,
) -> Seq<Vertex<T>> {
    Seq::new(
        positions.len(),
        |i: int| Vertex { position: positions[i], normal: normals[i], color: colors[i] },
    )
}

/// Interleaves the attributes of a surface into the vertex list of the shaded
/// surface and that of the wireframe, and passes the two index lists on.
pub fn create_vertices<T: Copy>(ss_data: ISurfaceOutput<T>) -> (data: (
    Vec<Vertex<T>>,
    Vec<Vertex<T>>,
    Vec<u16>,
    Vec<u16>,
))
    requires
        ss_data.positions.len() <= ss_data.normals.len(),
        ss_data.positions.len() <= ss_data.colors.len(),
        ss_data.positions.len() <= ss_data.colors2.len(),
    ensures
        data.0@ == interleaved(ss_data.positions@, ss_data.normals@, ss_data.colors@),
        data.1@ == interleaved(ss_data.positions@, ss_data.normals@, ss_data.colors2@),
        data.2@ == ss_data.indices@,
        data.3@ == ss_data.indices2@,
{
    let mut data: Vec<Vertex<T>> = Vec::new();
    let mut data2: Vec<Vertex<T>> = Vec::new();
    let count: usize = ss_data.positions.len();
    let mut i: usize = 0;
    while i < count
        invariant
            i <= count,
            count == ss_data.positions.len(),
            count <= ss_data.normals.len(),
            count <= ss_data.colors.len(),
            count <= ss_data.colors2.len(),
            data@ == interleaved(
                ss_data.positions@.take(i as int),
                ss_data.normals@,
                ss_data.colors@,
            ),
            data2@ == interleaved(
                ss_data.positions@.take(i as int),
                ss_data.normals@,
                ss_data.colors2@,
            ),
        decreases count - i,
    {
        data.push(
            Vertex {
                position: ss_data.positions[i],
                normal: ss_data.normals[i],
                color: ss_data.colors[i],
            },
        );
        data2.push(
            Vertex {
                position: ss_data.positions[i],
                normal: ss_data.normals[i],
                color: ss_data.colors2[i],
            },
        );
        i += 1;
    }
    assert(ss_data.positions@.take(count as int) =~= ss_data.positions@);
    (data, data2, ss_data.indices, ss_data.indices2)
}

} // verus!
