use wgpu_surfaces::vertex::{create_vertices, ISurfaceOutput, Vertex};

fn sample() -> ISurfaceOutput<f32> {
    ISurfaceOutput {
        positions: vec![[0.0, 0.0, 0.0], [1.0, 0.0, 0.0], [0.0, 1.0, 0.0]],
        normals: vec![[0.0, 0.0, 1.0], [0.0, 0.0, 1.0], [0.0, 0.0, -1.0]],
        colors: vec![[1.0, 0.0, 0.0], [0.0, 1.0, 0.0], [0.0, 0.0, 1.0]],
        colors2: vec![[1.0, 1.0, 1.0], [0.5, 0.5, 0.5], [0.25, 0.25, 0.25]],
        indices: vec![0, 1, 2],
        indices2: vec![0, 1, 1, 2, 2, 0],
    }
}

#[test]
fn vertices_pair_attributes_by_index() {
    let (data, data2, indices, indices2) = create_vertices(sample());
    assert_eq!(data.len(), 3);
    assert_eq!(data2.len(), 3);
    assert_eq!(data[1].position, [1.0, 0.0, 0.0]);
    assert_eq!(data[1].normal, [0.0, 0.0, 1.0]);
    assert_eq!(data[1].color, [0.0, 1.0, 0.0]);
    assert_eq!(data[2].normal, [0.0, 0.0, -1.0]);
    assert_eq!(data[2].color, [0.0, 0.0, 1.0]);
    assert_eq!(data2[1].position, [1.0, 0.0, 0.0]);
    assert_eq!(data2[1].normal, [0.0, 0.0, 1.0]);
    assert_eq!(data2[1].color, [0.5, 0.5, 0.5]);
    assert_eq!(data2[0].color, [1.0, 1.0, 1.0]);
    assert_eq!(indices, vec![0, 1, 2]);
    assert_eq!(indices2, vec![0, 1, 1, 2, 2, 0]);
}

#[test]
fn vertices_of_an_empty_surface_are_empty() {
    let empty: ISurfaceOutput<f32> = ISurfaceOutput {
        positions: vec![],
        normals: vec![],
        colors: vec![],
        colors2: vec![],
        indices: vec![],
        indices2: vec![7],
    };
    let (data, data2, indices, indices2) = create_vertices(empty);
    assert!(data.is_empty());
    assert!(data2.is_empty());
    assert!(indices.is_empty());
    assert_eq!(indices2, vec![7]);
}

#[test]
fn attributes_beyond_the_positions_are_left_out() {
    let mut surface = sample();
    surface.normals.push([9.0, 9.0, 9.0]);
    surface.colors.push([9.0, 9.0, 9.0]);
    surface.colors2.push([9.0, 9.0, 9.0]);
    let (data, data2, _, _) = create_vertices(surface);
    assert_eq!(data.len(), 3);
    assert_eq!(data2.len(), 3);
}

#[test]
fn vertices_keep_integer_coordinates_too() {
    let surface: ISurfaceOutput<i32> = ISurfaceOutput {
        positions: vec![[1, 2, 3]],
        normals: vec![[4, 5, 6]],
        colors: vec![[7, 8, 9]],
        colors2: vec![[10, 11, 12]],
        indices: vec![0],
        indices2: vec![0, 0],
    };
    let (data, data2, _, _) = create_vertices(surface);
    let first: Vertex<i32> = data[0];
    assert_eq!((first.position, first.normal, first.color), ([1, 2, 3], [4, 5, 6], [7, 8, 9]));
    assert_eq!(data2[0].color, [10, 11, 12]);
}
