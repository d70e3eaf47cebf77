use threedtest::mesh::{
    axes_indices, cube_indices, every_other, grid_indices, normal_line_indices, pyramid_indices,
    sphere_indices, torus_outline_indices, MeshIndices, TORUS_MAJOR_SEGMENTS, TORUS_MINOR_SEGMENTS,
    TORUS_RING_COUNT,
};

fn all_in_bounds(m: &MeshIndices) -> bool {
    m.indices.iter().all(|&i| (i as u64) < m.vertex_count)
}

#[test]
fn cube() {
    let m = cube_indices();
    assert_eq!(m.vertex_count, 24);
    assert_eq!(m.indices.len(), 36);
    assert_eq!(&m.indices[0..6], &[0, 1, 2, 0, 2, 3]);
    assert_eq!(&m.indices[30..36], &[20, 21, 22, 20, 22, 23]);
    assert!(all_in_bounds(&m));
}

#[test]
fn sphere_small() {
    let m = sphere_indices(2, 3);
    assert_eq!(m.vertex_count, 12);
    assert_eq!(m.indices.len(), 36);
    // cell (0,0): a = 0, b = 4
    assert_eq!(&m.indices[0..6], &[0, 4, 1, 4, 5, 1]);
    // cell (1,2): a = 6, b = 10
    assert_eq!(&m.indices[30..36], &[6, 10, 7, 10, 11, 7]);
    assert!(all_in_bounds(&m));
}

#[test]
fn sphere_as_rendered() {
    let m = sphere_indices(24, 32);
    assert_eq!(m.vertex_count, 25 * 33);
    assert_eq!(m.indices.len(), 6 * 24 * 32);
    assert_eq!(m.indices.iter().copied().max(), Some(25 * 33 - 1));
    assert!(all_in_bounds(&m));
}

#[test]
fn sphere_empty() {
    let m = sphere_indices(0, 5);
    assert_eq!(m.vertex_count, 6);
    assert!(m.indices.is_empty());
}

#[test]
fn pyramid() {
    let m = pyramid_indices();
    assert_eq!(m.vertex_count, 16);
    assert_eq!(m.indices, vec![0, 2, 1, 0, 3, 2, 4, 5, 6, 7, 8, 9, 10, 11, 12, 13, 14, 15]);
}

#[test]
fn torus() {
    let m = torus_outline_indices(TORUS_MAJOR_SEGMENTS, TORUS_MINOR_SEGMENTS, TORUS_RING_COUNT);
    assert_eq!(m.vertex_count, 2 * 49 + 12 * 13);
    assert_eq!(m.indices.len(), 2 * (48 + 48 + 12 * 12));
    assert_eq!(&m.indices[0..4], &[0, 1, 1, 2]);
    assert_eq!(&m.indices[94..98], &[47, 48, 49, 50]);
    // first cross-section ring starts at vertex 98
    assert_eq!(&m.indices[192..194], &[98, 99]);
    assert_eq!(*m.indices.last().unwrap(), 253);
    assert!(all_in_bounds(&m));
}

#[test]
fn axes() {
    let m = axes_indices();
    assert_eq!(m.vertex_count, 6);
    assert_eq!(m.indices, vec![0, 1, 2, 3, 4, 5]);
}

#[test]
fn grid() {
    let m = grid_indices(5);
    assert_eq!(m.vertex_count, 44);
    assert_eq!(m.indices, (0..44).collect::<Vec<u32>>());
    let z = grid_indices(0);
    assert_eq!(z.indices, vec![0, 1, 2, 3]);
    let neg = grid_indices(-3);
    assert_eq!(neg.vertex_count, 0);
    assert!(neg.indices.is_empty());
}

#[test]
fn normal_lines() {
    let m = normal_line_indices(24);
    assert_eq!(m.vertex_count, 24);
    assert_eq!(m.indices, (0..24).collect::<Vec<u32>>());
    let odd = normal_line_indices(5);
    assert_eq!(odd.vertex_count, 6);
    assert_eq!(normal_line_indices(0).indices.len(), 0);
}

#[test]
fn every_other_element() {
    assert_eq!(every_other(&vec![10, 11, 12, 13, 14]), vec![10, 12, 14]);
    assert_eq!(every_other(&vec![10, 11, 12, 13]), vec![10, 12]);
    assert_eq!(every_other(&Vec::<u8>::new()), Vec::<u8>::new());
}
