use terrain_mesh::NormalMethod;
use terrain_mesh::mesher::{grid_indices, sobel_neighborhood, vertex_grid_coords};

#[test]
fn vertex_count_matches_dimensions() {
    let coords = vertex_grid_coords(8, 8);
    assert_eq!(coords.len(), 8 * 8);
}

#[test]
fn index_count_matches_quads() {
    let indices = grid_indices(5, 7);
    // (w-1)*(h-1) quads x 6 indices each
    let expected = (5 - 1) * (7 - 1) * 6;
    assert_eq!(indices.len(), expected);
}

#[test]
fn grid_indices_2x2_exact() {
    // One quad: triangles (tl, bl, tr) and (tr, bl, br) with
    // tl=0, tr=1, bl=2, br=3.
    let indices = grid_indices(2, 2);
    assert_eq!(indices, vec![0u32, 2, 1, 1, 2, 3]);
}

#[test]
fn grid_indices_3x2_second_quad() {
    // Width 3: quad (1, 0) has tl=1, tr=2, bl=4, br=5.
    let indices = grid_indices(3, 2);
    assert_eq!(indices.len(), 12);
    assert_eq!(&indices[0..6], &[0u32, 3, 1, 1, 3, 4]);
    assert_eq!(&indices[6..12], &[1u32, 4, 2, 2, 4, 5]);
}

#[test]
fn all_indices_in_bounds() {
    let indices = grid_indices(4, 5);
    assert_eq!(indices.len(), 3 * 4 * 6);
    for &index in &indices {
        assert!((index as usize) < 4 * 5);
    }
}

#[test]
fn vertex_coords_row_major() {
    // Vertex at grid coordinate (x=1, z=1) of a 3x3 grid is index 1*3+1 = 4.
    let coords = vertex_grid_coords(3, 3);
    assert_eq!(coords[4], (1, 1));
    assert_eq!(coords[5], (2, 1));
}

#[test]
fn vertex_coords_origin_and_far_corner() {
    let coords = vertex_grid_coords(4, 4);
    assert_eq!(coords[0], (0, 0));
    assert_eq!(*coords.last().unwrap(), (3, 3));
}

#[test]
fn sobel_neighborhood_interior() {
    // The center vertex of a 3x3 grid sees every sample exactly once.
    let taps = sobel_neighborhood(1, 1, 3, 3);
    assert_eq!(taps, vec![0usize, 1, 2, 3, 4, 5, 6, 7, 8]);
}

#[test]
fn sobel_neighborhood_clamps_at_origin_corner() {
    let taps = sobel_neighborhood(0, 0, 3, 3);
    assert_eq!(taps, vec![0usize, 0, 1, 0, 0, 1, 3, 3, 4]);
}

#[test]
fn sobel_neighborhood_clamps_at_far_corner() {
    let taps = sobel_neighborhood(2, 2, 3, 3);
    assert_eq!(taps, vec![4usize, 5, 5, 7, 8, 8, 7, 8, 8]);
}

#[test]
fn sobel_neighborhood_on_smallest_grid() {
    let taps = sobel_neighborhood(0, 0, 2, 2);
    assert_eq!(taps, vec![0usize, 0, 1, 0, 0, 1, 2, 2, 3]);
}

#[test]
fn normal_method_default_is_area_weighted() {
    assert_eq!(NormalMethod::default(), NormalMethod::AreaWeighted);
}
