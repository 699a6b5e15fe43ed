use render_core::torus::{torus_grid_fits, torus_indices, torus_vertices, TorusVertex};

#[test]
fn torus_four_by_four_has_twenty_vertices_and_ninety_six_indices() {
    let grid = torus_vertices(4, 4).unwrap();
    let indices = torus_indices(4, 4).unwrap();
    assert_eq!(grid.len(), 20);
    assert_eq!(indices.len(), 96);
    assert!(indices.iter().all(|&index| index < 20));
}

#[test]
fn torus_counts_follow_sides_and_rings() {
    for &(sides, rings) in [(3usize, 3usize), (3, 7), (5, 4), (60, 60), (1, 1), (7, 2)].iter() {
        let grid = torus_vertices(sides, rings).unwrap();
        let indices = torus_indices(sides, rings).unwrap();
        assert_eq!(grid.len(), sides * (rings + 1));
        assert_eq!(indices.len(), 6 * sides * rings);
        assert!(indices.iter().all(|&index| (index as usize) < sides * (rings + 1)));
    }
}

#[test]
fn torus_quads_wind_ring_then_next_ring() {
    let indices = torus_indices(4, 4).unwrap();
    assert_eq!(&indices[0..6], &[0, 4, 5, 0, 5, 1]);
    assert_eq!(&indices[6..12], &[1, 5, 6, 1, 6, 2]);
    // The last side of a ring closes on the first side.
    assert_eq!(&indices[18..24], &[3, 7, 4, 3, 4, 0]);
    // The last ring of quads reaches into the duplicated ring.
    assert_eq!(&indices[90..96], &[15, 19, 16, 15, 16, 12]);
}

#[test]
fn torus_three_by_three_index_list() {
    let indices = torus_indices(3, 3).unwrap();
    let expected: Vec<u32> = vec![
        0, 3, 4, 0, 4, 1, 1, 4, 5, 1, 5, 2, 2, 5, 3, 2, 3, 0, 3, 6, 7, 3, 7, 4, 4, 7, 8, 4, 8, 5,
        5, 8, 6, 5, 6, 3, 6, 9, 10, 6, 10, 7, 7, 10, 11, 7, 11, 8, 8, 11, 9, 8, 9, 6,
    ];
    assert_eq!(indices, expected);
}

#[test]
fn torus_grid_is_ring_major() {
    let grid = torus_vertices(3, 2).unwrap();
    let expected = vec![
        TorusVertex { ring: 0, side: 0, angle_ring: 0 },
        TorusVertex { ring: 0, side: 1, angle_ring: 0 },
        TorusVertex { ring: 0, side: 2, angle_ring: 0 },
        TorusVertex { ring: 1, side: 0, angle_ring: 1 },
        TorusVertex { ring: 1, side: 1, angle_ring: 1 },
        TorusVertex { ring: 1, side: 2, angle_ring: 1 },
        TorusVertex { ring: 2, side: 0, angle_ring: 0 },
        TorusVertex { ring: 2, side: 1, angle_ring: 0 },
        TorusVertex { ring: 2, side: 2, angle_ring: 0 },
    ];
    assert_eq!(grid, expected);
}

#[test]
fn torus_duplicated_ring_repeats_first_ring_angles() {
    let sides = 5;
    let rings = 7;
    let grid = torus_vertices(sides, rings).unwrap();
    for side in 0..sides {
        let first = grid[side];
        let last = grid[rings * sides + side];
        assert_eq!(first.angle_ring, 0);
        assert_eq!(last.angle_ring, first.angle_ring);
        assert_eq!(last.side, first.side);
        assert_eq!(first.ring, 0);
        assert_eq!(last.ring, rings);
        // The texture coordinate u is ring / rings: 0 on the first ring, 1 on the last.
        assert_eq!(first.ring as f32 / rings as f32, 0.0);
        assert_eq!(last.ring as f32 / rings as f32, 1.0);
    }
}

#[test]
fn torus_without_sides_is_empty() {
    assert_eq!(torus_vertices(0, 9).unwrap().len(), 0);
    assert_eq!(torus_indices(0, 9).unwrap().len(), 0);
    assert!(torus_grid_fits(0, usize::MAX));
}

#[test]
fn torus_without_rings_has_one_row_and_no_triangles() {
    let grid = torus_vertices(4, 0).unwrap();
    assert_eq!(grid.len(), 4);
    assert!(grid.iter().all(|vertex| vertex.ring == 0 && vertex.angle_ring == 0));
    assert_eq!(torus_indices(4, 0).unwrap().len(), 0);
}

#[test]
fn torus_too_large_for_one_draw_is_refused() {
    // 6 * 20000 * 20000 is more than an i32 can count.
    assert!(!torus_grid_fits(20_000, 20_000));
    assert_eq!(torus_indices(20_000, 20_000), None);
    assert_eq!(torus_vertices(20_000, 20_000), None);
    // More vertices than a u32 can index.
    assert!(!torus_grid_fits(usize::MAX, 0));
    assert!(!torus_grid_fits(1, usize::MAX));
    assert_eq!(torus_indices(1, usize::MAX), None);
}

#[test]
fn torus_largest_index_count_that_fits() {
    // 6 * 357913941 = 2147483646 fits an i32; one quad more does not.
    assert!(torus_grid_fits(357_913_941, 1));
    assert!(!torus_grid_fits(357_913_942, 1));
}
