use voxel_mesh::scene::{tile_grid, Extent, Tile};

#[test]
fn size_with_pixels_is_drawable() {
    assert!(Extent { width: 1, height: 1 }.is_drawable());
    assert!(Extent { width: 800, height: 600 }.is_drawable());
    assert!(Extent { width: u32::MAX, height: u32::MAX }.is_drawable());
}

#[test]
fn size_without_pixels_is_not_drawable() {
    assert!(!Extent { width: 0, height: 0 }.is_drawable());
    assert!(!Extent { width: 0, height: 600 }.is_drawable());
    assert!(!Extent { width: 800, height: 0 }.is_drawable());
}

#[test]
fn grid_runs_row_by_row() {
    let tiles = tile_grid(10);
    assert_eq!(tiles.len(), 100);
    for y in 0..10u32 {
        for x in 0..10u32 {
            assert_eq!(tiles[(y * 10 + x) as usize], Tile { x, y, tex_id: 0 });
        }
    }
    assert_eq!(tiles[0], Tile { x: 0, y: 0, tex_id: 0 });
    assert_eq!(tiles[1], Tile { x: 1, y: 0, tex_id: 0 });
    assert_eq!(tiles[10], Tile { x: 0, y: 1, tex_id: 0 });
}

#[test]
fn small_grids() {
    assert!(tile_grid(0).is_empty());
    assert_eq!(tile_grid(1), vec![Tile { x: 0, y: 0, tex_id: 0 }]);
    assert_eq!(
        tile_grid(2),
        vec![
            Tile { x: 0, y: 0, tex_id: 0 },
            Tile { x: 1, y: 0, tex_id: 0 },
            Tile { x: 0, y: 1, tex_id: 0 },
            Tile { x: 1, y: 1, tex_id: 0 },
        ]
    );
}
