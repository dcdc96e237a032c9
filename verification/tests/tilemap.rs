use slimeu::tilemap::{Tilemap, TILE_SIZE};

#[test]
fn tiles_are_sixteen_pixels_wide() {
    assert_eq!(TILE_SIZE, 16);
}

#[test]
fn solid_cells_are_listed_row_by_row() {
    let map = Tilemap { width: 3, height: 2, grid: vec![0, 1, 0, 2, 0, 7] };
    assert_eq!(map.solid_cells(), vec![(1, 0), (0, 1), (2, 1)]);
}

#[test]
fn incomplete_last_row_is_left_out() {
    let map = Tilemap { width: 3, height: 2, grid: vec![1, 1, 1, 1, 1] };
    assert_eq!(map.solid_cells(), vec![(0, 0), (1, 0), (2, 0)]);
}

#[test]
fn empty_grid_has_no_solid_cells() {
    let map = Tilemap { width: 4, height: 0, grid: vec![] };
    assert!(map.solid_cells().is_empty());
    let open = Tilemap { width: 2, height: 2, grid: vec![0, 0, 0, 0] };
    assert!(open.solid_cells().is_empty());
}

#[test]
fn single_column_counts_rows() {
    let map = Tilemap { width: 1, height: 3, grid: vec![5, 0, 5] };
    assert_eq!(map.solid_cells(), vec![(0, 0), (0, 2)]);
}
