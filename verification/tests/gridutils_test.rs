use notan_sketches::gridutils::Grid;
use notan_sketches::mathutils::get_cell_pos_in_grid;

// Helper function for common test setup
fn create_test_grid() -> Grid<i32> {
    Grid::builder(3, 3)
        .with_cell_data(|row, col| (row * 3 + col) as i32)
        .build()
}

// ===== Core Grid Functionality =====

#[test]
fn test_grid_creation_dimensions() {
    let grid = create_test_grid();
    assert_eq!(grid.rows(), 3);
    assert_eq!(grid.cols(), 3);
    assert_eq!(grid.total_cells(), 9);
}

// ===== Cell Indexing =====

#[test]
fn test_cell_iteration_visits_all_cells_once() {
    let grid = create_test_grid();
    let count = grid.cells().len();
    assert_eq!(count, 9);
}

#[test]
fn test_cell_iteration_order_is_row_major() {
    let grid = create_test_grid();
    let data: Vec<i32> = grid.cells().iter().map(|cell| *cell.data).collect();
    assert_eq!(data, vec![0, 1, 2, 3, 4, 5, 6, 7, 8]);
}

#[test]
fn test_get_returns_correct_cell() {
    let grid = create_test_grid();
    let cell = grid.get(1, 1).unwrap();
    assert_eq!(*cell.data, 4); // Middle cell: row 1 * 3 + col 1 = 4
    assert_eq!(cell.row, 1);
    assert_eq!(cell.col, 1);
}

#[test]
fn test_get_out_of_bounds_returns_none() {
    let grid = create_test_grid();
    assert!(grid.get(3, 0).is_none());
    assert!(grid.get(0, 3).is_none());
    assert!(grid.get(10, 10).is_none());
}

// ===== Iteration =====

#[test]
fn test_cells_iterator_is_immutable() {
    let grid = create_test_grid();

    for cell in grid.cells() {
        // cell.data is &i32, not &mut i32
        let _ = *cell.data;
    }
}

#[test]
fn test_cells_mut_allows_mutation() {
    let mut grid = create_test_grid();

    for cell in grid.cells_mut() {
        *cell.data += 100;
    }

    // Verify mutations persisted
    let data: Vec<i32> = grid.cells().iter().map(|cell| *cell.data).collect();
    assert_eq!(data, vec![100, 101, 102, 103, 104, 105, 106, 107, 108]);
}

#[test]
fn test_iteration_provides_correct_row_col() {
    let grid = create_test_grid();

    let cell = grid.get(2, 1).unwrap();
    assert_eq!(cell.row, 2);
    assert_eq!(cell.col, 1);
}

// ===== Data Management =====

#[test]
fn test_regenerate_cells_replaces_all_data() {
    let mut grid = create_test_grid();

    grid.regenerate_cells(|row, col| (row * 10 + col) as i32);

    let data: Vec<i32> = grid.cells().iter().map(|cell| *cell.data).collect();
    assert_eq!(data, vec![0, 1, 2, 10, 11, 12, 20, 21, 22]);
}

#[test]
fn test_get_mut_allows_modification() {
    let mut grid = create_test_grid();

    if let Some(cell) = grid.get_mut(1, 1) {
        *cell.data = 999;
    }

    assert_eq!(*grid.get(1, 1).unwrap().data, 999);
}

#[test]
fn test_cell_data_persists_across_iterations() {
    let mut grid = create_test_grid();

    // Modify in first iteration
    for cell in grid.cells_mut() {
        *cell.data *= 2;
    }

    // Verify in second iteration
    for cell in grid.cells() {
        assert_eq!(*cell.data % 2, 0);
    }
}

// ===== Further cases =====

#[test]
fn test_single_cell_grid_has_one_cell() {
    let grid = Grid::builder(1, 1).with_cell_data(|_, _| 42).build();
    assert_eq!(grid.total_cells(), 1);
    assert_eq!(*grid.get(0, 0).unwrap().data, 42);
}

#[test]
fn test_empty_grid_has_no_cells() {
    let grid: Grid<i32> = Grid::builder(0, 4).with_cell_data(|_, _| 1).build();
    assert_eq!(grid.total_cells(), 0);
    assert!(grid.cells().is_empty());
    assert!(grid.get(0, 0).is_none());
}

#[test]
fn test_non_square_grid_is_row_major() {
    let grid = Grid::builder(2, 3).with_cell_data(|row, col| (row, col)).build();
    let positions: Vec<(u32, u32)> = grid.cells().iter().map(|cell| (cell.row, cell.col)).collect();
    assert_eq!(positions, vec![(0, 0), (0, 1), (0, 2), (1, 0), (1, 1), (1, 2)]);
    for cell in grid.cells() {
        assert_eq!(*cell.data, (cell.row, cell.col));
        let same = grid.get(cell.row, cell.col).unwrap();
        assert_eq!(*same.data, *cell.data);
    }
}

#[test]
fn test_get_mut_out_of_bounds_leaves_grid_unchanged() {
    let mut grid = create_test_grid();
    assert!(grid.get_mut(0, 3).is_none());
    assert!(grid.get_mut(3, 0).is_none());
    let data: Vec<i32> = grid.cells().iter().map(|cell| *cell.data).collect();
    assert_eq!(data, vec![0, 1, 2, 3, 4, 5, 6, 7, 8]);
}

#[test]
fn test_write_then_read_changes_only_that_cell() {
    let mut grid = create_test_grid();
    {
        let cell = grid.get_mut(2, 0).unwrap();
        assert_eq!(cell.row, 2);
        assert_eq!(cell.col, 0);
        assert_eq!(*cell.data, 6);
        *cell.data = -1;
    }
    let data: Vec<i32> = grid.cells().iter().map(|cell| *cell.data).collect();
    assert_eq!(data, vec![0, 1, 2, 3, 4, 5, -1, 7, 8]);
}

#[test]
fn test_cells_mut_reports_positions() {
    let mut grid = Grid::builder(2, 2).with_cell_data(|_, _| 0u32).build();
    for cell in grid.cells_mut() {
        *cell.data = cell.row * 100 + cell.col;
    }
    assert_eq!(*grid.get(1, 0).unwrap().data, 100);
    assert_eq!(*grid.get(0, 1).unwrap().data, 1);
}

#[test]
fn test_cell_pos_in_grid_matches_grid_order() {
    assert_eq!(get_cell_pos_in_grid(5, 2, 3), 13);
    assert_eq!(get_cell_pos_in_grid(0, 7, 0), 0);
    let grid = Grid::builder(3, 4).with_cell_data(|row, col| get_cell_pos_in_grid(4, row as usize, col as usize)).build();
    for (i, cell) in grid.cells().iter().enumerate() {
        assert_eq!(*cell.data, i);
    }
}
