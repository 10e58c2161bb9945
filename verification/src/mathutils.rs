use vstd::prelude::*;

verus! {

/// The sequential position of the cell at (`row`, `col`) in a grid whose cells are
/// counted from left to right and top to bottom, `cols_per_row` cells to a row.
pub open spec fn cell_pos_in_grid(cols_per_row: int, row: int, col: int) -> int {
    cols_per_row * row + col
}

/// Returns the sequential position of a cell in a grid where cells are counted
/// from left to right and top to bottom.
pub fn get_cell_pos_in_grid(cols_per_row: usize, row: usize, col: usize) -> (pos: usize)
    requires
        cols_per_row * row + col <= usize::MAX,
    ensures
        pos == cell_pos_in_grid(cols_per_row as int, row as int, col as int),
{
    cols_per_row * row + col
}

} // verus!
