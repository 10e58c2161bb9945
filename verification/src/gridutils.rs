use crate::mathutils::cell_pos_in_grid;
use vstd::prelude::*;

verus! {

/// Flat position of the cell at (`row`, `col`) in a grid that is `cols` cells wide,
/// cells being stored row after row (row-major order).
pub open spec fn cell_index(cols: int, row: int, col: int) -> int {
    row * cols + col
}

/// Row of the cell stored at flat position `idx` in a grid that is `cols` cells wide.
pub open spec fn cell_row(cols: int, idx: int) -> int {
    idx / cols
}

/// Column of the cell stored at flat position `idx` in a grid that is `cols` cells wide.
pub open spec fn cell_col(cols: int, idx: int) -> int {
    idx % cols
}

/// A flat position below `rows * cols` belongs to exactly one (row, col) pair inside
/// the grid, and `cell_index` gives that position back.
pub proof fn lemma_cell_index_bounds(rows: int, cols: int, row: int, col: int)
    requires
        0 <= row < rows,
        0 <= col < cols,
    ensures
        0 <= cell_index(cols, row, col) < rows * cols,
{
    assert(row * cols + col < rows * cols) by (nonlinear_arith)
        requires
            0 <= row < rows,
            0 <= col < cols,
    ;
    assert(0 <= row * cols) by (nonlinear_arith)
        requires
            0 <= row,
            0 <= col < cols,
    ;
}

/// Distinct cells of a grid have distinct flat positions.
pub proof fn lemma_cell_index_injective(cols: int, r1: int, c1: int, r2: int, c2: int)
    requires
        0 <= c1 < cols,
        0 <= c2 < cols,
        cell_index(cols, r1, c1) == cell_index(cols, r2, c2),
    ensures
        r1 == r2,
        c1 == c2,
{
    assert(r1 == r2 && c1 == c2) by (nonlinear_arith)
        requires
            0 <= c1 < cols,
            0 <= c2 < cols,
            r1 * cols + c1 == r2 * cols + c2,
    ;
}

/// Row-major order: the cell stored at the flat position of (`row`, `col`) is the one
/// that reports row `row` and column `col`, so iterating over the cells and looking a
/// cell up by its coordinates agree.
pub proof fn lemma_cell_position_roundtrip(cols: int, row: int, col: int)
    requires
        0 <= row,
        0 <= col < cols,
    ensures
        cell_row(cols, cell_index(cols, row, col)) == row,
        cell_col(cols, cell_index(cols, row, col)) == col,
{
    vstd::arithmetic::div_mod::lemma_fundamental_div_mod_converse(
        row * cols + col,
        cols,
        row,
        col,
    );
}

/// Writing a value into one cell (as through [`Grid::get_mut`]) makes that cell read
/// back the value written, and leaves every other cell as it was.
pub proof fn lemma_write_then_read<T>(before: Grid<T>, after: Grid<T>, row: u32, col: u32, value: T)
    requires
        before.wf(),
        row < before.num_rows(),
        col < before.num_cols(),
        after.num_rows() == before.num_rows(),
        after.num_cols() == before.num_cols(),
        after.cell_data() == before.cell_data().update(
            cell_index(before.num_cols() as int, row as int, col as int),
            value,
        ),
    ensures
        after.data_at(row as int, col as int) == value,
        forall|r: u32, c: u32|
            r < before.num_rows() && c < before.num_cols() && (r != row || c != col)
                ==> #[trigger] after.data_at(r as int, c as int) == before.data_at(
                r as int,
                c as int,
            ),
{
    let cols = before.num_cols() as int;
    lemma_cell_index_bounds(before.num_rows() as int, cols, row as int, col as int);
    assert forall|r: u32, c: u32|
        r < before.num_rows() && c < before.num_cols() && (r != row || c != col) implies
        #[trigger] after.data_at(r as int, c as int) == before.data_at(r as int, c as int) by {
        lemma_cell_index_bounds(before.num_rows() as int, cols, r as int, c as int);
        if cell_index(cols, r as int, c as int) == cell_index(cols, row as int, col as int) {
            lemma_cell_index_injective(cols, r as int, c as int, row as int, col as int);
        }
    }
}

/// The position that `get_cell_pos_in_grid` gives a cell is the flat position at which
/// a grid of that width stores it.
pub proof fn lemma_cell_pos_in_grid_is_cell_index(cols: int, row: int, col: int)
    ensures
        cell_pos_in_grid(cols, row, col) == cell_index(cols, row, col),
{
    assert(cols * row == row * cols) by (nonlinear_arith);
}

/// A grid of `rows` x `cols` cells, each holding a value of type `T`.
///
/// Cells are stored in row-major order: the cell at (`row`, `col`) is the
/// `row * cols + col`-th one.
pub struct Grid<T> {
    rows: u32,
    cols: u32,
    cells: Vec<T>,
}

impl<T> Grid<T> {
    /// The grid holds exactly `rows * cols` cells, and that count fits in a `u32`.
    pub closed spec fn wf(&self) -> bool {
        &&& self.cells@.len() == self.rows as int * self.cols as int
        &&& self.rows as int * self.cols as int <= u32::MAX
    }

    /// Number of rows of the grid.
    pub closed spec fn num_rows(&self) -> u32 {
        self.rows
    }

    /// Number of columns of the grid.
    pub closed spec fn num_cols(&self) -> u32 {
        self.cols
    }

    /// The data of every cell, in row-major order.
    pub closed spec fn cell_data(&self) -> Seq<T> {
        self.cells@
    }

    /// The data of the cell at (`row`, `col`).
    pub open spec fn data_at(&self, row: int, col: int) -> T {
        self.cell_data()[cell_index(self.num_cols() as int, row, col)]
    }

    /// Create a builder for constructing a Grid with cell data.
    pub fn builder(rows: u32, cols: u32) -> (b: GridBuilder<T>)
        ensures
            b.num_rows() == rows,
            b.num_cols() == cols,
    {
        GridBuilder::new(rows, cols)
    }

    /// Get the number of rows in the grid.
    pub fn rows(&self) -> (r: u32)
        ensures
            r == self.num_rows(),
    {
        self.rows
    }

    /// Get the number of columns in the grid.
    pub fn cols(&self) -> (c: u32)
        ensures
            c == self.num_cols(),
    {
        self.cols
    }

    /// Get the total number of cells in the grid.
    pub fn total_cells(&self) -> (n: usize)
        requires
            self.wf(),
        ensures
            n == self.cell_data().len(),
            n == self.num_rows() as int * self.num_cols() as int,
    {
        self.cells.len()
    }

    /// Convert row and column indices to a flat array index.
    fn index(&self, row: u32, col: u32) -> (idx: usize)
        requires
            self.wf(),
            row < self.num_rows(),
            col < self.num_cols(),
        ensures
            idx == cell_index(self.num_cols() as int, row as int, col as int),
            idx < self.cell_data().len(),
    {
        proof {
            lemma_cell_index_bounds(self.rows as int, self.cols as int, row as int, col as int);
        }
        (row * self.cols + col) as usize
    }
}

/// A cell of a grid together with its position, as handed out by
/// [`Grid::cells`] and [`Grid::get`].
pub struct CellContext<'a, T> {
    /// The row index of this cell (0-based).
    pub row: u32,
    /// The column index of this cell (0-based).
    pub col: u32,
    /// Reference to the cell's data.
    pub data: &'a T,
}

/// A cell of a grid together with its position, with mutable access to its data,
/// as handed out by [`Grid::cells_mut`] and [`Grid::get_mut`].
pub struct CellContextMut<'a, T> {
    /// The row index of this cell (0-based).
    pub row: u32,
    /// The column index of this cell (0-based).
    pub col: u32,
    /// Mutable reference to the cell's data.
    pub data: &'a mut T,
}

impl<T> Grid<T> {
    /// Get an immutable reference to a specific cell by row and column.
    ///
    /// Returns `None` if the row or column is out of bounds.
    pub fn get(&self, row: u32, col: u32) -> (cell: Option<CellContext<'_, T>>)
        requires
            self.wf(),
        ensures
            cell is Some <==> (row < self.num_rows() && col < self.num_cols()),
            cell matches Some(c) ==> {
                &&& c.row == row
                &&& c.col == col
                &&& *c.data == self.data_at(row as int, col as int)
            },
    {
        if row >= self.rows || col >= self.cols {
            return None;
        }
        let idx = self.index(row, col);
        Some(CellContext { row, col, data: &self.cells[idx] })
    }

    /// Get a mutable reference to a specific cell by row and column.
    ///
    /// Returns `None` if the row or column is out of bounds; the grid is then unchanged.
    pub fn get_mut(&mut self, row: u32, col: u32) -> (cell: Option<CellContextMut<'_, T>>)
        requires
            old(self).wf(),
        ensures
            cell is Some <==> (row < old(self).num_rows() && col < old(self).num_cols()),
            final(self).num_rows() == old(self).num_rows(),
            final(self).num_cols() == old(self).num_cols(),
            final(self).wf(),
            cell is None ==> final(self).cell_data() == old(self).cell_data(),
            cell matches Some(c) ==> {
                &&& c.row == row
                &&& c.col == col
                &&& *c.data == old(self).data_at(row as int, col as int)
                &&& final(self).cell_data() == old(self).cell_data().update(
                    cell_index(old(self).num_cols() as int, row as int, col as int),
                    *final(c.data),
                )
            },
    {
        if row >= self.rows || col >= self.cols {
            return None;
        }
        let idx = self.index(row, col);
        Some(CellContextMut { row, col, data: &mut self.cells[idx] })
    }
}

/// Builder for constructing a Grid with cell data.
pub struct GridBuilder<T> {
    rows: u32,
    cols: u32,
    _phantom: std::marker::PhantomData<T>,
}

impl<T> GridBuilder<T> {
    /// Number of rows of the grid to build.
    pub closed spec fn num_rows(&self) -> u32 {
        self.rows
    }

    /// Number of columns of the grid to build.
    pub closed spec fn num_cols(&self) -> u32 {
        self.cols
    }

    fn new(rows: u32, cols: u32) -> (b: Self)
        ensures
            b.num_rows() == rows,
            b.num_cols() == cols,
    {
        GridBuilder { rows, cols, _phantom: std::marker::PhantomData }
    }

    /// Generate cell data using a closure that receives the row and column index
    /// (both 0-based) of each cell.
    pub fn with_cell_data<F>(self, f: F) -> (b: GridBuilderWithData<T, F>) where
        F: Fn(u32, u32) -> T,

        ensures
            b.num_rows() == self.num_rows(),
            b.num_cols() == self.num_cols(),
            b.data_fn() == f,
    {
        GridBuilderWithData { rows: self.rows, cols: self.cols, cell_data_fn: f }
    }
}

/// Builder with a cell data generation function.
#[verifier::reject_recursive_types(T)]
pub struct GridBuilderWithData<T, F> where F: Fn(u32, u32) -> T {
    rows: u32,
    cols: u32,
    cell_data_fn: F,
}

impl<T, F> GridBuilderWithData<T, F> where F: Fn(u32, u32) -> T {
    /// Number of rows of the grid to build.
    pub closed spec fn num_rows(&self) -> u32 {
        self.rows
    }

    /// Number of columns of the grid to build.
    pub closed spec fn num_cols(&self) -> u32 {
        self.cols
    }

    /// The function that generates the data of each cell.
    pub closed spec fn data_fn(&self) -> F {
        self.cell_data_fn
    }

    /// Build the grid, generating the data of every cell with the provided closure,
    /// row after row.
    pub fn build(self) -> (g: Grid<T>)
        requires
            self.num_rows() as int * self.num_cols() as int <= u32::MAX,
            forall|r: u32, c: u32|
                r < self.num_rows() && c < self.num_cols() ==> call_requires(
                    self.data_fn(),
                    (r, c),
                ),
        ensures
            g.wf(),
            g.num_rows() == self.num_rows(),
            g.num_cols() == self.num_cols(),
            g.cell_data().len() == self.num_rows() as int * self.num_cols() as int,
            forall|r: u32, c: u32|
                r < self.num_rows() && c < self.num_cols() ==> call_ensures(
                    self.data_fn(),
                    (r, c),
                    #[trigger] g.data_at(r as int, c as int),
                ),
    {
        let rows = self.rows;
        let cols = self.cols;
        let mut cells: Vec<T> = Vec::with_capacity((rows * cols) as usize);
        let mut row: u32 = 0;
        while row < rows
            invariant
                rows == self.rows,
                cols == self.cols,
                rows as int * cols as int <= u32::MAX,
                row <= rows,
                cells@.len() == row as int * cols as int,
                forall|r: u32, c: u32|
                    r < rows && c < cols ==> call_requires(self.data_fn(), (r, c)),
                forall|r: u32, c: u32|
                    r < row && c < cols ==> call_ensures(
                        self.data_fn(),
                        (r, c),
                        #[trigger] cells@[cell_index(cols as int, r as int, c as int)],
                    ),
            decreases rows - row,
        {
            let mut col: u32 = 0;
            while col < cols
                invariant
                    rows == self.rows,
                    cols == self.cols,
                    rows as int * cols as int <= u32::MAX,
                    row < rows,
                    col <= cols,
                    cells@.len() == row as int * cols as int + col,
                    forall|r: u32, c: u32|
                        r < rows && c < cols ==> call_requires(self.data_fn(), (r, c)),
                    forall|r: u32, c: u32|
                        (r < row && c < cols) || (r == row && c < col) ==> call_ensures(
                            self.data_fn(),
                            (r, c),
                            #[trigger] cells@[cell_index(cols as int, r as int, c as int)],
                        ),
                decreases cols - col,
            {
                assert(call_requires(self.data_fn(), (row, col)));
                let cell_data = (self.cell_data_fn)(row, col);
                let ghost before = cells@;
                cells.push(cell_data);
                proof {
                    assert forall|r: u32, c: u32|
                        (r < row && c < cols) || (r == row && c < col + 1) implies call_ensures(
                        self.data_fn(),
                        (r, c),
                        #[trigger] cells@[cell_index(cols as int, r as int, c as int)],
                    ) by {
                        if r < row {
                            lemma_cell_index_bounds(row as int, cols as int, r as int, c as int);
                            assert(cells@[cell_index(cols as int, r as int, c as int)]
                                == before[cell_index(cols as int, r as int, c as int)]);
                        } else if c < col {
                            assert(cells@[cell_index(cols as int, r as int, c as int)]
                                == before[cell_index(cols as int, r as int, c as int)]);
                        }
                    }
                }
                col = col + 1;
            }
            proof {
                assert((row + 1) as int * cols as int == row as int * cols as int + cols)
                    by (nonlinear_arith);
                assert((row + 1) as int * cols as int <= rows as int * cols as int)
                    by (nonlinear_arith)
                    requires
                        row < rows,
                ;
            }
            row = row + 1;
        }
        Grid { rows, cols, cells }
    }
}

impl<T> Grid<T> {
    /// Iterate over all cells immutably, in row-major order.
    pub fn cells(&self) -> (v: Vec<CellContext<'_, T>>)
        requires
            self.wf(),
        ensures
            v@.len() == self.cell_data().len(),
            forall|i: int|
                0 <= i < v@.len() ==> {
                    &&& #[trigger] v@[i].row == cell_row(self.num_cols() as int, i)
                    &&& v@[i].col == cell_col(self.num_cols() as int, i)
                    &&& *v@[i].data == self.cell_data()[i]
                },
    {
        let cols = self.cols;
        let n = self.cells.len();
        let mut v: Vec<CellContext<'_, T>> = Vec::new();
        let mut idx: usize = 0;
        while idx < n
            invariant
                cols == self.cols,
                n == self.cells@.len(),
                n <= u32::MAX,
                n == self.rows as int * cols as int,
                idx <= n,
                v@.len() == idx,
                forall|i: int|
                    0 <= i < idx ==> {
                        &&& #[trigger] v@[i].row == cell_row(cols as int, i)
                        &&& v@[i].col == cell_col(cols as int, i)
                        &&& *v@[i].data == self.cells@[i]
                    },
            decreases n - idx,
        {
            assert(cols > 0) by (nonlinear_arith)
                requires
                    idx < n,
                    n == self.rows as int * cols as int,
            ;
            let i32 = idx as u32;
            v.push(CellContext { row: i32 / cols, col: i32 % cols, data: &self.cells[idx] });
            idx = idx + 1;
        }
        v
    }

    /// Iterate over all cells mutably, in row-major order.
    pub fn cells_mut(&mut self) -> (v: Vec<CellContextMut<'_, T>>)
        requires
            old(self).wf(),
        ensures
            final(self).wf(),
            final(self).num_rows() == old(self).num_rows(),
            final(self).num_cols() == old(self).num_cols(),
            v@.len() == old(self).cell_data().len(),
            final(self).cell_data().len() == old(self).cell_data().len(),
            forall|i: int|
                0 <= i < v@.len() ==> {
                    &&& #[trigger] v@[i].row == cell_row(old(self).num_cols() as int, i)
                    &&& v@[i].col == cell_col(old(self).num_cols() as int, i)
                    &&& *v@[i].data == old(self).cell_data()[i]
                },
            forall|i: int|
                0 <= i < v@.len() ==> final(self).cell_data()[i] == *final(#[trigger] v@[i].data),
    {
        let cols = self.cols;
        let n = self.cells.len();
        let mut v: Vec<CellContextMut<'_, T>> = Vec::new();
        let ghost rows = self.rows as int;
        let ghost fin = *final(self);
        let mut rest: &mut [T] = self.cells.as_mut_slice();
        let mut idx: usize = 0;
        while idx < n
            invariant
                cols == old(self).cols,
                n == old(self).cells@.len(),
                rows == old(self).rows,
                n == rows * cols as int,
                n <= u32::MAX,
                idx <= n,
                v@.len() == idx,
                rest@ == old(self).cells@.subrange(idx as int, n as int),
                fin.rows == old(self).rows,
                fin.cols == old(self).cols,
                fin.cells@ == Seq::new(idx as nat, |i: int| *final(v@[i].data)) + final(rest)@,
                forall|i: int|
                    0 <= i < idx ==> {
                        &&& #[trigger] v@[i].row == cell_row(cols as int, i)
                        &&& v@[i].col == cell_col(cols as int, i)
                        &&& *v@[i].data == old(self).cells@[i]
                    },
            decreases n - idx,
        {
            assert(cols > 0) by (nonlinear_arith)
                requires
                    idx < n,
                    n == rows * cols as int,
            ;
            let ghost before = v@;
            let (head, tail) = rest.split_at_mut(1);
            let i32 = idx as u32;
            v.push(CellContextMut { row: i32 / cols, col: i32 % cols, data: &mut head[0] });
            rest = tail;
            idx = idx + 1;
        }
        assert(final(rest)@ == rest@);
        assert(fin.cells@ =~= Seq::new(n as nat, |i: int| *final(v@[i].data)));
        assert forall|i: int| 0 <= i < v@.len() implies fin.cells@[i] == *final(#[trigger] v@[i].data) by {}
        v
    }
}

impl<T> Grid<T> {
    /// Regenerate all cell data using a closure that receives the row and column
    /// index of each cell.
    pub fn regenerate_cells<F>(&mut self, f: F) where F: Fn(u32, u32) -> T
        requires
            old(self).wf(),
            forall|r: u32, c: u32|
                r < old(self).num_rows() && c < old(self).num_cols() ==> call_requires(f, (r, c)),
        ensures
            final(self).wf(),
            final(self).num_rows() == old(self).num_rows(),
            final(self).num_cols() == old(self).num_cols(),
            forall|r: u32, c: u32|
                r < old(self).num_rows() && c < old(self).num_cols() ==> call_ensures(
                    f,
                    (r, c),
                    #[trigger] final(self).data_at(r as int, c as int),
                ),
    {
        let rows = self.rows;
        let cols = self.cols;
        let mut row: u32 = 0;
        while row < rows
            invariant
                self.wf(),
                rows == self.rows,
                cols == self.cols,
                row <= rows,
                forall|r: u32, c: u32| r < rows && c < cols ==> call_requires(f, (r, c)),
                forall|r: u32, c: u32|
                    r < row && c < cols ==> call_ensures(
                        f,
                        (r, c),
                        #[trigger] self.cells@[cell_index(cols as int, r as int, c as int)],
                    ),
            decreases rows - row,
        {
            let mut col: u32 = 0;
            while col < cols
                invariant
                    self.wf(),
                    rows == self.rows,
                    cols == self.cols,
                    row < rows,
                    col <= cols,
                    forall|r: u32, c: u32| r < rows && c < cols ==> call_requires(f, (r, c)),
                    forall|r: u32, c: u32|
                        (r < row && c < cols) || (r == row && c < col) ==> call_ensures(
                            f,
                            (r, c),
                            #[trigger] self.cells@[cell_index(cols as int, r as int, c as int)],
                        ),
                decreases cols - col,
            {
                let idx = self.index(row, col);
                assert(call_requires(f, (row, col)));
                let ghost before = self.cells@;
                self.cells.set(idx, f(row, col));
                proof {
                    assert forall|r: u32, c: u32|
                        (r < row && c < cols) || (r == row && c < col + 1) implies call_ensures(
                        f,
                        (r, c),
                        #[trigger] self.cells@[cell_index(cols as int, r as int, c as int)],
                    ) by {
                        if r != row || c != col {
                            lemma_cell_index_bounds(rows as int, cols as int, r as int, c as int);
                            if cell_index(cols as int, r as int, c as int) == cell_index(
                                cols as int,
                                row as int,
                                col as int,
                            ) {
                                lemma_cell_index_injective(
                                    cols as int,
                                    r as int,
                                    c as int,
                                    row as int,
                                    col as int,
                                );
                            }
                            assert(self.cells@[cell_index(cols as int, r as int, c as int)]
                                == before[cell_index(cols as int, r as int, c as int)]);
                        }
                    }
                }
                col = col + 1;
            }
            row = row + 1;
        }
    }
}

} // verus!
