use vstd::prelude::*;
use crate::arith::floor_div;

verus! {

/// Largest number of cells along either side of a grid.
pub const MAX_CELLS: usize = 4096;

/// Largest side of one cell, in world units.
pub const MAX_CELL_SIZE: i64 = 65536;

/// Occupancy value of a wall cell.
pub const WALL: u8 = 1;

/// `v` limited to `[0, hi]`.
pub open spec fn clamp(v: int, hi: int) -> int {
    if v < 0 {
        0
    } else if v > hi {
        hi
    } else {
        v
    }
}

/// `v` clamped to a valid index among `n` cells.
pub fn clamp_index(v: i64, n: usize) -> (r: i64)
    requires
        1 <= n <= MAX_CELLS,
    ensures
        r == clamp(v as int, n - 1),
{
    if v < 0 {
        0
    } else if v > n as i64 - 1 {
        n as i64 - 1
    } else {
        v
    }
}

/// A tile map: `width * height` cells of side `cell_size`, stored row by row.
/// A cell is a wall when its occupancy value is `WALL`.
pub struct Grid {
    pub cells: Vec<u8>,
    pub width: usize,
    pub height: usize,
    pub cell_size: i64,
}

impl Grid {
    /// The sizes are within bounds and every cell is stored.
    pub open spec fn wf(&self) -> bool {
        &&& 1 <= self.width <= MAX_CELLS
        &&& 1 <= self.height <= MAX_CELLS
        &&& 1 <= self.cell_size <= MAX_CELL_SIZE
        &&& self.cells@.len() == self.width * self.height
    }

    /// Whether the cell at column `col`, row `row` (both in range) is a wall.
    pub open spec fn wall_at(&self, col: int, row: int) -> bool {
        self.cells@[row * self.width + col] == WALL
    }

    /// The wall test at a pair of indices clamped into the grid.
    pub open spec fn wall_clamped(&self, col: int, row: int) -> bool {
        self.wall_at(clamp(col, self.width - 1), clamp(row, self.height - 1))
    }

    /// Builds a grid from row-major occupancy values; `None` when a size is out
    /// of bounds or the number of values is not `width * height`.
    pub fn new(cells: Vec<u8>, width: usize, height: usize, cell_size: i64) -> (r: Option<Grid>)
        ensures
            r is Some <==> (1 <= width <= MAX_CELLS && 1 <= height <= MAX_CELLS && 1 <= cell_size
                <= MAX_CELL_SIZE && cells@.len() == width * height),
            r matches Some(g) ==> (g.wf() && g.cells@ == cells@ && g.width == width && g.height
                == height && g.cell_size == cell_size),
    {
        if width < 1 || width > MAX_CELLS || height < 1 || height > MAX_CELLS || cell_size < 1
            || cell_size > MAX_CELL_SIZE {
            return None;
        }
        assert(width * height <= MAX_CELLS * MAX_CELLS) by (nonlinear_arith)
            requires
                width <= MAX_CELLS,
                height <= MAX_CELLS,
        ;
        if cells.len() != width * height {
            return None;
        }
        Some(Grid { cells, width, height, cell_size })
    }

    /// The walled 8 x 8 map with cells of side 100: a walled border, a wall in
    /// column 2 over rows 1 to 3, and one in column 5, row 5.
    pub fn reference() -> (r: Grid)
        ensures
            r.wf(),
            r.width == 8,
            r.height == 8,
            r.cell_size == 100,
            r.cells@ == seq![
                1u8, 1, 1, 1, 1, 1, 1, 1,
                1, 0, 1, 0, 0, 0, 0, 1,
                1, 0, 1, 0, 0, 0, 0, 1,
                1, 0, 1, 0, 0, 0, 0, 1,
                1, 0, 0, 0, 0, 0, 0, 1,
                1, 0, 0, 0, 0, 1, 0, 1,
                1, 0, 0, 0, 0, 0, 0, 1,
                1, 1, 1, 1, 1, 1, 1, 1,
            ],
            forall|i: int| 0 <= i < 8 ==> r.wall_at(i, 0) && r.wall_at(i, 7) && r.wall_at(0, i)
                && r.wall_at(7, i),
            r.wall_at(2, 1) && r.wall_at(2, 2) && r.wall_at(2, 3) && r.wall_at(5, 5),
            !r.wall_at(3, 3) && !r.wall_at(1, 1) && !r.wall_at(2, 4),
    {
        let cells: Vec<u8> = vec![
            1, 1, 1, 1, 1, 1, 1, 1,
            1, 0, 1, 0, 0, 0, 0, 1,
            1, 0, 1, 0, 0, 0, 0, 1,
            1, 0, 1, 0, 0, 0, 0, 1,
            1, 0, 0, 0, 0, 0, 0, 1,
            1, 0, 0, 0, 0, 1, 0, 1,
            1, 0, 0, 0, 0, 0, 0, 1,
            1, 1, 1, 1, 1, 1, 1, 1,
        ];
        let r = Grid { cells, width: 8, height: 8, cell_size: 100 };
        assert(r.cells@.len() == 64);
        assert(r.cells@ =~= seq![
            1u8, 1, 1, 1, 1, 1, 1, 1,
            1, 0, 1, 0, 0, 0, 0, 1,
            1, 0, 1, 0, 0, 0, 0, 1,
            1, 0, 1, 0, 0, 0, 0, 1,
            1, 0, 0, 0, 0, 0, 0, 1,
            1, 0, 0, 0, 0, 1, 0, 1,
            1, 0, 0, 0, 0, 0, 0, 1,
            1, 1, 1, 1, 1, 1, 1, 1,
        ]);
        r
    }

    /// Whether the cell at `(col, row)` is a wall, each index first clamped into
    /// the grid, so that no query falls outside it.
    pub fn is_wall(&self, col: i64, row: i64) -> (r: bool)
        requires
            self.wf(),
        ensures
            r == self.wall_clamped(col as int, row as int),
    {
        let c: usize = if col < 0 {
            0
        } else if col as u64 >= self.width as u64 {
            self.width - 1
        } else {
            col as usize
        };
        let w: usize = if row < 0 {
            0
        } else if row as u64 >= self.height as u64 {
            self.height - 1
        } else {
            row as usize
        };
        assert(w * self.width + c < self.width * self.height) by (nonlinear_arith)
            requires
                w < self.height,
                c < self.width,
        ;
        assert(w * self.width + c <= MAX_CELLS * MAX_CELLS) by (nonlinear_arith)
            requires
                w < self.height,
                c < self.width,
                self.height <= MAX_CELLS,
                self.width <= MAX_CELLS,
        ;
        self.cells[w * self.width + c] == WALL
    }

    /// The column holding world coordinate `x`, clamped into the grid.
    pub fn column_of(&self, x: i64) -> (r: i64)
        requires
            self.wf(),
        ensures
            r == clamp(x / self.cell_size, self.width - 1),
            0 <= r < self.width,
    {
        clamp_index(floor_div(x, self.cell_size), self.width)
    }

    /// The row holding world coordinate `y`, clamped into the grid.
    pub fn row_of(&self, y: i64) -> (r: i64)
        requires
            self.wf(),
        ensures
            r == clamp(y / self.cell_size, self.height - 1),
            0 <= r < self.height,
    {
        clamp_index(floor_div(y, self.cell_size), self.height)
    }

    /// Side of one cell, in world units.
    pub fn cell_size(&self) -> (r: i64)
        ensures
            r == self.cell_size,
    {
        self.cell_size
    }

    /// Number of columns.
    pub fn width(&self) -> (r: usize)
        ensures
            r == self.width,
    {
        self.width
    }

    /// Number of rows.
    pub fn height(&self) -> (r: usize)
        ensures
            r == self.height,
    {
        self.height
    }
}

} // verus!
