//! The playfield: a fixed `width x height` array of cells, each holding the
//! placement seed of the piece that filled it, or a sentinel for "empty".
//! Columns wrap around (the grid is a cylinder); rows do not.

use vstd::prelude::*;
use crate::wrap::{wrap_col, wrap_col_spec};

verus! {

/// Sentinel stored in a cell that no piece occupies; distinct from every
/// real placement seed.
pub const EMPTY_BLOCK: u64 = u64::MAX;

/// Upper bound on either grid dimension, so that every cell coordinate a
/// piece can reach stays within `i32` and every flat index within `usize`.
pub const MAX_GRID_DIM: usize = 0x4000_0000;

/// Flat row-major cell index of a wrapped column and an in-range row.
pub open spec fn cell_index_spec(w: int, x: int, y: int) -> int {
    y * w + wrap_col_spec(x, w)
}

/// The contents of `cells` after writing `v` at `(x, y)`: column wrapped,
/// writes outside the rows `[0, h)` discarded.
pub open spec fn write_cell_spec(cells: Seq<u64>, w: int, h: int, x: int, y: int, v: u64) -> Seq<u64> {
    if 0 <= y < h {
        cells.update(cell_index_spec(w, x, y), v)
    } else {
        cells
    }
}

/// Row `y` is full when none of its cells is empty.
pub open spec fn row_full_spec(cells: Seq<u64>, w: int, y: int) -> bool {
    forall|x: int| 0 <= x < w ==> #[trigger] cells[y * w + x] != EMPTY_BLOCK
}

/// The contents after removing row `y`: every row above it moves down one
/// step, row 0 becomes empty, rows below `y` keep their cells.
pub open spec fn collapse_row_spec(cells: Seq<u64>, w: int, y: int) -> Seq<u64> {
    Seq::new(
        cells.len(),
        |i: int|
            {
                let r = i / w;
                if r > y {
                    cells[i]
                } else if r < 1 {
                    EMPTY_BLOCK
                } else {
                    cells[i - w]
                }
            },
    )
}

/// The contents after one clear pass over rows `y, y+1, ..., h-1`, from the
/// top down: each full row met on the way is collapsed.
pub open spec fn clear_rows_from_spec(cells: Seq<u64>, w: int, h: int, y: int) -> Seq<u64>
    decreases h - y,
{
    if y >= h {
        cells
    } else {
        let step = if row_full_spec(cells, w, y) {
            collapse_row_spec(cells, w, y)
        } else {
            cells
        };
        clear_rows_from_spec(step, w, h, y + 1)
    }
}

/// Law: a clear pass over rows none of which is full leaves the grid
/// byte-for-byte unchanged.
pub proof fn lemma_clear_rows_no_full_identity(cells: Seq<u64>, w: int, h: int, y: int)
    requires
        forall|r: int| y <= r < h ==> !row_full_spec(cells, w, r),
    ensures
        clear_rows_from_spec(cells, w, h, y) == cells,
    decreases h - y,
{
    if y < h {
        lemma_clear_rows_no_full_identity(cells, w, h, y + 1);
    }
}

/// An in-range (column, row) pair indexes inside the flat array.
pub proof fn lemma_flat_index_bounds(w: int, h: int, x: int, y: int)
    requires
        1 <= w,
        0 <= x < w,
        0 <= y < h,
    ensures
        0 <= y * w,
        0 <= y * w + x < h * w,
        h * w == w * h,
        (y * w + x) / w == y,
{
    assert(0 <= y * w && 0 <= y * w + x < h * w && (y * w + x) / w == y) by (nonlinear_arith)
        requires
            1 <= w,
            0 <= x < w,
            0 <= y < h;
}

/// The playfield.
pub struct Grid {
    pub width: usize,
    pub height: usize,
    pub cells: Vec<u64>,
}

impl Grid {
    /// Exactly `width * height` cells are always present, and both
    /// dimensions are positive and small enough for `i32` coordinates.
    pub open spec fn wf(&self) -> bool {
        &&& 1 <= self.width <= MAX_GRID_DIM
        &&& 1 <= self.height <= MAX_GRID_DIM
        &&& self.cells@.len() == self.width * self.height
    }

    /// The seed stored at wrapped column `x` of row `y`.
    pub open spec fn cell_at(&self, x: int, y: int) -> u64 {
        self.cells@[cell_index_spec(self.width as int, x, y)]
    }

    /// What `read` returns: the cell for rows inside the grid, nothing for
    /// rows above or below it.
    pub open spec fn read_spec(&self, x: int, y: int) -> Option<u64> {
        if 0 <= y < self.height {
            Option::Some(self.cell_at(x, y))
        } else {
            Option::None
        }
    }

    /// A cell blocks a piece unless it lies in a visible row and is empty;
    /// rows outside `[0, height)` always block.
    pub open spec fn blocked_at(&self, x: int, y: int) -> bool {
        self.read_spec(x, y) != Option::Some(EMPTY_BLOCK)
    }

    /// Allocates an all-empty grid.
    pub fn new(width: usize, height: usize) -> (g: Grid)
        requires
            1 <= width <= MAX_GRID_DIM,
            1 <= height <= MAX_GRID_DIM,
            width * height <= usize::MAX,
        ensures
            g.wf(),
            g.width == width,
            g.height == height,
            g.cells@ == Seq::new((width * height) as nat, |i: int| EMPTY_BLOCK),
    {
        let n = width * height;
        let mut cells: Vec<u64> = Vec::with_capacity(n);
        let mut i: usize = 0;
        while i < n
            invariant
                i <= n,
                cells@.len() == i,
                forall|j: int| 0 <= j < i ==> cells@[j] == EMPTY_BLOCK,
            decreases n - i,
        {
            cells.push(EMPTY_BLOCK);
            i = i + 1;
        }
        proof {
            assert(cells@ =~= Seq::new((width * height) as nat, |i: int| EMPTY_BLOCK));
        }
        Grid { width, height, cells }
    }

    /// Reads the cell at `(x, y)`; the column wraps, a row outside the grid
    /// yields `None`.
    pub fn read(&self, x: i32, y: i32) -> (r: Option<u64>)
        requires
            self.wf(),
        ensures
            r == self.read_spec(x as int, y as int),
    {
        if y >= 0 && (y as usize) < self.height {
            let n = self.cells.len();
            let xc = wrap_col(x, self.width as i32);
            proof {
                lemma_flat_index_bounds(
                    self.width as int,
                    self.height as int,
                    xc as int,
                    y as int,
                );
            }
            let idx = (y as usize) * self.width + (xc as usize);
            Option::Some(self.cells[idx])
        } else {
            Option::None
        }
    }

    /// Writes `value` at `(x, y)`; the column wraps, a write to a row
    /// outside the grid is discarded.
    pub fn write(&mut self, x: i32, y: i32, value: u64)
        requires
            old(self).wf(),
        ensures
            final(self).wf(),
            final(self).width == old(self).width,
            final(self).height == old(self).height,
            final(self).cells@ == write_cell_spec(
                old(self).cells@,
                old(self).width as int,
                old(self).height as int,
                x as int,
                y as int,
                value,
            ),
    {
        if y >= 0 && (y as usize) < self.height {
            let n = self.cells.len();
            let xc = wrap_col(x, self.width as i32);
            proof {
                lemma_flat_index_bounds(
                    self.width as int,
                    self.height as int,
                    xc as int,
                    y as int,
                );
            }
            let idx = (y as usize) * self.width + (xc as usize);
            self.cells[idx] = value;
        }
    }

    /// True when every cell of row `y` is occupied.
    pub fn row_is_full(&self, y: usize) -> (r: bool)
        requires
            self.wf(),
            y < self.height,
        ensures
            r == row_full_spec(self.cells@, self.width as int, y as int),
    {
        let n = self.cells.len();
        proof {
            assert(y * self.width + self.width <= n) by (nonlinear_arith)
                requires
                    y < self.height,
                    n == self.width * self.height,
                    1 <= self.width;
        }
        let base = y * self.width;
        let mut x: usize = 0;
        while x < self.width
            invariant
                self.wf(),
                x <= self.width,
                y < self.height,
                base == y * self.width,
                n == self.cells@.len(),
                base + self.width <= n,
                forall|j: int| 0 <= j < x ==> #[trigger] self.cells@[y * self.width + j]
                    != EMPTY_BLOCK,
            decreases self.width - x,
        {
            if self.cells[base + x] == EMPTY_BLOCK {
                return false;
            }
            x = x + 1;
        }
        true
    }

    /// Removes row `y`: rows above it shift down one step and row 0 is left
    /// empty (nothing exists above the grid to fall into it).
    pub fn collapse_row(&mut self, y: usize)
        requires
            old(self).wf(),
            y < old(self).height,
        ensures
            final(self).wf(),
            final(self).width == old(self).width,
            final(self).height == old(self).height,
            final(self).cells@ == collapse_row_spec(
                old(self).cells@,
                old(self).width as int,
                y as int,
            ),
    {
        let n = self.cells.len();
        let mut out: Vec<u64> = Vec::with_capacity(n);
        let mut i: usize = 0;
        while i < n
            invariant
                self == old(self),
                self.wf(),
                n == self.cells@.len(),
                i <= n,
                out@.len() == i,
                forall|j: int| 0 <= j < i ==> out@[j] == collapse_row_spec(
                    self.cells@,
                    self.width as int,
                    y as int,
                )[j],
            decreases n - i,
        {
            let r = i / self.width;
            let v = if r > y {
                self.cells[i]
            } else if r < 1 {
                EMPTY_BLOCK
            } else {
                proof {
                    assert(i >= self.width) by (nonlinear_arith)
                        requires
                            1 <= self.width,
                            i / self.width >= 1,
                            i >= 0;
                }
                self.cells[i - self.width]
            };
            out.push(v);
            i = i + 1;
        }
        self.cells = out;
        proof {
            assert(self.cells@ =~= collapse_row_spec(
                old(self).cells@,
                old(self).width as int,
                y as int,
            ));
        }
    }

    /// One clear pass from the top row down: every full row is collapsed.
    pub fn clear_full_rows(&mut self)
        requires
            old(self).wf(),
        ensures
            final(self).wf(),
            final(self).width == old(self).width,
            final(self).height == old(self).height,
            final(self).cells@ == clear_rows_from_spec(
                old(self).cells@,
                old(self).width as int,
                old(self).height as int,
                0,
            ),
    {
        let ghost orig = self.cells@;
        let mut y: usize = 0;
        while y < self.height
            invariant
                self.wf(),
                self.width == old(self).width,
                self.height == old(self).height,
                y <= self.height,
                clear_rows_from_spec(orig, self.width as int, self.height as int, 0)
                    == clear_rows_from_spec(
                    self.cells@,
                    self.width as int,
                    self.height as int,
                    y as int,
                ),
            decreases self.height - y,
        {
            if self.row_is_full(y) {
                self.collapse_row(y);
            }
            y = y + 1;
        }
    }
}

} // verus!
