//! The grid: a rectangle of cells, each occupied or not.

use vstd::prelude::*;

verus! {

/// A table of `width` by `height` cells, stored row by row.
#[derive(Debug)]
pub struct Grid {
    pub width: u32,
    pub height: u32,
    pub cells: Vec<bool>,
}

impl Grid {
    /// There is one entry for each cell.
    pub open spec fn wf(self) -> bool {
        self.cells@.len() == self.width * self.height
    }

    /// Whether the cell in column `x` and row `y` is occupied. No cell
    /// outside the grid is.
    pub open spec fn spec_cell_at(self, x: int, y: int) -> bool {
        0 <= x < self.width && 0 <= y < self.height && self.cells@[y * self.width + x]
    }

    /// The grid with the given rows, unless `cells` has another length than
    /// `width * height`.
    pub fn new(width: u32, height: u32, cells: Vec<bool>) -> (grid: Option<Grid>)
        ensures
            grid.is_some() <==> cells@.len() == width * height,
            grid.is_some() ==> grid.unwrap().wf() && grid.unwrap().width == width
                && grid.unwrap().height == height && grid.unwrap().cells@ == cells@,
    {
        proof {
            crate::fixed::lemma_mul_magnitude(
                width as int,
                height as int,
                0xFFFF_FFFF,
                0xFFFF_FFFF,
            );
        }
        let area: u64 = width as u64 * height as u64;
        if cells.len() as u64 == area {
            Some(Grid { width, height, cells })
        } else {
            None
        }
    }

    /// The number of columns.
    pub fn width(&self) -> (width: u32)
        ensures
            width == self.width,
    {
        self.width
    }

    /// The number of rows.
    pub fn height(&self) -> (height: u32)
        ensures
            height == self.height,
    {
        self.height
    }

    /// Whether the cell in column `x` and row `y` is occupied.
    pub fn cell_at(&self, x: u32, y: u32) -> (occupied: bool)
        requires
            self.wf(),
        ensures
            occupied == self.spec_cell_at(x as int, y as int),
    {
        if x >= self.width || y >= self.height {
            return false;
        }
        proof {
            lemma_index_in_range(x as int, y as int, self.width as int, self.height as int);
            assert(y * self.width + x < self.cells.len());
        }
        let index: usize = y as usize * self.width as usize + x as usize;
        self.cells[index]
    }
}

/// The index of a cell of the grid lies within the table.
pub proof fn lemma_index_in_range(x: int, y: int, width: int, height: int)
    requires
        0 <= x < width,
        0 <= y < height,
    ensures
        0 <= y * width + x < width * height,
        0 <= y * width,
{
    assert(0 <= y * width + x < width * height && 0 <= y * width) by (nonlinear_arith)
        requires
            0 <= x < width,
            0 <= y < height,
    ;
}

} // verus!
