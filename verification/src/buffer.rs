//! A rectangular grid of cells covering one viewport snapshot.

use vstd::prelude::*;

use crate::cell::{default_cell, Cell, CellV};
use crate::geom::Rect;

verus! {

/// A 2-D grid of [`Cell`]s over a rectangular viewport, stored as a flat
/// sequence in raster order. The grid is always rectangular, never ragged:
/// `cells.len() == area.width * area.height` at all times.
#[derive(Debug)]
pub struct Buffer {
    pub area: Rect,
    pub cells: Vec<Cell>,
}

/// The mathematical value of a [`Buffer`]: its area and the sequence of
/// cell values in raster order.
pub ghost struct BufferV {
    pub area: Rect,
    pub cells: Seq<CellV>,
}

impl View for Buffer {
    type V = BufferV;

    open spec fn view(&self) -> BufferV {
        BufferV { area: self.area, cells: self.cells@.map_values(|c: Cell| c@) }
    }
}

impl BufferV {
    /// The flat index of the cell at `(x, y)`, relative to the area origin.
    pub open spec fn index_of(self, x: int, y: int) -> int {
        y * self.area.width + x
    }

    /// The cell value at `(x, y)`, relative to the area origin.
    pub open spec fn cell_at(self, x: int, y: int) -> CellV {
        self.cells[self.index_of(x, y)]
    }

    /// Well-formedness: the flat sequence exactly covers the area.
    pub open spec fn wf(self) -> bool {
        self.cells.len() == self.area.cell_count_spec()
    }

    /// Every cell holds the default cell value.
    pub open spec fn all_default(self) -> bool {
        forall|i: int| 0 <= i < self.cells.len() ==> self.cells[i] == default_cell()
    }
}

/// The index `(x, y)` maps to lies inside the flat sequence whenever the
/// coordinates lie inside the area.
pub proof fn lemma_index_of_in_bounds(b: BufferV, x: int, y: int)
    requires
        b.wf(),
        0 <= x < b.area.width,
        0 <= y < b.area.height,
    ensures
        0 <= b.index_of(x, y) < b.cells.len(),
        b.index_of(x, y) < b.area.width * b.area.height,
{
    assert(y * b.area.width + x < b.area.width * b.area.height) by (nonlinear_arith)
        requires
            0 <= x < b.area.width,
            0 <= y < b.area.height,
    ;
    assert(0 <= y * b.area.width + x) by (nonlinear_arith)
        requires
            0 <= x,
            0 <= y,
            b.area.width >= 0,
    ;
}

impl Buffer {
    /// A buffer over `area` in which every cell is the default cell.
    pub fn empty(area: Rect) -> (b: Buffer)
        ensures
            b@.area == area,
            b@.wf(),
            b@.all_default(),
    {
        let n = area.cell_count();
        let mut cells: Vec<Cell> = Vec::new();
        let mut i: usize = 0;
        while i < n
            invariant
                i <= n,
                cells@.len() == i,
                forall|k: int| 0 <= k < i ==> #[trigger] cells@[k]@ == default_cell(),
            decreases n - i,
        {
            cells.push(Cell::default());
            i = i + 1;
        }
        Buffer { area, cells }
    }

    /// Read the cell at `(x, y)`, relative to the area origin.
    /// Out-of-bounds access is a caller contract violation.
    pub fn get(&self, x: u16, y: u16) -> (c: &Cell)
        requires
            self@.wf(),
            x < self@.area.width,
            y < self@.area.height,
        ensures
            c@ == self@.cell_at(x as int, y as int),
    {
        proof {
            lemma_index_of_in_bounds(self@, x as int, y as int);
        }
        let _len = self.cells.len();
        let idx: usize = (y as usize) * (self.area.width as usize) + (x as usize);
        &self.cells[idx]
    }

    /// Overwrite the cell at `(x, y)`, relative to the area origin.
    /// Out-of-bounds access is a caller contract violation.
    pub fn set(&mut self, x: u16, y: u16, cell: Cell)
        requires
            old(self)@.wf(),
            x < old(self)@.area.width,
            y < old(self)@.area.height,
        ensures
            final(self)@.wf(),
            final(self)@.area == old(self)@.area,
            final(self)@.cells == old(self)@.cells.update(
                old(self)@.index_of(x as int, y as int),
                cell@,
            ),
    {
        proof {
            lemma_index_of_in_bounds(self@, x as int, y as int);
        }
        let _len = self.cells.len();
        let idx: usize = (y as usize) * (self.area.width as usize) + (x as usize);
        self.cells.set(idx, cell);
        proof {
            assert(final(self)@.cells =~= old(self)@.cells.update(
                old(self)@.index_of(x as int, y as int),
                cell@,
            ));
        }
    }

    /// Overwrite every cell with the default cell, keeping the area.
    pub fn reset(&mut self)
        ensures
            final(self)@.area == old(self)@.area,
            final(self)@.wf(),
            final(self)@.all_default(),
    {
        let fresh = Buffer::empty(self.area);
        self.cells = fresh.cells;
    }

    /// Reallocate the grid for a new area, filling every cell with the
    /// default cell. Prior content is cleared unconditionally, whether the
    /// new area is larger or smaller.
    pub fn resize(&mut self, area: Rect)
        ensures
            final(self)@.area == area,
            final(self)@.wf(),
            final(self)@.all_default(),
    {
        let fresh = Buffer::empty(area);
        self.area = fresh.area;
        self.cells = fresh.cells;
    }
}

} // verus!
