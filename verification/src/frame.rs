//! The short-lived render handle handed to a single draw callback.

use vstd::prelude::*;

use crate::buffer::Buffer;
use crate::cell::Cell;
use crate::geom::{Position, Rect};

verus! {

/// The handle a render callback works with: the buffer for the frame being
/// built, the active viewport rectangle, and an optional request for where
/// the cursor should end up once the frame is drawn.
///
/// A frame is created fresh for each draw call, carries the "next" buffer
/// for the duration of the callback, and is consumed when the callback
/// returns. It never touches the previous buffer and never diffs; those
/// happen inside the owning terminal's draw call.
#[derive(Debug)]
pub struct Frame {
    /// Where the cursor should stand after this frame is drawn; `None`
    /// means the cursor is hidden for this frame.
    pub cursor_position: Option<Position>,
    /// The active viewport rectangle.
    pub viewport_area: Rect,
    /// The buffer this frame draws into.
    pub buffer: Buffer,
}

impl Frame {
    /// The area of the current frame.
    pub fn area(&self) -> (r: Rect)
        ensures
            r == self.viewport_area,
    {
        self.viewport_area
    }

    /// Record a request for where the terminal cursor should end up after
    /// this frame is drawn. The last call wins.
    pub fn set_cursor_position(&mut self, position: Position)
        ensures
            final(self).cursor_position == Some(position),
            final(self).viewport_area == old(self).viewport_area,
            final(self).buffer == old(self).buffer,
    {
        self.cursor_position = Some(position);
    }

    /// The buffer this frame draws into, as a mutable reference.
    pub fn buffer_mut(&mut self) -> (b: &mut Buffer)
        ensures
            *b == old(self).buffer,
            final(self).buffer == *final(b),
            final(self).cursor_position == old(self).cursor_position,
            final(self).viewport_area == old(self).viewport_area,
    {
        &mut self.buffer
    }

    /// Write caller-supplied cell content into the frame's buffer at the
    /// given sub-rectangle: `content` lists the cells of `area` in raster
    /// order. Purely a delegation to buffer writes; no diffing happens here.
    ///
    /// The sub-rectangle must lie inside the buffer's area, and `content`
    /// must cover it exactly; anything else is a caller contract violation.
    pub fn render_widget(&mut self, content: &Vec<Cell>, area: Rect)
        requires
            old(self).buffer@.wf(),
            area.x + area.width <= old(self).buffer@.area.width,
            area.y + area.height <= old(self).buffer@.area.height,
            content@.len() == area.cell_count_spec(),
        ensures
            final(self).cursor_position == old(self).cursor_position,
            final(self).viewport_area == old(self).viewport_area,
            final(self).buffer@.wf(),
            final(self).buffer@.area == old(self).buffer@.area,
            forall|x: int, y: int|
                0 <= x < old(self).buffer@.area.width && 0 <= y < old(self).buffer@.area.height
                    ==> #[trigger] final(self).buffer@.cell_at(x, y) == (if area.x <= x < area.x
                    + area.width && area.y <= y < area.y + area.height {
                    content@[(y - area.y) * area.width + (x - area.x)]@
                } else {
                    old(self).buffer@.cell_at(x, y)
                }),
    {
        let ghost orig = self.buffer@;
        let mut dy: u16 = 0;
        while dy < area.height
            invariant
                self.buffer@.wf(),
                self.buffer@.area == orig.area,
                self.cursor_position == old(self).cursor_position,
                self.viewport_area == old(self).viewport_area,
                orig == old(self).buffer@,
                orig.wf(),
                area.x + area.width <= orig.area.width,
                area.y + area.height <= orig.area.height,
                content@.len() == area.cell_count_spec(),
                dy <= area.height,
                forall|x: int, y: int|
                    0 <= x < orig.area.width && 0 <= y < orig.area.height
                        ==> #[trigger] self.buffer@.cell_at(x, y) == (if area.x <= x < area.x
                        + area.width && area.y <= y < area.y + dy {
                        content@[(y - area.y) * area.width + (x - area.x)]@
                    } else {
                        orig.cell_at(x, y)
                    }),
            decreases area.height - dy,
        {
            let mut dx: u16 = 0;
            while dx < area.width
                invariant
                    self.buffer@.wf(),
                    self.buffer@.area == orig.area,
                    self.cursor_position == old(self).cursor_position,
                    self.viewport_area == old(self).viewport_area,
                    orig == old(self).buffer@,
                    orig.wf(),
                    area.x + area.width <= orig.area.width,
                    area.y + area.height <= orig.area.height,
                    content@.len() == area.cell_count_spec(),
                    dy < area.height,
                    dx <= area.width,
                    forall|x: int, y: int|
                        0 <= x < orig.area.width && 0 <= y < orig.area.height
                            ==> #[trigger] self.buffer@.cell_at(x, y) == (if (area.x <= x < area.x
                            + area.width && area.y <= y < area.y + dy) || (area.y + dy == y
                            && area.x <= x < area.x + dx) {
                            content@[(y - area.y) * area.width + (x - area.x)]@
                        } else {
                            orig.cell_at(x, y)
                        }),
                decreases area.width - dx,
            {
                proof {
                    assert((dy * area.width + dx) < area.width * area.height)
                        by (nonlinear_arith)
                        requires
                            0 <= dx < area.width,
                            0 <= dy < area.height,
                    ;
                    assert(0 <= dy * area.width + dx) by (nonlinear_arith)
                        requires
                            0 <= dx,
                            0 <= dy,
                            area.width >= 0,
                    ;
                }
                let content_len = content.len();
                let idx: usize = (dy as usize) * (area.width as usize) + (dx as usize);
                let tx = area.x + dx;
                let ty = area.y + dy;
                let cell = content[idx].clone();
                let ghost cv = cell@;
                let ghost pre = self.buffer@;
                self.buffer.set(tx, ty, cell);
                proof {
                    crate::buffer::lemma_index_of_in_bounds(pre, tx as int, ty as int);
                    assert(self.buffer@.cell_at(tx as int, ty as int) == cv);
                    lemma_grid_update(pre, self.buffer@, tx as int, ty as int);
                    assert(((ty - area.y) * area.width + (tx - area.x)) == idx as int)
                        by (nonlinear_arith)
                        requires
                            tx - area.x == dx,
                            ty - area.y == dy,
                            idx == dy * area.width + dx,
                    ;
                }
                dx = dx + 1;
            }
            dy = dy + 1;
        }
    }
}

/// After an update at grid position `(ux, uy)`, every other in-bounds grid
/// position reads the same cell as before, and `(ux, uy)` reads the new one.
proof fn lemma_grid_update(pre: crate::buffer::BufferV, post: crate::buffer::BufferV, ux: int, uy: int)
    requires
        pre.wf(),
        0 <= ux < pre.area.width,
        0 <= uy < pre.area.height,
        post.area == pre.area,
        post.cells == pre.cells.update(pre.index_of(ux, uy), post.cell_at(ux, uy)),
    ensures
        forall|x: int, y: int|
            0 <= x < pre.area.width && 0 <= y < pre.area.height && !(x == ux && y == uy)
                ==> #[trigger] post.cell_at(x, y) == pre.cell_at(x, y),
{
    assert forall|x: int, y: int|
        0 <= x < pre.area.width && 0 <= y < pre.area.height && !(x == ux && y == uy)
            implies #[trigger] post.cell_at(x, y) == pre.cell_at(x, y) by {
        crate::buffer::lemma_index_of_in_bounds(pre, x, y);
        crate::buffer::lemma_index_of_in_bounds(pre, ux, uy);
        if pre.index_of(x, y) == pre.index_of(ux, uy) {
            lemma_index_of_injective(pre, x, y, ux, uy);
            assert(false);
        }
    }
}

/// Distinct in-bounds grid positions map to distinct flat indices.
proof fn lemma_index_of_injective(
    b: crate::buffer::BufferV,
    x1: int,
    y1: int,
    x2: int,
    y2: int,
)
    requires
        0 <= x1 < b.area.width,
        0 <= y1 < b.area.height,
        0 <= x2 < b.area.width,
        0 <= y2 < b.area.height,
        b.index_of(x1, y1) == b.index_of(x2, y2),
    ensures
        x1 == x2 && y1 == y2,
{
    let w = b.area.width as int;
    vstd::arithmetic::div_mod::lemma_fundamental_div_mod_converse(y1 * w + x1, w, y1, x1);
    vstd::arithmetic::div_mod::lemma_fundamental_div_mod_converse(y2 * w + x2, w, y2, x2);
}

} // verus!
