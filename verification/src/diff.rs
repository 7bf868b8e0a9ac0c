//! The diff engine: compares two same-sized buffers and produces the ordered
//! sequence of per-cell change commands, in raster order.

use vstd::prelude::*;

use crate::buffer::{Buffer, BufferV};
use crate::cell::{default_cell, CellV};
use crate::style::{Color, Modifier};

verus! {

/// A fully self-describing instruction to render one grid position.
/// Commands never reference prior state.
#[derive(Debug)]
pub enum DrawCommand {
    Cell { x: u16, y: u16, fg: Color, bg: Color, modifier: Modifier, symbol: String },
}

/// The mathematical value of a [`DrawCommand`].
pub ghost struct DrawCommandV {
    pub x: u16,
    pub y: u16,
    pub fg: Color,
    pub bg: Color,
    pub modifier: Modifier,
    pub symbol: Seq<char>,
}

impl View for DrawCommand {
    type V = DrawCommandV;

    open spec fn view(&self) -> DrawCommandV {
        match self {
            DrawCommand::Cell { x, y, fg, bg, modifier, symbol } => DrawCommandV {
                x: *x,
                y: *y,
                fg: *fg,
                bg: *bg,
                modifier: *modifier,
                symbol: symbol@,
            },
        }
    }
}

/// The values of a sequence of commands.
pub open spec fn cmds_view(s: Seq<DrawCommand>) -> Seq<DrawCommandV> {
    s.map_values(|c: DrawCommand| c@)
}

/// The command that renders flat position `i` of `curr`, carrying the current
/// cell's fields and the position's grid coordinates.
pub open spec fn cmd_at(curr: BufferV, i: int) -> DrawCommandV {
    let w = curr.area.width as int;
    let c = curr.cells[i];
    DrawCommandV {
        x: (i % w) as u16,
        y: (i / w) as u16,
        fg: c.fg,
        bg: c.bg,
        modifier: c.modifier,
        symbol: c.symbol,
    }
}

/// The commands the diff of `prev` against `curr` emits for the flat
/// positions `0 .. n`: one command for each position whose cells differ,
/// in raster order.
pub open spec fn diff_upto(prev: BufferV, curr: BufferV, n: int) -> Seq<DrawCommandV>
    decreases n,
{
    if n <= 0 {
        Seq::empty()
    } else {
        let rest = diff_upto(prev, curr, n - 1);
        if prev.cells[n - 1] != curr.cells[n - 1] {
            rest.push(cmd_at(curr, n - 1))
        } else {
            rest
        }
    }
}

/// The full diff of `prev` against `curr`: the ordered sequence of change
/// commands over every cell position.
pub open spec fn diff_spec(prev: BufferV, curr: BufferV) -> Seq<DrawCommandV> {
    diff_upto(prev, curr, curr.cells.len() as int)
}

/// Compare two same-sized buffers cell by cell, rows top to bottom and
/// columns left to right, and emit one command per changed position.
///
/// Passing buffers of unequal dimensions is a caller contract violation.
pub fn diff_buffers(prev: &Buffer, curr: &Buffer) -> (r: Vec<DrawCommand>)
    requires
        prev@.wf(),
        curr@.wf(),
        prev@.area.width == curr@.area.width,
        prev@.area.height == curr@.area.height,
    ensures
        cmds_view(r@) == diff_spec(prev@, curr@),
{
    let width = curr.area.width;
    let height = curr.area.height;
    let ghost w = width as int;

    let mut commands: Vec<DrawCommand> = Vec::new();

    let mut y: u16 = 0;
    while y < height
        invariant
            prev@.wf(),
            curr@.wf(),
            prev@.area.width == curr@.area.width,
            prev@.area.height == curr@.area.height,
            w == curr@.area.width as int,
            width == curr@.area.width,
            height == curr@.area.height,
            y <= height,
            cmds_view(commands@) == diff_upto(prev@, curr@, y * w),
        decreases height - y,
    {
        proof {
            assert(y * w <= (y + 1) * w <= height * w) by (nonlinear_arith)
                requires
                    0 <= y,
                    y + 1 <= height,
                    0 <= w,
            ;
        }
        let mut x: u16 = 0;
        while x < width
            invariant
                prev@.wf(),
                curr@.wf(),
                prev@.area.width == curr@.area.width,
                prev@.area.height == curr@.area.height,
                w == curr@.area.width as int,
                width == curr@.area.width,
                height == curr@.area.height,
                y < height,
                x <= width,
                cmds_view(commands@) == diff_upto(prev@, curr@, y * w + x),
            decreases width - x,
        {
            let ghost idx = y * w + x;
            proof {
                assert(0 <= idx < curr@.cells.len()) by {
                    crate::buffer::lemma_index_of_in_bounds(curr@, x as int, y as int);
                }
                vstd::arithmetic::div_mod::lemma_fundamental_div_mod_converse(
                    idx,
                    w,
                    y as int,
                    x as int,
                );
                assert(idx % w == x as int && idx / w == y as int);
            }
            let prev_cell = prev.get(x, y);
            let curr_cell = curr.get(x, y);
            if *prev_cell != *curr_cell {
                commands.push(
                    DrawCommand::Cell {
                        x,
                        y,
                        fg: curr_cell.fg,
                        bg: curr_cell.bg,
                        modifier: curr_cell.modifier,
                        symbol: curr_cell.symbol.clone(),
                    },
                );
            }
            proof {
                assert(cmds_view(commands@) =~= diff_upto(prev@, curr@, idx + 1));
            }
            x = x + 1;
        }
        proof {
            assert(y * w + width == (y + 1) * w) by (nonlinear_arith)
                requires
                    w == width,
            ;
        }
        y = y + 1;
    }
    proof {
        assert(height * w == curr@.cells.len()) by (nonlinear_arith)
            requires
                w == curr@.area.width as int,
                height == curr@.area.height,
                curr@.cells.len() == curr@.area.cell_count_spec(),
                curr@.area.cell_count_spec() == curr@.area.width * curr@.area.height,
        ;
    }
    commands
}

/// Idempotence: diffing a buffer against an identical copy of itself yields
/// an empty command sequence.
pub proof fn lemma_diff_identical_empty(prev: BufferV, curr: BufferV)
    requires
        prev.cells == curr.cells,
    ensures
        diff_spec(prev, curr) == Seq::<DrawCommandV>::empty(),
{
    lemma_diff_upto_identical_empty(prev, curr, curr.cells.len() as int);
}

proof fn lemma_diff_upto_identical_empty(prev: BufferV, curr: BufferV, n: int)
    requires
        prev.cells == curr.cells,
    ensures
        diff_upto(prev, curr, n) == Seq::<DrawCommandV>::empty(),
    decreases n,
{
    if n > 0 {
        lemma_diff_upto_identical_empty(prev, curr, n - 1);
    }
}

/// Minimality: diffing two buffers that differ in exactly one cell yields
/// exactly one command, whose fields equal that cell's new content.
pub proof fn lemma_diff_single_difference(prev: BufferV, curr: BufferV, k: int)
    requires
        prev.cells.len() == curr.cells.len(),
        0 <= k < curr.cells.len(),
        prev.cells[k] != curr.cells[k],
        forall|i: int| 0 <= i < curr.cells.len() && i != k ==> prev.cells[i] == curr.cells[i],
    ensures
        diff_spec(prev, curr) == seq![cmd_at(curr, k)],
{
    lemma_diff_upto_single_difference(prev, curr, k, curr.cells.len() as int);
}

proof fn lemma_diff_upto_single_difference(prev: BufferV, curr: BufferV, k: int, n: int)
    requires
        prev.cells.len() == curr.cells.len(),
        0 <= k < curr.cells.len(),
        n <= curr.cells.len(),
        prev.cells[k] != curr.cells[k],
        forall|i: int| 0 <= i < curr.cells.len() && i != k ==> prev.cells[i] == curr.cells[i],
    ensures
        n <= k ==> diff_upto(prev, curr, n) == Seq::<DrawCommandV>::empty(),
        n > k ==> diff_upto(prev, curr, n) == seq![cmd_at(curr, k)],
    decreases n,
{
    if n > 0 {
        lemma_diff_upto_single_difference(prev, curr, k, n - 1);
        if n - 1 == k {
            assert(diff_upto(prev, curr, n) =~= seq![cmd_at(curr, k)]);
        }
    }
}

/// The commands emitted for the flat positions `0 .. n` of `curr` when it
/// is compared against an all-default grid: one command per cell that is
/// not the default cell, in raster order.
pub open spec fn nondefault_upto(curr: BufferV, n: int) -> Seq<DrawCommandV>
    decreases n,
{
    if n <= 0 {
        Seq::empty()
    } else {
        let rest = nondefault_upto(curr, n - 1);
        if curr.cells[n - 1] != default_cell() {
            rest.push(cmd_at(curr, n - 1))
        } else {
            rest
        }
    }
}

/// Full redraw after a reset: diffing against an all-default previous
/// buffer (the state a clear leaves behind) yields exactly one command for
/// every cell whose content is not the default cell — content unchanged
/// from an earlier frame included — and none for a default cell.
pub proof fn lemma_diff_after_reset(prev: BufferV, curr: BufferV)
    requires
        prev.cells.len() == curr.cells.len(),
        prev.all_default(),
    ensures
        diff_spec(prev, curr) == nondefault_upto(curr, curr.cells.len() as int),
{
    lemma_diff_upto_after_reset(prev, curr, curr.cells.len() as int);
}

proof fn lemma_diff_upto_after_reset(prev: BufferV, curr: BufferV, n: int)
    requires
        prev.cells.len() == curr.cells.len(),
        prev.all_default(),
        n <= curr.cells.len(),
    ensures
        diff_upto(prev, curr, n) == nondefault_upto(curr, n),
    decreases n,
{
    if n > 0 {
        lemma_diff_upto_after_reset(prev, curr, n - 1);
        assert(prev.cells[n - 1] == default_cell());
    }
}

/// Order stability: the diff of two buffers is a function of their cell
/// contents alone, so repeated calls yield identical command sequences.
pub proof fn lemma_diff_deterministic(
    prev: BufferV,
    curr: BufferV,
    r1: Seq<DrawCommandV>,
    r2: Seq<DrawCommandV>,
)
    requires
        r1 == diff_spec(prev, curr),
        r2 == diff_spec(prev, curr),
    ensures
        r1 == r2,
{
}

} // verus!
