//! A pipe: one obstacle of the scrolling stream. Its solid region is the
//! horizontal band of `PIPE_WIDTH_CELLS` cells starting at its leading
//! edge, on every row except the hole rows.

use vstd::prelude::*;
use crate::units::cell_of;
use crate::units::to_cell;

verus! {

/// One obstacle. `x` is the leading (left) edge in milli-cells and
/// decreases every tick as the world scrolls; `hole_y` is the row at
/// which the passable hole begins, fixed at creation.
#[derive(Clone, Copy, Debug, PartialEq, Eq, Structural)]
pub struct Pipe {
    pub x: i64,
    pub hole_y: i64,
}

/// The pipe's horizontal band, `[cell_of(pipe.x), cell_of(pipe.x) + width)`
/// in cells, covers the cell column `col`.
pub open spec fn band_covers(pipe: Pipe, col: int, width: int) -> bool {
    cell_of(pipe.x as int) <= col < cell_of(pipe.x as int) + width
}

/// The row `row` lies inside the pipe's hole rows, `[hole_y, hole_y + hole_height)`.
pub open spec fn hole_covers(pipe: Pipe, row: int, hole_height: int) -> bool {
    pipe.hole_y <= row < pipe.hole_y + hole_height
}

/// The pipe is solid at the cell `(col, row)`: inside its band and
/// outside its hole.
pub open spec fn solid_at(pipe: Pipe, col: int, row: int, width: int, hole_height: int) -> bool {
    band_covers(pipe, col, width) && !hole_covers(pipe, row, hole_height)
}

/// Whether the pipe is solid at the cell `(col, row)`: what a renderer
/// fills, and what the bird must not sit on.
pub fn is_solid_cell(pipe: &Pipe, col: i64, row: i64, width: i64, hole_height: i64) -> (r: bool)
    requires
        i64::MIN < pipe.x,
    ensures
        r == solid_at(*pipe, col as int, row as int, width as int, hole_height as int),
{
    let edge: i64 = to_cell(pipe.x);
    let banded: bool = edge <= col && (col as i128) < (edge as i128) + (width as i128);
    let holed: bool = pipe.hole_y <= row && (row as i128) < (pipe.hole_y as i128) + (hole_height as i128);
    banded && !holed
}

} // verus!
