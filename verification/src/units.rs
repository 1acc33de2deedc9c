//! Conversion from fixed-point milli-cell coordinates to whole character
//! cells. The grid position of a point is its coordinate truncated toward
//! zero, matching an `as`-style float-to-integer cast.

use vstd::prelude::*;

verus! {

/// The character cell that the milli-cell coordinate `v` falls in:
/// `v / 1000` truncated toward zero.
pub open spec fn cell_of(v: int) -> int {
    if v >= 0 {
        v / 1000
    } else {
        -((-v) / 1000)
    }
}

/// Truncating conversion from milli-cells to cells.
pub fn to_cell(v: i64) -> (r: i64)
    requires
        i64::MIN < v,
    ensures
        r == cell_of(v as int),
{
    if v >= 0 {
        ((v as u64) / 1000) as i64
    } else {
        let m: i64 = -v;
        -(((m as u64) / 1000) as i64)
    }
}

} // verus!
