//! The one randomized choice of the game: the row at which a freshly
//! spawned pipe's hole starts.

use vstd::prelude::*;
use rand::Rng;

verus! {

/// Draws the hole-start row for a new pipe from `[lo, hi)`.
///
/// Relies on `rand::Rng::gen_range` over the range `lo..hi`: it returns a
/// value sampled uniformly from the half-open range, and panics only when
/// the range is empty, which the precondition rules out.
#[verifier::external_body]
pub(crate) fn sample_hole_row(lo: i64, hi: i64) -> (r: i64)
    requires
        lo < hi,
    ensures
        lo <= r < hi,
{
    rand::thread_rng().gen_range(lo..hi)
}

} // verus!
