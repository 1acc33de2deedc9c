//! The collision judge: whether the bird currently sits in the solid
//! region of any pipe in the queue. Pure and deterministic; at most one
//! pipe can cover the bird's fixed column under normal spacing, but the
//! judgement is an OR over the whole queue regardless.

use vstd::prelude::*;
use std::collections::VecDeque;
use crate::bird::Bird;
use crate::pipe::Pipe;
use crate::pipe::band_covers;
use crate::pipe::is_solid_cell;
use crate::pipe::solid_at;
use crate::units::cell_of;
use crate::units::to_cell;

verus! {

/// The bird collides with this pipe: the pipe is solid at the bird's cell.
pub open spec fn hits_pipe(bird: Bird, pipe: Pipe, width: int, hole_height: int) -> bool {
    solid_at(pipe, cell_of(bird.x as int), cell_of(bird.y as int), width, hole_height)
}

/// The bird collides with some pipe of the queue.
pub open spec fn spec_colliding(bird: Bird, pipes: Seq<Pipe>, width: int, hole_height: int) -> bool {
    exists|i: int| 0 <= i < pipes.len() && hits_pipe(bird, pipes[i], width, hole_height)
}

/// Whether the bird currently intersects any pipe's solid region.
#[verifier::loop_isolation(false)]
pub fn is_colliding(bird: &Bird, pipes: &VecDeque<Pipe>, width: i64, hole_height: i64) -> (r: bool)
    requires
        i64::MIN < bird.x,
        i64::MIN < bird.y,
        forall|i: int| 0 <= i < pipes@.len() ==> i64::MIN < #[trigger] pipes@[i].x,
    ensures
        r == spec_colliding(*bird, pipes@, width as int, hole_height as int),
{
    let col: i64 = to_cell(bird.x);
    let row: i64 = to_cell(bird.y);
    let n: usize = pipes.len();
    let mut i: usize = 0;
    while i < n
        invariant
            i <= n,
            forall|k: int| 0 <= k < i ==> !hits_pipe(*bird, #[trigger] pipes@[k], width as int, hole_height as int),
        decreases n - i,
    {
        let p: Pipe = pipes[i];
        if is_solid_cell(&p, col, row, width, hole_height) {
            assert(hits_pipe(*bird, pipes@[i as int], width as int, hole_height as int));
            return true;
        }
        i = i + 1;
    }
    false
}

/// Collision gap correctness: when the bird's column lies inside a pipe's
/// band, the pipe does not hit exactly when the bird's row lies inside
/// the hole rows `[hole_y, hole_y + hole_height)`; and against a queue of
/// that one pipe, the collision judgement is that pipe's alone.
pub proof fn lemma_collision_gap(bird: Bird, pipe: Pipe, width: int, hole_height: int)
    requires
        band_covers(pipe, cell_of(bird.x as int), width),
    ensures
        !hits_pipe(bird, pipe, width, hole_height)
            <==> pipe.hole_y <= cell_of(bird.y as int) < pipe.hole_y + hole_height,
        spec_colliding(bird, seq![pipe], width, hole_height)
            == hits_pipe(bird, pipe, width, hole_height),
{
    let s = seq![pipe];
    if hits_pipe(bird, pipe, width, hole_height) {
        assert(s[0] == pipe);
        assert(spec_colliding(bird, s, width, hole_height));
    }
}

} // verus!
