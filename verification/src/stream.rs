//! The obstacle stream: each tick every pipe scrolls left by the scroll
//! speed; when the front pipe's trailing edge has fully passed horizontal
//! position 0 it is evicted and exactly one new pipe is appended one
//! spacing step behind the rearmost, so the queue's length never changes.

use vstd::prelude::*;
use std::collections::VecDeque;
use crate::pipe::Pipe;
use crate::SCALE;

verus! {

/// Every pipe shifted left by `scroll` milli-cells.
pub open spec fn shifted(pipes: Seq<Pipe>, scroll: int) -> Seq<Pipe> {
    pipes.map(|i: int, p: Pipe| Pipe { x: (p.x - scroll) as i64, hole_y: p.hole_y })
}

/// The front pipe's trailing edge (`x` plus the width in milli-cells) has
/// fully scrolled past horizontal position 0, so the pipe must be recycled.
pub open spec fn front_past_left_edge(pipes: Seq<Pipe>, width: int) -> bool {
    pipes[0].x + width * (SCALE as int) < 0
}

/// The queue after one advance: every pipe shifts left by `scroll`; then,
/// if the front pipe has fully left the viewport, it is evicted and one
/// new pipe is appended at the rearmost's leading edge plus
/// `(width + inter_gap)` cells, with `new_hole_y` as its hole start.
pub open spec fn spec_advance(
    pipes: Seq<Pipe>,
    scroll: int,
    width: int,
    inter_gap: int,
    new_hole_y: int,
) -> Seq<Pipe> {
    let moved = shifted(pipes, scroll);
    if front_past_left_edge(moved, width) {
        moved.subrange(1, moved.len() as int).push(
            Pipe {
                x: (moved.last().x + (width + inter_gap) * (SCALE as int)) as i64,
                hole_y: new_hole_y as i64,
            },
        )
    } else {
        moved
    }
}

/// Every adjacent pair of pipes is exactly `step` milli-cells apart.
pub open spec fn evenly_spaced(pipes: Seq<Pipe>, step: int) -> bool {
    forall|i: int| 0 <= i && i + 1 < pipes.len() ==> pipes[i + 1].x == (#[trigger] pipes[i]).x + step
}

/// One advance of the obstacle stream; the new pipe's hole row is a
/// parameter so that the whole step is a function of its inputs.
#[verifier::loop_isolation(false)]
pub fn advance(
    pipes: &VecDeque<Pipe>,
    scroll_speed: i64,
    width: i64,
    inter_gap: i64,
    new_hole_y: i64,
) -> (r: VecDeque<Pipe>)
    requires
        pipes@.len() >= 2,
        0 <= scroll_speed,
        0 <= width <= 1_000_000,
        0 <= inter_gap <= 1_000_000,
        forall|i: int| 0 <= i < pipes@.len() ==> i64::MIN + scroll_speed <= (#[trigger] pipes@[i]).x,
        pipes@.last().x - scroll_speed + (width + inter_gap) * (SCALE as int) <= i64::MAX,
    ensures
        r@ == spec_advance(pipes@, scroll_speed as int, width as int, inter_gap as int, new_hole_y as int),
        r@.len() == pipes@.len(),
{
    let ghost moved_spec = shifted(pipes@, scroll_speed as int);
    let n: usize = pipes.len();
    let mut moved: VecDeque<Pipe> = VecDeque::new();
    let mut i: usize = 0;
    while i < n
        invariant
            i <= n,
            moved@ == moved_spec.take(i as int),
        decreases n - i,
    {
        let p: Pipe = pipes[i];
        moved.push_back(Pipe { x: p.x - scroll_speed, hole_y: p.hole_y });
        proof {
            assert(moved@ =~= moved_spec.take(i + 1));
        }
        i = i + 1;
    }
    proof {
        assert(moved@ =~= moved_spec);
    }
    let front: Pipe = moved[0];
    if (front.x as i128) + (width as i128) * (SCALE as i128) < 0 {
        let mut out = moved;
        out.pop_front();
        let rear: Pipe = out[out.len() - 1];
        out.push_back(Pipe { x: rear.x + (width + inter_gap) * SCALE, hole_y: new_hole_y });
        proof {
            assert(out@ =~= spec_advance(
                pipes@, scroll_speed as int, width as int, inter_gap as int, new_hole_y as int));
        }
        out
    } else {
        moved
    }
}

/// The queue's length after an advance equals its length before: eviction
/// and spawning always come together, one of each at most.
pub proof fn lemma_advance_preserves_len(
    pipes: Seq<Pipe>,
    scroll: int,
    width: int,
    inter_gap: int,
    new_hole_y: int,
)
    requires
        pipes.len() >= 1,
    ensures
        spec_advance(pipes, scroll, width, inter_gap, new_hole_y).len() == pipes.len(),
{
}

/// Spacing is invariant under an advance: when every adjacent pair of
/// pipes is one spacing step (`(width + inter_gap) * SCALE` milli-cells)
/// apart, it still is after the advance, a spawned pipe included.
pub proof fn lemma_spacing_preserved(
    pipes: Seq<Pipe>,
    scroll: int,
    width: int,
    inter_gap: int,
    new_hole_y: int,
)
    requires
        pipes.len() >= 2,
        0 <= scroll,
        0 <= width,
        0 <= inter_gap,
        evenly_spaced(pipes, (width + inter_gap) * (SCALE as int)),
        forall|i: int| 0 <= i < pipes.len() ==> i64::MIN + scroll <= (#[trigger] pipes[i]).x,
        pipes.last().x - scroll + (width + inter_gap) * (SCALE as int) <= i64::MAX,
    ensures
        evenly_spaced(
            spec_advance(pipes, scroll, width, inter_gap, new_hole_y),
            (width + inter_gap) * (SCALE as int),
        ),
{
    let step = (width + inter_gap) * (SCALE as int);
    let moved = shifted(pipes, scroll);
    assert forall|i: int| 0 <= i && i + 1 < moved.len()
        implies moved[i + 1].x == (#[trigger] moved[i]).x + step by {
        assert(pipes[i + 1].x == pipes[i].x + step);
        assert(pipes.last().x == pipes[pipes.len() - 1].x);
        assert(moved[i].x == pipes[i].x - scroll);
        assert(moved[i + 1].x == pipes[i + 1].x - scroll);
    }
    let out = spec_advance(pipes, scroll, width, inter_gap, new_hole_y);
    if front_past_left_edge(moved, width) {
        assert forall|i: int| 0 <= i && i + 1 < out.len()
            implies out[i + 1].x == (#[trigger] out[i]).x + step by {
            if i + 2 < moved.len() {
                assert(out[i] == moved[i + 1]);
                assert(out[i + 1] == moved[i + 2]);
            } else {
                assert(out[i] == moved[moved.len() - 1]);
                assert(out[i + 1].x == moved.last().x + step);
            }
        }
    }
}

} // verus!
