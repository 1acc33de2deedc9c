//! The simulation core: the game state and the per-tick state machine.
//! Each tick takes the previous state and at most one input command and
//! produces a fresh state. A quit command only raises the quit flag; a
//! tick that starts in collision freezes the world (bird and pipes are
//! returned unchanged) while the quit flag is still applied.

use vstd::prelude::*;
use std::collections::VecDeque;
use crate::bird::Bird;
use crate::bird::applied_velocity;
use crate::bird::integrate;
use crate::bird::integrate_model;
use crate::collision::is_colliding;
use crate::collision::spec_colliding;
use crate::input::Command;
use crate::pipe::Pipe;
use crate::rng::sample_hole_row;
use crate::stream::advance;
use crate::stream::evenly_spaced;
use crate::stream::spec_advance;
use crate::GRAVITY;
use crate::HOLE_HEIGHT_ROWS;
use crate::HOLE_MAX_ROW;
use crate::HOLE_MIN_ROW;
use crate::INITIAL_VELOCITY;
use crate::JUMP_IMPULSE;
use crate::PIPE_COUNT;
use crate::PIPE_GAP_CELLS;
use crate::PIPE_WIDTH_CELLS;
use crate::SCALE;
use crate::SCROLL_SPEED;

verus! {

/// The whole game at one tick: the bird, the pipe queue ordered by
/// horizontal position ascending, and the quit flag. Each tick produces a
/// fresh value from the previous one.
pub struct GameState {
    pub bird: Bird,
    pub pipes: VecDeque<Pipe>,
    pub should_quit: bool,
}

/// The quit flag after a tick: once raised it stays raised, and a quit
/// command raises it.
pub open spec fn spec_quit_flag(state: GameState, command: Option<Command>) -> bool {
    state.should_quit || command == Some(Command::Quit)
}

/// The state entering a tick collides: the bird sits in some pipe's solid
/// region.
pub open spec fn state_colliding(state: GameState) -> bool {
    spec_colliding(state.bird, state.pipes@, PIPE_WIDTH_CELLS as int, HOLE_HEIGHT_ROWS as int)
}

/// What one tick does, given the hole row `hole` a spawned pipe would
/// get: on a colliding state the bird and the pipes are exactly the input
/// ones and only the quit flag may change; otherwise the jump command is
/// applied, the stream advances, and physics integrates.
pub open spec fn tick_rel(
    state: GameState,
    command: Option<Command>,
    hole: int,
    next: GameState,
) -> bool {
    &&& next.should_quit == spec_quit_flag(state, command)
    &&& if state_colliding(state) {
        next.bird == state.bird && next.pipes@ == state.pipes@
    } else {
        &&& (next.bird.x as int, next.bird.y as int, next.bird.velocity as int)
            == integrate_model(state.bird, GRAVITY as int, JUMP_IMPULSE as int, command)
        &&& next.pipes@ == spec_advance(
            state.pipes@,
            SCROLL_SPEED as int,
            PIPE_WIDTH_CELLS as int,
            PIPE_GAP_CELLS as int,
            hole,
        )
    }
}

/// The machine-width bounds a tick needs: room to shift and respawn pipes
/// and to integrate the bird without leaving the coordinate type.
pub open spec fn tick_fits(state: GameState, command: Option<Command>) -> bool {
    &&& state.pipes@.len() >= 2
    &&& i64::MIN < state.bird.x
    &&& i64::MIN < state.bird.y
    &&& i64::MIN <= state.bird.y + applied_velocity(
        state.bird.velocity as int,
        JUMP_IMPULSE as int,
        command,
    ) <= i64::MAX
    &&& i64::MIN <= applied_velocity(state.bird.velocity as int, JUMP_IMPULSE as int, command)
        + GRAVITY <= i64::MAX
    &&& forall|i: int| 0 <= i < state.pipes@.len()
        ==> i64::MIN + SCROLL_SPEED <= (#[trigger] state.pipes@[i]).x
    &&& state.pipes@.last().x - SCROLL_SPEED + (PIPE_WIDTH_CELLS + PIPE_GAP_CELLS) * (SCALE as int)
        <= i64::MAX
}

/// One tick: apply a quit command to the flag, judge collision against
/// the incoming state, and either freeze (on collision) or apply the jump,
/// advance the stream, and integrate physics. The spawned pipe's hole row
/// is random, so the result is pinned up to some hole row in
/// `[HOLE_MIN_ROW, HOLE_MAX_ROW)`.
pub fn tick(state: GameState, command: Option<Command>) -> (next: GameState)
    requires
        tick_fits(state, command),
    ensures
        exists|hole: int|
            HOLE_MIN_ROW <= hole < HOLE_MAX_ROW && tick_rel(state, command, hole, next),
{
    let quitting: bool = match command {
        Some(Command::Quit) => true,
        _ => false,
    };
    let should_quit: bool = state.should_quit || quitting;

    if is_colliding(&state.bird, &state.pipes, PIPE_WIDTH_CELLS, HOLE_HEIGHT_ROWS) {
        let next = GameState { bird: state.bird, pipes: state.pipes, should_quit };
        proof {
            assert(tick_rel(state, command, HOLE_MIN_ROW as int, next));
        }
        return next;
    }

    let hole: i64 = sample_hole_row(HOLE_MIN_ROW, HOLE_MAX_ROW);
    let pipes = advance(&state.pipes, SCROLL_SPEED, PIPE_WIDTH_CELLS, PIPE_GAP_CELLS, hole);
    let bird = integrate(state.bird, GRAVITY, JUMP_IMPULSE, command);
    let next = GameState { bird, pipes, should_quit };
    proof {
        assert(tick_rel(state, command, hole as int, next));
    }
    next
}

/// Freeze on collision: whatever hole row the tick drew, a tick that
/// starts in collision hands back the bird and the pipe queue unchanged;
/// only the quit flag may differ, and it is raised exactly on a quit
/// command or when it was already raised.
pub proof fn lemma_freeze_on_collision(
    state: GameState,
    command: Option<Command>,
    hole: int,
    next: GameState,
)
    requires
        state_colliding(state),
        tick_rel(state, command, hole, next),
    ensures
        next.bird == state.bird,
        next.pipes@ == state.pipes@,
        next.should_quit == (state.should_quit || command == Some(Command::Quit)),
{
}

/// The leading edge, in milli-cells, of the `i`-th pipe of a fresh game
/// on a viewport `cols` cells wide: `i + 1` spacing steps (pipe width
/// plus inter-pipe gap, 22 cells) past the middle column.
pub open spec fn initial_pipe_x(cols: int, i: int) -> int {
    (cols / 2 + (i + 1) * 22) * 1000
}

/// The starting state for a viewport of `rows x cols` cells: the bird an
/// eighth of the way across and two fifths of the way down with a small
/// downward velocity, and a queue of `PIPE_COUNT` pipes starting past the
/// middle column, evenly spaced one spacing step apart, each hole row
/// drawn from `[HOLE_MIN_ROW, HOLE_MAX_ROW)`.
#[verifier::loop_isolation(false)]
pub fn new_game(rows: i64, cols: i64) -> (state: GameState)
    requires
        0 <= rows <= 1_000_000,
        0 <= cols <= 1_000_000,
    ensures
        state.should_quit == false,
        state.bird.x == cols as int * 125,
        state.bird.y == rows as int * 400,
        state.bird.velocity == INITIAL_VELOCITY,
        state.pipes@.len() == PIPE_COUNT,
        forall|i: int| 0 <= i < state.pipes@.len()
            ==> (#[trigger] state.pipes@[i]).x == initial_pipe_x(cols as int, i),
        forall|i: int| 0 <= i < state.pipes@.len()
            ==> HOLE_MIN_ROW <= (#[trigger] state.pipes@[i]).hole_y < HOLE_MAX_ROW,
        evenly_spaced(state.pipes@, (PIPE_WIDTH_CELLS + PIPE_GAP_CELLS) * (SCALE as int)),
{
    let half: i64 = ((cols as u64) / 2) as i64;
    let mut pipes: VecDeque<Pipe> = VecDeque::new();
    let mut k: usize = 0;
    while k < PIPE_COUNT
        invariant
            k <= PIPE_COUNT,
            pipes@.len() == k,
            forall|i: int| 0 <= i < k
                ==> (#[trigger] pipes@[i]).x == initial_pipe_x(cols as int, i),
            forall|i: int| 0 <= i < k
                ==> HOLE_MIN_ROW <= (#[trigger] pipes@[i]).hole_y < HOLE_MAX_ROW,
        decreases PIPE_COUNT - k,
    {
        let steps: i64 = (k as i64) + 1;
        let x_cells: i64 = half + steps * 22;
        let hole: i64 = sample_hole_row(HOLE_MIN_ROW, HOLE_MAX_ROW);
        pipes.push_back(Pipe { x: x_cells * 1000, hole_y: hole });
        k = k + 1;
    }
    let state = GameState {
        bird: Bird { x: cols * 125, y: rows * 400, velocity: INITIAL_VELOCITY },
        pipes,
        should_quit: false,
    };
    proof {
        assert((PIPE_WIDTH_CELLS + PIPE_GAP_CELLS) * (SCALE as int) == 22000);
        assert forall|i: int| 0 <= i && i + 1 < state.pipes@.len()
            implies state.pipes@[i + 1].x == (#[trigger] state.pipes@[i]).x + 22000 by {
            assert(state.pipes@[i].x == initial_pipe_x(cols as int, i));
            assert(state.pipes@[i + 1].x == initial_pipe_x(cols as int, i + 1));
        }
    }
    state
}

} // verus!
