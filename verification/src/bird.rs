//! The player entity and its physics. The bird never moves horizontally
//! (the world scrolls instead); each tick its vertical position advances
//! by its velocity and its velocity grows by gravity. A jump replaces the
//! velocity with a fixed upward impulse; it does not accumulate.

use vstd::prelude::*;
use crate::input::Command;

verus! {

/// The player entity. `x` and `y` are milli-cell coordinates; `velocity`
/// is in milli-rows per tick, negative meaning upward.
#[derive(Clone, Copy, Debug, PartialEq, Eq, Structural)]
pub struct Bird {
    pub x: i64,
    pub y: i64,
    pub velocity: i64,
}

/// The velocity the tick integrates with: a jump command replaces the
/// current velocity with the impulse, any other input leaves it.
pub open spec fn applied_velocity(velocity: int, jump_impulse: int, command: Option<Command>) -> int {
    if command == Some(Command::Jump) {
        jump_impulse
    } else {
        velocity
    }
}

/// The bird after one physics step, as a mathematical `(x, y, velocity)`
/// triple: `x` is unchanged, `y` moves by the applied velocity, and the
/// applied velocity then grows by gravity.
pub open spec fn integrate_model(
    bird: Bird,
    gravity: int,
    jump_impulse: int,
    command: Option<Command>,
) -> (int, int, int) {
    let v = applied_velocity(bird.velocity as int, jump_impulse, command);
    (bird.x as int, bird.y + v, v + gravity)
}

/// One physics step: apply the jump command if any, move by the velocity,
/// then accelerate by gravity.
pub fn integrate(bird: Bird, gravity: i64, jump_impulse: i64, command: Option<Command>) -> (r: Bird)
    requires
        i64::MIN <= bird.y + applied_velocity(bird.velocity as int, jump_impulse as int, command) <= i64::MAX,
        i64::MIN <= applied_velocity(bird.velocity as int, jump_impulse as int, command) + gravity <= i64::MAX,
    ensures
        (r.x as int, r.y as int, r.velocity as int)
            == integrate_model(bird, gravity as int, jump_impulse as int, command),
{
    let velocity: i64 = if let Some(Command::Jump) = command {
        jump_impulse
    } else {
        bird.velocity
    };
    Bird { x: bird.x, y: bird.y + velocity, velocity: velocity + gravity }
}

/// Physics is deterministic: equal `(bird, gravity, jump_impulse, command)`
/// inputs give equal outcomes. There is no hidden state.
pub proof fn lemma_integrate_deterministic(
    b1: Bird,
    b2: Bird,
    g1: int,
    g2: int,
    j1: int,
    j2: int,
    c1: Option<Command>,
    c2: Option<Command>,
)
    requires
        b1 == b2,
        g1 == g2,
        j1 == j2,
        c1 == c2,
    ensures
        integrate_model(b1, g1, j1, c1) == integrate_model(b2, g2, j2, c2),
{
}

/// Whether the bird is moving upward; a renderer picks the glyph by this.
pub fn is_ascending(bird: &Bird) -> (r: bool)
    ensures
        r == (bird.velocity < 0),
{
    bird.velocity < 0
}

} // verus!
