use std::collections::VecDeque;

use avoider::bird::{integrate, is_ascending, Bird};
use avoider::collision::is_colliding;
use avoider::input::{command_of_char, Command};
use avoider::pipe::{is_solid_cell, Pipe};
use avoider::state::{new_game, tick, GameState};
use avoider::stream::advance;
use avoider::units::to_cell;
use avoider::{
    GRAVITY, HOLE_HEIGHT_ROWS, HOLE_MAX_ROW, HOLE_MIN_ROW, INITIAL_VELOCITY, JUMP_IMPULSE,
    PIPE_COUNT, PIPE_GAP_CELLS, PIPE_WIDTH_CELLS, SCROLL_SPEED,
};

fn pipe(x: i64, hole_y: i64) -> Pipe {
    Pipe { x, hole_y }
}

fn bird_at(x: i64, y: i64, velocity: i64) -> Bird {
    Bird { x, y, velocity }
}

fn queue(pipes: &[Pipe]) -> VecDeque<Pipe> {
    pipes.iter().copied().collect()
}

#[test]
fn truncation_toward_zero() {
    assert_eq!(to_cell(1500), 1);
    assert_eq!(to_cell(999), 0);
    assert_eq!(to_cell(-999), 0);
    assert_eq!(to_cell(-1500), -1);
    assert_eq!(to_cell(-10100), -10);
    assert_eq!(to_cell(0), 0);
}

#[test]
fn bird_inside_hole_is_not_colliding() {
    // Entity at row 15, pipe band covering its column, hole rows [10, 17).
    let b = bird_at(5000, 15_000, 0);
    let q = queue(&[pipe(0, 10)]);
    assert!(!is_colliding(&b, &q, 10, 7));
}

#[test]
fn bird_below_hole_is_colliding() {
    // Same pipe, entity at row 20: outside [10, 17).
    let b = bird_at(5000, 20_000, 0);
    let q = queue(&[pipe(0, 10)]);
    assert!(is_colliding(&b, &q, 10, 7));
}

#[test]
fn hole_boundaries_decide_collision() {
    let q = queue(&[pipe(0, 10)]);
    // Rows 10 and 16 are inside the hole [10, 17); rows 9 and 17 are not.
    assert!(!is_colliding(&bird_at(5000, 10_000, 0), &q, 10, 7));
    assert!(!is_colliding(&bird_at(5000, 16_000, 0), &q, 10, 7));
    assert!(is_colliding(&bird_at(5000, 9_000, 0), &q, 10, 7));
    assert!(is_colliding(&bird_at(5000, 17_000, 0), &q, 10, 7));
}

#[test]
fn bird_outside_band_is_not_colliding() {
    // Column 20 is outside the band [0, 10), whatever the row.
    let b = bird_at(20_000, 50_000, 0);
    let q = queue(&[pipe(0, 10)]);
    assert!(!is_colliding(&b, &q, 10, 7));
}

#[test]
fn scroll_without_eviction_shifts_all_pipes() {
    // Three pipes spaced 22 cells apart starting at column 100; one advance
    // at a fifth of a cell moves each leading edge left by exactly that.
    let q = queue(&[pipe(100_000, 12), pipe(122_000, 13), pipe(144_000, 14)]);
    let r = advance(&q, 200, 10, 12, 15);
    assert_eq!(r.len(), 3);
    assert_eq!(r[0], pipe(99_800, 12));
    assert_eq!(r[1], pipe(121_800, 13));
    assert_eq!(r[2], pipe(143_800, 14));
}

#[test]
fn front_past_left_edge_is_recycled() {
    // Front leading edge at -10.1 cells with width 10: trailing edge -0.1
    // is past 0, so the front pipe is evicted and exactly one new pipe is
    // appended one spacing step behind the rearmost.
    let q = queue(&[pipe(-10_100, 12), pipe(11_900, 13)]);
    let r = advance(&q, 0, 10, 12, 15);
    assert_eq!(r.len(), 2);
    assert_eq!(r[0], pipe(11_900, 13));
    assert_eq!(r[1], pipe(11_900 + 22_000, 15));
}

#[test]
fn jump_replaces_velocity_instead_of_accumulating() {
    // Post-integration velocity is the jump impulse plus one gravity
    // increment, not the old velocity plus the impulse.
    let b = bird_at(5000, 15_000, 50);
    let r = integrate(b, GRAVITY, JUMP_IMPULSE, Some(Command::Jump));
    assert_eq!(r.velocity, JUMP_IMPULSE + GRAVITY);
    assert_eq!(r.velocity, -195);
    assert_eq!(r.y, 15_000 + JUMP_IMPULSE);
    assert_eq!(r.x, 5000);
}

#[test]
fn gravity_accelerates_fall_without_jump() {
    let b = bird_at(5000, 15_000, 50);
    let r = integrate(b, GRAVITY, JUMP_IMPULSE, None);
    assert_eq!(r.velocity, 55);
    assert_eq!(r.y, 15_050);
    assert_eq!(r.x, 5000);
}

#[test]
fn integrate_is_deterministic() {
    let b = bird_at(7000, 3000, -120);
    let r1 = integrate(b, GRAVITY, JUMP_IMPULSE, Some(Command::Jump));
    let r2 = integrate(b, GRAVITY, JUMP_IMPULSE, Some(Command::Jump));
    assert_eq!(r1, r2);
    let r3 = integrate(b, GRAVITY, JUMP_IMPULSE, None);
    let r4 = integrate(b, GRAVITY, JUMP_IMPULSE, None);
    assert_eq!(r3, r4);
}

#[test]
fn advance_preserves_queue_length() {
    let plain = queue(&[pipe(100_000, 12), pipe(122_000, 13), pipe(144_000, 14)]);
    assert_eq!(advance(&plain, 200, 10, 12, 15).len(), plain.len());
    let recycling = queue(&[pipe(-10_500, 12), pipe(11_500, 13), pipe(33_500, 14)]);
    assert_eq!(advance(&recycling, 200, 10, 12, 15).len(), recycling.len());
}

#[test]
fn spacing_holds_after_spawn() {
    let q = queue(&[pipe(-10_500, 12), pipe(11_500, 13), pipe(33_500, 14)]);
    let r = advance(&q, 200, 10, 12, 15);
    let step = (PIPE_WIDTH_CELLS + PIPE_GAP_CELLS) * 1000;
    for i in 0..r.len() - 1 {
        assert_eq!(r[i + 1].x - r[i].x, step);
    }
}

#[test]
fn colliding_tick_freezes_world() {
    // Bird at column 5, row 20; pipe band [0, 10) with hole [10, 17):
    // collision, so the tick returns bird and pipes unchanged.
    let s = GameState {
        bird: bird_at(5000, 20_000, 300),
        pipes: queue(&[pipe(0, 10), pipe(22_000, 14)]),
        should_quit: false,
    };
    let before_bird = s.bird;
    let before_pipes: Vec<Pipe> = s.pipes.iter().copied().collect();
    let r = tick(s, None);
    assert_eq!(r.bird, before_bird);
    let after_pipes: Vec<Pipe> = r.pipes.iter().copied().collect();
    assert_eq!(after_pipes, before_pipes);
    assert!(!r.should_quit);
}

#[test]
fn colliding_tick_still_applies_quit() {
    let s = GameState {
        bird: bird_at(5000, 20_000, 300),
        pipes: queue(&[pipe(0, 10), pipe(22_000, 14)]),
        should_quit: false,
    };
    let before_bird = s.bird;
    let r = tick(s, Some(Command::Quit));
    assert!(r.should_quit);
    assert_eq!(r.bird, before_bird);
}

#[test]
fn quit_flag_stays_raised() {
    let s = GameState {
        bird: bird_at(5000, 15_000, 0),
        pipes: queue(&[pipe(30_000, 10), pipe(52_000, 14)]),
        should_quit: true,
    };
    let r = tick(s, None);
    assert!(r.should_quit);
}

#[test]
fn clear_tick_advances_world() {
    // No pipe covers column 5, so the world advances: pipes scroll by the
    // scroll speed and the bird integrates.
    let s = GameState {
        bird: bird_at(5000, 15_000, 100),
        pipes: queue(&[pipe(30_000, 10), pipe(52_000, 14)]),
        should_quit: false,
    };
    let r = tick(s, None);
    assert_eq!(r.pipes[0], pipe(30_000 - SCROLL_SPEED, 10));
    assert_eq!(r.pipes[1], pipe(52_000 - SCROLL_SPEED, 14));
    assert_eq!(r.bird, bird_at(5000, 15_100, 100 + GRAVITY));
    assert!(!r.should_quit);
}

#[test]
fn clear_tick_applies_jump() {
    let s = GameState {
        bird: bird_at(5000, 15_000, 100),
        pipes: queue(&[pipe(30_000, 10), pipe(52_000, 14)]),
        should_quit: false,
    };
    let r = tick(s, Some(Command::Jump));
    assert_eq!(r.bird, bird_at(5000, 15_000 + JUMP_IMPULSE, JUMP_IMPULSE + GRAVITY));
    assert!(!r.should_quit);
}

#[test]
fn new_game_populates_queue() {
    let s = new_game(30, 80);
    assert_eq!(s.pipes.len(), PIPE_COUNT);
    assert!(!s.should_quit);
    assert_eq!(s.bird.x, 80 * 125);
    assert_eq!(s.bird.y, 30 * 400);
    assert_eq!(s.bird.velocity, INITIAL_VELOCITY);
    for (i, p) in s.pipes.iter().enumerate() {
        let expected_x = (80 / 2 + (i as i64 + 1) * (PIPE_WIDTH_CELLS + PIPE_GAP_CELLS)) * 1000;
        assert_eq!(p.x, expected_x);
        assert!((HOLE_MIN_ROW..HOLE_MAX_ROW).contains(&p.hole_y));
    }
}

#[test]
fn sampled_hole_rows_stay_in_range() {
    // Every hole row comes from the random sampler; over many games it
    // must always land in [HOLE_MIN_ROW, HOLE_MAX_ROW).
    for _ in 0..200 {
        let s = new_game(30, 80);
        for p in s.pipes.iter() {
            assert!((HOLE_MIN_ROW..HOLE_MAX_ROW).contains(&p.hole_y));
        }
    }
}

#[test]
fn tick_spawns_pipe_with_sampled_hole() {
    // Front pipe about to leave the viewport, bird clear of both bands:
    // the tick evicts the front and spawns one pipe one spacing step
    // behind the rearmost, with a freshly sampled hole row.
    for _ in 0..200 {
        let s = GameState {
            bird: bird_at(5000, 15_000, 0),
            pipes: queue(&[pipe(-10_050, 12), pipe(11_950, 13)]),
            should_quit: false,
        };
        let r = tick(s, None);
        assert_eq!(r.pipes.len(), 2);
        assert_eq!(r.pipes[0], pipe(11_750, 13));
        assert_eq!(r.pipes[1].x, 11_750 + 22_000);
        assert!((HOLE_MIN_ROW..HOLE_MAX_ROW).contains(&r.pipes[1].hole_y));
    }
}

#[test]
fn key_mapping() {
    assert_eq!(command_of_char(' '), Some(Command::Jump));
    assert_eq!(command_of_char('q'), Some(Command::Quit));
    assert_eq!(command_of_char('x'), None);
    assert_eq!(command_of_char('Q'), None);
}

#[test]
fn solid_cells_of_a_pipe() {
    let p = pipe(0, 10);
    assert!(is_solid_cell(&p, 0, 0, 10, 7));
    assert!(is_solid_cell(&p, 9, 25, 10, 7));
    assert!(!is_solid_cell(&p, 10, 0, 10, 7));
    assert!(!is_solid_cell(&p, -1, 0, 10, 7));
    assert!(!is_solid_cell(&p, 5, 10, 10, 7));
    assert!(!is_solid_cell(&p, 5, 16, 10, 7));
    assert!(is_solid_cell(&p, 5, 17, 10, 7));
    assert!(is_solid_cell(&p, 5, 9, 10, 7));
}

#[test]
fn facing_follows_velocity_sign() {
    assert!(is_ascending(&bird_at(0, 0, -1)));
    assert!(!is_ascending(&bird_at(0, 0, 0)));
    assert!(!is_ascending(&bird_at(0, 0, 1)));
}

#[test]
fn hole_height_spans_seven_rows() {
    assert_eq!(HOLE_HEIGHT_ROWS, 7);
    assert_eq!(PIPE_WIDTH_CELLS, 10);
    assert_eq!(PIPE_GAP_CELLS, 12);
}
