use spo_wuk::actor::{Actor, ACTOR_SIDE};
use spo_wuk::draw::{Color, DrawCommand};
use spo_wuk::geometry::{Direction, Position, MOVE_STEP};

fn actor_at(x: i64, y: i64) -> Actor {
    Actor::new(Position { x, y })
}

#[test]
fn each_direction_moves_one_axis_by_step() {
    let mut a = actor_at(100, 100);
    a.step(Direction::Up);
    assert_eq!(a.position, Position { x: 100, y: 90 });

    let mut a = actor_at(100, 100);
    a.step(Direction::Down);
    assert_eq!(a.position, Position { x: 100, y: 110 });

    let mut a = actor_at(100, 100);
    a.step(Direction::Left);
    assert_eq!(a.position, Position { x: 90, y: 100 });

    let mut a = actor_at(100, 100);
    a.step(Direction::Right);
    assert_eq!(a.position, Position { x: 110, y: 100 });
}

#[test]
fn named_mutators_match_step() {
    let mut a = actor_at(0, 0);
    a.move_left();
    a.move_up();
    assert_eq!(a.position, Position { x: -MOVE_STEP, y: -MOVE_STEP });
    a.move_right();
    a.move_down();
    assert_eq!(a.position, Position { x: 0, y: 0 });
}

#[test]
fn axes_are_independent() {
    let mut a = actor_at(100, 100);
    a.step(Direction::Up);
    a.step(Direction::Right);
    assert_eq!(a.position, Position { x: 110, y: 90 });
}

#[test]
fn movement_is_unbounded_below() {
    let mut a = actor_at(250, 250);
    for _ in 0..26 {
        a.step(Direction::Up);
    }
    assert_eq!(a.position.y, -10);
    assert!(a.position.y < 0);
    assert_eq!(a.position.x, 250);
}

#[test]
fn actor_render_requests_red_square_at_position() {
    let mut a = actor_at(-30, 470);
    let cmd = a.render();
    assert_eq!(cmd, DrawCommand::FillSquare { color: Color::Red, x: -30, y: 470, side: ACTOR_SIDE });
    assert_eq!(ACTOR_SIDE, 50);
    assert_eq!(a.position, Position { x: -30, y: 470 });
}

#[test]
fn render_repeats_identically_between_moves() {
    let mut a = actor_at(7, 9);
    let first = a.render();
    let second = a.render();
    assert_eq!(first, second);
    assert_eq!(a.position, Position { x: 7, y: 9 });
}
