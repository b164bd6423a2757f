//! The plane the actor lives on: coordinates, the viewport, and the four
//! movement directions, together with the displacement model that every
//! movement operation is specified against.

use vstd::prelude::*;

verus! {

/// Distance, in viewport units, that a single movement step covers.
pub const MOVE_STEP: i64 = 10;

/// A 2D coordinate on the screen, in whole viewport units.
///
/// Screen convention: the origin is the top-left corner, `x` grows to the
/// right and `y` grows downward. Movement is unbounded — no clamping ever
/// intervenes — so either coordinate may become negative.
#[derive(Clone, Copy, PartialEq, Eq, Structural, Debug)]
pub struct Position {
    pub x: i64,
    pub y: i64,
}

/// The fixed pixel dimensions of the display area. Immutable after
/// construction; consulted exactly once, to place the actor at the
/// geometric center of the screen.
#[derive(Clone, Copy, PartialEq, Eq, Structural, Debug)]
pub struct ViewPort {
    pub width: u64,
    pub height: u64,
}

/// One of the four recognized movement keys.
#[derive(Clone, Copy, PartialEq, Eq, Structural, Debug)]
pub enum Direction {
    Up,
    Down,
    Left,
    Right,
}

/// Horizontal displacement of one step in direction `d`: `Left` decreases
/// `x`, `Right` increases it, the vertical directions leave it alone.
pub open spec fn delta_x(d: Direction) -> int {
    match d {
        Direction::Left => -(MOVE_STEP as int),
        Direction::Right => MOVE_STEP as int,
        _ => 0,
    }
}

/// Vertical displacement of one step in direction `d`: `Up` decreases `y`,
/// `Down` increases it, the horizontal directions leave it alone.
pub open spec fn delta_y(d: Direction) -> int {
    match d {
        Direction::Up => -(MOVE_STEP as int),
        Direction::Down => MOVE_STEP as int,
        _ => 0,
    }
}

/// The position reached from `(x, y)` by one step in direction `d`.
pub open spec fn pos_after(x: int, y: int, d: Direction) -> (int, int) {
    (x + delta_x(d), y + delta_y(d))
}

/// The position reached from `(x, y)` by applying a whole sequence of steps
/// in order.
pub open spec fn pos_after_seq(x: int, y: int, moves: Seq<Direction>) -> (int, int)
    decreases moves.len(),
{
    if moves.len() == 0 {
        (x, y)
    } else {
        pos_after_seq(
            pos_after(x, y, moves[0]).0,
            pos_after(x, y, moves[0]).1,
            moves.drop_first(),
        )
    }
}

/// Net horizontal displacement of a sequence of steps.
pub open spec fn net_dx(moves: Seq<Direction>) -> int
    decreases moves.len(),
{
    if moves.len() == 0 {
        0
    } else {
        delta_x(moves[0]) + net_dx(moves.drop_first())
    }
}

/// Net vertical displacement of a sequence of steps.
pub open spec fn net_dy(moves: Seq<Direction>) -> int
    decreases moves.len(),
{
    if moves.len() == 0 {
        0
    } else {
        delta_y(moves[0]) + net_dy(moves.drop_first())
    }
}

/// Whether a mathematical coordinate is representable by the machine type
/// that stores it.
pub open spec fn coord_in_range(v: int) -> bool {
    i64::MIN <= v && v <= i64::MAX
}

/// Whether one step in direction `d` from position `p` stays within the
/// representable coordinate range.
pub open spec fn step_fits(p: Position, d: Direction) -> bool {
    coord_in_range(pos_after(p.x as int, p.y as int, d).0)
        && coord_in_range(pos_after(p.x as int, p.y as int, d).1)
}

/// One movement step changes exactly one axis, by exactly `MOVE_STEP` units,
/// and leaves the other axis untouched.
pub proof fn lemma_step_changes_one_axis(x: int, y: int, d: Direction)
    ensures
        pos_after(x, y, d).0 == x + delta_x(d),
        pos_after(x, y, d).1 == y + delta_y(d),
        delta_x(d) == 0 <==> delta_y(d) != 0,
        delta_x(d) == MOVE_STEP as int || delta_x(d) == -(MOVE_STEP as int) || delta_x(d) == 0,
        delta_y(d) == MOVE_STEP as int || delta_y(d) == -(MOVE_STEP as int) || delta_y(d) == 0,
{
}

/// The axes are independent: after any sequence of steps, `x` is the initial
/// `x` plus the net horizontal displacement and `y` likewise, so steps along
/// one axis never disturb the other.
pub proof fn lemma_axes_independent(x: int, y: int, moves: Seq<Direction>)
    ensures
        pos_after_seq(x, y, moves).0 == x + net_dx(moves),
        pos_after_seq(x, y, moves).1 == y + net_dy(moves),
    decreases moves.len(),
{
    if moves.len() > 0 {
        lemma_axes_independent(x + delta_x(moves[0]), y + delta_y(moves[0]), moves.drop_first());
    }
}

/// The sequence of `n` equal steps in direction `d`.
pub open spec fn repeated(d: Direction, n: nat) -> Seq<Direction> {
    Seq::new(n, |i: int| d)
}

/// Movement has no lower bound: `n` upward steps move `y` down by exactly
/// `MOVE_STEP * n` while leaving `x` alone, and once that displacement
/// exceeds the starting `y` the actor sits above the screen, at a negative
/// coordinate.
pub proof fn lemma_up_unbounded(x: int, y: int, n: nat)
    ensures
        pos_after_seq(x, y, repeated(Direction::Up, n)).0 == x,
        pos_after_seq(x, y, repeated(Direction::Up, n)).1 == y - (MOVE_STEP as int) * n,
        (MOVE_STEP as int) * n > y ==> pos_after_seq(x, y, repeated(Direction::Up, n)).1 < 0,
    decreases n,
{
    if n > 0 {
        lemma_up_unbounded(x, y - MOVE_STEP as int, (n - 1) as nat);
        assert(repeated(Direction::Up, n).drop_first() =~= repeated(
            Direction::Up,
            (n - 1) as nat,
        ));
        assert((MOVE_STEP as int) * n == MOVE_STEP as int + (MOVE_STEP as int) * (n - 1))
            by (nonlinear_arith);
    }
}

} // verus!
