//! The single movable entity of the demo: a colored square with a 2D
//! position. The actor knows how to shift its position one step at a time
//! and how to describe its own appearance as a drawing request; it never
//! touches the backend itself.

use crate::draw::{Color, DrawCommand};
use crate::geometry::{pos_after, step_fits, Direction, Position, MOVE_STEP};
use vstd::prelude::*;

verus! {

/// Side length, in viewport units, of the square the actor is drawn as.
pub const ACTOR_SIDE: u64 = 50;

/// The movable visual entity: a plain position plus its mutators. There is
/// no further state — each movement call is a unary step, independent of
/// timing or of the event history.
#[derive(Clone, Copy, PartialEq, Eq, Structural, Debug)]
pub struct Actor {
    pub position: Position,
}

impl Actor {
    /// An actor standing at the given position.
    pub fn new(position: Position) -> (a: Actor)
        ensures
            a.position == position,
    {
        Actor { position }
    }

    /// One step to the left: `x` decreases by `MOVE_STEP`, `y` is untouched.
    pub fn move_left(&mut self)
        requires
            i64::MIN <= old(self).position.x - MOVE_STEP,
        ensures
            final(self).position.x == old(self).position.x - MOVE_STEP,
            final(self).position.y == old(self).position.y,
    {
        self.position.x = self.position.x - MOVE_STEP;
    }

    /// One step to the right: `x` increases by `MOVE_STEP`, `y` is untouched.
    pub fn move_right(&mut self)
        requires
            old(self).position.x + MOVE_STEP <= i64::MAX,
        ensures
            final(self).position.x == old(self).position.x + MOVE_STEP,
            final(self).position.y == old(self).position.y,
    {
        self.position.x = self.position.x + MOVE_STEP;
    }

    /// One step up the screen: `y` decreases by `MOVE_STEP` (the origin is
    /// the top-left corner), `x` is untouched.
    pub fn move_up(&mut self)
        requires
            i64::MIN <= old(self).position.y - MOVE_STEP,
        ensures
            final(self).position.y == old(self).position.y - MOVE_STEP,
            final(self).position.x == old(self).position.x,
    {
        self.position.y = self.position.y - MOVE_STEP;
    }

    /// One step down the screen: `y` increases by `MOVE_STEP`, `x` is
    /// untouched.
    pub fn move_down(&mut self)
        requires
            old(self).position.y + MOVE_STEP <= i64::MAX,
        ensures
            final(self).position.y == old(self).position.y + MOVE_STEP,
            final(self).position.x == old(self).position.x,
    {
        self.position.y = self.position.y + MOVE_STEP;
    }

    /// One step in the given direction, dispatched to the matching mutator:
    /// exactly one axis moves, by exactly `MOVE_STEP` units.
    pub fn step(&mut self, d: Direction)
        requires
            step_fits(old(self).position, d),
        ensures
            final(self).position.x as int == pos_after(
                old(self).position.x as int,
                old(self).position.y as int,
                d,
            ).0,
            final(self).position.y as int == pos_after(
                old(self).position.x as int,
                old(self).position.y as int,
                d,
            ).1,
    {
        match d {
            Direction::Up => self.move_up(),
            Direction::Down => self.move_down(),
            Direction::Left => self.move_left(),
            Direction::Right => self.move_right(),
        }
    }

    /// The actor's appearance this frame: a red square of side `ACTOR_SIDE`
    /// whose top-left corner is the current position. Rendering reads the
    /// position and mutates nothing — the same position always yields the
    /// same request.
    pub fn render(&mut self) -> (cmd: DrawCommand)
        ensures
            *final(self) == *old(self),
            cmd == (DrawCommand::FillSquare {
                color: Color::Red,
                x: old(self).position.x,
                y: old(self).position.y,
                side: ACTOR_SIDE,
            }),
    {
        DrawCommand::FillSquare { color: Color::Red, x: self.position.x, y: self.position.y, side: ACTOR_SIDE }
    }
}

} // verus!
