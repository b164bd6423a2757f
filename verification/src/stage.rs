//! The orchestrating owner of the demo's state. The stage holds the viewport
//! and the actor; it routes classified input events to the actor's mutators
//! and turns each render tick into the frame's ordered draw plan: clear the
//! background, then draw the actor, so the actor is always visible over the
//! cleared frame.

use crate::actor::{Actor, ACTOR_SIDE};
use crate::draw::{Color, DrawCommand};
use crate::geometry::{pos_after, step_fits, Direction, Position, ViewPort};
use vstd::prelude::*;

verus! {

/// A classified input event: either one of the four recognized direction
/// keys, or anything else, which the stage silently ignores.
#[derive(Clone, Copy, PartialEq, Eq, Structural, Debug)]
pub enum InputEvent {
    DirectionKey(Direction),
    Other,
}

/// What one iteration of the external event loop delivered: a request to
/// render the frame, a press of some button, or neither. A single tick never
/// carries both a render and a press.
#[derive(Clone, Copy, PartialEq, Eq, Structural, Debug)]
pub enum Tick {
    Render,
    Press(InputEvent),
    Idle,
}

/// The position reached from `(x, y)` by routing one input event: a step for
/// a direction key, no change for anything else.
pub open spec fn pos_after_event(x: int, y: int, e: InputEvent) -> (int, int) {
    match e {
        InputEvent::DirectionKey(d) => pos_after(x, y, d),
        InputEvent::Other => (x, y),
    }
}

/// Whether routing the event from position `p` stays within the
/// representable coordinate range.
pub open spec fn event_fits(p: Position, e: InputEvent) -> bool {
    match e {
        InputEvent::DirectionKey(d) => step_fits(p, d),
        InputEvent::Other => true,
    }
}

/// Whether dispatching the tick from position `p` stays within the
/// representable coordinate range.
pub open spec fn tick_fits(p: Position, t: Tick) -> bool {
    match t {
        Tick::Press(e) => event_fits(p, e),
        _ => true,
    }
}

/// The draw plan of one frame for an actor standing at `(x, y)`: clear the
/// frame to green, then draw the actor's red square — in that order.
pub open spec fn frame_plan(x: i64, y: i64) -> Seq<DrawCommand> {
    seq![
        DrawCommand::Clear(Color::Green),
        DrawCommand::FillSquare { color: Color::Red, x: x, y: y, side: ACTOR_SIDE },
    ]
}

/// The orchestrator: owns the viewport (immutable after construction) and
/// the actor (mutated only by routed input). It has no state machine of its
/// own beyond the actor's position.
#[derive(Clone, Copy, PartialEq, Eq, Structural, Debug)]
pub struct Stage {
    pub viewport: ViewPort,
    pub actor: Actor,
}

impl Stage {
    /// A stage for the given viewport, with the actor placed at the
    /// viewport's geometric center (integer halves of the dimensions). This
    /// is the only place the viewport is consulted.
    pub fn new(viewport: ViewPort) -> (s: Stage)
        ensures
            s.viewport == viewport,
            s.actor.position.x == viewport.width as int / 2,
            s.actor.position.y == viewport.height as int / 2,
    {
        let x = (viewport.width / 2) as i64;
        let y = (viewport.height / 2) as i64;
        Stage { viewport, actor: Actor::new(Position { x, y }) }
    }

    /// The frame's draw plan: clear to green first, then the actor's square,
    /// delegated to the actor itself. Rendering never changes the stored
    /// state, however often it is called.
    pub fn render(&mut self) -> (plan: Vec<DrawCommand>)
        ensures
            *final(self) == *old(self),
            plan@ == frame_plan(old(self).actor.position.x, old(self).actor.position.y),
    {
        let mut plan: Vec<DrawCommand> = Vec::new();
        plan.push(DrawCommand::Clear(Color::Green));
        let sprite = self.actor.render();
        plan.push(sprite);
        proof {
            assert(plan@ =~= frame_plan(old(self).actor.position.x, old(self).actor.position.y));
        }
        plan
    }

    /// Routes one classified input event: a direction key moves the actor
    /// one step along its axis, any other event is silently ignored and
    /// changes nothing. The viewport is never touched.
    pub fn update(&mut self, event: &InputEvent)
        requires
            event_fits(old(self).actor.position, *event),
        ensures
            final(self).viewport == old(self).viewport,
            final(self).actor.position.x as int == pos_after_event(
                old(self).actor.position.x as int,
                old(self).actor.position.y as int,
                *event,
            ).0,
            final(self).actor.position.y as int == pos_after_event(
                old(self).actor.position.x as int,
                old(self).actor.position.y as int,
                *event,
            ).1,
            *event is Other ==> *final(self) == *old(self),
    {
        match event {
            InputEvent::DirectionKey(d) => self.actor.step(*d),
            InputEvent::Other => {},
        }
    }

    /// Dispatches one tick of the external loop: a render tick yields the
    /// frame's draw plan and leaves the state alone; a press tick routes the
    /// event to the actor and yields no plan; an idle tick — one that is
    /// neither render nor press — invokes nothing: no plan, no change.
    pub fn tick(&mut self, t: &Tick) -> (plan: Option<Vec<DrawCommand>>)
        requires
            tick_fits(old(self).actor.position, *t),
        ensures
            final(self).viewport == old(self).viewport,
            match *t {
                Tick::Render => {
                    &&& *final(self) == *old(self)
                    &&& match plan {
                        Option::Some(cmds) => cmds@ == frame_plan(
                            old(self).actor.position.x,
                            old(self).actor.position.y,
                        ),
                        Option::None => false,
                    }
                },
                Tick::Press(e) => {
                    &&& plan is None
                    &&& final(self).actor.position.x as int == pos_after_event(
                        old(self).actor.position.x as int,
                        old(self).actor.position.y as int,
                        e,
                    ).0
                    &&& final(self).actor.position.y as int == pos_after_event(
                        old(self).actor.position.x as int,
                        old(self).actor.position.y as int,
                        e,
                    ).1
                },
                Tick::Idle => {
                    &&& plan is None
                    &&& *final(self) == *old(self)
                },
            },
    {
        match t {
            Tick::Render => Some(self.render()),
            Tick::Press(e) => {
                self.update(e);
                None
            },
            Tick::Idle => None,
        }
    }
}

} // verus!
