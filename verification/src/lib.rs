//! A minimal interactive visual demo: a fixed-size viewport shows one movable
//! actor (a colored square) that responds to directional key presses and is
//! redrawn every frame by an externally driven event loop.
//!
//! This crate holds the verified core: the state-and-event model of the demo.
//! The [`stage::Stage`] owns a [`geometry::ViewPort`] and an [`actor::Actor`];
//! it routes input events to the actor and turns each render tick into an
//! ordered plan of [`draw::DrawCommand`]s. The windowing system, the graphics
//! backend and the event-loop driver are external collaborators: they feed
//! events in and carry the draw plan out, and no decision of theirs lives
//! here.

pub mod actor;
pub mod draw;
pub mod geometry;
pub mod stage;
