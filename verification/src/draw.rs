//! The vocabulary of drawing requests the core hands to the graphics
//! backend. The core never draws itself: a render tick produces an ordered
//! plan of commands, and the backend executes them, first to last.

use vstd::prelude::*;

verus! {

/// A color from the demo's fixed palette: green for the cleared background,
/// red for the actor. The backend maps each to its own color representation.
#[derive(Clone, Copy, PartialEq, Eq, Structural, Debug)]
pub enum Color {
    Green,
    Red,
}

/// One drawing primitive, to be executed by the graphics backend within the
/// current frame.
#[derive(Clone, Copy, PartialEq, Eq, Structural, Debug)]
pub enum DrawCommand {
    /// Fill the whole frame with the color.
    Clear(Color),
    /// Fill the axis-aligned square of the given side length whose top-left
    /// corner sits at `(x, y)`, in viewport units.
    FillSquare { color: Color, x: i64, y: i64, side: u64 },
}

} // verus!
