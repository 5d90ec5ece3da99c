//! The callbacks through which a running game is driven, once per frame.

use vstd::prelude::*;

use crate::context::Context;
use crate::error::TetraError;

verus! {

/// Something that happened to the game between frames.
#[derive(Debug, Clone, Copy, PartialEq, Eq, Structural)]
pub enum Event {
    /// The window was resized to the given size, in pixels.
    Resized { width: i32, height: i32 },
}

/// A game's state, driven by the game loop: `update`, then `draw`, then `event` for each
/// event of the frame. An error ends the loop and is handed to the caller.
pub trait State {
    /// Advances the game by one frame.
    fn update(&mut self, ctx: &mut Context) -> Result<(), TetraError>;

    /// Draws the current frame.
    fn draw(&mut self, ctx: &mut Context) -> Result<(), TetraError>;

    /// Reacts to an event.
    fn event(&mut self, ctx: &mut Context, event: Event) -> Result<(), TetraError>;
}

} // verus!
