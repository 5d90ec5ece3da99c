//! A 2D game framework core: render targets, textures, drawing and window state.

pub mod context;
pub mod error;
pub mod graphics;
pub mod lifecycle;
pub mod platform;
pub mod window;

pub use context::Context;
pub use error::TetraError;
pub use lifecycle::{Event, State};
