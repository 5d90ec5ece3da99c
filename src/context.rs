//! The context: everything the framework keeps between frames.

use vstd::prelude::*;

use crate::graphics::{FilterMode, Texture, DrawParams};
use crate::platform::{GraphicsDevice, Window};

verus! {

/// The state of the graphics module.
#[derive(Debug, Clone, Copy, PartialEq, Eq, Structural)]
pub struct GraphicsContext {
    /// The filter mode that new textures and canvases are created with.
    pub default_filter_mode: FilterMode,
}

/// The framework's state: the window, the graphics device and the game loop's flag.
#[derive(Debug)]
pub struct Context {
    /// Whether the game loop goes on after the current cycle.
    pub running: bool,
    pub window: Window,
    pub device: GraphicsDevice,
    pub graphics: GraphicsContext,
}

impl Context {
    /// Creates a running context over a window and a device, with linear filtering as
    /// the default.
    pub fn new(window: Window, device: GraphicsDevice) -> (r: Context)
        ensures
            r.running,
            r.window == window,
            r.device == device,
            r.graphics.default_filter_mode == FilterMode::Linear,
    {
        Context {
            running: true,
            window,
            device,
            graphics: GraphicsContext { default_filter_mode: FilterMode::Linear },
        }
    }

    /// `post` is `self` after a draw of the texture `texture` with `params`.
    pub open spec fn draws(&self, post: Context, texture: Texture, params: DrawParams) -> bool {
        &&& post.running == self.running
        &&& post.window == self.window
        &&& post.graphics == self.graphics
        &&& self.device.records(post.device, texture.handle, texture.filter_mode, params)
    }

    /// `post` is `self` with `bound` as the active render target.
    pub open spec fn binds(&self, post: Context, bound: Option<usize>) -> bool {
        &&& post.running == self.running
        &&& post.window == self.window
        &&& post.graphics == self.graphics
        &&& self.device.binds(post.device, bound)
    }
}

} // verus!
