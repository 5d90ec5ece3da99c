//! The platform layer: a software graphics device and the state of the game window.
//!
//! The device keeps an arena of texture images and framebuffers, addressed by stable
//! handles, and records each draw call against the render target that was active when it
//! was issued. The output of a render target is the sequence of draw calls it received.

use vstd::prelude::*;

use crate::error::TetraError;
use crate::graphics::{DrawParams, FilterMode};

verus! {

/// The device's record of a texture image.
#[derive(Debug, Clone, Copy, PartialEq, Eq, Structural)]
pub struct TextureData {
    pub width: i32,
    pub height: i32,
    pub filter_mode: FilterMode,
}

/// A framebuffer: an image of the device used as a render attachment.
#[derive(Debug, Clone, Copy, PartialEq, Eq, Structural)]
pub struct RawFramebuffer {
    /// The handle of the texture image that is the colour attachment.
    pub attachment: usize,
    pub has_depth_buffer: bool,
}

/// One draw call, as received by a render target.
#[derive(Debug, Clone, Copy, PartialEq, Eq, Structural)]
pub struct DrawCommand {
    /// The framebuffer that was bound, or `None` for the window's backbuffer.
    pub target: Option<usize>,
    /// The handle of the texture image that was drawn.
    pub texture: usize,
    /// The filter mode that the texture was sampled with.
    pub filter_mode: FilterMode,
    pub params: DrawParams,
}

/// The draw calls of `cmds` that went to `target`, in the order they were issued.
pub open spec fn commands_on(cmds: Seq<DrawCommand>, target: Option<usize>) -> Seq<DrawCommand>
    decreases cmds.len(),
{
    if cmds.len() == 0 {
        Seq::empty()
    } else {
        let rest = commands_on(cmds.drop_last(), target);
        if cmds.last().target == target {
            rest.push(cmds.last())
        } else {
            rest
        }
    }
}

/// A software graphics device.
#[derive(Debug)]
pub struct GraphicsDevice {
    /// The largest width or height that a texture may have.
    pub max_texture_size: i32,
    pub textures: Vec<TextureData>,
    pub framebuffers: Vec<RawFramebuffer>,
    /// The framebuffer that draw calls go to, or `None` for the window's backbuffer.
    pub bound: Option<usize>,
    /// Every draw call received so far, in order.
    pub commands: Vec<DrawCommand>,
}

impl GraphicsDevice {
    /// Whether the device can allocate a texture of the given size.
    pub open spec fn accepts_size(&self, width: i32, height: i32) -> bool {
        0 < width <= self.max_texture_size && 0 < height <= self.max_texture_size
    }

    /// The message of the error raised for a texture of a size the device rejects.
    pub open spec fn texture_size_error(width: i32, height: i32) -> Seq<char> {
        if width <= 0 || height <= 0 {
            "texture dimensions must be positive"@
        } else {
            "texture dimensions exceed the device limit"@
        }
    }

    /// The message of the error raised for a handle that names no texture.
    pub open spec fn no_such_texture_error() -> Seq<char> {
        "no such texture"@
    }

    /// The output of a render target: the draw calls it received.
    pub open spec fn output(&self, target: Option<usize>) -> Seq<DrawCommand> {
        commands_on(self.commands@, target)
    }

    /// What a render target shows: for each draw call it received, the record of the
    /// image drawn, the filter mode it was sampled with and the draw's parameters.
    pub open spec fn rendered(&self, target: Option<usize>) -> Seq<
        (TextureData, FilterMode, DrawParams),
    > {
        self.output(target).map_values(
            |c: DrawCommand| (self.textures@[c.texture as int], c.filter_mode, c.params),
        )
    }

    /// `post` is `self` with the framebuffer `bound` as the active render target.
    pub open spec fn binds(&self, post: GraphicsDevice, bound: Option<usize>) -> bool {
        &&& post.max_texture_size == self.max_texture_size
        &&& post.textures@ == self.textures@
        &&& post.framebuffers@ == self.framebuffers@
        &&& post.commands@ == self.commands@
        &&& post.bound == bound
    }

    /// `post` is `self` after a draw call of the texture image `texture`.
    pub open spec fn records(
        &self,
        post: GraphicsDevice,
        texture: usize,
        filter_mode: FilterMode,
        params: DrawParams,
    ) -> bool {
        &&& post.max_texture_size == self.max_texture_size
        &&& post.textures@ == self.textures@
        &&& post.framebuffers@ == self.framebuffers@
        &&& post.bound == self.bound
        &&& post.commands@ == self.commands@.push(
            DrawCommand { target: self.bound, texture, filter_mode, params },
        )
    }

    /// Creates a device with no resources, drawing to the window's backbuffer.
    pub fn new(max_texture_size: i32) -> (r: GraphicsDevice)
        ensures
            r.max_texture_size == max_texture_size,
            r.textures@.len() == 0,
            r.framebuffers@.len() == 0,
            r.bound is None,
            r.commands@.len() == 0,
    {
        GraphicsDevice {
            max_texture_size,
            textures: Vec::new(),
            framebuffers: Vec::new(),
            bound: None,
            commands: Vec::new(),
        }
    }

    /// Allocates an empty texture image and returns its handle.
    ///
    /// Fails with a platform error where a dimension is not positive or exceeds the
    /// device's limit.
    pub fn new_texture_empty(&mut self, width: i32, height: i32, filter_mode: FilterMode) -> (r:
        Result<usize, TetraError>)
        ensures
            r is Ok <==> old(self).accepts_size(width, height),
            r is Err ==> *final(self) == *old(self),
            r matches Err(e) ==> e.is_platform_error(
                GraphicsDevice::texture_size_error(width, height),
            ),
            r matches Ok(handle) ==> {
                &&& handle == old(self).textures@.len()
                &&& final(self).textures@ == old(self).textures@.push(
                    TextureData { width, height, filter_mode },
                )
                &&& final(self).max_texture_size == old(self).max_texture_size
                &&& final(self).framebuffers@ == old(self).framebuffers@
                &&& final(self).bound == old(self).bound
                &&& final(self).commands@ == old(self).commands@
            },
    {
        if width <= 0 || height <= 0 {
            return Err(TetraError::PlatformError("texture dimensions must be positive".to_owned()));
        }
        if width > self.max_texture_size || height > self.max_texture_size {
            return Err(
                TetraError::PlatformError("texture dimensions exceed the device limit".to_owned()),
            );
        }
        let handle = self.textures.len();
        self.textures.push(TextureData { width, height, filter_mode });
        Ok(handle)
    }

    /// Wraps the texture image `texture` as a render attachment and returns the new
    /// framebuffer's handle.
    ///
    /// Fails with a platform error where `texture` is no texture of this device.
    pub fn new_framebuffer(&mut self, texture: usize, has_depth_buffer: bool) -> (r: Result<
        usize,
        TetraError,
    >)
        ensures
            r is Ok <==> texture < old(self).textures@.len(),
            r is Err ==> *final(self) == *old(self),
            r matches Err(e) ==> e.is_platform_error(GraphicsDevice::no_such_texture_error()),
            r matches Ok(handle) ==> {
                &&& handle == old(self).framebuffers@.len()
                &&& final(self).framebuffers@ == old(self).framebuffers@.push(
                    RawFramebuffer { attachment: texture, has_depth_buffer },
                )
                &&& final(self).max_texture_size == old(self).max_texture_size
                &&& final(self).textures@ == old(self).textures@
                &&& final(self).bound == old(self).bound
                &&& final(self).commands@ == old(self).commands@
            },
    {
        if texture >= self.textures.len() {
            return Err(TetraError::PlatformError("no such texture".to_owned()));
        }
        let handle = self.framebuffers.len();
        self.framebuffers.push(RawFramebuffer { attachment: texture, has_depth_buffer });
        Ok(handle)
    }

    /// Sets the filter mode that the texture image `texture` is sampled with; a handle
    /// that names no texture of this device changes nothing.
    pub fn set_texture_filter_mode(&mut self, texture: usize, filter_mode: FilterMode)
        ensures
            texture < old(self).textures@.len() ==> final(self).textures@ == old(
                self,
            ).textures@.update(
                texture as int,
                (TextureData { filter_mode, ..old(self).textures@[texture as int] }),
            ),
            texture >= old(self).textures@.len() ==> final(self).textures@ == old(self).textures@,
            final(self).max_texture_size == old(self).max_texture_size,
            final(self).framebuffers@ == old(self).framebuffers@,
            final(self).bound == old(self).bound,
            final(self).commands@ == old(self).commands@,
    {
        if texture < self.textures.len() {
            let data = self.textures[texture];
            self.textures[texture] = TextureData { filter_mode, ..data };
        }
    }

    /// Makes the framebuffer `framebuffer` the active render target, or the window's
    /// backbuffer for `None`.
    pub fn bind_framebuffer(&mut self, framebuffer: Option<usize>)
        ensures
            old(self).binds(*final(self), framebuffer),
    {
        self.bound = framebuffer;
    }

    /// Issues a draw call of the texture image `texture` to the active render target.
    pub fn draw(&mut self, texture: usize, filter_mode: FilterMode, params: DrawParams)
        ensures
            old(self).records(*final(self), texture, filter_mode, params),
    {
        self.commands.push(DrawCommand { target: self.bound, texture, filter_mode, params });
    }
}

/// A display connected to the device.
#[derive(Debug)]
pub struct Monitor {
    pub name: String,
    pub width: i32,
    pub height: i32,
}

impl Monitor {
    /// Describes a monitor of the given name and size.
    pub fn new(name: &str, width: i32, height: i32) -> (r: Monitor)
        ensures
            r.name@ == name@,
            r.width == width,
            r.height == height,
    {
        Monitor { name: name.to_owned(), width, height }
    }
}

/// The state of the game window and of the displays around it.
#[derive(Debug)]
pub struct Window {
    pub title: String,
    pub width: i32,
    pub height: i32,
    pub vsync: bool,
    pub fullscreen: bool,
    pub mouse_visible: bool,
    /// The monitors connected to the device, by index.
    pub monitors: Vec<Monitor>,
    /// The index of the monitor that the window is on; out of range where that cannot
    /// be determined.
    pub current_monitor: i32,
}

impl Window {
    /// Creates a windowed, vsynced window with a hidden cursor.
    pub fn new(
        title: &str,
        width: i32,
        height: i32,
        monitors: Vec<Monitor>,
        current_monitor: i32,
    ) -> (r: Window)
        ensures
            r.title@ == title@,
            r.width == width,
            r.height == height,
            r.vsync,
            !r.fullscreen,
            !r.mouse_visible,
            r.monitors@ == monitors@,
            r.current_monitor == current_monitor,
    {
        Window {
            title: title.to_owned(),
            width,
            height,
            vsync: true,
            fullscreen: false,
            mouse_visible: false,
            monitors,
            current_monitor,
        }
    }
}

} // verus!
