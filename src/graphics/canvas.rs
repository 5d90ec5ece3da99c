//! Canvases: textures that can be drawn to.

use vstd::prelude::*;

use crate::context::Context;
use crate::error::TetraError;
use crate::graphics::{DrawParams, Drawable, FilterMode, Texture};
use crate::platform::{GraphicsDevice, RawFramebuffer, TextureData};

verus! {

/// A texture that can be used as a render target for off-screen rendering.
///
/// Creating a canvas allocates device resources: make one up front and keep it, rather
/// than making one each frame.
#[derive(Debug, Clone, Copy, PartialEq, Eq, Structural)]
pub struct Canvas {
    /// The backing texture.
    pub texture: Texture,
    /// The device's handle of the framebuffer whose colour attachment is the texture's image.
    pub framebuffer: usize,
}

impl Canvas {
    /// The canvas's texture and framebuffer belong to `device` and refer to one image.
    pub open spec fn wf(&self, device: GraphicsDevice) -> bool {
        &&& self.texture.wf(device)
        &&& self.framebuffer < device.framebuffers@.len()
        &&& device.framebuffers@[self.framebuffer as int].attachment == self.texture.handle
    }

    /// `self` was allocated on `pre`, giving `post`: a new image of size `width` by
    /// `height` sampled with `filter_mode`, and a new framebuffer with a depth buffer
    /// around it.
    pub open spec fn allocated(
        &self,
        pre: GraphicsDevice,
        post: GraphicsDevice,
        width: i32,
        height: i32,
        filter_mode: FilterMode,
    ) -> bool {
        &&& self.texture.handle == pre.textures@.len()
        &&& self.texture.width == width
        &&& self.texture.height == height
        &&& self.texture.filter_mode == filter_mode
        &&& self.framebuffer == pre.framebuffers@.len()
        &&& post.textures@ == pre.textures@.push(TextureData { width, height, filter_mode })
        &&& post.framebuffers@ == pre.framebuffers@.push(
            RawFramebuffer { attachment: self.texture.handle, has_depth_buffer: true },
        )
        &&& post.max_texture_size == pre.max_texture_size
        &&& post.bound == pre.bound
        &&& post.commands@ == pre.commands@
    }

    /// Creates a canvas of the given size, sampled with the context's default filter mode.
    ///
    /// Fails with a platform error where the device cannot allocate an image of that size;
    /// the context is then unchanged.
    pub fn new(ctx: &mut Context, width: i32, height: i32) -> (r: Result<Canvas, TetraError>)
        ensures
            r is Ok <==> old(ctx).device.accepts_size(width, height),
            r is Err ==> *final(ctx) == *old(ctx),
            r matches Err(e) ==> e.is_platform_error(
                GraphicsDevice::texture_size_error(width, height),
            ),
            r matches Ok(c) ==> {
                &&& c.allocated(
                    old(ctx).device,
                    final(ctx).device,
                    width,
                    height,
                    old(ctx).graphics.default_filter_mode,
                )
                &&& final(ctx).running == old(ctx).running
                &&& final(ctx).window == old(ctx).window
                &&& final(ctx).graphics == old(ctx).graphics
            },
    {
        let filter_mode = ctx.graphics.default_filter_mode;
        Canvas::with_device(&mut ctx.device, width, height, filter_mode)
    }

    /// Creates a canvas of the given size on `device`.
    pub(crate) fn with_device(
        device: &mut GraphicsDevice,
        width: i32,
        height: i32,
        filter_mode: FilterMode,
    ) -> (r: Result<Canvas, TetraError>)
        ensures
            r is Ok <==> old(device).accepts_size(width, height),
            r is Err ==> *final(device) == *old(device),
            r matches Err(e) ==> e.is_platform_error(
                GraphicsDevice::texture_size_error(width, height),
            ),
            r matches Ok(c) ==> c.allocated(
                *old(device),
                *final(device),
                width,
                height,
                filter_mode,
            ),
    {
        let texture = Texture::with_device_empty(device, width, height, filter_mode)?;
        let framebuffer = device.new_framebuffer(texture.handle, true)?;
        Ok(Canvas { texture, framebuffer })
    }

    /// Returns the width of the canvas.
    pub fn width(&self) -> (r: i32)
        ensures
            r == self.texture.width,
    {
        self.texture.width()
    }

    /// Returns the height of the canvas.
    pub fn height(&self) -> (r: i32)
        ensures
            r == self.texture.height,
    {
        self.texture.height()
    }

    /// Returns the size of the canvas.
    pub fn size(&self) -> (r: (i32, i32))
        ensures
            r == (self.texture.width, self.texture.height),
    {
        self.texture.size()
    }

    /// Returns the filter mode the canvas is sampled with.
    pub fn filter_mode(&self) -> (r: FilterMode)
        ensures
            r == self.texture.filter_mode,
    {
        self.texture.filter_mode()
    }

    /// Sets the filter mode the canvas is sampled with, for the draws that follow.
    pub fn set_filter_mode(&mut self, ctx: &mut Context, filter_mode: FilterMode)
        ensures
            final(self).texture == (Texture { filter_mode, ..old(self).texture }),
            final(self).framebuffer == old(self).framebuffer,
            old(self).wf(old(ctx).device) ==> final(self).wf(final(ctx).device),
            old(self).texture.handle < old(ctx).device.textures@.len()
                ==> final(ctx).device.textures@ == old(ctx).device.textures@.update(
                old(self).texture.handle as int,
                (TextureData {
                    filter_mode,
                    ..old(ctx).device.textures@[old(self).texture.handle as int]
                }),
            ),
            old(self).texture.handle >= old(ctx).device.textures@.len()
                ==> final(ctx).device.textures@ == old(ctx).device.textures@,
            final(ctx).running == old(ctx).running,
            final(ctx).window == old(ctx).window,
            final(ctx).graphics == old(ctx).graphics,
            final(ctx).device.max_texture_size == old(ctx).device.max_texture_size,
            final(ctx).device.framebuffers@ == old(ctx).device.framebuffers@,
            final(ctx).device.bound == old(ctx).device.bound,
            final(ctx).device.commands@ == old(ctx).device.commands@,
    {
        self.texture.set_filter_mode(ctx, filter_mode);
    }

    /// Returns the canvas's backing texture.
    pub fn texture(&self) -> (r: &Texture)
        ensures
            *r == self.texture,
    {
        &self.texture
    }
}

/// A canvas allocated with a positive width and height has exactly that size, and its
/// texture and framebuffer belong to the device and refer to one image.
pub proof fn lemma_allocated_canvas_size(
    canvas: Canvas,
    pre: GraphicsDevice,
    post: GraphicsDevice,
    width: i32,
    height: i32,
    filter_mode: FilterMode,
)
    requires
        canvas.allocated(pre, post, width, height, filter_mode),
        width > 0,
        height > 0,
    ensures
        (canvas.texture.width, canvas.texture.height) == (width, height),
        canvas.wf(post),
{
}

/// A canvas created on a context is sampled with the context's default filter mode of
/// that moment.
pub proof fn lemma_allocated_canvas_filter_mode(
    canvas: Canvas,
    pre: GraphicsDevice,
    post: GraphicsDevice,
    width: i32,
    height: i32,
    filter_mode: FilterMode,
)
    requires
        canvas.allocated(pre, post, width, height, filter_mode),
    ensures
        canvas.texture.filter_mode == filter_mode,
{
}

/// Drawing a canvas and drawing its texture with the same parameters from the same state
/// give the same output on every render target.
pub proof fn lemma_canvas_draws_as_its_texture(
    canvas: Canvas,
    pre: Context,
    after_canvas: Context,
    after_texture: Context,
    params: DrawParams,
)
    requires
        pre.draws(after_canvas, canvas.source(), params),
        pre.draws(after_texture, canvas.texture.source(), params),
    ensures
        canvas.source() == canvas.texture.source(),
        after_canvas.device.commands@ == after_texture.device.commands@,
        forall|target: Option<usize>|
            after_canvas.device.output(target) == after_texture.device.output(target),
{
}

impl Drawable for Canvas {
    open spec fn source(&self) -> Texture {
        self.texture
    }

    fn draw(&self, ctx: &mut Context, params: DrawParams) {
        self.texture.draw(ctx, params)
    }
}

} // verus!
