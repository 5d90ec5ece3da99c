//! Textures, draw parameters, the drawable capability and render-target binding.

use vstd::prelude::*;

use crate::context::Context;
use crate::error::TetraError;
use crate::platform::{GraphicsDevice, TextureData, commands_on, DrawCommand};

mod canvas;

pub use canvas::Canvas;

verus! {

/// How a texture is sampled when it is scaled.
#[derive(Debug, Clone, Copy, PartialEq, Eq, Structural)]
pub enum FilterMode {
    /// Nearest-neighbour sampling.
    Nearest,
    /// Linear interpolation.
    Linear,
}

/// A point or an offset in two dimensions.
#[derive(Debug, Clone, Copy, PartialEq, Eq, Structural)]
pub struct Vec2 {
    pub x: i32,
    pub y: i32,
}

/// A colour, as red, green, blue and alpha channels.
#[derive(Debug, Clone, Copy, PartialEq, Eq, Structural)]
pub struct Color {
    pub r: u8,
    pub g: u8,
    pub b: u8,
    pub a: u8,
}

/// Per-call parameters of a draw: where, how large, how turned and how tinted.
#[derive(Debug, Clone, Copy, PartialEq, Eq, Structural)]
pub struct DrawParams {
    /// Where the origin is placed, in pixels.
    pub position: Vec2,
    /// The point of the drawn image that is placed at `position`, rotated and scaled about.
    pub origin: Vec2,
    /// The scale factor on each axis.
    pub scale: Vec2,
    /// The rotation, in degrees.
    pub rotation: i32,
    /// The tint, applied to each pixel.
    pub color: Color,
}

impl DrawParams {
    /// Parameters that draw an image as it is: at the origin, unscaled, unrotated, untinted.
    pub fn new() -> (r: DrawParams)
        ensures
            r == (DrawParams {
                position: Vec2 { x: 0, y: 0 },
                origin: Vec2 { x: 0, y: 0 },
                scale: Vec2 { x: 1, y: 1 },
                rotation: 0,
                color: Color { r: 255, g: 255, b: 255, a: 255 },
            }),
    {
        DrawParams {
            position: Vec2 { x: 0, y: 0 },
            origin: Vec2 { x: 0, y: 0 },
            scale: Vec2 { x: 1, y: 1 },
            rotation: 0,
            color: Color { r: 255, g: 255, b: 255, a: 255 },
        }
    }

    /// Sets where the image is drawn.
    pub fn position(self, position: Vec2) -> (r: DrawParams)
        ensures
            r == (DrawParams { position, ..self }),
    {
        DrawParams { position, ..self }
    }

    /// Sets the point of the image that is placed at the position.
    pub fn origin(self, origin: Vec2) -> (r: DrawParams)
        ensures
            r == (DrawParams { origin, ..self }),
    {
        DrawParams { origin, ..self }
    }

    /// Sets the scale factor on each axis.
    pub fn scale(self, scale: Vec2) -> (r: DrawParams)
        ensures
            r == (DrawParams { scale, ..self }),
    {
        DrawParams { scale, ..self }
    }

    /// Sets the rotation, in degrees.
    pub fn rotation(self, rotation: i32) -> (r: DrawParams)
        ensures
            r == (DrawParams { rotation, ..self }),
    {
        DrawParams { rotation, ..self }
    }

    /// Sets the tint.
    pub fn color(self, color: Color) -> (r: DrawParams)
        ensures
            r == (DrawParams { color, ..self }),
    {
        DrawParams { color, ..self }
    }
}

/// A texture: an image of the graphics device, with its size and sampling mode.
#[derive(Debug, Clone, Copy, PartialEq, Eq, Structural)]
pub struct Texture {
    /// The device's handle of the image.
    pub handle: usize,
    pub width: i32,
    pub height: i32,
    pub filter_mode: FilterMode,
}

impl Texture {
    /// The texture's image belongs to `device` and has the texture's size there.
    pub open spec fn wf(&self, device: GraphicsDevice) -> bool {
        &&& self.handle < device.textures@.len()
        &&& device.textures@[self.handle as int].width == self.width
        &&& device.textures@[self.handle as int].height == self.height
    }

    /// Allocates an empty texture of the given size on `device`.
    ///
    /// Fails with a platform error where the device cannot allocate an image of that size.
    pub(crate) fn with_device_empty(
        device: &mut GraphicsDevice,
        width: i32,
        height: i32,
        filter_mode: FilterMode,
    ) -> (r: Result<Texture, TetraError>)
        ensures
            r is Ok <==> old(device).accepts_size(width, height),
            r is Err ==> *final(device) == *old(device),
            r matches Err(e) ==> e.is_platform_error(
                GraphicsDevice::texture_size_error(width, height),
            ),
            r matches Ok(t) ==> {
                &&& t.handle == old(device).textures@.len()
                &&& t.width == width
                &&& t.height == height
                &&& t.filter_mode == filter_mode
                &&& final(device).textures@ == old(device).textures@.push(
                    TextureData { width, height, filter_mode },
                )
                &&& final(device).max_texture_size == old(device).max_texture_size
                &&& final(device).framebuffers@ == old(device).framebuffers@
                &&& final(device).bound == old(device).bound
                &&& final(device).commands@ == old(device).commands@
            },
    {
        let handle = device.new_texture_empty(width, height, filter_mode)?;
        Ok(Texture { handle, width, height, filter_mode })
    }

    /// Returns the width of the texture.
    pub fn width(&self) -> (r: i32)
        ensures
            r == self.width,
    {
        self.width
    }

    /// Returns the height of the texture.
    pub fn height(&self) -> (r: i32)
        ensures
            r == self.height,
    {
        self.height
    }

    /// Returns the size of the texture.
    pub fn size(&self) -> (r: (i32, i32))
        ensures
            r == (self.width, self.height),
    {
        (self.width, self.height)
    }

    /// Returns the filter mode the texture is sampled with.
    pub fn filter_mode(&self) -> (r: FilterMode)
        ensures
            r == self.filter_mode,
    {
        self.filter_mode
    }

    /// Sets the filter mode the texture is sampled with. Draws issued before keep the
    /// mode they were issued with.
    pub fn set_filter_mode(&mut self, ctx: &mut Context, filter_mode: FilterMode)
        ensures
            *final(self) == (Texture { filter_mode, ..*old(self) }),
            old(self).wf(old(ctx).device) ==> final(self).wf(final(ctx).device),
            old(self).handle < old(ctx).device.textures@.len()
                ==> final(ctx).device.textures@ == old(ctx).device.textures@.update(
                old(self).handle as int,
                (TextureData {
                    filter_mode,
                    ..old(ctx).device.textures@[old(self).handle as int]
                }),
            ),
            old(self).handle >= old(ctx).device.textures@.len() ==> final(ctx).device.textures@
                == old(ctx).device.textures@,
            final(ctx).running == old(ctx).running,
            final(ctx).window == old(ctx).window,
            final(ctx).graphics == old(ctx).graphics,
            final(ctx).device.max_texture_size == old(ctx).device.max_texture_size,
            final(ctx).device.framebuffers@ == old(ctx).device.framebuffers@,
            final(ctx).device.bound == old(ctx).device.bound,
            final(ctx).device.commands@ == old(ctx).device.commands@,
    {
        ctx.device.set_texture_filter_mode(self.handle, filter_mode);
        self.filter_mode = filter_mode;
    }
}

/// Something that can be drawn: a texture, or a value that draws a texture's image.
pub trait Drawable {
    /// The texture whose image a draw of this value samples.
    spec fn source(&self) -> Texture;

    /// Draws to the active render target; the value itself is not changed and
    /// `params` is not kept.
    fn draw(&self, ctx: &mut Context, params: DrawParams)
        ensures
            old(ctx).draws(*final(ctx), self.source(), params),
    ;
}

impl Drawable for Texture {
    open spec fn source(&self) -> Texture {
        *self
    }

    fn draw(&self, ctx: &mut Context, params: DrawParams) {
        ctx.device.draw(self.handle, self.filter_mode, params);
    }
}

/// Draws `drawable` to the active render target.
pub fn draw<D: Drawable>(ctx: &mut Context, drawable: &D, params: DrawParams)
    ensures
        old(ctx).draws(*final(ctx), drawable.source(), params),
{
    drawable.draw(ctx, params);
}

/// Redirects the draws that follow to `canvas`, until the target is reset.
pub fn set_canvas(ctx: &mut Context, canvas: &Canvas)
    ensures
        old(ctx).binds(*final(ctx), Some(canvas.framebuffer)),
{
    ctx.device.bind_framebuffer(Some(canvas.framebuffer));
}

/// Sends the draws that follow to the window's backbuffer again.
pub fn reset_canvas(ctx: &mut Context)
    ensures
        old(ctx).binds(*final(ctx), None),
{
    ctx.device.bind_framebuffer(None);
}

/// Appending a draw call adds it to the output of its own target and to no other.
pub proof fn lemma_commands_on_push(cmds: Seq<DrawCommand>, cmd: DrawCommand, target: Option<usize>)
    ensures
        commands_on(cmds.push(cmd), target) == if cmd.target == target {
            commands_on(cmds, target).push(cmd)
        } else {
            commands_on(cmds, target)
        },
{
    assert(cmds.push(cmd).drop_last() == cmds);
}

/// A draw changes the output of the active render target only.
pub proof fn lemma_draw_keeps_other_targets(
    pre: Context,
    post: Context,
    source: Texture,
    params: DrawParams,
    target: Option<usize>,
)
    requires
        pre.draws(post, source, params),
        pre.device.bound != target,
    ensures
        post.device.output(target) == pre.device.output(target),
{
    lemma_commands_on_push(
        pre.device.commands@,
        DrawCommand {
            target: pre.device.bound,
            texture: source.handle,
            filter_mode: source.filter_mode,
            params,
        },
        target,
    );
}

/// Drawing two values whose images the devices record alike (same size, same sampling),
/// with the same parameters, onto targets that showed the same thing, leaves the targets
/// showing the same thing: a canvas and a texture are interchangeable as drawables.
pub proof fn lemma_like_images_draw_alike<A: Drawable, B: Drawable>(
    a: A,
    b: B,
    pre_a: Context,
    post_a: Context,
    pre_b: Context,
    post_b: Context,
    params: DrawParams,
)
    requires
        pre_a.draws(post_a, a.source(), params),
        pre_b.draws(post_b, b.source(), params),
        a.source().wf(pre_a.device),
        b.source().wf(pre_b.device),
        pre_a.device.textures@[a.source().handle as int] == pre_b.device.textures@[b.source().handle as int],
        a.source().filter_mode == b.source().filter_mode,
        pre_a.device.rendered(pre_a.device.bound) == pre_b.device.rendered(pre_b.device.bound),
    ensures
        post_a.device.rendered(post_a.device.bound) == post_b.device.rendered(
            post_b.device.bound,
        ),
{
    let da = pre_a.device;
    let db = pre_b.device;
    let ca = DrawCommand {
        target: da.bound,
        texture: a.source().handle,
        filter_mode: a.source().filter_mode,
        params,
    };
    let cb = DrawCommand {
        target: db.bound,
        texture: b.source().handle,
        filter_mode: b.source().filter_mode,
        params,
    };
    lemma_commands_on_push(da.commands@, ca, da.bound);
    lemma_commands_on_push(db.commands@, cb, db.bound);
    let fa = |c: DrawCommand| (da.textures@[c.texture as int], c.filter_mode, c.params);
    let fb = |c: DrawCommand| (db.textures@[c.texture as int], c.filter_mode, c.params);
    assert(post_a.device.rendered(post_a.device.bound) =~= da.rendered(da.bound).push(fa(ca)));
    assert(post_b.device.rendered(post_b.device.bound) =~= db.rendered(db.bound).push(fb(cb)));
}

/// Setting a canvas as the render target, drawing, and resetting the target leaves the
/// window's backbuffer as it was: the draw reaches the canvas alone.
pub proof fn lemma_canvas_target_isolates_backbuffer(
    start: Context,
    bound: Context,
    drawn: Context,
    reset: Context,
    canvas: Canvas,
    source: Texture,
    params: DrawParams,
)
    requires
        start.binds(bound, Some(canvas.framebuffer)),
        bound.draws(drawn, source, params),
        drawn.binds(reset, None),
    ensures
        reset.device.bound is None,
        reset.device.output(None) == start.device.output(None),
        reset.device.output(Some(canvas.framebuffer)) == start.device.output(
            Some(canvas.framebuffer),
        ).push(
            DrawCommand {
                target: Some(canvas.framebuffer),
                texture: source.handle,
                filter_mode: source.filter_mode,
                params,
            },
        ),
{
    let cmd = DrawCommand {
        target: Some(canvas.framebuffer),
        texture: source.handle,
        filter_mode: source.filter_mode,
        params,
    };
    lemma_commands_on_push(bound.device.commands@, cmd, None);
    lemma_commands_on_push(bound.device.commands@, cmd, Some(canvas.framebuffer));
}

/// Returns the filter mode that new textures and canvases are created with.
pub fn get_default_filter_mode(ctx: &Context) -> (r: FilterMode)
    ensures
        r == ctx.graphics.default_filter_mode,
{
    ctx.graphics.default_filter_mode
}

/// Sets the filter mode that new textures and canvases are created with.
pub fn set_default_filter_mode(ctx: &mut Context, filter_mode: FilterMode)
    ensures
        final(ctx).graphics.default_filter_mode == filter_mode,
        final(ctx).running == old(ctx).running,
        final(ctx).window == old(ctx).window,
        final(ctx).device == old(ctx).device,
{
    ctx.graphics.default_filter_mode = filter_mode;
}

} // verus!
