//! Functions on the game window and the environment it runs in.

use vstd::prelude::*;

use crate::context::Context;
use crate::error::TetraError;

verus! {

/// The largest number of monitors that can be counted in an `i32`.
pub const MAX_MONITORS: usize = 0x7fff_ffff;

/// `post` keeps `pre`'s game-loop flag, device, graphics state and monitors: at most the
/// window's own settings differ.
pub open spec fn keeps_all_but_window(pre: Context, post: Context) -> bool {
    &&& post.running == pre.running
    &&& post.device == pre.device
    &&& post.graphics == pre.graphics
    &&& post.window.monitors == pre.window.monitors
    &&& post.window.current_monitor == pre.window.current_monitor
}

/// `post` is `pre` with the window resized to `width` by `height`.
pub open spec fn resized(pre: Context, post: Context, width: i32, height: i32) -> bool {
    &&& keeps_all_but_window(pre, post)
    &&& post.window.title == pre.window.title
    &&& post.window.vsync == pre.window.vsync
    &&& post.window.fullscreen == pre.window.fullscreen
    &&& post.window.mouse_visible == pre.window.mouse_visible
    &&& post.window.width == width
    &&& post.window.height == height
}

/// The message of the error raised for a window size that cannot be set.
pub open spec fn window_size_error() -> Seq<char> {
    "window dimensions must be positive"@
}

/// The message of the error raised for a monitor index that names no monitor.
pub open spec fn no_such_monitor_error() -> Seq<char> {
    "no such monitor"@
}

/// The message of the error raised where the window is on no connected monitor.
pub open spec fn no_current_monitor_error() -> Seq<char> {
    "the window is on no known monitor"@
}

/// The message of the error raised where the monitors are too many to count.
pub open spec fn monitor_count_error() -> Seq<char> {
    "too many monitors to count"@
}

/// Whether the monitor of index `index` is connected.
pub open spec fn has_monitor(ctx: Context, index: i32) -> bool {
    0 <= index < ctx.window.monitors@.len()
}

/// Quits the game: the game loop stops at the end of its current cycle.
pub fn quit(ctx: &mut Context)
    ensures
        !final(ctx).running,
        final(ctx).window == old(ctx).window,
        final(ctx).device == old(ctx).device,
        final(ctx).graphics == old(ctx).graphics,
{
    ctx.running = false;
}

/// Returns the title of the window.
pub fn get_title(ctx: &Context) -> (r: &str)
    ensures
        r@ == ctx.window.title@,
{
    ctx.window.title.as_str()
}

/// Sets the title of the window.
pub fn set_title(ctx: &mut Context, title: &str)
    ensures
        final(ctx).window.title@ == title@,
        final(ctx).window.width == old(ctx).window.width,
        final(ctx).window.height == old(ctx).window.height,
        final(ctx).window.vsync == old(ctx).window.vsync,
        final(ctx).window.fullscreen == old(ctx).window.fullscreen,
        final(ctx).window.mouse_visible == old(ctx).window.mouse_visible,
        keeps_all_but_window(*old(ctx), *final(ctx)),
{
    ctx.window.title = title.to_owned();
}

/// Returns the width of the window.
pub fn get_width(ctx: &Context) -> (r: i32)
    ensures
        r == ctx.window.width,
{
    ctx.window.width
}

/// Sets the width of the window, keeping its height.
///
/// Fails with `FailedToChangeDisplayMode`, and changes nothing, where `width` or the
/// current height is not positive.
pub fn set_width(ctx: &mut Context, width: i32) -> (r: Result<(), TetraError>)
    ensures
        r is Ok <==> width > 0 && old(ctx).window.height > 0,
        r is Ok ==> resized(*old(ctx), *final(ctx), width, old(ctx).window.height),
        r is Err ==> *final(ctx) == *old(ctx),
        r matches Err(e) ==> e.is_display_mode_error(window_size_error()),
{
    let height = ctx.window.height;
    set_size(ctx, width, height)
}

/// Returns the height of the window.
pub fn get_height(ctx: &Context) -> (r: i32)
    ensures
        r == ctx.window.height,
{
    ctx.window.height
}

/// Sets the height of the window, keeping its width.
///
/// Fails with `FailedToChangeDisplayMode`, and changes nothing, where `height` or the
/// current width is not positive.
pub fn set_height(ctx: &mut Context, height: i32) -> (r: Result<(), TetraError>)
    ensures
        r is Ok <==> old(ctx).window.width > 0 && height > 0,
        r is Ok ==> resized(*old(ctx), *final(ctx), old(ctx).window.width, height),
        r is Err ==> *final(ctx) == *old(ctx),
        r matches Err(e) ==> e.is_display_mode_error(window_size_error()),
{
    let width = ctx.window.width;
    set_size(ctx, width, height)
}

/// Returns the size of the window.
pub fn get_size(ctx: &Context) -> (r: (i32, i32))
    ensures
        r == (ctx.window.width, ctx.window.height),
{
    (ctx.window.width, ctx.window.height)
}

/// Sets the size of the window.
///
/// Fails with `FailedToChangeDisplayMode`, and changes nothing, where a dimension is not
/// positive.
pub fn set_size(ctx: &mut Context, width: i32, height: i32) -> (r: Result<(), TetraError>)
    ensures
        r is Ok <==> width > 0 && height > 0,
        r is Ok ==> resized(*old(ctx), *final(ctx), width, height),
        r is Err ==> *final(ctx) == *old(ctx),
        r matches Err(e) ==> e.is_display_mode_error(window_size_error()),
{
    if width <= 0 || height <= 0 {
        return Err(
            TetraError::FailedToChangeDisplayMode("window dimensions must be positive".to_owned()),
        );
    }
    ctx.window.width = width;
    ctx.window.height = height;
    Ok(())
}

/// Sets whether the window is vsynced.
pub fn set_vsync(ctx: &mut Context, vsync: bool) -> (r: Result<(), TetraError>)
    ensures
        r is Ok,
        final(ctx).window.vsync == vsync,
        final(ctx).window.title == old(ctx).window.title,
        final(ctx).window.width == old(ctx).window.width,
        final(ctx).window.height == old(ctx).window.height,
        final(ctx).window.fullscreen == old(ctx).window.fullscreen,
        final(ctx).window.mouse_visible == old(ctx).window.mouse_visible,
        keeps_all_but_window(*old(ctx), *final(ctx)),
{
    ctx.window.vsync = vsync;
    Ok(())
}

/// Returns whether vsync is enabled.
pub fn is_vsync_enabled(ctx: &Context) -> (r: bool)
    ensures
        r == ctx.window.vsync,
{
    ctx.window.vsync
}

/// Sets whether the window is in fullscreen mode.
pub fn set_fullscreen(ctx: &mut Context, fullscreen: bool) -> (r: Result<(), TetraError>)
    ensures
        r is Ok,
        final(ctx).window.fullscreen == fullscreen,
        final(ctx).window.title == old(ctx).window.title,
        final(ctx).window.width == old(ctx).window.width,
        final(ctx).window.height == old(ctx).window.height,
        final(ctx).window.vsync == old(ctx).window.vsync,
        final(ctx).window.mouse_visible == old(ctx).window.mouse_visible,
        keeps_all_but_window(*old(ctx), *final(ctx)),
{
    ctx.window.fullscreen = fullscreen;
    Ok(())
}

/// Returns whether the window is in fullscreen mode.
pub fn is_fullscreen(ctx: &Context) -> (r: bool)
    ensures
        r == ctx.window.fullscreen,
{
    ctx.window.fullscreen
}

/// Sets whether the mouse cursor is visible.
pub fn set_mouse_visible(ctx: &mut Context, visible: bool) -> (r: Result<(), TetraError>)
    ensures
        r is Ok,
        final(ctx).window.mouse_visible == visible,
        final(ctx).window.title == old(ctx).window.title,
        final(ctx).window.width == old(ctx).window.width,
        final(ctx).window.height == old(ctx).window.height,
        final(ctx).window.vsync == old(ctx).window.vsync,
        final(ctx).window.fullscreen == old(ctx).window.fullscreen,
        keeps_all_but_window(*old(ctx), *final(ctx)),
{
    ctx.window.mouse_visible = visible;
    Ok(())
}

/// Returns whether the mouse cursor is visible.
pub fn is_mouse_visible(ctx: &Context) -> (r: bool)
    ensures
        r == ctx.window.mouse_visible,
{
    ctx.window.mouse_visible
}

/// Returns the number of monitors connected to the device.
///
/// Fails with a platform error where the number does not fit in an `i32`.
pub fn get_monitor_count(ctx: &Context) -> (r: Result<i32, TetraError>)
    ensures
        r is Ok <==> ctx.window.monitors@.len() <= MAX_MONITORS,
        r matches Ok(n) ==> n == ctx.window.monitors@.len(),
        r matches Err(e) ==> e.is_platform_error(monitor_count_error()),
{
    let n = ctx.window.monitors.len();
    if n > MAX_MONITORS {
        return Err(TetraError::PlatformError("too many monitors to count".to_owned()));
    }
    Ok(n as i32)
}

/// Returns the name of the monitor of index `monitor_index`.
///
/// Fails with a platform error where no such monitor is connected.
pub fn get_monitor_name(ctx: &Context, monitor_index: i32) -> (r: Result<String, TetraError>)
    ensures
        r is Ok <==> has_monitor(*ctx, monitor_index),
        r matches Ok(name) ==> name@ == ctx.window.monitors@[monitor_index as int].name@,
        r matches Err(e) ==> e.is_platform_error(no_such_monitor_error()),
{
    if monitor_index < 0 || monitor_index as usize >= ctx.window.monitors.len() {
        return Err(TetraError::PlatformError("no such monitor".to_owned()));
    }
    Ok(ctx.window.monitors[monitor_index as usize].name.clone())
}

/// Returns the width of the monitor of index `monitor_index`.
///
/// Fails with a platform error where no such monitor is connected.
pub fn get_monitor_width(ctx: &Context, monitor_index: i32) -> (r: Result<i32, TetraError>)
    ensures
        r is Ok <==> has_monitor(*ctx, monitor_index),
        r matches Ok(w) ==> w == ctx.window.monitors@[monitor_index as int].width,
        r matches Err(e) ==> e.is_platform_error(no_such_monitor_error()),
{
    let (width, _) = get_monitor_size(ctx, monitor_index)?;
    Ok(width)
}

/// Returns the height of the monitor of index `monitor_index`.
///
/// Fails with a platform error where no such monitor is connected.
pub fn get_monitor_height(ctx: &Context, monitor_index: i32) -> (r: Result<i32, TetraError>)
    ensures
        r is Ok <==> has_monitor(*ctx, monitor_index),
        r matches Ok(h) ==> h == ctx.window.monitors@[monitor_index as int].height,
        r matches Err(e) ==> e.is_platform_error(no_such_monitor_error()),
{
    let (_, height) = get_monitor_size(ctx, monitor_index)?;
    Ok(height)
}

/// Returns the size of the monitor of index `monitor_index`.
///
/// Fails with a platform error where no such monitor is connected.
pub fn get_monitor_size(ctx: &Context, monitor_index: i32) -> (r: Result<(i32, i32), TetraError>)
    ensures
        r is Ok <==> has_monitor(*ctx, monitor_index),
        r matches Ok(s) ==> s == (
            ctx.window.monitors@[monitor_index as int].width,
            ctx.window.monitors@[monitor_index as int].height,
        ),
        r matches Err(e) ==> e.is_platform_error(no_such_monitor_error()),
{
    if monitor_index < 0 || monitor_index as usize >= ctx.window.monitors.len() {
        return Err(TetraError::PlatformError("no such monitor".to_owned()));
    }
    let monitor = &ctx.window.monitors[monitor_index as usize];
    Ok((monitor.width, monitor.height))
}

/// Returns the index of the monitor that the window is on.
///
/// Fails with a platform error where the window is on no connected monitor.
pub fn get_current_monitor(ctx: &Context) -> (r: Result<i32, TetraError>)
    ensures
        r is Ok <==> has_monitor(*ctx, ctx.window.current_monitor),
        r matches Ok(i) ==> i == ctx.window.current_monitor,
        r matches Err(e) ==> e.is_platform_error(no_current_monitor_error()),
{
    let index = ctx.window.current_monitor;
    if index < 0 || index as usize >= ctx.window.monitors.len() {
        return Err(TetraError::PlatformError("the window is on no known monitor".to_owned()));
    }
    Ok(index)
}

/// Returns the name of the monitor that the window is on.
///
/// Fails with a platform error where the window is on no connected monitor.
pub fn get_current_monitor_name(ctx: &Context) -> (r: Result<String, TetraError>)
    ensures
        r is Ok <==> has_monitor(*ctx, ctx.window.current_monitor),
        r matches Ok(name) ==> name@ == ctx.window.monitors@[ctx.window.current_monitor as int].name@,
        r matches Err(e) ==> e.is_platform_error(no_current_monitor_error()),
{
    let monitor_index = get_current_monitor(ctx)?;
    get_monitor_name(ctx, monitor_index)
}

/// Returns the width of the monitor that the window is on.
///
/// Fails with a platform error where the window is on no connected monitor.
pub fn get_current_monitor_width(ctx: &Context) -> (r: Result<i32, TetraError>)
    ensures
        r is Ok <==> has_monitor(*ctx, ctx.window.current_monitor),
        r matches Ok(w) ==> w == ctx.window.monitors@[ctx.window.current_monitor as int].width,
        r matches Err(e) ==> e.is_platform_error(no_current_monitor_error()),
{
    let (width, _) = get_current_monitor_size(ctx)?;
    Ok(width)
}

/// Returns the height of the monitor that the window is on.
///
/// Fails with a platform error where the window is on no connected monitor.
pub fn get_current_monitor_height(ctx: &Context) -> (r: Result<i32, TetraError>)
    ensures
        r is Ok <==> has_monitor(*ctx, ctx.window.current_monitor),
        r matches Ok(h) ==> h == ctx.window.monitors@[ctx.window.current_monitor as int].height,
        r matches Err(e) ==> e.is_platform_error(no_current_monitor_error()),
{
    let (_, height) = get_current_monitor_size(ctx)?;
    Ok(height)
}

/// Returns the size of the monitor that the window is on.
///
/// Fails with a platform error where the window is on no connected monitor.
pub fn get_current_monitor_size(ctx: &Context) -> (r: Result<(i32, i32), TetraError>)
    ensures
        r is Ok <==> has_monitor(*ctx, ctx.window.current_monitor),
        r matches Ok(s) ==> s == (
            ctx.window.monitors@[ctx.window.current_monitor as int].width,
            ctx.window.monitors@[ctx.window.current_monitor as int].height,
        ),
        r matches Err(e) ==> e.is_platform_error(no_current_monitor_error()),
{
    let monitor_index = get_current_monitor(ctx)?;
    get_monitor_size(ctx, monitor_index)
}

} // verus!
