use tetra::graphics::{
    draw, reset_canvas, set_canvas, Canvas, Color, DrawParams, Drawable, FilterMode, Texture, Vec2,
};
use tetra::platform::{DrawCommand, GraphicsDevice, Window};
use tetra::Context;

fn context() -> Context {
    Context::new(Window::new("Drawing test", 640, 480, Vec::new(), 0), GraphicsDevice::new(2048))
}

fn on(ctx: &Context, target: Option<usize>) -> Vec<DrawCommand> {
    ctx.device.commands.iter().filter(|c| c.target == target).cloned().collect()
}

fn params() -> DrawParams {
    DrawParams::new()
        .position(Vec2 { x: 10, y: 20 })
        .origin(Vec2 { x: 8, y: 8 })
        .scale(Vec2 { x: 2, y: 2 })
        .rotation(90)
        .color(Color { r: 255, g: 0, b: 0, a: 128 })
}

#[test]
fn draw_params_builder_sets_fields() {
    let p = params();
    assert_eq!(p.position, Vec2 { x: 10, y: 20 });
    assert_eq!(p.origin, Vec2 { x: 8, y: 8 });
    assert_eq!(p.scale, Vec2 { x: 2, y: 2 });
    assert_eq!(p.rotation, 90);
    assert_eq!(p.color, Color { r: 255, g: 0, b: 0, a: 128 });
    let d = DrawParams::new();
    assert_eq!(d.position, Vec2 { x: 0, y: 0 });
    assert_eq!(d.scale, Vec2 { x: 1, y: 1 });
    assert_eq!(d.color, Color { r: 255, g: 255, b: 255, a: 255 });
}

#[test]
fn canvas_and_texture_draw_alike() {
    let mut a = context();
    let mut b = context();
    let canvas_a = Canvas::new(&mut a, 32, 32).unwrap();
    let canvas_b = Canvas::new(&mut b, 32, 32).unwrap();
    canvas_a.draw(&mut a, params());
    draw(&mut b, canvas_b.texture(), params());
    assert_eq!(a.device.commands, b.device.commands);
    assert_eq!(
        a.device.commands,
        vec![DrawCommand {
            target: None,
            texture: canvas_a.texture.handle,
            filter_mode: FilterMode::Linear,
            params: params(),
        }]
    );
}

#[test]
fn canvas_target_isolates_backbuffer() {
    let mut ctx = context();
    let canvas = Canvas::new(&mut ctx, 64, 64).unwrap();
    let other = Canvas::new(&mut ctx, 16, 16).unwrap();
    draw(&mut ctx, other.texture(), DrawParams::new());
    let backbuffer_before = on(&ctx, None);

    set_canvas(&mut ctx, &canvas);
    draw(&mut ctx, &other, params());
    draw(&mut ctx, other.texture(), DrawParams::new());
    reset_canvas(&mut ctx);

    assert_eq!(on(&ctx, None), backbuffer_before);
    assert_eq!(on(&ctx, Some(canvas.framebuffer)).len(), 2);
    assert_eq!(ctx.device.bound, None);

    draw(&mut ctx, &canvas, DrawParams::new());
    assert_eq!(on(&ctx, None).len(), 2);
    assert_eq!(on(&ctx, Some(canvas.framebuffer)).len(), 2);
}

#[test]
fn filter_change_is_not_retroactive() {
    let mut ctx = context();
    let mut canvas = Canvas::new(&mut ctx, 4, 4).unwrap();
    draw(&mut ctx, &canvas, DrawParams::new());
    canvas.set_filter_mode(&mut ctx, FilterMode::Nearest);
    draw(&mut ctx, &canvas, DrawParams::new());
    assert_eq!(ctx.device.commands[0].filter_mode, FilterMode::Linear);
    assert_eq!(ctx.device.commands[1].filter_mode, FilterMode::Nearest);
}

fn rendered(ctx: &Context) -> Vec<(tetra::platform::TextureData, FilterMode, DrawParams)> {
    on(ctx, ctx.device.bound)
        .iter()
        .map(|c| (ctx.device.textures[c.texture], c.filter_mode, c.params))
        .collect()
}

#[test]
fn canvas_and_separate_texture_draw_alike() {
    let mut a = context();
    let mut b = context();
    b.device.new_texture_empty(3, 3, FilterMode::Nearest).unwrap();
    let canvas = Canvas::new(&mut a, 32, 32).unwrap();
    let handle = b.device.new_texture_empty(32, 32, FilterMode::Linear).unwrap();
    let texture = Texture { handle, width: 32, height: 32, filter_mode: FilterMode::Linear };
    assert_ne!(canvas.texture.handle, texture.handle);
    draw(&mut a, &canvas, params());
    draw(&mut b, &texture, params());
    assert_eq!(rendered(&a), rendered(&b));
    assert_eq!(rendered(&a).len(), 1);
}
