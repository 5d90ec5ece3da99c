use tetra::graphics::{draw, reset_canvas, set_canvas, Canvas, DrawParams};
use tetra::platform::{GraphicsDevice, Window};
use tetra::window::{get_size, set_size};
use tetra::{Context, Event, State, TetraError};

struct Game {
    canvas: Canvas,
    frames: u32,
}

impl State for Game {
    fn update(&mut self, _ctx: &mut Context) -> Result<(), TetraError> {
        self.frames += 1;
        Ok(())
    }

    fn draw(&mut self, ctx: &mut Context) -> Result<(), TetraError> {
        set_canvas(ctx, &self.canvas);
        draw(ctx, self.canvas.texture(), DrawParams::new());
        reset_canvas(ctx);
        draw(ctx, &self.canvas, DrawParams::new());
        Ok(())
    }

    fn event(&mut self, ctx: &mut Context, event: Event) -> Result<(), TetraError> {
        match event {
            Event::Resized { width, height } => set_size(ctx, width, height),
        }
    }
}

#[test]
fn frame_callbacks_drive_state() {
    let mut ctx =
        Context::new(Window::new("Loop", 640, 480, Vec::new(), 0), GraphicsDevice::new(1024));
    let canvas = Canvas::new(&mut ctx, 640, 480).unwrap();
    let mut game = Game { canvas, frames: 0 };
    game.update(&mut ctx).unwrap();
    game.draw(&mut ctx).unwrap();
    game.event(&mut ctx, Event::Resized { width: 800, height: 600 }).unwrap();
    assert_eq!(game.frames, 1);
    assert_eq!(get_size(&ctx), (800, 600));
    assert_eq!(ctx.device.commands.len(), 2);
    assert_eq!(ctx.device.commands[0].target, Some(game.canvas.framebuffer));
    assert_eq!(ctx.device.commands[1].target, None);
    assert!(game.event(&mut ctx, Event::Resized { width: 0, height: 600 }).is_err());
}
