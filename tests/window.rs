use tetra::platform::{GraphicsDevice, Monitor, Window};
use tetra::window::{
    get_current_monitor, get_current_monitor_height, get_current_monitor_name,
    get_current_monitor_size, get_current_monitor_width, get_height, get_monitor_count,
    get_monitor_height, get_monitor_name, get_monitor_size, get_monitor_width, get_size,
    get_title, get_width, is_fullscreen, is_mouse_visible, is_vsync_enabled, quit,
    set_fullscreen, set_height, set_mouse_visible, set_size, set_title, set_vsync, set_width,
};
use tetra::{Context, TetraError};

fn context(current_monitor: i32) -> Context {
    let monitors = vec![Monitor::new("Left", 1920, 1080), Monitor::new("Right", 2560, 1440)];
    Context::new(
        Window::new("Game", 640, 480, monitors, current_monitor),
        GraphicsDevice::new(4096),
    )
}

#[test]
fn quit_stops_running() {
    let mut ctx = context(0);
    assert!(ctx.running);
    quit(&mut ctx);
    assert!(!ctx.running);
}

#[test]
fn title_round_trip() {
    let mut ctx = context(0);
    assert_eq!(get_title(&ctx), "Game");
    set_title(&mut ctx, "Another title");
    assert_eq!(get_title(&ctx), "Another title");
}

#[test]
fn window_size_setters() {
    let mut ctx = context(0);
    assert_eq!(get_size(&ctx), (640, 480));
    set_width(&mut ctx, 800).unwrap();
    assert_eq!(get_size(&ctx), (800, 480));
    set_height(&mut ctx, 600).unwrap();
    assert_eq!((get_width(&ctx), get_height(&ctx)), (800, 600));
    set_size(&mut ctx, 1024, 768).unwrap();
    assert_eq!(get_size(&ctx), (1024, 768));
}

#[test]
fn window_size_rejects_non_positive() {
    let mut ctx = context(0);
    assert!(matches!(set_size(&mut ctx, 0, 100), Err(TetraError::FailedToChangeDisplayMode(_))));
    assert!(matches!(set_width(&mut ctx, -3), Err(TetraError::FailedToChangeDisplayMode(_))));
    assert!(matches!(set_height(&mut ctx, 0), Err(TetraError::FailedToChangeDisplayMode(_))));
    assert_eq!(get_size(&ctx), (640, 480));
}

#[test]
fn window_flags() {
    let mut ctx = context(0);
    assert!(is_vsync_enabled(&ctx));
    assert!(!is_fullscreen(&ctx));
    assert!(!is_mouse_visible(&ctx));
    set_vsync(&mut ctx, false).unwrap();
    set_fullscreen(&mut ctx, true).unwrap();
    set_mouse_visible(&mut ctx, true).unwrap();
    assert!(!is_vsync_enabled(&ctx));
    assert!(is_fullscreen(&ctx));
    assert!(is_mouse_visible(&ctx));
    assert_eq!(get_size(&ctx), (640, 480));
}

#[test]
fn monitor_queries() {
    let ctx = context(1);
    assert_eq!(get_monitor_count(&ctx).unwrap(), 2);
    assert_eq!(get_monitor_name(&ctx, 0).unwrap(), "Left");
    assert_eq!(get_monitor_width(&ctx, 0).unwrap(), 1920);
    assert_eq!(get_monitor_height(&ctx, 1).unwrap(), 1440);
    assert_eq!(get_monitor_size(&ctx, 1).unwrap(), (2560, 1440));
    assert_eq!(get_current_monitor(&ctx).unwrap(), 1);
    assert_eq!(get_current_monitor_name(&ctx).unwrap(), "Right");
    assert_eq!(get_current_monitor_width(&ctx).unwrap(), 2560);
    assert_eq!(get_current_monitor_height(&ctx).unwrap(), 1440);
    assert_eq!(get_current_monitor_size(&ctx).unwrap(), (2560, 1440));
}

#[test]
fn monitor_queries_fail_out_of_range() {
    let ctx = context(7);
    for &i in &[-1, 2, 100] {
        assert!(matches!(get_monitor_name(&ctx, i), Err(TetraError::PlatformError(_))));
        assert!(matches!(get_monitor_size(&ctx, i), Err(TetraError::PlatformError(_))));
        assert!(matches!(get_monitor_width(&ctx, i), Err(TetraError::PlatformError(_))));
        assert!(matches!(get_monitor_height(&ctx, i), Err(TetraError::PlatformError(_))));
    }
    assert!(matches!(get_current_monitor(&ctx), Err(TetraError::PlatformError(_))));
    assert!(matches!(get_current_monitor_name(&ctx), Err(TetraError::PlatformError(_))));
    assert!(matches!(get_current_monitor_size(&ctx), Err(TetraError::PlatformError(_))));
    assert!(matches!(get_current_monitor_width(&ctx), Err(TetraError::PlatformError(_))));
    assert!(matches!(get_current_monitor_height(&ctx), Err(TetraError::PlatformError(_))));
}

#[test]
fn no_monitors() {
    let ctx = Context::new(Window::new("Empty", 10, 10, Vec::new(), 0), GraphicsDevice::new(16));
    assert_eq!(get_monitor_count(&ctx).unwrap(), 0);
    assert!(matches!(get_current_monitor(&ctx), Err(TetraError::PlatformError(_))));
}

fn platform_message(e: TetraError) -> String {
    match e {
        TetraError::PlatformError(m) => m,
        TetraError::FailedToChangeDisplayMode(m) => panic!("unexpected display-mode error: {}", m),
    }
}

#[test]
fn monitor_errors_are_passed_on() {
    let ctx = context(5);
    let inner = platform_message(get_monitor_size(&ctx, 9).unwrap_err());
    assert_eq!(inner, "no such monitor");
    assert_eq!(platform_message(get_monitor_width(&ctx, 9).unwrap_err()), inner);
    assert_eq!(platform_message(get_monitor_height(&ctx, 9).unwrap_err()), inner);
    assert_eq!(platform_message(get_monitor_name(&ctx, -2).unwrap_err()), inner);
    let current = platform_message(get_current_monitor(&ctx).unwrap_err());
    assert_eq!(current, "the window is on no known monitor");
    assert_eq!(platform_message(get_current_monitor_name(&ctx).unwrap_err()), current);
    assert_eq!(platform_message(get_current_monitor_size(&ctx).unwrap_err()), current);
    assert_eq!(platform_message(get_current_monitor_width(&ctx).unwrap_err()), current);
    assert_eq!(platform_message(get_current_monitor_height(&ctx).unwrap_err()), current);
}

#[test]
fn size_errors_are_passed_on() {
    let mut ctx = context(0);
    let message = |r: Result<(), TetraError>| match r {
        Err(TetraError::FailedToChangeDisplayMode(m)) => m,
        other => panic!("unexpected result: {:?}", other),
    };
    let inner = message(set_size(&mut ctx, -1, 10));
    assert_eq!(inner, "window dimensions must be positive");
    assert_eq!(message(set_width(&mut ctx, 0)), inner);
    assert_eq!(message(set_height(&mut ctx, -7)), inner);
}
