use tetra::context::{TetraContext, ContextBuilder, Platform};
use tetra::error::TetraError;
use tetra::window;
use tetra::window::{Monitor, MonitorList};

fn monitors() -> Vec<Monitor> {
    vec![
        Monitor { name: String::from("Left"), width: 1920, height: 1080 },
        Monitor { name: String::from("Right"), width: 2560, height: 1440 },
    ]
}

fn platform() -> Platform {
    Platform {
        physical_width: 1280,
        physical_height: 720,
        instance_capacity: 256,
        monitors: Ok(MonitorList::from_vec(monitors()).unwrap()),
        current_monitor: Ok(1),
    }
}

fn context() -> TetraContext {
    ContextBuilder::new("Window", 640, 360).build(Ok(platform())).unwrap()
}

fn blind_context() -> TetraContext {
    let platform = Platform {
        monitors: Err(String::from("video subsystem is down")),
        current_monitor: Err(String::from("window has no display")),
        ..platform()
    };
    ContextBuilder::new("Window", 640, 360).build(Ok(platform)).unwrap()
}

fn no_such_monitor() -> TetraError {
    TetraError::PlatformError(String::from("no monitor has this index"))
}

#[test]
fn build_records_the_settings() {
    let ctx = context();
    assert_eq!(window::get_title(&ctx), "Window");
    assert_eq!(window::get_size(&ctx), (640, 360));
    assert_eq!(window::get_physical_size(&ctx), (1280, 720));
    assert!(window::is_vsync_enabled(&ctx));
    assert!(!window::is_fullscreen(&ctx));
    assert!(ctx.running);
}

#[test]
fn quit_clears_the_running_flag_and_nothing_else() {
    let mut ctx = context();
    window::quit(&mut ctx);
    assert!(!ctx.running);
    assert_eq!(window::get_title(&ctx), "Window");
    assert_eq!(window::get_size(&ctx), (640, 360));
    window::quit(&mut ctx);
    assert!(!ctx.running);
}

#[test]
fn title_is_read_back_as_set() {
    let mut ctx = context();
    window::set_title(&mut ctx, "Another title");
    assert_eq!(window::get_title(&ctx), "Another title");
    window::set_title(&mut ctx, "");
    assert_eq!(window::get_title(&ctx), "");
    assert_eq!(window::get_size(&ctx), (640, 360));
}

#[test]
fn size_getters_agree() {
    let ctx = context();
    assert_eq!(window::get_width(&ctx), 640);
    assert_eq!(window::get_height(&ctx), 360);
    assert_eq!(window::get_size(&ctx), (640, 360));
    assert_eq!(window::get_physical_width(&ctx), 1280);
    assert_eq!(window::get_physical_height(&ctx), 720);
    assert_eq!(window::get_physical_size(&ctx), (1280, 720));
}

#[test]
fn accepted_size_change_is_recorded() {
    let mut ctx = context();
    assert_eq!(window::set_size(&mut ctx, 800, 600, Ok(())), Ok(()));
    assert_eq!(window::get_size(&ctx), (800, 600));
    assert_eq!(window::set_width(&mut ctx, 1024, Ok(())), Ok(()));
    assert_eq!(window::get_size(&ctx), (1024, 600));
    assert_eq!(window::set_height(&mut ctx, 768, Ok(())), Ok(()));
    assert_eq!(window::get_size(&ctx), (1024, 768));
    // The physical size is what the platform last reported.
    assert_eq!(window::get_physical_size(&ctx), (1280, 720));
}

#[test]
fn refused_size_change_is_reported_and_not_recorded() {
    let mut ctx = context();
    let refused = || Err(String::from("too large"));
    let error = Err(TetraError::FailedToChangeDisplayMode(String::from("too large")));
    assert_eq!(window::set_size(&mut ctx, 800, 600, refused()), error);
    assert_eq!(window::set_width(&mut ctx, 800, refused()), error);
    assert_eq!(window::set_height(&mut ctx, 600, refused()), error);
    assert_eq!(window::get_size(&ctx), (640, 360));
}

#[test]
fn vsync_follows_the_platform_answer() {
    let mut ctx = context();
    assert_eq!(window::set_vsync(&mut ctx, false, Ok(())), Ok(()));
    assert!(!window::is_vsync_enabled(&ctx));
    assert_eq!(
        window::set_vsync(&mut ctx, true, Err(String::from("no swap control"))),
        Err(TetraError::FailedToChangeDisplayMode(String::from("no swap control")))
    );
    assert!(!window::is_vsync_enabled(&ctx));
}

#[test]
fn fullscreen_follows_the_platform_answer() {
    let mut ctx = context();
    assert_eq!(
        window::set_fullscreen(&mut ctx, true, Err(String::from("mode not supported"))),
        Err(TetraError::FailedToChangeDisplayMode(String::from("mode not supported")))
    );
    assert!(!window::is_fullscreen(&ctx));
    assert_eq!(window::set_fullscreen(&mut ctx, true, Ok(())), Ok(()));
    assert!(window::is_fullscreen(&ctx));
    assert_eq!(window::set_fullscreen(&mut ctx, false, Ok(())), Ok(()));
    assert!(!window::is_fullscreen(&ctx));
}

#[test]
fn mouse_visibility_follows_the_platform_answer() {
    let mut ctx = context();
    assert!(!window::is_mouse_visible(&ctx));
    assert_eq!(
        window::set_mouse_visible(&mut ctx, true, Err(String::from("cursor is inaccessible"))),
        Err(TetraError::PlatformError(String::from("cursor is inaccessible")))
    );
    assert!(!window::is_mouse_visible(&ctx));
    assert_eq!(window::set_mouse_visible(&mut ctx, true, Ok(())), Ok(()));
    assert!(window::is_mouse_visible(&ctx));
}

#[test]
fn flags_are_read_back_as_set() {
    let mut ctx = context();
    assert!(window::is_visible(&mut ctx));
    window::set_visible(&mut ctx, false);
    assert!(!window::is_visible(&mut ctx));

    window::set_mouse_grabbed(&mut ctx, true);
    assert!(window::is_mouse_grabbed(&ctx));
    window::set_mouse_grabbed(&mut ctx, false);
    assert!(!window::is_mouse_grabbed(&ctx));

    window::set_relative_mouse_mode(&mut ctx, true);
    assert!(window::is_relative_mouse_mode(&ctx));

    window::set_screen_saver_enabled(&mut ctx, true);
    assert!(window::is_screen_saver_enabled(&ctx));
    window::set_screen_saver_enabled(&mut ctx, false);
    assert!(!window::is_screen_saver_enabled(&ctx));

    window::set_key_repeat_enabled(&mut ctx, true);
    assert!(window::is_key_repeat_enabled(&ctx));

    // None of them touched another.
    assert!(!window::is_visible(&mut ctx));
    assert!(window::is_relative_mouse_mode(&ctx));
    assert_eq!(window::get_size(&ctx), (640, 360));
    assert!(ctx.running);
}

#[test]
fn monitors_are_counted_and_described() {
    let ctx = context();
    assert_eq!(window::get_monitor_count(&ctx), Ok(2));
    assert_eq!(window::get_monitor_name(&ctx, 0), Ok(String::from("Left")));
    assert_eq!(window::get_monitor_name(&ctx, 1), Ok(String::from("Right")));
    assert_eq!(window::get_monitor_width(&ctx, 0), Ok(1920));
    assert_eq!(window::get_monitor_height(&ctx, 0), Ok(1080));
    assert_eq!(window::get_monitor_size(&ctx, 1), Ok((2560, 1440)));
}

#[test]
fn a_monitor_index_that_no_monitor_has_is_an_error() {
    let ctx = context();
    for index in [-1, 2, i32::MIN, i32::MAX] {
        assert_eq!(window::get_monitor_name(&ctx, index), Err(no_such_monitor()));
        assert_eq!(window::get_monitor_width(&ctx, index), Err(no_such_monitor()));
        assert_eq!(window::get_monitor_height(&ctx, index), Err(no_such_monitor()));
        assert_eq!(window::get_monitor_size(&ctx, index), Err(no_such_monitor()));
    }
}

#[test]
fn inaccessible_monitors_are_an_error_with_the_platform_reason() {
    let ctx = blind_context();
    let error = TetraError::PlatformError(String::from("video subsystem is down"));
    assert_eq!(window::get_monitor_count(&ctx), Err(error.clone()));
    assert_eq!(window::get_monitor_name(&ctx, 0), Err(error.clone()));
    assert_eq!(window::get_monitor_width(&ctx, 0), Err(error.clone()));
    assert_eq!(window::get_monitor_height(&ctx, 0), Err(error.clone()));
    assert_eq!(window::get_monitor_size(&ctx, 0), Err(error));
}

#[test]
fn current_monitor_is_looked_up_among_the_monitors() {
    let ctx = context();
    assert_eq!(window::get_current_monitor(&ctx), Ok(1));
    assert_eq!(window::get_current_monitor_name(&ctx), Ok(String::from("Right")));
    assert_eq!(window::get_current_monitor_width(&ctx), Ok(2560));
    assert_eq!(window::get_current_monitor_height(&ctx), Ok(1440));
    assert_eq!(window::get_current_monitor_size(&ctx), Ok((2560, 1440)));
}

#[test]
fn unknown_current_monitor_is_an_error_with_the_platform_reason() {
    let ctx = blind_context();
    let error = TetraError::PlatformError(String::from("window has no display"));
    assert_eq!(window::get_current_monitor(&ctx), Err(error.clone()));
    assert_eq!(window::get_current_monitor_name(&ctx), Err(error.clone()));
    assert_eq!(window::get_current_monitor_width(&ctx), Err(error.clone()));
    assert_eq!(window::get_current_monitor_height(&ctx), Err(error.clone()));
    assert_eq!(window::get_current_monitor_size(&ctx), Err(error));
}

#[test]
fn current_monitor_outside_the_list_is_an_error() {
    let mut ctx = context();
    ctx.window.current_monitor = Ok(5);
    assert_eq!(window::get_current_monitor(&ctx), Ok(5));
    assert_eq!(window::get_current_monitor_name(&ctx), Err(no_such_monitor()));
    assert_eq!(window::get_current_monitor_size(&ctx), Err(no_such_monitor()));
}

#[test]
fn monitor_list_holds_what_it_was_made_from() {
    let list = MonitorList::from_vec(monitors()).unwrap();
    assert_eq!(list.len(), 2);
    assert_eq!(list.get(1), Some(&monitors()[1]));
    assert_eq!(list.get(2), None);
    assert_eq!(list.get(-1), None);
    let empty = MonitorList::new();
    assert_eq!(empty.len(), 0);
    assert_eq!(empty.get(0), None);
}
