//! The window, and the environment that it runs in.
//!
//! The library keeps a record of the window: what was asked for when the
//! context was built, what was set since, and what the platform reported. The
//! functions here read and change that record. The embedding program applies
//! the record to the real window.
//!
//! A change that the platform can refuse (of size, vsync, fullscreen or cursor
//! visibility) is made on the platform first. The function takes the
//! platform's answer, records the change where it was accepted, and reports
//! the refusal where it was not.

use vstd::prelude::*;
use crate::context::TetraContext;
use crate::error::TetraError;

verus! {

/// A monitor, as the platform described it.
#[derive(Clone, Debug, PartialEq, Eq)]
pub struct Monitor {
    pub name: String,
    pub width: i32,
    pub height: i32,
}

/// The monitors that the platform reported, in the platform's order. There
/// are never more of them than an `i32` can count.
#[derive(Debug)]
pub struct MonitorList {
    monitors: Vec<Monitor>,
}

impl View for MonitorList {
    type V = Seq<Monitor>;

    closed spec fn view(&self) -> Seq<Monitor> {
        self.monitors@
    }
}

impl MonitorList {
    #[verifier::type_invariant]
    closed spec fn well_formed(&self) -> bool {
        self.monitors@.len() <= i32::MAX
    }

    pub fn new() -> (list: MonitorList)
        ensures
            list@ == Seq::<Monitor>::empty(),
    {
        MonitorList { monitors: Vec::new() }
    }

    /// The list of the given monitors, unless there are too many of them.
    pub fn from_vec(monitors: Vec<Monitor>) -> (list: Option<MonitorList>)
        ensures
            monitors@.len() <= i32::MAX ==> (list matches Some(made) && made@ == monitors@),
            monitors@.len() > i32::MAX ==> list is None,
    {
        if monitors.len() <= 0x7fff_ffff {
            Some(MonitorList { monitors })
        } else {
            None
        }
    }

    pub fn len(&self) -> (count: i32)
        ensures
            count == self@.len(),
    {
        proof {
            use_type_invariant(self);
        }
        self.monitors.len() as i32
    }

    /// The monitor with the given index, if there is one.
    pub fn get(&self, index: i32) -> (monitor: Option<&Monitor>)
        ensures
            0 <= index < self@.len() ==> monitor == Some(&self@[index as int]),
            !(0 <= index < self@.len()) ==> monitor is None,
    {
        if index < 0 {
            return None;
        }
        let at: usize = index as usize;
        if at < self.monitors.len() {
            Some(&self.monitors[at])
        } else {
            None
        }
    }
}

/// The record of the window.
#[derive(Debug)]
pub struct Window {
    pub title: String,
    /// The size in logical pixels.
    pub width: i32,
    pub height: i32,
    /// The size in physical pixels, as the platform last reported it.
    pub physical_width: i32,
    pub physical_height: i32,
    pub resizable: bool,
    pub high_dpi: bool,
    pub visible: bool,
    pub vsync: bool,
    pub fullscreen: bool,
    pub mouse_visible: bool,
    pub mouse_grabbed: bool,
    pub relative_mouse_mode: bool,
    pub screen_saver_enabled: bool,
    pub key_repeat_enabled: bool,
    /// The monitors, or the platform's reason for not telling.
    pub monitors: Result<MonitorList, String>,
    /// The index of the monitor that the window is on, or the platform's
    /// reason for not telling.
    pub current_monitor: Result<i32, String>,
}

/// What `PlatformError` says of a monitor index that no monitor has.
pub open spec fn no_such_monitor() -> Seq<char> {
    "no monitor has this index"@
}

impl TetraContext {
    /// The context with another window record and nothing else changed.
    pub open spec fn with_window(self, window: Window) -> TetraContext {
        TetraContext { window, ..self }
    }
}

/// The monitor with the given index, as the `monitor` functions find it.
pub open spec fn monitor_at(window: Window, monitor_index: i32) -> Option<Monitor> {
    match window.monitors {
        Ok(list) => if 0 <= monitor_index < list@.len() {
            Some(list@[monitor_index as int])
        } else {
            None
        },
        Err(_) => None,
    }
}

/// Whether `error` is what the `monitor` functions report where
/// `monitor_at` finds no monitor.
pub open spec fn is_monitor_error(window: Window, error: TetraError) -> bool {
    match window.monitors {
        Ok(_) => error matches TetraError::PlatformError(reason) && reason@ == no_such_monitor(),
        Err(reason) => error == TetraError::PlatformError(reason),
    }
}

/// Whether `error` reports that the current monitor is unknown, or that no
/// monitor has its index.
pub open spec fn is_current_monitor_error(window: Window, error: TetraError) -> bool {
    match window.current_monitor {
        Ok(_) => is_monitor_error(window, error),
        Err(reason) => error == TetraError::PlatformError(reason),
    }
}

/// The monitor that the window is on, as the `current_monitor` functions
/// find it.
pub open spec fn current_monitor_of(window: Window) -> Option<Monitor> {
    match window.current_monitor {
        Ok(index) => monitor_at(window, index),
        Err(_) => None,
    }
}

/// Quits the game, if it is currently running.
///
/// Quitting takes effect at the end of the current frame: the frame that is
/// running is completed.
pub fn quit(ctx: &mut TetraContext)
    ensures
        *final(ctx) == (TetraContext { running: false, ..*old(ctx) }),
{
    ctx.running = false;
}

/// Gets the current title of the window.
pub fn get_title(ctx: &TetraContext) -> (title: &str)
    ensures
        title@ == ctx.window.title@,
{
    ctx.window.title.as_str()
}

/// Sets the title of the window.
pub fn set_title(ctx: &mut TetraContext, title: &str)
    ensures
        final(ctx).window.title@ == title@,
        *final(ctx) == old(ctx).with_window(Window { title: final(ctx).window.title, ..old(ctx).window }),
{
    ctx.window.title = title.to_owned();
}

/// Gets the width of the window, in logical pixels.
pub fn get_width(ctx: &TetraContext) -> (width: i32)
    ensures
        width == ctx.window.width,
{
    ctx.window.width
}

/// Records a new width of the window, given the platform's answer to the
/// change.
///
/// # Errors
///
/// `FailedToChangeDisplayMode` with the platform's reason, where the platform
/// refused. The record is then unchanged.
pub fn set_width(ctx: &mut TetraContext, width: i32, outcome: Result<(), String>) -> (r: Result<(), TetraError>)
    ensures
        match outcome {
            Ok(_) => r is Ok && *final(ctx) == old(ctx).with_window(Window { width, ..old(ctx).window }),
            Err(reason) => r == Err::<(), TetraError>(TetraError::FailedToChangeDisplayMode(reason))
                && *final(ctx) == *old(ctx),
        },
{
    let height: i32 = ctx.window.height;
    set_size(ctx, width, height, outcome)
}

/// Gets the height of the window, in logical pixels.
pub fn get_height(ctx: &TetraContext) -> (height: i32)
    ensures
        height == ctx.window.height,
{
    ctx.window.height
}

/// Records a new height of the window, given the platform's answer to the
/// change.
///
/// # Errors
///
/// `FailedToChangeDisplayMode` with the platform's reason, where the platform
/// refused. The record is then unchanged.
pub fn set_height(ctx: &mut TetraContext, height: i32, outcome: Result<(), String>) -> (r: Result<(), TetraError>)
    ensures
        match outcome {
            Ok(_) => r is Ok && *final(ctx) == old(ctx).with_window(Window { height, ..old(ctx).window }),
            Err(reason) => r == Err::<(), TetraError>(TetraError::FailedToChangeDisplayMode(reason))
                && *final(ctx) == *old(ctx),
        },
{
    let width: i32 = ctx.window.width;
    set_size(ctx, width, height, outcome)
}

/// Gets the size of the window, in logical pixels.
pub fn get_size(ctx: &TetraContext) -> (size: (i32, i32))
    ensures
        size == (ctx.window.width, ctx.window.height),
{
    (ctx.window.width, ctx.window.height)
}

/// Records a new size of the window, given the platform's answer to the
/// change.
///
/// # Errors
///
/// `FailedToChangeDisplayMode` with the platform's reason, where the platform
/// refused. The record is then unchanged.
pub fn set_size(ctx: &mut TetraContext, width: i32, height: i32, outcome: Result<(), String>) -> (r: Result<
    (),
    TetraError,
>)
    ensures
        match outcome {
            Ok(_) => r is Ok && *final(ctx) == old(ctx).with_window(
                Window { width, height, ..old(ctx).window },
            ),
            Err(reason) => r == Err::<(), TetraError>(TetraError::FailedToChangeDisplayMode(reason))
                && *final(ctx) == *old(ctx),
        },
{
    match outcome {
        Ok(_) => {
            ctx.window.width = width;
            ctx.window.height = height;
            Ok(())
        },
        Err(reason) => Err(TetraError::FailedToChangeDisplayMode(reason)),
    }
}

/// Returns the width of the window in physical pixels, which differs from
/// the logical width on a high-DPI display.
pub fn get_physical_width(ctx: &TetraContext) -> (width: i32)
    ensures
        width == ctx.window.physical_width,
{
    ctx.window.physical_width
}

/// Returns the height of the window in physical pixels.
pub fn get_physical_height(ctx: &TetraContext) -> (height: i32)
    ensures
        height == ctx.window.physical_height,
{
    ctx.window.physical_height
}

/// Returns the size of the window in physical pixels.
pub fn get_physical_size(ctx: &TetraContext) -> (size: (i32, i32))
    ensures
        size == (ctx.window.physical_width, ctx.window.physical_height),
{
    (ctx.window.physical_width, ctx.window.physical_height)
}

/// Returns whether the window is currently visible, or whether it has been
/// hidden. A minimized window counts as visible.
pub fn is_visible(ctx: &mut TetraContext) -> (visible: bool)
    ensures
        visible == old(ctx).window.visible,
        *final(ctx) == *old(ctx),
{
    ctx.window.visible
}

/// Sets whether or not the window should be visible to the user.
pub fn set_visible(ctx: &mut TetraContext, visible: bool)
    ensures
        *final(ctx) == old(ctx).with_window(Window { visible, ..old(ctx).window }),
{
    ctx.window.visible = visible;
}

/// Records whether the window is vsynced, given the platform's answer to
/// the change.
///
/// # Errors
///
/// `FailedToChangeDisplayMode` with the platform's reason, where the platform
/// refused. The record is then unchanged.
pub fn set_vsync(ctx: &mut TetraContext, vsync: bool, outcome: Result<(), String>) -> (r: Result<(), TetraError>)
    ensures
        match outcome {
            Ok(_) => r is Ok && *final(ctx) == old(ctx).with_window(Window { vsync, ..old(ctx).window }),
            Err(reason) => r == Err::<(), TetraError>(TetraError::FailedToChangeDisplayMode(reason))
                && *final(ctx) == *old(ctx),
        },
{
    match outcome {
        Ok(_) => {
            ctx.window.vsync = vsync;
            Ok(())
        },
        Err(reason) => Err(TetraError::FailedToChangeDisplayMode(reason)),
    }
}

/// Returns whether or not vsync is enabled.
pub fn is_vsync_enabled(ctx: &TetraContext) -> (vsync: bool)
    ensures
        vsync == ctx.window.vsync,
{
    ctx.window.vsync
}

/// Records whether the window is in fullscreen mode, given the platform's
/// answer to the change.
///
/// # Errors
///
/// `FailedToChangeDisplayMode` with the platform's reason, where the platform
/// refused. The record is then unchanged.
pub fn set_fullscreen(ctx: &mut TetraContext, fullscreen: bool, outcome: Result<(), String>) -> (r: Result<
    (),
    TetraError,
>)
    ensures
        match outcome {
            Ok(_) => r is Ok && *final(ctx) == old(ctx).with_window(
                Window { fullscreen, ..old(ctx).window },
            ),
            Err(reason) => r == Err::<(), TetraError>(TetraError::FailedToChangeDisplayMode(reason))
                && *final(ctx) == *old(ctx),
        },
{
    match outcome {
        Ok(_) => {
            ctx.window.fullscreen = fullscreen;
            Ok(())
        },
        Err(reason) => Err(TetraError::FailedToChangeDisplayMode(reason)),
    }
}

/// Returns whether or not the window is currently in fullscreen mode.
pub fn is_fullscreen(ctx: &TetraContext) -> (fullscreen: bool)
    ensures
        fullscreen == ctx.window.fullscreen,
{
    ctx.window.fullscreen
}

/// Records whether the mouse cursor is visible, given the platform's answer
/// to the change.
///
/// # Errors
///
/// `PlatformError` with the platform's reason, where the cursor state was
/// inaccessible. The record is then unchanged.
pub fn set_mouse_visible(ctx: &mut TetraContext, visible: bool, outcome: Result<(), String>) -> (r: Result<
    (),
    TetraError,
>)
    ensures
        match outcome {
            Ok(_) => r is Ok && *final(ctx) == old(ctx).with_window(
                Window { mouse_visible: visible, ..old(ctx).window },
            ),
            Err(reason) => r == Err::<(), TetraError>(TetraError::PlatformError(reason)) && *final(ctx)
                == *old(ctx),
        },
{
    match outcome {
        Ok(_) => {
            ctx.window.mouse_visible = visible;
            Ok(())
        },
        Err(reason) => Err(TetraError::PlatformError(reason)),
    }
}

/// Returns whether or not the mouse cursor is currently visible.
pub fn is_mouse_visible(ctx: &TetraContext) -> (visible: bool)
    ensures
        visible == ctx.window.mouse_visible,
{
    ctx.window.mouse_visible
}

/// Sets whether or not the mouse is grabbed by the window: while it is, the
/// cursor cannot leave the window while the window is focused.
pub fn set_mouse_grabbed(ctx: &mut TetraContext, mouse_grabbed: bool)
    ensures
        *final(ctx) == old(ctx).with_window(Window { mouse_grabbed, ..old(ctx).window }),
{
    ctx.window.mouse_grabbed = mouse_grabbed;
}

/// Returns whether or not the mouse is currently grabbed by the window.
pub fn is_mouse_grabbed(ctx: &TetraContext) -> (mouse_grabbed: bool)
    ensures
        mouse_grabbed == ctx.window.mouse_grabbed,
{
    ctx.window.mouse_grabbed
}

/// Sets whether or not relative mouse mode is enabled.
///
/// In relative mode the cursor is hidden and can move beyond the bounds of
/// the window. The `delta` of a `MouseMoved` event then tracks its movement;
/// the absolute position may not be updated.
pub fn set_relative_mouse_mode(ctx: &mut TetraContext, relative_mouse_mode: bool)
    ensures
        *final(ctx) == old(ctx).with_window(Window { relative_mouse_mode, ..old(ctx).window }),
{
    ctx.window.relative_mouse_mode = relative_mouse_mode;
}

/// Returns whether or not relative mouse mode is currently enabled.
pub fn is_relative_mouse_mode(ctx: &TetraContext) -> (relative_mouse_mode: bool)
    ensures
        relative_mouse_mode == ctx.window.relative_mouse_mode,
{
    ctx.window.relative_mouse_mode
}

/// Gets the number of monitors connected to the device.
///
/// # Errors
///
/// `PlatformError` with the platform's reason, where the monitor state was
/// inaccessible.
pub fn get_monitor_count(ctx: &TetraContext) -> (r: Result<i32, TetraError>)
    ensures
        match ctx.window.monitors {
            Ok(list) => r == Ok::<i32, TetraError>(list@.len() as i32) && list@.len() <= i32::MAX,
            Err(reason) => r == Err::<i32, TetraError>(TetraError::PlatformError(reason)),
        },
{
    match &ctx.window.monitors {
        Ok(list) => Ok(list.len()),
        Err(reason) => Err(TetraError::PlatformError(reason.clone())),
    }
}

/// The monitor with the given index.
fn find_monitor(ctx: &TetraContext, monitor_index: i32) -> (r: Result<&Monitor, TetraError>)
    ensures
        match monitor_at(ctx.window, monitor_index) {
            Some(monitor) => r == Ok::<&Monitor, TetraError>(&monitor),
            None => r matches Err(error) && is_monitor_error(ctx.window, error),
        },
{
    match &ctx.window.monitors {
        Ok(list) => match list.get(monitor_index) {
            Some(monitor) => Ok(monitor),
            None => Err(TetraError::PlatformError("no monitor has this index".to_owned())),
        },
        Err(reason) => Err(TetraError::PlatformError(reason.clone())),
    }
}

/// Gets the name of a monitor connected to the device.
///
/// # Errors
///
/// `PlatformError` where the monitor state was inaccessible, or no monitor
/// has this index.
pub fn get_monitor_name(ctx: &TetraContext, monitor_index: i32) -> (r: Result<String, TetraError>)
    ensures
        match monitor_at(ctx.window, monitor_index) {
            Some(monitor) => r == Ok::<String, TetraError>(monitor.name),
            None => r matches Err(error) && is_monitor_error(ctx.window, error),
        },
{
    match find_monitor(ctx, monitor_index) {
        Ok(monitor) => Ok(monitor.name.clone()),
        Err(error) => Err(error),
    }
}

/// Gets the width of a monitor connected to the device.
///
/// # Errors
///
/// `PlatformError` where the monitor state was inaccessible, or no monitor
/// has this index.
pub fn get_monitor_width(ctx: &TetraContext, monitor_index: i32) -> (r: Result<i32, TetraError>)
    ensures
        match monitor_at(ctx.window, monitor_index) {
            Some(monitor) => r == Ok::<i32, TetraError>(monitor.width),
            None => r matches Err(error) && is_monitor_error(ctx.window, error),
        },
{
    match get_monitor_size(ctx, monitor_index) {
        Ok(size) => Ok(size.0),
        Err(error) => Err(error),
    }
}

/// Gets the height of a monitor connected to the device.
///
/// # Errors
///
/// `PlatformError` where the monitor state was inaccessible, or no monitor
/// has this index.
pub fn get_monitor_height(ctx: &TetraContext, monitor_index: i32) -> (r: Result<i32, TetraError>)
    ensures
        match monitor_at(ctx.window, monitor_index) {
            Some(monitor) => r == Ok::<i32, TetraError>(monitor.height),
            None => r matches Err(error) && is_monitor_error(ctx.window, error),
        },
{
    match get_monitor_size(ctx, monitor_index) {
        Ok(size) => Ok(size.1),
        Err(error) => Err(error),
    }
}

/// Gets the size of a monitor connected to the device.
///
/// # Errors
///
/// `PlatformError` where the monitor state was inaccessible, or no monitor
/// has this index.
pub fn get_monitor_size(ctx: &TetraContext, monitor_index: i32) -> (r: Result<(i32, i32), TetraError>)
    ensures
        match monitor_at(ctx.window, monitor_index) {
            Some(monitor) => r == Ok::<(i32, i32), TetraError>((monitor.width, monitor.height)),
            None => r matches Err(error) && is_monitor_error(ctx.window, error),
        },
{
    match find_monitor(ctx, monitor_index) {
        Ok(monitor) => Ok((monitor.width, monitor.height)),
        Err(error) => Err(error),
    }
}

/// Gets the index of the monitor that the window is currently on.
///
/// # Errors
///
/// `PlatformError` with the platform's reason, where the monitor state was
/// inaccessible.
pub fn get_current_monitor(ctx: &TetraContext) -> (r: Result<i32, TetraError>)
    ensures
        match ctx.window.current_monitor {
            Ok(index) => r == Ok::<i32, TetraError>(index),
            Err(reason) => r == Err::<i32, TetraError>(TetraError::PlatformError(reason)),
        },
{
    match &ctx.window.current_monitor {
        Ok(index) => Ok(*index),
        Err(reason) => Err(TetraError::PlatformError(reason.clone())),
    }
}

/// Gets the name of the monitor that the window is currently on.
///
/// # Errors
///
/// `PlatformError` where the monitor state was inaccessible.
pub fn get_current_monitor_name(ctx: &TetraContext) -> (r: Result<String, TetraError>)
    ensures
        match current_monitor_of(ctx.window) {
            Some(monitor) => r == Ok::<String, TetraError>(monitor.name),
            None => r matches Err(error) && is_current_monitor_error(ctx.window, error),
        },
{
    match get_current_monitor(ctx) {
        Ok(monitor_index) => get_monitor_name(ctx, monitor_index),
        Err(error) => Err(error),
    }
}

/// Gets the width of the monitor that the window is currently on.
///
/// # Errors
///
/// `PlatformError` where the monitor state was inaccessible.
pub fn get_current_monitor_width(ctx: &TetraContext) -> (r: Result<i32, TetraError>)
    ensures
        match current_monitor_of(ctx.window) {
            Some(monitor) => r == Ok::<i32, TetraError>(monitor.width),
            None => r matches Err(error) && is_current_monitor_error(ctx.window, error),
        },
{
    match get_current_monitor_size(ctx) {
        Ok(size) => Ok(size.0),
        Err(error) => Err(error),
    }
}

/// Gets the height of the monitor that the window is currently on.
///
/// # Errors
///
/// `PlatformError` where the monitor state was inaccessible.
pub fn get_current_monitor_height(ctx: &TetraContext) -> (r: Result<i32, TetraError>)
    ensures
        match current_monitor_of(ctx.window) {
            Some(monitor) => r == Ok::<i32, TetraError>(monitor.height),
            None => r matches Err(error) && is_current_monitor_error(ctx.window, error),
        },
{
    match get_current_monitor_size(ctx) {
        Ok(size) => Ok(size.1),
        Err(error) => Err(error),
    }
}

/// Gets the size of the monitor that the window is currently on.
///
/// # Errors
///
/// `PlatformError` where the monitor state was inaccessible.
pub fn get_current_monitor_size(ctx: &TetraContext) -> (r: Result<(i32, i32), TetraError>)
    ensures
        match current_monitor_of(ctx.window) {
            Some(monitor) => r == Ok::<(i32, i32), TetraError>((monitor.width, monitor.height)),
            None => r matches Err(error) && is_current_monitor_error(ctx.window, error),
        },
{
    match get_current_monitor(ctx) {
        Ok(monitor_index) => get_monitor_size(ctx, monitor_index),
        Err(error) => Err(error),
    }
}

/// Sets whether or not the user's screen saver can be displayed while the
/// game is running.
pub fn set_screen_saver_enabled(ctx: &mut TetraContext, screen_saver_enabled: bool)
    ensures
        *final(ctx) == old(ctx).with_window(Window { screen_saver_enabled, ..old(ctx).window }),
{
    ctx.window.screen_saver_enabled = screen_saver_enabled;
}

/// Returns whether or not the user's screen saver can be displayed while the
/// game is running.
pub fn is_screen_saver_enabled(ctx: &TetraContext) -> (screen_saver_enabled: bool)
    ensures
        screen_saver_enabled == ctx.window.screen_saver_enabled,
{
    ctx.window.screen_saver_enabled
}

/// Sets whether or not key repeat should be enabled.
///
/// Without it a `KeyPressed` event is delivered once, when the key goes
/// down. With it `KeyPressed` events keep coming while the key is held.
pub fn set_key_repeat_enabled(ctx: &mut TetraContext, key_repeat_enabled: bool)
    ensures
        *final(ctx) == old(ctx).with_window(Window { key_repeat_enabled, ..old(ctx).window }),
{
    ctx.window.key_repeat_enabled = key_repeat_enabled;
}

/// Returns whether or not key repeat is enabled.
pub fn is_key_repeat_enabled(ctx: &TetraContext) -> (key_repeat_enabled: bool)
    ensures
        key_repeat_enabled == ctx.window.key_repeat_enabled,
{
    ctx.window.key_repeat_enabled
}

} // verus!
