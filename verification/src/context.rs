//! The context: everything that the runtime keeps between frames.

use vstd::prelude::*;
use crate::error::TetraError;
use crate::graphics::{Command, Graphics, GraphicsState};
use crate::input::{InputState, InputView};
use crate::time::{Clock, DEFAULT_MAX_CATCH_UP};
use crate::window::{MonitorList, Window};

verus! {

/// The state of a running application: the window record, the render state
/// with the recorded commands, the input snapshot, the clock, and whether
/// the application goes on.
#[derive(Debug)]
pub struct TetraContext {
    pub window: Window,
    pub graphics: Graphics,
    pub input: InputState,
    pub clock: Clock,
    /// Cleared by `quit`; looked at between frames.
    pub running: bool,
    /// Whether pressing Escape quits.
    pub quit_on_escape: bool,
}

/// What the platform reported when it opened the window and the device.
#[derive(Debug)]
pub struct Platform {
    /// The size of the window in physical pixels.
    pub physical_width: i32,
    pub physical_height: i32,
    /// The most instances that the device takes in one instanced draw.
    pub instance_capacity: usize,
    /// The monitors, or the reason for not telling.
    pub monitors: Result<MonitorList, String>,
    /// The index of the monitor that the window is on, or the reason for
    /// not telling.
    pub current_monitor: Result<i32, String>,
}

/// The settings that a context is built from.
#[derive(Debug)]
pub struct ContextBuilder {
    pub title: String,
    /// The size of the window in logical pixels.
    pub width: i32,
    pub height: i32,
    pub resizable: bool,
    pub vsync: bool,
    pub fullscreen: bool,
    pub high_dpi: bool,
    pub stencil_buffer: bool,
    pub quit_on_escape: bool,
    pub key_repeat: bool,
    pub screen_saver_enabled: bool,
    pub show_mouse: bool,
    /// How many updates a second the application is given.
    pub ticks_per_second: u32,
    /// The most updates that follow one frame, however long it took.
    pub max_catch_up: u32,
}

impl ContextBuilder {
    /// The settings of a window with the given title and size, everything
    /// else at its default: vsync on, 60 updates a second, at most 8 updates
    /// after one frame, every other option off.
    pub fn new(title: &str, width: i32, height: i32) -> (builder: ContextBuilder)
        ensures
            builder.title@ == title@,
            builder == (ContextBuilder {
                title: builder.title,
                width,
                height,
                resizable: false,
                vsync: true,
                fullscreen: false,
                high_dpi: false,
                stencil_buffer: false,
                quit_on_escape: false,
                key_repeat: false,
                screen_saver_enabled: false,
                show_mouse: false,
                ticks_per_second: 60,
                max_catch_up: DEFAULT_MAX_CATCH_UP,
            }),
    {
        ContextBuilder {
            title: title.to_owned(),
            width,
            height,
            resizable: false,
            vsync: true,
            fullscreen: false,
            high_dpi: false,
            stencil_buffer: false,
            quit_on_escape: false,
            key_repeat: false,
            screen_saver_enabled: false,
            show_mouse: false,
            ticks_per_second: 60,
            max_catch_up: DEFAULT_MAX_CATCH_UP,
        }
    }

    pub fn title(self, title: &str) -> (builder: ContextBuilder)
        ensures
            builder.title@ == title@,
            builder == (ContextBuilder { title: builder.title, ..self }),
    {
        ContextBuilder { title: title.to_owned(), ..self }
    }

    pub fn size(self, width: i32, height: i32) -> (builder: ContextBuilder)
        ensures
            builder == (ContextBuilder { width, height, ..self }),
    {
        ContextBuilder { width, height, ..self }
    }

    pub fn resizable(self, resizable: bool) -> (builder: ContextBuilder)
        ensures
            builder == (ContextBuilder { resizable, ..self }),
    {
        ContextBuilder { resizable, ..self }
    }

    pub fn vsync(self, vsync: bool) -> (builder: ContextBuilder)
        ensures
            builder == (ContextBuilder { vsync, ..self }),
    {
        ContextBuilder { vsync, ..self }
    }

    pub fn fullscreen(self, fullscreen: bool) -> (builder: ContextBuilder)
        ensures
            builder == (ContextBuilder { fullscreen, ..self }),
    {
        ContextBuilder { fullscreen, ..self }
    }

    pub fn high_dpi(self, high_dpi: bool) -> (builder: ContextBuilder)
        ensures
            builder == (ContextBuilder { high_dpi, ..self }),
    {
        ContextBuilder { high_dpi, ..self }
    }

    pub fn stencil_buffer(self, stencil_buffer: bool) -> (builder: ContextBuilder)
        ensures
            builder == (ContextBuilder { stencil_buffer, ..self }),
    {
        ContextBuilder { stencil_buffer, ..self }
    }

    pub fn quit_on_escape(self, quit_on_escape: bool) -> (builder: ContextBuilder)
        ensures
            builder == (ContextBuilder { quit_on_escape, ..self }),
    {
        ContextBuilder { quit_on_escape, ..self }
    }

    pub fn key_repeat(self, key_repeat: bool) -> (builder: ContextBuilder)
        ensures
            builder == (ContextBuilder { key_repeat, ..self }),
    {
        ContextBuilder { key_repeat, ..self }
    }

    pub fn screen_saver_enabled(self, screen_saver_enabled: bool) -> (builder: ContextBuilder)
        ensures
            builder == (ContextBuilder { screen_saver_enabled, ..self }),
    {
        ContextBuilder { screen_saver_enabled, ..self }
    }

    pub fn show_mouse(self, show_mouse: bool) -> (builder: ContextBuilder)
        ensures
            builder == (ContextBuilder { show_mouse, ..self }),
    {
        ContextBuilder { show_mouse, ..self }
    }

    /// Sets how many updates a second the application is given. At a rate
    /// of zero it is given none.
    pub fn tick_rate(self, ticks_per_second: u32) -> (builder: ContextBuilder)
        ensures
            builder == (ContextBuilder { ticks_per_second, ..self }),
    {
        ContextBuilder { ticks_per_second, ..self }
    }

    /// Sets the most updates that follow one frame. The time of a longer
    /// frame is dropped beyond that.
    pub fn max_catch_up(self, max_catch_up: u32) -> (builder: ContextBuilder)
        ensures
            builder == (ContextBuilder { max_catch_up, ..self }),
    {
        ContextBuilder { max_catch_up, ..self }
    }

    /// The window record that a context built from these settings starts
    /// with.
    pub open spec fn spec_window(self, platform: Platform) -> Window {
        Window {
            title: self.title,
            width: self.width,
            height: self.height,
            physical_width: platform.physical_width,
            physical_height: platform.physical_height,
            resizable: self.resizable,
            high_dpi: self.high_dpi,
            visible: true,
            vsync: self.vsync,
            fullscreen: self.fullscreen,
            mouse_visible: self.show_mouse,
            mouse_grabbed: false,
            relative_mouse_mode: false,
            screen_saver_enabled: self.screen_saver_enabled,
            key_repeat_enabled: self.key_repeat,
            monitors: platform.monitors,
            current_monitor: platform.current_monitor,
        }
    }

    /// Builds the context, given what came of opening the window and the
    /// device with these settings.
    ///
    /// # Errors
    ///
    /// `PlatformError` with the platform's reason, where the window or the
    /// device could not be opened.
    pub fn build(self, opened: Result<Platform, String>) -> (r: Result<TetraContext, TetraError>)
        ensures
            match opened {
                Ok(platform) => r matches Ok(ctx) && {
                    &&& ctx.window == self.spec_window(platform)
                    &&& ctx.graphics.state == GraphicsState::spec_initial()
                    &&& ctx.graphics.stencil_buffer == self.stencil_buffer
                    &&& ctx.graphics.instance_capacity == platform.instance_capacity
                    &&& ctx.graphics.commands@ == Seq::<Command>::empty()
                    &&& ctx.input@ == InputView::idle()
                    &&& ctx.clock.rate() == self.ticks_per_second
                    &&& ctx.clock.limit() == self.max_catch_up
                    &&& ctx.clock.pending() == 0
                    &&& ctx.clock.delta() == 0
                    &&& ctx.running
                    &&& ctx.quit_on_escape == self.quit_on_escape
                },
                Err(reason) => r matches Err(error) && error == TetraError::PlatformError(reason),
            },
    {
        match opened {
            Ok(platform) => Ok(
                TetraContext {
                    window: Window {
                        title: self.title,
                        width: self.width,
                        height: self.height,
                        physical_width: platform.physical_width,
                        physical_height: platform.physical_height,
                        resizable: self.resizable,
                        high_dpi: self.high_dpi,
                        visible: true,
                        vsync: self.vsync,
                        fullscreen: self.fullscreen,
                        mouse_visible: self.show_mouse,
                        mouse_grabbed: false,
                        relative_mouse_mode: false,
                        screen_saver_enabled: self.screen_saver_enabled,
                        key_repeat_enabled: self.key_repeat,
                        monitors: platform.monitors,
                        current_monitor: platform.current_monitor,
                    },
                    graphics: Graphics::new(self.stencil_buffer, platform.instance_capacity),
                    input: InputState::new(),
                    clock: Clock::new(self.ticks_per_second, self.max_catch_up),
                    running: true,
                    quit_on_escape: self.quit_on_escape,
                },
            ),
            Err(reason) => Err(TetraError::PlatformError(reason)),
        }
    }
}

} // verus!
