//! The event dispatcher: one platform signal in, at most one typed event out.

use vstd::prelude::*;
use crate::context::TetraContext;
use crate::input::{InputView, Key, KeyModifiers, MouseButton};
use crate::math::Vec2;
use crate::window::Window;

verus! {

/// What the platform tells the runtime, one signal at a time, in the order
/// in which things happened.
#[derive(Clone, Debug, PartialEq, Eq)]
pub enum Signal {
    /// The user asked for the window to be closed.
    CloseRequested,
    /// The window has a new size, in logical and in physical pixels.
    Resized { width: i32, height: i32, physical_width: i32, physical_height: i32 },
    FocusGained,
    FocusLost,
    /// A key went down, or is held and repeats.
    KeyDown { key: Key, modifiers: KeyModifiers, repeat: bool },
    KeyUp { key: Key, modifiers: KeyModifiers },
    MouseButtonDown { button: MouseButton },
    MouseButtonUp { button: MouseButton },
    /// The mouse is at `position`, having moved by `delta`.
    MouseMoved { position: Vec2, delta: Vec2 },
    MouseWheelMoved { amount: Vec2 },
    /// Text was committed.
    TextInput { text: String },
    /// A file was dropped on the window.
    FileDropped { path: String },
}

/// What the application is told.
#[derive(Clone, Debug, PartialEq, Eq)]
pub enum Event {
    /// The window has a new size, in logical pixels.
    Resized { width: i32, height: i32 },
    FocusGained,
    FocusLost,
    KeyPressed { key: Key, modifiers: KeyModifiers, repeat: bool },
    KeyReleased { key: Key, modifiers: KeyModifiers },
    MouseButtonPressed { button: MouseButton },
    MouseButtonReleased { button: MouseButton },
    MouseMoved { position: Vec2, delta: Vec2 },
    MouseWheelMoved { amount: Vec2 },
    /// The committed characters, not the keys that produced them.
    TextInput { text: String },
    /// The path of the dropped file.
    FileDropped { path: String },
}

/// Whether the runtime passes over `signal`: the repeat of a held key, while
/// key repeat is off.
pub open spec fn is_ignored(signal: Signal, key_repeat: bool) -> bool {
    signal matches Signal::KeyDown { repeat, .. } && repeat && !key_repeat
}

/// The event that `signal` is delivered as, if any.
pub open spec fn event_of(signal: Signal, key_repeat: bool) -> Option<Event> {
    match signal {
        Signal::CloseRequested => None,
        Signal::Resized { width, height, .. } => Some(Event::Resized { width, height }),
        Signal::FocusGained => Some(Event::FocusGained),
        Signal::FocusLost => Some(Event::FocusLost),
        Signal::KeyDown { key, modifiers, repeat } => if repeat && !key_repeat {
            None
        } else {
            Some(Event::KeyPressed { key, modifiers, repeat })
        },
        Signal::KeyUp { key, modifiers } => Some(Event::KeyReleased { key, modifiers }),
        Signal::MouseButtonDown { button } => Some(Event::MouseButtonPressed { button }),
        Signal::MouseButtonUp { button } => Some(Event::MouseButtonReleased { button }),
        Signal::MouseMoved { position, delta } => Some(Event::MouseMoved { position, delta }),
        Signal::MouseWheelMoved { amount } => Some(Event::MouseWheelMoved { amount }),
        Signal::TextInput { text } => Some(Event::TextInput { text }),
        Signal::FileDropped { path } => Some(Event::FileDropped { path }),
    }
}

/// The input snapshot after `signal`.
pub open spec fn input_after(input: InputView, signal: Signal, key_repeat: bool) -> InputView {
    match signal {
        Signal::KeyDown { key, repeat, .. } => if repeat && !key_repeat {
            input
        } else {
            input.key_down(key)
        },
        Signal::KeyUp { key, .. } => input.key_up(key),
        Signal::MouseButtonDown { button } => input.button_down(button),
        Signal::MouseButtonUp { button } => input.button_up(button),
        Signal::MouseMoved { position, .. } => input.mouse_at(position),
        _ => input,
    }
}

/// The window record after `signal`.
pub open spec fn window_after(window: Window, signal: Signal) -> Window {
    match signal {
        Signal::Resized { width, height, physical_width, physical_height } => Window {
            width,
            height,
            physical_width,
            physical_height,
            ..window
        },
        _ => window,
    }
}

/// Whether the application goes on after `signal`: not once the window was
/// asked to close, and not once Escape was pressed where that quits.
pub open spec fn running_after(running: bool, quit_on_escape: bool, signal: Signal, key_repeat: bool) -> bool {
    match signal {
        Signal::CloseRequested => false,
        Signal::KeyDown { key, repeat, .. } => if key == Key::Escape && quit_on_escape && !(repeat
            && !key_repeat) {
            false
        } else {
            running
        },
        _ => running,
    }
}

/// Takes one signal from the platform: brings the window record, the input
/// snapshot and the running flag up to date, and returns the event to
/// deliver, if the signal is one that the application hears of.
pub fn dispatch(ctx: &mut TetraContext, signal: &Signal) -> (event: Option<Event>)
    ensures
        event == event_of(*signal, old(ctx).window.key_repeat_enabled),
        final(ctx).input@ == input_after(old(ctx).input@, *signal, old(ctx).window.key_repeat_enabled),
        final(ctx).window == window_after(old(ctx).window, *signal),
        final(ctx).running == running_after(
            old(ctx).running,
            old(ctx).quit_on_escape,
            *signal,
            old(ctx).window.key_repeat_enabled,
        ),
        final(ctx).graphics == old(ctx).graphics,
        final(ctx).clock == old(ctx).clock,
        final(ctx).quit_on_escape == old(ctx).quit_on_escape,
{
    match signal {
        Signal::CloseRequested => {
            ctx.running = false;
            None
        },
        Signal::Resized { width, height, physical_width, physical_height } => {
            ctx.window.width = *width;
            ctx.window.height = *height;
            ctx.window.physical_width = *physical_width;
            ctx.window.physical_height = *physical_height;
            Some(Event::Resized { width: *width, height: *height })
        },
        Signal::FocusGained => Some(Event::FocusGained),
        Signal::FocusLost => Some(Event::FocusLost),
        Signal::KeyDown { key, modifiers, repeat } => {
            if *repeat && !ctx.window.key_repeat_enabled {
                None
            } else {
                if *key == Key::Escape && ctx.quit_on_escape {
                    ctx.running = false;
                }
                ctx.input.set_key_down(*key);
                Some(Event::KeyPressed { key: *key, modifiers: *modifiers, repeat: *repeat })
            }
        },
        Signal::KeyUp { key, modifiers } => {
            ctx.input.set_key_up(*key);
            Some(Event::KeyReleased { key: *key, modifiers: *modifiers })
        },
        Signal::MouseButtonDown { button } => {
            ctx.input.set_mouse_button_down(*button);
            Some(Event::MouseButtonPressed { button: *button })
        },
        Signal::MouseButtonUp { button } => {
            ctx.input.set_mouse_button_up(*button);
            Some(Event::MouseButtonReleased { button: *button })
        },
        Signal::MouseMoved { position, delta } => {
            ctx.input.set_mouse_position(*position);
            Some(Event::MouseMoved { position: *position, delta: *delta })
        },
        Signal::MouseWheelMoved { amount } => Some(Event::MouseWheelMoved { amount: *amount }),
        Signal::TextInput { text } => Some(Event::TextInput { text: text.clone() }),
        Signal::FileDropped { path } => Some(Event::FileDropped { path: path.clone() }),
    }
}

/// While key repeat is off, the repeats of a held key are not heard of:
/// they are delivered as nothing and change nothing.
pub proof fn lemma_repeats_are_dropped(
    input: InputView,
    running: bool,
    quit_on_escape: bool,
    key: Key,
    modifiers: KeyModifiers,
)
    ensures
        ({
            let signal = Signal::KeyDown { key, modifiers, repeat: true };
            &&& event_of(signal, false) is None
            &&& input_after(input, signal, false) == input
            &&& running_after(running, quit_on_escape, signal, false) == running
        }),
{
}

/// A signal is delivered as no event only if it asks to close the window or
/// is a repeat that is passed over; every other signal is delivered as
/// exactly one event.
pub proof fn lemma_signals_are_heard(signal: Signal, key_repeat: bool)
    ensures
        event_of(signal, key_repeat) is None <==> (signal is CloseRequested || is_ignored(
            signal,
            key_repeat,
        )),
{
}

} // verus!
