//! A windowed 2D application runtime: the frame scheduler, the typed event
//! dispatcher and the render-state machine, each with a verified contract.
//!
//! The library is headless. It keeps the record of the window, the input
//! snapshot, the fixed-timestep clock and the render state, and it records
//! every submission as a command. Talking to the operating system and to the
//! graphics device is left to the embedding program, which hands the library
//! what the platform answered and takes the recorded commands away.
//!
//! Lengths and positions are whole pixels, scale factors and rotations are
//! fixed-point numbers, colours have 8 bits per channel, and time is counted
//! in nanoseconds: every result is exact.

pub mod context;
pub mod error;
pub mod event;
pub mod graphics;
pub mod input;
pub mod math;
pub mod runtime;
pub mod time;
pub mod window;

pub use context::{ContextBuilder, Platform, TetraContext};
pub use error::TetraError;
pub use event::{Event, Signal};
pub use runtime::State;
