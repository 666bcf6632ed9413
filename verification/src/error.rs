//! The error taxonomy of the runtime.

use vstd::prelude::*;

verus! {

/// Everything that an operation of the runtime can report.
#[derive(Clone, Debug, PartialEq, Eq)]
pub enum TetraError {
    /// A file could not be read or decoded. Fatal to that resource only.
    AssetLoadError { path: String, reason: String },
    /// A shader program's source was rejected.
    ShaderCompileError(String),
    /// Monitor, cursor or clipboard state was inaccessible.
    PlatformError(String),
    /// The platform rejected a change of size, fullscreen or vsync.
    FailedToChangeDisplayMode(String),
    /// A stencil operation was requested without a stencil buffer.
    StencilUnavailable,
    /// An instanced draw asked for more instances than the device holds.
    InstanceLimitExceeded { requested: usize, capacity: usize },
}

} // verus!
