//! Hot reloading for rust-gpu SPIR-V shaders.
//!
//! The library holds the decisions of a shader hot reloader: which file
//! system events count, when a rebuild is debounced, how the build is
//! configured, where its outputs land and how reload signals coalesce.
//! The watch thread, the compiler run and the GPU upload drive it from outside.
use vstd::prelude::*;

pub mod builder;
pub mod compile;
pub mod debounce;
pub mod event;
pub mod paths;
pub mod session;
pub mod signal;
pub mod spirv;

pub use builder::ShaderHotReloaderBuilder;
pub use compile::ShaderOutputDir;

verus! {

/// Target used when none is configured.
pub const DEFAULT_TARGET: &'static str = "spirv-unknown-vulkan1.3";

/// Debounce window, in milliseconds, used when none is configured.
pub const DEFAULT_DEBOUNCE_MS: u64 = 500;

} // verus!
