//! The build configuration and its builder with defaults.
use vstd::prelude::*;
use spirv_builder::Capability;
use crate::{DEFAULT_DEBOUNCE_MS, DEFAULT_TARGET};

verus! {

/// The configuration captured when a session starts; it never changes
/// afterwards.
#[derive(Clone, Debug)]
pub struct BuildSpec {
    pub shader_crate_path: String,
    pub target: String,
    pub capabilities: Vec<Capability>,
    pub extensions: Vec<String>,
    pub multimodule: bool,
    pub debounce_ms: u64,
}

/// Collects the options of a hot reloader before it starts: target,
/// capabilities, extensions, multimodule output and debounce window.
#[derive(Clone, Debug)]
pub struct ShaderHotReloaderBuilder {
    spec: BuildSpec,
}

impl ShaderHotReloaderBuilder {
    /// The configuration collected so far.
    pub closed spec fn config(self) -> BuildSpec {
        self.spec
    }

    /// A builder for the shader crate at `shader_crate_path`, with the
    /// default target, no capabilities or extensions, multimodule output
    /// off and the default debounce window.
    pub fn new(shader_crate_path: &str) -> (r: ShaderHotReloaderBuilder)
        ensures
            r.config().shader_crate_path@ == shader_crate_path@,
            r.config().target@ == DEFAULT_TARGET@,
            r.config().capabilities@.len() == 0,
            r.config().extensions@.len() == 0,
            !r.config().multimodule,
            r.config().debounce_ms == DEFAULT_DEBOUNCE_MS,
    {
        ShaderHotReloaderBuilder {
            spec: BuildSpec {
                shader_crate_path: shader_crate_path.to_string(),
                target: DEFAULT_TARGET.to_string(),
                capabilities: Vec::new(),
                extensions: Vec::new(),
                multimodule: false,
                debounce_ms: DEFAULT_DEBOUNCE_MS,
            },
        }
    }

    /// Sets the target.
    pub fn target(self, target: &str) -> (r: ShaderHotReloaderBuilder)
        ensures
            r.config().target@ == target@,
            r.config().shader_crate_path == self.config().shader_crate_path,
            r.config().capabilities == self.config().capabilities,
            r.config().extensions == self.config().extensions,
            r.config().multimodule == self.config().multimodule,
            r.config().debounce_ms == self.config().debounce_ms,
    {
        let mut b = self;
        b.spec.target = target.to_string();
        b
    }

    /// Adds a capability after those added before.
    pub fn capability(self, capability: Capability) -> (r: ShaderHotReloaderBuilder)
        ensures
            r.config().capabilities@ == self.config().capabilities@.push(capability),
            r.config().shader_crate_path == self.config().shader_crate_path,
            r.config().target == self.config().target,
            r.config().extensions == self.config().extensions,
            r.config().multimodule == self.config().multimodule,
            r.config().debounce_ms == self.config().debounce_ms,
    {
        let mut b = self;
        b.spec.capabilities.push(capability);
        b
    }

    /// Adds an extension after those added before.
    pub fn extension(self, extension: &str) -> (r: ShaderHotReloaderBuilder)
        ensures
            r.config().extensions@.len() == self.config().extensions@.len() + 1,
            forall|i: int|
                0 <= i < self.config().extensions@.len() ==> #[trigger] r.config().extensions@[i]
                    == self.config().extensions@[i],
            r.config().extensions@.last()@ == extension@,
            r.config().shader_crate_path == self.config().shader_crate_path,
            r.config().target == self.config().target,
            r.config().capabilities == self.config().capabilities,
            r.config().multimodule == self.config().multimodule,
            r.config().debounce_ms == self.config().debounce_ms,
    {
        let mut b = self;
        b.spec.extensions.push(extension.to_string());
        b
    }

    /// Turns multimodule output on or off.
    pub fn multimodule(self, enabled: bool) -> (r: ShaderHotReloaderBuilder)
        ensures
            r.config().multimodule == enabled,
            r.config().shader_crate_path == self.config().shader_crate_path,
            r.config().target == self.config().target,
            r.config().capabilities == self.config().capabilities,
            r.config().extensions == self.config().extensions,
            r.config().debounce_ms == self.config().debounce_ms,
    {
        let mut b = self;
        b.spec.multimodule = enabled;
        b
    }

    /// Sets the debounce window in milliseconds.
    pub fn debounce_ms(self, ms: u64) -> (r: ShaderHotReloaderBuilder)
        ensures
            r.config().debounce_ms == ms,
            r.config().shader_crate_path == self.config().shader_crate_path,
            r.config().target == self.config().target,
            r.config().capabilities == self.config().capabilities,
            r.config().extensions == self.config().extensions,
            r.config().multimodule == self.config().multimodule,
    {
        let mut b = self;
        b.spec.debounce_ms = ms;
        b
    }

    /// The finished configuration.
    pub fn into_spec(self) -> (r: BuildSpec)
        ensures
            r == self.config(),
    {
        self.spec
    }
}

} // verus!
