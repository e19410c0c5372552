//! The compiler's configuration object, as the library sees it: which
//! capabilities, extensions and output settings it carries.
use vstd::prelude::*;
use spirv_builder::{Capability, SpirvBuilder, SpirvMetadata};

verus! {

#[verifier::external_type_specification]
#[verifier::external_body]
pub struct ExSpirvBuilder(SpirvBuilder);

#[verifier::external_type_specification]
#[verifier::external_body]
pub struct ExCapability(Capability);

/// The shader crate that a builder compiles.
pub uninterp spec fn builder_crate_path(b: SpirvBuilder) -> Seq<char>;

/// The target that a builder compiles for.
pub uninterp spec fn builder_target(b: SpirvBuilder) -> Seq<char>;

/// The capabilities that a builder enables, in the order they were added.
pub uninterp spec fn builder_capabilities(b: SpirvBuilder) -> Seq<Capability>;

/// The extensions that a builder enables, in the order they were added.
pub uninterp spec fn builder_extensions(b: SpirvBuilder) -> Seq<Seq<char>>;

/// Whether a builder emits one module per entry point.
pub uninterp spec fn builder_multimodule(b: SpirvBuilder) -> bool;

/// Whether a builder keeps the names of interface variables in its output
/// (its SPIR-V metadata setting is `NameVariables`).
pub uninterp spec fn builder_keeps_names(b: SpirvBuilder) -> bool;

/// Relies on `SpirvBuilder::new`: it records the crate path and target and
/// starts from the defaults, which hold no capability or extension,
/// multimodule output off and no metadata.
#[verifier::external_body]
pub(crate) fn new_builder(path_to_crate: &str, target: &str) -> (r: SpirvBuilder)
    ensures
        builder_crate_path(r) == path_to_crate@,
        builder_target(r) == target@,
        builder_capabilities(r) == Seq::<Capability>::empty(),
        builder_extensions(r) == Seq::<Seq<char>>::empty(),
        !builder_multimodule(r),
        !builder_keeps_names(r),
{
    SpirvBuilder::new(path_to_crate, target)
}

/// Relies on `SpirvBuilder::capability`: it pushes the capability onto the
/// builder's list and changes nothing else.
#[verifier::external_body]
pub(crate) fn with_capability(b: SpirvBuilder, capability: Capability) -> (r: SpirvBuilder)
    ensures
        builder_capabilities(r) == builder_capabilities(b).push(capability),
        builder_extensions(r) == builder_extensions(b),
        builder_multimodule(r) == builder_multimodule(b),
        builder_crate_path(r) == builder_crate_path(b),
        builder_target(r) == builder_target(b),
        builder_keeps_names(r) == builder_keeps_names(b),
{
    b.capability(capability)
}

/// Relies on `SpirvBuilder::extension`: it pushes the extension onto the
/// builder's list and changes nothing else.
#[verifier::external_body]
pub(crate) fn with_extension(b: SpirvBuilder, extension: &str) -> (r: SpirvBuilder)
    ensures
        builder_extensions(r) == builder_extensions(b).push(extension@),
        builder_capabilities(r) == builder_capabilities(b),
        builder_multimodule(r) == builder_multimodule(b),
        builder_crate_path(r) == builder_crate_path(b),
        builder_target(r) == builder_target(b),
        builder_keeps_names(r) == builder_keeps_names(b),
{
    b.extension(extension)
}

/// Relies on `SpirvBuilder::multimodule`: it sets the multimodule flag and
/// changes nothing else.
#[verifier::external_body]
pub(crate) fn with_multimodule(b: SpirvBuilder, enabled: bool) -> (r: SpirvBuilder)
    ensures
        builder_multimodule(r) == enabled,
        builder_capabilities(r) == builder_capabilities(b),
        builder_extensions(r) == builder_extensions(b),
        builder_crate_path(r) == builder_crate_path(b),
        builder_target(r) == builder_target(b),
        builder_keeps_names(r) == builder_keeps_names(b),
{
    b.multimodule(enabled)
}

/// Relies on `SpirvBuilder::spirv_metadata`: it keeps the names of
/// interface variables in the output and changes no other setting.
#[verifier::external_body]
pub(crate) fn with_variable_names(b: SpirvBuilder) -> (r: SpirvBuilder)
    ensures
        builder_keeps_names(r),
        builder_capabilities(r) == builder_capabilities(b),
        builder_extensions(r) == builder_extensions(b),
        builder_multimodule(r) == builder_multimodule(b),
        builder_crate_path(r) == builder_crate_path(b),
        builder_target(r) == builder_target(b),
{
    b.spirv_metadata(SpirvMetadata::NameVariables)
}

} // verus!
