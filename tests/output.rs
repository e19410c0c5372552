use rust_gpu_hotreload::builder::ShaderHotReloaderBuilder;
use rust_gpu_hotreload::compile::{
    calculate_shader_output_dir, configure_builder, resolve_workspace_root, spirv_words, ShaderOutputDir,
};
use spirv_builder::{Capability, SpirvMetadata};
use std::path::PathBuf;
use rust_gpu_hotreload::session::ReloadError;
use rust_gpu_hotreload::{DEFAULT_DEBOUNCE_MS, DEFAULT_TARGET};

#[test]
fn output_dir_layout() {
    assert_eq!(
        calculate_shader_output_dir("/ws", "my-shader-crate", "spirv-unknown-vulkan1.2", "debug"),
        "/ws/target/spirv-builder/spirv-unknown-vulkan1.2/debug/deps/my_shader_crate.spvs"
    );
}

#[test]
fn output_dir_defaults() {
    let d = ShaderOutputDir::new("/ws", "shader-source", None, None);
    assert_eq!(
        d.output_path(),
        "/ws/target/spirv-builder/spirv-unknown-vulkan1.3/release/deps/shader_source.spvs"
    );
    let d = ShaderOutputDir::new("/ws", "s", Some("spirv-unknown-vulkan1.1"), Some("dev"));
    assert_eq!(d.output_path(), "/ws/target/spirv-builder/spirv-unknown-vulkan1.1/dev/deps/s.spvs");
}

#[test]
fn output_dir_from_crate_path() {
    let d = ShaderOutputDir::from_crate_path("/ws", "/ws/app/../shader-source", None, None);
    assert_eq!(
        d.output_path(),
        "/ws/target/spirv-builder/spirv-unknown-vulkan1.3/release/deps/shader_source.spvs"
    );
    let t = ShaderOutputDir::try_from_crate_path("/ws", "/ws/my-shader", Some("t"), Some("p")).unwrap();
    assert_eq!(t.output_path(), "/ws/target/spirv-builder/t/p/deps/my_shader.spvs");
    assert!(ShaderOutputDir::try_from_crate_path("/ws", "/ws/..", None, None).is_none());
    assert!(ShaderOutputDir::try_from_crate_path("/ws", "/", None, None).is_none());
}

#[test]
fn shader_path_joins_name() {
    let d = ShaderOutputDir::new("/ws", "sh", None, None);
    assert_eq!(
        d.shader_path("main-vertex.spv"),
        "/ws/target/spirv-builder/spirv-unknown-vulkan1.3/release/deps/sh.spvs/main-vertex.spv"
    );
}

#[test]
fn workspace_root_resolution() {
    assert_eq!(resolve_workspace_root(Some("/ws"), Some("/other/app")), Ok("/ws".to_string()));
    assert_eq!(resolve_workspace_root(None, Some("/ws/app")), Ok("/ws".to_string()));
    assert_eq!(resolve_workspace_root(None, None), Err(ReloadError::Configuration));
    assert_eq!(resolve_workspace_root(None, Some("/")), Err(ReloadError::Configuration));
}

#[test]
fn spirv_words_little_endian() {
    let bytes = vec![0x03u8, 0x02, 0x23, 0x07, 1, 0, 0, 0, 0xff, 0xff, 0xff, 0xff, 9, 9];
    assert_eq!(spirv_words(&bytes), vec![0x07230203u32, 1, 0xffff_ffff]);
    assert_eq!(spirv_words(&[1, 2, 3]), Vec::<u32>::new());
}

#[test]
fn builder_defaults() {
    let spec = ShaderHotReloaderBuilder::new("../shader-source").into_spec();
    assert_eq!(spec.shader_crate_path, "../shader-source");
    assert_eq!(spec.target, DEFAULT_TARGET);
    assert!(spec.capabilities.is_empty());
    assert!(spec.extensions.is_empty());
    assert!(!spec.multimodule);
    assert_eq!(spec.debounce_ms, DEFAULT_DEBOUNCE_MS);
    assert_eq!(DEFAULT_DEBOUNCE_MS, 500);
}

#[test]
fn builder_settings_configure_compiler() {
    let spec = ShaderHotReloaderBuilder::new("../shader-source")
        .target("spirv-unknown-vulkan1.2")
        .capability(Capability::RayTracingKHR)
        .extension("SPV_KHR_ray_tracing")
        .capability(Capability::Int64)
        .extension("SPV_KHR_shader_clock")
        .multimodule(true)
        .debounce_ms(250)
        .into_spec();
    assert_eq!(spec.target, "spirv-unknown-vulkan1.2");
    assert_eq!(spec.capabilities, vec![Capability::RayTracingKHR, Capability::Int64]);
    assert_eq!(spec.debounce_ms, 250);
    let b = configure_builder(&spec);
    assert_eq!(b.path_to_crate, Some(PathBuf::from("../shader-source")));
    assert_eq!(b.target, Some("spirv-unknown-vulkan1.2".to_string()));
    assert_eq!(b.capabilities, vec![Capability::RayTracingKHR, Capability::Int64]);
    assert_eq!(
        b.extensions,
        vec!["SPV_KHR_ray_tracing".to_string(), "SPV_KHR_shader_clock".to_string()]
    );
    assert!(b.multimodule);
    assert!(matches!(b.spirv_metadata, SpirvMetadata::NameVariables));
}

#[test]
fn configure_compiler_without_options() {
    let spec = ShaderHotReloaderBuilder::new("sh").extension("SPV_EXT_x").into_spec();
    let b = configure_builder(&spec);
    assert!(b.capabilities.is_empty());
    assert_eq!(b.extensions, vec!["SPV_EXT_x".to_string()]);
    assert!(!b.multimodule);
    assert_eq!(b.target, Some(DEFAULT_TARGET.to_string()));
}
