//! Where the compiler puts its outputs, how a build is configured, and how
//! a compiled module's bytes become SPIR-V words.
use vstd::prelude::*;
use vstd::string::StringExecFns;
use crate::paths::{file_name, file_name_of, join_path, joined, parent, parent_of};
use crate::builder::BuildSpec;
use crate::session::ReloadError;
use crate::spirv::{
    builder_capabilities, builder_crate_path, builder_extensions, builder_keeps_names,
    builder_multimodule,
    builder_target, new_builder, with_capability, with_extension, with_multimodule,
    with_variable_names,
};
use spirv_builder::SpirvBuilder;
use crate::DEFAULT_TARGET;

verus! {

/// Build profile used when none is given.
pub const DEFAULT_PROFILE: &'static str = "release";

/// A crate name with each `-` replaced by `_`, as the compiler names its
/// outputs.
pub open spec fn normalized(name: Seq<char>) -> Seq<char> {
    name.map_values(|c: char| if c == '-' { '_' } else { c })
}

/// `{root}/target/spirv-builder/{target}/{profile}/deps/{name}.spvs`, with
/// the crate name normalized.
pub open spec fn output_dir(
    root: Seq<char>,
    name: Seq<char>,
    target: Seq<char>,
    profile: Seq<char>,
) -> Seq<char> {
    joined(
        joined(
            joined(joined(joined(joined(root, "target"@), "spirv-builder"@), target), profile),
            "deps"@,
        ),
        normalized(name) + ".spvs"@,
    )
}

/// The text of an optional argument, or the default.
pub open spec fn or_default(s: Option<&str>, default: &str) -> Seq<char> {
    match s {
        Some(t) => t@,
        None => default@,
    }
}

/// The workspace root: the configured workspace directory where there is
/// one, else the parent of the manifest directory.
pub open spec fn workspace_root_of(
    workspace_dir: Option<Seq<char>>,
    manifest_dir: Option<Seq<char>>,
) -> Option<Seq<char>> {
    match workspace_dir {
        Some(w) => Some(w),
        None => match manifest_dir {
            Some(m) => parent_of(m),
            None => None,
        },
    }
}

/// Relies on `str::replace`: every occurrence of `-` is replaced by `_`,
/// all other characters are kept in order.
#[verifier::external_body]
fn replace_dashes(name: &str) -> (r: String)
    ensures
        r@ == normalized(name@),
{
    name.replace('-', "_")
}

/// Determines the workspace root from the workspace directory setting and
/// the manifest directory, either of which may be unset.
pub fn resolve_workspace_root(workspace_dir: Option<&str>, manifest_dir: Option<&str>) -> (r:
    Result<String, ReloadError>)
    ensures
        match workspace_root_of(
            match workspace_dir {
                Some(w) => Some(w@),
                None => None,
            },
            match manifest_dir {
                Some(m) => Some(m@),
                None => None,
            },
        ) {
            Some(root) => r matches Ok(s) && s@ == root,
            None => r == Err::<String, ReloadError>(ReloadError::Configuration),
        },
{
    match workspace_dir {
        Some(w) => Ok(w.to_string()),
        None => match manifest_dir {
            Some(m) => match parent(m) {
                Some(p) => Ok(p),
                None => Err(ReloadError::Configuration),
            },
            None => Err(ReloadError::Configuration),
        },
    }
}

/// The directory in which the compiler places the outputs of the shader
/// crate `shader_crate_name` for `target` and `profile`, under the
/// workspace root.
pub fn calculate_shader_output_dir(
    workspace_root: &str,
    shader_crate_name: &str,
    target: &str,
    profile: &str,
) -> (r: String)
    ensures
        r@ == output_dir(workspace_root@, shader_crate_name@, target@, profile@),
{
    let base = join_path(workspace_root, "target");
    let base = join_path(base.as_str(), "spirv-builder");
    let base = join_path(base.as_str(), target);
    let base = join_path(base.as_str(), profile);
    let base = join_path(base.as_str(), "deps");
    let leaf = replace_dashes(shader_crate_name).concat(".spvs");
    join_path(base.as_str(), leaf.as_str())
}

/// The text of each extension name, in order.
pub open spec fn extension_names(exts: Seq<String>) -> Seq<Seq<char>> {
    exts.map_values(|e: String| e@)
}

/// The compiler configuration for a build over `spec`: the crate path and
/// target, every capability and every extension in order, multimodule
/// output where it is on, and the names of interface variables kept.
pub fn configure_builder(spec: &BuildSpec) -> (r: SpirvBuilder)
    ensures
        builder_crate_path(r) == spec.shader_crate_path@,
        builder_target(r) == spec.target@,
        builder_capabilities(r) == spec.capabilities@,
        builder_extensions(r) == extension_names(spec.extensions@),
        builder_multimodule(r) == spec.multimodule,
        builder_keeps_names(r),
{
    let mut b = new_builder(spec.shader_crate_path.as_str(), spec.target.as_str());
    let nc = spec.capabilities.len();
    let mut i: usize = 0;
    while i < nc
        invariant
            nc == spec.capabilities@.len(),
            0 <= i <= nc,
            builder_crate_path(b) == spec.shader_crate_path@,
            builder_target(b) == spec.target@,
            builder_capabilities(b) == spec.capabilities@.subrange(0, i as int),
            builder_extensions(b) == Seq::<Seq<char>>::empty(),
            !builder_multimodule(b),
        decreases nc - i,
    {
        b = with_capability(b, spec.capabilities[i]);
        proof {
            assert(spec.capabilities@.subrange(0, i + 1) == spec.capabilities@.subrange(
                0,
                i as int,
            ).push(spec.capabilities@[i as int]));
        }
        i = i + 1;
    }
    proof {
        assert(spec.capabilities@.subrange(0, nc as int) == spec.capabilities@);
        assert(extension_names(spec.extensions@.subrange(0, 0)) =~= Seq::<Seq<char>>::empty());
    }
    let ne = spec.extensions.len();
    let mut j: usize = 0;
    while j < ne
        invariant
            ne == spec.extensions@.len(),
            0 <= j <= ne,
            builder_crate_path(b) == spec.shader_crate_path@,
            builder_target(b) == spec.target@,
            builder_capabilities(b) == spec.capabilities@,
            builder_extensions(b) == extension_names(spec.extensions@.subrange(0, j as int)),
            !builder_multimodule(b),
        decreases ne - j,
    {
        b = with_extension(b, spec.extensions[j].as_str());
        proof {
            assert(extension_names(spec.extensions@.subrange(0, j + 1)) =~= extension_names(
                spec.extensions@.subrange(0, j as int),
            ).push(spec.extensions@[j as int]@));
        }
        j = j + 1;
    }
    proof {
        assert(spec.extensions@.subrange(0, ne as int) == spec.extensions@);
    }
    if spec.multimodule {
        b = with_multimodule(b, true);
    }
    with_variable_names(b)
}

/// Locates compiled SPIR-V modules of one shader crate.
#[derive(Clone, Debug)]
pub struct ShaderOutputDir {
    path: String,
}

impl ShaderOutputDir {
    /// The output directory.
    pub closed spec fn dir(self) -> Seq<char> {
        self.path@
    }

    /// The output directory of the shader crate named `shader_crate_name`;
    /// `target` defaults to the default target and `profile` to release.
    pub fn new(
        workspace_root: &str,
        shader_crate_name: &str,
        target: Option<&str>,
        profile: Option<&str>,
    ) -> (r: ShaderOutputDir)
        ensures
            r.dir() == output_dir(
                workspace_root@,
                shader_crate_name@,
                or_default(target, DEFAULT_TARGET),
                or_default(profile, DEFAULT_PROFILE),
            ),
    {
        let target = match target {
            Some(t) => t,
            None => DEFAULT_TARGET,
        };
        let profile = match profile {
            Some(p) => p,
            None => DEFAULT_PROFILE,
        };
        ShaderOutputDir {
            path: calculate_shader_output_dir(workspace_root, shader_crate_name, target, profile),
        }
    }

    /// The output directory of the shader crate at `shader_crate_path`, named
    /// by the path's last component, which must exist and be valid text.
    pub fn from_crate_path(
        workspace_root: &str,
        shader_crate_path: &str,
        target: Option<&str>,
        profile: Option<&str>,
    ) -> (r: ShaderOutputDir)
        requires
            file_name_of(shader_crate_path@) is Some,
        ensures
            r.dir() == output_dir(
                workspace_root@,
                file_name_of(shader_crate_path@).unwrap(),
                or_default(target, DEFAULT_TARGET),
                or_default(profile, DEFAULT_PROFILE),
            ),
    {
        match file_name(shader_crate_path) {
            Some(name) => ShaderOutputDir::new(workspace_root, name.as_str(), target, profile),
            None => {
                proof {
                    assert(false);
                }
                ShaderOutputDir::new(workspace_root, "", target, profile)
            },
        }
    }

    /// As `from_crate_path`, for any path: `None` where the path has no last
    /// component that is valid text.
    pub fn try_from_crate_path(
        workspace_root: &str,
        shader_crate_path: &str,
        target: Option<&str>,
        profile: Option<&str>,
    ) -> (r: Option<ShaderOutputDir>)
        ensures
            match file_name_of(shader_crate_path@) {
                Some(name) => r matches Some(d) && d.dir() == output_dir(
                    workspace_root@,
                    name,
                    or_default(target, DEFAULT_TARGET),
                    or_default(profile, DEFAULT_PROFILE),
                ),
                None => r is None,
            },
    {
        match file_name(shader_crate_path) {
            Some(_) => Some(
                ShaderOutputDir::from_crate_path(workspace_root, shader_crate_path, target, profile),
            ),
            None => None,
        }
    }

    /// The output directory as text.
    pub fn output_path(&self) -> (r: String)
        ensures
            r@ == self.dir(),
    {
        self.path.clone()
    }

    /// The full path of the compiled module `shader_name`.
    pub fn shader_path(&self, shader_name: &str) -> (r: String)
        ensures
            r@ == joined(self.dir(), shader_name@),
    {
        join_path(self.path.as_str(), shader_name)
    }
}

/// The little-endian 32-bit word made of the four bytes from `4 * i`.
pub open spec fn le_word(bytes: Seq<u8>, i: int) -> int {
    bytes[4 * i] + 256 * bytes[4 * i + 1] + 65536 * bytes[4 * i + 2] + 16777216 * bytes[4 * i
        + 3]
}

/// The SPIR-V words of a compiled module: each group of four bytes read
/// little-endian, in order; a trailing group of fewer than four bytes is
/// left out.
pub fn spirv_words(bytes: &[u8]) -> (r: Vec<u32>)
    ensures
        r@.len() == bytes@.len() / 4,
        forall|i: int| 0 <= i < r@.len() ==> #[trigger] r@[i] as int == le_word(bytes@, i),
{
    let len = bytes.len();
    let n = len / 4;
    let mut words: Vec<u32> = Vec::new();
    let mut i: usize = 0;
    while i < n
        invariant
            len == bytes@.len(),
            n == len / 4,
            0 <= i <= n,
            words@.len() == i,
            forall|k: int| 0 <= k < i ==> #[trigger] words@[k] as int == le_word(bytes@, k),
        decreases n - i,
    {
        proof {
            assert(4 * i + 3 < bytes@.len()) by (nonlinear_arith)
                requires
                    i < n,
                    n == len / 4,
                    len == bytes@.len(),
            ;
        }
        let at: usize = 4 * i;
        let b0 = bytes[at] as u32;
        let b1 = bytes[at + 1] as u32;
        let b2 = bytes[at + 2] as u32;
        let b3 = bytes[at + 3] as u32;
        proof {
            assert(b0 <= 255 && b1 <= 255 && b2 <= 255 && b3 <= 255);
            assert(b0 + 256 * b1 + 65536 * b2 + 16777216 * b3 <= 4294967295) by (nonlinear_arith)
                requires
                    b0 <= 255,
                    b1 <= 255,
                    b2 <= 255,
                    b3 <= 255,
            ;
        }
        let w: u32 = b0 + 256 * b1 + 65536 * b2 + 16777216 * b3;
        words.push(w);
        i = i + 1;
    }
    words
}

} // verus!
