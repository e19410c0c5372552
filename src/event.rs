//! File system change events and the filter that picks the ones that
//! call for a rebuild.
use vstd::prelude::*;

verus! {

/// The kind of a file system change, as far as the reloader cares.
#[derive(Clone, Copy, Debug, PartialEq, Eq, Structural)]
pub enum ChangeKind {
    /// A file or directory was created.
    Create,
    /// A file's contents or name changed.
    Modify,
    /// Only a file's metadata changed (permissions, times).
    Metadata,
    /// A file or directory was removed.
    Remove,
    /// A file was opened, read or closed without change.
    Access,
    /// Any other or unknown kind.
    Other,
}

/// The extension, if any, of the last component of a path.
pub uninterp spec fn extension_of(path: Seq<char>) -> Option<Seq<char>>;

/// Whether a kind of change can call for a rebuild.
pub open spec fn kind_qualifies(kind: ChangeKind) -> bool {
    kind == ChangeKind::Create || kind == ChangeKind::Modify
}

/// Whether the path's extension is `ext`.
pub open spec fn path_matches(path: Seq<char>, ext: Seq<char>) -> bool {
    extension_of(path) == Some(ext)
}

/// Whether at least one of the paths has the extension `ext`.
pub open spec fn any_path_matches(paths: Seq<String>, ext: Seq<char>) -> bool {
    exists|i: int| 0 <= i < paths.len() && #[trigger] path_matches(paths[i]@, ext)
}

/// Whether an event of this kind over these paths calls for a rebuild.
pub open spec fn is_qualifying(kind: ChangeKind, paths: Seq<String>, ext: Seq<char>) -> bool {
    kind_qualifies(kind) && any_path_matches(paths, ext)
}

/// Relies on `std::path::Path::extension` (and `OsStr::to_str`): the
/// extension of a path depends on its text alone.
#[verifier::external_body]
fn path_extension(path: &str) -> (r: Option<String>)
    ensures
        match r {
            Some(e) => extension_of(path@) == Some(e@),
            None => extension_of(path@) is None,
        },
{
    match std::path::Path::new(path).extension() {
        Some(e) => e.to_str().map(String::from),
        None => None,
    }
}

/// Whether a change of this kind may call for a rebuild: creations and
/// modifications do, removals, metadata changes and the rest do not.
pub fn kind_is_relevant(kind: ChangeKind) -> (r: bool)
    ensures
        r == kind_qualifies(kind),
{
    match kind {
        ChangeKind::Create | ChangeKind::Modify => true,
        _ => false,
    }
}

/// Whether the path has the extension `ext`.
pub fn has_extension(path: &str, ext: &str) -> (r: bool)
    ensures
        r == path_matches(path@, ext@),
{
    match path_extension(path) {
        Some(e) => {
            let ext_owned = ext.to_string();
            let same = e == ext_owned;
            proof {
                if same {
                    assert(e@ == ext@);
                }
            }
            same
        },
        None => false,
    }
}

/// Whether any of the paths has the extension `ext`; one match suffices,
/// however many paths the event names.
pub fn any_has_extension(paths: &Vec<String>, ext: &str) -> (r: bool)
    ensures
        r == any_path_matches(paths@, ext@),
{
    let mut i: usize = 0;
    while i < paths.len()
        invariant
            0 <= i <= paths.len(),
            forall|j: int| 0 <= j < i ==> !path_matches(#[trigger] paths@[j]@, ext@),
        decreases paths.len() - i,
    {
        if has_extension(paths[i].as_str(), ext) {
            return true;
        }
        i = i + 1;
    }
    false
}

/// Whether an event of this kind over these paths calls for a rebuild.
pub fn is_qualifying_event(kind: ChangeKind, paths: &Vec<String>, ext: &str) -> (r: bool)
    ensures
        r == is_qualifying(kind, paths@, ext@),
{
    kind_is_relevant(kind) && any_has_extension(paths, ext)
}

} // verus!
