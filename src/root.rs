use vstd::prelude::*;

verus! {

/// The directory that holds `path`, as `std::path::Path::parent` gives it:
/// `None` for a root or an empty path.
pub uninterp spec fn parent_of(path: Seq<char>) -> Option<Seq<char>>;

/// Relies on `std::path::Path::parent`: the path without its final component,
/// a function of the path alone, and `None` for the empty path.
#[verifier::external_body]
fn path_parent(path: &str) -> (r: Option<String>)
    ensures
        match r {
            Some(p) => parent_of(path@) == Some(p@),
            None => parent_of(path@) is None,
        },
        path@.len() == 0 ==> r is None,
{
    match std::path::Path::new(path).parent() {
        Some(p) => Some(p.to_string_lossy().into_owned()),
        None => None,
    }
}

/// The project root: the directory above the manifest directory of this
/// tool, or that directory itself when it has no parent.
pub open spec fn project_root_spec(manifest_dir: Seq<char>) -> Seq<char> {
    match parent_of(manifest_dir) {
        Some(p) => p,
        None => manifest_dir,
    }
}

/// Finds the project root from the directory of this tool's own manifest,
/// whatever the caller's current directory: every call runs there.
pub fn project_root(manifest_dir: &str) -> (r: String)
    ensures
        r@ == project_root_spec(manifest_dir@),
{
    match path_parent(manifest_dir) {
        Some(p) => p,
        None => String::from_str(manifest_dir),
    }
}

} // verus!
