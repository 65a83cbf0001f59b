//! The standard library's path functions that locating the header relies on.

use vstd::prelude::*;

verus! {

/// What `Path::parent` returns for a path, as text.
pub uninterp spec fn parent_of(path: Seq<char>) -> Option<Seq<char>>;

/// What `Path::join` returns for a base path and a path to append, as text.
pub uninterp spec fn joined_path(base: Seq<char>, tail: Seq<char>) -> Seq<char>;

/// What `Debug` writes for a `Path` with the given text (a quoted, escaped form).
pub uninterp spec fn path_debug_text(path: Seq<char>) -> Seq<char>;

/// Calls `Path::parent` on the path `path`. The contract names its result: the
/// splitting into components is not restated here.
#[verifier::external_body]
pub(crate) fn parent_dir(path: &str) -> (res: Option<String>)
    ensures
        res.is_some() == parent_of(path@).is_some(),
        res matches Some(p) ==> p@ == parent_of(path@).unwrap(),
{
    match std::path::Path::new(path).parent() {
        Some(p) => Some(p.to_string_lossy().into_owned()),
        None => None,
    }
}

/// Calls `Path::join`, which appends `tail` to `base` with a separator
/// where needed, or gives `tail` where it is absolute. The contract names its
/// result and does not restate those rules.
#[verifier::external_body]
pub(crate) fn join_path(base: &str, tail: &str) -> (res: String)
    ensures
        res@ == joined_path(base@, tail@),
{
    std::path::Path::new(base).join(tail).to_string_lossy().into_owned()
}

/// Formats the path `path` with `Debug`, as `{:?}` does. The contract names
/// its result: the escaping rules are not restated here.
#[verifier::external_body]
pub(crate) fn debug_path(path: &str) -> (res: String)
    ensures
        res@ == path_debug_text(path@),
{
    format!("{:?}", std::path::Path::new(path))
}

} // verus!
