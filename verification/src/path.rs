//! The questions the library asks of the platform's path syntax. The
//! standard library answers them; what it answers is given a name here, so
//! that the callers can say which answer they built on. The names stand for
//! the answers of the platform the library is built for.

use vstd::prelude::*;

verus! {

/// What `std::path::Path::parent` gives for a path: the path without its
/// final component, or `None` where it has none.
pub uninterp spec fn path_parent(path: Seq<char>) -> Option<Seq<char>>;

/// What `std::path::Path::file_name` gives for a path: its final component,
/// or `None` where it does not end in one.
pub uninterp spec fn path_file_name(path: Seq<char>) -> Option<Seq<char>>;

/// What `std::path::Path::strip_prefix` gives for a path and a base: the
/// rest of the path after the base, or `None` where the base is no prefix of
/// the path by components.
pub uninterp spec fn path_relative_to(path: Seq<char>, base: Seq<char>) -> Option<Seq<char>>;

/// Calls `std::path::Path::parent`. The answer is the one named
/// `path_parent`; of its value all that is claimed is what the standard
/// library documents for the empty path, which has no parent.
#[verifier::external_body]
pub(crate) fn parent_of(path: &str) -> (parent: Option<String>)
    ensures
        parent.deep_view() == path_parent(path@),
        path@.len() == 0 ==> parent is None,
{
    match std::path::Path::new(path).parent() {
        Some(p) => Some(p.to_string_lossy().into_owned()),
        None => None,
    }
}

/// Calls `std::path::Path::file_name`. The answer is the one named
/// `path_file_name`; nothing is claimed of its value.
#[verifier::external_body]
pub(crate) fn file_name_of(path: &str) -> (name: Option<String>)
    ensures
        name.deep_view() == path_file_name(path@),
{
    match std::path::Path::new(path).file_name() {
        Some(n) => Some(n.to_string_lossy().into_owned()),
        None => None,
    }
}

/// Calls `std::path::Path::strip_prefix`. The answer is the one named
/// `path_relative_to`; nothing is claimed of its value.
#[verifier::external_body]
pub(crate) fn relative_to(path: &str, base: &str) -> (rest: Option<String>)
    ensures
        rest.deep_view() == path_relative_to(path@, base@),
{
    match std::path::Path::new(path).strip_prefix(std::path::Path::new(base)) {
        Ok(p) => Some(p.to_string_lossy().into_owned()),
        Err(_) => None,
    }
}

} // verus!
