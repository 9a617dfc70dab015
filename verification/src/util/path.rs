//! Paths as text: the directory above a path, and a name inside a directory.

use crate::util::text::optional_view;
use vstd::prelude::*;
use vstd::string::*;

verus! {

/// What `std::path::Path::parent` returns for the path `path`: the path
/// without its last component, where it has one. It depends on the path
/// alone; nothing else is stated of it here.
pub uninterp spec fn path_parent(path: Seq<char>) -> Option<Seq<char>>;

/// Calls `std::path::Path::parent` on `path` and returns the result as text.
/// This is not proved: the contract gives the result its name,
/// [`path_parent`], and claims nothing of it but that it is the same for the
/// same path.
#[verifier::external_body]
pub(crate) fn parent_of(path: &str) -> (parent: Option<String>)
    ensures
        optional_view(parent) == path_parent(path@),
{
    match std::path::Path::new(path).parent() {
        Some(parent) => Some(parent.to_string_lossy().into_owned()),
        None => None,
    }
}

/// The path of `name` inside the directory `dir`.
pub open spec fn joined(dir: Seq<char>, name: Seq<char>) -> Seq<char> {
    if dir.len() == 0 || dir.last() == '/' {
        dir + name
    } else {
        dir + "/"@ + name
    }
}

/// The path of `name` inside the directory `dir`.
pub fn join(dir: &str, name: &str) -> (path: String)
    ensures
        path@ == joined(dir@, name@),
{
    let n: usize = dir.unicode_len();
    let mut path = dir.to_owned();
    if n > 0 && dir.get_char(n - 1) != '/' {
        path.append("/");
    }
    path.append(name);
    path
}

} // verus!
