//! Path arithmetic, as the platform's own path type does it.
//!
//! A path is held as text. What a path's parent, file name and extension are,
//! and when two paths are the same, is decided by `std::path::Path` on the
//! platform that the crate is built for; the functions below hand its answers
//! on and give each answer a name for use in contracts.

use vstd::prelude::*;

verus! {

/// What `Path::parent` gives for a path.
pub uninterp spec fn parent_of(path: Seq<char>) -> Option<Seq<char>>;

/// What `Path::file_name` gives for a path.
pub uninterp spec fn file_name_of(path: Seq<char>) -> Option<Seq<char>>;

/// What `Path::extension` gives for a path.
pub uninterp spec fn extension_of(path: Seq<char>) -> Option<Seq<char>>;

/// What `Path::join` gives for a path and a second path put behind it.
pub uninterp spec fn joined(base: Seq<char>, tail: Seq<char>) -> Seq<char>;

/// Whether two paths are equal as `Path` values.
pub uninterp spec fn same_path(left: Seq<char>, right: Seq<char>) -> bool;

/// `Path::parent` of std. The contract only names the result: the same path
/// always has the same parent, or none.
#[verifier::external_body]
pub(crate) fn parent(path: &str) -> (dir: Option<String>)
    ensures
        dir.is_some() == parent_of(path@).is_some(),
        dir.is_some() ==> dir.unwrap()@ == parent_of(path@).unwrap(),
{
    match std::path::Path::new(path).parent() {
        Some(dir) => Some(dir.to_string_lossy().into_owned()),
        None => None,
    }
}

/// `Path::file_name` of std. The contract only names the result.
#[verifier::external_body]
pub(crate) fn file_name(path: &str) -> (name: Option<String>)
    ensures
        name.is_some() == file_name_of(path@).is_some(),
        name.is_some() ==> name.unwrap()@ == file_name_of(path@).unwrap(),
{
    match std::path::Path::new(path).file_name() {
        Some(name) => Some(name.to_string_lossy().into_owned()),
        None => None,
    }
}

/// `Path::extension` of std. The contract only names the result.
#[verifier::external_body]
pub(crate) fn extension(path: &str) -> (ext: Option<String>)
    ensures
        ext.is_some() == extension_of(path@).is_some(),
        ext.is_some() ==> ext.unwrap()@ == extension_of(path@).unwrap(),
{
    match std::path::Path::new(path).extension() {
        Some(ext) => Some(ext.to_string_lossy().into_owned()),
        None => None,
    }
}

/// `Path::join` of std. The contract only names the result.
#[verifier::external_body]
pub(crate) fn join(base: &str, tail: &str) -> (path: String)
    ensures
        path@ == joined(base@, tail@),
{
    std::path::Path::new(base).join(tail).to_string_lossy().into_owned()
}

/// `==` on two `Path` values of std, which compares them component by
/// component. The contract only names the result.
#[verifier::external_body]
pub(crate) fn is_same(left: &str, right: &str) -> (same: bool)
    ensures
        same == same_path(left@, right@),
{
    std::path::Path::new(left) == std::path::Path::new(right)
}

} // verus!
