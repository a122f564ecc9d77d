//! Paths, taken apart by `std::path`. Nothing here is proved: each item
//! states what the library takes on trust from the standard library.

use vstd::prelude::*;
use crate::text::opt_text;

verus! {

/// The final component of `path`, as `Path::file_name` gives it, if it has
/// one.
pub uninterp spec fn file_name_of(path: Seq<char>) -> Option<Seq<char>>;

/// What is left of `path` below `base`, as `Path::strip_prefix` gives it,
/// if `path` lies at or below `base`.
pub uninterp spec fn below(path: Seq<char>, base: Seq<char>) -> Option<Seq<char>>;

/// `Path::file_name`: the final component of `path`, which is the name of
/// the directory where `path` is one. Taken on trust: the result depends on
/// `path` alone.
#[verifier::external_body]
pub(crate) fn file_name(path: &str) -> (r: Option<String>)
    ensures
        opt_text(r) == file_name_of(path@),
{
    match std::path::Path::new(path).file_name() {
        Some(name) => Some(name.to_string_lossy().into_owned()),
        None => None,
    }
}

/// `Path::strip_prefix`: `path` without `base` in front, component by
/// component. Taken on trust: the result depends on the two paths alone.
#[verifier::external_body]
pub(crate) fn strip_prefix(path: &str, base: &str) -> (r: Option<String>)
    ensures
        opt_text(r) == below(path@, base@),
{
    match std::path::Path::new(path).strip_prefix(base) {
        Ok(rest) => Some(rest.to_string_lossy().into_owned()),
        Err(_) => None,
    }
}

} // verus!
