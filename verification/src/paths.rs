//! Path operations of the standard library and the user's home directory,
//! on paths held as text.

use vstd::prelude::*;
use crate::text::{chars_of, push_char, push_str};

verus! {

/// A path joined onto a base as `Path::join` does it on Unix: an absolute
/// path replaces the base; otherwise it follows the base after a `/`, which
/// is left out when the base is empty or already ends in `/`.
pub open spec fn joined(base: Seq<char>, rel: Seq<char>) -> Seq<char> {
    if rel.len() > 0 && rel[0] == '/' {
        rel
    } else if base.len() == 0 || base.last() == '/' {
        base + rel
    } else {
        base + seq!['/'] + rel
    }
}

/// What `Path::parent` gives for a path, as text.
pub uninterp spec fn parent_of(path: Seq<char>) -> Option<Seq<char>>;

/// What `Path::file_name` gives for a path, as text.
pub uninterp spec fn file_name_of(path: Seq<char>) -> Option<Seq<char>>;

/// What `Path::strip_prefix` gives for a path and a base, as text.
pub uninterp spec fn stripped_prefix(path: Seq<char>, base: Seq<char>) -> Option<Seq<char>>;

/// What `Path::extension` gives for a path, as text.
pub uninterp spec fn extension_of(path: Seq<char>) -> Option<Seq<char>>;

/// Joins a path onto a base path.
pub(crate) fn path_join(base: &str, rel: &str) -> (r: String)
    ensures
        r@ == joined(base@, rel@),
{
    let rv = chars_of(rel);
    if rv.len() > 0 && rv[0] == '/' {
        return rel.to_owned();
    }
    let bv = chars_of(base);
    let mut r = base.to_owned();
    if bv.len() > 0 && bv[bv.len() - 1] != '/' {
        push_char(&mut r, '/');
    }
    push_str(&mut r, rel);
    assert(r@ =~= joined(base@, rel@));
    r
}

/// `Path::parent`: the path without its last component, or `None` for a
/// root or empty path.
#[verifier::external_body]
pub(crate) fn path_parent(path: &str) -> (r: Option<String>)
    ensures
        r matches Some(p) ==> parent_of(path@) == Some(p@),
        r is None ==> parent_of(path@) is None,
{
    match std::path::Path::new(path).parent() {
        Some(p) => Some(p.to_string_lossy().into_owned()),
        None => None,
    }
}

/// `Path::file_name`: the last component, unless it is `..`.
#[verifier::external_body]
pub(crate) fn path_file_name(path: &str) -> (r: Option<String>)
    ensures
        r matches Some(p) ==> file_name_of(path@) == Some(p@),
        r is None ==> file_name_of(path@) is None,
{
    match std::path::Path::new(path).file_name() {
        Some(n) => Some(n.to_string_lossy().into_owned()),
        None => None,
    }
}

/// `Path::extension`: what follows the last `.` of the file name, if any.
#[verifier::external_body]
pub(crate) fn path_extension(path: &str) -> (r: Option<String>)
    ensures
        r matches Some(p) ==> extension_of(path@) == Some(p@),
        r is None ==> extension_of(path@) is None,
{
    match std::path::Path::new(path).extension() {
        Some(e) => Some(e.to_string_lossy().into_owned()),
        None => None,
    }
}

/// `Path::strip_prefix`: the rest of `path` after the components of `base`,
/// if `path` starts with them.
#[verifier::external_body]
pub(crate) fn path_strip_prefix(path: &str, base: &str) -> (r: Option<String>)
    ensures
        r matches Some(p) ==> stripped_prefix(path@, base@) == Some(p@),
        r is None ==> stripped_prefix(path@, base@) is None,
{
    match std::path::Path::new(path).strip_prefix(base) {
        Ok(p) => Some(p.to_string_lossy().into_owned()),
        Err(_) => None,
    }
}

/// `dirs::home_dir`: the user's home directory, read from the environment;
/// nothing is known of the result.
#[verifier::external_body]
pub(crate) fn home_dir() -> (r: Option<String>) {
    match dirs::home_dir() {
        Some(p) => Some(p.to_string_lossy().into_owned()),
        None => None,
    }
}

} // verus!
