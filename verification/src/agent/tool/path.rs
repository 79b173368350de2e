//! Paths handed to file tools, kept inside a base directory.
use vstd::prelude::*;

use crate::agent::tool::result::{ExecutionError, ExecutionErrorView};

verus! {

#[verifier::external_type_specification]
#[verifier::external_body]
pub struct ExPathBuf(std::path::PathBuf);

/// `PathBuf::join`: `base` with `part` appended as a further component.
pub uninterp spec fn path_join(base: std::path::PathBuf, part: Seq<char>) -> std::path::PathBuf;

/// `PathBuf::join`; the result is named by [`path_join`].
#[verifier::external_body]
pub(crate) fn join_path(base: &std::path::PathBuf, part: &str) -> (r: std::path::PathBuf)
    ensures
        r == path_join(*base, part@),
{
    base.join(part)
}

/// `s` has a `..` component at `i`: the two dots stand alone between
/// separators (or the ends of the text).
pub open spec fn parent_component_at(s: Seq<char>, i: int) -> bool {
    &&& 0 <= i
    &&& i + 2 <= s.len()
    &&& s[i] == '.'
    &&& s[i + 1] == '.'
    &&& (i == 0 || s[i - 1] == '/')
    &&& (i + 2 == s.len() || s[i + 2] == '/')
}

/// The relative path `s` climbs out of its directory somewhere.
pub open spec fn has_parent_component(s: Seq<char>) -> bool {
    exists|i: int| parent_component_at(s, i)
}

pub open spec fn traversal_error() -> ExecutionErrorView {
    ExecutionErrorView::ExecFail("Path traversal not allowed: path must not contain '..'"@)
}

/// The path starts at the root, so joining it to a base directory would
/// leave the base.
pub open spec fn is_absolute(s: Seq<char>) -> bool {
    s.len() > 0 && s[0] == '/'
}

pub open spec fn absolute_error() -> ExecutionErrorView {
    ExecutionErrorView::ExecFail("Absolute path not allowed: path must be relative to the base directory"@)
}

/// A path that stays inside the base directory when joined to it: the path
/// itself when it is relative and has no `..` component; otherwise the
/// error for an absolute path, or for one that climbs out.
pub open spec fn checked_path(s: Seq<char>) -> Result<Seq<char>, ExecutionErrorView> {
    if is_absolute(s) {
        Err(absolute_error())
    } else if has_parent_component(s) {
        Err(traversal_error())
    } else {
        Ok(s)
    }
}

/// `PathBuf::clone`: a copy of the path, equal to it.
#[verifier::external_body]
pub(crate) fn copy_path(path: &std::path::PathBuf) -> (r: std::path::PathBuf)
    ensures
        r == *path,
{
    path.clone()
}

/// Gives back a plain relative path; refuses an absolute path and one with a
/// `..` component (see [`checked_path`]).
pub fn check_path_traversal(path: &str) -> (r: Result<String, ExecutionError>)
    ensures
        match r {
            Ok(p) => checked_path(path@) == Ok::<Seq<char>, ExecutionErrorView>(p@),
            Err(e) => checked_path(path@) == Err::<Seq<char>, ExecutionErrorView>(e@),
        },
{
    let v = crate::text::chars_of(path);
    let n = v.len();
    if n > 0 && v[0] == '/' {
        return Err(
            ExecutionError::exec_fail(
                "Absolute path not allowed: path must be relative to the base directory".to_owned(),
            ),
        );
    }
    let mut i: usize = 0;
    while i < n
        invariant
            v@ == path@,
            n == v@.len(),
            i <= n,
            !is_absolute(path@),
            forall|k: int| 0 <= k < i ==> !parent_component_at(path@, k),
        decreases n - i,
    {
        if i + 1 < n && v[i] == '.' && v[i + 1] == '.' && (i == 0 || v[i - 1] == '/') && (i + 2 == n || v[i + 2]
            == '/') {
            assert(parent_component_at(path@, i as int));
            return Err(
                ExecutionError::exec_fail(
                    "Path traversal not allowed: path must not contain '..'".to_owned(),
                ),
            );
        }
        i = i + 1;
    }
    assert forall|k: int| !parent_component_at(path@, k) by {
        if 0 <= k && k < i {
        }
    }
    Ok(path.to_owned())
}

} // verus!
