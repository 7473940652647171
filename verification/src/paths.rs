//! Path arithmetic on text: joining a path onto a base and taking a parent.
//!
//! Paths travel through this crate as UTF-8 text. The two operations here are
//! those of the standard library's `Path`, which follow the path rules of the
//! platform the crate is built for; the crate reasons about their results by
//! name only and never looks inside them.
use std::path::Path;
use vstd::prelude::*;

verus! {

/// The path that `Path::join` gives for `path` adjoined to `base`.
pub uninterp spec fn joined_path(base: Seq<char>, path: Seq<char>) -> Seq<char>;

/// The path that `Path::parent` gives for `path`: the path without its final
/// component, or `None` where there is none to drop.
pub uninterp spec fn parent_path(path: Seq<char>) -> Option<Seq<char>>;

/// Calls `Path::join` on `base` with `path`. The contract names the outcome
/// [`joined_path`] and claims nothing else about it.
#[verifier::external_body]
pub(crate) fn join_path(base: &str, path: &str) -> (joined: String)
    ensures
        joined@ == joined_path(base@, path@),
{
    Path::new(base).join(path).to_string_lossy().into_owned()
}

/// Calls `Path::parent` on `path`. The contract names the outcome
/// [`parent_path`] and claims nothing else about it.
#[verifier::external_body]
pub(crate) fn parent_dir(path: &str) -> (parent: Option<String>)
    ensures
        match parent_path(path@) {
            Some(p) => parent is Some && parent->0@ == p,
            None => parent is None,
        },
{
    match Path::new(path).parent() {
        Some(p) => Some(p.to_string_lossy().into_owned()),
        None => None,
    }
}

} // verus!
