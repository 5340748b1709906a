//! What the library takes from outside: the directories of the user, which
//! the crate `dirs` reads from the environment, and the rules of `std::path`
//! for joining, comparing and taking apart paths. Verus believes the
//! contracts in this file without proof.
//!
//! A path is held as its text; where the name of a directory is no valid
//! Unicode, each faulty part of it reads as the replacement character. The
//! directories depend on the environment, so nothing is claimed of them. What `std::path` computes depends on its
//! arguments alone, by the rules for the paths of the system the library is
//! built for: each such result has a name, and no more is claimed of it.

use vstd::prelude::*;

use crate::text::text_of;

verus! {

/// The path that `std::path::Path::join` makes of `base` and `part`.
pub uninterp spec fn joined_path(base: Seq<char>, part: Seq<char>) -> Seq<char>;

/// Whether `std::path::Path` holds the two paths equal, which it decides by
/// their components.
pub uninterp spec fn same_path(first: Seq<char>, second: Seq<char>) -> bool;

/// The last component of `path` as `std::path::Path::file_name` gives it.
pub uninterp spec fn last_component(path: Seq<char>) -> Option<Seq<char>>;

/// Calls `dirs::home_dir`: the home directory of the user, where the
/// environment tells one. Nothing is claimed of the answer.
#[verifier::external_body]
pub(crate) fn home_dir() -> Option<String> {
    match dirs::home_dir() {
        Some(path) => Some(path.to_string_lossy().into_owned()),
        None => None,
    }
}

/// Calls `dirs::desktop_dir`: the desktop directory of the user, where the
/// environment tells one. Nothing is claimed of the answer.
#[verifier::external_body]
pub(crate) fn desktop_dir() -> Option<String> {
    match dirs::desktop_dir() {
        Some(path) => Some(path.to_string_lossy().into_owned()),
        None => None,
    }
}

/// Calls `dirs::document_dir`: the directory of the user's documents, where
/// the environment tells one. Nothing is claimed of the answer.
#[verifier::external_body]
pub(crate) fn document_dir() -> Option<String> {
    match dirs::document_dir() {
        Some(path) => Some(path.to_string_lossy().into_owned()),
        None => None,
    }
}

/// Calls `dirs::download_dir`: the directory of the user's downloads, where
/// the environment tells one. Nothing is claimed of the answer.
#[verifier::external_body]
pub(crate) fn download_dir() -> Option<String> {
    match dirs::download_dir() {
        Some(path) => Some(path.to_string_lossy().into_owned()),
        None => None,
    }
}

/// Calls `std::path::Path::join` on `base` with `part`. The contract gives
/// the result its name, `joined_path`, and claims nothing else.
#[verifier::external_body]
pub(crate) fn join(base: &str, part: &str) -> (joined: String)
    ensures
        joined@ == joined_path(base@, part@),
{
    std::path::Path::new(base).join(part).to_string_lossy().into_owned()
}

/// Compares two paths with the `==` of `std::path::Path`. The contract gives
/// the result its name, `same_path`, and claims nothing else.
#[verifier::external_body]
pub(crate) fn equal_paths(first: &str, second: &str) -> (equal: bool)
    ensures
        equal == same_path(first@, second@),
{
    std::path::Path::new(first) == std::path::Path::new(second)
}

/// Calls `std::path::Path::file_name` on `path`. The contract gives the
/// result its name, `last_component`, and claims nothing else.
#[verifier::external_body]
pub(crate) fn file_name(path: &str) -> (name: Option<String>)
    ensures
        text_of(name) == last_component(path@),
{
    match std::path::Path::new(path).file_name() {
        Some(name) => Some(name.to_string_lossy().into_owned()),
        None => None,
    }
}

} // verus!
