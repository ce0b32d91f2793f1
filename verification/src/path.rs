//! The name under which a directory is shown.

use vstd::prelude::*;
use std::path::Path;

verus! {

/// The last component of `path` as `Path::file_name` gives it, where the
/// path has one.
pub uninterp spec fn file_name_of(path: Seq<char>) -> Option<Seq<char>>;

/// The name that is shown for `path`, given its last component: that
/// component, or the whole path where it has none.
pub open spec fn name_or_path(file_name: Option<Seq<char>>, path: Seq<char>) -> Seq<char> {
    match file_name {
        Some(name) => name,
        None => path,
    }
}

/// Calls `Path::file_name` on `path` and hands the component back as text.
/// The path came as text, so its components are text too. The result is a
/// function of the path.
#[verifier::external_body]
fn file_name(path: &str) -> (name: Option<&str>)
    ensures
        match name {
            Some(n) => file_name_of(path@) == Some(n@),
            None => file_name_of(path@).is_none(),
        },
{
    Path::new(path).file_name().and_then(|n| n.to_str())
}

/// The name that is shown for `path`, given its last component.
pub fn shown_name<'a>(file_name: Option<&'a str>, path: &'a str) -> (name: &'a str)
    ensures
        name@ == name_or_path(
            match file_name {
                Some(n) => Some(n@),
                None => None,
            },
            path@,
        ),
{
    match file_name {
        Some(n) => n,
        None => path,
    }
}

/// The name that is shown for the directory `path`: its last component, or
/// the path as it is where it has none (the empty path, the root, a path
/// that ends in `..`).
pub fn dir_name(path: &str) -> (name: &str)
    ensures
        name@ == name_or_path(file_name_of(path@), path@),
{
    shown_name(file_name(path), path)
}

} // verus!
