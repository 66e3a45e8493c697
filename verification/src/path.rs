//! What this crate takes from the standard library's file paths.
//!
//! A path is carried as an opaque value: nothing here looks at its components. Operating-system
//! strings (command-line arguments, the values of environment variables) are carried as paths
//! too, because a path holds every such string without loss.

use std::path::PathBuf;
use vstd::prelude::*;

verus! {

/// `std::path::PathBuf`, an owned file path, as an opaque value.
#[verifier::external_type_specification]
#[verifier::external_body]
pub struct ExPathBuf(std::path::PathBuf);

/// `PathBuf::clone` returns the same path.
pub assume_specification[ <std::path::PathBuf as Clone>::clone ](path: &std::path::PathBuf) -> (res:
    std::path::PathBuf)
    ensures
        res == *path,
;

/// The Unicode text of a path, where its contents are valid Unicode.
pub uninterp spec fn path_text(path: PathBuf) -> Option<Seq<char>>;

/// The text of a path in which what is not valid Unicode is replaced.
pub uninterp spec fn path_lossy_text(path: PathBuf) -> Seq<char>;

/// The path without its final component, where it has one.
pub uninterp spec fn path_parent(path: PathBuf) -> Option<PathBuf>;

/// Calls `std::path::Path::to_str`: the text of the path if its contents are valid Unicode,
/// nothing otherwise. Which contents those are is left to the name `path_text`.
#[verifier::external_body]
pub(crate) fn text_of(path: &PathBuf) -> (res: Option<String>)
    ensures
        res is Some <==> path_text(*path) is Some,
        res matches Some(text) ==> path_text(*path) == Some(text@),
{
    path.to_str().map(|text| text.to_owned())
}

/// Calls `std::path::Path::to_string_lossy`: the text of the path, in which every sequence that
/// is not valid Unicode is replaced by U+FFFD. Valid contents come back as they are.
#[verifier::external_body]
pub(crate) fn lossy_text_of(path: &PathBuf) -> (res: String)
    ensures
        res@ == path_lossy_text(*path),
        path_text(*path) matches Some(text) ==> res@ == text,
{
    path.to_string_lossy().into_owned()
}

/// Calls `std::path::Path::parent`: the path without its final component, or nothing if the
/// path ends in a root or a prefix, or is empty.
#[verifier::external_body]
pub(crate) fn parent_of(path: &PathBuf) -> (res: Option<PathBuf>)
    ensures
        res == path_parent(*path),
{
    path.parent().map(|parent| parent.to_path_buf())
}

} // verus!
