//! What is known of `std::path::PathBuf`.

use std::path::PathBuf;

use vstd::prelude::*;

verus! {

/// `std::path::PathBuf`: a path, which need not be valid Unicode.
#[verifier::external_type_specification]
#[verifier::external_body]
pub struct ExPathBuf(PathBuf);

/// The text that `Path::display` shows for a path.
pub uninterp spec fn path_text(path: PathBuf) -> Seq<char>;

/// The path that `PathBuf::from` makes of a text.
pub uninterp spec fn path_named(text: Seq<char>) -> PathBuf;

/// `PathBuf::from` on a string slice: the path depends on the text alone, and since the text
/// is Unicode the path is shown as that text.
#[verifier::external_body]
pub(crate) fn path_from(text: &str) -> (path: PathBuf)
    ensures
        path == path_named(text@),
        path_text(path) == text@,
{
    PathBuf::from(text)
}

/// `Path::display`: the text depends on the path alone.
#[verifier::external_body]
pub(crate) fn show_path(path: &PathBuf) -> (text: String)
    ensures
        text@ == path_text(*path),
{
    path.display().to_string()
}

/// `PathBuf::clone`: the same path once more.
pub assume_specification[ <PathBuf as Clone>::clone ](path: &PathBuf) -> (copy: PathBuf)
    ensures
        copy == *path,
;

/// `Path::is_dir`: asks the file system, so nothing is known of the answer.
#[verifier::external_body]
pub(crate) fn is_directory(path: &PathBuf) -> (directory: bool) {
    path.is_dir()
}

} // verus!
