//! Paths as text, and the few questions this crate asks of them.
//!
//! Paths are held as `String`s. How a path falls into components depends on
//! the host's path syntax, which the standard library knows: the questions
//! are put to `std::path`, and their answers are named here so that
//! contracts can speak of them.

use vstd::prelude::*;

verus! {

/// The label shown for a path that has no usable name.
pub const UNKNOWN_NAME: &'static str = "Unknown";

/// The final component of `path` as `std::path::Path::file_name` gives it:
/// `None` where the path ends in `..` or has no component to name.
pub uninterp spec fn path_file_name(path: Seq<char>) -> Option<Seq<char>>;

/// The final component of `path` without its extension, as
/// `std::path::Path::file_stem` gives it.
pub uninterp spec fn path_file_stem(path: Seq<char>) -> Option<Seq<char>>;

/// `base` with `child` adjoined, as `std::path::Path::join` gives it.
pub uninterp spec fn path_joined(base: Seq<char>, child: Seq<char>) -> Seq<char>;

/// An optional string as optional text.
pub open spec fn text_of(s: Option<String>) -> Option<Seq<char>> {
    match s {
        Some(s) => Some(s@),
        None => None,
    }
}

/// A name, or the stand-in where there is none.
pub open spec fn name_or_unknown(name: Option<Seq<char>>) -> Seq<char> {
    match name {
        Some(name) => name,
        None => UNKNOWN_NAME@,
    }
}

/// The label of a launch button: the file name of the script.
pub open spec fn entry_label_text(path: Seq<char>) -> Seq<char> {
    name_or_unknown(path_file_name(path))
}

/// The display name of an executable: the file name without its extension.
pub open spec fn display_name_text(path: Seq<char>) -> Seq<char> {
    name_or_unknown(path_file_stem(path))
}

/// Calls `Path::file_name` on `path`. The result is the function's answer
/// for this path, as text; the contract gives it a name and claims nothing
/// else of it. A component of a path that is text is text itself, so
/// nothing is lost on the way back to a string.
#[verifier::external_body]
pub(crate) fn file_name(path: &str) -> (name: Option<String>)
    ensures
        text_of(name) == path_file_name(path@),
{
    let name = std::path::Path::new(path).file_name()?;
    Some(name.to_str()?.to_owned())
}

/// Calls `Path::file_stem` on `path`. The result is the function's answer
/// for this path, as text; the contract gives it a name and claims nothing
/// else of it. A part of a path that is text is text itself, so nothing is
/// lost on the way back to a string.
#[verifier::external_body]
pub(crate) fn file_stem(path: &str) -> (stem: Option<String>)
    ensures
        text_of(stem) == path_file_stem(path@),
{
    let stem = std::path::Path::new(path).file_stem()?;
    Some(stem.to_str()?.to_owned())
}

/// Calls `Path::join` on `base` with `child`. The result is the function's
/// answer for these two, as text; the contract gives it a name and claims
/// nothing else of it. Two texts joined are text, so nothing is lost on the
/// way back to a string.
#[verifier::external_body]
pub(crate) fn join(base: &str, child: &str) -> (joined: String)
    ensures
        joined@ == path_joined(base@, child@),
{
    std::path::Path::new(base).join(child).to_string_lossy().into_owned()
}

/// A name as an owned string, or the stand-in where there is none.
pub fn or_unknown(name: Option<String>) -> (text: String)
    ensures
        text@ == name_or_unknown(text_of(name)),
{
    match name {
        Some(name) => name,
        None => UNKNOWN_NAME.to_owned(),
    }
}

/// The label of the launch button for `path`: its file name, or `Unknown`
/// where it has none.
pub fn entry_label(path: &str) -> (label: String)
    ensures
        label@ == entry_label_text(path@),
{
    or_unknown(file_name(path))
}

/// The display name for `path`: its file name without the extension, or
/// `Unknown` where it has none.
pub fn display_name(path: &str) -> (name: String)
    ensures
        name@ == display_name_text(path@),
{
    or_unknown(file_stem(path))
}

} // verus!
