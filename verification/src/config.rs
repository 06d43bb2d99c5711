//! The build configuration file: its default name and its text.

use crate::error::{result_view, IoError, IoErrorView, YabsError, YabsErrorView};
use crate::text::{decode_text, text_of};
use vstd::prelude::*;
use vstd::string::StringExecFns;

verus! {

/// The name that `std::path::Path::file_name` finds in a path written as
/// text: the last component of the path, or `None` where the path has no
/// last component to name, as the root has none. It depends on the text of
/// the path and on nothing else.
pub uninterp spec fn path_file_name(path: Seq<char>) -> Option<Seq<char>>;

/// Calls `std::path::Path::file_name` on `dir` read as a path, and hands the
/// name back as text. Nothing is claimed of the name but that it is the one
/// that std finds.
#[verifier::external_body]
fn file_name(dir: &str) -> (name: Option<String>)
    ensures
        name.deep_view() == path_file_name(dir@),
{
    match std::path::Path::new(dir).file_name() {
        Some(name) => Some(name.to_string_lossy().into_owned()),
        None => None,
    }
}

/// The default configuration file name for a directory with the given name:
/// the name with `.toml` behind it, and none where the directory has no
/// name.
pub open spec fn assumed_filename(dir_name: Option<Seq<char>>) -> Option<Seq<char>> {
    match dir_name {
        Some(dir_name) => Some(dir_name + ".toml"@),
        None => None,
    }
}

/// Names the default configuration file for a directory of the given name,
/// by putting `.toml` behind it.
pub fn filename_for_dir_name(dir_name: Option<String>) -> (name: Option<String>)
    ensures
        name.deep_view() == assumed_filename(dir_name.deep_view()),
{
    match dir_name {
        Some(dir_name) => Some(dir_name.concat(".toml")),
        None => None,
    }
}

/// The default configuration file name for the directory `dir`: the last
/// component of its path followed by `.toml`.
///
/// There is none for a path without a last component, such as the root.
pub fn get_assumed_filename_for_dir(dir: &str) -> (name: Option<String>)
    ensures
        name.deep_view() == assumed_filename(path_file_name(dir@)),
{
    filename_for_dir_name(file_name(dir))
}

/// The default configuration file name for the current directory: that of
/// the directory where there is one, and none where the system could not
/// tell it.
pub open spec fn assumed_filename_in(current_dir: Option<Seq<char>>) -> Option<Seq<char>> {
    match current_dir {
        Some(dir) => assumed_filename(path_file_name(dir)),
        None => None,
    }
}

/// The default configuration file name for the current directory, which is
/// `None` where the system could not tell it.
pub fn get_assumed_filename(current_dir: Option<&str>) -> (name: Option<String>)
    ensures
        name.deep_view() == assumed_filename_in(current_dir.deep_view()),
{
    match current_dir {
        Some(dir) => get_assumed_filename_for_dir(dir),
        None => None,
    }
}

/// The text of a file, given what reading it gave: the text that the bytes
/// encode, or the failure to open or read the file.
pub open spec fn file_text(contents: Result<Seq<u8>, IoErrorView>) -> Result<
    Seq<char>,
    YabsErrorView,
> {
    match contents {
        Ok(bytes) => text_of(bytes),
        Err(failure) => Err(YabsErrorView::Io(failure)),
    }
}

/// The text of a configuration file, from what reading the file gave.
///
/// A failure to open or read the file is handed on. Bytes that were read are
/// the file's text exactly when they are well-formed UTF-8.
pub fn parse_toml_file(contents: Result<Vec<u8>, IoError>) -> (text: Result<String, YabsError>)
    ensures
        result_view(text) == file_text(result_view(contents)),
{
    match contents {
        Ok(bytes) => decode_text(bytes),
        Err(failure) => Err(YabsError::Io(failure)),
    }
}

} // verus!
