//! Paths as text. What a path names on disk, and how the platform takes a
//! path apart, is asked of the standard library; nothing is assumed of the
//! answers.

use vstd::prelude::*;

verus! {

/// `Path::exists`: whether the path names something on disk at the moment
/// of the call.
#[verifier::external_body]
pub(crate) fn path_exists(path: &str) -> bool {
    std::path::Path::new(path).exists()
}

/// `Path::is_file`: whether the path names a regular file on disk at the
/// moment of the call.
#[verifier::external_body]
pub(crate) fn path_is_file(path: &str) -> bool {
    std::path::Path::new(path).is_file()
}

/// `Path::file_stem`: the file name of the path without its extension, as
/// the platform reads the path; nothing if the path has no file name.
#[verifier::external_body]
pub(crate) fn path_file_stem(path: &str) -> Option<String> {
    std::path::Path::new(path).file_stem().map(|s| s.to_string_lossy().into_owned())
}

/// `Path::extension`: the extension of the file name of the path, as the
/// platform reads the path; nothing if there is none.
#[verifier::external_body]
pub(crate) fn path_extension(path: &str) -> Option<String> {
    std::path::Path::new(path).extension().map(|s| s.to_string_lossy().into_owned())
}

/// `Path::with_file_name`: the path with its file name replaced by
/// `file_name`, as the platform reads the path.
#[verifier::external_body]
pub(crate) fn path_with_file_name(path: &str, file_name: &str) -> String {
    std::path::Path::new(path).with_file_name(file_name).to_string_lossy().into_owned()
}

/// `Path::join`: `base` extended by `part`, with the separator of the
/// platform.
#[verifier::external_body]
pub(crate) fn path_join(base: &str, part: &str) -> String {
    std::path::Path::new(base).join(part).to_string_lossy().into_owned()
}

/// The `Debug` form of the path with this text: the text in double quotes,
/// with the characters that need it escaped.
pub uninterp spec fn debug_form(text: Seq<char>) -> Seq<char>;

/// `Debug` for `Path`: the form in which messages quote a path.
#[verifier::external_body]
pub(crate) fn path_debug(path: &str) -> (text: String)
    ensures
        text@ == debug_form(path@),
{
    format!("{:?}", std::path::Path::new(path))
}

} // verus!
