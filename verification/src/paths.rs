//! File-system queries and path arithmetic used to locate model files.

use vstd::prelude::*;

verus! {

/// Calls `std::path::Path::exists`. The answer depends on the file system at
/// the moment of the call, so nothing is promised about it.
#[verifier::external_body]
pub(crate) fn path_exists(path: &str) -> (r: bool) {
    std::path::Path::new(path).exists()
}


/// The parent directory of a path, as `std::path::Path::parent` gives it.
pub uninterp spec fn spec_path_parent(path: Seq<char>) -> Option<Seq<char>>;

/// The path `base` extended by `rel`, as `std::path::Path::join` gives it.
pub uninterp spec fn spec_path_join(base: Seq<char>, rel: Seq<char>) -> Seq<char>;

/// Whether `std::path::Path::is_absolute` holds of a path.
pub uninterp spec fn spec_path_is_absolute(path: Seq<char>) -> bool;

/// The final component of a path, as `std::path::Path::file_name` gives it.
pub uninterp spec fn spec_path_file_name(path: Seq<char>) -> Option<Seq<char>>;

/// Calls `Path::parent`; the result is named by `spec_path_parent`.
#[verifier::external_body]
pub(crate) fn path_parent(path: &str) -> (r: Option<String>)
    ensures
        r matches Some(p) ==> spec_path_parent(path@) == Some(p@),
        r is None ==> spec_path_parent(path@) is None,
{
    std::path::Path::new(path).parent().map(|p| p.to_string_lossy().into_owned())
}

/// Calls `Path::join`. Its documentation states that an absolute `rel`
/// replaces `base`; the rest is named by `spec_path_join`.
#[verifier::external_body]
pub(crate) fn path_join(base: &str, rel: &str) -> (r: String)
    ensures
        r@ == spec_path_join(base@, rel@),
        spec_path_is_absolute(rel@) ==> r@ == rel@,
{
    std::path::Path::new(base).join(rel).to_string_lossy().into_owned()
}

/// Calls `Path::is_absolute`; the result is named by `spec_path_is_absolute`.
#[verifier::external_body]
pub(crate) fn path_is_absolute(path: &str) -> (r: bool)
    ensures
        r == spec_path_is_absolute(path@),
{
    std::path::Path::new(path).is_absolute()
}

/// Calls `Path::file_name`; the result is named by `spec_path_file_name`.
#[verifier::external_body]
pub(crate) fn path_file_name(path: &str) -> (r: Option<String>)
    ensures
        r matches Some(p) ==> spec_path_file_name(path@) == Some(p@),
        r is None ==> spec_path_file_name(path@) is None,
{
    std::path::Path::new(path).file_name().map(|p| p.to_string_lossy().into_owned())
}

/// The extension of a path, as `std::path::Path::extension` gives it.
pub uninterp spec fn spec_path_extension(path: Seq<char>) -> Option<Seq<char>>;

/// Calls `Path::extension`; the result is named by `spec_path_extension`.
#[verifier::external_body]
pub(crate) fn path_extension(path: &str) -> (r: Option<String>)
    ensures
        r matches Some(e) ==> spec_path_extension(path@) == Some(e@),
        r is None ==> spec_path_extension(path@) is None,
{
    std::path::Path::new(path).extension().map(|e| e.to_string_lossy().into_owned())
}

} // verus!
