//! The parts of a file system path that the windows show, as `std::path`
//! computes them.

use vstd::prelude::*;

verus! {

/// What `Path::file_name` gives for `path` (its last normal component).
pub uninterp spec fn path_file_name(path: Seq<char>) -> Option<Seq<char>>;

/// What `Path::file_stem` gives for `path` (the file name without its extension).
pub uninterp spec fn path_file_stem(path: Seq<char>) -> Option<Seq<char>>;

/// What `Path::extension` gives for `path`.
pub uninterp spec fn path_extension(path: Seq<char>) -> Option<Seq<char>>;

/// The last component of `path` (`Path::file_name`), as text.
#[verifier::external_body]
pub(crate) fn file_name(path: &str) -> (r: Option<String>)
    ensures
        r is Some <==> path_file_name(path@) is Some,
        r matches Some(n) ==> n@ == path_file_name(path@).unwrap(),
{
    std::path::Path::new(path).file_name().map(|s| s.to_string_lossy().to_string())
}

/// The file name of `path` without its extension (`Path::file_stem`), as text.
#[verifier::external_body]
pub(crate) fn file_stem(path: &str) -> (r: Option<String>)
    ensures
        r is Some <==> path_file_stem(path@) is Some,
        r matches Some(n) ==> n@ == path_file_stem(path@).unwrap(),
{
    std::path::Path::new(path).file_stem().map(|s| s.to_string_lossy().to_string())
}

/// The extension of `path` (`Path::extension`), as text.
#[verifier::external_body]
pub(crate) fn extension(path: &str) -> (r: Option<String>)
    ensures
        r is Some <==> path_extension(path@) is Some,
        r matches Some(n) ==> n@ == path_extension(path@).unwrap(),
{
    std::path::Path::new(path).extension().map(|s| s.to_string_lossy().to_string())
}

/// What `Path::parent` gives for `path`.
pub uninterp spec fn path_parent(path: Seq<char>) -> Option<Seq<char>>;

/// The components of `path` as `Path::components` yields them, each as text
/// (the root directory is `"/"`).
pub uninterp spec fn path_components(path: Seq<char>) -> Seq<Seq<char>>;

/// What `str::to_lowercase` gives for `s`.
pub uninterp spec fn lowercase(s: Seq<char>) -> Seq<char>;

/// The directory that contains `path` (`Path::parent`), as text.
#[verifier::external_body]
pub(crate) fn parent(path: &str) -> (r: Option<String>)
    ensures
        r is Some <==> path_parent(path@) is Some,
        r matches Some(n) ==> n@ == path_parent(path@).unwrap(),
{
    std::path::Path::new(path).parent().map(|p| p.to_string_lossy().to_string())
}

/// The components of `path` (`Path::components`), each as text.
#[verifier::external_body]
pub(crate) fn components(path: &str) -> (r: Vec<String>)
    ensures
        r@.map_values(|c: String| c@) == path_components(path@),
{
    std::path::Path::new(path).components().map(|c| c.as_os_str().to_string_lossy().to_string()).collect()
}

/// `s` in lower case (`str::to_lowercase`).
#[verifier::external_body]
pub(crate) fn to_lowercase(s: &str) -> (r: String)
    ensures
        r@ == lowercase(s@),
{
    s.to_lowercase()
}

/// What `Path::join` gives for `base` and `rel` (`rel` itself when it is
/// absolute), as text.
pub uninterp spec fn path_join(base: Seq<char>, rel: Seq<char>) -> Seq<char>;

/// `rel` resolved against `base` (`Path::join`), as text.
#[verifier::external_body]
pub(crate) fn join(base: &str, rel: &str) -> (r: String)
    ensures
        r@ == path_join(base@, rel@),
{
    std::path::Path::new(base).join(rel).to_string_lossy().to_string()
}

} // verus!
