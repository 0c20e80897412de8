//! What the library needs of file paths. Paths are held as text; the three
//! operations on them are the standard library's.

use vstd::prelude::*;
use crate::model::text_view;

verus! {

/// The extension of `path` as `std::path::Path::extension` gives it: the part of
/// the file name after its last dot, without the dot, or `None` where the path has
/// no file name or the name has no dot after its first character.
pub uninterp spec fn path_extension(path: Seq<char>) -> Option<Seq<char>>;

/// `path` without its final component, as `std::path::Path::parent` gives it;
/// `None` where `path` ends in a root or is empty.
pub uninterp spec fn path_parent(path: Seq<char>) -> Option<Seq<char>>;

/// `rel` appended to `dir` as `std::path::Path::join` does it.
pub uninterp spec fn path_join(dir: Seq<char>, rel: Seq<char>) -> Seq<char>;

/// Calls `std::path::Path::extension`. Nothing is claimed of the result but that
/// it is the function `path_extension` of the path's text.
#[verifier::external_body]
pub(crate) fn extension(path: &str) -> (r: Option<String>)
    ensures
        text_view(r) == path_extension(path@),
{
    std::path::Path::new(path).extension().and_then(|e| e.to_str()).map(|e| e.to_owned())
}

/// Calls `std::path::Path::parent`. Nothing is claimed of the result but that it
/// is the function `path_parent` of the path's text.
#[verifier::external_body]
pub(crate) fn parent(path: &str) -> (r: Option<String>)
    ensures
        text_view(r) == path_parent(path@),
{
    std::path::Path::new(path).parent().and_then(|p| p.to_str()).map(|p| p.to_owned())
}

/// Calls `std::path::Path::join`. Nothing is claimed of the result but that it is
/// the function `path_join` of the two texts.
#[verifier::external_body]
pub(crate) fn join(dir: &str, rel: &str) -> (r: String)
    ensures
        r@ == path_join(dir@, rel@),
{
    std::path::Path::new(dir).join(rel).to_string_lossy().into_owned()
}

/// The directory that files named beside the model at `path` are looked up in:
/// the parent of `path`, or `./` where it has none.
pub open spec fn model_dir_of(path: Seq<char>) -> Seq<char> {
    match path_parent(path) {
        Some(p) => p,
        None => "./"@,
    }
}

/// The directory of the model at `path`.
pub fn model_dir(path: &str) -> (r: String)
    ensures
        r@ == model_dir_of(path@),
{
    match parent(path) {
        Some(p) => p,
        None => "./".to_owned(),
    }
}

/// Tells whether two texts are the same, character by character.
pub fn same_text(a: &str, b: &str) -> (r: bool)
    ensures
        r == (a@ == b@),
{
    a.to_owned() == b.to_owned()
}

} // verus!
