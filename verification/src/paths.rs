//! Filesystem path arithmetic from `std::path`, on paths held as text.
use vstd::prelude::*;

verus! {

/// What `Path::new(base).join(part)` gives, as text.
pub uninterp spec fn path_join(base: Seq<char>, part: Seq<char>) -> Seq<char>;

/// What `Path::new(path).extension()` gives, as text.
pub uninterp spec fn path_extension(path: Seq<char>) -> Option<Seq<char>>;

/// Calls `Path::join`. The joined path of two UTF-8 paths is UTF-8, so the
/// lossy conversion back to text is exact; the result is named, not spelled out.
#[verifier::external_body]
pub(crate) fn join_path(base: &str, part: &str) -> (r: String)
    ensures
        r@ == path_join(base@, part@),
{
    std::path::Path::new(base).join(part).to_string_lossy().into_owned()
}

/// Calls `Path::extension`; an extension that is not UTF-8 counts as none,
/// as `OsStr::to_str` gives. The result is named, not spelled out.
#[verifier::external_body]
pub(crate) fn extension_of(path: &str) -> (r: Option<String>)
    ensures
        match r {
            Some(e) => path_extension(path@) == Some(e@),
            None => path_extension(path@) is None,
        },
{
    std::path::Path::new(path).extension().and_then(|e| e.to_str()).map(|e| e.to_string())
}

} // verus!
