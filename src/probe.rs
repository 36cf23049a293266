use vstd::prelude::*;
use crate::path::{components, is_absolute};

verus! {

// What the library learns from the operating system and from std's text
// functions. What a filesystem query returns depends on the state of the
// disk at the moment of the call: the contracts below say only what holds
// of every answer.

/// Why a path could not be resolved.
#[derive(Debug, Clone)]
pub enum ResolveFailure {
    /// Some component of the path does not exist.
    NotFound,
    /// Any other failure, described in words.
    Failed(String),
}

/// A resolved path: absolute, with no `..` component left in it.
pub open spec fn is_resolved(p: Seq<char>) -> bool {
    &&& is_absolute(p)
    &&& forall|i: int| 0 <= i < components(p).len() ==> #[trigger] components(p)[i] != seq!['.', '.']
}

/// Relies on `std::path::Path::canonicalize`, which documents its result as
/// the canonical, absolute form of the path, with every intermediate
/// component normalized and symbolic links resolved. This library's path
/// model is that of Unix (`/`-separated, absolute when it begins with `/`),
/// where the call is `realpath`; on Windows the result would carry a
/// `\\?\` prefix and this contract would not hold. A result that is not
/// valid UTF-8 is reported as a failure that carries its lossy text.
#[verifier::external_body]
pub(crate) fn canonicalize(p: &str) -> (r: std::result::Result<String, ResolveFailure>)
    ensures
        r matches Ok(c) ==> is_resolved(c@),
{
    match std::path::Path::new(p).canonicalize() {
        Ok(c) => match c.into_os_string().into_string() {
            Ok(s) => Ok(s),
            Err(raw) => Err(ResolveFailure::Failed(raw.to_string_lossy().into_owned())),
        },
        Err(e) if e.kind() == std::io::ErrorKind::NotFound => Err(ResolveFailure::NotFound),
        Err(e) => Err(ResolveFailure::Failed(e.to_string())),
    }
}

/// Relies on `std::path::Path::exists`: whether the path names an existing
/// entry, following symbolic links.
#[verifier::external_body]
pub(crate) fn path_exists(p: &str) -> (r: bool) {
    std::path::Path::new(p).exists()
}

/// Relies on `std::path::Path::read_link`, which succeeds exactly when the
/// path names a symbolic link that can be read.
#[verifier::external_body]
pub(crate) fn is_link(p: &str) -> (r: bool) {
    std::path::Path::new(p).read_link().is_ok()
}

/// What `str::to_lowercase` returns for a text.
pub uninterp spec fn lower_of(s: Seq<char>) -> Seq<char>;

/// Relies on `str::to_lowercase`: its result depends on the characters of
/// the text alone.
#[verifier::external_body]
pub(crate) fn lowercase(s: &str) -> (r: String)
    ensures
        r@ == lower_of(s@),
{
    s.to_lowercase()
}

} // verus!
