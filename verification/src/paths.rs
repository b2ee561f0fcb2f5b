//! Paths, as texts. The rules by which a platform joins and splits paths are
//! those of the standard library; this module gives their results a name and
//! hands the work to it.

use vstd::prelude::*;

verus! {

/// The path that `std::path::Path::join` gives for a path and what is to be
/// added to it, on the platform that the crate is built for.
pub uninterp spec fn joined(base: Seq<char>, part: Seq<char>) -> Seq<char>;

/// The path that `std::path::Path::with_extension` gives for a path and an
/// extension, on the platform that the crate is built for.
pub uninterp spec fn with_extension(path: Seq<char>, extension: Seq<char>) -> Seq<char>;

/// The path that `std::path::Path::parent` gives for a path, on the platform
/// that the crate is built for: the path without its last component, or
/// nothing where it has none to lose.
pub uninterp spec fn parent_of(path: Seq<char>) -> Option<Seq<char>>;

/// `std::path::Path::join` on texts: `part` is added to `base` as the
/// platform adds a path to a path. Both are texts, so the result is one.
#[verifier::external_body]
pub(crate) fn join(base: &str, part: &str) -> (r: String)
    ensures
        r@ == joined(base@, part@),
{
    std::path::Path::new(base).join(part).to_string_lossy().into_owned()
}

/// Whether a character separates the parts of a path on some platform.
pub open spec fn is_separator(c: char) -> bool {
    c == '/' || c == '\\'
}

/// `std::path::Path::with_extension` on texts: the path with the extension
/// of its last component set to `extension`. The standard library panics on
/// an extension that holds a separator, so none is taken.
#[verifier::external_body]
pub(crate) fn set_extension(path: &str, extension: &str) -> (r: String)
    requires
        forall|i: int| 0 <= i < extension@.len() ==> !is_separator(#[trigger] extension@[i]),
    ensures
        r@ == with_extension(path@, extension@),
{
    std::path::Path::new(path).with_extension(extension).to_string_lossy().into_owned()
}

/// `std::path::Path::parent` on texts. The parent is the path without its
/// last component, so it is shorter than the path.
#[verifier::external_body]
pub(crate) fn parent(path: &str) -> (r: Option<String>)
    ensures
        r is Some <==> parent_of(path@) is Some,
        r matches Some(p) ==> parent_of(path@) == Some(p@) && p@.len() < path@.len(),
{
    std::path::Path::new(path).parent().map(|p| p.to_string_lossy().into_owned())
}

} // verus!
