//! Joining file-system paths, as `std::path::Path::join` joins them.

use vstd::prelude::*;

verus! {

/// The path that `Path::new(base).join(part)` gives, as text. It depends on
/// the two texts alone (and on the platform's separator rules).
pub uninterp spec fn joined_path(base: Seq<char>, part: Seq<char>) -> Seq<char>;

/// `Path::new(base).join(part)`, as text. Both inputs are UTF-8, so the
/// path converts back to text without loss; the result is named, not spelled
/// out, since the separator and the handling of absolute parts are the
/// platform's.
#[verifier::external_body]
pub(crate) fn join_path(base: &str, part: &str) -> (r: String)
    ensures
        r@ == joined_path(base@, part@),
{
    std::path::Path::new(base).join(part).to_string_lossy().into_owned()
}

} // verus!
