//! Joining file-system paths held as text, as `Path::join` does.

use vstd::prelude::*;

verus! {

/// `base` joined with `part` by `Path::join`, by the path syntax of the
/// platform the program is built for.
pub uninterp spec fn joined(base: Seq<char>, part: Seq<char>) -> Seq<char>;

/// Calls `std::path::Path::join` on `base` and `part` and hands the result
/// out as text (two `str`s join to valid text on every platform). The
/// result is named `joined`; the separator and the handling of absolute
/// parts are the platform's, so no more is stated.
#[verifier::external_body]
pub(crate) fn join_path(base: &str, part: &str) -> (r: String)
    ensures
        r@ == joined(base@, part@),
{
    std::path::Path::new(base).join(part).to_string_lossy().into_owned()
}

} // verus!
