//! Deciding whether a file counts as text.
//!
//! The verdict comes from the media type that `mime_guess` infers from
//! the path's extension — a heuristic on the name, not a look at the
//! bytes, so a misleading extension misclassifies by design. The full
//! extension table lives in the outside crate; here its verdict is
//! only named, so every contract downstream speaks of `is_text_path`.

use vstd::prelude::*;

verus! {

/// Whether the media type inferred from this path is a `text` type.
/// The verdict of the extension table in `mime_guess`, a function of
/// the path's characters alone; unrecognized extensions map to false.
pub uninterp spec fn is_text_path(path: Seq<char>) -> bool;

/// Relies on `mime_guess::from_path`: the guess is computed from the
/// path's extension alone (no filesystem access), so the verdict is a
/// function of the path's characters. Returns whether the first
/// guessed media type's top level is `text`; a path with no guess
/// yields false.
#[verifier::external_body]
pub(crate) fn guess_is_text(path: &str) -> (r: bool)
    ensures
        r == is_text_path(path@),
{
    match mime_guess::from_path(path).first() {
        Some(mime) => mime.type_() == mime_guess::mime::TEXT,
        None => false,
    }
}

} // verus!
