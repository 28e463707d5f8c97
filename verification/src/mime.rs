//! Trusted interface to `mime_guess`, used to detect the content type that a
//! document is submitted under.

use vstd::prelude::*;

verus! {

/// What the MIME guesser yields for a file name. The guess is read from a
/// fixed table keyed by the name's extension, so it is a function of the name
/// alone.
pub uninterp spec fn mime_for_name(name: Seq<char>) -> Seq<char>;

/// Relies on `mime_guess::from_path` and `MimeGuess::first_or_octet_stream`:
/// the guess is looked up in a fixed table keyed by the file name's
/// extension, `application/octet-stream` stands in when the table has no
/// entry, and the call never fails.
#[verifier::external_body]
pub fn detect_mime_type(name: &str) -> (r: String)
    ensures
        r@ == mime_for_name(name@),
{
    mime_guess::from_path(name).first_or_octet_stream().to_string()
}

} // verus!
