//! Byte-to-text conversion at the host boundary.
//!
//! Values come back from the engine as raw bytes; the text-returning
//! calls hand them to the host as strings, replacing invalid sequences.

use vstd::prelude::*;

verus! {

/// The text a byte string decodes to, invalid sequences replaced; a
/// function of the bytes alone.
pub uninterp spec fn lossy_utf8(bytes: Seq<u8>) -> Seq<char>;

/// Relies on String::from_utf8_lossy: decodes bytes to text, replacing
/// invalid sequences; the result is a function of the bytes alone.
#[verifier::external_body]
pub(crate) fn utf8_lossy(b: &Vec<u8>) -> (s: String)
    ensures
        s@ == lossy_utf8(b@),
{
    String::from_utf8_lossy(b).to_string()
}

} // verus!
