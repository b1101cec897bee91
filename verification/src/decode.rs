use vstd::prelude::*;

verus! {

/// The character sequence that best-effort (lossy) UTF-8 decoding
/// yields for a byte sequence: valid UTF-8 runs decode to their
/// characters, invalid runs become replacement characters. The result
/// is a function of the bytes alone.
pub uninterp spec fn lossy_utf8(bytes: Seq<u8>) -> Seq<char>;

/// Relies on String::from_utf8_lossy: decoding is total over all byte
/// sequences and depends on the bytes alone; an empty input decodes
/// to the empty string, and a non-empty input decodes to at least one
/// character, since invalid bytes are replaced, never dropped without
/// a substitute.
#[verifier::external_body]
fn from_utf8_lossy(bytes: &[u8]) -> (r: String)
    ensures
        r@ == lossy_utf8(bytes@),
        bytes@.len() == 0 ==> r@.len() == 0,
        bytes@.len() > 0 ==> r@.len() > 0,
{
    String::from_utf8_lossy(bytes).into_owned()
}

/// Best-effort text decoding of raw child output. It never fails,
/// whatever the bytes hold: malformed sequences are substituted, so
/// binary noise still decodes to a (non-empty) text chunk.
pub fn decode_output(bytes: &[u8]) -> (r: String)
    ensures
        r@ == lossy_utf8(bytes@),
        bytes@.len() == 0 ==> r@.len() == 0,
        bytes@.len() > 0 ==> r@.len() > 0,
{
    from_utf8_lossy(bytes)
}

} // verus!
