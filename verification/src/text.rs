//! Text out of bytes.

use vstd::prelude::*;
use vstd::utf8::{decode_utf8, valid_utf8};

verus! {

/// The text that bytes stand for, where each run of bytes that is no UTF-8
/// is replaced by U+FFFD.
pub uninterp spec fn lossy_text(bytes: Seq<u8>) -> Seq<char>;

/// The text of bytes: what they decode to where they are UTF-8, and the
/// text with U+FFFD in the place of what is none where they are not.
pub open spec fn decoded(bytes: Seq<u8>) -> Seq<char> {
    if valid_utf8(bytes) {
        decode_utf8(bytes)
    } else {
        lossy_text(bytes)
    }
}

/// Decodes bytes with `String::from_utf8_lossy`. The contract gives the text
/// a name, the same for the same bytes, and says what the documentation of
/// that function says of bytes that are UTF-8: they are decoded as they are.
/// Nothing is said of what stands in the place of other bytes. None of this
/// is proved.
#[verifier::external_body]
fn decode_lossy(bytes: &Vec<u8>) -> (text: String)
    ensures
        text@ == lossy_text(bytes@),
        valid_utf8(bytes@) ==> text@ == decode_utf8(bytes@),
{
    String::from_utf8_lossy(bytes).into_owned()
}

/// Decodes bytes to text. Bytes that are UTF-8 give the text they encode;
/// in the place of bytes that are not stands U+FFFD.
pub fn text_of(bytes: &Vec<u8>) -> (text: String)
    ensures
        text@ == decoded(bytes@),
        text@ == lossy_text(bytes@),
        valid_utf8(bytes@) ==> text@ == decode_utf8(bytes@),
{
    decode_lossy(bytes)
}

} // verus!
