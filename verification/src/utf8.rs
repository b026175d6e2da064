//! Bytes as text.

use vstd::prelude::*;
use vstd::utf8::*;

verus! {

/// The text that `String::from_utf8_lossy` makes of bytes that are no UTF-8.
pub uninterp spec fn utf8_replaced(bytes: Seq<u8>) -> Seq<char>;

/// The text of `bytes`: what they encode where they are UTF-8, and what stands in for it where
/// they are not.
pub open spec fn lossy_text(bytes: Seq<u8>) -> Seq<char> {
    if valid_utf8(bytes) {
        decode_utf8(bytes)
    } else {
        utf8_replaced(bytes)
    }
}

/// `String::from_utf8_lossy`: of UTF-8 it gives the text that the bytes encode, and of any other
/// bytes a text that the bytes alone decide, in which replacement characters stand for what is no
/// UTF-8. Which text that is, is not stated.
#[verifier::external_body]
pub(crate) fn from_utf8_lossy(bytes: &[u8]) -> (text: String)
    ensures
        text@ == (if valid_utf8(bytes@) {
            decode_utf8(bytes@)
        } else {
            utf8_replaced(bytes@)
        }),
{
    String::from_utf8_lossy(bytes).into_owned()
}

/// `std::str::from_utf8`: a slice of bytes is text if and only if it is valid UTF-8, and the text
/// is then the one that the bytes encode.
#[verifier::external_body]
pub(crate) fn from_utf8(bytes: &[u8]) -> (text: Option<&str>)
    ensures
        match text {
            Some(t) => valid_utf8(bytes@) && t@ == decode_utf8(bytes@),
            None => !valid_utf8(bytes@),
        },
{
    std::str::from_utf8(bytes).ok()
}

/// `bytes` as text, for a message.
pub fn text_of(bytes: &[u8]) -> (text: String)
    ensures
        text@ == lossy_text(bytes@),
{
    from_utf8_lossy(bytes)
}

/// Bytes that encode a text are shown as that text, and bytes that are a text encode what is shown.
pub proof fn law_encoded_text_is_shown(text: Seq<char>, bytes: Seq<u8>)
    ensures
        lossy_text(encode_utf8(text)) == text,
        valid_utf8(bytes) ==> encode_utf8(lossy_text(bytes)) == bytes,
{
    encode_utf8_valid_utf8(text);
    encode_utf8_decode_utf8(text);
    if valid_utf8(bytes) {
        decode_utf8_encode_utf8(bytes);
    }
}

} // verus!
