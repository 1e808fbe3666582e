//! Text helpers over `String` that the rest of the crate builds messages and
//! names with.

use vstd::prelude::*;

verus! {

/// Appends `tail` to `text`.
///
/// Trusted: calls `String::push_str` of the standard library, which is
/// documented to append the given string slice onto the end of the string.
#[verifier::external_body]
pub(crate) fn push_str(text: &mut String, tail: &str)
    ensures
        final(text)@ == old(text)@ + tail@,
{
    text.push_str(tail)
}

/// Whether every byte is an ASCII byte.
pub open spec fn all_ascii(bytes: Seq<u8>) -> bool {
    forall|i: int| 0 <= i < bytes.len() ==> #[trigger] bytes[i] < 128
}

/// The text whose characters are the given ASCII bytes, one for one.
pub open spec fn ascii_text(bytes: Seq<u8>) -> Seq<char> {
    Seq::new(bytes.len(), |i: int| bytes[i] as char)
}

/// The text that the bytes spell.
///
/// Trusted: calls `String::from_utf8_lossy` of the standard library, which
/// is documented to return valid UTF-8 unchanged. ASCII bytes are valid
/// UTF-8 and each of them encodes the character of the same code, which is
/// all the contract claims; of other input it says nothing.
#[verifier::external_body]
pub(crate) fn utf8_lossy(bytes: &Vec<u8>) -> (text: String)
    ensures
        all_ascii(bytes@) ==> text@ == ascii_text(bytes@),
{
    String::from_utf8_lossy(bytes).into_owned()
}

/// The concatenation of two pieces of text as a fresh `String`.
pub(crate) fn concat(head: &str, tail: &str) -> (text: String)
    ensures
        text@ == head@ + tail@,
{
    let mut text = head.to_owned();
    push_str(&mut text, tail);
    text
}

} // verus!
