//! Names for clients that were given none.
use crate::text::ascii_string;
use rand::Rng;
use vstd::prelude::*;

verus! {

/// The number of characters of a random name.
pub const RANDOM_STRING_LEN: usize = 30;

/// The byte is an ASCII letter or digit.
pub open spec fn is_alphanumeric(byte: u8) -> bool {
    ||| 'A' as u8 <= byte <= 'Z' as u8
    ||| 'a' as u8 <= byte <= 'z' as u8
    ||| '0' as u8 <= byte <= '9' as u8
}

/// The text consists of as many letters and digits as a random name has.
pub open spec fn is_random_string(text: Seq<char>) -> bool {
    &&& text.len() == RANDOM_STRING_LEN
    &&& forall|i: int|
        0 <= i < text.len() ==> (#[trigger] text[i] as u32) < 128 && is_alphanumeric(text[i] as u8)
}

/// Draws a byte with `rand::Rng::sample` from `rand::thread_rng` and the distribution
/// `rand::distributions::Alphanumeric`.
///
/// Taken on trust: every outcome is an ASCII letter or digit. Which one it is, and that all are
/// equally likely, is left to chance and not stated.
#[verifier::external_body]
fn sample_alphanumeric() -> (byte: u8)
    ensures
        is_alphanumeric(byte),
{
    rand::thread_rng().sample(rand::distributions::Alphanumeric)
}

/// A random text of 30 letters and digits.
pub fn random_string() -> (text: String)
    ensures
        is_random_string(text@),
{
    let mut bytes: Vec<u8> = Vec::new();
    while bytes.len() < RANDOM_STRING_LEN
        invariant
            bytes@.len() <= RANDOM_STRING_LEN,
            forall|i: int| 0 <= i < bytes@.len() ==> is_alphanumeric(#[trigger] bytes@[i]),
        decreases RANDOM_STRING_LEN - bytes@.len(),
    {
        let byte: u8 = sample_alphanumeric();
        bytes.push(byte);
    }
    ascii_string(bytes)
}

proof fn lemma_letter_or_digit(c: char)
    requires
        (c as u32) < 128,
        is_alphanumeric(c as u8),
    ensures
        '0' <= c <= '9' || 'A' <= c <= 'Z' || 'a' <= c <= 'z',
{
}

/// A random name consists of 30 characters, each an upper or lower case letter or a digit, and as
/// many bytes: it fits in every message that carries a name.
pub proof fn law_random_names(text: Seq<char>)
    requires
        is_random_string(text),
    ensures
        text.len() == 30,
        forall|i: int|
            0 <= i < text.len() ==> ('0' <= #[trigger] text[i] <= '9' || 'A' <= text[i] <= 'Z' || 'a'
                <= text[i] <= 'z'),
        vstd::utf8::encode_utf8(text).len() == 30,
        vstd::utf8::encode_utf8(text).len() <= crate::message::max_peer_id_len(),
{
    assert forall|i: int| 0 <= i < text.len() implies '\0' <= #[trigger] text[i] <= '\u{7f}' by {
        lemma_letter_or_digit(text[i]);
    }
    assert forall|i: int| 0 <= i < text.len() implies ('0' <= #[trigger] text[i] <= '9' || 'A'
        <= text[i] <= 'Z' || 'a' <= text[i] <= 'z') by {
        lemma_letter_or_digit(text[i]);
    }
    assert(vstd::utf8::is_ascii_chars(text));
    vstd::utf8::is_ascii_chars_encode_utf8(text);
}

} // verus!
