//! Texts out of bytes.
use vstd::prelude::*;
use vstd::utf8::{decode_utf8, encode_utf8, is_ascii_chars, valid_utf8};

verus! {

/// Why bytes are no text.
#[verifier::external_type_specification]
#[verifier::external_body]
pub struct ExFromUtf8Error(std::string::FromUtf8Error);

/// Specifies `String::from_utf8` of std.
///
/// Taken on trust: it succeeds exactly on valid UTF-8, and gives the text that the bytes encode.
pub assume_specification[ String::from_utf8 ](vec: Vec<u8>) -> (text: Result<
    String,
    std::string::FromUtf8Error,
>)
    ensures
        match text {
            Ok(text) => valid_utf8(vec@) && text@ == decode_utf8(vec@),
            Err(_) => !valid_utf8(vec@),
        },
;

/// The characters that bytes of ASCII stand for.
pub open spec fn ascii_chars(bytes: Seq<u8>) -> Seq<char> {
    Seq::new(bytes.len(), |i: int| bytes[i] as char)
}

/// Turns bytes of ASCII into a text, one character for each.
pub fn ascii_string(bytes: Vec<u8>) -> (text: String)
    requires
        forall|i: int| 0 <= i < bytes@.len() ==> bytes@[i] < 128,
    ensures
        text@ == ascii_chars(bytes@),
{
    proof {
        let chars = ascii_chars(bytes@);
        assert(is_ascii_chars(chars));
        vstd::utf8::is_ascii_chars_encode_utf8(chars);
        assert(encode_utf8(chars) =~= bytes@);
        vstd::utf8::encode_utf8_valid_utf8(chars);
        vstd::utf8::encode_utf8_decode_utf8(chars);
    }
    match String::from_utf8(bytes) {
        Ok(text) => text,
        Err(_) => String::new(),
    }
}

/// Bytes of ASCII and the text made of them have the same UTF-8.
pub proof fn law_ascii_text_keeps_its_bytes(bytes: Seq<u8>)
    requires
        forall|i: int| 0 <= i < bytes.len() ==> bytes[i] < 128,
    ensures
        encode_utf8(ascii_chars(bytes)) == bytes,
        ascii_chars(bytes).len() == bytes.len(),
{
    let chars = ascii_chars(bytes);
    assert(is_ascii_chars(chars));
    vstd::utf8::is_ascii_chars_encode_utf8(chars);
    assert(encode_utf8(chars) =~= bytes);
}

} // verus!
