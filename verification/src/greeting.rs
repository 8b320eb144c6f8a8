//! What two connected peers tell each other over each stream.
use crate::message::MAX_STREAM_LEN;
use vstd::prelude::*;
use vstd::string::StringExecFns;
use vstd::utf8::{decode_utf8, encode_utf8, valid_utf8};

verus! {

/// Which side opened a stream.
#[derive(Clone, Copy, Debug, PartialEq, Eq, Structural)]
pub enum Opener {
    /// The other side did.
    Remote,
    /// This side did.
    Local,
}

/// The name of the call by which a side came to a stream.
pub open spec fn call_name(opener: Opener) -> Seq<char> {
    match opener {
        Opener::Remote => "accept_bi"@,
        Opener::Local => "open_bi"@,
    }
}

/// The greeting that a side sends over a stream. `local_ip` and `remote_addr` are the addresses of
/// the connection as they are shown to people.
pub fn greeting(name: &str, opener: Opener, local_ip: &str, remote_addr: &str) -> (text: String)
    ensures
        text@ == "Hello! "@ + name@ + " speaking on "@ + call_name(opener) + " from "@ + local_ip@
            + " to "@ + remote_addr@,
{
    let call = match opener {
        Opener::Remote => "accept_bi",
        Opener::Local => "open_bi",
    };
    "Hello! ".to_owned().concat(name).concat(" speaking on ").concat(call).concat(" from ").concat(
        local_ip,
    ).concat(" to ").concat(remote_addr)
}

/// Why the other side's greeting cannot be shown.
#[derive(Debug)]
pub enum GreetingError {
    /// The stream holds more than [`MAX_STREAM_LEN`] bytes.
    TooLong,
    /// The bytes are not UTF-8.
    NotText(std::string::FromUtf8Error),
}

/// The greeting that a stream with this content brings.
pub open spec fn received_greeting(stream: Seq<u8>) -> Option<Seq<char>> {
    if stream.len() <= MAX_STREAM_LEN && valid_utf8(stream) {
        Some(decode_utf8(stream))
    } else {
        None
    }
}

/// Reads the greeting of the other side, given the whole content of the stream that brought it.
pub fn read_greeting(stream: Vec<u8>) -> (text: Result<String, GreetingError>)
    ensures
        match text {
            Ok(text) => received_greeting(stream@) == Some(text@),
            Err(GreetingError::TooLong) => stream@.len() > MAX_STREAM_LEN,
            Err(GreetingError::NotText(_)) => stream@.len() <= MAX_STREAM_LEN && !valid_utf8(
                stream@,
            ),
        },
{
    if stream.len() > MAX_STREAM_LEN {
        return Err(GreetingError::TooLong);
    }
    match String::from_utf8(stream) {
        Ok(text) => Ok(text),
        Err(err) => Err(GreetingError::NotText(err)),
    }
}

/// A greeting whose bytes fit in a stream is shown to the other side as it was written; a longer
/// one is not shown.
pub proof fn law_greeting_arrives(text: Seq<char>)
    ensures
        received_greeting(encode_utf8(text)) == (if encode_utf8(text).len() <= MAX_STREAM_LEN {
            Some(text)
        } else {
            None
        }),
{
    vstd::utf8::encode_utf8_valid_utf8(text);
    vstd::utf8::encode_utf8_decode_utf8(text);
}

/// Which call a greeting names tells who opened the stream.
pub proof fn law_call_names()
    ensures
        call_name(Opener::Remote) == "accept_bi"@,
        call_name(Opener::Local) == "open_bi"@,
        call_name(Opener::Remote) != call_name(Opener::Local),
{
    reveal_strlit("accept_bi");
    reveal_strlit("open_bi");
    assert("accept_bi"@.len() != "open_bi"@.len());
}

/// A stream brings a text exactly where its content is the UTF-8 of that text and has at most 1024
/// bytes.
pub proof fn law_what_is_shown(stream: Seq<u8>, text: Seq<char>)
    ensures
        received_greeting(stream) == Some(text) <==> stream.len() <= 1024 && stream == encode_utf8(
            text,
        ),
{
    vstd::utf8::encode_utf8_valid_utf8(text);
    vstd::utf8::encode_utf8_decode_utf8(text);
    if valid_utf8(stream) {
        vstd::utf8::decode_utf8_encode_utf8(stream);
    }
}

} // verus!
