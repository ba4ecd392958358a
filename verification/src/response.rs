//! Decoding of a reassembled reply: bytes to text, text to the result that
//! the caller expects or, failing that, to the error that the daemon reported.
use crate::error::CoreError;
use vstd::prelude::*;
use vstd::utf8::{decode_utf8, valid_utf8};

verus! {

/// What `serde_json` makes of `text` and `key`: the string that the JSON
/// object in `text` holds under `key`; none where `text` is no JSON, the JSON
/// is no object, the object has no such member, or the member is no string.
pub uninterp spec fn json_string_member(text: Seq<char>, key: Seq<char>) -> Option<Seq<char>>;

/// Reads `text` with `serde_json::from_str` as a `serde_json::Value`, looks up
/// `key` with `Value::get` and takes the member as a string with
/// `Value::as_str`. Nothing is proved of the result: it is given the name
/// `json_string_member`, which only says that the same text and key give the
/// same answer.
#[verifier::external_body]
fn string_member(text: &str, key: &str) -> (member: Option<String>)
    ensures
        member.is_some() == json_string_member(text@, key@).is_some(),
        member matches Some(s) ==> json_string_member(text@, key@) == Some(s@),
{
    let value: serde_json::Value = serde_json::from_str(text).ok()?;
    Some(value.get(key)?.as_str()?.to_owned())
}

/// Calls `String::from_utf8`, which gives the text that `bytes` encode, and
/// fails exactly where `bytes` are no valid UTF-8.
#[verifier::external_body]
fn text_of(bytes: Vec<u8>) -> (text: Option<String>)
    ensures
        text.is_some() == valid_utf8(bytes@),
        text matches Some(s) ==> s@ == decode_utf8(bytes@),
{
    String::from_utf8(bytes).ok()
}

/// The text of a reassembled payload.
pub fn payload_text(bytes: Vec<u8>) -> (r: Result<String, CoreError>)
    ensures
        r is Ok == valid_utf8(bytes@),
        r matches Ok(text) ==> text@ == decode_utf8(bytes@),
        r matches Err(e) ==> e == CoreError::Decode,
{
    match text_of(bytes) {
        Some(text) => Ok(text),
        None => Err(CoreError::Decode),
    }
}

/// What a reply amounts to, given what came of reading it as the expected
/// result and what came of reading it as an error reply. The expected result
/// goes first: where it was read, the error reply counts for nothing.
pub open spec fn classify<R>(expected: Result<R, String>, reported: Option<String>) -> Result<
    R,
    CoreError,
> {
    match expected {
        Ok(value) => Ok(value),
        Err(detail) => match reported {
            Some(message) => Err(CoreError::Server(message)),
            None => Err(CoreError::Protocol(detail)),
        },
    }
}

/// The order in which a reply is interpreted: a reply that reads as the
/// expected result is that result whatever else it reads as; one that does
/// not, and reads as an error reply, is the daemon's error with the message of
/// the reply; one that reads as neither is a protocol error that carries why
/// it is not the expected result.
pub proof fn lemma_decode_precedence<R>(
    value: R,
    detail: String,
    message: String,
    reported: Option<String>,
)
    ensures
        classify(Ok::<R, String>(value), reported) == Ok::<R, CoreError>(value),
        classify(Err::<R, String>(detail), Some(message)) == Err::<R, CoreError>(
            CoreError::Server(message),
        ),
        classify(Err::<R, String>(detail), None) == Err::<R, CoreError>(
            CoreError::Protocol(detail),
        ),
{
}

/// What a reply amounts to, given both readings of it.
pub fn classify_response<R>(expected: Result<R, String>, reported: Option<String>) -> (r: Result<
    R,
    CoreError,
>)
    ensures
        r == classify(expected, reported),
{
    match expected {
        Ok(value) => Ok(value),
        Err(detail) => match reported {
            Some(message) => Err(CoreError::Server(message)),
            None => Err(CoreError::Protocol(detail)),
        },
    }
}

/// The message of the error reply that `text` holds, if it holds one: a JSON
/// object with a string member `error`.
pub fn server_error_message(text: &str) -> (message: Option<String>)
    ensures
        message.is_some() == json_string_member(text@, "error"@).is_some(),
        message matches Some(m) ==> json_string_member(text@, "error"@) == Some(m@),
{
    string_member(text, "error")
}

/// What the reply `text` amounts to, given what came of reading it as the
/// expected result. Only where that failed is the text read as an error reply.
pub fn decode_response<R>(text: &str, expected: Result<R, String>) -> (r: Result<R, CoreError>)
    ensures
        match expected {
            Ok(value) => r == Ok::<R, CoreError>(value),
            Err(detail) => match json_string_member(text@, "error"@) {
                Some(message) => r matches Err(CoreError::Server(m)) && m@ == message,
                None => r == Err::<R, CoreError>(CoreError::Protocol(detail)),
            },
        },
{
    match expected {
        Ok(value) => Ok(value),
        Err(detail) => classify_response(Err(detail), server_error_message(text)),
    }
}

} // verus!
