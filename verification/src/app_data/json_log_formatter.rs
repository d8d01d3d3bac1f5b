//! The message of a log line that was written as a JSON document.

use vstd::prelude::*;
use vstd::string::*;

verus! {

#[verifier::external_type_specification]
#[verifier::external_body]
pub struct ExJsonError(serde_json::Error);

/// What a JSON text holds under a key.
pub enum Member {
    /// The text is no JSON document.
    Invalid,
    /// The document is no object, or the object has no such member.
    Missing,
    /// The member is no string.
    NotText,
    /// The member is this string.
    Text(Seq<char>),
}

/// What serde_json finds under `key` in the JSON text `text`.
pub uninterp spec fn json_member(text: Seq<char>, key: Seq<char>) -> Member;

/// The outcome of a lookup as a `Member`.
pub open spec fn member_of(found: Result<Option<Option<String>>, serde_json::Error>) -> Member {
    match found {
        Err(_) => Member::Invalid,
        Ok(None) => Member::Missing,
        Ok(Some(None)) => Member::NotText,
        Ok(Some(Some(text))) => Member::Text(text@),
    }
}

/// Reads `text` as a JSON value with `serde_json::from_str`, looks `key` up in
/// it with `Value::get`, and reads what is found as a string with
/// `Value::as_str`. The error is that of `from_str`; `get` gives nothing
/// where the value is no object or the object lacks the key; `as_str` gives
/// nothing where the member is no string. The outcome depends on the two texts
/// alone.
#[verifier::external_body]
fn text_member(text: &str, key: &str) -> (found: Result<Option<Option<String>>, serde_json::Error>)
    ensures
        member_of(found) == json_member(text@, key@),
{
    let value: serde_json::Value = serde_json::from_str(text)?;
    Ok(value.get(key).map(|member| member.as_str().map(|message| message.to_owned())))
}

/// What is shown for a document without a message.
pub const INVALID_FORMAT: &'static str = "Invalid Format:: <PUT log_json>";

/// What is shown of a document: its message where that is a string, nothing
/// where it is something else, and a notice where there is none.
pub open spec fn shown_message(member: Member) -> Seq<char> {
    match member {
        Member::Text(message) => message,
        Member::NotText => Seq::<char>::empty(),
        Member::Missing => INVALID_FORMAT@,
        Member::Invalid => Seq::<char>::empty(),
    }
}

/// What is shown for the member `message` of a document, given what the
/// lookup found: nothing where the document lacks the member, nothing inside
/// where the member is no string.
pub fn message_text(found: Option<Option<String>>) -> (formatted: String)
    ensures
        formatted@ == shown_message(member_of(Ok(found))),
{
    match found {
        Some(Some(message)) => message,
        Some(None) => String::new(),
        None => INVALID_FORMAT.to_owned(),
    }
}

/// The message of a log line that is a JSON document.
pub fn json_formatter(log_json: &str) -> (formatted: String)
    requires
        !(json_member(log_json@, "message"@) is Invalid),
    ensures
        formatted@ == shown_message(json_member(log_json@, "message"@)),
{
    match text_member(log_json, "message") {
        Ok(found) => message_text(found),
        Err(_) => String::new(),
    }
}

/// The message of a log line, where the line is a JSON document.
pub fn try_json_formatter(log_json: &str) -> (formatted: Option<String>)
    ensures
        formatted is Some <==> !(json_member(log_json@, "message"@) is Invalid),
        formatted matches Some(text) ==> text@ == shown_message(
            json_member(log_json@, "message"@),
        ),
{
    match text_member(log_json, "message") {
        Ok(_) => Some(json_formatter(log_json)),
        Err(_) => None,
    }
}

} // verus!
