//! Reading the reply text and the token usage out of a decoded completion response.
use vstd::prelude::*;
use vstd::string::StringExecFns;
use crate::json::JsonValue;

verus! {

/// What `str::trim` leaves of a text.
pub uninterp spec fn trimmed(s: Seq<char>) -> Seq<char>;

/// Relies on `str::trim`: the text without its leading and trailing whitespace.
#[verifier::external_body]
pub(crate) fn trim_text(s: &str) -> (r: String)
    ensures
        r@ == trimmed(s@),
{
    s.trim().to_string()
}

/// `choices[0].message.content`, where it is a string.
pub open spec fn reply_content(response: JsonValue) -> Option<Seq<char>> {
    match response.spec_field("choices"@) {
        Some(choices) => match choices.spec_at(0) {
            Some(choice) => match choice.spec_field("message"@) {
                Some(message) => match message.spec_field("content"@) {
                    Some(content) => content.spec_text(),
                    None => None,
                },
                None => None,
            },
            None => None,
        },
        None => None,
    }
}

/// The reply as it is shown and kept: the content, trimmed.
pub open spec fn reply_text(response: JsonValue) -> Option<Seq<char>> {
    match reply_content(response) {
        Some(content) => Some(trimmed(content)),
        None => None,
    }
}

/// `usage.total_tokens`, where it is an unsigned integer.
pub open spec fn usage_tokens(response: JsonValue) -> Option<u64> {
    match response.spec_field("usage"@) {
        Some(usage) => match usage.spec_field("total_tokens"@) {
            Some(total) => total.spec_u64(),
            None => None,
        },
        None => None,
    }
}

/// Why a response could not be read. Each variant keeps the raw response,
/// so that the diagnostic can show it.
#[derive(Debug)]
pub enum ExtractionError {
    /// `choices[0].message.content` is absent or not a string.
    MissingReply(JsonValue),
    /// `usage.total_tokens` is absent or not an unsigned integer.
    MissingUsage(JsonValue),
    /// The usage would carry the session's token count past `u64::MAX`.
    UsageOverflow(JsonValue),
}

/// The trimmed reply text of a response.
pub fn get_response_text(response: &JsonValue) -> (r: Option<String>)
    ensures
        r.is_some() == reply_text(*response).is_some(),
        r.is_some() ==> r.unwrap()@ == reply_text(*response).unwrap(),
{
    let choices_key = String::from_str("choices");
    let message_key = String::from_str("message");
    let content_key = String::from_str("content");
    let choices = match response.field(&choices_key) {
        Some(c) => c,
        None => return None,
    };
    let choice = match choices.at(0) {
        Some(c) => c,
        None => return None,
    };
    let message = match choice.field(&message_key) {
        Some(m) => m,
        None => return None,
    };
    let content = match message.field(&content_key) {
        Some(c) => c,
        None => return None,
    };
    match content.as_str() {
        Some(text) => Some(trim_text(text)),
        None => None,
    }
}

/// The total token count that a response reports.
pub fn get_usage(response: &JsonValue) -> (r: Option<u64>)
    ensures
        r == usage_tokens(*response),
{
    let usage_key = String::from_str("usage");
    let total_key = String::from_str("total_tokens");
    let usage = match response.field(&usage_key) {
        Some(u) => u,
        None => return None,
    };
    match usage.field(&total_key) {
        Some(total) => total.as_u64(),
        None => None,
    }
}

/// The reply text of a response, or the error that keeps the response.
pub fn extract_reply(response: JsonValue) -> (r: Result<String, ExtractionError>)
    ensures
        reply_text(response) is Some <==> r is Ok,
        r matches Ok(text) ==> text@ == reply_text(response).unwrap(),
        r matches Err(e) ==> e == ExtractionError::MissingReply(response),
{
    match get_response_text(&response) {
        Some(text) => Ok(text),
        None => Err(ExtractionError::MissingReply(response)),
    }
}

/// Reading the same response twice gives the same reply and the same usage.
pub proof fn lemma_extraction_deterministic(a: JsonValue, b: JsonValue)
    requires
        a == b,
    ensures
        reply_text(a) == reply_text(b),
        usage_tokens(a) == usage_tokens(b),
{
}

} // verus!
