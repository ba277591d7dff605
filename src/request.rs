//! What every completion request carries besides the transcript.
use vstd::prelude::*;
use vstd::string::StringExecFns;
use crate::extract::{trim_text, trimmed};

verus! {

/// The endpoint that completion requests are posted to.
pub const ENDPOINT: &'static str = "https://api.openai.com/v1/chat/completions";

/// The model that every request names.
pub const MODEL: &'static str = "gpt-3.5-turbo";

/// The value of the `Authorization` header for a token as it was read:
/// `Bearer ` and the token without surrounding whitespace.
pub fn authorization_header(token: &str) -> (r: String)
    ensures
        r@ == "Bearer "@ + trimmed(token@),
{
    let mut header = String::from_str("Bearer ");
    let bare = trim_text(token);
    header.append(bare.as_str());
    header
}

} // verus!
