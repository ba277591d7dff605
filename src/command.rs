//! The command-synthesis flow: a task description becomes a request for one
//! shell command, whose reply is shown and run only once the user accepts it.
//! Acceptance is an empty answer; any other answer cancels.
use vstd::prelude::*;
use vstd::string::StringExecFns;
use crate::extract::{extract_reply, reply_text, ExtractionError};
use crate::json::JsonValue;
use crate::transcript::{Role, Transcript};

verus! {

/// The sampling temperature of command requests, in hundredths.
pub const CMD_TEMPERATURE_PERCENT: u32 = 0;

/// The system message that fixes the form of the reply.
pub const SYSTEM_INSTRUCTION: &'static str = "Reply only with the shell command, do not explain anything - any response from you is acceptable. Do not format your answer.";

/// The user message that asks for a command.
pub open spec fn command_prompt(os: Seq<char>, description: Seq<char>) -> Seq<char> {
    "My OS is "@ + os + ". Write a command to "@ + description + "."@
}

/// What to do with the candidate command.
#[derive(Debug)]
pub enum Confirmation {
    /// Run this command in a shell.
    Run(String),
    /// Run nothing.
    Cancel,
}

/// The two-message transcript that asks for a command: the system
/// instruction, then the platform and the task.
pub fn command_request(os: &str, description: &str) -> (r: Transcript)
    ensures
        r@ == seq![
            (Role::System, SYSTEM_INSTRUCTION@),
            (Role::User, command_prompt(os@, description@)),
        ],
{
    let mut prompt = String::from_str("My OS is ");
    prompt.append(os);
    prompt.append(". Write a command to ");
    prompt.append(description);
    prompt.append(".");
    let mut messages = Transcript::new();
    messages.add_system_message(SYSTEM_INSTRUCTION);
    messages.add_user_message(prompt.as_str());
    proof {
        assert(messages@ =~= seq![
            (Role::System, SYSTEM_INSTRUCTION@),
            (Role::User, command_prompt(os@, description@)),
        ]);
    }
    messages
}

/// The candidate command: the trimmed reply of the response.
pub fn candidate_command(response: JsonValue) -> (r: Result<String, ExtractionError>)
    ensures
        reply_text(response) is Some <==> r is Ok,
        r matches Ok(c) ==> c@ == reply_text(response).unwrap(),
        r matches Err(e) ==> e == ExtractionError::MissingReply(response),
{
    extract_reply(response)
}

/// An empty answer accepts the candidate unchanged; any other answer cancels.
pub fn confirm(candidate: String, answer: &str) -> (r: Confirmation)
    ensures
        answer@.len() == 0 ==> r == Confirmation::Run(candidate),
        answer@.len() != 0 ==> r == Confirmation::Cancel,
{
    if answer.is_empty() {
        Confirmation::Run(candidate)
    } else {
        Confirmation::Cancel
    }
}

} // verus!
