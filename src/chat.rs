//! The decisions of the chat loop. The caller reads a line, hands it to the
//! session, sends the transcript when told to, and hands back the response.
use vstd::prelude::*;
use crate::extract::{get_response_text, get_usage, reply_text, usage_tokens, ExtractionError};
use crate::json::JsonValue;
use crate::transcript::{Role, Transcript};

verus! {

/// The sampling temperature of chat requests, in hundredths.
pub const CHAT_TEMPERATURE_PERCENT: u32 = 50;

#[derive(Clone, Copy, Debug, PartialEq, Eq, Structural)]
pub enum Phase {
    /// Waiting for the next line of input.
    AwaitingInput,
    /// The transcript ends with a user message whose reply is awaited.
    AwaitingReply,
    /// The session is over.
    Terminated,
}

/// What the caller does after a line of input.
#[derive(Clone, Copy, Debug, PartialEq, Eq, Structural)]
pub enum ChatStep {
    /// Send the transcript as a completion request and hand back the response.
    Send,
    /// Show the number of tokens used, then stop.
    Finish(u64),
}

/// The role that the message at `i` of a chat transcript has.
pub open spec fn turn_role(i: int) -> Role {
    if i % 2 == 0 {
        Role::User
    } else {
        Role::Assistant
    }
}

/// User and assistant messages alternate, starting with the user.
pub open spec fn alternates(msgs: Seq<(Role, Seq<char>)>) -> bool {
    forall|i: int| 0 <= i < msgs.len() ==> #[trigger] msgs[i].0 == turn_role(i)
}

/// The sum of a sequence of token counts.
pub open spec fn total(counts: Seq<u64>) -> int
    decreases counts.len(),
{
    if counts.len() == 0 {
        0
    } else {
        total(counts.drop_last()) + counts.last()
    }
}

/// One chat session: its transcript and the tokens that its calls used.
pub struct ChatSession {
    transcript: Transcript,
    used_tokens: u64,
    usages: Ghost<Seq<u64>>,
    phase: Phase,
}

impl ChatSession {
    pub closed spec fn spec_transcript(&self) -> Seq<(Role, Seq<char>)> {
        self.transcript@
    }

    pub closed spec fn spec_used_tokens(&self) -> u64 {
        self.used_tokens
    }

    /// The usage of each completed call, in order.
    pub closed spec fn spec_usages(&self) -> Seq<u64> {
        self.usages@
    }

    pub closed spec fn spec_phase(&self) -> Phase {
        self.phase
    }

    pub open spec fn wf(&self) -> bool {
        &&& alternates(self.spec_transcript())
        &&& self.spec_used_tokens() == total(self.spec_usages())
        &&& self.spec_phase() == Phase::AwaitingReply ==> self.spec_transcript().len() == 2
            * self.spec_usages().len() + 1
        &&& self.spec_phase() == Phase::AwaitingInput ==> self.spec_transcript().len() == 2
            * self.spec_usages().len()
    }

    /// A session with an empty transcript and no tokens used.
    pub fn new() -> (r: ChatSession)
        ensures
            r.wf(),
            r.spec_phase() == Phase::AwaitingInput,
            r.spec_transcript().len() == 0,
            r.spec_usages().len() == 0,
            r.spec_used_tokens() == 0,
    {
        ChatSession {
            transcript: Transcript::new(),
            used_tokens: 0,
            usages: Ghost(Seq::empty()),
            phase: Phase::AwaitingInput,
        }
    }

    pub fn transcript(&self) -> (r: &Transcript)
        ensures
            r@ == self.spec_transcript(),
    {
        &self.transcript
    }

    pub fn used_tokens(&self) -> (r: u64)
        ensures
            r == self.spec_used_tokens(),
    {
        self.used_tokens
    }

    pub fn phase(&self) -> (r: Phase)
        ensures
            r == self.spec_phase(),
    {
        self.phase
    }

    /// Takes one line of input. An empty line ends the session with the
    /// token count; any other becomes a user message to be sent.
    pub fn input(&mut self, line: &str) -> (r: ChatStep)
        requires
            old(self).wf(),
            old(self).spec_phase() == Phase::AwaitingInput,
        ensures
            final(self).wf(),
            final(self).spec_usages() == old(self).spec_usages(),
            final(self).spec_used_tokens() == old(self).spec_used_tokens(),
            line@.len() == 0 ==> {
                &&& r == ChatStep::Finish(old(self).spec_used_tokens())
                &&& final(self).spec_phase() == Phase::Terminated
                &&& final(self).spec_transcript() == old(self).spec_transcript()
            },
            line@.len() != 0 ==> {
                &&& r == ChatStep::Send
                &&& final(self).spec_phase() == Phase::AwaitingReply
                &&& final(self).spec_transcript() == old(self).spec_transcript().push(
                    (Role::User, line@),
                )
            },
    {
        if line.is_empty() {
            self.phase = Phase::Terminated;
            ChatStep::Finish(self.used_tokens)
        } else {
            self.transcript.add_user_message(line);
            self.phase = Phase::AwaitingReply;
            ChatStep::Send
        }
    }

    /// The input ended or was interrupted: the session stops without a summary.
    pub fn end_of_input(&mut self)
        requires
            old(self).wf(),
            old(self).spec_phase() == Phase::AwaitingInput,
        ensures
            final(self).wf(),
            final(self).spec_phase() == Phase::Terminated,
            final(self).spec_transcript() == old(self).spec_transcript(),
            final(self).spec_usages() == old(self).spec_usages(),
            final(self).spec_used_tokens() == old(self).spec_used_tokens(),
    {
        self.phase = Phase::Terminated;
    }

    /// Takes the response to the transcript that was sent. On success the
    /// usage is counted, the trimmed reply is appended as an assistant
    /// message and returned, and the next line is awaited. A response that
    /// cannot be read ends the session with an error that keeps it.
    pub fn reply(&mut self, response: JsonValue) -> (r: Result<String, ExtractionError>)
        requires
            old(self).wf(),
            old(self).spec_phase() == Phase::AwaitingReply,
        ensures
            final(self).wf(),
            r is Ok <==> {
                &&& usage_tokens(response) is Some
                &&& old(self).spec_used_tokens() + usage_tokens(response).unwrap() <= u64::MAX
                &&& reply_text(response) is Some
            },
            usage_tokens(response) is None ==> r == Err::<String, ExtractionError>(
                ExtractionError::MissingUsage(response),
            ),
            usage_tokens(response) matches Some(n) && old(self).spec_used_tokens() + n
                > u64::MAX ==> r == Err::<String, ExtractionError>(
                ExtractionError::UsageOverflow(response),
            ),
            usage_tokens(response) matches Some(n) && old(self).spec_used_tokens() + n
                <= u64::MAX && reply_text(response) is None ==> r == Err::<String, ExtractionError>(
                ExtractionError::MissingReply(response),
            ),
            r matches Ok(text) ==> {
                &&& text@ == reply_text(response).unwrap()
                &&& final(self).spec_phase() == Phase::AwaitingInput
                &&& final(self).spec_usages() == old(self).spec_usages().push(
                    usage_tokens(response).unwrap(),
                )
                &&& final(self).spec_used_tokens() == old(self).spec_used_tokens()
                    + usage_tokens(response).unwrap()
                &&& final(self).spec_transcript() == old(self).spec_transcript().push(
                    (Role::Assistant, text@),
                )
            },
            r is Err ==> {
                &&& final(self).spec_phase() == Phase::Terminated
                &&& final(self).spec_transcript() == old(self).spec_transcript()
                &&& final(self).spec_usages() == old(self).spec_usages()
                &&& final(self).spec_used_tokens() == old(self).spec_used_tokens()
            },
    {
        let usage = match get_usage(&response) {
            Some(n) => n,
            None => {
                self.phase = Phase::Terminated;
                return Err(ExtractionError::MissingUsage(response));
            },
        };
        if usage > u64::MAX - self.used_tokens {
            self.phase = Phase::Terminated;
            return Err(ExtractionError::UsageOverflow(response));
        }
        let text = match get_response_text(&response) {
            Some(t) => t,
            None => {
                self.phase = Phase::Terminated;
                return Err(ExtractionError::MissingReply(response));
            },
        };
        self.used_tokens = self.used_tokens + usage;
        self.transcript.add_assistant_message(text.as_str());
        self.phase = Phase::AwaitingInput;
        proof {
            let old_usages = self.usages@;
            self.usages = Ghost(old_usages.push(usage));
            assert(self.usages@.drop_last() =~= old_usages);
            let t = self.transcript@;
            assert forall|i: int| 0 <= i < t.len() implies #[trigger] t[i].0 == turn_role(i) by {
                if i == t.len() - 1 {
                    assert((2 * old_usages.len() + 1) % 2 == 1) by (nonlinear_arith);
                }
            }
        }
        Ok(text)
    }
}

/// After any number of completed turns, a session that awaits input holds
/// exactly two messages per turn, user and assistant in alternation,
/// starting with the user.
pub proof fn lemma_transcript_shape(s: ChatSession)
    requires
        s.wf(),
        s.spec_phase() == Phase::AwaitingInput,
    ensures
        s.spec_transcript().len() == 2 * s.spec_usages().len(),
        forall|i: int|
            0 <= i < s.spec_transcript().len() ==> #[trigger] s.spec_transcript()[i].0 == (
            if i % 2 == 0 {
                Role::User
            } else {
                Role::Assistant
            }),
{
    assert forall|i: int| 0 <= i < s.spec_transcript().len() implies #[trigger] s.spec_transcript()[i].0
        == turn_role(i) by {}
}

/// The token count of a session is the sum of the usage of all calls that it
/// made, and the count that ends it is that same sum.
pub proof fn lemma_token_count(s: ChatSession)
    requires
        s.wf(),
    ensures
        s.spec_used_tokens() == total(s.spec_usages()),
{
}

} // verus!
