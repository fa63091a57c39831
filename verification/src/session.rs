//! The interactive conversation session: an append-only message history and
//! the turn state machine.
//!
//! A session waits for a line of operator input. A sentinel input (`exit`,
//! `quit` or `q`, trimmed and compared case-insensitively) ends the session
//! without appending anything and without network activity. Any other input
//! is appended as a user message and sent as a completion request that holds
//! the single system prompt followed by the entire accumulated history; the
//! returned assistant message is appended in turn. A request failure aborts
//! the session.
use crate::config::Config;
use crate::messages::{
    build_completion_request, duplicate_messages, request_messages_wf, Message, OpenRouterRequest,
    Role,
};
use crate::text::{
    chars_ci_eq_str, seq_ci_eq, spec_trim, str_to_chars, string_from_chars, trim_chars,
};
use vstd::prelude::*;

verus! {

/// Whether a line of input is one of the sentinel tokens that end a session,
/// after trimming and under case-insensitive comparison.
pub open spec fn is_exit_input(s: Seq<char>) -> bool {
    ||| seq_ci_eq(spec_trim(s), "exit"@)
    ||| seq_ci_eq(spec_trim(s), "quit"@)
    ||| seq_ci_eq(spec_trim(s), "q"@)
}

/// Where a session stands between calls. The work of displaying an answer is
/// the return of `record_response`, after which the session awaits input
/// again.
#[derive(Clone, Copy, Debug, PartialEq, Eq, Structural)]
pub enum SessionState {
    AwaitingInput,
    Sending,
    Exited,
}

/// What one line of operator input leads to: the end of the session, or a
/// completion request to send.
#[derive(Debug)]
pub enum TurnStep {
    Exit,
    Send(OpenRouterRequest),
}

/// One interactive session: the fixed system prompt, the ordered, append-only
/// message history, and the turn state.
#[derive(Debug)]
pub struct Session {
    pub system_prompt: String,
    pub history: Vec<Message>,
    pub state: SessionState,
}

/// The messages a session sends: the single system prompt first, then the
/// entire accumulated history in chronological order.
pub open spec fn spec_session_messages(system_prompt: String, history: Seq<Message>) -> Seq<
    Message,
> {
    seq![Message { role: Role::System, content: system_prompt }] + history
}

impl Session {
    /// The session invariant: the history alternates user and assistant
    /// messages, a turn's user message first, and the state agrees with the
    /// parity — between turns the history is whole turns, while a request is
    /// out it ends in the user message just appended.
    pub open spec fn wf(self) -> bool {
        &&& forall|i: int|
            0 <= i < self.history@.len() ==> (#[trigger] self.history@[i].role) == (if i % 2 == 0 {
                Role::User
            } else {
                Role::Assistant
            })
        &&& (self.state is AwaitingInput ==> self.history@.len() % 2 == 0)
        &&& (self.state is Sending ==> self.history@.len() % 2 == 1)
    }

    /// A fresh session: empty history, awaiting input.
    pub fn new(system_prompt: String) -> (r: Session)
        ensures
            r.wf(),
            r.state is AwaitingInput,
            r.history@.len() == 0,
            r.system_prompt == system_prompt,
    {
        Session { system_prompt, history: Vec::new(), state: SessionState::AwaitingInput }
    }

    /// The completion request of the current turn: the system prompt followed
    /// by the entire history, under the resolved configuration.
    pub fn build_request(&self, config: &Config) -> (r: OpenRouterRequest)
        ensures
            r.messages@ == spec_session_messages(self.system_prompt, self.history@),
            r.model@ == config.model@,
            r.max_tokens == config.max_tokens,
            r.temperature_milli == config.temperature_milli,
    {
        let mut messages: Vec<Message> = Vec::new();
        messages.push(Message { role: Role::System, content: self.system_prompt.clone() });
        let mut rest = duplicate_messages(&self.history);
        messages.append(&mut rest);
        proof {
            assert(messages@ =~= spec_session_messages(self.system_prompt, self.history@));
        }
        build_completion_request(config, messages)
    }

    /// Handles one line of operator input. A sentinel input exits: nothing is
    /// appended and no request is made. Any other input is appended, trimmed,
    /// as a user message, and the request of the turn is handed back.
    pub fn handle_input(&mut self, config: &Config, input: &str) -> (r: TurnStep)
        requires
            old(self).state is AwaitingInput,
            old(self).wf(),
        ensures
            final (self).wf(),
            final (self).system_prompt == old(self).system_prompt,
            is_exit_input(input@) ==> {
                &&& final (self).state is Exited
                &&& final (self).history == old(self).history
                &&& r is Exit
            },
            !is_exit_input(input@) ==> {
                &&& final (self).state is Sending
                &&& final (self).history@.len() == old(self).history@.len() + 1
                &&& final (self).history@.drop_last() == old(self).history@
                &&& final (self).history@.last().role == Role::User
                &&& final (self).history@.last().content@ == spec_trim(input@)
                &&& r matches TurnStep::Send(req) && req.messages@ == spec_session_messages(
                    final (self).system_prompt,
                    final (self).history@,
                ) && req.model@ == config.model@ && req.max_tokens == config.max_tokens
                    && req.temperature_milli == config.temperature_milli
            },
    {
        if is_exit_command(input) {
            self.state = SessionState::Exited;
            TurnStep::Exit
        } else {
            let chars = str_to_chars(input);
            let trimmed = trim_chars(&chars);
            let content = string_from_chars(&trimmed);
            self.history.push(Message { role: Role::User, content });
            self.state = SessionState::Sending;
            proof {
                assert(self.history@.drop_last() =~= old(self).history@);
            }
            let req = self.build_request(config);
            TurnStep::Send(req)
        }
    }

    /// Appends the assistant message of a completed turn and returns to
    /// awaiting input. The caller displays the same content.
    pub fn record_response(&mut self, content: String)
        requires
            old(self).state is Sending,
            old(self).wf(),
        ensures
            final (self).wf(),
            final (self).state is AwaitingInput,
            final (self).system_prompt == old(self).system_prompt,
            final (self).history@ == old(self).history@.push(
                Message { role: Role::Assistant, content },
            ),
    {
        self.history.push(Message { role: Role::Assistant, content });
        self.state = SessionState::AwaitingInput;
    }

    /// Ends the session after a request-level failure: the history is kept as
    /// it stands and no resumption is attempted.
    pub fn abort(&mut self)
        requires
            old(self).wf(),
        ensures
            final (self).wf(),
            final (self).state is Exited,
            final (self).history == old(self).history,
            final (self).system_prompt == old(self).system_prompt,
    {
        self.state = SessionState::Exited;
    }
}

/// Whether a line of input ends the session: trimmed and compared
/// case-insensitively, it equals `exit`, `quit` or `q`.
pub fn is_exit_command(input: &str) -> (r: bool)
    ensures
        r == is_exit_input(input@),
{
    let chars = str_to_chars(input);
    let trimmed = trim_chars(&chars);
    chars_ci_eq_str(&trimmed, "exit") || chars_ci_eq_str(&trimmed, "quit") || chars_ci_eq_str(
        &trimmed,
        "q",
    )
}

/// Law: the request a session sends holds exactly one system message, placed
/// first, followed by the accumulated turns in chronological order.
pub proof fn lemma_request_shape(system_prompt: String, history: Seq<Message>)
    requires
        forall|i: int| 0 <= i < history.len() ==> (#[trigger] history[i].role) != Role::System,
    ensures
        spec_session_messages(system_prompt, history).len() == 1 + history.len(),
        spec_session_messages(system_prompt, history)[0].role == Role::System,
        forall|i: int|
            1 <= i < 1 + history.len() ==> #[trigger] spec_session_messages(
                system_prompt,
                history,
            )[i] == history[i - 1],
        history.len() >= 1 ==> request_messages_wf(spec_session_messages(system_prompt, history)),
{
    let ms = spec_session_messages(system_prompt, history);
    assert(forall|i: int| 1 <= i < ms.len() ==> #[trigger] ms[i] == history[i - 1]);
}

} // verus!
