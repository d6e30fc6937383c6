//! One session: the conversation and what each event of a turn does to it,
//! and the phases through which a turn moves.

use vstd::prelude::*;
use vstd::string::*;
use crate::conversation::{initial_messages, message_views, text_message, tool_result_view,
    Conversation, ChatMessage, MessageView, Speaker};
use crate::extractor::{completion_outcome, interpret_completion};
use crate::parser::InferenceResult;
use crate::text::{same_chars, slice_text, to_chars, trim, trim_bounds};

verus! {

/// What a line of input asks for.
#[derive(Clone, Debug, PartialEq, Eq)]
pub enum UserInput {
    /// The line asks to end the session.
    Exit,
    /// The line holds nothing but whitespace.
    Blank,
    /// The line, trimmed, is the user's message.
    Text(String),
}

/// `UserInput` as plain values.
pub enum UserInputView {
    Exit,
    Blank,
    Text(Seq<char>),
}

impl View for UserInput {
    type V = UserInputView;

    open spec fn view(&self) -> UserInputView {
        match self {
            UserInput::Exit => UserInputView::Exit,
            UserInput::Blank => UserInputView::Blank,
            UserInput::Text(t) => UserInputView::Text(t@),
        }
    }
}

/// What a line asks for: the trimmed line `exit` ends the session, an empty
/// one is passed over, any other is the message.
pub open spec fn classified(line: Seq<char>) -> UserInputView {
    let t = trim(line);
    if t == "exit"@ {
        UserInputView::Exit
    } else if t.len() == 0 {
        UserInputView::Blank
    } else {
        UserInputView::Text(t)
    }
}

/// The conversation after a line of input: a message is appended, and
/// nothing else changes it.
pub open spec fn after_line(before: Seq<MessageView>, line: Seq<char>) -> Seq<MessageView> {
    match classified(line) {
        UserInputView::Text(t) => before.push(text_message(Speaker::User, t)),
        _ => before,
    }
}

/// The conversation after a completion: the decoded messages are appended,
/// or the raw text as one assistant message where decoding failed.
pub open spec fn after_completion(
    before: Seq<MessageView>,
    raw: Seq<char>,
    decoded: Option<Seq<MessageView>>,
) -> Seq<MessageView> {
    match decoded {
        Some(msgs) => before + msgs,
        None => before.push(text_message(Speaker::Assistant, raw)),
    }
}

/// Where a turn stands.
#[derive(Clone, Copy, Debug, PartialEq, Eq, Structural)]
pub enum Phase {
    AwaitingUserInput,
    Rendering,
    AwaitingCompletion,
    Parsing,
    FinalReady,
    ToolRequested,
    Finished,
}

/// What has happened since the last phase began.
#[derive(Clone, Copy, Debug, PartialEq, Eq, Structural)]
pub enum Signal {
    /// The input has ended, or the user has asked to leave.
    InputClosed,
    /// A line without a message was read.
    BlankLine,
    /// A message of the user was appended.
    UserMessage,
    /// The prompt was rendered.
    Rendered,
    /// The completion has arrived.
    Completed,
    /// The completion holds the answer of the turn.
    FinalParsed,
    /// The completion calls a tool.
    ToolParsed,
    /// The answer was shown.
    Shown,
    /// The tool's result was appended.
    ToolAnswered,
    /// Rendering, the transport or a tool failed for good.
    Failed,
}

/// The phase that follows `phase` on `signal`, or `None` where that signal
/// cannot come in that phase. A failure ends the session from any phase but
/// the last.
pub open spec fn next_phase(phase: Phase, signal: Signal) -> Option<Phase> {
    match (phase, signal) {
        (Phase::Finished, _) => None,
        (_, Signal::Failed) => Some(Phase::Finished),
        (Phase::AwaitingUserInput, Signal::InputClosed) => Some(Phase::Finished),
        (Phase::AwaitingUserInput, Signal::BlankLine) => Some(Phase::AwaitingUserInput),
        (Phase::AwaitingUserInput, Signal::UserMessage) => Some(Phase::Rendering),
        (Phase::Rendering, Signal::Rendered) => Some(Phase::AwaitingCompletion),
        (Phase::AwaitingCompletion, Signal::Completed) => Some(Phase::Parsing),
        (Phase::Parsing, Signal::FinalParsed) => Some(Phase::FinalReady),
        (Phase::Parsing, Signal::ToolParsed) => Some(Phase::ToolRequested),
        (Phase::FinalReady, Signal::Shown) => Some(Phase::AwaitingUserInput),
        (Phase::ToolRequested, Signal::ToolAnswered) => Some(Phase::Rendering),
        _ => None,
    }
}

/// The phase that follows `phase` on `signal`: see `next_phase`.
pub fn advance(phase: Phase, signal: Signal) -> (r: Option<Phase>)
    ensures
        r == next_phase(phase, signal),
{
    match (phase, signal) {
        (Phase::Finished, _) => None,
        (_, Signal::Failed) => Some(Phase::Finished),
        (Phase::AwaitingUserInput, Signal::InputClosed) => Some(Phase::Finished),
        (Phase::AwaitingUserInput, Signal::BlankLine) => Some(Phase::AwaitingUserInput),
        (Phase::AwaitingUserInput, Signal::UserMessage) => Some(Phase::Rendering),
        (Phase::Rendering, Signal::Rendered) => Some(Phase::AwaitingCompletion),
        (Phase::AwaitingCompletion, Signal::Completed) => Some(Phase::Parsing),
        (Phase::Parsing, Signal::FinalParsed) => Some(Phase::FinalReady),
        (Phase::Parsing, Signal::ToolParsed) => Some(Phase::ToolRequested),
        (Phase::FinalReady, Signal::Shown) => Some(Phase::AwaitingUserInput),
        (Phase::ToolRequested, Signal::ToolAnswered) => Some(Phase::Rendering),
        _ => None,
    }
}

/// The signal that a line of input gives.
pub fn signal_of_input(input: &UserInput) -> (r: Signal)
    ensures
        r == match input@ {
            UserInputView::Exit => Signal::InputClosed,
            UserInputView::Blank => Signal::BlankLine,
            UserInputView::Text(_) => Signal::UserMessage,
        },
{
    match input {
        UserInput::Exit => Signal::InputClosed,
        UserInput::Blank => Signal::BlankLine,
        UserInput::Text(_) => Signal::UserMessage,
    }
}

/// The signal that a parsed completion gives.
pub fn signal_of_result(result: &InferenceResult) -> (r: Signal)
    ensures
        r == match result {
            InferenceResult::FinalResponse(_) => Signal::FinalParsed,
            InferenceResult::ToolCall { .. } => Signal::ToolParsed,
        },
{
    match result {
        InferenceResult::FinalResponse(_) => Signal::FinalParsed,
        InferenceResult::ToolCall { .. } => Signal::ToolParsed,
    }
}

/// What `line` asks for: see `classified`.
pub fn classify_input(line: &str) -> (r: UserInput)
    ensures
        r@ == classified(line@),
{
    let chars = to_chars(line);
    let (lo, hi) = trim_bounds(&chars, 0, chars.len());
    let text = slice_text(line, lo, hi);
    let trimmed = to_chars(text.as_str());
    let exit = to_chars("exit");
    if same_chars(&trimmed, &exit) {
        UserInput::Exit
    } else if trimmed.len() == 0 {
        UserInput::Blank
    } else {
        UserInput::Text(text)
    }
}

/// What is asked of the completion backend, but for the sampling
/// temperature, which the caller sets.
#[derive(Clone, Debug, PartialEq, Eq)]
pub struct CompletionRequest {
    pub model: String,
    pub prompt: String,
    pub max_tokens: u32,
    pub count: u32,
    pub stream: bool,
    pub echo: bool,
    pub stop: Vec<String>,
}

/// `CompletionRequest` as plain values.
pub struct CompletionRequestView {
    pub model: Seq<char>,
    pub prompt: Seq<char>,
    pub max_tokens: u32,
    pub count: u32,
    pub stream: bool,
    pub echo: bool,
    pub stop: Seq<Seq<char>>,
}

impl View for CompletionRequest {
    type V = CompletionRequestView;

    open spec fn view(&self) -> CompletionRequestView {
        CompletionRequestView {
            model: self.model@,
            prompt: self.prompt@,
            max_tokens: self.max_tokens,
            count: self.count,
            stream: self.stream,
            echo: self.echo,
            stop: crate::conversation::texts(self.stop@),
        }
    }
}

/// The request for one completion of `prompt`: one choice, not streamed, not
/// echoed, stopped at the return and at the call terminator.
pub open spec fn request_for(prompt: Seq<char>) -> CompletionRequestView {
    CompletionRequestView {
        model: "openai/gpt-oss-20b"@,
        prompt,
        max_tokens: 2048,
        count: 1,
        stream: false,
        echo: false,
        stop: seq!["<|return|>"@, "<|call|>"@],
    }
}

/// The request for one completion of `prompt`: see `request_for`.
pub fn completion_request(prompt: String) -> (r: CompletionRequest)
    ensures
        r@ == request_for(prompt@),
{
    let mut stop: Vec<String> = Vec::new();
    stop.push(String::from_str("<|return|>"));
    stop.push(String::from_str("<|call|>"));
    let r = CompletionRequest {
        model: String::from_str("openai/gpt-oss-20b"),
        prompt,
        max_tokens: 2048,
        count: 1,
        stream: false,
        echo: false,
        stop,
    };
    assert(r@.stop =~= request_for(prompt@).stop);
    r
}

/// The text of the first choice of a response, where there is a first choice
/// and it has a text. No other choice is looked at.
pub fn first_choice_text(choices: Vec<Option<String>>) -> (r: Option<String>)
    ensures
        r == (if choices@.len() > 0 {
            choices@[0]
        } else {
            None
        }),
{
    let mut rest = choices;
    if rest.len() == 0 {
        None
    } else {
        rest.swap_remove(0)
    }
}

/// The agent's side of a session: the conversation, of which it is the only
/// writer.
#[derive(Clone, Debug, PartialEq, Eq)]
pub struct Agent {
    pub conversation: Conversation,
}

impl Agent {
    /// A session before the first turn.
    pub fn new() -> (r: Agent)
        ensures
            r.conversation@ == initial_messages(),
    {
        Agent { conversation: Conversation::initial() }
    }

    /// Takes a line of input: a message is appended to the conversation, an
    /// empty line or the word `exit` leaves it as it is.
    pub fn take_user_line(&mut self, line: &str) -> (r: UserInput)
        ensures
            r@ == classified(line@),
            final(self).conversation@ == after_line(old(self).conversation@, line@),
    {
        let input = classify_input(line);
        match &input {
            UserInput::Text(text) => {
                let message = ChatMessage::from_role_and_text(Speaker::User, text.as_str());
                self.conversation.push(message);
            },
            _ => {},
        }
        input
    }

    /// Takes a completion: its raw text, and the messages that decoding gave
    /// where it succeeded. Says what the completion amounts to, and appends
    /// the messages, or the raw text where there are none.
    pub fn take_completion(&mut self, raw: &str, decoded: Option<Vec<ChatMessage>>) -> (r:
        InferenceResult)
        ensures
            r@ == completion_outcome(
                raw@,
                match decoded {
                    Some(m) => Some(message_views(m@)),
                    None => None,
                },
            ),
            final(self).conversation@ == after_completion(
                old(self).conversation@,
                raw@,
                match decoded {
                    Some(m) => Some(message_views(m@)),
                    None => None,
                },
            ),
    {
        let result = interpret_completion(raw, decoded.as_ref());
        match decoded {
            Some(messages) => {
                self.conversation.extend(messages);
            },
            None => {
                self.conversation.push(ChatMessage::from_role_and_text(Speaker::Assistant, raw));
            },
        }
        result
    }

    /// Appends the result of the tool `tool_name` as a message to the
    /// assistant.
    pub fn take_tool_result(&mut self, tool_name: &str, result: &str)
        ensures
            final(self).conversation@ == old(self).conversation@.push(
                tool_result_view(tool_name@, result@),
            ),
    {
        self.conversation.push(ChatMessage::tool_result(tool_name, result));
    }
}

/// Whatever a session takes in, the conversation that was there stays at the
/// front of the new one, unchanged.
pub proof fn lemma_conversation_only_grows(
    before: Seq<MessageView>,
    line: Seq<char>,
    raw: Seq<char>,
    decoded: Option<Seq<MessageView>>,
    tool_name: Seq<char>,
    result: Seq<char>,
)
    ensures
        before.is_prefix_of(after_line(before, line)),
        before.is_prefix_of(after_completion(before, raw, decoded)),
        before.is_prefix_of(before.push(tool_result_view(tool_name, result))),
{
}

} // verus!
