//! What a decoded completion asks for: the first message addressed to a tool,
//! or else the first answer on the final channel.

use vstd::prelude::*;
use vstd::string::*;
use crate::conversation::{message_views, ContentBlock, ContentView, ChatMessage, MessageView};
use crate::parser::{fallback_outcome, fallback_parse, InferenceResult, Outcome};
use crate::text::{matches_at, same_text, slice_text, starts_with, to_chars};

verus! {

/// The prefix of a recipient that names a tool.
pub open spec fn tool_prefix() -> Seq<char> {
    "functions."@
}

/// The arguments of a tool call whose message holds no text.
pub open spec fn empty_arguments() -> Seq<char> {
    "{}"@
}

/// The message is addressed to a tool.
pub open spec fn addresses_tool(m: MessageView) -> bool {
    m.recipient matches Some(r) && starts_with(r, tool_prefix())
}

/// The text of the first content block, where that block is a text.
pub open spec fn first_text(m: MessageView) -> Option<Seq<char>> {
    if m.content.len() > 0 {
        match m.content[0] {
            ContentView::Text(t) => Some(t),
            _ => None,
        }
    } else {
        None
    }
}

/// The message is on the final channel and begins with a text.
pub open spec fn answers(m: MessageView) -> bool {
    m.channel == Some("final"@) && first_text(m) is Some
}

/// The call that a message addressed to a tool makes: the recipient without
/// its prefix, and the first text or else the empty object.
pub open spec fn call_of(m: MessageView) -> Outcome
    recommends
        addresses_tool(m),
{
    let r = m.recipient->0;
    Outcome::Tool(
        r.subrange(tool_prefix().len() as int, r.len() as int),
        match first_text(m) {
            Some(t) => t,
            None => empty_arguments(),
        },
    )
}

/// Position of the first message from `from` on that is addressed to a tool.
pub open spec fn first_call(msgs: Seq<MessageView>, from: int) -> Option<int>
    decreases msgs.len() - from,
{
    if from < 0 || from >= msgs.len() {
        None
    } else if addresses_tool(msgs[from]) {
        Some(from)
    } else {
        first_call(msgs, from + 1)
    }
}

/// Position of the first message from `from` on that answers.
pub open spec fn first_answer(msgs: Seq<MessageView>, from: int) -> Option<int>
    decreases msgs.len() - from,
{
    if from < 0 || from >= msgs.len() {
        None
    } else if answers(msgs[from]) {
        Some(from)
    } else {
        first_answer(msgs, from + 1)
    }
}

/// What the decoded messages ask for: the call of the first message that is
/// addressed to a tool; where there is none, the text of the first answer on
/// the final channel; where there is none either, nothing.
pub open spec fn structured_outcome(msgs: Seq<MessageView>) -> Option<Outcome> {
    match first_call(msgs, 0) {
        Some(i) => Some(call_of(msgs[i])),
        None => match first_answer(msgs, 0) {
            Some(j) => Some(Outcome::Final(first_text(msgs[j])->0)),
            None => None,
        },
    }
}

/// What one completion amounts to. Decoded messages decide where they hold a
/// call or an answer, and the raw text is the answer where they hold neither;
/// where decoding failed, the scan of the raw text decides.
pub open spec fn completion_outcome(raw: Seq<char>, decoded: Option<Seq<MessageView>>) -> Outcome {
    match decoded {
        Some(msgs) => match structured_outcome(msgs) {
            Some(outcome) => outcome,
            None => Outcome::Final(raw),
        },
        None => fallback_outcome(raw),
    }
}

/// The first message from `from` on that is addressed to a tool is the first
/// such message: none before it is addressed to one.
pub proof fn lemma_first_call_is_first(msgs: Seq<MessageView>, from: int)
    requires
        0 <= from,
    ensures
        match first_call(msgs, from) {
            Some(i) => from <= i < msgs.len() && addresses_tool(msgs[i]) && forall|j: int|
                from <= j < i ==> !addresses_tool(#[trigger] msgs[j]),
            None => forall|j: int| from <= j < msgs.len() ==> !addresses_tool(#[trigger] msgs[j]),
        },
    decreases msgs.len() - from,
{
    if from < msgs.len() && !addresses_tool(msgs[from]) {
        lemma_first_call_is_first(msgs, from + 1);
    }
}

/// A message addressed to a tool that holds no content calls the tool with
/// the empty object as its arguments.
pub proof fn lemma_call_without_content(m: MessageView)
    requires
        addresses_tool(m),
        m.content.len() == 0,
    ensures
        call_of(m) matches Outcome::Tool(_, arguments) && arguments == empty_arguments(),
{
}

/// The text of the first content block of `m`, where that block is a text.
pub fn first_text_of(m: &ChatMessage) -> (r: Option<String>)
    ensures
        r is Some <==> first_text(m@) is Some,
        r matches Some(t) ==> first_text(m@) == Some(t@),
{
    if m.content.len() == 0 {
        return None;
    }
    match &m.content[0] {
        ContentBlock::Text(t) => Some(t.clone()),
        _ => None,
    }
}

/// The name of the tool to which `m` is addressed, if it is addressed to one.
pub fn tool_name_of(m: &ChatMessage) -> (r: Option<String>)
    ensures
        r is Some <==> addresses_tool(m@),
        r matches Some(name) ==> name@ == m@.recipient->0.subrange(
            tool_prefix().len() as int,
            m@.recipient->0.len() as int,
        ),
{
    match &m.recipient {
        None => None,
        Some(recipient) => {
            let chars = to_chars(recipient.as_str());
            let prefix = to_chars("functions.");
            if matches_at(&chars, &prefix, 0) {
                Some(slice_text(recipient.as_str(), prefix.len(), chars.len()))
            } else {
                None
            }
        },
    }
}

/// Whether `m` is on the final channel.
fn on_final_channel(m: &ChatMessage) -> (r: bool)
    ensures
        r == (m@.channel == Some("final"@)),
{
    match &m.channel {
        None => false,
        Some(channel) => same_text(channel.as_str(), "final"),
    }
}

/// What the decoded messages ask for: see `structured_outcome`.
pub fn extract_outcome(messages: &Vec<ChatMessage>) -> (r: Option<InferenceResult>)
    ensures
        r is Some <==> structured_outcome(message_views(messages@)) is Some,
        r matches Some(x) ==> structured_outcome(message_views(messages@)) == Some(x@),
{
    let ghost msgs = message_views(messages@);
    let mut i: usize = 0;
    while i < messages.len()
        invariant
            i <= messages.len(),
            msgs == message_views(messages@),
            first_call(msgs, 0) == first_call(msgs, i as int),
        decreases messages.len() - i,
    {
        assert(msgs[i as int] == messages@[i as int]@);
        match tool_name_of(&messages[i]) {
            Some(tool_name) => {
                let arguments = match first_text_of(&messages[i]) {
                    Some(t) => t,
                    None => String::from_str("{}"),
                };
                return Some(InferenceResult::ToolCall { tool_name, arguments });
            },
            None => {},
        }
        i += 1;
    }
    let mut j: usize = 0;
    while j < messages.len()
        invariant
            j <= messages.len(),
            msgs == message_views(messages@),
            first_call(msgs, 0) is None,
            first_answer(msgs, 0) == first_answer(msgs, j as int),
        decreases messages.len() - j,
    {
        assert(msgs[j as int] == messages@[j as int]@);
        if on_final_channel(&messages[j]) {
            match first_text_of(&messages[j]) {
                Some(t) => {
                    return Some(InferenceResult::FinalResponse(t));
                },
                None => {},
            }
        }
        j += 1;
    }
    None
}

/// What one completion amounts to, from its raw text and from the messages
/// that decoding gave, if it gave any: see `completion_outcome`.
pub fn interpret_completion(raw: &str, decoded: Option<&Vec<ChatMessage>>) -> (r: InferenceResult)
    ensures
        r@ == completion_outcome(
            raw@,
            match decoded {
                Some(m) => Some(message_views(m@)),
                None => None,
            },
        ),
{
    match decoded {
        Some(messages) => match extract_outcome(messages) {
            Some(outcome) => outcome,
            None => InferenceResult::FinalResponse(String::from_str(raw)),
        },
        None => fallback_parse(raw),
    }
}

} // verus!
