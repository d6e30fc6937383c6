//! The prompt grammar and its tokens belong to `openai_harmony`. This module
//! hands the conversation over to it, message by message, and takes decoded
//! messages back.

use vstd::prelude::*;
use vstd::string::*;
use crate::agent::{after_completion, Agent};
use crate::conversation::{message_views, opt_text, ChatMessage, ContentBlock, ContentView,
    Conversation, Effort, MessageView, Speaker, SystemSettings};
use crate::extractor::{completion_outcome, structured_outcome};
use crate::parser::{call_terminator, lacks_call_terminator, lemma_repair_meets_terminated_text,
    repair, repaired, InferenceResult};

verus! {

#[verifier::external_type_specification]
#[verifier::external_body]
pub struct ExHarmonyEncoding(openai_harmony::HarmonyEncoding);

#[verifier::external_type_specification]
#[verifier::external_body]
pub struct ExOutsideMessage(openai_harmony::chat::Message);

#[verifier::external_type_specification]
#[verifier::external_body]
pub struct ExOutsideContent(openai_harmony::chat::Content);

#[verifier::external_type_specification]
#[verifier::external_body]
pub struct ExAnyhowError(anyhow::Error);

/// Why no prompt could be made.
#[derive(Clone, Copy, Debug, PartialEq, Eq, Structural)]
pub enum CodecError {
    /// The conversation could not be rendered into tokens.
    Render,
    /// The rendered tokens are no text.
    Decode,
    /// The conversation holds a text that is too long for the tokenizer.
    TooLong,
}

/// The header of a message as plain values.
pub struct HeaderView {
    pub role: Speaker,
    pub author_name: Option<Seq<char>>,
    pub recipient: Option<Seq<char>>,
    pub channel: Option<Seq<char>>,
    pub content_type: Option<Seq<char>>,
}

/// What an `openai_harmony` content block holds, as far as a conversation
/// can hold it: the text of a text block; the settings of a system block
/// that holds these five settings and nothing more; else `None`.
pub uninterp spec fn held_block(block: openai_harmony::chat::Content) -> Option<ContentView>;

/// What the content of an `openai_harmony` message holds: for each of its
/// blocks, in order, what that block holds.
pub uninterp spec fn held_blocks(message: openai_harmony::chat::Message) -> Seq<
    Option<ContentView>,
>;

/// What the header of an `openai_harmony` message holds: the role and the
/// name of its author, its recipient, its channel and its content type.
pub uninterp spec fn held_header(message: openai_harmony::chat::Message) -> HeaderView;

/// The header of a message of the conversation.
pub open spec fn header_of(message: MessageView) -> HeaderView {
    HeaderView {
        role: message.role,
        author_name: message.author_name,
        recipient: message.recipient,
        channel: message.channel,
        content_type: message.content_type,
    }
}

/// What each block of a list of outside blocks holds.
pub open spec fn blocks_held(content: Seq<openai_harmony::chat::Content>) -> Seq<
    Option<ContentView>,
> {
    Seq::new(content.len(), |i: int| held_block(content[i]))
}

/// The blocks of a message of the conversation, each as what an outside
/// block holds.
pub open spec fn blocks_of(content: Seq<ContentView>) -> Seq<Option<ContentView>> {
    Seq::new(content.len(), |i: int| Some(content[i]))
}

/// Builds `openai_harmony`'s text content, `Content::Text`, which holds
/// `text`.
#[verifier::external_body]
fn text_content(text: &str) -> (r: openai_harmony::chat::Content)
    ensures
        held_block(r) == Some(ContentView::Text(text@)),
{
    openai_harmony::chat::Content::Text(
        openai_harmony::chat::TextContent { text: text.to_string() },
    )
}

/// Builds `openai_harmony`'s system content with the builders of
/// `SystemContent`, one for each setting: the block holds these settings.
#[verifier::external_body]
fn system_content(settings: &SystemSettings) -> (r: openai_harmony::chat::Content)
    ensures
        held_block(r) == Some(ContentView::System(settings@)),
{
    openai_harmony::chat::SystemContent::new()
        .with_model_identity(settings.model_identity.clone())
        .with_knowledge_cutoff(settings.knowledge_cutoff.clone())
        .with_conversation_start_date(settings.conversation_start_date.clone())
        .with_reasoning_effort(match settings.reasoning_effort {
            Effort::Low => openai_harmony::chat::ReasoningEffort::Low,
            Effort::Medium => openai_harmony::chat::ReasoningEffort::Medium,
            Effort::High => openai_harmony::chat::ReasoningEffort::High,
        })
        .with_required_channels(settings.required_channels.clone())
        .into()
}

/// Builds an `openai_harmony` message, a struct literal of `Message`, with
/// the header of `message` and with `content`: it holds that header and
/// those blocks.
#[verifier::external_body]
fn outside_message(message: &ChatMessage, content: Vec<openai_harmony::chat::Content>) -> (r:
    openai_harmony::chat::Message)
    ensures
        held_header(r) == header_of(message@),
        held_blocks(r) == blocks_held(content@),
{
    let role = match message.role {
        Speaker::System => openai_harmony::chat::Role::System,
        Speaker::Developer => openai_harmony::chat::Role::Developer,
        Speaker::User => openai_harmony::chat::Role::User,
        Speaker::Assistant => openai_harmony::chat::Role::Assistant,
        Speaker::Tool => openai_harmony::chat::Role::Tool,
    };
    openai_harmony::chat::Message {
        author: openai_harmony::chat::Author { role, name: message.author_name.clone() },
        recipient: message.recipient.clone(),
        content,
        channel: message.channel.clone(),
        content_type: message.content_type.clone(),
    }
}

/// The longest text, in characters, that is handed to the tokenizer.
pub open spec fn text_limit() -> nat {
    100_000
}

/// The longest setting of a system block, in characters.
pub open spec fn setting_limit() -> nat {
    1_000
}

/// The largest number of channels that a system block may name.
pub open spec fn channel_limit() -> nat {
    32
}

/// An optional string is short enough for the tokenizer.
pub open spec fn opt_fits(text: Option<Seq<char>>) -> bool {
    match text {
        Some(t) => t.len() <= text_limit(),
        None => true,
    }
}

/// A block is short enough for the tokenizer: a text within the text limit;
/// a system block with every setting within the setting limit and no more
/// channels than the channel limit.
pub open spec fn block_fits(block: ContentView) -> bool {
    match block {
        ContentView::Text(t) => t.len() <= text_limit(),
        ContentView::System(s) => {
            &&& s.model_identity.len() <= setting_limit()
            &&& s.knowledge_cutoff.len() <= setting_limit()
            &&& s.conversation_start_date.len() <= setting_limit()
            &&& s.required_channels.len() <= channel_limit()
            &&& forall|k: int|
                0 <= k < s.required_channels.len() ==> (#[trigger] s.required_channels[k]).len()
                    <= setting_limit()
        },
    }
}

/// Every string of the message is short enough for the tokenizer.
pub open spec fn message_fits(message: MessageView) -> bool {
    &&& opt_fits(message.author_name)
    &&& opt_fits(message.recipient)
    &&& opt_fits(message.channel)
    &&& opt_fits(message.content_type)
    &&& forall|k: int| 0 <= k < message.content.len() ==> block_fits(#[trigger] message.content[k])
}

/// Every message of the conversation is short enough for the tokenizer.
pub open spec fn renderable(conversation: Seq<MessageView>) -> bool {
    forall|i: int| 0 <= i < conversation.len() ==> message_fits(#[trigger] conversation[i])
}

/// Every block of the outside message is one that a conversation can hold.
pub open spec fn wholly_held(message: openai_harmony::chat::Message) -> bool {
    forall|k: int|
        0 <= k < held_blocks(message).len() ==> (#[trigger] held_blocks(message)[k]) is Some
}

/// The message of the conversation that an outside message stands for, where
/// a conversation can hold every block of it.
pub open spec fn held_message(message: openai_harmony::chat::Message) -> MessageView {
    MessageView {
        role: held_header(message).role,
        author_name: held_header(message).author_name,
        recipient: held_header(message).recipient,
        channel: held_header(message).channel,
        content_type: held_header(message).content_type,
        content: Seq::new(held_blocks(message).len(), |k: int| held_blocks(message)[k]->0),
    }
}

/// The messages of the conversation that a list of outside messages stands for.
pub open spec fn held_messages(messages: Seq<openai_harmony::chat::Message>) -> Seq<MessageView> {
    Seq::new(messages.len(), |i: int| held_message(messages[i]))
}

/// The tokens that an encoding renders for a conversation with the assistant
/// as the next speaker, or `None` where rendering fails.
pub uninterp spec fn rendered_tokens(
    encoding: openai_harmony::HarmonyEncoding,
    conversation: Seq<MessageView>,
) -> Option<Seq<u32>>;

/// The text that an encoding's tokenizer reads from tokens, or `None` where
/// they are no text.
pub uninterp spec fn text_of_tokens(
    encoding: openai_harmony::HarmonyEncoding,
    tokens: Seq<u32>,
) -> Option<Seq<char>>;

/// The tokens that an encoding's tokenizer makes of a text, with no special
/// token allowed.
pub uninterp spec fn tokens_of(encoding: openai_harmony::HarmonyEncoding, text: Seq<char>) -> Seq<
    u32,
>;

/// The messages that an encoding decodes from the tokens of an assistant's
/// completion, or `None` where decoding fails.
pub uninterp spec fn parsed_from(
    encoding: openai_harmony::HarmonyEncoding,
    tokens: Seq<u32>,
) -> Option<Seq<openai_harmony::chat::Message>>;

/// Calls `HarmonyEncoding::render_conversation_for_completion` with the
/// assistant as the next speaker. The tokens depend on the encoding and on
/// what the messages hold alone; the contract gives them a name. Each string
/// of a message, and the one text made of a system block's settings, goes to
/// the tokenizer, which unwraps the outcome of its pattern search. That
/// search gives up after a million steps back or a million open branches;
/// each alternative of the pattern runs through a text once, so strings
/// within the limits stay well under both, and longer ones are left out.
#[verifier::external_body]
fn render_tokens(
    encoding: &openai_harmony::HarmonyEncoding,
    messages: &Vec<openai_harmony::chat::Message>,
) -> (r: Result<Vec<u32>, anyhow::Error>)
    requires
        forall|i: int| 0 <= i < messages@.len() ==> wholly_held(#[trigger] messages@[i]),
        renderable(held_messages(messages@)),
    ensures
        r matches Ok(tokens) ==> rendered_tokens(*encoding, held_messages(messages@)) == Some(
            tokens@,
        ),
        r is Err ==> rendered_tokens(*encoding, held_messages(messages@)) is None,
{
    encoding.render_conversation_for_completion(
        messages.iter(),
        openai_harmony::chat::Role::Assistant,
        None,
    )
}

/// Calls `decode_utf8` of the encoding's tokenizer: the text of the tokens,
/// or `None` where they are no text. The text depends on the encoding and
/// the tokens alone; the contract gives it a name.
#[verifier::external_body]
fn detokenize(encoding: &openai_harmony::HarmonyEncoding, tokens: &Vec<u32>) -> (r: Option<
    String,
>)
    ensures
        opt_text(r) == text_of_tokens(*encoding, tokens@),
{
    encoding.tokenizer().decode_utf8(tokens).ok()
}

/// Calls `encode` of the encoding's tokenizer with no special token allowed.
/// The tokens depend on the encoding and the text alone; the contract gives
/// them a name. `encode` unwraps the outcome of its pattern search, which
/// gives up after a million steps back or a million open branches; each
/// alternative of the pattern runs through the text once, so a text within
/// the limit stays well under both, and longer ones are left out.
#[verifier::external_body]
fn tokenize(encoding: &openai_harmony::HarmonyEncoding, text: &str) -> (r: Vec<u32>)
    requires
        text@.len() <= text_limit(),
    ensures
        r@ == tokens_of(*encoding, text@),
{
    encoding.tokenizer().encode(text, &std::collections::HashSet::new()).0
}

/// Calls `HarmonyEncoding::parse_messages_from_completion_tokens` for a
/// completion of the assistant. The messages depend on the encoding and the
/// tokens alone; the contract gives them a name. The decoder hands the text
/// of the tokens back to the tokenizer piece by piece, so the tokens must be
/// those of a text within the tokenizer's limit.
#[verifier::external_body]
fn parse_tokens(encoding: &openai_harmony::HarmonyEncoding, tokens: Vec<u32>) -> (r: Result<
    Vec<openai_harmony::chat::Message>,
    anyhow::Error,
>)
    requires
        exists|text: Seq<char>|
            text.len() <= text_limit() && tokens@ == #[trigger] tokens_of(*encoding, text),
    ensures
        r matches Ok(messages) ==> parsed_from(*encoding, tokens@) == Some(messages@),
        r is Err ==> parsed_from(*encoding, tokens@) is None,
{
    encoding.parse_messages_from_completion_tokens(
        tokens,
        Some(openai_harmony::chat::Role::Assistant),
    )
}

/// The text of the block at `i`, where there is such a block and it holds a
/// text.
pub open spec fn text_at(blocks: Seq<Option<ContentView>>, i: int) -> Option<Seq<char>> {
    if 0 <= i < blocks.len() {
        match blocks[i] {
            Some(ContentView::Text(text)) => Some(text),
            _ => None,
        }
    } else {
        None
    }
}

/// The text blocks among `blocks`, in their order.
pub open spec fn text_blocks(blocks: Seq<Option<ContentView>>) -> Seq<ContentView>
    decreases blocks.len(),
{
    if blocks.len() == 0 {
        Seq::empty()
    } else {
        let before = text_blocks(blocks.drop_last());
        match blocks.last() {
            Some(ContentView::Text(text)) => before.push(ContentView::Text(text)),
            _ => before,
        }
    }
}

/// The message of the conversation that stands for an outside message with
/// this header and these blocks.
pub open spec fn imported(header: HeaderView, blocks: Seq<Option<ContentView>>) -> MessageView {
    MessageView {
        role: header.role,
        author_name: header.author_name,
        recipient: header.recipient,
        channel: header.channel,
        content_type: header.content_type,
        content: text_blocks(blocks),
    }
}

/// The messages of the conversation that stand for a list of outside messages.
pub open spec fn imported_all(messages: Seq<openai_harmony::chat::Message>) -> Seq<MessageView> {
    Seq::new(messages.len(), |i: int| imported(held_header(messages[i]), held_blocks(messages[i])))
}

/// Every block of the message is a text.
pub open spec fn only_texts(message: MessageView) -> bool {
    forall|i: int| 0 <= i < message.content.len() ==> #[trigger] message.content[i] is Text
}

/// The role of the author of an `openai_harmony` message, under the same name.
#[verifier::external_body]
fn inside_role(message: &openai_harmony::chat::Message) -> (r: Speaker)
    ensures
        r == held_header(*message).role,
{
    match message.author.role {
        openai_harmony::chat::Role::System => Speaker::System,
        openai_harmony::chat::Role::Developer => Speaker::Developer,
        openai_harmony::chat::Role::User => Speaker::User,
        openai_harmony::chat::Role::Assistant => Speaker::Assistant,
        openai_harmony::chat::Role::Tool => Speaker::Tool,
    }
}

/// The name of the author of an `openai_harmony` message: its field
/// `author.name`.
#[verifier::external_body]
fn author_name_of(message: &openai_harmony::chat::Message) -> (r: Option<String>)
    ensures
        opt_text(r) == held_header(*message).author_name,
{
    message.author.name.clone()
}

/// The recipient of an `openai_harmony` message: its field `recipient`.
#[verifier::external_body]
fn recipient_of(message: &openai_harmony::chat::Message) -> (r: Option<String>)
    ensures
        opt_text(r) == held_header(*message).recipient,
{
    message.recipient.clone()
}

/// The channel of an `openai_harmony` message: its field `channel`.
#[verifier::external_body]
fn channel_of(message: &openai_harmony::chat::Message) -> (r: Option<String>)
    ensures
        opt_text(r) == held_header(*message).channel,
{
    message.channel.clone()
}

/// The content type of an `openai_harmony` message: its field `content_type`.
#[verifier::external_body]
fn content_type_of(message: &openai_harmony::chat::Message) -> (r: Option<String>)
    ensures
        opt_text(r) == held_header(*message).content_type,
{
    message.content_type.clone()
}

/// The number of content blocks of an `openai_harmony` message: the length
/// of its field `content`.
#[verifier::external_body]
fn content_count(message: &openai_harmony::chat::Message) -> (r: usize)
    ensures
        r == held_blocks(*message).len(),
{
    message.content.len()
}

/// The text of the content block at `index` of an `openai_harmony` message,
/// where there is such a block and it is a text.
#[verifier::external_body]
fn content_text(message: &openai_harmony::chat::Message, index: usize) -> (r: Option<String>)
    ensures
        opt_text(r) == text_at(held_blocks(*message), index as int),
{
    match message.content.get(index) {
        Some(openai_harmony::chat::Content::Text(t)) => Some(t.text.clone()),
        _ => None,
    }
}

/// The content of `message` as `openai_harmony` has it, block by block.
fn export_content(message: &ChatMessage) -> (r: Vec<openai_harmony::chat::Content>)
    ensures
        blocks_held(r@) == blocks_of(message@.content),
{
    let mut out: Vec<openai_harmony::chat::Content> = Vec::new();
    let mut i: usize = 0;
    while i < message.content.len()
        invariant
            i <= message.content.len(),
            out@.len() == i,
            forall|k: int| 0 <= k < i ==> held_block(#[trigger] out@[k]) == Some(
                message.content@[k]@,
            ),
        decreases message.content.len() - i,
    {
        let block = match &message.content[i] {
            ContentBlock::Text(t) => text_content(t.as_str()),
            ContentBlock::System(s) => system_content(s),
        };
        out.push(block);
        i += 1;
    }
    assert(blocks_held(out@) =~= blocks_of(message@.content));
    out
}

/// The messages of `conversation` as `openai_harmony` has them, one for one:
/// each holds the header and the blocks of the message that it stands for.
pub fn export_messages(conversation: &Conversation) -> (r: Vec<openai_harmony::chat::Message>)
    ensures
        r@.len() == conversation@.len(),
        forall|i: int|
            0 <= i < r@.len() ==> held_header(#[trigger] r@[i]) == header_of(conversation@[i])
                && held_blocks(r@[i]) == blocks_of(conversation@[i].content),
        forall|i: int| 0 <= i < r@.len() ==> wholly_held(#[trigger] r@[i]),
        held_messages(r@) == conversation@,
{
    let mut out: Vec<openai_harmony::chat::Message> = Vec::new();
    let mut i: usize = 0;
    while i < conversation.messages.len()
        invariant
            i <= conversation.messages.len(),
            out@.len() == i,
            forall|k: int|
                0 <= k < i ==> held_header(#[trigger] out@[k]) == header_of(conversation@[k])
                    && held_blocks(out@[k]) == blocks_of(conversation@[k].content),
        decreases conversation.messages.len() - i,
    {
        let message = &conversation.messages[i];
        assert(conversation@[i as int] == message@);
        let content = export_content(message);
        out.push(outside_message(message, content));
        i += 1;
    }
    proof {
        assert forall|i: int| 0 <= i < out@.len() implies held_message(#[trigger] out@[i])
            == conversation@[i] by {
            assert(held_message(out@[i]).content =~= conversation@[i].content);
        }
        assert(held_messages(out@) =~= conversation@);
    }
    out
}

/// The blocks that stand for no text add nothing, and a text adds its block
/// at the end.
proof fn lemma_text_blocks_step(texts: Seq<Option<ContentView>>, i: int)
    requires
        0 <= i < texts.len(),
    ensures
        text_blocks(texts.subrange(0, i + 1)) == match text_at(texts, i) {
            Some(text) => text_blocks(texts.subrange(0, i)).push(ContentView::Text(text)),
            None => text_blocks(texts.subrange(0, i)),
        },
{
    let upto = texts.subrange(0, i + 1);
    assert(upto.drop_last() =~= texts.subrange(0, i));
    assert(upto.last() == texts[i]);
}

/// Blocks made of texts are texts, every one.
pub proof fn lemma_text_blocks_are_texts(texts: Seq<Option<ContentView>>)
    ensures
        forall|i: int| 0 <= i < text_blocks(texts).len() ==> #[trigger] text_blocks(texts)[i] is Text,
    decreases texts.len(),
{
    if texts.len() > 0 {
        lemma_text_blocks_are_texts(texts.drop_last());
    }
}

/// A message that holds texts alone comes back as it was from the outside
/// message that stands for it.
pub proof fn lemma_import_of_export(message: MessageView)
    requires
        only_texts(message),
    ensures
        imported(header_of(message), blocks_of(message.content)) == message,
{
    lemma_texts_come_back(message.content);
}

proof fn lemma_texts_come_back(content: Seq<ContentView>)
    requires
        forall|i: int| 0 <= i < content.len() ==> #[trigger] content[i] is Text,
    ensures
        text_blocks(blocks_of(content)) == content,
    decreases content.len(),
{
    if content.len() > 0 {
        lemma_texts_come_back(content.drop_last());
        assert(blocks_of(content).drop_last() =~= blocks_of(content.drop_last()));
        assert(content.last() is Text);
        assert(content =~= content.drop_last().push(content.last()));
    } else {
        assert(text_blocks(blocks_of(content)) =~= content);
    }
}

/// An `openai_harmony` message as a message of the conversation: the same
/// header, and its text blocks in their order; a block that is no text is
/// left out.
pub fn import_message(message: &openai_harmony::chat::Message) -> (r: ChatMessage)
    ensures
        r@ == imported(held_header(*message), held_blocks(*message)),
{
    let ghost texts = held_blocks(*message);
    let count: usize = content_count(message);
    let mut content: Vec<ContentBlock> = Vec::new();
    let mut i: usize = 0;
    assert(texts.subrange(0, 0) =~= Seq::<Option<ContentView>>::empty());
    assert(Seq::new(content@.len(), |k: int| content@[k]@) =~= text_blocks(texts.subrange(0, 0)));
    while i < count
        invariant
            i <= count,
            count == texts.len(),
            texts == held_blocks(*message),
            Seq::new(content@.len(), |k: int| content@[k]@) == text_blocks(
                texts.subrange(0, i as int),
            ),
        decreases count - i,
    {
        let ghost before = Seq::new(content@.len(), |k: int| content@[k]@);
        proof {
            lemma_text_blocks_step(texts, i as int);
        }
        match content_text(message, i) {
            Some(text) => {
                content.push(ContentBlock::Text(text));
                assert(Seq::new(content@.len(), |k: int| content@[k]@) =~= before.push(
                    ContentView::Text(text@),
                ));
            },
            None => {},
        }
        i += 1;
    }
    assert(texts.subrange(0, count as int) =~= texts);
    let r = ChatMessage {
        role: inside_role(message),
        author_name: author_name_of(message),
        recipient: recipient_of(message),
        channel: channel_of(message),
        content_type: content_type_of(message),
        content,
    };
    assert(r@.content =~= text_blocks(texts));
    r
}

/// A list of `openai_harmony` messages as messages of the conversation, one
/// for one and in their order.
pub fn import_messages(messages: &Vec<openai_harmony::chat::Message>) -> (r: Vec<ChatMessage>)
    ensures
        message_views(r@) == imported_all(messages@),
{
    let mut out: Vec<ChatMessage> = Vec::new();
    let mut i: usize = 0;
    while i < messages.len()
        invariant
            i <= messages.len(),
            out@.len() == i,
            forall|k: int| 0 <= k < i ==> (#[trigger] out@[k])@ == imported(
                held_header(messages@[k]),
                held_blocks(messages@[k]),
            ),
        decreases messages.len() - i,
    {
        out.push(import_message(&messages[i]));
        i += 1;
    }
    assert(message_views(out@) =~= imported_all(messages@));
    out
}

/// What rendering a conversation gives: no prompt where a text of the
/// conversation is too long for the tokenizer, where the encoding cannot
/// render it, or where the rendered tokens are no text; else the text of the
/// rendered tokens.
pub open spec fn prompt_of(
    encoding: openai_harmony::HarmonyEncoding,
    conversation: Seq<MessageView>,
) -> Result<Seq<char>, CodecError> {
    if !renderable(conversation) {
        Err(CodecError::TooLong)
    } else {
        match rendered_tokens(encoding, conversation) {
            None => Err(CodecError::Render),
            Some(tokens) => match text_of_tokens(encoding, tokens) {
                None => Err(CodecError::Decode),
                Some(prompt) => Ok(prompt),
            },
        }
    }
}

/// Whether an optional string is short enough for the tokenizer.
fn opt_is_short(text: &Option<String>) -> (r: bool)
    ensures
        r == opt_fits(opt_text(*text)),
{
    match text {
        Some(t) => t.as_str().unicode_len() <= 100_000,
        None => true,
    }
}

/// Whether a block is short enough for the tokenizer.
fn block_is_short(block: &ContentBlock) -> (r: bool)
    ensures
        r == block_fits(block@),
{
    match block {
        ContentBlock::Text(t) => t.as_str().unicode_len() <= 100_000,
        ContentBlock::System(s) => {
            if s.model_identity.as_str().unicode_len() > 1_000
                || s.knowledge_cutoff.as_str().unicode_len() > 1_000
                || s.conversation_start_date.as_str().unicode_len() > 1_000
                || s.required_channels.len() > 32 {
                return false;
            }
            let mut k: usize = 0;
            while k < s.required_channels.len()
                invariant
                    k <= s.required_channels.len(),
                    block@ == ContentView::System(s@),
                    s@.model_identity.len() <= setting_limit(),
                    s@.knowledge_cutoff.len() <= setting_limit(),
                    s@.conversation_start_date.len() <= setting_limit(),
                    s@.required_channels.len() <= channel_limit(),
                    forall|j: int|
                        0 <= j < k ==> (#[trigger] s@.required_channels[j]).len()
                            <= setting_limit(),
                decreases s.required_channels.len() - k,
            {
                assert(s@.required_channels[k as int] == s.required_channels@[k as int]@);
                if s.required_channels[k].as_str().unicode_len() > 1_000 {
                    return false;
                }
                k += 1;
            }
            true
        },
    }
}

/// Whether every string of the message is short enough for the tokenizer.
fn message_is_short(message: &ChatMessage) -> (r: bool)
    ensures
        r == message_fits(message@),
{
    if !opt_is_short(&message.author_name) || !opt_is_short(&message.recipient) || !opt_is_short(
        &message.channel,
    ) || !opt_is_short(&message.content_type) {
        return false;
    }
    let mut k: usize = 0;
    while k < message.content.len()
        invariant
            k <= message.content.len(),
            forall|j: int| 0 <= j < k ==> block_fits(#[trigger] message@.content[j]),
        decreases message.content.len() - k,
    {
        assert(message@.content[k as int] == message.content@[k as int]@);
        if !block_is_short(&message.content[k]) {
            return false;
        }
        k += 1;
    }
    true
}

/// Whether every message of the conversation is short enough for the
/// tokenizer.
pub fn fits_tokenizer(conversation: &Conversation) -> (r: bool)
    ensures
        r == renderable(conversation@),
{
    let mut i: usize = 0;
    while i < conversation.messages.len()
        invariant
            i <= conversation.messages.len(),
            forall|j: int| 0 <= j < i ==> message_fits(#[trigger] conversation@[j]),
        decreases conversation.messages.len() - i,
    {
        assert(conversation@[i as int] == conversation.messages@[i as int]@);
        if !message_is_short(&conversation.messages[i]) {
            return false;
        }
        i += 1;
    }
    true
}

/// The prompt, or the reason why there is none. `rendered` is `None` where
/// the conversation could not be rendered into tokens, and holds `None`
/// where the tokens are no text.
pub fn prompt_outcome(rendered: Option<Option<String>>) -> (r: Result<String, CodecError>)
    ensures
        match r {
            Ok(prompt) => rendered matches Some(Some(text)) && text@ == prompt@,
            Err(e) => match rendered {
                None => e == CodecError::Render,
                Some(given) => given is None && e == CodecError::Decode,
            },
        },
{
    match rendered {
        None => Err(CodecError::Render),
        Some(None) => Err(CodecError::Decode),
        Some(Some(prompt)) => Ok(prompt),
    }
}

/// The prompt for the next completion: the conversation in the grammar of
/// the encoding, with the assistant as the next speaker. It is a function of
/// the encoding and of what the conversation holds: see `prompt_of`.
pub fn render_prompt(encoding: &openai_harmony::HarmonyEncoding, conversation: &Conversation) -> (r:
    Result<String, CodecError>)
    ensures
        match r {
            Ok(prompt) => prompt_of(*encoding, conversation@) == Ok::<Seq<char>, CodecError>(
                prompt@,
            ),
            Err(e) => prompt_of(*encoding, conversation@) == Err::<Seq<char>, CodecError>(e),
        },
{
    if !fits_tokenizer(conversation) {
        return Err(CodecError::TooLong);
    }
    let messages = export_messages(conversation);
    let rendered = match render_tokens(encoding, &messages) {
        Err(_) => None,
        Ok(tokens) => Some(detokenize(encoding, &tokens)),
    };
    prompt_outcome(rendered)
}

/// What structured decoding reads from a completion: the messages that the
/// encoding decodes from the tokens of the repaired text, each as a message
/// of the conversation; nothing where decoding fails or the repaired text is
/// too long for the tokenizer.
pub open spec fn decoded_of(encoding: openai_harmony::HarmonyEncoding, raw: Seq<char>) -> Option<
    Seq<MessageView>,
> {
    let text = repaired(raw);
    if text.len() > text_limit() {
        None
    } else {
        match parsed_from(encoding, tokens_of(encoding, text)) {
            Some(messages) => Some(imported_all(messages)),
            None => None,
        }
    }
}

/// The views of the messages that decoding gave, if it gave any.
pub open spec fn decoded_views(decoded: Option<Vec<ChatMessage>>) -> Option<Seq<MessageView>> {
    match decoded {
        Some(m) => Some(message_views(m@)),
        None => None,
    }
}

/// The messages that structured decoding reads from the completion `raw`,
/// after the repair of a missing call terminator, or `None` where it fails:
/// see `decoded_of`.
pub fn decode_completion(encoding: &openai_harmony::HarmonyEncoding, raw: &str) -> (r: Option<
    Vec<ChatMessage>,
>)
    ensures
        decoded_views(r) == decoded_of(*encoding, raw@),
{
    let complete = repair(raw);
    if complete.as_str().unicode_len() > 100_000 {
        return None;
    }
    let tokens = tokenize(encoding, complete.as_str());
    assert(tokens@ == tokens_of(*encoding, complete@));
    match parse_tokens(encoding, tokens) {
        Err(_) => None,
        Ok(parsed) => Some(import_messages(&parsed)),
    }
}

/// Reads the completion `raw` for `agent`: decodes it, says what it amounts
/// to, and appends it to the conversation.
pub fn read_completion(
    agent: &mut Agent,
    encoding: &openai_harmony::HarmonyEncoding,
    raw: &str,
) -> (r: InferenceResult)
    ensures
        r@ == completion_outcome(raw@, decoded_of(*encoding, raw@)),
        final(agent).conversation@ == after_completion(
            old(agent).conversation@,
            raw@,
            decoded_of(*encoding, raw@),
        ),
{
    let decoded = decode_completion(encoding, raw);
    agent.take_completion(raw, decoded)
}

/// A completion that addresses a tool and lacks the call terminator is
/// decoded as the same text with the terminator at its end is. Where the
/// decoded messages hold a call or an answer, the two texts amount to the
/// same, and the same messages are appended.
pub proof fn lemma_decoding_meets_terminated_text(
    encoding: openai_harmony::HarmonyEncoding,
    text: Seq<char>,
    before: Seq<MessageView>,
)
    requires
        lacks_call_terminator(text),
    ensures
        decoded_of(encoding, text) == decoded_of(encoding, text + call_terminator()),
        decoded_of(encoding, text) matches Some(messages) ==> {
            &&& after_completion(before, text, Some(messages)) == after_completion(
                before,
                text + call_terminator(),
                Some(messages),
            )
            &&& structured_outcome(messages) is Some ==> completion_outcome(text, Some(messages))
                == completion_outcome(text + call_terminator(), Some(messages))
        },
{
    lemma_repair_meets_terminated_text(text);
}

} // verus!
