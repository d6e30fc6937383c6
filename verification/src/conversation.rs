//! The conversation: messages with their role, addressee, channel and
//! content, and the log that only ever grows at its end.

use vstd::prelude::*;
use vstd::string::*;

verus! {

/// Who speaks in a message.
#[derive(Clone, Copy, Debug, PartialEq, Eq, Structural)]
pub enum Speaker {
    System,
    Developer,
    User,
    Assistant,
    Tool,
}

/// How much reasoning the system message asks for.
#[derive(Clone, Copy, Debug, PartialEq, Eq, Structural)]
pub enum Effort {
    Low,
    Medium,
    High,
}

/// What the system message says of the model and of the channels.
#[derive(Clone, Debug, PartialEq, Eq)]
pub struct SystemSettings {
    pub model_identity: String,
    pub knowledge_cutoff: String,
    pub conversation_start_date: String,
    pub reasoning_effort: Effort,
    pub required_channels: Vec<String>,
}

/// One block of a message's content.
#[derive(Clone, Debug, PartialEq, Eq)]
pub enum ContentBlock {
    Text(String),
    System(SystemSettings),
}

/// One utterance of the dialogue.
#[derive(Clone, Debug, PartialEq, Eq)]
pub struct ChatMessage {
    pub role: Speaker,
    pub author_name: Option<String>,
    pub recipient: Option<String>,
    pub channel: Option<String>,
    /// The constraint hint of the message, such as the format of a tool
    /// call's arguments.
    pub content_type: Option<String>,
    pub content: Vec<ContentBlock>,
}

/// The dialogue so far, oldest message first.
#[derive(Clone, Debug, PartialEq, Eq)]
pub struct Conversation {
    pub messages: Vec<ChatMessage>,
}

/// `SystemSettings` as plain values.
pub struct SystemSettingsView {
    pub model_identity: Seq<char>,
    pub knowledge_cutoff: Seq<char>,
    pub conversation_start_date: Seq<char>,
    pub reasoning_effort: Effort,
    pub required_channels: Seq<Seq<char>>,
}

/// `ContentBlock` as plain values.
pub enum ContentView {
    Text(Seq<char>),
    System(SystemSettingsView),
}

/// `ChatMessage` as plain values.
pub struct MessageView {
    pub role: Speaker,
    pub author_name: Option<Seq<char>>,
    pub recipient: Option<Seq<char>>,
    pub channel: Option<Seq<char>>,
    pub content_type: Option<Seq<char>>,
    pub content: Seq<ContentView>,
}

/// The character sequences of a list of strings.
pub open spec fn texts(v: Seq<String>) -> Seq<Seq<char>> {
    Seq::new(v.len(), |i: int| v[i]@)
}

/// The characters of an optional string.
pub open spec fn opt_text(s: Option<String>) -> Option<Seq<char>> {
    match s {
        Some(t) => Some(t@),
        None => None,
    }
}

impl View for SystemSettings {
    type V = SystemSettingsView;

    open spec fn view(&self) -> SystemSettingsView {
        SystemSettingsView {
            model_identity: self.model_identity@,
            knowledge_cutoff: self.knowledge_cutoff@,
            conversation_start_date: self.conversation_start_date@,
            reasoning_effort: self.reasoning_effort,
            required_channels: texts(self.required_channels@),
        }
    }
}

impl View for ContentBlock {
    type V = ContentView;

    open spec fn view(&self) -> ContentView {
        match self {
            ContentBlock::Text(t) => ContentView::Text(t@),
            ContentBlock::System(s) => ContentView::System(s@),
        }
    }
}

impl View for ChatMessage {
    type V = MessageView;

    open spec fn view(&self) -> MessageView {
        MessageView {
            role: self.role,
            author_name: opt_text(self.author_name),
            recipient: opt_text(self.recipient),
            channel: opt_text(self.channel),
            content_type: opt_text(self.content_type),
            content: Seq::new(self.content@.len(), |i: int| self.content@[i]@),
        }
    }
}

/// The views of a list of messages.
pub open spec fn message_views(v: Seq<ChatMessage>) -> Seq<MessageView> {
    Seq::new(v.len(), |i: int| v[i]@)
}

impl View for Conversation {
    type V = Seq<MessageView>;

    open spec fn view(&self) -> Seq<MessageView> {
        message_views(self.messages@)
    }
}

/// A message of `role` whose content is the one text `text`.
pub open spec fn text_message(role: Speaker, text: Seq<char>) -> MessageView {
    MessageView {
        role,
        author_name: None,
        recipient: None,
        channel: None,
        content_type: None,
        content: seq![ContentView::Text(text)],
    }
}

/// The message that carries a tool's result back to the assistant.
pub open spec fn tool_result_view(tool_name: Seq<char>, result: Seq<char>) -> MessageView {
    MessageView {
        role: Speaker::Tool,
        author_name: Some(tool_name),
        recipient: Some("assistant"@),
        channel: Some("commentary"@),
        content_type: None,
        content: seq![ContentView::Text(result)],
    }
}

/// The instructions and the tool schema that the developer message carries.
pub open spec fn developer_instructions() -> Seq<char> {
    "# Instructions\n\nYou are a helpful coding assistant that can read, list, and edit files. Be concise and helpful.\n\nCalls to these tools must go to the commentary channel: 'functions'.\n\n# Tools\n\n## functions\n\nnamespace functions {\n\n// Read the contents of a given relative file path\ntype read_file = (_: {\n// The relative path of a file in the working directory\npath: string,\n}) => any;\n\n// List files and directories at a given path\ntype list_files = (_: {\n// Optional relative path to list files from. Defaults to current directory if not provided\npath?: string,\n}) => any;\n\n// Make edits to a text file\ntype edit_file = (_: {\n// The path to the file\npath: string,\n// Text to search for - must match exactly\nold_str: string,\n// Text to replace old_str with\nnew_str: string,\n}) => any;\n\n} // namespace functions"@
}

/// The settings of the system message with which every conversation begins.
pub open spec fn initial_settings() -> SystemSettingsView {
    SystemSettingsView {
        model_identity: "You are ChatGPT, a large language model trained by OpenAI."@,
        knowledge_cutoff: "2024-06"@,
        conversation_start_date: "2025-01-08"@,
        reasoning_effort: Effort::High,
        required_channels: seq!["analysis"@, "commentary"@, "final"@],
    }
}

/// The conversation before any user turn: one system message, then one
/// developer message.
pub open spec fn initial_messages() -> Seq<MessageView> {
    seq![
        MessageView {
            role: Speaker::System,
            author_name: None,
            recipient: None,
            channel: None,
            content_type: None,
            content: seq![ContentView::System(initial_settings())],
        },
        text_message(Speaker::Developer, developer_instructions()),
    ]
}

impl ChatMessage {
    /// A message of `role` with the one text block `text`.
    pub fn from_role_and_text(role: Speaker, text: &str) -> (r: ChatMessage)
        ensures
            r@ == text_message(role, text@),
    {
        let mut content: Vec<ContentBlock> = Vec::new();
        content.push(ContentBlock::Text(String::from_str(text)));
        let r = ChatMessage {
            role,
            author_name: None,
            recipient: None,
            channel: None,
            content_type: None,
            content,
        };
        assert(r@.content =~= seq![ContentView::Text(text@)]);
        r
    }

    /// The message that carries the result of the tool `tool_name` back to
    /// the assistant, on the commentary channel.
    pub fn tool_result(tool_name: &str, result: &str) -> (r: ChatMessage)
        ensures
            r@ == tool_result_view(tool_name@, result@),
    {
        let mut content: Vec<ContentBlock> = Vec::new();
        content.push(ContentBlock::Text(String::from_str(result)));
        let r = ChatMessage {
            role: Speaker::Tool,
            author_name: Some(String::from_str(tool_name)),
            recipient: Some(String::from_str("assistant")),
            channel: Some(String::from_str("commentary")),
            content_type: None,
            content,
        };
        assert(r@.content =~= seq![ContentView::Text(result@)]);
        r
    }
}

impl Conversation {
    /// The conversation with which every session begins.
    pub fn initial() -> (r: Conversation)
        ensures
            r@ == initial_messages(),
    {
        let mut channels: Vec<String> = Vec::new();
        channels.push(String::from_str("analysis"));
        channels.push(String::from_str("commentary"));
        channels.push(String::from_str("final"));
        let settings = SystemSettings {
            model_identity: String::from_str(
                "You are ChatGPT, a large language model trained by OpenAI.",
            ),
            knowledge_cutoff: String::from_str("2024-06"),
            conversation_start_date: String::from_str("2025-01-08"),
            reasoning_effort: Effort::High,
            required_channels: channels,
        };
        assert(settings@.required_channels =~= initial_settings().required_channels);
        let mut content: Vec<ContentBlock> = Vec::new();
        content.push(ContentBlock::System(settings));
        let system = ChatMessage {
            role: Speaker::System,
            author_name: None,
            recipient: None,
            channel: None,
            content_type: None,
            content,
        };
        assert(system@.content =~= seq![ContentView::System(initial_settings())]);
        let developer = ChatMessage::from_role_and_text(
            Speaker::Developer,
            "# Instructions\n\nYou are a helpful coding assistant that can read, list, and edit files. Be concise and helpful.\n\nCalls to these tools must go to the commentary channel: 'functions'.\n\n# Tools\n\n## functions\n\nnamespace functions {\n\n// Read the contents of a given relative file path\ntype read_file = (_: {\n// The relative path of a file in the working directory\npath: string,\n}) => any;\n\n// List files and directories at a given path\ntype list_files = (_: {\n// Optional relative path to list files from. Defaults to current directory if not provided\npath?: string,\n}) => any;\n\n// Make edits to a text file\ntype edit_file = (_: {\n// The path to the file\npath: string,\n// Text to search for - must match exactly\nold_str: string,\n// Text to replace old_str with\nnew_str: string,\n}) => any;\n\n} // namespace functions",
        );
        let mut messages: Vec<ChatMessage> = Vec::new();
        messages.push(system);
        messages.push(developer);
        let r = Conversation { messages };
        assert(r@ =~= initial_messages());
        r
    }

    /// The number of messages.
    pub fn len(&self) -> (n: usize)
        ensures
            n == self@.len(),
    {
        self.messages.len()
    }

    /// Appends one message; what was there stays as it was.
    pub fn push(&mut self, message: ChatMessage)
        ensures
            final(self)@ == old(self)@.push(message@),
    {
        self.messages.push(message);
        assert(self@ =~= old(self)@.push(message@));
    }

    /// Appends `messages` in their order; what was there stays as it was.
    pub fn extend(&mut self, messages: Vec<ChatMessage>)
        ensures
            final(self)@ == old(self)@ + message_views(messages@),
    {
        let mut rest = messages;
        self.messages.append(&mut rest);
        assert(self@ =~= old(self)@ + message_views(messages@));
    }
}

/// Appending keeps every earlier message in its place.
pub proof fn lemma_append_keeps_prefix(before: Seq<MessageView>, added: Seq<MessageView>)
    ensures
        (before + added).len() == before.len() + added.len(),
        (before + added).subrange(0, before.len() as int) == before,
        forall|m: MessageView| (#[trigger] before.push(m)).subrange(0, before.len() as int)
            == before,
{
    assert((before + added).subrange(0, before.len() as int) =~= before);
    assert forall|m: MessageView| (#[trigger] before.push(m)).subrange(0, before.len() as int)
        == before by {
        assert(before.push(m).subrange(0, before.len() as int) =~= before);
    }
}

} // verus!
