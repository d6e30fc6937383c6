use coding_agent::agent::{
    first_choice_text, advance, classify_input, signal_of_input, signal_of_result, Agent, Phase, Signal, UserInput,
};
use coding_agent::conversation::{
    ContentBlock, Conversation, ChatMessage, Effort, Speaker,
};
use coding_agent::extractor::{extract_outcome, first_text_of, interpret_completion, tool_name_of};
use coding_agent::codec::{
    fits_tokenizer, import_message, import_messages, prompt_outcome, CodecError,
};
use coding_agent::parser::InferenceResult;

fn message(recipient: Option<&str>, channel: Option<&str>, texts: &[&str]) -> ChatMessage {
    ChatMessage {
        role: Speaker::Assistant,
        author_name: None,
        recipient: recipient.map(String::from),
        channel: channel.map(String::from),
        content_type: None,
        content: texts.iter().map(|t| ContentBlock::Text(t.to_string())).collect(),
    }
}

#[test]
fn tool_message_without_content_has_empty_object_arguments() {
    let msgs = vec![message(Some("functions.list_files"), Some("commentary"), &[])];
    assert_eq!(
        extract_outcome(&msgs),
        Some(InferenceResult::ToolCall {
            tool_name: "list_files".to_string(),
            arguments: "{}".to_string(),
        })
    );
}

#[test]
fn tool_message_with_other_content_has_empty_object_arguments() {
    let mut m = message(Some("functions.read_file"), None, &[]);
    m.content.push(Conversation::initial().messages[0].content[0].clone());
    m.content.push(ContentBlock::Text("{\"path\":\"x\"}".to_string()));
    assert_eq!(
        extract_outcome(&vec![m]),
        Some(InferenceResult::ToolCall {
            tool_name: "read_file".to_string(),
            arguments: "{}".to_string(),
        })
    );
}

#[test]
fn first_tool_message_decides_before_any_final() {
    let msgs = vec![
        message(None, Some("analysis"), &["thinking"]),
        message(None, Some("final"), &["answer"]),
        message(Some("functions.read_file"), Some("commentary"), &["{\"path\":\"a\"}", "x"]),
        message(Some("functions.edit_file"), Some("commentary"), &["{}"]),
    ];
    assert_eq!(
        extract_outcome(&msgs),
        Some(InferenceResult::ToolCall {
            tool_name: "read_file".to_string(),
            arguments: "{\"path\":\"a\"}".to_string(),
        })
    );
}

#[test]
fn first_final_message_with_text_is_the_answer() {
    let msgs = vec![
        message(None, Some("analysis"), &["thinking"]),
        message(None, Some("final"), &[]),
        message(Some("assistant"), Some("final"), &["one", "two"]),
        message(None, Some("final"), &["three"]),
    ];
    assert_eq!(extract_outcome(&msgs), Some(InferenceResult::FinalResponse("one".to_string())));
}

#[test]
fn neither_call_nor_answer() {
    let msgs = vec![message(Some("function.read"), Some("Final"), &["x"]), message(None, None, &["y"])];
    assert_eq!(extract_outcome(&msgs), None);
    assert_eq!(extract_outcome(&Vec::new()), None);
    assert_eq!(
        interpret_completion("raw text", Some(&msgs)),
        InferenceResult::FinalResponse("raw text".to_string())
    );
}

#[test]
fn failed_decoding_falls_back_to_the_scan() {
    let raw = "<|channel|>final<|message|>The answer is 42<|return|>";
    assert_eq!(
        interpret_completion(raw, None),
        InferenceResult::FinalResponse("The answer is 42".to_string())
    );
    let call = "<|channel|>commentary to=functions.read_file <|message|>{}";
    assert_eq!(
        interpret_completion(call, None),
        InferenceResult::ToolCall { tool_name: "read_file".to_string(), arguments: "{}".to_string() }
    );
}

#[test]
fn tool_name_is_recipient_without_prefix() {
    assert_eq!(tool_name_of(&message(Some("functions.edit_file"), None, &[])), Some("edit_file".to_string()));
    assert_eq!(tool_name_of(&message(Some("functions."), None, &[])), Some(String::new()));
    assert_eq!(tool_name_of(&message(Some("assistant"), None, &[])), None);
    assert_eq!(tool_name_of(&message(Some("x.functions.y"), None, &[])), None);
    assert_eq!(tool_name_of(&message(None, None, &[])), None);
    assert_eq!(first_text_of(&message(None, None, &["a", "b"])), Some("a".to_string()));
    assert_eq!(first_text_of(&message(None, None, &[])), None);
}

#[test]
fn session_begins_with_system_and_developer_messages() {
    let agent = Agent::new();
    let msgs = &agent.conversation.messages;
    assert_eq!(agent.conversation.len(), 2);
    assert_eq!(msgs[0].role, Speaker::System);
    assert_eq!(msgs[1].role, Speaker::Developer);
    match &msgs[0].content[0] {
        ContentBlock::System(s) => {
            assert_eq!(s.model_identity, "You are ChatGPT, a large language model trained by OpenAI.");
            assert_eq!(s.knowledge_cutoff, "2024-06");
            assert_eq!(s.conversation_start_date, "2025-01-08");
            assert_eq!(s.reasoning_effort, Effort::High);
            assert_eq!(s.required_channels, vec!["analysis", "commentary", "final"]);
        }
        other => panic!("unexpected content {:?}", other),
    }
    match &msgs[1].content[0] {
        ContentBlock::Text(t) => {
            assert!(t.starts_with("# Instructions\n\nYou are a helpful coding assistant"));
            assert!(t.contains("type read_file = (_: {"));
            assert!(t.contains("path?: string,"));
            assert!(t.contains("type edit_file = (_: {"));
            assert!(t.ends_with("} // namespace functions"));
        }
        other => panic!("unexpected content {:?}", other),
    }
}

#[test]
fn lines_are_classified_after_trimming() {
    assert_eq!(classify_input("exit"), UserInput::Exit);
    assert_eq!(classify_input("  exit\n"), UserInput::Exit);
    assert_eq!(classify_input("\n"), UserInput::Blank);
    assert_eq!(classify_input(""), UserInput::Blank);
    assert_eq!(classify_input(" \t "), UserInput::Blank);
    assert_eq!(classify_input("Exit\n"), UserInput::Text("Exit".to_string()));
    assert_eq!(classify_input("  list the files \n"), UserInput::Text("list the files".to_string()));
}

#[test]
fn user_line_appends_one_user_message() {
    let mut agent = Agent::new();
    assert_eq!(agent.take_user_line("\n"), UserInput::Blank);
    assert_eq!(agent.take_user_line("exit\n"), UserInput::Exit);
    assert_eq!(agent.conversation.len(), 2);
    assert_eq!(agent.take_user_line(" hello \n"), UserInput::Text("hello".to_string()));
    assert_eq!(agent.conversation.len(), 3);
    assert_eq!(agent.conversation.messages[2], ChatMessage::from_role_and_text(Speaker::User, "hello"));
    assert_eq!(agent.conversation.messages[2].content, vec![ContentBlock::Text("hello".to_string())]);
    assert_eq!(agent.conversation.messages[..2], Agent::new().conversation.messages[..]);
}

#[test]
fn tool_result_goes_back_to_the_assistant() {
    let mut agent = Agent::new();
    agent.take_tool_result("read_file", "file body");
    let m = &agent.conversation.messages[2];
    assert_eq!(m.role, Speaker::Tool);
    assert_eq!(m.author_name, Some("read_file".to_string()));
    assert_eq!(m.recipient, Some("assistant".to_string()));
    assert_eq!(m.channel, Some("commentary".to_string()));
    assert_eq!(m.content, vec![ContentBlock::Text("file body".to_string())]);
}

#[test]
fn completion_appends_decoded_messages_in_order() {
    let mut agent = Agent::new();
    let msgs = vec![
        message(None, Some("analysis"), &["thinking"]),
        message(None, Some("final"), &["done"]),
    ];
    let r = agent.take_completion("raw", Some(msgs.clone()));
    assert_eq!(r, InferenceResult::FinalResponse("done".to_string()));
    assert_eq!(agent.conversation.len(), 4);
    assert_eq!(agent.conversation.messages[2..], msgs[..]);
}

#[test]
fn completion_without_decoding_appends_raw_text() {
    let mut agent = Agent::new();
    let raw = "<|channel|>commentary to=functions.list_files <|message|>{}";
    let r = agent.take_completion(raw, None);
    assert_eq!(
        r,
        InferenceResult::ToolCall { tool_name: "list_files".to_string(), arguments: "{}".to_string() }
    );
    assert_eq!(agent.conversation.len(), 3);
    assert_eq!(agent.conversation.messages[2], ChatMessage::from_role_and_text(Speaker::Assistant, raw));
}

#[test]
fn a_turn_moves_through_its_phases() {
    let p = Phase::AwaitingUserInput;
    assert_eq!(advance(p, Signal::BlankLine), Some(Phase::AwaitingUserInput));
    assert_eq!(advance(p, Signal::InputClosed), Some(Phase::Finished));
    assert_eq!(advance(p, Signal::UserMessage), Some(Phase::Rendering));
    assert_eq!(advance(Phase::Rendering, Signal::Rendered), Some(Phase::AwaitingCompletion));
    assert_eq!(advance(Phase::AwaitingCompletion, Signal::Completed), Some(Phase::Parsing));
    assert_eq!(advance(Phase::Parsing, Signal::FinalParsed), Some(Phase::FinalReady));
    assert_eq!(advance(Phase::Parsing, Signal::ToolParsed), Some(Phase::ToolRequested));
    assert_eq!(advance(Phase::ToolRequested, Signal::ToolAnswered), Some(Phase::Rendering));
    assert_eq!(advance(Phase::FinalReady, Signal::Shown), Some(Phase::AwaitingUserInput));
    assert_eq!(advance(Phase::Parsing, Signal::Failed), Some(Phase::Finished));
    assert_eq!(advance(Phase::Finished, Signal::Failed), None);
    assert_eq!(advance(Phase::Finished, Signal::UserMessage), None);
    assert_eq!(advance(Phase::Rendering, Signal::UserMessage), None);
    assert_eq!(advance(Phase::FinalReady, Signal::ToolAnswered), None);
}

#[test]
fn signals_follow_inputs_and_results() {
    assert_eq!(signal_of_input(&UserInput::Exit), Signal::InputClosed);
    assert_eq!(signal_of_input(&UserInput::Blank), Signal::BlankLine);
    assert_eq!(signal_of_input(&UserInput::Text("x".to_string())), Signal::UserMessage);
    assert_eq!(signal_of_result(&InferenceResult::FinalResponse("x".to_string())), Signal::FinalParsed);
    assert_eq!(
        signal_of_result(&InferenceResult::ToolCall { tool_name: "a".to_string(), arguments: "{}".to_string() }),
        Signal::ToolParsed
    );
}

#[test]
fn completion_request_is_fixed_but_for_the_prompt() {
    let r = coding_agent::agent::completion_request("the prompt".to_string());
    assert_eq!(r.model, "openai/gpt-oss-20b");
    assert_eq!(r.prompt, "the prompt");
    assert_eq!(r.max_tokens, 2048);
    assert_eq!(r.count, 1);
    assert!(!r.stream);
    assert!(!r.echo);
    assert_eq!(r.stop, vec!["<|return|>", "<|call|>"]);
}

#[test]
fn only_the_first_choice_is_consulted() {
    assert_eq!(first_choice_text(vec![]), None);
    assert_eq!(first_choice_text(vec![None, Some("b".to_string())]), None);
    assert_eq!(
        first_choice_text(vec![Some("a".to_string()), Some("b".to_string())]),
        Some("a".to_string())
    );
}

#[test]
fn conversation_grows_only_at_its_end() {
    let mut c = Conversation::initial();
    let first = c.messages.clone();
    c.push(ChatMessage::from_role_and_text(Speaker::User, "one"));
    c.extend(vec![
        ChatMessage::from_role_and_text(Speaker::Assistant, "two"),
        ChatMessage::tool_result("read_file", "three"),
    ]);
    assert_eq!(c.len(), 5);
    assert_eq!(c.messages[..2], first[..]);
    assert_eq!(c.messages[2].content, vec![ContentBlock::Text("one".to_string())]);
    assert_eq!(c.messages[3].role, Speaker::Assistant);
    assert_eq!(c.messages[4].author_name, Some("read_file".to_string()));
}

#[test]
fn messages_convert_to_the_outside_form_one_for_one() {
    let mut agent = Agent::new();
    agent.take_user_line("hello\n");
    agent.take_tool_result("list_files", "[]");
    let out = coding_agent::codec::export_messages(&agent.conversation);
    assert_eq!(out.len(), 4);
    assert_eq!(out[0].author.role, openai_harmony::chat::Role::System);
    assert_eq!(out[1].author.role, openai_harmony::chat::Role::Developer);
    assert_eq!(out[2].author.role, openai_harmony::chat::Role::User);
    assert_eq!(out[3].author.role, openai_harmony::chat::Role::Tool);
    assert_eq!(out[3].author.name, Some("list_files".to_string()));
    assert_eq!(out[3].recipient, Some("assistant".to_string()));
    assert_eq!(out[3].channel, Some("commentary".to_string()));
    assert_eq!(out[2].content.len(), 1);
    match &out[2].content[0] {
        openai_harmony::chat::Content::Text(t) => assert_eq!(t.text, "hello"),
        other => panic!("unexpected content {:?}", other),
    }
    match &out[0].content[0] {
        openai_harmony::chat::Content::SystemContent(s) => {
            assert_eq!(s.knowledge_cutoff, Some("2024-06".to_string()));
            assert_eq!(s.conversation_start_date, Some("2025-01-08".to_string()));
            assert_eq!(s.reasoning_effort, Some(openai_harmony::chat::ReasoningEffort::High));
        }
        other => panic!("unexpected content {:?}", other),
    }
    let mut call = ChatMessage::from_role_and_text(Speaker::Assistant, "{}");
    call.recipient = Some("functions.list_files".to_string());
    call.channel = Some("commentary".to_string());
    call.content_type = Some("<|constrain|>json".to_string());
    agent.conversation.push(call.clone());
    let with_call = coding_agent::codec::export_messages(&agent.conversation);
    assert_eq!(with_call[4].content_type, Some("<|constrain|>json".to_string()));
    assert_eq!(coding_agent::codec::import_message(&with_call[4]), call);
    let back = coding_agent::codec::import_message(&out[3]);
    assert_eq!(back, agent.conversation.messages[3]);
    let back = coding_agent::codec::import_message(&out[2]);
    assert_eq!(back, agent.conversation.messages[2]);
}

#[test]
fn prompt_outcome_names_what_failed() {
    assert_eq!(prompt_outcome(None), Err(CodecError::Render));
    assert_eq!(prompt_outcome(Some(None)), Err(CodecError::Decode));
    assert_eq!(prompt_outcome(Some(Some("p".to_string()))), Ok("p".to_string()));
}

#[test]
fn imported_message_keeps_header_and_text_blocks() {
    let message = openai_harmony::chat::Message {
        author: openai_harmony::chat::Author {
            role: openai_harmony::chat::Role::Assistant,
            name: Some("n".to_string()),
        },
        recipient: Some("functions.read_file".to_string()),
        content: vec![
            openai_harmony::chat::Content::Text(openai_harmony::chat::TextContent {
                text: "one".to_string(),
            }),
            openai_harmony::chat::Content::DeveloperContent(
                openai_harmony::chat::DeveloperContent::new(),
            ),
            openai_harmony::chat::Content::Text(openai_harmony::chat::TextContent {
                text: "two".to_string(),
            }),
        ],
        channel: Some("commentary".to_string()),
        content_type: Some("json".to_string()),
    };
    let expected = ChatMessage {
        role: Speaker::Assistant,
        author_name: Some("n".to_string()),
        recipient: Some("functions.read_file".to_string()),
        channel: Some("commentary".to_string()),
        content_type: Some("json".to_string()),
        content: vec![ContentBlock::Text("one".to_string()), ContentBlock::Text("two".to_string())],
    };
    assert_eq!(import_message(&message), expected);
    let empty = openai_harmony::chat::Message {
        author: openai_harmony::chat::Author { role: openai_harmony::chat::Role::Tool, name: None },
        recipient: None,
        content: Vec::new(),
        channel: None,
        content_type: None,
    };
    let list = vec![message, empty];
    let all = import_messages(&list);
    assert_eq!(all.len(), 2);
    assert_eq!(all[0], expected);
    assert_eq!(all[1].role, Speaker::Tool);
    assert_eq!(all[1].author_name, None);
    assert!(all[1].content.is_empty());
}

#[test]
fn conversation_fits_the_tokenizer_up_to_its_limits() {
    let mut c = Conversation::initial();
    assert!(fits_tokenizer(&c));
    c.push(ChatMessage::tool_result("read_file", &"a".repeat(100_000)));
    assert!(fits_tokenizer(&c));
    c.push(ChatMessage::tool_result("read_file", &" ".repeat(100_001)));
    assert!(!fits_tokenizer(&c));

    let mut d = Conversation::initial();
    d.push(ChatMessage::from_role_and_text(Speaker::User, "hi"));
    d.messages[2].recipient = Some("é".repeat(100_000));
    assert!(fits_tokenizer(&d));
    d.messages[2].recipient = Some("x".repeat(100_001));
    assert!(!fits_tokenizer(&d));

    let mut e = Conversation::initial();
    if let ContentBlock::System(s) = &mut e.messages[0].content[0] {
        s.required_channels = vec!["c".to_string(); 32];
    }
    assert!(fits_tokenizer(&e));
    if let ContentBlock::System(s) = &mut e.messages[0].content[0] {
        s.required_channels.push("c".to_string());
    }
    assert!(!fits_tokenizer(&e));
    let mut f = Conversation::initial();
    if let ContentBlock::System(s) = &mut f.messages[0].content[0] {
        s.knowledge_cutoff = "k".repeat(1_001);
    }
    assert!(!fits_tokenizer(&f));
}
