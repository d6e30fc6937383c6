use coding_agent::parser::{
    extract_final_content, fallback_parse, find_marker, has_marker_at, needs_call_terminator,
    parse_tool_call, repair,
    InferenceResult,
};
use coding_agent::text::{
    char_is_whitespace, find_chars, from_chars, matches_at, replace_chars, rfind_chars, same_text,
    slice_text, to_chars, trim_bounds,
};

fn chars(s: &str) -> Vec<char> {
    s.chars().collect()
}

#[test]
fn final_content_is_trimmed_text_before_next_marker() {
    let raw = "<|channel|>final<|message|>The answer is 42<|return|>";
    assert_eq!(extract_final_content(raw), Some("The answer is 42".to_string()));
    assert_eq!(
        fallback_parse(raw),
        InferenceResult::FinalResponse("The answer is 42".to_string())
    );
}

#[test]
fn final_content_runs_to_end_without_marker() {
    let raw = "<|channel|>analysis<|message|>thinking<|end|><|channel|>final<|message|>  done \n";
    assert_eq!(extract_final_content(raw), Some("done".to_string()));
}

#[test]
fn final_content_absent_without_final_marker() {
    assert_eq!(extract_final_content("<|channel|>analysis<|message|>hm"), None);
    assert_eq!(extract_final_content(""), None);
}

#[test]
fn tool_call_name_and_arguments_are_found() {
    let raw = "<|channel|>commentary to=functions.read_file <|constrain|>json<|message|>{\"path\":\"a.txt\"}";
    assert_eq!(
        parse_tool_call(raw),
        Some(("read_file".to_string(), "{\"path\":\"a.txt\"}".to_string()))
    );
}

#[test]
fn tool_call_arguments_follow_last_message_marker() {
    let raw = "<|channel|>analysis<|message|>I should list.<|end|><|start|>assistant<|channel|>commentary to=functions.list_files <|constrain|>json<|message|>  {\"path\":\".\"}\n ";
    assert_eq!(
        parse_tool_call(raw),
        Some(("list_files".to_string(), "{\"path\":\".\"}".to_string()))
    );
    assert_eq!(
        fallback_parse(raw),
        InferenceResult::ToolCall {
            tool_name: "list_files".to_string(),
            arguments: "{\"path\":\".\"}".to_string(),
        }
    );
}

#[test]
fn tool_call_needs_space_and_message_marker() {
    assert_eq!(parse_tool_call("to=functions.read_file"), None);
    assert_eq!(parse_tool_call("to=functions.read_file {\"path\":1}"), None);
    assert_eq!(parse_tool_call("<|message|>x"), None);
    assert_eq!(
        parse_tool_call("to=functions.edit_file <|message|>"),
        Some(("edit_file".to_string(), "".to_string()))
    );
}

#[test]
fn tool_call_with_marker_before_tool_address() {
    let raw = "<|message|>{}<|end|> to=functions.x y";
    assert_eq!(parse_tool_call(raw), Some(("x".to_string(), "{}<|end|> to=functions.x y".to_string())));
}

#[test]
fn unmarked_text_is_the_answer_verbatim() {
    assert_eq!(
        fallback_parse("  plain words \n"),
        InferenceResult::FinalResponse("  plain words \n".to_string())
    );
    assert_eq!(fallback_parse(""), InferenceResult::FinalResponse(String::new()));
}

#[test]
fn tool_call_wins_over_final_content() {
    let raw = "<|channel|>final<|message|>hi<|end|> to=functions.read_file <|message|>{}";
    assert_eq!(
        fallback_parse(raw),
        InferenceResult::ToolCall { tool_name: "read_file".to_string(), arguments: "{}".to_string() }
    );
}

#[test]
fn repair_appends_missing_call_terminator() {
    let raw = "<|channel|>commentary to=functions.read_file <|constrain|>json<|message|>{}";
    assert!(needs_call_terminator(raw));
    assert_eq!(repair(raw), format!("{}<|call|>", raw));
}

#[test]
fn repair_leaves_terminated_and_plain_text() {
    let done = "<|channel|>commentary to=functions.read_file <|message|>{}<|call|>";
    assert!(!needs_call_terminator(done));
    assert_eq!(repair(done), done);
    let plain = "<|channel|>final<|message|>hello";
    assert!(!needs_call_terminator(plain));
    assert_eq!(repair(plain), plain);
    assert_eq!(repair(""), "");
}

#[test]
fn repair_is_idempotent_and_meets_reference_text() {
    let raw = "x to=functions.list_files <|message|>{}";
    let reference = format!("{}<|call|>", raw);
    assert_eq!(repair(raw), reference);
    assert_eq!(repair(&reference), reference);
    assert_eq!(repair(&repair(raw)), repair(raw));
}

#[test]
fn scan_finds_same_tool_name_with_and_without_terminator() {
    let raw = "<|channel|>commentary to=functions.edit_file <|constrain|>json<|message|>{\"a\":1}";
    let reference = format!("{}<|call|>", raw);
    let a = parse_tool_call(raw).unwrap();
    let b = parse_tool_call(&reference).unwrap();
    assert_eq!(a.0, "edit_file");
    assert_eq!(a.0, b.0);
    assert_eq!(a.1, "{\"a\":1}");
}

#[test]
fn whitespace_is_unicode_white_space() {
    for c in [' ', '\t', '\n', '\r', '\u{0B}', '\u{0C}', '\u{85}', '\u{A0}', '\u{1680}', '\u{2000}', '\u{200A}', '\u{2028}', '\u{2029}', '\u{202F}', '\u{205F}', '\u{3000}'] {
        assert!(char_is_whitespace(c));
        assert!(c.is_whitespace());
    }
    for c in ['a', '0', '\u{200B}', '\u{1F}', '\u{FEFF}', '\u{180E}', '/'] {
        assert!(!char_is_whitespace(c));
        assert!(!c.is_whitespace());
    }
}

#[test]
fn whitespace_agrees_with_std_on_every_char() {
    let mut n: u32 = 0;
    while n <= 0x10FFFF {
        if let Some(c) = char::from_u32(n) {
            assert_eq!(char_is_whitespace(c), c.is_whitespace());
        }
        n += 1;
    }
}

#[test]
fn trim_bounds_match_std_trim() {
    for s in ["", "   ", " a ", "a", "\u{3000}x y\t\n", "é  ", "  ü"] {
        let v = chars(s);
        let (lo, hi) = trim_bounds(&v, 0, v.len());
        assert_eq!(slice_text(s, lo, hi), s.trim());
    }
    let v = chars("ab  cd  ef");
    assert_eq!(trim_bounds(&v, 2, 8), (4, 6));
    assert_eq!(trim_bounds(&v, 2, 4), (4, 4));
}

#[test]
fn find_and_rfind_positions() {
    let s = chars("abcabcab");
    assert_eq!(find_chars(&s, &chars("bc"), 0), Some(1));
    assert_eq!(find_chars(&s, &chars("bc"), 2), Some(4));
    assert_eq!(find_chars(&s, &chars("bc"), 5), None);
    assert_eq!(find_chars(&s, &chars("x"), 0), None);
    assert_eq!(find_chars(&s, &chars(""), 8), Some(8));
    assert_eq!(find_chars(&s, &chars(""), 9), None);
    assert_eq!(find_chars(&s, &chars("abcabcabc"), 0), None);
    assert_eq!(rfind_chars(&s, &chars("ab")), Some(6));
    assert_eq!(rfind_chars(&s, &chars("c")), Some(5));
    assert_eq!(rfind_chars(&s, &chars("x")), None);
    assert_eq!(rfind_chars(&s, &chars("")), Some(8));
    assert!(matches_at(&s, &chars("cab"), 2));
    assert!(!matches_at(&s, &chars("cab"), 6));
}

#[test]
fn replace_takes_occurrences_from_the_left() {
    let r = replace_chars(&chars("aaa"), &chars("aa"), &chars("b"));
    assert_eq!(from_chars(&r), "ba");
    let r = replace_chars(&chars("foo bar foo"), &chars("foo"), &chars("baz"));
    assert_eq!(from_chars(&r), "foo bar foo".replace("foo", "baz"));
    let r = replace_chars(&chars("abc"), &chars(""), &chars("x"));
    assert_eq!(from_chars(&r), "abc");
    let r = replace_chars(&chars("ééé"), &chars("é"), &chars(""));
    assert_eq!(from_chars(&r), "");
}

#[test]
fn chars_round_trip() {
    let s = "héllo <|wörld|>";
    assert_eq!(to_chars(s), chars(s));
    assert_eq!(from_chars(&to_chars(s)), s);
    assert!(same_text("abc", "abc"));
    assert!(!same_text("abc", "abd"));
    assert!(!same_text("abc", "ab"));
    assert_eq!(slice_text("héllo", 1, 3), "él");
}

#[test]
fn final_content_is_cut_at_marker_tokens_only() {
    assert_eq!(
        extract_final_content("<|channel|>final<|message|>a <| b"),
        Some("a <| b".to_string())
    );
    assert_eq!(
        extract_final_content("<|channel|>final<|message|>a <|> b <|x y|> c <|end|> d"),
        Some("a <|> b <|x y|> c".to_string())
    );
    assert_eq!(
        extract_final_content("<|channel|>final<|message|> x<|end_untrusted|>y"),
        Some("x".to_string())
    );
    assert_eq!(
        extract_final_content("<|channel|>final<|message|>if a <| b |> c<|"),
        Some("if a <| b |> c<|".to_string())
    );
}

#[test]
fn marker_tokens_are_found() {
    let s: Vec<char> = "ab<|x<|call|>c<|A|><|r_2|>".chars().collect();
    assert_eq!(find_marker(&s, 0), Some(5));
    assert_eq!(find_marker(&s, 6), Some(19));
    assert_eq!(find_marker(&s, 20), None);
    assert_eq!(find_marker(&s, 100), None);
    assert!(has_marker_at(&s, 5));
    assert!(!has_marker_at(&s, 2));
    assert!(!has_marker_at(&s, 14));
}
