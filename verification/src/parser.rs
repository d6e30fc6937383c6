//! Reading a completion by hand: the repair of a tool call that lacks its
//! terminator, and the scan that stands in when structured decoding fails.

use vstd::prelude::*;
use vstd::string::*;
use crate::text::{contains, find, find_chars, find_from, lemma_contains_iff_find,
    lemma_find_in_extension, lemma_occurrence_in_extension, lemma_rfind_upto_is_last, occurs_at,
    matches_at, rfind, rfind_chars, slice_text, to_chars, trim_bounds, trimmed};

verus! {

/// What one completion amounts to: the answer of the turn, or a call of a tool.
#[derive(Clone, Debug, PartialEq, Eq)]
pub enum InferenceResult {
    FinalResponse(String),
    ToolCall { tool_name: String, arguments: String },
}

/// An `InferenceResult` as plain character sequences.
pub enum Outcome {
    Final(Seq<char>),
    Tool(Seq<char>, Seq<char>),
}

impl View for InferenceResult {
    type V = Outcome;

    open spec fn view(&self) -> Outcome {
        match self {
            InferenceResult::FinalResponse(text) => Outcome::Final(text@),
            InferenceResult::ToolCall { tool_name, arguments } => Outcome::Tool(
                tool_name@,
                arguments@,
            ),
        }
    }
}

/// The marker that addresses a message to a tool.
pub open spec fn tool_marker() -> Seq<char> {
    "to=functions."@
}

/// The marker that opens the body of a message.
pub open spec fn message_marker() -> Seq<char> {
    "<|message|>"@
}

/// The terminator of a tool call.
pub open spec fn call_terminator() -> Seq<char> {
    "<|call|>"@
}

/// The marker that opens the body of a message on the final channel.
pub open spec fn final_marker() -> Seq<char> {
    "<|channel|>final<|message|>"@
}

/// The two characters with which every marker begins.
pub open spec fn marker_open() -> Seq<char> {
    "<|"@
}

/// The two characters with which every marker ends.
pub open spec fn marker_close() -> Seq<char> {
    "|>"@
}

/// The characters of which a marker's name is made: lower-case letters,
/// digits and the underscore.
pub open spec fn is_name_char(c: char) -> bool {
    let n = c as u32;
    (0x61 <= n <= 0x7A) || (0x30 <= n <= 0x39) || n == 0x5F
}

/// The end of the run of name characters that begins at `i`.
pub open spec fn name_end(s: Seq<char>, i: int) -> int
    decreases s.len() - i,
{
    if 0 <= i < s.len() && is_name_char(s[i]) {
        name_end(s, i + 1)
    } else {
        i
    }
}

/// A marker token stands at `i`: the two opening characters, a name of at
/// least one character, and the two closing characters.
pub open spec fn marker_at(s: Seq<char>, i: int) -> bool {
    occurs_at(s, marker_open(), i) && name_end(s, i + 2) > i + 2 && occurs_at(
        s,
        marker_close(),
        name_end(s, i + 2),
    )
}

/// Position of the first marker token in `s` at or after `from`.
pub open spec fn next_marker(s: Seq<char>, from: int) -> Option<int>
    decreases s.len() - from + 1,
{
    if from < 0 || from + 2 > s.len() {
        None
    } else if marker_at(s, from) {
        Some(from)
    } else {
        next_marker(s, from + 1)
    }
}

/// A text that addresses a tool and holds no call terminator.
pub open spec fn lacks_call_terminator(text: Seq<char>) -> bool {
    contains(text, tool_marker()) && !contains(text, call_terminator())
}

/// The text that is handed to structured decoding: the completion, with a
/// call terminator at its end where it addresses a tool and holds none.
pub open spec fn repaired(text: Seq<char>) -> Seq<char> {
    if lacks_call_terminator(text) {
        text + call_terminator()
    } else {
        text
    }
}

/// The tool call that the scan by hand finds in `text`: the name runs from
/// the first tool marker to the next space, the arguments are what follows
/// the last message marker, trimmed.
pub open spec fn tool_call_of(text: Seq<char>) -> Option<(Seq<char>, Seq<char>)> {
    match find(text, tool_marker()) {
        None => None,
        Some(p) => {
            let start = p + tool_marker().len();
            match find_from(text, " "@, start) {
                None => None,
                Some(end) => match rfind(text, message_marker()) {
                    None => None,
                    Some(m) => Some(
                        (
                            text.subrange(start, end),
                            trimmed(text, m + message_marker().len(), text.len() as int),
                        ),
                    ),
                },
            }
        },
    }
}

/// The final answer that the scan by hand finds in `text`: what follows the
/// first final marker, up to the next marker token or, where none follows,
/// the end, trimmed.
pub open spec fn final_content_of(text: Seq<char>) -> Option<Seq<char>> {
    match find(text, final_marker()) {
        None => None,
        Some(p) => {
            let start = p + final_marker().len();
            let end = match next_marker(text, start) {
                Some(e) => e,
                None => text.len() as int,
            };
            Some(trimmed(text, start, end))
        },
    }
}

/// What the scan by hand makes of `text`: a tool call where it finds one,
/// else the final content, else the whole text as the answer.
pub open spec fn fallback_outcome(text: Seq<char>) -> Outcome {
    match tool_call_of(text) {
        Some((name, arguments)) => Outcome::Tool(name, arguments),
        None => match final_content_of(text) {
            Some(content) => Outcome::Final(content),
            None => Outcome::Final(text),
        },
    }
}

/// Whether `text` addresses a tool and holds no call terminator.
pub fn needs_call_terminator(text: &str) -> (r: bool)
    ensures
        r == lacks_call_terminator(text@),
{
    let chars = to_chars(text);
    let marker = to_chars("to=functions.");
    let call = to_chars("<|call|>");
    proof {
        lemma_contains_iff_find(text@, tool_marker());
        lemma_contains_iff_find(text@, call_terminator());
    }
    find_chars(&chars, &marker, 0).is_some() && find_chars(&chars, &call, 0).is_none()
}

/// The text to decode: `text`, with a call terminator appended where it
/// addresses a tool and holds none.
pub fn repair(text: &str) -> (r: String)
    ensures
        r@ == repaired(text@),
{
    let copy = String::from_str(text);
    if needs_call_terminator(text) {
        copy.concat("<|call|>")
    } else {
        copy
    }
}

/// The tool call that a scan of `text` finds, as name and raw arguments.
pub fn parse_tool_call(text: &str) -> (r: Option<(String, String)>)
    ensures
        r is Some <==> tool_call_of(text@) is Some,
        r matches Some((name, arguments)) ==> tool_call_of(text@) == Some((name@, arguments@)),
{
    let chars = to_chars(text);
    let marker = to_chars("to=functions.");
    let space = to_chars(" ");
    let message = to_chars("<|message|>");
    match find_chars(&chars, &marker, 0) {
        None => None,
        Some(p) => {
            let start: usize = p + marker.len();
            match find_chars(&chars, &space, start) {
                None => None,
                Some(end) => match rfind_chars(&chars, &message) {
                    None => None,
                    Some(m) => {
                        let total: usize = chars.len();
                        let body: usize = m + message.len();
                        let (lo, hi) = trim_bounds(&chars, body, total);
                        Some((slice_text(text, start, end), slice_text(text, lo, hi)))
                    },
                },
            }
        },
    }
}

/// Whether `c` can stand in a marker's name.
pub fn char_is_name_char(c: char) -> (r: bool)
    ensures
        r == is_name_char(c),
{
    let n: u32 = c as u32;
    (0x61 <= n && n <= 0x7A) || (0x30 <= n && n <= 0x39) || n == 0x5F
}

/// Whether a marker token stands at `i`.
pub fn has_marker_at(s: &Vec<char>, i: usize) -> (r: bool)
    ensures
        r == marker_at(s@, i as int),
{
    let open = to_chars("<|");
    let close = to_chars("|>");
    if !matches_at(s, &open, i) {
        return false;
    }
    let total: usize = s.len();
    assert(i + open@.len() <= s@.len());
    proof {
        reveal_strlit("<|");
    }
    let first: usize = i + 2;
    let mut e: usize = first;
    while e < total && char_is_name_char(s[e])
        invariant
            first <= e <= total,
            total == s@.len(),
            name_end(s@, first as int) == name_end(s@, e as int),
        decreases total - e,
    {
        e += 1;
    }
    e > first && matches_at(s, &close, e)
}

/// Position of the first marker token in `s` at or after `from`.
pub fn find_marker(s: &Vec<char>, from: usize) -> (r: Option<usize>)
    ensures
        r is Some <==> next_marker(s@, from as int) is Some,
        r matches Some(i) ==> next_marker(s@, from as int) == Some(i as int) && from <= i
            <= s@.len(),
{
    let total: usize = s.len();
    let mut i: usize = from;
    while i < total && total - i >= 2
        invariant
            from <= i,
            total == s@.len(),
            next_marker(s@, from as int) == next_marker(s@, i as int),
        decreases total - i,
    {
        if has_marker_at(s, i) {
            return Some(i);
        }
        i += 1;
    }
    None
}

/// The final answer that a scan of `text` finds.
pub fn extract_final_content(text: &str) -> (r: Option<String>)
    ensures
        r is Some <==> final_content_of(text@) is Some,
        r matches Some(content) ==> final_content_of(text@) == Some(content@),
{
    let chars = to_chars(text);
    let marker = to_chars("<|channel|>final<|message|>");
    match find_chars(&chars, &marker, 0) {
        None => None,
        Some(p) => {
            let start: usize = p + marker.len();
            let end: usize = match find_marker(&chars, start) {
                Some(e) => e,
                None => chars.len(),
            };
            let (lo, hi) = trim_bounds(&chars, start, end);
            Some(slice_text(text, lo, hi))
        },
    }
}

/// Reads `text` by hand: a tool call where the scan finds one, else the
/// final content, else the whole text as the answer.
pub fn fallback_parse(text: &str) -> (r: InferenceResult)
    ensures
        r@ == fallback_outcome(text@),
{
    match parse_tool_call(text) {
        Some((tool_name, arguments)) => InferenceResult::ToolCall { tool_name, arguments },
        None => match extract_final_content(text) {
            Some(content) => InferenceResult::FinalResponse(content),
            None => InferenceResult::FinalResponse(String::from_str(text)),
        },
    }
}

/// A text that ends with a call terminator is handed to decoding as it is,
/// and a text that lacks one is handed over as that text with the terminator
/// at its end: both ways the decoder reads the same text.
pub proof fn lemma_repair_meets_terminated_text(text: Seq<char>)
    ensures
        repaired(text + call_terminator()) == text + call_terminator(),
        lacks_call_terminator(text) ==> repaired(text) == repaired(text + call_terminator()),
        repaired(repaired(text)) == repaired(text),
{
    let full = text + call_terminator();
    let at = text.len() as int;
    assert(full.subrange(at, at + call_terminator().len()) =~= call_terminator());
    assert(occurs_at(full, call_terminator(), at));
}

/// Where the scan by hand finds a tool call in a text, it finds a call of
/// the same tool in that text with a call terminator at its end.
pub proof fn lemma_scan_names_same_tool_with_terminator(text: Seq<char>)
    requires
        tool_call_of(text) is Some,
    ensures
        tool_call_of(text + call_terminator()) is Some,
        (tool_call_of(text + call_terminator())->0).0 == (tool_call_of(text)->0).0,
{
    let tail = call_terminator();
    let full = text + tail;
    let p = find(text, tool_marker())->0;
    let start = p + tool_marker().len();
    lemma_find_in_extension(text, tail, tool_marker(), 0);
    crate::text::lemma_find_from_is_first(text, tool_marker(), 0);
    lemma_find_in_extension(text, tail, " "@, start);
    let end = find_from(text, " "@, start)->0;
    crate::text::lemma_find_from_is_first(text, " "@, start);
    let m = rfind(text, message_marker())->0;
    lemma_rfind_upto_is_last(text, message_marker(), text.len() - message_marker().len());
    lemma_occurrence_in_extension(text, tail, message_marker(), m);
    lemma_rfind_upto_is_last(full, message_marker(), full.len() - message_marker().len());
    assert(full.subrange(start, end) =~= text.subrange(start, end));
}

} // verus!
