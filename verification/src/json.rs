//! JSON at the edge of the tools: the arguments of a call are read from JSON
//! text, and a directory listing is written as a JSON array.

use vstd::prelude::*;
use vstd::string::*;
use crate::conversation::texts;
use crate::tools::{ascending, decorated_names, plan_tool, plan_view, planned, sorted_names,
    DirEntry, ToolArguments, ToolArgumentsView, ToolError, ToolRequest};

verus! {

#[verifier::external_type_specification]
#[verifier::external_body]
pub struct ExValue(serde_json::Value);

#[verifier::external_type_specification]
#[verifier::external_body]
pub struct ExJsonError(serde_json::Error);

/// The members of a JSON value that are strings: for an object, each key
/// whose value is a string, with that string; for any other value, none.
pub uninterp spec fn string_members(value: serde_json::Value) -> Map<Seq<char>, Seq<char>>;

/// The string members of the JSON value that a text stands for, or `None`
/// where the text is no JSON.
pub uninterp spec fn parsed_members(text: Seq<char>) -> Option<Map<Seq<char>, Seq<char>>>;

/// The JSON text that `serde_json` writes for an array of strings.
pub uninterp spec fn json_array_text(names: Seq<Seq<char>>) -> Seq<char>;

/// The string under `key`, if there is one.
pub open spec fn member(members: Map<Seq<char>, Seq<char>>, key: Seq<char>) -> Option<Seq<char>> {
    if members.contains_key(key) {
        Some(members[key])
    } else {
        None
    }
}

/// The arguments that string members give a call.
pub open spec fn arguments_from(members: Map<Seq<char>, Seq<char>>) -> ToolArgumentsView {
    ToolArgumentsView {
        path: member(members, "path"@),
        old_str: member(members, "old_str"@),
        new_str: member(members, "new_str"@),
    }
}

/// The arguments that a JSON value gives a call.
pub open spec fn arguments_of(value: serde_json::Value) -> ToolArgumentsView {
    arguments_from(string_members(value))
}

/// The arguments that an argument text gives a call, or `None` where the
/// text is no JSON.
pub open spec fn arguments_in(text: Seq<char>) -> Option<ToolArgumentsView> {
    match parsed_members(text) {
        Some(members) => Some(arguments_from(members)),
        None => None,
    }
}

/// Calls `serde_json::from_str` for a `Value`. Which texts are JSON, and
/// which value each stands for, is left to `serde_json`: the contract only
/// gives that a name, as a function of the text.
#[verifier::external_body]
fn parse_json(text: &str) -> (r: Result<serde_json::Value, serde_json::Error>)
    ensures
        match r {
            Ok(value) => parsed_members(text@) == Some(string_members(value)),
            Err(_) => parsed_members(text@) is None,
        },
{
    serde_json::from_str::<serde_json::Value>(text)
}

/// Calls `Value::get` and `Value::as_str`: the string that `value` holds
/// under `key`, where `value` is an object with a string under that key.
#[verifier::external_body]
fn string_member(value: &serde_json::Value, key: &str) -> (r: Option<String>)
    ensures
        crate::conversation::opt_text(r) == member(string_members(*value), key@),
{
    value.get(key).and_then(serde_json::Value::as_str).map(String::from)
}

/// Calls `serde_json::to_string` on a list of strings. It writes into a
/// buffer in memory and strings always serialize, so it succeeds; the result
/// is the JSON array of those strings.
#[verifier::external_body]
fn encode_names(names: &Vec<String>) -> (r: Result<String, serde_json::Error>)
    ensures
        r is Ok,
        r matches Ok(s) ==> s@ == json_array_text(texts(names@)),
{
    serde_json::to_string(names)
}

/// The arguments that `value` gives a call.
pub fn read_arguments(value: &serde_json::Value) -> (r: ToolArguments)
    ensures
        r@ == arguments_of(*value),
{
    ToolArguments {
        path: string_member(value, "path"),
        old_str: string_member(value, "old_str"),
        new_str: string_member(value, "new_str"),
    }
}

/// The arguments that the text `arguments` gives a call, or `None` where the
/// text is no JSON.
pub fn decode_arguments(arguments: &str) -> (r: Option<ToolArguments>)
    ensures
        match r {
            Some(a) => arguments_in(arguments@) == Some(a@),
            None => arguments_in(arguments@) is None,
        },
{
    match parse_json(arguments) {
        Ok(value) => Some(read_arguments(&value)),
        Err(_) => None,
    }
}

/// What is to be done for a call of `tool_name` with the argument text
/// `arguments`: what `planned` says for the arguments that the text gives.
pub fn execute_tool(tool_name: &str, arguments: &str) -> (r: Result<ToolRequest, ToolError>)
    ensures
        plan_view(r) == planned(tool_name@, arguments_in(arguments@)),
{
    let args = decode_arguments(arguments);
    plan_tool(tool_name, args.as_ref())
}

/// The listing of a directory: the names of its entries, a directory with
/// `/` behind it, in ascending order, as a JSON array. It always succeeds.
pub fn list_files_output(entries: &Vec<DirEntry>) -> (r: Result<String, ToolError>)
    ensures
        r matches Ok(s) && exists|names: Seq<Seq<char>>|
            ascending(names) && names.to_multiset() == decorated_names(entries@).to_multiset()
                && s@ == #[trigger] json_array_text(names),
{
    let names = sorted_names(entries);
    match encode_names(&names) {
        Ok(s) => {
            assert(s@ == json_array_text(texts(names@)));
            Ok(s)
        },
        Err(_) => Err(ToolError::Serialization),
    }
}

} // verus!
