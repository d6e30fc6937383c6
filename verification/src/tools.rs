//! The three file tools: how a call is read from its name and arguments, what
//! an edit makes of a file's content, and how a directory is listed.

use vstd::prelude::*;
use vstd::string::*;
use vstd::seq_lib::to_multiset_insert;
use crate::conversation::texts;
use crate::text::{contains, find_chars, from_chars, lemma_contains_iff_find, replace_all,
    replace_chars, same_chars, same_text, to_chars};

verus! {

/// The tools that a completion can call.
#[derive(Clone, Copy, Debug, PartialEq, Eq, Structural)]
pub enum Tool {
    ReadFile,
    ListFiles,
    EditFile,
}

/// The string arguments of a call, as far as the call gives them.
#[derive(Clone, Debug, PartialEq, Eq)]
pub struct ToolArguments {
    pub path: Option<String>,
    pub old_str: Option<String>,
    pub new_str: Option<String>,
}

/// What is to be done for a call.
#[derive(Clone, Debug, PartialEq, Eq)]
pub enum ToolRequest {
    /// Nothing on disk: this text is the tool's result.
    Reply(String),
    ReadFile { path: String },
    ListFiles { path: String },
    EditFile { path: String, old_str: String, new_str: String },
}

/// Why a call cannot be served.
#[derive(Clone, Debug, PartialEq, Eq)]
pub enum ToolError {
    UnknownTool(String),
    MissingPath,
    MissingOldStr,
    MissingNewStr,
    SameStrings,
    FileMissing(String),
    OldStrNotFound,
    Serialization,
}

/// One entry of a directory.
#[derive(Clone, Debug, PartialEq, Eq)]
pub struct DirEntry {
    pub name: String,
    pub is_dir: bool,
}

/// `ToolArguments` as plain values.
pub struct ToolArgumentsView {
    pub path: Option<Seq<char>>,
    pub old_str: Option<Seq<char>>,
    pub new_str: Option<Seq<char>>,
}

/// `ToolRequest` as plain values.
pub enum ToolRequestView {
    Reply(Seq<char>),
    ReadFile(Seq<char>),
    ListFiles(Seq<char>),
    EditFile(Seq<char>, Seq<char>, Seq<char>),
}

/// `ToolError` as plain values.
pub enum ToolErrorView {
    UnknownTool(Seq<char>),
    MissingPath,
    MissingOldStr,
    MissingNewStr,
    SameStrings,
    FileMissing(Seq<char>),
    OldStrNotFound,
    Serialization,
}

impl View for ToolArguments {
    type V = ToolArgumentsView;

    open spec fn view(&self) -> ToolArgumentsView {
        ToolArgumentsView {
            path: crate::conversation::opt_text(self.path),
            old_str: crate::conversation::opt_text(self.old_str),
            new_str: crate::conversation::opt_text(self.new_str),
        }
    }
}

impl View for ToolRequest {
    type V = ToolRequestView;

    open spec fn view(&self) -> ToolRequestView {
        match self {
            ToolRequest::Reply(t) => ToolRequestView::Reply(t@),
            ToolRequest::ReadFile { path } => ToolRequestView::ReadFile(path@),
            ToolRequest::ListFiles { path } => ToolRequestView::ListFiles(path@),
            ToolRequest::EditFile { path, old_str, new_str } => ToolRequestView::EditFile(
                path@,
                old_str@,
                new_str@,
            ),
        }
    }
}

impl View for ToolError {
    type V = ToolErrorView;

    open spec fn view(&self) -> ToolErrorView {
        match self {
            ToolError::UnknownTool(n) => ToolErrorView::UnknownTool(n@),
            ToolError::MissingPath => ToolErrorView::MissingPath,
            ToolError::MissingOldStr => ToolErrorView::MissingOldStr,
            ToolError::MissingNewStr => ToolErrorView::MissingNewStr,
            ToolError::SameStrings => ToolErrorView::SameStrings,
            ToolError::FileMissing(p) => ToolErrorView::FileMissing(p@),
            ToolError::OldStrNotFound => ToolErrorView::OldStrNotFound,
            ToolError::Serialization => ToolErrorView::Serialization,
        }
    }
}

/// The tool of that name, if there is one.
pub open spec fn tool_named(name: Seq<char>) -> Option<Tool> {
    if name == "read_file"@ {
        Some(Tool::ReadFile)
    } else if name == "list_files"@ {
        Some(Tool::ListFiles)
    } else if name == "edit_file"@ {
        Some(Tool::EditFile)
    } else {
        None
    }
}

/// The tool result that answers arguments which are no JSON.
pub open spec fn invalid_arguments_reply() -> Seq<char> {
    "Invalid JSON arguments"@
}

/// The directory that is listed where the call names none.
pub open spec fn listed_path(path: Option<Seq<char>>) -> Seq<char> {
    match path {
        Some(p) => if p.len() > 0 {
            p
        } else {
            "."@
        },
        None => "."@,
    }
}

/// What is to be done for a call of `name` with the arguments `args`, which
/// are `None` where the argument text was no JSON. Arguments that are no JSON
/// are answered with a reply, whatever the name; then an unknown name is an
/// error; then each tool asks for its own arguments.
pub open spec fn planned(name: Seq<char>, args: Option<ToolArgumentsView>) -> Result<
    ToolRequestView,
    ToolErrorView,
> {
    match args {
        None => Ok(ToolRequestView::Reply(invalid_arguments_reply())),
        Some(a) => match tool_named(name) {
            None => Err(ToolErrorView::UnknownTool(name)),
            Some(Tool::ReadFile) => match a.path {
                Some(p) => Ok(ToolRequestView::ReadFile(p)),
                None => Err(ToolErrorView::MissingPath),
            },
            Some(Tool::ListFiles) => Ok(ToolRequestView::ListFiles(listed_path(a.path))),
            Some(Tool::EditFile) => match (a.path, a.old_str, a.new_str) {
                (None, _, _) => Err(ToolErrorView::MissingPath),
                (Some(_), None, _) => Err(ToolErrorView::MissingOldStr),
                (Some(_), Some(_), None) => Err(ToolErrorView::MissingNewStr),
                (Some(p), Some(o), Some(n)) => if o == n {
                    Err(ToolErrorView::SameStrings)
                } else {
                    Ok(ToolRequestView::EditFile(p, o, n))
                },
            },
        },
    }
}

/// The views of a request or an error.
pub open spec fn plan_view(r: Result<ToolRequest, ToolError>) -> Result<
    ToolRequestView,
    ToolErrorView,
> {
    match r {
        Ok(request) => Ok(request@),
        Err(e) => Err(e@),
    }
}

/// What an edit makes of a file. `existing` is the file's content, or `None`
/// where there is no file. Equal strings are refused first. An empty `old_str`
/// makes the content `new_str`, file or no file. Otherwise the file must be
/// there and hold `old_str`, and every occurrence of it is replaced.
pub open spec fn edited(
    path: Seq<char>,
    existing: Option<Seq<char>>,
    old_str: Seq<char>,
    new_str: Seq<char>,
) -> Result<Seq<char>, ToolErrorView> {
    if old_str == new_str {
        Err(ToolErrorView::SameStrings)
    } else {
        match existing {
            None => if old_str.len() == 0 {
                Ok(new_str)
            } else {
                Err(ToolErrorView::FileMissing(path))
            },
            Some(content) => if old_str.len() == 0 {
                Ok(new_str)
            } else if !contains(content, old_str) {
                Err(ToolErrorView::OldStrNotFound)
            } else {
                Ok(replace_all(content, old_str, new_str))
            },
        }
    }
}

/// An edit whose two strings are equal is refused, whatever the file holds
/// and whether or not it is there.
pub proof fn lemma_equal_strings_are_refused(
    path: Seq<char>,
    existing: Option<Seq<char>>,
    text: Seq<char>,
)
    ensures
        edited(path, existing, text, text) == Err::<Seq<char>, ToolErrorView>(
            ToolErrorView::SameStrings,
        ),
{
}

/// An edit of a file that is not there succeeds only with an empty
/// `old_str`, and then the content is `new_str`.
pub proof fn lemma_edit_of_missing_file(path: Seq<char>, old_str: Seq<char>, new_str: Seq<char>)
    requires
        old_str != new_str,
    ensures
        old_str.len() == 0 ==> edited(path, None, old_str, new_str) == Ok::<
            Seq<char>,
            ToolErrorView,
        >(new_str),
        old_str.len() > 0 ==> edited(path, None, old_str, new_str) == Err::<
            Seq<char>,
            ToolErrorView,
        >(ToolErrorView::FileMissing(path)),
{
}

/// A call of a name that is no tool's, with arguments that are JSON, is
/// refused as unknown, whatever the arguments hold.
pub proof fn lemma_unknown_tool_is_refused(name: Seq<char>, args: ToolArgumentsView)
    requires
        tool_named(name) is None,
    ensures
        planned(name, Some(args)) == Err::<ToolRequestView, ToolErrorView>(
            ToolErrorView::UnknownTool(name),
        ),
{
}

/// The text that reports an error.
pub open spec fn error_text(e: ToolErrorView) -> Seq<char> {
    match e {
        ToolErrorView::UnknownTool(name) => "Unknown tool: "@ + name,
        ToolErrorView::MissingPath => "Missing path argument"@,
        ToolErrorView::MissingOldStr => "Missing old_str argument"@,
        ToolErrorView::MissingNewStr => "Missing new_str argument"@,
        ToolErrorView::SameStrings => "old_str and new_str must be different"@,
        ToolErrorView::FileMissing(path) => "File "@ + path + " does not exist"@,
        ToolErrorView::OldStrNotFound => "old_str not found in file"@,
        ToolErrorView::Serialization => "listing could not be written as JSON"@,
    }
}

impl ToolError {
    /// The text that reports this error.
    pub fn message(&self) -> (r: String)
        ensures
            r@ == error_text(self@),
    {
        match self {
            ToolError::UnknownTool(name) => String::from_str("Unknown tool: ").concat(
                name.as_str(),
            ),
            ToolError::MissingPath => String::from_str("Missing path argument"),
            ToolError::MissingOldStr => String::from_str("Missing old_str argument"),
            ToolError::MissingNewStr => String::from_str("Missing new_str argument"),
            ToolError::SameStrings => String::from_str("old_str and new_str must be different"),
            ToolError::FileMissing(path) => String::from_str("File ").concat(
                path.as_str(),
            ).concat(" does not exist"),
            ToolError::OldStrNotFound => String::from_str("old_str not found in file"),
            ToolError::Serialization => String::from_str("listing could not be written as JSON"),
        }
    }
}

/// The tool of that name, if there is one.
pub fn lookup_tool(name: &str) -> (r: Option<Tool>)
    ensures
        r == tool_named(name@),
{
    if same_text(name, "read_file") {
        Some(Tool::ReadFile)
    } else if same_text(name, "list_files") {
        Some(Tool::ListFiles)
    } else if same_text(name, "edit_file") {
        Some(Tool::EditFile)
    } else {
        None
    }
}

/// The directory to list: the path of the call, or `.` where it gives none
/// or an empty one.
fn path_to_list(path: &Option<String>) -> (r: String)
    ensures
        r@ == listed_path(crate::conversation::opt_text(*path)),
{
    match path {
        Some(p) => {
            if p.as_str().unicode_len() > 0 {
                p.clone()
            } else {
                String::from_str(".")
            }
        },
        None => String::from_str("."),
    }
}

/// What is to be done for a call of `tool_name` with the arguments `args`,
/// which are `None` where the argument text was no JSON: see `planned`.
pub fn plan_tool(tool_name: &str, args: Option<&ToolArguments>) -> (r: Result<
    ToolRequest,
    ToolError,
>)
    ensures
        plan_view(r) == planned(
            tool_name@,
            match args {
                Some(a) => Some(a@),
                None => None,
            },
        ),
{
    let a = match args {
        None => {
            return Ok(ToolRequest::Reply(String::from_str("Invalid JSON arguments")));
        },
        Some(a) => a,
    };
    match lookup_tool(tool_name) {
        None => Err(ToolError::UnknownTool(String::from_str(tool_name))),
        Some(Tool::ReadFile) => match &a.path {
            Some(p) => Ok(ToolRequest::ReadFile { path: p.clone() }),
            None => Err(ToolError::MissingPath),
        },
        Some(Tool::ListFiles) => Ok(ToolRequest::ListFiles { path: path_to_list(&a.path) }),
        Some(Tool::EditFile) => {
            let path = match &a.path {
                Some(p) => p,
                None => {
                    return Err(ToolError::MissingPath);
                },
            };
            let old_str = match &a.old_str {
                Some(o) => o,
                None => {
                    return Err(ToolError::MissingOldStr);
                },
            };
            let new_str = match &a.new_str {
                Some(n) => n,
                None => {
                    return Err(ToolError::MissingNewStr);
                },
            };
            if same_text(old_str.as_str(), new_str.as_str()) {
                Err(ToolError::SameStrings)
            } else {
                Ok(
                    ToolRequest::EditFile {
                        path: path.clone(),
                        old_str: old_str.clone(),
                        new_str: new_str.clone(),
                    },
                )
            }
        },
    }
}

/// The content that an edit gives the file at `path`, or the reason why it
/// is refused: see `edited`. `existing` is the file's content, or `None`
/// where there is no file.
pub fn apply_edit(path: &str, existing: Option<&str>, old_str: &str, new_str: &str) -> (r: Result<
    String,
    ToolError,
>)
    ensures
        match r {
            Ok(content) => edited(
                path@,
                match existing {
                    Some(c) => Some(c@),
                    None => None,
                },
                old_str@,
                new_str@,
            ) == Ok::<Seq<char>, ToolErrorView>(content@),
            Err(e) => edited(
                path@,
                match existing {
                    Some(c) => Some(c@),
                    None => None,
                },
                old_str@,
                new_str@,
            ) == Err::<Seq<char>, ToolErrorView>(e@),
        },
{
    let target = to_chars(old_str);
    let replacement = to_chars(new_str);
    if same_chars(&target, &replacement) {
        return Err(ToolError::SameStrings);
    }
    if target.len() == 0 {
        return Ok(String::from_str(new_str));
    }
    match existing {
        None => Err(ToolError::FileMissing(String::from_str(path))),
        Some(content) => {
            let chars = to_chars(content);
            proof {
                lemma_contains_iff_find(content@, old_str@);
            }
            if find_chars(&chars, &target, 0).is_none() {
                Err(ToolError::OldStrNotFound)
            } else {
                let out = replace_chars(&chars, &target, &replacement);
                Ok(from_chars(&out))
            }
        },
    }
}

/// The result of an edit that was written.
pub fn edit_done_reply() -> (r: String)
    ensures
        r@ == "OK"@,
{
    String::from_str("OK")
}

/// The name under which an entry is listed: a directory with `/` behind it.
pub open spec fn decorated(name: Seq<char>, is_dir: bool) -> Seq<char> {
    if is_dir {
        name + "/"@
    } else {
        name
    }
}

/// The names under which the entries are listed, in the entries' order.
pub open spec fn decorated_names(entries: Seq<DirEntry>) -> Seq<Seq<char>> {
    Seq::new(entries.len(), |i: int| decorated(entries[i].name@, entries[i].is_dir))
}

/// `a` is not greater than `b` from position `i` on, where the two agree
/// before `i`: at the first difference the lower code point decides, and a
/// text that ends first is the smaller.
pub open spec fn le_from(a: Seq<char>, b: Seq<char>, i: int) -> bool
    decreases a.len() - i,
{
    if i < 0 || i >= a.len() {
        true
    } else if i >= b.len() {
        false
    } else if a[i] != b[i] {
        (a[i] as u32) < (b[i] as u32)
    } else {
        le_from(a, b, i + 1)
    }
}

/// `a` is not greater than `b` in the lexicographic order of code points.
pub open spec fn text_le(a: Seq<char>, b: Seq<char>) -> bool {
    le_from(a, b, 0)
}

/// Each name is not greater than the one that follows it.
pub open spec fn ascending(names: Seq<Seq<char>>) -> bool {
    forall|i: int| 0 <= i && i + 1 < names.len() ==> text_le(#[trigger] names[i], names[i + 1])
}

/// Two characters that differ have different code points.
proof fn lemma_code_points_differ(x: char, y: char)
    requires
        x != y,
    ensures
        x as u32 != y as u32,
{
}

/// Of two texts one is not greater than the other.
pub proof fn lemma_le_total(a: Seq<char>, b: Seq<char>, i: int)
    requires
        0 <= i,
        !le_from(a, b, i),
    ensures
        le_from(b, a, i),
    decreases a.len() - i,
{
    if i < a.len() && i < b.len() {
        if a[i] == b[i] {
            lemma_le_total(a, b, i + 1);
        } else {
            lemma_code_points_differ(a[i], b[i]);
        }
    }
}

/// A text is not greater than itself.
pub proof fn lemma_le_reflexive(a: Seq<char>, i: int)
    requires
        0 <= i,
    ensures
        le_from(a, a, i),
    decreases a.len() - i,
{
    if i < a.len() {
        lemma_le_reflexive(a, i + 1);
    }
}

/// What is not greater than a text is not greater than any text that this
/// one is not greater than.
pub proof fn lemma_le_transitive(a: Seq<char>, b: Seq<char>, c: Seq<char>, i: int)
    requires
        0 <= i,
        le_from(a, b, i),
        le_from(b, c, i),
    ensures
        le_from(a, c, i),
    decreases a.len() - i,
{
    if i < a.len() && a[i] == b[i] && b[i] == c[i] {
        lemma_le_transitive(a, b, c, i + 1);
    }
}

/// In an ascending list no name is greater than any name behind it.
pub proof fn lemma_ascending_is_sorted(names: Seq<Seq<char>>, i: int, j: int)
    requires
        ascending(names),
        0 <= i <= j < names.len(),
    ensures
        text_le(names[i], names[j]),
    decreases j - i,
{
    if i == j {
        lemma_le_reflexive(names[i], 0);
    } else {
        lemma_ascending_is_sorted(names, i, j - 1);
        assert(text_le(names[j - 1], names[j - 1 + 1]));
        lemma_le_transitive(names[i], names[j - 1], names[j], 0);
    }
}

/// Whether `a` is not greater than `b` in the lexicographic order of code points.
pub fn chars_le(a: &Vec<char>, b: &Vec<char>) -> (r: bool)
    ensures
        r == text_le(a@, b@),
{
    let mut i: usize = 0;
    while i < a.len()
        invariant
            i <= a.len(),
            text_le(a@, b@) == le_from(a@, b@, i as int),
        decreases a.len() - i,
    {
        if i >= b.len() {
            return false;
        }
        if a[i] != b[i] {
            let x: u32 = a[i] as u32;
            let y: u32 = b[i] as u32;
            return x < y;
        }
        i += 1;
    }
    true
}

/// Whether the name at position `p` is not greater than `chars`.
fn name_le(names: &Vec<String>, p: usize, chars: &Vec<char>) -> (r: bool)
    requires
        p < names.len(),
    ensures
        r == text_le(texts(names@)[p as int], chars@),
{
    let other = to_chars(names[p].as_str());
    chars_le(&other, chars)
}

/// Puts `name` into the ascending list `names`, behind every name that is not
/// greater than it.
fn insert_ascending(names: &mut Vec<String>, name: String)
    requires
        ascending(texts(old(names)@)),
    ensures
        ascending(texts(final(names)@)),
        texts(final(names)@).to_multiset() == texts(old(names)@).to_multiset().insert(name@),
{
    let chars = to_chars(name.as_str());
    let mut p: usize = 0;
    while p < names.len() && name_le(names, p, &chars)
        invariant
            p <= names.len(),
            chars@ == name@,
            *names == *old(names),
            p > 0 ==> text_le(texts(names@)[p - 1], name@),
        decreases names.len() - p,
    {
        p += 1;
    }
    let ghost before = texts(names@);
    proof {
        if p < names.len() {
            lemma_le_total(before[p as int], name@, 0);
        }
    }
    names.insert(p, name);
    proof {
        let after = texts(names@);
        assert(after =~= before.insert(p as int, name@));
        to_multiset_insert(before, p as int, name@);
        assert forall|i: int| 0 <= i && i + 1 < after.len() implies text_le(
            #[trigger] after[i],
            after[i + 1],
        ) by {
            if i + 1 < p {
                assert(after[i] == before[i] && after[i + 1] == before[i + 1]);
            } else if i + 1 == p {
                assert(after[i] == before[i]);
            } else if i == p {
                assert(after[i + 1] == before[i]);
            } else {
                assert(after[i] == before[i - 1] && after[i + 1] == before[i]);
            }
        }
    }
}

/// The names under which the entries are listed, in ascending order.
pub fn sorted_names(entries: &Vec<DirEntry>) -> (r: Vec<String>)
    ensures
        ascending(texts(r@)),
        texts(r@).to_multiset() == decorated_names(entries@).to_multiset(),
{
    let mut names: Vec<String> = Vec::new();
    let mut i: usize = 0;
    assert(decorated_names(entries@).subrange(0, 0) =~= Seq::<Seq<char>>::empty());
    assert(texts(names@) =~= Seq::<Seq<char>>::empty());
    while i < entries.len()
        invariant
            i <= entries.len(),
            ascending(texts(names@)),
            texts(names@).to_multiset() == decorated_names(entries@).subrange(
                0,
                i as int,
            ).to_multiset(),
        decreases entries.len() - i,
    {
        let entry = &entries[i];
        let name = if entry.is_dir {
            entry.name.clone().concat("/")
        } else {
            entry.name.clone()
        };
        proof {
            let all = decorated_names(entries@);
            assert(all.subrange(0, i + 1) =~= all.subrange(0, i as int).push(all[i as int]));
            vstd::seq_lib::to_multiset_build(all.subrange(0, i as int), all[i as int]);
        }
        insert_ascending(&mut names, name);
        i += 1;
    }
    assert(decorated_names(entries@).subrange(0, entries@.len() as int) =~= decorated_names(
        entries@,
    ));
    names
}

} // verus!
