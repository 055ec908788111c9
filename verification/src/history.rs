//! The agent's own record of past sessions: where it lies for a workspace,
//! and what its files say.

use vstd::prelude::*;
use crate::json::{Json, JsonV, entries_view, items_view, lemma_array_view, lemma_object_view, lookup, opt_view};
use crate::registry::{clean_text, nonempty};
use crate::text::opt_text;
use crate::text::{
    concat3,
    join,
    joined,
    split,
    split_ranges,
    texts,
    to_decimal,
    concat,
    from_chars,
    replace_char,
    replaced,
    stands_at,
    str_eq,
    to_chars,
    trim,
    trim_range,
    trimmed,
};

verus! {

/// One past session, as the list of sessions shows it.
#[derive(Debug, Clone, PartialEq, Eq)]
pub struct IflowHistorySession {
    pub session_id: String,
    pub title: String,
    pub created_at: String,
    pub updated_at: String,
    pub message_count: usize,
}

/// One message of a past session.
#[derive(Debug, Clone, PartialEq, Eq)]
pub struct IflowHistoryMessage {
    pub id: String,
    pub role: String,
    pub content: String,
    pub timestamp: String,
}

/// `s` without the slashes at its end, but for a slash that is all of it.
pub open spec fn strip_slashes(s: Seq<char>) -> Seq<char>
    decreases s.len(),
{
    if s.len() > 1 && s.last() == '/' {
        strip_slashes(s.drop_last())
    } else {
        s
    }
}

/// A workspace path in the form it is compared in: trimmed, with `/` for
/// every `\`, and without slashes at its end.
pub open spec fn workspace_path(s: Seq<char>) -> Seq<char> {
    strip_slashes(replaced(trimmed(s), '\\', '/'))
}

/// Brings a workspace path into the form it is compared in.
pub fn normalize_workspace_path(workspace_path: &str) -> (out: String)
    ensures
        out@ == self::workspace_path(workspace_path@),
{
    let replaced = replace_char(trim(workspace_path).as_str(), '\\', '/');
    let chars = to_chars(replaced.as_str());
    let mut end: usize = chars.len();
    proof {
        assert(chars@.take(end as int) =~= chars@);
    }
    while end > 1 && chars[end - 1] == '/'
        invariant
            end <= chars.len(),
            strip_slashes(chars@) == strip_slashes(chars@.take(end as int)),
        decreases end,
    {
        proof {
            assert(chars@.take(end as int).drop_last() =~= chars@.take(end - 1));
        }
        end = end - 1;
    }
    proof {
        assert(chars@.take(end as int) =~= chars@.subrange(0, end as int));
    }
    from_chars(&chars, 0, end)
}

/// The name of the directory in which the agent keeps the sessions of a
/// workspace: the path with `-` for every `/` and `:`, and a `-` in front
/// unless it has one.
pub open spec fn project_key(s: Seq<char>) -> Seq<char> {
    let key = replaced(replaced(workspace_path(s), '/', '-'), ':', '-');
    if key.len() > 0 && key[0] == '-' {
        key
    } else {
        seq!['-'] + key
    }
}

/// The name of the directory that holds the sessions of a workspace.
pub fn workspace_to_iflow_project_key(workspace_path: &str) -> (key: String)
    ensures
        key@ == project_key(workspace_path@),
{
    let normalized = normalize_workspace_path(workspace_path);
    let key = replace_char(replace_char(normalized.as_str(), '/', '-').as_str(), ':', '-');
    let chars = to_chars(key.as_str());
    if chars.len() > 0 && chars[0] == '-' {
        key
    } else {
        proof {
            reveal_strlit("-");
            assert("-"@ =~= seq!['-']);
        }
        concat("-", key.as_str())
    }
}

/// The directories to look in for a workspace: that of the path as given,
/// then that of its normal form where that is another.
pub open spec fn project_keys(given: Seq<char>, normalized: Seq<char>) -> Seq<Seq<char>> {
    if project_key(normalized) == project_key(given) {
        seq![project_key(given)]
    } else {
        seq![project_key(given), project_key(normalized)]
    }
}

/// The names of the directories, under the agent's projects directory, in
/// which the sessions of a workspace may lie.
pub fn iflow_project_dirs_for_workspace(
    workspace_path: &str,
    normalized_workspace_path: &str,
) -> (dirs: Vec<String>)
    ensures
        crate::text::texts(dirs@) == project_keys(workspace_path@, normalized_workspace_path@),
{
    let first = workspace_to_iflow_project_key(workspace_path);
    let second = workspace_to_iflow_project_key(normalized_workspace_path);
    let ghost a = first@;
    let ghost b = second@;
    let same = str_eq(first.as_str(), second.as_str());
    let mut dirs: Vec<String> = Vec::new();
    dirs.push(first);
    if !same {
        dirs.push(second);
        assert(crate::text::texts(dirs@) =~= seq![a, b]);
    } else {
        assert(crate::text::texts(dirs@) =~= seq![a]);
    }
    dirs
}

/// How many characters of a title are shown.
pub const TITLE_LENGTH: usize = 28;

/// The title of a session: its text on one line and trimmed; a stand-in
/// where that is empty; cut after 28 characters, with `...` behind, where it
/// is longer.
pub open spec fn title_of(raw: Seq<char>) -> Seq<char> {
    let normalized = trimmed(replaced(replaced(raw, '\n', ' '), '\r', ' '));
    if normalized.len() == 0 {
        "iFlow 会话"@
    } else if normalized.len() <= TITLE_LENGTH {
        normalized
    } else {
        normalized.take(TITLE_LENGTH as int) + "..."@
    }
}

/// Makes the title of a session out of a text.
pub fn compact_title(raw: &str) -> (title: String)
    ensures
        title@ == title_of(raw@),
{
    let one_line = replace_char(replace_char(raw, '\n', ' ').as_str(), '\r', ' ');
    let normalized = trim(one_line.as_str());
    let chars = to_chars(normalized.as_str());
    if chars.len() == 0 {
        return "iFlow 会话".to_owned();
    }
    if chars.len() <= TITLE_LENGTH {
        return normalized;
    }
    let head = from_chars(&chars, 0, TITLE_LENGTH);
    proof {
        assert(chars@.subrange(0, TITLE_LENGTH as int) =~= chars@.take(TITLE_LENGTH as int));
    }
    concat(head.as_str(), "...")
}

/// `s` without any run of `suffix` at its end.
pub open spec fn strip_suffixes(s: Seq<char>, suffix: Seq<char>) -> Seq<char>
    decreases s.len(),
{
    if suffix.len() > 0 && suffix.is_suffix_of(s) {
        strip_suffixes(s.take(s.len() - suffix.len()), suffix)
    } else {
        s
    }
}

/// The id of a session as it is looked up: trimmed and without `.jsonl`.
pub open spec fn session_name(session_id: Seq<char>) -> Seq<char> {
    strip_suffixes(trimmed(session_id), ".jsonl"@)
}

/// `chars[..end]` without any run of `suffix` at its end.
fn strip_suffixes_end(chars: &Vec<char>, suffix: &Vec<char>) -> (end: usize)
    ensures
        end <= chars.len(),
        chars@.take(end as int) == strip_suffixes(chars@, suffix@),
{
    let mut end: usize = chars.len();
    proof {
        assert(chars@.take(end as int) =~= chars@);
    }
    if suffix.len() == 0 {
        return end;
    }
    while end >= suffix.len() && stands_at(chars, suffix, end - suffix.len())
        invariant
            end <= chars.len(),
            suffix.len() > 0,
            strip_suffixes(chars@, suffix@) == strip_suffixes(chars@.take(end as int), suffix@),
        decreases end,
    {
        proof {
            let cur = chars@.take(end as int);
            let at = end - suffix@.len();
            assert(cur.subrange(at, end as int) =~= chars@.subrange(at, at + suffix@.len()));
            assert(suffix@.is_suffix_of(cur));
            assert(cur.take(cur.len() - suffix@.len()) =~= chars@.take(at));
        }
        end = end - suffix.len();
    }
    proof {
        let cur = chars@.take(end as int);
        if end >= suffix.len() {
            let at = end - suffix@.len();
            assert(cur.subrange(at, end as int) =~= chars@.subrange(at, at + suffix@.len()));
        }
        assert(!suffix@.is_suffix_of(cur));
    }
    end
}

/// Checks the id of a session, and gives it in the form it is looked up in.
/// An id of which nothing is left is refused as empty, and one that does not
/// begin with `session-` as ill-formed.
pub fn normalize_iflow_session_id(session_id: &str) -> (r: Result<String, String>)
    ensures
        match r {
            Ok(id) => id@ == session_name(session_id@) && id@.len() > 0 && "session-"@.is_prefix_of(
                id@,
            ),
            Err(message) => if session_name(session_id@).len() == 0 {
                message@ == "session_id cannot be empty"@
            } else {
                !"session-"@.is_prefix_of(session_name(session_id@)) && message@
                    == "Invalid session_id format"@
            },
        },
{
    let trimmed = trim(session_id);
    let chars = to_chars(trimmed.as_str());
    let suffix = to_chars(".jsonl");
    let end = strip_suffixes_end(&chars, &suffix);
    proof {
        assert(chars@.subrange(0, end as int) =~= chars@.take(end as int));
    }
    let normalized = from_chars(&chars, 0, end);
    if end == 0 {
        return Err("session_id cannot be empty".to_owned());
    }
    if !crate::text::starts_with(normalized.as_str(), "session-") {
        return Err("Invalid session_id format".to_owned());
    }
    Ok(normalized)
}

/// The text of a value in a session file: a string trimmed, if anything is
/// left; the texts of an array's items, one per line; of an object, the text
/// of its member `text`, or else of its member `content`.
pub open spec fn history_text(v: JsonV) -> Option<Seq<char>>
    decreases v, 0nat,
{
    match v {
        JsonV::Str(s) => nonempty(trimmed(s)),
        JsonV::Array(items) => {
            let parts = history_texts(items, items.len());
            if parts.len() == 0 {
                None
            } else {
                Some(joined(parts, "\n"@))
            }
        },
        JsonV::Object(entries) => match member_history_text(entries, "text"@, 0) {
            Some(t) => Some(t),
            None => member_history_text(entries, "content"@, 0),
        },
        _ => None,
    }
}

/// The texts of the first `n` items that have one.
pub open spec fn history_texts(items: Seq<JsonV>, n: nat) -> Seq<Seq<char>>
    decreases items, n,
{
    if n == 0 || n > items.len() {
        Seq::empty()
    } else {
        let before = history_texts(items, (n - 1) as nat);
        match history_text(items[n - 1]) {
            Some(t) => before.push(t),
            None => before,
        }
    }
}

/// The text of the first member called `key` at or after position `from`.
pub open spec fn member_history_text(
    entries: Seq<(Seq<char>, JsonV)>,
    key: Seq<char>,
    from: nat,
) -> Option<Seq<char>>
    decreases entries, entries.len() - from,
{
    if from >= entries.len() {
        None
    } else if entries[from as int].0 == key {
        history_text(entries[from as int].1)
    } else {
        member_history_text(entries, key, from + 1)
    }
}

/// The text of a member is that of the value that `get` finds under its key.
pub proof fn lemma_member_history_text(entries: Seq<(Seq<char>, JsonV)>, key: Seq<char>, from: nat)
    requires
        from <= entries.len(),
    ensures
        member_history_text(entries, key, from) == match lookup(entries.skip(from as int), key) {
            Some(v) => history_text(v),
            None => None,
        },
    decreases entries.len() - from,
{
    let rest = entries.skip(from as int);
    if from < entries.len() {
        assert(rest[0] == entries[from as int]);
        assert(rest.drop_first() =~= entries.skip(from as int + 1));
        if entries[from as int].0 != key {
            lemma_member_history_text(entries, key, from + 1);
        }
    }
}

/// The text of a value in a session file (see [`history_text`]).
pub fn extract_text_value(value: &Json) -> (r: Option<String>)
    ensures
        opt_text(r) == history_text(value@),
    decreases value,
{
    match value {
        Json::Str(s) => {
            let normalized = trim(s.as_str());
            if normalized.as_str().unicode_len() == 0 {
                None
            } else {
                Some(normalized)
            }
        },
        Json::Array(items) => {
            proof {
                lemma_array_view(*items);
            }
            let ghost all = items_view(items@);
            let mut parts: Vec<String> = Vec::new();
            let mut i: usize = 0;
            while i < items.len()
                invariant
                    0 <= i <= items.len(),
                    all == items_view(items@),
                    decreases_to!(*value => *items),
                    texts(parts@) == history_texts(all, i as nat),
                decreases items.len() - i,
            {
                assert(decreases_to!(*items => items[i as int]));
                let ghost before = texts(parts@);
                match extract_text_value(&items[i]) {
                    Some(t) => {
                        let ghost tv = t@;
                        parts.push(t);
                        assert(texts(parts@) =~= before.push(tv));
                    },
                    None => {},
                }
                i = i + 1;
            }
            if parts.len() == 0 {
                None
            } else {
                Some(join(&parts, "\n"))
            }
        },
        Json::Object(entries) => {
            proof {
                lemma_object_view(*entries);
                let all = entries_view(entries@);
                lemma_member_history_text(all, "text"@, 0);
                lemma_member_history_text(all, "content"@, 0);
                assert(all.skip(0) =~= all);
            }
            let text = match value.get("text") {
                Some(inner) => extract_text_value(inner),
                None => None,
            };
            match text {
                Some(t) => Some(t),
                None => match value.get("content") {
                    Some(inner) => extract_text_value(inner),
                    None => None,
                },
            }
        },
        _ => None,
    }
}

/// The text of the member `key` of a value, if it has that member and the
/// member has a text.
pub open spec fn text_at(v: JsonV, key: Seq<char>) -> Option<Seq<char>> {
    match v.get(key) {
        Some(inner) => history_text(inner),
        None => None,
    }
}

/// The text of an item of a message: that of its member `text`, for an
/// object of type `text`.
pub open spec fn text_entry(item: JsonV) -> Option<Seq<char>> {
    if item is Object && item.get_str("type"@) == Some("text"@) {
        text_at(item, "text"@)
    } else {
        None
    }
}

/// The text of a message, without what its tools put in: a string trimmed;
/// of an array, its items of type `text`, one per line; of an object with a
/// type, its text where the type is `text`; of one without, its text, or
/// else what its member `content` gives in the same way.
pub open spec fn text_entries(v: JsonV) -> Option<Seq<char>>
    decreases v, 0nat,
{
    match v {
        JsonV::Str(s) => nonempty(trimmed(s)),
        JsonV::Array(items) => {
            let parts = items.filter_map(|item: JsonV| text_entry(item));
            if parts.len() == 0 {
                None
            } else {
                Some(joined(parts, "\n"@))
            }
        },
        JsonV::Object(entries) => match v.get_str("type"@) {
            Some(kind) => if kind == "text"@ {
                text_at(v, "text"@)
            } else {
                None
            },
            None => match text_at(v, "text"@) {
                Some(t) => Some(t),
                None => member_text_entries(entries, 0),
            },
        },
        _ => None,
    }
}

/// What the first member called `content` at or after `from` gives.
pub open spec fn member_text_entries(entries: Seq<(Seq<char>, JsonV)>, from: nat) -> Option<
    Seq<char>,
>
    decreases entries, entries.len() - from,
{
    if from >= entries.len() {
        None
    } else if entries[from as int].0 == "content"@ {
        text_entries(entries[from as int].1)
    } else {
        member_text_entries(entries, from + 1)
    }
}

/// What `content` gives is what the value that `get` finds under it gives.
pub proof fn lemma_member_text_entries(entries: Seq<(Seq<char>, JsonV)>, from: nat)
    requires
        from <= entries.len(),
    ensures
        member_text_entries(entries, from) == match lookup(entries.skip(from as int), "content"@) {
            Some(v) => text_entries(v),
            None => None,
        },
    decreases entries.len() - from,
{
    let rest = entries.skip(from as int);
    if from < entries.len() {
        assert(rest[0] == entries[from as int]);
        assert(rest.drop_first() =~= entries.skip(from as int + 1));
        if entries[from as int].0 != "content"@ {
            lemma_member_text_entries(entries, from + 1);
        }
    }
}

fn text_member(value: &Json, key: &str) -> (r: Option<String>)
    ensures
        opt_text(r) == text_at(value@, key@),
{
    match value.get(key) {
        Some(inner) => extract_text_value(inner),
        None => None,
    }
}

fn entry_text(item: &Json) -> (r: Option<String>)
    ensures
        opt_text(r) == text_entry(item@),
{
    match item {
        Json::Object(_) => match item.get_str("type") {
            Some(kind) => if str_eq(kind, "text") {
                text_member(item, "text")
            } else {
                None
            },
            None => None,
        },
        _ => None,
    }
}

/// The text of a message, without what its tools put in (see
/// [`text_entries`]).
pub fn extract_text_entries_only(value: &Json) -> (r: Option<String>)
    ensures
        opt_text(r) == text_entries(value@),
    decreases value,
{
    match value {
        Json::Str(s) => {
            let normalized = trim(s.as_str());
            if normalized.as_str().unicode_len() == 0 {
                None
            } else {
                Some(normalized)
            }
        },
        Json::Array(items) => {
            proof {
                lemma_array_view(*items);
            }
            let ghost all = items_view(items@);
            let ghost f = |item: JsonV| text_entry(item);
            let mut parts: Vec<String> = Vec::new();
            let mut i: usize = 0;
            assert(all.take(0).filter_map(f) =~= Seq::empty());
            assert(texts(parts@) =~= Seq::empty());
            while i < items.len()
                invariant
                    0 <= i <= items.len(),
                    all == items_view(items@),
                    f == (|item: JsonV| text_entry(item)),
                    texts(parts@) == all.take(i as int).filter_map(f),
                decreases items.len() - i,
            {
                let ghost before = texts(parts@);
                proof {
                    all.lemma_filter_map_take_succ(f, i as int);
                }
                match entry_text(&items[i]) {
                    Some(t) => {
                        let ghost tv = t@;
                        parts.push(t);
                        assert(texts(parts@) =~= before + seq![tv]);
                    },
                    None => {
                        assert(before + Seq::<Seq<char>>::empty() =~= before);
                    },
                }
                i = i + 1;
            }
            assert(all.take(items.len() as int) =~= all);
            if parts.len() == 0 {
                None
            } else {
                Some(join(&parts, "\n"))
            }
        },
        Json::Object(entries) => {
            proof {
                lemma_object_view(*entries);
                let all = entries_view(entries@);
                lemma_member_text_entries(all, 0);
                assert(all.skip(0) =~= all);
            }
            match value.get_str("type") {
                Some(kind) => if str_eq(kind, "text") {
                    text_member(value, "text")
                } else {
                    None
                },
                None => match text_member(value, "text") {
                    Some(t) => Some(t),
                    None => match value.get("content") {
                        Some(inner) => extract_text_entries_only(inner),
                        None => None,
                    },
                },
            }
        },
        _ => None,
    }
}

/// Whether an item is the call of a tool or its result.
pub open spec fn is_tool_entry(item: JsonV) -> bool {
    item is Object && (item.get_str("type"@) == Some("tool_use"@) || item.get_str("type"@) == Some(
        "tool_result"@,
    ))
}

/// Whether a message's content is an array with the call of a tool, or the
/// result of one, among its items.
pub open spec fn structured_tool_entries(v: JsonV) -> bool {
    match v {
        JsonV::Array(items) => exists|i: int| 0 <= i < items.len() && is_tool_entry(#[trigger] items[i]),
        _ => false,
    }
}

fn tool_entry(item: &Json) -> (r: bool)
    ensures
        r == is_tool_entry(item@),
{
    match item {
        Json::Object(_) => match item.get_str("type") {
            Some(kind) => str_eq(kind, "tool_use") || str_eq(kind, "tool_result"),
            None => false,
        },
        _ => false,
    }
}

/// Whether a message's content carries the call of a tool or its result.
pub fn has_structured_tool_entries(value: &Json) -> (r: bool)
    ensures
        r == structured_tool_entries(value@),
{
    match value.as_array() {
        None => false,
        Some(items) => {
            let ghost all = items_view(items@);
            let mut i: usize = 0;
            while i < items.len()
                invariant
                    0 <= i <= items.len(),
                    all == items_view(items@),
                    value@.as_array() == Some(all),
                    forall|k: int| 0 <= k < i ==> !is_tool_entry(#[trigger] all[k]),
                decreases items.len() - i,
            {
                if tool_entry(&items[i]) {
                    assert(is_tool_entry(all[i as int]));
                    return true;
                }
                i = i + 1;
            }
            false
        },
    }
}

/// The content of a message of a session file: the text of what stands
/// under `message.content`, for a record of a user or an assistant that
/// carries no tool entries.
pub open spec fn message_content(record: JsonV, record_type: Seq<char>) -> Option<Seq<char>> {
    match record.get("message"@) {
        None => None,
        Some(message) => match message.get("content"@) {
            None => None,
            Some(content) => if structured_tool_entries(content) {
                None
            } else {
                match text_entries(content) {
                    None => None,
                    Some(text) => if trimmed(text).len() == 0 || (record_type != "user"@
                        && record_type != "assistant"@) {
                        None
                    } else {
                        Some(text)
                    },
                }
            },
        },
    }
}

/// The content of a message of a session file, if the record holds one
/// that is shown.
pub fn extract_history_message_content(record: &Json, record_type: &str) -> (r: Option<String>)
    ensures
        opt_text(r) == message_content(record@, record_type@),
{
    let content = match record.get("message") {
        Some(message) => match message.get("content") {
            Some(content) => content,
            None => {
                return None;
            },
        },
        None => {
            return None;
        },
    };
    if has_structured_tool_entries(content) {
        // What the tools put in would only litter the conversation.
        return None;
    }
    let text_only = match extract_text_entries_only(content) {
        Some(text) => text,
        None => {
            return None;
        },
    };
    if trim(text_only.as_str()).as_str().unicode_len() == 0 {
        return None;
    }
    if !str_eq(record_type, "user") && !str_eq(record_type, "assistant") {
        return None;
    }
    Some(text_only)
}

/// When a record was written: its trimmed string `timestamp`, unless that
/// is empty.
pub fn extract_history_timestamp(record: &Json) -> (r: Option<String>)
    ensures
        opt_text(r) == clean_text(record@.get("timestamp"@)),
{
    crate::registry::clean(record.get("timestamp"))
}

/// The workspace a record was written in, in the form it is compared in.
pub open spec fn record_cwd(record: JsonV) -> Option<Seq<char>> {
    match record.get_str("cwd"@) {
        Some(cwd) => Some(workspace_path(cwd)),
        None => None,
    }
}

/// The workspace a record was written in, if it names one.
pub fn extract_history_record_cwd(record: &Json) -> (r: Option<String>)
    ensures
        opt_text(r) == record_cwd(record@),
{
    match record.get_str("cwd") {
        Some(cwd) => Some(normalize_workspace_path(cwd)),
        None => None,
    }
}

/// The mathematical value of an [`IflowHistorySession`].
pub struct SessionV {
    pub session_id: Seq<char>,
    pub title: Seq<char>,
    pub created_at: Seq<char>,
    pub updated_at: Seq<char>,
    pub message_count: nat,
}

impl View for IflowHistorySession {
    type V = SessionV;

    open spec fn view(&self) -> SessionV {
        SessionV {
            session_id: self.session_id@,
            title: self.title@,
            created_at: self.created_at@,
            updated_at: self.updated_at@,
            message_count: self.message_count as nat,
        }
    }
}

/// The mathematical value of an [`IflowHistoryMessage`].
pub struct MessageV {
    pub id: Seq<char>,
    pub role: Seq<char>,
    pub content: Seq<char>,
    pub timestamp: Seq<char>,
}

impl View for IflowHistoryMessage {
    type V = MessageV;

    open spec fn view(&self) -> MessageV {
        MessageV {
            id: self.id@,
            role: self.role@,
            content: self.content@,
            timestamp: self.timestamp@,
        }
    }
}

/// The views of a list of messages.
pub open spec fn messages_view(messages: Seq<IflowHistoryMessage>) -> Seq<MessageV> {
    Seq::new(messages.len(), |i: int| messages[i]@)
}

/// The record that a line of a session file holds, with its type: the line
/// must be JSON, and of the type `user` or `assistant`.
pub open spec fn line_record(line: Seq<char>) -> Option<(JsonV, Seq<char>)> {
    let raw = trimmed(line);
    if raw.len() == 0 {
        None
    } else {
        match crate::json::parsed(raw) {
            None => None,
            Some(record) => {
                let kind = trimmed(crate::router::str_or(record, "type"@, Seq::empty()));
                if kind == "user"@ || kind == "assistant"@ {
                    Some((record, kind))
                } else {
                    None
                }
            },
        }
    }
}

/// What is known of a session after some of its lines.
pub struct SummaryV {
    pub created_at: Option<Seq<char>>,
    pub updated_at: Option<Seq<char>>,
    pub title: Option<Seq<char>>,
    pub message_count: nat,
    /// Whether a record named the workspace it was written in.
    pub has_cwd: bool,
    /// Whether a record named the workspace that is asked for.
    pub workspace_matches: bool,
}

/// What one more line adds to what is known of a session.
pub open spec fn summary_step(s: SummaryV, line: Seq<char>, expected: Seq<char>) -> SummaryV {
    match line_record(line) {
        None => s,
        Some((record, kind)) => {
            let s1 = match record_cwd(record) {
                Some(cwd) => SummaryV {
                    has_cwd: true,
                    workspace_matches: s.workspace_matches || cwd == expected,
                    ..s
                },
                None => s,
            };
            match message_content(record, kind) {
                None => s1,
                Some(content) => {
                    let timestamp = clean_text(record.get("timestamp"@));
                    SummaryV {
                        message_count: s1.message_count + 1,
                        created_at: if s1.created_at is None {
                            timestamp
                        } else {
                            s1.created_at
                        },
                        updated_at: if timestamp is Some {
                            timestamp
                        } else {
                            s1.updated_at
                        },
                        title: if s1.title is None && kind == "user"@ {
                            Some(content)
                        } else {
                            s1.title
                        },
                        ..s1
                    }
                },
            }
        },
    }
}

/// What is known of a session after all of the given lines.
pub open spec fn summary_fold(lines: Seq<Seq<char>>, expected: Seq<char>) -> SummaryV
    decreases lines.len(),
{
    if lines.len() == 0 {
        SummaryV {
            created_at: None,
            updated_at: None,
            title: None,
            message_count: 0,
            has_cwd: false,
            workspace_matches: false,
        }
    } else {
        summary_step(summary_fold(lines.drop_last(), expected), lines.last(), expected)
    }
}

/// The text, or a stand-in where there is none.
pub open spec fn text_or(text: Option<Seq<char>>, default: Seq<char>) -> Seq<char> {
    match text {
        Some(t) => t,
        None => default,
    }
}

/// The summary of a session file: how many messages it holds, when the
/// first and the last were written, and a title made of the first message
/// of the user. Nothing for a file whose records name workspaces, but never
/// the one asked for.
pub open spec fn history_summary(
    raw: Seq<char>,
    session_id: Seq<char>,
    expected: Seq<char>,
    fallback: Seq<char>,
) -> Option<SessionV> {
    let s = summary_fold(split(raw, '\n'), expected);
    if s.has_cwd && !s.workspace_matches {
        None
    } else {
        Some(
            SessionV {
                session_id,
                title: title_of(text_or(s.title, session_id)),
                created_at: text_or(s.created_at, fallback),
                updated_at: text_or(s.updated_at, fallback),
                message_count: s.message_count,
            },
        )
    }
}

/// Reads the record of a line, with its type.
fn read_record(line: &str) -> (r: Option<(Json, String)>)
    ensures
        match r {
            Some(found) => line_record(line@) == Some((found.0@, found.1@)),
            None => line_record(line@) is None,
        },
{
    let raw = trim(line);
    if raw.as_str().unicode_len() == 0 {
        return None;
    }
    let record = match Json::parse(raw.as_str()) {
        Some(record) => record,
        None => {
            return None;
        },
    };
    let kind = match record.get_str("type") {
        Some(kind) => trim(kind),
        None => {
            proof {
                reveal_strlit("");
                assert(""@ =~= Seq::<char>::empty());
            }
            trim("")
        },
    };
    if str_eq(kind.as_str(), "user") || str_eq(kind.as_str(), "assistant") {
        Some((record, kind))
    } else {
        None
    }
}

/// The lines of a text.
fn lines_of(raw: &str) -> (lines: Vec<String>)
    ensures
        texts(lines@) == split(raw@, '\n'),
{
    let chars = to_chars(raw);
    let ranges = split_ranges(&chars, '\n');
    let ghost all = split(raw@, '\n');
    let mut lines: Vec<String> = Vec::new();
    let mut i: usize = 0;
    proof {
        assert(texts(lines@) =~= all.take(0));
    }
    while i < ranges.len()
        invariant
            0 <= i <= ranges.len(),
            ranges@.len() == all.len(),
            chars@ == raw@,
            all == split(chars@, '\n'),
            forall|k: int|
                0 <= k < ranges@.len() ==> crate::text::bounds(chars@, #[trigger] ranges@[k], all[k]),
            texts(lines@) == all.take(i as int),
        decreases ranges.len() - i,
    {
        let ghost sofar = texts(lines@);
        let range = ranges[i];
        let line = from_chars(&chars, range.0, range.1);
        let ghost lv = line@;
        lines.push(line);
        proof {
            assert(texts(lines@) =~= sofar.push(lv));
            assert(all.take(i + 1) =~= all.take(i as int).push(all[i as int]));
        }
        i = i + 1;
    }
    proof {
        assert(all.take(all.len() as int) =~= all);
    }
    lines
}

/// Reads the summary of a session out of the text of its file. `fallback_ts`
/// stands in for the times that the file does not tell.
pub fn parse_iflow_history_summary(
    raw: &str,
    session_id: &str,
    expected_workspace_path: &str,
    fallback_ts: &str,
) -> (r: Option<IflowHistorySession>)
    ensures
        match r {
            Some(session) => history_summary(
                raw@,
                session_id@,
                expected_workspace_path@,
                fallback_ts@,
            ) == Some(session@),
            None => history_summary(raw@, session_id@, expected_workspace_path@, fallback_ts@)
                is None,
        },
{
    let lines = lines_of(raw);
    let ghost all = split(raw@, '\n');
    let ghost expected = expected_workspace_path@;
    let mut created_at: Option<String> = None;
    let mut updated_at: Option<String> = None;
    let mut title: Option<String> = None;
    let mut message_count: usize = 0;
    let mut has_cwd = false;
    let mut workspace_matches = false;
    let mut i: usize = 0;
    proof {
        assert(all.take(0) =~= Seq::<Seq<char>>::empty());
    }
    while i < lines.len()
        invariant
            0 <= i <= lines.len(),
            texts(lines@) == all,
            expected == expected_workspace_path@,
            message_count <= i,
            summary_fold(all.take(i as int), expected) == (SummaryV {
                created_at: opt_text(created_at),
                updated_at: opt_text(updated_at),
                title: opt_text(title),
                message_count: message_count as nat,
                has_cwd,
                workspace_matches,
            }),
        decreases lines.len() - i,
    {
        proof {
            assert(all.take(i + 1).drop_last() =~= all.take(i as int));
            assert(all.take(i + 1).last() == lines@[i as int]@);
        }
        match read_record(lines[i].as_str()) {
            None => {},
            Some(found) => {
                let record = found.0;
                let kind = found.1;
                match extract_history_record_cwd(&record) {
                    Some(cwd) => {
                        has_cwd = true;
                        if str_eq(cwd.as_str(), expected_workspace_path) {
                            workspace_matches = true;
                        }
                    },
                    None => {},
                }
                match extract_history_message_content(&record, kind.as_str()) {
                    None => {},
                    Some(content) => {
                        message_count = message_count + 1;
                        match extract_history_timestamp(&record) {
                            Some(ts) => {
                                if created_at.is_none() {
                                    created_at = Some(ts.clone());
                                }
                                updated_at = Some(ts);
                            },
                            None => {},
                        }
                        if title.is_none() && str_eq(kind.as_str(), "user") {
                            title = Some(content);
                        }
                    },
                }
            },
        }
        i = i + 1;
    }
    proof {
        assert(all.take(lines.len() as int) =~= all);
    }
    if has_cwd && !workspace_matches {
        return None;
    }
    let shown = match &title {
        Some(t) => compact_title(t.as_str()),
        None => compact_title(session_id),
    };
    let created = match &created_at {
        Some(t) => t.clone(),
        None => fallback_ts.to_owned(),
    };
    let updated = match updated_at {
        Some(t) => t,
        None => fallback_ts.to_owned(),
    };
    Some(
        IflowHistorySession {
            session_id: session_id.to_owned(),
            title: shown,
            created_at: created,
            updated_at: updated,
            message_count,
        },
    )
}

/// The message that a line of a session file holds, if it holds one. A
/// message without an id of its own gets the session's id and the number of
/// its line; one without a time gets `now`.
pub open spec fn message_of(line: Seq<char>, index: nat, session_id: Seq<char>, now: Seq<char>) -> Option<
    MessageV,
> {
    match line_record(line) {
        None => None,
        Some((record, kind)) => match message_content(record, kind) {
            None => None,
            Some(content) => Some(
                MessageV {
                    id: match record.get_str("uuid"@) {
                        Some(uuid) => uuid,
                        None => session_id + "-"@ + crate::text::decimal(index),
                    },
                    role: kind,
                    content,
                    timestamp: text_or(clean_text(record.get("timestamp"@)), now),
                },
            ),
        },
    }
}

/// The messages of the first `n` lines, in their order.
pub open spec fn messages_of(lines: Seq<Seq<char>>, n: nat, session_id: Seq<char>, now: Seq<char>) -> Seq<
    MessageV,
>
    decreases n,
{
    if n == 0 || n > lines.len() {
        Seq::empty()
    } else {
        let before = messages_of(lines, (n - 1) as nat, session_id, now);
        match message_of(lines[n - 1], (n - 1) as nat, session_id, now) {
            Some(m) => before.push(m),
            None => before,
        }
    }
}

/// Whether a session file belongs to another workspace than the one asked
/// for: its records name workspaces, but never that one.
pub open spec fn belongs_elsewhere(raw: Seq<char>, expected: Seq<char>) -> bool {
    let s = summary_fold(split(raw, '\n'), expected);
    s.has_cwd && !s.workspace_matches
}

/// Reads the messages of a session out of the text of its file. It fails
/// for a file that belongs to another workspace. `now` stands in for the
/// time of a message that does not tell it.
pub fn parse_iflow_history_messages(
    raw: &str,
    session_id: &str,
    expected_workspace_path: &str,
    now: &str,
) -> (r: Result<Vec<IflowHistoryMessage>, String>)
    ensures
        match r {
            Ok(messages) => !belongs_elsewhere(raw@, expected_workspace_path@) && messages_view(
                messages@,
            ) == messages_of(
                split(raw@, '\n'),
                split(raw@, '\n').len(),
                session_id@,
                now@,
            ),
            Err(message) => belongs_elsewhere(raw@, expected_workspace_path@) && message@
                == "Session "@ + session_id@ + " does not belong to workspace "@
                + expected_workspace_path@,
        },
{
    let lines = lines_of(raw);
    let ghost all = split(raw@, '\n');
    let ghost expected = expected_workspace_path@;
    let mut messages: Vec<IflowHistoryMessage> = Vec::new();
    let mut has_cwd = false;
    let mut workspace_matches = false;
    let mut i: usize = 0;
    proof {
        assert(all.take(0) =~= Seq::<Seq<char>>::empty());
        assert(messages_view(messages@) =~= Seq::empty());
    }
    while i < lines.len()
        invariant
            0 <= i <= lines.len(),
            texts(lines@) == all,
            expected == expected_workspace_path@,
            summary_fold(all.take(i as int), expected).has_cwd == has_cwd,
            summary_fold(all.take(i as int), expected).workspace_matches == workspace_matches,
            messages_view(messages@) == messages_of(all, i as nat, session_id@, now@),
        decreases lines.len() - i,
    {
        proof {
            assert(all.take(i + 1).drop_last() =~= all.take(i as int));
            assert(all.take(i + 1).last() == lines@[i as int]@);
            assert(all[i as int] == lines@[i as int]@);
        }
        let ghost sofar = messages_view(messages@);
        match read_record(lines[i].as_str()) {
            None => {},
            Some(found) => {
                let record = found.0;
                let kind = found.1;
                match extract_history_record_cwd(&record) {
                    Some(cwd) => {
                        has_cwd = true;
                        if str_eq(cwd.as_str(), expected_workspace_path) {
                            workspace_matches = true;
                        }
                    },
                    None => {},
                }
                match extract_history_message_content(&record, kind.as_str()) {
                    None => {},
                    Some(content) => {
                        let timestamp = match extract_history_timestamp(&record) {
                            Some(ts) => ts,
                            None => now.to_owned(),
                        };
                        let id = match record.get_str("uuid") {
                            Some(uuid) => uuid.to_owned(),
                            None => concat3(session_id, "-", to_decimal(i as u64).as_str()),
                        };
                        let message = IflowHistoryMessage { id, role: kind, content, timestamp };
                        let ghost mv = message@;
                        messages.push(message);
                        proof {
                            assert(messages_view(messages@) =~= sofar.push(mv));
                        }
                    },
                }
            },
        }
        i = i + 1;
    }
    proof {
        assert(all.take(lines.len() as int) =~= all);
    }
    if has_cwd && !workspace_matches {
        let head = concat3("Session ", session_id, " does not belong to workspace ");
        return Err(crate::text::concat(head.as_str(), expected_workspace_path));
    }
    Ok(messages)
}

/// The id of the session that a file of the projects directory holds: the
/// name of the file without `.jsonl`, for a name that begins with
/// `session-` and ends with `.jsonl`.
pub fn session_file_id(file_name: &str) -> (r: Option<String>)
    ensures
        match r {
            Some(id) => "session-"@.is_prefix_of(file_name@) && ".jsonl"@.is_suffix_of(file_name@)
                && id@ == strip_suffixes(file_name@, ".jsonl"@),
            None => !("session-"@.is_prefix_of(file_name@) && ".jsonl"@.is_suffix_of(file_name@)),
        },
{
    if !crate::text::starts_with(file_name, "session-") || !crate::text::ends_with(
        file_name,
        ".jsonl",
    ) {
        return None;
    }
    let chars = to_chars(file_name);
    let suffix = to_chars(".jsonl");
    let end = strip_suffixes_end(&chars, &suffix);
    proof {
        assert(chars@.subrange(0, end as int) =~= chars@.take(end as int));
    }
    Some(from_chars(&chars, 0, end))
}

/// The time `secs` seconds and `nanos` nanoseconds after the start of 1970
/// (UTC), written by `chrono` as RFC 3339; nothing for a time that `chrono`
/// cannot hold.
pub uninterp spec fn rfc3339_at(secs: i64, nanos: u32) -> Option<Seq<char>>;

/// `chrono::DateTime::from_timestamp`, and `to_rfc3339` on what it gives.
#[verifier::external_body]
fn rfc3339(secs: i64, nanos: u32) -> (r: Option<String>)
    ensures
        opt_text(r) == rfc3339_at(secs, nanos),
{
    chrono::DateTime::from_timestamp(secs, nanos).map(|t| t.to_rfc3339())
}

/// `chrono::Utc::now`, written as RFC 3339. Each call reads the clock.
#[verifier::external_body]
fn rfc3339_now() -> String {
    chrono::Utc::now().to_rfc3339()
}

/// A time of the file system as whole seconds since the start of 1970 and
/// nanoseconds on top, given how far it lies after or before that start.
/// Nothing for a time that far out that its seconds do not fit.
pub open spec fn epoch_offset(before: bool, secs: u64, nanos: u32) -> Option<(i64, u32)> {
    if secs >= i64::MAX as u64 || nanos >= 1_000_000_000 {
        None
    } else if !before {
        Some((secs as i64, nanos))
    } else if nanos == 0 {
        Some(((-(secs as int)) as i64, 0u32))
    } else {
        Some(((-(secs as int) - 1) as i64, (1_000_000_000 - nanos) as u32))
    }
}

/// Works out the seconds and nanoseconds since the start of 1970 for a time
/// that lies `secs` seconds and `nanos` nanoseconds after it, or before it.
pub fn since_epoch(before: bool, secs: u64, nanos: u32) -> (r: Option<(i64, u32)>)
    ensures
        r == epoch_offset(before, secs, nanos),
{
    if secs >= 0x7fff_ffff_ffff_ffffu64 || nanos >= 1_000_000_000 {
        return None;
    }
    let whole: i64 = secs as i64;
    if !before {
        Some((whole, nanos))
    } else if nanos == 0 {
        Some((-whole, 0))
    } else {
        Some((-whole - 1, 1_000_000_000 - nanos))
    }
}

/// A time as RFC 3339: the one given, in seconds and nanoseconds since the
/// start of 1970, or the present where none is given or it cannot be
/// written.
pub fn to_rfc3339_or_now(system_time: Option<(i64, u32)>) -> (text: String)
    ensures
        match system_time {
            Some(t) => rfc3339_at(t.0, t.1) matches Some(written) ==> text@ == written,
            None => true,
        },
{
    let written = match system_time {
        Some(t) => rfc3339(t.0, t.1),
        None => None,
    };
    match written {
        Some(text) => text,
        None => rfc3339_now(),
    }
}

/// Whether `a` comes before `b`, or is `b`, in the order of strings:
/// character by character, a text before its extensions.
pub open spec fn text_le(a: Seq<char>, b: Seq<char>) -> bool
    decreases a.len(),
{
    if a.len() == 0 {
        true
    } else if b.len() == 0 {
        false
    } else if a[0] != b[0] {
        (a[0] as int) < (b[0] as int)
    } else {
        text_le(a.drop_first(), b.drop_first())
    }
}

/// `<=` on two string slices, which orders them byte by byte; for UTF-8
/// that is character by character.
#[verifier::external_body]
fn str_le(a: &str, b: &str) -> (r: bool)
    ensures
        r == text_le(a@, b@),
{
    a <= b
}

/// The list, which is ordered by time of last change with the newest first,
/// with one more session in its place: behind every session that is as new
/// or newer.
pub open spec fn with_session(sorted: Seq<SessionV>, session: SessionV) -> Seq<SessionV>
    decreases sorted.len(),
{
    if sorted.len() == 0 {
        seq![session]
    } else if text_le(session.updated_at, sorted.last().updated_at) {
        sorted.push(session)
    } else {
        with_session(sorted.drop_last(), session).push(sorted.last())
    }
}

/// The sessions ordered by time of last change, the newest first; sessions
/// of the same time stay in the order they came in.
pub open spec fn newest_first(sessions: Seq<SessionV>) -> Seq<SessionV>
    decreases sessions.len(),
{
    if sessions.len() == 0 {
        Seq::empty()
    } else {
        with_session(newest_first(sessions.drop_last()), sessions.last())
    }
}

/// The views of a list of sessions.
pub open spec fn sessions_view(sessions: Seq<IflowHistorySession>) -> Seq<SessionV> {
    Seq::new(sessions.len(), |i: int| sessions[i]@)
}

/// Whether each session of the list is as new as the next, or newer.
pub open spec fn is_newest_first(sessions: Seq<SessionV>) -> bool {
    forall|i: int, j: int|
        0 <= i < j < sessions.len() ==> text_le(
            #[trigger] sessions[j].updated_at,
            #[trigger] sessions[i].updated_at,
        )
}

proof fn lemma_text_le_total(a: Seq<char>, b: Seq<char>)
    ensures
        text_le(a, b) || text_le(b, a),
    decreases a.len(),
{
    if a.len() > 0 && b.len() > 0 && a[0] == b[0] {
        lemma_text_le_total(a.drop_first(), b.drop_first());
    }
}

proof fn lemma_text_le_transitive(a: Seq<char>, b: Seq<char>, c: Seq<char>)
    requires
        text_le(a, b),
        text_le(b, c),
    ensures
        text_le(a, c),
    decreases a.len(),
{
    if a.len() > 0 && b.len() > 0 && c.len() > 0 && a[0] == b[0] && b[0] == c[0] {
        lemma_text_le_transitive(a.drop_first(), b.drop_first(), c.drop_first());
    }
}

proof fn lemma_with_session(sorted: Seq<SessionV>, session: SessionV)
    requires
        is_newest_first(sorted),
    ensures
        is_newest_first(with_session(sorted, session)),
        with_session(sorted, session).len() == sorted.len() + 1,
        with_session(sorted, session).to_multiset() == sorted.to_multiset().insert(session),
        forall|k: int|
            0 <= k < with_session(sorted, session).len() ==> #[trigger] with_session(
                sorted,
                session,
            )[k] == session || sorted.contains(with_session(sorted, session)[k]),
    decreases sorted.len(),
{
    broadcast use vstd::seq_lib::group_to_multiset_ensures;

    let out = with_session(sorted, session);
    if sorted.len() == 0 {
        assert(out =~= Seq::<SessionV>::empty().push(session));
    } else if text_le(session.updated_at, sorted.last().updated_at) {
        assert forall|i: int, j: int| 0 <= i < j < out.len() implies text_le(
            #[trigger] out[j].updated_at,
            #[trigger] out[i].updated_at,
        ) by {
            if j == sorted.len() {
                if i < sorted.len() - 1 {
                    assert(text_le(sorted[sorted.len() - 1].updated_at, sorted[i].updated_at));
                    lemma_text_le_transitive(
                        session.updated_at,
                        sorted.last().updated_at,
                        sorted[i].updated_at,
                    );
                }
            }
        }
        assert forall|k: int| 0 <= k < out.len() implies #[trigger] out[k] == session
            || sorted.contains(out[k]) by {
            if k < sorted.len() {
                assert(sorted[k] == out[k]);
            }
        }
    } else {
        let front = sorted.drop_last();
        let last = sorted.last();
        assert(is_newest_first(front)) by {
            assert forall|i: int, j: int| 0 <= i < j < front.len() implies text_le(
                #[trigger] front[j].updated_at,
                #[trigger] front[i].updated_at,
            ) by {
                assert(front[i] == sorted[i] && front[j] == sorted[j]);
            }
        }
        lemma_with_session(front, session);
        let inner = with_session(front, session);
        lemma_text_le_total(session.updated_at, last.updated_at);
        assert forall|i: int, j: int| 0 <= i < j < out.len() implies text_le(
            #[trigger] out[j].updated_at,
            #[trigger] out[i].updated_at,
        ) by {
            if j == inner.len() {
                assert(out[i] == inner[i]);
                if inner[i] == session {
                } else {
                    assert(front.contains(inner[i]));
                    let k = choose|k: int| 0 <= k < front.len() && front[k] == inner[i];
                    assert(sorted[k] == inner[i]);
                    assert(text_le(sorted[sorted.len() - 1].updated_at, sorted[k].updated_at));
                }
            } else {
                assert(out[i] == inner[i] && out[j] == inner[j]);
            }
        }
        assert(sorted =~= front.push(last));
        assert forall|k: int| 0 <= k < out.len() implies #[trigger] out[k] == session
            || sorted.contains(out[k]) by {
            if k < inner.len() {
                assert(out[k] == inner[k]);
                if inner[k] != session {
                    let m = choose|m: int| 0 <= m < front.len() && front[m] == inner[k];
                    assert(sorted[m] == inner[k]);
                }
            } else {
                assert(sorted[sorted.len() - 1] == out[k]);
            }
        }
    }
}

/// Ordering the sessions gives the same sessions, each as new as the next
/// or newer.
pub proof fn newest_first_orders(sessions: Seq<SessionV>)
    ensures
        is_newest_first(newest_first(sessions)),
        newest_first(sessions).to_multiset() == sessions.to_multiset(),
    decreases sessions.len(),
{
    broadcast use vstd::seq_lib::group_to_multiset_ensures;

    if sessions.len() > 0 {
        newest_first_orders(sessions.drop_last());
        lemma_with_session(newest_first(sessions.drop_last()), sessions.last());
        assert(sessions =~= sessions.drop_last().push(sessions.last()));
    }
}

/// Orders the sessions by time of last change, the newest first.
pub fn sort_sessions(sessions: Vec<IflowHistorySession>) -> (sorted: Vec<IflowHistorySession>)
    ensures
        sessions_view(sorted@) == newest_first(sessions_view(sessions@)),
        is_newest_first(sessions_view(sorted@)),
        sessions_view(sorted@).to_multiset() == sessions_view(sessions@).to_multiset(),
{
    let ghost all = sessions_view(sessions@);
    let mut rest = sessions;
    let mut reversed: Vec<IflowHistorySession> = Vec::new();
    // Turn the list round, so that its sessions can be taken off in order.
    while rest.len() > 0
        invariant
            rest@.len() + reversed@.len() == all.len(),
            forall|k: int| 0 <= k < rest@.len() ==> #[trigger] rest@[k]@ == all[k],
            forall|k: int|
                0 <= k < reversed@.len() ==> #[trigger] reversed@[k]@ == all[all.len() - 1 - k],
        decreases rest.len(),
    {
        let session = rest.pop().unwrap();
        reversed.push(session);
    }
    let mut sorted: Vec<IflowHistorySession> = Vec::new();
    proof {
        assert(all.take(0) =~= Seq::<SessionV>::empty());
        assert(sessions_view(sorted@) =~= Seq::<SessionV>::empty());
    }
    while reversed.len() > 0
        invariant
            reversed@.len() <= all.len(),
            forall|k: int|
                0 <= k < reversed@.len() ==> #[trigger] reversed@[k]@ == all[all.len() - 1 - k],
            sessions_view(sorted@) == newest_first(all.take(all.len() - reversed@.len())),
        decreases reversed.len(),
    {
        let ghost n = all.len() - reversed@.len();
        let session = reversed.pop().unwrap();
        proof {
            assert(session@ == all[n]);
            assert(all.take(n + 1).drop_last() =~= all.take(n));
            assert(all.take(n + 1).last() == all[n]);
        }
        insert_session(&mut sorted, session);
    }
    proof {
        assert(all.take(all.len() as int) =~= all);
        newest_first_orders(all);
    }
    sorted
}

/// Puts a session into a list that is ordered newest first.
fn insert_session(sorted: &mut Vec<IflowHistorySession>, session: IflowHistorySession)
    ensures
        sessions_view(final(sorted)@) == with_session(sessions_view(old(sorted)@), session@),
{
    let ghost before = sessions_view(sorted@);
    let ghost sv = session@;
    let mut at: usize = sorted.len();
    proof {
        assert(before.take(at as int) =~= before);
        assert(before.skip(at as int) =~= Seq::<SessionV>::empty());
        assert(with_session(before, sv) + Seq::<SessionV>::empty() =~= with_session(before, sv));
    }
    while at > 0 && !str_le(session.updated_at.as_str(), sorted[at - 1].updated_at.as_str())
        invariant
            at <= sorted.len(),
            *sorted == *old(sorted),
            before == sessions_view(sorted@),
            sv == session@,
            with_session(before, sv) == with_session(before.take(at as int), sv) + before.skip(
                at as int,
            ),
        decreases at,
    {
        proof {
            let cur = before.take(at as int);
            assert(cur.last() == sorted@[at - 1]@);
            assert(cur.drop_last() =~= before.take(at - 1));
            assert(before.skip(at - 1) =~= seq![cur.last()] + before.skip(at as int));
            assert(with_session(cur.drop_last(), sv).push(cur.last()) + before.skip(at as int)
                =~= with_session(cur.drop_last(), sv) + (seq![cur.last()] + before.skip(
                at as int,
            )));
        }
        at = at - 1;
    }
    proof {
        let cur = before.take(at as int);
        if at > 0 {
            assert(cur.last() == sorted@[at - 1]@);
        }
        assert(with_session(cur, sv) == cur.push(sv));
    }
    sorted.insert(at, session);
    proof {
        assert(sessions_view(sorted@) =~= before.take(at as int).push(sv) + before.skip(at as int));
    }
}

} // verus!
