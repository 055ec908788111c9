//! From `session/update` notifications and finished turns to events for the
//! application.

use vstd::prelude::*;
use crate::events::{AppEvent, AppEventV, events_view};
use crate::json::{Json, JsonV, items_view, rendered};
use crate::models::{PlanEntry, ToolCall, ToolCallV};
use crate::text::{concat, concat3, join, joined, str_eq, texts};

verus! {

/// The text of a content block: of a block of type `text` its member `text`,
/// of any other typed block its JSON text. A block without a string `type`,
/// or a text block without a string `text`, has none.
pub open spec fn content_text(content: JsonV) -> Option<Seq<char>> {
    match content.get_str("type"@) {
        None => None,
        Some(kind) => if kind == "text"@ {
            content.get_str("text"@)
        } else {
            Some(rendered(content))
        },
    }
}

/// The text of a content block (see [`content_text`]).
pub fn text_from_content(content: &Json) -> (r: Option<String>)
    ensures
        crate::text::opt_text(r) == content_text(content@),
{
    match content.get_str("type") {
        None => None,
        Some(kind) => if str_eq(kind, "text") {
            match content.get_str("text") {
                Some(t) => Some(t.to_owned()),
                None => None,
            }
        } else {
            Some(content.render())
        },
    }
}

/// What one entry of a tool call's content shows: the text of a `content`
/// entry's block, `[diff] ` and the path of a `diff` entry that has one.
pub open spec fn tool_item_text(item: JsonV) -> Option<Seq<char>> {
    match item.get_str("type"@) {
        None => None,
        Some(kind) => if kind == "content"@ {
            match item.get("content"@) {
                Some(c) => content_text(c),
                None => None,
            }
        } else if kind == "diff"@ {
            match item.get_str("path"@) {
                Some(p) => Some("[diff] "@ + p),
                None => None,
            }
        } else {
            None
        },
    }
}

/// The flattened text of a tool call's content: what its entries show, one
/// per line; nothing where the content is no array or shows nothing.
pub open spec fn tool_contents_text(contents: JsonV) -> Option<Seq<char>> {
    match contents.as_array() {
        None => None,
        Some(items) => {
            let parts = items.filter_map(|i: JsonV| tool_item_text(i));
            if parts.len() == 0 {
                None
            } else {
                Some(joined(parts, "\n"@))
            }
        },
    }
}

fn tool_item(item: &Json) -> (r: Option<String>)
    ensures
        crate::text::opt_text(r) == tool_item_text(item@),
{
    match item.get_str("type") {
        None => None,
        Some(kind) => if str_eq(kind, "content") {
            match item.get("content") {
                Some(c) => text_from_content(c),
                None => None,
            }
        } else if str_eq(kind, "diff") {
            match item.get_str("path") {
                Some(p) => Some(concat("[diff] ", p)),
                None => None,
            }
        } else {
            None
        },
    }
}

/// The flattened text of a tool call's content (see
/// [`tool_contents_text`]).
pub fn text_from_tool_contents(contents: &Json) -> (r: Option<String>)
    ensures
        crate::text::opt_text(r) == tool_contents_text(contents@),
{
    match contents.as_array() {
        None => None,
        Some(items) => {
            let ghost all = items_view(items@);
            let ghost f = |i: JsonV| tool_item_text(i);
            let mut parts: Vec<String> = Vec::new();
            let mut i: usize = 0;
            assert(all.take(0).filter_map(f) =~= Seq::empty());
            assert(texts(parts@) =~= Seq::empty());
            while i < items.len()
                invariant
                    0 <= i <= items.len(),
                    all == items_view(items@),
                    f == (|i: JsonV| tool_item_text(i)),
                    texts(parts@) == all.take(i as int).filter_map(f),
                decreases items.len() - i,
            {
                let ghost before = texts(parts@);
                proof {
                    all.lemma_filter_map_take_succ(f, i as int);
                }
                match tool_item(&items[i]) {
                    Some(t) => {
                        let ghost tv = t@;
                        parts.push(t);
                        assert(texts(parts@) =~= before + seq![tv]);
                    },
                    None => {
                        assert(before + Seq::<Seq<char>>::empty() =~= before);
                    },
                }
                i = i + 1;
            }
            assert(all.take(items.len() as int) =~= all);
            if parts.len() == 0 {
                None
            } else {
                Some(join(&parts, "\n"))
            }
        },
    }
}

/// The line shown to the user for a stop reason.
pub open spec fn stop_message(reason: Seq<char>) -> Seq<char> {
    if reason == "end_turn"@ {
        "✅ 任务完成"@
    } else if reason == "max_tokens"@ {
        "⚠️ 达到最大令牌限制"@
    } else if reason == "cancelled"@ {
        "🚫 任务已取消"@
    } else if reason == "refusal"@ {
        "⛔ 模型拒绝回答"@
    } else {
        "✅ 任务结束"@
    }
}

/// The line shown to the user for a stop reason.
pub fn stop_reason_to_message(reason: &str) -> (message: &'static str)
    ensures
        message@ == stop_message(reason@),
{
    if str_eq(reason, "end_turn") {
        "✅ 任务完成"
    } else if str_eq(reason, "max_tokens") {
        "⚠️ 达到最大令牌限制"
    } else if str_eq(reason, "cancelled") {
        "🚫 任务已取消"
    } else if str_eq(reason, "refusal") {
        "⛔ 模型拒绝回答"
    } else {
        "✅ 任务结束"
    }
}

/// The events that close a prompt turn: for any reason but `end_turn` a
/// status line for the conversation, then `task-finish` with the reason.
pub open spec fn task_finish_events(agent_id: Seq<char>, reason: Seq<char>) -> Seq<AppEventV> {
    if reason == "end_turn"@ {
        seq![crate::events::task_finish(agent_id, reason)]
    } else {
        seq![
            crate::events::stream_message(agent_id, stop_message(reason), "system"@),
            crate::events::task_finish(agent_id, reason),
        ]
    }
}

/// The events that close a prompt turn.
pub fn emit_task_finish(agent_id: &str, reason: &str) -> (events: Vec<AppEvent>)
    ensures
        events_view(events@) == task_finish_events(agent_id@, reason@),
{
    let mut events: Vec<AppEvent> = Vec::new();
    if !str_eq(reason, "end_turn") {
        events.push(AppEvent::stream_message(agent_id, stop_reason_to_message(reason), "system"));
    }
    events.push(AppEvent::task_finish(agent_id, reason));
    proof {
        assert(events_view(events@) =~= task_finish_events(agent_id@, reason@));
    }
    events
}

/// The text of a string member, or a default where the update has none.
pub open spec fn str_or(update: JsonV, key: Seq<char>, default: Seq<char>) -> Seq<char> {
    match update.get_str(key) {
        Some(s) => s,
        None => default,
    }
}

/// The tool call that a `tool_call` or `tool_call_update` describes.
pub open spec fn tool_call_of(update: JsonV) -> ToolCallV {
    ToolCallV {
        id: str_or(update, "toolCallId"@, Seq::empty()),
        name: match update.get_str("toolName"@) {
            Some(n) => n,
            None => str_or(update, "title"@, Seq::empty()),
        },
        status: str_or(update, "status"@, "pending"@),
        arguments: update.get("args"@),
        output: match update.get("content"@) {
            Some(c) => tool_contents_text(c),
            None => None,
        },
    }
}

/// The line of a plan entry: `[status] content`, for an object whose
/// `content` and `status` are strings.
pub open spec fn plan_line(entry: JsonV) -> Option<Seq<char>> {
    match (entry, entry.get_str("content"@), entry.get_str("status"@)) {
        (JsonV::Object(_), Some(content), Some(status)) => Some("["@ + status + "] "@ + content),
        _ => None,
    }
}

/// The lines of a plan, in the order of its entries.
pub open spec fn plan_lines(update: JsonV) -> Seq<Seq<char>> {
    match update.get_array("entries"@) {
        Some(items) => items.filter_map(|e: JsonV| plan_line(e)),
        None => Seq::empty(),
    }
}

/// The text of the block under `content`, if the update has one.
pub open spec fn chunk_text(update: JsonV) -> Option<Seq<char>> {
    match update.get("content"@) {
        Some(c) => content_text(c),
        None => None,
    }
}

/// The events that a `session/update` payload gives rise to, by its
/// discriminator `sessionUpdate`: message and thought chunks become
/// `stream-message`, tool calls `tool-call`, a plan with at least one entry a
/// `stream-message` of kind `plan`; everything else, the echo of the user's
/// own message included, gives nothing.
pub open spec fn session_update_events(agent_id: Seq<char>, update: JsonV) -> Seq<AppEventV> {
    match update.get_str("sessionUpdate"@) {
        None => Seq::empty(),
        Some(kind) => if kind == "agent_message_chunk"@ {
            match chunk_text(update) {
                Some(t) => seq![crate::events::stream_message(agent_id, t, "content"@)],
                None => Seq::empty(),
            }
        } else if kind == "agent_thought_chunk"@ {
            match chunk_text(update) {
                Some(t) => seq![crate::events::stream_message(agent_id, "💭 "@ + t, "thought"@)],
                None => Seq::empty(),
            }
        } else if kind == "tool_call"@ || kind == "tool_call_update"@ {
            seq![crate::events::tool_call(agent_id, tool_call_of(update).to_json())]
        } else if kind == "plan"@ {
            let lines = plan_lines(update);
            if lines.len() == 0 {
                Seq::empty()
            } else {
                seq![
                    crate::events::stream_message(
                        agent_id,
                        "📋 执行计划:\n"@ + joined(lines, "\n"@),
                        "plan"@,
                    ),
                ]
            }
        } else {
            Seq::empty()
        },
    }
}

fn chunk(update: &Json) -> (r: Option<String>)
    ensures
        crate::text::opt_text(r) == chunk_text(update@),
{
    match update.get("content") {
        Some(c) => text_from_content(c),
        None => None,
    }
}

fn string_or(update: &Json, key: &str, default: &str) -> (r: String)
    ensures
        r@ == str_or(update@, key@, default@),
{
    match update.get_str(key) {
        Some(s) => s.to_owned(),
        None => default.to_owned(),
    }
}

/// Reads the tool call that an update describes.
pub fn read_tool_call(update: &Json) -> (call: ToolCall)
    ensures
        call@ == tool_call_of(update@),
{
    let name = match update.get_str("toolName") {
        Some(n) => n.to_owned(),
        None => string_or(update, "title", ""),
    };
    let arguments = match update.get("args") {
        Some(a) => Some(a.duplicate()),
        None => None,
    };
    let output = match update.get("content") {
        Some(c) => text_from_tool_contents(c),
        None => None,
    };
    proof {
        reveal_strlit("");
        assert(""@ =~= Seq::<char>::empty());
    }
    ToolCall {
        id: string_or(update, "toolCallId", ""),
        name,
        status: string_or(update, "status", "pending"),
        arguments,
        output,
    }
}

/// Reads one plan entry: an object whose `content` and `status` are strings.
pub fn read_plan_entry(entry: &Json) -> (r: Option<PlanEntry>)
    ensures
        match r {
            Some(e) => plan_line(entry@) == Some("["@ + e.status@ + "] "@ + e.content@),
            None => plan_line(entry@) is None,
        },
{
    match entry {
        Json::Object(_) => match (entry.get_str("content"), entry.get_str("status")) {
            (Some(content), Some(status)) => Some(
                PlanEntry { content: content.to_owned(), status: status.to_owned() },
            ),
            _ => None,
        },
        _ => None,
    }
}

fn plan(update: &Json) -> (lines: Vec<String>)
    ensures
        texts(lines@) == plan_lines(update@),
{
    let mut lines: Vec<String> = Vec::new();
    match update.get_array("entries") {
        None => {
            assert(texts(lines@) =~= Seq::empty());
        },
        Some(items) => {
            let ghost all = items_view(items@);
            let ghost f = |e: JsonV| plan_line(e);
            let mut i: usize = 0;
            assert(all.take(0).filter_map(f) =~= Seq::empty());
            assert(texts(lines@) =~= Seq::empty());
            while i < items.len()
                invariant
                    0 <= i <= items.len(),
                    all == items_view(items@),
                    f == (|e: JsonV| plan_line(e)),
                    texts(lines@) == all.take(i as int).filter_map(f),
                decreases items.len() - i,
            {
                let ghost before = texts(lines@);
                proof {
                    all.lemma_filter_map_take_succ(f, i as int);
                }
                match read_plan_entry(&items[i]) {
                    Some(entry) => {
                        let line = concat3(
                            "[",
                            entry.status.as_str(),
                            concat("] ", entry.content.as_str()).as_str(),
                        );
                        let ghost lv = line@;
                        assert(lv =~= "["@ + entry.status@ + "] "@ + entry.content@);
                        lines.push(line);
                        assert(texts(lines@) =~= before + seq![lv]);
                    },
                    None => {
                        assert(before + Seq::<Seq<char>>::empty() =~= before);
                    },
                }
                i = i + 1;
            }
            assert(all.take(items.len() as int) =~= all);
        },
    }
    lines
}

/// The events that a `session/update` payload gives rise to.
pub fn handle_session_update(agent_id: &str, update: &Json) -> (events: Vec<AppEvent>)
    ensures
        events_view(events@) == session_update_events(agent_id@, update@),
{
    let mut events: Vec<AppEvent> = Vec::new();
    match update.get_str("sessionUpdate") {
        None => {},
        Some(kind) => {
            if str_eq(kind, "agent_message_chunk") {
                match chunk(update) {
                    Some(t) => {
                        events.push(AppEvent::stream_message(agent_id, t.as_str(), "content"));
                    },
                    None => {},
                }
            } else if str_eq(kind, "agent_thought_chunk") {
                match chunk(update) {
                    Some(t) => {
                        let content = concat("💭 ", t.as_str());
                        events.push(AppEvent::stream_message(agent_id, content.as_str(), "thought"));
                    },
                    None => {},
                }
            } else if str_eq(kind, "tool_call") || str_eq(kind, "tool_call_update") {
                let call = read_tool_call(update);
                events.push(AppEvent::tool_call(agent_id, call.to_json()));
            } else if str_eq(kind, "plan") {
                let lines = plan(update);
                if lines.len() > 0 {
                    let content = concat("📋 执行计划:\n", join(&lines, "\n").as_str());
                    events.push(AppEvent::stream_message(agent_id, content.as_str(), "plan"));
                }
            }
        },
    }
    proof {
        assert(events_view(events@) =~= session_update_events(agent_id@, update@));
    }
    events
}

} // verus!
