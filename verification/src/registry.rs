//! The registries an agent announces: its slash commands, its MCP servers and
//! the models it can run, each brought into one plain shape.

use vstd::prelude::*;
use crate::events::{AppEvent, AppEventV, events_view};
use crate::json::{Json, JsonV, items_view, lemma_array_view};
use crate::text::{concat, join, joined, opt_text, starts_with, texts, trim, trimmed};

verus! {

/// `s` where it has a character, nothing where it is empty.
pub open spec fn nonempty(s: Seq<char>) -> Option<Seq<char>> {
    if s.len() == 0 {
        None
    } else {
        Some(s)
    }
}

/// The readable text of a value: a string trimmed, if anything is left; the
/// texts of an array's items with a blank between them, if there is any; of
/// an object, the text of its member `text`; nothing of other values.
pub open spec fn text_of(v: JsonV) -> Option<Seq<char>>
    decreases v, 0nat,
{
    match v {
        JsonV::Str(s) => nonempty(trimmed(s)),
        JsonV::Array(items) => {
            let parts = texts_of(items, items.len());
            if parts.len() == 0 {
                None
            } else {
                Some(joined(parts, " "@))
            }
        },
        JsonV::Object(entries) => member_text(entries, 0),
        _ => None,
    }
}

/// The texts of the first `n` items that have one.
pub open spec fn texts_of(items: Seq<JsonV>, n: nat) -> Seq<Seq<char>>
    decreases items, n,
{
    if n == 0 || n > items.len() {
        Seq::empty()
    } else {
        let before = texts_of(items, (n - 1) as nat);
        match text_of(items[n - 1]) {
            Some(t) => before.push(t),
            None => before,
        }
    }
}

/// The text of the first member called `text` at or after position `from`.
pub open spec fn member_text(entries: Seq<(Seq<char>, JsonV)>, from: nat) -> Option<Seq<char>>
    decreases entries, entries.len() - from,
{
    if from >= entries.len() {
        None
    } else if entries[from as int].0 == "text"@ {
        text_of(entries[from as int].1)
    } else {
        member_text(entries, from + 1)
    }
}

/// The text of an object is that of the member that `get` finds under `text`.
pub proof fn lemma_member_text(entries: Seq<(Seq<char>, JsonV)>, from: nat)
    requires
        from <= entries.len(),
    ensures
        member_text(entries, from) == match crate::json::lookup(entries.skip(from as int), "text"@) {
            Some(v) => text_of(v),
            None => None,
        },
    decreases entries.len() - from,
{
    let rest = entries.skip(from as int);
    if from < entries.len() {
        assert(rest[0] == entries[from as int]);
        assert(rest.drop_first() =~= entries.skip(from as int + 1));
        if entries[from as int].0 != "text"@ {
            lemma_member_text(entries, from + 1);
        }
    }
}

/// The readable text of a value (see [`text_of`]).
pub fn text_from_json_value(value: &Json) -> (r: Option<String>)
    ensures
        match r {
            Some(t) => text_of(value@) == Some(t@),
            None => text_of(value@) is None,
        },
    decreases value,
{
    match value {
        Json::Str(s) => {
            let normalized = trim(s.as_str());
            if normalized.as_str().unicode_len() == 0 {
                None
            } else {
                Some(normalized)
            }
        },
        Json::Array(items) => {
            proof {
                lemma_array_view(*items);
            }
            let ghost all = items_view(items@);
            let mut parts: Vec<String> = Vec::new();
            let mut i: usize = 0;
            while i < items.len()
                invariant
                    0 <= i <= items.len(),
                    all == items_view(items@),
                    decreases_to!(*value => *items),
                    texts(parts@) == texts_of(all, i as nat),
                decreases items.len() - i,
            {
                assert(decreases_to!(*items => items[i as int]));
                let ghost before = texts(parts@);
                match text_from_json_value(&items[i]) {
                    Some(t) => {
                        let ghost tv = t@;
                        parts.push(t);
                        assert(texts(parts@) =~= before.push(tv));
                    },
                    None => {},
                }
                i = i + 1;
            }
            if parts.len() == 0 {
                None
            } else {
                Some(join(&parts, " "))
            }
        },
        Json::Object(entries) => {
            proof {
                crate::json::lemma_object_view(*entries);
                let all = crate::json::entries_view(entries@);
                lemma_member_text(all, 0);
                assert(all.skip(0) =~= all);
            }
            match value.get("text") {
                Some(inner) => text_from_json_value(inner),
                None => None,
            }
        },
        _ => None,
    }
}

/// The array found under `key`, in the payload itself or else in its member
/// `_meta`.
pub open spec fn registry_array(payload: JsonV, key: Seq<char>) -> Option<Seq<JsonV>> {
    match payload.get_array(key) {
        Some(items) => Some(items),
        None => match payload.get("_meta"@) {
            Some(meta) => meta.get_array(key),
            None => None,
        },
    }
}

/// Finds the array under `key`, in the payload itself or else in its
/// member `_meta`.
pub fn extract_registry_array<'a>(payload: &'a Json, key: &str) -> (r: Option<&'a Vec<Json>>)
    ensures
        match r {
            Some(items) => registry_array(payload@, key@) == Some(items_view(items@)),
            None => registry_array(payload@, key@) is None,
        },
{
    match payload.get_array(key) {
        Some(items) => Some(items),
        None => match payload.get("_meta") {
            Some(meta) => meta.get_array(key),
            None => None,
        },
    }
}

/// The member `first` of a value, or else its member `second`.
pub open spec fn either_member(v: JsonV, first: Seq<char>, second: Seq<char>) -> Option<JsonV> {
    match v.get(first) {
        Some(x) => Some(x),
        None => v.get(second),
    }
}

/// The trimmed text of a string value, where it is not empty.
pub open spec fn clean_text(v: Option<JsonV>) -> Option<Seq<char>> {
    match v {
        Some(JsonV::Str(s)) => nonempty(trimmed(s)),
        _ => None,
    }
}

/// The description of a registry entry: the text of its member
/// `description`, empty where there is none.
pub open spec fn description_of(entry: JsonV) -> Seq<char> {
    match entry.get("description"@) {
        Some(d) => match text_of(d) {
            Some(t) => t,
            None => Seq::empty(),
        },
        None => Seq::empty(),
    }
}

/// The scope of a command: the trimmed string `scope` inside its member
/// `_meta`, empty where there is none.
pub open spec fn scope_of(entry: JsonV) -> Seq<char> {
    match entry.get("_meta"@) {
        Some(meta) => match meta.get_str("scope"@) {
            Some(s) => trimmed(s),
            None => Seq::empty(),
        },
        None => Seq::empty(),
    }
}

/// A slash command as the application sees it: `{name, description, scope}`,
/// the name with a leading `/`. An entry without a string `name`, or with a
/// blank one, is no command.
pub open spec fn command_entry(entry: JsonV) -> Option<JsonV> {
    match entry.get_str("name"@) {
        None => None,
        Some(raw) => {
            let name = trimmed(raw);
            if name.len() == 0 {
                None
            } else {
                let normalized = if "/"@.is_prefix_of(name) {
                    name
                } else {
                    "/"@ + name
                };
                Some(
                    JsonV::object().with("name"@, JsonV::Str(normalized)).with(
                        "description"@,
                        JsonV::Str(description_of(entry)),
                    ).with("scope"@, JsonV::Str(scope_of(entry))),
                )
            }
        },
    }
}

/// The commands of a payload, in the order in which it lists them.
pub open spec fn command_entries(payload: JsonV) -> Seq<JsonV> {
    match registry_array(payload, "availableCommands"@) {
        Some(items) => items.filter_map(|e: JsonV| command_entry(e)),
        None => Seq::empty(),
    }
}

/// An MCP server as the application sees it: `{name, description}`. The name
/// is the entry's member `name`, or `id` where it has no `name`; an entry
/// where that is no string, or a blank one, is left out.
pub open spec fn mcp_entry(entry: JsonV) -> Option<JsonV> {
    match clean_text(either_member(entry, "name"@, "id"@)) {
        None => None,
        Some(name) => Some(
            JsonV::object().with("name"@, JsonV::Str(name)).with(
                "description"@,
                JsonV::Str(description_of(entry)),
            ),
        ),
    }
}

/// The MCP servers of a payload, in the order in which it lists them.
pub open spec fn mcp_entries(payload: JsonV) -> Seq<JsonV> {
    match registry_array(payload, "availableMcpServers"@) {
        Some(items) => items.filter_map(|e: JsonV| mcp_entry(e)),
        None => Seq::empty(),
    }
}

/// A model as the application sees it: `{label, value}`. The value is the
/// entry's `value` (or `id`), the label its `label` (or `name`), or the value
/// where it has no label; an entry without a value is left out.
pub open spec fn model_entry(entry: JsonV) -> Option<JsonV> {
    match clean_text(either_member(entry, "value"@, "id"@)) {
        None => None,
        Some(value) => {
            let label = match clean_text(either_member(entry, "label"@, "name"@)) {
                Some(l) => l,
                None => value,
            };
            Some(JsonV::object().with("label"@, JsonV::Str(label)).with("value"@, JsonV::Str(value)))
        },
    }
}

/// The node that describes the models: the member `models` of the payload or
/// else of its `_meta`.
pub open spec fn models_node(payload: JsonV) -> Option<JsonV> {
    match payload.get("models"@) {
        Some(m) => Some(m),
        None => match payload.get("_meta"@) {
            Some(meta) => meta.get("models"@),
            None => None,
        },
    }
}

/// The models a payload offers and the one in use. Nothing where the payload
/// has no model node, or one that names neither a usable model nor a current
/// one.
pub open spec fn model_registry(payload: JsonV) -> Option<(Seq<JsonV>, Option<Seq<char>>)> {
    match models_node(payload) {
        None => None,
        Some(node) => {
            let available = match node.get_array("availableModels"@) {
                Some(items) => items,
                None => Seq::empty(),
            };
            let current = clean_text(node.get("currentModelId"@));
            let models = available.filter_map(|e: JsonV| model_entry(e));
            if models.len() == 0 && current is None {
                None
            } else {
                Some((models, current))
            }
        },
    }
}

fn either<'a>(v: &'a Json, first: &str, second: &str) -> (r: Option<&'a Json>)
    ensures
        crate::json::opt_view(r) == either_member(v@, first@, second@),
{
    match v.get(first) {
        Some(x) => Some(x),
        None => v.get(second),
    }
}

/// The trimmed text of a string value, where it is not empty.
pub fn clean(v: Option<&Json>) -> (r: Option<String>)
    ensures
        opt_text(r) == clean_text(crate::json::opt_view(v)),
{
    match v {
        Some(Json::Str(s)) => {
            let t = trim(s.as_str());
            if t.as_str().unicode_len() == 0 {
                None
            } else {
                Some(t)
            }
        },
        _ => None,
    }
}

fn description(entry: &Json) -> (r: String)
    ensures
        r@ == description_of(entry@),
{
    match entry.get("description") {
        Some(d) => match text_from_json_value(d) {
            Some(t) => t,
            None => String::new(),
        },
        None => String::new(),
    }
}

fn scope(entry: &Json) -> (r: String)
    ensures
        r@ == scope_of(entry@),
{
    match entry.get("_meta") {
        Some(meta) => match meta.get_str("scope") {
            Some(s) => trim(s),
            None => String::new(),
        },
        None => String::new(),
    }
}

fn command(entry: &Json) -> (r: Option<Json>)
    ensures
        match r {
            Some(c) => command_entry(entry@) == Some(c@),
            None => command_entry(entry@) is None,
        },
{
    match entry.get_str("name") {
        None => None,
        Some(raw) => {
            let name = trim(raw);
            if name.as_str().unicode_len() == 0 {
                None
            } else {
                let normalized = if starts_with(name.as_str(), "/") {
                    name
                } else {
                    concat("/", name.as_str())
                };
                Some(
                    Json::object().with("name", Json::Str(normalized)).with(
                        "description",
                        Json::Str(description(entry)),
                    ).with("scope", Json::Str(scope(entry))),
                )
            }
        },
    }
}

fn mcp_server(entry: &Json) -> (r: Option<Json>)
    ensures
        match r {
            Some(c) => mcp_entry(entry@) == Some(c@),
            None => mcp_entry(entry@) is None,
        },
{
    match clean(either(entry, "name", "id")) {
        None => None,
        Some(name) => Some(
            Json::object().with("name", Json::Str(name)).with(
                "description",
                Json::Str(description(entry)),
            ),
        ),
    }
}

fn model(entry: &Json) -> (r: Option<Json>)
    ensures
        match r {
            Some(c) => model_entry(entry@) == Some(c@),
            None => model_entry(entry@) is None,
        },
{
    match clean(either(entry, "value", "id")) {
        None => None,
        Some(value) => {
            let label = match clean(either(entry, "label", "name")) {
                Some(l) => l,
                None => value.clone(),
            };
            Some(Json::object().with("label", Json::Str(label)).with("value", Json::Str(value)))
        },
    }
}

/// The slash commands a payload announces under `availableCommands`.
pub fn normalized_command_entries(payload: &Json) -> (out: Vec<Json>)
    ensures
        items_view(out@) == command_entries(payload@),
{
    let mut out: Vec<Json> = Vec::new();
    match extract_registry_array(payload, "availableCommands") {
        None => {
            assert(items_view(out@) =~= Seq::empty());
        },
        Some(raw) => {
            let ghost all = items_view(raw@);
            let ghost f = |e: JsonV| command_entry(e);
            let mut i: usize = 0;
            assert(all.take(0).filter_map(f) =~= Seq::empty());
            assert(items_view(out@) =~= Seq::empty());
            while i < raw.len()
                invariant
                    0 <= i <= raw.len(),
                    all == items_view(raw@),
                    f == (|e: JsonV| command_entry(e)),
                    items_view(out@) == all.take(i as int).filter_map(f),
                decreases raw.len() - i,
            {
                let ghost before = items_view(out@);
                proof {
                    all.lemma_filter_map_take_succ(f, i as int);
                }
                match command(&raw[i]) {
                    Some(c) => {
                        let ghost cv = c@;
                        out.push(c);
                        assert(items_view(out@) =~= before + seq![cv]);
                    },
                    None => {
                        assert(before + Seq::<JsonV>::empty() =~= before);
                    },
                }
                i = i + 1;
            }
            assert(all.take(raw.len() as int) =~= all);
        },
    }
    out
}

/// The MCP servers a payload announces under `availableMcpServers`.
pub fn normalized_mcp_entries(payload: &Json) -> (out: Vec<Json>)
    ensures
        items_view(out@) == mcp_entries(payload@),
{
    let mut out: Vec<Json> = Vec::new();
    match extract_registry_array(payload, "availableMcpServers") {
        None => {
            assert(items_view(out@) =~= Seq::empty());
        },
        Some(raw) => {
            let ghost all = items_view(raw@);
            let ghost f = |e: JsonV| mcp_entry(e);
            let mut i: usize = 0;
            assert(all.take(0).filter_map(f) =~= Seq::empty());
            assert(items_view(out@) =~= Seq::empty());
            while i < raw.len()
                invariant
                    0 <= i <= raw.len(),
                    all == items_view(raw@),
                    f == (|e: JsonV| mcp_entry(e)),
                    items_view(out@) == all.take(i as int).filter_map(f),
                decreases raw.len() - i,
            {
                let ghost before = items_view(out@);
                proof {
                    all.lemma_filter_map_take_succ(f, i as int);
                }
                match mcp_server(&raw[i]) {
                    Some(c) => {
                        let ghost cv = c@;
                        out.push(c);
                        assert(items_view(out@) =~= before + seq![cv]);
                    },
                    None => {
                        assert(before + Seq::<JsonV>::empty() =~= before);
                    },
                }
                i = i + 1;
            }
            assert(all.take(raw.len() as int) =~= all);
        },
    }
    out
}

/// The models a payload offers and the one in use (see [`model_registry`]).
pub fn model_registry_payload(payload: &Json) -> (r: Option<(Vec<Json>, Option<String>)>)
    ensures
        match r {
            Some(found) => model_registry(payload@) == Some(
                (items_view(found.0@), opt_text(found.1)),
            ),
            None => model_registry(payload@) is None,
        },
{
    let node = match payload.get("models") {
        Some(m) => Some(m),
        None => match payload.get("_meta") {
            Some(meta) => meta.get("models"),
            None => None,
        },
    };
    let node = match node {
        Some(n) => n,
        None => {
            return None;
        },
    };
    let current = clean(node.get("currentModelId"));
    let mut out: Vec<Json> = Vec::new();
    let ghost f = |e: JsonV| model_entry(e);
    match node.get_array("availableModels") {
        None => {
            assert(items_view(out@) =~= Seq::empty());
            assert(Seq::<JsonV>::empty().filter_map(f) =~= Seq::empty());
        },
        Some(raw) => {
            let ghost all = items_view(raw@);
            let mut i: usize = 0;
            assert(all.take(0).filter_map(f) =~= Seq::empty());
            assert(items_view(out@) =~= Seq::empty());
            while i < raw.len()
                invariant
                    0 <= i <= raw.len(),
                    all == items_view(raw@),
                    f == (|e: JsonV| model_entry(e)),
                    items_view(out@) == all.take(i as int).filter_map(f),
                decreases raw.len() - i,
            {
                let ghost before = items_view(out@);
                proof {
                    all.lemma_filter_map_take_succ(f, i as int);
                }
                match model(&raw[i]) {
                    Some(c) => {
                        let ghost cv = c@;
                        out.push(c);
                        assert(items_view(out@) =~= before + seq![cv]);
                    },
                    None => {
                        assert(before + Seq::<JsonV>::empty() =~= before);
                    },
                }
                i = i + 1;
            }
            assert(all.take(raw.len() as int) =~= all);
        },
    }
    if out.len() == 0 && current.is_none() {
        None
    } else {
        Some((out, current))
    }
}

/// The `command-registry` event of a payload: one, unless the payload names
/// neither a command nor an MCP server.
pub open spec fn command_registry_events(agent_id: Seq<char>, payload: JsonV) -> Seq<AppEventV> {
    let commands = command_entries(payload);
    let mcp_servers = mcp_entries(payload);
    if commands.len() == 0 && mcp_servers.len() == 0 {
        Seq::empty()
    } else {
        seq![crate::events::command_registry(agent_id, commands, mcp_servers)]
    }
}

/// The `command-registry` events of a session update: that of the update
/// itself, then that of its member `content`.
pub open spec fn update_registry_events(agent_id: Seq<char>, update: JsonV) -> Seq<AppEventV> {
    command_registry_events(agent_id, update) + match update.get("content"@) {
        Some(content) => command_registry_events(agent_id, content),
        None => Seq::empty(),
    }
}

/// The `model-registry` event of a payload, if it describes models.
pub open spec fn model_registry_events(agent_id: Seq<char>, payload: JsonV) -> Seq<AppEventV> {
    match model_registry(payload) {
        Some(found) => seq![crate::events::model_registry(agent_id, found.0, found.1)],
        None => Seq::empty(),
    }
}

/// The registry events of the result that establishes a session.
pub open spec fn session_registry_events(agent_id: Seq<char>, result: Option<JsonV>) -> Seq<
    AppEventV,
> {
    match result {
        Some(r) => command_registry_events(agent_id, r) + model_registry_events(agent_id, r),
        None => Seq::empty(),
    }
}

/// Appends the `command-registry` event of a payload, if it has one.
pub fn emit_command_registry_payload(events: &mut Vec<AppEvent>, agent_id: &str, payload: &Json)
    ensures
        events_view(final(events)@) == events_view(old(events)@) + command_registry_events(
            agent_id@,
            payload@,
        ),
{
    let ghost before = events_view(events@);
    let commands = normalized_command_entries(payload);
    let mcp_servers = normalized_mcp_entries(payload);
    if commands.len() == 0 && mcp_servers.len() == 0 {
        assert(before + Seq::<AppEventV>::empty() =~= before);
        return ;
    }
    let event = AppEvent::command_registry(agent_id, commands, mcp_servers);
    let ghost ev = event@;
    events.push(event);
    assert(events_view(events@) =~= before + seq![ev]);
}

/// Appends the `command-registry` events of a session update.
pub fn emit_command_registry_from_update(events: &mut Vec<AppEvent>, agent_id: &str, update: &Json)
    ensures
        events_view(final(events)@) == events_view(old(events)@) + update_registry_events(
            agent_id@,
            update@,
        ),
{
    let ghost before = events_view(events@);
    emit_command_registry_payload(events, agent_id, update);
    match update.get("content") {
        Some(content) => {
            emit_command_registry_payload(events, agent_id, content);
        },
        None => {},
    }
    assert(events_view(events@) =~= before + update_registry_events(agent_id@, update@));
}

/// Appends the `model-registry` event of a payload, if it has one.
pub fn emit_model_registry_payload(events: &mut Vec<AppEvent>, agent_id: &str, payload: &Json)
    ensures
        events_view(final(events)@) == events_view(old(events)@) + model_registry_events(
            agent_id@,
            payload@,
        ),
{
    let ghost before = events_view(events@);
    match model_registry_payload(payload) {
        None => {
            assert(before + Seq::<AppEventV>::empty() =~= before);
        },
        Some(found) => {
            let event = AppEvent::model_registry(agent_id, found.0, found.1);
            let ghost ev = event@;
            events.push(event);
            assert(events_view(events@) =~= before + seq![ev]);
        },
    }
}

} // verus!
