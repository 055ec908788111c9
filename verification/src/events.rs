//! What the adapter tells the application: named events, each with a JSON
//! payload that carries the agent's id.

use vstd::prelude::*;
use crate::json::{Json, JsonV, items_view};

verus! {

/// An event for the application's event bus.
#[derive(Debug, PartialEq, Eq)]
pub struct AppEvent {
    pub name: String,
    pub payload: Json,
}

/// The mathematical value of an [`AppEvent`].
pub struct AppEventV {
    pub name: Seq<char>,
    pub payload: JsonV,
}

impl View for AppEvent {
    type V = AppEventV;

    open spec fn view(&self) -> AppEventV {
        AppEventV { name: self.name@, payload: self.payload@ }
    }
}

/// The views of a list of events.
pub open spec fn events_view(events: Seq<AppEvent>) -> Seq<AppEventV> {
    Seq::new(events.len(), |i: int| events[i]@)
}

/// An optional text as JSON: the string, or `null`.
pub open spec fn text_or_null(text: Option<Seq<char>>) -> JsonV {
    match text {
        Some(t) => JsonV::Str(t),
        None => JsonV::Null,
    }
}

/// `stream-message`: a piece of text for the conversation, of the given kind
/// (`content`, `thought`, `system` or `plan`).
pub open spec fn stream_message(agent_id: Seq<char>, content: Seq<char>, kind: Seq<char>) -> AppEventV {
    AppEventV {
        name: "stream-message"@,
        payload: JsonV::object().with("agentId"@, JsonV::Str(agent_id)).with(
            "content"@,
            JsonV::Str(content),
        ).with("type"@, JsonV::Str(kind)),
    }
}

/// `agent-error`: something went wrong that the user should see.
pub open spec fn agent_error(agent_id: Seq<char>, error: Seq<char>) -> AppEventV {
    AppEventV {
        name: "agent-error"@,
        payload: JsonV::object().with("agentId"@, JsonV::Str(agent_id)).with(
            "error"@,
            JsonV::Str(error),
        ),
    }
}

/// `task-finish`: a prompt turn ended, for the given reason.
pub open spec fn task_finish(agent_id: Seq<char>, reason: Seq<char>) -> AppEventV {
    AppEventV {
        name: "task-finish"@,
        payload: JsonV::object().with("agentId"@, JsonV::Str(agent_id)).with(
            "reason"@,
            JsonV::Str(reason),
        ),
    }
}

/// `tool-call`: the state of one tool call.
pub open spec fn tool_call(agent_id: Seq<char>, call: JsonV) -> AppEventV {
    AppEventV {
        name: "tool-call"@,
        payload: JsonV::object().with("agentId"@, JsonV::Str(agent_id)).with(
            "toolCalls"@,
            JsonV::Array(seq![call]),
        ),
    }
}

/// `command-registry`: the slash commands and MCP servers on offer.
pub open spec fn command_registry(
    agent_id: Seq<char>,
    commands: Seq<JsonV>,
    mcp_servers: Seq<JsonV>,
) -> AppEventV {
    AppEventV {
        name: "command-registry"@,
        payload: JsonV::object().with("agentId"@, JsonV::Str(agent_id)).with(
            "commands"@,
            JsonV::Array(commands),
        ).with("mcpServers"@, JsonV::Array(mcp_servers)),
    }
}

/// `model-registry`: the models on offer and the one in use.
pub open spec fn model_registry(
    agent_id: Seq<char>,
    models: Seq<JsonV>,
    current_model: Option<Seq<char>>,
) -> AppEventV {
    AppEventV {
        name: "model-registry"@,
        payload: JsonV::object().with("agentId"@, JsonV::Str(agent_id)).with(
            "models"@,
            JsonV::Array(models),
        ).with("currentModel"@, text_or_null(current_model)),
    }
}

impl AppEvent {
    /// A piece of text for the conversation.
    pub fn stream_message(agent_id: &str, content: &str, kind: &str) -> (e: AppEvent)
        ensures
            e@ == stream_message(agent_id@, content@, kind@),
    {
        AppEvent {
            name: "stream-message".to_owned(),
            payload: Json::object().with("agentId", Json::text(agent_id)).with(
                "content",
                Json::text(content),
            ).with("type", Json::text(kind)),
        }
    }

    /// An error that the user should see.
    pub fn agent_error(agent_id: &str, error: &str) -> (e: AppEvent)
        ensures
            e@ == agent_error(agent_id@, error@),
    {
        AppEvent {
            name: "agent-error".to_owned(),
            payload: Json::object().with("agentId", Json::text(agent_id)).with(
                "error",
                Json::text(error),
            ),
        }
    }

    /// The end of a prompt turn.
    pub fn task_finish(agent_id: &str, reason: &str) -> (e: AppEvent)
        ensures
            e@ == task_finish(agent_id@, reason@),
    {
        AppEvent {
            name: "task-finish".to_owned(),
            payload: Json::object().with("agentId", Json::text(agent_id)).with(
                "reason",
                Json::text(reason),
            ),
        }
    }

    /// The state of one tool call.
    pub fn tool_call(agent_id: &str, call: Json) -> (e: AppEvent)
        ensures
            e@ == tool_call(agent_id@, call@),
    {
        let ghost c = call@;
        let calls: Vec<Json> = vec![call];
        proof {
            assert(items_view(calls@) =~= seq![c]);
        }
        AppEvent {
            name: "tool-call".to_owned(),
            payload: Json::object().with("agentId", Json::text(agent_id)).with(
                "toolCalls",
                Json::list(calls),
            ),
        }
    }

    /// The slash commands and MCP servers on offer.
    pub fn command_registry(agent_id: &str, commands: Vec<Json>, mcp_servers: Vec<Json>) -> (e:
        AppEvent)
        ensures
            e@ == command_registry(agent_id@, items_view(commands@), items_view(mcp_servers@)),
    {
        AppEvent {
            name: "command-registry".to_owned(),
            payload: Json::object().with("agentId", Json::text(agent_id)).with(
                "commands",
                Json::list(commands),
            ).with("mcpServers", Json::list(mcp_servers)),
        }
    }

    /// The models on offer and the one in use.
    pub fn model_registry(agent_id: &str, models: Vec<Json>, current_model: Option<String>) -> (e:
        AppEvent)
        ensures
            e@ == model_registry(
                agent_id@,
                items_view(models@),
                crate::text::opt_text(current_model),
            ),
    {
        let current = match current_model {
            Some(m) => Json::Str(m),
            None => Json::Null,
        };
        AppEvent {
            name: "model-registry".to_owned(),
            payload: Json::object().with("agentId", Json::text(agent_id)).with(
                "models",
                Json::list(models),
            ).with("currentModel", current),
        }
    }
}

} // verus!
