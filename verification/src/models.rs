//! The records the adapter and the desktop shell exchange.

use vstd::prelude::*;
use crate::json::{Json, JsonV};
use crate::events::text_or_null;
use crate::text::opt_text;

verus! {

/// What the shell knows of one agent.
#[derive(Debug, Clone)]
pub struct AgentInfo {
    pub id: String,
    pub name: String,
    pub agent_type: String,
    pub status: AgentStatus,
    pub workspace_path: String,
    pub port: Option<u16>,
}

/// Whether an agent is connected.
#[derive(Debug, Clone, Copy, PartialEq, Eq, Structural)]
pub enum AgentStatus {
    Disconnected,
    Connecting,
    Connected,
    Error,
}

/// One message of a conversation.
#[derive(Debug, Clone)]
pub struct Message {
    pub id: String,
    pub role: String,
    pub content: String,
    pub timestamp: String,
}

/// The state of one tool call, as a `tool_call` update reports it.
#[derive(Debug, PartialEq, Eq)]
pub struct ToolCall {
    pub id: String,
    pub name: String,
    pub status: String,
    pub arguments: Option<Json>,
    pub output: Option<String>,
}

/// The mathematical value of a [`ToolCall`].
pub struct ToolCallV {
    pub id: Seq<char>,
    pub name: Seq<char>,
    pub status: Seq<char>,
    pub arguments: Option<JsonV>,
    pub output: Option<Seq<char>>,
}

impl View for ToolCall {
    type V = ToolCallV;

    open spec fn view(&self) -> ToolCallV {
        ToolCallV {
            id: self.id@,
            name: self.name@,
            status: self.status@,
            arguments: match self.arguments {
                Some(a) => Some(a@),
                None => None,
            },
            output: opt_text(self.output),
        }
    }
}

impl ToolCallV {
    /// The call as JSON: `{id, name, status, arguments, output}`, with `null`
    /// for what is absent.
    pub open spec fn to_json(self) -> JsonV {
        JsonV::object().with("id"@, JsonV::Str(self.id)).with("name"@, JsonV::Str(self.name)).with(
            "status"@,
            JsonV::Str(self.status),
        ).with(
            "arguments"@,
            match self.arguments {
                Some(a) => a,
                None => JsonV::Null,
            },
        ).with("output"@, text_or_null(self.output))
    }
}

impl ToolCall {
    /// The call as JSON.
    pub fn to_json(self) -> (j: Json)
        ensures
            j@ == self@.to_json(),
    {
        let arguments = match self.arguments {
            Some(a) => a,
            None => Json::Null,
        };
        let output = match self.output {
            Some(o) => Json::Str(o),
            None => Json::Null,
        };
        Json::object().with("id", Json::Str(self.id)).with("name", Json::Str(self.name)).with(
            "status",
            Json::Str(self.status),
        ).with("arguments", arguments).with("output", output)
    }
}

/// One step of a plan.
#[derive(Debug, Clone)]
pub struct PlanEntry {
    pub content: String,
    pub status: String,
}

/// What the application asks of a running adapter. A model switch carries a
/// ticket, under which the adapter later reports how it went.
#[derive(Debug, Clone)]
pub enum ListenerCommand {
    UserPrompt(String),
    CancelPrompt,
    SetModel { model: String, ticket: u64 },
}

/// The mathematical value of a [`ListenerCommand`].
pub enum ListenerCommandV {
    UserPrompt(Seq<char>),
    CancelPrompt,
    SetModel { model: Seq<char>, ticket: u64 },
}

impl View for ListenerCommand {
    type V = ListenerCommandV;

    open spec fn view(&self) -> ListenerCommandV {
        match self {
            ListenerCommand::UserPrompt(p) => ListenerCommandV::UserPrompt(p@),
            ListenerCommand::CancelPrompt => ListenerCommandV::CancelPrompt,
            ListenerCommand::SetModel { model, ticket } => ListenerCommandV::SetModel {
                model: model@,
                ticket: *ticket,
            },
        }
    }
}

/// The answer to a request to connect an agent.
#[derive(Debug, Clone)]
pub struct ConnectResponse {
    pub success: bool,
    pub port: u16,
    pub error: Option<String>,
}

/// A model the user can pick.
#[derive(Debug, Clone, PartialEq, Eq)]
pub struct ModelOption {
    pub label: String,
    pub value: String,
}

} // verus!
