//! Starting an agent and switching its model: what the desktop shell works
//! out before and after it touches a process or a channel.

use vstd::prelude::*;
use crate::models::{AgentInfo, AgentStatus, ConnectResponse};
use crate::text::{concat, concat3, decimal, to_chars, to_decimal, trim, trimmed};

verus! {

/// How long the shell lets a fresh agent start up before it connects, in
/// seconds.
pub const AGENT_START_DELAY_SECS: u64 = 3;

/// How long the shell waits for the answer to a model switch, in seconds.
pub const MODEL_SWITCH_TIMEOUT_SECS: u64 = 20;

/// The arguments an agent is started with: the protocol, the port, and the
/// model where one is named.
pub open spec fn arguments(port: u16, model: Option<Seq<char>>) -> Seq<Seq<char>> {
    let base = seq!["--experimental-acp"@, "--port"@, decimal(port as nat)];
    match model {
        Some(name) if trimmed(name).len() > 0 => base + seq!["--model"@, trimmed(name)],
        _ => base,
    }
}

/// The arguments to start an agent with.
pub fn agent_arguments(port: u16, model: Option<&str>) -> (args: Vec<String>)
    ensures
        crate::text::texts(args@) == arguments(
            port,
            match model {
                Some(name) => Some(name@),
                None => None,
            },
        ),
{
    let mut args: Vec<String> = Vec::new();
    args.push("--experimental-acp".to_owned());
    args.push("--port".to_owned());
    args.push(to_decimal(port as u64));
    proof {
        assert(crate::text::texts(args@) =~= seq![
            "--experimental-acp"@,
            "--port"@,
            decimal(port as nat),
        ]);
    }
    match model {
        Some(name) => {
            let chosen = trim(name);
            if chosen.as_str().unicode_len() > 0 {
                let ghost before = crate::text::texts(args@);
                let ghost cv = chosen@;
                args.push("--model".to_owned());
                args.push(chosen);
                proof {
                    assert(crate::text::texts(args@) =~= before + seq!["--model"@, cv]);
                }
            }
        },
        None => {},
    }
    args
}

/// The address at which an agent on this machine listens.
pub fn websocket_url(port: u16) -> (url: String)
    ensures
        url@ == "ws://127.0.0.1:"@ + decimal(port as nat) + "/acp"@,
{
    concat3("ws://127.0.0.1:", to_decimal(port as u64).as_str(), "/acp")
}

/// What the shell records of an agent it has started.
pub fn started_agent(agent_id: &str, workspace_path: &str, port: u16) -> (info: AgentInfo)
    ensures
        info.id@ == agent_id@,
        info.name@ == "iFlow"@,
        info.agent_type@ == "iflow"@,
        info.status == AgentStatus::Connected,
        info.workspace_path@ == workspace_path@,
        info.port == Some(port),
{
    AgentInfo {
        id: agent_id.to_owned(),
        name: "iFlow".to_owned(),
        agent_type: "iflow".to_owned(),
        status: AgentStatus::Connected,
        workspace_path: workspace_path.to_owned(),
        port: Some(port),
    }
}

/// The answer to a request to connect, once the agent runs.
pub fn started_response(port: u16) -> (response: ConnectResponse)
    ensures
        response.success,
        response.port == port,
        response.error is None,
{
    ConnectResponse { success: true, port, error: None }
}

/// The model that a switch asks for: its name, trimmed. A blank name is
/// refused.
pub fn requested_model(model: &str) -> (r: Result<String, String>)
    ensures
        match r {
            Ok(name) => name@ == trimmed(model@) && name@.len() > 0,
            Err(message) => trimmed(model@).len() == 0 && message@ == "Model name cannot be empty"@,
        },
{
    let name = trim(model);
    if name.as_str().unicode_len() == 0 {
        Err("Model name cannot be empty".to_owned())
    } else {
        Ok(name)
    }
}

/// How an attempt to switch the model of a running agent ended.
#[derive(Debug, Clone, PartialEq, Eq)]
pub enum SwitchReply {
    /// The agent switched; it now runs this model.
    Switched(String),
    /// The agent, or the adapter, refused.
    Refused(String),
    /// The reply channel was dropped unanswered.
    Abandoned,
    /// No answer came in time.
    TimedOut,
    /// The command could not be handed to the adapter.
    NotSent,
}

/// Whether the agent has to be started anew for the model to change: it has
/// unless it switched.
pub fn switch_needs_restart(reply: &SwitchReply) -> (restart: bool)
    ensures
        restart == !(reply is Switched),
{
    match reply {
        SwitchReply::Switched(_) => false,
        _ => true,
    }
}

/// What a command for an agent that the shell does not know is answered
/// with.
pub fn agent_not_found(agent_id: &str) -> (message: String)
    ensures
        message@ == "Agent "@ + agent_id@ + " not found"@,
{
    concat3("Agent ", agent_id, " not found")
}

} // verus!
