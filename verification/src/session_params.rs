//! Parameters of the session calls the adapter makes.

use vstd::prelude::*;
use crate::json::{Json, JsonV};

verus! {

/// `{permission_mode: "yolo"}`: the agent asks nobody before it acts.
pub open spec fn settings_tree() -> JsonV {
    JsonV::object().with("permission_mode"@, JsonV::Str("yolo"@))
}

/// Parameters of `initialize`: protocol version 1, the client reads and
/// writes text files, no MCP servers.
pub open spec fn initialize_params() -> JsonV {
    JsonV::object().with("protocolVersion"@, JsonV::integer(1)).with(
        "clientCapabilities"@,
        JsonV::object().with(
            "fs"@,
            JsonV::object().with("readTextFile"@, JsonV::Bool(true)).with(
                "writeTextFile"@,
                JsonV::Bool(true),
            ),
        ),
    ).with("mcpServers"@, JsonV::Array(Seq::empty()))
}

/// Parameters of `session/new` for a workspace.
pub open spec fn session_new_params(workspace_path: Seq<char>) -> JsonV {
    JsonV::object().with("cwd"@, JsonV::Str(workspace_path)).with(
        "mcpServers"@,
        JsonV::Array(Seq::empty()),
    ).with("settings"@, settings_tree())
}

/// Parameters of `session/load`: the workspace and the session to resume.
pub open spec fn session_load_params(workspace_path: Seq<char>, session_id: Seq<char>) -> JsonV {
    JsonV::object().with("cwd"@, JsonV::Str(workspace_path)).with(
        "sessionId"@,
        JsonV::Str(session_id),
    ).with("mcpServers"@, JsonV::Array(Seq::empty())).with("settings"@, settings_tree())
}

/// Parameters of `session/prompt`: the session and one block of text.
pub open spec fn prompt_params(session_id: Seq<char>, prompt: Seq<char>) -> JsonV {
    JsonV::object().with("sessionId"@, JsonV::Str(session_id)).with(
        "prompt"@,
        JsonV::Array(
            seq![JsonV::object().with("type"@, JsonV::Str("text"@)).with("text"@, JsonV::Str(prompt))],
        ),
    )
}

/// Parameters of `session/cancel`.
pub open spec fn cancel_params(session_id: Seq<char>) -> JsonV {
    JsonV::object().with("sessionId"@, JsonV::Str(session_id))
}

/// Parameters of `session/set_model`.
pub open spec fn set_model_params(session_id: Seq<char>, model: Seq<char>) -> JsonV {
    JsonV::object().with("sessionId"@, JsonV::Str(session_id)).with("modelId"@, JsonV::Str(model))
}

fn settings() -> (j: Json)
    ensures
        j@ == settings_tree(),
{
    Json::object().with("permission_mode", Json::text("yolo"))
}

/// Parameters of `initialize`.
pub fn build_initialize_params() -> (j: Json)
    ensures
        j@ == initialize_params(),
{
    let fs = Json::object().with("readTextFile", Json::Bool(true)).with(
        "writeTextFile",
        Json::Bool(true),
    );
    Json::object().with("protocolVersion", Json::integer(1)).with(
        "clientCapabilities",
        Json::object().with("fs", fs),
    ).with("mcpServers", Json::array())
}

/// Parameters of `session/new`.
pub fn build_session_new_params(workspace_path: &str) -> (j: Json)
    ensures
        j@ == session_new_params(workspace_path@),
{
    Json::object().with("cwd", Json::text(workspace_path)).with("mcpServers", Json::array()).with(
        "settings",
        settings(),
    )
}

/// Parameters for a new session that is to carry a given id: the same
/// members as for loading one.
pub fn build_session_new_params_with_id(workspace_path: &str, session_id: &str) -> (j: Json)
    ensures
        j@ == session_load_params(workspace_path@, session_id@),
{
    build_session_load_params(workspace_path, session_id)
}

/// Parameters of `session/load`.
pub fn build_session_load_params(workspace_path: &str, session_id: &str) -> (j: Json)
    ensures
        j@ == session_load_params(workspace_path@, session_id@),
{
    Json::object().with("cwd", Json::text(workspace_path)).with(
        "sessionId",
        Json::text(session_id),
    ).with("mcpServers", Json::array()).with("settings", settings())
}

/// Parameters of `session/prompt`.
pub fn build_prompt_params(session_id: &str, prompt: &str) -> (j: Json)
    ensures
        j@ == prompt_params(session_id@, prompt@),
{
    let block = Json::object().with("type", Json::text("text")).with("text", Json::text(prompt));
    let ghost b = block@;
    let blocks: Vec<Json> = vec![block];
    proof {
        assert(crate::json::items_view(blocks@) =~= seq![b]);
    }
    Json::object().with("sessionId", Json::text(session_id)).with("prompt", Json::list(blocks))
}

/// Parameters of `session/cancel`.
pub fn build_cancel_params(session_id: &str) -> (j: Json)
    ensures
        j@ == cancel_params(session_id@),
{
    Json::object().with("sessionId", Json::text(session_id))
}

/// Parameters of `session/set_model`.
pub fn build_set_model_params(session_id: &str, model: &str) -> (j: Json)
    ensures
        j@ == set_model_params(session_id@, model@),
{
    Json::object().with("sessionId", Json::text(session_id)).with("modelId", Json::text(model))
}

} // verus!
