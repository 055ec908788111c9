//! Requests that the agent makes of the client: permission prompts, file
//! access, and the agent's own questions. Each is answered over the same
//! socket; reading and writing the file itself is left to the caller.

use vstd::prelude::*;
use crate::json::{Json, JsonV, rendered};
use crate::rpc::{build_rpc_error, build_rpc_result, error_tree, result_tree};
use crate::text::{concat, str_eq};

verus! {

/// JSON-RPC error code: the method does not exist.
pub const METHOD_NOT_FOUND: i64 = -32601;

/// JSON-RPC error code: a parameter is missing or of the wrong kind.
pub const INVALID_PARAMS: i64 = -32602;

/// JSON-RPC error code: the request could not be carried out.
pub const INTERNAL_ERROR: i64 = -32603;

/// What is to be done about a request of the agent.
#[derive(Debug, PartialEq, Eq)]
pub enum Callback {
    /// Answer at once with this text.
    Reply(String),
    /// Read the text file at `path`, then answer with [`read_file_reply`].
    ReadFile { path: String, session_id: String },
    /// Write `content` to the file at `path`, then answer with
    /// [`write_file_reply`].
    WriteFile { path: String, content: String },
}

/// The mathematical value of a [`Callback`].
pub enum CallbackV {
    Reply(Seq<char>),
    ReadFile { path: Seq<char>, session_id: Seq<char> },
    WriteFile { path: Seq<char>, content: Seq<char> },
}

impl View for Callback {
    type V = CallbackV;

    open spec fn view(&self) -> CallbackV {
        match self {
            Callback::Reply(t) => CallbackV::Reply(t@),
            Callback::ReadFile { path, session_id } => CallbackV::ReadFile {
                path: path@,
                session_id: session_id@,
            },
            Callback::WriteFile { path, content } => CallbackV::WriteFile {
                path: path@,
                content: content@,
            },
        }
    }
}

/// The outcome that grants a permission request once.
pub open spec fn allow_once() -> JsonV {
    JsonV::object().with(
        "outcome"@,
        JsonV::object().with("outcome"@, JsonV::Str("selected"@)).with(
            "optionId"@,
            JsonV::Str("allow_once"@),
        ),
    )
}

/// The string member `key` of optional parameters.
pub open spec fn param(params: Option<JsonV>, key: Seq<char>) -> Option<Seq<char>> {
    match params {
        Some(p) => p.get_str(key),
        None => None,
    }
}

/// What is done about the request `method(params)` with the given id:
/// permission is always granted once; a file is read or written where the
/// parameters name it, and refused with "invalid params" where they do not;
/// the agent's questions get no answers and its plan is approved; any other
/// method does not exist.
pub open spec fn server_request(request_id: i64, method: Seq<char>, params: Option<JsonV>) -> CallbackV {
    if method == "session/request_permission"@ {
        CallbackV::Reply(rendered(result_tree(request_id, allow_once())))
    } else if method == "fs/read_text_file"@ {
        match param(params, "path"@) {
            None => CallbackV::Reply(
                rendered(error_tree(request_id, INVALID_PARAMS, "Missing path"@)),
            ),
            Some(path) => CallbackV::ReadFile {
                path,
                session_id: match param(params, "sessionId"@) {
                    Some(s) => s,
                    None => Seq::empty(),
                },
            },
        }
    } else if method == "fs/write_text_file"@ {
        match param(params, "path"@) {
            None => CallbackV::Reply(
                rendered(error_tree(request_id, INVALID_PARAMS, "Missing path"@)),
            ),
            Some(path) => match param(params, "content"@) {
                None => CallbackV::Reply(
                    rendered(error_tree(request_id, INVALID_PARAMS, "Missing content"@)),
                ),
                Some(content) => CallbackV::WriteFile { path, content },
            },
        }
    } else if method == "_iflow/user/questions"@ {
        CallbackV::Reply(
            rendered(result_tree(request_id, JsonV::object().with("answers"@, JsonV::object()))),
        )
    } else if method == "_iflow/plan/exit"@ {
        CallbackV::Reply(
            rendered(result_tree(request_id, JsonV::object().with("approved"@, JsonV::Bool(true)))),
        )
    } else {
        CallbackV::Reply(rendered(error_tree(request_id, METHOD_NOT_FOUND, "Method not found"@)))
    }
}

fn string_param(params: Option<&Json>, key: &str) -> (r: Option<String>)
    ensures
        crate::text::opt_text(r) == param(crate::json::opt_view(params), key@),
{
    match params {
        Some(p) => match p.get_str(key) {
            Some(s) => Some(s.to_owned()),
            None => None,
        },
        None => None,
    }
}

/// Decides what is done about a request of the agent.
pub fn handle_server_request(request_id: i64, method: &str, params: Option<&Json>) -> (r: Callback)
    ensures
        r@ == server_request(request_id, method@, crate::json::opt_view(params)),
{
    if str_eq(method, "session/request_permission") {
        let outcome = Json::object().with("outcome", Json::text("selected")).with(
            "optionId",
            Json::text("allow_once"),
        );
        Callback::Reply(build_rpc_result(request_id, Json::object().with("outcome", outcome)))
    } else if str_eq(method, "fs/read_text_file") {
        match string_param(params, "path") {
            None => Callback::Reply(build_rpc_error(request_id, INVALID_PARAMS, "Missing path")),
            Some(path) => {
                let session_id = match string_param(params, "sessionId") {
                    Some(s) => s,
                    None => String::new(),
                };
                Callback::ReadFile { path, session_id }
            },
        }
    } else if str_eq(method, "fs/write_text_file") {
        match string_param(params, "path") {
            None => Callback::Reply(build_rpc_error(request_id, INVALID_PARAMS, "Missing path")),
            Some(path) => match string_param(params, "content") {
                None => Callback::Reply(
                    build_rpc_error(request_id, INVALID_PARAMS, "Missing content"),
                ),
                Some(content) => Callback::WriteFile { path, content },
            },
        }
    } else if str_eq(method, "_iflow/user/questions") {
        Callback::Reply(
            build_rpc_result(request_id, Json::object().with("answers", Json::object())),
        )
    } else if str_eq(method, "_iflow/plan/exit") {
        Callback::Reply(
            build_rpc_result(request_id, Json::object().with("approved", Json::Bool(true))),
        )
    } else {
        Callback::Reply(build_rpc_error(request_id, METHOD_NOT_FOUND, "Method not found"))
    }
}

/// The answer to `fs/read_text_file`: `{content, path, sessionId}` where the
/// file was read, and otherwise an internal error that carries the reason.
pub open spec fn read_reply(
    request_id: i64,
    path: Seq<char>,
    session_id: Seq<char>,
    outcome: Result<Seq<char>, Seq<char>>,
) -> Seq<char> {
    match outcome {
        Ok(content) => rendered(
            result_tree(
                request_id,
                JsonV::object().with("content"@, JsonV::Str(content)).with(
                    "path"@,
                    JsonV::Str(path),
                ).with("sessionId"@, JsonV::Str(session_id)),
            ),
        ),
        Err(reason) => rendered(
            error_tree(request_id, INTERNAL_ERROR, "Failed to read file: "@ + reason),
        ),
    }
}

/// The answer to `fs/write_text_file`: a `null` result where the file was
/// written, and otherwise an internal error that carries the reason.
pub open spec fn write_reply(request_id: i64, outcome: Result<(), Seq<char>>) -> Seq<char> {
    match outcome {
        Ok(_) => rendered(result_tree(request_id, JsonV::Null)),
        Err(reason) => rendered(
            error_tree(request_id, INTERNAL_ERROR, "Failed to write file: "@ + reason),
        ),
    }
}

/// The answer to `fs/read_text_file`, once the file was read or could not be.
pub fn read_file_reply(
    request_id: i64,
    path: &str,
    session_id: &str,
    outcome: Result<String, String>,
) -> (text: String)
    ensures
        text@ == read_reply(request_id, path@, session_id@, crate::text::result_text(outcome)),
{
    match outcome {
        Ok(content) => build_rpc_result(
            request_id,
            Json::object().with("content", Json::Str(content)).with("path", Json::text(path)).with(
                "sessionId",
                Json::text(session_id),
            ),
        ),
        Err(reason) => build_rpc_error(
            request_id,
            INTERNAL_ERROR,
            concat("Failed to read file: ", reason.as_str()).as_str(),
        ),
    }
}

/// The answer to `fs/write_text_file`, once the file was written or could
/// not be.
pub fn write_file_reply(request_id: i64, outcome: Result<(), String>) -> (text: String)
    ensures
        text@ == write_reply(
            request_id,
            match outcome {
                Ok(_) => Ok(()),
                Err(e) => Err(e@),
            },
        ),
{
    match outcome {
        Ok(_) => build_rpc_result(request_id, Json::Null),
        Err(reason) => build_rpc_error(
            request_id,
            INTERNAL_ERROR,
            concat("Failed to write file: ", reason.as_str()).as_str(),
        ),
    }
}

} // verus!
