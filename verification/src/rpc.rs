//! JSON-RPC 2.0 framing: request ids, the messages the adapter writes, and the
//! parameters of the calls it makes.

use vstd::prelude::*;
use crate::json::{Json, JsonV, rendered};

verus! {

/// Hands out the current value of the per-connection counter as the id of the
/// next request and advances the counter by one.
pub fn next_rpc_id(counter: &mut i64) -> (id: i64)
    requires
        *old(counter) < i64::MAX,
    ensures
        id == *old(counter),
        *final(counter) == *old(counter) + 1,
{
    let id: i64 = *counter;
    *counter = *counter + 1;
    id
}

/// A request: `{jsonrpc, id, method, params}`.
pub open spec fn request_tree(id: i64, method: Seq<char>, params: JsonV) -> JsonV {
    JsonV::object().with("jsonrpc"@, JsonV::Str("2.0"@)).with("id"@, JsonV::integer(id)).with(
        "method"@,
        JsonV::Str(method),
    ).with("params"@, params)
}

/// A successful response: `{jsonrpc, id, result}`.
pub open spec fn result_tree(id: i64, result: JsonV) -> JsonV {
    JsonV::object().with("jsonrpc"@, JsonV::Str("2.0"@)).with("id"@, JsonV::integer(id)).with(
        "result"@,
        result,
    )
}

/// An error response: `{jsonrpc, id, error: {code, message}}`.
pub open spec fn error_tree(id: i64, code: i64, message: Seq<char>) -> JsonV {
    JsonV::object().with("jsonrpc"@, JsonV::Str("2.0"@)).with("id"@, JsonV::integer(id)).with(
        "error"@,
        JsonV::object().with("code"@, JsonV::integer(code)).with("message"@, JsonV::Str(message)),
    )
}

/// The text of the request `method(params)` with the given id.
pub fn build_rpc_request(id: i64, method: &str, params: Json) -> (text: String)
    ensures
        text@ == rendered(request_tree(id, method@, params@)),
{
    Json::object().with("jsonrpc", Json::text("2.0")).with("id", Json::integer(id)).with(
        "method",
        Json::text(method),
    ).with("params", params).render()
}

/// The text of the response that answers request `id` with `result`.
pub fn build_rpc_result(id: i64, result: Json) -> (text: String)
    ensures
        text@ == rendered(result_tree(id, result@)),
{
    Json::object().with("jsonrpc", Json::text("2.0")).with("id", Json::integer(id)).with(
        "result",
        result,
    ).render()
}

/// The text of the response that answers request `id` with an error.
pub fn build_rpc_error(id: i64, code: i64, message: &str) -> (text: String)
    ensures
        text@ == rendered(error_tree(id, code, message@)),
{
    let error = Json::object().with("code", Json::integer(code)).with(
        "message",
        Json::text(message),
    );
    Json::object().with("jsonrpc", Json::text("2.0")).with("id", Json::integer(id)).with(
        "error",
        error,
    ).render()
}

/// The id of a message: its member `id`, read as an integer.
pub open spec fn rpc_id(message: JsonV) -> Option<i64> {
    match message.get("id"@) {
        Some(id) => id.as_id(),
        None => None,
    }
}

/// Reads the id of a message. A number that is an integer in the `i64` range
/// gives that integer; a larger integer gives nothing; a number with a
/// fraction gives its value cut to an integer. A message without `id`, or
/// with one that is no number, has no id.
pub fn parse_rpc_id(message: &Json) -> (id: Option<i64>)
    ensures
        id == rpc_id(message@),
{
    match message.get("id") {
        Some(id) => id.as_id(),
        None => None,
    }
}

/// A message that came in, by what it is.
#[derive(Debug, PartialEq, Eq)]
pub enum Inbound<'a> {
    /// A request of the agent, which is to be answered under its id.
    Request { method: &'a str, id: i64, params: Option<&'a Json> },
    /// A notification of the agent, which is not answered.
    Notification { method: &'a str, params: Option<&'a Json> },
    /// The answer to a request of ours.
    Response { id: i64, result: Option<&'a Json>, error: Option<&'a Json> },
    /// Anything else.
    Other,
}

/// The mathematical value of an [`Inbound`].
pub enum InboundV {
    Request { method: Seq<char>, id: i64, params: Option<JsonV> },
    Notification { method: Seq<char>, params: Option<JsonV> },
    Response { id: i64, result: Option<JsonV>, error: Option<JsonV> },
    Other,
}

impl<'a> View for Inbound<'a> {
    type V = InboundV;

    open spec fn view(&self) -> InboundV {
        match self {
            Inbound::Request { method, id, params } => InboundV::Request {
                method: method@,
                id: *id,
                params: crate::json::opt_view(*params),
            },
            Inbound::Notification { method, params } => InboundV::Notification {
                method: method@,
                params: crate::json::opt_view(*params),
            },
            Inbound::Response { id, result, error } => InboundV::Response {
                id: *id,
                result: crate::json::opt_view(*result),
                error: crate::json::opt_view(*error),
            },
            Inbound::Other => InboundV::Other,
        }
    }
}

/// What a message is: with a string `method` it comes from the agent, as a
/// request where it has an id and as a notification where it has none;
/// without `method` it is the answer to a request of ours, if it has an id.
pub open spec fn inbound_of(message: JsonV) -> InboundV {
    match message.get_str("method"@) {
        Some(method) => match rpc_id(message) {
            Some(id) => InboundV::Request { method, id, params: message.get("params"@) },
            None => InboundV::Notification { method, params: message.get("params"@) },
        },
        None => match rpc_id(message) {
            Some(id) => InboundV::Response {
                id,
                result: message.get("result"@),
                error: message.get("error"@),
            },
            None => InboundV::Other,
        },
    }
}

/// Tells what a message is.
pub fn classify<'a>(message: &'a Json) -> (inbound: Inbound<'a>)
    ensures
        inbound@ == inbound_of(message@),
{
    match message.get_str("method") {
        Some(method) => match parse_rpc_id(message) {
            Some(id) => Inbound::Request { method, id, params: message.get("params") },
            None => Inbound::Notification { method, params: message.get("params") },
        },
        None => match parse_rpc_id(message) {
            Some(id) => Inbound::Response {
                id,
                result: message.get("result"),
                error: message.get("error"),
            },
            None => Inbound::Other,
        },
    }
}

} // verus!
