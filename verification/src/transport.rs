//! The edge of the socket: where a connection goes to, what a frame that
//! came in means, and how a failure is worded.

use vstd::prelude::*;
use vstd::utf8::{decode_utf8, valid_utf8};
use crate::protocol::{Event, EventV};
use crate::text::concat;

verus! {

/// `url::Url`, as the parser hands it out.
#[verifier::external_type_specification]
#[verifier::external_body]
pub struct ExUrl(url::Url);

/// `url::ParseError`, as the parser reports it.
#[verifier::external_type_specification]
#[verifier::external_body]
pub struct ExUrlParseError(url::ParseError);

/// What `url::Url::parse` makes of a text: the URL it reads, as that URL is
/// written out, or how the error it reports describes itself.
pub uninterp spec fn url_checked(text: Seq<char>) -> Result<Seq<char>, Seq<char>>;

/// A `url::Url` written out (`Url::as_str`).
pub uninterp spec fn url_text(url: url::Url) -> Seq<char>;

/// How a `url::ParseError` describes itself (its `Display` text).
pub uninterp spec fn parse_error_text(error: url::ParseError) -> Seq<char>;

/// Calls `url::Url::parse`, whose result is a function of the text alone.
#[verifier::external_body]
fn parse_url(text: &str) -> (r: Result<url::Url, url::ParseError>)
    ensures
        match r {
            Ok(url) => url_checked(text@) == Ok::<Seq<char>, Seq<char>>(url_text(url)),
            Err(error) => url_checked(text@) == Err::<Seq<char>, Seq<char>>(
                parse_error_text(error),
            ),
        },
{
    url::Url::parse(text)
}

/// `Url::as_str`: the URL written out.
#[verifier::external_body]
fn write_url(url: &url::Url) -> (text: String)
    ensures
        text@ == url_text(*url),
{
    url.as_str().to_owned()
}

/// The `Display` text of a `url::ParseError`.
#[verifier::external_body]
fn describe_url_error(error: &url::ParseError) -> (text: String)
    ensures
        text@ == parse_error_text(*error),
{
    error.to_string()
}

/// `String::from_utf8`: the text that the bytes encode, where they are
/// valid UTF-8; otherwise what the standard library says is wrong with them.
#[verifier::external_body]
fn utf8_text(bytes: Vec<u8>) -> (r: Result<String, String>)
    ensures
        match r {
            Ok(text) => valid_utf8(bytes@) && text@ == decode_utf8(bytes@),
            Err(_) => !valid_utf8(bytes@),
        },
{
    String::from_utf8(bytes).map_err(|e| e.to_string())
}

/// The address to connect to: the URL that `url` parses to, written out; or
/// why it is none.
pub open spec fn target_of(url: Seq<char>) -> Result<Seq<char>, Seq<char>> {
    match url_checked(url) {
        Ok(target) => Ok(target),
        Err(reason) => Err("Invalid URL: "@ + reason),
    }
}

/// Checks the address to connect to, and gives it as the URL library writes
/// it.
pub fn connect_target(url: &str) -> (r: Result<String, String>)
    ensures
        crate::text::result_text(r) == target_of(url@),
{
    match parse_url(url) {
        Ok(target) => Ok(write_url(&target)),
        Err(error) => Err(concat("Invalid URL: ", describe_url_error(&error).as_str())),
    }
}

/// Why a socket could not be opened, as the adapter is told.
pub fn connection_failure(reason: &str) -> (message: String)
    ensures
        message@ == "WebSocket connection failed: "@ + reason@,
{
    concat("WebSocket connection failed: ", reason)
}

/// Why a frame could not be written, as the adapter is told.
pub fn send_failure(reason: &str) -> (message: String)
    ensures
        message@ == "Failed to send message: "@ + reason@,
{
    concat("Failed to send message: ", reason)
}

/// What a receive came back with.
#[derive(Debug, PartialEq, Eq)]
pub enum Incoming {
    Text(String),
    Binary(Vec<u8>),
    Ping,
    Pong,
    Close,
    /// A raw frame, which a reader does not hand out.
    Frame,
    /// The stream reported an error.
    Failed(String),
    /// The stream has ended.
    Ended,
    /// Nothing came within the time a receive waits.
    TimedOut,
}

/// What a receive means for the adapter.
#[derive(Debug, PartialEq, Eq)]
pub enum Received {
    /// The text of a frame.
    Text(String),
    /// The socket is closed.
    Closed,
    /// Nothing came in time: the connection is idle, neither data nor
    /// closure.
    Idle,
}

/// What a receive means for the adapter: a text frame is its text; a binary
/// frame is the text it encodes, and fails where it is no UTF-8; a ping and
/// a pong are an empty text; a close frame, a raw frame and the end of the
/// stream close the socket; an error of the stream fails; and where nothing
/// came in time the connection is idle.
pub open spec fn received(incoming: Incoming, out: Result<Received, String>) -> bool {
    match incoming {
        Incoming::Text(text) => out == Ok::<Received, String>(Received::Text(text)),
        Incoming::Binary(bytes) => if valid_utf8(bytes@) {
            out matches Ok(Received::Text(text)) && text@ == decode_utf8(bytes@)
        } else {
            out matches Err(message) && "Invalid UTF-8: "@.is_prefix_of(message@)
        },
        Incoming::Ping | Incoming::Pong => out matches Ok(Received::Text(text)) && text@.len()
            == 0,
        Incoming::Close | Incoming::Frame | Incoming::Ended => out == Ok::<Received, String>(
            Received::Closed,
        ),
        Incoming::Failed(reason) => out matches Err(message) && message@ == "WebSocket error: "@
            + reason@,
        Incoming::TimedOut => out == Ok::<Received, String>(Received::Idle),
    }
}

/// Says what a receive means for the adapter: a text, the end of the
/// connection, an idle tick, or a failure.
pub fn receive_message(incoming: Incoming) -> (out: Result<Received, String>)
    ensures
        received(incoming, out),
{
    match incoming {
        Incoming::Text(text) => Ok(Received::Text(text)),
        Incoming::Binary(bytes) => match utf8_text(bytes) {
            Ok(text) => Ok(Received::Text(text)),
            Err(reason) => {
                let message = concat("Invalid UTF-8: ", reason.as_str());
                proof {
                    assert(message@.subrange(0, "Invalid UTF-8: "@.len() as int)
                        =~= "Invalid UTF-8: "@);
                }
                Err(message)
            },
        },
        Incoming::Ping | Incoming::Pong => Ok(Received::Text(String::new())),
        Incoming::Close | Incoming::Frame | Incoming::Ended => Ok(Received::Closed),
        Incoming::Failed(reason) => Err(concat("WebSocket error: ", reason.as_str())),
        Incoming::TimedOut => Ok(Received::Idle),
    }
}

/// The event that the outcome of a receive is for the adapter.
pub open spec fn receive_event(out: Result<Received, String>) -> EventV {
    match out {
        Ok(Received::Text(text)) => EventV::Frame(text@),
        Ok(Received::Closed) => EventV::SocketClosed,
        Ok(Received::Idle) => EventV::Idle,
        Err(message) => EventV::ReceiveFailed(message@),
    }
}

/// Turns the outcome of a receive into the event for the adapter.
pub fn received_event(out: Result<Received, String>) -> (event: Event)
    ensures
        event@ == receive_event(out),
{
    match out {
        Ok(Received::Text(text)) => Event::Frame(text),
        Ok(Received::Closed) => Event::SocketClosed,
        Ok(Received::Idle) => Event::Idle,
        Err(message) => Event::ReceiveFailed(message),
    }
}

} // verus!
