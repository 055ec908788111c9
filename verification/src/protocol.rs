//! The vocabulary between the session adapter and the task that drives it:
//! the operation the adapter asks for next, the event that reports how it
//! went, and the effects that need no answer.

use vstd::prelude::*;
use crate::events::{AppEvent, AppEventV};
use crate::models::{ListenerCommand, ListenerCommandV};

verus! {

/// Something the driver does for the adapter without reporting back.
#[derive(Debug, PartialEq, Eq)]
pub enum Effect {
    /// Hand the event to the application.
    Emit(AppEvent),
    /// Tell whoever asked for the model switch with this ticket how it went:
    /// the model now in use, or why it is not.
    Resolve { ticket: u64, result: Result<String, String> },
    /// Drop every reply channel that still waits, unanswered: the connection
    /// that carried the requests is gone.
    AbandonAll,
}

/// The mathematical value of an [`Effect`].
pub enum EffectV {
    Emit(AppEventV),
    Resolve { ticket: u64, result: Result<Seq<char>, Seq<char>> },
    AbandonAll,
}

impl View for Effect {
    type V = EffectV;

    open spec fn view(&self) -> EffectV {
        match self {
            Effect::Emit(e) => EffectV::Emit(e@),
            Effect::Resolve { ticket, result } => EffectV::Resolve {
                ticket: *ticket,
                result: match result {
                    Ok(t) => Ok(t@),
                    Err(e) => Err(e@),
                },
            },
            Effect::AbandonAll => EffectV::AbandonAll,
        }
    }
}

/// The views of a list of effects.
pub open spec fn effects_view(effects: Seq<Effect>) -> Seq<EffectV> {
    Seq::new(effects.len(), |i: int| effects[i]@)
}

/// The effects that emit the given events, one for one.
pub open spec fn emits(events: Seq<AppEventV>) -> Seq<EffectV> {
    Seq::new(events.len(), |i: int| EffectV::Emit(events[i]))
}

/// The one thing the driver is to do next. It answers with the event named
/// beside each.
#[derive(Debug, PartialEq, Eq)]
pub enum Operation {
    /// Drop any socket and open a new one: `Connected` or `ConnectFailed`.
    Connect,
    /// Wait for so many seconds, the pause between two attempts to connect:
    /// `DelayElapsed`.
    Delay { seconds: u64 },
    /// Write one text frame: `Sent` or `SendFailed`.
    Send(String),
    /// Read the text file at this path: `FileRead`.
    ReadFile(String),
    /// Write the content to the file at this path: `FileWritten`.
    WriteFile { path: String, content: String },
    /// Wait for a command or a frame, whichever comes first: `Command`,
    /// `ChannelClosed`, `Frame`, `SocketClosed` or `ReceiveFailed`. Where
    /// neither comes within so many seconds, report `Idle`.
    Poll { idle_after: u64 },
    /// End the task.
    Stop,
}

/// The mathematical value of an [`Operation`].
pub enum OperationV {
    Connect,
    Delay { seconds: u64 },
    Send(Seq<char>),
    ReadFile(Seq<char>),
    WriteFile { path: Seq<char>, content: Seq<char> },
    Poll { idle_after: u64 },
    Stop,
}

impl View for Operation {
    type V = OperationV;

    open spec fn view(&self) -> OperationV {
        match self {
            Operation::Connect => OperationV::Connect,
            Operation::Delay { seconds } => OperationV::Delay { seconds: *seconds },
            Operation::Send(t) => OperationV::Send(t@),
            Operation::ReadFile(p) => OperationV::ReadFile(p@),
            Operation::WriteFile { path, content } => OperationV::WriteFile {
                path: path@,
                content: content@,
            },
            Operation::Poll { idle_after } => OperationV::Poll { idle_after: *idle_after },
            Operation::Stop => OperationV::Stop,
        }
    }
}

/// How the last operation went.
#[derive(Debug)]
pub enum Event {
    Connected,
    ConnectFailed(String),
    DelayElapsed,
    Sent,
    SendFailed(String),
    /// The file's content, or why it could not be read.
    FileRead(Result<String, String>),
    /// Why the file could not be written, if it could not.
    FileWritten(Result<(), String>),
    Command(ListenerCommand),
    /// The application dropped its end of the command channel.
    ChannelClosed,
    /// A frame's text; empty for a ping or a pong.
    Frame(String),
    /// Neither a command nor a frame came in time.
    Idle,
    SocketClosed,
    ReceiveFailed(String),
}

/// The mathematical value of an [`Event`].
pub enum EventV {
    Connected,
    ConnectFailed(Seq<char>),
    DelayElapsed,
    Sent,
    SendFailed(Seq<char>),
    FileRead(Result<Seq<char>, Seq<char>>),
    FileWritten(Result<(), Seq<char>>),
    Command(ListenerCommandV),
    ChannelClosed,
    Frame(Seq<char>),
    Idle,
    SocketClosed,
    ReceiveFailed(Seq<char>),
}

impl View for Event {
    type V = EventV;

    open spec fn view(&self) -> EventV {
        match self {
            Event::Connected => EventV::Connected,
            Event::ConnectFailed(e) => EventV::ConnectFailed(e@),
            Event::DelayElapsed => EventV::DelayElapsed,
            Event::Sent => EventV::Sent,
            Event::SendFailed(e) => EventV::SendFailed(e@),
            Event::FileRead(r) => EventV::FileRead(
                match r {
                    Ok(t) => Ok(t@),
                    Err(e) => Err(e@),
                },
            ),
            Event::FileWritten(r) => EventV::FileWritten(
                match r {
                    Ok(_) => Ok(()),
                    Err(e) => Err(e@),
                },
            ),
            Event::Command(c) => EventV::Command(c@),
            Event::ChannelClosed => EventV::ChannelClosed,
            Event::Frame(t) => EventV::Frame(t@),
            Event::Idle => EventV::Idle,
            Event::SocketClosed => EventV::SocketClosed,
            Event::ReceiveFailed(e) => EventV::ReceiveFailed(e@),
        }
    }
}

/// What a send under way is for.
#[derive(Debug, PartialEq, Eq)]
pub enum Outbound {
    Initialize { id: i64 },
    SessionLoad,
    SessionNew,
    /// A prompt sent as soon as the user gave it.
    Prompt { id: i64, prompt: String },
    /// A prompt that waited in the queue for the session.
    QueuedPrompt { id: i64, prompt: String },
    Cancel,
    SetModel { id: i64, ticket: u64, model: String },
    /// The answer to a request of the agent.
    Reply,
}

/// The mathematical value of an [`Outbound`].
pub enum OutboundV {
    Initialize { id: i64 },
    SessionLoad,
    SessionNew,
    Prompt { id: i64, prompt: Seq<char> },
    QueuedPrompt { id: i64, prompt: Seq<char> },
    Cancel,
    SetModel { id: i64, ticket: u64, model: Seq<char> },
    Reply,
}

impl View for Outbound {
    type V = OutboundV;

    open spec fn view(&self) -> OutboundV {
        match self {
            Outbound::Initialize { id } => OutboundV::Initialize { id: *id },
            Outbound::SessionLoad => OutboundV::SessionLoad,
            Outbound::SessionNew => OutboundV::SessionNew,
            Outbound::Prompt { id, prompt } => OutboundV::Prompt { id: *id, prompt: prompt@ },
            Outbound::QueuedPrompt { id, prompt } => OutboundV::QueuedPrompt {
                id: *id,
                prompt: prompt@,
            },
            Outbound::Cancel => OutboundV::Cancel,
            Outbound::SetModel { id, ticket, model } => OutboundV::SetModel {
                id: *id,
                ticket: *ticket,
                model: model@,
            },
            Outbound::Reply => OutboundV::Reply,
        }
    }
}

/// Where the adapter stands: which answer it waits for.
#[derive(Debug, PartialEq, Eq)]
pub enum Phase {
    Connecting,
    /// Between two attempts to connect.
    Waiting,
    Sending(Outbound),
    ReadingFile { request_id: i64, path: String, session_id: String },
    WritingFile { request_id: i64 },
    /// Connected, with nothing under way.
    Polling,
    Stopped,
}

/// The mathematical value of a [`Phase`].
pub enum PhaseV {
    Connecting,
    Waiting,
    Sending(OutboundV),
    ReadingFile { request_id: i64, path: Seq<char>, session_id: Seq<char> },
    WritingFile { request_id: i64 },
    Polling,
    Stopped,
}

impl View for Phase {
    type V = PhaseV;

    open spec fn view(&self) -> PhaseV {
        match self {
            Phase::Connecting => PhaseV::Connecting,
            Phase::Waiting => PhaseV::Waiting,
            Phase::Sending(o) => PhaseV::Sending(o@),
            Phase::ReadingFile { request_id, path, session_id } => PhaseV::ReadingFile {
                request_id: *request_id,
                path: path@,
                session_id: session_id@,
            },
            Phase::WritingFile { request_id } => PhaseV::WritingFile { request_id: *request_id },
            Phase::Polling => PhaseV::Polling,
            Phase::Stopped => PhaseV::Stopped,
        }
    }
}

/// A model switch that waits for the agent's answer: the ticket of whoever
/// asked for it, and the model asked for.
#[derive(Debug, PartialEq, Eq)]
pub struct PendingModel {
    pub ticket: u64,
    pub model: String,
}

/// The mathematical value of a [`PendingModel`].
pub struct PendingModelV {
    pub ticket: u64,
    pub model: Seq<char>,
}

impl View for PendingModel {
    type V = PendingModelV;

    open spec fn view(&self) -> PendingModelV {
        PendingModelV { ticket: self.ticket, model: self.model@ }
    }
}

/// The views of the pending model switches, under their ids.
pub open spec fn pending_view(pending: Map<i64, PendingModel>) -> Map<i64, PendingModelV> {
    Map::new(|id: i64| pending.contains_key(id), |id: i64| pending[id]@)
}

} // verus!
