//! The session adapter as a state machine over plain values: what each event
//! does to the state, which effects it has and which operation comes next.

use vstd::prelude::*;
use crate::callbacks::{CallbackV, read_reply, server_request, write_reply};
use crate::events::{agent_error, model_registry, stream_message};
use crate::json::{JsonV, parsed, rendered};
use crate::models::ListenerCommandV;
use crate::protocol::{EffectV, EventV, OperationV, OutboundV, PendingModelV, PhaseV, emits};
use crate::registry::{clean_text, session_registry_events, update_registry_events};
use crate::router::{session_update_events, task_finish_events};
use crate::rpc::{InboundV, inbound_of, request_tree};
use crate::session_params::{
    cancel_params,
    initialize_params,
    prompt_params,
    session_load_params,
    session_new_params,
    set_model_params,
};
use crate::text::{split, trimmed};

verus! {

/// How many attempts to connect may fail in a row.
pub const MAX_RETRIES: u32 = 5;

/// The pause between two attempts to connect, in seconds.
pub const RETRY_DELAY_SECS: u64 = 2;

/// How long a receive waits before it reports an idle tick, in seconds.
pub const RECEIVE_TIMEOUT_SECS: u64 = 30;

/// The state of the adapter.
pub struct AdapterV {
    pub agent_id: Seq<char>,
    pub workspace_path: Seq<char>,
    /// Attempts to connect that failed since the last one that succeeded.
    pub retry_count: u32,
    /// The session to resume after a reconnect.
    pub cached_session_id: Option<Seq<char>>,
    /// Prompts that wait for a session, oldest first.
    pub queued_prompts: Seq<Seq<char>>,
    pub phase: PhaseV,
    /// The id of the next request on this connection.
    pub rpc_id_counter: i64,
    pub initialize_request_id: Option<i64>,
    pub session_new_request_id: Option<i64>,
    pub session_load_request_id: Option<i64>,
    /// The session in use; `None` until one is established.
    pub session_id: Option<Seq<char>>,
    /// The ids of the prompts that wait for their answer.
    pub pending_prompt_request_ids: Set<i64>,
    /// The model switches that wait for their answer, under their ids.
    pub pending_set_model_requests: Map<i64, PendingModelV>,
    /// Lines of the frame in hand that are still to be looked at.
    pub backlog: Seq<Seq<char>>,
}

/// What a step leads to.
pub struct OutcomeV {
    pub state: AdapterV,
    pub effects: Seq<EffectV>,
    pub next: OperationV,
}

/// What one line of a frame leads to.
pub enum LineV {
    /// Go on with the next line.
    Continue { state: AdapterV, effects: Seq<EffectV> },
    /// The driver has to act before the next line is looked at.
    Yield { state: AdapterV, effects: Seq<EffectV>, next: OperationV },
    /// The connection is over.
    Close { state: AdapterV, effects: Seq<EffectV> },
}

impl LineV {
    /// The same, with `before` in front of its effects.
    pub open spec fn after(self, before: Seq<EffectV>) -> LineV {
        match self {
            LineV::Continue { state, effects } => LineV::Continue {
                state,
                effects: before + effects,
            },
            LineV::Yield { state, effects, next } => LineV::Yield {
                state,
                effects: before + effects,
                next,
            },
            LineV::Close { state, effects } => LineV::Close { state, effects: before + effects },
        }
    }

    /// Goes on after the line was dealt with: with the lines that are left,
    /// or with what the line asked for, keeping the rest for later.
    pub open spec fn proceed(self, rest: Seq<Seq<char>>, effects: Seq<EffectV>) -> OutcomeV
        decreases rest.len(), 1nat,
    {
        match self {
            LineV::Continue { state, effects: more } => state.run_lines(rest, effects + more),
            LineV::Yield { state, effects: more, next } => OutcomeV {
                state: AdapterV { backlog: rest, ..state },
                effects: effects + more,
                next,
            },
            LineV::Close { state, effects: more } => state.end_connection(effects + more),
        }
    }
}

/// What becomes of the model switches that wait when a connection ends:
/// where there is one, all are abandoned.
pub open spec fn abandons(pending: Map<i64, PendingModelV>) -> Seq<EffectV> {
    if pending.len() > 0 {
        seq![EffectV::AbandonAll]
    } else {
        Seq::empty()
    }
}

/// One where the condition holds, else nought.
pub open spec fn one_if(condition: bool) -> int {
    if condition {
        1
    } else {
        0
    }
}

/// The id that a send under way will be known by once it succeeds.
pub open spec fn outbound_ids(phase: PhaseV) -> Seq<i64> {
    match phase {
        PhaseV::Sending(OutboundV::Initialize { id }) => seq![id],
        PhaseV::Sending(OutboundV::Prompt { id, .. }) => seq![id],
        PhaseV::Sending(OutboundV::QueuedPrompt { id, .. }) => seq![id],
        PhaseV::Sending(OutboundV::SetModel { id, .. }) => seq![id],
        _ => Seq::empty(),
    }
}

/// The text of the request `method(params)` with the given id.
pub open spec fn request_text(id: i64, method: Seq<char>, params: JsonV) -> Seq<char> {
    rendered(request_tree(id, method, params))
}

impl AdapterV {
    /// An adapter that is about to connect for the first time.
    pub open spec fn initial(agent_id: Seq<char>, workspace_path: Seq<char>) -> AdapterV {
        AdapterV {
            agent_id,
            workspace_path,
            retry_count: 0,
            cached_session_id: None,
            queued_prompts: Seq::empty(),
            phase: PhaseV::Connecting,
            rpc_id_counter: 1,
            initialize_request_id: None,
            session_new_request_id: None,
            session_load_request_id: None,
            session_id: None,
            pending_prompt_request_ids: Set::empty(),
            pending_set_model_requests: Map::empty(),
            backlog: Seq::empty(),
        }
    }

    /// In how many places `id` is held: as the pending `initialize`,
    /// `session/load` or `session/new`, among the pending prompts, among the
    /// pending model switches, or by the send under way.
    pub open spec fn holders(self, id: i64) -> int {
        one_if(self.initialize_request_id == Some(id)) + one_if(
            self.session_load_request_id == Some(id),
        ) + one_if(self.session_new_request_id == Some(id)) + one_if(
            self.pending_prompt_request_ids.contains(id),
        ) + one_if(self.pending_set_model_requests.contains_key(id)) + one_if(
            outbound_ids(self.phase).contains(id),
        )
    }

    /// The state is sound: the failed attempts are within bounds; no id
    /// stands for two requests; and every id in use was handed out by the
    /// counter of this connection.
    pub open spec fn wf(self) -> bool {
        &&& self.retry_count <= MAX_RETRIES
        &&& self.retry_count == MAX_RETRIES ==> self.phase is Stopped
        &&& 1 <= self.rpc_id_counter
        &&& forall|id: i64| #[trigger]
            self.holders(id) <= 1 && (self.holders(id) >= 1 ==> 1 <= id < self.rpc_id_counter)
    }

    /// The state with nothing left of the connection.
    pub open spec fn closed(self) -> AdapterV {
        AdapterV {
            phase: PhaseV::Connecting,
            rpc_id_counter: 1,
            initialize_request_id: None,
            session_new_request_id: None,
            session_load_request_id: None,
            session_id: None,
            pending_prompt_request_ids: Set::empty(),
            pending_set_model_requests: Map::empty(),
            backlog: Seq::empty(),
            ..self
        }
    }

    /// The connection is over: pending model switches are abandoned, and the
    /// adapter connects again.
    pub open spec fn end_connection(self, effects: Seq<EffectV>) -> OutcomeV {
        OutcomeV {
            state: self.closed(),
            effects: effects + abandons(self.pending_set_model_requests),
            next: OperationV::Connect,
        }
    }

    /// The adapter stops for good.
    pub open spec fn stop(self, effects: Seq<EffectV>) -> OutcomeV {
        OutcomeV {
            state: AdapterV { phase: PhaseV::Stopped, ..self.closed() },
            effects,
            next: OperationV::Stop,
        }
    }

    /// What a failed send does, by what the send was for: a prompt goes back
    /// to the front of the queue; a model switch is answered with the
    /// failure; but for a queued prompt, a cancel and a reply to the agent
    /// the connection is over.
    pub open spec fn send_failed(self, outbound: OutboundV, reason: Seq<char>) -> OutcomeV {
        match outbound {
            OutboundV::Initialize { .. } | OutboundV::SessionLoad | OutboundV::SessionNew => {
                self.end_connection(Seq::empty())
            },
            OutboundV::Prompt { prompt, .. } => AdapterV {
                queued_prompts: seq![prompt] + self.queued_prompts,
                ..self
            }.end_connection(Seq::empty()),
            OutboundV::QueuedPrompt { prompt, .. } => AdapterV {
                queued_prompts: seq![prompt] + self.queued_prompts,
                ..self
            }.resume(Seq::empty()),
            OutboundV::Cancel | OutboundV::Reply => self.resume(Seq::empty()),
            OutboundV::SetModel { ticket, .. } => self.end_connection(
                seq![
                    EffectV::Resolve {
                        ticket,
                        result: Err("Failed to send session/set_model: "@ + reason),
                    },
                ],
            ),
        }
    }

    /// What a send that went through does: the request is now known by
    /// its id. After a queued prompt the next one follows.
    pub open spec fn sent(self, outbound: OutboundV) -> OutcomeV {
        match outbound {
            OutboundV::Initialize { id } => AdapterV {
                initialize_request_id: Some(id),
                ..self
            }.resume(Seq::empty()),
            OutboundV::Prompt { id, .. } => AdapterV {
                pending_prompt_request_ids: self.pending_prompt_request_ids.insert(id),
                ..self
            }.resume(Seq::empty()),
            OutboundV::QueuedPrompt { id, .. } => AdapterV {
                pending_prompt_request_ids: self.pending_prompt_request_ids.insert(id),
                ..self
            }.drain(),
            OutboundV::SetModel { id, ticket, model } => AdapterV {
                pending_set_model_requests: self.pending_set_model_requests.insert(
                    id,
                    PendingModelV { ticket, model },
                ),
                ..self
            }.resume(Seq::empty()),
            _ => self.resume(Seq::empty()),
        }
    }

    /// Sends the request `method(params)` for `outbound` (which carries the
    /// id that `self` hands out next), or gives the connection up where its
    /// ids are used up.
    pub open spec fn request(self, outbound: OutboundV, method: Seq<char>, params: JsonV) -> LineV {
        if self.rpc_id_counter < i64::MAX {
            LineV::Yield {
                state: AdapterV {
                    rpc_id_counter: (self.rpc_id_counter + 1) as i64,
                    phase: PhaseV::Sending(outbound),
                    ..self
                },
                effects: Seq::empty(),
                next: OperationV::Send(request_text(self.rpc_id_counter, method, params)),
            }
        } else {
            LineV::Close { state: self, effects: Seq::empty() }
        }
    }

    /// Sends the first queued prompt, if there is one and a session to send
    /// it to.
    pub open spec fn flush(self) -> LineV {
        match self.session_id {
            Some(session_id) if self.queued_prompts.len() > 0 => {
                if self.rpc_id_counter < i64::MAX {
                    let prompt = self.queued_prompts[0];
                    AdapterV { queued_prompts: self.queued_prompts.drop_first(), ..self }.request(
                        OutboundV::QueuedPrompt { id: self.rpc_id_counter, prompt },
                        "session/prompt"@,
                        prompt_params(session_id, prompt),
                    )
                } else {
                    LineV::Close { state: self, effects: Seq::empty() }
                }
            },
            _ => LineV::Continue { state: self, effects: Seq::empty() },
        }
    }

    /// Goes on with the queue after a queued prompt went out, then with the
    /// lines that are left.
    pub open spec fn drain(self) -> OutcomeV {
        self.flush().proceed(self.backlog, Seq::empty())
    }

    /// What the answer to a request of ours does. The id is looked for among
    /// the pending `initialize`, `session/load` and `session/new`, then the
    /// prompts, then the model switches; what it is found in forgets it. An
    /// id found nowhere changes nothing.
    #[verifier::opaque]
    pub open spec fn handle_response(
        self,
        id: i64,
        result: Option<JsonV>,
        error: Option<JsonV>,
    ) -> LineV {
        if self.initialize_request_id == Some(id) {
            let s = AdapterV { initialize_request_id: None, ..self };
            match error {
                Some(e) => LineV::Close {
                    state: s,
                    effects: seq![
                        EffectV::Emit(
                            agent_error(self.agent_id, "ACP initialize failed: "@ + rendered(e)),
                        ),
                    ],
                },
                None => match s.session_id {
                    Some(session_id) => AdapterV {
                        session_load_request_id: if s.rpc_id_counter < i64::MAX {
                            Some(s.rpc_id_counter)
                        } else {
                            None
                        },
                        ..s
                    }.request(
                        OutboundV::SessionLoad,
                        "session/load"@,
                        session_load_params(self.workspace_path, session_id),
                    ),
                    None => s.request_session_new(),
                },
            }
        } else if self.session_load_request_id == Some(id) {
            let s = AdapterV { session_load_request_id: None, ..self };
            match error {
                Some(_) => AdapterV {
                    session_id: None,
                    cached_session_id: None,
                    ..s
                }.request_session_new(),
                None => s.flush().after(
                    emits(
                        session_registry_events(self.agent_id, result) + seq![
                            stream_message(self.agent_id, "✅ iFlow ACP 会话已恢复"@, "system"@),
                        ],
                    ),
                ),
            }
        } else if self.session_new_request_id == Some(id) {
            let s = AdapterV { session_new_request_id: None, ..self };
            match error {
                Some(e) => LineV::Close {
                    state: s,
                    effects: seq![
                        EffectV::Emit(
                            agent_error(self.agent_id, "session/new failed: "@ + rendered(e)),
                        ),
                    ],
                },
                None => match new_session_id(result) {
                    None => LineV::Close {
                        state: AdapterV { session_id: None, cached_session_id: None, ..s },
                        effects: seq![
                            EffectV::Emit(
                                agent_error(
                                    self.agent_id,
                                    "session/new succeeded but no sessionId returned"@,
                                ),
                            ),
                        ],
                    },
                    Some(session_id) => AdapterV {
                        session_id: Some(session_id),
                        cached_session_id: Some(session_id),
                        ..s
                    }.flush().after(emits(session_registry_events(self.agent_id, result))),
                },
            }
        } else if self.pending_prompt_request_ids.contains(id) {
            let s = AdapterV {
                pending_prompt_request_ids: self.pending_prompt_request_ids.remove(id),
                ..self
            };
            match error {
                Some(e) => LineV::Continue {
                    state: s,
                    effects: seq![
                        EffectV::Emit(
                            agent_error(self.agent_id, "session/prompt failed: "@ + rendered(e)),
                        ),
                    ],
                },
                None => LineV::Continue {
                    state: s,
                    effects: emits(task_finish_events(self.agent_id, stop_reason(result))),
                },
            }
        } else if self.pending_set_model_requests.contains_key(id) {
            let pending = self.pending_set_model_requests[id];
            let s = AdapterV {
                pending_set_model_requests: self.pending_set_model_requests.remove(id),
                ..self
            };
            match error {
                Some(e) => LineV::Continue {
                    state: s,
                    effects: seq![
                        EffectV::Resolve {
                            ticket: pending.ticket,
                            result: Err("session/set_model failed: "@ + rendered(e)),
                        },
                    ],
                },
                None => {
                    let current = effective_model(result, pending.model);
                    LineV::Continue {
                        state: s,
                        effects: seq![
                            EffectV::Emit(
                                model_registry(self.agent_id, Seq::empty(), Some(current)),
                            ),
                            EffectV::Resolve { ticket: pending.ticket, result: Ok(current) },
                        ],
                    }
                },
            }
        } else {
            LineV::Continue { state: self, effects: Seq::empty() }
        }
    }

    /// Asks for a new session.
    pub open spec fn request_session_new(self) -> LineV {
        AdapterV {
            session_new_request_id: if self.rpc_id_counter < i64::MAX {
                Some(self.rpc_id_counter)
            } else {
                None
            },
            ..self
        }.request(OutboundV::SessionNew, "session/new"@, session_new_params(self.workspace_path))
    }

    /// What a `session/update` does: the update inside its parameters becomes
    /// events for the application.
    pub open spec fn handle_update(self, params: Option<JsonV>) -> LineV {
        match update_of(params) {
            Some(update) => LineV::Continue {
                state: self,
                effects: emits(
                    session_update_events(self.agent_id, update) + update_registry_events(
                        self.agent_id,
                        update,
                    ),
                ),
            },
            None => LineV::Continue { state: self, effects: Seq::empty() },
        }
    }

    /// What a request of the agent does: it is answered at once, or after
    /// the file it names has been read or written.
    pub open spec fn handle_request(self, request_id: i64, method: Seq<char>, params: Option<JsonV>) -> LineV {
        match server_request(request_id, method, params) {
            CallbackV::Reply(text) => LineV::Yield {
                state: AdapterV { phase: PhaseV::Sending(OutboundV::Reply), ..self },
                effects: Seq::empty(),
                next: OperationV::Send(text),
            },
            CallbackV::ReadFile { path, session_id } => LineV::Yield {
                state: AdapterV {
                    phase: PhaseV::ReadingFile { request_id, path, session_id },
                    ..self
                },
                effects: Seq::empty(),
                next: OperationV::ReadFile(path),
            },
            CallbackV::WriteFile { path, content } => LineV::Yield {
                state: AdapterV { phase: PhaseV::WritingFile { request_id }, ..self },
                effects: Seq::empty(),
                next: OperationV::WriteFile { path, content },
            },
        }
    }

    /// What a message does, by what it is. A `session/update` becomes
    /// events, with or without an id; any other request of the agent is
    /// answered, and any other notification ignored. An answer goes to the
    /// request that waits for it.
    #[verifier::opaque]
    pub open spec fn handle_message(self, message: JsonV) -> LineV {
        match inbound_of(message) {
            InboundV::Request { method, id, params } => if method == "session/update"@ {
                self.handle_update(params)
            } else {
                self.handle_request(id, method, params)
            },
            InboundV::Notification { method, params } => if method == "session/update"@ {
                self.handle_update(params)
            } else {
                LineV::Continue { state: self, effects: Seq::empty() }
            },
            InboundV::Response { id, result, error } => self.handle_response(id, result, error),
            InboundV::Other => LineV::Continue { state: self, effects: Seq::empty() },
        }
    }

    /// What one line of a frame does: a blank line, a `//` comment and a
    /// line that is no JSON are passed over; any other is a message.
    #[verifier::opaque]
    pub open spec fn handle_line(self, line: Seq<char>) -> LineV {
        let raw = trimmed(line);
        if raw.len() == 0 || "//"@.is_prefix_of(raw) {
            LineV::Continue { state: self, effects: Seq::empty() }
        } else {
            match parsed(raw) {
                Some(message) => self.handle_message(message),
                None => LineV::Continue { state: self, effects: Seq::empty() },
            }
        }
    }

    /// Deals with the lines one after the other, until one needs the driver
    /// or none is left; then the adapter waits for what comes next.
    pub open spec fn run_lines(self, lines: Seq<Seq<char>>, effects: Seq<EffectV>) -> OutcomeV
        decreases lines.len(), 0nat,
    {
        if lines.len() == 0 {
            OutcomeV {
                state: AdapterV { phase: PhaseV::Polling, backlog: Seq::empty(), ..self },
                effects,
                next: OperationV::Poll { idle_after: RECEIVE_TIMEOUT_SECS },
            }
        } else {
            let rest = lines.drop_first();
            AdapterV { backlog: rest, ..self }.handle_line(lines[0]).proceed(rest, effects)
        }
    }

    /// Goes on with the lines of the frame in hand.
    pub open spec fn resume(self, effects: Seq<EffectV>) -> OutcomeV {
        self.run_lines(self.backlog, effects)
    }

    /// What a command of the application does: with a session it is sent at
    /// once; without one a prompt is queued, a cancel is dropped and a model
    /// switch is refused.
    pub open spec fn command(self, command: ListenerCommandV) -> OutcomeV {
        match command {
            ListenerCommandV::UserPrompt(prompt) => match self.session_id {
                Some(session_id) => self.dispatch(
                    OutboundV::Prompt { id: self.rpc_id_counter, prompt },
                    "session/prompt"@,
                    prompt_params(session_id, prompt),
                ),
                None => OutcomeV {
                    state: AdapterV { queued_prompts: self.queued_prompts.push(prompt), ..self },
                    effects: Seq::empty(),
                    next: OperationV::Poll { idle_after: RECEIVE_TIMEOUT_SECS },
                },
            },
            ListenerCommandV::CancelPrompt => match self.session_id {
                Some(session_id) => self.dispatch(
                    OutboundV::Cancel,
                    "session/cancel"@,
                    cancel_params(session_id),
                ),
                None => OutcomeV { state: self, effects: Seq::empty(), next: OperationV::Poll { idle_after: RECEIVE_TIMEOUT_SECS } },
            },
            ListenerCommandV::SetModel { model, ticket } => match self.session_id {
                Some(session_id) => self.dispatch(
                    OutboundV::SetModel { id: self.rpc_id_counter, ticket, model },
                    "session/set_model"@,
                    set_model_params(session_id, model),
                ),
                None => OutcomeV {
                    state: self,
                    effects: seq![EffectV::Resolve { ticket, result: Err("Session not ready"@) }],
                    next: OperationV::Poll { idle_after: RECEIVE_TIMEOUT_SECS },
                },
            },
        }
    }

    /// Sends a request on behalf of a command; where the ids are used up,
    /// the request counts as one that could not be sent.
    pub open spec fn dispatch(self, outbound: OutboundV, method: Seq<char>, params: JsonV) -> OutcomeV {
        if self.rpc_id_counter < i64::MAX {
            OutcomeV {
                state: AdapterV {
                    rpc_id_counter: (self.rpc_id_counter + 1) as i64,
                    phase: PhaseV::Sending(outbound),
                    ..self
                },
                effects: Seq::empty(),
                next: OperationV::Send(request_text(self.rpc_id_counter, method, params)),
            }
        } else {
            self.send_failed(outbound, "request ids are used up"@)
        }
    }

    /// A socket is open: the attempts start over, the cached session is the
    /// one to resume, and `initialize` goes out under the first id.
    pub open spec fn connected(self) -> OutcomeV {
        OutcomeV {
            state: AdapterV {
                retry_count: 0,
                session_id: self.cached_session_id,
                rpc_id_counter: 2,
                phase: PhaseV::Sending(OutboundV::Initialize { id: 1 }),
                ..self.closed()
            },
            effects: Seq::empty(),
            next: OperationV::Send(request_text(1, "initialize"@, initialize_params())),
        }
    }

    /// No socket could be opened: one more failed attempt. Before the last
    /// one allowed the adapter waits and tries again; with it the adapter
    /// reports the failure and stops.
    pub open spec fn connect_failed(self, reason: Seq<char>) -> OutcomeV {
        if self.retry_count + 1 >= MAX_RETRIES {
            AdapterV { retry_count: MAX_RETRIES, ..self }.stop(
                seq![
                    EffectV::Emit(agent_error(self.agent_id, "Failed after 5 attempts: "@ + reason)),
                ],
            )
        } else {
            OutcomeV {
                state: AdapterV {
                    retry_count: (self.retry_count + 1) as u32,
                    phase: PhaseV::Waiting,
                    ..self
                },
                effects: Seq::empty(),
                next: OperationV::Delay { seconds: RETRY_DELAY_SECS },
            }
        }
    }

    /// What an event does to the adapter. An event that does not answer the
    /// operation under way stops it.
    #[verifier::opaque]
    pub open spec fn step(self, event: EventV) -> OutcomeV {
        match (self.phase, event) {
            (PhaseV::Connecting, EventV::Connected) => self.connected(),
            (PhaseV::Connecting, EventV::ConnectFailed(reason)) => self.connect_failed(reason),
            (PhaseV::Waiting, EventV::DelayElapsed) => OutcomeV {
                state: AdapterV { phase: PhaseV::Connecting, ..self },
                effects: Seq::empty(),
                next: OperationV::Connect,
            },
            (PhaseV::Sending(outbound), EventV::Sent) => AdapterV {
                phase: PhaseV::Polling,
                ..self
            }.sent(outbound),
            (PhaseV::Sending(outbound), EventV::SendFailed(reason)) => AdapterV {
                phase: PhaseV::Polling,
                ..self
            }.send_failed(outbound, reason),
            (PhaseV::ReadingFile { request_id, path, session_id }, EventV::FileRead(outcome)) => {
                OutcomeV {
                    state: AdapterV { phase: PhaseV::Sending(OutboundV::Reply), ..self },
                    effects: Seq::empty(),
                    next: OperationV::Send(read_reply(request_id, path, session_id, outcome)),
                }
            },
            (PhaseV::WritingFile { request_id }, EventV::FileWritten(outcome)) => OutcomeV {
                state: AdapterV { phase: PhaseV::Sending(OutboundV::Reply), ..self },
                effects: Seq::empty(),
                next: OperationV::Send(write_reply(request_id, outcome)),
            },
            (PhaseV::Polling, EventV::Command(command)) => self.command(command),
            (PhaseV::Polling, EventV::Frame(text)) => self.run_lines(
                split(text, '\n'),
                Seq::empty(),
            ),
            (PhaseV::Polling, EventV::Idle) => OutcomeV {
                state: self,
                effects: Seq::empty(),
                next: OperationV::Poll { idle_after: RECEIVE_TIMEOUT_SECS },
            },
            (PhaseV::Polling, EventV::SocketClosed) => self.end_connection(Seq::empty()),
            (PhaseV::Polling, EventV::ReceiveFailed(_)) => self.end_connection(Seq::empty()),
            _ => self.stop(Seq::empty()),
        }
    }
}

/// The `update` inside the parameters of a `session/update`.
pub open spec fn update_of(params: Option<JsonV>) -> Option<JsonV> {
    match params {
        Some(p) => p.get("update"@),
        None => None,
    }
}

/// The session id in the result of `session/new`: its string `sessionId`.
pub open spec fn new_session_id(result: Option<JsonV>) -> Option<Seq<char>> {
    match result {
        Some(r) => r.get_str("sessionId"@),
        None => None,
    }
}

/// Why a turn ended: the string `stopReason` of the result, `completed`
/// where it has none.
pub open spec fn stop_reason(result: Option<JsonV>) -> Seq<char> {
    match result {
        Some(r) => match r.get_str("stopReason"@) {
            Some(reason) => reason,
            None => "completed"@,
        },
        None => "completed"@,
    }
}

/// The model in use after a switch: the trimmed `currentModelId` of the
/// result, or the model that was asked for where the result names none.
pub open spec fn effective_model(result: Option<JsonV>, requested: Seq<char>) -> Seq<char> {
    match result {
        Some(r) => match clean_text(r.get("currentModelId"@)) {
            Some(current) => current,
            None => requested,
        },
        None => requested,
    }
}

} // verus!
