//! The session adapter: one per connection to an agent. It owns the protocol
//! state and decides; the task that drives it owns the socket and acts.
//!
//! The driver starts with [`Operation::Connect`], performs each operation it
//! is handed, and reports the outcome to [`Adapter::step`], which hands back
//! the effects to carry out and the next operation.

use std::collections::{HashMap, HashSet, VecDeque};
use vstd::prelude::*;
use crate::callbacks::{Callback, handle_server_request, read_file_reply, write_file_reply};
use crate::events::{AppEvent, events_view};
use crate::json::{Json, opt_view};
use crate::machine::{
    AdapterV,
    LineV,
    MAX_RETRIES,
    OutcomeV,
    RECEIVE_TIMEOUT_SECS,
    RETRY_DELAY_SECS,
    abandons,
};
use crate::models::ListenerCommand;
use crate::protocol::{
    Effect,
    EffectV,
    Event,
    Operation,
    Outbound,
    PendingModel,
    Phase,
    effects_view,
    emits,
    pending_view,
};
use crate::registry::{
    emit_command_registry_from_update,
    emit_command_registry_payload,
    emit_model_registry_payload,
};
use crate::text::opt_text;
use crate::router::{emit_task_finish, handle_session_update};
use crate::rpc::{Inbound, build_rpc_request, classify, next_rpc_id};
use crate::session_params::{
    build_cancel_params,
    build_initialize_params,
    build_prompt_params,
    build_session_load_params,
    build_session_new_params,
    build_set_model_params,
};
use crate::text::{concat, from_chars, split_ranges, starts_with, to_chars, trim};

verus! {

broadcast use vstd::std_specs::hash::group_hash_axioms;

/// The session adapter of one agent.
#[derive(Debug)]
pub struct Adapter {
    agent_id: String,
    workspace_path: String,
    retry_count: u32,
    cached_session_id: Option<String>,
    queued_prompts: VecDeque<String>,
    phase: Phase,
    rpc_id_counter: i64,
    initialize_request_id: Option<i64>,
    session_new_request_id: Option<i64>,
    session_load_request_id: Option<i64>,
    session_id: Option<String>,
    pending_prompt_request_ids: HashSet<i64>,
    pending_set_model_requests: HashMap<i64, PendingModel>,
    backlog: VecDeque<String>,
}

/// What a step hands to the driver: effects to carry out, in order, and then
/// the one operation to perform and report on.
#[derive(Debug, PartialEq, Eq)]
pub struct Step {
    pub effects: Vec<Effect>,
    pub next: Operation,
}

/// What a line of a frame asks for.
enum Line {
    Continue,
    Yield(Operation),
    Close,
}

/// The texts held in a queue of strings.
pub open spec fn queue_texts(queue: Seq<String>) -> Seq<Seq<char>> {
    Seq::new(queue.len(), |i: int| queue[i]@)
}

/// A step, with the state it leaves, as an outcome of the machine.
pub open spec fn outcome(state: AdapterV, step: Step) -> OutcomeV {
    OutcomeV { state, effects: effects_view(step.effects@), next: step.next@ }
}

spec fn line_view(state: AdapterV, effects: Seq<EffectV>, line: Line) -> LineV {
    match line {
        Line::Continue => LineV::Continue { state, effects },
        Line::Yield(next) => LineV::Yield { state, effects, next: next@ },
        Line::Close => LineV::Close { state, effects },
    }
}

impl View for Adapter {
    type V = AdapterV;

    closed spec fn view(&self) -> AdapterV {
        AdapterV {
            agent_id: self.agent_id@,
            workspace_path: self.workspace_path@,
            retry_count: self.retry_count,
            cached_session_id: opt_text(self.cached_session_id),
            queued_prompts: queue_texts(self.queued_prompts@),
            phase: self.phase@,
            rpc_id_counter: self.rpc_id_counter,
            initialize_request_id: self.initialize_request_id,
            session_new_request_id: self.session_new_request_id,
            session_load_request_id: self.session_load_request_id,
            session_id: opt_text(self.session_id),
            pending_prompt_request_ids: self.pending_prompt_request_ids@,
            pending_set_model_requests: pending_view(self.pending_set_model_requests@),
            backlog: queue_texts(self.backlog@),
        }
    }
}

fn emit(effects: &mut Vec<Effect>, event: AppEvent)
    ensures
        effects_view(final(effects)@) == effects_view(old(effects)@) + seq![EffectV::Emit(event@)],
{
    let ghost before = effects_view(effects@);
    let ghost e = EffectV::Emit(event@);
    effects.push(Effect::Emit(event));
    assert(effects_view(effects@) =~= before + seq![e]);
}

fn emit_all(effects: &mut Vec<Effect>, events: Vec<AppEvent>)
    ensures
        effects_view(final(effects)@) == effects_view(old(effects)@) + emits(events_view(events@)),
{
    let ghost before = effects_view(effects@);
    let ghost all = emits(events_view(events@));
    let mut events = events;
    let mut rest: Vec<AppEvent> = Vec::new();
    // Take the events from the back, so that they can be handed on from the front.
    while events.len() > 0
        invariant
            events@.len() + rest@.len() == all.len(),
            forall|k: int| 0 <= k < events@.len() ==> EffectV::Emit(#[trigger] events@[k]@) == all[k],
            forall|k: int|
                0 <= k < rest@.len() ==> EffectV::Emit(#[trigger] rest@[k]@) == all[all.len() - 1 - k],
        decreases events.len(),
    {
        let event = events.pop().unwrap();
        rest.push(event);
    }
    while rest.len() > 0
        invariant
            rest@.len() <= all.len(),
            effects_view(effects@) == before + all.take(all.len() - rest@.len()),
            forall|k: int|
                0 <= k < rest@.len() ==> EffectV::Emit(#[trigger] rest@[k]@) == all[all.len() - 1 - k],
        decreases rest.len(),
    {
        let ghost sofar = effects_view(effects@);
        let ghost n = all.len() - rest@.len();
        let event = rest.pop().unwrap();
        let ghost e = EffectV::Emit(event@);
        effects.push(Effect::Emit(event));
        assert(effects_view(effects@) =~= sofar.push(e));
        assert(all.take(n + 1) =~= all.take(n).push(all[n]));
        assert(before + all.take(n + 1) =~= (before + all.take(n)).push(e));
    }
    assert(all.take(all.len() as int) =~= all);
}

impl Adapter {
    /// An adapter for the agent `agent_id`, which works in `workspace_path`.
    /// It is about to connect: the driver begins with [`Operation::Connect`].
    pub fn new(agent_id: &str, workspace_path: &str) -> (adapter: Adapter)
        ensures
            adapter@ == AdapterV::initial(agent_id@, workspace_path@),
            adapter@.wf(),
    {
        let adapter = Adapter {
            agent_id: agent_id.to_owned(),
            workspace_path: workspace_path.to_owned(),
            retry_count: 0,
            cached_session_id: None,
            queued_prompts: VecDeque::new(),
            phase: Phase::Connecting,
            rpc_id_counter: 1,
            initialize_request_id: None,
            session_new_request_id: None,
            session_load_request_id: None,
            session_id: None,
            pending_prompt_request_ids: HashSet::new(),
            pending_set_model_requests: HashMap::new(),
            backlog: VecDeque::new(),
        };
        proof {
            assert(queue_texts(adapter.queued_prompts@) =~= Seq::empty());
            assert(queue_texts(adapter.backlog@) =~= Seq::empty());
            assert(pending_view(adapter.pending_set_model_requests@) =~= Map::empty());
            assert(adapter@ =~~= AdapterV::initial(agent_id@, workspace_path@));
        }
        adapter
    }

    /// The session in use, once one is established.
    pub fn session_id(&self) -> (r: Option<&String>)
        ensures
            match r {
                Some(s) => self@.session_id == Some(s@),
                None => self@.session_id is None,
            },
    {
        self.session_id.as_ref()
    }

    /// The session that a reconnect would resume.
    pub fn cached_session_id(&self) -> (r: Option<&String>)
        ensures
            match r {
                Some(s) => self@.cached_session_id == Some(s@),
                None => self@.cached_session_id is None,
            },
    {
        self.cached_session_id.as_ref()
    }

    /// How many attempts to connect have failed in a row.
    pub fn retry_count(&self) -> (r: u32)
        ensures
            r == self@.retry_count,
    {
        self.retry_count
    }

    /// How many prompts wait for a session.
    pub fn queued_prompt_count(&self) -> (r: usize)
        ensures
            r == self@.queued_prompts.len(),
    {
        self.queued_prompts.len()
    }

    /// Whether the prompt that went out under this id waits for its answer.
    pub fn has_pending_prompt(&self, id: i64) -> (r: bool)
        ensures
            r == self@.pending_prompt_request_ids.contains(id),
    {
        self.pending_prompt_request_ids.contains(&id)
    }

    /// How many prompts wait for their answer.
    pub fn pending_prompt_count(&self) -> (r: usize)
        ensures
            r == self@.pending_prompt_request_ids.len(),
    {
        self.pending_prompt_request_ids.len()
    }

    /// Whether the adapter has stopped for good.
    pub fn is_stopped(&self) -> (r: bool)
        ensures
            r == (self@.phase is Stopped),
    {
        match self.phase {
            Phase::Stopped => true,
            _ => false,
        }
    }

    fn close(&mut self)
        ensures
            final(self)@ == old(self)@.closed(),
    {
        self.phase = Phase::Connecting;
        self.rpc_id_counter = 1;
        self.initialize_request_id = None;
        self.session_new_request_id = None;
        self.session_load_request_id = None;
        self.session_id = None;
        self.pending_prompt_request_ids = HashSet::new();
        self.pending_set_model_requests = HashMap::new();
        self.backlog = VecDeque::new();
        proof {
            assert(queue_texts(self.backlog@) =~= Seq::empty());
            assert(pending_view(self.pending_set_model_requests@) =~= Map::empty());
            assert(self@ =~~= old(self)@.closed());
        }
    }

    fn end_connection(&mut self, effects: Vec<Effect>) -> (out: Step)
        ensures
            outcome(final(self)@, out) == old(self)@.end_connection(effects_view(effects@)),
    {
        let ghost before = effects_view(effects@);
        let mut effects = effects;
        proof {
            assert(pending_view(self.pending_set_model_requests@).dom()
                =~= self.pending_set_model_requests@.dom());
        }
        if self.pending_set_model_requests.len() > 0 {
            effects.push(Effect::AbandonAll);
            proof {
                assert(effects_view(effects@) =~= before + seq![EffectV::AbandonAll]);
            }
        } else {
            proof {
                assert(before + Seq::<EffectV>::empty() =~= before);
            }
        }
        self.close();
        Step { effects, next: Operation::Connect }
    }

    fn stop(&mut self, effects: Vec<Effect>) -> (out: Step)
        ensures
            outcome(final(self)@, out) == old(self)@.stop(effects_view(effects@)),
    {
        self.close();
        self.phase = Phase::Stopped;
        Step { effects, next: Operation::Stop }
    }

    fn request(&mut self, outbound: Outbound, method: &str, params: Json) -> (line: Line)
        ensures
            line_view(final(self)@, Seq::empty(), line) == old(self)@.request(
                outbound@,
                method@,
                params@,
            ),
            final(self).backlog == old(self).backlog,
    {
        if self.rpc_id_counter < i64::MAX {
            let id = next_rpc_id(&mut self.rpc_id_counter);
            self.phase = Phase::Sending(outbound);
            Line::Yield(Operation::Send(build_rpc_request(id, method, params)))
        } else {
            Line::Close
        }
    }

    fn request_session_new(&mut self) -> (line: Line)
        ensures
            line_view(final(self)@, Seq::empty(), line) == old(self)@.request_session_new(),
            final(self).backlog == old(self).backlog,
    {
        self.session_new_request_id = if self.rpc_id_counter < i64::MAX {
            Some(self.rpc_id_counter)
        } else {
            None
        };
        let params = build_session_new_params(self.workspace_path.as_str());
        self.request(Outbound::SessionNew, "session/new", params)
    }

    fn flush(&mut self) -> (line: Line)
        ensures
            line_view(final(self)@, Seq::empty(), line) == old(self)@.flush(),
            final(self).backlog == old(self).backlog,
    {
        if self.session_id.is_none() || self.queued_prompts.len() == 0 || self.rpc_id_counter
            >= i64::MAX {
            return if self.session_id.is_some() && self.queued_prompts.len() > 0 {
                Line::Close
            } else {
                Line::Continue
            };
        }
        let ghost queue = self@.queued_prompts;
        let prompt = self.queued_prompts.pop_front().unwrap();
        proof {
            assert(queue_texts(self.queued_prompts@) =~= queue.drop_first());
        }
        let params = match &self.session_id {
            Some(session_id) => build_prompt_params(session_id.as_str(), prompt.as_str()),
            None => Json::Null,
        };
        let id = self.rpc_id_counter;
        self.request(Outbound::QueuedPrompt { id, prompt }, "session/prompt", params)
    }

    fn handle_response(
        &mut self,
        id: i64,
        result: Option<&Json>,
        error: Option<&Json>,
        effects: &mut Vec<Effect>,
    ) -> (line: Line)
        ensures
            line_view(final(self)@, effects_view(final(effects)@), line) == old(
                self,
            )@.handle_response(id, opt_view(result), opt_view(error)).after(
                effects_view(old(effects)@),
            ),
            final(self).backlog == old(self).backlog,
    {
        let ghost before = effects_view(effects@);
        proof {
            reveal(AdapterV::handle_response);
        }
        if self.initialize_request_id == Some(id) {
            self.initialize_request_id = None;
            match error {
                Some(e) => {
                    let text = concat("ACP initialize failed: ", e.render().as_str());
                    emit(effects, AppEvent::agent_error(self.agent_id.as_str(), text.as_str()));
                    Line::Close
                },
                None => {
                    let params = match &self.session_id {
                        Some(session_id) => Some(
                            build_session_load_params(
                                self.workspace_path.as_str(),
                                session_id.as_str(),
                            ),
                        ),
                        None => None,
                    };
                    proof {
                        assert(before + Seq::<EffectV>::empty() =~= before);
                    }
                    match params {
                        Some(params) => {
                            self.session_load_request_id = if self.rpc_id_counter < i64::MAX {
                                Some(self.rpc_id_counter)
                            } else {
                                None
                            };
                            self.request(Outbound::SessionLoad, "session/load", params)
                        },
                        None => self.request_session_new(),
                    }
                },
            }
        } else if self.session_load_request_id == Some(id) {
            self.session_load_request_id = None;
            match error {
                Some(_) => {
                    self.session_id = None;
                    self.cached_session_id = None;
                    proof {
                        assert(before + Seq::<EffectV>::empty() =~= before);
                    }
                    self.request_session_new()
                },
                None => {
                    let mut events: Vec<AppEvent> = Vec::new();
                    assert(events_view(events@) =~= Seq::empty());
                    match result {
                        Some(r) => {
                            emit_command_registry_payload(&mut events, self.agent_id.as_str(), r);
                            emit_model_registry_payload(&mut events, self.agent_id.as_str(), r);
                        },
                        None => {},
                    }
                    let restored = AppEvent::stream_message(
                        self.agent_id.as_str(),
                        "✅ iFlow ACP 会话已恢复",
                        "system",
                    );
                    let ghost sofar = events_view(events@);
                    let ghost rv = restored@;
                    events.push(restored);
                    assert(events_view(events@) =~= sofar + seq![rv]);
                    emit_all(effects, events);
                    let line = self.flush();
                    proof {
                        assert(effects_view(effects@) + Seq::<EffectV>::empty() =~= effects_view(
                            effects@,
                        ));
                    }
                    line
                },
            }
        } else if self.session_new_request_id == Some(id) {
            self.session_new_request_id = None;
            match error {
                Some(e) => {
                    let text = concat("session/new failed: ", e.render().as_str());
                    emit(effects, AppEvent::agent_error(self.agent_id.as_str(), text.as_str()));
                    Line::Close
                },
                None => {
                    let session_id = match result {
                        Some(r) => match r.get_str("sessionId") {
                            Some(s) => Some(s.to_owned()),
                            None => None,
                        },
                        None => None,
                    };
                    match session_id {
                        None => {
                            self.session_id = None;
                            self.cached_session_id = None;
                            emit(
                                effects,
                                AppEvent::agent_error(
                                    self.agent_id.as_str(),
                                    "session/new succeeded but no sessionId returned",
                                ),
                            );
                            Line::Close
                        },
                        Some(session_id) => {
                            self.cached_session_id = Some(session_id.clone());
                            self.session_id = Some(session_id);
                            let mut events: Vec<AppEvent> = Vec::new();
                            assert(events_view(events@) =~= Seq::empty());
                            match result {
                                Some(r) => {
                                    emit_command_registry_payload(
                                        &mut events,
                                        self.agent_id.as_str(),
                                        r,
                                    );
                                    emit_model_registry_payload(
                                        &mut events,
                                        self.agent_id.as_str(),
                                        r,
                                    );
                                },
                                None => {},
                            }
                            emit_all(effects, events);
                            let line = self.flush();
                            proof {
                                assert(effects_view(effects@) + Seq::<EffectV>::empty()
                                    =~= effects_view(effects@));
                            }
                            line
                        },
                    }
                },
            }
        } else {
            match self.take_prompt(id) {
                true => {
                    match error {
                        Some(e) => {
                            let text = concat("session/prompt failed: ", e.render().as_str());
                            emit(
                                effects,
                                AppEvent::agent_error(self.agent_id.as_str(), text.as_str()),
                            );
                        },
                        None => {
                            let reason = match result {
                                Some(r) => match r.get_str("stopReason") {
                                    Some(reason) => reason,
                                    None => "completed",
                                },
                                None => "completed",
                            };
                            emit_all(effects, emit_task_finish(self.agent_id.as_str(), reason));
                        },
                    }
                    Line::Continue
                },
                false => {
                    match self.take_model(id) {
                        Some(pending) => {
                            match error {
                                Some(e) => {
                                    let text = concat(
                                        "session/set_model failed: ",
                                        e.render().as_str(),
                                    );
                                    let ghost sofar = effects_view(effects@);
                                    let ghost ev = EffectV::Resolve {
                                        ticket: pending.ticket,
                                        result: Err(text@),
                                    };
                                    effects.push(
                                        Effect::Resolve { ticket: pending.ticket, result: Err(text) },
                                    );
                                    assert(effects_view(effects@) =~= sofar + seq![ev]);
                                },
                                None => {
                                    let current = match result {
                                        Some(r) => match crate::registry::clean(r.get("currentModelId")) {
                                            Some(current) => current,
                                            None => pending.model,
                                        },
                                        None => pending.model,
                                    };
                                    let ghost cv = current@;
                                    let models: Vec<Json> = Vec::new();
                                    assert(crate::json::items_view(models@) =~= Seq::empty());
                                    let event = AppEvent::model_registry(
                                        self.agent_id.as_str(),
                                        models,
                                        Some(current.clone()),
                                    );
                                    let ghost sofar = effects_view(effects@);
                                    let ghost e0 = EffectV::Emit(event@);
                                    let ghost e1 = EffectV::Resolve {
                                        ticket: pending.ticket,
                                        result: Ok(cv),
                                    };
                                    effects.push(Effect::Emit(event));
                                    effects.push(
                                        Effect::Resolve { ticket: pending.ticket, result: Ok(current) },
                                    );
                                    assert(effects_view(effects@) =~= sofar + seq![e0, e1]);
                                },
                            }
                            Line::Continue
                        },
                        None => {
                            proof {
                                assert(before + Seq::<EffectV>::empty() =~= before);
                            }
                            Line::Continue
                        },
                    }
                },
            }
        }
    }

    /// Forgets the pending prompt with this id, if there is one.
    fn take_prompt(&mut self, id: i64) -> (found: bool)
        ensures
            found == old(self)@.pending_prompt_request_ids.contains(id),
            found ==> final(self)@ == (AdapterV {
                pending_prompt_request_ids: old(self)@.pending_prompt_request_ids.remove(id),
                ..old(self)@
            }),
            !found ==> *final(self) == *old(self),
            final(self).backlog == old(self).backlog,
    {
        if self.pending_prompt_request_ids.contains(&id) {
            self.pending_prompt_request_ids.remove(&id);
            true
        } else {
            false
        }
    }

    /// Forgets the pending model switch with this id, if there is one, and
    /// hands it out.
    fn take_model(&mut self, id: i64) -> (found: Option<PendingModel>)
        ensures
            match found {
                Some(p) => {
                    &&& old(self)@.pending_set_model_requests.contains_key(id)
                    &&& p@ == old(self)@.pending_set_model_requests[id]
                    &&& final(self)@ == (AdapterV {
                        pending_set_model_requests: old(self)@.pending_set_model_requests.remove(
                            id,
                        ),
                        ..old(self)@
                    })
                },
                None => {
                    &&& !old(self)@.pending_set_model_requests.contains_key(id)
                    &&& *final(self) == *old(self)
                },
            },
            final(self).backlog == old(self).backlog,
    {
        if !self.pending_set_model_requests.contains_key(&id) {
            return None;
        }
        let ghost all = self.pending_set_model_requests@;
        let found = self.pending_set_model_requests.remove(&id);
        proof {
            assert(pending_view(self.pending_set_model_requests@) =~= pending_view(all).remove(id));
            assert(self@ =~~= (AdapterV {
                pending_set_model_requests: old(self)@.pending_set_model_requests.remove(id),
                ..old(self)@
            }));
        }
        found
    }
}

impl Adapter {
    fn handle_update(&mut self, params: Option<&Json>, effects: &mut Vec<Effect>) -> (line: Line)
        ensures
            line_view(final(self)@, effects_view(final(effects)@), line) == old(
                self,
            )@.handle_update(opt_view(params)).after(effects_view(old(effects)@)),
            *final(self) == *old(self),
    {
        let ghost before = effects_view(effects@);
        proof {
            assert(before + Seq::<EffectV>::empty() =~= before);
        }
        let update = match params {
            Some(p) => p.get("update"),
            None => None,
        };
        match update {
            Some(update) => {
                let mut events = handle_session_update(self.agent_id.as_str(), update);
                emit_command_registry_from_update(&mut events, self.agent_id.as_str(), update);
                emit_all(effects, events);
            },
            None => {},
        }
        Line::Continue
    }

    fn handle_request(&mut self, request_id: i64, method: &str, params: Option<&Json>) -> (line:
        Line)
        ensures
            line_view(final(self)@, Seq::empty(), line) == old(self)@.handle_request(
                request_id,
                method@,
                opt_view(params),
            ),
            final(self).backlog == old(self).backlog,
    {
        match handle_server_request(request_id, method, params) {
            Callback::Reply(text) => {
                self.phase = Phase::Sending(Outbound::Reply);
                Line::Yield(Operation::Send(text))
            },
            Callback::ReadFile { path, session_id } => {
                let target = path.clone();
                self.phase = Phase::ReadingFile { request_id, path, session_id };
                Line::Yield(Operation::ReadFile(target))
            },
            Callback::WriteFile { path, content } => {
                self.phase = Phase::WritingFile { request_id };
                Line::Yield(Operation::WriteFile { path, content })
            },
        }
    }

    fn handle_message(&mut self, message: &Json, effects: &mut Vec<Effect>) -> (line: Line)
        ensures
            line_view(final(self)@, effects_view(final(effects)@), line) == old(
                self,
            )@.handle_message(message@).after(effects_view(old(effects)@)),
            final(self).backlog == old(self).backlog,
    {
        let ghost before = effects_view(effects@);
        proof {
            reveal(AdapterV::handle_message);
            assert(before + Seq::<EffectV>::empty() =~= before);
        }
        match classify(message) {
            Inbound::Request { method, id, params } => {
                if crate::text::str_eq(method, "session/update") {
                    self.handle_update(params, effects)
                } else {
                    self.handle_request(id, method, params)
                }
            },
            Inbound::Notification { method, params } => {
                if crate::text::str_eq(method, "session/update") {
                    self.handle_update(params, effects)
                } else {
                    Line::Continue
                }
            },
            Inbound::Response { id, result, error } => self.handle_response(
                id,
                result,
                error,
                effects,
            ),
            Inbound::Other => Line::Continue,
        }
    }

    fn handle_line(&mut self, line: &str, effects: &mut Vec<Effect>) -> (r: Line)
        ensures
            line_view(final(self)@, effects_view(final(effects)@), r) == old(self)@.handle_line(
                line@,
            ).after(effects_view(old(effects)@)),
            final(self).backlog == old(self).backlog,
    {
        let ghost before = effects_view(effects@);
        proof {
            assert(before + Seq::<EffectV>::empty() =~= before);
        }
        proof {
            reveal(AdapterV::handle_line);
        }
        let raw = trim(line);
        if raw.as_str().unicode_len() == 0 || starts_with(raw.as_str(), "//") {
            return Line::Continue;
        }
        match Json::parse(raw.as_str()) {
            Some(message) => self.handle_message(&message, effects),
            None => Line::Continue,
        }
    }

    /// Deals with the lines that are left of the frame in hand.
    fn resume(&mut self, effects: Vec<Effect>) -> (out: Step)
        ensures
            outcome(final(self)@, out) == old(self)@.resume(effects_view(effects@)),
    {
        let ghost goal = self@.resume(effects_view(effects@));
        let mut acc = effects;
        loop
            invariant
                goal == old(self)@.resume(effects_view(effects@)),
                goal == self@.run_lines(self@.backlog, effects_view(acc@)),
            decreases self.backlog.len(),
        {
            let ghost lines = self@.backlog;
            let ghost state = self@;
            let ghost sofar = effects_view(acc@);
            match self.backlog.pop_front() {
                None => {
                    self.phase = Phase::Polling;
                    proof {
                        assert(lines.len() == 0);
                        assert(queue_texts(self.backlog@) =~= Seq::empty());
                        assert(self@ =~~= (AdapterV {
                            phase: crate::protocol::PhaseV::Polling,
                            backlog: Seq::empty(),
                            ..state
                        }));
                    }
                    return Step { effects: acc, next: Operation::Poll { idle_after: RECEIVE_TIMEOUT_SECS } };
                },
                Some(line) => {
                    let ghost rest = lines.drop_first();
                    let ghost start = AdapterV { backlog: rest, ..state };
                    let ghost spec_line = start.handle_line(lines[0]);
                    proof {
                        assert(lines.len() > 0);
                        assert(queue_texts(self.backlog@) =~= rest);
                        assert(self@ =~~= start);
                        assert(line@ == lines[0]);
                        assert(goal == spec_line.proceed(rest, sofar));
                    }
                    match self.handle_line(line.as_str(), &mut acc) {
                        Line::Continue => {
                            proof {
                                assert(self@.backlog == rest);
                                assert(spec_line.after(sofar) == (LineV::Continue {
                                    state: self@,
                                    effects: effects_view(acc@),
                                }));
                                assert(spec_line is Continue);
                                assert(effects_view(acc@) == sofar + spec_line->Continue_effects);
                                assert(goal == self@.run_lines(rest, effects_view(acc@)));
                            }
                        },
                        Line::Yield(next) => {
                            proof {
                                assert(self@.backlog == rest);
                                assert(spec_line is Yield);
                                assert(self@ =~~= (AdapterV { backlog: rest, ..self@ }));
                            }
                            return Step { effects: acc, next };
                        },
                        Line::Close => {
                            proof {
                                assert(spec_line is Close);
                            }
                            return self.end_connection(acc);
                        },
                    }
                },
            }
        }
    }

    /// Goes on with the queue after a queued prompt went out.
    fn drain(&mut self) -> (out: Step)
        ensures
            outcome(final(self)@, out) == old(self)@.drain(),
    {
        let effects: Vec<Effect> = Vec::new();
        proof {
            assert(effects_view(effects@) =~= Seq::empty());
            assert(Seq::<EffectV>::empty() + Seq::<EffectV>::empty() =~= Seq::<EffectV>::empty());
        }
        let ghost rest = self@.backlog;
        match self.flush() {
            Line::Continue => self.resume(effects),
            Line::Yield(next) => {
                proof {
                    assert(self@ =~~= (AdapterV { backlog: rest, ..self@ }));
                }
                Step { effects, next }
            },
            Line::Close => self.end_connection(effects),
        }
    }

    fn requeue(&mut self, prompt: String)
        ensures
            final(self)@ == (AdapterV {
                queued_prompts: seq![prompt@] + old(self)@.queued_prompts,
                ..old(self)@
            }),
    {
        let ghost pv = prompt@;
        self.queued_prompts.push_front(prompt);
        proof {
            assert(queue_texts(self.queued_prompts@) =~= seq![pv] + old(self)@.queued_prompts);
            assert(self@ =~~= (AdapterV {
                queued_prompts: seq![pv] + old(self)@.queued_prompts,
                ..old(self)@
            }));
        }
    }

    fn send_failed(&mut self, outbound: Outbound, reason: &str) -> (out: Step)
        ensures
            outcome(final(self)@, out) == old(self)@.send_failed(outbound@, reason@),
    {
        let mut effects: Vec<Effect> = Vec::new();
        proof {
            assert(effects_view(effects@) =~= Seq::empty());
        }
        match outbound {
            Outbound::Initialize { .. } | Outbound::SessionLoad | Outbound::SessionNew => {
                self.end_connection(effects)
            },
            Outbound::Prompt { prompt, .. } => {
                self.requeue(prompt);
                self.end_connection(effects)
            },
            Outbound::QueuedPrompt { prompt, .. } => {
                self.requeue(prompt);
                self.resume(effects)
            },
            Outbound::Cancel | Outbound::Reply => self.resume(effects),
            Outbound::SetModel { ticket, .. } => {
                let text = concat("Failed to send session/set_model: ", reason);
                let ghost e = EffectV::Resolve { ticket, result: Err(text@) };
                effects.push(Effect::Resolve { ticket, result: Err(text) });
                proof {
                    assert(effects_view(effects@) =~= seq![e]);
                }
                self.end_connection(effects)
            },
        }
    }

    fn sent(&mut self, outbound: Outbound) -> (out: Step)
        ensures
            outcome(final(self)@, out) == old(self)@.sent(outbound@),
    {
        let effects: Vec<Effect> = Vec::new();
        proof {
            assert(effects_view(effects@) =~= Seq::empty());
        }
        match outbound {
            Outbound::Initialize { id } => {
                self.initialize_request_id = Some(id);
                self.resume(effects)
            },
            Outbound::Prompt { id, .. } => {
                self.pending_prompt_request_ids.insert(id);
                self.resume(effects)
            },
            Outbound::QueuedPrompt { id, .. } => {
                self.pending_prompt_request_ids.insert(id);
                self.drain()
            },
            Outbound::SetModel { id, ticket, model } => {
                let ghost pv = crate::protocol::PendingModelV { ticket, model: model@ };
                let ghost before = self@.pending_set_model_requests;
                self.pending_set_model_requests.insert(id, PendingModel { ticket, model });
                proof {
                    assert(pending_view(self.pending_set_model_requests@) =~= before.insert(id, pv));
                    assert(self@ =~~= (AdapterV {
                        pending_set_model_requests: before.insert(id, pv),
                        ..old(self)@
                    }));
                }
                self.resume(effects)
            },
            _ => self.resume(effects),
        }
    }

    fn dispatch(&mut self, outbound: Outbound, method: &str, params: Json) -> (out: Step)
        ensures
            outcome(final(self)@, out) == old(self)@.dispatch(outbound@, method@, params@),
    {
        if self.rpc_id_counter < i64::MAX {
            let id = next_rpc_id(&mut self.rpc_id_counter);
            self.phase = Phase::Sending(outbound);
            let effects: Vec<Effect> = Vec::new();
            proof {
                assert(effects_view(effects@) =~= Seq::empty());
            }
            Step { effects, next: Operation::Send(build_rpc_request(id, method, params)) }
        } else {
            self.send_failed(outbound, "request ids are used up")
        }
    }

    fn command(&mut self, command: ListenerCommand) -> (out: Step)
        ensures
            outcome(final(self)@, out) == old(self)@.command(command@),
    {
        let mut effects: Vec<Effect> = Vec::new();
        proof {
            assert(effects_view(effects@) =~= Seq::empty());
        }
        let id = self.rpc_id_counter;
        match command {
            ListenerCommand::UserPrompt(prompt) => {
                let params = match &self.session_id {
                    Some(session_id) => Some(
                        build_prompt_params(session_id.as_str(), prompt.as_str()),
                    ),
                    None => None,
                };
                match params {
                    Some(params) => self.dispatch(
                        Outbound::Prompt { id, prompt },
                        "session/prompt",
                        params,
                    ),
                    None => {
                        let ghost pv = prompt@;
                        self.queued_prompts.push_back(prompt);
                        proof {
                            assert(queue_texts(self.queued_prompts@) =~= old(
                                self,
                            )@.queued_prompts.push(pv));
                            assert(self@ =~~= (AdapterV {
                                queued_prompts: old(self)@.queued_prompts.push(pv),
                                ..old(self)@
                            }));
                        }
                        Step { effects, next: Operation::Poll { idle_after: RECEIVE_TIMEOUT_SECS } }
                    },
                }
            },
            ListenerCommand::CancelPrompt => {
                let params = match &self.session_id {
                    Some(session_id) => Some(build_cancel_params(session_id.as_str())),
                    None => None,
                };
                match params {
                    Some(params) => self.dispatch(Outbound::Cancel, "session/cancel", params),
                    None => Step { effects, next: Operation::Poll { idle_after: RECEIVE_TIMEOUT_SECS } },
                }
            },
            ListenerCommand::SetModel { model, ticket } => {
                let params = match &self.session_id {
                    Some(session_id) => Some(
                        build_set_model_params(session_id.as_str(), model.as_str()),
                    ),
                    None => None,
                };
                match params {
                    Some(params) => self.dispatch(
                        Outbound::SetModel { id, ticket, model },
                        "session/set_model",
                        params,
                    ),
                    None => {
                        let text = "Session not ready".to_owned();
                        let ghost e = EffectV::Resolve { ticket, result: Err(text@) };
                        effects.push(Effect::Resolve { ticket, result: Err(text) });
                        proof {
                            assert(effects_view(effects@) =~= seq![e]);
                        }
                        Step { effects, next: Operation::Poll { idle_after: RECEIVE_TIMEOUT_SECS } }
                    },
                }
            },
        }
    }

    fn connected(&mut self) -> (out: Step)
        ensures
            outcome(final(self)@, out) == old(self)@.connected(),
    {
        self.close();
        self.retry_count = 0;
        self.session_id = self.cached_session_id.clone();
        self.rpc_id_counter = 2;
        self.phase = Phase::Sending(Outbound::Initialize { id: 1 });
        let effects: Vec<Effect> = Vec::new();
        proof {
            assert(effects_view(effects@) =~= Seq::empty());
        }
        Step {
            effects,
            next: Operation::Send(build_rpc_request(1, "initialize", build_initialize_params())),
        }
    }

    fn connect_failed(&mut self, reason: &str) -> (out: Step)
        ensures
            outcome(final(self)@, out) == old(self)@.connect_failed(reason@),
    {
        let mut effects: Vec<Effect> = Vec::new();
        proof {
            assert(effects_view(effects@) =~= Seq::empty());
        }
        if self.retry_count >= MAX_RETRIES - 1 {
            self.retry_count = MAX_RETRIES;
            let text = concat("Failed after 5 attempts: ", reason);
            let event = AppEvent::agent_error(self.agent_id.as_str(), text.as_str());
            let ghost e = EffectV::Emit(event@);
            effects.push(Effect::Emit(event));
            proof {
                assert(effects_view(effects@) =~= seq![e]);
            }
            self.stop(effects)
        } else {
            self.retry_count = self.retry_count + 1;
            self.phase = Phase::Waiting;
            Step { effects, next: Operation::Delay { seconds: RETRY_DELAY_SECS } }
        }
    }

    /// Puts the lines of a frame's text into the backlog.
    fn take_frame(&mut self, text: &str)
        ensures
            final(self)@ == (AdapterV { backlog: crate::text::split(text@, '\n'), ..old(self)@ }),
    {
        let chars = to_chars(text);
        let ranges = split_ranges(&chars, '\n');
        let ghost lines = crate::text::split(text@, '\n');
        let mut backlog: VecDeque<String> = VecDeque::new();
        let mut i: usize = 0;
        proof {
            assert(queue_texts(backlog@) =~= lines.take(0));
        }
        while i < ranges.len()
            invariant
                0 <= i <= ranges.len(),
                ranges@.len() == lines.len(),
                chars@ == text@,
                lines == crate::text::split(chars@, '\n'),
                forall|k: int|
                    0 <= k < ranges@.len() ==> crate::text::bounds(
                        chars@,
                        #[trigger] ranges@[k],
                        lines[k],
                    ),
                queue_texts(backlog@) == lines.take(i as int),
            decreases ranges.len() - i,
        {
            let ghost sofar = queue_texts(backlog@);
            let range = ranges[i];
            let line = from_chars(&chars, range.0, range.1);
            let ghost lv = line@;
            backlog.push_back(line);
            proof {
                assert(queue_texts(backlog@) =~= sofar.push(lv));
                assert(lines.take(i + 1) =~= lines.take(i as int).push(lines[i as int]));
            }
            i = i + 1;
        }
        proof {
            assert(lines.take(lines.len() as int) =~= lines);
        }
        self.backlog = backlog;
        proof {
            assert(self@ =~~= (AdapterV { backlog: lines, ..old(self)@ }));
        }
    }

    /// Takes the event that reports on the operation last handed out, and
    /// says what is to be done next. The adapter moves as the machine
    /// [`AdapterV::step`] says, and a sound state stays sound.
    pub fn step(&mut self, event: Event) -> (out: Step)
        ensures
            outcome(final(self)@, out) == old(self)@.step(event@),
            old(self)@.wf() ==> final(self)@.wf(),
    {
        let effects: Vec<Effect> = Vec::new();
        proof {
            assert(effects_view(effects@) =~= Seq::empty());
            reveal(AdapterV::step);
            if self@.wf() {
                crate::invariants::step_keeps_ids_apart(self@, event@);
            }
        }
        let mut phase = Phase::Stopped;
        std::mem::swap(&mut self.phase, &mut phase);
        match (phase, event) {
            (Phase::Connecting, Event::Connected) => {
                self.phase = Phase::Connecting;
                self.connected()
            },
            (Phase::Connecting, Event::ConnectFailed(reason)) => {
                self.phase = Phase::Connecting;
                self.connect_failed(reason.as_str())
            },
            (Phase::Waiting, Event::DelayElapsed) => {
                self.phase = Phase::Connecting;
                Step { effects, next: Operation::Connect }
            },
            (Phase::Sending(outbound), Event::Sent) => {
                self.phase = Phase::Polling;
                self.sent(outbound)
            },
            (Phase::Sending(outbound), Event::SendFailed(reason)) => {
                self.phase = Phase::Polling;
                self.send_failed(outbound, reason.as_str())
            },
            (Phase::ReadingFile { request_id, path, session_id }, Event::FileRead(outcome)) => {
                self.phase = Phase::Sending(Outbound::Reply);
                let text = read_file_reply(request_id, path.as_str(), session_id.as_str(), outcome);
                Step { effects, next: Operation::Send(text) }
            },
            (Phase::WritingFile { request_id }, Event::FileWritten(outcome)) => {
                self.phase = Phase::Sending(Outbound::Reply);
                Step { effects, next: Operation::Send(write_file_reply(request_id, outcome)) }
            },
            (Phase::Polling, Event::Command(command)) => {
                self.phase = Phase::Polling;
                self.command(command)
            },
            (Phase::Polling, Event::Frame(text)) => {
                self.phase = Phase::Polling;
                self.take_frame(text.as_str());
                self.resume(effects)
            },
            (Phase::Polling, Event::Idle) => {
                self.phase = Phase::Polling;
                Step { effects, next: Operation::Poll { idle_after: RECEIVE_TIMEOUT_SECS } }
            },
            (Phase::Polling, Event::SocketClosed) => {
                self.phase = Phase::Polling;
                self.end_connection(effects)
            },
            (Phase::Polling, Event::ReceiveFailed(_)) => {
                self.phase = Phase::Polling;
                self.end_connection(effects)
            },
            (phase, _) => {
                self.phase = phase;
                self.stop(effects)
            },
        }
    }
}

} // verus!
