//! What holds of the adapter's machine in every state it can reach.

use vstd::prelude::*;
use crate::json::JsonV;
use crate::models::ListenerCommandV;
use crate::machine::{AdapterV, LineV, MAX_RETRIES, OutcomeV, outbound_ids};
use crate::protocol::{EffectV, EventV, OperationV, OutboundV, PendingModelV, PhaseV};

verus! {

/// `after` can follow `before` on one connection: the counter did not go
/// back, and every id in use was in use before or has been handed out by the
/// counter since.
pub open spec fn extends(before: AdapterV, after: AdapterV) -> bool {
    &&& before.rpc_id_counter <= after.rpc_id_counter
    &&& before.retry_count == after.retry_count
    &&& before.agent_id == after.agent_id
    &&& forall|id: i64| #[trigger]
        after.holders(id) >= 1 ==> before.holders(id) >= 1 || before.rpc_id_counter <= id
}

proof fn lemma_extends_transitive(a: AdapterV, b: AdapterV, c: AdapterV)
    requires
        a.wf(),
        extends(a, b),
        extends(b, c),
    ensures
        extends(a, c),
{
    assert forall|id: i64| #[trigger] c.holders(id) >= 1 implies a.holders(id) >= 1
        || a.rpc_id_counter <= id by {
        if b.holders(id) >= 1 {
        }
    }
}

/// A line's outcome keeps the state sound.
pub open spec fn line_sound(before: AdapterV, line: LineV) -> bool {
    match line {
        LineV::Continue { state, .. } => {
            &&& state.wf()
            &&& extends(before, state)
            &&& state.phase is Polling
            &&& state.backlog == before.backlog
        },
        LineV::Yield { state, .. } => {
            &&& state.wf()
            &&& extends(before, state)
            &&& state.backlog == before.backlog
            &&& !(state.phase is Stopped)
        },
        LineV::Close { state, .. } => state.retry_count == before.retry_count && state.agent_id
            == before.agent_id,
    }
}

proof fn lemma_request(s: AdapterV, outbound: OutboundV, method: Seq<char>, params: JsonV)
    requires
        s.wf(),
        s.phase is Polling,
        forall|id: i64|
            outbound_ids(PhaseV::Sending(outbound)).contains(id) ==> id == s.rpc_id_counter,
    ensures
        line_sound(s, s.request(outbound, method, params)),
{
    if s.rpc_id_counter < i64::MAX {
        let t = s.request(outbound, method, params)->Yield_state;
        assert(outbound_ids(s.phase) =~= Seq::empty());
        assert forall|id: i64| #[trigger]
            t.holders(id) <= 1 && (t.holders(id) >= 1 ==> 1 <= id < t.rpc_id_counter) && (
            t.holders(id) >= 1 ==> s.holders(id) >= 1 || s.rpc_id_counter <= id) by {
            assert(s.holders(id) <= 1);
            if outbound_ids(t.phase).contains(id) {
                assert(id == s.rpc_id_counter);
                assert(s.holders(id) == 0);
            }
        }
    }
}

proof fn lemma_request_session_new(s: AdapterV)
    requires
        s.wf(),
        s.phase is Polling,
    ensures
        line_sound(s, s.request_session_new()),
{
    if s.rpc_id_counter < i64::MAX {
        let t = s.request_session_new()->Yield_state;
        assert(outbound_ids(s.phase) =~= Seq::empty());
        assert(outbound_ids(t.phase) =~= Seq::empty());
        assert forall|id: i64| #[trigger]
            t.holders(id) <= 1 && (t.holders(id) >= 1 ==> 1 <= id < t.rpc_id_counter) && (
            t.holders(id) >= 1 ==> s.holders(id) >= 1 || s.rpc_id_counter <= id) by {
            assert(s.holders(id) <= 1);
            if id == s.rpc_id_counter {
                assert(s.holders(id) == 0);
            }
        }
    }
}

proof fn lemma_flush(s: AdapterV)
    requires
        s.wf(),
        s.phase is Polling,
    ensures
        line_sound(s, s.flush()),
{
    match s.session_id {
        Some(session_id) if s.queued_prompts.len() > 0 => {
            if s.rpc_id_counter < i64::MAX {
                let prompt = s.queued_prompts[0];
                let u = AdapterV { queued_prompts: s.queued_prompts.drop_first(), ..s };
                assert forall|id: i64| u.holders(id) == s.holders(id) by {}
                let outbound = OutboundV::QueuedPrompt { id: s.rpc_id_counter, prompt };
                assert forall|id: i64|
                    outbound_ids(PhaseV::Sending(outbound)).contains(id) implies id
                    == s.rpc_id_counter by {}
                lemma_request(
                    u,
                    outbound,
                    "session/prompt"@,
                    crate::session_params::prompt_params(session_id, prompt),
                );
                let t = s.flush()->Yield_state;
                assert forall|id: i64| #[trigger]
                    t.holders(id) >= 1 implies s.holders(id) >= 1 || s.rpc_id_counter <= id by {
                    assert(u.holders(id) == s.holders(id));
                }
            }
        },
        _ => {
            assert(extends(s, s));
        },
    }
}

proof fn lemma_handle_response(s: AdapterV, id: i64, result: Option<JsonV>, error: Option<JsonV>)
    requires
        s.wf(),
        s.phase is Polling,
    ensures
        line_sound(s, s.handle_response(id, result, error)),
{
    reveal(AdapterV::handle_response);
    assert(outbound_ids(s.phase) =~= Seq::empty());
    if s.initialize_request_id == Some(id) {
        let u = AdapterV { initialize_request_id: None, ..s };
        assert forall|x: i64| #[trigger]
            u.holders(x) <= 1 && (u.holders(x) >= 1 ==> 1 <= x < u.rpc_id_counter) && u.holders(x)
            <= s.holders(x) by {
            assert(s.holders(x) <= 1);
        }
        if error is None {
            match u.session_id {
                Some(session_id) => {
                    if u.rpc_id_counter < i64::MAX {
                        let v = AdapterV { session_load_request_id: Some(u.rpc_id_counter), ..u };
                        let t = s.handle_response(id, result, error)->Yield_state;
                        assert(outbound_ids(t.phase) =~= Seq::empty());
                        assert forall|x: i64| #[trigger]
                            t.holders(x) <= 1 && (t.holders(x) >= 1 ==> 1 <= x < t.rpc_id_counter)
                            && (t.holders(x) >= 1 ==> s.holders(x) >= 1 || s.rpc_id_counter <= x) by {
                            assert(u.holders(x) <= s.holders(x));
                            assert(s.holders(x) <= 1);
                            if x == s.rpc_id_counter {
                                assert(s.holders(x) == 0);
                            }
                        }
                    }
                },
                None => {
                    lemma_request_session_new(u);
                    let line = u.request_session_new();
                    if line is Yield {
                        let t = line->Yield_state;
                        assert forall|x: i64| #[trigger]
                            t.holders(x) >= 1 implies s.holders(x) >= 1 || s.rpc_id_counter <= x by {
                            assert(u.holders(x) <= s.holders(x));
                        }
                    }
                },
            }
        }
    } else if s.session_load_request_id == Some(id) {
        let u = AdapterV { session_load_request_id: None, ..s };
        assert forall|x: i64| #[trigger]
            u.holders(x) <= 1 && (u.holders(x) >= 1 ==> 1 <= x < u.rpc_id_counter) && u.holders(x)
            <= s.holders(x) by {
            assert(s.holders(x) <= 1);
        }
        match error {
            Some(_) => {
                let v = AdapterV { session_id: None, cached_session_id: None, ..u };
                assert forall|x: i64| #[trigger] v.holders(x) == u.holders(x) by {}
                assert forall|x: i64| #[trigger]
                    v.holders(x) <= 1 && (v.holders(x) >= 1 ==> 1 <= x < v.rpc_id_counter) by {
                    assert(u.holders(x) <= 1);
                }
                lemma_request_session_new(v);
                let line = v.request_session_new();
                if line is Yield {
                    let t = line->Yield_state;
                    assert forall|x: i64| #[trigger]
                        t.holders(x) >= 1 implies s.holders(x) >= 1 || s.rpc_id_counter <= x by {
                        assert(v.holders(x) == u.holders(x));
                        assert(u.holders(x) <= s.holders(x));
                    }
                }
            },
            None => {
                lemma_flush(u);
                lemma_sound_from(s, u, u.flush());
            },
        }
    } else if s.session_new_request_id == Some(id) {
        let u = AdapterV { session_new_request_id: None, ..s };
        assert forall|x: i64| #[trigger]
            u.holders(x) <= 1 && (u.holders(x) >= 1 ==> 1 <= x < u.rpc_id_counter) && u.holders(x)
            <= s.holders(x) by {
            assert(s.holders(x) <= 1);
        }
        if error is None {
            match crate::machine::new_session_id(result) {
                None => {},
                Some(session_id) => {
                    let v = AdapterV {
                        session_id: Some(session_id),
                        cached_session_id: Some(session_id),
                        ..u
                    };
                    assert forall|x: i64| #[trigger] v.holders(x) == u.holders(x) by {}
                    assert forall|x: i64| #[trigger]
                        v.holders(x) <= 1 && (v.holders(x) >= 1 ==> 1 <= x < v.rpc_id_counter)
                        && v.holders(x) <= s.holders(x) by {
                        assert(u.holders(x) <= 1);
                    }
                    lemma_flush(v);
                    lemma_sound_from(s, v, v.flush());
                },
            }
        }
    } else if s.pending_prompt_request_ids.contains(id) {
        let u = AdapterV {
            pending_prompt_request_ids: s.pending_prompt_request_ids.remove(id),
            ..s
        };
        assert forall|x: i64| #[trigger]
            u.holders(x) <= 1 && (u.holders(x) >= 1 ==> 1 <= x < u.rpc_id_counter) && u.holders(x)
            <= s.holders(x) by {
            assert(s.holders(x) <= 1);
        }
    } else if s.pending_set_model_requests.contains_key(id) {
        let u = AdapterV {
            pending_set_model_requests: s.pending_set_model_requests.remove(id),
            ..s
        };
        assert forall|x: i64| #[trigger]
            u.holders(x) <= 1 && (u.holders(x) >= 1 ==> 1 <= x < u.rpc_id_counter) && u.holders(x)
            <= s.holders(x) by {
            assert(s.holders(x) <= 1);
        }
    } else {
        assert(extends(s, s));
    }
}

/// What is sound after `middle` is sound after `before`, where `middle` holds
/// no id that `before` did not hold.
proof fn lemma_sound_from(before: AdapterV, middle: AdapterV, line: LineV)
    requires
        before.wf(),
        line_sound(middle, line),
        middle.rpc_id_counter == before.rpc_id_counter,
        middle.retry_count == before.retry_count,
        middle.agent_id == before.agent_id,
        middle.backlog == before.backlog,
        forall|x: i64| #[trigger] middle.holders(x) <= before.holders(x),
    ensures
        line_sound(before, line),
        line_sound(before, line.after(Seq::empty())),
{
    match line {
        LineV::Continue { state, .. } => {
            assert forall|x: i64| #[trigger]
                state.holders(x) >= 1 implies before.holders(x) >= 1 || before.rpc_id_counter
                <= x by {
                assert(middle.holders(x) <= before.holders(x));
            }
        },
        LineV::Yield { state, .. } => {
            assert forall|x: i64| #[trigger]
                state.holders(x) >= 1 implies before.holders(x) >= 1 || before.rpc_id_counter
                <= x by {
                assert(middle.holders(x) <= before.holders(x));
            }
        },
        LineV::Close { .. } => {},
    }
}

proof fn lemma_handle_message(s: AdapterV, message: JsonV)
    requires
        s.wf(),
        s.phase is Polling,
    ensures
        line_sound(s, s.handle_message(message)),
{
    reveal(AdapterV::handle_message);
    assert(extends(s, s));
    assert(outbound_ids(s.phase) =~= Seq::empty());
    match crate::rpc::inbound_of(message) {
        crate::rpc::InboundV::Request { method, id, params } => {
            if method != "session/update"@ {
                let line = s.handle_request(id, method, params);
                assert(line is Yield);
                let t = line->Yield_state;
                assert(outbound_ids(t.phase) =~= Seq::empty());
                assert forall|x: i64| #[trigger] t.holders(x) == s.holders(x) by {}
                assert forall|x: i64| #[trigger]
                    t.holders(x) <= 1 && (t.holders(x) >= 1 ==> 1 <= x < t.rpc_id_counter) by {
                    assert(s.holders(x) <= 1);
                }
            }
        },
        crate::rpc::InboundV::Response { id, result, error } => {
            lemma_handle_response(s, id, result, error);
        },
        _ => {},
    }
}

proof fn lemma_handle_line(s: AdapterV, line: Seq<char>)
    requires
        s.wf(),
        s.phase is Polling,
    ensures
        line_sound(s, s.handle_line(line)),
{
    reveal(AdapterV::handle_line);
    assert(extends(s, s));
    let raw = crate::text::trimmed(line);
    if !(raw.len() == 0 || "//"@.is_prefix_of(raw)) {
        match crate::json::parsed(raw) {
            Some(message) => {
                lemma_handle_message(s, message);
            },
            None => {},
        }
    }
}

/// An outcome keeps the state sound. Where the connection goes on, the state
/// can follow the one before.
pub open spec fn outcome_sound(before: AdapterV, out: OutcomeV) -> bool {
    &&& out.state.wf()
    &&& out.state.retry_count == before.retry_count
    &&& out.state.agent_id == before.agent_id
    &&& out.next is Connect || out.next is Stop || extends(before, out.state)
}

proof fn lemma_closed(s: AdapterV)
    requires
        s.retry_count < MAX_RETRIES,
    ensures
        s.closed().wf(),
        forall|id: i64| #[trigger] s.closed().holders(id) == 0,
{
    let c = s.closed();
    assert(outbound_ids(c.phase) =~= Seq::empty());
    assert forall|id: i64| #[trigger] c.holders(id) == 0 by {}
}

proof fn lemma_stop(s: AdapterV, effects: Seq<EffectV>)
    requires
        s.retry_count <= MAX_RETRIES,
    ensures
        s.stop(effects).state.wf(),
{
    let c = s.stop(effects).state;
    assert(outbound_ids(c.phase) =~= Seq::empty());
    assert forall|id: i64| #[trigger] c.holders(id) == 0 by {}
}

proof fn lemma_run_lines(s: AdapterV, lines: Seq<Seq<char>>, effects: Seq<EffectV>)
    requires
        s.wf(),
        s.phase is Polling,
    ensures
        outcome_sound(s, s.run_lines(lines, effects)),
    decreases lines.len(), 0nat,
{
    if lines.len() == 0 {
        let t = s.run_lines(lines, effects).state;
        assert forall|x: i64| #[trigger] t.holders(x) == s.holders(x) by {}
        assert forall|x: i64| #[trigger]
            t.holders(x) <= 1 && (t.holders(x) >= 1 ==> 1 <= x < t.rpc_id_counter) by {
            assert(s.holders(x) <= 1);
        }
    } else {
        let rest = lines.drop_first();
        let start = AdapterV { backlog: rest, ..s };
        assert forall|x: i64| #[trigger] start.holders(x) == s.holders(x) by {}
        assert forall|x: i64| #[trigger]
            start.holders(x) <= 1 && (start.holders(x) >= 1 ==> 1 <= x < start.rpc_id_counter) by {
            assert(s.holders(x) <= 1);
        }
        lemma_handle_line(start, lines[0]);
        lemma_proceed(s, start, start.handle_line(lines[0]), rest, effects);
    }
}

proof fn lemma_proceed(
    s: AdapterV,
    start: AdapterV,
    line: LineV,
    rest: Seq<Seq<char>>,
    effects: Seq<EffectV>,
)
    requires
        s.wf(),
        start.wf(),
        start.rpc_id_counter == s.rpc_id_counter,
        start.retry_count == s.retry_count,
        start.agent_id == s.agent_id,
        !(start.phase is Stopped),
        forall|x: i64| #[trigger] start.holders(x) <= s.holders(x),
        line_sound(start, line),
    ensures
        outcome_sound(s, line.proceed(rest, effects)),
    decreases rest.len(), 1nat,
{
    match line {
        LineV::Continue { state, effects: more } => {
            lemma_run_lines(state, rest, effects + more);
            let out = state.run_lines(rest, effects + more);
            if !(out.next is Connect || out.next is Stop) {
                lemma_extends_transitive(start, state, out.state);
                assert forall|x: i64| #[trigger]
                    out.state.holders(x) >= 1 implies s.holders(x) >= 1 || s.rpc_id_counter
                    <= x by {
                    assert(start.holders(x) <= s.holders(x));
                }
            }
        },
        LineV::Yield { state, effects: more, next } => {
            let t = AdapterV { backlog: rest, ..state };
            assert forall|x: i64| #[trigger] t.holders(x) == state.holders(x) by {}
            assert forall|x: i64| #[trigger]
                t.holders(x) <= 1 && (t.holders(x) >= 1 ==> 1 <= x < t.rpc_id_counter) && (
                t.holders(x) >= 1 ==> s.holders(x) >= 1 || s.rpc_id_counter <= x) by {
                assert(state.holders(x) <= 1);
                assert(start.holders(x) <= s.holders(x));
            }
        },
        LineV::Close { state, effects: more } => {
            lemma_closed(state);
        },
    }
}

proof fn lemma_same_holders(s: AdapterV, t: AdapterV)
    requires
        s.wf(),
        t.retry_count == s.retry_count,
        t.agent_id == s.agent_id,
        t.rpc_id_counter == s.rpc_id_counter,
        !(t.phase is Stopped) || s.phase is Stopped,
        t.retry_count == MAX_RETRIES ==> t.phase is Stopped,
        t.pending_prompt_request_ids == s.pending_prompt_request_ids,
        t.pending_set_model_requests == s.pending_set_model_requests,
        forall|x: i64| #[trigger] t.holders(x) <= s.holders(x),
    ensures
        t.wf(),
        extends(s, t),
{
    assert forall|x: i64| #[trigger]
        t.holders(x) <= 1 && (t.holders(x) >= 1 ==> 1 <= x < t.rpc_id_counter) && (t.holders(x)
        >= 1 ==> s.holders(x) >= 1 || s.rpc_id_counter <= x) by {
        assert(t.holders(x) <= s.holders(x));
        assert(s.holders(x) <= 1);
    }
}

proof fn lemma_resume(before: AdapterV, s: AdapterV, effects: Seq<EffectV>)
    requires
        before.wf(),
        s.wf(),
        extends(before, s),
        s.phase is Polling,
    ensures
        outcome_sound(before, s.resume(effects)),
{
    lemma_run_lines(s, s.backlog, effects);
    let out = s.resume(effects);
    if !(out.next is Connect || out.next is Stop) {
        lemma_extends_transitive(before, s, out.state);
    }
}

proof fn lemma_sent(s: AdapterV, outbound: OutboundV)
    requires
        s.wf(),
        s.phase == PhaseV::Sending(outbound),
    ensures
        outcome_sound(s, (AdapterV { phase: PhaseV::Polling, ..s }).sent(outbound)),
{
    let u = AdapterV { phase: PhaseV::Polling, ..s };
    assert(outbound_ids(u.phase) =~= Seq::empty());
    match outbound {
        OutboundV::Initialize { id } => {
            let t = AdapterV { initialize_request_id: Some(id), ..u };
            assert(outbound_ids(s.phase).contains(id)) by {
                assert(outbound_ids(s.phase)[0] == id);
            }
            assert forall|x: i64| #[trigger] t.holders(x) <= s.holders(x) by {
                if x == id {
                    assert(s.holders(x) <= 1);
                }
            }
            lemma_same_holders(s, t);
            lemma_resume(s, t, Seq::empty());
        },
        OutboundV::Prompt { id, .. } => {
            let t = AdapterV {
                pending_prompt_request_ids: u.pending_prompt_request_ids.insert(id),
                ..u
            };
            lemma_sent_prompt(s, t, id);
            lemma_resume(s, t, Seq::empty());
        },
        OutboundV::QueuedPrompt { id, .. } => {
            let t = AdapterV {
                pending_prompt_request_ids: u.pending_prompt_request_ids.insert(id),
                ..u
            };
            lemma_sent_prompt(s, t, id);
            lemma_flush(t);
            lemma_proceed(t, t, t.flush(), t.backlog, Seq::empty());
            let out = t.drain();
            if !(out.next is Connect || out.next is Stop) {
                lemma_extends_transitive(s, t, out.state);
            }
        },
        OutboundV::SetModel { id, ticket, model } => {
            let m = PendingModelV { ticket, model };
            let t = AdapterV {
                pending_set_model_requests: u.pending_set_model_requests.insert(id, m),
                ..u
            };
            assert(outbound_ids(s.phase).contains(id)) by {
                assert(outbound_ids(s.phase)[0] == id);
            }
            assert(s.holders(id) <= 1);
            assert forall|x: i64| #[trigger]
                t.holders(x) <= 1 && (t.holders(x) >= 1 ==> 1 <= x < t.rpc_id_counter) && (
                t.holders(x) >= 1 ==> s.holders(x) >= 1 || s.rpc_id_counter <= x) by {
                assert(s.holders(x) <= 1);
            }
            lemma_resume(s, t, Seq::empty());
        },
        _ => {
            assert forall|x: i64| #[trigger] u.holders(x) <= s.holders(x) by {}
            lemma_same_holders(s, u);
            lemma_resume(s, u, Seq::empty());
        },
    }
}

proof fn lemma_sent_prompt(s: AdapterV, t: AdapterV, id: i64)
    requires
        s.wf(),
        outbound_ids(s.phase) == seq![id],
        t == (AdapterV {
            phase: PhaseV::Polling,
            pending_prompt_request_ids: s.pending_prompt_request_ids.insert(id),
            ..s
        }),
    ensures
        t.wf(),
        extends(s, t),
{
    assert(outbound_ids(s.phase).contains(id)) by {
        assert(outbound_ids(s.phase)[0] == id);
    }
    assert(outbound_ids(t.phase) =~= Seq::empty());
    assert(s.holders(id) <= 1);
    assert forall|x: i64| #[trigger]
        t.holders(x) <= 1 && (t.holders(x) >= 1 ==> 1 <= x < t.rpc_id_counter) && (t.holders(x)
        >= 1 ==> s.holders(x) >= 1 || s.rpc_id_counter <= x) by {
        assert(s.holders(x) <= 1);
    }
}

proof fn lemma_requeue(s: AdapterV, t: AdapterV)
    requires
        s.wf(),
        !(s.phase is Stopped),
        t == (AdapterV { phase: PhaseV::Polling, queued_prompts: t.queued_prompts, ..s }),
    ensures
        t.wf(),
        extends(s, t),
{
    assert(outbound_ids(t.phase) =~= Seq::empty());
    assert forall|x: i64| #[trigger] t.holders(x) <= s.holders(x) by {}
    lemma_same_holders(s, t);
}

proof fn lemma_send_failed(s: AdapterV, u: AdapterV, outbound: OutboundV, reason: Seq<char>)
    requires
        s.wf(),
        !(s.phase is Stopped),
        u == (AdapterV { phase: PhaseV::Polling, ..s }),
    ensures
        outcome_sound(s, u.send_failed(outbound, reason)),
{
    lemma_requeue(s, u);
    match outbound {
        OutboundV::Initialize { .. } | OutboundV::SessionLoad | OutboundV::SessionNew => {
            lemma_closed(u);
        },
        OutboundV::Prompt { prompt, .. } => {
            lemma_closed(AdapterV { queued_prompts: seq![prompt] + u.queued_prompts, ..u });
        },
        OutboundV::QueuedPrompt { prompt, .. } => {
            let t = AdapterV { queued_prompts: seq![prompt] + u.queued_prompts, ..u };
            lemma_requeue(s, t);
            lemma_resume(s, t, Seq::empty());
        },
        OutboundV::Cancel | OutboundV::Reply => {
            lemma_resume(s, u, Seq::empty());
        },
        OutboundV::SetModel { .. } => {
            lemma_closed(u);
        },
    }
}

proof fn lemma_dispatch(s: AdapterV, outbound: OutboundV, method: Seq<char>, params: JsonV)
    requires
        s.wf(),
        s.phase is Polling,
        forall|id: i64|
            outbound_ids(PhaseV::Sending(outbound)).contains(id) ==> id == s.rpc_id_counter,
    ensures
        outcome_sound(s, s.dispatch(outbound, method, params)),
{
    if s.rpc_id_counter < i64::MAX {
        lemma_request(s, outbound, method, params);
    } else {
        lemma_send_failed(s, s, outbound, "request ids are used up"@);
    }
}

proof fn lemma_command(s: AdapterV, command: crate::models::ListenerCommandV)
    requires
        s.wf(),
        s.phase is Polling,
    ensures
        outcome_sound(s, s.command(command)),
{
    assert(extends(s, s));
    match command {
        ListenerCommandV::UserPrompt(prompt) => match s.session_id {
            Some(session_id) => {
                let outbound = OutboundV::Prompt { id: s.rpc_id_counter, prompt };
                assert forall|id: i64|
                    outbound_ids(PhaseV::Sending(outbound)).contains(id) implies id
                    == s.rpc_id_counter by {}
                lemma_dispatch(
                    s,
                    outbound,
                    "session/prompt"@,
                    crate::session_params::prompt_params(session_id, prompt),
                );
            },
            None => {
                lemma_requeue(s, AdapterV { queued_prompts: s.queued_prompts.push(prompt), ..s });
            },
        },
        ListenerCommandV::CancelPrompt => match s.session_id {
            Some(session_id) => {
                assert forall|id: i64|
                    outbound_ids(PhaseV::Sending(OutboundV::Cancel)).contains(id) implies id
                    == s.rpc_id_counter by {}
                lemma_dispatch(
                    s,
                    OutboundV::Cancel,
                    "session/cancel"@,
                    crate::session_params::cancel_params(session_id),
                );
            },
            None => {},
        },
        ListenerCommandV::SetModel { model, ticket } => match s.session_id {
            Some(session_id) => {
                let outbound = OutboundV::SetModel { id: s.rpc_id_counter, ticket, model };
                assert forall|id: i64|
                    outbound_ids(PhaseV::Sending(outbound)).contains(id) implies id
                    == s.rpc_id_counter by {}
                lemma_dispatch(
                    s,
                    outbound,
                    "session/set_model"@,
                    crate::session_params::set_model_params(session_id, model),
                );
            },
            None => {},
        },
    }
}

/// Every step leaves a sound state sound: no id ever stands for two
/// requests. While a connection lasts its counter never goes back, and an id
/// that comes into use is one the counter has handed out since the step
/// began: ids are handed out in strictly rising order. The count of failed
/// attempts changes only where an attempt to connect is answered.
pub proof fn step_keeps_ids_apart(s: AdapterV, event: EventV)
    requires
        s.wf(),
    ensures
        s.step(event).state.wf(),
        s.step(event).state.agent_id == s.agent_id,
        !(s.phase is Connecting) ==> s.step(event).state.retry_count == s.retry_count,
        s.step(event).next is Connect || s.step(event).next is Stop || s.phase is Connecting || extends(
            s,
            s.step(event).state,
        ),
{
    reveal(AdapterV::step);
    let out = s.step(event);
    assert(extends(s, s));
    match (s.phase, event) {
        (PhaseV::Connecting, EventV::Connected) => {
            let t = out.state;
            assert(outbound_ids(t.phase) =~= seq![1i64]);
            assert forall|x: i64| #[trigger]
                t.holders(x) <= 1 && (t.holders(x) >= 1 ==> 1 <= x < t.rpc_id_counter) by {
                if outbound_ids(t.phase).contains(x) {
                    let i = choose|i: int|
                        0 <= i < outbound_ids(t.phase).len() && outbound_ids(t.phase)[i] == x;
                    assert(x == 1);
                }
            }
        },
        (PhaseV::Connecting, EventV::ConnectFailed(reason)) => {
            if s.retry_count + 1 >= MAX_RETRIES {
                lemma_stop(AdapterV { retry_count: MAX_RETRIES, ..s }, out.effects);
            } else {
                let t = out.state;
                assert(outbound_ids(t.phase) =~= Seq::empty());
                assert forall|x: i64| #[trigger]
                    t.holders(x) <= 1 && (t.holders(x) >= 1 ==> 1 <= x < t.rpc_id_counter) by {
                    assert(s.holders(x) <= 1);
                }
            }
        },
        (PhaseV::Waiting, EventV::DelayElapsed) => {
            let t = out.state;
            assert forall|x: i64| #[trigger] t.holders(x) <= s.holders(x) by {}
            lemma_same_holders(s, t);
        },
        (PhaseV::Sending(outbound), EventV::Sent) => {
            lemma_sent(s, outbound);
        },
        (PhaseV::Sending(outbound), EventV::SendFailed(reason)) => {
            lemma_send_failed(s, AdapterV { phase: PhaseV::Polling, ..s }, outbound, reason);
        },
        (PhaseV::ReadingFile { .. }, EventV::FileRead(_)) => {
            let t = out.state;
            assert(outbound_ids(t.phase) =~= Seq::empty());
            assert forall|x: i64| #[trigger] t.holders(x) <= s.holders(x) by {}
            lemma_same_holders(s, t);
        },
        (PhaseV::WritingFile { .. }, EventV::FileWritten(_)) => {
            let t = out.state;
            assert(outbound_ids(t.phase) =~= Seq::empty());
            assert forall|x: i64| #[trigger] t.holders(x) <= s.holders(x) by {}
            lemma_same_holders(s, t);
        },
        (PhaseV::Polling, EventV::Command(command)) => {
            lemma_command(s, command);
        },
        (PhaseV::Polling, EventV::Frame(text)) => {
            lemma_run_lines(s, crate::text::split(text, '\n'), Seq::empty());
        },
        (PhaseV::Polling, EventV::Idle) => {},
        (PhaseV::Polling, EventV::SocketClosed) => {
            lemma_closed(s);
        },
        (PhaseV::Polling, EventV::ReceiveFailed(_)) => {
            lemma_closed(s);
        },
        _ => {
            lemma_stop(s, Seq::empty());
        },
    }
}

/// While the adapter has not stopped, fewer attempts have failed in a row
/// than are allowed. A failed attempt before the last one allowed leads to a
/// pause and another attempt; the last one allowed is reported to the
/// application, and the adapter stops.
pub proof fn failed_attempts_are_capped(s: AdapterV, reason: Seq<char>)
    requires
        s.wf(),
        s.phase is Connecting,
    ensures
        s.retry_count < MAX_RETRIES,
        s.retry_count + 1 < MAX_RETRIES ==> {
            let out = s.step(EventV::ConnectFailed(reason));
            &&& out.next == OperationV::Delay { seconds: crate::machine::RETRY_DELAY_SECS }
            &&& out.effects.len() == 0
            &&& out.state.phase is Waiting
            &&& out.state.retry_count == s.retry_count + 1
        },
        s.retry_count + 1 == MAX_RETRIES ==> {
            let out = s.step(EventV::ConnectFailed(reason));
            &&& out.next is Stop
            &&& out.state.phase is Stopped
            &&& out.effects == seq![
                EffectV::Emit(
                    crate::events::agent_error(s.agent_id, "Failed after 5 attempts: "@ + reason),
                ),
            ]
        },
{
    reveal(AdapterV::step);
}

/// An adapter that has stopped stays stopped: whatever it is told, it asks
/// for nothing more, and least of all for another connection.
pub proof fn stopped_is_final(s: AdapterV, event: EventV)
    requires
        s.phase is Stopped,
    ensures
        s.step(event).next is Stop,
        s.step(event).state.phase is Stopped,
        s.step(event).effects.len() == 0,
{
    reveal(AdapterV::step);
}

/// A connection that comes about starts the count of failed attempts anew.
pub proof fn connecting_resets_attempts(s: AdapterV)
    requires
        s.phase is Connecting,
    ensures
        s.step(EventV::Connected).state.retry_count == 0,
        s.step(EventV::Connected).next == OperationV::Send(
            crate::machine::request_text(
                1,
                "initialize"@,
                crate::session_params::initialize_params(),
            ),
        ),
{
    reveal(AdapterV::step);
}

/// The state after `n` attempts in a row have failed, each but the last
/// followed by its pause.
pub open spec fn after_failures(s: AdapterV, reasons: Seq<Seq<char>>) -> AdapterV
    decreases reasons.len(),
{
    if reasons.len() == 0 {
        s
    } else {
        after_failures(s, reasons.drop_last()).step(EventV::ConnectFailed(reasons.last())).state.step(
            EventV::DelayElapsed,
        ).state
    }
}

/// From a fresh count, each attempt that fails before the fifth is followed
/// by a pause and a new attempt; the fifth in a row stops the adapter.
pub proof fn fifth_failure_stops(s: AdapterV, reasons: Seq<Seq<char>>, last: Seq<char>)
    requires
        s.wf(),
        s.phase is Connecting,
        s.retry_count == 0,
        reasons.len() < MAX_RETRIES,
    ensures
        after_failures(s, reasons).phase is Connecting,
        after_failures(s, reasons).retry_count == reasons.len(),
        after_failures(s, reasons).agent_id == s.agent_id,
        after_failures(s, reasons).wf(),
        reasons.len() + 1 < MAX_RETRIES ==> after_failures(s, reasons).step(
            EventV::ConnectFailed(last),
        ).next is Delay,
        reasons.len() + 1 == MAX_RETRIES ==> after_failures(s, reasons).step(
            EventV::ConnectFailed(last),
        ).next is Stop,
    decreases reasons.len(),
{
    reveal(AdapterV::step);
    if reasons.len() > 0 {
        fifth_failure_stops(s, reasons.drop_last(), reasons.last());
        let a = after_failures(s, reasons.drop_last());
        step_keeps_ids_apart(a, EventV::ConnectFailed(reasons.last()));
        let b = a.step(EventV::ConnectFailed(reasons.last())).state;
        step_keeps_ids_apart(b, EventV::DelayElapsed);
    }
}

/// When `session/load` is answered with an error, the adapter forgets the
/// session it wanted to resume and asks for a new one, once: the same answer
/// a second time finds nothing that waits for it, and nothing is sent.
pub proof fn load_failure_falls_back_once(
    s: AdapterV,
    id: i64,
    result: Option<JsonV>,
    error: JsonV,
    again_result: Option<JsonV>,
    again_error: Option<JsonV>,
)
    requires
        s.wf(),
        s.phase is Polling,
        s.session_load_request_id == Some(id),
        s.rpc_id_counter < i64::MAX,
    ensures
        ({
            let line = s.handle_response(id, result, Some(error));
            &&& line is Yield
            &&& line->Yield_effects.len() == 0
            &&& line->Yield_next == OperationV::Send(
                crate::machine::request_text(
                    s.rpc_id_counter,
                    "session/new"@,
                    crate::session_params::session_new_params(s.workspace_path),
                ),
            )
            &&& line->Yield_state.session_load_request_id is None
            &&& line->Yield_state.session_new_request_id == Some(s.rpc_id_counter)
            &&& line->Yield_state.session_id is None
            &&& line->Yield_state.cached_session_id is None
            &&& (AdapterV { phase: PhaseV::Polling, ..line->Yield_state }).handle_response(
                id,
                again_result,
                again_error,
            ) == (LineV::Continue {
                state: AdapterV { phase: PhaseV::Polling, ..line->Yield_state },
                effects: Seq::empty(),
            })
        }),
{
    reveal(AdapterV::handle_response);
    assert(s.holders(id) <= 1);
    assert(s.holders(id) >= 1);
    assert(s.initialize_request_id != Some(id));
    assert(!s.pending_prompt_request_ids.contains(id));
    assert(!s.pending_set_model_requests.contains_key(id));
    assert(id < s.rpc_id_counter);
    let u = AdapterV {
        session_id: None,
        cached_session_id: None,
        session_load_request_id: None,
        ..s
    };
    let line = s.handle_response(id, result, Some(error));
    assert(line == u.request_session_new());
    assert(line is Yield);
    let t = AdapterV { phase: PhaseV::Polling, ..line->Yield_state };
    assert(t.session_new_request_id == Some(s.rpc_id_counter));
    assert(t.pending_prompt_request_ids == s.pending_prompt_request_ids);
    assert(t.pending_set_model_requests == s.pending_set_model_requests);
}

/// A result of `session/new` without a session id ends the connection with
/// an error for the application. No session is in use afterwards, none is
/// kept for later, and the prompts that wait go on waiting.
pub proof fn missing_session_id_is_fatal(s: AdapterV, id: i64, result: Option<JsonV>)
    requires
        s.wf(),
        s.phase is Polling,
        s.session_new_request_id == Some(id),
        crate::machine::new_session_id(result) is None,
    ensures
        ({
            let line = s.handle_response(id, result, None);
            &&& line is Close
            &&& line->Close_effects == seq![
                EffectV::Emit(
                    crate::events::agent_error(
                        s.agent_id,
                        "session/new succeeded but no sessionId returned"@,
                    ),
                ),
            ]
            &&& line->Close_state.session_id is None
            &&& line->Close_state.cached_session_id is None
            &&& line->Close_state.queued_prompts == s.queued_prompts
        }),
{
    reveal(AdapterV::handle_response);
    assert(s.holders(id) <= 1);
    assert(s.holders(id) >= 1);
}

/// A prompt given while there is no session is not sent: it joins the queue
/// at its end.
pub proof fn prompt_without_session_is_queued(s: AdapterV, prompt: Seq<char>)
    requires
        s.phase is Polling,
        s.session_id is None,
    ensures
        ({
            let out = s.step(EventV::Command(ListenerCommandV::UserPrompt(prompt)));
            &&& out.next is Poll
            &&& out.effects.len() == 0
            &&& out.state == (AdapterV { queued_prompts: s.queued_prompts.push(prompt), ..s })
        }),
{
    reveal(AdapterV::step);
}

/// The adapter is sending the queued prompt `prompt` under the id `id`,
/// with `rest` still in the queue and no line of a frame left over.
pub open spec fn draining(
    s: AdapterV,
    session_id: Seq<char>,
    id: i64,
    prompt: Seq<char>,
    rest: Seq<Seq<char>>,
) -> bool {
    &&& s.phase == PhaseV::Sending(OutboundV::QueuedPrompt { id, prompt })
    &&& s.session_id == Some(session_id)
    &&& s.queued_prompts == rest
    &&& s.rpc_id_counter == id + 1
    &&& s.backlog.len() == 0
}

/// The state after `n` sends in a row went through.
pub open spec fn after_sent(s: AdapterV, n: nat) -> AdapterV
    decreases n,
{
    if n == 0 {
        s
    } else {
        after_sent(s, (n - 1) as nat).step(EventV::Sent).state
    }
}

/// Once a session is there, the first prompt of the queue is the first to be
/// sent.
pub proof fn ready_sends_oldest_first(s: AdapterV, session_id: Seq<char>)
    requires
        s.session_id == Some(session_id),
        s.queued_prompts.len() > 0,
        s.rpc_id_counter < i64::MAX,
        s.backlog.len() == 0,
    ensures
        s.flush() is Yield,
        s.flush()->Yield_effects.len() == 0,
        s.flush()->Yield_next == OperationV::Send(
            crate::machine::request_text(
                s.rpc_id_counter,
                "session/prompt"@,
                crate::session_params::prompt_params(session_id, s.queued_prompts[0]),
            ),
        ),
        draining(
            s.flush()->Yield_state,
            session_id,
            s.rpc_id_counter,
            s.queued_prompts[0],
            s.queued_prompts.skip(1),
        ),
{
    assert(s.queued_prompts.drop_first() =~= s.queued_prompts.skip(1));
}

proof fn lemma_queued_sent(
    t: AdapterV,
    session_id: Seq<char>,
    id: i64,
    prompt: Seq<char>,
    rest: Seq<Seq<char>>,
)
    requires
        draining(t, session_id, id, prompt, rest),
        id + 1 < i64::MAX,
    ensures
        rest.len() > 0 ==> {
            let out = t.step(EventV::Sent);
            &&& out.effects.len() == 0
            &&& out.next == OperationV::Send(
                crate::machine::request_text(
                    (id + 1) as i64,
                    "session/prompt"@,
                    crate::session_params::prompt_params(session_id, rest[0]),
                ),
            )
            &&& draining(out.state, session_id, (id + 1) as i64, rest[0], rest.skip(1))
        },
        rest.len() == 0 ==> {
            let out = t.step(EventV::Sent);
            &&& out.state.queued_prompts.len() == 0
            &&& out.next is Poll
        },
{
    reveal(AdapterV::step);
    let u = AdapterV { phase: PhaseV::Polling, ..t };
    let v = AdapterV { pending_prompt_request_ids: u.pending_prompt_request_ids.insert(id), ..u };
    assert(t.step(EventV::Sent) == u.sent(OutboundV::QueuedPrompt { id, prompt }));
    assert(u.sent(OutboundV::QueuedPrompt { id, prompt }) == v.drain());
    assert(v.drain() == v.flush().proceed(v.backlog, Seq::empty()));
    assert(v.backlog =~= Seq::empty());
    if rest.len() > 0 {
        assert(rest.drop_first() =~= rest.skip(1));
        let line = v.flush();
        assert(line is Yield);
        let w = line->Yield_state;
        assert(v.drain().state == (AdapterV { backlog: v.backlog, ..w }));
        assert((AdapterV { backlog: v.backlog, ..w }) == w);
        assert(Seq::<EffectV>::empty() + line->Yield_effects =~= Seq::empty());
    } else {
        let line = v.flush();
        assert(line == (LineV::Continue { state: v, effects: Seq::empty() }));
        assert(v.drain() == v.run_lines(v.backlog, Seq::empty() + Seq::empty()));
    }
}

proof fn lemma_queued_failed(
    t: AdapterV,
    session_id: Seq<char>,
    id: i64,
    prompt: Seq<char>,
    rest: Seq<Seq<char>>,
    reason: Seq<char>,
)
    requires
        draining(t, session_id, id, prompt, rest),
    ensures
        t.step(EventV::SendFailed(reason)).state.queued_prompts == seq![prompt] + rest,
        t.step(EventV::SendFailed(reason)).next is Poll,
{
    reveal(AdapterV::step);
    let u = AdapterV { phase: PhaseV::Polling, ..t };
    let v = AdapterV { queued_prompts: seq![prompt] + u.queued_prompts, ..u };
    assert(t.step(EventV::SendFailed(reason)) == u.send_failed(
        OutboundV::QueuedPrompt { id, prompt },
        reason,
    ));
    assert(u.send_failed(OutboundV::QueuedPrompt { id, prompt }, reason) == v.resume(Seq::empty()));
    assert(v.backlog =~= Seq::empty());
    assert(v.resume(Seq::empty()) == v.run_lines(v.backlog, Seq::empty()));
}

/// The queue is sent in the order in which it was filled, without a gap:
/// when `n` sends have gone through since the first queued prompt went out,
/// the adapter is sending prompt number `n` under the next id, and what
/// follows it in the queue still waits. If that send fails, the prompt goes
/// back in front of the others, so that the queue holds the rest in order,
/// and the adapter sends nothing more. If it goes through and was the last,
/// the queue is empty.
pub proof fn queue_drains_in_order(
    s: AdapterV,
    session_id: Seq<char>,
    id: i64,
    queue: Seq<Seq<char>>,
    n: nat,
    reason: Seq<char>,
)
    requires
        queue.len() > 0,
        draining(s, session_id, id, queue[0], queue.skip(1)),
        n < queue.len(),
        id + queue.len() < i64::MAX,
    ensures
        draining(
            after_sent(s, n),
            session_id,
            (id + n) as i64,
            queue[n as int],
            queue.skip(n as int + 1),
        ),
        n > 0 ==> {
            let out = after_sent(s, (n - 1) as nat).step(EventV::Sent);
            &&& out.effects.len() == 0
            &&& out.next == OperationV::Send(
                crate::machine::request_text(
                    (id + n) as i64,
                    "session/prompt"@,
                    crate::session_params::prompt_params(session_id, queue[n as int]),
                ),
            )
        },
        ({
            let out = after_sent(s, n).step(EventV::SendFailed(reason));
            &&& out.state.queued_prompts == queue.skip(n as int)
            &&& out.next is Poll
        }),
        n + 1 == queue.len() ==> {
            let out = after_sent(s, n).step(EventV::Sent);
            &&& out.state.queued_prompts.len() == 0
            &&& out.next is Poll
        },
    decreases n,
{
    if n > 0 {
        queue_drains_in_order(s, session_id, id, queue, (n - 1) as nat, reason);
        let a = after_sent(s, (n - 1) as nat);
        let rest = queue.skip(n as int);
        assert(rest[0] == queue[n as int]);
        assert(rest.skip(1) =~= queue.skip(n as int + 1));
        lemma_queued_sent(a, session_id, (id + n - 1) as i64, queue[n - 1], rest);
    }
    let t = after_sent(s, n);
    let rest = queue.skip(n as int + 1);
    assert(seq![queue[n as int]] + rest =~= queue.skip(n as int));
    lemma_queued_failed(t, session_id, (id + n) as i64, queue[n as int], rest, reason);
    lemma_queued_sent(t, session_id, (id + n) as i64, queue[n as int], rest);
}

/// The answer to a request is dealt with once: what held its id has
/// forgotten it afterwards.
pub proof fn answer_forgets_the_request(
    s: AdapterV,
    id: i64,
    result: Option<JsonV>,
    error: Option<JsonV>,
)
    requires
        s.wf(),
        s.phase is Polling,
        s.holders(id) >= 1,
    ensures
        match s.handle_response(id, result, error) {
            LineV::Continue { state, .. } => state.holders(id) == 0,
            LineV::Yield { state, .. } => state.holders(id) == 0,
            LineV::Close { state, .. } => state.holders(id) == 0,
        },
{
    reveal(AdapterV::handle_response);
    assert(s.holders(id) <= 1);
    assert(1 <= id < s.rpc_id_counter);
    assert(outbound_ids(s.phase) =~= Seq::empty());
    let line = s.handle_response(id, result, error);
    if s.initialize_request_id == Some(id) || s.session_load_request_id == Some(id)
        || s.session_new_request_id == Some(id) {
        match line {
            LineV::Yield { state, .. } => {
                assert(!outbound_ids(state.phase).contains(id)) by {
                    if outbound_ids(state.phase).contains(id) {
                        let k = choose|k: int|
                            0 <= k < outbound_ids(state.phase).len() && outbound_ids(
                                state.phase,
                            )[k] == id;
                    }
                }
            },
            _ => {},
        }
    }
}

/// An answer whose id nothing waits for is dropped: it changes nothing and
/// has no effect.
pub proof fn unknown_answer_is_dropped(
    s: AdapterV,
    id: i64,
    result: Option<JsonV>,
    error: Option<JsonV>,
)
    requires
        s.holders(id) == 0,
    ensures
        s.handle_response(id, result, error) == (LineV::Continue {
            state: s,
            effects: Seq::empty(),
        }),
{
    reveal(AdapterV::handle_response);
}

/// When `session/new` gives a session while prompts wait, the oldest of
/// them goes out at once, to that session, and the others follow it.
pub proof fn new_session_starts_the_queue(s: AdapterV, id: i64, result: Option<JsonV>)
    requires
        s.wf(),
        s.phase is Polling,
        s.session_new_request_id == Some(id),
        crate::machine::new_session_id(result) is Some,
        s.queued_prompts.len() > 0,
        s.rpc_id_counter < i64::MAX,
        s.backlog.len() == 0,
    ensures
        ({
            let session_id = crate::machine::new_session_id(result)->0;
            let line = s.handle_response(id, result, None);
            &&& line is Yield
            &&& line->Yield_next == OperationV::Send(
                crate::machine::request_text(
                    s.rpc_id_counter,
                    "session/prompt"@,
                    crate::session_params::prompt_params(session_id, s.queued_prompts[0]),
                ),
            )
            &&& draining(
                line->Yield_state,
                session_id,
                s.rpc_id_counter,
                s.queued_prompts[0],
                s.queued_prompts.skip(1),
            )
            &&& line->Yield_state.cached_session_id == Some(session_id)
        }),
{
    reveal(AdapterV::handle_response);
    assert(s.holders(id) <= 1);
    assert(s.holders(id) >= 1);
    assert(s.queued_prompts.drop_first() =~= s.queued_prompts.skip(1));
}

/// When `session/load` succeeds while prompts wait, the oldest of them goes
/// out at once, to the session that was resumed.
pub proof fn resumed_session_starts_the_queue(
    s: AdapterV,
    id: i64,
    result: Option<JsonV>,
    session_id: Seq<char>,
)
    requires
        s.wf(),
        s.phase is Polling,
        s.session_load_request_id == Some(id),
        s.session_id == Some(session_id),
        s.queued_prompts.len() > 0,
        s.rpc_id_counter < i64::MAX,
        s.backlog.len() == 0,
    ensures
        ({
            let line = s.handle_response(id, result, None);
            &&& line is Yield
            &&& line->Yield_next == OperationV::Send(
                crate::machine::request_text(
                    s.rpc_id_counter,
                    "session/prompt"@,
                    crate::session_params::prompt_params(session_id, s.queued_prompts[0]),
                ),
            )
            &&& draining(
                line->Yield_state,
                session_id,
                s.rpc_id_counter,
                s.queued_prompts[0],
                s.queued_prompts.skip(1),
            )
        }),
{
    reveal(AdapterV::handle_response);
    assert(s.holders(id) <= 1);
    assert(s.holders(id) >= 1);
    assert(s.queued_prompts.drop_first() =~= s.queued_prompts.skip(1));
}

/// A request goes out under the id that the counter shows, and the counter
/// moves on by one: on one connection each request has a higher id than the
/// one before it.
pub proof fn request_takes_the_next_id(
    s: AdapterV,
    outbound: OutboundV,
    method: Seq<char>,
    params: JsonV,
)
    requires
        s.rpc_id_counter < i64::MAX,
    ensures
        s.request(outbound, method, params) is Yield,
        s.request(outbound, method, params)->Yield_next == OperationV::Send(
            crate::machine::request_text(s.rpc_id_counter, method, params),
        ),
        s.request(outbound, method, params)->Yield_state.rpc_id_counter == s.rpc_id_counter + 1,
        s.dispatch(outbound, method, params).next == OperationV::Send(
            crate::machine::request_text(s.rpc_id_counter, method, params),
        ),
        s.dispatch(outbound, method, params).state.rpc_id_counter == s.rpc_id_counter + 1,
{
}

/// An idle tick is neither data nor closure: it changes nothing, has no
/// effect, and the adapter goes on waiting.
pub proof fn idle_tick_changes_nothing(s: AdapterV)
    requires
        s.phase is Polling,
    ensures
        s.step(EventV::Idle) == (OutcomeV {
            state: s,
            effects: Seq::empty(),
            next: OperationV::Poll { idle_after: crate::machine::RECEIVE_TIMEOUT_SECS },
        }),
{
    reveal(AdapterV::step);
}

/// The state after a run of events, each answered by a step.
pub open spec fn after_events(s: AdapterV, events: Seq<EventV>) -> AdapterV
    decreases events.len(),
{
    if events.len() == 0 {
        s
    } else {
        after_events(s, events.drop_last()).step(events.last()).state
    }
}

/// Whether the adapter is never about to connect when an event of the run
/// reaches it: the run has no attempt to connect in it. (Its last event may
/// end a connection.)
pub open spec fn no_attempt_in(s: AdapterV, events: Seq<EventV>) -> bool
    decreases events.len(),
{
    events.len() == 0 || (no_attempt_in(s, events.drop_last()) && !(after_events(
        s,
        events.drop_last(),
    ).phase is Connecting))
}

/// Through a run without an attempt to connect the count of failed attempts
/// stays as it is, whatever the run holds: commands, frames, sends that go
/// through or fail, pauses, the loss of the connection.
pub proof fn attempts_stay_without_an_attempt(s: AdapterV, events: Seq<EventV>)
    requires
        s.wf(),
        no_attempt_in(s, events),
    ensures
        after_events(s, events).wf(),
        after_events(s, events).retry_count == s.retry_count,
        after_events(s, events).agent_id == s.agent_id,
    decreases events.len(),
{
    if events.len() > 0 {
        attempts_stay_without_an_attempt(s, events.drop_last());
        step_keeps_ids_apart(after_events(s, events.drop_last()), events.last());
    }
}

/// However long a connection has lasted and whatever happened on it, once
/// it is lost the adapter has its five attempts again: the count stands at
/// nought when it connects anew, each failure before the fifth is followed
/// by the pause, and the fifth in a row stops the adapter with the one
/// report to the application.
pub proof fn lost_connection_gets_five_attempts(
    s: AdapterV,
    live: Seq<EventV>,
    reasons: Seq<Seq<char>>,
    last: Seq<char>,
)
    requires
        s.wf(),
        s.phase is Connecting,
        no_attempt_in(s.step(EventV::Connected).state, live),
        after_events(s.step(EventV::Connected).state, live).phase is Connecting,
        reasons.len() < MAX_RETRIES,
    ensures
        ({
            let lost = after_events(s.step(EventV::Connected).state, live);
            let out = after_failures(lost, reasons).step(EventV::ConnectFailed(last));
            &&& lost.retry_count == 0
            &&& after_failures(lost, reasons).retry_count == reasons.len()
            &&& after_failures(lost, reasons).phase is Connecting
            &&& reasons.len() + 1 < MAX_RETRIES ==> out.next == OperationV::Delay {
                seconds: crate::machine::RETRY_DELAY_SECS,
            } && out.effects.len() == 0
            &&& reasons.len() + 1 == MAX_RETRIES ==> out.next is Stop && out.effects == seq![
                EffectV::Emit(
                    crate::events::agent_error(s.agent_id, "Failed after 5 attempts: "@ + last),
                ),
            ]
        }),
{
    let connected = s.step(EventV::Connected).state;
    step_keeps_ids_apart(s, EventV::Connected);
    connecting_resets_attempts(s);
    attempts_stay_without_an_attempt(connected, live);
    let lost = after_events(connected, live);
    fifth_failure_stops(lost, reasons, last);
    failed_attempts_are_capped(after_failures(lost, reasons), last);
}

} // verus!
