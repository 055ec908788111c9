use iflow_workspace::adapter::{Adapter, Step};
use iflow_workspace::events::AppEvent;
use iflow_workspace::json::Json;
use iflow_workspace::models::ListenerCommand;
use iflow_workspace::protocol::{Effect, Event, Operation};

fn sent(step: &Step) -> Json {
    match &step.next {
        Operation::Send(text) => Json::parse(text).expect("the adapter sends JSON"),
        other => panic!("expected a send, got {:?}", other),
    }
}

fn frame(text: &str) -> Event {
    Event::Frame(text.to_string())
}

fn prompt(text: &str) -> Event {
    Event::Command(ListenerCommand::UserPrompt(text.to_string()))
}

/// An adapter that has connected and sent `initialize` (id 1).
fn connected() -> Adapter {
    let mut adapter = Adapter::new("a1", "/work");
    let step = adapter.step(Event::Connected);
    assert_eq!(sent(&step).get_str("method"), Some("initialize"));
    let step = adapter.step(Event::Sent);
    assert_eq!(step.next, Operation::Poll { idle_after: 30 });
    adapter
}

/// An adapter with the session `s1` (ids 1 and 2 are used up).
fn ready() -> Adapter {
    let mut adapter = connected();
    let step = adapter.step(frame("{\"jsonrpc\":\"2.0\",\"id\":1,\"result\":{}}"));
    assert_eq!(sent(&step).get_str("method"), Some("session/new"));
    assert_eq!(adapter.step(Event::Sent).next, Operation::Poll { idle_after: 30 });
    let step = adapter.step(frame("{\"jsonrpc\":\"2.0\",\"id\":2,\"result\":{\"sessionId\":\"s1\"}}"));
    assert_eq!(step.next, Operation::Poll { idle_after: 30 });
    assert!(step.effects.is_empty());
    assert_eq!(adapter.session_id().map(|s| s.as_str()), Some("s1"));
    adapter
}

#[test]
fn handshake_starts_with_initialize() {
    let mut adapter = Adapter::new("a1", "/work");
    let step = adapter.step(Event::Connected);
    assert!(step.effects.is_empty());
    let request = sent(&step);
    assert_eq!(request.get_str("jsonrpc"), Some("2.0"));
    assert_eq!(request.get("id").and_then(|id| id.as_id()), Some(1));
    assert_eq!(request.get_str("method"), Some("initialize"));
    let params = request.get("params").unwrap();
    assert_eq!(params.get("protocolVersion").and_then(|v| v.as_id()), Some(1));
    let fs = params.get("clientCapabilities").and_then(|c| c.get("fs")).unwrap();
    assert_eq!(fs.get("readTextFile"), Some(&Json::Bool(true)));
    assert_eq!(fs.get("writeTextFile"), Some(&Json::Bool(true)));
    assert_eq!(params.get_array("mcpServers").map(|a| a.len()), Some(0));
}

#[test]
fn initialize_is_followed_by_session_new() {
    let mut adapter = connected();
    let step = adapter.step(frame("{\"jsonrpc\":\"2.0\",\"id\":1,\"result\":{}}"));
    let request = sent(&step);
    assert_eq!(request.get("id").and_then(|id| id.as_id()), Some(2));
    assert_eq!(request.get_str("method"), Some("session/new"));
    let params = request.get("params").unwrap();
    assert_eq!(params.get_str("cwd"), Some("/work"));
    assert_eq!(
        params.get("settings").and_then(|s| s.get_str("permission_mode")),
        Some("yolo")
    );
    assert!(adapter.session_id().is_none());
}

#[test]
fn initialize_error_ends_the_connection() {
    let mut adapter = connected();
    let step = adapter.step(frame("{\"jsonrpc\":\"2.0\",\"id\":1,\"error\":{\"code\":-1}}"));
    assert_eq!(step.next, Operation::Connect);
    assert_eq!(
        step.effects,
        vec![Effect::Emit(AppEvent::agent_error(
            "a1",
            "ACP initialize failed: {\"code\":-1}"
        ))]
    );
}

#[test]
fn session_new_makes_the_session_ready_and_announces_registries() {
    let mut adapter = connected();
    adapter.step(frame("{\"id\":1,\"result\":{}}"));
    adapter.step(Event::Sent);
    let step = adapter.step(frame(
        "{\"id\":2,\"result\":{\"sessionId\":\"s1\",\"availableCommands\":[{\"name\":\"help\"}],\"models\":{\"currentModelId\":\"glm\"}}}",
    ));
    assert_eq!(step.next, Operation::Poll { idle_after: 30 });
    assert_eq!(adapter.session_id().map(|s| s.as_str()), Some("s1"));
    assert_eq!(adapter.cached_session_id().map(|s| s.as_str()), Some("s1"));
    assert_eq!(step.effects.len(), 2);
    match &step.effects[0] {
        Effect::Emit(event) => {
            assert_eq!(event.name, "command-registry");
            let commands = event.payload.get_array("commands").unwrap();
            assert_eq!(commands[0].get_str("name"), Some("/help"));
        }
        other => panic!("unexpected effect {:?}", other),
    }
    match &step.effects[1] {
        Effect::Emit(event) => {
            assert_eq!(event.name, "model-registry");
            assert_eq!(event.payload.get_str("currentModel"), Some("glm"));
        }
        other => panic!("unexpected effect {:?}", other),
    }
}

#[test]
fn session_new_without_session_id_is_fatal() {
    let mut adapter = connected();
    adapter.step(prompt("waiting"));
    adapter.step(frame("{\"id\":1,\"result\":{}}"));
    adapter.step(Event::Sent);
    let step = adapter.step(frame("{\"id\":2,\"result\":{\"models\":{}}}"));
    assert_eq!(step.next, Operation::Connect);
    assert_eq!(
        step.effects,
        vec![Effect::Emit(AppEvent::agent_error(
            "a1",
            "session/new succeeded but no sessionId returned"
        ))]
    );
    assert!(adapter.session_id().is_none());
    assert!(adapter.cached_session_id().is_none());
    assert_eq!(adapter.queued_prompt_count(), 1);
}

#[test]
fn session_new_error_is_fatal() {
    let mut adapter = connected();
    adapter.step(frame("{\"id\":1,\"result\":{}}"));
    adapter.step(Event::Sent);
    let step = adapter.step(frame("{\"id\":2,\"error\":\"no\"}"));
    assert_eq!(step.next, Operation::Connect);
    assert_eq!(
        step.effects,
        vec![Effect::Emit(AppEvent::agent_error("a1", "session/new failed: \"no\""))]
    );
    assert!(adapter.session_id().is_none());
}

#[test]
fn reconnect_resumes_the_cached_session() {
    let mut adapter = ready();
    assert_eq!(adapter.step(Event::SocketClosed).next, Operation::Connect);
    assert!(adapter.session_id().is_none());
    let step = adapter.step(Event::Connected);
    assert_eq!(sent(&step).get("id").and_then(|id| id.as_id()), Some(1));
    adapter.step(Event::Sent);
    let step = adapter.step(frame("{\"id\":1,\"result\":{}}"));
    let request = sent(&step);
    assert_eq!(request.get_str("method"), Some("session/load"));
    assert_eq!(request.get("id").and_then(|id| id.as_id()), Some(2));
    let params = request.get("params").unwrap();
    assert_eq!(params.get_str("sessionId"), Some("s1"));
    assert_eq!(params.get_str("cwd"), Some("/work"));
    adapter.step(Event::Sent);
    let step = adapter.step(frame("{\"id\":2,\"result\":{}}"));
    assert_eq!(step.next, Operation::Poll { idle_after: 30 });
    assert_eq!(
        step.effects,
        vec![Effect::Emit(AppEvent::stream_message(
            "a1",
            "✅ iFlow ACP 会话已恢复",
            "system"
        ))]
    );
    assert_eq!(adapter.session_id().map(|s| s.as_str()), Some("s1"));
}

#[test]
fn failed_load_falls_back_to_one_session_new() {
    let mut adapter = ready();
    adapter.step(Event::ReceiveFailed("reset".to_string()));
    adapter.step(Event::Connected);
    adapter.step(Event::Sent);
    let step = adapter.step(frame("{\"id\":1,\"result\":{}}"));
    assert_eq!(sent(&step).get_str("method"), Some("session/load"));
    adapter.step(Event::Sent);

    let failure = "{\"id\":2,\"error\":{\"message\":\"gone\"}}";
    let step = adapter.step(frame(failure));
    assert!(step.effects.is_empty());
    let request = sent(&step);
    assert_eq!(request.get_str("method"), Some("session/new"));
    assert_eq!(request.get("id").and_then(|id| id.as_id()), Some(3));
    assert!(adapter.session_id().is_none());
    assert!(adapter.cached_session_id().is_none());
    adapter.step(Event::Sent);

    // The same answer again finds nothing that waits for it.
    let step = adapter.step(frame(failure));
    assert_eq!(step, Step { effects: vec![], next: Operation::Poll { idle_after: 30 } });

    let step = adapter.step(frame("{\"id\":3,\"result\":{\"sessionId\":\"s2\"}}"));
    assert_eq!(step.next, Operation::Poll { idle_after: 30 });
    assert_eq!(adapter.session_id().map(|s| s.as_str()), Some("s2"));
    assert_eq!(adapter.cached_session_id().map(|s| s.as_str()), Some("s2"));
}

#[test]
fn prompts_wait_for_the_session_and_go_out_in_order() {
    let mut adapter = connected();
    assert_eq!(adapter.step(prompt("one")), Step { effects: vec![], next: Operation::Poll { idle_after: 30 } });
    adapter.step(prompt("two"));
    adapter.step(prompt("three"));
    assert_eq!(adapter.queued_prompt_count(), 3);
    adapter.step(frame("{\"id\":1,\"result\":{}}"));
    adapter.step(Event::Sent);

    let step = adapter.step(frame("{\"id\":2,\"result\":{\"sessionId\":\"s1\"}}"));
    let mut texts = Vec::new();
    let mut ids = Vec::new();
    let mut step = step;
    while let Operation::Send(_) = &step.next {
        let request = sent(&step);
        assert_eq!(request.get_str("method"), Some("session/prompt"));
        let params = request.get("params").unwrap();
        assert_eq!(params.get_str("sessionId"), Some("s1"));
        let blocks = params.get_array("prompt").unwrap();
        assert_eq!(blocks.len(), 1);
        assert_eq!(blocks[0].get_str("type"), Some("text"));
        texts.push(blocks[0].get_str("text").unwrap().to_string());
        ids.push(request.get("id").and_then(|id| id.as_id()).unwrap());
        step = adapter.step(Event::Sent);
    }
    assert_eq!(step.next, Operation::Poll { idle_after: 30 });
    assert_eq!(texts, vec!["one", "two", "three"]);
    assert_eq!(ids, vec![3, 4, 5]);
    assert_eq!(adapter.queued_prompt_count(), 0);
    assert_eq!(adapter.pending_prompt_count(), 3);
    assert!(adapter.has_pending_prompt(3));
    assert!(adapter.has_pending_prompt(4));
    assert!(adapter.has_pending_prompt(5));
    assert!(!adapter.has_pending_prompt(2));
    assert!(!adapter.has_pending_prompt(6));
}

#[test]
fn failed_send_in_the_drain_requeues_the_rest_in_order() {
    let mut adapter = connected();
    adapter.step(prompt("one"));
    adapter.step(prompt("two"));
    adapter.step(prompt("three"));
    adapter.step(frame("{\"id\":1,\"result\":{}}"));
    adapter.step(Event::Sent);
    let step = adapter.step(frame("{\"id\":2,\"result\":{\"sessionId\":\"s1\"}}"));
    assert!(matches!(step.next, Operation::Send(_)));
    let step = adapter.step(Event::Sent);
    assert!(matches!(step.next, Operation::Send(_)));
    // The second prompt cannot be written.
    let step = adapter.step(Event::SendFailed("broken pipe".to_string()));
    assert_eq!(step, Step { effects: vec![], next: Operation::Poll { idle_after: 30 } });
    assert_eq!(adapter.queued_prompt_count(), 2);
    assert_eq!(adapter.pending_prompt_count(), 1);
    assert!(adapter.has_pending_prompt(3));
    assert!(!adapter.has_pending_prompt(4));

    // After a reconnect the rest goes out, "two" before "three".
    adapter.step(Event::SocketClosed);
    adapter.step(Event::Connected);
    adapter.step(Event::Sent);
    adapter.step(frame("{\"id\":1,\"result\":{}}"));
    adapter.step(Event::Sent);
    let step = adapter.step(frame("{\"id\":2,\"result\":{}}"));
    let first = sent(&step);
    let text = first
        .get("params")
        .and_then(|p| p.get_array("prompt"))
        .and_then(|b| b[0].get_str("text"));
    assert_eq!(text, Some("two"));
    let step = adapter.step(Event::Sent);
    let second = sent(&step);
    let text = second
        .get("params")
        .and_then(|p| p.get_array("prompt"))
        .and_then(|b| b[0].get_str("text"));
    assert_eq!(text, Some("three"));
    assert_eq!(adapter.step(Event::Sent).next, Operation::Poll { idle_after: 30 });
    assert_eq!(adapter.queued_prompt_count(), 0);
}

#[test]
fn prompt_with_session_is_sent_at_once() {
    let mut adapter = ready();
    let step = adapter.step(prompt("hello"));
    let request = sent(&step);
    assert_eq!(request.get_str("method"), Some("session/prompt"));
    assert_eq!(request.get("id").and_then(|id| id.as_id()), Some(3));
    assert_eq!(adapter.pending_prompt_count(), 0);
    assert!(!adapter.has_pending_prompt(3));
    assert_eq!(adapter.step(Event::Sent).next, Operation::Poll { idle_after: 30 });
    assert_eq!(adapter.pending_prompt_count(), 1);
    assert!(adapter.has_pending_prompt(3));
    assert!(!adapter.has_pending_prompt(4));
}

#[test]
fn prompt_that_cannot_be_sent_goes_back_to_the_front() {
    let mut adapter = ready();
    adapter.step(prompt("hello"));
    let step = adapter.step(Event::SendFailed("closed".to_string()));
    assert_eq!(step, Step { effects: vec![], next: Operation::Connect });
    assert_eq!(adapter.queued_prompt_count(), 1);
    assert_eq!(adapter.pending_prompt_count(), 0);
    assert!(!adapter.has_pending_prompt(3));
}

#[test]
fn request_ids_rise_by_one() {
    let mut adapter = ready();
    let mut ids = Vec::new();
    for text in ["a", "b", "c", "d"] {
        let step = adapter.step(prompt(text));
        ids.push(sent(&step).get("id").and_then(|id| id.as_id()).unwrap());
        adapter.step(Event::Sent);
    }
    assert_eq!(ids, vec![3, 4, 5, 6]);
    assert_eq!(adapter.pending_prompt_count(), 4);
    assert!(adapter.has_pending_prompt(3));
    assert!(adapter.has_pending_prompt(4));
    assert!(adapter.has_pending_prompt(5));
    assert!(adapter.has_pending_prompt(6));
}

#[test]
fn finished_prompt_reports_its_stop_reason() {
    let mut adapter = ready();
    adapter.step(prompt("hello"));
    adapter.step(Event::Sent);
    let step = adapter.step(frame("{\"id\":3,\"result\":{\"stopReason\":\"max_tokens\"}}"));
    assert_eq!(step.next, Operation::Poll { idle_after: 30 });
    assert_eq!(
        step.effects,
        vec![
            Effect::Emit(AppEvent::stream_message("a1", "⚠️ 达到最大令牌限制", "system")),
            Effect::Emit(AppEvent::task_finish("a1", "max_tokens")),
        ]
    );
    assert_eq!(adapter.pending_prompt_count(), 0);
    assert!(!adapter.has_pending_prompt(3));
    // A second answer to the same request is dropped.
    let step = adapter.step(frame("{\"id\":3,\"result\":{\"stopReason\":\"end_turn\"}}"));
    assert_eq!(step, Step { effects: vec![], next: Operation::Poll { idle_after: 30 } });
}

#[test]
fn finished_prompt_defaults_to_completed() {
    let mut adapter = ready();
    adapter.step(prompt("hello"));
    adapter.step(Event::Sent);
    let step = adapter.step(frame("{\"id\":3,\"result\":{}}"));
    assert_eq!(
        step.effects,
        vec![
            Effect::Emit(AppEvent::stream_message("a1", "✅ 任务结束", "system")),
            Effect::Emit(AppEvent::task_finish("a1", "completed")),
        ]
    );
}

#[test]
fn prompt_error_keeps_the_connection() {
    let mut adapter = ready();
    adapter.step(prompt("hello"));
    adapter.step(Event::Sent);
    let step = adapter.step(frame("{\"id\":3,\"error\":{\"code\":1}}"));
    assert_eq!(step.next, Operation::Poll { idle_after: 30 });
    assert_eq!(
        step.effects,
        vec![Effect::Emit(AppEvent::agent_error(
            "a1",
            "session/prompt failed: {\"code\":1}"
        ))]
    );
    assert_eq!(adapter.session_id().map(|s| s.as_str()), Some("s1"));
}

#[test]
fn cancel_without_session_is_dropped() {
    let mut adapter = connected();
    let step = adapter.step(Event::Command(ListenerCommand::CancelPrompt));
    assert_eq!(step, Step { effects: vec![], next: Operation::Poll { idle_after: 30 } });
}

#[test]
fn cancel_with_session_is_sent_and_its_failure_ignored() {
    let mut adapter = ready();
    let step = adapter.step(Event::Command(ListenerCommand::CancelPrompt));
    let request = sent(&step);
    assert_eq!(request.get_str("method"), Some("session/cancel"));
    assert_eq!(
        request.get("params").and_then(|p| p.get_str("sessionId")),
        Some("s1")
    );
    let step = adapter.step(Event::SendFailed("closed".to_string()));
    assert_eq!(step, Step { effects: vec![], next: Operation::Poll { idle_after: 30 } });
}

#[test]
fn set_model_without_session_is_refused() {
    let mut adapter = connected();
    let step = adapter.step(Event::Command(ListenerCommand::SetModel {
        model: "glm".to_string(),
        ticket: 7,
    }));
    assert_eq!(
        step,
        Step {
            effects: vec![Effect::Resolve {
                ticket: 7,
                result: Err("Session not ready".to_string())
            }],
            next: Operation::Poll { idle_after: 30 },
        }
    );
}

#[test]
fn set_model_reply_without_current_model_resolves_to_the_requested_one() {
    let mut adapter = ready();
    let step = adapter.step(Event::Command(ListenerCommand::SetModel {
        model: "kimi-k2.5".to_string(),
        ticket: 9,
    }));
    let request = sent(&step);
    assert_eq!(request.get_str("method"), Some("session/set_model"));
    let params = request.get("params").unwrap();
    assert_eq!(params.get_str("sessionId"), Some("s1"));
    assert_eq!(params.get_str("modelId"), Some("kimi-k2.5"));
    adapter.step(Event::Sent);

    let step = adapter.step(frame("{\"id\":3,\"result\":{}}"));
    assert_eq!(step.next, Operation::Poll { idle_after: 30 });
    assert_eq!(
        step.effects,
        vec![
            Effect::Emit(AppEvent::model_registry(
                "a1",
                vec![],
                Some("kimi-k2.5".to_string())
            )),
            Effect::Resolve { ticket: 9, result: Ok("kimi-k2.5".to_string()) },
        ]
    );
}

#[test]
fn set_model_reply_names_the_model_in_use() {
    let mut adapter = ready();
    adapter.step(Event::Command(ListenerCommand::SetModel {
        model: "kimi".to_string(),
        ticket: 1,
    }));
    adapter.step(Event::Sent);
    let step = adapter.step(frame("{\"id\":3,\"result\":{\"currentModelId\":\" glm-4.7 \"}}"));
    assert_eq!(
        step.effects,
        vec![
            Effect::Emit(AppEvent::model_registry("a1", vec![], Some("glm-4.7".to_string()))),
            Effect::Resolve { ticket: 1, result: Ok("glm-4.7".to_string()) },
        ]
    );
}

#[test]
fn set_model_error_and_failed_send_fail_the_reply() {
    let mut adapter = ready();
    adapter.step(Event::Command(ListenerCommand::SetModel {
        model: "kimi".to_string(),
        ticket: 1,
    }));
    adapter.step(Event::Sent);
    let step = adapter.step(frame("{\"id\":3,\"error\":\"unknown model\"}"));
    assert_eq!(
        step.effects,
        vec![Effect::Resolve {
            ticket: 1,
            result: Err("session/set_model failed: \"unknown model\"".to_string())
        }]
    );
    assert_eq!(step.next, Operation::Poll { idle_after: 30 });

    adapter.step(Event::Command(ListenerCommand::SetModel {
        model: "kimi".to_string(),
        ticket: 2,
    }));
    let step = adapter.step(Event::SendFailed("closed".to_string()));
    assert_eq!(
        step,
        Step {
            effects: vec![Effect::Resolve {
                ticket: 2,
                result: Err("Failed to send session/set_model: closed".to_string())
            }],
            next: Operation::Connect,
        }
    );
}

#[test]
fn pending_model_switches_are_abandoned_with_the_connection() {
    let mut adapter = ready();
    adapter.step(Event::Command(ListenerCommand::SetModel {
        model: "kimi".to_string(),
        ticket: 4,
    }));
    adapter.step(Event::Sent);
    let step = adapter.step(Event::SocketClosed);
    assert_eq!(
        step,
        Step { effects: vec![Effect::AbandonAll], next: Operation::Connect }
    );
}

#[test]
fn two_offline_attempts_then_success() {
    let mut adapter = Adapter::new("a1", "/work");
    let step = adapter.step(Event::ConnectFailed("refused".to_string()));
    assert_eq!(step, Step { effects: vec![], next: Operation::Delay { seconds: 2 } });
    assert_eq!(adapter.retry_count(), 1);
    assert_eq!(adapter.step(Event::DelayElapsed).next, Operation::Connect);
    let step = adapter.step(Event::ConnectFailed("refused".to_string()));
    assert_eq!(step, Step { effects: vec![], next: Operation::Delay { seconds: 2 } });
    assert_eq!(adapter.retry_count(), 2);
    assert_eq!(adapter.step(Event::DelayElapsed).next, Operation::Connect);
    let step = adapter.step(Event::Connected);
    assert_eq!(sent(&step).get_str("method"), Some("initialize"));
    assert_eq!(adapter.retry_count(), 0);
}

#[test]
fn fifth_failed_attempt_stops_the_adapter() {
    let mut adapter = Adapter::new("a1", "/work");
    for attempt in 1..5 {
        let step = adapter.step(Event::ConnectFailed("refused".to_string()));
        assert_eq!(step, Step { effects: vec![], next: Operation::Delay { seconds: 2 } });
        assert_eq!(adapter.retry_count(), attempt);
        assert_eq!(adapter.step(Event::DelayElapsed).next, Operation::Connect);
    }
    let step = adapter.step(Event::ConnectFailed("refused".to_string()));
    assert_eq!(
        step,
        Step {
            effects: vec![Effect::Emit(AppEvent::agent_error(
                "a1",
                "Failed after 5 attempts: refused"
            ))],
            next: Operation::Stop,
        }
    );
    assert!(adapter.is_stopped());
    // Nothing wakes it up again.
    assert_eq!(adapter.step(Event::Connected), Step { effects: vec![], next: Operation::Stop });
    assert_eq!(
        adapter.step(Event::DelayElapsed),
        Step { effects: vec![], next: Operation::Stop }
    );
    assert!(adapter.is_stopped());
}

#[test]
fn closed_command_channel_stops_the_adapter() {
    let mut adapter = ready();
    let step = adapter.step(Event::ChannelClosed);
    assert_eq!(step, Step { effects: vec![], next: Operation::Stop });
    assert!(adapter.is_stopped());
}

#[test]
fn event_out_of_turn_stops_the_adapter() {
    let mut adapter = Adapter::new("a1", "/work");
    let step = adapter.step(Event::Sent);
    assert_eq!(step, Step { effects: vec![], next: Operation::Stop });
    assert!(adapter.is_stopped());
}

#[test]
fn read_of_a_missing_file_is_answered_with_an_internal_error() {
    let mut adapter = ready();
    let step = adapter.step(frame(
        "{\"jsonrpc\":\"2.0\",\"id\":41,\"method\":\"fs/read_text_file\",\"params\":{\"path\":\"/missing\",\"sessionId\":\"s1\"}}",
    ));
    assert_eq!(step, Step { effects: vec![], next: Operation::ReadFile("/missing".to_string()) });
    let step = adapter.step(Event::FileRead(Err(
        "No such file or directory (os error 2)".to_string()
    )));
    let reply = sent(&step);
    assert_eq!(reply.get("id").and_then(|id| id.as_id()), Some(41));
    let error = reply.get("error").unwrap();
    assert_eq!(error.get("code").and_then(|c| c.as_id()), Some(-32603));
    let message = error.get_str("message").unwrap();
    assert!(message.contains("No such file or directory (os error 2)"));
    assert_eq!(message, "Failed to read file: No such file or directory (os error 2)");
    assert_eq!(adapter.step(Event::Sent).next, Operation::Poll { idle_after: 30 });
}

#[test]
fn read_of_a_file_is_answered_with_its_content() {
    let mut adapter = ready();
    adapter.step(frame(
        "{\"id\":5,\"method\":\"fs/read_text_file\",\"params\":{\"path\":\"/a.txt\"}}",
    ));
    let step = adapter.step(Event::FileRead(Ok("text".to_string())));
    let reply = sent(&step);
    let result = reply.get("result").unwrap();
    assert_eq!(result.get_str("content"), Some("text"));
    assert_eq!(result.get_str("path"), Some("/a.txt"));
    assert_eq!(result.get_str("sessionId"), Some(""));
    // A reply that cannot be written does not end the connection.
    assert_eq!(
        adapter.step(Event::SendFailed("closed".to_string())).next,
        Operation::Poll { idle_after: 30 }
    );
}

#[test]
fn write_of_a_file_is_carried_out_and_answered() {
    let mut adapter = ready();
    let step = adapter.step(frame(
        "{\"id\":6,\"method\":\"fs/write_text_file\",\"params\":{\"path\":\"/a.txt\",\"content\":\"new\"}}",
    ));
    assert_eq!(
        step.next,
        Operation::WriteFile { path: "/a.txt".to_string(), content: "new".to_string() }
    );
    let step = adapter.step(Event::FileWritten(Ok(())));
    let reply = sent(&step);
    assert_eq!(reply.get("id").and_then(|id| id.as_id()), Some(6));
    assert_eq!(reply.get("result"), Some(&Json::Null));
}

#[test]
fn permission_is_granted_and_unknown_methods_are_refused() {
    let mut adapter = ready();
    let step = adapter.step(frame(
        "{\"id\":7,\"method\":\"session/request_permission\",\"params\":{}}",
    ));
    let reply = sent(&step);
    let outcome = reply.get("result").and_then(|r| r.get("outcome")).unwrap();
    assert_eq!(outcome.get_str("outcome"), Some("selected"));
    assert_eq!(outcome.get_str("optionId"), Some("allow_once"));
    adapter.step(Event::Sent);

    let step = adapter.step(frame("{\"id\":8,\"method\":\"fs/delete\"}"));
    let reply = sent(&step);
    let error = reply.get("error").unwrap();
    assert_eq!(error.get("code").and_then(|c| c.as_id()), Some(-32601));
    assert_eq!(error.get_str("message"), Some("Method not found"));
}

#[test]
fn notifications_other_than_updates_are_ignored() {
    let mut adapter = ready();
    let step = adapter.step(frame("{\"method\":\"session/ping\",\"params\":{}}"));
    assert_eq!(step, Step { effects: vec![], next: Operation::Poll { idle_after: 30 } });
}

#[test]
fn session_update_becomes_events() {
    let mut adapter = ready();
    let step = adapter.step(frame(
        "{\"method\":\"session/update\",\"params\":{\"update\":{\"sessionUpdate\":\"agent_message_chunk\",\"content\":{\"type\":\"text\",\"text\":\"hi\"}}}}",
    ));
    assert_eq!(
        step,
        Step {
            effects: vec![Effect::Emit(AppEvent::stream_message("a1", "hi", "content"))],
            next: Operation::Poll { idle_after: 30 },
        }
    );
}

#[test]
fn session_update_with_commands_announces_them() {
    let mut adapter = ready();
    let step = adapter.step(frame(
        "{\"method\":\"session/update\",\"params\":{\"update\":{\"sessionUpdate\":\"available_commands_update\",\"availableCommands\":[{\"name\":\"init\"}],\"content\":{\"availableMcpServers\":[{\"name\":\"fs\"}]}}}}",
    ));
    assert_eq!(step.next, Operation::Poll { idle_after: 30 });
    assert_eq!(step.effects.len(), 2);
    match (&step.effects[0], &step.effects[1]) {
        (Effect::Emit(first), Effect::Emit(second)) => {
            assert_eq!(first.name, "command-registry");
            assert_eq!(first.payload.get_array("commands").map(|c| c.len()), Some(1));
            assert_eq!(second.name, "command-registry");
            assert_eq!(second.payload.get_array("mcpServers").map(|c| c.len()), Some(1));
        }
        other => panic!("unexpected effects {:?}", other),
    }
}

#[test]
fn frames_are_read_line_by_line() {
    let mut adapter = ready();
    let step = adapter.step(frame(
        "// control\n\nnot json\r\n  {\"method\":\"session/update\",\"params\":{\"update\":{\"sessionUpdate\":\"agent_message_chunk\",\"content\":{\"type\":\"text\",\"text\":\"a\"}}}}  \n{\"id\":9,\"method\":\"_iflow/plan/exit\"}\n{\"method\":\"session/update\",\"params\":{\"update\":{\"sessionUpdate\":\"agent_message_chunk\",\"content\":{\"type\":\"text\",\"text\":\"b\"}}}}",
    ));
    assert_eq!(
        step.effects,
        vec![Effect::Emit(AppEvent::stream_message("a1", "a", "content"))]
    );
    let reply = sent(&step);
    assert_eq!(
        reply.get("result").and_then(|r| r.get("approved")),
        Some(&Json::Bool(true))
    );
    // Once the reply is out, the rest of the frame is dealt with.
    let step = adapter.step(Event::Sent);
    assert_eq!(
        step,
        Step {
            effects: vec![Effect::Emit(AppEvent::stream_message("a1", "b", "content"))],
            next: Operation::Poll { idle_after: 30 },
        }
    );
}

#[test]
fn empty_frames_and_unknown_answers_change_nothing() {
    let mut adapter = ready();
    assert_eq!(adapter.step(frame("")), Step { effects: vec![], next: Operation::Poll { idle_after: 30 } });
    assert_eq!(
        adapter.step(frame("{\"id\":99,\"result\":{}}")),
        Step { effects: vec![], next: Operation::Poll { idle_after: 30 } }
    );
    assert_eq!(
        adapter.step(frame("{\"result\":{}}")),
        Step { effects: vec![], next: Operation::Poll { idle_after: 30 } }
    );
}

#[test]
fn questions_get_no_answers() {
    let mut adapter = ready();
    let step = adapter.step(frame("{\"id\":3,\"method\":\"_iflow/user/questions\"}"));
    let reply = sent(&step);
    assert_eq!(
        reply.get("result").and_then(|r| r.get("answers")),
        Some(&Json::object())
    );
}

#[test]
fn idle_tick_changes_nothing() {
    let mut adapter = ready();
    adapter.step(prompt("hello"));
    adapter.step(Event::Sent);
    let step = adapter.step(Event::Idle);
    assert_eq!(step, Step { effects: vec![], next: Operation::Poll { idle_after: 30 } });
    assert_eq!(adapter.session_id().map(|s| s.as_str()), Some("s1"));
    assert!(!adapter.is_stopped());
    // The prompt still waits for its answer.
    let step = adapter.step(frame("{\"id\":3,\"result\":{\"stopReason\":\"end_turn\"}}"));
    assert_eq!(
        step.effects,
        vec![Effect::Emit(AppEvent::task_finish("a1", "end_turn"))]
    );
}

#[test]
fn lost_connection_gets_five_attempts_again() {
    let mut adapter = Adapter::new("a1", "/work");
    adapter.step(Event::ConnectFailed("refused".to_string()));
    adapter.step(Event::DelayElapsed);
    adapter.step(Event::ConnectFailed("refused".to_string()));
    adapter.step(Event::DelayElapsed);
    assert_eq!(adapter.retry_count(), 2);
    adapter.step(Event::Connected);
    adapter.step(Event::Sent);
    adapter.step(frame("{\"id\":1,\"result\":{}}"));
    adapter.step(Event::Sent);
    adapter.step(frame("{\"id\":2,\"result\":{\"sessionId\":\"s1\"}}"));
    adapter.step(prompt("hello"));
    adapter.step(Event::Sent);
    adapter.step(Event::Idle);
    assert_eq!(adapter.retry_count(), 0);
    // The peer closes; from now on nothing answers.
    assert_eq!(adapter.step(Event::SocketClosed).next, Operation::Connect);
    assert_eq!(adapter.retry_count(), 0);
    let mut attempts = 0;
    let mut reports = 0;
    loop {
        attempts += 1;
        let step = adapter.step(Event::ConnectFailed("refused".to_string()));
        reports += step.effects.len();
        match step.next {
            Operation::Delay { seconds: 2 } => {
                assert_eq!(adapter.step(Event::DelayElapsed).next, Operation::Connect);
            }
            Operation::Stop => {
                assert_eq!(
                    step.effects,
                    vec![Effect::Emit(AppEvent::agent_error(
                        "a1",
                        "Failed after 5 attempts: refused"
                    ))]
                );
                break;
            }
            other => panic!("unexpected operation {:?}", other),
        }
    }
    assert_eq!(attempts, 5);
    assert_eq!(reports, 1);
    assert!(adapter.is_stopped());
}
