use iflow_workspace::events::AppEvent;
use iflow_workspace::json::Json;
use iflow_workspace::router::{
    emit_task_finish, handle_session_update, read_plan_entry, read_tool_call,
    stop_reason_to_message, text_from_content, text_from_tool_contents,
};

fn json(text: &str) -> Json {
    Json::parse(text).expect("valid JSON")
}

#[test]
fn router_test_text_from_content_text() {
    let content = Json::object().with("type", Json::text("text")).with("text", Json::text("hello"));
    assert_eq!(text_from_content(&content).as_deref(), Some("hello"));
}

#[test]
fn main_test_text_from_content_text() {
    let content = json("{ \"type\": \"text\", \"text\": \"hello\" }");
    assert_eq!(text_from_content(&content).as_deref(), Some("hello"));
}

#[test]
fn router_test_text_from_tool_contents() {
    let content = Json::list(vec![
        Json::object().with("type", Json::text("content")).with(
            "content",
            Json::object().with("type", Json::text("text")).with("text", Json::text("line1")),
        ),
        Json::object().with("type", Json::text("diff")).with("path", Json::text("src/main.ts")),
    ]);

    let text = text_from_tool_contents(&content).unwrap_or_default();
    assert!(text.contains("line1"));
    assert!(text.contains("src/main.ts"));
}

#[test]
fn main_test_text_from_tool_contents() {
    let content = json(
        "[{\"type\": \"content\", \"content\": {\"type\": \"text\", \"text\": \"line1\"}}, {\"type\": \"diff\", \"path\": \"src/main.ts\"}]",
    );

    let text = text_from_tool_contents(&content).unwrap_or_default();
    assert!(text.contains("line1"));
    assert!(text.contains("src/main.ts"));
    assert_eq!(text, "line1\n[diff] src/main.ts");
}

#[test]
fn content_without_text_or_type() {
    assert_eq!(text_from_content(&json("{\"type\": \"text\"}")), None);
    assert_eq!(text_from_content(&json("{\"text\": \"x\"}")), None);
    assert_eq!(text_from_content(&json("{\"type\": 1, \"text\": \"x\"}")), None);
    assert_eq!(text_from_content(&json("\"text\"")), None);
}

#[test]
fn content_of_another_type_is_its_json_text() {
    let content = json("{\"type\": \"image\"}");
    let text = text_from_content(&content).unwrap();
    assert_eq!(Json::parse(&text), Some(json("{\"type\": \"image\"}")));
    assert_eq!(text, "{\"type\":\"image\"}");
}

#[test]
fn tool_contents_that_show_nothing() {
    assert_eq!(text_from_tool_contents(&json("{}")), None);
    assert_eq!(text_from_tool_contents(&json("[]")), None);
    assert_eq!(
        text_from_tool_contents(&json("[{\"type\": \"diff\"}, {\"type\": \"terminal\"}, 3]")),
        None
    );
}

#[test]
fn stop_reasons_have_their_lines() {
    assert_eq!(stop_reason_to_message("end_turn"), "✅ 任务完成");
    assert_eq!(stop_reason_to_message("max_tokens"), "⚠️ 达到最大令牌限制");
    assert_eq!(stop_reason_to_message("cancelled"), "🚫 任务已取消");
    assert_eq!(stop_reason_to_message("refusal"), "⛔ 模型拒绝回答");
    assert_eq!(stop_reason_to_message("completed"), "✅ 任务结束");
}

#[test]
fn task_finish_adds_a_line_unless_the_turn_ended() {
    assert_eq!(
        emit_task_finish("a1", "end_turn"),
        vec![AppEvent::task_finish("a1", "end_turn")]
    );
    assert_eq!(
        emit_task_finish("a1", "cancelled"),
        vec![
            AppEvent::stream_message("a1", "🚫 任务已取消", "system"),
            AppEvent::task_finish("a1", "cancelled"),
        ]
    );
}

#[test]
fn message_and_thought_chunks_become_stream_messages() {
    let update = json(
        "{\"sessionUpdate\": \"agent_message_chunk\", \"content\": {\"type\": \"text\", \"text\": \"hi\"}}",
    );
    assert_eq!(
        handle_session_update("a1", &update),
        vec![AppEvent::stream_message("a1", "hi", "content")]
    );
    let update = json(
        "{\"sessionUpdate\": \"agent_thought_chunk\", \"content\": {\"type\": \"text\", \"text\": \"hm\"}}",
    );
    assert_eq!(
        handle_session_update("a1", &update),
        vec![AppEvent::stream_message("a1", "💭 hm", "thought")]
    );
    let update = json("{\"sessionUpdate\": \"agent_message_chunk\"}");
    assert!(handle_session_update("a1", &update).is_empty());
}

#[test]
fn tool_call_update_with_diff_is_rendered() {
    let update = json(
        "{\"sessionUpdate\": \"tool_call_update\", \"toolCallId\": \"t1\", \"title\": \"Edit\", \"content\": [{\"type\": \"diff\", \"path\": \"src/x.ts\"}]}",
    );
    let call = read_tool_call(&update);
    assert_eq!(call.id, "t1");
    assert_eq!(call.name, "Edit");
    assert_eq!(call.status, "pending");
    assert_eq!(call.arguments, None);
    assert!(call.output.as_deref().unwrap().contains("[diff] src/x.ts"));

    let events = handle_session_update("a1", &update);
    assert_eq!(events.len(), 1);
    assert_eq!(events[0].name, "tool-call");
    assert_eq!(events[0].payload.get_str("agentId"), Some("a1"));
    let calls = events[0].payload.get_array("toolCalls").unwrap();
    assert_eq!(calls.len(), 1);
    assert_eq!(calls[0].get_str("id"), Some("t1"));
    assert_eq!(calls[0].get_str("name"), Some("Edit"));
    assert_eq!(calls[0].get_str("status"), Some("pending"));
    assert_eq!(calls[0].get("arguments"), Some(&Json::Null));
    assert_eq!(calls[0].get_str("output"), Some("[diff] src/x.ts"));
}

#[test]
fn tool_call_prefers_tool_name_and_keeps_arguments() {
    let update = json(
        "{\"sessionUpdate\": \"tool_call\", \"toolCallId\": \"t2\", \"toolName\": \"read\", \"title\": \"Read\", \"status\": \"running\", \"args\": {\"path\": \"a\"}}",
    );
    let call = read_tool_call(&update);
    assert_eq!(call.name, "read");
    assert_eq!(call.status, "running");
    assert_eq!(call.arguments, Some(json("{\"path\": \"a\"}")));
    assert_eq!(call.output, None);
}

#[test]
fn plan_becomes_a_summary() {
    let update = json(
        "{\"sessionUpdate\": \"plan\", \"entries\": [{\"content\": \"first\", \"status\": \"done\"}, {\"content\": 1, \"status\": \"x\"}, \"y\", {\"status\": \"pending\", \"content\": \"second\", \"priority\": \"high\"}]}",
    );
    assert_eq!(
        handle_session_update("a1", &update),
        vec![AppEvent::stream_message(
            "a1",
            "📋 执行计划:\n[done] first\n[pending] second",
            "plan"
        )]
    );
    let empty = json("{\"sessionUpdate\": \"plan\", \"entries\": []}");
    assert!(handle_session_update("a1", &empty).is_empty());
}

#[test]
fn plan_entry_needs_both_strings() {
    let entry = read_plan_entry(&json("{\"content\": \"c\", \"status\": \"s\"}")).unwrap();
    assert_eq!(entry.content, "c");
    assert_eq!(entry.status, "s");
    assert!(read_plan_entry(&json("{\"content\": \"c\"}")).is_none());
    assert!(read_plan_entry(&json("[\"c\", \"s\"]")).is_none());
}

#[test]
fn user_echo_and_unknown_updates_give_nothing() {
    let echo = json(
        "{\"sessionUpdate\": \"user_message_chunk\", \"content\": {\"type\": \"text\", \"text\": \"hi\"}}",
    );
    assert!(handle_session_update("a1", &echo).is_empty());
    assert!(handle_session_update("a1", &json("{\"sessionUpdate\": \"other\"}")).is_empty());
    assert!(handle_session_update("a1", &json("{}")).is_empty());
}
