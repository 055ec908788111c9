use iflow_workspace::history::{
    compact_title, extract_history_message_content, extract_history_record_cwd,
    extract_history_timestamp, extract_text_entries_only, extract_text_value,
    has_structured_tool_entries, iflow_project_dirs_for_workspace, normalize_iflow_session_id,
    normalize_workspace_path, parse_iflow_history_messages, parse_iflow_history_summary,
    session_file_id, since_epoch, sort_sessions, to_rfc3339_or_now,
    workspace_to_iflow_project_key,
    IflowHistoryMessage, IflowHistorySession,
};
use iflow_workspace::json::Json;

fn json(text: &str) -> Json {
    Json::parse(text).expect("valid JSON")
}

#[test]
fn workspace_paths_are_normalized() {
    assert_eq!(normalize_workspace_path("  /home/u/work//  "), "/home/u/work");
    assert_eq!(normalize_workspace_path("C:\\Users\\u\\work\\"), "C:/Users/u/work");
    assert_eq!(normalize_workspace_path("/"), "/");
    assert_eq!(normalize_workspace_path("///"), "/");
    assert_eq!(normalize_workspace_path(""), "");
    assert_eq!(normalize_workspace_path("a"), "a");
}

#[test]
fn project_keys() {
    assert_eq!(workspace_to_iflow_project_key("/home/u/work/"), "-home-u-work");
    assert_eq!(workspace_to_iflow_project_key("C:\\Users\\u"), "-C--Users-u");
    assert_eq!(workspace_to_iflow_project_key("work"), "-work");
    assert_eq!(workspace_to_iflow_project_key(""), "-");
}

#[test]
fn project_dirs_hold_no_key_twice() {
    assert_eq!(
        iflow_project_dirs_for_workspace("/home/u/work/", "/home/u/work"),
        vec!["-home-u-work"]
    );
    assert_eq!(
        iflow_project_dirs_for_workspace("/link/work", "/home/u/work"),
        vec!["-link-work", "-home-u-work"]
    );
}

#[test]
fn titles_are_compact() {
    assert_eq!(compact_title("  Fix the\nbug\r\n"), "Fix the bug");
    assert_eq!(compact_title(" \n "), "iFlow 会话");
    assert_eq!(compact_title(""), "iFlow 会话");
    let exactly = "abcdefghijklmnopqrstuvwxyz12";
    assert_eq!(exactly.chars().count(), 28);
    assert_eq!(compact_title(exactly), exactly);
    assert_eq!(
        compact_title("abcdefghijklmnopqrstuvwxyz123"),
        "abcdefghijklmnopqrstuvwxyz12..."
    );
    let chinese = "一二三四五六七八九十一二三四五六七八九十一二三四五六七八九";
    assert_eq!(
        compact_title(chinese),
        "一二三四五六七八九十一二三四五六七八九十一二三四五六七八..."
    );
}

#[test]
fn session_ids_are_checked() {
    assert_eq!(normalize_iflow_session_id(" session-1.jsonl "), Ok("session-1".to_string()));
    assert_eq!(normalize_iflow_session_id("session-1.jsonl.jsonl"), Ok("session-1".to_string()));
    assert_eq!(normalize_iflow_session_id("session-abc"), Ok("session-abc".to_string()));
    assert_eq!(
        normalize_iflow_session_id("  "),
        Err("session_id cannot be empty".to_string())
    );
    assert_eq!(
        normalize_iflow_session_id(".jsonl"),
        Err("session_id cannot be empty".to_string())
    );
    assert_eq!(
        normalize_iflow_session_id("../session-1"),
        Err("Invalid session_id format".to_string())
    );
}

#[test]
fn session_files_by_their_names() {
    assert_eq!(session_file_id("session-1.jsonl"), Some("session-1".to_string()));
    assert_eq!(session_file_id("session-1.json"), None);
    assert_eq!(session_file_id("other-1.jsonl"), None);
    assert_eq!(session_file_id("session-.jsonl.jsonl"), Some("session-".to_string()));
}

#[test]
fn texts_of_history_values() {
    assert_eq!(extract_text_value(&json("\" a \"")).as_deref(), Some("a"));
    assert_eq!(extract_text_value(&json("[\"a\", {\"text\": \"b\"}, 3]")).as_deref(), Some("a\nb"));
    assert_eq!(
        extract_text_value(&json("{\"text\": \" \", \"content\": [\"c\"]}")).as_deref(),
        Some("c")
    );
    assert_eq!(extract_text_value(&json("{\"other\": \"x\"}")), None);
    assert_eq!(extract_text_value(&json("null")), None);
}

#[test]
fn text_entries_leave_tools_out() {
    let content = json(
        "[{\"type\": \"text\", \"text\": \"one\"}, {\"type\": \"image\", \"text\": \"no\"}, \"bare\", {\"type\": \"text\", \"text\": [\"two\", \"three\"]}]",
    );
    assert_eq!(extract_text_entries_only(&content).as_deref(), Some("one\ntwo\nthree"));
    assert_eq!(extract_text_entries_only(&json("\" s \"")).as_deref(), Some("s"));
    assert_eq!(
        extract_text_entries_only(&json("{\"type\": \"text\", \"text\": \"t\"}")).as_deref(),
        Some("t")
    );
    assert_eq!(extract_text_entries_only(&json("{\"type\": \"tool\", \"text\": \"t\"}")), None);
    assert_eq!(extract_text_entries_only(&json("{\"text\": \"t\"}")).as_deref(), Some("t"));
    assert_eq!(
        extract_text_entries_only(&json("{\"content\": [{\"type\": \"text\", \"text\": \"deep\"}]}"))
            .as_deref(),
        Some("deep")
    );
    assert_eq!(extract_text_entries_only(&json("[]")), None);
    assert_eq!(extract_text_entries_only(&json("5")), None);
}

#[test]
fn tool_entries_are_spotted() {
    assert!(has_structured_tool_entries(&json("[{\"type\": \"text\"}, {\"type\": \"tool_use\"}]")));
    assert!(has_structured_tool_entries(&json("[{\"type\": \"tool_result\"}]")));
    assert!(!has_structured_tool_entries(&json("[{\"type\": \"text\"}, \"tool_use\"]")));
    assert!(!has_structured_tool_entries(&json("{\"type\": \"tool_use\"}")));
    assert!(!has_structured_tool_entries(&json("[]")));
}

#[test]
fn message_content_of_records() {
    let record = json("{\"message\": {\"content\": [{\"type\": \"text\", \"text\": \"hi\"}]}}");
    assert_eq!(extract_history_message_content(&record, "user").as_deref(), Some("hi"));
    assert_eq!(extract_history_message_content(&record, "assistant").as_deref(), Some("hi"));
    assert_eq!(extract_history_message_content(&record, "system"), None);
    let tools = json(
        "{\"message\": {\"content\": [{\"type\": \"text\", \"text\": \"hi\"}, {\"type\": \"tool_use\"}]}}",
    );
    assert_eq!(extract_history_message_content(&tools, "assistant"), None);
    assert_eq!(extract_history_message_content(&json("{\"message\": {}}"), "user"), None);
    assert_eq!(extract_history_message_content(&json("{}"), "user"), None);
}

#[test]
fn timestamps_and_workspaces_of_records() {
    let record = json("{\"timestamp\": \" 2024-01-01T00:00:00Z \", \"cwd\": \"C:\\\\work\\\\\"}");
    assert_eq!(extract_history_timestamp(&record).as_deref(), Some("2024-01-01T00:00:00Z"));
    assert_eq!(extract_history_record_cwd(&record).as_deref(), Some("C:/work"));
    let record = json("{\"timestamp\": \" \", \"cwd\": 1}");
    assert_eq!(extract_history_timestamp(&record), None);
    assert_eq!(extract_history_record_cwd(&record), None);
}

const SESSION: &str = "{\"type\":\"user\",\"uuid\":\"u1\",\"cwd\":\"/work/\",\"timestamp\":\"2024-01-01T00:00:00Z\",\"message\":{\"content\":\"  First question\\nwith a second line  \"}}\n\nnot json\n{\"type\":\"assistant\",\"timestamp\":\"2024-01-01T00:05:00Z\",\"message\":{\"content\":[{\"type\":\"tool_use\"}]}}\n{\"type\":\" assistant \",\"message\":{\"content\":[{\"type\":\"text\",\"text\":\"An answer\"}]}}\n{\"type\":\"summary\",\"message\":{\"content\":\"x\"}}\n{\"type\":\"user\",\"timestamp\":\"2024-01-01T00:10:00Z\",\"message\":{\"content\":\"More\"}}\n";

#[test]
fn summary_of_a_session_file() {
    let summary = parse_iflow_history_summary(SESSION, "session-1", "/work", "fallback");
    assert_eq!(
        summary,
        Some(IflowHistorySession {
            session_id: "session-1".to_string(),
            title: "First question with a second...".to_string(),
            created_at: "2024-01-01T00:00:00Z".to_string(),
            updated_at: "2024-01-01T00:10:00Z".to_string(),
            message_count: 3,
        })
    );
}

#[test]
fn summary_of_a_file_of_another_workspace() {
    assert_eq!(parse_iflow_history_summary(SESSION, "session-1", "/other", "fallback"), None);
}

#[test]
fn summary_falls_back_where_the_file_is_silent() {
    let raw = "{\"type\":\"assistant\",\"message\":{\"content\":\"hello\"}}";
    assert_eq!(
        parse_iflow_history_summary(raw, "session-2", "/work", "2024-02-02T00:00:00+00:00"),
        Some(IflowHistorySession {
            session_id: "session-2".to_string(),
            title: "session-2".to_string(),
            created_at: "2024-02-02T00:00:00+00:00".to_string(),
            updated_at: "2024-02-02T00:00:00+00:00".to_string(),
            message_count: 1,
        })
    );
    assert_eq!(
        parse_iflow_history_summary("", "session-3", "/work", "t"),
        Some(IflowHistorySession {
            session_id: "session-3".to_string(),
            title: "session-3".to_string(),
            created_at: "t".to_string(),
            updated_at: "t".to_string(),
            message_count: 0,
        })
    );
}

#[test]
fn messages_of_a_session_file() {
    let messages = parse_iflow_history_messages(SESSION, "session-1", "/work", "now").unwrap();
    assert_eq!(
        messages,
        vec![
            IflowHistoryMessage {
                id: "u1".to_string(),
                role: "user".to_string(),
                content: "First question\nwith a second line".to_string(),
                timestamp: "2024-01-01T00:00:00Z".to_string(),
            },
            IflowHistoryMessage {
                id: "session-1-4".to_string(),
                role: "assistant".to_string(),
                content: "An answer".to_string(),
                timestamp: "now".to_string(),
            },
            IflowHistoryMessage {
                id: "session-1-6".to_string(),
                role: "user".to_string(),
                content: "More".to_string(),
                timestamp: "2024-01-01T00:10:00Z".to_string(),
            },
        ]
    );
}

#[test]
fn messages_of_a_file_of_another_workspace() {
    assert_eq!(
        parse_iflow_history_messages(SESSION, "session-1", "/other", "now"),
        Err("Session session-1 does not belong to workspace /other".to_string())
    );
}

#[test]
fn times_are_written_as_rfc3339() {
    assert_eq!(to_rfc3339_or_now(Some((0, 0))), "1970-01-01T00:00:00+00:00");
    assert_eq!(
        to_rfc3339_or_now(Some((1_700_000_000, 500_000_000))),
        "2023-11-14T22:13:20.500+00:00"
    );
    assert_eq!(to_rfc3339_or_now(Some((-1, 0))), "1969-12-31T23:59:59+00:00");
    let now = to_rfc3339_or_now(None);
    assert!(now.ends_with("+00:00"));
    assert!(now.as_str() > "2024-01-01T00:00:00+00:00");
    let out_of_range = to_rfc3339_or_now(Some((i64::MAX, 0)));
    assert!(out_of_range.ends_with("+00:00"));
}

fn session(id: &str, updated_at: &str) -> IflowHistorySession {
    IflowHistorySession {
        session_id: id.to_string(),
        title: id.to_string(),
        created_at: "2024-01-01T00:00:00Z".to_string(),
        updated_at: updated_at.to_string(),
        message_count: 1,
    }
}

#[test]
fn sessions_are_sorted_newest_first() {
    let sorted = sort_sessions(vec![
        session("a", "2024-01-02T00:00:00Z"),
        session("b", "2024-01-03T00:00:00Z"),
        session("c", "2024-01-01T00:00:00Z"),
        session("d", "2024-01-03T00:00:00Z"),
        session("e", "2024-01-02T00:00:00Z"),
    ]);
    let ids: Vec<&str> = sorted.iter().map(|s| s.session_id.as_str()).collect();
    assert_eq!(ids, vec!["b", "d", "a", "e", "c"]);
    assert!(sort_sessions(Vec::new()).is_empty());
}

#[test]
fn sorting_agrees_with_the_standard_sort() {
    let stamps = ["b", "a", "", "ab", "é", "a", "B", "文", "b", "aa"];
    let sessions: Vec<IflowHistorySession> = stamps
        .iter()
        .enumerate()
        .map(|(i, stamp)| session(&format!("s{}", i), stamp))
        .collect();
    let mut expected = sessions.clone();
    expected.sort_by(|a, b| b.updated_at.cmp(&a.updated_at));
    assert_eq!(sort_sessions(sessions), expected);
}

#[test]
fn file_times_as_offsets() {
    assert_eq!(since_epoch(false, 0, 0), Some((0, 0)));
    assert_eq!(since_epoch(false, 1_700_000_000, 5), Some((1_700_000_000, 5)));
    assert_eq!(since_epoch(true, 10, 0), Some((-10, 0)));
    assert_eq!(since_epoch(true, 10, 250_000_000), Some((-11, 750_000_000)));
    assert_eq!(since_epoch(true, 0, 1), Some((-1, 999_999_999)));
    assert_eq!(since_epoch(false, u64::MAX, 0), None);
    assert_eq!(since_epoch(false, i64::MAX as u64, 0), None);
    assert_eq!(since_epoch(false, 1, 1_000_000_000), None);
}
