use iflow_workspace::callbacks::{
    handle_server_request, read_file_reply, write_file_reply, Callback, INTERNAL_ERROR,
    INVALID_PARAMS, METHOD_NOT_FOUND,
};
use iflow_workspace::json::Json;

fn reply(callback: Callback) -> Json {
    match callback {
        Callback::Reply(text) => Json::parse(&text).expect("a reply is JSON"),
        other => panic!("expected a reply, got {:?}", other),
    }
}

fn error_of(reply: &Json) -> (i64, String) {
    let error = reply.get("error").expect("an error");
    (
        error.get("code").and_then(|c| c.as_id()).unwrap(),
        error.get_str("message").unwrap().to_string(),
    )
}

#[test]
fn error_codes() {
    assert_eq!(METHOD_NOT_FOUND, -32601);
    assert_eq!(INVALID_PARAMS, -32602);
    assert_eq!(INTERNAL_ERROR, -32603);
}

#[test]
fn permission_is_granted_once() {
    let answer = reply(handle_server_request(1, "session/request_permission", None));
    assert_eq!(answer.get("id").and_then(|id| id.as_id()), Some(1));
    let outcome = answer.get("result").and_then(|r| r.get("outcome")).unwrap();
    assert_eq!(outcome.get_str("outcome"), Some("selected"));
    assert_eq!(outcome.get_str("optionId"), Some("allow_once"));
    assert_eq!(outcome.as_array().map(|a| a.len()), None);
}

#[test]
fn read_needs_a_path() {
    let params = Json::parse("{\"path\": \"/a\", \"sessionId\": \"s\"}").unwrap();
    assert_eq!(
        handle_server_request(2, "fs/read_text_file", Some(&params)),
        Callback::ReadFile { path: "/a".to_string(), session_id: "s".to_string() }
    );
    let params = Json::parse("{\"path\": \"/a\"}").unwrap();
    assert_eq!(
        handle_server_request(2, "fs/read_text_file", Some(&params)),
        Callback::ReadFile { path: "/a".to_string(), session_id: String::new() }
    );
    let params = Json::parse("{\"path\": 5}").unwrap();
    let answer = reply(handle_server_request(2, "fs/read_text_file", Some(&params)));
    assert_eq!(error_of(&answer), (-32602, "Missing path".to_string()));
    let answer = reply(handle_server_request(2, "fs/read_text_file", None));
    assert_eq!(error_of(&answer), (-32602, "Missing path".to_string()));
}

#[test]
fn write_needs_a_path_and_content() {
    let params = Json::parse("{\"path\": \"/a\", \"content\": \"c\"}").unwrap();
    assert_eq!(
        handle_server_request(3, "fs/write_text_file", Some(&params)),
        Callback::WriteFile { path: "/a".to_string(), content: "c".to_string() }
    );
    let params = Json::parse("{\"content\": \"c\"}").unwrap();
    let answer = reply(handle_server_request(3, "fs/write_text_file", Some(&params)));
    assert_eq!(error_of(&answer), (-32602, "Missing path".to_string()));
    let params = Json::parse("{\"path\": \"/a\"}").unwrap();
    let answer = reply(handle_server_request(3, "fs/write_text_file", Some(&params)));
    assert_eq!(error_of(&answer), (-32602, "Missing content".to_string()));
}

#[test]
fn stubs_and_unknown_methods() {
    let answer = reply(handle_server_request(4, "_iflow/user/questions", None));
    assert_eq!(
        answer.get("result"),
        Some(&Json::object().with("answers", Json::object()))
    );
    let answer = reply(handle_server_request(5, "_iflow/plan/exit", None));
    assert_eq!(
        answer.get("result"),
        Some(&Json::object().with("approved", Json::Bool(true)))
    );
    let answer = reply(handle_server_request(6, "terminal/create", None));
    assert_eq!(answer.get("id").and_then(|id| id.as_id()), Some(6));
    assert_eq!(error_of(&answer), (-32601, "Method not found".to_string()));
}

#[test]
fn read_replies() {
    let answer = Json::parse(&read_file_reply(7, "/a", "s", Ok("text".to_string()))).unwrap();
    let result = answer.get("result").unwrap();
    assert_eq!(result.get_str("content"), Some("text"));
    assert_eq!(result.get_str("path"), Some("/a"));
    assert_eq!(result.get_str("sessionId"), Some("s"));
    let answer =
        Json::parse(&read_file_reply(7, "/missing", "s", Err("not found".to_string()))).unwrap();
    assert_eq!(
        error_of(&answer),
        (-32603, "Failed to read file: not found".to_string())
    );
}

#[test]
fn write_replies() {
    let answer = Json::parse(&write_file_reply(8, Ok(()))).unwrap();
    assert_eq!(answer.get("result"), Some(&Json::Null));
    assert_eq!(answer.get("id").and_then(|id| id.as_id()), Some(8));
    let answer = Json::parse(&write_file_reply(8, Err("read-only".to_string()))).unwrap();
    assert_eq!(
        error_of(&answer),
        (-32603, "Failed to write file: read-only".to_string())
    );
}
