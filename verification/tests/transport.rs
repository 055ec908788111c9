use iflow_workspace::protocol::Event;
use iflow_workspace::transport::{
    connect_target, connection_failure, receive_message, received_event, send_failure, Incoming,
    Received,
};

#[test]
fn target_is_the_parsed_url() {
    assert_eq!(
        connect_target("ws://127.0.0.1:8090/acp"),
        Ok("ws://127.0.0.1:8090/acp".to_string())
    );
    assert_eq!(
        connect_target("WS://LocalHost:8090"),
        Ok("ws://localhost:8090/".to_string())
    );
}

#[test]
fn target_that_is_no_url_is_refused() {
    assert_eq!(
        connect_target("127.0.0.1/acp"),
        Err("Invalid URL: relative URL without a base".to_string())
    );
    assert_eq!(
        connect_target("ws://"),
        Err("Invalid URL: empty host".to_string())
    );
}

#[test]
fn failures_are_worded() {
    assert_eq!(connection_failure("refused"), "WebSocket connection failed: refused");
    assert_eq!(send_failure("closed"), "Failed to send message: closed");
}

#[test]
fn text_and_binary_frames_are_texts() {
    assert_eq!(
        receive_message(Incoming::Text("{}".to_string())),
        Ok(Received::Text("{}".to_string()))
    );
    assert_eq!(
        receive_message(Incoming::Binary("{\"a\":\"é\"}".as_bytes().to_vec())),
        Ok(Received::Text("{\"a\":\"é\"}".to_string()))
    );
    assert_eq!(
        receive_message(Incoming::Binary(Vec::new())),
        Ok(Received::Text(String::new()))
    );
}

#[test]
fn binary_frame_that_is_no_utf8_fails() {
    let out = receive_message(Incoming::Binary(vec![0x7b, 0xff, 0x7d]));
    let message = out.unwrap_err();
    assert!(message.starts_with("Invalid UTF-8: "));
    assert!(message.len() > "Invalid UTF-8: ".len());
}

#[test]
fn pings_and_pongs_are_empty_texts() {
    assert_eq!(receive_message(Incoming::Ping), Ok(Received::Text(String::new())));
    assert_eq!(receive_message(Incoming::Pong), Ok(Received::Text(String::new())));
}

#[test]
fn timeout_is_an_idle_tick_of_its_own() {
    let tick = receive_message(Incoming::TimedOut);
    assert_eq!(tick, Ok(Received::Idle));
    assert_ne!(tick, receive_message(Incoming::Text(String::new())));
    assert_ne!(tick, receive_message(Incoming::Ping));
    assert_ne!(tick, receive_message(Incoming::Close));
    assert_ne!(tick, receive_message(Incoming::Ended));
    assert!(tick.is_ok());
}

#[test]
fn close_and_end_close_the_socket() {
    assert_eq!(receive_message(Incoming::Close), Ok(Received::Closed));
    assert_eq!(receive_message(Incoming::Ended), Ok(Received::Closed));
    assert_eq!(receive_message(Incoming::Frame), Ok(Received::Closed));
}

#[test]
fn stream_errors_fail() {
    assert_eq!(
        receive_message(Incoming::Failed("reset".to_string())),
        Err("WebSocket error: reset".to_string())
    );
}

#[test]
fn outcomes_become_events() {
    assert!(matches!(
        received_event(Ok(Received::Text("x".to_string()))),
        Event::Frame(text) if text == "x"
    ));
    assert!(matches!(received_event(Ok(Received::Closed)), Event::SocketClosed));
    assert!(matches!(received_event(Ok(Received::Idle)), Event::Idle));
    assert!(matches!(
        received_event(Err("bad".to_string())),
        Event::ReceiveFailed(message) if message == "bad"
    ));
}
