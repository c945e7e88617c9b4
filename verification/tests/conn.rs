use chromiumoxide::conn::{
    decode_deep_message, decode_message, decoded_outcome, disable_nagle, message_of, nesting_of,
    read_deep_outcome, read_outcome, websocket_defaults, CallId, Connection, Message, Outcome,
    Received, Response, SocketAction, SocketEvent, MAX_NESTING,
};
use chromiumoxide::error::CdpError;
use serde_json::Value;

fn submit(connection: &mut Connection, method: &str) -> CallId {
    match connection.submit_command(method.to_string(), Some("session-1".to_string()), Value::Null) {
        Ok(id) => id,
        Err(_) => panic!("a command is always queued"),
    }
}

#[test]
fn decode_message_parses_network_event_frames_by_shape() {
    let raw = r#"{
            "method":"Network.requestWillBeSentExtraInfo",
            "params":{
                "requestId":"84477.1",
                "associatedCookies":[],
                "headers":{
                    "Accept":"*/*",
                    "Content-Length":"17",
                    "content-type":"text/plain"
                },
                "connectTiming":{
                    "requestTime":4366801.0
                },
                "siteHasCookieInOtherPartition":false
            },
            "sessionId":"1005A6C7B1F1C90A7D2CEB10EA82E560"
        }"#;

    let message =
        decode_message(raw.as_bytes(), Some(raw)).expect("network event should decode");
    match message {
        Message::Event(event) => {
            assert_eq!(
                event["method"].as_str(),
                Some("Network.requestWillBeSentExtraInfo")
            );
            let params = &event["params"];
            assert_eq!(params["requestId"].as_str(), Some("84477.1"));
            assert_eq!(
                params["headers"]["content-type"].as_str(),
                Some("text/plain")
            );
            assert!(
                params.get("clientSecurityState").is_none(),
                "missing clientSecurityState should stay optional"
            );
        }
        other => panic!("expected Network.requestWillBeSentExtraInfo event, got {other:?}"),
    }
}

#[test]
fn decode_message_parses_command_responses_by_shape() {
    let raw = r#"{"id":35,"result":{"postData":"{\"hello\":\"world\"}","base64Encoded":false},"sessionId":"session-1"}"#;

    let message =
        decode_message(raw.as_bytes(), Some(raw)).expect("response frame should decode");
    match message {
        Message::Response(response) => {
            assert_eq!(CallId::new(response.id as usize), CallId::new(35));
            assert!(response.value.get("result").is_some());
        }
        other => panic!("expected response message, got {other:?}"),
    }
}

#[test]
fn malformed_frames_are_errors() {
    match decode_message(b"{\"method\":", None) {
        Err(CdpError::Serde(_)) => {}
        other => panic!("expected a parse error, got {other:?}"),
    }
    assert!(decode_message(b"{} trailing", None).is_err());
}

#[test]
fn json_that_is_no_message_is_an_error() {
    for raw in ["{}", "[]", "7", "null", r#"{"id":-1}"#, r#"{"id":"35"}"#, r#"{"id":1.5}"#] {
        match decode_message(raw.as_bytes(), Some(raw)) {
            Err(CdpError::Serde(_)) => {}
            other => panic!("expected an error for {raw}, got {other:?}"),
        }
        assert!(matches!(
            decode_deep_message(raw.as_bytes(), Some(raw)),
            Err(CdpError::Serde(_))
        ));
        assert!(matches!(read_outcome(Received::Text(raw.to_string())), Outcome::Again));
    }
    // A method makes an event, whatever number stands beside it.
    let both = r#"{"id":1,"method":"Page.loadEventFired"}"#;
    assert!(matches!(decode_message(both.as_bytes(), None), Ok(Message::Event(_))));
}

#[test]
fn nesting_is_counted_outside_of_strings() {
    assert_eq!(nesting_of(b""), 0);
    assert_eq!(nesting_of(b"[{\"a\":[1,2]},[[]]]"), 3);
    assert_eq!(nesting_of(b"[\"[[[ \\\" [[\",{}]"), 2);
    assert_eq!(nesting_of(b"]]]["), 1);
    assert_eq!(nesting_of("[".repeat(600).as_bytes()), 600);
    assert!(MAX_NESTING >= 500);
}

#[test]
fn deep_frames_are_decoded() {
    let depth = 400;
    let mut raw = String::from("{\"id\":1,\"result\":");
    raw.push_str(&"[".repeat(depth));
    raw.push_str(&"]".repeat(depth));
    raw.push('}');
    assert!(decode_message(raw.as_bytes(), Some(&raw)).is_err());
    match decode_deep_message(raw.as_bytes(), Some(&raw)) {
        Ok(Message::Response(response)) => assert_eq!(response.id, 1),
        other => panic!("expected a response, got {other:?}"),
    }
    assert!(decode_deep_message(b"[1,", None).is_err());
    // The deep nesting is dropped on the way to the error.
    let broken = format!("[{}{},", "[".repeat(depth), "]".repeat(depth));
    assert!(decode_deep_message(broken.as_bytes(), None).is_err());
    assert!(matches!(read_outcome(Received::Text(raw.clone())), Outcome::Again));
    assert!(matches!(
        read_deep_outcome(Received::Binary(raw.clone().into_bytes())),
        Outcome::Deliver(Message::Response(_))
    ));
    assert!(matches!(
        read_deep_outcome(Received::Text(raw)),
        Outcome::Deliver(Message::Response(_))
    ));
    assert!(matches!(read_deep_outcome(Received::Ping), Outcome::Again));
    assert!(matches!(read_deep_outcome(Received::End), Outcome::End));
}

#[test]
fn what_has_a_method_is_an_event() {
    assert!(matches!(message_of(Value::Null, true, Some(1)), Some(Message::Event(Value::Null))));
    assert!(matches!(
        message_of(Value::Null, false, Some(7)),
        Some(Message::Response(Response { id: 7, value: Value::Null }))
    ));
    assert!(message_of(Value::Null, false, None).is_none());
}

#[test]
fn frames_have_their_outcomes() {
    let event = r#"{"method":"Page.loadEventFired","params":{}}"#;
    assert!(matches!(
        read_outcome(Received::Text(event.to_string())),
        Outcome::Deliver(Message::Event(_))
    ));
    assert!(matches!(
        read_outcome(Received::Binary(b"{\"id\":3}".to_vec())),
        Outcome::Deliver(Message::Response(_))
    ));
    assert!(matches!(read_outcome(Received::Text("no json".to_string())), Outcome::Again));
    assert!(matches!(read_outcome(Received::Binary(vec![0xff])), Outcome::Again));
    assert!(matches!(read_outcome(Received::Ping), Outcome::Again));
    assert!(matches!(read_outcome(Received::Pong), Outcome::Again));
    assert!(matches!(read_outcome(Received::Other), Outcome::Again));
    assert!(matches!(read_outcome(Received::Close), Outcome::End));
    assert!(matches!(read_outcome(Received::End), Outcome::End));
    assert!(matches!(read_outcome(Received::Failed), Outcome::Fail));
    assert!(matches!(read_outcome(Received::Pending), Outcome::Wait));
    assert!(matches!(decoded_outcome(Err(CdpError::Timeout)), Outcome::Again));
}

#[test]
fn commands_are_numbered_and_sent_in_order() {
    let mut connection = Connection::new();
    let first = submit(&mut connection, "Page.enable");
    let second = submit(&mut connection, "DOM.enable");
    assert_eq!(first, CallId::new(0));
    assert_eq!(second, CallId::new(1));

    let mut sent = Vec::new();
    let mut action = connection.step(SocketEvent::Poll);
    for _ in 0..20 {
        action = match action {
            SocketAction::Flush => connection.step(SocketEvent::Flushed(true)),
            SocketAction::Send => {
                let call = connection.outgoing().expect("a command is handed over");
                sent.push((call.id, call.method.clone()));
                connection.step(SocketEvent::Sent(true))
            }
            SocketAction::PollReady => connection.step(SocketEvent::Ready(true)),
            SocketAction::Read => break,
            SocketAction::Fail => panic!("nothing fails here"),
        };
    }
    assert!(matches!(action, SocketAction::Read));
    assert_eq!(
        sent,
        vec![(first, "Page.enable".to_string()), (second, "DOM.enable".to_string())]
    );
    assert!(connection.outgoing().is_none());
}

#[test]
fn a_command_waits_for_the_flush_of_the_one_before() {
    let mut connection = Connection::new();
    submit(&mut connection, "Page.enable");
    submit(&mut connection, "DOM.enable");
    assert!(matches!(connection.step(SocketEvent::Poll), SocketAction::Send));
    assert!(matches!(connection.step(SocketEvent::Sent(true)), SocketAction::PollReady));
    // The socket is busy: the connection reads, and asks again when it is polled.
    assert!(matches!(connection.step(SocketEvent::Ready(false)), SocketAction::Read));
    assert!(matches!(connection.step(SocketEvent::Poll), SocketAction::PollReady));
    assert!(matches!(connection.step(SocketEvent::Ready(true)), SocketAction::Flush));
    assert!(matches!(connection.step(SocketEvent::Flushed(false)), SocketAction::Read));
    assert!(matches!(connection.step(SocketEvent::Poll), SocketAction::Flush));
    assert!(matches!(connection.step(SocketEvent::Flushed(true)), SocketAction::Send));
    assert_eq!(connection.outgoing().map(|call| call.method.as_str()), Some("DOM.enable"));
}

#[test]
fn a_command_that_is_not_taken_fails_the_poll() {
    let mut connection = Connection::new();
    submit(&mut connection, "Page.enable");
    assert!(matches!(connection.step(SocketEvent::Poll), SocketAction::Send));
    assert!(matches!(connection.step(SocketEvent::Sent(false)), SocketAction::Fail));
    assert!(connection.outgoing().is_none());
    assert!(matches!(connection.step(SocketEvent::Poll), SocketAction::Read));
}

#[test]
fn socket_settings_come_from_the_environment() {
    assert!(disable_nagle(None));
    assert!(disable_nagle(Some("true")));
    assert!(!disable_nagle(Some("false")));
    assert!(!disable_nagle(Some("")));
    assert!(!websocket_defaults(None));
    assert!(websocket_defaults(Some("true")));
    assert!(!websocket_defaults(Some("TRUE")));
}
