use jrpc::engine::{interpret_outcome, CallOutcome, Engine, EngineStep};
use jrpc::errors::{CallError, CloseReason};
use jrpc::envelope::Payload;
use jrpc::session::InboundEvent;

#[test]
fn open_call_encodes_a_tagged_frame() {
    let mut e = Engine::new();
    let (id, _rx, frame) = e.open_call("getDevices", None);
    assert_eq!(id, 0);
    let v: serde_json::Value = serde_json::from_str(&frame).unwrap();
    assert_eq!(v.get("jsonrpc").and_then(serde_json::Value::as_str), Some("2.0"));
    assert_eq!(v.get("method").and_then(serde_json::Value::as_str), Some("getDevices"));
    assert_eq!(v.get("id").and_then(serde_json::Value::as_u64), Some(0));
    assert_eq!(v.get("params"), None);
}

#[test]
fn open_call_carries_its_params() {
    let mut e = Engine::new();
    let params: serde_json::Value = serde_json::from_str("{\"deviceID\":\"abc\"}").unwrap();
    let (_id, _rx, frame) = e.open_call("getDeviceConfiguration", Some(params.clone()));
    let v: serde_json::Value = serde_json::from_str(&frame).unwrap();
    assert_eq!(v.get("params"), Some(&params));
}

#[test]
fn error_reply_resolves_only_its_caller_with_remote_error() {
    // An inbound frame {"jsonrpc":"2.0","id":3,"error":{"code":-1,"message":"bad"}}
    // resolves the caller pending under id 3 with that error; every other
    // pending caller is unaffected.
    let mut e = Engine::new();
    let (_, mut rx0, _) = e.open_call("a", None);
    let (_, mut rx1, _) = e.open_call("b", None);
    let (_, mut rx2, _) = e.open_call("c", None);
    let (id3, mut rx3, _) = e.open_call("d", None);
    assert_eq!(id3, 3);

    let step = e.handle_event(InboundEvent::Text(
        "{\"jsonrpc\":\"2.0\",\"id\":3,\"error\":{\"code\":-1,\"message\":\"bad\"}}".to_string(),
    ));
    assert!(matches!(step, EngineStep::Continue));

    let outcome = rx3.try_recv().expect("the caller of id 3 must be resolved");
    match interpret_outcome(outcome) {
        Err(CallError::RemoteError(err)) => {
            let expected: serde_json::Value =
                serde_json::from_str("{\"code\":-1,\"message\":\"bad\"}").unwrap();
            assert_eq!(err, expected);
        }
        _ => panic!("the caller must fail with the remote error"),
    }
    assert!(rx0.try_recv().is_err());
    assert!(rx1.try_recv().is_err());
    assert!(rx2.try_recv().is_err());
}

#[test]
fn immediate_close_fails_pending_call_as_connection_closed() {
    // A call is sent with id 5; the transport closes at once; the call
    // fails with ConnectionClosed rather than staying suspended.
    let mut e = Engine::new();
    let mut receivers = Vec::new();
    for _ in 0..5 {
        let (_, rx, _) = e.open_call("x", None);
        receivers.push(rx);
    }
    let (id5, mut rx5, _) = e.open_call("y", None);
    assert_eq!(id5, 5);

    let step = e.handle_event(InboundEvent::Ended);
    assert!(matches!(step, EngineStep::Terminated(CloseReason::StreamEnded)));

    let outcome = rx5.try_recv().expect("a drained caller must be fulfilled");
    match interpret_outcome(outcome) {
        Err(CallError::ConnectionClosed(reason)) => assert_eq!(reason, CloseReason::StreamEnded),
        _ => panic!("the caller must fail as connection-closed"),
    }
    // every other pending caller is released too
    for mut rx in receivers {
        let outcome = rx.try_recv().expect("every drained caller must be fulfilled");
        assert!(matches!(outcome, CallOutcome::Closed(CloseReason::StreamEnded)));
    }
}

#[test]
fn malformed_frame_terminates_and_releases_everyone() {
    let mut e = Engine::new();
    let (_, mut rx, _) = e.open_call("x", None);
    let step = e.handle_event(InboundEvent::Text("not json at all".to_string()));
    assert!(matches!(step, EngineStep::Terminated(CloseReason::MalformedEnvelope)));
    assert!(matches!(
        rx.try_recv().expect("the pending caller must be released"),
        CallOutcome::Closed(CloseReason::MalformedEnvelope)
    ));
}

#[test]
fn binary_frame_is_a_protocol_violation() {
    let mut e = Engine::new();
    let step = e.handle_event(InboundEvent::Binary);
    assert!(matches!(step, EngineStep::Terminated(CloseReason::ProtocolViolation)));
}

#[test]
fn read_failure_terminates_with_transport_error() {
    let mut e = Engine::new();
    let step = e.handle_event(InboundEvent::Failed);
    assert!(matches!(step, EngineStep::Terminated(CloseReason::TransportError)));
}

#[test]
fn broadcast_frame_notifies_and_touches_no_caller() {
    // {"jsonrpc":"2.0","result":{"event":"ping"}} carries no id: it goes to
    // the broadcast observer and no pending caller is resolved.
    let mut e = Engine::new();
    let (_, mut rx, _) = e.open_call("x", None);
    let step = e.handle_event(InboundEvent::Text(
        "{\"jsonrpc\":\"2.0\",\"result\":{\"event\":\"ping\"}}".to_string(),
    ));
    match step {
        EngineStep::Notify(envelope) => {
            assert_eq!(envelope.id, None);
            let expected: serde_json::Value = serde_json::from_str("{\"event\":\"ping\"}").unwrap();
            assert_eq!(envelope.result, Some(expected));
        }
        _ => panic!("an id-less frame must be handed to the broadcast path"),
    }
    assert!(rx.try_recv().is_err());
}

#[test]
fn stray_reply_is_dropped_and_pumping_continues() {
    let mut e = Engine::new();
    let step = e.handle_event(InboundEvent::Text(
        "{\"jsonrpc\":\"2.0\",\"id\":9,\"result\":null}".to_string(),
    ));
    assert!(matches!(step, EngineStep::Continue));
}

#[test]
fn cancel_call_deregisters_exactly_once() {
    let mut e = Engine::new();
    let (id, mut rx, _) = e.open_call("x", None);
    assert!(e.cancel_call(id));
    assert!(!e.cancel_call(id));
    // a reply for the cancelled id is now a stray
    let step = e.handle_event(InboundEvent::Text(
        "{\"jsonrpc\":\"2.0\",\"id\":0,\"result\":null}".to_string(),
    ));
    assert!(matches!(step, EngineStep::Continue));
    // the cancelled caller was not fulfilled, its sender is gone
    assert!(rx.try_recv().is_err());
}

#[test]
fn null_reply_interprets_as_null_result_success() {
    let mut e = Engine::new();
    let (_, mut rx, _) = e.open_call("x", None);
    let step = e.handle_event(InboundEvent::Text("{\"jsonrpc\":\"2.0\",\"id\":0}".to_string()));
    assert!(matches!(step, EngineStep::Continue));
    let outcome = rx.try_recv().unwrap();
    assert!(matches!(outcome, CallOutcome::Reply(Payload::Null)));
    assert!(matches!(interpret_outcome(outcome), Ok(None)));
}

#[test]
fn result_reply_interprets_as_the_result_value() {
    let mut e = Engine::new();
    let (_, mut rx, _) = e.open_call("x", None);
    let step = e.handle_event(InboundEvent::Text(
        "{\"jsonrpc\":\"2.0\",\"id\":0,\"result\":[1,2]}".to_string(),
    ));
    assert!(matches!(step, EngineStep::Continue));
    let expected: serde_json::Value = serde_json::from_str("[1,2]").unwrap();
    match interpret_outcome(rx.try_recv().unwrap()) {
        Ok(Some(v)) => assert_eq!(v, expected),
        _ => panic!("the result value must come back unchanged"),
    }
}
