use jrpc::envelope::{decode_response, encode_request, select_payload, Payload, RequestEnvelope};

#[test]
fn unparsable_text_is_rejected() {
    assert!(decode_response("not json at all").is_none());
    assert!(decode_response("{\"jsonrpc\":").is_none());
    assert!(decode_response("").is_none());
}

#[test]
fn reply_fields_are_extracted() {
    let env = decode_response("{\"jsonrpc\":\"2.0\",\"id\":3,\"error\":{\"code\":-1,\"message\":\"bad\"}}")
        .expect("a well-formed frame must decode");
    assert_eq!(env.id, Some(3));
    assert_eq!(env.result, None);
    let expected: serde_json::Value = serde_json::from_str("{\"code\":-1,\"message\":\"bad\"}").unwrap();
    assert_eq!(env.error, Some(expected));
}

#[test]
fn id_less_frame_decodes_with_no_id() {
    let env = decode_response("{\"jsonrpc\":\"2.0\",\"result\":{\"event\":\"ping\"}}")
        .expect("a well-formed frame must decode");
    assert_eq!(env.id, None);
    assert!(env.result.is_some());
    assert_eq!(env.error, None);
}

#[test]
fn null_id_counts_as_no_id() {
    let env = decode_response("{\"jsonrpc\":\"2.0\",\"id\":null,\"result\":1}")
        .expect("a well-formed frame must decode");
    assert_eq!(env.id, None);
}

#[test]
fn encode_produces_the_wire_envelope() {
    let params: serde_json::Value = serde_json::from_str("{\"deviceID\":\"d1\"}").unwrap();
    let req = RequestEnvelope::new(Some(42), "setDeviceConfiguration", Some(params.clone()));
    let frame = encode_request(&req);
    let v: serde_json::Value = serde_json::from_str(&frame).unwrap();
    assert_eq!(v.get("jsonrpc").and_then(serde_json::Value::as_str), Some("2.0"));
    assert_eq!(v.get("id").and_then(serde_json::Value::as_u64), Some(42));
    assert_eq!(v.get("method").and_then(serde_json::Value::as_str), Some("setDeviceConfiguration"));
    assert_eq!(v.get("params"), Some(&params));
}

#[test]
fn encode_omits_absent_id_and_params() {
    let req = RequestEnvelope::new(None, "getDevices", None);
    let frame = encode_request(&req);
    let v: serde_json::Value = serde_json::from_str(&frame).unwrap();
    assert_eq!(v.get("id"), None);
    assert_eq!(v.get("params"), None);
    assert_eq!(v.get("method").and_then(serde_json::Value::as_str), Some("getDevices"));
}

#[test]
fn payload_precedence_is_error_then_result_then_null() {
    let res: serde_json::Value = serde_json::from_str("{\"ok\":true}").unwrap();
    let err: serde_json::Value = serde_json::from_str("{\"code\":-1}").unwrap();

    let both = decode_response("{\"jsonrpc\":\"2.0\",\"id\":1,\"result\":{\"ok\":true},\"error\":{\"code\":-1}}").unwrap();
    match select_payload(both) {
        Payload::Error(e) => assert_eq!(e, err),
        _ => panic!("an error payload must not be shadowed by a result"),
    }

    let only_result = decode_response("{\"jsonrpc\":\"2.0\",\"id\":1,\"result\":{\"ok\":true}}").unwrap();
    match select_payload(only_result) {
        Payload::Result(v) => assert_eq!(v, res),
        _ => panic!("a result payload must be delivered"),
    }

    let neither = decode_response("{\"jsonrpc\":\"2.0\",\"id\":1}").unwrap();
    assert!(matches!(select_payload(neither), Payload::Null));
}
