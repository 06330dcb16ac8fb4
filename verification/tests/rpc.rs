use burnwatch::detector::detect;
use burnwatch::json::Json;
use burnwatch::rpc::{decode_envelope, extract_signatures, transaction_from_rpc, RpcError};
use burnwatch::tracker::{advance_watermark, new_since};

/// The decoded `result` field of a successful envelope wrapping `payload`.
fn result_of(payload: &str) -> Json {
    let body = format!("{{\"jsonrpc\":\"2.0\",\"id\":1,\"result\":{}}}", payload);
    decode_envelope(true, &body).unwrap()
}

#[test]
fn http_failure_is_a_protocol_error() {
    let r = decode_envelope(false, "service unavailable");
    match r {
        Err(RpcError::Protocol(detail)) => assert_eq!(detail, "service unavailable"),
        other => panic!("expected a protocol error, got {:?}", other),
    }
}

#[test]
fn invalid_json_is_a_decode_error() {
    let r = decode_envelope(true, "not json at all {");
    assert!(matches!(r, Err(RpcError::Decode)));
}

#[test]
fn error_envelope_is_a_protocol_error() {
    let body = "{\"jsonrpc\":\"2.0\",\"id\":1,\"error\":{\"code\":-32600,\"message\":\"bad\"}}";
    let r = decode_envelope(true, body);
    match r {
        Err(RpcError::Protocol(detail)) => assert!(detail.contains("-32600")),
        other => panic!("expected a protocol error, got {:?}", other),
    }
}

#[test]
fn error_envelope_suppresses_result_field() {
    let body = "{\"jsonrpc\":\"2.0\",\"id\":1,\"result\":[\"x\"],\"error\":{\"code\":1}}";
    let r = decode_envelope(true, body);
    assert!(matches!(r, Err(RpcError::Protocol(_))));
}

#[test]
fn success_envelope_yields_result_field() {
    let r = result_of("[\"x\", 7, null, true]");
    assert_eq!(
        r,
        Json::Arr(vec![
            Json::Str("x".to_string()),
            Json::Num,
            Json::Null,
            Json::Bool(true),
        ])
    );
}

#[test]
fn success_envelope_converts_objects_in_order() {
    let r = result_of("{\"b\":\"1\",\"a\":{\"c\":[]}}");
    assert_eq!(
        r,
        Json::Obj(vec![
            ("a".to_string(), Json::Obj(vec![("c".to_string(), Json::Arr(vec![]))])),
            ("b".to_string(), Json::Str("1".to_string())),
        ])
    );
}

#[test]
fn missing_result_field_yields_null() {
    let body = "{\"jsonrpc\":\"2.0\",\"id\":1}";
    let r = decode_envelope(true, body).unwrap();
    assert_eq!(r, Json::Null);
}

#[test]
fn extract_signatures_keeps_order_and_skips_bad_entries() {
    let v = result_of(
        "[{\"signature\":\"s3\"},{\"slot\":5},{\"signature\":7},{\"signature\":\"s1\"}]",
    );
    let sigs = extract_signatures(&v).unwrap();
    assert_eq!(sigs, vec!["s3".to_string(), "s1".to_string()]);
}

#[test]
fn extract_signatures_rejects_non_array() {
    assert!(extract_signatures(&result_of("{\"signature\":\"s1\"}")).is_none());
    assert!(extract_signatures(&Json::Null).is_none());
    assert!(extract_signatures(&Json::Str("s1".to_string())).is_none());
}

#[test]
fn null_result_means_not_yet_available() {
    assert!(transaction_from_rpc(&Json::Null).is_none());
    assert!(transaction_from_rpc(&result_of("null")).is_none());
}

#[test]
fn parsed_transaction_detects_top_level_burn() {
    let result = result_of(
        "{\"transaction\":{\"message\":{\"instructions\":[\
        {\"program\":\"system\",\"parsed\":{\"type\":\"transfer\",\"info\":{}}},\
        {\"program\":\"spl-token\",\"parsed\":{\"type\":\"burn\",\"info\":\
        {\"amount\":\"100\",\"source\":\"A\",\"mint\":\"M\"}}}]}},\"meta\":{}}",
    );
    let tx = transaction_from_rpc(&result);
    let e = detect(&tx, "s2").unwrap();
    assert_eq!(e.signature, "s2");
    assert_eq!(e.mint, "M");
    assert_eq!(e.source, "A");
    assert_eq!(e.amount, "100");
}

#[test]
fn parsed_transaction_detects_inner_burn() {
    let result = result_of(
        "{\"transaction\":{\"message\":{\"instructions\":[\
        {\"program\":\"router\"}]}},\"meta\":{\"innerInstructions\":[\
        {\"index\":0,\"instructions\":[\
        {\"program\":\"spl-token\",\"parsed\":{\"type\":\"Burn\",\"info\":\
        {\"source\":\"B\",\"mint\":\"M\"}}}]}]}}",
    );
    let tx = transaction_from_rpc(&result);
    let e = detect(&tx, "sx").unwrap();
    assert_eq!(e.source, "B");
    assert_eq!(e.amount, "?");
}

#[test]
fn parsed_transaction_without_burn_detects_nothing() {
    let result = result_of(
        "{\"transaction\":{\"message\":{\"instructions\":[\
        {\"program\":\"system\",\"parsed\":{\"type\":\"transfer\",\"info\":{}}}]}},\
        \"meta\":{\"innerInstructions\":[]}}",
    );
    let tx = transaction_from_rpc(&result);
    assert!(detect(&tx, "s3").is_none());
}

#[test]
fn full_cycle_scenario() {
    // Page of signatures, newest first, against watermark "s1".
    let page = decode_envelope(
        true,
        "{\"result\":[{\"signature\":\"s3\"},{\"signature\":\"s2\"},{\"signature\":\"s1\"}]}",
    )
    .unwrap();
    let sigs = extract_signatures(&page).unwrap();
    let watermark = Some("s1".to_string());
    let new = new_since(&sigs, &watermark);
    assert_eq!(new, vec!["s2".to_string(), "s3".to_string()]);

    // s2 holds a top-level burn; s3 holds none.
    let tx_s2 = transaction_from_rpc(&result_of(
        "{\"transaction\":{\"message\":{\"instructions\":[\
        {\"program\":\"spl-token\",\"parsed\":{\"type\":\"burn\",\"info\":\
        {\"amount\":\"100\",\"source\":\"A\",\"mint\":\"M\"}}}]}}}",
    ));
    let e = detect(&tx_s2, "s2").unwrap();
    assert_eq!(e.signature, "s2");
    assert_eq!(e.mint, "M");
    assert_eq!(e.source, "A");
    assert_eq!(e.amount, "100");

    let tx_s3 = transaction_from_rpc(&result_of(
        "{\"transaction\":{\"message\":{\"instructions\":[{\"program\":\"system\"}]}}}",
    ));
    assert!(detect(&tx_s3, "s3").is_none());

    let final_watermark = advance_watermark(watermark, &new);
    assert_eq!(final_watermark, Some("s3".to_string()));
}
