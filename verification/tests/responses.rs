//! The response each operation decodes, and the three-way error taxonomy:
//! transport failure, decode failure, and API-level failure carried as data.

use slack_http_client::{
    open_modal_result, post_ephemeral_result, post_message_result, SlackError, TransportOutcome,
};

fn body(text: &str) -> TransportOutcome {
    TransportOutcome::Response(text.to_string())
}

#[test]
fn post_message_success_response() {
    let r = post_message_result(body("{\"ok\":true,\"channel\":\"C1\",\"ts\":\"123.45\"}"));
    let resp = r.expect("a well-shaped body must decode");
    assert!(resp.ok);
    assert_eq!(resp.channel, Some("C1".to_string()));
    assert_eq!(resp.ts, Some("123.45".to_string()));
    assert_eq!(resp.error, None);
}

#[test]
fn post_message_api_level_failure_is_data() {
    let r = post_message_result(body("{\"ok\":false,\"error\":\"channel_not_found\"}"));
    let resp = r.expect("an API-level failure still decodes");
    assert!(!resp.ok);
    assert_eq!(resp.error, Some("channel_not_found".to_string()));
    assert_eq!(resp.channel, None);
    assert_eq!(resp.ts, None);
}

#[test]
fn post_ephemeral_success_response() {
    let r = post_ephemeral_result(body("{\"ok\":true,\"message_ts\":\"1610000000.000100\"}"));
    let resp = r.expect("a well-shaped body must decode");
    assert!(resp.ok);
    assert_eq!(resp.message_ts, Some("1610000000.000100".to_string()));
    assert_eq!(resp.error, None);
}

#[test]
fn open_modal_success_response() {
    let r = open_modal_result(body(
        "{\"ok\":true,\"view\":{\"id\":\"V12345\",\"type\":\"modal\"}}",
    ));
    let resp = r.expect("a well-shaped body must decode");
    assert!(resp.ok);
    assert_eq!(resp.view.expect("a view was returned").id, "V12345");
    assert_eq!(resp.error, None);
}

#[test]
fn invalid_json_is_a_decode_failure_for_all_operations() {
    let text = "this is not json";
    assert!(matches!(
        post_message_result(body(text)),
        Err(SlackError::Decode)
    ));
    assert!(matches!(
        post_ephemeral_result(body(text)),
        Err(SlackError::Decode)
    ));
    assert!(matches!(
        open_modal_result(body(text)),
        Err(SlackError::Decode)
    ));
}

#[test]
fn wrong_shape_is_a_decode_failure_not_an_api_failure() {
    // valid JSON, but `ok` is not a boolean: decode failure, never a result
    assert!(matches!(
        post_message_result(body("{\"ok\":\"yes\"}")),
        Err(SlackError::Decode)
    ));
    // `ok` missing entirely
    assert!(matches!(
        post_message_result(body("{\"error\":\"oops\"}")),
        Err(SlackError::Decode)
    ));
    // an optional string field with a non-string value
    assert!(matches!(
        post_message_result(body("{\"ok\":true,\"channel\":42}")),
        Err(SlackError::Decode)
    ));
}

#[test]
fn unknown_fields_are_ignored() {
    let r = post_message_result(body(
        "{\"ok\":true,\"ts\":\"1.2\",\"warning\":\"x\",\"meta\":{\"n\":7}}",
    ));
    let resp = r.expect("unknown fields do not prevent decoding");
    assert!(resp.ok);
    assert_eq!(resp.ts, Some("1.2".to_string()));
}

#[test]
fn transport_failure_is_distinct_and_nothing_is_parsed() {
    let outcome = TransportOutcome::Failure("connection refused".to_string());
    match post_message_result(outcome) {
        Err(SlackError::Transport(msg)) => assert_eq!(msg, "connection refused"),
        other => panic!("expected a transport failure, got {:?}", other),
    }
    match post_ephemeral_result(TransportOutcome::Failure("connection refused".to_string())) {
        Err(SlackError::Transport(msg)) => assert_eq!(msg, "connection refused"),
        other => panic!("expected a transport failure, got {:?}", other),
    }
    match open_modal_result(TransportOutcome::Failure("connection refused".to_string())) {
        Err(SlackError::Transport(msg)) => assert_eq!(msg, "connection refused"),
        other => panic!("expected a transport failure, got {:?}", other),
    }
}

#[test]
fn identical_outcomes_give_two_independent_results() {
    // no deduplication on the response side either: the same body handed in
    // twice decodes twice, into two independent results
    let first = post_message_result(body("{\"ok\":true,\"ts\":\"9.9\"}"));
    let second = post_message_result(body("{\"ok\":true,\"ts\":\"9.9\"}"));
    let a = first.expect("first decode");
    let b = second.expect("second decode");
    assert_eq!(a.ts, b.ts);
    assert!(a.ok && b.ok);
}

#[test]
fn null_optional_fields_decode_to_none() {
    let r = post_message_result(body("{\"ok\":true,\"channel\":null,\"ts\":null}"));
    let resp = r.expect("null optional fields are accepted");
    assert!(resp.ok);
    assert_eq!(resp.channel, None);
    assert_eq!(resp.ts, None);
}
