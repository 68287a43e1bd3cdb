//! The request each operation builds: fixed endpoint, bearer token, and a
//! body holding exactly the documented fields with the caller's values
//! verbatim.

use slack_http_client::{JsonValue, SlackClient};

fn sample_blocks() -> JsonValue {
    JsonValue::Array(vec![JsonValue::Object(vec![
        (
            "type".to_string(),
            JsonValue::Str("section".to_string()),
        ),
        (
            "text".to_string(),
            JsonValue::Object(vec![
                ("type".to_string(), JsonValue::Str("mrkdwn".to_string())),
                (
                    "text".to_string(),
                    JsonValue::Str("Do you want to continue?".to_string()),
                ),
            ]),
        ),
    ])])
}

#[test]
fn post_message_request_without_blocks() {
    let client = SlackClient::new("SECRET-REDACTED".to_string());
    let r = client.post_message_request("#general", "hello world", None);
    assert_eq!(r.url, "https://slack.com/api/chat.postMessage");
    assert_eq!(r.bearer_token, "SECRET-REDACTED");
    match r.body {
        JsonValue::Object(fields) => {
            assert_eq!(fields.len(), 2);
            assert_eq!(
                fields[0],
                (
                    "channel".to_string(),
                    JsonValue::Str("#general".to_string())
                )
            );
            assert_eq!(
                fields[1],
                ("text".to_string(), JsonValue::Str("hello world".to_string()))
            );
        }
        other => panic!("body is not an object: {:?}", other),
    }
}

#[test]
fn post_message_request_with_blocks() {
    let client = SlackClient::new("SECRET-REDACTED".to_string());
    let r = client.post_message_request("#general", "fallback", Some(sample_blocks()));
    match r.body {
        JsonValue::Object(fields) => {
            assert_eq!(fields.len(), 3);
            assert_eq!(fields[0].0, "channel");
            assert_eq!(fields[1].0, "text");
            // the opaque payload is passed through unmodified
            assert_eq!(fields[2], ("blocks".to_string(), sample_blocks()));
        }
        other => panic!("body is not an object: {:?}", other),
    }
}

#[test]
fn post_ephemeral_request_fields_verbatim() {
    let client = SlackClient::new("SECRET-REDACTED".to_string());
    let r = client.post_ephemeral_request("#general", "U123456", "only for you", None);
    assert_eq!(r.url, "https://slack.com/api/chat.postEphemeral");
    assert_eq!(r.bearer_token, "SECRET-REDACTED");
    match r.body {
        JsonValue::Object(fields) => {
            assert_eq!(fields.len(), 3);
            assert_eq!(
                fields[0],
                (
                    "channel".to_string(),
                    JsonValue::Str("#general".to_string())
                )
            );
            assert_eq!(
                fields[1],
                ("user".to_string(), JsonValue::Str("U123456".to_string()))
            );
            assert_eq!(
                fields[2],
                (
                    "text".to_string(),
                    JsonValue::Str("only for you".to_string())
                )
            );
        }
        other => panic!("body is not an object: {:?}", other),
    }
}

#[test]
fn post_ephemeral_request_passes_blocks_unmodified() {
    let client = SlackClient::new("SECRET-REDACTED".to_string());
    let r = client.post_ephemeral_request("#general", "U123456", "fallback", Some(sample_blocks()));
    match r.body {
        JsonValue::Object(fields) => {
            assert_eq!(fields.len(), 4);
            assert_eq!(fields[3], ("blocks".to_string(), sample_blocks()));
        }
        other => panic!("body is not an object: {:?}", other),
    }
}

fn sample_view() -> JsonValue {
    JsonValue::Object(vec![
        ("type".to_string(), JsonValue::Str("modal".to_string())),
        (
            "title".to_string(),
            JsonValue::Object(vec![
                (
                    "type".to_string(),
                    JsonValue::Str("plain_text".to_string()),
                ),
                (
                    "text".to_string(),
                    JsonValue::Str("Example Modal".to_string()),
                ),
            ]),
        ),
    ])
}

#[test]
fn open_modal_request_fields_verbatim() {
    let client = SlackClient::new("SECRET-REDACTED".to_string());
    let r = client.open_modal_request("12345.98765.abcd2358f", sample_view());
    assert_eq!(r.url, "https://slack.com/api/views.open");
    match r.body {
        JsonValue::Object(fields) => {
            assert_eq!(fields.len(), 2);
            assert_eq!(
                fields[0],
                (
                    "trigger_id".to_string(),
                    JsonValue::Str("12345.98765.abcd2358f".to_string())
                )
            );
            assert_eq!(fields[1], ("view".to_string(), sample_view()));
        }
        other => panic!("body is not an object: {:?}", other),
    }
}

#[test]
fn resending_builds_an_identical_request() {
    // Idempotence is not guaranteed: a repeat send is not deduplicated, the
    // client simply builds the same request again and hands it to the
    // transport as a new, independent exchange.
    let client = SlackClient::new("SECRET-REDACTED".to_string());
    let first = client.post_message_request("#general", "same message", None);
    let second = client.post_message_request("#general", "same message", None);
    assert_eq!(first, second);
}
