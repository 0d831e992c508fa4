use slack_api::requests::get_slack_url_for_method;

#[test]
fn method_url() {
    assert_eq!(get_slack_url_for_method("channels.history"), "https://slack.com/api/channels.history".to_string());
}

use slack_api::json::JsonValue;
use slack_api::requests::{check_envelope, EnvelopeError};

fn entry(k: &str, v: JsonValue) -> (String, JsonValue) {
    (k.to_string(), v)
}

#[test]
fn envelope_ok_is_success() {
    let doc = JsonValue::Object(vec![entry("ok", JsonValue::Bool(true))]);
    assert_eq!(check_envelope(&doc), Ok(()));
}

#[test]
fn envelope_with_error_reports_the_reason() {
    let doc = JsonValue::Object(vec![
        entry("ok", JsonValue::Bool(false)),
        entry("error", JsonValue::Str("name_taken".to_string())),
    ]);
    assert_eq!(check_envelope(&doc), Err(EnvelopeError::Slack("name_taken".to_string())));
}

#[test]
fn envelope_failure_without_reason_reports_empty_reason() {
    let doc = JsonValue::Object(vec![entry("ok", JsonValue::Bool(false))]);
    assert_eq!(check_envelope(&doc), Err(EnvelopeError::Slack(String::new())));
}

#[test]
fn envelope_without_ok_is_malformed() {
    assert_eq!(check_envelope(&JsonValue::Object(vec![])), Err(EnvelopeError::Malformed));
    assert_eq!(check_envelope(&JsonValue::Null), Err(EnvelopeError::Malformed));
}
