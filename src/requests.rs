//! Where the web API's methods live, and the envelope every response comes in.

use crate::json::{field_value, get_field, JsonValue};
use vstd::prelude::*;
use vstd::string::StringExecFns;

verus! {

/// The URL of web API method `method`.
pub fn get_slack_url_for_method(method: &str) -> (r: String)
    ensures
        r@ == "https://slack.com/api/"@ + method@,
{
    let mut url = "https://slack.com/api/".to_owned();
    url.append(method);
    url
}

/// Why a response is not a success.
#[derive(Clone, Debug, PartialEq, Eq)]
pub enum EnvelopeError {
    /// The response is not an object with a boolean `ok` and, if any, a string `error`.
    Malformed,
    /// The service reported a failure, with its reason (empty where none was given).
    Slack(String),
}

/// What the envelope of a response says: success, the service's reason for failure, or
/// nothing readable.
pub open spec fn envelope_outcome(doc: JsonValue) -> Option<Option<Seq<char>>> {
    match doc {
        JsonValue::Object(fields) => match field_value(fields@, "ok"@) {
            Some(JsonValue::Bool(true)) => Some(None),
            Some(JsonValue::Bool(false)) => match field_value(fields@, "error"@) {
                None => Some(Some(Seq::empty())),
                Some(JsonValue::Null) => Some(Some(Seq::empty())),
                Some(JsonValue::Str(s)) => Some(Some(s@)),
                _ => None,
            },
            _ => None,
        },
        _ => None,
    }
}

/// Reads the envelope of a response: `ok` must be true for the body to be decoded.
pub fn check_envelope(doc: &JsonValue) -> (r: Result<(), EnvelopeError>)
    ensures
        match envelope_outcome(*doc) {
            None => r == Err::<(), EnvelopeError>(EnvelopeError::Malformed),
            Some(None) => r is Ok,
            Some(Some(reason)) => r is Err && r->Err_0 is Slack && r->Err_0->Slack_0@ == reason,
        },
{
    let fields = match doc {
        JsonValue::Object(fields) => fields,
        _ => return Err(EnvelopeError::Malformed),
    };
    match get_field(fields, "ok") {
        Some(JsonValue::Bool(true)) => Ok(()),
        Some(JsonValue::Bool(false)) => match get_field(fields, "error") {
            None => Err(EnvelopeError::Slack(String::new())),
            Some(JsonValue::Null) => Err(EnvelopeError::Slack(String::new())),
            Some(JsonValue::Str(s)) => Err(EnvelopeError::Slack(s.clone())),
            _ => Err(EnvelopeError::Malformed),
        },
        _ => Err(EnvelopeError::Malformed),
    }
}

} // verus!
