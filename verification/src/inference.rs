//! Classification of the inference backend's HTTP answer into exactly one
//! outcome: the generated script, a client error with its message, a server
//! error with its status code, or a malformed response.

use vstd::prelude::*;

use crate::strutil::{trim, trim_spec};

verus! {

/// The one outcome of a chat request.
#[derive(Debug, PartialEq, Eq)]
pub enum InferenceOutcome {
    /// The backend answered with a script, surrounding whitespace trimmed.
    Success(String),
    /// The backend rejected the request; the message of its "error" field,
    /// or a generic phrase when the body carries none.
    ClientError(String),
    /// The backend failed; its status code.
    ServerError(u16),
    /// The backend answered without a textual message content.
    MalformedResponse,
}

/// The mathematical shape of an outcome: each message as its character
/// sequence.
pub enum OutcomeView {
    Success(Seq<char>),
    ClientError(Seq<char>),
    ServerError(u16),
    MalformedResponse,
}

impl View for InferenceOutcome {
    type V = OutcomeView;

    open spec fn view(&self) -> OutcomeView {
        match self {
            InferenceOutcome::Success(s) => OutcomeView::Success(s@),
            InferenceOutcome::ClientError(m) => OutcomeView::ClientError(m@),
            InferenceOutcome::ServerError(c) => OutcomeView::ServerError(*c),
            InferenceOutcome::MalformedResponse => OutcomeView::MalformedResponse,
        }
    }
}

/// The value of the top-level "error" field when `body` is a JSON document
/// whose "error" field is a string; nothing otherwise. A function of the
/// body text alone.
pub uninterp spec fn error_field_of(body: Seq<char>) -> Option<Seq<char>>;

/// The string at "message"."content" when `body` is a JSON document holding
/// one; nothing otherwise. A function of the body text alone.
pub uninterp spec fn message_content_of(body: Seq<char>) -> Option<Seq<char>>;

/// Relies on serde_json::from_str and serde_json::Value::{get, as_str}: the
/// result is the body's top-level "error" field when the body parses as JSON
/// and that field is a string, and nothing otherwise; it depends on the body
/// text alone.
#[verifier::external_body]
fn extract_error_field(body: &str) -> (r: Option<String>)
    ensures
        r is Some <==> error_field_of(body@) is Some,
        r matches Some(m) ==> m@ == error_field_of(body@)->0,
{
    match serde_json::from_str::<serde_json::Value>(body) {
        Ok(v) => match v.get("error") {
            Some(e) => e.as_str().map(|s| s.to_string()),
            None => None,
        },
        Err(_) => None,
    }
}

/// Relies on serde_json::from_str and serde_json::Value::{get, as_str}: the
/// result is the string under "message"."content" when the body parses as
/// JSON and holds one, and nothing otherwise; it depends on the body text
/// alone.
#[verifier::external_body]
fn extract_message_content(body: &str) -> (r: Option<String>)
    ensures
        r is Some <==> message_content_of(body@) is Some,
        r matches Some(c) ==> c@ == message_content_of(body@)->0,
{
    match serde_json::from_str::<serde_json::Value>(body) {
        Ok(v) => match v.get("message") {
            Some(m) => match m.get("content") {
                Some(c) => c.as_str().map(|s| s.to_string()),
                None => None,
            },
            None => None,
        },
        Err(_) => None,
    }
}

/// Whether a status code is of the client error class.
pub open spec fn is_client_error_status(status: u16) -> bool {
    400 <= status <= 499
}

/// Whether a status code is of the server error class.
pub open spec fn is_server_error_status(status: u16) -> bool {
    500 <= status <= 599
}

/// The message a client error reports: the body's error field, or a generic
/// phrase when the body carries none.
pub open spec fn client_error_text(error_field: Option<Seq<char>>) -> Seq<char> {
    match error_field {
        Some(m) => m,
        None => "Unknown client error"@,
    }
}

/// The view of an optional owned string.
pub open spec fn opt_string_view(s: Option<String>) -> Option<Seq<char>> {
    match s {
        Some(v) => Some(v@),
        None => None,
    }
}

/// The outcome a status code and the two extracted body fields classify to,
/// in priority order: client error class first, then server error class,
/// then the message content, trimmed, or a malformed response without one.
pub open spec fn classify_spec(
    status: u16,
    error_field: Option<Seq<char>>,
    content: Option<Seq<char>>,
) -> OutcomeView {
    if is_client_error_status(status) {
        OutcomeView::ClientError(client_error_text(error_field))
    } else if is_server_error_status(status) {
        OutcomeView::ServerError(status)
    } else {
        match content {
            Some(c) => OutcomeView::Success(trim_spec(c)),
            None => OutcomeView::MalformedResponse,
        }
    }
}

/// Classify a response from its status code and the two body fields, already
/// extracted as plain values.
pub fn classify_response(status: u16, error_field: Option<String>, content: Option<String>) -> (r:
    InferenceOutcome)
    ensures
        r@ == classify_spec(status, opt_string_view(error_field), opt_string_view(content)),
{
    if 400 <= status && status <= 499 {
        match error_field {
            Some(m) => InferenceOutcome::ClientError(m),
            None => InferenceOutcome::ClientError(String::from_str("Unknown client error")),
        }
    } else if 500 <= status && status <= 599 {
        InferenceOutcome::ServerError(status)
    } else {
        match content {
            Some(c) => InferenceOutcome::Success(trim(c.as_str())),
            None => InferenceOutcome::MalformedResponse,
        }
    }
}

/// Classify a whole HTTP response: the status code and the raw body text.
/// The outcome is exactly what `classify_spec` says of the status and of the
/// two fields the body carries.
pub fn classify_http_response(status: u16, body: &str) -> (r: InferenceOutcome)
    ensures
        r@ == classify_spec(status, error_field_of(body@), message_content_of(body@)),
{
    if 400 <= status && status <= 499 {
        let error_field = extract_error_field(body);
        classify_response(status, error_field, None)
    } else if 500 <= status && status <= 599 {
        InferenceOutcome::ServerError(status)
    } else {
        let content = extract_message_content(body);
        classify_response(status, None, content)
    }
}

/// The process exit code an outcome maps to: success continues the pipeline,
/// every other outcome is fatal.
pub fn exit_code_of(outcome: &InferenceOutcome) -> (c: i32)
    ensures
        outcome@ is Success ==> c == 0,
        !(outcome@ is Success) ==> c == 1,
{
    match outcome {
        InferenceOutcome::Success(_) => 0,
        _ => 1,
    }
}

} // verus!
