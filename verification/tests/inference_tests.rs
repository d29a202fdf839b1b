use shellm::inference::{classify_http_response, classify_response, exit_code_of};
use shellm::InferenceOutcome;

#[test]
fn success_response_content_is_trimmed() {
    let body = "{\"message\":{\"content\":\"  echo hi  \\n\"}}";
    let r = classify_http_response(200, body);
    assert_eq!(r, InferenceOutcome::Success(String::from("echo hi")));
}

#[test]
fn success_response_parses_through_real_json() {
    let body = "{\"message\":{\"role\":\"assistant\",\"content\":\"#!/usr/bin/env zsh\\nls -la\"},\"done\":true}";
    let r = classify_http_response(200, body);
    assert_eq!(r, InferenceOutcome::Success(String::from("#!/usr/bin/env zsh\nls -la")));
}

#[test]
fn client_error_reports_the_error_field() {
    let r = classify_http_response(400, "{\"error\":\"bad model\"}");
    assert_eq!(r, InferenceOutcome::ClientError(String::from("bad model")));
}

#[test]
fn client_error_without_field_reports_generic_message() {
    let r = classify_http_response(400, "{\"message\":\"x\"}");
    assert_eq!(
        r,
        InferenceOutcome::ClientError(String::from("Unknown client error"))
    );
}

#[test]
fn client_error_with_unparsable_body_reports_generic_message() {
    let r = classify_http_response(404, "not json at all");
    assert_eq!(
        r,
        InferenceOutcome::ClientError(String::from("Unknown client error"))
    );
    let r2 = classify_http_response(499, "{\"error\":42}");
    assert_eq!(
        r2,
        InferenceOutcome::ClientError(String::from("Unknown client error"))
    );
}

#[test]
fn server_error_keeps_the_status_code_whatever_the_body() {
    assert_eq!(
        classify_http_response(500, "{\"error\":\"ignored\"}"),
        InferenceOutcome::ServerError(500)
    );
    assert_eq!(
        classify_http_response(500, ""),
        InferenceOutcome::ServerError(500)
    );
    assert_eq!(
        classify_http_response(503, "busy"),
        InferenceOutcome::ServerError(503)
    );
}

#[test]
fn missing_or_nontextual_content_is_malformed() {
    assert_eq!(
        classify_http_response(200, "{}"),
        InferenceOutcome::MalformedResponse
    );
    assert_eq!(
        classify_http_response(200, "{\"message\":{\"content\":5}}"),
        InferenceOutcome::MalformedResponse
    );
    assert_eq!(
        classify_http_response(200, "garbage"),
        InferenceOutcome::MalformedResponse
    );
}

#[test]
fn classification_on_extracted_fields_matches() {
    let r = classify_response(200, None, Some(String::from("  echo hi  \n")));
    assert_eq!(r, InferenceOutcome::Success(String::from("echo hi")));
    let r2 = classify_response(418, Some(String::from("teapot")), None);
    assert_eq!(r2, InferenceOutcome::ClientError(String::from("teapot")));
    let r3 = classify_response(302, None, None);
    assert_eq!(r3, InferenceOutcome::MalformedResponse);
}

#[test]
fn only_success_continues_the_pipeline() {
    assert_eq!(exit_code_of(&InferenceOutcome::Success(String::from("ls"))), 0);
    assert_eq!(exit_code_of(&InferenceOutcome::ClientError(String::from("x"))), 1);
    assert_eq!(exit_code_of(&InferenceOutcome::ServerError(500)), 1);
    assert_eq!(exit_code_of(&InferenceOutcome::MalformedResponse), 1);
}
