use omlx::error::OmlxError;
use omlx::exchange::{ExchangeEvent, ExchangeState, ExchangeStep};
use omlx::wire::{OmlxChoice, OmlxMessage, OmlxResponse};

const URL: &str = "http://host/v1";

fn sending() -> ExchangeState {
    ExchangeState::Sending { url: URL.to_string() }
}

fn send_failed(connect: bool, timeout: bool) -> ExchangeEvent {
    ExchangeEvent::SendFailed { connect, timeout, reason: "broken pipe".to_string() }
}

fn error_of(step: ExchangeStep) -> OmlxError {
    match step {
        ExchangeStep::Finished { outcome } => outcome.unwrap_err(),
        other => panic!("not finished: {other:?}"),
    }
}

fn reading(success: bool, status: &str) -> ExchangeState {
    let event = ExchangeEvent::Answered { success, status: status.to_string() };
    match sending().step(event) {
        ExchangeStep::ReadBody { state } => state,
        other => panic!("not reading: {other:?}"),
    }
}

fn parsing(text: &str) -> ExchangeState {
    let event = ExchangeEvent::BodyRead { body: text.to_string() };
    match reading(true, "200 OK").step(event) {
        ExchangeStep::ParseBody { body, state } => {
            assert_eq!(body, text);
            state
        }
        other => panic!("not parsing: {other:?}"),
    }
}

#[test]
fn a_request_that_finds_no_server_says_so() {
    let message = "Could not connect to oMLX at http://host/v1. Is the server running?";
    assert_eq!(error_of(sending().step(send_failed(true, false))).message(), message);
    assert_eq!(error_of(sending().step(send_failed(true, true))).message(), message);
}

#[test]
fn a_request_that_takes_too_long_says_so() {
    assert_eq!(
        error_of(sending().step(send_failed(false, true))).message(),
        "oMLX request timed out (http://host/v1). The model may need more time — \
         consider increasing api_timeout_secs."
    );
}

#[test]
fn a_request_that_fails_otherwise_says_why() {
    assert_eq!(
        error_of(sending().step(send_failed(false, false))).message(),
        "oMLX request failed: broken pipe"
    );
}

#[test]
fn a_refusal_is_reported_with_its_body() {
    let event = ExchangeEvent::BodyRead { body: "no such model".to_string() };
    assert_eq!(
        error_of(reading(false, "404 Not Found").step(event)).message(),
        "oMLX returned HTTP 404 Not Found: no such model"
    );
}

#[test]
fn a_refusal_whose_body_cannot_be_read_is_reported_without() {
    let event = ExchangeEvent::BodyFailed { reason: "reset".to_string() };
    assert_eq!(
        error_of(reading(false, "500 Internal Server Error").step(event)).message(),
        "oMLX returned HTTP 500 Internal Server Error: "
    );
}

#[test]
fn an_answer_whose_body_cannot_be_read_is_an_error() {
    let event = ExchangeEvent::BodyFailed { reason: "reset".to_string() };
    assert_eq!(
        error_of(reading(true, "200 OK").step(event)).message(),
        "Failed to read oMLX response body: reset"
    );
}

#[test]
fn an_answer_that_cannot_be_parsed_is_an_error_with_its_body() {
    let event = ExchangeEvent::ParseFailed { reason: "expected value".to_string() };
    assert_eq!(
        error_of(parsing("<html>").step(event)).message(),
        "Failed to parse oMLX response: expected value\nBody: <html>"
    );
}

#[test]
fn a_parsed_response_is_translated() {
    let response = OmlxResponse {
        choices: vec![OmlxChoice {
            message: OmlxMessage {
                role: "assistant".to_string(),
                content: Some("Hi".to_string()),
                tool_calls: None,
                tool_call_id: None,
            },
            finish_reason: None,
        }],
        usage: None,
    };
    match parsing("{}").step(ExchangeEvent::Parsed { response }) {
        ExchangeStep::Finished { outcome } => {
            assert_eq!(outcome.unwrap().content.as_deref(), Some("Hi"));
        }
        other => panic!("not finished: {other:?}"),
    }
    let response = OmlxResponse { choices: vec![], usage: None };
    let error = error_of(parsing("{}").step(ExchangeEvent::Parsed { response }));
    assert!(matches!(error, OmlxError::NoChoices));
}
