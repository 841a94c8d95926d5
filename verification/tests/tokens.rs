use omlx::ai::{AiMessage, AiRequest, AiRole, AiTool, ToolCall};
use omlx::tokens::{checked_estimate_tokens, estimate_tokens};
use serde_json::Value;

fn empty() -> AiRequest<f32> {
    AiRequest {
        system: None,
        messages: vec![],
        tools: None,
        temperature: None,
        response_format: None,
        context_tag: None,
    }
}

fn bytes(text: &str) -> usize {
    text.len()
}

fn tokyo() -> Value {
    let mut map = serde_json::Map::new();
    map.insert("city".to_string(), Value::String("Tokyo".to_string()));
    Value::Object(map)
}

fn message(content: Option<&str>, calls: Option<Vec<ToolCall>>) -> AiMessage {
    AiMessage {
        role: AiRole::Assistant,
        content: content.map(|c| c.to_string()),
        thought: Some("not counted".to_string()),
        tool_calls: calls,
        tool_call_id: Some("not counted".to_string()),
    }
}

#[test]
fn an_empty_request_takes_nothing() {
    assert_eq!(estimate_tokens(&empty(), &bytes), 0);
}

#[test]
fn every_text_counts_once() {
    let mut request = empty();
    request.system = Some("12345".to_string());
    assert_eq!(estimate_tokens(&request, &bytes), 5);
    request.messages.push(message(Some("123"), None));
    assert_eq!(estimate_tokens(&request, &bytes), 8);
    request.messages.push(message(
        None,
        Some(vec![ToolCall {
            id: "not counted".to_string(),
            function_name: "weather".to_string(),
            arguments: tokyo(),
            thought_signature: Some("not counted".to_string()),
        }]),
    ));
    // "weather" and {"city":"Tokyo"}
    assert_eq!(estimate_tokens(&request, &bytes), 8 + 7 + 16);
    request.tools = Some(vec![AiTool {
        name: "ab".to_string(),
        description: "abcd".to_string(),
        parameters: Value::Array(vec![]),
    }]);
    // "ab", "abcd" and []
    assert_eq!(estimate_tokens(&request, &bytes), 8 + 7 + 16 + 2 + 4 + 2);
    request.temperature = Some(0.5);
    request.context_tag = Some("not counted".to_string());
    assert_eq!(estimate_tokens(&request, &bytes), 8 + 7 + 16 + 2 + 4 + 2);
}

#[test]
fn the_counter_sees_the_texts_as_they_are() {
    let seen = std::cell::RefCell::new(Vec::new());
    let mut request = empty();
    request.system = Some("s".to_string());
    request.messages.push(message(
        Some("c"),
        Some(vec![ToolCall {
            id: "i".to_string(),
            function_name: "f".to_string(),
            arguments: tokyo(),
            thought_signature: None,
        }]),
    ));
    request.tools = Some(vec![AiTool {
        name: "n".to_string(),
        description: "d".to_string(),
        parameters: Value::Null,
    }]);
    let counter = |text: &str| {
        seen.borrow_mut().push(text.to_string());
        1
    };
    assert_eq!(estimate_tokens(&request, &counter), 7);
    assert_eq!(
        seen.into_inner(),
        vec!["s", "c", "f", r#"{"city":"Tokyo"}"#, "n", "d", "null"]
    );
}

#[test]
fn one_more_message_adds_its_own_count() {
    let mut request = empty();
    request.system = Some("abc".to_string());
    let before = estimate_tokens(&request, &bytes);
    let mut alone = empty();
    alone.messages.push(message(Some("hello"), None));
    let own = estimate_tokens(&alone, &bytes);
    request.messages.push(message(Some("hello"), None));
    assert_eq!(estimate_tokens(&request, &bytes), before + own);
}

#[test]
fn a_sum_that_does_not_fit_is_none() {
    let huge = |_: &str| usize::MAX;
    let mut request = empty();
    assert_eq!(checked_estimate_tokens(&request, &huge), Some(0));
    request.system = Some("a".to_string());
    assert_eq!(checked_estimate_tokens(&request, &huge), Some(usize::MAX));
    request.messages.push(message(Some("b"), None));
    assert_eq!(checked_estimate_tokens(&request, &huge), None);
}
