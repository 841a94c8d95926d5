use omlx::ai::{AiMessage, AiRole, ToolCall};
use omlx::error::OmlxError;
use omlx::request::translate_message;
use omlx::response::translate_response;
use omlx::wire::{
    OmlxChoice, OmlxMessage, OmlxResponse, OmlxToolCall, OmlxToolCallFunction, OmlxUsage,
};
use serde_json::Value;

fn tokyo() -> Value {
    let mut map = serde_json::Map::new();
    map.insert("city".to_string(), Value::String("Tokyo".to_string()));
    Value::Object(map)
}

fn choice(message: OmlxMessage) -> OmlxChoice {
    OmlxChoice { message, finish_reason: None }
}

#[test]
fn test_translate_response_basic() {
    let raw = OmlxResponse {
        choices: vec![OmlxChoice {
            message: OmlxMessage {
                role: "assistant".to_string(),
                content: Some("Hello there!".to_string()),
                tool_calls: None,
                tool_call_id: None,
            },
            finish_reason: Some("stop".to_string()),
        }],
        usage: Some(OmlxUsage {
            prompt_tokens: 10,
            completion_tokens: 5,
            total_tokens: 15,
        }),
    };

    let resp = translate_response(raw).unwrap();
    assert_eq!(resp.content, Some("Hello there!".to_string()));
    assert!(resp.tool_calls.is_none());
    let usage = resp.usage.unwrap();
    assert_eq!(usage.prompt_tokens, 10);
    assert_eq!(usage.completion_tokens, 5);
}

#[test]
fn test_translate_response_no_usage() {
    let raw = OmlxResponse {
        choices: vec![OmlxChoice {
            message: OmlxMessage {
                role: "assistant".to_string(),
                content: Some("Hi".to_string()),
                tool_calls: None,
                tool_call_id: None,
            },
            finish_reason: Some("stop".to_string()),
        }],
        usage: None,
    };

    let resp = translate_response(raw).unwrap();
    assert_eq!(resp.content, Some("Hi".to_string()));
    assert!(resp.usage.is_none());
}

#[test]
fn test_translate_response_with_tool_calls() {
    let raw = OmlxResponse {
        choices: vec![OmlxChoice {
            message: OmlxMessage {
                role: "assistant".to_string(),
                content: None,
                tool_calls: Some(vec![OmlxToolCall {
                    id: "call_1".to_string(),
                    tool_type: "function".to_string(),
                    function: OmlxToolCallFunction {
                        name: "get_weather".to_string(),
                        arguments: r#"{"city":"Tokyo"}"#.to_string(),
                    },
                }]),
                tool_call_id: None,
            },
            finish_reason: Some("tool_calls".to_string()),
        }],
        usage: Some(OmlxUsage {
            prompt_tokens: 20,
            completion_tokens: 10,
            total_tokens: 30,
        }),
    };

    let resp = translate_response(raw).unwrap();
    assert!(resp.content.is_none());
    let calls = resp.tool_calls.unwrap();
    assert_eq!(calls.len(), 1);
    assert_eq!(calls[0].function_name, "get_weather");
    assert_eq!(calls[0].arguments, tokyo());
}

#[test]
fn a_response_without_choices_is_an_error() {
    let raw = OmlxResponse { choices: vec![], usage: None };
    let error = translate_response(raw).unwrap_err();
    assert!(matches!(error, OmlxError::NoChoices));
    assert_eq!(error.message(), "oMLX returned no choices");
}

#[test]
fn the_first_choice_is_the_answer_and_the_usage_is_taken_over() {
    let text = |s: &str| {
        choice(OmlxMessage {
            role: "assistant".to_string(),
            content: Some(s.to_string()),
            tool_calls: None,
            tool_call_id: None,
        })
    };
    let raw = OmlxResponse {
        choices: vec![text("one"), text("two"), text("three")],
        usage: Some(OmlxUsage {
            prompt_tokens: u32::MAX,
            completion_tokens: 0,
            total_tokens: 7,
        }),
    };
    let answer = translate_response(raw).unwrap();
    assert_eq!(answer.content.as_deref(), Some("one"));
    assert!(answer.thought.is_none());
    let usage = answer.usage.unwrap();
    assert_eq!(usage.prompt_tokens, 4_294_967_295);
    assert_eq!(usage.completion_tokens, 0);
    assert_eq!(usage.total_tokens, 7);
    assert_eq!(usage.cached_tokens, None);
}

#[test]
fn arguments_that_are_no_json_are_null() {
    for arguments in ["", "{", "city: Tokyo", "null"] {
        let raw = OmlxResponse {
            choices: vec![choice(OmlxMessage {
                role: "assistant".to_string(),
                content: None,
                tool_calls: Some(vec![OmlxToolCall {
                    id: "call_9".to_string(),
                    tool_type: "function".to_string(),
                    function: OmlxToolCallFunction {
                        name: "f".to_string(),
                        arguments: arguments.to_string(),
                    },
                }]),
                tool_call_id: None,
            })],
            usage: None,
        };
        let calls = translate_response(raw).unwrap().tool_calls.unwrap();
        assert_eq!(calls[0].id, "call_9");
        assert_eq!(calls[0].function_name, "f");
        assert_eq!(calls[0].arguments, Value::Null);
        assert!(calls[0].thought_signature.is_none());
    }
}

#[test]
fn what_an_assistant_said_comes_back() {
    let message = AiMessage {
        role: AiRole::Assistant,
        content: Some("Let me look.".to_string()),
        thought: None,
        tool_calls: Some(vec![
            ToolCall {
                id: "a".to_string(),
                function_name: "get_weather".to_string(),
                arguments: tokyo(),
                thought_signature: None,
            },
            ToolCall {
                id: "b".to_string(),
                function_name: "now".to_string(),
                arguments: Value::Array(vec![Value::Bool(false), Value::Null]),
                thought_signature: None,
            },
        ]),
        tool_call_id: None,
    };
    let sent = translate_message(message);
    let answer =
        translate_response(OmlxResponse { choices: vec![choice(sent)], usage: None }).unwrap();
    assert_eq!(answer.content.as_deref(), Some("Let me look."));
    let calls = answer.tool_calls.unwrap();
    assert_eq!(calls.len(), 2);
    assert_eq!(calls[0].id, "a");
    assert_eq!(calls[0].arguments, tokyo());
    assert_eq!(calls[1].function_name, "now");
    assert_eq!(calls[1].arguments, Value::Array(vec![Value::Bool(false), Value::Null]));
}

fn nested(levels: usize) -> Value {
    let mut value = Value::from(-7i64);
    for _ in 0..levels {
        value = Value::Array(vec![value]);
    }
    value
}

fn arguments_that_come_back(arguments: Value) -> Value {
    let message = AiMessage {
        role: AiRole::Assistant,
        content: None,
        thought: None,
        tool_calls: Some(vec![ToolCall {
            id: "a".to_string(),
            function_name: "f".to_string(),
            arguments,
            thought_signature: Some("dropped".to_string()),
        }]),
        tool_call_id: None,
    };
    let choices = vec![choice(translate_message(message))];
    let mut calls =
        translate_response(OmlxResponse { choices, usage: None }).unwrap().tool_calls.unwrap();
    let call = calls.remove(0);
    assert_eq!(call.id, "a");
    assert_eq!(call.function_name, "f");
    assert!(call.thought_signature.is_none());
    call.arguments
}

#[test]
fn plain_arguments_come_back_as_they_were() {
    let mut object = serde_json::Map::new();
    object.insert("".to_string(), Value::String("1.5e3 \"\\ \u{1}\n é 😀".to_string()));
    object.insert("max".to_string(), Value::from(u64::MAX));
    object.insert("min".to_string(), Value::from(i64::MIN));
    object.insert("zero".to_string(), Value::from(0i64));
    object.insert("yes".to_string(), Value::Bool(true));
    object.insert("none".to_string(), Value::Null);
    object.insert("list".to_string(), Value::Array(vec![]));
    for arguments in [Value::Object(object), Value::Null, nested(1), nested(127)] {
        assert_eq!(arguments_that_come_back(arguments.clone()), arguments);
    }
}

#[test]
fn arguments_that_are_nested_too_deeply_come_back_as_null() {
    assert_eq!(arguments_that_come_back(nested(128)), Value::Null);
}
