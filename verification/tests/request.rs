use omlx::ai::{AiMessage, AiRequest, AiResponseFormat, AiRole, AiTool, ToolCall};
use omlx::request::{schema_hint, translate_request, wire_tool_call};
use omlx::wire::OmlxMessage;
use serde_json::Value;

fn object(fields: Vec<(&str, Value)>) -> Value {
    let mut map = serde_json::Map::new();
    for (key, value) in fields {
        map.insert(key.to_string(), value);
    }
    Value::Object(map)
}

fn string(text: &str) -> Value {
    Value::String(text.to_string())
}

fn said(role: AiRole, content: Option<&str>) -> AiMessage {
    AiMessage {
        role,
        content: content.map(|c| c.to_string()),
        thought: None,
        tool_calls: None,
        tool_call_id: None,
    }
}

fn asking(
    system: Option<&str>,
    messages: Vec<AiMessage>,
    response_format: Option<AiResponseFormat>,
) -> AiRequest<f32> {
    AiRequest {
        system: system.map(|s| s.to_string()),
        messages,
        tools: None,
        temperature: None,
        response_format,
        context_tag: None,
    }
}

fn contents(messages: &[OmlxMessage]) -> Vec<Option<&str>> {
    messages.iter().map(|m| m.content.as_deref()).collect()
}

fn roles(messages: &[OmlxMessage]) -> Vec<&str> {
    messages.iter().map(|m| m.role.as_str()).collect()
}

#[test]
fn test_translate_request_basic() {
    let req = AiRequest {
        system: Some("You are helpful.".to_string()),
        messages: vec![AiMessage {
            role: AiRole::User,
            content: Some("Hello!".to_string()),
            thought: None,
            tool_calls: None,
            tool_call_id: None,
        }],
        tools: None,
        temperature: Some(0.7),
        response_format: None,
        context_tag: None,
    };

    let omlx_req = translate_request(req, "gemma-4-27b-it", 8192);
    assert_eq!(omlx_req.model, "gemma-4-27b-it");
    assert_eq!(omlx_req.messages.len(), 2);
    assert_eq!(omlx_req.messages[0].role, "system");
    assert_eq!(omlx_req.messages[1].role, "user");
    assert_eq!(omlx_req.temperature, Some(0.7));
    assert_eq!(omlx_req.max_tokens, Some(8192));
}

#[test]
fn test_translate_request_with_tools() {
    let req: AiRequest<f32> = AiRequest {
        system: None,
        messages: vec![AiMessage {
            role: AiRole::User,
            content: Some("Use a tool.".to_string()),
            thought: None,
            tool_calls: None,
            tool_call_id: None,
        }],
        tools: Some(vec![AiTool {
            name: "get_weather".to_string(),
            description: "Get the weather".to_string(),
            parameters: object(vec![
                ("type", string("object")),
                (
                    "properties",
                    object(vec![("city", object(vec![("type", string("string"))]))]),
                ),
            ]),
        }]),
        temperature: None,
        response_format: None,
        context_tag: None,
    };

    let omlx_req = translate_request(req, "gemma-4-27b-it", 4096);
    assert!(omlx_req.tools.is_some());
    let tools = omlx_req.tools.unwrap();
    assert_eq!(tools.len(), 1);
    assert_eq!(tools[0].function.name, "get_weather");
}

#[test]
fn test_translate_request_json_schema_injected() {
    let schema = object(vec![
        ("type", string("object")),
        (
            "properties",
            object(vec![(
                "selected_prompts",
                object(vec![
                    ("type", string("array")),
                    ("items", object(vec![("type", string("string"))])),
                ]),
            )]),
        ),
        ("required", Value::Array(vec![string("selected_prompts")])),
    ]);

    let req = AiRequest {
        system: Some("You are a selector.".to_string()),
        messages: vec![AiMessage {
            role: AiRole::User,
            content: Some("Pick items.".to_string()),
            thought: None,
            tool_calls: None,
            tool_call_id: None,
        }],
        tools: None,
        temperature: Some(0.0),
        response_format: Some(AiResponseFormat::Json {
            schema: Some(schema),
        }),
        context_tag: None,
    };

    let omlx_req = translate_request(req, "gemma-4-27b-it", 8192);
    // System message should have the schema appended
    let system_content = omlx_req.messages[0].content.as_ref().unwrap();
    assert!(
        system_content.contains("selected_prompts"),
        "Schema should be injected into system prompt"
    );
    assert!(
        system_content.contains("You MUST respond with valid JSON"),
        "JSON instruction should be injected"
    );
    // response_format should still be set
    assert!(omlx_req.response_format.is_some());
}

#[test]
fn test_translate_request_json_no_schema_injects_fallback() {
    let req: AiRequest<f32> = AiRequest {
        system: Some("You are helpful.".to_string()),
        messages: vec![AiMessage {
            role: AiRole::User,
            content: Some("Give me data.".to_string()),
            thought: None,
            tool_calls: None,
            tool_call_id: None,
        }],
        tools: None,
        temperature: None,
        response_format: Some(AiResponseFormat::Json { schema: None }),
        context_tag: None,
    };

    let omlx_req = translate_request(req, "qwen3.5-27b", 4096);
    let system_content = omlx_req.messages[0].content.as_ref().unwrap();
    assert!(
        system_content.contains("JSON"),
        "Should inject JSON instruction when no schema provided"
    );
}

#[test]
fn every_role_keeps_only_its_own_fields() {
    let call = || {
        Some(vec![ToolCall {
            id: "call_1".to_string(),
            function_name: "get_weather".to_string(),
            arguments: object(vec![("city", string("Tokyo"))]),
            thought_signature: Some("sig".to_string()),
        }])
    };
    let full = |role: AiRole| AiMessage {
        role,
        content: Some("text".to_string()),
        thought: Some("hm".to_string()),
        tool_calls: call(),
        tool_call_id: Some("call_0".to_string()),
    };
    let messages = vec![
        full(AiRole::System),
        full(AiRole::User),
        full(AiRole::Assistant),
        full(AiRole::Tool),
    ];
    let sent = translate_request(asking(None, messages, None), "m", 1).messages;
    assert_eq!(roles(&sent), vec!["system", "user", "assistant", "tool"]);
    assert_eq!(contents(&sent), vec![Some("text"); 4]);
    assert!(sent[0].tool_calls.is_none() && sent[0].tool_call_id.is_none());
    assert!(sent[1].tool_calls.is_none() && sent[1].tool_call_id.is_none());
    assert!(sent[2].tool_call_id.is_none());
    assert!(sent[3].tool_calls.is_none());
    assert_eq!(sent[3].tool_call_id.as_deref(), Some("call_0"));
    let calls = sent[2].tool_calls.as_ref().unwrap();
    assert_eq!(calls.len(), 1);
    assert_eq!(calls[0].id, "call_1");
    assert_eq!(calls[0].tool_type, "function");
    assert_eq!(calls[0].function.name, "get_weather");
    assert_eq!(calls[0].function.arguments, r#"{"city":"Tokyo"}"#);
}

#[test]
fn an_assistant_with_an_empty_list_of_calls_keeps_it() {
    let mut message = said(AiRole::Assistant, None);
    message.tool_calls = Some(Vec::new());
    let sent = translate_request(asking(None, vec![message], None), "m", 1).messages;
    assert_eq!(sent[0].tool_calls.as_ref().map(|c| c.len()), Some(0));
    assert!(sent[0].content.is_none());
}

#[test]
fn no_tools_and_an_empty_list_of_tools_are_the_same() {
    let mut request = asking(None, vec![], None);
    request.tools = Some(Vec::new());
    assert!(translate_request(request, "m", 1).tools.is_none());
    assert!(translate_request(asking(None, vec![], None), "m", 1).tools.is_none());
}

#[test]
fn tools_are_sent_whole_and_in_order() {
    let mut request = asking(None, vec![], None);
    request.tools = Some(vec![
        AiTool {
            name: "a".to_string(),
            description: "first".to_string(),
            parameters: Value::Null,
        },
        AiTool {
            name: "b".to_string(),
            description: "second".to_string(),
            parameters: object(vec![("x", Value::Bool(true))]),
        },
    ]);
    let tools = translate_request(request, "m", 1).tools.unwrap();
    assert_eq!(tools.len(), 2);
    assert_eq!(tools[0].tool_type, "function");
    assert_eq!(tools[0].function.name, "a");
    assert_eq!(tools[0].function.parameters, Value::Null);
    assert_eq!(tools[1].function.description, "second");
    assert_eq!(tools[1].function.parameters, object(vec![("x", Value::Bool(true))]));
}

#[test]
fn response_formats_have_their_types() {
    let none = translate_request(asking(None, vec![], None), "m", 1);
    assert!(none.response_format.is_none());
    let text = translate_request(asking(None, vec![], Some(AiResponseFormat::Text)), "m", 1);
    assert_eq!(text.response_format.unwrap().format_type, "text");
    assert!(text.messages.is_empty());
    let json = translate_request(
        asking(None, vec![], Some(AiResponseFormat::Json { schema: None })),
        "m",
        1,
    );
    assert_eq!(json.response_format.unwrap().format_type, "json_object");
}

#[test]
fn the_instruction_goes_to_the_end_of_the_system_text() {
    let sent = translate_request(
        asking(
            Some("Be brief."),
            vec![said(AiRole::User, Some("Hi"))],
            Some(AiResponseFormat::Json { schema: None }),
        ),
        "m",
        1,
    )
    .messages;
    assert_eq!(
        contents(&sent),
        vec![Some("Be brief.\nRespond in JSON format."), Some("Hi")]
    );
}

#[test]
fn the_instruction_goes_to_the_first_system_message_wherever_it_stands() {
    let sent = translate_request(
        asking(
            None,
            vec![
                said(AiRole::User, Some("Hi")),
                said(AiRole::System, None),
                said(AiRole::System, Some("Second.")),
            ],
            Some(AiResponseFormat::Json { schema: None }),
        ),
        "m",
        1,
    )
    .messages;
    assert_eq!(
        contents(&sent),
        vec![Some("Hi"), Some("\nRespond in JSON format."), Some("Second.")]
    );
}

#[test]
fn without_a_system_message_the_instruction_gets_one_of_its_own() {
    let sent = translate_request(
        asking(
            None,
            vec![said(AiRole::User, Some("Hi"))],
            Some(AiResponseFormat::Json { schema: None }),
        ),
        "m",
        1,
    )
    .messages;
    assert_eq!(roles(&sent), vec!["system", "user"]);
    assert_eq!(contents(&sent), vec![Some("Respond in JSON format."), Some("Hi")]);
}

#[test]
fn a_conversation_that_says_json_is_left_alone() {
    for word in ["json", "JSON", "Json", "é JsOn"] {
        let sent = translate_request(
            asking(
                Some("Be brief."),
                vec![said(AiRole::User, Some(word))],
                Some(AiResponseFormat::Json { schema: None }),
            ),
            "m",
            1,
        )
        .messages;
        assert_eq!(contents(&sent), vec![Some("Be brief."), Some(word)]);
    }
}

#[test]
fn a_schema_is_added_even_where_json_is_said() {
    let schema = object(vec![("type", string("object"))]);
    let hint = "\nYou MUST respond with valid JSON matching this schema:\n```json\n{\n  \"type\": \"object\"\n}\n```";
    let sent = translate_request(
        asking(
            Some("JSON please."),
            vec![],
            Some(AiResponseFormat::Json { schema: Some(schema.clone()) }),
        ),
        "m",
        1,
    )
    .messages;
    assert_eq!(sent.len(), 1);
    assert_eq!(sent[0].content.as_deref(), Some(format!("JSON please.{hint}").as_str()));
    let sent = translate_request(
        asking(
            None,
            vec![said(AiRole::User, Some("Hi"))],
            Some(AiResponseFormat::Json { schema: Some(schema) }),
        ),
        "m",
        1,
    )
    .messages;
    assert_eq!(contents(&sent), vec![Some(hint), Some("Hi")]);
}

#[test]
fn a_hint_frames_the_text_of_the_schema() {
    assert_eq!(
        schema_hint("{}"),
        "\nYou MUST respond with valid JSON matching this schema:\n```json\n{}\n```"
    );
}

#[test]
fn a_call_without_text_gets_the_empty_text() {
    let call = wire_tool_call("1".to_string(), "f".to_string(), None);
    assert_eq!(call.function.arguments, "");
    let call = wire_tool_call("1".to_string(), "f".to_string(), Some("[]".to_string()));
    assert_eq!(call.function.arguments, "[]");
}

#[test]
fn json_is_said_whatever_the_characters_around_it() {
    let sent = translate_request(
        asking(
            Some("ΟΔΥΣΣΕΥΣ İK"),
            vec![],
            Some(AiResponseFormat::Json { schema: None }),
        ),
        "m",
        1,
    )
    .messages;
    let content = sent[0].content.as_deref().unwrap();
    assert_eq!(content, "ΟΔΥΣΣΕΥΣ İK\nRespond in JSON format.");
    assert!(content.to_lowercase().contains("json"));
}
