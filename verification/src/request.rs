//! From a request of a caller to a request of the protocol.

use crate::ai::{
    text_view, tools_view, AiMessage, AiMessageView, AiRequest, AiRequestView, AiResponseFormat,
    AiRole, AiTool, AiToolView, ToolCall, ToolCallView,
};
use crate::json::{
    is_plain, json_pretty, json_text, reads_back, to_display_text, to_pretty_text, to_text,
};
use crate::text::{contains, has_part, lowercase, to_lowercase};
use crate::wire::{
    messages_view, omlx_tools_view, OmlxFunction, OmlxFunctionView, OmlxMessage, OmlxMessageView,
    OmlxRequest, OmlxRequestView, OmlxResponseFormat, OmlxTool, OmlxToolCall, OmlxToolCallFunction,
    OmlxToolCallFunctionView, OmlxToolCallView, OmlxToolView,
};
use serde_json::Value;
use vstd::prelude::*;

verus! {

/// A tool call of the protocol, its arguments given as text where they have one.
pub open spec fn wire_tool_call_of(
    id: Seq<char>,
    name: Seq<char>,
    arguments: Option<Seq<char>>,
) -> OmlxToolCallView {
    OmlxToolCallView {
        id,
        tool_type: "function"@,
        function: OmlxToolCallFunctionView {
            name,
            arguments: match arguments {
                Some(text) => text,
                None => Seq::empty(),
            },
        },
    }
}

/// A tool call in the form of the protocol, its arguments as compact JSON text.
pub open spec fn wire_tool_call_view(call: ToolCallView) -> OmlxToolCallView {
    wire_tool_call_of(call.id, call.function_name, Some(json_text(call.arguments)))
}

/// Whether a call's arguments are read back from their text if that text is plain.
pub open spec fn plain_arguments_read_back(call: ToolCallView) -> bool {
    is_plain(json_text(call.arguments)) ==> reads_back(call.arguments)
}

/// Whether that holds of every tool call that is sent with a message.
pub open spec fn plain_calls_read_back(message: AiMessageView) -> bool {
    message.role == AiRole::Assistant ==> match message.tool_calls {
        Some(calls) => forall|i: int|
            0 <= i < calls.len() ==> plain_arguments_read_back(#[trigger] calls[i]),
        None => true,
    }
}

/// The role's name in the protocol.
pub open spec fn role_text(role: AiRole) -> Seq<char> {
    match role {
        AiRole::System => "system"@,
        AiRole::User => "user"@,
        AiRole::Assistant => "assistant"@,
        AiRole::Tool => "tool"@,
    }
}

/// A message in the form of the protocol: an assistant keeps its tool calls, a
/// tool the id of the call that it answers, and nobody else either of them.
pub open spec fn wire_message_view(message: AiMessageView) -> OmlxMessageView {
    OmlxMessageView {
        role: role_text(message.role),
        content: message.content,
        tool_calls: match message.tool_calls {
            Some(calls) if message.role == AiRole::Assistant => Some(
                calls.map_values(|c: ToolCallView| wire_tool_call_view(c)),
            ),
            _ => None,
        },
        tool_call_id: if message.role == AiRole::Tool {
            message.tool_call_id
        } else {
            None
        },
    }
}

/// A system message that holds a text and nothing else.
pub open spec fn system_message_view(text: Seq<char>) -> OmlxMessageView {
    OmlxMessageView {
        role: "system"@,
        content: Some(text),
        tool_calls: None,
        tool_call_id: None,
    }
}

/// Makes a tool call of the protocol of arguments whose text is known: a call
/// without text gets the empty one.
pub fn wire_tool_call(id: String, name: String, arguments: Option<String>) -> (call: OmlxToolCall)
    ensures
        call@ == wire_tool_call_of(id@, name@, text_view(arguments)),
{
    let arguments = match arguments {
        Some(text) => text,
        None => String::new(),
    };
    OmlxToolCall {
        id,
        tool_type: "function".to_string(),
        function: OmlxToolCallFunction { name, arguments },
    }
}

/// Translates the tool calls of an assistant.
pub fn translate_tool_calls(calls: Vec<ToolCall>) -> (translated: Vec<OmlxToolCall>)
    ensures
        translated@.map_values(|c: OmlxToolCall| c@) == calls@.map_values(
            |c: ToolCall| wire_tool_call_view(c@),
        ),
        forall|i: int|
            0 <= i < calls@.len() ==> plain_arguments_read_back((#[trigger] calls@[i])@),
{
    let mut translated: Vec<OmlxToolCall> = Vec::new();
    for call in it: calls
        invariant
            it.seq() == calls@,
            translated@.len() == it.index(),
            forall|i: int|
                0 <= i < it.index() ==> (#[trigger] translated@[i])@ == wire_tool_call_view(
                    calls@[i]@,
                ),
            forall|i: int|
                0 <= i < it.index() ==> plain_arguments_read_back((#[trigger] calls@[i])@),
    {
        let arguments = match to_text(&call.arguments) {
            Ok(text) => Some(text),
            Err(_) => None,
        };
        translated.push(wire_tool_call(call.id, call.function_name, arguments));
    }
    translated
}

/// Translates a message.
pub fn translate_message(message: AiMessage) -> (translated: OmlxMessage)
    ensures
        translated@ == wire_message_view(message@),
        plain_calls_read_back(message@),
{
    match message.role {
        AiRole::System => OmlxMessage {
            role: "system".to_string(),
            content: message.content,
            tool_calls: None,
            tool_call_id: None,
        },
        AiRole::User => OmlxMessage {
            role: "user".to_string(),
            content: message.content,
            tool_calls: None,
            tool_call_id: None,
        },
        AiRole::Assistant => {
            let tool_calls = match message.tool_calls {
                Some(calls) => {
                    let translated = translate_tool_calls(calls);
                    assert(translated@.map_values(|c: OmlxToolCall| c@) =~= calls@.map_values(
                        |c: ToolCall| c@,
                    ).map_values(|c: ToolCallView| wire_tool_call_view(c)));
                    Some(translated)
                },
                None => None,
            };
            OmlxMessage {
                role: "assistant".to_string(),
                content: message.content,
                tool_calls,
                tool_call_id: None,
            }
        },
        AiRole::Tool => OmlxMessage {
            role: "tool".to_string(),
            content: message.content,
            tool_calls: None,
            tool_call_id: message.tool_call_id,
        },
    }
}

/// The tools in the form of the protocol; an empty list is no list.
pub open spec fn wire_tools_view(tools: Option<Seq<AiToolView>>) -> Option<Seq<OmlxToolView>> {
    match tools {
        Some(tools) if tools.len() > 0 => Some(
            tools.map_values(|t: AiToolView| wire_tool_view(t)),
        ),
        _ => None,
    }
}

/// A tool in the form of the protocol.
pub open spec fn wire_tool_view(tool: AiToolView) -> OmlxToolView {
    OmlxToolView {
        tool_type: "function"@,
        function: OmlxFunctionView {
            name: tool.name,
            description: tool.description,
            parameters: tool.parameters,
        },
    }
}

/// Translates the tools that a request offers.
pub fn translate_tools(tools: Option<Vec<AiTool>>) -> (translated: Option<Vec<OmlxTool>>)
    ensures
        omlx_tools_view(translated) == wire_tools_view(tools_view(tools)),
{
    let tools = match tools {
        Some(tools) => tools,
        None => return None,
    };
    if tools.is_empty() {
        return None;
    }
    let mut translated: Vec<OmlxTool> = Vec::new();
    for tool in it: tools
        invariant
            it.seq() == tools@,
            translated@.len() == it.index(),
            forall|i: int|
                0 <= i < it.index() ==> (#[trigger] translated@[i])@ == wire_tool_view(tools@[i]@),
    {
        translated.push(
            OmlxTool {
                tool_type: "function".to_string(),
                function: OmlxFunction {
                    name: tool.name,
                    description: tool.description,
                    parameters: tool.parameters,
                },
            },
        );
    }
    assert(translated@.map_values(|t: OmlxTool| t@) =~= tools@.map_values(
        |t: AiTool| t@,
    ).map_values(|t: AiToolView| wire_tool_view(t)));
    Some(translated)
}

/// The messages of a request in the form of the protocol: the system text first,
/// then the conversation, message by message.
pub open spec fn conversation_view(
    system: Option<Seq<char>>,
    messages: Seq<AiMessageView>,
) -> Seq<OmlxMessageView> {
    let first = match system {
        Some(text) => seq![system_message_view(text)],
        None => Seq::empty(),
    };
    first + messages.map_values(|m: AiMessageView| wire_message_view(m))
}

/// Makes a system message of a text.
fn system_message(text: String) -> (message: OmlxMessage)
    ensures
        message@ == system_message_view(text@),
{
    OmlxMessage {
        role: "system".to_string(),
        content: Some(text),
        tool_calls: None,
        tool_call_id: None,
    }
}

/// Translates the system text and the conversation of a request.
pub fn translate_conversation(
    system: Option<String>,
    messages: Vec<AiMessage>,
) -> (translated: Vec<OmlxMessage>)
    ensures
        messages_view(translated@) == conversation_view(
            text_view(system),
            messages@.map_values(|m: AiMessage| m@),
        ),
        forall|i: int|
            0 <= i < messages@.len() ==> plain_calls_read_back((#[trigger] messages@[i])@),
{
    let ghost said = messages@.map_values(|m: AiMessage| m@);
    let ghost first = conversation_view(text_view(system), Seq::empty());
    let mut translated: Vec<OmlxMessage> = Vec::new();
    if let Some(text) = system {
        translated.push(system_message(text));
    }
    assert(messages_view(translated@) =~= first);
    for message in it: messages
        invariant
            it.seq() == messages@,
            said == messages@.map_values(|m: AiMessage| m@),
            messages_view(translated@) == first + said.take(it.index() as int).map_values(
                |m: AiMessageView| wire_message_view(m),
            ),
            forall|i: int|
                0 <= i < it.index() ==> plain_calls_read_back((#[trigger] messages@[i])@),
    {
        let ghost before = translated@;
        translated.push(translate_message(message));
        assert(messages_view(translated@) =~= messages_view(before).push(
            wire_message_view(message@),
        ));
        assert(said.take(it.index() + 1) =~= said.take(it.index() as int).push(message@));
    }
    assert(said.take(said.len() as int) =~= said);
    translated
}

/// Whether a message's content has the word "json" in it, in upper or lower case.
pub open spec fn mentions_json(message: OmlxMessageView) -> bool {
    match message.content {
        Some(content) => has_part(lowercase(content), "json"@),
        None => false,
    }
}

/// Whether some message has the word "json" in it.
pub open spec fn some_mentions_json(messages: Seq<OmlxMessageView>) -> bool {
    exists|i: int| 0 <= i < messages.len() && mentions_json(#[trigger] messages[i])
}

/// Whether some message has the word "json" in it.
pub fn any_mentions_json(messages: &Vec<OmlxMessage>) -> (found: bool)
    ensures
        found == some_mentions_json(messages_view(messages@)),
{
    let ghost said = messages_view(messages@);
    let mut i: usize = 0;
    while i < messages.len()
        invariant
            said == messages_view(messages@),
            i <= messages@.len(),
            forall|j: int| 0 <= j < i ==> !mentions_json(#[trigger] said[j]),
        decreases messages@.len() - i,
    {
        assert(said[i as int] == messages@[i as int]@);
        if let Some(content) = &messages[i].content {
            if contains(to_lowercase(content.as_str()).as_str(), "json") {
                return true;
            }
        }
        i = i + 1;
    }
    false
}

/// The instruction that a schema with a text makes.
pub open spec fn schema_hint_of(schema_text: Seq<char>) -> Seq<char> {
    "\nYou MUST respond with valid JSON matching this schema:\n```json\n"@ + schema_text
        + "\n```"@
}

/// The instruction that a schema makes: it holds the schema's indented text.
pub open spec fn schema_hint_view(schema: Value) -> Seq<char> {
    schema_hint_of(json_pretty(schema))
}

/// Makes the instruction of a schema whose text is known.
pub fn schema_hint(schema_text: &str) -> (hint: String)
    ensures
        hint@ == schema_hint_of(schema_text@),
{
    let mut hint =
        "\nYou MUST respond with valid JSON matching this schema:\n```json\n".to_string();
    hint.append(schema_text);
    hint.append("\n```");
    hint
}

/// Makes the instruction of a schema.
pub fn hint_for_schema(schema: &Value) -> (hint: String)
    ensures
        hint@ == schema_hint_view(*schema),
{
    match to_pretty_text(schema) {
        Ok(text) => schema_hint(text.as_str()),
        Err(_) => schema_hint(to_display_text(schema).as_str()),
    }
}

/// Whether the first system message stands at `at`.
pub open spec fn first_system_at(messages: Seq<OmlxMessageView>, at: int) -> bool {
    &&& 0 <= at < messages.len()
    &&& messages[at].role == "system"@
    &&& forall|j: int| 0 <= j < at ==> (#[trigger] messages[j]).role != "system"@
}

/// Finds the first system message.
pub fn find_system(messages: &Vec<OmlxMessage>) -> (at: Option<usize>)
    ensures
        match at {
            Some(i) => first_system_at(messages_view(messages@), i as int),
            None => forall|i: int| !first_system_at(messages_view(messages@), i),
        },
{
    let ghost said = messages_view(messages@);
    let system = "system".to_string();
    let mut i: usize = 0;
    while i < messages.len()
        invariant
            said == messages_view(messages@),
            system@ == "system"@,
            i <= messages@.len(),
            forall|j: int| 0 <= j < i ==> (#[trigger] said[j]).role != "system"@,
        decreases messages@.len() - i,
    {
        assert(said[i as int] == messages@[i as int]@);
        if messages[i].role == system {
            return Some(i);
        }
        i = i + 1;
    }
    None
}

/// A message with a text added to the end of its content.
pub open spec fn with_added_text(message: OmlxMessageView, text: Seq<char>) -> OmlxMessageView {
    OmlxMessageView {
        content: match message.content {
            Some(content) => Some(content + text),
            None => Some(text),
        },
        ..message
    }
}

/// The messages with an instruction to answer in JSON: at the end of the first
/// system message or, where there is none, in a new one before all others. The
/// instruction is the hint where there is one.
pub open spec fn with_instruction(
    messages: Seq<OmlxMessageView>,
    hint: Option<Seq<char>>,
) -> Seq<OmlxMessageView> {
    if exists|at: int| first_system_at(messages, at) {
        let at = choose|at: int| first_system_at(messages, at);
        let added = match hint {
            Some(text) => text,
            None => "\nRespond in JSON format."@,
        };
        messages.update(at, with_added_text(messages[at], added))
    } else {
        let text = match hint {
            Some(text) => text,
            None => "Respond in JSON format."@,
        };
        seq![system_message_view(text)] + messages
    }
}

/// The messages as they are sent where a JSON answer is asked for: with an
/// instruction, unless the word is there already and there is no hint.
pub open spec fn json_ready(
    messages: Seq<OmlxMessageView>,
    hint: Option<Seq<char>>,
) -> Seq<OmlxMessageView> {
    if !some_mentions_json(messages) || hint is Some {
        with_instruction(messages, hint)
    } else {
        messages
    }
}

/// Adds the instruction to answer in JSON to the messages.
pub fn add_instruction(messages: &mut Vec<OmlxMessage>, hint: Option<String>)
    ensures
        messages_view(final(messages)@) == with_instruction(
            messages_view(old(messages)@),
            text_view(hint),
        ),
{
    let ghost said = messages_view(messages@);
    match find_system(messages) {
        Some(at) => {
            let mut content = match messages[at].content.take() {
                Some(content) => content,
                None => String::new(),
            };
            match hint {
                Some(text) => content.append(text.as_str()),
                None => content.append("\nRespond in JSON format."),
            }
            messages[at].content = Some(content);
        },
        None => {
            let text = match hint {
                Some(text) => text,
                None => "Respond in JSON format.".to_string(),
            };
            messages.insert(0, system_message(text));
        },
    }
}

/// Makes the messages ready for a JSON answer: adds the instruction, unless the
/// word is there already and there is no hint.
pub fn make_json_ready(messages: &mut Vec<OmlxMessage>, hint: Option<String>)
    ensures
        messages_view(final(messages)@) == json_ready(
            messages_view(old(messages)@),
            text_view(hint),
        ),
{
    let has_json = any_mentions_json(messages);
    if !has_json || hint.is_some() {
        add_instruction(messages, hint);
    }
}

/// The instruction that an optional schema makes.
pub open spec fn optional_hint_view(schema: Option<Value>) -> Option<Seq<char>> {
    match schema {
        Some(value) => Some(schema_hint_view(value)),
        None => None,
    }
}

/// The `type` of the response format that is asked for.
pub open spec fn format_text(format: Option<AiResponseFormat>) -> Option<Seq<char>> {
    match format {
        Some(AiResponseFormat::Json { .. }) => Some("json_object"@),
        Some(AiResponseFormat::Text) => Some("text"@),
        None => None,
    }
}

/// The messages that are sent for a request.
pub open spec fn sent_messages<T>(request: AiRequestView<T>) -> Seq<OmlxMessageView> {
    let messages = conversation_view(request.system, request.messages);
    match request.response_format {
        Some(AiResponseFormat::Json { schema }) => json_ready(
            messages,
            optional_hint_view(schema),
        ),
        _ => messages,
    }
}

/// A request in the form of the protocol.
pub open spec fn wire_request_view<T>(
    request: AiRequestView<T>,
    model: Seq<char>,
    max_tokens: u32,
) -> OmlxRequestView<T> {
    OmlxRequestView {
        model,
        messages: sent_messages(request),
        tools: wire_tools_view(request.tools),
        temperature: request.temperature,
        max_tokens: Some(max_tokens),
        response_format: format_text(request.response_format),
    }
}

/// Translates a request.
///
/// Servers of this protocol want the word "json" in at least one message where
/// the response format is `json_object`, and local models do better with the
/// schema in the prompt, so both are put there.
///
/// Of the tool calls that are sent it is known besides that plain arguments can be
/// read back from their text.
pub fn translate_request<T>(request: AiRequest<T>, model: &str, max_tokens: u32) -> (translated:
    OmlxRequest<T>)
    ensures
        translated@ == wire_request_view(request@, model@, max_tokens),
        forall|i: int|
            0 <= i < request@.messages.len() ==> plain_calls_read_back(
                #[trigger] request@.messages[i],
            ),
{
    let mut messages = translate_conversation(request.system, request.messages);
    let tools = translate_tools(request.tools);
    let response_format = match request.response_format {
        Some(AiResponseFormat::Json { schema }) => {
            let hint = match schema {
                Some(value) => Some(hint_for_schema(&value)),
                None => None,
            };
            make_json_ready(&mut messages, hint);
            Some(OmlxResponseFormat { format_type: "json_object".to_string() })
        },
        Some(AiResponseFormat::Text) => Some(
            OmlxResponseFormat { format_type: "text".to_string() },
        ),
        None => None,
    };
    OmlxRequest {
        model: model.to_string(),
        messages,
        tools,
        temperature: request.temperature,
        max_tokens: Some(max_tokens),
        response_format,
    }
}

} // verus!
