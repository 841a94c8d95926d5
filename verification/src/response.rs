//! From a response of the protocol to a response for the caller.

use crate::ai::{AiResponse, AiResponseView, AiUsage, ToolCall, ToolCallView};
use crate::error::OmlxError;
use crate::json::{from_text, json_null, json_value, null};
use crate::wire::{OmlxResponse, OmlxResponseView, OmlxToolCall, OmlxToolCallView, OmlxUsage};
use serde_json::Value;
use vstd::prelude::*;

verus! {

/// A tool call for the caller, its arguments given as a value where their text
/// has one; null stands for the others.
pub open spec fn tool_call_of(
    id: Seq<char>,
    function_name: Seq<char>,
    arguments: Option<Value>,
) -> ToolCallView {
    ToolCallView {
        id,
        function_name,
        arguments: match arguments {
            Some(value) => value,
            None => json_null(),
        },
        thought_signature: None,
    }
}

/// A tool call for the caller, its arguments read from their JSON text.
pub open spec fn read_tool_call_view(call: OmlxToolCallView) -> ToolCallView {
    tool_call_of(call.id, call.function.name, json_value(call.function.arguments))
}

/// The usage for the caller.
pub open spec fn usage_of(usage: OmlxUsage) -> AiUsage {
    AiUsage {
        prompt_tokens: usage.prompt_tokens as usize,
        completion_tokens: usage.completion_tokens as usize,
        total_tokens: usage.total_tokens as usize,
        cached_tokens: None,
    }
}

/// The response for the caller: what the first choice says, and the usage.
pub open spec fn read_response_view(response: OmlxResponseView) -> AiResponseView
    recommends
        response.messages.len() > 0,
{
    let message = response.messages[0];
    AiResponseView {
        content: message.content,
        thought: None,
        tool_calls: match message.tool_calls {
            Some(calls) => Some(calls.map_values(|c: OmlxToolCallView| read_tool_call_view(c))),
            None => None,
        },
        usage: match response.usage {
            Some(usage) => Some(usage_of(usage)),
            None => None,
        },
    }
}

/// Whether `outcome` is what a response comes to: an answer where there is a
/// choice, the error for no choices where there is none.
pub open spec fn comes_to(
    response: OmlxResponseView,
    outcome: Result<AiResponse, OmlxError>,
) -> bool {
    match outcome {
        Ok(answer) => response.messages.len() > 0 && answer@ == read_response_view(response),
        Err(error) => response.messages.len() == 0 && error == OmlxError::NoChoices,
    }
}

/// Makes a tool call of arguments whose value is known: arguments without a value
/// are null.
pub fn read_tool_call(id: String, function_name: String, arguments: Option<Value>) -> (call:
    ToolCall)
    ensures
        call@ == tool_call_of(id@, function_name@, arguments),
{
    let arguments = match arguments {
        Some(value) => value,
        None => null(),
    };
    ToolCall { id, function_name, arguments, thought_signature: None }
}

/// Translates the tool calls of a response.
pub fn read_tool_calls(calls: Vec<OmlxToolCall>) -> (translated: Vec<ToolCall>)
    ensures
        translated@.map_values(|c: ToolCall| c@) == calls@.map_values(
            |c: OmlxToolCall| read_tool_call_view(c@),
        ),
{
    let mut translated: Vec<ToolCall> = Vec::new();
    for call in it: calls
        invariant
            it.seq() == calls@,
            translated@.len() == it.index(),
            forall|i: int|
                0 <= i < it.index() ==> (#[trigger] translated@[i])@ == read_tool_call_view(
                    calls@[i]@,
                ),
    {
        let arguments = match from_text(call.function.arguments.as_str()) {
            Ok(value) => Some(value),
            Err(_) => None,
        };
        translated.push(read_tool_call(call.id, call.function.name, arguments));
    }
    translated
}

/// Translates the usage of a response.
pub fn read_usage(usage: OmlxUsage) -> (translated: AiUsage)
    ensures
        translated == usage_of(usage),
{
    AiUsage {
        prompt_tokens: usage.prompt_tokens as usize,
        completion_tokens: usage.completion_tokens as usize,
        total_tokens: usage.total_tokens as usize,
        cached_tokens: None,
    }
}

/// Translates a response: its first choice and its usage. It fails if and only if
/// there is no choice.
pub fn translate_response(response: OmlxResponse) -> (translated: Result<AiResponse, OmlxError>)
    ensures
        comes_to(response@, translated),
{
    let ghost said = response@;
    let mut choices = response.choices;
    if choices.is_empty() {
        return Err(OmlxError::NoChoices);
    }
    let message = choices.swap_remove(0).message;
    assert(said.messages[0] == message@);
    let tool_calls = match message.tool_calls {
        Some(calls) => {
            let translated = read_tool_calls(calls);
            assert(translated@.map_values(|c: ToolCall| c@) =~= calls@.map_values(
                |c: OmlxToolCall| c@,
            ).map_values(|c: OmlxToolCallView| read_tool_call_view(c)));
            Some(translated)
        },
        None => None,
    };
    let usage = match response.usage {
        Some(usage) => Some(read_usage(usage)),
        None => None,
    };
    Ok(AiResponse { content: message.content, thought: None, tool_calls, usage })
}

} // verus!
