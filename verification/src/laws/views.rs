//! What the values of the library say is what their fields hold.

use crate::ai::{
    text_view, tool_calls_view, tools_view, AiMessage, AiRequest, AiResponse, AiTool, ToolCall,
};
use crate::wire::{
    messages_view, omlx_tool_calls_view, omlx_tools_view, response_format_view, OmlxFunction,
    OmlxMessage, OmlxRequest, OmlxResponse, OmlxResponseFormat, OmlxTool, OmlxToolCall,
    OmlxToolCallFunction,
};
use vstd::prelude::*;

verus! {

/// An optional string says its characters, and a missing one says nothing.
pub proof fn law_optional_text(text: String)
    ensures
        text_view(Some(text)) == Some(text@),
        text_view(None) == None::<Seq<char>>,
{
}

/// A tool call says all that its fields hold.
pub proof fn law_tool_call_says_its_fields(call: ToolCall)
    ensures
        call@.id == call.id@,
        call@.function_name == call.function_name@,
        call@.arguments == call.arguments,
        call.thought_signature is Some == call@.thought_signature is Some,
        call.thought_signature matches Some(text) ==> call@.thought_signature == Some(text@),
{
}

/// A list of tool calls says each call, in order, and a missing list says nothing.
pub proof fn law_tool_calls_say_each_call(calls: Vec<ToolCall>)
    ensures
        tool_calls_view(None) is None,
        tool_calls_view(Some(calls)) matches Some(said) && {
            &&& said.len() == calls@.len()
            &&& forall|i: int| 0 <= i < calls@.len() ==> #[trigger] said[i] == calls@[i]@
        },
{
}

/// A message says all that its fields hold.
pub proof fn law_message_says_its_fields(message: AiMessage)
    ensures
        message@.role == message.role,
        message.content is Some == message@.content is Some,
        message.content matches Some(text) ==> message@.content == Some(text@),
        message.thought is Some == message@.thought is Some,
        message.thought matches Some(text) ==> message@.thought == Some(text@),
        message.tool_call_id is Some == message@.tool_call_id is Some,
        message.tool_call_id matches Some(text) ==> message@.tool_call_id == Some(text@),
        message.tool_calls is Some == message@.tool_calls is Some,
        message.tool_calls matches Some(calls) ==> {
            &&& message@.tool_calls->0.len() == calls@.len()
            &&& forall|i: int|
                0 <= i < calls@.len() ==> #[trigger] message@.tool_calls->0[i] == calls@[i]@
        },
{
}

/// A tool says all that its fields hold.
pub proof fn law_tool_says_its_fields(tool: AiTool)
    ensures
        tool@.name == tool.name@,
        tool@.description == tool.description@,
        tool@.parameters == tool.parameters,
{
}

/// A list of tools says each tool, in order, and a missing list says nothing.
pub proof fn law_tools_say_each_tool(tools: Vec<AiTool>)
    ensures
        tools_view(None) is None,
        tools_view(Some(tools)) matches Some(said) && {
            &&& said.len() == tools@.len()
            &&& forall|i: int| 0 <= i < tools@.len() ==> #[trigger] said[i] == tools@[i]@
        },
{
}

/// A request says all that its fields hold.
pub proof fn law_request_says_its_fields<T>(request: AiRequest<T>)
    ensures
        request.system is Some == request@.system is Some,
        request.system matches Some(text) ==> request@.system == Some(text@),
        request@.messages.len() == request.messages@.len(),
        forall|i: int|
            0 <= i < request.messages@.len() ==> #[trigger] request@.messages[i]
                == request.messages@[i]@,
        request.tools is Some == request@.tools is Some,
        request.tools matches Some(tools) ==> {
            &&& request@.tools->0.len() == tools@.len()
            &&& forall|i: int|
                0 <= i < tools@.len() ==> #[trigger] request@.tools->0[i] == tools@[i]@
        },
        request@.temperature == request.temperature,
        request@.response_format == request.response_format,
        request.context_tag is Some == request@.context_tag is Some,
        request.context_tag matches Some(text) ==> request@.context_tag == Some(text@),
{
}

/// An answer says all that its fields hold.
pub proof fn law_response_says_its_fields(answer: AiResponse)
    ensures
        answer.content is Some == answer@.content is Some,
        answer.content matches Some(text) ==> answer@.content == Some(text@),
        answer.thought is Some == answer@.thought is Some,
        answer.thought matches Some(text) ==> answer@.thought == Some(text@),
        answer@.usage == answer.usage,
        answer.tool_calls is Some == answer@.tool_calls is Some,
        answer.tool_calls matches Some(calls) ==> {
            &&& answer@.tool_calls->0.len() == calls@.len()
            &&& forall|i: int|
                0 <= i < calls@.len() ==> #[trigger] answer@.tool_calls->0[i] == calls@[i]@
        },
{
}

/// A tool call of the protocol says all that its fields hold.
pub proof fn law_omlx_tool_call_says_its_fields(
    call: OmlxToolCall,
    function: OmlxToolCallFunction,
)
    ensures
        call@.id == call.id@,
        call@.tool_type == call.tool_type@,
        call@.function.name == call.function.name@,
        call@.function.arguments == call.function.arguments@,
        function@.name == function.name@,
        function@.arguments == function.arguments@,
{
}

/// A list of tool calls of the protocol says each call, in order, and a missing
/// list says nothing.
pub proof fn law_omlx_tool_calls_say_each_call(calls: Vec<OmlxToolCall>)
    ensures
        omlx_tool_calls_view(None) is None,
        omlx_tool_calls_view(Some(calls)) matches Some(said) && {
            &&& said.len() == calls@.len()
            &&& forall|i: int| 0 <= i < calls@.len() ==> #[trigger] said[i] == calls@[i]@
        },
{
}

/// A message of the protocol says all that its fields hold.
pub proof fn law_omlx_message_says_its_fields(message: OmlxMessage)
    ensures
        message@.role == message.role@,
        message.content is Some == message@.content is Some,
        message.content matches Some(text) ==> message@.content == Some(text@),
        message.tool_call_id is Some == message@.tool_call_id is Some,
        message.tool_call_id matches Some(text) ==> message@.tool_call_id == Some(text@),
        message.tool_calls is Some == message@.tool_calls is Some,
        message.tool_calls matches Some(calls) ==> {
            &&& message@.tool_calls->0.len() == calls@.len()
            &&& forall|i: int|
                0 <= i < calls@.len() ==> #[trigger] message@.tool_calls->0[i] == calls@[i]@
        },
{
}

/// A list of messages of the protocol says each message, in order.
pub proof fn law_omlx_messages_say_each_message(messages: Seq<OmlxMessage>)
    ensures
        messages_view(messages).len() == messages.len(),
        forall|i: int|
            0 <= i < messages.len() ==> #[trigger] messages_view(messages)[i] == messages[i]@,
{
}

/// A tool of the protocol says all that its fields hold.
pub proof fn law_omlx_tool_says_its_fields(tool: OmlxTool, function: OmlxFunction)
    ensures
        tool@.tool_type == tool.tool_type@,
        tool@.function.name == tool.function.name@,
        tool@.function.description == tool.function.description@,
        tool@.function.parameters == tool.function.parameters,
        function@.name == function.name@,
        function@.description == function.description@,
        function@.parameters == function.parameters,
{
}

/// A list of tools of the protocol says each tool, in order, and a missing list
/// says nothing.
pub proof fn law_omlx_tools_say_each_tool(tools: Vec<OmlxTool>)
    ensures
        omlx_tools_view(None) is None,
        omlx_tools_view(Some(tools)) matches Some(said) && {
            &&& said.len() == tools@.len()
            &&& forall|i: int| 0 <= i < tools@.len() ==> #[trigger] said[i] == tools@[i]@
        },
{
}

/// A response format says its type, and a missing one says nothing.
pub proof fn law_response_format_says_its_type(format: OmlxResponseFormat)
    ensures
        response_format_view(Some(format)) == Some(format.format_type@),
        response_format_view(None) is None,
{
}

/// A request of the protocol says all that its fields hold.
pub proof fn law_omlx_request_says_its_fields<T>(request: OmlxRequest<T>)
    ensures
        request@.model == request.model@,
        request@.messages.len() == request.messages@.len(),
        forall|i: int|
            0 <= i < request.messages@.len() ==> #[trigger] request@.messages[i]
                == request.messages@[i]@,
        request.tools is Some == request@.tools is Some,
        request.tools matches Some(tools) ==> {
            &&& request@.tools->0.len() == tools@.len()
            &&& forall|i: int|
                0 <= i < tools@.len() ==> #[trigger] request@.tools->0[i] == tools@[i]@
        },
        request@.temperature == request.temperature,
        request@.max_tokens == request.max_tokens,
        request.response_format is Some == request@.response_format is Some,
        request.response_format matches Some(format) ==> request@.response_format == Some(
            format.format_type@,
        ),
{
}

/// A response of the protocol says the message of each choice, in order, and the
/// usage.
pub proof fn law_omlx_response_says_its_fields(response: OmlxResponse)
    ensures
        response@.messages.len() == response.choices@.len(),
        forall|i: int|
            0 <= i < response.choices@.len() ==> #[trigger] response@.messages[i]
                == response.choices@[i].message@,
        response@.usage == response.usage,
{
}

} // verus!
