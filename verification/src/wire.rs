//! The wire side: the subset of the OpenAI chat-completions protocol that an
//! oMLX server understands.

use crate::ai::text_view;
use serde_json::Value;
use vstd::prelude::*;

verus! {

/// The function of a tool call, its arguments as JSON text.
#[derive(Clone, Debug)]
pub struct OmlxToolCallFunction {
    pub name: String,
    pub arguments: String,
}

/// What an [`OmlxToolCallFunction`] says.
pub struct OmlxToolCallFunctionView {
    pub name: Seq<char>,
    pub arguments: Seq<char>,
}

impl View for OmlxToolCallFunction {
    type V = OmlxToolCallFunctionView;

    open spec fn view(&self) -> OmlxToolCallFunctionView {
        OmlxToolCallFunctionView { name: self.name@, arguments: self.arguments@ }
    }
}

/// A tool call; `tool_type` is the field `type` of the protocol.
#[derive(Clone, Debug)]
pub struct OmlxToolCall {
    pub id: String,
    pub tool_type: String,
    pub function: OmlxToolCallFunction,
}

/// What an [`OmlxToolCall`] says.
pub struct OmlxToolCallView {
    pub id: Seq<char>,
    pub tool_type: Seq<char>,
    pub function: OmlxToolCallFunctionView,
}

impl View for OmlxToolCall {
    type V = OmlxToolCallView;

    open spec fn view(&self) -> OmlxToolCallView {
        OmlxToolCallView {
            id: self.id@,
            tool_type: self.tool_type@,
            function: self.function@,
        }
    }
}

/// The calls in an optional list of tool calls.
pub open spec fn omlx_tool_calls_view(calls: Option<Vec<OmlxToolCall>>) -> Option<
    Seq<OmlxToolCallView>,
> {
    match calls {
        Some(v) => Some(v@.map_values(|c: OmlxToolCall| c@)),
        None => None,
    }
}

/// A message; a field that is `None` is left out of the protocol's object.
#[derive(Clone, Debug)]
pub struct OmlxMessage {
    pub role: String,
    pub content: Option<String>,
    pub tool_calls: Option<Vec<OmlxToolCall>>,
    pub tool_call_id: Option<String>,
}

/// What an [`OmlxMessage`] says.
pub struct OmlxMessageView {
    pub role: Seq<char>,
    pub content: Option<Seq<char>>,
    pub tool_calls: Option<Seq<OmlxToolCallView>>,
    pub tool_call_id: Option<Seq<char>>,
}

impl View for OmlxMessage {
    type V = OmlxMessageView;

    open spec fn view(&self) -> OmlxMessageView {
        OmlxMessageView {
            role: self.role@,
            content: text_view(self.content),
            tool_calls: omlx_tool_calls_view(self.tool_calls),
            tool_call_id: text_view(self.tool_call_id),
        }
    }
}

/// A list of messages, each by what it says.
pub open spec fn messages_view(messages: Seq<OmlxMessage>) -> Seq<OmlxMessageView> {
    messages.map_values(|m: OmlxMessage| m@)
}

/// The function that a tool offers.
#[derive(Debug)]
pub struct OmlxFunction {
    pub name: String,
    pub description: String,
    pub parameters: Value,
}

/// What an [`OmlxFunction`] says.
pub struct OmlxFunctionView {
    pub name: Seq<char>,
    pub description: Seq<char>,
    pub parameters: Value,
}

impl View for OmlxFunction {
    type V = OmlxFunctionView;

    open spec fn view(&self) -> OmlxFunctionView {
        OmlxFunctionView {
            name: self.name@,
            description: self.description@,
            parameters: self.parameters,
        }
    }
}

/// A tool; `tool_type` is the field `type` of the protocol.
#[derive(Debug)]
pub struct OmlxTool {
    pub tool_type: String,
    pub function: OmlxFunction,
}

/// What an [`OmlxTool`] says.
pub struct OmlxToolView {
    pub tool_type: Seq<char>,
    pub function: OmlxFunctionView,
}

impl View for OmlxTool {
    type V = OmlxToolView;

    open spec fn view(&self) -> OmlxToolView {
        OmlxToolView { tool_type: self.tool_type@, function: self.function@ }
    }
}

/// The tools in an optional list of tools.
pub open spec fn omlx_tools_view(tools: Option<Vec<OmlxTool>>) -> Option<Seq<OmlxToolView>> {
    match tools {
        Some(v) => Some(v@.map_values(|t: OmlxTool| t@)),
        None => None,
    }
}

/// The form asked of an answer: an object with the one field `type`, which
/// `format_type` holds.
#[derive(Debug)]
pub struct OmlxResponseFormat {
    pub format_type: String,
}

/// The `type` of an optional response format.
pub open spec fn response_format_view(format: Option<OmlxResponseFormat>) -> Option<Seq<char>> {
    match format {
        Some(f) => Some(f.format_type@),
        None => None,
    }
}

/// A chat-completions request; a field that is `None` is left out of the
/// protocol's object.
#[derive(Debug)]
pub struct OmlxRequest<T> {
    pub model: String,
    pub messages: Vec<OmlxMessage>,
    pub tools: Option<Vec<OmlxTool>>,
    pub temperature: Option<T>,
    pub max_tokens: Option<u32>,
    pub response_format: Option<OmlxResponseFormat>,
}

/// What an [`OmlxRequest`] says. The response format is given by its `type`.
pub struct OmlxRequestView<T> {
    pub model: Seq<char>,
    pub messages: Seq<OmlxMessageView>,
    pub tools: Option<Seq<OmlxToolView>>,
    pub temperature: Option<T>,
    pub max_tokens: Option<u32>,
    pub response_format: Option<Seq<char>>,
}

impl<T> View for OmlxRequest<T> {
    type V = OmlxRequestView<T>;

    open spec fn view(&self) -> OmlxRequestView<T> {
        OmlxRequestView {
            model: self.model@,
            messages: messages_view(self.messages@),
            tools: omlx_tools_view(self.tools),
            temperature: self.temperature,
            max_tokens: self.max_tokens,
            response_format: response_format_view(self.response_format),
        }
    }
}

/// How many tokens the server counted.
#[derive(Clone, Copy, Debug, PartialEq, Eq)]
pub struct OmlxUsage {
    pub prompt_tokens: u32,
    pub completion_tokens: u32,
    pub total_tokens: u32,
}

/// One of the answers in a response.
#[derive(Debug)]
pub struct OmlxChoice {
    pub message: OmlxMessage,
    pub finish_reason: Option<String>,
}

/// A chat-completions response.
#[derive(Debug)]
pub struct OmlxResponse {
    pub choices: Vec<OmlxChoice>,
    pub usage: Option<OmlxUsage>,
}

/// What an [`OmlxResponse`] says: the messages of its choices, in order, and the
/// usage.
pub struct OmlxResponseView {
    pub messages: Seq<OmlxMessageView>,
    pub usage: Option<OmlxUsage>,
}

impl View for OmlxResponse {
    type V = OmlxResponseView;

    open spec fn view(&self) -> OmlxResponseView {
        OmlxResponseView {
            messages: self.choices@.map_values(|c: OmlxChoice| c.message@),
            usage: self.usage,
        }
    }
}

} // verus!
