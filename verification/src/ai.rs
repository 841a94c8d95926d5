//! The provider-neutral side: what a caller asks of a model and what it gets
//! back.

use serde_json::Value;
use vstd::prelude::*;

verus! {

/// The text in an optional string.
pub open spec fn text_view(text: Option<String>) -> Option<Seq<char>> {
    match text {
        Some(s) => Some(s@),
        None => None,
    }
}

/// Who speaks in a message.
#[derive(Clone, Copy, Debug, PartialEq, Eq, Structural)]
pub enum AiRole {
    System,
    User,
    Assistant,
    Tool,
}

/// A call of a tool that a model asks for.
#[derive(Debug)]
pub struct ToolCall {
    pub id: String,
    pub function_name: String,
    pub arguments: Value,
    pub thought_signature: Option<String>,
}

/// What a [`ToolCall`] says.
pub struct ToolCallView {
    pub id: Seq<char>,
    pub function_name: Seq<char>,
    pub arguments: Value,
    pub thought_signature: Option<Seq<char>>,
}

impl View for ToolCall {
    type V = ToolCallView;

    open spec fn view(&self) -> ToolCallView {
        ToolCallView {
            id: self.id@,
            function_name: self.function_name@,
            arguments: self.arguments,
            thought_signature: text_view(self.thought_signature),
        }
    }
}

/// The calls in an optional list of tool calls.
pub open spec fn tool_calls_view(calls: Option<Vec<ToolCall>>) -> Option<Seq<ToolCallView>> {
    match calls {
        Some(v) => Some(v@.map_values(|c: ToolCall| c@)),
        None => None,
    }
}

/// A message of a conversation.
#[derive(Debug)]
pub struct AiMessage {
    pub role: AiRole,
    pub content: Option<String>,
    pub thought: Option<String>,
    pub tool_calls: Option<Vec<ToolCall>>,
    pub tool_call_id: Option<String>,
}

/// What an [`AiMessage`] says.
pub struct AiMessageView {
    pub role: AiRole,
    pub content: Option<Seq<char>>,
    pub thought: Option<Seq<char>>,
    pub tool_calls: Option<Seq<ToolCallView>>,
    pub tool_call_id: Option<Seq<char>>,
}

impl View for AiMessage {
    type V = AiMessageView;

    open spec fn view(&self) -> AiMessageView {
        AiMessageView {
            role: self.role,
            content: text_view(self.content),
            thought: text_view(self.thought),
            tool_calls: tool_calls_view(self.tool_calls),
            tool_call_id: text_view(self.tool_call_id),
        }
    }
}

/// A tool that a model may call.
#[derive(Debug)]
pub struct AiTool {
    pub name: String,
    pub description: String,
    pub parameters: Value,
}

/// What an [`AiTool`] says.
pub struct AiToolView {
    pub name: Seq<char>,
    pub description: Seq<char>,
    pub parameters: Value,
}

impl View for AiTool {
    type V = AiToolView;

    open spec fn view(&self) -> AiToolView {
        AiToolView {
            name: self.name@,
            description: self.description@,
            parameters: self.parameters,
        }
    }
}

/// The tools in an optional list of tools.
pub open spec fn tools_view(tools: Option<Vec<AiTool>>) -> Option<Seq<AiToolView>> {
    match tools {
        Some(v) => Some(v@.map_values(|t: AiTool| t@)),
        None => None,
    }
}

/// The form in which a model is to answer.
#[derive(Debug)]
pub enum AiResponseFormat {
    Text,
    Json { schema: Option<Value> },
}

/// A request to a model. `T` is the type of the sampling temperature, which is
/// handed on as it is.
#[derive(Debug)]
pub struct AiRequest<T> {
    pub system: Option<String>,
    pub messages: Vec<AiMessage>,
    pub tools: Option<Vec<AiTool>>,
    pub temperature: Option<T>,
    pub response_format: Option<AiResponseFormat>,
    pub context_tag: Option<String>,
}

/// What an [`AiRequest`] says.
pub struct AiRequestView<T> {
    pub system: Option<Seq<char>>,
    pub messages: Seq<AiMessageView>,
    pub tools: Option<Seq<AiToolView>>,
    pub temperature: Option<T>,
    pub response_format: Option<AiResponseFormat>,
    pub context_tag: Option<Seq<char>>,
}

impl<T> View for AiRequest<T> {
    type V = AiRequestView<T>;

    open spec fn view(&self) -> AiRequestView<T> {
        AiRequestView {
            system: text_view(self.system),
            messages: self.messages@.map_values(|m: AiMessage| m@),
            tools: tools_view(self.tools),
            temperature: self.temperature,
            response_format: self.response_format,
            context_tag: text_view(self.context_tag),
        }
    }
}

/// How many tokens an exchange took.
#[derive(Clone, Copy, Debug, PartialEq, Eq)]
pub struct AiUsage {
    pub prompt_tokens: usize,
    pub completion_tokens: usize,
    pub total_tokens: usize,
    pub cached_tokens: Option<usize>,
}

/// What a model answered.
#[derive(Debug)]
pub struct AiResponse {
    pub content: Option<String>,
    pub thought: Option<String>,
    pub tool_calls: Option<Vec<ToolCall>>,
    pub usage: Option<AiUsage>,
}

/// What an [`AiResponse`] says.
pub struct AiResponseView {
    pub content: Option<Seq<char>>,
    pub thought: Option<Seq<char>>,
    pub tool_calls: Option<Seq<ToolCallView>>,
    pub usage: Option<AiUsage>,
}

impl View for AiResponse {
    type V = AiResponseView;

    open spec fn view(&self) -> AiResponseView {
        AiResponseView {
            content: text_view(self.content),
            thought: text_view(self.thought),
            tool_calls: tool_calls_view(self.tool_calls),
            usage: self.usage,
        }
    }
}

/// What a provider can do.
#[derive(Debug)]
pub struct ProviderCapabilities {
    pub model_name: String,
    pub context_window_size: usize,
}

} // verus!
