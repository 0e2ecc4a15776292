//! The provider-neutral request, response and stream-chunk model that every
//! converter targets.
//!
//! Sampling values (temperature, top-p) travel as the IEEE-754 bit pattern
//! of the caller's `f32`: the converters pass them through unchanged.
use vstd::prelude::*;
use crate::text::join_lines;

verus! {

/// Why a completion stopped.
#[derive(Clone, Copy, Debug, PartialEq, Eq, Structural)]
pub enum FinishReason {
    Stop,
    Length,
    ToolCalls,
    ContentFilter,
}

/// The author of a message or delta.
#[derive(Clone, Copy, Debug, PartialEq, Eq, Structural)]
pub enum Role {
    System,
    User,
    Assistant,
    Tool,
}

/// A call of a named tool with JSON-encoded arguments.
#[derive(Clone, Debug, PartialEq)]
pub struct ToolCall {
    pub id: String,
    pub name: String,
    pub arguments: String,
}

/// A tool call as an assistant message carries it.
#[derive(Clone, Debug, PartialEq)]
pub enum MessageToolCall {
    Function(ToolCall),
    /// A call of a custom (free-form) tool, which no converter forwards.
    Custom(String),
}

/// One typed piece of message content.
#[derive(Clone, Debug, PartialEq)]
pub enum ContentPart {
    Text(String),
    /// An image, audio, file or refusal part: dropped by the converters.
    Other,
}

#[derive(Clone, Debug, PartialEq)]
pub enum MessageContent {
    Text(String),
    Parts(Vec<ContentPart>),
}

#[derive(Clone, Debug, PartialEq)]
#[allow(inconsistent_fields)]
pub enum Message {
    System(MessageContent),
    Developer(MessageContent),
    User(MessageContent),
    Assistant { content: Option<MessageContent>, tool_calls: Vec<MessageToolCall> },
    Tool { content: MessageContent, tool_call_id: String },
    /// The deprecated function-result message: no converter forwards it.
    Function { content: Option<String>, name: String },
}

#[derive(Clone, Debug, PartialEq)]
pub enum StopSequences {
    Single(String),
    Many(Vec<String>),
}

/// A function tool; `parameters` is its JSON schema as text.
#[derive(Clone, Debug, PartialEq)]
pub struct FunctionSpec {
    pub name: String,
    pub description: Option<String>,
    pub parameters: Option<String>,
}

#[derive(Clone, Debug, PartialEq)]
pub enum ToolSpec {
    Function(FunctionSpec),
    /// A custom (free-form) tool, named.
    Custom(String),
}

#[derive(Clone, Debug, PartialEq)]
pub enum ToolChoice {
    /// The model calls no tool.
    Off,
    Auto,
    Required,
    /// Forces the function of this name.
    Function(String),
    AllowedTools,
    /// Forces the custom tool of this name.
    Custom(String),
}

#[derive(Clone, Copy, Debug, PartialEq, Eq, Structural)]
pub enum ResponseFormat {
    Text,
    JsonObject,
    JsonSchema,
}

#[derive(Clone, Debug, PartialEq)]
pub struct ChatRequest {
    pub model: String,
    pub messages: Vec<Message>,
    /// Bit pattern of an `f32`.
    pub temperature: Option<u32>,
    /// Bit pattern of an `f32`.
    pub top_p: Option<u32>,
    pub max_completion_tokens: Option<u32>,
    pub stop: Option<StopSequences>,
    pub tools: Option<Vec<ToolSpec>>,
    pub tool_choice: Option<ToolChoice>,
    pub response_format: Option<ResponseFormat>,
}

#[derive(Clone, Copy, Debug, PartialEq, Eq, Structural)]
pub struct Usage {
    pub prompt_tokens: u32,
    pub completion_tokens: u32,
    pub total_tokens: u32,
}

#[derive(Clone, Debug, PartialEq)]
pub struct ResponseMessage {
    pub content: Option<String>,
    pub tool_calls: Option<Vec<ToolCall>>,
}

#[derive(Clone, Debug, PartialEq)]
pub struct ChatChoice {
    pub index: u32,
    pub message: ResponseMessage,
    pub finish_reason: Option<FinishReason>,
}

#[derive(Clone, Debug, PartialEq)]
pub struct ChatResponse {
    pub id: String,
    pub created: u32,
    pub model: String,
    pub choices: Vec<ChatChoice>,
    pub usage: Option<Usage>,
}

#[derive(Clone, Debug, PartialEq)]
pub struct StreamDelta {
    pub content: Option<String>,
    pub role: Option<Role>,
}

#[derive(Clone, Debug, PartialEq)]
pub struct StreamChoice {
    pub index: u32,
    pub delta: StreamDelta,
    pub finish_reason: Option<FinishReason>,
}

#[derive(Clone, Debug, PartialEq)]
pub struct StreamChunk {
    pub id: String,
    pub created: u32,
    pub model: String,
    pub choices: Vec<StreamChoice>,
    pub usage: Option<Usage>,
}

pub open spec fn opt_view(o: Option<String>) -> Option<Seq<char>> {
    match o {
        Some(s) => Some(s@),
        None => None,
    }
}

/// The texts of the text parts, in order; other parts are dropped.
pub open spec fn part_texts(parts: Seq<ContentPart>) -> Seq<Seq<char>>
    decreases parts.len(),
{
    if parts.len() == 0 {
        seq![]
    } else {
        let rest = part_texts(parts.drop_last());
        match parts.last() {
            ContentPart::Text(t) => rest.push(t@),
            ContentPart::Other => rest,
        }
    }
}

/// The text that a message content stands for: a plain string as it is, the
/// text parts joined with newlines.
pub open spec fn content_text(c: MessageContent) -> Seq<char> {
    match c {
        MessageContent::Text(t) => t@,
        MessageContent::Parts(ps) => join_lines(part_texts(ps@)),
    }
}

pub open spec fn is_system_like(m: Message) -> bool {
    m is System || m is Developer
}

/// The system text of a System or Developer message.
pub open spec fn system_text(m: Message) -> Seq<char> {
    match m {
        Message::System(c) => content_text(c),
        Message::Developer(c) => content_text(c),
        _ => Seq::empty(),
    }
}

/// The system texts of a message sequence, one per System or Developer
/// message, in order.
pub open spec fn system_texts(msgs: Seq<Message>) -> Seq<Seq<char>>
    decreases msgs.len(),
{
    if msgs.len() == 0 {
        seq![]
    } else if is_system_like(msgs.last()) {
        system_texts(msgs.drop_last()).push(system_text(msgs.last()))
    } else {
        system_texts(msgs.drop_last())
    }
}

/// The texts of the User messages, in order.
pub open spec fn user_texts(msgs: Seq<Message>) -> Seq<Seq<char>>
    decreases msgs.len(),
{
    if msgs.len() == 0 {
        seq![]
    } else {
        match msgs.last() {
            Message::User(c) => user_texts(msgs.drop_last()).push(content_text(c)),
            _ => user_texts(msgs.drop_last()),
        }
    }
}

/// Whether every message is a System or a User message.
pub open spec fn only_system_and_user(msgs: Seq<Message>) -> bool {
    forall|i: int| 0 <= i < msgs.len() ==> (#[trigger] msgs[i] is System || msgs[i] is User)
}

} // verus!
