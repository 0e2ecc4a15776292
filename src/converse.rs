//! Conversion between the unified schema and the structured-turn protocol:
//! system blocks, user/assistant turns of typed content blocks, tool specs.
//!
//! JSON values (tool-use input, input schemas) travel as JSON text.
use vstd::prelude::*;
use crate::content::content_to_text;
use crate::error::CompositeLlmError;
use crate::ids::{generate_chat_cmpl_id, unix_timestamp, is_prefixed_id, chat_cmpl_prefix};
use crate::json::{arguments_or_empty, json_or_empty_object};
use crate::schema::{
    ChatChoice, ChatRequest, ChatResponse, FinishReason, Message, MessageContent,
    MessageToolCall, ResponseMessage, StopSequences, StreamChoice, StreamChunk, StreamDelta,
    ToolCall, ToolSpec, Usage, content_text, system_texts, user_texts, opt_view,
    only_system_and_user,
};
use crate::text::{copy_strings, copy_opt_string};

verus! {

#[derive(Clone, Debug, PartialEq)]
pub struct SystemBlock {
    pub text: String,
}

#[derive(Clone, Copy, Debug, PartialEq, Eq, Structural)]
pub enum ConverseRole {
    User,
    Assistant,
}

/// A content block of a turn.
#[derive(Clone, Debug, PartialEq)]
pub enum ConverseContent {
    Text(String),
    /// A tool invocation; `input` is JSON text.
    ToolUse { tool_use_id: String, name: String, input: String },
    /// The text result of the tool invocation `tool_use_id`.
    ToolResult { tool_use_id: String, text: String },
    /// A block kind that the converters do not read (images, reasoning, ...).
    Other,
}

#[derive(Clone, Debug, PartialEq)]
pub struct ConverseMessage {
    pub role: ConverseRole,
    pub content: Vec<ConverseContent>,
}

/// Inference parameters; sampling values are `f32` bit patterns.
#[derive(Clone, Debug, PartialEq)]
pub struct InferenceConfig {
    pub temperature: Option<u32>,
    pub top_p: Option<u32>,
    pub max_tokens: Option<i32>,
    pub stop_sequences: Option<Vec<String>>,
}

/// A tool specification; `input_schema` is JSON text.
#[derive(Clone, Debug, PartialEq)]
pub struct ConverseToolSpec {
    pub name: String,
    pub description: Option<String>,
    pub input_schema: String,
}

#[derive(Clone, Debug, PartialEq)]
pub struct ToolConfig {
    pub tools: Vec<ConverseToolSpec>,
}

/// A request in the structured-turn protocol.
#[derive(Clone, Debug, PartialEq)]
pub struct ConverseRequest {
    pub model_id: String,
    pub messages: Vec<ConverseMessage>,
    pub system: Option<Vec<SystemBlock>>,
    pub inference_config: Option<InferenceConfig>,
    pub tool_config: Option<ToolConfig>,
}

#[derive(Clone, Copy, Debug, PartialEq, Eq, Structural)]
pub enum StopReason {
    EndTurn,
    StopSequence,
    MaxTokens,
    ToolUse,
    GuardrailIntervened,
    ContentFiltered,
    /// Any other native stop reason.
    Other,
}

#[derive(Clone, Copy, Debug, PartialEq, Eq, Structural)]
pub struct TokenUsage {
    pub input_tokens: i32,
    pub output_tokens: i32,
}

/// A native response: the message blocks (absent when the output is not a
/// message), the stop reason and the token usage.
#[derive(Clone, Debug, PartialEq)]
pub struct ConverseOutput {
    pub message: Option<Vec<ConverseContent>>,
    pub stop_reason: StopReason,
    pub usage: Option<TokenUsage>,
}

/// A native stream event.
#[derive(Clone, Debug, PartialEq)]
pub enum ConverseStreamEvent {
    /// An incremental delta of a content block; `None` for non-text deltas.
    ContentBlockDelta(Option<String>),
    MessageStop(StopReason),
    Metadata(Option<TokenUsage>),
    /// Any other event kind.
    Other,
}

/// The model of a content block, over the strings' views.
pub enum BlockModel {
    Text(Seq<char>),
    ToolUse(Seq<char>, Seq<char>, Seq<char>),
    ToolResult(Seq<char>, Seq<char>),
    Other,
}

pub struct TurnModel {
    pub role: ConverseRole,
    pub blocks: Seq<BlockModel>,
}

impl ConverseContent {
    pub open spec fn model(&self) -> BlockModel {
        match self {
            ConverseContent::Text(t) => BlockModel::Text(t@),
            ConverseContent::ToolUse { tool_use_id, name, input } => BlockModel::ToolUse(
                tool_use_id@,
                name@,
                input@,
            ),
            ConverseContent::ToolResult { tool_use_id, text } => BlockModel::ToolResult(
                tool_use_id@,
                text@,
            ),
            ConverseContent::Other => BlockModel::Other,
        }
    }
}

pub open spec fn block_models(v: Seq<ConverseContent>) -> Seq<BlockModel> {
    v.map_values(|c: ConverseContent| c.model())
}

impl ConverseMessage {
    pub open spec fn model(&self) -> TurnModel {
        TurnModel { role: self.role, blocks: block_models(self.content@) }
    }
}

pub open spec fn turn_models(v: Seq<ConverseMessage>) -> Seq<TurnModel> {
    v.map_values(|m: ConverseMessage| m.model())
}

pub open spec fn system_block_texts(v: Seq<SystemBlock>) -> Seq<Seq<char>> {
    v.map_values(|b: SystemBlock| b.text@)
}

/// One tool-use block per function tool call, in order; the arguments are
/// the call's JSON text, or `{}` when that text is not JSON.
pub open spec fn tool_use_blocks(calls: Seq<MessageToolCall>) -> Seq<BlockModel>
    decreases calls.len(),
{
    if calls.len() == 0 {
        seq![]
    } else {
        let rest = tool_use_blocks(calls.drop_last());
        match calls.last() {
            MessageToolCall::Function(tc) => rest.push(
                BlockModel::ToolUse(tc.id@, tc.name@, arguments_or_empty(tc.arguments@)),
            ),
            MessageToolCall::Custom(_) => rest,
        }
    }
}

/// The text block of an assistant turn: one when the text is not empty.
pub open spec fn assistant_text_blocks(content: Option<MessageContent>) -> Seq<BlockModel> {
    match content {
        Some(c) => if content_text(c).len() > 0 {
            seq![BlockModel::Text(content_text(c))]
        } else {
            seq![]
        },
        None => seq![],
    }
}

/// An assistant turn: its text block, then its tool-use blocks.
pub open spec fn assistant_blocks(
    content: Option<MessageContent>,
    calls: Seq<MessageToolCall>,
) -> Seq<BlockModel> {
    assistant_text_blocks(content) + tool_use_blocks(calls)
}

/// The turn that a message becomes, if any: a User message a user turn with
/// its text, an Assistant message an assistant turn (none when it has no
/// block), a Tool message a user turn with a tool result; other kinds none.
pub open spec fn turn_of(m: Message) -> Option<TurnModel> {
    match m {
        Message::User(c) => Some(
            TurnModel { role: ConverseRole::User, blocks: seq![BlockModel::Text(content_text(c))] },
        ),
        Message::Assistant { content, tool_calls } => {
            let b = assistant_blocks(content, tool_calls@);
            if b.len() > 0 {
                Some(TurnModel { role: ConverseRole::Assistant, blocks: b })
            } else {
                None
            }
        },
        Message::Tool { content, tool_call_id } => Some(
            TurnModel {
                role: ConverseRole::User,
                blocks: seq![BlockModel::ToolResult(tool_call_id@, content_text(content))],
            },
        ),
        _ => None,
    }
}

/// The turns of a message sequence, in order.
pub open spec fn converse_turns(msgs: Seq<Message>) -> Seq<TurnModel>
    decreases msgs.len(),
{
    if msgs.len() == 0 {
        seq![]
    } else {
        match turn_of(msgs.last()) {
            Some(t) => converse_turns(msgs.drop_last()).push(t),
            None => converse_turns(msgs.drop_last()),
        }
    }
}

pub open spec fn user_text_turn(t: Seq<char>) -> TurnModel {
    TurnModel { role: ConverseRole::User, blocks: seq![BlockModel::Text(t)] }
}

fn push_tool_uses(calls: &Vec<MessageToolCall>, out: &mut Vec<ConverseContent>)
    ensures
        block_models(final(out)@) == block_models(old(out)@) + tool_use_blocks(calls@),
{
    let mut i: usize = 0;
    while i < calls.len()
        invariant
            i <= calls.len(),
            block_models(out@) == block_models(old(out)@) + tool_use_blocks(
                calls@.subrange(0, i as int),
            ),
        decreases calls.len() - i,
    {
        proof {
            assert(calls@.subrange(0, i + 1).drop_last() =~= calls@.subrange(0, i as int));
        }
        match &calls[i] {
            MessageToolCall::Function(tc) => {
                let input = json_or_empty_object(&tc.arguments);
                let block = ConverseContent::ToolUse {
                    tool_use_id: tc.id.clone(),
                    name: tc.name.clone(),
                    input,
                };
                let ghost prev = out@;
                out.push(block);
                proof {
                    assert(block_models(prev.push(block)) =~= block_models(prev).push(
                        block.model(),
                    ));
                    assert(block_models(out@) =~= block_models(old(out)@) + tool_use_blocks(
                        calls@.subrange(0, i + 1),
                    ));
                }
            },
            MessageToolCall::Custom(_) => {},
        }
        i = i + 1;
    }
    assert(calls@.subrange(0, calls@.len() as int) =~= calls@);
}

/// The turn for one message, if it yields one.
fn message_turn(m: &Message) -> (r: Option<ConverseMessage>)
    ensures
        match r {
            Some(t) => turn_of(*m) == Some(t.model()),
            None => turn_of(*m) is None,
        },
{
    match m {
        Message::User(c) => {
            let text = content_to_text(c);
            let mut content: Vec<ConverseContent> = Vec::new();
            content.push(ConverseContent::Text(text));
            let t = ConverseMessage { role: ConverseRole::User, content };
            assert(block_models(t.content@) =~= seq![BlockModel::Text(content_text(*c))]);
            Some(t)
        },
        Message::Assistant { content, tool_calls } => {
            let mut blocks: Vec<ConverseContent> = Vec::new();
            match content {
                Some(c) => {
                    let text = content_to_text(c);
                    if !text.as_str().is_empty() {
                        blocks.push(ConverseContent::Text(text));
                    }
                },
                None => {},
            }
            assert(block_models(blocks@) =~= assistant_text_blocks(*content));
            push_tool_uses(tool_calls, &mut blocks);
            if blocks.len() > 0 {
                Some(ConverseMessage { role: ConverseRole::Assistant, content: blocks })
            } else {
                None
            }
        },
        Message::Tool { content, tool_call_id } => {
            let text = content_to_text(content);
            let mut blocks: Vec<ConverseContent> = Vec::new();
            blocks.push(ConverseContent::ToolResult { tool_use_id: tool_call_id.clone(), text });
            let t = ConverseMessage { role: ConverseRole::User, content: blocks };
            assert(block_models(t.content@) =~= seq![
                BlockModel::ToolResult(tool_call_id@, content_text(*content)),
            ]);
            Some(t)
        },
        _ => None,
    }
}

/// Splits a message sequence into system blocks (one per System or
/// Developer message, its text) and turns (see `converse_turns`), both in
/// the order of the messages.
pub fn extract_system_and_messages(messages: Vec<Message>) -> (r: Result<
    (Vec<SystemBlock>, Vec<ConverseMessage>),
    CompositeLlmError,
>)
    ensures
        r is Ok,
        system_block_texts(r->Ok_0.0@) == system_texts(messages@),
        turn_models(r->Ok_0.1@) == converse_turns(messages@),
{
    Ok(split_messages(&messages))
}

fn split_messages(messages: &Vec<Message>) -> (r: (Vec<SystemBlock>, Vec<ConverseMessage>))
    ensures
        system_block_texts(r.0@) == system_texts(messages@),
        turn_models(r.1@) == converse_turns(messages@),
{
    let mut system: Vec<SystemBlock> = Vec::new();
    let mut turns: Vec<ConverseMessage> = Vec::new();
    let mut i: usize = 0;
    while i < messages.len()
        invariant
            i <= messages.len(),
            system_block_texts(system@) == system_texts(messages@.subrange(0, i as int)),
            turn_models(turns@) == converse_turns(messages@.subrange(0, i as int)),
        decreases messages.len() - i,
    {
        let ghost pre = messages@.subrange(0, i as int);
        proof {
            assert(messages@.subrange(0, i + 1).drop_last() =~= pre);
            assert(messages@.subrange(0, i + 1).last() == messages@[i as int]);
        }
        let m = &messages[i];
        match m {
            Message::System(c) => {
                let text = content_to_text(c);
                let ghost prev = system@;
                system.push(SystemBlock { text });
                assert(system_block_texts(system@) =~= system_block_texts(prev).push(
                    content_text(*c),
                ));
            },
            Message::Developer(c) => {
                let text = content_to_text(c);
                let ghost prev = system@;
                system.push(SystemBlock { text });
                assert(system_block_texts(system@) =~= system_block_texts(prev).push(
                    content_text(*c),
                ));
            },
            _ => {},
        }
        match message_turn(m) {
            Some(t) => {
                let ghost prev = turns@;
                turns.push(t);
                assert(turn_models(turns@) =~= turn_models(prev).push(t.model()));
            },
            None => {},
        }
        i = i + 1;
    }
    assert(messages@.subrange(0, messages@.len() as int) =~= messages@);
    (system, turns)
}

/// Only System and User messages: one system block per System message and
/// one user turn per User message, holding its text, in order.
pub proof fn lemma_system_and_user_split(msgs: Seq<Message>)
    requires
        only_system_and_user(msgs),
    ensures
        converse_turns(msgs) == user_texts(msgs).map_values(|t: Seq<char>| user_text_turn(t)),
        system_texts(msgs).len() + user_texts(msgs).len() == msgs.len(),
    decreases msgs.len(),
{
    if msgs.len() > 0 {
        let init = msgs.drop_last();
        assert(only_system_and_user(init)) by {
            assert forall|i: int| 0 <= i < init.len() implies (#[trigger] init[i] is System
                || init[i] is User) by {
                assert(init[i] == msgs[i]);
            }
        }
        lemma_system_and_user_split(init);
        assert(msgs.last() == msgs[msgs.len() - 1]);
        assert(converse_turns(msgs) =~= user_texts(msgs).map_values(
            |t: Seq<char>| user_text_turn(t),
        ));
    } else {
        assert(converse_turns(msgs) =~= user_texts(msgs).map_values(
            |t: Seq<char>| user_text_turn(t),
        ));
    }
}

/// Whether a request carries any sampling parameter.
pub open spec fn has_sampling_params(req: ChatRequest) -> bool {
    req.temperature is Some || req.top_p is Some || req.max_completion_tokens is Some
        || req.stop is Some
}

/// The stop sequences that the structured-turn protocol receives: none for
/// an empty list.
pub open spec fn converse_stop(stop: Option<StopSequences>) -> Option<Seq<String>> {
    match stop {
        None => None,
        Some(StopSequences::Single(s)) => Some(seq![s]),
        Some(StopSequences::Many(v)) => if v@.len() == 0 {
            None
        } else {
            Some(v@)
        },
    }
}

pub open spec fn opt_vec_view(o: Option<Vec<String>>) -> Option<Seq<String>> {
    match o {
        Some(v) => Some(v@),
        None => None,
    }
}

pub open spec fn max_tokens_of(m: Option<u32>) -> Option<i32> {
    match m {
        Some(x) => Some(x as i32),
        None => None,
    }
}

/// The inference parameters of a request, mapped one to one; none exactly
/// when the request carries none.
pub open spec fn inference_config_matches(req: ChatRequest, r: Option<InferenceConfig>) -> bool {
    &&& (r is Some <==> has_sampling_params(req))
    &&& r is Some ==> r->Some_0.temperature == req.temperature && r->Some_0.top_p == req.top_p
        && r->Some_0.max_tokens == max_tokens_of(req.max_completion_tokens) && opt_vec_view(
        r->Some_0.stop_sequences,
    ) == converse_stop(req.stop)
}

/// The inference parameters, mapped one to one; `None` exactly when the
/// request carries none.
pub fn build_inference_config(req: &ChatRequest) -> (r: Option<InferenceConfig>)
    ensures
        inference_config_matches(*req, r),
{
    if req.temperature.is_none() && req.top_p.is_none() && req.max_completion_tokens.is_none()
        && req.stop.is_none() {
        return None;
    }
    let max_tokens = match req.max_completion_tokens {
        Some(m) => Some(m as i32),
        None => None,
    };
    let stop_sequences = match &req.stop {
        None => None,
        Some(StopSequences::Single(s)) => {
            let mut v: Vec<String> = Vec::new();
            v.push(s.clone());
            assert(v@ =~= seq![*s]);
            Some(v)
        },
        Some(StopSequences::Many(v)) => {
            if v.len() == 0 {
                None
            } else {
                Some(copy_strings(v))
            }
        },
    };
    Some(InferenceConfig { temperature: req.temperature, top_p: req.top_p, max_tokens, stop_sequences })
}

/// The input schema used for a function tool that declares none.
pub open spec fn default_input_schema() -> Seq<char> {
    "{\"type\":\"object\",\"properties\":{}}"@
}

pub struct ToolSpecModel {
    pub name: Seq<char>,
    pub description: Option<Seq<char>>,
    pub input_schema: Seq<char>,
}

impl ConverseToolSpec {
    pub open spec fn model(&self) -> ToolSpecModel {
        ToolSpecModel {
            name: self.name@,
            description: opt_view(self.description),
            input_schema: self.input_schema@,
        }
    }
}

/// One tool spec per function tool, in order: its name, its description and
/// its parameter schema (or the empty-object schema).
pub open spec fn converse_tool_specs(tools: Seq<ToolSpec>) -> Seq<ToolSpecModel>
    decreases tools.len(),
{
    if tools.len() == 0 {
        seq![]
    } else {
        let rest = converse_tool_specs(tools.drop_last());
        match tools.last() {
            ToolSpec::Function(f) => rest.push(
                ToolSpecModel {
                    name: f.name@,
                    description: opt_view(f.description),
                    input_schema: match f.parameters {
                        Some(p) => p@,
                        None => default_input_schema(),
                    },
                },
            ),
            ToolSpec::Custom(_) => rest,
        }
    }
}

pub open spec fn tool_spec_models(v: Seq<ConverseToolSpec>) -> Seq<ToolSpecModel> {
    v.map_values(|t: ConverseToolSpec| t.model())
}

/// Whether a request lists tools at all.
pub open spec fn has_tools(req: ChatRequest) -> bool {
    req.tools is Some && req.tools->Some_0@.len() > 0
}

/// The tool configuration of a request that has one: one spec per function
/// tool; none for a request without tools.
pub open spec fn tool_config_matches(req: ChatRequest, r: Option<ToolConfig>) -> bool {
    if has_tools(req) {
        r is Some && tool_spec_models(r->Some_0.tools@) == converse_tool_specs(req.tools->Some_0@)
    } else {
        r is None
    }
}

/// The tool configuration: none without tools; an error when tools are
/// listed but none of them is a function (the protocol needs at least one
/// tool spec); else one spec per function tool.
pub fn build_tool_config(req: &ChatRequest) -> (r: Result<Option<ToolConfig>, CompositeLlmError>)
    ensures
        r is Ok <==> build_tool_config_succeeds(*req),
        r is Ok ==> tool_config_matches(*req, r->Ok_0),
        r is Err ==> r->Err_0 is Bedrock,
{
    let tools = match &req.tools {
        Some(t) => t,
        None => {
            return Ok(None);
        },
    };
    if tools.len() == 0 {
        return Ok(None);
    }
    let mut specs: Vec<ConverseToolSpec> = Vec::new();
    let mut i: usize = 0;
    while i < tools.len()
        invariant
            i <= tools.len(),
            tool_spec_models(specs@) == converse_tool_specs(tools@.subrange(0, i as int)),
        decreases tools.len() - i,
    {
        proof {
            assert(tools@.subrange(0, i + 1).drop_last() =~= tools@.subrange(0, i as int));
        }
        match &tools[i] {
            ToolSpec::Function(f) => {
                let input_schema = match &f.parameters {
                    Some(p) => p.clone(),
                    None => {
                        let d = "{\"type\":\"object\",\"properties\":{}}".to_string();
                        d
                    },
                };
                let spec = ConverseToolSpec {
                    name: f.name.clone(),
                    description: copy_opt_string(&f.description),
                    input_schema,
                };
                let ghost prev = specs@;
                specs.push(spec);
                proof {
                    assert(tool_spec_models(specs@) =~= tool_spec_models(prev).push(spec.model()));
                }
            },
            ToolSpec::Custom(_) => {},
        }
        i = i + 1;
    }
    assert(tools@.subrange(0, tools@.len() as int) =~= tools@);
    if specs.len() == 0 {
        return Err(CompositeLlmError::Bedrock("tool configuration needs at least one function tool".to_string()));
    }
    Ok(Some(ToolConfig { tools: specs }))
}

pub open spec fn finish_of_stop(reason: StopReason) -> FinishReason {
    match reason {
        StopReason::EndTurn | StopReason::StopSequence => FinishReason::Stop,
        StopReason::MaxTokens => FinishReason::Length,
        StopReason::ToolUse => FinishReason::ToolCalls,
        _ => FinishReason::Stop,
    }
}

/// end-of-turn and stop-sequence: Stop; max-tokens: Length; tool-use:
/// ToolCalls; anything else: Stop.
pub fn convert_stop_reason(reason: &StopReason) -> (r: FinishReason)
    ensures
        r == finish_of_stop(*reason),
{
    match reason {
        StopReason::EndTurn | StopReason::StopSequence => FinishReason::Stop,
        StopReason::MaxTokens => FinishReason::Length,
        StopReason::ToolUse => FinishReason::ToolCalls,
        _ => FinishReason::Stop,
    }
}

/// Prompt and completion counts as given, their sum as the total.
pub open spec fn usage_of(u: TokenUsage) -> Usage {
    Usage {
        prompt_tokens: u.input_tokens as u32,
        completion_tokens: u.output_tokens as u32,
        total_tokens: (u.input_tokens + u.output_tokens) as u32,
    }
}

fn convert_usage(u: &TokenUsage) -> (r: Usage)
    ensures
        r == usage_of(*u),
{
    let total: i64 = u.input_tokens as i64 + u.output_tokens as i64;
    Usage {
        prompt_tokens: u.input_tokens as u32,
        completion_tokens: u.output_tokens as u32,
        total_tokens: total as u32,
    }
}

/// The concatenated text of the text blocks.
pub open spec fn blocks_text(blocks: Seq<ConverseContent>) -> Seq<char>
    decreases blocks.len(),
{
    if blocks.len() == 0 {
        seq![]
    } else {
        match blocks.last() {
            ConverseContent::Text(t) => blocks_text(blocks.drop_last()) + t@,
            _ => blocks_text(blocks.drop_last()),
        }
    }
}

/// The model of a tool call: id, name, arguments.
pub open spec fn call_model(tc: ToolCall) -> (Seq<char>, Seq<char>, Seq<char>) {
    (tc.id@, tc.name@, tc.arguments@)
}

pub open spec fn call_models(v: Seq<ToolCall>) -> Seq<(Seq<char>, Seq<char>, Seq<char>)> {
    v.map_values(|tc: ToolCall| call_model(tc))
}

/// One tool call per tool-use block model, in order, with its id, name and
/// input taken verbatim.
pub open spec fn calls_of_models(blocks: Seq<BlockModel>) -> Seq<(Seq<char>, Seq<char>, Seq<char>)>
    decreases blocks.len(),
{
    if blocks.len() == 0 {
        seq![]
    } else {
        match blocks.last() {
            BlockModel::ToolUse(id, name, input) => calls_of_models(blocks.drop_last()).push(
                (id, name, input),
            ),
            _ => calls_of_models(blocks.drop_last()),
        }
    }
}

/// What a native message's blocks become: their text and their tool calls.
fn fold_blocks(blocks: &Vec<ConverseContent>) -> (r: (String, Vec<ToolCall>))
    ensures
        r.0@ == blocks_text(blocks@),
        call_models(r.1@) == calls_of_models(block_models(blocks@)),
{
    let mut text = String::new();
    let mut calls: Vec<ToolCall> = Vec::new();
    let mut i: usize = 0;
    while i < blocks.len()
        invariant
            i <= blocks.len(),
            text@ == blocks_text(blocks@.subrange(0, i as int)),
            call_models(calls@) == calls_of_models(block_models(blocks@.subrange(0, i as int))),
        decreases blocks.len() - i,
    {
        proof {
            assert(blocks@.subrange(0, i + 1).drop_last() =~= blocks@.subrange(0, i as int));
            assert(block_models(blocks@.subrange(0, i + 1)).drop_last() =~= block_models(
                blocks@.subrange(0, i as int),
            ));
        }
        match &blocks[i] {
            ConverseContent::Text(t) => {
                text.push_str(t.as_str());
            },
            ConverseContent::ToolUse { tool_use_id, name, input } => {
                let tc = ToolCall {
                    id: tool_use_id.clone(),
                    name: name.clone(),
                    arguments: input.clone(),
                };
                let ghost prev = calls@;
                calls.push(tc);
                proof {
                    assert(call_models(calls@) =~= call_models(prev).push(call_model(tc)));
                }
            },
            _ => {},
        }
        i = i + 1;
    }
    assert(blocks@.subrange(0, blocks@.len() as int) =~= blocks@);
    (text, calls)
}

pub open spec fn opt_usage(u: Option<TokenUsage>) -> Option<Usage> {
    match u {
        Some(x) => Some(usage_of(x)),
        None => None,
    }
}

/// A native response as one unified choice (index 0): the concatenated text
/// (absent when empty), the tool calls (absent when none), the mapped stop
/// reason; usage summed.  The id is fresh, the timestamp the current time.
pub fn convert_converse_response(output: &ConverseOutput, model: &str) -> (r: Result<
    ChatResponse,
    CompositeLlmError,
>)
    ensures
        r is Ok,
        ({
            let resp = r->Ok_0;
            let blocks = match output.message {
                Some(b) => b@,
                None => Seq::empty(),
            };
            let text = blocks_text(blocks);
            let calls = calls_of_models(block_models(blocks));
            &&& is_prefixed_id(resp.id@, chat_cmpl_prefix())
            &&& resp.model@ == model@
            &&& resp.usage == opt_usage(output.usage)
            &&& resp.choices@.len() == 1
            &&& resp.choices@[0].index == 0
            &&& resp.choices@[0].finish_reason == Some(finish_of_stop(output.stop_reason))
            &&& opt_view(resp.choices@[0].message.content) == if text.len() == 0 {
                None::<Seq<char>>
            } else {
                Some(text)
            }
            &&& match resp.choices@[0].message.tool_calls {
                Some(v) => calls.len() > 0 && call_models(v@) == calls,
                None => calls.len() == 0,
            }
        }),
{
    let (text, calls) = match &output.message {
        Some(blocks) => fold_blocks(blocks),
        None => (String::new(), Vec::new()),
    };
    proof {
        assert(call_models(calls@) =~= calls_of_models(block_models(match output.message {
            Some(b) => b@,
            None => Seq::empty(),
        })));
    }
    let finish_reason = convert_stop_reason(&output.stop_reason);
    let content = if text.as_str().is_empty() {
        None
    } else {
        Some(text)
    };
    let tool_calls = if calls.len() == 0 {
        None
    } else {
        Some(calls)
    };
    let usage = match &output.usage {
        Some(u) => Some(convert_usage(u)),
        None => None,
    };
    let mut choices: Vec<ChatChoice> = Vec::new();
    choices.push(
        ChatChoice {
            index: 0,
            message: ResponseMessage { content, tool_calls },
            finish_reason: Some(finish_reason),
        },
    );
    Ok(
        ChatResponse {
            id: generate_chat_cmpl_id(),
            created: unix_timestamp(),
            model: model.to_string(),
            choices,
            usage,
        },
    )
}

/// The stream chunk of one native event, if the event yields one: a text
/// delta gives a chunk with only that content, a stop a chunk with only the
/// mapped finish reason, metadata with usage a chunk with only the usage and
/// no choice; other events none.
pub open spec fn event_chunk_shape(event: ConverseStreamEvent, c: StreamChunk) -> bool {
    match event {
        ConverseStreamEvent::ContentBlockDelta(Some(t)) => c.choices@.len() == 1
            && c.choices@[0].index == 0 && opt_view(c.choices@[0].delta.content) == Some(t@)
            && c.choices@[0].delta.role is None && c.choices@[0].finish_reason is None
            && c.usage is None,
        ConverseStreamEvent::MessageStop(reason) => c.choices@.len() == 1
            && c.choices@[0].index == 0 && c.choices@[0].delta.content is None
            && c.choices@[0].delta.role is None && c.choices@[0].finish_reason == Some(
            finish_of_stop(reason),
        ) && c.usage is None,
        ConverseStreamEvent::Metadata(Some(u)) => c.choices@.len() == 0 && c.usage == Some(
            usage_of(u),
        ),
        _ => false,
    }
}

pub open spec fn event_yields_chunk(event: ConverseStreamEvent) -> bool {
    match event {
        ConverseStreamEvent::ContentBlockDelta(d) => d is Some,
        ConverseStreamEvent::MessageStop(_) => true,
        ConverseStreamEvent::Metadata(u) => u is Some,
        ConverseStreamEvent::Other => false,
    }
}

fn stream_chunk(id: &str, model: &str, choices: Vec<StreamChoice>, usage: Option<Usage>) -> (r:
    StreamChunk)
    ensures
        r.id@ == id@,
        r.model@ == model@,
        r.choices == choices,
        r.usage == usage,
{
    StreamChunk { id: id.to_string(), created: unix_timestamp(), model: model.to_string(), choices, usage }
}

/// Converts one native stream event; every chunk carries the stream's id.
pub fn stream_event_to_response(event: &ConverseStreamEvent, model: &str, id: &str) -> (r: Option<
    StreamChunk,
>)
    ensures
        r is Some <==> event_yields_chunk(*event),
        r is Some ==> event_chunk_shape(*event, r->Some_0) && r->Some_0.id@ == id@
            && r->Some_0.model@ == model@,
{
    match event {
        ConverseStreamEvent::ContentBlockDelta(Some(t)) => {
            let mut choices: Vec<StreamChoice> = Vec::new();
            choices.push(
                StreamChoice {
                    index: 0,
                    delta: StreamDelta { content: Some(t.clone()), role: None },
                    finish_reason: None,
                },
            );
            Some(stream_chunk(id, model, choices, None))
        },
        ConverseStreamEvent::MessageStop(reason) => {
            let mut choices: Vec<StreamChoice> = Vec::new();
            choices.push(
                StreamChoice {
                    index: 0,
                    delta: StreamDelta { content: None, role: None },
                    finish_reason: Some(convert_stop_reason(reason)),
                },
            );
            Some(stream_chunk(id, model, choices, None))
        },
        ConverseStreamEvent::Metadata(Some(u)) => {
            let usage = convert_usage(u);
            Some(stream_chunk(id, model, Vec::new(), Some(usage)))
        },
        _ => None,
    }
}

/// What the push-loop bridge does with one outcome of the native receive
/// loop.
pub enum RelayStep {
    /// Send this chunk to the consumer.
    Forward(StreamChunk),
    /// The event yields no chunk: receive the next one.
    Skip,
    /// The native stream is over: close the queue.
    Close,
    /// Send this error once, then close the queue.
    Fail(CompositeLlmError),
}

/// Decides on one receive outcome: an event is converted (and skipped when
/// it yields no chunk), the end of the native stream closes the queue, and
/// an error is forwarded once before closing.
pub fn relay_step(
    received: Result<Option<ConverseStreamEvent>, String>,
    model: &str,
    id: &str,
) -> (r: RelayStep)
    ensures
        match received {
            Ok(Some(ev)) => if event_yields_chunk(ev) {
                r is Forward && event_chunk_shape(ev, r->Forward_0) && r->Forward_0.id@ == id@
                    && r->Forward_0.model@ == model@
            } else {
                r is Skip
            },
            Ok(None) => r is Close,
            Err(msg) => r is Fail && r->Fail_0 == CompositeLlmError::Bedrock(msg),
        },
{
    match received {
        Ok(Some(ev)) => match stream_event_to_response(&ev, model, id) {
            Some(chunk) => RelayStep::Forward(chunk),
            None => RelayStep::Skip,
        },
        Ok(None) => RelayStep::Close,
        Err(msg) => RelayStep::Fail(CompositeLlmError::Bedrock(msg)),
    }
}

/// A tool call whose arguments are JSON comes back unchanged: sent as a
/// tool-use block and read back from a response holding that block, it has
/// the same id, name and argument text.
pub proof fn lemma_tool_call_round_trip(tc: ToolCall)
    requires
        crate::json::is_json_text(tc.arguments@),
    ensures
        calls_of_models(tool_use_blocks(seq![MessageToolCall::Function(tc)])) == seq![
            call_model(tc),
        ],
{
    let calls = seq![MessageToolCall::Function(tc)];
    assert(calls.drop_last() =~= Seq::<MessageToolCall>::empty());
    assert(calls.last() == MessageToolCall::Function(tc));
    assert(tool_use_blocks(Seq::<MessageToolCall>::empty()) =~= Seq::<BlockModel>::empty());
    assert(arguments_or_empty(tc.arguments@) == tc.arguments@);
    let blocks = tool_use_blocks(calls);
    assert(blocks == tool_use_blocks(calls.drop_last()).push(
        BlockModel::ToolUse(tc.id@, tc.name@, arguments_or_empty(tc.arguments@)),
    ));
    assert(blocks =~= seq![BlockModel::ToolUse(tc.id@, tc.name@, tc.arguments@)]);
    assert(blocks.drop_last() =~= Seq::<BlockModel>::empty());
    assert(calls_of_models(Seq::<BlockModel>::empty()) =~= seq![]);
    assert(calls_of_models(blocks) =~= seq![call_model(tc)]);
}

/// Assembles the native request: turns, system blocks (absent when there
/// are none), inference parameters and tool configuration; fails when the
/// tool configuration does.
pub fn build_converse_request(req: &ChatRequest, model_id: &str) -> (r: Result<
    ConverseRequest,
    CompositeLlmError,
>)
    ensures
        r is Ok <==> build_tool_config_succeeds(*req),
        r is Ok ==> {
            let c = r->Ok_0;
            &&& c.model_id@ == model_id@
            &&& turn_models(c.messages@) == converse_turns(req.messages@)
            &&& match c.system {
                Some(b) => system_texts(req.messages@).len() > 0 && system_block_texts(b@)
                    == system_texts(req.messages@),
                None => system_texts(req.messages@).len() == 0,
            }
            &&& inference_config_matches(*req, c.inference_config)
            &&& tool_config_matches(*req, c.tool_config)
        },
        r is Err ==> r->Err_0 is Bedrock,
{
    let (system, messages) = split_messages(&req.messages);
    let inference_config = build_inference_config(req);
    let tool_config = match build_tool_config(req) {
        Ok(t) => t,
        Err(e) => {
            return Err(e);
        },
    };
    let system = if system.len() == 0 {
        None
    } else {
        Some(system)
    };
    Ok(
        ConverseRequest {
            model_id: model_id.to_string(),
            messages,
            system,
            inference_config,
            tool_config,
        },
    )
}

/// Whether the tool configuration of a request can be built.
pub open spec fn build_tool_config_succeeds(req: ChatRequest) -> bool {
    !has_tools(req) || converse_tool_specs(req.tools->Some_0@).len() > 0
}

} // verus!
