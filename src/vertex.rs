//! Conversion between the unified schema and the contents/parts protocol.
//!
//! JSON values (function arguments, function responses, parameter schemas)
//! travel as JSON text.
use vstd::prelude::*;
use crate::content::content_to_text;
use crate::converse::{has_sampling_params, opt_vec_view};
use crate::error::CompositeLlmError;
use crate::ids::{
    generate_chat_cmpl_id, generate_tool_call_id, unix_timestamp, is_prefixed_id, chat_cmpl_prefix,
    tool_call_prefix,
};
use crate::json::{arguments_or_empty, tool_response_json, json_or_empty_object, json_or_result_object};
use crate::schema::{
    ChatChoice, ChatRequest, ChatResponse, FinishReason, Message, MessageContent,
    MessageToolCall, ResponseFormat, ResponseMessage, Role, StopSequences, StreamChoice,
    StreamChunk, StreamDelta, ToolCall, ToolChoice, ToolSpec, Usage, content_text, system_texts,
    opt_view,
};
use crate::text::{copy_strings, copy_opt_string};

verus! {

#[derive(Clone, Debug, PartialEq)]
pub struct VertexRequest {
    pub contents: Vec<VertexContent>,
    pub system_instruction: Option<VertexContent>,
    pub generation_config: Option<GenerationConfig>,
    pub tools: Option<Vec<VertexTool>>,
    pub tool_config: Option<VertexToolConfig>,
}

#[derive(Clone, Debug, PartialEq)]
pub struct VertexContent {
    pub role: String,
    pub parts: Vec<VertexPart>,
}

#[derive(Clone, Debug, PartialEq)]
pub struct VertexPart {
    pub text: Option<String>,
    pub function_call: Option<VertexFunctionCall>,
    pub function_response: Option<VertexFunctionResponse>,
}

/// A function call; `args` is JSON text.
#[derive(Clone, Debug, PartialEq)]
pub struct VertexFunctionCall {
    pub name: String,
    pub args: String,
}

/// A function result; `response` is JSON text.
#[derive(Clone, Debug, PartialEq)]
pub struct VertexFunctionResponse {
    pub name: String,
    pub response: String,
}

/// Generation parameters; sampling values are `f32` bit patterns.
#[derive(Clone, Debug, PartialEq)]
pub struct GenerationConfig {
    pub temperature: Option<u32>,
    pub top_p: Option<u32>,
    pub max_output_tokens: Option<u32>,
    pub stop_sequences: Option<Vec<String>>,
    pub response_mime_type: Option<String>,
}

#[derive(Clone, Debug, PartialEq)]
pub struct VertexTool {
    pub function_declarations: Vec<VertexFunctionDeclaration>,
}

/// A function declaration; `parameters` is JSON text.
#[derive(Clone, Debug, PartialEq)]
pub struct VertexFunctionDeclaration {
    pub name: String,
    pub description: Option<String>,
    pub parameters: Option<String>,
}

#[derive(Clone, Debug, PartialEq)]
pub struct VertexToolConfig {
    pub function_calling_config: FunctionCallingConfig,
}

#[derive(Clone, Debug, PartialEq)]
pub struct FunctionCallingConfig {
    pub mode: String,
}

#[derive(Clone, Debug, PartialEq)]
pub struct VertexResponse {
    pub candidates: Option<Vec<VertexCandidate>>,
    pub usage_metadata: Option<VertexUsageMetadata>,
}

#[derive(Clone, Debug, PartialEq)]
pub struct VertexCandidate {
    pub content: Option<VertexContent>,
    pub finish_reason: Option<String>,
}

#[derive(Clone, Copy, Debug, PartialEq, Eq, Structural)]
pub struct VertexUsageMetadata {
    pub prompt_token_count: Option<u32>,
    pub candidates_token_count: Option<u32>,
    pub total_token_count: Option<u32>,
}

/// The model of a part, over the strings' views: its text, its function
/// call (name, arguments) and its function response (name, response).
pub struct PartModel {
    pub text: Option<Seq<char>>,
    pub call: Option<(Seq<char>, Seq<char>)>,
    pub response: Option<(Seq<char>, Seq<char>)>,
}

pub struct ContentModel {
    pub role: Seq<char>,
    pub parts: Seq<PartModel>,
}

impl VertexPart {
    pub open spec fn model(&self) -> PartModel {
        PartModel {
            text: opt_view(self.text),
            call: match self.function_call {
                Some(c) => Some((c.name@, c.args@)),
                None => None,
            },
            response: match self.function_response {
                Some(r) => Some((r.name@, r.response@)),
                None => None,
            },
        }
    }
}

pub open spec fn part_models(v: Seq<VertexPart>) -> Seq<PartModel> {
    v.map_values(|p: VertexPart| p.model())
}

impl VertexContent {
    pub open spec fn model(&self) -> ContentModel {
        ContentModel { role: self.role@, parts: part_models(self.parts@) }
    }
}

pub open spec fn content_models(v: Seq<VertexContent>) -> Seq<ContentModel> {
    v.map_values(|c: VertexContent| c.model())
}

pub open spec fn user_role() -> Seq<char> {
    seq!['u', 's', 'e', 'r']
}

pub open spec fn model_role() -> Seq<char> {
    seq!['m', 'o', 'd', 'e', 'l']
}

pub open spec fn text_part(t: Seq<char>) -> PartModel {
    PartModel { text: Some(t), call: None, response: None }
}

/// One function-call part per function tool call, in order, with the
/// arguments as JSON (an empty object when the text is not JSON).
pub open spec fn call_parts(calls: Seq<MessageToolCall>) -> Seq<PartModel>
    decreases calls.len(),
{
    if calls.len() == 0 {
        seq![]
    } else {
        let rest = call_parts(calls.drop_last());
        match calls.last() {
            MessageToolCall::Function(tc) => rest.push(
                PartModel {
                    text: None,
                    call: Some((tc.name@, arguments_or_empty(tc.arguments@))),
                    response: None,
                },
            ),
            MessageToolCall::Custom(_) => rest,
        }
    }
}

pub open spec fn model_text_parts(content: Option<MessageContent>) -> Seq<PartModel> {
    match content {
        Some(c) => if content_text(c).len() > 0 {
            seq![text_part(content_text(c))]
        } else {
            seq![]
        },
        None => seq![],
    }
}

/// The content entry that a message becomes, if any: User a "user" entry
/// with its text, Assistant a "model" entry with its text (when not empty)
/// and its function calls (none when it has no part), Tool a "user" entry
/// with a function response named by the tool-call id; other kinds none.
pub open spec fn vertex_content_of(m: Message) -> Option<ContentModel> {
    match m {
        Message::User(c) => Some(
            ContentModel { role: user_role(), parts: seq![text_part(content_text(c))] },
        ),
        Message::Assistant { content, tool_calls } => {
            let parts = model_text_parts(content) + call_parts(tool_calls@);
            if parts.len() > 0 {
                Some(ContentModel { role: model_role(), parts })
            } else {
                None
            }
        },
        Message::Tool { content, tool_call_id } => Some(
            ContentModel {
                role: user_role(),
                parts: seq![
                    PartModel {
                        text: None,
                        call: None,
                        response: Some((tool_call_id@, tool_response_json(content_text(content)))),
                    },
                ],
            },
        ),
        _ => None,
    }
}

pub open spec fn vertex_contents(msgs: Seq<Message>) -> Seq<ContentModel>
    decreases msgs.len(),
{
    if msgs.len() == 0 {
        seq![]
    } else {
        match vertex_content_of(msgs.last()) {
            Some(c) => vertex_contents(msgs.drop_last()).push(c),
            None => vertex_contents(msgs.drop_last()),
        }
    }
}

/// The system instruction: a "user" entry with one text part per System or
/// Developer message, or none when there is no such message.
pub open spec fn system_instruction_of(msgs: Seq<Message>) -> Option<ContentModel> {
    let texts = system_texts(msgs);
    if texts.len() == 0 {
        None
    } else {
        Some(
            ContentModel {
                role: user_role(),
                parts: texts.map_values(|t: Seq<char>| text_part(t)),
            },
        )
    }
}

fn role_text(user: bool) -> (r: String)
    ensures
        r@ == if user {
            user_role()
        } else {
            model_role()
        },
{
    let r = if user {
        "user".to_string()
    } else {
        "model".to_string()
    };
    proof {
        reveal_strlit("user");
        reveal_strlit("model");
    }
    r
}

fn text_only_part(text: String) -> (r: VertexPart)
    ensures
        r.model() == text_part(text@),
{
    VertexPart { text: Some(text), function_call: None, function_response: None }
}

fn push_call_parts(calls: &Vec<MessageToolCall>, out: &mut Vec<VertexPart>)
    ensures
        part_models(final(out)@) == part_models(old(out)@) + call_parts(calls@),
{
    let mut i: usize = 0;
    while i < calls.len()
        invariant
            i <= calls.len(),
            part_models(out@) == part_models(old(out)@) + call_parts(calls@.subrange(0, i as int)),
        decreases calls.len() - i,
    {
        proof {
            assert(calls@.subrange(0, i + 1).drop_last() =~= calls@.subrange(0, i as int));
        }
        match &calls[i] {
            MessageToolCall::Function(tc) => {
                let args = json_or_empty_object(&tc.arguments);
                let part = VertexPart {
                    text: None,
                    function_call: Some(VertexFunctionCall { name: tc.name.clone(), args }),
                    function_response: None,
                };
                let ghost prev = out@;
                out.push(part);
                proof {
                    assert(part_models(prev.push(part)) =~= part_models(prev).push(part.model()));
                    assert(part_models(out@) =~= part_models(old(out)@) + call_parts(
                        calls@.subrange(0, i + 1),
                    ));
                }
            },
            MessageToolCall::Custom(_) => {},
        }
        i = i + 1;
    }
    assert(calls@.subrange(0, calls@.len() as int) =~= calls@);
}

fn message_content(m: &Message) -> (r: Option<VertexContent>)
    ensures
        match r {
            Some(c) => vertex_content_of(*m) == Some(c.model()),
            None => vertex_content_of(*m) is None,
        },
{
    match m {
        Message::User(c) => {
            let mut parts: Vec<VertexPart> = Vec::new();
            parts.push(text_only_part(content_to_text(c)));
            let r = VertexContent { role: role_text(true), parts };
            assert(part_models(r.parts@) =~= seq![text_part(content_text(*c))]);
            Some(r)
        },
        Message::Assistant { content, tool_calls } => {
            let mut parts: Vec<VertexPart> = Vec::new();
            match content {
                Some(c) => {
                    let text = content_to_text(c);
                    if !text.as_str().is_empty() {
                        parts.push(text_only_part(text));
                    }
                },
                None => {},
            }
            assert(part_models(parts@) =~= model_text_parts(*content));
            push_call_parts(tool_calls, &mut parts);
            if parts.len() > 0 {
                Some(VertexContent { role: role_text(false), parts })
            } else {
                None
            }
        },
        Message::Tool { content, tool_call_id } => {
            let text = content_to_text(content);
            let response = json_or_result_object(&text);
            let mut parts: Vec<VertexPart> = Vec::new();
            parts.push(
                VertexPart {
                    text: None,
                    function_call: None,
                    function_response: Some(
                        VertexFunctionResponse { name: tool_call_id.clone(), response },
                    ),
                },
            );
            let r = VertexContent { role: role_text(true), parts };
            assert(part_models(r.parts@) =~= seq![
                PartModel {
                    text: None,
                    call: None,
                    response: Some((tool_call_id@, tool_response_json(content_text(*content)))),
                },
            ]);
            Some(r)
        },
        _ => None,
    }
}

/// Whether a request asks for a generation-config block: any sampling
/// parameter or a response-format hint.
pub open spec fn has_generation_params(req: ChatRequest) -> bool {
    has_sampling_params(req) || req.response_format is Some
}

pub open spec fn vertex_stop(stop: Option<StopSequences>) -> Option<Seq<String>> {
    match stop {
        None => None,
        Some(StopSequences::Single(s)) => Some(seq![s]),
        Some(StopSequences::Many(v)) => Some(v@),
    }
}

pub open spec fn json_mime_type() -> Seq<char> {
    "application/json"@
}

/// A JSON response format asks for the JSON mime type; other hints none.
pub open spec fn mime_type_of(f: Option<ResponseFormat>) -> Option<Seq<char>> {
    match f {
        Some(ResponseFormat::JsonObject) | Some(ResponseFormat::JsonSchema) => Some(
            json_mime_type(),
        ),
        _ => None,
    }
}

/// The generation parameters of a request, mapped one to one; none exactly
/// when it carries no sampling parameter and no response-format hint.
pub open spec fn generation_config_matches(req: ChatRequest, r: Option<GenerationConfig>) -> bool {
    &&& (r is Some <==> has_generation_params(req))
    &&& r is Some ==> {
        let g = r->Some_0;
        &&& g.temperature == req.temperature
        &&& g.top_p == req.top_p
        &&& g.max_output_tokens == req.max_completion_tokens
        &&& opt_vec_view(g.stop_sequences) == vertex_stop(req.stop)
        &&& opt_view(g.response_mime_type) == mime_type_of(req.response_format)
    }
}

/// The generation parameters, mapped one to one; `None` exactly when the
/// request carries no sampling parameter and no response-format hint.
pub fn build_generation_config(req: &ChatRequest) -> (r: Option<GenerationConfig>)
    ensures
        generation_config_matches(*req, r),
{
    if req.temperature.is_none() && req.top_p.is_none() && req.max_completion_tokens.is_none()
        && req.stop.is_none() && req.response_format.is_none() {
        return None;
    }
    let stop_sequences = match &req.stop {
        None => None,
        Some(StopSequences::Single(s)) => {
            let mut v: Vec<String> = Vec::new();
            v.push(s.clone());
            assert(v@ =~= seq![*s]);
            Some(v)
        },
        Some(StopSequences::Many(v)) => Some(copy_strings(v)),
    };
    let response_mime_type = match req.response_format {
        Some(ResponseFormat::JsonObject) | Some(ResponseFormat::JsonSchema) => {
            let m = "application/json".to_string();
            Some(m)
        },
        _ => None,
    };
    Some(
        GenerationConfig {
            temperature: req.temperature,
            top_p: req.top_p,
            max_output_tokens: req.max_completion_tokens,
            stop_sequences,
            response_mime_type,
        },
    )
}

pub struct DeclarationModel {
    pub name: Seq<char>,
    pub description: Option<Seq<char>>,
    pub parameters: Option<Seq<char>>,
}

impl VertexFunctionDeclaration {
    pub open spec fn model(&self) -> DeclarationModel {
        DeclarationModel {
            name: self.name@,
            description: opt_view(self.description),
            parameters: opt_view(self.parameters),
        }
    }
}

pub open spec fn declaration_models(v: Seq<VertexFunctionDeclaration>) -> Seq<DeclarationModel> {
    v.map_values(|d: VertexFunctionDeclaration| d.model())
}

/// One declaration per function tool, in order, fields taken as they are.
pub open spec fn function_declarations(tools: Seq<ToolSpec>) -> Seq<DeclarationModel>
    decreases tools.len(),
{
    if tools.len() == 0 {
        seq![]
    } else {
        let rest = function_declarations(tools.drop_last());
        match tools.last() {
            ToolSpec::Function(f) => rest.push(
                DeclarationModel {
                    name: f.name@,
                    description: opt_view(f.description),
                    parameters: opt_view(f.parameters),
                },
            ),
            ToolSpec::Custom(_) => rest,
        }
    }
}

pub open spec fn tool_declarations_of(req: ChatRequest) -> Seq<DeclarationModel> {
    match req.tools {
        Some(t) => function_declarations(t@),
        None => seq![],
    }
}

/// All function tools as one grouped declaration block; none when the
/// request has no function tool.
pub open spec fn vertex_tools_match(req: ChatRequest, r: Option<Vec<VertexTool>>) -> bool {
    &&& (r is Some <==> tool_declarations_of(req).len() > 0)
    &&& r is Some ==> r->Some_0@.len() == 1 && declaration_models(
        r->Some_0@[0].function_declarations@,
    ) == tool_declarations_of(req)
}

pub fn build_vertex_tools(req: &ChatRequest) -> (r: Option<Vec<VertexTool>>)
    ensures
        vertex_tools_match(*req, r),
{
    let tools = match &req.tools {
        Some(t) => t,
        None => {
            return None;
        },
    };
    let mut decls: Vec<VertexFunctionDeclaration> = Vec::new();
    let mut i: usize = 0;
    while i < tools.len()
        invariant
            i <= tools.len(),
            declaration_models(decls@) == function_declarations(tools@.subrange(0, i as int)),
        decreases tools.len() - i,
    {
        proof {
            assert(tools@.subrange(0, i + 1).drop_last() =~= tools@.subrange(0, i as int));
        }
        match &tools[i] {
            ToolSpec::Function(f) => {
                let d = VertexFunctionDeclaration {
                    name: f.name.clone(),
                    description: copy_opt_string(&f.description),
                    parameters: copy_opt_string(&f.parameters),
                };
                let ghost prev = decls@;
                decls.push(d);
                proof {
                    assert(declaration_models(decls@) =~= declaration_models(prev).push(d.model()));
                }
            },
            ToolSpec::Custom(_) => {},
        }
        i = i + 1;
    }
    assert(tools@.subrange(0, tools@.len() as int) =~= tools@);
    if decls.len() == 0 {
        None
    } else {
        let mut v: Vec<VertexTool> = Vec::new();
        v.push(VertexTool { function_declarations: decls });
        Some(v)
    }
}

/// The calling mode of a tool-choice policy.
pub open spec fn calling_mode(c: ToolChoice) -> Seq<char> {
    match c {
        ToolChoice::Off => "NONE"@,
        ToolChoice::Auto => "AUTO"@,
        ToolChoice::Required => "ANY"@,
        ToolChoice::Function(_) => "ANY"@,
        _ => "AUTO"@,
    }
}

/// The tool config of a request with a tool-choice policy: its calling mode.
pub open spec fn vertex_tool_config_matches(req: ChatRequest, r: Option<VertexToolConfig>) -> bool {
    &&& (r is Some <==> req.tool_choice is Some)
    &&& r is Some ==> r->Some_0.function_calling_config.mode@ == calling_mode(
        req.tool_choice->Some_0,
    )
}

/// The calling mode: none forbids calls, auto lets the model choose,
/// required or a forced function asks for a call; other policies auto.
pub fn build_vertex_tool_config(req: &ChatRequest) -> (r: Option<VertexToolConfig>)
    ensures
        vertex_tool_config_matches(*req, r),
{
    match &req.tool_choice {
        None => None,
        Some(tc) => {
            let mode = match tc {
                ToolChoice::Off => "NONE".to_string(),
                ToolChoice::Auto => "AUTO".to_string(),
                ToolChoice::Required => "ANY".to_string(),
                ToolChoice::Function(_) => "ANY".to_string(),
                _ => "AUTO".to_string(),
            };
            Some(VertexToolConfig { function_calling_config: FunctionCallingConfig { mode } })
        },
    }
}

/// Converts a unified request: contents per `vertex_contents`, the system
/// instruction, generation parameters, tools and tool config.
pub fn convert_request(req: &ChatRequest) -> (r: Result<VertexRequest, CompositeLlmError>)
    ensures
        r is Ok,
        content_models(r->Ok_0.contents@) == vertex_contents(req.messages@),
        match r->Ok_0.system_instruction {
            Some(c) => system_instruction_of(req.messages@) == Some(c.model()),
            None => system_instruction_of(req.messages@) is None,
        },
        generation_config_matches(*req, r->Ok_0.generation_config),
        vertex_tools_match(*req, r->Ok_0.tools),
        vertex_tool_config_matches(*req, r->Ok_0.tool_config),
{
    let messages = &req.messages;
    let mut contents: Vec<VertexContent> = Vec::new();
    let mut system_parts: Vec<VertexPart> = Vec::new();
    let mut i: usize = 0;
    while i < messages.len()
        invariant
            i <= messages.len(),
            messages == &req.messages,
            part_models(system_parts@) == system_texts(messages@.subrange(0, i as int)).map_values(
                |t: Seq<char>| text_part(t),
            ),
            content_models(contents@) == vertex_contents(messages@.subrange(0, i as int)),
        decreases messages.len() - i,
    {
        let ghost pre = messages@.subrange(0, i as int);
        proof {
            assert(messages@.subrange(0, i + 1).drop_last() =~= pre);
            assert(messages@.subrange(0, i + 1).last() == messages@[i as int]);
        }
        let m = &messages[i];
        match m {
            Message::System(c) | Message::Developer(c) => {
                let part = text_only_part(content_to_text(c));
                let ghost prev = system_parts@;
                system_parts.push(part);
                assert(crate::schema::system_text(*m) == content_text(*c));
                assert(system_texts(messages@.subrange(0, i + 1)) == system_texts(pre).push(
                    content_text(*c),
                ));
                assert(part_models(system_parts@) =~= part_models(prev).push(part.model()));
                assert(part_models(system_parts@) =~= system_texts(
                    messages@.subrange(0, i + 1),
                ).map_values(|t: Seq<char>| text_part(t)));
            },
            _ => {
                assert(system_texts(messages@.subrange(0, i + 1)) == system_texts(pre));
            },
        }
        match message_content(m) {
            Some(c) => {
                let ghost prev = contents@;
                contents.push(c);
                assert(content_models(contents@) =~= content_models(prev).push(c.model()));
            },
            None => {},
        }
        i = i + 1;
    }
    assert(messages@.subrange(0, messages@.len() as int) =~= messages@);
    let system_instruction = if system_parts.len() == 0 {
        None
    } else {
        Some(VertexContent { role: role_text(true), parts: system_parts })
    };
    Ok(
        VertexRequest {
            contents,
            system_instruction,
            generation_config: build_generation_config(req),
            tools: build_vertex_tools(req),
            tool_config: build_vertex_tool_config(req),
        },
    )
}

/// "STOP": Stop, "MAX_TOKENS": Length, "SAFETY": ContentFilter; any other
/// native reason: Stop.
pub open spec fn finish_of_native(reason: Seq<char>) -> FinishReason {
    if reason == "MAX_TOKENS"@ {
        FinishReason::Length
    } else if reason == "SAFETY"@ {
        FinishReason::ContentFilter
    } else {
        FinishReason::Stop
    }
}

fn same_text(a: &str, b: &str) -> (r: bool)
    ensures
        r == (a@ == b@),
{
    let x = a.to_string();
    let y = b.to_string();
    x.eq(&y)
}

pub fn convert_finish_reason(reason: &str) -> (r: FinishReason)
    ensures
        r == finish_of_native(reason@),
{
    if same_text(reason, "STOP") {
        proof {
            reveal_strlit("STOP");
            reveal_strlit("MAX_TOKENS");
            reveal_strlit("SAFETY");
            assert(reason@ != "MAX_TOKENS"@ && reason@ != "SAFETY"@) by {
                if reason@ == "MAX_TOKENS"@ {
                    assert(reason@.len() == 10);
                }
                if reason@ == "SAFETY"@ {
                    assert(reason@[0] == 'S' && reason@[1] == 'A');
                    assert("STOP"@[1] == 'T');
                }
            }
        }
        FinishReason::Stop
    } else if same_text(reason, "MAX_TOKENS") {
        FinishReason::Length
    } else if same_text(reason, "SAFETY") {
        FinishReason::ContentFilter
    } else {
        FinishReason::Stop
    }
}

pub open spec fn opt_finish(reason: Option<String>) -> Option<FinishReason> {
    match reason {
        Some(r) => Some(finish_of_native(r@)),
        None => None,
    }
}

/// The concatenated texts of the parts.
pub open spec fn parts_text(parts: Seq<VertexPart>) -> Seq<char>
    decreases parts.len(),
{
    if parts.len() == 0 {
        seq![]
    } else {
        match parts.last().text {
            Some(t) => parts_text(parts.drop_last()) + t@,
            None => parts_text(parts.drop_last()),
        }
    }
}

/// The function calls of the parts, in order: name and arguments.
pub open spec fn parts_calls(parts: Seq<VertexPart>) -> Seq<(Seq<char>, Seq<char>)>
    decreases parts.len(),
{
    if parts.len() == 0 {
        seq![]
    } else {
        match parts.last().function_call {
            Some(c) => parts_calls(parts.drop_last()).push((c.name@, c.args@)),
            None => parts_calls(parts.drop_last()),
        }
    }
}

pub open spec fn candidate_parts(c: VertexCandidate) -> Seq<VertexPart> {
    match c.content {
        Some(content) => content.parts@,
        None => seq![],
    }
}

/// Each call has a fresh `call_` id and the given name and arguments.
pub open spec fn calls_match(calls: Seq<ToolCall>, expected: Seq<(Seq<char>, Seq<char>)>) -> bool {
    &&& calls.len() == expected.len()
    &&& forall|i: int|
        0 <= i < calls.len() ==> #[trigger] calls[i].name@ == expected[i].0
            && calls[i].arguments@ == expected[i].1 && is_prefixed_id(
            calls[i].id@,
            tool_call_prefix(),
        )
}

/// The text of a candidate and its tool calls.
fn extract_parts(candidate: &VertexCandidate) -> (r: (String, Vec<ToolCall>))
    ensures
        r.0@ == parts_text(candidate_parts(*candidate)),
        calls_match(r.1@, parts_calls(candidate_parts(*candidate))),
{
    let mut text = String::new();
    let mut calls: Vec<ToolCall> = Vec::new();
    match &candidate.content {
        None => {
            assert(calls_match(calls@, parts_calls(Seq::empty())));
        },
        Some(content) => {
            let parts = &content.parts;
            let mut i: usize = 0;
            while i < parts.len()
                invariant
                    i <= parts.len(),
                    parts@ == candidate_parts(*candidate),
                    text@ == parts_text(parts@.subrange(0, i as int)),
                    calls_match(calls@, parts_calls(parts@.subrange(0, i as int))),
                decreases parts.len() - i,
            {
                proof {
                    assert(parts@.subrange(0, i + 1).drop_last() =~= parts@.subrange(0, i as int));
                    assert(parts@.subrange(0, i + 1).last() == parts@[i as int]);
                }
                let part = &parts[i];
                match &part.text {
                    Some(t) => {
                        text.push_str(t.as_str());
                    },
                    None => {},
                }
                match &part.function_call {
                    Some(fc) => {
                        let tc = ToolCall {
                            id: generate_tool_call_id(),
                            name: fc.name.clone(),
                            arguments: fc.args.clone(),
                        };
                        let ghost prev = calls@;
                        calls.push(tc);
                        proof {
                            let exp = parts_calls(parts@.subrange(0, i + 1));
                            assert(exp == parts_calls(parts@.subrange(0, i as int)).push(
                                (fc.name@, fc.args@),
                            ));
                            assert forall|k: int| 0 <= k < calls@.len() implies #[trigger] calls@[k].name@
                                == exp[k].0 && calls@[k].arguments@ == exp[k].1 && is_prefixed_id(
                                calls@[k].id@,
                                tool_call_prefix(),
                            ) by {
                                if k < prev.len() {
                                    assert(calls@[k] == prev[k]);
                                }
                            }
                        }
                    },
                    None => {},
                }
                i = i + 1;
            }
            assert(parts@.subrange(0, parts@.len() as int) =~= parts@);
        },
    }
    (text, calls)
}

/// Missing counts read as zero.
pub open spec fn vertex_usage_of(u: VertexUsageMetadata) -> Usage {
    Usage {
        prompt_tokens: match u.prompt_token_count {
            Some(x) => x,
            None => 0,
        },
        completion_tokens: match u.candidates_token_count {
            Some(x) => x,
            None => 0,
        },
        total_tokens: match u.total_token_count {
            Some(x) => x,
            None => 0,
        },
    }
}

pub open spec fn opt_vertex_usage(u: Option<VertexUsageMetadata>) -> Option<Usage> {
    match u {
        Some(x) => Some(vertex_usage_of(x)),
        None => None,
    }
}

fn convert_usage(u: &Option<VertexUsageMetadata>) -> (r: Option<Usage>)
    ensures
        r == opt_vertex_usage(*u),
{
    match u {
        Some(m) => Some(
            Usage {
                prompt_tokens: m.prompt_token_count.unwrap_or(0),
                completion_tokens: m.candidates_token_count.unwrap_or(0),
                total_tokens: m.total_token_count.unwrap_or(0),
            },
        ),
        None => None,
    }
}

pub open spec fn response_candidates(resp: VertexResponse) -> Seq<VertexCandidate> {
    match resp.candidates {
        Some(c) => c@,
        None => seq![],
    }
}

/// The choice that candidate `i` becomes: index `i`, its text (absent when
/// empty), its tool calls (absent when none), its finish reason (Stop when
/// absent).
pub open spec fn choice_matches(choice: ChatChoice, i: int, c: VertexCandidate) -> bool {
    let text = parts_text(candidate_parts(c));
    let calls = parts_calls(candidate_parts(c));
    &&& choice.index == i as u32
    &&& opt_view(choice.message.content) == if text.len() == 0 {
        None::<Seq<char>>
    } else {
        Some(text)
    }
    &&& match choice.message.tool_calls {
        Some(v) => calls.len() > 0 && calls_match(v@, calls),
        None => calls.len() == 0,
    }
    &&& choice.finish_reason == Some(
        match c.finish_reason {
            Some(r) => finish_of_native(r@),
            None => FinishReason::Stop,
        },
    )
}

fn candidate_choice(candidate: &VertexCandidate, i: usize) -> (r: ChatChoice)
    ensures
        choice_matches(r, i as int, *candidate),
{
    let (text, calls) = extract_parts(candidate);
    let finish_reason = match &candidate.finish_reason {
        Some(f) => convert_finish_reason(f.as_str()),
        None => FinishReason::Stop,
    };
    let content = if text.as_str().is_empty() {
        None
    } else {
        Some(text)
    };
    let tool_calls = if calls.len() == 0 {
        None
    } else {
        Some(calls)
    };
    ChatChoice {
        index: i as u32,
        message: ResponseMessage { content, tool_calls },
        finish_reason: Some(finish_reason),
    }
}

/// One choice per candidate, in order; usage with missing counts as zero.
/// The id is fresh, the timestamp the current time.
pub fn convert_vertex_response(resp: &VertexResponse, model: &str) -> (r: Result<
    ChatResponse,
    CompositeLlmError,
>)
    ensures
        r is Ok,
        is_prefixed_id(r->Ok_0.id@, chat_cmpl_prefix()),
        r->Ok_0.model@ == model@,
        r->Ok_0.usage == opt_vertex_usage(resp.usage_metadata),
        r->Ok_0.choices@.len() == response_candidates(*resp).len(),
        forall|i: int|
            0 <= i < r->Ok_0.choices@.len() ==> choice_matches(
                #[trigger] r->Ok_0.choices@[i],
                i,
                response_candidates(*resp)[i],
            ),
{
    let mut choices: Vec<ChatChoice> = Vec::new();
    match &resp.candidates {
        Some(candidates) => {
            let mut i: usize = 0;
            while i < candidates.len()
                invariant
                    i <= candidates.len(),
                    candidates@ == response_candidates(*resp),
                    choices@.len() == i,
                    forall|k: int|
                        0 <= k < i ==> choice_matches(#[trigger] choices@[k], k, candidates@[k]),
                decreases candidates.len() - i,
            {
                let c = candidate_choice(&candidates[i], i);
                choices.push(c);
                i = i + 1;
            }
        },
        None => {},
    }
    Ok(
        ChatResponse {
            id: generate_chat_cmpl_id(),
            created: unix_timestamp(),
            model: model.to_string(),
            choices,
            usage: convert_usage(&resp.usage_metadata),
        },
    )
}

/// Whether a stream response yields a chunk: it has a first candidate.
pub open spec fn has_first_candidate(resp: VertexResponse) -> bool {
    response_candidates(resp).len() > 0
}

/// The chunk of the first candidate: one assistant delta with its text
/// (absent when empty) and its finish reason (absent when absent), and the
/// usage.  Function calls are not streamed.
pub fn convert_vertex_stream_chunk(resp: &VertexResponse, model: &str, id: &str) -> (r: Option<
    StreamChunk,
>)
    ensures
        r is Some <==> has_first_candidate(*resp),
        r is Some ==> {
            let c = r->Some_0;
            let first = response_candidates(*resp)[0];
            let text = parts_text(candidate_parts(first));
            &&& c.id@ == id@
            &&& c.model@ == model@
            &&& c.usage == opt_vertex_usage(resp.usage_metadata)
            &&& c.choices@.len() == 1
            &&& c.choices@[0].index == 0
            &&& c.choices@[0].delta.role == Some(Role::Assistant)
            &&& opt_view(c.choices@[0].delta.content) == if text.len() == 0 {
                None::<Seq<char>>
            } else {
                Some(text)
            }
            &&& c.choices@[0].finish_reason == opt_finish(first.finish_reason)
        },
{
    let candidates = match &resp.candidates {
        Some(c) => c,
        None => {
            return None;
        },
    };
    if candidates.len() == 0 {
        return None;
    }
    let candidate = &candidates[0];
    let (text, _calls) = extract_parts(candidate);
    let finish_reason = match &candidate.finish_reason {
        Some(f) => Some(convert_finish_reason(f.as_str())),
        None => None,
    };
    let content = if text.as_str().is_empty() {
        None
    } else {
        Some(text)
    };
    let mut choices: Vec<StreamChoice> = Vec::new();
    choices.push(
        StreamChoice {
            index: 0,
            delta: StreamDelta { content, role: Some(Role::Assistant) },
            finish_reason,
        },
    );
    Some(
        StreamChunk {
            id: id.to_string(),
            created: unix_timestamp(),
            model: model.to_string(),
            choices,
            usage: convert_usage(&resp.usage_metadata),
        },
    )
}

} // verus!
