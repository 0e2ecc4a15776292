use composite_llm::endpoint::{
    generate_content_url, http_status_error, is_success_status, stream_generate_content_url,
    vertex_base_url,
};
use composite_llm::error::CompositeLlmError;
use composite_llm::schema::{
    ChatRequest, FinishReason, FunctionSpec, Message, MessageContent, MessageToolCall,
    ResponseFormat, Role, StopSequences, ToolCall, ToolChoice, ToolSpec,
};
use composite_llm::vertex::{
    build_generation_config, build_vertex_tool_config, build_vertex_tools, convert_finish_reason,
    convert_request, convert_vertex_response, convert_vertex_stream_chunk, VertexCandidate,
    VertexContent, VertexFunctionCall, VertexPart, VertexResponse, VertexUsageMetadata,
};

fn request(model: &str, messages: Vec<Message>) -> ChatRequest {
    ChatRequest {
        model: model.to_string(),
        messages,
        temperature: None,
        top_p: None,
        max_completion_tokens: None,
        stop: None,
        tools: None,
        tool_choice: None,
        response_format: None,
    }
}

fn text(s: &str) -> MessageContent {
    MessageContent::Text(s.to_string())
}

fn text_part(s: &str) -> VertexPart {
    VertexPart { text: Some(s.to_string()), function_call: None, function_response: None }
}

#[test]
fn test_convert_request_basic() {
    let req = request(
        "gemini-pro",
        vec![Message::System(text("Be helpful.")), Message::User(text("Hello"))],
    );
    let vertex_req = convert_request(&req).unwrap();
    assert!(vertex_req.system_instruction.is_some());
    assert_eq!(vertex_req.contents.len(), 1);
    assert_eq!(vertex_req.contents[0].role, "user");
}

#[test]
fn test_convert_vertex_response() {
    let resp = VertexResponse {
        candidates: Some(vec![VertexCandidate {
            content: Some(VertexContent { role: "model".to_string(), parts: vec![text_part("Hello!")] }),
            finish_reason: Some("STOP".to_string()),
        }]),
        usage_metadata: Some(VertexUsageMetadata {
            prompt_token_count: Some(10),
            candidates_token_count: Some(5),
            total_token_count: Some(15),
        }),
    };
    let result = convert_vertex_response(&resp, "gemini-pro").unwrap();
    assert_eq!(result.choices.len(), 1);
    assert_eq!(result.choices[0].message.content.as_deref(), Some("Hello!"));
    assert_eq!(result.choices[0].finish_reason, Some(FinishReason::Stop));
    let usage = result.usage.unwrap();
    assert_eq!(usage.prompt_tokens, 10);
    assert_eq!(usage.completion_tokens, 5);
}

#[test]
fn scenario_contents_parts() {
    let req = request(
        "gemini-pro",
        vec![Message::System(text("Be helpful.")), Message::User(text("Hello"))],
    );
    let v = convert_request(&req).unwrap();
    let si = v.system_instruction.unwrap();
    assert_eq!(si.role, "user");
    assert_eq!(si.parts, vec![text_part("Be helpful.")]);
    assert_eq!(v.contents.len(), 1);
    assert_eq!(v.contents[0].role, "user");
    assert_eq!(v.contents[0].parts, vec![text_part("Hello")]);
    assert!(v.generation_config.is_none());
    assert!(v.tools.is_none());
    assert!(v.tool_config.is_none());
}

#[test]
fn scenario_max_tokens_is_length() {
    assert_eq!(convert_finish_reason("MAX_TOKENS"), FinishReason::Length);
}

#[test]
fn finish_reasons_map() {
    assert_eq!(convert_finish_reason("STOP"), FinishReason::Stop);
    assert_eq!(convert_finish_reason("SAFETY"), FinishReason::ContentFilter);
    assert_eq!(convert_finish_reason("RECITATION"), FinishReason::Stop);
    assert_eq!(convert_finish_reason(""), FinishReason::Stop);
}

#[test]
fn assistant_and_tool_messages_become_contents() {
    let req = request(
        "m",
        vec![
            Message::Assistant {
                content: Some(text("calling")),
                tool_calls: vec![MessageToolCall::Function(ToolCall {
                    id: "call_1".to_string(),
                    name: "get".to_string(),
                    arguments: "oops".to_string(),
                })],
            },
            Message::Tool { content: text("{\"t\":21}"), tool_call_id: "call_1".to_string() },
            Message::Tool { content: text("plain \"text\""), tool_call_id: "call_2".to_string() },
            Message::Assistant { content: Some(text("")), tool_calls: vec![] },
        ],
    );
    let v = convert_request(&req).unwrap();
    assert!(v.system_instruction.is_none());
    assert_eq!(v.contents.len(), 3);
    assert_eq!(v.contents[0].role, "model");
    assert_eq!(v.contents[0].parts.len(), 2);
    assert_eq!(v.contents[0].parts[0], text_part("calling"));
    assert_eq!(
        v.contents[0].parts[1].function_call,
        Some(VertexFunctionCall { name: "get".to_string(), args: "{}".to_string() })
    );
    let r1 = v.contents[1].parts[0].function_response.clone().unwrap();
    assert_eq!(v.contents[1].role, "user");
    assert_eq!(r1.name, "call_1");
    assert_eq!(r1.response, "{\"t\":21}");
    let r2 = v.contents[2].parts[0].function_response.clone().unwrap();
    assert_eq!(r2.name, "call_2");
    assert_eq!(r2.response, "{\"result\":\"plain \\\"text\\\"\"}");
}

#[test]
fn generation_config_absent_without_parameters() {
    let req = request("m", vec![]);
    assert!(build_generation_config(&req).is_none());
}

#[test]
fn generation_config_from_response_format_alone() {
    let mut req = request("m", vec![]);
    req.response_format = Some(ResponseFormat::JsonObject);
    let g = build_generation_config(&req).unwrap();
    assert_eq!(g.response_mime_type.as_deref(), Some("application/json"));
    assert_eq!(g.temperature, None);
    req.response_format = Some(ResponseFormat::Text);
    let g = build_generation_config(&req).unwrap();
    assert_eq!(g.response_mime_type, None);
}

#[test]
fn generation_config_maps_parameters() {
    let mut req = request("m", vec![]);
    req.top_p = Some(0.5f32.to_bits());
    req.max_completion_tokens = Some(99);
    req.stop = Some(StopSequences::Single("x".to_string()));
    let g = build_generation_config(&req).unwrap();
    assert_eq!(g.top_p.map(f32::from_bits), Some(0.5f32));
    assert_eq!(g.max_output_tokens, Some(99));
    assert_eq!(g.stop_sequences, Some(vec!["x".to_string()]));
}

#[test]
fn tools_group_function_declarations() {
    let mut req = request("m", vec![]);
    assert!(build_vertex_tools(&req).is_none());
    req.tools = Some(vec![ToolSpec::Custom("c".to_string())]);
    assert!(build_vertex_tools(&req).is_none());
    req.tools = Some(vec![
        ToolSpec::Function(FunctionSpec { name: "a".to_string(), description: None, parameters: None }),
        ToolSpec::Function(FunctionSpec {
            name: "b".to_string(),
            description: Some("bee".to_string()),
            parameters: Some("{}".to_string()),
        }),
    ]);
    let tools = build_vertex_tools(&req).unwrap();
    assert_eq!(tools.len(), 1);
    assert_eq!(tools[0].function_declarations.len(), 2);
    assert_eq!(tools[0].function_declarations[1].name, "b");
    assert_eq!(tools[0].function_declarations[1].description.as_deref(), Some("bee"));
    assert_eq!(tools[0].function_declarations[1].parameters.as_deref(), Some("{}"));
}

#[test]
fn tool_choice_modes() {
    let mut req = request("m", vec![]);
    assert!(build_vertex_tool_config(&req).is_none());
    let cases = vec![
        (ToolChoice::Off, "NONE"),
        (ToolChoice::Auto, "AUTO"),
        (ToolChoice::Required, "ANY"),
        (ToolChoice::Function("f".to_string()), "ANY"),
        (ToolChoice::AllowedTools, "AUTO"),
        (ToolChoice::Custom("c".to_string()), "AUTO"),
    ];
    for (choice, mode) in cases {
        req.tool_choice = Some(choice);
        assert_eq!(build_vertex_tool_config(&req).unwrap().function_calling_config.mode, mode);
    }
}

#[test]
fn response_candidates_become_choices() {
    let resp = VertexResponse {
        candidates: Some(vec![
            VertexCandidate {
                content: Some(VertexContent {
                    role: "model".to_string(),
                    parts: vec![
                        text_part("a"),
                        VertexPart {
                            text: None,
                            function_call: Some(VertexFunctionCall {
                                name: "f".to_string(),
                                args: "{\"x\":1}".to_string(),
                            }),
                            function_response: None,
                        },
                        text_part("b"),
                    ],
                }),
                finish_reason: None,
            },
            VertexCandidate { content: None, finish_reason: Some("SAFETY".to_string()) },
        ]),
        usage_metadata: Some(VertexUsageMetadata {
            prompt_token_count: None,
            candidates_token_count: Some(2),
            total_token_count: None,
        }),
    };
    let r = convert_vertex_response(&resp, "m").unwrap();
    assert_eq!(r.choices.len(), 2);
    assert_eq!(r.choices[0].message.content.as_deref(), Some("ab"));
    let calls = r.choices[0].message.tool_calls.clone().unwrap();
    assert_eq!(calls.len(), 1);
    assert!(calls[0].id.starts_with("call_"));
    assert_eq!(calls[0].id.len(), 37);
    assert_eq!(calls[0].name, "f");
    assert_eq!(calls[0].arguments, "{\"x\":1}");
    assert_eq!(r.choices[0].finish_reason, Some(FinishReason::Stop));
    assert_eq!(r.choices[1].index, 1);
    assert_eq!(r.choices[1].message.content, None);
    assert_eq!(r.choices[1].finish_reason, Some(FinishReason::ContentFilter));
    let u = r.usage.unwrap();
    assert_eq!((u.prompt_tokens, u.completion_tokens, u.total_tokens), (0, 2, 0));
}

#[test]
fn stream_chunk_from_first_candidate() {
    let resp = VertexResponse {
        candidates: Some(vec![VertexCandidate {
            content: Some(VertexContent { role: "model".to_string(), parts: vec![text_part("Hi")] }),
            finish_reason: None,
        }]),
        usage_metadata: None,
    };
    let c = convert_vertex_stream_chunk(&resp, "m", "chatcmpl-1").unwrap();
    assert_eq!(c.id, "chatcmpl-1");
    assert_eq!(c.choices[0].delta.content.as_deref(), Some("Hi"));
    assert_eq!(c.choices[0].delta.role, Some(Role::Assistant));
    assert_eq!(c.choices[0].finish_reason, None);
    let empty = VertexResponse { candidates: Some(vec![]), usage_metadata: None };
    assert!(convert_vertex_stream_chunk(&empty, "m", "x").is_none());
    let none = VertexResponse { candidates: None, usage_metadata: None };
    assert!(convert_vertex_stream_chunk(&none, "m", "x").is_none());
}

#[test]
fn endpoints_and_http_errors() {
    let base = vertex_base_url("proj", "us-central1", "gemini-pro");
    assert_eq!(
        base,
        "https://us-central1-aiplatform.googleapis.com/v1/projects/proj/locations/us-central1/publishers/google/models/gemini-pro"
    );
    assert_eq!(generate_content_url("p", "l", "m"), format!("{}:generateContent", vertex_base_url("p", "l", "m")));
    assert!(stream_generate_content_url("p", "l", "m").ends_with(":streamGenerateContent?alt=sse"));
    assert!(is_success_status(200));
    assert!(is_success_status(299));
    assert!(!is_success_status(404));
    assert!(!is_success_status(199));
    assert_eq!(
        http_status_error("404 Not Found", "missing"),
        CompositeLlmError::Vertex("HTTP 404 Not Found: missing".to_string())
    );
}
