use composite_llm::converse::{
    build_converse_request, build_inference_config, build_tool_config, convert_converse_response,
    convert_stop_reason, extract_system_and_messages, relay_step, stream_event_to_response,
    ConverseContent, ConverseOutput, ConverseRole, ConverseStreamEvent, RelayStep, StopReason,
    TokenUsage,
};
use composite_llm::error::CompositeLlmError;
use composite_llm::schema::{
    ChatRequest, ContentPart, FinishReason, FunctionSpec, Message, MessageContent,
    MessageToolCall, StopSequences, ToolCall, ToolSpec,
};

fn request(model: &str, messages: Vec<Message>) -> ChatRequest {
    ChatRequest {
        model: model.to_string(),
        messages,
        temperature: None,
        top_p: None,
        max_completion_tokens: None,
        stop: None,
        tools: None,
        tool_choice: None,
        response_format: None,
    }
}

fn text(s: &str) -> MessageContent {
    MessageContent::Text(s.to_string())
}

#[test]
fn test_extract_system_and_messages() {
    let messages = vec![
        Message::System(text("You are helpful.")),
        Message::User(text("Hello")),
    ];
    let (system, msgs) = extract_system_and_messages(messages).unwrap();
    assert_eq!(system.len(), 1);
    assert_eq!(msgs.len(), 1);
}

#[test]
fn test_build_inference_config_none() {
    let req = request("test", vec![]);
    assert!(build_inference_config(&req).is_none());
}

#[test]
fn test_build_inference_config_some() {
    let mut req = request("test", vec![]);
    req.temperature = Some(0.7f32.to_bits());
    req.top_p = Some(0.9f32.to_bits());
    let config = build_inference_config(&req);
    assert!(config.is_some());
}

#[test]
fn inference_config_maps_each_parameter() {
    let mut req = request("test", vec![]);
    req.temperature = Some(0.7f32.to_bits());
    req.max_completion_tokens = Some(256);
    req.stop = Some(StopSequences::Many(vec!["END".to_string(), "STOP".to_string()]));
    let c = build_inference_config(&req).unwrap();
    assert_eq!(c.temperature.map(f32::from_bits), Some(0.7f32));
    assert_eq!(c.top_p, None);
    assert_eq!(c.max_tokens, Some(256));
    assert_eq!(c.stop_sequences, Some(vec!["END".to_string(), "STOP".to_string()]));
}

#[test]
fn inference_config_single_stop_sequence() {
    let mut req = request("test", vec![]);
    req.stop = Some(StopSequences::Single("###".to_string()));
    let c = build_inference_config(&req).unwrap();
    assert_eq!(c.stop_sequences, Some(vec!["###".to_string()]));
}

#[test]
fn system_and_user_messages_keep_order() {
    let messages = vec![
        Message::System(text("A")),
        Message::User(text("one")),
        Message::Developer(MessageContent::Parts(vec![
            ContentPart::Text("B".to_string()),
            ContentPart::Text("C".to_string()),
        ])),
        Message::User(text("two")),
    ];
    let (system, turns) = extract_system_and_messages(messages).unwrap();
    assert_eq!(system.len(), 2);
    assert_eq!(system[0].text, "A");
    assert_eq!(system[1].text, "B\nC");
    assert_eq!(turns.len(), 2);
    assert_eq!(turns[0].role, ConverseRole::User);
    assert_eq!(turns[0].content, vec![ConverseContent::Text("one".to_string())]);
    assert_eq!(turns[1].content, vec![ConverseContent::Text("two".to_string())]);
}

#[test]
fn assistant_and_tool_messages_become_turns() {
    let messages = vec![
        Message::User(MessageContent::Parts(vec![
            ContentPart::Text("look".to_string()),
            ContentPart::Other,
            ContentPart::Text("here".to_string()),
        ])),
        Message::Assistant {
            content: Some(text("")),
            tool_calls: vec![
                MessageToolCall::Function(ToolCall {
                    id: "call_1".to_string(),
                    name: "get_weather".to_string(),
                    arguments: "{\"city\":\"Paris\"}".to_string(),
                }),
                MessageToolCall::Custom("free".to_string()),
                MessageToolCall::Function(ToolCall {
                    id: "call_2".to_string(),
                    name: "broken".to_string(),
                    arguments: "not json".to_string(),
                }),
            ],
        },
        Message::Tool { content: text("sunny"), tool_call_id: "call_1".to_string() },
        Message::Assistant { content: None, tool_calls: vec![] },
        Message::Function { content: Some("x".to_string()), name: "f".to_string() },
    ];
    let (system, turns) = extract_system_and_messages(messages).unwrap();
    assert!(system.is_empty());
    assert_eq!(turns.len(), 3);
    assert_eq!(turns[0].content, vec![ConverseContent::Text("look\nhere".to_string())]);
    assert_eq!(turns[1].role, ConverseRole::Assistant);
    assert_eq!(
        turns[1].content,
        vec![
            ConverseContent::ToolUse {
                tool_use_id: "call_1".to_string(),
                name: "get_weather".to_string(),
                input: "{\"city\":\"Paris\"}".to_string(),
            },
            ConverseContent::ToolUse {
                tool_use_id: "call_2".to_string(),
                name: "broken".to_string(),
                input: "{}".to_string(),
            },
        ]
    );
    assert_eq!(turns[2].role, ConverseRole::User);
    assert_eq!(
        turns[2].content,
        vec![ConverseContent::ToolResult {
            tool_use_id: "call_1".to_string(),
            text: "sunny".to_string(),
        }]
    );
}

#[test]
fn tool_config_maps_function_tools() {
    let mut req = request("m", vec![]);
    req.tools = Some(vec![
        ToolSpec::Function(FunctionSpec {
            name: "f".to_string(),
            description: Some("does f".to_string()),
            parameters: Some("{\"type\":\"object\"}".to_string()),
        }),
        ToolSpec::Custom("c".to_string()),
        ToolSpec::Function(FunctionSpec { name: "g".to_string(), description: None, parameters: None }),
    ]);
    let config = build_tool_config(&req).unwrap().unwrap();
    assert_eq!(config.tools.len(), 2);
    assert_eq!(config.tools[0].name, "f");
    assert_eq!(config.tools[0].description.as_deref(), Some("does f"));
    assert_eq!(config.tools[0].input_schema, "{\"type\":\"object\"}");
    assert_eq!(config.tools[1].name, "g");
    assert_eq!(config.tools[1].input_schema, "{\"type\":\"object\",\"properties\":{}}");
}

#[test]
fn tool_config_absent_without_tools() {
    let mut req = request("m", vec![]);
    assert_eq!(build_tool_config(&req), Ok(None));
    req.tools = Some(vec![]);
    assert_eq!(build_tool_config(&req), Ok(None));
}

#[test]
fn tool_config_error_without_function_tool() {
    let mut req = request("m", vec![]);
    req.tools = Some(vec![ToolSpec::Custom("c".to_string())]);
    assert!(matches!(build_tool_config(&req), Err(CompositeLlmError::Bedrock(_))));
    assert!(matches!(build_converse_request(&req, "id"), Err(CompositeLlmError::Bedrock(_))));
}

#[test]
fn stop_reasons_map() {
    assert_eq!(convert_stop_reason(&StopReason::EndTurn), FinishReason::Stop);
    assert_eq!(convert_stop_reason(&StopReason::StopSequence), FinishReason::Stop);
    assert_eq!(convert_stop_reason(&StopReason::MaxTokens), FinishReason::Length);
    assert_eq!(convert_stop_reason(&StopReason::ToolUse), FinishReason::ToolCalls);
    assert_eq!(convert_stop_reason(&StopReason::ContentFiltered), FinishReason::Stop);
    assert_eq!(convert_stop_reason(&StopReason::Other), FinishReason::Stop);
}

#[test]
fn converse_response_folds_blocks() {
    let output = ConverseOutput {
        message: Some(vec![
            ConverseContent::Text("Hel".to_string()),
            ConverseContent::ToolUse {
                tool_use_id: "t1".to_string(),
                name: "lookup".to_string(),
                input: "{\"q\":1}".to_string(),
            },
            ConverseContent::Text("lo".to_string()),
        ]),
        stop_reason: StopReason::ToolUse,
        usage: Some(TokenUsage { input_tokens: 7, output_tokens: 5 }),
    };
    let r = convert_converse_response(&output, "titan").unwrap();
    assert!(r.id.starts_with("chatcmpl-"));
    assert_eq!(r.id.len(), 41);
    assert_eq!(r.model, "titan");
    assert_eq!(r.choices.len(), 1);
    assert_eq!(r.choices[0].index, 0);
    assert_eq!(r.choices[0].message.content.as_deref(), Some("Hello"));
    let calls = r.choices[0].message.tool_calls.clone().unwrap();
    assert_eq!(calls, vec![ToolCall {
        id: "t1".to_string(),
        name: "lookup".to_string(),
        arguments: "{\"q\":1}".to_string(),
    }]);
    assert_eq!(r.choices[0].finish_reason, Some(FinishReason::ToolCalls));
    let u = r.usage.unwrap();
    assert_eq!((u.prompt_tokens, u.completion_tokens, u.total_tokens), (7, 5, 12));
}

#[test]
fn converse_response_without_message() {
    let output = ConverseOutput { message: None, stop_reason: StopReason::MaxTokens, usage: None };
    let r = convert_converse_response(&output, "m").unwrap();
    assert_eq!(r.choices[0].message.content, None);
    assert_eq!(r.choices[0].message.tool_calls, None);
    assert_eq!(r.choices[0].finish_reason, Some(FinishReason::Length));
    assert_eq!(r.usage, None);
}

#[test]
fn tool_call_arguments_round_trip() {
    let call = ToolCall {
        id: "call_9".to_string(),
        name: "sum".to_string(),
        arguments: "{\"a\":1,\"b\":[2,3]}".to_string(),
    };
    let (_, turns) = extract_system_and_messages(vec![Message::Assistant {
        content: None,
        tool_calls: vec![MessageToolCall::Function(call.clone())],
    }])
    .unwrap();
    let output = ConverseOutput {
        message: Some(turns[0].content.clone()),
        stop_reason: StopReason::ToolUse,
        usage: None,
    };
    let r = convert_converse_response(&output, "m").unwrap();
    let back = r.choices[0].message.tool_calls.clone().unwrap();
    assert_eq!(back, vec![call]);
}

#[test]
fn stream_events_convert() {
    let d = stream_event_to_response(&ConverseStreamEvent::ContentBlockDelta(Some("Hi".to_string())), "m", "id-1").unwrap();
    assert_eq!(d.id, "id-1");
    assert_eq!(d.choices.len(), 1);
    assert_eq!(d.choices[0].delta.content.as_deref(), Some("Hi"));
    assert_eq!(d.choices[0].finish_reason, None);
    let s = stream_event_to_response(&ConverseStreamEvent::MessageStop(StopReason::EndTurn), "m", "id-1").unwrap();
    assert_eq!(s.choices[0].delta.content, None);
    assert_eq!(s.choices[0].finish_reason, Some(FinishReason::Stop));
    let u = stream_event_to_response(
        &ConverseStreamEvent::Metadata(Some(TokenUsage { input_tokens: 3, output_tokens: 4 })),
        "m",
        "id-1",
    )
    .unwrap();
    assert!(u.choices.is_empty());
    assert_eq!(u.usage.unwrap().total_tokens, 7);
    assert!(stream_event_to_response(&ConverseStreamEvent::ContentBlockDelta(None), "m", "id").is_none());
    assert!(stream_event_to_response(&ConverseStreamEvent::Metadata(None), "m", "id").is_none());
    assert!(stream_event_to_response(&ConverseStreamEvent::Other, "m", "id").is_none());
}

#[test]
fn relay_steps() {
    let f = relay_step(Ok(Some(ConverseStreamEvent::ContentBlockDelta(Some("x".to_string())))), "m", "id");
    assert!(matches!(f, RelayStep::Forward(ref c) if c.id == "id"));
    assert!(matches!(relay_step(Ok(Some(ConverseStreamEvent::Other)), "m", "id"), RelayStep::Skip));
    assert!(matches!(relay_step(Ok(None), "m", "id"), RelayStep::Close));
    let e = relay_step(Err("boom".to_string()), "m", "id");
    assert!(matches!(e, RelayStep::Fail(CompositeLlmError::Bedrock(ref m)) if m == "boom"));
}

#[test]
fn scenario_structured_turns() {
    let req = request(
        "gemini-pro",
        vec![Message::System(text("Be helpful.")), Message::User(text("Hello"))],
    );
    let c = build_converse_request(&req, "model-x").unwrap();
    assert_eq!(c.model_id, "model-x");
    let system = c.system.unwrap();
    assert_eq!(system.len(), 1);
    assert_eq!(system[0].text, "Be helpful.");
    assert_eq!(c.messages.len(), 1);
    assert_eq!(c.messages[0].role, ConverseRole::User);
    assert!(c.inference_config.is_none());
    assert!(c.tool_config.is_none());
}
