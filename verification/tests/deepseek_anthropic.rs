use ai_adapter::translate::deepseek::anthropic::{
    build_tool_use_block, convert_anthropic_to_responses, convert_responses_to_anthropic,
};
use ai_adapter::types::anthropic::{
    AnthropicContentBlock, AnthropicMessageContent, AnthropicResponse, AnthropicSystem,
    AnthropicThinkingConfig, AnthropicUsage,
};
use ai_adapter::types::responses::{
    FunctionDefinition, Instructions, ReasoningConfig, ResponsesContentPart, ResponsesInputItem,
    ResponsesOutputItem, ResponsesRequest, ResponsesTool,
};
use serde_json::Value;

/// Minimal request with mostly-empty fields.
fn default_responses_request() -> ResponsesRequest {
    ResponsesRequest {
        model: "deepseek".into(),
        input: None,
        instructions: None,
        stream: None,
        max_output_tokens: None,
        temperature: None,
        top_p: None,
        tools: None,
        tool_choice: None,
        reasoning: None,
        text: None,
        truncation: None,
        store: None,
        metadata: None,
        previous_response_id: None,
        session_id: None,
        user: None,
        service_tier: None,
        parallel_tool_calls: None,
        top_logprobs: None,
        frequency_penalty: None,
        presence_penalty: None,
    }
}

fn part_text(p: &ResponsesContentPart) -> &str {
    match p {
        ResponsesContentPart::OutputText { text }
        | ResponsesContentPart::InputText { text }
        | ResponsesContentPart::Text { text } => text.as_str(),
        ResponsesContentPart::ToolResult { output, .. } => output.as_str(),
        _ => "",
    }
}

fn usage(input: u32, output: u32) -> AnthropicUsage {
    AnthropicUsage {
        input_tokens: input,
        output_tokens: output,
        cache_read_input_tokens: None,
        cache_creation_input_tokens: None,
    }
}

fn response_with(content: Vec<AnthropicContentBlock>, stop: &str, u: AnthropicUsage) -> AnthropicResponse {
    AnthropicResponse {
        id: "msg_1".into(),
        response_type: "message".into(),
        role: "assistant".into(),
        content,
        model: "sonnet-4-20250514".into(),
        stop_reason: Some(stop.into()),
        stop_sequence: None,
        usage: u,
    }
}

fn user_text(text: &str) -> ResponsesInputItem {
    ResponsesInputItem::Message {
        role: "user".into(),
        content: Some(vec![ResponsesContentPart::InputText { text: text.into() }]),
        id: None,
        name: None,
    }
}

#[test]
fn build_tool_use_block_valid_json() {
    let block = build_tool_use_block("call_1".into(), "get_weather".into(), r#"{"city":"Berlin"}"#.into());
    match block {
        AnthropicContentBlock::ToolUse { id, name, input } => {
            assert_eq!(id, "call_1");
            assert_eq!(name, "get_weather");
            let v: Value = serde_json::from_str(&input).unwrap();
            assert_eq!(v["city"], "Berlin");
        }
        _ => panic!("expected ToolUse block"),
    }
}

#[test]
fn build_tool_use_block_invalid_json() {
    let block = build_tool_use_block("call_1".into(), "f".into(), "not-json".into());
    match block {
        AnthropicContentBlock::ToolUse { input, .. } => {
            let v: Value = serde_json::from_str(&input).unwrap();
            assert!(v.is_object());
        }
        _ => panic!("expected ToolUse block"),
    }
}

#[test]
fn build_tool_use_block_reserialises_arguments() {
    let block = build_tool_use_block("c".into(), "f".into(), "{ \"a\" : 1 }".into());
    match block {
        AnthropicContentBlock::ToolUse { input, .. } => assert_eq!(input, r#"{"a":1}"#),
        _ => panic!("expected ToolUse block"),
    }
}

#[test]
fn instructions_become_system() {
    let req = ResponsesRequest {
        model: "deepseek".into(),
        instructions: Some(Instructions("Be helpful.".into())),
        input: Some(vec![]),
        ..default_responses_request()
    };
    let result = convert_responses_to_anthropic(&req);
    match result.system {
        Some(AnthropicSystem::Blocks(blocks)) => assert_eq!(blocks[0].text, "Be helpful."),
        _ => panic!("expected system blocks"),
    }
}

#[test]
fn no_instructions_no_system() {
    let req = ResponsesRequest { model: "deepseek".into(), input: Some(vec![]), ..default_responses_request() };
    let result = convert_responses_to_anthropic(&req);
    assert!(result.system.is_none());
}

#[test]
fn developer_role_maps_to_assistant() {
    let req = ResponsesRequest {
        model: "deepseek".into(),
        input: Some(vec![ResponsesInputItem::Message {
            role: "developer".into(),
            content: Some(vec![ResponsesContentPart::InputText { text: "You are a bot.".into() }]),
            id: None,
            name: None,
        }]),
        ..default_responses_request()
    };
    let result = convert_responses_to_anthropic(&req);
    assert_eq!(result.messages[0].role, "assistant");
}

#[test]
fn user_role_passes_through() {
    let req = ResponsesRequest {
        model: "deepseek".into(),
        input: Some(vec![user_text("Hello")]),
        ..default_responses_request()
    };
    let result = convert_responses_to_anthropic(&req);
    assert_eq!(result.messages[0].role, "user");
}

fn with_effort(effort: &str, max_output: Option<u32>) -> ResponsesRequest {
    ResponsesRequest {
        model: "deepseek".into(),
        input: Some(vec![]),
        max_output_tokens: max_output,
        reasoning: Some(ReasoningConfig { effort: Some(effort.into()), summary: None }),
        ..default_responses_request()
    }
}

fn budget(req: &ResponsesRequest) -> u32 {
    match convert_responses_to_anthropic(req).thinking {
        Some(AnthropicThinkingConfig::Enabled { budget_tokens }) => budget_tokens,
        _ => panic!("expected Enabled thinking config"),
    }
}

#[test]
fn reasoning_low_becomes_thinking_budget_1024() {
    assert_eq!(budget(&with_effort("low", None)), 1024);
}

#[test]
fn reasoning_medium_becomes_budget_4096() {
    assert_eq!(budget(&with_effort("medium", None)), 4096);
}

#[test]
fn reasoning_high_becomes_budget_8192() {
    assert_eq!(budget(&with_effort("high", None)), 8192);
}

#[test]
fn no_reasoning_defaults_to_disabled() {
    let req = ResponsesRequest { model: "deepseek".into(), input: Some(vec![]), ..default_responses_request() };
    let result = convert_responses_to_anthropic(&req);
    assert!(matches!(result.thinking, Some(AnthropicThinkingConfig::Disabled)));
}

#[test]
fn max_tokens_adjusted_when_thinking_enabled() {
    let result = convert_responses_to_anthropic(&with_effort("low", Some(500)));
    assert_eq!(result.max_tokens, 1024 + 4096);
}

#[test]
fn max_tokens_default_without_thinking() {
    let req = ResponsesRequest { model: "deepseek".into(), input: Some(vec![]), ..default_responses_request() };
    assert_eq!(convert_responses_to_anthropic(&req).max_tokens, 4096);
}

#[test]
fn consecutive_function_calls_merge_into_one_assistant_message() {
    let req = ResponsesRequest {
        model: "deepseek".into(),
        input: Some(vec![
            ResponsesInputItem::FunctionCall {
                call_id: "c1".into(),
                name: "add".into(),
                arguments: r#"{"a":1}"#.into(),
                id: None,
                status: None,
            },
            ResponsesInputItem::FunctionCall {
                call_id: "c2".into(),
                name: "sub".into(),
                arguments: r#"{"a":2}"#.into(),
                id: None,
                status: None,
            },
        ]),
        ..default_responses_request()
    };
    let result = convert_responses_to_anthropic(&req);
    assert_eq!(result.messages.len(), 2);
    assert_eq!(result.messages[0].role, "assistant");
    if let AnthropicMessageContent::Blocks(ref blocks) = result.messages[0].content {
        assert_eq!(blocks.len(), 2);
        assert!(matches!(blocks[0], AnthropicContentBlock::ToolUse { .. }));
        assert!(matches!(blocks[1], AnthropicContentBlock::ToolUse { .. }));
    } else {
        panic!("expected blocks");
    }
}

#[test]
fn consecutive_function_call_outputs_merge_into_one_user_message() {
    let req = ResponsesRequest {
        model: "deepseek".into(),
        input: Some(vec![
            ResponsesInputItem::FunctionCallOutput { call_id: "c1".into(), output: "result1".into(), id: None, status: None },
            ResponsesInputItem::FunctionCallOutput { call_id: "c2".into(), output: "result2".into(), id: None, status: None },
        ]),
        ..default_responses_request()
    };
    let result = convert_responses_to_anthropic(&req);
    assert_eq!(result.messages[0].role, "user");
    if let AnthropicMessageContent::Blocks(ref blocks) = result.messages[0].content {
        assert_eq!(blocks.len(), 2);
        assert!(matches!(blocks[0], AnthropicContentBlock::ToolResult { .. }));
        assert!(matches!(blocks[1], AnthropicContentBlock::ToolResult { .. }));
    } else {
        panic!("expected blocks");
    }
}

#[test]
fn appends_user_message_when_ends_with_assistant() {
    let req = ResponsesRequest {
        model: "deepseek".into(),
        input: Some(vec![ResponsesInputItem::Message {
            role: "assistant".into(),
            content: Some(vec![ResponsesContentPart::OutputText { text: "done".into() }]),
            id: None,
            name: None,
        }]),
        ..default_responses_request()
    };
    let result = convert_responses_to_anthropic(&req);
    assert_eq!(result.messages.last().unwrap().role, "user");
}

#[test]
fn tools_converted_via_get_function() {
    let req = ResponsesRequest {
        model: "deepseek".into(),
        input: Some(vec![]),
        tools: Some(vec![ResponsesTool {
            tool_type: "function".into(),
            function: Some(FunctionDefinition {
                name: "search".into(),
                description: Some("Search the web".into()),
                parameters: Some(r#"{"type": "object", "properties": {}}"#.into()),
            }),
            name: None,
            description: None,
            parameters: None,
            strict: None,
        }]),
        ..default_responses_request()
    };
    let result = convert_responses_to_anthropic(&req);
    let tools = result.tools.unwrap();
    assert_eq!(tools.len(), 1);
    assert_eq!(tools[0].name, "search");
    assert_eq!(tools[0].description.as_deref(), Some("Search the web"));
}

#[test]
fn text_block_becomes_output_text() {
    let resp = response_with(
        vec![AnthropicContentBlock::Text { text: "Hello!".into(), cache_control: None }],
        "end_turn",
        usage(10, 5),
    );
    let result = convert_anthropic_to_responses(&resp, "deepseek");
    assert_eq!(result.output.len(), 1);
    if let ResponsesOutputItem::Message { content, role, .. } = &result.output[0] {
        assert_eq!(role.as_deref(), Some("assistant"));
        assert!(matches!(content[0], ResponsesContentPart::OutputText { .. }));
    } else {
        panic!("expected Message");
    }
}

#[test]
fn consecutive_text_blocks_merge_into_single_message() {
    let resp = response_with(
        vec![
            AnthropicContentBlock::Text { text: "Hello".into(), cache_control: None },
            AnthropicContentBlock::Text { text: " world".into(), cache_control: None },
        ],
        "end_turn",
        usage(10, 5),
    );
    let result = convert_anthropic_to_responses(&resp, "deepseek");
    assert_eq!(result.output.len(), 1);
    if let ResponsesOutputItem::Message { content, .. } = &result.output[0] {
        assert_eq!(content.len(), 2);
    } else {
        panic!("expected single Message");
    }
}

#[test]
fn tool_use_becomes_function_call() {
    let resp = response_with(
        vec![AnthropicContentBlock::ToolUse {
            id: "toolu_1".into(),
            name: "get_weather".into(),
            input: r#"{"city":"Berlin"}"#.into(),
        }],
        "tool_use",
        usage(10, 5),
    );
    let result = convert_anthropic_to_responses(&resp, "deepseek");
    assert_eq!(result.output.len(), 1);
    if let ResponsesOutputItem::FunctionCall { call_id, name, arguments, .. } = &result.output[0] {
        assert_eq!(call_id, "toolu_1");
        assert_eq!(name, "get_weather");
        let parsed: Value = serde_json::from_str(arguments).unwrap();
        assert_eq!(parsed["city"], "Berlin");
    } else {
        panic!("expected FunctionCall");
    }
}

#[test]
fn thinking_becomes_reasoning() {
    let resp = response_with(
        vec![AnthropicContentBlock::Thinking { thinking: "Let me think...".into(), signature: Some("sig".into()) }],
        "end_turn",
        usage(10, 5),
    );
    let result = convert_anthropic_to_responses(&resp, "deepseek");
    assert_eq!(result.output.len(), 1);
    match &result.output[0] {
        ResponsesOutputItem::Reasoning { content, .. } => {
            assert_eq!(part_text(&content.as_ref().unwrap()[0]), "Let me think...");
        }
        _ => panic!("expected Reasoning item"),
    }
}

#[test]
fn redacted_thinking_becomes_reasoning() {
    let resp = response_with(
        vec![AnthropicContentBlock::RedactedThinking { data: "xyz".into() }],
        "end_turn",
        usage(10, 5),
    );
    let result = convert_anthropic_to_responses(&resp, "deepseek");
    match &result.output[0] {
        ResponsesOutputItem::Reasoning { content, .. } => {
            assert!(part_text(&content.as_ref().unwrap()[0]).starts_with("[redacted:"));
        }
        _ => panic!("expected Reasoning item"),
    }
}

#[test]
fn usage_includes_cached_tokens() {
    let resp = response_with(
        vec![],
        "end_turn",
        AnthropicUsage {
            input_tokens: 100,
            output_tokens: 50,
            cache_read_input_tokens: Some(20),
            cache_creation_input_tokens: Some(10),
        },
    );
    let result = convert_anthropic_to_responses(&resp, "deepseek");
    let u = result.usage.unwrap();
    assert_eq!(u.input_tokens, 100);
    assert_eq!(u.output_tokens, 50);
    assert_eq!(u.total_tokens, 150);
    let details = u.input_tokens_details.unwrap();
    assert_eq!(details.cached_tokens, Some(30));
}

#[test]
fn stop_reason_max_tokens_becomes_incomplete() {
    let resp = response_with(vec![], "max_tokens", usage(1, 1));
    let result = convert_anthropic_to_responses(&resp, "deepseek");
    assert_eq!(result.status.as_deref(), Some("incomplete"));
}

#[test]
fn stop_reason_end_turn_becomes_completed() {
    let resp = response_with(vec![], "end_turn", usage(1, 1));
    let result = convert_anthropic_to_responses(&resp, "deepseek");
    assert_eq!(result.status.as_deref(), Some("completed"));
    assert_eq!(result.model.as_deref(), Some("deepseek"));
}

#[test]
fn empty_content_produces_empty_message() {
    let resp = response_with(vec![], "end_turn", usage(1, 1));
    let result = convert_anthropic_to_responses(&resp, "deepseek");
    assert_eq!(result.output.len(), 1);
}

#[test]
fn tool_use_without_tool_result_gets_placeholder() {
    let req = ResponsesRequest {
        model: "deepseek".into(),
        input: Some(vec![
            user_text("go"),
            ResponsesInputItem::FunctionCall {
                call_id: "c1".into(),
                name: "f".into(),
                arguments: "{}".into(),
                id: None,
                status: None,
            },
            user_text("next turn"),
        ]),
        ..default_responses_request()
    };
    let result = convert_responses_to_anthropic(&req);
    let tool_use_pos = result
        .messages
        .iter()
        .position(|m| {
            m.role == "assistant"
                && matches!(&m.content, AnthropicMessageContent::Blocks(blocks)
                    if blocks.iter().any(|b| matches!(b, AnthropicContentBlock::ToolUse { .. })))
        })
        .unwrap();
    let next = &result.messages[tool_use_pos + 1];
    assert_eq!(next.role, "user");
    assert!(matches!(
        &next.content,
        AnthropicMessageContent::Blocks(blocks)
        if blocks.iter().any(|b| matches!(b, AnthropicContentBlock::ToolResult { .. }))
    ));
}

#[test]
fn messages_around_an_empty_one_are_merged() {
    let req = ResponsesRequest {
        input: Some(vec![
            user_text("first"),
            ResponsesInputItem::Message { role: "assistant".into(), content: Some(vec![]), id: None, name: None },
            user_text("second"),
        ]),
        ..default_responses_request()
    };
    let result = convert_responses_to_anthropic(&req);
    assert_eq!(result.messages.len(), 1);
    assert_eq!(result.messages[0].role, "user");
    match &result.messages[0].content {
        AnthropicMessageContent::Blocks(blocks) => {
            let texts: Vec<&str> = blocks
                .iter()
                .filter_map(|b| match b {
                    AnthropicContentBlock::Text { text, .. } => Some(text.as_str()),
                    _ => None,
                })
                .collect();
            assert_eq!(texts, vec!["first", "second"]);
        },
        AnthropicMessageContent::String(s) => assert_eq!(s, "first\nsecond"),
    }
    for w in result.messages.windows(2) {
        assert_ne!(w[0].role, w[1].role);
    }
}
