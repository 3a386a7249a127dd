use ai_adapter::config::{UpstreamFormat, UpstreamVendor};
use ai_adapter::translate::anthropic::anthropic::convert_anthropic_to_responses as native_to_responses;
use ai_adapter::translate::compatibility::ReasoningSupport;
use ai_adapter::translate::deepseek::chat::{convert_chat_to_responses, convert_responses_to_chat as ds_chat};
use ai_adapter::translate::provider::{anthropic_provider_for, chat_provider_for, ProviderKind};
use ai_adapter::translate::xiaomimimo::chat::convert_responses_to_chat as mimo_chat;
use ai_adapter::translate::xiaomimimo::convert::{
    convert_anthropic_to_responses as mimo_to_responses, convert_responses_to_anthropic as mimo_anthropic,
};
use ai_adapter::translate::{
    convert_chat_to_anthropic, convert_responses_to_anthropic_for, convert_responses_to_chat,
    convert_responses_to_chat_for,
};
use ai_adapter::types::anthropic::{
    AnthropicContentBlock, AnthropicMessageContent, AnthropicResponse, AnthropicSystem,
    AnthropicThinkingConfig, AnthropicUsage,
};
use ai_adapter::types::chat::{ChatCompletionsRequest, ChatContent, ChatMessage};
use ai_adapter::types::responses::{
    FunctionDefinition, Instructions, ReasoningConfig, ResponsesContentPart, ResponsesInputItem,
    ResponsesOutputItem, ResponsesRequest, ResponsesTool,
};
use serde_json::Value;

fn request() -> ResponsesRequest {
    ResponsesRequest {
        model: "mimo-v2.5-pro".into(),
        input: None,
        instructions: None,
        stream: None,
        max_output_tokens: None,
        temperature: None,
        top_p: None,
        tools: None,
        tool_choice: None,
        reasoning: None,
        text: None,
        truncation: None,
        store: None,
        metadata: None,
        previous_response_id: None,
        session_id: None,
        user: None,
        service_tier: None,
        parallel_tool_calls: None,
        top_logprobs: None,
        frequency_penalty: None,
        presence_penalty: None,
    }
}

fn message(role: &str, parts: Vec<ResponsesContentPart>) -> ResponsesInputItem {
    ResponsesInputItem::Message { role: role.into(), content: Some(parts), id: None, name: Some("n".into()) }
}

fn call(id: &str, name: &str, args: &str) -> ResponsesInputItem {
    ResponsesInputItem::FunctionCall {
        call_id: id.into(),
        name: name.into(),
        arguments: args.into(),
        id: None,
        status: None,
    }
}

fn output(id: &str, out: &str) -> ResponsesInputItem {
    ResponsesInputItem::FunctionCallOutput { call_id: id.into(), output: out.into(), id: None, status: None }
}

fn function_tool(name: &str, parameters: Option<&str>) -> ResponsesTool {
    ResponsesTool {
        tool_type: "function".into(),
        function: Some(FunctionDefinition {
            name: name.into(),
            description: Some("d".into()),
            parameters: parameters.map(|p| p.to_string()),
        }),
        name: None,
        description: None,
        parameters: None,
        strict: None,
    }
}

fn content_text(m: &ChatMessage) -> String {
    match &m.content {
        Some(ChatContent::String(s)) => s.clone(),
        _ => panic!("expected string content"),
    }
}

#[test]
fn mimo_chat_plain_text_and_fixed_sampling() {
    let mut req = request();
    req.instructions = Some(Instructions("Be brief.".into()));
    req.input = Some(vec![message(
        "developer",
        vec![
            ResponsesContentPart::InputText { text: "a".into() },
            ResponsesContentPart::InputImage { image_url: Some("http://x/i.png".into()), detail: None },
            ResponsesContentPart::OutputText { text: "b".into() },
        ],
    )]);
    let chat = mimo_chat(&req, None);
    assert_eq!(chat.messages.len(), 2);
    assert_eq!(chat.messages[0].role, "system");
    assert_eq!(content_text(&chat.messages[0]), "Be brief.");
    assert_eq!(chat.messages[1].role, "system");
    assert_eq!(content_text(&chat.messages[1]), "a\nb");
    assert_eq!(chat.messages[1].name, None);
    assert_eq!(chat.temperature.as_deref(), Some("1.0"));
    assert_eq!(chat.top_p.as_deref(), Some("0.95"));
    assert_eq!(chat.n, Some(1));
    assert_eq!(chat.frequency_penalty.as_deref(), Some("0.0"));
    assert_eq!(chat.presence_penalty.as_deref(), Some("0.0"));
    assert_eq!(chat.tool_choice.as_deref(), Some("\"auto\""));
    assert_eq!(chat.thinking.as_ref().unwrap().thinking_type, "disabled");
    assert!(chat.stream_options.is_none());
}

#[test]
fn mimo_chat_top_p_kept_and_empty_message_text() {
    let mut req = request();
    req.top_p = Some("0.5".into());
    req.input = Some(vec![ResponsesInputItem::Message { role: "user".into(), content: None, id: None, name: None }]);
    let chat = mimo_chat(&req, None);
    assert_eq!(chat.top_p.as_deref(), Some("0.5"));
    assert_eq!(content_text(&chat.messages[0]), "");
}

#[test]
fn mimo_chat_reasoning_goes_to_last_assistant_call() {
    let mut req = request();
    req.input = Some(vec![
        call("c1", "f", "{}"),
        output("c1", "r1"),
        call("c2", "g", "{\"x\":1}"),
        output("c2", "r2"),
        message("user", vec![ResponsesContentPart::InputText { text: "next".into() }]),
    ]);
    let chat = mimo_chat(&req, Some("thought".into()));
    assert_eq!(chat.messages.len(), 5);
    assert_eq!(chat.messages[0].reasoning_content, None);
    assert_eq!(chat.messages[2].reasoning_content.as_deref(), Some("thought"));
    assert_eq!(chat.messages[3].role, "tool");
    assert_eq!(chat.messages[3].tool_call_id.as_deref(), Some("c2"));
    let tc = chat.messages[2].tool_calls.as_ref().unwrap();
    assert_eq!(tc[0].function.arguments, "{\"x\":1}");
}

#[test]
fn mimo_chat_reasoning_dropped_without_assistant_call() {
    let mut req = request();
    req.input = Some(vec![message("assistant", vec![ResponsesContentPart::OutputText { text: "hi".into() }])]);
    let chat = mimo_chat(&req, Some("thought".into()));
    assert_eq!(chat.messages[0].reasoning_content, None);
}

#[test]
fn mimo_chat_tool_without_parameters_gets_object_schema() {
    let mut req = request();
    req.tools = Some(vec![function_tool("a", None), function_tool("b", Some("{\"type\":\"object\",\"properties\":{}}"))]);
    let chat = mimo_chat(&req, None);
    let tools = chat.tools.unwrap();
    assert_eq!(tools[0].function.parameters.as_deref(), Some("{\"type\":\"object\"}"));
    assert_eq!(tools[1].function.parameters.as_deref(), Some("{\"type\":\"object\",\"properties\":{}}"));
}

#[test]
fn mimo_anthropic_system_schema_and_thinking() {
    let mut req = request();
    req.instructions = Some(Instructions("Sys".into()));
    req.input = Some(vec![message("user", vec![ResponsesContentPart::InputText { text: "hi".into() }])]);
    req.tools = Some(vec![
        function_tool("a", Some("{\"properties\":{\"q\":{\"type\":\"string\"}}}")),
        function_tool("b", None),
        function_tool("c", Some("[1,2]")),
    ]);
    req.reasoning = Some(ReasoningConfig { effort: Some("high".into()), summary: None });
    req.max_output_tokens = Some(100);
    let a = mimo_anthropic(&req);
    match &a.system {
        Some(AnthropicSystem::String(s)) => assert_eq!(s, "Sys"),
        _ => panic!("expected a system string"),
    }
    let tools = a.tools.unwrap();
    let schema: Value = serde_json::from_str(&tools[0].input_schema).unwrap();
    assert_eq!(schema["type"], "object");
    assert_eq!(schema["properties"]["q"]["type"], "string");
    assert_eq!(tools[1].input_schema, "{\"type\":\"object\"}");
    assert_eq!(tools[2].input_schema, "[1,2]");
    assert!(matches!(a.thinking, Some(AnthropicThinkingConfig::Enabled { budget_tokens: 8192 })));
    assert_eq!(a.max_tokens, 8192 + 4096);
    assert_eq!(a.messages.len(), 1);
    assert_eq!(a.messages[0].role, "user");
}

#[test]
fn mimo_anthropic_unknown_effort_sends_no_thinking() {
    let mut req = request();
    req.reasoning = Some(ReasoningConfig { effort: Some("minimal".into()), summary: None });
    let a = mimo_anthropic(&req);
    assert!(a.thinking.is_none());
    assert_eq!(a.max_tokens, 4096);
    assert!(a.system.is_none());
    // A conversation that would end with the assistant gets a user turn.
    let mut req = request();
    req.input = Some(vec![message("assistant", vec![ResponsesContentPart::OutputText { text: "x".into() }])]);
    let a = mimo_anthropic(&req);
    assert_eq!(a.messages.last().unwrap().role, "user");
}

fn anthropic_response(content: Vec<AnthropicContentBlock>) -> AnthropicResponse {
    AnthropicResponse {
        id: "msg_9".into(),
        response_type: "message".into(),
        role: "assistant".into(),
        content,
        model: "m".into(),
        stop_reason: Some("max_tokens".into()),
        stop_sequence: None,
        usage: AnthropicUsage {
            input_tokens: 7,
            output_tokens: 5,
            cache_read_input_tokens: Some(3),
            cache_creation_input_tokens: Some(4),
        },
    }
}

#[test]
fn native_anthropic_blocks_become_items_by_position() {
    let resp = anthropic_response(vec![
        AnthropicContentBlock::Text { text: "a".into(), cache_control: None },
        AnthropicContentBlock::Text { text: "b".into(), cache_control: None },
        AnthropicContentBlock::Document { source: "{}".into() },
        AnthropicContentBlock::ToolUse { id: "t1".into(), name: "f".into(), input: "{ \"b\": 1, \"a\": 2 }".into() },
        AnthropicContentBlock::Thinking { thinking: "hmm".into(), signature: None },
        AnthropicContentBlock::RedactedThinking { data: "zz".into() },
    ]);
    let r = native_to_responses(&resp, "model-x");
    assert_eq!(r.id, "msg_9");
    assert_eq!(r.status.as_deref(), Some("completed"));
    assert_eq!(r.model.as_deref(), Some("model-x"));
    assert_eq!(r.output.len(), 5);
    match &r.output[1] {
        ResponsesOutputItem::Message { id, content, .. } => {
            assert_eq!(id, "msg_9_1");
            assert_eq!(content.len(), 1);
        },
        _ => panic!("expected a message"),
    }
    match &r.output[2] {
        ResponsesOutputItem::FunctionCall { id, call_id, arguments, .. } => {
            assert_eq!(id, "msg_9_3");
            assert_eq!(call_id, "t1");
            assert_eq!(arguments, "{\"a\":2,\"b\":1}");
        },
        _ => panic!("expected a function call"),
    }
    match &r.output[4] {
        ResponsesOutputItem::Reasoning { id, content, .. } => {
            assert_eq!(id, "msg_9_5");
            match &content.as_ref().unwrap()[0] {
                ResponsesContentPart::OutputText { text } => assert_eq!(text, "zz"),
                _ => panic!("expected output text"),
            }
        },
        _ => panic!("expected reasoning"),
    }
    let u = r.usage.unwrap();
    assert_eq!(u.total_tokens, 12);
    assert_eq!(u.input_tokens_details.unwrap().cached_tokens, Some(3));
}

#[test]
fn mimo_response_matches_native() {
    let resp = anthropic_response(vec![AnthropicContentBlock::Text { text: "a".into(), cache_control: None }]);
    let a = native_to_responses(&resp, "m");
    let b = mimo_to_responses(&resp, "m");
    assert_eq!(a.output.len(), b.output.len());
    assert_eq!(a.id, b.id);
}

#[test]
fn providers_for_vendors() {
    assert_eq!(chat_provider_for(&UpstreamVendor::Auto), ProviderKind::DeepSeek);
    assert_eq!(chat_provider_for(&UpstreamVendor::DeepSeek), ProviderKind::DeepSeek);
    assert_eq!(chat_provider_for(&UpstreamVendor::XiaomiMimo), ProviderKind::XiaomiMimo);
    assert_eq!(chat_provider_for(&UpstreamVendor::OpenAI), ProviderKind::OpenAi);
    assert_eq!(chat_provider_for(&UpstreamVendor::Anthropic), ProviderKind::OpenAi);
    assert_eq!(anthropic_provider_for(&UpstreamVendor::XiaomiMimo), ProviderKind::XiaomiMimo);
    assert_eq!(anthropic_provider_for(&UpstreamVendor::OpenAI), ProviderKind::DeepSeek);
    let caps = ProviderKind::DeepSeek.capabilities();
    assert!(caps.parameters.contains(&"reasoning".to_string()));
    assert_eq!(caps.reasoning, ReasoningSupport::Native);
    assert_eq!(ProviderKind::XiaomiMimo.capabilities().reasoning, ReasoningSupport::Boolean);
    assert_eq!(ProviderKind::OpenAi.capabilities().reasoning, ReasoningSupport::Unsupported);
    assert_eq!(ProviderKind::XiaomiMimo.vendor(), UpstreamVendor::XiaomiMimo);
    let mut req = request();
    req.instructions = Some(Instructions("S".into()));
    let a = ProviderKind::XiaomiMimo.responses_to_anthropic(&req);
    assert!(matches!(a.system, Some(AnthropicSystem::String(_))));
    let d = ProviderKind::DeepSeek.responses_to_anthropic(&req);
    assert!(matches!(d.system, Some(AnthropicSystem::Blocks(_))));
}

#[test]
fn dispatch_by_vendor() {
    let req = request();
    let ds = convert_responses_to_chat(&req, &UpstreamFormat::Anthropic, &UpstreamVendor::Auto);
    assert_eq!(ds.thinking.as_ref().unwrap().thinking_type, "disabled");
    let oa = convert_responses_to_chat(&req, &UpstreamFormat::OpenAiChat, &UpstreamVendor::OpenAI);
    assert!(oa.thinking.is_none());
    let mimo = convert_responses_to_chat_for(&req, None, &UpstreamVendor::XiaomiMimo);
    assert_eq!(mimo.n, Some(1));
    let ds2 = convert_responses_to_chat_for(&req, None, &UpstreamVendor::OpenAI);
    assert_eq!(ds2.n, None);
    let a = convert_responses_to_anthropic_for(&req, &UpstreamVendor::DeepSeek);
    assert!(matches!(a.thinking, Some(AnthropicThinkingConfig::Disabled)));
}

#[test]
fn chat_to_anthropic_goes_through_responses() {
    let chat = ChatCompletionsRequest {
        model: "m".into(),
        messages: vec![
            ChatMessage {
                role: "system".into(),
                content: Some(ChatContent::String("be nice".into())),
                name: None,
                tool_calls: None,
                tool_call_id: None,
                refusal: None,
                reasoning_content: None,
            },
            ChatMessage {
                role: "user".into(),
                content: Some(ChatContent::String("hello".into())),
                name: None,
                tool_calls: None,
                tool_call_id: None,
                refusal: None,
                reasoning_content: None,
            },
        ],
        stream: None,
        max_tokens: Some(50),
        max_completion_tokens: None,
        temperature: None,
        top_p: None,
        frequency_penalty: None,
        presence_penalty: None,
        tools: None,
        tool_choice: None,
        parallel_tool_calls: None,
        stop: None,
        n: None,
        seed: None,
        stream_options: None,
        user: None,
        response_format: None,
        logprobs: None,
        top_logprobs: None,
        reasoning_effort: None,
        service_tier: None,
        store: None,
        metadata: None,
        thinking: None,
    };
    let a = convert_chat_to_anthropic(&chat);
    assert_eq!(a.messages.len(), 1);
    assert_eq!(a.messages[0].role, "user");
    match &a.messages[0].content {
        AnthropicMessageContent::Blocks(bs) => assert!(!bs.is_empty()),
        AnthropicMessageContent::String(s) => assert_eq!(s, "hello"),
    }
    match &a.system {
        Some(AnthropicSystem::Blocks(bs)) => assert_eq!(bs[0].text, "be nice"),
        _ => panic!("expected system blocks"),
    }
}

#[test]
fn deepseek_request_round_trip_through_chat() {
    let r = ResponsesRequest {
        model: "deepseek-chat".into(),
        instructions: Some(Instructions("Be brief.".into())),
        stream: Some(true),
        max_output_tokens: Some(256),
        input: Some(vec![
            ResponsesInputItem::Message {
                role: "user".into(),
                content: Some(vec![ResponsesContentPart::InputText { text: "Weather?".into() }]),
                id: None,
                name: None,
            },
            ResponsesInputItem::FunctionCall {
                call_id: "c1".into(),
                name: "get".into(),
                arguments: "{\"city\":\"Paris\"}".into(),
                id: None,
                status: None,
            },
            ResponsesInputItem::FunctionCallOutput { call_id: "c1".into(), output: "sunny".into(), id: None, status: None },
        ]),
        ..request()
    };
    let r2 = convert_chat_to_responses(&ds_chat(&r, None));
    assert_eq!(r2.instructions.as_ref().map(|i| i.0.as_str()), Some("Be brief."));
    assert_eq!(r2.model, r.model);
    assert_eq!(r2.stream, r.stream);
    assert_eq!(r2.max_output_tokens, r.max_output_tokens);
    let items = r2.input.unwrap();
    assert_eq!(items.len(), 3);
    match &items[0] {
        ResponsesInputItem::Message { role, content, .. } => {
            assert_eq!(role, "user");
            assert!(matches!(content.as_deref(), Some([ResponsesContentPart::InputText { text }]) if text == "Weather?"));
        },
        _ => panic!("expected the user message"),
    }
    assert!(matches!(&items[1], ResponsesInputItem::FunctionCall { call_id, name, arguments, .. }
        if call_id == "c1" && name == "get" && arguments == "{\"city\":\"Paris\"}"));
    assert!(matches!(&items[2], ResponsesInputItem::FunctionCallOutput { call_id, output, .. }
        if call_id == "c1" && output == "sunny"));
}
