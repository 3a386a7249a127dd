use ai_adapter::config::{KeyValue, UpstreamFormat, UpstreamVendor};
use ai_adapter::server::{
    access_log_line, anthropic_auth_header, anthropic_reasoning_text, bearer_header, build_compact_prompt,
    build_upstream_url, chat_route, choose_api_key, compact_anthropic_request, compact_chat_body,
    compact_model, compact_response_with, compact_uses_anthropic, error_body, error_dump_file_name,
    extract_bearer, forwarded_headers, make_compact_response, make_noop_compact, make_noop_compact_with,
    passthrough_url, reasoning_session, reasoning_to_save, redact_headers, responses_route,
    strip_output_markers, truncate_for_log, truncate_reasoning, upstream_failure_message, upstream_model,
    upstream_status_message, ChatRoute, ResponsesRoute,
};
use ai_adapter::server::{blank_body_answer, DoneMarker};
use ai_adapter::types::anthropic::{AnthropicContentBlock, AnthropicMessageContent, AnthropicResponse, AnthropicUsage};
use ai_adapter::types::chat::{ChatChoice, ChatCompletionsResponse, ChatMessage};
use ai_adapter::types::responses::{
    CompactRequest, Instructions, ResponsesContentPart, ResponsesInputItem, ResponsesOutputCompactItem,
    ResponsesOutputItem, ResponsesResponse,
};
use serde_json::Value;

#[test]
fn upstream_url_does_not_double_the_version() {
    assert_eq!(
        build_upstream_url("https://api.deepseek.com/v1", "/v1/chat/completions"),
        "https://api.deepseek.com/v1/chat/completions"
    );
    assert_eq!(
        build_upstream_url("https://api.deepseek.com/v1/", "/v1/chat/completions"),
        "https://api.deepseek.com/v1/chat/completions"
    );
    assert_eq!(build_upstream_url("https://api.openai.com", "/v1/responses"), "https://api.openai.com/v1/responses");
    assert_eq!(
        build_upstream_url("https://h/v1/chat/completions", "/v1/chat/completions"),
        "https://h/v1/chat/completions"
    );
    assert_eq!(build_upstream_url("https://h/anthropic", "/v1/messages"), "https://h/anthropic/v1/messages");
}

#[test]
fn bearer_and_key_choice() {
    assert_eq!(extract_bearer(Some("Bearer sk-1")), Some("sk-1".to_string()));
    assert_eq!(extract_bearer(Some("sk-2")), Some("sk-2".to_string()));
    assert_eq!(extract_bearer(None), None);
    let client = Some("client".to_string());
    let conf = Some("conf".to_string());
    assert_eq!(choose_api_key(true, client.clone(), conf.clone()), client);
    assert_eq!(choose_api_key(false, client.clone(), conf.clone()), conf);
    assert_eq!(choose_api_key(false, client.clone(), None), client);
    assert_eq!(choose_api_key(true, None, conf.clone()), conf);
    assert_eq!(choose_api_key(true, None, None), None);
}

#[test]
fn reasoning_is_cut_on_a_character_boundary() {
    let short = "abc".to_string();
    assert_eq!(truncate_reasoning(short.clone(), true), "abc");
    let long = "é".repeat(20000);
    assert_eq!(truncate_reasoning(long.clone(), false), long);
    let cut = truncate_reasoning(long.clone(), true);
    assert_eq!(cut.len(), 32768);
    let odd = format!("a{}", "é".repeat(20000));
    let cut = truncate_reasoning(odd, true);
    assert_eq!(cut.len(), 32767);
    assert!(cut.starts_with('a'));
}

#[test]
fn logged_bodies_are_cut() {
    assert_eq!(truncate_for_log("hello", 10), "hello");
    assert_eq!(truncate_for_log("hello world", 5), "hello... [truncated 6 bytes]");
}

fn text(t: &str) -> ResponsesContentPart {
    ResponsesContentPart::InputText { text: t.into() }
}

#[test]
fn compact_prompt_lists_the_conversation() {
    let req = CompactRequest {
        input: vec![
            ResponsesInputItem::Message { role: "user".into(), content: Some(vec![text("hi"), text("there")]), id: None, name: None },
            ResponsesInputItem::Message { role: "user".into(), content: None, id: None, name: None },
            ResponsesInputItem::FunctionCall { call_id: "c".into(), name: "f".into(), arguments: "{}".into(), id: None, status: None },
            ResponsesInputItem::FunctionCallOutput { call_id: "c".into(), output: "ok".into(), id: None, status: None },
        ],
        instructions: None,
        model: None,
    };
    assert_eq!(
        build_compact_prompt(&req),
        "Please summarize the following conversation. Summarize the conversation above, preserving key decisions, code changes, and context.\n\nConversation:\n[user]: hi\nthere\n[assistant function_call]: f ({})\n[tool output]: ok"
    );
    let req = CompactRequest { input: vec![], instructions: Some(Instructions("Keep it short.".into())), model: None };
    assert_eq!(build_compact_prompt(&req), "Please summarize the following conversation. Keep it short.\n\nConversation:\n");
}

fn compact_text(r: &ai_adapter::types::responses::CompactResponse) -> String {
    match &r.output[0] {
        ResponsesOutputCompactItem::Message { content, .. } => match &content[0] {
            ResponsesContentPart::OutputText { text } => text.clone(),
            _ => panic!("expected output text"),
        },
    }
}

#[test]
fn compact_responses() {
    let r = make_noop_compact_with("a", "b");
    assert_eq!(r.id, "compact_a");
    assert_eq!(r.object, "response.compact");
    assert_eq!(compact_text(&r), "Conversation context preserved (no-op compact).");
    match &r.output[0] {
        ResponsesOutputCompactItem::Message { id, role, status, .. } => {
            assert_eq!(id, "msg_b");
            assert_eq!(role, "assistant");
            assert_eq!(status, "completed");
        },
    }
    let r = compact_response_with("x", "y", "sum");
    assert_eq!(compact_text(&r), "sum");
    let r = make_noop_compact();
    assert_eq!(r.id.len(), "compact_".len() + 36);
    let r = make_compact_response("");
    assert_eq!(compact_text(&r), "Conversation context preserved.");
    let r = make_compact_response("the summary");
    assert_eq!(compact_text(&r), "the summary");
    assert!(r.id.starts_with("compact_"));
}

#[test]
fn compact_requests() {
    assert_eq!(compact_model(Some("a".into()), Some("b".into()), "c"), "a");
    assert_eq!(compact_model(None, Some("b".into()), "c"), "b");
    assert_eq!(compact_model(None, None, "c"), "c");
    let body = compact_chat_body("gpt-4o", "line \"1\"\nline 2");
    assert_eq!(
        body,
        "{\"max_tokens\":4096,\"messages\":[{\"content\":\"line \\\"1\\\"\\nline 2\",\"role\":\"user\"}],\"model\":\"gpt-4o\",\"temperature\":0.3}"
    );
    let v: Value = serde_json::from_str(&body).unwrap();
    assert_eq!(v["messages"][0]["content"], "line \"1\"\nline 2");
    let a = compact_anthropic_request("m".into(), "p");
    assert_eq!(a.max_tokens, 4096);
    assert_eq!(a.stream, Some(false));
    assert_eq!(a.messages.len(), 1);
    assert!(matches!(&a.messages[0].content, AnthropicMessageContent::String(s) if s == "p"));
    assert!(compact_uses_anthropic(UpstreamFormat::Anthropic));
    assert!(!compact_uses_anthropic(UpstreamFormat::Responses));
}

#[test]
fn routes_follow_the_upstream_format() {
    assert_eq!(chat_route(UpstreamFormat::OpenAiChat), ChatRoute::Passthrough);
    assert_eq!(chat_route(UpstreamFormat::Responses), ChatRoute::ViaResponses);
    assert_eq!(chat_route(UpstreamFormat::Anthropic), ChatRoute::ViaAnthropic);
    assert_eq!(responses_route(UpstreamFormat::Responses), ResponsesRoute::Passthrough);
    assert_eq!(responses_route(UpstreamFormat::OpenAiChat), ResponsesRoute::ViaChat);
    assert_eq!(responses_route(UpstreamFormat::Anthropic), ResponsesRoute::ViaAnthropic);
}

fn kv(k: &str, v: &str) -> KeyValue {
    KeyValue { key: k.into(), value: v.into() }
}

#[test]
fn headers() {
    let b = bearer_header("k");
    assert_eq!((b.key.as_str(), b.value.as_str()), ("authorization", "Bearer k"));
    let a = anthropic_auth_header(UpstreamVendor::Anthropic, "k");
    assert_eq!((a.key.as_str(), a.value.as_str()), ("x-api-key", "k"));
    let m = anthropic_auth_header(UpstreamVendor::XiaomiMimo, "k");
    assert_eq!((m.key.as_str(), m.value.as_str()), ("authorization", "Bearer k"));
    let hs = vec![kv("content-type", "a"), kv("transfer-encoding", "chunked"), kv("connection", "close"), kv("x", "y")];
    let f = forwarded_headers(&hs);
    let names: Vec<&str> = f.iter().map(|h| h.key.as_str()).collect();
    assert_eq!(names, vec!["content-type", "x"]);
    let r = redact_headers(&vec![kv("authorization", "Bearer s"), kv("cookie", "c"), kv("accept", "a")]);
    assert_eq!(r[0].value, "***REDACTED***");
    assert_eq!(r[1].value, "***REDACTED***");
    assert_eq!(r[2].value, "a");
    assert_eq!(upstream_model(Some("real"), "asked"), "real");
    assert_eq!(upstream_model(None, "asked"), "asked");
    assert_eq!(passthrough_url("https://h//", "/v1/models"), "https://h/v1/models");
}

#[test]
fn error_bodies_and_logs() {
    let body = error_body("Invalid request: bad \"x\"");
    let v: Value = serde_json::from_str(&body).unwrap();
    assert_eq!(v["error"]["message"], "Invalid request: bad \"x\"");
    assert_eq!(upstream_status_message(429, "slow down"), "Upstream error 429: slow down");
    assert_eq!(upstream_failure_message(500, "boom"), "Upstream 500: boom");
    assert_eq!(
        access_log_line("2024-01-01T00:00:00Z", "GET", "/v1/models", 200, 12),
        "{\"time\":\"2024-01-01T00:00:00Z\",\"method\":\"GET\",\"uri\":\"/v1/models\",\"status\":200,\"latency_ms\":12}"
    );
    assert_eq!(error_dump_file_name("20240101T000000", 502), "proxy-error-20240101T000000-502.json");
    assert_eq!(reasoning_session(Some("s1")), "s1");
    assert_eq!(reasoning_session(None), "unknown");
}

fn choice(reasoning: Option<&str>) -> ChatChoice {
    ChatChoice {
        index: 0,
        message: Some(ChatMessage {
            role: "assistant".into(),
            content: None,
            name: None,
            tool_calls: None,
            tool_call_id: None,
            refusal: None,
            reasoning_content: reasoning.map(|r| r.to_string()),
        }),
        delta: None,
        finish_reason: None,
        logprobs: None,
    }
}

#[test]
fn reasoning_saved_for_the_next_turn() {
    let chat = ChatCompletionsResponse {
        id: "c".into(),
        object: "chat.completion".into(),
        created: 0,
        model: "m".into(),
        choices: vec![choice(Some("one")), choice(Some("")), choice(None), choice(Some("two"))],
        usage: None,
        system_fingerprint: None,
    };
    assert_eq!(reasoning_to_save(&chat), vec!["one".to_string(), "two".to_string()]);
    let resp = AnthropicResponse {
        id: "a".into(),
        response_type: "message".into(),
        role: "assistant".into(),
        content: vec![
            AnthropicContentBlock::Thinking { thinking: "x".into(), signature: None },
            AnthropicContentBlock::Text { text: "t".into(), cache_control: None },
            AnthropicContentBlock::Thinking { thinking: "y".into(), signature: None },
        ],
        model: "m".into(),
        stop_reason: None,
        stop_sequence: None,
        usage: AnthropicUsage { input_tokens: 0, output_tokens: 0, cache_read_input_tokens: None, cache_creation_input_tokens: None },
    };
    assert_eq!(anthropic_reasoning_text(&resp), "x\ny");
}

#[test]
fn markers_are_stripped_from_message_texts() {
    let mut resp = ResponsesResponse {
        id: "r".into(),
        object: "response".into(),
        output: vec![
            ResponsesOutputItem::Message {
                id: "m".into(),
                role: Some("assistant".into()),
                content: vec![ResponsesContentPart::OutputText { text: "[[REASONING_SUMMARY]]a[[REASONING_DIVIDER]]b".into() }],
                status: None,
            },
            ResponsesOutputItem::Reasoning {
                id: "r".into(),
                content: Some(vec![ResponsesContentPart::OutputText { text: "[[REASONING_DIVIDER]]".into() }]),
                summary: None,
                status: None,
            },
        ],
        status: None,
        usage: None,
        model: None,
        incomplete_details: None,
        error: None,
        created_at: None,
        completed_at: None,
    };
    strip_output_markers(&mut resp);
    match &resp.output[0] {
        ResponsesOutputItem::Message { content, .. } => match &content[0] {
            ResponsesContentPart::OutputText { text } => assert_eq!(text, "ab"),
            _ => panic!(),
        },
        _ => panic!(),
    }
    match &resp.output[1] {
        ResponsesOutputItem::Reasoning { content, .. } => match &content.as_ref().unwrap()[0] {
            ResponsesContentPart::OutputText { text } => assert_eq!(text, "[[REASONING_DIVIDER]]"),
            _ => panic!(),
        },
        _ => panic!(),
    }
}

#[test]
fn upstream_url_built_twice_is_unchanged() {
    for (base, path) in [
        ("https://api.deepseek.com/v1/", "/v1/chat/completions"),
        ("https://api.deepseek.com", "/v1/messages"),
        ("https://api.deepseek.com/anthropic", "/v1/messages"),
        ("https://api.openai.com/v1/responses", "/v1/responses"),
    ] {
        let u = build_upstream_url(base, path);
        assert!(u.ends_with(path));
        assert_eq!(build_upstream_url(&u, path), u);
    }
}

#[test]
fn blank_bodies_get_an_empty_object() {
    assert_eq!(blank_body_answer(""), Some("{}".to_string()));
    assert_eq!(blank_body_answer(" \n\t"), Some("{}".to_string()));
    assert_eq!(blank_body_answer("{\"model\":\"m\"}"), None);
}

#[test]
fn done_marker_goes_out_once() {
    let mut d = DoneMarker::new();
    assert!(d.take());
    assert!(!d.take());
    assert!(!d.take());
}
