use ai_adapter::stream::framing::{frame_lines, trimmed_lines, SseFrameBuffer, SseLine};
use ai_adapter::stream::sse::{
    event_type_str, parse_sse_line, AnthropicStreamTranslator, ChatChunk, ChatStreamChunk,
    ChatStreamToResponsesTranslator, ChunkChoice, ChunkDelta, ChunkToolCall, ChunkUsage,
    ResponsesStreamToChatTranslator,
};
use ai_adapter::types::anthropic::{
    AnthropicContentBlock, AnthropicContentBlockDelta, AnthropicDeltaUsage, AnthropicMessageDeltaBody,
    AnthropicResponse, AnthropicStreamEvent, AnthropicUsage,
};
use ai_adapter::types::responses::{ResponsesContentPart, ResponsesOutputItem, ResponsesStreamEvent};

fn types(events: &[ResponsesStreamEvent]) -> Vec<&'static str> {
    events.iter().map(event_type_str).collect()
}

#[test]
fn sse_lines() {
    let e = parse_sse_line("  event: message_start ").unwrap();
    assert_eq!(e.event.as_deref(), Some("message_start"));
    assert_eq!(e.data, "");
    let d = parse_sse_line("data: {\"a\":1}").unwrap();
    assert_eq!(d.event, None);
    assert_eq!(d.data, "{\"a\":1}");
    assert_eq!(parse_sse_line("data:").unwrap().data, "");
    assert!(parse_sse_line("   ").is_none());
    assert!(parse_sse_line(": comment").is_none());
}

#[test]
fn frames_complete_only_at_blank_lines() {
    let mut b = SseFrameBuffer::new();
    assert!(b.push("data: a\n").is_empty());
    assert_eq!(b.push("\ndata: b\n\ndata: c"), vec!["data: a".to_string(), "data: b".to_string()]);
    assert_eq!(b.push("\n\n"), vec!["data: c".to_string()]);
    // The same text in one piece gives the same frames.
    let mut whole = SseFrameBuffer::new();
    assert_eq!(
        whole.push("data: a\n\ndata: b\n\ndata: c\n\n"),
        vec!["data: a".to_string(), "data: b".to_string(), "data: c".to_string()]
    );
}

#[test]
fn frame_lines_classify() {
    let lines = frame_lines("event: x\r\ndata:  {\"k\":1} \n[DONE]\n\ndata:\nother");
    assert_eq!(lines.len(), 3);
    assert!(matches!(&lines[0], SseLine::Data(d) if d == "{\"k\":1}"));
    assert!(matches!(&lines[1], SseLine::Done));
    assert!(matches!(&lines[2], SseLine::Data(d) if d.is_empty()));
    assert_eq!(trimmed_lines(" a \n\n b"), vec!["a".to_string(), "b".to_string()]);
}

fn usage(i: u32, o: u32) -> AnthropicUsage {
    AnthropicUsage { input_tokens: i, output_tokens: o, cache_read_input_tokens: None, cache_creation_input_tokens: None }
}

fn start_event() -> AnthropicStreamEvent {
    AnthropicStreamEvent::MessageStart {
        message: AnthropicResponse {
            id: "m".into(),
            response_type: "message".into(),
            role: "assistant".into(),
            content: vec![],
            model: "x".into(),
            stop_reason: None,
            stop_sequence: None,
            usage: usage(10, 0),
        },
    }
}

#[test]
fn anthropic_text_stream() {
    let mut t = AnthropicStreamTranslator::new("model-a");
    let mut all: Vec<ResponsesStreamEvent> = Vec::new();
    let events = vec![
        start_event(),
        AnthropicStreamEvent::ContentBlockStart {
            index: 0,
            content_block: AnthropicContentBlock::Text { text: String::new(), cache_control: None },
        },
        AnthropicStreamEvent::ContentBlockDelta { index: 0, delta: AnthropicContentBlockDelta::TextDelta { text: "Hel".into() } },
        AnthropicStreamEvent::ContentBlockDelta { index: 0, delta: AnthropicContentBlockDelta::TextDelta { text: "lo".into() } },
        AnthropicStreamEvent::ContentBlockStop { index: 0 },
        AnthropicStreamEvent::MessageDelta {
            delta: AnthropicMessageDeltaBody { stop_reason: Some("end_turn".into()), stop_sequence: None },
            usage: AnthropicDeltaUsage { output_tokens: 5 },
        },
        AnthropicStreamEvent::MessageStop,
    ];
    for e in &events {
        assert!(t.accepts(e));
        all.extend(t.process_event(e));
    }
    let ty = types(&all);
    assert_eq!(ty[0], "response.created");
    assert_eq!(ty[1], "response.in_progress");
    assert!(ty.contains(&"response.output_text.delta"));
    assert_eq!(*ty.last().unwrap(), "response.completed");
    for (i, e) in all.iter().enumerate() {
        let n = match e {
            ResponsesStreamEvent::ResponseCreated { sequence_number, .. }
            | ResponsesStreamEvent::ResponseInProgress { sequence_number, .. }
            | ResponsesStreamEvent::OutputItemAdded { sequence_number, .. }
            | ResponsesStreamEvent::ContentPartAdded { sequence_number, .. }
            | ResponsesStreamEvent::OutputTextDelta { sequence_number, .. }
            | ResponsesStreamEvent::OutputTextDone { sequence_number, .. }
            | ResponsesStreamEvent::ContentPartDone { sequence_number, .. }
            | ResponsesStreamEvent::OutputItemDone { sequence_number, .. }
            | ResponsesStreamEvent::ResponseCompleted { sequence_number, .. } => *sequence_number,
            _ => continue,
        };
        assert_eq!(n as usize, i);
    }
    match all.last().unwrap() {
        ResponsesStreamEvent::ResponseCompleted { response, .. } => {
            let u = response.usage.as_ref().unwrap();
            assert_eq!(u.input_tokens, 10);
            assert_eq!(u.output_tokens, 5);
            assert_eq!(u.total_tokens, 15);
        },
        _ => panic!("expected completion"),
    }
    assert!(t.closing_events().is_empty());
}

#[test]
fn anthropic_stream_cut_short_is_completed_at_the_end() {
    let mut t = AnthropicStreamTranslator::new("model-a");
    assert!(t.closing_events().is_empty());
    t.process_event(&start_event());
    assert!(t.usage_fits_now());
    let closing = t.closing_events();
    assert_eq!(closing.len(), 1);
    assert!(matches!(&closing[0], ResponsesStreamEvent::ResponseCompleted { sequence_number: 0, .. }));
}

fn chunk(content: Option<&str>, finish: Option<&str>) -> ChatChunk {
    ChatChunk {
        choices: Some(vec![ChunkChoice {
            finish_reason: finish.map(|f| f.to_string()),
            delta: Some(ChunkDelta {
                content: content.map(|c| c.to_string()),
                refusal: None,
                reasoning_content: None,
                tool_calls: None,
            }),
        }]),
        usage: None,
    }
}

#[test]
fn chat_stream_text_then_stop() {
    let mut t = ChatStreamToResponsesTranslator::new("m");
    let mut all = t.process_chunk(&chunk(Some("Hi"), None));
    all.extend(t.process_chunk(&chunk(Some(" there"), Some("stop"))));
    assert!(t.is_finished());
    let ty = types(&all);
    assert_eq!(&ty[..4], &["response.created", "response.in_progress", "response.output_item.added", "response.content_part.added"]);
    assert_eq!(*ty.last().unwrap(), "response.completed");
    let done_text = all.iter().find_map(|e| match e {
        ResponsesStreamEvent::OutputTextDone { text, .. } => Some(text.clone()),
        _ => None,
    });
    assert_eq!(done_text.as_deref(), Some("Hi there"));
    // A finished stream is left alone at its end.
    assert!(t.finish_stream().is_empty());
}

#[test]
fn chat_stream_closed_at_end_without_finish_reason() {
    let mut t = ChatStreamToResponsesTranslator::new("m");
    t.process_chunk(&chunk(Some("partial"), None));
    assert!(!t.is_finished());
    let closing = t.finish_stream();
    assert!(t.is_finished());
    assert_eq!(event_type_str(closing.last().unwrap()), "response.completed");
    let texts: Vec<String> = closing
        .iter()
        .filter_map(|e| match e {
            ResponsesStreamEvent::OutputTextDone { text, .. } => Some(text.clone()),
            _ => None,
        })
        .collect();
    assert_eq!(texts, vec!["partial".to_string(), "partial".to_string()]);
}

#[test]
fn chat_stream_tool_call_and_usage() {
    let mut t = ChatStreamToResponsesTranslator::new("m");
    let c = ChatChunk {
        choices: Some(vec![ChunkChoice {
            finish_reason: None,
            delta: Some(ChunkDelta {
                content: None,
                refusal: None,
                reasoning_content: Some("think".into()),
                tool_calls: Some(vec![ChunkToolCall {
                    index: Some(0),
                    id: Some("call_a".into()),
                    name: Some("f".into()),
                    arguments: Some("{\"x\":".into()),
                }]),
            }),
        }]),
        usage: Some(ChunkUsage {
            prompt_tokens: Some(3),
            completion_tokens: Some(4),
            total_tokens: Some(7),
            cached_tokens: None,
            reasoning_tokens: None,
        }),
    };
    let mut all = t.process_chunk(&c);
    assert_eq!(t.reasoning_content, "think");
    all.extend(t.process_chunk(&chunk(None, Some("tool_calls"))));
    let args_done = all.iter().find_map(|e| match e {
        ResponsesStreamEvent::FunctionCallArgsDone { arguments, name, .. } => Some((arguments.clone(), name.clone())),
        _ => None,
    });
    assert_eq!(args_done, Some(("{\"x\":".to_string(), "f".to_string())));
    match all.last().unwrap() {
        ResponsesStreamEvent::ResponseCompleted { response, .. } => {
            assert_eq!(response.usage.as_ref().unwrap().total_tokens, 7);
            assert!(response.output.iter().any(|o| matches!(o, ResponsesOutputItem::FunctionCall { .. })));
        },
        _ => panic!("expected completion"),
    }
}

#[test]
fn responses_stream_to_chat() {
    let mut t = ResponsesStreamToChatTranslator::new("m");
    let out = t.process_event(&ResponsesStreamEvent::OutputTextDelta {
        output_index: 0,
        content_index: 0,
        delta: "abc".into(),
        item_id: None,
        sequence_number: 3,
    });
    assert_eq!(out.len(), 1);
    match &out[0] {
        ChatStreamChunk::Chunk { model, delta, .. } => {
            assert_eq!(model, "m");
            assert!(matches!(&delta.content, Some(ai_adapter::types::chat::ChatContent::String(s)) if s == "abc"));
        },
        ChatStreamChunk::Done => panic!("expected a chunk"),
    }
    let _ = ResponsesContentPart::OutputText { text: String::new() };
}

fn seq_number(e: &ResponsesStreamEvent) -> u32 {
    match e {
        ResponsesStreamEvent::ResponseCreated { sequence_number, .. }
        | ResponsesStreamEvent::ResponseInProgress { sequence_number, .. }
        | ResponsesStreamEvent::OutputItemAdded { sequence_number, .. }
        | ResponsesStreamEvent::ContentPartAdded { sequence_number, .. }
        | ResponsesStreamEvent::OutputTextDelta { sequence_number, .. }
        | ResponsesStreamEvent::RefusalDelta { sequence_number, .. }
        | ResponsesStreamEvent::FunctionCallArgsDelta { sequence_number, .. }
        | ResponsesStreamEvent::FunctionCallArgsDone { sequence_number, .. }
        | ResponsesStreamEvent::ReasoningTextDelta { sequence_number, .. }
        | ResponsesStreamEvent::OutputItemDone { sequence_number, .. }
        | ResponsesStreamEvent::ContentPartDone { sequence_number, .. }
        | ResponsesStreamEvent::OutputTextDone { sequence_number, .. }
        | ResponsesStreamEvent::ResponseCompleted { sequence_number, .. }
        | ResponsesStreamEvent::Error { sequence_number, .. } => *sequence_number,
    }
}

#[test]
fn chat_stream_events_are_numbered_in_order() {
    let mut t = ChatStreamToResponsesTranslator::new("m");
    let mut all = t.process_chunk(&chunk(Some("Hello "), None));
    all.extend(t.process_chunk(&chunk(Some("<function-call>\n{\"name\": \"f\", \"arguments\": {\"a\": 1}}\n</function-call>"), None)));
    all.extend(t.process_chunk(&chunk(None, None)));
    all.extend(t.finalize());
    let numbers: Vec<u32> = all.iter().map(seq_number).collect();
    let expected: Vec<u32> = (0..all.len() as u32).collect();
    assert_eq!(numbers, expected);
    assert!(matches!(all[0], ResponsesStreamEvent::ResponseCreated { .. }));
    assert!(matches!(all[1], ResponsesStreamEvent::ResponseInProgress { .. }));
    assert_eq!(all.iter().filter(|e| matches!(e, ResponsesStreamEvent::ResponseCreated { .. })).count(), 1);
    let texts: Vec<String> = all
        .iter()
        .filter_map(|e| match e {
            ResponsesStreamEvent::OutputTextDone { text, .. } => Some(text.clone()),
            _ => None,
        })
        .collect();
    assert_eq!(texts.len(), 2);
    assert!(texts[0].starts_with("Hello <function-call>"));
    assert_eq!(texts[1], "Hello");
    assert!(all.iter().any(|e| matches!(e,
        ResponsesStreamEvent::OutputItemDone { item: ResponsesOutputItem::FunctionCall { name, .. }, .. } if name == "f")));
    assert!(matches!(all.last().unwrap(), ResponsesStreamEvent::ResponseCompleted { .. }));
}

#[test]
fn anthropic_tool_input_pieces_are_joined() {
    let mut t = AnthropicStreamTranslator::new("model-a");
    t.process_event(&start_event());
    t.process_event(&AnthropicStreamEvent::ContentBlockStart {
        index: 1,
        content_block: AnthropicContentBlock::ToolUse { id: "toolu_1".into(), name: "get".into(), input: "{}".into() },
    });
    for piece in ["{\"ci", "ty\":", "\"Berlin\"}"] {
        t.process_event(&AnthropicStreamEvent::ContentBlockDelta {
            index: 1,
            delta: AnthropicContentBlockDelta::InputJsonDelta { partial_json: piece.into() },
        });
    }
    let stop = t.process_event(&AnthropicStreamEvent::ContentBlockStop { index: 1 });
    assert_eq!(stop.len(), 2);
    match &stop[0] {
        ResponsesStreamEvent::FunctionCallArgsDone { output_index, arguments, name, item_id, .. } => {
            assert_eq!(*output_index, 1);
            assert_eq!(arguments, "{\"city\":\"Berlin\"}");
            assert_eq!(name, "get");
            assert_eq!(item_id.as_deref(), Some("toolu_1"));
        },
        _ => panic!("expected the arguments"),
    }
    match &stop[1] {
        ResponsesStreamEvent::OutputItemDone { item: ResponsesOutputItem::FunctionCall { call_id, arguments, status, .. }, .. } => {
            assert_eq!(call_id, "toolu_1");
            assert_eq!(arguments, "{\"city\":\"Berlin\"}");
            assert_eq!(status.as_deref(), Some("completed"));
        },
        _ => panic!("expected the item"),
    }
}

#[test]
fn anthropic_response_is_announced_once() {
    let mut t = AnthropicStreamTranslator::new("model-a");
    let first = t.process_event(&start_event());
    assert_eq!(first.len(), 2);
    match &first[0] {
        ResponsesStreamEvent::ResponseCreated { response, sequence_number } => {
            assert_eq!(*sequence_number, 0);
            assert_eq!(response.status.as_deref(), Some("in_progress"));
            assert_eq!(response.model.as_deref(), Some("x"));
            assert_eq!(response.usage.as_ref().unwrap().input_tokens, 10);
        },
        _ => panic!("expected the created event"),
    }
    assert!(matches!(first[1], ResponsesStreamEvent::ResponseInProgress { sequence_number: 1, .. }));
    assert!(t.started);
    assert!(t.process_event(&start_event()).is_empty());
}

#[test]
fn responses_completion_is_answered_once() {
    let completed = || ResponsesStreamEvent::ResponseCompleted {
        response: ai_adapter::types::responses::ResponsesResponse {
            id: "r".into(),
            object: "response".into(),
            output: vec![],
            status: Some("completed".into()),
            usage: None,
            model: None,
            incomplete_details: None,
            error: None,
            created_at: None,
            completed_at: None,
        },
        sequence_number: 9,
    };
    let mut t = ResponsesStreamToChatTranslator::new("m");
    let first = t.process_event(&completed());
    assert_eq!(first.len(), 2);
    assert!(matches!(first[1], ChatStreamChunk::Done));
    assert!(t.process_event(&completed()).is_empty());
}

#[test]
fn chat_finish_reason_finishes_the_response() {
    let mut t = ChatStreamToResponsesTranslator::new("m");
    assert!(!t.is_finished());
    t.process_chunk(&chunk(Some("x"), Some("length")));
    assert!(t.is_finished());
    t.process_chunk(&chunk(Some("y"), None));
    assert!(t.is_finished());
}
