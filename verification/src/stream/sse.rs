//! Server-sent events: parsing SSE lines, and translating event streams
//! between the Anthropic Messages, Chat Completions and Responses APIs.

use vstd::prelude::*;
use crate::text::{concat, has_prefix, owned, remove_all, remove_all_str, str_eq, take_string, trim, trim_str};
use crate::ids::{new_uuid, now_unix};
use crate::json::opt_seq;
use crate::translate::openai::chat::{xml_tool_call_parts, xml_tool_calls_spec};
use crate::types::anthropic::{
    AnthropicContentBlock, AnthropicContentBlockDelta, AnthropicContentBlockDeltaModel,
    AnthropicContentBlockModel, AnthropicStreamEvent, AnthropicStreamEventModel,
};
use crate::types::chat::{
    ChatContent, ChatContentModel, ChatDelta, ChatDeltaModel, ChatUsage, ChatUsageModel,
    CompletionTokensDetails, CompletionTokensDetailsModel, FunctionCallDelta, FunctionCallDeltaModel,
    PromptTokensDetails, PromptTokensDetailsModel, ToolCallDelta, ToolCallDeltaModel,
};
use crate::types::responses::{
    InputTokensDetails, InputTokensDetailsModel, OutputTokensDetails, OutputTokensDetailsModel,
    ResponsesContentPart, ResponsesContentPartModel, ResponsesOutputItem, ResponsesOutputItemModel,
    ResponsesResponse, ResponsesResponseModel, ResponsesStreamEvent, ResponsesStreamEventModel,
    ResponsesUsage, ResponsesUsageModel,
};

verus! {
// ===========================================================================
// SSE lines
// ===========================================================================

/// A parsed SSE line: an `event:` line names the event, a `data:` line
/// carries data.
pub struct SseEvent {
    pub event: Option<String>,
    pub data: String,
}

/// The model of an [`SseEvent`].
pub struct SseEventModel {
    pub event: Option<Seq<char>>,
    pub data: Seq<char>,
}

impl View for SseEvent {
    type V = SseEventModel;

    open spec fn view(&self) -> SseEventModel {
        SseEventModel { event: opt_seq(self.event), data: self.data@ }
    }
}

/// What an SSE line parses to: after trimming, `event: name` gives the
/// trimmed name, `data: text` the trimmed text; blank and other lines give
/// nothing.
pub open spec fn parse_sse_line_spec(line: Seq<char>) -> Option<SseEventModel> {
    let t = trim(line);
    if t.len() == 0 {
        None
    } else if has_prefix(t, "event:"@) {
        Some(SseEventModel { event: Some(trim(t.subrange(6, t.len() as int))), data: seq![] })
    } else if has_prefix(t, "data:"@) {
        Some(SseEventModel { event: None, data: trim(t.subrange(5, t.len() as int)) })
    } else {
        None
    }
}

/// Parses one line of an SSE stream (see [`parse_sse_line_spec`]).
pub fn parse_sse_line(line: &str) -> (r: Option<SseEvent>)
    ensures
        match r {
            Some(e) => parse_sse_line_spec(line@) == Some(e@),
            None => parse_sse_line_spec(line@) is None,
        },
{
    proof {
        reveal_strlit("event:");
        reveal_strlit("data:");
    }
    let t = trim_str(line);
    let n = t.unicode_len();
    if n == 0 {
        return None;
    }
    if crate::text::starts_with(t.as_str(), "event:") {
        let v = crate::text::chars_of(t.as_str());
        let rest = crate::text::string_from(&v, 6, n);
        Some(SseEvent { event: Some(trim_str(rest.as_str())), data: String::new() })
    } else if crate::text::starts_with(t.as_str(), "data:") {
        let data = if n > 5 {
            let v = crate::text::chars_of(t.as_str());
            let rest = crate::text::string_from(&v, 5, n);
            trim_str(rest.as_str())
        } else {
            proof {
                assert(t@.subrange(5, t@.len() as int) =~= Seq::<char>::empty());
                assert(trim(Seq::<char>::empty()) == Seq::<char>::empty());
            }
            String::new()
        };
        Some(SseEvent { event: None, data })
    } else {
        None
    }
}

/// The SSE event name of a Responses stream event.
pub open spec fn event_type_spec(e: ResponsesStreamEventModel) -> Seq<char> {
    match e {
        ResponsesStreamEventModel::ResponseCreated { .. } => "response.created"@,
        ResponsesStreamEventModel::ResponseInProgress { .. } => "response.in_progress"@,
        ResponsesStreamEventModel::OutputItemAdded { .. } => "response.output_item.added"@,
        ResponsesStreamEventModel::ContentPartAdded { .. } => "response.content_part.added"@,
        ResponsesStreamEventModel::OutputTextDelta { .. } => "response.output_text.delta"@,
        ResponsesStreamEventModel::RefusalDelta { .. } => "response.refusal.delta"@,
        ResponsesStreamEventModel::FunctionCallArgsDelta { .. } => "response.function_call_arguments.delta"@,
        ResponsesStreamEventModel::FunctionCallArgsDone { .. } => "response.function_call_arguments.done"@,
        ResponsesStreamEventModel::ReasoningTextDelta { .. } => "response.reasoning_text.delta"@,
        ResponsesStreamEventModel::OutputItemDone { .. } => "response.output_item.done"@,
        ResponsesStreamEventModel::ContentPartDone { .. } => "response.content_part.done"@,
        ResponsesStreamEventModel::OutputTextDone { .. } => "response.output_text.done"@,
        ResponsesStreamEventModel::ResponseCompleted { .. } => "response.completed"@,
        ResponsesStreamEventModel::Error { .. } => "error"@,
    }
}

/// The SSE event name under which a Responses stream event is sent.
pub fn event_type_str(event: &ResponsesStreamEvent) -> (r: &'static str)
    ensures
        r@ == event_type_spec(event@),
{
    match event {
        ResponsesStreamEvent::ResponseCreated { .. } => "response.created",
        ResponsesStreamEvent::ResponseInProgress { .. } => "response.in_progress",
        ResponsesStreamEvent::OutputItemAdded { .. } => "response.output_item.added",
        ResponsesStreamEvent::ContentPartAdded { .. } => "response.content_part.added",
        ResponsesStreamEvent::OutputTextDelta { .. } => "response.output_text.delta",
        ResponsesStreamEvent::RefusalDelta { .. } => "response.refusal.delta",
        ResponsesStreamEvent::FunctionCallArgsDelta { .. } => "response.function_call_arguments.delta",
        ResponsesStreamEvent::FunctionCallArgsDone { .. } => "response.function_call_arguments.done",
        ResponsesStreamEvent::ReasoningTextDelta { .. } => "response.reasoning_text.delta",
        ResponsesStreamEvent::OutputItemDone { .. } => "response.output_item.done",
        ResponsesStreamEvent::ContentPartDone { .. } => "response.content_part.done",
        ResponsesStreamEvent::OutputTextDone { .. } => "response.output_text.done",
        ResponsesStreamEvent::ResponseCompleted { .. } => "response.completed",
        ResponsesStreamEvent::Error { .. } => "error",
    }
}


// ===========================================================================
// Anthropic events to Responses events
// ===========================================================================


/// The kind of content block being streamed.
#[derive(PartialEq, Eq, Structural, Clone, Copy, Debug)]
pub enum BlockKind {
    Text,
    ToolUse,
    Thinking,
}

/// Translates a stream of Anthropic events into Responses events.
pub struct AnthropicStreamTranslator {
    pub response_id: String,
    model: String,
    output_index: u32,
    content_index: u32,
    input_tokens: u32,
    output_tokens: u32,
    cache_read_tokens: Option<u32>,
    cache_creation_tokens: Option<u32>,
    current_text_content: String,
    current_tool_name: String,
    current_tool_id: String,
    current_tool_arguments: String,
    current_reasoning: String,
    current_block_type: Option<BlockKind>,
    item_id: String,
    pub started: bool,
    has_tool_call: bool,
    seq: u32,
    pub event_completed: bool,
    created: i64,
    pub reasoning_content: String,
}

/// The model of an [`AnthropicStreamTranslator`].
pub struct AnthropicStreamState {
    pub response_id: Seq<char>,
    pub model: Seq<char>,
    pub output_index: u32,
    pub content_index: u32,
    pub input_tokens: u32,
    pub output_tokens: u32,
    pub cache_read_tokens: Option<u32>,
    pub cache_creation_tokens: Option<u32>,
    pub text: Seq<char>,
    pub tool_name: Seq<char>,
    pub tool_id: Seq<char>,
    pub tool_arguments: Seq<char>,
    pub reasoning: Seq<char>,
    pub block: Option<BlockKind>,
    pub item_id: Seq<char>,
    pub started: bool,
    pub has_tool_call: bool,
    pub seq: u32,
    pub event_completed: bool,
    pub created: i64,
    pub reasoning_content: Seq<char>,
}

impl View for AnthropicStreamTranslator {
    type V = AnthropicStreamState;

    closed spec fn view(&self) -> AnthropicStreamState {
        AnthropicStreamState {
            response_id: self.response_id@,
            model: self.model@,
            output_index: self.output_index,
            content_index: self.content_index,
            input_tokens: self.input_tokens,
            output_tokens: self.output_tokens,
            cache_read_tokens: self.cache_read_tokens,
            cache_creation_tokens: self.cache_creation_tokens,
            text: self.current_text_content@,
            tool_name: self.current_tool_name@,
            tool_id: self.current_tool_id@,
            tool_arguments: self.current_tool_arguments@,
            reasoning: self.current_reasoning@,
            block: self.current_block_type,
            item_id: self.item_id@,
            started: self.started,
            has_tool_call: self.has_tool_call,
            seq: self.seq,
            event_completed: self.event_completed,
            created: self.created,
            reasoning_content: self.reasoning_content@,
        }
    }
}

/// Models of a vector of stream events.
pub open spec fn events_model(v: Seq<ResponsesStreamEvent>) -> Seq<ResponsesStreamEventModel> {
    v.map_values(|e: ResponsesStreamEvent| e@)
}

pub proof fn lemma_events_push(v: Seq<ResponsesStreamEvent>, e: ResponsesStreamEvent)
    ensures
        events_model(v.push(e)) == events_model(v).push(e@),
{
    assert(events_model(v.push(e)) =~= events_model(v).push(e@));
}

/// The state of a new translator.
pub open spec fn anthropic_initial(model: Seq<char>, response_id: Seq<char>, created: i64) -> AnthropicStreamState {
    AnthropicStreamState {
        response_id,
        model,
        output_index: 0,
        content_index: 0,
        input_tokens: 0,
        output_tokens: 0,
        cache_read_tokens: None,
        cache_creation_tokens: None,
        text: seq![],
        tool_name: seq![],
        tool_id: seq![],
        tool_arguments: seq![],
        reasoning: seq![],
        block: None,
        item_id: seq![],
        started: false,
        has_tool_call: false,
        seq: 0,
        event_completed: false,
        created,
        reasoning_content: seq![],
    }
}

/// Cached input tokens: cache reads plus cache writes, 0 without reads.
pub open spec fn cached_tokens_spec(s: AnthropicStreamState) -> int {
    match s.cache_read_tokens {
        Some(c) => c + match s.cache_creation_tokens {
            Some(w) => w as int,
            None => 0,
        },
        None => 0,
    }
}

/// Whether the usage totals of a response fit in 32 bits.
pub open spec fn usage_fits(s: AnthropicStreamState) -> bool {
    s.input_tokens + s.output_tokens <= u32::MAX && cached_tokens_spec(s) <= u32::MAX
}

/// The response envelope at a point of the stream, with the given status,
/// stamped `now`.
pub open spec fn anthropic_response(s: AnthropicStreamState, status: Seq<char>, now: i64) -> ResponsesResponseModel {
    ResponsesResponseModel {
        id: s.response_id,
        object: "response"@,
        output: seq![],
        status: Some(status),
        usage: Some(
            ResponsesUsageModel {
                input_tokens: s.input_tokens,
                output_tokens: s.output_tokens,
                total_tokens: (s.input_tokens + s.output_tokens) as u32,
                input_tokens_details: Some(InputTokensDetailsModel { cached_tokens: Some(cached_tokens_spec(s) as u32) }),
                output_tokens_details: None,
            },
        ),
        model: Some(s.model),
        incomplete_details: None,
        error: None,
        created_at: Some(s.created),
        completed_at: Some(now),
    }
}

/// The state after `message_start` has recorded the usage and model.
pub open spec fn anthropic_started_usage(s: AnthropicStreamState, e: AnthropicStreamEventModel) -> AnthropicStreamState {
    match e {
        AnthropicStreamEventModel::MessageStart { message } => AnthropicStreamState {
            input_tokens: message.usage.input_tokens,
            cache_read_tokens: message.usage.cache_read_input_tokens,
            cache_creation_tokens: message.usage.cache_creation_input_tokens,
            model: message.model,
            ..s
        },
        _ => s,
    }
}

/// The inputs on which a step is defined: the sequence numbers stay in 32
/// bits, and so do the usage totals of any response the step builds.
pub open spec fn anthropic_accepts(s: AnthropicStreamState, e: AnthropicStreamEventModel) -> bool {
    &&& s.seq + 3 <= u32::MAX
    &&& match e {
        AnthropicStreamEventModel::MessageStart { .. } => s.started || usage_fits(anthropic_started_usage(s, e)),
        AnthropicStreamEventModel::MessageStop => usage_fits(s),
        _ => true,
    }
}

/// The output item that opens a text block.
pub open spec fn message_item(id: Seq<char>, content: Seq<ResponsesContentPartModel>, status: Seq<char>) -> ResponsesOutputItemModel {
    ResponsesOutputItemModel::Message { id, role: Some("assistant"@), content, status: Some(status) }
}

/// One step of the translation: the next state and the events that an
/// Anthropic event gives. `fresh` is a fresh identifier (used for new item
/// ids), `now` the current time (stamped on responses).
pub open spec fn anthropic_step(
    s: AnthropicStreamState,
    e: AnthropicStreamEventModel,
    fresh: Seq<char>,
    now: i64,
) -> (AnthropicStreamState, Seq<ResponsesStreamEventModel>) {
    match e {
        AnthropicStreamEventModel::MessageStart { message } => {
            let s1 = anthropic_started_usage(s, e);
            if !s1.started {
                let resp = anthropic_response(s1, "in_progress"@, now);
                (
                    AnthropicStreamState { started: true, seq: (s1.seq + 2) as u32, ..s1 },
                    seq![
                        ResponsesStreamEventModel::ResponseCreated { response: resp, sequence_number: s1.seq },
                        ResponsesStreamEventModel::ResponseInProgress {
                            response: resp,
                            sequence_number: (s1.seq + 1) as u32,
                        },
                    ],
                )
            } else {
                (s1, seq![])
            }
        },
        AnthropicStreamEventModel::ContentBlockStart { index, content_block } => match content_block {
            AnthropicContentBlockModel::Text { .. } => {
                let id = "msg_"@ + fresh;
                (
                    AnthropicStreamState {
                        block: Some(BlockKind::Text),
                        output_index: index,
                        content_index: 0,
                        item_id: id,
                        seq: (s.seq + 2) as u32,
                        ..s
                    },
                    seq![
                        ResponsesStreamEventModel::OutputItemAdded {
                            output_index: index,
                            item: message_item(id, seq![], "in_progress"@),
                            sequence_number: s.seq,
                        },
                        ResponsesStreamEventModel::ContentPartAdded {
                            output_index: index,
                            content_index: 0,
                            part: ResponsesContentPartModel::OutputText { text: seq![] },
                            sequence_number: (s.seq + 1) as u32,
                        },
                    ],
                )
            },
            AnthropicContentBlockModel::ToolUse { id, name, .. } => (
                AnthropicStreamState {
                    block: Some(BlockKind::ToolUse),
                    tool_id: id,
                    tool_name: name,
                    tool_arguments: seq![],
                    has_tool_call: true,
                    item_id: id,
                    seq: (s.seq + 1) as u32,
                    ..s
                },
                seq![
                    ResponsesStreamEventModel::OutputItemAdded {
                        output_index: index,
                        item: ResponsesOutputItemModel::FunctionCall {
                            id: "fc_"@ + fresh,
                            call_id: id,
                            name,
                            arguments: seq![],
                            status: Some("in_progress"@),
                        },
                        sequence_number: s.seq,
                    },
                ],
            ),
            AnthropicContentBlockModel::Thinking { .. } => {
                let id = "rs_"@ + fresh;
                (
                    AnthropicStreamState {
                        block: Some(BlockKind::Thinking),
                        output_index: index,
                        content_index: 0,
                        item_id: id,
                        seq: (s.seq + 1) as u32,
                        ..s
                    },
                    seq![
                        ResponsesStreamEventModel::OutputItemAdded {
                            output_index: index,
                            item: ResponsesOutputItemModel::Reasoning {
                                id,
                                content: Some(seq![]),
                                summary: None,
                                status: Some("in_progress"@),
                            },
                            sequence_number: s.seq,
                        },
                    ],
                )
            },
            _ => (s, seq![]),
        },
        AnthropicStreamEventModel::ContentBlockDelta { index, delta } => match delta {
            AnthropicContentBlockDeltaModel::TextDelta { text } => (
                AnthropicStreamState { text: s.text + text, seq: (s.seq + 1) as u32, ..s },
                seq![
                    ResponsesStreamEventModel::OutputTextDelta {
                        output_index: index,
                        content_index: 0,
                        delta: text,
                        item_id: Some(s.item_id),
                        sequence_number: s.seq,
                    },
                ],
            ),
            AnthropicContentBlockDeltaModel::InputJsonDelta { partial_json } => (
                AnthropicStreamState { tool_arguments: s.tool_arguments + partial_json, seq: (s.seq + 1) as u32, ..s },
                seq![
                    ResponsesStreamEventModel::FunctionCallArgsDelta {
                        output_index: index,
                        delta: partial_json,
                        item_id: Some(s.item_id),
                        sequence_number: s.seq,
                    },
                ],
            ),
            AnthropicContentBlockDeltaModel::ThinkingDelta { thinking } => (
                AnthropicStreamState {
                    reasoning: s.reasoning + thinking,
                    reasoning_content: s.reasoning_content + thinking,
                    seq: (s.seq + 1) as u32,
                    ..s
                },
                seq![
                    ResponsesStreamEventModel::ReasoningTextDelta {
                        output_index: index,
                        content_index: 0,
                        delta: thinking,
                        sequence_number: s.seq,
                    },
                ],
            ),
            _ => (s, seq![]),
        },
        AnthropicStreamEventModel::ContentBlockStop { index } => match s.block {
            Some(BlockKind::Text) => (
                AnthropicStreamState { text: seq![], block: None, seq: (s.seq + 3) as u32, ..s },
                seq![
                    ResponsesStreamEventModel::ContentPartDone {
                        output_index: index,
                        content_index: 0,
                        part: ResponsesContentPartModel::OutputText { text: seq![] },
                        sequence_number: s.seq,
                    },
                    ResponsesStreamEventModel::OutputTextDone {
                        output_index: index,
                        content_index: 0,
                        text: seq![],
                        sequence_number: (s.seq + 1) as u32,
                    },
                    ResponsesStreamEventModel::OutputItemDone {
                        output_index: index,
                        item: message_item(
                            s.item_id,
                            seq![ResponsesContentPartModel::OutputText { text: s.text }],
                            "completed"@,
                        ),
                        sequence_number: (s.seq + 2) as u32,
                    },
                ],
            ),
            Some(BlockKind::ToolUse) => (
                AnthropicStreamState {
                    tool_name: seq![],
                    tool_arguments: seq![],
                    tool_id: seq![],
                    block: None,
                    seq: (s.seq + 2) as u32,
                    ..s
                },
                seq![
                    ResponsesStreamEventModel::FunctionCallArgsDone {
                        output_index: index,
                        arguments: s.tool_arguments,
                        name: s.tool_name,
                        item_id: Some(s.item_id),
                        sequence_number: s.seq,
                    },
                    ResponsesStreamEventModel::OutputItemDone {
                        output_index: index,
                        item: ResponsesOutputItemModel::FunctionCall {
                            id: "fc_"@ + fresh,
                            call_id: s.tool_id,
                            name: s.tool_name,
                            arguments: s.tool_arguments,
                            status: Some("completed"@),
                        },
                        sequence_number: (s.seq + 1) as u32,
                    },
                ],
            ),
            Some(BlockKind::Thinking) => (
                AnthropicStreamState { reasoning: seq![], block: None, seq: (s.seq + 1) as u32, ..s },
                seq![
                    ResponsesStreamEventModel::OutputItemDone {
                        output_index: index,
                        item: ResponsesOutputItemModel::Reasoning {
                            id: s.item_id,
                            content: Some(seq![ResponsesContentPartModel::OutputText { text: s.reasoning }]),
                            summary: None,
                            status: Some("completed"@),
                        },
                        sequence_number: s.seq,
                    },
                ],
            ),
            None => (s, seq![]),
        },
        AnthropicStreamEventModel::MessageDelta { usage, .. } => (
            AnthropicStreamState { output_tokens: usage.output_tokens, ..s },
            seq![],
        ),
        AnthropicStreamEventModel::MessageStop => (
            AnthropicStreamState { event_completed: true, seq: (s.seq + 1) as u32, ..s },
            seq![
                ResponsesStreamEventModel::ResponseCompleted {
                    response: anthropic_response(s, "completed"@, now),
                    sequence_number: s.seq,
                },
            ],
        ),
        AnthropicStreamEventModel::Error { error } => (
            AnthropicStreamState { seq: (s.seq + 1) as u32, ..s },
            seq![
                ResponsesStreamEventModel::Error {
                    code: Some(error.error_type),
                    message: error.message,
                    sequence_number: s.seq,
                },
            ],
        ),
        AnthropicStreamEventModel::Ping => (s, seq![]),
    }
}

impl AnthropicStreamTranslator {
    /// A translator with the given response id and creation time.
    pub fn with_identity(model: &str, response_id: String, created: i64) -> (r: Self)
        ensures
            r@ == anthropic_initial(model@, response_id@, created),
    {
        AnthropicStreamTranslator {
            response_id,
            model: owned(model),
            output_index: 0,
            content_index: 0,
            input_tokens: 0,
            output_tokens: 0,
            cache_read_tokens: None,
            cache_creation_tokens: None,
            current_text_content: String::new(),
            current_tool_name: String::new(),
            current_tool_id: String::new(),
            current_tool_arguments: String::new(),
            current_reasoning: String::new(),
            current_block_type: None,
            item_id: String::new(),
            started: false,
            has_tool_call: false,
            seq: 0,
            event_completed: false,
            created,
            reasoning_content: String::new(),
        }
    }

    /// A translator for `model`, with a fresh `resp_` id, created now.
    pub fn new(model: &str) -> (r: Self)
        ensures
            exists|id: Seq<char>, t: i64| r@ == anthropic_initial(model@, "resp_"@ + id, t),
    {
        let id = concat("resp_", new_uuid().as_str());
        let t = now_unix();
        Self::with_identity(model, id, t)
    }

    /// The sequence number the next event gets.
    pub fn next_sequence_number(&self) -> (r: u32)
        ensures
            r == self@.seq,
    {
        self.seq
    }

    /// Whether [`Self::step`] is defined on this event (see
    /// [`anthropic_accepts`]).
    pub fn accepts(&self, event: &AnthropicStreamEvent) -> (r: bool)
        ensures
            r == anthropic_accepts(self@, event@),
    {
        if self.seq > u32::MAX - 3 {
            return false;
        }
        match event {
            AnthropicStreamEvent::MessageStart { message } => {
                self.started || fits(
                    message.usage.input_tokens,
                    self.output_tokens,
                    message.usage.cache_read_input_tokens,
                    message.usage.cache_creation_input_tokens,
                )
            },
            AnthropicStreamEvent::MessageStop => fits(
                self.input_tokens,
                self.output_tokens,
                self.cache_read_tokens,
                self.cache_creation_tokens,
            ),
            _ => true,
        }
    }

    fn next_seq(&mut self) -> (r: u32)
        requires
            old(self).seq < u32::MAX,
        ensures
            r == old(self).seq,
            final(self)@ == (AnthropicStreamState { seq: (old(self).seq + 1) as u32, ..old(self)@ }),
    {
        let s = self.seq;
        self.seq += 1;
        s
    }

    fn response_with_status(&self, status: &str, now: i64) -> (r: ResponsesResponse)
        requires
            usage_fits(self@),
        ensures
            r@ == anthropic_response(self@, status@, now),
    {
        let cached = match self.cache_read_tokens {
            Some(c) => c + match self.cache_creation_tokens {
                Some(w) => w,
                None => 0,
            },
            None => 0,
        };
        let output: Vec<ResponsesOutputItem> = Vec::new();
        assert(output@.map_values(|o: ResponsesOutputItem| o@) =~= seq![]);
        ResponsesResponse {
            id: self.response_id.clone(),
            object: owned("response"),
            output,
            status: Some(owned(status)),
            usage: Some(
                ResponsesUsage {
                    input_tokens: self.input_tokens,
                    output_tokens: self.output_tokens,
                    total_tokens: self.input_tokens + self.output_tokens,
                    input_tokens_details: Some(InputTokensDetails { cached_tokens: Some(cached) }),
                    output_tokens_details: None,
                },
            ),
            model: Some(self.model.clone()),
            incomplete_details: None,
            error: None,
            created_at: Some(self.created),
            completed_at: Some(now),
        }
    }

    /// The `completed` response, stamped `now`.
    pub fn completed_response_at(&self, now: i64) -> (r: ResponsesResponse)
        requires
            usage_fits(self@),
        ensures
            r@ == anthropic_response(self@, "completed"@, now),
    {
        self.response_with_status("completed", now)
    }

    /// The `completed` response, stamped with the current time.
    pub fn make_completed_response(&self) -> (r: ResponsesResponse)
        requires
            usage_fits(self@),
        ensures
            exists|t: i64| r@ == anthropic_response(self@, "completed"@, t),
    {
        self.completed_response_at(now_unix())
    }

    /// Translates one event (see [`anthropic_step`]).
    pub fn step(&mut self, event: &AnthropicStreamEvent, fresh: &str, now: i64) -> (r: Vec<ResponsesStreamEvent>)
        requires
            anthropic_accepts(old(self)@, event@),
        ensures
            (final(self)@, events_model(r@)) == anthropic_step(old(self)@, event@, fresh@, now),
    {
        match event {
            AnthropicStreamEvent::MessageStart { message } => {
                self.input_tokens = message.usage.input_tokens;
                self.cache_read_tokens = message.usage.cache_read_input_tokens;
                self.cache_creation_tokens = message.usage.cache_creation_input_tokens;
                self.model = message.model.clone();
                let mut events: Vec<ResponsesStreamEvent> = Vec::new();
                if !self.started {
                    let resp = self.response_with_status("in_progress", now);
                    let resp2 = resp.clone();
                    self.started = true;
                    let n0 = self.next_seq();
                    let e0 = ResponsesStreamEvent::ResponseCreated { response: resp, sequence_number: n0 };
                    let n1 = self.next_seq();
                    let e1 = ResponsesStreamEvent::ResponseInProgress { response: resp2, sequence_number: n1 };
                    events.push(e0);
                    events.push(e1);
                    assert(events_model(events@) =~= seq![e0@, e1@]);
                } else {
                    assert(events_model(events@) =~= seq![]);
                }
                events
            },
            AnthropicStreamEvent::ContentBlockStart { index, content_block } => self.block_start(*index, content_block, fresh),
            AnthropicStreamEvent::ContentBlockDelta { index, delta } => self.block_delta(*index, delta),
            AnthropicStreamEvent::ContentBlockStop { index } => self.block_stop(*index, fresh),
            AnthropicStreamEvent::MessageDelta { usage, .. } => {
                self.output_tokens = usage.output_tokens;
                let events: Vec<ResponsesStreamEvent> = Vec::new();
                assert(events_model(events@) =~= seq![]);
                events
            },
            AnthropicStreamEvent::MessageStop => {
                self.event_completed = true;
                let resp = self.response_with_status("completed", now);
                let n = self.next_seq();
                let e = ResponsesStreamEvent::ResponseCompleted { response: resp, sequence_number: n };
                let mut events: Vec<ResponsesStreamEvent> = Vec::new();
                events.push(e);
                assert(events_model(events@) =~= seq![e@]);
                events
            },
            AnthropicStreamEvent::Error { error } => {
                let n = self.next_seq();
                let e = ResponsesStreamEvent::Error {
                    code: Some(error.error_type.clone()),
                    message: error.message.clone(),
                    sequence_number: n,
                };
                let mut events: Vec<ResponsesStreamEvent> = Vec::new();
                events.push(e);
                assert(events_model(events@) =~= seq![e@]);
                events
            },
            AnthropicStreamEvent::Ping => {
                let events: Vec<ResponsesStreamEvent> = Vec::new();
                assert(events_model(events@) =~= seq![]);
                events
            },
        }
    }

    fn block_start(&mut self, index: u32, block: &AnthropicContentBlock, fresh: &str) -> (r: Vec<ResponsesStreamEvent>)
        requires
            old(self).seq + 3 <= u32::MAX,
        ensures
            (final(self)@, events_model(r@)) == anthropic_step(
                old(self)@,
                AnthropicStreamEventModel::ContentBlockStart { index, content_block: block@ },
                fresh@,
                0,
            ),
    {
        let mut events: Vec<ResponsesStreamEvent> = Vec::new();
        match block {
            AnthropicContentBlock::Text { .. } => {
                self.current_block_type = Some(BlockKind::Text);
                self.output_index = index;
                self.content_index = 0;
                self.item_id = concat("msg_", fresh);
                let empty: Vec<ResponsesContentPart> = Vec::new();
                assert(empty@.map_values(|p: ResponsesContentPart| p@) =~= seq![]);
                let item = ResponsesOutputItem::Message {
                    id: self.item_id.clone(),
                    role: Some(owned("assistant")),
                    content: empty,
                    status: Some(owned("in_progress")),
                };
                let n0 = self.next_seq();
                let e0 = ResponsesStreamEvent::OutputItemAdded { output_index: index, item, sequence_number: n0 };
                let n1 = self.next_seq();
                let e1 = ResponsesStreamEvent::ContentPartAdded {
                    output_index: index,
                    content_index: 0,
                    part: ResponsesContentPart::OutputText { text: String::new() },
                    sequence_number: n1,
                };
                events.push(e0);
                events.push(e1);
                proof {
                    assert(events_model(events@) =~= seq![e0@, e1@]);
                }
            },
            AnthropicContentBlock::ToolUse { id, name, .. } => {
                self.current_block_type = Some(BlockKind::ToolUse);
                self.current_tool_id = id.clone();
                self.current_tool_name = name.clone();
                self.current_tool_arguments = String::new();
                self.has_tool_call = true;
                self.item_id = id.clone();
                let item = ResponsesOutputItem::FunctionCall {
                    id: concat("fc_", fresh),
                    call_id: id.clone(),
                    name: name.clone(),
                    arguments: String::new(),
                    status: Some(owned("in_progress")),
                };
                let n0 = self.next_seq();
                let e0 = ResponsesStreamEvent::OutputItemAdded { output_index: index, item, sequence_number: n0 };
                events.push(e0);
                assert(events_model(events@) =~= seq![e0@]);
            },
            AnthropicContentBlock::Thinking { .. } => {
                self.current_block_type = Some(BlockKind::Thinking);
                self.output_index = index;
                self.content_index = 0;
                self.item_id = concat("rs_", fresh);
                let empty: Vec<ResponsesContentPart> = Vec::new();
                assert(empty@.map_values(|p: ResponsesContentPart| p@) =~= seq![]);
                let item = ResponsesOutputItem::Reasoning {
                    id: self.item_id.clone(),
                    content: Some(empty),
                    summary: None,
                    status: Some(owned("in_progress")),
                };
                let n0 = self.next_seq();
                let e0 = ResponsesStreamEvent::OutputItemAdded { output_index: index, item, sequence_number: n0 };
                events.push(e0);
                assert(events_model(events@) =~= seq![e0@]);
            },
            _ => {
                assert(events_model(events@) =~= seq![]);
            },
        }
        events
    }

    fn block_delta(&mut self, index: u32, delta: &AnthropicContentBlockDelta) -> (r: Vec<ResponsesStreamEvent>)
        requires
            old(self).seq + 3 <= u32::MAX,
        ensures
            (final(self)@, events_model(r@)) == anthropic_step(
                old(self)@,
                AnthropicStreamEventModel::ContentBlockDelta { index, delta: delta@ },
                Seq::<char>::empty(),
                0,
            ),
    {
        let mut events: Vec<ResponsesStreamEvent> = Vec::new();
        match delta {
            AnthropicContentBlockDelta::TextDelta { text } => {
                self.current_text_content.append(text.as_str());
                let n = self.next_seq();
                let e = ResponsesStreamEvent::OutputTextDelta {
                    output_index: index,
                    content_index: 0,
                    delta: text.clone(),
                    item_id: Some(self.item_id.clone()),
                    sequence_number: n,
                };
                events.push(e);
                assert(events_model(events@) =~= seq![e@]);
            },
            AnthropicContentBlockDelta::InputJsonDelta { partial_json } => {
                self.current_tool_arguments.append(partial_json.as_str());
                let n = self.next_seq();
                let e = ResponsesStreamEvent::FunctionCallArgsDelta {
                    output_index: index,
                    delta: partial_json.clone(),
                    item_id: Some(self.item_id.clone()),
                    sequence_number: n,
                };
                events.push(e);
                assert(events_model(events@) =~= seq![e@]);
            },
            AnthropicContentBlockDelta::ThinkingDelta { thinking } => {
                self.current_reasoning.append(thinking.as_str());
                self.reasoning_content.append(thinking.as_str());
                let n = self.next_seq();
                let e = ResponsesStreamEvent::ReasoningTextDelta {
                    output_index: index,
                    content_index: 0,
                    delta: thinking.clone(),
                    sequence_number: n,
                };
                events.push(e);
                assert(events_model(events@) =~= seq![e@]);
            },
            _ => {
                assert(events_model(events@) =~= seq![]);
            },
        }
        events
    }

    fn block_stop(&mut self, index: u32, fresh: &str) -> (r: Vec<ResponsesStreamEvent>)
        requires
            old(self).seq + 3 <= u32::MAX,
        ensures
            (final(self)@, events_model(r@)) == anthropic_step(
                old(self)@,
                AnthropicStreamEventModel::ContentBlockStop { index },
                fresh@,
                0,
            ),
    {
        let mut events: Vec<ResponsesStreamEvent> = Vec::new();
        match self.current_block_type {
            Some(BlockKind::Text) => {
                let text = take_string(&mut self.current_text_content);
                let mut content: Vec<ResponsesContentPart> = Vec::new();
                content.push(ResponsesContentPart::OutputText { text });
                let item = ResponsesOutputItem::Message {
                    id: self.item_id.clone(),
                    role: Some(owned("assistant")),
                    content,
                    status: Some(owned("completed")),
                };
                let n0 = self.next_seq();
                let e0 = ResponsesStreamEvent::ContentPartDone {
                    output_index: index,
                    content_index: 0,
                    part: ResponsesContentPart::OutputText { text: String::new() },
                    sequence_number: n0,
                };
                let n1 = self.next_seq();
                let e1 = ResponsesStreamEvent::OutputTextDone {
                    output_index: index,
                    content_index: 0,
                    text: String::new(),
                    sequence_number: n1,
                };
                let n2 = self.next_seq();
                let e2 = ResponsesStreamEvent::OutputItemDone { output_index: index, item, sequence_number: n2 };
                events.push(e0);
                events.push(e1);
                events.push(e2);
                self.current_block_type = None;
                proof {
                    assert(content@.map_values(|p: ResponsesContentPart| p@) =~= seq![
                        ResponsesContentPartModel::OutputText { text: text@ },
                    ]);
                    assert(events_model(events@) =~= seq![e0@, e1@, e2@]);
                }
            },
            Some(BlockKind::ToolUse) => {
                let tool_name = take_string(&mut self.current_tool_name);
                let tool_args = take_string(&mut self.current_tool_arguments);
                let tool_id = take_string(&mut self.current_tool_id);
                let item_id = self.item_id.clone();
                let n0 = self.next_seq();
                let e0 = ResponsesStreamEvent::FunctionCallArgsDone {
                    output_index: index,
                    arguments: tool_args.clone(),
                    name: tool_name.clone(),
                    item_id: Some(item_id),
                    sequence_number: n0,
                };
                let item = ResponsesOutputItem::FunctionCall {
                    id: concat("fc_", fresh),
                    call_id: tool_id,
                    name: tool_name,
                    arguments: tool_args,
                    status: Some(owned("completed")),
                };
                let n1 = self.next_seq();
                let e1 = ResponsesStreamEvent::OutputItemDone { output_index: index, item, sequence_number: n1 };
                events.push(e0);
                events.push(e1);
                self.current_block_type = None;
                assert(events_model(events@) =~= seq![e0@, e1@]);
            },
            Some(BlockKind::Thinking) => {
                let reasoning = take_string(&mut self.current_reasoning);
                let mut content: Vec<ResponsesContentPart> = Vec::new();
                content.push(ResponsesContentPart::OutputText { text: reasoning });
                let item = ResponsesOutputItem::Reasoning {
                    id: self.item_id.clone(),
                    content: Some(content),
                    summary: None,
                    status: Some(owned("completed")),
                };
                let n0 = self.next_seq();
                let e0 = ResponsesStreamEvent::OutputItemDone { output_index: index, item, sequence_number: n0 };
                events.push(e0);
                self.current_block_type = None;
                proof {
                    assert(content@.map_values(|p: ResponsesContentPart| p@) =~= seq![
                        ResponsesContentPartModel::OutputText { text: reasoning@ },
                    ]);
                    assert(events_model(events@) =~= seq![e0@]);
                }
            },
            None => {
                assert(events_model(events@) =~= seq![]);
            },
        }
        events
    }

    /// Translates one event, drawing a fresh identifier and reading the
    /// clock: the outcome is [`anthropic_step`] for some identifier and time.
    pub fn process_event(&mut self, event: &AnthropicStreamEvent) -> (r: Vec<ResponsesStreamEvent>)
        requires
            anthropic_accepts(old(self)@, event@),
        ensures
            exists|fresh: Seq<char>, now: i64|
                (final(self)@, events_model(r@)) == anthropic_step(old(self)@, event@, fresh, now),
    {
        let fresh = new_uuid();
        let now = now_unix();
        self.step(event, fresh.as_str(), now)
    }

    /// Whether the usage totals fit in 32 bits (see [`usage_fits`]).
    pub fn usage_fits_now(&self) -> (r: bool)
        ensures
            r == usage_fits(self@),
    {
        fits(self.input_tokens, self.output_tokens, self.cache_read_tokens, self.cache_creation_tokens)
    }

    /// What the end of the upstream stream emits: a `response.completed`
    /// event (numbered 0) when the response started but was never
    /// completed; nothing otherwise.
    pub fn closing_events(&self) -> (r: Vec<ResponsesStreamEvent>)
        requires
            usage_fits(self@),
        ensures
            self@.started && !self@.event_completed ==> r@.len() == 1 && exists|t: i64|
                r@[0]@ == (ResponsesStreamEventModel::ResponseCompleted {
                    response: anthropic_response(self@, "completed"@, t),
                    sequence_number: 0,
                }),
            !(self@.started && !self@.event_completed) ==> r@.len() == 0,
    {
        let mut out: Vec<ResponsesStreamEvent> = Vec::new();
        if self.started && !self.event_completed {
            let response = self.make_completed_response();
            out.push(ResponsesStreamEvent::ResponseCompleted { response, sequence_number: 0 });
        }
        out
    }
}

/// Whether usage totals with these counts fit in 32 bits.
fn fits(input: u32, output: u32, cache_read: Option<u32>, cache_creation: Option<u32>) -> (r: bool)
    ensures
        r == (input + output <= u32::MAX && match cache_read {
            Some(c) => c + match cache_creation {
                Some(w) => w as int,
                None => 0,
            },
            None => 0,
        } <= u32::MAX),
{
    let sum_ok = input <= u32::MAX - output;
    let cache_ok = match cache_read {
        Some(c) => c <= u32::MAX - match cache_creation {
            Some(w) => w,
            None => 0,
        },
        None => true,
    };
    sum_ok && cache_ok
}


// ===========================================================================
// Chat Completions chunks to Responses events
// ===========================================================================


/// The `usage` member of a streamed chunk (present, possibly `null`): the counts that are unsigned integers.
pub struct ChunkUsage {
    pub prompt_tokens: Option<u64>,
    pub completion_tokens: Option<u64>,
    pub total_tokens: Option<u64>,
    /// `prompt_tokens_details.cached_tokens`.
    pub cached_tokens: Option<u64>,
    /// `completion_tokens_details.reasoning_tokens`.
    pub reasoning_tokens: Option<u64>,
}

/// Model of [`ChunkUsage`].
pub struct ChunkUsageModel {
    pub prompt_tokens: Option<u64>,
    pub completion_tokens: Option<u64>,
    pub total_tokens: Option<u64>,
    pub cached_tokens: Option<u64>,
    pub reasoning_tokens: Option<u64>,
}

impl View for ChunkUsage {
    type V = ChunkUsageModel;

    open spec fn view(&self) -> ChunkUsageModel {
        ChunkUsageModel {
            prompt_tokens: self.prompt_tokens,
            completion_tokens: self.completion_tokens,
            total_tokens: self.total_tokens,
            cached_tokens: self.cached_tokens,
            reasoning_tokens: self.reasoning_tokens,
        }
    }
}

impl Clone for ChunkUsage {
    fn clone(&self) -> (r: Self)
        ensures
            r@ == self@,
    {
        let c_prompt_tokens = self.prompt_tokens.clone();
        let c_completion_tokens = self.completion_tokens.clone();
        let c_total_tokens = self.total_tokens.clone();
        let c_cached_tokens = self.cached_tokens.clone();
        let c_reasoning_tokens = self.reasoning_tokens.clone();
        ChunkUsage { prompt_tokens: c_prompt_tokens, completion_tokens: c_completion_tokens, total_tokens: c_total_tokens, cached_tokens: c_cached_tokens, reasoning_tokens: c_reasoning_tokens }
    }
}

/// A tool-call delta of a streamed chunk.
pub struct ChunkToolCall {
    /// `index`, when an unsigned integer.
    pub index: Option<u64>,
    /// `id`, when a string.
    pub id: Option<String>,
    /// `function.name`, when a string.
    pub name: Option<String>,
    /// `function.arguments`, when a string.
    pub arguments: Option<String>,
}

/// Model of [`ChunkToolCall`].
pub struct ChunkToolCallModel {
    pub index: Option<u64>,
    pub id: Option<Seq<char>>,
    pub name: Option<Seq<char>>,
    pub arguments: Option<Seq<char>>,
}

impl View for ChunkToolCall {
    type V = ChunkToolCallModel;

    open spec fn view(&self) -> ChunkToolCallModel {
        ChunkToolCallModel {
            index: self.index,
            id: opt_seq(self.id),
            name: opt_seq(self.name),
            arguments: opt_seq(self.arguments),
        }
    }
}

impl Clone for ChunkToolCall {
    fn clone(&self) -> (r: Self)
        ensures
            r@ == self@,
    {
        let c_index = self.index.clone();
        let c_id = self.id.clone();
        let c_name = self.name.clone();
        let c_arguments = self.arguments.clone();
        ChunkToolCall { index: c_index, id: c_id, name: c_name, arguments: c_arguments }
    }
}

/// The `delta` of a streamed choice: its string members.
pub struct ChunkDelta {
    pub content: Option<String>,
    pub refusal: Option<String>,
    pub reasoning_content: Option<String>,
    /// `tool_calls`, when an array.
    pub tool_calls: Option<Vec<ChunkToolCall>>,
}

/// Model of [`ChunkDelta`].
pub struct ChunkDeltaModel {
    pub content: Option<Seq<char>>,
    pub refusal: Option<Seq<char>>,
    pub reasoning_content: Option<Seq<char>>,
    pub tool_calls: Option<Seq<ChunkToolCallModel>>,
}

impl View for ChunkDelta {
    type V = ChunkDeltaModel;

    open spec fn view(&self) -> ChunkDeltaModel {
        ChunkDeltaModel {
            content: opt_seq(self.content),
            refusal: opt_seq(self.refusal),
            reasoning_content: opt_seq(self.reasoning_content),
            tool_calls: (match self.tool_calls { Some(x1) => Some(x1@.map_values(|x2: ChunkToolCall| x2@)), None => None }),
        }
    }
}

impl Clone for ChunkDelta {
    fn clone(&self) -> (r: Self)
        ensures
            r@ == self@,
    {
        let c_content = self.content.clone();
        let c_refusal = self.refusal.clone();
        let c_reasoning_content = self.reasoning_content.clone();
        let c_tool_calls = match &self.tool_calls { Some(x3) => { let x4 = clone_vec_ChunkToolCall(&(*x3)); Some(x4) }, None => None };
        ChunkDelta { content: c_content, refusal: c_refusal, reasoning_content: c_reasoning_content, tool_calls: c_tool_calls }
    }
}

/// A choice of a streamed chunk.
pub struct ChunkChoice {
    /// `finish_reason`, when a string.
    pub finish_reason: Option<String>,
    pub delta: Option<ChunkDelta>,
}

/// Model of [`ChunkChoice`].
pub struct ChunkChoiceModel {
    pub finish_reason: Option<Seq<char>>,
    pub delta: Option<ChunkDeltaModel>,
}

impl View for ChunkChoice {
    type V = ChunkChoiceModel;

    open spec fn view(&self) -> ChunkChoiceModel {
        ChunkChoiceModel {
            finish_reason: opt_seq(self.finish_reason),
            delta: (match self.delta { Some(x5) => Some(x5@), None => None }),
        }
    }
}

impl Clone for ChunkChoice {
    fn clone(&self) -> (r: Self)
        ensures
            r@ == self@,
    {
        let c_finish_reason = self.finish_reason.clone();
        let c_delta = match &self.delta { Some(x6) => { let x7 = (*x6).clone(); Some(x7) }, None => None };
        ChunkChoice { finish_reason: c_finish_reason, delta: c_delta }
    }
}

/// A streamed Chat Completions chunk, as far as the translation reads it.
pub struct ChatChunk {
    /// `choices`, when an array.
    pub choices: Option<Vec<ChunkChoice>>,
    /// `usage`, when the member is present.
    pub usage: Option<ChunkUsage>,
}

/// Model of [`ChatChunk`].
pub struct ChatChunkModel {
    pub choices: Option<Seq<ChunkChoiceModel>>,
    pub usage: Option<ChunkUsageModel>,
}

impl View for ChatChunk {
    type V = ChatChunkModel;

    open spec fn view(&self) -> ChatChunkModel {
        ChatChunkModel {
            choices: (match self.choices { Some(x8) => Some(x8@.map_values(|x9: ChunkChoice| x9@)), None => None }),
            usage: (match self.usage { Some(x10) => Some(x10@), None => None }),
        }
    }
}

impl Clone for ChatChunk {
    fn clone(&self) -> (r: Self)
        ensures
            r@ == self@,
    {
        let c_choices = match &self.choices { Some(x11) => { let x12 = clone_vec_ChunkChoice(&(*x11)); Some(x12) }, None => None };
        let c_usage = match &self.usage { Some(x13) => { let x14 = (*x13).clone(); Some(x14) }, None => None };
        ChatChunk { choices: c_choices, usage: c_usage }
    }
}

/// A tool call being streamed.
pub struct PendingToolCall {
    pub id: String,
    pub name: String,
    pub arguments: String,
}

/// Model of [`PendingToolCall`].
pub struct PendingToolCallModel {
    pub id: Seq<char>,
    pub name: Seq<char>,
    pub arguments: Seq<char>,
}

impl View for PendingToolCall {
    type V = PendingToolCallModel;

    open spec fn view(&self) -> PendingToolCallModel {
        PendingToolCallModel {
            id: self.id@,
            name: self.name@,
            arguments: self.arguments@,
        }
    }
}

impl Clone for PendingToolCall {
    fn clone(&self) -> (r: Self)
        ensures
            r@ == self@,
    {
        let c_id = self.id.clone();
        let c_name = self.name.clone();
        let c_arguments = self.arguments.clone();
        PendingToolCall { id: c_id, name: c_name, arguments: c_arguments }
    }
}

/// A copy of a vector of [`ChunkChoice`].
pub fn clone_vec_ChunkChoice(v: &Vec<ChunkChoice>) -> (r: Vec<ChunkChoice>)
    ensures
        r@.map_values(|x15: ChunkChoice| x15@) == v@.map_values(|x16: ChunkChoice| x16@),
{
    let mut r: Vec<ChunkChoice> = Vec::new();
    let mut i: usize = 0;
    while i < v.len()
        invariant
            i <= v.len(),
            r@.len() == i,
            forall|j: int| 0 <= j < i ==> r@[j]@ == v@[j]@,
        decreases v.len() - i,
    {
        r.push(v[i].clone());
        i += 1;
    }
    assert(r@.map_values(|x17: ChunkChoice| x17@) =~= v@.map_values(|x18: ChunkChoice| x18@));
    r
}

/// A copy of a vector of [`ChunkToolCall`].
pub fn clone_vec_ChunkToolCall(v: &Vec<ChunkToolCall>) -> (r: Vec<ChunkToolCall>)
    ensures
        r@.map_values(|x19: ChunkToolCall| x19@) == v@.map_values(|x20: ChunkToolCall| x20@),
{
    let mut r: Vec<ChunkToolCall> = Vec::new();
    let mut i: usize = 0;
    while i < v.len()
        invariant
            i <= v.len(),
            r@.len() == i,
            forall|j: int| 0 <= j < i ==> r@[j]@ == v@[j]@,
        decreases v.len() - i,
    {
        r.push(v[i].clone());
        i += 1;
    }
    assert(r@.map_values(|x21: ChunkToolCall| x21@) =~= v@.map_values(|x22: ChunkToolCall| x22@));
    r
}



/// Translates a stream of Chat Completions chunks into Responses events.
pub struct ChatStreamToResponsesTranslator {
    pub response_id: String,
    model: String,
    output_index: u32,
    started: bool,
    finished: bool,
    current_text: String,
    current_refusal: String,
    /// Tool calls by their chunk `index`, in the order they were opened.
    tool_calls: Vec<(u32, PendingToolCall)>,
    item_id: String,
    msg_item_added: bool,
    content_part_added: bool,
    finish_reason: Option<String>,
    usage: Option<ResponsesUsage>,
    seq: u32,
    created: i64,
    pub reasoning_content: String,
    pub strip_xiaomimimo_markers: bool,
}

/// The model of a [`ChatStreamToResponsesTranslator`].
pub struct ChatStreamState {
    pub response_id: Seq<char>,
    pub model: Seq<char>,
    pub output_index: u32,
    pub started: bool,
    pub finished: bool,
    pub text: Seq<char>,
    pub refusal: Seq<char>,
    pub tool_calls: Seq<(u32, PendingToolCallModel)>,
    pub item_id: Seq<char>,
    pub msg_item_added: bool,
    pub content_part_added: bool,
    pub finish_reason: Option<Seq<char>>,
    pub usage: Option<ResponsesUsageModel>,
    pub seq: u32,
    pub created: i64,
    pub reasoning_content: Seq<char>,
    pub strip_markers: bool,
}

/// Models of the open tool calls.
pub open spec fn pending_model(v: Seq<(u32, PendingToolCall)>) -> Seq<(u32, PendingToolCallModel)> {
    v.map_values(|p: (u32, PendingToolCall)| (p.0, p.1@))
}

impl View for ChatStreamToResponsesTranslator {
    type V = ChatStreamState;

    closed spec fn view(&self) -> ChatStreamState {
        ChatStreamState {
            response_id: self.response_id@,
            model: self.model@,
            output_index: self.output_index,
            started: self.started,
            finished: self.finished,
            text: self.current_text@,
            refusal: self.current_refusal@,
            tool_calls: pending_model(self.tool_calls@),
            item_id: self.item_id@,
            msg_item_added: self.msg_item_added,
            content_part_added: self.content_part_added,
            finish_reason: opt_seq(self.finish_reason),
            usage: match self.usage {
                Some(u) => Some(u@),
                None => None,
            },
            seq: self.seq,
            created: self.created,
            reasoning_content: self.reasoning_content@,
            strip_markers: self.strip_xiaomimimo_markers,
        }
    }
}

/// What holds of every reachable state: text is only collected once the
/// message item is open, and that happens only after the stream started.
pub open spec fn chat_wf(s: ChatStreamState) -> bool {
    &&& !s.msg_item_added ==> s.text.len() == 0
    &&& !s.started ==> !s.msg_item_added
}

/// The successor of a 32-bit counter, wrapping.
pub open spec fn next_u32(x: u32) -> u32 {
    if x == u32::MAX {
        0
    } else {
        (x + 1) as u32
    }
}

/// The state after one event was numbered.
pub open spec fn bump(s: ChatStreamState) -> ChatStreamState {
    ChatStreamState { seq: next_u32(s.seq), ..s }
}

/// The `k`-th fresh identifier (empty past the end of the supply).
pub open spec fn fresh_at(fresh: Seq<Seq<char>>, k: int) -> Seq<char> {
    if 0 <= k < fresh.len() {
        fresh[k]
    } else {
        seq![]
    }
}

/// The position after drawing the `k`-th fresh identifier (it stays at the
/// end of the supply).
pub open spec fn adv(fresh: Seq<Seq<char>>, k: int) -> int {
    if k < fresh.len() {
        k + 1
    } else {
        k
    }
}

/// The state of a new translator.
pub open spec fn chat_initial(model: Seq<char>, response_id: Seq<char>, item_id: Seq<char>, created: i64) -> ChatStreamState {
    ChatStreamState {
        response_id,
        model,
        output_index: 0,
        started: false,
        finished: false,
        text: seq![],
        refusal: seq![],
        tool_calls: seq![],
        item_id,
        msg_item_added: false,
        content_part_added: false,
        finish_reason: None,
        usage: None,
        seq: 0,
        created,
        reasoning_content: seq![],
        strip_markers: false,
    }
}

/// A completed function-call item for an open tool call.
pub open spec fn pending_item(p: PendingToolCallModel) -> ResponsesOutputItemModel {
    ResponsesOutputItemModel::FunctionCall {
        id: p.id,
        call_id: p.id,
        name: p.name,
        arguments: p.arguments,
        status: Some("completed"@),
    }
}

/// The response envelope: the open tool calls as output, the usage seen so
/// far; a `completed` response is stamped `now`.
pub open spec fn chat_response(s: ChatStreamState, status: Seq<char>, now: i64) -> ResponsesResponseModel {
    ResponsesResponseModel {
        id: s.response_id,
        object: "response"@,
        output: s.tool_calls.map_values(|p: (u32, PendingToolCallModel)| pending_item(p.1)),
        status: Some(status),
        usage: s.usage,
        model: Some(s.model),
        incomplete_details: None,
        error: None,
        created_at: Some(s.created),
        completed_at: if status == "completed"@ {
            Some(now)
        } else {
            None
        },
    }
}

/// `o`, or 0.
pub open spec fn or_zero(o: Option<u64>) -> u64 {
    match o {
        Some(x) => x,
        None => 0,
    }
}

/// The usage a chunk reports, each count cut to 32 bits.
pub open spec fn chunk_usage_spec(u: ChunkUsageModel) -> ResponsesUsageModel {
    ResponsesUsageModel {
        input_tokens: or_zero(u.prompt_tokens) as u32,
        output_tokens: or_zero(u.completion_tokens) as u32,
        total_tokens: or_zero(u.total_tokens) as u32,
        input_tokens_details: Some(InputTokensDetailsModel { cached_tokens: Some(or_zero(u.cached_tokens) as u32) }),
        output_tokens_details: Some(OutputTokensDetailsModel { reasoning_tokens: Some(or_zero(u.reasoning_tokens) as u32) }),
    }
}

/// The opening events of the first chunk.
pub open spec fn chat_start(s: ChatStreamState, now: i64) -> (ChatStreamState, Seq<ResponsesStreamEventModel>) {
    if s.started {
        (s, seq![])
    } else {
        let s1 = ChatStreamState { started: true, ..s };
        let resp = chat_response(s1, "in_progress"@, now);
        (
            bump(bump(s1)),
            seq![
                ResponsesStreamEventModel::ResponseCreated { response: resp, sequence_number: s1.seq },
                ResponsesStreamEventModel::ResponseInProgress { response: resp, sequence_number: next_u32(s1.seq) },
            ],
        )
    }
}

/// Text with the model's reasoning markers removed.
pub open spec fn strip_markers_spec(t: Seq<char>) -> Seq<char> {
    remove_all(remove_all(t, "[[REASONING_SUMMARY]]"@), "[[REASONING_DIVIDER]]"@)
}

/// A text delta.
pub open spec fn content_delta(s: ChatStreamState, content: Option<Seq<char>>) -> (ChatStreamState, Seq<ResponsesStreamEventModel>) {
    match content {
        Some(t) => if t.len() > 0 {
            let clean = if s.strip_markers {
                strip_markers_spec(t)
            } else {
                t
            };
            if clean.len() > 0 {
                (
                    bump(ChatStreamState { text: s.text + clean, ..s }),
                    seq![
                        ResponsesStreamEventModel::OutputTextDelta {
                            output_index: s.output_index,
                            content_index: 0,
                            delta: clean,
                            item_id: Some(s.item_id),
                            sequence_number: s.seq,
                        },
                    ],
                )
            } else {
                (s, seq![])
            }
        } else {
            (s, seq![])
        },
        None => (s, seq![]),
    }
}

/// A refusal delta.
pub open spec fn refusal_delta(s: ChatStreamState, refusal: Option<Seq<char>>) -> (ChatStreamState, Seq<ResponsesStreamEventModel>) {
    match refusal {
        Some(t) => if t.len() > 0 {
            (
                bump(ChatStreamState { refusal: s.refusal + t, ..s }),
                seq![
                    ResponsesStreamEventModel::RefusalDelta {
                        output_index: s.output_index,
                        content_index: 0,
                        delta: t,
                        sequence_number: s.seq,
                    },
                ],
            )
        } else {
            (s, seq![])
        },
        None => (s, seq![]),
    }
}

/// A reasoning delta.
pub open spec fn reasoning_delta(s: ChatStreamState, reasoning: Option<Seq<char>>) -> (ChatStreamState, Seq<ResponsesStreamEventModel>) {
    match reasoning {
        Some(t) => if t.len() > 0 {
            (
                bump(ChatStreamState { reasoning_content: s.reasoning_content + t, ..s }),
                seq![
                    ResponsesStreamEventModel::ReasoningTextDelta {
                        output_index: s.output_index,
                        content_index: 0,
                        delta: t,
                        sequence_number: s.seq,
                    },
                ],
            )
        } else {
            (s, seq![])
        },
        None => (s, seq![]),
    }
}

/// Position of the open tool call with chunk index `index`, searching from `from`.
pub open spec fn pending_pos_from(ps: Seq<(u32, PendingToolCallModel)>, index: u32, from: int) -> Option<int>
    decreases ps.len() - from,
{
    if from < 0 || from >= ps.len() {
        None
    } else if ps[from].0 == index {
        Some(from)
    } else {
        pending_pos_from(ps, index, from + 1)
    }
}

/// Position of the open tool call with chunk index `index`.
pub open spec fn pending_pos(ps: Seq<(u32, PendingToolCallModel)>, index: u32) -> Option<int> {
    pending_pos_from(ps, index, 0)
}

/// A tool-call delta: a call not yet open is opened (its id, else `call_`
/// and a fresh identifier; its item id `fc_` and the next one); arguments
/// are appended. Returns the state, the events and the next unused fresh
/// identifier.
pub open spec fn tool_call_delta(s: ChatStreamState, tc: ChunkToolCallModel, fresh: Seq<Seq<char>>, k: int) -> (
    ChatStreamState,
    Seq<ResponsesStreamEventModel>,
    int,
) {
    let index = or_zero(tc.index) as u32;
    let (s1, e1, k1) = match pending_pos(s.tool_calls, index) {
        Some(_) => (s, Seq::<ResponsesStreamEventModel>::empty(), k),
        None => {
            let id = match tc.id {
                Some(i) => i,
                None => "call_"@ + fresh_at(fresh, k),
            };
            let k1 = adv(fresh, k);
            let name = match tc.name {
                Some(n) => n,
                None => seq![],
            };
            let s0 = ChatStreamState {
                tool_calls: s.tool_calls.push((index, PendingToolCallModel { id, name, arguments: seq![] })),
                ..s
            };
            (
                bump(s0),
                seq![
                    ResponsesStreamEventModel::OutputItemAdded {
                        output_index: next_u32(index),
                        item: ResponsesOutputItemModel::FunctionCall {
                            id: "fc_"@ + fresh_at(fresh, k1),
                            call_id: id,
                            name,
                            arguments: seq![],
                            status: Some("in_progress"@),
                        },
                        sequence_number: s0.seq,
                    },
                ],
                adv(fresh, k1),
            )
        },
    };
    match tc.arguments {
        Some(a) => {
            let s2 = match pending_pos(s1.tool_calls, index) {
                Some(i) => ChatStreamState {
                    tool_calls: s1.tool_calls.update(
                        i,
                        (
                            index,
                            PendingToolCallModel {
                                arguments: s1.tool_calls[i].1.arguments + a,
                                ..s1.tool_calls[i].1
                            },
                        ),
                    ),
                    ..s1
                },
                None => s1,
            };
            (
                bump(s2),
                e1 + seq![
                    ResponsesStreamEventModel::FunctionCallArgsDelta {
                        output_index: next_u32(index),
                        delta: a,
                        item_id: None,
                        sequence_number: s2.seq,
                    },
                ],
                k1,
            )
        },
        None => (s1, e1, k1),
    }
}

/// The tool-call deltas of a chunk, in order.
pub open spec fn tool_call_deltas(s: ChatStreamState, tcs: Seq<ChunkToolCallModel>, fresh: Seq<Seq<char>>, k: int) -> (
    ChatStreamState,
    Seq<ResponsesStreamEventModel>,
    int,
)
    decreases tcs.len(),
{
    if tcs.len() == 0 {
        (s, seq![], k)
    } else {
        let (s1, e1, k1) = tool_call_deltas(s, tcs.drop_last(), fresh, k);
        let (s2, e2, k2) = tool_call_delta(s1, tcs.last(), fresh, k1);
        (s2, e1 + e2, k2)
    }
}

/// The delta of a choice: text, refusal, reasoning, then tool calls.
#[verifier::opaque]
pub open spec fn delta_step(s: ChatStreamState, d: ChunkDeltaModel, fresh: Seq<Seq<char>>, k: int) -> (
    ChatStreamState,
    Seq<ResponsesStreamEventModel>,
    int,
) {
    let (s1, e1) = content_delta(s, d.content);
    let (s2, e2) = refusal_delta(s1, d.refusal);
    let (s3, e3) = reasoning_delta(s2, d.reasoning_content);
    match d.tool_calls {
        Some(tcs) => {
            let (s4, e4, k4) = tool_call_deltas(s3, tcs, fresh, k);
            (s4, e1 + e2 + e3 + e4, k4)
        },
        None => (s3, e1 + e2 + e3, k),
    }
}

/// Closing events of the open tool calls: arguments done and item done for
/// each, the item ids `fc_` and fresh identifiers from `k` on.
pub open spec fn close_tool_calls(s: ChatStreamState, ps: Seq<(u32, PendingToolCallModel)>, fresh: Seq<Seq<char>>, k: int) -> (
    ChatStreamState,
    Seq<ResponsesStreamEventModel>,
    int,
)
    decreases ps.len(),
{
    if ps.len() == 0 {
        (s, seq![], k)
    } else {
        let (s1, e1, k1) = close_tool_calls(s, ps.drop_last(), fresh, k);
        let (index, p) = ps.last();
        (
            bump(bump(s1)),
            e1 + seq![
                ResponsesStreamEventModel::FunctionCallArgsDone {
                    output_index: next_u32(index),
                    arguments: p.arguments,
                    name: p.name,
                    item_id: Some(p.id),
                    sequence_number: s1.seq,
                },
                ResponsesStreamEventModel::OutputItemDone {
                    output_index: next_u32(index),
                    item: ResponsesOutputItemModel::FunctionCall {
                        id: "fc_"@ + fresh_at(fresh, k1),
                        call_id: p.id,
                        name: p.name,
                        arguments: p.arguments,
                        status: Some("completed"@),
                    },
                    sequence_number: next_u32(s1.seq),
                },
            ],
            adv(fresh, k1),
        )
    }
}

/// Closing events of the message item: text done, content part done and
/// item done, all with `text`.
pub open spec fn close_message(s: ChatStreamState, text: Seq<char>) -> (ChatStreamState, Seq<ResponsesStreamEventModel>) {
    let s1 = bump(s);
    let s2 = bump(s1);
    (
        bump(s2),
        seq![
            ResponsesStreamEventModel::OutputTextDone {
                output_index: s.output_index,
                content_index: 0,
                text,
                sequence_number: s.seq,
            },
            ResponsesStreamEventModel::ContentPartDone {
                output_index: s.output_index,
                content_index: 0,
                part: ResponsesContentPartModel::OutputText { text },
                sequence_number: s1.seq,
            },
            ResponsesStreamEventModel::OutputItemDone {
                output_index: s.output_index,
                item: message_item(s.item_id, seq![ResponsesContentPartModel::OutputText { text }], "completed"@),
                sequence_number: s2.seq,
            },
        ],
    )
}

/// The `incomplete_details` of a response cut short by the token limit.
pub open spec fn max_tokens_details() -> Seq<char> {
    "{\"reason\":\"max_output_tokens\"}"@
}

/// A finish reason closes the message and the tool calls and completes the
/// response (`incomplete` when the reason is `length`).
#[verifier::opaque]
pub open spec fn finish_step(s: ChatStreamState, fr: Seq<char>, fresh: Seq<Seq<char>>, k: int, now: i64) -> (
    ChatStreamState,
    Seq<ResponsesStreamEventModel>,
    int,
) {
    let s0 = ChatStreamState { text: seq![], ..s };
    let (s3, e3) = close_message(s0, s.text);
    let (s4, e4, k4) = close_tool_calls(s3, s3.tool_calls, fresh, k);
    let base = chat_response(s4, "completed"@, now);
    let resp = if fr == "length"@ {
        ResponsesResponseModel { status: Some("incomplete"@), incomplete_details: Some(max_tokens_details()), ..base }
    } else {
        base
    };
    (
        ChatStreamState { finished: true, ..bump(s4) },
        e3 + e4 + seq![ResponsesStreamEventModel::ResponseCompleted { response: resp, sequence_number: s4.seq }],
        k4,
    )
}

/// One choice of a chunk: its finish reason is recorded, the message item
/// and its content part are opened once, the delta is applied, and a
/// finish reason closes everything (a `stop` only once).
pub open spec fn choice_step(s: ChatStreamState, ch: ChunkChoiceModel, fresh: Seq<Seq<char>>, k: int, now: i64) -> (
    ChatStreamState,
    Seq<ResponsesStreamEventModel>,
    int,
) {
    let s1 = match ch.finish_reason {
        Some(fr) => ChatStreamState { finish_reason: Some(fr), ..s },
        None => s,
    };
    let (s2, e2) = if !s1.msg_item_added {
        (
            bump(ChatStreamState { msg_item_added: true, ..s1 }),
            seq![
                ResponsesStreamEventModel::OutputItemAdded {
                    output_index: s1.output_index,
                    item: message_item(s1.item_id, seq![], "in_progress"@),
                    sequence_number: s1.seq,
                },
            ],
        )
    } else {
        (s1, seq![])
    };
    let (s3, e3) = if !s2.content_part_added {
        (
            bump(ChatStreamState { content_part_added: true, ..s2 }),
            seq![
                ResponsesStreamEventModel::ContentPartAdded {
                    output_index: s2.output_index,
                    content_index: 0,
                    part: ResponsesContentPartModel::OutputText { text: seq![] },
                    sequence_number: s2.seq,
                },
            ],
        )
    } else {
        (s2, seq![])
    };
    let (s4, e4, k4) = match ch.delta {
        Some(d) => delta_step(s3, d, fresh, k),
        None => (s3, seq![], k),
    };
    match ch.finish_reason {
        Some(fr) => if fr != "stop"@ || !s4.finished {
            let (s5, e5, k5) = finish_step(s4, fr, fresh, k4, now);
            (s5, e2 + e3 + e4 + e5, k5)
        } else {
            (s4, e2 + e3 + e4, k4)
        },
        None => (s4, e2 + e3 + e4, k4),
    }
}

/// The choices of a chunk, in order.
pub open spec fn choices_step(s: ChatStreamState, cs: Seq<ChunkChoiceModel>, fresh: Seq<Seq<char>>, k: int, now: i64) -> (
    ChatStreamState,
    Seq<ResponsesStreamEventModel>,
    int,
)
    decreases cs.len(),
{
    if cs.len() == 0 {
        (s, seq![], k)
    } else {
        let (s1, e1, k1) = choices_step(s, cs.drop_last(), fresh, k, now);
        let (s2, e2, k2) = choice_step(s1, cs.last(), fresh, k1, now);
        (s2, e1 + e2, k2)
    }
}

/// One chunk: the opening events (first chunk only), the usage (when the
/// chunk has a `usage` member), then the choices.
pub open spec fn chat_chunk_step(s: ChatStreamState, c: ChatChunkModel, fresh: Seq<Seq<char>>, now: i64) -> (
    ChatStreamState,
    Seq<ResponsesStreamEventModel>,
) {
    let (s1, e1) = chat_start(s, now);
    let s2 = match c.usage {
        Some(u) => ChatStreamState { usage: Some(chunk_usage_spec(u)), ..s1 },
        None => s1,
    };
    match c.choices {
        Some(cs) => {
            let (s3, e3, k3) = choices_step(s2, cs, fresh, 0, now);
            (s3, e1 + e3)
        },
        None => (s2, e1),
    }
}

/// Function-call items for tool calls recovered from the text, under ids
/// `call_` and fresh identifiers, numbered after the open tool calls.
pub open spec fn xml_call_events(s: ChatStreamState, parts: Seq<(Seq<char>, Seq<char>)>, fresh: Seq<Seq<char>>, k: int) -> (
    ChatStreamState,
    Seq<ResponsesStreamEventModel>,
    int,
)
    decreases parts.len(),
{
    if parts.len() == 0 {
        (s, seq![], k)
    } else {
        let (s1, e1, k1) = xml_call_events(s, parts.drop_last(), fresh, k);
        let id = "call_"@ + fresh_at(fresh, k1);
        let item = ResponsesOutputItemModel::FunctionCall {
            id,
            call_id: id,
            name: parts.last().0,
            arguments: parts.last().1,
            status: Some("completed"@),
        };
        let oi = next_u32(s.tool_calls.len() as u32);
        (
            bump(bump(s1)),
            e1 + seq![
                ResponsesStreamEventModel::OutputItemAdded { output_index: oi, item, sequence_number: s1.seq },
                ResponsesStreamEventModel::OutputItemDone { output_index: oi, item, sequence_number: next_u32(s1.seq) },
            ],
            adv(fresh, k1),
        )
    }
}

/// The end of a stream without a finishing chunk: the message is closed
/// twice, first with the full text and then with the text left after
/// recovering XML-written tool calls, which become items; the open tool
/// calls are closed; the response is completed.
pub open spec fn chat_finalize(s: ChatStreamState, fresh: Seq<Seq<char>>, now: i64) -> (
    ChatStreamState,
    Seq<ResponsesStreamEventModel>,
) {
    let (s7, e7) = if s.msg_item_added {
        let full = s.text;
        let s0 = ChatStreamState { text: seq![], ..s };
        let s1 = bump(s0);
        let s2 = bump(s1);
        let e2 = seq![
            ResponsesStreamEventModel::OutputTextDone {
                output_index: s.output_index,
                content_index: 0,
                text: full,
                sequence_number: s0.seq,
            },
            ResponsesStreamEventModel::ContentPartDone {
                output_index: s.output_index,
                content_index: 0,
                part: ResponsesContentPartModel::OutputText { text: full },
                sequence_number: s1.seq,
            },
        ];
        let (clean, parts) = xml_tool_calls_spec(full);
        let (s5, e5) = close_message(s2, clean);
        let (s6, e6, k6) = xml_call_events(s5, parts, fresh, 0);
        let (s7, e7, k7) = close_tool_calls(s6, s6.tool_calls, fresh, k6);
        (s7, e2 + e5 + e6 + e7)
    } else {
        (s, seq![])
    };
    let resp = chat_response(s7, "completed"@, now);
    (bump(s7), e7 + seq![ResponsesStreamEventModel::ResponseCompleted { response: resp, sequence_number: s7.seq }])
}

// ---------------------------------------------------------------------------
// The translator's invariant
// ---------------------------------------------------------------------------

/// The state marked finished.
pub open spec fn marked_finished(s: ChatStreamState) -> ChatStreamState {
    ChatStreamState { finished: true, ..s }
}

/// Whether a step left the message and start flags as they were.
pub open spec fn same_flags(s: ChatStreamState, t: ChatStreamState) -> bool {
    t.msg_item_added == s.msg_item_added && t.started == s.started && (s.finished ==> t.finished)
}

proof fn lemma_tool_call_delta_flags(s: ChatStreamState, tc: ChunkToolCallModel, fresh: Seq<Seq<char>>, k: int)
    ensures
        same_flags(s, tool_call_delta(s, tc, fresh, k).0),
{
}

proof fn lemma_tool_call_deltas_flags(s: ChatStreamState, tcs: Seq<ChunkToolCallModel>, fresh: Seq<Seq<char>>, k: int)
    ensures
        same_flags(s, tool_call_deltas(s, tcs, fresh, k).0),
    decreases tcs.len(),
{
    if tcs.len() > 0 {
        lemma_tool_call_deltas_flags(s, tcs.drop_last(), fresh, k);
        let (s1, e1, k1) = tool_call_deltas(s, tcs.drop_last(), fresh, k);
        lemma_tool_call_delta_flags(s1, tcs.last(), fresh, k1);
    }
}

proof fn lemma_delta_step_flags(s: ChatStreamState, d: ChunkDeltaModel, fresh: Seq<Seq<char>>, k: int)
    ensures
        same_flags(s, delta_step(s, d, fresh, k).0),
{
    reveal(delta_step);
    let (s1, e1) = content_delta(s, d.content);
    let (s2, e2) = refusal_delta(s1, d.refusal);
    let (s3, e3) = reasoning_delta(s2, d.reasoning_content);
    if let Some(tcs) = d.tool_calls {
        lemma_tool_call_deltas_flags(s3, tcs, fresh, k);
    }
}

proof fn lemma_close_tool_calls_flags(s: ChatStreamState, ps: Seq<(u32, PendingToolCallModel)>, fresh: Seq<Seq<char>>, k: int)
    ensures
        same_flags(s, close_tool_calls(s, ps, fresh, k).0),
        close_tool_calls(s, ps, fresh, k).0.text == s.text,
    decreases ps.len(),
{
    if ps.len() > 0 {
        lemma_close_tool_calls_flags(s, ps.drop_last(), fresh, k);
    }
}

proof fn lemma_xml_call_events_flags(s: ChatStreamState, parts: Seq<(Seq<char>, Seq<char>)>, fresh: Seq<Seq<char>>, k: int)
    ensures
        same_flags(s, xml_call_events(s, parts, fresh, k).0),
        xml_call_events(s, parts, fresh, k).0.text == s.text,
    decreases parts.len(),
{
    if parts.len() > 0 {
        lemma_xml_call_events_flags(s, parts.drop_last(), fresh, k);
    }
}

proof fn lemma_finish_step_flags(s: ChatStreamState, fr: Seq<char>, fresh: Seq<Seq<char>>, k: int, now: i64)
    ensures
        same_flags(s, finish_step(s, fr, fresh, k, now).0),
        finish_step(s, fr, fresh, k, now).0.text.len() == 0,
{
    reveal(finish_step);
    let s0 = ChatStreamState { text: seq![], ..s };
    let (s3, e3) = close_message(s0, s.text);
    lemma_close_tool_calls_flags(s3, s3.tool_calls, fresh, k);
}

proof fn lemma_choice_step_flags(s: ChatStreamState, ch: ChunkChoiceModel, fresh: Seq<Seq<char>>, k: int, now: i64)
    ensures
        choice_step(s, ch, fresh, k, now).0.msg_item_added,
        choice_step(s, ch, fresh, k, now).0.started == s.started,
        s.finished ==> choice_step(s, ch, fresh, k, now).0.finished,
{
    let s1 = match ch.finish_reason {
        Some(fr) => ChatStreamState { finish_reason: Some(fr), ..s },
        None => s,
    };
    let (s2, e2) = if !s1.msg_item_added {
        (
            bump(ChatStreamState { msg_item_added: true, ..s1 }),
            seq![
                ResponsesStreamEventModel::OutputItemAdded {
                    output_index: s1.output_index,
                    item: message_item(s1.item_id, seq![], "in_progress"@),
                    sequence_number: s1.seq,
                },
            ],
        )
    } else {
        (s1, seq![])
    };
    let (s3, e3) = if !s2.content_part_added {
        (
            bump(ChatStreamState { content_part_added: true, ..s2 }),
            seq![
                ResponsesStreamEventModel::ContentPartAdded {
                    output_index: s2.output_index,
                    content_index: 0,
                    part: ResponsesContentPartModel::OutputText { text: seq![] },
                    sequence_number: s2.seq,
                },
            ],
        )
    } else {
        (s2, seq![])
    };
    assert(s3.msg_item_added && s3.started == s.started);
    let (s4, e4, k4) = match ch.delta {
        Some(d) => delta_step(s3, d, fresh, k),
        None => (s3, seq![], k),
    };
    if let Some(d) = ch.delta {
        lemma_delta_step_flags(s3, d, fresh, k);
    }
    if let Some(fr) = ch.finish_reason {
        lemma_finish_step_flags(s4, fr, fresh, k4, now);
    }
}

pub(crate) proof fn lemma_choices_step_flags(s: ChatStreamState, cs: Seq<ChunkChoiceModel>, fresh: Seq<Seq<char>>, k: int, now: i64)
    ensures
        choices_step(s, cs, fresh, k, now).0.started == s.started,
        s.finished ==> choices_step(s, cs, fresh, k, now).0.finished,
        cs.len() > 0 ==> choices_step(s, cs, fresh, k, now).0.msg_item_added,
        cs.len() == 0 ==> choices_step(s, cs, fresh, k, now).0 == s,
    decreases cs.len(),
{
    if cs.len() > 0 {
        lemma_choices_step_flags(s, cs.drop_last(), fresh, k, now);
        let (s1, e1, k1) = choices_step(s, cs.drop_last(), fresh, k, now);
        lemma_choice_step_flags(s1, cs.last(), fresh, k1, now);
    }
}

/// The translator's invariant holds from the start: a new translator has
/// neither started nor opened a message, and holds no text.
pub proof fn law_chat_initial_wf(model: Seq<char>, response_id: Seq<char>, item_id: Seq<char>, created: i64)
    ensures
        chat_wf(chat_initial(model, response_id, item_id, created)),
{
}

/// Every chunk keeps the translator's invariant: text is only held while a
/// message item is open, and a message item is only open once the response
/// has started. Hence the response envelopes, which carry no message, never
/// leave out text.
pub proof fn law_chat_step_keeps_wf(s: ChatStreamState, c: ChatChunkModel, fresh: Seq<Seq<char>>, now: i64)
    requires
        chat_wf(s),
    ensures
        chat_wf(chat_chunk_step(s, c, fresh, now).0),
{
    let (s1, e1) = chat_start(s, now);
    assert(s1.started && s1.msg_item_added == s.msg_item_added && s1.text == s.text);
    let s2 = match c.usage {
        Some(u) => ChatStreamState { usage: Some(chunk_usage_spec(u)), ..s1 },
        None => s1,
    };
    if let Some(cs) = c.choices {
        lemma_choices_step_flags(s2, cs, fresh, 0, now);
    }
}

/// Closing a stream keeps the translator's invariant, and leaves no text.
pub proof fn law_chat_finalize_keeps_wf(s: ChatStreamState, fresh: Seq<Seq<char>>, now: i64)
    requires
        chat_wf(s),
    ensures
        chat_wf(chat_finalize(s, fresh, now).0),
        chat_finalize(s, fresh, now).0.text.len() == 0,
{
    if s.msg_item_added {
        let full = s.text;
        let s0 = ChatStreamState { text: seq![], ..s };
        let s1 = bump(s0);
        let s2 = bump(s1);
        let (clean, parts) = xml_tool_calls_spec(full);
        let (s5, e5) = close_message(s2, clean);
        lemma_xml_call_events_flags(s5, parts, fresh, 0);
        let (s6, e6, k6) = xml_call_events(s5, parts, fresh, 0);
        lemma_close_tool_calls_flags(s6, s6.tool_calls, fresh, k6);
    }
}

/// Once a response is finished it stays finished: neither a further chunk
/// nor closing the stream clears the flag.
pub proof fn law_chat_finished_stays(s: ChatStreamState, c: ChatChunkModel, fresh: Seq<Seq<char>>, now: i64)
    requires
        s.finished,
    ensures
        chat_chunk_step(s, c, fresh, now).0.finished,
        chat_finalize(s, fresh, now).0.finished,
{
    let (s1, e1) = chat_start(s, now);
    let s2 = match c.usage {
        Some(u) => ChatStreamState { usage: Some(chunk_usage_spec(u)), ..s1 },
        None => s1,
    };
    if let Some(cs) = c.choices {
        lemma_choices_step_flags(s2, cs, fresh, 0, now);
    }
    if s.msg_item_added {
        let full = s.text;
        let s0 = ChatStreamState { text: seq![], ..s };
        let s1 = bump(s0);
        let s2 = bump(s1);
        let (clean, parts) = xml_tool_calls_spec(full);
        let (s5, e5) = close_message(s2, clean);
        lemma_xml_call_events_flags(s5, parts, fresh, 0);
        let (s6, e6, k6) = xml_call_events(s5, parts, fresh, 0);
        lemma_close_tool_calls_flags(s6, s6.tool_calls, fresh, k6);
    }
}

/// Models of a supply of fresh identifiers.
pub open spec fn fresh_model(v: Seq<String>) -> Seq<Seq<char>> {
    v.map_values(|s: String| s@)
}

/// The `k`-th fresh identifier and the position after it.
fn draw(fresh: &Vec<String>, k: usize) -> (r: (String, usize))
    requires
        k <= fresh.len(),
    ensures
        r.0@ == fresh_at(fresh_model(fresh@), k as int),
        r.1 == adv(fresh_model(fresh@), k as int),
        r.1 <= fresh.len(),
{
    if k < fresh.len() {
        (fresh[k].clone(), k + 1)
    } else {
        (String::new(), k)
    }
}

proof fn lemma_pending_push(v: Seq<(u32, PendingToolCall)>, x: (u32, PendingToolCall))
    ensures
        pending_model(v.push(x)) == pending_model(v).push((x.0, x.1@)),
{
    assert(pending_model(v.push(x)) =~= pending_model(v).push((x.0, x.1@)));
}

impl ChatStreamToResponsesTranslator {
    /// A translator with the given response id, message item id and
    /// creation time.
    pub fn with_identity(model: &str, response_id: String, item_id: String, created: i64) -> (r: Self)
        ensures
            r@ == chat_initial(model@, response_id@, item_id@, created),
            chat_wf(r@),
    {
        let r = ChatStreamToResponsesTranslator {
            response_id,
            model: owned(model),
            output_index: 0,
            started: false,
            finished: false,
            current_text: String::new(),
            current_refusal: String::new(),
            tool_calls: Vec::new(),
            item_id,
            msg_item_added: false,
            content_part_added: false,
            finish_reason: None,
            usage: None,
            seq: 0,
            created,
            reasoning_content: String::new(),
            strip_xiaomimimo_markers: false,
        };
        assert(r@.tool_calls =~= seq![]);
        r
    }

    /// A translator for `model`, with fresh `resp_` and `msg_` ids, created now.
    pub fn new(model: &str) -> (r: Self)
        ensures
            exists|a: Seq<char>, b: Seq<char>, t: i64| r@ == chat_initial(model@, "resp_"@ + a, "msg_"@ + b, t),
            chat_wf(r@),
    {
        let response_id = concat("resp_", new_uuid().as_str());
        let item_id = concat("msg_", new_uuid().as_str());
        let t = now_unix();
        Self::with_identity(model, response_id, item_id, t)
    }

    /// Whether the response was completed by a finishing chunk.
    pub fn is_finished(&self) -> (r: bool)
        ensures
            r == self@.finished,
    {
        self.finished
    }

    /// Marks the response as completed.
    pub fn set_finished(&mut self)
        ensures
            final(self)@ == (ChatStreamState { finished: true, ..old(self)@ }),
    {
        self.finished = true;
    }

    /// Whether the translator is in a reachable state (see [`chat_wf`]).
    pub closed spec fn wf(&self) -> bool {
        chat_wf(self@)
    }

    fn next_seq(&mut self) -> (r: u32)
        ensures
            r == old(self)@.seq,
            final(self)@ == bump(old(self)@),
    {
        let s = self.seq;
        self.seq = self.seq.wrapping_add(1);
        s
    }

    /// The response envelope. Whenever it is built the text has already
    /// been handed out, so only the tool calls make up its output.
    fn make_response(&self, status: &str, now: i64) -> (r: ResponsesResponse)
        ensures
            r@ == chat_response(self@, status@, now),
    {
        let completed_at = if str_eq(status, "completed") {
            Some(now)
        } else {
            None
        };
        let mut output: Vec<ResponsesOutputItem> = Vec::new();
        let ghost ps = pending_model(self.tool_calls@);
        let mut i: usize = 0;
        while i < self.tool_calls.len()
            invariant
                i <= self.tool_calls.len(),
                ps == pending_model(self.tool_calls@),
                output@.map_values(|o: ResponsesOutputItem| o@) == ps.take(i as int).map_values(
                    |p: (u32, PendingToolCallModel)| pending_item(p.1),
                ),
            decreases self.tool_calls.len() - i,
        {
            let p = &self.tool_calls[i].1;
            let item = ResponsesOutputItem::FunctionCall {
                id: p.id.clone(),
                call_id: p.id.clone(),
                name: p.name.clone(),
                arguments: p.arguments.clone(),
                status: Some(owned("completed")),
            };
            let ghost prev = output@;
            output.push(item);
            proof {
                assert(ps[i as int] == (self.tool_calls@[i as int].0, self.tool_calls@[i as int].1@));
                assert(output@.map_values(|o: ResponsesOutputItem| o@) =~= prev.map_values(
                    |o: ResponsesOutputItem| o@,
                ).push(item@));
                assert(ps.take(i + 1) =~= ps.take(i as int).push(ps[i as int]));
                assert(ps.take(i + 1).map_values(|p: (u32, PendingToolCallModel)| pending_item(p.1))
                    =~= ps.take(i as int).map_values(|p: (u32, PendingToolCallModel)| pending_item(p.1)).push(
                    pending_item(ps[i as int].1),
                ));
            }
            i += 1;
        }
        assert(ps.take(self.tool_calls.len() as int) =~= ps);
        ResponsesResponse {
            id: self.response_id.clone(),
            object: owned("response"),
            output,
            status: Some(owned(status)),
            usage: self.usage.clone(),
            model: Some(self.model.clone()),
            incomplete_details: None,
            error: None,
            created_at: Some(self.created),
            completed_at,
        }
    }

    fn emit(&mut self, events: &mut Vec<ResponsesStreamEvent>, e: ResponsesStreamEvent)
        ensures
            final(self)@ == old(self)@,
            events_model(final(events)@) == events_model(old(events)@).push(e@),
    {
        proof {
            lemma_events_push(events@, e);
        }
        events.push(e);
    }

    fn start(&mut self, now: i64, events: &mut Vec<ResponsesStreamEvent>)
        ensures
            ({
                let (s, e) = chat_start(old(self)@, now);
                final(self)@ == s && events_model(final(events)@) == events_model(old(events)@) + e
            }),
    {
        if !self.started {
            self.started = true;
            let resp = self.make_response("in_progress", now);
            let resp2 = resp.clone();
            let n0 = self.next_seq();
            self.emit(events, ResponsesStreamEvent::ResponseCreated { response: resp, sequence_number: n0 });
            let n1 = self.next_seq();
            self.emit(events, ResponsesStreamEvent::ResponseInProgress { response: resp2, sequence_number: n1 });
        }
    }

    fn content_delta(&mut self, content: &Option<String>, events: &mut Vec<ResponsesStreamEvent>)
        ensures
            ({
                let (s, e) = content_delta(old(self)@, opt_seq(*content));
                final(self)@ == s && events_model(final(events)@) == events_model(old(events)@) + e
            }),
    {
        if let Some(text) = content {
            if text.unicode_len() > 0 {
                let clean = if self.strip_xiaomimimo_markers {
                    proof {
                        reveal_strlit("[[REASONING_SUMMARY]]");
                        reveal_strlit("[[REASONING_DIVIDER]]");
                    }
                    let a = remove_all_str(text.as_str(), "[[REASONING_SUMMARY]]");
                    remove_all_str(a.as_str(), "[[REASONING_DIVIDER]]")
                } else {
                    text.clone()
                };
                if clean.unicode_len() > 0 {
                    self.current_text.append(clean.as_str());
                    let item_id = self.item_id.clone();
                    let n = self.next_seq();
                    self.emit(
                        events,
                        ResponsesStreamEvent::OutputTextDelta {
                            output_index: self.output_index,
                            content_index: 0,
                            delta: clean,
                            item_id: Some(item_id),
                            sequence_number: n,
                        },
                    );
                }
            }
        }
        assert(events_model(events@) =~= events_model(old(events)@) + content_delta(old(self)@, opt_seq(*content)).1);
    }

    fn refusal_delta(&mut self, refusal: &Option<String>, events: &mut Vec<ResponsesStreamEvent>)
        ensures
            ({
                let (s, e) = refusal_delta(old(self)@, opt_seq(*refusal));
                final(self)@ == s && events_model(final(events)@) == events_model(old(events)@) + e
            }),
    {
        if let Some(text) = refusal {
            if text.unicode_len() > 0 {
                self.current_refusal.append(text.as_str());
                let n = self.next_seq();
                self.emit(
                    events,
                    ResponsesStreamEvent::RefusalDelta {
                        output_index: self.output_index,
                        content_index: 0,
                        delta: text.clone(),
                        sequence_number: n,
                    },
                );
            }
        }
        assert(events_model(events@) =~= events_model(old(events)@) + refusal_delta(old(self)@, opt_seq(*refusal)).1);
    }

    fn reasoning_delta(&mut self, reasoning: &Option<String>, events: &mut Vec<ResponsesStreamEvent>)
        ensures
            ({
                let (s, e) = reasoning_delta(old(self)@, opt_seq(*reasoning));
                final(self)@ == s && events_model(final(events)@) == events_model(old(events)@) + e
            }),
    {
        if let Some(text) = reasoning {
            if text.unicode_len() > 0 {
                self.reasoning_content.append(text.as_str());
                let n = self.next_seq();
                self.emit(
                    events,
                    ResponsesStreamEvent::ReasoningTextDelta {
                        output_index: self.output_index,
                        content_index: 0,
                        delta: text.clone(),
                        sequence_number: n,
                    },
                );
            }
        }
        assert(events_model(events@) =~= events_model(old(events)@) + reasoning_delta(old(self)@, opt_seq(*reasoning)).1);
    }

    fn pending_pos(&self, index: u32) -> (r: Option<usize>)
        ensures
            match r {
                Some(i) => i < self.tool_calls.len() && pending_pos(self@.tool_calls, index) == Some(i as int),
                None => pending_pos(self@.tool_calls, index) is None,
            },
    {
        let ghost ps = self@.tool_calls;
        let mut i: usize = 0;
        while i < self.tool_calls.len()
            invariant
                i <= self.tool_calls.len(),
                ps == self@.tool_calls,
                ps.len() == self.tool_calls.len(),
                pending_pos(ps, index) == pending_pos_from(ps, index, i as int),
            decreases self.tool_calls.len() - i,
        {
            assert(ps[i as int].0 == self.tool_calls@[i as int].0);
            if self.tool_calls[i].0 == index {
                return Some(i);
            }
            i += 1;
        }
        None
    }

    /// Opens a tool call not seen before; returns the next unused fresh identifier.
    fn open_tool_call(
        &mut self,
        index: u32,
        tc: &ChunkToolCall,
        fresh: &Vec<String>,
        k: usize,
        events: &mut Vec<ResponsesStreamEvent>,
    ) -> (r: usize)
        requires
            k <= fresh.len(),
            pending_pos(old(self)@.tool_calls, index) is None,
        ensures
            ({
                let s = old(self)@;
                let fr = fresh_model(fresh@);
                let id = match tc@.id {
                    Some(i) => i,
                    None => "call_"@ + fresh_at(fr, k as int),
                };
                let k1 = adv(fr, k as int);
                let name = match tc@.name {
                    Some(n) => n,
                    None => seq![],
                };
                let s0 = ChatStreamState {
                    tool_calls: s.tool_calls.push((index, PendingToolCallModel { id, name, arguments: seq![] })),
                    ..s
                };
                &&& final(self)@ == bump(s0)
                &&& events_model(final(events)@) == events_model(old(events)@).push(
                    ResponsesStreamEventModel::OutputItemAdded {
                        output_index: next_u32(index),
                        item: ResponsesOutputItemModel::FunctionCall {
                            id: "fc_"@ + fresh_at(fr, k1),
                            call_id: id,
                            name,
                            arguments: seq![],
                            status: Some("in_progress"@),
                        },
                        sequence_number: s0.seq,
                    },
                )
                &&& r == adv(fr, k1)
            }),
            r <= fresh.len(),
    {
        let (a, k1) = draw(fresh, k);
        let id = match &tc.id {
            Some(i) => i.clone(),
            None => concat("call_", a.as_str()),
        };
        let (b, k2) = draw(fresh, k1);
        let name = match &tc.name {
            Some(n) => n.clone(),
            None => String::new(),
        };
        let ghost before = self.tool_calls@;
        let entry = (index, PendingToolCall { id: id.clone(), name: name.clone(), arguments: String::new() });
        self.tool_calls.push(entry);
        proof {
            lemma_pending_push(before, entry);
        }
        let item = ResponsesOutputItem::FunctionCall {
            id: concat("fc_", b.as_str()),
            call_id: id,
            name,
            arguments: String::new(),
            status: Some(owned("in_progress")),
        };
        let n = self.next_seq();
        self.emit(
            events,
            ResponsesStreamEvent::OutputItemAdded { output_index: index.wrapping_add(1), item, sequence_number: n },
        );
        k2
    }

    /// Appends argument text to the open tool call with chunk index `index`.
    fn append_arguments(&mut self, index: u32, a: &String, events: &mut Vec<ResponsesStreamEvent>)
        ensures
            ({
                let s1 = old(self)@;
                let s2 = match pending_pos(s1.tool_calls, index) {
                    Some(i) => ChatStreamState {
                        tool_calls: s1.tool_calls.update(
                            i,
                            (
                                index,
                                PendingToolCallModel {
                                    arguments: s1.tool_calls[i].1.arguments + a@,
                                    ..s1.tool_calls[i].1
                                },
                            ),
                        ),
                        ..s1
                    },
                    None => s1,
                };
                &&& final(self)@ == bump(s2)
                &&& events_model(final(events)@) == events_model(old(events)@).push(
                    ResponsesStreamEventModel::FunctionCallArgsDelta {
                        output_index: next_u32(index),
                        delta: a@,
                        item_id: None,
                        sequence_number: s2.seq,
                    },
                )
            }),
    {
        if let Some(i) = self.pending_pos(index) {
            let old_entry_id = self.tool_calls[i].1.id.clone();
            let old_entry_name = self.tool_calls[i].1.name.clone();
            let args = concat(self.tool_calls[i].1.arguments.as_str(), a.as_str());
            let ghost before = self.tool_calls@;
            let entry = (index, PendingToolCall { id: old_entry_id, name: old_entry_name, arguments: args });
            self.tool_calls.set(i, entry);
            proof {
                assert(pending_model(self.tool_calls@) =~= pending_model(before).update(i as int, (entry.0, entry.1@)));
            }
        }
        let n = self.next_seq();
        self.emit(
            events,
            ResponsesStreamEvent::FunctionCallArgsDelta {
                output_index: index.wrapping_add(1),
                delta: a.clone(),
                item_id: None,
                sequence_number: n,
            },
        );
    }

    #[verifier::spinoff_prover]
    #[verifier::rlimit(40)]
    fn tool_call_delta(
        &mut self,
        tc: &ChunkToolCall,
        fresh: &Vec<String>,
        k: usize,
        events: &mut Vec<ResponsesStreamEvent>,
    ) -> (r: usize)
        requires
            k <= fresh.len(),
        ensures
            ({
                let (s, e, k2) = tool_call_delta(old(self)@, tc@, fresh_model(fresh@), k as int);
                final(self)@ == s && events_model(final(events)@) == events_model(old(events)@) + e && r == k2
            }),
            r <= fresh.len(),
    {
        let ghost ev0 = events_model(events@);
        let raw = match tc.index {
            Some(x) => x,
            None => 0,
        };
        let index = #[verifier::truncate] (raw as u32);
        let mut k2 = k;
        if self.pending_pos(index).is_none() {
            k2 = self.open_tool_call(index, tc, fresh, k, events);
        }
        if let Some(a) = &tc.arguments {
            self.append_arguments(index, a, events);
        }
        proof {
            let (s, e, kk) = tool_call_delta(old(self)@, tc@, fresh_model(fresh@), k as int);
            assert(events_model(events@) =~= ev0 + e);
        }
        k2
    }

    fn tool_call_deltas(
        &mut self,
        tcs: &Vec<ChunkToolCall>,
        fresh: &Vec<String>,
        k: usize,
        events: &mut Vec<ResponsesStreamEvent>,
    ) -> (r: usize)
        requires
            k <= fresh.len(),
        ensures
            ({
                let (s, e, k2) = tool_call_deltas(old(self)@, tcs@.map_values(|t: ChunkToolCall| t@), fresh_model(fresh@), k as int);
                final(self)@ == s && events_model(final(events)@) == events_model(old(events)@) + e && r == k2
            }),
            r <= fresh.len(),
    {
        let ghost s0 = self@;
        let ghost ev0 = events_model(events@);
        let ghost ts = tcs@.map_values(|t: ChunkToolCall| t@);
        let mut k = k;
        let ghost k0 = k as int;
        let mut i: usize = 0;
        while i < tcs.len()
            invariant
                i <= tcs.len(),
                k <= fresh.len(),
                ts == tcs@.map_values(|t: ChunkToolCall| t@),
                ({
                    let (s, e, k2) = tool_call_deltas(s0, ts.take(i as int), fresh_model(fresh@), k0);
                    self@ == s && events_model(events@) == ev0 + e && k == k2
                }),
            decreases tcs.len() - i,
        {
            proof {
                assert(ts.take(i + 1).drop_last() =~= ts.take(i as int));
                assert(ts.take(i + 1).last() == tcs@[i as int]@);
            }
            let ghost evb = events_model(events@);
            k = self.tool_call_delta(&tcs[i], fresh, k, events);
            proof {
                let (s, e, k2) = tool_call_deltas(s0, ts.take(i as int), fresh_model(fresh@), k0);
                let (s3, e3, k3) = tool_call_delta(s, tcs@[i as int]@, fresh_model(fresh@), k2);
                assert(ev0 + (e + e3) =~= evb + e3);
            }
            i += 1;
        }
        assert(ts.take(tcs.len() as int) =~= ts);
        k
    }

    fn delta_step(
        &mut self,
        d: &ChunkDelta,
        fresh: &Vec<String>,
        k: usize,
        events: &mut Vec<ResponsesStreamEvent>,
    ) -> (r: usize)
        requires
            k <= fresh.len(),
        ensures
            ({
                let (s, e, k2) = delta_step(old(self)@, d@, fresh_model(fresh@), k as int);
                final(self)@ == s && events_model(final(events)@) == events_model(old(events)@) + e && r == k2
            }),
            r <= fresh.len(),
    {
        proof {
            reveal(delta_step);
        }
        let ghost ev0 = events_model(events@);
        self.content_delta(&d.content, events);
        let ghost ev1 = events_model(events@);
        self.refusal_delta(&d.refusal, events);
        let ghost ev2 = events_model(events@);
        self.reasoning_delta(&d.reasoning_content, events);
        let ghost ev3 = events_model(events@);
        match &d.tool_calls {
            Some(tcs) => {
                let k2 = self.tool_call_deltas(tcs, fresh, k, events);
                assert(events_model(events@) =~= ev0 + (ev1.subrange(ev0.len() as int, ev1.len() as int) + ev2.subrange(
                    ev1.len() as int,
                    ev2.len() as int,
                ) + ev3.subrange(ev2.len() as int, ev3.len() as int) + events_model(events@).subrange(
                    ev3.len() as int,
                    events_model(events@).len() as int,
                )));
                k2
            },
            None => {
                assert(events_model(events@) =~= ev0 + (ev1.subrange(ev0.len() as int, ev1.len() as int) + ev2.subrange(
                    ev1.len() as int,
                    ev2.len() as int,
                ) + ev3.subrange(ev2.len() as int, ev3.len() as int)));
                k
            },
        }
    }

    fn close_tool_calls(&mut self, fresh: &Vec<String>, k: usize, events: &mut Vec<ResponsesStreamEvent>) -> (r: usize)
        requires
            k <= fresh.len(),
        ensures
            ({
                let (s, e, k2) = close_tool_calls(old(self)@, old(self)@.tool_calls, fresh_model(fresh@), k as int);
                final(self)@ == s && events_model(final(events)@) == events_model(old(events)@) + e && r == k2
            }),
            r <= fresh.len(),
    {
        let ghost s0 = self@;
        let ghost ev0 = events_model(events@);
        let ghost ps = self@.tool_calls;
        let ghost k0 = k as int;
        let mut k = k;
        let n = self.tool_calls.len();
        let mut i: usize = 0;
        while i < n
            invariant
                i <= n,
                n == ps.len(),
                k <= fresh.len(),
                ps == self@.tool_calls,
                ({
                    let (s, e, k2) = close_tool_calls(s0, ps.take(i as int), fresh_model(fresh@), k0);
                    self@ == s && events_model(events@) == ev0 + e && k == k2
                }),
            decreases n - i,
        {
            assert(self.tool_calls@.len() == pending_model(self.tool_calls@).len());
            proof {
                assert(ps.take(i + 1).drop_last() =~= ps.take(i as int));
                assert(ps.take(i + 1).last() == (self.tool_calls@[i as int].0, self.tool_calls@[i as int].1@));
            }
            let ghost evb = events_model(events@);
            let index = self.tool_calls[i].0;
            let pid = self.tool_calls[i].1.id.clone();
            let pname = self.tool_calls[i].1.name.clone();
            let pargs = self.tool_calls[i].1.arguments.clone();
            let (b, k2) = draw(fresh, k);
            k = k2;
            let n0 = self.next_seq();
            self.emit(
                events,
                ResponsesStreamEvent::FunctionCallArgsDone {
                    output_index: index.wrapping_add(1),
                    arguments: pargs.clone(),
                    name: pname.clone(),
                    item_id: Some(pid.clone()),
                    sequence_number: n0,
                },
            );
            let n1 = self.next_seq();
            self.emit(
                events,
                ResponsesStreamEvent::OutputItemDone {
                    output_index: index.wrapping_add(1),
                    item: ResponsesOutputItem::FunctionCall {
                        id: concat("fc_", b.as_str()),
                        call_id: pid,
                        name: pname,
                        arguments: pargs,
                        status: Some(owned("completed")),
                    },
                    sequence_number: n1,
                },
            );
            proof {
                let (s, e, kk) = close_tool_calls(s0, ps.take(i as int), fresh_model(fresh@), k0);
                let (s3, e3, k3) = close_tool_calls(s0, ps.take(i + 1), fresh_model(fresh@), k0);
                assert(events_model(events@) =~= ev0 + e3);
            }
            i += 1;
        }
        assert(ps.take(n as int) =~= ps);
        k
    }

    fn close_message(&mut self, text: String, events: &mut Vec<ResponsesStreamEvent>)
        ensures
            ({
                let (s, e) = close_message(old(self)@, text@);
                final(self)@ == s && events_model(final(events)@) == events_model(old(events)@) + e
            }),
    {
        let ghost ev0 = events_model(events@);
        let n0 = self.next_seq();
        self.emit(
            events,
            ResponsesStreamEvent::OutputTextDone {
                output_index: self.output_index,
                content_index: 0,
                text: text.clone(),
                sequence_number: n0,
            },
        );
        let n1 = self.next_seq();
        self.emit(
            events,
            ResponsesStreamEvent::ContentPartDone {
                output_index: self.output_index,
                content_index: 0,
                part: ResponsesContentPart::OutputText { text: text.clone() },
                sequence_number: n1,
            },
        );
        let mut content: Vec<ResponsesContentPart> = Vec::new();
        content.push(ResponsesContentPart::OutputText { text });
        assert(content@.map_values(|p: ResponsesContentPart| p@) =~= seq![
            ResponsesContentPartModel::OutputText { text: text@ },
        ]);
        let item = ResponsesOutputItem::Message {
            id: self.item_id.clone(),
            role: Some(owned("assistant")),
            content,
            status: Some(owned("completed")),
        };
        let n2 = self.next_seq();
        self.emit(events, ResponsesStreamEvent::OutputItemDone { output_index: self.output_index, item, sequence_number: n2 });
        assert(events_model(events@) =~= ev0 + close_message(old(self)@, text@).1);
    }

    fn finish(&mut self, fr: &str, fresh: &Vec<String>, k: usize, now: i64, events: &mut Vec<ResponsesStreamEvent>) -> (r: usize)
        requires
            k <= fresh.len(),
        ensures
            ({
                let (s, e, k2) = finish_step(old(self)@, fr@, fresh_model(fresh@), k as int, now);
                final(self)@ == s && events_model(final(events)@) == events_model(old(events)@) + e && r == k2
            }),
            r <= fresh.len(),
    {
        proof {
            reveal(finish_step);
        }
        let ghost ev0 = events_model(events@);
        let full_text = take_string(&mut self.current_text);
        self.close_message(full_text, events);
        let ghost ev1 = events_model(events@);
        let k2 = self.close_tool_calls(fresh, k, events);
        let ghost ev2 = events_model(events@);
        let mut resp = self.make_response("completed", now);
        if str_eq(fr, "length") {
            resp.status = Some(owned("incomplete"));
            resp.incomplete_details = Some(owned("{\"reason\":\"max_output_tokens\"}"));
        }
        let n = self.next_seq();
        self.emit(events, ResponsesStreamEvent::ResponseCompleted { response: resp, sequence_number: n });
        self.finished = true;
        proof {
            let (s, e, kk) = finish_step(old(self)@, fr@, fresh_model(fresh@), k as int, now);
            assert(events_model(events@) =~= ev0 + e);
        }
        k2
    }

    /// Opens the message item and its content part, each once.
    fn open_message(&mut self, events: &mut Vec<ResponsesStreamEvent>)
        ensures
            ({
                let s1 = old(self)@;
                let (s2, e2) = if !s1.msg_item_added {
                    (
                        bump(ChatStreamState { msg_item_added: true, ..s1 }),
                        seq![
                            ResponsesStreamEventModel::OutputItemAdded {
                                output_index: s1.output_index,
                                item: message_item(s1.item_id, seq![], "in_progress"@),
                                sequence_number: s1.seq,
                            },
                        ],
                    )
                } else {
                    (s1, seq![])
                };
                let (s3, e3) = if !s2.content_part_added {
                    (
                        bump(ChatStreamState { content_part_added: true, ..s2 }),
                        seq![
                            ResponsesStreamEventModel::ContentPartAdded {
                                output_index: s2.output_index,
                                content_index: 0,
                                part: ResponsesContentPartModel::OutputText { text: seq![] },
                                sequence_number: s2.seq,
                            },
                        ],
                    )
                } else {
                    (s2, seq![])
                };
                final(self)@ == s3 && events_model(final(events)@) == events_model(old(events)@) + e2 + e3
            }),
    {
        let ghost ev0 = events_model(events@);
        if !self.msg_item_added {
            self.msg_item_added = true;
            let empty: Vec<ResponsesContentPart> = Vec::new();
            assert(empty@.map_values(|p: ResponsesContentPart| p@) =~= seq![]);
            let item = ResponsesOutputItem::Message {
                id: self.item_id.clone(),
                role: Some(owned("assistant")),
                content: empty,
                status: Some(owned("in_progress")),
            };
            let n = self.next_seq();
            self.emit(events, ResponsesStreamEvent::OutputItemAdded { output_index: self.output_index, item, sequence_number: n });
        }
        let ghost ev2 = events_model(events@);
        if !self.content_part_added {
            self.content_part_added = true;
            let n = self.next_seq();
            self.emit(
                events,
                ResponsesStreamEvent::ContentPartAdded {
                    output_index: self.output_index,
                    content_index: 0,
                    part: ResponsesContentPart::OutputText { text: String::new() },
                    sequence_number: n,
                },
            );
        }
        assert(events_model(events@) =~= ev0 + ev2.subrange(ev0.len() as int, ev2.len() as int) + events_model(
            events@,
        ).subrange(ev2.len() as int, events_model(events@).len() as int));
    }

    #[verifier::spinoff_prover]
    #[verifier::rlimit(40)]
    fn choice(&mut self, ch: &ChunkChoice, fresh: &Vec<String>, k: usize, now: i64, events: &mut Vec<ResponsesStreamEvent>) -> (r: usize)
        requires
            k <= fresh.len(),
        ensures
            ({
                let (s, e, k2) = choice_step(old(self)@, ch@, fresh_model(fresh@), k as int, now);
                final(self)@ == s && events_model(final(events)@) == events_model(old(events)@) + e && r == k2
            }),
            r <= fresh.len(),
    {
        let ghost ev0 = events_model(events@);
        if let Some(fr) = &ch.finish_reason {
            self.finish_reason = Some(fr.clone());
        }
        self.open_message(events);
        let ghost ev3 = events_model(events@);
        let k4 = match &ch.delta {
            Some(d) => self.delta_step(d, fresh, k, events),
            None => k,
        };
        let ghost ev4 = events_model(events@);
        let mut k5 = k4;
        if let Some(fr) = &ch.finish_reason {
            if !str_eq(fr.as_str(), "stop") || !self.finished {
                k5 = self.finish(fr.as_str(), fresh, k4, now, events);
            }
        }
        proof {
            let (s, e, kk) = choice_step(old(self)@, ch@, fresh_model(fresh@), k as int, now);
            assert(events_model(events@) =~= ev0 + e);
        }
        k5
    }

    /// Translates one chunk (see [`chat_chunk_step`]); tool calls draw their
    /// identifiers from `fresh`.
    pub fn step(&mut self, chunk: &ChatChunk, fresh: &Vec<String>, now: i64) -> (r: Vec<ResponsesStreamEvent>)
        ensures
            (final(self)@, events_model(r@)) == chat_chunk_step(old(self)@, chunk@, fresh_model(fresh@), now),
    {
        let mut events: Vec<ResponsesStreamEvent> = Vec::new();
        assert(events_model(events@) =~= seq![]);
        self.start(now, &mut events);
        let ghost ev1 = events_model(events@);
        if let Some(u) = &chunk.usage {
            self.usage = Some(chunk_usage(u));
        }
        if let Some(choices) = &chunk.choices {
            let ghost s0 = self@;
            let ghost cs = choices@.map_values(|c: ChunkChoice| c@);
            let mut k: usize = 0;
            let mut i: usize = 0;
            while i < choices.len()
                invariant
                    i <= choices.len(),
                    k <= fresh.len(),
                    cs == choices@.map_values(|c: ChunkChoice| c@),
                    ({
                        let (s, e, k2) = choices_step(s0, cs.take(i as int), fresh_model(fresh@), 0, now);
                        self@ == s && events_model(events@) == ev1 + e && k == k2
                    }),
                decreases choices.len() - i,
            {
                proof {
                    assert(cs.take(i + 1).drop_last() =~= cs.take(i as int));
                    assert(cs.take(i + 1).last() == choices@[i as int]@);
                }
                let ghost evb = events_model(events@);
                k = self.choice(&choices[i], fresh, k, now, &mut events);
                proof {
                    let (s, e, k2) = choices_step(s0, cs.take(i as int), fresh_model(fresh@), 0, now);
                    let (s3, e3, k3) = choice_step(s, choices@[i as int]@, fresh_model(fresh@), k2, now);
                    assert(ev1 + (e + e3) =~= evb + e3);
                }
                i += 1;
            }
            assert(cs.take(choices.len() as int) =~= cs);
        }
        events
    }

    /// Translates one chunk, drawing fresh identifiers and reading the
    /// clock: the outcome is [`chat_chunk_step`] for some identifiers and time.
    pub fn process_chunk(&mut self, chunk: &ChatChunk) -> (r: Vec<ResponsesStreamEvent>)
        ensures
            exists|fresh: Seq<Seq<char>>, now: i64|
                (final(self)@, events_model(r@)) == chat_chunk_step(old(self)@, chunk@, fresh, now),
    {
        let needed = ids_needed(chunk, self.tool_calls.len());
        let mut fresh: Vec<String> = Vec::new();
        let mut i: usize = 0;
        while i < needed
            decreases needed - i,
        {
            fresh.push(new_uuid());
            i += 1;
        }
        let now = now_unix();
        self.step(chunk, &fresh, now)
    }

    /// Closes the stream when it ended without a finishing chunk (see
    /// [`chat_finalize`]).
    pub fn finalize_with(&mut self, fresh: &Vec<String>, now: i64) -> (r: Vec<ResponsesStreamEvent>)
        ensures
            (final(self)@, events_model(r@)) == chat_finalize(old(self)@, fresh_model(fresh@), now),
    {
        let mut events: Vec<ResponsesStreamEvent> = Vec::new();
        assert(events_model(events@) =~= seq![]);
        if self.msg_item_added {
            let full_text = take_string(&mut self.current_text);
            let n0 = self.next_seq();
            self.emit(
                &mut events,
                ResponsesStreamEvent::OutputTextDone {
                    output_index: self.output_index,
                    content_index: 0,
                    text: full_text.clone(),
                    sequence_number: n0,
                },
            );
            let n1 = self.next_seq();
            self.emit(
                &mut events,
                ResponsesStreamEvent::ContentPartDone {
                    output_index: self.output_index,
                    content_index: 0,
                    part: ResponsesContentPart::OutputText { text: full_text.clone() },
                    sequence_number: n1,
                },
            );
            let ghost ev2 = events_model(events@);
            let (clean, parts) = xml_tool_call_parts(full_text.as_str());
            self.close_message(clean, &mut events);
            let ghost ev5 = events_model(events@);
            let k6 = self.xml_call_events(&parts, fresh, &mut events);
            let ghost ev6 = events_model(events@);
            let _k7 = self.close_tool_calls(fresh, k6, &mut events);
            proof {
                let full = old(self)@.text;
                let s0 = ChatStreamState { text: seq![], ..old(self)@ };
                let s2 = bump(bump(s0));
                let (c, ps) = xml_tool_calls_spec(full);
                let (s5, e5) = close_message(s2, c);
                let (s6, e6, kk6) = xml_call_events(s5, ps, fresh_model(fresh@), 0);
                let (s7, e7, kk7) = close_tool_calls(s6, s6.tool_calls, fresh_model(fresh@), kk6);
                assert(events_model(events@) =~= ev2 + e5 + e6 + e7);
            }
        }
        let ghost ev7 = events_model(events@);
        let resp = self.make_response("completed", now);
        let n = self.next_seq();
        self.emit(&mut events, ResponsesStreamEvent::ResponseCompleted { response: resp, sequence_number: n });
        events
    }

    fn xml_call_events(&mut self, parts: &Vec<(String, String)>, fresh: &Vec<String>, events: &mut Vec<ResponsesStreamEvent>) -> (r: usize)
        ensures
            ({
                let (s, e, k2) = xml_call_events(
                    old(self)@,
                    parts@.map_values(|c: (String, String)| (c.0@, c.1@)),
                    fresh_model(fresh@),
                    0,
                );
                final(self)@ == s && events_model(final(events)@) == events_model(old(events)@) + e && r == k2
            }),
            r <= fresh.len(),
    {
        let ghost s0 = self@;
        let ghost ev0 = events_model(events@);
        let ghost ps = parts@.map_values(|c: (String, String)| (c.0@, c.1@));
        let oi = (#[verifier::truncate] (self.tool_calls.len() as u32)).wrapping_add(1);
        let mut k: usize = 0;
        let mut i: usize = 0;
        while i < parts.len()
            invariant
                i <= parts.len(),
                k <= fresh.len(),
                ps == parts@.map_values(|c: (String, String)| (c.0@, c.1@)),
                oi == next_u32(s0.tool_calls.len() as u32),
                ({
                    let (s, e, k2) = xml_call_events(s0, ps.take(i as int), fresh_model(fresh@), 0);
                    self@ == s && events_model(events@) == ev0 + e && k == k2
                }),
            decreases parts.len() - i,
        {
            proof {
                assert(ps.take(i + 1).drop_last() =~= ps.take(i as int));
                assert(ps.take(i + 1).last() == (parts@[i as int].0@, parts@[i as int].1@));
            }
            let (a, k2) = draw(fresh, k);
            k = k2;
            let id = concat("call_", a.as_str());
            let item = ResponsesOutputItem::FunctionCall {
                id: id.clone(),
                call_id: id.clone(),
                name: parts[i].0.clone(),
                arguments: parts[i].1.clone(),
                status: Some(owned("completed")),
            };
            let item2 = item.clone();
            let n0 = self.next_seq();
            self.emit(events, ResponsesStreamEvent::OutputItemAdded { output_index: oi, item, sequence_number: n0 });
            let n1 = self.next_seq();
            self.emit(events, ResponsesStreamEvent::OutputItemDone { output_index: oi, item: item2, sequence_number: n1 });
            proof {
                let (s3, e3, k3) = xml_call_events(s0, ps.take(i + 1), fresh_model(fresh@), 0);
                assert(events_model(events@) =~= ev0 + e3);
            }
            i += 1;
        }
        assert(ps.take(parts.len() as int) =~= ps);
        k
    }

    /// Closes the stream when it ended without a finishing chunk, drawing
    /// fresh identifiers and reading the clock.
    pub fn finalize(&mut self) -> (r: Vec<ResponsesStreamEvent>)
        ensures
            exists|fresh: Seq<Seq<char>>, now: i64|
                (final(self)@, events_model(r@)) == chat_finalize(old(self)@, fresh, now),
    {
        let (_clean, parts) = xml_tool_call_parts(self.current_text.as_str());
        let needed = (parts.len() as u64).saturating_add(self.tool_calls.len() as u64);
        let mut fresh: Vec<String> = Vec::new();
        let mut i: u64 = 0;
        while i < needed
            decreases needed - i,
        {
            fresh.push(new_uuid());
            i += 1;
        }
        let now = now_unix();
        self.finalize_with(&fresh, now)
    }

    /// What the end of the upstream stream (or its `[DONE]` marker) does:
    /// an unfinished response is marked finished and closed (see
    /// [`chat_finalize`]); a finished one is left alone.
    pub fn finish_stream(&mut self) -> (r: Vec<ResponsesStreamEvent>)
        ensures
            old(self)@.finished ==> final(self)@ == old(self)@ && r@.len() == 0,
            !old(self)@.finished ==> exists|fresh: Seq<Seq<char>>, now: i64|
                (final(self)@, events_model(r@)) == chat_finalize(marked_finished(old(self)@), fresh, now),
    {
        if self.is_finished() {
            return Vec::new();
        }
        self.set_finished();
        self.finalize()
    }
}

/// The usage a chunk reports.
fn chunk_usage(u: &ChunkUsage) -> (r: ResponsesUsage)
    ensures
        r@ == chunk_usage_spec(u@),
{
    let z = |o: Option<u64>| -> (r: u64)
        ensures
            r == or_zero(o),
        {
            match o {
                Some(x) => x,
                None => 0,
            }
        };
    ResponsesUsage {
        input_tokens: #[verifier::truncate] (z(u.prompt_tokens) as u32),
        output_tokens: #[verifier::truncate] (z(u.completion_tokens) as u32),
        total_tokens: #[verifier::truncate] (z(u.total_tokens) as u32),
        input_tokens_details: Some(InputTokensDetails { cached_tokens: Some(#[verifier::truncate] (z(u.cached_tokens) as u32)) }),
        output_tokens_details: Some(OutputTokensDetails { reasoning_tokens: Some(#[verifier::truncate] (z(u.reasoning_tokens) as u32)) }),
    }
}

/// The number of tool-call deltas of a choice.
pub open spec fn choice_delta_count(c: ChunkChoiceModel) -> nat {
    match c.delta {
        Some(d) => match d.tool_calls {
            Some(t) => t.len(),
            None => 0,
        },
        None => 0,
    }
}

/// The number of tool-call deltas of all the choices.
pub open spec fn delta_count(cs: Seq<ChunkChoiceModel>) -> nat
    decreases cs.len(),
{
    if cs.len() == 0 {
        0
    } else {
        delta_count(cs.drop_last()) + choice_delta_count(cs.last())
    }
}

/// The choices of a chunk (none when it has no `choices` array).
pub open spec fn chunk_choices(c: ChatChunkModel) -> Seq<ChunkChoiceModel> {
    match c.choices {
        Some(cs) => cs,
        None => seq![],
    }
}

/// `x`, capped at `usize::MAX`.
pub open spec fn saturate(x: int) -> int {
    if x > usize::MAX {
        usize::MAX as int
    } else {
        x
    }
}

/// How many fresh identifiers a chunk may draw, with `open` tool calls
/// open before it: two per tool-call delta, and per choice one per tool call
/// that may be open by then (capped at `usize::MAX`).
pub open spec fn ids_needed_spec(c: ChatChunkModel, open: int) -> int {
    let cs = chunk_choices(c);
    let d = delta_count(cs) as int;
    saturate(2 * d + cs.len() * (open + d))
}

/// How many fresh identifiers a chunk may draw (see [`ids_needed_spec`]).
fn ids_needed(chunk: &ChatChunk, open: usize) -> (r: usize)
    ensures
        r == ids_needed_spec(chunk@, open as int),
{
    let ghost cs = chunk_choices(chunk@);
    let mut deltas: usize = 0;
    let mut n_choices: usize = 0;
    if let Some(choices) = &chunk.choices {
        let mut i: usize = 0;
        while i < choices.len()
            invariant
                i <= choices.len(),
                cs == choices@.map_values(|c: ChunkChoice| c@),
                deltas == saturate(delta_count(cs.take(i as int)) as int),
                n_choices == i,
            decreases choices.len() - i,
        {
            proof {
                assert(cs.take(i + 1).drop_last() =~= cs.take(i as int));
                assert(cs.take(i + 1).last() == choices@[i as int]@);
            }
            if let Some(d) = &choices[i].delta {
                if let Some(tcs) = &d.tool_calls {
                    deltas = deltas.saturating_add(tcs.len());
                }
            }
            n_choices = n_choices.saturating_add(1);
            i += 1;
        }
        assert(cs.take(choices.len() as int) =~= cs);
    } else {
        assert(cs.len() == 0);
    }
    let per_finish = open.saturating_add(deltas);
    let finishing = match n_choices.checked_mul(per_finish) {
        Some(x) => x,
        None => usize::MAX,
    };
    let r = deltas.saturating_add(deltas).saturating_add(finishing);
    proof {
        let d = delta_count(cs) as int;
        let c = cs.len() as int;
        let o = open as int;
        let m = usize::MAX as int;
        assert(c * (o + d) >= 0) by (nonlinear_arith)
            requires
                c >= 0,
                o >= 0,
                d >= 0,
        ;
        if c >= 1 {
            assert(c * (o + d) >= o + d) by (nonlinear_arith)
                requires
                    c >= 1,
                    o + d >= 0,
            ;
            assert(c * m >= m) by (nonlinear_arith)
                requires
                    c >= 1,
                    m >= 0,
            ;
        }
        if d < m && o + d <= m {
            assert(per_finish == o + d);
        }
    }
    r
}


// ===========================================================================
// Responses events to Chat Completions chunks
// ===========================================================================


/// A streamed Chat Completions message: a `chat.completion.chunk` object (with one choice at index 0), or the final `[DONE]`.
pub enum ChatStreamChunk {
    /// `usage` is `None` when the chunk has no `usage` member, `Some(None)` when it is `null`.
    Chunk { id: String, created: u64, model: String, delta: ChatDelta, finish_reason: Option<String>, usage: Option<Option<ChatUsage>> },
    /// The `[DONE]` marker.
    Done,
}

/// Model of [`ChatStreamChunk`].
pub enum ChatStreamChunkModel {
    Chunk { id: Seq<char>, created: u64, model: Seq<char>, delta: ChatDeltaModel, finish_reason: Option<Seq<char>>, usage: Option<Option<ChatUsageModel>> },
    Done,
}

impl View for ChatStreamChunk {
    type V = ChatStreamChunkModel;

    open spec fn view(&self) -> ChatStreamChunkModel {
        match self {
            ChatStreamChunk::Chunk { id, created, model, delta, finish_reason, usage } => ChatStreamChunkModel::Chunk { id: (*id)@, created: (*created), model: (*model)@, delta: (*delta)@, finish_reason: opt_seq((*finish_reason)), usage: (match (*usage) { Some(x1) => Some((match x1 { Some(x2) => Some(x2@), None => None })), None => None }) },
            ChatStreamChunk::Done => ChatStreamChunkModel::Done,
        }
    }
}

impl Clone for ChatStreamChunk {
    fn clone(&self) -> (r: Self)
        ensures
            r@ == self@,
    {
        match self {
            ChatStreamChunk::Chunk { id, created, model, delta, finish_reason, usage } => { let c_id = (*id).clone(); let c_created = (*created); let c_model = (*model).clone(); let c_delta = (*delta).clone(); let c_finish_reason = (*finish_reason).clone(); let c_usage = match &(*usage) { Some(x3) => { let x4 = match &(*x3) { Some(x5) => { let x6 = (*x5).clone(); Some(x6) }, None => None }; Some(x4) }, None => None }; ChatStreamChunk::Chunk { id: c_id, created: c_created, model: c_model, delta: c_delta, finish_reason: c_finish_reason, usage: c_usage } },
            ChatStreamChunk::Done => ChatStreamChunk::Done,
        }
    }
}



/// Translates a stream of Responses events into Chat Completions chunks.
pub struct ResponsesStreamToChatTranslator {
    chat_id: String,
    model: String,
    created: u64,
    finished: bool,
    current_tool_calls: Vec<ToolCallDelta>,
}

/// The model of a [`ResponsesStreamToChatTranslator`].
pub struct ResponsesToChatState {
    pub chat_id: Seq<char>,
    pub model: Seq<char>,
    pub created: u64,
    pub finished: bool,
    pub tool_calls: Seq<ToolCallDeltaModel>,
}

impl View for ResponsesStreamToChatTranslator {
    type V = ResponsesToChatState;

    closed spec fn view(&self) -> ResponsesToChatState {
        ResponsesToChatState {
            chat_id: self.chat_id@,
            model: self.model@,
            created: self.created,
            finished: self.finished,
            tool_calls: self.current_tool_calls@.map_values(|t: ToolCallDelta| t@),
        }
    }
}

/// A delta with nothing in it.
pub open spec fn empty_delta() -> ChatDeltaModel {
    ChatDeltaModel { role: None, content: None, tool_calls: None, refusal: None, reasoning_content: None }
}

/// A chunk carrying a delta, without finish reason or usage.
pub open spec fn delta_chunk(s: ResponsesToChatState, d: ChatDeltaModel) -> ChatStreamChunkModel {
    ChatStreamChunkModel::Chunk { id: s.chat_id, created: s.created, model: s.model, delta: d, finish_reason: None, usage: None }
}

/// The slot for tool call `i` before any delta reached it.
pub open spec fn blank_tool_call(i: int) -> ToolCallDeltaModel {
    ToolCallDeltaModel { index: i as u32, id: None, tool_type: None, function: None }
}

/// The tool-call slots extended with blank ones up to and including `index`.
pub open spec fn pad_tool_calls(ts: Seq<ToolCallDeltaModel>, index: int) -> Seq<ToolCallDeltaModel> {
    if ts.len() > index {
        ts
    } else {
        Seq::new((index + 1) as nat, |i: int| if i < ts.len() { ts[i] } else { blank_tool_call(i) })
    }
}

/// The Chat usage of a Responses usage.
pub open spec fn chat_usage_spec(u: ResponsesUsageModel) -> ChatUsageModel {
    ChatUsageModel {
        prompt_tokens: u.input_tokens,
        completion_tokens: u.output_tokens,
        total_tokens: u.total_tokens,
        prompt_tokens_details: match u.input_tokens_details {
            Some(d) => Some(PromptTokensDetailsModel { cached_tokens: d.cached_tokens }),
            None => None,
        },
        completion_tokens_details: match u.output_tokens_details {
            Some(d) => Some(CompletionTokensDetailsModel { reasoning_tokens: d.reasoning_tokens }),
            None => None,
        },
    }
}

/// One step of the translation: text, refusal, reasoning and argument
/// deltas become delta chunks (a tool call's first delta with its id and
/// type); the first `response.completed` becomes the final chunk (finish
/// reason `length` for an incomplete response, else `stop`, with the
/// usage) followed by `[DONE]`; other events give nothing.
pub open spec fn responses_to_chat_step(s: ResponsesToChatState, e: ResponsesStreamEventModel) -> (
    ResponsesToChatState,
    Seq<ChatStreamChunkModel>,
) {
    match e {
        ResponsesStreamEventModel::OutputTextDelta { delta, .. } => (
            s,
            seq![delta_chunk(s, ChatDeltaModel { content: Some(ChatContentModel::String(delta)), ..empty_delta() })],
        ),
        ResponsesStreamEventModel::RefusalDelta { delta, .. } => (
            s,
            seq![delta_chunk(s, ChatDeltaModel { refusal: Some(delta), ..empty_delta() })],
        ),
        ResponsesStreamEventModel::FunctionCallArgsDelta { output_index, delta, item_id, .. } => {
            let ts = pad_tool_calls(s.tool_calls, output_index as int);
            let tc = ts[output_index as int];
            let args = Some(FunctionCallDeltaModel { name: None, arguments: Some(delta) });
            if tc.id is None {
                let s1 = ResponsesToChatState {
                    tool_calls: ts.update(
                        output_index as int,
                        ToolCallDeltaModel { id: item_id, tool_type: Some("function"@), ..tc },
                    ),
                    ..s
                };
                (
                    s1,
                    seq![
                        delta_chunk(
                            s1,
                            ChatDeltaModel {
                                tool_calls: Some(
                                    seq![
                                        ToolCallDeltaModel {
                                            index: output_index,
                                            id: item_id,
                                            tool_type: Some("function"@),
                                            function: args,
                                        },
                                    ],
                                ),
                                ..empty_delta()
                            },
                        ),
                    ],
                )
            } else {
                let s1 = ResponsesToChatState { tool_calls: ts, ..s };
                (
                    s1,
                    seq![
                        delta_chunk(
                            s1,
                            ChatDeltaModel {
                                tool_calls: Some(
                                    seq![ToolCallDeltaModel { index: output_index, id: None, tool_type: None, function: args }],
                                ),
                                ..empty_delta()
                            },
                        ),
                    ],
                )
            }
        },
        ResponsesStreamEventModel::ReasoningTextDelta { delta, .. } => (
            s,
            seq![delta_chunk(s, ChatDeltaModel { reasoning_content: Some(delta), ..empty_delta() })],
        ),
        ResponsesStreamEventModel::ResponseCompleted { response, .. } => if !s.finished {
            let finish = if response.status == Some("incomplete"@) {
                "length"@
            } else {
                "stop"@
            };
            let usage = match response.usage {
                Some(u) => Some(chat_usage_spec(u)),
                None => None,
            };
            (
                ResponsesToChatState { finished: true, ..s },
                seq![
                    ChatStreamChunkModel::Chunk {
                        id: s.chat_id,
                        created: s.created,
                        model: s.model,
                        delta: empty_delta(),
                        finish_reason: Some(finish),
                        usage: Some(usage),
                    },
                    ChatStreamChunkModel::Done,
                ],
            )
        } else {
            (s, seq![])
        },
        _ => (s, seq![]),
    }
}

/// Models of a vector of chunks.
pub open spec fn chunks_model(v: Seq<ChatStreamChunk>) -> Seq<ChatStreamChunkModel> {
    v.map_values(|c: ChatStreamChunk| c@)
}

fn no_delta() -> (r: ChatDelta)
    ensures
        r@ == empty_delta(),
{
    ChatDelta { role: None, content: None, tool_calls: None, refusal: None, reasoning_content: None }
}

fn one_chunk(c: ChatStreamChunk) -> (r: Vec<ChatStreamChunk>)
    ensures
        chunks_model(r@) == seq![c@],
{
    let mut v: Vec<ChatStreamChunk> = Vec::new();
    v.push(c);
    assert(chunks_model(v@) =~= seq![c@]);
    v
}

fn chat_usage(u: &ResponsesUsage) -> (r: ChatUsage)
    ensures
        r@ == chat_usage_spec(u@),
{
    ChatUsage {
        prompt_tokens: u.input_tokens,
        completion_tokens: u.output_tokens,
        total_tokens: u.total_tokens,
        prompt_tokens_details: match &u.input_tokens_details {
            Some(d) => Some(PromptTokensDetails { cached_tokens: d.cached_tokens }),
            None => None,
        },
        completion_tokens_details: match &u.output_tokens_details {
            Some(d) => Some(CompletionTokensDetails { reasoning_tokens: d.reasoning_tokens }),
            None => None,
        },
    }
}

impl ResponsesStreamToChatTranslator {
    /// A translator with the given chunk id and creation time.
    pub fn with_identity(model: &str, chat_id: String, created: u64) -> (r: Self)
        ensures
            r@ == (ResponsesToChatState { chat_id: chat_id@, model: model@, created, finished: false, tool_calls: seq![] }),
    {
        let r = ResponsesStreamToChatTranslator {
            chat_id,
            model: owned(model),
            created,
            finished: false,
            current_tool_calls: Vec::new(),
        };
        assert(r@.tool_calls =~= seq![]);
        r
    }

    /// A translator for `model`, with a fresh `chatcmpl-` id, created now.
    pub fn new(model: &str) -> (r: Self)
        ensures
            exists|id: Seq<char>, t: u64|
                r@ == (ResponsesToChatState { chat_id: "chatcmpl-"@ + id, model: model@, created: t, finished: false, tool_calls: seq![] }),
    {
        let id = concat("chatcmpl-", new_uuid().as_str());
        let t = now_unix();
        let created: u64 = if t < 0 {
            0
        } else {
            t as u64
        };
        Self::with_identity(model, id, created)
    }

    fn delta_chunk(&self, d: ChatDelta) -> (r: ChatStreamChunk)
        ensures
            r@ == delta_chunk(self@, d@),
    {
        ChatStreamChunk::Chunk {
            id: self.chat_id.clone(),
            created: self.created,
            model: self.model.clone(),
            delta: d,
            finish_reason: None,
            usage: None,
        }
    }

    fn pad(&mut self, index: u32)
        ensures
            final(self)@ == (ResponsesToChatState { tool_calls: pad_tool_calls(old(self)@.tool_calls, index as int), ..old(self)@ }),
            final(self).current_tool_calls.len() > index,
    {
        let ghost ts0 = self@.tool_calls;
        let target = index as usize;
        if self.current_tool_calls.len() > target {
            return;
        }
        while self.current_tool_calls.len() <= target
            invariant
                self@.chat_id == old(self)@.chat_id,
                self@.model == old(self)@.model,
                self@.created == old(self)@.created,
                self@.finished == old(self)@.finished,
                ts0 == old(self)@.tool_calls,
                target == index,
                ts0.len() <= self@.tool_calls.len() <= index + 1,
                forall|i: int| 0 <= i < self@.tool_calls.len() ==> self@.tool_calls[i] == (if i < ts0.len() {
                    ts0[i]
                } else {
                    blank_tool_call(i)
                }),
            decreases target + 1 - self.current_tool_calls.len(),
        {
            let n = self.current_tool_calls.len();
            let ghost before = self.current_tool_calls@;
            let t = ToolCallDelta { index: #[verifier::truncate] (n as u32), id: None, tool_type: None, function: None };
            self.current_tool_calls.push(t);
            proof {
                assert(self@.tool_calls =~= before.map_values(|t: ToolCallDelta| t@).push(t@));
            }
        }
        assert(self@.tool_calls =~= pad_tool_calls(ts0, index as int));
    }

    /// Translates one event (see [`responses_to_chat_step`]).
    pub fn process_event(&mut self, event: &ResponsesStreamEvent) -> (r: Vec<ChatStreamChunk>)
        ensures
            (final(self)@, chunks_model(r@)) == responses_to_chat_step(old(self)@, event@),
    {
        match event {
            ResponsesStreamEvent::OutputTextDelta { delta, .. } => {
                let d = ChatDelta {
                    role: None,
                    content: Some(ChatContent::String(delta.clone())),
                    tool_calls: None,
                    refusal: None,
                    reasoning_content: None,
                };
                one_chunk(self.delta_chunk(d))
            },
            ResponsesStreamEvent::RefusalDelta { delta, .. } => {
                let d = ChatDelta { role: None, content: None, tool_calls: None, refusal: Some(delta.clone()), reasoning_content: None };
                one_chunk(self.delta_chunk(d))
            },
            ResponsesStreamEvent::FunctionCallArgsDelta { output_index, delta, item_id, .. } => {
                let index = *output_index;
                self.pad(index);
                let i = index as usize;
                let args = Some(FunctionCallDelta { name: None, arguments: Some(delta.clone()) });
                let first = self.current_tool_calls[i].id.is_none();
                let mut calls: Vec<ToolCallDelta> = Vec::new();
                if first {
                    let prev = self.current_tool_calls[i].clone();
                    let ghost before = self.current_tool_calls@;
                    self.current_tool_calls.set(
                        i,
                        ToolCallDelta { index: prev.index, id: item_id.clone(), tool_type: Some(owned("function")), function: prev.function },
                    );
                    proof {
                        assert(self@.tool_calls =~= before.map_values(|t: ToolCallDelta| t@).update(
                            i as int,
                            self.current_tool_calls@[i as int]@,
                        ));
                    }
                    calls.push(ToolCallDelta { index, id: item_id.clone(), tool_type: Some(owned("function")), function: args });
                } else {
                    calls.push(ToolCallDelta { index, id: None, tool_type: None, function: args });
                }
                let d = ChatDelta { role: None, content: None, tool_calls: Some(calls), refusal: None, reasoning_content: None };
                proof {
                    assert(calls@.map_values(|t: ToolCallDelta| t@) =~= seq![calls@[0]@]);
                }
                one_chunk(self.delta_chunk(d))
            },
            ResponsesStreamEvent::ReasoningTextDelta { delta, .. } => {
                let d = ChatDelta { role: None, content: None, tool_calls: None, refusal: None, reasoning_content: Some(delta.clone()) };
                one_chunk(self.delta_chunk(d))
            },
            ResponsesStreamEvent::ResponseCompleted { response, .. } => {
                if self.finished {
                    let v: Vec<ChatStreamChunk> = Vec::new();
                    assert(chunks_model(v@) =~= seq![]);
                    return v;
                }
                self.finished = true;
                let incomplete = match &response.status {
                    Some(st) => str_eq(st.as_str(), "incomplete"),
                    None => false,
                };
                let finish = if incomplete {
                    owned("length")
                } else {
                    owned("stop")
                };
                let usage = match &response.usage {
                    Some(u) => Some(chat_usage(u)),
                    None => None,
                };
                let last = ChatStreamChunk::Chunk {
                    id: self.chat_id.clone(),
                    created: self.created,
                    model: self.model.clone(),
                    delta: no_delta(),
                    finish_reason: Some(finish),
                    usage: Some(usage),
                };
                let mut v: Vec<ChatStreamChunk> = Vec::new();
                v.push(last);
                v.push(ChatStreamChunk::Done);
                assert(chunks_model(v@) =~= seq![last@, ChatStreamChunkModel::Done]);
                v
            },
            _ => {
                let v: Vec<ChatStreamChunk> = Vec::new();
                assert(chunks_model(v@) =~= seq![]);
                v
            },
        }
    }
}



// ---------------------------------------------------------------------------
// Tool input streamed in pieces
// ---------------------------------------------------------------------------

/// The state after a run of `input_json_delta` pieces for block `index`.
pub open spec fn input_json_run(s: AnthropicStreamState, index: u32, pieces: Seq<Seq<char>>) -> AnthropicStreamState
    decreases pieces.len(),
{
    if pieces.len() == 0 {
        s
    } else {
        let e = AnthropicStreamEventModel::ContentBlockDelta {
            index,
            delta: AnthropicContentBlockDeltaModel::InputJsonDelta { partial_json: pieces.last() },
        };
        anthropic_step(input_json_run(s, index, pieces.drop_last()), e, seq![], 0).0
    }
}

/// The pieces put together, in order.
pub open spec fn pieces_joined(pieces: Seq<Seq<char>>) -> Seq<char>
    decreases pieces.len(),
{
    if pieces.len() == 0 {
        seq![]
    } else {
        pieces_joined(pieces.drop_last()) + pieces.last()
    }
}

proof fn lemma_input_json_run(s: AnthropicStreamState, index: u32, pieces: Seq<Seq<char>>)
    ensures
        input_json_run(s, index, pieces).tool_arguments == s.tool_arguments + pieces_joined(pieces),
        input_json_run(s, index, pieces).tool_id == s.tool_id,
        input_json_run(s, index, pieces).tool_name == s.tool_name,
        input_json_run(s, index, pieces).item_id == s.item_id,
        input_json_run(s, index, pieces).block == s.block,
    decreases pieces.len(),
{
    if pieces.len() == 0 {
        assert(s.tool_arguments + pieces_joined(pieces) =~= s.tool_arguments);
    } else {
        lemma_input_json_run(s, index, pieces.drop_last());
        assert(s.tool_arguments + pieces_joined(pieces) =~= s.tool_arguments + pieces_joined(pieces.drop_last())
            + pieces.last());
    }
}

/// A tool-use block streamed as its start, any number of `input_json_delta`
/// pieces and its stop ends in exactly two events: the arguments done, with
/// all the pieces joined in order, and the completed function-call item
/// under the block's id and name with those arguments.
pub proof fn law_tool_input_joined(
    s: AnthropicStreamState,
    index: u32,
    id: Seq<char>,
    name: Seq<char>,
    input: Seq<char>,
    pieces: Seq<Seq<char>>,
    fresh_start: Seq<char>,
    fresh_stop: Seq<char>,
    now: i64,
)
    ensures
        ({
            let start = AnthropicStreamEventModel::ContentBlockStart {
                index,
                content_block: AnthropicContentBlockModel::ToolUse { id, name, input },
            };
            let s1 = anthropic_step(s, start, fresh_start, now).0;
            let s2 = input_json_run(s1, index, pieces);
            let e = anthropic_step(s2, AnthropicStreamEventModel::ContentBlockStop { index }, fresh_stop, now).1;
            &&& e.len() == 2
            &&& e[0] == ResponsesStreamEventModel::FunctionCallArgsDone {
                output_index: index,
                arguments: pieces_joined(pieces),
                name,
                item_id: Some(id),
                sequence_number: s2.seq,
            }
            &&& e[1] matches ResponsesStreamEventModel::OutputItemDone { output_index, item, .. }
                && output_index == index && item == (ResponsesOutputItemModel::FunctionCall {
                id: "fc_"@ + fresh_stop,
                call_id: id,
                name,
                arguments: pieces_joined(pieces),
                status: Some("completed"@),
            })
        }),
{
    let start = AnthropicStreamEventModel::ContentBlockStart {
        index,
        content_block: AnthropicContentBlockModel::ToolUse { id, name, input },
    };
    let s1 = anthropic_step(s, start, fresh_start, now).0;
    lemma_input_json_run(s1, index, pieces);
    assert(s1.tool_arguments + pieces_joined(pieces) =~= pieces_joined(pieces));
}


// ---------------------------------------------------------------------------
// What happens only once
// ---------------------------------------------------------------------------

/// An Anthropic stream announces its response only once: the first
/// `message_start` gives the created event (with the in-progress response,
/// the input tokens and the model the message reports) and the in-progress
/// event, numbered from the counter, and marks the stream started; a second
/// `message_start` gives nothing.
pub proof fn law_anthropic_created_once(
    s: AnthropicStreamState,
    message: crate::types::anthropic::AnthropicResponseModel,
    fresh1: Seq<char>,
    now1: i64,
    fresh2: Seq<char>,
    now2: i64,
)
    requires
        !s.started,
    ensures
        ({
            let e = AnthropicStreamEventModel::MessageStart { message };
            let (s1, e1) = anthropic_step(s, e, fresh1, now1);
            let (s2, e2) = anthropic_step(s1, e, fresh2, now2);
            &&& e1.len() == 2
            &&& e1[0] matches ResponsesStreamEventModel::ResponseCreated { response, sequence_number }
                && response.status == Some("in_progress"@) && response.model == Some(message.model)
                && (response.usage matches Some(u) && u.input_tokens == message.usage.input_tokens)
                && sequence_number == s.seq
            &&& e1[1] matches ResponsesStreamEventModel::ResponseInProgress { sequence_number, .. }
                && sequence_number == (s.seq + 1) as u32
            &&& s1.started
            &&& e2.len() == 0
        }),
{
}

/// Once a Responses stream has completed, a further completion gives no
/// chunk and changes nothing: the final chunk and `[DONE]` come at most once.
pub proof fn law_responses_completed_once(
    s: ResponsesToChatState,
    first: ResponsesResponseModel,
    n1: u32,
    second: ResponsesResponseModel,
    n2: u32,
)
    ensures
        ({
            let (s1, c1) = responses_to_chat_step(
                s,
                ResponsesStreamEventModel::ResponseCompleted { response: first, sequence_number: n1 },
            );
            let again = responses_to_chat_step(
                s1,
                ResponsesStreamEventModel::ResponseCompleted { response: second, sequence_number: n2 },
            );
            &&& s1.finished
            &&& !s.finished ==> c1.len() == 2 && c1[1] == ChatStreamChunkModel::Done
            &&& s.finished ==> s1 == s && c1.len() == 0
            &&& again == (s1, Seq::<ChatStreamChunkModel>::empty())
        }),
{
}

proof fn lemma_choice_finish_sets_finished(s: ChatStreamState, ch: ChunkChoiceModel, fresh: Seq<Seq<char>>, k: int, now: i64)
    requires
        ch.finish_reason is Some,
    ensures
        choice_step(s, ch, fresh, k, now).0.finished,
{
    reveal(finish_step);
}

proof fn lemma_choices_finish_sets_finished(
    s: ChatStreamState,
    cs: Seq<ChunkChoiceModel>,
    fresh: Seq<Seq<char>>,
    k: int,
    now: i64,
    j: int,
)
    requires
        0 <= j < cs.len(),
        cs[j].finish_reason is Some,
    ensures
        choices_step(s, cs, fresh, k, now).0.finished,
    decreases cs.len(),
{
    let (s1, e1, k1) = choices_step(s, cs.drop_last(), fresh, k, now);
    if j == cs.len() - 1 {
        lemma_choice_finish_sets_finished(s1, cs.last(), fresh, k1, now);
    } else {
        lemma_choices_finish_sets_finished(s, cs.drop_last(), fresh, k, now, j);
        lemma_choice_step_flags(s1, cs.last(), fresh, k1, now);
    }
}

/// A chunk with a choice whose finish reason is a string leaves the
/// response finished.
pub proof fn law_chat_finish_reason_finishes(s: ChatStreamState, c: ChatChunkModel, fresh: Seq<Seq<char>>, now: i64, j: int)
    requires
        0 <= j < chunk_choices(c).len(),
        chunk_choices(c)[j].finish_reason is Some,
    ensures
        chat_chunk_step(s, c, fresh, now).0.finished,
{
    let (s1, e1) = chat_start(s, now);
    let s2 = match c.usage {
        Some(u) => ChatStreamState { usage: Some(chunk_usage_spec(u)), ..s1 },
        None => s1,
    };
    let cs = c.choices.unwrap();
    lemma_choices_finish_sets_finished(s2, cs, fresh, 0, now, j);
}

} // verus!
