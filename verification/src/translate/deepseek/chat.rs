//! DeepSeek: Responses API and Chat Completions, both ways.
//!
//! DeepSeek does not take the `developer` role (it becomes `system`), needs
//! thinking switched off explicitly, and continues a chain of thought when
//! the previous turn's reasoning is put back on the last assistant message.

use vstd::prelude::*;
use crate::text::{concat, owned, str_eq, u64_to_decimal, decimal};
use crate::json::opt_seq;
use crate::types::chat::{
    chat_content_text, chat_content_to_string, ChatChoice, ChatChoiceModel, ChatCompletionsRequest,
    ChatCompletionsRequestModel, ChatCompletionsResponse, ChatCompletionsResponseModel, ChatContent,
    ChatContentModel, ChatContentPart, ChatContentPartModel, ChatFunction, ChatFunctionModel,
    ChatImageUrl, ChatImageUrlModel, ChatMessage, ChatMessageModel, ChatTool, ChatToolModel,
    ChatUsage, ChatUsageModel, CompletionTokensDetails, CompletionTokensDetailsModel, FunctionCall,
    FunctionCallModel, JsonSchemaDef, JsonSchemaDefModel, PromptTokensDetails,
    PromptTokensDetailsModel, ResponseFormat, ResponseFormatModel, StreamOptions,
    StreamOptionsModel, ThinkingConfig, ThinkingConfigModel, ToolCall, ToolCallModel,
};
use crate::types::responses::{
    content_parts_to_text, part_texts, parts_model, tool_function, FunctionDefinition,
    FunctionDefinitionModel, InputTokensDetails, InputTokensDetailsModel, Instructions,
    OutputTokensDetails, OutputTokensDetailsModel, ReasoningConfig, ReasoningConfigModel,
    ResponsesContentPart, ResponsesContentPartModel, ResponsesInputItem, ResponsesInputItemModel,
    ResponsesOutputItem, ResponsesOutputItemModel, ResponsesRequest, ResponsesRequestModel,
    ResponsesResponse, ResponsesResponseModel, ResponsesTool, ResponsesToolModel, ResponsesUsage,
    ResponsesUsageModel, TextConfig, TextConfigModel, TextFormat, TextFormatModel,
};

verus! {

broadcast use vstd::seq_lib::group_seq_properties;

// ===========================================================================
// Content
// ===========================================================================

/// The text of a text part (input, output or plain text).
pub open spec fn text_of_part(p: ResponsesContentPartModel) -> Option<Seq<char>> {
    match p {
        ResponsesContentPartModel::InputText { text } => Some(text),
        ResponsesContentPartModel::OutputText { text } => Some(text),
        ResponsesContentPartModel::Text { text } => Some(text),
        _ => None,
    }
}

/// Whether a part is an image or a file.
pub open spec fn is_media_part(p: ResponsesContentPartModel) -> bool {
    p is InputImage || p is InputFile || p is ImageUrl
}

/// The texts of the text parts, in order.
pub open spec fn text_parts(parts: Seq<ResponsesContentPartModel>) -> Seq<Seq<char>>
    decreases parts.len(),
{
    if parts.len() == 0 {
        seq![]
    } else {
        let rest = text_parts(parts.drop_last());
        match text_of_part(parts.last()) {
            Some(t) => rest.push(t),
            None => rest,
        }
    }
}

/// Whether some part is an image or a file.
pub open spec fn has_media(parts: Seq<ResponsesContentPartModel>) -> bool {
    exists|i: int| 0 <= i < parts.len() && is_media_part(#[trigger] parts[i])
}

/// The Chat part of a Responses part, if it has one: text stays text, an
/// image with a non-empty URL stays an image, files and tool results drop.
pub open spec fn chat_part_of(p: ResponsesContentPartModel) -> Option<ChatContentPartModel> {
    match p {
        ResponsesContentPartModel::InputText { text } => Some(ChatContentPartModel::Text { text }),
        ResponsesContentPartModel::OutputText { text } => Some(ChatContentPartModel::Text { text }),
        ResponsesContentPartModel::Text { text } => Some(ChatContentPartModel::Text { text }),
        ResponsesContentPartModel::InputImage { image_url, detail } => {
            let url = match image_url {
                Some(u) => u,
                None => seq![],
            };
            if url.len() == 0 {
                None
            } else {
                Some(ChatContentPartModel::ImageUrl { image_url: ChatImageUrlModel { url, detail } })
            }
        },
        ResponsesContentPartModel::ImageUrl { url, detail } => Some(
            ChatContentPartModel::ImageUrl { image_url: ChatImageUrlModel { url, detail } },
        ),
        _ => None,
    }
}

/// The Chat parts of Responses parts, in order.
pub open spec fn chat_parts_of(parts: Seq<ResponsesContentPartModel>) -> Seq<ChatContentPartModel>
    decreases parts.len(),
{
    if parts.len() == 0 {
        seq![]
    } else {
        let rest = chat_parts_of(parts.drop_last());
        match chat_part_of(parts.last()) {
            Some(c) => rest.push(c),
            None => rest,
        }
    }
}

/// Chat content of Responses parts: a plain string when there is no media
/// and at most one text part (empty for none), else the list of parts.
pub open spec fn chat_content_of(parts: Seq<ResponsesContentPartModel>) -> ChatContentModel {
    if parts.len() == 0 {
        ChatContentModel::String(seq![])
    } else if !has_media(parts) && text_parts(parts).len() == 1 {
        ChatContentModel::String(text_parts(parts)[0])
    } else if !has_media(parts) && text_parts(parts).len() == 0 {
        ChatContentModel::String(seq![])
    } else {
        ChatContentModel::Parts(chat_parts_of(parts))
    }
}

/// Convert Responses content parts into Chat content (see [`chat_content_of`]).
pub fn responses_content_parts_to_chat_content(parts: &[ResponsesContentPart]) -> (r: ChatContent)
    ensures
        r@ == chat_content_of(parts_model(parts@)),
{
    let ghost ps = parts_model(parts@);
    if parts.len() == 0 {
        return ChatContent::String(String::new());
    }
    let mut texts: Vec<String> = Vec::new();
    let mut media = false;
    let mut out: Vec<ChatContentPart> = Vec::new();
    let mut i: usize = 0;
    while i < parts.len()
        invariant
            i <= parts.len(),
            ps == parts_model(parts@),
            texts@.map_values(|s: String| s@) == text_parts(ps.take(i as int)),
            out@.map_values(|c: ChatContentPart| c@) == chat_parts_of(ps.take(i as int)),
            media == has_media(ps.take(i as int)),
        decreases parts.len() - i,
    {
        proof {
            assert(ps.take(i + 1).drop_last() =~= ps.take(i as int));
            assert(ps.take(i + 1).last() == parts@[i as int]@);
        }
        let ghost t0 = texts@;
        let ghost o0 = out@;
        match &parts[i] {
            ResponsesContentPart::InputText { text }
            | ResponsesContentPart::OutputText { text }
            | ResponsesContentPart::Text { text } => {
                texts.push(text.clone());
                out.push(ChatContentPart::Text { text: text.clone() });
            },
            ResponsesContentPart::InputImage { image_url, detail } => {
                media = true;
                let url = match image_url {
                    Some(u) => u.clone(),
                    None => String::new(),
                };
                if url.unicode_len() > 0 {
                    out.push(ChatContentPart::ImageUrl { image_url: ChatImageUrl { url, detail: detail.clone() } });
                }
            },
            ResponsesContentPart::ImageUrl { url, detail } => {
                media = true;
                out.push(ChatContentPart::ImageUrl { image_url: ChatImageUrl { url: url.clone(), detail: detail.clone() } });
            },
            ResponsesContentPart::InputFile { .. } => {
                media = true;
            },
            ResponsesContentPart::ToolResult { .. } => {},
        }
        proof {
            assert(texts@.map_values(|s: String| s@) =~= text_parts(ps.take(i + 1)));
            assert(out@.map_values(|c: ChatContentPart| c@) =~= chat_parts_of(ps.take(i + 1)));
            let q = ps.take(i + 1);
            if is_media_part(q[i as int]) {
                assert(has_media(q));
            }
            if has_media(q) {
                let j = choose|j: int| 0 <= j < q.len() && is_media_part(#[trigger] q[j]);
                if j < i {
                    assert(ps.take(i as int)[j] == q[j]);
                }
            }
            if has_media(ps.take(i as int)) {
                let j = choose|j: int| 0 <= j < i && is_media_part(#[trigger] ps.take(i as int)[j]);
                assert(q[j] == ps.take(i as int)[j]);
            }
        }
        i += 1;
    }
    assert(ps.take(parts.len() as int) =~= ps);
    if !media && texts.len() == 1 {
        return ChatContent::String(texts[0].clone());
    }
    if !media && texts.len() == 0 {
        return ChatContent::String(String::new());
    }
    ChatContent::Parts(out)
}

/// The Responses part of a Chat part, if it has one.
pub open spec fn responses_part_of(p: ChatContentPartModel) -> Option<ResponsesContentPartModel> {
    match p {
        ChatContentPartModel::Text { text } => Some(ResponsesContentPartModel::InputText { text }),
        ChatContentPartModel::ImageUrl { image_url } => Some(
            ResponsesContentPartModel::InputImage { image_url: Some(image_url.url), detail: image_url.detail },
        ),
        ChatContentPartModel::InputAudio { .. } => None,
        ChatContentPartModel::Refusal { refusal } => Some(ResponsesContentPartModel::InputText { text: refusal }),
    }
}

/// The Responses parts of Chat parts, in order.
pub open spec fn responses_parts_of(parts: Seq<ChatContentPartModel>) -> Seq<ResponsesContentPartModel>
    decreases parts.len(),
{
    if parts.len() == 0 {
        seq![]
    } else {
        let rest = responses_parts_of(parts.drop_last());
        match responses_part_of(parts.last()) {
            Some(c) => rest.push(c),
            None => rest,
        }
    }
}

/// Responses input parts of Chat content: none for no content, an empty
/// string or no convertible part.
pub open spec fn input_parts_of(content: Option<ChatContentModel>) -> Option<Seq<ResponsesContentPartModel>> {
    match content {
        None => None,
        Some(ChatContentModel::String(s)) => if s.len() == 0 {
            None
        } else {
            Some(seq![ResponsesContentPartModel::InputText { text: s }])
        },
        Some(ChatContentModel::Parts(ps)) => {
            let c = responses_parts_of(ps);
            if c.len() == 0 {
                None
            } else {
                Some(c)
            }
        },
    }
}

/// Optional chat content as a model.
pub open spec fn content_model(c: Option<ChatContent>) -> Option<ChatContentModel> {
    match c {
        Some(x) => Some(x@),
        None => None,
    }
}

/// Convert Chat content into Responses input parts (see [`input_parts_of`]).
pub fn chat_content_to_responses_content_parts(content: &Option<ChatContent>) -> (r: Option<Vec<ResponsesContentPart>>)
    ensures
        match r {
            Some(v) => input_parts_of(content_model(*content)) == Some(parts_model(v@)),
            None => input_parts_of(content_model(*content)) is None,
        },
{
    match content {
        None => None,
        Some(ChatContent::String(s)) => {
            if s.unicode_len() == 0 {
                None
            } else {
                let mut v: Vec<ResponsesContentPart> = Vec::new();
                v.push(ResponsesContentPart::InputText { text: s.clone() });
                assert(parts_model(v@) =~= seq![ResponsesContentPartModel::InputText { text: s@ }]);
                Some(v)
            }
        },
        Some(ChatContent::Parts(parts)) => {
            let ghost ps = parts@.map_values(|p: ChatContentPart| p@);
            let mut v: Vec<ResponsesContentPart> = Vec::new();
            let mut i: usize = 0;
            while i < parts.len()
                invariant
                    i <= parts.len(),
                    ps == parts@.map_values(|p: ChatContentPart| p@),
                    parts_model(v@) == responses_parts_of(ps.take(i as int)),
                decreases parts.len() - i,
            {
                proof {
                    assert(ps.take(i + 1).drop_last() =~= ps.take(i as int));
                    assert(ps.take(i + 1).last() == parts@[i as int]@);
                }
                match &parts[i] {
                    ChatContentPart::Text { text } => {
                        v.push(ResponsesContentPart::InputText { text: text.clone() });
                    },
                    ChatContentPart::ImageUrl { image_url } => {
                        v.push(
                            ResponsesContentPart::InputImage {
                                image_url: Some(image_url.url.clone()),
                                detail: image_url.detail.clone(),
                            },
                        );
                    },
                    ChatContentPart::InputAudio { .. } => {},
                    ChatContentPart::Refusal { refusal } => {
                        v.push(ResponsesContentPart::InputText { text: refusal.clone() });
                    },
                }
                assert(parts_model(v@) =~= responses_parts_of(ps.take(i + 1)));
                i += 1;
            }
            assert(ps.take(parts.len() as int) =~= ps);
            if v.len() == 0 {
                None
            } else {
                Some(v)
            }
        },
    }
}

/// `prefix_n`, the identifier of the `n`-th generated output item.
pub open spec fn gen_id_spec(prefix: Seq<char>, n: nat) -> Seq<char> {
    prefix + "_"@ + decimal(n)
}

/// The identifier `prefix_n` (output items get such identifiers when the
/// upstream gives none; `n` comes from a process-wide counter).
pub fn gen_id(prefix: &str, n: u64) -> (r: String)
    ensures
        r@ == gen_id_spec(prefix@, n as nat),
{
    let mut s = concat(prefix, "_");
    s.append(u64_to_decimal(n).as_str());
    s
}

// ===========================================================================
// 1. Responses request to Chat request
// ===========================================================================

/// A message with only a role and content.
pub open spec fn plain_message(role: Seq<char>, content: Option<ChatContentModel>) -> ChatMessageModel {
    ChatMessageModel {
        role,
        content,
        name: None,
        tool_calls: None,
        tool_call_id: None,
        refusal: None,
        reasoning_content: None,
    }
}

/// The Chat message of a Responses input item (DeepSeek: `developer`
/// becomes `system`).
pub open spec fn deepseek_message_of(item: ResponsesInputItemModel) -> ChatMessageModel {
    match item {
        ResponsesInputItemModel::Message { role, content, name, .. } => ChatMessageModel {
            role: if role == "developer"@ {
                "system"@
            } else {
                role
            },
            content: match content {
                Some(parts) => Some(chat_content_of(parts)),
                None => None,
            },
            name,
            ..plain_message(seq![], None)
        },
        ResponsesInputItemModel::FunctionCall { call_id, name, arguments, .. } => ChatMessageModel {
            tool_calls: Some(
                seq![
                    ToolCallModel {
                        id: call_id,
                        tool_type: "function"@,
                        function: FunctionCallModel { name, arguments },
                        index: None,
                    },
                ],
            ),
            ..plain_message("assistant"@, None)
        },
        ResponsesInputItemModel::FunctionCallOutput { call_id, output, .. } => ChatMessageModel {
            tool_call_id: Some(call_id),
            ..plain_message("tool"@, Some(ChatContentModel::String(output)))
        },
    }
}

/// Index of the last assistant message.
pub open spec fn last_assistant(ms: Seq<ChatMessageModel>) -> Option<int>
    decreases ms.len(),
{
    if ms.len() == 0 {
        None
    } else if ms.last().role == "assistant"@ {
        Some(ms.len() - 1)
    } else {
        last_assistant(ms.drop_last())
    }
}

/// Messages with the previous turn's reasoning put on the last assistant
/// message (unchanged when there is none).
pub open spec fn with_reasoning(ms: Seq<ChatMessageModel>, reasoning: Option<Seq<char>>) -> Seq<ChatMessageModel> {
    match reasoning {
        Some(r) => match last_assistant(ms) {
            Some(j) => ms.update(j, ChatMessageModel { reasoning_content: Some(r), ..ms[j] }),
            None => ms,
        },
        None => ms,
    }
}

/// The Chat tools of Responses tools that describe a function.
pub open spec fn chat_tools_of(ts: Seq<ResponsesToolModel>) -> Seq<ChatToolModel>
    decreases ts.len(),
{
    if ts.len() == 0 {
        seq![]
    } else {
        let rest = chat_tools_of(ts.drop_last());
        match tool_function(ts.last()) {
            Some(f) => rest.push(
                ChatToolModel {
                    tool_type: "function"@,
                    function: ChatFunctionModel { name: f.name, description: f.description, parameters: f.parameters },
                },
            ),
            None => rest,
        }
    }
}

/// The Chat response format of a Responses text format.
pub open spec fn response_format_of(f: TextFormatModel) -> ResponseFormatModel {
    match f {
        TextFormatModel::Text => ResponseFormatModel::Text,
        TextFormatModel::JsonObject => ResponseFormatModel::JsonObject,
        TextFormatModel::JsonSchema { name, schema, strict } => ResponseFormatModel::JsonSchema {
            json_schema: JsonSchemaDefModel { name, schema, strict },
        },
    }
}

/// The Chat response format of a Responses text configuration.
pub open spec fn text_format_spec(t: Option<TextConfigModel>) -> Option<ResponseFormatModel> {
    match t {
        Some(tc) => match tc.format {
            Some(f) => Some(response_format_of(f)),
            None => None,
        },
        None => None,
    }
}

/// The instruction message, when there are non-empty instructions.
pub open spec fn instruction_messages(i: Option<Seq<char>>) -> Seq<ChatMessageModel> {
    match i {
        Some(t) => if t.len() > 0 {
            seq![plain_message("system"@, Some(ChatContentModel::String(t)))]
        } else {
            seq![]
        },
        None => seq![],
    }
}

/// The DeepSeek Chat request of a Responses request.
pub open spec fn deepseek_request_spec(r: ResponsesRequestModel, previous_reasoning: Option<Seq<char>>) -> ChatCompletionsRequestModel {
    let items = match r.input {
        Some(xs) => xs,
        None => seq![],
    };
    let messages = with_reasoning(
        instruction_messages(r.instructions) + items.map_values(|x: ResponsesInputItemModel| deepseek_message_of(x)),
        previous_reasoning,
    );
    let top = match r.top_logprobs {
        Some(n) => if n > 0 {
            Some(n)
        } else {
            None
        },
        None => None,
    };
    ChatCompletionsRequestModel {
        model: r.model,
        messages,
        stream: r.stream,
        max_tokens: None,
        max_completion_tokens: r.max_output_tokens,
        temperature: Some(
            match r.temperature {
                Some(t) => t,
                None => "1.0"@,
            },
        ),
        top_p: r.top_p,
        frequency_penalty: r.frequency_penalty,
        presence_penalty: r.presence_penalty,
        tools: match r.tools {
            Some(ts) => Some(chat_tools_of(ts)),
            None => None,
        },
        tool_choice: r.tool_choice,
        parallel_tool_calls: r.parallel_tool_calls,
        stop: None,
        n: None,
        seed: None,
        stream_options: if r.stream == Some(true) {
            Some(StreamOptionsModel { include_usage: Some(true) })
        } else {
            None
        },
        user: r.user,
        response_format: text_format_spec(r.text),
        logprobs: if top is Some {
            Some(true)
        } else {
            None
        },
        top_logprobs: top,
        reasoning_effort: match r.reasoning {
            Some(rc) => rc.effort,
            None => None,
        },
        service_tier: r.service_tier,
        store: r.store,
        metadata: r.metadata,
        thinking: Some(ThinkingConfigModel { thinking_type: "disabled"@ }),
    }
}

/// Models of chat messages.
pub open spec fn messages_model(v: Seq<ChatMessage>) -> Seq<ChatMessageModel> {
    v.map_values(|m: ChatMessage| m@)
}

fn message_of_item(item: &ResponsesInputItem) -> (r: ChatMessage)
    ensures
        r@ == deepseek_message_of(item@),
{
    match item {
        ResponsesInputItem::Message { role, content, name, .. } => {
            let mapped = if str_eq(role.as_str(), "developer") {
                owned("system")
            } else {
                role.clone()
            };
            ChatMessage {
                role: mapped,
                content: match content {
                    Some(parts) => Some(responses_content_parts_to_chat_content(parts.as_slice())),
                    None => None,
                },
                name: name.clone(),
                tool_calls: None,
                tool_call_id: None,
                refusal: None,
                reasoning_content: None,
            }
        },
        ResponsesInputItem::FunctionCall { call_id, name, arguments, .. } => {
            let mut calls: Vec<ToolCall> = Vec::new();
            let tc = ToolCall {
                id: call_id.clone(),
                tool_type: owned("function"),
                function: FunctionCall { name: name.clone(), arguments: arguments.clone() },
                index: None,
            };
            calls.push(tc);
            assert(calls@.map_values(|t: ToolCall| t@) =~= seq![tc@]);
            ChatMessage {
                role: owned("assistant"),
                content: None,
                name: None,
                tool_calls: Some(calls),
                tool_call_id: None,
                refusal: None,
                reasoning_content: None,
            }
        },
        ResponsesInputItem::FunctionCallOutput { call_id, output, .. } => ChatMessage {
            role: owned("tool"),
            content: Some(ChatContent::String(output.clone())),
            name: None,
            tool_calls: None,
            tool_call_id: Some(call_id.clone()),
            refusal: None,
            reasoning_content: None,
        },
    }
}

/// Puts `reasoning` on the last assistant message.
fn inject_reasoning(messages: &mut Vec<ChatMessage>, reasoning: Option<String>)
    ensures
        messages_model(final(messages)@) == with_reasoning(messages_model(old(messages)@), opt_seq(reasoning)),
{
    let r = match reasoning {
        Some(r) => r,
        None => {
            return ;
        },
    };
    let ghost ms = messages_model(messages@);
    assert(ms.take(messages.len() as int) =~= ms);
    let mut j: usize = messages.len();
    while j > 0
        invariant
            j <= messages.len(),
            ms == messages_model(messages@),
            ms == messages_model(old(messages)@),
            opt_seq(reasoning) == Some(r@),
            last_assistant(ms) == last_assistant(ms.take(j as int)),
        decreases j,
    {
        proof {
            assert(ms.take(j as int).last() == messages@[j - 1]@);
            assert(ms.take(j as int).drop_last() =~= ms.take(j - 1));
        }
        if str_eq(messages[j - 1].role.as_str(), "assistant") {
            let mut updated = messages[j - 1].clone();
            updated.reasoning_content = Some(r);
            proof {
                assert(ms.take(j as int).len() == j);
                assert(ms.take(j as int).last().role == "assistant"@);
                assert(last_assistant(ms.take(j as int)) == Some(j - 1));
                assert(last_assistant(ms) == Some(j - 1));
            }
            messages.set(j - 1, updated);
            proof {
                assert(messages_model(messages@) =~= ms.update(
                    j - 1,
                    ChatMessageModel { reasoning_content: Some(r@), ..ms[j - 1] },
                ));
            }
            return ;
        }
        j -= 1;
    }
    assert(ms.take(0) =~= Seq::<ChatMessageModel>::empty());
}

/// Convert a Responses request into a DeepSeek Chat request (see
/// [`deepseek_request_spec`]); `previous_reasoning` continues the previous
/// turn's chain of thought.
pub fn convert_responses_to_chat(responses: &ResponsesRequest, previous_reasoning: Option<String>) -> (r: ChatCompletionsRequest)
    ensures
        r@ == deepseek_request_spec(responses@, opt_seq(previous_reasoning)),
{
    let mut messages: Vec<ChatMessage> = Vec::new();
    if let Some(instructions) = &responses.instructions {
        if instructions.0.unicode_len() > 0 {
            messages.push(
                ChatMessage {
                    role: owned("system"),
                    content: Some(ChatContent::String(instructions.0.clone())),
                    name: None,
                    tool_calls: None,
                    tool_call_id: None,
                    refusal: None,
                    reasoning_content: None,
                },
            );
        }
    }
    let ghost head = messages_model(messages@);
    assert(head =~= instruction_messages(responses@.instructions));
    let ghost items = match responses@.input {
        Some(xs) => xs,
        None => Seq::<ResponsesInputItemModel>::empty(),
    };
    if let Some(input) = &responses.input {
        let mut i: usize = 0;
        while i < input.len()
            invariant
                i <= input.len(),
                items == input@.map_values(|x: ResponsesInputItem| x@),
                messages_model(messages@) == head + items.take(i as int).map_values(
                    |x: ResponsesInputItemModel| deepseek_message_of(x),
                ),
            decreases input.len() - i,
        {
            let m = message_of_item(&input[i]);
            let ghost prev = messages@;
            messages.push(m);
            proof {
                assert(messages_model(messages@) =~= messages_model(prev).push(m@));
                assert(items.take(i + 1) =~= items.take(i as int).push(input@[i as int]@));
                assert(items.take(i + 1).map_values(|x: ResponsesInputItemModel| deepseek_message_of(x))
                    =~= items.take(i as int).map_values(|x: ResponsesInputItemModel| deepseek_message_of(x)).push(
                    deepseek_message_of(input@[i as int]@),
                ));
            }
            i += 1;
        }
        assert(items.take(input.len() as int) =~= items);
    } else {
        assert(head + items.map_values(|x: ResponsesInputItemModel| deepseek_message_of(x)) =~= head);
    }
    inject_reasoning(&mut messages, previous_reasoning);
    let tools = match &responses.tools {
        Some(ts) => Some(chat_tools(ts)),
        None => None,
    };
    let response_format = match &responses.text {
        Some(tc) => match &tc.format {
            Some(f) => Some(response_format(f)),
            None => None,
        },
        None => None,
    };
    let reasoning_effort = match &responses.reasoning {
        Some(rc) => rc.effort.clone(),
        None => None,
    };
    let (logprobs, top_logprobs) = match responses.top_logprobs {
        Some(n) => if n > 0 {
            (Some(true), Some(n))
        } else {
            (None, None)
        },
        None => (None, None),
    };
    let stream_on = match responses.stream {
        Some(b) => b,
        None => false,
    };
    ChatCompletionsRequest {
        model: responses.model.clone(),
        messages,
        stream: responses.stream,
        max_tokens: None,
        max_completion_tokens: responses.max_output_tokens,
        temperature: Some(
            match &responses.temperature {
                Some(t) => t.clone(),
                None => owned("1.0"),
            },
        ),
        top_p: responses.top_p.clone(),
        frequency_penalty: responses.frequency_penalty.clone(),
        presence_penalty: responses.presence_penalty.clone(),
        tools,
        tool_choice: responses.tool_choice.clone(),
        parallel_tool_calls: responses.parallel_tool_calls,
        stop: None,
        n: None,
        seed: None,
        stream_options: if stream_on {
            Some(StreamOptions { include_usage: Some(true) })
        } else {
            None
        },
        user: responses.user.clone(),
        response_format,
        logprobs,
        top_logprobs,
        reasoning_effort,
        service_tier: responses.service_tier.clone(),
        store: responses.store,
        metadata: responses.metadata.clone(),
        thinking: Some(ThinkingConfig { thinking_type: owned("disabled") }),
    }
}

/// The Chat tools of Responses tools (see [`chat_tools_of`]).
pub fn chat_tools(ts: &Vec<ResponsesTool>) -> (r: Vec<ChatTool>)
    ensures
        r@.map_values(|t: ChatTool| t@) == chat_tools_of(ts@.map_values(|t: ResponsesTool| t@)),
{
    let ghost m = ts@.map_values(|t: ResponsesTool| t@);
    let mut out: Vec<ChatTool> = Vec::new();
    let mut i: usize = 0;
    while i < ts.len()
        invariant
            i <= ts.len(),
            m == ts@.map_values(|t: ResponsesTool| t@),
            out@.map_values(|t: ChatTool| t@) == chat_tools_of(m.take(i as int)),
        decreases ts.len() - i,
    {
        proof {
            assert(m.take(i + 1).drop_last() =~= m.take(i as int));
            assert(m.take(i + 1).last() == ts@[i as int]@);
        }
        if let Some(f) = ts[i].get_function() {
            out.push(
                ChatTool {
                    tool_type: owned("function"),
                    function: ChatFunction { name: f.name, description: f.description, parameters: f.parameters },
                },
            );
        }
        assert(out@.map_values(|t: ChatTool| t@) =~= chat_tools_of(m.take(i + 1)));
        i += 1;
    }
    assert(m.take(ts.len() as int) =~= m);
    out
}

/// The Chat response format of a Responses text format.
pub fn response_format(f: &TextFormat) -> (r: ResponseFormat)
    ensures
        r@ == response_format_of(f@),
{
    match f {
        TextFormat::Text => ResponseFormat::Text,
        TextFormat::JsonObject => ResponseFormat::JsonObject,
        TextFormat::JsonSchema { name, schema, strict } => ResponseFormat::JsonSchema {
            json_schema: JsonSchemaDef { name: name.clone(), schema: schema.clone(), strict: *strict },
        },
    }
}

// ===========================================================================
// 2. Chat response to Responses response
// ===========================================================================

/// An assistant message item with one output text.
pub open spec fn text_item(id: Seq<char>, text: Seq<char>) -> ResponsesOutputItemModel {
    ResponsesOutputItemModel::Message {
        id,
        role: Some("assistant"@),
        content: seq![ResponsesContentPartModel::OutputText { text }],
        status: Some("completed"@),
    }
}

/// Function-call items of tool calls (the call id doubles as item id).
pub open spec fn call_items(tcs: Seq<ToolCallModel>) -> Seq<ResponsesOutputItemModel> {
    tcs.map_values(
        |tc: ToolCallModel|
            ResponsesOutputItemModel::FunctionCall {
                id: tc.id,
                call_id: tc.id,
                name: tc.function.name,
                arguments: tc.function.arguments,
                status: Some("completed"@),
            },
    )
}

/// Whether a message gives a message item: a non-empty refusal does, and
/// without a refusal non-empty text or the absence of tool calls does.
pub open spec fn gives_message_item(m: ChatMessageModel) -> bool {
    match m.refusal {
        Some(rf) => rf.len() > 0,
        None => chat_content_text(m.content).len() > 0 || m.tool_calls is None,
    }
}

/// The output items of a message, its message item (if any) numbered `n`.
pub open spec fn message_items(m: ChatMessageModel, n: nat) -> Seq<ResponsesOutputItemModel> {
    let head = if gives_message_item(m) {
        seq![
            text_item(
                gen_id_spec("msg"@, n),
                match m.refusal {
                    Some(rf) => rf,
                    None => chat_content_text(m.content),
                },
            ),
        ]
    } else {
        seq![]
    };
    head + match m.tool_calls {
        Some(tcs) => call_items(tcs),
        None => seq![],
    }
}

/// How many message items the choices give.
pub open spec fn message_count(cs: Seq<ChatChoiceModel>) -> nat
    decreases cs.len(),
{
    if cs.len() == 0 {
        0
    } else {
        message_count(cs.drop_last()) + match cs.last().message {
            Some(m) => if gives_message_item(m) {
                1nat
            } else {
                0nat
            },
            None => 0nat,
        }
    }
}

/// The output items of the choices, message items numbered from `n`.
pub open spec fn choices_output(cs: Seq<ChatChoiceModel>, n: nat) -> Seq<ResponsesOutputItemModel>
    decreases cs.len(),
{
    if cs.len() == 0 {
        seq![]
    } else {
        choices_output(cs.drop_last(), n) + match cs.last().message {
            Some(m) => message_items(m, n + message_count(cs.drop_last())),
            None => seq![],
        }
    }
}

/// Whether some choice stopped at the token limit.
pub open spec fn any_length(cs: Seq<ChatChoiceModel>) -> bool {
    exists|i: int| 0 <= i < cs.len() && (#[trigger] cs[i]).finish_reason == Some("length"@)
}

/// The Responses usage of a Chat usage.
pub open spec fn responses_usage_of(u: ChatUsageModel) -> ResponsesUsageModel {
    ResponsesUsageModel {
        input_tokens: u.prompt_tokens,
        output_tokens: u.completion_tokens,
        total_tokens: u.total_tokens,
        input_tokens_details: match u.prompt_tokens_details {
            Some(d) => match d.cached_tokens {
                Some(ct) => Some(InputTokensDetailsModel { cached_tokens: Some(ct) }),
                None => None,
            },
            None => None,
        },
        output_tokens_details: match u.completion_tokens_details {
            Some(d) => match d.reasoning_tokens {
                Some(rt) => Some(OutputTokensDetailsModel { reasoning_tokens: Some(rt) }),
                None => None,
            },
            None => None,
        },
    }
}

/// The `incomplete_details` of a response cut short by the token limit.
pub open spec fn length_details() -> Seq<char> {
    "{\"reason\":\"max_output_tokens\"}"@
}

/// The Responses response of a Chat response, message items numbered from
/// `first_id`.
pub open spec fn responses_response_spec(chat: ChatCompletionsResponseModel, model: Seq<char>, first_id: nat) -> ResponsesResponseModel {
    let incomplete = any_length(chat.choices);
    ResponsesResponseModel {
        id: chat.id,
        object: "response"@,
        output: choices_output(chat.choices, first_id),
        status: Some(
            if incomplete {
                "incomplete"@
            } else {
                "completed"@
            },
        ),
        usage: match chat.usage {
            Some(u) => Some(responses_usage_of(u)),
            None => None,
        },
        model: Some(model),
        incomplete_details: if incomplete {
            Some(length_details())
        } else {
            None
        },
        error: None,
        created_at: Some(chat.created as i64),
        completed_at: None,
    }
}

/// Models of output items.
pub open spec fn items_model(v: Seq<ResponsesOutputItem>) -> Seq<ResponsesOutputItemModel> {
    v.map_values(|o: ResponsesOutputItem| o@)
}

proof fn lemma_message_count_le(cs: Seq<ChatChoiceModel>)
    ensures
        message_count(cs) <= cs.len(),
    decreases cs.len(),
{
    if cs.len() > 0 {
        lemma_message_count_le(cs.drop_last());
    }
}

/// How many message-item identifiers a Chat response needs.
pub fn message_ids_needed(chat: &ChatCompletionsResponse) -> (r: u64)
    ensures
        r == message_count(chat@.choices),
{
    let ghost cs = chat@.choices;
    let mut n: u64 = 0;
    let mut i: usize = 0;
    while i < chat.choices.len()
        invariant
            i <= chat.choices.len(),
            cs == chat@.choices,
            n == message_count(cs.take(i as int)),
        decreases chat.choices.len() - i,
    {
        proof {
            assert(cs.take(i + 1).drop_last() =~= cs.take(i as int));
            assert(cs.take(i + 1).last() == chat.choices@[i as int]@);
            lemma_message_count_le(cs.take(i as int));
        }
        if let Some(m) = &chat.choices[i].message {
            if gives_item(m) {
                n = n + 1;
            }
        }
        i += 1;
    }
    assert(cs.take(chat.choices.len() as int) =~= cs);
    n
}

fn gives_item(m: &ChatMessage) -> (r: bool)
    ensures
        r == gives_message_item(m@),
{
    match &m.refusal {
        Some(rf) => rf.unicode_len() > 0,
        None => chat_content_to_string(&m.content).unicode_len() > 0 || m.tool_calls.is_none(),
    }
}

fn push_message_items(output: &mut Vec<ResponsesOutputItem>, m: &ChatMessage, n: u64)
    ensures
        items_model(final(output)@) == items_model(old(output)@) + message_items(m@, n as nat),
{
    let ghost o0 = items_model(output@);
    if gives_item(m) {
        let text = match &m.refusal {
            Some(rf) => rf.clone(),
            None => chat_content_to_string(&m.content),
        };
        let mut content: Vec<ResponsesContentPart> = Vec::new();
        content.push(ResponsesContentPart::OutputText { text });
        assert(parts_model(content@) =~= seq![ResponsesContentPartModel::OutputText { text: text@ }]);
        let item = ResponsesOutputItem::Message {
            id: gen_id("msg", n),
            role: Some(owned("assistant")),
            content,
            status: Some(owned("completed")),
        };
        output.push(item);
    }
    let ghost o1 = items_model(output@);
    assert(o1 =~= o0 + if gives_message_item(m@) {
        seq![text_item(gen_id_spec("msg"@, n as nat), match m@.refusal { Some(rf) => rf, None => chat_content_text(m@.content) })]
    } else {
        Seq::<ResponsesOutputItemModel>::empty()
    });
    if let Some(tcs) = &m.tool_calls {
        let ghost t = tcs@.map_values(|tc: ToolCall| tc@);
        let mut i: usize = 0;
        while i < tcs.len()
            invariant
                i <= tcs.len(),
                t == tcs@.map_values(|tc: ToolCall| tc@),
                items_model(output@) == o1 + call_items(t.take(i as int)),
            decreases tcs.len() - i,
        {
            let tc = &tcs[i];
            let ghost prev = output@;
            output.push(
                ResponsesOutputItem::FunctionCall {
                    id: tc.id.clone(),
                    call_id: tc.id.clone(),
                    name: tc.function.name.clone(),
                    arguments: tc.function.arguments.clone(),
                    status: Some(owned("completed")),
                },
            );
            proof {
                assert(t.take(i + 1) =~= t.take(i as int).push(t[i as int]));
                assert(items_model(output@) =~= items_model(prev).push(items_model(output@).last()));
                assert(call_items(t.take(i + 1)) =~= call_items(t.take(i as int)).push(call_items(t.take(i + 1)).last()));
            }
            i += 1;
        }
        assert(t.take(tcs.len() as int) =~= t);
    } else {
        assert(o1 + seq![] =~= o1);
    }
}

fn responses_usage(u: &ChatUsage) -> (r: ResponsesUsage)
    ensures
        r@ == responses_usage_of(u@),
{
    ResponsesUsage {
        input_tokens: u.prompt_tokens,
        output_tokens: u.completion_tokens,
        total_tokens: u.total_tokens,
        input_tokens_details: match &u.prompt_tokens_details {
            Some(d) => match d.cached_tokens {
                Some(ct) => Some(InputTokensDetails { cached_tokens: Some(ct) }),
                None => None,
            },
            None => None,
        },
        output_tokens_details: match &u.completion_tokens_details {
            Some(d) => match d.reasoning_tokens {
                Some(rt) => Some(OutputTokensDetails { reasoning_tokens: Some(rt) }),
                None => None,
            },
            None => None,
        },
    }
}

/// Convert a Chat response from DeepSeek into a Responses response (see
/// [`responses_response_spec`]); message items are numbered from
/// `first_id` on.
pub fn convert_chat_to_responses_response(chat: &ChatCompletionsResponse, model: &str, first_id: u64) -> (r: ResponsesResponse)
    requires
        first_id + chat@.choices.len() <= u64::MAX,
    ensures
        r@ == responses_response_spec(chat@, model@, first_id as nat),
{
    let ghost cs = chat@.choices;
    let mut output: Vec<ResponsesOutputItem> = Vec::new();
    let mut incomplete = false;
    let mut n: u64 = first_id;
    let mut i: usize = 0;
    while i < chat.choices.len()
        invariant
            i <= chat.choices.len(),
            cs == chat@.choices,
            first_id + cs.len() <= u64::MAX,
            n == first_id + message_count(cs.take(i as int)),
            message_count(cs.take(i as int)) <= i,
            items_model(output@) == choices_output(cs.take(i as int), first_id as nat),
            incomplete == any_length(cs.take(i as int)),
        decreases chat.choices.len() - i,
    {
        let ch = &chat.choices[i];
        proof {
            assert(cs.take(i + 1).drop_last() =~= cs.take(i as int));
            assert(cs.take(i + 1).last() == ch@);
            lemma_message_count_le(cs.take(i as int));
        }
        if let Some(f) = &ch.finish_reason {
            if str_eq(f.as_str(), "length") {
                incomplete = true;
            }
        }
        if let Some(m) = &ch.message {
            push_message_items(&mut output, m, n);
            if gives_item(m) {
                n = n + 1;
            }
        }
        proof {
            let q = cs.take(i + 1);
            if ch@.finish_reason == Some("length"@) {
                assert(q[i as int] == ch@);
            }
            if any_length(q) {
                let j = choose|j: int| 0 <= j < q.len() && (#[trigger] q[j]).finish_reason == Some("length"@);
                if j < i {
                    assert(cs.take(i as int)[j] == q[j]);
                }
            }
            if any_length(cs.take(i as int)) {
                let j = choose|j: int| 0 <= j < i && (#[trigger] cs.take(i as int)[j]).finish_reason == Some("length"@);
                assert(q[j] == cs.take(i as int)[j]);
            }
        }
        i += 1;
    }
    assert(cs.take(chat.choices.len() as int) =~= cs);
    let usage = match &chat.usage {
        Some(u) => Some(responses_usage(u)),
        None => None,
    };
    ResponsesResponse {
        id: chat.id.clone(),
        object: owned("response"),
        output,
        status: Some(
            if incomplete {
                owned("incomplete")
            } else {
                owned("completed")
            },
        ),
        usage,
        model: Some(owned(model)),
        incomplete_details: if incomplete {
            Some(owned("{\"reason\":\"max_output_tokens\"}"))
        } else {
            None
        },
        error: None,
        created_at: Some(#[verifier::truncate] (chat.created as i64)),
        completed_at: None,
    }
}

// ===========================================================================
// 3. Chat request to Responses request
// ===========================================================================

/// Whether a role carries instructions.
pub open spec fn is_instruction_role(role: Seq<char>) -> bool {
    role == "system"@ || role == "developer"@
}

/// The input items of a Chat message: system and developer messages give
/// none (they are instructions); an assistant message with tool calls gives
/// its text (if any) and one function call per tool call; a tool message
/// with a call id gives a function-call output.
pub open spec fn input_items_of(m: ChatMessageModel) -> Seq<ResponsesInputItemModel> {
    if is_instruction_role(m.role) {
        seq![]
    } else if m.role == "user"@ {
        seq![ResponsesInputItemModel::Message { role: "user"@, content: input_parts_of(m.content), id: None, name: m.name }]
    } else if m.role == "assistant"@ {
        match m.tool_calls {
            Some(tcs) => {
                let text = chat_content_text(m.content);
                (if text.len() > 0 {
                    seq![
                        ResponsesInputItemModel::Message {
                            role: "assistant"@,
                            content: Some(seq![ResponsesContentPartModel::OutputText { text }]),
                            id: None,
                            name: None,
                        },
                    ]
                } else {
                    seq![]
                }) + tcs.map_values(|tc: ToolCallModel| function_call_input(tc))
            },
            None => seq![
                ResponsesInputItemModel::Message {
                    role: "assistant"@,
                    content: input_parts_of(m.content),
                    id: None,
                    name: m.name,
                },
            ],
        }
    } else if m.role == "tool"@ {
        match m.tool_call_id {
            Some(cid) => seq![
                ResponsesInputItemModel::FunctionCallOutput {
                    call_id: cid,
                    output: chat_content_text(m.content),
                    id: None,
                    status: None,
                },
            ],
            None => seq![],
        }
    } else {
        seq![ResponsesInputItemModel::Message { role: m.role, content: input_parts_of(m.content), id: None, name: m.name }]
    }
}

/// The function-call input item of a tool call.
pub open spec fn function_call_input(tc: ToolCallModel) -> ResponsesInputItemModel {
    ResponsesInputItemModel::FunctionCall {
        call_id: tc.id,
        name: tc.function.name,
        arguments: tc.function.arguments,
        id: None,
        status: Some("completed"@),
    }
}

/// The input items of Chat messages, in order.
pub open spec fn input_items_of_all(ms: Seq<ChatMessageModel>) -> Seq<ResponsesInputItemModel>
    decreases ms.len(),
{
    if ms.len() == 0 {
        seq![]
    } else {
        input_items_of_all(ms.drop_last()) + input_items_of(ms.last())
    }
}

/// The instructions: the text of the last system or developer message with
/// non-empty text.
pub open spec fn instructions_of(ms: Seq<ChatMessageModel>) -> Option<Seq<char>>
    decreases ms.len(),
{
    if ms.len() == 0 {
        None
    } else if is_instruction_role(ms.last().role) && chat_content_text(ms.last().content).len() > 0 {
        Some(chat_content_text(ms.last().content))
    } else {
        instructions_of(ms.drop_last())
    }
}

/// The Responses text format of a Chat response format.
pub open spec fn text_format_of(f: ResponseFormatModel) -> TextFormatModel {
    match f {
        ResponseFormatModel::Text => TextFormatModel::Text,
        ResponseFormatModel::JsonObject => TextFormatModel::JsonObject,
        ResponseFormatModel::JsonSchema { json_schema } => TextFormatModel::JsonSchema {
            name: json_schema.name,
            schema: json_schema.schema,
            strict: json_schema.strict,
        },
    }
}

/// The Responses tool of a Chat tool.
pub open spec fn responses_tool_of(t: ChatToolModel) -> ResponsesToolModel {
    ResponsesToolModel {
        tool_type: "function"@,
        function: Some(
            FunctionDefinitionModel {
                name: t.function.name,
                description: t.function.description,
                parameters: t.function.parameters,
            },
        ),
        name: None,
        description: None,
        parameters: None,
        strict: None,
    }
}

/// The Responses request of a Chat request.
pub open spec fn responses_request_spec(chat: ChatCompletionsRequestModel) -> ResponsesRequestModel {
    ResponsesRequestModel {
        model: chat.model,
        input: Some(input_items_of_all(chat.messages)),
        instructions: instructions_of(chat.messages),
        stream: chat.stream,
        max_output_tokens: if chat.max_completion_tokens is Some {
            chat.max_completion_tokens
        } else {
            chat.max_tokens
        },
        temperature: chat.temperature,
        top_p: chat.top_p,
        tools: match chat.tools {
            Some(ts) => Some(ts.map_values(|t: ChatToolModel| responses_tool_of(t))),
            None => None,
        },
        tool_choice: chat.tool_choice,
        reasoning: match chat.reasoning_effort {
            Some(e) => Some(ReasoningConfigModel { effort: Some(e), summary: None }),
            None => None,
        },
        text: match chat.response_format {
            Some(rf) => Some(TextConfigModel { format: Some(text_format_of(rf)) }),
            None => None,
        },
        truncation: None,
        store: chat.store,
        metadata: chat.metadata,
        previous_response_id: None,
        session_id: None,
        user: chat.user,
        service_tier: chat.service_tier,
        parallel_tool_calls: chat.parallel_tool_calls,
        top_logprobs: chat.top_logprobs,
        frequency_penalty: chat.frequency_penalty,
        presence_penalty: chat.presence_penalty,
    }
}

/// Models of input items.
pub open spec fn inputs_model(v: Seq<ResponsesInputItem>) -> Seq<ResponsesInputItemModel> {
    v.map_values(|x: ResponsesInputItem| x@)
}

fn push_input(v: &mut Vec<ResponsesInputItem>, x: ResponsesInputItem)
    ensures
        inputs_model(final(v)@) == inputs_model(old(v)@).push(x@),
{
    v.push(x);
    assert(inputs_model(v@) =~= inputs_model(old(v)@).push(x@));
}

fn push_input_items(input: &mut Vec<ResponsesInputItem>, m: &ChatMessage)
    ensures
        inputs_model(final(input)@) == inputs_model(old(input)@) + input_items_of(m@),
{
    let ghost i0 = inputs_model(input@);
    let role = m.role.as_str();
    if str_eq(role, "system") || str_eq(role, "developer") {
        assert(i0 + seq![] =~= i0);
    } else if str_eq(role, "user") {
        push_input(
            input,
            ResponsesInputItem::Message {
                role: owned("user"),
                content: chat_content_to_responses_content_parts(&m.content),
                id: None,
                name: m.name.clone(),
            },
        );
    } else if str_eq(role, "assistant") {
        match &m.tool_calls {
            Some(tcs) => {
                let text = chat_content_to_string(&m.content);
                if text.unicode_len() > 0 {
                    let mut content: Vec<ResponsesContentPart> = Vec::new();
                    content.push(ResponsesContentPart::OutputText { text });
                    assert(parts_model(content@) =~= seq![ResponsesContentPartModel::OutputText { text: text@ }]);
                    push_input(
                        input,
                        ResponsesInputItem::Message { role: owned("assistant"), content: Some(content), id: None, name: None },
                    );
                }
                let ghost i1 = inputs_model(input@);
                let ghost t = tcs@.map_values(|tc: ToolCall| tc@);
                let mut i: usize = 0;
                while i < tcs.len()
                    invariant
                        i <= tcs.len(),
                        t == tcs@.map_values(|tc: ToolCall| tc@),
                        inputs_model(input@) == i1 + t.take(i as int).map_values(|tc: ToolCallModel| function_call_input(tc)),
                    decreases tcs.len() - i,
                {
                    let tc = &tcs[i];
                    let x = ResponsesInputItem::FunctionCall {
                        call_id: tc.id.clone(),
                        name: tc.function.name.clone(),
                        arguments: tc.function.arguments.clone(),
                        id: None,
                        status: Some(owned("completed")),
                    };
                    let ghost before = inputs_model(input@);
                    push_input(input, x);
                    proof {
                        assert(t[i as int] == tc@);
                        assert(x@ == function_call_input(t[i as int]));
                        assert(inputs_model(input@) == before.push(x@));
                        assert(t.take(i + 1) =~= t.take(i as int).push(t[i as int]));
                        assert(t.take(i + 1).map_values(|tc: ToolCallModel| function_call_input(tc)) =~= t.take(i as int).map_values(|tc: ToolCallModel| function_call_input(tc)).push(function_call_input(t[i as int])));
                        assert(inputs_model(input@) =~= i1 + t.take(i + 1).map_values(|tc: ToolCallModel| function_call_input(tc)));
                    }
                    i += 1;
                }
                assert(t.take(tcs.len() as int) =~= t);
                assert(inputs_model(input@) =~= i0 + input_items_of(m@));
            },
            None => {
                push_input(
                    input,
                    ResponsesInputItem::Message {
                        role: owned("assistant"),
                        content: chat_content_to_responses_content_parts(&m.content),
                        id: None,
                        name: m.name.clone(),
                    },
                );
            },
        }
    } else if str_eq(role, "tool") {
        match &m.tool_call_id {
            Some(cid) => {
                push_input(
                    input,
                    ResponsesInputItem::FunctionCallOutput {
                        call_id: cid.clone(),
                        output: chat_content_to_string(&m.content),
                        id: None,
                        status: None,
                    },
                );
            },
            None => {
                assert(i0 + seq![] =~= i0);
            },
        }
    } else {
        push_input(
            input,
            ResponsesInputItem::Message {
                role: m.role.clone(),
                content: chat_content_to_responses_content_parts(&m.content),
                id: None,
                name: m.name.clone(),
            },
        );
    }
    assert(inputs_model(input@) =~= i0 + input_items_of(m@));
}

/// Convert a Chat request into a Responses request (see
/// [`responses_request_spec`]).
pub fn convert_chat_to_responses(chat: &ChatCompletionsRequest) -> (r: ResponsesRequest)
    ensures
        r@ == responses_request_spec(chat@),
{
    let ghost ms = messages_model(chat.messages@);
    let mut input: Vec<ResponsesInputItem> = Vec::new();
    let mut instructions: Option<String> = None;
    let mut i: usize = 0;
    while i < chat.messages.len()
        invariant
            i <= chat.messages.len(),
            ms == messages_model(chat.messages@),
            inputs_model(input@) == input_items_of_all(ms.take(i as int)),
            opt_seq(instructions) == instructions_of(ms.take(i as int)),
        decreases chat.messages.len() - i,
    {
        let m = &chat.messages[i];
        proof {
            assert(ms.take(i + 1).drop_last() =~= ms.take(i as int));
            assert(ms.take(i + 1).last() == m@);
        }
        let role = m.role.as_str();
        if str_eq(role, "system") || str_eq(role, "developer") {
            let text = chat_content_to_string(&m.content);
            if text.unicode_len() > 0 {
                instructions = Some(text);
            }
        }
        push_input_items(&mut input, m);
        i += 1;
    }
    assert(ms.take(chat.messages.len() as int) =~= ms);
    let tools = match &chat.tools {
        Some(cts) => {
            let ghost t = cts@.map_values(|t: ChatTool| t@);
            let mut out: Vec<ResponsesTool> = Vec::new();
            let mut j: usize = 0;
            while j < cts.len()
                invariant
                    j <= cts.len(),
                    t == cts@.map_values(|t: ChatTool| t@),
                    out@.map_values(|x: ResponsesTool| x@) == t.take(j as int).map_values(
                        |x: ChatToolModel| responses_tool_of(x),
                    ),
                decreases cts.len() - j,
            {
                let ct = &cts[j];
                let ghost prev = out@;
                out.push(
                    ResponsesTool {
                        tool_type: owned("function"),
                        function: Some(
                            FunctionDefinition {
                                name: ct.function.name.clone(),
                                description: ct.function.description.clone(),
                                parameters: ct.function.parameters.clone(),
                            },
                        ),
                        name: None,
                        description: None,
                        parameters: None,
                        strict: None,
                    },
                );
                proof {
                    assert(out@.map_values(|x: ResponsesTool| x@) =~= prev.map_values(|x: ResponsesTool| x@).push(
                        responses_tool_of(t[j as int]),
                    ));
                    assert(t.take(j + 1) =~= t.take(j as int).push(t[j as int]));
                    assert(t.take(j + 1).map_values(|x: ChatToolModel| responses_tool_of(x)) =~= t.take(
                        j as int,
                    ).map_values(|x: ChatToolModel| responses_tool_of(x)).push(responses_tool_of(t[j as int])));
                }
                j += 1;
            }
            assert(t.take(cts.len() as int) =~= t);
            Some(out)
        },
        None => None,
    };
    let text = match &chat.response_format {
        Some(rf) => Some(TextConfig { format: Some(text_format(rf)) }),
        None => None,
    };
    let reasoning = match &chat.reasoning_effort {
        Some(e) => Some(ReasoningConfig { effort: Some(e.clone()), summary: None }),
        None => None,
    };
    ResponsesRequest {
        model: chat.model.clone(),
        input: Some(input),
        instructions: match instructions {
            Some(t) => Some(Instructions(t)),
            None => None,
        },
        stream: chat.stream,
        max_output_tokens: if chat.max_completion_tokens.is_some() {
            chat.max_completion_tokens
        } else {
            chat.max_tokens
        },
        temperature: chat.temperature.clone(),
        top_p: chat.top_p.clone(),
        tools,
        tool_choice: chat.tool_choice.clone(),
        reasoning,
        text,
        truncation: None,
        store: chat.store,
        metadata: chat.metadata.clone(),
        previous_response_id: None,
        session_id: None,
        user: chat.user.clone(),
        service_tier: chat.service_tier.clone(),
        parallel_tool_calls: chat.parallel_tool_calls,
        top_logprobs: chat.top_logprobs,
        frequency_penalty: chat.frequency_penalty.clone(),
        presence_penalty: chat.presence_penalty.clone(),
    }
}

/// The Responses text format of a Chat response format.
pub fn text_format(f: &ResponseFormat) -> (r: TextFormat)
    ensures
        r@ == text_format_of(f@),
{
    match f {
        ResponseFormat::Text => TextFormat::Text,
        ResponseFormat::JsonObject => TextFormat::JsonObject,
        ResponseFormat::JsonSchema { json_schema } => TextFormat::JsonSchema {
            name: json_schema.name.clone(),
            schema: json_schema.schema.clone(),
            strict: json_schema.strict,
        },
    }
}

// ===========================================================================
// 4. Responses response to Chat response
// ===========================================================================

/// The assistant text a part of an output message contributes: output and
/// plain text, and tool-result output.
pub open spec fn output_text_of(p: ResponsesContentPartModel) -> Option<Seq<char>> {
    match p {
        ResponsesContentPartModel::OutputText { text } => Some(text),
        ResponsesContentPartModel::Text { text } => Some(text),
        ResponsesContentPartModel::ToolResult { output, .. } => Some(output),
        _ => None,
    }
}

/// The assistant text of the parts, run together.
pub open spec fn output_text_all(parts: Seq<ResponsesContentPartModel>) -> Seq<char>
    decreases parts.len(),
{
    if parts.len() == 0 {
        seq![]
    } else {
        output_text_all(parts.drop_last()) + match output_text_of(parts.last()) {
            Some(t) => t,
            None => seq![],
        }
    }
}

/// The assistant text of the output items, run together.
pub open spec fn items_text(items: Seq<ResponsesOutputItemModel>) -> Seq<char>
    decreases items.len(),
{
    if items.len() == 0 {
        seq![]
    } else {
        items_text(items.drop_last()) + match items.last() {
            ResponsesOutputItemModel::Message { content, .. } => output_text_all(content),
            _ => seq![],
        }
    }
}

/// The tool calls of the output items (the item id is the call id).
pub open spec fn items_tool_calls(items: Seq<ResponsesOutputItemModel>) -> Seq<ToolCallModel>
    decreases items.len(),
{
    if items.len() == 0 {
        seq![]
    } else {
        let rest = items_tool_calls(items.drop_last());
        match items.last() {
            ResponsesOutputItemModel::FunctionCall { id, name, arguments, .. } => rest.push(
                ToolCallModel { id, tool_type: "function"@, function: FunctionCallModel { name, arguments }, index: None },
            ),
            _ => rest,
        }
    }
}

/// The reasoning text a reasoning item gives: its summary when it has one,
/// else its content; nothing when that text is empty.
pub open spec fn item_reasoning(item: ResponsesOutputItemModel) -> Option<Seq<char>> {
    match item {
        ResponsesOutputItemModel::Reasoning { content, summary, .. } => {
            let t = match summary {
                Some(sp) => crate::text::join_seqs(part_texts(sp), "\n"@),
                None => match content {
                    Some(cp) => crate::text::join_seqs(part_texts(cp), "\n"@),
                    None => seq![],
                },
            };
            if t.len() > 0 {
                Some(t)
            } else {
                None
            }
        },
        _ => None,
    }
}

/// The reasoning text of the last reasoning item that gives one.
pub open spec fn items_reasoning(items: Seq<ResponsesOutputItemModel>) -> Option<Seq<char>>
    decreases items.len(),
{
    if items.len() == 0 {
        None
    } else {
        match item_reasoning(items.last()) {
            Some(t) => Some(t),
            None => items_reasoning(items.drop_last()),
        }
    }
}

/// The Chat usage of a Responses usage.
pub open spec fn chat_usage_of(u: ResponsesUsageModel) -> ChatUsageModel {
    ChatUsageModel {
        prompt_tokens: u.input_tokens,
        completion_tokens: u.output_tokens,
        total_tokens: u.total_tokens,
        prompt_tokens_details: match u.input_tokens_details {
            Some(d) => match d.cached_tokens {
                Some(ct) => Some(PromptTokensDetailsModel { cached_tokens: Some(ct) }),
                None => None,
            },
            None => None,
        },
        completion_tokens_details: match u.output_tokens_details {
            Some(d) => match d.reasoning_tokens {
                Some(rt) => Some(CompletionTokensDetailsModel { reasoning_tokens: Some(rt) }),
                None => None,
            },
            None => None,
        },
    }
}

/// The Chat response of a Responses response: one assistant choice with
/// the text, tool calls and reasoning of the output; finish reason `length`
/// for an incomplete response, `tool_calls` when there are tool calls,
/// else `stop`.
pub open spec fn chat_response_spec(r: ResponsesResponseModel, model: Seq<char>) -> ChatCompletionsResponseModel {
    let text = items_text(r.output);
    let calls = items_tool_calls(r.output);
    let finish = if r.status == Some("incomplete"@) {
        "length"@
    } else if calls.len() > 0 {
        "tool_calls"@
    } else {
        "stop"@
    };
    let message = ChatMessageModel {
        role: "assistant"@,
        content: if text.len() == 0 && calls.len() == 0 {
            None
        } else {
            Some(ChatContentModel::String(text))
        },
        name: None,
        tool_calls: if calls.len() == 0 {
            None
        } else {
            Some(calls)
        },
        tool_call_id: None,
        refusal: None,
        reasoning_content: items_reasoning(r.output),
    };
    ChatCompletionsResponseModel {
        id: r.id,
        object: "chat.completion"@,
        created: (match r.created_at {
            Some(c) => c,
            None => 0,
        }) as u64,
        model,
        choices: seq![
            ChatChoiceModel { index: 0, message: Some(message), delta: None, finish_reason: Some(finish), logprobs: None },
        ],
        usage: match r.usage {
            Some(u) => Some(chat_usage_of(u)),
            None => None,
        },
        system_fingerprint: None,
    }
}

fn append_output_text(text: &mut String, parts: &Vec<ResponsesContentPart>)
    ensures
        final(text)@ == old(text)@ + output_text_all(parts_model(parts@)),
{
    let ghost ps = parts_model(parts@);
    let ghost t0 = text@;
    let mut i: usize = 0;
    while i < parts.len()
        invariant
            i <= parts.len(),
            ps == parts_model(parts@),
            text@ == t0 + output_text_all(ps.take(i as int)),
        decreases parts.len() - i,
    {
        proof {
            assert(ps.take(i + 1).drop_last() =~= ps.take(i as int));
            assert(ps.take(i + 1).last() == parts@[i as int]@);
        }
        match &parts[i] {
            ResponsesContentPart::OutputText { text: t } | ResponsesContentPart::Text { text: t } => {
                text.append(t.as_str());
            },
            ResponsesContentPart::ToolResult { output, .. } => {
                text.append(output.as_str());
            },
            _ => {},
        }
        assert(text@ =~= t0 + output_text_all(ps.take(i + 1)));
        i += 1;
    }
    assert(ps.take(parts.len() as int) =~= ps);
}

fn reasoning_of_item(content: &Option<Vec<ResponsesContentPart>>, summary: &Option<Vec<ResponsesContentPart>>) -> (r: Option<String>)
    ensures
        opt_seq(r) == item_reasoning(
            ResponsesOutputItemModel::Reasoning {
                id: seq![],
                content: match content {
                    Some(c) => Some(parts_model(c@)),
                    None => None,
                },
                summary: match summary {
                    Some(c) => Some(parts_model(c@)),
                    None => None,
                },
                status: None,
            },
        ),
{
    let t = match summary {
        Some(sp) => content_parts_to_text(sp.as_slice()),
        None => match content {
            Some(cp) => content_parts_to_text(cp.as_slice()),
            None => String::new(),
        },
    };
    if t.unicode_len() > 0 {
        Some(t)
    } else {
        None
    }
}

/// Convert a Responses response into a Chat response (see
/// [`chat_response_spec`]).
pub fn convert_responses_to_chat_response(responses: &ResponsesResponse, model: &str) -> (r: ChatCompletionsResponse)
    ensures
        r@ == chat_response_spec(responses@, model@),
{
    let ghost items = items_model(responses.output@);
    let mut text = String::new();
    let mut calls: Vec<ToolCall> = Vec::new();
    let mut reasoning: Option<String> = None;
    let mut i: usize = 0;
    while i < responses.output.len()
        invariant
            i <= responses.output.len(),
            items == items_model(responses.output@),
            text@ == items_text(items.take(i as int)),
            calls@.map_values(|t: ToolCall| t@) == items_tool_calls(items.take(i as int)),
            opt_seq(reasoning) == items_reasoning(items.take(i as int)),
        decreases responses.output.len() - i,
    {
        proof {
            assert(items.take(i + 1).drop_last() =~= items.take(i as int));
            assert(items.take(i + 1).last() == responses.output@[i as int]@);
        }
        match &responses.output[i] {
            ResponsesOutputItem::Message { content, .. } => {
                append_output_text(&mut text, content);
            },
            ResponsesOutputItem::FunctionCall { id, name, arguments, .. } => {
                calls.push(
                    ToolCall {
                        id: id.clone(),
                        tool_type: owned("function"),
                        function: FunctionCall { name: name.clone(), arguments: arguments.clone() },
                        index: None,
                    },
                );
            },
            ResponsesOutputItem::Reasoning { content, summary, .. } => {
                if let Some(t) = reasoning_of_item(content, summary) {
                    reasoning = Some(t);
                }
            },
        }
        assert(text@ =~= items_text(items.take(i + 1)));
        assert(calls@.map_values(|t: ToolCall| t@) =~= items_tool_calls(items.take(i + 1)));
        i += 1;
    }
    assert(items.take(responses.output.len() as int) =~= items);
    let incomplete = match &responses.status {
        Some(s) => str_eq(s.as_str(), "incomplete"),
        None => false,
    };
    let finish = if incomplete {
        owned("length")
    } else if calls.len() > 0 {
        owned("tool_calls")
    } else {
        owned("stop")
    };
    let no_text = text.unicode_len() == 0;
    let no_calls = calls.len() == 0;
    let message = ChatMessage {
        role: owned("assistant"),
        content: if no_text && no_calls {
            None
        } else {
            Some(ChatContent::String(text))
        },
        name: None,
        tool_calls: if no_calls {
            None
        } else {
            Some(calls)
        },
        tool_call_id: None,
        refusal: None,
        reasoning_content: reasoning,
    };
    let usage = match &responses.usage {
        Some(u) => Some(chat_usage(u)),
        None => None,
    };
    let created = match responses.created_at {
        Some(c) => c,
        None => 0,
    };
    let choice = ChatChoice { index: 0, message: Some(message), delta: None, finish_reason: Some(finish), logprobs: None };
    let mut choices: Vec<ChatChoice> = Vec::new();
    choices.push(choice);
    assert(choices@.map_values(|c: ChatChoice| c@) =~= seq![choice@]);
    ChatCompletionsResponse {
        id: responses.id.clone(),
        object: owned("chat.completion"),
        created: #[verifier::truncate] (created as u64),
        model: owned(model),
        choices,
        usage,
        system_fingerprint: None,
    }
}

fn chat_usage(u: &ResponsesUsage) -> (r: ChatUsage)
    ensures
        r@ == chat_usage_of(u@),
{
    ChatUsage {
        prompt_tokens: u.input_tokens,
        completion_tokens: u.output_tokens,
        total_tokens: u.total_tokens,
        prompt_tokens_details: match &u.input_tokens_details {
            Some(d) => match d.cached_tokens {
                Some(ct) => Some(PromptTokensDetails { cached_tokens: Some(ct) }),
                None => None,
            },
            None => None,
        },
        completion_tokens_details: match &u.output_tokens_details {
            Some(d) => match d.reasoning_tokens {
                Some(rt) => Some(CompletionTokensDetails { reasoning_tokens: Some(rt) }),
                None => None,
            },
            None => None,
        },
    }
}

// ===========================================================================
// The round trip Responses -> Chat -> Responses
// ===========================================================================

/// Input items that survive the round trip through a Chat request: a user
/// message of one non-empty input text, a function call, or a function
/// call's output.
pub open spec fn round_trippable(item: ResponsesInputItemModel) -> bool {
    match item {
        ResponsesInputItemModel::Message { role, content, .. } => role == "user"@ && match content {
            Some(ps) => ps.len() == 1 && (ps[0] matches ResponsesContentPartModel::InputText { text } && text.len()
                > 0),
            None => false,
        },
        _ => true,
    }
}

/// Whether two input items are of the same kind and agree in role and
/// content, or in call id, name and arguments, or in call id and output.
pub open spec fn same_input(a: ResponsesInputItemModel, b: ResponsesInputItemModel) -> bool {
    match (a, b) {
        (
            ResponsesInputItemModel::Message { role: r1, content: c1, .. },
            ResponsesInputItemModel::Message { role: r2, content: c2, .. },
        ) => r1 == r2 && c1 == c2,
        (
            ResponsesInputItemModel::FunctionCall { call_id: i1, name: n1, arguments: a1, .. },
            ResponsesInputItemModel::FunctionCall { call_id: i2, name: n2, arguments: a2, .. },
        ) => i1 == i2 && n1 == n2 && a1 == a2,
        (
            ResponsesInputItemModel::FunctionCallOutput { call_id: i1, output: o1, .. },
            ResponsesInputItemModel::FunctionCallOutput { call_id: i2, output: o2, .. },
        ) => i1 == i2 && o1 == o2,
        _ => false,
    }
}

proof fn lemma_role_names()
    ensures
        "user"@ != "developer"@,
        "user"@ != "system"@,
        "assistant"@ != "developer"@,
        "assistant"@ != "system"@,
        "assistant"@ != "user"@,
        "tool"@ != "developer"@,
        "tool"@ != "system"@,
        "tool"@ != "user"@,
        "tool"@ != "assistant"@,
        is_instruction_role("system"@),
{
    reveal_strlit("user");
    reveal_strlit("developer");
    reveal_strlit("system");
    reveal_strlit("assistant");
    reveal_strlit("tool");
    assert("user"@.len() != "developer"@.len());
    assert("user"@.len() != "system"@.len());
    assert("assistant"@[0] != "developer"@[0]);
    assert("assistant"@.len() != "system"@.len());
    assert("assistant"@.len() != "user"@.len());
    assert("tool"@.len() != "developer"@.len());
    assert("tool"@.len() != "system"@.len());
    assert("tool"@[0] != "user"@[0]);
    assert("tool"@.len() != "assistant"@.len());
}

proof fn lemma_item_round_trip(item: ResponsesInputItemModel)
    requires
        round_trippable(item),
    ensures
        !is_instruction_role(deepseek_message_of(item).role),
        input_items_of(deepseek_message_of(item)).len() == 1,
        same_input(item, input_items_of(deepseek_message_of(item))[0]),
{
    lemma_role_names();
    match item {
        ResponsesInputItemModel::Message { role, content, .. } => {
            let ps = content.unwrap();
            let t = ps[0]->InputText_text;
            assert(ps.drop_last() =~= Seq::<ResponsesContentPartModel>::empty());
            assert(text_parts(ps.drop_last()) =~= Seq::<Seq<char>>::empty());
            assert(text_parts(ps) =~= seq![t]);
            assert(!has_media(ps));
            assert(seq![ResponsesContentPartModel::InputText { text: t }] =~= ps);
        },
        ResponsesInputItemModel::FunctionCall { call_id, name, arguments, .. } => {
            let m = deepseek_message_of(item);
            let tcs = m.tool_calls.unwrap();
            assert(input_items_of(m) =~= seq![function_call_input(tcs[0])]);
        },
        ResponsesInputItemModel::FunctionCallOutput { .. } => {},
    }
}

proof fn lemma_items_round_trip(sys: ChatMessageModel, ms: Seq<ChatMessageModel>, items: Seq<ResponsesInputItemModel>, k: int)
    requires
        is_instruction_role(sys.role),
        0 <= k <= ms.len(),
        ms.len() == items.len(),
        forall|i: int| 0 <= i < ms.len() ==> ms[i] == deepseek_message_of(#[trigger] items[i]),
        forall|i: int| 0 <= i < items.len() ==> round_trippable(#[trigger] items[i]),
    ensures
        input_items_of_all(seq![sys] + ms.take(k)).len() == k,
        forall|i: int| 0 <= i < k ==> same_input(items[i], #[trigger] input_items_of_all(seq![sys] + ms.take(k))[i]),
    decreases k,
{
    let xs = seq![sys] + ms.take(k);
    if k == 0 {
        assert(xs.drop_last() =~= Seq::<ChatMessageModel>::empty());
        assert(input_items_of_all(xs.drop_last()) =~= Seq::<ResponsesInputItemModel>::empty());
        assert(xs.last() == sys);
        assert(input_items_of(sys) =~= Seq::<ResponsesInputItemModel>::empty());
        assert(input_items_of_all(xs) =~= Seq::<ResponsesInputItemModel>::empty());
    } else {
        lemma_items_round_trip(sys, ms, items, k - 1);
        assert(xs.drop_last() =~= seq![sys] + ms.take(k - 1));
        assert(xs.last() == ms[k - 1]);
        lemma_item_round_trip(items[k - 1]);
        let prev = input_items_of_all(seq![sys] + ms.take(k - 1));
        let cur = input_items_of_all(xs);
        assert(cur == prev + input_items_of(ms[k - 1]));
        assert forall|i: int| 0 <= i < k implies same_input(items[i], #[trigger] cur[i]) by {
            if i < k - 1 {
                assert(cur[i] == prev[i]);
            } else {
                assert(cur[i] == input_items_of(ms[k - 1])[0]);
            }
        }
    }
}

proof fn lemma_instructions_round_trip(sys: ChatMessageModel, ms: Seq<ChatMessageModel>, k: int)
    requires
        is_instruction_role(sys.role),
        chat_content_text(sys.content).len() > 0,
        0 <= k <= ms.len(),
        forall|i: int| 0 <= i < ms.len() ==> !is_instruction_role(#[trigger] ms[i].role),
    ensures
        instructions_of(seq![sys] + ms.take(k)) == Some(chat_content_text(sys.content)),
    decreases k,
{
    let xs = seq![sys] + ms.take(k);
    if k == 0 {
        assert(xs =~= seq![sys]);
    } else {
        lemma_instructions_round_trip(sys, ms, k - 1);
        assert(xs.drop_last() =~= seq![sys] + ms.take(k - 1));
        assert(xs.last() == ms[k - 1]);
    }
}

/// A Responses request with non-empty instructions whose input items are
/// user messages of one non-empty text, function calls and function-call
/// outputs survives the trip through a DeepSeek Chat request and back: the
/// instructions, model, stream flag and output-token limit are kept, and
/// so is every input item, in order, with its role and content, or its call
/// id, name and arguments, or its call id and output.
pub proof fn law_request_round_trip(r: ResponsesRequestModel)
    requires
        r.instructions matches Some(s) && s.len() > 0,
        r.input matches Some(items) && (forall|i: int| 0 <= i < items.len() ==> round_trippable(#[trigger] items[i])),
    ensures
        ({
            let r2 = responses_request_spec(deepseek_request_spec(r, None));
            let items = r.input.unwrap();
            &&& r2.instructions == r.instructions
            &&& r2.model == r.model
            &&& r2.stream == r.stream
            &&& r2.max_output_tokens == r.max_output_tokens
            &&& r2.input matches Some(items2) && items2.len() == items.len() && (forall|i: int|
                0 <= i < items.len() ==> same_input(items[i], #[trigger] items2[i]))
        }),
{
    lemma_role_names();
    let s = r.instructions.unwrap();
    let items = r.input.unwrap();
    let sys = plain_message("system"@, Some(ChatContentModel::String(s)));
    let ms = items.map_values(|x: ResponsesInputItemModel| deepseek_message_of(x));
    let chat = deepseek_request_spec(r, None);
    assert(instruction_messages(r.instructions) == seq![sys]);
    assert(chat.messages == seq![sys] + ms);
    assert forall|i: int| 0 <= i < ms.len() implies !is_instruction_role(#[trigger] ms[i].role) by {
        lemma_item_round_trip(items[i]);
    }
    lemma_instructions_round_trip(sys, ms, ms.len() as int);
    lemma_items_round_trip(sys, ms, items, ms.len() as int);
    assert(ms.take(ms.len() as int) =~= ms);
}

} // verus!
