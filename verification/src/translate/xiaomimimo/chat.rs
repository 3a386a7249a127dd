//! Xiaomi MiMo: Responses requests as Chat Completions requests.
//!
//! MiMo gets plain-text message content, fixed sampling parameters, thinking
//! switched off, and the previous turn's reasoning on the last assistant
//! message that calls tools.

use vstd::prelude::*;
use crate::text::{join, join_seqs, owned, str_eq, string_seqs};
use crate::json::opt_seq;
use crate::types::chat::{
    ChatCompletionsRequest, ChatCompletionsRequestModel, ChatContent, ChatContentModel,
    ChatFunction, ChatFunctionModel, ChatMessage, ChatMessageModel, ChatTool, ChatToolModel,
    FunctionCall, FunctionCallModel, ThinkingConfig, ThinkingConfigModel, ToolCall, ToolCallModel,
};
use crate::types::responses::{
    parts_model, tool_function, ResponsesContentPart, ResponsesContentPartModel,
    ResponsesInputItem, ResponsesInputItemModel, ResponsesRequest, ResponsesRequestModel,
    ResponsesTool, ResponsesToolModel,
};
use crate::translate::deepseek::chat::{
    instruction_messages, messages_model, plain_message, text_parts,
};

verus! {

broadcast use vstd::seq_lib::group_seq_properties;

// ===========================================================================
// Specification
// ===========================================================================

/// The plain text of optional message content: the texts of its text parts,
/// one per line (empty when there is no content).
pub open spec fn plain_text_of(content: Option<Seq<ResponsesContentPartModel>>) -> Seq<char> {
    match content {
        Some(parts) => join_seqs(text_parts(parts), "\n"@),
        None => seq![],
    }
}

/// The MiMo Chat message of a Responses input item.
pub open spec fn mimo_message_of(item: ResponsesInputItemModel) -> ChatMessageModel {
    match item {
        ResponsesInputItemModel::Message { role, content, .. } => plain_message(
            if role == "developer"@ {
                "system"@
            } else {
                role
            },
            Some(ChatContentModel::String(plain_text_of(content))),
        ),
        ResponsesInputItemModel::FunctionCall { call_id, name, arguments, .. } => ChatMessageModel {
            tool_calls: Some(
                seq![
                    ToolCallModel {
                        id: call_id,
                        tool_type: "function"@,
                        function: FunctionCallModel { name, arguments },
                        index: None,
                    },
                ],
            ),
            ..plain_message("assistant"@, None)
        },
        ResponsesInputItemModel::FunctionCallOutput { call_id, output, .. } => ChatMessageModel {
            tool_call_id: Some(call_id),
            ..plain_message("tool"@, Some(ChatContentModel::String(output)))
        },
    }
}

/// Whether a message is an assistant message that calls tools.
pub open spec fn is_assistant_call(m: ChatMessageModel) -> bool {
    m.role == "assistant"@ && m.tool_calls is Some
}

/// Index of the last assistant message that calls tools.
pub open spec fn last_assistant_call(ms: Seq<ChatMessageModel>) -> Option<int>
    decreases ms.len(),
{
    if ms.len() == 0 {
        None
    } else if is_assistant_call(ms.last()) {
        Some(ms.len() - 1)
    } else {
        last_assistant_call(ms.drop_last())
    }
}

/// Messages with the previous turn's reasoning put on the last assistant
/// message that calls tools (unchanged when there is none).
pub open spec fn with_call_reasoning(ms: Seq<ChatMessageModel>, reasoning: Option<Seq<char>>) -> Seq<ChatMessageModel> {
    match reasoning {
        Some(r) => match last_assistant_call(ms) {
            Some(j) => ms.update(j, ChatMessageModel { reasoning_content: Some(r), ..ms[j] }),
            None => ms,
        },
        None => ms,
    }
}

/// The schema a tool without parameters is given: an empty object schema.
pub open spec fn default_parameters() -> Seq<char> {
    "{\"type\":\"object\"}"@
}

/// The MiMo Chat tools of Responses tools that describe a function; a
/// function without parameters gets [`default_parameters`].
pub open spec fn mimo_tools_of(ts: Seq<ResponsesToolModel>) -> Seq<ChatToolModel>
    decreases ts.len(),
{
    if ts.len() == 0 {
        seq![]
    } else {
        let rest = mimo_tools_of(ts.drop_last());
        match tool_function(ts.last()) {
            Some(f) => rest.push(
                ChatToolModel {
                    tool_type: "function"@,
                    function: ChatFunctionModel {
                        name: f.name,
                        description: f.description,
                        parameters: Some(
                            match f.parameters {
                                Some(p) => p,
                                None => default_parameters(),
                            },
                        ),
                    },
                },
            ),
            None => rest,
        }
    }
}

/// The MiMo Chat request of a Responses request: temperature 1.0, `top_p`
/// 0.95 unless given, one choice, no penalties, `tool_choice` `"auto"` and
/// thinking disabled.
pub open spec fn mimo_request_spec(r: ResponsesRequestModel, previous_reasoning: Option<Seq<char>>) -> ChatCompletionsRequestModel {
    let items = match r.input {
        Some(xs) => xs,
        None => seq![],
    };
    ChatCompletionsRequestModel {
        model: r.model,
        messages: with_call_reasoning(
            instruction_messages(r.instructions) + items.map_values(|x: ResponsesInputItemModel| mimo_message_of(x)),
            previous_reasoning,
        ),
        stream: r.stream,
        max_tokens: None,
        max_completion_tokens: r.max_output_tokens,
        temperature: Some("1.0"@),
        top_p: Some(
            match r.top_p {
                Some(t) => t,
                None => "0.95"@,
            },
        ),
        frequency_penalty: Some("0.0"@),
        presence_penalty: Some("0.0"@),
        tools: match r.tools {
            Some(ts) => Some(mimo_tools_of(ts)),
            None => None,
        },
        tool_choice: Some("\"auto\""@),
        parallel_tool_calls: None,
        stop: None,
        n: Some(1),
        seed: None,
        stream_options: None,
        user: None,
        response_format: None,
        logprobs: None,
        top_logprobs: None,
        reasoning_effort: None,
        service_tier: None,
        store: None,
        metadata: None,
        thinking: Some(ThinkingConfigModel { thinking_type: "disabled"@ }),
    }
}

// ===========================================================================
// Implementation
// ===========================================================================

/// The plain text of optional message content (see [`plain_text_of`]).
fn extract_text(content: &Option<Vec<ResponsesContentPart>>) -> (r: String)
    ensures
        r@ == plain_text_of(
            match content {
                Some(parts) => Some(parts_model(parts@)),
                None => None,
            },
        ),
{
    let parts = match content {
        Some(parts) => parts,
        None => {
            return String::new();
        },
    };
    let ghost ps = parts_model(parts@);
    let mut texts: Vec<String> = Vec::new();
    let mut i: usize = 0;
    while i < parts.len()
        invariant
            i <= parts.len(),
            ps == parts_model(parts@),
            string_seqs(texts@) == text_parts(ps.take(i as int)),
        decreases parts.len() - i,
    {
        proof {
            assert(ps.take(i + 1).drop_last() =~= ps.take(i as int));
            assert(ps.take(i + 1).last() == parts@[i as int]@);
        }
        match &parts[i] {
            ResponsesContentPart::InputText { text }
            | ResponsesContentPart::OutputText { text }
            | ResponsesContentPart::Text { text } => {
                texts.push(text.clone());
            },
            _ => {},
        }
        assert(string_seqs(texts@) =~= text_parts(ps.take(i + 1)));
        i += 1;
    }
    assert(ps.take(parts.len() as int) =~= ps);
    join(&texts, "\n")
}

fn mimo_message(item: &ResponsesInputItem) -> (r: ChatMessage)
    ensures
        r@ == mimo_message_of(item@),
{
    match item {
        ResponsesInputItem::Message { role, content, .. } => {
            let mapped = if str_eq(role.as_str(), "developer") {
                owned("system")
            } else {
                role.clone()
            };
            ChatMessage {
                role: mapped,
                content: Some(ChatContent::String(extract_text(content))),
                name: None,
                tool_calls: None,
                tool_call_id: None,
                refusal: None,
                reasoning_content: None,
            }
        },
        ResponsesInputItem::FunctionCall { call_id, name, arguments, .. } => {
            let mut calls: Vec<ToolCall> = Vec::new();
            let tc = ToolCall {
                id: call_id.clone(),
                tool_type: owned("function"),
                function: FunctionCall { name: name.clone(), arguments: arguments.clone() },
                index: None,
            };
            calls.push(tc);
            assert(calls@.map_values(|t: ToolCall| t@) =~= seq![tc@]);
            ChatMessage {
                role: owned("assistant"),
                content: None,
                name: None,
                tool_calls: Some(calls),
                tool_call_id: None,
                refusal: None,
                reasoning_content: None,
            }
        },
        ResponsesInputItem::FunctionCallOutput { call_id, output, .. } => ChatMessage {
            role: owned("tool"),
            content: Some(ChatContent::String(output.clone())),
            name: None,
            tool_calls: None,
            tool_call_id: Some(call_id.clone()),
            refusal: None,
            reasoning_content: None,
        },
    }
}

/// Puts `reasoning` on the last assistant message that calls tools.
fn inject_call_reasoning(messages: &mut Vec<ChatMessage>, reasoning: Option<String>)
    ensures
        messages_model(final(messages)@) == with_call_reasoning(messages_model(old(messages)@), opt_seq(reasoning)),
{
    let r = match reasoning {
        Some(r) => r,
        None => {
            return ;
        },
    };
    let ghost ms = messages_model(messages@);
    assert(ms.take(messages.len() as int) =~= ms);
    let mut j: usize = messages.len();
    while j > 0
        invariant
            j <= messages.len(),
            ms == messages_model(messages@),
            ms == messages_model(old(messages)@),
            opt_seq(reasoning) == Some(r@),
            last_assistant_call(ms) == last_assistant_call(ms.take(j as int)),
        decreases j,
    {
        proof {
            assert(ms.take(j as int).last() == messages@[j - 1]@);
            assert(ms.take(j as int).drop_last() =~= ms.take(j - 1));
        }
        if str_eq(messages[j - 1].role.as_str(), "assistant") && messages[j - 1].tool_calls.is_some() {
            let mut updated = messages[j - 1].clone();
            updated.reasoning_content = Some(r);
            proof {
                assert(ms.take(j as int).len() == j);
                assert(last_assistant_call(ms) == Some(j - 1));
            }
            messages.set(j - 1, updated);
            proof {
                assert(messages_model(messages@) =~= ms.update(
                    j - 1,
                    ChatMessageModel { reasoning_content: Some(r@), ..ms[j - 1] },
                ));
            }
            return ;
        }
        j -= 1;
    }
    assert(ms.take(0) =~= Seq::<ChatMessageModel>::empty());
}

/// The MiMo Chat tools of Responses tools (see [`mimo_tools_of`]).
fn mimo_tools(ts: &Vec<ResponsesTool>) -> (r: Vec<ChatTool>)
    ensures
        r@.map_values(|t: ChatTool| t@) == mimo_tools_of(ts@.map_values(|t: ResponsesTool| t@)),
{
    let ghost m = ts@.map_values(|t: ResponsesTool| t@);
    let mut out: Vec<ChatTool> = Vec::new();
    let mut i: usize = 0;
    while i < ts.len()
        invariant
            i <= ts.len(),
            m == ts@.map_values(|t: ResponsesTool| t@),
            out@.map_values(|t: ChatTool| t@) == mimo_tools_of(m.take(i as int)),
        decreases ts.len() - i,
    {
        proof {
            assert(m.take(i + 1).drop_last() =~= m.take(i as int));
            assert(m.take(i + 1).last() == ts@[i as int]@);
        }
        if let Some(f) = ts[i].get_function() {
            let parameters = match f.parameters {
                Some(p) => p,
                None => owned("{\"type\":\"object\"}"),
            };
            out.push(
                ChatTool {
                    tool_type: owned("function"),
                    function: ChatFunction { name: f.name, description: f.description, parameters: Some(parameters) },
                },
            );
        }
        assert(out@.map_values(|t: ChatTool| t@) =~= mimo_tools_of(m.take(i + 1)));
        i += 1;
    }
    assert(m.take(ts.len() as int) =~= m);
    out
}

/// Convert a Responses request into a Xiaomi MiMo Chat request (see
/// [`mimo_request_spec`]); `previous_reasoning` is put on the last
/// assistant message that calls tools.
pub fn convert_responses_to_chat(responses: &ResponsesRequest, previous_reasoning: Option<String>) -> (r: ChatCompletionsRequest)
    ensures
        r@ == mimo_request_spec(responses@, opt_seq(previous_reasoning)),
{
    let mut messages: Vec<ChatMessage> = Vec::new();
    if let Some(instructions) = &responses.instructions {
        if instructions.0.unicode_len() > 0 {
            messages.push(
                ChatMessage {
                    role: owned("system"),
                    content: Some(ChatContent::String(instructions.0.clone())),
                    name: None,
                    tool_calls: None,
                    tool_call_id: None,
                    refusal: None,
                    reasoning_content: None,
                },
            );
        }
    }
    let ghost head = messages_model(messages@);
    assert(head =~= instruction_messages(responses@.instructions));
    let ghost items = match responses@.input {
        Some(xs) => xs,
        None => Seq::<ResponsesInputItemModel>::empty(),
    };
    if let Some(input) = &responses.input {
        let mut i: usize = 0;
        while i < input.len()
            invariant
                i <= input.len(),
                items == input@.map_values(|x: ResponsesInputItem| x@),
                messages_model(messages@) == head + items.take(i as int).map_values(
                    |x: ResponsesInputItemModel| mimo_message_of(x),
                ),
            decreases input.len() - i,
        {
            let m = mimo_message(&input[i]);
            let ghost prev = messages@;
            messages.push(m);
            proof {
                assert(messages_model(messages@) =~= messages_model(prev).push(m@));
                assert(items.take(i + 1) =~= items.take(i as int).push(input@[i as int]@));
                assert(items.take(i + 1).map_values(|x: ResponsesInputItemModel| mimo_message_of(x))
                    =~= items.take(i as int).map_values(|x: ResponsesInputItemModel| mimo_message_of(x)).push(
                    mimo_message_of(input@[i as int]@),
                ));
            }
            i += 1;
        }
        assert(items.take(input.len() as int) =~= items);
    } else {
        assert(head + items.map_values(|x: ResponsesInputItemModel| mimo_message_of(x)) =~= head);
    }
    inject_call_reasoning(&mut messages, previous_reasoning);
    let tools = match &responses.tools {
        Some(ts) => Some(mimo_tools(ts)),
        None => None,
    };
    ChatCompletionsRequest {
        model: responses.model.clone(),
        messages,
        stream: responses.stream,
        max_tokens: None,
        max_completion_tokens: responses.max_output_tokens,
        temperature: Some(owned("1.0")),
        top_p: Some(
            match &responses.top_p {
                Some(t) => t.clone(),
                None => owned("0.95"),
            },
        ),
        frequency_penalty: Some(owned("0.0")),
        presence_penalty: Some(owned("0.0")),
        tools,
        tool_choice: Some(owned("\"auto\"")),
        parallel_tool_calls: None,
        stop: None,
        n: Some(1),
        seed: None,
        stream_options: None,
        user: None,
        response_format: None,
        logprobs: None,
        top_logprobs: None,
        reasoning_effort: None,
        service_tier: None,
        store: None,
        metadata: None,
        thinking: Some(ThinkingConfig { thinking_type: owned("disabled") }),
    }
}

} // verus!
