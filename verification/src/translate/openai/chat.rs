//! Translation for OpenAI-compatible Chat Completions upstreams, and the
//! recovery of tool calls that some models write into their text as XML.

use vstd::prelude::*;
use crate::text::{chars_of, concat, find_from, first_occurrence_from, lemma_first_occurrence_from, occurs_at, owned, str_eq, string_from, trim, trim_str};
use crate::json::{opt_seq, parse_json, spec_parse_json, JsonDocModel};
use crate::ids::new_uuid;
use crate::types::chat::{
    chat_content_text, chat_content_to_string, ChatChoice, ChatChoiceModel, ChatCompletionsRequest,
    ChatCompletionsRequestModel, ChatCompletionsResponse, ChatCompletionsResponseModel, ChatContent,
    ChatContentModel, ChatContentPart, ChatContentPartModel, ChatImageUrl, ChatImageUrlModel,
    ChatMessage, ChatMessageModel, ChatTool, ChatToolModel, ChatUsage, ChatUsageModel, CompletionTokensDetails,
    CompletionTokensDetailsModel, FunctionCall, FunctionCallModel, PromptTokensDetails,
    PromptTokensDetailsModel, ToolCall, ToolCallModel,
};
use crate::types::responses::{
    part_text, part_texts, parts_model, FunctionDefinition, FunctionDefinitionModel, InputTokensDetails,
    InputTokensDetailsModel, Instructions, OutputTokensDetails, OutputTokensDetailsModel,
    ReasoningConfig, ReasoningConfigModel, ResponsesContentPart, ResponsesContentPartModel,
    ResponsesInputItem, ResponsesInputItemModel, ResponsesOutputItem, ResponsesOutputItemModel,
    ResponsesRequest, ResponsesRequestModel, ResponsesResponse, ResponsesResponseModel, ResponsesTool,
    ResponsesToolModel, ResponsesUsage, ResponsesUsageModel, TextConfig, TextConfigModel,
};
use crate::translate::deepseek::chat::{
    call_items, chat_tools, chat_tools_of, content_model, deepseek_message_of, inputs_model,
    instruction_messages, items_model, messages_model, plain_message, response_format, text_format,
    text_format_of, text_format_spec,
};

verus! {

broadcast use vstd::seq_lib::group_seq_properties;

// ===========================================================================
// Tool calls written as XML
// ===========================================================================

/// The name and arguments of a tool call recovered from a parsed block:
/// `name` (else `unknown`) and `arguments` re-serialised (else `{}`).
pub open spec fn xml_call_of(d: JsonDocModel) -> (Seq<char>, Seq<char>) {
    (
        match d.name_str {
            Some(n) => n,
            None => "unknown"@,
        },
        match d.arguments_text {
            Some(a) => a,
            None => "{}"@,
        },
    )
}

/// One pass over `text` for the blocks `tag ... close`: each block is cut
/// out; a block whose trimmed inside parses as JSON gives a tool call,
/// except, in a `<tools>` pass, one with a `"type"` member (an echoed tool
/// schema). Returns the remaining text and the calls in order.
pub open spec fn xml_pass(text: Seq<char>, tag: Seq<char>, close: Seq<char>, schema_echo: bool) -> (
    Seq<char>,
    Seq<(Seq<char>, Seq<char>)>,
)
    decreases text.len(),
{
    match first_occurrence_from(text, tag, 0) {
        None => (text, seq![]),
        Some(start) => match first_occurrence_from(text, close, start) {
            None => (text, seq![]),
            Some(p) => {
                proof {
                    lemma_first_occurrence_from(text, tag, 0);
                    lemma_first_occurrence_from(text, close, start);
                }
                if close.len() == 0 {
                    (text, seq![])
                } else {
                    let inner = trim(text.subrange(start + tag.len(), p));
                    let rest = text.subrange(0, start) + text.subrange(p + close.len(), text.len() as int);
                    let (cleaned, calls) = xml_pass(rest, tag, close, schema_echo);
                    match spec_parse_json(inner) {
                        Some(d) => if schema_echo && d.has_type_key {
                            (cleaned, calls)
                        } else {
                            (cleaned, seq![xml_call_of(d)] + calls)
                        },
                        None => (cleaned, calls),
                    }
                }
            },
        },
    }
}

/// What the XML recovery leaves of a text and the `(name, arguments)` of
/// the calls it finds: first the `<function-call>` blocks, then the
/// `<tools>` blocks of what remains, then the text is trimmed.
pub open spec fn xml_tool_calls_spec(content: Seq<char>) -> (Seq<char>, Seq<(Seq<char>, Seq<char>)>) {
    let (a, calls1) = xml_pass(content, "<function-call>"@, "</function-call>"@, false);
    let (b, calls2) = xml_pass(a, "<tools>"@, "</tools>"@, true);
    (trim(b), calls1 + calls2)
}

/// The closing tag cannot start inside the opening tag: it starts with
/// `</`, and the opening tag has `<` only at its start, followed by a
/// letter.
proof fn lemma_close_after_tag(text: Seq<char>, tag: Seq<char>, close: Seq<char>, start: int, p: int)
    requires
        occurs_at(text, tag, start),
        occurs_at(text, close, p),
        start <= p,
        tag.len() >= 2,
        close.len() >= 2,
        close[0] == '<',
        close[1] == '/',
        tag[1] != '/',
        forall|i: int| 1 <= i < tag.len() ==> tag[i] != '<',
    ensures
        start + tag.len() <= p,
{
    if p < start + tag.len() {
        let o = p - start;
        assert(text[p] == text.subrange(p, p + close.len())[0]);
        assert(text[start + o] == text.subrange(start, start + tag.len())[o]);
        if o == 0 {
            assert(text[p + 1] == text.subrange(p, p + close.len())[1]);
            assert(text[start + 1] == text.subrange(start, start + tag.len())[1]);
        }
    }
}

/// One pass of the XML recovery over `text` (see [`xml_pass`]).
fn xml_pass_exec(text: Vec<char>, tag: &Vec<char>, close: &Vec<char>, schema_echo: bool) -> (r: (
    Vec<char>,
    Vec<(String, String)>,
))
    requires
        tag@.len() >= 2,
        close@.len() >= 2,
        close@[0] == '<',
        close@[1] == '/',
        tag@[1] != '/',
        forall|i: int| 1 <= i < tag@.len() ==> tag@[i] != '<',
    ensures
        r.0@ == xml_pass(text@, tag@, close@, schema_echo).0,
        r.1@.map_values(|c: (String, String)| (c.0@, c.1@)) == xml_pass(text@, tag@, close@, schema_echo).1,
{
    let ghost original = text@;
    let mut cur = text;
    let mut calls: Vec<(String, String)> = Vec::new();
    loop
        invariant
            original == text@,
            xml_pass(original, tag@, close@, schema_echo) == (
                xml_pass(cur@, tag@, close@, schema_echo).0,
                calls@.map_values(|c: (String, String)| (c.0@, c.1@)) + xml_pass(cur@, tag@, close@, schema_echo).1,
            ),
            tag@.len() >= 2,
            close@.len() >= 2,
            close@[0] == '<',
            close@[1] == '/',
            tag@[1] != '/',
            forall|i: int| 1 <= i < tag@.len() ==> tag@[i] != '<',
        decreases cur@.len(),
    {
        let start = match find_from(&cur, tag, 0) {
            Some(s) => s,
            None => {
                assert(xml_pass(cur@, tag@, close@, schema_echo) == (cur@, Seq::<(Seq<char>, Seq<char>)>::empty()));
                assert(calls@.map_values(|c: (String, String)| (c.0@, c.1@)) + seq![] =~= calls@.map_values(
                    |c: (String, String)| (c.0@, c.1@),
                ));
                return (cur, calls);
            },
        };
        let p = match find_from(&cur, close, start) {
            Some(p) => p,
            None => {
                assert(xml_pass(cur@, tag@, close@, schema_echo) == (cur@, Seq::<(Seq<char>, Seq<char>)>::empty()));
                assert(calls@.map_values(|c: (String, String)| (c.0@, c.1@)) + seq![] =~= calls@.map_values(
                    |c: (String, String)| (c.0@, c.1@),
                ));
                return (cur, calls);
            },
        };
        proof {
            lemma_first_occurrence_from(cur@, tag@, 0);
            lemma_first_occurrence_from(cur@, close@, start as int);
            lemma_close_after_tag(cur@, tag@, close@, start as int, p as int);
        }
        let inner_raw = string_from(&cur, start + tag.len(), p);
        let inner = trim_str(inner_raw.as_str());
        let ghost before = cur@;
        let ghost prev_calls = calls@;
        let mut rest: Vec<char> = Vec::new();
        let mut j: usize = 0;
        while j < start
            invariant
                j <= start <= cur.len(),
                rest@ == cur@.subrange(0, j as int),
            decreases start - j,
        {
            rest.push(cur[j]);
            j += 1;
            assert(rest@ =~= cur@.subrange(0, j as int));
        }
        let mut k: usize = p + close.len();
        while k < cur.len()
            invariant
                p + close@.len() <= k <= cur.len(),
                rest@ == cur@.subrange(0, start as int) + cur@.subrange(p + close@.len(), k as int),
            decreases cur.len() - k,
        {
            rest.push(cur[k]);
            k += 1;
            assert(rest@ =~= cur@.subrange(0, start as int) + cur@.subrange(p + close@.len(), k as int));
        }
        match parse_json(inner.as_str()) {
            Some(d) => {
                if !(schema_echo && d.has_type_key) {
                    let name = match d.name_str {
                        Some(n) => n,
                        None => owned("unknown"),
                    };
                    let arguments = match d.arguments_text {
                        Some(a) => a,
                        None => owned("{}"),
                    };
                    calls.push((name, arguments));
                    proof {
                        assert(calls@.map_values(|c: (String, String)| (c.0@, c.1@)) =~= prev_calls.map_values(
                            |c: (String, String)| (c.0@, c.1@),
                        ) + seq![xml_call_of(d@)]);
                        assert(seq![xml_call_of(d@)] + xml_pass(rest@, tag@, close@, schema_echo).1
                            =~= xml_pass(before, tag@, close@, schema_echo).1);
                    }
                }
            },
            None => {},
        }
        cur = rest;
    }
}

/// Recovers tool calls that a model wrote into its text as
/// `<function-call>{...}</function-call>` or `<tools>{...}</tools>` blocks
/// (see [`xml_tool_calls_spec`]): the cleaned text, and each call's name
/// and arguments.
pub fn xml_tool_call_parts(content: &str) -> (r: (String, Vec<(String, String)>))
    ensures
        r.0@ == xml_tool_calls_spec(content@).0,
        r.1@.map_values(|c: (String, String)| (c.0@, c.1@)) == xml_tool_calls_spec(content@).1,
{
    let fc_open = chars_of("<function-call>");
    let fc_close = chars_of("</function-call>");
    let tools_open = chars_of("<tools>");
    let tools_close = chars_of("</tools>");
    proof {
        reveal_strlit("<function-call>");
        reveal_strlit("</function-call>");
        reveal_strlit("<tools>");
        reveal_strlit("</tools>");
    }
    let text = chars_of(content);
    let (a, calls1) = xml_pass_exec(text, &fc_open, &fc_close, false);
    let (b, calls2) = xml_pass_exec(a, &tools_open, &tools_close, true);
    let n = b.len();
    let bs = string_from(&b, 0, n);
    assert(b@.subrange(0, n as int) =~= b@);
    let cleaned = trim_str(bs.as_str());
    let mut calls = calls1;
    let ghost c1 = calls@;
    let mut i: usize = 0;
    while i < calls2.len()
        invariant
            i <= calls2.len(),
            calls@.map_values(|c: (String, String)| (c.0@, c.1@)) == c1.map_values(
                |c: (String, String)| (c.0@, c.1@),
            ) + calls2@.take(i as int).map_values(|c: (String, String)| (c.0@, c.1@)),
        decreases calls2.len() - i,
    {
        let name = calls2[i].0.clone();
        let args = calls2[i].1.clone();
        let ghost prev = calls@;
        calls.push((name, args));
        proof {
            let f = |c: (String, String)| (c.0@, c.1@);
            assert(calls@.map_values(f) =~= prev.map_values(f).push(f(calls2@[i as int])));
            assert(calls2@.take(i + 1) =~= calls2@.take(i as int).push(calls2@[i as int]));
            assert(calls2@.take(i + 1).map_values(f) =~= calls2@.take(i as int).map_values(f).push(
                f(calls2@[i as int]),
            ));
            assert(calls@.map_values(f) =~= c1.map_values(f) + calls2@.take(i + 1).map_values(f));
        }
        i += 1;
    }
    assert(calls2@.take(calls2.len() as int) =~= calls2@);
    (cleaned, calls)
}

/// What [`extract_xml_tool_calls`] returns, whatever identifiers it drew:
/// the cleaned text, and per recovered call a `function` call with its
/// name, arguments and position, under an id `call_` followed by a fresh
/// identifier.
pub open spec fn extracted_calls_match(content: Seq<char>, r: (Seq<char>, Seq<ToolCall>)) -> bool {
    let (cleaned, parts) = xml_tool_calls_spec(content);
    &&& r.0 == cleaned
    &&& r.1.len() == parts.len()
    &&& forall|i: int|
        0 <= i < parts.len() ==> {
            &&& (#[trigger] r.1[i]).function.name@ == parts[i].0
            &&& r.1[i].function.arguments@ == parts[i].1
            &&& r.1[i].tool_type@ == "function"@
            &&& r.1[i].index == Some(i as u32)
            &&& r.1[i].id@.len() == 41
            &&& r.1[i].id@.subrange(0, 5) == "call_"@
        }
}

/// Recovers XML-written tool calls from a text (see
/// [`xml_tool_call_parts`]), giving each a fresh `call_` identifier.
pub fn extract_xml_tool_calls(content: &str) -> (r: (String, Vec<ToolCall>))
    ensures
        extracted_calls_match(content@, (r.0@, r.1@)),
{
    let (cleaned, parts) = xml_tool_call_parts(content);
    let mut calls: Vec<ToolCall> = Vec::new();
    let mut i: usize = 0;
    proof {
        reveal_strlit("call_");
        reveal_strlit("function");
    }
    while i < parts.len()
        invariant
            i <= parts.len(),
            calls@.len() == i,
            parts@.map_values(|c: (String, String)| (c.0@, c.1@)) == xml_tool_calls_spec(content@).1,
            forall|j: int|
                0 <= j < i ==> {
                    &&& (#[trigger] calls@[j]).function.name@ == parts@[j].0@
                    &&& calls@[j].function.arguments@ == parts@[j].1@
                    &&& calls@[j].tool_type@ == "function"@
                    &&& calls@[j].index == Some(j as u32)
                    &&& calls@[j].id@.len() == 41
                    &&& calls@[j].id@.subrange(0, 5) == "call_"@
                },
        decreases parts.len() - i,
    {
        proof {
            reveal_strlit("call_");
            reveal_strlit("function");
        }
        let id = concat("call_", new_uuid().as_str());
        assert(id@.subrange(0, 5) =~= "call_"@);
        calls.push(
            ToolCall {
                id,
                tool_type: owned("function"),
                function: FunctionCall { name: parts[i].0.clone(), arguments: parts[i].1.clone() },
                index: Some(#[verifier::truncate] (i as u32)),
            },
        );
        i += 1;
    }
    proof {
        assert forall|j: int| 0 <= j < parts@.len() implies parts@[j].0@ == xml_tool_calls_spec(content@).1[j].0
            && parts@[j].1@ == xml_tool_calls_spec(content@).1[j].1 by {
            assert(parts@.map_values(|c: (String, String)| (c.0@, c.1@))[j] == (parts@[j].0@, parts@[j].1@));
        }
    }
    (cleaned, calls)
}

// ===========================================================================
// Responses request to Chat request
// ===========================================================================

/// The Chat part of a Responses input part: input text and input images.
pub open spec fn openai_part_of(p: ResponsesContentPartModel) -> Option<ChatContentPartModel> {
    match p {
        ResponsesContentPartModel::InputText { text } => Some(ChatContentPartModel::Text { text }),
        ResponsesContentPartModel::InputImage { image_url, detail } => Some(
            ChatContentPartModel::ImageUrl {
                image_url: ChatImageUrlModel {
                    url: match image_url {
                        Some(u) => u,
                        None => seq![],
                    },
                    detail,
                },
            },
        ),
        _ => None,
    }
}

/// The Chat parts of Responses input parts, in order.
pub open spec fn openai_parts_of(ps: Seq<ResponsesContentPartModel>) -> Seq<ChatContentPartModel>
    decreases ps.len(),
{
    if ps.len() == 0 {
        seq![]
    } else {
        let rest = openai_parts_of(ps.drop_last());
        match openai_part_of(ps.last()) {
            Some(c) => rest.push(c),
            None => rest,
        }
    }
}

/// Chat content of a message's parts: none for no or no convertible parts;
/// a single input text (or a single text part left) is a plain string.
pub open spec fn openai_content_of(content: Option<Seq<ResponsesContentPartModel>>) -> Option<ChatContentModel> {
    match content {
        None => None,
        Some(ps) => if ps.len() == 0 {
            None
        } else if ps.len() == 1 && ps[0] is InputText {
            Some(ChatContentModel::String(ps[0]->InputText_text))
        } else {
            let cs = openai_parts_of(ps);
            if cs.len() == 0 {
                None
            } else if cs.len() == 1 && cs[0] is Text {
                Some(ChatContentModel::String(cs[0]->Text_text))
            } else {
                Some(ChatContentModel::Parts(cs))
            }
        },
    }
}

/// The Chat message of a Responses input item (roles are kept).
pub open spec fn openai_message_of(item: ResponsesInputItemModel) -> ChatMessageModel {
    match item {
        ResponsesInputItemModel::Message { role, content, name, .. } => ChatMessageModel {
            name,
            ..plain_message(role, openai_content_of(content))
        },
        _ => deepseek_message_of(item),
    }
}

/// Whether a JSON text is the string `"auto"`.
pub open spec fn is_auto_choice(t: Seq<char>) -> bool {
    spec_parse_json(t) matches Some(d) && d.as_str == Some("auto"@)
}

/// The Chat request of a Responses request for an OpenAI-compatible
/// upstream: with tools and an automatic (or no) tool choice, a tool is
/// required.
pub open spec fn openai_request_spec(r: ResponsesRequestModel) -> ChatCompletionsRequestModel {
    let items = match r.input {
        Some(xs) => xs,
        None => seq![],
    };
    let tools = match r.tools {
        Some(ts) => Some(chat_tools_of(ts)),
        None => None,
    };
    let require = match tools {
        Some(ts) => ts.len() > 0 && match r.tool_choice {
            None => true,
            Some(t) => is_auto_choice(t),
        },
        None => false,
    };
    ChatCompletionsRequestModel {
        model: r.model,
        messages: instruction_messages(r.instructions) + items.map_values(|x: ResponsesInputItemModel| openai_message_of(x)),
        stream: r.stream,
        max_tokens: None,
        max_completion_tokens: r.max_output_tokens,
        temperature: Some(
            match r.temperature {
                Some(t) => t,
                None => "0.0"@,
            },
        ),
        top_p: r.top_p,
        frequency_penalty: r.frequency_penalty,
        presence_penalty: r.presence_penalty,
        tools,
        tool_choice: if require {
            Some("\"required\""@)
        } else {
            r.tool_choice
        },
        parallel_tool_calls: r.parallel_tool_calls,
        stop: None,
        n: None,
        seed: None,
        stream_options: None,
        user: r.user,
        response_format: text_format_spec(r.text),
        logprobs: None,
        top_logprobs: r.top_logprobs,
        reasoning_effort: match r.reasoning {
            Some(rc) => rc.effort,
            None => None,
        },
        service_tier: r.service_tier,
        store: r.store,
        metadata: r.metadata,
        thinking: None,
    }
}

/// Convert Responses message content into Chat content (see [`openai_content_of`]).
pub fn responses_content_to_chat_content(content: &Option<Vec<ResponsesContentPart>>) -> (r: Option<ChatContent>)
    ensures
        content_model(r) == openai_content_of(
            match content {
                Some(c) => Some(parts_model(c@)),
                None => None,
            },
        ),
{
    let parts = match content {
        Some(p) => p,
        None => {
            return None;
        },
    };
    let ghost ps = parts_model(parts@);
    if parts.len() == 0 {
        return None;
    }
    if parts.len() == 1 {
        if let ResponsesContentPart::InputText { text } = &parts[0] {
            return Some(ChatContent::String(text.clone()));
        }
    }
    let mut out: Vec<ChatContentPart> = Vec::new();
    let mut i: usize = 0;
    while i < parts.len()
        invariant
            i <= parts.len(),
            ps == parts_model(parts@),
            out@.map_values(|c: ChatContentPart| c@) == openai_parts_of(ps.take(i as int)),
        decreases parts.len() - i,
    {
        proof {
            assert(ps.take(i + 1).drop_last() =~= ps.take(i as int));
            assert(ps.take(i + 1).last() == parts@[i as int]@);
        }
        match &parts[i] {
            ResponsesContentPart::InputText { text } => {
                out.push(ChatContentPart::Text { text: text.clone() });
            },
            ResponsesContentPart::InputImage { image_url, detail } => {
                let url = match image_url {
                    Some(u) => u.clone(),
                    None => String::new(),
                };
                out.push(ChatContentPart::ImageUrl { image_url: ChatImageUrl { url, detail: detail.clone() } });
            },
            _ => {},
        }
        assert(out@.map_values(|c: ChatContentPart| c@) =~= openai_parts_of(ps.take(i + 1)));
        i += 1;
    }
    assert(ps.take(parts.len() as int) =~= ps);
    if out.len() == 0 {
        None
    } else if out.len() == 1 {
        let single = match &out[0] {
            ChatContentPart::Text { text } => Some(text.clone()),
            _ => None,
        };
        match single {
            Some(t) => Some(ChatContent::String(t)),
            None => Some(ChatContent::Parts(out)),
        }
    } else {
        Some(ChatContent::Parts(out))
    }
}

fn openai_message(item: &ResponsesInputItem) -> (r: ChatMessage)
    ensures
        r@ == openai_message_of(item@),
{
    match item {
        ResponsesInputItem::Message { role, content, name, .. } => ChatMessage {
            role: role.clone(),
            content: responses_content_to_chat_content(content),
            name: name.clone(),
            tool_calls: None,
            tool_call_id: None,
            refusal: None,
            reasoning_content: None,
        },
        ResponsesInputItem::FunctionCall { call_id, name, arguments, .. } => {
            let mut calls: Vec<ToolCall> = Vec::new();
            let tc = ToolCall {
                id: call_id.clone(),
                tool_type: owned("function"),
                function: FunctionCall { name: name.clone(), arguments: arguments.clone() },
                index: None,
            };
            calls.push(tc);
            assert(calls@.map_values(|t: ToolCall| t@) =~= seq![tc@]);
            ChatMessage {
                role: owned("assistant"),
                content: None,
                name: None,
                tool_calls: Some(calls),
                tool_call_id: None,
                refusal: None,
                reasoning_content: None,
            }
        },
        ResponsesInputItem::FunctionCallOutput { call_id, output, .. } => ChatMessage {
            role: owned("tool"),
            content: Some(ChatContent::String(output.clone())),
            name: None,
            tool_calls: None,
            tool_call_id: Some(call_id.clone()),
            refusal: None,
            reasoning_content: None,
        },
    }
}

/// Convert a Responses request into a Chat request for an
/// OpenAI-compatible upstream (see [`openai_request_spec`]).
pub fn convert_responses_to_chat(responses: &ResponsesRequest) -> (r: ChatCompletionsRequest)
    ensures
        r@ == openai_request_spec(responses@),
{
    let mut messages: Vec<ChatMessage> = Vec::new();
    if let Some(instructions) = &responses.instructions {
        if instructions.0.unicode_len() > 0 {
            messages.push(
                ChatMessage {
                    role: owned("system"),
                    content: Some(ChatContent::String(instructions.0.clone())),
                    name: None,
                    tool_calls: None,
                    tool_call_id: None,
                    refusal: None,
                    reasoning_content: None,
                },
            );
        }
    }
    let ghost head = messages_model(messages@);
    assert(head =~= instruction_messages(responses@.instructions));
    let ghost items = match responses@.input {
        Some(xs) => xs,
        None => Seq::<ResponsesInputItemModel>::empty(),
    };
    if let Some(input) = &responses.input {
        let mut i: usize = 0;
        while i < input.len()
            invariant
                i <= input.len(),
                items == input@.map_values(|x: ResponsesInputItem| x@),
                messages_model(messages@) == head + items.take(i as int).map_values(
                    |x: ResponsesInputItemModel| openai_message_of(x),
                ),
            decreases input.len() - i,
        {
            let m = openai_message(&input[i]);
            let ghost prev = messages@;
            messages.push(m);
            proof {
                assert(messages_model(messages@) =~= messages_model(prev).push(m@));
                assert(items.take(i + 1) =~= items.take(i as int).push(input@[i as int]@));
                assert(items.take(i + 1).map_values(|x: ResponsesInputItemModel| openai_message_of(x))
                    =~= items.take(i as int).map_values(|x: ResponsesInputItemModel| openai_message_of(x)).push(
                    openai_message_of(input@[i as int]@),
                ));
            }
            i += 1;
        }
        assert(items.take(input.len() as int) =~= items);
    } else {
        assert(head + items.map_values(|x: ResponsesInputItemModel| openai_message_of(x)) =~= head);
    }
    let tools = match &responses.tools {
        Some(ts) => Some(chat_tools(ts)),
        None => None,
    };
    let has_tools = match &tools {
        Some(ts) => ts.len() > 0,
        None => false,
    };
    let auto_or_none = match &responses.tool_choice {
        None => true,
        Some(t) => match parse_json(t.as_str()) {
            Some(d) => match &d.as_str {
                Some(v) => str_eq(v.as_str(), "auto"),
                None => false,
            },
            None => false,
        },
    };
    let tool_choice = if has_tools && auto_or_none {
        Some(owned("\"required\""))
    } else {
        responses.tool_choice.clone()
    };
    let response_format = match &responses.text {
        Some(tc) => match &tc.format {
            Some(f) => Some(response_format(f)),
            None => None,
        },
        None => None,
    };
    ChatCompletionsRequest {
        model: responses.model.clone(),
        messages,
        stream: responses.stream,
        max_tokens: None,
        max_completion_tokens: responses.max_output_tokens,
        temperature: Some(
            match &responses.temperature {
                Some(t) => t.clone(),
                None => owned("0.0"),
            },
        ),
        top_p: responses.top_p.clone(),
        frequency_penalty: responses.frequency_penalty.clone(),
        presence_penalty: responses.presence_penalty.clone(),
        tools,
        tool_choice,
        parallel_tool_calls: responses.parallel_tool_calls,
        stop: None,
        n: None,
        seed: None,
        stream_options: None,
        user: responses.user.clone(),
        response_format,
        logprobs: None,
        top_logprobs: responses.top_logprobs,
        reasoning_effort: match &responses.reasoning {
            Some(rc) => rc.effort.clone(),
            None => None,
        },
        service_tier: responses.service_tier.clone(),
        store: responses.store,
        metadata: responses.metadata.clone(),
        thinking: None,
    }
}

// ===========================================================================
// Chat response to Responses response
// ===========================================================================

/// The status an OpenAI finish reason stands for.
pub open spec fn finish_status_spec(reason: Option<Seq<char>>) -> Seq<char> {
    match reason {
        Some(r) => if r == "length"@ || r == "content_filter"@ {
            "incomplete"@
        } else {
            "completed"@
        },
        None => "completed"@,
    }
}

/// The status for a finish reason: `incomplete` for `length` and
/// `content_filter`, else `completed`.
pub fn map_finish_reason_to_status(reason: Option<&str>) -> (r: String)
    ensures
        r@ == finish_status_spec(match reason {
            Some(s) => Some(s@),
            None => None,
        }),
{
    match reason {
        Some(s) => if str_eq(s, "length") || str_eq(s, "content_filter") {
            owned("incomplete")
        } else {
            owned("completed")
        },
        None => owned("completed"),
    }
}

/// The finish reason a status stands for.
pub open spec fn status_finish_spec(status: Seq<char>) -> Seq<char> {
    if status == "incomplete"@ {
        "length"@
    } else {
        "stop"@
    }
}

/// The finish reason for a status: `length` for `incomplete`, else `stop`.
pub fn map_status_to_finish_reason(status: &str) -> (r: String)
    ensures
        r@ == status_finish_spec(status@),
{
    if str_eq(status, "incomplete") {
        owned("length")
    } else {
        owned("stop")
    }
}

/// The output items of a choice: a message item (under the response id,
/// with the choice's status) when there is text, then the tool calls.
pub open spec fn openai_choice_items(c: ChatChoiceModel, id: Seq<char>) -> Seq<ResponsesOutputItemModel> {
    match c.message {
        Some(m) => {
            let text = chat_content_text(m.content);
            (if text.len() > 0 {
                seq![
                    ResponsesOutputItemModel::Message {
                        id,
                        role: Some(m.role),
                        content: seq![ResponsesContentPartModel::OutputText { text }],
                        status: Some(finish_status_spec(c.finish_reason)),
                    },
                ]
            } else {
                seq![]
            }) + match m.tool_calls {
                Some(tcs) => call_items(tcs),
                None => seq![],
            }
        },
        None => seq![],
    }
}

/// The output items of the choices, in order.
pub open spec fn openai_choices_items(cs: Seq<ChatChoiceModel>, id: Seq<char>) -> Seq<ResponsesOutputItemModel>
    decreases cs.len(),
{
    if cs.len() == 0 {
        seq![]
    } else {
        openai_choices_items(cs.drop_last(), id) + openai_choice_items(cs.last(), id)
    }
}

/// The Responses usage of a Chat usage, details carried over as they are.
pub open spec fn openai_usage_of(u: ChatUsageModel) -> ResponsesUsageModel {
    ResponsesUsageModel {
        input_tokens: u.prompt_tokens,
        output_tokens: u.completion_tokens,
        total_tokens: u.total_tokens,
        input_tokens_details: match u.prompt_tokens_details {
            Some(d) => Some(InputTokensDetailsModel { cached_tokens: d.cached_tokens }),
            None => None,
        },
        output_tokens_details: match u.completion_tokens_details {
            Some(d) => Some(OutputTokensDetailsModel { reasoning_tokens: d.reasoning_tokens }),
            None => None,
        },
    }
}

/// The Responses response of a Chat response from an OpenAI-compatible upstream.
pub open spec fn openai_response_spec(chat: ChatCompletionsResponseModel, model: Seq<char>) -> ResponsesResponseModel {
    ResponsesResponseModel {
        id: chat.id,
        object: "response"@,
        output: openai_choices_items(chat.choices, chat.id),
        status: Some("completed"@),
        usage: match chat.usage {
            Some(u) => Some(openai_usage_of(u)),
            None => None,
        },
        model: Some(model),
        incomplete_details: None,
        error: None,
        created_at: Some(chat.created as i64),
        completed_at: None,
    }
}

fn push_choice_items(output: &mut Vec<ResponsesOutputItem>, c: &ChatChoice, id: &String)
    ensures
        items_model(final(output)@) == items_model(old(output)@) + openai_choice_items(c@, id@),
{
    let ghost o0 = items_model(output@);
    if let Some(m) = &c.message {
        let text = chat_content_to_string(&m.content);
        if text.unicode_len() > 0 {
            let status = match &c.finish_reason {
                Some(f) => map_finish_reason_to_status(Some(f.as_str())),
                None => map_finish_reason_to_status(None),
            };
            let mut content: Vec<ResponsesContentPart> = Vec::new();
            content.push(ResponsesContentPart::OutputText { text });
            assert(parts_model(content@) =~= seq![ResponsesContentPartModel::OutputText { text: text@ }]);
            output.push(
                ResponsesOutputItem::Message { id: id.clone(), role: Some(m.role.clone()), content, status: Some(status) },
            );
        }
        let ghost o1 = items_model(output@);
        if let Some(tcs) = &m.tool_calls {
            let ghost t = tcs@.map_values(|tc: ToolCall| tc@);
            let mut i: usize = 0;
            while i < tcs.len()
                invariant
                    i <= tcs.len(),
                    t == tcs@.map_values(|tc: ToolCall| tc@),
                    items_model(output@) == o1 + call_items(t.take(i as int)),
                decreases tcs.len() - i,
            {
                let tc = &tcs[i];
                let ghost prev = output@;
                output.push(
                    ResponsesOutputItem::FunctionCall {
                        id: tc.id.clone(),
                        call_id: tc.id.clone(),
                        name: tc.function.name.clone(),
                        arguments: tc.function.arguments.clone(),
                        status: Some(owned("completed")),
                    },
                );
                proof {
                    assert(t.take(i + 1) =~= t.take(i as int).push(t[i as int]));
                    assert(items_model(output@) =~= items_model(prev).push(items_model(output@).last()));
                    assert(call_items(t.take(i + 1)) =~= call_items(t.take(i as int)).push(call_items(t.take(i + 1)).last()));
                }
                i += 1;
            }
            assert(t.take(tcs.len() as int) =~= t);
        }
        assert(items_model(output@) =~= o0 + openai_choice_items(c@, id@));
    } else {
        assert(items_model(output@) =~= o0 + openai_choice_items(c@, id@));
    }
}

/// Convert a Chat response from an OpenAI-compatible upstream into a
/// Responses response (see [`openai_response_spec`]).
pub fn convert_chat_to_responses_response(chat: &ChatCompletionsResponse, model: &str) -> (r: ResponsesResponse)
    ensures
        r@ == openai_response_spec(chat@, model@),
{
    let ghost cs = chat@.choices;
    let mut output: Vec<ResponsesOutputItem> = Vec::new();
    let mut i: usize = 0;
    while i < chat.choices.len()
        invariant
            i <= chat.choices.len(),
            cs == chat@.choices,
            items_model(output@) == openai_choices_items(cs.take(i as int), chat@.id),
        decreases chat.choices.len() - i,
    {
        proof {
            assert(cs.take(i + 1).drop_last() =~= cs.take(i as int));
            assert(cs.take(i + 1).last() == chat.choices@[i as int]@);
        }
        push_choice_items(&mut output, &chat.choices[i], &chat.id);
        i += 1;
    }
    assert(cs.take(chat.choices.len() as int) =~= cs);
    let usage = match &chat.usage {
        Some(u) => Some(
            ResponsesUsage {
                input_tokens: u.prompt_tokens,
                output_tokens: u.completion_tokens,
                total_tokens: u.total_tokens,
                input_tokens_details: match &u.prompt_tokens_details {
                    Some(d) => Some(InputTokensDetails { cached_tokens: d.cached_tokens }),
                    None => None,
                },
                output_tokens_details: match &u.completion_tokens_details {
                    Some(d) => Some(OutputTokensDetails { reasoning_tokens: d.reasoning_tokens }),
                    None => None,
                },
            },
        ),
        None => None,
    };
    ResponsesResponse {
        id: chat.id.clone(),
        object: owned("response"),
        output,
        status: Some(owned("completed")),
        usage,
        model: Some(owned(model)),
        incomplete_details: None,
        error: None,
        created_at: Some(#[verifier::truncate] (chat.created as i64)),
        completed_at: None,
    }
}

// ===========================================================================
// Chat request to Responses request
// ===========================================================================

/// The Responses part of a Chat part: text and images.
pub open spec fn openai_input_part_of(p: ChatContentPartModel) -> Option<ResponsesContentPartModel> {
    match p {
        ChatContentPartModel::Text { text } => Some(ResponsesContentPartModel::InputText { text }),
        ChatContentPartModel::ImageUrl { image_url } => Some(
            ResponsesContentPartModel::InputImage { image_url: Some(image_url.url), detail: image_url.detail },
        ),
        _ => None,
    }
}

/// The Responses parts of Chat parts, in order.
pub open spec fn openai_input_parts_of(ps: Seq<ChatContentPartModel>) -> Seq<ResponsesContentPartModel>
    decreases ps.len(),
{
    if ps.len() == 0 {
        seq![]
    } else {
        let rest = openai_input_parts_of(ps.drop_last());
        match openai_input_part_of(ps.last()) {
            Some(c) => rest.push(c),
            None => rest,
        }
    }
}

/// The Responses input parts of Chat content (a string is one input text,
/// even when empty).
pub open spec fn responses_parts_spec(content: Option<ChatContentModel>) -> Seq<ResponsesContentPartModel> {
    match content {
        Some(ChatContentModel::String(s)) => seq![ResponsesContentPartModel::InputText { text: s }],
        Some(ChatContentModel::Parts(ps)) => openai_input_parts_of(ps),
        None => seq![],
    }
}

/// Convert Chat content into Responses input parts (see [`responses_parts_spec`]).
pub fn chat_content_to_responses_parts(content: &Option<ChatContent>) -> (r: Vec<ResponsesContentPart>)
    ensures
        parts_model(r@) == responses_parts_spec(content_model(*content)),
{
    match content {
        Some(ChatContent::String(s)) => {
            let mut v: Vec<ResponsesContentPart> = Vec::new();
            v.push(ResponsesContentPart::InputText { text: s.clone() });
            assert(parts_model(v@) =~= seq![ResponsesContentPartModel::InputText { text: s@ }]);
            v
        },
        Some(ChatContent::Parts(parts)) => {
            let ghost ps = parts@.map_values(|p: ChatContentPart| p@);
            let mut v: Vec<ResponsesContentPart> = Vec::new();
            let mut i: usize = 0;
            while i < parts.len()
                invariant
                    i <= parts.len(),
                    ps == parts@.map_values(|p: ChatContentPart| p@),
                    parts_model(v@) == openai_input_parts_of(ps.take(i as int)),
                decreases parts.len() - i,
            {
                proof {
                    assert(ps.take(i + 1).drop_last() =~= ps.take(i as int));
                    assert(ps.take(i + 1).last() == parts@[i as int]@);
                }
                match &parts[i] {
                    ChatContentPart::Text { text } => {
                        v.push(ResponsesContentPart::InputText { text: text.clone() });
                    },
                    ChatContentPart::ImageUrl { image_url } => {
                        v.push(
                            ResponsesContentPart::InputImage {
                                image_url: Some(image_url.url.clone()),
                                detail: image_url.detail.clone(),
                            },
                        );
                    },
                    _ => {},
                }
                assert(parts_model(v@) =~= openai_input_parts_of(ps.take(i + 1)));
                i += 1;
            }
            assert(ps.take(parts.len() as int) =~= ps);
            v
        },
        None => {
            let v: Vec<ResponsesContentPart> = Vec::new();
            assert(parts_model(v@) =~= seq![]);
            v
        },
    }
}

/// The message input item of a Chat message (no content when it has no parts).
pub open spec fn message_input_of(m: ChatMessageModel) -> ResponsesInputItemModel {
    let ps = responses_parts_spec(m.content);
    ResponsesInputItemModel::Message {
        role: m.role,
        content: if ps.len() == 0 {
            None
        } else {
            Some(ps)
        },
        id: None,
        name: m.name,
    }
}

/// Convert a Chat message into a message input item (see [`message_input_of`]).
pub fn chat_message_to_input_item(msg: &ChatMessage) -> (r: ResponsesInputItem)
    ensures
        r@ == message_input_of(msg@),
{
    let parts = chat_content_to_responses_parts(&msg.content);
    ResponsesInputItem::Message {
        role: msg.role.clone(),
        content: if parts.len() == 0 {
            None
        } else {
            Some(parts)
        },
        id: None,
        name: msg.name.clone(),
    }
}

/// A function-call input item (without status) of a tool call.
pub open spec fn openai_call_input(tc: ToolCallModel) -> ResponsesInputItemModel {
    ResponsesInputItemModel::FunctionCall {
        call_id: tc.id,
        name: tc.function.name,
        arguments: tc.function.arguments,
        id: None,
        status: None,
    }
}

/// The input items of Chat messages and the instructions: the first system
/// message is the instructions, later ones and developer messages stay
/// messages; an assistant message gives its text (when non-empty) and its
/// tool calls; a tool message gives a function-call output.
pub open spec fn openai_inputs(ms: Seq<ChatMessageModel>) -> (Seq<ResponsesInputItemModel>, Option<Seq<char>>)
    decreases ms.len(),
{
    if ms.len() == 0 {
        (seq![], None)
    } else {
        let (items, instr) = openai_inputs(ms.drop_last());
        let m = ms.last();
        if m.role == "system"@ {
            if instr is None {
                (items, Some(chat_content_text(m.content)))
            } else {
                (items.push(message_input_of(m)), instr)
            }
        } else if m.role == "assistant"@ {
            let text = chat_content_text(m.content);
            let ps = responses_parts_spec(m.content);
            let head = if text.len() > 0 {
                seq![
                    ResponsesInputItemModel::Message {
                        role: "assistant"@,
                        content: if ps.len() == 0 {
                            None
                        } else {
                            Some(ps)
                        },
                        id: None,
                        name: m.name,
                    },
                ]
            } else {
                seq![]
            };
            let calls = match m.tool_calls {
                Some(tcs) => tcs.map_values(|tc: ToolCallModel| openai_call_input(tc)),
                None => seq![],
            };
            (items + head + calls, instr)
        } else if m.role == "tool"@ {
            (
                items.push(
                    ResponsesInputItemModel::FunctionCallOutput {
                        call_id: match m.tool_call_id {
                            Some(c) => c,
                            None => seq![],
                        },
                        output: chat_content_text(m.content),
                        id: None,
                        status: None,
                    },
                ),
                instr,
            )
        } else {
            (items.push(message_input_of(m)), instr)
        }
    }
}

/// The Responses request of a Chat request (OpenAI-compatible client).
pub open spec fn openai_responses_request_spec(chat: ChatCompletionsRequestModel) -> ResponsesRequestModel {
    let (items, instr) = openai_inputs(chat.messages);
    ResponsesRequestModel {
        model: chat.model,
        input: Some(items),
        instructions: instr,
        stream: chat.stream,
        max_output_tokens: if chat.max_completion_tokens is Some {
            chat.max_completion_tokens
        } else {
            chat.max_tokens
        },
        temperature: chat.temperature,
        top_p: chat.top_p,
        tools: match chat.tools {
            Some(ts) => Some(
                ts.map_values(
                    |t: ChatToolModel|
                        ResponsesToolModel {
                            tool_type: t.tool_type,
                            function: Some(
                                FunctionDefinitionModel {
                                    name: t.function.name,
                                    description: t.function.description,
                                    parameters: t.function.parameters,
                                },
                            ),
                            name: None,
                            description: None,
                            parameters: None,
                            strict: None,
                        },
                ),
            ),
            None => None,
        },
        tool_choice: chat.tool_choice,
        reasoning: match chat.reasoning_effort {
            Some(e) => Some(ReasoningConfigModel { effort: Some(e), summary: None }),
            None => None,
        },
        text: match chat.response_format {
            Some(rf) => Some(TextConfigModel { format: Some(text_format_of(rf)) }),
            None => None,
        },
        truncation: None,
        store: chat.store,
        metadata: chat.metadata,
        previous_response_id: None,
        session_id: None,
        user: chat.user,
        service_tier: chat.service_tier,
        parallel_tool_calls: chat.parallel_tool_calls,
        top_logprobs: chat.top_logprobs,
        frequency_penalty: chat.frequency_penalty,
        presence_penalty: chat.presence_penalty,
    }
}

fn push_item(v: &mut Vec<ResponsesInputItem>, x: ResponsesInputItem)
    ensures
        inputs_model(final(v)@) == inputs_model(old(v)@).push(x@),
{
    v.push(x);
    assert(inputs_model(v@) =~= inputs_model(old(v)@).push(x@));
}

fn push_assistant_items(input: &mut Vec<ResponsesInputItem>, m: &ChatMessage)
    ensures
        ({
            let text = chat_content_text(m@.content);
            let ps = responses_parts_spec(m@.content);
            let head = if text.len() > 0 {
                seq![
                    ResponsesInputItemModel::Message {
                        role: "assistant"@,
                        content: if ps.len() == 0 {
                            None
                        } else {
                            Some(ps)
                        },
                        id: None,
                        name: m@.name,
                    },
                ]
            } else {
                seq![]
            };
            let calls = match m@.tool_calls {
                Some(tcs) => tcs.map_values(|tc: ToolCallModel| openai_call_input(tc)),
                None => seq![],
            };
            inputs_model(final(input)@) == inputs_model(old(input)@) + head + calls
        }),
{
    let ghost i0 = inputs_model(input@);
    let text = chat_content_to_string(&m.content);
    let parts = chat_content_to_responses_parts(&m.content);
    if text.unicode_len() > 0 {
        push_item(
            input,
            ResponsesInputItem::Message {
                role: owned("assistant"),
                content: if parts.len() == 0 {
                    None
                } else {
                    Some(parts)
                },
                id: None,
                name: m.name.clone(),
            },
        );
    }
    let ghost i1 = inputs_model(input@);
    if let Some(tcs) = &m.tool_calls {
        let ghost t = tcs@.map_values(|tc: ToolCall| tc@);
        let mut i: usize = 0;
        while i < tcs.len()
            invariant
                i <= tcs.len(),
                t == tcs@.map_values(|tc: ToolCall| tc@),
                inputs_model(input@) == i1 + t.take(i as int).map_values(|tc: ToolCallModel| openai_call_input(tc)),
            decreases tcs.len() - i,
        {
            let tc = &tcs[i];
            let x = ResponsesInputItem::FunctionCall {
                call_id: tc.id.clone(),
                name: tc.function.name.clone(),
                arguments: tc.function.arguments.clone(),
                id: None,
                status: None,
            };
            push_item(input, x);
            proof {
                assert(t[i as int] == tc@);
                assert(x@ == openai_call_input(t[i as int]));
                assert(t.take(i + 1) =~= t.take(i as int).push(t[i as int]));
                assert(t.take(i + 1).map_values(|tc: ToolCallModel| openai_call_input(tc)) =~= t.take(
                    i as int,
                ).map_values(|tc: ToolCallModel| openai_call_input(tc)).push(openai_call_input(t[i as int])));
                assert(inputs_model(input@) =~= i1 + t.take(i + 1).map_values(
                    |tc: ToolCallModel| openai_call_input(tc),
                ));
            }
            i += 1;
        }
        assert(t.take(tcs.len() as int) =~= t);
    } else {
        assert(i1 + seq![] =~= i1);
    }
}

/// Convert a Chat request into a Responses request (see
/// [`openai_responses_request_spec`]).
pub fn convert_chat_to_responses(chat: &ChatCompletionsRequest) -> (r: ResponsesRequest)
    ensures
        r@ == openai_responses_request_spec(chat@),
{
    let ghost ms = messages_model(chat.messages@);
    let mut input: Vec<ResponsesInputItem> = Vec::new();
    let mut instructions: Option<String> = None;
    let mut i: usize = 0;
    while i < chat.messages.len()
        invariant
            i <= chat.messages.len(),
            ms == messages_model(chat.messages@),
            (inputs_model(input@), opt_seq(instructions)) == openai_inputs(ms.take(i as int)),
        decreases chat.messages.len() - i,
    {
        let m = &chat.messages[i];
        proof {
            assert(ms.take(i + 1).drop_last() =~= ms.take(i as int));
            assert(ms.take(i + 1).last() == m@);
        }
        let ghost i0 = inputs_model(input@);
        let role = m.role.as_str();
        if str_eq(role, "system") {
            if instructions.is_none() {
                instructions = Some(chat_content_to_string(&m.content));
            } else {
                push_item(&mut input, chat_message_to_input_item(m));
            }
        } else if str_eq(role, "assistant") {
            push_assistant_items(&mut input, m);
        } else if str_eq(role, "tool") {
            let call_id = match &m.tool_call_id {
                Some(c) => c.clone(),
                None => String::new(),
            };
            push_item(
                &mut input,
                ResponsesInputItem::FunctionCallOutput {
                    call_id,
                    output: chat_content_to_string(&m.content),
                    id: None,
                    status: None,
                },
            );
        } else {
            push_item(&mut input, chat_message_to_input_item(m));
        }
        i += 1;
    }
    assert(ms.take(chat.messages.len() as int) =~= ms);
    let tools = match &chat.tools {
        Some(cts) => {
            let mut out: Vec<ResponsesTool> = Vec::new();
            let mut j: usize = 0;
            while j < cts.len()
                invariant
                    j <= cts.len(),
                    out@.len() == j,
                    forall|k: int|
                        0 <= k < j ==> (#[trigger] out@[k])@ == (ResponsesToolModel {
                            tool_type: cts@[k]@.tool_type,
                            function: Some(
                                FunctionDefinitionModel {
                                    name: cts@[k]@.function.name,
                                    description: cts@[k]@.function.description,
                                    parameters: cts@[k]@.function.parameters,
                                },
                            ),
                            name: None,
                            description: None,
                            parameters: None,
                            strict: None,
                        }),
                decreases cts.len() - j,
            {
                let ct = &cts[j];
                out.push(
                    ResponsesTool {
                        tool_type: ct.tool_type.clone(),
                        function: Some(
                            FunctionDefinition {
                                name: ct.function.name.clone(),
                                description: ct.function.description.clone(),
                                parameters: ct.function.parameters.clone(),
                            },
                        ),
                        name: None,
                        description: None,
                        parameters: None,
                        strict: None,
                    },
                );
                j += 1;
            }
            Some(out)
        },
        None => None,
    };
    proof {
        if let Some(cts) = &chat.tools {
            if let Some(out) = &tools {
                assert(out@.map_values(|x: ResponsesTool| x@) =~= cts@.map_values(|t: ChatTool| t@).map_values(
                    |t: ChatToolModel|
                        ResponsesToolModel {
                            tool_type: t.tool_type,
                            function: Some(
                                FunctionDefinitionModel {
                                    name: t.function.name,
                                    description: t.function.description,
                                    parameters: t.function.parameters,
                                },
                            ),
                            name: None,
                            description: None,
                            parameters: None,
                            strict: None,
                        },
                ));
            }
        }
    }
    let text = match &chat.response_format {
        Some(rf) => Some(TextConfig { format: Some(text_format(rf)) }),
        None => None,
    };
    let reasoning = match &chat.reasoning_effort {
        Some(e) => Some(ReasoningConfig { effort: Some(e.clone()), summary: None }),
        None => None,
    };
    ResponsesRequest {
        model: chat.model.clone(),
        input: Some(input),
        instructions: match instructions {
            Some(t) => Some(Instructions(t)),
            None => None,
        },
        stream: chat.stream,
        max_output_tokens: if chat.max_completion_tokens.is_some() {
            chat.max_completion_tokens
        } else {
            chat.max_tokens
        },
        temperature: chat.temperature.clone(),
        top_p: chat.top_p.clone(),
        tools,
        tool_choice: chat.tool_choice.clone(),
        reasoning,
        text,
        truncation: None,
        store: chat.store,
        metadata: chat.metadata.clone(),
        previous_response_id: None,
        session_id: None,
        user: chat.user.clone(),
        service_tier: chat.service_tier.clone(),
        parallel_tool_calls: chat.parallel_tool_calls,
        top_logprobs: chat.top_logprobs,
        frequency_penalty: chat.frequency_penalty.clone(),
        presence_penalty: chat.presence_penalty.clone(),
    }
}

// ===========================================================================
// Responses response to Chat response
// ===========================================================================

/// The text of any content part that has one (see [`part_text`]).
pub fn extract_text_from_content_part(part: &ResponsesContentPart) -> (r: Option<String>)
    ensures
        opt_seq(r) == part_text(part@),
{
    match part {
        ResponsesContentPart::InputText { text }
        | ResponsesContentPart::OutputText { text }
        | ResponsesContentPart::Text { text } => Some(text.clone()),
        ResponsesContentPart::ToolResult { output, .. } => Some(output.clone()),
        _ => None,
    }
}

/// The role of the last message item that has one, else `assistant`.
pub open spec fn openai_role(items: Seq<ResponsesOutputItemModel>) -> Seq<char>
    decreases items.len(),
{
    if items.len() == 0 {
        "assistant"@
    } else {
        match items.last() {
            ResponsesOutputItemModel::Message { role: Some(r), .. } => r,
            _ => openai_role(items.drop_last()),
        }
    }
}

/// The finish reason of the last message item that has a status, else `stop`.
pub open spec fn openai_finish(items: Seq<ResponsesOutputItemModel>) -> Seq<char>
    decreases items.len(),
{
    if items.len() == 0 {
        "stop"@
    } else {
        match items.last() {
            ResponsesOutputItemModel::Message { status: Some(st), .. } => status_finish_spec(st),
            _ => openai_finish(items.drop_last()),
        }
    }
}

/// The texts of the message items' parts, in order.
pub open spec fn openai_texts(items: Seq<ResponsesOutputItemModel>) -> Seq<Seq<char>>
    decreases items.len(),
{
    if items.len() == 0 {
        seq![]
    } else {
        openai_texts(items.drop_last()) + match items.last() {
            ResponsesOutputItemModel::Message { content, .. } => part_texts(content),
            _ => seq![],
        }
    }
}

/// The tool calls of the function-call items (the call id is the id).
pub open spec fn openai_calls(items: Seq<ResponsesOutputItemModel>) -> Seq<ToolCallModel>
    decreases items.len(),
{
    if items.len() == 0 {
        seq![]
    } else {
        let rest = openai_calls(items.drop_last());
        match items.last() {
            ResponsesOutputItemModel::FunctionCall { call_id, name, arguments, .. } => rest.push(
                ToolCallModel { id: call_id, tool_type: "function"@, function: FunctionCallModel { name, arguments }, index: None },
            ),
            _ => rest,
        }
    }
}

/// The text and output-text parts of reasoning contents, run together.
pub open spec fn reasoning_parts_text(ps: Seq<ResponsesContentPartModel>) -> Seq<char>
    decreases ps.len(),
{
    if ps.len() == 0 {
        seq![]
    } else {
        reasoning_parts_text(ps.drop_last()) + match ps.last() {
            ResponsesContentPartModel::Text { text } => text,
            ResponsesContentPartModel::OutputText { text } => text,
            _ => seq![],
        }
    }
}

/// The reasoning text of the reasoning items' contents, run together.
pub open spec fn openai_reasoning(items: Seq<ResponsesOutputItemModel>) -> Seq<char>
    decreases items.len(),
{
    if items.len() == 0 {
        seq![]
    } else {
        openai_reasoning(items.drop_last()) + match items.last() {
            ResponsesOutputItemModel::Reasoning { content: Some(ps), .. } => reasoning_parts_text(ps),
            _ => seq![],
        }
    }
}

/// Chat content of texts: none, one string, or one text part each.
pub open spec fn texts_content(ts: Seq<Seq<char>>) -> Option<ChatContentModel> {
    if ts.len() == 0 {
        None
    } else if ts.len() == 1 {
        Some(ChatContentModel::String(ts[0]))
    } else {
        Some(ChatContentModel::Parts(ts.map_values(|t: Seq<char>| ChatContentPartModel::Text { text: t })))
    }
}

/// The Chat response of a Responses response for an OpenAI-compatible client.
pub open spec fn openai_chat_response_spec(r: ResponsesResponseModel, model: Seq<char>) -> ChatCompletionsResponseModel {
    let calls = openai_calls(r.output);
    let reasoning = openai_reasoning(r.output);
    let message = ChatMessageModel {
        role: openai_role(r.output),
        content: texts_content(openai_texts(r.output)),
        name: None,
        tool_calls: if calls.len() == 0 {
            None
        } else {
            Some(calls)
        },
        tool_call_id: None,
        refusal: None,
        reasoning_content: if reasoning.len() == 0 {
            None
        } else {
            Some(reasoning)
        },
    };
    ChatCompletionsResponseModel {
        id: r.id,
        object: "chat.completion"@,
        created: (match r.created_at {
            Some(c) => c,
            None => 0,
        }) as u64,
        model,
        choices: seq![
            ChatChoiceModel {
                index: 0,
                message: Some(message),
                delta: None,
                finish_reason: Some(openai_finish(r.output)),
                logprobs: None,
            },
        ],
        usage: match r.usage {
            Some(u) => Some(
                ChatUsageModel {
                    prompt_tokens: u.input_tokens,
                    completion_tokens: u.output_tokens,
                    total_tokens: u.total_tokens,
                    prompt_tokens_details: match u.input_tokens_details {
                        Some(d) => Some(PromptTokensDetailsModel { cached_tokens: d.cached_tokens }),
                        None => None,
                    },
                    completion_tokens_details: match u.output_tokens_details {
                        Some(d) => Some(CompletionTokensDetailsModel { reasoning_tokens: d.reasoning_tokens }),
                        None => None,
                    },
                },
            ),
            None => None,
        },
        system_fingerprint: None,
    }
}

fn append_part_texts(texts: &mut Vec<String>, parts: &Vec<ResponsesContentPart>)
    ensures
        final(texts)@.map_values(|s: String| s@) == old(texts)@.map_values(|s: String| s@) + part_texts(
            parts_model(parts@),
        ),
{
    let ghost ps = parts_model(parts@);
    let ghost t0 = texts@.map_values(|s: String| s@);
    let mut i: usize = 0;
    while i < parts.len()
        invariant
            i <= parts.len(),
            ps == parts_model(parts@),
            texts@.map_values(|s: String| s@) == t0 + part_texts(ps.take(i as int)),
        decreases parts.len() - i,
    {
        proof {
            assert(ps.take(i + 1).drop_last() =~= ps.take(i as int));
            assert(ps.take(i + 1).last() == parts@[i as int]@);
        }
        let ghost prev = texts@;
        if let Some(t) = extract_text_from_content_part(&parts[i]) {
            texts.push(t);
            assert(texts@.map_values(|s: String| s@) =~= prev.map_values(|s: String| s@).push(t@));
        }
        assert(texts@.map_values(|s: String| s@) =~= t0 + part_texts(ps.take(i + 1)));
        i += 1;
    }
    assert(ps.take(parts.len() as int) =~= ps);
}

fn append_reasoning(text: &mut String, parts: &Vec<ResponsesContentPart>)
    ensures
        final(text)@ == old(text)@ + reasoning_parts_text(parts_model(parts@)),
{
    let ghost ps = parts_model(parts@);
    let ghost t0 = text@;
    let mut i: usize = 0;
    while i < parts.len()
        invariant
            i <= parts.len(),
            ps == parts_model(parts@),
            text@ == t0 + reasoning_parts_text(ps.take(i as int)),
        decreases parts.len() - i,
    {
        proof {
            assert(ps.take(i + 1).drop_last() =~= ps.take(i as int));
            assert(ps.take(i + 1).last() == parts@[i as int]@);
        }
        match &parts[i] {
            ResponsesContentPart::Text { text: t } | ResponsesContentPart::OutputText { text: t } => {
                text.append(t.as_str());
            },
            _ => {},
        }
        assert(text@ =~= t0 + reasoning_parts_text(ps.take(i + 1)));
        i += 1;
    }
    assert(ps.take(parts.len() as int) =~= ps);
}

/// Convert a Responses response into a Chat response for an
/// OpenAI-compatible client (see [`openai_chat_response_spec`]).
pub fn convert_responses_to_chat_response(responses: &ResponsesResponse, model: &str) -> (r: ChatCompletionsResponse)
    ensures
        r@ == openai_chat_response_spec(responses@, model@),
{
    let ghost items = items_model(responses.output@);
    let mut texts: Vec<String> = Vec::new();
    let mut calls: Vec<ToolCall> = Vec::new();
    let mut reasoning = String::new();
    let mut role = owned("assistant");
    let mut finish = owned("stop");
    let mut i: usize = 0;
    while i < responses.output.len()
        invariant
            i <= responses.output.len(),
            items == items_model(responses.output@),
            texts@.map_values(|s: String| s@) == openai_texts(items.take(i as int)),
            calls@.map_values(|t: ToolCall| t@) == openai_calls(items.take(i as int)),
            reasoning@ == openai_reasoning(items.take(i as int)),
            role@ == openai_role(items.take(i as int)),
            finish@ == openai_finish(items.take(i as int)),
        decreases responses.output.len() - i,
    {
        proof {
            assert(items.take(i + 1).drop_last() =~= items.take(i as int));
            assert(items.take(i + 1).last() == responses.output@[i as int]@);
        }
        match &responses.output[i] {
            ResponsesOutputItem::Message { role: item_role, content, status, .. } => {
                if let Some(r) = item_role {
                    role = r.clone();
                }
                append_part_texts(&mut texts, content);
                if let Some(st) = status {
                    finish = map_status_to_finish_reason(st.as_str());
                }
            },
            ResponsesOutputItem::FunctionCall { call_id, name, arguments, .. } => {
                calls.push(
                    ToolCall {
                        id: call_id.clone(),
                        tool_type: owned("function"),
                        function: FunctionCall { name: name.clone(), arguments: arguments.clone() },
                        index: None,
                    },
                );
            },
            ResponsesOutputItem::Reasoning { content, .. } => {
                if let Some(parts) = content {
                    append_reasoning(&mut reasoning, parts);
                }
            },
        }
        assert(texts@.map_values(|s: String| s@) =~= openai_texts(items.take(i + 1)));
        assert(calls@.map_values(|t: ToolCall| t@) =~= openai_calls(items.take(i + 1)));
        assert(reasoning@ =~= openai_reasoning(items.take(i + 1)));
        i += 1;
    }
    assert(items.take(responses.output.len() as int) =~= items);
    let content = if texts.len() == 0 {
        None
    } else if texts.len() == 1 {
        Some(ChatContent::String(texts[0].clone()))
    } else {
        let ghost ts = texts@.map_values(|s: String| s@);
        let mut ps: Vec<ChatContentPart> = Vec::new();
        let mut j: usize = 0;
        while j < texts.len()
            invariant
                j <= texts.len(),
                ts == texts@.map_values(|s: String| s@),
                ps@.map_values(|c: ChatContentPart| c@) == ts.take(j as int).map_values(
                    |t: Seq<char>| ChatContentPartModel::Text { text: t },
                ),
            decreases texts.len() - j,
        {
            let ghost prev = ps@;
            ps.push(ChatContentPart::Text { text: texts[j].clone() });
            proof {
                assert(ts[j as int] == texts@[j as int]@);
                assert(ps@.map_values(|c: ChatContentPart| c@) =~= prev.map_values(|c: ChatContentPart| c@).push(
                    ChatContentPartModel::Text { text: ts[j as int] },
                ));
                assert(ts.take(j + 1) =~= ts.take(j as int).push(ts[j as int]));
                assert(ps@.map_values(|c: ChatContentPart| c@) =~= ts.take(j + 1).map_values(
                    |t: Seq<char>| ChatContentPartModel::Text { text: t },
                ));
            }
            j += 1;
        }
        assert(ts.take(texts.len() as int) =~= ts);
        Some(ChatContent::Parts(ps))
    };
    let no_calls = calls.len() == 0;
    let no_reasoning = reasoning.unicode_len() == 0;
    let message = ChatMessage {
        role,
        content,
        name: None,
        tool_calls: if no_calls {
            None
        } else {
            Some(calls)
        },
        tool_call_id: None,
        refusal: None,
        reasoning_content: if no_reasoning {
            None
        } else {
            Some(reasoning)
        },
    };
    let usage = match &responses.usage {
        Some(u) => Some(
            ChatUsage {
                prompt_tokens: u.input_tokens,
                completion_tokens: u.output_tokens,
                total_tokens: u.total_tokens,
                prompt_tokens_details: match &u.input_tokens_details {
                    Some(d) => Some(PromptTokensDetails { cached_tokens: d.cached_tokens }),
                    None => None,
                },
                completion_tokens_details: match &u.output_tokens_details {
                    Some(d) => Some(CompletionTokensDetails { reasoning_tokens: d.reasoning_tokens }),
                    None => None,
                },
            },
        ),
        None => None,
    };
    let created = match responses.created_at {
        Some(c) => c,
        None => 0,
    };
    let choice = ChatChoice { index: 0, message: Some(message), delta: None, finish_reason: Some(finish), logprobs: None };
    let mut choices: Vec<ChatChoice> = Vec::new();
    choices.push(choice);
    assert(choices@.map_values(|c: ChatChoice| c@) =~= seq![choice@]);
    ChatCompletionsResponse {
        id: responses.id.clone(),
        object: owned("chat.completion"),
        created: #[verifier::truncate] (created as u64),
        model: owned(model),
        choices,
        usage,
        system_fingerprint: None,
    }
}


// ===========================================================================
// Laws: limits and statuses carried across
// ===========================================================================

/// The client's output-token limit reaches an OpenAI-compatible upstream as
/// `max_completion_tokens` (and `max_tokens` is left unset), together with
/// the request's model and stream flag.
pub proof fn law_output_limit_carried(r: ResponsesRequestModel)
    ensures
        openai_request_spec(r).max_completion_tokens == r.max_output_tokens,
        openai_request_spec(r).max_tokens is None,
        openai_request_spec(r).model == r.model,
        openai_request_spec(r).stream == r.stream,
{
}

proof fn lemma_first_choice_items(cs: Seq<ChatChoiceModel>, id: Seq<char>)
    requires
        cs.len() > 0,
    ensures
        openai_choices_items(cs, id).len() >= openai_choice_items(cs[0], id).len(),
        forall|i: int|
            0 <= i < openai_choice_items(cs[0], id).len() ==> openai_choices_items(cs, id)[i]
                == #[trigger] openai_choice_items(cs[0], id)[i],
    decreases cs.len(),
{
    let first = openai_choice_items(cs[0], id);
    if cs.len() == 1 {
        assert(cs.drop_last() =~= Seq::<ChatChoiceModel>::empty());
        assert(openai_choices_items(cs.drop_last(), id) =~= Seq::<ResponsesOutputItemModel>::empty());
        assert(cs.last() == cs[0]);
        assert(openai_choices_items(cs, id) =~= first);
    } else {
        lemma_first_choice_items(cs.drop_last(), id);
        assert(cs.drop_last()[0] == cs[0]);
        let prev = openai_choices_items(cs.drop_last(), id);
        assert forall|i: int| 0 <= i < first.len() implies openai_choices_items(cs, id)[i] == #[trigger] first[i] by {
            assert(openai_choices_items(cs, id)[i] == prev[i]);
        }
    }
}

/// The message item of the first choice with text is `incomplete` when the
/// choice stopped at the token limit (`length`) or was filtered
/// (`content_filter`), and `completed` when it stopped otherwise or gave no
/// reason.
pub proof fn law_message_status_of_finish_reason(chat: ChatCompletionsResponseModel, model: Seq<char>)
    requires
        chat.choices.len() > 0,
        chat.choices[0].message matches Some(m) && chat_content_text(m.content).len() > 0,
    ensures
        ({
            let out = openai_response_spec(chat, model).output;
            let reason = chat.choices[0].finish_reason;
            &&& out.len() > 0
            &&& out[0] matches ResponsesOutputItemModel::Message { status, .. } && status == Some(
                if reason == Some("length"@) || reason == Some("content_filter"@) {
                    "incomplete"@
                } else {
                    "completed"@
                },
            )
        }),
{
    lemma_first_choice_items(chat.choices, chat.id);
    let first = openai_choice_items(chat.choices[0], chat.id);
    assert(first.len() > 0);
    assert(openai_response_spec(chat, model).output[0] == first[0]);
}

} // verus!
