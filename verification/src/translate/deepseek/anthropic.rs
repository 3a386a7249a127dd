//! DeepSeek plan B: Responses API <-> Anthropic Messages API translation.
//!
//! - Consecutive `FunctionCall` items become one assistant message with
//!   several `tool_use` blocks; consecutive `FunctionCallOutput` items become
//!   one user message with several `tool_result` blocks.
//! - The `developer` role becomes `assistant`.
//! - `instructions` become a system prompt made of one text block.
//! - `reasoning.effort` becomes a thinking budget (default: thinking disabled),
//!   and `max_tokens` is raised above the budget when needed.
//! - The messages are sanitised so that the Anthropic API accepts them.

use vstd::prelude::*;
use crate::text::{spec_is_whitespace, chars_of, concat, concat3, contains, contains_string, decimal, find_char, first_index_of, has_prefix, lemma_first_occurrence_from, occurs_at, owned, push_char, starts_with, str_eq, string_from, string_seqs, strip_suffix_all, trim, trim_end, trim_end_matches, trim_start, trim_str, u64_to_decimal};
use crate::json::{opt_seq, parse_json, spec_parse_json};
use crate::types::anthropic::{AnthropicContentBlock, AnthropicContentBlockModel, AnthropicImageSource, AnthropicImageSourceModel, AnthropicMessage, AnthropicMessageContent, AnthropicMessageContentModel, AnthropicMessageModel, AnthropicRequest, AnthropicRequestModel, AnthropicResponse, AnthropicResponseModel, AnthropicSystem, AnthropicSystemModel, AnthropicTextBlock, AnthropicTextBlockModel, AnthropicThinkingConfig, AnthropicThinkingConfigModel, AnthropicTool, AnthropicToolChoice, AnthropicToolChoiceModel, AnthropicToolModel, AnthropicToolResultContent, AnthropicToolResultContentModel};
use crate::types::responses::{FunctionDefinitionModel, InputTokensDetails, InputTokensDetailsModel, ReasoningConfig, ResponsesContentPart, ResponsesContentPartModel, ResponsesInputItem, ResponsesInputItemModel, ResponsesOutputItem, ResponsesOutputItemModel, ResponsesRequest, ResponsesRequestModel, ResponsesResponse, ResponsesResponseModel, ResponsesTool, ResponsesToolModel, ResponsesUsage, ResponsesUsageModel, parts_model, tool_function};

verus! {

broadcast use vstd::seq_lib::group_seq_properties;

// ===========================================================================
// Specification: roles, content parts, images
// ===========================================================================

/// Responses roles as Anthropic roles: `developer` becomes `assistant`.
pub open spec fn map_role_spec(role: Seq<char>) -> Seq<char> {
    if role == "developer"@ {
        "assistant"@
    } else {
        role
    }
}

/// The image block for a `data:` URL (`data:<media type>[;base64],<data>`);
/// other URLs give no block.
pub open spec fn image_block_spec(url: Seq<char>) -> Option<AnthropicContentBlockModel> {
    if has_prefix(url, "data:"@) {
        match first_index_of(url, ',') {
            Some(c) => Some(
                AnthropicContentBlockModel::Image {
                    source: AnthropicImageSourceModel {
                        source_type: "base64"@,
                        media_type: strip_suffix_all(url.subrange(5, c), ";base64"@),
                        data: url.subrange(c + 1, url.len() as int),
                    },
                },
            ),
            None => None,
        }
    } else {
        None
    }
}

/// The Anthropic block for a Responses content part: text parts become text
/// blocks, `data:` images become image blocks, everything else is dropped.
pub open spec fn content_part_block(p: ResponsesContentPartModel) -> Option<AnthropicContentBlockModel> {
    match p {
        ResponsesContentPartModel::InputText { text } => Some(
            AnthropicContentBlockModel::Text { text, cache_control: None },
        ),
        ResponsesContentPartModel::Text { text } => Some(
            AnthropicContentBlockModel::Text { text, cache_control: None },
        ),
        ResponsesContentPartModel::OutputText { text } => Some(
            AnthropicContentBlockModel::Text { text, cache_control: None },
        ),
        ResponsesContentPartModel::InputImage { image_url, .. } => match image_url {
            Some(u) => image_block_spec(u),
            None => None,
        },
        ResponsesContentPartModel::ImageUrl { url, .. } => image_block_spec(url),
        _ => None,
    }
}

/// The blocks of the parts that have one, in order.
pub open spec fn content_blocks(parts: Seq<ResponsesContentPartModel>) -> Seq<AnthropicContentBlockModel>
    decreases parts.len(),
{
    if parts.len() == 0 {
        seq![]
    } else {
        let r = content_blocks(parts.drop_last());
        match content_part_block(parts.last()) {
            Some(b) => r.push(b),
            None => r,
        }
    }
}

/// The blocks of optional message content.
pub open spec fn message_content_blocks(c: Option<Seq<ResponsesContentPartModel>>) -> Seq<AnthropicContentBlockModel> {
    match c {
        Some(p) => content_blocks(p),
        None => seq![],
    }
}

/// The JSON input of a tool call: the arguments as parsed and re-serialised
/// by `serde_json`, or an empty object when they are not JSON.
pub open spec fn tool_use_input(arguments: Seq<char>) -> Seq<char> {
    match spec_parse_json(arguments) {
        Some(d) => d.canonical,
        None => "{}"@,
    }
}

/// The `tool_use` block of a function call.
pub open spec fn tool_use_block_spec(id: Seq<char>, name: Seq<char>, arguments: Seq<char>) -> AnthropicContentBlockModel {
    AnthropicContentBlockModel::ToolUse { id, name, input: tool_use_input(arguments) }
}

// ===========================================================================
// Specification: grouping input items into messages
// ===========================================================================

/// A run of consecutive function calls or function-call outputs that is
/// still waiting to become a message.
pub enum PendingGroupModel {
    /// `(call_id, name, arguments)` of each call.
    Calls(Seq<(Seq<char>, Seq<char>, Seq<char>)>),
    /// `(call_id, output)` of each output.
    Outputs(Seq<(Seq<char>, Seq<char>)>),
}

/// The tool-result block of a function-call output.
pub open spec fn tool_result_block_spec(id: Seq<char>, output: Seq<char>) -> AnthropicContentBlockModel {
    AnthropicContentBlockModel::ToolResult {
        tool_use_id: id,
        content: AnthropicToolResultContentModel::String(output),
        is_error: None,
    }
}

/// The tool-use blocks of a run of calls.
pub open spec fn call_blocks(cs: Seq<(Seq<char>, Seq<char>, Seq<char>)>) -> Seq<AnthropicContentBlockModel> {
    cs.map_values(|c: (Seq<char>, Seq<char>, Seq<char>)| tool_use_block_spec(c.0, c.1, c.2))
}

/// The tool-result blocks of a run of outputs.
pub open spec fn output_blocks(os: Seq<(Seq<char>, Seq<char>)>) -> Seq<AnthropicContentBlockModel> {
    os.map_values(|o: (Seq<char>, Seq<char>)| tool_result_block_spec(o.0, o.1))
}

/// The message (if any) that a pending run becomes: calls become one
/// assistant message, outputs one user message.
pub open spec fn flush_spec(p: Option<PendingGroupModel>) -> Seq<AnthropicMessageModel> {
    match p {
        None => seq![],
        Some(PendingGroupModel::Calls(cs)) => seq![
            AnthropicMessageModel {
                role: "assistant"@,
                content: AnthropicMessageContentModel::Blocks(call_blocks(cs)),
            },
        ],
        Some(PendingGroupModel::Outputs(os)) => seq![
            AnthropicMessageModel {
                role: "user"@,
                content: AnthropicMessageContentModel::Blocks(output_blocks(os)),
            },
        ],
    }
}

/// One step of the grouping: the messages so far and the pending run, after
/// reading one more input item.
pub open spec fn build_step(
    msgs: Seq<AnthropicMessageModel>,
    p: Option<PendingGroupModel>,
    item: ResponsesInputItemModel,
) -> (Seq<AnthropicMessageModel>, Option<PendingGroupModel>) {
    match item {
        ResponsesInputItemModel::Message { role, content, .. } => (
            msgs + flush_spec(p) + seq![
                AnthropicMessageModel {
                    role: map_role_spec(role),
                    content: AnthropicMessageContentModel::Blocks(message_content_blocks(content)),
                },
            ],
            None,
        ),
        ResponsesInputItemModel::FunctionCall { call_id, name, arguments, .. } => match p {
            Some(PendingGroupModel::Calls(cs)) => (
                msgs,
                Some(PendingGroupModel::Calls(cs.push((call_id, name, arguments)))),
            ),
            _ => (msgs + flush_spec(p), Some(PendingGroupModel::Calls(seq![(call_id, name, arguments)]))),
        },
        ResponsesInputItemModel::FunctionCallOutput { call_id, output, .. } => match p {
            Some(PendingGroupModel::Outputs(os)) => (
                msgs,
                Some(PendingGroupModel::Outputs(os.push((call_id, output)))),
            ),
            _ => (msgs + flush_spec(p), Some(PendingGroupModel::Outputs(seq![(call_id, output)]))),
        },
    }
}

/// The grouping state after reading all `items`.
pub open spec fn build_state(items: Seq<ResponsesInputItemModel>) -> (Seq<AnthropicMessageModel>, Option<PendingGroupModel>)
    decreases items.len(),
{
    if items.len() == 0 {
        (seq![], None)
    } else {
        let prev = build_state(items.drop_last());
        build_step(prev.0, prev.1, items.last())
    }
}

/// The Anthropic messages for a list of Responses input items, before
/// sanitisation.
pub open spec fn build_messages_spec(items: Seq<ResponsesInputItemModel>) -> Seq<AnthropicMessageModel> {
    build_state(items).0 + flush_spec(build_state(items).1)
}

/// Models of a sequence of messages.
pub open spec fn msgs_model(v: Seq<AnthropicMessage>) -> Seq<AnthropicMessageModel> {
    v.map_values(|m: AnthropicMessage| m@)
}

/// Models of a sequence of input items.
pub open spec fn items_model(v: Seq<ResponsesInputItem>) -> Seq<ResponsesInputItemModel> {
    v.map_values(|m: ResponsesInputItem| m@)
}

/// Models of a sequence of blocks.
pub open spec fn blocks_model(v: Seq<AnthropicContentBlock>) -> Seq<AnthropicContentBlockModel> {
    v.map_values(|m: AnthropicContentBlock| m@)
}

// ===========================================================================
// Implementation: roles, content parts, images
// ===========================================================================

/// Map Responses API roles to Anthropic roles.
fn map_role(role: &str) -> (r: String)
    ensures
        r@ == map_role_spec(role@),
{
    if str_eq(role, "developer") {
        owned("assistant")
    } else {
        owned(role)
    }
}

/// Convert a `data:` URL to an image block; other URLs give none.
fn convert_image_url(url: &str) -> (r: Option<AnthropicContentBlock>)
    ensures
        match r {
            Some(b) => image_block_spec(url@) == Some(b@),
            None => image_block_spec(url@) is None,
        },
{
    if !starts_with(url, "data:") {
        return None;
    }
    let v = chars_of(url);
    let n = v.len();
    match find_char(&v, ',') {
        None => None,
        Some(c) => {
            proof {
                reveal_strlit("data:");
                lemma_first_occurrence_from(url@, seq![','], 0);
                assert(occurs_at(v@, seq![','], c as int));
                assert(v@[c as int] == ',') by {
                    assert(v@.subrange(c as int, c + 1)[0] == ',');
                }
                if c < 5 {
                    assert(url@.subrange(0, 5)[c as int] == "data:"@[c as int]);
                }
            }
            let header = string_from(&v, 5, c);
            let media_type = trim_end_matches(header.as_str(), ";base64");
            let data = string_from(&v, c + 1, n);
            Some(
                AnthropicContentBlock::Image {
                    source: AnthropicImageSource {
                        source_type: owned("base64"),
                        media_type,
                        data,
                    },
                },
            )
        },
    }
}

/// The Anthropic block of one content part.
fn convert_content_part(part: &ResponsesContentPart) -> (r: Option<AnthropicContentBlock>)
    ensures
        match r {
            Some(b) => content_part_block(part@) == Some(b@),
            None => content_part_block(part@) is None,
        },
{
    match part {
        ResponsesContentPart::InputText { text }
        | ResponsesContentPart::Text { text }
        | ResponsesContentPart::OutputText { text } => Some(
            AnthropicContentBlock::Text { text: text.clone(), cache_control: None },
        ),
        ResponsesContentPart::InputImage { image_url, .. } => match image_url {
            Some(url) => convert_image_url(url.as_str()),
            None => None,
        },
        ResponsesContentPart::ImageUrl { url, .. } => convert_image_url(url.as_str()),
        _ => None,
    }
}

/// Convert optional message content into Anthropic blocks.
fn convert_message_content(content: &Option<Vec<ResponsesContentPart>>) -> (r: Vec<AnthropicContentBlock>)
    ensures
        blocks_model(r@) == message_content_blocks(
            match content {
                Some(v) => Some(parts_model(v@)),
                None => None,
            },
        ),
{
    match content {
        None => Vec::new(),
        Some(parts) => {
            let ghost ps = parts_model(parts@);
            let mut out: Vec<AnthropicContentBlock> = Vec::new();
            let mut i: usize = 0;
            while i < parts.len()
                invariant
                    i <= parts.len(),
                    ps == parts_model(parts@),
                    blocks_model(out@) == content_blocks(ps.take(i as int)),
                decreases parts.len() - i,
            {
                proof {
                    assert(ps.take(i + 1).drop_last() =~= ps.take(i as int));
                }
                match convert_content_part(&parts[i]) {
                    Some(b) => {
                        out.push(b);
                        assert(blocks_model(out@) =~= content_blocks(ps.take(i + 1)));
                    },
                    None => {},
                }
                i += 1;
            }
            assert(ps.take(parts.len() as int) =~= ps);
            out
        },
    }
}

/// Build a `tool_use` content block for an assistant message. The
/// arguments are parsed as JSON; when they are not JSON the input is an
/// empty object.
pub fn build_tool_use_block(call_id: String, name: String, arguments: String) -> (r: AnthropicContentBlock)
    ensures
        r@ == tool_use_block_spec(call_id@, name@, arguments@),
{
    let input = match parse_json(arguments.as_str()) {
        Some(d) => d.canonical,
        None => owned("{}"),
    };
    AnthropicContentBlock::ToolUse { id: call_id, name, input }
}

// ===========================================================================
// Implementation: grouping input items into messages
// ===========================================================================

/// Tracks consecutive `FunctionCall` / `FunctionCallOutput` items so they
/// can be merged into a single message.
enum PendingGroup {
    /// `(call_id, name, arguments)` of each call.
    FunctionCalls(Vec<(String, String, String)>),
    /// `(call_id, output)` of each output.
    FunctionCallOutputs(Vec<(String, String)>),
}

impl View for PendingGroup {
    type V = PendingGroupModel;

    closed spec fn view(&self) -> PendingGroupModel {
        match self {
            PendingGroup::FunctionCalls(v) => PendingGroupModel::Calls(
                v@.map_values(|t: (String, String, String)| (t.0@, t.1@, t.2@)),
            ),
            PendingGroup::FunctionCallOutputs(v) => PendingGroupModel::Outputs(
                v@.map_values(|t: (String, String)| (t.0@, t.1@)),
            ),
        }
    }
}

/// The model of an optional pending run.
spec fn pending_model(p: Option<PendingGroup>) -> Option<PendingGroupModel> {
    match p {
        Some(g) => Some(g@),
        None => None,
    }
}

/// Flush the pending group into `messages` as one message.
fn flush_pending(pending: &mut Option<PendingGroup>, messages: &mut Vec<AnthropicMessage>)
    ensures
        *final(pending) is None,
        msgs_model(final(messages)@) == msgs_model(old(messages)@) + flush_spec(pending_model(*old(pending))),
{
    let taken = pending.take();
    match taken {
        Some(PendingGroup::FunctionCalls(calls)) => {
            let ghost cs = calls@.map_values(|t: (String, String, String)| (t.0@, t.1@, t.2@));
            let mut blocks: Vec<AnthropicContentBlock> = Vec::new();
            let mut i: usize = 0;
            while i < calls.len()
                invariant
                    i <= calls.len(),
                    cs == calls@.map_values(|t: (String, String, String)| (t.0@, t.1@, t.2@)),
                    blocks@.len() == i,
                    forall|k: int| 0 <= k < i ==> #[trigger] blocks@[k]@ == tool_use_block_spec(cs[k].0, cs[k].1, cs[k].2),
                decreases calls.len() - i,
            {
                let id = calls[i].0.clone();
                let name = calls[i].1.clone();
                let args = calls[i].2.clone();
                blocks.push(build_tool_use_block(id, name, args));
                i += 1;
            }
            assert(blocks_model(blocks@) =~= call_blocks(cs));
            let ghost before = msgs_model(messages@);
            messages.push(
                AnthropicMessage {
                    role: owned("assistant"),
                    content: AnthropicMessageContent::Blocks(blocks),
                },
            );
            assert(msgs_model(messages@) =~= before + flush_spec(pending_model(taken)));
        },
        Some(PendingGroup::FunctionCallOutputs(outputs)) => {
            let ghost os = outputs@.map_values(|t: (String, String)| (t.0@, t.1@));
            let mut blocks: Vec<AnthropicContentBlock> = Vec::new();
            let mut i: usize = 0;
            while i < outputs.len()
                invariant
                    i <= outputs.len(),
                    os == outputs@.map_values(|t: (String, String)| (t.0@, t.1@)),
                    blocks@.len() == i,
                    forall|k: int| 0 <= k < i ==> #[trigger] blocks@[k]@ == tool_result_block_spec(os[k].0, os[k].1),
                decreases outputs.len() - i,
            {
                blocks.push(
                    AnthropicContentBlock::ToolResult {
                        tool_use_id: outputs[i].0.clone(),
                        content: AnthropicToolResultContent::String(outputs[i].1.clone()),
                        is_error: None,
                    },
                );
                i += 1;
            }
            assert(blocks_model(blocks@) =~= output_blocks(os));
            let ghost before = msgs_model(messages@);
            messages.push(
                AnthropicMessage {
                    role: owned("user"),
                    content: AnthropicMessageContent::Blocks(blocks),
                },
            );
            assert(msgs_model(messages@) =~= before + flush_spec(pending_model(taken)));
        },
        None => {
            assert(msgs_model(messages@) =~= msgs_model(messages@) + flush_spec(pending_model(taken)));
        },
    }
}

/// Build the Anthropic messages for Responses input items, merging
/// consecutive `FunctionCall` / `FunctionCallOutput` items.
pub(crate) fn build_anthropic_messages(items: &[ResponsesInputItem]) -> (r: Vec<AnthropicMessage>)
    ensures
        msgs_model(r@) == build_messages_spec(items_model(items@)),
{
    let ghost its = items_model(items@);
    let mut messages: Vec<AnthropicMessage> = Vec::new();
    let mut pending: Option<PendingGroup> = None;
    let mut i: usize = 0;
    while i < items.len()
        invariant
            i <= items.len(),
            its == items_model(items@),
            (msgs_model(messages@), pending_model(pending)) == build_state(its.take(i as int)),
        decreases items.len() - i,
    {
        proof {
            assert(its.take(i + 1).drop_last() =~= its.take(i as int));
            assert(its.take(i + 1).last() == items@[i as int]@);
        }
        match &items[i] {
            ResponsesInputItem::Message { role, content, .. } => {
                flush_pending(&mut pending, &mut messages);
                let mapped_role = map_role(role.as_str());
                let blocks = convert_message_content(content);
                let ghost before = msgs_model(messages@);
                messages.push(
                    AnthropicMessage {
                        role: mapped_role,
                        content: AnthropicMessageContent::Blocks(blocks),
                    },
                );
                assert(msgs_model(messages@) =~= before + seq![messages@.last()@]);
            },
            ResponsesInputItem::FunctionCall { call_id, name, arguments, .. } => {
                let entry = (call_id.clone(), name.clone(), arguments.clone());
                let ghost t = (call_id@, name@, arguments@);
                let extend = match &pending {
                    Some(PendingGroup::FunctionCalls(_)) => true,
                    _ => false,
                };
                if extend {
                    if let Some(PendingGroup::FunctionCalls(mut calls)) = pending.take() {
                        let ghost before = calls@.map_values(|t: (String, String, String)| (t.0@, t.1@, t.2@));
                        calls.push(entry);
                        assert(calls@.map_values(|t: (String, String, String)| (t.0@, t.1@, t.2@)) =~= before.push(t));
                        pending = Some(PendingGroup::FunctionCalls(calls));
                    }
                } else {
                    flush_pending(&mut pending, &mut messages);
                    let mut calls: Vec<(String, String, String)> = Vec::new();
                    calls.push(entry);
                    assert(calls@.map_values(|t: (String, String, String)| (t.0@, t.1@, t.2@)) =~= seq![t]);
                    pending = Some(PendingGroup::FunctionCalls(calls));
                }
            },
            ResponsesInputItem::FunctionCallOutput { call_id, output, .. } => {
                let entry = (call_id.clone(), output.clone());
                let ghost t = (call_id@, output@);
                let extend = match &pending {
                    Some(PendingGroup::FunctionCallOutputs(_)) => true,
                    _ => false,
                };
                if extend {
                    if let Some(PendingGroup::FunctionCallOutputs(mut outputs)) = pending.take() {
                        let ghost before = outputs@.map_values(|t: (String, String)| (t.0@, t.1@));
                        outputs.push(entry);
                        assert(outputs@.map_values(|t: (String, String)| (t.0@, t.1@)) =~= before.push(t));
                        pending = Some(PendingGroup::FunctionCallOutputs(outputs));
                    }
                } else {
                    flush_pending(&mut pending, &mut messages);
                    let mut outputs: Vec<(String, String)> = Vec::new();
                    outputs.push(entry);
                    assert(outputs@.map_values(|t: (String, String)| (t.0@, t.1@)) =~= seq![t]);
                    pending = Some(PendingGroup::FunctionCallOutputs(outputs));
                }
            },
        }
        i += 1;
    }
    assert(its.take(items.len() as int) =~= its);
    flush_pending(&mut pending, &mut messages);
    messages
}

// ===========================================================================
// Specification: sanitisation
// ===========================================================================

/// `source` merged into `target` (both of the same role): blocks are
/// concatenated, a string becomes a text block, two strings are joined by a
/// line break. The role of `target` is kept.
pub open spec fn merge_spec(target: AnthropicMessageModel, source: AnthropicMessageModel) -> AnthropicMessageModel {
    AnthropicMessageModel {
        role: target.role,
        content: match (target.content, source.content) {
            (
                AnthropicMessageContentModel::Blocks(tb),
                AnthropicMessageContentModel::Blocks(sb),
            ) => AnthropicMessageContentModel::Blocks(tb + sb),
            (
                AnthropicMessageContentModel::Blocks(tb),
                AnthropicMessageContentModel::String(x),
            ) => AnthropicMessageContentModel::Blocks(
                tb.push(AnthropicContentBlockModel::Text { text: x, cache_control: None }),
            ),
            (
                AnthropicMessageContentModel::String(a),
                AnthropicMessageContentModel::String(b),
            ) => AnthropicMessageContentModel::String(a.push('\n') + b),
            (
                AnthropicMessageContentModel::String(a),
                AnthropicMessageContentModel::Blocks(sb),
            ) => AnthropicMessageContentModel::Blocks(
                seq![AnthropicContentBlockModel::Text { text: a, cache_control: None }] + sb,
            ),
        },
    }
}

/// Step 2: consecutive messages with the same role merged into one.
pub open spec fn merge_same_role(ms: Seq<AnthropicMessageModel>) -> Seq<AnthropicMessageModel>
    decreases ms.len(),
{
    if ms.len() == 0 {
        seq![]
    } else {
        let acc = merge_same_role(ms.drop_last());
        let m = ms.last();
        if acc.len() > 0 && acc.last().role == m.role {
            acc.drop_last().push(merge_spec(acc.last(), m))
        } else {
            acc.push(m)
        }
    }
}

/// Whether message content is empty: a blank string or no blocks.
pub open spec fn content_is_empty(c: AnthropicMessageContentModel) -> bool {
    match c {
        AnthropicMessageContentModel::String(s) => trim(s).len() == 0,
        AnthropicMessageContentModel::Blocks(b) => b.len() == 0,
    }
}

/// Step 1: the messages whose content is not empty.
pub open spec fn drop_empty(ms: Seq<AnthropicMessageModel>) -> Seq<AnthropicMessageModel>
    decreases ms.len(),
{
    if ms.len() == 0 {
        seq![]
    } else {
        let r = drop_empty(ms.drop_last());
        if content_is_empty(ms.last().content) {
            r
        } else {
            r.push(ms.last())
        }
    }
}

/// The message appended when a conversation would end with the assistant.
pub open spec fn continue_message() -> AnthropicMessageModel {
    AnthropicMessageModel {
        role: "user"@,
        content: AnthropicMessageContentModel::String("Please continue."@),
    }
}

/// Step 3: a user message appended when the last message is the assistant's.
pub open spec fn end_with_user(ms: Seq<AnthropicMessageModel>) -> Seq<AnthropicMessageModel> {
    if ms.len() > 0 && ms.last().role == "assistant"@ {
        ms.push(continue_message())
    } else {
        ms
    }
}

/// The ids of the `tool_use` blocks, in order.
pub open spec fn block_tool_use_ids(bs: Seq<AnthropicContentBlockModel>) -> Seq<Seq<char>>
    decreases bs.len(),
{
    if bs.len() == 0 {
        seq![]
    } else {
        let r = block_tool_use_ids(bs.drop_last());
        match bs.last() {
            AnthropicContentBlockModel::ToolUse { id, .. } => r.push(id),
            _ => r,
        }
    }
}

/// The `tool_use_id`s of the `tool_result` blocks, in order.
pub open spec fn block_tool_result_ids(bs: Seq<AnthropicContentBlockModel>) -> Seq<Seq<char>>
    decreases bs.len(),
{
    if bs.len() == 0 {
        seq![]
    } else {
        let r = block_tool_result_ids(bs.drop_last());
        match bs.last() {
            AnthropicContentBlockModel::ToolResult { tool_use_id, .. } => r.push(tool_use_id),
            _ => r,
        }
    }
}

/// The ids of the tool calls of a message.
pub open spec fn tool_use_ids_spec(m: AnthropicMessageModel) -> Seq<Seq<char>> {
    match m.content {
        AnthropicMessageContentModel::Blocks(bs) => block_tool_use_ids(bs),
        _ => seq![],
    }
}

/// The ids answered by the tool results of a message.
pub open spec fn tool_result_ids_spec(m: AnthropicMessageModel) -> Seq<Seq<char>> {
    match m.content {
        AnthropicMessageContentModel::Blocks(bs) => block_tool_result_ids(bs),
        _ => seq![],
    }
}

/// Whether `next` is a user message answering every id of `ids`.
pub open spec fn answers(next: AnthropicMessageModel, ids: Seq<Seq<char>>) -> bool {
    next.role == "user"@ && forall|k: int| 0 <= k < ids.len() ==> tool_result_ids_spec(next).contains(#[trigger] ids[k])
}

/// The error result standing in for a missing tool result.
pub open spec fn placeholder_result(id: Seq<char>) -> AnthropicContentBlockModel {
    AnthropicContentBlockModel::ToolResult {
        tool_use_id: id,
        content: AnthropicToolResultContentModel::String(seq![]),
        is_error: Some(true),
    }
}

/// A user message of empty error results for `ids`.
pub open spec fn placeholder_spec(ids: Seq<Seq<char>>) -> AnthropicMessageModel {
    AnthropicMessageModel {
        role: "user"@,
        content: AnthropicMessageContentModel::Blocks(ids.map_values(|id: Seq<char>| placeholder_result(id))),
    }
}

/// Step 4: every message with tool calls is followed by a user message
/// answering all of them; where the next message does not, a user message
/// in its place is dropped and placeholder results are inserted.
pub open spec fn repair(ms: Seq<AnthropicMessageModel>) -> Seq<AnthropicMessageModel>
    decreases ms.len(),
{
    if ms.len() == 0 {
        seq![]
    } else {
        let m = ms[0];
        let ids = tool_use_ids_spec(m);
        let rest = ms.drop_first();
        if ids.len() == 0 || (rest.len() > 0 && answers(rest[0], ids)) {
            seq![m] + repair(rest)
        } else {
            let rest2 = if rest.len() > 0 && rest[0].role == "user"@ {
                rest.drop_first()
            } else {
                rest
            };
            seq![m, placeholder_spec(ids)] + repair(rest2)
        }
    }
}

/// Messages post-processed so that the Anthropic API accepts them.
pub open spec fn sanitize_spec(ms: Seq<AnthropicMessageModel>) -> Seq<AnthropicMessageModel> {
    if ms.len() == 0 {
        ms
    } else {
        repair(end_with_user(merge_same_role(drop_empty(ms))))
    }
}

// ===========================================================================
// Implementation: sanitisation
// ===========================================================================

/// Merge `source` into `target`; both are assumed to have the same role.
fn merge_message_into(target: AnthropicMessage, source: AnthropicMessage) -> (r: AnthropicMessage)
    ensures
        r@ == merge_spec(target@, source@),
{
    let AnthropicMessage { role, content } = target;
    let content = match (content, source.content) {
        (AnthropicMessageContent::Blocks(tb), AnthropicMessageContent::Blocks(sb)) => {
            let mut tb = tb;
            let mut sb = sb;
            let ghost a = blocks_model(tb@);
            let ghost b = blocks_model(sb@);
            tb.append(&mut sb);
            assert(blocks_model(tb@) =~= a + b);
            AnthropicMessageContent::Blocks(tb)
        },
        (AnthropicMessageContent::Blocks(tb), AnthropicMessageContent::String(x)) => {
            let mut tb = tb;
            let ghost a = blocks_model(tb@);
            let ghost xs = x@;
            tb.push(AnthropicContentBlock::Text { text: x, cache_control: None });
            assert(blocks_model(tb@) =~= a.push(
                AnthropicContentBlockModel::Text { text: xs, cache_control: None },
            ));
            AnthropicMessageContent::Blocks(tb)
        },
        (AnthropicMessageContent::String(a), AnthropicMessageContent::String(b)) => {
            let mut a = a;
            push_char(&mut a, '\n');
            a.append(b.as_str());
            AnthropicMessageContent::String(a)
        },
        (AnthropicMessageContent::String(a), AnthropicMessageContent::Blocks(sb)) => {
            let mut v: Vec<AnthropicContentBlock> = Vec::new();
            let ghost xs = a@;
            v.push(AnthropicContentBlock::Text { text: a, cache_control: None });
            let mut sb = sb;
            let ghost b = blocks_model(sb@);
            v.append(&mut sb);
            assert(blocks_model(v@) =~= seq![
                AnthropicContentBlockModel::Text { text: xs, cache_control: None },
            ] + b);
            AnthropicMessageContent::Blocks(v)
        },
    };
    AnthropicMessage { role, content }
}

/// Whether message content is empty: a blank string or no blocks.
fn is_empty_content(content: &AnthropicMessageContent) -> (r: bool)
    ensures
        r == content_is_empty(content@),
{
    match content {
        AnthropicMessageContent::String(s) => trim_str(s.as_str()).as_str().is_empty(),
        AnthropicMessageContent::Blocks(blocks) => blocks.len() == 0,
    }
}

/// The ids of the `tool_use` blocks of a message.
fn extract_tool_use_ids(msg: &AnthropicMessage) -> (r: Vec<String>)
    ensures
        string_seqs(r@) == tool_use_ids_spec(msg@),
{
    match &msg.content {
        AnthropicMessageContent::Blocks(blocks) => {
            let ghost bs = blocks_model(blocks@);
            let mut ids: Vec<String> = Vec::new();
            let mut i: usize = 0;
            while i < blocks.len()
                invariant
                    i <= blocks.len(),
                    bs == blocks_model(blocks@),
                    string_seqs(ids@) == block_tool_use_ids(bs.take(i as int)),
                decreases blocks.len() - i,
            {
                proof {
                    assert(bs.take(i + 1).drop_last() =~= bs.take(i as int));
                }
                if let AnthropicContentBlock::ToolUse { id, .. } = &blocks[i] {
                    ids.push(id.clone());
                }
                i += 1;
                assert(string_seqs(ids@) =~= block_tool_use_ids(bs.take(i as int)));
            }
            assert(bs.take(blocks.len() as int) =~= bs);
            ids
        },
        _ => {
            let ids: Vec<String> = Vec::new();
            assert(string_seqs(ids@) =~= seq![]);
            ids
        },
    }
}

/// The ids answered by the `tool_result` blocks of a message.
fn extract_tool_result_ids(msg: &AnthropicMessage) -> (r: Vec<String>)
    ensures
        string_seqs(r@) == tool_result_ids_spec(msg@),
{
    match &msg.content {
        AnthropicMessageContent::Blocks(blocks) => {
            let ghost bs = blocks_model(blocks@);
            let mut ids: Vec<String> = Vec::new();
            let mut i: usize = 0;
            while i < blocks.len()
                invariant
                    i <= blocks.len(),
                    bs == blocks_model(blocks@),
                    string_seqs(ids@) == block_tool_result_ids(bs.take(i as int)),
                decreases blocks.len() - i,
            {
                proof {
                    assert(bs.take(i + 1).drop_last() =~= bs.take(i as int));
                }
                if let AnthropicContentBlock::ToolResult { tool_use_id, .. } = &blocks[i] {
                    ids.push(tool_use_id.clone());
                }
                i += 1;
                assert(string_seqs(ids@) =~= block_tool_result_ids(bs.take(i as int)));
            }
            assert(bs.take(blocks.len() as int) =~= bs);
            ids
        },
        _ => {
            let ids: Vec<String> = Vec::new();
            assert(string_seqs(ids@) =~= seq![]);
            ids
        },
    }
}

/// Whether `next` is a user message answering every id of `ids`.
fn answers_all(next: &AnthropicMessage, ids: &Vec<String>) -> (r: bool)
    ensures
        r == answers(next@, string_seqs(ids@)),
{
    if !str_eq(next.role.as_str(), "user") {
        return false;
    }
    let results = extract_tool_result_ids(next);
    let mut i: usize = 0;
    while i < ids.len()
        invariant
            i <= ids.len(),
            string_seqs(results@) == tool_result_ids_spec(next@),
            forall|k: int| 0 <= k < i ==> tool_result_ids_spec(next@).contains(#[trigger] string_seqs(ids@)[k]),
        decreases ids.len() - i,
    {
        if !contains_string(&results, ids[i].as_str()) {
            assert(string_seqs(ids@)[i as int] == ids@[i as int]@);
            assert(!tool_result_ids_spec(next@).contains(string_seqs(ids@)[i as int]));
            return false;
        }
        i += 1;
    }
    true
}

/// A user message of empty error results for `ids`.
fn placeholder_message(ids: Vec<String>) -> (r: AnthropicMessage)
    ensures
        r@ == placeholder_spec(string_seqs(ids@)),
{
    let ghost is = string_seqs(ids@);
    let mut blocks: Vec<AnthropicContentBlock> = Vec::new();
    let mut i: usize = 0;
    while i < ids.len()
        invariant
            i <= ids.len(),
            is == string_seqs(ids@),
            blocks@.len() == i,
            forall|k: int| 0 <= k < i ==> #[trigger] blocks@[k]@ == placeholder_result(is[k]),
        decreases ids.len() - i,
    {
        blocks.push(
            AnthropicContentBlock::ToolResult {
                tool_use_id: ids[i].clone(),
                content: AnthropicToolResultContent::String(String::new()),
                is_error: Some(true),
            },
        );
        i += 1;
    }
    assert(blocks_model(blocks@) =~= is.map_values(|id: Seq<char>| placeholder_result(id)));
    AnthropicMessage { role: owned("user"), content: AnthropicMessageContent::Blocks(blocks) }
}

/// Step 2 of the sanitisation.
fn merge_consecutive(messages: &Vec<AnthropicMessage>) -> (r: Vec<AnthropicMessage>)
    ensures
        msgs_model(r@) == merge_same_role(msgs_model(messages@)),
{
    let ghost ms = msgs_model(messages@);
    let mut merged: Vec<AnthropicMessage> = Vec::new();
    let mut i: usize = 0;
    while i < messages.len()
        invariant
            i <= messages.len(),
            ms == msgs_model(messages@),
            msgs_model(merged@) == merge_same_role(ms.take(i as int)),
        decreases messages.len() - i,
    {
        proof {
            assert(ms.take(i + 1).drop_last() =~= ms.take(i as int));
        }
        let msg = messages[i].clone();
        let same = merged.len() > 0 && str_eq(merged[merged.len() - 1].role.as_str(), msg.role.as_str());
        if same {
            let ghost before = msgs_model(merged@);
            let last = merged.pop().unwrap();
            assert(msgs_model(merged@) =~= before.drop_last());
            let m = merge_message_into(last, msg);
            merged.push(m);
            assert(msgs_model(merged@) =~= merge_same_role(ms.take(i + 1)));
        } else {
            let ghost before = msgs_model(merged@);
            merged.push(msg);
            assert(msgs_model(merged@) =~= merge_same_role(ms.take(i + 1)));
        }
        i += 1;
    }
    assert(ms.take(messages.len() as int) =~= ms);
    merged
}

/// Step 1 of the sanitisation.
fn remove_empty(messages: &Vec<AnthropicMessage>) -> (r: Vec<AnthropicMessage>)
    ensures
        msgs_model(r@) == drop_empty(msgs_model(messages@)),
{
    let ghost ms = msgs_model(messages@);
    let mut kept: Vec<AnthropicMessage> = Vec::new();
    let mut i: usize = 0;
    while i < messages.len()
        invariant
            i <= messages.len(),
            ms == msgs_model(messages@),
            msgs_model(kept@) == drop_empty(ms.take(i as int)),
        decreases messages.len() - i,
    {
        proof {
            assert(ms.take(i + 1).drop_last() =~= ms.take(i as int));
        }
        if !is_empty_content(&messages[i].content) {
            kept.push(messages[i].clone());
        }
        i += 1;
        assert(msgs_model(kept@) =~= drop_empty(ms.take(i as int)));
    }
    assert(ms.take(messages.len() as int) =~= ms);
    kept
}

/// Step 4 of the sanitisation.
#[verifier::spinoff_prover]
#[verifier::rlimit(80)]
fn repair_tool_results(ms: &Vec<AnthropicMessage>) -> (r: Vec<AnthropicMessage>)
    ensures
        msgs_model(r@) == repair(msgs_model(ms@)),
{
    let ghost all = msgs_model(ms@);
    let n = ms.len();
    let mut repaired: Vec<AnthropicMessage> = Vec::new();
    let mut i: usize = 0;
    assert(all.subrange(0, n as int) =~= all);
    while i < n
        invariant
            i <= n == ms.len(),
            all == msgs_model(ms@),
            repair(all) == msgs_model(repaired@) + repair(all.subrange(i as int, n as int)),
        decreases n - i,
    {
        let ghost cur = all.subrange(i as int, n as int);
        let ghost before = msgs_model(repaired@);
        assert(cur[0] == ms@[i as int]@);
        assert(cur.drop_first() =~= all.subrange(i + 1, n as int));
        let ids = extract_tool_use_ids(&ms[i]);
        repaired.push(ms[i].clone());
        i += 1;
        if ids.len() > 0 {
            let valid = i < n && answers_all(&ms[i], &ids);
            if valid {
                assert(cur.drop_first()[0] == ms@[i as int]@);
                assert(msgs_model(repaired@) =~= before + seq![cur[0]]);
            } else {
                let skip = i < n && str_eq(ms[i].role.as_str(), "user");
                if skip {
                    assert(cur.drop_first()[0] == ms@[i as int]@);
                    assert(cur.drop_first().drop_first() =~= all.subrange(i + 1, n as int));
                    i += 1;
                }
                let ghost ids_model = string_seqs(ids@);
                repaired.push(placeholder_message(ids));
                assert(msgs_model(repaired@) =~= before + seq![cur[0], placeholder_spec(ids_model)]);
            }
        } else {
            assert(msgs_model(repaired@) =~= before + seq![cur[0]]);
        }
    }
    assert(msgs_model(repaired@) + repair(all.subrange(n as int, n as int)) =~= msgs_model(repaired@));
    repaired
}

/// Post-process messages so that the Anthropic API accepts them:
///
/// 1. messages with empty content are removed;
/// 2. consecutive messages with the same role are merged;
/// 3. a conversation that ends with the assistant gets a closing user
///    message;
/// 4. every message with `tool_use` blocks is followed by a user message
///    with matching `tool_result` blocks (placeholders are inserted where
///    needed).
pub(crate) fn sanitize_anthropic_messages(messages: Vec<AnthropicMessage>) -> (r: Vec<AnthropicMessage>)
    ensures
        msgs_model(r@) == sanitize_spec(msgs_model(messages@)),
{
    if messages.len() == 0 {
        return messages;
    }
    let non_empty = remove_empty(&messages);
    let mut kept = merge_consecutive(&non_empty);
    let ends_with_assistant = kept.len() > 0 && str_eq(kept[kept.len() - 1].role.as_str(), "assistant");
    if ends_with_assistant {
        let ghost before = msgs_model(kept@);
        kept.push(
            AnthropicMessage {
                role: owned("user"),
                content: AnthropicMessageContent::String(owned("Please continue.")),
            },
        );
        assert(msgs_model(kept@) =~= before.push(continue_message()));
    }
    repair_tool_results(&kept)
}

// ===========================================================================
// Specification: the request
// ===========================================================================

/// The thinking configuration for a reasoning effort: `low`, `medium` and
/// `high` enable thinking with a budget of 1024, 4096 and 8192 tokens;
/// anything else disables it.
pub open spec fn thinking_for_effort(effort: Option<Seq<char>>) -> AnthropicThinkingConfigModel {
    match effort {
        Some(e) => if e == "low"@ {
            AnthropicThinkingConfigModel::Enabled { budget_tokens: 1024 }
        } else if e == "medium"@ {
            AnthropicThinkingConfigModel::Enabled { budget_tokens: 4096 }
        } else if e == "high"@ {
            AnthropicThinkingConfigModel::Enabled { budget_tokens: 8192 }
        } else {
            AnthropicThinkingConfigModel::Disabled
        },
        None => AnthropicThinkingConfigModel::Disabled,
    }
}

/// The reasoning effort of a request.
pub open spec fn request_effort(r: ResponsesRequestModel) -> Option<Seq<char>> {
    match r.reasoning {
        Some(rc) => rc.effort,
        None => None,
    }
}

/// The thinking budget of a configuration (0 when thinking is off).
pub open spec fn thinking_budget(t: Option<AnthropicThinkingConfigModel>) -> u32 {
    match t {
        Some(AnthropicThinkingConfigModel::Enabled { budget_tokens }) => budget_tokens,
        _ => 0,
    }
}

/// `max_tokens`: the requested maximum (default 4096), raised to the budget
/// plus 4096 when thinking is on and the maximum does not exceed the budget.
pub open spec fn max_tokens_spec(max_output_tokens: Option<u32>, budget: u32) -> u32 {
    let m = match max_output_tokens {
        Some(m) => m,
        None => 4096,
    };
    if budget > 0 && m <= budget {
        (budget + 4096) as u32
    } else {
        m
    }
}

/// The Anthropic tool for a function definition; a missing schema becomes
/// an empty object.
pub open spec fn anthropic_tool_spec(f: FunctionDefinitionModel) -> AnthropicToolModel {
    AnthropicToolModel {
        name: f.name,
        description: f.description,
        input_schema: match f.parameters {
            Some(p) => p,
            None => "{}"@,
        },
        cache_control: None,
    }
}

/// The Anthropic tools for the tools that define a function.
pub open spec fn anthropic_tools_spec(tools: Seq<ResponsesToolModel>) -> Seq<AnthropicToolModel>
    decreases tools.len(),
{
    if tools.len() == 0 {
        seq![]
    } else {
        let r = anthropic_tools_spec(tools.drop_last());
        match tool_function(tools.last()) {
            Some(f) => r.push(anthropic_tool_spec(f)),
            None => r,
        }
    }
}

/// The Anthropic tool choice for a Responses `tool_choice` (JSON text): the
/// string `auto` gives `Auto`, `required` or `any` give `Any`, an object with
/// `function.name` names that tool; anything else gives none.
pub open spec fn tool_choice_spec(tc: Option<Seq<char>>) -> Option<AnthropicToolChoiceModel> {
    match tc {
        Some(t) => match spec_parse_json(t) {
            Some(d) => if d.as_str == Some("auto"@) {
                Some(AnthropicToolChoiceModel::Auto)
            } else if d.as_str == Some("required"@) || d.as_str == Some("any"@) {
                Some(AnthropicToolChoiceModel::Any)
            } else {
                match d.function_name {
                    Some(n) => Some(AnthropicToolChoiceModel::Tool { name: n }),
                    None => None,
                }
            },
            None => None,
        },
        None => None,
    }
}

/// The system prompt for the instructions: one text block.
pub open spec fn system_spec(inst: Option<Seq<char>>) -> Option<AnthropicSystemModel> {
    match inst {
        Some(t) => Some(
            AnthropicSystemModel::Blocks(
                seq![AnthropicTextBlockModel { block_type: "text"@, text: t, cache_control: None }],
            ),
        ),
        None => None,
    }
}

/// The Anthropic request for a Responses request.
pub open spec fn responses_to_anthropic_spec(r: ResponsesRequestModel) -> AnthropicRequestModel {
    let thinking = thinking_for_effort(request_effort(r));
    AnthropicRequestModel {
        model: r.model,
        messages: sanitize_spec(
            build_messages_spec(
                match r.input {
                    Some(i) => i,
                    None => seq![],
                },
            ),
        ),
        system: system_spec(r.instructions),
        max_tokens: max_tokens_spec(r.max_output_tokens, thinking_budget(Some(thinking))),
        metadata: r.metadata,
        stop_sequences: None,
        stream: r.stream,
        temperature: r.temperature,
        top_p: r.top_p,
        top_k: None,
        tools: match r.tools {
            Some(ts) => Some(anthropic_tools_spec(ts)),
            None => None,
        },
        tool_choice: tool_choice_spec(r.tool_choice),
        thinking: Some(thinking),
    }
}

// ===========================================================================
// Implementation: the request
// ===========================================================================

/// The Anthropic tool choice for a Responses `tool_choice`.
pub(crate) fn map_tool_choice(tc: &Option<String>) -> (r: Option<AnthropicToolChoice>)
    ensures
        match r {
            Some(c) => tool_choice_spec(opt_seq(*tc)) == Some(c@),
            None => tool_choice_spec(opt_seq(*tc)) is None,
        },
{
    match tc {
        None => None,
        Some(t) => match parse_json(t.as_str()) {
            None => None,
            Some(d) => {
                let is_auto = match &d.as_str {
                    Some(s) => str_eq(s.as_str(), "auto"),
                    None => false,
                };
                let is_any = match &d.as_str {
                    Some(s) => str_eq(s.as_str(), "required") || str_eq(s.as_str(), "any"),
                    None => false,
                };
                if is_auto {
                    Some(AnthropicToolChoice::Auto)
                } else if is_any {
                    Some(AnthropicToolChoice::Any)
                } else {
                    match d.function_name {
                        Some(n) => Some(AnthropicToolChoice::Tool { name: n }),
                        None => None,
                    }
                }
            },
        },
    }
}

/// The Anthropic tools for the tools of a request.
fn convert_tools(tools: &Vec<ResponsesTool>) -> (r: Vec<AnthropicTool>)
    ensures
        r@.map_values(|t: AnthropicTool| t@) == anthropic_tools_spec(tools@.map_values(|t: ResponsesTool| t@)),
{
    let ghost ts = tools@.map_values(|t: ResponsesTool| t@);
    let mut out: Vec<AnthropicTool> = Vec::new();
    let mut i: usize = 0;
    while i < tools.len()
        invariant
            i <= tools.len(),
            ts == tools@.map_values(|t: ResponsesTool| t@),
            out@.map_values(|t: AnthropicTool| t@) == anthropic_tools_spec(ts.take(i as int)),
        decreases tools.len() - i,
    {
        proof {
            assert(ts.take(i + 1).drop_last() =~= ts.take(i as int));
        }
        match tools[i].get_function() {
            Some(f) => {
                let input_schema = match f.parameters {
                    Some(p) => p,
                    None => owned("{}"),
                };
                out.push(
                    AnthropicTool {
                        name: f.name,
                        description: f.description,
                        input_schema,
                        cache_control: None,
                    },
                );
            },
            None => {},
        }
        i += 1;
        assert(out@.map_values(|t: AnthropicTool| t@) =~= anthropic_tools_spec(ts.take(i as int)));
    }
    assert(ts.take(tools.len() as int) =~= ts);
    out
}

/// The thinking configuration for the reasoning effort of a request.
fn thinking_config(reasoning: &Option<ReasoningConfig>) -> (r: AnthropicThinkingConfig)
    ensures
        r@ == thinking_for_effort(
            match reasoning {
                Some(rc) => opt_seq(rc.effort),
                None => None,
            },
        ),
{
    let effort = match reasoning {
        Some(rc) => match &rc.effort {
            Some(e) => Some(e.as_str()),
            None => None,
        },
        None => None,
    };
    match effort {
        Some(e) => if str_eq(e, "low") {
            AnthropicThinkingConfig::Enabled { budget_tokens: 1024 }
        } else if str_eq(e, "medium") {
            AnthropicThinkingConfig::Enabled { budget_tokens: 4096 }
        } else if str_eq(e, "high") {
            AnthropicThinkingConfig::Enabled { budget_tokens: 8192 }
        } else {
            AnthropicThinkingConfig::Disabled
        },
        None => AnthropicThinkingConfig::Disabled,
    }
}

/// Convert a Responses API request to an Anthropic Messages API request.
///
/// Besides the field-by-field mapping, the messages of the result end with a
/// message that is not the assistant's, every message with tool calls is
/// followed by a user message answering all of them, and no message has
/// empty content.
pub fn convert_responses_to_anthropic(responses: &ResponsesRequest) -> (r: AnthropicRequest)
    ensures
        r@ == responses_to_anthropic_spec(responses@),
        msgs_model(r.messages@).len() > 0 ==> msgs_model(r.messages@).last().role != "assistant"@,
        tool_uses_answered(msgs_model(r.messages@)),
        forall|i: int| 0 <= i < r.messages@.len() ==> !content_is_empty(#[trigger] r.messages@[i]@.content),
{
    let system = match &responses.instructions {
        Some(inst) => {
            let mut blocks: Vec<AnthropicTextBlock> = Vec::new();
            blocks.push(AnthropicTextBlock { block_type: owned("text"), text: inst.0.clone(), cache_control: None });
            assert(blocks@.map_values(|b: AnthropicTextBlock| b@) =~= seq![
                AnthropicTextBlockModel { block_type: "text"@, text: inst@, cache_control: None },
            ]);
            Some(AnthropicSystem::Blocks(blocks))
        },
        None => None,
    };
    let messages = match &responses.input {
        Some(items) => build_anthropic_messages(items.as_slice()),
        None => {
            let empty: Vec<ResponsesInputItem> = Vec::new();
            build_anthropic_messages(empty.as_slice())
        },
    };
    let tools = match &responses.tools {
        Some(ts) => Some(convert_tools(ts)),
        None => None,
    };
    let thinking = thinking_config(&responses.reasoning);
    let budget: u32 = match &thinking {
        AnthropicThinkingConfig::Enabled { budget_tokens } => *budget_tokens,
        _ => 0,
    };
    let max_tokens = match responses.max_output_tokens {
        Some(m) => m,
        None => 4096,
    };
    let max_tokens = if budget > 0 && max_tokens <= budget {
        budget + 4096
    } else {
        max_tokens
    };
    let messages = sanitize_anthropic_messages(messages);
    proof {
        let ms = msgs_model(messages@);
        lemma_sanitize_properties(build_messages_spec(
            match responses@.input {
                Some(i) => i,
                None => seq![],
            },
        ));
        assert forall|i: int| 0 <= i < messages@.len() implies !content_is_empty(#[trigger] messages@[i]@.content) by {
            assert(ms[i] == messages@[i]@);
        }
    }
    let r = AnthropicRequest {
        model: responses.model.clone(),
        messages,
        system,
        max_tokens,
        metadata: responses.metadata.clone(),
        stop_sequences: None,
        stream: responses.stream,
        temperature: responses.temperature.clone(),
        top_p: responses.top_p.clone(),
        top_k: None,
        tools,
        tool_choice: map_tool_choice(&responses.tool_choice),
        thinking: Some(thinking),
    };
    let ghost sp = responses_to_anthropic_spec(responses@);
    assert(r@.model == sp.model);
    assert(r@.messages == sp.messages);
    assert(r@.system == sp.system);
    assert(r@.max_tokens == sp.max_tokens);
    assert(r@.metadata == sp.metadata);
    assert(r@.tools == sp.tools);
    assert(r@.tool_choice == sp.tool_choice);
    assert(r@.thinking == sp.thinking);
    r
}

// ===========================================================================
// Laws of the sanitisation
// ===========================================================================

/// Every message with tool calls is immediately followed by a user message
/// that answers all of them.
pub open spec fn tool_uses_answered(ms: Seq<AnthropicMessageModel>) -> bool {
    forall|i: int|
        0 <= i < ms.len() && (#[trigger] tool_use_ids_spec(ms[i])).len() > 0 ==> i + 1 < ms.len()
            && answers(ms[i + 1], tool_use_ids_spec(ms[i]))
}

/// No message of `ms` has empty content.
pub open spec fn all_nonempty(ms: Seq<AnthropicMessageModel>) -> bool {
    forall|i: int| 0 <= i < ms.len() ==> !content_is_empty(#[trigger] ms[i].content)
}

proof fn lemma_placeholder_ids(ids: Seq<Seq<char>>)
    ensures
        tool_result_ids_spec(placeholder_spec(ids)) == ids,
        tool_use_ids_spec(placeholder_spec(ids)).len() == 0,
    decreases ids.len(),
{
    let bs = ids.map_values(|id: Seq<char>| placeholder_result(id));
    if ids.len() > 0 {
        lemma_placeholder_ids(ids.drop_last());
        assert(bs.drop_last() =~= ids.drop_last().map_values(|id: Seq<char>| placeholder_result(id)));
        assert(block_tool_result_ids(bs) =~= ids);
    } else {
        assert(block_tool_result_ids(bs) =~= ids);
    }
}

proof fn lemma_repair_first(ms: Seq<AnthropicMessageModel>)
    requires
        ms.len() > 0,
    ensures
        repair(ms).len() > 0,
        repair(ms)[0] == ms[0],
{
}

proof fn lemma_repair_answered(ms: Seq<AnthropicMessageModel>)
    ensures
        tool_uses_answered(repair(ms)),
    decreases ms.len(),
{
    if ms.len() > 0 {
        let m = ms[0];
        let ids = tool_use_ids_spec(m);
        let rest = ms.drop_first();
        let out = repair(ms);
        if ids.len() == 0 || (rest.len() > 0 && answers(rest[0], ids)) {
            lemma_repair_answered(rest);
            let tail = repair(rest);
            if rest.len() > 0 {
                lemma_repair_first(rest);
            }
            assert forall|i: int| 0 <= i < out.len() && (#[trigger] tool_use_ids_spec(out[i])).len() > 0
                implies i + 1 < out.len() && answers(out[i + 1], tool_use_ids_spec(out[i])) by {
                if i > 0 {
                    assert(out[i] == tail[i - 1]);
                    assert(tool_use_ids_spec(tail[i - 1]).len() > 0);
                    assert(out[i + 1] == tail[i]);
                }
            }
        } else {
            let rest2 = if rest.len() > 0 && rest[0].role == "user"@ {
                rest.drop_first()
            } else {
                rest
            };
            lemma_repair_answered(rest2);
            lemma_placeholder_ids(ids);
            let tail = repair(rest2);
            assert forall|i: int| 0 <= i < out.len() && (#[trigger] tool_use_ids_spec(out[i])).len() > 0
                implies i + 1 < out.len() && answers(out[i + 1], tool_use_ids_spec(out[i])) by {
                if i == 0 {
                    assert(out[1] == placeholder_spec(ids));
                    assert forall|k: int| 0 <= k < ids.len() implies tool_result_ids_spec(out[1]).contains(
                        #[trigger] ids[k],
                    ) by {
                        assert(tool_result_ids_spec(out[1])[k] == ids[k]);
                    }
                } else if i == 1 {
                    assert(out[1] == placeholder_spec(ids));
                } else {
                    assert(out[i] == tail[i - 2]);
                    assert(tool_use_ids_spec(tail[i - 2]).len() > 0);
                    assert(out[i + 1] == tail[i - 1]);
                }
            }
        }
    }
}

#[verifier::spinoff_prover]
proof fn lemma_repair_last(ms: Seq<AnthropicMessageModel>)
    requires
        ms.len() > 0,
    ensures
        repair(ms).len() > 0,
        repair(ms).last() == ms.last() || repair(ms).last().role == "user"@,
    decreases ms.len(),
{
    let m = ms[0];
    let ids = tool_use_ids_spec(m);
    let rest = ms.drop_first();
    if ids.len() == 0 || (rest.len() > 0 && answers(rest[0], ids)) {
        assert(repair(ms) == seq![m] + repair(rest));
        if rest.len() > 0 {
            lemma_repair_last(rest);
            assert(rest.last() == ms.last());
            assert((seq![m] + repair(rest)).last() == repair(rest).last());
        } else {
            assert(repair(rest) =~= Seq::<AnthropicMessageModel>::empty());
            assert((seq![m] + repair(rest)) =~= seq![m]);
        }
    } else {
        let rest2 = if rest.len() > 0 && rest[0].role == "user"@ {
            rest.drop_first()
        } else {
            rest
        };
        assert(repair(ms) == seq![m, placeholder_spec(ids)] + repair(rest2));
        if rest2.len() > 0 {
            lemma_repair_last(rest2);
            assert(rest2.last() == ms.last());
            assert((seq![m, placeholder_spec(ids)] + repair(rest2)).last() == repair(rest2).last());
        } else {
            assert(repair(rest2) =~= Seq::<AnthropicMessageModel>::empty());
            assert((seq![m, placeholder_spec(ids)] + repair(rest2)) =~= seq![m, placeholder_spec(ids)]);
            assert(placeholder_spec(ids).role == "user"@);
        }
    }
}

proof fn lemma_repair_nonempty(ms: Seq<AnthropicMessageModel>)
    requires
        all_nonempty(ms),
    ensures
        all_nonempty(repair(ms)),
    decreases ms.len(),
{
    if ms.len() > 0 {
        let ids = tool_use_ids_spec(ms[0]);
        let rest = ms.drop_first();
        assert(all_nonempty(rest)) by {
            assert forall|i: int| 0 <= i < rest.len() implies !content_is_empty(#[trigger] rest[i].content) by {
                assert(rest[i] == ms[i + 1]);
            }
        }
        assert(!content_is_empty(ms[0].content));
        if ids.len() == 0 || (rest.len() > 0 && answers(rest[0], ids)) {
            lemma_repair_nonempty(rest);
            let out = repair(ms);
            assert forall|i: int| 0 <= i < out.len() implies !content_is_empty(#[trigger] out[i].content) by {
                if i > 0 {
                    assert(out[i] == repair(rest)[i - 1]);
                }
            }
        } else {
            let rest2 = if rest.len() > 0 && rest[0].role == "user"@ {
                rest.drop_first()
            } else {
                rest
            };
            assert(all_nonempty(rest2)) by {
                assert forall|i: int| 0 <= i < rest2.len() implies !content_is_empty(#[trigger] rest2[i].content) by {
                    if rest.len() > 0 && rest[0].role == "user"@ {
                        assert(rest2[i] == rest[i + 1]);
                    }
                }
            }
            lemma_repair_nonempty(rest2);
            let out = repair(ms);
            assert forall|i: int| 0 <= i < out.len() implies !content_is_empty(#[trigger] out[i].content) by {
                if i == 1 {
                    assert(out[1] == placeholder_spec(ids));
                } else if i > 1 {
                    assert(out[i] == repair(rest2)[i - 2]);
                }
            }
        }
    }
}

proof fn lemma_drop_empty_nonempty(ms: Seq<AnthropicMessageModel>)
    ensures
        all_nonempty(drop_empty(ms)),
    decreases ms.len(),
{
    if ms.len() > 0 {
        lemma_drop_empty_nonempty(ms.drop_last());
    }
}

proof fn lemma_continue_nonempty()
    ensures
        !content_is_empty(continue_message().content),
{
    reveal_strlit("Please continue.");
    let s = "Please continue."@;
    assert(s[0] == 'P');
    assert(trim_start(s) == s);
    assert(s.last() == '.');
    assert(trim_end(s) == s);
}

proof fn lemma_all_whitespace_trims_empty(s: Seq<char>)
    requires
        forall|i: int| 0 <= i < s.len() ==> spec_is_whitespace(#[trigger] s[i]),
    ensures
        trim_start(s).len() == 0,
    decreases s.len(),
{
    if s.len() > 0 {
        let t = s.drop_first();
        assert forall|i: int| 0 <= i < t.len() implies spec_is_whitespace(#[trigger] t[i]) by {
            assert(t[i] == s[i + 1]);
        }
        lemma_all_whitespace_trims_empty(t);
    }
}

proof fn lemma_trim_start_keeps(s: Seq<char>, i: int)
    requires
        0 <= i < s.len(),
        !spec_is_whitespace(s[i]),
    ensures
        exists|j: int| 0 <= j < trim_start(s).len() && !spec_is_whitespace(#[trigger] trim_start(s)[j]),
    decreases s.len(),
{
    if spec_is_whitespace(s[0]) {
        let t = s.drop_first();
        assert(t[i - 1] == s[i]);
        lemma_trim_start_keeps(t, i - 1);
        assert(trim_start(s) == trim_start(t));
        let j = choose|j: int| 0 <= j < trim_start(t).len() && !spec_is_whitespace(#[trigger] trim_start(t)[j]);
        assert(!spec_is_whitespace(trim_start(s)[j]));
    } else {
        assert(trim_start(s) == s);
        assert(!spec_is_whitespace(trim_start(s)[i]));
    }
}

proof fn lemma_trim_end_keeps(s: Seq<char>, i: int)
    requires
        0 <= i < s.len(),
        !spec_is_whitespace(s[i]),
    ensures
        trim_end(s).len() > 0,
    decreases s.len(),
{
    if spec_is_whitespace(s.last()) {
        let t = s.drop_last();
        assert(t[i] == s[i]);
        lemma_trim_end_keeps(t, i);
    }
}

/// Text with a character that is not white space does not trim to nothing.
proof fn lemma_trim_nonempty(s: Seq<char>, i: int)
    requires
        0 <= i < s.len(),
        !spec_is_whitespace(s[i]),
    ensures
        trim(s).len() > 0,
{
    lemma_trim_start_keeps(s, i);
    let t = trim_start(s);
    let j = choose|j: int| 0 <= j < t.len() && !spec_is_whitespace(#[trigger] t[j]);
    lemma_trim_end_keeps(t, j);
}

/// Text that does not trim to nothing has a character that is not white space.
proof fn lemma_trim_witness(s: Seq<char>) -> (i: int)
    requires
        trim(s).len() > 0,
    ensures
        0 <= i < s.len(),
        !spec_is_whitespace(s[i]),
{
    if forall|i: int| 0 <= i < s.len() ==> spec_is_whitespace(#[trigger] s[i]) {
        lemma_all_whitespace_trims_empty(s);
        assert(trim_start(s) =~= Seq::<char>::empty());
        assert(false);
        0
    } else {
        choose|i: int| 0 <= i < s.len() && !spec_is_whitespace(#[trigger] s[i])
    }
}

proof fn lemma_tool_use_ids_append(a: Seq<AnthropicContentBlockModel>, b: Seq<AnthropicContentBlockModel>)
    ensures
        block_tool_use_ids(a + b) == block_tool_use_ids(a) + block_tool_use_ids(b),
    decreases b.len(),
{
    if b.len() == 0 {
        assert(a + b =~= a);
        assert(block_tool_use_ids(a) + block_tool_use_ids(b) =~= block_tool_use_ids(a));
    } else {
        lemma_tool_use_ids_append(a, b.drop_last());
        assert((a + b).drop_last() =~= a + b.drop_last());
        assert((a + b).last() == b.last());
        match b.last() {
            AnthropicContentBlockModel::ToolUse { id, .. } => {
                assert(block_tool_use_ids(a) + block_tool_use_ids(b) =~= (block_tool_use_ids(a)
                    + block_tool_use_ids(b.drop_last())).push(id));
            },
            _ => {
                assert(block_tool_use_ids(a) + block_tool_use_ids(b) =~= block_tool_use_ids(a)
                    + block_tool_use_ids(b.drop_last()));
            },
        }
    }
}

/// Merging two messages with content gives a message with content, and
/// merging two messages without tool calls gives one without tool calls.
proof fn lemma_merge_facts(t: AnthropicMessageModel, m: AnthropicMessageModel)
    ensures
        !content_is_empty(t.content) ==> !content_is_empty(merge_spec(t, m).content),
        tool_use_ids_spec(t).len() == 0 && tool_use_ids_spec(m).len() == 0 ==> tool_use_ids_spec(
            merge_spec(t, m),
        ).len() == 0,
{
    match (t.content, m.content) {
        (AnthropicMessageContentModel::Blocks(tb), AnthropicMessageContentModel::Blocks(sb)) => {
            lemma_tool_use_ids_append(tb, sb);
        },
        (AnthropicMessageContentModel::Blocks(tb), AnthropicMessageContentModel::String(x)) => {
            let bs = tb.push(AnthropicContentBlockModel::Text { text: x, cache_control: None });
            assert(bs.drop_last() =~= tb);
            assert(block_tool_use_ids(bs) == block_tool_use_ids(tb));
        },
        (AnthropicMessageContentModel::String(a), AnthropicMessageContentModel::String(b)) => {
            if !content_is_empty(t.content) {
                let i = lemma_trim_witness(a);
                assert((a.push('\n') + b)[i] == a[i]);
                lemma_trim_nonempty(a.push('\n') + b, i);
            }
        },
        (AnthropicMessageContentModel::String(a), AnthropicMessageContentModel::Blocks(sb)) => {
            let first = seq![AnthropicContentBlockModel::Text { text: a, cache_control: None }];
            lemma_tool_use_ids_append(first, sb);
            assert(first.drop_last() =~= Seq::<AnthropicContentBlockModel>::empty());
            assert(block_tool_use_ids(first.drop_last()) =~= Seq::<Seq<char>>::empty());
            assert(block_tool_use_ids(first) =~= Seq::<Seq<char>>::empty());
            assert(block_tool_use_ids(first + sb) =~= block_tool_use_ids(sb));
        },
    }
}

/// Whether no two neighbouring messages have the same role.
pub open spec fn roles_alternate(ms: Seq<AnthropicMessageModel>) -> bool {
    forall|i: int, j: int| 0 <= i && j == i + 1 && j < ms.len() ==> (#[trigger] ms[i]).role != (#[trigger] ms[j]).role
}

/// A message of the assistant, or a user message without tool calls.
pub open spec fn well_roled(m: AnthropicMessageModel) -> bool {
    m.role == "assistant"@ || (m.role == "user"@ && tool_use_ids_spec(m).len() == 0)
}

/// Whether every message of `ms` is [`well_roled`].
pub open spec fn all_well_roled(ms: Seq<AnthropicMessageModel>) -> bool {
    forall|i: int| 0 <= i < ms.len() ==> well_roled(#[trigger] ms[i])
}

proof fn lemma_user_is_not_assistant()
    ensures
        "user"@ != "assistant"@,
{
    reveal_strlit("user");
    reveal_strlit("assistant");
    assert("user"@.len() != "assistant"@.len());
}

proof fn lemma_drop_empty_keeps(ms: Seq<AnthropicMessageModel>)
    requires
        all_well_roled(ms),
    ensures
        all_well_roled(drop_empty(ms)),
        all_nonempty(drop_empty(ms)),
    decreases ms.len(),
{
    if ms.len() > 0 {
        let p = ms.drop_last();
        assert forall|i: int| 0 <= i < p.len() implies well_roled(#[trigger] p[i]) by {
            assert(p[i] == ms[i]);
        }
        lemma_drop_empty_keeps(p);
    }
}

proof fn lemma_merge_same_role_keeps(ms: Seq<AnthropicMessageModel>)
    requires
        all_nonempty(ms),
    ensures
        all_nonempty(merge_same_role(ms)),
        all_well_roled(ms) ==> all_well_roled(merge_same_role(ms)),
        roles_alternate(merge_same_role(ms)),
        ms.len() > 0 ==> merge_same_role(ms).len() > 0 && merge_same_role(ms).last().role == ms.last().role,
    decreases ms.len(),
{
    if ms.len() > 0 {
        let p = ms.drop_last();
        assert forall|i: int| 0 <= i < p.len() implies !content_is_empty(#[trigger] p[i].content) by {
            assert(p[i] == ms[i]);
        }
        if all_well_roled(ms) {
            assert forall|i: int| 0 <= i < p.len() implies well_roled(#[trigger] p[i]) by {
                assert(p[i] == ms[i]);
            }
        }
        lemma_merge_same_role_keeps(p);
        let acc = merge_same_role(p);
        let m = ms.last();
        assert(!content_is_empty(ms[ms.len() - 1].content));
        assert(all_well_roled(ms) ==> well_roled(ms[ms.len() - 1]));
        let out = merge_same_role(ms);
        if acc.len() > 0 && acc.last().role == m.role {
            let g = merge_spec(acc.last(), m);
            lemma_merge_facts(acc.last(), m);
            assert(!content_is_empty(acc[acc.len() - 1].content));
            assert(out == acc.drop_last().push(g));
            assert forall|i: int| 0 <= i < out.len() implies !content_is_empty(#[trigger] out[i].content) by {
                if i < acc.len() - 1 {
                    assert(out[i] == acc[i]);
                }
            }
            if all_well_roled(ms) {
                lemma_user_is_not_assistant();
                assert(well_roled(acc[acc.len() - 1]));
                assert forall|i: int| 0 <= i < out.len() implies well_roled(#[trigger] out[i]) by {
                    if i < acc.len() - 1 {
                        assert(out[i] == acc[i]);
                    }
                }
            }
            assert forall|i: int, j: int| 0 <= i && j == i + 1 && j < out.len() implies (#[trigger] out[i]).role
                != (#[trigger] out[j]).role by {
                assert(out[i] == acc[i]);
                assert(acc[i].role != acc[j].role);
                if j < acc.len() - 1 {
                    assert(out[j] == acc[j]);
                }
            }
        } else {
            assert(out == acc.push(m));
            assert forall|i: int| 0 <= i < out.len() implies !content_is_empty(#[trigger] out[i].content) by {
                if i < acc.len() {
                    assert(out[i] == acc[i]);
                }
            }
            if all_well_roled(ms) {
                assert forall|i: int| 0 <= i < out.len() implies well_roled(#[trigger] out[i]) by {
                    if i < acc.len() {
                        assert(out[i] == acc[i]);
                    }
                }
            }
            assert forall|i: int, j: int| 0 <= i && j == i + 1 && j < out.len() implies (#[trigger] out[i]).role
                != (#[trigger] out[j]).role by {
                assert(out[i] == acc[i]);
                if j < acc.len() {
                    assert(out[j] == acc[j]);
                    assert(acc[i].role != acc[j].role);
                }
            }
        }
    }
}

proof fn lemma_end_with_user_keeps(ms: Seq<AnthropicMessageModel>)
    requires
        all_well_roled(ms),
        roles_alternate(ms),
    ensures
        all_well_roled(end_with_user(ms)),
        roles_alternate(end_with_user(ms)),
{
    let e = end_with_user(ms);
    if ms.len() > 0 && ms.last().role == "assistant"@ {
        lemma_user_is_not_assistant();
        reveal_strlit("user");
        assert(tool_use_ids_spec(continue_message()).len() == 0);
        assert forall|i: int| 0 <= i < e.len() implies well_roled(#[trigger] e[i]) by {
            if i < ms.len() {
                assert(e[i] == ms[i]);
            }
        }
        assert forall|i: int, j: int| 0 <= i && j == i + 1 && j < e.len() implies (#[trigger] e[i]).role
            != (#[trigger] e[j]).role by {
            assert(e[i] == ms[i]);
            if j < ms.len() {
                assert(e[j] == ms[j]);
            }
        }
    }
}

proof fn lemma_repair_alternates(ms: Seq<AnthropicMessageModel>)
    requires
        all_well_roled(ms),
        roles_alternate(ms),
    ensures
        all_well_roled(repair(ms)),
        roles_alternate(repair(ms)),
    decreases ms.len(),
{
    if ms.len() > 0 {
        lemma_user_is_not_assistant();
        let m = ms[0];
        let ids = tool_use_ids_spec(m);
        let rest = ms.drop_first();
        assert(well_roled(ms[0]));
        assert forall|i: int| 0 <= i < rest.len() implies well_roled(#[trigger] rest[i]) by {
            assert(rest[i] == ms[i + 1]);
        }
        assert forall|i: int, j: int| 0 <= i && j == i + 1 && j < rest.len() implies (#[trigger] rest[i]).role
            != (#[trigger] rest[j]).role by {
            assert(rest[i] == ms[i + 1]);
            assert(rest[j] == ms[j + 1]);
            assert(ms[i + 1].role != ms[j + 1].role);
        }
        let out = repair(ms);
        if ids.len() == 0 || (rest.len() > 0 && answers(rest[0], ids)) {
            lemma_repair_alternates(rest);
            let tail = repair(rest);
            if rest.len() > 0 {
                lemma_repair_first(rest);
                assert(ms[0].role != ms[1].role);
            }
            assert(out == seq![m] + tail);
            assert forall|i: int| 0 <= i < out.len() implies well_roled(#[trigger] out[i]) by {
                if i > 0 {
                    assert(out[i] == tail[i - 1]);
                }
            }
            assert forall|i: int, j: int| 0 <= i && j == i + 1 && j < out.len() implies (#[trigger] out[i]).role
                != (#[trigger] out[j]).role by {
                assert(out[j] == tail[j - 1]);
                if i > 0 {
                    assert(out[i] == tail[i - 1]);
                    assert(tail[i - 1].role != tail[j - 1].role);
                }
            }
        } else {
            assert(m.role == "assistant"@);
            let rest2 = if rest.len() > 0 && rest[0].role == "user"@ {
                rest.drop_first()
            } else {
                rest
            };
            if rest.len() > 0 {
                assert(ms[0].role != ms[1].role);
                assert(well_roled(ms[1]));
                assert(rest[0].role == "user"@);
                if rest2.len() > 0 {
                    assert(rest2[0] == ms[2]);
                    assert(ms[1].role != ms[2].role);
                    assert(well_roled(ms[2]));
                }
            }
            assert forall|i: int| 0 <= i < rest2.len() implies well_roled(#[trigger] rest2[i]) by {
                assert(rest2[i] == ms[i + 2]);
            }
            assert forall|i: int, j: int| 0 <= i && j == i + 1 && j < rest2.len() implies (#[trigger] rest2[i]).role
                != (#[trigger] rest2[j]).role by {
                assert(rest2[i] == ms[i + 2]);
                assert(rest2[j] == ms[j + 2]);
                assert(ms[i + 2].role != ms[j + 2].role);
            }
            lemma_repair_alternates(rest2);
            lemma_placeholder_ids(ids);
            let tail = repair(rest2);
            if rest2.len() > 0 {
                lemma_repair_first(rest2);
            }
            let ph = placeholder_spec(ids);
            assert(out == seq![m, ph] + tail);
            assert forall|i: int| 0 <= i < out.len() implies well_roled(#[trigger] out[i]) by {
                if i > 1 {
                    assert(out[i] == tail[i - 2]);
                }
            }
            assert forall|i: int, j: int| 0 <= i && j == i + 1 && j < out.len() implies (#[trigger] out[i]).role
                != (#[trigger] out[j]).role by {
                if i == 0 {
                    assert(out[1] == ph);
                } else if i == 1 {
                    assert(out[2] == tail[0]);
                } else {
                    assert(out[i] == tail[i - 2]);
                    assert(out[j] == tail[j - 2]);
                    assert(tail[i - 2].role != tail[j - 2].role);
                }
            }
        }
    }
}

/// Laws of the sanitisation, for every list of messages: the result does
/// not end with the assistant, every message with tool calls is followed by
/// a user message answering all of them, and no message has empty content.
pub proof fn lemma_sanitize_properties(ms: Seq<AnthropicMessageModel>)
    ensures
        sanitize_spec(ms).len() > 0 ==> sanitize_spec(ms).last().role != "assistant"@,
        tool_uses_answered(sanitize_spec(ms)),
        all_nonempty(sanitize_spec(ms)),
{
    if ms.len() > 0 {
        let m = merge_same_role(drop_empty(ms));
        let e = end_with_user(m);
        lemma_drop_empty_nonempty(ms);
        lemma_merge_same_role_keeps(drop_empty(ms));
        lemma_continue_nonempty();
        assert(all_nonempty(e)) by {
            assert forall|i: int| 0 <= i < e.len() implies !content_is_empty(#[trigger] e[i].content) by {
                if i < m.len() {
                    assert(e[i] == m[i]);
                }
            }
        }
        lemma_repair_answered(e);
        lemma_repair_nonempty(e);
        if e.len() > 0 {
            lemma_repair_last(e);
            lemma_user_is_not_assistant();
        }
    }
}

/// Where every message is the assistant's or a user message without tool
/// calls, sanitising leaves no two neighbouring messages with the same role
/// (consecutive messages of one role are merged), every message is again
/// the assistant's or the user's, and the last one is the user's.
pub proof fn law_sanitize_alternates(ms: Seq<AnthropicMessageModel>)
    requires
        all_well_roled(ms),
    ensures
        roles_alternate(sanitize_spec(ms)),
        forall|i: int| 0 <= i < sanitize_spec(ms).len() ==> (#[trigger] sanitize_spec(ms)[i]).role == "user"@
            || sanitize_spec(ms)[i].role == "assistant"@,
        sanitize_spec(ms).len() > 0 ==> sanitize_spec(ms).last().role == "user"@,
{
    if ms.len() > 0 {
        let d = drop_empty(ms);
        lemma_drop_empty_keeps(ms);
        lemma_merge_same_role_keeps(d);
        let m = merge_same_role(d);
        lemma_end_with_user_keeps(m);
        let e = end_with_user(m);
        lemma_repair_alternates(e);
        lemma_sanitize_properties(ms);
        let out = sanitize_spec(ms);
        assert forall|i: int| 0 <= i < out.len() implies (#[trigger] out[i]).role == "user"@ || out[i].role
            == "assistant"@ by {
            assert(well_roled(out[i]));
        }
        if out.len() > 0 {
            assert(well_roled(out[out.len() - 1]));
        }
    } else {
        assert(sanitize_spec(ms) =~= ms);
    }
}

// ===========================================================================
// Specification: the response
// ===========================================================================

/// `prefix` followed by the decimal notation of `n`.
pub open spec fn numbered_id(prefix: Seq<char>, n: nat) -> Seq<char> {
    prefix + decimal(n)
}

/// A completed output text part.
pub open spec fn output_text_part(text: Seq<char>) -> ResponsesContentPartModel {
    ResponsesContentPartModel::OutputText { text }
}

/// One step of converting response blocks into output items: the items so
/// far and the number of items numbered so far, after one more block. Text
/// is appended to a trailing message item or starts a new one; tool calls
/// and (redacted) thinking become items of their own; other blocks are
/// ignored.
pub open spec fn response_step(
    out: Seq<ResponsesOutputItemModel>,
    n: nat,
    block: AnthropicContentBlockModel,
) -> (Seq<ResponsesOutputItemModel>, nat) {
    match block {
        AnthropicContentBlockModel::Text { text, .. } => if out.len() > 0 && out.last() is Message {
            match out.last() {
                ResponsesOutputItemModel::Message { id, role, content, status } => (
                    out.drop_last().push(
                        ResponsesOutputItemModel::Message {
                            id,
                            role,
                            content: content.push(output_text_part(text)),
                            status,
                        },
                    ),
                    n,
                ),
                _ => (out, n),
            }
        } else {
            (
                out.push(
                    ResponsesOutputItemModel::Message {
                        id: numbered_id("msg_"@, n + 1),
                        role: Some("assistant"@),
                        content: seq![output_text_part(text)],
                        status: Some("completed"@),
                    },
                ),
                n + 1,
            )
        },
        AnthropicContentBlockModel::ToolUse { id, name, input } => (
            out.push(
                ResponsesOutputItemModel::FunctionCall {
                    id: numbered_id("fc_"@, n + 1),
                    call_id: id,
                    name,
                    arguments: input,
                    status: Some("completed"@),
                },
            ),
            n + 1,
        ),
        AnthropicContentBlockModel::Thinking { thinking, .. } => (
            out.push(
                ResponsesOutputItemModel::Reasoning {
                    id: numbered_id("rs_"@, n + 1),
                    content: Some(seq![output_text_part(thinking)]),
                    summary: None,
                    status: Some("completed"@),
                },
            ),
            n + 1,
        ),
        AnthropicContentBlockModel::RedactedThinking { data } => (
            out.push(
                ResponsesOutputItemModel::Reasoning {
                    id: numbered_id("rs_"@, n + 1),
                    content: Some(seq![output_text_part("[redacted: "@ + data + "]"@)]),
                    summary: None,
                    status: Some("completed"@),
                },
            ),
            n + 1,
        ),
        _ => (out, n),
    }
}

/// The output items (and their count of numbered items) for response blocks.
pub open spec fn response_items(blocks: Seq<AnthropicContentBlockModel>) -> (Seq<ResponsesOutputItemModel>, nat)
    decreases blocks.len(),
{
    if blocks.len() == 0 {
        (seq![], 0)
    } else {
        let prev = response_items(blocks.drop_last());
        response_step(prev.0, prev.1, blocks.last())
    }
}

/// The output of a response: its items, or one empty message when there
/// are none.
pub open spec fn response_output(blocks: Seq<AnthropicContentBlockModel>) -> Seq<ResponsesOutputItemModel> {
    let items = response_items(blocks).0;
    if items.len() == 0 {
        seq![
            ResponsesOutputItemModel::Message {
                id: "msg_1"@,
                role: Some("assistant"@),
                content: seq![],
                status: Some("completed"@),
            },
        ]
    } else {
        items
    }
}

/// Cached input tokens: cache reads plus cache creations, when either is
/// reported.
pub open spec fn cached_tokens_spec(read: Option<u32>, create: Option<u32>) -> Option<u32> {
    match (read, create) {
        (Some(a), Some(b)) => Some((a + b) as u32),
        (Some(a), None) => Some(a),
        (None, Some(b)) => Some(b),
        (None, None) => None,
    }
}

/// The Responses status for an Anthropic stop reason: `max_tokens` is
/// incomplete, everything else completed.
pub open spec fn stop_reason_status(r: Seq<char>) -> Seq<char> {
    if r == "max_tokens"@ {
        "incomplete"@
    } else {
        "completed"@
    }
}

/// The Responses response for an Anthropic response.
pub open spec fn anthropic_to_responses_spec(a: AnthropicResponseModel, model: Seq<char>) -> ResponsesResponseModel {
    let cached = cached_tokens_spec(a.usage.cache_read_input_tokens, a.usage.cache_creation_input_tokens);
    ResponsesResponseModel {
        id: a.id,
        object: "response"@,
        output: response_output(a.content),
        status: match a.stop_reason {
            Some(r) => Some(stop_reason_status(r)),
            None => None,
        },
        usage: Some(
            ResponsesUsageModel {
                input_tokens: a.usage.input_tokens,
                output_tokens: a.usage.output_tokens,
                total_tokens: (a.usage.input_tokens + a.usage.output_tokens) as u32,
                input_tokens_details: match cached {
                    Some(c) => Some(InputTokensDetailsModel { cached_tokens: Some(c) }),
                    None => None,
                },
                output_tokens_details: None,
            },
        ),
        model: Some(model),
        incomplete_details: None,
        error: None,
        created_at: None,
        completed_at: None,
    }
}

// ===========================================================================
// Implementation: the response
// ===========================================================================

/// Models of output items.
pub open spec fn output_items_model(v: Seq<ResponsesOutputItem>) -> Seq<ResponsesOutputItemModel> {
    v.map_values(|i: ResponsesOutputItem| i@)
}

proof fn lemma_response_items_count(blocks: Seq<AnthropicContentBlockModel>)
    ensures
        response_items(blocks).1 <= blocks.len(),
    decreases blocks.len(),
{
    if blocks.len() > 0 {
        lemma_response_items_count(blocks.drop_last());
    }
}

/// Convert an Anthropic Messages API response into a Responses API response.
///
/// Consecutive text blocks are merged into one message item; tool calls
/// become function-call items (their arguments are the JSON text of the tool
/// input); thinking becomes reasoning items. Cached tokens count both cache
/// reads and cache creations.
pub fn convert_anthropic_to_responses(anthropic: &AnthropicResponse, model: &str) -> (r: ResponsesResponse)
    requires
        anthropic.content@.len() < u32::MAX,
        anthropic.usage.input_tokens + anthropic.usage.output_tokens <= u32::MAX,
        match (anthropic.usage.cache_read_input_tokens, anthropic.usage.cache_creation_input_tokens) {
            (Some(a), Some(b)) => a + b <= u32::MAX,
            _ => true,
        },
    ensures
        r@ == anthropic_to_responses_spec(anthropic@, model@),
{
    let ghost bs = blocks_model(anthropic.content@);
    let mut output: Vec<ResponsesOutputItem> = Vec::new();
    let mut counter: u32 = 0;
    let mut i: usize = 0;
    while i < anthropic.content.len()
        invariant
            i <= anthropic.content.len() < u32::MAX,
            bs == blocks_model(anthropic.content@),
            (output_items_model(output@), counter as nat) == response_items(bs.take(i as int)),
        decreases anthropic.content.len() - i,
    {
        proof {
            assert(bs.take(i + 1).drop_last() =~= bs.take(i as int));
            lemma_response_items_count(bs.take(i as int));
        }
        let ghost before = output_items_model(output@);
        match &anthropic.content[i] {
            AnthropicContentBlock::Text { text, .. } => {
                let last_is_message = output.len() > 0 && match &output[output.len() - 1] {
                    ResponsesOutputItem::Message { .. } => true,
                    _ => false,
                };
                if last_is_message {
                    let last = output.pop().unwrap();
                    assert(output_items_model(output@) =~= before.drop_last());
                    if let ResponsesOutputItem::Message { id, role, content, status } = last {
                        let mut content = content;
                        let ghost c0 = parts_model(content@);
                        content.push(ResponsesContentPart::OutputText { text: text.clone() });
                        assert(parts_model(content@) =~= c0.push(output_text_part(text@)));
                        output.push(ResponsesOutputItem::Message { id, role, content, status });
                    }
                } else {
                    counter = counter + 1;
                    let mut content: Vec<ResponsesContentPart> = Vec::new();
                    content.push(ResponsesContentPart::OutputText { text: text.clone() });
                    assert(parts_model(content@) =~= seq![output_text_part(text@)]);
                    output.push(
                        ResponsesOutputItem::Message {
                            id: concat("msg_", u64_to_decimal(counter as u64).as_str()),
                            role: Some(owned("assistant")),
                            content,
                            status: Some(owned("completed")),
                        },
                    );
                }
            },
            AnthropicContentBlock::ToolUse { id, name, input } => {
                counter = counter + 1;
                output.push(
                    ResponsesOutputItem::FunctionCall {
                        id: concat("fc_", u64_to_decimal(counter as u64).as_str()),
                        call_id: id.clone(),
                        name: name.clone(),
                        arguments: input.clone(),
                        status: Some(owned("completed")),
                    },
                );
            },
            AnthropicContentBlock::Thinking { thinking, .. } => {
                counter = counter + 1;
                let mut content: Vec<ResponsesContentPart> = Vec::new();
                content.push(ResponsesContentPart::OutputText { text: thinking.clone() });
                assert(parts_model(content@) =~= seq![output_text_part(thinking@)]);
                output.push(
                    ResponsesOutputItem::Reasoning {
                        id: concat("rs_", u64_to_decimal(counter as u64).as_str()),
                        content: Some(content),
                        summary: None,
                        status: Some(owned("completed")),
                    },
                );
            },
            AnthropicContentBlock::RedactedThinking { data } => {
                counter = counter + 1;
                let mut content: Vec<ResponsesContentPart> = Vec::new();
                content.push(ResponsesContentPart::OutputText { text: concat3("[redacted: ", data.as_str(), "]") });
                assert(parts_model(content@) =~= seq![output_text_part("[redacted: "@ + data@ + "]"@)]);
                output.push(
                    ResponsesOutputItem::Reasoning {
                        id: concat("rs_", u64_to_decimal(counter as u64).as_str()),
                        content: Some(content),
                        summary: None,
                        status: Some(owned("completed")),
                    },
                );
            },
            _ => {},
        }
        assert(output_items_model(output@) =~= response_items(bs.take(i + 1)).0);
        i += 1;
    }
    assert(bs.take(anthropic.content.len() as int) =~= bs);
    if output.len() == 0 {
        output.push(
            ResponsesOutputItem::Message {
                id: owned("msg_1"),
                role: Some(owned("assistant")),
                content: Vec::new(),
                status: Some(owned("completed")),
            },
        );
        proof {
            assert(parts_model(output@[0]->Message_content@) =~= seq![]);
        }
    }
    assert(output_items_model(output@) =~= response_output(bs));
    let cached: Option<u32> = match (anthropic.usage.cache_read_input_tokens, anthropic.usage.cache_creation_input_tokens) {
        (Some(read), Some(create)) => Some(read + create),
        (Some(read), None) => Some(read),
        (None, Some(create)) => Some(create),
        (None, None) => None,
    };
    let usage = ResponsesUsage {
        input_tokens: anthropic.usage.input_tokens,
        output_tokens: anthropic.usage.output_tokens,
        total_tokens: anthropic.usage.input_tokens + anthropic.usage.output_tokens,
        input_tokens_details: match cached {
            Some(c) => Some(InputTokensDetails { cached_tokens: Some(c) }),
            None => None,
        },
        output_tokens_details: None,
    };
    let status = match &anthropic.stop_reason {
        Some(reason) => Some(
            if str_eq(reason.as_str(), "max_tokens") {
                owned("incomplete")
            } else {
                owned("completed")
            },
        ),
        None => None,
    };
    ResponsesResponse {
        id: anthropic.id.clone(),
        object: owned("response"),
        output,
        status,
        usage: Some(usage),
        model: Some(owned(model)),
        incomplete_details: None,
        error: None,
        created_at: None,
        completed_at: None,
    }
}


// ===========================================================================
// Law: images given as data URLs
// ===========================================================================

/// An input image given as a base64 `data:` URL becomes an image block of
/// that data whose media type is the URL's MIME type (the header without
/// `;base64`), for any MIME type without a comma that does not itself end
/// in `;base64`.
pub proof fn law_data_url_image_block(
    mime: Seq<char>,
    data: Seq<char>,
    detail: Option<Seq<char>>,
)
    requires
        forall|i: int| 0 <= i < mime.len() ==> mime[i] != ',',
        !crate::text::has_suffix(mime, ";base64"@),
    ensures
        content_part_block(
            ResponsesContentPartModel::InputImage {
                image_url: Some("data:"@ + mime + ";base64,"@ + data),
                detail,
            },
        ) == Some(
            AnthropicContentBlockModel::Image {
                source: AnthropicImageSourceModel { source_type: "base64"@, media_type: mime, data },
            },
        ),
{
    reveal_strlit("data:");
    reveal_strlit(";base64,");
    reveal_strlit(";base64");
    let url = "data:"@ + mime + ";base64,"@ + data;
    let c: int = 5 + mime.len() as int + 7;
    assert(url.subrange(0, 5) =~= "data:"@);
    assert(url[c] == ',');
    assert forall|j: int| 0 <= j < c implies url[j] != ',' by {
        if j < 5 {
            assert(url[j] == "data:"@[j]);
        } else if j < 5 + mime.len() {
            assert(url[j] == mime[j - 5]);
        } else {
            assert(url[j] == ";base64,"@[j - 5 - mime.len()]);
        }
    }
    crate::text::lemma_first_index_at(url, ',', c);
    let header = url.subrange(5, c);
    assert(header =~= mime + ";base64"@);
    assert(header.subrange(header.len() - 7, header.len() as int) =~= ";base64"@);
    assert(header.subrange(0, header.len() - 7) =~= mime);
    assert(strip_suffix_all(header, ";base64"@) == strip_suffix_all(mime, ";base64"@));
    assert(url.subrange(c + 1, url.len() as int) =~= data);
}

} // verus!
