//! Native Anthropic: Messages API responses as Responses API responses.
//!
//! Unlike DeepSeek's Anthropic-compatible endpoint, every content block of a
//! native response becomes an output item of its own, named after the
//! response id and the block's position.

use vstd::prelude::*;
use crate::text::{concat3, decimal, owned, u64_to_decimal};
use crate::json::{canonical_json, canonical_json_spec};
use crate::types::anthropic::{AnthropicContentBlock, AnthropicContentBlockModel, AnthropicResponse, AnthropicResponseModel};
use crate::types::responses::{
    parts_model, InputTokensDetails, InputTokensDetailsModel, ResponsesContentPart,
    ResponsesOutputItem, ResponsesOutputItemModel, ResponsesResponse,
    ResponsesResponseModel, ResponsesUsage, ResponsesUsageModel,
};
use crate::translate::deepseek::anthropic::{blocks_model, output_items_model, output_text_part};

verus! {

broadcast use vstd::seq_lib::group_seq_properties;

/// The id of the item made from the block at `index`: the response id, an
/// underscore and the index.
pub open spec fn block_item_id(response_id: Seq<char>, index: nat) -> Seq<char> {
    response_id + "_"@ + decimal(index)
}

/// The output item a content block becomes, if any: text becomes an
/// assistant message, a tool call a function call (its input, in compact
/// JSON, as the arguments), thinking (also redacted)
/// a reasoning item; other blocks give nothing.
pub open spec fn native_item(response_id: Seq<char>, index: nat, block: AnthropicContentBlockModel) -> Option<
    ResponsesOutputItemModel,
> {
    let id = block_item_id(response_id, index);
    match block {
        AnthropicContentBlockModel::Text { text, .. } => Some(
            ResponsesOutputItemModel::Message {
                id,
                role: Some("assistant"@),
                content: seq![output_text_part(text)],
                status: Some("completed"@),
            },
        ),
        AnthropicContentBlockModel::ToolUse { id: call_id, name, input } => Some(
            ResponsesOutputItemModel::FunctionCall {
                id,
                call_id,
                name,
                arguments: canonical_json_spec(input),
                status: Some("completed"@),
            },
        ),
        AnthropicContentBlockModel::Thinking { thinking, .. } => Some(
            ResponsesOutputItemModel::Reasoning {
                id,
                content: Some(seq![output_text_part(thinking)]),
                summary: None,
                status: Some("completed"@),
            },
        ),
        AnthropicContentBlockModel::RedactedThinking { data } => Some(
            ResponsesOutputItemModel::Reasoning {
                id,
                content: Some(seq![output_text_part(data)]),
                summary: None,
                status: Some("completed"@),
            },
        ),
        _ => None,
    }
}

/// The output items of the content blocks, in order.
pub open spec fn native_items(response_id: Seq<char>, blocks: Seq<AnthropicContentBlockModel>) -> Seq<
    ResponsesOutputItemModel,
>
    decreases blocks.len(),
{
    if blocks.len() == 0 {
        seq![]
    } else {
        let rest = native_items(response_id, blocks.drop_last());
        match native_item(response_id, (blocks.len() - 1) as nat, blocks.last()) {
            Some(item) => rest.push(item),
            None => rest,
        }
    }
}

/// The Responses response for a native Anthropic response: always
/// completed, with the cache reads as cached input tokens.
pub open spec fn native_response_spec(a: AnthropicResponseModel, model: Seq<char>) -> ResponsesResponseModel {
    ResponsesResponseModel {
        id: a.id,
        object: "response"@,
        output: native_items(a.id, a.content),
        status: Some("completed"@),
        usage: Some(
            ResponsesUsageModel {
                input_tokens: a.usage.input_tokens,
                output_tokens: a.usage.output_tokens,
                total_tokens: (a.usage.input_tokens + a.usage.output_tokens) as u32,
                input_tokens_details: Some(
                    InputTokensDetailsModel { cached_tokens: a.usage.cache_read_input_tokens },
                ),
                output_tokens_details: None,
            },
        ),
        model: Some(model),
        incomplete_details: None,
        error: None,
        created_at: None,
        completed_at: None,
    }
}

/// The output item a content block becomes (see [`native_item`]).
fn item_of_block(response_id: &String, index: usize, block: &AnthropicContentBlock) -> (r: Option<ResponsesOutputItem>)
    ensures
        match r {
            Some(item) => native_item(response_id@, index as nat, block@) == Some(item@),
            None => native_item(response_id@, index as nat, block@) is None,
        },
{
    let id = concat3(response_id.as_str(), "_", u64_to_decimal(index as u64).as_str());
    match block {
        AnthropicContentBlock::Text { text, .. } => {
            let mut content: Vec<ResponsesContentPart> = Vec::new();
            content.push(ResponsesContentPart::OutputText { text: text.clone() });
            assert(parts_model(content@) =~= seq![output_text_part(text@)]);
            Some(
                ResponsesOutputItem::Message {
                    id,
                    role: Some(owned("assistant")),
                    content,
                    status: Some(owned("completed")),
                },
            )
        },
        AnthropicContentBlock::ToolUse { id: call_id, name, input } => Some(
            ResponsesOutputItem::FunctionCall {
                id,
                call_id: call_id.clone(),
                name: name.clone(),
                arguments: canonical_json(input.as_str()),
                status: Some(owned("completed")),
            },
        ),
        AnthropicContentBlock::Thinking { thinking, .. } => {
            let mut content: Vec<ResponsesContentPart> = Vec::new();
            content.push(ResponsesContentPart::OutputText { text: thinking.clone() });
            assert(parts_model(content@) =~= seq![output_text_part(thinking@)]);
            Some(
                ResponsesOutputItem::Reasoning {
                    id,
                    content: Some(content),
                    summary: None,
                    status: Some(owned("completed")),
                },
            )
        },
        AnthropicContentBlock::RedactedThinking { data } => {
            let mut content: Vec<ResponsesContentPart> = Vec::new();
            content.push(ResponsesContentPart::OutputText { text: data.clone() });
            assert(parts_model(content@) =~= seq![output_text_part(data@)]);
            Some(
                ResponsesOutputItem::Reasoning {
                    id,
                    content: Some(content),
                    summary: None,
                    status: Some(owned("completed")),
                },
            )
        },
        _ => None,
    }
}

/// Convert a native Anthropic Messages API response into a Responses API
/// response (see [`native_response_spec`]).
pub fn convert_anthropic_to_responses(anthropic: &AnthropicResponse, model: &str) -> (r: ResponsesResponse)
    requires
        anthropic.usage.input_tokens + anthropic.usage.output_tokens <= u32::MAX,
    ensures
        r@ == native_response_spec(anthropic@, model@),
{
    let ghost bs = blocks_model(anthropic.content@);
    let mut output: Vec<ResponsesOutputItem> = Vec::new();
    let mut i: usize = 0;
    while i < anthropic.content.len()
        invariant
            i <= anthropic.content.len(),
            bs == blocks_model(anthropic.content@),
            output_items_model(output@) == native_items(anthropic.id@, bs.take(i as int)),
        decreases anthropic.content.len() - i,
    {
        proof {
            assert(bs.take(i + 1).drop_last() =~= bs.take(i as int));
            assert(bs.take(i + 1).last() == anthropic.content@[i as int]@);
        }
        match item_of_block(&anthropic.id, i, &anthropic.content[i]) {
            Some(item) => {
                output.push(item);
            },
            None => {},
        }
        assert(output_items_model(output@) =~= native_items(anthropic.id@, bs.take(i + 1)));
        i += 1;
    }
    assert(bs.take(anthropic.content.len() as int) =~= bs);
    let usage = ResponsesUsage {
        input_tokens: anthropic.usage.input_tokens,
        output_tokens: anthropic.usage.output_tokens,
        total_tokens: anthropic.usage.input_tokens + anthropic.usage.output_tokens,
        input_tokens_details: Some(InputTokensDetails { cached_tokens: anthropic.usage.cache_read_input_tokens }),
        output_tokens_details: None,
    };
    ResponsesResponse {
        id: anthropic.id.clone(),
        object: owned("response"),
        output,
        status: Some(owned("completed")),
        usage: Some(usage),
        model: Some(owned(model)),
        incomplete_details: None,
        error: None,
        created_at: None,
        completed_at: None,
    }
}


/// The usage of an Anthropic response carries over: its input tokens are the
/// input tokens, its output tokens the output tokens, and the total is
/// their sum (whenever the sum fits in 32 bits, which the conversion
/// requires), with the cache-read tokens as cached tokens.
pub proof fn law_native_usage_carried(a: AnthropicResponseModel, model: Seq<char>)
    ensures
        ({
            let u = native_response_spec(a, model).usage;
            &&& u matches Some(x)
            &&& x.input_tokens == a.usage.input_tokens
            &&& x.output_tokens == a.usage.output_tokens
            &&& a.usage.input_tokens + a.usage.output_tokens <= u32::MAX ==> x.total_tokens == a.usage.input_tokens
                + a.usage.output_tokens
            &&& x.input_tokens_details matches Some(d) && d.cached_tokens == a.usage.cache_read_input_tokens
        }),
{
}

} // verus!
