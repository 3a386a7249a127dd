//! Translation between the Responses API and the upstream protocols.

pub mod deepseek;
pub mod aliases;
pub mod openai;
pub mod xiaomimimo;
pub mod anthropic;
pub mod compatibility;
pub mod output_contract;
pub mod tool_degrade;
pub mod provider;

use vstd::prelude::*;
use crate::config::{UpstreamFormat, UpstreamVendor};
use crate::types::chat::{ChatCompletionsRequest, ChatCompletionsRequestModel};
use crate::types::responses::{ResponsesRequest, ResponsesRequestModel};
use crate::translate::deepseek::chat::{deepseek_request_spec, responses_request_spec};
use crate::translate::openai::chat::openai_request_spec;
use crate::translate::xiaomimimo::chat::mimo_request_spec;
use crate::translate::xiaomimimo::convert::mimo_anthropic_request_spec;
use crate::translate::deepseek::anthropic::responses_to_anthropic_spec;
use crate::types::anthropic::{AnthropicRequest, AnthropicRequestModel};
use crate::json::opt_seq;

verus! {

/// The Chat request for a vendor: DeepSeek's translation (without previous
/// reasoning) for DeepSeek and vendors to be detected, whatever the format;
/// the OpenAI-compatible one otherwise.
pub open spec fn vendor_chat_spec(r: ResponsesRequestModel, vendor: UpstreamVendor) -> ChatCompletionsRequestModel {
    match vendor {
        UpstreamVendor::DeepSeek | UpstreamVendor::Auto => deepseek_request_spec(r, None),
        _ => openai_request_spec(r),
    }
}

/// Dispatch a Responses to Chat conversion to the vendor's translation (see
/// [`vendor_chat_spec`]).
pub fn convert_responses_to_chat(
    responses: &ResponsesRequest,
    format: &UpstreamFormat,
    vendor: &UpstreamVendor,
) -> (r: ChatCompletionsRequest)
    ensures
        r@ == vendor_chat_spec(responses@, *vendor),
{
    match vendor {
        UpstreamVendor::DeepSeek | UpstreamVendor::Auto => deepseek::chat::convert_responses_to_chat(responses, None),
        _ => openai::chat::convert_responses_to_chat(responses),
    }
}

/// The Chat request a Responses request becomes when the server converts
/// it: MiMo's translation for MiMo, DeepSeek's for everyone else, with the
/// previous turn's reasoning.
pub open spec fn chat_for_vendor_spec(r: ResponsesRequestModel, previous_reasoning: Option<Seq<char>>, vendor: UpstreamVendor) -> ChatCompletionsRequestModel {
    match vendor {
        UpstreamVendor::XiaomiMimo => mimo_request_spec(r, previous_reasoning),
        _ => deepseek_request_spec(r, previous_reasoning),
    }
}

/// Convert a Responses request to the Chat request for a vendor (see
/// [`chat_for_vendor_spec`]).
pub fn convert_responses_to_chat_for(
    responses: &ResponsesRequest,
    previous_reasoning: Option<String>,
    vendor: &UpstreamVendor,
) -> (r: ChatCompletionsRequest)
    ensures
        r@ == chat_for_vendor_spec(responses@, opt_seq(previous_reasoning), *vendor),
{
    match vendor {
        UpstreamVendor::XiaomiMimo => xiaomimimo::chat::convert_responses_to_chat(responses, previous_reasoning),
        _ => deepseek::chat::convert_responses_to_chat(responses, previous_reasoning),
    }
}

/// The Anthropic request a Responses request becomes for a vendor: MiMo's
/// translation for MiMo, DeepSeek's for everyone else.
pub open spec fn anthropic_for_vendor_spec(r: ResponsesRequestModel, vendor: UpstreamVendor) -> AnthropicRequestModel {
    match vendor {
        UpstreamVendor::XiaomiMimo => mimo_anthropic_request_spec(r),
        _ => responses_to_anthropic_spec(r),
    }
}

/// Convert a Responses request to the Anthropic request for a vendor (see
/// [`anthropic_for_vendor_spec`]).
pub fn convert_responses_to_anthropic_for(responses: &ResponsesRequest, vendor: &UpstreamVendor) -> (r: AnthropicRequest)
    ensures
        r@ == anthropic_for_vendor_spec(responses@, *vendor),
{
    match vendor {
        UpstreamVendor::XiaomiMimo => xiaomimimo::convert::convert_responses_to_anthropic(responses),
        _ => deepseek::anthropic::convert_responses_to_anthropic(responses),
    }
}

/// Convert a Chat request into an Anthropic request, through the Responses
/// API (DeepSeek's translations both ways).
pub fn convert_chat_to_anthropic(chat: &ChatCompletionsRequest) -> (r: AnthropicRequest)
    ensures
        r@ == responses_to_anthropic_spec(responses_request_spec(chat@)),
{
    let responses = deepseek::chat::convert_chat_to_responses(chat);
    deepseek::anthropic::convert_responses_to_anthropic(&responses)
}

} // verus!
