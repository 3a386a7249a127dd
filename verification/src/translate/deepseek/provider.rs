//! DeepSeek as a provider: native reasoning, its own Chat and Anthropic
//! translations.

use vstd::prelude::*;
use crate::config::UpstreamVendor;
use crate::json::opt_seq;
use crate::text::owned;
use crate::translate::compatibility::{default_capabilities, ProviderCapabilities, ProviderCapabilitiesModel, ReasoningSupport};
use crate::translate::deepseek::anthropic::{convert_responses_to_anthropic, responses_to_anthropic_spec};
use crate::translate::deepseek::chat::{convert_responses_to_chat, deepseek_request_spec};
use crate::types::anthropic::AnthropicRequest;
use crate::types::chat::ChatCompletionsRequest;
use crate::types::responses::ResponsesRequest;

verus! {

/// The DeepSeek provider.
pub struct DeepSeekProvider;

/// DeepSeek's capabilities: the defaults, with the `reasoning` parameter
/// and native reasoning.
pub open spec fn deepseek_capabilities() -> ProviderCapabilitiesModel {
    ProviderCapabilitiesModel {
        parameters: default_capabilities().parameters.push("reasoning"@),
        reasoning: ReasoningSupport::Native,
        ..default_capabilities()
    }
}

impl DeepSeekProvider {
    /// The vendor: DeepSeek.
    pub fn vendor(&self) -> (r: UpstreamVendor)
        ensures
            r == UpstreamVendor::DeepSeek,
    {
        UpstreamVendor::DeepSeek
    }

    /// DeepSeek's capabilities (see [`deepseek_capabilities`]).
    pub fn capabilities(&self) -> (r: ProviderCapabilities)
        ensures
            r@ == deepseek_capabilities(),
    {
        let mut caps = ProviderCapabilities::default();
        caps.parameters.push(owned("reasoning"));
        caps.reasoning = ReasoningSupport::Native;
        assert(caps@.parameters =~= deepseek_capabilities().parameters);
        caps
    }

    /// A Responses request as a DeepSeek Chat request.
    pub fn responses_to_chat(&self, req: &ResponsesRequest, previous_reasoning: Option<String>) -> (r: ChatCompletionsRequest)
        ensures
            r@ == deepseek_request_spec(req@, opt_seq(previous_reasoning)),
    {
        convert_responses_to_chat(req, previous_reasoning)
    }

    /// A Responses request as a DeepSeek Anthropic request.
    pub fn responses_to_anthropic(&self, req: &ResponsesRequest) -> (r: AnthropicRequest)
        ensures
            r@ == responses_to_anthropic_spec(req@),
    {
        convert_responses_to_anthropic(req)
    }
}

} // verus!
