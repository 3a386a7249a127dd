//! Xiaomi MiMo as a provider: reasoning switched on or off, its own Chat and
//! Anthropic translations.

use vstd::prelude::*;
use crate::config::UpstreamVendor;
use crate::json::opt_seq;
use crate::translate::compatibility::{default_capabilities, ProviderCapabilities, ProviderCapabilitiesModel, ReasoningSupport};
use crate::translate::xiaomimimo::chat::{convert_responses_to_chat, mimo_request_spec};
use crate::translate::xiaomimimo::convert::{convert_responses_to_anthropic, mimo_anthropic_request_spec};
use crate::types::anthropic::AnthropicRequest;
use crate::types::chat::ChatCompletionsRequest;
use crate::types::responses::ResponsesRequest;

verus! {

/// The Xiaomi MiMo provider.
pub struct XiaomiMimoProvider;

/// MiMo's capabilities: the defaults, with reasoning that is on or off.
pub open spec fn mimo_capabilities() -> ProviderCapabilitiesModel {
    ProviderCapabilitiesModel { reasoning: ReasoningSupport::Boolean, ..default_capabilities() }
}

impl XiaomiMimoProvider {
    /// The vendor: Xiaomi MiMo.
    pub fn vendor(&self) -> (r: UpstreamVendor)
        ensures
            r == UpstreamVendor::XiaomiMimo,
    {
        UpstreamVendor::XiaomiMimo
    }

    /// MiMo's capabilities (see [`mimo_capabilities`]).
    pub fn capabilities(&self) -> (r: ProviderCapabilities)
        ensures
            r@ == mimo_capabilities(),
    {
        let mut caps = ProviderCapabilities::default();
        caps.reasoning = ReasoningSupport::Boolean;
        caps
    }

    /// A Responses request as a MiMo Chat request.
    pub fn responses_to_chat(&self, req: &ResponsesRequest, previous_reasoning: Option<String>) -> (r: ChatCompletionsRequest)
        ensures
            r@ == mimo_request_spec(req@, opt_seq(previous_reasoning)),
    {
        convert_responses_to_chat(req, previous_reasoning)
    }

    /// A Responses request as a MiMo Anthropic request.
    pub fn responses_to_anthropic(&self, req: &ResponsesRequest) -> (r: AnthropicRequest)
        ensures
            r@ == mimo_anthropic_request_spec(req@),
    {
        convert_responses_to_anthropic(req)
    }
}

} // verus!
