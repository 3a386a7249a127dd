//! Which provider translates for a vendor.
//!
//! A provider knows its capabilities and how Responses requests become its
//! native requests. The providers are a closed set, so the choice is a
//! value of [`ProviderKind`].

use vstd::prelude::*;
use crate::config::UpstreamVendor;
use crate::json::opt_seq;
use crate::translate::compatibility::{default_capabilities, ProviderCapabilities, ProviderCapabilitiesModel};
use crate::translate::deepseek::anthropic::responses_to_anthropic_spec;
use crate::translate::deepseek::chat::deepseek_request_spec;
use crate::translate::deepseek::provider::{deepseek_capabilities, DeepSeekProvider};
use crate::translate::openai::chat::openai_request_spec;
use crate::translate::openai::provider::OpenAiProvider;
use crate::translate::xiaomimimo::chat::mimo_request_spec;
use crate::translate::xiaomimimo::convert::mimo_anthropic_request_spec;
use crate::translate::xiaomimimo::provider::{mimo_capabilities, XiaomiMimoProvider};
use crate::types::anthropic::{AnthropicRequest, AnthropicRequestModel};
use crate::types::chat::{ChatCompletionsRequest, ChatCompletionsRequestModel};
use crate::types::responses::{ResponsesRequest, ResponsesRequestModel};

verus! {

/// A provider that translates requests.
#[derive(Clone, Copy, PartialEq, Eq, Structural, Debug)]
pub enum ProviderKind {
    DeepSeek,
    OpenAi,
    XiaomiMimo,
}

/// The provider that translates Chat requests for a vendor: DeepSeek for
/// DeepSeek and for vendors to be detected, MiMo for MiMo, the
/// OpenAI-compatible one for OpenAI and Anthropic.
pub open spec fn chat_provider_spec(vendor: UpstreamVendor) -> ProviderKind {
    match vendor {
        UpstreamVendor::DeepSeek | UpstreamVendor::Auto => ProviderKind::DeepSeek,
        UpstreamVendor::XiaomiMimo => ProviderKind::XiaomiMimo,
        UpstreamVendor::OpenAI | UpstreamVendor::Anthropic => ProviderKind::OpenAi,
    }
}

/// The provider that translates Anthropic requests for a vendor: MiMo for
/// MiMo, DeepSeek for every other vendor.
pub open spec fn anthropic_provider_spec(vendor: UpstreamVendor) -> ProviderKind {
    match vendor {
        UpstreamVendor::XiaomiMimo => ProviderKind::XiaomiMimo,
        _ => ProviderKind::DeepSeek,
    }
}

/// The Chat provider for a vendor (see [`chat_provider_spec`]).
pub fn chat_provider_for(vendor: &UpstreamVendor) -> (r: ProviderKind)
    ensures
        r == chat_provider_spec(*vendor),
{
    match vendor {
        UpstreamVendor::DeepSeek | UpstreamVendor::Auto => ProviderKind::DeepSeek,
        UpstreamVendor::XiaomiMimo => ProviderKind::XiaomiMimo,
        UpstreamVendor::OpenAI | UpstreamVendor::Anthropic => ProviderKind::OpenAi,
    }
}

/// The Anthropic provider for a vendor (see [`anthropic_provider_spec`]);
/// it always has an Anthropic translation.
pub fn anthropic_provider_for(vendor: &UpstreamVendor) -> (r: ProviderKind)
    ensures
        r == anthropic_provider_spec(*vendor),
        r != ProviderKind::OpenAi,
{
    match vendor {
        UpstreamVendor::XiaomiMimo => ProviderKind::XiaomiMimo,
        _ => ProviderKind::DeepSeek,
    }
}

/// The capabilities of a provider.
pub open spec fn provider_capabilities_spec(p: ProviderKind) -> ProviderCapabilitiesModel {
    match p {
        ProviderKind::DeepSeek => deepseek_capabilities(),
        ProviderKind::OpenAi => default_capabilities(),
        ProviderKind::XiaomiMimo => mimo_capabilities(),
    }
}

/// The Chat request a provider makes of a Responses request.
pub open spec fn provider_chat_spec(p: ProviderKind, req: ResponsesRequestModel, previous_reasoning: Option<Seq<char>>) -> ChatCompletionsRequestModel {
    match p {
        ProviderKind::DeepSeek => deepseek_request_spec(req, previous_reasoning),
        ProviderKind::OpenAi => openai_request_spec(req),
        ProviderKind::XiaomiMimo => mimo_request_spec(req, previous_reasoning),
    }
}

/// The Anthropic request a provider makes of a Responses request.
pub open spec fn provider_anthropic_spec(p: ProviderKind, req: ResponsesRequestModel) -> AnthropicRequestModel {
    match p {
        ProviderKind::XiaomiMimo => mimo_anthropic_request_spec(req),
        _ => responses_to_anthropic_spec(req),
    }
}

impl ProviderKind {
    /// The vendor of the provider.
    pub fn vendor(&self) -> (r: UpstreamVendor)
        ensures
            r == (match *self {
                ProviderKind::DeepSeek => UpstreamVendor::DeepSeek,
                ProviderKind::OpenAi => UpstreamVendor::OpenAI,
                ProviderKind::XiaomiMimo => UpstreamVendor::XiaomiMimo,
            }),
    {
        match self {
            ProviderKind::DeepSeek => DeepSeekProvider.vendor(),
            ProviderKind::OpenAi => OpenAiProvider.vendor(),
            ProviderKind::XiaomiMimo => XiaomiMimoProvider.vendor(),
        }
    }

    /// The capabilities of the provider.
    pub fn capabilities(&self) -> (r: ProviderCapabilities)
        ensures
            r@ == provider_capabilities_spec(*self),
    {
        match self {
            ProviderKind::DeepSeek => DeepSeekProvider.capabilities(),
            ProviderKind::OpenAi => OpenAiProvider.capabilities(),
            ProviderKind::XiaomiMimo => XiaomiMimoProvider.capabilities(),
        }
    }

    /// A Responses request as the provider's Chat request.
    pub fn responses_to_chat(&self, req: &ResponsesRequest, previous_reasoning: Option<String>) -> (r: ChatCompletionsRequest)
        ensures
            r@ == provider_chat_spec(*self, req@, opt_seq(previous_reasoning)),
    {
        match self {
            ProviderKind::DeepSeek => DeepSeekProvider.responses_to_chat(req, previous_reasoning),
            ProviderKind::OpenAi => OpenAiProvider.responses_to_chat(req, previous_reasoning),
            ProviderKind::XiaomiMimo => XiaomiMimoProvider.responses_to_chat(req, previous_reasoning),
        }
    }

    /// A Responses request as the provider's Anthropic request; the
    /// OpenAI-compatible provider has none.
    pub fn responses_to_anthropic(&self, req: &ResponsesRequest) -> (r: AnthropicRequest)
        requires
            *self != ProviderKind::OpenAi,
        ensures
            r@ == provider_anthropic_spec(*self, req@),
    {
        match self {
            ProviderKind::XiaomiMimo => XiaomiMimoProvider.responses_to_anthropic(req),
            _ => DeepSeekProvider.responses_to_anthropic(req),
        }
    }
}

} // verus!
