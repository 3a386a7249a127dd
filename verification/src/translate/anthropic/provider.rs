//! Native Anthropic as a provider: Anthropic protocol only.

use vstd::prelude::*;
use crate::config::UpstreamVendor;
use crate::translate::compatibility::{default_capabilities, ProviderCapabilities};
use crate::translate::deepseek::anthropic::{convert_responses_to_anthropic, responses_to_anthropic_spec};
use crate::types::anthropic::AnthropicRequest;
use crate::types::responses::ResponsesRequest;

verus! {

/// The native Anthropic provider. It speaks the Anthropic protocol and has
/// no Chat translation.
pub struct AnthropicProvider;

impl AnthropicProvider {
    /// The vendor: Anthropic.
    pub fn vendor(&self) -> (r: UpstreamVendor)
        ensures
            r == UpstreamVendor::Anthropic,
    {
        UpstreamVendor::Anthropic
    }

    /// The default capabilities.
    pub fn capabilities(&self) -> (r: ProviderCapabilities)
        ensures
            r@ == default_capabilities(),
    {
        ProviderCapabilities::default()
    }

    /// A Responses request as an Anthropic request, built as for DeepSeek.
    pub fn responses_to_anthropic(&self, req: &ResponsesRequest) -> (r: AnthropicRequest)
        ensures
            r@ == responses_to_anthropic_spec(req@),
    {
        convert_responses_to_anthropic(req)
    }
}

} // verus!
