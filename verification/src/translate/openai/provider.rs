//! OpenAI-compatible upstreams as a provider: Chat only.

use vstd::prelude::*;
use crate::config::UpstreamVendor;
use crate::translate::compatibility::{default_capabilities, ProviderCapabilities};
use crate::translate::openai::chat::{convert_responses_to_chat, openai_request_spec};
use crate::types::chat::ChatCompletionsRequest;
use crate::types::responses::ResponsesRequest;

verus! {

/// The OpenAI-compatible provider. It has no Anthropic translation.
pub struct OpenAiProvider;

impl OpenAiProvider {
    /// The vendor: OpenAI.
    pub fn vendor(&self) -> (r: UpstreamVendor)
        ensures
            r == UpstreamVendor::OpenAI,
    {
        UpstreamVendor::OpenAI
    }

    /// The default capabilities.
    pub fn capabilities(&self) -> (r: ProviderCapabilities)
        ensures
            r@ == default_capabilities(),
    {
        ProviderCapabilities::default()
    }

    /// A Responses request as a Chat request; there is no reasoning to carry
    /// over, so `previous_reasoning` is not used.
    pub fn responses_to_chat(&self, req: &ResponsesRequest, previous_reasoning: Option<String>) -> (r: ChatCompletionsRequest)
        ensures
            r@ == openai_request_spec(req@),
    {
        convert_responses_to_chat(req)
    }
}

} // verus!
