//! Xiaomi MiMo over its Anthropic-compatible endpoint.
//!
//! Messages are built and repaired as for DeepSeek. Unlike DeepSeek, the
//! instructions go as a plain system string, thinking is only sent when a
//! reasoning effort asks for it, and every tool schema that is a JSON object
//! states its `type`.

use vstd::prelude::*;
use crate::text::{owned, str_eq};
use crate::json::{json_insert_str, opt_seq, parse_json, spec_json_insert_str, spec_parse_json};
use crate::types::anthropic::{
    AnthropicRequest, AnthropicRequestModel, AnthropicResponse, AnthropicSystem,
    AnthropicSystemModel, AnthropicThinkingConfig, AnthropicThinkingConfigModel, AnthropicTool,
    AnthropicToolModel,
};
use crate::types::responses::{
    tool_function, FunctionDefinitionModel, ReasoningConfig, ResponsesInputItem,
    ResponsesRequest, ResponsesRequestModel, ResponsesResponse, ResponsesTool, ResponsesToolModel,
};
use crate::translate::deepseek::anthropic::{
    build_anthropic_messages, build_messages_spec, map_tool_choice, max_tokens_spec,
    request_effort, sanitize_anthropic_messages, sanitize_spec, thinking_budget,
    tool_choice_spec,
};
use crate::translate::anthropic::anthropic::native_response_spec;

verus! {

broadcast use vstd::seq_lib::group_seq_properties;

// ===========================================================================
// Specification
// ===========================================================================

/// The schema of an empty object.
pub open spec fn object_schema() -> Seq<char> {
    "{\"type\":\"object\"}"@
}

/// The input schema of a tool: an empty object schema when there are no
/// parameters; the parameters with `"type": "object"` added when they are
/// an object without a `type`; the parameters as they are otherwise.
pub open spec fn mimo_schema_spec(parameters: Option<Seq<char>>) -> Seq<char> {
    match parameters {
        None => object_schema(),
        Some(p) => match spec_parse_json(p) {
            Some(d) => if d.is_object && !d.has_type_key {
                spec_json_insert_str(p, "type"@, "object"@)
            } else {
                p
            },
            None => p,
        },
    }
}

/// The Anthropic tool for a function definition.
pub open spec fn mimo_tool_spec(f: FunctionDefinitionModel) -> AnthropicToolModel {
    AnthropicToolModel {
        name: f.name,
        description: f.description,
        input_schema: mimo_schema_spec(f.parameters),
        cache_control: None,
    }
}

/// The Anthropic tools for the tools that define a function.
pub open spec fn mimo_anthropic_tools_spec(tools: Seq<ResponsesToolModel>) -> Seq<AnthropicToolModel>
    decreases tools.len(),
{
    if tools.len() == 0 {
        seq![]
    } else {
        let r = mimo_anthropic_tools_spec(tools.drop_last());
        match tool_function(tools.last()) {
            Some(f) => r.push(mimo_tool_spec(f)),
            None => r,
        }
    }
}

/// Thinking for a reasoning effort: `low`, `medium` and `high` enable it
/// with a budget of 1024, 4096 and 8192 tokens; otherwise none is sent.
pub open spec fn mimo_thinking_spec(effort: Option<Seq<char>>) -> Option<AnthropicThinkingConfigModel> {
    match effort {
        Some(e) => if e == "low"@ {
            Some(AnthropicThinkingConfigModel::Enabled { budget_tokens: 1024 })
        } else if e == "medium"@ {
            Some(AnthropicThinkingConfigModel::Enabled { budget_tokens: 4096 })
        } else if e == "high"@ {
            Some(AnthropicThinkingConfigModel::Enabled { budget_tokens: 8192 })
        } else {
            None
        },
        None => None,
    }
}

/// The MiMo Anthropic request for a Responses request.
pub open spec fn mimo_anthropic_request_spec(r: ResponsesRequestModel) -> AnthropicRequestModel {
    let thinking = mimo_thinking_spec(request_effort(r));
    AnthropicRequestModel {
        model: r.model,
        messages: sanitize_spec(
            build_messages_spec(
                match r.input {
                    Some(i) => i,
                    None => seq![],
                },
            ),
        ),
        system: match r.instructions {
            Some(t) => Some(AnthropicSystemModel::String(t)),
            None => None,
        },
        max_tokens: max_tokens_spec(r.max_output_tokens, thinking_budget(thinking)),
        metadata: r.metadata,
        stop_sequences: None,
        stream: r.stream,
        temperature: r.temperature,
        top_p: r.top_p,
        top_k: None,
        tools: match r.tools {
            Some(ts) => Some(mimo_anthropic_tools_spec(ts)),
            None => None,
        },
        tool_choice: tool_choice_spec(r.tool_choice),
        thinking,
    }
}

/// Whether a tool schema that is a JSON object says what type it is.
pub open spec fn schema_typed(schema: Seq<char>) -> bool {
    match spec_parse_json(schema) {
        Some(d) => d.is_object ==> d.has_type_key,
        None => true,
    }
}

// ===========================================================================
// Implementation
// ===========================================================================

/// The input schema of a tool (see [`mimo_schema_spec`]); an object schema
/// always comes out with a `type`.
fn mimo_schema(parameters: Option<String>) -> (r: String)
    ensures
        r@ == mimo_schema_spec(opt_seq(parameters)),
        parameters is Some ==> schema_typed(r@),
{
    match parameters {
        None => owned("{\"type\":\"object\"}"),
        Some(p) => match parse_json(p.as_str()) {
            Some(d) => if d.is_object && !d.has_type_key {
                json_insert_str(p.as_str(), "type", "object")
            } else {
                p
            },
            None => p,
        },
    }
}

/// The Anthropic tools for the tools of a request.
fn mimo_tools(tools: &Vec<ResponsesTool>) -> (r: Vec<AnthropicTool>)
    ensures
        r@.map_values(|t: AnthropicTool| t@) == mimo_anthropic_tools_spec(tools@.map_values(|t: ResponsesTool| t@)),
{
    let ghost ts = tools@.map_values(|t: ResponsesTool| t@);
    let mut out: Vec<AnthropicTool> = Vec::new();
    let mut i: usize = 0;
    while i < tools.len()
        invariant
            i <= tools.len(),
            ts == tools@.map_values(|t: ResponsesTool| t@),
            out@.map_values(|t: AnthropicTool| t@) == mimo_anthropic_tools_spec(ts.take(i as int)),
        decreases tools.len() - i,
    {
        proof {
            assert(ts.take(i + 1).drop_last() =~= ts.take(i as int));
            assert(ts.take(i + 1).last() == tools@[i as int]@);
        }
        match tools[i].get_function() {
            Some(f) => {
                out.push(
                    AnthropicTool {
                        name: f.name,
                        description: f.description,
                        input_schema: mimo_schema(f.parameters),
                        cache_control: None,
                    },
                );
            },
            None => {},
        }
        i += 1;
        assert(out@.map_values(|t: AnthropicTool| t@) =~= mimo_anthropic_tools_spec(ts.take(i as int)));
    }
    assert(ts.take(tools.len() as int) =~= ts);
    out
}

/// Thinking for the reasoning effort of a request (see
/// [`mimo_thinking_spec`]).
fn mimo_thinking(reasoning: &Option<ReasoningConfig>) -> (r: Option<AnthropicThinkingConfig>)
    ensures
        match r {
            Some(t) => mimo_thinking_spec(
                match reasoning {
                    Some(rc) => opt_seq(rc.effort),
                    None => None,
                },
            ) == Some(t@),
            None => mimo_thinking_spec(
                match reasoning {
                    Some(rc) => opt_seq(rc.effort),
                    None => None,
                },
            ) is None,
        },
{
    let effort = match reasoning {
        Some(rc) => match &rc.effort {
            Some(e) => Some(e.as_str()),
            None => None,
        },
        None => None,
    };
    match effort {
        Some(e) => if str_eq(e, "low") {
            Some(AnthropicThinkingConfig::Enabled { budget_tokens: 1024 })
        } else if str_eq(e, "medium") {
            Some(AnthropicThinkingConfig::Enabled { budget_tokens: 4096 })
        } else if str_eq(e, "high") {
            Some(AnthropicThinkingConfig::Enabled { budget_tokens: 8192 })
        } else {
            None
        },
        None => None,
    }
}

/// Convert a Responses API request into an Anthropic request for Xiaomi
/// MiMo (see [`mimo_anthropic_request_spec`]).
pub fn convert_responses_to_anthropic(responses: &ResponsesRequest) -> (r: AnthropicRequest)
    ensures
        r@ == mimo_anthropic_request_spec(responses@),
{
    let system = match &responses.instructions {
        Some(inst) => Some(AnthropicSystem::String(inst.0.clone())),
        None => None,
    };
    let messages = match &responses.input {
        Some(items) => build_anthropic_messages(items.as_slice()),
        None => {
            let empty: Vec<ResponsesInputItem> = Vec::new();
            build_anthropic_messages(empty.as_slice())
        },
    };
    let tools = match &responses.tools {
        Some(ts) => Some(mimo_tools(ts)),
        None => None,
    };
    let thinking = mimo_thinking(&responses.reasoning);
    let budget: u32 = match &thinking {
        Some(AnthropicThinkingConfig::Enabled { budget_tokens }) => *budget_tokens,
        _ => 0,
    };
    let max_tokens = match responses.max_output_tokens {
        Some(m) => m,
        None => 4096,
    };
    let max_tokens = if budget > 0 && max_tokens <= budget {
        budget + 4096
    } else {
        max_tokens
    };
    let r = AnthropicRequest {
        model: responses.model.clone(),
        messages: sanitize_anthropic_messages(messages),
        system,
        max_tokens,
        metadata: responses.metadata.clone(),
        stop_sequences: None,
        stream: responses.stream,
        temperature: responses.temperature.clone(),
        top_p: responses.top_p.clone(),
        top_k: None,
        tools,
        tool_choice: map_tool_choice(&responses.tool_choice),
        thinking,
    };
    let ghost sp = mimo_anthropic_request_spec(responses@);
    assert(r@.messages == sp.messages);
    assert(r@.system == sp.system);
    assert(r@.max_tokens == sp.max_tokens);
    assert(r@.tools == sp.tools);
    assert(r@.thinking == sp.thinking);
    r
}

/// Convert a MiMo Anthropic response back into a Responses API response: as
/// for a native Anthropic response.
pub fn convert_anthropic_to_responses(anthropic: &AnthropicResponse, model: &str) -> (r: ResponsesResponse)
    requires
        anthropic.usage.input_tokens + anthropic.usage.output_tokens <= u32::MAX,
    ensures
        r@ == native_response_spec(anthropic@, model@),
{
    crate::translate::anthropic::anthropic::convert_anthropic_to_responses(anthropic, model)
}

} // verus!
