//! Planning a request against a provider's capabilities: which formats,
//! tools, streaming and reasoning it will get, recorded as diagnostics.

use vstd::prelude::*;
use crate::text::{clone_vec_String, concat, concat3, contains_string, decimal, owned, u64_to_decimal};
use crate::config::{clone_vec_KeyValue, KeyValue, KeyValueModel};
use crate::json::opt_seq;
use crate::types::responses::{ResponsesRequest, ResponsesRequestModel, TextFormat, TextFormatModel};
use super::diagnostic::{CompatibilityAction, Diagnostic, DiagnosticModel, DiagnosticSeverity};

verus! {

broadcast use vstd::seq_lib::group_seq_properties;

/// Level of reasoning support by the provider.
#[derive(Clone, Copy, PartialEq, Eq, Structural, Debug)]
pub enum ReasoningSupport {
    /// No reasoning support.
    Unsupported,
    Boolean,
    Native,
}

/// What an upstream provider supports.
pub struct ProviderCapabilities {
    /// Supported top-level parameters.
    pub parameters: Vec<String>,
    /// Supported tool types.
    pub tools: Vec<String>,
    /// Tool names that need degradation (original to degraded).
    pub tool_degraded: Vec<KeyValue>,
    /// Maximum number of tools.
    pub max_tools: Option<usize>,
    /// Supported `tool_choice` values.
    pub tool_choice: Vec<String>,
    /// Supported `response_format` types.
    pub response_formats: Vec<String>,
    /// Reasoning support.
    pub reasoning: ReasoningSupport,
    /// Supported metadata fields.
    pub metadata_fields: Vec<String>,
}

/// Model of [`ProviderCapabilities`].
pub struct ProviderCapabilitiesModel {
    pub parameters: Seq<Seq<char>>,
    pub tools: Seq<Seq<char>>,
    pub tool_degraded: Seq<KeyValueModel>,
    pub max_tools: Option<usize>,
    pub tool_choice: Seq<Seq<char>>,
    pub response_formats: Seq<Seq<char>>,
    pub reasoning: ReasoningSupport,
    pub metadata_fields: Seq<Seq<char>>,
}

impl View for ProviderCapabilities {
    type V = ProviderCapabilitiesModel;

    open spec fn view(&self) -> ProviderCapabilitiesModel {
        ProviderCapabilitiesModel {
            parameters: self.parameters@.map_values(|x1: String| x1@),
            tools: self.tools@.map_values(|x2: String| x2@),
            tool_degraded: self.tool_degraded@.map_values(|x3: KeyValue| x3@),
            max_tools: self.max_tools,
            tool_choice: self.tool_choice@.map_values(|x4: String| x4@),
            response_formats: self.response_formats@.map_values(|x5: String| x5@),
            reasoning: self.reasoning,
            metadata_fields: self.metadata_fields@.map_values(|x6: String| x6@),
        }
    }
}

impl Clone for ProviderCapabilities {
    fn clone(&self) -> (r: Self)
        ensures
            r@ == self@,
    {
        let c_parameters = clone_vec_String(&self.parameters);
        let c_tools = clone_vec_String(&self.tools);
        let c_tool_degraded = clone_vec_KeyValue(&self.tool_degraded);
        let c_max_tools = self.max_tools.clone();
        let c_tool_choice = clone_vec_String(&self.tool_choice);
        let c_response_formats = clone_vec_String(&self.response_formats);
        let c_reasoning = self.reasoning;
        let c_metadata_fields = clone_vec_String(&self.metadata_fields);
        ProviderCapabilities { parameters: c_parameters, tools: c_tools, tool_degraded: c_tool_degraded, max_tools: c_max_tools, tool_choice: c_tool_choice, response_formats: c_response_formats, reasoning: c_reasoning, metadata_fields: c_metadata_fields }
    }
}

/// The result of planning compatibility for a request.
pub struct CompatibilityPlan {
    /// Collected diagnostics.
    pub diagnostics: Vec<Diagnostic>,
}

/// Model of [`CompatibilityPlan`].
pub struct CompatibilityPlanModel {
    pub diagnostics: Seq<DiagnosticModel>,
}

impl View for CompatibilityPlan {
    type V = CompatibilityPlanModel;

    open spec fn view(&self) -> CompatibilityPlanModel {
        CompatibilityPlanModel {
            diagnostics: self.diagnostics@.map_values(|x7: Diagnostic| x7@),
        }
    }
}

impl Clone for CompatibilityPlan {
    fn clone(&self) -> (r: Self)
        ensures
            r@ == self@,
    {
        let c_diagnostics = clone_vec_Diagnostic(&self.diagnostics);
        CompatibilityPlan { diagnostics: c_diagnostics }
    }
}

/// A copy of a vector of [`Diagnostic`].
pub fn clone_vec_Diagnostic(v: &Vec<Diagnostic>) -> (r: Vec<Diagnostic>)
    ensures
        r@.map_values(|x8: Diagnostic| x8@) == v@.map_values(|x9: Diagnostic| x9@),
{
    let mut r: Vec<Diagnostic> = Vec::new();
    let mut i: usize = 0;
    while i < v.len()
        invariant
            i <= v.len(),
            r@.len() == i,
            forall|j: int| 0 <= j < i ==> r@[j]@ == v@[j]@,
        decreases v.len() - i,
    {
        r.push(v[i].clone());
        i += 1;
    }
    assert(r@.map_values(|x10: Diagnostic| x10@) =~= v@.map_values(|x11: Diagnostic| x11@));
    r
}

/// A copy of a vector of [`KeyValue`].



/// The capabilities of a provider that says nothing else: the common
/// sampling parameters, function tools (at most 128), the three standard
/// tool choices, text and JSON-object output, and no reasoning.
pub open spec fn default_capabilities() -> ProviderCapabilitiesModel {
    ProviderCapabilitiesModel {
        parameters: seq![
            "stream"@,
            "temperature"@,
            "top_p"@,
            "max_output_tokens"@,
            "frequency_penalty"@,
            "presence_penalty"@,
            "stop"@,
            "user"@,
        ],
        tools: seq!["function"@],
        tool_degraded: seq![],
        max_tools: Some(128),
        tool_choice: seq!["auto"@, "none"@, "required"@],
        response_formats: seq!["text"@, "json_object"@],
        reasoning: ReasoningSupport::Unsupported,
        metadata_fields: seq![],
    }
}

impl Default for ProviderCapabilities {
    fn default() -> (r: Self)
        ensures
            r@ == default_capabilities(),
    {
        let mut parameters: Vec<String> = Vec::new();
        parameters.push(owned("stream"));
        parameters.push(owned("temperature"));
        parameters.push(owned("top_p"));
        parameters.push(owned("max_output_tokens"));
        parameters.push(owned("frequency_penalty"));
        parameters.push(owned("presence_penalty"));
        parameters.push(owned("stop"));
        parameters.push(owned("user"));
        let mut tools: Vec<String> = Vec::new();
        tools.push(owned("function"));
        let mut tool_choice: Vec<String> = Vec::new();
        tool_choice.push(owned("auto"));
        tool_choice.push(owned("none"));
        tool_choice.push(owned("required"));
        let mut response_formats: Vec<String> = Vec::new();
        response_formats.push(owned("text"));
        response_formats.push(owned("json_object"));
        let r = ProviderCapabilities {
            parameters,
            tools,
            tool_degraded: Vec::new(),
            max_tools: Some(128),
            tool_choice,
            response_formats,
            reasoning: ReasoningSupport::Unsupported,
            metadata_fields: Vec::new(),
        };
        assert(r@.parameters =~= default_capabilities().parameters);
        assert(r@.tools =~= default_capabilities().tools);
        assert(r@.tool_degraded =~= default_capabilities().tool_degraded);
        assert(r@.tool_choice =~= default_capabilities().tool_choice);
        assert(r@.response_formats =~= default_capabilities().response_formats);
        assert(r@.metadata_fields =~= default_capabilities().metadata_fields);
        r
    }
}

// ===========================================================================
// Specification
// ===========================================================================

/// A diagnostic without metadata.
pub open spec fn plain_diag(
    code: Seq<char>,
    severity: DiagnosticSeverity,
    action: CompatibilityAction,
    message: Seq<char>,
    path: Seq<char>,
    provider: Seq<char>,
    model: Seq<char>,
) -> DiagnosticModel {
    DiagnosticModel { code, severity, path: Some(path), action, message, provider, model, metadata: None }
}

/// The name of the requested output format, if any.
pub open spec fn format_type(r: ResponsesRequestModel) -> Option<Seq<char>> {
    match r.text {
        Some(t) => match t.format {
            Some(TextFormatModel::Text) => Some("text"@),
            Some(TextFormatModel::JsonObject) => Some("json_object"@),
            Some(TextFormatModel::JsonSchema { .. }) => Some("json_schema"@),
            None => None,
        },
        None => None,
    }
}

/// Output format: nothing when supported; `json_schema` degraded to
/// `json_object` when that is supported; rejected otherwise.
pub open spec fn format_diagnostics(
    r: ResponsesRequestModel,
    caps: ProviderCapabilitiesModel,
    provider: Seq<char>,
    model: Seq<char>,
) -> Seq<DiagnosticModel> {
    match format_type(r) {
        None => seq![],
        Some(f) => if caps.response_formats.contains(f) {
            seq![]
        } else if f == "json_schema"@ && caps.response_formats.contains("json_object"@) {
            seq![
                DiagnosticModel {
                    metadata: Some("{\"effective\":\"json_object\",\"requested\":\"json_schema\"}"@),
                    ..plain_diag(
                        "bridge.param.degraded"@,
                        DiagnosticSeverity::Warn,
                        CompatibilityAction::Degraded,
                        "json_schema degraded to json_object for "@ + provider,
                        "text.format"@,
                        provider,
                        model,
                    )
                },
            ]
        } else {
            seq![
                plain_diag(
                    "bridge.param.unsupported"@,
                    DiagnosticSeverity::Error,
                    CompatibilityAction::Rejected,
                    "response_format '"@ + f + "' not supported by "@ + provider,
                    "text.format"@,
                    provider,
                    model,
                ),
            ]
        },
    }
}

/// Tools: when the provider takes none (no maximum, or a maximum of 0), a
/// rejection if it supports no tool type; otherwise a degradation when
/// there are more tools than its maximum.
pub open spec fn tools_diagnostics(
    r: ResponsesRequestModel,
    caps: ProviderCapabilitiesModel,
    provider: Seq<char>,
    model: Seq<char>,
) -> Seq<DiagnosticModel> {
    match r.tools {
        None => seq![],
        Some(ts) => if ts.len() == 0 {
            seq![]
        } else {
            match caps.max_tools {
                Some(max) => if max == 0 {
                    if caps.tools.len() == 0 {
                        seq![
                            plain_diag(
                                "bridge.param.unsupported"@,
                                DiagnosticSeverity::Error,
                                CompatibilityAction::Rejected,
                                provider + " does not support tool calling"@,
                                "tools"@,
                                provider,
                                model,
                            ),
                        ]
                    } else {
                        seq![]
                    }
                } else if ts.len() > max {
                    seq![
                        DiagnosticModel {
                            metadata: Some("{\"count\":"@ + decimal(ts.len()) + ",\"max\":"@ + decimal(max as nat) + "}"@),
                            ..plain_diag(
                                "bridge.param.degraded"@,
                                DiagnosticSeverity::Warn,
                                CompatibilityAction::Degraded,
                                decimal(ts.len()) + " tools exceeds "@ + provider + " max of "@ + decimal(max as nat),
                                "tools"@,
                                provider,
                                model,
                            )
                        },
                    ]
                } else {
                    seq![]
                },
                None => if caps.tools.len() == 0 {
                    seq![
                        plain_diag(
                            "bridge.param.unsupported"@,
                            DiagnosticSeverity::Error,
                            CompatibilityAction::Rejected,
                            provider + " does not support tool calling"@,
                            "tools"@,
                            provider,
                            model,
                        ),
                    ]
                } else {
                    seq![]
                },
            }
        },
    }
}

/// Streaming asked of a provider that does not stream is ignored.
pub open spec fn stream_diagnostics(
    r: ResponsesRequestModel,
    caps: ProviderCapabilitiesModel,
    provider: Seq<char>,
    model: Seq<char>,
) -> Seq<DiagnosticModel> {
    if r.stream == Some(true) && !caps.parameters.contains("stream"@) {
        seq![
            plain_diag(
                "bridge.param.ignored"@,
                DiagnosticSeverity::Info,
                CompatibilityAction::Ignored,
                "streaming not supported by "@ + provider + ", fallback to non-stream"@,
                "stream"@,
                provider,
                model,
            ),
        ]
    } else {
        seq![]
    }
}

/// Reasoning asked of a provider without reasoning is ignored.
pub open spec fn reasoning_diagnostics(
    r: ResponsesRequestModel,
    caps: ProviderCapabilitiesModel,
    provider: Seq<char>,
    model: Seq<char>,
) -> Seq<DiagnosticModel> {
    if r.reasoning is Some && caps.reasoning == ReasoningSupport::Unsupported {
        seq![
            plain_diag(
                "bridge.param.ignored"@,
                DiagnosticSeverity::Info,
                CompatibilityAction::Ignored,
                "reasoning not supported by "@ + provider + ", ignored"@,
                "reasoning"@,
                provider,
                model,
            ),
        ]
    } else {
        seq![]
    }
}

/// All diagnostics of planning a request, in order: output format, tools,
/// streaming, reasoning.
pub open spec fn plan_diagnostics(
    r: ResponsesRequestModel,
    caps: ProviderCapabilitiesModel,
    provider: Seq<char>,
    model: Seq<char>,
) -> Seq<DiagnosticModel> {
    format_diagnostics(r, caps, provider, model) + tools_diagnostics(r, caps, provider, model)
        + stream_diagnostics(r, caps, provider, model) + reasoning_diagnostics(r, caps, provider, model)
}

// ===========================================================================
// Implementation
// ===========================================================================

impl Default for CompatibilityPlan {
    fn default() -> (r: Self)
        ensures
            r@.diagnostics == Seq::<DiagnosticModel>::empty(),
    {
        CompatibilityPlan { diagnostics: Vec::new() }
    }
}

impl CompatibilityPlan {
    /// A plan without diagnostics.
    pub fn new() -> (r: Self)
        ensures
            r@.diagnostics == Seq::<DiagnosticModel>::empty(),
    {
        CompatibilityPlan { diagnostics: Vec::new() }
    }

    /// Run the full compatibility plan against a request: its diagnostics
    /// are added after those already collected (see [`plan_diagnostics`]).
    pub fn plan(
        &mut self,
        request: &ResponsesRequest,
        capabilities: &ProviderCapabilities,
        provider: &str,
        model: &str,
    )
        ensures
            final(self)@.diagnostics == old(self)@.diagnostics + plan_diagnostics(
                request@,
                capabilities@,
                provider@,
                model@,
            ),
    {
        self.plan_response_format(request, capabilities, provider, model);
        self.plan_tools(request, capabilities, provider, model);
        self.plan_streaming(request, capabilities, provider, model);
        self.plan_reasoning(request, capabilities, provider, model);
        assert(final(self)@.diagnostics =~= old(self)@.diagnostics + plan_diagnostics(
            request@,
            capabilities@,
            provider@,
            model@,
        ));
    }

    fn add(
        &mut self,
        code: &str,
        severity: DiagnosticSeverity,
        action: CompatibilityAction,
        message: String,
        path: &str,
        provider: &str,
        model: &str,
        metadata: Option<String>,
    )
        ensures
            final(self)@.diagnostics == old(self)@.diagnostics.push(
                DiagnosticModel { metadata: opt_seq(metadata), ..plain_diag(code@, severity, action, message@, path@, provider@, model@) },
            ),
    {
        let mut d = Diagnostic::new(code, severity, action, message, provider, model);
        d = d.with_path(path);
        if let Some(m) = metadata {
            d = d.with_metadata(m);
        }
        self.diagnostics.push(d);
        assert(self@.diagnostics =~= old(self)@.diagnostics.push(
            DiagnosticModel { metadata: opt_seq(metadata), ..plain_diag(code@, severity, action, message@, path@, provider@, model@) },
        ));
    }

    fn plan_response_format(
        &mut self,
        request: &ResponsesRequest,
        caps: &ProviderCapabilities,
        provider: &str,
        model: &str,
    )
        ensures
            final(self)@.diagnostics == old(self)@.diagnostics + format_diagnostics(request@, caps@, provider@, model@),
    {
        let fmt_type = match &request.text {
            Some(t) => match &t.format {
                Some(TextFormat::Text) => Some("text"),
                Some(TextFormat::JsonObject) => Some("json_object"),
                Some(TextFormat::JsonSchema { .. }) => Some("json_schema"),
                None => None,
            },
            None => None,
        };
        let f = match fmt_type {
            Some(f) => f,
            None => {
                assert(old(self)@.diagnostics + Seq::<DiagnosticModel>::empty() =~= old(self)@.diagnostics);
                return ;
            },
        };
        if contains_string(&caps.response_formats, f) {
            assert(old(self)@.diagnostics + Seq::<DiagnosticModel>::empty() =~= old(self)@.diagnostics);
            return ;
        }
        proof {
            reveal_strlit("json_schema");
            reveal_strlit("text");
            reveal_strlit("json_object");
        }
        if crate::text::str_eq(f, "json_schema") && contains_string(&caps.response_formats, "json_object") {
            self.add(
                "bridge.param.degraded",
                DiagnosticSeverity::Warn,
                CompatibilityAction::Degraded,
                concat("json_schema degraded to json_object for ", provider),
                "text.format",
                provider,
                model,
                Some(owned("{\"effective\":\"json_object\",\"requested\":\"json_schema\"}")),
            );
            return ;
        }
        self.add(
            "bridge.param.unsupported",
            DiagnosticSeverity::Error,
            CompatibilityAction::Rejected,
            concat(concat3("response_format '", f, "' not supported by ").as_str(), provider),
            "text.format",
            provider,
            model,
            None,
        );
    }

    fn plan_tools(&mut self, request: &ResponsesRequest, caps: &ProviderCapabilities, provider: &str, model: &str)
        ensures
            final(self)@.diagnostics == old(self)@.diagnostics + tools_diagnostics(request@, caps@, provider@, model@),
    {
        let tools = match &request.tools {
            Some(ts) => ts,
            None => {
                assert(old(self)@.diagnostics + Seq::<DiagnosticModel>::empty() =~= old(self)@.diagnostics);
                return ;
            },
        };
        if tools.len() == 0 {
            assert(old(self)@.diagnostics + Seq::<DiagnosticModel>::empty() =~= old(self)@.diagnostics);
            return ;
        }
        let no_tools = match caps.max_tools {
            Some(max) => max == 0,
            None => true,
        };
        if no_tools {
            if caps.tools.len() == 0 {
                self.add(
                    "bridge.param.unsupported",
                    DiagnosticSeverity::Error,
                    CompatibilityAction::Rejected,
                    concat(provider, " does not support tool calling"),
                    "tools",
                    provider,
                    model,
                    None,
                );
            } else {
                assert(old(self)@.diagnostics + Seq::<DiagnosticModel>::empty() =~= old(self)@.diagnostics);
            }
            return ;
        }
        let max = match caps.max_tools {
            Some(max) => max,
            None => 0,
        };
        if tools.len() > max {
            let count = u64_to_decimal(tools.len() as u64);
            let maxs = u64_to_decimal(max as u64);
            let mut message = concat(count.as_str(), " tools exceeds ");
            message.append(provider);
            message.append(" max of ");
            message.append(maxs.as_str());
            let mut metadata = concat("{\"count\":", count.as_str());
            metadata.append(",\"max\":");
            metadata.append(maxs.as_str());
            metadata.append("}");
            self.add(
                "bridge.param.degraded",
                DiagnosticSeverity::Warn,
                CompatibilityAction::Degraded,
                message,
                "tools",
                provider,
                model,
                Some(metadata),
            );
        } else {
            assert(old(self)@.diagnostics + Seq::<DiagnosticModel>::empty() =~= old(self)@.diagnostics);
        }
    }

    fn plan_streaming(&mut self, request: &ResponsesRequest, caps: &ProviderCapabilities, provider: &str, model: &str)
        ensures
            final(self)@.diagnostics == old(self)@.diagnostics + stream_diagnostics(request@, caps@, provider@, model@),
    {
        let streaming = match request.stream {
            Some(b) => b,
            None => false,
        };
        if streaming && !contains_string(&caps.parameters, "stream") {
            self.add(
                "bridge.param.ignored",
                DiagnosticSeverity::Info,
                CompatibilityAction::Ignored,
                concat3("streaming not supported by ", provider, ", fallback to non-stream"),
                "stream",
                provider,
                model,
                None,
            );
        } else {
            assert(old(self)@.diagnostics + Seq::<DiagnosticModel>::empty() =~= old(self)@.diagnostics);
        }
    }

    fn plan_reasoning(&mut self, request: &ResponsesRequest, caps: &ProviderCapabilities, provider: &str, model: &str)
        ensures
            final(self)@.diagnostics == old(self)@.diagnostics + reasoning_diagnostics(request@, caps@, provider@, model@),
    {
        if request.reasoning.is_some() && caps.reasoning == ReasoningSupport::Unsupported {
            self.add(
                "bridge.param.ignored",
                DiagnosticSeverity::Info,
                CompatibilityAction::Ignored,
                concat3("reasoning not supported by ", provider, ", ignored"),
                "reasoning",
                provider,
                model,
                None,
            );
        } else {
            assert(old(self)@.diagnostics + Seq::<DiagnosticModel>::empty() =~= old(self)@.diagnostics);
        }
    }
}

} // verus!
