//! Provider capabilities, and how a request is adapted to them.

pub mod diagnostic;
pub mod plan;

use vstd::prelude::*;
use crate::text::{clone_vec_String, concat3, contains_string, owned};
use crate::config::{clone_vec_KeyValue, KeyValue, KeyValueModel};
use crate::json::opt_seq;

verus! {

broadcast use vstd::seq_lib::group_seq_properties;

/// Compatibility diagnostic severity.
#[derive(Clone, Copy, PartialEq, Eq, Structural, Debug)]
pub enum DiagnosticSeverity {
    Info,
    Warn,
    Error,
}

/// How far a provider supports reasoning.
#[derive(Clone, Copy, PartialEq, Eq, Structural, Debug)]
pub enum ReasoningSupport {
    /// No reasoning support.
    Unsupported,
    Boolean,
    Native,
}

/// What an upstream provider supports.
pub struct ProviderCapabilities {
    /// Supported top-level parameters.
    pub parameters: Vec<String>,
    /// Supported tool types.
    pub tools: Vec<String>,
    /// Tool names that need degradation (original to degraded).
    pub tool_degraded: Vec<KeyValue>,
    /// Maximum number of tools.
    pub max_tools: Option<usize>,
    /// Supported `tool_choice` values.
    pub tool_choice: Vec<String>,
    /// Supported `response_format` types.
    pub response_formats: Vec<String>,
    /// Reasoning support.
    pub reasoning: ReasoningSupport,
    /// Supported metadata fields.
    pub metadata_fields: Vec<String>,
}

/// Model of [`ProviderCapabilities`].
pub struct ProviderCapabilitiesModel {
    pub parameters: Seq<Seq<char>>,
    pub tools: Seq<Seq<char>>,
    pub tool_degraded: Seq<KeyValueModel>,
    pub max_tools: Option<usize>,
    pub tool_choice: Seq<Seq<char>>,
    pub response_formats: Seq<Seq<char>>,
    pub reasoning: ReasoningSupport,
    pub metadata_fields: Seq<Seq<char>>,
}

impl View for ProviderCapabilities {
    type V = ProviderCapabilitiesModel;

    open spec fn view(&self) -> ProviderCapabilitiesModel {
        ProviderCapabilitiesModel {
            parameters: self.parameters@.map_values(|x1: String| x1@),
            tools: self.tools@.map_values(|x2: String| x2@),
            tool_degraded: self.tool_degraded@.map_values(|x3: KeyValue| x3@),
            max_tools: self.max_tools,
            tool_choice: self.tool_choice@.map_values(|x4: String| x4@),
            response_formats: self.response_formats@.map_values(|x5: String| x5@),
            reasoning: self.reasoning,
            metadata_fields: self.metadata_fields@.map_values(|x6: String| x6@),
        }
    }
}

impl Clone for ProviderCapabilities {
    fn clone(&self) -> (r: Self)
        ensures
            r@ == self@,
    {
        let c_parameters = clone_vec_String(&self.parameters);
        let c_tools = clone_vec_String(&self.tools);
        let c_tool_degraded = clone_vec_KeyValue(&self.tool_degraded);
        let c_max_tools = self.max_tools.clone();
        let c_tool_choice = clone_vec_String(&self.tool_choice);
        let c_response_formats = clone_vec_String(&self.response_formats);
        let c_reasoning = self.reasoning;
        let c_metadata_fields = clone_vec_String(&self.metadata_fields);
        ProviderCapabilities { parameters: c_parameters, tools: c_tools, tool_degraded: c_tool_degraded, max_tools: c_max_tools, tool_choice: c_tool_choice, response_formats: c_response_formats, reasoning: c_reasoning, metadata_fields: c_metadata_fields }
    }
}

/// A single compatibility diagnostic message.
pub struct CompatibilityDiagnostic {
    pub code: String,
    pub severity: DiagnosticSeverity,
    pub path: Option<String>,
    pub action: String,
    pub message: String,
}

/// Model of [`CompatibilityDiagnostic`].
pub struct CompatibilityDiagnosticModel {
    pub code: Seq<char>,
    pub severity: DiagnosticSeverity,
    pub path: Option<Seq<char>>,
    pub action: Seq<char>,
    pub message: Seq<char>,
}

impl View for CompatibilityDiagnostic {
    type V = CompatibilityDiagnosticModel;

    open spec fn view(&self) -> CompatibilityDiagnosticModel {
        CompatibilityDiagnosticModel {
            code: self.code@,
            severity: self.severity,
            path: opt_seq(self.path),
            action: self.action@,
            message: self.message@,
        }
    }
}

impl Clone for CompatibilityDiagnostic {
    fn clone(&self) -> (r: Self)
        ensures
            r@ == self@,
    {
        let c_code = self.code.clone();
        let c_severity = self.severity;
        let c_path = self.path.clone();
        let c_action = self.action.clone();
        let c_message = self.message.clone();
        CompatibilityDiagnostic { code: c_code, severity: c_severity, path: c_path, action: c_action, message: c_message }
    }
}

/// Plan for adapting a request to provider capabilities.
pub struct CompatibilityPlan {
    pub dropped_parameters: Vec<String>,
    /// Tools renamed for the provider (original to degraded).
    pub degraded_tools: Vec<KeyValue>,
    pub effective_tool_choice: Option<String>,
    pub diagnostics: Vec<CompatibilityDiagnostic>,
}

/// Model of [`CompatibilityPlan`].
pub struct CompatibilityPlanModel {
    pub dropped_parameters: Seq<Seq<char>>,
    pub degraded_tools: Seq<KeyValueModel>,
    pub effective_tool_choice: Option<Seq<char>>,
    pub diagnostics: Seq<CompatibilityDiagnosticModel>,
}

impl View for CompatibilityPlan {
    type V = CompatibilityPlanModel;

    open spec fn view(&self) -> CompatibilityPlanModel {
        CompatibilityPlanModel {
            dropped_parameters: self.dropped_parameters@.map_values(|x7: String| x7@),
            degraded_tools: self.degraded_tools@.map_values(|x8: KeyValue| x8@),
            effective_tool_choice: opt_seq(self.effective_tool_choice),
            diagnostics: self.diagnostics@.map_values(|x9: CompatibilityDiagnostic| x9@),
        }
    }
}

impl Clone for CompatibilityPlan {
    fn clone(&self) -> (r: Self)
        ensures
            r@ == self@,
    {
        let c_dropped_parameters = clone_vec_String(&self.dropped_parameters);
        let c_degraded_tools = clone_vec_KeyValue(&self.degraded_tools);
        let c_effective_tool_choice = self.effective_tool_choice.clone();
        let c_diagnostics = clone_vec_CompatibilityDiagnostic(&self.diagnostics);
        CompatibilityPlan { dropped_parameters: c_dropped_parameters, degraded_tools: c_degraded_tools, effective_tool_choice: c_effective_tool_choice, diagnostics: c_diagnostics }
    }
}

/// A copy of a vector of [`CompatibilityDiagnostic`].
pub fn clone_vec_CompatibilityDiagnostic(v: &Vec<CompatibilityDiagnostic>) -> (r: Vec<CompatibilityDiagnostic>)
    ensures
        r@.map_values(|x10: CompatibilityDiagnostic| x10@) == v@.map_values(|x11: CompatibilityDiagnostic| x11@),
{
    let mut r: Vec<CompatibilityDiagnostic> = Vec::new();
    let mut i: usize = 0;
    while i < v.len()
        invariant
            i <= v.len(),
            r@.len() == i,
            forall|j: int| 0 <= j < i ==> r@[j]@ == v@[j]@,
        decreases v.len() - i,
    {
        r.push(v[i].clone());
        i += 1;
    }
    assert(r@.map_values(|x12: CompatibilityDiagnostic| x12@) =~= v@.map_values(|x13: CompatibilityDiagnostic| x13@));
    r
}

/// A copy of a vector of [`KeyValue`].



// ===========================================================================
// Default capabilities
// ===========================================================================

/// The capabilities of a provider that says nothing else: the common
/// sampling parameters, function tools (at most 128), the three standard
/// tool choices, text and JSON-object output, and no reasoning.
pub open spec fn default_capabilities() -> ProviderCapabilitiesModel {
    ProviderCapabilitiesModel {
        parameters: seq![
            "stream"@,
            "temperature"@,
            "top_p"@,
            "max_output_tokens"@,
            "frequency_penalty"@,
            "presence_penalty"@,
            "stop"@,
            "user"@,
        ],
        tools: seq!["function"@],
        tool_degraded: seq![],
        max_tools: Some(128),
        tool_choice: seq!["auto"@, "none"@, "required"@],
        response_formats: seq!["text"@, "json_object"@],
        reasoning: ReasoningSupport::Unsupported,
        metadata_fields: seq![],
    }
}

impl Default for ProviderCapabilities {
    fn default() -> (r: Self)
        ensures
            r@ == default_capabilities(),
    {
        let mut parameters: Vec<String> = Vec::new();
        parameters.push(owned("stream"));
        parameters.push(owned("temperature"));
        parameters.push(owned("top_p"));
        parameters.push(owned("max_output_tokens"));
        parameters.push(owned("frequency_penalty"));
        parameters.push(owned("presence_penalty"));
        parameters.push(owned("stop"));
        parameters.push(owned("user"));
        let mut tools: Vec<String> = Vec::new();
        tools.push(owned("function"));
        let mut tool_choice: Vec<String> = Vec::new();
        tool_choice.push(owned("auto"));
        tool_choice.push(owned("none"));
        tool_choice.push(owned("required"));
        let mut response_formats: Vec<String> = Vec::new();
        response_formats.push(owned("text"));
        response_formats.push(owned("json_object"));
        let r = ProviderCapabilities {
            parameters,
            tools,
            tool_degraded: Vec::new(),
            max_tools: Some(128),
            tool_choice,
            response_formats,
            reasoning: ReasoningSupport::Unsupported,
            metadata_fields: Vec::new(),
        };
        assert(r@.parameters =~= default_capabilities().parameters);
        assert(r@.tools =~= default_capabilities().tools);
        assert(r@.tool_degraded =~= default_capabilities().tool_degraded);
        assert(r@.tool_choice =~= default_capabilities().tool_choice);
        assert(r@.response_formats =~= default_capabilities().response_formats);
        assert(r@.metadata_fields =~= default_capabilities().metadata_fields);
        r
    }
}

// ===========================================================================
// Planning a request
// ===========================================================================

/// The diagnostic for a `tool_choice` the provider does not take.
pub open spec fn tool_choice_diagnostic(tc: Seq<char>) -> CompatibilityDiagnosticModel {
    CompatibilityDiagnosticModel {
        code: "compatibility.unsupported_tool_choice"@,
        severity: DiagnosticSeverity::Warn,
        path: Some("tool_choice"@),
        action: "degraded"@,
        message: "Provider unknown does not support tool_choice '"@ + tc + "', defaulting to 'auto'"@,
    }
}

/// The diagnostic for reasoning asked of a provider without it.
pub open spec fn reasoning_diagnostic() -> CompatibilityDiagnosticModel {
    CompatibilityDiagnosticModel {
        code: "compatibility.unsupported_reasoning"@,
        severity: DiagnosticSeverity::Info,
        path: Some("reasoning"@),
        action: "ignored"@,
        message: "Provider unknown does not support reasoning, dropped from request"@,
    }
}

/// The diagnostic for a response format the provider does not take.
pub open spec fn response_format_diagnostic(rf: Seq<char>) -> CompatibilityDiagnosticModel {
    CompatibilityDiagnosticModel {
        code: "compatibility.unsupported_response_format"@,
        severity: DiagnosticSeverity::Warn,
        path: Some("response_format"@),
        action: "degraded"@,
        message: "Provider unknown does not support response_format '"@ + rf + "', may degrade to text"@,
    }
}

/// The `tool_choice` sent: the requested one when supported; otherwise
/// `auto` when there are tools and none when there are not. Without a
/// requested choice, `required` is sent for tools when `auto` is not
/// supported.
pub open spec fn effective_tool_choice_spec(
    caps: ProviderCapabilitiesModel,
    has_tools: bool,
    requested: Option<Seq<char>>,
) -> Option<Seq<char>> {
    match requested {
        Some(tc) => if caps.tool_choice.contains(tc) {
            Some(tc)
        } else if has_tools {
            Some("auto"@)
        } else {
            None
        },
        None => if has_tools && !caps.tool_choice.contains("auto"@) {
            Some("required"@)
        } else {
            None
        },
    }
}

/// Whether reasoning is asked of a provider that has none.
pub open spec fn drops_reasoning(caps: ProviderCapabilitiesModel, user_reasoning: bool) -> bool {
    user_reasoning && caps.reasoning == ReasoningSupport::Unsupported
}

/// The diagnostics of a plan, in order: tool choice, reasoning, response
/// format.
pub open spec fn plan_diagnostics_spec(
    caps: ProviderCapabilitiesModel,
    requested: Option<Seq<char>>,
    user_reasoning: bool,
    response_format: Option<Seq<char>>,
) -> Seq<CompatibilityDiagnosticModel> {
    (match requested {
        Some(tc) => if caps.tool_choice.contains(tc) {
            seq![]
        } else {
            seq![tool_choice_diagnostic(tc)]
        },
        None => seq![],
    }) + (if drops_reasoning(caps, user_reasoning) {
        seq![reasoning_diagnostic()]
    } else {
        seq![]
    }) + (match response_format {
        Some(rf) => if caps.response_formats.contains(rf) {
            seq![]
        } else {
            seq![response_format_diagnostic(rf)]
        },
        None => seq![],
    })
}

/// The plan for a request.
pub open spec fn plan_for_request_spec(
    caps: ProviderCapabilitiesModel,
    has_tools: bool,
    requested: Option<Seq<char>>,
    user_reasoning: bool,
    response_format: Option<Seq<char>>,
) -> CompatibilityPlanModel {
    CompatibilityPlanModel {
        dropped_parameters: if drops_reasoning(caps, user_reasoning) {
            seq!["reasoning"@]
        } else {
            seq![]
        },
        degraded_tools: seq![],
        effective_tool_choice: effective_tool_choice_spec(caps, has_tools, requested),
        diagnostics: plan_diagnostics_spec(caps, requested, user_reasoning, response_format),
    }
}

/// Character sequence of an optional string slice.
pub open spec fn opt_str(o: Option<&str>) -> Option<Seq<char>> {
    match o {
        Some(s) => Some(s@),
        None => None,
    }
}

impl ProviderCapabilities {
    /// Plan request compatibility: detect unsupported features and plan
    /// their degradation (see [`plan_for_request_spec`]).
    pub fn plan_for_request(
        &self,
        has_tools: bool,
        user_tool_choice: Option<&str>,
        user_reasoning: bool,
        response_format: Option<&str>,
    ) -> (r: CompatibilityPlan)
        ensures
            r@ == plan_for_request_spec(self@, has_tools, opt_str(user_tool_choice), user_reasoning, opt_str(response_format)),
    {
        let mut diagnostics: Vec<CompatibilityDiagnostic> = Vec::new();
        let effective_tool_choice = match user_tool_choice {
            Some(tc) => if contains_string(&self.tool_choice, tc) {
                Some(owned(tc))
            } else {
                diagnostics.push(
                    CompatibilityDiagnostic {
                        code: owned("compatibility.unsupported_tool_choice"),
                        severity: DiagnosticSeverity::Warn,
                        path: Some(owned("tool_choice")),
                        action: owned("degraded"),
                        message: concat3("Provider unknown does not support tool_choice '", tc, "', defaulting to 'auto'"),
                    },
                );
                if has_tools {
                    Some(owned("auto"))
                } else {
                    None
                }
            },
            None => if has_tools && !contains_string(&self.tool_choice, "auto") {
                Some(owned("required"))
            } else {
                None
            },
        };
        let ghost d1 = diagnostics@.map_values(|d: CompatibilityDiagnostic| d@);
        let mut dropped_parameters: Vec<String> = Vec::new();
        if user_reasoning && self.reasoning == ReasoningSupport::Unsupported {
            dropped_parameters.push(owned("reasoning"));
            diagnostics.push(
                CompatibilityDiagnostic {
                    code: owned("compatibility.unsupported_reasoning"),
                    severity: DiagnosticSeverity::Info,
                    path: Some(owned("reasoning")),
                    action: owned("ignored"),
                    message: owned("Provider unknown does not support reasoning, dropped from request"),
                },
            );
        }
        let ghost d2 = diagnostics@.map_values(|d: CompatibilityDiagnostic| d@);
        if let Some(rf) = response_format {
            if !contains_string(&self.response_formats, rf) {
                diagnostics.push(
                    CompatibilityDiagnostic {
                        code: owned("compatibility.unsupported_response_format"),
                        severity: DiagnosticSeverity::Warn,
                        path: Some(owned("response_format")),
                        action: owned("degraded"),
                        message: concat3("Provider unknown does not support response_format '", rf, "', may degrade to text"),
                    },
                );
            }
        }
        let r = CompatibilityPlan {
            dropped_parameters,
            degraded_tools: Vec::new(),
            effective_tool_choice,
            diagnostics,
        };
        let ghost sp = plan_for_request_spec(self@, has_tools, opt_str(user_tool_choice), user_reasoning, opt_str(response_format));
        assert(r@.dropped_parameters =~= sp.dropped_parameters);
        assert(r@.degraded_tools =~= sp.degraded_tools);
        assert(r@.diagnostics =~= sp.diagnostics);
        r
    }
}

// ===========================================================================
// Logging
// ===========================================================================

/// The line logged for a diagnostic.
pub open spec fn log_line(d: CompatibilityDiagnosticModel) -> Seq<char> {
    "["@ + d.code + "] "@ + (match d.path {
        Some(p) => p,
        None => "?"@,
    }) + ": "@ + d.message + " (action: "@ + d.action + ")"@
}

/// What logging the diagnostics writes: for each diagnostic, in order, its
/// line at the level of its severity (nothing for no diagnostics).
pub fn log_diagnostics(diagnostics: &[CompatibilityDiagnostic]) -> (r: Vec<(DiagnosticSeverity, String)>)
    ensures
        r@.len() == diagnostics@.len(),
        forall|i: int|
            0 <= i < r@.len() ==> (#[trigger] r@[i]).0 == diagnostics@[i].severity && r@[i].1@ == log_line(
                diagnostics@[i]@,
            ),
{
    let mut out: Vec<(DiagnosticSeverity, String)> = Vec::new();
    let mut i: usize = 0;
    while i < diagnostics.len()
        invariant
            i <= diagnostics.len(),
            out@.len() == i,
            forall|k: int|
                0 <= k < i ==> (#[trigger] out@[k]).0 == diagnostics@[k].severity && out@[k].1@ == log_line(
                    diagnostics@[k]@,
                ),
        decreases diagnostics.len() - i,
    {
        let d = &diagnostics[i];
        let mut line = concat3("[", d.code.as_str(), "] ");
        match &d.path {
            Some(p) => line.append(p.as_str()),
            None => line.append("?"),
        }
        line.append(": ");
        line.append(d.message.as_str());
        line.append(" (action: ");
        line.append(d.action.as_str());
        line.append(")");
        out.push((d.severity, line));
        i += 1;
    }
    out
}

} // verus!
