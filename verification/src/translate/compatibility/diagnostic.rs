//! Compatibility diagnostics: what happened to a parameter or feature of a
//! request for a provider and model.

use vstd::prelude::*;
use crate::text::owned;
use crate::json::{json_string, opt_seq, spec_json_string};

verus! {

/// Severity of a compatibility diagnostic.
#[derive(Clone, Copy, PartialEq, Eq, Structural, Debug)]
pub enum DiagnosticSeverity {
    Info,
    Warn,
    Error,
}

/// What was done with a parameter or feature.
#[derive(Clone, Copy, PartialEq, Eq, Structural, Debug)]
pub enum CompatibilityAction {
    /// Fully supported, no change.
    Supported,
    /// Supported with degraded quality (such as `json_schema` sent as `json_object`).
    Degraded,
    /// Not forwarded upstream.
    Ignored,
    /// Refused: the request would give wrong results without it.
    Rejected,
}

/// The name of a severity.
pub open spec fn severity_label(s: DiagnosticSeverity) -> Seq<char> {
    match s {
        DiagnosticSeverity::Info => "info"@,
        DiagnosticSeverity::Warn => "warn"@,
        DiagnosticSeverity::Error => "error"@,
    }
}

/// The name of an action.
pub open spec fn action_label(a: CompatibilityAction) -> Seq<char> {
    match a {
        CompatibilityAction::Supported => "supported"@,
        CompatibilityAction::Degraded => "degraded"@,
        CompatibilityAction::Ignored => "ignored"@,
        CompatibilityAction::Rejected => "rejected"@,
    }
}

impl DiagnosticSeverity {
    /// The name of the severity, as it is displayed.
    pub fn label(&self) -> (r: String)
        ensures
            r@ == severity_label(*self),
    {
        match self {
            DiagnosticSeverity::Info => owned("info"),
            DiagnosticSeverity::Warn => owned("warn"),
            DiagnosticSeverity::Error => owned("error"),
        }
    }
}

impl CompatibilityAction {
    /// The name of the action, as it is displayed.
    pub fn label(&self) -> (r: String)
        ensures
            r@ == action_label(*self),
    {
        match self {
            CompatibilityAction::Supported => owned("supported"),
            CompatibilityAction::Degraded => owned("degraded"),
            CompatibilityAction::Ignored => owned("ignored"),
            CompatibilityAction::Rejected => owned("rejected"),
        }
    }
}

/// A compatibility diagnostic: how a request parameter or feature was handled for a provider and model.
pub struct Diagnostic {
    /// Machine-readable code (such as `bridge.param.degraded`).
    pub code: String,
    pub severity: DiagnosticSeverity,
    /// Path of the parameter in the request (such as `text.format`).
    pub path: Option<String>,
    /// What was done.
    pub action: CompatibilityAction,
    /// Human-readable explanation.
    pub message: String,
    pub provider: String,
    pub model: String,
    /// Metadata (JSON text).
    pub metadata: Option<String>,
}

/// Model of [`Diagnostic`].
pub struct DiagnosticModel {
    pub code: Seq<char>,
    pub severity: DiagnosticSeverity,
    pub path: Option<Seq<char>>,
    pub action: CompatibilityAction,
    pub message: Seq<char>,
    pub provider: Seq<char>,
    pub model: Seq<char>,
    pub metadata: Option<Seq<char>>,
}

impl View for Diagnostic {
    type V = DiagnosticModel;

    open spec fn view(&self) -> DiagnosticModel {
        DiagnosticModel {
            code: self.code@,
            severity: self.severity,
            path: opt_seq(self.path),
            action: self.action,
            message: self.message@,
            provider: self.provider@,
            model: self.model@,
            metadata: opt_seq(self.metadata),
        }
    }
}

impl Clone for Diagnostic {
    fn clone(&self) -> (r: Self)
        ensures
            r@ == self@,
    {
        let c_code = self.code.clone();
        let c_severity = self.severity;
        let c_path = self.path.clone();
        let c_action = self.action;
        let c_message = self.message.clone();
        let c_provider = self.provider.clone();
        let c_model = self.model.clone();
        let c_metadata = self.metadata.clone();
        Diagnostic { code: c_code, severity: c_severity, path: c_path, action: c_action, message: c_message, provider: c_provider, model: c_model, metadata: c_metadata }
    }
}



/// The JSON object of a diagnostic, members in `serde_json`'s (sorted)
/// order: strings as JSON literals, a missing path as `null`, the metadata
/// as it is or `null`.
pub open spec fn diagnostic_json(d: DiagnosticModel) -> Seq<char> {
    "{\"action\":"@ + spec_json_string(action_label(d.action)) + ",\"code\":"@ + spec_json_string(d.code)
        + ",\"message\":"@ + spec_json_string(d.message) + ",\"metadata\":"@ + (match d.metadata {
        Some(m) => m,
        None => "null"@,
    }) + ",\"model\":"@ + spec_json_string(d.model) + ",\"path\":"@ + (match d.path {
        Some(p) => spec_json_string(p),
        None => "null"@,
    }) + ",\"provider\":"@ + spec_json_string(d.provider) + ",\"severity\":"@ + spec_json_string(
        severity_label(d.severity),
    ) + "}"@
}

impl Diagnostic {
    /// A diagnostic without path or metadata.
    pub fn new(
        code: &str,
        severity: DiagnosticSeverity,
        action: CompatibilityAction,
        message: String,
        provider: &str,
        model: &str,
    ) -> (r: Self)
        ensures
            r@ == (DiagnosticModel {
                code: code@,
                severity,
                path: None,
                action,
                message: message@,
                provider: provider@,
                model: model@,
                metadata: None,
            }),
    {
        Diagnostic {
            code: owned(code),
            severity,
            path: None,
            action,
            message,
            provider: owned(provider),
            model: owned(model),
            metadata: None,
        }
    }

    /// The diagnostic with a path.
    pub fn with_path(self, path: &str) -> (r: Self)
        ensures
            r@ == (DiagnosticModel { path: Some(path@), ..self@ }),
    {
        let mut d = self;
        d.path = Some(owned(path));
        d
    }

    /// The diagnostic with metadata (JSON text).
    pub fn with_metadata(self, metadata: String) -> (r: Self)
        ensures
            r@ == (DiagnosticModel { metadata: Some(metadata@), ..self@ }),
    {
        let mut d = self;
        d.metadata = Some(metadata);
        d
    }

    /// The diagnostic as JSON text (see [`diagnostic_json`]), for logs and
    /// responses.
    pub fn to_json(&self) -> (r: String)
        ensures
            r@ == diagnostic_json(self@),
    {
        let mut out = owned("{\"action\":");
        out.append(json_string(self.action.label().as_str()).as_str());
        out.append(",\"code\":");
        out.append(json_string(self.code.as_str()).as_str());
        out.append(",\"message\":");
        out.append(json_string(self.message.as_str()).as_str());
        out.append(",\"metadata\":");
        match &self.metadata {
            Some(m) => out.append(m.as_str()),
            None => out.append("null"),
        }
        out.append(",\"model\":");
        out.append(json_string(self.model.as_str()).as_str());
        out.append(",\"path\":");
        match &self.path {
            Some(p) => out.append(json_string(p.as_str()).as_str()),
            None => out.append("null"),
        }
        out.append(",\"provider\":");
        out.append(json_string(self.provider.as_str()).as_str());
        out.append(",\"severity\":");
        out.append(json_string(self.severity.label().as_str()).as_str());
        out.append("}");
        out
    }
}

} // verus!
