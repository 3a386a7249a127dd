//! Structured output: how a requested output format is adapted to a
//! provider, the instruction that carries a JSON schema, and the check that
//! an output is JSON.

use vstd::prelude::*;
use crate::text::{concat, join, join_seqs, owned, string_seqs};
use crate::json::{
    canonical_json, canonical_json_spec, json_error, json_pretty, json_string, opt_seq, spec_json_error,
    spec_json_pretty, spec_json_string,
};
use crate::types::responses::{TextFormat, TextFormatModel};

verus! {

broadcast use vstd::seq_lib::group_seq_properties;

/// How a requested output format is adapted to what a provider supports.
pub struct OutputContractPlan {
    /// The format asked for.
    pub requested: Option<TextFormat>,
    /// What is sent to the provider instead (JSON text).
    pub provider_format: Option<String>,
    /// Whether the JSON schema goes into the instructions.
    pub inject_schema_instruction: bool,
    /// Whether the output must be checked to be JSON.
    pub requires_valid_json: bool,
}

/// Model of [`OutputContractPlan`].
pub struct OutputContractPlanModel {
    pub requested: Option<TextFormatModel>,
    pub provider_format: Option<Seq<char>>,
    pub inject_schema_instruction: bool,
    pub requires_valid_json: bool,
}

impl View for OutputContractPlan {
    type V = OutputContractPlanModel;

    open spec fn view(&self) -> OutputContractPlanModel {
        OutputContractPlanModel {
            requested: (match self.requested { Some(x1) => Some(x1@), None => None }),
            provider_format: opt_seq(self.provider_format),
            inject_schema_instruction: self.inject_schema_instruction,
            requires_valid_json: self.requires_valid_json,
        }
    }
}

impl Clone for OutputContractPlan {
    fn clone(&self) -> (r: Self)
        ensures
            r@ == self@,
    {
        let c_requested = match &self.requested { Some(x2) => { let x3 = (*x2).clone(); Some(x3) }, None => None };
        let c_provider_format = self.provider_format.clone();
        let c_inject_schema_instruction = self.inject_schema_instruction;
        let c_requires_valid_json = self.requires_valid_json;
        OutputContractPlan { requested: c_requested, provider_format: c_provider_format, inject_schema_instruction: c_inject_schema_instruction, requires_valid_json: c_requires_valid_json }
    }
}



/// The JSON text of an optional flag: `true`, `false` or `null`.
pub open spec fn json_flag(b: Option<bool>) -> Seq<char> {
    match b {
        Some(true) => "true"@,
        Some(false) => "false"@,
        None => "null"@,
    }
}

/// The `json_schema` response format sent to a provider that supports it.
pub open spec fn json_schema_format(name: Seq<char>, schema: Seq<char>, strict: Option<bool>) -> Seq<char> {
    "{\"json_schema\":{\"name\":"@ + spec_json_string(name) + ",\"schema\":"@ + canonical_json_spec(schema)
        + ",\"strict\":"@ + json_flag(strict) + "},\"type\":\"json_schema\"}"@
}

/// The plan for a requested format: text and JSON objects pass through; a
/// JSON schema passes through where the provider supports it and otherwise
/// goes as a JSON object with the schema in the instructions; a strict
/// schema also asks for the output to be checked.
pub open spec fn output_contract_spec(format: Option<TextFormatModel>, supports_json_schema: bool) -> OutputContractPlanModel {
    match format {
        Some(TextFormatModel::JsonObject) => OutputContractPlanModel {
            requested: format,
            provider_format: Some("{\"type\":\"json_object\"}"@),
            inject_schema_instruction: false,
            requires_valid_json: false,
        },
        Some(TextFormatModel::JsonSchema { name, schema, strict }) => OutputContractPlanModel {
            requested: format,
            provider_format: Some(
                if supports_json_schema {
                    json_schema_format(name, schema, strict)
                } else {
                    "{\"type\":\"json_object\"}"@
                },
            ),
            inject_schema_instruction: !supports_json_schema,
            requires_valid_json: strict == Some(true),
        },
        _ => OutputContractPlanModel {
            requested: format,
            provider_format: Some("{\"type\":\"text\"}"@),
            inject_schema_instruction: false,
            requires_valid_json: false,
        },
    }
}

/// The model of an optional borrowed format.
pub open spec fn opt_format(f: Option<&TextFormat>) -> Option<TextFormatModel> {
    match f {
        Some(x) => Some(x@),
        None => None,
    }
}

/// Plan how to adapt a requested output format for a provider that may not
/// support `json_schema` (see [`output_contract_spec`]).
pub fn plan_output_contract(format: Option<&TextFormat>, supports_json_schema: bool) -> (r: OutputContractPlan)
    ensures
        r@ == output_contract_spec(opt_format(format), supports_json_schema),
{
    let requested = match format {
        Some(f) => Some(f.clone()),
        None => None,
    };
    match format {
        Some(TextFormat::JsonObject) => OutputContractPlan {
            requested,
            provider_format: Some(owned("{\"type\":\"json_object\"}")),
            inject_schema_instruction: false,
            requires_valid_json: false,
        },
        Some(TextFormat::JsonSchema { name, schema, strict }) => {
            let provider_format = if supports_json_schema {
                let mut t = concat("{\"json_schema\":{\"name\":", json_string(name.as_str()).as_str());
                t.append(",\"schema\":");
                t.append(canonical_json(schema.as_str()).as_str());
                t.append(",\"strict\":");
                match strict {
                    Some(true) => t.append("true"),
                    Some(false) => t.append("false"),
                    None => t.append("null"),
                }
                t.append("},\"type\":\"json_schema\"}");
                t
            } else {
                owned("{\"type\":\"json_object\"}")
            };
            OutputContractPlan {
                requested,
                provider_format: Some(provider_format),
                inject_schema_instruction: !supports_json_schema,
                requires_valid_json: *strict == Some(true),
            }
        },
        _ => OutputContractPlan {
            requested,
            provider_format: Some(owned("{\"type\":\"text\"}")),
            inject_schema_instruction: false,
            requires_valid_json: false,
        },
    }
}

/// The lines of the instruction for a JSON schema: what to answer with, the
/// schema written with indentation (empty when it is not JSON), and for a
/// strict schema a last line that insists on it.
pub open spec fn schema_instruction_lines(schema: Seq<char>, strict: Option<bool>) -> Seq<Seq<char>> {
    let base = seq![
        "You MUST respond with valid JSON only."@,
        "Do NOT include markdown, code fences, explanations, or extra text."@,
        Seq::<char>::empty(),
        "JSON Schema:"@,
        match spec_json_pretty(schema) {
            Some(p) => p,
            None => Seq::<char>::empty(),
        },
    ];
    if strict == Some(true) {
        base + seq![Seq::<char>::empty(), "The response MUST strictly follow the above JSON Schema."@]
    } else {
        base
    }
}

/// The instruction to put into the system prompt for a JSON schema format,
/// its lines joined by line breaks; none for other formats.
pub fn build_json_schema_instruction(format: &TextFormat) -> (r: Option<String>)
    ensures
        match format@ {
            TextFormatModel::JsonSchema { schema, strict, .. } => r matches Some(s) && s@ == join_seqs(
                schema_instruction_lines(schema, strict),
                "\n"@,
            ),
            _ => r is None,
        },
{
    match format {
        TextFormat::JsonSchema { schema, strict, .. } => {
            let mut parts: Vec<String> = Vec::new();
            parts.push(owned("You MUST respond with valid JSON only."));
            parts.push(owned("Do NOT include markdown, code fences, explanations, or extra text."));
            parts.push(String::new());
            parts.push(owned("JSON Schema:"));
            parts.push(
                match json_pretty(schema.as_str()) {
                    Some(p) => p,
                    None => String::new(),
                },
            );
            if *strict == Some(true) {
                parts.push(String::new());
                parts.push(owned("The response MUST strictly follow the above JSON Schema."));
            }
            assert(string_seqs(parts@) =~= schema_instruction_lines(schema@, *strict));
            Some(join(&parts, "\n"))
        },
        _ => None,
    }
}

/// Check that an output text is JSON: `Ok` exactly when it parses, else the
/// parser's message after `Response is not valid JSON: `.
pub fn validate_output_json(output_text: &str) -> (r: Result<(), String>)
    ensures
        match r {
            Ok(()) => crate::json::spec_parse_json(output_text@) is Some,
            Err(m) => crate::json::spec_parse_json(output_text@) is None && m@ == "Response is not valid JSON: "@
                + spec_json_error(output_text@),
        },
{
    match json_error(output_text) {
        None => Ok(()),
        Some(e) => Err(concat("Response is not valid JSON: ", e.as_str())),
    }
}

} // verus!
