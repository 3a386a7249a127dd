use ai_adapter::translate::compatibility::diagnostic::{CompatibilityAction, Diagnostic, DiagnosticSeverity as Sev};
use ai_adapter::translate::compatibility::plan::{
    CompatibilityPlan, ProviderCapabilities as PlanCaps, ReasoningSupport as PlanReasoning,
};
use ai_adapter::translate::compatibility::{
    log_diagnostics, CompatibilityDiagnostic, DiagnosticSeverity, ProviderCapabilities, ReasoningSupport,
};
use ai_adapter::translate::output_contract::{
    build_json_schema_instruction, plan_output_contract, validate_output_json,
};
use ai_adapter::translate::tool_degrade::degrade_tools;
use ai_adapter::types::responses::{
    FunctionDefinition, ReasoningConfig, ResponsesRequest, ResponsesTool, TextConfig, TextFormat,
};
use serde_json::Value;

fn request() -> ResponsesRequest {
    ResponsesRequest {
        model: "m".into(),
        input: None,
        instructions: None,
        stream: None,
        max_output_tokens: None,
        temperature: None,
        top_p: None,
        tools: None,
        tool_choice: None,
        reasoning: None,
        text: None,
        truncation: None,
        store: None,
        metadata: None,
        previous_response_id: None,
        session_id: None,
        user: None,
        service_tier: None,
        parallel_tool_calls: None,
        top_logprobs: None,
        frequency_penalty: None,
        presence_penalty: None,
    }
}

fn tool(name: &str) -> ResponsesTool {
    ResponsesTool {
        tool_type: name.into(),
        function: None,
        name: Some(name.into()),
        description: None,
        parameters: None,
        strict: None,
    }
}

#[test]
fn default_capabilities() {
    let c = ProviderCapabilities::default();
    assert_eq!(c.parameters.len(), 8);
    assert!(c.parameters.contains(&"max_output_tokens".to_string()));
    assert_eq!(c.tools, vec!["function".to_string()]);
    assert_eq!(c.max_tools, Some(128));
    assert_eq!(c.tool_choice, vec!["auto".to_string(), "none".to_string(), "required".to_string()]);
    assert_eq!(c.response_formats, vec!["text".to_string(), "json_object".to_string()]);
    assert_eq!(c.reasoning, ReasoningSupport::Unsupported);
    assert!(c.tool_degraded.is_empty());
}

#[test]
fn plan_keeps_supported_choices() {
    let c = ProviderCapabilities::default();
    let p = c.plan_for_request(true, Some("required"), false, Some("text"));
    assert_eq!(p.effective_tool_choice.as_deref(), Some("required"));
    assert!(p.diagnostics.is_empty());
    assert!(p.dropped_parameters.is_empty());
    let p = c.plan_for_request(true, None, false, None);
    assert_eq!(p.effective_tool_choice, None);
}

#[test]
fn plan_degrades_unsupported_choice_and_drops_reasoning() {
    let c = ProviderCapabilities::default();
    let p = c.plan_for_request(true, Some("web"), true, Some("json_schema"));
    assert_eq!(p.effective_tool_choice.as_deref(), Some("auto"));
    assert_eq!(p.dropped_parameters, vec!["reasoning".to_string()]);
    assert_eq!(p.diagnostics.len(), 3);
    assert_eq!(p.diagnostics[0].code, "compatibility.unsupported_tool_choice");
    assert_eq!(p.diagnostics[0].severity, DiagnosticSeverity::Warn);
    assert_eq!(
        p.diagnostics[0].message,
        "Provider unknown does not support tool_choice 'web', defaulting to 'auto'"
    );
    assert_eq!(p.diagnostics[1].code, "compatibility.unsupported_reasoning");
    assert_eq!(p.diagnostics[1].severity, DiagnosticSeverity::Info);
    assert_eq!(p.diagnostics[1].action, "ignored");
    assert_eq!(
        p.diagnostics[2].message,
        "Provider unknown does not support response_format 'json_schema', may degrade to text"
    );
    let p = c.plan_for_request(false, Some("web"), false, None);
    assert_eq!(p.effective_tool_choice, None);
}

#[test]
fn plan_requires_tool_when_auto_unsupported() {
    let mut c = ProviderCapabilities::default();
    c.tool_choice = vec!["required".to_string()];
    c.reasoning = ReasoningSupport::Native;
    let p = c.plan_for_request(true, None, true, None);
    assert_eq!(p.effective_tool_choice.as_deref(), Some("required"));
    assert!(p.dropped_parameters.is_empty());
}

#[test]
fn log_lines_carry_level_and_text() {
    let d = vec![
        CompatibilityDiagnostic {
            code: "c1".into(),
            severity: DiagnosticSeverity::Error,
            path: Some("tools".into()),
            action: "rejected".into(),
            message: "no".into(),
        },
        CompatibilityDiagnostic {
            code: "c2".into(),
            severity: DiagnosticSeverity::Info,
            path: None,
            action: "ignored".into(),
            message: "meh".into(),
        },
    ];
    let lines = log_diagnostics(&d);
    assert_eq!(lines.len(), 2);
    assert_eq!(lines[0].0, DiagnosticSeverity::Error);
    assert_eq!(lines[0].1, "[c1] tools: no (action: rejected)");
    assert_eq!(lines[1].1, "[c2] ?: meh (action: ignored)");
    assert!(log_diagnostics(&[]).is_empty());
}

#[test]
fn plan_degrades_json_schema_to_json_object() {
    let mut req = request();
    req.text = Some(TextConfig {
        format: Some(TextFormat::JsonSchema { name: "n".into(), schema: "{}".into(), strict: None }),
    });
    let mut plan = CompatibilityPlan::new();
    plan.plan(&req, &PlanCaps::default(), "deepseek", "chat");
    assert_eq!(plan.diagnostics.len(), 1);
    let d = &plan.diagnostics[0];
    assert_eq!(d.code, "bridge.param.degraded");
    assert_eq!(d.action, CompatibilityAction::Degraded);
    assert_eq!(d.message, "json_schema degraded to json_object for deepseek");
    assert_eq!(d.path.as_deref(), Some("text.format"));
    let meta: Value = serde_json::from_str(d.metadata.as_ref().unwrap()).unwrap();
    assert_eq!(meta["requested"], "json_schema");
    assert_eq!(meta["effective"], "json_object");
}

#[test]
fn plan_rejects_and_ignores() {
    let mut req = request();
    req.text = Some(TextConfig { format: Some(TextFormat::JsonSchema { name: "n".into(), schema: "{}".into(), strict: None }) });
    req.tools = Some(vec![tool("a"), tool("b"), tool("c")]);
    req.stream = Some(true);
    req.reasoning = Some(ReasoningConfig { effort: None, summary: None });
    let mut caps = PlanCaps::default();
    caps.response_formats = vec!["text".into()];
    caps.max_tools = Some(2);
    caps.parameters = vec![];
    let mut plan = CompatibilityPlan::new();
    plan.plan(&req, &caps, "p", "m");
    let codes: Vec<&str> = plan.diagnostics.iter().map(|d| d.code.as_str()).collect();
    assert_eq!(codes, vec!["bridge.param.unsupported", "bridge.param.degraded", "bridge.param.ignored", "bridge.param.ignored"]);
    assert_eq!(plan.diagnostics[0].message, "response_format 'json_schema' not supported by p");
    assert_eq!(plan.diagnostics[0].severity, Sev::Error);
    assert_eq!(plan.diagnostics[1].message, "3 tools exceeds p max of 2");
    assert_eq!(plan.diagnostics[1].metadata.as_deref(), Some("{\"count\":3,\"max\":2}"));
    assert_eq!(plan.diagnostics[2].message, "streaming not supported by p, fallback to non-stream");
    assert_eq!(plan.diagnostics[3].message, "reasoning not supported by p, ignored");

    let mut caps = PlanCaps::default();
    caps.max_tools = None;
    caps.tools = vec![];
    caps.reasoning = PlanReasoning::Native;
    let mut req = request();
    req.tools = Some(vec![tool("a")]);
    let mut plan = CompatibilityPlan::new();
    plan.plan(&req, &caps, "p", "m");
    assert_eq!(plan.diagnostics.len(), 1);
    assert_eq!(plan.diagnostics[0].message, "p does not support tool calling");
}

#[test]
fn diagnostic_json_has_sorted_members() {
    let d = Diagnostic::new("c", Sev::Warn, CompatibilityAction::Ignored, "say \"hi\"".to_string(), "p", "m")
        .with_path("x.y")
        .with_metadata("{\"k\":1}".to_string());
    let text = d.to_json();
    assert!(text.starts_with("{\"action\":\"ignored\",\"code\":\"c\""));
    let v: Value = serde_json::from_str(&text).unwrap();
    assert_eq!(v["severity"], "warn");
    assert_eq!(v["message"], "say \"hi\"");
    assert_eq!(v["path"], "x.y");
    assert_eq!(v["metadata"]["k"], 1);
    let bare = Diagnostic::new("c", Sev::Info, CompatibilityAction::Supported, String::new(), "p", "m");
    let v: Value = serde_json::from_str(&bare.to_json()).unwrap();
    assert!(v["path"].is_null());
    assert!(v["metadata"].is_null());
    assert_eq!(Sev::Error.label(), "error");
    assert_eq!(CompatibilityAction::Rejected.label(), "rejected");
}

#[test]
fn output_contract_plans() {
    let p = plan_output_contract(None, false);
    assert_eq!(p.provider_format.as_deref(), Some("{\"type\":\"text\"}"));
    assert!(!p.inject_schema_instruction);
    let obj = TextFormat::JsonObject;
    let p = plan_output_contract(Some(&obj), false);
    assert_eq!(p.provider_format.as_deref(), Some("{\"type\":\"json_object\"}"));
    let schema = TextFormat::JsonSchema { name: "out".into(), schema: "{ \"type\": \"object\" }".into(), strict: Some(true) };
    let p = plan_output_contract(Some(&schema), true);
    assert_eq!(
        p.provider_format.as_deref(),
        Some("{\"json_schema\":{\"name\":\"out\",\"schema\":{\"type\":\"object\"},\"strict\":true},\"type\":\"json_schema\"}")
    );
    assert!(!p.inject_schema_instruction);
    assert!(p.requires_valid_json);
    let p = plan_output_contract(Some(&schema), false);
    assert_eq!(p.provider_format.as_deref(), Some("{\"type\":\"json_object\"}"));
    assert!(p.inject_schema_instruction);
    assert!(p.requires_valid_json);
}

#[test]
fn schema_instruction_and_validation() {
    let schema = TextFormat::JsonSchema { name: "out".into(), schema: "{\"type\":\"object\"}".into(), strict: Some(true) };
    let text = build_json_schema_instruction(&schema).unwrap();
    assert_eq!(
        text,
        "You MUST respond with valid JSON only.\nDo NOT include markdown, code fences, explanations, or extra text.\n\nJSON Schema:\n{\n  \"type\": \"object\"\n}\n\nThe response MUST strictly follow the above JSON Schema."
    );
    assert!(build_json_schema_instruction(&TextFormat::Text).is_none());
    assert_eq!(validate_output_json("{\"a\":1}"), Ok(()));
    let err = validate_output_json("nope").unwrap_err();
    assert!(err.starts_with("Response is not valid JSON: "));
    assert!(err.len() > "Response is not valid JSON: ".len());
}

#[test]
fn special_tools_become_functions() {
    let mut tools = vec![tool("shell"), tool("my_tool"), tool("apply_patch"), ResponsesTool {
        tool_type: "custom".into(),
        function: Some(FunctionDefinition { name: "web_search".into(), description: None, parameters: None }),
        name: None,
        description: None,
        parameters: None,
        strict: None,
    }];
    let n = degrade_tools(&mut tools);
    assert_eq!(n, 3);
    assert_eq!(tools[0].tool_type, "function");
    assert_eq!(tools[1].tool_type, "my_tool");
    assert_eq!(tools[2].tool_type, "function");
    assert_eq!(tools[3].tool_type, "function");
    let mut none: Vec<ResponsesTool> = vec![];
    assert_eq!(degrade_tools(&mut none), 0);
}
