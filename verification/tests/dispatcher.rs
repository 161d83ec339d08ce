use omega_tui::dispatcher::{ToolAliasError, ToolDispatcher, ToolHandler, ToolManifest};
use omega_tui::tools::{
    ToolErrorKind, ToolFamily, ToolPromptProfile, ToolRemediationKind, ToolResult, ToolStability,
};
use serde_json::Value;

fn json(text: &str) -> Value {
    serde_json::from_str(text).unwrap()
}

struct EchoTool;

impl ToolHandler for EchoTool {
    fn name(&self) -> &str {
        "echo"
    }

    fn description(&self) -> &str {
        "Echoes input back."
    }

    fn input_schema(&self) -> Value {
        json(r#"{"type":"object","properties":{"text":{"type":"string"}},"required":["text"]}"#)
    }

    fn execute(&self, input: Value) -> anyhow::Result<String> {
        let text = input["text"].as_str().unwrap_or("(no text)").to_string();
        Ok(text)
    }
}

struct FailTool;

impl ToolHandler for FailTool {
    fn name(&self) -> &str {
        "fail"
    }

    fn description(&self) -> &str {
        "Always fails."
    }

    fn input_schema(&self) -> Value {
        json(r#"{"type":"object"}"#)
    }

    fn execute(&self, _input: Value) -> anyhow::Result<String> {
        Err(anyhow::Error::msg("intentional failure"))
    }
}

struct SecondTool;

impl ToolHandler for SecondTool {
    fn name(&self) -> &str {
        "second"
    }

    fn description(&self) -> &str {
        "Second tool"
    }

    fn input_schema(&self) -> Value {
        json(r#"{"type":"object"}"#)
    }

    fn execute(&self, _input: Value) -> anyhow::Result<String> {
        Ok("second".to_string())
    }
}

#[test]
fn new_dispatcher_is_empty() {
    let d = ToolDispatcher::new();
    assert!(d.is_empty());
    assert_eq!(d.len(), 0);
}

#[test]
fn default_dispatcher_is_empty() {
    let d = ToolDispatcher::default();
    assert!(d.is_empty());
}

#[test]
fn register_and_dispatch() {
    let mut d = ToolDispatcher::new();
    d.register(Box::new(EchoTool));

    assert_eq!(d.len(), 1);
    assert!(!d.is_empty());
    assert!(d.has_tool("echo"));
    assert!(!d.has_tool("bash"));

    let result = d.dispatch("echo", json(r#"{"text":"hello"}"#)).unwrap();
    assert_eq!(result.output, "hello");
    assert!(!result.is_error());
}

#[test]
fn dispatch_unknown_tool_returns_error_string() {
    let d = ToolDispatcher::new();
    let result = d.dispatch("nonexistent", json("{}")).unwrap();
    assert_eq!(result.output, "Unknown tool: nonexistent");
    assert_eq!(result.error_kind, Some(ToolErrorKind::UnknownTool));
}

#[test]
fn dispatch_failing_tool_propagates_error() {
    let mut d = ToolDispatcher::new();
    d.register(Box::new(FailTool));

    let result = d.dispatch("fail", json("{}"));
    assert!(result.is_err());
    assert!(
        result.unwrap_err().to_string().contains("intentional"),
        "should propagate tool error"
    );
}

#[test]
fn to_schemas_produces_valid_tool_definitions() {
    let mut d = ToolDispatcher::new();
    d.register(Box::new(EchoTool));

    let schemas = d.to_schemas();
    assert_eq!(schemas.len(), 1);

    let schema = &schemas[0];
    assert_eq!(schema["name"], "echo");
    assert_eq!(schema["description"], "Echoes input back.");
    assert_eq!(schema["input_schema"]["type"], "object");
    assert!(schema["input_schema"]["properties"]["text"].is_object());
}

#[test]
fn to_schemas_deserialize_into_omega_client_tool_definition() {
    let mut d = ToolDispatcher::new();
    d.register(Box::new(EchoTool));

    let schemas = d.to_schemas();
    let tool = schemas[0].as_object().expect("schema should be an object");

    assert_eq!(tool["name"], "echo");
    assert_eq!(tool["description"], "Echoes input back.");
    assert_eq!(tool["input_schema"]["type"], "object");
    assert_eq!(tool["input_schema"]["required"][0], "text");
}

#[test]
fn to_schemas_sorted_by_name() {
    let mut d = ToolDispatcher::new();
    d.register(Box::new(FailTool));
    d.register(Box::new(EchoTool));

    let schemas = d.to_schemas();
    assert_eq!(schemas[0]["name"], "echo");
    assert_eq!(schemas[1]["name"], "fail");
}

#[test]
fn to_schemas_filtered_returns_sorted_subset() {
    let mut d = ToolDispatcher::new();
    d.register(Box::new(EchoTool));
    d.register(Box::new(SecondTool));

    let schemas = d.to_schemas_filtered(&["second", "echo", "missing"]);

    assert_eq!(schemas.len(), 2);
    assert_eq!(schemas[0]["name"], "echo");
    assert_eq!(schemas[1]["name"], "second");
}

#[test]
fn to_schemas_filtered_resolves_aliases_to_canonical_schema() {
    let mut d = ToolDispatcher::new();
    d.register(Box::new(EchoTool));
    d.register_alias("echo_alias", "echo").unwrap();

    let schemas = d.to_schemas_filtered(&["echo_alias"]);

    assert_eq!(schemas.len(), 1);
    assert_eq!(schemas[0]["name"], "echo");
}

struct EchoV2;

impl ToolHandler for EchoV2 {
    fn name(&self) -> &str {
        "echo"
    }
    fn description(&self) -> &str {
        "Echo v2"
    }
    fn input_schema(&self) -> Value {
        json(r#"{"type":"object"}"#)
    }
    fn execute(&self, _input: Value) -> anyhow::Result<String> {
        Ok("v2".into())
    }
}

#[test]
fn register_replaces_existing_handler() {
    let mut d = ToolDispatcher::new();
    d.register(Box::new(EchoTool));
    d.register(Box::new(EchoV2));

    assert_eq!(d.len(), 1, "should still have 1 handler");
    let result = d.dispatch("echo", json("{}")).unwrap();
    assert_eq!(result.output, "v2");
}

#[test]
fn tool_names_returns_sorted_list() {
    let mut d = ToolDispatcher::new();
    d.register(Box::new(FailTool));
    d.register(Box::new(EchoTool));

    assert_eq!(d.tool_names(), vec!["echo", "fail"]);
}

#[test]
fn aliases_dispatch_but_do_not_expand_visible_schema_surface() {
    let mut d = ToolDispatcher::new();
    d.register(Box::new(EchoTool));
    d.register_alias("echo_alias", "echo").unwrap();

    assert!(d.has_tool("echo_alias"));
    assert_eq!(
        d.dispatch("echo_alias", json(r#"{"text":"aliased"}"#)).unwrap().output,
        "aliased"
    );
    assert_eq!(d.to_schemas().len(), 1);
    assert_eq!(d.tool_names(), vec!["echo"]);
    assert_eq!(d.manifest_for("echo_alias").expect("alias manifest metadata").id, "echo");
}

#[test]
fn dispatch_with_missing_optional_field() {
    let mut d = ToolDispatcher::new();
    d.register(Box::new(EchoTool));

    let result = d.dispatch("echo", json("{}")).unwrap();
    assert_eq!(result.output, "(no text)");
}

#[test]
fn multiple_tools_dispatch_correctly() {
    let mut d = ToolDispatcher::new();
    d.register(Box::new(EchoTool));
    d.register(Box::new(FailTool));

    assert_eq!(d.len(), 2);
    assert_eq!(d.dispatch("echo", json(r#"{"text":"ok"}"#)).unwrap().output, "ok");
    assert!(d.dispatch("fail", json("{}")).is_err());
}

#[test]
fn legacy_execute_is_wrapped_into_tool_result_v2() {
    let mut d = ToolDispatcher::new();
    d.register(Box::new(EchoTool));

    let result = d.dispatch("echo", json(r#"{"text":"wrapped"}"#)).unwrap();

    assert_eq!(result, ToolResult::success("wrapped"));
}

#[test]
fn dispatch_text_preserves_legacy_output_shape() {
    let mut d = ToolDispatcher::new();
    d.register(Box::new(EchoTool));

    let result = d.dispatch_text("echo", json(r#"{"text":"plain"}"#)).unwrap();

    assert_eq!(result, "plain");
}

struct PreviewTool;

impl ToolHandler for PreviewTool {
    fn name(&self) -> &str {
        "preview"
    }

    fn description(&self) -> &str {
        "Preview-aware tool"
    }

    fn input_schema(&self) -> Value {
        json(r#"{"type":"object"}"#)
    }

    fn execute(&self, _input: Value) -> anyhow::Result<String> {
        Ok("legacy".to_string())
    }

    fn execute_v2(&self, _input: Value) -> anyhow::Result<ToolResult> {
        Ok(ToolResult::success("typed")
            .with_preview("typed preview")
            .with_metadata(json(r#"{"source":"v2"}"#)))
    }
}

#[test]
fn dispatcher_uses_execute_v2_when_handler_overrides_it() {
    let mut d = ToolDispatcher::new();
    d.register(Box::new(PreviewTool));

    let result = d.dispatch("preview", json("{}")).unwrap();

    assert_eq!(result.output, "typed");
    assert_eq!(result.preview.as_deref(), Some("typed preview"));
    assert_eq!(result.metadata["source"], "v2");
}

fn echo_prompt() -> ToolPromptProfile {
    ToolPromptProfile {
        summary: "Structured echo tool".to_string(),
        when_to_use: vec!["you need a simple round-trip test".to_string()],
        when_not_to_use: vec!["you need filesystem access".to_string()],
        prefer_over: vec!["bash".to_string()],
        fallback_to: vec!["bash".to_string()],
        examples: vec!["echo hello".to_string()],
        anti_patterns: vec!["using it as a file reader".to_string()],
    }
}

#[test]
fn register_manifest_preserves_manifest_metadata() {
    let mut d = ToolDispatcher::new();
    d.register_manifest(ToolManifest::new(
        "echo",
        "Echo",
        ToolFamily::Interaction,
        ToolStability::Preview,
        echo_prompt(),
        Box::new(EchoTool),
    ));

    let manifest = d.manifest_for("echo").expect("manifest should exist");
    assert_eq!(manifest.id, "echo");
    assert_eq!(manifest.display_name, "Echo");
    assert_eq!(manifest.family, ToolFamily::Interaction);
    assert_eq!(manifest.stability, ToolStability::Preview);
    assert_eq!(manifest.prompt.summary, "Structured echo tool");
    assert_eq!(manifest.description, "Echoes input back.");
    assert_eq!(manifest.input_schema["type"], "object");
}

struct FailingResultTool;

impl ToolHandler for FailingResultTool {
    fn name(&self) -> &str {
        "failing_result"
    }

    fn description(&self) -> &str {
        "Returns a typed error result"
    }

    fn input_schema(&self) -> Value {
        json(r#"{"type":"object"}"#)
    }

    fn execute(&self, _input: Value) -> anyhow::Result<String> {
        Ok("unused".to_string())
    }

    fn execute_v2(&self, _input: Value) -> anyhow::Result<ToolResult> {
        Ok(ToolResult::error("failed", ToolErrorKind::Execution))
    }
}

#[test]
fn dispatch_adds_manifest_based_remediation_to_error_results() {
    let mut d = ToolDispatcher::new();
    d.register_manifest(ToolManifest::new(
        "failing_result",
        "Failing Result",
        ToolFamily::WorkspaceInspection,
        ToolStability::Stable,
        ToolPromptProfile {
            summary: "A tool that fails with a typed result".to_string(),
            when_to_use: vec!["never".to_string()],
            when_not_to_use: vec!["always".to_string()],
            prefer_over: vec![],
            fallback_to: vec!["read_file".to_string(), "grep_search".to_string()],
            examples: vec![],
            anti_patterns: vec![],
        },
        Box::new(FailingResultTool),
    ));

    let result = d.dispatch("failing_result", json("{}")).unwrap();

    assert_eq!(result.error_kind, Some(ToolErrorKind::Execution));
    let remediation = result.remediation.expect("remediation should be attached");
    assert_eq!(remediation.kind, ToolRemediationKind::RetryOrFallback);
    assert_eq!(remediation.alternative_tools, vec!["read_file", "grep_search"]);
    assert!(remediation.recoverable);
}

#[test]
fn legacy_register_wraps_handler_into_default_manifest() {
    let mut d = ToolDispatcher::new();
    d.register(Box::new(EchoTool));

    let manifest = d.manifest_for("echo").expect("manifest should exist");
    assert_eq!(manifest.display_name, "Echo");
    assert_eq!(manifest.family, ToolFamily::Other);
    assert_eq!(manifest.stability, ToolStability::Stable);
    assert_eq!(manifest.prompt.summary, "Echoes input back.");
}

#[test]
fn alias_errors_name_each_refusal() {
    let mut d = ToolDispatcher::new();
    d.register(Box::new(EchoTool));
    assert_eq!(d.register_alias("  ", "echo"), Err(ToolAliasError::EmptyAlias));
    assert_eq!(d.register_alias("e", " "), Err(ToolAliasError::EmptyTarget));
    assert_eq!(
        d.register_alias("echo", "echo"),
        Err(ToolAliasError::SelfTarget("echo".to_string()))
    );
    assert_eq!(
        d.register_alias("echo", "other"),
        Err(ToolAliasError::ConflictsWithTool("echo".to_string()))
    );
    assert_eq!(
        d.register_alias("e", "missing"),
        Err(ToolAliasError::UnknownTarget("e".to_string(), "missing".to_string()))
    );
    assert_eq!(d.register_alias("e", "echo"), Ok(()));
    assert_eq!(d.len(), 1);
}
