use stratum::core_types::{DangerLevel, ToolKind};
use stratum::tools::{ApplyPatchTool, BuiltinToolRegistry, EchoTool, ToolError, ToolPermissionMode};

#[test]
fn permission_modes_apply_the_declared_matrix() {
    let cases = [
        (ToolPermissionMode::Allow, ToolKind::Write, DangerLevel::High, false),
        (ToolPermissionMode::PartialAllow, ToolKind::Read, DangerLevel::Low, false),
        (ToolPermissionMode::PartialAllow, ToolKind::Read, DangerLevel::Medium, true),
        (ToolPermissionMode::PartialAllow, ToolKind::Write, DangerLevel::Low, true),
        (ToolPermissionMode::RequireApproval, ToolKind::Read, DangerLevel::Low, true),
    ];

    for (mode, kind, danger_level, expected_approval) in cases {
        let mut registry = BuiltinToolRegistry::new(mode);
        registry
            .register(EchoTool::new(), kind, danger_level)
            .expect("echo registers");

        let approval_metadata = registry
            .authorization("echo")
            .expect("echo is registered");

        assert_eq!(approval_metadata.is_some(), expected_approval);
    }
}

#[test]
fn duplicate_registration_fails() {
    let mut registry = BuiltinToolRegistry::default();
    registry
        .register(EchoTool::new(), ToolKind::Read, DangerLevel::Low)
        .expect("first registration should succeed");

    let error = registry
        .register(EchoTool::new(), ToolKind::Read, DangerLevel::Low)
        .expect_err("duplicate registration should fail");

    assert!(matches!(
        error,
        ToolError::DuplicateTool { ref name } if name == "echo"
    ));
}

#[test]
fn unknown_tool_authorization_is_not_found() {
    let registry: BuiltinToolRegistry<EchoTool> = BuiltinToolRegistry::default();
    let error = registry.authorization("missing").expect_err("missing tool");
    assert!(matches!(error, ToolError::ToolNotFound { ref name } if name == "missing"));
    assert_eq!(error.text(), "tool not found: missing");
    assert!(registry.get("missing").is_none());
}

#[test]
fn specs_are_listed_in_name_order() {
    let mut registry = BuiltinToolRegistry::new(ToolPermissionMode::Allow);
    registry.insert("zeta".to_string(), EchoTool::new(), ToolKind::Read, DangerLevel::Low).unwrap();
    registry.insert("alpha".to_string(), EchoTool::new(), ToolKind::Write, DangerLevel::High).unwrap();
    let names: Vec<String> = registry.specs().into_iter().map(|s| s.name).collect();
    assert_eq!(names, vec!["alpha", "zeta"]);
    assert_eq!(registry.authorization("alpha").unwrap(), None);
}

#[test]
fn required_approval_reports_kind_and_danger() {
    let mut registry = BuiltinToolRegistry::new(ToolPermissionMode::RequireApproval);
    registry.register(EchoTool::default(), ToolKind::Write, DangerLevel::Medium).unwrap();
    assert_eq!(registry.authorization("echo").unwrap(), Some((ToolKind::Write, DangerLevel::Medium)));
}

#[test]
fn echo_returns_object_arguments_and_rejects_others() {
    let echo = EchoTool::new();
    assert_eq!(echo.spec.name, "echo");
    assert_eq!(echo.call("{\"a\":1}".to_string(), false).unwrap(), "{\"a\":1}");
    assert!(matches!(echo.call("{}".to_string(), true), Err(ToolError::Cancelled)));
    let error = echo.call("[1]".to_string(), false).unwrap_err();
    assert_eq!(error.text(), "invalid argument arguments: must be an object");
}

#[test]
fn apply_patch_schema_requires_diff_only_for_create_and_update() {
    let mut registry = BuiltinToolRegistry::default();
    registry
        .register(ApplyPatchTool::new(()), ToolKind::Write, DangerLevel::High)
        .expect("apply patch should register");
    let specs = registry.specs();
    let spec = specs.iter().find(|spec| spec.name == "apply_patch").expect("apply patch spec");
    let schema: serde_json::Value = serde_json::from_str(&spec.input_schema).expect("schema is JSON");
    let operation = &schema["properties"]["operation"];
    let mut required = serde_json::Value::Array(Vec::new());
    if let serde_json::Value::Array(items) = &mut required {
        items.push(serde_json::Value::String("type".to_string()));
        items.push(serde_json::Value::String("path".to_string()));
    }
    assert_eq!(operation["required"], required);
    let expected: serde_json::Value = serde_json::from_str(
        "[{\"if\":{\"properties\":{\"type\":{\"enum\":[\"create_file\",\"update_file\"]}},\"required\":[\"type\"]},\"then\":{\"required\":[\"diff\"]}}]",
    )
    .expect("expected schema is JSON");
    assert_eq!(operation["allOf"], expected);
}
