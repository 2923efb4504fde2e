use hooksmith::json::JsonValue;
use hooksmith::snapshot_verify::{apply_json_patch, generate_concern_patch};
use hooksmith::agreement_manager::{
    agreement_created_message, list_lines, new_agreement, note_ref, show_lines, with_status, Agreement,
    AgreementStatus,
};
use hooksmith::hook_builder::{basic_metadata, build_succeeded, targets_from_listing, HookBuildConfig, HookBuilder};
use hooksmith::lefthook::{lefthook_config_for, LefthookConfig};
use hooksmith::tree_split_planner::{
    assess_dependency_risk, create_contract_split, generate_warnings, is_rust_file, CrateSplit, DependencyRisk,
};
use hooksmith::wasm::{
    bindings_output_path, generate_placeholder_bindings, generate_placeholder_wasm, get_wasm_info,
    validate_wit_file, wasm_output_path, WasmBuildConfig,
};
use hooksmith::worktree::{HookManager, WorktreeManager};

#[test]
fn test_rust_file_detection() {
    assert!(is_rust_file("src/lib.rs"));
    assert!(is_rust_file("main.rs"));
    assert!(!is_rust_file("README.md"));
    assert!(!is_rust_file("Cargo.toml"));
}

#[test]
fn split_warnings_and_risk() {
    let s = CrateSplit {
        crate_name: "big".to_string(),
        files: vec![],
        rationale: String::new(),
        estimated_loc: 1200,
        contract_count: 2,
        dependency_risk: DependencyRisk::CycleDetected,
        recommended: true,
    };
    let w = generate_warnings(1000, &[s]);
    assert_eq!(
        w,
        vec![
            "Crate 'big' exceeds size limit (1200 LOC > 1000 LOC)",
            "Crate 'big' has multiple contracts (2), consider splitting",
            "Crate 'big' has dependency cycles - manual intervention required",
        ]
    );
    assert_eq!(assess_dependency_risk(0, 0), DependencyRisk::Low);
    assert_eq!(assess_dependency_risk(10, 1), DependencyRisk::Low);
    assert_eq!(assess_dependency_risk(10, 2), DependencyRisk::Medium);
    assert_eq!(assess_dependency_risk(10, 5), DependencyRisk::High);
    let c = create_contract_split(&vec!["a.rs".to_string()], &vec![40], &vec![3]);
    assert_eq!(c.rationale, "High contract density (3 contracts)");
    assert!(c.recommended);
    assert_eq!(c.estimated_loc, 40);
}

#[test]
fn wasm_outputs_and_info() {
    let cfg = WasmBuildConfig::default();
    assert_eq!(wasm_output_path(&cfg), "target/wasm/interface.wasm");
    assert_eq!(bindings_output_path("out", "interface"), "out/interface_bindings.rs");
    let bytes = generate_placeholder_wasm().unwrap();
    assert_eq!(bytes.len(), 37);
    let info = get_wasm_info(&bytes).unwrap();
    assert_eq!(info[0], ("size_bytes".to_string(), "37".to_string()));
    assert_eq!(info[1], ("valid_wasm".to_string(), "true".to_string()));
    let info = get_wasm_info(b"nope").unwrap();
    assert_eq!(info.len(), 2);
    assert_eq!(info[1].1, "false");
    let b = generate_placeholder_bindings("demo").unwrap();
    assert!(b.contains("pub struct demoComponent"));
    assert!(b.starts_with("\n// Generated bindings for demo component"));
}

#[test]
fn test_wit_validation() {
    assert!(validate_wit_file("dir/test.wit", true).is_ok());
    assert!(validate_wit_file("dir/test", true).is_ok());
    assert_eq!(validate_wit_file("x.txt", true).unwrap_err(), "File does not have .wit extension: \"x.txt\"");
    assert_eq!(validate_wit_file("x.wit", false).unwrap_err(), "WIT file does not exist: \"x.wit\"");
}

#[test]
fn lefthook_configuration_has_the_hooks() {
    let c = lefthook_config_for("target/hooks", Some(vec!["components/worktree-runner".to_string()]));
    let pre = c.pre_commit.as_ref().unwrap();
    assert_eq!(pre.names(), vec!["hooksmith-build", "hooksmith-wasm-0"]);
    assert_eq!(pre.get("hooksmith-build").unwrap().command, "target/hooks/build-hook");
    assert_eq!(
        pre.get("hooksmith-wasm-0").unwrap().command,
        "target/hooks/wasm-runner components/worktree-runner"
    );
    assert_eq!(c.pre_push.as_ref().unwrap().get("hooksmith-test").unwrap().command, "target/hooks/test-hook");
    let d = LefthookConfig::default();
    assert!(d.pre_commit.is_none());
}

#[test]
fn hook_builder_plans_the_build() {
    let builder = HookBuilder::new();
    let mut cfg = HookBuildConfig::default();
    cfg.features = vec!["a".to_string(), "b".to_string()];
    cfg.target = Some("x86_64-unknown-linux-gnu".to_string());
    assert_eq!(
        builder.cargo_build_args(&cfg),
        vec!["build", "--release", "--target", "x86_64-unknown-linux-gnu", "--features", "a,b"]
    );
    assert_eq!(builder.source_binary_path(&cfg), "target/x86_64-unknown-linux-gnu/release/hook");
    cfg.optimize = false;
    cfg.target = None;
    assert_eq!(builder.source_binary_path(&cfg), "target/debug/hook");
    assert_eq!(builder.output_binary_path(&cfg), "target/hooks/hook");
    assert_eq!(builder.metadata_path(&cfg), "target/hooks/hook.json");
    cfg.wasm_components = vec!["c/runner.wasm".to_string(), "..".to_string()];
    cfg.link_wasm = true;
    let m = builder.generate_metadata(&cfg).unwrap();
    assert_eq!(m.wasm_dependencies, vec!["runner.wasm", ""]);
    assert!(m.requires_wasm);
    assert_eq!(m.supported_hooks, vec!["pre-commit", "pre-push"]);
    let targets = targets_from_listing("aarch64-linux (installed)\nx86_64-linux (default)\n\nwasm32 \n");
    assert_eq!(targets, vec!["aarch64-linux", "wasm32"]);
    assert_eq!(builder.is_target_supported(&targets, "wasm32"), Ok(true));
    assert_eq!(builder.is_target_supported(&targets, "x86_64-linux"), Ok(false));
    let r = build_succeeded("out/hook".to_string(), "ok".to_string(), 12, 345);
    assert_eq!(r.metadata[1], ("binary_size".to_string(), "345".to_string()));
    assert_eq!(basic_metadata("h".to_string()).name, "h");
}

#[test]
fn agreements_report() {
    let a = Agreement { scope: "test-scope".to_string(), contract: "test-contract".to_string() };
    assert_eq!(a.scope, "test-scope");
    let m = new_agreement("test-scope-sha", "test-contract-sha", Some("Test agreement"), "me".to_string());
    assert_eq!(m.status, AgreementStatus::Active);
    assert_eq!(
        agreement_created_message("test-scope-sha", "test-contract-sha"),
        "Agreement created: scope=test-scope-sha, contract=test-contract-sha"
    );
    assert_eq!(note_ref("refs/notes/x", "a/b"), "refs/notes/x/a_b");
    let lines = list_lines(&vec![m.clone()]);
    assert_eq!(lines[0], "📝 Agreements:");
    assert_eq!(lines[3], "  Status: Active");
    assert_eq!(lines[5], "  Description: Test agreement");
    assert_eq!(lines[6], "");
    assert_eq!(list_lines(&vec![]), vec!["📝 No agreements found"]);
    assert_eq!(show_lines("s", None), vec!["❌ No agreement found for scope: s"]);
    let m2 = with_status(m, AgreementStatus::Revoked);
    assert_eq!(show_lines("s", Some(&m2))[3], "  Status: Revoked");
}

#[test]
fn worktree_and_hook_manager_report() {
    let w = WorktreeManager::new();
    assert_eq!(w.create("wt", None).unwrap(), "Creating worktree: wt from current branch");
    assert_eq!(w.create("wt", Some("main")).unwrap(), "Creating worktree: wt from main");
    assert_eq!(w.list().unwrap(), "Listing worktrees...");
    let h = HookManager::new();
    assert_eq!(h.run("pre-commit").unwrap(), "Running hook: pre-commit");
    assert_eq!(h.install_safety_hooks().unwrap(), "Installing worktree safety hooks...");
}

#[test]
fn json_patch_round_trip() {
    let observed = JsonValue::Object(vec![("a".to_string(), JsonValue::Number("1".to_string()))]);
    let expected = JsonValue::Object(vec![("a".to_string(), JsonValue::Number("2".to_string()))]);
    let ops = generate_concern_patch(&observed, &expected);
    assert_eq!(ops.len(), 1);
    assert_eq!(apply_json_patch(&observed, &ops), Ok("{\"a\":2}".to_string()));
    assert!(apply_json_patch(&observed, &vec!["{\"op\":\"remove\",\"path\":\"/b\"}".to_string()]).is_err());
}

#[test]
fn dependency_risk_at_the_limits() {
    assert_eq!(assess_dependency_risk(u64::MAX, u64::MAX), DependencyRisk::High);
    assert_eq!(assess_dependency_risk(u64::MAX, 0), DependencyRisk::Low);
    assert_eq!(assess_dependency_risk(u64::MAX, u64::MAX / 4), DependencyRisk::Medium);
    assert_eq!(assess_dependency_risk(3, 7), DependencyRisk::High);
}

#[test]
fn canonical_objects_have_ascending_keys() {
    let obj = |fields: Vec<(&str, JsonValue)>| {
        JsonValue::Object(fields.into_iter().map(|(k, v)| (k.to_string(), v)).collect())
    };
    assert!(hooksmith::json::is_canonical(&obj(vec![("a", JsonValue::Null), ("b", JsonValue::Bool(true))])));
    assert!(!hooksmith::json::is_canonical(&obj(vec![("b", JsonValue::Null), ("a", JsonValue::Null)])));
    assert!(!hooksmith::json::is_canonical(&obj(vec![("a", JsonValue::Null), ("a", JsonValue::Null)])));
    let nested = JsonValue::Array(vec![JsonValue::Null, obj(vec![("z", JsonValue::Null), ("y", JsonValue::Null)])]);
    assert!(!hooksmith::json::is_canonical(&nested));
    let two = hooksmith::json::object_of_two("error", JsonValue::Null, "instance_path", JsonValue::Null);
    assert!(hooksmith::json::is_canonical(&two));
    assert_eq!(two.to_json_text(), "{\"error\":null,\"instance_path\":null}");
}
