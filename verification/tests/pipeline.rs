use hooksmith::concerns::{snapshot_concern, snapshot_index};
use hooksmith::json::JsonValue;
use hooksmith::pipeline::{FunctionalContractPipeline, RepairPlanningPipeline};
use hooksmith::repair_core::RepairError;
use hooksmith::symbols::{ConcernSymbol, HookEvent};

#[test]
fn test_pipeline_creation() {
    let pipeline = FunctionalContractPipeline::new(".");
    assert_eq!(pipeline.repo_path(), ".");
}

#[test]
fn test_repair_planning_pipeline_creation() {
    let mut pipeline = RepairPlanningPipeline::new(".");
    // Test that the triage officer can be accessed
    let _triage_officer = pipeline.triage_officer();
}

#[test]
fn test_snapshot_concern() {
    let snapshot = snapshot_concern(&ConcernSymbol::Index);
    assert_eq!(snapshot.symbol, ConcernSymbol::Index);
    assert!(!snapshot.hash.is_empty());
    assert!(!snapshot.timestamp.is_empty());
}

#[test]
fn test_index_snapshot() {
    let snapshot = snapshot_index();
    assert_eq!(snapshot.symbol, ConcernSymbol::Index);
    assert!(snapshot.data.get("staged_files").is_some());
    assert!(snapshot.data.get("unstaged_files").is_some());
    assert!(snapshot.data.get("untracked_files").is_some());
}

#[test]
fn test_unimplemented_concern() {
    let snapshot = snapshot_concern(&ConcernSymbol::Blob);
    assert_eq!(snapshot.symbol, ConcernSymbol::Blob);
    assert!(snapshot.data.get("error").is_some());
    assert_eq!(snapshot.metadata[0].0, "status");
    assert_eq!(snapshot.metadata[0].1, JsonValue::Str("unimplemented".to_string()));
}

#[test]
fn snapshot_data_texts() {
    assert_eq!(
        snapshot_concern(&ConcernSymbol::Branch).data.to_json_text(),
        "{\"branches\":[],\"current\":\"main\"}"
    );
    assert_eq!(snapshot_concern(&ConcernSymbol::ConfigGc).data.to_json_text(), "{\"gc_config\":{}}");
    let head = snapshot_concern(&ConcernSymbol::Head);
    assert_eq!(head.metadata[0].1, JsonValue::Str("git-head".to_string()));
}

#[test]
fn hook_runs_produce_diffs() {
    let pipeline = FunctionalContractPipeline::new(".");
    let diff = pipeline.run_hook_with_diff(HookEvent::PreCommit).unwrap();
    assert_eq!(diff.is_valid, diff.diffs.iter().all(|d| d.severity != hooksmith::symbols::RuleSeverity::Error
        && d.severity != hooksmith::symbols::RuleSeverity::Critical));
    let _ = pipeline.run_hook(HookEvent::PrePush);
}

#[test]
fn repair_plans_one_per_diff() {
    let mut pipeline = FunctionalContractPipeline::new(".");
    let diff = pipeline.run_hook_with_diff(HookEvent::PreCommit).unwrap();
    let plans = pipeline.run_hook_with_repair(HookEvent::PreCommit).unwrap();
    assert_eq!(plans.len(), diff.diffs.len());
}

#[test]
fn core_repair_plans() {
    let pipeline = FunctionalContractPipeline::new(".");
    let both = pipeline
        .create_core_repair_plan(&ConcernSymbol::TreeFile, "ignore:rules", "wildcard in .gitignore, wrong order")
        .unwrap();
    assert_eq!(both.id, "plan-TreeFile-ignore-rules");
    assert_eq!(both.actions.len(), 2);
    assert_eq!(both.actions[0].id, "replace-root-star");
    assert_eq!(both.actions[1].id, "reorder-ignore-lines");
    assert_eq!(both.violation.location, "TreeFile");
    let none = pipeline.create_core_repair_plan(&ConcernSymbol::Index, "c", "nothing to fix").unwrap();
    assert!(none.actions.is_empty());
    assert_eq!(
        pipeline.create_core_repair_plan(&ConcernSymbol::Index, "c", "fix .gitignore order").unwrap_err(),
        RepairError::InvalidAction(
            "Action reorder-ignore-lines depends on non-existent action replace-root-star".to_string()
        )
    );
    let mermaid = pipeline.export_repair_plan_mermaid(&both);
    assert!(mermaid.contains("replace_root_star --> reorder_ignore_lines"));
}
