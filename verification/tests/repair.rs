use hooksmith::json::JsonValue;
use hooksmith::repair_core::{
    ActionType as CoreActionType, FixCategory as CoreFixCategory, MermaidExporter, PlanValidator, RepairAction as CoreAction,
    RepairError, RepairPlan as CorePlan, RootCause as CoreRootCause, Violation as CoreViolation, ViolationSeverity,
};
use hooksmith::repair_planning::{
    ActionType, AnalysisStrategy, Dispatcher, FixCategory, Fixer, Investigator, RootCause, RustfmtFixer, TriageOfficer,
    Violation,
};
use hooksmith::symbols::{ConcernSymbol, RuleSeverity};
use hooksmith::types::ConcernSnapshot;

fn planning_violation(message: &str) -> Violation {
    Violation {
        concern: ConcernSymbol::TreeFile,
        contract: "format".to_string(),
        message: message.to_string(),
        location: Some("src/main.rs".to_string()),
        severity: RuleSeverity::Error,
        details: vec![],
        timestamp: chrono::Utc::now().to_rfc3339(),
    }
}

fn content_snapshot() -> ConcernSnapshot {
    ConcernSnapshot::new(
        ConcernSymbol::TreeFile,
        JsonValue::Object(vec![("content".to_string(), JsonValue::Str("test".to_string()))]),
        vec![],
    )
}

#[test]
fn test_investigator_creation() {
    let investigator = Investigator::new();
    assert!(!investigator.strategies().is_empty());
}

#[test]
fn test_dispatcher_creation() {
    let dispatcher = Dispatcher::new();
    assert!(dispatcher.pipeline_count() != 0);
    assert!(dispatcher.get_pipeline("default").is_some());
}

#[test]
fn test_triage_officer_creation() {
    let triage_officer = TriageOfficer::new();
    assert_eq!(triage_officer.cached_plan_count(), 0);
}

#[test]
fn test_repair_plan_creation() {
    let violation = planning_violation("Rust formatting violation: inconsistent indentation");
    let snapshot = content_snapshot();

    let mut triage_officer = TriageOfficer::new();
    let plan = triage_officer.create_plan(&violation, &snapshot).unwrap();

    assert_eq!(plan.concern, ConcernSymbol::TreeFile);
    assert_eq!(plan.contract, "format");
    assert!(!plan.actions.is_empty());
}

#[test]
fn test_fixer_planning() {
    let violation = planning_violation("Rust formatting violation");

    let root_cause = RootCause {
        primary_cause: "Formatting violation".to_string(),
        contributing_factors: vec!["Inconsistent indentation".to_string()],
        fix_categories: vec![FixCategory::Formatting],
        confidence: 80,
        metadata: vec![],
    };

    let rustfmt_fixer = RustfmtFixer;
    let action = rustfmt_fixer.plan(&violation, &root_cause).unwrap().unwrap();

    assert_eq!(action.fixer_id, "fixer.rustfmt");
    assert_eq!(action.action_type, ActionType::RunCommand);
    assert_eq!(action.target_path, Some("src/main.rs".to_string()));
}

#[test]
fn investigator_lists_strategies_in_order() {
    let investigator = Investigator::new();
    assert_eq!(
        investigator.strategies(),
        &[AnalysisStrategy::PatternMatching, AnalysisStrategy::RuleViolation, AnalysisStrategy::ToolOutput]
    );
}

#[test]
fn second_plan_for_same_violation_comes_from_cache() {
    let violation = planning_violation("Rust formatting violation: inconsistent indentation");
    let snapshot = content_snapshot();
    let mut officer = TriageOfficer::new();
    let first = officer.create_plan(&violation, &snapshot).unwrap();
    assert_eq!(officer.cached_plan_count(), 1);
    let second = officer.create_plan(&violation, &snapshot).unwrap();
    assert_eq!(officer.cached_plan_count(), 1);
    assert_eq!(first.id, second.id);
    assert_eq!(first.actions.len(), second.actions.len());
    assert_eq!(first.dispatcher, second.dispatcher);
}

#[test]
fn formatting_violation_goes_to_formatting_pipeline() {
    let violation = planning_violation("Rust formatting violation: inconsistent indentation");
    let mut officer = TriageOfficer::new();
    let plan = officer.create_plan(&violation, &content_snapshot()).unwrap();
    assert_eq!(plan.dispatcher, "formatting");
    assert_eq!(plan.actions[0].fixer_id, "fixer.rustfmt");
}

fn core_violation() -> CoreViolation {
    CoreViolation {
        concern: ConcernSymbol::TreeFile,
        contract: "test-contract".to_string(),
        message: "Test violation".to_string(),
        location: "test.txt:1".to_string(),
        severity: ViolationSeverity::Error,
    }
}

fn core_root_cause() -> CoreRootCause {
    CoreRootCause {
        primary_cause: "Test cause".to_string(),
        factors: Vec::new(),
        fix_categories: vec![CoreFixCategory::Formatting],
        confidence: 80,
    }
}

fn core_action(id: &str, fixer: &str, line: u32, deps: &[&str]) -> CoreAction {
    CoreAction {
        id: id.to_string(),
        fixer_id: fixer.to_string(),
        action_type: CoreActionType::Edit { line, column: 1, content: "test".to_string() },
        path: "test.txt".to_string(),
        params: vec![],
        required: true,
        priority: line,
        dependencies: deps.iter().map(|d| d.to_string()).collect(),
    }
}

fn core_plan(actions: Vec<CoreAction>) -> CorePlan {
    CorePlan {
        id: "test-plan".to_string(),
        concern: ConcernSymbol::TreeFile,
        contract: "test-contract".to_string(),
        violation: core_violation(),
        root_cause: core_root_cause(),
        dispatcher: "test-dispatcher".to_string(),
        actions,
        is_complete: true,
        metadata: vec![],
        timestamp: "2024-01-01T00:00:00Z".to_string(),
    }
}

#[test]
fn test_plan_validation() {
    let plan = core_plan(vec![core_action("action1", "fixer1", 1, &[])]);
    assert!(PlanValidator::validate(&plan).is_ok());
}

#[test]
fn test_circular_dependency_detection() {
    let plan = core_plan(vec![
        core_action("action1", "fixer1", 1, &["action2"]),
        core_action("action2", "fixer2", 2, &["action1"]),
    ]);
    assert!(PlanValidator::validate(&plan).is_err());
}

#[test]
fn test_mermaid_export() {
    let plan = core_plan(vec![core_action("test-action", "test-fixer", 1, &[])]);
    let mermaid = MermaidExporter::export_plan(&plan);
    assert!(mermaid.contains("flowchart TD"));
    assert!(mermaid.contains("Violation"));
    assert!(mermaid.contains("RootCause"));
    assert!(mermaid.contains("Dispatcher"));
    assert!(mermaid.contains("test_action"));
}

#[test]
fn self_dependency_is_circular() {
    let plan = core_plan(vec![core_action("a", "f", 1, &["a"])]);
    assert_eq!(PlanValidator::validate(&plan), Err(RepairError::CircularDependency));
}

#[test]
fn circle_reported_before_dangling_reference() {
    let plan = core_plan(vec![
        core_action("a", "f", 1, &["b", "missing"]),
        core_action("b", "f", 2, &["a"]),
    ]);
    assert_eq!(PlanValidator::validate(&plan), Err(RepairError::CircularDependency));
}

#[test]
fn chain_of_dependencies_is_valid() {
    let plan = core_plan(vec![
        core_action("a", "f", 1, &["b"]),
        core_action("b", "f", 2, &["c"]),
        core_action("c", "f", 3, &[]),
    ]);
    assert_eq!(PlanValidator::validate(&plan), Ok(()));
}

#[test]
fn dangling_reference_is_invalid_action() {
    let plan = core_plan(vec![core_action("a", "f", 1, &["missing"])]);
    let err = PlanValidator::validate(&plan).unwrap_err();
    assert_eq!(err, RepairError::InvalidAction("Action a depends on non-existent action missing".to_string()));
    assert_eq!(err.message(), "Invalid repair action: Action a depends on non-existent action missing");
}

#[test]
fn required_action_without_fixer_is_invalid() {
    let plan = core_plan(vec![core_action("a", "", 1, &[])]);
    assert_eq!(
        PlanValidator::validate(&plan),
        Err(RepairError::InvalidAction("Required action a has no fixer".to_string()))
    );
}

#[test]
fn mermaid_export_exact_text() {
    let mut plan = core_plan(vec![core_action("first-step", "fx", 3, &[]), core_action("second", "fy", 4, &["first-step"])]);
    plan.violation.message = "say \"hi\"".to_string();
    let mermaid = MermaidExporter::export_plan(&plan);
    let expected = "flowchart TD\n\
    \x20   Violation[\"Violation: say \\\"hi\\\"\"]\n\
    \x20   RootCause[\"Root Cause: Test cause\"]\n\
    \x20   Dispatcher[\"Dispatcher: test-dispatcher\"]\n\
    \x20   first_step[\"fx: Edit at 3:1\"]\n\
    \x20   second[\"fy: Edit at 4:1\"]\n\
    \x20   Violation --> RootCause\n\
    \x20   RootCause --> Dispatcher\n\
    \x20   Dispatcher --> first_step\n\
    \x20   Dispatcher --> second\n\
    \x20   first_step --> second\n";
    assert_eq!(mermaid, expected);
}

#[test]
fn action_type_descriptions() {
    assert_eq!(CoreActionType::Edit { line: 12, column: 7, content: String::new() }.to_string(), "Edit at 12:7");
    assert_eq!(CoreActionType::Delete.to_string(), "Delete file");
    assert_eq!(CoreActionType::Move { new_path: "b.rs".to_string() }.to_string(), "Move to b.rs");
    assert_eq!(
        CoreActionType::RunCommand { command: "cargo".to_string(), args: vec!["fmt".to_string()] }.to_string(),
        "Run: cargo"
    );
}
