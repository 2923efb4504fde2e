use hooksmith::high_performance_diff::DiffStrategy;
use hooksmith::json::JsonValue;
use hooksmith::sarif::{SarifLog, SarifResult, SarifRun};
use hooksmith::sarif_roles::{
    AuditAction, AuditPolicy, AuditResult, Auditor, GitMetadata, Hook, QueryCriteria, SarifFirstPipeline, Stegrapher,
    Verifier,
};
use hooksmith::symbols::{ConcernSymbol, HookEvent, RuleSeverity};
use hooksmith::types::{ConcernSnapshot, ExpectedSnapshot};

fn result(rule: &str, props: &[(&str, &str)]) -> SarifResult {
    SarifResult {
        rule_id: rule.to_string(),
        level: "error".to_string(),
        message: rule.to_string(),
        locations: vec![],
        properties: props.iter().map(|(k, v)| (k.to_string(), v.to_string())).collect(),
    }
}

fn log_of(results: Vec<SarifResult>) -> SarifLog {
    SarifLog {
        version: "2.1.0".to_string(),
        runs: vec![SarifRun { tool_name: "T".to_string(), tool_version: "1.0.0".to_string(), results }],
    }
}

#[test]
fn test_query_criteria() {
    let criteria = QueryCriteria::new()
        .with_concern("Index".to_string())
        .with_severity(RuleSeverity::Error)
        .with_hook_event("PreCommit".to_string());
    assert_eq!(criteria.concern, Some("Index".to_string()));
    assert_eq!(criteria.severity, Some(RuleSeverity::Error));
    assert_eq!(criteria.hook_event, Some("PreCommit".to_string()));
}

#[test]
fn test_audit_policy() {
    let mut auditor = Auditor::new();
    let policy = AuditPolicy::new(
        "no-executable-files".to_string(),
        "Prevent executable files".to_string(),
        QueryCriteria::new().with_concern("TreeExecutable".to_string()),
        AuditAction::Fail,
    );
    auditor.add_policy(policy);
    let empty_sarif = SarifLog { version: "2.1.0".to_string(), runs: vec![] };
    let result = auditor.audit_sarif(&empty_sarif);
    assert!(result.is_pass());
}

#[test]
fn test_sarif_first_pipeline() {
    let mut pipeline = SarifFirstPipeline::new();
    let git_metadata = GitMetadata::new("abc123".to_string(), "def456".to_string(), HookEvent::PreCommit);
    let concerns = pipeline.concerns_for(HookEvent::PreCommit);
    let snapshots: Vec<ConcernSnapshot> = concerns
        .iter()
        .map(|c| ConcernSnapshot::new(*c, JsonValue::Object(vec![]), Vec::new()))
        .collect();
    let (sarif_log, audit_result) = pipeline.run_pipeline(HookEvent::PreCommit, git_metadata, snapshots);
    assert!(!sarif_log.runs.is_empty());
    assert!(audit_result.is_pass());
}

#[test]
fn audit_fails_on_matching_policy_and_warns() {
    let mut auditor = Auditor::new();
    auditor.add_policy(AuditPolicy::new(
        "exec".to_string(),
        "d".to_string(),
        QueryCriteria::new().with_concern("TreeExecutable".to_string()),
        AuditAction::Fail,
    ));
    auditor.add_policy(AuditPolicy::new("all".to_string(), "d".to_string(), QueryCriteria::new(), AuditAction::Warn));
    let log = log_of(vec![
        result("a", &[("concern", "TreeExecutable")]),
        result("b", &[("concern", "Index")]),
        result("c", &[]),
    ]);
    let audit = auditor.audit_sarif(&log);
    assert!(!audit.is_pass());
    let v: Vec<&str> = audit.violations().iter().map(|r| r.rule_id.as_str()).collect();
    assert_eq!(v, vec!["a", "c"]);
    assert_eq!(audit.warnings().len(), 3);
    match audit {
        AuditResult::Fail { .. } => {}
        AuditResult::Pass { .. } => panic!("expected a failed audit"),
    }
}

#[test]
fn policy_severity_compares_with_label() {
    let p = AuditPolicy::new("s".to_string(), "d".to_string(), QueryCriteria::new().with_severity(RuleSeverity::Error), AuditAction::Fail);
    assert!(p.matches(&result("a", &[("severity", "error")])));
    assert!(!p.matches(&result("a", &[("severity", "Error")])));
    assert!(p.matches(&result("a", &[])));
}

#[test]
fn query_sarif_filters_in_order() {
    let auditor = Auditor::new();
    let log = log_of(vec![
        result("a", &[("hook_event", "PreCommit")]),
        result("b", &[("hook_event", "PrePush")]),
        result("c", &[]),
    ]);
    let found = auditor.query_sarif(&log, &QueryCriteria::new().with_hook_event("PreCommit".to_string()));
    let ids: Vec<&str> = found.iter().map(|r| r.rule_id.as_str()).collect();
    assert_eq!(ids, vec!["a", "c"]);
}

#[test]
fn hook_collects_event_concerns() {
    let hook = Hook::new(HookEvent::PreCommit);
    assert_eq!(
        hook.collect_concerns(),
        vec![ConcernSymbol::Index, ConcernSymbol::AttrLineEndingNormalization, ConcernSymbol::AttrDiffStrategy]
    );
}

#[test]
fn verifier_emits_one_result_per_difference() {
    let verifier = Verifier::new(DiffStrategy::JsonPatch);
    let observed = vec![ConcernSnapshot::new(ConcernSymbol::Index, JsonValue::Bool(false), Vec::new())];
    let expected = vec![ExpectedSnapshot::new(ConcernSymbol::Index, JsonValue::Bool(true), "t".to_string(), "1.0".to_string(), Vec::new())];
    let log = verifier.verify_and_emit_sarif(&observed, &expected, &HookEvent::PrePush);
    assert_eq!(log.runs[0].tool_name, "Hooksmith Contract Validator");
    let r = &log.runs[0].results[0];
    assert_eq!(r.rule_id, "Index-mismatch");
    assert_eq!(r.level, "error");
    assert_eq!(r.locations, vec!["git://concern/Index".to_string()]);
    assert_eq!(r.property("origin").map(|s| s.as_str()), Some("hook/PrePush"));
    assert_eq!(r.property("severity").map(|s| s.as_str()), Some("Error"));
}

#[test]
fn stegrapher_tags_with_provenance() {
    let mut steg = Stegrapher::new();
    let meta = GitMetadata {
        commit_hash: "abc".to_string(),
        tree_hash: "def".to_string(),
        timestamp: 42,
        hook_event: "PreCommit".to_string(),
        repository: ".".to_string(),
    };
    let log = log_of(vec![result("a", &[("concern", "Index")])]);
    let ids = vec!["id-1".to_string()];
    let tagged = steg.index_with_ids(&log, &meta, &ids);
    let r = &tagged.runs[0].results[0];
    assert_eq!(tagged.runs[0].tool_name, "Hooksmith Stegrapher");
    assert_eq!(r.property("entry_id").map(|s| s.as_str()), Some("id-1"));
    assert_eq!(r.property("timestamp").map(|s| s.as_str()), Some("42"));
    assert_eq!(r.property("concern").map(|s| s.as_str()), Some("Index"));
    assert_eq!(steg.indexed_entries.len(), 1);
    assert_eq!(steg.provenance_map[0].1.len(), 5);
    let tagged2 = steg.index_and_tag_sarif(&log, &meta);
    assert_eq!(tagged2.runs[0].results.len(), 1);
    assert_eq!(steg.indexed_entries.len(), 2);
}

#[test]
fn git_metadata_records_event_name() {
    let m = GitMetadata::new("c".to_string(), "t".to_string(), HookEvent::CommitMsg);
    assert_eq!(m.hook_event, "CommitMsg");
    assert_eq!(m.repository, ".");
}
