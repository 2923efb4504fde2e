use hooksmith::high_performance_diff::{auto_diff, benchmark_report, DiffStrategy, HighPerformanceDiffer};
use hooksmith::json::JsonValue;
use hooksmith::snapshot_verify::{
    generate_concern_patch, generate_json_patch, verify, verify_with_custom_comparison, verify_with_diffs,
    verify_with_json_patch, verify_with_severity, verify_with_tolerance,
};
use hooksmith::specifier::{build_expectation, build_expectations, build_expectations_by_concern};
use hooksmith::symbols::{ConcernSymbol, ContractSymbol, RuleSeverity};
use hooksmith::types::{ConcernSnapshot, DiffSet, DiffType, ExpectedSnapshot, ValidationDiff};

fn s(x: &str) -> JsonValue {
    JsonValue::Str(x.to_string())
}

fn b(x: bool) -> JsonValue {
    JsonValue::Bool(x)
}

fn n(x: u64) -> JsonValue {
    JsonValue::Number(x.to_string())
}

fn arr(items: Vec<JsonValue>) -> JsonValue {
    JsonValue::Array(items)
}

fn obj(pairs: Vec<(&str, JsonValue)>) -> JsonValue {
    JsonValue::Object(pairs.into_iter().map(|(k, v)| (k.to_string(), v)).collect())
}

fn observed(data: JsonValue) -> Vec<ConcernSnapshot> {
    vec![ConcernSnapshot::new(ConcernSymbol::Index, data, Vec::new())]
}

fn expected(data: JsonValue) -> Vec<ExpectedSnapshot> {
    vec![ExpectedSnapshot::new(ConcernSymbol::Index, data, "test".to_string(), "1.0".to_string(), Vec::new())]
}

fn parse(text: &str) -> serde_json::Value {
    serde_json::from_str(text).unwrap()
}

#[test]
fn test_concern_snapshot_creation() {
    let data = obj(vec![("exists", b(true))]);
    let metadata = vec![("source".to_string(), s("git-index"))];
    let snapshot = ConcernSnapshot::new(ConcernSymbol::TreeFile, data.clone(), metadata);
    assert_eq!(snapshot.symbol, ConcernSymbol::TreeFile);
    assert_eq!(snapshot.data, data);
    assert!(!snapshot.hash.is_empty());
    assert!(!snapshot.timestamp.is_empty());
}

#[test]
fn concern_snapshot_hash_is_sha256_of_canonical_text() {
    let snapshot = ConcernSnapshot::new(ConcernSymbol::Index, obj(vec![("exists", b(true))]), Vec::new());
    assert_eq!(snapshot.data.to_json_text(), "{\"exists\":true}");
    assert_eq!(snapshot.hash.len(), 64);
    let again = ConcernSnapshot::new(ConcernSymbol::Index, obj(vec![("exists", b(true))]), Vec::new());
    assert_eq!(snapshot.hash, again.hash);
    let other = ConcernSnapshot::new(ConcernSymbol::Index, obj(vec![("exists", b(false))]), Vec::new());
    assert_ne!(snapshot.hash, other.hash);
}

#[test]
fn test_expected_snapshot_creation() {
    let expectation = obj(vec![("exists", b(true))]);
    let metadata = vec![("rule".to_string(), s("must-exist"))];
    let snapshot = ExpectedSnapshot::new(
        ConcernSymbol::TreeFile,
        expectation.clone(),
        "test-contract".to_string(),
        "1.0".to_string(),
        metadata,
    );
    assert_eq!(snapshot.symbol, ConcernSymbol::TreeFile);
    assert_eq!(snapshot.expectation, expectation);
    assert_eq!(snapshot.contract, "test-contract");
    assert_eq!(snapshot.contract_version, "1.0");
}

#[test]
fn test_validation_diff_creation() {
    let diff = ValidationDiff::new(
        ConcernSymbol::TreeFile,
        DiffType::Mismatch,
        "File does not exist".to_string(),
        Some(b(false)),
        Some(b(true)),
        RuleSeverity::Error,
        Vec::new(),
    );
    assert_eq!(diff.concern, ConcernSymbol::TreeFile);
    assert_eq!(diff.diff_type, DiffType::Mismatch);
    assert_eq!(diff.description, "File does not exist");
    assert_eq!(diff.severity, RuleSeverity::Error);
}

#[test]
fn test_diff_set_creation() {
    let diffs = vec![ValidationDiff::new(
        ConcernSymbol::TreeFile,
        DiffType::Mismatch,
        "File does not exist".to_string(),
        Some(b(false)),
        Some(b(true)),
        RuleSeverity::Error,
        Vec::new(),
    )];
    let diff_set = DiffSet::new(diffs);
    assert!(!diff_set.is_valid());
    assert_eq!(diff_set.diff_count(), 1);
    assert_eq!(diff_set.errors().len(), 1);
    assert_eq!(diff_set.warnings().len(), 0);
    assert_eq!(diff_set.summary, "Validation failed with 1 differences");
}

#[test]
fn test_diff_set_with_warnings() {
    let diffs = vec![ValidationDiff::new(
        ConcernSymbol::TreeFile,
        DiffType::Unexpected,
        "Unexpected file".to_string(),
        Some(b(true)),
        None,
        RuleSeverity::Warning,
        Vec::new(),
    )];
    let diff_set = DiffSet::new(diffs);
    assert!(diff_set.is_valid());
    assert_eq!(diff_set.diff_count(), 1);
    assert_eq!(diff_set.errors().len(), 0);
    assert_eq!(diff_set.warnings().len(), 1);
    assert_eq!(diff_set.summary, "Validation passed");
}

#[test]
fn diff_type_names() {
    assert_eq!(DiffType::Missing.name(), "missing");
    assert_eq!(DiffType::SchemaViolation.name(), "schema_violation");
    assert_eq!(DiffType::RuleViolation.name(), "rule_violation");
}

#[test]
fn json_text_is_canonical() {
    let v = obj(vec![("a", arr(vec![n(1), JsonValue::Null, s("q\"\\\n\u{1}")])), ("b", b(false))]);
    assert_eq!(v.to_json_text(), "{\"a\":[1,null,\"q\\\"\\\\\\n\\u0001\"],\"b\":false}");
    let parsed = parse(&v.to_json_text());
    assert_eq!(parsed["a"][2], serde_json::Value::String("q\"\\\n\u{1}".to_string()));
}

#[test]
fn test_build_expectation_must_exist() {
    let contract = ContractSymbol::new("must-exist");
    let expectation = build_expectation(&contract);
    assert_eq!(expectation.symbol, ConcernSymbol::Index);
    assert_eq!(expectation.expectation.get("exists"), Some(&b(true)));
    assert_eq!(expectation.contract, "must-exist");
}

#[test]
fn test_build_expectation_no_unstaged_changes() {
    let contract = ContractSymbol::new("no-unstaged-changes");
    let expectation = build_expectation(&contract);
    assert_eq!(expectation.symbol, ConcernSymbol::Index);
    assert_eq!(expectation.expectation.get("unstaged_files"), Some(&arr(vec![])));
}

#[test]
fn test_build_expectation_text_files_normalized() {
    let contract = ContractSymbol::new("text-files-normalized");
    let expectation = build_expectation(&contract);
    assert_eq!(expectation.symbol, ConcernSymbol::AttrLineEndingNormalization);
    assert!(expectation.expectation.get("text_files").is_some());
    assert!(expectation.expectation.get("line_ending_rules").is_some());
}

#[test]
fn test_build_expectation_no_new_executables() {
    let contract = ContractSymbol::new("no-new-executables");
    let expectation = build_expectation(&contract);
    assert_eq!(expectation.symbol, ConcernSymbol::TreeExecutable);
    assert_eq!(expectation.expectation.get("executable_files"), Some(&arr(vec![])));
}

#[test]
fn test_build_expectations_multiple() {
    let contracts = vec![ContractSymbol::new("must-exist"), ContractSymbol::new("no-unstaged-changes")];
    let expectations = build_expectations(&contracts);
    assert_eq!(expectations.len(), 2);
    assert_eq!(expectations[0].symbol, ConcernSymbol::Index);
    assert_eq!(expectations[1].symbol, ConcernSymbol::Index);
}

#[test]
fn test_build_expectations_by_concern() {
    let contracts = vec![ContractSymbol::new("must-exist"), ContractSymbol::new("no-new-executables")];
    let grouped = build_expectations_by_concern(&contracts);
    assert_eq!(grouped.len(), 2);
    let index = grouped.iter().find(|(c, _)| *c == ConcernSymbol::Index).unwrap();
    let exec = grouped.iter().find(|(c, _)| *c == ConcernSymbol::TreeExecutable).unwrap();
    assert_eq!(index.1.len(), 1);
    assert_eq!(exec.1.len(), 1);
}

#[test]
fn test_unknown_contract() {
    let contract = ContractSymbol::new("unknown-contract");
    let expectation = build_expectation(&contract);
    assert_eq!(expectation.symbol, ConcernSymbol::Index);
    assert!(expectation.expectation.get("error").is_some());
    let status = expectation.metadata.iter().find(|(k, _)| k == "status").map(|(_, v)| v);
    assert_eq!(status, Some(&s("unknown-contract")));
}

#[test]
fn expectation_texts_match_the_contract_table() {
    let e = build_expectation(&ContractSymbol::new("protected-branches"));
    assert_eq!(e.symbol, ConcernSymbol::Branch);
    assert_eq!(e.expectation.to_json_text(), "{\"protected_branches\":[\"main\",\"develop\"]}");
    let e = build_expectation(&ContractSymbol::new("head-detached-allowed"));
    assert_eq!(e.expectation.to_json_text(), "{\"detached_allowed\":false}");
    assert_eq!(e.contract_version, "1.0");
    assert!(e.metadata.is_empty());
}

#[test]
fn test_verify_success() {
    let result = verify(&observed(obj(vec![("exists", b(true))])), &expected(obj(vec![("exists", b(true))])));
    assert!(result.is_ok());
}

#[test]
fn test_generate_json_patch() {
    let patch = generate_json_patch(
        &observed(obj(vec![("exists", b(false)), ("files", arr(vec![s("a.txt")]))])),
        &expected(obj(vec![("exists", b(true)), ("files", arr(vec![s("a.txt"), s("b.txt")]))])),
    );
    assert!(!patch.is_empty());
    assert_eq!(patch.len(), 2);
}

#[test]
fn test_verify_with_json_patch() {
    let diff_set = verify_with_json_patch(&observed(obj(vec![("exists", b(false))])), &expected(obj(vec![("exists", b(true))])));
    assert!(!diff_set.is_valid());
    assert_eq!(diff_set.diff_count(), 1);
    let diff = &diff_set.diffs[0];
    assert!(diff.metadata.iter().any(|(k, _)| k == "json_patch"));
    assert_eq!(diff.description, "Data mismatch for concern: Index (JSON Patch: 1 operations)");
}

#[test]
fn test_generate_concern_patch() {
    let patch = generate_concern_patch(&obj(vec![("value", s("old"))]), &obj(vec![("value", s("new"))]));
    assert_eq!(patch.len(), 1);
    let op = parse(&patch[0]);
    assert_eq!(op["op"], serde_json::Value::String("replace".to_string()));
    assert_eq!(op["path"].as_str(), Some("/value"));
    assert_eq!(op["value"].as_str(), Some("new"));
}

#[test]
fn test_verify_failure() {
    let result = verify(&observed(obj(vec![("exists", b(false))])), &expected(obj(vec![("exists", b(true))])));
    assert!(result.is_err());
    let errors = result.unwrap_err();
    assert_eq!(errors.len(), 1);
    assert!(errors[0].contains("Mismatch"));
    assert_eq!(
        errors[0],
        "Mismatch on Index: observed Object {\"exists\": Bool(false)}, expected Object {\"exists\": Bool(true)}"
    );
}

#[test]
fn test_verify_missing_concern() {
    let result = verify(&[], &expected(obj(vec![("exists", b(true))])));
    assert!(result.is_err());
    let errors = result.unwrap_err();
    assert_eq!(errors.len(), 1);
    assert!(errors[0].contains("Missing observed snapshot"));
}

#[test]
fn test_verify_with_diffs() {
    let diff_set = verify_with_diffs(&observed(obj(vec![("exists", b(false))])), &expected(obj(vec![("exists", b(true))])));
    assert!(!diff_set.is_valid());
    assert_eq!(diff_set.diff_count(), 1);
    assert_eq!(diff_set.errors().len(), 1);
}

#[test]
fn verify_with_diffs_reports_unexpected_as_warnings() {
    let obs = vec![
        ConcernSnapshot::new(ConcernSymbol::Index, b(true), Vec::new()),
        ConcernSnapshot::new(ConcernSymbol::Ref, b(true), Vec::new()),
    ];
    let diff_set = verify_with_diffs(&obs, &expected(b(true)));
    assert_eq!(diff_set.diff_count(), 1);
    assert_eq!(diff_set.diffs[0].diff_type, DiffType::Unexpected);
    assert_eq!(diff_set.diffs[0].description, "Unexpected observed concern: Ref");
    assert!(diff_set.is_valid());
}

#[test]
fn verify_with_severity_uses_map_then_error() {
    let map = vec![(ConcernSymbol::Index, RuleSeverity::Warning)];
    let diff_set = verify_with_severity(&observed(b(false)), &expected(b(true)), &map);
    assert_eq!(diff_set.diffs[0].severity, RuleSeverity::Warning);
    assert!(diff_set.is_valid());
    let diff_set = verify_with_severity(&[], &expected(b(true)), &Vec::new());
    assert_eq!(diff_set.diffs[0].severity, RuleSeverity::Error);
    assert_eq!(diff_set.diffs[0].description, "Missing expected concern: Index");
}

#[test]
fn test_verify_with_tolerance() {
    let obs = observed(obj(vec![
        ("exists", b(true)),
        ("files", arr(vec![s("a.txt"), s("b.txt")])),
        ("timestamp", s("2023-01-01T00:00:00Z")),
    ]));
    let exp = expected(obj(vec![
        ("exists", b(true)),
        ("files", arr(vec![s("a.txt"), s("b.txt")])),
        ("timestamp", s("2023-01-02T00:00:00Z")),
    ]));
    let tolerance_fields = vec![(ConcernSymbol::Index, vec!["timestamp".to_string()])];
    let diff_set = verify_with_tolerance(&obs, &exp, &tolerance_fields);
    assert!(diff_set.is_valid());
    let strict = verify_with_tolerance(&obs, &exp, &Vec::new());
    assert!(!strict.is_valid());
    assert_eq!(strict.diffs[0].description, "Data mismatch for concern: Index (with tolerance)");
}

#[test]
fn test_verify_with_custom_comparison() {
    let obs = observed(obj(vec![("count", n(5))]));
    let exp = expected(obj(vec![("count", n(10))]));
    let diff_set = verify_with_custom_comparison(&obs, &exp, |o: &JsonValue, e: &JsonValue| {
        let as_u64 = |v: Option<&JsonValue>| match v {
            Some(JsonValue::Number(t)) => t.parse::<u64>().ok(),
            _ => None,
        };
        if let (Some(ov), Some(ev)) = (as_u64(o.get("count")), as_u64(e.get("count"))) {
            return ov > 0 && ev > 0;
        }
        false
    });
    assert!(diff_set.is_valid());
}

#[test]
fn test_high_performance_diff() {
    let obs = observed(obj(vec![("exists", b(false)), ("files", arr(vec![s("a.txt")]))]));
    let exp = expected(obj(vec![("exists", b(true)), ("files", arr(vec![s("a.txt"), s("b.txt")]))]));
    let differ = HighPerformanceDiffer::new(DiffStrategy::JsonPatch);
    let (diff_set, metrics) = differ.diff_with_metrics(&obs, &exp);
    assert!(!diff_set.is_valid());
    assert!(metrics.total_time_micros > 0);
    assert_eq!(metrics.strategy, DiffStrategy::JsonPatch);
}

#[test]
fn test_benchmark_strategies() {
    let results = HighPerformanceDiffer::benchmark_strategies(
        &observed(obj(vec![("exists", b(false))])),
        &expected(obj(vec![("exists", b(true))])),
    );
    assert_eq!(results.len(), 3);
    for result in &results {
        assert!(result.total_time_micros > 0);
    }
}

#[test]
fn test_auto_diff() {
    let (diff_set, metrics) = auto_diff(&observed(obj(vec![("exists", b(false))])), &expected(obj(vec![("exists", b(true))])));
    assert!(!diff_set.is_valid());
    assert!(metrics.total_time_micros > 0);
}

#[test]
fn test_benchmark_report() {
    let report = benchmark_report(&observed(obj(vec![("exists", b(false))])), &expected(obj(vec![("exists", b(true))])));
    assert!(report.contains("High-Performance Diff Benchmark Report"));
    assert!(report.contains("Fastest:"));
}

#[test]
fn strategies_label_their_mismatches() {
    let obs = observed(obj(vec![("exists", b(false))]));
    let exp = expected(obj(vec![("exists", b(true))]));
    let (d, m) = HighPerformanceDiffer::new(DiffStrategy::SonicJsonPatch).diff_with_metrics(&obs, &exp);
    assert_eq!(d.diffs[0].description, "Data mismatch for concern: Index (Sonic JSON Patch: 1 operations)");
    assert_eq!(d.diffs[0].metadata[1], ("strategy".to_string(), s("sonic-rs")));
    assert_eq!(m.operations_generated, 1);
    let (d, _) = HighPerformanceDiffer::new(DiffStrategy::Hybrid).diff_with_metrics(&obs, &exp);
    assert_eq!(d.diffs[0].description, "Data mismatch for concern: Index (Hybrid: 1 operations)");
    let (d, _) = HighPerformanceDiffer::new(DiffStrategy::JsonPatch).diff_with_metrics(&obs, &obs.iter().map(|o| ExpectedSnapshot::new(o.symbol, o.data.clone(), "t".to_string(), "1.0".to_string(), Vec::new())).collect::<Vec<_>>());
    assert!(d.diffs.is_empty());
}

#[test]
fn metrics_summary_text() {
    let mut m = hooksmith::high_performance_diff::DiffMetrics::new(DiffStrategy::Hybrid);
    m.parse_time_micros = 12;
    m.total_time_micros = 15;
    m.operations_generated = 2;
    assert_eq!(m.summary(), "Strategy: Hybrid, Parse: 12\u{3bc}s, Diff: 0\u{3bc}s, Total: 15\u{3bc}s, Ops: 2");
}

#[test]
fn fastest_strategy_takes_first_least_time() {
    let mut a = hooksmith::high_performance_diff::DiffMetrics::new(DiffStrategy::JsonPatch);
    a.total_time_micros = 9;
    let mut b2 = hooksmith::high_performance_diff::DiffMetrics::new(DiffStrategy::SonicJsonPatch);
    b2.total_time_micros = 3;
    let mut c = hooksmith::high_performance_diff::DiffMetrics::new(DiffStrategy::Hybrid);
    c.total_time_micros = 3;
    assert_eq!(hooksmith::high_performance_diff::fastest_strategy(&vec![a, b2, c]), DiffStrategy::SonicJsonPatch);
    assert_eq!(hooksmith::high_performance_diff::fastest_strategy(&vec![]), DiffStrategy::JsonPatch);
}

#[test]
fn listed_contracts_specify_their_concern() {
    let concerns = vec![
        ConcernSymbol::Index,
        ConcernSymbol::AttrLineEndingNormalization,
        ConcernSymbol::AttrDiffStrategy,
        ConcernSymbol::Ref,
        ConcernSymbol::Branch,
        ConcernSymbol::Remote,
        ConcernSymbol::TreeExecutable,
        ConcernSymbol::Commit,
        ConcernSymbol::Tree,
        ConcernSymbol::Head,
        ConcernSymbol::ConfigCommit,
        ConcernSymbol::ConfigUser,
        ConcernSymbol::ConfigGc,
        ConcernSymbol::ConfigRebase,
    ];
    for concern in concerns {
        let listed = hooksmith::contracts::get_contracts(&concern);
        assert!(!listed.is_empty());
        for contract in listed {
            let e = build_expectation(&contract);
            assert_eq!(e.symbol, concern);
            assert_eq!(e.contract, contract.name());
            assert_eq!(e.contract_version, "1.0");
            assert!(e.metadata.is_empty());
            match &e.expectation {
                JsonValue::Object(fields) => assert!(fields.iter().all(|(k, _)| k != "error")),
                other => panic!("expected an object, got {:?}", other),
            }
        }
    }
}

#[test]
fn diff_set_counts_every_severity() {
    let sev = [
        RuleSeverity::Info,
        RuleSeverity::Warning,
        RuleSeverity::Critical,
        RuleSeverity::Warning,
        RuleSeverity::Error,
    ];
    let diffs: Vec<ValidationDiff> = sev
        .iter()
        .map(|s| {
            ValidationDiff::new(ConcernSymbol::Index, DiffType::Mismatch, "d".to_string(), None, None, *s, Vec::new())
        })
        .collect();
    let set = DiffSet::new(diffs);
    assert!(!set.is_valid());
    assert_eq!(set.errors().len(), 2);
    assert_eq!(set.warnings().len(), 2);
    assert_eq!(set.diff_count(), 5);
    assert_eq!(set.summary, "Validation failed with 5 differences");
    let passing = DiffSet::new(vec![]);
    assert!(passing.is_valid());
    assert!(passing.errors().is_empty());
    assert_eq!(passing.summary, "Validation passed");
}
