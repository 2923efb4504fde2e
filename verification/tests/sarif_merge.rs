use hooksmith::sarif::{MergeOptions, MergeStrategy, SarifLog, SarifMerger, SarifResult, SarifRun};

fn result(rule: &str, level: &str, message: &str, props: &[(&str, &str)]) -> SarifResult {
    SarifResult {
        rule_id: rule.to_string(),
        level: level.to_string(),
        message: message.to_string(),
        locations: vec![],
        properties: props.iter().map(|(k, v)| (k.to_string(), v.to_string())).collect(),
    }
}

fn log_of(tool: &str, results: Vec<SarifResult>) -> SarifLog {
    SarifLog {
        version: "2.1.0".to_string(),
        runs: vec![SarifRun { tool_name: tool.to_string(), tool_version: "1.0.0".to_string(), results }],
    }
}

#[test]
fn test_merge_by_concern() {
    let mut results = Vec::new();
    results.push(result("test-1", "error", "Test 1", &[("concern", "Index")]));
    results.push(result("test-2", "warning", "Test 2", &[("concern", "TreeExecutable")]));
    let merged = SarifMerger::merge_by_concern(&results);
    assert_eq!(merged.len(), 2);
}

#[test]
fn test_merge_by_severity() {
    let mut results = Vec::new();
    results.push(result("test-1", "warning", "Test 1", &[]));
    results.push(result("test-2", "error", "Test 2", &[]));
    let merged = SarifMerger::merge_by_severity(&results);
    assert_eq!(merged.len(), 2);
    assert_eq!(merged[0].level, "error");
    assert_eq!(merged[1].level, "warning");
}

#[test]
fn test_deduplicate_results() {
    let mut results = Vec::new();
    results.push(result("test-1", "error", "Test 1", &[]));
    results.push(result("test-1", "error", "Test 1", &[]));
    let deduplicated = SarifMerger::deduplicate_results(&results);
    assert_eq!(deduplicated.len(), 1);
}

#[test]
fn test_merge_logs() {
    let mut logs = Vec::new();
    let log1 = log_of("Test Tool 1", vec![result("test-1", "error", "Test 1", &[])]);
    let log2 = log_of("Test Tool 2", vec![result("test-2", "warning", "Test 2", &[])]);
    logs.push(log1);
    logs.push(log2);
    let options = MergeOptions::default();
    let merged = SarifMerger::merge_logs(logs, &options);
    assert_eq!(merged.runs.len(), 1);
    assert_eq!(merged.runs[0].results.len(), 2);
}

#[test]
fn merge_by_concern_groups_in_order_of_first_appearance() {
    let results = vec![
        result("a", "error", "A", &[("concern", "Index")]),
        result("b", "error", "B", &[("concern", "Ref")]),
        result("c", "note", "C", &[]),
        result("d", "warning", "D", &[("concern", "Index")]),
    ];
    let merged = SarifMerger::merge_by_concern(&results);
    let rules: Vec<&str> = merged.iter().map(|r| r.rule_id.as_str()).collect();
    assert_eq!(rules, vec!["a", "d", "b", "c"]);
}

#[test]
fn merge_by_severity_drops_other_levels() {
    let results = vec![
        result("a", "note", "A", &[]),
        result("b", "none", "B", &[]),
        result("c", "error", "C", &[]),
        result("d", "warning", "D", &[]),
    ];
    let merged = SarifMerger::merge_by_severity(&results);
    let rules: Vec<&str> = merged.iter().map(|r| r.rule_id.as_str()).collect();
    assert_eq!(rules, vec!["c", "d", "a"]);
}

#[test]
fn deduplicate_keeps_first_of_each_key() {
    let results = vec![
        result("r", "error", "M", &[("concern", "first")]),
        result("r", "warning", "M", &[]),
        result("r", "error", "M", &[("concern", "second")]),
    ];
    let d = SarifMerger::deduplicate_results(&results);
    assert_eq!(d.len(), 2);
    assert_eq!(d[0].properties, vec![("concern".to_string(), "first".to_string())]);
    assert_eq!(d[1].level, "warning");
}

#[test]
fn sort_orders_by_level_then_rule_and_is_stable() {
    let results = vec![
        result("b", "note", "1", &[]),
        result("z", "other", "2", &[]),
        result("b", "error", "3", &[]),
        result("a", "error", "4", &[]),
        result("b", "error", "5", &[]),
        result("c", "warning", "6", &[]),
    ];
    let s = SarifMerger::sort_results(&results);
    let msgs: Vec<&str> = s.iter().map(|r| r.message.as_str()).collect();
    assert_eq!(msgs, vec!["4", "3", "5", "6", "1", "2"]);
}

#[test]
fn merge_logs_by_contract_without_dedup_or_sort() {
    let logs = vec![
        log_of("T1", vec![result("x", "note", "1", &[("contract", "c2")]), result("y", "error", "2", &[("contract", "c1")])]),
        log_of("T2", vec![result("x", "note", "1", &[("contract", "c2")])]),
    ];
    let options = MergeOptions { strategy: MergeStrategy::ByContract, deduplicate: false, sort: false };
    let merged = SarifMerger::merge_parallel(logs, &options);
    assert_eq!(merged.version, "2.1.0");
    assert_eq!(merged.runs[0].tool_name, "Hooksmith Merged Validator");
    assert_eq!(merged.runs[0].tool_version, "1.0.0");
    let msgs: Vec<&str> = merged.runs[0].results.iter().map(|r| r.message.as_str()).collect();
    assert_eq!(msgs, vec!["1", "1", "2"]);
}

#[test]
fn merge_logs_custom_strategy_keeps_input_order() {
    let logs = vec![log_of("T", vec![result("b", "note", "1", &[]), result("a", "error", "2", &[])])];
    let options = MergeOptions { strategy: MergeStrategy::Custom("mine".to_string()), deduplicate: false, sort: false };
    let merged = SarifMerger::merge_logs(logs, &options);
    let msgs: Vec<&str> = merged.runs[0].results.iter().map(|r| r.message.as_str()).collect();
    assert_eq!(msgs, vec!["1", "2"]);
}

#[test]
fn create_logs_name_their_validator() {
    let log = SarifMerger::create_concern_log("Index", vec![result("a", "error", "A", &[])]);
    assert_eq!(log.runs[0].tool_name, "Hooksmith Concern Validator (Index)");
    assert_eq!(log.runs[0].results.len(), 1);
    let log = SarifMerger::create_contract_log("must-exist", vec![]);
    assert_eq!(log.runs[0].tool_name, "Hooksmith Contract Validator (must-exist)");
    assert_eq!(log.version, "2.1.0");
}

#[test]
fn split_by_concern_gives_one_log_per_concern() {
    let log = log_of("T", vec![
        result("a", "error", "A", &[("concern", "Index")]),
        result("b", "error", "B", &[]),
        result("c", "error", "C", &[("concern", "Index")]),
    ]);
    let parts = SarifMerger::split_by_concern(&log);
    assert_eq!(parts.len(), 2);
    assert_eq!(parts[0].0, "Index");
    assert_eq!(parts[0].1.runs[0].tool_name, "Hooksmith Concern Validator (Index)");
    assert_eq!(parts[0].1.runs[0].results.len(), 2);
    assert_eq!(parts[1].0, "unknown");
    assert_eq!(parts[1].1.runs[0].results[0].rule_id, "b");
    let parts = SarifMerger::split_by_contract(&log);
    assert_eq!(parts.len(), 1);
    assert_eq!(parts[0].1.runs[0].tool_name, "Hooksmith Contract Validator (unknown)");
}

#[test]
fn merge_stats_counts_levels_concerns_and_contracts() {
    let log = log_of("T", vec![
        result("a", "error", "A", &[("concern", "Index"), ("contract", "c")]),
        result("b", "warning", "B", &[("concern", "Index")]),
        result("c", "error", "C", &[]),
    ]);
    let stats = SarifMerger::merge_stats(&log);
    assert_eq!(stats.total_results, 3);
    assert_eq!(stats.severity_counts, vec![("error".to_string(), 2), ("warning".to_string(), 1)]);
    assert_eq!(stats.concern_counts, vec![("Index".to_string(), 2)]);
    assert_eq!(stats.contract_counts, vec![("c".to_string(), 1)]);
}

#[test]
fn result_property_takes_first_entry() {
    let r = result("a", "error", "A", &[("k", "1"), ("k", "2")]);
    assert_eq!(r.property("k").map(|s| s.as_str()), Some("1"));
    assert!(r.property("missing").is_none());
}

#[test]
fn merge_logs_keeps_or_deduplicates_every_result() {
    let make = || {
        vec![
            log_of("T1", vec![result("x", "note", "1", &[("concern", "k2")]), result("y", "error", "2", &[("concern", "k1")])]),
            log_of("T2", vec![result("x", "note", "1", &[("concern", "k2")]), result("z", "other", "3", &[])]),
        ]
    };
    let keep = MergeOptions { strategy: MergeStrategy::ByConcern, deduplicate: false, sort: true };
    let kept = SarifMerger::merge_logs(make(), &keep);
    assert_eq!(kept.runs[0].results.len(), 4);
    let dedup = MergeOptions { strategy: MergeStrategy::ByConcern, deduplicate: true, sort: true };
    let merged = SarifMerger::merge_logs(make(), &dedup);
    let keys: Vec<String> =
        merged.runs[0].results.iter().map(|r| format!("{}:{}:{}", r.rule_id, r.message, r.level)).collect();
    assert_eq!(keys.len(), 3);
    for (i, k) in keys.iter().enumerate() {
        assert!(!keys[i + 1..].contains(k));
    }
}
