use hooksmith::functional_contract_pipeline::{
    ConcernSymbol, ContractSpec, DiffType, ExpectedConcernSet, FunctionalContractPipeline, HookEvent,
    ObservedConcernSet, RuleSeverity,
};

#[test]
fn test_identify_concerns() {
    let pipeline = FunctionalContractPipeline::new("/tmp/test");
    let concerns = pipeline.identify_concerns(&HookEvent::PreCommit);
    assert!(!concerns.is_empty());
    assert!(concerns.contains(&ConcernSymbol::Index));
}

#[test]
fn test_archive_concerns() {
    let pipeline = FunctionalContractPipeline::new("/tmp/test");
    let concerns = vec![ConcernSymbol::Index, ConcernSymbol::AttrLineEndingNormalization];
    let observed = pipeline.archive_concerns(&concerns).unwrap();
    assert_eq!(observed.snapshots.len(), 2);
}

#[test]
fn test_map_contracts() {
    let mut pipeline = FunctionalContractPipeline::new("/tmp/test");

    let contract = ContractSpec {
        name: "test".to_string(),
        version: "1.0".to_string(),
        concern: ConcernSymbol::Index,
        rules: vec![],
        metadata: vec![],
    };

    pipeline.register_contract(contract).unwrap();

    let concerns = vec![ConcernSymbol::Index];
    let contracts = pipeline.map_contracts(&concerns);
    assert_eq!(contracts.len(), 1);
}

#[test]
fn test_verify() {
    let pipeline = FunctionalContractPipeline::new("/tmp/test");

    let observed = ObservedConcernSet {
        snapshots: vec![],
        hook_event: HookEvent::PreCommit,
        timestamp: chrono::Utc::now().to_rfc3339(),
    };

    let expected = ExpectedConcernSet {
        snapshots: vec![],
        hook_event: HookEvent::PreCommit,
        timestamp: chrono::Utc::now().to_rfc3339(),
    };

    let diff = pipeline.verify(&observed, &expected).unwrap();
    assert!(diff.is_valid);
}

#[test]
fn test_execute_pipeline() {
    let pipeline = FunctionalContractPipeline::new("/tmp/test");
    let diff = pipeline.execute_pipeline(&HookEvent::PreCommit).unwrap();
    assert!(diff.is_valid);
}

fn contract(concern: ConcernSymbol, name: &str) -> ContractSpec {
    ContractSpec { name: name.to_string(), version: "2".to_string(), concern, rules: vec![], metadata: vec![] }
}

#[test]
fn unexpected_concerns_are_warnings() {
    let pipeline = FunctionalContractPipeline::new(".");
    let diff = pipeline.execute_pipeline(&HookEvent::PreCommit).unwrap();
    assert_eq!(diff.diffs.len(), 3);
    assert!(diff.diffs.iter().all(|d| d.diff_type == DiffType::Unexpected && d.severity == RuleSeverity::Warning));
    assert_eq!(diff.diffs[0].description, "Unexpected observed concern: Index");
    assert_eq!(diff.summary, "Validation passed");
}

#[test]
fn registered_contracts_match_or_mismatch() {
    let mut pipeline = FunctionalContractPipeline::new(".");
    pipeline.register_contract(contract(ConcernSymbol::Index, "index")).unwrap();
    pipeline.register_contract(contract(ConcernSymbol::Ref, "refs")).unwrap();
    // Index expectations equal the observed index; refs expect the default.
    let diff = pipeline.execute_pipeline(&HookEvent::PrePush).unwrap();
    let mismatches: Vec<_> = diff.diffs.iter().filter(|d| d.diff_type == DiffType::Mismatch).collect();
    assert_eq!(mismatches.len(), 1);
    assert_eq!(mismatches[0].description, "Data mismatch for concern: Ref");
    assert!(!diff.is_valid);
    assert_eq!(diff.summary, format!("Validation failed with {} differences", diff.diffs.len()));
    let clean = pipeline.execute_pipeline(&HookEvent::PreCommit).unwrap();
    assert!(clean.diffs.iter().all(|d| d.diff_type != DiffType::Mismatch));
}

#[test]
fn missing_expected_concern() {
    let pipeline = FunctionalContractPipeline::new(".");
    let observed = pipeline.archive_concerns(&[]).unwrap();
    let expected = pipeline.specify_expectations(&[contract(ConcernSymbol::Head, "head")]).unwrap();
    let diff = pipeline.verify(&observed, &expected).unwrap();
    assert_eq!(diff.diffs.len(), 1);
    assert_eq!(diff.diffs[0].diff_type, DiffType::Missing);
    assert_eq!(diff.diffs[0].description, "Missing expected concern: Head");
    assert!(!diff.is_valid);
}

#[test]
fn duplicate_concerns_are_archived_once() {
    let pipeline = FunctionalContractPipeline::new(".");
    let observed = pipeline
        .archive_concerns(&[ConcernSymbol::Head, ConcernSymbol::Ref, ConcernSymbol::Head])
        .unwrap();
    let keys: Vec<ConcernSymbol> = observed.snapshots.iter().map(|(c, _)| *c).collect();
    assert_eq!(keys, vec![ConcernSymbol::Head, ConcernSymbol::Ref]);
    assert_eq!(observed.snapshots[0].1.data.to_json_text(), "{\"head\":\"refs/heads/main\"}");
    assert_eq!(pipeline.identify_concerns(&HookEvent::PostRebase), vec![]);
}
