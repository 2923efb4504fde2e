use hooksmith::crate_contract_mapper::{
    extract_crate_name_from_cargo_toml, trim_quotes, trim_text, Contract, ContractCrateMapping, ContractMapperConfig,
    ContractScope, CrateContractMapper, IsolationLevel, ViolationSeverity, ViolationType,
};
use hooksmith::paths::{extension, file_name, file_stem};

#[test]
fn test_contract_mapper_creation() {
    let config = ContractMapperConfig::default();
    let mapper = CrateContractMapper::new(Some(config));
    assert_eq!(mapper.config().max_contracts_per_crate, 10);
    assert_eq!(mapper.config().allowed_cross_crate_deps, vec!["core", "shared"]);
}

#[test]
fn test_contract_file_detection() {
    let mapper = CrateContractMapper::new(None);
    assert!(mapper.is_contract_file("src/contracts/mod.rs"));
    assert!(mapper.is_contract_file("src/validation.rs"));
    assert!(mapper.is_contract_file("hooks/validation.rs"));
    assert!(!mapper.is_contract_file("README.md"));
    assert!(mapper.is_contract_file("docs/Policy.md"));
}

fn mapping(id: &str, krate: &str, scope: ContractScope, level: IsolationLevel, deps: Vec<&str>) -> ContractCrateMapping {
    ContractCrateMapping {
        contract_id: id.to_string(),
        crate_name: krate.to_string(),
        file_path: format!("{}/src/lib.rs", krate),
        line_range: Some((1, 10)),
        scope,
        isolation_level: level,
        dependencies: deps.into_iter().map(|d| d.to_string()).collect(),
    }
}

#[test]
fn boundary_violations_are_found_in_order() {
    let mut mapper = CrateContractMapper::new(None);
    let mapped = mapper
        .map_contracts_to_crates(vec![
            mapping("a", "one", ContractScope::Public, IsolationLevel::Unstable, vec!["core", "serde"]),
            mapping("b", "two", ContractScope::Public, IsolationLevel::Private, vec![]),
            mapping("c", "one", ContractScope::Internal, IsolationLevel::Internal, vec!["shared"]),
        ])
        .unwrap();
    assert_eq!(mapped.len(), 3);
    let v = mapper.detect_boundary_violations();
    assert_eq!(v.len(), 3);
    assert_eq!(v[0].contract_id, "a");
    assert_eq!(v[0].violation_type, ViolationType::CrossCrateDependency);
    assert_eq!(v[0].severity, ViolationSeverity::Warning);
    assert_eq!(v[0].description, "Contract depends on external crate 'serde'");
    assert_eq!(v[1].violation_type, ViolationType::UnstableApiExposure);
    assert_eq!(v[2].contract_id, "b");
    assert_eq!(v[2].violation_type, ViolationType::ContractScopeMismatch);
    assert_eq!(v[2].suggested_fix, Some("Align contract scope with isolation level".to_string()));
    assert_eq!(mapper.get_crate_contracts("one").len(), 2);
    assert!(mapper.get_contract_mapping("c").is_some());
    assert!(mapper.get_contract_mapping("z").is_none());
}

#[test]
fn isolation_levels_follow_scope() {
    let mapper = CrateContractMapper::new(None);
    let c = Contract { id: "Experimental-API".to_string(), line_range: None, scope: ContractScope::Public };
    assert_eq!(mapper.determine_isolation_level(&c, "x"), Ok(IsolationLevel::Unstable));
    let c = Contract { id: "stable".to_string(), line_range: None, scope: ContractScope::Public };
    assert_eq!(mapper.determine_isolation_level(&c, "x"), Ok(IsolationLevel::Public));
    let c = Contract { id: "x".to_string(), line_range: None, scope: ContractScope::Private };
    assert_eq!(mapper.determine_isolation_level(&c, "x"), Ok(IsolationLevel::Private));
    assert!(mapper.extract_contracts_from_file("src/lib.rs", "x").unwrap().is_empty());
}

#[test]
fn crate_name_from_manifest() {
    let toml = "[package]\n  name = \"my-crate\"\nversion = \"0.1.0\"\n";
    assert_eq!(extract_crate_name_from_cargo_toml(toml), Ok("my-crate".to_string()));
    assert_eq!(
        extract_crate_name_from_cargo_toml("[package]\nversion = \"1\"\n"),
        Err("Could not find crate name in Cargo.toml".to_string())
    );
    assert_eq!(trim_text("  a b \t"), "a b");
    assert_eq!(trim_quotes("\"\"x\""), "x");
}

#[test]
fn path_parts() {
    assert_eq!(file_name("a/b/c.rs"), Some("c.rs".to_string()));
    assert_eq!(file_name("a/b/"), Some("b".to_string()));
    assert_eq!(file_name("a/.."), None);
    assert_eq!(file_name("/"), None);
    assert_eq!(file_name("./x/."), Some("x".to_string()));
    assert_eq!(extension("src/lib.rs"), Some("rs".to_string()));
    assert_eq!(extension(".bashrc"), None);
    assert_eq!(extension("Cargo.toml"), Some("toml".to_string()));
    assert_eq!(file_stem("dir/interface.wit"), Some("interface".to_string()));
    assert_eq!(file_stem("a.b.c"), Some("a.b".to_string()));
}

#[test]
fn contract_distribution_counts_per_crate() {
    let mut mapper = CrateContractMapper::new(None);
    mapper
        .map_contracts_to_crates(vec![
            mapping("a", "one", ContractScope::Public, IsolationLevel::Unstable, vec!["core", "serde"]),
            mapping("b", "two", ContractScope::Private, IsolationLevel::Private, vec![]),
            mapping("c", "one", ContractScope::Internal, IsolationLevel::Internal, vec!["shared", "tokio"]),
            mapping("d", "one", ContractScope::Public, IsolationLevel::Unstable, vec!["core"]),
        ])
        .unwrap();
    let d = mapper.analyze_contract_distribution();
    assert_eq!(d.len(), 2);
    assert_eq!(d[0].crate_name, "one");
    assert_eq!(d[0].contract_count, 3);
    assert_eq!(d[0].total_contracts, 4);
    assert_eq!(d[0].isolation_breakdown, vec![(IsolationLevel::Unstable, 2), (IsolationLevel::Internal, 1)]);
    assert_eq!(d[0].dependency_count, 5);
    assert_eq!(d[0].cross_crate_dependencies, 2);
    assert_eq!(d[1].crate_name, "two");
    assert_eq!(d[1].contract_count, 1);
    assert_eq!(d[1].isolation_breakdown, vec![(IsolationLevel::Private, 1)]);
    assert_eq!(d[1].dependency_count, 0);
    assert_eq!(d[1].cross_crate_dependencies, 0);
    assert!(CrateContractMapper::new(None).analyze_contract_distribution().is_empty());
}
