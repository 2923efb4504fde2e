use hooksmith::contracts::{
    get_all_contracts, get_concerns_with_contracts, get_contract_names, get_contracts, has_contracts,
};
use hooksmith::hooks::{get_concerns, pre_commit, pre_push, pre_auto_gc, commit_msg};
use hooksmith::symbols::{ConcernSymbol, ContractSymbol, HookEvent, RuleSeverity};

#[test]
fn test_contract_symbol_creation() {
    let symbol = ContractSymbol::new("must-exist");
    assert_eq!(symbol.name(), "must-exist");
}

#[test]
fn test_contract_symbol_from_string() {
    let symbol: ContractSymbol = "must-be-non-executable".into();
    assert_eq!(symbol.name(), "must-be-non-executable");
}

#[test]
fn test_concern_symbol_name() {
    assert_eq!(ConcernSymbol::TreeFile.name(), "TreeFile");
    assert_eq!(ConcernSymbol::Ref.name(), "Ref");
    assert_eq!(
        ConcernSymbol::AttrLineEndingNormalization.name(),
        "AttrLineEndingNormalization"
    );
}

#[test]
fn contract_symbol_from_owned_string() {
    let symbol: ContractSymbol = String::from("tree-structure-valid").into();
    assert_eq!(symbol.name(), "tree-structure-valid");
}

#[test]
fn severity_labels() {
    assert_eq!(RuleSeverity::Info.label(), "info");
    assert_eq!(RuleSeverity::Critical.label(), "critical");
    assert_eq!(RuleSeverity::Warning.variant_name(), "Warning");
}

#[test]
fn test_pre_commit_concerns() {
    let concerns = pre_commit();
    assert_eq!(concerns.len(), 3);
    assert!(concerns.contains(&ConcernSymbol::Index));
    assert!(concerns.contains(&ConcernSymbol::AttrLineEndingNormalization));
    assert!(concerns.contains(&ConcernSymbol::AttrDiffStrategy));
}

#[test]
fn test_pre_push_concerns() {
    let concerns = pre_push();
    assert_eq!(concerns.len(), 5);
    assert!(concerns.contains(&ConcernSymbol::Ref));
    assert!(concerns.contains(&ConcernSymbol::Branch));
    assert!(concerns.contains(&ConcernSymbol::Remote));
    assert!(concerns.contains(&ConcernSymbol::TreeExecutable));
    assert!(concerns.contains(&ConcernSymbol::AttrLineEndingNormalization));
}

#[test]
fn test_get_concerns_for_hook() {
    let concerns = get_concerns(&HookEvent::PreCommit);
    assert_eq!(concerns.len(), 3);
    assert!(concerns.contains(&ConcernSymbol::Index));
}

#[test]
fn hook_tables_match_dispatch() {
    assert_eq!(get_concerns(&HookEvent::PreAutoGc), pre_auto_gc());
    assert_eq!(get_concerns(&HookEvent::CommitMsg), commit_msg());
    assert_eq!(pre_auto_gc(), vec![ConcernSymbol::ConfigGc]);
}

#[test]
fn every_hook_concern_has_contracts() {
    let events = [
        HookEvent::PreCommit, HookEvent::PrePush, HookEvent::PreReceive, HookEvent::PostReceive,
        HookEvent::Update, HookEvent::PostUpdate, HookEvent::PreAutoGc, HookEvent::PostMerge,
        HookEvent::PreRebase, HookEvent::PostCheckout, HookEvent::PostCommit, HookEvent::PreApplyPatch,
        HookEvent::PostApplyPatch, HookEvent::PostRebase, HookEvent::PreCommitMsg, HookEvent::CommitMsg,
        HookEvent::PostCommitMsg,
    ];
    for e in events.iter() {
        for c in get_concerns(e) {
            assert!(has_contracts(&c));
        }
    }
}

#[test]
fn test_get_contracts_for_index() {
    let contracts = get_contracts(&ConcernSymbol::Index);
    assert_eq!(contracts.len(), 3);
    assert!(contracts.iter().any(|c| c.name() == "must-exist"));
    assert!(contracts.iter().any(|c| c.name() == "no-unstaged-changes"));
    assert!(contracts.iter().any(|c| c.name() == "no-untracked-files"));
}

#[test]
fn test_get_contracts_for_tree_executable() {
    let contracts = get_contracts(&ConcernSymbol::TreeExecutable);
    assert_eq!(contracts.len(), 2);
    assert!(contracts.iter().any(|c| c.name() == "no-new-executables"));
    assert!(contracts.iter().any(|c| c.name() == "executable-safety-check"));
}

#[test]
fn test_get_all_contracts() {
    let concerns = vec![ConcernSymbol::Index, ConcernSymbol::TreeExecutable];
    let contracts = get_all_contracts(&concerns);
    assert_eq!(contracts.len(), 5);
}

#[test]
fn all_contracts_keep_concern_order() {
    let concerns = vec![ConcernSymbol::TreeExecutable, ConcernSymbol::Blob, ConcernSymbol::Index];
    let names: Vec<String> = get_all_contracts(&concerns).iter().map(|c| c.name().to_string()).collect();
    assert_eq!(
        names,
        vec!["no-new-executables", "executable-safety-check", "must-exist", "no-unstaged-changes", "no-untracked-files"]
    );
}

#[test]
fn test_has_contracts() {
    assert!(has_contracts(&ConcernSymbol::Index));
    assert!(has_contracts(&ConcernSymbol::TreeExecutable));
    assert!(!has_contracts(&ConcernSymbol::Blob));
}

#[test]
fn test_get_contract_names() {
    let names = get_contract_names(&ConcernSymbol::Index);
    assert_eq!(names.len(), 3);
    assert!(names.contains(&"must-exist".to_string()));
    assert!(names.contains(&"no-unstaged-changes".to_string()));
    assert!(names.contains(&"no-untracked-files".to_string()));
}

#[test]
fn test_get_concerns_with_contracts() {
    let concerns = vec![ConcernSymbol::Index, ConcernSymbol::Blob, ConcernSymbol::TreeExecutable];
    let with_contracts = get_concerns_with_contracts(&concerns);
    assert_eq!(with_contracts.len(), 2);
    assert!(with_contracts.contains(&ConcernSymbol::Index));
    assert!(with_contracts.contains(&ConcernSymbol::TreeExecutable));
    assert!(!with_contracts.contains(&ConcernSymbol::Blob));
}
