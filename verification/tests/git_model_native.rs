use hooksmith::git_model::{
    actions_for_file, allowed_actions, analyze_files, can_block, hooks_for_action, validate_contract,
    ActionKind, ContractValidation, FileActionInfo, FileStateKind, HookKind,
};
use hooksmith::git_native::{
    GitConfigType, GitMetadataType, GitNativeError, GitNativeValidator, GitObjectType, GitTreeEntryType,
};

#[test]
fn test_file_state_descriptions() {
    assert_eq!(FileStateKind::Clean.description(), "Same in HEAD, index, and worktree");
    assert_eq!(FileStateKind::ModifiedUnstaged.description(), "Different in worktree but not staged");
}

#[test]
fn test_action_descriptions() {
    assert_eq!(ActionKind::Commit.description(), "Commit staged changes to history");
    assert_eq!(ActionKind::Push.description(), "Upload commits to remote");
}

#[test]
fn test_hook_descriptions() {
    assert_eq!(HookKind::PreCommit.description(), "Runs before commit is created");
    assert_eq!(HookKind::PostCommit.description(), "Runs after commit is created");
}

#[test]
fn test_hook_filenames() {
    assert_eq!(HookKind::PreCommit.filename(), "pre-commit");
    assert_eq!(HookKind::CommitMsg.filename(), "commit-msg");
    assert_eq!(HookKind::PrePush.filename(), "pre-push");
}

#[test]
fn test_hooks_for_action() {
    let commit_hooks = hooks_for_action(ActionKind::Commit);
    assert_eq!(commit_hooks.len(), 4);
    let pre_commit = commit_hooks.iter().find(|h| h.hook == HookKind::PreCommit).unwrap();
    assert!(pre_commit.can_block);
    let post_commit = commit_hooks.iter().find(|h| h.hook == HookKind::PostCommit).unwrap();
    assert!(!post_commit.can_block);
}

#[test]
fn test_allowed_actions() {
    let staged_actions = allowed_actions(FileStateKind::Staged);
    assert!(staged_actions.contains(&ActionKind::Commit));
    assert!(staged_actions.contains(&ActionKind::Push));
    assert!(!staged_actions.contains(&ActionKind::Checkout));
    let untracked_actions = allowed_actions(FileStateKind::Untracked);
    assert!(untracked_actions.is_empty());
}

#[test]
fn test_can_block() {
    assert!(can_block(ActionKind::Commit, HookKind::PreCommit));
    assert!(can_block(ActionKind::Commit, HookKind::CommitMsg));
    assert!(!can_block(ActionKind::Commit, HookKind::PostCommit));
    assert!(!can_block(ActionKind::Checkout, HookKind::PostCheckout));
}

#[test]
fn test_actions_for_file() {
    let staged_actions = actions_for_file(FileStateKind::Staged);
    assert_eq!(staged_actions.len(), 2);
    let (commit_action, commit_hooks) = &staged_actions[0];
    assert_eq!(*commit_action, ActionKind::Commit);
    assert_eq!(commit_hooks.len(), 4);
}

#[test]
fn test_file_action_info() {
    let file_info = FileActionInfo::new("src/main.rs".to_string(), FileStateKind::Staged);
    assert_eq!(file_info.path, "src/main.rs");
    assert_eq!(file_info.state, FileStateKind::Staged);
    assert_eq!(file_info.actions.len(), 2);
    let blocking_hooks = file_info.blocking_hooks();
    assert!(blocking_hooks.contains(&HookKind::PreCommit));
    assert!(blocking_hooks.contains(&HookKind::CommitMsg));
    assert!(!blocking_hooks.contains(&HookKind::PostCommit));
    assert!(file_info.can_be_blocked());
}

#[test]
fn file_action_info_hook_partition() {
    let info = FileActionInfo::new("a.txt".to_string(), FileStateKind::Staged);
    assert_eq!(info.blocking_hooks(), vec![HookKind::PreCommit, HookKind::CommitMsg, HookKind::PrePush]);
    assert_eq!(info.non_blocking_hooks(), vec![HookKind::PrepareCommitMsg, HookKind::PostCommit]);
    assert_eq!(info.blockable_actions(), vec![ActionKind::Commit, ActionKind::Push]);
    let clean = FileActionInfo::new("b.txt".to_string(), FileStateKind::Clean);
    assert_eq!(
        clean.blockable_actions(),
        vec![ActionKind::Commit, ActionKind::Push, ActionKind::Merge, ActionKind::Rebase]
    );
    let ignored = FileActionInfo::new("c.txt".to_string(), FileStateKind::Ignored);
    assert!(!ignored.can_be_blocked());
}

#[test]
fn test_analyze_files() {
    let files = vec![
        ("src/main.rs".to_string(), FileStateKind::Staged),
        ("src/lib.rs".to_string(), FileStateKind::ModifiedUnstaged),
        ("docs/README.md".to_string(), FileStateKind::Untracked),
    ];
    let analysis = analyze_files(files);
    assert_eq!(analysis.len(), 3);
    assert_eq!(analysis[0].actions.len(), 2);
    assert_eq!(analysis[1].actions.len(), 0);
    assert_eq!(analysis[2].actions.len(), 0);
    assert_eq!(analysis[0].path, "src/main.rs");
    assert_eq!(analysis[2].path, "docs/README.md");
}

#[test]
fn test_validate_contract() {
    let result = validate_contract(FileStateKind::Staged, ActionKind::Commit, HookKind::PreCommit);
    assert!(result.is_valid());
    let result = validate_contract(FileStateKind::Untracked, ActionKind::Commit, HookKind::PreCommit);
    assert!(!result.is_valid());
    assert_eq!(result, ContractValidation::ActionNotAllowed);
    let result = validate_contract(FileStateKind::Staged, ActionKind::Commit, HookKind::PrePush);
    assert!(!result.is_valid());
    assert_eq!(result, ContractValidation::HookNotRelevant);
    let result = validate_contract(FileStateKind::Staged, ActionKind::Commit, HookKind::PostCommit);
    assert!(!result.is_valid());
    assert_eq!(result, ContractValidation::HookCannotBlock);
}

#[test]
fn valid_contract_matches_can_block() {
    let states = [FileStateKind::Clean, FileStateKind::Staged, FileStateKind::Untracked];
    let actions = [ActionKind::Commit, ActionKind::Checkout, ActionKind::Push, ActionKind::Merge];
    let hooks = [HookKind::PreCommit, HookKind::PostCheckout, HookKind::PrePush, HookKind::PreMergeCommit];
    for s in states.iter() {
        for a in actions.iter() {
            for h in hooks.iter() {
                let valid = validate_contract(*s, *a, *h).is_valid();
                assert_eq!(valid, allowed_actions(*s).contains(a) && can_block(*a, *h));
            }
        }
    }
}

#[test]
fn test_contract_validation_descriptions() {
    assert_eq!(ContractValidation::Valid.description(), "Valid contract: Hook can block this action for this file state");
    assert_eq!(ContractValidation::ActionNotAllowed.description(), "Action not allowed for this file state");
    assert_eq!(ContractValidation::HookNotRelevant.description(), "Hook does not run for this action");
    assert_eq!(ContractValidation::HookCannotBlock.description(), "Hook runs but cannot block the action");
}

#[test]
fn test_map_object_type() {
    assert_eq!(GitNativeValidator::map_object_type("blob"), Some(GitObjectType::Blob));
    assert_eq!(GitNativeValidator::map_object_type("tree"), Some(GitObjectType::Tree));
    assert_eq!(GitNativeValidator::map_object_type("commit"), Some(GitObjectType::Commit));
    assert_eq!(GitNativeValidator::map_object_type("tag"), Some(GitObjectType::Tag));
    assert_eq!(GitNativeValidator::map_object_type("invalid"), None);
}

#[test]
fn test_map_tree_entry_type() {
    assert_eq!(GitNativeValidator::map_tree_entry_type("tree-file"), Some(GitTreeEntryType::TreeFile));
    assert_eq!(GitNativeValidator::map_tree_entry_type("tree-executable"), Some(GitTreeEntryType::TreeExecutable));
    assert_eq!(GitNativeValidator::map_tree_entry_type("tree-symlink"), Some(GitTreeEntryType::TreeSymlink));
    assert_eq!(GitNativeValidator::map_tree_entry_type("tree-directory"), Some(GitTreeEntryType::TreeDirectory));
    assert_eq!(GitNativeValidator::map_tree_entry_type("tree-submodule"), Some(GitTreeEntryType::TreeSubmodule));
    assert_eq!(GitNativeValidator::map_tree_entry_type("invalid"), None);
}

#[test]
fn test_map_metadata_type() {
    assert_eq!(GitNativeValidator::map_metadata_type("ref"), Some(GitMetadataType::Ref));
    assert_eq!(GitNativeValidator::map_metadata_type("note"), Some(GitMetadataType::Note));
    assert_eq!(GitNativeValidator::map_metadata_type("attr"), Some(GitMetadataType::Attr));
    assert_eq!(GitNativeValidator::map_metadata_type("index"), Some(GitMetadataType::Index));
    assert_eq!(GitNativeValidator::map_metadata_type("stash"), Some(GitMetadataType::Stash));
    assert_eq!(GitNativeValidator::map_metadata_type("worktree"), Some(GitMetadataType::Worktree));
    assert_eq!(GitNativeValidator::map_metadata_type("remote"), Some(GitMetadataType::Remote));
    assert_eq!(GitNativeValidator::map_metadata_type("branch"), Some(GitMetadataType::Branch));
    assert_eq!(GitNativeValidator::map_metadata_type("head"), Some(GitMetadataType::Head));
    assert_eq!(GitNativeValidator::map_metadata_type("reflog"), Some(GitMetadataType::Reflog));
    assert_eq!(GitNativeValidator::map_metadata_type("invalid"), None);
}

#[test]
fn test_map_config_type() {
    assert_eq!(GitNativeValidator::map_config_type("config-user"), Some(GitConfigType::ConfigUser));
    assert_eq!(GitNativeValidator::map_config_type("config-core"), Some(GitConfigType::ConfigCore));
    assert_eq!(GitNativeValidator::map_config_type("config-branch"), Some(GitConfigType::ConfigBranch));
    assert_eq!(GitNativeValidator::map_config_type("config-remote"), Some(GitConfigType::ConfigRemote));
    assert_eq!(GitNativeValidator::map_config_type("config-commit"), Some(GitConfigType::ConfigCommit));
    assert_eq!(GitNativeValidator::map_config_type("config-push"), Some(GitConfigType::ConfigPush));
    assert_eq!(GitNativeValidator::map_config_type("config-worktree"), Some(GitConfigType::ConfigWorktree));
    assert_eq!(GitNativeValidator::map_config_type("invalid"), None);
}

#[test]
fn test_validate_concerns() {
    let valid_concerns = vec!["blob".to_string(), "tree".to_string(), "ref".to_string()];
    assert!(GitNativeValidator::validate_concerns(&valid_concerns).is_ok());
    let invalid_concerns = vec!["blob".to_string(), "contract-violation".to_string()];
    assert!(GitNativeValidator::validate_concerns(&invalid_concerns).is_err());
}

#[test]
fn validate_concerns_lists_offenders() {
    let concerns = vec!["x".to_string(), "config-gc".to_string(), "y".to_string(), "tree-file".to_string()];
    match GitNativeValidator::validate_concerns(&concerns) {
        Err(GitNativeError::NonNativeConcerns(bad)) => assert_eq!(bad, vec!["x".to_string(), "y".to_string()]),
        _ => panic!("expected an error"),
    }
}

#[test]
fn validate_object_types_counts() {
    let v = GitNativeValidator::new();
    let ok = vec![("blob".to_string(), 3u32), ("tag".to_string(), 0u32)];
    assert!(v.validate_object_types(&ok).is_ok());
    let bad = vec![("blob".to_string(), 3u32), ("packfile".to_string(), 7u32)];
    match v.validate_object_types(&bad) {
        Err(GitNativeError::UnknownObjectTypes(list)) => assert_eq!(list, vec![("packfile".to_string(), 7u32)]),
        _ => panic!("expected an error"),
    }
}

#[test]
fn canonical_name_lists() {
    assert_eq!(GitNativeValidator::canonical_object_types(), vec!["blob", "tree", "commit", "tag"]);
    assert_eq!(GitNativeValidator::canonical_tree_entry_types().len(), 5);
    assert_eq!(GitNativeValidator::canonical_metadata_types().len(), 10);
    assert_eq!(GitNativeValidator::canonical_config_types().len(), 32);
}

#[test]
fn blocking_split_counts_every_hook() {
    let states = [
        FileStateKind::Clean,
        FileStateKind::ModifiedUnstaged,
        FileStateKind::Staged,
        FileStateKind::StagedAndModified,
        FileStateKind::Added,
        FileStateKind::DeletedStaged,
        FileStateKind::Untracked,
        FileStateKind::Ignored,
    ];
    for state in states {
        let info = FileActionInfo::new("f.rs".to_string(), state);
        let total: usize = info.actions.iter().map(|(_, hooks)| hooks.len()).sum();
        let blocking = info.blocking_hooks();
        let non_blocking = info.non_blocking_hooks();
        assert_eq!(blocking.len() + non_blocking.len(), total);
        assert_eq!(info.can_be_blocked(), !blocking.is_empty());
    }
}
