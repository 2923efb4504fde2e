use hooksmith::static_hook::{HookConcern, HookScope, StaticHook};

fn hook(name: &str, concerns: Vec<HookConcern>, bin: &str) -> StaticHook {
    StaticHook { name: name.to_string(), scope: HookScope::Git, concerns, bin: bin.to_string() }
}

#[test]
fn test_valid_static_hook() {
    let hook = hook("pre-commit", vec![HookConcern::Blob, HookConcern::Tree], "target/release/hooksmith-validate-tree");

    // The binary does not exist in the test environment.
    let result = hook.validate(false, false);
    assert!(result.is_err());
}

#[test]
fn test_invalid_hook_name() {
    let hook = hook("pre-commit!", vec![HookConcern::Blob], "target/release/hooksmith-validate-tree");

    let result = hook.validate(false, false);
    assert!(result.is_err());
}

#[test]
fn test_duplicate_concerns() {
    let hook = hook("pre-commit", vec![HookConcern::Blob, HookConcern::Blob], "target/release/hooksmith-validate-tree");

    let result = hook.validate(false, false);
    assert!(result.is_err());
}

#[test]
fn valid_hook_with_its_binary_passes() {
    let h = hook("pre_commit-1", vec![HookConcern::Blob, HookConcern::ConfigUser], "target/release/x");
    assert_eq!(h.validate(true, true), Ok(()));
}

#[test]
fn each_failure_has_its_message() {
    let h = hook("bad name", vec![HookConcern::Blob], "x");
    assert_eq!(
        h.validate(true, true),
        Err("Invalid hook name 'bad name': must contain only alphanumeric characters, underscores, and hyphens"
            .to_string())
    );
    let h = hook("ok", vec![HookConcern::Blob, HookConcern::PackfileIndex, HookConcern::Push], "x");
    assert_eq!(
        h.validate(true, true),
        Err("Hook concerns validation failed:\nNon-Git-native concern 'packfile-index' not allowed\nNon-Git-native concern 'push' not allowed"
            .to_string())
    );
    let h = hook("ok", vec![HookConcern::Tree, HookConcern::Tree], "x");
    assert_eq!(h.validate(true, true), Err("Duplicate concerns found in hook 'ok'".to_string()));
    let h = hook("ok", vec![HookConcern::Tree], "hook-bin");
    assert_eq!(h.validate(false, false), Err("Missing hook binary: target/release/hook-bin".to_string()));
    assert_eq!(h.validate(true, false), Err("Hook binary is not a file: target/release/hook-bin".to_string()));
}

#[test]
fn binary_path_resolution() {
    assert_eq!(hook("h", vec![], "/usr/bin/h").resolved_binary_path(), "/usr/bin/h");
    assert_eq!(hook("h", vec![], "target/debug/h").resolved_binary_path(), "target/debug/h");
    assert_eq!(hook("h", vec![], "h").resolved_binary_path(), "target/release/h");
    assert_eq!(hook("h", vec![], "h").binary_path(), "h");
}

#[test]
fn concern_names_and_scopes() {
    assert_eq!(HookConcern::AttrLineEndingNormalization.name(), "attr-line-ending-normalization");
    assert_eq!(HookConcern::TreeExecutable.name(), "tree-executable");
    let mut h = hook("h", vec![HookConcern::Note], "h");
    assert!(h.concerns_type(&HookConcern::Note));
    assert!(!h.concerns_type(&HookConcern::Tag));
    assert_eq!(h.scope_str(), "git");
    h.scope = HookScope::FsMonitor;
    assert_eq!(h.scope_str(), "fsmonitor");
}
