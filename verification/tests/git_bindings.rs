use hooksmith::git_bindings::{join_path, GitBindings, GitConcernValidator};
use hooksmith::git_native::{GitMetadataType, GitObjectType};

#[test]
fn test_git_bindings_creation() {
    let bindings = GitBindings::new(".");
    assert_eq!(bindings.repo_path(), ".");
}

// The attributes file `.gitattributes` is present at the repository root.
#[test]
fn test_concern_validation_git2() {
    let bindings = GitBindings::new(".");

    // Test object concerns
    assert!(bindings.validate_concern_git2("blob", "test-id", true).is_ok());
    assert!(bindings.validate_concern_git2("tree", "test-id", true).is_ok());
    assert!(bindings.validate_concern_git2("commit", "test-id", true).is_ok());
    assert!(bindings.validate_concern_git2("tag", "test-id", true).is_ok());

    // Test metadata concerns
    assert!(bindings.validate_concern_git2("ref", "refs/heads/main", true).is_ok());
    assert!(bindings.validate_concern_git2("note", "test-note", true).is_ok());
    assert!(bindings.validate_concern_git2("attr", ".gitattributes", true).is_ok());
    assert!(bindings.validate_concern_git2("index", "", true).is_ok());
    assert!(bindings.validate_concern_git2("stash", "refs/stash", true).is_ok());
    assert!(bindings.validate_concern_git2("worktree", "feature-branch", true).is_ok());
    assert!(bindings.validate_concern_git2("remote", "origin", true).is_ok());

    // Test invalid concern
    assert!(bindings.validate_concern_git2("invalid", "test", true).is_err());
}

#[test]
fn test_concern_validation_gix() {
    let bindings = GitBindings::new(".");

    // Test object concerns
    assert!(bindings.validate_concern_gix("blob", "test-id", true).is_ok());
    assert!(bindings.validate_concern_gix("tree", "test-id", true).is_ok());
    assert!(bindings.validate_concern_gix("commit", "test-id", true).is_ok());
    assert!(bindings.validate_concern_gix("tag", "test-id", true).is_ok());

    // Test metadata concerns
    assert!(bindings.validate_concern_gix("ref", "refs/heads/main", true).is_ok());
    assert!(bindings.validate_concern_gix("note", "test-note", true).is_ok());
    assert!(bindings.validate_concern_gix("attr", ".gitattributes", true).is_ok());
    assert!(bindings.validate_concern_gix("index", "", true).is_ok());

    // Test invalid concern
    assert!(bindings.validate_concern_gix("invalid", "test", true).is_err());
}

#[test]
fn validation_lines() {
    let b = GitBindings::new("/repo");
    assert_eq!(b.validate_concern_git2("blob", "abc", false).unwrap(), "✅ Validated blob abc using git2");
    assert_eq!(b.validate_concern_gix("remote", "origin", false).unwrap(), "✅ Validated remote origin using gix");
    assert_eq!(b.validate_concern_git2("index", "ignored", false).unwrap(), "✅ Validated index using git2");
    assert_eq!(b.validate_concern_git2("attr", ".gitattributes", true).unwrap(), "✅ Validated attributes .gitattributes using git2");
    assert_eq!(
        b.validate_git_object(&GitObjectType::Tag, "v1").unwrap(),
        "✅ Validated tag v1 using git2"
    );
    assert_eq!(
        b.validate_git_metadata_gix(&GitMetadataType::Note, "n", false).unwrap(),
        "✅ Validated note n using gix"
    );
}

#[test]
fn missing_attributes_file_is_an_error() {
    let b = GitBindings::new("/repo");
    assert_eq!(
        b.validate_concern_git2("attr", ".gitattributes", false).unwrap_err(),
        "Git attributes file not found: /repo/.gitattributes"
    );
    assert_eq!(
        b.validate_git_metadata(&GitMetadataType::Attr, "/abs/attrs", false).unwrap_err(),
        "Git attributes file not found: /abs/attrs"
    );
}

#[test]
fn unknown_concern_message() {
    let b = GitBindings::new(".");
    assert_eq!(b.validate_concern_gix("invalid", "x", true).unwrap_err(), "Unknown concern: invalid");
    assert_eq!(b.get_concern_stats("invalid").unwrap_err(), "Unknown concern: invalid");
    assert_eq!(b.get_concern_stats("tree").unwrap(), 0);
    assert_eq!(b.get_concern_stats("remote").unwrap(), 0);
}

#[test]
fn statistics_keys() {
    let b = GitBindings::new(".");
    let keys: Vec<String> = b.get_metadata_stats_gix().unwrap().into_iter().map(|(k, _)| k).collect();
    assert_eq!(keys, vec!["ref", "note", "attr", "index", "stash", "worktree", "remote"]);
    assert!(b.get_object_stats_git2().unwrap().iter().all(|(_, n)| *n == 0));
}

#[test]
fn path_joining() {
    assert_eq!(join_path(".", ".gitattributes"), "./.gitattributes");
    assert_eq!(join_path("/repo/", "a"), "/repo/a");
    assert_eq!(join_path("", "a"), "a");
    assert_eq!(join_path("/repo", "/etc/x"), "/etc/x");
}
