use hooksmith::hierarchical_validation::{
    changes_from_word_diff, extract_scope_content, get_content_hash, parse_hunk_header, parse_usize, split_lines,
    split_words, ChangeScope, ChildScope, ContentRange, HierarchicalValidator, ValidationNote, ValidationScope,
};

#[test]
fn test_validation_scope_hierarchy() {
    let hierarchy = ValidationScope::hierarchy();
    assert_eq!(hierarchy.len(), 6);
    assert_eq!(hierarchy[0], ValidationScope::Char);
    assert_eq!(hierarchy[5], ValidationScope::Repository);
}

#[test]
fn test_validation_scope_parent_child() {
    assert_eq!(ValidationScope::Char.parent(), None);
    assert_eq!(ValidationScope::Line.parent(), Some(ValidationScope::Char));
    assert_eq!(ValidationScope::Repository.child(), None);
    assert_eq!(ValidationScope::Directory.child(), Some(ValidationScope::Repository));
}

#[test]
fn test_content_hash_generation() {
    let content = "test content";
    let hash = get_content_hash(content, &None);
    assert!(hash.starts_with("sha256:"));
    assert_eq!(hash.len(), 71); // "sha256:" + 64 hex chars
}

#[test]
fn content_hash_known_value() {
    // SHA-256 of "abc"
    assert_eq!(
        get_content_hash("abc", &None),
        "sha256:ba7816bf8f01cfea414140de5dae2223b00361a396177a9cb410ff61f20015ad"
    );
    let range = Some(ContentRange { start_line: 1, end_line: 2, start_char: None, end_char: Some(3) });
    // SHA-256 of "abc1:2:0:3"
    assert_eq!(get_content_hash("abc", &range), get_content_hash("abc1:2:0:3", &None));
}

#[test]
fn parent_child_round_trip() {
    for s in ValidationScope::hierarchy() {
        if let Some(c) = s.child() {
            assert_eq!(c.parent(), Some(s));
        }
    }
    assert_eq!(ValidationScope::Chunk.contract_type(), "blob_contract");
    assert_eq!(ValidationScope::Directory.contract_type(), "tree_filename_chars_contract");
    assert_eq!(ValidationScope::Repository.name(), "repository");
}

#[test]
fn hunk_headers() {
    assert_eq!(
        parse_hunk_header("@@ -42,1 +42,3 @@"),
        Some(ContentRange { start_line: 42, end_line: 44, start_char: None, end_char: None })
    );
    assert_eq!(
        parse_hunk_header("@@ -1 +7 @@"),
        Some(ContentRange { start_line: 7, end_line: 7, start_char: None, end_char: None })
    );
    assert_eq!(parse_hunk_header("@@ -1,2 -3,4 @@"), None);
    assert_eq!(parse_hunk_header("@@ -1,2"), None);
    assert_eq!(parse_hunk_header("@@ -1 +x,2 @@"), None);
    assert_eq!(
        parse_hunk_header("@@\t-1  ++5,1 @@"),
        Some(ContentRange { start_line: 5, end_line: 5, start_char: None, end_char: None })
    );
}

#[test]
fn usize_parsing() {
    assert_eq!(parse_usize("42"), Some(42));
    assert_eq!(parse_usize("+42"), Some(42));
    assert_eq!(parse_usize("+"), None);
    assert_eq!(parse_usize(""), None);
    assert_eq!(parse_usize("-1"), None);
    assert_eq!(parse_usize("18446744073709551615"), Some(usize::MAX));
    assert_eq!(parse_usize("18446744073709551616"), None);
}

#[test]
fn words_and_lines() {
    assert_eq!(split_words("  a b\t\tc \n"), vec!["a", "b", "c"]);
    assert_eq!(split_lines("a\r\nb\n\nc"), vec!["a", "b", "", "c"]);
    assert_eq!(split_lines("a\n"), vec!["a"]);
    assert_eq!(split_lines("a\r"), vec!["a\r"]);
    assert!(split_lines("").is_empty());
}

#[test]
fn scope_content_selection() {
    let content = "first line\nsecond line\nthird";
    let lines = Some(ContentRange { start_line: 2, end_line: 3, start_char: None, end_char: None });
    assert_eq!(extract_scope_content(content, &lines, ValidationScope::Line), "second line\nthird");
    let chars = Some(ContentRange { start_line: 1, end_line: 1, start_char: Some(6), end_char: Some(10) });
    assert_eq!(extract_scope_content(content, &chars, ValidationScope::Char), "line");
    let out_of_range = Some(ContentRange { start_line: 9, end_line: 9, start_char: Some(0), end_char: Some(1) });
    assert_eq!(extract_scope_content(content, &out_of_range, ValidationScope::Char), content);
    assert_eq!(extract_scope_content(content, &lines, ValidationScope::File), content);
    let unicode = "héllo";
    let bytes = Some(ContentRange { start_line: 1, end_line: 1, start_char: Some(1), end_char: Some(3) });
    assert_eq!(extract_scope_content(unicode, &bytes, ValidationScope::Char), "é");
}

#[test]
fn word_diff_changes() {
    let diff = "diff --git a/x b/x\n@@ -1,2 +1,2 @@\n~\n@@ -10 +11 @@\n";
    let changes = changes_from_word_diff("x", "body", diff);
    assert_eq!(changes.len(), 2);
    assert_eq!(changes[0].scope, ValidationScope::Line);
    assert_eq!(changes[0].range, Some(ContentRange { start_line: 1, end_line: 2, start_char: None, end_char: None }));
    assert_eq!(changes[1].range, Some(ContentRange { start_line: 11, end_line: 11, start_char: None, end_char: None }));
    let whole = changes_from_word_diff("x", "body", "no hunks here\n");
    assert_eq!(whole.len(), 1);
    assert_eq!(whole[0].scope, ValidationScope::File);
    assert!(whole[0].range.is_none());
}

fn change(file: &str, scope: ValidationScope, content: &str) -> ChangeScope {
    ChangeScope { file: file.to_string(), scope, range: None, content: content.to_string() }
}

#[test]
fn hierarchical_walk_up_to_repository() {
    let v = HierarchicalValidator::new("/repo");
    let (results, notes) = v.validate_hierarchically(vec![change("/repo/a.rs", ValidationScope::File, "x")], "abc123");
    assert_eq!(results.len(), 1);
    assert_eq!(results[0].scope, ValidationScope::Repository);
    assert_eq!(results[0].child_results.len(), 1);
    assert_eq!(results[0].child_results[0].scope, ValidationScope::Directory);
    assert!(results[0].child_results[0].child_results.is_empty());
    assert_eq!(notes.len(), 2);
    assert_eq!(notes[0].scope, "directory");
    assert_eq!(notes[0].parent_scope, Some("file".to_string()));
    assert_eq!(notes[1].scope, "repository");
    assert_eq!(notes[1].contract_type, "repo_contract");
    assert_eq!(notes[1].tool, "xtask-contract-validate 0.1.0");
    assert_eq!(notes[1].commit_hash, Some("abc123".to_string()));
    assert!(notes.iter().all(|n| n.validated));
}

#[test]
fn repeated_change_is_validated_once() {
    let v = HierarchicalValidator::new("/repo");
    let c = change("/repo/a.rs", ValidationScope::Chunk, "x");
    let (results, notes) = v.validate_hierarchically(vec![c.clone(), c], "h");
    assert_eq!(results.len(), 1);
    assert_eq!(notes.len(), 3);
    let (top_only, none) = v.validate_hierarchically(vec![change("/r/b", ValidationScope::Repository, "y")], "h");
    assert!(top_only.is_empty());
    assert!(none.is_empty());
}

#[test]
fn changed_files_are_joined_under_repository() {
    let v = HierarchicalValidator::new("/repo");
    assert_eq!(v.changed_files("src/a.rs\n\nREADME.md\n"), vec!["/repo/src/a.rs", "/repo/README.md"]);
}

fn note(hash: &str, parent: Option<&str>, children: &[&str]) -> ValidationNote {
    ValidationNote {
        scope: "line".to_string(),
        file: "f".to_string(),
        range: None,
        hash: hash.to_string(),
        parent_scope: None,
        parent_hash: parent.map(|p| p.to_string()),
        child_scopes: children.iter().map(|c| ChildScope { scope: "char".to_string(), hash: c.to_string() }).collect(),
        validated: true,
        validation_errors: vec![],
        contract_type: "line_contract".to_string(),
        tool: "t".to_string(),
        timestamp: "now".to_string(),
        commit_hash: None,
        validation_duration_ms: 0,
        metadata: vec![],
    }
}

#[test]
fn validation_chain_integrity() {
    let v = HierarchicalValidator::new(".");
    assert_eq!(v.verify_validation_chain(&[note("p", None, &["c"]), note("c", Some("p"), &[])]), Ok(()));
    assert_eq!(
        v.verify_validation_chain(&[note("c", Some("missing"), &[])]),
        Err("Validation chain integrity error: parent note missing not found".to_string())
    );
    assert_eq!(
        v.verify_validation_chain(&[note("p", None, &[]), note("c", Some("p"), &[])]),
        Err("Validation chain integrity error: note c not found as child of parent p".to_string())
    );
}

#[test]
fn scope_hierarchy_rises_strictly() {
    let h = ValidationScope::hierarchy();
    for i in 0..h.len() {
        for j in i + 1..h.len() {
            assert!(h[i] < h[j]);
            assert!(h[j] > h[i]);
            assert_eq!(h[i].cmp(&h[j]), std::cmp::Ordering::Less);
            assert_eq!(h[i].partial_cmp(&h[j]), Some(std::cmp::Ordering::Less));
        }
        assert_eq!(h[i].partial_cmp(&h[i]), Some(std::cmp::Ordering::Equal));
    }
    assert_eq!(h.iter().max(), Some(&ValidationScope::Repository));
}

#[test]
fn checked_walk_refuses_a_reversed_line_range() {
    let v = HierarchicalValidator::new("/repo");
    let range = |start_line: usize, end_line: usize| ContentRange { start_line, end_line, start_char: Some(0), end_char: Some(1) };
    let mut bad = change("/repo/a.rs", ValidationScope::Char, "one\ntwo\nthree");
    bad.range = Some(range(3, 1));
    assert!(!hooksmith::hierarchical_validation::changes_are_defined(&vec![bad.clone()]));
    assert!(v.validate_hierarchically_checked(vec![bad], "abc").is_none());
    let mut good = change("/repo/a.rs", ValidationScope::Char, "one\ntwo\nthree");
    good.range = Some(range(2, 2));
    assert!(hooksmith::hierarchical_validation::line_selection_defined("one\ntwo\nthree", &good.range));
    let (results, notes) = v.validate_hierarchically_checked(vec![good], "abc").unwrap();
    assert_eq!(results.len(), 1);
    assert_eq!(results[0].scope, ValidationScope::Repository);
    assert_eq!(notes.len(), 5);
}
