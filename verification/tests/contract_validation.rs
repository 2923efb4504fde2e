use hooksmith::contract_state_machine::{ContractState, TransitionEvent};
use hooksmith::contract_validation::{
    as_u64, content_preview, file_extension, preview_cut_ok, ContractDefinition, ContractValidator, RuleSeverity, RuleType,
    ValidationRule,
};
use hooksmith::hierarchical_validation::ValidationScope;
use hooksmith::json::JsonValue;

fn s(t: &str) -> JsonValue {
    JsonValue::Str(t.to_string())
}

fn n(t: &str) -> JsonValue {
    JsonValue::Number(t.to_string())
}

fn obj(members: Vec<(&str, JsonValue)>) -> JsonValue {
    JsonValue::Object(members.into_iter().map(|(k, v)| (k.to_string(), v)).collect())
}

fn person_schema() -> JsonValue {
    obj(vec![
        (
            "properties",
            obj(vec![
                ("age", obj(vec![("minimum", n("0")), ("type", s("integer"))])),
                ("name", obj(vec![("type", s("string"))])),
            ]),
        ),
        ("required", JsonValue::Array(vec![s("name"), s("age")])),
        ("type", s("object")),
    ])
}

fn rule(rule_type: RuleType, params: Vec<(&str, JsonValue)>, severity: RuleSeverity) -> ValidationRule {
    ValidationRule {
        name: "rule".to_string(),
        description: None,
        rule_type,
        parameters: params.into_iter().map(|(k, v)| (k.to_string(), v)).collect(),
        required: true,
        severity,
    }
}

fn contract(name: &str, schema: JsonValue, rules: Vec<ValidationRule>) -> ContractDefinition {
    ContractDefinition {
        name: name.to_string(),
        version: "1.0.0".to_string(),
        description: None,
        schema,
        rules,
        metadata: vec![],
    }
}

#[test]
fn test_contract_validation() {
    let mut validator = ContractValidator::new();

    // Create a simple contract definition
    let definition = ContractDefinition {
        name: "test_contract".to_string(),
        version: "1.0.0".to_string(),
        description: Some("Test contract".to_string()),
        schema: person_schema(),
        rules: vec![ValidationRule {
            name: "name_length".to_string(),
            description: Some("Name must be at least 2 characters".to_string()),
            rule_type: RuleType::Pattern,
            parameters: vec![("pattern".to_string(), s("^.{2,}$"))],
            required: true,
            severity: RuleSeverity::Error,
        }],
        metadata: vec![],
    };

    validator.register_contract(definition).unwrap();

    // Test valid data
    let valid_data = obj(vec![("age", n("30")), ("name", s("John Doe"))]);

    let result = validator.validate_contract("test_contract", &valid_data, "test.json", None).unwrap();
    assert!(result.is_valid);
    assert!(result.errors.is_empty());

    // Test invalid data
    let invalid_data = obj(vec![("age", n("30")), ("name", s("J"))]);

    let result = validator.validate_contract("test_contract", &invalid_data, "test.json", None).unwrap();
    assert!(!result.is_valid);
    assert!(!result.errors.is_empty());
}

#[test]
fn unknown_contract_is_an_error() {
    let validator = ContractValidator::new();
    assert_eq!(
        validator.validate_contract("missing", &JsonValue::Null, "a.json", None).unwrap_err(),
        "Contract 'missing' not found"
    );
}

#[test]
fn schema_errors_are_reported_with_paths() {
    let mut validator = ContractValidator::new();
    validator.register_contract(contract("person", person_schema(), vec![])).unwrap();
    let result = validator
        .validate_contract("person", &obj(vec![("age", n("-1")), ("name", s("Ann"))]), "p.json", None)
        .unwrap();
    assert!(!result.is_valid);
    assert_eq!(result.errors.len(), 1);
    assert_eq!(result.errors[0].code, "JSON_SCHEMA_ERROR");
    assert_eq!(result.errors[0].path, Some("/age".to_string()));
    assert_eq!(result.contract_type, "person");
    assert_eq!(result.validated_by, "hooksmith 0.1.0");
    assert!(result.schema_hash.starts_with("sha256:"));
    assert_eq!(result.content_hash.len(), 71);
}

#[test]
fn pattern_rule_severities() {
    let mut validator = ContractValidator::new();
    let any = obj(vec![]);
    validator
        .register_contract(contract(
            "text",
            any.clone(),
            vec![
                rule(RuleType::Pattern, vec![("pattern", s("^a"))], RuleSeverity::Warning),
                rule(RuleType::Pattern, vec![("pattern", s("^b"))], RuleSeverity::Info),
            ],
        ))
        .unwrap();
    let result = validator.validate_contract("text", &s("zzz"), "t.txt", None).unwrap();
    assert!(result.is_valid);
    assert!(result.errors.is_empty());
    assert_eq!(result.warnings.len(), 1);
    assert_eq!(result.warnings[0].code, "PATTERN_MISMATCH");
    assert_eq!(result.warnings[0].message, "Content does not match pattern: ^a");
    assert_eq!(
        result.warnings[0].details,
        Some(obj(vec![("content_preview", s("zzz")), ("pattern", s("^a"))]))
    );
}

#[test]
fn bad_pattern_is_an_error() {
    let mut validator = ContractValidator::new();
    validator
        .register_contract(contract("bad", obj(vec![]), vec![rule(RuleType::Pattern, vec![("pattern", s("("))], RuleSeverity::Error)]))
        .unwrap();
    assert!(validator.validate_contract("bad", &s("x"), "x", None).is_err());
}

#[test]
fn file_size_rule() {
    let mut validator = ContractValidator::new();
    validator
        .register_contract(contract(
            "size",
            obj(vec![]),
            vec![rule(RuleType::FileSize, vec![("max_size", n("10"))], RuleSeverity::Critical)],
        ))
        .unwrap();
    let big = validator.validate_contract("size", &JsonValue::Null, "f", Some(11)).unwrap();
    assert!(!big.is_valid);
    assert_eq!(big.errors[0].message, "File size 11 exceeds maximum 10");
    assert_eq!(big.errors[0].details, Some(obj(vec![("file_size", n("11")), ("max_size", n("10"))])));
    let small = validator.validate_contract("size", &JsonValue::Null, "f", Some(10)).unwrap();
    assert!(small.is_valid);
    let unread = validator.validate_contract("size", &JsonValue::Null, "f", None).unwrap();
    assert!(unread.is_valid);
}

#[test]
fn file_extension_rule() {
    let mut validator = ContractValidator::new();
    let allowed = JsonValue::Array(vec![s("rs"), s("toml")]);
    validator
        .register_contract(contract(
            "ext",
            obj(vec![]),
            vec![rule(RuleType::FileExtension, vec![("extensions", allowed.clone())], RuleSeverity::Error)],
        ))
        .unwrap();
    assert!(validator.validate_contract("ext", &JsonValue::Null, "src/lib.rs", None).unwrap().is_valid);
    let bad = validator.validate_contract("ext", &JsonValue::Null, "notes.md", None).unwrap();
    assert_eq!(bad.errors[0].message, "File extension 'md' not allowed");
    assert_eq!(bad.errors[0].details, Some(obj(vec![("allowed_extensions", allowed), ("extension", s("md"))])));
    assert!(validator.validate_contract("ext", &JsonValue::Null, "Makefile", None).unwrap().is_valid);
}

#[test]
fn re_registering_replaces_a_contract() {
    let mut validator = ContractValidator::new();
    validator
        .register_contract(contract("c", obj(vec![]), vec![rule(RuleType::FileSize, vec![("max_size", n("1"))], RuleSeverity::Error)]))
        .unwrap();
    validator.register_contract(contract("c", obj(vec![]), vec![])).unwrap();
    assert!(validator.validate_contract("c", &JsonValue::Null, "f", Some(5)).unwrap().is_valid);
}

#[test]
fn path_extensions() {
    assert_eq!(file_extension("a/b.tar.gz"), Some("gz".to_string()));
    assert_eq!(file_extension(".bashrc"), None);
    assert_eq!(file_extension("dir/"), None);
    assert_eq!(file_extension("a/b."), Some("".to_string()));
    assert_eq!(file_extension("x.rs/."), Some("rs".to_string()));
    assert_eq!(file_extension(".."), None);
}

#[test]
fn numbers_and_previews() {
    assert_eq!(as_u64(&n("18446744073709551615")), Some(u64::MAX));
    assert_eq!(as_u64(&n("18446744073709551616")), None);
    assert_eq!(as_u64(&n("1.5")), None);
    assert_eq!(as_u64(&s("5")), None);
    let long = "x".repeat(150);
    assert_eq!(content_preview(&long).len(), 100);
    assert_eq!(content_preview("short"), "short");
}

#[test]
fn validation_note_for_state() {
    let mut validator = ContractValidator::new();
    validator.register_contract(contract("c", obj(vec![]), vec![])).unwrap();
    let result = validator.validate_contract("c", &JsonValue::Null, "f", None).unwrap();
    let note = validator.create_validation_note(
        "src/a.rs",
        ValidationScope::File,
        &ContractState::VALIDATED,
        &TransitionEvent::ValidateContract,
        "abc",
        &result,
    );
    assert_eq!(note.scope, "File");
    assert_eq!(note.hash, "abc");
    assert!(note.validated);
    let keys: Vec<&str> = note.metadata.iter().map(|(k, _)| k.as_str()).collect();
    assert_eq!(keys, vec!["contract_type", "event", "schema_hash", "state", "validated_by"]);
    assert_eq!(note.metadata[1].1, s("ValidateContract"));
    assert_eq!(note.metadata[3].1, s("VALIDATED"));
}

#[test]
fn checked_validation_refuses_a_preview_inside_a_character() {
    let mut validator = ContractValidator::new();
    let pattern = rule(RuleType::Pattern, vec![("pattern", s("^a+$"))], RuleSeverity::Error);
    validator.register_contract(contract("text", obj(vec![]), vec![pattern])).unwrap();
    // 99 ASCII bytes then a two-byte character: byte 100 falls inside it.
    let cut = format!("{}é", "b".repeat(99));
    assert!(validator.validate_contract_checked("text", &s(&cut), "t.txt", None).is_none());
    let whole = "b".repeat(120);
    let result = validator.validate_contract_checked("text", &s(&whole), "t.txt", None).unwrap().unwrap();
    assert!(!result.is_valid);
    assert!(validator.validate_contract_checked("missing", &s(&cut), "t.txt", None).unwrap().is_err());
}

#[test]
fn preview_cut_is_checked_on_bytes() {
    assert!(preview_cut_ok("short"));
    assert!(!preview_cut_ok(&format!("{}é", "b".repeat(99))));
    assert!(preview_cut_ok(&format!("{}é", "b".repeat(98))));
}
