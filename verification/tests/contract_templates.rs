use hooksmith::contract_templates::{
    file_extension_template, file_mode_template, file_size_template, line_ending_template,
    ContractTemplateRegistry, TemplateError,
};
use hooksmith::json::JsonValue;

fn s(t: &str) -> JsonValue {
    JsonValue::Str(t.to_string())
}

#[test]
fn test_template_registry() {
    let mut registry = ContractTemplateRegistry::new();
    let template = file_mode_template();

    registry.register_template(template);
    assert_eq!(registry.list_templates().len(), 1);
    assert!(registry.get_template("file-mode").is_some());
}

#[test]
fn test_template_instantiation() {
    let mut registry = ContractTemplateRegistry::new();
    let template = file_mode_template();
    registry.register_template(template);

    let parameters = vec![
        ("pattern".to_string(), s("*.rs")),
        ("executable".to_string(), JsonValue::Bool(false)),
    ];

    let contracts = registry.instantiate_template("file-mode", parameters).unwrap();
    assert_eq!(contracts.len(), 1);
}

#[test]
fn test_template_validation() {
    let mut registry = ContractTemplateRegistry::new();
    let template = file_mode_template();
    registry.register_template(template);

    // Missing required parameter
    let parameters = Vec::new();
    let result = registry.instantiate_template("file-mode", parameters);
    assert!(result.is_err());
}

#[test]
fn instantiated_contract_name_carries_string_parameters() {
    let mut registry = ContractTemplateRegistry::new();
    registry.register_template(file_mode_template());
    let parameters = vec![
        ("pattern".to_string(), s("*.rs")),
        ("executable".to_string(), JsonValue::Bool(true)),
    ];
    let contracts = registry.instantiate_template("file-mode", parameters).unwrap();
    assert_eq!(contracts[0].name(), "file-mode-mode-validation-pattern=*.rs");
}

#[test]
fn unknown_template_is_reported() {
    let registry = ContractTemplateRegistry::new();
    let result = registry.instantiate_template("nope", Vec::new());
    assert_eq!(result, Err(TemplateError::TemplateNotFound("nope".to_string())));
    assert_eq!(result.unwrap_err().message(), "Template not found: nope");
}

#[test]
fn missing_parameter_is_named() {
    let mut registry = ContractTemplateRegistry::new();
    registry.register_template(file_mode_template());
    let result = registry.instantiate_template("file-mode", vec![("pattern".to_string(), s("*.rs"))]);
    assert_eq!(result, Err(TemplateError::MissingRequiredParameter("executable".to_string())));
}

#[test]
fn wrong_parameter_type_is_reported() {
    let mut registry = ContractTemplateRegistry::new();
    registry.register_template(file_mode_template());
    let parameters = vec![
        ("pattern".to_string(), s("*.rs")),
        ("executable".to_string(), s("yes")),
    ];
    let result = registry.instantiate_template("file-mode", parameters);
    assert_eq!(
        result,
        Err(TemplateError::InvalidParameterType("executable".to_string(), "Boolean".to_string()))
    );
    assert_eq!(
        result.unwrap_err().message(),
        "Invalid parameter type: expected Boolean, got executable"
    );
}

#[test]
fn registering_again_replaces_the_template() {
    let mut registry = ContractTemplateRegistry::new();
    registry.register_template(file_mode_template());
    registry.register_template(line_ending_template());
    registry.register_template(file_mode_template());
    assert_eq!(registry.list_templates().len(), 2);
    assert_eq!(registry.list_templates()[0], "file-mode");
    assert_eq!(registry.list_templates()[1], "line-ending");
}

#[test]
fn predefined_templates_have_their_names() {
    assert_eq!(file_size_template().name, "file-size");
    assert_eq!(file_extension_template().name, "file-extension");
    assert_eq!(file_extension_template().parameters.len(), 2);
    assert_eq!(line_ending_template().rules[0].name, "line-ending-validation");
}
