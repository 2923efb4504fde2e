use hooksmith::generator::{CodeGenerator, GeneratorConfig, TemplateConfig, CLI_WIT, STRUCTURE_MD, WORKTREE_WIT};

#[test]
fn test_generator_creation() {
    let generator = CodeGenerator::new();
    assert_eq!(generator.config().output_dir, "generated");
}

#[test]
fn test_structure_generation() {
    let generator = CodeGenerator::new();
    let result = generator.generate_structure_docs().unwrap();

    assert!(result.success);
    assert!(!result.files.is_empty());
}

#[test]
fn test_wit_generation() {
    let generator = CodeGenerator::new();
    let result = generator.generate_wit_interfaces().unwrap();

    assert!(result.success);
    assert_eq!(result.files.len(), 2); // CLI and worktree interfaces
}

#[test]
fn structure_docs_paths_and_contents() {
    let result = CodeGenerator::new().generate_structure_docs().unwrap();
    let paths: Vec<&str> = result.files.iter().map(|f| f.path.as_str()).collect();
    assert_eq!(paths, vec!["STRUCTURE.md", "docs/CLI_CORE.md", "docs/WORKTREE_RUNNER.md"]);
    assert_eq!(result.files[0].content, STRUCTURE_MD);
    assert!(result.files[0].content.starts_with("# Repository Structure\n\n"));
    assert!(result.files[0].content.contains("├── Cargo.toml\n"));
    assert!(result.files.iter().all(|f| f.file_type == "markdown" && f.overwritten));
    assert!(result.error.is_none());
}

#[test]
fn wit_interfaces_contents() {
    let result = CodeGenerator::new().generate_wit_interfaces().unwrap();
    assert_eq!(result.files[0].path, "wit/hooksmith.wit");
    assert_eq!(result.files[0].content, CLI_WIT);
    assert!(CLI_WIT.starts_with("package hooksmith:cli;\n"));
    assert_eq!(result.files[1].path, "components/worktree-runner/wit/worktree-runner.wit");
    assert_eq!(result.files[1].content, WORKTREE_WIT);
    assert!(WORKTREE_WIT.contains("  remove-worktree: func(worktree-name: string, with-branch: bool) -> result<worktree-result, string>;\n"));
}

#[test]
fn documentation_files() {
    let result = CodeGenerator::new().generate_documentation().unwrap();
    let paths: Vec<&str> = result.files.iter().map(|f| f.path.as_str()).collect();
    assert_eq!(paths, vec!["docs/CLI_HELP.md", "docs/DEVELOPMENT.md", "docs/TEST_SUMMARY.md"]);
    assert!(result.files[0].content.contains("  -h, --help              Print help\n"));
    assert!(result.files[2].content.contains("running 18 tests"));
}

#[test]
fn output_paths_join_output_dir() {
    let mut config = GeneratorConfig::default();
    config.output_dir = "/tmp/out".to_string();
    let generator = CodeGenerator::with_config(config);
    let result = generator.generate_wit_interfaces().unwrap();
    assert_eq!(
        generator.output_paths(&result),
        vec!["/tmp/out/wit/hooksmith.wit".to_string(), "/tmp/out/components/worktree-runner/wit/worktree-runner.wit".to_string()]
    );
}

#[test]
fn default_config_patterns() {
    let config = GeneratorConfig::default();
    assert_eq!(config.patterns, vec!["*.rs".to_string(), "*.md".to_string()]);
    assert!(!config.overwrite);
    assert!(config.template_dir.is_none());
}

#[test]
fn add_template_keeps_one_per_name() {
    let mut generator = CodeGenerator::new();
    let t = |src: &str| TemplateConfig {
        name: "readme".to_string(),
        source: src.to_string(),
        variables: vec![],
        output_pattern: "README.md".to_string(),
    };
    generator.add_template(t("a"));
    generator.add_template(t("b"));
    assert_eq!(generator.config().output_dir, "generated");
}
