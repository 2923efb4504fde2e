//! Structured generation of the repository's documentation and WIT
//! interface files: each generation yields the files' paths, kinds and
//! contents, which the caller then writes under the output directory.

use vstd::prelude::*;
use crate::outside::{instant_now, elapsed_micros};

verus! {

/// The repository structure overview.
pub const STRUCTURE_MD: &'static str = "# Repository Structure\n\
\n\
This document shows the complete file structure of the repository.\n\
\n\
## 📁 File Structure\n\
\n\
```\n\
hooksmith/\n\
├── .editorconfig\n\
├── .github/workflows/ci.yml\n\
├── .gitignore\n\
├── Cargo.toml\n\
├── CHANGELOG.md\n\
├── CODEOWNERS\n\
├── CONTRIBUTING.md\n\
├── README.md\n\
├── components/\n\
│   ├── cli-core/\n\
│   └── worktree-runner/\n\
├── docs/\n\
├── src/\n\
├── tests/\n\
└── wit/\n\
```\n\
\n\
## 📊 File Count Summary\n\
\n\
- **Total Files**: Generated dynamically\n\
- **Rust Files**: Generated dynamically\n\
- **Configuration Files**: Generated dynamically\n\
- **Documentation**: Generated dynamically\n\
\n\
---\n\
\n\
*Generated using structured code generation*\n\
";

/// The documentation of the CLI core component.
pub const CLI_CORE_DOC: &'static str = "# CLI Core Component\n\
\n\
This component provides core CLI functionality for the Hooksmith project.\n\
\n\
## Features\n\
\n\
- Command parsing and execution\n\
- Error handling and reporting\n\
- Configuration management\n\
- Output formatting\n\
\n\
## Usage\n\
\n\
```rust\n\
use cli_core::CliCore;\n\
\n\
let core = CliCore::new();\n\
let result = core.execute_command(\"test\");\n\
```\n\
";

/// The documentation of the worktree runner component.
pub const WORKTREE_RUNNER_DOC: &'static str = "# Worktree Runner Component\n\
\n\
This WASM component provides worktree management functionality.\n\
\n\
## Features\n\
\n\
- Git worktree creation and management\n\
- Tool integration (wtp, wt, treekanga)\n\
- WASM-based execution\n\
- Cross-platform compatibility\n\
\n\
## Usage\n\
\n\
```rust\n\
use worktree_runner::WorktreeRunner;\n\
\n\
let runner = WorktreeRunner::new();\n\
let result = runner.create_worktree(\"feature/new-feature\").await;\n\
```\n\
";

/// The WIT package of the command-line interface.
pub const CLI_WIT: &'static str = "package hooksmith:cli;\n\
\n\
/// Configuration for hook building\n\
record hook-config {\n\
\x20 /// Name of the hook to build\n\
\x20 name: string,\n\
\x20 /// Source directory for the hook\n\
\x20 source-dir: string,\n\
\x20 /// Output directory for built binaries\n\
\x20 output-dir: string,\n\
\x20 /// Whether to include WASM components\n\
\x20 include-wasm: bool,\n\
\x20 /// WASM component paths to include\n\
\x20 wasm-components: list<string>,\n\
}\n\
\n\
/// Result of a hook building operation\n\
record build-result {\n\
\x20 /// Whether the build was successful\n\
\x20 success: bool,\n\
\x20 /// Output path of the built binary\n\
\x20 binary-path: option<string>,\n\
\x20 /// Error message if build failed\n\
\x20 error: option<string>,\n\
\x20 /// Build duration in milliseconds\n\
\x20 duration-ms: u64,\n\
}\n\
\n\
/// Hook metadata information\n\
record hook-info {\n\
\x20 /// Hook name\n\
\x20 name: string,\n\
\x20 /// Hook description\n\
\x20 description: string,\n\
\x20 /// Whether the hook is enabled\n\
\x20 enabled: bool,\n\
\x20 /// Hook file path\n\
\x20 path: string,\n\
\x20 /// Hook type (pre-commit, pre-push, etc.)\n\
\x20 hook-type: string,\n\
}\n\
\n\
/// Main CLI interface for Hooksmith\n\
interface hooksmith-cli {\n\
\x20 /// Build a hook from source\n\
\x20 build-hook: func(config: hook-config) -> result<build-result, string>;\n\
\x20 \n\
\x20 /// List all available hooks\n\
\x20 list-hooks: func() -> result<list<hook-info>, string>;\n\
\x20 \n\
\x20 /// Install hooks into Git repository\n\
\x20 install-hooks: func(hook-names: list<string>) -> result<unit, string>;\n\
\x20 \n\
\x20 /// Generate Lefthook configuration\n\
\x20 generate-config: func(output-path: string) -> result<unit, string>;\n\
\x20 \n\
\x20 /// Validate hook configuration\n\
\x20 validate-config: func(config: hook-config) -> result<unit, string>;\n\
}\n\
\n\
/// Export the main CLI interface\n\
export hooksmith-cli;\n\
";

/// The WIT package of the worktree runner.
pub const WORKTREE_WIT: &'static str = "package hooksmith:worktree-runner;\n\
\n\
/// Configuration for worktree tools\n\
record tool-config {\n\
\x20 /// Preferred tool to use (wtp, wt, treekanga, git)\n\
\x20 preferred-tool: option<string>,\n\
\x20 /// Base directory for worktrees\n\
\x20 worktree-base: option<string>,\n\
\x20 /// Whether to run setup commands after creation\n\
\x20 run-setup: bool,\n\
\x20 /// Setup commands to run (e.g., [\"npm install\", \"cargo build\"])\n\
\x20 setup-commands: list<string>,\n\
\x20 /// Whether to copy environment files\n\
\x20 copy-env: bool,\n\
\x20 /// Environment files to copy (e.g., [\".env\", \".env.local\"])\n\
\x20 env-files: list<string>,\n\
}\n\
\n\
/// Result of a worktree operation\n\
record worktree-result {\n\
\x20 /// Whether the operation was successful\n\
\x20 success: bool,\n\
\x20 /// Output from the command\n\
\x20 output: string,\n\
\x20 /// Error message if failed\n\
\x20 error: option<string>,\n\
\x20 /// Worktree path if created\n\
\x20 worktree-path: option<string>,\n\
\x20 /// Branch name if created\n\
\x20 branch-name: option<string>,\n\
}\n\
\n\
/// Available worktree tools\n\
enum worktree-tool {\n\
\x20 wtp,\n\
\x20 wt,\n\
\x20 treekanga,\n\
\x20 git,\n\
}\n\
\n\
/// Main worktree runner interface\n\
interface worktree-runner {\n\
\x20 /// Create a new worktree runner with default configuration\n\
\x20 constructor: func() -> worktree-runner;\n\
\x20 \n\
\x20 /// Create a new worktree runner with custom configuration\n\
\x20 with-config: func(config: tool-config) -> result<worktree-runner, string>;\n\
\x20 \n\
\x20 /// Get available worktree tools\n\
\x20 get-available-tools: func() -> result<list<worktree-tool>, string>;\n\
\x20 \n\
\x20 /// Create a new worktree\n\
\x20 create-worktree: func(branch-name: string) -> result<worktree-result, string>;\n\
\x20 \n\
\x20 /// List all worktrees\n\
\x20 list-worktrees: func() -> result<worktree-result, string>;\n\
\x20 \n\
\x20 /// Switch to a worktree\n\
\x20 switch-worktree: func(worktree-name: string) -> result<worktree-result, string>;\n\
\x20 \n\
\x20 /// Remove a worktree\n\
\x20 remove-worktree: func(worktree-name: string, with-branch: bool) -> result<worktree-result, string>;\n\
\x20 \n\
\x20 /// Update configuration\n\
\x20 update-config: func(config: tool-config) -> result<unit, string>;\n\
}\n\
\n\
/// Export the worktree runner interface\n\
export worktree-runner;\n\
";

/// The help output of the command-line interface.
pub const CLI_HELP_MD: &'static str = "# CLI Help Documentation\n\
\n\
This document contains the help output for all CLI commands.\n\
\n\
## Main Help\n\
\n\
```\n\
Main CLI application for Hooksmith\n\
\n\
Usage: hooksmith <COMMAND>\n\
\n\
Commands:\n\
\x20 test      Test command to verify CLI functionality\n\
\x20 build     Build Rust binaries for Git hooks\n\
\x20 generate  Generate Lefthook configuration\n\
\x20 install   Install hooks into Git repository\n\
\x20 list      List available hooks\n\
\x20 wasm      WASM component management\n\
\x20 worktree  Worktree management\n\
```\n\
\n\
## Command Help\n\
\n\
### Test Command\n\
\n\
```\n\
Test command to verify CLI functionality\n\
\n\
Usage: hooksmith test [OPTIONS]\n\
\n\
Options:\n\
\x20 -m, --message <MESSAGE>  Custom test message\n\
\x20 -h, --help              Print help\n\
```\n\
\n\
### Worktree Commands\n\
\n\
```\n\
Worktree management\n\
\n\
Usage: hooksmith worktree <COMMAND>\n\
\n\
Commands:\n\
\x20 create  Create a new worktree\n\
\x20 list    List all worktrees\n\
\x20 switch  Switch to a worktree\n\
\x20 remove  Remove a worktree\n\
\x20 tools   Show available tools\n\
```\n\
";

/// The development guide.
pub const DEVELOPMENT_MD: &'static str = "# Development Guide\n\
\n\
This guide provides information for developers working on Hooksmith.\n\
\n\
## Prerequisites\n\
\n\
- Rust (latest stable)\n\
- Git\n\
- Lefthook (for pre-commit hooks)\n\
\n\
## Development Workflow\n\
\n\
### 1. Build the Project\n\
```bash\n\
cargo build\n\
```\n\
\n\
### 2. Run Tests\n\
```bash\n\
cargo test --all-targets --all-features\n\
```\n\
\n\
### 3. Generate Documentation\n\
```bash\n\
cargo doc --no-deps --open\n\
```\n\
\n\
### 4. Run CLI Commands\n\
```bash\n\
cargo run -- test\n\
cargo run -- --help\n\
```\n\
\n\
## Project Structure\n\
\n\
- `src/main.rs`: Main CLI application\n\
- `src/lib.rs`: Library exports\n\
- `components/`: WASM components\n\
- `tests/`: Test files\n\
- `wit/`: WIT interface definitions\n\
\n\
## Code Style\n\
\n\
This project uses structured code generation and WIT schemas:\n\
- No shell scripts or raw echo statements\n\
- All code generation uses structured WIT schemas\n\
- Rust-based generation with proper error handling\n\
- Type-safe configuration and templates\n\
\n\
## Documentation\n\
\n\
- API docs: `cargo doc --no-deps --open`\n\
- CLI help: `cargo run -- --help`\n\
- Project docs: `docs/` directory\n\
";

/// The test suite summary.
pub const TEST_SUMMARY_MD: &'static str = "# Test Summary\n\
\n\
This document contains information about the test suite.\n\
\n\
## Test Results\n\
\n\
```\n\
running 18 tests\n\
test result: ok. 18 passed; 0 failed; 0 ignored; 0 measured; 0 filtered out\n\
```\n\
\n\
## Test Files\n\
\n\
- `tests/integration.rs`: Integration tests for CLI functionality\n\
- `tests/hooks_test.rs`: Unit tests for hook functionality\n\
\n\
## Running Tests\n\
\n\
```bash\n\
# Run all tests\n\
cargo test --all-targets --all-features\n\
\n\
# Run specific test file\n\
cargo test --test integration\n\
\n\
# Run specific test\n\
cargo test test_worktree_create_command\n\
```\n\
\n\
## Test Coverage\n\
\n\
- **Integration Tests**: 16 tests covering CLI commands\n\
- **Unit Tests**: 2 tests for core functionality\n\
- **WASM Tests**: Component-specific tests\n\
- **Documentation Tests**: API documentation validation\n\
";

/// Code generation configuration.
#[derive(Debug, Clone)]
pub struct GeneratorConfig {
    /// Output directory for generated files
    pub output_dir: String,
    /// Template directory for code generation
    pub template_dir: Option<String>,
    /// Variables to substitute in templates, in key order
    pub variables: Vec<(String, String)>,
    /// File patterns to process
    pub patterns: Vec<String>,
    /// Whether to overwrite existing files
    pub overwrite: bool,
}

impl Default for GeneratorConfig {
    /// Files go to `generated`, with no template directory or variables,
    /// for Rust and Markdown files, without overwriting.
    fn default() -> (r: Self)
        ensures
            r.output_dir@ == "generated"@,
            r.template_dir is None,
            r.variables@.len() == 0,
            r.patterns@.len() == 2,
            r.patterns@[0]@ == "*.rs"@,
            r.patterns@[1]@ == "*.md"@,
            !r.overwrite,
    {
        let mut patterns: Vec<String> = Vec::new();
        patterns.push("*.rs".to_owned());
        patterns.push("*.md".to_owned());
        GeneratorConfig {
            output_dir: "generated".to_owned(),
            template_dir: None,
            variables: Vec::new(),
            patterns,
            overwrite: false,
        }
    }
}

/// A generated file.
#[derive(Debug, Clone)]
pub struct GeneratedFile {
    /// File path relative to output directory
    pub path: String,
    /// File content
    pub content: String,
    /// File type/extension
    pub file_type: String,
    /// Whether the file was overwritten
    pub overwritten: bool,
}

/// A generated file as plain values: path, content and kind.
pub open spec fn file_view(f: GeneratedFile) -> (Seq<char>, Seq<char>, Seq<char>) {
    (f.path@, f.content@, f.file_type@)
}

/// Generated files as plain values, in order.
pub open spec fn files_view(fs: Seq<GeneratedFile>) -> Seq<(Seq<char>, Seq<char>, Seq<char>)> {
    fs.map_values(|f: GeneratedFile| file_view(f))
}

/// The result of a generation.
#[derive(Debug, Clone)]
pub struct GenerationResult {
    /// Whether generation was successful
    pub success: bool,
    /// List of generated files
    pub files: Vec<GeneratedFile>,
    /// Error message if failed
    pub error: Option<String>,
    /// Generation duration in milliseconds
    pub duration_ms: u64,
}

/// A template configuration.
#[derive(Debug, Clone)]
pub struct TemplateConfig {
    /// Template name
    pub name: String,
    /// Template source (file path or inline content)
    pub source: String,
    /// Template variables, in key order
    pub variables: Vec<(String, String)>,
    /// Output path pattern
    pub output_pattern: String,
}

/// The templates by name, in the order they were first added.
pub open spec fn template_entries(v: Seq<(String, TemplateConfig)>) -> Seq<(Seq<char>, TemplateConfig)> {
    v.map_values(|e: (String, TemplateConfig)| (e.0@, e.1))
}

/// A successful generation of `files` (each written afresh): a result that
/// holds them in order, with no error.
pub open spec fn generated(r: GenerationResult, files: Seq<(Seq<char>, Seq<char>, Seq<char>)>) -> bool {
    &&& r.success
    &&& r.error is None
    &&& files_view(r.files@) == files
    &&& forall|i: int| 0 <= i < r.files@.len() ==> (#[trigger] r.files@[i]).overwritten
}

/// The structure documentation: the repository overview, then a page per
/// component.
pub open spec fn structure_docs() -> Seq<(Seq<char>, Seq<char>, Seq<char>)> {
    seq![
        ("STRUCTURE.md"@, STRUCTURE_MD@, "markdown"@),
        ("docs/CLI_CORE.md"@, CLI_CORE_DOC@, "markdown"@),
        ("docs/WORKTREE_RUNNER.md"@, WORKTREE_RUNNER_DOC@, "markdown"@),
    ]
}

/// The WIT interfaces: the command-line package and the worktree runner's.
pub open spec fn wit_interfaces() -> Seq<(Seq<char>, Seq<char>, Seq<char>)> {
    seq![
        ("wit/hooksmith.wit"@, CLI_WIT@, "wit"@),
        ("components/worktree-runner/wit/worktree-runner.wit"@, WORKTREE_WIT@, "wit"@),
    ]
}

/// The documentation pages: CLI help, development guide, test summary.
pub open spec fn documentation() -> Seq<(Seq<char>, Seq<char>, Seq<char>)> {
    seq![
        ("docs/CLI_HELP.md"@, CLI_HELP_MD@, "markdown"@),
        ("docs/DEVELOPMENT.md"@, DEVELOPMENT_MD@, "markdown"@),
        ("docs/TEST_SUMMARY.md"@, TEST_SUMMARY_MD@, "markdown"@),
    ]
}

/// A file written afresh.
fn new_file(path: &str, content: &str, file_type: &str) -> (r: GeneratedFile)
    ensures
        file_view(r) == (path@, content@, file_type@),
        r.overwritten,
{
    GeneratedFile {
        path: path.to_owned(),
        content: content.to_owned(),
        file_type: file_type.to_owned(),
        overwritten: true,
    }
}

/// A successful result with `files`, timed from `start`.
fn finished(files: Vec<GeneratedFile>, start: &std::time::Instant) -> (r: GenerationResult)
    ensures
        r.success,
        r.error is None,
        r.files@ == files@,
{
    let duration_ms = elapsed_micros(start) / 1000;
    GenerationResult { success: true, files, error: None, duration_ms }
}

/// Structured code generator.
pub struct CodeGenerator {
    config: GeneratorConfig,
    templates: Vec<(String, TemplateConfig)>,
}

impl CodeGenerator {
    /// The templates of the generator, by name.
    pub closed spec fn templates(&self) -> Seq<(Seq<char>, TemplateConfig)> {
        template_entries(self.templates@)
    }

    /// The generator's configuration, as a value.
    pub closed spec fn config_spec(&self) -> GeneratorConfig {
        self.config
    }

    /// A generator with the default configuration and no templates.
    pub fn new() -> (r: Self)
        ensures
            r.config_spec().output_dir@ == "generated"@,
            r.config_spec().template_dir is None,
            r.config_spec().variables@.len() == 0,
            r.config_spec().patterns@.len() == 2,
            r.config_spec().patterns@[0]@ == "*.rs"@,
            r.config_spec().patterns@[1]@ == "*.md"@,
            !r.config_spec().overwrite,
            r.templates().len() == 0,
    {
        let r = CodeGenerator { config: GeneratorConfig::default(), templates: Vec::new() };
        assert(template_entries(r.templates@) =~= Seq::<(Seq<char>, TemplateConfig)>::empty());
        r
    }

    /// A generator with the given configuration and no templates.
    pub fn with_config(config: GeneratorConfig) -> (r: Self)
        ensures
            r.config_spec() == config,
            r.templates().len() == 0,
    {
        let r = CodeGenerator { config, templates: Vec::new() };
        assert(template_entries(r.templates@) =~= Seq::<(Seq<char>, TemplateConfig)>::empty());
        r
    }

    /// The generator's configuration.
    pub fn config(&self) -> (r: &GeneratorConfig)
        ensures
            *r == self.config_spec(),
    {
        &self.config
    }

    /// Add a template under its name, replacing one of the same name.
    pub fn add_template(&mut self, template: TemplateConfig)
        ensures
            final(self).config_spec() == old(self).config_spec(),
            final(self).templates() == crate::sarif_roles::upsert(old(self).templates(), template.name@, template),
    {
        let ghost before = template_entries(self.templates@);
        let ghost t = template;
        let mut i: usize = 0;
        while i < self.templates.len()
            invariant
                i <= self.templates@.len(),
                template_entries(self.templates@) == before,
                crate::sarif_roles::first_key_index(before.subrange(0, i as int), template.name@) is None,
                t == template,
                self.config == old(self).config,
                before == old(self).templates(),
            decreases self.templates@.len() - i,
        {
            assert(before.subrange(0, i + 1).drop_last() =~= before.subrange(0, i as int));
            if crate::text::str_eq(self.templates[i].0.as_str(), template.name.as_str()) {
                proof {
                    assert(before[i as int].0 == template.name@);
                    assert(crate::sarif_roles::first_key_index(before.subrange(0, i + 1), template.name@) == Some(i as int));
                    crate::sarif_roles::lemma_first_key_prefix(before, template.name@, i + 1);
                }
                let name = crate::sarif::copy_string(&template.name);
                let mut templates = Vec::new();
                std::mem::swap(&mut templates, &mut self.templates);
                templates.set(i, (name, template));
                self.templates = templates;
                assert(template_entries(self.templates@) =~= before.update(i as int, (t.name@, t)));
                return;
            }
            i = i + 1;
        }
        assert(before.subrange(0, before.len() as int) =~= before);
        let name = crate::sarif::copy_string(&template.name);
        self.templates.push((name, template));
        assert(template_entries(self.templates@) =~= before.push((t.name@, t)));
    }

    /// Generate the repository structure documentation.
    pub fn generate_structure_docs(&self) -> (r: Result<GenerationResult, String>)
        ensures
            r matches Ok(res) && generated(res, structure_docs()),
    {
        let start = instant_now();
        let mut files: Vec<GeneratedFile> = Vec::new();
        files.push(new_file("STRUCTURE.md", STRUCTURE_MD, "markdown"));
        files.push(new_file("docs/CLI_CORE.md", CLI_CORE_DOC, "markdown"));
        files.push(new_file("docs/WORKTREE_RUNNER.md", WORKTREE_RUNNER_DOC, "markdown"));
        let r = finished(files, &start);
        assert(files_view(r.files@) =~= structure_docs());
        Ok(r)
    }

    /// Generate the WIT interface definitions.
    pub fn generate_wit_interfaces(&self) -> (r: Result<GenerationResult, String>)
        ensures
            r matches Ok(res) && generated(res, wit_interfaces()),
    {
        let start = instant_now();
        let mut files: Vec<GeneratedFile> = Vec::new();
        files.push(new_file("wit/hooksmith.wit", CLI_WIT, "wit"));
        files.push(new_file("components/worktree-runner/wit/worktree-runner.wit", WORKTREE_WIT, "wit"));
        let r = finished(files, &start);
        assert(files_view(r.files@) =~= wit_interfaces());
        Ok(r)
    }

    /// Generate the documentation files.
    pub fn generate_documentation(&self) -> (r: Result<GenerationResult, String>)
        ensures
            r matches Ok(res) && generated(res, documentation()),
    {
        let start = instant_now();
        let mut files: Vec<GeneratedFile> = Vec::new();
        files.push(new_file("docs/CLI_HELP.md", CLI_HELP_MD, "markdown"));
        files.push(new_file("docs/DEVELOPMENT.md", DEVELOPMENT_MD, "markdown"));
        files.push(new_file("docs/TEST_SUMMARY.md", TEST_SUMMARY_MD, "markdown"));
        let r = finished(files, &start);
        assert(files_view(r.files@) =~= documentation());
        Ok(r)
    }

    /// Where each generated file goes: the output directory joined with the
    /// file's path.
    pub fn output_paths(&self, result: &GenerationResult) -> (r: Vec<String>)
        ensures
            r@.len() == result.files@.len(),
            forall|i: int|
                0 <= i < r@.len() ==> (#[trigger] r@[i])@ == self.config_spec().output_dir@ + "/"@ + result.files@[i].path@,
    {
        let mut r: Vec<String> = Vec::new();
        let mut i: usize = 0;
        while i < result.files.len()
            invariant
                i <= result.files@.len(),
                r@.len() == i,
                forall|j: int|
                    0 <= j < i ==> (#[trigger] r@[j])@ == self.config_spec().output_dir@ + "/"@ + result.files@[j].path@,
            decreases result.files@.len() - i,
        {
            let mut p = self.config.output_dir.clone();
            p.append("/");
            p.append(result.files[i].path.as_str());
            r.push(p);
            i = i + 1;
        }
        r
    }
}

impl Default for CodeGenerator {
    /// The generator of `new`.
    fn default() -> (r: Self)
        ensures
            r.config_spec().output_dir@ == "generated"@,
            r.templates().len() == 0,
    {
        Self::new()
    }
}

} // verus!
