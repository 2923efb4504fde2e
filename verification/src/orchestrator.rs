//! The orchestrator: loaded components, the command router and the
//! configuration, and the operations that go through the standard
//! components.

use vstd::prelude::*;
use crate::components::{mock_return, opt_text, ComponentHandle};
use crate::named_map::{entry_names, lookup, NamedMap};
use crate::orchestrator_config::OrchestratorConfig;
use crate::outside::utc_now_rfc3339;
use crate::router::{handler_view, CommandRouter};
use crate::runtime::WasmCallResult;
use crate::sarif::texts;
use crate::sarif_roles::upsert;

verus! {

/// A command result as plain values: success, output, error, duration.
pub type CommandView = (bool, Seq<char>, Option<Seq<char>>, u64);

/// Result of a command execution.
#[derive(Debug, Clone, PartialEq, Eq)]
pub struct CommandResult {
    /// Whether the command was successful
    pub success: bool,
    /// Output from the command
    pub output: String,
    /// Error message if failed
    pub error: Option<String>,
    /// Execution time in milliseconds
    pub duration_ms: u64,
}

/// A command result's plain values.
pub open spec fn result_view(r: CommandResult) -> CommandView {
    (r.success, r.output@, opt_text(r.error), r.duration_ms)
}

/// Metadata about a build operation.
#[derive(Debug, Clone)]
pub struct BuildMetadata {
    /// Rust version used for the build
    pub rust_version: String,
    /// Cargo version used for the build
    pub cargo_version: String,
    /// Target triple used for the build
    pub target_triple: String,
    /// Build timestamp
    pub timestamp: String,
    /// Build hash for caching
    pub build_hash: String,
}

/// Configuration for building a hook.
#[derive(Debug, Clone)]
pub struct BuildConfig {
    /// Source path for the hook
    pub source_path: String,
    /// Output path for the built binary
    pub output_path: String,
    /// Target triple for compilation
    pub target_triple: Option<String>,
    /// Optimization level (0-3)
    pub optimization_level: u8,
    /// Whether to include debug symbols
    pub debug_symbols: bool,
}

/// Result of a hook build operation.
#[derive(Debug, Clone)]
pub struct BuildResult {
    /// Whether the build was successful
    pub success: bool,
    /// Path to the built binary
    pub binary_path: Option<String>,
    /// Build artifacts
    pub artifacts: Vec<String>,
    /// Build logs
    pub build_logs: String,
    /// Error message if failed
    pub error: Option<String>,
    /// Build duration in milliseconds
    pub duration_ms: u64,
    /// Binary size in bytes
    pub binary_size: Option<u64>,
    /// Build metadata
    pub metadata: BuildMetadata,
}

/// Hook configuration for Lefthook.
#[derive(Debug, Clone)]
pub struct HookConfig {
    /// Hook name
    pub name: String,
    /// Hook type (pre-commit, pre-push, etc.)
    pub hook_type: String,
    /// Command to execute
    pub command: String,
    /// Whether the hook is enabled
    pub enabled: bool,
}

/// Configuration for Lefthook generation.
#[derive(Debug, Clone)]
pub struct LefthookConfig {
    /// Output path for the configuration file
    pub output_path: String,
    /// Hook configurations to include
    pub hooks: Vec<HookConfig>,
    /// Whether to validate against schema
    pub validate_schema: bool,
}

/// Result of Lefthook configuration generation.
#[derive(Debug, Clone)]
pub struct LefthookResult {
    /// Whether generation was successful
    pub success: bool,
    /// Generated configuration content
    pub config_content: Option<String>,
    /// Output file path
    pub output_path: Option<String>,
    /// Error message if failed
    pub error: Option<String>,
}

/// Worktree operation to perform.
#[derive(Debug, Clone)]
pub enum WorktreeOperation {
    /// Create a new worktree
    Create {
        /// Branch name for the new worktree
        branch_name: String,
        /// Base path for the worktree
        base_path: Option<String>,
        /// Tool to use for creation
        tool: Option<String>,
    },
    /// List all worktrees
    List {
        /// Tool to use for listing
        tool: Option<String>,
    },
    /// Switch to a worktree
    Switch {
        /// Name of the worktree to switch to
        worktree_name: String,
        /// Tool to use for switching
        tool: Option<String>,
    },
    /// Remove a worktree
    Remove {
        /// Name of the worktree to remove
        worktree_name: String,
        /// Whether to also remove the branch
        with_branch: bool,
        /// Tool to use for removal
        tool: Option<String>,
    },
}

/// Result of a worktree operation.
#[derive(Debug, Clone)]
pub struct WorktreeResult {
    /// Whether the operation was successful
    pub success: bool,
    /// Output from the operation
    pub output: String,
    /// Error message if failed
    pub error: Option<String>,
    /// Worktree path if created
    pub worktree_path: Option<String>,
    /// Branch name if created
    pub branch_name: Option<String>,
}

/// Type of validation to perform.
#[derive(Debug, Clone, Copy, PartialEq, Eq, Structural)]
pub enum ValidationType {
    /// Validate Lefthook configuration
    LefthookConfig,
    /// Validate hook configuration
    HookConfig,
    /// Validate WIT interface
    WitInterface,
    /// Validate build configuration
    BuildConfig,
}

/// Configuration for validation.
#[derive(Debug, Clone)]
pub struct ValidationConfig {
    /// Type of validation to perform
    pub validation_type: ValidationType,
    /// Data to validate
    pub data: String,
    /// Schema to validate against (if applicable)
    pub schema: Option<String>,
}

/// Result of validation.
#[derive(Debug, Clone)]
pub struct ValidationResult {
    /// Whether validation was successful
    pub success: bool,
    /// Validation errors
    pub errors: Vec<String>,
    /// Validation warnings
    pub warnings: Vec<String>,
    /// Validation details
    pub details: Option<String>,
}

/// The message for a component that is not loaded.
pub open spec fn not_loaded(name: Seq<char>) -> Seq<char> {
    "Component '"@ + name + "' not loaded"@
}

/// The orchestrator: components loaded by name, the command router and
/// the configuration.
pub struct HooksmithOrchestrator {
    router: CommandRouter,
    config: OrchestratorConfig,
    components: NamedMap<ComponentHandle>,
}

impl HooksmithOrchestrator {
    /// The loaded components, by name.
    pub closed spec fn loaded(&self) -> Seq<(Seq<char>, ComponentHandle)> {
        self.components.entries()
    }

    /// The configuration.
    pub closed spec fn cfg(&self) -> OrchestratorConfig {
        self.config
    }

    /// The router.
    pub closed spec fn commands(&self) -> CommandRouter {
        self.router
    }

    /// An orchestrator with the default configuration and no components.
    pub fn new() -> (r: Self)
        ensures
            r.loaded().len() == 0,
            r.cfg().components.entries().len() == 0,
            r.commands().handlers() == crate::router::default_handlers(),
    {
        HooksmithOrchestrator { router: CommandRouter::new(), config: OrchestratorConfig::default(), components: NamedMap::new() }
    }

    /// An orchestrator with a configuration and no components.
    pub fn with_config(config: OrchestratorConfig) -> (r: Self)
        ensures
            r.loaded().len() == 0,
            r.cfg() == config,
            r.commands().handlers() == crate::router::default_handlers(),
    {
        HooksmithOrchestrator { router: CommandRouter::new(), config, components: NamedMap::new() }
    }

    /// Keep a component that the runtime loaded, under a name.
    pub fn load_component(&mut self, name: &str, handle: ComponentHandle)
        ensures
            final(self).loaded() == upsert(old(self).loaded(), name@, handle),
            final(self).cfg() == old(self).cfg(),
            final(self).commands() == old(self).commands(),
    {
        self.components.insert(name.to_owned(), handle);
    }

    /// The component of a name.
    pub fn get_component(&self, name: &str) -> (r: Result<&ComponentHandle, String>)
        ensures
            match lookup(self.loaded(), name@) {
                Some(c) => r == Ok::<&ComponentHandle, String>(&c),
                None => r matches Err(e) && e@ == not_loaded(name@),
            },
    {
        match self.components.get(name) {
            Some(c) => Ok(c),
            None => {
                let mut e = "Component '".to_owned();
                e.append(name);
                e.append("' not loaded");
                Err(e)
            },
        }
    }

    /// Execute a command through the router with the loaded components.
    pub fn execute_command(&self, command: &str, args: Vec<String>) -> (r: Result<CommandResult, String>)
        ensures
            match lookup(self.commands().handlers(), command@) {
                None => r matches Err(e) && e@ == "Unknown command: "@ + command@,
                Some(kind) => r matches Ok(c) && {
                    let v = handler_view(kind, texts(args@), self.loaded());
                    &&& c.success == v.0
                    &&& c.output@ == v.1
                    &&& opt_text(c.error) == v.2
                },
            },
    {
        self.router.execute(command, args, &self.components)
    }

    /// Call a function of a loaded component.
    fn call_component(&self, component: &str, function: &str) -> (r: Result<WasmCallResult, String>)
        ensures
            match lookup(self.loaded(), component@) {
                Some(c) => r matches Ok(res) && res.success && opt_text(res.return_value) == Some(
                    mock_return(c.name_text(), function@),
                ) && res.error is None && res.duration_ms == 0,
                None => r matches Err(e) && e@ == not_loaded(component@),
            },
    {
        let handle = match self.get_component(component) {
            Ok(h) => h,
            Err(e) => {
                return Err(e);
            },
        };
        handle.call(function)
    }

    /// Build a hook through the hook-builder component.
    pub fn build_hook(&self, config: BuildConfig) -> (r: Result<BuildResult, String>)
        ensures
            match lookup(self.loaded(), "hook-builder"@) {
                Some(c) => r matches Ok(b) && b.success && b.binary_path is None && b.artifacts@.len() == 0
                    && b.build_logs@ == mock_return(c.name_text(), "build-hook"@) && b.error is None && b.duration_ms == 0
                    && b.binary_size is None && b.metadata.rust_version@ == "unknown"@ && b.metadata.cargo_version@
                    == "unknown"@ && b.metadata.target_triple@ == "unknown"@ && b.metadata.build_hash@ == "unknown"@,
                None => r matches Err(e) && e@ == not_loaded("hook-builder"@),
            },
    {
        let result = match self.call_component("hook-builder", "build-hook") {
            Ok(r) => r,
            Err(e) => {
                return Err(e);
            },
        };
        let build_logs = match result.return_value {
            Some(v) => v,
            None => String::new(),
        };
        Ok(BuildResult {
            success: result.success,
            binary_path: None,
            artifacts: Vec::new(),
            build_logs,
            error: result.error,
            duration_ms: result.duration_ms,
            binary_size: None,
            metadata: BuildMetadata {
                rust_version: "unknown".to_owned(),
                cargo_version: "unknown".to_owned(),
                target_triple: "unknown".to_owned(),
                timestamp: utc_now_rfc3339(),
                build_hash: "unknown".to_owned(),
            },
        })
    }

    /// Generate a Lefthook configuration through the lefthook-generator
    /// component.
    pub fn generate_lefthook_config(&self, config: LefthookConfig) -> (r: Result<LefthookResult, String>)
        ensures
            match lookup(self.loaded(), "lefthook-generator"@) {
                Some(c) => r matches Ok(l) && l.success && opt_text(l.config_content) == Some(
                    mock_return(c.name_text(), "generate-config"@),
                ) && l.output_path is None && l.error is None,
                None => r matches Err(e) && e@ == not_loaded("lefthook-generator"@),
            },
    {
        let result = match self.call_component("lefthook-generator", "generate-config") {
            Ok(r) => r,
            Err(e) => {
                return Err(e);
            },
        };
        Ok(LefthookResult { success: result.success, config_content: result.return_value, output_path: None, error: result.error })
    }

    /// Manage worktrees through the worktree-manager component.
    pub fn manage_worktree(&self, operation: WorktreeOperation) -> (r: Result<WorktreeResult, String>)
        ensures
            match lookup(self.loaded(), "worktree-manager"@) {
                Some(c) => r matches Ok(w) && w.success && w.output@ == mock_return(c.name_text(), "execute-operation"@)
                    && w.error is None && w.worktree_path is None && w.branch_name is None,
                None => r matches Err(e) && e@ == not_loaded("worktree-manager"@),
            },
    {
        let result = match self.call_component("worktree-manager", "execute-operation") {
            Ok(r) => r,
            Err(e) => {
                return Err(e);
            },
        };
        let output = match result.return_value {
            Some(v) => v,
            None => String::new(),
        };
        Ok(WorktreeResult { success: result.success, output, error: result.error, worktree_path: None, branch_name: None })
    }

    /// Validate through the validation component.
    pub fn validate_config(&self, config: ValidationConfig) -> (r: Result<ValidationResult, String>)
        ensures
            match lookup(self.loaded(), "validation"@) {
                Some(c) => r matches Ok(v) && v.success && v.errors@.len() == 0 && v.warnings@.len() == 0 && opt_text(v.details)
                    == Some(mock_return(c.name_text(), "validate"@)),
                None => r matches Err(e) && e@ == not_loaded("validation"@),
            },
    {
        let result = match self.call_component("validation", "validate") {
            Ok(r) => r,
            Err(e) => {
                return Err(e);
            },
        };
        Ok(ValidationResult { success: result.success, errors: Vec::new(), warnings: Vec::new(), details: result.return_value })
    }

    /// The configuration.
    pub fn config(&self) -> (r: &OrchestratorConfig)
        ensures
            *r == self.cfg(),
    {
        &self.config
    }

    /// Replace the configuration.
    pub fn update_config(&mut self, config: OrchestratorConfig) -> (r: Result<(), String>)
        ensures
            r is Ok,
            final(self).cfg() == config,
            final(self).loaded() == old(self).loaded(),
            final(self).commands() == old(self).commands(),
    {
        self.config = config;
        Ok(())
    }

    /// The names of the loaded components, in order.
    pub fn list_components(&self) -> (r: Vec<String>)
        ensures
            texts(r@) == entry_names(self.loaded()),
    {
        self.components.names()
    }

    /// Whether a component of that name is loaded.
    pub fn has_component(&self, name: &str) -> (r: bool)
        ensures
            r == lookup(self.loaded(), name@) is Some,
    {
        self.components.contains_key(name)
    }
}

} // verus!
