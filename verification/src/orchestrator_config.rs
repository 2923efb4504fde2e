//! The orchestrator's configuration: runtime, components, global settings
//! and logging, with a manager that edits and checks it and a builder.

use vstd::prelude::*;
use crate::json::JsonValue;
use crate::named_map::{entry_names, lookup, NamedMap};
use crate::runtime::RuntimeConfig;
use crate::sarif::{copy_string, texts};
use crate::sarif_roles::{first_key_index, lemma_first_key_found, upsert};

verus! {

/// Type of component.
#[derive(Debug, Clone, PartialEq, Eq)]
pub enum ComponentType {
    /// Hook builder component
    HookBuilder,
    /// Worktree manager component
    WorktreeManager,
    /// Git filter component
    GitFilter,
    /// Lefthook generator component
    LefthookGenerator,
    /// Validation component
    Validation,
    /// Schema manager component
    SchemaManager,
    /// Custom component
    Custom(String),
}

/// Configuration for one component.
#[derive(Debug, Clone)]
pub struct ComponentConfig {
    /// Component name
    pub name: String,
    /// Component type
    pub component_type: ComponentType,
    /// WASM file path
    pub wasm_path: String,
    /// Whether the component is enabled
    pub enabled: bool,
    /// Component-specific settings
    pub settings: Vec<(String, JsonValue)>,
    /// Dependencies on other components
    pub dependencies: Vec<String>,
}

/// Global settings for the orchestrator.
#[derive(Debug, Clone)]
pub struct GlobalSettings {
    /// Default output directory
    pub output_dir: String,
    /// Whether to enable parallel execution
    pub parallel_execution: bool,
    /// Maximum parallel tasks
    pub max_parallel_tasks: usize,
    /// Whether to enable caching
    pub enable_caching: bool,
    /// Cache directory
    pub cache_dir: String,
    /// Whether to enable telemetry
    pub enable_telemetry: bool,
    /// Telemetry endpoint
    pub telemetry_endpoint: Option<String>,
}

impl Default for GlobalSettings {
    fn default() -> (r: Self)
        ensures
            r.output_dir@ == "target/hooksmith"@,
            r.parallel_execution,
            r.max_parallel_tasks == 4,
            r.enable_caching,
            r.cache_dir@ == ".hooksmith/cache"@,
            !r.enable_telemetry,
            r.telemetry_endpoint is None,
    {
        GlobalSettings {
            output_dir: "target/hooksmith".to_owned(),
            parallel_execution: true,
            max_parallel_tasks: 4,
            enable_caching: true,
            cache_dir: ".hooksmith/cache".to_owned(),
            enable_telemetry: false,
            telemetry_endpoint: None,
        }
    }
}

/// Log level.
#[derive(Debug, Clone, Copy, PartialEq, Eq, Structural)]
pub enum LogLevel {
    /// Trace level logging
    Trace,
    /// Debug level logging
    Debug,
    /// Info level logging
    Info,
    /// Warning level logging
    Warn,
    /// Error level logging
    Error,
}

/// Log format.
#[derive(Debug, Clone, Copy, PartialEq, Eq, Structural)]
pub enum LogFormat {
    /// Text format logging
    Text,
    /// JSON format logging
    Json,
}

/// Logging configuration.
#[derive(Debug, Clone)]
pub struct LoggingConfig {
    /// Log level
    pub level: LogLevel,
    /// Log format
    pub format: LogFormat,
    /// Log file path (if file logging is enabled)
    pub log_file: Option<String>,
    /// Whether to enable console logging
    pub console_logging: bool,
    /// Whether to enable structured logging
    pub structured_logging: bool,
}

impl Default for LoggingConfig {
    fn default() -> (r: Self)
        ensures
            r.level == LogLevel::Info,
            r.format == LogFormat::Text,
            r.log_file is None,
            r.console_logging,
            !r.structured_logging,
    {
        LoggingConfig {
            level: LogLevel::Info,
            format: LogFormat::Text,
            log_file: None,
            console_logging: true,
            structured_logging: false,
        }
    }
}

/// The orchestrator's configuration.
#[derive(Debug, Clone)]
pub struct OrchestratorConfig {
    /// Runtime configuration
    pub runtime_config: RuntimeConfig,
    /// Component configurations, by name
    pub components: NamedMap<ComponentConfig>,
    /// Global settings
    pub settings: GlobalSettings,
    /// Logging configuration
    pub logging: LoggingConfig,
}

impl Default for OrchestratorConfig {
    fn default() -> (r: Self)
        ensures
            r.runtime_config.max_memory_mb == 512,
            r.runtime_config.enable_wasi,
            r.components.entries().len() == 0,
            r.settings.output_dir@ == "target/hooksmith"@,
            r.settings.max_parallel_tasks == 4,
            r.logging.level == LogLevel::Info,
    {
        OrchestratorConfig {
            runtime_config: RuntimeConfig::default(),
            components: NamedMap::new(),
            settings: GlobalSettings::default(),
            logging: LoggingConfig::default(),
        }
    }
}

/// The errors reported for missing dependencies of the component `name`.
pub open spec fn dependency_errors(name: Seq<char>, deps: Seq<Seq<char>>, all: Seq<(Seq<char>, ComponentConfig)>) -> Seq<Seq<char>>
    decreases deps.len(),
{
    if deps.len() == 0 {
        Seq::empty()
    } else {
        let rest = dependency_errors(name, deps.drop_last(), all);
        if lookup(all, deps.last()) is None {
            rest.push("Component '"@ + name + "': Missing dependency '"@ + deps.last() + "'"@)
        } else {
            rest
        }
    }
}

/// The errors reported for one component entry, given whether its WASM
/// file exists.
pub open spec fn entry_errors(e: (Seq<char>, ComponentConfig), wasm_exists: bool, all: Seq<(Seq<char>, ComponentConfig)>) -> Seq<
    Seq<char>,
> {
    let missing: Seq<Seq<char>> = if wasm_exists {
        Seq::empty()
    } else {
        seq!["Component '"@ + e.0 + "': WASM file not found at "@ + e.1.wasm_path@]
    };
    missing + dependency_errors(e.0, texts(e.1.dependencies@), all)
}

/// The errors reported for component entries, in order.
pub open spec fn component_errors(es: Seq<(Seq<char>, ComponentConfig)>, exists: Seq<bool>, all: Seq<(Seq<char>, ComponentConfig)>) -> Seq<
    Seq<char>,
>
    decreases es.len(),
{
    if es.len() == 0 || exists.len() == 0 {
        Seq::empty()
    } else {
        component_errors(es.drop_last(), exists.drop_last(), all) + entry_errors(es.last(), exists.last(), all)
    }
}

/// All errors of a configuration, given for each component entry whether
/// its WASM file exists.
pub open spec fn config_errors(c: OrchestratorConfig, exists: Seq<bool>) -> Seq<Seq<char>> {
    let es = c.components.entries();
    let a = component_errors(es, exists, es);
    let b = if c.settings.max_parallel_tasks == 0 {
        a.push("max_parallel_tasks must be greater than 0"@)
    } else {
        a
    };
    if c.runtime_config.max_memory_mb == 0 {
        b.push("max_memory_mb must be greater than 0"@)
    } else {
        b
    }
}

/// `c` is the configuration of a standard component.
pub open spec fn standard_component(c: ComponentConfig, name: Seq<char>, t: ComponentType, path: Seq<char>) -> bool {
    &&& c.name@ == name
    &&& c.component_type == t
    &&& c.wasm_path@ == path
    &&& c.enabled
    &&& c.settings@.len() == 0
    &&& c.dependencies@.len() == 0
}

/// Configuration manager.
pub struct ConfigManager {
    config: OrchestratorConfig,
    config_path: String,
}

/// Push the errors for missing dependencies of one component.
fn push_dependency_errors(
    name: &String,
    deps: &Vec<String>,
    all: &NamedMap<ComponentConfig>,
    errors: &mut Vec<String>,
)
    ensures
        texts(final(errors)@) == texts(old(errors)@) + dependency_errors(name@, texts(deps@), all.entries()),
{
    let mut i: usize = 0;
    while i < deps.len()
        invariant
            i <= deps@.len(),
            texts(errors@) == texts(old(errors)@) + dependency_errors(name@, texts(deps@).take(i as int), all.entries()),
        decreases deps@.len() - i,
    {
        assert(texts(deps@).take(i + 1).drop_last() =~= texts(deps@).take(i as int));
        assert(texts(deps@).take(i + 1).last() == deps@[i as int]@);
        if !all.contains_key(deps[i].as_str()) {
            let mut m = "Component '".to_owned();
            m.append(name.as_str());
            m.append("': Missing dependency '");
            m.append(deps[i].as_str());
            m.append("'");
            let ghost before = errors@;
            errors.push(m);
            assert(texts(errors@) =~= texts(before).push(m@));
        }
        assert(texts(errors@) =~= texts(old(errors)@) + dependency_errors(name@, texts(deps@).take(i + 1), all.entries()));
        i = i + 1;
    }
    assert(texts(deps@).take(deps@.len() as int) =~= texts(deps@));
}

impl ConfigManager {
    /// The configuration.
    pub closed spec fn cfg(&self) -> OrchestratorConfig {
        self.config
    }

    /// The configuration file path.
    pub closed spec fn path(&self) -> Seq<char> {
        self.config_path@
    }

    /// A manager of the default configuration, kept at the given path.
    pub fn new(config_path: String) -> (r: Self)
        ensures
            r.path() == config_path@,
            r.cfg().components.entries().len() == 0,
            r.cfg().settings.max_parallel_tasks == 4,
            r.cfg().runtime_config.max_memory_mb == 512,
    {
        ConfigManager { config: OrchestratorConfig::default(), config_path }
    }

    /// The configuration file path.
    pub fn config_path(&self) -> (r: &str)
        ensures
            r@ == self.path(),
    {
        self.config_path.as_str()
    }

    /// The configuration.
    pub fn config(&self) -> (r: &OrchestratorConfig)
        ensures
            *r == self.cfg(),
    {
        &self.config
    }

    /// The configuration, to change in place.
    pub fn config_mut(&mut self) -> (r: &mut OrchestratorConfig)
        ensures
            *r == old(self).cfg(),
            final(self).cfg() == *final(r),
            final(self).path() == old(self).path(),
    {
        &mut self.config
    }

    /// Replace the configuration.
    pub fn update_config(&mut self, config: OrchestratorConfig)
        ensures
            final(self).cfg() == config,
            final(self).path() == old(self).path(),
    {
        self.config = config;
    }

    /// Add a component's configuration under its name, replacing one of
    /// that name.
    pub fn add_component(&mut self, component: ComponentConfig)
        ensures
            final(self).cfg().components.entries() == upsert(old(self).cfg().components.entries(), component.name@, component),
            final(self).path() == old(self).path(),
    {
        let name = copy_string(&component.name);
        self.config.components.insert(name, component);
    }

    /// Remove a component's configuration and give it back.
    pub fn remove_component(&mut self, name: &str) -> (r: Option<ComponentConfig>)
        ensures
            r == lookup(old(self).cfg().components.entries(), name@),
            lookup(final(self).cfg().components.entries(), name@) is None,
            match first_key_index(old(self).cfg().components.entries(), name@) {
                Some(i) => final(self).cfg().components.entries() == old(self).cfg().components.entries().remove(i),
                None => final(self).cfg().components.entries() == old(self).cfg().components.entries(),
            },
    {
        self.config.components.remove(name)
    }

    /// A component's configuration.
    pub fn get_component(&self, name: &str) -> (r: Option<&ComponentConfig>)
        ensures
            match lookup(self.cfg().components.entries(), name@) {
                Some(c) => r == Some(&c),
                None => r is None,
            },
    {
        self.config.components.get(name)
    }

    /// The names of the configured components, in order.
    pub fn list_components(&self) -> (r: Vec<String>)
        ensures
            texts(r@) == entry_names(self.cfg().components.entries()),
    {
        self.config.components.names()
    }

    /// Check the configuration, given for each component entry (in order)
    /// whether its WASM file exists: a missing file, a dependency on a
    /// component that is not configured, no parallel tasks, no memory.
    pub fn validate(&self, wasm_exists: &Vec<bool>) -> (r: Result<Vec<String>, String>)
        requires
            wasm_exists@.len() == self.cfg().components.entries().len(),
        ensures
            r matches Ok(errors) && texts(errors@) == config_errors(self.cfg(), wasm_exists@),
    {
        let comps = &self.config.components;
        let ghost es = comps.entries();
        let mut errors: Vec<String> = Vec::new();
        let mut i: usize = 0;
        while i < comps.len()
            invariant
                i <= es.len(),
                es == comps.entries(),
                wasm_exists@.len() == es.len(),
                texts(errors@) == component_errors(es.take(i as int), wasm_exists@.take(i as int), es),
            decreases es.len() - i,
        {
            let (name, c) = comps.entry_at(i);
            assert(es.take(i + 1).drop_last() =~= es.take(i as int));
            assert(wasm_exists@.take(i + 1).drop_last() =~= wasm_exists@.take(i as int));
            let ghost before = texts(errors@);
            if !wasm_exists[i] {
                let mut m = "Component '".to_owned();
                m.append(name.as_str());
                m.append("': WASM file not found at ");
                m.append(c.wasm_path.as_str());
                errors.push(m);
            }
            let ghost mid = texts(errors@);
            assert(mid =~= before + if wasm_exists@[i as int] {
                Seq::<Seq<char>>::empty()
            } else {
                seq!["Component '"@ + es[i as int].0 + "': WASM file not found at "@ + es[i as int].1.wasm_path@]
            });
            push_dependency_errors(name, &c.dependencies, comps, &mut errors);
            assert(texts(errors@) =~= before + entry_errors(es[i as int], wasm_exists@[i as int], es));
            i = i + 1;
        }
        assert(es.take(es.len() as int) =~= es);
        assert(wasm_exists@.take(es.len() as int) =~= wasm_exists@);
        if self.config.settings.max_parallel_tasks == 0 {
            let ghost before = errors@;
            errors.push("max_parallel_tasks must be greater than 0".to_owned());
            assert(texts(errors@) =~= texts(before).push("max_parallel_tasks must be greater than 0"@));
        }
        if self.config.runtime_config.max_memory_mb == 0 {
            let ghost before = errors@;
            errors.push("max_memory_mb must be greater than 0".to_owned());
            assert(texts(errors@) =~= texts(before).push("max_memory_mb must be greater than 0"@));
        }
        Ok(errors)
    }

    /// The default configuration with the four standard components.
    pub fn create_default_config() -> (r: OrchestratorConfig)
        ensures
            r.components.entries().len() == 4,
            r.components.entries()[0].0 == "hook-builder"@,
            standard_component(
                r.components.entries()[0].1,
                "hook-builder"@,
                ComponentType::HookBuilder,
                "components/hook-builder/target/wasm32-unknown-unknown/release/hook_builder.wasm"@,
            ),
            r.components.entries()[1].0 == "worktree-manager"@,
            standard_component(
                r.components.entries()[1].1,
                "worktree-manager"@,
                ComponentType::WorktreeManager,
                "components/worktree-manager/target/wasm32-unknown-unknown/release/worktree_manager.wasm"@,
            ),
            r.components.entries()[2].0 == "lefthook-generator"@,
            standard_component(
                r.components.entries()[2].1,
                "lefthook-generator"@,
                ComponentType::LefthookGenerator,
                "components/lefthook-generator/target/wasm32-unknown-unknown/release/lefthook_generator.wasm"@,
            ),
            r.components.entries()[3].0 == "validation"@,
            standard_component(
                r.components.entries()[3].1,
                "validation"@,
                ComponentType::Validation,
                "components/validation/target/wasm32-unknown-unknown/release/validation.wasm"@,
            ),
            r.settings.max_parallel_tasks == 4,
            r.runtime_config.max_memory_mb == 512,
    {
        let mut config = OrchestratorConfig::default();
        proof {
            reveal_strlit("hook-builder");
            reveal_strlit("worktree-manager");
            reveal_strlit("lefthook-generator");
            reveal_strlit("validation");
        }
        let c0 = standard("hook-builder", ComponentType::HookBuilder, "components/hook-builder/target/wasm32-unknown-unknown/release/hook_builder.wasm");
        let ghost g0 = c0;
        let ghost p0 = config.components.entries();
        assert(p0 == Seq::<(Seq<char>, ComponentConfig)>::empty());
        config.components.insert("hook-builder".to_owned(), c0);
        let ghost s0 = Seq::<(Seq<char>, ComponentConfig)>::empty().push(("hook-builder"@, g0));
        proof {
            lemma_first_key_found(p0, "hook-builder"@);
        }
        assert(config.components.entries() =~= s0);
        let c1 = standard(
            "worktree-manager",
            ComponentType::WorktreeManager,
            "components/worktree-manager/target/wasm32-unknown-unknown/release/worktree_manager.wasm",
        );
        let ghost g1 = c1;
        let ghost p1 = config.components.entries();
        assert(p1 == s0);
        config.components.insert("worktree-manager".to_owned(), c1);
        let ghost s1 = s0.push(("worktree-manager"@, g1));
        proof {
            lemma_first_key_found(p1, "worktree-manager"@);
            assert(p1[0].0 == "hook-builder"@);
            assert("hook-builder"@.len() != "worktree-manager"@.len());
            assert(first_key_index(p1, "worktree-manager"@) is None);
        }
        assert(config.components.entries() =~= s1);
        let c2 = standard(
            "lefthook-generator",
            ComponentType::LefthookGenerator,
            "components/lefthook-generator/target/wasm32-unknown-unknown/release/lefthook_generator.wasm",
        );
        let ghost g2 = c2;
        let ghost p2 = config.components.entries();
        assert(p2 == s1);
        config.components.insert("lefthook-generator".to_owned(), c2);
        let ghost s2 = s1.push(("lefthook-generator"@, g2));
        proof {
            lemma_first_key_found(p2, "lefthook-generator"@);
            assert(p2[0].0 == "hook-builder"@);
            assert("hook-builder"@.len() != "lefthook-generator"@.len());
            assert(p2[1].0 == "worktree-manager"@);
            assert("worktree-manager"@.len() != "lefthook-generator"@.len());
            assert(first_key_index(p2, "lefthook-generator"@) is None);
        }
        assert(config.components.entries() =~= s2);
        let c3 = standard("validation", ComponentType::Validation, "components/validation/target/wasm32-unknown-unknown/release/validation.wasm");
        let ghost g3 = c3;
        let ghost p3 = config.components.entries();
        assert(p3 == s2);
        config.components.insert("validation".to_owned(), c3);
        let ghost s3 = s2.push(("validation"@, g3));
        proof {
            lemma_first_key_found(p3, "validation"@);
            assert(p3[0].0 == "hook-builder"@);
            assert("hook-builder"@.len() != "validation"@.len());
            assert(p3[1].0 == "worktree-manager"@);
            assert("worktree-manager"@.len() != "validation"@.len());
            assert(p3[2].0 == "lefthook-generator"@);
            assert("lefthook-generator"@.len() != "validation"@.len());
            assert(first_key_index(p3, "validation"@) is None);
        }
        assert(config.components.entries() =~= s3);
        config
    }
}

/// The configuration of a standard component.
fn standard(name: &str, t: ComponentType, path: &str) -> (r: ComponentConfig)
    ensures
        standard_component(r, name@, t, path@),
{
    ComponentConfig {
        name: name.to_owned(),
        component_type: t,
        wasm_path: path.to_owned(),
        enabled: true,
        settings: Vec::new(),
        dependencies: Vec::new(),
    }
}

/// Builder of configurations.
pub struct ConfigBuilder {
    config: OrchestratorConfig,
}

impl ConfigBuilder {
    /// The configuration built so far.
    pub closed spec fn cfg(&self) -> OrchestratorConfig {
        self.config
    }

    /// A builder that starts from the default configuration.
    pub fn new() -> (r: Self)
        ensures
            r.cfg().components.entries().len() == 0,
            r.cfg().settings.output_dir@ == "target/hooksmith"@,
            r.cfg().logging.level == LogLevel::Info,
            r.cfg().runtime_config.max_memory_mb == 512,
    {
        ConfigBuilder { config: OrchestratorConfig::default() }
    }

    /// Set the runtime configuration.
    pub fn runtime_config(self, runtime_config: RuntimeConfig) -> (r: Self)
        ensures
            r.cfg() == (OrchestratorConfig { runtime_config, ..self.cfg() }),
    {
        let mut b = self;
        b.config.runtime_config = runtime_config;
        b
    }

    /// Add a component's configuration under its name.
    pub fn component(self, component: ComponentConfig) -> (r: Self)
        ensures
            r.cfg().components.entries() == upsert(self.cfg().components.entries(), component.name@, component),
            r.cfg().runtime_config == self.cfg().runtime_config,
            r.cfg().settings == self.cfg().settings,
            r.cfg().logging == self.cfg().logging,
    {
        let mut b = self;
        let name = copy_string(&component.name);
        b.config.components.insert(name, component);
        b
    }

    /// Set the global settings.
    pub fn settings(self, settings: GlobalSettings) -> (r: Self)
        ensures
            r.cfg() == (OrchestratorConfig { settings, ..self.cfg() }),
    {
        let mut b = self;
        b.config.settings = settings;
        b
    }

    /// Set the logging configuration.
    pub fn logging(self, logging: LoggingConfig) -> (r: Self)
        ensures
            r.cfg() == (OrchestratorConfig { logging, ..self.cfg() }),
    {
        let mut b = self;
        b.config.logging = logging;
        b
    }

    /// The configuration.
    pub fn build(self) -> (r: OrchestratorConfig)
        ensures
            r == self.cfg(),
    {
        self.config
    }
}

impl Default for ConfigBuilder {
    fn default() -> (r: Self)
        ensures
            r.cfg().components.entries().len() == 0,
            r.cfg().settings.output_dir@ == "target/hooksmith"@,
            r.cfg().logging.level == LogLevel::Info,
    {
        Self::new()
    }
}

} // verus!
