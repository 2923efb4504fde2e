use hooksmith::components::{ComponentFactory, ComponentHandle, ComponentRegistry};
use hooksmith::named_map::NamedMap;
use hooksmith::orchestrator::{
    BuildConfig, HooksmithOrchestrator, LefthookConfig, ValidationConfig, ValidationType, WorktreeOperation,
};
use hooksmith::orchestrator_config::{
    ComponentConfig, ComponentType, ConfigBuilder, ConfigManager, GlobalSettings, LogLevel, LoggingConfig,
    OrchestratorConfig,
};
use hooksmith::router::{CommandKind, CommandRouter};
use hooksmith::runtime::RuntimeConfig;

fn no_components() -> NamedMap<ComponentHandle> {
    NamedMap::new()
}

#[test]
fn test_command_router_creation() {
    let router = CommandRouter::new();
    assert!(router.has_command("build"));
    assert!(router.has_command("generate"));
    assert!(router.has_command("test"));
}

#[test]
fn test_command_help() {
    let router = CommandRouter::new();
    let help = router.get_command_help("build");
    assert!(help.is_some());
    assert!(help.unwrap().contains("Build a hook from source"));
}

#[test]
fn test_build_command() {
    let components = no_components();
    let result = CommandRouter::handle_build(vec!["test-hook".to_string()], &components);
    assert!(result.is_ok());

    let result = result.unwrap();
    assert!(result.success);
    assert!(result.output.contains("Built hook 'test-hook'"));
}

#[test]
fn test_build_command_no_args() {
    let components = no_components();
    let result = CommandRouter::handle_build(vec![], &components);
    assert!(result.is_ok());

    let result = result.unwrap();
    assert!(!result.success);
    assert!(result.error.is_some());
    assert!(result.error.unwrap().contains("Hook name is required"));
}

#[test]
fn test_worktree_command() {
    let components = no_components();

    let result = CommandRouter::handle_worktree(vec!["create".to_string(), "feature/test".to_string()], &components);
    assert!(result.is_ok());
    let result = result.unwrap();
    assert!(result.success);
    assert!(result.output.contains("Created worktree for branch: feature/test"));

    let result = CommandRouter::handle_worktree(vec!["list".to_string()], &components);
    assert!(result.is_ok());
    let result = result.unwrap();
    assert!(result.success);
    assert!(result.output.contains("Available worktrees"));
}

#[test]
fn worktree_remove_and_errors() {
    let c = no_components();
    let r = CommandRouter::handle_worktree(
        vec!["remove".to_string(), "wt".to_string(), "--with-branch".to_string()],
        &c,
    )
    .unwrap();
    assert_eq!(r.output, "Removed worktree: wt (with_branch: true)");
    let r = CommandRouter::handle_worktree(vec!["remove".to_string(), "wt".to_string()], &c).unwrap();
    assert_eq!(r.output, "Removed worktree: wt (with_branch: false)");
    let r = CommandRouter::handle_worktree(vec!["switch".to_string()], &c).unwrap();
    assert_eq!(r.error, Some("Worktree name is required for switch operation".to_string()));
    let r = CommandRouter::handle_worktree(vec!["prune".to_string()], &c).unwrap();
    assert!(!r.success);
    assert_eq!(r.error, Some("Unknown worktree operation: prune".to_string()));
}

#[test]
fn router_executes_and_lists() {
    let router = CommandRouter::new();
    assert_eq!(
        router.list_commands(),
        vec!["build", "generate", "worktree", "validate", "list", "install", "test"]
    );
    let factory = ComponentFactory::new();
    let mut comps = no_components();
    comps.insert("validation".to_string(), factory.create_validation());
    let r = router.execute("list", vec![], &comps).unwrap();
    assert_eq!(
        r.output,
        "Available components:\n- validation (1 functions)\n\nAvailable hooks:\n- pre-commit\n- pre-push\n- post-commit\n"
    );
    let r = router.execute("install", vec![], &comps).unwrap();
    assert_eq!(r.output, "Installing hooks:\n- pre-commit\n- pre-push\n");
    let r = router.execute("test", vec![], &comps).unwrap();
    assert_eq!(r.output, "Test successful: Hello from Hooksmith");
    let r = router.execute("generate", vec!["x.yml".to_string()], &comps).unwrap();
    assert_eq!(r.output, "Generated Lefthook configuration: x.yml");
    assert_eq!(router.execute("nope", vec![], &comps).unwrap_err(), "Unknown command: nope");
    assert_eq!(router.get_command_help("nope"), None);
}

#[test]
fn registered_handler_routes_new_command() {
    let mut router = CommandRouter::new();
    router.register_handler("hello", CommandKind::Test);
    let r = router.execute("hello", vec!["hi".to_string()], &no_components()).unwrap();
    assert_eq!(r.output, "Test successful: hi");
}

#[test]
fn test_component_handle() {
    let handle = ComponentHandle::new("test-component".to_string());
    assert_eq!(handle.name(), "test-component");
    assert_eq!(handle.metadata().name, "test-component");
    assert_eq!(handle.metadata().version, "0.1.0");
}

#[test]
fn test_component_registry() {
    let mut registry = ComponentRegistry::new();
    let handle = ComponentHandle::new("test-component".to_string());
    registry.register(handle);
    assert_eq!(registry.count(), 1);
    assert!(registry.has("test-component"));
    assert!(registry.get("test-component").is_some());
    assert!(registry.remove("test-component").is_some());
    assert_eq!(registry.count(), 0);
}

#[test]
fn test_component_factory() {
    let factory = ComponentFactory::new();
    let hook_builder = factory.create_hook_builder();
    assert_eq!(hook_builder.name(), "hook-builder");
    assert!(hook_builder.has_function("build-hook"));

    let worktree_manager = factory.create_worktree_manager();
    assert_eq!(worktree_manager.name(), "worktree-manager");
    assert!(worktree_manager.has_function("execute-operation"));
}

#[test]
fn component_call_gives_mock_value() {
    let h = ComponentFactory::new().create_lefthook_generator();
    let r = h.call_with_args("generate-config", vec![]).unwrap();
    assert!(r.success);
    assert_eq!(r.return_value, Some("Mock result from lefthook-generator:generate-config".to_string()));
    assert_eq!(h.available_functions(), vec!["generate-config", "validate-config"]);
    assert!(h.get_function_metadata("nope").is_none());
}

#[test]
fn test_config_builder() {
    let config = ConfigBuilder::new()
        .settings(GlobalSettings { output_dir: "custom/output".to_string(), ..Default::default() })
        .logging(LoggingConfig { level: LogLevel::Debug, ..Default::default() })
        .build();

    assert_eq!(config.settings.output_dir, "custom/output");
    assert!(matches!(config.logging.level, LogLevel::Debug));
}

#[test]
fn test_default_config() {
    let config = OrchestratorConfig::default();
    assert_eq!(config.components.len(), 0);
    assert!(config.settings.output_dir.contains("hooksmith"));
    assert!(config.logging.level == LogLevel::Info);
}

fn component(name: &str, deps: Vec<&str>) -> ComponentConfig {
    ComponentConfig {
        name: name.to_string(),
        component_type: ComponentType::Custom("test".to_string()),
        wasm_path: format!("{}.wasm", name),
        enabled: true,
        settings: vec![],
        dependencies: deps.into_iter().map(|d| d.to_string()).collect(),
    }
}

#[test]
fn config_manager_edits_and_validates() {
    let mut manager = ConfigManager::new("config.yaml".to_string());
    assert_eq!(manager.config().components.len(), 0);
    manager.add_component(component("test-component", vec!["core", "other"]));
    manager.add_component(component("other", vec![]));
    assert_eq!(manager.config().components.len(), 2);
    assert!(manager.get_component("test-component").is_some());
    let errors = manager.validate(&vec![false, true]).unwrap();
    assert_eq!(
        errors,
        vec![
            "Component 'test-component': WASM file not found at test-component.wasm",
            "Component 'test-component': Missing dependency 'core'",
        ]
    );
    manager.config_mut().settings.max_parallel_tasks = 0;
    let errors = manager.validate(&vec![true, true]).unwrap();
    assert_eq!(errors.len(), 2);
    assert_eq!(errors[1], "max_parallel_tasks must be greater than 0");
    assert!(manager.remove_component("other").is_some());
    assert_eq!(manager.list_components(), vec!["test-component"]);
}

#[test]
fn default_config_has_standard_components() {
    let c = ConfigManager::create_default_config();
    assert_eq!(c.components.len(), 4);
    let (name, cfg) = c.components.entry_at(2);
    assert_eq!(name, "lefthook-generator");
    assert_eq!(cfg.component_type, ComponentType::LefthookGenerator);
    assert_eq!(RuntimeConfig::default().max_memory_mb, 512);
}

#[test]
fn orchestrator_routes_to_components() {
    let mut o = HooksmithOrchestrator::new();
    assert!(o.get_component("hook-builder").is_err());
    let cfg = BuildConfig {
        source_path: "hooks/x.rs".to_string(),
        output_path: "target/hooks/x".to_string(),
        target_triple: None,
        optimization_level: 2,
        debug_symbols: false,
    };
    assert_eq!(o.build_hook(cfg.clone()).unwrap_err(), "Component 'hook-builder' not loaded");
    let f = ComponentFactory::new();
    o.load_component("hook-builder", f.create_hook_builder());
    o.load_component("validation", f.create_validation());
    let b = o.build_hook(cfg).unwrap();
    assert!(b.success);
    assert_eq!(b.build_logs, "Mock result from hook-builder:build-hook");
    let v = o
        .validate_config(ValidationConfig {
            validation_type: ValidationType::LefthookConfig,
            data: String::new(),
            schema: None,
        })
        .unwrap();
    assert_eq!(v.details, Some("Mock result from validation:validate".to_string()));
    assert!(o.generate_lefthook_config(LefthookConfig { output_path: String::new(), hooks: vec![], validate_schema: true }).is_err());
    assert!(o.manage_worktree(WorktreeOperation::List { tool: None }).is_err());
    assert_eq!(o.list_components(), vec!["hook-builder", "validation"]);
    assert!(o.has_component("validation"));
    let r = o.execute_command("list", vec![]).unwrap();
    assert!(r.output.contains("- hook-builder (2 functions)"));
}

use hooksmith::event_bus::{
    result_event_type_of, EventBusManager, EventBusManagerBuilder, EventDefinition, EventRegistryConfig, EventRoute,
    HandlerDefinition, HandlerType,
};

fn test_registry() -> EventRegistryConfig {
    let mut events = NamedMap::new();
    events.insert(
        "test_event".to_string(),
        EventDefinition {
            handler: "test_handler".to_string(),
            schema: "schemas/test.schema.jsonc".to_string(),
            category: "test".to_string(),
            description: "Test event".to_string(),
        },
    );
    events.insert(
        "wit_event".to_string(),
        EventDefinition {
            handler: "wit_handler".to_string(),
            schema: String::new(),
            category: "test".to_string(),
            description: "Component event".to_string(),
        },
    );
    let mut handlers = NamedMap::new();
    handlers.insert(
        "test_handler".to_string(),
        HandlerDefinition {
            handler_type: HandlerType::Native,
            component: None,
            crate_name: Some("test-crate".to_string()),
            events: vec!["test_event".to_string()],
            description: "Test handler".to_string(),
        },
    );
    handlers.insert(
        "wit_handler".to_string(),
        HandlerDefinition {
            handler_type: HandlerType::Wit,
            component: Some("validation".to_string()),
            crate_name: None,
            events: vec!["wit_event".to_string()],
            description: "Component handler".to_string(),
        },
    );
    EventRegistryConfig { events, handlers }
}

#[test]
fn event_bus_lookups_and_routes() {
    let mut bus = EventBusManager::from_registry(test_registry());
    assert_eq!(bus.list_events(), vec!["test_event", "wit_event"]);
    assert_eq!(bus.list_handlers(), vec!["test_handler", "wit_handler"]);
    assert_eq!(bus.get_event_definition("test_event").unwrap().handler, "test_handler");
    assert!(matches!(bus.get_handler_definition("test_handler").unwrap().handler_type, HandlerType::Native));
    assert_eq!(bus.route_event("test_event"), Err("Native handler not found: test-crate".to_string()));
    bus.register_native_handler("test-crate".to_string());
    assert_eq!(bus.route_event("test_event"), Ok(EventRoute::Native("test-crate".to_string())));
    assert_eq!(bus.route_event("wit_event"), Err("WIT component not found: validation".to_string()));
    bus.register_component("validation".to_string(), ComponentFactory::new().create_validation());
    assert_eq!(bus.route_event("wit_event"), Ok(EventRoute::Wit("validation".to_string())));
    assert_eq!(bus.route_event("nope").unwrap_err(), "Unknown event type: nope");
    assert!(bus.validate_event("test_event").is_ok());
    assert_eq!(bus.validate_event("wit_event").unwrap_err(), "Event schema not defined for: wit_event");
    let id = bus.subscribe_to_events("validation", vec!["wit_event".to_string()]).unwrap();
    assert_eq!(bus.get_statistics().active_subscriptions, 1);
    bus.unsubscribe(&id).unwrap();
    let stats = bus.get_statistics();
    assert_eq!(stats.active_subscriptions, 0);
    assert_eq!(stats.total_events, 2);
    assert_eq!(stats.registered_components, 1);
    assert_eq!(stats.registered_native_handlers, 1);
}

#[test]
fn event_bus_builder_and_result_types() {
    let b = EventBusManagerBuilder::new();
    assert_eq!(b.registry_file(), "config/event-registry.jsonc");
    let b = b.registry_path("custom.jsonc".to_string()).auto_load_handlers(true);
    assert_eq!(b.registry_file(), "custom.jsonc");
    assert_eq!(result_event_type_of("build_request"), "build_result");
    assert_eq!(result_event_type_of("build"), "build_result");
}
