//! Verified core of the hooksmith Git hook engine: hook and concern tables,
//! the contract state machine, Git action/hook models, SARIF merging and
//! auditing, repair planning and validation scopes.

pub mod text;
pub mod symbols;
pub mod hooks;
pub mod contracts;
pub mod git_model;
pub mod git_native;
pub mod contract_state_machine;
pub mod sarif;
pub mod sarif_laws;
pub mod json;
pub mod outside;
pub mod types;
pub mod specifier;
pub mod snapshot_verify;
pub mod high_performance_diff;
pub mod verify_laws;
pub mod sarif_roles;
pub mod repair_planning;
pub mod repair_core;
pub mod repair_laws;
pub mod generator;
pub mod git_bindings;
pub mod hierarchical_validation;
pub mod scope_order;
pub mod contract_validation;
pub mod concerns;
pub mod pipeline;
pub mod functional_contract_pipeline;
pub mod contract_templates;
pub mod static_hook;
pub mod named_map;
pub mod runtime;
pub mod components;
pub mod orchestrator_config;
pub mod router;
pub mod orchestrator;
pub mod event_bus;
pub mod paths;
pub mod crate_contract_mapper;
pub mod wasm;
pub mod lefthook;
pub mod agreement_manager;
pub mod hook_builder;
pub mod tree_split_planner;
pub mod worktree;
