//! The component runtime's configuration and the shape of calls into a
//! component.

use vstd::prelude::*;
use crate::named_map::NamedMap;
use crate::sarif::texts;

verus! {

/// Configuration for the component runtime.
#[derive(Debug, Clone)]
pub struct RuntimeConfig {
    /// Whether to enable WASI support
    pub enable_wasi: bool,
    /// Maximum memory size in MB
    pub max_memory_mb: u32,
    /// Whether to enable debug logging
    pub debug_logging: bool,
    /// Component search paths
    pub component_paths: Vec<String>,
    /// Preloaded components: name to WASM path
    pub preloaded_components: NamedMap<String>,
}

impl Default for RuntimeConfig {
    fn default() -> (r: Self)
        ensures
            r.enable_wasi,
            r.max_memory_mb == 512,
            !r.debug_logging,
            texts(r.component_paths@) == seq!["components"@],
            r.preloaded_components.entries().len() == 0,
    {
        let r = RuntimeConfig {
            enable_wasi: true,
            max_memory_mb: 512,
            debug_logging: false,
            component_paths: vec!["components".to_owned()],
            preloaded_components: NamedMap::new(),
        };
        assert(texts(r.component_paths@) =~= seq!["components"@]);
        r
    }
}

/// The result of calling a component function.
#[derive(Debug, Clone, PartialEq, Eq)]
pub struct WasmCallResult {
    /// Whether the call was successful
    pub success: bool,
    /// Return value (serialized)
    pub return_value: Option<String>,
    /// Error message if failed
    pub error: Option<String>,
    /// Execution time in milliseconds
    pub duration_ms: u64,
}

/// A request to call a component function.
#[derive(Debug, Clone)]
pub struct WasmCallRequest {
    /// Function name to call
    pub function_name: String,
    /// Arguments (serialized)
    pub arguments: Vec<String>,
    /// Expected return type
    pub return_type: Option<String>,
}

} // verus!
