//! WASM components: build and run configurations, the placeholder module
//! and bindings a build writes, where it writes them, what a module file
//! says of itself, and the check of a WIT file's name.

use vstd::prelude::*;
use crate::git_bindings::{join_path, path_join};
use crate::outside::{path_debug, path_debug_of};
use crate::paths::{extension, extension_of, file_stem, file_stem_of};
use crate::text::{decimal_string, decimal_text, str_eq};

verus! {

/// Configuration for building a component.
#[derive(Debug, Clone)]
pub struct WasmBuildConfig {
    /// WIT interface file path
    pub wit_file: String,
    /// Output directory for WASM files
    pub output_dir: String,
    /// Whether to generate bindings
    pub generate_bindings: bool,
    /// Target language for bindings
    pub binding_language: Option<String>,
    /// Optimization level (0-3)
    pub optimization_level: u8,
    /// Whether to enable WASI
    pub enable_wasi: bool,
}

impl Default for WasmBuildConfig {
    fn default() -> (r: Self)
        ensures
            r.wit_file@ == "interface.wit"@,
            r.output_dir@ == "target/wasm"@,
            r.generate_bindings,
            r.binding_language matches Some(l) && l@ == "rust"@,
            r.optimization_level == 2,
            r.enable_wasi,
    {
        WasmBuildConfig {
            wit_file: "interface.wit".to_owned(),
            output_dir: "target/wasm".to_owned(),
            generate_bindings: true,
            binding_language: Some("rust".to_owned()),
            optimization_level: 2,
            enable_wasi: true,
        }
    }
}

/// Result of building a component.
#[derive(Debug, Clone)]
pub struct WasmBuildResult {
    /// Whether the build was successful
    pub success: bool,
    /// Path to the generated WASM file
    pub wasm_file: Option<String>,
    /// Path to generated bindings (if any)
    pub bindings_file: Option<String>,
    /// Build output messages
    pub output: String,
    /// Error message if failed
    pub error: Option<String>,
    /// Build metadata
    pub metadata: Vec<(String, String)>,
}

/// Configuration for running a component.
#[derive(Debug, Clone)]
pub struct WasmRunConfig {
    /// WASM file path
    pub wasm_file: String,
    /// Function name to call
    pub function: String,
    /// Arguments to pass to the function
    pub args: Vec<String>,
    /// Whether to enable WASI
    pub enable_wasi: bool,
    /// Environment variables to set
    pub env_vars: Vec<(String, String)>,
    /// Working directory
    pub working_dir: Option<String>,
}

/// Result of running a component.
#[derive(Debug, Clone)]
pub struct WasmRunResult {
    /// Whether the execution was successful
    pub success: bool,
    /// Function return value
    pub return_value: Option<String>,
    /// Standard output
    pub stdout: String,
    /// Standard error
    pub stderr: String,
    /// Error message if failed
    pub error: Option<String>,
    /// Execution time in milliseconds
    pub execution_time_ms: u64,
}

/// The placeholder module a build writes: one function, exported as
/// `main`, that returns 42.
pub open spec fn placeholder_module() -> Seq<u8> {
    seq![
        0x00u8, 0x61, 0x73, 0x6d,
        0x01, 0x00, 0x00, 0x00,
        0x01, 0x07, 0x01, 0x60, 0x00, 0x01, 0x7f,
        0x03, 0x02, 0x01, 0x00,
        0x07, 0x0a, 0x01, 0x04, 0x6d, 0x61, 0x69, 0x6e, 0x02, 0x00,
        0x0a, 0x06, 0x01, 0x04, 0x00, 0x41, 0x2a, 0x0b,
    ]
}

/// The placeholder module a build writes.
pub fn generate_placeholder_wasm() -> (r: Result<Vec<u8>, String>)
    ensures
        r matches Ok(b) && b@ == placeholder_module(),
{
    let b: Vec<u8> = vec![
        0x00, 0x61, 0x73, 0x6d,
        0x01, 0x00, 0x00, 0x00,
        0x01, 0x07, 0x01, 0x60, 0x00, 0x01, 0x7f,
        0x03, 0x02, 0x01, 0x00,
        0x07, 0x0a, 0x01, 0x04, 0x6d, 0x61, 0x69, 0x6e, 0x02, 0x00,
        0x0a, 0x06, 0x01, 0x04, 0x00, 0x41, 0x2a, 0x0b,
    ];
    assert(b@ =~= placeholder_module());
    Ok(b)
}

/// The first part of the placeholder bindings, before the component name.
pub open spec fn bindings_head() -> Seq<char> {
    "\n// Generated bindings for "@
}

/// The part of the bindings between the first and second names.
pub open spec fn bindings_mid() -> Seq<char> {
    " component\n// This is a placeholder - in a real implementation, these would be generated from WIT\n\nuse wasm_bindgen::prelude::*;\n\n#[wasm_bindgen]\npub struct "@
}

/// The part of the bindings between the second and third names.
pub open spec fn bindings_mid2() -> Seq<char> {
    "Component {\n    // Component state would go here\n}\n\n#[wasm_bindgen]\nimpl "@
}

/// The part of the bindings after the third name.
pub open spec fn bindings_tail() -> Seq<char> {
    "Component {\n    #[wasm_bindgen(constructor)]\n    pub fn new() -> Self {\n        Self {\n            // Initialize component state\n        }\n    }\n    \n    pub fn main(&self) -> i32 {\n        42\n    }\n}\n\n// Export the component\n#[wasm_bindgen]\npub fn init_panic_hook() {\n    console_error_panic_hook::set_once();\n}\n"@
}

/// The placeholder bindings for a component.
pub open spec fn bindings_text(name: Seq<char>) -> Seq<char> {
    bindings_head() + name + bindings_mid() + name + bindings_mid2() + name + bindings_tail()
}

/// The placeholder bindings for a component.
pub fn generate_placeholder_bindings(component_name: &str) -> (r: Result<String, String>)
    ensures
        r matches Ok(s) && s@ == bindings_text(component_name@),
{
    let mut s = "\n// Generated bindings for ".to_owned();
    s.append(component_name);
    s.append(
        " component\n// This is a placeholder - in a real implementation, these would be generated from WIT\n\nuse wasm_bindgen::prelude::*;\n\n#[wasm_bindgen]\npub struct ",
    );
    s.append(component_name);
    s.append("Component {\n    // Component state would go here\n}\n\n#[wasm_bindgen]\nimpl ");
    s.append(component_name);
    s.append(
        "Component {\n    #[wasm_bindgen(constructor)]\n    pub fn new() -> Self {\n        Self {\n            // Initialize component state\n        }\n    }\n    \n    pub fn main(&self) -> i32 {\n        42\n    }\n}\n\n// Export the component\n#[wasm_bindgen]\npub fn init_panic_hook() {\n    console_error_panic_hook::set_once();\n}\n",
    );
    Ok(s)
}

/// The stem of the WIT file, or a default.
pub open spec fn stem_or(wit_file: Seq<char>, default: Seq<char>) -> Seq<char> {
    match file_stem_of(wit_file) {
        Some(s) => s,
        None => default,
    }
}

/// The stem of a WIT file, or a default.
pub fn wit_stem(wit_file: &str, default: &str) -> (r: String)
    ensures
        r@ == stem_or(wit_file@, default@),
{
    match file_stem(wit_file) {
        Some(s) => s,
        None => default.to_owned(),
    }
}

/// Where a build writes the component.
pub open spec fn wasm_output_path_of(c: WasmBuildConfig) -> Seq<char> {
    path_join(c.output_dir@, stem_or(c.wit_file@, "component"@) + ".wasm"@)
}

/// Where a build writes the bindings, named after the given stem.
pub open spec fn bindings_path_of(output_dir: Seq<char>, stem: Seq<char>) -> Seq<char> {
    path_join(output_dir, stem + "_bindings.rs"@)
}

/// Where a build writes the component: the WIT file's stem (or
/// `component`) with `.wasm`, under the output directory.
pub fn wasm_output_path(config: &WasmBuildConfig) -> (r: String)
    ensures
        r@ == wasm_output_path_of(*config),
{
    let mut name = wit_stem(config.wit_file.as_str(), "component");
    name.append(".wasm");
    join_path(config.output_dir.as_str(), name.as_str())
}

/// Where bindings are written, named after a stem.
pub fn bindings_output_path(output_dir: &str, stem: &str) -> (r: String)
    ensures
        r@ == bindings_path_of(output_dir@, stem@),
{
    let mut name = stem.to_owned();
    name.append("_bindings.rs");
    join_path(output_dir, name.as_str())
}

/// Whether bytes start with the WASM magic number.
pub open spec fn has_wasm_magic(b: Seq<u8>) -> bool {
    b.len() >= 4 && b[0] == 0u8 && b[1] == 0x61u8 && b[2] == 0x73u8 && b[3] == 0x6du8
}

/// What a module file says of itself: its size, whether it is a module,
/// and (for a module) its function and export counts.
pub open spec fn wasm_info_of(b: Seq<u8>) -> Seq<(Seq<char>, Seq<char>)> {
    let size = seq![("size_bytes"@, decimal_text(b.len()))];
    if has_wasm_magic(b) {
        size + seq![("valid_wasm"@, "true"@), ("function_count"@, "1"@), ("export_count"@, "1"@)]
    } else {
        size + seq![("valid_wasm"@, "false"@)]
    }
}

/// What a module file says of itself.
pub fn get_wasm_info(bytes: &[u8]) -> (r: Result<Vec<(String, String)>, String>)
    ensures
        r matches Ok(v) && v@.map_values(|e: (String, String)| (e.0@, e.1@)) == wasm_info_of(bytes@),
{
    let mut info: Vec<(String, String)> = Vec::new();
    info.push(("size_bytes".to_owned(), decimal_string(bytes.len() as u64)));
    let magic = bytes.len() >= 4 && bytes[0] == 0u8 && bytes[1] == 0x61u8 && bytes[2] == 0x73u8 && bytes[3] == 0x6du8;
    if magic {
        info.push(("valid_wasm".to_owned(), "true".to_owned()));
        info.push(("function_count".to_owned(), "1".to_owned()));
        info.push(("export_count".to_owned(), "1".to_owned()));
    } else {
        info.push(("valid_wasm".to_owned(), "false".to_owned()));
    }
    assert(info@.map_values(|e: (String, String)| (e.0@, e.1@)) =~= wasm_info_of(bytes@));
    Ok(info)
}

/// Why a WIT file is refused, given whether it exists: a missing file, or
/// an extension other than `wit`.
pub open spec fn wit_failure(path: Seq<char>, exists: bool) -> Option<Seq<char>> {
    if !exists {
        Some("WIT file does not exist: "@ + path_debug_of(path))
    } else {
        match extension_of(path) {
            Some(e) => if e != "wit"@ {
                Some("File does not have .wit extension: "@ + path_debug_of(path))
            } else {
                None
            },
            None => None,
        }
    }
}

/// Check a WIT file, given whether it exists.
pub fn validate_wit_file(wit_path: &str, exists: bool) -> (r: Result<(), String>)
    ensures
        match wit_failure(wit_path@, exists) {
            Some(m) => r matches Err(e) && e@ == m,
            None => r is Ok,
        },
{
    if !exists {
        let mut m = "WIT file does not exist: ".to_owned();
        let d = path_debug(wit_path);
        m.append(d.as_str());
        return Err(m);
    }
    match extension(wit_path) {
        Some(e) => {
            if !str_eq(e.as_str(), "wit") {
                let mut m = "File does not have .wit extension: ".to_owned();
                let d = path_debug(wit_path);
                m.append(d.as_str());
                return Err(m);
            }
            Ok(())
        },
        None => Ok(()),
    }
}

/// The build result for a component and its bindings, with the build's
/// report of its duration, the module's size and its duration in
/// milliseconds.
pub fn build_succeeded(
    wasm_file: String,
    bindings_file: Option<String>,
    duration_text: &str,
    size_bytes: u64,
    execution_time_ms: u64,
) -> (r: WasmBuildResult)
    ensures
        r.success,
        r.wasm_file matches Some(w) && w@ == wasm_file@,
        r.bindings_file == bindings_file,
        r.output@ == "Built WASM component in "@ + duration_text@,
        r.error is None,
        r.metadata@.map_values(|e: (String, String)| (e.0@, e.1@)) == seq![
            ("size_bytes"@, decimal_text(size_bytes as nat)),
            ("execution_time_ms"@, decimal_text(execution_time_ms as nat)),
        ],
{
    let mut output = "Built WASM component in ".to_owned();
    output.append(duration_text);
    let metadata = vec![
        ("size_bytes".to_owned(), decimal_string(size_bytes)),
        ("execution_time_ms".to_owned(), decimal_string(execution_time_ms)),
    ];
    assert(metadata@.map_values(|e: (String, String)| (e.0@, e.1@)) =~= seq![
        ("size_bytes"@, decimal_text(size_bytes as nat)),
        ("execution_time_ms"@, decimal_text(execution_time_ms as nat)),
    ]);
    WasmBuildResult { success: true, wasm_file: Some(wasm_file), bindings_file, output, error: None, metadata }
}

} // verus!
