//! Handles of components: their metadata, the functions they offer, a
//! registry of loaded components and the metadata of the standard ones.

use vstd::prelude::*;
use crate::named_map::{entry_names, lookup, NamedMap};
use crate::runtime::WasmCallResult;
use crate::sarif::{copy_string, texts};
use crate::sarif_roles::{first_key_index, upsert};
use crate::text::str_eq;

verus! {

/// Metadata about a function parameter.
#[derive(Debug, Clone)]
pub struct ParameterMetadata {
    /// Parameter name
    pub name: String,
    /// Parameter type
    pub parameter_type: String,
    /// Whether the parameter is required
    pub required: bool,
    /// Parameter description
    pub description: String,
}

/// Metadata about a component function.
#[derive(Debug, Clone)]
pub struct FunctionMetadata {
    /// Function name
    pub name: String,
    /// Function description
    pub description: String,
    /// Parameter types
    pub parameters: Vec<ParameterMetadata>,
    /// Return type
    pub return_type: Option<String>,
    /// Whether the function is async
    pub is_async: bool,
}

/// Metadata about a component.
#[derive(Debug, Clone)]
pub struct ComponentMetadata {
    /// Component name
    pub name: String,
    /// Component version
    pub version: String,
    /// Available functions
    pub functions: Vec<FunctionMetadata>,
    /// Component capabilities
    pub capabilities: Vec<String>,
    /// Component dependencies
    pub dependencies: Vec<String>,
}

/// A parameter as plain values: name, type, whether required, description.
pub type ParamView = (Seq<char>, Seq<char>, bool, Seq<char>);

/// A function as plain values: name, description, parameters, return type,
/// whether async.
pub type FunctionView = (Seq<char>, Seq<char>, Seq<ParamView>, Option<Seq<char>>, bool);

/// Component metadata as plain values: name, version, functions,
/// capabilities, dependencies.
pub type MetadataView = (Seq<char>, Seq<char>, Seq<FunctionView>, Seq<Seq<char>>, Seq<Seq<char>>);

/// An optional text.
pub open spec fn opt_text(o: Option<String>) -> Option<Seq<char>> {
    match o {
        Some(s) => Some(s@),
        None => None,
    }
}

/// A parameter's plain values.
pub open spec fn param_view(p: ParameterMetadata) -> ParamView {
    (p.name@, p.parameter_type@, p.required, p.description@)
}

/// A function's plain values.
pub open spec fn function_view(f: FunctionMetadata) -> FunctionView {
    (f.name@, f.description@, f.parameters@.map_values(|p: ParameterMetadata| param_view(p)), opt_text(f.return_type), f.is_async)
}

/// Metadata's plain values.
pub open spec fn metadata_view(m: ComponentMetadata) -> MetadataView {
    (
        m.name@,
        m.version@,
        m.functions@.map_values(|f: FunctionMetadata| function_view(f)),
        texts(m.capabilities@),
        texts(m.dependencies@),
    )
}

/// The names of functions, in order.
pub open spec fn function_names(fs: Seq<FunctionMetadata>) -> Seq<Seq<char>> {
    fs.map_values(|f: FunctionMetadata| f.name@)
}

/// The first function with a name.
pub open spec fn first_function(fs: Seq<FunctionMetadata>, name: Seq<char>) -> Option<int>
    decreases fs.len(),
{
    if fs.len() == 0 {
        None
    } else if fs[0].name@ == name {
        Some(0)
    } else {
        match first_function(fs.drop_first(), name) {
            Some(i) => Some(i + 1),
            None => None,
        }
    }
}

/// The value a call on a component gives back.
pub open spec fn mock_return(component: Seq<char>, function: Seq<char>) -> Seq<char> {
    "Mock result from "@ + component + ":"@ + function
}

/// Handle for interacting with a component.
#[derive(Debug, Clone)]
pub struct ComponentHandle {
    name: String,
    metadata: ComponentMetadata,
}

impl ComponentHandle {
    /// The component's name.
    pub closed spec fn name_text(&self) -> Seq<char> {
        self.name@
    }

    /// The component's metadata.
    pub closed spec fn meta(&self) -> ComponentMetadata {
        self.metadata
    }

    /// A handle with metadata that names the component, at version 0.1.0,
    /// with no functions, capabilities or dependencies.
    pub fn new(name: String) -> (r: Self)
        ensures
            r.name_text() == name@,
            metadata_view(r.meta()) == (name@, "0.1.0"@, Seq::<FunctionView>::empty(), Seq::<Seq<char>>::empty(), Seq::<
                Seq<char>,
            >::empty()),
    {
        let name_clone = copy_string(&name);
        let r = ComponentHandle {
            name,
            metadata: ComponentMetadata {
                name: name_clone,
                version: "0.1.0".to_owned(),
                functions: Vec::new(),
                capabilities: Vec::new(),
                dependencies: Vec::new(),
            },
        };
        assert(metadata_view(r.metadata).2 =~= Seq::<FunctionView>::empty());
        assert(metadata_view(r.metadata).3 =~= Seq::<Seq<char>>::empty());
        assert(metadata_view(r.metadata).4 =~= Seq::<Seq<char>>::empty());
        r
    }

    /// The component's name.
    pub fn name(&self) -> (r: &str)
        ensures
            r@ == self.name_text(),
    {
        self.name.as_str()
    }

    /// The component's metadata.
    pub fn metadata(&self) -> (r: &ComponentMetadata)
        ensures
            *r == self.meta(),
    {
        &self.metadata
    }

    /// Call a function on the component: a successful call whose value
    /// names the component and the function. The function's arguments are
    /// not read.
    pub fn call(&self, function_name: &str) -> (r: Result<WasmCallResult, String>)
        ensures
            r matches Ok(c) && c.success && opt_text(c.return_value) == Some(mock_return(self.name_text(), function_name@))
                && c.error is None && c.duration_ms == 0,
    {
        let mut v = "Mock result from ".to_owned();
        v.append(self.name.as_str());
        v.append(":");
        v.append(function_name);
        Ok(WasmCallResult { success: true, return_value: Some(v), error: None, duration_ms: 0 })
    }

    /// Call a function with arguments: a successful call whose value names
    /// the component and the function.
    pub fn call_with_args(&self, function_name: &str, args: Vec<String>) -> (r: Result<WasmCallResult, String>)
        ensures
            r matches Ok(c) && c.success && opt_text(c.return_value) == Some(mock_return(self.name_text(), function_name@))
                && c.error is None && c.duration_ms == 0,
    {
        self.call(function_name)
    }

    /// The names of the available functions, in order.
    pub fn available_functions(&self) -> (r: Vec<String>)
        ensures
            texts(r@) == function_names(self.meta().functions@),
    {
        let fs = &self.metadata.functions;
        let mut r: Vec<String> = Vec::new();
        let mut i: usize = 0;
        while i < fs.len()
            invariant
                i <= fs@.len(),
                texts(r@) == function_names(fs@).take(i as int),
            decreases fs@.len() - i,
        {
            let ghost before = r@;
            r.push(copy_string(&fs[i].name));
            assert(function_names(fs@).take(i + 1) =~= function_names(fs@).take(i as int).push(fs@[i as int].name@));
            assert(texts(r@) =~= texts(before).push(fs@[i as int].name@));
            i = i + 1;
        }
        assert(function_names(fs@).take(i as int) =~= function_names(fs@));
        r
    }

    /// The first function with a name.
    pub fn get_function_metadata(&self, function_name: &str) -> (r: Option<&FunctionMetadata>)
        ensures
            match first_function(self.meta().functions@, function_name@) {
                Some(i) => r == Some(&self.meta().functions@[i]),
                None => r is None,
            },
    {
        let fs = &self.metadata.functions;
        let mut i: usize = 0;
        assert(fs@.subrange(0, fs@.len() as int) =~= fs@);
        while i < fs.len()
            invariant
                i <= fs@.len(),
                fs@ == self.meta().functions@,
                first_function(fs@, function_name@) == match first_function(fs@.subrange(i as int, fs@.len() as int), function_name@) {
                    Some(j) => Some(j + i),
                    None => None::<int>,
                },
            decreases fs@.len() - i,
        {
            let ghost rest = fs@.subrange(i as int, fs@.len() as int);
            assert(rest[0] == fs@[i as int]);
            assert(rest.drop_first() =~= fs@.subrange(i + 1, fs@.len() as int));
            if str_eq(fs[i].name.as_str(), function_name) {
                assert(first_function(rest, function_name@) == Some(0int));
                return Some(&fs[i]);
            }
            i = i + 1;
        }
        None
    }

    /// Whether a function of that name is available.
    pub fn has_function(&self, function_name: &str) -> (r: bool)
        ensures
            r == first_function(self.meta().functions@, function_name@) is Some,
    {
        self.get_function_metadata(function_name).is_some()
    }

    /// Replace the metadata.
    pub fn update_metadata(&mut self, metadata: ComponentMetadata)
        ensures
            final(self).meta() == metadata,
            final(self).name_text() == old(self).name_text(),
    {
        self.metadata = metadata;
    }
}

/// A registry of components by name.
pub struct ComponentRegistry {
    components: NamedMap<ComponentHandle>,
}

impl ComponentRegistry {
    /// The registered components, by name.
    pub closed spec fn entries(&self) -> Seq<(Seq<char>, ComponentHandle)> {
        self.components.entries()
    }

    /// An empty registry.
    pub fn new() -> (r: Self)
        ensures
            r.entries().len() == 0,
    {
        ComponentRegistry { components: NamedMap::new() }
    }

    /// Register a component under its name, replacing one of that name.
    pub fn register(&mut self, component: ComponentHandle)
        ensures
            final(self).entries() == upsert(old(self).entries(), component.name_text(), component),
    {
        let name = component.name().to_owned();
        self.components.insert(name, component);
    }

    /// The component of a name.
    pub fn get(&self, name: &str) -> (r: Option<&ComponentHandle>)
        ensures
            match lookup(self.entries(), name@) {
                Some(c) => r == Some(&c),
                None => r is None,
            },
    {
        self.components.get(name)
    }

    /// Remove the component of a name and give it back.
    pub fn remove(&mut self, name: &str) -> (r: Option<ComponentHandle>)
        ensures
            r == lookup(old(self).entries(), name@),
            lookup(final(self).entries(), name@) is None,
            match first_key_index(old(self).entries(), name@) {
                Some(i) => final(self).entries() == old(self).entries().remove(i),
                None => final(self).entries() == old(self).entries(),
            },
    {
        self.components.remove(name)
    }

    /// The registered names, in order.
    pub fn list(&self) -> (r: Vec<String>)
        ensures
            texts(r@) == entry_names(self.entries()),
    {
        self.components.names()
    }

    /// Whether a component of that name is registered.
    pub fn has(&self, name: &str) -> (r: bool)
        ensures
            r == lookup(self.entries(), name@) is Some,
    {
        self.components.contains_key(name)
    }

    /// The number of registered components.
    pub fn count(&self) -> (r: usize)
        ensures
            r == self.entries().len(),
    {
        self.components.len()
    }
}

/// A parameter's metadata.
fn param(name: &str, parameter_type: &str, required: bool, description: &str) -> (r: ParameterMetadata)
    ensures
        param_view(r) == (name@, parameter_type@, required, description@),
{
    ParameterMetadata {
        name: name.to_owned(),
        parameter_type: parameter_type.to_owned(),
        required,
        description: description.to_owned(),
    }
}

/// A function's metadata with at most one parameter.
fn function(name: &str, description: &str, parameter: Option<ParameterMetadata>, return_type: &str, is_async: bool) -> (r:
    FunctionMetadata)
    ensures
        function_view(r) == (
            name@,
            description@,
            match parameter {
                Some(p) => seq![param_view(p)],
                None => Seq::<ParamView>::empty(),
            },
            Some(return_type@),
            is_async,
        ),
{
    let mut parameters: Vec<ParameterMetadata> = Vec::new();
    match parameter {
        Some(p) => {
            parameters.push(p);
        },
        None => {},
    }
    let r = FunctionMetadata {
        name: name.to_owned(),
        description: description.to_owned(),
        parameters,
        return_type: Some(return_type.to_owned()),
        is_async,
    };
    assert(function_view(r).2 =~= match parameter {
        Some(p) => seq![param_view(p)],
        None => Seq::<ParamView>::empty(),
    });
    r
}

/// A handle named `name` at version 0.1.0 with the given functions and
/// capabilities and no dependencies.
fn standard_handle(name: &str, functions: Vec<FunctionMetadata>, capabilities: Vec<String>) -> (r: ComponentHandle)
    ensures
        r.name_text() == name@,
        metadata_view(r.meta()) == (
            name@,
            "0.1.0"@,
            functions@.map_values(|f: FunctionMetadata| function_view(f)),
            texts(capabilities@),
            Seq::<Seq<char>>::empty(),
        ),
{
    let mut handle = ComponentHandle::new(name.to_owned());
    let metadata = ComponentMetadata {
        name: name.to_owned(),
        version: "0.1.0".to_owned(),
        functions,
        capabilities,
        dependencies: Vec::new(),
    };
    assert(texts(metadata.dependencies@) =~= Seq::<Seq<char>>::empty());
    handle.update_metadata(metadata);
    handle
}

/// The metadata of the hook builder component.
pub open spec fn hook_builder_view() -> MetadataView {
    (
        "hook-builder"@,
        "0.1.0"@,
        seq![
            ("build-hook"@, "Build a hook from source"@, seq![("config"@, "BuildConfig"@, true, "Build configuration"@)], Some("BuildResult"@), true),
            ("validate-source"@, "Validate hook source code"@, seq![("source-path"@, "string"@, true, "Path to source code"@)], Some(
                "ValidationResult"@,
            ), false),
        ],
        seq!["rust-compilation"@, "binary-optimization"@],
        Seq::empty(),
    )
}

/// The metadata of the worktree manager component.
pub open spec fn worktree_manager_view() -> MetadataView {
    (
        "worktree-manager"@,
        "0.1.0"@,
        seq![
            ("execute-operation"@, "Execute a worktree operation"@, seq![("operation"@, "WorktreeOperation"@, true, "Operation to execute"@)], Some(
                "WorktreeResult"@,
            ), true),
            ("list-tools"@, "List available worktree tools"@, Seq::empty(), Some("list<string>"@), false),
        ],
        seq!["git-worktree"@, "tool-detection"@],
        Seq::empty(),
    )
}

/// The metadata of the Lefthook generator component.
pub open spec fn lefthook_generator_view() -> MetadataView {
    (
        "lefthook-generator"@,
        "0.1.0"@,
        seq![
            ("generate-config"@, "Generate Lefthook configuration"@, seq![("config"@, "LefthookConfig"@, true, "Configuration for generation"@)], Some(
                "LefthookResult"@,
            ), false),
            ("validate-config"@, "Validate Lefthook configuration"@, seq![("config-content"@, "string"@, true, "Configuration content to validate"@)], Some(
                "ValidationResult"@,
            ), false),
        ],
        seq!["yaml-generation"@, "schema-validation"@],
        Seq::empty(),
    )
}

/// The metadata of the validation component.
pub open spec fn validation_view() -> MetadataView {
    (
        "validation"@,
        "0.1.0"@,
        seq![
            ("validate"@, "Validate configuration or data"@, seq![("config"@, "ValidationConfig"@, true, "Validation configuration"@)], Some(
                "ValidationResult"@,
            ), false),
        ],
        seq!["schema-validation"@, "json-validation"@],
        Seq::empty(),
    )
}

/// Factory of the standard components.
pub struct ComponentFactory;

impl ComponentFactory {
    /// A factory.
    pub fn new() -> (r: Self) {
        ComponentFactory
    }

    /// The hook builder component.
    pub fn create_hook_builder(&self) -> (r: ComponentHandle)
        ensures
            r.name_text() == "hook-builder"@,
            metadata_view(r.meta()) == hook_builder_view(),
    {
        let f1 = function("build-hook", "Build a hook from source", Some(param("config", "BuildConfig", true, "Build configuration")), "BuildResult", true);
        let f2 = function(
            "validate-source",
            "Validate hook source code",
            Some(param("source-path", "string", true, "Path to source code")),
            "ValidationResult",
            false,
        );
        let fs = vec![f1, f2];
        let caps = vec!["rust-compilation".to_owned(), "binary-optimization".to_owned()];
        assert(fs@.map_values(|f: FunctionMetadata| function_view(f)) =~= hook_builder_view().2);
        assert(texts(caps@) =~= hook_builder_view().3);
        standard_handle("hook-builder", fs, caps)
    }

    /// The worktree manager component.
    pub fn create_worktree_manager(&self) -> (r: ComponentHandle)
        ensures
            r.name_text() == "worktree-manager"@,
            metadata_view(r.meta()) == worktree_manager_view(),
    {
        let f1 = function(
            "execute-operation",
            "Execute a worktree operation",
            Some(param("operation", "WorktreeOperation", true, "Operation to execute")),
            "WorktreeResult",
            true,
        );
        let f2 = function("list-tools", "List available worktree tools", None, "list<string>", false);
        let fs = vec![f1, f2];
        let caps = vec!["git-worktree".to_owned(), "tool-detection".to_owned()];
        assert(fs@.map_values(|f: FunctionMetadata| function_view(f)) =~= worktree_manager_view().2);
        assert(texts(caps@) =~= worktree_manager_view().3);
        standard_handle("worktree-manager", fs, caps)
    }

    /// The Lefthook generator component.
    pub fn create_lefthook_generator(&self) -> (r: ComponentHandle)
        ensures
            r.name_text() == "lefthook-generator"@,
            metadata_view(r.meta()) == lefthook_generator_view(),
    {
        let f1 = function(
            "generate-config",
            "Generate Lefthook configuration",
            Some(param("config", "LefthookConfig", true, "Configuration for generation")),
            "LefthookResult",
            false,
        );
        let f2 = function(
            "validate-config",
            "Validate Lefthook configuration",
            Some(param("config-content", "string", true, "Configuration content to validate")),
            "ValidationResult",
            false,
        );
        let fs = vec![f1, f2];
        let caps = vec!["yaml-generation".to_owned(), "schema-validation".to_owned()];
        assert(fs@.map_values(|f: FunctionMetadata| function_view(f)) =~= lefthook_generator_view().2);
        assert(texts(caps@) =~= lefthook_generator_view().3);
        standard_handle("lefthook-generator", fs, caps)
    }

    /// The validation component.
    pub fn create_validation(&self) -> (r: ComponentHandle)
        ensures
            r.name_text() == "validation"@,
            metadata_view(r.meta()) == validation_view(),
    {
        let f1 = function(
            "validate",
            "Validate configuration or data",
            Some(param("config", "ValidationConfig", true, "Validation configuration")),
            "ValidationResult",
            false,
        );
        let fs = vec![f1];
        let caps = vec!["schema-validation".to_owned(), "json-validation".to_owned()];
        assert(fs@.map_values(|f: FunctionMetadata| function_view(f)) =~= validation_view().2);
        assert(texts(caps@) =~= validation_view().3);
        standard_handle("validation", fs, caps)
    }
}

} // verus!
