//! Building hooks: the build configuration, the Cargo invocation it
//! calls for, where the binary and its metadata go, and what a build
//! reports.

use vstd::prelude::*;
use crate::git_bindings::{join_path, path_join};
use crate::hierarchical_validation::{split_lines, split_words, text_lines, words};
use crate::outside::utc_now_rfc3339;
use crate::paths::{file_name, file_name_of};
use crate::sarif::{copy_string, copy_strings, texts};
use crate::text::{decimal_string, decimal_text, seq_contains_seq, str_contains, str_eq};

verus! {

/// Configuration for building a hook.
#[derive(Debug, Clone)]
pub struct HookBuildConfig {
    /// Hook name
    pub hook_name: String,
    /// Source directory containing Rust code
    pub source_dir: String,
    /// Output directory for built binaries
    pub output_dir: String,
    /// Whether to enable optimizations
    pub optimize: bool,
    /// Optimization level (0-3)
    pub optimization_level: u8,
    /// Whether to include debug symbols
    pub debug_symbols: bool,
    /// Target triple
    pub target: Option<String>,
    /// Additional Cargo features to enable
    pub features: Vec<String>,
    /// Whether to link with WASM components
    pub link_wasm: bool,
    /// WASM component paths to link
    pub wasm_components: Vec<String>,
    /// Environment variables for the build
    pub env_vars: Vec<(String, String)>,
}

impl Default for HookBuildConfig {
    fn default() -> (r: Self)
        ensures
            r.hook_name@ == "hook"@,
            r.source_dir@ == "src"@,
            r.output_dir@ == "target/hooks"@,
            r.optimize,
            r.optimization_level == 2,
            !r.debug_symbols,
            r.target is None,
            r.features@.len() == 0,
            !r.link_wasm,
            r.wasm_components@.len() == 0,
            r.env_vars@.len() == 0,
    {
        HookBuildConfig {
            hook_name: "hook".to_owned(),
            source_dir: "src".to_owned(),
            output_dir: "target/hooks".to_owned(),
            optimize: true,
            optimization_level: 2,
            debug_symbols: false,
            target: None,
            features: Vec::new(),
            link_wasm: false,
            wasm_components: Vec::new(),
            env_vars: Vec::new(),
        }
    }
}

/// Result of building a hook.
#[derive(Debug, Clone)]
pub struct HookBuildResult {
    /// Whether the build was successful
    pub success: bool,
    /// Path to the built binary
    pub binary_path: Option<String>,
    /// Build output messages
    pub output: String,
    /// Error message if failed
    pub error: Option<String>,
    /// Build metadata
    pub metadata: Vec<(String, String)>,
    /// Build time in milliseconds
    pub build_time_ms: u64,
}

/// Metadata of a hook.
#[derive(Debug, Clone)]
pub struct HookMetadata {
    /// Hook name
    pub name: String,
    /// Hook description
    pub description: Option<String>,
    /// Hook version
    pub version: Option<String>,
    /// Author information
    pub author: Option<String>,
    /// Dependencies
    pub dependencies: Vec<String>,
    /// Supported Git hooks
    pub supported_hooks: Vec<String>,
    /// Whether the hook requires WASM components
    pub requires_wasm: bool,
    /// WASM component dependencies
    pub wasm_dependencies: Vec<String>,
    /// Build timestamp
    pub build_timestamp: String,
}

/// Features joined by commas.
pub open spec fn comma_joined(fs: Seq<Seq<char>>) -> Seq<char>
    decreases fs.len(),
{
    if fs.len() == 0 {
        Seq::empty()
    } else if fs.len() == 1 {
        fs[0]
    } else {
        comma_joined(fs.drop_last()) + ","@ + fs.last()
    }
}

/// The arguments of the Cargo build a configuration calls for.
pub open spec fn cargo_args(c: HookBuildConfig) -> Seq<Seq<char>> {
    let a = seq!["build"@];
    let b = if c.optimize {
        a.push("--release"@)
    } else {
        a
    };
    let d = match c.target {
        Some(t) => b + seq!["--target"@, t@],
        None => b,
    };
    if c.features@.len() > 0 {
        d + seq!["--features"@, comma_joined(texts(c.features@))]
    } else {
        d
    }
}

/// Where Cargo leaves the binary: `target`, the target triple where one is
/// given, `release` or `debug`, then the hook's name.
pub open spec fn source_binary_of(c: HookBuildConfig) -> Seq<char> {
    let profile = if c.optimize {
        "release"@
    } else {
        "debug"@
    };
    let base = match c.target {
        Some(t) => path_join("target"@, t@),
        None => "target"@,
    };
    path_join(path_join(base, profile), c.hook_name@)
}

/// The file names of WASM component paths (empty where a path names no
/// file).
pub open spec fn component_names(ps: Seq<Seq<char>>) -> Seq<Seq<char>> {
    ps.map_values(
        |p: Seq<char>|
            match file_name_of(p) {
                Some(f) => f,
                None => Seq::empty(),
            },
    )
}

/// Lines that name a target: the first word of each line that does not
/// speak of `(default)`, where it has one.
pub open spec fn listed_targets(lines: Seq<Seq<char>>) -> Seq<Seq<char>>
    decreases lines.len(),
{
    if lines.len() == 0 {
        Seq::empty()
    } else {
        let rest = listed_targets(lines.drop_last());
        let l = lines.last();
        if !seq_contains_seq(l, "(default)"@) && words(l).len() > 0 {
            rest.push(words(l)[0])
        } else {
            rest
        }
    }
}

/// The targets named in the listing of installed targets.
pub fn targets_from_listing(listing: &str) -> (r: Vec<String>)
    ensures
        texts(r@) == listed_targets(text_lines(listing@)),
{
    let lines = split_lines(listing);
    let ghost ls = text_lines(listing@);
    let mut out: Vec<String> = Vec::new();
    let mut i: usize = 0;
    while i < lines.len()
        invariant
            i <= lines@.len(),
            texts(lines@) == ls,
            ls == text_lines(listing@),
            texts(out@) == listed_targets(ls.take(i as int)),
        decreases lines@.len() - i,
    {
        assert(ls.take(i + 1).drop_last() =~= ls.take(i as int));
        assert(ls.take(i + 1).last() == lines@[i as int]@);
        let ghost before = texts(out@);
        if !str_contains(lines[i].as_str(), "(default)") {
            let ws = split_words(lines[i].as_str());
            if ws.len() > 0 {
                out.push(copy_string(&ws[0]));
                assert(texts(out@) =~= before.push(ws@[0]@));
            }
        }
        i = i + 1;
    }
    assert(ls.take(ls.len() as int) =~= ls);
    out
}

/// Whether a target is among the listed ones.
pub fn is_target_listed(targets: &Vec<String>, target: &str) -> (r: bool)
    ensures
        r == texts(targets@).contains(target@),
{
    let mut i: usize = 0;
    while i < targets.len()
        invariant
            i <= targets@.len(),
            forall|j: int| 0 <= j < i ==> targets@[j]@ != target@,
        decreases targets@.len() - i,
    {
        if str_eq(targets[i].as_str(), target) {
            assert(texts(targets@)[i as int] == target@);
            return true;
        }
        i = i + 1;
    }
    proof {
        if texts(targets@).contains(target@) {
            let k = choose|k: int| 0 <= k < texts(targets@).len() && texts(targets@)[k] == target@;
            assert(targets@[k]@ == target@);
        }
    }
    false
}

/// Builds hooks.
pub struct HookBuilder {
    config: HookBuildConfig,
}

impl HookBuilder {
    /// The configuration.
    pub closed spec fn cfg(&self) -> HookBuildConfig {
        self.config
    }

    /// A builder with the default configuration.
    pub fn new() -> (r: Self)
        ensures
            r.cfg().hook_name@ == "hook"@,
            r.cfg().output_dir@ == "target/hooks"@,
            r.cfg().optimize,
    {
        HookBuilder { config: HookBuildConfig::default() }
    }

    /// A builder with a configuration.
    pub fn with_config(config: HookBuildConfig) -> (r: Self)
        ensures
            r.cfg() == config,
    {
        HookBuilder { config }
    }

    /// The configuration.
    pub fn config(&self) -> (r: &HookBuildConfig)
        ensures
            *r == self.cfg(),
    {
        &self.config
    }

    /// The arguments of the Cargo build a configuration calls for.
    pub fn cargo_build_args(&self, config: &HookBuildConfig) -> (r: Vec<String>)
        ensures
            texts(r@) == cargo_args(*config),
    {
        let mut args: Vec<String> = vec!["build".to_owned()];
        if config.optimize {
            args.push("--release".to_owned());
        }
        match &config.target {
            Some(t) => {
                args.push("--target".to_owned());
                args.push(copy_string(t));
            },
            None => {},
        }
        if config.features.len() > 0 {
            args.push("--features".to_owned());
            let mut joined = copy_string(&config.features[0]);
            let ghost fs = texts(config.features@);
            assert(fs.take(1) =~= seq![fs[0]]);
            let mut i: usize = 1;
            while i < config.features.len()
                invariant
                    1 <= i <= config.features@.len(),
                    fs == texts(config.features@),
                    joined@ == comma_joined(fs.take(i as int)),
                decreases config.features@.len() - i,
            {
                joined.append(",");
                joined.append(config.features[i].as_str());
                assert(fs.take(i + 1).drop_last() =~= fs.take(i as int));
                i = i + 1;
            }
            assert(fs.take(i as int) =~= fs);
            args.push(joined);
        }
        assert(texts(args@) =~= cargo_args(*config));
        args
    }

    /// Where Cargo leaves the binary of a configuration.
    pub fn source_binary_path(&self, config: &HookBuildConfig) -> (r: String)
        ensures
            r@ == source_binary_of(*config),
    {
        let base = match &config.target {
            Some(t) => join_path("target", t.as_str()),
            None => "target".to_owned(),
        };
        let profile = if config.optimize {
            "release"
        } else {
            "debug"
        };
        let dir = join_path(base.as_str(), profile);
        join_path(dir.as_str(), config.hook_name.as_str())
    }

    /// Where the built binary goes: the hook's name under the output
    /// directory.
    pub fn output_binary_path(&self, config: &HookBuildConfig) -> (r: String)
        ensures
            r@ == path_join(config.output_dir@, config.hook_name@),
    {
        join_path(config.output_dir.as_str(), config.hook_name.as_str())
    }

    /// Where the hook's metadata goes: `<hook>.json` under the output
    /// directory.
    pub fn metadata_path(&self, config: &HookBuildConfig) -> (r: String)
        ensures
            r@ == path_join(config.output_dir@, config.hook_name@ + ".json"@),
    {
        let mut name = copy_string(&config.hook_name);
        name.append(".json");
        join_path(config.output_dir.as_str(), name.as_str())
    }

    /// The metadata of a hook built with a configuration, stamped now.
    pub fn generate_metadata(&self, config: &HookBuildConfig) -> (r: Result<HookMetadata, String>)
        ensures
            r matches Ok(m) && {
                &&& m.name@ == config.hook_name@
                &&& m.description is None
                &&& (m.version matches Some(v) && v@ == "0.1.0"@)
                &&& m.author is None
                &&& m.dependencies@.len() == 0
                &&& texts(m.supported_hooks@) == seq!["pre-commit"@, "pre-push"@]
                &&& m.requires_wasm == config.link_wasm
                &&& texts(m.wasm_dependencies@) == component_names(texts(config.wasm_components@))
            },
    {
        let ghost ps = texts(config.wasm_components@);
        let mut deps: Vec<String> = Vec::new();
        let mut i: usize = 0;
        while i < config.wasm_components.len()
            invariant
                i <= config.wasm_components@.len(),
                ps == texts(config.wasm_components@),
                texts(deps@) == component_names(ps).take(i as int),
            decreases config.wasm_components@.len() - i,
        {
            let n = match file_name(config.wasm_components[i].as_str()) {
                Some(f) => f,
                None => String::new(),
            };
            let ghost before = texts(deps@);
            assert(ps[i as int] == config.wasm_components@[i as int]@);
            assert(n@ == component_names(ps)[i as int]);
            let ghost nv = n@;
            deps.push(n);
            assert(texts(deps@) =~= before.push(nv));
            assert(component_names(ps).take(i + 1) =~= component_names(ps).take(i as int).push(nv));
            assert(texts(deps@) =~= component_names(ps).take(i + 1));
            i = i + 1;
        }
        assert(component_names(ps).take(i as int) =~= component_names(ps));
        let supported = vec!["pre-commit".to_owned(), "pre-push".to_owned()];
        assert(texts(supported@) =~= seq!["pre-commit"@, "pre-push"@]);
        Ok(HookMetadata {
            name: copy_string(&config.hook_name),
            description: None,
            version: Some("0.1.0".to_owned()),
            author: None,
            dependencies: Vec::new(),
            supported_hooks: supported,
            requires_wasm: config.link_wasm,
            wasm_dependencies: deps,
            build_timestamp: utc_now_rfc3339(),
        })
    }

    /// Whether a target is among the installed ones.
    pub fn is_target_supported(&self, targets: &Vec<String>, target: &str) -> (r: Result<bool, String>)
        ensures
            r == Ok::<bool, String>(texts(targets@).contains(target@)),
    {
        Ok(is_target_listed(targets, target))
    }
}

/// The result of a successful build: the binary, Cargo's output, the
/// build time and the binary's size.
pub fn build_succeeded(binary_path: String, output: String, build_time_ms: u64, binary_size: u64) -> (r: HookBuildResult)
    ensures
        r.success,
        r.binary_path matches Some(p) && p@ == binary_path@,
        r.output@ == output@,
        r.error is None,
        r.metadata@.map_values(|e: (String, String)| (e.0@, e.1@)) == seq![
            ("build_time_ms"@, decimal_text(build_time_ms as nat)),
            ("binary_size"@, decimal_text(binary_size as nat)),
        ],
        r.build_time_ms == build_time_ms,
{
    let metadata = vec![
        ("build_time_ms".to_owned(), decimal_string(build_time_ms)),
        ("binary_size".to_owned(), decimal_string(binary_size)),
    ];
    assert(metadata@.map_values(|e: (String, String)| (e.0@, e.1@)) =~= seq![
        ("build_time_ms"@, decimal_text(build_time_ms as nat)),
        ("binary_size"@, decimal_text(binary_size as nat)),
    ]);
    HookBuildResult { success: true, binary_path: Some(binary_path), output, error: None, metadata, build_time_ms }
}

/// The metadata of an installed hook with no metadata file, stamped now.
pub fn basic_metadata(name: String) -> (r: HookMetadata)
    ensures
        r.name@ == name@,
        r.description is None,
        r.version is None,
        r.author is None,
        r.dependencies@.len() == 0,
        r.supported_hooks@.len() == 0,
        !r.requires_wasm,
        r.wasm_dependencies@.len() == 0,
{
    HookMetadata {
        name,
        description: None,
        version: None,
        author: None,
        dependencies: Vec::new(),
        supported_hooks: Vec::new(),
        requires_wasm: false,
        wasm_dependencies: Vec::new(),
        build_timestamp: utc_now_rfc3339(),
    }
}

} // verus!
