//! The Lefthook configuration that ties built hooks and components into
//! the Git workflow.

use vstd::prelude::*;
use crate::json::JsonValue;
use crate::named_map::{lookup, NamedMap};
use crate::sarif::texts;
use crate::sarif_roles::first_key_index;
use crate::text::{decimal_string, decimal_text};

verus! {

/// One Lefthook hook.
#[derive(Debug, Clone)]
pub struct LefthookHook {
    /// Command to execute
    pub command: String,
    /// Files to run on
    pub files: Option<String>,
    /// Whether to run in parallel
    pub parallel: Option<bool>,
    /// Environment variables
    pub env: Option<Vec<(String, String)>>,
}

/// A Lefthook configuration.
#[derive(Debug, Clone)]
pub struct LefthookConfig {
    /// Pre-commit hooks
    pub pre_commit: Option<NamedMap<LefthookHook>>,
    /// Pre-push hooks
    pub pre_push: Option<NamedMap<LefthookHook>>,
    /// Commit-msg hooks
    pub commit_msg: Option<NamedMap<LefthookHook>>,
    /// Global configuration
    pub config: Option<Vec<(String, JsonValue)>>,
}

impl Default for LefthookConfig {
    fn default() -> (r: Self)
        ensures
            r.pre_commit is None,
            r.pre_push is None,
            r.commit_msg is None,
            r.config is None,
    {
        LefthookConfig { pre_commit: None, pre_push: None, commit_msg: None, config: None }
    }
}

/// A hook as plain values: command, files, parallel, and whether it has
/// environment variables.
pub open spec fn hook_view(h: LefthookHook) -> (Seq<char>, Option<Seq<char>>, Option<bool>, bool) {
    (
        h.command@,
        match h.files {
            Some(f) => Some(f@),
            None => None,
        },
        h.parallel,
        h.env is Some,
    )
}

/// The hooks of a table as plain values, by name.
pub open spec fn hook_views(es: Seq<(Seq<char>, LefthookHook)>) -> Seq<(Seq<char>, (Seq<char>, Option<Seq<char>>, Option<bool>, bool))> {
    es.map_values(|e: (Seq<char>, LefthookHook)| (e.0, hook_view(e.1)))
}

/// The pre-commit hooks for components, numbered from `from`.
pub open spec fn component_hooks(hooks_dir: Seq<char>, components: Seq<Seq<char>>, from: nat) -> Seq<
    (Seq<char>, (Seq<char>, Option<Seq<char>>, Option<bool>, bool)),
>
    decreases components.len(),
{
    if components.len() == 0 {
        Seq::empty()
    } else {
        component_hooks(hooks_dir, components.drop_last(), from) + seq![
            (
                "hooksmith-wasm-"@ + decimal_text((from + components.len() - 1) as nat),
                (hooks_dir + "/wasm-runner "@ + components.last(), Some("*.wit"@), Some(true), false),
            ),
        ]
    }
}

/// The pre-commit hooks of the configuration.
pub open spec fn pre_commit_views(hooks_dir: Seq<char>, components: Option<Seq<Seq<char>>>) -> Seq<
    (Seq<char>, (Seq<char>, Option<Seq<char>>, Option<bool>, bool)),
> {
    seq![("hooksmith-build"@, (hooks_dir + "/build-hook"@, Some("*.rs"@), Some(false), false))] + match components {
        Some(cs) => component_hooks(hooks_dir, cs, 0),
        None => Seq::empty(),
    }
}

/// The pre-push hooks of the configuration.
pub open spec fn pre_push_views(hooks_dir: Seq<char>) -> Seq<(Seq<char>, (Seq<char>, Option<Seq<char>>, Option<bool>, bool))> {
    seq![("hooksmith-test"@, (hooks_dir + "/test-hook"@, None, Some(false), false))]
}

/// The Lefthook configuration for built hooks and components: a build
/// hook and one runner per component before each commit, a test hook
/// before each push.
pub fn lefthook_config_for(hooks_dir: &str, wasm_components: Option<Vec<String>>) -> (r: LefthookConfig)
    ensures
        r.pre_commit matches Some(m) && hook_views(m.entries()) == pre_commit_views(
            hooks_dir@,
            match wasm_components {
                Some(cs) => Some(texts(cs@)),
                None => None,
            },
        ),
        r.pre_push matches Some(m) && hook_views(m.entries()) == pre_push_views(hooks_dir@),
        r.commit_msg is None,
        r.config is None,
{
    proof {
        reveal_strlit("hooksmith-build");
        reveal_strlit("hooksmith-wasm-");
    }
    let mut pre_commit: NamedMap<LefthookHook> = NamedMap::new();
    let mut cmd = hooks_dir.to_owned();
    cmd.append("/build-hook");
    pre_commit.insert(
        "hooksmith-build".to_owned(),
        LefthookHook { command: cmd, files: Some("*.rs".to_owned()), parallel: Some(false), env: None },
    );
    let ghost base = seq![("hooksmith-build"@, (hooks_dir@ + "/build-hook"@, Some("*.rs"@), Some(false), false))];
    assert(hook_views(pre_commit.entries()) =~= base);
    match wasm_components {
        Some(components) => {
            let ghost cs = texts(components@);
            let mut i: usize = 0;
            while i < components.len()
                invariant
                    i <= components@.len(),
                    cs == texts(components@),
                    hook_views(pre_commit.entries()) == base + component_hooks(hooks_dir@, cs.take(i as int), 0),
                    forall|j: int| 1 <= j < pre_commit.entries().len() ==> (#[trigger] pre_commit.entries()[j]).0.len() > 15
                        && pre_commit.entries()[j].0.subrange(0, 15) == "hooksmith-wasm-"@ && pre_commit.entries()[j].0.subrange(
                        15,
                        pre_commit.entries()[j].0.len() as int,
                    ) == decimal_text((j - 1) as nat),
                    pre_commit.entries().len() == i + 1,
                    pre_commit.entries()[0].0 == "hooksmith-build"@,
                decreases components@.len() - i,
            {
                let mut name = "hooksmith-wasm-".to_owned();
                let num = decimal_string(i as u64);
                name.append(num.as_str());
                let mut command = hooks_dir.to_owned();
                command.append("/wasm-runner ");
                command.append(components[i].as_str());
                let ghost before = pre_commit.entries();
                proof {
                    reveal_strlit("hooksmith-wasm-");
                    reveal_strlit("hooksmith-build");
                }
                assert("hooksmith-wasm-"@.len() == 15);
                assert(name@ == "hooksmith-wasm-"@ + decimal_text(i as nat));
                assert(name@.subrange(15, name@.len() as int) =~= decimal_text(i as nat));
                proof {
                    crate::sarif_roles::lemma_first_key_found(before, name@);
                    assert forall|j: int| 0 <= j < before.len() implies before[j].0 != name@ by {
                        if j == 0 {
                            assert(before[0].0 == "hooksmith-build"@);
                            crate::text::lemma_decimal_nonempty(i as nat);
                            assert(name@.len() > 15);
                        } else {
                            crate::text::lemma_decimal_injective((j - 1) as nat, i as nat);
                            assert(name@.subrange(15, name@.len() as int) =~= decimal_text(i as nat));
                        }
                    }
                }
                assert(crate::sarif_roles::first_key_index(before, name@) is None);
                let h = LefthookHook { command, files: Some("*.wit".to_owned()), parallel: Some(true), env: None };
                let ghost hv = hook_view(h);
                let ghost nv = name@;
                assert(hv == (hooks_dir@ + "/wasm-runner "@ + cs[i as int], Some("*.wit"@), Some(true), false));
                pre_commit.insert(name, h);
                assert(pre_commit.entries() == before.push((nv, h)));
                assert(hook_views(pre_commit.entries()) =~= hook_views(before).push((nv, hv)));
                assert(cs.take(i + 1).drop_last() =~= cs.take(i as int));
                assert(cs.take(i + 1).last() == cs[i as int]);
                assert(hook_views(pre_commit.entries()) =~= base + component_hooks(hooks_dir@, cs.take(i + 1), 0));
                i = i + 1;
            }
            assert(cs.take(cs.len() as int) =~= cs);
        },
        None => {},
    }
    let mut pre_push: NamedMap<LefthookHook> = NamedMap::new();
    let mut test_cmd = hooks_dir.to_owned();
    test_cmd.append("/test-hook");
    pre_push.insert(
        "hooksmith-test".to_owned(),
        LefthookHook { command: test_cmd, files: None, parallel: Some(false), env: None },
    );
    assert(hook_views(pre_push.entries()) =~= pre_push_views(hooks_dir@));
    LefthookConfig { pre_commit: Some(pre_commit), pre_push: Some(pre_push), commit_msg: None, config: None }
}

} // verus!
