//! The standalone functional contract pipeline: a hook event names its
//! concerns, each concern is snapshot, registered contracts give the
//! expected data, and verification lists the differences between what was
//! observed and what was expected.

use vstd::prelude::*;
use crate::json::{JsonValue, JsonView, fields_view, json_text, json_eq, copy_fields};
use crate::concerns::{empty_lists, single, empty_lists_of, single_of, empty_object, empty_list};
use crate::outside::{sha256_hex, sha256_hex_of, utc_now_rfc3339};
use crate::text::push_decimal;
use crate::text::decimal_text;

verus! {

/// Hook event that triggers the validation pipeline.
#[derive(Debug, Clone, Copy, PartialEq, Eq, Structural, Hash)]
pub enum HookEvent {
    /// The `PreCommit` hook
    PreCommit,
    /// The `PrePush` hook
    PrePush,
    /// The `PreReceive` hook
    PreReceive,
    /// The `PostReceive` hook
    PostReceive,
    /// The `Update` hook
    Update,
    /// The `PostUpdate` hook
    PostUpdate,
    /// The `PreAutoGc` hook
    PreAutoGc,
    /// The `PostMerge` hook
    PostMerge,
    /// The `PreRebase` hook
    PreRebase,
    /// The `PostCheckout` hook
    PostCheckout,
    /// The `PostCommit` hook
    PostCommit,
    /// The `PreApplyPatch` hook
    PreApplyPatch,
    /// The `PostApplyPatch` hook
    PostApplyPatch,
    /// The `PreReBase` hook
    PreReBase,
    /// The `PostReBase` hook
    PostReBase,
    /// The `PreCommitMsg` hook
    PreCommitMsg,
    /// The `CommitMsg` hook
    CommitMsg,
    /// The `PostCommitMsg` hook
    PostCommitMsg,
    /// The `PostRebase` hook
    PostRebase,
    /// The `PreRebaseAuto` hook
    PreRebaseAuto,
    /// The `PostRebaseAuto` hook
    PostRebaseAuto,
    /// The `PreRebaseAutoStash` hook
    PreRebaseAutoStash,
    /// The `PostRebaseAutoStash` hook
    PostRebaseAutoStash,
    /// The `PreRebaseAutoStashClean` hook
    PreRebaseAutoStashClean,
    /// The `PostRebaseAutoStashClean` hook
    PostRebaseAutoStashClean,
    /// The `PreRebaseAutoStashRestore` hook
    PreRebaseAutoStashRestore,
    /// The `PostRebaseAutoStashRestore` hook
    PostRebaseAutoStashRestore,
    /// The `PreRebaseAutoStashRestoreClean` hook
    PreRebaseAutoStashRestoreClean,
    /// The `PostRebaseAutoStashRestoreClean` hook
    PostRebaseAutoStashRestoreClean,
    /// The `PreRebaseAutoStashRestoreRestore` hook
    PreRebaseAutoStashRestoreRestore,
    /// The `PostRebaseAutoStashRestoreRestore` hook
    PostRebaseAutoStashRestoreRestore,
    /// The `PreRebaseAutoStashRestoreRestoreClean` hook
    PreRebaseAutoStashRestoreRestoreClean,
    /// The `PostRebaseAutoStashRestoreRestoreClean` hook
    PostRebaseAutoStashRestoreRestoreClean,
}

/// Concern symbol that identifies a specific Git concern.
#[derive(Debug, Clone, Copy, PartialEq, Eq, Structural, Hash)]
pub enum ConcernSymbol {
    /// The `Blob` concern
    Blob,
    /// The `Tree` concern
    Tree,
    /// The `Commit` concern
    Commit,
    /// The `Tag` concern
    Tag,
    /// The `TreeFile` concern
    TreeFile,
    /// The `TreeExecutable` concern
    TreeExecutable,
    /// The `TreeSymlink` concern
    TreeSymlink,
    /// The `TreeDirectory` concern
    TreeDirectory,
    /// The `TreeSubmodule` concern
    TreeSubmodule,
    /// The `Ref` concern
    Ref,
    /// The `Note` concern
    Note,
    /// The `Attr` concern
    Attr,
    /// The `Index` concern
    Index,
    /// The `Stash` concern
    Stash,
    /// The `Worktree` concern
    Worktree,
    /// The `Remote` concern
    Remote,
    /// The `Branch` concern
    Branch,
    /// The `Head` concern
    Head,
    /// The `Reflog` concern
    Reflog,
    /// The `ConfigUser` concern
    ConfigUser,
    /// The `ConfigCore` concern
    ConfigCore,
    /// The `ConfigBranch` concern
    ConfigBranch,
    /// The `ConfigRemote` concern
    ConfigRemote,
    /// The `ConfigInit` concern
    ConfigInit,
    /// The `ConfigColor` concern
    ConfigColor,
    /// The `ConfigAlias` concern
    ConfigAlias,
    /// The `ConfigDiff` concern
    ConfigDiff,
    /// The `ConfigMerge` concern
    ConfigMerge,
    /// The `ConfigGpg` concern
    ConfigGpg,
    /// The `ConfigCommit` concern
    ConfigCommit,
    /// The `ConfigPull` concern
    ConfigPull,
    /// The `ConfigPush` concern
    ConfigPush,
    /// The `ConfigRebase` concern
    ConfigRebase,
    /// The `ConfigFetch` concern
    ConfigFetch,
    /// The `ConfigStatus` concern
    ConfigStatus,
    /// The `ConfigTar` concern
    ConfigTar,
    /// The `ConfigRerere` concern
    ConfigRerere,
    /// The `ConfigAdvice` concern
    ConfigAdvice,
    /// The `ConfigInteractive` concern
    ConfigInteractive,
    /// The `ConfigSubmodule` concern
    ConfigSubmodule,
    /// The `ConfigFilter` concern
    ConfigFilter,
    /// The `ConfigInclude` concern
    ConfigInclude,
    /// The `ConfigCredential` concern
    ConfigCredential,
    /// The `ConfigHttp` concern
    ConfigHttp,
    /// The `ConfigUrl` concern
    ConfigUrl,
    /// The `ConfigSafe` concern
    ConfigSafe,
    /// The `ConfigNotes` concern
    ConfigNotes,
    /// The `ConfigGc` concern
    ConfigGc,
    /// The `ConfigMaintenance` concern
    ConfigMaintenance,
    /// The `ConfigPager` concern
    ConfigPager,
    /// The `ConfigWorktree` concern
    ConfigWorktree,
    /// The `AttrLineEndingNormalization` concern
    AttrLineEndingNormalization,
    /// The `AttrDiffStrategy` concern
    AttrDiffStrategy,
    /// The `AttrMergeStrategy` concern
    AttrMergeStrategy,
    /// The `AttrExportControl` concern
    AttrExportControl,
    /// The `AttrFilterDriver` concern
    AttrFilterDriver,
    /// The `AttrExternalToolHint` concern
    AttrExternalToolHint,
    /// The `AttrLockingHint` concern
    AttrLockingHint,
}

impl ConcernSymbol {
    /// The name of the concern, as text.
    pub open spec fn name_text(self) -> Seq<char> {
        match self {
            ConcernSymbol::Blob => "Blob"@,
            ConcernSymbol::Tree => "Tree"@,
            ConcernSymbol::Commit => "Commit"@,
            ConcernSymbol::Tag => "Tag"@,
            ConcernSymbol::TreeFile => "TreeFile"@,
            ConcernSymbol::TreeExecutable => "TreeExecutable"@,
            ConcernSymbol::TreeSymlink => "TreeSymlink"@,
            ConcernSymbol::TreeDirectory => "TreeDirectory"@,
            ConcernSymbol::TreeSubmodule => "TreeSubmodule"@,
            ConcernSymbol::Ref => "Ref"@,
            ConcernSymbol::Note => "Note"@,
            ConcernSymbol::Attr => "Attr"@,
            ConcernSymbol::Index => "Index"@,
            ConcernSymbol::Stash => "Stash"@,
            ConcernSymbol::Worktree => "Worktree"@,
            ConcernSymbol::Remote => "Remote"@,
            ConcernSymbol::Branch => "Branch"@,
            ConcernSymbol::Head => "Head"@,
            ConcernSymbol::Reflog => "Reflog"@,
            ConcernSymbol::ConfigUser => "ConfigUser"@,
            ConcernSymbol::ConfigCore => "ConfigCore"@,
            ConcernSymbol::ConfigBranch => "ConfigBranch"@,
            ConcernSymbol::ConfigRemote => "ConfigRemote"@,
            ConcernSymbol::ConfigInit => "ConfigInit"@,
            ConcernSymbol::ConfigColor => "ConfigColor"@,
            ConcernSymbol::ConfigAlias => "ConfigAlias"@,
            ConcernSymbol::ConfigDiff => "ConfigDiff"@,
            ConcernSymbol::ConfigMerge => "ConfigMerge"@,
            ConcernSymbol::ConfigGpg => "ConfigGpg"@,
            ConcernSymbol::ConfigCommit => "ConfigCommit"@,
            ConcernSymbol::ConfigPull => "ConfigPull"@,
            ConcernSymbol::ConfigPush => "ConfigPush"@,
            ConcernSymbol::ConfigRebase => "ConfigRebase"@,
            ConcernSymbol::ConfigFetch => "ConfigFetch"@,
            ConcernSymbol::ConfigStatus => "ConfigStatus"@,
            ConcernSymbol::ConfigTar => "ConfigTar"@,
            ConcernSymbol::ConfigRerere => "ConfigRerere"@,
            ConcernSymbol::ConfigAdvice => "ConfigAdvice"@,
            ConcernSymbol::ConfigInteractive => "ConfigInteractive"@,
            ConcernSymbol::ConfigSubmodule => "ConfigSubmodule"@,
            ConcernSymbol::ConfigFilter => "ConfigFilter"@,
            ConcernSymbol::ConfigInclude => "ConfigInclude"@,
            ConcernSymbol::ConfigCredential => "ConfigCredential"@,
            ConcernSymbol::ConfigHttp => "ConfigHttp"@,
            ConcernSymbol::ConfigUrl => "ConfigUrl"@,
            ConcernSymbol::ConfigSafe => "ConfigSafe"@,
            ConcernSymbol::ConfigNotes => "ConfigNotes"@,
            ConcernSymbol::ConfigGc => "ConfigGc"@,
            ConcernSymbol::ConfigMaintenance => "ConfigMaintenance"@,
            ConcernSymbol::ConfigPager => "ConfigPager"@,
            ConcernSymbol::ConfigWorktree => "ConfigWorktree"@,
            ConcernSymbol::AttrLineEndingNormalization => "AttrLineEndingNormalization"@,
            ConcernSymbol::AttrDiffStrategy => "AttrDiffStrategy"@,
            ConcernSymbol::AttrMergeStrategy => "AttrMergeStrategy"@,
            ConcernSymbol::AttrExportControl => "AttrExportControl"@,
            ConcernSymbol::AttrFilterDriver => "AttrFilterDriver"@,
            ConcernSymbol::AttrExternalToolHint => "AttrExternalToolHint"@,
            ConcernSymbol::AttrLockingHint => "AttrLockingHint"@,
        }
    }

    /// The name of the concern.
    pub fn name(&self) -> (r: &'static str)
        ensures
            r@ == self.name_text(),
    {
        match self {
            ConcernSymbol::Blob => "Blob",
            ConcernSymbol::Tree => "Tree",
            ConcernSymbol::Commit => "Commit",
            ConcernSymbol::Tag => "Tag",
            ConcernSymbol::TreeFile => "TreeFile",
            ConcernSymbol::TreeExecutable => "TreeExecutable",
            ConcernSymbol::TreeSymlink => "TreeSymlink",
            ConcernSymbol::TreeDirectory => "TreeDirectory",
            ConcernSymbol::TreeSubmodule => "TreeSubmodule",
            ConcernSymbol::Ref => "Ref",
            ConcernSymbol::Note => "Note",
            ConcernSymbol::Attr => "Attr",
            ConcernSymbol::Index => "Index",
            ConcernSymbol::Stash => "Stash",
            ConcernSymbol::Worktree => "Worktree",
            ConcernSymbol::Remote => "Remote",
            ConcernSymbol::Branch => "Branch",
            ConcernSymbol::Head => "Head",
            ConcernSymbol::Reflog => "Reflog",
            ConcernSymbol::ConfigUser => "ConfigUser",
            ConcernSymbol::ConfigCore => "ConfigCore",
            ConcernSymbol::ConfigBranch => "ConfigBranch",
            ConcernSymbol::ConfigRemote => "ConfigRemote",
            ConcernSymbol::ConfigInit => "ConfigInit",
            ConcernSymbol::ConfigColor => "ConfigColor",
            ConcernSymbol::ConfigAlias => "ConfigAlias",
            ConcernSymbol::ConfigDiff => "ConfigDiff",
            ConcernSymbol::ConfigMerge => "ConfigMerge",
            ConcernSymbol::ConfigGpg => "ConfigGpg",
            ConcernSymbol::ConfigCommit => "ConfigCommit",
            ConcernSymbol::ConfigPull => "ConfigPull",
            ConcernSymbol::ConfigPush => "ConfigPush",
            ConcernSymbol::ConfigRebase => "ConfigRebase",
            ConcernSymbol::ConfigFetch => "ConfigFetch",
            ConcernSymbol::ConfigStatus => "ConfigStatus",
            ConcernSymbol::ConfigTar => "ConfigTar",
            ConcernSymbol::ConfigRerere => "ConfigRerere",
            ConcernSymbol::ConfigAdvice => "ConfigAdvice",
            ConcernSymbol::ConfigInteractive => "ConfigInteractive",
            ConcernSymbol::ConfigSubmodule => "ConfigSubmodule",
            ConcernSymbol::ConfigFilter => "ConfigFilter",
            ConcernSymbol::ConfigInclude => "ConfigInclude",
            ConcernSymbol::ConfigCredential => "ConfigCredential",
            ConcernSymbol::ConfigHttp => "ConfigHttp",
            ConcernSymbol::ConfigUrl => "ConfigUrl",
            ConcernSymbol::ConfigSafe => "ConfigSafe",
            ConcernSymbol::ConfigNotes => "ConfigNotes",
            ConcernSymbol::ConfigGc => "ConfigGc",
            ConcernSymbol::ConfigMaintenance => "ConfigMaintenance",
            ConcernSymbol::ConfigPager => "ConfigPager",
            ConcernSymbol::ConfigWorktree => "ConfigWorktree",
            ConcernSymbol::AttrLineEndingNormalization => "AttrLineEndingNormalization",
            ConcernSymbol::AttrDiffStrategy => "AttrDiffStrategy",
            ConcernSymbol::AttrMergeStrategy => "AttrMergeStrategy",
            ConcernSymbol::AttrExportControl => "AttrExportControl",
            ConcernSymbol::AttrFilterDriver => "AttrFilterDriver",
            ConcernSymbol::AttrExternalToolHint => "AttrExternalToolHint",
            ConcernSymbol::AttrLockingHint => "AttrLockingHint",
        }
    }
}

/// The concerns a hook event is about, in order; none for the hooks that
/// have no concerns yet.
pub open spec fn hook_concerns(h: HookEvent) -> Seq<ConcernSymbol> {
    match h {
        HookEvent::PreCommit => seq![ConcernSymbol::Index, ConcernSymbol::AttrLineEndingNormalization, ConcernSymbol::AttrDiffStrategy],
        HookEvent::PrePush => seq![ConcernSymbol::Ref, ConcernSymbol::Branch, ConcernSymbol::Remote, ConcernSymbol::TreeExecutable, ConcernSymbol::AttrLineEndingNormalization],
        HookEvent::PreReceive => seq![ConcernSymbol::Ref, ConcernSymbol::Branch, ConcernSymbol::Remote],
        HookEvent::PostReceive => seq![ConcernSymbol::Ref, ConcernSymbol::Branch, ConcernSymbol::Remote],
        HookEvent::Update => seq![ConcernSymbol::Ref, ConcernSymbol::Branch],
        HookEvent::PostUpdate => seq![ConcernSymbol::Ref, ConcernSymbol::Branch],
        HookEvent::PreAutoGc => seq![ConcernSymbol::ConfigGc],
        HookEvent::PostMerge => seq![ConcernSymbol::Commit, ConcernSymbol::Tree, ConcernSymbol::Ref],
        HookEvent::PreRebase => seq![ConcernSymbol::Ref, ConcernSymbol::Branch, ConcernSymbol::ConfigRebase],
        HookEvent::PostCheckout => seq![ConcernSymbol::Head, ConcernSymbol::Ref, ConcernSymbol::Index],
        HookEvent::PostCommit => seq![ConcernSymbol::Commit, ConcernSymbol::Ref, ConcernSymbol::Head],
        HookEvent::PreApplyPatch => seq![ConcernSymbol::Index, ConcernSymbol::AttrDiffStrategy],
        HookEvent::PostApplyPatch => seq![ConcernSymbol::Index, ConcernSymbol::Commit],
        HookEvent::PreReBase => seq![ConcernSymbol::Ref, ConcernSymbol::Branch, ConcernSymbol::ConfigRebase],
        HookEvent::PostReBase => seq![ConcernSymbol::Ref, ConcernSymbol::Branch, ConcernSymbol::Commit],
        HookEvent::PreCommitMsg => seq![ConcernSymbol::ConfigCommit, ConcernSymbol::ConfigUser],
        HookEvent::CommitMsg => seq![ConcernSymbol::ConfigCommit, ConcernSymbol::ConfigUser],
        HookEvent::PostCommitMsg => seq![ConcernSymbol::Commit, ConcernSymbol::Ref],
        _ => Seq::empty(),
    }
}


/// Types of contract rules.
#[derive(Debug, Clone, Copy, PartialEq, Eq, Structural)]
pub enum RuleType {
    /// JSON Schema validation
    JsonSchema,
    /// Pattern matching (regex)
    Pattern,
    /// File size limits
    FileSize,
    /// File extension validation
    FileExtension,
    /// Custom validation function
    Custom,
}

/// Rule severity levels.
#[derive(Debug, Clone, Copy, PartialEq, Eq, Structural)]
pub enum RuleSeverity {
    /// Information only
    Info,
    /// Warning
    Warning,
    /// Error
    Error,
    /// Critical error
    Critical,
}

/// Types of validation differences.
#[derive(Debug, Clone, Copy, PartialEq, Eq, Structural)]
pub enum DiffType {
    /// Missing expected concern
    Missing,
    /// Unexpected observed concern
    Unexpected,
    /// Value mismatch
    Mismatch,
    /// Schema validation failure
    SchemaViolation,
    /// Rule violation
    RuleViolation,
}

/// Snapshot of a concern's current state.
#[derive(Debug, Clone)]
pub struct ConcernSnapshot {
    /// The concern symbol
    pub concern: ConcernSymbol,
    /// Snapshot data as JSON
    pub data: JsonValue,
    /// Timestamp of snapshot
    pub timestamp: String,
    /// Hash of the snapshot data
    pub hash: String,
    /// Additional metadata, in key order
    pub metadata: Vec<(String, JsonValue)>,
}

/// Observed concern snapshots, one per concern.
#[derive(Debug, Clone)]
pub struct ObservedConcernSet {
    /// The snapshot of each concern, in the order the concerns were first seen
    pub snapshots: Vec<(ConcernSymbol, ConcernSnapshot)>,
    /// Hook event that triggered this observation
    pub hook_event: HookEvent,
    /// Timestamp of the observation
    pub timestamp: String,
}

/// Individual rule within a contract.
#[derive(Debug, Clone)]
pub struct ContractRule {
    /// Rule name
    pub name: String,
    /// Rule description
    pub description: Option<String>,
    /// Rule type
    pub rule_type: RuleType,
    /// Rule parameters, in key order
    pub parameters: Vec<(String, JsonValue)>,
    /// Whether rule is required
    pub required: bool,
    /// Rule severity
    pub severity: RuleSeverity,
}

/// Contract specification for a concern.
#[derive(Debug, Clone)]
pub struct ContractSpec {
    /// Contract name
    pub name: String,
    /// Contract version
    pub version: String,
    /// Concern this contract applies to
    pub concern: ConcernSymbol,
    /// Contract rules
    pub rules: Vec<ContractRule>,
    /// Contract metadata, in key order
    pub metadata: Vec<(String, JsonValue)>,
}

/// Expected snapshot based on contract rules.
#[derive(Debug, Clone)]
pub struct ExpectedSnapshot {
    /// The concern symbol
    pub concern: ConcernSymbol,
    /// Expected data as JSON
    pub data: JsonValue,
    /// Contract that generated this expectation
    pub contract: String,
    /// Contract version
    pub contract_version: String,
    /// Additional metadata, in key order
    pub metadata: Vec<(String, JsonValue)>,
}

/// Expected concern snapshots, one per concern.
#[derive(Debug, Clone)]
pub struct ExpectedConcernSet {
    /// The expected snapshot of each concern, in the order the concerns were first seen
    pub snapshots: Vec<(ConcernSymbol, ExpectedSnapshot)>,
    /// Hook event that triggered this expectation
    pub hook_event: HookEvent,
    /// Timestamp of the expectation
    pub timestamp: String,
}

/// A difference between what was observed and what was expected.
#[derive(Debug, Clone)]
pub struct ValidationDiff {
    /// Concern that has a difference
    pub concern: ConcernSymbol,
    /// Type of difference
    pub diff_type: DiffType,
    /// Description of the difference
    pub description: String,
    /// Observed value
    pub observed: Option<JsonValue>,
    /// Expected value
    pub expected: Option<JsonValue>,
    /// Severity of the difference
    pub severity: RuleSeverity,
    /// Additional metadata, in key order
    pub metadata: Vec<(String, JsonValue)>,
}

/// The differences of a validation.
#[derive(Debug, Clone)]
pub struct DiffSet {
    /// List of differences
    pub diffs: Vec<ValidationDiff>,
    /// Whether validation passed
    pub is_valid: bool,
    /// Summary of validation
    pub summary: String,
}

/// The data observed for a concern: what can be read, or an error object.
pub open spec fn observed_data(c: ConcernSymbol) -> JsonView {
    match c {
        ConcernSymbol::Index => empty_lists(seq!["staged_files"@, "unstaged_files"@, "untracked_files"@]),
        ConcernSymbol::AttrLineEndingNormalization => empty_lists(seq!["binary_files"@, "line_ending_rules"@, "text_files"@]),
        ConcernSymbol::AttrDiffStrategy => empty_lists(seq!["binary_files"@, "diff_rules"@]),
        ConcernSymbol::Ref => empty_lists(seq!["heads"@, "remotes"@, "tags"@]),
        ConcernSymbol::Branch => JsonView::Object(
            seq![("branches"@, JsonView::Array(Seq::empty())), ("current"@, JsonView::Str("main"@))],
        ),
        ConcernSymbol::Remote => single("remotes"@, JsonView::Array(Seq::empty())),
        ConcernSymbol::TreeExecutable => single("executable_files"@, JsonView::Array(Seq::empty())),
        ConcernSymbol::Commit => single("commits"@, JsonView::Array(Seq::empty())),
        ConcernSymbol::Tree => single("trees"@, JsonView::Array(Seq::empty())),
        ConcernSymbol::Head => single("head"@, JsonView::Str("refs/heads/main"@)),
        ConcernSymbol::ConfigCommit => single("commit_config"@, JsonView::Object(Seq::empty())),
        ConcernSymbol::ConfigUser => single("user_config"@, JsonView::Object(Seq::empty())),
        ConcernSymbol::ConfigGc => single("gc_config"@, JsonView::Object(Seq::empty())),
        ConcernSymbol::ConfigRebase => single("rebase_config"@, JsonView::Object(Seq::empty())),
        _ => single("error"@, JsonView::Str("Unimplemented concern snapshot"@)),
    }
}

/// The data a contract for a concern expects.
pub open spec fn expected_data(c: ConcernSymbol) -> JsonView {
    match c {
        ConcernSymbol::Index => empty_lists(seq!["staged_files"@, "unstaged_files"@, "untracked_files"@]),
        ConcernSymbol::AttrLineEndingNormalization => empty_lists(seq!["binary_files"@, "line_ending_rules"@, "text_files"@]),
        ConcernSymbol::AttrDiffStrategy => empty_lists(seq!["binary_files"@, "diff_rules"@]),
        _ => single("expected"@, JsonView::Str("default"@)),
    }
}

/// The first entry of concern `c`, if any.
pub open spec fn key_index<V>(entries: Seq<(ConcernSymbol, V)>, c: ConcernSymbol) -> Option<int>
    decreases entries.len(),
{
    if entries.len() == 0 {
        None
    } else {
        match key_index(entries.drop_last(), c) {
            Some(i) => Some(i),
            None => if entries.last().0 == c {
                Some(entries.len() - 1)
            } else {
                None
            },
        }
    }
}

/// The entries with `v` set for concern `c`: at its first entry, or added
/// at the end.
pub open spec fn set_key<V>(entries: Seq<(ConcernSymbol, V)>, c: ConcernSymbol, v: V) -> Seq<(ConcernSymbol, V)> {
    match key_index(entries, c) {
        Some(i) => entries.update(i, (c, v)),
        None => entries.push((c, v)),
    }
}

/// The observed data of each concern, once each, in first-seen order.
pub open spec fn archived(cs: Seq<ConcernSymbol>) -> Seq<(ConcernSymbol, JsonView)>
    decreases cs.len(),
{
    if cs.len() == 0 {
        Seq::empty()
    } else {
        set_key(archived(cs.drop_last()), cs.last(), observed_data(cs.last()))
    }
}

/// The concerns and data of observed snapshots.
pub open spec fn observed_entries(s: Seq<(ConcernSymbol, ConcernSnapshot)>) -> Seq<(ConcernSymbol, JsonView)> {
    s.map_values(|e: (ConcernSymbol, ConcernSnapshot)| (e.0, e.1.data@))
}

/// An expectation as plain values: data, contract and version.
pub type ExpectationView = (JsonView, Seq<char>, Seq<char>);

/// The concerns and expectations of expected snapshots.
pub open spec fn expected_views(s: Seq<(ConcernSymbol, ExpectedSnapshot)>) -> Seq<(ConcernSymbol, ExpectationView)> {
    s.map_values(|e: (ConcernSymbol, ExpectedSnapshot)| (e.0, (e.1.data@, e.1.contract@, e.1.contract_version@)))
}

/// The concerns and expected data of expected snapshots.
pub open spec fn expected_entries(s: Seq<(ConcernSymbol, ExpectedSnapshot)>) -> Seq<(ConcernSymbol, JsonView)> {
    s.map_values(|e: (ConcernSymbol, ExpectedSnapshot)| (e.0, e.1.data@))
}

/// The expectation of each contract's concern, once each, in first-seen
/// order: a later contract of a concern replaces an earlier one.
pub open spec fn expected_for(contracts: Seq<ContractSpec>) -> Seq<(ConcernSymbol, ExpectationView)>
    decreases contracts.len(),
{
    if contracts.len() == 0 {
        Seq::empty()
    } else {
        let c = contracts.last();
        set_key(expected_for(contracts.drop_last()), c.concern, (expected_data(c.concern), c.name@, c.version@))
    }
}

/// A rule as plain values.
pub open spec fn rule_view(r: ContractRule) -> (Seq<char>, Option<Seq<char>>, RuleType, Seq<(Seq<char>, JsonView)>, bool, RuleSeverity) {
    (
        r.name@,
        match r.description {
            Some(d) => Some(d@),
            None => None,
        },
        r.rule_type,
        fields_view(r.parameters@),
        r.required,
        r.severity,
    )
}

/// A contract as plain values.
pub open spec fn contract_view(c: ContractSpec) -> (Seq<char>, Seq<char>, ConcernSymbol, Seq<(Seq<char>, Option<Seq<char>>, RuleType, Seq<(Seq<char>, JsonView)>, bool, RuleSeverity)>, Seq<(Seq<char>, JsonView)>) {
    (c.name@, c.version@, c.concern, c.rules@.map_values(|r: ContractRule| rule_view(r)), fields_view(c.metadata@))
}

/// The registered contracts of `concerns`, in order, skipping concerns
/// without one.
pub open spec fn mapped(stored: Seq<(ConcernSymbol, ContractSpec)>, concerns: Seq<ConcernSymbol>) -> Seq<ContractSpec>
    decreases concerns.len(),
{
    if concerns.len() == 0 {
        Seq::empty()
    } else {
        mapped(stored, concerns.drop_last()) + match key_index(stored, concerns.last()) {
            Some(i) => seq![stored[i].1],
            None => Seq::empty(),
        }
    }
}

/// A difference as plain values: concern, type, description, observed and
/// expected data, severity.
pub type DiffEntry = (ConcernSymbol, DiffType, Seq<char>, Option<JsonView>, Option<JsonView>, RuleSeverity);

/// An optional JSON value as a plain value.
pub open spec fn opt_json(o: Option<JsonValue>) -> Option<JsonView> {
    match o {
        Some(v) => Some(v@),
        None => None,
    }
}

/// A difference as plain values.
pub open spec fn diff_entry(d: ValidationDiff) -> DiffEntry {
    (d.concern, d.diff_type, d.description@, opt_json(d.observed), opt_json(d.expected), d.severity)
}

/// Differences as plain values, in order.
pub open spec fn diff_entries(ds: Seq<ValidationDiff>) -> Seq<DiffEntry> {
    ds.map_values(|d: ValidationDiff| diff_entry(d))
}

/// The expected concerns that were not observed, in expected order.
pub open spec fn missing_diffs(obs: Seq<(ConcernSymbol, JsonView)>, exs: Seq<(ConcernSymbol, JsonView)>) -> Seq<DiffEntry>
    decreases exs.len(),
{
    if exs.len() == 0 {
        Seq::empty()
    } else {
        let e = exs.last();
        missing_diffs(obs, exs.drop_last()) + if key_index(obs, e.0) is None {
            seq![
                (
                    e.0,
                    DiffType::Missing,
                    "Missing expected concern: "@ + e.0.name_text(),
                    None,
                    Some(e.1),
                    RuleSeverity::Error,
                ),
            ]
        } else {
            Seq::empty()
        }
    }
}

/// The observed concerns that were not expected, in observed order.
pub open spec fn unexpected_diffs(obs: Seq<(ConcernSymbol, JsonView)>, exs: Seq<(ConcernSymbol, JsonView)>) -> Seq<DiffEntry>
    decreases obs.len(),
{
    if obs.len() == 0 {
        Seq::empty()
    } else {
        let o = obs.last();
        unexpected_diffs(obs.drop_last(), exs) + if key_index(exs, o.0) is None {
            seq![
                (
                    o.0,
                    DiffType::Unexpected,
                    "Unexpected observed concern: "@ + o.0.name_text(),
                    Some(o.1),
                    None,
                    RuleSeverity::Warning,
                ),
            ]
        } else {
            Seq::empty()
        }
    }
}

/// The observed concerns whose data differs from what was expected, in
/// observed order.
pub open spec fn mismatch_diffs(obs: Seq<(ConcernSymbol, JsonView)>, exs: Seq<(ConcernSymbol, JsonView)>) -> Seq<DiffEntry>
    decreases obs.len(),
{
    if obs.len() == 0 {
        Seq::empty()
    } else {
        let o = obs.last();
        mismatch_diffs(obs.drop_last(), exs) + match key_index(exs, o.0) {
            Some(j) => if o.1 != exs[j].1 {
                seq![
                    (
                        o.0,
                        DiffType::Mismatch,
                        "Data mismatch for concern: "@ + o.0.name_text(),
                        Some(o.1),
                        Some(exs[j].1),
                        RuleSeverity::Error,
                    ),
                ]
            } else {
                Seq::empty()
            },
            None => Seq::empty(),
        }
    }
}

/// The differences between observed and expected data: missing concerns,
/// then unexpected ones, then mismatches.
pub open spec fn verify_diffs(obs: Seq<(ConcernSymbol, JsonView)>, exs: Seq<(ConcernSymbol, JsonView)>) -> Seq<DiffEntry> {
    missing_diffs(obs, exs) + unexpected_diffs(obs, exs) + mismatch_diffs(obs, exs)
}

/// Every difference is informational or a warning.
pub open spec fn passing(ds: Seq<DiffEntry>) -> bool {
    forall|i: int| 0 <= i < ds.len() ==> (#[trigger] ds[i]).5 == RuleSeverity::Info || ds[i].5 == RuleSeverity::Warning
}

/// The summary of differences.
pub open spec fn summary_of(ds: Seq<DiffEntry>) -> Seq<char> {
    if passing(ds) {
        "Validation passed"@
    } else {
        "Validation failed with "@ + decimal_text(ds.len()) + " differences"@
    }
}

/// `d` reports the differences `ds`.
pub open spec fn reports(d: DiffSet, ds: Seq<DiffEntry>) -> bool {
    &&& diff_entries(d.diffs@) == ds
    &&& forall|i: int| 0 <= i < d.diffs@.len() ==> (#[trigger] d.diffs@[i]).metadata@.len() == 0
    &&& d.is_valid == passing(ds)
    &&& d.summary@ == summary_of(ds)
}

/// The first entry of concern `c`, if any.
fn find_key<V>(entries: &Vec<(ConcernSymbol, V)>, c: ConcernSymbol) -> (r: Option<usize>)
    ensures
        match r {
            Some(i) => key_index(entries@, c) == Some(i as int) && i < entries@.len(),
            None => key_index(entries@, c) is None,
        },
{
    let mut i: usize = 0;
    while i < entries.len()
        invariant
            i <= entries@.len(),
            key_index(entries@.subrange(0, i as int), c) is None,
        decreases entries@.len() - i,
    {
        assert(entries@.subrange(0, i + 1).drop_last() =~= entries@.subrange(0, i as int));
        if entries[i].0 == c {
            proof {
                assert(key_index(entries@.subrange(0, i + 1), c) == Some(i as int));
                lemma_key_prefix(entries@, c, i + 1);
            }
            return Some(i);
        }
        i = i + 1;
    }
    assert(entries@.subrange(0, entries@.len() as int) =~= entries@);
    None
}

/// Where a concern is first found: at an entry of that concern.
proof fn lemma_key_found<V>(s: Seq<(ConcernSymbol, V)>, c: ConcernSymbol)
    ensures
        key_index(s, c) matches Some(i) ==> 0 <= i < s.len() && s[i].0 == c,
    decreases s.len(),
{
    if s.len() > 0 {
        lemma_key_found(s.drop_last(), c);
        if let Some(i) = key_index(s.drop_last(), c) {
            assert(s.drop_last()[i] == s[i]);
        }
    }
}

/// A key found in a prefix is found at the same place in the whole.
proof fn lemma_key_prefix<V>(s: Seq<(ConcernSymbol, V)>, c: ConcernSymbol, n: int)
    requires
        0 <= n <= s.len(),
        key_index(s.subrange(0, n), c) is Some,
    ensures
        key_index(s, c) == key_index(s.subrange(0, n), c),
    decreases s.len() - n,
{
    if n < s.len() {
        assert(s.subrange(0, n + 1).drop_last() =~= s.subrange(0, n));
        lemma_key_prefix(s, c, n + 1);
    } else {
        assert(s.subrange(0, n) =~= s);
    }
}

/// The first index of a concern is fixed by the concerns alone.
proof fn lemma_key_same_keys<V, W>(s: Seq<(ConcernSymbol, V)>, t: Seq<(ConcernSymbol, W)>, c: ConcernSymbol)
    requires
        s.len() == t.len(),
        forall|i: int| 0 <= i < s.len() ==> #[trigger] s[i].0 == t[i].0,
    ensures
        key_index(s, c) == key_index(t, c),
    decreases s.len(),
{
    if s.len() > 0 {
        assert forall|i: int| 0 <= i < s.len() - 1 implies #[trigger] s.drop_last()[i].0 == t.drop_last()[i].0 by {
            assert(s.drop_last()[i] == s[i]);
            assert(t.drop_last()[i] == t[i]);
        }
        lemma_key_same_keys(s.drop_last(), t.drop_last(), c);
        assert(s.last().0 == t.last().0);
    }
}

/// Set `v` for concern `c` among the entries.
fn put_key<V>(entries: &mut Vec<(ConcernSymbol, V)>, c: ConcernSymbol, v: V)
    ensures
        final(entries)@ == set_key(old(entries)@, c, v),
{
    match find_key(entries, c) {
        Some(i) => {
            entries.set(i, (c, v));
        },
        None => {
            entries.push((c, v));
        },
    }
}

/// The observed data of a concern.
fn observe(c: ConcernSymbol) -> (r: JsonValue)
    ensures
        r@ == observed_data(c),
{
    match c {
        ConcernSymbol::Index => {
            let d = empty_lists_of(&["staged_files", "unstaged_files", "untracked_files"]);
            assert(seq!["staged_files", "unstaged_files", "untracked_files"].map_values(|k: &str| k@) =~= seq![
                "staged_files"@,
                "unstaged_files"@,
                "untracked_files"@,
            ]);
            d
        },
        ConcernSymbol::AttrLineEndingNormalization => {
            let d = empty_lists_of(&["binary_files", "line_ending_rules", "text_files"]);
            assert(seq!["binary_files", "line_ending_rules", "text_files"].map_values(|k: &str| k@) =~= seq![
                "binary_files"@,
                "line_ending_rules"@,
                "text_files"@,
            ]);
            d
        },
        ConcernSymbol::AttrDiffStrategy => {
            let d = empty_lists_of(&["binary_files", "diff_rules"]);
            assert(seq!["binary_files", "diff_rules"].map_values(|k: &str| k@) =~= seq!["binary_files"@, "diff_rules"@]);
            d
        },
        ConcernSymbol::Ref => {
            let d = empty_lists_of(&["heads", "remotes", "tags"]);
            assert(seq!["heads", "remotes", "tags"].map_values(|k: &str| k@) =~= seq!["heads"@, "remotes"@, "tags"@]);
            d
        },
        ConcernSymbol::Branch => crate::json::object_of_two(
            "branches",
            empty_list(),
            "current",
            JsonValue::Str("main".to_owned()),
        ),
        ConcernSymbol::Remote => single_of("remotes", empty_list()),
        ConcernSymbol::TreeExecutable => single_of("executable_files", empty_list()),
        ConcernSymbol::Commit => single_of("commits", empty_list()),
        ConcernSymbol::Tree => single_of("trees", empty_list()),
        ConcernSymbol::Head => single_of("head", JsonValue::Str("refs/heads/main".to_owned())),
        ConcernSymbol::ConfigCommit => single_of("commit_config", empty_object()),
        ConcernSymbol::ConfigUser => single_of("user_config", empty_object()),
        ConcernSymbol::ConfigGc => single_of("gc_config", empty_object()),
        ConcernSymbol::ConfigRebase => single_of("rebase_config", empty_object()),
        _ => single_of("error", JsonValue::Str("Unimplemented concern snapshot".to_owned())),
    }
}

/// The data a contract for a concern expects.
fn expect(c: ConcernSymbol) -> (r: JsonValue)
    ensures
        r@ == expected_data(c),
{
    match c {
        ConcernSymbol::Index => observe(c),
        ConcernSymbol::AttrLineEndingNormalization => observe(c),
        ConcernSymbol::AttrDiffStrategy => observe(c),
        _ => single_of("expected", JsonValue::Str("default".to_owned())),
    }
}

/// A copy of a rule.
fn copy_rule(r: &ContractRule) -> (c: ContractRule)
    ensures
        rule_view(c) == rule_view(*r),
{
    ContractRule {
        name: crate::sarif::copy_string(&r.name),
        description: match &r.description {
            Some(d) => Some(crate::sarif::copy_string(d)),
            None => None,
        },
        rule_type: r.rule_type,
        parameters: copy_fields(&r.parameters),
        required: r.required,
        severity: r.severity,
    }
}

/// A copy of a contract.
fn copy_contract(c: &ContractSpec) -> (r: ContractSpec)
    ensures
        contract_view(r) == contract_view(*c),
{
    let mut rules: Vec<ContractRule> = Vec::new();
    let mut i: usize = 0;
    while i < c.rules.len()
        invariant
            i <= c.rules@.len(),
            rules@.map_values(|x: ContractRule| rule_view(x)) == c.rules@.take(i as int).map_values(|x: ContractRule| rule_view(x)),
        decreases c.rules@.len() - i,
    {
        let x = copy_rule(&c.rules[i]);
        let ghost before = rules@;
        rules.push(x);
        assert(rules@.map_values(|y: ContractRule| rule_view(y)) =~= before.map_values(|y: ContractRule| rule_view(y)).push(rule_view(x)));
        assert(c.rules@.take(i + 1).map_values(|y: ContractRule| rule_view(y)) =~= c.rules@.take(i as int).map_values(|y: ContractRule| rule_view(y)).push(rule_view(c.rules@[i as int])));
        i = i + 1;
    }
    assert(c.rules@.take(c.rules@.len() as int) =~= c.rules@);
    ContractSpec {
        name: crate::sarif::copy_string(&c.name),
        version: crate::sarif::copy_string(&c.version),
        concern: c.concern,
        rules,
        metadata: copy_fields(&c.metadata),
    }
}

/// The hash of data: the SHA-256 of its JSON text.
fn compute_hash(data: &JsonValue) -> (r: String)
    ensures
        r@ == sha256_hex_of(json_text(data@)),
{
    let text = data.to_json_text();
    sha256_hex(text.as_str())
}

/// The functional contract validation pipeline.
pub struct FunctionalContractPipeline {
    contracts: Vec<(ConcernSymbol, ContractSpec)>,
    repo_path: String,
}

impl FunctionalContractPipeline {
    /// The registered contracts, by concern.
    pub closed spec fn contracts(&self) -> Seq<(ConcernSymbol, ContractSpec)> {
        self.contracts@
    }

    /// The repository path, as text.
    pub closed spec fn repo(&self) -> Seq<char> {
        self.repo_path@
    }

    /// A pipeline for the repository at `repo_path`, with no contracts.
    pub fn new(repo_path: &str) -> (r: Self)
        ensures
            r.repo() == repo_path@,
            r.contracts().len() == 0,
    {
        FunctionalContractPipeline { contracts: Vec::new(), repo_path: repo_path.to_owned() }
    }

    /// Register a contract for its concern, replacing one for the same
    /// concern.
    pub fn register_contract(&mut self, contract: ContractSpec) -> (r: Result<(), String>)
        ensures
            r is Ok,
            final(self).repo() == old(self).repo(),
            final(self).contracts() == set_key(old(self).contracts(), contract.concern, contract),
    {
        let c = contract.concern;
        put_key(&mut self.contracts, c, contract);
        Ok(())
    }

    /// Step 1: the concerns of a hook event, in order.
    pub fn identify_concerns(&self, hook: &HookEvent) -> (r: Vec<ConcernSymbol>)
        ensures
            r@ == hook_concerns(*hook),
    {
        let r = match hook {
            HookEvent::PreCommit => vec![ConcernSymbol::Index, ConcernSymbol::AttrLineEndingNormalization, ConcernSymbol::AttrDiffStrategy],
            HookEvent::PrePush => vec![ConcernSymbol::Ref, ConcernSymbol::Branch, ConcernSymbol::Remote, ConcernSymbol::TreeExecutable, ConcernSymbol::AttrLineEndingNormalization],
            HookEvent::PreReceive => vec![ConcernSymbol::Ref, ConcernSymbol::Branch, ConcernSymbol::Remote],
            HookEvent::PostReceive => vec![ConcernSymbol::Ref, ConcernSymbol::Branch, ConcernSymbol::Remote],
            HookEvent::Update => vec![ConcernSymbol::Ref, ConcernSymbol::Branch],
            HookEvent::PostUpdate => vec![ConcernSymbol::Ref, ConcernSymbol::Branch],
            HookEvent::PreAutoGc => vec![ConcernSymbol::ConfigGc],
            HookEvent::PostMerge => vec![ConcernSymbol::Commit, ConcernSymbol::Tree, ConcernSymbol::Ref],
            HookEvent::PreRebase => vec![ConcernSymbol::Ref, ConcernSymbol::Branch, ConcernSymbol::ConfigRebase],
            HookEvent::PostCheckout => vec![ConcernSymbol::Head, ConcernSymbol::Ref, ConcernSymbol::Index],
            HookEvent::PostCommit => vec![ConcernSymbol::Commit, ConcernSymbol::Ref, ConcernSymbol::Head],
            HookEvent::PreApplyPatch => vec![ConcernSymbol::Index, ConcernSymbol::AttrDiffStrategy],
            HookEvent::PostApplyPatch => vec![ConcernSymbol::Index, ConcernSymbol::Commit],
            HookEvent::PreReBase => vec![ConcernSymbol::Ref, ConcernSymbol::Branch, ConcernSymbol::ConfigRebase],
            HookEvent::PostReBase => vec![ConcernSymbol::Ref, ConcernSymbol::Branch, ConcernSymbol::Commit],
            HookEvent::PreCommitMsg => vec![ConcernSymbol::ConfigCommit, ConcernSymbol::ConfigUser],
            HookEvent::CommitMsg => vec![ConcernSymbol::ConfigCommit, ConcernSymbol::ConfigUser],
            HookEvent::PostCommitMsg => vec![ConcernSymbol::Commit, ConcernSymbol::Ref],
            _ => Vec::new(),
        };
        assert(r@ =~= hook_concerns(*hook));
        r
    }

    /// Step 2: snapshot each concern once, in first-seen order.
    pub fn archive_concerns(&self, concerns: &[ConcernSymbol]) -> (r: Result<ObservedConcernSet, String>)
        ensures
            r matches Ok(set) && observed_entries(set.snapshots@) == archived(concerns@) && set.hook_event
                == HookEvent::PreCommit && forall|i: int|
                0 <= i < set.snapshots@.len() ==> (#[trigger] set.snapshots@[i]).1.concern == set.snapshots@[i].0
                    && set.snapshots@[i].1.hash@ == sha256_hex_of(json_text(set.snapshots@[i].1.data@)),
    {
        let mut snapshots: Vec<(ConcernSymbol, ConcernSnapshot)> = Vec::new();
        let mut i: usize = 0;
        while i < concerns.len()
            invariant
                i <= concerns@.len(),
                observed_entries(snapshots@) == archived(concerns@.take(i as int)),
                forall|j: int|
                    0 <= j < snapshots@.len() ==> (#[trigger] snapshots@[j]).1.concern == snapshots@[j].0
                        && snapshots@[j].1.hash@ == sha256_hex_of(json_text(snapshots@[j].1.data@)),
            decreases concerns@.len() - i,
        {
            let c = concerns[i];
            let snap = self.snapshot_concern(c);
            let ghost before = snapshots@;
            proof {
                assert(concerns@.take(i + 1).drop_last() =~= concerns@.take(i as int));
                assert(concerns@.take(i + 1).last() == c);
                lemma_key_same_keys(before, observed_entries(before), c);
            }
            let ghost sv = snap;
            put_key(&mut snapshots, c, snap);
            proof {
                let ob = observed_entries(before);
                lemma_key_found(before, c);
                match key_index(before, c) {
                    Some(k) => {
                        assert(snapshots@ == before.update(k, (c, sv)));
                        assert(observed_entries(snapshots@) =~= ob.update(k, (c, sv.data@)));
                    },
                    None => {
                        assert(snapshots@ == before.push((c, sv)));
                        assert(observed_entries(snapshots@) =~= ob.push((c, sv.data@)));
                    },
                }
            }
            i = i + 1;
        }
        assert(concerns@.take(concerns@.len() as int) =~= concerns@);
        Ok(ObservedConcernSet { snapshots, hook_event: HookEvent::PreCommit, timestamp: utc_now_rfc3339() })
    }

    /// Step 3: the registered contracts of `concerns`, in order.
    pub fn map_contracts(&self, concerns: &[ConcernSymbol]) -> (r: Vec<ContractSpec>)
        ensures
            r@.map_values(|c: ContractSpec| contract_view(c)) == mapped(self.contracts(), concerns@).map_values(
                |c: ContractSpec| contract_view(c),
            ),
    {
        let mut r: Vec<ContractSpec> = Vec::new();
        let mut i: usize = 0;
        while i < concerns.len()
            invariant
                i <= concerns@.len(),
                r@.map_values(|c: ContractSpec| contract_view(c)) == mapped(self.contracts(), concerns@.take(i as int)).map_values(
                    |c: ContractSpec| contract_view(c),
                ),
            decreases concerns@.len() - i,
        {
            proof {
                assert(concerns@.take(i + 1).drop_last() =~= concerns@.take(i as int));
                assert(concerns@.take(i + 1).last() == concerns@[i as int]);
            }
            let ghost before = r@;
            let ghost m0 = mapped(self.contracts(), concerns@.take(i as int));
            match find_key(&self.contracts, concerns[i]) {
                Some(k) => {
                    let x = copy_contract(&self.contracts[k].1);
                    r.push(x);
                    assert(r@.map_values(|c: ContractSpec| contract_view(c)) =~= before.map_values(|c: ContractSpec| contract_view(c)).push(contract_view(x)));
                    assert(mapped(self.contracts(), concerns@.take(i + 1)) =~= m0.push(self.contracts()[k as int].1));
                    assert(m0.push(self.contracts()[k as int].1).map_values(|c: ContractSpec| contract_view(c)) =~= m0.map_values(|c: ContractSpec| contract_view(c)).push(contract_view(self.contracts()[k as int].1)));
                },
                None => {
                    assert(mapped(self.contracts(), concerns@.take(i + 1)) =~= m0);
                },
            }
            i = i + 1;
        }
        assert(concerns@.take(concerns@.len() as int) =~= concerns@);
        r
    }

    /// Step 4: the expectation of each contract's concern, once each, in
    /// first-seen order.
    pub fn specify_expectations(&self, contracts: &[ContractSpec]) -> (r: Result<ExpectedConcernSet, String>)
        ensures
            r matches Ok(set) && expected_views(set.snapshots@) == expected_for(contracts@) && set.hook_event
                == HookEvent::PreCommit,
    {
        let mut snapshots: Vec<(ConcernSymbol, ExpectedSnapshot)> = Vec::new();
        let mut i: usize = 0;
        while i < contracts.len()
            invariant
                i <= contracts@.len(),
                expected_views(snapshots@) == expected_for(contracts@.take(i as int)),
            decreases contracts@.len() - i,
        {
            let c = &contracts[i];
            let e = self.generate_expected_snapshot(c);
            let ghost before = snapshots@;
            proof {
                assert(contracts@.take(i + 1).drop_last() =~= contracts@.take(i as int));
                assert(contracts@.take(i + 1).last() == contracts@[i as int]);
                lemma_key_same_keys(before, expected_views(before), c.concern);
            }
            let ghost ev = (e.data@, e.contract@, e.contract_version@);
            let ghost evv = e;
            put_key(&mut snapshots, c.concern, e);
            proof {
                let eb = expected_views(before);
                lemma_key_found(before, c.concern);
                match key_index(before, c.concern) {
                    Some(k) => {
                        assert(snapshots@ == before.update(k, (c.concern, evv)));
                        assert(expected_views(snapshots@) =~= eb.update(k, (c.concern, ev)));
                    },
                    None => {
                        assert(snapshots@ == before.push((c.concern, evv)));
                        assert(expected_views(snapshots@) =~= eb.push((c.concern, ev)));
                    },
                }
            }
            i = i + 1;
        }
        assert(contracts@.take(contracts@.len() as int) =~= contracts@);
        Ok(ExpectedConcernSet { snapshots, hook_event: HookEvent::PreCommit, timestamp: utc_now_rfc3339() })
    }

    /// Step 5: the differences between the observed and the expected
    /// snapshots.
    pub fn verify(&self, observed: &ObservedConcernSet, expected: &ExpectedConcernSet) -> (r: Result<DiffSet, String>)
        ensures
            r matches Ok(d) && reports(d, verify_diffs(observed_entries(observed.snapshots@), expected_entries(expected.snapshots@))),
    {
        let ghost obs = observed_entries(observed.snapshots@);
        let ghost exs = expected_entries(expected.snapshots@);
        let mut diffs: Vec<ValidationDiff> = Vec::new();
        let mut i: usize = 0;
        while i < expected.snapshots.len()
            invariant
                i <= expected.snapshots@.len(),
                obs == observed_entries(observed.snapshots@),
                exs == expected_entries(expected.snapshots@),
                diff_entries(diffs@) == missing_diffs(obs, exs.take(i as int)),
                forall|k: int| 0 <= k < diffs@.len() ==> (#[trigger] diffs@[k]).metadata@.len() == 0,
            decreases expected.snapshots@.len() - i,
        {
            let (c, e) = (expected.snapshots[i].0, &expected.snapshots[i].1);
            proof {
                assert(exs.take(i + 1).drop_last() =~= exs.take(i as int));
                assert(exs.take(i + 1).last() == (c, e.data@));
                lemma_key_same_keys(observed.snapshots@, obs, c);
            }
            let ghost before = diffs@;
            if find_key(&observed.snapshots, c).is_none() {
                let mut description = "Missing expected concern: ".to_owned();
                description.append(c.name());
                let d = ValidationDiff {
                    concern: c,
                    diff_type: DiffType::Missing,
                    description,
                    observed: None,
                    expected: Some(e.data.duplicate()),
                    severity: RuleSeverity::Error,
                    metadata: Vec::new(),
                };
                diffs.push(d);
                assert(diff_entries(diffs@) =~= diff_entries(before).push(diff_entry(d)));
            } else {
                assert(diff_entries(diffs@) =~= diff_entries(before) + Seq::<DiffEntry>::empty());
            }
            i = i + 1;
        }
        assert(exs.take(exs.len() as int) =~= exs);
        let ghost missing = diff_entries(diffs@);
        let mut i: usize = 0;
        while i < observed.snapshots.len()
            invariant
                i <= observed.snapshots@.len(),
                obs == observed_entries(observed.snapshots@),
                exs == expected_entries(expected.snapshots@),
                diff_entries(diffs@) == missing + unexpected_diffs(obs.take(i as int), exs),
                forall|k: int| 0 <= k < diffs@.len() ==> (#[trigger] diffs@[k]).metadata@.len() == 0,
            decreases observed.snapshots@.len() - i,
        {
            let (c, o) = (observed.snapshots[i].0, &observed.snapshots[i].1);
            proof {
                assert(obs.take(i + 1).drop_last() =~= obs.take(i as int));
                assert(obs.take(i + 1).last() == (c, o.data@));
                lemma_key_same_keys(expected.snapshots@, exs, c);
            }
            let ghost before = diffs@;
            if find_key(&expected.snapshots, c).is_none() {
                let mut description = "Unexpected observed concern: ".to_owned();
                description.append(c.name());
                let d = ValidationDiff {
                    concern: c,
                    diff_type: DiffType::Unexpected,
                    description,
                    observed: Some(o.data.duplicate()),
                    expected: None,
                    severity: RuleSeverity::Warning,
                    metadata: Vec::new(),
                };
                diffs.push(d);
                assert(diff_entries(diffs@) =~= diff_entries(before).push(diff_entry(d)));
            } else {
                assert(diff_entries(diffs@) =~= diff_entries(before) + Seq::<DiffEntry>::empty());
            }
            i = i + 1;
        }
        assert(obs.take(obs.len() as int) =~= obs);
        let ghost so_far = diff_entries(diffs@);
        let mut i: usize = 0;
        while i < observed.snapshots.len()
            invariant
                i <= observed.snapshots@.len(),
                obs == observed_entries(observed.snapshots@),
                exs == expected_entries(expected.snapshots@),
                diff_entries(diffs@) == so_far + mismatch_diffs(obs.take(i as int), exs),
                forall|k: int| 0 <= k < diffs@.len() ==> (#[trigger] diffs@[k]).metadata@.len() == 0,
            decreases observed.snapshots@.len() - i,
        {
            let (c, o) = (observed.snapshots[i].0, &observed.snapshots[i].1);
            proof {
                assert(obs.take(i + 1).drop_last() =~= obs.take(i as int));
                assert(obs.take(i + 1).last() == (c, o.data@));
                lemma_key_same_keys(expected.snapshots@, exs, c);
            }
            let ghost before = diffs@;
            match find_key(&expected.snapshots, c) {
                Some(j) => {
                    let e = &expected.snapshots[j].1;
                    proof {
                        lemma_key_found(expected.snapshots@, c);
                    }
                    assert(exs[j as int] == (c, e.data@));
                    if !json_eq(&o.data, &e.data) {
                        let mut description = "Data mismatch for concern: ".to_owned();
                        description.append(c.name());
                        let d = ValidationDiff {
                            concern: c,
                            diff_type: DiffType::Mismatch,
                            description,
                            observed: Some(o.data.duplicate()),
                            expected: Some(e.data.duplicate()),
                            severity: RuleSeverity::Error,
                            metadata: Vec::new(),
                        };
                        diffs.push(d);
                        assert(diff_entries(diffs@) =~= diff_entries(before).push(diff_entry(d)));
                    } else {
                        assert(diff_entries(diffs@) =~= diff_entries(before) + Seq::<DiffEntry>::empty());
                    }
                },
                None => {
                    assert(diff_entries(diffs@) =~= diff_entries(before) + Seq::<DiffEntry>::empty());
                },
            }
            i = i + 1;
        }
        assert(obs.take(obs.len() as int) =~= obs);
        let ghost all = diff_entries(diffs@);
        let mut is_valid = true;
        let mut k: usize = 0;
        while k < diffs.len()
            invariant
                k <= diffs@.len(),
                all == diff_entries(diffs@),
                is_valid == (forall|m: int| 0 <= m < k ==> (#[trigger] all[m]).5 == RuleSeverity::Info || all[m].5 == RuleSeverity::Warning),
            decreases diffs@.len() - k,
        {
            assert(all[k as int] == diff_entry(diffs@[k as int]));
            match diffs[k].severity {
                RuleSeverity::Info | RuleSeverity::Warning => {},
                _ => {
                    is_valid = false;
                },
            }
            k = k + 1;
        }
        let summary = if is_valid {
            "Validation passed".to_owned()
        } else {
            let mut s = "Validation failed with ".to_owned();
            push_decimal(&mut s, diffs.len() as u64);
            s.append(" differences");
            s
        };
        Ok(DiffSet { diffs, is_valid, summary })
    }

    /// The complete pipeline for a hook event: its concerns are snapshot,
    /// their registered contracts give the expectations, and the two are
    /// compared.
    pub fn execute_pipeline(&self, hook: &HookEvent) -> (r: Result<DiffSet, String>)
        ensures
            r matches Ok(d) && reports(
                d,
                verify_diffs(
                    archived(hook_concerns(*hook)),
                    expected_for(mapped(self.contracts(), hook_concerns(*hook))).map_values(
                        |e: (ConcernSymbol, ExpectationView)| (e.0, e.1.0),
                    ),
                ),
            ),
    {
        let concerns = self.identify_concerns(hook);
        let observed = match self.archive_concerns(concerns.as_slice()) {
            Ok(o) => o,
            Err(e) => {
                return Err(e);
            },
        };
        let contracts = self.map_contracts(concerns.as_slice());
        proof {
            lemma_expected_for_views(contracts@, mapped(self.contracts(), concerns@));
        }
        let expected = match self.specify_expectations(contracts.as_slice()) {
            Ok(e) => e,
            Err(e) => {
                return Err(e);
            },
        };
        assert(expected_entries(expected.snapshots@) =~= expected_views(expected.snapshots@).map_values(
            |e: (ConcernSymbol, ExpectationView)| (e.0, e.1.0),
        ));
        self.verify(&observed, &expected)
    }

    /// The snapshot of a concern: its observed data, hashed.
    fn snapshot_concern(&self, concern: ConcernSymbol) -> (r: ConcernSnapshot)
        ensures
            r.concern == concern,
            r.data@ == observed_data(concern),
            r.hash@ == sha256_hex_of(json_text(observed_data(concern))),
            r.metadata@.len() == 0,
    {
        let data = observe(concern);
        let hash = compute_hash(&data);
        ConcernSnapshot { concern, data, timestamp: utc_now_rfc3339(), hash, metadata: Vec::new() }
    }

    /// The expected snapshot of a contract: the data its concern expects.
    fn generate_expected_snapshot(&self, contract: &ContractSpec) -> (r: ExpectedSnapshot)
        ensures
            r.concern == contract.concern,
            r.data@ == expected_data(contract.concern),
            r.contract@ == contract.name@,
            r.contract_version@ == contract.version@,
            r.metadata@.len() == 0,
    {
        ExpectedSnapshot {
            concern: contract.concern,
            data: expect(contract.concern),
            contract: crate::sarif::copy_string(&contract.name),
            contract_version: crate::sarif::copy_string(&contract.version),
            metadata: Vec::new(),
        }
    }
}

/// The expectations depend on the contracts only through their views.
proof fn lemma_expected_for_views(a: Seq<ContractSpec>, b: Seq<ContractSpec>)
    requires
        a.map_values(|c: ContractSpec| contract_view(c)) == b.map_values(|c: ContractSpec| contract_view(c)),
    ensures
        expected_for(a) == expected_for(b),
    decreases a.len(),
{
    assert(a.len() == a.map_values(|c: ContractSpec| contract_view(c)).len());
    assert(b.len() == b.map_values(|c: ContractSpec| contract_view(c)).len());
    if a.len() > 0 {
        assert(a.drop_last().map_values(|c: ContractSpec| contract_view(c)) =~= a.map_values(|c: ContractSpec| contract_view(c)).drop_last());
        assert(b.drop_last().map_values(|c: ContractSpec| contract_view(c)) =~= b.map_values(|c: ContractSpec| contract_view(c)).drop_last());
        lemma_expected_for_views(a.drop_last(), b.drop_last());
        assert(a.map_values(|c: ContractSpec| contract_view(c))[a.len() - 1] == contract_view(a.last()));
        assert(b.map_values(|c: ContractSpec| contract_view(c))[b.len() - 1] == contract_view(b.last()));
    }
}


/// Each concern has at most one entry.
pub open spec fn distinct_keys<V>(s: Seq<(ConcernSymbol, V)>) -> bool {
    forall|i: int, j: int| 0 <= i < j < s.len() ==> s[i].0 != s[j].0
}

/// A concern with an entry is found at its entry, where entries are
/// distinct.
proof fn lemma_key_at<V>(s: Seq<(ConcernSymbol, V)>, i: int)
    requires
        distinct_keys(s),
        0 <= i < s.len(),
    ensures
        key_index(s, s[i].0) == Some(i),
    decreases s.len(),
{
    if i < s.len() - 1 {
        lemma_key_at(s.drop_last(), i);
        assert(s.drop_last()[i] == s[i]);
    } else {
        lemma_key_absent(s.drop_last(), s[i].0);
    }
}

/// A concern with no entry is not found.
proof fn lemma_key_absent<V>(s: Seq<(ConcernSymbol, V)>, c: ConcernSymbol)
    requires
        forall|k: int| 0 <= k < s.len() ==> #[trigger] s[k].0 != c,
    ensures
        key_index(s, c) is None,
    decreases s.len(),
{
    if s.len() > 0 {
        assert forall|k: int| 0 <= k < s.len() - 1 implies #[trigger] s.drop_last()[k].0 != c by {
            assert(s.drop_last()[k] == s[k]);
        }
        lemma_key_absent(s.drop_last(), c);
    }
}

/// Verifying what was observed against the same data expected finds no
/// difference: snapshots that match their expectations pass.
pub proof fn law_matching_snapshots_pass(entries: Seq<(ConcernSymbol, JsonView)>)
    requires
        distinct_keys(entries),
    ensures
        verify_diffs(entries, entries).len() == 0,
        passing(verify_diffs(entries, entries)),
{
    lemma_no_missing(entries, entries.len() as int);
    lemma_no_unexpected(entries, entries.len() as int);
    lemma_no_mismatch(entries, entries.len() as int);
    assert(entries.take(entries.len() as int) =~= entries);
}

proof fn lemma_no_missing(entries: Seq<(ConcernSymbol, JsonView)>, n: int)
    requires
        distinct_keys(entries),
        0 <= n <= entries.len(),
    ensures
        missing_diffs(entries, entries.take(n)).len() == 0,
    decreases n,
{
    if n > 0 {
        assert(entries.take(n).drop_last() =~= entries.take(n - 1));
        assert(entries.take(n).last() == entries[n - 1]);
        lemma_no_missing(entries, n - 1);
        lemma_key_at(entries, n - 1);
    }
}

proof fn lemma_no_unexpected(entries: Seq<(ConcernSymbol, JsonView)>, n: int)
    requires
        distinct_keys(entries),
        0 <= n <= entries.len(),
    ensures
        unexpected_diffs(entries.take(n), entries).len() == 0,
    decreases n,
{
    if n > 0 {
        assert(entries.take(n).drop_last() =~= entries.take(n - 1));
        assert(entries.take(n).last() == entries[n - 1]);
        lemma_no_unexpected(entries, n - 1);
        lemma_key_at(entries, n - 1);
    }
}

proof fn lemma_no_mismatch(entries: Seq<(ConcernSymbol, JsonView)>, n: int)
    requires
        distinct_keys(entries),
        0 <= n <= entries.len(),
    ensures
        mismatch_diffs(entries.take(n), entries).len() == 0,
    decreases n,
{
    if n > 0 {
        assert(entries.take(n).drop_last() =~= entries.take(n - 1));
        assert(entries.take(n).last() == entries[n - 1]);
        lemma_no_mismatch(entries, n - 1);
        lemma_key_at(entries, n - 1);
    }
}

} // verus!
