//! Symbols that name hook events, Git concerns, contracts and rule severities.

use vstd::prelude::*;

verus! {

/// Hook event that triggers the validation pipeline.
#[derive(Debug, Clone, Copy, PartialEq, Eq, Structural, Hash)]
pub enum HookEvent {
    /// Pre-commit hook event
    PreCommit,
    /// Pre-push hook event
    PrePush,
    /// Pre-receive hook event
    PreReceive,
    /// Post-receive hook event
    PostReceive,
    /// Update hook event
    Update,
    /// Post-update hook event
    PostUpdate,
    /// Pre-auto-gc hook event
    PreAutoGc,
    /// Post-merge hook event
    PostMerge,
    /// Pre-rebase hook event
    PreRebase,
    /// Post-checkout hook event
    PostCheckout,
    /// Post-commit hook event
    PostCommit,
    /// Pre-apply-patch hook event
    PreApplyPatch,
    /// Post-apply-patch hook event
    PostApplyPatch,
    /// Post-rebase hook event
    PostRebase,
    /// Pre-commit-msg hook event
    PreCommitMsg,
    /// Commit-msg hook event
    CommitMsg,
    /// Post-commit-msg hook event
    PostCommitMsg,
}

impl HookEvent {
    /// The variant name of the event, as text.
    pub open spec fn variant_text(self) -> Seq<char> {
        match self {
            HookEvent::PreCommit => "PreCommit"@,
            HookEvent::PrePush => "PrePush"@,
            HookEvent::PreReceive => "PreReceive"@,
            HookEvent::PostReceive => "PostReceive"@,
            HookEvent::Update => "Update"@,
            HookEvent::PostUpdate => "PostUpdate"@,
            HookEvent::PreAutoGc => "PreAutoGc"@,
            HookEvent::PostMerge => "PostMerge"@,
            HookEvent::PreRebase => "PreRebase"@,
            HookEvent::PostCheckout => "PostCheckout"@,
            HookEvent::PostCommit => "PostCommit"@,
            HookEvent::PreApplyPatch => "PreApplyPatch"@,
            HookEvent::PostApplyPatch => "PostApplyPatch"@,
            HookEvent::PostRebase => "PostRebase"@,
            HookEvent::PreCommitMsg => "PreCommitMsg"@,
            HookEvent::CommitMsg => "CommitMsg"@,
            HookEvent::PostCommitMsg => "PostCommitMsg"@,
        }
    }

    /// The variant name of the event (what it prints as in debug output).
    pub fn variant_name(&self) -> (r: &'static str)
        ensures
            r@ == self.variant_text(),
    {
        match self {
            HookEvent::PreCommit => "PreCommit",
            HookEvent::PrePush => "PrePush",
            HookEvent::PreReceive => "PreReceive",
            HookEvent::PostReceive => "PostReceive",
            HookEvent::Update => "Update",
            HookEvent::PostUpdate => "PostUpdate",
            HookEvent::PreAutoGc => "PreAutoGc",
            HookEvent::PostMerge => "PostMerge",
            HookEvent::PreRebase => "PreRebase",
            HookEvent::PostCheckout => "PostCheckout",
            HookEvent::PostCommit => "PostCommit",
            HookEvent::PreApplyPatch => "PreApplyPatch",
            HookEvent::PostApplyPatch => "PostApplyPatch",
            HookEvent::PostRebase => "PostRebase",
            HookEvent::PreCommitMsg => "PreCommitMsg",
            HookEvent::CommitMsg => "CommitMsg",
            HookEvent::PostCommitMsg => "PostCommitMsg",
        }
    }
}

/// Concern symbol that identifies a specific Git concern.
#[derive(Debug, Clone, Copy, PartialEq, Eq, Structural, Hash)]
pub enum ConcernSymbol {
    /// Git blob objects (file contents)
    Blob,
    /// Git tree objects (directory structure)
    Tree,
    /// Git commit objects (commit history)
    Commit,
    /// Git tag objects (annotated tags)
    Tag,
    /// Tree entry: Regular file (100644)
    TreeFile,
    /// Tree entry: Executable file (100755)
    TreeExecutable,
    /// Tree entry: Symlink (120000)
    TreeSymlink,
    /// Tree entry: Directory (040000)
    TreeDirectory,
    /// Tree entry: Submodule (160000)
    TreeSubmodule,
    /// Git references (heads, tags, etc.)
    Ref,
    /// Git notes (commit-attached metadata)
    Note,
    /// Git attributes (file-based config)
    Attr,
    /// Git index (staging area)
    Index,
    /// Git stash (pseudo-refs for uncommitted work)
    Stash,
    /// Git worktree (linked working directories)
    Worktree,
    /// Git remote (remote repository configurations)
    Remote,
    /// Git branch (branch-specific configurations)
    Branch,
    /// Git HEAD (current branch reference)
    Head,
    /// Git reflog (reference history)
    Reflog,
    /// Git config user settings
    ConfigUser,
    /// Git config core settings
    ConfigCore,
    /// Git config branch settings
    ConfigBranch,
    /// Git config remote settings
    ConfigRemote,
    /// Git config init settings
    ConfigInit,
    /// Git config color settings
    ConfigColor,
    /// Git config alias settings
    ConfigAlias,
    /// Git config diff settings
    ConfigDiff,
    /// Git config merge settings
    ConfigMerge,
    /// Git config GPG settings
    ConfigGpg,
    /// Git config commit settings
    ConfigCommit,
    /// Git config pull settings
    ConfigPull,
    /// Git config push settings
    ConfigPush,
    /// Git config rebase settings
    ConfigRebase,
    /// Git config fetch settings
    ConfigFetch,
    /// Git config status settings
    ConfigStatus,
    /// Git config tar settings
    ConfigTar,
    /// Git config rerere settings
    ConfigRerere,
    /// Git config advice settings
    ConfigAdvice,
    /// Git config interactive settings
    ConfigInteractive,
    /// Git config submodule settings
    ConfigSubmodule,
    /// Git config filter settings
    ConfigFilter,
    /// Git config include settings
    ConfigInclude,
    /// Git config credential settings
    ConfigCredential,
    /// Git config HTTP settings
    ConfigHttp,
    /// Git config URL settings
    ConfigUrl,
    /// Git config safe settings
    ConfigSafe,
    /// Git config notes settings
    ConfigNotes,
    /// Git config garbage collection settings
    ConfigGc,
    /// Git config maintenance settings
    ConfigMaintenance,
    /// Git config pager settings
    ConfigPager,
    /// Git config worktree settings
    ConfigWorktree,
    /// Attribute: Line ending normalization (text, eol=lf, eol=crlf)
    AttrLineEndingNormalization,
    /// Attribute: Diff strategy (diff, binary)
    AttrDiffStrategy,
    /// Attribute: Merge strategy (merge=...)
    AttrMergeStrategy,
    /// Attribute: Export control (export-ignore, export-subst)
    AttrExportControl,
    /// Attribute: Filter driver (filter=...)
    AttrFilterDriver,
    /// Attribute: External tool hints (linguist-language, linguist-vendored)
    AttrExternalToolHint,
    /// Attribute: Locking hints (lockable for Git LFS)
    AttrLockingHint,
    /// Git tree ignore patterns
    IgnorePatternTree,
    /// Git blob ignore patterns
    IgnorePatternBlob,
}

impl ConcernSymbol {
    /// The name of the concern, as text.
    pub open spec fn name_text(self) -> Seq<char> {
        match self {
            ConcernSymbol::Blob => "Blob"@,
            ConcernSymbol::Tree => "Tree"@,
            ConcernSymbol::Commit => "Commit"@,
            ConcernSymbol::Tag => "Tag"@,
            ConcernSymbol::TreeFile => "TreeFile"@,
            ConcernSymbol::TreeExecutable => "TreeExecutable"@,
            ConcernSymbol::TreeSymlink => "TreeSymlink"@,
            ConcernSymbol::TreeDirectory => "TreeDirectory"@,
            ConcernSymbol::TreeSubmodule => "TreeSubmodule"@,
            ConcernSymbol::Ref => "Ref"@,
            ConcernSymbol::Note => "Note"@,
            ConcernSymbol::Attr => "Attr"@,
            ConcernSymbol::Index => "Index"@,
            ConcernSymbol::Stash => "Stash"@,
            ConcernSymbol::Worktree => "Worktree"@,
            ConcernSymbol::Remote => "Remote"@,
            ConcernSymbol::Branch => "Branch"@,
            ConcernSymbol::Head => "Head"@,
            ConcernSymbol::Reflog => "Reflog"@,
            ConcernSymbol::ConfigUser => "ConfigUser"@,
            ConcernSymbol::ConfigCore => "ConfigCore"@,
            ConcernSymbol::ConfigBranch => "ConfigBranch"@,
            ConcernSymbol::ConfigRemote => "ConfigRemote"@,
            ConcernSymbol::ConfigInit => "ConfigInit"@,
            ConcernSymbol::ConfigColor => "ConfigColor"@,
            ConcernSymbol::ConfigAlias => "ConfigAlias"@,
            ConcernSymbol::ConfigDiff => "ConfigDiff"@,
            ConcernSymbol::ConfigMerge => "ConfigMerge"@,
            ConcernSymbol::ConfigGpg => "ConfigGpg"@,
            ConcernSymbol::ConfigCommit => "ConfigCommit"@,
            ConcernSymbol::ConfigPull => "ConfigPull"@,
            ConcernSymbol::ConfigPush => "ConfigPush"@,
            ConcernSymbol::ConfigRebase => "ConfigRebase"@,
            ConcernSymbol::ConfigFetch => "ConfigFetch"@,
            ConcernSymbol::ConfigStatus => "ConfigStatus"@,
            ConcernSymbol::ConfigTar => "ConfigTar"@,
            ConcernSymbol::ConfigRerere => "ConfigRerere"@,
            ConcernSymbol::ConfigAdvice => "ConfigAdvice"@,
            ConcernSymbol::ConfigInteractive => "ConfigInteractive"@,
            ConcernSymbol::ConfigSubmodule => "ConfigSubmodule"@,
            ConcernSymbol::ConfigFilter => "ConfigFilter"@,
            ConcernSymbol::ConfigInclude => "ConfigInclude"@,
            ConcernSymbol::ConfigCredential => "ConfigCredential"@,
            ConcernSymbol::ConfigHttp => "ConfigHttp"@,
            ConcernSymbol::ConfigUrl => "ConfigUrl"@,
            ConcernSymbol::ConfigSafe => "ConfigSafe"@,
            ConcernSymbol::ConfigNotes => "ConfigNotes"@,
            ConcernSymbol::ConfigGc => "ConfigGc"@,
            ConcernSymbol::ConfigMaintenance => "ConfigMaintenance"@,
            ConcernSymbol::ConfigPager => "ConfigPager"@,
            ConcernSymbol::ConfigWorktree => "ConfigWorktree"@,
            ConcernSymbol::AttrLineEndingNormalization => "AttrLineEndingNormalization"@,
            ConcernSymbol::AttrDiffStrategy => "AttrDiffStrategy"@,
            ConcernSymbol::AttrMergeStrategy => "AttrMergeStrategy"@,
            ConcernSymbol::AttrExportControl => "AttrExportControl"@,
            ConcernSymbol::AttrFilterDriver => "AttrFilterDriver"@,
            ConcernSymbol::AttrExternalToolHint => "AttrExternalToolHint"@,
            ConcernSymbol::AttrLockingHint => "AttrLockingHint"@,
            ConcernSymbol::IgnorePatternTree => "IgnorePatternTree"@,
            ConcernSymbol::IgnorePatternBlob => "IgnorePatternBlob"@,
        }
    }

    /// Get the name of the concern.
    pub fn name(&self) -> (r: &'static str)
        ensures
            r@ == self.name_text(),
    {
        match self {
            ConcernSymbol::Blob => "Blob",
            ConcernSymbol::Tree => "Tree",
            ConcernSymbol::Commit => "Commit",
            ConcernSymbol::Tag => "Tag",
            ConcernSymbol::TreeFile => "TreeFile",
            ConcernSymbol::TreeExecutable => "TreeExecutable",
            ConcernSymbol::TreeSymlink => "TreeSymlink",
            ConcernSymbol::TreeDirectory => "TreeDirectory",
            ConcernSymbol::TreeSubmodule => "TreeSubmodule",
            ConcernSymbol::Ref => "Ref",
            ConcernSymbol::Note => "Note",
            ConcernSymbol::Attr => "Attr",
            ConcernSymbol::Index => "Index",
            ConcernSymbol::Stash => "Stash",
            ConcernSymbol::Worktree => "Worktree",
            ConcernSymbol::Remote => "Remote",
            ConcernSymbol::Branch => "Branch",
            ConcernSymbol::Head => "Head",
            ConcernSymbol::Reflog => "Reflog",
            ConcernSymbol::ConfigUser => "ConfigUser",
            ConcernSymbol::ConfigCore => "ConfigCore",
            ConcernSymbol::ConfigBranch => "ConfigBranch",
            ConcernSymbol::ConfigRemote => "ConfigRemote",
            ConcernSymbol::ConfigInit => "ConfigInit",
            ConcernSymbol::ConfigColor => "ConfigColor",
            ConcernSymbol::ConfigAlias => "ConfigAlias",
            ConcernSymbol::ConfigDiff => "ConfigDiff",
            ConcernSymbol::ConfigMerge => "ConfigMerge",
            ConcernSymbol::ConfigGpg => "ConfigGpg",
            ConcernSymbol::ConfigCommit => "ConfigCommit",
            ConcernSymbol::ConfigPull => "ConfigPull",
            ConcernSymbol::ConfigPush => "ConfigPush",
            ConcernSymbol::ConfigRebase => "ConfigRebase",
            ConcernSymbol::ConfigFetch => "ConfigFetch",
            ConcernSymbol::ConfigStatus => "ConfigStatus",
            ConcernSymbol::ConfigTar => "ConfigTar",
            ConcernSymbol::ConfigRerere => "ConfigRerere",
            ConcernSymbol::ConfigAdvice => "ConfigAdvice",
            ConcernSymbol::ConfigInteractive => "ConfigInteractive",
            ConcernSymbol::ConfigSubmodule => "ConfigSubmodule",
            ConcernSymbol::ConfigFilter => "ConfigFilter",
            ConcernSymbol::ConfigInclude => "ConfigInclude",
            ConcernSymbol::ConfigCredential => "ConfigCredential",
            ConcernSymbol::ConfigHttp => "ConfigHttp",
            ConcernSymbol::ConfigUrl => "ConfigUrl",
            ConcernSymbol::ConfigSafe => "ConfigSafe",
            ConcernSymbol::ConfigNotes => "ConfigNotes",
            ConcernSymbol::ConfigGc => "ConfigGc",
            ConcernSymbol::ConfigMaintenance => "ConfigMaintenance",
            ConcernSymbol::ConfigPager => "ConfigPager",
            ConcernSymbol::ConfigWorktree => "ConfigWorktree",
            ConcernSymbol::AttrLineEndingNormalization => "AttrLineEndingNormalization",
            ConcernSymbol::AttrDiffStrategy => "AttrDiffStrategy",
            ConcernSymbol::AttrMergeStrategy => "AttrMergeStrategy",
            ConcernSymbol::AttrExportControl => "AttrExportControl",
            ConcernSymbol::AttrFilterDriver => "AttrFilterDriver",
            ConcernSymbol::AttrExternalToolHint => "AttrExternalToolHint",
            ConcernSymbol::AttrLockingHint => "AttrLockingHint",
            ConcernSymbol::IgnorePatternTree => "IgnorePatternTree",
            ConcernSymbol::IgnorePatternBlob => "IgnorePatternBlob",
        }
    }
}

/// Contract symbol that identifies a specific validation rule.
#[derive(Debug, Clone, PartialEq, Eq, Hash)]
pub struct ContractSymbol(pub String);

impl ContractSymbol {
    /// Create a new contract symbol.
    pub fn new(name: &str) -> (r: Self)
        ensures
            r.0@ == name@,
    {
        ContractSymbol(name.to_owned())
    }

    /// Get the contract name.
    pub fn name(&self) -> (r: &str)
        ensures
            r@ == self.0@,
    {
        self.0.as_str()
    }
}

impl From<String> for ContractSymbol {
    fn from(name: String) -> (r: Self)
        ensures
            r.0 == name,
    {
        ContractSymbol(name)
    }
}

impl vstd::std_specs::convert::FromSpecImpl<String> for ContractSymbol {
    open spec fn obeys_from_spec() -> bool {
        true
    }

    open spec fn from_spec(v: String) -> Self {
        ContractSymbol(v)
    }
}

impl<'a> From<&'a str> for ContractSymbol {
    fn from(name: &'a str) -> (r: Self)
        ensures
            r.0@ == name@,
    {
        ContractSymbol(name.to_owned())
    }
}

impl<'a> vstd::std_specs::convert::FromSpecImpl<&'a str> for ContractSymbol {
    open spec fn obeys_from_spec() -> bool {
        false
    }

    open spec fn from_spec(v: &'a str) -> Self {
        ContractSymbol(vstd::pervasive::arbitrary())
    }
}

/// Rule type for contract validation.
#[derive(Debug, Clone, Copy, PartialEq, Eq, Structural, Hash)]
pub enum RuleType {
    /// Custom validation function
    Custom,
    /// Pattern matching (regex)
    Pattern,
    /// JSON Schema validation
    JsonSchema,
    /// File size limits
    FileSize,
    /// File extension validation
    FileExtension,
}

/// Rule severity levels.
#[derive(Debug, Clone, Copy, PartialEq, Eq, Structural, Hash)]
pub enum RuleSeverity {
    /// Information only
    Info,
    /// Warning
    Warning,
    /// Error
    Error,
    /// Critical error
    Critical,
}

impl RuleSeverity {
    /// The lower-case label of the severity, as text.
    pub open spec fn label_text(self) -> Seq<char> {
        match self {
            RuleSeverity::Info => "info"@,
            RuleSeverity::Warning => "warning"@,
            RuleSeverity::Error => "error"@,
            RuleSeverity::Critical => "critical"@,
        }
    }

    /// The lower-case label of the severity (what the severity displays as).
    pub fn label(&self) -> (r: &'static str)
        ensures
            r@ == self.label_text(),
    {
        match self {
            RuleSeverity::Info => "info",
            RuleSeverity::Warning => "warning",
            RuleSeverity::Error => "error",
            RuleSeverity::Critical => "critical",
        }
    }

    /// The variant name of the severity, as text.
    pub open spec fn variant_text(self) -> Seq<char> {
        match self {
            RuleSeverity::Info => "Info"@,
            RuleSeverity::Warning => "Warning"@,
            RuleSeverity::Error => "Error"@,
            RuleSeverity::Critical => "Critical"@,
        }
    }

    /// The variant name of the severity.
    pub fn variant_name(&self) -> (r: &'static str)
        ensures
            r@ == self.variant_text(),
    {
        match self {
            RuleSeverity::Info => "Info",
            RuleSeverity::Warning => "Warning",
            RuleSeverity::Error => "Error",
            RuleSeverity::Critical => "Critical",
        }
    }
}

} // verus!
