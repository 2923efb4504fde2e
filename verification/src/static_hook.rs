//! Static hook definitions: one scope, a list of Git-native concerns and a
//! single binary, all fixed when the hook is written.

use vstd::prelude::*;
use crate::git_native::{canonical_names, non_native_concern, GitNativeError, GitNativeValidator};
use crate::outside::{is_alphanumeric, unicode_alphanumeric_of};
use crate::sarif::texts;
use crate::text::{chars_of, seq_starts_with, str_starts_with};

verus! {

/// Hook trigger scope (only one per hook).
#[derive(Debug, Clone, Copy, PartialEq, Eq, Structural)]
pub enum HookScope {
    /// Traditional Git lifecycle hooks
    Git,
    /// GitHub-specific hooks
    Github,
    /// File system monitoring hooks
    FsMonitor,
    /// Reference transaction hooks
    Reference,
    /// Email-related hooks
    Email,
    /// Patch-related hooks
    Patch,
}

/// Hook concerns: Git object types, local constructs and config sections.
#[derive(Debug, Clone, Copy, PartialEq, Eq, Structural, Hash, PartialOrd, Ord)]
pub enum HookConcern {
    // Git Object Concerns (Core Objects)
    /// Git blob objects (file contents)
    Blob,
    /// Git tree objects (directory structure)
    Tree,
    /// Git commit objects (commit history)
    Commit,
    /// Git tag objects (annotated tags)
    Tag,
    /// Git references (heads, tags, etc.)
    Ref,
    /// Git notes (commit-attached metadata)
    Note,
    /// Git attributes (file-based config)
    Attr,
    // Git Tree Entry Concerns (specific file types)
    /// Tree entry: Regular file (100644)
    TreeFile,
    /// Tree entry: Executable file (100755)
    TreeExecutable,
    /// Tree entry: Symlink (120000)
    TreeSymlink,
    /// Tree entry: Directory (040000)
    TreeDirectory,
    /// Tree entry: Submodule (160000)
    TreeSubmodule,
    // Git Attribute Concerns (structured behavior mappings)
    /// Attribute: Line ending normalization (text, eol=lf, eol=crlf)
    AttrLineEndingNormalization,
    /// Attribute: Diff strategy (diff, binary)
    AttrDiffStrategy,
    /// Attribute: Merge strategy (merge=...)
    AttrMergeStrategy,
    /// Attribute: Export control (export-ignore, export-subst)
    AttrExportControl,
    /// Attribute: Filter driver (filter=...)
    AttrFilterDriver,
    /// Attribute: External tool hints (linguist-language, linguist-vendored)
    AttrExternalToolHint,
    /// Attribute: Locking hints (lockable for Git LFS)
    AttrLockingHint,
    // Git Reference Concerns (Detailed Ref Types)
    /// Git branch references (refs/heads/*)
    RefBranch,
    /// Git remote references (refs/remotes/*)
    RefRemote,
    /// Git tag references (refs/tags/*)
    RefTag,
    /// Git note references (refs/notes/*)
    RefNote,
    /// Git stash references (refs/stash)
    RefStash,
    /// Git worktree references (worktrees/*/HEAD)
    RefWorktree,
    /// Git symbolic references (HEAD -> refs/heads/main)
    RefSym,
    /// Git HEAD pointer
    HeadPointer,
    /// Git packed references (.git/packed-refs)
    PackedRefs,
    /// Git fetch HEAD pointer
    FetchHeadPointer,
    /// Git merge HEAD pointer
    MergeHeadPointer,
    /// Git cherry-pick HEAD pointer
    CherryPickPointer,
    /// Git revert HEAD pointer
    RevertHeadPointer,
    /// Git original HEAD pointer
    OrigHead,
    /// Git reflog entries
    RefLogEntry,
    // Git Storage Concerns (Object Database)
    /// Git packfile index files
    PackfileIndex,
    /// Git packfile data files
    PackfileData,
    /// Git packfile bitmap files
    PackfileBitmap,
    /// Git packfile keep files
    PackfileKeep,
    /// Git packfile promisor files
    PackfilePromisor,
    /// Git loose objects
    LooseObject,
    /// Git object database
    ObjectDatabase,
    // Git Local State Concerns
    /// Git stash (pseudo-refs for uncommitted work)
    Stash,
    /// Git worktree (linked working directories)
    Worktree,
    /// Git index (staging area)
    Index,
    /// Git remote (remote repository configurations)
    Remote,
    /// Git branch (branch-specific configurations)
    Branch,
    /// Git HEAD (current branch reference)
    Head,
    /// Git reflog (reference history)
    Reflog,
    // Git Transport & Protocol Concerns
    /// Git local filesystem protocol
    ProtocolLocal,
    /// Git protocol (git://)
    ProtocolGit,
    /// Git HTTP protocol
    ProtocolHttp,
    /// Git HTTPS protocol
    ProtocolHttps,
    /// Git SSH protocol
    ProtocolSsh,
    /// Git refspec mappings
    Refspec,
    /// Git protocol packets
    ProtocolPacket,
    // Git Runtime & Environment Concerns
    /// Git directory override
    GitDirOverride,
    /// Git worktree override
    WorkTreeOverride,
    /// Git index file override
    IndexFileOverride,
    /// Git object directory override
    ObjectDirectoryOverride,
    /// Git alternate object databases
    AlternateObjectDatabase,
    /// Git config override
    GitConfigOverride,
    /// Git trace override
    TraceOverride,
    /// Git author override
    AuthorOverride,
    /// Git UI override
    UiOverride,
    // Git Maintenance & Recovery Concerns
    /// Git filesystem consistency check
    FsckCheck,
    /// Git prune orphaned objects
    PruneOrphaned,
    /// Git repack packfiles
    RepackPackfile,
    /// Git garbage collection lifecycle
    GcLifecycle,
    /// Git reflog repair
    ReflogRepair,
    /// Git index recovery
    IndexRecovery,
    // Git Command & Operation Concerns
    /// Git initialization operations
    Init,
    /// Git snapshot operations (add, commit)
    Snapshot,
    /// Git merge operations
    Merge,
    /// Git rebase operations
    Rebase,
    /// Git push operations
    Push,
    /// Git pull operations
    Pull,
    /// Git fetch operations
    Fetch,
    /// Git log operations
    Log,
    /// Git diff operations
    Diff,
    /// Git status operations
    Status,
    /// Git patch operations
    Patch,
    /// Git debug operations
    Debug,
    /// Git blame operations
    Blame,
    /// Git plumbing operations
    Plumbing,
    /// Git object database operations
    ObjectDb,
    /// Git transport operations
    Transport,
    /// Git project initialization
    ProjectInit,
    // Git Config Concerns (first-class)
    /// Git config user settings
    ConfigUser,
    /// Git config core settings
    ConfigCore,
    /// Git config branch settings
    ConfigBranch,
    /// Git config remote settings
    ConfigRemote,
    /// Git config init settings
    ConfigInit,
    /// Git config color settings
    ConfigColor,
    /// Git config alias settings
    ConfigAlias,
    /// Git config diff settings
    ConfigDiff,
    /// Git config merge settings
    ConfigMerge,
    /// Git config GPG settings
    ConfigGpg,
    /// Git config commit settings
    ConfigCommit,
    /// Git config pull settings
    ConfigPull,
    /// Git config push settings
    ConfigPush,
    /// Git config rebase settings
    ConfigRebase,
    /// Git config fetch settings
    ConfigFetch,
    /// Git config status settings
    ConfigStatus,
    /// Git config tar settings
    ConfigTar,
    /// Git config rerere settings
    ConfigRerere,
    /// Git config advice settings
    ConfigAdvice,
    /// Git config interactive settings
    ConfigInteractive,
    /// Git config submodule settings
    ConfigSubmodule,
    /// Git config filter settings
    ConfigFilter,
    /// Git config include settings
    ConfigInclude,
    /// Git config credential settings
    ConfigCredential,
    /// Git config HTTP settings
    ConfigHttp,
    /// Git config URL settings
    ConfigUrl,
    /// Git config safe settings
    ConfigSafe,
    /// Git config notes settings
    ConfigNotes,
    /// Git config garbage collection settings
    ConfigGc,
    /// Git config maintenance settings
    ConfigMaintenance,
    /// Git config pager settings
    ConfigPager,
    /// Git config worktree settings
    ConfigWorktree,
}

/// The name of a concern as written in hook definitions (kebab-case).
pub open spec fn concern_name(c: HookConcern) -> Seq<char> {
    match c {
        HookConcern::Blob => "blob"@,
        HookConcern::Tree => "tree"@,
        HookConcern::Commit => "commit"@,
        HookConcern::Tag => "tag"@,
        HookConcern::Ref => "ref"@,
        HookConcern::Note => "note"@,
        HookConcern::Attr => "attr"@,
        HookConcern::TreeFile => "tree-file"@,
        HookConcern::TreeExecutable => "tree-executable"@,
        HookConcern::TreeSymlink => "tree-symlink"@,
        HookConcern::TreeDirectory => "tree-directory"@,
        HookConcern::TreeSubmodule => "tree-submodule"@,
        HookConcern::AttrLineEndingNormalization => "attr-line-ending-normalization"@,
        HookConcern::AttrDiffStrategy => "attr-diff-strategy"@,
        HookConcern::AttrMergeStrategy => "attr-merge-strategy"@,
        HookConcern::AttrExportControl => "attr-export-control"@,
        HookConcern::AttrFilterDriver => "attr-filter-driver"@,
        HookConcern::AttrExternalToolHint => "attr-external-tool-hint"@,
        HookConcern::AttrLockingHint => "attr-locking-hint"@,
        HookConcern::RefBranch => "ref-branch"@,
        HookConcern::RefRemote => "ref-remote"@,
        HookConcern::RefTag => "ref-tag"@,
        HookConcern::RefNote => "ref-note"@,
        HookConcern::RefStash => "ref-stash"@,
        HookConcern::RefWorktree => "ref-worktree"@,
        HookConcern::RefSym => "ref-sym"@,
        HookConcern::HeadPointer => "head-pointer"@,
        HookConcern::PackedRefs => "packed-refs"@,
        HookConcern::FetchHeadPointer => "fetch-head-pointer"@,
        HookConcern::MergeHeadPointer => "merge-head-pointer"@,
        HookConcern::CherryPickPointer => "cherry-pick-pointer"@,
        HookConcern::RevertHeadPointer => "revert-head-pointer"@,
        HookConcern::OrigHead => "orig-head"@,
        HookConcern::RefLogEntry => "ref-log-entry"@,
        HookConcern::PackfileIndex => "packfile-index"@,
        HookConcern::PackfileData => "packfile-data"@,
        HookConcern::PackfileBitmap => "packfile-bitmap"@,
        HookConcern::PackfileKeep => "packfile-keep"@,
        HookConcern::PackfilePromisor => "packfile-promisor"@,
        HookConcern::LooseObject => "loose-object"@,
        HookConcern::ObjectDatabase => "object-database"@,
        HookConcern::Stash => "stash"@,
        HookConcern::Worktree => "worktree"@,
        HookConcern::Index => "index"@,
        HookConcern::Remote => "remote"@,
        HookConcern::Branch => "branch"@,
        HookConcern::Head => "head"@,
        HookConcern::Reflog => "reflog"@,
        HookConcern::ProtocolLocal => "protocol-local"@,
        HookConcern::ProtocolGit => "protocol-git"@,
        HookConcern::ProtocolHttp => "protocol-http"@,
        HookConcern::ProtocolHttps => "protocol-https"@,
        HookConcern::ProtocolSsh => "protocol-ssh"@,
        HookConcern::Refspec => "refspec"@,
        HookConcern::ProtocolPacket => "protocol-packet"@,
        HookConcern::GitDirOverride => "git-dir-override"@,
        HookConcern::WorkTreeOverride => "work-tree-override"@,
        HookConcern::IndexFileOverride => "index-file-override"@,
        HookConcern::ObjectDirectoryOverride => "object-directory-override"@,
        HookConcern::AlternateObjectDatabase => "alternate-object-database"@,
        HookConcern::GitConfigOverride => "git-config-override"@,
        HookConcern::TraceOverride => "trace-override"@,
        HookConcern::AuthorOverride => "author-override"@,
        HookConcern::UiOverride => "ui-override"@,
        HookConcern::FsckCheck => "fsck-check"@,
        HookConcern::PruneOrphaned => "prune-orphaned"@,
        HookConcern::RepackPackfile => "repack-packfile"@,
        HookConcern::GcLifecycle => "gc-lifecycle"@,
        HookConcern::ReflogRepair => "reflog-repair"@,
        HookConcern::IndexRecovery => "index-recovery"@,
        HookConcern::Init => "init"@,
        HookConcern::Snapshot => "snapshot"@,
        HookConcern::Merge => "merge"@,
        HookConcern::Rebase => "rebase"@,
        HookConcern::Push => "push"@,
        HookConcern::Pull => "pull"@,
        HookConcern::Fetch => "fetch"@,
        HookConcern::Log => "log"@,
        HookConcern::Diff => "diff"@,
        HookConcern::Status => "status"@,
        HookConcern::Patch => "patch"@,
        HookConcern::Debug => "debug"@,
        HookConcern::Blame => "blame"@,
        HookConcern::Plumbing => "plumbing"@,
        HookConcern::ObjectDb => "object-db"@,
        HookConcern::Transport => "transport"@,
        HookConcern::ProjectInit => "project-init"@,
        HookConcern::ConfigUser => "config-user"@,
        HookConcern::ConfigCore => "config-core"@,
        HookConcern::ConfigBranch => "config-branch"@,
        HookConcern::ConfigRemote => "config-remote"@,
        HookConcern::ConfigInit => "config-init"@,
        HookConcern::ConfigColor => "config-color"@,
        HookConcern::ConfigAlias => "config-alias"@,
        HookConcern::ConfigDiff => "config-diff"@,
        HookConcern::ConfigMerge => "config-merge"@,
        HookConcern::ConfigGpg => "config-gpg"@,
        HookConcern::ConfigCommit => "config-commit"@,
        HookConcern::ConfigPull => "config-pull"@,
        HookConcern::ConfigPush => "config-push"@,
        HookConcern::ConfigRebase => "config-rebase"@,
        HookConcern::ConfigFetch => "config-fetch"@,
        HookConcern::ConfigStatus => "config-status"@,
        HookConcern::ConfigTar => "config-tar"@,
        HookConcern::ConfigRerere => "config-rerere"@,
        HookConcern::ConfigAdvice => "config-advice"@,
        HookConcern::ConfigInteractive => "config-interactive"@,
        HookConcern::ConfigSubmodule => "config-submodule"@,
        HookConcern::ConfigFilter => "config-filter"@,
        HookConcern::ConfigInclude => "config-include"@,
        HookConcern::ConfigCredential => "config-credential"@,
        HookConcern::ConfigHttp => "config-http"@,
        HookConcern::ConfigUrl => "config-url"@,
        HookConcern::ConfigSafe => "config-safe"@,
        HookConcern::ConfigNotes => "config-notes"@,
        HookConcern::ConfigGc => "config-gc"@,
        HookConcern::ConfigMaintenance => "config-maintenance"@,
        HookConcern::ConfigPager => "config-pager"@,
        HookConcern::ConfigWorktree => "config-worktree"@,
    }
}

impl HookConcern {
    /// The name of the concern as written in hook definitions.
    pub fn name(&self) -> (r: &'static str)
        ensures
            r@ == concern_name(*self),
    {
        match *self {
            HookConcern::Blob => "blob",
            HookConcern::Tree => "tree",
            HookConcern::Commit => "commit",
            HookConcern::Tag => "tag",
            HookConcern::Ref => "ref",
            HookConcern::Note => "note",
            HookConcern::Attr => "attr",
            HookConcern::TreeFile => "tree-file",
            HookConcern::TreeExecutable => "tree-executable",
            HookConcern::TreeSymlink => "tree-symlink",
            HookConcern::TreeDirectory => "tree-directory",
            HookConcern::TreeSubmodule => "tree-submodule",
            HookConcern::AttrLineEndingNormalization => "attr-line-ending-normalization",
            HookConcern::AttrDiffStrategy => "attr-diff-strategy",
            HookConcern::AttrMergeStrategy => "attr-merge-strategy",
            HookConcern::AttrExportControl => "attr-export-control",
            HookConcern::AttrFilterDriver => "attr-filter-driver",
            HookConcern::AttrExternalToolHint => "attr-external-tool-hint",
            HookConcern::AttrLockingHint => "attr-locking-hint",
            HookConcern::RefBranch => "ref-branch",
            HookConcern::RefRemote => "ref-remote",
            HookConcern::RefTag => "ref-tag",
            HookConcern::RefNote => "ref-note",
            HookConcern::RefStash => "ref-stash",
            HookConcern::RefWorktree => "ref-worktree",
            HookConcern::RefSym => "ref-sym",
            HookConcern::HeadPointer => "head-pointer",
            HookConcern::PackedRefs => "packed-refs",
            HookConcern::FetchHeadPointer => "fetch-head-pointer",
            HookConcern::MergeHeadPointer => "merge-head-pointer",
            HookConcern::CherryPickPointer => "cherry-pick-pointer",
            HookConcern::RevertHeadPointer => "revert-head-pointer",
            HookConcern::OrigHead => "orig-head",
            HookConcern::RefLogEntry => "ref-log-entry",
            HookConcern::PackfileIndex => "packfile-index",
            HookConcern::PackfileData => "packfile-data",
            HookConcern::PackfileBitmap => "packfile-bitmap",
            HookConcern::PackfileKeep => "packfile-keep",
            HookConcern::PackfilePromisor => "packfile-promisor",
            HookConcern::LooseObject => "loose-object",
            HookConcern::ObjectDatabase => "object-database",
            HookConcern::Stash => "stash",
            HookConcern::Worktree => "worktree",
            HookConcern::Index => "index",
            HookConcern::Remote => "remote",
            HookConcern::Branch => "branch",
            HookConcern::Head => "head",
            HookConcern::Reflog => "reflog",
            HookConcern::ProtocolLocal => "protocol-local",
            HookConcern::ProtocolGit => "protocol-git",
            HookConcern::ProtocolHttp => "protocol-http",
            HookConcern::ProtocolHttps => "protocol-https",
            HookConcern::ProtocolSsh => "protocol-ssh",
            HookConcern::Refspec => "refspec",
            HookConcern::ProtocolPacket => "protocol-packet",
            HookConcern::GitDirOverride => "git-dir-override",
            HookConcern::WorkTreeOverride => "work-tree-override",
            HookConcern::IndexFileOverride => "index-file-override",
            HookConcern::ObjectDirectoryOverride => "object-directory-override",
            HookConcern::AlternateObjectDatabase => "alternate-object-database",
            HookConcern::GitConfigOverride => "git-config-override",
            HookConcern::TraceOverride => "trace-override",
            HookConcern::AuthorOverride => "author-override",
            HookConcern::UiOverride => "ui-override",
            HookConcern::FsckCheck => "fsck-check",
            HookConcern::PruneOrphaned => "prune-orphaned",
            HookConcern::RepackPackfile => "repack-packfile",
            HookConcern::GcLifecycle => "gc-lifecycle",
            HookConcern::ReflogRepair => "reflog-repair",
            HookConcern::IndexRecovery => "index-recovery",
            HookConcern::Init => "init",
            HookConcern::Snapshot => "snapshot",
            HookConcern::Merge => "merge",
            HookConcern::Rebase => "rebase",
            HookConcern::Push => "push",
            HookConcern::Pull => "pull",
            HookConcern::Fetch => "fetch",
            HookConcern::Log => "log",
            HookConcern::Diff => "diff",
            HookConcern::Status => "status",
            HookConcern::Patch => "patch",
            HookConcern::Debug => "debug",
            HookConcern::Blame => "blame",
            HookConcern::Plumbing => "plumbing",
            HookConcern::ObjectDb => "object-db",
            HookConcern::Transport => "transport",
            HookConcern::ProjectInit => "project-init",
            HookConcern::ConfigUser => "config-user",
            HookConcern::ConfigCore => "config-core",
            HookConcern::ConfigBranch => "config-branch",
            HookConcern::ConfigRemote => "config-remote",
            HookConcern::ConfigInit => "config-init",
            HookConcern::ConfigColor => "config-color",
            HookConcern::ConfigAlias => "config-alias",
            HookConcern::ConfigDiff => "config-diff",
            HookConcern::ConfigMerge => "config-merge",
            HookConcern::ConfigGpg => "config-gpg",
            HookConcern::ConfigCommit => "config-commit",
            HookConcern::ConfigPull => "config-pull",
            HookConcern::ConfigPush => "config-push",
            HookConcern::ConfigRebase => "config-rebase",
            HookConcern::ConfigFetch => "config-fetch",
            HookConcern::ConfigStatus => "config-status",
            HookConcern::ConfigTar => "config-tar",
            HookConcern::ConfigRerere => "config-rerere",
            HookConcern::ConfigAdvice => "config-advice",
            HookConcern::ConfigInteractive => "config-interactive",
            HookConcern::ConfigSubmodule => "config-submodule",
            HookConcern::ConfigFilter => "config-filter",
            HookConcern::ConfigInclude => "config-include",
            HookConcern::ConfigCredential => "config-credential",
            HookConcern::ConfigHttp => "config-http",
            HookConcern::ConfigUrl => "config-url",
            HookConcern::ConfigSafe => "config-safe",
            HookConcern::ConfigNotes => "config-notes",
            HookConcern::ConfigGc => "config-gc",
            HookConcern::ConfigMaintenance => "config-maintenance",
            HookConcern::ConfigPager => "config-pager",
            HookConcern::ConfigWorktree => "config-worktree",
        }
    }
}

/// The text of a scope.
pub open spec fn scope_text(s: HookScope) -> Seq<char> {
    match s {
        HookScope::Git => "git"@,
        HookScope::Github => "github"@,
        HookScope::FsMonitor => "fsmonitor"@,
        HookScope::Reference => "reference"@,
        HookScope::Email => "email"@,
        HookScope::Patch => "patch"@,
    }
}

/// Static hook definition with no dynamic resolution.
#[derive(Debug)]
pub struct StaticHook {
    /// Human-readable name of the hook
    pub name: String,
    /// Hook trigger scope
    pub scope: HookScope,
    /// The concerns the hook handles
    pub concerns: Vec<HookConcern>,
    /// The one binary of the hook, which must exist at build time
    pub bin: String,
}

/// A character allowed in a hook name: alphanumeric, `_` or `-`.
pub open spec fn hook_name_char(c: char) -> bool {
    unicode_alphanumeric_of(c) || c == '_' || c == '-'
}

/// Every character of the name is allowed.
pub open spec fn hook_name_valid(name: Seq<char>) -> bool {
    forall|i: int| 0 <= i < name.len() ==> hook_name_char(#[trigger] name[i])
}

/// The names of a list of concerns, in order.
pub open spec fn concern_names(cs: Seq<HookConcern>) -> Seq<Seq<char>> {
    cs.map_values(|c: HookConcern| concern_name(c))
}

/// Names that are not canonical Git-native concern names.
pub open spec fn non_native_name() -> spec_fn(Seq<char>) -> bool {
    |n: Seq<char>| !canonical_names().contains(n)
}

/// The line reported for a concern name that is not Git-native.
pub open spec fn non_native_line(n: Seq<char>) -> Seq<char> {
    "Non-Git-native concern '"@ + n + "' not allowed"@
}

/// Lines joined by newlines.
pub open spec fn joined_lines(lines: Seq<Seq<char>>) -> Seq<char>
    decreases lines.len(),
{
    if lines.len() == 0 {
        Seq::empty()
    } else if lines.len() == 1 {
        lines[0]
    } else {
        joined_lines(lines.drop_last()) + "\n"@ + lines.last()
    }
}

/// The message for concern names that are not Git-native.
pub open spec fn concerns_failure_text(bad: Seq<Seq<char>>) -> Seq<char> {
    "Hook concerns validation failed:\n"@ + joined_lines(bad.map_values(|n: Seq<char>| non_native_line(n)))
}

/// Where the binary of a hook is looked for: an absolute path or one under
/// `target/` as written, any other below `target/release`.
pub open spec fn resolved_binary_path_of(bin: Seq<char>) -> Seq<char> {
    if seq_starts_with(bin, "/"@) || seq_starts_with(bin, "target/"@) {
        bin
    } else {
        "target/release/"@ + bin
    }
}

/// Why a hook definition is refused, in the order the checks run, given
/// whether its resolved binary path exists and is a file; `None` where it
/// is accepted.
pub open spec fn hook_failure(
    name: Seq<char>,
    concerns: Seq<HookConcern>,
    bin: Seq<char>,
    binary_exists: bool,
    binary_is_file: bool,
) -> Option<Seq<char>> {
    let bad = concern_names(concerns).filter(non_native_name());
    if !hook_name_valid(name) {
        Some(
            "Invalid hook name '"@ + name
                + "': must contain only alphanumeric characters, underscores, and hyphens"@,
        )
    } else if bad.len() > 0 {
        Some(concerns_failure_text(bad))
    } else if !concerns.no_duplicates() {
        Some("Duplicate concerns found in hook '"@ + name + "'"@)
    } else if !binary_exists {
        Some("Missing hook binary: "@ + resolved_binary_path_of(bin))
    } else if !binary_is_file {
        Some("Hook binary is not a file: "@ + resolved_binary_path_of(bin))
    } else {
        None
    }
}

/// Names of strings, filtered, are the filtered names.
proof fn lemma_texts_filter(s: Seq<String>)
    ensures
        texts(s.filter(non_native_concern())) == texts(s).filter(non_native_name()),
    decreases s.len(),
{
    reveal_with_fuel(Seq::<_>::filter, 1);
    if s.len() == 0 {
        assert(texts(s) =~= Seq::<Seq<char>>::empty());
        assert(texts(s.filter(non_native_concern())) =~= Seq::<Seq<char>>::empty());
    } else {
        lemma_texts_filter(s.drop_last());
        assert(texts(s).drop_last() =~= texts(s.drop_last()));
        assert(texts(s).last() == s.last()@);
        let f = s.drop_last().filter(non_native_concern());
        assert(texts(f.push(s.last())) =~= texts(f).push(s.last()@));
    }
}

/// Whether every character of a hook name is allowed.
fn hook_name_is_valid(name: &str) -> (r: bool)
    ensures
        r == hook_name_valid(name@),
{
    let cs = chars_of(name);
    let mut i: usize = 0;
    while i < cs.len()
        invariant
            cs@ == name@,
            i <= cs@.len(),
            forall|j: int| 0 <= j < i ==> hook_name_char(#[trigger] name@[j]),
        decreases cs@.len() - i,
    {
        let c = cs[i];
        if !(is_alphanumeric(c) || c == '_' || c == '-') {
            return false;
        }
        i = i + 1;
    }
    true
}

/// Whether some concern occurs twice.
fn has_duplicate(concerns: &Vec<HookConcern>) -> (r: bool)
    ensures
        r == !concerns@.no_duplicates(),
{
    let mut i: usize = 0;
    while i < concerns.len()
        invariant
            i <= concerns@.len(),
            forall|a: int, b: int| 0 <= a < b < concerns@.len() && a < i ==> concerns@[a] != concerns@[b],
        decreases concerns@.len() - i,
    {
        let mut j: usize = i + 1;
        while j < concerns.len()
            invariant
                i < concerns@.len(),
                i + 1 <= j <= concerns@.len(),
                forall|a: int, b: int| 0 <= a < b < concerns@.len() && a < i ==> concerns@[a] != concerns@[b],
                forall|b: int| i < b < j ==> concerns@[i as int] != concerns@[b],
            decreases concerns@.len() - j,
        {
            if concerns[i] == concerns[j] {
                return true;
            }
            j = j + 1;
        }
        i = i + 1;
    }
    false
}

/// The message for concern names that are not Git-native.
fn concerns_failure_message(bad: &Vec<String>) -> (r: String)
    requires
        bad@.len() > 0,
    ensures
        r@ == concerns_failure_text(texts(bad@)),
{
    let ghost lines = texts(bad@).map_values(|n: Seq<char>| non_native_line(n));
    let mut joined = "Non-Git-native concern '".to_owned();
    joined.append(bad[0].as_str());
    joined.append("' not allowed");
    assert(lines.take(1) =~= seq![lines[0]]);
    let mut i: usize = 1;
    while i < bad.len()
        invariant
            1 <= i <= bad@.len(),
            lines == texts(bad@).map_values(|n: Seq<char>| non_native_line(n)),
            lines.len() == bad@.len(),
            joined@ == joined_lines(lines.take(i as int)),
        decreases bad@.len() - i,
    {
        joined.append("\n");
        joined.append("Non-Git-native concern '");
        joined.append(bad[i].as_str());
        joined.append("' not allowed");
        assert(lines.take(i + 1).drop_last() =~= lines.take(i as int));
        assert(lines.take(i + 1).last() == non_native_line(bad@[i as int]@));
        i = i + 1;
    }
    assert(lines.take(lines.len() as int) =~= lines);
    let mut r = "Hook concerns validation failed:\n".to_owned();
    r.append(joined.as_str());
    r
}

impl StaticHook {
    /// Why the definition is refused, given whether the resolved binary
    /// path exists and is a file.
    pub open spec fn failure(&self, binary_exists: bool, binary_is_file: bool) -> Option<Seq<char>> {
        hook_failure(self.name@, self.concerns@, self.bin@, binary_exists, binary_is_file)
    }

    /// Validate the definition: the name holds only alphanumeric
    /// characters, `_` and `-`; every concern is Git-native; no concern
    /// occurs twice; the binary at the resolved path exists and is a file
    /// (what the file system says of that path is given).
    pub fn validate(&self, binary_exists: bool, binary_is_file: bool) -> (r: Result<(), String>)
        ensures
            match self.failure(binary_exists, binary_is_file) {
                Some(m) => r matches Err(e) && e@ == m,
                None => r is Ok,
            },
    {
        if !hook_name_is_valid(self.name.as_str()) {
            let mut m = "Invalid hook name '".to_owned();
            m.append(self.name.as_str());
            m.append("': must contain only alphanumeric characters, underscores, and hyphens");
            return Err(m);
        }
        let mut names: Vec<String> = Vec::new();
        let mut i: usize = 0;
        while i < self.concerns.len()
            invariant
                i <= self.concerns@.len(),
                texts(names@) == concern_names(self.concerns@.take(i as int)),
            decreases self.concerns@.len() - i,
        {
            let ghost before = names@;
            let n = self.concerns[i].name().to_owned();
            names.push(n);
            assert(self.concerns@.take(i + 1) =~= self.concerns@.take(i as int).push(self.concerns@[i as int]));
            assert(texts(names@) =~= texts(before).push(concern_name(self.concerns@[i as int])));
            assert(concern_names(self.concerns@.take(i + 1)) =~= concern_names(self.concerns@.take(i as int)).push(
                concern_name(self.concerns@[i as int]),
            ));
            i = i + 1;
        }
        assert(self.concerns@.take(self.concerns@.len() as int) =~= self.concerns@);
        proof {
            lemma_texts_filter(names@);
        }
        match GitNativeValidator::validate_concerns(names.as_slice()) {
            Ok(()) => {
                proof {
                    let bad = concern_names(self.concerns@).filter(non_native_name());
                    if bad.len() > 0 {
                        assert(bad.contains(bad[0]));
                        concern_names(self.concerns@).lemma_filter_contains_rev(non_native_name(), bad[0]);
                        let k = choose|k: int| 0 <= k < names@.len() && concern_names(self.concerns@)[k] == bad[0];
                        assert(canonical_names().contains(names@[k]@));
                        concern_names(self.concerns@).lemma_filter_pred(non_native_name(), 0);
                    }
                }
            },
            Err(GitNativeError::NonNativeConcerns(bad)) => {
                assert(texts(bad@) == concern_names(self.concerns@).filter(non_native_name()));
                proof {
                    if bad@.len() == 0 {
                        let k = choose|k: int| 0 <= k < names@.len() && !canonical_names().contains(#[trigger] names@[k]@);
                        names@.lemma_filter_contains(non_native_concern(), k);
                    }
                }
                return Err(concerns_failure_message(&bad));
            },
            Err(GitNativeError::UnknownObjectTypes(_)) => {
                return Err(String::new());
            },
        }
        if has_duplicate(&self.concerns) {
            let mut m = "Duplicate concerns found in hook '".to_owned();
            m.append(self.name.as_str());
            m.append("'");
            return Err(m);
        }
        if !binary_exists {
            let mut m = "Missing hook binary: ".to_owned();
            let p = self.resolved_binary_path();
            m.append(p.as_str());
            return Err(m);
        }
        if !binary_is_file {
            let mut m = "Hook binary is not a file: ".to_owned();
            let p = self.resolved_binary_path();
            m.append(p.as_str());
            return Err(m);
        }
        Ok(())
    }

    /// The path where the binary is looked for: the binary as written
    /// where it is absolute or under `target/`, else below `target/release`.
    pub fn resolved_binary_path(&self) -> (r: String)
        ensures
            r@ == resolved_binary_path_of(self.bin@),
    {
        if str_starts_with(self.bin.as_str(), "/") || str_starts_with(self.bin.as_str(), "target/") {
            let mut r = String::new();
            r.append(self.bin.as_str());
            r
        } else {
            let mut r = "target/release/".to_owned();
            r.append(self.bin.as_str());
            r
        }
    }

    /// The binary as written.
    pub fn binary_path(&self) -> (r: &str)
        ensures
            r@ == self.bin@,
    {
        self.bin.as_str()
    }

    /// Whether the hook handles a concern.
    pub fn concerns_type(&self, concern: &HookConcern) -> (r: bool)
        ensures
            r == self.concerns@.contains(*concern),
    {
        let mut i: usize = 0;
        while i < self.concerns.len()
            invariant
                i <= self.concerns@.len(),
                forall|j: int| 0 <= j < i ==> self.concerns@[j] != *concern,
            decreases self.concerns@.len() - i,
        {
            if self.concerns[i] == *concern {
                return true;
            }
            i = i + 1;
        }
        false
    }

    /// The scope as text.
    pub fn scope_str(&self) -> (r: &'static str)
        ensures
            r@ == scope_text(self.scope),
    {
        match self.scope {
            HookScope::Git => "git",
            HookScope::Github => "github",
            HookScope::FsMonitor => "fsmonitor",
            HookScope::Reference => "reference",
            HookScope::Email => "email",
            HookScope::Patch => "patch",
        }
    }
}

} // verus!
