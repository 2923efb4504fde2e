//! Git-native concern names: the canonical object, tree-entry, metadata and
//! config-section names, and their mapping to typed kinds.

use vstd::prelude::*;
use crate::text::str_eq;

verus! {

/// Git-native object types.
#[derive(Debug, Clone, Copy, PartialEq, Eq, Structural, Hash)]
pub enum GitObjectType {
    /// File contents (git2::ObjectType::Blob, gix::ObjectKind::Blob)
    Blob,
    /// Directory structure (git2::ObjectType::Tree, gix::ObjectKind::Tree)
    Tree,
    /// Commit history (git2::ObjectType::Commit, gix::ObjectKind::Commit)
    Commit,
    /// Annotated tag (git2::ObjectType::Tag, gix::ObjectKind::Tag)
    Tag,
}

/// Git tree entry types (specific file modes).
#[derive(Debug, Clone, Copy, PartialEq, Eq, Structural, Hash)]
pub enum GitTreeEntryType {
    /// Regular file (100644) - Blob
    TreeFile,
    /// Executable file (100755) - Blob
    TreeExecutable,
    /// Symlink (120000) - Blob
    TreeSymlink,
    /// Directory (040000) - Tree
    TreeDirectory,
    /// Submodule (160000) - Commit (gitlink)
    TreeSubmodule,
}

/// Git namespaced metadata types (not objects but tracked by Git).
#[derive(Debug, Clone, Copy, PartialEq, Eq, Structural, Hash)]
pub enum GitMetadataType {
    /// References (heads, tags, etc.) - tracked in .git/refs/
    Ref,
    /// Notes (commit-attached metadata) - tracked in .git/refs/notes/
    Note,
    /// Attributes (file-based config) - tracked in working tree or .git/info
    Attr,
    /// Index (staging area) - tracked in .git/index
    Index,
    /// Stash (pseudo-refs for uncommitted work) - tracked in .git/refs/stash
    Stash,
    /// Worktree (linked working directories) - tracked in .git/worktrees/
    Worktree,
    /// Remote (remote repository configurations) - tracked in .git/config
    Remote,
    /// Branch (branch-specific configurations) - tracked in .git/config
    Branch,
    /// Head (current branch reference) - tracked in .git/HEAD
    Head,
    /// Reflog (reference history) - tracked in .git/logs/
    Reflog,
}

/// Git config section types (first-class concerns).
#[derive(Debug, Clone, Copy, PartialEq, Eq, Structural, Hash)]
pub enum GitConfigType {
    /// User configuration settings
    ConfigUser,
    /// Core configuration settings
    ConfigCore,
    /// Branch configuration settings
    ConfigBranch,
    /// Remote configuration settings
    ConfigRemote,
    /// Init configuration settings
    ConfigInit,
    /// Color configuration settings
    ConfigColor,
    /// Alias configuration settings
    ConfigAlias,
    /// Diff configuration settings
    ConfigDiff,
    /// Merge configuration settings
    ConfigMerge,
    /// GPG configuration settings
    ConfigGpg,
    /// Commit configuration settings
    ConfigCommit,
    /// Pull configuration settings
    ConfigPull,
    /// Push configuration settings
    ConfigPush,
    /// Rebase configuration settings
    ConfigRebase,
    /// Fetch configuration settings
    ConfigFetch,
    /// Status configuration settings
    ConfigStatus,
    /// Tar configuration settings
    ConfigTar,
    /// Rerere configuration settings
    ConfigRerere,
    /// Advice configuration settings
    ConfigAdvice,
    /// Interactive configuration settings
    ConfigInteractive,
    /// Submodule configuration settings
    ConfigSubmodule,
    /// Filter configuration settings
    ConfigFilter,
    /// Include configuration settings
    ConfigInclude,
    /// Credential configuration settings
    ConfigCredential,
    /// HTTP configuration settings
    ConfigHttp,
    /// URL configuration settings
    ConfigUrl,
    /// Safe configuration settings
    ConfigSafe,
    /// Notes configuration settings
    ConfigNotes,
    /// Garbage collection configuration settings
    ConfigGc,
    /// Maintenance configuration settings
    ConfigMaintenance,
    /// Pager configuration settings
    ConfigPager,
    /// Worktree configuration settings
    ConfigWorktree,
}

/// The canonical Git object types names, in order.
pub open spec fn object_type_names() -> Seq<Seq<char>> {
    seq!["blob"@, "tree"@, "commit"@, "tag"@]
}

/// The object type that a name denotes, if any.
pub open spec fn object_type_of(name: Seq<char>) -> Option<GitObjectType> {
    if name == "blob"@ {
        Some(GitObjectType::Blob)
    } else if name == "tree"@ {
        Some(GitObjectType::Tree)
    } else if name == "commit"@ {
        Some(GitObjectType::Commit)
    } else if name == "tag"@ {
        Some(GitObjectType::Tag)
    } else {
        None
    }
}

/// The canonical Git tree entry types names, in order.
pub open spec fn tree_entry_type_names() -> Seq<Seq<char>> {
    seq!["tree-file"@, "tree-executable"@, "tree-symlink"@, "tree-directory"@, "tree-submodule"@]
}

/// The tree entry type that a name denotes, if any.
pub open spec fn tree_entry_type_of(name: Seq<char>) -> Option<GitTreeEntryType> {
    if name == "tree-file"@ {
        Some(GitTreeEntryType::TreeFile)
    } else if name == "tree-executable"@ {
        Some(GitTreeEntryType::TreeExecutable)
    } else if name == "tree-symlink"@ {
        Some(GitTreeEntryType::TreeSymlink)
    } else if name == "tree-directory"@ {
        Some(GitTreeEntryType::TreeDirectory)
    } else if name == "tree-submodule"@ {
        Some(GitTreeEntryType::TreeSubmodule)
    } else {
        None
    }
}

/// The canonical Git metadata types names, in order.
pub open spec fn metadata_type_names() -> Seq<Seq<char>> {
    seq!["ref"@, "note"@, "attr"@, "index"@, "stash"@, "worktree"@, "remote"@, "branch"@, "head"@, "reflog"@]
}

/// The metadata type that a name denotes, if any.
pub open spec fn metadata_type_of(name: Seq<char>) -> Option<GitMetadataType> {
    if name == "ref"@ {
        Some(GitMetadataType::Ref)
    } else if name == "note"@ {
        Some(GitMetadataType::Note)
    } else if name == "attr"@ {
        Some(GitMetadataType::Attr)
    } else if name == "index"@ {
        Some(GitMetadataType::Index)
    } else if name == "stash"@ {
        Some(GitMetadataType::Stash)
    } else if name == "worktree"@ {
        Some(GitMetadataType::Worktree)
    } else if name == "remote"@ {
        Some(GitMetadataType::Remote)
    } else if name == "branch"@ {
        Some(GitMetadataType::Branch)
    } else if name == "head"@ {
        Some(GitMetadataType::Head)
    } else if name == "reflog"@ {
        Some(GitMetadataType::Reflog)
    } else {
        None
    }
}

/// The canonical Git config types names, in order.
pub open spec fn config_type_names() -> Seq<Seq<char>> {
    seq!["config-user"@, "config-core"@, "config-branch"@, "config-remote"@, "config-init"@, "config-color"@, "config-alias"@, "config-diff"@, "config-merge"@, "config-gpg"@, "config-commit"@, "config-pull"@, "config-push"@, "config-rebase"@, "config-fetch"@, "config-status"@, "config-tar"@, "config-rerere"@, "config-advice"@, "config-interactive"@, "config-submodule"@, "config-filter"@, "config-include"@, "config-credential"@, "config-http"@, "config-url"@, "config-safe"@, "config-notes"@, "config-gc"@, "config-maintenance"@, "config-pager"@, "config-worktree"@]
}

/// The config type that a name denotes, if any.
pub open spec fn config_type_of(name: Seq<char>) -> Option<GitConfigType> {
    if name == "config-user"@ {
        Some(GitConfigType::ConfigUser)
    } else if name == "config-core"@ {
        Some(GitConfigType::ConfigCore)
    } else if name == "config-branch"@ {
        Some(GitConfigType::ConfigBranch)
    } else if name == "config-remote"@ {
        Some(GitConfigType::ConfigRemote)
    } else if name == "config-init"@ {
        Some(GitConfigType::ConfigInit)
    } else if name == "config-color"@ {
        Some(GitConfigType::ConfigColor)
    } else if name == "config-alias"@ {
        Some(GitConfigType::ConfigAlias)
    } else if name == "config-diff"@ {
        Some(GitConfigType::ConfigDiff)
    } else if name == "config-merge"@ {
        Some(GitConfigType::ConfigMerge)
    } else if name == "config-gpg"@ {
        Some(GitConfigType::ConfigGpg)
    } else if name == "config-commit"@ {
        Some(GitConfigType::ConfigCommit)
    } else if name == "config-pull"@ {
        Some(GitConfigType::ConfigPull)
    } else if name == "config-push"@ {
        Some(GitConfigType::ConfigPush)
    } else if name == "config-rebase"@ {
        Some(GitConfigType::ConfigRebase)
    } else if name == "config-fetch"@ {
        Some(GitConfigType::ConfigFetch)
    } else if name == "config-status"@ {
        Some(GitConfigType::ConfigStatus)
    } else if name == "config-tar"@ {
        Some(GitConfigType::ConfigTar)
    } else if name == "config-rerere"@ {
        Some(GitConfigType::ConfigRerere)
    } else if name == "config-advice"@ {
        Some(GitConfigType::ConfigAdvice)
    } else if name == "config-interactive"@ {
        Some(GitConfigType::ConfigInteractive)
    } else if name == "config-submodule"@ {
        Some(GitConfigType::ConfigSubmodule)
    } else if name == "config-filter"@ {
        Some(GitConfigType::ConfigFilter)
    } else if name == "config-include"@ {
        Some(GitConfigType::ConfigInclude)
    } else if name == "config-credential"@ {
        Some(GitConfigType::ConfigCredential)
    } else if name == "config-http"@ {
        Some(GitConfigType::ConfigHttp)
    } else if name == "config-url"@ {
        Some(GitConfigType::ConfigUrl)
    } else if name == "config-safe"@ {
        Some(GitConfigType::ConfigSafe)
    } else if name == "config-notes"@ {
        Some(GitConfigType::ConfigNotes)
    } else if name == "config-gc"@ {
        Some(GitConfigType::ConfigGc)
    } else if name == "config-maintenance"@ {
        Some(GitConfigType::ConfigMaintenance)
    } else if name == "config-pager"@ {
        Some(GitConfigType::ConfigPager)
    } else if name == "config-worktree"@ {
        Some(GitConfigType::ConfigWorktree)
    } else {
        None
    }
}

/// The texts of a sequence of string slices.
pub open spec fn str_views(v: Seq<&str>) -> Seq<Seq<char>> {
    v.map_values(|s: &str| s@)
}

/// All canonical Git-native concern names: objects, tree entries, metadata, config sections.
pub open spec fn canonical_names() -> Seq<Seq<char>> {
    object_type_names() + tree_entry_type_names() + metadata_type_names() + config_type_names()
}

/// Entries whose name is not a Git object type.
pub open spec fn unknown_object_entry() -> spec_fn((String, u32)) -> bool {
    |e: (String, u32)| object_type_of(e.0@) is None
}

/// Concerns that are not canonical Git-native names.
pub open spec fn non_native_concern() -> spec_fn(String) -> bool {
    |c: String| !canonical_names().contains(c@)
}

/// Errors of Git-native validation.
#[derive(Debug, Clone)]
pub enum GitNativeError {
    /// Object types that are not Git object types, with their counts
    UnknownObjectTypes(Vec<(String, u32)>),
    /// Concerns that are not Git-native
    NonNativeConcerns(Vec<String>),
}

/// Git-native validation context.
pub struct GitNativeValidator {
    object_counts: Vec<(GitObjectType, u32)>,
    metadata_counts: Vec<(GitMetadataType, u32)>,
}

impl GitNativeValidator {
    /// No object or metadata counts have been recorded.
    pub closed spec fn counts_empty(&self) -> bool {
        self.object_counts@.len() == 0 && self.metadata_counts@.len() == 0
    }

    /// Create a new Git-native validator instance.
    pub fn new() -> (r: Self)
        ensures
            r.counts_empty(),
    {
        Self { object_counts: Vec::new(), metadata_counts: Vec::new() }
    }

    /// Validate Git object types against canonical Git types: the error lists, in
    /// order, every entry whose name is not a Git object type.
    pub fn validate_object_types(&self, object_counts: &Vec<(String, u32)>) -> (r: Result<(), GitNativeError>)
        ensures
            r is Ok <==> forall|i: int| 0 <= i < object_counts@.len() ==> object_type_of(#[trigger] object_counts@[i].0@) is Some,
            r matches Err(GitNativeError::UnknownObjectTypes(bad)) ==> bad@.map_values(|e: (String, u32)| (e.0@, e.1))
                == object_counts@.filter(unknown_object_entry()).map_values(|e: (String, u32)| (e.0@, e.1)),
            !(r matches Err(GitNativeError::NonNativeConcerns(_))),
    {
        let mut bad: Vec<(String, u32)> = Vec::new();
        let mut i: usize = 0;
        while i < object_counts.len()
            invariant
                i <= object_counts@.len(),
                bad@ == object_counts@.subrange(0, i as int).filter(unknown_object_entry()),
            decreases object_counts@.len() - i,
        {
            reveal_with_fuel(Seq::<_>::filter, 1);
            let entry = &object_counts[i];
            if Self::map_object_type(entry.0.as_str()).is_none() {
                bad.push((entry.0.clone(), entry.1));
            }
            assert(object_counts@.subrange(0, i + 1).drop_last() =~= object_counts@.subrange(0, i as int));
            i = i + 1;
        }
        assert(object_counts@.subrange(0, object_counts@.len() as int) =~= object_counts@);
        if bad.len() == 0 {
            proof {
                assert forall|i: int| 0 <= i < object_counts@.len() implies object_type_of(#[trigger] object_counts@[i].0@) is Some by {
                    if object_type_of(object_counts@[i].0@) is None {
                        object_counts@.lemma_filter_contains(unknown_object_entry(), i);
                        assert(bad@.contains(object_counts@[i]));
                    }
                }
            }
            Ok(())
        } else {
            proof {
                let e = bad@[0];
                assert(bad@.contains(e));
                object_counts@.lemma_filter_pred(unknown_object_entry(), 0);
                object_counts@.lemma_filter_contains_rev(unknown_object_entry(), e);
                let k = choose|k: int| 0 <= k < object_counts@.len() && object_counts@[k] == e;
                assert(object_type_of(object_counts@[k].0@) is None);
            }
            Err(GitNativeError::UnknownObjectTypes(bad))
        }
    }

    /// Map a string object type to its Git-native kind.
    pub fn map_object_type(name: &str) -> (r: Option<GitObjectType>)
        ensures
            r == object_type_of(name@),
    {
        if str_eq(name, "blob") {
            return Some(GitObjectType::Blob);
        }
        if str_eq(name, "tree") {
            return Some(GitObjectType::Tree);
        }
        if str_eq(name, "commit") {
            return Some(GitObjectType::Commit);
        }
        if str_eq(name, "tag") {
            return Some(GitObjectType::Tag);
        }
        None
    }

    /// Get canonical Git object types names.
    pub fn canonical_object_types() -> (r: Vec<&'static str>)
        ensures
            str_views(r@) == object_type_names(),
    {
        let r = vec!["blob", "tree", "commit", "tag"];
        assert(str_views(r@) =~= object_type_names());
        r
    }

    /// Map a string tree entry type to its Git-native kind.
    pub fn map_tree_entry_type(name: &str) -> (r: Option<GitTreeEntryType>)
        ensures
            r == tree_entry_type_of(name@),
    {
        if str_eq(name, "tree-file") {
            return Some(GitTreeEntryType::TreeFile);
        }
        if str_eq(name, "tree-executable") {
            return Some(GitTreeEntryType::TreeExecutable);
        }
        if str_eq(name, "tree-symlink") {
            return Some(GitTreeEntryType::TreeSymlink);
        }
        if str_eq(name, "tree-directory") {
            return Some(GitTreeEntryType::TreeDirectory);
        }
        if str_eq(name, "tree-submodule") {
            return Some(GitTreeEntryType::TreeSubmodule);
        }
        None
    }

    /// Get canonical Git tree entry types names.
    pub fn canonical_tree_entry_types() -> (r: Vec<&'static str>)
        ensures
            str_views(r@) == tree_entry_type_names(),
    {
        let r = vec!["tree-file", "tree-executable", "tree-symlink", "tree-directory", "tree-submodule"];
        assert(str_views(r@) =~= tree_entry_type_names());
        r
    }

    /// Map a string metadata type to its Git-native kind.
    pub fn map_metadata_type(name: &str) -> (r: Option<GitMetadataType>)
        ensures
            r == metadata_type_of(name@),
    {
        if str_eq(name, "ref") {
            return Some(GitMetadataType::Ref);
        }
        if str_eq(name, "note") {
            return Some(GitMetadataType::Note);
        }
        if str_eq(name, "attr") {
            return Some(GitMetadataType::Attr);
        }
        if str_eq(name, "index") {
            return Some(GitMetadataType::Index);
        }
        if str_eq(name, "stash") {
            return Some(GitMetadataType::Stash);
        }
        if str_eq(name, "worktree") {
            return Some(GitMetadataType::Worktree);
        }
        if str_eq(name, "remote") {
            return Some(GitMetadataType::Remote);
        }
        if str_eq(name, "branch") {
            return Some(GitMetadataType::Branch);
        }
        if str_eq(name, "head") {
            return Some(GitMetadataType::Head);
        }
        if str_eq(name, "reflog") {
            return Some(GitMetadataType::Reflog);
        }
        None
    }

    /// Get canonical Git metadata types names.
    pub fn canonical_metadata_types() -> (r: Vec<&'static str>)
        ensures
            str_views(r@) == metadata_type_names(),
    {
        let r = vec!["ref", "note", "attr", "index", "stash", "worktree", "remote", "branch", "head", "reflog"];
        assert(str_views(r@) =~= metadata_type_names());
        r
    }

    /// Map a string config type to its Git-native kind.
    pub fn map_config_type(name: &str) -> (r: Option<GitConfigType>)
        ensures
            r == config_type_of(name@),
    {
        if str_eq(name, "config-user") {
            return Some(GitConfigType::ConfigUser);
        }
        if str_eq(name, "config-core") {
            return Some(GitConfigType::ConfigCore);
        }
        if str_eq(name, "config-branch") {
            return Some(GitConfigType::ConfigBranch);
        }
        if str_eq(name, "config-remote") {
            return Some(GitConfigType::ConfigRemote);
        }
        if str_eq(name, "config-init") {
            return Some(GitConfigType::ConfigInit);
        }
        if str_eq(name, "config-color") {
            return Some(GitConfigType::ConfigColor);
        }
        if str_eq(name, "config-alias") {
            return Some(GitConfigType::ConfigAlias);
        }
        if str_eq(name, "config-diff") {
            return Some(GitConfigType::ConfigDiff);
        }
        if str_eq(name, "config-merge") {
            return Some(GitConfigType::ConfigMerge);
        }
        if str_eq(name, "config-gpg") {
            return Some(GitConfigType::ConfigGpg);
        }
        if str_eq(name, "config-commit") {
            return Some(GitConfigType::ConfigCommit);
        }
        if str_eq(name, "config-pull") {
            return Some(GitConfigType::ConfigPull);
        }
        if str_eq(name, "config-push") {
            return Some(GitConfigType::ConfigPush);
        }
        if str_eq(name, "config-rebase") {
            return Some(GitConfigType::ConfigRebase);
        }
        if str_eq(name, "config-fetch") {
            return Some(GitConfigType::ConfigFetch);
        }
        if str_eq(name, "config-status") {
            return Some(GitConfigType::ConfigStatus);
        }
        if str_eq(name, "config-tar") {
            return Some(GitConfigType::ConfigTar);
        }
        if str_eq(name, "config-rerere") {
            return Some(GitConfigType::ConfigRerere);
        }
        if str_eq(name, "config-advice") {
            return Some(GitConfigType::ConfigAdvice);
        }
        if str_eq(name, "config-interactive") {
            return Some(GitConfigType::ConfigInteractive);
        }
        if str_eq(name, "config-submodule") {
            return Some(GitConfigType::ConfigSubmodule);
        }
        if str_eq(name, "config-filter") {
            return Some(GitConfigType::ConfigFilter);
        }
        if str_eq(name, "config-include") {
            return Some(GitConfigType::ConfigInclude);
        }
        if str_eq(name, "config-credential") {
            return Some(GitConfigType::ConfigCredential);
        }
        if str_eq(name, "config-http") {
            return Some(GitConfigType::ConfigHttp);
        }
        if str_eq(name, "config-url") {
            return Some(GitConfigType::ConfigUrl);
        }
        if str_eq(name, "config-safe") {
            return Some(GitConfigType::ConfigSafe);
        }
        if str_eq(name, "config-notes") {
            return Some(GitConfigType::ConfigNotes);
        }
        if str_eq(name, "config-gc") {
            return Some(GitConfigType::ConfigGc);
        }
        if str_eq(name, "config-maintenance") {
            return Some(GitConfigType::ConfigMaintenance);
        }
        if str_eq(name, "config-pager") {
            return Some(GitConfigType::ConfigPager);
        }
        if str_eq(name, "config-worktree") {
            return Some(GitConfigType::ConfigWorktree);
        }
        None
    }

    /// Get canonical Git config types names.
    pub fn canonical_config_types() -> (r: Vec<&'static str>)
        ensures
            str_views(r@) == config_type_names(),
    {
        let r = vec!["config-user", "config-core", "config-branch", "config-remote", "config-init", "config-color", "config-alias", "config-diff", "config-merge", "config-gpg", "config-commit", "config-pull", "config-push", "config-rebase", "config-fetch", "config-status", "config-tar", "config-rerere", "config-advice", "config-interactive", "config-submodule", "config-filter", "config-include", "config-credential", "config-http", "config-url", "config-safe", "config-notes", "config-gc", "config-maintenance", "config-pager", "config-worktree"];
        assert(str_views(r@) =~= config_type_names());
        r
    }

    /// Validate that all concerns are Git-native: the error lists, in order,
    /// every concern that is not a canonical name.
    pub fn validate_concerns(concerns: &[String]) -> (r: Result<(), GitNativeError>)
        ensures
            r is Ok <==> forall|i: int| 0 <= i < concerns@.len() ==> canonical_names().contains(#[trigger] concerns@[i]@),
            r matches Err(GitNativeError::NonNativeConcerns(bad)) ==> bad@ == concerns@.filter(non_native_concern()),
            !(r matches Err(GitNativeError::UnknownObjectTypes(_))),
    {
        let mut all: Vec<&'static str> = Self::canonical_object_types();
        let mut t = Self::canonical_tree_entry_types();
        let mut m = Self::canonical_metadata_types();
        let mut c = Self::canonical_config_types();
        all.append(&mut t);
        all.append(&mut m);
        all.append(&mut c);
        assert(str_views(all@) =~= canonical_names());
        let mut bad: Vec<String> = Vec::new();
        let mut i: usize = 0;
        while i < concerns.len()
            invariant
                i <= concerns@.len(),
                str_views(all@) == canonical_names(),
                bad@ == concerns@.subrange(0, i as int).filter(non_native_concern()),
            decreases concerns@.len() - i,
        {
            reveal_with_fuel(Seq::<_>::filter, 1);
            let mut found = false;
            let mut j: usize = 0;
            while j < all.len()
                invariant
                    j <= all@.len(),
                    i < concerns@.len(),
                    str_views(all@) == canonical_names(),
                    found == exists|k: int| 0 <= k < j && all@[k]@ == concerns@[i as int]@,
                decreases all@.len() - j,
            {
                if str_eq(all[j], concerns[i].as_str()) {
                    found = true;
                }
                j = j + 1;
            }
            proof {
                if found {
                    let k = choose|k: int| 0 <= k < all@.len() && all@[k]@ == concerns@[i as int]@;
                    assert(canonical_names()[k] == concerns@[i as int]@);
                } else {
                    if canonical_names().contains(concerns@[i as int]@) {
                        let k = choose|k: int| 0 <= k < canonical_names().len() && canonical_names()[k] == concerns@[i as int]@;
                        assert(all@[k]@ == concerns@[i as int]@);
                    }
                }
            }
            if !found {
                bad.push(concerns[i].clone());
            }
            assert(concerns@.subrange(0, i + 1).drop_last() =~= concerns@.subrange(0, i as int));
            i = i + 1;
        }
        assert(concerns@.subrange(0, concerns@.len() as int) =~= concerns@);
        if bad.len() == 0 {
            proof {
                assert forall|i: int| 0 <= i < concerns@.len() implies canonical_names().contains(#[trigger] concerns@[i]@) by {
                    if !canonical_names().contains(concerns@[i]@) {
                        concerns@.lemma_filter_contains(non_native_concern(), i);
                        assert(bad@.contains(concerns@[i]));
                    }
                }
            }
            Ok(())
        } else {
            proof {
                let e = bad@[0];
                assert(bad@.contains(e));
                concerns@.lemma_filter_pred(non_native_concern(), 0);
                concerns@.lemma_filter_contains_rev(non_native_concern(), e);
                let k = choose|k: int| 0 <= k < concerns@.len() && concerns@[k] == e;
                assert(!canonical_names().contains(concerns@[k]@));
            }
            Err(GitNativeError::NonNativeConcerns(bad))
        }
    }
}

} // verus!
