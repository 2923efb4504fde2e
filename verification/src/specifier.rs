//! The expectations that contracts set: each known contract names the
//! concern it applies to and the JSON data that concern is expected to hold.

use vstd::prelude::*;
use crate::symbols::{ConcernSymbol, ContractSymbol};
use crate::json::{JsonValue, JsonView, fields_view, lemma_items_view, lemma_fields_view};
use crate::types::ExpectedSnapshot;
use crate::text::str_eq;
use crate::contracts::contract_names;

verus! {

/// The concern and the expected data of a known contract; `None` for any
/// other name.
pub open spec fn known_expectation(name: Seq<char>) -> Option<(ConcernSymbol, JsonView)> {
    if name == "must-exist"@ {
        Some((ConcernSymbol::Index, JsonView::Object(seq![("exists"@, JsonView::Bool(true))])))
    } else if name == "no-unstaged-changes"@ {
        Some((ConcernSymbol::Index, JsonView::Object(seq![("unstaged_files"@, JsonView::Array(seq![]))])))
    } else if name == "no-untracked-files"@ {
        Some((ConcernSymbol::Index, JsonView::Object(seq![("untracked_files"@, JsonView::Array(seq![]))])))
    } else if name == "text-files-normalized"@ {
        Some((ConcernSymbol::AttrLineEndingNormalization, JsonView::Object(seq![("line_ending_rules"@, JsonView::Array(seq![])), ("text_files"@, JsonView::Array(seq![]))])))
    } else if name == "binary-files-identified"@ {
        Some((ConcernSymbol::AttrLineEndingNormalization, JsonView::Object(seq![("binary_files"@, JsonView::Array(seq![]))])))
    } else if name == "diff-rules-defined"@ {
        Some((ConcernSymbol::AttrDiffStrategy, JsonView::Object(seq![("diff_rules"@, JsonView::Array(seq![]))])))
    } else if name == "binary-files-handled"@ {
        Some((ConcernSymbol::AttrDiffStrategy, JsonView::Object(seq![("binary_files"@, JsonView::Array(seq![]))])))
    } else if name == "must-match-origin"@ {
        Some((ConcernSymbol::Ref, JsonView::Object(seq![("ref_eq"@, JsonView::Str("origin/main"@))])))
    } else if name == "ref-naming-convention"@ {
        Some((ConcernSymbol::Ref, JsonView::Object(seq![("naming_convention"@, JsonView::Str("valid"@))])))
    } else if name == "branch-naming-convention"@ {
        Some((ConcernSymbol::Branch, JsonView::Object(seq![("naming_convention"@, JsonView::Str("valid"@))])))
    } else if name == "protected-branches"@ {
        Some((ConcernSymbol::Branch, JsonView::Object(seq![("protected_branches"@, JsonView::Array(seq![JsonView::Str("main"@), JsonView::Str("develop"@)]))])))
    } else if name == "remote-url-validation"@ {
        Some((ConcernSymbol::Remote, JsonView::Object(seq![("url_validation"@, JsonView::Str("valid"@))])))
    } else if name == "remote-authentication"@ {
        Some((ConcernSymbol::Remote, JsonView::Object(seq![("authentication"@, JsonView::Str("valid"@))])))
    } else if name == "no-new-executables"@ {
        Some((ConcernSymbol::TreeExecutable, JsonView::Object(seq![("executable_files"@, JsonView::Array(seq![]))])))
    } else if name == "executable-safety-check"@ {
        Some((ConcernSymbol::TreeExecutable, JsonView::Object(seq![("safety_check"@, JsonView::Str("passed"@))])))
    } else if name == "commit-message-format"@ {
        Some((ConcernSymbol::Commit, JsonView::Object(seq![("message_format"@, JsonView::Str("conventional"@))])))
    } else if name == "commit-author-valid"@ {
        Some((ConcernSymbol::Commit, JsonView::Object(seq![("author_valid"@, JsonView::Bool(true))])))
    } else if name == "tree-structure-valid"@ {
        Some((ConcernSymbol::Tree, JsonView::Object(seq![("structure_valid"@, JsonView::Bool(true))])))
    } else if name == "no-orphaned-trees"@ {
        Some((ConcernSymbol::Tree, JsonView::Object(seq![("orphaned_trees"@, JsonView::Array(seq![]))])))
    } else if name == "head-points-to-branch"@ {
        Some((ConcernSymbol::Head, JsonView::Object(seq![("points_to_branch"@, JsonView::Bool(true))])))
    } else if name == "head-detached-allowed"@ {
        Some((ConcernSymbol::Head, JsonView::Object(seq![("detached_allowed"@, JsonView::Bool(false))])))
    } else if name == "commit-template-defined"@ {
        Some((ConcernSymbol::ConfigCommit, JsonView::Object(seq![("template_defined"@, JsonView::Bool(true))])))
    } else if name == "commit-gpgsign-enabled"@ {
        Some((ConcernSymbol::ConfigCommit, JsonView::Object(seq![("gpgsign_enabled"@, JsonView::Bool(true))])))
    } else if name == "user-name-defined"@ {
        Some((ConcernSymbol::ConfigUser, JsonView::Object(seq![("name_defined"@, JsonView::Bool(true))])))
    } else if name == "user-email-defined"@ {
        Some((ConcernSymbol::ConfigUser, JsonView::Object(seq![("email_defined"@, JsonView::Bool(true))])))
    } else if name == "gc-auto-enabled"@ {
        Some((ConcernSymbol::ConfigGc, JsonView::Object(seq![("auto_enabled"@, JsonView::Bool(true))])))
    } else if name == "gc-prune-expire-set"@ {
        Some((ConcernSymbol::ConfigGc, JsonView::Object(seq![("prune_expire_set"@, JsonView::Bool(true))])))
    } else if name == "rebase-strategy-defined"@ {
        Some((ConcernSymbol::ConfigRebase, JsonView::Object(seq![("strategy_defined"@, JsonView::Bool(true))])))
    } else if name == "rebase-auto-stash-enabled"@ {
        Some((ConcernSymbol::ConfigRebase, JsonView::Object(seq![("auto_stash_enabled"@, JsonView::Bool(true))])))
    } else {
        None
    }
}

/// The concern an expectation of contract `name` applies to: that of the
/// known contract, else `Index`.
pub open spec fn expectation_concern(name: Seq<char>) -> ConcernSymbol {
    match known_expectation(name) {
        Some(e) => e.0,
        None => ConcernSymbol::Index,
    }
}

/// The data an expectation of contract `name` holds: that of the known
/// contract, else `{"error": "Unknown contract"}`.
pub open spec fn expectation_data(name: Seq<char>) -> JsonView {
    match known_expectation(name) {
        Some(e) => e.1,
        None => JsonView::Object(seq![("error"@, JsonView::Str("Unknown contract"@))]),
    }
}

/// The metadata of an expectation of contract `name`: none for a known
/// contract, else `status` set to "unknown-contract".
pub open spec fn expectation_metadata(name: Seq<char>) -> Seq<(Seq<char>, JsonView)> {
    match known_expectation(name) {
        Some(_) => Seq::empty(),
        None => seq![("status"@, JsonView::Str("unknown-contract"@))],
    }
}

/// `e` is the expectation that contract `name` sets.
pub open spec fn expectation_of(e: ExpectedSnapshot, name: Seq<char>) -> bool {
    &&& e.symbol == expectation_concern(name)
    &&& e.expectation@ == expectation_data(name)
    &&& e.contract@ == name
    &&& e.contract_version@ == "1.0"@
    &&& fields_view(e.metadata@) == expectation_metadata(name)
}

/// `v` is a JSON object with no member named `key`.
pub open spec fn object_without_key(v: JsonView, key: Seq<char>) -> bool {
    match v {
        JsonView::Object(fields) => forall|i: int| 0 <= i < fields.len() ==> (#[trigger] fields[i]).0 != key,
        _ => false,
    }
}

/// Every contract listed for a concern is known to the specifier: its
/// expectation is of that same concern, carries no metadata, and expects a
/// JSON object with no `error` member.
pub proof fn law_listed_contracts_specify_their_concern(c: ConcernSymbol, name: Seq<char>)
    requires
        contract_names(c).contains(name),
    ensures
        known_expectation(name) is Some,
        expectation_concern(name) == c,
        expectation_metadata(name).len() == 0,
        object_without_key(expectation_data(name), "error"@),
{
    lemma_expectation_literals();
    let i = choose|i: int| 0 <= i < contract_names(c).len() && contract_names(c)[i] == name;
    match c {
        ConcernSymbol::Index => {
            if i == 0 {
                assert(name == "must-exist"@);
            } else if i == 1 {
                assert(name == "no-unstaged-changes"@);
            } else if i == 2 {
                assert(name == "no-untracked-files"@);
            }
        },
        ConcernSymbol::AttrLineEndingNormalization => {
            if i == 0 {
                assert(name == "text-files-normalized"@);
            } else if i == 1 {
                assert(name == "binary-files-identified"@);
            }
        },
        ConcernSymbol::AttrDiffStrategy => {
            if i == 0 {
                assert(name == "diff-rules-defined"@);
            } else if i == 1 {
                assert(name == "binary-files-handled"@);
            }
        },
        ConcernSymbol::Ref => {
            if i == 0 {
                assert(name == "must-match-origin"@);
            } else if i == 1 {
                assert(name == "ref-naming-convention"@);
            }
        },
        ConcernSymbol::Branch => {
            if i == 0 {
                assert(name == "branch-naming-convention"@);
            } else if i == 1 {
                assert(name == "protected-branches"@);
            }
        },
        ConcernSymbol::Remote => {
            if i == 0 {
                assert(name == "remote-url-validation"@);
            } else if i == 1 {
                assert(name == "remote-authentication"@);
            }
        },
        ConcernSymbol::TreeExecutable => {
            if i == 0 {
                assert(name == "no-new-executables"@);
            } else if i == 1 {
                assert(name == "executable-safety-check"@);
            }
        },
        ConcernSymbol::Commit => {
            if i == 0 {
                assert(name == "commit-message-format"@);
            } else if i == 1 {
                assert(name == "commit-author-valid"@);
            }
        },
        ConcernSymbol::Tree => {
            if i == 0 {
                assert(name == "tree-structure-valid"@);
            } else if i == 1 {
                assert(name == "no-orphaned-trees"@);
            }
        },
        ConcernSymbol::Head => {
            if i == 0 {
                assert(name == "head-points-to-branch"@);
            } else if i == 1 {
                assert(name == "head-detached-allowed"@);
            }
        },
        ConcernSymbol::ConfigCommit => {
            if i == 0 {
                assert(name == "commit-template-defined"@);
            } else if i == 1 {
                assert(name == "commit-gpgsign-enabled"@);
            }
        },
        ConcernSymbol::ConfigUser => {
            if i == 0 {
                assert(name == "user-name-defined"@);
            } else if i == 1 {
                assert(name == "user-email-defined"@);
            }
        },
        ConcernSymbol::ConfigGc => {
            if i == 0 {
                assert(name == "gc-auto-enabled"@);
            } else if i == 1 {
                assert(name == "gc-prune-expire-set"@);
            }
        },
        ConcernSymbol::ConfigRebase => {
            if i == 0 {
                assert(name == "rebase-strategy-defined"@);
            } else if i == 1 {
                assert(name == "rebase-auto-stash-enabled"@);
            }
        },
        _ => {},
    }
}

/// The lengths of the names and keys that expectations speak of, and enough
/// of their characters to tell any two of them apart.
proof fn lemma_expectation_literals()
    ensures
        "authentication"@.len() == 14 && "authentication"@[0] == 'a' && "authentication"@[3] == 'h' && "authentication"@[5] == 'n' && "authentication"@[9] == 'a',
        "author_valid"@.len() == 12 && "author_valid"@[0] == 'a' && "author_valid"@[3] == 'h' && "author_valid"@[5] == 'r' && "author_valid"@[9] == 'l',
        "auto_enabled"@.len() == 12 && "auto_enabled"@[0] == 'a' && "auto_enabled"@[3] == 'o' && "auto_enabled"@[5] == 'e' && "auto_enabled"@[9] == 'l',
        "auto_stash_enabled"@.len() == 18 && "auto_stash_enabled"@[0] == 'a' && "auto_stash_enabled"@[3] == 'o' && "auto_stash_enabled"@[5] == 's' && "auto_stash_enabled"@[9] == 'h',
        "binary-files-handled"@.len() == 20 && "binary-files-handled"@[0] == 'b' && "binary-files-handled"@[3] == 'a' && "binary-files-handled"@[5] == 'y' && "binary-files-handled"@[9] == 'l',
        "binary-files-identified"@.len() == 23 && "binary-files-identified"@[0] == 'b' && "binary-files-identified"@[3] == 'a' && "binary-files-identified"@[5] == 'y' && "binary-files-identified"@[9] == 'l',
        "binary_files"@.len() == 12 && "binary_files"@[0] == 'b' && "binary_files"@[3] == 'a' && "binary_files"@[5] == 'y' && "binary_files"@[9] == 'l',
        "branch-naming-convention"@.len() == 24 && "branch-naming-convention"@[0] == 'b' && "branch-naming-convention"@[3] == 'n' && "branch-naming-convention"@[5] == 'h' && "branch-naming-convention"@[9] == 'm',
        "commit-author-valid"@.len() == 19 && "commit-author-valid"@[0] == 'c' && "commit-author-valid"@[3] == 'm' && "commit-author-valid"@[5] == 't' && "commit-author-valid"@[9] == 't',
        "commit-gpgsign-enabled"@.len() == 22 && "commit-gpgsign-enabled"@[0] == 'c' && "commit-gpgsign-enabled"@[3] == 'm' && "commit-gpgsign-enabled"@[5] == 't' && "commit-gpgsign-enabled"@[9] == 'g',
        "commit-message-format"@.len() == 21 && "commit-message-format"@[0] == 'c' && "commit-message-format"@[3] == 'm' && "commit-message-format"@[5] == 't' && "commit-message-format"@[9] == 's',
        "commit-template-defined"@.len() == 23 && "commit-template-defined"@[0] == 'c' && "commit-template-defined"@[3] == 'm' && "commit-template-defined"@[5] == 't' && "commit-template-defined"@[9] == 'm',
        "conventional"@.len() == 12 && "conventional"@[0] == 'c' && "conventional"@[3] == 'v' && "conventional"@[5] == 'n' && "conventional"@[9] == 'n',
        "detached_allowed"@.len() == 16 && "detached_allowed"@[0] == 'd' && "detached_allowed"@[3] == 'a' && "detached_allowed"@[5] == 'h' && "detached_allowed"@[9] == 'a',
        "develop"@.len() == 7 && "develop"@[0] == 'd' && "develop"@[3] == 'e' && "develop"@[5] == 'o',
        "diff-rules-defined"@.len() == 18 && "diff-rules-defined"@[0] == 'd' && "diff-rules-defined"@[3] == 'f' && "diff-rules-defined"@[5] == 'r' && "diff-rules-defined"@[9] == 's',
        "diff_rules"@.len() == 10 && "diff_rules"@[0] == 'd' && "diff_rules"@[3] == 'f' && "diff_rules"@[5] == 'r' && "diff_rules"@[9] == 's',
        "email_defined"@.len() == 13 && "email_defined"@[0] == 'e' && "email_defined"@[3] == 'i' && "email_defined"@[5] == '_' && "email_defined"@[9] == 'i',
        "executable-safety-check"@.len() == 23 && "executable-safety-check"@[0] == 'e' && "executable-safety-check"@[3] == 'c' && "executable-safety-check"@[5] == 't' && "executable-safety-check"@[9] == 'e',
        "executable_files"@.len() == 16 && "executable_files"@[0] == 'e' && "executable_files"@[3] == 'c' && "executable_files"@[5] == 't' && "executable_files"@[9] == 'e',
        "exists"@.len() == 6 && "exists"@[0] == 'e' && "exists"@[3] == 's' && "exists"@[5] == 's',
        "gc-auto-enabled"@.len() == 15 && "gc-auto-enabled"@[0] == 'g' && "gc-auto-enabled"@[3] == 'a' && "gc-auto-enabled"@[5] == 't' && "gc-auto-enabled"@[9] == 'n',
        "gc-prune-expire-set"@.len() == 19 && "gc-prune-expire-set"@[0] == 'g' && "gc-prune-expire-set"@[3] == 'p' && "gc-prune-expire-set"@[5] == 'u' && "gc-prune-expire-set"@[9] == 'e',
        "gpgsign_enabled"@.len() == 15 && "gpgsign_enabled"@[0] == 'g' && "gpgsign_enabled"@[3] == 's' && "gpgsign_enabled"@[5] == 'g' && "gpgsign_enabled"@[9] == 'n',
        "head-detached-allowed"@.len() == 21 && "head-detached-allowed"@[0] == 'h' && "head-detached-allowed"@[3] == 'd' && "head-detached-allowed"@[5] == 'd' && "head-detached-allowed"@[9] == 'c',
        "head-points-to-branch"@.len() == 21 && "head-points-to-branch"@[0] == 'h' && "head-points-to-branch"@[3] == 'd' && "head-points-to-branch"@[5] == 'p' && "head-points-to-branch"@[9] == 't',
        "line_ending_rules"@.len() == 17 && "line_ending_rules"@[0] == 'l' && "line_ending_rules"@[3] == 'e' && "line_ending_rules"@[5] == 'e' && "line_ending_rules"@[9] == 'n',
        "main"@.len() == 4 && "main"@[0] == 'm' && "main"@[3] == 'n',
        "message_format"@.len() == 14 && "message_format"@[0] == 'm' && "message_format"@[3] == 's' && "message_format"@[5] == 'g' && "message_format"@[9] == 'o',
        "must-exist"@.len() == 10 && "must-exist"@[0] == 'm' && "must-exist"@[3] == 't' && "must-exist"@[5] == 'e' && "must-exist"@[9] == 't',
        "must-match-origin"@.len() == 17 && "must-match-origin"@[0] == 'm' && "must-match-origin"@[3] == 't' && "must-match-origin"@[5] == 'm' && "must-match-origin"@[9] == 'h',
        "name_defined"@.len() == 12 && "name_defined"@[0] == 'n' && "name_defined"@[3] == 'e' && "name_defined"@[5] == 'd' && "name_defined"@[9] == 'n',
        "naming_convention"@.len() == 17 && "naming_convention"@[0] == 'n' && "naming_convention"@[3] == 'i' && "naming_convention"@[5] == 'g' && "naming_convention"@[9] == 'n',
        "no-new-executables"@.len() == 18 && "no-new-executables"@[0] == 'n' && "no-new-executables"@[3] == 'n' && "no-new-executables"@[5] == 'w' && "no-new-executables"@[9] == 'e',
        "no-orphaned-trees"@.len() == 17 && "no-orphaned-trees"@[0] == 'n' && "no-orphaned-trees"@[3] == 'o' && "no-orphaned-trees"@[5] == 'p' && "no-orphaned-trees"@[9] == 'e',
        "no-unstaged-changes"@.len() == 19 && "no-unstaged-changes"@[0] == 'n' && "no-unstaged-changes"@[3] == 'u' && "no-unstaged-changes"@[5] == 's' && "no-unstaged-changes"@[9] == 'e',
        "no-untracked-files"@.len() == 18 && "no-untracked-files"@[0] == 'n' && "no-untracked-files"@[3] == 'u' && "no-untracked-files"@[5] == 't' && "no-untracked-files"@[9] == 'k',
        "origin/main"@.len() == 11 && "origin/main"@[0] == 'o' && "origin/main"@[3] == 'g' && "origin/main"@[5] == 'n' && "origin/main"@[9] == 'i',
        "orphaned_trees"@.len() == 14 && "orphaned_trees"@[0] == 'o' && "orphaned_trees"@[3] == 'h' && "orphaned_trees"@[5] == 'n' && "orphaned_trees"@[9] == 't',
        "passed"@.len() == 6 && "passed"@[0] == 'p' && "passed"@[3] == 's' && "passed"@[5] == 'd',
        "points_to_branch"@.len() == 16 && "points_to_branch"@[0] == 'p' && "points_to_branch"@[3] == 'n' && "points_to_branch"@[5] == 's' && "points_to_branch"@[9] == '_',
        "protected-branches"@.len() == 18 && "protected-branches"@[0] == 'p' && "protected-branches"@[3] == 't' && "protected-branches"@[5] == 'c' && "protected-branches"@[9] == '-',
        "protected_branches"@.len() == 18 && "protected_branches"@[0] == 'p' && "protected_branches"@[3] == 't' && "protected_branches"@[5] == 'c' && "protected_branches"@[9] == '_',
        "prune_expire_set"@.len() == 16 && "prune_expire_set"@[0] == 'p' && "prune_expire_set"@[3] == 'n' && "prune_expire_set"@[5] == '_' && "prune_expire_set"@[9] == 'i',
        "rebase-auto-stash-enabled"@.len() == 25 && "rebase-auto-stash-enabled"@[0] == 'r' && "rebase-auto-stash-enabled"@[3] == 'a' && "rebase-auto-stash-enabled"@[5] == 'e' && "rebase-auto-stash-enabled"@[9] == 't',
        "rebase-strategy-defined"@.len() == 23 && "rebase-strategy-defined"@[0] == 'r' && "rebase-strategy-defined"@[3] == 'a' && "rebase-strategy-defined"@[5] == 'e' && "rebase-strategy-defined"@[9] == 'r',
        "ref-naming-convention"@.len() == 21 && "ref-naming-convention"@[0] == 'r' && "ref-naming-convention"@[3] == '-' && "ref-naming-convention"@[5] == 'a' && "ref-naming-convention"@[9] == 'g',
        "ref_eq"@.len() == 6 && "ref_eq"@[0] == 'r' && "ref_eq"@[3] == '_' && "ref_eq"@[5] == 'q',
        "remote-authentication"@.len() == 21 && "remote-authentication"@[0] == 'r' && "remote-authentication"@[3] == 'o' && "remote-authentication"@[5] == 'e' && "remote-authentication"@[9] == 't',
        "remote-url-validation"@.len() == 21 && "remote-url-validation"@[0] == 'r' && "remote-url-validation"@[3] == 'o' && "remote-url-validation"@[5] == 'e' && "remote-url-validation"@[9] == 'l',
        "safety_check"@.len() == 12 && "safety_check"@[0] == 's' && "safety_check"@[3] == 'e' && "safety_check"@[5] == 'y' && "safety_check"@[9] == 'e',
        "strategy_defined"@.len() == 16 && "strategy_defined"@[0] == 's' && "strategy_defined"@[3] == 'a' && "strategy_defined"@[5] == 'e' && "strategy_defined"@[9] == 'd',
        "structure_valid"@.len() == 15 && "structure_valid"@[0] == 's' && "structure_valid"@[3] == 'u' && "structure_valid"@[5] == 't' && "structure_valid"@[9] == '_',
        "template_defined"@.len() == 16 && "template_defined"@[0] == 't' && "template_defined"@[3] == 'p' && "template_defined"@[5] == 'a' && "template_defined"@[9] == 'd',
        "text-files-normalized"@.len() == 21 && "text-files-normalized"@[0] == 't' && "text-files-normalized"@[3] == 't' && "text-files-normalized"@[5] == 'f' && "text-files-normalized"@[9] == 's',
        "text_files"@.len() == 10 && "text_files"@[0] == 't' && "text_files"@[3] == 't' && "text_files"@[5] == 'f' && "text_files"@[9] == 's',
        "tree-structure-valid"@.len() == 20 && "tree-structure-valid"@[0] == 't' && "tree-structure-valid"@[3] == 'e' && "tree-structure-valid"@[5] == 's' && "tree-structure-valid"@[9] == 'c',
        "unstaged_files"@.len() == 14 && "unstaged_files"@[0] == 'u' && "unstaged_files"@[3] == 't' && "unstaged_files"@[5] == 'g' && "unstaged_files"@[9] == 'f',
        "untracked_files"@.len() == 15 && "untracked_files"@[0] == 'u' && "untracked_files"@[3] == 'r' && "untracked_files"@[5] == 'c' && "untracked_files"@[9] == '_',
        "url_validation"@.len() == 14 && "url_validation"@[0] == 'u' && "url_validation"@[3] == '_' && "url_validation"@[5] == 'a' && "url_validation"@[9] == 'a',
        "user-email-defined"@.len() == 18 && "user-email-defined"@[0] == 'u' && "user-email-defined"@[3] == 'r' && "user-email-defined"@[5] == 'e' && "user-email-defined"@[9] == 'l',
        "user-name-defined"@.len() == 17 && "user-name-defined"@[0] == 'u' && "user-name-defined"@[3] == 'r' && "user-name-defined"@[5] == 'n' && "user-name-defined"@[9] == '-',
        "valid"@.len() == 5 && "valid"@[0] == 'v' && "valid"@[3] == 'i',
        "error"@.len() == 5 && "error"@[0] == 'e' && "error"@[3] == 'o',
{
    reveal_strlit("authentication");
    reveal_strlit("author_valid");
    reveal_strlit("auto_enabled");
    reveal_strlit("auto_stash_enabled");
    reveal_strlit("binary-files-handled");
    reveal_strlit("binary-files-identified");
    reveal_strlit("binary_files");
    reveal_strlit("branch-naming-convention");
    reveal_strlit("commit-author-valid");
    reveal_strlit("commit-gpgsign-enabled");
    reveal_strlit("commit-message-format");
    reveal_strlit("commit-template-defined");
    reveal_strlit("conventional");
    reveal_strlit("detached_allowed");
    reveal_strlit("develop");
    reveal_strlit("diff-rules-defined");
    reveal_strlit("diff_rules");
    reveal_strlit("email_defined");
    reveal_strlit("executable-safety-check");
    reveal_strlit("executable_files");
    reveal_strlit("exists");
    reveal_strlit("gc-auto-enabled");
    reveal_strlit("gc-prune-expire-set");
    reveal_strlit("gpgsign_enabled");
    reveal_strlit("head-detached-allowed");
    reveal_strlit("head-points-to-branch");
    reveal_strlit("line_ending_rules");
    reveal_strlit("main");
    reveal_strlit("message_format");
    reveal_strlit("must-exist");
    reveal_strlit("must-match-origin");
    reveal_strlit("name_defined");
    reveal_strlit("naming_convention");
    reveal_strlit("no-new-executables");
    reveal_strlit("no-orphaned-trees");
    reveal_strlit("no-unstaged-changes");
    reveal_strlit("no-untracked-files");
    reveal_strlit("origin/main");
    reveal_strlit("orphaned_trees");
    reveal_strlit("passed");
    reveal_strlit("points_to_branch");
    reveal_strlit("protected-branches");
    reveal_strlit("protected_branches");
    reveal_strlit("prune_expire_set");
    reveal_strlit("rebase-auto-stash-enabled");
    reveal_strlit("rebase-strategy-defined");
    reveal_strlit("ref-naming-convention");
    reveal_strlit("ref_eq");
    reveal_strlit("remote-authentication");
    reveal_strlit("remote-url-validation");
    reveal_strlit("safety_check");
    reveal_strlit("strategy_defined");
    reveal_strlit("structure_valid");
    reveal_strlit("template_defined");
    reveal_strlit("text-files-normalized");
    reveal_strlit("text_files");
    reveal_strlit("tree-structure-valid");
    reveal_strlit("unstaged_files");
    reveal_strlit("untracked_files");
    reveal_strlit("url_validation");
    reveal_strlit("user-email-defined");
    reveal_strlit("user-name-defined");
    reveal_strlit("valid");
    reveal_strlit("error");
}

/// A JSON string.
fn json_str(s: &str) -> (r: JsonValue)
    ensures
        r@ == JsonView::Str(s@),
{
    JsonValue::Str(s.to_owned())
}

/// The empty JSON array.
fn json_empty_array() -> (r: JsonValue)
    ensures
        r@ == JsonView::Array(Seq::empty()),
{
    let v: Vec<JsonValue> = Vec::new();
    proof {
        lemma_items_view(v@);
    }
    assert(crate::json::items_view(v@) =~= Seq::<JsonView>::empty());
    JsonValue::Array(v)
}

/// A JSON array of two strings.
fn json_str_pair(a: &str, b: &str) -> (r: JsonValue)
    ensures
        r@ == JsonView::Array(seq![JsonView::Str(a@), JsonView::Str(b@)]),
{
    let mut v: Vec<JsonValue> = Vec::new();
    v.push(json_str(a));
    v.push(json_str(b));
    proof {
        lemma_items_view(v@);
    }
    assert(crate::json::items_view(v@) =~= seq![JsonView::Str(a@), JsonView::Str(b@)]);
    JsonValue::Array(v)
}

/// A JSON object of one member.
fn json_object1(k: &str, x: JsonValue) -> (r: JsonValue)
    ensures
        r@ == JsonView::Object(seq![(k@, x@)]),
{
    let ghost xv = x@;
    let mut v: Vec<(String, JsonValue)> = Vec::new();
    v.push((k.to_owned(), x));
    proof {
        lemma_fields_view(v@);
    }
    assert(fields_view(v@) =~= seq![(k@, xv)]);
    JsonValue::Object(v)
}

/// A JSON object of two members, in the order given.
fn json_object2(k1: &str, x1: JsonValue, k2: &str, x2: JsonValue) -> (r: JsonValue)
    ensures
        r@ == JsonView::Object(seq![(k1@, x1@), (k2@, x2@)]),
{
    let ghost v1 = x1@;
    let ghost v2 = x2@;
    let mut v: Vec<(String, JsonValue)> = Vec::new();
    v.push((k1.to_owned(), x1));
    v.push((k2.to_owned(), x2));
    proof {
        lemma_fields_view(v@);
    }
    assert(fields_view(v@) =~= seq![(k1@, v1), (k2@, v2)]);
    JsonValue::Object(v)
}

/// The concern and expected data of a known contract.
fn lookup_expectation(name: &str) -> (r: Option<(ConcernSymbol, JsonValue)>)
    ensures
        match r {
            Some(e) => known_expectation(name@) == Some((e.0, e.1@)),
            None => known_expectation(name@) is None,
        },
{
    if str_eq(name, "must-exist") {
        Some((ConcernSymbol::Index, json_object1("exists", JsonValue::Bool(true))))
    } else if str_eq(name, "no-unstaged-changes") {
        Some((ConcernSymbol::Index, json_object1("unstaged_files", json_empty_array())))
    } else if str_eq(name, "no-untracked-files") {
        Some((ConcernSymbol::Index, json_object1("untracked_files", json_empty_array())))
    } else if str_eq(name, "text-files-normalized") {
        Some((ConcernSymbol::AttrLineEndingNormalization, json_object2("line_ending_rules", json_empty_array(), "text_files", json_empty_array())))
    } else if str_eq(name, "binary-files-identified") {
        Some((ConcernSymbol::AttrLineEndingNormalization, json_object1("binary_files", json_empty_array())))
    } else if str_eq(name, "diff-rules-defined") {
        Some((ConcernSymbol::AttrDiffStrategy, json_object1("diff_rules", json_empty_array())))
    } else if str_eq(name, "binary-files-handled") {
        Some((ConcernSymbol::AttrDiffStrategy, json_object1("binary_files", json_empty_array())))
    } else if str_eq(name, "must-match-origin") {
        Some((ConcernSymbol::Ref, json_object1("ref_eq", json_str("origin/main"))))
    } else if str_eq(name, "ref-naming-convention") {
        Some((ConcernSymbol::Ref, json_object1("naming_convention", json_str("valid"))))
    } else if str_eq(name, "branch-naming-convention") {
        Some((ConcernSymbol::Branch, json_object1("naming_convention", json_str("valid"))))
    } else if str_eq(name, "protected-branches") {
        Some((ConcernSymbol::Branch, json_object1("protected_branches", json_str_pair("main", "develop"))))
    } else if str_eq(name, "remote-url-validation") {
        Some((ConcernSymbol::Remote, json_object1("url_validation", json_str("valid"))))
    } else if str_eq(name, "remote-authentication") {
        Some((ConcernSymbol::Remote, json_object1("authentication", json_str("valid"))))
    } else if str_eq(name, "no-new-executables") {
        Some((ConcernSymbol::TreeExecutable, json_object1("executable_files", json_empty_array())))
    } else if str_eq(name, "executable-safety-check") {
        Some((ConcernSymbol::TreeExecutable, json_object1("safety_check", json_str("passed"))))
    } else if str_eq(name, "commit-message-format") {
        Some((ConcernSymbol::Commit, json_object1("message_format", json_str("conventional"))))
    } else if str_eq(name, "commit-author-valid") {
        Some((ConcernSymbol::Commit, json_object1("author_valid", JsonValue::Bool(true))))
    } else if str_eq(name, "tree-structure-valid") {
        Some((ConcernSymbol::Tree, json_object1("structure_valid", JsonValue::Bool(true))))
    } else if str_eq(name, "no-orphaned-trees") {
        Some((ConcernSymbol::Tree, json_object1("orphaned_trees", json_empty_array())))
    } else if str_eq(name, "head-points-to-branch") {
        Some((ConcernSymbol::Head, json_object1("points_to_branch", JsonValue::Bool(true))))
    } else if str_eq(name, "head-detached-allowed") {
        Some((ConcernSymbol::Head, json_object1("detached_allowed", JsonValue::Bool(false))))
    } else if str_eq(name, "commit-template-defined") {
        Some((ConcernSymbol::ConfigCommit, json_object1("template_defined", JsonValue::Bool(true))))
    } else if str_eq(name, "commit-gpgsign-enabled") {
        Some((ConcernSymbol::ConfigCommit, json_object1("gpgsign_enabled", JsonValue::Bool(true))))
    } else if str_eq(name, "user-name-defined") {
        Some((ConcernSymbol::ConfigUser, json_object1("name_defined", JsonValue::Bool(true))))
    } else if str_eq(name, "user-email-defined") {
        Some((ConcernSymbol::ConfigUser, json_object1("email_defined", JsonValue::Bool(true))))
    } else if str_eq(name, "gc-auto-enabled") {
        Some((ConcernSymbol::ConfigGc, json_object1("auto_enabled", JsonValue::Bool(true))))
    } else if str_eq(name, "gc-prune-expire-set") {
        Some((ConcernSymbol::ConfigGc, json_object1("prune_expire_set", JsonValue::Bool(true))))
    } else if str_eq(name, "rebase-strategy-defined") {
        Some((ConcernSymbol::ConfigRebase, json_object1("strategy_defined", JsonValue::Bool(true))))
    } else if str_eq(name, "rebase-auto-stash-enabled") {
        Some((ConcernSymbol::ConfigRebase, json_object1("auto_stash_enabled", JsonValue::Bool(true))))
    } else {
        None
    }
}

/// Build the expectation that a contract sets.
pub fn build_expectation(contract: &ContractSymbol) -> (r: ExpectedSnapshot)
    ensures
        expectation_of(r, contract.0@),
{
    let name = contract.name();
    let mut metadata: Vec<(String, JsonValue)> = Vec::new();
    let (symbol, expectation) = match lookup_expectation(name) {
        Some(e) => e,
        None => {
            metadata.push(("status".to_owned(), json_str("unknown-contract")));
            (ConcernSymbol::Index, json_object1("error", json_str("Unknown contract")))
        },
    };
    proof {
        lemma_fields_view(metadata@);
    }
    assert(fields_view(metadata@) =~= expectation_metadata(contract.0@));
    ExpectedSnapshot::new(symbol, expectation, name.to_owned(), "1.0".to_owned(), metadata)
}

/// Build the expectations of several contracts, in order.
pub fn build_expectations(contracts: &[ContractSymbol]) -> (r: Vec<ExpectedSnapshot>)
    ensures
        r@.len() == contracts@.len(),
        forall|i: int| 0 <= i < contracts@.len() ==> expectation_of(#[trigger] r@[i], contracts@[i].0@),
{
    let mut out: Vec<ExpectedSnapshot> = Vec::new();
    let mut i: usize = 0;
    while i < contracts.len()
        invariant
            i <= contracts@.len(),
            out@.len() == i,
            forall|j: int| 0 <= j < i ==> expectation_of(#[trigger] out@[j], contracts@[j].0@),
        decreases contracts@.len() - i,
    {
        out.push(build_expectation(&contracts[i]));
        i = i + 1;
    }
    out
}

/// The names of contracts.
pub open spec fn contract_names_of(cs: Seq<ContractSymbol>) -> Seq<Seq<char>> {
    cs.map_values(|c: ContractSymbol| c.0@)
}

/// The concerns the expectations of the named contracts apply to, each once,
/// in order of first appearance.
pub open spec fn concern_order(names: Seq<Seq<char>>) -> Seq<ConcernSymbol>
    decreases names.len(),
{
    if names.len() == 0 {
        Seq::empty()
    } else {
        let d = concern_order(names.drop_last());
        let c = expectation_concern(names.last());
        if d.contains(c) {
            d
        } else {
            d.push(c)
        }
    }
}

/// The named contracts whose expectations apply to concern `k`.
pub open spec fn names_for(names: Seq<Seq<char>>, k: ConcernSymbol) -> Seq<Seq<char>> {
    names.filter(|n: Seq<char>| expectation_concern(n) == k)
}

/// Build the expectations of several contracts, grouped by the concern they
/// apply to: one entry per concern, in order of first appearance, each with
/// its expectations in contract order.
pub fn build_expectations_by_concern(contracts: &[ContractSymbol]) -> (r: Vec<(ConcernSymbol, Vec<ExpectedSnapshot>)>)
    ensures
        r@.len() == concern_order(contract_names_of(contracts@)).len(),
        forall|i: int|
            0 <= i < r@.len() ==> {
                let k = concern_order(contract_names_of(contracts@))[i];
                let ns = names_for(contract_names_of(contracts@), k);
                &&& (#[trigger] r@[i]).0 == k
                &&& r@[i].1@.len() == ns.len()
                &&& forall|j: int| 0 <= j < ns.len() ==> expectation_of(#[trigger] r@[i].1@[j], ns[j])
            },
{
    let ghost names = contract_names_of(contracts@);
    let mut order: Vec<ConcernSymbol> = Vec::new();
    let mut i: usize = 0;
    while i < contracts.len()
        invariant
            i <= contracts@.len(),
            names == contract_names_of(contracts@),
            order@ == concern_order(names.subrange(0, i as int)),
        decreases contracts@.len() - i,
    {
        assert(names.subrange(0, i + 1).drop_last() =~= names.subrange(0, i as int));
        let (c, _) = match lookup_expectation(contracts[i].name()) {
            Some(e) => e,
            None => (ConcernSymbol::Index, JsonValue::Null),
        };
        assert(c == expectation_concern(names[i as int]));
        let mut found = false;
        let mut j: usize = 0;
        while j < order.len()
            invariant
                j <= order@.len(),
                found == order@.subrange(0, j as int).contains(c),
            decreases order@.len() - j,
        {
            proof {
                let s0 = order@.subrange(0, j as int);
                let s1 = order@.subrange(0, j + 1);
                if s0.contains(c) {
                    let w = choose|w: int| 0 <= w < s0.len() && s0[w] == c;
                    assert(s1[w] == c);
                }
                if s1.contains(c) && order@[j as int] != c {
                    let w = choose|w: int| 0 <= w < s1.len() && s1[w] == c;
                    assert(s0[w] == c);
                }
                if order@[j as int] == c {
                    assert(s1[j as int] == c);
                }
            }
            if order[j] == c {
                found = true;
            }
            j = j + 1;
        }
        assert(order@.subrange(0, order@.len() as int) =~= order@);
        if !found {
            order.push(c);
        }
        i = i + 1;
    }
    assert(names.subrange(0, contracts@.len() as int) =~= names);
    let mut out: Vec<(ConcernSymbol, Vec<ExpectedSnapshot>)> = Vec::new();
    let mut k: usize = 0;
    while k < order.len()
        invariant
            k <= order@.len(),
            names == contract_names_of(contracts@),
            order@ == concern_order(names),
            out@.len() == k,
            forall|a: int|
                0 <= a < k ==> {
                    let ns = names_for(names, order@[a]);
                    &&& (#[trigger] out@[a]).0 == order@[a]
                    &&& out@[a].1@.len() == ns.len()
                    &&& forall|j: int| 0 <= j < ns.len() ==> expectation_of(#[trigger] out@[a].1@[j], ns[j])
                },
        decreases order@.len() - k,
    {
        let key = order[k];
        let ghost p = |n: Seq<char>| expectation_concern(n) == key;
        let mut group: Vec<ExpectedSnapshot> = Vec::new();
        let mut i: usize = 0;
        while i < contracts.len()
            invariant
                i <= contracts@.len(),
                names == contract_names_of(contracts@),
                p == (|n: Seq<char>| expectation_concern(n) == key),
                group@.len() == names.subrange(0, i as int).filter(p).len(),
                forall|j: int|
                    0 <= j < group@.len() ==> expectation_of(#[trigger] group@[j], names.subrange(0, i as int).filter(p)[j]),
            decreases contracts@.len() - i,
        {
            reveal_with_fuel(Seq::<_>::filter, 1);
            let ghost pre = names.subrange(0, i as int);
            assert(names.subrange(0, i + 1).drop_last() =~= pre);
            assert(names[i as int] == contracts@[i as int].0@);
            let e = build_expectation(&contracts[i]);
            if e.symbol == key {
                group.push(e);
            }
            i = i + 1;
        }
        assert(names.subrange(0, contracts@.len() as int) =~= names);
        out.push((key, group));
        k = k + 1;
    }
    out
}

} // verus!
