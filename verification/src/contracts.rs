//! Which contracts apply to each concern.

use vstd::prelude::*;
use crate::symbols::{ConcernSymbol, ContractSymbol, HookEvent};
use crate::hooks::event_concerns;

verus! {

/// The names of the contracts that apply to a concern, in order.
pub open spec fn contract_names(concern: ConcernSymbol) -> Seq<Seq<char>> {
    match concern {
        ConcernSymbol::Index => seq!["must-exist"@, "no-unstaged-changes"@, "no-untracked-files"@],
        ConcernSymbol::AttrLineEndingNormalization => seq!["text-files-normalized"@, "binary-files-identified"@],
        ConcernSymbol::AttrDiffStrategy => seq!["diff-rules-defined"@, "binary-files-handled"@],
        ConcernSymbol::Ref => seq!["must-match-origin"@, "ref-naming-convention"@],
        ConcernSymbol::Branch => seq!["branch-naming-convention"@, "protected-branches"@],
        ConcernSymbol::Remote => seq!["remote-url-validation"@, "remote-authentication"@],
        ConcernSymbol::TreeExecutable => seq!["no-new-executables"@, "executable-safety-check"@],
        ConcernSymbol::Commit => seq!["commit-message-format"@, "commit-author-valid"@],
        ConcernSymbol::Tree => seq!["tree-structure-valid"@, "no-orphaned-trees"@],
        ConcernSymbol::Head => seq!["head-points-to-branch"@, "head-detached-allowed"@],
        ConcernSymbol::ConfigCommit => seq!["commit-template-defined"@, "commit-gpgsign-enabled"@],
        ConcernSymbol::ConfigUser => seq!["user-name-defined"@, "user-email-defined"@],
        ConcernSymbol::ConfigGc => seq!["gc-auto-enabled"@, "gc-prune-expire-set"@],
        ConcernSymbol::ConfigRebase => seq!["rebase-strategy-defined"@, "rebase-auto-stash-enabled"@],
        _ => Seq::empty(),
    }
}

/// The names carried by a sequence of contract symbols.
pub open spec fn symbol_names(symbols: Seq<ContractSymbol>) -> Seq<Seq<char>> {
    symbols.map_values(|s: ContractSymbol| s.0@)
}

/// The texts of a sequence of strings.
pub open spec fn string_views(v: Seq<String>) -> Seq<Seq<char>> {
    v.map_values(|s: String| s@)
}

/// The contract names of all the given concerns, concern by concern.
pub open spec fn all_contract_names(concerns: Seq<ConcernSymbol>) -> Seq<Seq<char>>
    decreases concerns.len(),
{
    if concerns.len() == 0 {
        Seq::empty()
    } else {
        all_contract_names(concerns.drop_last()) + contract_names(concerns.last())
    }
}

/// A concern has at least one contract.
pub open spec fn concern_has_contracts(concern: ConcernSymbol) -> bool {
    contract_names(concern).len() > 0
}

/// Get contracts for a concern.
pub fn get_contracts(concern: &ConcernSymbol) -> (r: Vec<ContractSymbol>)
    ensures
        symbol_names(r@) == contract_names(*concern),
{
    let r = match concern {
        ConcernSymbol::Index => vec![ContractSymbol::new("must-exist"), ContractSymbol::new("no-unstaged-changes"), ContractSymbol::new("no-untracked-files")],
        ConcernSymbol::AttrLineEndingNormalization => vec![ContractSymbol::new("text-files-normalized"), ContractSymbol::new("binary-files-identified")],
        ConcernSymbol::AttrDiffStrategy => vec![ContractSymbol::new("diff-rules-defined"), ContractSymbol::new("binary-files-handled")],
        ConcernSymbol::Ref => vec![ContractSymbol::new("must-match-origin"), ContractSymbol::new("ref-naming-convention")],
        ConcernSymbol::Branch => vec![ContractSymbol::new("branch-naming-convention"), ContractSymbol::new("protected-branches")],
        ConcernSymbol::Remote => vec![ContractSymbol::new("remote-url-validation"), ContractSymbol::new("remote-authentication")],
        ConcernSymbol::TreeExecutable => vec![ContractSymbol::new("no-new-executables"), ContractSymbol::new("executable-safety-check")],
        ConcernSymbol::Commit => vec![ContractSymbol::new("commit-message-format"), ContractSymbol::new("commit-author-valid")],
        ConcernSymbol::Tree => vec![ContractSymbol::new("tree-structure-valid"), ContractSymbol::new("no-orphaned-trees")],
        ConcernSymbol::Head => vec![ContractSymbol::new("head-points-to-branch"), ContractSymbol::new("head-detached-allowed")],
        ConcernSymbol::ConfigCommit => vec![ContractSymbol::new("commit-template-defined"), ContractSymbol::new("commit-gpgsign-enabled")],
        ConcernSymbol::ConfigUser => vec![ContractSymbol::new("user-name-defined"), ContractSymbol::new("user-email-defined")],
        ConcernSymbol::ConfigGc => vec![ContractSymbol::new("gc-auto-enabled"), ContractSymbol::new("gc-prune-expire-set")],
        ConcernSymbol::ConfigRebase => vec![ContractSymbol::new("rebase-strategy-defined"), ContractSymbol::new("rebase-auto-stash-enabled")],
        _ => Vec::new(),
    };
    assert(symbol_names(r@) =~= contract_names(*concern));
    r
}

/// Get all contracts for a list of concerns.
pub fn get_all_contracts(concerns: &[ConcernSymbol]) -> (r: Vec<ContractSymbol>)
    ensures
        symbol_names(r@) == all_contract_names(concerns@),
{
    let mut r: Vec<ContractSymbol> = Vec::new();
    let mut i: usize = 0;
    while i < concerns.len()
        invariant
            i <= concerns@.len(),
            symbol_names(r@) == all_contract_names(concerns@.subrange(0, i as int)),
        decreases concerns@.len() - i,
    {
        let mut more = get_contracts(&concerns[i]);
        let ghost before = r@;
        r.append(&mut more);
        proof {
            let prefix = concerns@.subrange(0, i + 1);
            assert(prefix.drop_last() =~= concerns@.subrange(0, i as int));
            assert(symbol_names(r@) =~= symbol_names(before) + contract_names(concerns@[i as int]));
        }
        i = i + 1;
    }
    assert(concerns@.subrange(0, concerns@.len() as int) =~= concerns@);
    r
}

/// Check if a contract exists for a concern.
pub fn has_contracts(concern: &ConcernSymbol) -> (r: bool)
    ensures
        r == concern_has_contracts(*concern),
{
    let v = get_contracts(concern);
    assert(symbol_names(v@).len() == v@.len());
    v.len() != 0
}

/// Get contract names for a concern.
pub fn get_contract_names(concern: &ConcernSymbol) -> (r: Vec<String>)
    ensures
        string_views(r@) == contract_names(*concern),
{
    let v = get_contracts(concern);
    let mut r: Vec<String> = Vec::new();
    let mut i: usize = 0;
    while i < v.len()
        invariant
            i <= v@.len(),
            symbol_names(v@) == contract_names(*concern),
            r@.len() == i,
            string_views(r@) == symbol_names(v@).subrange(0, i as int),
        decreases v@.len() - i,
    {
        let name = v[i].name().to_owned();
        let ghost before = r@;
        r.push(name);
        assert(r@.subrange(0, i as int) =~= before);
        assert(r@[i as int]@ == symbol_names(v@)[i as int]);
        assert(string_views(r@) =~= symbol_names(v@).subrange(0, i + 1));
        i = i + 1;
    }
    assert(symbol_names(v@).subrange(0, v@.len() as int) =~= symbol_names(v@));
    r
}

/// Get concerns that have contracts.
pub fn get_concerns_with_contracts(concerns: &[ConcernSymbol]) -> (r: Vec<ConcernSymbol>)
    ensures
        r@ == concerns@.filter(|c: ConcernSymbol| concern_has_contracts(c)),
{
    let mut r: Vec<ConcernSymbol> = Vec::new();
    let mut i: usize = 0;
    while i < concerns.len()
        invariant
            i <= concerns@.len(),
            r@ == concerns@.subrange(0, i as int).filter(|c: ConcernSymbol| concern_has_contracts(c)),
        decreases concerns@.len() - i,
    {
        reveal_with_fuel(Seq::<_>::filter, 1);
        let c = concerns[i];
        if has_contracts(&c) {
            r.push(c);
        }
        assert(concerns@.subrange(0, i + 1).drop_last() =~= concerns@.subrange(0, i as int));
        i = i + 1;
    }
    assert(concerns@.subrange(0, concerns@.len() as int) =~= concerns@);
    r
}

/// Every concern that a hook event collects has at least one contract, so no
/// hook collects a concern that nothing can check.
pub proof fn lemma_hook_concerns_have_contracts(event: HookEvent)
    ensures
        forall|i: int|
            0 <= i < event_concerns(event).len() ==> concern_has_contracts(
                #[trigger] event_concerns(event)[i],
            ),
{
}

/// No hook event collects the same concern twice.
pub proof fn lemma_hook_concerns_distinct(event: HookEvent)
    ensures
        event_concerns(event).no_duplicates(),
{
}

} // verus!
