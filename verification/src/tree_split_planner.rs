//! Planning crate splits: which files count, the risk a split's
//! dependencies carry, the split of contract-dense files, and the
//! warnings suggested splits call for.

use vstd::prelude::*;
use crate::paths::{extension, extension_of};
use crate::sarif::{copy_string, copy_strings, texts};
use crate::text::{decimal_string, decimal_text, str_eq};

verus! {

/// Risk assessment for dependencies of a split.
#[derive(Debug, Clone, Copy, PartialEq, Eq, Structural)]
pub enum DependencyRisk {
    /// Few dependencies leave the split
    Low,
    /// Some dependencies leave the split
    Medium,
    /// Most dependencies leave the split
    High,
    /// The split's files depend on each other in a circle
    CycleDetected,
}

/// A suggested crate split, by its counts.
#[derive(Debug, Clone)]
pub struct CrateSplit {
    /// Name of the suggested crate
    pub crate_name: String,
    /// Files of the suggested crate
    pub files: Vec<String>,
    /// Why the split is suggested
    pub rationale: String,
    /// Estimated lines of code
    pub estimated_loc: u64,
    /// Contracts in the files
    pub contract_count: u64,
    /// Risk of the split's dependencies
    pub dependency_risk: DependencyRisk,
    /// Whether the split is recommended
    pub recommended: bool,
}

/// Whether a path is Rust source: its extension is `rs`.
pub fn is_rust_file(file_path: &str) -> (r: bool)
    ensures
        r == (extension_of(file_path@) == Some("rs"@)),
{
    match extension(file_path) {
        Some(e) => str_eq(e.as_str(), "rs"),
        None => false,
    }
}

/// The risk of dependencies: the share of them that leave the split, low
/// under a fifth, medium under a half, high from a half on (low where
/// there are none).
pub open spec fn risk_of(total: nat, external: nat) -> DependencyRisk {
    if total == 0 || external * 5 < total {
        DependencyRisk::Low
    } else if external * 2 < total {
        DependencyRisk::Medium
    } else {
        DependencyRisk::High
    }
}

/// The risk of a split's dependencies, given how many there are and how
/// many leave the split.
pub fn assess_dependency_risk(total_deps: u64, external_deps: u64) -> (r: DependencyRisk)
    ensures
        r == risk_of(total_deps as nat, external_deps as nat),
{
    let total: u128 = total_deps as u128;
    let external: u128 = external_deps as u128;
    if total == 0 || external * 5 < total {
        DependencyRisk::Low
    } else if external * 2 < total {
        DependencyRisk::Medium
    } else {
        DependencyRisk::High
    }
}

/// The sum of counts.
pub open spec fn total(v: Seq<u64>) -> nat
    decreases v.len(),
{
    if v.len() == 0 {
        0
    } else {
        total(v.drop_last()) + (v.last() as nat)
    }
}

/// The sum of a prefix is at most the sum of the whole.
proof fn lemma_total_prefix(v: Seq<u64>, i: int)
    requires
        0 <= i <= v.len(),
    ensures
        total(v.take(i)) <= total(v),
    decreases v.len() - i,
{
    if i < v.len() {
        lemma_total_prefix(v, i + 1);
        assert(v.take(i + 1).drop_last() =~= v.take(i));
    } else {
        assert(v.take(i) =~= v);
    }
}

/// Sum counts.
fn sum_counts(v: &Vec<u64>) -> (r: u64)
    requires
        total(v@) <= u64::MAX,
    ensures
        r == total(v@),
{
    let mut s: u64 = 0;
    let mut i: usize = 0;
    while i < v.len()
        invariant
            i <= v@.len(),
            total(v@) <= u64::MAX,
            s == total(v@.take(i as int)),
        decreases v@.len() - i,
    {
        proof {
            lemma_total_prefix(v@, i + 1);
            assert(v@.take(i + 1).drop_last() =~= v@.take(i as int));
        }
        s = s + v[i];
        i = i + 1;
    }
    assert(v@.take(i as int) =~= v@);
    s
}

/// The split of contract-dense files, given each file's lines and
/// contracts.
pub fn create_contract_split(files: &Vec<String>, lines: &Vec<u64>, contracts: &Vec<u64>) -> (r: CrateSplit)
    requires
        total(lines@) <= u64::MAX,
        total(contracts@) <= u64::MAX,
    ensures
        r.crate_name@ == "contract_dense"@,
        texts(r.files@) == texts(files@),
        r.rationale@ == "High contract density ("@ + decimal_text(total(contracts@)) + " contracts)"@,
        r.estimated_loc == total(lines@),
        r.contract_count == total(contracts@),
        r.dependency_risk == DependencyRisk::Low,
        r.recommended == (total(contracts@) > 0),
{
    let loc = sum_counts(lines);
    let n = sum_counts(contracts);
    let mut rationale = "High contract density (".to_owned();
    let d = decimal_string(n);
    rationale.append(d.as_str());
    rationale.append(" contracts)");
    CrateSplit {
        crate_name: "contract_dense".to_owned(),
        files: copy_strings(files),
        rationale,
        estimated_loc: loc,
        contract_count: n,
        dependency_risk: DependencyRisk::Low,
        recommended: n > 0,
    }
}

/// The warnings one suggested split calls for.
pub open spec fn split_warnings(s: CrateSplit, max_crate_size: u64) -> Seq<Seq<char>> {
    let a: Seq<Seq<char>> = if s.estimated_loc > max_crate_size {
        seq![
            "Crate '"@ + s.crate_name@ + "' exceeds size limit ("@ + decimal_text(s.estimated_loc as nat) + " LOC > "@
                + decimal_text(max_crate_size as nat) + " LOC)"@,
        ]
    } else {
        Seq::empty()
    };
    let b = if s.contract_count > 1 {
        a.push(
            "Crate '"@ + s.crate_name@ + "' has multiple contracts ("@ + decimal_text(s.contract_count as nat)
                + "), consider splitting"@,
        )
    } else {
        a
    };
    if s.dependency_risk == DependencyRisk::CycleDetected {
        b.push("Crate '"@ + s.crate_name@ + "' has dependency cycles - manual intervention required"@)
    } else {
        b
    }
}

/// The warnings suggested splits call for, in order.
pub open spec fn all_warnings(ss: Seq<CrateSplit>, max_crate_size: u64) -> Seq<Seq<char>>
    decreases ss.len(),
{
    if ss.len() == 0 {
        Seq::empty()
    } else {
        all_warnings(ss.drop_last(), max_crate_size) + split_warnings(ss.last(), max_crate_size)
    }
}

/// Warnings for suggested splits: a crate over the size limit, a crate
/// with several contracts, a crate with dependency cycles.
pub fn generate_warnings(max_crate_size: u64, suggestions: &[CrateSplit]) -> (r: Vec<String>)
    ensures
        texts(r@) == all_warnings(suggestions@, max_crate_size),
{
    let mut out: Vec<String> = Vec::new();
    let mut i: usize = 0;
    while i < suggestions.len()
        invariant
            i <= suggestions@.len(),
            texts(out@) == all_warnings(suggestions@.take(i as int), max_crate_size),
        decreases suggestions@.len() - i,
    {
        let s = &suggestions[i];
        let ghost before = texts(out@);
        if s.estimated_loc > max_crate_size {
            let mut m = "Crate '".to_owned();
            m.append(s.crate_name.as_str());
            m.append("' exceeds size limit (");
            let a = decimal_string(s.estimated_loc);
            m.append(a.as_str());
            m.append(" LOC > ");
            let b = decimal_string(max_crate_size);
            m.append(b.as_str());
            m.append(" LOC)");
            out.push(m);
        }
        if s.contract_count > 1 {
            let mut m = "Crate '".to_owned();
            m.append(s.crate_name.as_str());
            m.append("' has multiple contracts (");
            let a = decimal_string(s.contract_count);
            m.append(a.as_str());
            m.append("), consider splitting");
            out.push(m);
        }
        if s.dependency_risk == DependencyRisk::CycleDetected {
            let mut m = "Crate '".to_owned();
            m.append(s.crate_name.as_str());
            m.append("' has dependency cycles - manual intervention required");
            out.push(m);
        }
        assert(texts(out@) =~= before + split_warnings(*s, max_crate_size));
        assert(suggestions@.take(i + 1).drop_last() =~= suggestions@.take(i as int));
        i = i + 1;
    }
    assert(suggestions@.take(i as int) =~= suggestions@);
    out
}

/// How many warnings a split calls for: one when it is over the size
/// limit, one when it has two or more contracts, one when its dependencies
/// form a cycle. A split within the limit, with at most one contract and
/// no cycle, calls for none; and over several splits, the warnings are
/// those of each split in turn, so splits that call for none give none.
pub proof fn law_warning_count(s: CrateSplit, max_crate_size: u64, ss: Seq<CrateSplit>)
    ensures
        split_warnings(s, max_crate_size).len() == (if s.estimated_loc > max_crate_size { 1int } else { 0int }) + (if s.contract_count
            >= 2 { 1int } else { 0int }) + (if s.dependency_risk == DependencyRisk::CycleDetected { 1int } else { 0int }),
        s.estimated_loc <= max_crate_size && s.contract_count <= 1 && s.dependency_risk != DependencyRisk::CycleDetected
            ==> split_warnings(s, max_crate_size).len() == 0,
        (forall|i: int|
            0 <= i < ss.len() ==> (#[trigger] ss[i]).estimated_loc <= max_crate_size && ss[i].contract_count <= 1
                && ss[i].dependency_risk != DependencyRisk::CycleDetected) ==> all_warnings(ss, max_crate_size).len() == 0,
    decreases ss.len(),
{
    if ss.len() > 0 {
        law_warning_count(ss.last(), max_crate_size, ss.drop_last());
        if forall|i: int|
            0 <= i < ss.len() ==> (#[trigger] ss[i]).estimated_loc <= max_crate_size && ss[i].contract_count <= 1
                && ss[i].dependency_risk != DependencyRisk::CycleDetected {
            let p = ss.drop_last();
            assert forall|i: int|
                0 <= i < p.len() implies (#[trigger] p[i]).estimated_loc <= max_crate_size && p[i].contract_count <= 1
                    && p[i].dependency_risk != DependencyRisk::CycleDetected by {
                assert(p[i] == ss[i]);
            }
            law_warning_count(s, max_crate_size, p);
            assert(ss[ss.len() - 1] == ss.last());
        }
    }
}

} // verus!
