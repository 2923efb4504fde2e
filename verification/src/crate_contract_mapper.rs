//! Mapping of contracts to crate boundaries, and the audit of those
//! boundaries: dependencies outside the allowed list, unstable contracts
//! that expose them, scopes that do not match isolation.

use vstd::prelude::*;
use crate::components::opt_text;
use crate::hierarchical_validation::{char_is_space, is_space, split_lines, text_lines};
use crate::named_map::{lookup, NamedMap};
use crate::outside::{lowercase_of, to_lowercase};
use crate::paths::{extension, extension_of, file_name, file_name_of};
use crate::sarif::{copy_string, copy_strings, texts};
use crate::sarif_roles::upsert;
use crate::text::{seq_contains_seq, seq_starts_with, str_contains, str_eq, str_starts_with};

verus! {

/// Scope of a contract.
#[derive(Debug, Clone, Copy, PartialEq, Eq, Structural)]
pub enum ContractScope {
    /// Only within its crate
    Private,
    /// Within the workspace
    Internal,
    /// To every crate
    Public,
}

/// A contract found in a file.
#[derive(Debug, Clone)]
pub struct Contract {
    /// Contract identifier
    pub id: String,
    /// Lines the contract spans
    pub line_range: Option<(u32, u32)>,
    /// Scope of the contract
    pub scope: ContractScope,
}

/// Isolation level for contract boundaries.
#[derive(Debug, Clone, Copy, PartialEq, Eq, Structural, Hash)]
pub enum IsolationLevel {
    /// Only accessible within the crate
    Private,
    /// Accessible within the workspace
    Internal,
    /// Accessible from external crates
    Public,
    /// Marked for future changes
    Unstable,
}

/// Mapping of a contract to its crate.
#[derive(Debug, Clone)]
pub struct ContractCrateMapping {
    /// Contract identifier
    pub contract_id: String,
    /// Crate the contract belongs to
    pub crate_name: String,
    /// File the contract stands in
    pub file_path: String,
    /// Lines the contract spans
    pub line_range: Option<(u32, u32)>,
    /// Scope of the contract
    pub scope: ContractScope,
    /// Isolation level of the contract
    pub isolation_level: IsolationLevel,
    /// Crates the contract depends on
    pub dependencies: Vec<String>,
}

/// A mapping as plain values.
pub type MappingView = (Seq<char>, Seq<char>, Seq<char>, Option<(u32, u32)>, ContractScope, IsolationLevel, Seq<Seq<char>>);

/// A mapping's plain values.
pub open spec fn mapping_view(m: ContractCrateMapping) -> MappingView {
    (m.contract_id@, m.crate_name@, m.file_path@, m.line_range, m.scope, m.isolation_level, texts(m.dependencies@))
}

/// Mappings' plain values.
pub open spec fn mapping_views(ms: Seq<ContractCrateMapping>) -> Seq<MappingView> {
    ms.map_values(|m: ContractCrateMapping| mapping_view(m))
}

/// Mappings inserted in turn, each under its contract identifier.
pub open spec fn upsert_all(s: Seq<(Seq<char>, ContractCrateMapping)>, ms: Seq<ContractCrateMapping>) -> Seq<
    (Seq<char>, ContractCrateMapping),
>
    decreases ms.len(),
{
    if ms.len() == 0 {
        s
    } else {
        upsert(upsert_all(s, ms.drop_last()), ms.last().contract_id@, ms.last())
    }
}

/// A copy of a mapping.
fn copy_mapping(m: &ContractCrateMapping) -> (r: ContractCrateMapping)
    ensures
        mapping_view(r) == mapping_view(*m),
{
    ContractCrateMapping {
        contract_id: copy_string(&m.contract_id),
        crate_name: copy_string(&m.crate_name),
        file_path: copy_string(&m.file_path),
        line_range: m.line_range,
        scope: m.scope,
        isolation_level: m.isolation_level,
        dependencies: copy_strings(&m.dependencies),
    }
}

/// Types of boundary violations.
#[derive(Debug, Clone, Copy, PartialEq, Eq, Structural)]
pub enum ViolationType {
    /// A dependency on a crate outside the allowed list
    CrossCrateDependency,
    /// An unstable contract with such dependencies
    UnstableApiExposure,
    /// A public contract with private isolation
    ContractScopeMismatch,
    /// A dependency cycle
    CircularDependency,
    /// An isolation level that is not respected
    IsolationLevelViolation,
}

/// Severity levels for violations.
#[derive(Debug, Clone, Copy, PartialEq, Eq, Structural)]
pub enum ViolationSeverity {
    /// Information
    Info,
    /// Warning
    Warning,
    /// Error
    Error,
    /// Critical
    Critical,
}

/// A boundary violation.
#[derive(Debug, Clone)]
pub struct BoundaryViolation {
    /// The contract at fault
    pub contract_id: String,
    /// Type of violation
    pub violation_type: ViolationType,
    /// Severity of the violation
    pub severity: ViolationSeverity,
    /// What is wrong
    pub description: String,
    /// How to mend it
    pub suggested_fix: Option<String>,
}

/// A violation as plain values: contract, type, severity, description, fix.
pub type ViolationView = (Seq<char>, ViolationType, ViolationSeverity, Seq<char>, Option<Seq<char>>);

/// A violation's plain values.
pub open spec fn violation_view(v: BoundaryViolation) -> ViolationView {
    (v.contract_id@, v.violation_type, v.severity, v.description@, opt_text(v.suggested_fix))
}

/// Violations' plain values.
pub open spec fn violation_views(vs: Seq<BoundaryViolation>) -> Seq<ViolationView> {
    vs.map_values(|v: BoundaryViolation| violation_view(v))
}

/// Configuration of the mapper: the checks to run, the most contracts a
/// crate should hold and the crates any contract may depend on.
#[derive(Debug, Clone)]
pub struct ContractMapperConfig {
    /// Whether to check isolation
    pub enable_isolation_checks: bool,
    /// Whether to analyse dependencies
    pub enable_dependency_analysis: bool,
    /// Whether to track stability
    pub enable_stability_tracking: bool,
    /// The most contracts a crate should hold
    pub max_contracts_per_crate: u64,
    /// Crates any contract may depend on
    pub allowed_cross_crate_deps: Vec<String>,
}

impl Default for ContractMapperConfig {
    fn default() -> (r: Self)
        ensures
            r.enable_isolation_checks,
            r.enable_dependency_analysis,
            r.enable_stability_tracking,
            r.max_contracts_per_crate == 10,
            texts(r.allowed_cross_crate_deps@) == seq!["core"@, "shared"@],
    {
        let r = ContractMapperConfig {
            enable_isolation_checks: true,
            enable_dependency_analysis: true,
            enable_stability_tracking: true,
            max_contracts_per_crate: 10,
            allowed_cross_crate_deps: vec!["core".to_owned(), "shared".to_owned()],
        };
        assert(texts(r.allowed_cross_crate_deps@) =~= seq!["core"@, "shared"@]);
        r
    }
}

/// Dependencies outside the allowed list, in order.
pub open spec fn outside_deps(deps: Seq<Seq<char>>, allowed: Seq<Seq<char>>) -> Seq<Seq<char>>
    decreases deps.len(),
{
    if deps.len() == 0 {
        Seq::empty()
    } else {
        let rest = outside_deps(deps.drop_last(), allowed);
        if allowed.contains(deps.last()) {
            rest
        } else {
            rest.push(deps.last())
        }
    }
}

/// A violation for each dependency outside the allowed list.
pub open spec fn cross_crate_violations(id: Seq<char>, outside: Seq<Seq<char>>) -> Seq<ViolationView> {
    outside.map_values(
        |d: Seq<char>|
            (
                id,
                ViolationType::CrossCrateDependency,
                ViolationSeverity::Warning,
                "Contract depends on external crate '"@ + d + "'"@,
                Some("Move dependency to allowed list or refactor contract"@),
            ),
    )
}

/// The violations of one mapping, in the order they are checked.
pub open spec fn mapping_violations(m: ContractCrateMapping, allowed: Seq<Seq<char>>) -> Seq<ViolationView> {
    let id = m.contract_id@;
    let outside = outside_deps(texts(m.dependencies@), allowed);
    let a = cross_crate_violations(id, outside);
    let b = if m.isolation_level == IsolationLevel::Unstable && outside.len() > 0 {
        a.push(
            (
                id,
                ViolationType::UnstableApiExposure,
                ViolationSeverity::Error,
                "Unstable contract exposes public dependencies"@,
                Some("Mark dependencies as internal or refactor contract"@),
            ),
        )
    } else {
        a
    };
    if m.scope == ContractScope::Public && m.isolation_level == IsolationLevel::Private {
        b.push(
            (
                id,
                ViolationType::ContractScopeMismatch,
                ViolationSeverity::Error,
                "Public contract scope with private isolation level"@,
                Some("Align contract scope with isolation level"@),
            ),
        )
    } else {
        b
    }
}

/// The violations of mappings, in order.
pub open spec fn all_violations(ms: Seq<(Seq<char>, ContractCrateMapping)>, allowed: Seq<Seq<char>>) -> Seq<ViolationView>
    decreases ms.len(),
{
    if ms.len() == 0 {
        Seq::empty()
    } else {
        all_violations(ms.drop_last(), allowed) + mapping_violations(ms.last().1, allowed)
    }
}

/// The isolation level of a contract: its scope's, where a public
/// contract whose identifier speaks of instability is unstable.
pub open spec fn isolation_of(c: Contract) -> IsolationLevel {
    match c.scope {
        ContractScope::Private => IsolationLevel::Private,
        ContractScope::Internal => IsolationLevel::Internal,
        ContractScope::Public => if unstable_id(c.id@) {
            IsolationLevel::Unstable
        } else {
            IsolationLevel::Public
        },
    }
}

/// An identifier that speaks of instability.
pub open spec fn unstable_id(id: Seq<char>) -> bool {
    seq_contains_seq(lowercase_of(id), "unstable"@) || seq_contains_seq(lowercase_of(id), "experimental"@)
}

/// A file that may hold contracts: its name (in lower case) speaks of
/// contracts, validation, hooks, rules or policies, or it is Rust source.
pub open spec fn contract_file(path: Seq<char>) -> bool {
    let name = match file_name_of(path) {
        Some(f) => lowercase_of(f),
        None => lowercase_of(Seq::empty()),
    };
    ||| seq_contains_seq(name, "contract"@)
    ||| seq_contains_seq(name, "validation"@)
    ||| seq_contains_seq(name, "hook"@)
    ||| seq_contains_seq(name, "rule"@)
    ||| seq_contains_seq(name, "policy"@)
    ||| extension_of(path) == Some("rs"@)
}

/// Per-crate counts of the contract distribution.
#[derive(Debug, Clone)]
pub struct CrateDistribution {
    /// The crate
    pub crate_name: String,
    /// Contracts in the crate
    pub contract_count: u64,
    /// Contracts in all crates
    pub total_contracts: u64,
    /// Contracts of the crate per isolation level, in first-seen order
    pub isolation_breakdown: Vec<(IsolationLevel, u64)>,
    /// Dependencies of the crate's contracts
    pub dependency_count: u64,
    /// Of those, the ones outside the allowed list
    pub cross_crate_dependencies: u64,
}

/// The mappings of crate `c`, in order.
pub open spec fn of_crate(ms: Seq<ContractCrateMapping>, c: Seq<char>) -> Seq<ContractCrateMapping>
    decreases ms.len(),
{
    if ms.len() == 0 {
        Seq::empty()
    } else {
        of_crate(ms.drop_last(), c) + if ms.last().crate_name@ == c {
            seq![ms.last()]
        } else {
            Seq::empty()
        }
    }
}

/// The crates of the mappings, each once, in the order first seen.
pub open spec fn crates_in_order(ms: Seq<ContractCrateMapping>) -> Seq<Seq<char>>
    decreases ms.len(),
{
    if ms.len() == 0 {
        Seq::empty()
    } else {
        let p = crates_in_order(ms.drop_last());
        if p.contains(ms.last().crate_name@) {
            p
        } else {
            p.push(ms.last().crate_name@)
        }
    }
}

/// The isolation levels of the mappings, each once, in the order first seen.
pub open spec fn levels_in_order(ms: Seq<ContractCrateMapping>) -> Seq<IsolationLevel>
    decreases ms.len(),
{
    if ms.len() == 0 {
        Seq::empty()
    } else {
        let p = levels_in_order(ms.drop_last());
        if p.contains(ms.last().isolation_level) {
            p
        } else {
            p.push(ms.last().isolation_level)
        }
    }
}

/// How many of the mappings have isolation level `l`.
pub open spec fn level_count(ms: Seq<ContractCrateMapping>, l: IsolationLevel) -> nat
    decreases ms.len(),
{
    if ms.len() == 0 {
        0
    } else {
        level_count(ms.drop_last(), l) + if ms.last().isolation_level == l {
            1nat
        } else {
            0nat
        }
    }
}

/// The dependencies of all the mappings.
pub open spec fn dep_total(ms: Seq<ContractCrateMapping>) -> nat
    decreases ms.len(),
{
    if ms.len() == 0 {
        0
    } else {
        dep_total(ms.drop_last()) + ms.last().dependencies@.len()
    }
}

/// The dependencies of all the mappings that are not in `allowed`.
pub open spec fn cross_total(ms: Seq<ContractCrateMapping>, allowed: Seq<Seq<char>>) -> nat
    decreases ms.len(),
{
    if ms.len() == 0 {
        0
    } else {
        cross_total(ms.drop_last(), allowed) + outside_deps(texts(ms.last().dependencies@), allowed).len()
    }
}

/// The isolation breakdown of the mappings: each level, in the order first
/// seen, with how many mappings have it.
pub open spec fn breakdown_of(ms: Seq<ContractCrateMapping>) -> Seq<(IsolationLevel, u64)> {
    levels_in_order(ms).map_values(|l: IsolationLevel| (l, level_count(ms, l) as u64))
}

/// `d` is the distribution of crate `c` among the mappings `ms`, with
/// `allowed` the crates any contract may depend on.
pub open spec fn distribution_is(d: CrateDistribution, c: Seq<char>, ms: Seq<ContractCrateMapping>, allowed: Seq<Seq<char>>) -> bool {
    let cm = of_crate(ms, c);
    &&& d.crate_name@ == c
    &&& d.contract_count == cm.len()
    &&& d.total_contracts == ms.len()
    &&& d.isolation_breakdown@ == breakdown_of(cm)
    &&& d.dependency_count == dep_total(cm)
    &&& d.cross_crate_dependencies == cross_total(cm, allowed)
}

/// A level occurs once in the levels first seen.
proof fn lemma_levels_distinct(ms: Seq<ContractCrateMapping>)
    ensures
        forall|i: int, j: int| 0 <= i < j < levels_in_order(ms).len() ==> levels_in_order(ms)[i] != levels_in_order(ms)[j],
        forall|l: IsolationLevel| levels_in_order(ms).contains(l) <==> level_count(ms, l) > 0,
        forall|l: IsolationLevel| level_count(ms, l) <= ms.len(),
    decreases ms.len(),
{
    if ms.len() > 0 {
        let p = levels_in_order(ms.drop_last());
        let x = ms.last().isolation_level;
        lemma_levels_distinct(ms.drop_last());
        assert forall|l: IsolationLevel| level_count(ms, l) <= ms.len() by {
            assert(level_count(ms.drop_last(), l) <= ms.drop_last().len());
        }
        if !p.contains(x) {
            let q = p.push(x);
            assert forall|i: int, j: int| 0 <= i < j < q.len() implies q[i] != q[j] by {
                if j == q.len() - 1 {
                    assert(q[i] == p[i]);
                }
            }
            assert forall|l: IsolationLevel| q.contains(l) <==> p.contains(l) || l == x by {
                if q.contains(l) {
                    let k = choose|k: int| 0 <= k < q.len() && q[k] == l;
                    if k < p.len() {
                        assert(p[k] == l);
                    }
                }
                if p.contains(l) {
                    let k = choose|k: int| 0 <= k < p.len() && p[k] == l;
                    assert(q[k] == l);
                }
                if l == x {
                    assert(q[p.len() as int] == l);
                }
            }
        }
    }
}

/// The mappings of a crate hold no more dependencies, or outside ones,
/// than all the mappings do.
proof fn lemma_dep_totals(ms: Seq<ContractCrateMapping>, c: Seq<char>, allowed: Seq<Seq<char>>)
    ensures
        dep_total(of_crate(ms, c)) <= dep_total(ms),
        cross_total(ms, allowed) <= dep_total(ms),
        of_crate(ms, c).len() <= ms.len(),
    decreases ms.len(),
{
    if ms.len() > 0 {
        let p = ms.drop_last();
        let m = ms.last();
        lemma_dep_totals(p, c, allowed);
        lemma_outside_count_bound(texts(m.dependencies@), allowed);
        if m.crate_name@ == c {
            let q = of_crate(p, c).push(m);
            assert(of_crate(ms, c) =~= q);
            assert(q.drop_last() =~= of_crate(p, c));
        } else {
            assert(of_crate(ms, c) =~= of_crate(p, c));
        }
    }
}

/// No more dependencies are outside than there are.
proof fn lemma_outside_count_bound(deps: Seq<Seq<char>>, allowed: Seq<Seq<char>>)
    ensures
        outside_deps(deps, allowed).len() <= deps.len(),
    decreases deps.len(),
{
    if deps.len() > 0 {
        lemma_outside_count_bound(deps.drop_last(), allowed);
    }
}

/// The dependencies of a prefix are at most those of the whole.
proof fn lemma_dep_total_prefix(ms: Seq<ContractCrateMapping>, i: int)
    requires
        0 <= i <= ms.len(),
    ensures
        dep_total(ms.take(i)) <= dep_total(ms),
    decreases ms.len() - i,
{
    if i < ms.len() {
        lemma_dep_total_prefix(ms, i + 1);
        assert(ms.take(i + 1).drop_last() =~= ms.take(i));
    } else {
        assert(ms.take(i) =~= ms);
    }
}

/// The mappings held under their identifiers, in order.
pub open spec fn mapping_values(maps: Seq<(Seq<char>, ContractCrateMapping)>) -> Seq<ContractCrateMapping> {
    maps.map_values(|e: (Seq<char>, ContractCrateMapping)| e.1)
}

/// How many of the dependencies are not in `allowed`.
fn count_outside_deps(allowed: &Vec<String>, deps: &Vec<String>) -> (r: u64)
    ensures
        r == outside_deps(texts(deps@), texts(allowed@)).len(),
{
    let ghost ds = texts(deps@);
    let mut r: u64 = 0;
    let mut j: usize = 0;
    while j < deps.len()
        invariant
            j <= deps@.len(),
            ds == texts(deps@),
            r == outside_deps(ds.take(j as int), texts(allowed@)).len(),
            r <= j,
        decreases deps@.len() - j,
    {
        assert(ds.take(j + 1).drop_last() =~= ds.take(j as int));
        assert(ds.take(j + 1).last() == deps@[j as int]@);
        if !listed(allowed, &deps[j]) {
            r = r + 1;
        }
        j = j + 1;
    }
    assert(ds.take(j as int) =~= ds);
    r
}

/// Contract-to-crate mapper for isolation auditing.
pub struct CrateContractMapper {
    config: ContractMapperConfig,
    mappings: NamedMap<ContractCrateMapping>,
    violations: Vec<BoundaryViolation>,
}

/// Whether a text is in a list.
fn listed(list: &Vec<String>, s: &String) -> (r: bool)
    ensures
        r == texts(list@).contains(s@),
{
    let mut i: usize = 0;
    while i < list.len()
        invariant
            i <= list@.len(),
            forall|j: int| 0 <= j < i ==> list@[j]@ != s@,
        decreases list@.len() - i,
    {
        if str_eq(list[i].as_str(), s.as_str()) {
            assert(texts(list@)[i as int] == s@);
            return true;
        }
        i = i + 1;
    }
    proof {
        if texts(list@).contains(s@) {
            let k = choose|k: int| 0 <= k < texts(list@).len() && texts(list@)[k] == s@;
            assert(list@[k]@ == s@);
        }
    }
    false
}

/// A copy of a violation.
fn copy_violation(v: &BoundaryViolation) -> (r: BoundaryViolation)
    ensures
        violation_view(r) == violation_view(*v),
{
    BoundaryViolation {
        contract_id: copy_string(&v.contract_id),
        violation_type: v.violation_type,
        severity: v.severity,
        description: copy_string(&v.description),
        suggested_fix: match &v.suggested_fix {
            Some(f) => Some(copy_string(f)),
            None => None,
        },
    }
}

/// A violation of a contract.
fn violation(id: &String, t: ViolationType, severity: ViolationSeverity, description: String, fix: &str) -> (r: BoundaryViolation)
    ensures
        violation_view(r) == (id@, t, severity, description@, Some(fix@)),
{
    BoundaryViolation {
        contract_id: copy_string(id),
        violation_type: t,
        severity,
        description,
        suggested_fix: Some(fix.to_owned()),
    }
}

impl CrateContractMapper {
    /// The configuration.
    pub closed spec fn cfg(&self) -> ContractMapperConfig {
        self.config
    }

    /// The mappings, by contract identifier.
    pub closed spec fn maps(&self) -> Seq<(Seq<char>, ContractCrateMapping)> {
        self.mappings.entries()
    }

    /// The violations found last.
    pub closed spec fn found(&self) -> Seq<ViolationView> {
        violation_views(self.violations@)
    }

    /// A mapper with a configuration (the default where none is given),
    /// no mappings and no violations.
    pub fn new(config: Option<ContractMapperConfig>) -> (r: Self)
        ensures
            r.maps().len() == 0,
            r.found().len() == 0,
            config matches Some(c) ==> r.cfg() == c,
            config is None ==> r.cfg().max_contracts_per_crate == 10 && texts(r.cfg().allowed_cross_crate_deps@) == seq![
                "core"@,
                "shared"@,
            ],
    {
        let config = match config {
            Some(c) => c,
            None => ContractMapperConfig::default(),
        };
        let r = CrateContractMapper { config, mappings: NamedMap::new(), violations: Vec::new() };
        assert(violation_views(r.violations@) =~= Seq::<ViolationView>::empty());
        r
    }

    /// The configuration.
    pub fn config(&self) -> (r: &ContractMapperConfig)
        ensures
            *r == self.cfg(),
    {
        &self.config
    }

    /// Keep mappings, each under its contract identifier, in turn; they
    /// are given back.
    pub fn map_contracts_to_crates(&mut self, mappings: Vec<ContractCrateMapping>) -> (r: Result<Vec<ContractCrateMapping>, String>)
        ensures
            r matches Ok(v) && mapping_views(v@) == mapping_views(mappings@),
            final(self).maps() == upsert_all(old(self).maps(), mappings@),
            final(self).cfg() == old(self).cfg(),
    {
        let ghost orig = mappings@;
        let mut out: Vec<ContractCrateMapping> = Vec::new();
        let mut i: usize = 0;
        while i < mappings.len()
            invariant
                i <= mappings@.len(),
                mappings@ == orig,
                mapping_views(out@) == mapping_views(orig.take(i as int)),
            decreases mappings@.len() - i,
        {
            let c = copy_mapping(&mappings[i]);
            let ghost before = out@;
            out.push(c);
            assert(out@ == before.push(c));
            assert(orig.take(i + 1) =~= orig.take(i as int).push(orig[i as int]));
            assert(mapping_views(out@) =~= mapping_views(before).push(mapping_view(c)));
            assert(mapping_views(out@) =~= mapping_views(orig.take(i + 1)));
            i = i + 1;
        }
        assert(orig.take(orig.len() as int) =~= orig);
        let n = mappings.len();
        let mut rest = mappings;
        let mut k: usize = 0;
        while rest.len() > 0
            invariant
                n == orig.len(),
                k + rest@.len() == n,
                rest@ == orig.subrange(k as int, orig.len() as int),
                self.maps() == upsert_all(old(self).maps(), orig.take(k as int)),
                self.cfg() == old(self).cfg(),
            decreases rest@.len(),
        {
            let m = rest.remove(0);
            assert(m == orig[k as int]);
            assert(orig.take(k + 1).drop_last() =~= orig.take(k as int));
            let id = copy_string(&m.contract_id);
            self.mappings.insert(id, m);
            assert(rest@ =~= orig.subrange(k + 1, orig.len() as int));
            k = k + 1;
        }
        assert(orig.take(k as int) =~= orig);
        Ok(out)
    }

    /// Whether a file may hold contracts.
    pub fn is_contract_file(&self, file_path: &str) -> (r: bool)
        ensures
            r == contract_file(file_path@),
    {
        let name = match file_name(file_path) {
            Some(f) => to_lowercase(f.as_str()),
            None => to_lowercase(""),
        };
        proof {
            reveal_strlit("");
            assert(""@ =~= Seq::<char>::empty());
        }
        if str_contains(name.as_str(), "contract") || str_contains(name.as_str(), "validation") || str_contains(
            name.as_str(),
            "hook",
        ) || str_contains(name.as_str(), "rule") || str_contains(name.as_str(), "policy") {
            return true;
        }
        match extension(file_path) {
            Some(e) => str_eq(e.as_str(), "rs"),
            None => false,
        }
    }

    /// The contracts written in a file: none are read yet.
    pub fn parse_contracts_from_file(&self, file_path: &str) -> (r: Result<Vec<Contract>, String>)
        ensures
            r matches Ok(v) && v@.len() == 0,
    {
        Ok(Vec::new())
    }

    /// The dependencies of a contract: none are read yet.
    pub fn extract_contract_dependencies(&self, contract: &Contract) -> (r: Result<Vec<String>, String>)
        ensures
            r matches Ok(v) && v@.len() == 0,
    {
        Ok(Vec::new())
    }

    /// Whether a contract's identifier speaks of instability.
    pub fn is_unstable_contract(&self, contract: &Contract) -> (r: bool)
        ensures
            r == unstable_id(contract.id@),
    {
        let id = to_lowercase(contract.id.as_str());
        str_contains(id.as_str(), "unstable") || str_contains(id.as_str(), "experimental")
    }

    /// The isolation level of a contract.
    pub fn determine_isolation_level(&self, contract: &Contract, crate_name: &str) -> (r: Result<IsolationLevel, String>)
        ensures
            r == Ok::<IsolationLevel, String>(isolation_of(*contract)),
    {
        match contract.scope {
            ContractScope::Private => Ok(IsolationLevel::Private),
            ContractScope::Internal => Ok(IsolationLevel::Internal),
            ContractScope::Public => {
                if self.is_unstable_contract(contract) {
                    Ok(IsolationLevel::Unstable)
                } else {
                    Ok(IsolationLevel::Public)
                }
            },
        }
    }

    /// The mappings of the contracts written in a file of a crate.
    pub fn extract_contracts_from_file(&self, file_path: &str, crate_name: &str) -> (r: Result<
        Vec<ContractCrateMapping>,
        String,
    >)
        ensures
            r matches Ok(v) && v@.len() == 0,
    {
        let contracts = match self.parse_contracts_from_file(file_path) {
            Ok(c) => c,
            Err(e) => {
                return Err(e);
            },
        };
        let mut out: Vec<ContractCrateMapping> = Vec::new();
        let mut i: usize = 0;
        while i < contracts.len()
            invariant
                i <= contracts@.len(),
                contracts@.len() == 0,
                out@.len() == i,
            decreases contracts@.len() - i,
        {
            let contract = &contracts[i];
            let isolation_level = match self.determine_isolation_level(contract, crate_name) {
                Ok(level) => level,
                Err(e) => {
                    return Err(e);
                },
            };
            let dependencies = match self.extract_contract_dependencies(contract) {
                Ok(d) => d,
                Err(e) => {
                    return Err(e);
                },
            };
            out.push(
                ContractCrateMapping {
                    contract_id: copy_string(&contract.id),
                    crate_name: crate_name.to_string(),
                    file_path: file_path.to_string(),
                    line_range: contract.line_range,
                    scope: contract.scope,
                    isolation_level,
                    dependencies,
                },
            );
            i = i + 1;
        }
        Ok(out)
    }

    /// The violations of one mapping, given the crates any contract may
    /// depend on, added to the list.
    fn check_contract_boundaries(allowed_deps: &Vec<String>, mapping: &ContractCrateMapping, violations: &mut Vec<BoundaryViolation>)
        ensures
            violation_views(final(violations)@) == violation_views(old(violations)@) + mapping_violations(
                *mapping,
                texts(allowed_deps@),
            ),
    {
        let ghost allowed = texts(allowed_deps@);
        let ghost start = violation_views(violations@);
        let ghost id = mapping.contract_id@;
        let deps = &mapping.dependencies;
        let mut outside: usize = 0;
        let mut i: usize = 0;
        while i < deps.len()
            invariant
                i <= deps@.len(),
                allowed == texts(allowed_deps@),
                id == mapping.contract_id@,
                start == violation_views(old(violations)@),
                outside == outside_deps(texts(deps@).take(i as int), allowed).len(),
                outside <= i,
                violation_views(violations@) == start + cross_crate_violations(id, outside_deps(texts(deps@).take(i as int), allowed)),
            decreases deps@.len() - i,
        {
            assert(texts(deps@).take(i + 1).drop_last() =~= texts(deps@).take(i as int));
            assert(texts(deps@).take(i + 1).last() == deps@[i as int]@);
            let ghost before = violation_views(violations@);
            let ghost prev = outside_deps(texts(deps@).take(i as int), allowed);
            if !listed(allowed_deps, &deps[i]) {
                let mut d = "Contract depends on external crate '".to_owned();
                d.append(deps[i].as_str());
                d.append("'");
                let ghost dd = d@;
                assert(dd == "Contract depends on external crate '"@ + deps@[i as int]@ + "'"@);
                let v = violation(
                    &mapping.contract_id,
                    ViolationType::CrossCrateDependency,
                    ViolationSeverity::Warning,
                    d,
                    "Move dependency to allowed list or refactor contract",
                );
                assert(!allowed.contains(deps@[i as int]@));
                assert(outside_deps(texts(deps@).take(i + 1), allowed) == prev.push(deps@[i as int]@));
                assert(violation_view(v) == (
                    id,
                    ViolationType::CrossCrateDependency,
                    ViolationSeverity::Warning,
                    "Contract depends on external crate '"@ + deps@[i as int]@ + "'"@,
                    Some("Move dependency to allowed list or refactor contract"@),
                ));
                violations.push(v);
                outside = outside + 1;
                assert(violation_views(violations@) =~= before.push(violation_view(v)));
                assert(cross_crate_violations(id, prev.push(deps@[i as int]@)) =~= cross_crate_violations(id, prev).push(
                    violation_view(v),
                ));
            }
            i = i + 1;
        }
        assert(texts(deps@).take(deps@.len() as int) =~= texts(deps@));
        if mapping.isolation_level == IsolationLevel::Unstable && outside > 0 {
            let ghost before = violation_views(violations@);
            let v = violation(
                &mapping.contract_id,
                ViolationType::UnstableApiExposure,
                ViolationSeverity::Error,
                "Unstable contract exposes public dependencies".to_owned(),
                "Mark dependencies as internal or refactor contract",
            );
            violations.push(v);
            assert(violation_views(violations@) =~= before.push(violation_view(v)));
        }
        if mapping.scope == ContractScope::Public && mapping.isolation_level == IsolationLevel::Private {
            let ghost before = violation_views(violations@);
            let v = violation(
                &mapping.contract_id,
                ViolationType::ContractScopeMismatch,
                ViolationSeverity::Error,
                "Public contract scope with private isolation level".to_owned(),
                "Align contract scope with isolation level",
            );
            violations.push(v);
            assert(violation_views(violations@) =~= before.push(violation_view(v)));
        }
    }

    /// Detect the boundary violations of all mappings, in order; they are
    /// kept as the violations found last.
    pub fn detect_boundary_violations(&mut self) -> (r: Vec<BoundaryViolation>)
        ensures
            violation_views(r@) == all_violations(old(self).maps(), texts(old(self).cfg().allowed_cross_crate_deps@)),
            final(self).found() == violation_views(r@),
            final(self).maps() == old(self).maps(),
            final(self).cfg() == old(self).cfg(),
    {
        self.violations = Vec::new();
        let ghost ms = self.maps();
        let ghost allowed = texts(self.config.allowed_cross_crate_deps@);
        assert(violation_views(self.violations@) =~= Seq::<ViolationView>::empty());
        let mut i: usize = 0;
        while i < self.mappings.len()
            invariant
                i <= ms.len(),
                ms == self.maps(),
                ms == old(self).maps(),
                self.cfg() == old(self).cfg(),
                allowed == texts(self.config.allowed_cross_crate_deps@),
                self.found() == all_violations(ms.take(i as int), allowed),
            decreases ms.len() - i,
        {
            let (_, m) = self.mappings.entry_at(i);
            assert(ms.take(i + 1).drop_last() =~= ms.take(i as int));
            assert(ms.take(i + 1).last() == ms[i as int]);
            Self::check_contract_boundaries(&self.config.allowed_cross_crate_deps, m, &mut self.violations);
            i = i + 1;
        }
        assert(ms.take(ms.len() as int) =~= ms);
        let mut r: Vec<BoundaryViolation> = Vec::new();
        let mut k: usize = 0;
        while k < self.violations.len()
            invariant
                k <= self.violations@.len(),
                violation_views(r@) == violation_views(self.violations@).take(k as int),
            decreases self.violations@.len() - k,
        {
            let ghost before = r@;
            let v = copy_violation(&self.violations[k]);
            r.push(v);
            assert(r@ == before.push(v));
            assert(violation_views(r@) =~= violation_views(before).push(violation_view(v)));
            assert(violation_views(r@) =~= violation_views(self.violations@).take(k + 1));
            k = k + 1;
        }
        assert(violation_views(self.violations@).take(k as int) =~= violation_views(self.violations@));
        r
    }

    /// The mapping of a contract.
    pub fn get_contract_mapping(&self, contract_id: &str) -> (r: Option<&ContractCrateMapping>)
        ensures
            match lookup(self.maps(), contract_id@) {
                Some(m) => r == Some(&m),
                None => r is None,
            },
    {
        self.mappings.get(contract_id)
    }

    /// The distribution of crate `crate_name` among the mappings.
    fn crate_distribution(&self, crate_name: &String) -> (r: CrateDistribution)
        requires
            dep_total(mapping_values(self.maps())) <= u64::MAX,
        ensures
            distribution_is(r, crate_name@, mapping_values(self.maps()), texts(self.cfg().allowed_cross_crate_deps@)),
    {
        let ghost vals = mapping_values(self.maps());
        let ghost c = crate_name@;
        let ghost allowed = texts(self.config.allowed_cross_crate_deps@);
        let mut count: u64 = 0;
        let mut breakdown: Vec<(IsolationLevel, u64)> = Vec::new();
        let mut deps: u64 = 0;
        let mut cross: u64 = 0;
        let mut i: usize = 0;
        assert(breakdown@ =~= breakdown_of(of_crate(vals.take(0), c)));
        while i < self.mappings.len()
            invariant
                i <= vals.len(),
                vals == mapping_values(self.maps()),
                c == crate_name@,
                allowed == texts(self.config.allowed_cross_crate_deps@),
                dep_total(vals) <= u64::MAX,
                count == of_crate(vals.take(i as int), c).len(),
                count <= i,
                breakdown@ == breakdown_of(of_crate(vals.take(i as int), c)),
                deps == dep_total(of_crate(vals.take(i as int), c)),
                cross == cross_total(of_crate(vals.take(i as int), c), allowed),
            decreases vals.len() - i,
        {
            let (_, m) = self.mappings.entry_at(i);
            let ghost cm = of_crate(vals.take(i as int), c);
            assert(vals.take(i + 1).drop_last() =~= vals.take(i as int));
            assert(vals.take(i + 1).last() == *m);
            if str_eq(m.crate_name.as_str(), crate_name.as_str()) {
                let ghost cm2 = cm.push(*m);
                assert(of_crate(vals.take(i + 1), c) =~= cm2);
                assert(cm2.drop_last() =~= cm);
                proof {
                    lemma_dep_totals(vals.take(i + 1), c, allowed);
                    lemma_dep_totals(cm2, c, allowed);
                    lemma_dep_total_prefix(vals, i + 1);
                    lemma_levels_distinct(cm);
                    lemma_levels_distinct(cm2);
                }
                count = count + 1;
                deps = deps + m.dependencies.len() as u64;
                let oc = count_outside_deps(&self.config.allowed_cross_crate_deps, &m.dependencies);
                cross = cross + oc;
                let level = m.isolation_level;
                let mut k: usize = 0;
                let mut found = false;
                while !found && k < breakdown.len()
                    invariant
                        k <= breakdown@.len(),
                        breakdown@ == breakdown_of(cm),
                        found ==> k < breakdown@.len() && breakdown@[k as int].0 == level,
                        forall|j: int| 0 <= j < k ==> (#[trigger] breakdown@[j]).0 != level,
                    decreases breakdown@.len() - k + if found { 0int } else { 1int },
                {
                    if breakdown[k].0 == level {
                        found = true;
                    } else {
                        k = k + 1;
                    }
                }
                if found {
                    let n = breakdown[k].1;
                    assert(levels_in_order(cm)[k as int] == level);
                    assert(levels_in_order(cm).contains(level));
                    breakdown.set(k, (level, n + 1));
                    assert(breakdown@ =~= breakdown_of(cm2));
                } else {
                    assert(!levels_in_order(cm).contains(level)) by {
                        if levels_in_order(cm).contains(level) {
                            let j = choose|j: int| 0 <= j < levels_in_order(cm).len() && levels_in_order(cm)[j] == level;
                            assert(breakdown@[j].0 == level);
                        }
                    }
                    breakdown.push((level, 1));
                    assert(breakdown@ =~= breakdown_of(cm2));
                }
            } else {
                assert(of_crate(vals.take(i + 1), c) =~= cm);
            }
            i = i + 1;
        }
        assert(vals.take(i as int) =~= vals);
        CrateDistribution {
            crate_name: copy_string(crate_name),
            contract_count: count,
            total_contracts: self.mappings.len() as u64,
            isolation_breakdown: breakdown,
            dependency_count: deps,
            cross_crate_dependencies: cross,
        }
    }

    /// The distribution of the contracts over their crates: one entry per
    /// crate, in the order the crates first occur among the mappings, each
    /// with its contract count, the total count, its contracts per
    /// isolation level, and its dependencies, all and outside the allowed
    /// crates.
    pub fn analyze_contract_distribution(&self) -> (r: Vec<CrateDistribution>)
        requires
            dep_total(mapping_values(self.maps())) <= u64::MAX,
        ensures
            r@.len() == crates_in_order(mapping_values(self.maps())).len(),
            forall|j: int|
                0 <= j < r@.len() ==> distribution_is(
                    #[trigger] r@[j],
                    crates_in_order(mapping_values(self.maps()))[j],
                    mapping_values(self.maps()),
                    texts(self.cfg().allowed_cross_crate_deps@),
                ),
    {
        let ghost vals = mapping_values(self.maps());
        let ghost allowed = texts(self.config.allowed_cross_crate_deps@);
        let mut names: Vec<String> = Vec::new();
        let mut out: Vec<CrateDistribution> = Vec::new();
        let mut i: usize = 0;
        while i < self.mappings.len()
            invariant
                i <= vals.len(),
                vals == mapping_values(self.maps()),
                allowed == texts(self.config.allowed_cross_crate_deps@),
                dep_total(vals) <= u64::MAX,
                texts(names@) == crates_in_order(vals.take(i as int)),
                out@.len() == names@.len(),
                forall|j: int| 0 <= j < out@.len() ==> distribution_is(#[trigger] out@[j], crates_in_order(vals.take(i as int))[j], vals, allowed),
            decreases vals.len() - i,
        {
            let (_, m) = self.mappings.entry_at(i);
            assert(vals.take(i + 1).drop_last() =~= vals.take(i as int));
            assert(vals.take(i + 1).last() == *m);
            if !listed(&names, &m.crate_name) {
                let d = self.crate_distribution(&m.crate_name);
                names.push(copy_string(&m.crate_name));
                out.push(d);
                assert(texts(names@) =~= crates_in_order(vals.take(i as int)).push(m.crate_name@));
            }
            i = i + 1;
        }
        assert(vals.take(i as int) =~= vals);
        out
    }

    /// The mappings of the contracts of a crate, in order.
    pub fn get_crate_contracts(&self, crate_name: &str) -> (r: Vec<&ContractCrateMapping>)
        ensures
            r@.map_values(|m: &ContractCrateMapping| *m) == self.maps().map_values(|e: (Seq<char>, ContractCrateMapping)| e.1).filter(
                |m: ContractCrateMapping| m.crate_name@ == crate_name@,
            ),
    {
        let ghost vals = self.maps().map_values(|e: (Seq<char>, ContractCrateMapping)| e.1);
        let ghost pred = |m: ContractCrateMapping| m.crate_name@ == crate_name@;
        let mut r: Vec<&ContractCrateMapping> = Vec::new();
        let mut i: usize = 0;
        while i < self.mappings.len()
            invariant
                i <= vals.len(),
                vals == self.maps().map_values(|e: (Seq<char>, ContractCrateMapping)| e.1),
                pred == (|m: ContractCrateMapping| m.crate_name@ == crate_name@),
                r@.map_values(|m: &ContractCrateMapping| *m) == vals.take(i as int).filter(pred),
            decreases vals.len() - i,
        {
            reveal_with_fuel(Seq::<_>::filter, 1);
            let (_, m) = self.mappings.entry_at(i);
            assert(vals.take(i + 1).drop_last() =~= vals.take(i as int));
            assert(vals.take(i + 1).last() == *m);
            let ghost before = r@;
            if str_eq(m.crate_name.as_str(), crate_name) {
                r.push(m);
                assert(r@.map_values(|m: &ContractCrateMapping| *m) =~= before.map_values(|m: &ContractCrateMapping| *m).push(*m));
            }
            i = i + 1;
        }
        assert(vals.take(vals.len() as int) =~= vals);
        r
    }
}

/// Leading whitespace removed.
pub open spec fn trim_start(s: Seq<char>) -> Seq<char>
    decreases s.len(),
{
    if s.len() > 0 && is_space(s[0]) {
        trim_start(s.drop_first())
    } else {
        s
    }
}

/// Trailing whitespace removed.
pub open spec fn trim_end(s: Seq<char>) -> Seq<char>
    decreases s.len(),
{
    if s.len() > 0 && is_space(s.last()) {
        trim_end(s.drop_last())
    } else {
        s
    }
}

/// Leading and trailing whitespace removed.
pub open spec fn trimmed(s: Seq<char>) -> Seq<char> {
    trim_end(trim_start(s))
}

/// Leading and trailing double quotes removed.
pub open spec fn unquoted(s: Seq<char>) -> Seq<char>
    decreases s.len(),
{
    if s.len() > 0 && s[0] == '"' {
        unquoted(s.drop_first())
    } else if s.len() > 0 && s.last() == '"' {
        unquoted(s.drop_last())
    } else {
        s
    }
}

/// The first position of a character.
pub open spec fn first_index(s: Seq<char>, c: char) -> Option<int>
    decreases s.len(),
{
    if s.len() == 0 {
        None
    } else if s[0] == c {
        Some(0)
    } else {
        match first_index(s.drop_first(), c) {
            Some(i) => Some(i + 1),
            None => None,
        }
    }
}

/// The text between the first `=` and the next one (or the end).
pub open spec fn second_field(s: Seq<char>) -> Option<Seq<char>> {
    match first_index(s, '=') {
        None => None,
        Some(i) => {
            let rest = s.subrange(i + 1, s.len() as int);
            Some(
                match first_index(rest, '=') {
                    Some(j) => rest.subrange(0, j),
                    None => rest,
                },
            )
        },
    }
}

/// The crate name declared in lines of a manifest: from the first line
/// that starts (after whitespace) with `name =`.
pub open spec fn crate_name_in(lines: Seq<Seq<char>>) -> Option<Seq<char>>
    decreases lines.len(),
{
    if lines.len() == 0 {
        None
    } else if seq_starts_with(trimmed(lines[0]), "name ="@) && second_field(lines[0]) is Some {
        Some(unquoted(trimmed(second_field(lines[0])->0)))
    } else {
        crate_name_in(lines.drop_first())
    }
}

/// A slice of a character sequence as a string.
fn slice_string(cs: &Vec<char>, from: usize, to: usize) -> (r: String)
    requires
        from <= to <= cs@.len(),
    ensures
        r@ == cs@.subrange(from as int, to as int),
{
    let mut r = String::new();
    let mut i: usize = from;
    while i < to
        invariant
            from <= i <= to,
            to <= cs@.len(),
            r@ == cs@.subrange(from as int, i as int),
        decreases to - i,
    {
        crate::text::push_char(&mut r, cs[i]);
        assert(r@ =~= cs@.subrange(from as int, i + 1));
        i = i + 1;
    }
    r
}

/// A text with leading and trailing whitespace removed.
pub fn trim_text(s: &str) -> (r: String)
    ensures
        r@ == trimmed(s@),
{
    let cs = chars_of_str(s);
    let mut a: usize = 0;
    assert(cs@.subrange(0, cs@.len() as int) =~= cs@);
    while a < cs.len() && char_is_space(cs[a])
        invariant
            a <= cs@.len(),
            trim_start(cs@) == trim_start(cs@.subrange(a as int, cs@.len() as int)),
        decreases cs@.len() - a,
    {
        assert(cs@.subrange(a as int, cs@.len() as int).drop_first() =~= cs@.subrange(a + 1, cs@.len() as int));
        a = a + 1;
    }
    let ghost st = cs@.subrange(a as int, cs@.len() as int);
    assert(trim_start(cs@) == st) by {
        assert(cs@.subrange(a as int, cs@.len() as int) == st);
    }
    let mut b: usize = cs.len();
    assert(st.subrange(0, (b - a) as int) =~= st);
    while b > a && char_is_space(cs[b - 1])
        invariant
            a <= b <= cs@.len(),
            st == cs@.subrange(a as int, cs@.len() as int),
            trim_end(st) == trim_end(cs@.subrange(a as int, b as int)),
        decreases b,
    {
        assert(cs@.subrange(a as int, b as int).drop_last() =~= cs@.subrange(a as int, b - 1));
        b = b - 1;
    }
    slice_string(&cs, a, b)
}

/// A text with leading and trailing double quotes removed.
pub fn trim_quotes(s: &str) -> (r: String)
    ensures
        r@ == unquoted(s@),
{
    let cs = chars_of_str(s);
    let mut a: usize = 0;
    let mut b: usize = cs.len();
    assert(cs@.subrange(0, cs@.len() as int) =~= cs@);
    while a < b && (cs[a] == '"' || cs[b - 1] == '"')
        invariant
            a <= b <= cs@.len(),
            unquoted(cs@) == unquoted(cs@.subrange(a as int, b as int)),
        decreases b - a,
    {
        if cs[a] == '"' {
            assert(cs@.subrange(a as int, b as int).drop_first() =~= cs@.subrange(a + 1, b as int));
            a = a + 1;
        } else {
            assert(cs@.subrange(a as int, b as int).drop_last() =~= cs@.subrange(a as int, b - 1));
            b = b - 1;
        }
    }
    slice_string(&cs, a, b)
}

/// The characters of a text.
fn chars_of_str(s: &str) -> (r: Vec<char>)
    ensures
        r@ == s@,
{
    crate::text::chars_of(s)
}

/// The text between the first `=` and the next one (or the end).
fn second_field_of(s: &str) -> (r: Option<String>)
    ensures
        match second_field(s@) {
            Some(f) => r matches Some(x) && x@ == f,
            None => r is None,
        },
{
    let cs = chars_of_str(s);
    let mut i: usize = 0;
    assert(cs@.subrange(0, cs@.len() as int) =~= cs@);
    while i < cs.len() && cs[i] != '='
        invariant
            i <= cs@.len(),
            first_index(cs@, '=') == match first_index(cs@.subrange(i as int, cs@.len() as int), '=') {
                Some(k) => Some(k + i),
                None => None::<int>,
            },
        decreases cs@.len() - i,
    {
        assert(cs@.subrange(i as int, cs@.len() as int).drop_first() =~= cs@.subrange(i + 1, cs@.len() as int));
        i = i + 1;
    }
    if i == cs.len() {
        return None;
    }
    assert(first_index(cs@, '=') == Some(i as int));
    let ghost rest = cs@.subrange(i + 1, cs@.len() as int);
    let mut j: usize = i + 1;
    assert(cs@.subrange(j as int, cs@.len() as int) =~= rest);
    while j < cs.len() && cs[j] != '='
        invariant
            i + 1 <= j <= cs@.len(),
            rest == cs@.subrange(i + 1, cs@.len() as int),
            first_index(rest, '=') == match first_index(cs@.subrange(j as int, cs@.len() as int), '=') {
                Some(k) => Some(k + (j - i - 1)),
                None => None::<int>,
            },
        decreases cs@.len() - j,
    {
        assert(cs@.subrange(j as int, cs@.len() as int).drop_first() =~= cs@.subrange(j + 1, cs@.len() as int));
        j = j + 1;
    }
    let r = slice_string(&cs, i + 1, j);
    proof {
        if j < cs@.len() {
            assert(first_index(rest, '=') == Some(j - i - 1));
            assert(rest.subrange(0, j - i - 1) =~= cs@.subrange(i + 1, j as int));
        } else {
            assert(first_index(rest, '=') is None);
        }
    }
    Some(r)
}

/// The crate name a manifest declares: from the first line that starts
/// (after whitespace) with `name =`, the text after `=` without
/// surrounding whitespace and double quotes.
pub fn extract_crate_name_from_cargo_toml(content: &str) -> (r: Result<String, String>)
    ensures
        match crate_name_in(text_lines(content@)) {
            Some(n) => r matches Ok(s) && s@ == n,
            None => r matches Err(e) && e@ == "Could not find crate name in Cargo.toml"@,
        },
{
    let lines = split_lines(content);
    let ghost ls = text_lines(content@);
    let mut i: usize = 0;
    assert(ls.subrange(0, ls.len() as int) =~= ls);
    while i < lines.len()
        invariant
            i <= lines@.len(),
            texts(lines@) == ls,
            ls == text_lines(content@),
            crate_name_in(ls) == crate_name_in(ls.subrange(i as int, ls.len() as int)),
        decreases lines@.len() - i,
    {
        let ghost rest = ls.subrange(i as int, ls.len() as int);
        assert(crate_name_in(text_lines(content@)) == crate_name_in(rest));
        assert(rest[0] == lines@[i as int]@);
        assert(rest.drop_first() =~= ls.subrange(i + 1, ls.len() as int));
        let t = trim_text(lines[i].as_str());
        if str_starts_with(t.as_str(), "name =") {
            match second_field_of(lines[i].as_str()) {
                Some(f) => {
                    let ft = trim_text(f.as_str());
                    assert(crate_name_in(rest) == Some(unquoted(trimmed(second_field(rest[0])->0))));
                    let q = trim_quotes(ft.as_str());
                    assert(second_field(rest[0])->0 == f@);
                    assert(q@ == unquoted(trimmed(f@)));
                    assert(crate_name_in(text_lines(content@)) == Some(q@));
                    return Ok(q);
                },
                None => {},
            }
        }
        i = i + 1;
    }
    Err("Could not find crate name in Cargo.toml".to_owned())
}

/// The dependencies left outside the allowed list are dependencies of the
/// mapping that are not allowed, and there is one wherever some dependency
/// is not allowed.
proof fn lemma_outside_deps(deps: Seq<Seq<char>>, allowed: Seq<Seq<char>>)
    ensures
        forall|k: int|
            0 <= k < outside_deps(deps, allowed).len() ==> deps.contains(#[trigger] outside_deps(deps, allowed)[k])
                && !allowed.contains(outside_deps(deps, allowed)[k]),
        outside_deps(deps, allowed).len() == 0 <==> forall|i: int| 0 <= i < deps.len() ==> allowed.contains(#[trigger] deps[i]),
    decreases deps.len(),
{
    if deps.len() > 0 {
        let p = deps.drop_last();
        lemma_outside_deps(p, allowed);
        let o = outside_deps(p, allowed);
        assert forall|k: int| 0 <= k < o.len() implies deps.contains(#[trigger] o[k]) by {
            let j = choose|j: int| 0 <= j < p.len() && p[j] == o[k];
            assert(deps[j] == o[k]);
        }
        if !allowed.contains(deps.last()) {
            assert(outside_deps(deps, allowed) == o.push(deps.last()));
            assert(deps[deps.len() - 1] == deps.last());
        } else {
            assert forall|i: int| 0 <= i < deps.len() implies allowed.contains(#[trigger] deps[i]) <== (forall|i: int|
                0 <= i < p.len() ==> allowed.contains(#[trigger] p[i])) by {
                if i < p.len() {
                    assert(p[i] == deps[i]);
                }
            }
        }
        if exists|i: int| 0 <= i < deps.len() && !allowed.contains(#[trigger] deps[i]) {
            let i = choose|i: int| 0 <= i < deps.len() && !allowed.contains(#[trigger] deps[i]);
            if i < p.len() {
                assert(p[i] == deps[i]);
            }
        }
    }
}

/// A mapping is flagged for exposing an unstable contract only when it is
/// unstable and depends on some crate outside the allowed list, and it
/// always is then; every other violation of it is a dependency outside the
/// list or a public scope with private isolation. So a mapping whose
/// dependencies are all allowed, and whose scope is not public with
/// private isolation, has no violation at all.
pub proof fn law_violations_need_a_cause(m: ContractCrateMapping, allowed: Seq<Seq<char>>)
    ensures
        forall|k: int|
            0 <= k < mapping_violations(m, allowed).len() ==> {
                let v = #[trigger] mapping_violations(m, allowed)[k];
                &&& v.0 == m.contract_id@
                &&& v.1 == ViolationType::UnstableApiExposure ==> m.isolation_level == IsolationLevel::Unstable
                    && exists|i: int| 0 <= i < m.dependencies@.len() && !allowed.contains(#[trigger] m.dependencies@[i]@)
                &&& v.1 == ViolationType::CrossCrateDependency ==> exists|i: int|
                    0 <= i < m.dependencies@.len() && !allowed.contains(#[trigger] m.dependencies@[i]@)
                &&& v.1 == ViolationType::ContractScopeMismatch ==> m.scope == ContractScope::Public && m.isolation_level
                    == IsolationLevel::Private
            },
        m.isolation_level == IsolationLevel::Unstable && (exists|i: int|
            0 <= i < m.dependencies@.len() && !allowed.contains(#[trigger] m.dependencies@[i]@)) ==> exists|k: int|
            0 <= k < mapping_violations(m, allowed).len() && (#[trigger] mapping_violations(m, allowed)[k]).1
                == ViolationType::UnstableApiExposure,
        (forall|i: int| 0 <= i < m.dependencies@.len() ==> allowed.contains(#[trigger] m.dependencies@[i]@)) && !(m.scope
            == ContractScope::Public && m.isolation_level == IsolationLevel::Private) ==> mapping_violations(m, allowed).len()
            == 0,
{
    let ds = texts(m.dependencies@);
    lemma_outside_deps(ds, allowed);
    let outside = outside_deps(ds, allowed);
    let a = cross_crate_violations(m.contract_id@, outside);
    let some_out = exists|i: int| 0 <= i < m.dependencies@.len() && !allowed.contains(#[trigger] m.dependencies@[i]@);
    assert(some_out <==> exists|i: int| 0 <= i < ds.len() && !allowed.contains(#[trigger] ds[i])) by {
        if some_out {
            let i = choose|i: int| 0 <= i < m.dependencies@.len() && !allowed.contains(#[trigger] m.dependencies@[i]@);
            assert(ds[i] == m.dependencies@[i]@);
        }
        if exists|i: int| 0 <= i < ds.len() && !allowed.contains(#[trigger] ds[i]) {
            let i = choose|i: int| 0 <= i < ds.len() && !allowed.contains(#[trigger] ds[i]);
            assert(ds[i] == m.dependencies@[i]@);
        }
    }
    assert(some_out <==> outside.len() > 0);
    let r = mapping_violations(m, allowed);
    assert forall|k: int| 0 <= k < a.len() implies (#[trigger] a[k]).1 == ViolationType::CrossCrateDependency && a[k].0
        == m.contract_id@ by {}
    if m.isolation_level == IsolationLevel::Unstable && some_out {
        assert(r[a.len() as int].1 == ViolationType::UnstableApiExposure);
    }
}

} // verus!
