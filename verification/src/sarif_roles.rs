//! The roles of the SARIF-first pipeline: the hook collects concerns, the
//! specifier sets expectations, the verifier emits SARIF, the stegrapher
//! indexes results with provenance, and the auditor decides pass or fail by
//! its policies.

use vstd::prelude::*;
use crate::symbols::{ConcernSymbol, ContractSymbol, HookEvent, RuleSeverity};
use crate::hooks::{get_concerns, event_concerns};
use crate::contracts::get_all_contracts;
use crate::specifier::{build_expectations, expectation_of};
use crate::types::{ConcernSnapshot, ExpectedSnapshot, ValidationDiff, DiffSet, DiffView};
use crate::high_performance_diff::{DiffStrategy, diff_with_strategy, strategy_diffs};
use crate::sarif::{SarifResult, SarifRun, SarifLog, ResultView, lookup, result_views, run_results, text_pairs, texts};
use crate::text::{str_eq, decimal_text, push_decimal};
use crate::outside::{new_uuid_v4, unix_now_secs};

verus! {

/// The text of an optional string.
pub open spec fn opt_text(o: Option<String>) -> Option<Seq<char>> {
    match o {
        Some(s) => Some(s@),
        None => None,
    }
}

/// Hook role: triggers concern collection (never fails).
pub struct Hook {
    pub event: HookEvent,
    pub concerns: Vec<ConcernSymbol>,
}

impl Hook {
    /// Create a new hook role.
    pub fn new(event: HookEvent) -> (r: Self)
        ensures
            r.event == event,
            r.concerns@.len() == 0,
    {
        Hook { event, concerns: Vec::new() }
    }

    /// The concerns of the hook's event.
    pub fn collect_concerns(&self) -> (r: Vec<ConcernSymbol>)
        ensures
            r@ == event_concerns(self.event),
    {
        get_concerns(&self.event)
    }
}

/// Concern role: holds a concern and, once taken, its snapshot.
pub struct Concern {
    pub symbol: ConcernSymbol,
    pub snapshot: Option<ConcernSnapshot>,
}

impl Concern {
    /// Create a new concern role.
    pub fn new(symbol: ConcernSymbol) -> (r: Self)
        ensures
            r.symbol == symbol,
            r.snapshot is None,
    {
        Concern { symbol, snapshot: None }
    }
}

/// Specifier role: generates contract expectations (never fails).
pub struct Specifier {
    pub contracts: Vec<ContractSymbol>,
}

impl Specifier {
    /// Create a new specifier role.
    pub fn new() -> (r: Self)
        ensures
            r.contracts@.len() == 0,
    {
        Specifier { contracts: Vec::new() }
    }

    /// The expectations of the contracts, in order.
    pub fn generate_expectations(&self, contracts: &[ContractSymbol]) -> (r: Vec<ExpectedSnapshot>)
        ensures
            r@.len() == contracts@.len(),
            forall|i: int| 0 <= i < contracts@.len() ==> expectation_of(#[trigger] r@[i], contracts@[i].0@),
    {
        build_expectations(contracts)
    }
}

/// The SARIF level of a severity: errors and critical errors are "error",
/// warnings "warning", information "note".
pub open spec fn sarif_level(s: RuleSeverity) -> Seq<char> {
    match s {
        RuleSeverity::Error => "error"@,
        RuleSeverity::Critical => "error"@,
        RuleSeverity::Warning => "warning"@,
        RuleSeverity::Info => "note"@,
    }
}

/// The SARIF result that a difference becomes, found during `event`.
pub open spec fn diff_result(d: DiffView, event: HookEvent) -> ResultView {
    ResultView {
        rule_id: d.concern.name_text() + "-"@ + d.diff_type.name_text(),
        level: sarif_level(d.severity),
        message: d.description,
        locations: seq!["git://concern/"@ + d.concern.name_text()],
        properties: seq![
            ("concern"@, d.concern.name_text()),
            ("diff_type"@, d.diff_type.name_text()),
            ("origin"@, "hook/"@ + event.variant_text()),
            ("severity"@, d.severity.variant_text()),
        ],
    }
}

/// Verifier role: compares snapshots to expectations and emits SARIF
/// (never fails).
pub struct Verifier {
    pub strategy: DiffStrategy,
}

/// A text: `a` followed by `b`.
fn joined(a: &str, b: &str) -> (r: String)
    ensures
        r@ == a@ + b@,
{
    let mut s = a.to_owned();
    s.append(b);
    s
}

/// The SARIF level of a severity.
fn level_of(s: RuleSeverity) -> (r: &'static str)
    ensures
        r@ == sarif_level(s),
{
    match s {
        RuleSeverity::Error => "error",
        RuleSeverity::Critical => "error",
        RuleSeverity::Warning => "warning",
        RuleSeverity::Info => "note",
    }
}

impl Verifier {
    /// Create a new verifier role.
    pub fn new(strategy: DiffStrategy) -> (r: Self)
        ensures
            r.strategy == strategy,
    {
        Verifier { strategy }
    }

    /// Compare snapshots to expectations under the verifier's strategy and
    /// emit the differences as SARIF: one result per difference, in order,
    /// in one run of the contract validator.
    pub fn verify_and_emit_sarif(
        &self,
        observed: &[ConcernSnapshot],
        expected: &[ExpectedSnapshot],
        hook_event: &HookEvent,
    ) -> (r: SarifLog)
        ensures
            r.version@ == "2.1.0"@,
            r.runs@.len() == 1,
            r.runs@[0].tool_name@ == "Hooksmith Contract Validator"@,
            r.runs@[0].tool_version@ == "1.0.0"@,
            result_views(r.runs@[0].results@) == strategy_diffs(self.strategy, observed@, expected@).map_values(
                |d: DiffView| diff_result(d, *hook_event),
            ),
    {
        let (diff_set, _metrics) = diff_with_strategy(self.strategy, observed, expected);
        self.convert_diffs_to_sarif(&diff_set, hook_event)
    }

    /// Convert differences to SARIF.
    fn convert_diffs_to_sarif(&self, diff_set: &DiffSet, hook_event: &HookEvent) -> (r: SarifLog)
        ensures
            r.version@ == "2.1.0"@,
            r.runs@.len() == 1,
            r.runs@[0].tool_name@ == "Hooksmith Contract Validator"@,
            r.runs@[0].tool_version@ == "1.0.0"@,
            result_views(r.runs@[0].results@) == crate::types::diff_views(diff_set.diffs@).map_values(
                |d: DiffView| diff_result(d, *hook_event),
            ),
    {
        let ghost dv = crate::types::diff_views(diff_set.diffs@);
        let mut results: Vec<SarifResult> = Vec::new();
        let mut i: usize = 0;
        while i < diff_set.diffs.len()
            invariant
                i <= diff_set.diffs@.len(),
                dv == crate::types::diff_views(diff_set.diffs@),
                result_views(results@) == dv.subrange(0, i as int).map_values(|d: DiffView| diff_result(d, *hook_event)),
            decreases diff_set.diffs@.len() - i,
        {
            let diff = &diff_set.diffs[i];
            let name = diff.concern.name();
            let mut rule_id = joined(name, "-");
            rule_id.append(diff.diff_type.name());
            let mut locations: Vec<String> = Vec::new();
            locations.push(joined("git://concern/", name));
            let mut properties: Vec<(String, String)> = Vec::new();
            properties.push(("concern".to_owned(), name.to_owned()));
            properties.push(("diff_type".to_owned(), diff.diff_type.name().to_owned()));
            properties.push(("origin".to_owned(), joined("hook/", hook_event.variant_name())));
            properties.push(("severity".to_owned(), diff.severity.variant_name().to_owned()));
            let result = SarifResult {
                rule_id,
                level: level_of(diff.severity).to_owned(),
                message: diff.description.as_str().to_owned(),
                locations,
                properties,
            };
            let ghost before = results@;
            results.push(result);
            proof {
                assert(texts(locations@) =~= seq!["git://concern/"@ + diff.concern.name_text()]);
                assert(text_pairs(properties@) =~= diff_result(dv[i as int], *hook_event).properties);
                assert(result_views(results@) =~= result_views(before).push(diff_result(dv[i as int], *hook_event)));
                assert(dv.subrange(0, i + 1) =~= dv.subrange(0, i as int).push(dv[i as int]));
            }
            i = i + 1;
        }
        assert(dv.subrange(0, diff_set.diffs@.len() as int) =~= dv);
        let run = SarifRun {
            tool_name: "Hooksmith Contract Validator".to_owned(),
            tool_version: "1.0.0".to_owned(),
            results,
        };
        let mut runs: Vec<SarifRun> = Vec::new();
        runs.push(run);
        SarifLog { version: "2.1.0".to_owned(), runs }
    }
}

/// Git metadata for provenance tracking.
#[derive(Debug, Clone)]
pub struct GitMetadata {
    pub commit_hash: String,
    pub tree_hash: String,
    pub timestamp: u64,
    pub hook_event: String,
    pub repository: String,
}

impl GitMetadata {
    /// Create Git metadata stamped with the current time.
    pub fn new(commit_hash: String, tree_hash: String, hook_event: HookEvent) -> (r: Self)
        ensures
            r.commit_hash == commit_hash,
            r.tree_hash == tree_hash,
            r.hook_event@ == hook_event.variant_text(),
            r.repository@ == "."@,
    {
        GitMetadata {
            commit_hash,
            tree_hash,
            timestamp: unix_now_secs(),
            hook_event: hook_event.variant_name().to_owned(),
            repository: ".".to_owned(),
        }
    }
}

/// Query criteria for filtering SARIF results.
#[derive(Debug, Clone)]
pub struct QueryCriteria {
    pub concern: Option<String>,
    pub severity: Option<RuleSeverity>,
    pub hook_event: Option<String>,
    pub diff_type: Option<String>,
}

impl QueryCriteria {
    /// Criteria that filter nothing.
    pub fn new() -> (r: Self)
        ensures
            r.concern is None,
            r.severity is None,
            r.hook_event is None,
            r.diff_type is None,
    {
        QueryCriteria { concern: None, severity: None, hook_event: None, diff_type: None }
    }

    /// Set the concern filter.
    pub fn with_concern(self, concern: String) -> (r: Self)
        ensures
            r.concern == Some(concern),
            r.severity == self.severity,
            r.hook_event == self.hook_event,
            r.diff_type == self.diff_type,
    {
        QueryCriteria { concern: Some(concern), ..self }
    }

    /// Set the severity filter.
    pub fn with_severity(self, severity: RuleSeverity) -> (r: Self)
        ensures
            r.severity == Some(severity),
            r.concern == self.concern,
            r.hook_event == self.hook_event,
            r.diff_type == self.diff_type,
    {
        QueryCriteria { severity: Some(severity), ..self }
    }

    /// Set the hook event filter.
    pub fn with_hook_event(self, hook_event: String) -> (r: Self)
        ensures
            r.hook_event == Some(hook_event),
            r.concern == self.concern,
            r.severity == self.severity,
            r.diff_type == self.diff_type,
    {
        QueryCriteria { hook_event: Some(hook_event), ..self }
    }

    /// Set the diff type filter (which no matching reads).
    pub fn with_diff_type(self, diff_type: String) -> (r: Self)
        ensures
            r.diff_type == Some(diff_type),
            r.concern == self.concern,
            r.severity == self.severity,
            r.hook_event == self.hook_event,
    {
        QueryCriteria { diff_type: Some(diff_type), ..self }
    }
}

/// A property passes a filter: no filter is set, the result lacks the
/// property, or its value is the one wanted.
pub open spec fn property_passes(props: Seq<(Seq<char>, Seq<char>)>, key: Seq<char>, want: Option<Seq<char>>) -> bool {
    match want {
        None => true,
        Some(w) => match lookup(props, key) {
            None => true,
            Some(v) => v == w,
        },
    }
}

/// A result's properties pass the criteria: its concern, severity (compared
/// with the severity's label) and hook event.
pub open spec fn criteria_match(c: QueryCriteria, props: Seq<(Seq<char>, Seq<char>)>) -> bool {
    &&& property_passes(props, "concern"@, opt_text(c.concern))
    &&& property_passes(
        props,
        "severity"@,
        match c.severity {
            Some(s) => Some(s.label_text()),
            None => None,
        },
    )
    &&& property_passes(props, "hook_event"@, opt_text(c.hook_event))
}

/// Whether a result's property `key` passes a filter for `want`.
fn property_ok(result: &SarifResult, key: &str, want: Option<&str>) -> (r: bool)
    ensures
        r == property_passes(
            result@.properties,
            key@,
            match want {
                Some(w) => Some(w@),
                None => None,
            },
        ),
{
    match want {
        None => true,
        Some(w) => match result.property(key) {
            None => true,
            Some(v) => str_eq(v.as_str(), w),
        },
    }
}

/// Whether a result passes the criteria.
fn criteria_ok(criteria: &QueryCriteria, result: &SarifResult) -> (r: bool)
    ensures
        r == criteria_match(*criteria, result@.properties),
{
    let concern: Option<&str> = match &criteria.concern {
        Some(c) => Some(c.as_str()),
        None => None,
    };
    let severity: Option<&str> = match &criteria.severity {
        Some(s) => Some(s.label()),
        None => None,
    };
    let hook: Option<&str> = match &criteria.hook_event {
        Some(h) => Some(h.as_str()),
        None => None,
    };
    property_ok(result, "concern", concern) && property_ok(result, "severity", severity) && property_ok(
        result,
        "hook_event",
        hook,
    )
}

/// Audit action types.
#[derive(Debug, Clone, Copy, PartialEq, Eq, Structural)]
pub enum AuditAction {
    Fail,
    Warn,
    Info,
}

/// Audit policy for the auditor role.
#[derive(Debug, Clone)]
pub struct AuditPolicy {
    pub name: String,
    pub description: String,
    pub criteria: QueryCriteria,
    pub action: AuditAction,
}

impl AuditPolicy {
    /// Create a new audit policy.
    pub fn new(name: String, description: String, criteria: QueryCriteria, action: AuditAction) -> (r: Self)
        ensures
            r.name == name,
            r.description == description,
            r.criteria == criteria,
            r.action == action,
    {
        AuditPolicy { name, description, criteria, action }
    }

    /// Whether a SARIF result matches this policy's criteria.
    pub fn matches(&self, result: &SarifResult) -> (r: bool)
        ensures
            r == criteria_match(self.criteria, result@.properties),
    {
        criteria_ok(&self.criteria, result)
    }
}

/// Audit result from the auditor role.
#[derive(Debug, Clone)]
pub enum AuditResult {
    Pass { warnings: Vec<SarifResult> },
    Fail { violations: Vec<SarifResult>, warnings: Vec<SarifResult> },
}

impl AuditResult {
    /// Whether the audit passed.
    pub fn is_pass(&self) -> (r: bool)
        ensures
            r == (*self is Pass),
    {
        matches!(self, AuditResult::Pass { .. })
    }

    /// The violations (none where the audit passed).
    pub fn violations(&self) -> (r: &[SarifResult])
        ensures
            match *self {
                AuditResult::Pass { .. } => r@.len() == 0,
                AuditResult::Fail { violations, .. } => r@ == violations@,
            },
    {
        match self {
            AuditResult::Pass { .. } => &[],
            AuditResult::Fail { violations, .. } => violations.as_slice(),
        }
    }

    /// The warnings.
    pub fn warnings(&self) -> (r: &[SarifResult])
        ensures
            match *self {
                AuditResult::Pass { warnings } => r@ == warnings@,
                AuditResult::Fail { warnings, .. } => r@ == warnings@,
            },
    {
        match self {
            AuditResult::Pass { warnings } => warnings.as_slice(),
            AuditResult::Fail { warnings, .. } => warnings.as_slice(),
        }
    }
}

/// The result once for each policy, in order, that matches it and has the
/// given action.
pub open spec fn policy_hits(r: ResultView, policies: Seq<AuditPolicy>, action: AuditAction) -> Seq<ResultView>
    decreases policies.len(),
{
    if policies.len() == 0 {
        Seq::empty()
    } else {
        let p = policies.last();
        policy_hits(r, policies.drop_last(), action) + if criteria_match(p.criteria, r.properties) && p.action
            == action {
            seq![r]
        } else {
            Seq::empty()
        }
    }
}

/// For each result in turn, its hits among the policies with the given
/// action.
pub open spec fn audit_list(rs: Seq<ResultView>, policies: Seq<AuditPolicy>, action: AuditAction) -> Seq<ResultView>
    decreases rs.len(),
{
    if rs.len() == 0 {
        Seq::empty()
    } else {
        audit_list(rs.drop_last(), policies, action) + policy_hits(rs.last(), policies, action)
    }
}

/// Auditor role: queries SARIF logs and determines pass or fail.
pub struct Auditor {
    pub policies: Vec<AuditPolicy>,
}

impl Auditor {
    /// Create an auditor with no policies.
    pub fn new() -> (r: Self)
        ensures
            r.policies@.len() == 0,
    {
        Auditor { policies: Vec::new() }
    }

    /// Add an audit policy after the others.
    pub fn add_policy(&mut self, policy: AuditPolicy)
        ensures
            final(self).policies@ == old(self).policies@.push(policy),
    {
        self.policies.push(policy);
    }

    /// Append to `violations` and `warnings` the hits of `result` among the
    /// policies.
    fn audit_one(&self, result: &SarifResult, violations: &mut Vec<SarifResult>, warnings: &mut Vec<SarifResult>)
        ensures
            result_views(final(violations)@) == result_views(old(violations)@) + policy_hits(
                result@,
                self.policies@,
                AuditAction::Fail,
            ),
            result_views(final(warnings)@) == result_views(old(warnings)@) + policy_hits(
                result@,
                self.policies@,
                AuditAction::Warn,
            ),
    {
        let ghost v0 = result_views(violations@);
        let ghost w0 = result_views(warnings@);
        let mut j: usize = 0;
        while j < self.policies.len()
            invariant
                j <= self.policies@.len(),
                result_views(violations@) == v0 + policy_hits(
                    result@,
                    self.policies@.subrange(0, j as int),
                    AuditAction::Fail,
                ),
                result_views(warnings@) == w0 + policy_hits(
                    result@,
                    self.policies@.subrange(0, j as int),
                    AuditAction::Warn,
                ),
            decreases self.policies@.len() - j,
        {
            let ghost pre = self.policies@.subrange(0, j as int);
            assert(self.policies@.subrange(0, j + 1).drop_last() =~= pre);
            let policy = &self.policies[j];
            let ghost vb = result_views(violations@);
            let ghost wb = result_views(warnings@);
            if policy.matches(result) {
                match policy.action {
                    AuditAction::Fail => {
                        let ghost before = violations@;
                        violations.push(result.duplicate());
                        assert(result_views(violations@) =~= result_views(before).push(result@));
                    },
                    AuditAction::Warn => {
                        let ghost before = warnings@;
                        warnings.push(result.duplicate());
                        assert(result_views(warnings@) =~= result_views(before).push(result@));
                    },
                    AuditAction::Info => {},
                }
            }
            assert(result_views(violations@) =~= v0 + policy_hits(
                result@,
                self.policies@.subrange(0, j + 1),
                AuditAction::Fail,
            ));
            assert(result_views(warnings@) =~= w0 + policy_hits(
                result@,
                self.policies@.subrange(0, j + 1),
                AuditAction::Warn,
            ));
            j = j + 1;
        }
        assert(self.policies@.subrange(0, self.policies@.len() as int) =~= self.policies@);
    }

    /// Audit a SARIF log: each result once for each policy it matches, a
    /// violation where the policy fails it and a warning where it warns;
    /// the audit fails exactly when there is a violation.
    pub fn audit_sarif(&self, sarif_log: &SarifLog) -> (r: AuditResult)
        ensures
            ({
                let rs = run_results(sarif_log.runs@);
                let vs = audit_list(rs, self.policies@, AuditAction::Fail);
                let ws = audit_list(rs, self.policies@, AuditAction::Warn);
                match r {
                    AuditResult::Pass { warnings } => vs.len() == 0 && result_views(warnings@) == ws,
                    AuditResult::Fail { violations, warnings } => vs.len() > 0 && result_views(violations@) == vs
                        && result_views(warnings@) == ws,
                }
            }),
    {
        let mut flat: Vec<SarifResult> = Vec::new();
        crate::sarif::append_run_results(&sarif_log.runs, &mut flat);
        let ghost rs = result_views(flat@);
        assert(rs =~= run_results(sarif_log.runs@));
        let mut violations: Vec<SarifResult> = Vec::new();
        let mut warnings: Vec<SarifResult> = Vec::new();
        let mut i: usize = 0;
        while i < flat.len()
            invariant
                i <= flat@.len(),
                rs == result_views(flat@),
                result_views(violations@) == audit_list(rs.subrange(0, i as int), self.policies@, AuditAction::Fail),
                result_views(warnings@) == audit_list(rs.subrange(0, i as int), self.policies@, AuditAction::Warn),
            decreases flat@.len() - i,
        {
            assert(rs.subrange(0, i + 1).drop_last() =~= rs.subrange(0, i as int));
            assert(rs[i as int] == flat@[i as int]@);
            self.audit_one(&flat[i], &mut violations, &mut warnings);
            i = i + 1;
        }
        assert(rs.subrange(0, flat@.len() as int) =~= rs);
        if violations.len() > 0 {
            AuditResult::Fail { violations, warnings }
        } else {
            AuditResult::Pass { warnings }
        }
    }

    /// The results of a log that pass the criteria, in order.
    pub fn query_sarif<'a>(&self, sarif_log: &'a SarifLog, criteria: &QueryCriteria) -> (r: Vec<&'a SarifResult>)
        ensures
            r@.map_values(|x: &SarifResult| x@) == run_results(sarif_log.runs@).filter(
                |v: ResultView| criteria_match(*criteria, v.properties),
            ),
    {
        let ghost p = |v: ResultView| criteria_match(*criteria, v.properties);
        let mut out: Vec<&'a SarifResult> = Vec::new();
        let mut k: usize = 0;
        while k < sarif_log.runs.len()
            invariant
                k <= sarif_log.runs@.len(),
                p == (|v: ResultView| criteria_match(*criteria, v.properties)),
                out@.map_values(|x: &SarifResult| x@) == run_results(sarif_log.runs@.subrange(0, k as int)).filter(p),
            decreases sarif_log.runs@.len() - k,
        {
            let run = &sarif_log.runs[k];
            assert(sarif_log.runs@.subrange(0, k + 1).drop_last() =~= sarif_log.runs@.subrange(0, k as int));
            let ghost base = out@.map_values(|x: &SarifResult| x@);
            let ghost rv = result_views(run.results@);
            let mut i: usize = 0;
            while i < run.results.len()
                invariant
                    i <= run.results@.len(),
                    rv == result_views(run.results@),
                    p == (|v: ResultView| criteria_match(*criteria, v.properties)),
                    out@.map_values(|x: &SarifResult| x@) == base + rv.subrange(0, i as int).filter(p),
                decreases run.results@.len() - i,
            {
                reveal_with_fuel(Seq::<_>::filter, 1);
                assert(rv.subrange(0, i + 1).drop_last() =~= rv.subrange(0, i as int));
                if criteria_ok(criteria, &run.results[i]) {
                    let ghost before = out@;
                    out.push(&run.results[i]);
                    assert(out@.map_values(|x: &SarifResult| x@) =~= before.map_values(|x: &SarifResult| x@).push(
                        rv[i as int],
                    ));
                }
                i = i + 1;
            }
            assert(rv.subrange(0, run.results@.len() as int) =~= rv);
            proof {
                Seq::filter_distributes_over_add(
                    run_results(sarif_log.runs@.subrange(0, k as int)),
                    rv,
                    p,
                );
            }
            k = k + 1;
        }
        assert(sarif_log.runs@.subrange(0, sarif_log.runs@.len() as int) =~= sarif_log.runs@);
        out
    }
}

/// The position of the first entry with key `k`, if any.
pub open spec fn first_key_index<V>(s: Seq<(Seq<char>, V)>, k: Seq<char>) -> Option<int>
    decreases s.len(),
{
    if s.len() == 0 {
        None
    } else {
        match first_key_index(s.drop_last(), k) {
            Some(i) => Some(i),
            None => if s.last().0 == k {
                Some(s.len() - 1)
            } else {
                None
            },
        }
    }
}

/// `s` with the value of key `k` set to `v`: the first entry with that key
/// takes the value, or the pair is added at the end.
pub open spec fn upsert<V>(s: Seq<(Seq<char>, V)>, k: Seq<char>, v: V) -> Seq<(Seq<char>, V)> {
    match first_key_index(s, k) {
        Some(i) => s.update(i, (k, v)),
        None => s.push((k, v)),
    }
}

/// The provenance of an entry: its identifier and the Git metadata.
pub open spec fn provenance(id: Seq<char>, meta: GitMetadata) -> Seq<(Seq<char>, Seq<char>)> {
    seq![
        ("entry_id"@, id),
        ("commit_hash"@, meta.commit_hash@),
        ("tree_hash"@, meta.tree_hash@),
        ("timestamp"@, decimal_text(meta.timestamp as nat)),
        ("hook_event"@, meta.hook_event@),
    ]
}

/// Properties with each pair of `pairs` set in turn.
pub open spec fn set_all(props: Seq<(Seq<char>, Seq<char>)>, pairs: Seq<(Seq<char>, Seq<char>)>) -> Seq<(Seq<char>, Seq<char>)>
    decreases pairs.len(),
{
    if pairs.len() == 0 {
        props
    } else {
        upsert(set_all(props, pairs.drop_last()), pairs.last().0, pairs.last().1)
    }
}

/// A result tagged with the provenance of entry `id`.
pub open spec fn tagged(r: ResultView, id: Seq<char>, meta: GitMetadata) -> ResultView {
    ResultView { properties: set_all(r.properties, provenance(id, meta)), ..r }
}

/// The views of indexed entries.
pub open spec fn entry_views(s: Seq<(String, SarifResult)>) -> Seq<(Seq<char>, ResultView)> {
    s.map_values(|e: (String, SarifResult)| (e.0@, e.1@))
}

/// The views of provenance entries.
pub open spec fn provenance_views(s: Seq<(String, Vec<(String, String)>)>) -> Seq<(Seq<char>, Seq<(Seq<char>, Seq<char>)>)> {
    s.map_values(|e: (String, Vec<(String, String)>)| (e.0@, text_pairs(e.1@)))
}

/// The index after each result is entered under its identifier in turn.
pub open spec fn entries_after(
    e0: Seq<(Seq<char>, ResultView)>,
    rs: Seq<ResultView>,
    ids: Seq<Seq<char>>,
) -> Seq<(Seq<char>, ResultView)>
    decreases rs.len(),
{
    if rs.len() == 0 {
        e0
    } else {
        upsert(entries_after(e0, rs.drop_last(), ids), ids[rs.len() - 1], rs.last())
    }
}

/// The provenance map after each result's provenance is entered in turn.
pub open spec fn provenance_after(
    p0: Seq<(Seq<char>, Seq<(Seq<char>, Seq<char>)>)>,
    n: nat,
    ids: Seq<Seq<char>>,
    meta: GitMetadata,
) -> Seq<(Seq<char>, Seq<(Seq<char>, Seq<char>)>)>
    decreases n,
{
    if n == 0 {
        p0
    } else {
        upsert(provenance_after(p0, (n - 1) as nat, ids, meta), ids[n - 1], provenance(ids[n - 1], meta))
    }
}

/// Set property `k` of `props` to `v`.
fn set_property(props: &mut Vec<(String, String)>, k: &str, v: String)
    ensures
        text_pairs(final(props)@) == upsert(text_pairs(old(props)@), k@, v@),
{
    let ghost pv = text_pairs(props@);
    let mut i: usize = 0;
    while i < props.len()
        invariant
            i <= props@.len(),
            props@ == old(props)@,
            pv == text_pairs(props@),
            first_key_index(pv.subrange(0, i as int), k@) is None,
        decreases props@.len() - i,
    {
        assert(pv.subrange(0, i + 1).drop_last() =~= pv.subrange(0, i as int));
        if str_eq(props[i].0.as_str(), k) {
            proof {
                assert(pv[i as int].0 == k@);
                assert(first_key_index(pv.subrange(0, i + 1), k@) == Some(i as int));
                lemma_first_key_prefix(pv, k@, i + 1);
            }
            let ghost before = props@;
            props.set(i, (k.to_owned(), v));
            assert(text_pairs(props@) =~= pv.update(i as int, (k@, v@)));
            return;
        }
        i = i + 1;
    }
    assert(pv.subrange(0, pv.len() as int) =~= pv);
    let ghost before = props@;
    props.push((k.to_owned(), v));
    assert(text_pairs(props@) =~= pv.push((k@, v@)));
}

/// A key found in a prefix is found at the same place in the whole.
pub(crate) proof fn lemma_first_key_prefix<V>(s: Seq<(Seq<char>, V)>, k: Seq<char>, n: int)
    requires
        0 <= n <= s.len(),
        first_key_index(s.subrange(0, n), k) is Some,
    ensures
        first_key_index(s, k) == first_key_index(s.subrange(0, n), k),
    decreases s.len() - n,
{
    if n < s.len() {
        assert(s.subrange(0, n + 1).drop_last() =~= s.subrange(0, n));
        lemma_first_key_prefix(s, k, n + 1);
    } else {
        assert(s.subrange(0, n) =~= s);
    }
}

/// Where a key is first found: at an entry with that key, after none.
pub(crate) proof fn lemma_first_key_found<V>(s: Seq<(Seq<char>, V)>, k: Seq<char>)
    ensures
        match first_key_index(s, k) {
            Some(i) => 0 <= i < s.len() && s[i].0 == k && forall|j: int| 0 <= j < i ==> #[trigger] s[j].0 != k,
            None => forall|j: int| 0 <= j < s.len() ==> #[trigger] s[j].0 != k,
        },
    decreases s.len(),
{
    if s.len() > 0 {
        lemma_first_key_found(s.drop_last(), k);
        assert forall|j: int| 0 <= j < s.len() - 1 implies #[trigger] s[j] == s.drop_last()[j] by {}
    }
}

/// The first index of a key is fixed by the keys alone.
pub(crate) proof fn lemma_first_key_same_keys<V>(s: Seq<(Seq<char>, V)>, t: Seq<(Seq<char>, V)>, k: Seq<char>)
    requires
        s.len() == t.len(),
        forall|j: int| 0 <= j < s.len() ==> #[trigger] s[j].0 == t[j].0,
    ensures
        first_key_index(s, k) == first_key_index(t, k),
    decreases s.len(),
{
    if s.len() > 0 {
        assert forall|j: int| 0 <= j < s.len() - 1 implies #[trigger] s.drop_last()[j].0 == t.drop_last()[j].0 by {
            assert(s.drop_last()[j] == s[j]);
            assert(t.drop_last()[j] == t[j]);
        }
        lemma_first_key_same_keys(s.drop_last(), t.drop_last(), k);
        assert(s.last().0 == t.last().0);
    }
}

/// What is set under a key is what a lookup of that key then finds: after
/// `upsert(s, k, v)`, the first entry with key `k` holds `v`, and the other
/// keys keep their first entries.
pub proof fn law_lookup_after_upsert<V>(s: Seq<(Seq<char>, V)>, k: Seq<char>, v: V)
    ensures
        first_key_index(upsert(s, k, v), k) matches Some(i) && upsert(s, k, v)[i] == (k, v),
        forall|k2: Seq<char>|
            k2 != k ==> match #[trigger] first_key_index(s, k2) {
                Some(i) => first_key_index(upsert(s, k, v), k2) == Some(i) && upsert(s, k, v)[i] == s[i],
                None => first_key_index(upsert(s, k, v), k2) is None,
            },
{
    lemma_first_key_found(s, k);
    let u = upsert(s, k, v);
    match first_key_index(s, k) {
        Some(i) => {
            assert forall|j: int| 0 <= j < s.len() implies #[trigger] s[j].0 == u[j].0 by {}
            lemma_first_key_same_keys(s, u, k);
            assert forall|k2: Seq<char>| k2 != k implies match #[trigger] first_key_index(s, k2) {
                Some(i2) => first_key_index(u, k2) == Some(i2) && u[i2] == s[i2],
                None => first_key_index(u, k2) is None,
            } by {
                lemma_first_key_same_keys(s, u, k2);
                lemma_first_key_found(s, k2);
            }
        },
        None => {
            assert(u.drop_last() =~= s);
            assert forall|k2: Seq<char>| k2 != k implies match #[trigger] first_key_index(s, k2) {
                Some(i2) => first_key_index(u, k2) == Some(i2) && u[i2] == s[i2],
                None => first_key_index(u, k2) is None,
            } by {
                lemma_first_key_found(s, k2);
            }
        },
    }
}

/// `r` and the stegrapher's new state are the outcome of indexing the
/// results of `log` under the identifiers `ids`, one per result in order:
/// the log holds each result tagged with its provenance, in one run of the
/// stegrapher, and each result and its provenance are entered in turn.
pub open spec fn tagging_outcome(
    r: SarifLog,
    before: Stegrapher,
    after: Stegrapher,
    log: SarifLog,
    meta: GitMetadata,
    ids: Seq<Seq<char>>,
) -> bool {
    let rs = run_results(log.runs@);
    &&& ids.len() == rs.len()
    &&& r.version@ == "2.1.0"@
    &&& r.runs@.len() == 1
    &&& r.runs@[0].tool_name@ == "Hooksmith Stegrapher"@
    &&& r.runs@[0].tool_version@ == "1.0.0"@
    &&& result_views(r.runs@[0].results@).len() == rs.len()
    &&& forall|i: int|
        0 <= i < rs.len() ==> #[trigger] result_views(r.runs@[0].results@)[i] == tagged(rs[i], ids[i], meta)
    &&& entry_views(after.indexed_entries@) == entries_after(entry_views(before.indexed_entries@), rs, ids)
    &&& provenance_views(after.provenance_map@) == provenance_after(
        provenance_views(before.provenance_map@),
        rs.len(),
        ids,
        meta,
    )
}

/// Stegrapher role: indexes SARIF results with provenance (never fails).
pub struct Stegrapher {
    pub indexed_entries: Vec<(String, SarifResult)>,
    pub provenance_map: Vec<(String, Vec<(String, String)>)>,
}

impl Stegrapher {
    /// Create a stegrapher with nothing indexed.
    pub fn new() -> (r: Self)
        ensures
            r.indexed_entries@.len() == 0,
            r.provenance_map@.len() == 0,
    {
        Stegrapher { indexed_entries: Vec::new(), provenance_map: Vec::new() }
    }

    /// The indexed results that pass the criteria, in index order.
    pub fn query_entries(&self, criteria: &QueryCriteria) -> (r: Vec<&SarifResult>)
        ensures
            r@.map_values(|x: &SarifResult| x@) == entry_views(self.indexed_entries@).map_values(
                |e: (Seq<char>, ResultView)| e.1,
            ).filter(|v: ResultView| criteria_match(*criteria, v.properties)),
    {
        let ghost p = |v: ResultView| criteria_match(*criteria, v.properties);
        let ghost rv = entry_views(self.indexed_entries@).map_values(|e: (Seq<char>, ResultView)| e.1);
        let mut out: Vec<&SarifResult> = Vec::new();
        let mut i: usize = 0;
        while i < self.indexed_entries.len()
            invariant
                i <= self.indexed_entries@.len(),
                rv == entry_views(self.indexed_entries@).map_values(|e: (Seq<char>, ResultView)| e.1),
                p == (|v: ResultView| criteria_match(*criteria, v.properties)),
                out@.map_values(|x: &SarifResult| x@) == rv.take(i as int).filter(p),
            decreases self.indexed_entries@.len() - i,
        {
            reveal_with_fuel(Seq::<_>::filter, 1);
            assert(rv.take(i + 1).drop_last() =~= rv.take(i as int));
            assert(rv.take(i + 1).last() == self.indexed_entries@[i as int].1@);
            if criteria_ok(criteria, &self.indexed_entries[i].1) {
                let ghost before = out@;
                out.push(&self.indexed_entries[i].1);
                assert(out@.map_values(|x: &SarifResult| x@) =~= before.map_values(|x: &SarifResult| x@).push(
                    rv[i as int],
                ));
            }
            i = i + 1;
        }
        assert(rv.take(i as int) =~= rv);
        out
    }

    /// Enter `r` in the index under `id`.
    fn index_entry(&mut self, id: &String, r: &SarifResult)
        ensures
            entry_views(final(self).indexed_entries@) == upsert(entry_views(old(self).indexed_entries@), id@, r@),
            final(self).provenance_map == old(self).provenance_map,
    {
        let ghost ev = entry_views(self.indexed_entries@);
        let ghost pm = self.provenance_map;
        let mut i: usize = 0;
        while i < self.indexed_entries.len()
            invariant
                i <= self.indexed_entries@.len(),
                self.provenance_map == pm,
                *self == *old(self),
                ev == entry_views(self.indexed_entries@),
                first_key_index(ev.subrange(0, i as int), id@) is None,
            decreases self.indexed_entries@.len() - i,
        {
            assert(ev.subrange(0, i + 1).drop_last() =~= ev.subrange(0, i as int));
            if str_eq(self.indexed_entries[i].0.as_str(), id.as_str()) {
                proof {
                    assert(ev[i as int].0 == id@);
                    assert(first_key_index(ev.subrange(0, i + 1), id@) == Some(i as int));
                    lemma_first_key_prefix(ev, id@, i + 1);
                }
                self.indexed_entries.set(i, (id.as_str().to_owned(), r.duplicate()));
                assert(entry_views(self.indexed_entries@) =~= ev.update(i as int, (id@, r@)));
                return;
            }
            i = i + 1;
        }
        assert(ev.subrange(0, ev.len() as int) =~= ev);
        self.indexed_entries.push((id.as_str().to_owned(), r.duplicate()));
        assert(entry_views(self.indexed_entries@) =~= ev.push((id@, r@)));
    }

    /// Enter the provenance `prov` under `id`.
    fn record_provenance(&mut self, id: &String, prov: Vec<(String, String)>)
        ensures
            provenance_views(final(self).provenance_map@) == upsert(
                provenance_views(old(self).provenance_map@),
                id@,
                text_pairs(prov@),
            ),
            final(self).indexed_entries == old(self).indexed_entries,
    {
        let ghost pv = provenance_views(self.provenance_map@);
        let ghost tp = text_pairs(prov@);
        let ghost ie = self.indexed_entries;
        let mut i: usize = 0;
        while i < self.provenance_map.len()
            invariant
                i <= self.provenance_map@.len(),
                self.indexed_entries == ie,
                *self == *old(self),
                tp == text_pairs(prov@),
                pv == provenance_views(self.provenance_map@),
                first_key_index(pv.subrange(0, i as int), id@) is None,
            decreases self.provenance_map@.len() - i,
        {
            assert(pv.subrange(0, i + 1).drop_last() =~= pv.subrange(0, i as int));
            if str_eq(self.provenance_map[i].0.as_str(), id.as_str()) {
                proof {
                    assert(pv[i as int].0 == id@);
                    assert(first_key_index(pv.subrange(0, i + 1), id@) == Some(i as int));
                    lemma_first_key_prefix(pv, id@, i + 1);
                }
                let key = id.as_str().to_owned();
                let ghost before = self.provenance_map@;
                self.provenance_map.set(i, (key, prov));
                assert(self.provenance_map@ == before.update(i as int, (key, prov)));
                assert forall|j: int| 0 <= j < pv.len() implies #[trigger] provenance_views(self.provenance_map@)[j] == pv.update(i as int, (id@, tp))[j] by {
                    if j == i {
                        assert(self.provenance_map@[j] == (key, prov));
                        assert(key@ == id@);
                        assert(provenance_views(self.provenance_map@)[j] == (key@, text_pairs(prov@)));
                        assert(text_pairs(prov@) == tp);
                    } else {
                        assert(self.provenance_map@[j] == before[j]);
                    }
                }
                assert(provenance_views(self.provenance_map@) =~= pv.update(i as int, (id@, tp)));
                return;
            }
            i = i + 1;
        }
        assert(pv.subrange(0, pv.len() as int) =~= pv);
        self.provenance_map.push((id.as_str().to_owned(), prov));
        assert(provenance_views(self.provenance_map@) =~= pv.push((id@, tp)));
    }

    /// Index the results of a log under the given identifiers, one per
    /// result in order, and tag each with its provenance: the log that comes
    /// back holds the tagged results in one run of the stegrapher.
    pub fn index_with_ids(&mut self, sarif_log: &SarifLog, git_metadata: &GitMetadata, ids: &Vec<String>) -> (r: SarifLog)
        requires
            ids@.len() == run_results(sarif_log.runs@).len(),
        ensures
            tagging_outcome(r, *old(self), *final(self), *sarif_log, *git_metadata, texts(ids@)),
    {
        let mut flat: Vec<SarifResult> = Vec::new();
        crate::sarif::append_run_results(&sarif_log.runs, &mut flat);
        let ghost rs = result_views(flat@);
        assert(rs =~= run_results(sarif_log.runs@));
        let ghost e0 = entry_views(self.indexed_entries@);
        let ghost p0 = provenance_views(self.provenance_map@);
        let ghost idt = texts(ids@);
        let mut indexed: Vec<SarifResult> = Vec::new();
        let mut i: usize = 0;
        while i < flat.len()
            invariant
                i <= flat@.len(),
                rs == result_views(flat@),
                ids@.len() == flat@.len(),
                idt == texts(ids@),
                result_views(indexed@).len() == i,
                forall|j: int| 0 <= j < i ==> #[trigger] result_views(indexed@)[j] == tagged(rs[j], ids@[j]@, *git_metadata),
                entry_views(self.indexed_entries@) == entries_after(e0, rs.subrange(0, i as int), idt),
                provenance_views(self.provenance_map@) == provenance_after(p0, i as nat, idt, *git_metadata),
            decreases flat@.len() - i,
        {
            let id = &ids[i];
            let result = &flat[i];
            assert(rs.subrange(0, i + 1).drop_last() =~= rs.subrange(0, i as int));
            assert(rs[i as int] == result@);
            assert(idt[i as int] == id@);
            self.index_entry(id, result);
            let mut prov: Vec<(String, String)> = Vec::new();
            prov.push(("entry_id".to_owned(), id.as_str().to_owned()));
            prov.push(("commit_hash".to_owned(), git_metadata.commit_hash.as_str().to_owned()));
            prov.push(("tree_hash".to_owned(), git_metadata.tree_hash.as_str().to_owned()));
            let mut ts = String::new();
            push_decimal(&mut ts, git_metadata.timestamp);
            assert(ts@ =~= decimal_text(git_metadata.timestamp as nat));
            prov.push(("timestamp".to_owned(), ts));
            prov.push(("hook_event".to_owned(), git_metadata.hook_event.as_str().to_owned()));
            assert(text_pairs(prov@) =~= provenance(id@, *git_metadata));
            let mut tagged_result = result.duplicate();
            let ghost p_start = tagged_result@.properties;
            let mut j: usize = 0;
            while j < prov.len()
                invariant
                    j <= prov@.len(),
                    text_pairs(prov@) == provenance(id@, *git_metadata),
                    text_pairs(tagged_result.properties@) == set_all(p_start, text_pairs(prov@).subrange(0, j as int)),
                    tagged_result@.rule_id == result@.rule_id,
                    tagged_result@.level == result@.level,
                    tagged_result@.message == result@.message,
                    tagged_result@.locations == result@.locations,
                    p_start == result@.properties,
                decreases prov@.len() - j,
            {
                assert(text_pairs(prov@).subrange(0, j + 1).drop_last() =~= text_pairs(prov@).subrange(0, j as int));
                let value = prov[j].1.as_str().to_owned();
                set_property(&mut tagged_result.properties, prov[j].0.as_str(), value);
                j = j + 1;
            }
            assert(text_pairs(prov@).subrange(0, prov@.len() as int) =~= text_pairs(prov@));
            self.record_provenance(id, prov);
            let ghost before = indexed@;
            indexed.push(tagged_result);
            assert(result_views(indexed@) =~= result_views(before).push(tagged(rs[i as int], ids@[i as int]@, *git_metadata)));
            i = i + 1;
        }
        assert(rs.subrange(0, flat@.len() as int) =~= rs);
        assert forall|j: int| 0 <= j < rs.len() implies #[trigger] idt[j] == ids@[j]@ by {}
        let run = SarifRun { tool_name: "Hooksmith Stegrapher".to_owned(), tool_version: "1.0.0".to_owned(), results: indexed };
        let mut runs: Vec<SarifRun> = Vec::new();
        runs.push(run);
        SarifLog { version: "2.1.0".to_owned(), runs }
    }

    /// Index the results of a log, each under a fresh random identifier, and
    /// tag each with its provenance.
    pub fn index_and_tag_sarif(&mut self, sarif_log: &SarifLog, git_metadata: &GitMetadata) -> (r: SarifLog)
        ensures
            exists|ids: Seq<Seq<char>>| #[trigger] tagging_outcome(r, *old(self), *final(self), *sarif_log, *git_metadata, ids),
    {
        let mut flat: Vec<SarifResult> = Vec::new();
        crate::sarif::append_run_results(&sarif_log.runs, &mut flat);
        assert(result_views(flat@) =~= run_results(sarif_log.runs@));
        let n = flat.len();
        let mut ids: Vec<String> = Vec::new();
        let mut i: usize = 0;
        while i < n
            invariant
                i <= n,
                ids@.len() == i,
            decreases n - i,
        {
            ids.push(new_uuid_v4());
            i = i + 1;
        }
        self.index_with_ids(sarif_log, git_metadata, &ids)
    }
}

/// The outcome of the SARIF-first pipeline for `event` on the snapshots:
/// the expectations of all contracts of the event's concerns are compared
/// with the snapshots under `strategy`, each difference becomes a SARIF
/// result tagged with its provenance under some identifier, and the audit of
/// the tagged log by `policies` is `audit`.
pub open spec fn pipeline_outcome(
    log: SarifLog,
    audit: AuditResult,
    event: HookEvent,
    strategy: DiffStrategy,
    snapshots: Seq<ConcernSnapshot>,
    meta: GitMetadata,
    policies: Seq<AuditPolicy>,
) -> bool {
    exists|exps: Seq<ExpectedSnapshot>, ids: Seq<Seq<char>>|
        #[trigger] pipeline_parts(log, audit, event, strategy, snapshots, meta, policies, exps, ids)
}

/// The pipeline's outcome with the expectations `exps` and identifiers
/// `ids` it used.
pub open spec fn pipeline_parts(
    log: SarifLog,
    audit: AuditResult,
    event: HookEvent,
    strategy: DiffStrategy,
    snapshots: Seq<ConcernSnapshot>,
    meta: GitMetadata,
    policies: Seq<AuditPolicy>,
    exps: Seq<ExpectedSnapshot>,
    ids: Seq<Seq<char>>,
) -> bool {
        {
            let names = crate::contracts::all_contract_names(event_concerns(event));
            let rs = strategy_diffs(strategy, snapshots, exps).map_values(|d: DiffView| diff_result(d, event));
            let tagged_rs = result_views(log.runs@[0].results@);
            &&& exps.len() == names.len()
            &&& forall|i: int| 0 <= i < names.len() ==> expectation_of(#[trigger] exps[i], names[i])
            &&& ids.len() == rs.len()
            &&& log.version@ == "2.1.0"@
            &&& log.runs@.len() == 1
            &&& log.runs@[0].tool_name@ == "Hooksmith Stegrapher"@
            &&& tagged_rs.len() == rs.len()
            &&& forall|i: int| 0 <= i < rs.len() ==> #[trigger] tagged_rs[i] == tagged(rs[i], ids[i], meta)
            &&& match audit {
                AuditResult::Pass { warnings } => audit_list(tagged_rs, policies, AuditAction::Fail).len() == 0
                    && result_views(warnings@) == audit_list(tagged_rs, policies, AuditAction::Warn),
                AuditResult::Fail { violations, warnings } => audit_list(tagged_rs, policies, AuditAction::Fail).len()
                    > 0 && result_views(violations@) == audit_list(tagged_rs, policies, AuditAction::Fail)
                    && result_views(warnings@) == audit_list(tagged_rs, policies, AuditAction::Warn),
            }
        }
}

/// The SARIF-first pipeline: its roles, each with its state.
pub struct SarifFirstPipeline {
    pub hook: Hook,
    pub concern: Concern,
    pub specifier: Specifier,
    pub verifier: Verifier,
    pub stegrapher: Stegrapher,
    pub auditor: Auditor,
}

impl SarifFirstPipeline {
    /// A pipeline for pre-commit, on the index concern, comparing by JSON
    /// Patch, with nothing indexed and no audit policy.
    pub fn new() -> (r: Self)
        ensures
            r.hook.event == HookEvent::PreCommit,
            r.hook.concerns@.len() == 0,
            r.concern.symbol == ConcernSymbol::Index,
            r.concern.snapshot is None,
            r.specifier.contracts@.len() == 0,
            r.verifier.strategy == DiffStrategy::JsonPatch,
            r.stegrapher.indexed_entries@.len() == 0,
            r.stegrapher.provenance_map@.len() == 0,
            r.auditor.policies@.len() == 0,
    {
        SarifFirstPipeline {
            hook: Hook::new(HookEvent::PreCommit),
            concern: Concern::new(ConcernSymbol::Index),
            specifier: Specifier::new(),
            verifier: Verifier::new(DiffStrategy::JsonPatch),
            stegrapher: Stegrapher::new(),
            auditor: Auditor::new(),
        }
    }

    /// Step 1: set the hook's event and return the concerns to snapshot.
    pub fn concerns_for(&mut self, hook_event: HookEvent) -> (r: Vec<ConcernSymbol>)
        ensures
            final(self).hook.event == hook_event,
            r@ == event_concerns(hook_event),
            final(self).hook.concerns == old(self).hook.concerns,
            final(self).concern == old(self).concern,
            final(self).specifier == old(self).specifier,
            final(self).verifier == old(self).verifier,
            final(self).stegrapher == old(self).stegrapher,
            final(self).auditor == old(self).auditor,
    {
        self.hook.event = hook_event;
        self.hook.collect_concerns()
    }

    /// Run the pipeline for `hook_event` on the snapshots taken of its
    /// concerns: collect the concerns, set the expectations of their
    /// contracts, compare and emit SARIF, index and tag it, and audit it.
    pub fn run_pipeline(
        &mut self,
        hook_event: HookEvent,
        git_metadata: GitMetadata,
        snapshots: Vec<ConcernSnapshot>,
    ) -> (r: (SarifLog, AuditResult))
        ensures
            final(self).hook.event == hook_event,
            final(self).verifier == old(self).verifier,
            final(self).auditor == old(self).auditor,
            pipeline_outcome(
                r.0,
                r.1,
                hook_event,
                old(self).verifier.strategy,
                snapshots@,
                git_metadata,
                old(self).auditor.policies@,
            ),
    {
        let concerns = self.concerns_for(hook_event);
        if concerns.len() > 0 {
            self.concern.symbol = concerns[concerns.len() - 1];
        }
        let contracts = get_all_contracts(concerns.as_slice());
        let expectations = self.specifier.generate_expectations(contracts.as_slice());
        let sarif_log = self.verifier.verify_and_emit_sarif(snapshots.as_slice(), expectations.as_slice(), &hook_event);
        let indexed = self.stegrapher.index_and_tag_sarif(&sarif_log, &git_metadata);
        let audit = self.auditor.audit_sarif(&indexed);
        proof {
            let names = crate::contracts::all_contract_names(event_concerns(hook_event));
            assert(crate::contracts::symbol_names(contracts@) == names);
            assert forall|i: int| 0 <= i < names.len() implies expectation_of(#[trigger] expectations@[i], names[i]) by {
                assert(contracts@[i].0@ == crate::contracts::symbol_names(contracts@)[i]);
            }
            let ids = choose|ids: Seq<Seq<char>>| #[trigger] tagging_outcome(indexed, old(self).stegrapher, self.stegrapher, sarif_log, git_metadata, ids);
            assert(run_results(sarif_log.runs@) =~= result_views(sarif_log.runs@[0].results@)) by {
                reveal_with_fuel(run_results, 2);
                assert(sarif_log.runs@.drop_last() =~= Seq::<SarifRun>::empty());
            }
            assert(run_results(indexed.runs@) =~= result_views(indexed.runs@[0].results@)) by {
                reveal_with_fuel(run_results, 2);
                assert(indexed.runs@.drop_last() =~= Seq::<SarifRun>::empty());
            }
            assert(pipeline_parts(
                indexed,
                audit,
                hook_event,
                old(self).verifier.strategy,
                snapshots@,
                git_metadata,
                old(self).auditor.policies@,
                expectations@,
                ids,
            ));
        }
        (indexed, audit)
    }
}

} // verus!
