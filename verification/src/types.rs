//! Snapshots of concerns, the expectations that contracts set for them, and
//! the differences that verification finds between the two.

use vstd::prelude::*;
use crate::symbols::{ConcernSymbol, HookEvent, RuleSeverity};
use crate::json::{JsonValue, JsonView, json_text, fields_view};
use crate::outside::{sha256_hex, sha256_hex_of, utc_now_rfc3339};
use crate::text::{decimal_text, push_decimal};

verus! {

/// Types of validation differences.
#[derive(Debug, Clone, Copy, PartialEq, Eq, Structural, Hash)]
pub enum DiffType {
    /// Missing expected concern
    Missing,
    /// Unexpected observed concern
    Unexpected,
    /// Value mismatch
    Mismatch,
    /// Schema validation failure
    SchemaViolation,
    /// Rule violation
    RuleViolation,
}

impl DiffType {
    /// The name of the diff type, as text.
    pub open spec fn name_text(self) -> Seq<char> {
        match self {
            DiffType::Missing => "missing"@,
            DiffType::Unexpected => "unexpected"@,
            DiffType::Mismatch => "mismatch"@,
            DiffType::SchemaViolation => "schema_violation"@,
            DiffType::RuleViolation => "rule_violation"@,
        }
    }

    /// The name of the diff type.
    pub fn name(&self) -> (r: &'static str)
        ensures
            r@ == self.name_text(),
    {
        match self {
            DiffType::Missing => "missing",
            DiffType::Unexpected => "unexpected",
            DiffType::Mismatch => "mismatch",
            DiffType::SchemaViolation => "schema_violation",
            DiffType::RuleViolation => "rule_violation",
        }
    }
}

/// Snapshot of a concern's current state.
#[derive(Debug, Clone)]
pub struct ConcernSnapshot {
    /// The concern symbol
    pub symbol: ConcernSymbol,
    /// Snapshot data
    pub data: JsonValue,
    /// Timestamp of snapshot
    pub timestamp: String,
    /// Hash of the snapshot data
    pub hash: String,
    /// Additional metadata, in key order
    pub metadata: Vec<(String, JsonValue)>,
}

impl ConcernSnapshot {
    /// Create a new concern snapshot: its hash is the SHA-256 of the data's
    /// canonical JSON text, its timestamp the current time.
    pub fn new(symbol: ConcernSymbol, data: JsonValue, metadata: Vec<(String, JsonValue)>) -> (r: Self)
        ensures
            r.symbol == symbol,
            r.data == data,
            r.metadata == metadata,
            r.hash@ == sha256_hex_of(json_text(data@)),
    {
        let text = data.to_json_text();
        let hash = sha256_hex(text.as_str());
        ConcernSnapshot { symbol, data, timestamp: utc_now_rfc3339(), hash, metadata }
    }
}

/// Expected snapshot based on contract rules.
#[derive(Debug, Clone)]
pub struct ExpectedSnapshot {
    /// The concern symbol
    pub symbol: ConcernSymbol,
    /// Expected data
    pub expectation: JsonValue,
    /// Contract that generated this expectation
    pub contract: String,
    /// Contract version
    pub contract_version: String,
    /// Additional metadata, in key order
    pub metadata: Vec<(String, JsonValue)>,
}

impl ExpectedSnapshot {
    /// Create a new expected snapshot.
    pub fn new(
        symbol: ConcernSymbol,
        expectation: JsonValue,
        contract: String,
        contract_version: String,
        metadata: Vec<(String, JsonValue)>,
    ) -> (r: Self)
        ensures
            r.symbol == symbol,
            r.expectation == expectation,
            r.contract == contract,
            r.contract_version == contract_version,
            r.metadata == metadata,
    {
        ExpectedSnapshot { symbol, expectation, contract, contract_version, metadata }
    }
}

/// Validation difference between observed and expected.
#[derive(Debug, Clone)]
pub struct ValidationDiff {
    /// Concern that has a difference
    pub concern: ConcernSymbol,
    /// Type of difference
    pub diff_type: DiffType,
    /// Description of the difference
    pub description: String,
    /// Observed value
    pub observed: Option<JsonValue>,
    /// Expected value
    pub expected: Option<JsonValue>,
    /// Severity of the difference
    pub severity: RuleSeverity,
    /// Additional metadata, in key order
    pub metadata: Vec<(String, JsonValue)>,
}

/// A validation difference as plain values.
pub struct DiffView {
    pub concern: ConcernSymbol,
    pub diff_type: DiffType,
    pub description: Seq<char>,
    pub observed: Option<JsonView>,
    pub expected: Option<JsonView>,
    pub severity: RuleSeverity,
    pub metadata: Seq<(Seq<char>, JsonView)>,
}

/// The plain value of an optional JSON value.
pub open spec fn opt_view(v: Option<JsonValue>) -> Option<JsonView> {
    match v {
        Some(x) => Some(x@),
        None => None,
    }
}

impl View for ValidationDiff {
    type V = DiffView;

    open spec fn view(&self) -> DiffView {
        DiffView {
            concern: self.concern,
            diff_type: self.diff_type,
            description: self.description@,
            observed: opt_view(self.observed),
            expected: opt_view(self.expected),
            severity: self.severity,
            metadata: fields_view(self.metadata@),
        }
    }
}

/// The views of a sequence of differences.
pub open spec fn diff_views(v: Seq<ValidationDiff>) -> Seq<DiffView> {
    v.map_values(|d: ValidationDiff| d@)
}

impl ValidationDiff {
    /// Create a new validation difference.
    pub fn new(
        concern: ConcernSymbol,
        diff_type: DiffType,
        description: String,
        observed: Option<JsonValue>,
        expected: Option<JsonValue>,
        severity: RuleSeverity,
        metadata: Vec<(String, JsonValue)>,
    ) -> (r: Self)
        ensures
            r.concern == concern,
            r.diff_type == diff_type,
            r.description == description,
            r.observed == observed,
            r.expected == expected,
            r.severity == severity,
            r.metadata == metadata,
    {
        ValidationDiff { concern, diff_type, description, observed, expected, severity, metadata }
    }
}

/// A severity that does not fail validation: info or warning.
pub open spec fn is_passing(s: RuleSeverity) -> bool {
    s == RuleSeverity::Info || s == RuleSeverity::Warning
}

/// A severity that counts as an error: error or critical.
pub open spec fn is_error(s: RuleSeverity) -> bool {
    s == RuleSeverity::Error || s == RuleSeverity::Critical
}

/// Every difference has a passing severity.
pub open spec fn all_passing(diffs: Seq<DiffView>) -> bool {
    forall|i: int| 0 <= i < diffs.len() ==> is_passing(#[trigger] diffs[i].severity)
}

/// The summary of a set of differences.
pub open spec fn summary_text(diffs: Seq<DiffView>) -> Seq<char> {
    if all_passing(diffs) {
        "Validation passed"@
    } else {
        "Validation failed with "@ + decimal_text(diffs.len()) + " differences"@
    }
}

/// Whether a difference is an error (error or critical).
pub open spec fn error_pred() -> spec_fn(DiffView) -> bool {
    |d: DiffView| is_error(d.severity)
}

/// Whether a difference is a warning.
pub open spec fn warning_pred() -> spec_fn(DiffView) -> bool {
    |d: DiffView| d.severity == RuleSeverity::Warning
}

/// Whether a difference is informational.
pub open spec fn info_pred() -> spec_fn(DiffView) -> bool {
    |d: DiffView| d.severity == RuleSeverity::Info
}

/// The differences that are errors, in order.
pub open spec fn error_diffs(diffs: Seq<DiffView>) -> Seq<DiffView> {
    diffs.filter(error_pred())
}

/// The differences that are warnings, in order.
pub open spec fn warning_diffs(diffs: Seq<DiffView>) -> Seq<DiffView> {
    diffs.filter(warning_pred())
}

/// The differences that are informational, in order.
pub open spec fn info_diffs(diffs: Seq<DiffView>) -> Seq<DiffView> {
    diffs.filter(info_pred())
}

/// Set of validation differences.
#[derive(Debug, Clone)]
pub struct DiffSet {
    /// List of differences
    pub diffs: Vec<ValidationDiff>,
    /// Whether validation passed
    pub is_valid: bool,
    /// Summary of validation
    pub summary: String,
}

impl DiffSet {
    /// Create a new diff set: valid when every difference is info or a
    /// warning.
    pub fn new(diffs: Vec<ValidationDiff>) -> (r: Self)
        ensures
            r.diffs == diffs,
            r.is_valid == all_passing(diff_views(diffs@)),
            r.summary@ == summary_text(diff_views(diffs@)),
    {
        let mut is_valid = true;
        let mut i: usize = 0;
        while i < diffs.len()
            invariant
                i <= diffs@.len(),
                is_valid == (forall|j: int| 0 <= j < i ==> is_passing(#[trigger] diffs@[j].severity)),
            decreases diffs@.len() - i,
        {
            let s = diffs[i].severity;
            if !(matches!(s, RuleSeverity::Info) || matches!(s, RuleSeverity::Warning)) {
                is_valid = false;
            }
            i = i + 1;
        }
        let ghost dv = diff_views(diffs@);
        assert(dv.len() == diffs@.len());
        if is_valid {
            assert forall|j: int| 0 <= j < dv.len() implies is_passing(#[trigger] dv[j].severity) by {
                assert(dv[j].severity == diffs@[j].severity);
                assert(is_passing(diffs@[j].severity));
            }
        } else {
            let ghost j = choose|j: int| 0 <= j < diffs@.len() && !is_passing(#[trigger] diffs@[j].severity);
            assert(dv[j].severity == diffs@[j].severity);
        }
        let summary = if is_valid {
            "Validation passed".to_owned()
        } else {
            let mut s = "Validation failed with ".to_owned();
            push_decimal(&mut s, diffs.len() as u64);
            s.append(" differences");
            s
        };
        DiffSet { diffs, is_valid, summary }
    }

    /// Whether validation passed.
    pub fn is_valid(&self) -> (r: bool)
        ensures
            r == self.is_valid,
    {
        self.is_valid
    }

    /// The number of differences.
    pub fn diff_count(&self) -> (r: usize)
        ensures
            r == self.diffs@.len(),
    {
        self.diffs.len()
    }

    /// The differences that are errors (error or critical), in order.
    pub fn errors(&self) -> (r: Vec<&ValidationDiff>)
        ensures
            r@.map_values(|d: &ValidationDiff| d@) == error_diffs(diff_views(self.diffs@)),
    {
        let ghost dv = diff_views(self.diffs@);
        let ghost p = error_pred();
        let mut out: Vec<&ValidationDiff> = Vec::new();
        let mut i: usize = 0;
        while i < self.diffs.len()
            invariant
                i <= self.diffs@.len(),
                dv == diff_views(self.diffs@),
                p == error_pred(),
                out@.map_values(|d: &ValidationDiff| d@) == dv.subrange(0, i as int).filter(p),
            decreases self.diffs@.len() - i,
        {
            reveal_with_fuel(Seq::<_>::filter, 1);
            assert(dv.subrange(0, i + 1).drop_last() =~= dv.subrange(0, i as int));
            let s = self.diffs[i].severity;
            if matches!(s, RuleSeverity::Error) || matches!(s, RuleSeverity::Critical) {
                let ghost before = out@;
                out.push(&self.diffs[i]);
                assert(out@.map_values(|d: &ValidationDiff| d@) =~= before.map_values(|d: &ValidationDiff| d@).push(dv[i as int]));
            }
            i = i + 1;
        }
        assert(dv.subrange(0, self.diffs@.len() as int) =~= dv);
        out
    }

    /// The differences that are warnings, in order.
    pub fn warnings(&self) -> (r: Vec<&ValidationDiff>)
        ensures
            r@.map_values(|d: &ValidationDiff| d@) == warning_diffs(diff_views(self.diffs@)),
    {
        let ghost dv = diff_views(self.diffs@);
        let ghost p = warning_pred();
        let mut out: Vec<&ValidationDiff> = Vec::new();
        let mut i: usize = 0;
        while i < self.diffs.len()
            invariant
                i <= self.diffs@.len(),
                dv == diff_views(self.diffs@),
                p == warning_pred(),
                out@.map_values(|d: &ValidationDiff| d@) == dv.subrange(0, i as int).filter(p),
            decreases self.diffs@.len() - i,
        {
            reveal_with_fuel(Seq::<_>::filter, 1);
            assert(dv.subrange(0, i + 1).drop_last() =~= dv.subrange(0, i as int));
            if matches!(self.diffs[i].severity, RuleSeverity::Warning) {
                let ghost before = out@;
                out.push(&self.diffs[i]);
                assert(out@.map_values(|d: &ValidationDiff| d@) =~= before.map_values(|d: &ValidationDiff| d@).push(dv[i as int]));
            }
            i = i + 1;
        }
        assert(dv.subrange(0, self.diffs@.len() as int) =~= dv);
        out
    }
}

/// Set of observed concern snapshots.
#[derive(Debug, Clone)]
pub struct ObservedConcernSet {
    /// Snapshots by concern, each concern once
    pub snapshots: Vec<(ConcernSymbol, ConcernSnapshot)>,
    /// Hook event that triggered this observation
    pub hook_event: HookEvent,
    /// Timestamp of the observation
    pub timestamp: String,
}

/// Set of expected concern snapshots.
#[derive(Debug, Clone)]
pub struct ExpectedConcernSet {
    /// Expected snapshots by concern, each concern once
    pub snapshots: Vec<(ConcernSymbol, ExpectedSnapshot)>,
    /// Hook event that triggered this expectation
    pub hook_event: HookEvent,
    /// Timestamp of the expectation
    pub timestamp: String,
}

} // verus!
