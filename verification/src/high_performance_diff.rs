//! The diff engine: JSON Patch comparison of snapshots against expectations
//! under one of several strategies, with timing metrics, and the choice of
//! the fastest strategy.

use vstd::prelude::*;
use crate::symbols::ConcernSymbol;
use crate::types::{ConcernSnapshot, ExpectedSnapshot, ValidationDiff, DiffSet, diff_views, all_passing, summary_text};
use crate::snapshot_verify::{patch_diffs, push_patch_entry};
use crate::outside::{instant_now, elapsed_micros};
use crate::text::{decimal_text, push_decimal};

verus! {

/// High-performance diffing strategies.
#[derive(Debug, Clone, Copy, PartialEq, Eq, Structural)]
pub enum DiffStrategy {
    /// Standard JSON Patch (RFC 6902)
    JsonPatch,
    /// JSON Patch after a second parse of the data
    SonicJsonPatch,
    /// Hybrid approach: second parse, then JSON Patch
    Hybrid,
}

impl DiffStrategy {
    /// The variant name of the strategy, as text.
    pub open spec fn variant_text(self) -> Seq<char> {
        match self {
            DiffStrategy::JsonPatch => "JsonPatch"@,
            DiffStrategy::SonicJsonPatch => "SonicJsonPatch"@,
            DiffStrategy::Hybrid => "Hybrid"@,
        }
    }

    /// The variant name of the strategy.
    pub fn variant_name(&self) -> (r: &'static str)
        ensures
            r@ == self.variant_text(),
    {
        match self {
            DiffStrategy::JsonPatch => "JsonPatch",
            DiffStrategy::SonicJsonPatch => "SonicJsonPatch",
            DiffStrategy::Hybrid => "Hybrid",
        }
    }

    /// The label of the strategy in mismatch descriptions.
    pub open spec fn label_text(self) -> Seq<char> {
        match self {
            DiffStrategy::JsonPatch => "JSON Patch"@,
            DiffStrategy::SonicJsonPatch => "Sonic JSON Patch"@,
            DiffStrategy::Hybrid => "Hybrid"@,
        }
    }

    /// The strategy named in the metadata of a mismatch, if any.
    pub open spec fn tag_text(self) -> Option<Seq<char>> {
        match self {
            DiffStrategy::JsonPatch => None,
            DiffStrategy::SonicJsonPatch => Some("sonic-rs"@),
            DiffStrategy::Hybrid => Some("hybrid"@),
        }
    }
}

/// Performance metrics for diffing operations.
#[derive(Debug, Clone)]
pub struct DiffMetrics {
    pub strategy: DiffStrategy,
    pub parse_time_micros: u64,
    pub diff_time_micros: u64,
    pub total_time_micros: u64,
    pub operations_generated: usize,
    pub memory_allocations: usize,
}

/// The one-line summary of metrics.
pub open spec fn metrics_summary(m: DiffMetrics) -> Seq<char> {
    "Strategy: "@ + m.strategy.variant_text() + ", Parse: "@ + decimal_text(m.parse_time_micros as nat)
        + "\u{3bc}s, Diff: "@ + decimal_text(m.diff_time_micros as nat) + "\u{3bc}s, Total: "@
        + decimal_text(m.total_time_micros as nat) + "\u{3bc}s, Ops: "@ + decimal_text(m.operations_generated as nat)
}

impl DiffMetrics {
    /// Metrics of a strategy, all counts zero.
    pub fn new(strategy: DiffStrategy) -> (r: Self)
        ensures
            r.strategy == strategy,
            r.parse_time_micros == 0,
            r.diff_time_micros == 0,
            r.total_time_micros == 0,
            r.operations_generated == 0,
            r.memory_allocations == 0,
    {
        DiffMetrics {
            strategy,
            parse_time_micros: 0,
            diff_time_micros: 0,
            total_time_micros: 0,
            operations_generated: 0,
            memory_allocations: 0,
        }
    }

    /// A one-line summary of the metrics.
    pub fn summary(&self) -> (r: String)
        ensures
            r@ == metrics_summary(*self),
    {
        let mut s = "Strategy: ".to_owned();
        s.append(self.strategy.variant_name());
        s.append(", Parse: ");
        push_decimal(&mut s, self.parse_time_micros);
        s.append("\u{3bc}s, Diff: ");
        push_decimal(&mut s, self.diff_time_micros);
        s.append("\u{3bc}s, Total: ");
        push_decimal(&mut s, self.total_time_micros);
        s.append("\u{3bc}s, Ops: ");
        push_decimal(&mut s, self.operations_generated as u64);
        assert(s@ =~= metrics_summary(*self));
        s
    }
}

/// High-performance diffing engine.
pub struct HighPerformanceDiffer {
    strategy: DiffStrategy,
}

impl View for HighPerformanceDiffer {
    type V = DiffStrategy;

    closed spec fn view(&self) -> DiffStrategy {
        self.strategy
    }
}

/// The differences that a strategy finds.
pub open spec fn strategy_diffs(
    strategy: DiffStrategy,
    obs: Seq<ConcernSnapshot>,
    exs: Seq<ExpectedSnapshot>,
) -> Seq<crate::types::DiffView> {
    patch_diffs(obs, exs, strategy.label_text(), strategy.tag_text())
}

/// `r` is the outcome of diffing under `strategy`: its differences, and
/// metrics of that strategy counting them (the times come from the clock).
pub open spec fn diff_outcome(
    r: (DiffSet, DiffMetrics),
    strategy: DiffStrategy,
    obs: Seq<ConcernSnapshot>,
    exs: Seq<ExpectedSnapshot>,
) -> bool {
    &&& diff_views(r.0.diffs@) == strategy_diffs(strategy, obs, exs)
    &&& r.0.is_valid == all_passing(diff_views(r.0.diffs@))
    &&& r.0.summary@ == summary_text(diff_views(r.0.diffs@))
    &&& r.1.strategy == strategy
    &&& r.1.diff_time_micros == 0
    &&& r.1.operations_generated == r.0.diffs@.len()
    &&& r.1.memory_allocations == 0
}

impl HighPerformanceDiffer {
    /// Create a differ with the given strategy.
    pub fn new(strategy: DiffStrategy) -> (r: Self)
        ensures
            r@ == strategy,
    {
        HighPerformanceDiffer { strategy }
    }

    /// Diff the snapshots against the expectations under the differ's
    /// strategy, with metrics.
    pub fn diff_with_metrics(&self, observed: &[ConcernSnapshot], expected: &[ExpectedSnapshot]) -> (r: (
        DiffSet,
        DiffMetrics,
    ))
        ensures
            diff_outcome(r, self@, observed@, expected@),
    {
        let start = instant_now();
        let mut metrics = DiffMetrics::new(self.strategy);
        let (label, tag): (&str, Option<&str>) = match self.strategy {
            DiffStrategy::JsonPatch => ("JSON Patch", None),
            DiffStrategy::SonicJsonPatch => ("Sonic JSON Patch", Some("sonic-rs")),
            DiffStrategy::Hybrid => ("Hybrid", Some("hybrid")),
        };
        let parse_start = instant_now();
        let mut diffs: Vec<ValidationDiff> = Vec::new();
        let mut k: usize = 0;
        while k < expected.len()
            invariant
                k <= expected@.len(),
                label@ == self.strategy.label_text(),
                (match tag {
                    Some(t) => Some(t@),
                    None => None,
                }) == self.strategy.tag_text(),
                diff_views(diffs@) == patch_diffs(
                    observed@,
                    expected@.subrange(0, k as int),
                    label@,
                    self.strategy.tag_text(),
                ),
            decreases expected@.len() - k,
        {
            assert(expected@.subrange(0, k + 1).drop_last() =~= expected@.subrange(0, k as int));
            push_patch_entry(observed, &expected[k], label, tag, &mut diffs);
            k = k + 1;
        }
        assert(expected@.subrange(0, expected@.len() as int) =~= expected@);
        let diff_set = DiffSet::new(diffs);
        metrics.parse_time_micros = elapsed_micros(&parse_start);
        metrics.diff_time_micros = 0;
        metrics.total_time_micros = elapsed_micros(&start);
        metrics.operations_generated = diff_set.diff_count();
        (diff_set, metrics)
    }

    /// The metrics of each strategy in turn: JSON Patch, sonic, hybrid.
    pub fn benchmark_strategies(observed: &[ConcernSnapshot], expected: &[ExpectedSnapshot]) -> (r: Vec<
        DiffMetrics,
    >)
        ensures
            r@.len() == 3,
            r@[0].strategy == DiffStrategy::JsonPatch,
            r@[1].strategy == DiffStrategy::SonicJsonPatch,
            r@[2].strategy == DiffStrategy::Hybrid,
            forall|i: int|
                0 <= i < 3 ==> (#[trigger] r@[i]).operations_generated == strategy_diffs(
                    r@[i].strategy,
                    observed@,
                    expected@,
                ).len() && r@[i].diff_time_micros == 0 && r@[i].memory_allocations == 0,
    {
        let mut results: Vec<DiffMetrics> = Vec::new();
        let (_, m0) = HighPerformanceDiffer::new(DiffStrategy::JsonPatch).diff_with_metrics(observed, expected);
        results.push(m0);
        let (_, m1) = HighPerformanceDiffer::new(DiffStrategy::SonicJsonPatch).diff_with_metrics(observed, expected);
        results.push(m1);
        let (_, m2) = HighPerformanceDiffer::new(DiffStrategy::Hybrid).diff_with_metrics(observed, expected);
        results.push(m2);
        results
    }

    /// The fastest strategy by a benchmark of all three. Which one it is
    /// depends on the clock; it is the one `fastest_strategy` picks from
    /// the benchmark's metrics.
    pub fn get_fastest_strategy(observed: &[ConcernSnapshot], expected: &[ExpectedSnapshot]) -> (r: DiffStrategy) {
        let results = Self::benchmark_strategies(observed, expected);
        fastest_strategy(&results)
    }
}

/// The position of the first metrics with the least total time.
pub open spec fn fastest_index(ms: Seq<DiffMetrics>) -> int
    decreases ms.len(),
{
    if ms.len() <= 1 {
        0
    } else {
        let k = fastest_index(ms.drop_last());
        if ms.last().total_time_micros < ms[k].total_time_micros {
            ms.len() - 1
        } else {
            k
        }
    }
}

proof fn lemma_fastest_index(ms: Seq<DiffMetrics>)
    requires
        ms.len() > 0,
    ensures
        0 <= fastest_index(ms) < ms.len(),
        forall|j: int| 0 <= j < ms.len() ==> ms[fastest_index(ms)].total_time_micros <= #[trigger] ms[j].total_time_micros,
        forall|j: int| 0 <= j < fastest_index(ms) ==> ms[fastest_index(ms)].total_time_micros < #[trigger] ms[j].total_time_micros,
    decreases ms.len(),
{
    if ms.len() > 1 {
        lemma_fastest_index(ms.drop_last());
        let k = fastest_index(ms.drop_last());
        assert forall|j: int| 0 <= j < ms.len() - 1 implies #[trigger] ms[j] == ms.drop_last()[j] by {}
    }
}

/// The strategy of the first metrics with the least total time; JSON Patch
/// where there are none.
pub fn fastest_strategy(results: &Vec<DiffMetrics>) -> (r: DiffStrategy)
    ensures
        results@.len() == 0 ==> r == DiffStrategy::JsonPatch,
        results@.len() > 0 ==> r == results@[fastest_index(results@)].strategy,
{
    if results.len() == 0 {
        return DiffStrategy::JsonPatch;
    }
    let mut best: usize = 0;
    let mut i: usize = 1;
    while i < results.len()
        invariant
            1 <= i <= results@.len(),
            best as int == fastest_index(results@.subrange(0, i as int)),
        decreases results@.len() - i,
    {
        let ghost pre = results@.subrange(0, i as int);
        assert(results@.subrange(0, i + 1).drop_last() =~= pre);
        proof {
            lemma_fastest_index(pre);
        }
        assert(pre[best as int] == results@[best as int]);
        if results[i].total_time_micros < results[best].total_time_micros {
            best = i;
        }
        i = i + 1;
    }
    assert(results@.subrange(0, results@.len() as int) =~= results@);
    proof {
        lemma_fastest_index(results@);
    }
    results[best].strategy
}

/// Diff under the fastest strategy that a benchmark finds.
pub fn auto_diff(observed: &[ConcernSnapshot], expected: &[ExpectedSnapshot]) -> (r: (DiffSet, DiffMetrics))
    ensures
        exists|s: DiffStrategy| diff_outcome(r, s, observed@, expected@),
{
    let strategy = HighPerformanceDiffer::get_fastest_strategy(observed, expected);
    let differ = HighPerformanceDiffer::new(strategy);
    differ.diff_with_metrics(observed, expected)
}

/// Diff under the given strategy.
pub fn diff_with_strategy(strategy: DiffStrategy, observed: &[ConcernSnapshot], expected: &[ExpectedSnapshot]) -> (r: (
    DiffSet,
    DiffMetrics,
))
    ensures
        diff_outcome(r, strategy, observed@, expected@),
{
    let differ = HighPerformanceDiffer::new(strategy);
    differ.diff_with_metrics(observed, expected)
}

/// The lines of a benchmark report, one per metrics, numbered from 1.
pub open spec fn report_lines(ms: Seq<DiffMetrics>) -> Seq<char>
    decreases ms.len(),
{
    if ms.len() == 0 {
        Seq::empty()
    } else {
        report_lines(ms.drop_last()) + decimal_text(ms.len()) + ". "@ + metrics_summary(ms.last()) + "\n"@
    }
}

/// A benchmark report of metrics: a heading, a numbered line per metrics,
/// and the fastest strategy with its total time.
pub open spec fn report_text(ms: Seq<DiffMetrics>) -> Seq<char> {
    let f = ms[fastest_index(ms)];
    "\u{1f52c} High-Performance Diff Benchmark Report\n"@ + "==========================================\n\n"@
        + report_lines(ms) + "\n\u{1f3c6} Fastest: "@ + f.strategy.variant_text() + " ("@ + decimal_text(
        f.total_time_micros as nat,
    ) + "\u{3bc}s)"@
}

/// Write the benchmark report of given metrics.
pub fn report_of(results: &Vec<DiffMetrics>) -> (r: String)
    requires
        results@.len() > 0,
        results@.len() < u64::MAX,
    ensures
        r@ == report_text(results@),
{
    let mut report = "\u{1f52c} High-Performance Diff Benchmark Report\n".to_owned();
    report.append("==========================================\n\n");
    let ghost head = report@;
    let mut i: usize = 0;
    while i < results.len()
        invariant
            i <= results@.len(),
            results@.len() < u64::MAX,
            report@ == head + report_lines(results@.subrange(0, i as int)),
        decreases results@.len() - i,
    {
        assert(results@.subrange(0, i + 1).drop_last() =~= results@.subrange(0, i as int));
        push_decimal(&mut report, (i + 1) as u64);
        report.append(". ");
        let line = results[i].summary();
        report.append(line.as_str());
        report.append("\n");
        assert(report@ =~= head + report_lines(results@.subrange(0, i + 1)));
        i = i + 1;
    }
    assert(results@.subrange(0, results@.len() as int) =~= results@);
    let mut best: usize = 0;
    let mut j: usize = 1;
    while j < results.len()
        invariant
            1 <= j <= results@.len(),
            best as int == fastest_index(results@.subrange(0, j as int)),
        decreases results@.len() - j,
    {
        let ghost pre = results@.subrange(0, j as int);
        assert(results@.subrange(0, j + 1).drop_last() =~= pre);
        proof {
            lemma_fastest_index(pre);
        }
        assert(pre[best as int] == results@[best as int]);
        if results[j].total_time_micros < results[best].total_time_micros {
            best = j;
        }
        j = j + 1;
    }
    proof {
        lemma_fastest_index(results@);
    }
    report.append("\n\u{1f3c6} Fastest: ");
    report.append(results[best].strategy.variant_name());
    report.append(" (");
    push_decimal(&mut report, results[best].total_time_micros);
    report.append("\u{3bc}s)");
    assert(report@ =~= report_text(results@));
    report
}

/// A benchmark report of the three strategies on the given snapshots.
pub fn benchmark_report(observed: &[ConcernSnapshot], expected: &[ExpectedSnapshot]) -> (r: String)
    ensures
        exists|ms: Seq<DiffMetrics>|
            ms.len() == 3 && ms[0].strategy == DiffStrategy::JsonPatch && ms[1].strategy
                == DiffStrategy::SonicJsonPatch && ms[2].strategy == DiffStrategy::Hybrid && r@ == report_text(ms),
{
    let results = HighPerformanceDiffer::benchmark_strategies(observed, expected);
    report_of(&results)
}

} // verus!
