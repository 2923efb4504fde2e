//! Verification of observed concern snapshots against the expectations that
//! contracts set: which expected concerns are missing, which differ, and
//! which observed concerns were not expected.

use vstd::prelude::*;
use crate::symbols::{ConcernSymbol, RuleSeverity};
use crate::json::{JsonValue, JsonView, json_eq, json_text, json_view, member, get_member, lemma_fields_view, lemma_items_view, fields_view, items_view};
use crate::types::{ConcernSnapshot, ExpectedSnapshot, ValidationDiff, DiffView, DiffType, DiffSet, diff_views, all_passing, summary_text};
use crate::outside::{json_debug, json_debug_of, json_patch_apply, json_patch_ops, json_patch_ops_of, json_patched_of};
use crate::sarif::{texts, contains_text};
use crate::text::decimal_text;

verus! {

/// The position of the first observed snapshot of concern `c`, if any.
pub open spec fn find_observed(obs: Seq<ConcernSnapshot>, c: ConcernSymbol) -> Option<int>
    decreases obs.len(),
{
    if obs.len() == 0 {
        None
    } else {
        match find_observed(obs.drop_last(), c) {
            Some(i) => Some(i),
            None => if obs.last().symbol == c {
                Some(obs.len() - 1)
            } else {
                None
            },
        }
    }
}

/// Whether some expectation is for concern `c`.
pub open spec fn is_expected(exs: Seq<ExpectedSnapshot>, c: ConcernSymbol) -> bool {
    exists|i: int| 0 <= i < exs.len() && #[trigger] exs[i].symbol == c
}

/// The difference for an expected concern that was not observed.
pub open spec fn missing_diff(ex: ExpectedSnapshot, severity: RuleSeverity) -> DiffView {
    DiffView {
        concern: ex.symbol,
        diff_type: DiffType::Missing,
        description: "Missing expected concern: "@ + ex.symbol.name_text(),
        observed: None,
        expected: Some(ex.expectation@),
        severity,
        metadata: Seq::empty(),
    }
}

/// The difference for an expected concern whose observed data differs.
pub open spec fn mismatch_diff(
    obs: ConcernSnapshot,
    ex: ExpectedSnapshot,
    description: Seq<char>,
    severity: RuleSeverity,
    metadata: Seq<(Seq<char>, JsonView)>,
) -> DiffView {
    DiffView {
        concern: ex.symbol,
        diff_type: DiffType::Mismatch,
        description,
        observed: Some(obs.data@),
        expected: Some(ex.expectation@),
        severity,
        metadata,
    }
}

/// The difference for an observed concern that no expectation is for.
pub open spec fn unexpected_diff(obs: ConcernSnapshot) -> DiffView {
    DiffView {
        concern: obs.symbol,
        diff_type: DiffType::Unexpected,
        description: "Unexpected observed concern: "@ + obs.symbol.name_text(),
        observed: Some(obs.data@),
        expected: None,
        severity: RuleSeverity::Warning,
        metadata: Seq::empty(),
    }
}

/// The description of a data mismatch of concern `c`, followed by `suffix`.
pub open spec fn mismatch_text(c: ConcernSymbol, suffix: Seq<char>) -> Seq<char> {
    "Data mismatch for concern: "@ + c.name_text() + suffix
}

/// The differences for one expectation, comparing data for equality, at
/// severity `severity`.
pub open spec fn equality_entry(obs: Seq<ConcernSnapshot>, ex: ExpectedSnapshot, severity: RuleSeverity) -> Seq<DiffView> {
    match find_observed(obs, ex.symbol) {
        Some(i) => if obs[i].data@ != ex.expectation@ {
            seq![mismatch_diff(obs[i], ex, mismatch_text(ex.symbol, Seq::empty()), severity, Seq::empty())]
        } else {
            Seq::empty()
        },
        None => seq![missing_diff(ex, severity)],
    }
}

/// The differences for each expectation in turn, comparing for equality at
/// error severity.
pub open spec fn equality_diffs(obs: Seq<ConcernSnapshot>, exs: Seq<ExpectedSnapshot>) -> Seq<DiffView>
    decreases exs.len(),
{
    if exs.len() == 0 {
        Seq::empty()
    } else {
        equality_diffs(obs, exs.drop_last()) + equality_entry(obs, exs.last(), RuleSeverity::Error)
    }
}

/// The unexpected-concern differences, for each observed snapshot in turn.
pub open spec fn unexpected_diffs(obs: Seq<ConcernSnapshot>, exs: Seq<ExpectedSnapshot>) -> Seq<DiffView>
    decreases obs.len(),
{
    if obs.len() == 0 {
        Seq::empty()
    } else {
        unexpected_diffs(obs.drop_last(), exs) + if is_expected(exs, obs.last().symbol) {
            Seq::empty()
        } else {
            seq![unexpected_diff(obs.last())]
        }
    }
}

/// The severity of concern `c` under a severity map: the first entry for
/// it, else error.
pub open spec fn severity_for(map: Seq<(ConcernSymbol, RuleSeverity)>, c: ConcernSymbol) -> RuleSeverity
    decreases map.len(),
{
    if map.len() == 0 {
        RuleSeverity::Error
    } else if map[0].0 == c {
        map[0].1
    } else {
        severity_for(map.drop_first(), c)
    }
}

/// The differences for each expectation in turn, comparing for equality at
/// the severity the map gives.
pub open spec fn severity_diffs(
    obs: Seq<ConcernSnapshot>,
    exs: Seq<ExpectedSnapshot>,
    map: Seq<(ConcernSymbol, RuleSeverity)>,
) -> Seq<DiffView>
    decreases exs.len(),
{
    if exs.len() == 0 {
        Seq::empty()
    } else {
        severity_diffs(obs, exs.drop_last(), map) + equality_entry(obs, exs.last(), severity_for(map, exs.last().symbol))
    }
}

/// The messages of `verify` for one expectation.
pub open spec fn verify_entry(obs: Seq<ConcernSnapshot>, ex: ExpectedSnapshot) -> Seq<Seq<char>> {
    match find_observed(obs, ex.symbol) {
        Some(i) => if obs[i].data@ != ex.expectation@ {
            seq![
                "Mismatch on "@ + ex.symbol.name_text() + ": observed "@ + json_debug_of(json_text(obs[i].data@))
                    + ", expected "@ + json_debug_of(json_text(ex.expectation@)),
            ]
        } else {
            Seq::empty()
        },
        None => seq!["Missing observed snapshot for "@ + ex.symbol.name_text()],
    }
}

/// The messages of `verify`, for each expectation in turn.
pub open spec fn verify_messages(obs: Seq<ConcernSnapshot>, exs: Seq<ExpectedSnapshot>) -> Seq<Seq<char>>
    decreases exs.len(),
{
    if exs.len() == 0 {
        Seq::empty()
    } else {
        verify_messages(obs, exs.drop_last()) + verify_entry(obs, exs.last())
    }
}

/// The position of the first observed snapshot of concern `c`.
fn find_observed_exec(observed: &[ConcernSnapshot], c: ConcernSymbol) -> (r: Option<usize>)
    ensures
        match r {
            Some(i) => i < observed@.len() && find_observed(observed@, c) == Some(i as int),
            None => find_observed(observed@, c) is None,
        },
{
    let mut i: usize = 0;
    while i < observed.len()
        invariant
            i <= observed@.len(),
            find_observed(observed@.subrange(0, i as int), c) is None,
        decreases observed@.len() - i,
    {
        assert(observed@.subrange(0, i + 1).drop_last() =~= observed@.subrange(0, i as int));
        if observed[i].symbol == c {
            proof {
                lemma_find_observed_prefix(observed@, c, i as int + 1);
            }
            return Some(i);
        }
        i = i + 1;
    }
    assert(observed@.subrange(0, observed@.len() as int) =~= observed@);
    None
}

/// A match in a prefix is the match in the whole sequence.
proof fn lemma_find_observed_prefix(obs: Seq<ConcernSnapshot>, c: ConcernSymbol, n: int)
    requires
        0 <= n <= obs.len(),
        find_observed(obs.subrange(0, n), c) is Some,
    ensures
        find_observed(obs, c) == find_observed(obs.subrange(0, n), c),
    decreases obs.len() - n,
{
    if n < obs.len() {
        assert(obs.subrange(0, n + 1).drop_last() =~= obs.subrange(0, n));
        lemma_find_observed_prefix(obs, c, n + 1);
    } else {
        assert(obs.subrange(0, n) =~= obs);
    }
}

/// Whether some expectation is for concern `c`.
fn is_expected_exec(expected: &[ExpectedSnapshot], c: ConcernSymbol) -> (r: bool)
    ensures
        r == is_expected(expected@, c),
{
    let mut i: usize = 0;
    while i < expected.len()
        invariant
            i <= expected@.len(),
            forall|j: int| 0 <= j < i ==> #[trigger] expected@[j].symbol != c,
        decreases expected@.len() - i,
    {
        if expected[i].symbol == c {
            return true;
        }
        i = i + 1;
    }
    false
}

/// A text: `prefix` followed by `name`.
fn prefixed(prefix: &str, name: &str) -> (r: String)
    ensures
        r@ == prefix@ + name@,
{
    let mut s = prefix.to_owned();
    s.append(name);
    s
}

/// Append `d` to `out`.
fn push_diff(out: &mut Vec<ValidationDiff>, d: ValidationDiff)
    ensures
        diff_views(final(out)@) == diff_views(old(out)@).push(d@),
{
    let ghost before = out@;
    out.push(d);
    assert(diff_views(out@) =~= diff_views(before).push(d@));
}

/// The missing-concern difference for `ex`.
fn make_missing(ex: &ExpectedSnapshot, severity: RuleSeverity) -> (r: ValidationDiff)
    ensures
        r@ == missing_diff(*ex, severity),
{
    let metadata: Vec<(String, JsonValue)> = Vec::new();
    proof {
        lemma_fields_view(metadata@);
    }
    assert(fields_view(metadata@) =~= Seq::<(Seq<char>, JsonView)>::empty());
    ValidationDiff::new(
        ex.symbol,
        DiffType::Missing,
        prefixed("Missing expected concern: ", ex.symbol.name()),
        None,
        Some(ex.expectation.duplicate()),
        severity,
        metadata,
    )
}

/// The mismatch difference for `obs` against `ex`.
fn make_mismatch(
    obs: &ConcernSnapshot,
    ex: &ExpectedSnapshot,
    description: String,
    severity: RuleSeverity,
    metadata: Vec<(String, JsonValue)>,
) -> (r: ValidationDiff)
    ensures
        r@ == mismatch_diff(*obs, *ex, description@, severity, fields_view(metadata@)),
{
    ValidationDiff::new(
        ex.symbol,
        DiffType::Mismatch,
        description,
        Some(obs.data.duplicate()),
        Some(ex.expectation.duplicate()),
        severity,
        metadata,
    )
}

/// The unexpected-concern difference for `obs`.
fn make_unexpected(obs: &ConcernSnapshot) -> (r: ValidationDiff)
    ensures
        r@ == unexpected_diff(*obs),
{
    let metadata: Vec<(String, JsonValue)> = Vec::new();
    proof {
        lemma_fields_view(metadata@);
    }
    assert(fields_view(metadata@) =~= Seq::<(Seq<char>, JsonView)>::empty());
    ValidationDiff::new(
        obs.symbol,
        DiffType::Unexpected,
        prefixed("Unexpected observed concern: ", obs.symbol.name()),
        Some(obs.data.duplicate()),
        None,
        RuleSeverity::Warning,
        metadata,
    )
}

/// Append the differences for one expectation, comparing for equality.
fn push_equality_entry(
    observed: &[ConcernSnapshot],
    ex: &ExpectedSnapshot,
    severity: RuleSeverity,
    out: &mut Vec<ValidationDiff>,
)
    ensures
        diff_views(final(out)@) == diff_views(old(out)@) + equality_entry(observed@, *ex, severity),
{
    let ghost before = diff_views(out@);
    match find_observed_exec(observed, ex.symbol) {
        Some(i) => {
            if !json_eq(&observed[i].data, &ex.expectation) {
                let d = make_mismatch(
                    &observed[i],
                    ex,
                    prefixed("Data mismatch for concern: ", ex.symbol.name()),
                    severity,
                    Vec::new(),
                );
                proof {
                    lemma_fields_view(Seq::<(String, JsonValue)>::empty());
                }
                assert(Seq::<char>::empty() =~= Seq::<char>::empty());
                assert(mismatch_text(ex.symbol, Seq::empty()) =~= "Data mismatch for concern: "@ + ex.symbol.name_text());
                push_diff(out, d);
            }
        },
        None => {
            push_diff(out, make_missing(ex, severity));
        },
    }
    assert(diff_views(out@) =~= before + equality_entry(observed@, *ex, severity));
}

/// Verify observed snapshots against expected ones: for each expectation,
/// a message where its concern was not observed or its data differs.
pub fn verify(observed: &[ConcernSnapshot], expected: &[ExpectedSnapshot]) -> (r: Result<(), Vec<String>>)
    ensures
        match r {
            Ok(()) => verify_messages(observed@, expected@).len() == 0,
            Err(errors) => errors@.len() > 0 && texts(errors@) == verify_messages(observed@, expected@),
        },
{
    let mut errors: Vec<String> = Vec::new();
    let mut k: usize = 0;
    while k < expected.len()
        invariant
            k <= expected@.len(),
            texts(errors@) == verify_messages(observed@, expected@.subrange(0, k as int)),
        decreases expected@.len() - k,
    {
        let ex = &expected[k];
        assert(expected@.subrange(0, k + 1).drop_last() =~= expected@.subrange(0, k as int));
        let ghost before = errors@;
        match find_observed_exec(observed, ex.symbol) {
            Some(i) => {
                if !json_eq(&observed[i].data, &ex.expectation) {
                    let mut m = prefixed("Mismatch on ", ex.symbol.name());
                    m.append(": observed ");
                    let ot = observed[i].data.to_json_text();
                    let od = json_debug(ot.as_str());
                    m.append(od.as_str());
                    m.append(", expected ");
                    let et = ex.expectation.to_json_text();
                    let ed = json_debug(et.as_str());
                    m.append(ed.as_str());
                    errors.push(m);
                }
            },
            None => {
                errors.push(prefixed("Missing observed snapshot for ", ex.symbol.name()));
            },
        }
        assert(texts(errors@) =~= texts(before) + verify_entry(observed@, *ex));
        k = k + 1;
    }
    assert(expected@.subrange(0, expected@.len() as int) =~= expected@);
    if errors.len() == 0 {
        Ok(())
    } else {
        Err(errors)
    }
}

/// Verify with detailed differences: for each expectation, a mismatch or a
/// missing-concern error, then a warning for each observed concern that no
/// expectation is for.
pub fn verify_with_diffs(observed: &[ConcernSnapshot], expected: &[ExpectedSnapshot]) -> (r: DiffSet)
    ensures
        diff_views(r.diffs@) == equality_diffs(observed@, expected@) + unexpected_diffs(observed@, expected@),
        r.is_valid == all_passing(diff_views(r.diffs@)),
        r.summary@ == summary_text(diff_views(r.diffs@)),
{
    let mut diffs: Vec<ValidationDiff> = Vec::new();
    let mut k: usize = 0;
    while k < expected.len()
        invariant
            k <= expected@.len(),
            diff_views(diffs@) == equality_diffs(observed@, expected@.subrange(0, k as int)),
        decreases expected@.len() - k,
    {
        assert(expected@.subrange(0, k + 1).drop_last() =~= expected@.subrange(0, k as int));
        push_equality_entry(observed, &expected[k], RuleSeverity::Error, &mut diffs);
        k = k + 1;
    }
    assert(expected@.subrange(0, expected@.len() as int) =~= expected@);
    let ghost first = diff_views(diffs@);
    let mut k: usize = 0;
    while k < observed.len()
        invariant
            k <= observed@.len(),
            diff_views(diffs@) == first + unexpected_diffs(observed@.subrange(0, k as int), expected@),
        decreases observed@.len() - k,
    {
        assert(observed@.subrange(0, k + 1).drop_last() =~= observed@.subrange(0, k as int));
        let ghost before = diff_views(diffs@);
        if !is_expected_exec(expected, observed[k].symbol) {
            push_diff(&mut diffs, make_unexpected(&observed[k]));
        }
        assert(diff_views(diffs@) =~= first + unexpected_diffs(observed@.subrange(0, k + 1), expected@));
        k = k + 1;
    }
    assert(observed@.subrange(0, observed@.len() as int) =~= observed@);
    DiffSet::new(diffs)
}

/// The severity that a map gives concern `c`: its first entry, else error.
fn lookup_severity(map: &Vec<(ConcernSymbol, RuleSeverity)>, c: ConcernSymbol) -> (r: RuleSeverity)
    ensures
        r == severity_for(map@, c),
{
    let mut i: usize = 0;
    assert(map@.subrange(0, map@.len() as int) =~= map@);
    while i < map.len()
        invariant
            i <= map@.len(),
            severity_for(map@, c) == severity_for(map@.subrange(i as int, map@.len() as int), c),
        decreases map@.len() - i,
    {
        let ghost rest = map@.subrange(i as int, map@.len() as int);
        assert(rest[0] == map@[i as int]);
        if map[i].0 == c {
            return map[i].1;
        }
        assert(rest.drop_first() =~= map@.subrange(i + 1, map@.len() as int));
        i = i + 1;
    }
    RuleSeverity::Error
}

/// Verify with a severity per concern: as `verify_with_diffs` for the
/// expectations, each difference at the severity the map gives its concern
/// (error where it gives none); observed concerns that no expectation is for
/// are not reported.
pub fn verify_with_severity(
    observed: &[ConcernSnapshot],
    expected: &[ExpectedSnapshot],
    severity_map: &Vec<(ConcernSymbol, RuleSeverity)>,
) -> (r: DiffSet)
    ensures
        diff_views(r.diffs@) == severity_diffs(observed@, expected@, severity_map@),
        r.is_valid == all_passing(diff_views(r.diffs@)),
        r.summary@ == summary_text(diff_views(r.diffs@)),
{
    let mut diffs: Vec<ValidationDiff> = Vec::new();
    let mut k: usize = 0;
    while k < expected.len()
        invariant
            k <= expected@.len(),
            diff_views(diffs@) == severity_diffs(observed@, expected@.subrange(0, k as int), severity_map@),
        decreases expected@.len() - k,
    {
        assert(expected@.subrange(0, k + 1).drop_last() =~= expected@.subrange(0, k as int));
        let severity = lookup_severity(severity_map, expected[k].symbol);
        push_equality_entry(observed, &expected[k], severity, &mut diffs);
        k = k + 1;
    }
    assert(expected@.subrange(0, expected@.len() as int) =~= expected@);
    DiffSet::new(diffs)
}

/// `observed` matches `expected` except in members named in `tolerated`:
/// objects match when every member of the expected object that is not
/// tolerated is matched by the observed member of that name; arrays match
/// element by element; anything else matches when equal.
pub open spec fn tolerant_eq(observed: JsonView, expected: JsonView, tolerated: Seq<Seq<char>>) -> bool
    decreases expected,
{
    match expected {
        JsonView::Object(efs) => match observed {
            JsonView::Object(ofs) => members_tolerant(ofs, efs, tolerated),
            _ => observed == expected,
        },
        JsonView::Array(eis) => match observed {
            JsonView::Array(ois) => ois.len() == eis.len() && items_tolerant(ois, eis, tolerated),
            _ => observed == expected,
        },
        _ => observed == expected,
    }
}

/// Every expected member is tolerated or matched by the observed member of
/// its name.
pub open spec fn members_tolerant(
    ofs: Seq<(Seq<char>, JsonView)>,
    efs: Seq<(Seq<char>, JsonView)>,
    tolerated: Seq<Seq<char>>,
) -> bool
    decreases efs,
{
    if efs.len() == 0 {
        true
    } else {
        members_tolerant(ofs, efs.drop_last(), tolerated) && (tolerated.contains(efs.last().0) || match member(
            ofs,
            efs.last().0,
        ) {
            Some(ov) => tolerant_eq(ov, efs.last().1, tolerated),
            None => false,
        })
    }
}

/// Each observed element matches the expected element at its position (the
/// sequences have the same length).
pub open spec fn items_tolerant(ois: Seq<JsonView>, eis: Seq<JsonView>, tolerated: Seq<Seq<char>>) -> bool
    decreases eis,
{
    if eis.len() == 0 || ois.len() == 0 {
        true
    } else {
        items_tolerant(ois.drop_last(), eis.drop_last(), tolerated) && tolerant_eq(ois.last(), eis.last(), tolerated)
    }
}

/// Compare JSON values, tolerating differences in the named members.
fn compare_with_tolerance(observed: &JsonValue, expected: &JsonValue, tolerance_fields: &Vec<String>) -> (r: bool)
    ensures
        r == tolerant_eq(observed@, expected@, texts(tolerance_fields@)),
    decreases expected,
{
    let ghost tol = texts(tolerance_fields@);
    match (observed, expected) {
        (JsonValue::Object(ofs), JsonValue::Object(efs)) => {
            let ghost ov = fields_view(ofs@);
            let ghost ev = fields_view(efs@);
            proof {
                lemma_fields_view(efs@);
            }
            let mut ok = true;
            let mut i: usize = 0;
            while i < efs.len()
                invariant
                    i <= efs@.len(),
                    *expected == JsonValue::Object(*efs),
                    observed@ == JsonView::Object(ov),
                    ev == fields_view(efs@),
                    ev.len() == efs@.len(),
                    forall|j: int| 0 <= j < efs@.len() ==> #[trigger] ev[j] == (efs@[j].0@, json_view(efs@[j].1)),
                    tol == texts(tolerance_fields@),
                    ok == members_tolerant(ov, ev.subrange(0, i as int), tol),
                decreases efs@.len() - i,
            {
                assert(ev.subrange(0, i + 1).drop_last() =~= ev.subrange(0, i as int));
                assert(ev.subrange(0, i + 1).last() == ev[i as int]);
                let step = if contains_text(tolerance_fields, &efs[i].0) {
                    true
                } else {
                    match observed.get(efs[i].0.as_str()) {
                        Some(o) => {
                            assert(decreases_to!(*expected => (*expected)->Object_0));
                            assert(decreases_to!(*efs => efs@));
                            assert(decreases_to!(efs@ => efs@[i as int]));
                            assert(decreases_to!(efs@[i as int] => efs@[i as int].1));
                            compare_with_tolerance(o, &efs[i].1, tolerance_fields)
                        },
                        None => false,
                    }
                };
                ok = ok && step;
                i = i + 1;
            }
            assert(ev.subrange(0, efs@.len() as int) =~= ev);
            ok
        },
        (JsonValue::Array(ois), JsonValue::Array(eis)) => {
            proof {
                lemma_items_view(ois@);
                lemma_items_view(eis@);
            }
            if ois.len() != eis.len() {
                return false;
            }
            let ghost ov = items_view(ois@);
            let ghost ev = items_view(eis@);
            let mut ok = true;
            let mut i: usize = 0;
            while i < eis.len()
                invariant
                    i <= eis@.len(),
                    ois@.len() == eis@.len(),
                    *expected == JsonValue::Array(*eis),
                    ov == items_view(ois@),
                    ev == items_view(eis@),
                    ov.len() == ois@.len(),
                    ev.len() == eis@.len(),
                    forall|j: int| 0 <= j < ois@.len() ==> #[trigger] ov[j] == json_view(ois@[j]),
                    forall|j: int| 0 <= j < eis@.len() ==> #[trigger] ev[j] == json_view(eis@[j]),
                    tol == texts(tolerance_fields@),
                    ok == items_tolerant(ov.subrange(0, i as int), ev.subrange(0, i as int), tol),
                decreases eis@.len() - i,
            {
                assert(ov.subrange(0, i + 1).drop_last() =~= ov.subrange(0, i as int));
                assert(ev.subrange(0, i + 1).drop_last() =~= ev.subrange(0, i as int));
                assert(decreases_to!(*expected => (*expected)->Array_0));
                assert(decreases_to!(*eis => eis@));
                assert(decreases_to!(eis@ => eis@[i as int]));
                let step = compare_with_tolerance(&ois[i], &eis[i], tolerance_fields);
                ok = ok && step;
                i = i + 1;
            }
            assert(ov.subrange(0, ois@.len() as int) =~= ov);
            assert(ev.subrange(0, eis@.len() as int) =~= ev);
            ok
        },
        _ => json_eq(observed, expected),
    }
}

/// The tolerated member names for concern `c`: those of its first entry,
/// else none.
pub open spec fn tolerance_for(map: Seq<(ConcernSymbol, Vec<String>)>, c: ConcernSymbol) -> Seq<Seq<char>>
    decreases map.len(),
{
    if map.len() == 0 {
        Seq::empty()
    } else if map[0].0 == c {
        texts(map[0].1@)
    } else {
        tolerance_for(map.drop_first(), c)
    }
}

/// The differences for one expectation, comparing with tolerance.
pub open spec fn tolerance_entry(
    obs: Seq<ConcernSnapshot>,
    ex: ExpectedSnapshot,
    map: Seq<(ConcernSymbol, Vec<String>)>,
) -> Seq<DiffView> {
    match find_observed(obs, ex.symbol) {
        Some(i) => if !tolerant_eq(obs[i].data@, ex.expectation@, tolerance_for(map, ex.symbol)) {
            seq![mismatch_diff(obs[i], ex, mismatch_text(ex.symbol, " (with tolerance)"@), RuleSeverity::Error, Seq::empty())]
        } else {
            Seq::empty()
        },
        None => seq![missing_diff(ex, RuleSeverity::Error)],
    }
}

/// The differences for each expectation in turn, comparing with tolerance.
pub open spec fn tolerance_diffs(
    obs: Seq<ConcernSnapshot>,
    exs: Seq<ExpectedSnapshot>,
    map: Seq<(ConcernSymbol, Vec<String>)>,
) -> Seq<DiffView>
    decreases exs.len(),
{
    if exs.len() == 0 {
        Seq::empty()
    } else {
        tolerance_diffs(obs, exs.drop_last(), map) + tolerance_entry(obs, exs.last(), map)
    }
}

/// The tolerated member names of concern `c`.
fn lookup_tolerance(map: &Vec<(ConcernSymbol, Vec<String>)>, c: ConcernSymbol) -> (r: Option<&Vec<String>>)
    ensures
        match r {
            Some(v) => tolerance_for(map@, c) == texts(v@),
            None => tolerance_for(map@, c) == Seq::<Seq<char>>::empty(),
        },
{
    let mut i: usize = 0;
    assert(map@.subrange(0, map@.len() as int) =~= map@);
    while i < map.len()
        invariant
            i <= map@.len(),
            tolerance_for(map@, c) == tolerance_for(map@.subrange(i as int, map@.len() as int), c),
        decreases map@.len() - i,
    {
        let ghost rest = map@.subrange(i as int, map@.len() as int);
        assert(rest[0] == map@[i as int]);
        if map[i].0 == c {
            return Some(&map[i].1);
        }
        assert(rest.drop_first() =~= map@.subrange(i + 1, map@.len() as int));
        i = i + 1;
    }
    None
}

/// Verify with tolerance: as `verify_with_diffs` for the expectations, the
/// data compared while tolerating differences in the member names listed
/// for the concern; observed concerns that no expectation is for are not
/// reported.
pub fn verify_with_tolerance(
    observed: &[ConcernSnapshot],
    expected: &[ExpectedSnapshot],
    tolerance_fields: &Vec<(ConcernSymbol, Vec<String>)>,
) -> (r: DiffSet)
    ensures
        diff_views(r.diffs@) == tolerance_diffs(observed@, expected@, tolerance_fields@),
        r.is_valid == all_passing(diff_views(r.diffs@)),
        r.summary@ == summary_text(diff_views(r.diffs@)),
{
    let empty: Vec<String> = Vec::new();
    assert(texts(empty@) =~= Seq::<Seq<char>>::empty());
    let mut diffs: Vec<ValidationDiff> = Vec::new();
    let mut k: usize = 0;
    while k < expected.len()
        invariant
            k <= expected@.len(),
            texts(empty@) == Seq::<Seq<char>>::empty(),
            diff_views(diffs@) == tolerance_diffs(observed@, expected@.subrange(0, k as int), tolerance_fields@),
        decreases expected@.len() - k,
    {
        let ex = &expected[k];
        assert(expected@.subrange(0, k + 1).drop_last() =~= expected@.subrange(0, k as int));
        let ghost before = diff_views(diffs@);
        match find_observed_exec(observed, ex.symbol) {
            Some(i) => {
                let tol = match lookup_tolerance(tolerance_fields, ex.symbol) {
                    Some(v) => v,
                    None => &empty,
                };
                if !compare_with_tolerance(&observed[i].data, &ex.expectation, tol) {
                    let mut d = prefixed("Data mismatch for concern: ", ex.symbol.name());
                    d.append(" (with tolerance)");
                    let m = make_mismatch(&observed[i], ex, d, RuleSeverity::Error, Vec::new());
                    proof {
                        lemma_fields_view(Seq::<(String, JsonValue)>::empty());
                    }
                    push_diff(&mut diffs, m);
                }
            },
            None => {
                push_diff(&mut diffs, make_missing(ex, RuleSeverity::Error));
            },
        }
        assert(diff_views(diffs@) =~= before + tolerance_entry(observed@, *ex, tolerance_fields@));
        k = k + 1;
    }
    assert(expected@.subrange(0, expected@.len() as int) =~= expected@);
    DiffSet::new(diffs)
}

/// The outcomes of a comparison function are possible results of calling
/// it: for each expectation whose concern was observed, `outs` holds what
/// the function returned on the observed and expected data.
pub open spec fn comparison_outcomes<F: Fn(&JsonValue, &JsonValue) -> bool>(
    compare_fn: F,
    obs: Seq<ConcernSnapshot>,
    exs: Seq<ExpectedSnapshot>,
    outs: Seq<bool>,
) -> bool {
    &&& outs.len() == exs.len()
    &&& forall|k: int|
        0 <= k < exs.len() ==> match find_observed(obs, #[trigger] exs[k].symbol) {
            Some(i) => call_ensures(compare_fn, (&obs[i].data, &exs[k].expectation), outs[k]),
            None => true,
        }
}

/// The differences for each expectation in turn, where `outs` gives whether
/// the comparison accepted the data.
pub open spec fn custom_diffs(obs: Seq<ConcernSnapshot>, exs: Seq<ExpectedSnapshot>, outs: Seq<bool>) -> Seq<DiffView>
    decreases exs.len(),
{
    if exs.len() == 0 {
        Seq::empty()
    } else {
        let ex = exs.last();
        custom_diffs(obs, exs.drop_last(), outs.drop_last()) + match find_observed(obs, ex.symbol) {
            Some(i) => if !outs.last() {
                seq![mismatch_diff(obs[i], ex, mismatch_text(ex.symbol, " (custom comparison)"@), RuleSeverity::Error, Seq::empty())]
            } else {
                Seq::empty()
            },
            None => seq![missing_diff(ex, RuleSeverity::Error)],
        }
    }
}

/// Verify with a comparison function of the caller's: as
/// `verify_with_diffs` for the expectations, the data accepted where the
/// function returns true; observed concerns that no expectation is for are
/// not reported.
pub fn verify_with_custom_comparison<F: Fn(&JsonValue, &JsonValue) -> bool>(
    observed: &[ConcernSnapshot],
    expected: &[ExpectedSnapshot],
    compare_fn: F,
) -> (r: DiffSet)
    requires
        forall|a: &JsonValue, b: &JsonValue| compare_fn.requires((a, b)),
    ensures
        exists|outs: Seq<bool>|
            comparison_outcomes(compare_fn, observed@, expected@, outs) && diff_views(r.diffs@) == custom_diffs(
                observed@,
                expected@,
                outs,
            ),
        r.is_valid == all_passing(diff_views(r.diffs@)),
        r.summary@ == summary_text(diff_views(r.diffs@)),
{
    let mut diffs: Vec<ValidationDiff> = Vec::new();
    let ghost mut outs: Seq<bool> = Seq::empty();
    let mut k: usize = 0;
    while k < expected.len()
        invariant
            k <= expected@.len(),
            forall|a: &JsonValue, b: &JsonValue| compare_fn.requires((a, b)),
            comparison_outcomes(compare_fn, observed@, expected@.subrange(0, k as int), outs),
            diff_views(diffs@) == custom_diffs(observed@, expected@.subrange(0, k as int), outs),
        decreases expected@.len() - k,
    {
        let ex = &expected[k];
        let ghost pre = expected@.subrange(0, k as int);
        let ghost post = expected@.subrange(0, k + 1);
        assert(post.drop_last() =~= pre);
        let ghost before = diff_views(diffs@);
        let ghost old_outs = outs;
        match find_observed_exec(observed, ex.symbol) {
            Some(i) => {
                let accepted = compare_fn(&observed[i].data, &ex.expectation);
                proof {
                    outs = outs.push(accepted);
                }
                if !accepted {
                    let mut d = prefixed("Data mismatch for concern: ", ex.symbol.name());
                    d.append(" (custom comparison)");
                    let m = make_mismatch(&observed[i], ex, d, RuleSeverity::Error, Vec::new());
                    proof {
                        lemma_fields_view(Seq::<(String, JsonValue)>::empty());
                    }
                    push_diff(&mut diffs, m);
                }
            },
            None => {
                proof {
                    outs = outs.push(true);
                }
                push_diff(&mut diffs, make_missing(ex, RuleSeverity::Error));
            },
        }
        assert(outs.drop_last() =~= old_outs);
        assert forall|j: int| 0 <= j < post.len() implies match find_observed(observed@, #[trigger] post[j].symbol) {
            Some(i) => call_ensures(compare_fn, (&observed@[i].data, &post[j].expectation), outs[j]),
            None => true,
        } by {
            if j < pre.len() {
                assert(post[j] == pre[j]);
                assert(outs[j] == old_outs[j]);
            }
        }
        assert(diff_views(diffs@) =~= custom_diffs(observed@, post, outs));
        k = k + 1;
    }
    assert(expected@.subrange(0, expected@.len() as int) =~= expected@);
    DiffSet::new(diffs)
}

/// The JSON Patch operations, as JSON texts, that turn the observed data
/// into the expected data.
pub open spec fn patch_ops(obs: ConcernSnapshot, ex: ExpectedSnapshot) -> Seq<Seq<char>> {
    json_patch_ops_of(json_text(obs.data@), json_text(ex.expectation@))
}

/// A patch held as JSON: an array of its operations, each as its JSON text.
pub open spec fn ops_value(ops: Seq<Seq<char>>) -> JsonView {
    JsonView::Array(ops.map_values(|t: Seq<char>| JsonView::Str(t)))
}

/// The metadata of a patch difference: the patch, and the strategy where
/// one is named.
pub open spec fn patch_metadata(ops: Seq<Seq<char>>, strategy: Option<Seq<char>>) -> Seq<(Seq<char>, JsonView)> {
    match strategy {
        None => seq![("json_patch"@, ops_value(ops))],
        Some(s) => seq![("json_patch"@, ops_value(ops)), ("strategy"@, JsonView::Str(s))],
    }
}

/// The differences for one expectation, comparing by JSON Patch: a mismatch
/// when the patch has an operation, described with `label` and the number
/// of operations.
pub open spec fn patch_entry(
    obs: Seq<ConcernSnapshot>,
    ex: ExpectedSnapshot,
    label: Seq<char>,
    strategy: Option<Seq<char>>,
) -> Seq<DiffView> {
    match find_observed(obs, ex.symbol) {
        Some(i) => {
            let ops = patch_ops(obs[i], ex);
            if ops.len() > 0 {
                seq![
                    mismatch_diff(
                        obs[i],
                        ex,
                        mismatch_text(ex.symbol, " ("@ + label + ": "@ + decimal_text(ops.len()) + " operations)"@),
                        RuleSeverity::Error,
                        patch_metadata(ops, strategy),
                    ),
                ]
            } else {
                Seq::empty()
            }
        },
        None => seq![missing_diff(ex, RuleSeverity::Error)],
    }
}

/// The differences for each expectation in turn, comparing by JSON Patch.
pub open spec fn patch_diffs(
    obs: Seq<ConcernSnapshot>,
    exs: Seq<ExpectedSnapshot>,
    label: Seq<char>,
    strategy: Option<Seq<char>>,
) -> Seq<DiffView>
    decreases exs.len(),
{
    if exs.len() == 0 {
        Seq::empty()
    } else {
        patch_diffs(obs, exs.drop_last(), label, strategy) + patch_entry(obs, exs.last(), label, strategy)
    }
}

/// The patch operations of each expectation whose concern was observed, in
/// turn.
pub open spec fn all_patch_ops(obs: Seq<ConcernSnapshot>, exs: Seq<ExpectedSnapshot>) -> Seq<Seq<char>>
    decreases exs.len(),
{
    if exs.len() == 0 {
        Seq::empty()
    } else {
        all_patch_ops(obs, exs.drop_last()) + match find_observed(obs, exs.last().symbol) {
            Some(i) => patch_ops(obs[i], exs.last()),
            None => Seq::empty(),
        }
    }
}

/// Apply JSON Patch operations (each as JSON text) to a value: the
/// patched value as JSON text, or the error where an operation does not
/// parse or apply.
pub fn apply_json_patch(observed: &JsonValue, patch: &Vec<String>) -> (r: Result<String, String>)
    ensures
        match r {
            Ok(s) => json_patched_of(json_text(observed@), texts(patch@)) == Ok::<Seq<char>, Seq<char>>(s@),
            Err(e) => json_patched_of(json_text(observed@), texts(patch@)) == Err::<Seq<char>, Seq<char>>(e@),
        },
{
    let o = observed.to_json_text();
    assert(texts(patch@) =~= patch@.map_values(|s: String| s@));
    json_patch_apply(o.as_str(), patch)
}

/// The JSON Patch operations, as JSON texts, from one value to another.
pub fn generate_concern_patch(observed: &JsonValue, expected: &JsonValue) -> (r: Vec<String>)
    ensures
        texts(r@) == json_patch_ops_of(json_text(observed@), json_text(expected@)),
{
    let o = observed.to_json_text();
    let e = expected.to_json_text();
    let r = json_patch_ops(o.as_str(), e.as_str());
    assert(texts(r@) =~= r@.map_values(|s: String| s@));
    r
}

/// The JSON Patch operations, as JSON texts, that turn each observed
/// snapshot into its expectation, expectation after expectation; expected
/// concerns that were not observed contribute none.
pub fn generate_json_patch(observed: &[ConcernSnapshot], expected: &[ExpectedSnapshot]) -> (r: Vec<String>)
    ensures
        texts(r@) == all_patch_ops(observed@, expected@),
{
    let mut all: Vec<String> = Vec::new();
    let mut k: usize = 0;
    while k < expected.len()
        invariant
            k <= expected@.len(),
            texts(all@) == all_patch_ops(observed@, expected@.subrange(0, k as int)),
        decreases expected@.len() - k,
    {
        assert(expected@.subrange(0, k + 1).drop_last() =~= expected@.subrange(0, k as int));
        let ghost before = all@;
        match find_observed_exec(observed, expected[k].symbol) {
            Some(i) => {
                let mut ops = generate_concern_patch(&observed[i].data, &expected[k].expectation);
                let ghost ov = ops@;
                all.append(&mut ops);
                assert(texts(all@) =~= texts(before) + texts(ov));
            },
            None => {},
        }
        k = k + 1;
    }
    assert(expected@.subrange(0, expected@.len() as int) =~= expected@);
    all
}

/// The patch as a JSON array of operation texts.
fn ops_json(ops: &Vec<String>) -> (r: JsonValue)
    ensures
        r@ == ops_value(texts(ops@)),
{
    let mut items: Vec<JsonValue> = Vec::new();
    let mut i: usize = 0;
    while i < ops.len()
        invariant
            i <= ops@.len(),
            items@.len() == i,
            forall|j: int| 0 <= j < i ==> json_view(#[trigger] items@[j]) == JsonView::Str(ops@[j]@),
        decreases ops@.len() - i,
    {
        items.push(JsonValue::Str(ops[i].as_str().to_owned()));
        i = i + 1;
    }
    proof {
        lemma_items_view(items@);
    }
    assert(items_view(items@) =~= texts(ops@).map_values(|t: Seq<char>| JsonView::Str(t)));
    JsonValue::Array(items)
}

/// Append the differences for one expectation, comparing by JSON Patch.
pub(crate) fn push_patch_entry(
    observed: &[ConcernSnapshot],
    ex: &ExpectedSnapshot,
    label: &str,
    strategy: Option<&str>,
    out: &mut Vec<ValidationDiff>,
)
    ensures
        diff_views(final(out)@) == diff_views(old(out)@) + patch_entry(
            observed@,
            *ex,
            label@,
            match strategy {
                Some(t) => Some(t@),
                None => None,
            },
        ),
{
    let ghost before = diff_views(out@);
    let ghost sv = match strategy {
        Some(t) => Some(t@),
        None => None,
    };
    match find_observed_exec(observed, ex.symbol) {
        Some(i) => {
            let ops = generate_concern_patch(&observed[i].data, &ex.expectation);
            if ops.len() > 0 {
                let mut d = prefixed("Data mismatch for concern: ", ex.symbol.name());
                d.append(" (");
                d.append(label);
                d.append(": ");
                crate::text::push_decimal(&mut d, ops.len() as u64);
                d.append(" operations)");
                assert(texts(ops@).len() == ops@.len());
                assert(d@ =~= mismatch_text(
                    ex.symbol,
                    " ("@ + label@ + ": "@ + decimal_text(patch_ops(observed@[i as int], *ex).len()) + " operations)"@,
                ));
                let mut metadata: Vec<(String, JsonValue)> = Vec::new();
                metadata.push(("json_patch".to_owned(), ops_json(&ops)));
                match strategy {
                    Some(t) => {
                        metadata.push(("strategy".to_owned(), JsonValue::Str(t.to_owned())));
                    },
                    None => {},
                }
                proof {
                    lemma_fields_view(metadata@);
                }
                assert(fields_view(metadata@) =~= patch_metadata(texts(ops@), sv));
                let m = make_mismatch(&observed[i], ex, d, RuleSeverity::Error, metadata);
                push_diff(out, m);
            }
        },
        None => {
            push_diff(out, make_missing(ex, RuleSeverity::Error));
        },
    }
    assert(diff_views(out@) =~= before + patch_entry(observed@, *ex, label@, sv));
}

/// Verify with JSON Patch: as `verify_with_diffs` for the expectations, a
/// mismatch where the patch from the observed to the expected data has an
/// operation, carrying the patch in its metadata; observed concerns that no
/// expectation is for are not reported.
pub fn verify_with_json_patch(observed: &[ConcernSnapshot], expected: &[ExpectedSnapshot]) -> (r: DiffSet)
    ensures
        diff_views(r.diffs@) == patch_diffs(observed@, expected@, "JSON Patch"@, None),
        r.is_valid == all_passing(diff_views(r.diffs@)),
        r.summary@ == summary_text(diff_views(r.diffs@)),
{
    let mut diffs: Vec<ValidationDiff> = Vec::new();
    let mut k: usize = 0;
    while k < expected.len()
        invariant
            k <= expected@.len(),
            diff_views(diffs@) == patch_diffs(observed@, expected@.subrange(0, k as int), "JSON Patch"@, None),
        decreases expected@.len() - k,
    {
        assert(expected@.subrange(0, k + 1).drop_last() =~= expected@.subrange(0, k as int));
        push_patch_entry(observed, &expected[k], "JSON Patch", None, &mut diffs);
        k = k + 1;
    }
    assert(expected@.subrange(0, expected@.len() as int) =~= expected@);
    DiffSet::new(diffs)
}

/// A member found by name is one of the members, under that name.
proof fn lemma_member_found(fields: Seq<(Seq<char>, JsonView)>, key: Seq<char>)
    ensures
        member(fields, key) is Some ==> exists|j: int| 0 <= j < fields.len() && (#[trigger] fields[j]).0 == key,
        (exists|j: int| 0 <= j < fields.len() && (#[trigger] fields[j]).0 == key) ==> member(fields, key) is Some,
    decreases fields.len(),
{
    if fields.len() > 0 {
        let rest = fields.drop_first();
        lemma_member_found(rest, key);
        if member(fields, key) is Some && fields[0].0 != key {
            let j = choose|j: int| 0 <= j < rest.len() && (#[trigger] rest[j]).0 == key;
            assert(fields[j + 1] == rest[j]);
        }
        if exists|j: int| 0 <= j < fields.len() && (#[trigger] fields[j]).0 == key {
            let j = choose|j: int| 0 <= j < fields.len() && (#[trigger] fields[j]).0 == key;
            if j > 0 && fields[0].0 != key {
                assert(rest[j - 1] == fields[j]);
            }
        }
    }
}

/// Members match with tolerance only where each expected member is
/// tolerated or present among the observed members.
proof fn lemma_members_tolerant_present(
    ofs: Seq<(Seq<char>, JsonView)>,
    efs: Seq<(Seq<char>, JsonView)>,
    tolerated: Seq<Seq<char>>,
)
    requires
        members_tolerant(ofs, efs, tolerated),
    ensures
        forall|i: int|
            0 <= i < efs.len() ==> tolerated.contains((#[trigger] efs[i]).0) || exists|j: int|
                0 <= j < ofs.len() && (#[trigger] ofs[j]).0 == efs[i].0,
    decreases efs.len(),
{
    if efs.len() > 0 {
        let p = efs.drop_last();
        lemma_members_tolerant_present(ofs, p, tolerated);
        lemma_member_found(ofs, efs.last().0);
        assert forall|i: int| 0 <= i < efs.len() implies tolerated.contains((#[trigger] efs[i]).0) || exists|j: int|
            0 <= j < ofs.len() && (#[trigger] ofs[j]).0 == efs[i].0 by {
            if i < p.len() {
                assert(p[i] == efs[i]);
            }
        }
    }
}

/// Comparing with tolerance never overlooks a missing member: an observed
/// object matches an expected one only if every expected member that is not
/// tolerated has a namesake among the observed members, so an expected,
/// untolerated member absent from the observed object fails the comparison.
/// Arrays match only at equal length, and any other expected value only
/// when the observed value equals it.
pub proof fn law_tolerant_match_needs_expected_members(observed: JsonView, expected: JsonView, tolerated: Seq<Seq<char>>)
    ensures
        tolerant_eq(observed, expected, tolerated) ==> match (observed, expected) {
            (JsonView::Object(ofs), JsonView::Object(efs)) => forall|i: int|
                0 <= i < efs.len() ==> tolerated.contains((#[trigger] efs[i]).0) || exists|j: int|
                    0 <= j < ofs.len() && (#[trigger] ofs[j]).0 == efs[i].0,
            (JsonView::Array(ois), JsonView::Array(eis)) => ois.len() == eis.len(),
            (_, JsonView::Object(_)) => observed == expected,
            (_, JsonView::Array(_)) => observed == expected,
            _ => observed == expected,
        },
{
    if tolerant_eq(observed, expected, tolerated) {
        match (observed, expected) {
            (JsonView::Object(ofs), JsonView::Object(efs)) => {
                lemma_members_tolerant_present(ofs, efs, tolerated);
            },
            _ => {},
        }
    }
}

} // verus!
