//! What verification promises across its functions: it succeeds exactly when
//! every expectation is met, its detailed form reports as many problems as
//! its plain form, and a set of differences is valid exactly when none of
//! them is an error.

use vstd::prelude::*;
use crate::symbols::RuleSeverity;
use crate::types::{
    ConcernSnapshot, ExpectedSnapshot, DiffView, all_passing, error_pred, error_diffs, warning_diffs, info_diffs,
    summary_text,
};
use crate::text::decimal_text;
use crate::snapshot_verify::{find_observed, verify_messages, verify_entry, equality_diffs, equality_entry};

verus! {

/// Expectation `ex` is met: its concern was observed, with equal data.
pub open spec fn expectation_met(obs: Seq<ConcernSnapshot>, ex: ExpectedSnapshot) -> bool {
    match find_observed(obs, ex.symbol) {
        Some(i) => obs[i].data@ == ex.expectation@,
        None => false,
    }
}

/// `verify` reports no problem exactly when every expectation is met.
pub proof fn law_verify_succeeds_iff_all_met(obs: Seq<ConcernSnapshot>, exs: Seq<ExpectedSnapshot>)
    ensures
        verify_messages(obs, exs).len() == 0 <==> forall|k: int| 0 <= k < exs.len() ==> expectation_met(obs, #[trigger] exs[k]),
    decreases exs.len(),
{
    if exs.len() > 0 {
        let pre = exs.drop_last();
        law_verify_succeeds_iff_all_met(obs, pre);
        assert(verify_entry(obs, exs.last()).len() == 0 <==> expectation_met(obs, exs.last()));
        if forall|k: int| 0 <= k < exs.len() ==> expectation_met(obs, #[trigger] exs[k]) {
            assert forall|k: int| 0 <= k < pre.len() implies expectation_met(obs, #[trigger] pre[k]) by {
                assert(pre[k] == exs[k]);
            }
            assert(expectation_met(obs, exs[exs.len() - 1]));
        }
        if verify_messages(obs, exs).len() == 0 {
            assert forall|k: int| 0 <= k < exs.len() implies expectation_met(obs, #[trigger] exs[k]) by {
                if k < pre.len() {
                    assert(pre[k] == exs[k]);
                }
            }
        }
    }
}

/// The detailed comparison reports one difference for each problem that the
/// plain `verify` reports, expectation by expectation.
pub proof fn law_diffs_match_messages(obs: Seq<ConcernSnapshot>, exs: Seq<ExpectedSnapshot>)
    ensures
        equality_diffs(obs, exs).len() == verify_messages(obs, exs).len(),
    decreases exs.len(),
{
    if exs.len() > 0 {
        law_diffs_match_messages(obs, exs.drop_last());
        assert(equality_entry(obs, exs.last(), RuleSeverity::Error).len() == verify_entry(obs, exs.last()).len());
    }
}

/// A set of differences is valid exactly when none of them is an error.
pub proof fn law_valid_iff_no_errors(diffs: Seq<DiffView>)
    ensures
        all_passing(diffs) <==> error_diffs(diffs).len() == 0,
{
    let p = error_pred();
    if all_passing(diffs) {
        if diffs.filter(p).len() > 0 {
            diffs.lemma_filter_pred(p, 0);
            let x = diffs.filter(p)[0];
            assert(diffs.filter(p).contains(x));
            diffs.lemma_filter_contains_rev(p, x);
            let i = choose|i: int| 0 <= i < diffs.len() && diffs[i] == x;
            assert(crate::types::is_passing(diffs[i].severity));
        }
    } else {
        let i = choose|i: int| 0 <= i < diffs.len() && !crate::types::is_passing(#[trigger] diffs[i].severity);
        diffs.lemma_filter_contains(p, i);
    }
}

/// Every difference is exactly one of an error, a warning or an
/// informational difference.
proof fn lemma_severity_partition(diffs: Seq<DiffView>)
    ensures
        error_diffs(diffs).len() + warning_diffs(diffs).len() + info_diffs(diffs).len() == diffs.len(),
    decreases diffs.len(),
{
    reveal_with_fuel(Seq::<_>::filter, 1);
    if diffs.len() > 0 {
        lemma_severity_partition(diffs.drop_last());
    }
}

/// What a set of differences reports: it is valid exactly when it has no
/// errors; its errors, warnings and informational differences together
/// are all its differences; and its summary says it passed when valid, and
/// otherwise how many differences it has.
pub proof fn law_diff_set_report(diffs: Seq<DiffView>)
    ensures
        all_passing(diffs) <==> error_diffs(diffs).len() == 0,
        error_diffs(diffs).len() + warning_diffs(diffs).len() + info_diffs(diffs).len() == diffs.len(),
        summary_text(diffs) == if error_diffs(diffs).len() == 0 {
            "Validation passed"@
        } else {
            "Validation failed with "@ + decimal_text(diffs.len()) + " differences"@
        },
{
    law_valid_iff_no_errors(diffs);
    lemma_severity_partition(diffs);
}

} // verus!
