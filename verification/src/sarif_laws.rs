//! What merging keeps: grouping reorders results without losing or adding
//! any, de-duplication leaves one result per key, and sorting orders the
//! results without losing or adding any.

use vstd::prelude::*;
use crate::text::seq_le;
use crate::sarif::{
    ResultView, group_key, group_keys, first_appearances, in_group, grouped, merged_by_property,
    dedup_key, dedup_keys, deduplicated, result_le, level_rank, insert_sorted, sorted_results,
    lemma_first_appearances_contains, lemma_first_appearances_distinct, MergeStrategy, strategy_merged,
    merge_pipeline,
};

verus! {

/// The results whose group under `prop` is one of `keys`.
pub open spec fn in_keys(prop: Seq<char>, keys: Seq<Seq<char>>) -> spec_fn(ResultView) -> bool {
    |r: ResultView| keys.contains(group_key(r, prop))
}

proof fn lemma_filter_disjoint_union(rs: Seq<ResultView>, p: spec_fn(ResultView) -> bool, q: spec_fn(ResultView) -> bool)
    requires
        forall|r: ResultView| !(#[trigger] p(r) && q(r)),
    ensures
        rs.filter(p).to_multiset().add(rs.filter(q).to_multiset()) == rs.filter(
            |r: ResultView| p(r) || q(r),
        ).to_multiset(),
    decreases rs.len(),
{
    broadcast use vstd::seq_lib::group_to_multiset_ensures;
    broadcast use vstd::multiset::group_multiset_axioms;

    let pq = |r: ResultView| p(r) || q(r);
    if rs.len() == 0 {
        assert(rs.filter(p) =~= Seq::<ResultView>::empty());
        assert(rs.filter(q) =~= Seq::<ResultView>::empty());
        assert(rs.filter(pq) =~= Seq::<ResultView>::empty());
        assert(rs.filter(p).to_multiset().add(rs.filter(q).to_multiset()) =~= rs.filter(pq).to_multiset());
    } else {
        let s = rs.drop_last();
        let x = rs.last();
        assert(rs =~= s.push(x));
        lemma_filter_disjoint_union(s, p, q);
        s.lemma_filter_push(x, p);
        s.lemma_filter_push(x, q);
        s.lemma_filter_push(x, pq);
        assert(rs.filter(p).to_multiset().add(rs.filter(q).to_multiset()) =~= rs.filter(pq).to_multiset());
    }
}

proof fn lemma_filter_all(rs: Seq<ResultView>, p: spec_fn(ResultView) -> bool)
    requires
        forall|i: int| 0 <= i < rs.len() ==> #[trigger] p(rs[i]),
    ensures
        rs.filter(p) == rs,
    decreases rs.len(),
{
    if rs.len() > 0 {
        let s = rs.drop_last();
        assert(rs =~= s.push(rs.last()));
        assert forall|i: int| 0 <= i < s.len() implies #[trigger] p(s[i]) by {
            assert(s[i] == rs[i]);
        }
        lemma_filter_all(s, p);
        s.lemma_filter_push(rs.last(), p);
    } else {
        assert(rs.filter(p) =~= rs);
    }
}

proof fn lemma_grouped_multiset(rs: Seq<ResultView>, keys: Seq<Seq<char>>, prop: Seq<char>)
    requires
        keys.no_duplicates(),
    ensures
        grouped(rs, keys, prop).to_multiset() == rs.filter(in_keys(prop, keys)).to_multiset(),
    decreases keys.len(),
{
    broadcast use vstd::seq_lib::group_to_multiset_ensures;
    broadcast use vstd::multiset::group_multiset_axioms;

    if keys.len() == 0 {
        assert(rs.filter(in_keys(prop, keys)) =~= Seq::<ResultView>::empty()) by {
            if rs.filter(in_keys(prop, keys)).len() > 0 {
                rs.lemma_filter_pred(in_keys(prop, keys), 0);
            }
        }
        assert(grouped(rs, keys, prop) =~= Seq::<ResultView>::empty());
    } else {
        let ks = keys.drop_last();
        let k = keys.last();
        assert(ks.no_duplicates()) by {
            assert forall|a: int, b: int| 0 <= a < ks.len() && 0 <= b < ks.len() && a != b implies ks[a] != ks[b] by {
                assert(ks[a] == keys[a] && ks[b] == keys[b]);
            }
        }
        lemma_grouped_multiset(rs, ks, prop);
        assert forall|r: ResultView| !(#[trigger] in_keys(prop, ks)(r) && in_group(prop, k)(r)) by {
            if in_keys(prop, ks)(r) && in_group(prop, k)(r) {
                let j = choose|j: int| 0 <= j < ks.len() && ks[j] == group_key(r, prop);
                assert(keys[j] == keys[keys.len() - 1]);
            }
        }
        lemma_filter_disjoint_union(rs, in_keys(prop, ks), in_group(prop, k));
        let both = |r: ResultView| in_keys(prop, ks)(r) || in_group(prop, k)(r);
        assert forall|r: ResultView| #[trigger] both(r) == in_keys(prop, keys)(r) by {
            let g = group_key(r, prop);
            if ks.contains(g) {
                let j = choose|j: int| 0 <= j < ks.len() && ks[j] == g;
                assert(keys[j] == g);
            }
            if g == k {
                assert(keys[keys.len() - 1] == g);
            }
            if keys.contains(g) && g != k {
                let j = choose|j: int| 0 <= j < keys.len() && keys[j] == g;
                assert(ks[j] == g);
            }
        }
        assert(both =~= in_keys(prop, keys));
        vstd::seq_lib::lemma_multiset_commutative(grouped(rs, ks, prop), rs.filter(in_group(prop, k)));
    }
}

/// Merging by a property neither loses nor adds a result: the merged results
/// are the input results in another order.
pub proof fn law_merge_by_property_permutes(rs: Seq<ResultView>, prop: Seq<char>)
    ensures
        merged_by_property(rs, prop).to_multiset() == rs.to_multiset(),
{
    let keys = first_appearances(group_keys(rs, prop));
    lemma_first_appearances_distinct(group_keys(rs, prop));
    lemma_grouped_multiset(rs, keys, prop);
    assert forall|i: int| 0 <= i < rs.len() implies #[trigger] in_keys(prop, keys)(rs[i]) by {
        assert(group_keys(rs, prop)[i] == group_key(rs[i], prop));
        lemma_first_appearances_contains(group_keys(rs, prop), group_key(rs[i], prop));
    }
    lemma_filter_all(rs, in_keys(prop, keys));
}

/// De-duplication keeps one result per key: no two kept results share a
/// rule, message and level, every key of the input is kept, and each kept
/// result is one of the input.
pub proof fn law_deduplicated_unique(rs: Seq<ResultView>)
    ensures
        dedup_keys(deduplicated(rs)).no_duplicates(),
        forall|i: int| 0 <= i < rs.len() ==> dedup_keys(deduplicated(rs)).contains(#[trigger] dedup_key(rs[i])),
        forall|i: int| 0 <= i < deduplicated(rs).len() ==> rs.contains(#[trigger] deduplicated(rs)[i]),
    decreases rs.len(),
{
    if rs.len() > 0 {
        let s = rs.drop_last();
        let x = rs.last();
        law_deduplicated_unique(s);
        let d = deduplicated(s);
        let dk = dedup_keys(d);
        if !dk.contains(dedup_key(x)) {
            let e = d.push(x);
            assert(dedup_keys(e) =~= dk.push(dedup_key(x)));
            let ek = dedup_keys(e);
            assert forall|a: int, b: int| 0 <= a < ek.len() && 0 <= b < ek.len() && a != b implies ek[a] != ek[b] by {
                if a < dk.len() {
                    assert(ek[a] == dk[a]);
                }
                if b < dk.len() {
                    assert(ek[b] == dk[b]);
                }
            }
            assert forall|i: int| 0 <= i < rs.len() implies ek.contains(#[trigger] dedup_key(rs[i])) by {
                if i < s.len() {
                    assert(s[i] == rs[i]);
                    assert(dk.contains(dedup_key(s[i])));
                    let j = choose|j: int| 0 <= j < dk.len() && dk[j] == dedup_key(s[i]);
                    assert(ek[j] == dk[j]);
                } else {
                    assert(ek[dk.len() as int] == dedup_key(x));
                }
            }
            assert forall|i: int| 0 <= i < e.len() implies rs.contains(#[trigger] e[i]) by {
                if i < d.len() {
                    assert(e[i] == d[i]);
                    assert(s.contains(d[i]));
                    let j = choose|j: int| 0 <= j < s.len() && s[j] == d[i];
                    assert(rs[j] == s[j]);
                } else {
                    assert(rs[rs.len() - 1] == e[i]);
                }
            }
        } else {
            assert forall|i: int| 0 <= i < rs.len() implies dk.contains(#[trigger] dedup_key(rs[i])) by {
                if i < s.len() {
                    assert(s[i] == rs[i]);
                    assert(dk.contains(dedup_key(s[i])));
                }
            }
            assert forall|i: int| 0 <= i < d.len() implies rs.contains(#[trigger] d[i]) by {
                assert(s.contains(d[i]));
                let j = choose|j: int| 0 <= j < s.len() && s[j] == d[i];
                assert(rs[j] == s[j]);
            }
        }
    }
}

proof fn lemma_seq_le_total(a: Seq<char>, b: Seq<char>)
    ensures
        seq_le(a, b) || seq_le(b, a),
    decreases a.len(),
{
    if a.len() > 0 && b.len() > 0 && a[0] as u32 == b[0] as u32 {
        lemma_seq_le_total(a.drop_first(), b.drop_first());
    }
}

proof fn lemma_seq_le_trans(a: Seq<char>, b: Seq<char>, c: Seq<char>)
    requires
        seq_le(a, b),
        seq_le(b, c),
    ensures
        seq_le(a, c),
    decreases a.len(),
{
    if a.len() > 0 && b.len() > 0 && c.len() > 0 && a[0] as u32 == b[0] as u32 && b[0] as u32 == c[0] as u32 {
        lemma_seq_le_trans(a.drop_first(), b.drop_first(), c.drop_first());
    }
}

proof fn lemma_result_le_total(a: ResultView, b: ResultView)
    ensures
        result_le(a, b) || result_le(b, a),
{
    lemma_seq_le_total(a.rule_id, b.rule_id);
}

proof fn lemma_result_le_trans(a: ResultView, b: ResultView, c: ResultView)
    requires
        result_le(a, b),
        result_le(b, c),
    ensures
        result_le(a, c),
{
    if level_rank(a.level) == level_rank(b.level) && level_rank(b.level) == level_rank(c.level) {
        lemma_seq_le_trans(a.rule_id, b.rule_id, c.rule_id);
    }
}

/// Every result comes no later than every result after it.
pub open spec fn is_sorted(s: Seq<ResultView>) -> bool {
    forall|i: int, j: int| 0 <= i < j < s.len() ==> result_le(#[trigger] s[i], #[trigger] s[j])
}

proof fn lemma_insert_sorted_multiset(s: Seq<ResultView>, x: ResultView)
    ensures
        insert_sorted(s, x).to_multiset() == s.to_multiset().insert(x),
    decreases s.len(),
{
    broadcast use vstd::seq_lib::group_to_multiset_ensures;
    broadcast use vstd::multiset::group_multiset_axioms;

    if s.len() == 0 {
        assert(seq![x] =~= s.push(x));
    } else if result_le(s.last(), x) {
    } else {
        let t = s.drop_last();
        assert(s =~= t.push(s.last()));
        lemma_insert_sorted_multiset(t, x);
        assert(insert_sorted(s, x).to_multiset() =~= s.to_multiset().insert(x));
    }
}

proof fn lemma_insert_sorted_sorted(s: Seq<ResultView>, x: ResultView)
    requires
        is_sorted(s),
    ensures
        is_sorted(insert_sorted(s, x)),
    decreases s.len(),
{
    broadcast use vstd::seq_lib::group_to_multiset_ensures;
    broadcast use vstd::multiset::group_multiset_axioms;

    if s.len() == 0 {
    } else if result_le(s.last(), x) {
        let e = s.push(x);
        assert forall|i: int, j: int| 0 <= i < j < e.len() implies result_le(#[trigger] e[i], #[trigger] e[j]) by {
            if j == s.len() {
                if i < s.len() - 1 {
                    assert(result_le(s[i], s[s.len() - 1]));
                    lemma_result_le_trans(s[i], s.last(), x);
                }
            } else {
                assert(e[i] == s[i] && e[j] == s[j]);
            }
        }
    } else {
        let t = s.drop_last();
        assert(is_sorted(t)) by {
            assert forall|i: int, j: int| 0 <= i < j < t.len() implies result_le(#[trigger] t[i], #[trigger] t[j]) by {
                assert(t[i] == s[i] && t[j] == s[j]);
            }
        }
        lemma_insert_sorted_sorted(t, x);
        let u = insert_sorted(t, x);
        lemma_insert_sorted_multiset(t, x);
        lemma_result_le_total(s.last(), x);
        assert forall|i: int| 0 <= i < u.len() implies result_le(#[trigger] u[i], s.last()) by {
            assert(u.to_multiset().count(u[i]) > 0);
            if u[i] != x {
                assert(t.to_multiset().count(u[i]) > 0);
                assert(t.contains(u[i]));
                let k = choose|k: int| 0 <= k < t.len() && t[k] == u[i];
                assert(result_le(s[k], s[s.len() - 1]));
            }
        }
        let e = u.push(s.last());
        assert forall|i: int, j: int| 0 <= i < j < e.len() implies result_le(#[trigger] e[i], #[trigger] e[j]) by {
            if j == u.len() {
                assert(e[i] == u[i]);
            } else {
                assert(e[i] == u[i] && e[j] == u[j]);
            }
        }
    }
}

/// Sorting orders the results by level rank, then rule identifier, and
/// neither loses nor adds a result.
pub proof fn law_sorted_results(rs: Seq<ResultView>)
    ensures
        is_sorted(sorted_results(rs)),
        sorted_results(rs).to_multiset() == rs.to_multiset(),
    decreases rs.len(),
{
    broadcast use vstd::seq_lib::group_to_multiset_ensures;

    if rs.len() > 0 {
        let s = rs.drop_last();
        law_sorted_results(s);
        lemma_insert_sorted_sorted(sorted_results(s), rs.last());
        lemma_insert_sorted_multiset(sorted_results(s), rs.last());
        assert(rs =~= s.push(rs.last()));
    } else {
        assert(sorted_results(rs) =~= rs);
    }
}

/// A merge without de-duplication, by any strategy but severity, neither
/// loses nor adds a result: the merged log holds the results of all the
/// logs, in another order.
pub proof fn law_merge_keeps_every_result(rs: Seq<ResultView>, strategy: MergeStrategy, sort: bool)
    requires
        !(strategy is BySeverity),
    ensures
        merge_pipeline(rs, strategy, false, sort).to_multiset() == rs.to_multiset(),
{
    let m = strategy_merged(rs, strategy);
    match strategy {
        MergeStrategy::ByConcern => law_merge_by_property_permutes(rs, "concern"@),
        MergeStrategy::ByContract => law_merge_by_property_permutes(rs, "contract"@),
        MergeStrategy::ByHookEvent => law_merge_by_property_permutes(rs, "hook_event"@),
        _ => {},
    }
    if sort {
        law_sorted_results(m);
    }
}

/// A merge with de-duplication leaves one result per key, sorted or not:
/// no two merged results share a rule, message and level, and the key of
/// every result the strategy arranged is kept.
pub proof fn law_merge_deduplicated_unique(rs: Seq<ResultView>, strategy: MergeStrategy, sort: bool)
    ensures
        forall|i: int, j: int|
            0 <= i < j < merge_pipeline(rs, strategy, true, sort).len() ==> dedup_key(
                #[trigger] merge_pipeline(rs, strategy, true, sort)[i],
            ) != dedup_key(#[trigger] merge_pipeline(rs, strategy, true, sort)[j]),
        forall|k: int|
            0 <= k < strategy_merged(rs, strategy).len() ==> dedup_keys(merge_pipeline(rs, strategy, true, sort)).contains(
                #[trigger] dedup_key(strategy_merged(rs, strategy)[k]),
            ),
{
    broadcast use vstd::seq_lib::group_to_multiset_ensures;

    let m = strategy_merged(rs, strategy);
    let t = deduplicated(m);
    law_deduplicated_unique(m);
    let tk = dedup_keys(t);
    assert forall|a: int, b: int| 0 <= a < b < t.len() implies dedup_key(t[a]) != dedup_key(t[b]) by {
        assert(tk[a] == dedup_key(t[a]) && tk[b] == dedup_key(t[b]));
    }
    if sort {
        let u = sorted_results(t);
        law_sorted_results(t);
        assert(t.no_duplicates());
        t.lemma_multiset_has_no_duplicates();
        u.lemma_multiset_has_no_duplicates_conv();
        assert forall|i: int, j: int| 0 <= i < j < u.len() implies dedup_key(u[i]) != dedup_key(u[j]) by {
            assert(u.to_multiset().count(u[i]) > 0 && u.to_multiset().count(u[j]) > 0);
            assert(t.contains(u[i]) && t.contains(u[j]));
            let a = choose|a: int| 0 <= a < t.len() && t[a] == u[i];
            let b = choose|b: int| 0 <= b < t.len() && t[b] == u[j];
            assert(u[i] != u[j]);
            if a < b {
                assert(dedup_key(t[a]) != dedup_key(t[b]));
            } else {
                assert(dedup_key(t[b]) != dedup_key(t[a]));
            }
        }
        assert forall|k: int| 0 <= k < m.len() implies dedup_keys(u).contains(#[trigger] dedup_key(m[k])) by {
            assert(tk.contains(dedup_key(m[k])));
            let a = choose|a: int| 0 <= a < tk.len() && tk[a] == dedup_key(m[k]);
            assert(t.to_multiset().count(t[a]) > 0);
            assert(u.contains(t[a]));
            let b = choose|b: int| 0 <= b < u.len() && u[b] == t[a];
            assert(dedup_keys(u)[b] == dedup_key(m[k]));
        }
    }
}

} // verus!
