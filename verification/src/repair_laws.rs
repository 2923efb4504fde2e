//! Laws of repair planning: what the triage officer's cache gives back, and
//! when a plan's actions wait on each other in a circle.

use vstd::prelude::*;
use crate::repair_core::{RepairAction, action_ids, deps_of, waits_within, has_circular_dependency, first_dangling, first_dangling_action};
use crate::repair_planning::{
    PlanView, AnalysisStrategy, FixCategory, ViolationView, strategy_findings, all_categories, investigation,
    selected_pipeline, pipeline_fixers, default_fixers, formatting_fixers, linting_fixers, structural_fixers,
    configuration_fixers,
};
use crate::text::seq_contains_seq;
use crate::sarif::texts;
use crate::sarif_roles::{first_key_index, upsert, law_lookup_after_upsert};

verus! {

/// Planning twice for the same key gives the same plan: whatever the first
/// `create_plan` returned (a cached plan, or one made afresh and cached) is
/// what the officer's cache holds under that key afterwards, so a second
/// call finds it there and returns it unchanged.
pub proof fn law_repeated_plan_is_cached(
    before: Seq<(Seq<char>, PlanView)>,
    key: Seq<char>,
    first: PlanView,
    after: Seq<(Seq<char>, PlanView)>,
)
    requires
        match first_key_index(before, key) {
            Some(i) => first == before[i].1 && after == before,
            None => after == upsert(before, key, first),
        },
    ensures
        first_key_index(after, key) matches Some(i) && after[i].1 == first,
{
    crate::sarif_roles::lemma_first_key_found(before, key);
    law_lookup_after_upsert(before, key, first);
}

/// The dependencies of the last action named `id` are those that `deps_of`
/// gives for `id`.
proof fn lemma_deps_of_last(actions: Seq<RepairAction>, i: int)
    requires
        0 <= i < actions.len(),
        forall|j: int| i < j < actions.len() ==> #[trigger] actions[j].id@ != actions[i].id@,
    ensures
        deps_of(actions, actions[i].id@) == texts(actions[i].dependencies@),
    decreases actions.len(),
{
    if i < actions.len() - 1 {
        assert(actions.last() == actions[actions.len() - 1]);
        assert forall|j: int| i < j < actions.len() - 1 implies #[trigger] actions.drop_last()[j].id@ != actions.drop_last()[i].id@ by {
            assert(actions.drop_last()[j] == actions[j]);
        }
        lemma_deps_of_last(actions.drop_last(), i);
        assert(actions.drop_last()[i] == actions[i]);
    }
}

/// An action that depends on itself makes the plan circular, so that
/// validation reports a circular dependency (where it is the last action
/// with its identifier, whose dependencies are the ones that count).
pub proof fn law_self_dependency_is_circular(actions: Seq<RepairAction>, i: int)
    requires
        0 <= i < actions.len(),
        forall|j: int| i < j < actions.len() ==> #[trigger] actions[j].id@ != actions[i].id@,
        texts(actions[i].dependencies@).contains(actions[i].id@),
    ensures
        has_circular_dependency(actions),
{
    let x = actions[i].id@;
    lemma_deps_of_last(actions, i);
    let group = set![x];
    assert(action_ids(actions)[i] == x);
    assert(action_ids(actions).contains(x));
    assert(group.contains(x));
    assert forall|y: Seq<char>| #[trigger] group.contains(y) implies action_ids(actions).contains(y) && exists|z: Seq<char>|
        #[trigger] deps_of(actions, y).contains(z) && group.contains(z) by {
        assert(y == x);
        assert(deps_of(actions, y).contains(x));
    }
    assert(waits_within(actions, group));
}

/// Without dependencies no action names another.
proof fn lemma_no_deps(actions: Seq<RepairAction>, x: Seq<char>)
    requires
        forall|j: int| 0 <= j < actions.len() ==> (#[trigger] actions[j]).dependencies@.len() == 0,
    ensures
        deps_of(actions, x).len() == 0,
    decreases actions.len(),
{
    if actions.len() > 0 {
        assert(actions.last() == actions[actions.len() - 1]);
        assert(texts(actions.last().dependencies@).len() == 0);
        assert forall|j: int| 0 <= j < actions.len() - 1 implies (#[trigger] actions.drop_last()[j]).dependencies@.len() == 0 by {
            assert(actions.drop_last()[j] == actions[j]);
        }
        lemma_no_deps(actions.drop_last(), x);
    }
}

/// Actions without dependencies have no dangling reference.
proof fn lemma_no_dangling(ids: Seq<Seq<char>>, actions: Seq<RepairAction>)
    requires
        forall|j: int| 0 <= j < actions.len() ==> (#[trigger] actions[j]).dependencies@.len() == 0,
    ensures
        first_dangling_action(ids, actions) is None,
    decreases actions.len(),
{
    if actions.len() > 0 {
        assert(texts(actions[0].dependencies@).len() == 0);
        assert(first_dangling(ids, texts(actions[0].dependencies@)) is None);
        assert forall|j: int| 0 <= j < actions.len() - 1 implies (#[trigger] actions.drop_first()[j]).dependencies@.len() == 0 by {
            assert(actions.drop_first()[j] == actions[j + 1]);
        }
        lemma_no_dangling(ids, actions.drop_first());
    }
}

/// A plan whose actions have no dependencies is neither circular nor refers
/// to a missing action: only a required action without a fixer can make it
/// invalid.
pub proof fn law_independent_actions_are_ordered(actions: Seq<RepairAction>)
    requires
        forall|j: int| 0 <= j < actions.len() ==> (#[trigger] actions[j]).dependencies@.len() == 0,
    ensures
        !has_circular_dependency(actions),
        first_dangling_action(action_ids(actions), actions) is None,
{
    lemma_no_dangling(action_ids(actions), actions);
    if has_circular_dependency(actions) {
        let group = choose|group: Set<Seq<char>>| #[trigger] waits_within(actions, group);
        let x = choose|x: Seq<char>| group.contains(x);
        assert(group.contains(x));
        lemma_no_deps(actions, x);
        let y = choose|y: Seq<char>| #[trigger] deps_of(actions, x).contains(y) && group.contains(y);
        assert(deps_of(actions, x).contains(y));
    }
}

/// Which fix categories one strategy can find for a violation: formatting
/// only from a message that speaks of formatting or a `format` contract,
/// linting only from one that speaks of linting or a `lint` contract,
/// structure only from a `structure` contract, configuration only from a
/// message that speaks of configuration; and the rule strategy always finds
/// the category its contract names.
proof fn lemma_strategy_categories(s: AnalysisStrategy, v: ViolationView)
    ensures
        strategy_findings(s, v).1.contains(FixCategory::Formatting) ==> seq_contains_seq(v.message, "format"@)
            || v.contract == "format"@,
        strategy_findings(s, v).1.contains(FixCategory::Linting) ==> seq_contains_seq(v.message, "lint"@)
            || v.contract == "lint"@,
        strategy_findings(s, v).1.contains(FixCategory::Structure) ==> v.contract == "structure"@,
        strategy_findings(s, v).1.contains(FixCategory::Configuration) ==> seq_contains_seq(v.message, "config"@),
        s == AnalysisStrategy::RuleViolation && v.contract == "format"@ ==> strategy_findings(s, v).1 == seq![
            FixCategory::Formatting,
        ],
        s == AnalysisStrategy::RuleViolation && v.contract == "lint"@ ==> strategy_findings(s, v).1 == seq![
            FixCategory::Linting,
        ],
        s == AnalysisStrategy::RuleViolation && v.contract == "structure"@ ==> strategy_findings(s, v).1 == seq![
            FixCategory::Structure,
        ],
        s == AnalysisStrategy::RuleViolation && v.contract != "format"@ && v.contract != "lint"@ && v.contract
            != "structure"@ ==> strategy_findings(s, v).1 == seq![FixCategory::Content],
{
    reveal_strlit("format");
    reveal_strlit("lint");
    reveal_strlit("structure");
    assert("format"@.len() == 6 && "lint"@.len() == 4 && "structure"@.len() == 9);
    let k = strategy_findings(s, v).1;
    match s {
        AnalysisStrategy::PatternMatching => {
            let f: Seq<FixCategory> = if seq_contains_seq(v.message, "format"@) { seq![FixCategory::Formatting] } else { Seq::empty() };
            let l: Seq<FixCategory> = if seq_contains_seq(v.message, "lint"@) { seq![FixCategory::Linting] } else { Seq::empty() };
            let c: Seq<FixCategory> = if seq_contains_seq(v.message, "config"@) { seq![FixCategory::Configuration] } else { Seq::empty() };
            assert(k =~= f + l + c);
            assert forall|x: FixCategory| k.contains(x) implies f.contains(x) || l.contains(x) || c.contains(x) by {
                let i = choose|i: int| 0 <= i < k.len() && k[i] == x;
                if i < f.len() {
                    assert(f[i] == x);
                } else if i < f.len() + l.len() {
                    assert(l[i - f.len()] == x);
                } else {
                    assert(c[i - f.len() - l.len()] == x);
                }
            }
        },
        AnalysisStrategy::RuleViolation => {},
        AnalysisStrategy::ToolOutput => {
            let t: Seq<FixCategory> = if seq_contains_seq(v.message, "trunk"@) { seq![FixCategory::ToolSpecific] } else { Seq::empty() };
            let c: Seq<FixCategory> = if seq_contains_seq(v.message, "cargo"@) { seq![FixCategory::ToolSpecific] } else { Seq::empty() };
            assert(k =~= t + c);
            assert forall|x: FixCategory| k.contains(x) implies x == FixCategory::ToolSpecific by {
                let i = choose|i: int| 0 <= i < k.len() && k[i] == x;
                if i < t.len() {
                    assert(t[i] == x);
                } else {
                    assert(c[i - t.len()] == x);
                }
            }
        },
    }
}

/// A category is among those of several strategies exactly when one of
/// them finds it.
proof fn lemma_all_categories_contains(ss: Seq<AnalysisStrategy>, v: ViolationView, x: FixCategory)
    ensures
        all_categories(ss, v).contains(x) <==> exists|i: int| 0 <= i < ss.len() && strategy_findings(#[trigger] ss[i], v).1.contains(x),
    decreases ss.len(),
{
    if ss.len() > 0 {
        let p = ss.drop_last();
        lemma_all_categories_contains(p, v, x);
        let a = all_categories(p, v);
        let b = strategy_findings(ss.last(), v).1;
        assert(all_categories(ss, v) == a + b);
        if (a + b).contains(x) {
            let i = choose|i: int| 0 <= i < (a + b).len() && (a + b)[i] == x;
            if i < a.len() {
                assert(a[i] == x);
                let j = choose|j: int| 0 <= j < p.len() && strategy_findings(#[trigger] p[j], v).1.contains(x);
                assert(ss[j] == p[j]);
            } else {
                assert(b[i - a.len()] == x);
                assert(strategy_findings(ss[ss.len() - 1], v).1.contains(x));
            }
        }
        if exists|i: int| 0 <= i < ss.len() && strategy_findings(#[trigger] ss[i], v).1.contains(x) {
            let i = choose|i: int| 0 <= i < ss.len() && strategy_findings(#[trigger] ss[i], v).1.contains(x);
            if i < p.len() {
                assert(p[i] == ss[i]);
                let j = choose|j: int| 0 <= j < a.len() && a[j] == x;
                assert((a + b)[j] == x);
            } else {
                let j = choose|j: int| 0 <= j < b.len() && b[j] == x;
                assert((a + b)[a.len() + j] == x);
            }
        }
    }
}

/// An investigation finds a fix category only from what the violation
/// says: formatting only where its message speaks of formatting or its
/// contract is `format`, linting only where its message speaks of linting or
/// its contract is `lint`, structure only for a `structure` contract, and
/// configuration only where its message speaks of configuration. Where the
/// rule strategy is among the investigator's, a `format`, `lint` or
/// `structure` contract always yields its own category.
pub proof fn law_investigation_categories_follow_the_violation(ss: Seq<AnalysisStrategy>, v: ViolationView)
    ensures
        investigation(ss, v).fix_categories.contains(FixCategory::Formatting) ==> seq_contains_seq(v.message, "format"@)
            || v.contract == "format"@,
        investigation(ss, v).fix_categories.contains(FixCategory::Linting) ==> seq_contains_seq(v.message, "lint"@)
            || v.contract == "lint"@,
        investigation(ss, v).fix_categories.contains(FixCategory::Structure) ==> v.contract == "structure"@,
        investigation(ss, v).fix_categories.contains(FixCategory::Configuration) ==> seq_contains_seq(v.message, "config"@),
        ss.contains(AnalysisStrategy::RuleViolation) && v.contract == "format"@ ==> investigation(ss, v).fix_categories.contains(
            FixCategory::Formatting,
        ),
        ss.contains(AnalysisStrategy::RuleViolation) && v.contract == "lint"@ ==> investigation(ss, v).fix_categories.contains(
            FixCategory::Linting,
        ),
        ss.contains(AnalysisStrategy::RuleViolation) && v.contract == "structure"@ ==> investigation(
            ss,
            v,
        ).fix_categories.contains(FixCategory::Structure),
{
    lemma_all_categories_contains(ss, v, FixCategory::Formatting);
    lemma_all_categories_contains(ss, v, FixCategory::Linting);
    lemma_all_categories_contains(ss, v, FixCategory::Structure);
    lemma_all_categories_contains(ss, v, FixCategory::Configuration);
    assert forall|i: int| 0 <= i < ss.len() implies {
        &&& strategy_findings(#[trigger] ss[i], v).1.contains(FixCategory::Formatting) ==> seq_contains_seq(v.message, "format"@) || v.contract == "format"@
        &&& strategy_findings(ss[i], v).1.contains(FixCategory::Linting) ==> seq_contains_seq(v.message, "lint"@) || v.contract == "lint"@
        &&& strategy_findings(ss[i], v).1.contains(FixCategory::Structure) ==> v.contract == "structure"@
        &&& strategy_findings(ss[i], v).1.contains(FixCategory::Configuration) ==> seq_contains_seq(v.message, "config"@)
    } by {
        lemma_strategy_categories(ss[i], v);
    }
    if ss.contains(AnalysisStrategy::RuleViolation) {
        let i = choose|i: int| 0 <= i < ss.len() && ss[i] == AnalysisStrategy::RuleViolation;
        lemma_strategy_categories(ss[i], v);
        let k = strategy_findings(ss[i], v).1;
        if v.contract == "format"@ {
            assert(k[0] == FixCategory::Formatting);
        }
        if v.contract == "lint"@ {
            assert(k[0] == FixCategory::Linting);
        }
        if v.contract == "structure"@ {
            assert(k[0] == FixCategory::Structure);
        }
    }
}

/// A root cause goes to the pipeline made for its first fix category: the
/// formatting, linting, structural or configuration pipeline, with that
/// pipeline's fixers; a cause with no category, or whose first category
/// has no pipeline of its own, goes to the default pipeline.
pub proof fn law_dispatch_follows_first_category(cats: Seq<FixCategory>)
    ensures
        cats.len() > 0 && cats[0] == FixCategory::Formatting ==> pipeline_fixers(selected_pipeline(cats)) == formatting_fixers(),
        cats.len() > 0 && cats[0] == FixCategory::Linting ==> pipeline_fixers(selected_pipeline(cats)) == linting_fixers(),
        cats.len() > 0 && cats[0] == FixCategory::Structure ==> pipeline_fixers(selected_pipeline(cats)) == structural_fixers(),
        cats.len() > 0 && cats[0] == FixCategory::Configuration ==> pipeline_fixers(selected_pipeline(cats))
            == configuration_fixers(),
        cats.len() == 0 || cats[0] == FixCategory::Content || cats[0] == FixCategory::ToolSpecific ==> pipeline_fixers(
            selected_pipeline(cats),
        ) == default_fixers(),
        formatting_fixers() != linting_fixers() && formatting_fixers() != structural_fixers() && formatting_fixers()
            != configuration_fixers() && formatting_fixers() != default_fixers() && linting_fixers() != structural_fixers()
            && linting_fixers() != configuration_fixers() && linting_fixers() != default_fixers() && structural_fixers()
            != configuration_fixers() && structural_fixers() != default_fixers() && configuration_fixers() != default_fixers(),
{
    reveal_strlit("default");
    reveal_strlit("formatting");
    reveal_strlit("linting");
    reveal_strlit("structural");
    reveal_strlit("configuration");
    assert("default"@.len() == 7 && "formatting"@.len() == 10 && "linting"@.len() == 7 && "structural"@.len() == 10
        && "configuration"@.len() == 13);
    assert("default"@[0] == 'd' && "linting"@[0] == 'l' && "formatting"@[0] == 'f' && "structural"@[0] == 's');
    assert(formatting_fixers()[0] != linting_fixers()[0]);
    assert(formatting_fixers()[0] != structural_fixers()[0]);
    assert(formatting_fixers()[0] != configuration_fixers()[0]);
    assert(formatting_fixers()[0] != default_fixers()[0]);
    assert(linting_fixers()[0] != structural_fixers()[0]);
    assert(linting_fixers()[0] != configuration_fixers()[0]);
    assert(linting_fixers()[0] != default_fixers()[0]);
    assert(structural_fixers()[0] != configuration_fixers()[0]);
    assert(structural_fixers()[0] != default_fixers()[0]);
    assert(configuration_fixers()[0] != default_fixers()[0]);
}

} // verus!
