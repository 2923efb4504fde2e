//! The functional contract validation pipeline: for a hook event, identify
//! its concerns, snapshot them, map them to contracts, build the expected
//! snapshots, verify, and plan repairs of what fails.

use vstd::prelude::*;
use crate::symbols::{ConcernSymbol, HookEvent, ContractSymbol};
use crate::types::{ConcernSnapshot, ExpectedSnapshot, DiffSet, DiffView, diff_views};
use crate::hooks::{get_concerns, event_concerns};
use crate::contracts::{get_all_contracts, all_contract_names};
use crate::specifier::{build_expectation, expectation_of};
use crate::snapshot_verify::{verify, verify_with_diffs, verify_messages, equality_diffs, unexpected_diffs};
use crate::types::{all_passing, summary_text};
use crate::concerns::{snapshot_concern, snapshot_data, snapshot_metadata};
use crate::json::{JsonValue, JsonView, fields_view, json_text};
use crate::outside::{sha256_hex_of, utc_now_rfc3339};
use crate::sarif::texts;
use crate::text::seq_contains_seq;
use crate::repair_core;
use crate::repair_core::{Fixer, LintIgnoreOrderFixer, ReplaceRootStarFixer, PlanValidator, MermaidExporter, RepairError};
use crate::repair_planning::{RepairPlan, TriageOfficer, Violation, PlanningError};

verus! {

/// `obs` holds the snapshot of each of `concerns`, in order.
pub open spec fn snapshots_of(obs: Seq<ConcernSnapshot>, concerns: Seq<ConcernSymbol>) -> bool {
    &&& obs.len() == concerns.len()
    &&& forall|i: int|
        0 <= i < obs.len() ==> {
            &&& (#[trigger] obs[i]).symbol == concerns[i]
            &&& obs[i].data@ == snapshot_data(concerns[i])
            &&& obs[i].hash@ == sha256_hex_of(json_text(snapshot_data(concerns[i])))
            &&& fields_view(obs[i].metadata@) == snapshot_metadata(concerns[i])
        }
}

/// `exs` holds the expectation of each of the contracts `names`, in order.
pub open spec fn expectations_of(exs: Seq<ExpectedSnapshot>, names: Seq<Seq<char>>) -> bool {
    &&& exs.len() == names.len()
    &&& forall|i: int| 0 <= i < exs.len() ==> expectation_of(#[trigger] exs[i], names[i])
}

/// The snapshots of `concerns`, in order.
fn archive(concerns: &Vec<ConcernSymbol>) -> (r: Vec<ConcernSnapshot>)
    ensures
        snapshots_of(r@, concerns@),
{
    let mut r: Vec<ConcernSnapshot> = Vec::new();
    let mut i: usize = 0;
    while i < concerns.len()
        invariant
            i <= concerns@.len(),
            snapshots_of(r@, concerns@.take(i as int)),
        decreases concerns@.len() - i,
    {
        let s = snapshot_concern(&concerns[i]);
        r.push(s);
        i = i + 1;
    }
    assert(concerns@.take(concerns@.len() as int) =~= concerns@);
    r
}

/// The expectations of `contracts`, in order.
fn expectations(contracts: &Vec<ContractSymbol>) -> (r: Vec<ExpectedSnapshot>)
    ensures
        expectations_of(r@, contracts@.map_values(|c: ContractSymbol| c.0@)),
{
    let mut r: Vec<ExpectedSnapshot> = Vec::new();
    let mut i: usize = 0;
    while i < contracts.len()
        invariant
            i <= contracts@.len(),
            expectations_of(r@, contracts@.map_values(|c: ContractSymbol| c.0@).take(i as int)),
        decreases contracts@.len() - i,
    {
        let e = build_expectation(&contracts[i]);
        r.push(e);
        i = i + 1;
    }
    assert(contracts@.map_values(|c: ContractSymbol| c.0@).take(contracts@.len() as int) =~= contracts@.map_values(
        |c: ContractSymbol| c.0@,
    ));
    r
}

/// The diff views of a hook's verification, from snapshots `obs` and
/// expectations `exs`: equality differences, then unexpected concerns.
pub open spec fn hook_diffs(obs: Seq<ConcernSnapshot>, exs: Seq<ExpectedSnapshot>) -> Seq<DiffView> {
    equality_diffs(obs, exs) + unexpected_diffs(obs, exs)
}

/// The text with each `:` replaced by `-` and each `"` removed.
pub open spec fn plan_id_text(concern: ConcernSymbol, contract: Seq<char>) -> Seq<char> {
    repair_core::replace_char(
        repair_core::replace_char("plan-"@ + concern.name_text() + "-"@ + contract, ':', "-"@),
        '"',
        Seq::empty(),
    )
}

/// The message asks to replace a root wildcard in `.gitignore`.
pub open spec fn asks_root_star(msg: Seq<char>) -> bool {
    seq_contains_seq(msg, "wildcard"@) && seq_contains_seq(msg, ".gitignore"@)
}

/// The message asks to order the lines of `.gitignore`.
pub open spec fn asks_ignore_order(msg: Seq<char>) -> bool {
    seq_contains_seq(msg, ".gitignore"@) && seq_contains_seq(msg, "order"@)
}

/// The outcome of planning a core repair for message `msg`: the reordering
/// action needs the root-star action, so it alone is refused.
pub open spec fn core_plan_refused(msg: Seq<char>) -> bool {
    asks_ignore_order(msg) && !asks_root_star(msg)
}


/// The root-star fixer's action, as plain facts.
pub open spec fn is_root_star_action(a: repair_core::RepairAction) -> bool {
    &&& a.id@ == "replace-root-star"@
    &&& a.fixer_id@ == "fixer.replace-root-star"@
    &&& a.required
    &&& a.dependencies@.len() == 0
}

/// The ignore-order fixer's action, as plain facts.
pub open spec fn is_ignore_order_action(a: repair_core::RepairAction) -> bool {
    &&& a.id@ == "reorder-ignore-lines"@
    &&& a.fixer_id@ == "fixer.lint-ignore-order"@
    &&& !a.required
    &&& texts(a.dependencies@) == seq!["replace-root-star"@]
}

/// The core fixers' actions validate, except the ignore-order action
/// without the root-star action it depends on.
proof fn lemma_core_actions(actions: Seq<repair_core::RepairAction>, wild: bool, ord: bool)
    requires
        actions.len() == (if wild { 1int } else { 0int }) + (if ord { 1int } else { 0int }),
        wild ==> is_root_star_action(actions[0]),
        ord ==> is_ignore_order_action(actions[if wild { 1int } else { 0int }]),
    ensures
        !repair_core::has_circular_dependency(actions),
        repair_core::first_unassigned(actions) is None,
        repair_core::first_dangling_action(repair_core::action_ids(actions), actions) == if ord && !wild {
            Some(("reorder-ignore-lines"@, "replace-root-star"@))
        } else {
            None::<(Seq<char>, Seq<char>)>
        },
{
    reveal_strlit("replace-root-star");
    reveal_strlit("reorder-ignore-lines");
    reveal_strlit("fixer.replace-root-star");
    reveal_strlit("fixer.lint-ignore-order");
    let rrs = "replace-root-star"@;
    let ril = "reorder-ignore-lines"@;
    assert(rrs != ril) by {
        assert(rrs.len() != ril.len());
    }
    let ids = repair_core::action_ids(actions);
    reveal_with_fuel(repair_core::deps_of, 3);
    reveal_with_fuel(repair_core::first_dangling_action, 3);
    reveal_with_fuel(repair_core::first_dangling, 3);
    reveal_with_fuel(repair_core::first_unassigned, 3);
    if wild && ord {
        assert(ids =~= seq![rrs, ril]);
        assert(actions.drop_last() =~= seq![actions[0]]);
        assert(seq![actions[0]].drop_last() =~= Seq::<repair_core::RepairAction>::empty());
        assert(repair_core::deps_of(actions, rrs) == Seq::<Seq<char>>::empty());
        assert(repair_core::deps_of(actions, ril) == seq![rrs]);
        assert(actions.drop_first() =~= seq![actions[1]]);
        assert(seq![actions[1]].drop_first() =~= Seq::<repair_core::RepairAction>::empty());
        assert(ids.contains(rrs)) by {
            assert(ids[0] == rrs);
        }
        assert(seq![rrs].drop_first() =~= Seq::<Seq<char>>::empty());
        assert(repair_core::first_dangling(ids, texts(actions[0].dependencies@)) is None) by {
            assert(texts(actions[0].dependencies@) =~= Seq::<Seq<char>>::empty());
        }
        assert(repair_core::first_dangling(ids, texts(actions[1].dependencies@)) is None);
    } else if wild {
        assert(ids =~= seq![rrs]);
        assert(actions.drop_last() =~= Seq::<repair_core::RepairAction>::empty());
        assert(actions.drop_first() =~= Seq::<repair_core::RepairAction>::empty());
        assert(repair_core::deps_of(actions, rrs) == Seq::<Seq<char>>::empty());
        assert(repair_core::first_dangling(ids, texts(actions[0].dependencies@)) is None) by {
            assert(texts(actions[0].dependencies@) =~= Seq::<Seq<char>>::empty());
        }
    } else if ord {
        assert(ids =~= seq![ril]);
        assert(actions.drop_last() =~= Seq::<repair_core::RepairAction>::empty());
        assert(actions.drop_first() =~= Seq::<repair_core::RepairAction>::empty());
        assert(repair_core::deps_of(actions, ril) == seq![rrs]);
        assert(!ids.contains(rrs)) by {
            if ids.contains(rrs) {
                let j = choose|j: int| 0 <= j < ids.len() && ids[j] == rrs;
                assert(ids[j] == ril);
            }
        }
        assert(repair_core::first_dangling(ids, texts(actions[0].dependencies@)) == Some(rrs));
    } else {
        assert(ids =~= Seq::<Seq<char>>::empty());
    }
    if repair_core::has_circular_dependency(actions) {
        let group = choose|group: Set<Seq<char>>| #[trigger] repair_core::waits_within(actions, group);
        let x = choose|x: Seq<char>| group.contains(x);
        assert(group.contains(x));
        assert(ids.contains(x));
        if x == rrs {
            assert(wild);
            let y = choose|y: Seq<char>| #[trigger] repair_core::deps_of(actions, x).contains(y) && group.contains(y);
            assert(repair_core::deps_of(actions, x).contains(y));
        } else {
            assert(x == ril);
            let y = choose|y: Seq<char>| #[trigger] repair_core::deps_of(actions, x).contains(y) && group.contains(y);
            assert(repair_core::deps_of(actions, x).contains(y));
            assert(y == rrs);
            assert(ids.contains(rrs));
            let z = choose|z: Seq<char>| #[trigger] repair_core::deps_of(actions, rrs).contains(z) && group.contains(z);
            assert(repair_core::deps_of(actions, rrs).contains(z));
        }
    }
}

/// The functional contract validation pipeline.
pub struct FunctionalContractPipeline {
    repo_path: String,
    triage_officer: TriageOfficer,
}

impl FunctionalContractPipeline {
    /// The repository path, as text.
    pub closed spec fn repo(&self) -> Seq<char> {
        self.repo_path@
    }

    /// A pipeline for the repository at `repo_path`, whose triage officer
    /// has no plans yet.
    pub fn new(repo_path: &str) -> (r: Self)
        ensures
            r.repo() == repo_path@,
    {
        FunctionalContractPipeline { repo_path: repo_path.to_owned(), triage_officer: TriageOfficer::new() }
    }

    /// The repository path.
    pub fn repo_path(&self) -> (r: &str)
        ensures
            r@ == self.repo(),
    {
        self.repo_path.as_str()
    }

    /// Run the pipeline for a hook event: the verification errors of the
    /// snapshots of its concerns against the expectations of their
    /// contracts, if any.
    pub fn run_hook(&self, hook: HookEvent) -> (r: Result<(), Vec<String>>)
        ensures
            exists|obs: Seq<ConcernSnapshot>, exs: Seq<ExpectedSnapshot>|
                {
                    &&& #[trigger] snapshots_of(obs, event_concerns(hook))
                    &&& #[trigger] expectations_of(exs, all_contract_names(event_concerns(hook)))
                    &&& match r {
                        Ok(()) => verify_messages(obs, exs).len() == 0,
                        Err(errors) => errors@.len() > 0 && texts(errors@) == verify_messages(obs, exs),
                    }
                },
    {
        let concerns = get_concerns(&hook);
        let snapshots = archive(&concerns);
        let contracts = get_all_contracts(concerns.as_slice());
        let expected = expectations(&contracts);
        assert(contracts@.map_values(|c: ContractSymbol| c.0@) =~= crate::contracts::symbol_names(contracts@));
        let r = verify(snapshots.as_slice(), expected.as_slice());
        assert(snapshots_of(snapshots@, event_concerns(hook)));
        assert(expectations_of(expected@, all_contract_names(event_concerns(hook))));
        r
    }

    /// Run the pipeline for a hook event with its differences: those of the
    /// snapshots of its concerns against the expectations of their
    /// contracts.
    pub fn run_hook_with_diff(&self, hook: HookEvent) -> (r: Result<DiffSet, String>)
        ensures
            r matches Ok(d) && exists|obs: Seq<ConcernSnapshot>, exs: Seq<ExpectedSnapshot>|
                {
                    &&& #[trigger] snapshots_of(obs, event_concerns(hook))
                    &&& #[trigger] expectations_of(exs, all_contract_names(event_concerns(hook)))
                    &&& diff_views(d.diffs@) == hook_diffs(obs, exs)
                    &&& d.is_valid == all_passing(hook_diffs(obs, exs))
                    &&& d.summary@ == summary_text(hook_diffs(obs, exs))
                },
    {
        let concerns = get_concerns(&hook);
        let snapshots = archive(&concerns);
        let contracts = get_all_contracts(concerns.as_slice());
        let expected = expectations(&contracts);
        assert(contracts@.map_values(|c: ContractSymbol| c.0@) =~= crate::contracts::symbol_names(contracts@));
        let d = verify_with_diffs(snapshots.as_slice(), expected.as_slice());
        assert(snapshots_of(snapshots@, event_concerns(hook)));
        assert(expectations_of(expected@, all_contract_names(event_concerns(hook))));
        Ok(d)
    }

    /// The snapshot a repair of `concern` starts from: an empty object.
    fn find_snapshot_for_concern(&self, concern: &ConcernSymbol) -> (r: ConcernSnapshot)
        ensures
            r.symbol == *concern,
            r.data@ == JsonView::Object(Seq::empty()),
            r.metadata@.len() == 0,
    {
        let data: Vec<(String, JsonValue)> = Vec::new();
        assert(fields_view(data@) =~= Seq::<(Seq<char>, JsonView)>::empty());
        ConcernSnapshot::new(*concern, JsonValue::Object(data), Vec::new())
    }

    /// Run the pipeline for a hook event and plan the repair of each of its
    /// differences, in order, through the triage officer.
    pub fn run_hook_with_repair(&mut self, hook: HookEvent) -> (r: Result<Vec<RepairPlan>, PlanningError>)
        ensures
            r matches Ok(plans) && exists|obs: Seq<ConcernSnapshot>, exs: Seq<ExpectedSnapshot>|
                {
                    &&& #[trigger] snapshots_of(obs, event_concerns(hook))
                    &&& #[trigger] expectations_of(exs, all_contract_names(event_concerns(hook)))
                    &&& plans@.len() == hook_diffs(obs, exs).len()
                },
    {
        let diff_set = match self.run_hook_with_diff(hook) {
            Ok(d) => d,
            Err(_) => {
                return Ok(Vec::new());
            },
        };
        let ghost dv = diff_views(diff_set.diffs@);
        let mut plans: Vec<RepairPlan> = Vec::new();
        let mut i: usize = 0;
        while i < diff_set.diffs.len()
            invariant
                i <= diff_set.diffs@.len(),
                plans@.len() == i,
            decreases diff_set.diffs@.len() - i,
        {
            let diff = &diff_set.diffs[i];
            let violation = Violation {
                concern: diff.concern,
                contract: "unknown".to_owned(),
                message: crate::sarif::copy_string(&diff.description),
                location: None,
                severity: diff.severity,
                details: crate::json::copy_fields(&diff.metadata),
                timestamp: utc_now_rfc3339(),
            };
            let snapshot = self.find_snapshot_for_concern(&diff.concern);
            match self.triage_officer.create_plan(&violation, &snapshot) {
                Ok(plan) => plans.push(plan),
                Err(e) => {
                    return Err(e);
                },
            }
            i = i + 1;
        }
        proof {
            lemma_diff_views_len(diff_set.diffs@);
            let (obs, exs) = choose|obs: Seq<ConcernSnapshot>, exs: Seq<ExpectedSnapshot>|
                {
                    &&& #[trigger] snapshots_of(obs, event_concerns(hook))
                    &&& #[trigger] expectations_of(exs, all_contract_names(event_concerns(hook)))
                    &&& diff_views(diff_set.diffs@) == hook_diffs(obs, exs)
                    &&& diff_set.is_valid == all_passing(hook_diffs(obs, exs))
                    &&& diff_set.summary@ == summary_text(hook_diffs(obs, exs))
                };
            assert(snapshots_of(obs, event_concerns(hook)));
            assert(expectations_of(exs, all_contract_names(event_concerns(hook))));
        }
        Ok(plans)
    }

    /// Plan a core repair of `concern` under `contract` for a violation
    /// message: the root-star and ignore-order fixers' actions, in that
    /// order, where the message asks for them; refused where the plan does
    /// not validate.
    pub fn create_core_repair_plan(&self, concern: &ConcernSymbol, contract: &str, violation_msg: &str) -> (r: Result<
        repair_core::RepairPlan,
        RepairError,
    >)
        ensures
            match r {
                Ok(plan) => {
                    &&& !core_plan_refused(violation_msg@)
                    &&& plan.id@ == plan_id_text(*concern, contract@)
                    &&& plan.concern == *concern
                    &&& plan.contract@ == contract@
                    &&& plan.violation.concern == *concern
                    &&& plan.violation.contract@ == contract@
                    &&& plan.violation.message@ == violation_msg@
                    &&& plan.violation.location@ == concern.name_text()
                    &&& plan.violation.severity == repair_core::ViolationSeverity::Error
                    &&& plan.root_cause.primary_cause@ == "Contract violation detected"@
                    &&& texts(plan.root_cause.factors@) == seq!["Automated analysis"@]
                    &&& plan.root_cause.fix_categories@ == seq![repair_core::FixCategory::Formatting]
                    &&& plan.root_cause.confidence == 90
                    &&& plan.dispatcher@ == "core-dispatcher"@
                    &&& repair_core::action_ids(plan.actions@) == (if asks_root_star(violation_msg@) {
                        seq!["replace-root-star"@]
                    } else {
                        Seq::empty()
                    }) + (if asks_ignore_order(violation_msg@) {
                        seq!["reorder-ignore-lines"@]
                    } else {
                        Seq::empty()
                    })
                    &&& plan.is_complete
                    &&& plan.metadata@.len() == 0
                },
                Err(e) => core_plan_refused(violation_msg@) && repair_core::invalid_action_with(
                    Err(e),
                    "Action reorder-ignore-lines depends on non-existent action replace-root-star"@,
                ),
            },
    {
        let violation = repair_core::Violation {
            concern: *concern,
            contract: contract.to_owned(),
            message: violation_msg.to_owned(),
            location: concern.name().to_owned(),
            severity: repair_core::ViolationSeverity::Error,
        };
        let mut factors: Vec<String> = Vec::new();
        factors.push("Automated analysis".to_owned());
        let mut fix_categories: Vec<repair_core::FixCategory> = Vec::new();
        fix_categories.push(repair_core::FixCategory::Formatting);
        assert(texts(factors@) =~= seq!["Automated analysis"@]);
        assert(fix_categories@ =~= seq![repair_core::FixCategory::Formatting]);
        let root_cause = repair_core::RootCause {
            primary_cause: "Contract violation detected".to_owned(),
            factors,
            fix_categories,
            confidence: 90,
        };
        let mut actions: Vec<repair_core::RepairAction> = Vec::new();
        match ReplaceRootStarFixer.plan(&violation, &root_cause) {
            Ok(Some(a)) => actions.push(a),
            _ => {},
        }
        match LintIgnoreOrderFixer.plan(&violation, &root_cause) {
            Ok(Some(a)) => actions.push(a),
            _ => {},
        }
        let mut raw_id = "plan-".to_owned();
        raw_id.append(concern.name());
        raw_id.append("-");
        raw_id.append(contract);
        let mut dashed = String::new();
        repair_core::push_replaced(&mut dashed, raw_id.as_str(), ':', "-");
        let mut id = String::new();
        repair_core::push_replaced(&mut id, dashed.as_str(), '"', "");
        proof {
            reveal_strlit("");
        }
        assert(raw_id@ =~= "plan-"@ + concern.name_text() + "-"@ + contract@);
        assert(dashed@ =~= repair_core::replace_char(raw_id@, ':', "-"@));
        assert(""@ =~= Seq::<char>::empty());
        assert(id@ =~= repair_core::replace_char(dashed@, '"', Seq::empty()));
        let plan = repair_core::RepairPlan {
            id,
            concern: *concern,
            contract: contract.to_owned(),
            violation,
            root_cause,
            dispatcher: "core-dispatcher".to_owned(),
            actions,
            is_complete: true,
            metadata: Vec::new(),
            timestamp: utc_now_rfc3339(),
        };
        proof {
            let w = asks_root_star(violation_msg@);
            let o = asks_ignore_order(violation_msg@);
            lemma_core_actions(plan.actions@, w, o);
            assert(repair_core::action_ids(plan.actions@) =~= (if w {
                seq!["replace-root-star"@]
            } else {
                Seq::<Seq<char>>::empty()
            }) + (if o {
                seq!["reorder-ignore-lines"@]
            } else {
                Seq::<Seq<char>>::empty()
            }));
        }
        match PlanValidator::validate(&plan) {
            Ok(()) => {
                Ok(plan)
            },
            Err(e) => {
                proof {
                    reveal_strlit("Action ");
                    reveal_strlit(" depends on non-existent action ");
                    reveal_strlit("reorder-ignore-lines");
                    reveal_strlit("replace-root-star");
                    reveal_strlit("Action reorder-ignore-lines depends on non-existent action replace-root-star");
                    assert("Action "@ + "reorder-ignore-lines"@ + " depends on non-existent action "@ + "replace-root-star"@
                        =~= "Action reorder-ignore-lines depends on non-existent action replace-root-star"@);
                }
                Err(e)
            },
        }
    }

    /// The repair plan as a Mermaid flowchart.
    pub fn export_repair_plan_mermaid(&self, plan: &repair_core::RepairPlan) -> (r: String)
        ensures
            r@ == repair_core::mermaid_text(*plan),
    {
        MermaidExporter::export_plan(plan)
    }
}

/// Each difference has a view.
proof fn lemma_diff_views_len(ds: Seq<crate::types::ValidationDiff>)
    ensures
        diff_views(ds).len() == ds.len(),
{
}

/// The pipeline extended with repair planning.
pub struct RepairPlanningPipeline {
    base_pipeline: FunctionalContractPipeline,
    triage_officer: TriageOfficer,
}

impl RepairPlanningPipeline {
    /// A repair planning pipeline for the repository at `repo_path`.
    pub fn new(repo_path: &str) -> (r: Self)
        ensures
            r.base().repo() == repo_path@,
    {
        RepairPlanningPipeline { base_pipeline: FunctionalContractPipeline::new(repo_path), triage_officer: TriageOfficer::new() }
    }

    /// The base pipeline, as a value.
    pub closed spec fn base(&self) -> FunctionalContractPipeline {
        self.base_pipeline
    }

    /// Run the base pipeline with repair planning.
    pub fn run_with_repair(&mut self, hook: HookEvent) -> (r: Result<Vec<RepairPlan>, PlanningError>)
        ensures
            r matches Ok(plans) && exists|obs: Seq<ConcernSnapshot>, exs: Seq<ExpectedSnapshot>|
                {
                    &&& #[trigger] snapshots_of(obs, event_concerns(hook))
                    &&& #[trigger] expectations_of(exs, all_contract_names(event_concerns(hook)))
                    &&& plans@.len() == hook_diffs(obs, exs).len()
                },
    {
        self.base_pipeline.run_hook_with_repair(hook)
    }

    /// The pipeline's triage officer, as a value.
    pub closed spec fn officer(&self) -> TriageOfficer {
        self.triage_officer
    }

    /// The triage officer of the pipeline.
    pub fn triage_officer(&mut self) -> (r: &mut TriageOfficer)
        ensures
            *r == old(self).officer(),
            *final(r) == final(self).officer(),
            final(self).base() == old(self).base(),
    {
        &mut self.triage_officer
    }
}

} // verus!
