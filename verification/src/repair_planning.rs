//! Repair planning: the investigator finds a violation's root cause, the
//! dispatcher routes it to a pipeline of fixers, and the triage officer
//! turns the fixers' planned actions into a repair plan, caching plans by
//! concern, contract and snapshot.

use vstd::prelude::*;
use crate::symbols::{ConcernSymbol, RuleSeverity};
use crate::json::{JsonValue, JsonView, fields_view, copy_fields, lemma_fields_view};
use crate::types::ConcernSnapshot;
use crate::sarif::{texts, copy_string, copy_strings};
use crate::text::{str_contains, seq_contains_seq, decimal_text, push_decimal, str_eq};
use crate::outside::{new_uuid_v4, utc_now_rfc3339};

verus! {

/// The text of an optional string.
pub open spec fn opt_text(o: Option<String>) -> Option<Seq<char>> {
    match o {
        Some(s) => Some(s@),
        None => None,
    }
}

/// A copy of an optional string.
fn copy_opt(o: &Option<String>) -> (r: Option<String>)
    ensures
        opt_text(r) == opt_text(*o),
{
    match o {
        Some(s) => Some(copy_string(s)),
        None => None,
    }
}

/// Violation context for a failing concern.
#[derive(Debug, Clone)]
pub struct Violation {
    /// The concern that violated the contract
    pub concern: ConcernSymbol,
    /// The contract that was violated
    pub contract: String,
    /// The violation message
    pub message: String,
    /// The location of the violation (file path, line number, etc.)
    pub location: Option<String>,
    /// The severity of the violation
    pub severity: RuleSeverity,
    /// Additional violation details, in key order
    pub details: Vec<(String, JsonValue)>,
    /// Timestamp of the violation
    pub timestamp: String,
}

/// A violation as plain values.
pub struct ViolationView {
    pub concern: ConcernSymbol,
    pub contract: Seq<char>,
    pub message: Seq<char>,
    pub location: Option<Seq<char>>,
    pub severity: RuleSeverity,
    pub details: Seq<(Seq<char>, JsonView)>,
    pub timestamp: Seq<char>,
}

impl View for Violation {
    type V = ViolationView;

    open spec fn view(&self) -> ViolationView {
        ViolationView {
            concern: self.concern,
            contract: self.contract@,
            message: self.message@,
            location: opt_text(self.location),
            severity: self.severity,
            details: fields_view(self.details@),
            timestamp: self.timestamp@,
        }
    }
}

impl Violation {
    /// A copy of the violation.
    pub fn duplicate(&self) -> (r: Self)
        ensures
            r@ == self@,
    {
        Violation {
            concern: self.concern,
            contract: copy_string(&self.contract),
            message: copy_string(&self.message),
            location: copy_opt(&self.location),
            severity: self.severity,
            details: copy_fields(&self.details),
            timestamp: copy_string(&self.timestamp),
        }
    }
}

/// Categories of fixes that can be applied.
#[derive(Debug, Clone, Copy, PartialEq, Eq, Structural)]
pub enum FixCategory {
    /// Formatting fixes (rustfmt, prettier, etc.)
    Formatting,
    /// Linting fixes (clippy, eslint, etc.)
    Linting,
    /// Structural fixes (file organization, naming, etc.)
    Structure,
    /// Configuration fixes (git attributes, config files, etc.)
    Configuration,
    /// Content fixes (file content, metadata, etc.)
    Content,
    /// Tool-specific fixes (trunk, cargo, etc.)
    ToolSpecific,
}

impl FixCategory {
    /// The name of the fix category, as text.
    pub open spec fn name_text(self) -> Seq<char> {
        match self {
            FixCategory::Formatting => "formatting"@,
            FixCategory::Linting => "linting"@,
            FixCategory::Structure => "structural"@,
            FixCategory::Configuration => "configuration"@,
            FixCategory::Content => "content"@,
            FixCategory::ToolSpecific => "tool_specific"@,
        }
    }

    /// The name of the fix category.
    pub fn name(&self) -> (r: &'static str)
        ensures
            r@ == self.name_text(),
    {
        match self {
            FixCategory::Formatting => "formatting",
            FixCategory::Linting => "linting",
            FixCategory::Structure => "structural",
            FixCategory::Configuration => "configuration",
            FixCategory::Content => "content",
            FixCategory::ToolSpecific => "tool_specific",
        }
    }
}

/// Root cause analysis result.
#[derive(Debug, Clone)]
pub struct RootCause {
    /// The primary cause of the violation
    pub primary_cause: String,
    /// Contributing factors
    pub contributing_factors: Vec<String>,
    /// Suggested fix categories
    pub fix_categories: Vec<FixCategory>,
    /// Confidence level, in hundredths (0 to 100)
    pub confidence: u32,
    /// Additional analysis metadata, in key order
    pub metadata: Vec<(String, JsonValue)>,
}

/// A root cause as plain values.
pub struct RootCauseView {
    pub primary_cause: Seq<char>,
    pub contributing_factors: Seq<Seq<char>>,
    pub fix_categories: Seq<FixCategory>,
    pub confidence: u32,
    pub metadata: Seq<(Seq<char>, JsonView)>,
}

impl View for RootCause {
    type V = RootCauseView;

    open spec fn view(&self) -> RootCauseView {
        RootCauseView {
            primary_cause: self.primary_cause@,
            contributing_factors: texts(self.contributing_factors@),
            fix_categories: self.fix_categories@,
            confidence: self.confidence,
            metadata: fields_view(self.metadata@),
        }
    }
}

/// A copy of a list of fix categories.
fn copy_categories(v: &Vec<FixCategory>) -> (r: Vec<FixCategory>)
    ensures
        r@ == v@,
{
    let mut out: Vec<FixCategory> = Vec::new();
    let mut i: usize = 0;
    while i < v.len()
        invariant
            i <= v@.len(),
            out@ == v@.subrange(0, i as int),
        decreases v@.len() - i,
    {
        out.push(v[i]);
        i = i + 1;
        assert(out@ =~= v@.subrange(0, i as int));
    }
    assert(v@.subrange(0, v@.len() as int) =~= v@);
    out
}

impl RootCause {
    /// A copy of the root cause.
    pub fn duplicate(&self) -> (r: Self)
        ensures
            r@ == self@,
    {
        RootCause {
            primary_cause: copy_string(&self.primary_cause),
            contributing_factors: copy_strings(&self.contributing_factors),
            fix_categories: copy_categories(&self.fix_categories),
            confidence: self.confidence,
            metadata: copy_fields(&self.metadata),
        }
    }
}

/// Types of repair actions.
#[derive(Debug, Clone, Copy, PartialEq, Eq, Structural)]
pub enum ActionType {
    /// Edit a file
    Edit,
    /// Replace a file
    Replace,
    /// Delete a file
    Delete,
    /// Reorder lines in a file
    ReorderLines,
    /// Run a command
    RunCommand,
    /// Apply a patch
    ApplyPatch,
    /// Create a new file
    Create,
    /// Move a file
    Move,
}

impl ActionType {
    /// The name of the action type, as text.
    pub open spec fn name_text(self) -> Seq<char> {
        match self {
            ActionType::Edit => "edit"@,
            ActionType::Replace => "replace"@,
            ActionType::Delete => "delete"@,
            ActionType::ReorderLines => "reorder_lines"@,
            ActionType::RunCommand => "run_command"@,
            ActionType::ApplyPatch => "apply_patch"@,
            ActionType::Create => "create"@,
            ActionType::Move => "move"@,
        }
    }

    /// The name of the action type.
    pub fn name(&self) -> (r: &'static str)
        ensures
            r@ == self.name_text(),
    {
        match self {
            ActionType::Edit => "edit",
            ActionType::Replace => "replace",
            ActionType::Delete => "delete",
            ActionType::ReorderLines => "reorder_lines",
            ActionType::RunCommand => "run_command",
            ActionType::ApplyPatch => "apply_patch",
            ActionType::Create => "create",
            ActionType::Move => "move",
        }
    }
}

/// Repair action to be executed by a fixer.
#[derive(Debug, Clone)]
pub struct RepairAction {
    /// Unique identifier for this action
    pub id: String,
    /// The fixer that will execute this action
    pub fixer_id: String,
    /// The type of action to perform
    pub action_type: ActionType,
    /// The target path for this action
    pub target_path: Option<String>,
    /// The action parameters, in key order
    pub parameters: Vec<(String, JsonValue)>,
    /// Whether this action is required or suggested
    pub required: bool,
    /// Priority of this action (lower = higher priority)
    pub priority: u32,
    /// Dependencies on other actions
    pub dependencies: Vec<String>,
}

/// A repair action as plain values.
pub struct ActionView {
    pub id: Seq<char>,
    pub fixer_id: Seq<char>,
    pub action_type: ActionType,
    pub target_path: Option<Seq<char>>,
    pub parameters: Seq<(Seq<char>, JsonView)>,
    pub required: bool,
    pub priority: u32,
    pub dependencies: Seq<Seq<char>>,
}

impl View for RepairAction {
    type V = ActionView;

    open spec fn view(&self) -> ActionView {
        ActionView {
            id: self.id@,
            fixer_id: self.fixer_id@,
            action_type: self.action_type,
            target_path: opt_text(self.target_path),
            parameters: fields_view(self.parameters@),
            required: self.required,
            priority: self.priority,
            dependencies: texts(self.dependencies@),
        }
    }
}

/// The views of a sequence of actions.
pub open spec fn action_views(v: Seq<RepairAction>) -> Seq<ActionView> {
    v.map_values(|a: RepairAction| a@)
}

impl RepairAction {
    /// A copy of the action.
    pub fn duplicate(&self) -> (r: Self)
        ensures
            r@ == self@,
    {
        RepairAction {
            id: copy_string(&self.id),
            fixer_id: copy_string(&self.fixer_id),
            action_type: self.action_type,
            target_path: copy_opt(&self.target_path),
            parameters: copy_fields(&self.parameters),
            required: self.required,
            priority: self.priority,
            dependencies: copy_strings(&self.dependencies),
        }
    }
}

/// Result of a repair action.
#[derive(Debug, Clone)]
pub struct RepairResult {
    /// The action that was executed
    pub action_id: String,
    /// Whether the action succeeded
    pub success: bool,
    /// Messages from the fixer
    pub messages: Vec<String>,
    /// The diff that was applied (if any)
    pub diff: Option<JsonValue>,
    /// The new content hash (if applicable)
    pub new_hash: Option<String>,
    /// Execution metadata, in key order
    pub metadata: Vec<(String, JsonValue)>,
}

/// Complete repair plan for a failing concern.
#[derive(Debug, Clone)]
pub struct RepairPlan {
    /// Unique identifier for this plan
    pub id: String,
    /// The concern being repaired
    pub concern: ConcernSymbol,
    /// The contract that was violated
    pub contract: String,
    /// The violation that triggered this plan
    pub violation: Violation,
    /// The root cause analysis
    pub root_cause: RootCause,
    /// The dispatcher that created this plan
    pub dispatcher: String,
    /// The ordered list of repair actions
    pub actions: Vec<RepairAction>,
    /// Whether this plan is complete
    pub is_complete: bool,
    /// Plan metadata, in key order
    pub metadata: Vec<(String, JsonValue)>,
    /// Timestamp of plan creation
    pub timestamp: String,
}

/// A repair plan as plain values.
pub struct PlanView {
    pub id: Seq<char>,
    pub concern: ConcernSymbol,
    pub contract: Seq<char>,
    pub violation: ViolationView,
    pub root_cause: RootCauseView,
    pub dispatcher: Seq<char>,
    pub actions: Seq<ActionView>,
    pub is_complete: bool,
    pub metadata: Seq<(Seq<char>, JsonView)>,
    pub timestamp: Seq<char>,
}

impl View for RepairPlan {
    type V = PlanView;

    open spec fn view(&self) -> PlanView {
        PlanView {
            id: self.id@,
            concern: self.concern,
            contract: self.contract@,
            violation: self.violation@,
            root_cause: self.root_cause@,
            dispatcher: self.dispatcher@,
            actions: action_views(self.actions@),
            is_complete: self.is_complete,
            metadata: fields_view(self.metadata@),
            timestamp: self.timestamp@,
        }
    }
}

/// A copy of a list of actions.
fn copy_actions(v: &Vec<RepairAction>) -> (r: Vec<RepairAction>)
    ensures
        action_views(r@) == action_views(v@),
{
    let mut out: Vec<RepairAction> = Vec::new();
    let mut i: usize = 0;
    while i < v.len()
        invariant
            i <= v@.len(),
            out@.len() == i,
            forall|j: int| 0 <= j < i ==> #[trigger] out@[j]@ == v@[j]@,
        decreases v@.len() - i,
    {
        out.push(v[i].duplicate());
        i = i + 1;
    }
    assert(action_views(out@) =~= action_views(v@));
    out
}

impl RepairPlan {
    /// A copy of the plan.
    pub fn duplicate(&self) -> (r: Self)
        ensures
            r@ == self@,
    {
        RepairPlan {
            id: copy_string(&self.id),
            concern: self.concern,
            contract: copy_string(&self.contract),
            violation: self.violation.duplicate(),
            root_cause: self.root_cause.duplicate(),
            dispatcher: copy_string(&self.dispatcher),
            actions: copy_actions(&self.actions),
            is_complete: self.is_complete,
            metadata: copy_fields(&self.metadata),
            timestamp: copy_string(&self.timestamp),
        }
    }
}

/// Errors of repair planning.
#[derive(Debug, Clone, PartialEq, Eq)]
pub enum PlanningError {
    /// No pipeline has the name the dispatcher chose
    PipelineNotFound(String),
}

/// Analysis strategy for investigating violations.
#[derive(Debug, Clone, Copy, PartialEq, Eq, Structural)]
pub enum AnalysisStrategy {
    /// Pattern-based analysis of the message
    PatternMatching,
    /// Analysis of the violated rule
    RuleViolation,
    /// Analysis of tool output in the message
    ToolOutput,
}

/// The causes and fix categories that one strategy finds.
pub open spec fn strategy_findings(s: AnalysisStrategy, v: ViolationView) -> (Seq<Seq<char>>, Seq<FixCategory>) {
    match s {
        AnalysisStrategy::PatternMatching => {
            let f = if seq_contains_seq(v.message, "format"@) {
                (seq!["Formatting violation"@], seq![FixCategory::Formatting])
            } else {
                (Seq::empty(), Seq::empty())
            };
            let l = if seq_contains_seq(v.message, "lint"@) {
                (seq!["Linting violation"@], seq![FixCategory::Linting])
            } else {
                (Seq::empty(), Seq::empty())
            };
            let c = if seq_contains_seq(v.message, "config"@) {
                (seq!["Configuration violation"@], seq![FixCategory::Configuration])
            } else {
                (Seq::empty(), Seq::empty())
            };
            (f.0 + l.0 + c.0, f.1 + l.1 + c.1)
        },
        AnalysisStrategy::RuleViolation => if v.contract == "format"@ {
            (seq!["Formatting rule violation"@], seq![FixCategory::Formatting])
        } else if v.contract == "lint"@ {
            (seq!["Linting rule violation"@], seq![FixCategory::Linting])
        } else if v.contract == "structure"@ {
            (seq!["Structural rule violation"@], seq![FixCategory::Structure])
        } else {
            (seq!["Unknown rule violation"@], seq![FixCategory::Content])
        },
        AnalysisStrategy::ToolOutput => {
            let t = if seq_contains_seq(v.message, "trunk"@) {
                (seq!["Trunk tool violation"@], seq![FixCategory::ToolSpecific])
            } else {
                (Seq::empty(), Seq::empty())
            };
            let c = if seq_contains_seq(v.message, "cargo"@) {
                (seq!["Cargo tool violation"@], seq![FixCategory::ToolSpecific])
            } else {
                (Seq::empty(), Seq::empty())
            };
            (t.0 + c.0, t.1 + c.1)
        },
    }
}

/// The causes that the strategies find, strategy after strategy.
pub open spec fn all_causes(ss: Seq<AnalysisStrategy>, v: ViolationView) -> Seq<Seq<char>>
    decreases ss.len(),
{
    if ss.len() == 0 {
        Seq::empty()
    } else {
        all_causes(ss.drop_last(), v) + strategy_findings(ss.last(), v).0
    }
}

/// The fix categories that the strategies find, strategy after strategy.
pub open spec fn all_categories(ss: Seq<AnalysisStrategy>, v: ViolationView) -> Seq<FixCategory>
    decreases ss.len(),
{
    if ss.len() == 0 {
        Seq::empty()
    } else {
        all_categories(ss.drop_last(), v) + strategy_findings(ss.last(), v).1
    }
}

/// The confidence, in hundredths, of an analysis with `causes` causes and
/// `factors` contributing factors: one half, a tenth per cause up to three
/// tenths, a twentieth per factor up to a fifth, at most one.
pub open spec fn confidence_of(causes: nat, factors: nat) -> nat {
    let c = if 10 * causes < 30 {
        10 * causes
    } else {
        30
    };
    let f = if 5 * factors < 20 {
        5 * factors
    } else {
        20
    };
    if 50 + c + f < 100 {
        (50 + c + f) as nat
    } else {
        100
    }
}

/// The root cause that strategies find for a violation.
pub open spec fn investigation(ss: Seq<AnalysisStrategy>, v: ViolationView) -> RootCauseView {
    let causes = all_causes(ss, v);
    RootCauseView {
        primary_cause: if causes.len() > 0 {
            causes[0]
        } else {
            "Unknown violation"@
        },
        contributing_factors: Seq::empty(),
        fix_categories: all_categories(ss, v),
        confidence: confidence_of(causes.len(), 0) as u32,
        metadata: Seq::empty(),
    }
}

/// Append `item` with `cat` to the findings where `found`.
fn note_finding(
    found: bool,
    item: &str,
    cat: FixCategory,
    causes: &mut Vec<String>,
    categories: &mut Vec<FixCategory>,
)
    ensures
        texts(final(causes)@) == texts(old(causes)@) + if found {
            seq![item@]
        } else {
            Seq::empty()
        },
        final(categories)@ == old(categories)@ + if found {
            seq![cat]
        } else {
            Seq::empty()
        },
{
    let ghost c0 = causes@;
    let ghost k0 = categories@;
    if found {
        causes.push(item.to_owned());
        categories.push(cat);
    }
    assert(texts(causes@) =~= texts(c0) + if found {
        seq![item@]
    } else {
        Seq::<Seq<char>>::empty()
    });
    assert(categories@ =~= k0 + if found {
        seq![cat]
    } else {
        Seq::<FixCategory>::empty()
    });
}

impl AnalysisStrategy {
    /// Append the causes and categories this strategy finds.
    fn analyze(&self, violation: &Violation, causes: &mut Vec<String>, categories: &mut Vec<FixCategory>)
        ensures
            texts(final(causes)@) == texts(old(causes)@) + strategy_findings(*self, violation@).0,
            final(categories)@ == old(categories)@ + strategy_findings(*self, violation@).1,
    {
        let ghost c0 = texts(causes@);
        let ghost k0 = categories@;
        let m = violation.message.as_str();
        match self {
            AnalysisStrategy::PatternMatching => {
                note_finding(str_contains(m, "format"), "Formatting violation", FixCategory::Formatting, causes, categories);
                note_finding(str_contains(m, "lint"), "Linting violation", FixCategory::Linting, causes, categories);
                note_finding(str_contains(m, "config"), "Configuration violation", FixCategory::Configuration, causes, categories);
            },
            AnalysisStrategy::RuleViolation => {
                let c = violation.contract.as_str();
                if str_eq(c, "format") {
                    note_finding(true, "Formatting rule violation", FixCategory::Formatting, causes, categories);
                } else if str_eq(c, "lint") {
                    note_finding(true, "Linting rule violation", FixCategory::Linting, causes, categories);
                } else if str_eq(c, "structure") {
                    note_finding(true, "Structural rule violation", FixCategory::Structure, causes, categories);
                } else {
                    note_finding(true, "Unknown rule violation", FixCategory::Content, causes, categories);
                }
            },
            AnalysisStrategy::ToolOutput => {
                note_finding(str_contains(m, "trunk"), "Trunk tool violation", FixCategory::ToolSpecific, causes, categories);
                note_finding(str_contains(m, "cargo"), "Cargo tool violation", FixCategory::ToolSpecific, causes, categories);
            },
        }
        assert(texts(causes@) =~= c0 + strategy_findings(*self, violation@).0);
        assert(categories@ =~= k0 + strategy_findings(*self, violation@).1);
    }
}

/// Investigator role: analyzes failing concerns to determine the root cause.
pub struct Investigator {
    strategies: Vec<AnalysisStrategy>,
}

impl Investigator {
    /// The strategies the investigator applies, in order.
    pub closed spec fn strategy_list(&self) -> Seq<AnalysisStrategy> {
        self.strategies@
    }

    /// An investigator with the pattern, rule and tool-output strategies.
    pub fn new() -> (r: Self)
        ensures
            r.strategy_list() == seq![
                AnalysisStrategy::PatternMatching,
                AnalysisStrategy::RuleViolation,
                AnalysisStrategy::ToolOutput,
            ],
    {
        let mut strategies: Vec<AnalysisStrategy> = Vec::new();
        strategies.push(AnalysisStrategy::PatternMatching);
        strategies.push(AnalysisStrategy::RuleViolation);
        strategies.push(AnalysisStrategy::ToolOutput);
        assert(strategies@ =~= seq![
            AnalysisStrategy::PatternMatching,
            AnalysisStrategy::RuleViolation,
            AnalysisStrategy::ToolOutput,
        ]);
        Investigator { strategies }
    }

    /// The strategies the investigator applies, in order.
    pub fn strategies(&self) -> (r: &[AnalysisStrategy])
        ensures
            r@ == self.strategy_list(),
    {
        self.strategies.as_slice()
    }

    /// The confidence, in hundredths, of an analysis.
    fn calculate_confidence(&self, causes: usize, factors: usize) -> (r: u32)
        ensures
            r == confidence_of(causes as nat, factors as nat),
    {
        let c: u64 = if causes < 3 {
            10 * (causes as u64)
        } else {
            30
        };
        let f: u64 = if factors < 4 {
            5 * (factors as u64)
        } else {
            20
        };
        let total = 50 + c + f;
        if total < 100 {
            total as u32
        } else {
            100
        }
    }

    /// Analyze a violation: the causes and fix categories of every strategy
    /// in turn, the first cause as the primary one.
    pub fn investigate(&self, violation: &Violation, snapshot: &ConcernSnapshot) -> (r: Result<RootCause, PlanningError>)
        ensures
            r matches Ok(rc) && rc@ == investigation(self.strategy_list(), violation@),
    {
        let mut causes: Vec<String> = Vec::new();
        let mut categories: Vec<FixCategory> = Vec::new();
        let factors: Vec<String> = Vec::new();
        let mut i: usize = 0;
        while i < self.strategies.len()
            invariant
                i <= self.strategies@.len(),
                texts(causes@) == all_causes(self.strategies@.subrange(0, i as int), violation@),
                categories@ == all_categories(self.strategies@.subrange(0, i as int), violation@),
            decreases self.strategies@.len() - i,
        {
            assert(self.strategies@.subrange(0, i + 1).drop_last() =~= self.strategies@.subrange(0, i as int));
            self.strategies[i].analyze(violation, &mut causes, &mut categories);
            i = i + 1;
        }
        assert(self.strategies@.subrange(0, self.strategies@.len() as int) =~= self.strategies@);
        let primary_cause = if causes.len() > 0 {
            copy_string(&causes[0])
        } else {
            "Unknown violation".to_owned()
        };
        let confidence = self.calculate_confidence(causes.len(), factors.len());
        assert(texts(factors@) =~= Seq::<Seq<char>>::empty());
        let metadata: Vec<(String, JsonValue)> = Vec::new();
        proof {
            lemma_fields_view(metadata@);
        }
        assert(fields_view(metadata@) =~= Seq::<(Seq<char>, JsonView)>::empty());
        Ok(RootCause { primary_cause, contributing_factors: factors, fix_categories: categories, confidence, metadata })
    }
}

/// The fixers that the pipelines draw on.
#[derive(Debug, Clone, Copy, PartialEq, Eq, Structural)]
pub enum FixerKind {
    Trunk,
    Dprint,
    Rustfmt,
    Prettier,
    Clippy,
    Eslint,
    FileOrganization,
    Naming,
    Structure,
    GitAttributes,
    Config,
    Configuration,
}

impl FixerKind {
    /// The fixer's identifier, as text.
    pub open spec fn id_text(self) -> Seq<char> {
        match self {
            FixerKind::Trunk => "fixer.trunk"@,
            FixerKind::Dprint => "fixer.dprint"@,
            FixerKind::Rustfmt => "fixer.rustfmt"@,
            FixerKind::Prettier => "fixer.prettier"@,
            FixerKind::Clippy => "fixer.clippy"@,
            FixerKind::Eslint => "fixer.eslint"@,
            FixerKind::FileOrganization => "fixer.file_organization"@,
            FixerKind::Naming => "fixer.naming"@,
            FixerKind::Structure => "fixer.structural"@,
            FixerKind::GitAttributes => "fixer.git_attributes"@,
            FixerKind::Config => "fixer.config"@,
            FixerKind::Configuration => "fixer.configuration"@,
        }
    }

    /// The fixer's identifier.
    pub fn id(&self) -> (r: &'static str)
        ensures
            r@ == self.id_text(),
    {
        match self {
            FixerKind::Trunk => "fixer.trunk",
            FixerKind::Dprint => "fixer.dprint",
            FixerKind::Rustfmt => "fixer.rustfmt",
            FixerKind::Prettier => "fixer.prettier",
            FixerKind::Clippy => "fixer.clippy",
            FixerKind::Eslint => "fixer.eslint",
            FixerKind::FileOrganization => "fixer.file_organization",
            FixerKind::Naming => "fixer.naming",
            FixerKind::Structure => "fixer.structural",
            FixerKind::GitAttributes => "fixer.git_attributes",
            FixerKind::Config => "fixer.config",
            FixerKind::Configuration => "fixer.configuration",
        }
    }

    /// Whether the fixer plans an action for a violation with this message.
    pub open spec fn applies_to(self, message: Seq<char>) -> bool {
        match self {
            FixerKind::Trunk => seq_contains_seq(message, "trunk"@),
            FixerKind::Dprint => seq_contains_seq(message, "format"@),
            FixerKind::Rustfmt => seq_contains_seq(message, "rust"@) || seq_contains_seq(message, "format"@),
            FixerKind::Prettier => seq_contains_seq(message, "js"@) || seq_contains_seq(message, "ts"@) || seq_contains_seq(message, "format"@),
            FixerKind::Clippy => seq_contains_seq(message, "rust"@) || seq_contains_seq(message, "lint"@),
            FixerKind::Eslint => seq_contains_seq(message, "js"@) || seq_contains_seq(message, "lint"@),
            FixerKind::FileOrganization => seq_contains_seq(message, "structure"@) || seq_contains_seq(message, "organization"@),
            FixerKind::Naming => seq_contains_seq(message, "naming"@) || seq_contains_seq(message, "name"@),
            FixerKind::Structure => seq_contains_seq(message, "structure"@) || seq_contains_seq(message, "structural"@),
            FixerKind::GitAttributes => seq_contains_seq(message, "git"@) || seq_contains_seq(message, "attributes"@),
            FixerKind::Config => seq_contains_seq(message, "config"@) || seq_contains_seq(message, "configuration"@),
            FixerKind::Configuration => seq_contains_seq(message, "config"@) || seq_contains_seq(message, "configuration"@),
        }
    }

    /// Whether the fixer plans an action for a violation with this message.
    fn applies(&self, message: &str) -> (r: bool)
        ensures
            r == self.applies_to(message@),
    {
        match self {
            FixerKind::Trunk => str_contains(message, "trunk"),
            FixerKind::Dprint => str_contains(message, "format"),
            FixerKind::Rustfmt => str_contains(message, "rust") || str_contains(message, "format"),
            FixerKind::Prettier => str_contains(message, "js") || str_contains(message, "ts") || str_contains(message, "format"),
            FixerKind::Clippy => str_contains(message, "rust") || str_contains(message, "lint"),
            FixerKind::Eslint => str_contains(message, "js") || str_contains(message, "lint"),
            FixerKind::FileOrganization => str_contains(message, "structure") || str_contains(message, "organization"),
            FixerKind::Naming => str_contains(message, "naming") || str_contains(message, "name"),
            FixerKind::Structure => str_contains(message, "structure") || str_contains(message, "structural"),
            FixerKind::GitAttributes => str_contains(message, "git") || str_contains(message, "attributes"),
            FixerKind::Config => str_contains(message, "config") || str_contains(message, "configuration"),
            FixerKind::Configuration => str_contains(message, "config") || str_contains(message, "configuration"),
        }
    }

    /// The name of the parameter that carries the fixer's command or action.
    pub open spec fn param_key(self) -> Seq<char> {
        match self {
            FixerKind::Trunk => "command"@,
            FixerKind::Dprint => "command"@,
            FixerKind::Rustfmt => "command"@,
            FixerKind::Prettier => "command"@,
            FixerKind::Clippy => "command"@,
            FixerKind::Eslint => "command"@,
            FixerKind::FileOrganization => "action"@,
            FixerKind::Naming => "action"@,
            FixerKind::Structure => "action"@,
            FixerKind::GitAttributes => "action"@,
            FixerKind::Config => "action"@,
            FixerKind::Configuration => "action"@,
        }
    }

    /// The command or action the fixer runs.
    pub open spec fn param_value(self) -> Seq<char> {
        match self {
            FixerKind::Trunk => "check --apply"@,
            FixerKind::Dprint => "fmt"@,
            FixerKind::Rustfmt => "fmt"@,
            FixerKind::Prettier => "--write"@,
            FixerKind::Clippy => "fix"@,
            FixerKind::Eslint => "--fix"@,
            FixerKind::FileOrganization => "organize"@,
            FixerKind::Naming => "rename"@,
            FixerKind::Structure => "fix"@,
            FixerKind::GitAttributes => "fix"@,
            FixerKind::Config => "fix"@,
            FixerKind::Configuration => "fix"@,
        }
    }

    /// The command parameter of the fixer: its name and value.
    fn param(&self) -> (r: (&'static str, &'static str))
        ensures
            r.0@ == self.param_key(),
            r.1@ == self.param_value(),
    {
        match self {
            FixerKind::Trunk => ("command", "check --apply"),
            FixerKind::Dprint => ("command", "fmt"),
            FixerKind::Rustfmt => ("command", "fmt"),
            FixerKind::Prettier => ("command", "--write"),
            FixerKind::Clippy => ("command", "fix"),
            FixerKind::Eslint => ("command", "--fix"),
            FixerKind::FileOrganization => ("action", "organize"),
            FixerKind::Naming => ("action", "rename"),
            FixerKind::Structure => ("action", "fix"),
            FixerKind::GitAttributes => ("action", "fix"),
            FixerKind::Config => ("action", "fix"),
            FixerKind::Configuration => ("action", "fix"),
        }
    }

    /// The type of action the fixer plans.
    pub open spec fn action_type_of(self) -> ActionType {
        match self {
            FixerKind::Trunk => ActionType::RunCommand,
            FixerKind::Dprint => ActionType::RunCommand,
            FixerKind::Rustfmt => ActionType::RunCommand,
            FixerKind::Prettier => ActionType::RunCommand,
            FixerKind::Clippy => ActionType::RunCommand,
            FixerKind::Eslint => ActionType::RunCommand,
            FixerKind::FileOrganization => ActionType::RunCommand,
            FixerKind::Naming => ActionType::Move,
            FixerKind::Structure => ActionType::Edit,
            FixerKind::GitAttributes => ActionType::Edit,
            FixerKind::Config => ActionType::Edit,
            FixerKind::Configuration => ActionType::Edit,
        }
    }

    /// The path the fixer always targets, if it has one.
    pub open spec fn fixed_path(self) -> Option<Seq<char>> {
        match self {
            FixerKind::Trunk => None,
            FixerKind::Dprint => None,
            FixerKind::Rustfmt => None,
            FixerKind::Prettier => None,
            FixerKind::Clippy => None,
            FixerKind::Eslint => None,
            FixerKind::FileOrganization => None,
            FixerKind::Naming => None,
            FixerKind::Structure => None,
            FixerKind::GitAttributes => Some(".gitattributes"@),
            FixerKind::Config => None,
            FixerKind::Configuration => None,
        }
    }

    /// The message of a successful execution.
    pub open spec fn success_text(self) -> Seq<char> {
        match self {
            FixerKind::Trunk => "Trunk fix applied successfully"@,
            FixerKind::Dprint => "Dprint formatting applied successfully"@,
            FixerKind::Rustfmt => "Rustfmt formatting applied successfully"@,
            FixerKind::Prettier => "Prettier formatting applied successfully"@,
            FixerKind::Clippy => "Clippy fixes applied successfully"@,
            FixerKind::Eslint => "ESLint fixes applied successfully"@,
            FixerKind::FileOrganization => "File organization applied successfully"@,
            FixerKind::Naming => "File naming fixed successfully"@,
            FixerKind::Structure => "Structural fix applied successfully"@,
            FixerKind::GitAttributes => "Git attributes fixed successfully"@,
            FixerKind::Config => "Configuration fixed successfully"@,
            FixerKind::Configuration => "Configuration fixed successfully"@,
        }
    }

    /// The message of a successful execution.
    fn success_message(&self) -> (r: &'static str)
        ensures
            r@ == self.success_text(),
    {
        match self {
            FixerKind::Trunk => "Trunk fix applied successfully",
            FixerKind::Dprint => "Dprint formatting applied successfully",
            FixerKind::Rustfmt => "Rustfmt formatting applied successfully",
            FixerKind::Prettier => "Prettier formatting applied successfully",
            FixerKind::Clippy => "Clippy fixes applied successfully",
            FixerKind::Eslint => "ESLint fixes applied successfully",
            FixerKind::FileOrganization => "File organization applied successfully",
            FixerKind::Naming => "File naming fixed successfully",
            FixerKind::Structure => "Structural fix applied successfully",
            FixerKind::GitAttributes => "Git attributes fixed successfully",
            FixerKind::Config => "Configuration fixed successfully",
            FixerKind::Configuration => "Configuration fixed successfully",
        }
    }
}


/// The action a fixer plans for a violation, if it applies; the identifier
/// is left empty and the priority zero for the triage officer to set.
pub open spec fn planned_action(k: FixerKind, v: Violation) -> Option<ActionView> {
    if k.applies_to(v.message@) {
        let path = match k.fixed_path() {
            Some(p) => p,
            None => match opt_text(v.location) {
                Some(l) => l,
                None => Seq::empty(),
            },
        };
        Some(
            ActionView {
                id: Seq::empty(),
                fixer_id: k.id_text(),
                action_type: k.action_type_of(),
                target_path: match k.fixed_path() {
                    Some(p) => Some(p),
                    None => opt_text(v.location),
                },
                parameters: seq![(k.param_key(), JsonView::Str(k.param_value())), ("path"@, JsonView::Str(path))],
                required: true,
                priority: 0,
                dependencies: Seq::empty(),
            },
        )
    } else {
        None
    }
}

/// The view of an optional planned action.
pub open spec fn planned_view(o: Option<RepairAction>) -> Option<ActionView> {
    match o {
        Some(a) => Some(a@),
        None => None,
    }
}

/// The action that fixer `k` plans for a violation, if any.
pub fn plan_with(k: FixerKind, violation: &Violation) -> (r: Option<RepairAction>)
    ensures
        planned_view(r) == planned_action(k, *violation),
{
    if !k.applies(violation.message.as_str()) {
        return None;
    }
    let (key, value) = k.param();
    let (path, target): (String, Option<String>) = match k {
        FixerKind::GitAttributes => (".gitattributes".to_owned(), Some(".gitattributes".to_owned())),
        _ => match &violation.location {
            Some(l) => (copy_string(l), Some(copy_string(l))),
            None => (String::new(), None),
        },
    };
    let mut parameters: Vec<(String, JsonValue)> = Vec::new();
    parameters.push((key.to_owned(), JsonValue::Str(value.to_owned())));
    parameters.push(("path".to_owned(), JsonValue::Str(path)));
    proof {
        lemma_fields_view(parameters@);
    }
    let dependencies: Vec<String> = Vec::new();
    assert(texts(dependencies@) =~= Seq::<Seq<char>>::empty());
    let action = RepairAction {
        id: String::new(),
        fixer_id: k.id().to_owned(),
        action_type: match k {
            FixerKind::Naming => ActionType::Move,
            FixerKind::Structure => ActionType::Edit,
            FixerKind::GitAttributes => ActionType::Edit,
            FixerKind::Config => ActionType::Edit,
            FixerKind::Configuration => ActionType::Edit,
            _ => ActionType::RunCommand,
        },
        target_path: target,
        parameters,
        required: true,
        priority: 0,
        dependencies,
    };
    assert(action@.parameters =~= planned_action(k, *violation).unwrap().parameters);
    Some(action)
}

/// `res` records a successful execution of action `id` by fixer `k`.
pub open spec fn executed_as(res: RepairResult, k: FixerKind, id: Seq<char>) -> bool {
    &&& res.action_id@ == id
    &&& res.success
    &&& texts(res.messages@) == seq![k.success_text()]
    &&& res.diff is None
    &&& res.new_hash is None
    &&& res.metadata@.len() == 0
}

/// The result of fixer `k` executing an action.
pub fn execute_with(k: FixerKind, action: &RepairAction) -> (r: RepairResult)
    ensures
        executed_as(r, k, action.id@),
{
    let mut messages: Vec<String> = Vec::new();
    messages.push(k.success_message().to_owned());
    assert(texts(messages@) =~= seq![k.success_text()]);
    RepairResult {
        action_id: copy_string(&action.id),
        success: true,
        messages,
        diff: None,
        new_hash: None,
        metadata: Vec::new(),
    }
}

/// A stateless repair tool.
pub trait Fixer {
    /// The fixer's identifier.
    fn id(&self) -> &'static str;

    /// Plan a repair action for a violation.
    fn plan(&self, violation: &Violation, root_cause: &RootCause) -> Result<Option<RepairAction>, PlanningError>;

    /// Execute a repair action.
    fn execute(&self, action: &RepairAction) -> Result<RepairResult, PlanningError>;
}

/// The TrunkFixer fixer.
pub struct TrunkFixer;

impl Fixer for TrunkFixer {
    fn id(&self) -> (r: &'static str)
        ensures
            r@ == FixerKind::Trunk.id_text(),
    {
        FixerKind::Trunk.id()
    }

    fn plan(&self, violation: &Violation, root_cause: &RootCause) -> (r: Result<Option<RepairAction>, PlanningError>)
        ensures
            r matches Ok(o) && planned_view(o) == planned_action(FixerKind::Trunk, *violation),
    {
        Ok(plan_with(FixerKind::Trunk, violation))
    }

    fn execute(&self, action: &RepairAction) -> (r: Result<RepairResult, PlanningError>)
        ensures
            r matches Ok(res) && executed_as(res, FixerKind::Trunk, action.id@),
    {
        Ok(execute_with(FixerKind::Trunk, action))
    }
}

/// The DprintFixer fixer.
pub struct DprintFixer;

impl Fixer for DprintFixer {
    fn id(&self) -> (r: &'static str)
        ensures
            r@ == FixerKind::Dprint.id_text(),
    {
        FixerKind::Dprint.id()
    }

    fn plan(&self, violation: &Violation, root_cause: &RootCause) -> (r: Result<Option<RepairAction>, PlanningError>)
        ensures
            r matches Ok(o) && planned_view(o) == planned_action(FixerKind::Dprint, *violation),
    {
        Ok(plan_with(FixerKind::Dprint, violation))
    }

    fn execute(&self, action: &RepairAction) -> (r: Result<RepairResult, PlanningError>)
        ensures
            r matches Ok(res) && executed_as(res, FixerKind::Dprint, action.id@),
    {
        Ok(execute_with(FixerKind::Dprint, action))
    }
}

/// The RustfmtFixer fixer.
pub struct RustfmtFixer;

impl Fixer for RustfmtFixer {
    fn id(&self) -> (r: &'static str)
        ensures
            r@ == FixerKind::Rustfmt.id_text(),
    {
        FixerKind::Rustfmt.id()
    }

    fn plan(&self, violation: &Violation, root_cause: &RootCause) -> (r: Result<Option<RepairAction>, PlanningError>)
        ensures
            r matches Ok(o) && planned_view(o) == planned_action(FixerKind::Rustfmt, *violation),
    {
        Ok(plan_with(FixerKind::Rustfmt, violation))
    }

    fn execute(&self, action: &RepairAction) -> (r: Result<RepairResult, PlanningError>)
        ensures
            r matches Ok(res) && executed_as(res, FixerKind::Rustfmt, action.id@),
    {
        Ok(execute_with(FixerKind::Rustfmt, action))
    }
}

/// The PrettierFixer fixer.
pub struct PrettierFixer;

impl Fixer for PrettierFixer {
    fn id(&self) -> (r: &'static str)
        ensures
            r@ == FixerKind::Prettier.id_text(),
    {
        FixerKind::Prettier.id()
    }

    fn plan(&self, violation: &Violation, root_cause: &RootCause) -> (r: Result<Option<RepairAction>, PlanningError>)
        ensures
            r matches Ok(o) && planned_view(o) == planned_action(FixerKind::Prettier, *violation),
    {
        Ok(plan_with(FixerKind::Prettier, violation))
    }

    fn execute(&self, action: &RepairAction) -> (r: Result<RepairResult, PlanningError>)
        ensures
            r matches Ok(res) && executed_as(res, FixerKind::Prettier, action.id@),
    {
        Ok(execute_with(FixerKind::Prettier, action))
    }
}

/// The ClippyFixer fixer.
pub struct ClippyFixer;

impl Fixer for ClippyFixer {
    fn id(&self) -> (r: &'static str)
        ensures
            r@ == FixerKind::Clippy.id_text(),
    {
        FixerKind::Clippy.id()
    }

    fn plan(&self, violation: &Violation, root_cause: &RootCause) -> (r: Result<Option<RepairAction>, PlanningError>)
        ensures
            r matches Ok(o) && planned_view(o) == planned_action(FixerKind::Clippy, *violation),
    {
        Ok(plan_with(FixerKind::Clippy, violation))
    }

    fn execute(&self, action: &RepairAction) -> (r: Result<RepairResult, PlanningError>)
        ensures
            r matches Ok(res) && executed_as(res, FixerKind::Clippy, action.id@),
    {
        Ok(execute_with(FixerKind::Clippy, action))
    }
}

/// The EslintFixer fixer.
pub struct EslintFixer;

impl Fixer for EslintFixer {
    fn id(&self) -> (r: &'static str)
        ensures
            r@ == FixerKind::Eslint.id_text(),
    {
        FixerKind::Eslint.id()
    }

    fn plan(&self, violation: &Violation, root_cause: &RootCause) -> (r: Result<Option<RepairAction>, PlanningError>)
        ensures
            r matches Ok(o) && planned_view(o) == planned_action(FixerKind::Eslint, *violation),
    {
        Ok(plan_with(FixerKind::Eslint, violation))
    }

    fn execute(&self, action: &RepairAction) -> (r: Result<RepairResult, PlanningError>)
        ensures
            r matches Ok(res) && executed_as(res, FixerKind::Eslint, action.id@),
    {
        Ok(execute_with(FixerKind::Eslint, action))
    }
}

/// The FileOrganizationFixer fixer.
pub struct FileOrganizationFixer;

impl Fixer for FileOrganizationFixer {
    fn id(&self) -> (r: &'static str)
        ensures
            r@ == FixerKind::FileOrganization.id_text(),
    {
        FixerKind::FileOrganization.id()
    }

    fn plan(&self, violation: &Violation, root_cause: &RootCause) -> (r: Result<Option<RepairAction>, PlanningError>)
        ensures
            r matches Ok(o) && planned_view(o) == planned_action(FixerKind::FileOrganization, *violation),
    {
        Ok(plan_with(FixerKind::FileOrganization, violation))
    }

    fn execute(&self, action: &RepairAction) -> (r: Result<RepairResult, PlanningError>)
        ensures
            r matches Ok(res) && executed_as(res, FixerKind::FileOrganization, action.id@),
    {
        Ok(execute_with(FixerKind::FileOrganization, action))
    }
}

/// The NamingFixer fixer.
pub struct NamingFixer;

impl Fixer for NamingFixer {
    fn id(&self) -> (r: &'static str)
        ensures
            r@ == FixerKind::Naming.id_text(),
    {
        FixerKind::Naming.id()
    }

    fn plan(&self, violation: &Violation, root_cause: &RootCause) -> (r: Result<Option<RepairAction>, PlanningError>)
        ensures
            r matches Ok(o) && planned_view(o) == planned_action(FixerKind::Naming, *violation),
    {
        Ok(plan_with(FixerKind::Naming, violation))
    }

    fn execute(&self, action: &RepairAction) -> (r: Result<RepairResult, PlanningError>)
        ensures
            r matches Ok(res) && executed_as(res, FixerKind::Naming, action.id@),
    {
        Ok(execute_with(FixerKind::Naming, action))
    }
}

/// The StructuralFixer fixer.
pub struct StructuralFixer;

impl Fixer for StructuralFixer {
    fn id(&self) -> (r: &'static str)
        ensures
            r@ == FixerKind::Structure.id_text(),
    {
        FixerKind::Structure.id()
    }

    fn plan(&self, violation: &Violation, root_cause: &RootCause) -> (r: Result<Option<RepairAction>, PlanningError>)
        ensures
            r matches Ok(o) && planned_view(o) == planned_action(FixerKind::Structure, *violation),
    {
        Ok(plan_with(FixerKind::Structure, violation))
    }

    fn execute(&self, action: &RepairAction) -> (r: Result<RepairResult, PlanningError>)
        ensures
            r matches Ok(res) && executed_as(res, FixerKind::Structure, action.id@),
    {
        Ok(execute_with(FixerKind::Structure, action))
    }
}

/// The GitAttributesFixer fixer.
pub struct GitAttributesFixer;

impl Fixer for GitAttributesFixer {
    fn id(&self) -> (r: &'static str)
        ensures
            r@ == FixerKind::GitAttributes.id_text(),
    {
        FixerKind::GitAttributes.id()
    }

    fn plan(&self, violation: &Violation, root_cause: &RootCause) -> (r: Result<Option<RepairAction>, PlanningError>)
        ensures
            r matches Ok(o) && planned_view(o) == planned_action(FixerKind::GitAttributes, *violation),
    {
        Ok(plan_with(FixerKind::GitAttributes, violation))
    }

    fn execute(&self, action: &RepairAction) -> (r: Result<RepairResult, PlanningError>)
        ensures
            r matches Ok(res) && executed_as(res, FixerKind::GitAttributes, action.id@),
    {
        Ok(execute_with(FixerKind::GitAttributes, action))
    }
}

/// The ConfigFixer fixer.
pub struct ConfigFixer;

impl Fixer for ConfigFixer {
    fn id(&self) -> (r: &'static str)
        ensures
            r@ == FixerKind::Config.id_text(),
    {
        FixerKind::Config.id()
    }

    fn plan(&self, violation: &Violation, root_cause: &RootCause) -> (r: Result<Option<RepairAction>, PlanningError>)
        ensures
            r matches Ok(o) && planned_view(o) == planned_action(FixerKind::Config, *violation),
    {
        Ok(plan_with(FixerKind::Config, violation))
    }

    fn execute(&self, action: &RepairAction) -> (r: Result<RepairResult, PlanningError>)
        ensures
            r matches Ok(res) && executed_as(res, FixerKind::Config, action.id@),
    {
        Ok(execute_with(FixerKind::Config, action))
    }
}

/// The ConfigurationFixer fixer.
pub struct ConfigurationFixer;

impl Fixer for ConfigurationFixer {
    fn id(&self) -> (r: &'static str)
        ensures
            r@ == FixerKind::Configuration.id_text(),
    {
        FixerKind::Configuration.id()
    }

    fn plan(&self, violation: &Violation, root_cause: &RootCause) -> (r: Result<Option<RepairAction>, PlanningError>)
        ensures
            r matches Ok(o) && planned_view(o) == planned_action(FixerKind::Configuration, *violation),
    {
        Ok(plan_with(FixerKind::Configuration, violation))
    }

    fn execute(&self, action: &RepairAction) -> (r: Result<RepairResult, PlanningError>)
        ensures
            r matches Ok(res) && executed_as(res, FixerKind::Configuration, action.id@),
    {
        Ok(execute_with(FixerKind::Configuration, action))
    }
}


/// The fixers of the default pipeline, in order.
pub open spec fn default_fixers() -> Seq<FixerKind> {
    seq![FixerKind::Trunk, FixerKind::Dprint, FixerKind::Structure]
}

/// The fixers of the formatting pipeline, in order.
pub open spec fn formatting_fixers() -> Seq<FixerKind> {
    seq![FixerKind::Rustfmt, FixerKind::Dprint, FixerKind::Prettier]
}

/// The fixers of the linting pipeline, in order.
pub open spec fn linting_fixers() -> Seq<FixerKind> {
    seq![FixerKind::Clippy, FixerKind::Eslint, FixerKind::Trunk]
}

/// The fixers of the structural pipeline, in order.
pub open spec fn structural_fixers() -> Seq<FixerKind> {
    seq![FixerKind::FileOrganization, FixerKind::Naming, FixerKind::Structure]
}

/// The fixers of the configuration pipeline, in order.
pub open spec fn configuration_fixers() -> Seq<FixerKind> {
    seq![FixerKind::GitAttributes, FixerKind::Config, FixerKind::Configuration]
}

/// The fixers of the named pipeline, in order; none for an unknown name.
pub open spec fn pipeline_fixers(name: Seq<char>) -> Seq<FixerKind> {
    if name == "default"@ {
        default_fixers()
    } else if name == "formatting"@ {
        formatting_fixers()
    } else if name == "linting"@ {
        linting_fixers()
    } else if name == "structural"@ {
        structural_fixers()
    } else if name == "configuration"@ {
        configuration_fixers()
    } else {
        Seq::empty()
    }
}


/// Fixer pipeline configuration.
pub struct FixerPipeline {
    /// Pipeline name
    pub name: String,
    /// Ordered list of fixers in this pipeline
    pub fixers: Vec<FixerKind>,
    /// Pipeline metadata, in key order
    pub metadata: Vec<(String, JsonValue)>,
}

impl FixerPipeline {
    /// The default pipeline.
    pub fn default() -> (r: Self)
        ensures
            r.name@ == "default"@,
            r.fixers@ == default_fixers(),
            r.metadata@.len() == 0,
    {
        let mut fixers: Vec<FixerKind> = Vec::new();
        fixers.push(FixerKind::Trunk);
        fixers.push(FixerKind::Dprint);
        fixers.push(FixerKind::Structure);
        assert(fixers@ =~= default_fixers());
        FixerPipeline { name: "default".to_owned(), fixers, metadata: Vec::new() }
    }

    /// The formatting pipeline.
    pub fn formatting() -> (r: Self)
        ensures
            r.name@ == "formatting"@,
            r.fixers@ == formatting_fixers(),
            r.metadata@.len() == 0,
    {
        let mut fixers: Vec<FixerKind> = Vec::new();
        fixers.push(FixerKind::Rustfmt);
        fixers.push(FixerKind::Dprint);
        fixers.push(FixerKind::Prettier);
        assert(fixers@ =~= formatting_fixers());
        FixerPipeline { name: "formatting".to_owned(), fixers, metadata: Vec::new() }
    }

    /// The linting pipeline.
    pub fn linting() -> (r: Self)
        ensures
            r.name@ == "linting"@,
            r.fixers@ == linting_fixers(),
            r.metadata@.len() == 0,
    {
        let mut fixers: Vec<FixerKind> = Vec::new();
        fixers.push(FixerKind::Clippy);
        fixers.push(FixerKind::Eslint);
        fixers.push(FixerKind::Trunk);
        assert(fixers@ =~= linting_fixers());
        FixerPipeline { name: "linting".to_owned(), fixers, metadata: Vec::new() }
    }

    /// The structural pipeline.
    pub fn structural() -> (r: Self)
        ensures
            r.name@ == "structural"@,
            r.fixers@ == structural_fixers(),
            r.metadata@.len() == 0,
    {
        let mut fixers: Vec<FixerKind> = Vec::new();
        fixers.push(FixerKind::FileOrganization);
        fixers.push(FixerKind::Naming);
        fixers.push(FixerKind::Structure);
        assert(fixers@ =~= structural_fixers());
        FixerPipeline { name: "structural".to_owned(), fixers, metadata: Vec::new() }
    }

    /// The configuration pipeline.
    pub fn configuration() -> (r: Self)
        ensures
            r.name@ == "configuration"@,
            r.fixers@ == configuration_fixers(),
            r.metadata@.len() == 0,
    {
        let mut fixers: Vec<FixerKind> = Vec::new();
        fixers.push(FixerKind::GitAttributes);
        fixers.push(FixerKind::Config);
        fixers.push(FixerKind::Configuration);
        assert(fixers@ =~= configuration_fixers());
        FixerPipeline { name: "configuration".to_owned(), fixers, metadata: Vec::new() }
    }

}

/// The pipeline a root cause is routed to: that of its first fix
/// category, the default pipeline where it has none.
pub open spec fn selected_pipeline(categories: Seq<FixCategory>) -> Seq<char> {
    if categories.len() == 0 {
        "default"@
    } else {
        match categories[0] {
            FixCategory::Formatting => "formatting"@,
            FixCategory::Linting => "linting"@,
            FixCategory::Structure => "structural"@,
            FixCategory::Configuration => "configuration"@,
            FixCategory::ToolSpecific => "default"@,
            FixCategory::Content => "default"@,
        }
    }
}

/// `e` is the pipeline of `key` as the dispatcher holds it: under its name,
/// with the given fixers and no metadata.
pub open spec fn standard_pipeline(e: (String, FixerPipeline), key: Seq<char>, fixers: Seq<FixerKind>) -> bool {
    &&& e.0@ == key
    &&& e.1.name@ == key
    &&& e.1.fixers@ == fixers
    &&& e.1.metadata@.len() == 0
}

/// The default, formatting, linting, structural and configuration
/// pipelines, in that order, each under its name.
pub open spec fn standard_pipelines(p: Seq<(String, FixerPipeline)>) -> bool {
    &&& p.len() == 5
    &&& standard_pipeline(p[0], "default"@, default_fixers())
    &&& standard_pipeline(p[1], "formatting"@, formatting_fixers())
    &&& standard_pipeline(p[2], "linting"@, linting_fixers())
    &&& standard_pipeline(p[3], "structural"@, structural_fixers())
    &&& standard_pipeline(p[4], "configuration"@, configuration_fixers())
}

/// Dispatcher role: routes concerns to fixer pipelines.
pub struct Dispatcher {
    pipelines: Vec<(String, FixerPipeline)>,
}

impl Dispatcher {
    /// The dispatcher holds the standard pipelines.
    #[verifier::type_invariant]
    spec fn standard(self) -> bool {
        standard_pipelines(self.pipelines@)
    }

    /// The pipelines the dispatcher holds, each under its name.
    pub closed spec fn pipelines(&self) -> Seq<(String, FixerPipeline)> {
        self.pipelines@
    }

    /// A dispatcher with the five standard pipelines.
    pub fn new() -> (r: Self)
        ensures
            standard_pipelines(r.pipelines()),
    {
        let mut pipelines: Vec<(String, FixerPipeline)> = Vec::new();
        pipelines.push(("default".to_owned(), FixerPipeline::default()));
        pipelines.push(("formatting".to_owned(), FixerPipeline::formatting()));
        pipelines.push(("linting".to_owned(), FixerPipeline::linting()));
        pipelines.push(("structural".to_owned(), FixerPipeline::structural()));
        pipelines.push(("configuration".to_owned(), FixerPipeline::configuration()));
        Dispatcher { pipelines }
    }

    /// The number of pipelines the dispatcher holds.
    pub fn pipeline_count(&self) -> (r: usize)
        ensures
            r == 5,
    {
        proof {
            use_type_invariant(self);
        }
        self.pipelines.len()
    }

    /// The pipeline a root cause is routed to.
    fn select_pipeline(&self, root_cause: &RootCause) -> (r: String)
        ensures
            r@ == selected_pipeline(root_cause.fix_categories@),
    {
        if root_cause.fix_categories.len() == 0 {
            return "default".to_owned();
        }
        match root_cause.fix_categories[0] {
            FixCategory::Formatting => "formatting".to_owned(),
            FixCategory::Linting => "linting".to_owned(),
            FixCategory::Structure => "structural".to_owned(),
            FixCategory::Configuration => "configuration".to_owned(),
            FixCategory::ToolSpecific => "default".to_owned(),
            FixCategory::Content => "default".to_owned(),
        }
    }

    /// Dispatch a violation to the pipeline its root cause is routed to.
    pub fn dispatch(&self, violation: &Violation, root_cause: &RootCause) -> (r: Result<String, PlanningError>)
        ensures
            r matches Ok(name) && name@ == selected_pipeline(root_cause.fix_categories@),
    {
        Ok(self.select_pipeline(root_cause))
    }

    /// The pipeline of a name, if the dispatcher holds one.
    pub fn get_pipeline(&self, name: &str) -> (r: Option<&FixerPipeline>)
        ensures
            match r {
                Some(p) => p.name@ == name@ && p.fixers@ == pipeline_fixers(name@),
                None => pipeline_fixers(name@) == Seq::<FixerKind>::empty(),
            },
    {
        proof {
            use_type_invariant(self);
        }
        if str_eq(self.pipelines[0].0.as_str(), name) {
            return Some(&self.pipelines[0].1);
        }
        if str_eq(self.pipelines[1].0.as_str(), name) {
            return Some(&self.pipelines[1].1);
        }
        if str_eq(self.pipelines[2].0.as_str(), name) {
            return Some(&self.pipelines[2].1);
        }
        if str_eq(self.pipelines[3].0.as_str(), name) {
            return Some(&self.pipelines[3].1);
        }
        if str_eq(self.pipelines[4].0.as_str(), name) {
            return Some(&self.pipelines[4].1);
        }
        None
    }
}

/// The actions that the fixers plan for a violation, in fixer order, each
/// numbered `action_N` in turn and given the position of its fixer as
/// priority.
pub open spec fn plan_actions(fixers: Seq<FixerKind>, v: Violation) -> Seq<ActionView>
    decreases fixers.len(),
{
    if fixers.len() == 0 {
        Seq::empty()
    } else {
        let prev = plan_actions(fixers.drop_last(), v);
        match planned_action(fixers.last(), v) {
            Some(a) => prev.push(
                ActionView { id: "action_"@ + decimal_text(prev.len()), priority: (fixers.len() - 1) as u32, ..a },
            ),
            None => prev,
        }
    }
}

/// The key under which a plan is cached: concern, contract and snapshot
/// hash.
pub open spec fn cache_key(v: ViolationView, hash: Seq<char>) -> Seq<char> {
    v.concern.name_text() + ":"@ + v.contract + ":"@ + hash
}

/// The views of cached plans.
pub open spec fn cache_views(c: Seq<(String, RepairPlan)>) -> Seq<(Seq<char>, PlanView)> {
    c.map_values(|e: (String, RepairPlan)| (e.0@, e.1@))
}

/// `p` is the plan made afresh for a violation by investigators with the
/// given strategies: its root cause, the pipeline that cause is routed to,
/// and the actions of that pipeline's fixers.
pub open spec fn fresh_plan(p: PlanView, strategies: Seq<AnalysisStrategy>, v: Violation) -> bool {
    let rc = investigation(strategies, v@);
    let name = selected_pipeline(rc.fix_categories);
    &&& p.concern == v.concern
    &&& p.contract == v.contract@
    &&& p.violation == v@
    &&& p.root_cause == rc
    &&& p.dispatcher == name
    &&& p.actions == plan_actions(pipeline_fixers(name), v)
    &&& p.is_complete
    &&& p.metadata.len() == 0
}

/// Triage officer role: plans the repair of failing concerns.
pub struct TriageOfficer {
    investigator: Investigator,
    dispatcher: Dispatcher,
    plan_cache: Vec<(String, RepairPlan)>,
}

impl TriageOfficer {
    /// The cached plans, under their keys.
    pub closed spec fn cache(&self) -> Seq<(Seq<char>, PlanView)> {
        cache_views(self.plan_cache@)
    }

    /// The strategies of the officer's investigator.
    pub closed spec fn strategies(&self) -> Seq<AnalysisStrategy> {
        self.investigator.strategy_list()
    }

    /// The pipelines of the officer's dispatcher.
    pub closed spec fn pipelines(&self) -> Seq<(String, FixerPipeline)> {
        self.dispatcher.pipelines()
    }

    /// A triage officer with an empty cache.
    pub fn new() -> (r: Self)
        ensures
            r.cache().len() == 0,
            r.strategies() == seq![
                AnalysisStrategy::PatternMatching,
                AnalysisStrategy::RuleViolation,
                AnalysisStrategy::ToolOutput,
            ],
            standard_pipelines(r.pipelines()),
    {
        let r = TriageOfficer { investigator: Investigator::new(), dispatcher: Dispatcher::new(), plan_cache: Vec::new() };
        assert(cache_views(r.plan_cache@) =~= Seq::<(Seq<char>, PlanView)>::empty());
        r
    }

    /// The number of cached plans.
    pub fn cached_plan_count(&self) -> (r: usize)
        ensures
            r == self.cache().len(),
    {
        self.plan_cache.len()
    }

    /// The actions the pipeline's fixers plan for a violation.
    fn generate_actions(&self, violation: &Violation, pipeline: &FixerPipeline) -> (r: Vec<RepairAction>)
        requires
            pipeline.fixers@.len() < 0x1_0000_0000,
        ensures
            action_views(r@) == plan_actions(pipeline.fixers@, *violation),
    {
        let mut actions: Vec<RepairAction> = Vec::new();
        let mut i: usize = 0;
        while i < pipeline.fixers.len()
            invariant
                i <= pipeline.fixers@.len(),
                pipeline.fixers@.len() < 0x1_0000_0000,
                action_views(actions@) == plan_actions(pipeline.fixers@.subrange(0, i as int), *violation),
            decreases pipeline.fixers@.len() - i,
        {
            let ghost pre = pipeline.fixers@.subrange(0, i as int);
            assert(pipeline.fixers@.subrange(0, i + 1).drop_last() =~= pre);
            match plan_with(pipeline.fixers[i], violation) {
                Some(action) => {
                    let mut a = action;
                    let mut id = "action_".to_owned();
                    push_decimal(&mut id, actions.len() as u64);
                    a.id = id;
                    a.priority = i as u32;
                    let ghost before = actions@;
                    actions.push(a);
                    assert(action_views(actions@) =~= action_views(before).push(actions@.last()@));
                },
                None => {},
            }
            i = i + 1;
        }
        assert(pipeline.fixers@.subrange(0, pipeline.fixers@.len() as int) =~= pipeline.fixers@);
        actions
    }

    /// The cache key of a violation and snapshot.
    fn create_cache_key(&self, violation: &Violation, snapshot: &ConcernSnapshot) -> (r: String)
        ensures
            r@ == cache_key(violation@, snapshot.hash@),
    {
        let mut key = violation.concern.name().to_owned();
        key.append(":");
        key.append(violation.contract.as_str());
        key.append(":");
        key.append(snapshot.hash.as_str());
        key
    }

    /// The cached plan of a key, if any.
    fn cached(&self, key: &String) -> (r: Option<usize>)
        ensures
            match r {
                Some(i) => i < self.plan_cache@.len() && crate::sarif_roles::first_key_index(self.cache(), key@) == Some(i as int),
                None => crate::sarif_roles::first_key_index(self.cache(), key@) is None,
            },
    {
        let ghost cv = cache_views(self.plan_cache@);
        let mut i: usize = 0;
        while i < self.plan_cache.len()
            invariant
                i <= self.plan_cache@.len(),
                cv == cache_views(self.plan_cache@),
                crate::sarif_roles::first_key_index(cv.subrange(0, i as int), key@) is None,
            decreases self.plan_cache@.len() - i,
        {
            assert(cv.subrange(0, i + 1).drop_last() =~= cv.subrange(0, i as int));
            if str_eq(self.plan_cache[i].0.as_str(), key.as_str()) {
                proof {
                    assert(cv[i as int].0 == key@);
                    assert(crate::sarif_roles::first_key_index(cv.subrange(0, i + 1), key@) == Some(i as int));
                    crate::sarif_roles::lemma_first_key_prefix(cv, key@, i + 1);
                }
                return Some(i);
            }
            i = i + 1;
        }
        assert(cv.subrange(0, cv.len() as int) =~= cv);
        None
    }

    /// Create a repair plan for a failing concern: the cached plan of its
    /// concern, contract and snapshot hash where there is one, else a plan
    /// made afresh and cached under that key.
    pub fn create_plan(&mut self, violation: &Violation, snapshot: &ConcernSnapshot) -> (r: Result<RepairPlan, PlanningError>)
        ensures
            final(self).strategies() == old(self).strategies(),
            ({
                let key = cache_key(violation@, snapshot.hash@);
                match crate::sarif_roles::first_key_index(old(self).cache(), key) {
                    Some(i) => r matches Ok(p) && p@ == old(self).cache()[i].1 && final(self).cache() == old(self).cache(),
                    None => r matches Ok(p) && fresh_plan(p@, old(self).strategies(), *violation) && final(self).cache()
                        == crate::sarif_roles::upsert(old(self).cache(), key, p@),
                }
            }),
    {
        let key = self.create_cache_key(violation, snapshot);
        match self.cached(&key) {
            Some(i) => {
                return Ok(self.plan_cache[i].1.duplicate());
            },
            None => {},
        }
        let root_cause = match self.investigator.investigate(violation, snapshot) {
            Ok(rc) => rc,
            Err(e) => {
                return Err(e);
            },
        };
        let pipeline_name = match self.dispatcher.dispatch(violation, &root_cause) {
            Ok(n) => n,
            Err(e) => {
                return Err(e);
            },
        };
        let actions = match self.dispatcher.get_pipeline(pipeline_name.as_str()) {
            Some(pipeline) => {
                proof {
                    lemma_pipeline_small(pipeline_name@);
                }
                self.generate_actions(violation, pipeline)
            },
            None => {
                proof {
                    lemma_selected_pipeline_exists(root_cause.fix_categories@);
                }
                return Err(PlanningError::PipelineNotFound(pipeline_name));
            },
        };
        let metadata: Vec<(String, JsonValue)> = Vec::new();
        proof {
            lemma_fields_view(metadata@);
        }
        let plan = RepairPlan {
            id: new_uuid_v4(),
            concern: violation.concern,
            contract: copy_string(&violation.contract),
            violation: violation.duplicate(),
            root_cause,
            dispatcher: pipeline_name,
            actions,
            is_complete: true,
            metadata,
            timestamp: utc_now_rfc3339(),
        };
        let stored = plan.duplicate();
        let ghost cv = cache_views(self.plan_cache@);
        let ghost pv = plan@;
        self.plan_cache.push((key, stored));
        assert(cache_views(self.plan_cache@) =~= cv.push((key@, pv)));
        Ok(plan)
    }
}

/// Every pipeline that a root cause can be routed to exists.
proof fn lemma_selected_pipeline_exists(categories: Seq<FixCategory>)
    ensures
        pipeline_fixers(selected_pipeline(categories)).len() > 0,
{
    reveal_strlit("default");
    reveal_strlit("formatting");
    reveal_strlit("linting");
    reveal_strlit("structural");
    reveal_strlit("configuration");
}

/// A pipeline holds few fixers.
proof fn lemma_pipeline_small(name: Seq<char>)
    ensures
        pipeline_fixers(name).len() <= 3,
{
}

} // verus!
