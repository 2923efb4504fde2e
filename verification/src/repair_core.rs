//! Core repair planning: repair plans and their actions, the fixer
//! interface, the validation of a plan's action graph (no circular
//! dependency, no dangling reference, every required action has a fixer),
//! and the export of a plan as a Mermaid flowchart.

use vstd::prelude::*;
use crate::symbols::ConcernSymbol;
use crate::json::{JsonValue, JsonView, fields_view};
use crate::sarif::{texts, copy_string, first_appearances, lemma_first_appearances_contains, lemma_first_appearances_distinct, index_of_text, contains_text};
use crate::text::{str_eq, str_contains, seq_contains_seq, push_char, chars_of, decimal_text, push_decimal};

verus! {

/// Error types for repair planning operations.
#[derive(Debug, Clone, PartialEq, Eq)]
pub enum RepairError {
    /// Invalid repair action detected
    InvalidAction(String),
    /// Circular dependency detected in repair plan
    CircularDependency,
    /// Invalid fixer ID provided
    InvalidFixer(String),
    /// Plan validation failed
    ValidationFailed(String),
    /// Serialization error, with its message
    Serialization(String),
}

impl RepairError {
    /// The message of the error, as text.
    pub open spec fn message_text(self) -> Seq<char> {
        match self {
            RepairError::InvalidAction(s) => "Invalid repair action: "@ + s@,
            RepairError::CircularDependency => "Circular dependency detected in repair plan"@,
            RepairError::InvalidFixer(s) => "Invalid fixer ID: "@ + s@,
            RepairError::ValidationFailed(s) => "Plan validation failed: "@ + s@,
            RepairError::Serialization(s) => "Serialization error: "@ + s@,
        }
    }

    /// The message of the error.
    pub fn message(&self) -> (r: String)
        ensures
            r@ == self.message_text(),
    {
        let (prefix, detail): (&str, Option<&String>) = match self {
            RepairError::InvalidAction(s) => ("Invalid repair action: ", Some(s)),
            RepairError::CircularDependency => ("Circular dependency detected in repair plan", None),
            RepairError::InvalidFixer(s) => ("Invalid fixer ID: ", Some(s)),
            RepairError::ValidationFailed(s) => ("Plan validation failed: ", Some(s)),
            RepairError::Serialization(s) => ("Serialization error: ", Some(s)),
        };
        let mut m = prefix.to_owned();
        match detail {
            Some(s) => m.append(s.as_str()),
            None => {},
        }
        m
    }
}

/// Types of repair actions that can be performed.
#[derive(Debug, Clone, PartialEq, Eq)]
pub enum ActionType {
    /// Edit a file at specific line/column
    Edit { line: u32, column: u32, content: String },
    /// Replace entire file content
    Replace { content: String },
    /// Delete a file
    Delete,
    /// Reorder lines in a file
    ReorderLines { strategy: String },
    /// Run a command
    RunCommand { command: String, args: Vec<String> },
    /// Apply a patch
    ApplyPatch { patch: String },
    /// Create a new file
    Create { content: String },
    /// Move/rename a file
    Move { new_path: String },
}

impl ActionType {
    /// The one-line description of the action, as text.
    pub open spec fn text(self) -> Seq<char> {
        match self {
            ActionType::Edit { line, column, .. } => "Edit at "@ + decimal_text(line as nat) + ":"@ + decimal_text(
                column as nat,
            ),
            ActionType::Replace { .. } => "Replace content"@,
            ActionType::Delete => "Delete file"@,
            ActionType::ReorderLines { strategy } => "Reorder lines ("@ + strategy@ + ")"@,
            ActionType::RunCommand { command, .. } => "Run: "@ + command@,
            ActionType::ApplyPatch { .. } => "Apply patch"@,
            ActionType::Create { .. } => "Create file"@,
            ActionType::Move { new_path } => "Move to "@ + new_path@,
        }
    }

    /// The one-line description of the action.
    pub fn to_string(&self) -> (r: String)
        ensures
            r@ == self.text(),
    {
        match self {
            ActionType::Edit { line, column, .. } => {
                let mut s = "Edit at ".to_owned();
                push_decimal(&mut s, *line as u64);
                s.append(":");
                push_decimal(&mut s, *column as u64);
                s
            },
            ActionType::Replace { .. } => "Replace content".to_owned(),
            ActionType::Delete => "Delete file".to_owned(),
            ActionType::ReorderLines { strategy } => {
                let mut s = "Reorder lines (".to_owned();
                s.append(strategy.as_str());
                s.append(")");
                s
            },
            ActionType::RunCommand { command, .. } => {
                let mut s = "Run: ".to_owned();
                s.append(command.as_str());
                s
            },
            ActionType::ApplyPatch { .. } => "Apply patch".to_owned(),
            ActionType::Create { .. } => "Create file".to_owned(),
            ActionType::Move { new_path } => {
                let mut s = "Move to ".to_owned();
                s.append(new_path.as_str());
                s
            },
        }
    }
}

/// A specific repair action to be executed.
#[derive(Debug, Clone, PartialEq)]
pub struct RepairAction {
    /// Unique identifier for this action
    pub id: String,
    /// ID of the fixer that will execute this action
    pub fixer_id: String,
    /// Type of action to perform
    pub action_type: ActionType,
    /// Target path for the action
    pub path: String,
    /// Action-specific parameters, in key order
    pub params: Vec<(String, JsonValue)>,
    /// Whether this action is required (vs optional)
    pub required: bool,
    /// Priority level (lower = higher priority)
    pub priority: u32,
    /// IDs of actions this depends on
    pub dependencies: Vec<String>,
}

/// Result of executing a repair action.
#[derive(Debug, Clone)]
pub struct ActionResult {
    /// ID of the action that was executed
    pub action_id: String,
    /// Whether the action succeeded
    pub success: bool,
    /// Messages from the fixer
    pub messages: Vec<String>,
    /// Diff showing what changed
    pub diff: Option<String>,
    /// New hash of the modified object
    pub new_hash: Option<String>,
}

/// Severity levels for violations.
#[derive(Debug, Clone, Copy, PartialEq, Eq, Structural)]
pub enum ViolationSeverity {
    Error,
    Warning,
    Info,
}

/// A contract violation that needs repair.
#[derive(Debug, Clone)]
pub struct Violation {
    /// The concern that violated the contract
    pub concern: ConcernSymbol,
    /// Contract that was violated
    pub contract: String,
    /// Human-readable violation message
    pub message: String,
    /// Location of the violation (file:line:column)
    pub location: String,
    /// Severity level
    pub severity: ViolationSeverity,
}

/// Categories of fixes that can be applied.
#[derive(Debug, Clone, Copy, PartialEq, Eq, Structural)]
pub enum FixCategory {
    /// Formatting fixes (indentation, spacing, etc.)
    Formatting,
    /// Linting fixes (code quality, style violations)
    Linting,
    /// Structural fixes (file organization, naming)
    Structure,
    /// Configuration fixes (settings, options)
    Configuration,
    /// Content fixes (actual file content changes)
    Content,
    /// Tool-specific fixes (external tool integration)
    ToolSpecific,
}

/// Result of root cause analysis.
#[derive(Debug, Clone)]
pub struct RootCause {
    /// Primary cause of the violation
    pub primary_cause: String,
    /// Contributing factors
    pub factors: Vec<String>,
    /// Categories of fixes that could resolve this
    pub fix_categories: Vec<FixCategory>,
    /// Confidence level, in hundredths (0 to 100)
    pub confidence: u32,
}

/// Complete repair plan for a failing concern.
#[derive(Debug, Clone)]
pub struct RepairPlan {
    /// Unique identifier for this plan
    pub id: String,
    /// The concern being repaired
    pub concern: ConcernSymbol,
    /// Contract that was violated
    pub contract: String,
    /// Violation details
    pub violation: Violation,
    /// Root cause analysis
    pub root_cause: RootCause,
    /// Dispatcher that created this plan
    pub dispatcher: String,
    /// Ordered list of repair actions
    pub actions: Vec<RepairAction>,
    /// Whether the plan is complete and ready for execution
    pub is_complete: bool,
    /// Additional metadata, in key order
    pub metadata: Vec<(String, JsonValue)>,
    /// Timestamp when plan was created
    pub timestamp: String,
}

/// A fixer: plans and executes repair actions.
pub trait Fixer {
    /// Unique identifier for this fixer.
    fn id(&self) -> &'static str;

    /// Plan a repair action for the given violation.
    fn plan(&self, violation: &Violation, root_cause: &RootCause) -> Result<Option<RepairAction>, RepairError>;

    /// Execute a repair action.
    fn execute(&self, action: &RepairAction) -> Result<ActionResult, RepairError>;

    /// Whether this fixer can handle the given violation.
    fn can_handle(&self, violation: &Violation) -> bool {
        true
    }
}

/// The identifiers of the actions, in order.
pub open spec fn action_ids(actions: Seq<RepairAction>) -> Seq<Seq<char>> {
    actions.map_values(|a: RepairAction| a.id@)
}

/// The dependencies of the action named `id`: those of the last action with
/// that identifier (a later action of an identifier replaces an earlier
/// one); none where no action has it.
pub open spec fn deps_of(actions: Seq<RepairAction>, id: Seq<char>) -> Seq<Seq<char>>
    decreases actions.len(),
{
    if actions.len() == 0 {
        Seq::empty()
    } else if actions.last().id@ == id {
        texts(actions.last().dependencies@)
    } else {
        deps_of(actions.drop_last(), id)
    }
}

/// `group` is a nonempty set of actions, each of which depends on an action
/// of the group: none of them can ever be done first.
pub open spec fn waits_within(actions: Seq<RepairAction>, group: Set<Seq<char>>) -> bool {
    &&& exists|x: Seq<char>| group.contains(x)
    &&& forall|x: Seq<char>|
        #[trigger] group.contains(x) ==> action_ids(actions).contains(x) && exists|y: Seq<char>|
            #[trigger] deps_of(actions, x).contains(y) && group.contains(y)
}

/// The plan's actions depend on each other in a circle: some group of
/// them waits within itself.
pub open spec fn has_circular_dependency(actions: Seq<RepairAction>) -> bool {
    exists|group: Set<Seq<char>>| #[trigger] waits_within(actions, group)
}

/// The first dependency that names no action, if any.
pub open spec fn first_dangling(ids: Seq<Seq<char>>, deps: Seq<Seq<char>>) -> Option<Seq<char>>
    decreases deps.len(),
{
    if deps.len() == 0 {
        None
    } else if !ids.contains(deps[0]) {
        Some(deps[0])
    } else {
        first_dangling(ids, deps.drop_first())
    }
}

/// The first action, in order, with a dependency that names no action of
/// `ids`, and that dependency.
pub open spec fn first_dangling_action(ids: Seq<Seq<char>>, actions: Seq<RepairAction>) -> Option<(Seq<char>, Seq<char>)>
    decreases actions.len(),
{
    if actions.len() == 0 {
        None
    } else {
        match first_dangling(ids, texts(actions[0].dependencies@)) {
            Some(d) => Some((actions[0].id@, d)),
            None => first_dangling_action(ids, actions.drop_first()),
        }
    }
}

/// The first required action without a fixer, if any.
pub open spec fn first_unassigned(actions: Seq<RepairAction>) -> Option<Seq<char>>
    decreases actions.len(),
{
    if actions.len() == 0 {
        None
    } else if actions[0].required && actions[0].fixer_id@.len() == 0 {
        Some(actions[0].id@)
    } else {
        first_unassigned(actions.drop_first())
    }
}

/// `r` is an invalid-action error with message `text`.
pub open spec fn invalid_action_with(r: Result<(), RepairError>, text: Seq<char>) -> bool {
    match r {
        Err(RepairError::InvalidAction(m)) => m@ == text,
        _ => false,
    }
}

/// `r` is the outcome of validating actions: a circular dependency is
/// reported first, then a dependency on no action, then a required action
/// without a fixer.
pub open spec fn validation_outcome(actions: Seq<RepairAction>, r: Result<(), RepairError>) -> bool {
    if has_circular_dependency(actions) {
        r == Err::<(), RepairError>(RepairError::CircularDependency)
    } else {
        match first_dangling_action(action_ids(actions), actions) {
            Some((a, d)) => invalid_action_with(r, "Action "@ + a + " depends on non-existent action "@ + d),
            None => match first_unassigned(actions) {
                Some(a) => invalid_action_with(r, "Required action "@ + a + " has no fixer"@),
                None => r is Ok,
            },
        }
    }
}

/// Validates repair plans.
pub struct PlanValidator;

/// Identifier `d` names a node that is still pending.
pub open spec fn pending(nodes: Seq<Seq<char>>, remaining: Seq<bool>, d: Seq<char>) -> bool {
    exists|k: int| 0 <= k < nodes.len() && #[trigger] remaining[k] && nodes[k] == d
}

/// The action named `x` depends on a pending node.
pub open spec fn blocked(actions: Seq<RepairAction>, nodes: Seq<Seq<char>>, remaining: Seq<bool>, x: Seq<char>) -> bool {
    exists|d: Seq<char>| #[trigger] deps_of(actions, x).contains(d) && pending(nodes, remaining, d)
}

/// Every node in `order` was done after every node among its dependencies.
pub open spec fn ranked(actions: Seq<RepairAction>, nodes: Seq<Seq<char>>, order: Seq<int>) -> bool {
    forall|p: int, y: Seq<char>|
        0 <= p < order.len() && #[trigger] deps_of(actions, nodes[order[p]]).contains(y) && nodes.contains(y)
            ==> exists|q: int| 0 <= q < p && #[trigger] nodes[order[q]] == y
}

/// A ranked order of nodes holds no node of a group that waits within
/// itself.
proof fn lemma_ranked_outside_group(
    actions: Seq<RepairAction>,
    nodes: Seq<Seq<char>>,
    order: Seq<int>,
    group: Set<Seq<char>>,
    p: int,
)
    requires
        ranked(actions, nodes, order),
        waits_within(actions, group),
        forall|x: Seq<char>| action_ids(actions).contains(x) ==> nodes.contains(x),
        forall|i: int| 0 <= i < order.len() ==> 0 <= #[trigger] order[i] < nodes.len(),
        0 <= p < order.len(),
    ensures
        !group.contains(nodes[order[p]]),
    decreases p,
{
    let x = nodes[order[p]];
    if group.contains(x) {
        let y = choose|y: Seq<char>| #[trigger] deps_of(actions, x).contains(y) && group.contains(y);
        assert(action_ids(actions).contains(y));
        assert(nodes.contains(y));
        let q = choose|q: int| 0 <= q < p && #[trigger] nodes[order[q]] == y;
        lemma_ranked_outside_group(actions, nodes, order, group, q);
    }
}

/// An order that holds each of `n` nodes at most once holds at most `n`.
proof fn lemma_order_bounded(order: Seq<int>, n: int)
    requires
        0 <= n,
        order.no_duplicates(),
        forall|i: int| 0 <= i < order.len() ==> 0 <= #[trigger] order[i] < n,
    ensures
        order.len() <= n,
{
    order.unique_seq_to_set();
    vstd::set_lib::lemma_int_range(0, n);
    assert(order.to_set().subset_of(vstd::set_lib::set_int_range(0, n)));
    vstd::set_lib::lemma_len_subset(order.to_set(), vstd::set_lib::set_int_range(0, n));
}

/// The dependencies of the last action named `id`, if any.
fn deps_for<'a>(actions: &'a Vec<RepairAction>, id: &String) -> (r: Option<&'a Vec<String>>)
    ensures
        match r {
            Some(v) => texts(v@) == deps_of(actions@, id@),
            None => deps_of(actions@, id@) == Seq::<Seq<char>>::empty(),
        },
{
    let mut found: Option<usize> = None;
    let mut i: usize = 0;
    while i < actions.len()
        invariant
            i <= actions@.len(),
            match found {
                Some(k) => k < i && texts(actions@[k as int].dependencies@) == deps_of(actions@.subrange(0, i as int), id@),
                None => deps_of(actions@.subrange(0, i as int), id@) == Seq::<Seq<char>>::empty(),
            },
        decreases actions@.len() - i,
    {
        assert(actions@.subrange(0, i + 1).drop_last() =~= actions@.subrange(0, i as int));
        if str_eq(actions[i].id.as_str(), id.as_str()) {
            found = Some(i);
        }
        i = i + 1;
    }
    assert(actions@.subrange(0, actions@.len() as int) =~= actions@);
    match found {
        Some(k) => Some(&actions[k].dependencies),
        None => None,
    }
}

/// Whether node `j` depends on a pending node.
fn is_blocked(actions: &Vec<RepairAction>, nodes: &Vec<String>, remaining: &Vec<bool>, j: usize) -> (r: bool)
    requires
        j < nodes@.len(),
        remaining@.len() == nodes@.len(),
        texts(nodes@).no_duplicates(),
    ensures
        r == blocked(actions@, texts(nodes@), remaining@, nodes@[j as int]@),
{
    let ghost nt = texts(nodes@);
    let ghost x = nodes@[j as int]@;
    match deps_for(actions, &nodes[j]) {
        None => {
            assert(!blocked(actions@, nt, remaining@, x));
            false
        },
        Some(deps) => {
            let mut i: usize = 0;
            while i < deps.len()
                invariant
                    i <= deps@.len(),
                    nt == texts(nodes@),
                    x == nodes@[j as int]@,
                    j < nodes@.len(),
                    nt.no_duplicates(),
                    remaining@.len() == nodes@.len(),
                    texts(deps@) == deps_of(actions@, x),
                    forall|i2: int| 0 <= i2 < i ==> !pending(nt, remaining@, #[trigger] deps@[i2]@),
                decreases deps@.len() - i,
            {
                match index_of_text(nodes, &deps[i]) {
                    Some(k) => {
                        if remaining[k] {
                            assert(texts(deps@)[i as int] == deps@[i as int]@);
                            assert(deps_of(actions@, x).contains(deps@[i as int]@));
                            assert(nt[k as int] == deps@[i as int]@);
                            assert(pending(nt, remaining@, deps@[i as int]@));
                            return true;
                        }
                        assert forall|k2: int| 0 <= k2 < nt.len() && #[trigger] remaining@[k2] implies nt[k2] != deps@[i as int]@ by {
                            if nt[k2] == deps@[i as int]@ {
                                assert(nt[k as int] == deps@[i as int]@);
                            }
                        }
                    },
                    None => {
                        assert forall|k2: int| 0 <= k2 < nt.len() && #[trigger] remaining@[k2] implies nt[k2] != deps@[i as int]@ by {
                            if nt[k2] == deps@[i as int]@ {
                                assert(nt.contains(deps@[i as int]@));
                            }
                        }
                    },
                }
                i = i + 1;
            }
            assert forall|d: Seq<char>| #[trigger] deps_of(actions@, x).contains(d) implies !pending(nt, remaining@, d) by {
                let i2 = choose|i2: int| 0 <= i2 < texts(deps@).len() && texts(deps@)[i2] == d;
                assert(deps@[i2]@ == d);
            }
            false
        },
    }
}

/// The state of peeling done actions off the graph: `order` lists, each
/// once, the nodes done so far, each after the nodes it depends on; the
/// others remain.
pub open spec fn peel_state(actions: Seq<RepairAction>, nodes: Seq<Seq<char>>, remaining: Seq<bool>, order: Seq<int>) -> bool {
    &&& remaining.len() == nodes.len()
    &&& order.no_duplicates()
    &&& forall|q: int| 0 <= q < order.len() ==> 0 <= #[trigger] order[q] < nodes.len()
    &&& forall|j: int| 0 <= j < nodes.len() ==> (#[trigger] remaining[j] <==> !order.contains(j))
    &&& ranked(actions, nodes, order)
}

/// Marking a remaining node that no pending node blocks as done keeps the
/// peeling state.
proof fn lemma_peel_step(actions: Seq<RepairAction>, nt: Seq<Seq<char>>, before: Seq<bool>, old_order: Seq<int>, j: int)
    requires
        peel_state(actions, nt, before, old_order),
        0 <= j < nt.len(),
        before[j],
        !blocked(actions, nt, before, nt[j]),
    ensures
        peel_state(actions, nt, before.update(j, false), old_order.push(j)),
        old_order.push(j).len() <= nt.len(),
{
    let order = old_order.push(j);
    let after = before.update(j, false);
    assert(!old_order.contains(j));
    assert forall|a: int, b: int| 0 <= a < order.len() && 0 <= b < order.len() && a != b implies order[a] != order[b] by {
        if a < old_order.len() && b < old_order.len() {
            assert(order[a] == old_order[a] && order[b] == old_order[b]);
        } else if a < old_order.len() {
            assert(order[a] == old_order[a]);
            assert(old_order.contains(old_order[a]));
        } else {
            assert(order[b] == old_order[b]);
            assert(old_order.contains(old_order[b]));
        }
    }
    assert forall|q: int| 0 <= q < order.len() implies 0 <= #[trigger] order[q] < nt.len() by {
        if q < old_order.len() {
            assert(order[q] == old_order[q]);
        }
    }
    assert forall|j2: int| 0 <= j2 < nt.len() implies (#[trigger] after[j2] <==> !order.contains(j2)) by {
        if j2 == j {
            assert(order[order.len() - 1] == j2);
        } else {
            assert(after[j2] == before[j2]);
            if old_order.contains(j2) {
                let w = choose|w: int| 0 <= w < old_order.len() && old_order[w] == j2;
                assert(order[w] == j2);
            }
            if order.contains(j2) {
                let w = choose|w: int| 0 <= w < order.len() && order[w] == j2;
                assert(w < old_order.len());
                assert(old_order[w] == j2);
            }
        }
    }
    assert forall|p: int, y: Seq<char>|
        0 <= p < order.len() && #[trigger] deps_of(actions, nt[order[p]]).contains(y) && nt.contains(y)
        implies exists|q: int| 0 <= q < p && #[trigger] nt[order[q]] == y by {
        if p < old_order.len() {
            assert(order[p] == old_order[p]);
            let q = choose|q: int| 0 <= q < p && #[trigger] nt[old_order[q]] == y;
            assert(order[q] == old_order[q]);
        } else {
            let k2 = choose|k2: int| 0 <= k2 < nt.len() && nt[k2] == y;
            if before[k2] {
                assert(pending(nt, before, y));
            }
            assert(old_order.contains(k2));
            let q = choose|q: int| 0 <= q < old_order.len() && old_order[q] == k2;
            assert(order[q] == k2);
        }
    }
    lemma_order_bounded(order, nt.len() as int);
}

/// Nodes that remain when no remaining node can be done wait within
/// themselves.
proof fn lemma_stuck_is_circular(actions: Seq<RepairAction>, nt: Seq<Seq<char>>, remaining: Seq<bool>, witness: int)
    requires
        remaining.len() == nt.len(),
        0 <= witness < nt.len(),
        remaining[witness],
        forall|j: int| 0 <= j < nt.len() && #[trigger] remaining[j] ==> blocked(actions, nt, remaining, nt[j]),
        forall|x: Seq<char>| nt.contains(x) ==> action_ids(actions).contains(x),
    ensures
        has_circular_dependency(actions),
{
    let group = Set::new(|x: Seq<char>| pending(nt, remaining, x));
    assert(group.contains(nt[witness]));
    assert forall|x: Seq<char>| #[trigger] group.contains(x) implies action_ids(actions).contains(x) && exists|y: Seq<char>|
        #[trigger] deps_of(actions, x).contains(y) && group.contains(y) by {
        let kx = choose|kx: int| 0 <= kx < nt.len() && #[trigger] remaining[kx] && nt[kx] == x;
        assert(blocked(actions, nt, remaining, nt[kx]));
        assert(nt.contains(x));
    }
    assert(waits_within(actions, group));
}

/// When every node is done, no group of actions waits within itself.
proof fn lemma_done_is_acyclic(actions: Seq<RepairAction>, nt: Seq<Seq<char>>, remaining: Seq<bool>, order: Seq<int>)
    requires
        peel_state(actions, nt, remaining, order),
        forall|j: int| 0 <= j < nt.len() ==> !#[trigger] remaining[j],
        forall|x: Seq<char>| action_ids(actions).contains(x) ==> nt.contains(x),
    ensures
        !has_circular_dependency(actions),
{
    assert forall|group: Set<Seq<char>>| !#[trigger] waits_within(actions, group) by {
        if waits_within(actions, group) {
            let x = choose|x: Seq<char>| group.contains(x);
            assert(action_ids(actions).contains(x));
            assert(nt.contains(x));
            let kx = choose|kx: int| 0 <= kx < nt.len() && nt[kx] == x;
            assert(!remaining[kx]);
            assert(order.contains(kx));
            let p = choose|p: int| 0 <= p < order.len() && order[p] == kx;
            lemma_ranked_outside_group(actions, nt, order, group, p);
        }
    }
}

/// The identifiers of the actions, each once, in order of first appearance.
fn collect_nodes(actions: &Vec<RepairAction>) -> (nodes: Vec<String>)
    ensures
        texts(nodes@) == first_appearances(action_ids(actions@)),
{
    let ghost ids = action_ids(actions@);
    let mut nodes: Vec<String> = Vec::new();
    let mut i: usize = 0;
    while i < actions.len()
        invariant
            i <= actions@.len(),
            ids == action_ids(actions@),
            texts(nodes@) == first_appearances(ids.subrange(0, i as int)),
        decreases actions@.len() - i,
    {
        assert(ids.subrange(0, i + 1).drop_last() =~= ids.subrange(0, i as int));
        assert(ids[i as int] == actions@[i as int].id@);
        if !contains_text(&nodes, &actions[i].id) {
            nodes.push(copy_string(&actions[i].id));
            assert(texts(nodes@) =~= first_appearances(ids.subrange(0, i + 1)));
        }
        i = i + 1;
    }
    assert(ids.subrange(0, actions@.len() as int) =~= ids);
    nodes
}

impl PlanValidator {
    /// Validate a plan: an error for a circular dependency among its
    /// actions, else for a dependency on no action, else for a required
    /// action without a fixer.
    pub fn validate(plan: &RepairPlan) -> (r: Result<(), RepairError>)
        ensures
            validation_outcome(plan.actions@, r),
    {
        match Self::check_circular_dependencies(plan) {
            Ok(()) => {},
            Err(e) => {
                return Err(e);
            },
        }
        match Self::check_action_references(plan) {
            Ok(()) => {},
            Err(e) => {
                return Err(e);
            },
        }
        Self::check_required_actions(plan)
    }

    /// An error exactly when the actions depend on each other in a circle.
    fn check_circular_dependencies(plan: &RepairPlan) -> (r: Result<(), RepairError>)
        ensures
            r is Ok <==> !has_circular_dependency(plan.actions@),
            r is Err ==> r == Err::<(), RepairError>(RepairError::CircularDependency),
    {
        let actions = &plan.actions;
        let ghost ids = action_ids(actions@);
        let nodes = collect_nodes(actions);
        let ghost nt = texts(nodes@);
        proof {
            lemma_first_appearances_distinct(ids);
            assert forall|x: Seq<char>| ids.contains(x) implies nt.contains(x) by {
                lemma_first_appearances_contains(ids, x);
            }
            assert forall|x: Seq<char>| nt.contains(x) implies ids.contains(x) by {
                lemma_first_appearances_contains(ids, x);
            }
        }
        let n = nodes.len();
        let mut remaining: Vec<bool> = Vec::new();
        let mut k: usize = 0;
        while k < n
            invariant
                k <= n,
                remaining@.len() == k,
                forall|j: int| 0 <= j < k ==> #[trigger] remaining@[j],
            decreases n - k,
        {
            remaining.push(true);
            k = k + 1;
        }
        let ghost mut order: Seq<int> = Seq::empty();
        let mut removed: usize = 0;
        let mut progress = true;
        while progress
            invariant
                n == nodes@.len(),
                nt == texts(nodes@),
                nt.no_duplicates(),
                peel_state(actions@, nt, remaining@, order),
                removed as int == order.len(),
                removed <= n,
                !progress ==> forall|j: int|
                    0 <= j < n && #[trigger] remaining@[j] ==> blocked(actions@, nt, remaining@, nt[j]),
            decreases 2 * (n - removed) + if progress {
                1int
            } else {
                0int
            },
        {
            let ghost start = removed;
            progress = false;
            let mut j: usize = 0;
            while j < n
                invariant
                    j <= n,
                    n == nodes@.len(),
                    nt == texts(nodes@),
                    nt.no_duplicates(),
                    peel_state(actions@, nt, remaining@, order),
                    removed as int == order.len(),
                    removed <= n,
                    start <= removed,
                    progress ==> start < removed,
                    !progress ==> forall|j2: int|
                        0 <= j2 < j && #[trigger] remaining@[j2] ==> blocked(actions@, nt, remaining@, nt[j2]),
                decreases n - j,
            {
                if remaining[j] && !is_blocked(actions, &nodes, &remaining, j) {
                    let ghost before = remaining@;
                    let ghost old_order = order;
                    assert(nt[j as int] == nodes@[j as int]@);
                    remaining.set(j, false);
                    proof {
                        order = order.push(j as int);
                        lemma_peel_step(actions@, nt, before, old_order, j as int);
                    }
                    removed = removed + 1;
                    progress = true;
                }
                j = j + 1;
            }
        }
        let mut any = false;
        let mut w: usize = 0;
        let mut witness: usize = 0;
        while w < n
            invariant
                w <= n,
                remaining@.len() == n,
                any ==> witness < n && remaining@[witness as int],
                !any ==> forall|j: int| 0 <= j < w ==> !#[trigger] remaining@[j],
            decreases n - w,
        {
            if remaining[w] {
                any = true;
                witness = w;
            }
            w = w + 1;
        }
        if any {
            proof {
                lemma_stuck_is_circular(actions@, nt, remaining@, witness as int);
            }
            return Err(RepairError::CircularDependency);
        }
        proof {
            lemma_done_is_acyclic(actions@, nt, remaining@, order);
        }
        Ok(())
    }

    /// An error for the first dependency that names no action.
    fn check_action_references(plan: &RepairPlan) -> (r: Result<(), RepairError>)
        ensures
            match first_dangling_action(action_ids(plan.actions@), plan.actions@) {
                Some((a, d)) => invalid_action_with(r, "Action "@ + a + " depends on non-existent action "@ + d),
                None => r is Ok,
            },
    {
        let actions = &plan.actions;
        let ghost ids = action_ids(actions@);
        let mut all_ids: Vec<String> = Vec::new();
        let mut i: usize = 0;
        while i < actions.len()
            invariant
                i <= actions@.len(),
                actions@ == plan.actions@,
                ids == action_ids(actions@),
                texts(all_ids@) == ids.subrange(0, i as int),
            decreases actions@.len() - i,
        {
            assert(ids[i as int] == actions@[i as int].id@);
            let ghost before = all_ids@;
            all_ids.push(copy_string(&actions[i].id));
            assert(texts(all_ids@) =~= texts(before).push(actions@[i as int].id@));
            assert(ids.subrange(0, i + 1) =~= ids.subrange(0, i as int).push(ids[i as int]));
            i = i + 1;
        }
        assert(ids.subrange(0, actions@.len() as int) =~= ids);
        let mut a: usize = 0;
        assert(actions@.subrange(0, actions@.len() as int) =~= actions@);
        while a < actions.len()
            invariant
                a <= actions@.len(),
                actions@ == plan.actions@,
                texts(all_ids@) == ids,
                ids == action_ids(actions@),
                first_dangling_action(ids, actions@) == first_dangling_action(ids, actions@.subrange(a as int, actions@.len() as int)),
            decreases actions@.len() - a,
        {
            let ghost rest = actions@.subrange(a as int, actions@.len() as int);
            assert(rest[0] == actions@[a as int]);
            let deps = &actions[a].dependencies;
            let ghost dt = texts(deps@);
            let mut d: usize = 0;
            assert(dt.subrange(0, dt.len() as int) =~= dt);
            while d < deps.len()
                invariant
                    d <= deps@.len(),
                    a < actions@.len(),
                    actions@ == plan.actions@,
                    ids == action_ids(actions@),
                    deps@ == actions@[a as int].dependencies@,
                    dt == texts(deps@),
                    texts(all_ids@) == ids,
                    rest == actions@.subrange(a as int, actions@.len() as int),
                    rest[0] == actions@[a as int],
                    first_dangling_action(ids, actions@) == first_dangling_action(ids, rest),
                    first_dangling(ids, dt) == first_dangling(ids, dt.subrange(d as int, dt.len() as int)),
                decreases deps@.len() - d,
            {
                let ghost drest = dt.subrange(d as int, dt.len() as int);
                assert(drest[0] == deps@[d as int]@);
                if !contains_text(&all_ids, &deps[d]) {
                    let mut m = "Action ".to_owned();
                    m.append(actions[a].id.as_str());
                    m.append(" depends on non-existent action ");
                    m.append(deps[d].as_str());
                    assert(first_dangling(ids, drest) == Some(deps@[d as int]@));
                    assert(first_dangling_action(ids, rest) == Some((actions@[a as int].id@, deps@[d as int]@)));
                    assert(m@ =~= "Action "@ + actions@[a as int].id@ + " depends on non-existent action "@ + deps@[d as int]@);
                    return Err(RepairError::InvalidAction(m));
                }
                assert(drest.drop_first() =~= dt.subrange(d + 1, dt.len() as int));
                d = d + 1;
            }
            assert(rest.drop_first() =~= actions@.subrange(a + 1, actions@.len() as int));
            a = a + 1;
        }
        Ok(())
    }

    /// An error for the first required action without a fixer.
    fn check_required_actions(plan: &RepairPlan) -> (r: Result<(), RepairError>)
        ensures
            match first_unassigned(plan.actions@) {
                Some(a) => invalid_action_with(r, "Required action "@ + a + " has no fixer"@),
                None => r is Ok,
            },
    {
        let actions = &plan.actions;
        let mut a: usize = 0;
        assert(actions@.subrange(0, actions@.len() as int) =~= actions@);
        while a < actions.len()
            invariant
                a <= actions@.len(),
                actions@ == plan.actions@,
                first_unassigned(actions@) == first_unassigned(actions@.subrange(a as int, actions@.len() as int)),
            decreases actions@.len() - a,
        {
            let ghost rest = actions@.subrange(a as int, actions@.len() as int);
            assert(rest[0] == actions@[a as int]);
            if actions[a].required && actions[a].fixer_id.as_str().unicode_len() == 0 {
                assert(first_unassigned(rest) == Some(actions@[a as int].id@));
                let mut m = "Required action ".to_owned();
                m.append(actions[a].id.as_str());
                m.append(" has no fixer");
                assert(m@ =~= "Required action "@ + actions@[a as int].id@ + " has no fixer"@);
                let res: Result<(), RepairError> = Err(RepairError::InvalidAction(m));
                assert(invalid_action_with(res, "Required action "@ + actions@[a as int].id@ + " has no fixer"@));
                return res;
            }
            assert(rest.drop_first() =~= actions@.subrange(a + 1, actions@.len() as int));
            a = a + 1;
        }
        Ok(())
    }
}

/// `s` with each character `c` replaced by `rep`.
pub open spec fn replace_char(s: Seq<char>, c: char, rep: Seq<char>) -> Seq<char>
    decreases s.len(),
{
    if s.len() == 0 {
        Seq::empty()
    } else {
        replace_char(s.drop_last(), c, rep) + if s.last() == c {
            rep
        } else {
            seq![s.last()]
        }
    }
}

/// The Mermaid node of an action identifier: hyphens become underscores.
pub open spec fn node_id(id: Seq<char>) -> Seq<char> {
    replace_char(id, '-', "_"@)
}

/// A label text with its double quotes escaped.
pub open spec fn escaped(s: Seq<char>) -> Seq<char> {
    replace_char(s, '"', "\\\""@)
}

/// The node lines of the actions, in order.
pub open spec fn action_nodes(actions: Seq<RepairAction>) -> Seq<char>
    decreases actions.len(),
{
    if actions.len() == 0 {
        Seq::empty()
    } else {
        let a = actions.last();
        action_nodes(actions.drop_last()) + "    "@ + node_id(a.id@) + "[\""@ + a.fixer_id@ + ": "@ + a.action_type.text()
            + "\"]\n"@
    }
}

/// The edges from each dependency to `target`, in order.
pub open spec fn dependency_edges(deps: Seq<Seq<char>>, target: Seq<char>) -> Seq<char>
    decreases deps.len(),
{
    if deps.len() == 0 {
        Seq::empty()
    } else {
        dependency_edges(deps.drop_last(), target) + "    "@ + node_id(deps.last()) + " --> "@ + target + "\n"@
    }
}

/// The edge from the dispatcher to each action, then from each of its
/// dependencies, action after action.
pub open spec fn action_edges(actions: Seq<RepairAction>) -> Seq<char>
    decreases actions.len(),
{
    if actions.len() == 0 {
        Seq::empty()
    } else {
        let a = actions.last();
        action_edges(actions.drop_last()) + "    Dispatcher --> "@ + node_id(a.id@) + "\n"@ + dependency_edges(
            texts(a.dependencies@),
            node_id(a.id@),
        )
    }
}

/// The Mermaid flowchart of a plan.
pub open spec fn mermaid_text(plan: RepairPlan) -> Seq<char> {
    "flowchart TD\n"@ + "    Violation[\"Violation: "@ + escaped(plan.violation.message@) + "\"]\n"@
        + "    RootCause[\"Root Cause: "@ + escaped(plan.root_cause.primary_cause@) + "\"]\n"@
        + "    Dispatcher[\"Dispatcher: "@ + plan.dispatcher@ + "\"]\n"@ + action_nodes(plan.actions@)
        + "    Violation --> RootCause\n"@ + "    RootCause --> Dispatcher\n"@ + action_edges(plan.actions@)
}

/// Append `s` to `out` with each character `c` replaced by `rep`.
pub(crate) fn push_replaced(out: &mut String, s: &str, c: char, rep: &str)
    ensures
        final(out)@ == old(out)@ + replace_char(s@, c, rep@),
{
    let ghost o = out@;
    let cs = chars_of(s);
    let mut i: usize = 0;
    while i < cs.len()
        invariant
            i <= cs@.len(),
            cs@ == s@,
            out@ == o + replace_char(s@.subrange(0, i as int), c, rep@),
        decreases cs@.len() - i,
    {
        assert(s@.subrange(0, i + 1).drop_last() =~= s@.subrange(0, i as int));
        if cs[i] == c {
            out.append(rep);
        } else {
            push_char(out, cs[i]);
        }
        assert(out@ =~= o + replace_char(s@.subrange(0, i + 1), c, rep@));
        i = i + 1;
    }
    assert(s@.subrange(0, s@.len() as int) =~= s@);
}

/// Exports repair plans to Mermaid diagrams.
pub struct MermaidExporter;

impl MermaidExporter {
    /// The Mermaid flowchart of a plan: the violation, root cause and
    /// dispatcher, a node per action, and edges from the dispatcher and
    /// from each dependency.
    pub fn export_plan(plan: &RepairPlan) -> (r: String)
        ensures
            r@ == mermaid_text(*plan),
    {
        let mut m = "flowchart TD\n".to_owned();
        m.append("    Violation[\"Violation: ");
        push_replaced(&mut m, plan.violation.message.as_str(), '"', "\\\"");
        m.append("\"]\n");
        m.append("    RootCause[\"Root Cause: ");
        push_replaced(&mut m, plan.root_cause.primary_cause.as_str(), '"', "\\\"");
        m.append("\"]\n");
        m.append("    Dispatcher[\"Dispatcher: ");
        m.append(plan.dispatcher.as_str());
        m.append("\"]\n");
        let ghost head = m@;
        let mut i: usize = 0;
        while i < plan.actions.len()
            invariant
                i <= plan.actions@.len(),
                m@ == head + action_nodes(plan.actions@.subrange(0, i as int)),
            decreases plan.actions@.len() - i,
        {
            assert(plan.actions@.subrange(0, i + 1).drop_last() =~= plan.actions@.subrange(0, i as int));
            let action = &plan.actions[i];
            m.append("    ");
            push_replaced(&mut m, action.id.as_str(), '-', "_");
            m.append("[\"");
            m.append(action.fixer_id.as_str());
            m.append(": ");
            let t = action.action_type.to_string();
            m.append(t.as_str());
            m.append("\"]\n");
            assert(m@ =~= head + action_nodes(plan.actions@.subrange(0, i + 1)));
            i = i + 1;
        }
        assert(plan.actions@.subrange(0, plan.actions@.len() as int) =~= plan.actions@);
        m.append("    Violation --> RootCause\n");
        m.append("    RootCause --> Dispatcher\n");
        let ghost mid = m@;
        let mut i: usize = 0;
        while i < plan.actions.len()
            invariant
                i <= plan.actions@.len(),
                m@ == mid + action_edges(plan.actions@.subrange(0, i as int)),
            decreases plan.actions@.len() - i,
        {
            assert(plan.actions@.subrange(0, i + 1).drop_last() =~= plan.actions@.subrange(0, i as int));
            let action = &plan.actions[i];
            let mut node = String::new();
            push_replaced(&mut node, action.id.as_str(), '-', "_");
            assert(node@ =~= node_id(action.id@));
            m.append("    Dispatcher --> ");
            m.append(node.as_str());
            m.append("\n");
            let ghost with_edge = m@;
            let mut d: usize = 0;
            while d < action.dependencies.len()
                invariant
                    d <= action.dependencies@.len(),
                    node@ == node_id(action.id@),
                    m@ == with_edge + dependency_edges(texts(action.dependencies@).subrange(0, d as int), node@),
                decreases action.dependencies@.len() - d,
            {
                let ghost dt = texts(action.dependencies@);
                assert(dt.subrange(0, d + 1).drop_last() =~= dt.subrange(0, d as int));
                assert(dt[d as int] == action.dependencies@[d as int]@);
                m.append("    ");
                push_replaced(&mut m, action.dependencies[d].as_str(), '-', "_");
                m.append(" --> ");
                m.append(node.as_str());
                m.append("\n");
                assert(m@ =~= with_edge + dependency_edges(dt.subrange(0, d + 1), node@));
                d = d + 1;
            }
            assert(texts(action.dependencies@).subrange(0, action.dependencies@.len() as int) =~= texts(action.dependencies@));
            assert(m@ =~= mid + action_edges(plan.actions@.subrange(0, i + 1)));
            i = i + 1;
        }
        assert(plan.actions@.subrange(0, plan.actions@.len() as int) =~= plan.actions@);
        assert(m@ =~= mermaid_text(*plan));
        m
    }
}

/// Fixer that replaces root-level wildcard patterns in .gitignore.
pub struct ReplaceRootStarFixer;

impl Fixer for ReplaceRootStarFixer {
    fn id(&self) -> (r: &'static str)
        ensures
            r@ == "fixer.replace-root-star"@,
    {
        "fixer.replace-root-star"
    }

    fn plan(&self, violation: &Violation, root_cause: &RootCause) -> (r: Result<Option<RepairAction>, RepairError>)
        ensures
            match r {
                Ok(Some(a)) => {
                    &&& seq_contains_seq(violation.message@, "wildcard"@)
                    &&& seq_contains_seq(violation.message@, ".gitignore"@)
                    &&& a.id@ == "replace-root-star"@
                    &&& a.fixer_id@ == "fixer.replace-root-star"@
                    &&& a.action_type matches ActionType::Edit { line, column, content } && line == 1 && column == 1
                        && content@ == "/*\n"@
                    &&& a.path@ == ".gitignore"@
                    &&& a.params@.len() == 0
                    &&& a.required
                    &&& a.priority == 1
                    &&& a.dependencies@.len() == 0
                },
                Ok(None) => !(seq_contains_seq(violation.message@, "wildcard"@) && seq_contains_seq(
                    violation.message@,
                    ".gitignore"@,
                )),
                Err(_) => false,
            },
    {
        if str_contains(violation.message.as_str(), "wildcard") && str_contains(violation.message.as_str(), ".gitignore") {
            Ok(
                Some(
                    RepairAction {
                        id: "replace-root-star".to_owned(),
                        fixer_id: "fixer.replace-root-star".to_owned(),
                        action_type: ActionType::Edit { line: 1, column: 1, content: "/*\n".to_owned() },
                        path: ".gitignore".to_owned(),
                        params: Vec::new(),
                        required: true,
                        priority: 1,
                        dependencies: Vec::new(),
                    },
                ),
            )
        } else {
            Ok(None)
        }
    }

    fn execute(&self, action: &RepairAction) -> (r: Result<ActionResult, RepairError>)
        ensures
            r matches Ok(res) && res.action_id@ == action.id@ && res.success && texts(res.messages@) == seq![
                "Replaced root wildcard pattern"@,
            ] && opt_texts(res.diff) == Some("/*\n"@) && opt_texts(res.new_hash) == Some("abc123"@),
    {
        let mut messages: Vec<String> = Vec::new();
        messages.push("Replaced root wildcard pattern".to_owned());
        assert(texts(messages@) =~= seq!["Replaced root wildcard pattern"@]);
        Ok(
            ActionResult {
                action_id: copy_string(&action.id),
                success: true,
                messages,
                diff: Some("/*\n".to_owned()),
                new_hash: Some("abc123".to_owned()),
            },
        )
    }

    fn can_handle(&self, violation: &Violation) -> (r: bool)
        ensures
            r,
    {
        true
    }
}

/// Fixer that reorders lines in .gitignore files.
pub struct LintIgnoreOrderFixer;

impl Fixer for LintIgnoreOrderFixer {
    fn id(&self) -> (r: &'static str)
        ensures
            r@ == "fixer.lint-ignore-order"@,
    {
        "fixer.lint-ignore-order"
    }

    fn plan(&self, violation: &Violation, root_cause: &RootCause) -> (r: Result<Option<RepairAction>, RepairError>)
        ensures
            match r {
                Ok(Some(a)) => {
                    &&& seq_contains_seq(violation.message@, ".gitignore"@)
                    &&& seq_contains_seq(violation.message@, "order"@)
                    &&& a.id@ == "reorder-ignore-lines"@
                    &&& a.fixer_id@ == "fixer.lint-ignore-order"@
                    &&& a.action_type matches ActionType::ReorderLines { strategy } && strategy@ == "alphabetical"@
                    &&& a.path@ == ".gitignore"@
                    &&& a.params@.len() == 0
                    &&& !a.required
                    &&& a.priority == 2
                    &&& texts(a.dependencies@) == seq!["replace-root-star"@]
                },
                Ok(None) => !(seq_contains_seq(violation.message@, ".gitignore"@) && seq_contains_seq(
                    violation.message@,
                    "order"@,
                )),
                Err(_) => false,
            },
    {
        if str_contains(violation.message.as_str(), ".gitignore") && str_contains(violation.message.as_str(), "order") {
            let mut dependencies: Vec<String> = Vec::new();
            dependencies.push("replace-root-star".to_owned());
            assert(texts(dependencies@) =~= seq!["replace-root-star"@]);
            Ok(
                Some(
                    RepairAction {
                        id: "reorder-ignore-lines".to_owned(),
                        fixer_id: "fixer.lint-ignore-order".to_owned(),
                        action_type: ActionType::ReorderLines { strategy: "alphabetical".to_owned() },
                        path: ".gitignore".to_owned(),
                        params: Vec::new(),
                        required: false,
                        priority: 2,
                        dependencies,
                    },
                ),
            )
        } else {
            Ok(None)
        }
    }

    fn execute(&self, action: &RepairAction) -> (r: Result<ActionResult, RepairError>)
        ensures
            r matches Ok(res) && res.action_id@ == action.id@ && res.success && texts(res.messages@) == seq![
                "Reordered .gitignore lines alphabetically"@,
            ] && opt_texts(res.diff) == Some("+ *.log\n+ *.tmp\n- *.tmp\n- *.log\n"@) && opt_texts(res.new_hash) == Some(
                "def456"@,
            ),
    {
        let mut messages: Vec<String> = Vec::new();
        messages.push("Reordered .gitignore lines alphabetically".to_owned());
        assert(texts(messages@) =~= seq!["Reordered .gitignore lines alphabetically"@]);
        Ok(
            ActionResult {
                action_id: copy_string(&action.id),
                success: true,
                messages,
                diff: Some("+ *.log\n+ *.tmp\n- *.tmp\n- *.log\n".to_owned()),
                new_hash: Some("def456".to_owned()),
            },
        )
    }

    fn can_handle(&self, violation: &Violation) -> (r: bool)
        ensures
            r,
    {
        true
    }
}

/// The text of an optional string.
pub open spec fn opt_texts(o: Option<String>) -> Option<Seq<char>> {
    match o {
        Some(s) => Some(s@),
        None => None,
    }
}

} // verus!
