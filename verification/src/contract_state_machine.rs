//! The contract state machine: each file moves through UNTRACKED, UNVALIDATED,
//! VALIDATED and LOCKED along a fixed table of transitions.

use vstd::prelude::*;
use crate::text::{seq_ends_with, str_eq, str_ends_with};
use crate::json::{JsonValue, JsonView, fields_view};
use crate::hierarchical_validation::{ValidationScope, ValidationNote};
use crate::outside::utc_now_rfc3339;

verus! {

/// Contract states in the validation lifecycle.
#[allow(non_camel_case_types)]
#[derive(Debug, Clone, Copy, PartialEq, Eq, Structural, Hash)]
pub enum ContractState {
    /// File has no contract or codegen attribute
    UNTRACKED,
    /// File has contract/codegen attribute but no proof (note)
    UNVALIDATED,
    /// File has contract/codegen attribute + matching note with hash
    VALIDATED,
    /// File is validated + no further modifications allowed without re-validation
    LOCKED,
}

/// Transition events that can change contract state.
#[derive(Debug, Clone, Copy, PartialEq, Eq, Structural, Hash)]
pub enum TransitionEvent {
    /// Contract attribute detected in .gitattributes
    DetectContract,
    /// Run validator and create Git note with hash
    ValidateContract,
    /// Post-hook marks file as locked
    LockContract,
    /// Changing file invalidates proof
    ModifyContract,
    /// Regenerate codegen and hash-check
    RegenCodegen,
    /// CI verifies Merkle hashes and proof chain
    ReleaseProof,
}


impl ContractState {
    /// The state's name, as text.
    pub open spec fn name_text(self) -> Seq<char> {
        match self {
            ContractState::UNTRACKED => "UNTRACKED"@,
            ContractState::UNVALIDATED => "UNVALIDATED"@,
            ContractState::VALIDATED => "VALIDATED"@,
            ContractState::LOCKED => "LOCKED"@,
        }
    }

    /// The state's name.
    pub fn name(&self) -> (r: &'static str)
        ensures
            r@ == self.name_text(),
    {
        match self {
            ContractState::UNTRACKED => "UNTRACKED",
            ContractState::UNVALIDATED => "UNVALIDATED",
            ContractState::VALIDATED => "VALIDATED",
            ContractState::LOCKED => "LOCKED",
        }
    }
}

impl TransitionEvent {
    /// The event's name, as text.
    pub open spec fn name_text(self) -> Seq<char> {
        match self {
            TransitionEvent::DetectContract => "DetectContract"@,
            TransitionEvent::ValidateContract => "ValidateContract"@,
            TransitionEvent::LockContract => "LockContract"@,
            TransitionEvent::ModifyContract => "ModifyContract"@,
            TransitionEvent::RegenCodegen => "RegenCodegen"@,
            TransitionEvent::ReleaseProof => "ReleaseProof"@,
        }
    }

    /// The event's name.
    pub fn name(&self) -> (r: &'static str)
        ensures
            r@ == self.name_text(),
    {
        match self {
            TransitionEvent::DetectContract => "DetectContract",
            TransitionEvent::ValidateContract => "ValidateContract",
            TransitionEvent::LockContract => "LockContract",
            TransitionEvent::ModifyContract => "ModifyContract",
            TransitionEvent::RegenCodegen => "RegenCodegen",
            TransitionEvent::ReleaseProof => "ReleaseProof",
        }
    }
}

/// State transition with conditions and actions.
#[derive(Debug, Clone)]
pub struct StateTransition {
    pub from: ContractState,
    pub to: ContractState,
    pub event: TransitionEvent,
    pub action: String,
    pub conditions: Vec<String>,
}

/// A transition as plain values: from, event, to, action and conditions.
pub type TransitionView = (ContractState, TransitionEvent, ContractState, Seq<char>, Seq<Seq<char>>);

impl StateTransition {
    /// This transition as plain values.
    pub open spec fn view_tuple(self) -> TransitionView {
        (self.from, self.event, self.to, self.action@, self.conditions@.map_values(|c: String| c@))
    }
}

/// The state that `event` moves a file in state `from` to, if the move is allowed.
pub open spec fn transition_target(from: ContractState, event: TransitionEvent) -> Option<ContractState> {
    match (from, event) {
        (ContractState::UNTRACKED, TransitionEvent::DetectContract) => Some(ContractState::UNVALIDATED),
        (ContractState::UNVALIDATED, TransitionEvent::ValidateContract) => Some(ContractState::VALIDATED),
        (ContractState::VALIDATED, TransitionEvent::LockContract) => Some(ContractState::LOCKED),
        (ContractState::LOCKED, TransitionEvent::ModifyContract) => Some(ContractState::UNVALIDATED),
        (ContractState::UNVALIDATED, TransitionEvent::RegenCodegen) => Some(ContractState::VALIDATED),
        (ContractState::VALIDATED, TransitionEvent::ReleaseProof) => Some(ContractState::VALIDATED),
        (ContractState::LOCKED, TransitionEvent::ReleaseProof) => Some(ContractState::LOCKED),
        _ => None,
    }
}

/// The transition table, in the order in which it is kept.
pub open spec fn standard_table() -> Seq<TransitionView> {
    seq![
        (ContractState::UNTRACKED, TransitionEvent::DetectContract, ContractState::UNVALIDATED,
            "Tag file via .gitattributes"@,
            seq!["File matches contract pattern in .gitattributes"@, "No existing Git note for file"@]),
        (ContractState::UNVALIDATED, TransitionEvent::ValidateContract, ContractState::VALIDATED,
            "Re-run validator with new content"@,
            seq!["Contract validation passes"@, "New content hash computed"@, "Git note updated"@]),
        (ContractState::VALIDATED, TransitionEvent::LockContract, ContractState::LOCKED,
            "Post-hook marks file as locked"@,
            seq!["File is in committed state"@, "No pending changes"@]),
        (ContractState::LOCKED, TransitionEvent::ModifyContract, ContractState::UNVALIDATED,
            "Changing file invalidates proof"@,
            seq!["File content has changed"@, "Hash no longer matches"@]),
        (ContractState::UNVALIDATED, TransitionEvent::RegenCodegen, ContractState::VALIDATED,
            "Regenerate codegen + hash-check"@,
            seq!["Codegen files regenerated"@, "New hashes computed"@, "Validation passes"@]),
        (ContractState::VALIDATED, TransitionEvent::ReleaseProof, ContractState::VALIDATED,
            "CI verifies Merkle hashes and proof chain"@,
            seq!["All child hashes match parent"@, "Merkle chain is valid"@, "No tampering detected"@]),
        (ContractState::LOCKED, TransitionEvent::ReleaseProof, ContractState::LOCKED,
            "CI verifies Merkle hashes and proof chain"@,
            seq!["All child hashes match parent"@, "Merkle chain is valid"@, "No tampering detected"@]),
    ]
}

/// The transitions of the table that start at `state`, in table order.
pub open spec fn valid_transitions(state: ContractState) -> Seq<TransitionView> {
    standard_table().filter(starts_at(state))
}

/// Whether a transition starts at `state`.
pub open spec fn starts_at(state: ContractState) -> spec_fn(TransitionView) -> bool {
    |v: TransitionView| v.0 == state
}

/// Every event, once each.
pub open spec fn all_events() -> Seq<TransitionEvent> {
    seq![
        TransitionEvent::DetectContract,
        TransitionEvent::ValidateContract,
        TransitionEvent::LockContract,
        TransitionEvent::ModifyContract,
        TransitionEvent::RegenCodegen,
        TransitionEvent::ReleaseProof,
    ]
}

/// The events that may move a file out of `state`.
pub open spec fn allowed_events(state: ContractState) -> Seq<TransitionEvent> {
    all_events().filter(|e: TransitionEvent| transition_target(state, e) is Some)
}

/// The transitions valid from a state are exactly the allowed moves from it:
/// each starts at the state and goes where the event leads, no event occurs
/// twice, every allowed event occurs, and so there are as many as there are
/// allowed events: one from UNTRACKED, two from each other state.
pub proof fn law_valid_transitions_are_allowed_moves(state: ContractState)
    ensures
        forall|i: int| 0 <= i < valid_transitions(state).len() ==> (#[trigger] valid_transitions(state)[i]).0 == state
            && transition_target(state, valid_transitions(state)[i].1) == Some(valid_transitions(state)[i].2),
        forall|i: int, j: int| 0 <= i < j < valid_transitions(state).len()
            ==> (#[trigger] valid_transitions(state)[i]).1 != (#[trigger] valid_transitions(state)[j]).1,
        forall|e: TransitionEvent| #[trigger] transition_target(state, e) is Some
            ==> exists|i: int| 0 <= i < valid_transitions(state).len() && (#[trigger] valid_transitions(state)[i]).1 == e,
        valid_transitions(state).len() == allowed_events(state).len(),
        allowed_events(state).len() == if state == ContractState::UNTRACKED { 1int } else { 2int },
{
    reveal_with_fuel(Seq::<_>::filter, 8);
    let t = standard_table();
    match state {
        ContractState::UNTRACKED => {
            assert(valid_transitions(state) =~= seq![t[0]]);
            assert(allowed_events(state) =~= seq![TransitionEvent::DetectContract]);
            assert(valid_transitions(state)[0].1 == TransitionEvent::DetectContract);
        },
        ContractState::UNVALIDATED => {
            assert(valid_transitions(state) =~= seq![t[1], t[4]]);
            assert(allowed_events(state) =~= seq![TransitionEvent::ValidateContract, TransitionEvent::RegenCodegen]);
            assert(valid_transitions(state)[0].1 == TransitionEvent::ValidateContract);
            assert(valid_transitions(state)[1].1 == TransitionEvent::RegenCodegen);
        },
        ContractState::VALIDATED => {
            assert(valid_transitions(state) =~= seq![t[2], t[5]]);
            assert(allowed_events(state) =~= seq![TransitionEvent::LockContract, TransitionEvent::ReleaseProof]);
            assert(valid_transitions(state)[0].1 == TransitionEvent::LockContract);
            assert(valid_transitions(state)[1].1 == TransitionEvent::ReleaseProof);
        },
        ContractState::LOCKED => {
            assert(valid_transitions(state) =~= seq![t[3], t[6]]);
            assert(allowed_events(state) =~= seq![TransitionEvent::ModifyContract, TransitionEvent::ReleaseProof]);
            assert(valid_transitions(state)[0].1 == TransitionEvent::ModifyContract);
            assert(valid_transitions(state)[1].1 == TransitionEvent::ReleaseProof);
        },
    }
}

/// The file carries a contract attribute: it is a Rust, TOML or Markdown file.
pub open spec fn has_contract_attribute(file: Seq<char>) -> bool {
    seq_ends_with(file, ".rs"@) || seq_ends_with(file, ".toml"@) || seq_ends_with(file, ".md"@)
}

/// The conditions of a transition hold for the file.
pub open spec fn conditions_hold(file: Seq<char>, event: TransitionEvent) -> bool {
    event == TransitionEvent::DetectContract ==> has_contract_attribute(file)
}

/// No two transitions share a state and an event.
pub open spec fn table_keys_unique(t: Seq<StateTransition>) -> bool {
    forall|i: int, j: int|
        0 <= i < j < t.len() ==> !(#[trigger] t[i].from == #[trigger] t[j].from && t[i].event == t[j].event)
}

/// Some transition of `t` has this state and event.
pub open spec fn key_present(t: Seq<StateTransition>, from: ContractState, event: TransitionEvent) -> bool {
    exists|i: int| 0 <= i < t.len() && #[trigger] t[i].from == from && t[i].event == event
}

/// The position of the transition of `t` with this state and event.
pub open spec fn key_index(t: Seq<StateTransition>, from: ContractState, event: TransitionEvent) -> int {
    choose|i: int| 0 <= i < t.len() && #[trigger] t[i].from == from && t[i].event == event
}

/// The map from file names to states that a list of entries stands for.
pub open spec fn entries_map(e: Seq<(String, ContractState)>) -> Map<Seq<char>, ContractState> {
    Map::new(
        |k: Seq<char>| exists|i: int| 0 <= i < e.len() && (#[trigger] e[i]).0@ == k,
        |k: Seq<char>| e[choose|i: int| 0 <= i < e.len() && (#[trigger] e[i]).0@ == k].1,
    )
}

/// No file name occurs twice among the entries.
pub open spec fn keys_unique(e: Seq<(String, ContractState)>) -> bool {
    forall|i: int, j: int| 0 <= i < j < e.len() ==> (#[trigger] e[i]).0@ != (#[trigger] e[j]).0@
}

/// The state of `file` in a state map: UNTRACKED unless recorded.
pub open spec fn state_in(states: Map<Seq<char>, ContractState>, file: Seq<char>) -> ContractState {
    if states.contains_key(file) {
        states[file]
    } else {
        ContractState::UNTRACKED
    }
}

/// Why the conditions of a transition failed.
#[derive(Debug, Clone, Copy, PartialEq, Eq, Structural)]
pub enum ConditionFailure {
    /// The file does not have a contract attribute
    NoContractAttribute,
    /// The file already has a Git note
    HasGitNote,
    /// Validation would fail for the file
    ValidationWouldFail,
    /// The file is not committed
    NotCommitted,
    /// The file has pending changes
    PendingChanges,
    /// The file content has not changed
    ContentUnchanged,
    /// Codegen regeneration would fail for the file
    CodegenWouldFail,
    /// The Merkle chain is invalid for the file
    MerkleChainInvalid,
}

/// Errors of a state transition.
#[derive(Debug, Clone)]
pub enum TransitionError {
    /// The table has no transition for the file's state and the event
    InvalidTransition { state: ContractState, event: TransitionEvent, file: String },
    /// A condition of the transition does not hold for the file
    ConditionFailed { file: String, reason: ConditionFailure },
}

/// Contract state machine that enforces valid transitions.
#[derive(Debug)]
pub struct ContractStateMachine {
    transitions: Vec<StateTransition>,
    current_states: Vec<(String, ContractState)>,
}

impl ContractStateMachine {
    /// The kept transitions match the transition table and file names are unique.
    #[verifier::type_invariant]
    spec fn well_formed(self) -> bool {
        &&& self.transitions@.map_values(|t: StateTransition| t.view_tuple()) == standard_table()
        &&& keys_unique(self.current_states@)
    }

    /// The recorded state of each file.
    pub closed spec fn states(&self) -> Map<Seq<char>, ContractState> {
        entries_map(self.current_states@)
    }

    /// The transitions kept by the machine, as plain values.
    pub closed spec fn table(&self) -> Seq<TransitionView> {
        self.transitions@.map_values(|t: StateTransition| t.view_tuple())
    }

    /// Create a new contract state machine with predefined transitions.
    pub fn new() -> (r: Self)
        ensures
            r.table() == standard_table(),
            r.states() == Map::<Seq<char>, ContractState>::empty(),
    {
        let transitions = Self::initialize_transitions();
        let machine = Self { transitions, current_states: Vec::new() };
        assert(machine.states() =~= Map::<Seq<char>, ContractState>::empty());
        machine
    }

    /// Add `t` to `table`, replacing the transition with the same state and event.
    fn insert_transition(table: &mut Vec<StateTransition>, t: StateTransition)
        requires
            table_keys_unique(old(table)@),
        ensures
            table_keys_unique(final(table)@),
            key_present(old(table)@, t.from, t.event) ==> final(table)@ == old(table)@.update(
                key_index(old(table)@, t.from, t.event),
                t,
            ),
            !key_present(old(table)@, t.from, t.event) ==> final(table)@ == old(table)@.push(t),
    {
        let mut i: usize = 0;
        while i < table.len()
            invariant
                i <= table@.len(),
                table@ == old(table)@,
                table_keys_unique(table@),
                forall|k: int| 0 <= k < i ==> !(#[trigger] table@[k].from == t.from && table@[k].event == t.event),
            decreases table@.len() - i,
        {
            if table[i].from == t.from && table[i].event == t.event {
                proof {
                    let c = key_index(table@, t.from, t.event);
                    if c != i {
                        if c < i {
                        } else {
                            assert(!(table@[i as int].from == table@[c].from && table@[i as int].event == table@[c].event));
                        }
                    }
                }
                table.set(i, t);
                proof {
                    assert forall|x: int, y: int| 0 <= x < y < table@.len() implies !(#[trigger] table@[x].from == #[trigger] table@[y].from
                        && table@[x].event == table@[y].event) by {
                        if x != i && y != i {
                            assert(!(old(table)@[x].from == old(table)@[y].from && old(table)@[x].event == old(table)@[y].event));
                        } else if x == i {
                            assert(!(old(table)@[x].from == old(table)@[y].from && old(table)@[x].event == old(table)@[y].event));
                        } else {
                            assert(!(old(table)@[x].from == old(table)@[y].from && old(table)@[x].event == old(table)@[y].event));
                        }
                    }
                }
                return;
            }
            i = i + 1;
        }
        table.push(t);
        proof {
            assert forall|x: int, y: int| 0 <= x < y < table@.len() implies !(#[trigger] table@[x].from == #[trigger] table@[y].from
                && table@[x].event == table@[y].event) by {
                if y < old(table)@.len() {
                    assert(!(old(table)@[x].from == old(table)@[y].from && old(table)@[x].event == old(table)@[y].event));
                }
            }
        }
    }

    /// Initialize the state transition table.
    fn initialize_transitions() -> (r: Vec<StateTransition>)
        ensures
            r@.map_values(|t: StateTransition| t.view_tuple()) == standard_table(),
    {
        let mut table: Vec<StateTransition> = Vec::new();
        Self::insert_transition(&mut table, StateTransition {
            from: ContractState::UNTRACKED,
            to: ContractState::UNVALIDATED,
            event: TransitionEvent::DetectContract,
            action: "Tag file via .gitattributes".to_owned(),
            conditions: vec!["File matches contract pattern in .gitattributes".to_owned(), "No existing Git note for file".to_owned()],
        });
        assert(table@.len() == 1);
        assert(!key_present(table@, ContractState::UNVALIDATED, TransitionEvent::ValidateContract)) by {
            if key_present(table@, ContractState::UNVALIDATED, TransitionEvent::ValidateContract) {
                let c = key_index(table@, ContractState::UNVALIDATED, TransitionEvent::ValidateContract);
                assert(0 <= c < 1);
            }
        }
        Self::insert_transition(&mut table, StateTransition {
            from: ContractState::UNVALIDATED,
            to: ContractState::VALIDATED,
            event: TransitionEvent::ValidateContract,
            action: "Run validator → create Git note with hash".to_owned(),
            conditions: vec!["Contract validation passes".to_owned(), "Content hash computed".to_owned(), "Git note created successfully".to_owned()],
        });
        assert(table@.len() == 2);
        assert(!key_present(table@, ContractState::VALIDATED, TransitionEvent::LockContract)) by {
            if key_present(table@, ContractState::VALIDATED, TransitionEvent::LockContract) {
                let c = key_index(table@, ContractState::VALIDATED, TransitionEvent::LockContract);
                assert(0 <= c < 2);
            }
        }
        Self::insert_transition(&mut table, StateTransition {
            from: ContractState::VALIDATED,
            to: ContractState::LOCKED,
            event: TransitionEvent::LockContract,
            action: "Post-hook marks file as locked".to_owned(),
            conditions: vec!["File is in committed state".to_owned(), "No pending changes".to_owned()],
        });
        assert(table@.len() == 3);
        assert(!key_present(table@, ContractState::LOCKED, TransitionEvent::ModifyContract)) by {
            if key_present(table@, ContractState::LOCKED, TransitionEvent::ModifyContract) {
                let c = key_index(table@, ContractState::LOCKED, TransitionEvent::ModifyContract);
                assert(0 <= c < 3);
            }
        }
        Self::insert_transition(&mut table, StateTransition {
            from: ContractState::LOCKED,
            to: ContractState::UNVALIDATED,
            event: TransitionEvent::ModifyContract,
            action: "Changing file invalidates proof".to_owned(),
            conditions: vec!["File content has changed".to_owned(), "Hash no longer matches".to_owned()],
        });
        proof {
            let c = key_index(table@, ContractState::UNVALIDATED, TransitionEvent::ValidateContract);
            assert(table@[1].from == ContractState::UNVALIDATED && table@[1].event == TransitionEvent::ValidateContract);
            assert(key_present(table@, ContractState::UNVALIDATED, TransitionEvent::ValidateContract));
            if c != 1 {
                if c < 1 {
                    assert(!(table@[c].from == table@[1].from && table@[c].event == table@[1].event));
                } else {
                    assert(!(table@[1].from == table@[c].from && table@[1].event == table@[c].event));
                }
            }
        }
        Self::insert_transition(&mut table, StateTransition {
            from: ContractState::UNVALIDATED,
            to: ContractState::VALIDATED,
            event: TransitionEvent::ValidateContract,
            action: "Re-run validator with new content".to_owned(),
            conditions: vec!["Contract validation passes".to_owned(), "New content hash computed".to_owned(), "Git note updated".to_owned()],
        });
        assert(table@.len() == 4);
        assert(!key_present(table@, ContractState::UNVALIDATED, TransitionEvent::RegenCodegen)) by {
            if key_present(table@, ContractState::UNVALIDATED, TransitionEvent::RegenCodegen) {
                let c = key_index(table@, ContractState::UNVALIDATED, TransitionEvent::RegenCodegen);
                assert(0 <= c < 4);
            }
        }
        Self::insert_transition(&mut table, StateTransition {
            from: ContractState::UNVALIDATED,
            to: ContractState::VALIDATED,
            event: TransitionEvent::RegenCodegen,
            action: "Regenerate codegen + hash-check".to_owned(),
            conditions: vec!["Codegen files regenerated".to_owned(), "New hashes computed".to_owned(), "Validation passes".to_owned()],
        });
        assert(table@.len() == 5);
        assert(!key_present(table@, ContractState::VALIDATED, TransitionEvent::ReleaseProof)) by {
            if key_present(table@, ContractState::VALIDATED, TransitionEvent::ReleaseProof) {
                let c = key_index(table@, ContractState::VALIDATED, TransitionEvent::ReleaseProof);
                assert(0 <= c < 5);
            }
        }
        Self::insert_transition(&mut table, StateTransition {
            from: ContractState::VALIDATED,
            to: ContractState::VALIDATED,
            event: TransitionEvent::ReleaseProof,
            action: "CI verifies Merkle hashes and proof chain".to_owned(),
            conditions: vec!["All child hashes match parent".to_owned(), "Merkle chain is valid".to_owned(), "No tampering detected".to_owned()],
        });
        assert(table@.len() == 6);
        assert(!key_present(table@, ContractState::LOCKED, TransitionEvent::ReleaseProof)) by {
            if key_present(table@, ContractState::LOCKED, TransitionEvent::ReleaseProof) {
                let c = key_index(table@, ContractState::LOCKED, TransitionEvent::ReleaseProof);
                assert(0 <= c < 6);
            }
        }
        Self::insert_transition(&mut table, StateTransition {
            from: ContractState::LOCKED,
            to: ContractState::LOCKED,
            event: TransitionEvent::ReleaseProof,
            action: "CI verifies Merkle hashes and proof chain".to_owned(),
            conditions: vec!["All child hashes match parent".to_owned(), "Merkle chain is valid".to_owned(), "No tampering detected".to_owned()],
        });
        assert(table@.len() == 7);
        assert forall|k: int| 0 <= k < 7 implies #[trigger] table@[k].view_tuple() == standard_table()[k] by {
            assert(table@[k].conditions@.map_values(|c: String| c@) =~= standard_table()[k].4);
        }
        assert(table@.map_values(|t: StateTransition| t.view_tuple()) =~= standard_table());
        table
    }
}


/// The table holds exactly the moves of `transition_target`, once each.
pub proof fn lemma_table_is_target(from: ContractState, event: TransitionEvent)
    ensures
        standard_table().len() == 7,
        forall|k: int| 0 <= k < 7 ==> transition_target((#[trigger] standard_table()[k]).0, standard_table()[k].1)
            == Some(standard_table()[k].2),
        transition_target(from, event) is Some ==> exists|k: int|
            0 <= k < 7 && (#[trigger] standard_table()[k]).0 == from && standard_table()[k].1 == event,
{
    let t = standard_table();
    match (from, event) {
        (ContractState::UNTRACKED, TransitionEvent::DetectContract) => { assert(t[0].0 == from && t[0].1 == event); },
        (ContractState::UNVALIDATED, TransitionEvent::ValidateContract) => { assert(t[1].0 == from && t[1].1 == event); },
        (ContractState::VALIDATED, TransitionEvent::LockContract) => { assert(t[2].0 == from && t[2].1 == event); },
        (ContractState::LOCKED, TransitionEvent::ModifyContract) => { assert(t[3].0 == from && t[3].1 == event); },
        (ContractState::UNVALIDATED, TransitionEvent::RegenCodegen) => { assert(t[4].0 == from && t[4].1 == event); },
        (ContractState::VALIDATED, TransitionEvent::ReleaseProof) => { assert(t[5].0 == from && t[5].1 == event); },
        (ContractState::LOCKED, TransitionEvent::ReleaseProof) => { assert(t[6].0 == from && t[6].1 == event); },
        _ => {},
    }
}

/// Replacing the entry of an existing file keeps names unique and records the new state.
proof fn lemma_entries_update(e: Seq<(String, ContractState)>, i: int, entry: (String, ContractState))
    requires
        keys_unique(e),
        0 <= i < e.len(),
        e[i].0@ == entry.0@,
    ensures
        keys_unique(e.update(i, entry)),
        entries_map(e.update(i, entry)) == entries_map(e).insert(entry.0@, entry.1),
{
    let u = e.update(i, entry);
    assert forall|x: int, y: int| 0 <= x < y < u.len() implies (#[trigger] u[x]).0@ != (#[trigger] u[y]).0@ by {
        assert(e[x].0@ != e[y].0@);
    }
    assert forall|k: Seq<char>| #[trigger] entries_map(u).contains_key(k) == entries_map(e).insert(entry.0@, entry.1).contains_key(k) by {
        if exists|j: int| 0 <= j < e.len() && (#[trigger] e[j]).0@ == k {
            let j = choose|j: int| 0 <= j < e.len() && (#[trigger] e[j]).0@ == k;
            if j == i {
                assert(u[i].0@ == k);
            } else {
                assert(u[j].0@ == k);
            }
        }
        if exists|j: int| 0 <= j < u.len() && (#[trigger] u[j]).0@ == k {
            let j = choose|j: int| 0 <= j < u.len() && (#[trigger] u[j]).0@ == k;
            assert(e[j].0@ == k || j == i);
        }
    }
    assert forall|k: Seq<char>| #[trigger] entries_map(u).contains_key(k) implies entries_map(u)[k] == entries_map(e).insert(entry.0@, entry.1)[k] by {
        let j = choose|j: int| 0 <= j < u.len() && (#[trigger] u[j]).0@ == k;
        if k == entry.0@ {
            if j != i {
                if j < i {
                    assert(u[j].0@ != u[i].0@);
                } else {
                    assert(u[i].0@ != u[j].0@);
                }
            }
        } else {
            assert(j != i);
            assert(e[j].0@ == k);
            let m = choose|m: int| 0 <= m < e.len() && (#[trigger] e[m]).0@ == k;
            if m != j {
                if m < j {
                    assert(e[m].0@ != e[j].0@);
                } else {
                    assert(e[j].0@ != e[m].0@);
                }
            }
        }
    }
    assert(entries_map(u) =~= entries_map(e).insert(entry.0@, entry.1));
}

/// Adding the entry of a new file keeps names unique and records its state.
proof fn lemma_entries_push(e: Seq<(String, ContractState)>, entry: (String, ContractState))
    requires
        keys_unique(e),
        forall|j: int| 0 <= j < e.len() ==> (#[trigger] e[j]).0@ != entry.0@,
    ensures
        keys_unique(e.push(entry)),
        entries_map(e.push(entry)) == entries_map(e).insert(entry.0@, entry.1),
{
    let u = e.push(entry);
    assert forall|x: int, y: int| 0 <= x < y < u.len() implies (#[trigger] u[x]).0@ != (#[trigger] u[y]).0@ by {
        if y < e.len() {
            assert(e[x].0@ != e[y].0@);
        } else {
            assert(e[x].0@ != entry.0@);
        }
    }
    assert forall|k: Seq<char>| #[trigger] entries_map(u).contains_key(k) == entries_map(e).insert(entry.0@, entry.1).contains_key(k) by {
        if exists|j: int| 0 <= j < e.len() && (#[trigger] e[j]).0@ == k {
            let j = choose|j: int| 0 <= j < e.len() && (#[trigger] e[j]).0@ == k;
            assert(u[j].0@ == k);
        }
        if k == entry.0@ {
            assert(u[e.len() as int].0@ == k);
        }
        if exists|j: int| 0 <= j < u.len() && (#[trigger] u[j]).0@ == k {
            let j = choose|j: int| 0 <= j < u.len() && (#[trigger] u[j]).0@ == k;
            if j < e.len() {
                assert(e[j].0@ == k);
            }
        }
    }
    assert forall|k: Seq<char>| #[trigger] entries_map(u).contains_key(k) implies entries_map(u)[k] == entries_map(e).insert(entry.0@, entry.1)[k] by {
        let j = choose|j: int| 0 <= j < u.len() && (#[trigger] u[j]).0@ == k;
        if k == entry.0@ {
            if j < e.len() {
                assert(e[j].0@ != entry.0@);
            }
        } else {
            assert(j < e.len());
            assert(e[j].0@ == k);
            let m = choose|m: int| 0 <= m < e.len() && (#[trigger] e[m]).0@ == k;
            if m != j {
                if m < j {
                    assert(e[m].0@ != e[j].0@);
                } else {
                    assert(e[j].0@ != e[m].0@);
                }
            }
        }
    }
    assert(entries_map(u) =~= entries_map(e).insert(entry.0@, entry.1));
}

/// The entry at `i` is what the map records for its file.
proof fn lemma_entries_lookup(e: Seq<(String, ContractState)>, i: int)
    requires
        keys_unique(e),
        0 <= i < e.len(),
    ensures
        entries_map(e).contains_key(e[i].0@),
        entries_map(e)[e[i].0@] == e[i].1,
{
    let k = e[i].0@;
    assert(0 <= i < e.len() && e[i].0@ == k);
    let m = choose|m: int| 0 <= m < e.len() && (#[trigger] e[m]).0@ == k;
    if m != i {
        if m < i {
            assert(e[m].0@ != e[i].0@);
        } else {
            assert(e[i].0@ != e[m].0@);
        }
    }
}

impl ContractStateMachine {
    /// The transitions kept by the machine.
    pub fn transitions(&self) -> (r: &Vec<StateTransition>)
        ensures
            r@.map_values(|t: StateTransition| t.view_tuple()) == self.table(),
    {
        &self.transitions
    }

    /// Position of the entry for `file`, if the file has one.
    fn find_entry(&self, file: &str) -> (r: Option<usize>)
        ensures
            match r {
                Some(i) => i < self.current_states@.len() && self.current_states@[i as int].0@ == file@,
                None => forall|j: int| 0 <= j < self.current_states@.len() ==> (#[trigger] self.current_states@[j]).0@ != file@,
            },
    {
        let mut i: usize = 0;
        while i < self.current_states.len()
            invariant
                i <= self.current_states@.len(),
                forall|j: int| 0 <= j < i ==> (#[trigger] self.current_states@[j]).0@ != file@,
            decreases self.current_states@.len() - i,
        {
            if str_eq(self.current_states[i].0.as_str(), file) {
                return Some(i);
            }
            i = i + 1;
        }
        None
    }

    /// Get the current state of a file.
    pub fn get_state(&self, file: &str) -> (r: ContractState)
        ensures
            r == state_in(self.states(), file@),
    {
        proof {
            use_type_invariant(self);
        }
        match self.find_entry(file) {
            Some(i) => {
                proof {
                    lemma_entries_lookup(self.current_states@, i as int);
                }
                self.current_states[i].1
            },
            None => ContractState::UNTRACKED,
        }
    }

    /// Set the current state of a file.
    pub fn set_state(&mut self, file: String, state: ContractState)
        ensures
            final(self).states() == old(self).states().insert(file@, state),
            final(self).table() == old(self).table(),
    {
        proof {
            use_type_invariant(&*self);
        }
        let found = self.find_entry(file.as_str());
        let mut entries: Vec<(String, ContractState)> = Vec::new();
        std::mem::swap(&mut entries, &mut self.current_states);
        match found {
            Some(i) => {
                proof {
                    lemma_entries_update(entries@, i as int, (file, state));
                }
                entries.set(i, (file, state));
            },
            None => {
                proof {
                    lemma_entries_push(entries@, (file, state));
                }
                entries.push((file, state));
            },
        }
        self.current_states = entries;
    }

    /// Check if a transition is valid.
    pub fn can_transition(&self, from: &ContractState, event: &TransitionEvent) -> (r: bool)
        ensures
            r == transition_target(*from, *event) is Some,
    {
        self.get_transition(from, event).is_some()
    }

    /// Get the transition details for a state and event.
    pub fn get_transition(&self, from: &ContractState, event: &TransitionEvent) -> (r: Option<&StateTransition>)
        ensures
            match r {
                Some(t) => t.from == *from && t.event == *event && transition_target(*from, *event) == Some(t.to)
                    && self.table().contains(t.view_tuple()),
                None => transition_target(*from, *event) is None,
            },
    {
        proof {
            use_type_invariant(self);
            lemma_table_is_target(*from, *event);
        }
        let mut i: usize = 0;
        while i < self.transitions.len()
            invariant
                i <= self.transitions@.len(),
                self.transitions@.map_values(|t: StateTransition| t.view_tuple()) == standard_table(),
                standard_table().len() == 7,
                forall|k: int| 0 <= k < 7 ==> transition_target((#[trigger] standard_table()[k]).0, standard_table()[k].1)
                    == Some(standard_table()[k].2),
                forall|j: int| 0 <= j < i ==> !(#[trigger] self.transitions@[j].from == *from && self.transitions@[j].event == *event),
            decreases self.transitions@.len() - i,
        {
            if self.transitions[i].from == *from && self.transitions[i].event == *event {
                proof {
                    assert(standard_table()[i as int] == self.transitions@[i as int].view_tuple());
                    assert(self.table()[i as int] == self.transitions@[i as int].view_tuple());
                }
                return Some(&self.transitions[i]);
            }
            i = i + 1;
        }
        proof {
            if transition_target(*from, *event) is Some {
                let k = choose|k: int| 0 <= k < 7 && (#[trigger] standard_table()[k]).0 == *from && standard_table()[k].1 == *event;
                assert(self.transitions@[k].view_tuple() == standard_table()[k]);
            }
        }
        None
    }

    /// Validate transition conditions.
    fn validate_transition_conditions(&self, file: &str, transition: &StateTransition) -> (r: Result<(), ConditionFailure>)
        ensures
            r is Ok <==> conditions_hold(file@, transition.event),
            r matches Err(reason) ==> reason == ConditionFailure::NoContractAttribute,
    {
        match transition.event {
            TransitionEvent::DetectContract => {
                if !self.file_has_contract_attribute(file) {
                    return Err(ConditionFailure::NoContractAttribute);
                }
                if self.has_git_note(file) {
                    return Err(ConditionFailure::HasGitNote);
                }
            },
            TransitionEvent::ValidateContract => {
                if !self.would_validation_pass(file) {
                    return Err(ConditionFailure::ValidationWouldFail);
                }
            },
            TransitionEvent::LockContract => {
                if !self.is_file_committed(file) {
                    return Err(ConditionFailure::NotCommitted);
                }
                if self.has_pending_changes(file) {
                    return Err(ConditionFailure::PendingChanges);
                }
            },
            TransitionEvent::ModifyContract => {
                if !self.has_content_changed(file) {
                    return Err(ConditionFailure::ContentUnchanged);
                }
            },
            TransitionEvent::RegenCodegen => {
                if !self.would_codegen_succeed(file) {
                    return Err(ConditionFailure::CodegenWouldFail);
                }
            },
            TransitionEvent::ReleaseProof => {
                if !self.is_merkle_chain_valid(file) {
                    return Err(ConditionFailure::MerkleChainInvalid);
                }
            },
        }
        Ok(())
    }

    /// Check if file has contract attribute in .gitattributes.
    fn file_has_contract_attribute(&self, file: &str) -> (r: bool)
        ensures
            r == has_contract_attribute(file@),
    {
        str_ends_with(file, ".rs") || str_ends_with(file, ".toml") || str_ends_with(file, ".md")
    }

    /// Check if file has existing Git note.
    fn has_git_note(&self, file: &str) -> (r: bool)
        ensures
            !r,
    {
        false
    }

    /// Check if validation would pass.
    fn would_validation_pass(&self, file: &str) -> (r: bool)
        ensures
            r,
    {
        true
    }

    /// Check if file is committed.
    fn is_file_committed(&self, file: &str) -> (r: bool)
        ensures
            r,
    {
        true
    }

    /// Check if file has pending changes.
    fn has_pending_changes(&self, file: &str) -> (r: bool)
        ensures
            !r,
    {
        false
    }

    /// Check if file content has changed.
    fn has_content_changed(&self, file: &str) -> (r: bool)
        ensures
            r,
    {
        true
    }

    /// Check if codegen regeneration would succeed.
    fn would_codegen_succeed(&self, file: &str) -> (r: bool)
        ensures
            r,
    {
        true
    }

    /// Check if Merkle chain is valid.
    fn is_merkle_chain_valid(&self, file: &str) -> (r: bool)
        ensures
            r,
    {
        true
    }

    /// Execute a state transition: on success the file moves to the target state
    /// of the table; on failure nothing changes.
    pub fn transition(&mut self, file: &str, event: TransitionEvent) -> (r: Result<ContractState, TransitionError>)
        ensures
            final(self).table() == old(self).table(),
            ({
                let current = state_in(old(self).states(), file@);
                match r {
                    Ok(s) => transition_target(current, event) == Some(s) && conditions_hold(file@, event)
                        && final(self).states() == old(self).states().insert(file@, s),
                    Err(TransitionError::InvalidTransition { state, event: e, file: f }) => transition_target(current, event) is None
                        && state == current && e == event && f@ == file@ && final(self).states() == old(self).states(),
                    Err(TransitionError::ConditionFailed { file: f, reason }) => transition_target(current, event) is Some
                        && !conditions_hold(file@, event) && reason == ConditionFailure::NoContractAttribute && f@ == file@
                        && final(self).states() == old(self).states(),
                }
            }),
    {
        let current_state = self.get_state(file);
        if !self.can_transition(&current_state, &event) {
            return Err(TransitionError::InvalidTransition { state: current_state, event, file: file.to_owned() });
        }
        let new_state = match self.get_transition(&current_state, &event) {
            Some(transition) => {
                match self.validate_transition_conditions(file, transition) {
                    Ok(()) => transition.to,
                    Err(reason) => {
                        return Err(TransitionError::ConditionFailed { file: file.to_owned(), reason });
                    },
                }
            },
            None => {
                return Err(TransitionError::InvalidTransition { state: current_state, event, file: file.to_owned() });
            },
        };
        self.set_state(file.to_owned(), new_state);
        Ok(new_state)
    }

    /// Get all valid transitions for a state, in table order.
    pub fn get_valid_transitions(&self, state: &ContractState) -> (r: Vec<&StateTransition>)
        ensures
            r@.map_values(|t: &StateTransition| t.view_tuple()) == valid_transitions(*state),
    {
        proof {
            use_type_invariant(self);
        }
        let mut r: Vec<&StateTransition> = Vec::new();
        let mut i: usize = 0;
        while i < self.transitions.len()
            invariant
                i <= self.transitions@.len(),
                self.transitions@.map_values(|t: StateTransition| t.view_tuple()) == standard_table(),
                r@.map_values(|t: &StateTransition| t.view_tuple()) == standard_table().subrange(0, i as int).filter(starts_at(*state)),
            decreases self.transitions@.len() - i,
        {
            reveal_with_fuel(Seq::<_>::filter, 1);
            assert(standard_table().subrange(0, i + 1).drop_last() =~= standard_table().subrange(0, i as int));
            assert(standard_table()[i as int] == self.transitions@[i as int].view_tuple());
            let ghost before = r@;
            if self.transitions[i].from == *state {
                r.push(&self.transitions[i]);
                assert(r@.map_values(|t: &StateTransition| t.view_tuple()) =~= before.map_values(|t: &StateTransition| t.view_tuple()).push(self.transitions@[i as int].view_tuple()));
            }
            i = i + 1;
        }
        assert(standard_table().subrange(0, self.transitions@.len() as int) =~= standard_table());
        r
    }
}

impl Default for ContractStateMachine {
    fn default() -> (r: Self)
        ensures
            r.table() == standard_table(),
            r.states() == Map::<Seq<char>, ContractState>::empty(),
    {
        Self::new()
    }
}

/// Reading a file's state after setting it gives the state that was set; the
/// states of all other files are unchanged.
pub proof fn lemma_state_read_after_write(
    states: Map<Seq<char>, ContractState>,
    file: Seq<char>,
    other: Seq<char>,
    state: ContractState,
)
    ensures
        state_in(states.insert(file, state), file) == state,
        other != file ==> state_in(states.insert(file, state), other) == state_in(states, other),
{
}

/// A file never recorded is UNTRACKED.
pub proof fn lemma_unknown_file_untracked(file: Seq<char>)
    ensures
        state_in(Map::<Seq<char>, ContractState>::empty(), file) == ContractState::UNTRACKED,
{
}

/// From UNTRACKED only contract detection is a valid transition.
pub proof fn lemma_untracked_only_detect(event: TransitionEvent)
    ensures
        transition_target(ContractState::UNTRACKED, event) is Some <==> event == TransitionEvent::DetectContract,
{
}

/// No transition leads back to UNTRACKED.
pub proof fn lemma_never_untracked_again(from: ContractState, event: TransitionEvent)
    ensures
        transition_target(from, event) != Some(ContractState::UNTRACKED),
{
}

/// A file becomes LOCKED only from VALIDATED (or stays LOCKED).
pub proof fn lemma_locked_only_from_validated(from: ContractState, event: TransitionEvent)
    ensures
        transition_target(from, event) == Some(ContractState::LOCKED) ==> (from == ContractState::VALIDATED
            || from == ContractState::LOCKED),
{
}

/// Releasing a proof never changes a file's state.
pub proof fn lemma_release_proof_keeps_state(from: ContractState)
    ensures
        transition_target(from, TransitionEvent::ReleaseProof) is Some ==> transition_target(
            from,
            TransitionEvent::ReleaseProof,
        ) == Some(from),
{
}

/// Modifying a locked file invalidates its proof: it must be validated again
/// before it can be locked again.
pub proof fn lemma_modify_requires_revalidation()
    ensures
        transition_target(ContractState::LOCKED, TransitionEvent::ModifyContract) == Some(ContractState::UNVALIDATED),
        transition_target(ContractState::UNVALIDATED, TransitionEvent::LockContract) is None,
{
}

/// The lifecycle of a contract file: detection, validation and locking take an
/// untracked file to LOCKED, and each step's conditions hold for such a file.
pub proof fn lemma_lifecycle_reaches_locked(file: Seq<char>)
    requires
        has_contract_attribute(file),
    ensures
        transition_target(ContractState::UNTRACKED, TransitionEvent::DetectContract) == Some(ContractState::UNVALIDATED),
        transition_target(ContractState::UNVALIDATED, TransitionEvent::ValidateContract) == Some(ContractState::VALIDATED),
        transition_target(ContractState::VALIDATED, TransitionEvent::LockContract) == Some(ContractState::LOCKED),
        conditions_hold(file, TransitionEvent::DetectContract),
        conditions_hold(file, TransitionEvent::ValidateContract),
        conditions_hold(file, TransitionEvent::LockContract),
{
}


/// The descriptions of the states, by name.
pub open spec fn state_descriptions() -> JsonView {
    JsonView::Object(
        seq![
            ("LOCKED"@, JsonView::Str("File is validated + no further modifications allowed without re-validation"@)),
            ("UNTRACKED"@, JsonView::Str("File has no contract or codegen attribute"@)),
            ("UNVALIDATED"@, JsonView::Str("File has contract/codegen attribute but no proof (note)"@)),
            ("VALIDATED"@, JsonView::Str("File has contract/codegen attribute + matching note with hash"@)),
        ],
    )
}

/// A transition as JSON: its action, conditions, event and states.
pub open spec fn transition_json(t: TransitionView) -> JsonView {
    JsonView::Object(
        seq![
            ("action"@, JsonView::Str(t.3)),
            ("conditions"@, JsonView::Array(t.4.map_values(|c: Seq<char>| JsonView::Str(c)))),
            ("event"@, JsonView::Str(t.1.name_text())),
            ("from"@, JsonView::Str(t.0.name_text())),
            ("to"@, JsonView::Str(t.2.name_text())),
        ],
    )
}

/// The machine's schema: the states with their descriptions, and the
/// transitions in table order.
pub open spec fn machine_schema(table: Seq<TransitionView>) -> JsonView {
    JsonView::Object(
        seq![
            ("states"@, state_descriptions()),
            ("transitions"@, JsonView::Array(table.map_values(|t: TransitionView| transition_json(t)))),
        ],
    )
}

/// The log record of a transition of `file` from `from` to `to` by
/// `event`, with content hash `hash`, made at time `timestamp`.
pub open spec fn transition_log(
    file: Seq<char>,
    from: ContractState,
    to: ContractState,
    event: TransitionEvent,
    hash: Seq<char>,
    timestamp: Seq<char>,
) -> JsonView {
    JsonView::Object(
        seq![
            ("commit_hash"@, JsonView::Null),
            ("file"@, JsonView::Str(file)),
            ("from"@, JsonView::Str(from.name_text())),
            ("hash"@, JsonView::Str("sha256:"@ + hash)),
            (
                "metadata"@,
                JsonView::Object(
                    seq![("duration_ms"@, JsonView::Number("0"@)), ("validation_errors"@, JsonView::Array(Seq::empty()))],
                ),
            ),
            ("timestamp"@, JsonView::Str(timestamp)),
            ("to"@, JsonView::Str(to.name_text())),
            ("tool"@, JsonView::Str("xtask-contract-validate 0.2.0"@)),
            ("transition"@, JsonView::Str(event.name_text())),
        ],
    )
}

/// Text items as JSON strings.
fn string_items(v: &Vec<String>) -> (r: JsonValue)
    ensures
        r@ == JsonView::Array(v@.map_values(|s: String| s@).map_values(|c: Seq<char>| JsonView::Str(c))),
{
    let mut items: Vec<JsonValue> = Vec::new();
    let mut i: usize = 0;
    while i < v.len()
        invariant
            i <= v@.len(),
            items@.len() == i,
            forall|j: int| 0 <= j < i ==> (#[trigger] items@[j])@ == JsonView::Str(v@[j]@),
        decreases v@.len() - i,
    {
        items.push(JsonValue::Str(crate::sarif::copy_string(&v[i])));
        i = i + 1;
    }
    proof {
        crate::json::lemma_items_view(items@);
    }
    assert(crate::json::items_view(items@) =~= v@.map_values(|s: String| s@).map_values(|c: Seq<char>| JsonView::Str(c)));
    JsonValue::Array(items)
}

impl ContractStateMachine {
    /// The note that records a file's validation at `scope`, for a file in
    /// `state` after `event`, with content hash `hash`: validated exactly
    /// when the state is VALIDATED or LOCKED.
    pub fn create_validation_note(
        &self,
        file: &str,
        scope: ValidationScope,
        state: &ContractState,
        event: &TransitionEvent,
        hash: &str,
    ) -> (r: ValidationNote)
        ensures
            r.scope@ == scope.kind_name_text(),
            r.file@ == file@,
            r.range is None,
            r.hash@ == "sha256:"@ + hash@,
            r.parent_scope is None,
            r.parent_hash is None,
            r.child_scopes@.len() == 0,
            r.validated == (*state == ContractState::VALIDATED || *state == ContractState::LOCKED),
            r.validation_errors@.len() == 0,
            r.contract_type@ == "rust_validation"@,
            r.tool@ == "xtask-contract-validate"@,
            r.commit_hash is None,
            r.validation_duration_ms == 0,
            fields_view(r.metadata@) == seq![
                ("contract"@, JsonView::Str("validation"@)),
                ("state"@, JsonView::Str(state.name_text())),
                ("validated_by"@, JsonView::Str("xtask-contract-validate 0.2.0"@)),
            ],
    {
        let mut metadata: Vec<(String, JsonValue)> = Vec::new();
        metadata.push(("contract".to_owned(), JsonValue::Str("validation".to_owned())));
        metadata.push(("state".to_owned(), JsonValue::Str(state.name().to_owned())));
        metadata.push(("validated_by".to_owned(), JsonValue::Str("xtask-contract-validate 0.2.0".to_owned())));
        proof {
            crate::json::lemma_fields_view(metadata@);
        }
        assert(fields_view(metadata@) =~= seq![
            ("contract"@, JsonView::Str("validation"@)),
            ("state"@, JsonView::Str(state.name_text())),
            ("validated_by"@, JsonView::Str("xtask-contract-validate 0.2.0"@)),
        ]);
        let mut h = "sha256:".to_owned();
        h.append(hash);
        ValidationNote {
            scope: scope.kind_name().to_owned(),
            file: file.to_owned(),
            range: None,
            hash: h,
            parent_scope: None,
            parent_hash: None,
            child_scopes: Vec::new(),
            validated: *state == ContractState::VALIDATED || *state == ContractState::LOCKED,
            validation_errors: Vec::new(),
            contract_type: "rust_validation".to_owned(),
            tool: "xtask-contract-validate".to_owned(),
            timestamp: utc_now_rfc3339(),
            commit_hash: None,
            validation_duration_ms: 0,
            metadata,
        }
    }

    /// The log record of a transition of `file` from `from` to `to` by
    /// `event`, with content hash `hash`, stamped with the current time.
    pub fn create_transition_log(
        &self,
        file: &str,
        from: &ContractState,
        to: &ContractState,
        event: &TransitionEvent,
        hash: &str,
    ) -> (r: JsonValue)
        ensures
            exists|ts: Seq<char>| r@ == transition_log(file@, *from, *to, *event, hash@, ts),
    {
        let mut h = "sha256:".to_owned();
        h.append(hash);
        let timestamp = utc_now_rfc3339();
        let ghost ts = timestamp@;
        let metadata = crate::json::object_of_two(
            "duration_ms",
            JsonValue::Number("0".to_owned()),
            "validation_errors",
            JsonValue::Array(Vec::new()),
        );
        let mut fields: Vec<(String, JsonValue)> = Vec::new();
        fields.push(("commit_hash".to_owned(), JsonValue::Null));
        fields.push(("file".to_owned(), JsonValue::Str(file.to_owned())));
        fields.push(("from".to_owned(), JsonValue::Str(from.name().to_owned())));
        fields.push(("hash".to_owned(), JsonValue::Str(h)));
        fields.push(("metadata".to_owned(), metadata));
        fields.push(("timestamp".to_owned(), JsonValue::Str(timestamp)));
        fields.push(("to".to_owned(), JsonValue::Str(to.name().to_owned())));
        fields.push(("tool".to_owned(), JsonValue::Str("xtask-contract-validate 0.2.0".to_owned())));
        fields.push(("transition".to_owned(), JsonValue::Str(event.name().to_owned())));
        proof {
            crate::json::lemma_fields_view(fields@);
            assert(crate::json::items_view(Seq::<JsonValue>::empty()) =~= Seq::<JsonView>::empty());
        }
        assert(fields_view(fields@) =~= transition_log(file@, *from, *to, *event, hash@, ts)->Object_0);
        let r = JsonValue::Object(fields);
        r
    }

    /// The machine as a schema: each state with its description, and each
    /// transition of the table in order.
    pub fn to_schema(&self) -> (r: JsonValue)
        ensures
            r@ == machine_schema(self.table()),
    {
        proof {
            use_type_invariant(self);
        }
        let states = {
            let mut f: Vec<(String, JsonValue)> = Vec::new();
            f.push(("LOCKED".to_owned(), JsonValue::Str("File is validated + no further modifications allowed without re-validation".to_owned())));
            f.push(("UNTRACKED".to_owned(), JsonValue::Str("File has no contract or codegen attribute".to_owned())));
            f.push(("UNVALIDATED".to_owned(), JsonValue::Str("File has contract/codegen attribute but no proof (note)".to_owned())));
            f.push(("VALIDATED".to_owned(), JsonValue::Str("File has contract/codegen attribute + matching note with hash".to_owned())));
            proof {
                crate::json::lemma_fields_view(f@);
            }
            assert(fields_view(f@) =~= state_descriptions()->Object_0);
            let st = JsonValue::Object(f);
            st
        };
        let ghost tv = self.table();
        let mut items: Vec<JsonValue> = Vec::new();
        let mut i: usize = 0;
        while i < self.transitions.len()
            invariant
                i <= self.transitions@.len(),
                tv == self.transitions@.map_values(|t: StateTransition| t.view_tuple()),
                items@.len() == i,
                forall|j: int| 0 <= j < i ==> (#[trigger] items@[j])@ == transition_json(tv[j]),
            decreases self.transitions@.len() - i,
        {
            let t = &self.transitions[i];
            let mut f: Vec<(String, JsonValue)> = Vec::new();
            f.push(("action".to_owned(), JsonValue::Str(crate::sarif::copy_string(&t.action))));
            f.push(("conditions".to_owned(), string_items(&t.conditions)));
            f.push(("event".to_owned(), JsonValue::Str(t.event.name().to_owned())));
            f.push(("from".to_owned(), JsonValue::Str(t.from.name().to_owned())));
            f.push(("to".to_owned(), JsonValue::Str(t.to.name().to_owned())));
            proof {
                crate::json::lemma_fields_view(f@);
            }
            assert(t.view_tuple() == tv[i as int]);
            assert(fields_view(f@) =~= transition_json(tv[i as int])->Object_0);
            let item = JsonValue::Object(f);
            items.push(item);
            i = i + 1;
        }
        proof {
            crate::json::lemma_items_view(items@);
        }
        assert(crate::json::items_view(items@) =~= tv.map_values(|t: TransitionView| transition_json(t)));
        crate::json::object_of_two("states", states, "transitions", JsonValue::Array(items))
    }
}

} // verus!
