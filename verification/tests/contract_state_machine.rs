use hooksmith::contract_state_machine::{ContractState, ContractStateMachine, TransitionError, TransitionEvent};

#[test]
fn test_state_machine_creation() {
    let machine = ContractStateMachine::new();
    assert!(!machine.transitions().is_empty());
}

#[test]
fn test_valid_transition() {
    let mut machine = ContractStateMachine::new();
    let file = "test.rs";
    let result = machine.transition(file, TransitionEvent::DetectContract);
    assert!(result.is_ok());
    assert_eq!(result.unwrap(), ContractState::UNVALIDATED);
}

#[test]
fn test_invalid_transition() {
    let mut machine = ContractStateMachine::new();
    let file = "test.rs";
    let result = machine.transition(file, TransitionEvent::ValidateContract);
    assert!(result.is_err());
}

#[test]
fn test_transition_chain() {
    let mut machine = ContractStateMachine::new();
    let file = "test.rs";
    assert_eq!(machine.get_state(file), ContractState::UNTRACKED);
    machine.transition(file, TransitionEvent::DetectContract).unwrap();
    assert_eq!(machine.get_state(file), ContractState::UNVALIDATED);
    machine.transition(file, TransitionEvent::ValidateContract).unwrap();
    assert_eq!(machine.get_state(file), ContractState::VALIDATED);
    machine.transition(file, TransitionEvent::LockContract).unwrap();
    assert_eq!(machine.get_state(file), ContractState::LOCKED);
}

#[test]
fn transition_table_has_seven_entries() {
    let machine = ContractStateMachine::new();
    assert_eq!(machine.transitions().len(), 7);
    let t = machine.get_transition(&ContractState::UNVALIDATED, &TransitionEvent::ValidateContract).unwrap();
    assert_eq!(t.action, "Re-run validator with new content");
    assert_eq!(t.conditions.len(), 3);
    assert!(machine.get_transition(&ContractState::LOCKED, &TransitionEvent::LockContract).is_none());
}

#[test]
fn detect_requires_contract_attribute() {
    let mut machine = ContractStateMachine::new();
    match machine.transition("image.png", TransitionEvent::DetectContract) {
        Err(TransitionError::ConditionFailed { .. }) => {}
        _ => panic!("expected a condition failure"),
    }
    assert_eq!(machine.get_state("image.png"), ContractState::UNTRACKED);
    assert!(machine.transition("Cargo.toml", TransitionEvent::DetectContract).is_ok());
    assert!(machine.transition("README.md", TransitionEvent::DetectContract).is_ok());
}

#[test]
fn set_and_get_state_per_file() {
    let mut machine = ContractStateMachine::new();
    machine.set_state("a.rs".to_string(), ContractState::LOCKED);
    machine.set_state("b.rs".to_string(), ContractState::VALIDATED);
    machine.set_state("a.rs".to_string(), ContractState::UNVALIDATED);
    assert_eq!(machine.get_state("a.rs"), ContractState::UNVALIDATED);
    assert_eq!(machine.get_state("b.rs"), ContractState::VALIDATED);
    assert_eq!(machine.get_state("c.rs"), ContractState::UNTRACKED);
}

#[test]
fn modify_then_revalidate() {
    let mut machine = ContractStateMachine::new();
    machine.set_state("x.rs".to_string(), ContractState::LOCKED);
    assert_eq!(machine.transition("x.rs", TransitionEvent::ModifyContract).unwrap(), ContractState::UNVALIDATED);
    assert!(machine.transition("x.rs", TransitionEvent::LockContract).is_err());
    assert_eq!(machine.transition("x.rs", TransitionEvent::RegenCodegen).unwrap(), ContractState::VALIDATED);
    assert_eq!(machine.transition("x.rs", TransitionEvent::ReleaseProof).unwrap(), ContractState::VALIDATED);
}

#[test]
fn valid_transitions_per_state() {
    let machine = ContractStateMachine::new();
    assert_eq!(machine.get_valid_transitions(&ContractState::UNVALIDATED).len(), 2);
    assert_eq!(machine.get_valid_transitions(&ContractState::UNTRACKED).len(), 1);
    assert_eq!(machine.get_valid_transitions(&ContractState::LOCKED).len(), 2);
    assert!(machine.can_transition(&ContractState::VALIDATED, &TransitionEvent::LockContract));
    assert!(!machine.can_transition(&ContractState::UNTRACKED, &TransitionEvent::ReleaseProof));
}

#[test]
fn transition_log_fields() {
    let machine = hooksmith::contract_state_machine::ContractStateMachine::new();
    let log = machine.create_transition_log(
        "src/a.rs",
        &hooksmith::contract_state_machine::ContractState::UNVALIDATED,
        &hooksmith::contract_state_machine::ContractState::VALIDATED,
        &hooksmith::contract_state_machine::TransitionEvent::ValidateContract,
        "abc",
    );
    let text = log.to_json_text();
    assert!(text.starts_with("{\"commit_hash\":null,\"file\":\"src/a.rs\",\"from\":\"UNVALIDATED\",\"hash\":\"sha256:abc\",\"metadata\":{\"duration_ms\":0,\"validation_errors\":[]},\"timestamp\":\""));
    assert!(text.ends_with("\"to\":\"VALIDATED\",\"tool\":\"xtask-contract-validate 0.2.0\",\"transition\":\"ValidateContract\"}"));
}

#[test]
fn schema_lists_states_and_transitions() {
    let machine = hooksmith::contract_state_machine::ContractStateMachine::new();
    let schema = machine.to_schema();
    let states = schema.get("states").unwrap();
    assert_eq!(
        states.get("UNTRACKED"),
        Some(&hooksmith::json::JsonValue::Str("File has no contract or codegen attribute".to_string()))
    );
    match schema.get("transitions") {
        Some(hooksmith::json::JsonValue::Array(items)) => assert_eq!(items.len(), machine.transitions().len()),
        _ => panic!("transitions missing"),
    }
}

#[test]
fn validation_note_of_state() {
    let machine = hooksmith::contract_state_machine::ContractStateMachine::new();
    let note = machine.create_validation_note(
        "f.rs",
        hooksmith::hierarchical_validation::ValidationScope::Line,
        &hooksmith::contract_state_machine::ContractState::LOCKED,
        &hooksmith::contract_state_machine::TransitionEvent::LockContract,
        "h",
    );
    assert_eq!(note.scope, "Line");
    assert_eq!(note.hash, "sha256:h");
    assert!(note.validated);
    assert_eq!(note.contract_type, "rust_validation");
    let unvalidated = machine.create_validation_note(
        "f.rs",
        hooksmith::hierarchical_validation::ValidationScope::Line,
        &hooksmith::contract_state_machine::ContractState::UNVALIDATED,
        &hooksmith::contract_state_machine::TransitionEvent::DetectContract,
        "h",
    );
    assert!(!unvalidated.validated);
}

#[test]
fn valid_transitions_are_the_allowed_moves() {
    let machine = ContractStateMachine::new();
    let events = [
        TransitionEvent::DetectContract,
        TransitionEvent::ValidateContract,
        TransitionEvent::LockContract,
        TransitionEvent::ModifyContract,
        TransitionEvent::RegenCodegen,
        TransitionEvent::ReleaseProof,
    ];
    let states = [ContractState::UNTRACKED, ContractState::UNVALIDATED, ContractState::VALIDATED, ContractState::LOCKED];
    for state in states {
        let valid = machine.get_valid_transitions(&state);
        let allowed = events.iter().filter(|e| machine.can_transition(&state, e)).count();
        assert_eq!(valid.len(), allowed);
        assert_eq!(valid.len(), if state == ContractState::UNTRACKED { 1 } else { 2 });
        for (i, t) in valid.iter().enumerate() {
            assert_eq!(t.from, state);
            assert!(machine.can_transition(&state, &t.event));
            for u in &valid[i + 1..] {
                assert_ne!(u.event, t.event);
            }
        }
    }
}
