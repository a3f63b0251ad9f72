use malina::errors::state::State;
use malina::state::Machine;

const ALL: [Machine; 5] = [Machine::Planned, Machine::Provisioning, Machine::Initialized, Machine::Ready, Machine::Failed];

#[test]
fn names() {
    let names: Vec<&str> = ALL.iter().map(|s| s.as_str()).collect();
    assert_eq!(names, vec!["planned", "provisioning", "initialized", "ready", "failed"]);
}

#[test]
fn names_read_back() {
    for state in ALL {
        assert_eq!(Machine::from_str(state.as_str()).ok(), Some(state));
        assert_eq!(Machine::from_str(&state.as_str().to_uppercase()).ok(), Some(state));
    }
    assert_eq!(Machine::from_str("READY").ok(), Some(Machine::Ready));
    assert_eq!(Machine::from_str("Provisioning").ok(), Some(Machine::Provisioning));
    match Machine::from_str("running") {
        Err(State::UnknownState { value }) => assert_eq!(value, "running"),
        _ => panic!("expected an unknown state"),
    }
}

#[test]
fn lifecycle() {
    assert_eq!(Machine::Planned.valid_transitions(), vec![Machine::Provisioning]);
    assert_eq!(Machine::Provisioning.valid_transitions(), vec![Machine::Initialized, Machine::Failed]);
    assert_eq!(Machine::Initialized.valid_transitions(), vec![Machine::Ready, Machine::Failed]);
    assert!(Machine::Ready.valid_transitions().is_empty());
    assert!(Machine::Failed.valid_transitions().is_empty());
    assert!(Machine::Planned.can_transition_to(&Machine::Provisioning));
    assert!(!Machine::Planned.can_transition_to(&Machine::Ready));
}

#[test]
fn transitions() {
    assert_eq!(Machine::Provisioning.transition_to(Machine::Initialized).ok(), Some(Machine::Initialized));
    match Machine::Provisioning.transition_to(Machine::Ready) {
        Err(State::InvalidTransition { current, attempted, valid_transitions }) => {
            assert_eq!(current, Machine::Provisioning);
            assert_eq!(attempted, Machine::Ready);
            assert_eq!(valid_transitions, "initialized, failed");
        }
        _ => panic!("expected an invalid transition"),
    }
    match Machine::Ready.transition_to(Machine::Failed) {
        Err(State::InvalidTransition { valid_transitions, .. }) => assert_eq!(valid_transitions, ""),
        _ => panic!("expected an invalid transition"),
    }
}

#[test]
fn every_transition_moves_forward() {
    for from in ALL {
        for to in from.valid_transitions() {
            assert!(from != to);
            assert!(!matches!(to, Machine::Planned));
        }
    }
}
