use orchestrator::task::{contains, State};

const ALL: [State; 5] = [
    State::Pending,
    State::Scheduled,
    State::Completed,
    State::Running,
    State::Failed,
];

fn listed(from: State, to: State) -> bool {
    matches!(
        (from, to),
        (State::Pending, State::Scheduled)
            | (State::Scheduled, State::Scheduled)
            | (State::Scheduled, State::Failed)
            | (State::Scheduled, State::Running)
            | (State::Running, State::Running)
            | (State::Running, State::Completed)
            | (State::Running, State::Failed)
    )
}

#[test]
fn every_pair_follows_the_table() {
    for from in ALL {
        for to in ALL {
            assert_eq!(contains(&from, &to), listed(from, to), "{:?} -> {:?}", from, to);
        }
    }
}

#[test]
fn terminal_states_lead_nowhere() {
    for to in ALL {
        assert!(!contains(&State::Completed, &to));
        assert!(!contains(&State::Failed, &to));
    }
}

#[test]
fn pending_only_moves_to_scheduled() {
    assert!(contains(&State::Pending, &State::Scheduled));
    assert!(!contains(&State::Pending, &State::Pending));
    assert!(!contains(&State::Pending, &State::Running));
}

#[test]
fn default_state_is_pending() {
    assert_eq!(State::default(), State::Pending);
}
