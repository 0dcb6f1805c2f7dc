use raft::state::{State, StateType};

#[test]
fn test_state() {
    let s = StateType::Follower;
    assert_eq!(s.to_string(), "Follower");
    assert_eq!(StateType::Candidate.to_string(), "Candidate");
    assert_eq!(StateType::Shutdown.to_string(), "Shutdown");
    assert_eq!(StateType::Leader.to_string(), "Leader");
}

#[test]
fn state_getters_and_setters() {
    let mut s = State::new(1, 2, 3, 4, 5, 6, 7, StateType::Follower);
    assert_eq!(s.get_current_term(), 1);
    assert_eq!(s.get_commit_index(), 2);
    assert_eq!(s.get_last_applied(), 3);
    assert_eq!(s.get_last_log(), (4, 5));
    assert_eq!(s.get_last_snapshot(), (6, 7));
    assert_eq!(s.get_state(), StateType::Follower);
    s.set_state(StateType::Leader);
    s.set_current_term(9);
    s.set_commit_index(10);
    s.set_last_applied(11);
    s.set_last_log(12, 13);
    s.set_last_snapshot(14, 15);
    assert_eq!(s.get_state(), StateType::Leader);
    assert_eq!(s.get_current_term(), 9);
    assert_eq!(s.get_commit_index(), 10);
    assert_eq!(s.get_last_applied(), 11);
    assert_eq!(s.get_last_log(), (12, 13));
    assert_eq!(s.get_last_snapshot(), (14, 15));
}

#[test]
fn state_last_index_is_the_larger_one() {
    let s = State::new(0, 0, 0, 4, 1, 9, 1, StateType::Follower);
    assert_eq!(s.get_last_index(), 9);
    let s = State::new(0, 0, 0, 12, 1, 9, 1, StateType::Follower);
    assert_eq!(s.get_last_index(), 12);
}

#[test]
fn state_last_entry_compares_log_index_with_log_term() {
    // the log entry is reported when its index is at least its term
    let s = State::new(0, 0, 0, 5, 3, 9, 2, StateType::Candidate);
    assert_eq!(s.get_last_entry(), (5, 3));
    let s = State::new(0, 0, 0, 2, 3, 9, 2, StateType::Candidate);
    assert_eq!(s.get_last_entry(), (9, 2));
}
