use vstd::prelude::*;
use crate::names::same_text;

verus! {

/// `StateType` captures the state of a Raft node: Follower, Candidate, Leader, or Shutdown.
#[derive(Debug, Copy, Clone, Eq, PartialEq, Structural)]
pub enum StateType {
    /// Follower is the initial state of a Raft node.
    Follower,
    /// Leader is one of the valid states of a Raft node
    Leader,
    /// Candidate is one of the valid states of a Raft node
    Candidate,
    /// Shutdown is the terminal state of a Raft node
    Shutdown,
}

/// The name of a `StateType`, in CamelCase.
pub open spec fn state_type_name(v: StateType) -> Seq<char> {
    match v {
        StateType::Follower => "Follower"@,
        StateType::Leader => "Leader"@,
        StateType::Candidate => "Candidate"@,
        StateType::Shutdown => "Shutdown"@,
    }
}

/// The `StateType` that `s` names, if any.
pub open spec fn state_type_named(s: Seq<char>) -> Option<StateType> {
    if s == "Follower"@ {
        Some(StateType::Follower)
    } else if s == "Leader"@ {
        Some(StateType::Leader)
    } else if s == "Candidate"@ {
        Some(StateType::Candidate)
    } else if s == "Shutdown"@ {
        Some(StateType::Shutdown)
    } else {
        None
    }
}

/// Parsing the name of a `StateType` gives the state back.
pub proof fn law_state_type_parse_name(v: StateType)
    ensures
        state_type_named(state_type_name(v)) == Some(v),
{
    reveal_strlit("Follower");
    reveal_strlit("Leader");
    reveal_strlit("Candidate");
    reveal_strlit("Shutdown");
    assert("Follower"@.len() != "Leader"@.len());
    assert("Follower"@.len() != "Candidate"@.len());
    assert("Follower"@[0] != "Shutdown"@[0]);
    assert("Leader"@.len() != "Candidate"@.len());
    assert("Leader"@.len() != "Shutdown"@.len());
    assert("Candidate"@.len() != "Shutdown"@.len());
}

impl StateType {
    /// The state that `s` names, written as `to_string` writes it.
    pub fn parse(s: &str) -> (r: Option<Self>)
        ensures
            r == state_type_named(s@),
    {
        if same_text(s, "Follower") {
            return Some(StateType::Follower);
        }
        if same_text(s, "Leader") {
            return Some(StateType::Leader);
        }
        if same_text(s, "Candidate") {
            return Some(StateType::Candidate);
        }
        if same_text(s, "Shutdown") {
            return Some(StateType::Shutdown);
        }
        None
    }

    /// The name of the state, in CamelCase.
    pub fn to_string(&self) -> (r: String)
        ensures
            r@ == state_type_name(*self),
    {
        match self {
            StateType::Follower => String::from_str("Follower"),
            StateType::Leader => String::from_str("Leader"),
            StateType::Candidate => String::from_str("Candidate"),
            StateType::Shutdown => String::from_str("Shutdown"),
        }
    }
}

/// `State` is used to maintain various state variables of a Raft node.
pub struct State {
    /// latest term server has seen
    current_term: u64,
    /// index of highest log entry known to be committed (initialized to 0, increases monotonically)
    commit_index: u64,
    /// index of highest log entry applied to state machine (initialized to 0, increases monotonically)
    last_applied: u64,
    /// cache the latest log index
    last_log_index: u64,
    /// cache the latest log term
    last_log_term: u64,
    /// cache the latest snapshot index
    last_snapshot_index: u64,
    /// cache the latest snapshot term
    last_snapshot_term: u64,
    /// the current state type
    typ: StateType,
}

/// The variables a `State` holds.
pub struct StateView {
    pub current_term: u64,
    pub commit_index: u64,
    pub last_applied: u64,
    pub last_log_index: u64,
    pub last_log_term: u64,
    pub last_snapshot_index: u64,
    pub last_snapshot_term: u64,
    pub typ: StateType,
}

impl View for State {
    type V = StateView;

    closed spec fn view(&self) -> StateView {
        StateView {
            current_term: self.current_term,
            commit_index: self.commit_index,
            last_applied: self.last_applied,
            last_log_index: self.last_log_index,
            last_log_term: self.last_log_term,
            last_snapshot_index: self.last_snapshot_index,
            last_snapshot_term: self.last_snapshot_term,
            typ: self.typ,
        }
    }
}

/// The last index known to the node, from its log or its snapshot.
pub open spec fn spec_last_index(s: StateView) -> u64 {
    if s.last_log_index >= s.last_snapshot_index {
        s.last_log_index
    } else {
        s.last_snapshot_index
    }
}

/// The entry `get_last_entry` reports: the last log entry when its index is at
/// least its term, the last snapshot otherwise.
pub open spec fn spec_last_entry(s: StateView) -> (u64, u64) {
    if s.last_log_index >= s.last_log_term {
        (s.last_log_index, s.last_log_term)
    } else {
        (s.last_snapshot_index, s.last_snapshot_term)
    }
}

impl State {
    pub fn new(
        current_term: u64,
        commit_index: u64,
        last_applied: u64,
        last_log_index: u64,
        last_log_term: u64,
        last_snapshot_index: u64,
        last_snapshot_term: u64,
        typ: StateType,
    ) -> (r: Self)
        ensures
            r@ == (StateView {
                current_term,
                commit_index,
                last_applied,
                last_log_index,
                last_log_term,
                last_snapshot_index,
                last_snapshot_term,
                typ,
            }),
    {
        Self {
            current_term,
            commit_index,
            last_applied,
            last_log_index,
            last_log_term,
            last_snapshot_index,
            last_snapshot_term,
            typ,
        }
    }

    pub fn get_state(&self) -> (r: StateType)
        ensures
            r == self@.typ,
    {
        self.typ
    }

    pub fn set_state(&mut self, typ: StateType)
        ensures
            final(self)@ == (StateView { typ, ..old(self)@ }),
    {
        self.typ = typ
    }

    pub fn get_current_term(&self) -> (r: u64)
        ensures
            r == self@.current_term,
    {
        self.current_term
    }

    pub fn set_current_term(&mut self, term: u64)
        ensures
            final(self)@ == (StateView { current_term: term, ..old(self)@ }),
    {
        self.current_term = term
    }

    /// The index and term of the last log entry.
    pub fn get_last_log(&self) -> (r: (u64, u64))
        ensures
            r == (self@.last_log_index, self@.last_log_term),
    {
        (self.last_log_index, self.last_log_term)
    }

    pub fn set_last_log(&mut self, index: u64, term: u64)
        ensures
            final(self)@ == (StateView { last_log_index: index, last_log_term: term, ..old(self)@ }),
    {
        self.last_log_index = index;
        self.last_log_term = term;
    }

    /// The index and term of the last snapshot.
    pub fn get_last_snapshot(&self) -> (r: (u64, u64))
        ensures
            r == (self@.last_snapshot_index, self@.last_snapshot_term),
    {
        (self.last_snapshot_index, self.last_snapshot_term)
    }

    pub fn set_last_snapshot(&mut self, index: u64, term: u64)
        ensures
            final(self)@ == (StateView {
                last_snapshot_index: index,
                last_snapshot_term: term,
                ..old(self)@
            }),
    {
        self.last_snapshot_index = index;
        self.last_snapshot_term = term;
    }

    pub fn get_commit_index(&self) -> (r: u64)
        ensures
            r == self@.commit_index,
    {
        self.commit_index
    }

    pub fn set_commit_index(&mut self, index: u64)
        ensures
            final(self)@ == (StateView { commit_index: index, ..old(self)@ }),
    {
        self.commit_index = index;
    }

    pub fn get_last_applied(&self) -> (r: u64)
        ensures
            r == self@.last_applied,
    {
        self.last_applied
    }

    pub fn set_last_applied(&mut self, index: u64)
        ensures
            final(self)@ == (StateView { last_applied: index, ..old(self)@ }),
    {
        self.last_applied = index;
    }

    /// The last index known to the node: the larger of the last log index and
    /// the last snapshot index.
    pub fn get_last_index(&self) -> (r: u64)
        ensures
            r == spec_last_index(self@),
    {
        if self.last_log_index >= self.last_snapshot_index {
            self.last_log_index
        } else {
            self.last_snapshot_index
        }
    }

    /// The index and term of the last entry: the last log entry when its index
    /// is at least its term, the last snapshot otherwise.
    pub fn get_last_entry(&self) -> (r: (u64, u64))
        ensures
            r == spec_last_entry(self@),
    {
        if self.last_log_index >= self.last_log_term {
            return (self.last_log_index, self.last_log_term);
        }
        (self.last_snapshot_index, self.last_snapshot_term)
    }
}

} // verus!
