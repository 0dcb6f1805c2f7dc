use vstd::prelude::*;
use vstd::string::to_string_from_display_ensures;

verus! {

/// The failure `String::from_utf8` reports for bytes that are not UTF-8.
#[verifier::external_type_specification]
#[verifier::external_body]
pub struct ExFromUtf8Error(std::string::FromUtf8Error);

/// `<FromUtf8Error as Clone>::clone`, which the `Clone` of `Error` calls;
/// nothing is claimed of the copy it makes.
pub assume_specification[ <std::string::FromUtf8Error as Clone>::clone ](
    e: &std::string::FromUtf8Error,
) -> std::string::FromUtf8Error;

/// `Error` represents custom errors in this crate.
#[derive(Debug, Eq, PartialEq)]
pub enum Error {
    /// `Nil` is what a future reports when the operation succeeded.
    Nil,
    /// `LogNotFound` when the specific log entry is not found
    LogNotFound,
    /// `PipelineReplicationNotSupported` can be returned by the transport to
    /// signal that pipeline replication is not supported in general, and that
    /// no error message should be produced.
    PipeLineReplicationNotSupported,
    /// `UnableToStoreLogs` unable to store logs within log store
    UnableToStoreLogs(String),
    /// `NotFound` when some else is not found, which is different from `LogNotFound`
    NotFound,
    /// `FromUtf8Error` when cannot convert UTF8 bytes to `String`
    FromUtf8Error(std::string::FromUtf8Error),
    /// local_id cannot be empty
    EmptyLocalID,
    /// heartbeat_timeout is too low
    ShortHeartbeatTimeout,
    /// election_timeout is too low
    ShortElectionTimeout,
    /// commit_timeout is too low
    ShortCommitTimeout,
    /// max_append_entries is too large
    LargeMaxAppendEntries,
    /// snapshot_interval is too short
    ShortSnapshotInterval,
    /// leader_lease_timeout is too short
    ShortLeaderLeaseTimeout,
    /// leader_lease_timeout cannot be larger than heartbeat timeout
    LeaderLeaseTimeoutLargerThanHeartbeatTimeout,
    /// election_timeout must be equal or greater than heartbeat timeout
    ElectionTimeoutSmallerThanHeartbeatTimeout,
    /// `ErrLeader` is returned when an operation can't be completed on a
    /// leader node.
    Leader,
    /// `ErrNotLeader` is returned when an operation can't be completed on a
    /// follower or candidate node.
    NotLeader,
    /// `ErrLeadershipLost` is returned when a leader fails to commit a log entry
    /// because it's been deposed in the process.
    LeadershipLost,
    /// `AbortedByRestore` is returned when a leader fails to commit a log
    /// entry because it's been superseded by a user snapshot restore.
    AbortedByRestore,
    /// `RaftShutdown` is returned when operations are requested against an
    /// inactive Raft.
    RaftShutdown,
    /// `EnqueueTimeout` is returned when a command fails due to a timeout.
    EnqueueTimeout,
    /// `NothingNewToSnapshot` is returned when trying to create a snapshot
    /// but there's nothing new committed to the `FSM` since we started.
    NothingNewToSnapshot,
    /// `CantBootstrap` is returned when attempt is made to bootstrap a
    /// cluster that already has state present.
    CantBootstrap,
    /// `LeadershipTransferInProgress` is returned when the leader is rejecting
    /// client requests because it is attempting to transfer leadership.
    LeadershipTransferInProgress,
    /// `DuplicateServerID` found duplicate server ID in configuration
    DuplicateServerID(u64),
    /// `DuplicateServerAddress` found duplicate server address in configuration
    DuplicateServerAddress(String),
    /// `NonVoter` need at least one voter in configuration
    NonVoter,
    /// `ConfigurationChanged` configuration changed since prev_index (latest is current_index)
    ConfigurationChanged { current_index: u64, prev_index: u64 },
    /// `FSMRestore` error
    FSMRestore(String),
}


/// `b` is a copy of `a`: the same error, except that of an undecodable key's
/// error only the kind is known.
pub open spec fn copy_of(a: Error, b: Error) -> bool {
    if a is FromUtf8Error {
        b is FromUtf8Error
    } else {
        b == a
    }
}

impl Clone for Error {
    /// A copy of the error; the copy of an undecodable key's error is the one
    /// `FromUtf8Error::clone` makes.
    fn clone(&self) -> (r: Self)
        ensures
            copy_of(*self, r),
    {
        match self {
            Error::Nil => Error::Nil,
            Error::LogNotFound => Error::LogNotFound,
            Error::PipeLineReplicationNotSupported => Error::PipeLineReplicationNotSupported,
            Error::NotFound => Error::NotFound,
            Error::EmptyLocalID => Error::EmptyLocalID,
            Error::ShortHeartbeatTimeout => Error::ShortHeartbeatTimeout,
            Error::ShortElectionTimeout => Error::ShortElectionTimeout,
            Error::ShortCommitTimeout => Error::ShortCommitTimeout,
            Error::LargeMaxAppendEntries => Error::LargeMaxAppendEntries,
            Error::ShortSnapshotInterval => Error::ShortSnapshotInterval,
            Error::ShortLeaderLeaseTimeout => Error::ShortLeaderLeaseTimeout,
            Error::LeaderLeaseTimeoutLargerThanHeartbeatTimeout => Error::LeaderLeaseTimeoutLargerThanHeartbeatTimeout,
            Error::ElectionTimeoutSmallerThanHeartbeatTimeout => Error::ElectionTimeoutSmallerThanHeartbeatTimeout,
            Error::Leader => Error::Leader,
            Error::NotLeader => Error::NotLeader,
            Error::LeadershipLost => Error::LeadershipLost,
            Error::AbortedByRestore => Error::AbortedByRestore,
            Error::RaftShutdown => Error::RaftShutdown,
            Error::EnqueueTimeout => Error::EnqueueTimeout,
            Error::NothingNewToSnapshot => Error::NothingNewToSnapshot,
            Error::CantBootstrap => Error::CantBootstrap,
            Error::LeadershipTransferInProgress => Error::LeadershipTransferInProgress,
            Error::NonVoter => Error::NonVoter,
            Error::UnableToStoreLogs(s) => Error::UnableToStoreLogs(s.clone()),
            Error::FromUtf8Error(e) => Error::FromUtf8Error(e.clone()),
            Error::DuplicateServerID(id) => Error::DuplicateServerID(*id),
            Error::DuplicateServerAddress(a) => Error::DuplicateServerAddress(a.clone()),
            Error::ConfigurationChanged { current_index, prev_index } => Error::ConfigurationChanged {
                current_index: *current_index,
                prev_index: *prev_index,
            },
            Error::FSMRestore(s) => Error::FSMRestore(s.clone()),
        }
    }
}

impl From<std::string::FromUtf8Error> for Error {
    /// The error of bytes that are not UTF-8.
    fn from(e: std::string::FromUtf8Error) -> (r: Self)
        ensures
            r == Error::FromUtf8Error(e),
    {
        Error::FromUtf8Error(e)
    }
}

impl vstd::std_specs::convert::FromSpecImpl<std::string::FromUtf8Error> for Error {
    open spec fn obeys_from_spec() -> bool {
        true
    }

    open spec fn from_spec(e: std::string::FromUtf8Error) -> Error {
        Error::FromUtf8Error(e)
    }
}

impl Error {
    /// The text that describes the error.
    pub fn message(&self) -> (r: String)
        ensures
            match *self {
            Error::Nil => r@ == "no error"@,
            Error::LogNotFound => r@ == "log not found"@,
            Error::PipeLineReplicationNotSupported => r@ == "pipeline replication not supported"@,
            Error::NotFound => r@ == "not found"@,
            Error::EmptyLocalID => r@ == "local_id cannot be empty"@,
            Error::ShortHeartbeatTimeout => r@ == "heartbeat_timeout is too low"@,
            Error::ShortElectionTimeout => r@ == "election_timeout is too low"@,
            Error::ShortCommitTimeout => r@ == "commit_timeout is too low"@,
            Error::LargeMaxAppendEntries => r@ == " max_append_entries is too large"@,
            Error::ShortSnapshotInterval => r@ == "snapshot_interval is too short"@,
            Error::ShortLeaderLeaseTimeout => r@ == "leader_lease_timeout is too short"@,
            Error::LeaderLeaseTimeoutLargerThanHeartbeatTimeout => r@ == "leader_lease_timeout cannot be larger than heartbeat timeout"@,
            Error::ElectionTimeoutSmallerThanHeartbeatTimeout => r@ == "election_timeout must be equal or greater than heartbeat timeout"@,
            Error::Leader => r@ == "node is the leader"@,
            Error::NotLeader => r@ == "node is not the leader"@,
            Error::LeadershipLost => r@ == "leadership lost while committing log"@,
            Error::AbortedByRestore => r@ == "snapshot restored while committing log"@,
            Error::RaftShutdown => r@ == "raft is already shutdown"@,
            Error::EnqueueTimeout => r@ == "timed out enqueuing operation"@,
            Error::NothingNewToSnapshot => r@ == "othing new to snapshot"@,
            Error::CantBootstrap => r@ == "bootstrap only works on new clusters"@,
            Error::LeadershipTransferInProgress => r@ == "leadership transfer in progress"@,
            Error::NonVoter => r@ == "need at least one voter in configuration"@,
            Error::UnableToStoreLogs(s) => r@ == "unable to store logs within log store, err: "@ + s@,
            Error::FromUtf8Error(e) => exists|t: String|
                to_string_from_display_ensures(&e, t) && r@ == "cannot convert UTF8 to String. From: "@
                    + t@,
            Error::DuplicateServerID(id) => exists|t: String|
                to_string_from_display_ensures(&id, t) && r@
                    == "found duplicate server ID in configuration: "@ + t@,
            Error::DuplicateServerAddress(addr) => r@
                == "found duplicate server address in configuration: "@ + addr@,
            Error::ConfigurationChanged { current_index, prev_index } => exists|p: String, c: String|
                to_string_from_display_ensures(&prev_index, p) && to_string_from_display_ensures(
                    &current_index,
                    c,
                ) && r@ == "configuration changed since "@ + p@ + " (latest is "@ + c@ + ")"@,
            Error::FSMRestore(s) => r@ == "FSM restore IO error. From: "@ + s@,
        },
    {
        match self {
            Error::Nil => String::from_str("no error"),
            Error::LogNotFound => String::from_str("log not found"),
            Error::PipeLineReplicationNotSupported => String::from_str("pipeline replication not supported"),
            Error::NotFound => String::from_str("not found"),
            Error::EmptyLocalID => String::from_str("local_id cannot be empty"),
            Error::ShortHeartbeatTimeout => String::from_str("heartbeat_timeout is too low"),
            Error::ShortElectionTimeout => String::from_str("election_timeout is too low"),
            Error::ShortCommitTimeout => String::from_str("commit_timeout is too low"),
            Error::LargeMaxAppendEntries => String::from_str(" max_append_entries is too large"),
            Error::ShortSnapshotInterval => String::from_str("snapshot_interval is too short"),
            Error::ShortLeaderLeaseTimeout => String::from_str("leader_lease_timeout is too short"),
            Error::LeaderLeaseTimeoutLargerThanHeartbeatTimeout => String::from_str("leader_lease_timeout cannot be larger than heartbeat timeout"),
            Error::ElectionTimeoutSmallerThanHeartbeatTimeout => String::from_str("election_timeout must be equal or greater than heartbeat timeout"),
            Error::Leader => String::from_str("node is the leader"),
            Error::NotLeader => String::from_str("node is not the leader"),
            Error::LeadershipLost => String::from_str("leadership lost while committing log"),
            Error::AbortedByRestore => String::from_str("snapshot restored while committing log"),
            Error::RaftShutdown => String::from_str("raft is already shutdown"),
            Error::EnqueueTimeout => String::from_str("timed out enqueuing operation"),
            Error::NothingNewToSnapshot => String::from_str("othing new to snapshot"),
            Error::CantBootstrap => String::from_str("bootstrap only works on new clusters"),
            Error::LeadershipTransferInProgress => String::from_str("leadership transfer in progress"),
            Error::NonVoter => String::from_str("need at least one voter in configuration"),
            Error::UnableToStoreLogs(s) => {
                let mut r = String::from_str("unable to store logs within log store, err: ");
                r.append(s.as_str());
                r
            },
            Error::FromUtf8Error(e) => {
                let t = e.to_string();
                let mut r = String::from_str("cannot convert UTF8 to String. From: ");
                r.append(t.as_str());
                r
            },
            Error::DuplicateServerID(id) => {
                let t = id.to_string();
                let mut r = String::from_str("found duplicate server ID in configuration: ");
                r.append(t.as_str());
                r
            },
            Error::DuplicateServerAddress(addr) => {
                let mut r = String::from_str("found duplicate server address in configuration: ");
                r.append(addr.as_str());
                r
            },
            Error::ConfigurationChanged { current_index, prev_index } => {
                let p = prev_index.to_string();
                let c = current_index.to_string();
                let mut r = String::from_str("configuration changed since ");
                r.append(p.as_str());
                r.append(" (latest is ");
                r.append(c.as_str());
                r.append(")");
                r
            },
            Error::FSMRestore(s) => {
                let mut r = String::from_str("FSM restore IO error. From: ");
                r.append(s.as_str());
                r
            },
        }
    }
}

} // verus!
