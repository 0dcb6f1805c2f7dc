use vstd::prelude::*;
use crate::config::{ProtocolVersion, SnapshotVersion};
use crate::log::Log;

verus! {

/// `RPCHeader` is a common sub-structure used to pass along protocol version and
/// other information about the cluster.
#[derive(Copy, Clone, Debug, Eq, PartialEq, Structural)]
pub struct RPCHeader {
    /// `version` is the version of the protocol the sender is
    /// speaking.
    version: ProtocolVersion,
}

impl RPCHeader {
    pub fn new(version: ProtocolVersion) -> (r: Self)
        ensures
            r.version() == version,
    {
        Self { version }
    }

    /// The version of the protocol the sender is speaking.
    pub closed spec fn version(&self) -> ProtocolVersion {
        self.version
    }

    /// Get the version of the protocol the sender is speaking.
    pub fn get_version(&self) -> (r: ProtocolVersion)
        ensures
            r == self.version(),
    {
        self.version
    }
}

/// Two headers are equal exactly when they speak the same protocol version.
pub proof fn law_header_is_its_version(a: RPCHeader, b: RPCHeader)
    ensures
        a == b <==> a.version() == b.version(),
{
}

/// `WithRPCHeader` is a trait that exposes the RPC header.
pub trait WithRPCHeader {
    fn get_rpc_header(&self) -> RPCHeader;
}

/// `AppendEntriesRequest` is the command used to append entries to the
/// replicated log.
#[derive(Clone, Debug)]
pub struct AppendEntriesRequest {
    header: RPCHeader,
    // Provide the current term and leader
    term: u64,
    leader_id: u64,
    // Provide the previous entries for integrity checking
    prev_log_entry: u64,
    prev_log_term: u64,
    // New entries to commit
    entries: Vec<Log>,
    // Commit index on the leader
    leader_commit_index: u64,
}

impl AppendEntriesRequest {
    /// The header the message carries.
    pub closed spec fn header(&self) -> RPCHeader {
        self.header
    }
}

impl WithRPCHeader for AppendEntriesRequest {
    fn get_rpc_header(&self) -> (r: RPCHeader)
        ensures
            r == self.header(),
    {
        self.header
    }
}

/// `AppendEntriesResponse` is the response returned from an
/// `AppendEntriesRequest`.
#[derive(Copy, Clone, Eq, PartialEq, Debug)]
pub struct AppendEntriesResponse {
    header: RPCHeader,
    /// Newer term if leader is out of date
    term: u64,
    /// `last_log` is a hint to help accelerate rebuilding slow nodes
    last_log: u64,
    /// `success`: We may not succeed if we have a conflicting entry
    success: bool,
    /// There are scenarios where this request didn't succeed
    /// but there's no need to wait/back-off the next attempt.
    no_retry_backoff: bool,
}

impl AppendEntriesResponse {
    /// The header the message carries.
    pub closed spec fn header(&self) -> RPCHeader {
        self.header
    }
}

impl WithRPCHeader for AppendEntriesResponse {
    fn get_rpc_header(&self) -> (r: RPCHeader)
        ensures
            r == self.header(),
    {
        self.header
    }
}

/// `RequestVoteRequest` is the command used by a candidate to ask a Raft peer
/// for a vote in an election.
#[derive(Copy, Clone, Debug, Eq, PartialEq)]
pub struct RequestVoteRequest {
    header: RPCHeader,
    // Provide the term and our id
    term: u64,
    candidate_id: u64,
    // Used to ensure safety
    last_log_index: u64,
    last_log_term: u64,
    /// Used to indicate to peers if this vote was triggered by a leadership
    /// transfer. It is required for leadership transfer to work, because servers
    /// wouldn't vote otherwise if they are aware of an existing leader.
    leader_ship_transfer: bool,
}

impl RequestVoteRequest {
    /// The header the message carries.
    pub closed spec fn header(&self) -> RPCHeader {
        self.header
    }
}

impl WithRPCHeader for RequestVoteRequest {
    fn get_rpc_header(&self) -> (r: RPCHeader)
        ensures
            r == self.header(),
    {
        self.header
    }
}

/// `RequestVoteResponse` is the response returned from a `RequestVoteRequest`.
#[derive(Copy, Clone, Debug)]
pub struct RequestVoteResponse {
    header: RPCHeader,
    // Newer term if leader is out of date.
    term: u64,
    // Is the vote granted
    granted: bool,
}

impl RequestVoteResponse {
    /// The header the message carries.
    pub closed spec fn header(&self) -> RPCHeader {
        self.header
    }
}

impl WithRPCHeader for RequestVoteResponse {
    fn get_rpc_header(&self) -> (r: RPCHeader)
        ensures
            r == self.header(),
    {
        self.header
    }
}

/// `InstallSnapshotRequest` is the command sent to a Raft peer to bootstrap its
/// log (and state machine) from a snapshot on another peer.
#[derive(Clone, Debug, PartialEq)]
pub struct InstallSnapshotRequest {
    header: RPCHeader,
    version: SnapshotVersion,
    term: u64,
    leader: u64,
    last_log_index: u64,
    last_log_term: u64,
    /// cluster membership
    configuration: Vec<u8>,
    /// `Log` index where 'Configuration' entry was originally written.
    configuration_index: u64,
    /// Size of the snapshot
    size: u64,
}

impl InstallSnapshotRequest {
    /// The header the message carries.
    pub closed spec fn header(&self) -> RPCHeader {
        self.header
    }
}

impl WithRPCHeader for InstallSnapshotRequest {
    fn get_rpc_header(&self) -> (r: RPCHeader)
        ensures
            r == self.header(),
    {
        self.header
    }
}

/// `InstallSnapshotResponse` is the response returned from an
/// `InstallSnapshotRequest`.
#[derive(Copy, Clone, Debug, Eq, PartialEq)]
pub struct InstallSnapshotResponse {
    header: RPCHeader,
    term: u64,
    success: bool,
}

impl InstallSnapshotResponse {
    /// The header the message carries.
    pub closed spec fn header(&self) -> RPCHeader {
        self.header
    }
}

impl WithRPCHeader for InstallSnapshotResponse {
    fn get_rpc_header(&self) -> (r: RPCHeader)
        ensures
            r == self.header(),
    {
        self.header
    }
}

/// `TimeoutNowRequest` is the command used by a leader to signal another server to
/// start an election.
#[derive(Copy, Clone, Eq, PartialEq, Debug)]
pub struct TimeoutNowRequest {
    header: RPCHeader,
}

impl TimeoutNowRequest {
    /// The header the message carries.
    pub closed spec fn header(&self) -> RPCHeader {
        self.header
    }
}

impl WithRPCHeader for TimeoutNowRequest {
    fn get_rpc_header(&self) -> (r: RPCHeader)
        ensures
            r == self.header(),
    {
        self.header
    }
}

/// `TimeoutNowResponse` is the response to `TimeoutNowRequest`.
#[derive(Copy, Clone, Eq, PartialEq, Debug)]
pub struct TimeoutNowResponse {
    header: RPCHeader,
}

impl TimeoutNowResponse {
    /// The header the message carries.
    pub closed spec fn header(&self) -> RPCHeader {
        self.header
    }
}

impl WithRPCHeader for TimeoutNowResponse {
    fn get_rpc_header(&self) -> (r: RPCHeader)
        ensures
            r == self.header(),
    {
        self.header
    }
}

} // verus!
