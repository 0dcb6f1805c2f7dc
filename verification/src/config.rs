use vstd::prelude::*;
use vstd::std_specs::cmp::PartialEqSpec;
use crate::names::same_text;
use std::collections::HashMap;
use crate::errors::Error;
use crate::ext_types::{duration_of_millis, nanos_of};
use std::sync::Arc;
use std::time::Duration;
use tokio::sync::mpsc::UnboundedReceiver;

verus! {

/// `ServerID` is a unique number identifying a server for all time.
pub type ServerID = u64;

/// `ServerAddress` is a network address for a server that a transport can contact.
pub type ServerAddress = String;

/// `ServerSuffrage` determines whether a `Server` in a `Configuration` gets a vote.
#[derive(Debug, Copy, Clone, PartialEq, Eq, Structural)]
pub enum ServerSuffrage {
    /// `Voter` is a server whose vote is counted in elections and whose match index
    /// is used in advancing the leader's commit index.
    Voter,
    /// `Nonvoter` is a server that receives log entries but is not considered for
    /// elections or commitment purposes.
    Nonvoter,
    /// `Staging` is a server that acts like a nonvoter with one exception: once a
    /// staging server receives enough log entries to be sufficiently caught up to
    /// the leader's log, the leader will invoke a membership change to change
    /// the `Staging` server to a `Voter`.
    Staging,
}

/// `Server` tracks the information about a single server in a configuration.
#[derive(Debug, Clone, PartialEq, Eq)]
pub struct Server {
    /// `suffrage` determines whether the server gets a vote.
    pub suffrage: ServerSuffrage,
    /// `id` is a unique number identifying this server for all time.
    pub id: ServerID,
    /// `address` is its network address that a transport can contact.
    pub address: ServerAddress,
}

/// The mathematical value of a `Server`.
pub struct ServerView {
    pub suffrage: ServerSuffrage,
    pub id: ServerID,
    pub address: Seq<char>,
}

impl View for Server {
    type V = ServerView;

    open spec fn view(&self) -> ServerView {
        ServerView { suffrage: self.suffrage, id: self.id, address: self.address@ }
    }
}

/// `Configuration` tracks which servers are in the cluster, and whether they have
/// votes. This should include the local server, if it's a member of the cluster.
/// The servers are listed no particular order, but each should only appear once.
/// These entries are appended to the log during membership changes.
#[derive(Debug, Clone, PartialEq, Eq)]
pub struct Configuration {
    pub servers: Vec<Server>,
}

impl View for Configuration {
    type V = Seq<ServerView>;

    open spec fn view(&self) -> Seq<ServerView> {
        self.servers@.map_values(|s: Server| s@)
    }
}

/// `i` is the first position in `servers` that holds the server `id`.
pub open spec fn is_first_with_id(servers: Seq<ServerView>, id: ServerID, i: int) -> bool {
    &&& 0 <= i < servers.len()
    &&& servers[i].id == id
    &&& forall|j: int| 0 <= j < i ==> servers[j].id != id
}

/// The server `id` is a `Voter` in `servers`; when the id is listed more than
/// once, its first entry decides.
pub open spec fn spec_has_vote(servers: Seq<ServerView>, id: ServerID) -> bool {
    exists|i: int| is_first_with_id(servers, id, i) && servers[i].suffrage == ServerSuffrage::Voter
}

impl Configuration {
    /// An empty configuration.
    pub fn new() -> (r: Self)
        ensures
            r@ == Seq::<ServerView>::empty(),
    {
        Self { servers: Vec::new() }
    }

    /// A configuration that holds exactly `servers`.
    pub fn with_servers(servers: Vec<Server>) -> (r: Self)
        ensures
            r.servers == servers,
    {
        Self { servers }
    }
}

/// `has_vote` returns true if the server identified by `id` is a Voter in the
/// provided `Configuration`.
pub fn has_vote(configuration: Configuration, id: ServerID) -> (r: bool)
    ensures
        r == spec_has_vote(configuration@, id),
{
    let ghost s = configuration@;
    let n = configuration.servers.len();
    let mut i: usize = 0;
    while i < n
        invariant
            n == configuration.servers.len(),
            s == configuration@,
            0 <= i <= n,
            forall|j: int| 0 <= j < i ==> s[j].id != id,
        decreases n - i,
    {
        let srv = &configuration.servers[i];
        if srv.id == id {
            assert(is_first_with_id(s, id, i as int));
            return srv.suffrage == ServerSuffrage::Voter;
        }
        i = i + 1;
    }
    false
}


/// The id of server `i` was listed earlier in `servers`.
pub open spec fn id_seen_before(servers: Seq<ServerView>, i: int) -> bool {
    exists|j: int| 0 <= j < i && servers[j].id == servers[i].id
}

/// The address of server `i` was listed earlier in `servers`.
pub open spec fn address_seen_before(servers: Seq<ServerView>, i: int) -> bool {
    exists|j: int| 0 <= j < i && servers[j].address == servers[i].address
}

/// Server `i` repeats the id or the address of an earlier server.
pub open spec fn clashes(servers: Seq<ServerView>, i: int) -> bool {
    id_seen_before(servers, i) || address_seen_before(servers, i)
}

/// Server `i` is the first server that repeats an earlier id or address.
pub open spec fn is_first_clash(servers: Seq<ServerView>, i: int) -> bool {
    &&& 0 <= i < servers.len()
    &&& clashes(servers, i)
    &&& forall|j: int| 0 <= j < i ==> !clashes(servers, j)
}

/// No two servers share an id or an address.
pub open spec fn distinct_servers(servers: Seq<ServerView>) -> bool {
    forall|i: int| 0 <= i < servers.len() ==> !clashes(servers, i)
}

/// At least one server is a `Voter`.
pub open spec fn has_voter(servers: Seq<ServerView>) -> bool {
    exists|i: int| 0 <= i < servers.len() && servers[i].suffrage == ServerSuffrage::Voter
}

/// A configuration is sound: ids and addresses are unique and some server votes.
pub open spec fn valid_configuration(servers: Seq<ServerView>) -> bool {
    distinct_servers(servers) && has_voter(servers)
}

/// What `check_configuration` answers for `servers`.
pub open spec fn check_outcome(servers: Seq<ServerView>, r: Result<Configuration, Error>) -> bool {
    match r {
        Ok(c) => valid_configuration(servers) && c@ == servers,
        Err(Error::DuplicateServerID(id)) => exists|i: int|
            is_first_clash(servers, i) && id_seen_before(servers, i) && id == servers[i].id,
        Err(Error::DuplicateServerAddress(addr)) => exists|i: int|
            is_first_clash(servers, i) && !id_seen_before(servers, i) && addr@
                == servers[i].address,
        Err(Error::NonVoter) => distinct_servers(servers) && !has_voter(servers),
        Err(_) => false,
    }
}

/// `check_configuration` tests a cluster membership configuration for common
/// errors: the first server that repeats an id or an address is reported (the id
/// first), and a configuration without a voter is refused.
pub fn check_configuration(configuration: Configuration) -> (r: Result<Configuration, Error>)
    ensures
        check_outcome(configuration@, r),
        r is Ok ==> r == Ok::<Configuration, Error>(configuration),
        r is Ok <==> valid_configuration(configuration@),
{
    broadcast use vstd::std_specs::hash::group_hash_axioms;

    let ghost s = configuration@;
    let mut id_set = HashMap::<ServerID, bool>::new();
    let mut voters: usize = 0;
    let n = configuration.servers.len();
    let mut i: usize = 0;
    while i < n
        invariant
            n == configuration.servers.len(),
            s == configuration@,
            0 <= i <= n,
            voters <= i,
            voters > 0 <==> exists|j: int| 0 <= j < i && s[j].suffrage == ServerSuffrage::Voter,
            forall|k: ServerID| id_set@.contains_key(k) <==> exists|j: int| 0 <= j < i && s[j].id == k,
            forall|j: int| 0 <= j < i ==> !clashes(s, j),
        decreases n - i,
    {
        let srv = &configuration.servers[i];
        assert(s[i as int] == srv@);
        if let Some(_) = id_set.get(&srv.id) {
            assert(is_first_clash(s, i as int));
            return Err(Error::DuplicateServerID(srv.id));
        }
        assert(!id_seen_before(s, i as int));
        id_set.insert(srv.id, true);
        let mut j: usize = 0;
        while j < i
            invariant
                n == configuration.servers.len(),
                s == configuration@,
                0 <= j <= i < n,
                srv == &configuration.servers[i as int],
                !id_seen_before(s, i as int),
                forall|k: int| 0 <= k < i ==> !clashes(s, k),
                forall|k: int| 0 <= k < j ==> s[k].address != s[i as int].address,
            decreases i - j,
        {
            assert(s[j as int] == configuration.servers[j as int]@);
            if configuration.servers[j].address == srv.address {
                assert(address_seen_before(s, i as int));
                assert(!id_seen_before(s, i as int));
                assert(is_first_clash(s, i as int));
                return Err(Error::DuplicateServerAddress(srv.address.clone()));
            }
            j = j + 1;
        }
        assert(!clashes(s, i as int));
        if srv.suffrage == ServerSuffrage::Voter {
            voters = voters + 1;
        }
        i = i + 1;
    }
    if voters == 0 {
        return Err(Error::NonVoter);
    }
    Ok(configuration)
}


/// `ConfigurationChangeCommand` names the membership changes a leader can make.
#[derive(Debug, Copy, Clone, PartialEq, Eq, Structural)]
pub enum ConfigurationChangeCommand {
    /// `AddStaging` makes a server Staging unless its Voter.
    AddStaging,
    /// `AddNonvoter` makes a server Nonvoter unless its Staging or Voter.
    AddNonvoter,
    /// `DemoteVoter` makes a server Nonvoter unless its absent.
    DemoteVoter,
    /// `RemoveServer` removes a server entirely from the cluster membership.
    RemoveServer,
    /// `Promote` is created automatically by a leader; it turns a Staging server
    /// into a Voter.
    Promote,
}

/// `ConfigurationChangeRequest` describes a change that a leader would like to
/// make to its current configuration. It's used only within a single server
/// (never serialized into the log).
#[derive(Debug, Clone, PartialEq, Eq)]
pub struct ConfigurationChangeRequest {
    pub command: ConfigurationChangeCommand,
    pub server_id: ServerID,
    /// only meaningful for `AddStaging` and `AddNonvoter`
    pub server_address: ServerAddress,
    /// `prev_index`, if nonzero, is the index of the only configuration upon which
    /// this change may be applied; if another configuration entry has been
    /// added in the meantime, this request will fail.
    pub prev_index: u64,
}

/// `Configurations` is state tracked on every server about its configurations.
/// There can be at most one uncommitted configuration at a time (the next
/// configuration may not be created until the prior one has been committed).
pub struct Configurations {
    /// `committed` is the latest configuration in the log/snapshot that has been
    /// committed (the one with the largest index).
    pub committed: Configuration,
    /// `committed_index` is the log index where `committed` was written.
    pub committed_index: u64,
    /// `latest` is the latest configuration in the log/snapshot (may be committed
    /// or uncommitted)
    pub latest: Configuration,
    /// `latest_index` is the log index where `latest` was written.
    pub latest_index: u64,
}

/// Position of the first server with `id`, or -1 when there is none.
pub open spec fn first_with_id(servers: Seq<ServerView>, id: ServerID) -> int {
    if exists|i: int| is_first_with_id(servers, id, i) {
        choose|i: int| is_first_with_id(servers, id, i)
    } else {
        -1
    }
}

/// `i` is the first position of a `Staging` server with `id`.
pub open spec fn is_first_staging_with_id(servers: Seq<ServerView>, id: ServerID, i: int) -> bool {
    &&& 0 <= i < servers.len()
    &&& servers[i].id == id && servers[i].suffrage == ServerSuffrage::Staging
    &&& forall|j: int|
        0 <= j < i ==> !(servers[j].id == id && servers[j].suffrage == ServerSuffrage::Staging)
}

/// Position of the first `Staging` server with `id`, or -1 when there is none.
pub open spec fn first_staging_with_id(servers: Seq<ServerView>, id: ServerID) -> int {
    if exists|i: int| is_first_staging_with_id(servers, id, i) {
        choose|i: int| is_first_staging_with_id(servers, id, i)
    } else {
        -1
    }
}

/// The server at `i` with its address replaced.
pub open spec fn with_address(servers: Seq<ServerView>, i: int, addr: Seq<char>) -> Seq<ServerView> {
    servers.update(i, ServerView { address: addr, ..servers[i] })
}

/// The server at `i` with its suffrage replaced.
pub open spec fn with_suffrage(
    servers: Seq<ServerView>,
    i: int,
    suffrage: ServerSuffrage,
) -> Seq<ServerView> {
    servers.update(i, ServerView { suffrage, ..servers[i] })
}

/// The server list that a membership change produces, before it is checked.
pub open spec fn apply_change(
    servers: Seq<ServerView>,
    command: ConfigurationChangeCommand,
    id: ServerID,
    addr: Seq<char>,
) -> Seq<ServerView> {
    let fi = first_with_id(servers, id);
    match command {
        ConfigurationChangeCommand::AddStaging => {
            let new_server = ServerView { suffrage: ServerSuffrage::Voter, id, address: addr };
            if fi < 0 {
                servers.push(new_server)
            } else if servers[fi].suffrage == ServerSuffrage::Voter {
                with_address(servers, fi, addr)
            } else {
                servers.update(fi, new_server)
            }
        },
        ConfigurationChangeCommand::AddNonvoter => {
            let new_server = ServerView { suffrage: ServerSuffrage::Nonvoter, id, address: addr };
            if fi < 0 {
                servers.push(new_server)
            } else if servers[fi].suffrage != ServerSuffrage::Nonvoter {
                with_address(servers, fi, addr)
            } else {
                servers.update(fi, new_server)
            }
        },
        ConfigurationChangeCommand::DemoteVoter => {
            if fi < 0 {
                servers
            } else {
                with_suffrage(servers, fi, ServerSuffrage::Nonvoter)
            }
        },
        ConfigurationChangeCommand::RemoveServer => {
            if fi < 0 {
                servers
            } else {
                servers.remove(fi)
            }
        },
        ConfigurationChangeCommand::Promote => {
            let pi = first_staging_with_id(servers, id);
            if pi < 0 {
                servers
            } else {
                with_suffrage(servers, pi, ServerSuffrage::Voter)
            }
        },
    }
}

/// A change request that names a configuration other than the current one.
pub open spec fn is_stale_change(change: ConfigurationChangeRequest, current_index: u64) -> bool {
    change.prev_index > 0 && change.prev_index != current_index
}

proof fn lemma_first_with_id(servers: Seq<ServerView>, id: ServerID, i: int)
    requires
        is_first_with_id(servers, id, i),
    ensures
        first_with_id(servers, id) == i,
{
    let c = choose|k: int| is_first_with_id(servers, id, k);
    assert(is_first_with_id(servers, id, c));
    if c < i {
        assert(servers[c].id == id);
    } else if i < c {
        assert(servers[i].id == id);
    }
}

proof fn lemma_first_staging_with_id(servers: Seq<ServerView>, id: ServerID, i: int)
    requires
        is_first_staging_with_id(servers, id, i),
    ensures
        first_staging_with_id(servers, id) == i,
{
    let c = choose|k: int| is_first_staging_with_id(servers, id, k);
    assert(is_first_staging_with_id(servers, id, c));
    if c < i {
        assert(servers[c].id == id);
    } else if i < c {
        assert(servers[i].id == id);
    }
}

/// Position of the first server with `id`.
fn find_server(servers: &Vec<Server>, id: ServerID) -> (r: Option<usize>)
    ensures
        match r {
            Some(i) => is_first_with_id(servers@.map_values(|s: Server| s@), id, i as int),
            None => first_with_id(servers@.map_values(|s: Server| s@), id) == -1,
        },
        r is Some ==> first_with_id(servers@.map_values(|s: Server| s@), id) == r->0,
{
    let ghost s = servers@.map_values(|s: Server| s@);
    let n = servers.len();
    let mut i: usize = 0;
    while i < n
        invariant
            n == servers.len(),
            s == servers@.map_values(|s: Server| s@),
            0 <= i <= n,
            forall|j: int| 0 <= j < i ==> s[j].id != id,
        decreases n - i,
    {
        assert(s[i as int] == servers[i as int]@);
        if servers[i].id == id {
            proof {
                lemma_first_with_id(s, id, i as int);
            }
            return Some(i);
        }
        i = i + 1;
    }
    assert(!exists|k: int| is_first_with_id(s, id, k));
    None
}

/// Position of the first `Staging` server with `id`.
fn find_staging_server(servers: &Vec<Server>, id: ServerID) -> (r: Option<usize>)
    ensures
        match r {
            Some(i) => first_staging_with_id(servers@.map_values(|s: Server| s@), id) == i,
            None => first_staging_with_id(servers@.map_values(|s: Server| s@), id) == -1,
        },
{
    let ghost s = servers@.map_values(|s: Server| s@);
    let n = servers.len();
    let mut i: usize = 0;
    while i < n
        invariant
            n == servers.len(),
            s == servers@.map_values(|s: Server| s@),
            0 <= i <= n,
            forall|j: int|
                0 <= j < i ==> !(s[j].id == id && s[j].suffrage == ServerSuffrage::Staging),
        decreases n - i,
    {
        assert(s[i as int] == servers[i as int]@);
        if servers[i].id == id && servers[i].suffrage == ServerSuffrage::Staging {
            proof {
                lemma_first_staging_with_id(s, id, i as int);
            }
            return Some(i);
        }
        i = i + 1;
    }
    assert(!exists|k: int| is_first_staging_with_id(s, id, k));
    None
}

/// `next_configuration` generates a new `Configuration` from the current one and a
/// configuration change request, then checks it.
pub fn next_configuration(
    current: Configuration,
    current_index: u64,
    change: ConfigurationChangeRequest,
) -> (r: Result<Configuration, Error>)
    ensures
        is_stale_change(change, current_index) ==> r == Err::<Configuration, Error>(
            Error::ConfigurationChanged { current_index, prev_index: change.prev_index },
        ),
        change.prev_index > 0 && change.prev_index != current_index ==> r == Err::<
            Configuration,
            Error,
        >(Error::ConfigurationChanged { current_index, prev_index: change.prev_index }),
        (change.prev_index == 0 || change.prev_index == current_index) ==> check_outcome(
            apply_change(current@, change.command, change.server_id, change.server_address@),
            r,
        ),
        !is_stale_change(change, current_index) ==> check_outcome(
            apply_change(current@, change.command, change.server_id, change.server_address@),
            r,
        ),
{
    if change.prev_index > 0 && change.prev_index != current_index {
        return Err(Error::ConfigurationChanged { current_index, prev_index: change.prev_index });
    }
    let ghost old_s = current@;
    let ghost target = apply_change(
        current@,
        change.command,
        change.server_id,
        change.server_address@,
    );
    let mut configuration = current;
    let id = change.server_id;
    match change.command {
        ConfigurationChangeCommand::AddStaging => {
            match find_server(&configuration.servers, id) {
                Some(idx) => {
                    if configuration.servers[idx].suffrage == ServerSuffrage::Voter {
                        // a voter keeps its vote and takes the new address
                        let suffrage = configuration.servers[idx].suffrage;
                        configuration.servers.set(
                            idx,
                            Server { suffrage, id, address: change.server_address },
                        );
                    } else {
                        configuration.servers.set(
                            idx,
                            Server { suffrage: ServerSuffrage::Voter, id, address: change.server_address },
                        );
                    }
                },
                None => {
                    configuration.servers.push(
                        Server { suffrage: ServerSuffrage::Voter, id, address: change.server_address },
                    );
                },
            }
        },
        ConfigurationChangeCommand::AddNonvoter => {
            match find_server(&configuration.servers, id) {
                Some(idx) => {
                    let suffrage = if configuration.servers[idx].suffrage
                        != ServerSuffrage::Nonvoter {
                        configuration.servers[idx].suffrage
                    } else {
                        ServerSuffrage::Nonvoter
                    };
                    configuration.servers.set(
                        idx,
                        Server { suffrage, id, address: change.server_address },
                    );
                },
                None => {
                    configuration.servers.push(
                        Server { suffrage: ServerSuffrage::Nonvoter, id, address: change.server_address },
                    );
                },
            }
        },
        ConfigurationChangeCommand::DemoteVoter => {
            if let Some(idx) = find_server(&configuration.servers, id) {
                let address = configuration.servers[idx].address.clone();
                configuration.servers.set(
                    idx,
                    Server { suffrage: ServerSuffrage::Nonvoter, id, address },
                );
            }
        },
        ConfigurationChangeCommand::RemoveServer => {
            if let Some(idx) = find_server(&configuration.servers, id) {
                configuration.servers.remove(idx);
            }
        },
        ConfigurationChangeCommand::Promote => {
            if let Some(idx) = find_staging_server(&configuration.servers, id) {
                let address = configuration.servers[idx].address.clone();
                configuration.servers.set(
                    idx,
                    Server { suffrage: ServerSuffrage::Voter, id, address },
                );
            }
        },
    }
    assert(configuration@ =~= target);
    check_configuration(configuration)
}


/// Default `heartbeat_timeout`, in milliseconds.
pub const DEFAULT_HEARTBEAT_TIMEOUT_MS: u64 = 1000;
/// Default `election_timeout`, in milliseconds.
pub const DEFAULT_ELECTION_TIMEOUT_MS: u64 = 1000;
/// Default `commit_timeout`, in milliseconds.
pub const DEFAULT_COMMIT_TIMEOUT_MS: u64 = 50;
/// Default `max_append_entries`.
pub const DEFAULT_MAX_APPEND_ENTRIES: u64 = 64;
/// Default `batch_apply_ch`.
pub const DEFAULT_BATCH_APPLY_CH: bool = false;
/// Default `shut_down_on_remove`.
pub const DEFAULT_SHUTDOWN_ON_REMOVE: bool = true;
/// Default `trailing_logs`.
pub const DEFAULT_TRAILING_LOGS: u64 = 10240;
/// Default `snapshot_interval`, in milliseconds (two minutes).
pub const DEFAULT_SNAPSHOT_INTERVAL_MS: u64 = 120_000;
/// Default `snapshot_threshold`.
pub const DEFAULT_SNAPSHOT_THRESHOLD: u64 = 8192;
/// Default `leader_lease_timeout`, in milliseconds.
pub const DEFAULT_LEADER_LEASE_TIMEOUT_MS: u64 = 500;
/// Default `no_snapshot_restore_on_start`.
pub const DEFAULT_NO_SNAPSHOT_RESTORE_ON_START: bool = false;
/// Default `skip_startup`.
pub const DEFAULT_STARTUP: bool = false;

/// `ProtocolVersion` is the version of the protocol (which includes RPC messages
/// as well as Raft-specific log entries) that this server can _understand_.
///
/// 0: Protocol adding full support for server IDs and new ID-based server APIs
/// (AddVoter, AddNonvoter, etc.)
///
/// 1: the same as 0 for now; it prepares for future change.
#[derive(Copy, Clone, Eq, PartialEq, Debug, Structural)]
pub enum ProtocolVersion {
    /// `ProtocolVersionMin` is the minimum protocol version
    ProtocolVersionMin,
    /// `ProtocolVersionMax` is the maximum protocol version
    ProtocolVersionMax,
}

/// `SnapshotVersion` is the version of snapshots that this server can understand.
///
/// 0: format with a full configuration structure, its associated log index,
/// server IDs and non-voting server modes.
///
/// 1: the same as 0 for now; it prepares for future change.
#[derive(Copy, Clone, Eq, PartialEq, Debug, Structural)]
pub enum SnapshotVersion {
    /// `SnapshotVersionMin` is the minimum snapshot version
    SnapshotVersionMin,
    /// `SnapshotVersionMax` is the maximum snapshot version
    SnapshotVersionMax,
}

/// `Config` provides any necessary configuration for the `Raft` server.
#[derive(Debug)]
pub struct Config {
    /// `protocol_version` allows a Raft server to inter-operate with older
    /// Raft servers running an older version of the code.
    pub protocol_version: ProtocolVersion,
    /// `heartbeat_timeout` specifies the time in follower state without a leader before we attempt an election
    pub heartbeat_timeout: Duration,
    /// `election_timeout` specifies the time in candidate state without a leader before we attempt an election.
    pub election_timeout: Duration,
    /// `commit_timeout` controls the time without an Apply operation
    /// before we heartbeat to ensure a timely commit.
    pub commit_timeout: Duration,
    /// `max_append_entries` controls the maximum number of append entries
    /// to send at once.
    pub max_append_entries: u64,
    /// `batch_apply_ch` indicates whether we should buffer `apply_ch`
    /// to size `max_append_entries`.
    pub batch_apply_ch: bool,
    /// If we are a member of a cluster, and `remove_peer` is invoked for the
    /// local node, then we forget all peers and transition into the follower state.
    /// If `shut_down_on_remove` is set, we additional shutdown Raft.
    pub shut_down_on_remove: bool,
    /// `trailing_logs` controls how many logs we leave after a snapshot.
    pub trailing_logs: u64,
    /// `snapshot_interval` controls how often we check if we should perform a
    /// snapshot.
    pub snapshot_interval: Duration,
    /// `snapshot_threshold` controls how many outstanding logs there must be before
    /// we perform a snapshot.
    pub snapshot_threshold: u64,
    /// `leader_lease_timeout` is used to control how long the "lease" lasts
    /// for being the leader without being able to contract a quorum
    /// of nodes.
    pub leader_lease_timeout: Duration,
    /// `local_id` is a unique ID for this server across all time.
    pub local_id: ServerID,
    /// `notify_ch` is used to provide a channel that will be notified of leadership
    /// changes.
    pub notify_ch: Arc<UnboundedReceiver<bool>>,
    /// `no_snapshot_restore_on_start` controls if raft will restore a snapshot to the
    /// `FSM` on start.
    pub no_snapshot_restore_on_start: bool,
    /// `skip_startup` allows `new_raft` to bypass all background work threads.
    pub skip_startup: bool,
}

/// `Arc::clone` of the leadership channel: another pointer to the same receiver.
#[verifier::external_body]
fn share_notify_ch(ch: &Arc<UnboundedReceiver<bool>>) -> (r: Arc<UnboundedReceiver<bool>>)
    ensures
        r == *ch,
{
    ch.clone()
}

impl Clone for Config {
    /// The same settings, sharing the same leadership channel.
    fn clone(&self) -> (r: Self)
        ensures
            r == *self,
    {
        Config {
            protocol_version: self.protocol_version,
            heartbeat_timeout: self.heartbeat_timeout.clone(),
            election_timeout: self.election_timeout.clone(),
            commit_timeout: self.commit_timeout.clone(),
            max_append_entries: self.max_append_entries,
            batch_apply_ch: self.batch_apply_ch,
            shut_down_on_remove: self.shut_down_on_remove,
            trailing_logs: self.trailing_logs,
            snapshot_interval: self.snapshot_interval.clone(),
            snapshot_threshold: self.snapshot_threshold,
            leader_lease_timeout: self.leader_lease_timeout.clone(),
            local_id: self.local_id,
            notify_ch: share_notify_ch(&self.notify_ch),
            no_snapshot_restore_on_start: self.no_snapshot_restore_on_start,
            skip_startup: self.skip_startup,
        }
    }
}

/// The first rule that the settings break, in the order they are checked;
/// durations are given in nanoseconds.
pub open spec fn settings_error(
    local_id: ServerID,
    heartbeat_timeout: int,
    election_timeout: int,
    commit_timeout: int,
    max_append_entries: u64,
    snapshot_interval: int,
    leader_lease_timeout: int,
) -> Option<Error> {
    if local_id == 0 {
        Some(Error::EmptyLocalID)
    } else if heartbeat_timeout < 5_000_000 {
        Some(Error::ShortHeartbeatTimeout)
    } else if election_timeout < 5_000_000 {
        Some(Error::ShortElectionTimeout)
    } else if commit_timeout < 1_000_000 {
        Some(Error::ShortCommitTimeout)
    } else if max_append_entries > 1024 {
        Some(Error::LargeMaxAppendEntries)
    } else if snapshot_interval < 5_000_000 {
        Some(Error::ShortSnapshotInterval)
    } else if leader_lease_timeout < 5_000_000 {
        Some(Error::ShortLeaderLeaseTimeout)
    } else if leader_lease_timeout > heartbeat_timeout {
        Some(Error::LeaderLeaseTimeoutLargerThanHeartbeatTimeout)
    } else if election_timeout < heartbeat_timeout {
        Some(Error::ElectionTimeoutSmallerThanHeartbeatTimeout)
    } else {
        None
    }
}

/// The first rule that `c` breaks, if any.
pub open spec fn config_error(c: Config) -> Option<Error> {
    settings_error(
        c.local_id,
        nanos_of(c.heartbeat_timeout),
        nanos_of(c.election_timeout),
        nanos_of(c.commit_timeout),
        c.max_append_entries,
        nanos_of(c.snapshot_interval),
        nanos_of(c.leader_lease_timeout),
    )
}

/// `a` is shorter than `b`.
fn shorter(a: &Duration, b: &Duration) -> (r: bool)
    ensures
        r == (nanos_of(*a) < nanos_of(*b)),
{
    a.as_nanos() < b.as_nanos()
}

impl Config {
    /// `validate_config` is used to validate a sane configuration: the first rule
    /// the settings break is reported.
    fn validate_config(self) -> (r: Result<Self, Error>)
        ensures
            match config_error(self) {
                Some(e) => r == Err::<Self, Error>(e),
                None => r == Ok::<Self, Error>(self),
            },
            r is Ok ==> self.local_id != 0 && nanos_of(self.heartbeat_timeout) >= 5_000_000
                && nanos_of(self.election_timeout) >= 5_000_000 && nanos_of(self.commit_timeout)
                >= 1_000_000 && self.max_append_entries <= 1024 && nanos_of(self.snapshot_interval)
                >= 5_000_000 && nanos_of(self.leader_lease_timeout) >= 5_000_000 && nanos_of(
                self.leader_lease_timeout,
            ) <= nanos_of(self.heartbeat_timeout) && nanos_of(self.heartbeat_timeout) <= nanos_of(
                self.election_timeout,
            ),
    {
        if self.local_id == 0 {
            return Err(Error::EmptyLocalID);
        }
        if shorter(&self.heartbeat_timeout, &Duration::from_millis(5)) {
            return Err(Error::ShortHeartbeatTimeout);
        }
        if shorter(&self.election_timeout, &Duration::from_millis(5)) {
            return Err(Error::ShortElectionTimeout);
        }
        if shorter(&self.commit_timeout, &Duration::from_millis(1)) {
            return Err(Error::ShortCommitTimeout);
        }
        if self.max_append_entries > 1024 {
            return Err(Error::LargeMaxAppendEntries);
        }
        if shorter(&self.snapshot_interval, &Duration::from_millis(5)) {
            return Err(Error::ShortSnapshotInterval);
        }
        if shorter(&self.leader_lease_timeout, &Duration::from_millis(5)) {
            return Err(Error::ShortLeaderLeaseTimeout);
        }
        if shorter(&self.heartbeat_timeout, &self.leader_lease_timeout) {
            return Err(Error::LeaderLeaseTimeoutLargerThanHeartbeatTimeout);
        }
        if shorter(&self.election_timeout, &self.heartbeat_timeout) {
            return Err(Error::ElectionTimeoutSmallerThanHeartbeatTimeout);
        }
        Ok(self)
    }
}

/// `ConfigBuilder` collects the settings of a `Config`; `finalize` checks them.
#[derive(Copy, Clone, Eq, PartialEq, Debug)]
pub struct ConfigBuilder {
    pub protocol_version: Option<ProtocolVersion>,
    pub heartbeat_timeout: Option<Duration>,
    pub election_timeout: Option<Duration>,
    pub commit_timeout: Option<Duration>,
    pub max_append_entries: Option<u64>,
    pub batch_apply_ch: Option<bool>,
    pub shut_down_on_remove: Option<bool>,
    pub trailing_logs: Option<u64>,
    pub snapshot_interval: Option<Duration>,
    pub snapshot_threshold: Option<u64>,
    pub leader_lease_timeout: Option<Duration>,
    pub local_id: Option<ServerID>,
    pub no_snapshot_restore_on_start: Option<bool>,
    pub skip_startup: Option<bool>,
}

/// `d` is some duration of `millis` milliseconds.
pub open spec fn is_millis(d: Option<Duration>, millis: int) -> bool {
    d matches Some(x) && nanos_of(x) == millis * 1_000_000
}

/// Every setting of the builder has a value.
pub open spec fn builder_complete(b: ConfigBuilder) -> bool {
    &&& b.protocol_version is Some
    &&& b.heartbeat_timeout is Some
    &&& b.election_timeout is Some
    &&& b.commit_timeout is Some
    &&& b.max_append_entries is Some
    &&& b.batch_apply_ch is Some
    &&& b.shut_down_on_remove is Some
    &&& b.trailing_logs is Some
    &&& b.snapshot_interval is Some
    &&& b.snapshot_threshold is Some
    &&& b.leader_lease_timeout is Some
    &&& b.local_id is Some
    &&& b.no_snapshot_restore_on_start is Some
    &&& b.skip_startup is Some
}

/// The first rule that a complete builder's settings break, if any.
pub open spec fn builder_error(b: ConfigBuilder) -> Option<Error> {
    settings_error(
        b.local_id->0,
        nanos_of(b.heartbeat_timeout->0),
        nanos_of(b.election_timeout->0),
        nanos_of(b.commit_timeout->0),
        b.max_append_entries->0,
        nanos_of(b.snapshot_interval->0),
        nanos_of(b.leader_lease_timeout->0),
    )
}

/// `c` holds exactly the settings of the complete builder `b`.
pub open spec fn config_from_builder(c: Config, b: ConfigBuilder) -> bool {
    &&& c.protocol_version == b.protocol_version->0
    &&& c.heartbeat_timeout == b.heartbeat_timeout->0
    &&& c.election_timeout == b.election_timeout->0
    &&& c.commit_timeout == b.commit_timeout->0
    &&& c.max_append_entries == b.max_append_entries->0
    &&& c.batch_apply_ch == b.batch_apply_ch->0
    &&& c.shut_down_on_remove == b.shut_down_on_remove->0
    &&& c.trailing_logs == b.trailing_logs->0
    &&& c.snapshot_interval == b.snapshot_interval->0
    &&& c.snapshot_threshold == b.snapshot_threshold->0
    &&& c.leader_lease_timeout == b.leader_lease_timeout->0
    &&& c.local_id == b.local_id->0
    &&& c.no_snapshot_restore_on_start == b.no_snapshot_restore_on_start->0
    &&& c.skip_startup == b.skip_startup->0
}

impl Default for ConfigBuilder {
    /// Every setting at its default, except `local_id`, which has none.
    fn default() -> (r: Self)
        ensures
            r.protocol_version == Some(ProtocolVersion::ProtocolVersionMax),
            is_millis(r.heartbeat_timeout, DEFAULT_HEARTBEAT_TIMEOUT_MS as int),
            is_millis(r.election_timeout, DEFAULT_ELECTION_TIMEOUT_MS as int),
            is_millis(r.commit_timeout, DEFAULT_COMMIT_TIMEOUT_MS as int),
            r.max_append_entries == Some(DEFAULT_MAX_APPEND_ENTRIES),
            r.batch_apply_ch == Some(DEFAULT_BATCH_APPLY_CH),
            r.shut_down_on_remove == Some(DEFAULT_SHUTDOWN_ON_REMOVE),
            r.trailing_logs == Some(DEFAULT_TRAILING_LOGS),
            is_millis(r.snapshot_interval, DEFAULT_SNAPSHOT_INTERVAL_MS as int),
            r.snapshot_threshold == Some(DEFAULT_SNAPSHOT_THRESHOLD),
            is_millis(r.leader_lease_timeout, DEFAULT_LEADER_LEASE_TIMEOUT_MS as int),
            r.heartbeat_timeout == Some(duration_of_millis(DEFAULT_HEARTBEAT_TIMEOUT_MS)),
            r.election_timeout == Some(duration_of_millis(DEFAULT_ELECTION_TIMEOUT_MS)),
            r.commit_timeout == Some(duration_of_millis(DEFAULT_COMMIT_TIMEOUT_MS)),
            r.snapshot_interval == Some(duration_of_millis(DEFAULT_SNAPSHOT_INTERVAL_MS)),
            r.leader_lease_timeout == Some(duration_of_millis(DEFAULT_LEADER_LEASE_TIMEOUT_MS)),
            r.local_id == None::<ServerID>,
            r.no_snapshot_restore_on_start == Some(DEFAULT_NO_SNAPSHOT_RESTORE_ON_START),
            r.skip_startup == Some(DEFAULT_STARTUP),
    {
        Self {
            protocol_version: Some(ProtocolVersion::ProtocolVersionMax),
            heartbeat_timeout: Some(Duration::from_millis(DEFAULT_HEARTBEAT_TIMEOUT_MS)),
            election_timeout: Some(Duration::from_millis(DEFAULT_ELECTION_TIMEOUT_MS)),
            commit_timeout: Some(Duration::from_millis(DEFAULT_COMMIT_TIMEOUT_MS)),
            max_append_entries: Some(DEFAULT_MAX_APPEND_ENTRIES),
            batch_apply_ch: Some(DEFAULT_BATCH_APPLY_CH),
            shut_down_on_remove: Some(DEFAULT_SHUTDOWN_ON_REMOVE),
            trailing_logs: Some(DEFAULT_TRAILING_LOGS),
            snapshot_interval: Some(Duration::from_millis(DEFAULT_SNAPSHOT_INTERVAL_MS)),
            snapshot_threshold: Some(DEFAULT_SNAPSHOT_THRESHOLD),
            leader_lease_timeout: Some(Duration::from_millis(DEFAULT_LEADER_LEASE_TIMEOUT_MS)),
            local_id: None,
            no_snapshot_restore_on_start: Some(DEFAULT_NO_SNAPSHOT_RESTORE_ON_START),
            skip_startup: Some(DEFAULT_STARTUP),
        }
    }
}

impl ConfigBuilder {
    /// `set_protocol_version` set the value of `protocol_version` in `ConfigBuilder`.
    pub fn set_protocol_version(self, protocol_version: ProtocolVersion) -> (r: Self)
        ensures
            r == (Self { protocol_version: Some(protocol_version), ..self }),
    {
        let mut b = self;
        b.protocol_version = Some(protocol_version);
        b
    }

    /// `set_local_id` set the value of `local_id` in `ConfigBuilder`.
    pub fn set_local_id(self, id: ServerID) -> (r: Self)
        ensures
            r == (Self { local_id: Some(id), ..self }),
    {
        let mut b = self;
        b.local_id = Some(id);
        b
    }

    /// `set_heartbeat_timeout` set the value of `heartbeat_timeout` in `ConfigBuilder`.
    pub fn set_heartbeat_timeout(self, timeout: Duration) -> (r: Self)
        ensures
            r == (Self { heartbeat_timeout: Some(timeout), ..self }),
    {
        let mut b = self;
        b.heartbeat_timeout = Some(timeout);
        b
    }

    /// `set_election_timeout` set the value of `election_timeout` in `ConfigBuilder`.
    pub fn set_election_timeout(self, timeout: Duration) -> (r: Self)
        ensures
            r == (Self { election_timeout: Some(timeout), ..self }),
    {
        let mut b = self;
        b.election_timeout = Some(timeout);
        b
    }

    /// `set_commit_timeout` set the value of `commit_timeout` in `ConfigBuilder`.
    pub fn set_commit_timeout(self, timeout: Duration) -> (r: Self)
        ensures
            r == (Self { commit_timeout: Some(timeout), ..self }),
    {
        let mut b = self;
        b.commit_timeout = Some(timeout);
        b
    }

    /// `set_max_append_entries` set the value of `max_append_entries` in `ConfigBuilder`.
    pub fn set_max_append_entries(self, max_entries: u64) -> (r: Self)
        ensures
            r == (Self { max_append_entries: Some(max_entries), ..self }),
    {
        let mut b = self;
        b.max_append_entries = Some(max_entries);
        b
    }

    /// `set_batch_apply_ch` set the value of `batch_apply_ch` in `ConfigBuilder`.
    pub fn set_batch_apply_ch(self, batch_apply_ch: bool) -> (r: Self)
        ensures
            r == (Self { batch_apply_ch: Some(batch_apply_ch), ..self }),
    {
        let mut b = self;
        b.batch_apply_ch = Some(batch_apply_ch);
        b
    }

    /// `set_shut_down_on_remove` set the value of `shut_down_on_remove` in `ConfigBuilder`.
    pub fn set_shut_down_on_remove(self, shut_down_on_remove: bool) -> (r: Self)
        ensures
            r == (Self { shut_down_on_remove: Some(shut_down_on_remove), ..self }),
    {
        let mut b = self;
        b.shut_down_on_remove = Some(shut_down_on_remove);
        b
    }

    /// `set_trailing_logs` set the value of `trailing_logs` in `ConfigBuilder`.
    pub fn set_trailing_logs(self, trailing_logs: u64) -> (r: Self)
        ensures
            r == (Self { trailing_logs: Some(trailing_logs), ..self }),
    {
        let mut b = self;
        b.trailing_logs = Some(trailing_logs);
        b
    }

    /// `set_snapshot_interval` set the value of `snapshot_interval` in `ConfigBuilder`
    pub fn set_snapshot_interval(self, timeout: Duration) -> (r: Self)
        ensures
            r == (Self { snapshot_interval: Some(timeout), ..self }),
    {
        let mut b = self;
        b.snapshot_interval = Some(timeout);
        b
    }

    /// `set_snapshot_threshold` set the value of `snapshot_threshold` in `ConfigBuilder`
    pub fn set_snapshot_threshold(self, threshold: u64) -> (r: Self)
        ensures
            r == (Self { snapshot_threshold: Some(threshold), ..self }),
    {
        let mut b = self;
        b.snapshot_threshold = Some(threshold);
        b
    }

    /// `set_leader_lease_timeout` set the value of `leader_lease_timeout` in `ConfigBuilder`
    pub fn set_leader_lease_timeout(self, timeout: Duration) -> (r: Self)
        ensures
            r == (Self { leader_lease_timeout: Some(timeout), ..self }),
    {
        let mut b = self;
        b.leader_lease_timeout = Some(timeout);
        b
    }

    /// `set_no_snapshot_restore_on_start` set the value of `no_snapshot_restore_on_start` in `ConfigBuilder`
    pub fn set_no_snapshot_restore_on_start(self, no_snapshot_restore_on_start: bool) -> (r: Self)
        ensures
            r == (Self { no_snapshot_restore_on_start: Some(no_snapshot_restore_on_start), ..self }),
    {
        let mut b = self;
        b.no_snapshot_restore_on_start = Some(no_snapshot_restore_on_start);
        b
    }

    /// `set_skip_startup` set the value of `skip_startup` in `ConfigBuilder`
    pub fn set_skip_startup(self, skip_startup: bool) -> (r: Self)
        ensures
            r == (Self { skip_startup: Some(skip_startup), ..self }),
    {
        let mut b = self;
        b.skip_startup = Some(skip_startup);
        b
    }

    /// `finalize` builds the `Config` from every setting and checks it. Every
    /// setting must have a value (`local_id` has none by default).
    pub fn finalize(self, notify_ch: UnboundedReceiver<bool>) -> (r: Result<Config, Error>)
        requires
            builder_complete(self),
        ensures
            match builder_error(self) {
                Some(e) => r == Err::<Config, Error>(e),
                None => r matches Ok(c) && config_from_builder(c, self) && *c.notify_ch
                    == notify_ch,
            },
            r matches Ok(c) ==> c.local_id != 0 && nanos_of(c.heartbeat_timeout) >= 5_000_000
                && nanos_of(c.election_timeout) >= 5_000_000 && nanos_of(c.commit_timeout)
                >= 1_000_000 && c.max_append_entries <= 1024 && nanos_of(c.snapshot_interval)
                >= 5_000_000 && nanos_of(c.leader_lease_timeout) >= 5_000_000 && nanos_of(
                c.leader_lease_timeout,
            ) <= nanos_of(c.heartbeat_timeout) && nanos_of(c.heartbeat_timeout) <= nanos_of(
                c.election_timeout,
            ),
    {
        let c = Config {
            protocol_version: self.protocol_version.unwrap(),
            heartbeat_timeout: self.heartbeat_timeout.unwrap(),
            election_timeout: self.election_timeout.unwrap(),
            commit_timeout: self.commit_timeout.unwrap(),
            max_append_entries: self.max_append_entries.unwrap(),
            batch_apply_ch: self.batch_apply_ch.unwrap(),
            shut_down_on_remove: self.shut_down_on_remove.unwrap(),
            trailing_logs: self.trailing_logs.unwrap(),
            snapshot_interval: self.snapshot_interval.unwrap(),
            snapshot_threshold: self.snapshot_threshold.unwrap(),
            leader_lease_timeout: self.leader_lease_timeout.unwrap(),
            local_id: self.local_id.unwrap(),
            notify_ch: Arc::new(notify_ch),
            no_snapshot_restore_on_start: self.no_snapshot_restore_on_start.unwrap(),
            skip_startup: self.skip_startup.unwrap(),
        };
        c.validate_config()
    }
}


/// `ReloadableConfig` is the subset of `Config` that may be reconfigured during
/// runtime. Reconfiguring some fields is potentially dangerous so only these
/// fields are offered.
#[derive(Debug)]
pub struct ReloadableConfig {
    /// `trailing_logs` controls how many logs we leave after a snapshot.
    pub trailing_logs: u64,
    /// `snapshot_interval` controls how often we check if we should perform a snapshot.
    pub snapshot_interval: Duration,
    /// `snapshot_threshold` controls how many outstanding logs there must be before
    /// we perform a snapshot.
    pub snapshot_threshold: u64,
}

/// The reloadable settings of `rc` and `c` agree.
pub open spec fn reloadable_matches(rc: ReloadableConfig, c: Config) -> bool {
    &&& rc.trailing_logs == c.trailing_logs
    &&& rc.snapshot_threshold == c.snapshot_threshold
    &&& nanos_of(rc.snapshot_interval) == nanos_of(c.snapshot_interval)
}

/// `to` with the reloadable settings of `rc`; `to` itself when they already agree.
pub open spec fn applied(rc: ReloadableConfig, to: Config) -> Config {
    if reloadable_matches(rc, to) {
        to
    } else {
        Config {
            trailing_logs: rc.trailing_logs,
            snapshot_threshold: rc.snapshot_threshold,
            snapshot_interval: rc.snapshot_interval,
            ..to
        }
    }
}

impl PartialEq<Config> for ReloadableConfig {
    fn eq(&self, other: &Config) -> (r: bool) {
        self.trailing_logs == other.trailing_logs && self.snapshot_threshold
            == other.snapshot_threshold && self.snapshot_interval.as_nanos()
            == other.snapshot_interval.as_nanos()
    }
}

impl vstd::std_specs::cmp::PartialEqSpecImpl<Config> for ReloadableConfig {
    open spec fn obeys_eq_spec() -> bool {
        true
    }

    open spec fn eq_spec(&self, other: &Config) -> bool {
        reloadable_matches(*self, *other)
    }
}

impl ReloadableConfig {
    /// `apply` sets the reloadable fields on the passed `Config` to the values in
    /// `ReloadableConfig`. It returns `to` with the fields from this
    /// `ReloadableConfig` set.
    pub fn apply(&self, to: Config) -> (r: Config)
        ensures
            r == applied(*self, to),
            reloadable_matches(*self, r),
            r.trailing_logs == self.trailing_logs,
            r.snapshot_threshold == self.snapshot_threshold,
            nanos_of(r.snapshot_interval) == nanos_of(self.snapshot_interval),
            r.local_id == to.local_id,
            r.heartbeat_timeout == to.heartbeat_timeout,
            r.election_timeout == to.election_timeout,
            r.commit_timeout == to.commit_timeout,
            r.leader_lease_timeout == to.leader_lease_timeout,
            r.max_append_entries == to.max_append_entries,
    {
        if self == &to {
            return to;
        }
        let mut toc = to;
        toc.trailing_logs = self.trailing_logs;
        toc.snapshot_threshold = self.snapshot_threshold;
        toc.snapshot_interval = self.snapshot_interval;
        toc
    }

    /// `from_config` copies the reloadable fields from the passed `Config`.
    pub fn from_config(from: Config) -> (r: Self)
        ensures
            r.trailing_logs == from.trailing_logs,
            r.snapshot_interval == from.snapshot_interval,
            r.snapshot_threshold == from.snapshot_threshold,
    {
        Self {
            trailing_logs: from.trailing_logs,
            snapshot_interval: from.snapshot_interval,
            snapshot_threshold: from.snapshot_threshold,
        }
    }
}

impl Default for ReloadableConfig {
    /// The default reloadable settings, the same as those of `ConfigBuilder::default`.
    fn default() -> (r: Self)
        ensures
            r.trailing_logs == DEFAULT_TRAILING_LOGS,
            nanos_of(r.snapshot_interval) == DEFAULT_SNAPSHOT_INTERVAL_MS * 1_000_000,
            r.snapshot_interval == duration_of_millis(DEFAULT_SNAPSHOT_INTERVAL_MS),
            r.snapshot_threshold == DEFAULT_SNAPSHOT_THRESHOLD,
    {
        Self {
            trailing_logs: DEFAULT_TRAILING_LOGS,
            snapshot_interval: Duration::from_millis(DEFAULT_SNAPSHOT_INTERVAL_MS),
            snapshot_threshold: DEFAULT_SNAPSHOT_THRESHOLD,
        }
    }
}


/// Some server with `id` makes a first server with `id` exist.
proof fn lemma_first_with_id_exists(servers: Seq<ServerView>, id: ServerID, i: int)
    requires
        0 <= i < servers.len(),
        servers[i].id == id,
    ensures
        exists|j: int| is_first_with_id(servers, id, j),
    decreases i,
{
    if exists|j: int| 0 <= j < i && servers[j].id == id {
        let j = choose|j: int| 0 <= j < i && servers[j].id == id;
        lemma_first_with_id_exists(servers, id, j);
    } else {
        assert(is_first_with_id(servers, id, i));
    }
}

/// No first server with `id` means no server with `id` at all.
proof fn lemma_no_server_with_id(servers: Seq<ServerView>, id: ServerID)
    requires
        first_with_id(servers, id) < 0,
    ensures
        forall|i: int| 0 <= i < servers.len() ==> servers[i].id != id,
{
    assert forall|i: int| 0 <= i < servers.len() implies servers[i].id != id by {
        if servers[i].id == id {
            lemma_first_with_id_exists(servers, id, i);
            let j = choose|j: int| is_first_with_id(servers, id, j);
            lemma_first_with_id(servers, id, j);
        }
    }
}

/// Whatever `next_configuration` returns is a sound configuration: no two
/// servers share an id or an address, and at least one server votes.
pub proof fn law_next_configuration_is_valid(
    current: Configuration,
    current_index: u64,
    change: ConfigurationChangeRequest,
    r: Result<Configuration, Error>,
)
    requires
        !is_stale_change(change, current_index),
        check_outcome(
            apply_change(current@, change.command, change.server_id, change.server_address@),
            r,
        ),
        r is Ok,
    ensures
        valid_configuration(r->Ok_0@),
{
}

/// A server that `AddStaging` adds or updates has a vote in the configuration
/// that comes out.
pub proof fn law_add_staging_grants_vote(
    current: Seq<ServerView>,
    id: ServerID,
    addr: Seq<char>,
    r: Result<Configuration, Error>,
)
    requires
        check_outcome(apply_change(current, ConfigurationChangeCommand::AddStaging, id, addr), r),
        r is Ok,
    ensures
        spec_has_vote(r->Ok_0@, id),
{
    let next = apply_change(current, ConfigurationChangeCommand::AddStaging, id, addr);
    let fi = first_with_id(current, id);
    if fi < 0 {
        lemma_no_server_with_id(current, id);
        assert(is_first_with_id(next, id, current.len() as int));
    } else {
        let j = choose|j: int| is_first_with_id(current, id, j);
        lemma_first_with_id(current, id, j);
        assert(is_first_with_id(next, id, fi));
    }
}

/// A server that `DemoteVoter` names has no vote in the configuration that
/// comes out.
pub proof fn law_demote_voter_revokes_vote(
    current: Seq<ServerView>,
    id: ServerID,
    addr: Seq<char>,
    r: Result<Configuration, Error>,
)
    requires
        check_outcome(apply_change(current, ConfigurationChangeCommand::DemoteVoter, id, addr), r),
        r is Ok,
    ensures
        !spec_has_vote(r->Ok_0@, id),
{
    let next = apply_change(current, ConfigurationChangeCommand::DemoteVoter, id, addr);
    let fi = first_with_id(current, id);
    if fi < 0 {
        lemma_no_server_with_id(current, id);
        assert(next == current);
    } else {
        let j = choose|j: int| is_first_with_id(current, id, j);
        lemma_first_with_id(current, id, j);
        assert(is_first_with_id(next, id, fi));
        if spec_has_vote(next, id) {
            let k = choose|k: int| is_first_with_id(next, id, k) && next[k].suffrage == ServerSuffrage::Voter;
            assert(k == fi);
        }
    }
}

/// After `RemoveServer` on a configuration without repeated ids, no server
/// with that id is left.
pub proof fn law_remove_server_removes(
    current: Seq<ServerView>,
    id: ServerID,
    addr: Seq<char>,
    r: Result<Configuration, Error>,
)
    requires
        distinct_servers(current),
        check_outcome(apply_change(current, ConfigurationChangeCommand::RemoveServer, id, addr), r),
        r is Ok,
    ensures
        forall|i: int| 0 <= i < r->Ok_0@.len() ==> r->Ok_0@[i].id != id,
        !spec_has_vote(r->Ok_0@, id),
{
    let next = apply_change(current, ConfigurationChangeCommand::RemoveServer, id, addr);
    let fi = first_with_id(current, id);
    if fi < 0 {
        lemma_no_server_with_id(current, id);
    } else {
        let j = choose|j: int| is_first_with_id(current, id, j);
        lemma_first_with_id(current, id, j);
        assert forall|i: int| 0 <= i < next.len() implies next[i].id != id by {
            if i < fi {
                assert(next[i] == current[i]);
            } else {
                assert(next[i] == current[i + 1]);
                if current[i + 1].id == id {
                    assert(current[fi].id == id);
                    assert(id_seen_before(current, i + 1));
                    assert(clashes(current, i + 1));
                }
            }
        }
    }
}

/// `Promote` turns the `Staging` server with that id into a voter, in a
/// configuration without repeated ids.
pub proof fn law_promote_grants_vote(
    current: Seq<ServerView>,
    id: ServerID,
    addr: Seq<char>,
    i: int,
    r: Result<Configuration, Error>,
)
    requires
        distinct_servers(current),
        0 <= i < current.len(),
        current[i].id == id,
        current[i].suffrage == ServerSuffrage::Staging,
        check_outcome(apply_change(current, ConfigurationChangeCommand::Promote, id, addr), r),
        r is Ok,
    ensures
        spec_has_vote(r->Ok_0@, id),
{
    let next = apply_change(current, ConfigurationChangeCommand::Promote, id, addr);
    assert(is_first_with_id(current, id, i)) by {
        assert forall|j: int| 0 <= j < i implies current[j].id != id by {
            if current[j].id == id {
                assert(id_seen_before(current, i));
                assert(clashes(current, i));
            }
        }
    }
    assert(is_first_staging_with_id(current, id, i));
    lemma_first_staging_with_id(current, id, i);
    assert(is_first_with_id(next, id, i));
}

/// Settings at their defaults, with a local id other than 0, pass every check.
pub proof fn law_default_settings_are_valid(b: ConfigBuilder, id: ServerID)
    requires
        id != 0,
        b.local_id == Some(id),
        is_millis(b.heartbeat_timeout, DEFAULT_HEARTBEAT_TIMEOUT_MS as int),
        is_millis(b.election_timeout, DEFAULT_ELECTION_TIMEOUT_MS as int),
        is_millis(b.commit_timeout, DEFAULT_COMMIT_TIMEOUT_MS as int),
        b.max_append_entries == Some(DEFAULT_MAX_APPEND_ENTRIES),
        is_millis(b.snapshot_interval, DEFAULT_SNAPSHOT_INTERVAL_MS as int),
        is_millis(b.leader_lease_timeout, DEFAULT_LEADER_LEASE_TIMEOUT_MS as int),
    ensures
        builder_error(b) == None::<Error>,
{
}

/// Reloading the settings a configuration already has changes nothing: `apply`
/// of what `from_config(c)` copied to `c` returns `c`.
pub proof fn law_reload_own_settings_is_identity(c: Config, rc: ReloadableConfig)
    requires
        rc.trailing_logs == c.trailing_logs,
        rc.snapshot_interval == c.snapshot_interval,
        rc.snapshot_threshold == c.snapshot_threshold,
    ensures
        applied(rc, c) == c,
{
}

/// Applying the same reloadable settings twice is applying them once, and only
/// the reloadable settings change.
pub proof fn law_apply_is_idempotent(rc: ReloadableConfig, c: Config)
    ensures
        applied(rc, applied(rc, c)) == applied(rc, c),
        reloadable_matches(rc, applied(rc, c)),
        applied(rc, c).local_id == c.local_id,
        applied(rc, c).heartbeat_timeout == c.heartbeat_timeout,
        applied(rc, c).election_timeout == c.election_timeout,
        applied(rc, c).commit_timeout == c.commit_timeout,
        applied(rc, c).leader_lease_timeout == c.leader_lease_timeout,
        applied(rc, c).max_append_entries == c.max_append_entries,
{
}


/// The name of a `ServerSuffrage`, in CamelCase.
pub open spec fn server_suffrage_name(v: ServerSuffrage) -> Seq<char> {
    match v {
        ServerSuffrage::Voter => "Voter"@,
        ServerSuffrage::Nonvoter => "Nonvoter"@,
        ServerSuffrage::Staging => "Staging"@,
    }
}

/// The `ServerSuffrage` that `s` names, if any.
pub open spec fn server_suffrage_named(s: Seq<char>) -> Option<ServerSuffrage> {
    if s == "Voter"@ {
        Some(ServerSuffrage::Voter)
    } else if s == "Nonvoter"@ {
        Some(ServerSuffrage::Nonvoter)
    } else if s == "Staging"@ {
        Some(ServerSuffrage::Staging)
    } else {
        None
    }
}

impl ServerSuffrage {
    /// The name of the value, in CamelCase.
    pub fn name(&self) -> (r: String)
        ensures
            r@ == server_suffrage_name(*self),
    {
        match self {
            ServerSuffrage::Voter => String::from_str("Voter"),
            ServerSuffrage::Nonvoter => String::from_str("Nonvoter"),
            ServerSuffrage::Staging => String::from_str("Staging"),
        }
    }

    /// The value that `s` names, written as `name` writes it.
    pub fn parse(s: &str) -> (r: Option<Self>)
        ensures
            r == server_suffrage_named(s@),
    {
        if same_text(s, "Voter") {
            return Some(ServerSuffrage::Voter);
        }
        if same_text(s, "Nonvoter") {
            return Some(ServerSuffrage::Nonvoter);
        }
        if same_text(s, "Staging") {
            return Some(ServerSuffrage::Staging);
        }
        None
    }
}

/// Parsing the name of a `ServerSuffrage` gives the value back.
pub proof fn law_server_suffrage_parse_name(v: ServerSuffrage)
    ensures
        server_suffrage_named(server_suffrage_name(v)) == Some(v),
{
    reveal_strlit("Voter");
    reveal_strlit("Nonvoter");
    reveal_strlit("Staging");
    assert("Voter"@.len() != "Nonvoter"@.len());
    assert("Voter"@.len() != "Staging"@.len());
    assert("Nonvoter"@.len() != "Staging"@.len());
}

/// The name of a `ConfigurationChangeCommand`, in CamelCase.
pub open spec fn change_command_name(v: ConfigurationChangeCommand) -> Seq<char> {
    match v {
        ConfigurationChangeCommand::AddStaging => "AddStaging"@,
        ConfigurationChangeCommand::AddNonvoter => "AddNonvoter"@,
        ConfigurationChangeCommand::DemoteVoter => "DemoteVoter"@,
        ConfigurationChangeCommand::RemoveServer => "RemoveServer"@,
        ConfigurationChangeCommand::Promote => "Promote"@,
    }
}

/// The `ConfigurationChangeCommand` that `s` names, if any.
pub open spec fn change_command_named(s: Seq<char>) -> Option<ConfigurationChangeCommand> {
    if s == "AddStaging"@ {
        Some(ConfigurationChangeCommand::AddStaging)
    } else if s == "AddNonvoter"@ {
        Some(ConfigurationChangeCommand::AddNonvoter)
    } else if s == "DemoteVoter"@ {
        Some(ConfigurationChangeCommand::DemoteVoter)
    } else if s == "RemoveServer"@ {
        Some(ConfigurationChangeCommand::RemoveServer)
    } else if s == "Promote"@ {
        Some(ConfigurationChangeCommand::Promote)
    } else {
        None
    }
}

impl ConfigurationChangeCommand {
    /// The name of the value, in CamelCase.
    pub fn name(&self) -> (r: String)
        ensures
            r@ == change_command_name(*self),
    {
        match self {
            ConfigurationChangeCommand::AddStaging => String::from_str("AddStaging"),
            ConfigurationChangeCommand::AddNonvoter => String::from_str("AddNonvoter"),
            ConfigurationChangeCommand::DemoteVoter => String::from_str("DemoteVoter"),
            ConfigurationChangeCommand::RemoveServer => String::from_str("RemoveServer"),
            ConfigurationChangeCommand::Promote => String::from_str("Promote"),
        }
    }

    /// The value that `s` names, written as `name` writes it.
    pub fn parse(s: &str) -> (r: Option<Self>)
        ensures
            r == change_command_named(s@),
    {
        if same_text(s, "AddStaging") {
            return Some(ConfigurationChangeCommand::AddStaging);
        }
        if same_text(s, "AddNonvoter") {
            return Some(ConfigurationChangeCommand::AddNonvoter);
        }
        if same_text(s, "DemoteVoter") {
            return Some(ConfigurationChangeCommand::DemoteVoter);
        }
        if same_text(s, "RemoveServer") {
            return Some(ConfigurationChangeCommand::RemoveServer);
        }
        if same_text(s, "Promote") {
            return Some(ConfigurationChangeCommand::Promote);
        }
        None
    }
}

/// Parsing the name of a `ConfigurationChangeCommand` gives the value back.
pub proof fn law_change_command_parse_name(v: ConfigurationChangeCommand)
    ensures
        change_command_named(change_command_name(v)) == Some(v),
{
    reveal_strlit("AddStaging");
    reveal_strlit("AddNonvoter");
    reveal_strlit("DemoteVoter");
    reveal_strlit("RemoveServer");
    reveal_strlit("Promote");
    assert("AddStaging"@.len() != "AddNonvoter"@.len());
    assert("AddStaging"@.len() != "DemoteVoter"@.len());
    assert("AddStaging"@.len() != "RemoveServer"@.len());
    assert("AddStaging"@.len() != "Promote"@.len());
    assert("AddNonvoter"@[0] != "DemoteVoter"@[0]);
    assert("AddNonvoter"@.len() != "RemoveServer"@.len());
    assert("AddNonvoter"@.len() != "Promote"@.len());
    assert("DemoteVoter"@.len() != "RemoveServer"@.len());
    assert("DemoteVoter"@.len() != "Promote"@.len());
    assert("RemoveServer"@.len() != "Promote"@.len());
}

/// The name of a `ProtocolVersion`, in CamelCase.
pub open spec fn protocol_version_name(v: ProtocolVersion) -> Seq<char> {
    match v {
        ProtocolVersion::ProtocolVersionMin => "ProtocolVersionMin"@,
        ProtocolVersion::ProtocolVersionMax => "ProtocolVersionMax"@,
    }
}

/// The `ProtocolVersion` that `s` names, if any.
pub open spec fn protocol_version_named(s: Seq<char>) -> Option<ProtocolVersion> {
    if s == "ProtocolVersionMin"@ {
        Some(ProtocolVersion::ProtocolVersionMin)
    } else if s == "ProtocolVersionMax"@ {
        Some(ProtocolVersion::ProtocolVersionMax)
    } else {
        None
    }
}

impl ProtocolVersion {
    /// The name of the value, in CamelCase.
    pub fn name(&self) -> (r: String)
        ensures
            r@ == protocol_version_name(*self),
    {
        match self {
            ProtocolVersion::ProtocolVersionMin => String::from_str("ProtocolVersionMin"),
            ProtocolVersion::ProtocolVersionMax => String::from_str("ProtocolVersionMax"),
        }
    }

    /// The value that `s` names, written as `name` writes it.
    pub fn parse(s: &str) -> (r: Option<Self>)
        ensures
            r == protocol_version_named(s@),
    {
        if same_text(s, "ProtocolVersionMin") {
            return Some(ProtocolVersion::ProtocolVersionMin);
        }
        if same_text(s, "ProtocolVersionMax") {
            return Some(ProtocolVersion::ProtocolVersionMax);
        }
        None
    }
}

/// Parsing the name of a `ProtocolVersion` gives the value back.
pub proof fn law_protocol_version_parse_name(v: ProtocolVersion)
    ensures
        protocol_version_named(protocol_version_name(v)) == Some(v),
{
    reveal_strlit("ProtocolVersionMin");
    reveal_strlit("ProtocolVersionMax");
    assert("ProtocolVersionMin"@[16] != "ProtocolVersionMax"@[16]);
}

/// The name of a `SnapshotVersion`, in CamelCase.
pub open spec fn snapshot_version_name(v: SnapshotVersion) -> Seq<char> {
    match v {
        SnapshotVersion::SnapshotVersionMin => "SnapshotVersionMin"@,
        SnapshotVersion::SnapshotVersionMax => "SnapshotVersionMax"@,
    }
}

/// The `SnapshotVersion` that `s` names, if any.
pub open spec fn snapshot_version_named(s: Seq<char>) -> Option<SnapshotVersion> {
    if s == "SnapshotVersionMin"@ {
        Some(SnapshotVersion::SnapshotVersionMin)
    } else if s == "SnapshotVersionMax"@ {
        Some(SnapshotVersion::SnapshotVersionMax)
    } else {
        None
    }
}

impl SnapshotVersion {
    /// The name of the value, in CamelCase.
    pub fn name(&self) -> (r: String)
        ensures
            r@ == snapshot_version_name(*self),
    {
        match self {
            SnapshotVersion::SnapshotVersionMin => String::from_str("SnapshotVersionMin"),
            SnapshotVersion::SnapshotVersionMax => String::from_str("SnapshotVersionMax"),
        }
    }

    /// The value that `s` names, written as `name` writes it.
    pub fn parse(s: &str) -> (r: Option<Self>)
        ensures
            r == snapshot_version_named(s@),
    {
        if same_text(s, "SnapshotVersionMin") {
            return Some(SnapshotVersion::SnapshotVersionMin);
        }
        if same_text(s, "SnapshotVersionMax") {
            return Some(SnapshotVersion::SnapshotVersionMax);
        }
        None
    }
}

/// Parsing the name of a `SnapshotVersion` gives the value back.
pub proof fn law_snapshot_version_parse_name(v: SnapshotVersion)
    ensures
        snapshot_version_named(snapshot_version_name(v)) == Some(v),
{
    reveal_strlit("SnapshotVersionMin");
    reveal_strlit("SnapshotVersionMax");
    assert("SnapshotVersionMin"@[16] != "SnapshotVersionMax"@[16]);
}

/// A change request made against another configuration than the current one
/// (a nonzero `prev_index` that differs from `current_index`, lower or higher)
/// is stale; one without `prev_index`, or made against the current
/// configuration, is not.
pub proof fn law_stale_change_is_refused(change: ConfigurationChangeRequest, current_index: u64)
    ensures
        change.prev_index > 0 && change.prev_index != current_index ==> is_stale_change(
            change,
            current_index,
        ),
        change.prev_index == 0 || change.prev_index == current_index ==> !is_stale_change(
            change,
            current_index,
        ),
{
}

/// The settings pass exactly when every rule holds, each stated on the values
/// themselves: a local id, heartbeat, election, snapshot and lease times of at
/// least 5 ms, a commit time of at least 1 ms, at most 1024 entries per append,
/// a lease no longer than the heartbeat timeout and an election timeout no
/// shorter than it. When the earlier rules hold and the lease is longer than
/// the heartbeat timeout, that is the rule reported.
pub proof fn law_settings_rules(
    local_id: ServerID,
    heartbeat_timeout: int,
    election_timeout: int,
    commit_timeout: int,
    max_append_entries: u64,
    snapshot_interval: int,
    leader_lease_timeout: int,
)
    ensures
        settings_error(
            local_id,
            heartbeat_timeout,
            election_timeout,
            commit_timeout,
            max_append_entries,
            snapshot_interval,
            leader_lease_timeout,
        ) is None <==> (local_id != 0 && heartbeat_timeout >= 5_000_000 && election_timeout
            >= 5_000_000 && commit_timeout >= 1_000_000 && max_append_entries <= 1024
            && snapshot_interval >= 5_000_000 && leader_lease_timeout >= 5_000_000
            && leader_lease_timeout <= heartbeat_timeout && heartbeat_timeout <= election_timeout),
        (local_id != 0 && heartbeat_timeout >= 5_000_000 && election_timeout >= 5_000_000
            && commit_timeout >= 1_000_000 && max_append_entries <= 1024 && snapshot_interval
            >= 5_000_000 && leader_lease_timeout >= 5_000_000 && leader_lease_timeout
            > heartbeat_timeout) ==> settings_error(
            local_id,
            heartbeat_timeout,
            election_timeout,
            commit_timeout,
            max_append_entries,
            snapshot_interval,
            leader_lease_timeout,
        ) == Some(Error::LeaderLeaseTimeoutLargerThanHeartbeatTimeout),
        (local_id != 0 && heartbeat_timeout >= 5_000_000 && election_timeout >= 5_000_000
            && commit_timeout >= 1_000_000 && max_append_entries <= 1024 && snapshot_interval
            >= 5_000_000 && leader_lease_timeout >= 5_000_000 && leader_lease_timeout
            <= heartbeat_timeout && election_timeout < heartbeat_timeout) ==> settings_error(
            local_id,
            heartbeat_timeout,
            election_timeout,
            commit_timeout,
            max_append_entries,
            snapshot_interval,
            leader_lease_timeout,
        ) == Some(Error::ElectionTimeoutSmallerThanHeartbeatTimeout),
{
}

/// A builder's settings pass only when the lease is no longer than the
/// heartbeat timeout and the election timeout no shorter than it.
pub proof fn law_builder_lease_within_heartbeat(b: ConfigBuilder)
    ensures
        builder_error(b) is None ==> nanos_of(b.leader_lease_timeout->0) <= nanos_of(
            b.heartbeat_timeout->0,
        ) && nanos_of(b.heartbeat_timeout->0) <= nanos_of(b.election_timeout->0),
        builder_error(b) is None ==> b.local_id->0 != 0,
{
}

/// Reloadable settings agree with a configuration only when all three agree:
/// the trailing logs, the snapshot threshold and the snapshot interval. Applying
/// them gives a configuration holding all three, with the other settings kept.
pub proof fn law_apply_sets_all_three(rc: ReloadableConfig, c: Config)
    ensures
        reloadable_matches(rc, c) ==> rc.trailing_logs == c.trailing_logs
            && rc.snapshot_threshold == c.snapshot_threshold && nanos_of(rc.snapshot_interval)
            == nanos_of(c.snapshot_interval),
        rc.eq_spec(&c) <==> (rc.trailing_logs == c.trailing_logs && rc.snapshot_threshold
            == c.snapshot_threshold && nanos_of(rc.snapshot_interval) == nanos_of(
            c.snapshot_interval,
        )),
        applied(rc, c).trailing_logs == rc.trailing_logs,
        applied(rc, c).snapshot_threshold == rc.snapshot_threshold,
        nanos_of(applied(rc, c).snapshot_interval) == nanos_of(rc.snapshot_interval),
        applied(rc, c).local_id == c.local_id,
        applied(rc, c).heartbeat_timeout == c.heartbeat_timeout,
{
}

/// A configuration that `check_configuration` accepts is returned as it was,
/// has no two servers with the same id or the same address, and has a voter.
/// A duplicate id is reported only when two servers share it, a duplicate
/// address only when two servers share it, and a missing voter only when no
/// server votes.
pub proof fn law_check_configuration_outcomes(servers: Seq<ServerView>, r: Result<Configuration, Error>)
    requires
        check_outcome(servers, r),
    ensures
        r matches Ok(c) ==> c@ == servers,
        r is Ok ==> forall|i: int, j: int|
            0 <= i < j < servers.len() ==> servers[i].id != servers[j].id && servers[i].address
                != servers[j].address,
        r is Ok ==> exists|i: int| 0 <= i < servers.len() && servers[i].suffrage == ServerSuffrage::Voter,
        r matches Err(Error::DuplicateServerID(id)) ==> exists|i: int, j: int|
            0 <= i < j < servers.len() && servers[i].id == id && servers[j].id == id,
        r matches Err(Error::DuplicateServerAddress(a)) ==> exists|i: int, j: int|
            0 <= i < j < servers.len() && servers[i].address == a@ && servers[j].address == a@,
        r matches Err(Error::NonVoter) ==> forall|i: int|
            0 <= i < servers.len() ==> servers[i].suffrage != ServerSuffrage::Voter,
{
    if r is Ok {
        assert forall|i: int, j: int| 0 <= i < j < servers.len() implies servers[i].id
            != servers[j].id && servers[i].address != servers[j].address by {
            assert(!clashes(servers, j));
            if servers[i].id == servers[j].id {
                assert(id_seen_before(servers, j));
            }
            if servers[i].address == servers[j].address {
                assert(address_seen_before(servers, j));
            }
        }
    }
    if let Err(Error::DuplicateServerID(id)) = r {
        let j = choose|j: int|
            is_first_clash(servers, j) && id_seen_before(servers, j) && id == servers[j].id;
        let i = choose|i: int| 0 <= i < j && servers[i].id == servers[j].id;
        assert(0 <= i < j < servers.len() && servers[i].id == id && servers[j].id == id);
    }
    if let Err(Error::DuplicateServerAddress(a)) = r {
        let j = choose|j: int|
            is_first_clash(servers, j) && !id_seen_before(servers, j) && a@ == servers[j].address;
        assert(address_seen_before(servers, j));
        let i = choose|i: int| 0 <= i < j && servers[i].address == servers[j].address;
        assert(0 <= i < j < servers.len() && servers[i].address == a@ && servers[j].address == a@);
    }
}

/// A server has a vote only if it is listed as a `Voter`; in a configuration
/// without repeated ids, every listed `Voter` has a vote and every other listed
/// server has none.
pub proof fn law_has_vote_means_listed_voter(servers: Seq<ServerView>, id: ServerID)
    ensures
        spec_has_vote(servers, id) ==> exists|i: int|
            0 <= i < servers.len() && servers[i].id == id && servers[i].suffrage
                == ServerSuffrage::Voter,
        distinct_servers(servers) ==> forall|i: int|
            0 <= i < servers.len() && servers[i].id == id ==> (spec_has_vote(servers, id)
                <==> servers[i].suffrage == ServerSuffrage::Voter),
{
    if distinct_servers(servers) {
        assert forall|i: int| 0 <= i < servers.len() && servers[i].id == id implies (spec_has_vote(
            servers,
            id,
        ) <==> servers[i].suffrage == ServerSuffrage::Voter) by {
            assert forall|j: int| 0 <= j < i implies servers[j].id != id by {
                if servers[j].id == id {
                    assert(id_seen_before(servers, i));
                    assert(clashes(servers, i));
                }
            }
            assert(is_first_with_id(servers, id, i));
            if spec_has_vote(servers, id) {
                let k = choose|k: int|
                    is_first_with_id(servers, id, k) && servers[k].suffrage == ServerSuffrage::Voter;
                if k < i {
                    assert(servers[k].id == id);
                } else if i < k {
                    assert(servers[i].id == id);
                }
            }
        }
    }
}

} // verus!
